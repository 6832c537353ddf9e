use yawe::indication::{
    get_avionics_value, lookup_tree, parse_indication, parse_indication_segment, split_bytes,
};

const SEP: &str = "-----------------------------------------";

fn path(items: &[&str]) -> Vec<Vec<u8>> {
    items.iter().map(|s| s.as_bytes().to_vec()).collect()
}

fn hud_dump() -> String {
    let mut s = String::new();
    for (field, value, tail) in [
        ("HUD_BlankRoot_PH_com", "", "children are {"),
        ("HUD_Indication_bias", "", "children are {"),
        ("HUD_Window7_origin", "", "children are {"),
        ("HUD_Window7_AlignmentStatus", "ALIGN", "}"),
        ("HUD_Mach_num_origin", "", "children are {"),
        ("HUD_Window4_MachNumber_dot", ".", "}\n}\n}"),
        ("HUD_Other_root", "x", ""),
    ] {
        s.push_str(SEP);
        s.push('\n');
        s.push_str(field);
        s.push('\n');
        s.push_str(value);
        s.push('\n');
        s.push_str(tail);
        s.push('\n');
    }
    s
}

#[test]
fn test_parse_indication() {
    let s = hud_dump();
    let tree = parse_indication(s.as_bytes());
    let found = lookup_tree(
        &tree,
        &path(&[
            "HUD_BlankRoot_PH_com",
            "HUD_Indication_bias",
            "HUD_Mach_num_origin",
            "HUD_Window4_MachNumber_dot",
        ]),
    );
    assert!(found.is_some());
    assert!(found.unwrap().value == b".".to_vec());
}

#[test]
fn nested_lookup_returns_leaf_and_sibling_path_misses() {
    let dump = format!("{SEP}\nA\na\nchildren are {{\n{SEP}\nA1\nleaf\n}}\n{SEP}\nB\nb\n");
    let tree = parse_indication(dump.as_bytes());
    assert_eq!(tree.len(), 4);
    let leaf = lookup_tree(&tree, &path(&["A", "A1"])).unwrap();
    assert_eq!(leaf.field, b"A1".to_vec());
    assert_eq!(leaf.value, b"leaf".to_vec());
    assert!(lookup_tree(&tree, &path(&["A", "B"])).is_none());
    assert_eq!(lookup_tree(&tree, &path(&["B"])).unwrap().value, b"b".to_vec());
    assert_eq!(lookup_tree(&tree, &path(&[])).unwrap().field, b"root".to_vec());
}

#[test]
fn closing_past_the_root_stays_at_root() {
    let dump = format!("{SEP}\nA\na\n}}}}}}\n{SEP}\nB\nb\n");
    let tree = parse_indication(dump.as_bytes());
    assert_eq!(lookup_tree(&tree, &path(&["B"])).unwrap().value, b"b".to_vec());
}

#[test]
fn segment_reads_field_value_and_depth() {
    let seg = parse_indication_segment(b"  \nfield\nvalue\nchildren are {\n").unwrap();
    assert_eq!(seg.indication.field, b"field".to_vec());
    assert_eq!(seg.indication.value, b"value".to_vec());
    assert_eq!(seg.depth_change, 1);
    let seg = parse_indication_segment(b"f\nv\n}}\n}\n").unwrap();
    assert_eq!(seg.depth_change, -3);
    assert!(parse_indication_segment(b"only one line").is_none());
}

#[test]
fn malformed_groups_are_skipped() {
    let dump = format!("{SEP}lonely{SEP}\nB\nb\n");
    let tree = parse_indication(dump.as_bytes());
    assert_eq!(tree.len(), 2);
    assert_eq!(tree.node(1).field, b"B".to_vec());
}

#[test]
fn split_cuts_at_every_separator() {
    let parts = split_bytes(b"a::b:", b":");
    assert_eq!(parts, vec![b"a".to_vec(), b"".to_vec(), b"b".to_vec(), b"".to_vec()]);
    assert_eq!(split_bytes(b"", b"--"), vec![Vec::<u8>::new()]);
}

#[test]
fn value_lookup_on_blank_dump_is_none() {
    assert!(get_avionics_value(b"  \n ", &path(&[])).is_none());
    let s = hud_dump();
    let v = get_avionics_value(
        s.as_bytes(),
        &path(&[
            "HUD_BlankRoot_PH_com",
            "HUD_Indication_bias",
            "HUD_Window7_origin",
            "HUD_Window7_AlignmentStatus",
        ]),
    );
    assert_eq!(v, Some(b"ALIGN".to_vec()));
    assert_eq!(get_avionics_value(s.as_bytes(), &path(&["HUD_Other_root"])), Some(b"x".to_vec()));
}
