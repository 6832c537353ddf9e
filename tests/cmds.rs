use yawe::f16c50::{
    actuate_3pos_spring, cmds_root_moves, ded_return, parse_cmds_program_page, trim_bytes, CmdsProgramSlot, get_cmds_program, icp_number, parse_i8, read_cmds_bingo_page,
    set_switch_and_wait, wait_switch_state, CmdsBingo, Countermeasure, Switch, ThreePosState,
};
use yawe::indication::parse_indication;
use yawe::sequence::{Actuation, Comparison, Step};

const SEP: &str = "-----------------------------------------";

fn dump(groups: &[(&str, &str, &str)]) -> String {
    let mut s = String::new();
    for (f, v, tail) in groups {
        s.push_str(&format!("{SEP}\n{f}\n{v}\n{tail}\n"));
    }
    s
}

#[test]
fn small_numbers_parse_like_std() {
    assert_eq!(parse_i8(b" 42 "), Some(42));
    assert_eq!(parse_i8(b"-128"), Some(-128));
    assert_eq!(parse_i8(b"+7"), Some(7));
    assert_eq!(parse_i8(b"127"), Some(127));
    assert_eq!(parse_i8(b"128"), None);
    assert_eq!(parse_i8(b"-129"), None);
    assert_eq!(parse_i8(b"99999999999"), None);
    assert_eq!(parse_i8(b"1a"), None);
    assert_eq!(parse_i8(b"-"), None);
    assert_eq!(parse_i8(b"   "), None);
    for s in ["0", "007", "-0", "12", " 3\n", "+", "x", "1 2"] {
        assert_eq!(parse_i8(s.as_bytes()), s.trim().parse::<i8>().ok(), "{s:?}");
    }
}

#[test]
fn cmds_program_page_is_recognised() {
    let page = dump(&[
        ("CMDS_Prog_label", "PROG", ""),
        ("CMDS_Selected_Program", " 3", ""),
        ("CMDS_CHAFF_label", "CMDS CHAFF", ""),
    ]);
    let tree = parse_indication(page.as_bytes());
    assert_eq!(get_cmds_program(&tree), Some((Countermeasure::Chaff, 3)));

    let page = dump(&[
        ("CMDS_Prog_label", "PROG", ""),
        ("CMDS_Selected_Program", "5", ""),
        ("CMDS_FLARE_label", "CMDS FLARE", ""),
    ]);
    let tree = parse_indication(page.as_bytes());
    assert_eq!(get_cmds_program(&tree), Some((Countermeasure::Flare, 5)));

    let other = dump(&[("LIST Label", "LIST", "")]);
    assert_eq!(get_cmds_program(&parse_indication(other.as_bytes())), None);
}

#[test]
fn cmds_bingo_page_is_read() {
    let page = dump(&[
        ("CMDS_CH_Scratchpad_placeholder", "", "children are {"),
        ("CMDS_CH_Scratchpad", "10", "}"),
        ("CMDS_FL_Scratchpad_placeholder", "", "children are {"),
        ("CMDS_FL_Scratchpad", "5", "}"),
        ("CMDS_FDBK_value_placeholder", "", "children are {"),
        ("CMDS_FDBK_value", "ON", "}"),
        ("CMDS_REQCTR_value_placeholder", "", "children are {"),
        ("CMDS_REQCTR_value", "OFF", "}"),
        ("CMDS_BINGO_value_placeholder", "", "children are {"),
        ("CMDS_BINGO_value", "ON", "}"),
    ]);
    let tree = parse_indication(page.as_bytes());
    assert_eq!(
        read_cmds_bingo_page(&tree),
        Some(CmdsBingo { chaff: 10, flare: 5, feedback: true, reqctr: false, bingo: true })
    );
    let partial = dump(&[("CMDS_CH_Scratchpad_placeholder", "", "children are {"), ("CMDS_CH_Scratchpad", "10", "}")]);
    assert_eq!(read_cmds_bingo_page(&parse_indication(partial.as_bytes())), None);
}

#[test]
fn step_builders_wait_for_readbacks() {
    assert_eq!(
        wait_switch_state(Switch::IcpList, 1000),
        Step::PollUntil { device_id: 0, argument: 168, cmp: Comparison::Equal, threshold: 1000 }
    );
    let s = set_switch_and_wait(Switch::IcpEnter, 1000);
    assert_eq!(s[0], Step::Actuate(vec![Actuation::Click { device_id: 17, command: 3016, value: 1000 }]));
    let s = actuate_3pos_spring(Switch::IcpDedInc, ThreePosState::Up);
    assert_eq!(s.len(), 4);
    assert_eq!(
        s[1],
        Step::PollUntil { device_id: 0, argument: 183, cmp: Comparison::Equal, threshold: 1000 }
    );
    assert_eq!(ded_return().len(), 4);
    assert_eq!(icp_number(7).len(), 4);
    assert!(icp_number(10).is_empty());
    assert!(icp_number(-1).is_empty());
}

#[test]
fn moves_towards_first_chaff_program() {
    assert_eq!(cmds_root_moves(Countermeasure::Chaff, 1), None);
    assert_eq!(cmds_root_moves(Countermeasure::Chaff, 4), Some((false, true)));
    assert_eq!(cmds_root_moves(Countermeasure::Flare, 1), Some((true, false)));
    assert_eq!(cmds_root_moves(Countermeasure::Flare, 3), Some((true, true)));
}

#[test]
fn cmds_program_page_slot_is_read() {
    let page = dump(&[
        ("CMDS_Prog_label", "PROG", ""),
        ("CMDS_BQ_Scratchpad_placeholder", "", "children are {"),
        ("CMDS_BQ_Scratchpad", " 2", "}"),
        ("CMDS_BI_Scratchpad_placeholder", "", "children are {"),
        ("CMDS_BI_Scratchpad", " 0.020 ", "}"),
        ("CMDS_SQ_Scratchpad_placeholder", "", "children are {"),
        ("CMDS_SQ_Scratchpad", "3", "}"),
        ("CMDS_SI_Scratchpad_placeholder", "", "children are {"),
        ("CMDS_SI_Scratchpad", "1.50", "}"),
    ]);
    let tree = parse_indication(page.as_bytes());
    assert_eq!(
        parse_cmds_program_page(&tree),
        Some(CmdsProgramSlot {
            burst_quantity: 2,
            burst_interval: b"0.020".to_vec(),
            sequence_quantity: 3,
            sequence_interval: b"1.50".to_vec(),
        })
    );
    let other = dump(&[("CMDS_BQ_Scratchpad", "2", "")]);
    assert_eq!(parse_cmds_program_page(&parse_indication(other.as_bytes())), None);
    assert_eq!(trim_bytes(b" \t a b \n"), b"a b".to_vec());
}
