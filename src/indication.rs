//! Indication dumps: the flat text a host gives for what a display shows,
//! parsed into a tree of (field, value) nodes and looked up by field path.
//!
//! A dump is a run of groups, each introduced by a separator line. A group
//! holds a field line, a value line, and then lines that open a child block
//! (`children are {`) or close blocks (one per `}`).
use vstd::prelude::*;

verus! {

/// The separator in front of every group: forty-one dashes.
pub open spec fn separator() -> Seq<u8> {
    Seq::new(41, |i: int| 45u8)
}

/// The line that opens a block of children.
pub open spec fn children_marker() -> Seq<u8> {
    seq![99u8, 104, 105, 108, 100, 114, 101, 110, 32, 97, 114, 101, 32, 123]
}

/// ASCII whitespace: space, tab, line feed, vertical tab, form feed, return.
pub open spec fn is_space(b: u8) -> bool {
    b == 32 || (9 <= b && b <= 13)
}

/// Index of the first byte at or after `i` that is not whitespace.
pub open spec fn skip_space(s: Seq<u8>, i: int) -> int
    decreases s.len() - i,
{
    if 0 <= i < s.len() && is_space(s[i]) {
        skip_space(s, i + 1)
    } else {
        i
    }
}

/// `s` without its leading whitespace.
pub open spec fn trim_start(s: Seq<u8>) -> Seq<u8> {
    s.subrange(skip_space(s, 0), s.len() as int)
}

/// `sep` occurs in `s` at position `i`.
pub open spec fn occurs_at(s: Seq<u8>, sep: Seq<u8>, i: int) -> bool {
    0 <= i && i + sep.len() <= s.len() && s.subrange(i, i + sep.len()) == sep
}

/// The pieces of `s[start..]` between occurrences of `sep`, scanning for the
/// next occurrence from `i`.
pub open spec fn split_from(s: Seq<u8>, sep: Seq<u8>, start: int, i: int) -> Seq<Seq<u8>>
    decreases s.len() - i,
{
    if sep.len() == 0 || i < 0 || i + sep.len() > s.len() {
        seq![s.subrange(start, s.len() as int)]
    } else if occurs_at(s, sep, i) {
        seq![s.subrange(start, i)] + split_from(s, sep, i + sep.len(), i + sep.len())
    } else {
        split_from(s, sep, start, i + 1)
    }
}

proof fn lemma_split_from_nonempty(s: Seq<u8>, sep: Seq<u8>, start: int, i: int)
    ensures
        split_from(s, sep, start, i).len() >= 1,
    decreases s.len() - i,
{
    if sep.len() == 0 || i < 0 || i + sep.len() > s.len() {
    } else if occurs_at(s, sep, i) {
        lemma_split_from_nonempty(s, sep, i + sep.len(), i + sep.len());
    } else {
        lemma_split_from_nonempty(s, sep, start, i + 1);
    }
}

/// `s` cut at every non-overlapping occurrence of `sep`, left to right; there
/// is always at least one piece.
pub open spec fn split(s: Seq<u8>, sep: Seq<u8>) -> Seq<Seq<u8>> {
    split_from(s, sep, 0, 0)
}

/// How many times byte `b` occurs in `s`.
pub open spec fn count_byte(s: Seq<u8>, b: u8) -> nat
    decreases s.len(),
{
    if s.len() == 0 {
        0
    } else {
        count_byte(s.drop_last(), b) + if s.last() == b { 1nat } else { 0nat }
    }
}

/// `x` held within the range of an `i64`.
pub open spec fn clamp64(x: int) -> int {
    if x > i64::MAX {
        i64::MAX as int
    } else if x < i64::MIN {
        i64::MIN as int
    } else {
        x
    }
}

/// What one line after the value does to the depth: a child block opens one
/// level, and every `}` closes one.
pub open spec fn line_delta(line: Seq<u8>) -> int {
    if line.len() >= children_marker().len() && line.subrange(
        0,
        children_marker().len() as int,
    ) == children_marker() {
        1
    } else {
        -(count_byte(line, 125u8) as int)
    }
}

/// The depth change of a run of lines, summed in order and held to the
/// range of an `i64` after each line.
pub open spec fn depth_of(lines: Seq<Seq<u8>>) -> int
    decreases lines.len(),
{
    if lines.len() == 0 {
        0
    } else {
        clamp64(depth_of(lines.drop_last()) + line_delta(lines.last()))
    }
}

/// A group read from one piece of a dump: field, value and depth change,
/// or nothing when the piece has fewer than two lines.
pub open spec fn segment_model(segment: Seq<u8>) -> Option<(Seq<u8>, Seq<u8>, int)> {
    let lines = split(trim_start(segment), seq![10u8]);
    if lines.len() < 2 {
        None
    } else {
        Some((lines[0], lines[1], depth_of(lines.subrange(2, lines.len() as int))))
    }
}

/// One (field, value) entry of an indication.
#[derive(Debug, PartialEq, Eq)]
pub struct IndicationNode {
    pub field: Vec<u8>,
    pub value: Vec<u8>,
}

impl IndicationNode {
    pub open spec fn view(&self) -> (Seq<u8>, Seq<u8>) {
        (self.field@, self.value@)
    }
}

/// A parsed group and the change of depth that follows it.
#[derive(Debug, PartialEq, Eq)]
pub struct IndicationSegment {
    pub indication: IndicationNode,
    pub depth_change: i64,
}

/// A copy of `s[lo..hi]`.
pub fn copy_range(s: &[u8], lo: usize, hi: usize) -> (r: Vec<u8>)
    requires
        lo <= hi <= s@.len(),
    ensures
        r@ == s@.subrange(lo as int, hi as int),
{
    let mut r: Vec<u8> = Vec::new();
    let mut i: usize = lo;
    while i < hi
        invariant
            lo <= i <= hi <= s@.len(),
            r@ == s@.subrange(lo as int, i as int),
        decreases hi - i,
    {
        r.push(s[i]);
        proof {
            assert(r@ =~= s@.subrange(lo as int, i + 1));
        }
        i = i + 1;
    }
    r
}

/// Whether `sep` occurs in `s` at position `i`.
pub fn occurs_at_exec(s: &[u8], sep: &[u8], i: usize) -> (r: bool)
    ensures
        r == occurs_at(s@, sep@, i as int),
{
    if sep.len() > s.len() || i > s.len() - sep.len() {
        return false;
    }
    let n = s.len();
    let mut k: usize = 0;
    while k < sep.len()
        invariant
            n == s@.len(),
            i + sep@.len() <= s@.len(),
            0 <= k <= sep@.len(),
            forall|j: int| 0 <= j < k ==> s@[i + j] == sep@[j],
        decreases sep@.len() - k,
    {
        if s[i + k] != sep[k] {
            proof {
                assert(s@.subrange(i as int, i + sep@.len())[k as int] != sep@[k as int]);
            }
            return false;
        }
        k = k + 1;
    }
    proof {
        assert(s@.subrange(i as int, i + sep@.len()) =~= sep@);
    }
    true
}

/// `s` cut at every occurrence of `sep`.
pub fn split_bytes(s: &[u8], sep: &[u8]) -> (r: Vec<Vec<u8>>)
    ensures
        r@.map_values(|v: Vec<u8>| v@) == split(s@, sep@),
{
    let mut out: Vec<Vec<u8>> = Vec::new();
    let mut start: usize = 0;
    let mut i: usize = 0;
    if sep.len() == 0 {
        out.push(copy_range(s, 0, s.len()));
        proof {
            assert(out@.map_values(|v: Vec<u8>| v@) =~= split(s@, sep@));
        }
        return out;
    }
    while sep.len() <= s.len() && i <= s.len() - sep.len()
        invariant
            sep@.len() > 0,
            start <= i <= s@.len(),
            out@.map_values(|v: Vec<u8>| v@) + split_from(s@, sep@, start as int, i as int)
                == split(s@, sep@),
        decreases s@.len() - i,
    {
        if occurs_at_exec(s, sep, i) {
            let piece = copy_range(s, start, i);
            let ghost before = out@.map_values(|v: Vec<u8>| v@);
            out.push(piece);
            proof {
                assert(out@.map_values(|v: Vec<u8>| v@) =~= before.push(piece@));
                assert(before + split_from(s@, sep@, start as int, i as int) =~= before.push(piece@)
                    + split_from(s@, sep@, i + sep@.len(), i + sep@.len()));
            }
            i = i + sep.len();
            start = i;
        } else {
            i = i + 1;
        }
    }
    let piece = copy_range(s, start, s.len());
    let ghost before = out@.map_values(|v: Vec<u8>| v@);
    out.push(piece);
    proof {
        assert(out@.map_values(|v: Vec<u8>| v@) =~= before.push(piece@));
        assert(before + split_from(s@, sep@, start as int, i as int) =~= before.push(piece@));
    }
    out
}

/// The bytes of the child-block marker.
fn children_marker_bytes() -> (r: Vec<u8>)
    ensures
        r@ == children_marker(),
{
    let mut r: Vec<u8> = Vec::new();
    r.push(99u8);
    r.push(104u8);
    r.push(105u8);
    r.push(108u8);
    r.push(100u8);
    r.push(114u8);
    r.push(101u8);
    r.push(110u8);
    r.push(32u8);
    r.push(97u8);
    r.push(114u8);
    r.push(101u8);
    r.push(32u8);
    r.push(123u8);
    proof {
        assert(r@ =~= children_marker());
    }
    r
}

/// How many times byte `b` occurs in `s`.
pub fn count_byte_exec(s: &[u8], b: u8) -> (r: usize)
    ensures
        r == count_byte(s@, b),
{
    let mut c: usize = 0;
    let mut i: usize = 0;
    while i < s.len()
        invariant
            0 <= i <= s@.len(),
            c <= i,
            c == count_byte(s@.subrange(0, i as int), b),
        decreases s@.len() - i,
    {
        proof {
            assert(s@.subrange(0, i + 1).drop_last() =~= s@.subrange(0, i as int));
        }
        if s[i] == b {
            c = c + 1;
        }
        i = i + 1;
    }
    proof {
        assert(s@.subrange(0, s@.len() as int) =~= s@);
    }
    c
}

/// Read one group of a dump: its first line is the field, its second the
/// value, and the lines after them give the change of depth.
pub fn parse_indication_segment(segment: &[u8]) -> (r: Option<IndicationSegment>)
    ensures
        match segment_model(segment@) {
            None => r.is_none(),
            Some(m) => r matches Some(seg) && seg.indication.field@ == m.0
                && seg.indication.value@ == m.1 && seg.depth_change as int == m.2,
        },
{
    let n = segment.len();
    let mut start: usize = 0;
    while start < n && (segment[start] == 32u8 || (9u8 <= segment[start]
        && segment[start] <= 13u8))
        invariant
            n == segment@.len(),
            0 <= start <= n,
            skip_space(segment@, start as int) == skip_space(segment@, 0),
        decreases n - start,
    {
        start = start + 1;
    }
    let trimmed = copy_range(segment, start, n);
    let mut newline: Vec<u8> = Vec::new();
    newline.push(10u8);
    proof {
        assert(newline@ =~= seq![10u8]);
    }
    let lines = split_bytes(trimmed.as_slice(), newline.as_slice());
    let ghost lv = lines@.map_values(|v: Vec<u8>| v@);
    if lines.len() < 2 {
        return None;
    }
    let marker = children_marker_bytes();
    let mut depth: i64 = 0;
    let mut j: usize = 2;
    while j < lines.len()
        invariant
            lv == lines@.map_values(|v: Vec<u8>| v@),
            lv == split(trim_start(segment@), seq![10u8]),
            marker@ == children_marker(),
            2 <= j <= lines@.len(),
            depth as int == depth_of(lv.subrange(2, j as int)),
        decreases lines@.len() - j,
    {
        let line = lines[j].as_slice();
        let delta: i128 = if occurs_at_exec(line, marker.as_slice(), 0) {
            1
        } else {
            -(count_byte_exec(line, 125u8) as i128)
        };
        let sum: i128 = depth as i128 + delta;
        depth = if sum > i64::MAX as i128 {
            i64::MAX
        } else if sum < i64::MIN as i128 {
            i64::MIN
        } else {
            sum as i64
        };
        proof {
            assert(lv[j as int] == lines@[j as int]@);
            assert(lv.subrange(2, j + 1).drop_last() =~= lv.subrange(2, j as int));
            assert(lv.subrange(2, j + 1).last() == lv[j as int]);
        }
        j = j + 1;
    }
    proof {
        assert(lv[0] == lines@[0]@);
        assert(lv[1] == lines@[1]@);
    }
    Some(
        IndicationSegment {
            indication: IndicationNode { field: lines[0].clone(), value: lines[1].clone() },
            depth_change: depth,
        },
    )
}

/// A tree as plain values: each node's (field, value), each node's parent,
/// and each node's children in order. Node 0 is the root.
pub type TreeModel = (Seq<(Seq<u8>, Seq<u8>)>, Seq<usize>, Seq<Seq<usize>>);

/// The field name of the synthetic root.
pub open spec fn root_field() -> Seq<u8> {
    seq![114u8, 111, 111, 116]
}

/// The tree that holds only the root.
pub open spec fn root_only() -> TreeModel {
    (seq![(root_field(), Seq::<u8>::empty())], seq![0usize], seq![Seq::<usize>::empty()])
}

/// Node indices are in range: every parent and every child names a node.
pub open spec fn model_wf(m: TreeModel) -> bool {
    &&& m.0.len() >= 1
    &&& m.1.len() == m.0.len()
    &&& m.2.len() == m.0.len()
    &&& forall|i: int| 0 <= i < m.1.len() ==> (#[trigger] m.1[i]) < m.0.len()
    &&& forall|i: int, k: int|
        0 <= i < m.2.len() && 0 <= k < m.2[i].len() ==> (#[trigger] m.2[i][k]) < m.0.len()
}

/// Node `c` after climbing `k` levels, stopping at the root.
pub open spec fn ascend(parents: Seq<usize>, c: int, k: nat) -> int
    decreases k,
{
    if k == 0 || c == 0 || !(0 <= c < parents.len()) {
        c
    } else {
        ascend(parents, parents[c] as int, (k - 1) as nat)
    }
}

/// Append group `g` as the last child of `curr`, then move: into the new
/// node when the depth grows, else up as many levels as it shrinks.
pub open spec fn add_group(m: TreeModel, curr: int, g: (Seq<u8>, Seq<u8>, int)) -> (TreeModel, int) {
    let n = m.0.len();
    let parents = m.1.push(curr as usize);
    let m2 = (m.0.push((g.0, g.1)), parents, m.2.update(curr, m.2[curr].push(n as usize)).push(
        Seq::<usize>::empty(),
    ));
    let next = if g.2 > 0 {
        n as int
    } else {
        ascend(parents, curr, (-g.2) as nat)
    };
    (m2, next)
}

/// The tree built from a run of groups, skipping the malformed ones, with
/// the node that the next group will join.
pub open spec fn build(groups: Seq<Option<(Seq<u8>, Seq<u8>, int)>>) -> (TreeModel, int)
    decreases groups.len(),
{
    if groups.len() == 0 {
        (root_only(), 0)
    } else {
        let prev = build(groups.drop_last());
        match groups.last() {
            None => prev,
            Some(g) => add_group(prev.0, prev.1, g),
        }
    }
}

/// The groups of a dump: the pieces after each separator, read one by one.
pub open spec fn dump_groups(dump: Seq<u8>) -> Seq<Option<(Seq<u8>, Seq<u8>, int)>> {
    split(dump, separator()).drop_first().map_values(|p: Seq<u8>| segment_model(p))
}

/// The tree a dump describes.
pub open spec fn parse_model(dump: Seq<u8>) -> TreeModel {
    build(dump_groups(dump)).0
}

/// A parsed indication: (field, value) nodes under a synthetic root, so that
/// a dump may hold several top-level groups.
#[derive(Debug)]
pub struct IndicationTree {
    nodes: Vec<IndicationNode>,
    parents: Vec<usize>,
    kids: Vec<Vec<usize>>,
}

impl IndicationTree {
    pub closed spec fn model(&self) -> TreeModel {
        (
            self.nodes@.map_values(|n: IndicationNode| n@),
            self.parents@,
            self.kids@.map_values(|k: Vec<usize>| k@),
        )
    }

    /// How many nodes the tree holds, the root included.
    pub fn len(&self) -> (r: usize)
        requires
            model_wf(self.model()),
        ensures
            r == self.model().0.len(),
    {
        self.nodes.len()
    }

    /// The node at `i`.
    pub fn node(&self, i: usize) -> (r: &IndicationNode)
        requires
            model_wf(self.model()),
            i < self.model().0.len(),
        ensures
            r@ == self.model().0[i as int],
    {
        &self.nodes[i]
    }
}

/// Parse a dump into its tree. Text before the first separator is ignored,
/// and so is any group with fewer than two lines. Closing more blocks than
/// are open stops at the root.
pub fn parse_indication(dump: &[u8]) -> (r: IndicationTree)
    ensures
        model_wf(r.model()),
        r.model() == parse_model(dump@),
{
    let sep: Vec<u8> = vec![45u8; 41];
    proof {
        assert(sep@ =~= separator());
    }
    let pieces = split_bytes(dump, sep.as_slice());
    let ghost pv = pieces@.map_values(|v: Vec<u8>| v@);
    let ghost groups = dump_groups(dump@);
    let mut root_name: Vec<u8> = Vec::new();
    root_name.push(114u8);
    root_name.push(111u8);
    root_name.push(111u8);
    root_name.push(116u8);
    proof {
        assert(root_name@ =~= root_field());
        lemma_split_from_nonempty(dump@, separator(), 0, 0);
    }
    let mut tree = IndicationTree { nodes: Vec::new(), parents: Vec::new(), kids: Vec::new() };
    let root = IndicationNode { field: root_name, value: Vec::new() };
    proof {
        assert(root@ =~= (root_field(), Seq::<u8>::empty()));
    }
    tree.nodes.push(root);
    tree.parents.push(0);
    tree.kids.push(Vec::new());
    let mut curr: usize = 0;
    proof {
        assert(tree.model().0 =~= root_only().0);
        assert(tree.model().1 =~= root_only().1);
        assert(tree.model().2 =~= root_only().2);
        assert(groups.subrange(0, 0) =~= Seq::<Option<(Seq<u8>, Seq<u8>, int)>>::empty());
    }
    let mut p: usize = 1;
    while p < pieces.len()
        invariant
            pv == pieces@.map_values(|v: Vec<u8>| v@),
            pv == split(dump@, separator()),
            groups == dump_groups(dump@),
            groups.len() == pieces@.len() - 1,
            1 <= p <= pieces@.len(),
            model_wf(tree.model()),
            curr < tree.model().0.len(),
            build(groups.subrange(0, p - 1)) == (tree.model(), curr as int),
        decreases pieces@.len() - p,
    {
        proof {
            assert(groups[p - 1] == segment_model(pieces@[p as int]@));
            assert(groups.subrange(0, p as int).drop_last() =~= groups.subrange(0, p - 1));
            assert(groups.subrange(0, p as int).last() == groups[p - 1]);
        }
        let parsed = parse_indication_segment(pieces[p].as_slice());
        match parsed {
            None => {},
            Some(seg) => {
                let ghost before = tree.model();
                let n = tree.nodes.len();
                tree.nodes.push(seg.indication);
                tree.parents.push(curr);
                tree.kids[curr].push(n);
                tree.kids.push(Vec::new());
                let ghost g = (seg.indication@.0, seg.indication@.1, seg.depth_change as int);
                proof {
                    let want = add_group(before, curr as int, g).0;
                    assert(tree.model().0 =~= want.0);
                    assert(tree.model().1 =~= want.1);
                    assert(tree.model().2 =~= want.2);
                    assert forall|i: int, k: int|
                        0 <= i < tree.model().2.len() && 0 <= k < tree.model().2[i].len() implies (
                        #[trigger] tree.model().2[i][k]) < tree.model().0.len() by {
                        if i < before.2.len() && i != curr && k < before.2[i].len() {
                            assert(tree.model().2[i][k] == before.2[i][k]);
                        }
                        if i == curr && k < before.2[i].len() {
                            assert(tree.model().2[i][k] == before.2[i][k]);
                        }
                    }
                }
                let ghost c0 = curr as int;
                if seg.depth_change > 0 {
                    curr = n;
                } else {
                    let up: u64 = if seg.depth_change == i64::MIN {
                        (i64::MAX as u64) + 1
                    } else {
                        (-seg.depth_change) as u64
                    };
                    let mut steps: u64 = 0;
                    while steps < up && curr != 0
                        invariant
                            model_wf(tree.model()),
                            curr < tree.model().0.len(),
                            steps <= up,
                            up as int == -g.2,
                            ascend(tree.model().1, curr as int, (up - steps) as nat) == ascend(
                                tree.model().1,
                                c0,
                                up as nat,
                            ),
                        decreases up - steps,
                    {
                        proof {
                            assert(tree.model().1[curr as int] == tree.parents@[curr as int]);
                        }
                        curr = tree.parents[curr];
                        steps = steps + 1;
                    }
                }
                proof {
                    assert(add_group(before, c0, g) == (tree.model(), curr as int));
                }
            },
        }
        p = p + 1;
    }
    proof {
        assert(groups.subrange(0, groups.len() as int) =~= groups);
    }
    tree
}

/// The first child of `node`, at or after position `k` of its children,
/// whose field is `key`.
pub open spec fn first_named(m: TreeModel, node: int, key: Seq<u8>, k: int) -> Option<int>
    decreases m.2[node].len() - k,
{
    if k < 0 || k >= m.2[node].len() {
        None
    } else if m.0[m.2[node][k] as int].0 == key {
        Some(m.2[node][k] as int)
    } else {
        first_named(m, node, key, k + 1)
    }
}

/// The node reached from `node` by following `path`, one field name per
/// level, taking the first child of that name each time.
pub open spec fn walk(m: TreeModel, node: int, path: Seq<Seq<u8>>) -> Option<int>
    decreases path.len(),
{
    if path.len() == 0 {
        Some(node)
    } else {
        match first_named(m, node, path[0], 0) {
            Some(c) => walk(m, c, path.drop_first()),
            None => None,
        }
    }
}

/// Whether two byte strings are equal.
pub fn bytes_eq(a: &[u8], b: &[u8]) -> (r: bool)
    ensures
        r == (a@ == b@),
{
    if a.len() != b.len() {
        return false;
    }
    let mut i: usize = 0;
    while i < a.len()
        invariant
            a@.len() == b@.len(),
            0 <= i <= a@.len(),
            forall|j: int| 0 <= j < i ==> a@[j] == b@[j],
        decreases a@.len() - i,
    {
        if a[i] != b[i] {
            return false;
        }
        i = i + 1;
    }
    proof {
        assert(a@ =~= b@);
    }
    true
}

/// Follow `path` from the root, one field name per level; nothing when
/// some level has no child of that name.
pub fn lookup_tree<'a>(tree: &'a IndicationTree, path: &Vec<Vec<u8>>) -> (r: Option<
    &'a IndicationNode,
>)
    requires
        model_wf(tree.model()),
    ensures
        match walk(tree.model(), 0, path@.map_values(|v: Vec<u8>| v@)) {
            None => r.is_none(),
            Some(i) => r matches Some(n) && n@ == tree.model().0[i],
        },
{
    let ghost m = tree.model();
    let ghost pv = path@.map_values(|v: Vec<u8>| v@);
    let mut cur: usize = 0;
    let mut idx: usize = 0;
    proof {
        assert(pv.subrange(0, pv.len() as int) =~= pv);
    }
    while idx < path.len()
        invariant
            m == tree.model(),
            model_wf(m),
            pv == path@.map_values(|v: Vec<u8>| v@),
            0 <= idx <= pv.len(),
            cur < m.0.len(),
            walk(m, 0, pv) == walk(m, cur as int, pv.subrange(idx as int, pv.len() as int)),
        decreases pv.len() - idx,
    {
        let key = path[idx].as_slice();
        let kids = &tree.kids[cur];
        let mut k: usize = 0;
        let mut found: Option<usize> = None;
        proof {
            assert(kids@ == m.2[cur as int]);
        }
        while k < kids.len()
            invariant_except_break
                found.is_none(),
            invariant
                m == tree.model(),
                model_wf(m),
                cur < m.0.len(),
                kids@ == m.2[cur as int],
                key@ == pv[idx as int],
                0 <= k <= kids@.len(),
                first_named(m, cur as int, key@, 0) == first_named(m, cur as int, key@, k as int),
            ensures
                match found {
                    None => first_named(m, cur as int, key@, 0).is_none(),
                    Some(c) => c < m.0.len() && first_named(m, cur as int, key@, 0) == Some(
                        c as int,
                    ),
                },
            decreases kids@.len() - k,
        {
            let c = kids[k];
            proof {
                assert(m.2[cur as int][k as int] == c);
                assert(m.0[c as int] == tree.nodes@[c as int]@);
            }
            if bytes_eq(tree.nodes[c].field.as_slice(), key) {
                found = Some(c);
                break;
            }
            k = k + 1;
        }
        proof {
            let rest = pv.subrange(idx as int, pv.len() as int);
            assert(rest[0] == pv[idx as int]);
            assert(rest.drop_first() =~= pv.subrange(idx + 1, pv.len() as int));
        }
        match found {
            None => {
                return None;
            },
            Some(c) => {
                cur = c;
            },
        }
        idx = idx + 1;
    }
    Some(&tree.nodes[cur])
}

/// The value at `path` in a dump, as the host's text gives it; nothing for a
/// blank dump or a path the dump does not hold.
pub open spec fn value_at(dump: Seq<u8>, path: Seq<Seq<u8>>) -> Option<Seq<u8>> {
    if trim_start(dump).len() == 0 {
        None
    } else {
        match walk(parse_model(dump), 0, path) {
            Some(i) => Some(parse_model(dump).0[i].1),
            None => None,
        }
    }
}

/// Parse `dump` and read the value at `path`.
pub fn get_avionics_value(dump: &[u8], path: &Vec<Vec<u8>>) -> (r: Option<Vec<u8>>)
    ensures
        match value_at(dump@, path@.map_values(|v: Vec<u8>| v@)) {
            None => r.is_none(),
            Some(v) => r matches Some(x) && x@ == v,
        },
{
    let n = dump.len();
    let mut start: usize = 0;
    while start < n && (dump[start] == 32u8 || (9u8 <= dump[start] && dump[start] <= 13u8))
        invariant
            n == dump@.len(),
            0 <= start <= n,
            skip_space(dump@, start as int) == skip_space(dump@, 0),
        decreases n - start,
    {
        start = start + 1;
    }
    if start == n {
        return None;
    }
    let tree = parse_indication(dump);
    match lookup_tree(&tree, path) {
        None => None,
        Some(node) => Some(node.value.clone()),
    }
}

} // verus!
