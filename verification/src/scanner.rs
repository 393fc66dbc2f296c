//! Path Scanner: locates, under a snapshot of a directory tree, every file
//! whose name carries the marker extension of a filter file. The traversal
//! itself is pure: the surrounding application reads the directory tree into
//! an [`FsNode`] forest and hands it over, all-or-nothing.

use vstd::prelude::*;
use crate::errors::CmdError;

verus! {

/// The index of the last `.` in a file name, if any.
pub open spec fn last_dot(name: Seq<char>) -> Option<int>
    decreases name.len(),
{
    if name.len() == 0 {
        None
    } else if name.last() == '.' {
        Some(name.len() - 1)
    } else {
        last_dot(name.drop_last())
    }
}

/// The extension of a file name: the part after the last `.`, provided that
/// dot is not the leading character (a name that begins with its only dot is
/// a dotfile and has no extension).
pub open spec fn extension_spec(name: Seq<char>) -> Option<Seq<char>> {
    match last_dot(name) {
        None => None,
        Some(i) => if i > 0 {
            Some(name.skip(i + 1))
        } else {
            None
        },
    }
}

/// A file name marks a filter file when its extension is exactly `filter`.
pub open spec fn is_filter_name(name: Seq<char>) -> bool {
    extension_spec(name) == Some("filter"@)
}

proof fn lemma_last_dot_none(name: Seq<char>)
    requires
        forall|k: int| 0 <= k < name.len() ==> name[k] != '.',
    ensures
        last_dot(name) is None,
    decreases name.len(),
{
    if name.len() > 0 {
        lemma_last_dot_none(name.drop_last());
    }
}

proof fn lemma_last_dot_at(name: Seq<char>, i: int)
    requires
        0 <= i < name.len(),
        name[i] == '.',
        forall|k: int| i < k < name.len() ==> name[k] != '.',
    ensures
        last_dot(name) == Some(i),
    decreases name.len(),
{
    if i == name.len() - 1 {
    } else {
        lemma_last_dot_at(name.drop_last(), i);
    }
}

/// Decide whether a file name carries the marker extension.
pub fn has_filter_extension(name: &str) -> (r: bool)
    ensures
        r == is_filter_name(name@),
{
    let n: usize = name.unicode_len();
    let mut i: usize = 0;
    let mut last: usize = 0;
    let mut found: bool = false;
    while i < n
        invariant
            n == name@.len(),
            i <= n,
            found ==> last < i && name@[last as int] == '.' && (forall|k: int|
                last < k < i ==> name@[k] != '.'),
            !found ==> forall|k: int| 0 <= k < i ==> name@[k] != '.',
        decreases n - i,
    {
        if name.get_char(i) == '.' {
            found = true;
            last = i;
        }
        i = i + 1;
    }
    proof {
        if found {
            lemma_last_dot_at(name@, last as int);
        } else {
            lemma_last_dot_none(name@);
        }
    }
    if !found || last == 0 {
        return false;
    }
    let ext = name.substring_char(last + 1, n);
    let r = String::from_str(ext).eq(&String::from_str("filter"));
    proof {
        assert(ext@ =~= name@.skip(last + 1));
    }
    r
}

/// One node of a directory-tree snapshot: a plain file, or a directory with
/// the nodes read from it.
pub enum FsEntryKind {
    File,
    Dir(Vec<FsNode>),
}

/// A named node of a directory-tree snapshot.
pub struct FsNode {
    pub name: String,
    pub kind: FsEntryKind,
}

/// A path one level below a prefix, joined with the path separator.
pub open spec fn join_path(prefix: Seq<char>, name: Seq<char>) -> Seq<char> {
    prefix + "/"@ + name
}

/// The filter-file paths under one node whose own path is
/// `join_path(prefix, node.name)`.
pub open spec fn node_filters(prefix: Seq<char>, node: FsNode) -> Seq<Seq<char>>
    decreases node, 0int, 0int,
{
    let full = join_path(prefix, node.name@);
    match node.kind {
        FsEntryKind::File => if is_filter_name(node.name@) {
            seq![full]
        } else {
            Seq::<Seq<char>>::empty()
        },
        FsEntryKind::Dir(children) => forest_filters_from(full, children@, 0),
    }
}

/// The filter-file paths under the nodes of a forest from index `i` on, each
/// node standing directly under the path `prefix`.
pub open spec fn forest_filters_from(prefix: Seq<char>, nodes: Seq<FsNode>, i: int) -> Seq<
    Seq<char>,
>
    decreases nodes, 1int, nodes.len() - i,
{
    if i < 0 || i >= nodes.len() {
        Seq::<Seq<char>>::empty()
    } else {
        node_filters(prefix, nodes[i]) + forest_filters_from(prefix, nodes, i + 1)
    }
}

/// The filter-file paths under a whole forest standing directly under
/// `prefix`.
pub open spec fn forest_filters(prefix: Seq<char>, nodes: Seq<FsNode>) -> Seq<Seq<char>> {
    forest_filters_from(prefix, nodes, 0)
}

/// The paths collected so far, as character sequences.
pub open spec fn paths_view(v: Seq<String>) -> Seq<Seq<char>> {
    v.map_values(|s: String| s@)
}

fn scan_node(prefix: &str, node: &FsNode, out: &mut Vec<String>)
    ensures
        paths_view(final(out)@) == paths_view(old(out)@) + node_filters(prefix@, *node),
    decreases *node, 0int, 0int,
{
    let mut full = String::from_str(prefix);
    full.append("/");
    full.append(node.name.as_str());
    match &node.kind {
        FsEntryKind::File => {
            if has_filter_extension(node.name.as_str()) {
                out.push(full);
                proof {
                    assert(paths_view(out@) =~= paths_view(old(out)@) + node_filters(
                        prefix@,
                        *node,
                    ));
                }
            } else {
                proof {
                    assert(paths_view(out@) =~= paths_view(old(out)@) + node_filters(
                        prefix@,
                        *node,
                    ));
                }
            }
        },
        FsEntryKind::Dir(children) => {
            scan_forest(full.as_str(), children, out);
        },
    }
}

fn scan_forest(prefix: &str, nodes: &Vec<FsNode>, out: &mut Vec<String>)
    ensures
        paths_view(final(out)@) == paths_view(old(out)@) + forest_filters(prefix@, nodes@),
    decreases *nodes, 1int, 0int,
{
    let mut i: usize = 0;
    while i < nodes.len()
        invariant
            i <= nodes@.len(),
            paths_view(out@) + forest_filters_from(prefix@, nodes@, i as int) == paths_view(
                old(out)@,
            ) + forest_filters_from(prefix@, nodes@, 0),
        decreases nodes@.len() - i,
    {
        let ghost pv_before = paths_view(out@);
        scan_node(prefix, &nodes[i], out);
        proof {
            assert(forest_filters_from(prefix@, nodes@, i as int) == node_filters(
                prefix@,
                nodes@[i as int],
            ) + forest_filters_from(prefix@, nodes@, i + 1));
            assert((pv_before + node_filters(prefix@, nodes@[i as int])) + forest_filters_from(
                prefix@,
                nodes@,
                i + 1,
            ) =~= pv_before + forest_filters_from(prefix@, nodes@, i as int));
        }
        i = i + 1;
    }
    proof {
        assert(forest_filters_from(prefix@, nodes@, nodes@.len() as int) =~= Seq::<
            Seq<char>,
        >::empty());
        assert(paths_view(out@) + Seq::<Seq<char>>::empty() =~= paths_view(out@));
    }
}

/// What the application hands over for one scan request: the root was
/// missing, some directory under it could not be read (the whole traversal
/// is then discarded, all-or-nothing), or the entries read from the root,
/// recursively.
pub enum RootSnapshot {
    Missing,
    Unreadable(String),
    Tree(Vec<FsNode>),
}

/// Scan a snapshot of the tree under `root` for filter files. A missing
/// root is rejected before any traversal; a read failure discards every
/// partial result; otherwise exactly the paths of the files with the marker
/// extension come back, in traversal order.
pub fn scan_filter_files(root: &str, snapshot: RootSnapshot) -> (r: Result<Vec<String>, CmdError>)
    ensures
        match snapshot {
            RootSnapshot::Missing => r == Err::<Vec<String>, CmdError>(CmdError::NotFound),
            RootSnapshot::Unreadable(m) => r == Err::<Vec<String>, CmdError>(
                CmdError::IoFailure(m),
            ),
            RootSnapshot::Tree(nodes) => r is Ok && paths_view(r->Ok_0@) == forest_filters(
                root@,
                nodes@,
            ),
        },
{
    match snapshot {
        RootSnapshot::Missing => Err(CmdError::NotFound),
        RootSnapshot::Unreadable(m) => Err(CmdError::IoFailure(m)),
        RootSnapshot::Tree(nodes) => {
            let mut out: Vec<String> = Vec::new();
            scan_forest(root, &nodes, &mut out);
            proof {
                assert(paths_view(Seq::<String>::empty()) =~= Seq::<Seq<char>>::empty());
                assert(Seq::<Seq<char>>::empty() + forest_filters(root@, nodes@)
                    =~= forest_filters(root@, nodes@));
            }
            Ok(out)
        },
    }
}

/// The number of files with the marker extension in one node.
pub open spec fn node_filter_count(node: FsNode) -> nat
    decreases node, 0int, 0int,
{
    match node.kind {
        FsEntryKind::File => if is_filter_name(node.name@) {
            1nat
        } else {
            0nat
        },
        FsEntryKind::Dir(children) => forest_filter_count_from(children@, 0),
    }
}

/// The number of files with the marker extension in a forest from index `i`
/// on.
pub open spec fn forest_filter_count_from(nodes: Seq<FsNode>, i: int) -> nat
    decreases nodes, 1int, nodes.len() - i,
{
    if i < 0 || i >= nodes.len() {
        0nat
    } else {
        node_filter_count(nodes[i]) + forest_filter_count_from(nodes, i + 1)
    }
}

proof fn lemma_node_filters_count(prefix: Seq<char>, node: FsNode)
    ensures
        node_filters(prefix, node).len() == node_filter_count(node),
    decreases node, 0int, 0int,
{
    match node.kind {
        FsEntryKind::File => {},
        FsEntryKind::Dir(children) => {
            lemma_forest_filters_count(join_path(prefix, node.name@), children@, 0);
        },
    }
}

proof fn lemma_forest_filters_count(prefix: Seq<char>, nodes: Seq<FsNode>, i: int)
    ensures
        forest_filters_from(prefix, nodes, i).len() == forest_filter_count_from(nodes, i),
    decreases nodes, 1int, nodes.len() - i,
{
    if 0 <= i < nodes.len() {
        lemma_node_filters_count(prefix, nodes[i]);
        lemma_forest_filters_count(prefix, nodes, i + 1);
    }
}

/// However matching and non-matching files and empty subdirectories are
/// interleaved in the tree, the scan yields exactly as many paths as the
/// tree holds files with the marker extension, whatever the root path.
pub proof fn lemma_scan_finds_every_filter_file(prefix: Seq<char>, nodes: Seq<FsNode>)
    ensures
        forest_filters(prefix, nodes).len() == forest_filter_count_from(nodes, 0),
{
    lemma_forest_filters_count(prefix, nodes, 0);
}

/// A path ends in the marker suffix `.filter`.
pub open spec fn ends_with_marker(p: Seq<char>) -> bool {
    p.len() >= 7 && p.skip(p.len() - 7) == ".filter"@
}

proof fn lemma_last_dot_is_dot(name: Seq<char>)
    ensures
        last_dot(name) matches Some(i) ==> 0 <= i < name.len() && name[i] == '.',
    decreases name.len(),
{
    if name.len() > 0 && name.last() != '.' {
        lemma_last_dot_is_dot(name.drop_last());
    }
}

proof fn lemma_filter_name_has_marker_suffix(name: Seq<char>)
    requires
        is_filter_name(name),
    ensures
        name.len() >= 7,
        name.skip(name.len() - 7) == ".filter"@,
{
    lemma_last_dot_is_dot(name);
    let i = last_dot(name)->0;
    reveal_strlit("filter");
    reveal_strlit(".filter");
    assert(name.skip(i + 1) == "filter"@);
    assert(name.skip(i + 1).len() == 6);
    assert(i == name.len() - 7);
    assert(name.skip(name.len() - 7) =~= ".filter"@) by {
        assert(forall|j: int|
            1 <= j < 7 ==> #[trigger] name.skip(name.len() - 7)[j] == name.skip(i + 1)[j - 1]);
    }
}

proof fn lemma_node_filters_marked(prefix: Seq<char>, node: FsNode)
    ensures
        forall|k: int|
            0 <= k < node_filters(prefix, node).len() ==> ends_with_marker(
                #[trigger] node_filters(prefix, node)[k],
            ),
    decreases node, 0int, 0int,
{
    let full = join_path(prefix, node.name@);
    match node.kind {
        FsEntryKind::File => {
            if is_filter_name(node.name@) {
                lemma_filter_name_has_marker_suffix(node.name@);
                assert(full.skip(full.len() - 7) =~= node.name@.skip(node.name@.len() - 7));
                assert(ends_with_marker(full));
                assert forall|k: int|
                    0 <= k < node_filters(prefix, node).len() implies ends_with_marker(
                    node_filters(prefix, node)[k],
                ) by {
                    assert(node_filters(prefix, node)[k] == seq![full][0]);
                }
            }
        },
        FsEntryKind::Dir(children) => {
            lemma_forest_filters_marked(full, children@, 0);
            assert forall|k: int|
                0 <= k < node_filters(prefix, node).len() implies ends_with_marker(
                node_filters(prefix, node)[k],
            ) by {
                assert(node_filters(prefix, node)[k] == forest_filters_from(full, children@, 0)[k]);
            }
        },
    }
}

proof fn lemma_forest_filters_marked(prefix: Seq<char>, nodes: Seq<FsNode>, i: int)
    ensures
        forall|k: int|
            0 <= k < forest_filters_from(prefix, nodes, i).len() ==> ends_with_marker(
                #[trigger] forest_filters_from(prefix, nodes, i)[k],
            ),
    decreases nodes, 1int, nodes.len() - i,
{
    if 0 <= i < nodes.len() {
        lemma_node_filters_marked(prefix, nodes[i]);
        lemma_forest_filters_marked(prefix, nodes, i + 1);
        let a = node_filters(prefix, nodes[i]);
        let b = forest_filters_from(prefix, nodes, i + 1);
        assert forall|k: int|
            0 <= k < forest_filters_from(prefix, nodes, i).len() implies ends_with_marker(
            forest_filters_from(prefix, nodes, i)[k],
        ) by {
            assert(forest_filters_from(prefix, nodes, i)[k] == (a + b)[k]);
            if k < a.len() {
                assert((a + b)[k] == a[k]);
            } else {
                assert((a + b)[k] == b[k - a.len()]);
            }
        }
    }
}

/// Every path the scan returns names a filter file: it carries the marker
/// suffix, whatever the tree and the root path.
pub proof fn lemma_scan_returns_only_filter_files(prefix: Seq<char>, nodes: Seq<FsNode>)
    ensures
        forall|k: int|
            0 <= k < forest_filters(prefix, nodes).len() ==> ends_with_marker(
                #[trigger] forest_filters(prefix, nodes)[k],
            ),
{
    lemma_forest_filters_marked(prefix, nodes, 0);
}

} // verus!
