use filter_host::errors::CmdError;
use filter_host::scanner::{
    has_filter_extension, scan_filter_files, FsEntryKind, FsNode, RootSnapshot,
};

fn file(name: &str) -> FsNode {
    FsNode { name: name.to_string(), kind: FsEntryKind::File }
}

fn dir(name: &str, children: Vec<FsNode>) -> FsNode {
    FsNode { name: name.to_string(), kind: FsEntryKind::Dir(children) }
}

#[test]
fn extension_matches_only_the_marker() {
    assert!(has_filter_extension("a.filter"));
    assert!(has_filter_extension("list.v2.filter"));
    assert!(!has_filter_extension("a.txt"));
    assert!(!has_filter_extension("filter"));
    assert!(!has_filter_extension(".filter"));
    assert!(!has_filter_extension("a.filter.bak"));
    assert!(!has_filter_extension("a."));
    assert!(!has_filter_extension(""));
}

#[test]
fn scan_scenario_cfg_root() {
    let tree = vec![
        file("a.filter"),
        dir("sub", vec![file("b.filter"), file("c.txt")]),
    ];
    let got = scan_filter_files("/cfg", RootSnapshot::Tree(tree)).unwrap();
    let mut sorted = got.clone();
    sorted.sort();
    assert_eq!(sorted, vec!["/cfg/a.filter".to_string(), "/cfg/sub/b.filter".to_string()]);
}

#[test]
fn scan_finds_all_matches_at_arbitrary_depth() {
    let tree = vec![
        file("noise.txt"),
        dir("empty", vec![]),
        dir(
            "one",
            vec![
                file("x.filter"),
                dir("two", vec![dir("three", vec![file("deep.filter"), file("deep.wav")])]),
            ],
        ),
        file("y.filter"),
        dir("more-empty", vec![dir("still-empty", vec![])]),
    ];
    let got = scan_filter_files("root", RootSnapshot::Tree(tree)).unwrap();
    assert_eq!(got.len(), 3);
    assert!(got.contains(&"root/one/x.filter".to_string()));
    assert!(got.contains(&"root/one/two/three/deep.filter".to_string()));
    assert!(got.contains(&"root/y.filter".to_string()));
}

#[test]
fn scan_of_missing_root_fails_before_traversal() {
    let r = scan_filter_files("/nowhere", RootSnapshot::Missing);
    assert_eq!(r, Err(CmdError::NotFound));
    assert_eq!(CmdError::NotFound.message(), "Path does not exist");
}

#[test]
fn scan_read_failure_discards_partial_results() {
    let r = scan_filter_files("/cfg", RootSnapshot::Unreadable("permission denied".to_string()));
    assert_eq!(r, Err(CmdError::IoFailure("permission denied".to_string())));
    assert_eq!(
        CmdError::IoFailure("permission denied".to_string()).message(),
        "permission denied"
    );
}

#[test]
fn scan_of_empty_tree_is_empty() {
    let got = scan_filter_files("/cfg", RootSnapshot::Tree(vec![])).unwrap();
    assert!(got.is_empty());
}
