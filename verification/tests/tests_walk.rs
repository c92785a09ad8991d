use notox::{FsEntry, FsTree, JsonOutput, NotoxArgs, PathChange, RenamePlan};

fn options(dry_run: bool) -> NotoxArgs {
    NotoxArgs {
        dry_run,
        verbose: false,
        json_pretty: false,
        json_output: Some(JsonOutput::Default),
    }
}

fn entry(name: &str, node: FsTree) -> FsEntry {
    FsEntry {
        name: name.as_bytes().to_vec(),
        node,
    }
}

fn dir(entries: Vec<FsEntry>) -> FsTree {
    FsTree::Dir {
        read_errors: vec![],
        entries,
    }
}

fn walk(path: &str, tree: &FsTree, dry_run: bool) -> Vec<PathChange> {
    notox::clean_tree(&path.as_bytes().to_vec(), tree, &options(dry_run))
}

#[test]
fn directory_rename_propagates_to_children() {
    let tree = dir(vec![
        entry("a b.txt", FsTree::File),
        entry("sub dir", dir(vec![entry("in ner.txt", FsTree::File)])),
    ]);
    let res = walk("top dir", &tree, false);
    // one outcome for the directory plus one per entry, recursively
    assert_eq!(res.len(), 4);
    match &res[0] {
        PathChange::Changed { path, modified } => {
            assert_eq!(path, &b"top dir".to_vec());
            assert_eq!(modified, &b"top_dir".to_vec());
        }
        other => panic!("expected the directory itself to change: {:?}", other),
    }
    // every child is reported under the renamed directory
    match &res[1] {
        PathChange::Changed { path, modified } => {
            assert_eq!(path, &b"top_dir/a b.txt".to_vec());
            assert_eq!(modified, &b"top_dir/a_b.txt".to_vec());
        }
        other => panic!("expected a changed child: {:?}", other),
    }
    match &res[2] {
        PathChange::Changed { path, modified } => {
            assert_eq!(path, &b"top_dir/sub dir".to_vec());
            assert_eq!(modified, &b"top_dir/sub_dir".to_vec());
        }
        other => panic!("expected a changed subdirectory: {:?}", other),
    }
    match &res[3] {
        PathChange::Changed { path, modified } => {
            assert_eq!(path, &b"top_dir/sub_dir/in ner.txt".to_vec());
            assert_eq!(modified, &b"top_dir/sub_dir/in_ner.txt".to_vec());
        }
        other => panic!("expected a changed grandchild: {:?}", other),
    }
}

#[test]
fn dry_run_reports_would_change_and_keeps_paths() {
    let tree = dir(vec![entry("a b.txt", FsTree::File)]);
    let res = walk("top dir", &tree, true);
    assert_eq!(res.len(), 2);
    match &res[0] {
        PathChange::ErrorRename {
            path,
            modified,
            error,
        } => {
            assert_eq!(path, &b"top dir".to_vec());
            assert_eq!(modified, &b"top_dir".to_vec());
            assert_eq!(error, "dry-run");
        }
        other => panic!("expected the dry-run sentinel: {:?}", other),
    }
    // nothing was renamed, so the child is still listed under the old name
    match &res[1] {
        PathChange::ErrorRename {
            path,
            modified,
            error,
        } => {
            assert_eq!(path, &b"top dir/a b.txt".to_vec());
            assert_eq!(modified, &b"top dir/a_b.txt".to_vec());
            assert_eq!(error, "dry-run");
        }
        other => panic!("expected the dry-run sentinel: {:?}", other),
    }
    for change in &res {
        assert!(!matches!(change, PathChange::Changed { .. }));
    }
}

#[test]
fn dry_run_decision_never_asks_for_a_rename() {
    let plan = notox::clean_path(&b"a b".to_vec(), &options(true));
    assert!(matches!(plan, RenamePlan::Done(_)));
    let plan = notox::clean_path(&b"a b".to_vec(), &options(false));
    assert!(matches!(plan, RenamePlan::Rename { .. }));
}

#[test]
fn unreadable_directory_yields_one_error_and_no_descent() {
    let res = walk("plain", &FsTree::Unreadable, false);
    assert_eq!(res.len(), 2);
    assert!(matches!(res[0], PathChange::Unchanged { .. }));
    match &res[1] {
        PathChange::Error { path, error } => {
            assert_eq!(path, &b"plain".to_vec());
            assert_eq!(error, "Error while reading directory");
        }
        other => panic!("expected a listing error: {:?}", other),
    }
}

#[test]
fn unreadable_child_is_reported_under_renamed_parent() {
    let tree = dir(vec![entry("bad dir", FsTree::Unreadable)]);
    let res = walk("root x", &tree, false);
    assert_eq!(res.len(), 3);
    match &res[1] {
        PathChange::Changed { path, modified } => {
            assert_eq!(path, &b"root_x/bad dir".to_vec());
            assert_eq!(modified, &b"root_x/bad_dir".to_vec());
        }
        other => panic!("expected the subdirectory to change: {:?}", other),
    }
    match &res[2] {
        PathChange::Error { path, error } => {
            assert_eq!(path, &b"root_x/bad_dir".to_vec());
            assert_eq!(error, "Error while reading directory");
        }
        other => panic!("expected a listing error: {:?}", other),
    }
}

#[test]
fn failed_entry_reads_are_reported_without_aborting_siblings() {
    let tree = FsTree::Dir {
        read_errors: vec!["Error reading dir entry of directory bad handle".to_string()],
        entries: vec![entry("a b.txt", FsTree::File)],
    };
    let res = walk("top dir", &tree, false);
    assert_eq!(res.len(), 3);
    // the failed read is one structural error under the renamed directory,
    // before the readable entries
    match &res[1] {
        PathChange::Error { path, error } => {
            assert_eq!(path, &b"top_dir".to_vec());
            assert_eq!(error, "Error reading dir entry of directory bad handle");
        }
        other => panic!("expected a read error record: {:?}", other),
    }
    // the sibling is still processed
    match &res[2] {
        PathChange::Changed { path, modified } => {
            assert_eq!(path, &b"top_dir/a b.txt".to_vec());
            assert_eq!(modified, &b"top_dir/a_b.txt".to_vec());
        }
        other => panic!("expected the sibling to change: {:?}", other),
    }
}

#[test]
fn clean_names_walk_unchanged() {
    let tree = dir(vec![
        entry("ok.txt", FsTree::File),
        entry("also_ok", dir(vec![])),
    ]);
    let res = walk("base", &tree, false);
    assert_eq!(res.len(), 3);
    for change in &res {
        assert!(matches!(change, PathChange::Unchanged { .. }));
    }
}

#[test]
fn rename_outcome_settles_both_ways() {
    let ok = notox::rename_outcome(b"a b".to_vec(), b"a_b".to_vec(), None);
    match ok {
        PathChange::Changed { path, modified } => {
            assert_eq!(path, b"a b".to_vec());
            assert_eq!(modified, b"a_b".to_vec());
        }
        other => panic!("expected a change: {:?}", other),
    }
    let failed = notox::rename_outcome(
        b"a b".to_vec(),
        b"a_b".to_vec(),
        Some("No such file or directory (os error 2)".to_string()),
    );
    match failed {
        PathChange::ErrorRename {
            path,
            modified,
            error,
        } => {
            assert_eq!(path, b"a b".to_vec());
            assert_eq!(modified, b"a_b".to_vec());
            assert_eq!(error, "No such file or directory (os error 2)");
        }
        other => panic!("expected a rename error: {:?}", other),
    }
}

#[test]
fn paths_without_a_component_are_untouched() {
    for p in ["", "/", "//", ".", "..", "a/..", "./"] {
        let plan = notox::clean_path(&p.as_bytes().to_vec(), &options(false));
        match plan {
            RenamePlan::Done(PathChange::Unchanged { path }) => {
                assert_eq!(path, p.as_bytes().to_vec());
            }
            other => panic!("expected {:?} to be unchanged: {:?}", p, other),
        }
    }
}

#[test]
fn trailing_slash_component_is_found() {
    let plan = notox::clean_path(&b"dir x/".to_vec(), &options(false));
    match plan {
        RenamePlan::Rename { path, modified } => {
            assert_eq!(path, b"dir x/".to_vec());
            assert_eq!(modified, b"dir_x".to_vec());
        }
        other => panic!("expected a rename: {:?}", other),
    }
}

#[test]
fn nested_path_renames_only_the_final_component() {
    let plan = notox::clean_path(&b"a b/c d".to_vec(), &options(false));
    match plan {
        RenamePlan::Rename { path, modified } => {
            assert_eq!(path, b"a b/c d".to_vec());
            assert_eq!(modified, b"a b/c_d".to_vec());
        }
        other => panic!("expected a rename: {:?}", other),
    }
}
