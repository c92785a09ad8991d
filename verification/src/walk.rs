//! The tree walker over a modeled directory tree.
//!
//! The filesystem itself cannot be reasoned about here, so the walker runs
//! over a value that models what a walk would find: a file, a listable
//! directory with its entries, or a directory whose listing fails. The walker
//! processes a directory's own rename first and lists its children under the
//! renamed path, which is the correctness property that matters when an
//! ancestor is renamed mid-walk. Every rename the plan asks for is treated as
//! performed; a caller walking a real filesystem settles each rename with
//! [`crate::rename::rename_outcome`] instead.

use crate::name::normalized;
use crate::outcome::NotoxArgs;
use crate::outcome::PathChange;
use crate::rename::clean_path;
use crate::rename::dry_run_sentinel;
use crate::rename::file_name_of;
use crate::rename::parent_prefix;
use crate::rename::with_file_name;
use crate::rename::RenamePlan;
use vstd::prelude::*;

verus! {

broadcast use vstd::std_specs::vec::group_vec_axioms;

/// What a walk finds at one path.
pub enum FsTree {
    /// A plain entry without children.
    File,
    /// A directory whose listing succeeds, with its entries.
    Dir {
        /// The error texts of listed items that could not be read. The walker
        /// reports each as one structural error, before the readable entries
        /// and without aborting them.
        read_errors: Vec<String>,
        /// The directory's readable entries.
        entries: Vec<FsEntry>,
    },
    /// A directory whose listing fails.
    Unreadable,
}

/// One directory entry: its name and what lies under it.
pub struct FsEntry {
    /// The entry's name, the final component of its path.
    pub name: Vec<u8>,
    /// The subtree under the entry.
    pub node: FsTree,
}

/// A name a directory listing can actually return: nonempty, without a path
/// separator, and not one of the two special components.
pub open spec fn entry_name_wf(name: Seq<u8>) -> bool {
    &&& name.len() > 0
    &&& !name.contains(47u8)
    &&& name != seq![46u8]
    &&& name != seq![46u8, 46u8]
}

/// Every entry name in the tree is one a directory listing can return.
pub open spec fn tree_wf(t: FsTree) -> bool
    decreases t,
{
    match t {
        FsTree::Dir { entries, .. } => forall|i: int|
            0 <= i < entries@.len() ==> entry_name_wf(#[trigger] entries@[i].name@) && tree_wf(
                entries@[i].node,
            ),
        _ => true,
    }
}

/// How many outcome records a walk of the tree produces: one for the visited
/// path itself, one more for a failed listing, one per failed entry read,
/// and one per readable entry, recursively.
pub open spec fn outcome_count(t: FsTree) -> nat
    decreases t, 0int,
{
    match t {
        FsTree::File => 1,
        FsTree::Unreadable => 2,
        FsTree::Dir { read_errors, entries } => 1 + read_errors@.len() + entries_outcome_count(
            entries@,
            0,
        ),
    }
}

/// The records produced by the entries of a directory, from index `i` on.
pub open spec fn entries_outcome_count(es: Seq<FsEntry>, i: int) -> nat
    decreases es, es.len() - i,
{
    if i < 0 || i >= es.len() {
        0
    } else {
        outcome_count(es[i].node) + entries_outcome_count(es, i + 1)
    }
}

/// The abstract content of one outcome record: the visited path, the path it
/// was or would be renamed to, and an error text. `Unchanged` carries
/// neither, `Changed` only the modified path, `ErrorRename` both, and a
/// structural `Error` only the text.
pub ghost struct SpecChange {
    /// The visited path.
    pub path: Seq<u8>,
    /// The modified path, when a rename was computed.
    pub modified: Option<Seq<u8>>,
    /// The error text, when the outcome is one.
    pub error: Option<Seq<char>>,
}

impl PathChange {
    /// The abstract content of the record.
    pub open spec fn record(&self) -> SpecChange {
        match self {
            PathChange::Unchanged { path } => SpecChange {
                path: path@,
                modified: Option::None,
                error: Option::None,
            },
            PathChange::Changed { path, modified } => SpecChange {
                path: path@,
                modified: Option::Some(modified@),
                error: Option::None,
            },
            PathChange::ErrorRename { path, modified, error } => SpecChange {
                path: path@,
                modified: Option::Some(modified@),
                error: Option::Some(error@),
            },
            PathChange::Error { path, error } => SpecChange {
                path: path@,
                modified: Option::None,
                error: Option::Some(error@),
            },
        }
    }
}

/// The abstract records of a sequence of outcome records.
pub open spec fn records_of(s: Seq<PathChange>) -> Seq<SpecChange> {
    s.map_values(|pc: PathChange| pc.record())
}

/// The error text of a directory whose listing fails.
pub open spec fn listing_error() -> Seq<char> {
    "Error while reading directory"@
}

/// The record the renamer produces for the visited path itself, with every
/// asked rename performed: an unchanged name stays, a changed name under a
/// dry run keeps the sentinel error, and a changed name otherwise is renamed.
pub open spec fn own_record(path: Seq<u8>, dry_run: bool) -> SpecChange {
    match file_name_of(path) {
        Option::None => SpecChange { path, modified: Option::None, error: Option::None },
        Option::Some(name) => {
            let cleaned = normalized(name);
            if cleaned == name {
                SpecChange { path, modified: Option::None, error: Option::None }
            } else if dry_run {
                SpecChange {
                    path,
                    modified: Option::Some(with_file_name(path, cleaned)),
                    error: Option::Some(dry_run_sentinel()),
                }
            } else {
                SpecChange {
                    path,
                    modified: Option::Some(with_file_name(path, cleaned)),
                    error: Option::None,
                }
            }
        },
    }
}

/// The path a directory is listed under after its own rename attempt: the
/// renamed path when a rename was asked for and performed, the original
/// otherwise.
pub open spec fn listed_path(path: Seq<u8>, dry_run: bool) -> Seq<u8> {
    match file_name_of(path) {
        Option::Some(name) => if normalized(name) != name && !dry_run {
            with_file_name(path, normalized(name))
        } else {
            path
        },
        Option::None => path,
    }
}

/// The structural error records of the listed items that could not be read,
/// one per failure, each speaking of the directory as it is listed.
pub open spec fn read_error_records(listed: Seq<u8>, errs: Seq<String>) -> Seq<SpecChange> {
    errs.map_values(
        |e: String| SpecChange { path: listed, modified: Option::None, error: Option::Some(e@) },
    )
}

/// Every record a walk of the tree at `path` produces, in walk order: the
/// visited path's own record first, then one error record per failed entry
/// read, then the records of each readable entry in turn, each child visited
/// at the listed path joined with its name.
pub open spec fn walk_records(path: Seq<u8>, t: FsTree, dry_run: bool) -> Seq<SpecChange>
    decreases t, 0int,
{
    let own = own_record(path, dry_run);
    let listed = listed_path(path, dry_run);
    match t {
        FsTree::File => seq![own],
        FsTree::Unreadable => seq![
            own,
            SpecChange {
                path: listed,
                modified: Option::None,
                error: Option::Some(listing_error()),
            },
        ],
        FsTree::Dir { read_errors, entries } => seq![own] + read_error_records(
            listed,
            read_errors@,
        ) + entry_records_from(listed, entries@, 0, dry_run),
    }
}

/// The records of the entries of a directory listed at `listed`, from index
/// `i` on.
pub open spec fn entry_records_from(
    listed: Seq<u8>,
    es: Seq<FsEntry>,
    i: int,
    dry_run: bool,
) -> Seq<SpecChange>
    decreases es, es.len() - i,
{
    if i < 0 || i >= es.len() {
        Seq::empty()
    } else {
        walk_records(listed + seq![47u8] + es[i].name@, es[i].node, dry_run)
            + entry_records_from(listed, es, i + 1, dry_run)
    }
}

/// True when `p` begins with `prefix`.
pub open spec fn starts_with(p: Seq<u8>, prefix: Seq<u8>) -> bool {
    p.len() >= prefix.len() && p.take(prefix.len() as int) == prefix
}

proof fn lemma_starts_with_trans(a: Seq<u8>, b: Seq<u8>, c: Seq<u8>)
    requires
        starts_with(a, b),
        starts_with(b, c),
    ensures
        starts_with(a, c),
{
    assert(a.take(c.len() as int) =~= a.take(b.len() as int).take(c.len() as int));
}

proof fn lemma_concat_starts_with(prefix: Seq<u8>, rest: Seq<u8>)
    ensures
        starts_with(prefix + rest, prefix),
{
    assert((prefix + rest).take(prefix.len() as int) =~= prefix);
}

/// The start of the last component of a path ending in a slash-free run is
/// right after that slash.
proof fn lemma_comp_start_after_slash(base: Seq<u8>, name: Seq<u8>)
    requires
        !name.contains(47u8),
    ensures
        crate::rename::comp_start(base + seq![47u8] + name) == base.len() + 1,
    decreases name.len(),
{
    let p = base + seq![47u8] + name;
    if name.len() == 0 {
        assert(p.last() == 47);
    } else {
        assert(p.last() == name.last());
        assert(name.last() != 47) by {
            assert(name[name.len() - 1] == name.last());
        }
        assert(p.drop_last() =~= base + seq![47u8] + name.drop_last());
        assert(!name.drop_last().contains(47u8)) by {
            if name.drop_last().contains(47u8) {
                let j = choose|j: int|
                    0 <= j < name.drop_last().len() && name.drop_last()[j] == 47u8;
                assert(name[j] == 47u8);
            }
        }
        lemma_comp_start_after_slash(base, name.drop_last());
    }
}

/// Joining a listable entry name onto a directory path yields a path whose
/// final component is exactly that name and whose parent prefix is the
/// directory path with the joining slash.
proof fn lemma_child_component(base: Seq<u8>, name: Seq<u8>)
    requires
        entry_name_wf(name),
    ensures
        file_name_of(base + seq![47u8] + name) == Option::Some(name),
        parent_prefix(base + seq![47u8] + name) == base + seq![47u8],
{
    let p = base + seq![47u8] + name;
    assert(p.last() == name.last()) by {
        assert(name[name.len() - 1] == name.last());
    }
    assert(name.last() != 47);
    assert(p.last() != 47);
    // the path cannot end in a special component: its characters come from
    // the slash-free name
    if crate::rename::ends_in_parent_dir(p) {
        if p.len() == 2 || p[p.len() - 3] == 47 {
            if name.len() == 1 {
                assert(p[p.len() - 2] == 47);
            } else if name.len() == 2 {
                assert(name =~= seq![46u8, 46u8]);
            } else {
                assert(p[p.len() - 3] == name[name.len() - 3]);
            }
        }
    }
    if crate::rename::ends_in_cur_dir(p) {
        if name.len() == 1 {
            assert(name =~= seq![46u8]);
        } else {
            assert(p[p.len() - 2] == name[name.len() - 2]);
        }
    }
    lemma_comp_start_after_slash(base, name);
    assert(p.subrange(base.len() as int + 1, p.len() as int) =~= name);
    assert(p.take(base.len() as int + 1) =~= base + seq![47u8]);
}

/// Join an entry name onto a directory path.
fn join_path(base: &Vec<u8>, name: &Vec<u8>) -> (r: Vec<u8>)
    ensures
        r@ == base@ + seq![47u8] + name@,
{
    let mut r = base.clone();
    r.push(47);
    for j in 0..name.len()
        invariant
            r@ == base@ + seq![47u8] + name@.take(j as int),
    {
        r.push(name[j]);
        proof {
            assert(base@ + seq![47u8] + name@.take(j + 1 as int) =~= (base@ + seq![47u8]
                + name@.take(j as int)).push(name@[j as int]));
        }
    }
    proof {
        assert(base@ + seq![47u8] + name@.take(name@.len() as int) =~= base@ + seq![47u8]
            + name@);
        assert(base@ + seq![47u8] + Seq::<u8>::empty() =~= base@.push(47u8));
    }
    r
}

/// Clean a directory subtree: process the visited path itself first, then,
/// when its rename went through, list and process every entry under the
/// renamed path. The records come back in walk order, one per visited path,
/// with a failed listing adding one structural error record.
///
/// A dry run settles every record here and reports no path as changed; when
/// the walked tree is a faithful model of a filesystem, the walk therefore
/// mutates nothing.
pub fn clean_tree(dir_path: &Vec<u8>, tree: &FsTree, options: &NotoxArgs) -> (r: Vec<PathChange>)
    ensures
        records_of(r@) == walk_records(dir_path@, *tree, options.dry_run),
        r@.len() == outcome_count(*tree),
        r@.len() >= 1 && r@[0].record() == own_record(dir_path@, options.dry_run),
        tree_wf(*tree) ==> forall|i: int|
            1 <= i < r@.len() ==> starts_with(
                (#[trigger] r@[i]).spec_path(),
                listed_path(dir_path@, options.dry_run),
            ),
        options.dry_run ==> forall|i: int| 0 <= i < r@.len() ==> !(#[trigger] r@[i]).is_changed(),
    decreases *tree,
{
    let plan = clean_path(dir_path, options);
    let listed: Vec<u8>;
    let own: PathChange;
    match plan {
        RenamePlan::Done(pc) => {
            listed = dir_path.clone();
            own = pc;
        },
        RenamePlan::Rename { path, modified } => {
            listed = modified.clone();
            own = PathChange::Changed { path, modified };
        },
    }
    proof {
        assert(own.record() == own_record(dir_path@, options.dry_run));
        assert(listed@ == listed_path(dir_path@, options.dry_run));
    }
    let mut result: Vec<PathChange> = Vec::new();
    match tree {
        FsTree::File => {
            result.push(own);
            proof {
                assert(records_of(result@) =~= seq![own_record(dir_path@, options.dry_run)]);
            }
            result
        },
        FsTree::Unreadable => {
            result.push(own);
            result.push(
                PathChange::Error { path: listed, error: "Error while reading directory".to_owned() },
            );
            proof {
                assert(records_of(result@) =~= walk_records(dir_path@, *tree, options.dry_run));
                assert(starts_with(listed_path(dir_path@, options.dry_run), listed_path(dir_path@, options.dry_run))) by {
                    let lp = listed_path(dir_path@, options.dry_run);
                    assert(lp.take(lp.len() as int) =~= lp);
                }
            }
            result
        },
        FsTree::Dir { read_errors, entries } => {
            result.push(own);
            let ghost dry = options.dry_run;
            let ghost own_rec = own_record(dir_path@, dry);
            proof {
                assert(records_of(result@) =~= seq![own_rec]);
            }
            for k in 0..read_errors.len()
                invariant
                    listed@ == listed_path(dir_path@, dry),
                    dry == options.dry_run,
                    result@.len() == 1 + k,
                    result@[0].record() == own_rec,
                    own_rec == own_record(dir_path@, dry),
                    records_of(result@) == seq![own_rec] + read_error_records(
                        listed@,
                        read_errors@.take(k as int),
                    ),
                    forall|j: int|
                        1 <= j < result@.len() ==> ((#[trigger] result@[j]) matches PathChange::Error {
                            path,
                            ..
                        } && path@ == listed@),
            {
                let ghost before = result@;
                result.push(
                    PathChange::Error { path: listed.clone(), error: read_errors[k].clone() },
                );
                proof {
                    assert(records_of(result@) =~= records_of(before).push(
                        result@.last().record(),
                    ));
                    assert(read_error_records(listed@, read_errors@.take(k + 1 as int))
                        =~= read_error_records(listed@, read_errors@.take(k as int)).push(
                        result@.last().record(),
                    ));
                    assert(records_of(result@) =~= seq![own_rec] + read_error_records(
                        listed@,
                        read_errors@.take(k + 1 as int),
                    ));
                }
            }
            proof {
                assert(read_errors@.take(read_errors@.len() as int) =~= read_errors@);
                assert(listed@.take(listed@.len() as int) =~= listed@);
                assert(records_of(result@) + entry_records_from(listed@, entries@, 0, dry)
                    =~= seq![own_rec] + read_error_records(listed@, read_errors@)
                    + entry_records_from(listed@, entries@, 0, dry));
            }
            for i in 0..entries.len()
                invariant
                    *tree == (FsTree::Dir { read_errors: *read_errors, entries: *entries }),
                    listed@ == listed_path(dir_path@, dry),
                    dry == options.dry_run,
                    result@.len() >= 1,
                    result@[0].record() == own_rec,
                    own_rec == own_record(dir_path@, dry),
                    records_of(result@) + entry_records_from(listed@, entries@, i as int, dry)
                        == seq![own_rec] + read_error_records(listed@, read_errors@)
                        + entry_records_from(listed@, entries@, 0, dry),
                    result@.len() + entries_outcome_count(entries@, i as int) == 1
                        + read_errors@.len() + entries_outcome_count(entries@, 0),
                    tree_wf(*tree) ==> forall|j: int|
                        1 <= j < result@.len() ==> starts_with(
                            (#[trigger] result@[j]).spec_path(),
                            listed@,
                        ),
                    dry ==> forall|j: int|
                        0 <= j < result@.len() ==> !(#[trigger] result@[j]).is_changed(),
            {
                let entry = &entries[i];
                let child_path = join_path(&listed, &entry.name);
                proof {
                    assert(decreases_to!(*tree => *entries));
                    assert(decreases_to!(*entries => entries@));
                    assert(decreases_to!(entries@ => entries@[i as int]));
                    assert(decreases_to!(entries@[i as int] => entries@[i as int].node));
                }
                let mut sub = clean_tree(&child_path, &entry.node, options);
                let ghost old_result = result@;
                let ghost sub_snap = sub@;
                result.append(&mut sub);
                proof {
                    assert(records_of(result@) =~= records_of(old_result) + records_of(sub_snap));
                    assert(records_of(sub_snap) == walk_records(
                        child_path@,
                        entries@[i as int].node,
                        dry,
                    ));
                    assert(records_of(result@) + entry_records_from(listed@, entries@, i + 1 as int, dry)
                        =~= records_of(old_result) + entry_records_from(listed@, entries@, i as int, dry));
                    if tree_wf(*tree) {
                        assert(entry_name_wf(entries@[i as int].name@) && tree_wf(
                            entries@[i as int].node,
                        ));
                        lemma_child_component(listed@, entry.name@);
                        assert(starts_with(child_path@, listed@)) by {
                            assert(child_path@.take(listed@.len() as int) =~= listed@);
                        }
                        let clp = listed_path(child_path@, dry);
                        assert(starts_with(clp, listed@)) by {
                            if file_name_of(child_path@) == Option::Some(entry.name@)
                                && normalized(entry.name@) != entry.name@ && !dry {
                                assert(clp == parent_prefix(child_path@) + normalized(entry.name@));
                                lemma_concat_starts_with(listed@ + seq![47u8], normalized(entry.name@));
                                lemma_concat_starts_with(listed@, seq![47u8]);
                                lemma_starts_with_trans(
                                    clp,
                                    listed@ + seq![47u8],
                                    listed@,
                                );
                            } else {
                                assert(clp == child_path@);
                            }
                        }
                        assert forall|j: int| 1 <= j < result@.len() implies starts_with(
                            (#[trigger] result@[j]).spec_path(),
                            listed@,
                        ) by {
                            if j < old_result.len() {
                                assert(result@[j] == old_result[j]);
                            } else {
                                let k = j - old_result.len();
                                assert(result@[j] == sub_snap[k]);
                                if k == 0 {
                                    assert(sub_snap[0].record().path == child_path@);
                                } else {
                                    lemma_starts_with_trans(
                                        sub_snap[k].spec_path(),
                                        clp,
                                        listed@,
                                    );
                                }
                            }
                        }
                    }
                }
            }
            proof {
                assert(entry_records_from(listed@, entries@, entries@.len() as int, dry)
                    =~= Seq::<SpecChange>::empty());
                assert(records_of(result@) =~= records_of(result@) + Seq::<SpecChange>::empty());
            }
            result
        },
    }
}

} // verus!
