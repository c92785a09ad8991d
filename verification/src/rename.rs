//! The path renamer: extracts the final component of a path, normalizes it,
//! and decides whether and to what the path should be renamed.
//!
//! Component extraction follows the platform convention: trailing slashes and
//! trailing current-directory components are ignored, a path whose final
//! component is the parent-directory marker has no file name, and the file
//! name is the part after the last remaining slash.

use crate::name::clean_name;
use crate::name::normalized;
use crate::outcome::NotoxArgs;
use crate::outcome::PathChange;
use vstd::prelude::*;

verus! {

/// The index right after the last slash of the sequence, or zero when it has
/// no slash.
pub open spec fn comp_start(p: Seq<u8>) -> int
    decreases p.len(),
{
    if p.len() == 0 {
        0
    } else if p.last() == 47 {
        p.len() as int
    } else {
        comp_start(p.drop_last())
    }
}

/// True when the sequence ends in a bare current-directory component: it is
/// exactly `.`, or ends in `/.`.
pub open spec fn ends_in_cur_dir(p: Seq<u8>) -> bool {
    p.len() >= 1 && p.last() == 46 && (p.len() == 1 || p[p.len() - 2] == 47)
}

/// True when the sequence ends in a bare parent-directory component: it is
/// exactly `..`, or ends in `/..`.
pub open spec fn ends_in_parent_dir(p: Seq<u8>) -> bool {
    p.len() >= 2 && p.last() == 46 && p[p.len() - 2] == 46 && (p.len() == 2 || p[p.len() - 3]
        == 47)
}

/// The final path component, or `None` when the path has none: it is empty,
/// a root of slashes, or ends in a parent-directory component.
pub open spec fn file_name_of(p: Seq<u8>) -> Option<Seq<u8>>
    decreases p.len(),
{
    if p.len() == 0 {
        Option::None
    } else if p.last() == 47 {
        file_name_of(p.drop_last())
    } else if ends_in_parent_dir(p) {
        Option::None
    } else if ends_in_cur_dir(p) {
        file_name_of(p.drop_last())
    } else {
        Option::Some(p.subrange(comp_start(p), p.len() as int))
    }
}

/// What precedes the final path component, up to and including its slash.
pub open spec fn parent_prefix(p: Seq<u8>) -> Seq<u8>
    decreases p.len(),
{
    if p.len() == 0 {
        Seq::empty()
    } else if p.last() == 47 {
        parent_prefix(p.drop_last())
    } else if ends_in_cur_dir(p) {
        parent_prefix(p.drop_last())
    } else {
        p.take(comp_start(p))
    }
}

/// The path with its final component replaced.
pub open spec fn with_file_name(p: Seq<u8>, name: Seq<u8>) -> Seq<u8> {
    parent_prefix(p) + name
}

/// The sentinel error text of a rename that was computed but withheld because
/// the run is a dry run.
pub open spec fn dry_run_sentinel() -> Seq<char> {
    "dry-run"@
}

/// Find the final path component: returns the index range it occupies, with
/// everything before the range being the parent prefix; `None` when the path
/// has no component to rename.
fn find_component(p: &Vec<u8>) -> (r: Option<(usize, usize)>)
    ensures
        match r {
            Option::Some((start, end)) => {
                &&& 0 <= start < end <= p@.len()
                &&& file_name_of(p@) == Option::Some(p@.subrange(start as int, end as int))
                &&& parent_prefix(p@) == p@.take(start as int)
            },
            Option::None => file_name_of(p@) is None,
        },
{
    let mut end: usize = p.len();
    proof {
        assert(p@.take(p@.len() as int) =~= p@);
    }
    loop
        invariant
            end <= p.len(),
            file_name_of(p@) == file_name_of(p@.take(end as int)),
            parent_prefix(p@) == parent_prefix(p@.take(end as int)),
        decreases end,
    {
        if end == 0 {
            return Option::None;
        }
        proof {
            assert(p@.take(end as int).drop_last() =~= p@.take(end - 1 as int));
        }
        if p[end - 1] == 47 {
            end = end - 1;
        } else if p[end - 1] == 46 && (end == 1 || p[end - 2] == 47) {
            // a current-directory component: skip its dot
            end = end - 1;
        } else if p[end - 1] == 46 && p[end - 2] == 46 && (end == 2 || p[end - 3] == 47) {
            // a parent-directory component: nothing to rename
            return Option::None;
        } else {
            // scan left for the slash that begins the component
            let ghost q = p@.take(end as int);
            let mut start: usize = end;
            while start > 0 && p[start - 1] != 47
                invariant
                    0 <= start <= end <= p@.len(),
                    comp_start(q) == comp_start(p@.take(start as int)),
                decreases start,
            {
                proof {
                    assert(p@.take(start as int).drop_last() =~= p@.take(start - 1 as int));
                }
                start = start - 1;
            }
            proof {
                assert(comp_start(p@.take(start as int)) == start);
                assert(q.subrange(comp_start(q), q.len() as int) =~= p@.subrange(
                    start as int,
                    end as int,
                ));
                assert(q.take(comp_start(q)) =~= p@.take(start as int));
            }
            return Option::Some((start, end));
        }
    }
}

/// Compare two byte vectors.
fn bytes_eq(a: &Vec<u8>, b: &Vec<u8>) -> (r: bool)
    ensures
        r == (a@ == b@),
{
    if a.len() != b.len() {
        return false;
    }
    for i in 0..a.len()
        invariant
            a@.len() == b@.len(),
            forall|j: int| 0 <= j < i ==> a@[j] == b@[j],
    {
        if a[i] != b[i] {
            return false;
        }
    }
    proof {
        assert(a@ =~= b@);
    }
    true
}

/// The decision the renamer takes for one path.
#[derive(Debug, Clone, PartialEq, Eq)]
pub enum RenamePlan {
    /// The outcome is already settled without touching the filesystem: the
    /// path needs no change, or the run is a dry run.
    Done(PathChange),
    /// The path should be renamed to `modified`; the caller performs the
    /// rename and settles the outcome with [`rename_outcome`].
    Rename {
        /// The original path
        path: Vec<u8>,
        /// The path to rename it to
        modified: Vec<u8>,
    },
}

/// What [`clean_path`] decides for a path: if the path has no final component
/// it is left unchanged; otherwise the component is normalized, and an
/// unchanged name is reported as such, a changed name under a dry run is
/// reported with the sentinel error, and a changed name otherwise asks the
/// caller for a rename. A dry run never asks for one.
pub open spec fn rename_decision(path: Seq<u8>, dry_run: bool, r: RenamePlan) -> bool {
    match file_name_of(path) {
        Option::None => r matches RenamePlan::Done(PathChange::Unchanged { path: q }) && q@
            == path,
        Option::Some(name) => {
            let cleaned = normalized(name);
            if cleaned == name {
                r matches RenamePlan::Done(PathChange::Unchanged { path: q }) && q@ == path
            } else if dry_run {
                &&& r matches RenamePlan::Done(
                    PathChange::ErrorRename { path: q, modified, error },
                )
                &&& q@ == path
                &&& modified@ == with_file_name(path, cleaned)
                &&& error@ == dry_run_sentinel()
            } else {
                &&& r matches RenamePlan::Rename { path: q, modified }
                &&& q@ == path
                &&& modified@ == with_file_name(path, cleaned)
            }
        },
    }
}

/// Clean a path: decide what should happen to it, without touching the
/// filesystem. The only state a caller may mutate on the library's behalf is
/// the rename that a [`RenamePlan::Rename`] decision asks for; a dry run is
/// always settled here.
pub fn clean_path(file_path: &Vec<u8>, options: &NotoxArgs) -> (r: RenamePlan)
    ensures
        rename_decision(file_path@, options.dry_run, r),
        options.dry_run ==> r matches RenamePlan::Done(_),
{
    let range = match find_component(file_path) {
        Option::Some(range) => range,
        Option::None => {
            return RenamePlan::Done(PathChange::Unchanged { path: file_path.clone() });
        },
    };
    let (start, end) = range;
    let mut name: Vec<u8> = Vec::new();
    for i in start..end
        invariant
            start <= i <= end <= file_path@.len(),
            name@ == file_path@.subrange(start as int, i as int),
    {
        name.push(file_path[i]);
        proof {
            assert(file_path@.subrange(start as int, i + 1 as int) =~= file_path@.subrange(
                start as int,
                i as int,
            ).push(file_path@[i as int]));
        }
    }
    proof {
        assert(name@ =~= file_path@.subrange(start as int, end as int));
    }
    let cleaned = clean_name(&name);
    if bytes_eq(&cleaned, &name) {
        return RenamePlan::Done(PathChange::Unchanged { path: file_path.clone() });
    }
    let mut modified: Vec<u8> = Vec::new();
    for i in 0..start
        invariant
            i <= start <= file_path@.len(),
            modified@ == file_path@.take(i as int),
    {
        modified.push(file_path[i]);
        proof {
            assert(file_path@.take(i + 1 as int) =~= file_path@.take(i as int).push(
                file_path@[i as int],
            ));
        }
    }
    let mut j: usize = 0;
    while j < cleaned.len()
        invariant
            j <= cleaned@.len(),
            modified@ == file_path@.take(start as int) + cleaned@.take(j as int),
        decreases cleaned@.len() - j,
    {
        modified.push(cleaned[j]);
        proof {
            assert(file_path@.take(start as int) + cleaned@.take(j + 1 as int) =~= (file_path@.take(
                start as int,
            ) + cleaned@.take(j as int)).push(cleaned@[j as int]));
        }
        j = j + 1;
    }
    proof {
        assert(cleaned@.take(cleaned@.len() as int) =~= cleaned@);
    }
    if options.dry_run {
        RenamePlan::Done(
            PathChange::ErrorRename {
                path: file_path.clone(),
                modified,
                error: "dry-run".to_owned(),
            },
        )
    } else {
        RenamePlan::Rename { path: file_path.clone(), modified }
    }
}

/// Settle the outcome of a rename the caller attempted: a success is a
/// changed path, a failure keeps both paths with the filesystem's error text.
pub fn rename_outcome(path: Vec<u8>, modified: Vec<u8>, error: Option<String>) -> (r: PathChange)
    ensures
        match error {
            Option::None => r matches PathChange::Changed { path: q, modified: m } && q@ == path@
                && m@ == modified@,
            Option::Some(e) => r matches PathChange::ErrorRename { path: q, modified: m, error: f }
                && q@ == path@ && m@ == modified@ && f@ == e@,
        },
{
    match error {
        Option::None => PathChange::Changed { path, modified },
        Option::Some(e) => PathChange::ErrorRename { path, modified, error: e },
    }
}

} // verus!
