//! Classifying walked filesystem entries into files and directories.
//!
//! The caller walks the tree and hands over every discovered node as an
//! [`Entry`]; the library splits them into the two ordered path lists that
//! the deletion waves work through.

use vstd::prelude::*;
use vstd::seq_lib::group_seq_properties;

verus! {

/// One filesystem node discovered by the walk: its path, and whether it was
/// a file (as opposed to a directory) at the moment it was visited.
#[derive(Debug, PartialEq, Eq)]
pub struct Entry {
    pub path: String,
    pub is_file: bool,
}

/// The paths of the walked entries that were files, in traversal order.
pub open spec fn file_paths(s: Seq<Entry>) -> Seq<String>
    decreases s.len(),
{
    if s.len() == 0 {
        Seq::empty()
    } else if s.last().is_file {
        file_paths(s.drop_last()).push(s.last().path)
    } else {
        file_paths(s.drop_last())
    }
}

/// The paths of the walked entries that were directories, in traversal order.
pub open spec fn folder_paths(s: Seq<Entry>) -> Seq<String>
    decreases s.len(),
{
    if s.len() == 0 {
        Seq::empty()
    } else if s.last().is_file {
        folder_paths(s.drop_last())
    } else {
        folder_paths(s.drop_last()).push(s.last().path)
    }
}

/// The paths of all walked entries, in traversal order.
pub open spec fn paths_of(s: Seq<Entry>) -> Seq<String> {
    s.map_values(|e: Entry| e.path)
}

/// Split the walked entries into the file paths and the directory paths,
/// each in traversal order.
pub fn partition_entries(entries: Vec<Entry>) -> (r: (Vec<String>, Vec<String>))
    ensures
        r.0@ == file_paths(entries@),
        r.1@ == folder_paths(entries@),
{
    let ghost all: Seq<Entry> = entries@;
    let mut rest = entries;
    let mut files: Vec<String> = Vec::new();
    let mut folders: Vec<String> = Vec::new();
    while rest.len() > 0
        invariant
            rest.len() <= all.len(),
            rest@ == all.skip(all.len() - rest.len()),
            files@ == file_paths(all.take(all.len() - rest.len())),
            folders@ == folder_paths(all.take(all.len() - rest.len())),
        decreases rest.len(),
    {
        let ghost k: int = all.len() - rest.len();
        proof {
            assert(rest@[0] == all[k]);
        }
        let e = rest.remove(0);
        proof {
            assert(rest@ =~= all.skip(k + 1));
            assert(all.take(k + 1).drop_last() =~= all.take(k));
            assert(all.take(k + 1).last() == all[k]);
        }
        if e.is_file {
            files.push(e.path);
        } else {
            folders.push(e.path);
        }
    }
    proof {
        assert(all.take(all.len() as int) =~= all);
    }
    (files, folders)
}

/// Classification loses no path and invents none: the file paths and the
/// directory paths together are exactly the paths of the walked entries.
pub proof fn lemma_partition_complete(s: Seq<Entry>)
    ensures
        file_paths(s).len() + folder_paths(s).len() == s.len(),
        file_paths(s).to_multiset().add(folder_paths(s).to_multiset())
            == paths_of(s).to_multiset(),
    decreases s.len(),
{
    broadcast use group_seq_properties;
    broadcast use vstd::multiset::group_multiset_axioms;

    if s.len() == 0 {
        assert(paths_of(s) =~= Seq::<String>::empty());
        assert(file_paths(s).to_multiset().add(folder_paths(s).to_multiset())
            =~= paths_of(s).to_multiset());
    } else {
        let prefix = s.drop_last();
        let p = s.last().path;
        lemma_partition_complete(prefix);
        assert(paths_of(s) =~= paths_of(prefix).push(p));
        paths_of(prefix).to_multiset_ensures();
        if s.last().is_file {
            file_paths(prefix).to_multiset_ensures();
            assert(file_paths(s).to_multiset().add(folder_paths(s).to_multiset())
                =~= paths_of(s).to_multiset());
        } else {
            folder_paths(prefix).to_multiset_ensures();
            assert(file_paths(s).to_multiset().add(folder_paths(s).to_multiset())
                =~= paths_of(s).to_multiset());
        }
    }
}

} // verus!
