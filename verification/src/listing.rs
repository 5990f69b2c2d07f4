//! The directory walk: a tree as it was read from disk, flattened into an
//! ordered list of relative paths.
//!
//! Reading the disk is the caller's part. It hands over what each read
//! gave, failures included, and the walk decides what is listed.

use crate::path::{join, join_path, leaves_root, lemma_join_stays_inside, plain_name};
use vstd::prelude::*;

verus! {

/// The kind of a listed entry.
#[allow(non_camel_case_types)]
#[derive(Debug, Clone, Copy, PartialEq, Eq, Structural)]
pub enum EntryType {
    /// A regular file.
    FILE,
    /// A directory.
    DIR,
}

/// One entry of a directory, as a read of the directory gave it.
#[derive(Debug, PartialEq, Eq)]
pub enum TreeEntry {
    /// An entry whose name or type could not be read.
    Unreadable,
    /// A regular file.
    File { name: String },
    /// A directory, with the outcome of reading it in turn.
    Dir { name: String, listing: Listing },
    /// An entry that is neither a regular file nor a directory.
    Other { name: String },
}

/// What reading a directory gave: its entries in the order they came, or
/// `None` where the directory could not be opened.
pub type Listing = Option<Vec<TreeEntry>>;

/// Why a listing could not be made.
#[derive(Debug, Clone, Copy, PartialEq, Eq, Structural)]
pub enum ListError {
    /// The directory to list could not be opened.
    Unreadable,
}

/// What one entry contributes to a one-level listing.
pub open spec fn ls_entry(entry: TreeEntry, exclude_dir: bool) -> Seq<(Seq<char>, EntryType)> {
    match entry {
        TreeEntry::File { name } => seq![(name@, EntryType::FILE)],
        TreeEntry::Dir { name, .. } => if exclude_dir {
            Seq::empty()
        } else {
            seq![(name@, EntryType::DIR)]
        },
        _ => Seq::empty(),
    }
}

/// The one-level listing of the first `n` of `entries`.
pub open spec fn ls_entries(entries: Seq<TreeEntry>, n: int, exclude_dir: bool) -> Seq<
    (Seq<char>, EntryType),
>
    decreases n,
{
    if n <= 0 || n > entries.len() {
        Seq::empty()
    } else {
        ls_entries(entries, n - 1, exclude_dir) + ls_entry(entries[n - 1], exclude_dir)
    }
}

/// What one entry, found under the relative path `prefix`, contributes to a
/// recursive listing: itself, unless it is a directory and directories are
/// left out, and then all that lies below it, whether it was listed or not.
/// A directory that could not be opened contributes itself alone.
pub open spec fn walk_entry(entry: TreeEntry, prefix: Seq<char>, exclude_dir: bool) -> Seq<
    (Seq<char>, EntryType),
>
    decreases entry, 0int,
{
    match entry {
        TreeEntry::File { name } => seq![(join_path(prefix, name@), EntryType::FILE)],
        TreeEntry::Dir { name, listing } => {
            let here = join_path(prefix, name@);
            let own = if exclude_dir {
                Seq::empty()
            } else {
                seq![(here, EntryType::DIR)]
            };
            match listing {
                Some(entries) => own + walk_entries(entries@, entries@.len() as int, here, exclude_dir),
                None => own,
            }
        },
        _ => Seq::empty(),
    }
}

/// The recursive listing of the first `n` of `entries`, which lie under the
/// relative path `prefix`: depth first, each entry before what lies below it.
pub open spec fn walk_entries(
    entries: Seq<TreeEntry>,
    n: int,
    prefix: Seq<char>,
    exclude_dir: bool,
) -> Seq<(Seq<char>, EntryType)>
    decreases entries, n,
{
    if n <= 0 || n > entries.len() {
        Seq::empty()
    } else {
        walk_entries(entries, n - 1, prefix, exclude_dir) + walk_entry(
            entries[n - 1],
            prefix,
            exclude_dir,
        )
    }
}

/// A list of entries as contracts speak of it: each path by its characters.
pub open spec fn listed(entries: Seq<(String, EntryType)>) -> Seq<(Seq<char>, EntryType)> {
    entries.map_values(|e: (String, EntryType)| (e.0@, e.1))
}

/// The outcome of a listing as contracts speak of it.
pub open spec fn list_view(out: Result<Vec<(String, EntryType)>, ListError>) -> Result<
    Seq<(Seq<char>, EntryType)>,
    ListError,
> {
    match out {
        Ok(list) => Ok(listed(list@)),
        Err(e) => Err(e),
    }
}

/// What `ls` returns for `dir`.
pub open spec fn ls_spec(dir: Listing, exclude_dir: bool) -> Result<
    Seq<(Seq<char>, EntryType)>,
    ListError,
> {
    match dir {
        Some(entries) => Ok(ls_entries(entries@, entries@.len() as int, exclude_dir)),
        None => Err(ListError::Unreadable),
    }
}

/// What `ls_recursive` returns for `dir`.
pub open spec fn ls_recursive_spec(dir: Listing, exclude_dir: bool) -> Result<
    Seq<(Seq<char>, EntryType)>,
    ListError,
> {
    match dir {
        Some(entries) => Ok(
            walk_entries(entries@, entries@.len() as int, Seq::empty(), exclude_dir),
        ),
        None => Err(ListError::Unreadable),
    }
}

/// Lists one directory without going below it: each regular file, and each
/// directory unless `exclude_dir` is set, by its name and in the order of
/// the listing. Entries that could not be read, or are neither, are passed
/// over. Fails only where the directory itself could not be opened.
pub fn ls(dir: &Listing, exclude_dir: bool) -> (out: Result<Vec<(String, EntryType)>, ListError>)
    ensures
        list_view(out) == ls_spec(*dir, exclude_dir),
{
    match dir {
        None => Err(ListError::Unreadable),
        Some(entries) => {
            let mut res: Vec<(String, EntryType)> = Vec::new();
            let mut i: usize = 0;
            while i < entries.len()
                invariant
                    i <= entries.len(),
                    listed(res@) == ls_entries(entries@, i as int, exclude_dir),
                decreases entries.len() - i,
            {
                let ghost before = res@;
                match &entries[i] {
                    TreeEntry::File { name } => {
                        res.push((name.clone(), EntryType::FILE));
                    },
                    TreeEntry::Dir { name, .. } => {
                        if !exclude_dir {
                            res.push((name.clone(), EntryType::DIR));
                        }
                    },
                    _ => {},
                }
                assert(listed(res@) =~= listed(before) + ls_entry(entries@[i as int], exclude_dir));
                i += 1;
            }
            Ok(res)
        },
    }
}

/// Lists a directory with all that lies below it, paths relative to it.
///
/// Each regular file is listed, and each directory unless `exclude_dir` is
/// set; a directory is gone into whether it was listed or not, and what
/// lies in it follows it at once. Entries that could not be read are passed
/// over, and so is the content of a directory below the root that could not
/// be opened. Fails only where the root itself could not be opened.
pub fn ls_recursive(dir: &Listing, exclude_dir: bool) -> (out: Result<
    Vec<(String, EntryType)>,
    ListError,
>)
    ensures
        list_view(out) == ls_recursive_spec(*dir, exclude_dir),
{
    let mut res: Vec<(String, EntryType)> = Vec::new();
    proof {
        reveal_strlit("");
        assert(""@ =~= Seq::<char>::empty());
    }
    match ls_rec_body(&mut res, dir, "", exclude_dir) {
        Ok(()) => {
            Ok(res)
        },
        Err(e) => Err(e),
    }
}

/// Appends to `res` the recursive listing of `dir`, which lies under the
/// relative path `relpath`. Where `dir` could not be opened, `res` is left
/// as it was and the failure is reported.
pub fn ls_rec_body(
    res: &mut Vec<(String, EntryType)>,
    dir: &Listing,
    relpath: &str,
    exclude_dir: bool,
) -> (out: Result<(), ListError>)
    ensures
        dir is None ==> out == Err::<(), ListError>(ListError::Unreadable) && *final(res) == *old(
            res,
        ),
        dir matches Some(entries) ==> out is Ok && listed(final(res)@) == listed(old(res)@)
            + walk_entries(entries@, entries@.len() as int, relpath@, exclude_dir),
    decreases dir,
{
    match dir {
        None => Err(ListError::Unreadable),
        Some(entries) => {
            let mut i: usize = 0;
            while i < entries.len()
                invariant
                    i <= entries.len(),
                    *dir == Some(*entries),
                    listed(res@) == listed(old(res)@) + walk_entries(
                        entries@,
                        i as int,
                        relpath@,
                        exclude_dir,
                    ),
                decreases entries.len() - i,
            {
                let ghost before = res@;
                match &entries[i] {
                    TreeEntry::File { name } => {
                        let rel = join(relpath, name.as_str());
                        res.push((rel, EntryType::FILE));
                        assert(listed(res@) =~= listed(before) + walk_entry(
                            entries@[i as int],
                            relpath@,
                            exclude_dir,
                        ));
                    },
                    TreeEntry::Dir { name, listing } => {
                        let rel = join(relpath, name.as_str());
                        if !exclude_dir {
                            res.push((rel.clone(), EntryType::DIR));
                        }
                        proof {
                            // The listing of a directory lies inside that of its parent.
                            vstd::std_specs::vec::axiom_vec_index_decreases(*entries, i as int);
                            assert(decreases_to!(*dir => dir->Some_0));
                        }
                        // A directory that cannot be opened is passed over.
                        let _ = ls_rec_body(res, listing, rel.as_str(), exclude_dir);
                        assert(listed(res@) =~= listed(before) + walk_entry(
                            entries@[i as int],
                            relpath@,
                            exclude_dir,
                        ));
                    },
                    _ => {
                        assert(listed(res@) =~= listed(before) + walk_entry(
                            entries@[i as int],
                            relpath@,
                            exclude_dir,
                        ));
                    },
                }
                i += 1;
            }
            Ok(())
        },
    }
}

/// Whether every name in `entry` and below it is a single segment other
/// than `..`.
pub open spec fn entry_names_plain(entry: TreeEntry) -> bool
    decreases entry, 0int,
{
    match entry {
        TreeEntry::File { name } => plain_name(name@),
        TreeEntry::Dir { name, listing } => plain_name(name@) && match listing {
            Some(entries) => names_plain(entries@, entries@.len() as int),
            None => true,
        },
        _ => true,
    }
}

/// Whether every name in the first `n` of `entries` and below them is a
/// single segment other than `..`, as the names of a real tree are.
pub open spec fn names_plain(entries: Seq<TreeEntry>, n: int) -> bool
    decreases entries, n,
{
    if n <= 0 || n > entries.len() {
        true
    } else {
        names_plain(entries, n - 1) && entry_names_plain(entries[n - 1])
    }
}

/// Whether no path in `list` leads out of the directory listed: none is
/// absolute, and none has a `..` segment.
pub open spec fn list_stays_inside(list: Seq<(Seq<char>, EntryType)>) -> bool {
    forall|k: int| 0 <= k < list.len() ==> !leaves_root(#[trigger] list[k].0)
}

/// The walk of a tree with plain names gives no path that is absolute or
/// has a `..` segment: what a snapshot of such a tree holds is accepted when
/// it is restored.
pub proof fn lemma_walk_stays_inside(
    entries: Seq<TreeEntry>,
    n: int,
    prefix: Seq<char>,
    exclude_dir: bool,
)
    requires
        0 <= n <= entries.len(),
        names_plain(entries, n),
        !leaves_root(prefix),
    ensures
        list_stays_inside(walk_entries(entries, n, prefix, exclude_dir)),
    decreases entries, n,
{
    if n > 0 {
        lemma_walk_stays_inside(entries, n - 1, prefix, exclude_dir);
        lemma_walk_entry_stays_inside(entries[n - 1], prefix, exclude_dir);
    }
}

/// The part of one entry in `lemma_walk_stays_inside`.
pub proof fn lemma_walk_entry_stays_inside(entry: TreeEntry, prefix: Seq<char>, exclude_dir: bool)
    requires
        entry_names_plain(entry),
        !leaves_root(prefix),
    ensures
        list_stays_inside(walk_entry(entry, prefix, exclude_dir)),
    decreases entry, 0int,
{
    match entry {
        TreeEntry::File { name } => {
            lemma_join_stays_inside(prefix, name@);
        },
        TreeEntry::Dir { name, listing } => {
            lemma_join_stays_inside(prefix, name@);
            match listing {
                Some(entries) => {
                    lemma_walk_stays_inside(
                        entries@,
                        entries@.len() as int,
                        join_path(prefix, name@),
                        exclude_dir,
                    );
                },
                None => {},
            }
        },
        _ => {},
    }
}

/// Whether a listed entry is a regular file.
pub open spec fn is_file(listed_entry: (Seq<char>, EntryType)) -> bool {
    listed_entry.1 == EntryType::FILE
}

/// Leaving directories out takes the directories off the list and changes
/// nothing else: what lies in them is listed all the same, in the same order.
pub proof fn lemma_exclude_dir_keeps_files(entries: Seq<TreeEntry>, n: int, prefix: Seq<char>)
    requires
        0 <= n <= entries.len(),
    ensures
        walk_entries(entries, n, prefix, true) == walk_entries(entries, n, prefix, false).filter(
            |e: (Seq<char>, EntryType)| is_file(e),
        ),
    decreases entries, n,
{
    let files = |e: (Seq<char>, EntryType)| is_file(e);
    if n > 0 {
        lemma_exclude_dir_keeps_files(entries, n - 1, prefix);
        lemma_exclude_dir_keeps_files_of_entry(entries[n - 1], prefix);
        Seq::filter_distributes_over_add(
            walk_entries(entries, n - 1, prefix, false),
            walk_entry(entries[n - 1], prefix, false),
            files,
        );
    } else {
        reveal(Seq::filter);
    }
}

/// The part of one entry in `lemma_exclude_dir_keeps_files`.
pub proof fn lemma_exclude_dir_keeps_files_of_entry(entry: TreeEntry, prefix: Seq<char>)
    ensures
        walk_entry(entry, prefix, true) == walk_entry(entry, prefix, false).filter(
            |e: (Seq<char>, EntryType)| is_file(e),
        ),
    decreases entry, 0int,
{
    let files = |e: (Seq<char>, EntryType)| is_file(e);
    let none = Seq::<(Seq<char>, EntryType)>::empty();
    match entry {
        TreeEntry::File { name } => {
            none.lemma_filter_push((join_path(prefix, name@), EntryType::FILE), files);
            reveal(Seq::filter);
            assert(seq![(join_path(prefix, name@), EntryType::FILE)] =~= none.push(
                (join_path(prefix, name@), EntryType::FILE),
            ));
        },
        TreeEntry::Dir { name, listing } => {
            let here = join_path(prefix, name@);
            let own = seq![(here, EntryType::DIR)];
            none.lemma_filter_push((here, EntryType::DIR), files);
            reveal(Seq::filter);
            assert(own =~= none.push((here, EntryType::DIR)));
            match listing {
                Some(below) => {
                    let rest = walk_entries(below@, below@.len() as int, here, false);
                    lemma_exclude_dir_keeps_files(below@, below@.len() as int, here);
                    Seq::filter_distributes_over_add(own, rest, files);
                    assert(none + rest.filter(files) =~= rest.filter(files));
                },
                None => {},
            }
        },
        _ => {
            reveal(Seq::filter);
        },
    }
}

} // verus!
