//! The backup/restore manager.
//!
//! Before the branch switch destroys the configuration directory, every
//! regular file in it is snapshotted fully into memory; after the switch the
//! snapshot is replayed into the recreated directory.  The directory is
//! modelled as the sequence of its regular files.  Reading and writing the
//! real files is done outside the library; the contracts here pin the
//! contents down byte for byte, which is what makes the round trip exact.

use vstd::prelude::*;
use vstd::string::StrSliceExecFns;
use vstd::string::StringExecFns;

verus! {

/// One regular file: its name and its full contents.
pub struct FileEntry {
    pub name: String,
    pub contents: Vec<u8>,
}

/// One snapshotted file: the original name, the contents at snapshot time,
/// and the derived logical name used to match patch application rules.
pub struct BackupEntry {
    pub name: String,
    pub contents: Vec<u8>,
    pub logical: Option<String>,
}

/// The file name carries the patch artifact extension `.patch`.
pub open spec fn is_patch_name(s: Seq<char>) -> bool {
    &&& s.len() >= 6
    &&& s[s.len() - 6] == '.'
    &&& s[s.len() - 5] == 'p'
    &&& s[s.len() - 4] == 'a'
    &&& s[s.len() - 3] == 't'
    &&& s[s.len() - 2] == 'c'
    &&& s[s.len() - 1] == 'h'
}

/// The logical name of a file: the name with the patch artifact extension
/// removed, or nothing when the file is not a patch artifact.
pub open spec fn logical_of(s: Seq<char>) -> Option<Seq<char>> {
    if is_patch_name(s) {
        Some(s.subrange(0, s.len() - 6))
    } else {
        None
    }
}

/// The backup entry records exactly this file: same name, same bytes, and
/// the logical name derived from the file name.
pub open spec fn entry_matches_file(e: BackupEntry, f: FileEntry) -> bool {
    &&& e.name@ == f.name@
    &&& e.contents@ == f.contents@
    &&& (match logical_of(f.name@) {
        Some(l) => e.logical matches Some(s) && s@ == l,
        None => e.logical is None,
    })
}

/// The snapshot records the directory file by file, in order.
pub open spec fn entries_match_dir(es: Seq<BackupEntry>, fs: Seq<FileEntry>) -> bool {
    &&& es.len() == fs.len()
    &&& forall|i: int| 0 <= i < fs.len() ==> entry_matches_file(es[i], fs[i])
}

/// The restored file carries exactly the entry's name and bytes.
pub open spec fn file_matches_entry(f: FileEntry, e: BackupEntry) -> bool {
    f.name@ == e.name@ && f.contents@ == e.contents@
}

/// An element-wise copy of a file's contents.
pub fn clone_bytes(v: &Vec<u8>) -> (r: Vec<u8>)
    ensures
        r@ == v@,
{
    let mut r: Vec<u8> = Vec::new();
    let n = v.len();
    let mut i: usize = 0;
    while i < n
        invariant
            0 <= i <= n,
            n == v@.len(),
            r@ == v@.subrange(0, i as int),
        decreases n - i,
    {
        r.push(v[i]);
        proof {
            assert(v@.subrange(0, i as int).push(v@[i as int]) =~= v@.subrange(0, i + 1));
        }
        i += 1;
    }
    proof {
        assert(v@.subrange(0, n as int) =~= v@);
    }
    r
}

/// Derives the logical name of a file: `name` without its `.patch`
/// extension, or nothing when the extension is absent.
pub fn derive_logical(name: &String) -> (r: Option<String>)
    ensures
        is_patch_name(name@) ==> (r matches Some(l) && l@ == name@.subrange(
            0,
            name@.len() - 6,
        )),
        !is_patch_name(name@) ==> r is None,
{
    let t = name.as_str();
    let n = t.unicode_len();
    if n < 6 {
        return None;
    }
    if t.get_char(n - 6) == '.' && t.get_char(n - 5) == 'p' && t.get_char(n - 4) == 'a'
        && t.get_char(n - 3) == 't' && t.get_char(n - 2) == 'c' && t.get_char(n - 1) == 'h' {
        let stem = t.substring_char(0, n - 6);
        Some(String::from_str(stem))
    } else {
        None
    }
}

/// Snapshots a directory: every regular file is read fully into a backup
/// entry, in order, before anything else mutates the directory.
pub fn backup_files(dir: &Vec<FileEntry>) -> (r: Vec<BackupEntry>)
    ensures
        entries_match_dir(r@, dir@),
{
    let mut r: Vec<BackupEntry> = Vec::new();
    let n = dir.len();
    let mut i: usize = 0;
    while i < n
        invariant
            0 <= i <= n,
            n == dir@.len(),
            r@.len() == i,
            forall|j: int| 0 <= j < i ==> entry_matches_file(r@[j], dir@[j]),
        decreases n - i,
    {
        let f = &dir[i];
        let logical = derive_logical(&f.name);
        r.push(BackupEntry { name: f.name.clone(), contents: clone_bytes(&f.contents), logical });
        i += 1;
    }
    r
}

/// Replays a snapshot into the destination directory: every entry is written
/// back, byte for byte, after whatever the destination already holds.  The
/// destination may have just been recreated and hold nothing, in which case
/// it afterwards holds exactly the snapshotted files.
pub fn restore_backup(entries: &Vec<BackupEntry>, dir: &mut Vec<FileEntry>)
    ensures
        final(dir)@.len() == old(dir)@.len() + entries@.len(),
        forall|i: int| 0 <= i < old(dir)@.len() ==> final(dir)@[i] == old(dir)@[i],
        forall|i: int|
            0 <= i < entries@.len() ==> file_matches_entry(
                final(dir)@[old(dir)@.len() + i],
                entries@[i],
            ),
{
    let n = entries.len();
    let mut i: usize = 0;
    while i < n
        invariant
            0 <= i <= n,
            n == entries@.len(),
            dir@.len() == old(dir)@.len() + i,
            forall|j: int| 0 <= j < old(dir)@.len() ==> dir@[j] == old(dir)@[j],
            forall|j: int|
                0 <= j < i ==> file_matches_entry(dir@[old(dir)@.len() + j], entries@[j]),
        decreases n - i,
    {
        let e = &entries[i];
        dir.push(FileEntry { name: e.name.clone(), contents: clone_bytes(&e.contents) });
        i += 1;
    }
}

/// The backup round trip is exact: snapshotting a directory and replaying
/// the snapshot into the recreated (empty) destination reproduces, file by
/// file, the name and the byte-identical contents of everything that existed
/// in the directory at snapshot time.
pub proof fn lemma_backup_round_trip(
    dir: Seq<FileEntry>,
    entries: Seq<BackupEntry>,
    restored: Seq<FileEntry>,
)
    requires
        entries_match_dir(entries, dir),
        restored.len() == entries.len(),
        forall|i: int| 0 <= i < entries.len() ==> file_matches_entry(restored[i], entries[i]),
    ensures
        restored.len() == dir.len(),
        forall|i: int|
            0 <= i < dir.len() ==> restored[i].name@ == dir[i].name@ && restored[i].contents@
                == dir[i].contents@,
{
    assert forall|i: int|
        0 <= i < dir.len() implies restored[i].name@ == dir[i].name@ && restored[i].contents@
        == dir[i].contents@ by {
        assert(entry_matches_file(entries[i], dir[i]));
        assert(file_matches_entry(restored[i], entries[i]));
    }
}

} // verus!
