//! The organizer: given a newly arrived file, decide whether to skip it,
//! move it into the folder its rule names, or quarantine it as a duplicate,
//! and carry that decision out.
//!
//! The organizer works on an in-memory picture of the watched root
//! (`RootDir`): the loose files directly inside it and its sub-folders with
//! their contents.  Every step of the policy — rule lookup, idempotent
//! folder creation, duplicate detection against the destination, the move
//! itself — is performed and proved here; a caller that owns a real
//! directory replays the same decisions against the filesystem.

use vstd::prelude::*;
use crate::hashing::{bytes_eq, sha256_digest, sha256_of};
use crate::rules::{
    classify, ext_of, extension_of, first_match, is_transient_ext, Action, FileRule,
};
use crate::strutil::str_eq;

verus! {

/// One file: its name and its bytes.
pub struct StoredFile {
    pub name: String,
    pub bytes: Vec<u8>,
}

/// One sub-folder of the watched root and the files inside it.
pub struct Folder {
    pub name: String,
    pub files: Vec<StoredFile>,
}

/// The watched root: the loose files directly inside it, and its
/// sub-folders.
pub struct RootDir {
    pub files: Vec<StoredFile>,
    pub folders: Vec<Folder>,
}

/// What organizing one file came to.
pub enum Outcome {
    /// The extension is transient; the file was left alone.
    Ignored,
    /// No rule covers the extension; the file was left alone.
    Unhandled,
    /// A rule matched but no file of that name lies in the root: nothing to
    /// do (for instance, the file was already organized).
    Missing,
    /// The file was moved into the named destination folder.
    Moved(String),
    /// The destination already held a file with identical content; the file
    /// was moved into the quarantine folder instead.
    Quarantined,
}

/// Name of the folder that receives content-duplicate files.
pub fn duplicates_folder_name() -> (s: &'static str)
    ensures
        s@ == "Duplicates"@,
{
    "Duplicates"
}

/// Index of the first file at or after position `i` named `name`, or `-1`.
pub open spec fn file_index_from(files: Seq<StoredFile>, name: Seq<char>, i: int) -> int
    decreases files.len() - i,
{
    if i < 0 || i >= files.len() {
        -1
    } else if files[i].name@ == name {
        i
    } else {
        file_index_from(files, name, i + 1)
    }
}

/// Index of the first file named `name`, or `-1` if none bears that name.
pub open spec fn file_index(files: Seq<StoredFile>, name: Seq<char>) -> int {
    file_index_from(files, name, 0)
}

/// Index of the first folder at or after position `i` named `name`, or `-1`.
pub open spec fn folder_index_from(folders: Seq<Folder>, name: Seq<char>, i: int) -> int
    decreases folders.len() - i,
{
    if i < 0 || i >= folders.len() {
        -1
    } else if folders[i].name@ == name {
        i
    } else {
        folder_index_from(folders, name, i + 1)
    }
}

/// Index of the first folder named `name`, or `-1` if none bears that name.
pub open spec fn folder_index(folders: Seq<Folder>, name: Seq<char>) -> int {
    folder_index_from(folders, name, 0)
}

/// Whether some file among `files` has exactly the content digest of
/// `bytes`.
pub open spec fn has_content_dup(files: Seq<StoredFile>, bytes: Seq<u8>) -> bool {
    exists|i: int|
        0 <= i < files.len() && #[trigger] sha256_of(files[i].bytes@) == sha256_of(bytes)
}

/// Whether the folder named `dest` exists and holds a content duplicate of
/// `bytes`.
pub open spec fn folder_holds_duplicate(
    folders: Seq<Folder>,
    dest: Seq<char>,
    bytes: Seq<u8>,
) -> bool {
    let di = folder_index(folders, dest);
    di >= 0 && has_content_dup(folders[di].files@, bytes)
}

/// `post` is `pre` with the file `f` appended to the folder named `dest` —
/// created empty first when absent — and every other folder untouched.
pub open spec fn folders_with_file_added(
    pre: Seq<Folder>,
    post: Seq<Folder>,
    dest: Seq<char>,
    f: StoredFile,
) -> bool {
    let di = folder_index(pre, dest);
    if di < 0 {
        &&& post.len() == pre.len() + 1
        &&& (forall|j: int| 0 <= j < pre.len() ==> post[j] == pre[j])
        &&& post[pre.len() as int].name@ == dest
        &&& post[pre.len() as int].files@.len() == 1
        &&& post[pre.len() as int].files@[0] == f
    } else {
        &&& post.len() == pre.len()
        &&& (forall|j: int| 0 <= j < pre.len() && j != di ==> post[j] == pre[j])
        &&& post[di].name == pre[di].name
        &&& post[di].files@ == pre[di].files@.push(f)
    }
}

/// Everything `organize` promises, relating the root before and after the
/// call to the outcome it reports.
pub open spec fn organize_post(
    pre: RootDir,
    post: RootDir,
    name: Seq<char>,
    rules: Seq<FileRule>,
    o: Outcome,
) -> bool {
    let ext = ext_of(name);
    let fi = file_index(pre.files@, name);
    match o {
        Outcome::Ignored => is_transient_ext(ext) && post == pre,
        Outcome::Unhandled => !is_transient_ext(ext) && first_match(rules, ext) is None && post
            == pre,
        Outcome::Missing => !is_transient_ext(ext) && first_match(rules, ext) is Some && fi == -1
            && post == pre,
        Outcome::Moved(folder) => {
            &&& !is_transient_ext(ext)
            &&& first_match(rules, ext) == Some(folder@)
            &&& fi >= 0
            &&& !folder_holds_duplicate(pre.folders@, folder@, pre.files@[fi].bytes@)
            &&& post.files@ == pre.files@.remove(fi)
            &&& folders_with_file_added(pre.folders@, post.folders@, folder@, pre.files@[fi])
        },
        Outcome::Quarantined => {
            &&& !is_transient_ext(ext)
            &&& (first_match(rules, ext) matches Some(dest) && {
                &&& fi >= 0
                &&& folder_holds_duplicate(pre.folders@, dest, pre.files@[fi].bytes@)
                &&& post.files@ == pre.files@.remove(fi)
                &&& folders_with_file_added(
                    pre.folders@,
                    post.folders@,
                    "Duplicates"@,
                    pre.files@[fi],
                )
            })
        },
    }
}

/// No two files directly in the root bear the same name — what a real
/// directory guarantees by construction.
pub open spec fn unique_file_names(files: Seq<StoredFile>) -> bool {
    forall|i: int, j: int|
        0 <= i < j < files.len() ==> files[i].name@ != files[j].name@
}

proof fn lemma_file_index_from_props(files: Seq<StoredFile>, name: Seq<char>, k: int)
    requires
        0 <= k,
    ensures
        file_index_from(files, name, k) == -1 ==> forall|j: int|
            k <= j < files.len() ==> files[j].name@ != name,
        file_index_from(files, name, k) != -1 ==> {
            let r = file_index_from(files, name, k);
            &&& k <= r < files.len()
            &&& files[r].name@ == name
        },
    decreases files.len() - k,
{
    if k < files.len() && files[k].name@ != name {
        lemma_file_index_from_props(files, name, k + 1);
    }
}

proof fn lemma_file_index_from_none(files: Seq<StoredFile>, name: Seq<char>, k: int)
    requires
        forall|j: int| k <= j < files.len() ==> files[j].name@ != name,
    ensures
        file_index_from(files, name, k) == -1,
    decreases files.len() - k,
{
    if 0 <= k < files.len() {
        lemma_file_index_from_none(files, name, k + 1);
    }
}

/// Identical content is always detected: a folder holding a file with
/// exactly the candidate's bytes makes the candidate a duplicate.
pub proof fn lemma_identical_content_is_duplicate(files: Seq<StoredFile>, i: int, bytes: Seq<u8>)
    requires
        0 <= i < files.len(),
        files[i].bytes@ == bytes,
    ensures
        has_content_dup(files, bytes),
{
    assert(sha256_of(files[i].bytes@) == sha256_of(bytes));
}

/// Organizing a file cannot happen twice: once a run of `organize` has
/// moved or quarantined the only file bearing a name, a second run for the
/// same name finds nothing to move, reports so, and leaves the root exactly
/// as it was — no silent loss.
pub proof fn lemma_second_event_is_noop(
    pre: RootDir,
    mid: RootDir,
    post: RootDir,
    name: Seq<char>,
    rules: Seq<FileRule>,
    o1: Outcome,
    o2: Outcome,
)
    requires
        unique_file_names(pre.files@),
        organize_post(pre, mid, name, rules, o1),
        o1 is Moved || o1 is Quarantined,
        organize_post(mid, post, name, rules, o2),
    ensures
        o2 is Missing,
        post == mid,
{
    let fi = file_index(pre.files@, name);
    lemma_file_index_from_props(pre.files@, name, 0);
    assert(pre.files@[fi].name@ == name);
    assert(mid.files@ == pre.files@.remove(fi));
    assert forall|j: int| 0 <= j < mid.files@.len() implies mid.files@[j].name@ != name by {
        if j < fi {
            assert(mid.files@[j] == pre.files@[j]);
        } else {
            assert(mid.files@[j] == pre.files@[j + 1]);
        }
    }
    lemma_file_index_from_none(mid.files@, name, 0);
}

/// Finds the first file named `name` among `files`.
pub fn find_file(files: &Vec<StoredFile>, name: &str) -> (r: Option<usize>)
    ensures
        match r {
            Some(i) => i as int == file_index(files@, name@) && (i as int) < files@.len()
                && files@[i as int].name@ == name@,
            None => file_index(files@, name@) == -1,
        },
{
    let n = files.len();
    let mut i: usize = 0;
    while i < n
        invariant
            i <= n,
            n == files@.len(),
            file_index(files@, name@) == file_index_from(files@, name@, i as int),
        decreases n - i,
    {
        if str_eq(files[i].name.as_str(), name) {
            return Some(i);
        }
        i = i + 1;
    }
    None
}

/// Finds the first folder named `name` among `folders`.
pub fn find_folder(folders: &Vec<Folder>, name: &str) -> (r: Option<usize>)
    ensures
        match r {
            Some(i) => i as int == folder_index(folders@, name@) && (i as int) < folders@.len()
                && folders@[i as int].name@ == name@,
            None => folder_index(folders@, name@) == -1,
        },
{
    let n = folders.len();
    let mut i: usize = 0;
    while i < n
        invariant
            i <= n,
            n == folders@.len(),
            folder_index(folders@, name@) == folder_index_from(folders@, name@, i as int),
        decreases n - i,
    {
        if str_eq(folders[i].name.as_str(), name) {
            return Some(i);
        }
        i = i + 1;
    }
    None
}

/// Makes sure a folder named `name` exists, creating it empty when absent
/// (idempotent), and returns its index.
pub fn ensure_folder(folders: &mut Vec<Folder>, name: &str) -> (i: usize)
    ensures
        (i as int) < final(folders)@.len(),
        final(folders)@[i as int].name@ == name@,
        folder_index(old(folders)@, name@) >= 0 ==> *final(folders) == *old(folders) && i as int
            == folder_index(old(folders)@, name@),
        folder_index(old(folders)@, name@) < 0 ==> {
            &&& i as int == old(folders)@.len()
            &&& final(folders)@.len() == old(folders)@.len() + 1
            &&& (forall|j: int|
                0 <= j < old(folders)@.len() ==> final(folders)@[j] == old(folders)@[j])
            &&& final(folders)@[i as int].files@.len() == 0
        },
{
    match find_folder(folders, name) {
        Some(i) => i,
        None => {
            let i = folders.len();
            folders.push(Folder { name: name.to_owned(), files: Vec::new() });
            i
        },
    }
}

/// Whether some file among `files` has content identical (by digest) to
/// `candidate`: the duplicate scan of one destination folder.
pub fn has_duplicate_in(files: &Vec<StoredFile>, candidate: &Vec<u8>) -> (r: bool)
    ensures
        r == has_content_dup(files@, candidate@),
{
    let cd = sha256_digest(candidate.as_slice());
    let n = files.len();
    let mut i: usize = 0;
    while i < n
        invariant
            i <= n,
            n == files@.len(),
            cd@ == sha256_of(candidate@),
            forall|j: int|
                0 <= j < i ==> #[trigger] sha256_of(files@[j].bytes@) != sha256_of(candidate@),
        decreases n - i,
    {
        let d = sha256_digest(files[i].bytes.as_slice());
        if bytes_eq(d.as_slice(), cd.as_slice()) {
            return true;
        }
        i = i + 1;
    }
    false
}

/// Appends `f` to the files of the folder at index `i`, leaving its name
/// and every other folder untouched.
fn push_into_folder(folders: &mut Vec<Folder>, i: usize, f: StoredFile)
    requires
        (i as int) < old(folders)@.len(),
    ensures
        final(folders)@.len() == old(folders)@.len(),
        forall|j: int|
            0 <= j < old(folders)@.len() && j != i ==> final(folders)@[j] == old(folders)@[j],
        final(folders)@[i as int].name == old(folders)@[i as int].name,
        final(folders)@[i as int].files@ == old(folders)@[i as int].files@.push(f),
{
    let ghost pre = folders@;
    let mut entry = folders.remove(i);
    entry.files.push(f);
    folders.insert(i, entry);
    proof {
        assert forall|j: int| 0 <= j < pre.len() && j != i implies folders@[j] == pre[j] by {
            assert(folders@[j] == pre.remove(i as int).insert(i as int, entry)[j]);
        }
    }
}

/// Organizes one file of the watched root: transient extensions and
/// unmatched extensions leave the root untouched; a matched file is moved
/// into its rule's folder (created first when absent), or into the
/// `Duplicates` folder when the destination already holds a file with the
/// same content digest.
pub fn organize(root: &mut RootDir, file_name: &str, rules: &Vec<FileRule>) -> (o: Outcome)
    ensures
        organize_post(*old(root), *final(root), file_name@, rules@, o),
{
    let action = classify(extension_of(file_name), rules);
    match action {
        Action::Ignore => Outcome::Ignored,
        Action::Unhandled => Outcome::Unhandled,
        Action::MoveTo(folder) => {
            match find_file(&root.files, file_name) {
                None => Outcome::Missing,
                Some(fi) => {
                    let di = ensure_folder(&mut root.folders, folder.as_str());
                    let dup = has_duplicate_in(&root.folders[di].files, &root.files[fi].bytes);
                    let moved = root.files.remove(fi);
                    if dup {
                        let qi = ensure_folder(&mut root.folders, duplicates_folder_name());
                        push_into_folder(&mut root.folders, qi, moved);
                        Outcome::Quarantined
                    } else {
                        push_into_folder(&mut root.folders, di, moved);
                        Outcome::Moved(folder)
                    }
                },
            }
        },
    }
}

} // verus!
