//! The rule table and the rule matcher.
//!
//! A `FileRule` maps a file extension to the name of a destination folder.
//! `classify` decides, for a given extension, whether a file is transient
//! (never organized), matched by a rule (moved to the first matching rule's
//! folder, in declaration order), or unhandled.

use vstd::prelude::*;
use crate::strutil::{find_last_char, last_index_of, str_eq};

verus! {

/// Maps one file extension to the destination folder for files bearing it.
pub struct FileRule {
    pub extension: String,
    pub folder: String,
}

/// The process configuration: the directory to watch and the rule table,
/// applied in declaration order.
pub struct Config {
    pub folder_to_watch: String,
    pub file_rules: Vec<FileRule>,
}

/// What the rule matcher decides for one extension.
pub enum Action {
    /// The extension marks a file still being written; leave it alone.
    Ignore,
    /// Move the file into the named destination folder.
    MoveTo(String),
    /// No rule covers the extension; the file stays where it is.
    Unhandled,
}

/// Extensions of files that are still being written (partial downloads,
/// editor swap files); such files are never organized.
pub open spec fn is_transient_ext(ext: Seq<char>) -> bool {
    ||| ext == "tmp"@
    ||| ext == "crdownload"@
    ||| ext == "part"@
    ||| ext == "swp"@
}

/// Whether `ext` is one of the transient extensions.
pub fn is_transient(ext: &str) -> (r: bool)
    ensures
        r == is_transient_ext(ext@),
{
    str_eq(ext, "tmp") || str_eq(ext, "crdownload") || str_eq(ext, "part") || str_eq(ext, "swp")
}

/// The folder of the first rule at or after position `i` whose extension is
/// exactly `ext`, if any.
pub open spec fn first_match_from(rules: Seq<FileRule>, ext: Seq<char>, i: int) -> Option<
    Seq<char>,
>
    decreases rules.len() - i,
{
    if i < 0 || i >= rules.len() {
        None
    } else if rules[i].extension@ == ext {
        Some(rules[i].folder@)
    } else {
        first_match_from(rules, ext, i + 1)
    }
}

/// The folder of the first rule whose extension is exactly `ext`, if any.
pub open spec fn first_match(rules: Seq<FileRule>, ext: Seq<char>) -> Option<Seq<char>> {
    first_match_from(rules, ext, 0)
}

/// What `classify` promises: `Ignore` exactly for transient extensions;
/// otherwise `MoveTo` carries the folder of the first matching rule, and
/// `Unhandled` means no rule matches.
pub open spec fn classification_ok(a: Action, ext: Seq<char>, rules: Seq<FileRule>) -> bool {
    match a {
        Action::Ignore => is_transient_ext(ext),
        Action::MoveTo(folder) => !is_transient_ext(ext) && first_match(rules, ext) == Some(
            folder@,
        ),
        Action::Unhandled => !is_transient_ext(ext) && first_match(rules, ext) is None,
    }
}

/// Decides what to do with a file bearing `extension`: transient extensions
/// are ignored, otherwise the rules are scanned in declaration order and the
/// first exact match wins; with no match the extension is unhandled.
pub fn classify(extension: &str, rules: &Vec<FileRule>) -> (a: Action)
    ensures
        classification_ok(a, extension@, rules@),
{
    if is_transient(extension) {
        return Action::Ignore;
    }
    let n = rules.len();
    let mut i: usize = 0;
    while i < n
        invariant
            i <= n,
            n == rules@.len(),
            !is_transient_ext(extension@),
            first_match(rules@, extension@) == first_match_from(rules@, extension@, i as int),
        decreases n - i,
    {
        if str_eq(rules[i].extension.as_str(), extension) {
            return Action::MoveTo(rules[i].folder.clone());
        }
        i = i + 1;
    }
    Action::Unhandled
}

proof fn lemma_first_match_from_at(rules: Seq<FileRule>, ext: Seq<char>, i: int, k: int)
    requires
        0 <= k <= i < rules.len(),
        rules[i].extension@ == ext,
        forall|j: int| k <= j < i ==> rules[j].extension@ != ext,
    ensures
        first_match_from(rules, ext, k) == Some(rules[i].folder@),
    decreases i - k,
{
    if k < i {
        lemma_first_match_from_at(rules, ext, i, k + 1);
    }
}

proof fn lemma_first_match_from_none(rules: Seq<FileRule>, ext: Seq<char>, k: int)
    requires
        forall|j: int| k <= j < rules.len() ==> rules[j].extension@ != ext,
    ensures
        first_match_from(rules, ext, k) is None,
    decreases rules.len() - k,
{
    if 0 <= k < rules.len() {
        lemma_first_match_from_none(rules, ext, k + 1);
    }
}

/// A transient extension is always ignored, whatever the rule table holds —
/// even a rule for that very extension never fires.
pub proof fn lemma_transient_is_ignored(a: Action, ext: Seq<char>, rules: Seq<FileRule>)
    requires
        classification_ok(a, ext, rules),
        is_transient_ext(ext),
    ensures
        a is Ignore,
{
}

/// The first matching rule wins: when rule `i` is the earliest rule whose
/// extension is `ext`, and `ext` is not transient, classification moves the
/// file to rule `i`'s folder — later rules for the same extension lose.
pub proof fn lemma_first_rule_wins(a: Action, ext: Seq<char>, rules: Seq<FileRule>, i: int)
    requires
        classification_ok(a, ext, rules),
        !is_transient_ext(ext),
        0 <= i < rules.len(),
        rules[i].extension@ == ext,
        forall|j: int| 0 <= j < i ==> rules[j].extension@ != ext,
    ensures
        a matches Action::MoveTo(f) && f@ == rules[i].folder@,
{
    lemma_first_match_from_at(rules, ext, i, 0);
}

/// An extension that is neither transient nor covered by any rule is
/// unhandled.
pub proof fn lemma_no_rule_is_unhandled(a: Action, ext: Seq<char>, rules: Seq<FileRule>)
    requires
        classification_ok(a, ext, rules),
        !is_transient_ext(ext),
        forall|j: int| 0 <= j < rules.len() ==> rules[j].extension@ != ext,
    ensures
        a is Unhandled,
{
    lemma_first_match_from_none(rules, ext, 0);
}

/// The extension of a file name: the characters after the last `.`, or the
/// empty sequence when the name holds no `.` (or ends with one).
pub open spec fn ext_of(name: Seq<char>) -> Seq<char> {
    if last_index_of(name, '.') == -1 {
        Seq::empty()
    } else {
        name.subrange(last_index_of(name, '.') + 1, name.len() as int)
    }
}

/// Extracts the extension from a file name: the substring after the last
/// `.`, and the empty string when the name holds none.
pub fn extension_of(name: &str) -> (ext: &str)
    ensures
        ext@ == ext_of(name@),
{
    let n = name.unicode_len();
    proof {
        crate::strutil::lemma_last_index_of(name@, '.');
    }
    match find_last_char(name, '.') {
        Some(d) => name.substring_char(d + 1, n),
        None => {
            let empty = name.substring_char(n, n);
            proof {
                assert(empty@ =~= ext_of(name@));
            }
            empty
        },
    }
}

/// The default configuration: watch a `Downloads` directory and route
/// images, documents and archives into their conventional folders.
pub fn default_config() -> (c: Config)
    ensures
        c.folder_to_watch@ == "Downloads"@,
        c.file_rules@.len() == 3,
        c.file_rules@[0].extension@ == "jpg"@ && c.file_rules@[0].folder@ == "Images"@,
        c.file_rules@[1].extension@ == "pdf"@ && c.file_rules@[1].folder@ == "Documents"@,
        c.file_rules@[2].extension@ == "zip"@ && c.file_rules@[2].folder@ == "Archives"@,
{
    let mut file_rules: Vec<FileRule> = Vec::new();
    file_rules.push(FileRule { extension: "jpg".to_owned(), folder: "Images".to_owned() });
    file_rules.push(FileRule { extension: "pdf".to_owned(), folder: "Documents".to_owned() });
    file_rules.push(FileRule { extension: "zip".to_owned(), folder: "Archives".to_owned() });
    Config { folder_to_watch: "Downloads".to_owned(), file_rules }
}

} // verus!
