//! Exporting a response to a text file, and the size of the history list.
use vstd::prelude::*;
use vstd::string::StringExecFns;
use vstd::utf8::encode_utf8;

use crate::text::{concat2, ends_with, lowercase_of, seq_ends_with, to_lowercase};

verus! {

/// Characters that file names cannot hold on common systems.
pub open spec fn is_forbidden_name_char(c: char) -> bool {
    c == '/' || c == '?' || c == '<' || c == '>' || c == '\\' || c == ':' || c == '*' || c == '|'
        || c == '"'
}

/// Control characters (C0 and C1).
pub open spec fn is_control_char(c: char) -> bool {
    let u = c as u32;
    u <= 0x1f || (0x80 <= u && u <= 0x9f)
}

/// A file name without forbidden or control characters, and at most 255
/// bytes long.
pub open spec fn is_safe_file_name(s: Seq<char>) -> bool {
    &&& forall|i: int|
        0 <= i < s.len() ==> !is_forbidden_name_char(#[trigger] s[i]) && !is_control_char(s[i])
    &&& encode_utf8(s).len() <= 255
}

/// `a` is `b` with some characters left out (none added, none moved).
pub open spec fn is_subsequence(a: Seq<char>, b: Seq<char>) -> bool
    decreases b.len(),
{
    if a.len() == 0 {
        true
    } else if b.len() == 0 {
        false
    } else if a[0] == b[0] {
        is_subsequence(a.drop_first(), b.drop_first())
    } else {
        is_subsequence(a, b.drop_first())
    }
}

/// `c` in lower case, for ASCII letters.
pub open spec fn ascii_lower(c: char) -> char {
    if 'A' <= c && c <= 'Z' {
        ((c as u32) + 32) as char
    } else {
        c
    }
}

/// The name starts, in any case, like a Windows device name (`con`, `prn`,
/// `aux`, `nul`, `com…`, `lpt…`).
pub open spec fn starts_like_device_name(s: Seq<char>) -> bool {
    s.len() >= 3 && {
        let p = seq![ascii_lower(s[0]), ascii_lower(s[1]), ascii_lower(s[2])];
        p == seq!['c', 'o', 'n'] || p == seq!['p', 'r', 'n'] || p == seq!['a', 'u', 'x'] || p
            == seq!['n', 'u', 'l'] || p == seq!['c', 'o', 'm'] || p == seq!['l', 'p', 't']
    }
}

/// A name that sanitizing leaves as it is on every platform: safe, not made
/// only of dots, not ending in a dot or a space, and not starting like a
/// Windows device name.
pub open spec fn is_kept_file_name(s: Seq<char>) -> bool {
    &&& is_safe_file_name(s)
    &&& !(s.len() > 0 && forall|i: int| 0 <= i < s.len() ==> #[trigger] s[i] == '.')
    &&& s.len() > 0 ==> s.last() != '.' && s.last() != ' '
    &&& !starts_like_device_name(s)
}

/// What `sanitize_filename::sanitize` gives for a name with these
/// characters.
pub uninterp spec fn sanitized_of(name: Seq<char>) -> Seq<char>;

/// Calls `sanitize_filename::sanitize`, which deletes the characters
/// `/ ? < > \ : * | "`, control characters, a name made only of dots and (on
/// Windows builds) reserved device names and trailing dots or spaces, then
/// cuts the name to at most 255 bytes. Its result is named `sanitized_of` of
/// the name. Stated besides is what holds on every platform: the result only
/// leaves characters out of the name, holds no forbidden or control
/// character and fits in 255 bytes, and a name that none of these rules touch
/// comes back as it is.
#[verifier::external_body]
fn sanitize_file_name(name: &str) -> (r: String)
    ensures
        r@ == sanitized_of(name@),
        is_safe_file_name(r@),
        is_subsequence(r@, name@),
        is_kept_file_name(name@) ==> r@ == name@,
{
    sanitize_filename::sanitize(name)
}

/// `safe` with `.txt` appended unless it already ends so (in any case);
/// `lowered` is `safe` in lower case.
pub open spec fn txt_name_view(safe: Seq<char>, lowered: Seq<char>) -> Seq<char> {
    if seq_ends_with(lowered, ".txt"@) {
        safe
    } else {
        safe + ".txt"@
    }
}

/// A name whose lower-case form already ends in `.txt` is kept exactly as it
/// is (so `"response.txt"` and `"Out.TXT"` gain nothing); any other name gets
/// `.txt` appended once.
pub proof fn lemma_txt_name_keeps_or_appends(safe: Seq<char>, lowered: Seq<char>)
    ensures
        lowered.len() >= 4 && lowered.subrange(lowered.len() - 4, lowered.len() as int) == seq![
            '.',
            't',
            'x',
            't',
        ] ==> txt_name_view(safe, lowered) == safe,
        !(lowered.len() >= 4 && lowered.subrange(lowered.len() - 4, lowered.len() as int) == seq![
            '.',
            't',
            'x',
            't',
        ]) ==> txt_name_view(safe, lowered) == safe + seq!['.', 't', 'x', 't'],
{
    reveal_strlit(".txt");
    assert(".txt"@ =~= seq!['.', 't', 'x', 't']);
}

/// `safe` with `.txt` appended unless its lower-case form `lowered` already
/// ends in `.txt`.
pub fn txt_name_from(safe: &str, lowered: &str) -> (r: String)
    ensures
        r@ == txt_name_view(safe@, lowered@),
        lowered@.len() >= 4 && lowered@.subrange(lowered@.len() - 4, lowered@.len() as int)
            == seq!['.', 't', 'x', 't'] ==> r@ == safe@,
        !(lowered@.len() >= 4 && lowered@.subrange(lowered@.len() - 4, lowered@.len() as int)
            == seq!['.', 't', 'x', 't']) ==> r@ == safe@ + seq!['.', 't', 'x', 't'],
{
    proof {
        lemma_txt_name_keeps_or_appends(safe@, lowered@);
    }
    if ends_with(lowered, ".txt") {
        String::from_str(safe)
    } else {
        concat2(safe, ".txt")
    }
}

/// `safe` with `.txt` appended unless it already ends in `.txt` in any case.
pub fn with_txt_extension(safe: &str) -> (r: String)
    ensures
        r@ == txt_name_view(safe@, lowercase_of(safe@)),
{
    let lowered = to_lowercase(safe);
    txt_name_from(safe, lowered.as_str())
}

/// The name an export gets: the requested name made safe, with `.txt`.
pub fn export_file_name(filename: &str) -> (r: String)
    ensures
        r@ == txt_name_view(sanitized_of(filename@), lowercase_of(sanitized_of(filename@))),
        exists|safe: Seq<char>|
            {
                &&& is_safe_file_name(safe)
                &&& is_subsequence(safe, filename@)
                &&& r@ == txt_name_view(safe, lowercase_of(safe))
            },
        is_kept_file_name(filename@) ==> r@ == txt_name_view(filename@, lowercase_of(filename@)),
{
    let safe = sanitize_file_name(filename);
    let r = with_txt_extension(safe.as_str());
    proof {
        assert(is_safe_file_name(safe@) && is_subsequence(safe@, filename@) && r@ == txt_name_view(
            safe@,
            lowercase_of(safe@),
        ));
    }
    r
}

/// The history list shows this many entries unless asked otherwise.
pub const DEFAULT_HISTORY_LIMIT: u32 = 100;

/// How many history entries to show.
pub fn history_list_limit(limit: Option<u32>) -> (r: usize)
    ensures
        r == match limit {
            Some(l) => l,
            None => DEFAULT_HISTORY_LIMIT,
        },
{
    match limit {
        Some(l) => l as usize,
        None => DEFAULT_HISTORY_LIMIT as usize,
    }
}


/// An export's name ends in `.txt`, either as it is or in lower case.
pub proof fn lemma_export_name_is_txt(safe: Seq<char>)
    ensures
        ({
            let r = txt_name_view(safe, lowercase_of(safe));
            seq_ends_with(r, ".txt"@) || seq_ends_with(lowercase_of(r), ".txt"@)
        }),
{
    let r = txt_name_view(safe, lowercase_of(safe));
    if !seq_ends_with(lowercase_of(safe), ".txt"@) {
        assert(r.subrange(r.len() - ".txt"@.len(), r.len() as int) =~= ".txt"@);
    }
}

} // verus!
