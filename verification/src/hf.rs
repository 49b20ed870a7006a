//! The Hugging Face model hub: request addresses, the authorization header,
//! and turning the hub's answers into catalog entries and file lists.
use vstd::prelude::*;
use vstd::string::StringExecFns;
use vstd::utf8::encode_utf8;

use crate::domain::{HfFile, HfModelSummary};
use crate::error::AppError;
use crate::text::{
    all_white_space, chars_of, concat2, concat3, copy_opt_string, copy_string, decimal_string,
    decimal_view, ends_with, is_blank, lowercase_of, opt_view, seq_ends_with, to_lowercase, trim,
    trim_view,
};

verus! {

// ---------------------------------------------------------------------------
// Addresses
// ---------------------------------------------------------------------------

/// Bytes that percent-encoding leaves as they are: ASCII letters and digits
/// and `-`, `.`, `_`, `~`.
pub open spec fn is_unreserved(b: u8) -> bool {
    ||| 0x30 <= b <= 0x39
    ||| 0x41 <= b <= 0x5a
    ||| 0x61 <= b <= 0x7a
    ||| b == 0x2d
    ||| b == 0x2e
    ||| b == 0x5f
    ||| b == 0x7e
}

/// The upper-case hexadecimal digit for `d` (0 to 15).
pub open spec fn hex_digit(d: u8) -> char {
    if d < 10 {
        (0x30 + d) as char
    } else {
        (0x41 - 10 + d) as char
    }
}

/// Percent-encoding of a byte string: every byte but the unreserved ones
/// becomes `%` and two upper-case hexadecimal digits.
pub open spec fn percent_encode_view(bytes: Seq<u8>) -> Seq<char>
    decreases bytes.len(),
{
    if bytes.len() == 0 {
        Seq::empty()
    } else {
        let b = bytes[0];
        let head = if is_unreserved(b) {
            seq![b as char]
        } else {
            seq!['%', hex_digit(b / 16), hex_digit(b % 16)]
        };
        head + percent_encode_view(bytes.drop_first())
    }
}

/// Calls `urlencoding::encode`, which percent-encodes the UTF-8 bytes of
/// `s`: letters, digits, `-`, `.`, `_` and `~` stay, every other byte
/// becomes `%XX` with upper-case hexadecimal digits.
#[verifier::external_body]
fn url_encode(s: &str) -> (r: String)
    ensures
        r@ == percent_encode_view(encode_utf8(s@)),
{
    urlencoding::encode(s).into_owned()
}

/// The address of a catalog search for `query`, at most `limit` results.
pub open spec fn search_url_view(query: Seq<char>, limit: nat) -> Seq<char> {
    "https://huggingface.co/api/models?search="@ + percent_encode_view(encode_utf8(query))
        + "&limit="@ + decimal_view(limit)
}

/// The address of a catalog search for `query`, at most `limit` results.
pub fn search_url(query: &str, limit: usize) -> (r: String)
    ensures
        r@ == search_url_view(query@, limit as nat),
{
    let encoded = url_encode(query);
    let count = decimal_string(limit as u64);
    let mut r = concat3("https://huggingface.co/api/models?search=", encoded.as_str(), "&limit=");
    r.append(count.as_str());
    r
}

/// The address of a repository's details, which list its files.
pub fn model_detail_url(repo_id: &str) -> (r: String)
    ensures
        r@ == "https://huggingface.co/api/models/"@ + repo_id@,
{
    concat2("https://huggingface.co/api/models/", repo_id)
}

/// The address to download `filename` of `repo_id` from.
pub fn download_url(repo_id: &str, filename: &str) -> (r: String)
    ensures
        r@ == "https://huggingface.co/"@ + repo_id@ + "/resolve/main/"@ + percent_encode_view(
            encode_utf8(filename@),
        ),
{
    let encoded = url_encode(filename);
    let mut r = concat3("https://huggingface.co/", repo_id, "/resolve/main/");
    r.append(encoded.as_str());
    r
}

/// The value of the `Authorization` header for a token: `Bearer` and the
/// trimmed token, or no header for a missing or blank token.
pub fn bearer_header(token: Option<&str>) -> (r: Option<String>)
    ensures
        match token {
            Some(t) => if all_white_space(t@) {
                r is None
            } else {
                r matches Some(h) && h@ == "Bearer "@ + trim_view(t@)
            },
            None => r is None,
        },
{
    match token {
        Some(t) => {
            if is_blank(t) {
                None
            } else {
                Some(concat2("Bearer ", trim(t)))
            }
        },
        None => None,
    }
}

/// What failed when the hub answers with an unsuccessful status.
#[derive(Debug, Clone, Copy, PartialEq, Eq, Structural)]
pub enum HubRequest {
    Search,
    ModelDetail,
    Download,
}

/// The words that open the error for a failed request.
pub open spec fn failure_context(r: HubRequest) -> Seq<char> {
    match r {
        HubRequest::Search => "Hugging Face search failed"@,
        HubRequest::ModelDetail => "Hugging Face model detail failed"@,
        HubRequest::Download => "Download failed"@,
    }
}

/// The error for a request the hub answered with an unsuccessful status,
/// given as the status line reads (such as `404 Not Found`).
pub fn http_failure(request: HubRequest, status: &str) -> (e: AppError)
    ensures
        e matches AppError::Network(m) && m@ == failure_context(request) + ": HTTP "@ + status@,
{
    let context = match request {
        HubRequest::Search => "Hugging Face search failed",
        HubRequest::ModelDetail => "Hugging Face model detail failed",
        HubRequest::Download => "Download failed",
    };
    AppError::Network(concat3(context, ": HTTP ", status))
}

/// How much of a download was written, and how much the server announced.
#[derive(Debug)]
pub struct ByteProgress {
    pub downloaded: u64,
    pub total: Option<u64>,
}

impl ByteProgress {
    /// Nothing written yet, out of `total` bytes if the server said.
    pub fn start(total: Option<u64>) -> (r: ByteProgress)
        ensures
            r.downloaded == 0,
            r.total == total,
    {
        ByteProgress { downloaded: 0, total }
    }

    /// A chunk of `len` bytes was written; the new count is reported.
    pub fn on_chunk(&mut self, len: usize) -> (r: (u64, Option<u64>))
        requires
            old(self).downloaded + len <= u64::MAX,
        ensures
            final(self).downloaded == old(self).downloaded + len,
            final(self).total == old(self).total,
            r == (final(self).downloaded, final(self).total),
    {
        self.downloaded = self.downloaded + len as u64;
        (self.downloaded, self.total)
    }
}

// ---------------------------------------------------------------------------
// Search results
// ---------------------------------------------------------------------------

/// The card of a search result.
#[derive(Debug)]
pub struct HfCardData {
    pub summary: Option<String>,
    pub description: Option<String>,
}

/// One search result as the hub sends it.
#[derive(Debug)]
pub struct HfSearchItem {
    pub repo_id: String,
    pub likes: Option<u64>,
    pub downloads: Option<u64>,
    pub card_data: Option<HfCardData>,
}

/// The description shown for a card: its summary, else its description,
/// trimmed, and none when that is blank.
pub open spec fn description_view(card: Option<HfCardData>) -> Option<Seq<char>> {
    match card {
        None => None,
        Some(c) => {
            let raw = match c.summary {
                Some(s) => Some(s@),
                None => opt_view(c.description),
            };
            match raw {
                None => None,
                Some(r) => if trim_view(r).len() == 0 {
                    None
                } else {
                    Some(trim_view(r))
                },
            }
        },
    }
}

/// `r` is the catalog entry for the search result `item`.
pub open spec fn summarizes(r: HfModelSummary, item: HfSearchItem) -> bool {
    &&& r.repo_id == item.repo_id
    &&& opt_view(r.description) == description_view(item.card_data)
    &&& r.likes == item.likes
    &&& r.downloads == item.downloads
}

fn trimmed_non_blank(s: &String) -> (r: Option<String>)
    ensures
        if trim_view(s@).len() == 0 {
            r is None
        } else {
            r matches Some(t) && t@ == trim_view(s@)
        },
{
    let t = trim(s.as_str());
    if t.is_empty() {
        None
    } else {
        Some(String::from_str(t))
    }
}

/// The catalog entry for one search result.
pub fn summarize_search_item(item: &HfSearchItem) -> (r: HfModelSummary)
    ensures
        summarizes(r, *item),
{
    let description = match &item.card_data {
        None => None,
        Some(c) => match &c.summary {
            Some(s) => trimmed_non_blank(s),
            None => match &c.description {
                Some(d) => trimmed_non_blank(d),
                None => None,
            },
        },
    };
    HfModelSummary {
        repo_id: copy_string(&item.repo_id),
        description,
        likes: item.likes,
        downloads: item.downloads,
    }
}

/// The catalog entries for a page of search results, in the same order.
pub fn summarize_search_items(items: &Vec<HfSearchItem>) -> (r: Vec<HfModelSummary>)
    ensures
        r@.len() == items@.len(),
        forall|i: int| 0 <= i < items@.len() ==> summarizes(#[trigger] r@[i], items@[i]),
{
    let mut r: Vec<HfModelSummary> = Vec::new();
    let mut i: usize = 0;
    while i < items.len()
        invariant
            i <= items@.len(),
            r@.len() == i,
            forall|k: int| 0 <= k < i ==> summarizes(#[trigger] r@[k], items@[k]),
        decreases items@.len() - i,
    {
        r.push(summarize_search_item(&items[i]));
        i = i + 1;
    }
    r
}

// ---------------------------------------------------------------------------
// File lists
// ---------------------------------------------------------------------------

/// The large-file record of a repository file.
#[derive(Debug)]
pub struct HfLfs {
    pub size: Option<u64>,
    pub oid: Option<String>,
}

/// One file of a repository as the hub lists it.
#[derive(Debug)]
pub struct HfSibling {
    pub rfilename: String,
    pub lfs: Option<HfLfs>,
}

/// A file name, lower-cased, ends in `.gguf`.
pub open spec fn is_gguf_lowered(lowered: Seq<char>) -> bool {
    seq_ends_with(lowered, ".gguf"@)
}

/// The entry for a repository file: its name, size and hash.
pub open spec fn file_of(s: HfSibling) -> HfFile {
    HfFile {
        rfilename: s.rfilename,
        size: match s.lfs {
            Some(l) => l.size,
            None => None,
        },
        sha256: match s.lfs {
            Some(l) => l.oid,
            None => None,
        },
    }
}

/// The entries of the GGUF files among `sibs`, in the hub's order.
pub open spec fn gguf_entries(sibs: Seq<HfSibling>) -> Seq<HfFile>
    decreases sibs.len(),
{
    if sibs.len() == 0 {
        Seq::empty()
    } else {
        let before = gguf_entries(sibs.drop_last());
        if is_gguf_lowered(lowercase_of(sibs.last().rfilename@)) {
            before.push(file_of(sibs.last()))
        } else {
            before
        }
    }
}

/// Whether a file name, already lower-cased, ends in `.gguf`.
pub fn has_gguf_extension(lowered: &str) -> (r: bool)
    ensures
        r == is_gguf_lowered(lowered@),
{
    ends_with(lowered, ".gguf")
}

fn entry_for(s: &HfSibling) -> (f: HfFile)
    ensures
        f == file_of(*s),
{
    let (size, sha256) = match &s.lfs {
        Some(l) => (l.size, copy_opt_string(&l.oid)),
        None => (None, None),
    };
    HfFile { rfilename: copy_string(&s.rfilename), size, sha256 }
}

// ----- the order of file lists: by size, then by name -----

/// Sizes in order, an unknown size first.
pub open spec fn size_lt(a: Option<u64>, b: Option<u64>) -> bool {
    match (a, b) {
        (None, Some(_)) => true,
        (Some(x), Some(y)) => x < y,
        _ => false,
    }
}

/// Names in lexicographic order of their characters.
pub open spec fn name_lt(a: Seq<char>, b: Seq<char>) -> bool
    decreases a.len(),
{
    if a.len() == 0 {
        b.len() > 0
    } else if b.len() == 0 {
        false
    } else if a[0] != b[0] {
        (a[0] as u32) < (b[0] as u32)
    } else {
        name_lt(a.drop_first(), b.drop_first())
    }
}

/// Files in order of size, then of name.
pub open spec fn file_lt(a: HfFile, b: HfFile) -> bool {
    size_lt(a.size, b.size) || (a.size == b.size && name_lt(a.rfilename@, b.rfilename@))
}

/// Where `x` goes in `s`: before the first entry that comes after it.
pub open spec fn insert_pos(s: Seq<HfFile>, x: HfFile) -> int
    decreases s.len(),
{
    if s.len() == 0 {
        0
    } else if file_lt(x, s[0]) {
        0
    } else {
        1 + insert_pos(s.drop_first(), x)
    }
}

/// `s` with `x` put in its place.
pub open spec fn insert_sorted(s: Seq<HfFile>, x: HfFile) -> Seq<HfFile> {
    s.insert(insert_pos(s, x), x)
}

/// `s` sorted by size, then name, keeping equal entries in their order.
pub open spec fn sort_files(s: Seq<HfFile>) -> Seq<HfFile>
    decreases s.len(),
{
    if s.len() == 0 {
        s
    } else {
        insert_sorted(sort_files(s.drop_last()), s.last())
    }
}

/// No entry of `s` comes after a later one.
pub open spec fn files_sorted(s: Seq<HfFile>) -> bool {
    forall|i: int, j: int| 0 <= i < j < s.len() ==> !file_lt(#[trigger] s[j], #[trigger] s[i])
}

proof fn lemma_name_lt_skip(a: Seq<char>, b: Seq<char>, k: int)
    requires
        0 <= k <= a.len(),
        k <= b.len(),
        forall|t: int| 0 <= t < k ==> a[t] == b[t],
    ensures
        name_lt(a, b) == name_lt(a.skip(k), b.skip(k)),
    decreases k,
{
    if k > 0 {
        assert(a[0] == b[0]);
        let a1 = a.drop_first();
        let b1 = b.drop_first();
        assert forall|t: int| 0 <= t < k - 1 implies a1[t] == b1[t] by {
            assert(a1[t] == a[t + 1]);
            assert(b1[t] == b[t + 1]);
        }
        lemma_name_lt_skip(a1, b1, k - 1);
        assert(a1.skip(k - 1) =~= a.skip(k));
        assert(b1.skip(k - 1) =~= b.skip(k));
    } else {
        assert(a.skip(0) =~= a);
        assert(b.skip(0) =~= b);
    }
}

fn name_less(a: &String, b: &String) -> (r: bool)
    ensures
        r == name_lt(a@, b@),
{
    let x = chars_of(a.as_str());
    let y = chars_of(b.as_str());
    let mut k: usize = 0;
    while k < x.len() && k < y.len() && x[k] == y[k]
        invariant
            x@ == a@,
            y@ == b@,
            k <= x@.len(),
            k <= y@.len(),
            forall|t: int| 0 <= t < k ==> x@[t] == y@[t],
        decreases x@.len() - k,
    {
        k = k + 1;
    }
    proof {
        lemma_name_lt_skip(a@, b@, k as int);
        let a1 = a@.skip(k as int);
        let b1 = b@.skip(k as int);
        if k < x@.len() {
            assert(a1[0] == x@[k as int]);
        }
        if k < y@.len() {
            assert(b1[0] == y@[k as int]);
        }
    }
    if k == x.len() {
        k < y.len()
    } else if k == y.len() {
        false
    } else {
        (x[k] as u32) < (y[k] as u32)
    }
}

fn file_less(a: &HfFile, b: &HfFile) -> (r: bool)
    ensures
        r == file_lt(*a, *b),
{
    let sl = match (a.size, b.size) {
        (None, Some(_)) => true,
        (Some(x), Some(y)) => x < y,
        _ => false,
    };
    if sl {
        return true;
    }
    if a.size == b.size {
        name_less(&a.rfilename, &b.rfilename)
    } else {
        false
    }
}

proof fn lemma_insert_pos_skip(s: Seq<HfFile>, x: HfFile, j: int)
    requires
        0 <= j <= s.len(),
        forall|t: int| 0 <= t < j ==> !file_lt(x, #[trigger] s[t]),
    ensures
        insert_pos(s, x) == j + insert_pos(s.skip(j), x),
    decreases j,
{
    if j > 0 {
        let s1 = s.drop_first();
        assert forall|t: int| 0 <= t < j - 1 implies !file_lt(x, #[trigger] s1[t]) by {
            assert(s1[t] == s[t + 1]);
        }
        lemma_insert_pos_skip(s1, x, j - 1);
        assert(s1.skip(j - 1) =~= s.skip(j));
    } else {
        assert(s.skip(0) =~= s);
    }
}

fn find_insert_pos(sorted: &Vec<HfFile>, x: &HfFile) -> (j: usize)
    ensures
        j as int == insert_pos(sorted@, *x),
        j <= sorted@.len(),
{
    let mut j: usize = 0;
    while j < sorted.len() && !file_less(x, &sorted[j])
        invariant
            j <= sorted@.len(),
            forall|t: int| 0 <= t < j ==> !file_lt(*x, #[trigger] sorted@[t]),
        decreases sorted@.len() - j,
    {
        j = j + 1;
    }
    proof {
        lemma_insert_pos_skip(sorted@, *x, j as int);
        let rest = sorted@.skip(j as int);
        if j < sorted@.len() {
            assert(rest[0] == sorted@[j as int]);
        }
    }
    j
}

proof fn lemma_insert_pos_bounds(s: Seq<HfFile>, x: HfFile)
    ensures
        0 <= insert_pos(s, x) <= s.len(),
    decreases s.len(),
{
    if s.len() > 0 && !file_lt(x, s[0]) {
        lemma_insert_pos_bounds(s.drop_first(), x);
    }
}

/// The GGUF files among a repository's files, by size and then name (the
/// hub's order among equal entries is kept).
pub fn gguf_files(siblings: &Vec<HfSibling>) -> (r: Vec<HfFile>)
    ensures
        r@ == sort_files(gguf_entries(siblings@)),
{
    // the GGUF files, in the hub's order
    let mut found: Vec<HfFile> = Vec::new();
    let mut i: usize = 0;
    while i < siblings.len()
        invariant
            i <= siblings@.len(),
            found@ == gguf_entries(siblings@.take(i as int)),
        decreases siblings@.len() - i,
    {
        let lowered = to_lowercase(siblings[i].rfilename.as_str());
        proof {
            assert(siblings@.take(i + 1).drop_last() =~= siblings@.take(i as int));
            assert(siblings@.take(i + 1).last() == siblings@[i as int]);
        }
        if has_gguf_extension(lowered.as_str()) {
            found.push(entry_for(&siblings[i]));
        }
        i = i + 1;
    }
    proof {
        assert(siblings@.take(siblings@.len() as int) =~= siblings@);
    }
    // sorted by insertion, each entry after the equal ones before it
    let mut sorted: Vec<HfFile> = Vec::new();
    let mut k: usize = 0;
    while k < found.len()
        invariant
            k <= found@.len(),
            found@ == gguf_entries(siblings@),
            sorted@ == sort_files(found@.take(k as int)),
        decreases found@.len() - k,
    {
        let x = entry_copy(&found[k]);
        let j = find_insert_pos(&sorted, &x);
        sorted.insert(j, x);
        proof {
            let t = found@.take(k + 1);
            assert(t.drop_last() =~= found@.take(k as int));
            assert(t.last() == found@[k as int]);
        }
        k = k + 1;
    }
    proof {
        assert(found@.take(found@.len() as int) =~= found@);
    }
    sorted
}

fn entry_copy(f: &HfFile) -> (r: HfFile)
    ensures
        r == *f,
{
    HfFile { rfilename: copy_string(&f.rfilename), size: f.size, sha256: copy_opt_string(&f.sha256) }
}

// ----- laws of the file order -----

proof fn lemma_name_lt_irreflexive(a: Seq<char>)
    ensures
        !name_lt(a, a),
    decreases a.len(),
{
    if a.len() > 0 {
        lemma_name_lt_irreflexive(a.drop_first());
    }
}

proof fn lemma_name_lt_transitive(a: Seq<char>, b: Seq<char>, c: Seq<char>)
    requires
        name_lt(a, b),
        name_lt(b, c),
    ensures
        name_lt(a, c),
    decreases a.len(),
{
    if a.len() > 0 && b.len() > 0 && c.len() > 0 && a[0] == b[0] && b[0] == c[0] {
        lemma_name_lt_transitive(a.drop_first(), b.drop_first(), c.drop_first());
    }
}

proof fn lemma_name_lt_total(a: Seq<char>, b: Seq<char>)
    ensures
        name_lt(a, b) || name_lt(b, a) || a == b,
    decreases a.len(),
{
    if a.len() == 0 && b.len() == 0 {
        assert(a =~= b);
    } else if a.len() > 0 && b.len() > 0 && a[0] == b[0] {
        lemma_name_lt_total(a.drop_first(), b.drop_first());
        if a.drop_first() == b.drop_first() {
            assert(a.drop_first().len() == a.len() - 1);
            assert(b.drop_first().len() == b.len() - 1);
            assert(a.len() == b.len());
            assert(a =~= b) by {
                assert forall|i: int| 0 <= i < a.len() implies a[i] == b[i] by {
                    if i > 0 {
                        assert(a[i] == a.drop_first()[i - 1]);
                        assert(b[i] == b.drop_first()[i - 1]);
                    }
                }
            }
        }
    } else if a.len() > 0 && b.len() > 0 {
        assert((a[0] as u32) != (b[0] as u32)) by {
            vstd::utf8::char_u32_cast(a[0], a[0] as u32);
            vstd::utf8::char_u32_cast(b[0], b[0] as u32);
        }
    }
}

proof fn lemma_file_lt_irreflexive(a: HfFile)
    ensures
        !file_lt(a, a),
{
    lemma_name_lt_irreflexive(a.rfilename@);
}

proof fn lemma_file_lt_transitive(a: HfFile, b: HfFile, c: HfFile)
    requires
        file_lt(a, b),
        file_lt(b, c),
    ensures
        file_lt(a, c),
{
    if a.size == b.size && b.size == c.size {
        lemma_name_lt_transitive(a.rfilename@, b.rfilename@, c.rfilename@);
    }
}

proof fn lemma_file_lt_total(a: HfFile, b: HfFile)
    ensures
        file_lt(a, b) || file_lt(b, a) || (a.size == b.size && a.rfilename@ == b.rfilename@),
{
    lemma_name_lt_total(a.rfilename@, b.rfilename@);
}

/// `x` is less than `b`, and `c` is not less than `b`: then `x` is less than
/// `c`.
proof fn lemma_file_lt_before_not_less(x: HfFile, b: HfFile, c: HfFile)
    requires
        file_lt(x, b),
        !file_lt(c, b),
    ensures
        file_lt(x, c),
{
    lemma_file_lt_total(b, c);
    if file_lt(b, c) {
        lemma_file_lt_transitive(x, b, c);
    }
}

proof fn lemma_insert_pos_props(s: Seq<HfFile>, x: HfFile)
    ensures
        0 <= insert_pos(s, x) <= s.len(),
        forall|t: int| 0 <= t < insert_pos(s, x) ==> !file_lt(x, #[trigger] s[t]),
        insert_pos(s, x) < s.len() ==> file_lt(x, s[insert_pos(s, x)]),
    decreases s.len(),
{
    if s.len() > 0 && !file_lt(x, s[0]) {
        let s1 = s.drop_first();
        lemma_insert_pos_props(s1, x);
        assert forall|t: int| 0 <= t < insert_pos(s, x) implies !file_lt(x, #[trigger] s[t]) by {
            if t > 0 {
                assert(s[t] == s1[t - 1]);
            }
        }
        if insert_pos(s, x) < s.len() {
            assert(s[insert_pos(s, x)] == s1[insert_pos(s1, x)]);
        }
    }
}

proof fn lemma_insert_sorted_keeps_order(s: Seq<HfFile>, x: HfFile)
    requires
        files_sorted(s),
    ensures
        files_sorted(insert_sorted(s, x)),
        insert_sorted(s, x).len() == s.len() + 1,
{
    let p = insert_pos(s, x);
    lemma_insert_pos_props(s, x);
    s.insert_ensures(p, x);
    let r = insert_sorted(s, x);
    assert forall|i: int, j: int| 0 <= i < j < r.len() implies !file_lt(
        #[trigger] r[j],
        #[trigger] r[i],
    ) by {
        if j < p {
            assert(r[i] == s[i] && r[j] == s[j]);
        } else if i > p {
            assert(r[i] == s[i - 1] && r[j] == s[j - 1]);
        } else if i < p && j > p {
            assert(r[i] == s[i] && r[j] == s[j - 1]);
        } else if i == p {
            // x against a later entry, which is not less than s[p]
            assert(r[j] == s[j - 1]);
            if j - 1 > p {
                assert(!file_lt(s[j - 1], s[p]));
            } else {
                lemma_file_lt_irreflexive(s[p]);
            }
            lemma_file_lt_before_not_less(x, s[p], s[j - 1]);
            if file_lt(s[j - 1], x) {
                lemma_file_lt_transitive(x, s[j - 1], x);
                lemma_file_lt_irreflexive(x);
            }
        } else {
            // j == p: an earlier entry against x
            assert(r[i] == s[i]);
        }
    }
}

/// The name order is the plain lexicographic order of the characters, by
/// code point: `a` comes before `b` exactly when `a` is a proper prefix of
/// `b`, or at the first position where they differ `a`'s character is the
/// smaller (so `"ab"` comes before `"b"`, and `"Q4"` before `"Q8"`, whatever
/// their lengths).
pub proof fn lemma_name_lt_is_lexicographic(a: Seq<char>, b: Seq<char>)
    ensures
        name_lt(a, b) <==> ((a.len() < b.len() && a == b.take(a.len() as int)) || exists|k: int|
            0 <= k < a.len() && k < b.len() && a.take(k) == b.take(k) && (a[k] as u32) < (
            #[trigger] b[k] as u32)),
    decreases a.len(),
{
    if a.len() == 0 {
        assert(a =~= b.take(0));
    } else if b.len() == 0 {
    } else if a[0] != b[0] {
        if (a[0] as u32) < (b[0] as u32) {
            assert(a.take(0) =~= b.take(0));
            assert(0 < a.len() && 0 < b.len() && a.take(0) == b.take(0) && (a[0] as u32) < (
            b[0] as u32));
        } else {
            assert forall|k: int|
                0 <= k < a.len() && k < b.len() && a.take(k) == b.take(k) implies !((a[k] as u32) < (
            #[trigger] b[k] as u32)) by {
                if k > 0 {
                    assert(a.take(k)[0] == b.take(k)[0]);
                }
            }
            if a.len() < b.len() && a == b.take(a.len() as int) {
                assert(a[0] == b.take(a.len() as int)[0]);
            }
        }
    } else {
        let a1 = a.drop_first();
        let b1 = b.drop_first();
        lemma_name_lt_is_lexicographic(a1, b1);
        if a.len() < b.len() && a == b.take(a.len() as int) {
            assert forall|i: int| 0 <= i < a1.len() implies a1[i] == b1.take(a1.len() as int)[i] by {
                assert(a1[i] == a[i + 1]);
                assert(a[i + 1] == b.take(a.len() as int)[i + 1]);
            }
            assert(a1 =~= b1.take(a1.len() as int));
        }
        if a1.len() < b1.len() && a1 == b1.take(a1.len() as int) {
            assert forall|i: int| 0 <= i < a.len() implies a[i] == b.take(a.len() as int)[i] by {
                if i > 0 {
                    assert(a[i] == a1[i - 1]);
                    assert(a1[i - 1] == b1.take(a1.len() as int)[i - 1]);
                }
            }
            assert(a =~= b.take(a.len() as int));
        }
        if exists|k: int|
            0 <= k < a1.len() && k < b1.len() && a1.take(k) == b1.take(k) && (a1[k] as u32) < (
            #[trigger] b1[k] as u32) {
            let k = choose|k: int|
                0 <= k < a1.len() && k < b1.len() && a1.take(k) == b1.take(k) && (a1[k] as u32) < (
                #[trigger] b1[k] as u32);
            assert forall|i: int| 0 <= i < k + 1 implies #[trigger] a.take(k + 1)[i] == b.take(k + 1)[i] by {
                if i > 0 {
                    assert(a1.take(k)[i - 1] == b1.take(k)[i - 1]);
                }
            }
            assert(a.take(k + 1) =~= b.take(k + 1));
            assert(a[k + 1] == a1[k] && b[k + 1] == b1[k]);
        }
        if exists|k: int|
            0 <= k < a.len() && k < b.len() && a.take(k) == b.take(k) && (a[k] as u32) < (
            #[trigger] b[k] as u32) {
            let k = choose|k: int|
                0 <= k < a.len() && k < b.len() && a.take(k) == b.take(k) && (a[k] as u32) < (
                #[trigger] b[k] as u32);
            assert(k > 0);
            assert forall|i: int| 0 <= i < k - 1 implies #[trigger] a1.take(k - 1)[i] == b1.take(k - 1)[i] by {
                assert(a.take(k)[i + 1] == b.take(k)[i + 1]);
            }
            assert(a1.take(k - 1) =~= b1.take(k - 1));
            assert(a1[k - 1] == a[k] && b1[k - 1] == b[k]);
            assert(0 <= k - 1 < a1.len() && k - 1 < b1.len() && a1.take(k - 1) == b1.take(k - 1)
                && (a1[k - 1] as u32) < (b1[k - 1] as u32));
        }
    }
}

/// A file list comes out sorted: no entry is smaller than one before it.
pub proof fn lemma_sort_files_sorted(s: Seq<HfFile>)
    ensures
        files_sorted(sort_files(s)),
        sort_files(s).len() == s.len(),
    decreases s.len(),
{
    if s.len() > 0 {
        lemma_sort_files_sorted(s.drop_last());
        lemma_insert_sorted_keeps_order(sort_files(s.drop_last()), s.last());
    }
}

proof fn lemma_insert_multiset(t: Seq<HfFile>, p: int, x: HfFile)
    requires
        0 <= p <= t.len(),
    ensures
        t.insert(p, x).to_multiset() =~= t.to_multiset().insert(x),
{
    let u = t.insert(p, x);
    t.insert_ensures(p, x);
    assert(u.remove(p) =~= t);
    u.to_multiset_ensures();
    assert(u.contains(x)) by {
        assert(u[p] == x);
    }
    let m = u.to_multiset();
    assert(m.remove(x) =~= t.to_multiset());
    assert(m =~= m.remove(x).insert(x));
}

/// Sorting a file list keeps every entry, each as often as before.
pub proof fn lemma_sort_files_permutes(s: Seq<HfFile>)
    ensures
        sort_files(s).to_multiset() =~= s.to_multiset(),
    decreases s.len(),
{
    if s.len() > 0 {
        let s1 = s.drop_last();
        lemma_sort_files_permutes(s1);
        let sorted = sort_files(s1);
        lemma_insert_pos_props(sorted, s.last());
        lemma_insert_multiset(sorted, insert_pos(sorted, s.last()), s.last());
        s1.to_multiset_ensures();
        assert(s1.push(s.last()) =~= s);
    } else {
        assert(sort_files(s) == s);
    }
}

} // verus!
