//! Text helpers shared by the rest of the library: whitespace trimming,
//! substring tests, previews, decimal rendering and a few small builders.
use vstd::prelude::*;
use vstd::string::StrSliceExecFns;
use vstd::string::StringExecFns;

verus! {

// ---------------------------------------------------------------------------
// Whitespace and trimming
// ---------------------------------------------------------------------------

/// The Unicode `White_Space` property, which is what `char::is_whitespace`
/// and `str::trim` go by.
pub open spec fn is_white_space(c: char) -> bool {
    let u = c as u32;
    ||| 0x09 <= u <= 0x0d
    ||| u == 0x20
    ||| u == 0x85
    ||| u == 0xa0
    ||| u == 0x1680
    ||| 0x2000 <= u <= 0x200a
    ||| u == 0x2028
    ||| u == 0x2029
    ||| u == 0x202f
    ||| u == 0x205f
    ||| u == 0x3000
}

pub fn white_space(c: char) -> (r: bool)
    ensures
        r == is_white_space(c),
{
    let u = c as u32;
    (0x09 <= u && u <= 0x0d) || u == 0x20 || u == 0x85 || u == 0xa0 || u == 0x1680 || (0x2000
        <= u && u <= 0x200a) || u == 0x2028 || u == 0x2029 || u == 0x202f || u == 0x205f || u
        == 0x3000
}

/// `s` without its leading whitespace.
pub open spec fn trim_start_view(s: Seq<char>) -> Seq<char>
    decreases s.len(),
{
    if s.len() > 0 && is_white_space(s[0]) {
        trim_start_view(s.drop_first())
    } else {
        s
    }
}

/// `s` without its trailing whitespace.
pub open spec fn trim_end_view(s: Seq<char>) -> Seq<char>
    decreases s.len(),
{
    if s.len() > 0 && is_white_space(s.last()) {
        trim_end_view(s.drop_last())
    } else {
        s
    }
}

/// `s` without leading and trailing whitespace, as `str::trim` gives it.
pub open spec fn trim_view(s: Seq<char>) -> Seq<char> {
    trim_end_view(trim_start_view(s))
}

/// Every character of `s` is whitespace.
pub open spec fn all_white_space(s: Seq<char>) -> bool {
    forall|i: int| 0 <= i < s.len() ==> is_white_space(#[trigger] s[i])
}

proof fn lemma_trim_start_skip(s: Seq<char>, i: int)
    requires
        0 <= i <= s.len(),
        forall|k: int| 0 <= k < i ==> is_white_space(#[trigger] s[k]),
    ensures
        trim_start_view(s) == trim_start_view(s.subrange(i, s.len() as int)),
    decreases i,
{
    if i > 0 {
        assert(s.drop_first() =~= s.subrange(1, s.len() as int));
        let t = s.drop_first();
        assert forall|k: int| 0 <= k < i - 1 implies is_white_space(#[trigger] t[k]) by {
            assert(t[k] == s[k + 1]);
        }
        lemma_trim_start_skip(t, i - 1);
        assert(t.subrange(i - 1, t.len() as int) =~= s.subrange(i, s.len() as int));
    } else {
        assert(s.subrange(0, s.len() as int) =~= s);
    }
}

proof fn lemma_trim_end_skip(s: Seq<char>, j: int)
    requires
        0 <= j <= s.len(),
        forall|k: int| j <= k < s.len() ==> is_white_space(#[trigger] s[k]),
    ensures
        trim_end_view(s) == trim_end_view(s.subrange(0, j)),
    decreases s.len() - j,
{
    if j < s.len() {
        let t = s.drop_last();
        assert forall|k: int| j <= k < t.len() implies is_white_space(#[trigger] t[k]) by {
            assert(t[k] == s[k]);
        }
        lemma_trim_end_skip(t, j);
        assert(t.subrange(0, j) =~= s.subrange(0, j));
    } else {
        assert(s.subrange(0, j) =~= s);
    }
}

/// A trimmed string is empty exactly when every character is whitespace.
pub proof fn lemma_trim_empty_iff_blank(s: Seq<char>)
    ensures
        (trim_view(s).len() == 0) == all_white_space(s),
    decreases s.len(),
{
    if s.len() > 0 && is_white_space(s[0]) {
        let t = s.drop_first();
        lemma_trim_empty_iff_blank(t);
        if all_white_space(t) {
            assert forall|i: int| 0 <= i < s.len() implies is_white_space(#[trigger] s[i]) by {
                if i > 0 {
                    assert(s[i] == t[i - 1]);
                }
            }
        }
        if all_white_space(s) {
            assert forall|i: int| 0 <= i < t.len() implies is_white_space(#[trigger] t[i]) by {
                assert(t[i] == s[i + 1]);
            }
        }
    } else if s.len() > 0 {
        // the first character stays and only trailing whitespace can go
        lemma_trim_end_keeps_first(s);
    }
}

proof fn lemma_trim_end_keeps_first(s: Seq<char>)
    requires
        s.len() > 0,
        !is_white_space(s[0]),
    ensures
        trim_end_view(s).len() > 0,
    decreases s.len(),
{
    if is_white_space(s.last()) {
        lemma_trim_end_keeps_first(s.drop_last());
    }
}

/// `str::trim`: the sub-slice of `s` without leading and trailing whitespace.
pub fn trim(s: &str) -> (r: &str)
    ensures
        r@ == trim_view(s@),
{
    let n = s.unicode_len();
    let mut i: usize = 0;
    while i < n && white_space(s.get_char(i))
        invariant
            n == s@.len(),
            i <= n,
            forall|k: int| 0 <= k < i ==> is_white_space(#[trigger] s@[k]),
        decreases n - i,
    {
        i = i + 1;
    }
    let mut j: usize = n;
    while j > i && white_space(s.get_char(j - 1))
        invariant
            n == s@.len(),
            i <= j <= n,
            forall|k: int| j <= k < n ==> is_white_space(#[trigger] s@[k]),
        decreases j - i,
    {
        j = j - 1;
    }
    proof {
        lemma_trim_start_skip(s@, i as int);
        let rest = s@.subrange(i as int, n as int);
        // `rest` does not start with whitespace (or is empty)
        assert(trim_start_view(rest) == rest) by {
            if rest.len() > 0 {
                assert(rest[0] == s@[i as int]);
            }
        }
        assert forall|k: int| (j - i) <= k < rest.len() implies is_white_space(#[trigger] rest[k]) by {
            assert(rest[k] == s@[k + i]);
        }
        lemma_trim_end_skip(rest, j - i);
        let kept = rest.subrange(0, j - i);
        assert(kept =~= s@.subrange(i as int, j as int));
        assert(trim_end_view(kept) == kept) by {
            if kept.len() > 0 {
                assert(kept.last() == s@[j - 1]);
            }
        }
    }
    s.substring_char(i, j)
}

/// Whether `s` holds nothing but whitespace (`s.trim().is_empty()`).
pub fn is_blank(s: &str) -> (r: bool)
    ensures
        r == (trim_view(s@).len() == 0),
        r == all_white_space(s@),
{
    proof {
        lemma_trim_empty_iff_blank(s@);
    }
    let t = trim(s);
    t.unicode_len() == 0
}

// ---------------------------------------------------------------------------
// Substrings
// ---------------------------------------------------------------------------

/// `needle` occurs in `hay` at position `i`.
pub open spec fn occurs_at(hay: Seq<char>, needle: Seq<char>, i: int) -> bool {
    0 <= i && i + needle.len() <= hay.len() && hay.subrange(i, i + needle.len()) == needle
}

/// `needle` occurs somewhere in `hay` (`str::contains`).
pub open spec fn seq_contains(hay: Seq<char>, needle: Seq<char>) -> bool {
    exists|i: int| occurs_at(hay, needle, i)
}

/// `hay` ends with `suffix` (`str::ends_with`).
pub open spec fn seq_ends_with(hay: Seq<char>, suffix: Seq<char>) -> bool {
    occurs_at(hay, suffix, hay.len() - suffix.len())
}

fn matches_at(hay: &Vec<char>, needle: &Vec<char>, i: usize) -> (r: bool)
    requires
        i + needle@.len() <= hay@.len(),
    ensures
        r == occurs_at(hay@, needle@, i as int),
{
    let m = needle.len();
    let mut k: usize = 0;
    while k < m
        invariant
            m == needle@.len(),
            i + m <= hay.len(),
            k <= m,
            forall|t: int| 0 <= t < k ==> hay@[i + t] == needle@[t],
        decreases m - k,
    {
        if hay[i + k] != needle[k] {
            proof {
                assert(hay@.subrange(i as int, i + m)[k as int] != needle@[k as int]);
            }
            return false;
        }
        k = k + 1;
    }
    proof {
        assert(hay@.subrange(i as int, i + m) =~= needle@);
    }
    true
}

/// The characters of `s`, one by one.
pub fn chars_of(s: &str) -> (v: Vec<char>)
    ensures
        v@ == s@,
{
    let n = s.unicode_len();
    let mut v: Vec<char> = Vec::new();
    let mut i: usize = 0;
    while i < n
        invariant
            n == s@.len(),
            i <= n,
            v@ == s@.subrange(0, i as int),
        decreases n - i,
    {
        v.push(s.get_char(i));
        proof {
            assert(v@ =~= s@.subrange(0, i + 1));
        }
        i = i + 1;
    }
    proof {
        assert(s@.subrange(0, n as int) =~= s@);
    }
    v
}

/// `str::contains` for a string needle.
pub fn contains(hay: &str, needle: &str) -> (r: bool)
    ensures
        r == seq_contains(hay@, needle@),
{
    let h = chars_of(hay);
    let nd = chars_of(needle);
    if nd.len() > h.len() {
        proof {
            assert forall|i: int| !occurs_at(hay@, needle@, i) by {}
        }
        return false;
    }
    let last = h.len() - nd.len();
    let mut i: usize = 0;
    loop
        invariant
            h@ == hay@,
            nd@ == needle@,
            last == h@.len() - nd@.len(),
            i <= last,
            forall|t: int| 0 <= t < i ==> !occurs_at(hay@, needle@, t),
        ensures
            forall|t: int| 0 <= t <= last ==> !occurs_at(hay@, needle@, t),
        decreases last - i,
    {
        if matches_at(&h, &nd, i) {
            return true;
        }
        if i == last {
            break;
        }
        i = i + 1;
    }
    proof {
        assert forall|t: int| !occurs_at(hay@, needle@, t) by {
            if 0 <= t <= last {
            }
        }
    }
    false
}

/// `str::ends_with` for a string suffix.
pub fn ends_with(hay: &str, suffix: &str) -> (r: bool)
    ensures
        r == seq_ends_with(hay@, suffix@),
{
    let h = chars_of(hay);
    let sf = chars_of(suffix);
    if sf.len() > h.len() {
        return false;
    }
    matches_at(&h, &sf, h.len() - sf.len())
}

// ---------------------------------------------------------------------------
// Lower case (std's Unicode mapping)
// ---------------------------------------------------------------------------

/// What `str::to_lowercase` returns for a string with these characters.
pub uninterp spec fn lowercase_of(s: Seq<char>) -> Seq<char>;

/// Calls `str::to_lowercase`; its result is named `lowercase_of` of the input.
#[verifier::external_body]
pub(crate) fn to_lowercase(s: &str) -> (r: String)
    ensures
        r@ == lowercase_of(s@),
{
    s.to_lowercase()
}

// ---------------------------------------------------------------------------
// Building strings
// ---------------------------------------------------------------------------

/// Calls `String::push`: appends one character.
#[verifier::external_body]
pub(crate) fn push_char(s: &mut String, c: char)
    ensures
        final(s)@ == old(s)@.push(c),
{
    s.push(c);
}

/// A new string holding `a` followed by `b`.
pub fn concat2(a: &str, b: &str) -> (r: String)
    ensures
        r@ == a@ + b@,
{
    let mut r = String::from_str(a);
    r.append(b);
    r
}

/// A new string holding `a`, `b` and `c` in this order.
pub fn concat3(a: &str, b: &str, c: &str) -> (r: String)
    ensures
        r@ == a@ + b@ + c@,
{
    let mut r = String::from_str(a);
    r.append(b);
    r.append(c);
    r
}

/// A copy of `s`.
pub fn copy_string(s: &String) -> (r: String)
    ensures
        r == *s,
{
    s.clone()
}

/// A copy of an optional string.
pub fn copy_opt_string(s: &Option<String>) -> (r: Option<String>)
    ensures
        r == *s,
{
    match s {
        Some(x) => Some(x.clone()),
        None => None,
    }
}

/// The view of an optional string.
pub open spec fn opt_view(s: Option<String>) -> Option<Seq<char>> {
    match s {
        Some(x) => Some(x@),
        None => None,
    }
}

/// Every character of `s` with `/` written as `--`.
pub open spec fn replace_slashes(s: Seq<char>) -> Seq<char>
    decreases s.len(),
{
    if s.len() == 0 {
        Seq::empty()
    } else {
        let head = if s[0] == '/' {
            seq!['-', '-']
        } else {
            seq![s[0]]
        };
        head + replace_slashes(s.drop_first())
    }
}

/// `s.replace('/', "--")`.
pub fn replace_slash_with_dashes(s: &str) -> (res: String)
    ensures
        res@ == replace_slashes(s@),
{
    let n = s.unicode_len();
    let mut out = String::new();
    let mut i: usize = 0;
    proof {
        assert(s@.subrange(0, n as int) =~= s@);
    }
    while i < n
        invariant
            n == s@.len(),
            i <= n,
            out@ + replace_slashes(s@.subrange(i as int, n as int)) == replace_slashes(s@),
        decreases n - i,
    {
        let c = s.get_char(i);
        let ghost rest = s@.subrange(i as int, n as int);
        let ghost before = out@;
        proof {
            assert(rest.drop_first() =~= s@.subrange(i + 1, n as int));
            assert(rest[0] == c);
        }
        if c == '/' {
            push_char(&mut out, '-');
            push_char(&mut out, '-');
        } else {
            push_char(&mut out, c);
        }
        proof {
            let head = if c == '/' {
                seq!['-', '-']
            } else {
                seq![c]
            };
            assert(out@ =~= before + head);
            assert(replace_slashes(rest) == head + replace_slashes(rest.drop_first()));
            assert(out@ + replace_slashes(s@.subrange(i + 1, n as int)) =~= before + (head
                + replace_slashes(rest.drop_first())));
        }
        i = i + 1;
    }
    proof {
        assert(s@.subrange(n as int, n as int) =~= Seq::<char>::empty());
        assert(out@ + Seq::<char>::empty() =~= out@);
    }
    out
}

// ---------------------------------------------------------------------------
// Previews
// ---------------------------------------------------------------------------

/// The first `max` characters of `s`, followed by `…` when `s` is longer.
pub open spec fn preview_view(s: Seq<char>, max: nat) -> Seq<char> {
    if s.len() <= max {
        s
    } else {
        s.take(max as int).push('…')
    }
}

/// A preview of at most `max_chars` characters, with `…` appended when cut.
pub fn truncate_preview(s: &str, max_chars: usize) -> (r: String)
    ensures
        r@ == preview_view(s@, max_chars as nat),
{
    let n = s.unicode_len();
    if n <= max_chars {
        return String::from_str(s);
    }
    let mut out = String::from_str(s.substring_char(0, max_chars));
    push_char(&mut out, '…');
    out
}

// ---------------------------------------------------------------------------
// Decimal numbers
// ---------------------------------------------------------------------------

/// The decimal digit for `d` (0 to 9).
pub open spec fn digit_char(d: nat) -> char {
    if d == 0 {
        '0'
    } else if d == 1 {
        '1'
    } else if d == 2 {
        '2'
    } else if d == 3 {
        '3'
    } else if d == 4 {
        '4'
    } else if d == 5 {
        '5'
    } else if d == 6 {
        '6'
    } else if d == 7 {
        '7'
    } else if d == 8 {
        '8'
    } else {
        '9'
    }
}

/// `n` written in decimal, without leading zeros.
pub open spec fn decimal_view(n: nat) -> Seq<char>
    decreases n,
{
    if n < 10 {
        seq![digit_char(n)]
    } else {
        decimal_view(n / 10).push(digit_char(n % 10))
    }
}

fn digit(d: u64) -> (c: char)
    requires
        d < 10,
    ensures
        c == digit_char(d as nat),
{
    if d == 0 {
        '0'
    } else if d == 1 {
        '1'
    } else if d == 2 {
        '2'
    } else if d == 3 {
        '3'
    } else if d == 4 {
        '4'
    } else if d == 5 {
        '5'
    } else if d == 6 {
        '6'
    } else if d == 7 {
        '7'
    } else if d == 8 {
        '8'
    } else {
        '9'
    }
}

/// `n.to_string()` for an unsigned number.
pub fn decimal_string(n: u64) -> (r: String)
    ensures
        r@ == decimal_view(n as nat),
    decreases n,
{
    if n < 10 {
        let mut r = String::new();
        push_char(&mut r, digit(n));
        proof {
            assert(r@ =~= seq![digit_char(n as nat)]);
        }
        r
    } else {
        let mut r = decimal_string(n / 10);
        push_char(&mut r, digit(n % 10));
        r
    }
}

/// Whether two strings hold the same characters.
pub fn same_text(a: &str, b: &str) -> (r: bool)
    ensures
        r == (a@ == b@),
{
    let x = chars_of(a);
    let y = chars_of(b);
    if x.len() != y.len() {
        return false;
    }
    let n = x.len();
    let mut i: usize = 0;
    while i < n
        invariant
            x@ == a@,
            y@ == b@,
            n == x@.len(),
            n == y@.len(),
            i <= n,
            forall|k: int| 0 <= k < i ==> x@[k] == y@[k],
        decreases n - i,
    {
        if x[i] != y[i] {
            return false;
        }
        i = i + 1;
    }
    proof {
        assert(x@ =~= y@);
    }
    true
}

} // verus!
