//! Text handling: trimming, lowercasing, and the answer to a yes/no
//! question.

use vstd::prelude::*;

verus! {

/// The characters with the Unicode property `White_Space`, which
/// `char::is_whitespace` and `str::trim` go by.
pub open spec fn is_unicode_whitespace(c: char) -> bool {
    let u = c as u32;
    ||| 0x9 <= u <= 0xD
    ||| u == 0x20
    ||| u == 0x85
    ||| u == 0xA0
    ||| u == 0x1680
    ||| 0x2000 <= u <= 0x200A
    ||| u == 0x2028
    ||| u == 0x2029
    ||| u == 0x202F
    ||| u == 0x205F
    ||| u == 0x3000
}

/// `s` without its leading whitespace.
pub open spec fn trim_start_spec(s: Seq<char>) -> Seq<char>
    decreases s.len(),
{
    if s.len() > 0 && is_unicode_whitespace(s[0]) {
        trim_start_spec(s.drop_first())
    } else {
        s
    }
}

/// `s` without its trailing whitespace.
pub open spec fn trim_end_spec(s: Seq<char>) -> Seq<char>
    decreases s.len(),
{
    if s.len() > 0 && is_unicode_whitespace(s.last()) {
        trim_end_spec(s.drop_last())
    } else {
        s
    }
}

/// `s` without leading and trailing whitespace.
pub open spec fn trim_spec(s: Seq<char>) -> Seq<char> {
    trim_end_spec(trim_start_spec(s))
}

/// Whether `c` has the Unicode property `White_Space`.
fn is_whitespace(c: char) -> (r: bool)
    ensures
        r == is_unicode_whitespace(c),
{
    let u = c as u32;
    (0x9 <= u && u <= 0xD) || u == 0x20 || u == 0x85 || u == 0xA0 || u == 0x1680
        || (0x2000 <= u && u <= 0x200A) || u == 0x2028 || u == 0x2029 || u == 0x202F
        || u == 0x205F || u == 0x3000
}

proof fn trim_start_skips(s: Seq<char>, i: int)
    requires
        0 <= i <= s.len(),
        forall|k: int| 0 <= k < i ==> is_unicode_whitespace(#[trigger] s[k]),
        i == s.len() || !is_unicode_whitespace(s[i]),
    ensures
        trim_start_spec(s) == s.skip(i),
    decreases i,
{
    if i == 0 {
        assert(s.skip(0) =~= s);
    } else {
        let rest = s.drop_first();
        assert forall|k: int| 0 <= k < i - 1 implies is_unicode_whitespace(#[trigger] rest[k]) by {
            assert(rest[k] == s[k + 1]);
        }
        if i - 1 < rest.len() {
            assert(rest[i - 1] == s[i]);
        }
        trim_start_skips(rest, i - 1);
        assert(rest.skip(i - 1) =~= s.skip(i));
    }
}

proof fn trim_end_takes(s: Seq<char>, n: int)
    requires
        0 <= n <= s.len(),
        forall|k: int| n <= k < s.len() ==> is_unicode_whitespace(#[trigger] s[k]),
        n == 0 || !is_unicode_whitespace(s[n - 1]),
    ensures
        trim_end_spec(s) == s.take(n),
    decreases s.len(),
{
    if n == s.len() {
        assert(s.take(n) =~= s);
    } else {
        let rest = s.drop_last();
        assert(is_unicode_whitespace(s[s.len() - 1]));
        assert forall|k: int| n <= k < rest.len() implies is_unicode_whitespace(#[trigger] rest[k]) by {
            assert(rest[k] == s[k]);
        }
        if n > 0 {
            assert(rest[n - 1] == s[n - 1]);
        }
        trim_end_takes(rest, n);
        assert(rest.take(n) =~= s.take(n));
    }
}

/// `s` without leading and trailing `White_Space` characters, as
/// `str::trim` gives it.
pub fn trim(s: &str) -> (r: &str)
    ensures
        r@ == trim_spec(s@),
        all_ascii(s@) ==> all_ascii(r@),
{
    let n = s.unicode_len();
    let mut i: usize = 0;
    while i < n && is_whitespace(s.get_char(i))
        invariant
            n == s@.len(),
            i <= n,
            forall|k: int| 0 <= k < i ==> is_unicode_whitespace(#[trigger] s@[k]),
        decreases n - i,
    {
        i = i + 1;
    }
    let mut j: usize = n;
    while j > i && is_whitespace(s.get_char(j - 1))
        invariant
            n == s@.len(),
            i <= j <= n,
            forall|k: int| j <= k < n ==> is_unicode_whitespace(#[trigger] s@[k]),
        decreases j - i,
    {
        j = j - 1;
    }
    proof {
        trim_start_skips(s@, i as int);
        let t = s@.skip(i as int);
        assert forall|k: int| j - i <= k < t.len() implies is_unicode_whitespace(#[trigger] t[k]) by {
            assert(t[k] == s@[k + i]);
        }
        if j > i {
            assert(t[j - i - 1] == s@[j - 1]);
        }
        trim_end_takes(t, j - i);
        assert(t.take(j - i) =~= s@.subrange(i as int, j as int));
        assert forall|k: int| 0 <= k < j - i implies #[trigger] s@.subrange(i as int, j as int)[k] == s@[k + i] by {}
    }
    s.substring_char(i, j)
}

/// Whether every character of `s` is ASCII.
pub open spec fn all_ascii(s: Seq<char>) -> bool {
    forall|i: int| 0 <= i < s.len() ==> (#[trigger] s[i] as u32) < 128
}

/// `c` with `A`..`Z` mapped to `a`..`z`.
pub open spec fn ascii_lower(c: char) -> char {
    if 'A' <= c <= 'Z' {
        ((c as u32) + 32) as char
    } else {
        c
    }
}

/// What `str::to_lowercase` returns for a text.
pub uninterp spec fn lowercase(s: Seq<char>) -> Seq<char>;

/// `str::to_lowercase`: the Unicode lowercase mapping of the text, named
/// by `lowercase`. On ASCII text it maps `A`..`Z` to `a`..`z` and keeps
/// every other character; beyond ASCII nothing more is stated.
#[verifier::external_body]
fn to_lowercase(s: &str) -> (r: String)
    ensures
        r@ == lowercase(s@),
        all_ascii(s@) ==> r@ == s@.map_values(|c: char| ascii_lower(c)),
{
    s.to_lowercase()
}

/// A lowercased answer that agrees to go on: `y`.
pub open spec fn accepts(lowered: Seq<char>) -> bool {
    lowered == seq!['y']
}

/// Whether an answer, once trimmed and lowercased, agrees to go on.
pub open spec fn confirms(input: Seq<char>) -> bool {
    accepts(lowercase(trim_spec(input)))
}

/// Whether an already trimmed and lowercased answer agrees to go on.
pub fn is_yes(lowered: &str) -> (r: bool)
    ensures
        r == accepts(lowered@),
{
    let n = lowered.unicode_len();
    if n != 1 {
        proof {
            assert(seq!['y'].len() == 1);
        }
        return false;
    }
    let c = lowered.get_char(0);
    proof {
        if c == 'y' {
            assert(lowered@ =~= seq!['y']);
        }
    }
    c == 'y'
}

/// An ASCII answer, once trimmed, that agrees to go on: `y` or `Y`.
pub open spec fn is_yes_answer(trimmed: Seq<char>) -> bool {
    trimmed == seq!['y'] || trimmed == seq!['Y']
}

/// Whether a line typed at a `(y/n)` question agrees to go on: the line is
/// trimmed, lowercased and compared with `y`. On an ASCII line that means
/// that the trimmed line is `y` or `Y`.
pub fn is_confirmation(input: &str) -> (r: bool)
    ensures
        r == confirms(input@),
        all_ascii(input@) ==> (r == is_yes_answer(trim_spec(input@))),
{
    let trimmed = trim(input);
    let lowered = to_lowercase(trimmed);
    let r = is_yes(lowered.as_str());
    proof {
        if all_ascii(input@) {
            let t = trimmed@;
            assert(all_ascii(t));
            if t.len() == 1 {
                assert(lowered@.len() == 1);
                assert(lowered@[0] == ascii_lower(t[0]));
                assert((t[0] as u32) < 128);
                if t[0] == 'y' || t[0] == 'Y' {
                    assert(lowered@ =~= seq!['y']);
                }
                if is_yes_answer(t) {
                    assert(t[0] == seq!['y'][0] || t[0] == seq!['Y'][0]);
                }
                if lowered@ == seq!['y'] {
                    assert(ascii_lower(t[0]) == 'y');
                    assert(t =~= seq![t[0]]);
                }
            } else {
                assert(lowered@.len() == t.len());
                assert(seq!['y'].len() == 1);
                assert(seq!['Y'].len() == 1);
            }
        }
    }
    r
}

/// The text of `s` as a new `String`.
pub(crate) fn owned(s: &str) -> (r: String)
    ensures
        r@ == s@,
{
    String::from_str(s)
}

/// `a` followed by `b`.
pub(crate) fn join2(a: &str, b: &str) -> (r: String)
    ensures
        r@ == a@ + b@,
{
    let mut r = String::from_str(a);
    r.append(b);
    r
}

} // verus!
