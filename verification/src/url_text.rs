//! Normalization of the text a server URL arrives as: whitespace trimming
//! and removal of trailing slashes.

use vstd::prelude::*;
use vstd::string::StrSliceExecFns;
use vstd::string::StringExecFns;

verus! {

/// A whitespace character, exactly as `str::trim` understands it: the Unicode
/// `White_Space` set.
pub open spec fn is_space(c: char) -> bool {
    ||| c == ' '
    ||| c == '\t'
    ||| c == '\n'
    ||| c == '\u{000B}'
    ||| c == '\u{000C}'
    ||| c == '\r'
    ||| c == '\u{0085}'
    ||| c == '\u{00A0}'
    ||| c == '\u{1680}'
    ||| ('\u{2000}' as u32) <= (c as u32) && (c as u32) <= ('\u{200A}' as u32)
    ||| c == '\u{2028}'
    ||| c == '\u{2029}'
    ||| c == '\u{202F}'
    ||| c == '\u{205F}'
    ||| c == '\u{3000}'
}

/// Runtime form of [`is_space`].
pub fn is_space_char(c: char) -> (r: bool)
    ensures
        r == is_space(c),
{
    c == ' ' || c == '\t' || c == '\n' || c == '\u{000B}' || c == '\u{000C}' || c == '\r'
        || c == '\u{0085}' || c == '\u{00A0}' || c == '\u{1680}'
        || (('\u{2000}' as u32) <= (c as u32) && (c as u32) <= ('\u{200A}' as u32))
        || c == '\u{2028}' || c == '\u{2029}' || c == '\u{202F}' || c == '\u{205F}'
        || c == '\u{3000}'
}

/// The text with its leading whitespace gone.
pub open spec fn trim_front(s: Seq<char>) -> Seq<char>
    decreases s.len(),
{
    if s.len() > 0 && is_space(s.first()) {
        trim_front(s.drop_first())
    } else {
        s
    }
}

/// The text with its trailing whitespace gone.
pub open spec fn trim_back(s: Seq<char>) -> Seq<char>
    decreases s.len(),
{
    if s.len() > 0 && is_space(s.last()) {
        trim_back(s.drop_last())
    } else {
        s
    }
}

/// The text with surrounding whitespace gone, as `str::trim` leaves it.
pub open spec fn trimmed(s: Seq<char>) -> Seq<char> {
    trim_back(trim_front(s))
}

/// The text with every trailing `'/'` gone.
pub open spec fn strip_slashes(s: Seq<char>) -> Seq<char>
    decreases s.len(),
{
    if s.len() > 0 && s.last() == '/' {
        strip_slashes(s.drop_last())
    } else {
        s
    }
}

/// No trailing slash: the shape every remembered URL has.
pub open spec fn no_trailing_slash(s: Seq<char>) -> bool {
    s.len() == 0 || s.last() != '/'
}

/// The full normalization a URL goes through before it is stored or loaded
/// into the window: surrounding whitespace trimmed, then trailing slashes
/// removed.
pub open spec fn normalized(s: Seq<char>) -> Seq<char> {
    strip_slashes(trimmed(s))
}

/// Where the first `i` characters are whitespace and the one at `i` (if any)
/// is not, trimming the front keeps exactly the characters from `i` on.
proof fn lemma_trim_front_at(s: Seq<char>, i: int)
    requires
        0 <= i <= s.len(),
        forall|j: int| 0 <= j < i ==> is_space(s[j]),
        i == s.len() || !is_space(s[i]),
    ensures
        trim_front(s) =~= s.subrange(i, s.len() as int),
    decreases i,
{
    if i == 0 {
        assert(trim_front(s) == s);
    } else {
        assert(is_space(s.first()));
        let t = s.drop_first();
        assert(forall|j: int| 0 <= j < i - 1 ==> is_space(#[trigger] t[j]));
        lemma_trim_front_at(t, i - 1);
        assert(t.subrange(i - 1, t.len() as int) =~= s.subrange(i, s.len() as int));
    }
}

/// Where the characters from `e` on are whitespace and the one before `e`
/// (if any) is not, trimming the back keeps exactly the first `e` characters.
proof fn lemma_trim_back_at(s: Seq<char>, e: int)
    requires
        0 <= e <= s.len(),
        forall|j: int| e <= j < s.len() ==> is_space(s[j]),
        e == 0 || !is_space(s[e - 1]),
    ensures
        trim_back(s) =~= s.subrange(0, e),
    decreases s.len() - e,
{
    if e == s.len() {
        assert(trim_back(s) == s);
    } else {
        assert(is_space(s.last()));
        let t = s.drop_last();
        assert(forall|j: int| e <= j < t.len() ==> is_space(#[trigger] t[j]));
        lemma_trim_back_at(t, e);
        assert(t.subrange(0, e) =~= s.subrange(0, e));
    }
}

/// Where the characters from `e` on are slashes and the one before `e`
/// (if any) is not, stripping keeps exactly the first `e` characters.
proof fn lemma_strip_slashes_at(s: Seq<char>, e: int)
    requires
        0 <= e <= s.len(),
        forall|j: int| e <= j < s.len() ==> s[j] == '/',
        e == 0 || s[e - 1] != '/',
    ensures
        strip_slashes(s) =~= s.subrange(0, e),
    decreases s.len() - e,
{
    if e == s.len() {
        assert(strip_slashes(s) == s);
    } else {
        assert(s.last() == '/');
        let t = s.drop_last();
        assert(forall|j: int| e <= j < t.len() ==> #[trigger] t[j] == '/');
        lemma_strip_slashes_at(t, e);
        assert(t.subrange(0, e) =~= s.subrange(0, e));
    }
}

/// Law: normalization never leaves a trailing slash, so a remembered URL
/// never carries one.
pub proof fn lemma_normalized_no_trailing_slash(s: Seq<char>)
    ensures
        no_trailing_slash(normalized(s)),
{
    lemma_strip_no_trailing_slash(trimmed(s));
}

/// Stripping trailing slashes leaves no trailing slash behind.
pub proof fn lemma_strip_no_trailing_slash(s: Seq<char>)
    ensures
        no_trailing_slash(strip_slashes(s)),
    decreases s.len(),
{
    if s.len() > 0 && s.last() == '/' {
        lemma_strip_no_trailing_slash(s.drop_last());
    }
}

/// Law: normalization is at rest on its own output — a text without a
/// trailing slash is left as it is by another strip.
pub proof fn lemma_strip_at_rest(s: Seq<char>)
    requires
        no_trailing_slash(s),
    ensures
        strip_slashes(s) == s,
{
}

/// Removes leading and trailing whitespace, as `str::trim` does.
pub fn trim_spaces(s: &str) -> (r: String)
    ensures
        r@ == trimmed(s@),
{
    let n = s.unicode_len();
    let mut start: usize = 0;
    while start < n && is_space_char(s.get_char(start))
        invariant
            n == s@.len(),
            0 <= start <= n,
            forall|j: int| 0 <= j < start ==> is_space(s@[j]),
        decreases n - start,
    {
        start = start + 1;
    }
    let mut end: usize = n;
    while end > start && is_space_char(s.get_char(end - 1))
        invariant
            n == s@.len(),
            start <= end <= n,
            forall|j: int| end <= j < n ==> is_space(s@[j]),
        decreases end,
    {
        end = end - 1;
    }
    let kept = s.substring_char(start, end);
    proof {
        lemma_trim_front_at(s@, start as int);
        let front = s@.subrange(start as int, n as int);
        assert(forall|j: int|
            end - start <= j < front.len() ==> is_space(#[trigger] front[j]));
        lemma_trim_back_at(front, end - start);
        assert(front.subrange(0, end - start) =~= s@.subrange(start as int, end as int));
    }
    String::from_str(kept)
}

/// Removes every trailing `'/'`, as `str::trim_end_matches('/')` does.
pub fn trim_end_slashes(s: &str) -> (r: String)
    ensures
        r@ == strip_slashes(s@),
{
    let n = s.unicode_len();
    let mut end: usize = n;
    while end > 0 && s.get_char(end - 1) == '/'
        invariant
            n == s@.len(),
            0 <= end <= n,
            forall|j: int| end <= j < n ==> s@[j] == '/',
        decreases end,
    {
        end = end - 1;
    }
    let kept = s.substring_char(0, end);
    proof {
        lemma_strip_slashes_at(s@, end as int);
    }
    String::from_str(kept)
}

/// The normalization every URL goes through: trim whitespace, then remove
/// trailing slashes.
pub fn normalize_url(s: &str) -> (r: String)
    ensures
        r@ == normalized(s@),
{
    let t = trim_spaces(s);
    trim_end_slashes(t.as_str())
}

/// Character-wise equality of two text slices.
pub fn str_eq(a: &str, b: &str) -> (r: bool)
    ensures
        r == (a@ == b@),
{
    let sa = String::from_str(a);
    let sb = String::from_str(b);
    sa == sb
}

} // verus!
