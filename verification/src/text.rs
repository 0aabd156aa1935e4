use vstd::prelude::*;
use vstd::string::*;

verus! {

/// `needle` occurs in `hay` starting at position `at`.
pub open spec fn occurs_at(hay: Seq<char>, needle: Seq<char>, at: int) -> bool {
    &&& 0 <= at
    &&& at + needle.len() <= hay.len()
    &&& hay.subrange(at, at + needle.len()) == needle
}

/// `needle` occurs somewhere in `hay`.
pub open spec fn occurs_in(hay: Seq<char>, needle: Seq<char>) -> bool {
    exists|at: int| occurs_at(hay, needle, at)
}

/// `prefix` is a prefix of `text`.
pub open spec fn starts_with(text: Seq<char>, prefix: Seq<char>) -> bool {
    occurs_at(text, prefix, 0)
}

/// Compares two texts character by character.
pub fn same_text(a: &str, b: &str) -> (r: bool)
    ensures
        r == (a@ == b@),
{
    let n = a.unicode_len();
    if n != b.unicode_len() {
        return false;
    }
    let mut i: usize = 0;
    while i < n
        invariant
            n == a@.len(),
            n == b@.len(),
            i <= n,
            forall|j: int| 0 <= j < i ==> a@[j] == b@[j],
        decreases n - i,
    {
        if a.get_char(i) != b.get_char(i) {
            return false;
        }
        i = i + 1;
    }
    assert(a@ =~= b@);
    true
}

/// Whether `needle` occurs in `hay` starting at character `at`.
fn matches_at(hay: &str, needle: &str, at: usize) -> (r: bool)
    requires
        at + needle@.len() <= hay@.len(),
    ensures
        r == occurs_at(hay@, needle@, at as int),
{
    let h = hay.unicode_len();
    let n = needle.unicode_len();
    let mut i: usize = 0;
    while i < n
        invariant
            n == needle@.len(),
            h == hay@.len(),
            at + n <= hay@.len(),
            i <= n,
            forall|j: int| 0 <= j < i ==> hay@[at + j] == needle@[j],
        decreases n - i,
    {
        if hay.get_char(at + i) != needle.get_char(i) {
            return false;
        }
        i = i + 1;
    }
    assert(hay@.subrange(at as int, at + n) =~= needle@);
    true
}

/// Whether `text` begins with `prefix`.
pub fn has_prefix(text: &str, prefix: &str) -> (r: bool)
    ensures
        r == starts_with(text@, prefix@),
{
    if prefix.unicode_len() > text.unicode_len() {
        return false;
    }
    matches_at(text, prefix, 0)
}

/// Whether `needle` occurs anywhere in `hay`.
pub fn contains_text(hay: &str, needle: &str) -> (r: bool)
    ensures
        r == occurs_in(hay@, needle@),
{
    let h = hay.unicode_len();
    let n = needle.unicode_len();
    if n > h {
        return false;
    }
    let last = h - n;
    let mut at: usize = 0;
    loop
        invariant
            h == hay@.len(),
            n == needle@.len(),
            last == h - n,
            at <= last,
            forall|k: int| 0 <= k < at ==> !occurs_at(hay@, needle@, k),
        ensures
            forall|k: int| 0 <= k <= last ==> !occurs_at(hay@, needle@, k),
        decreases last - at,
    {
        if matches_at(hay, needle, at) {
            return true;
        }
        if at == last {
            break;
        }
        at = at + 1;
    }
    assert forall|k: int| !occurs_at(hay@, needle@, k) by {
        if 0 <= k && k + n <= h {
            assert(k <= last);
        }
    }
    false
}

} // verus!

verus! {

/// What `str::to_lowercase` returns for `text` (Unicode lower-case mapping).
pub uninterp spec fn lowercase(text: Seq<char>) -> Seq<char>;

/// Calls `str::to_lowercase`. The contract names the result `lowercase(text)`.
#[verifier::external_body]
pub(crate) fn to_lowercase(text: &str) -> (r: String)
    ensures
        r@ == lowercase(text@),
{
    text.to_lowercase()
}

} // verus!

verus! {

/// `c` has the Unicode property White_Space (what `char::is_whitespace` tests).
pub open spec fn is_white_space(c: char) -> bool {
    let u = c as u32;
    ||| 0x9 <= u <= 0xD
    ||| u == 0x20
    ||| u == 0x85
    ||| u == 0xA0
    ||| u == 0x1680
    ||| 0x2000 <= u <= 0x200A
    ||| u == 0x2028
    ||| u == 0x2029
    ||| u == 0x202F
    ||| u == 0x205F
    ||| u == 0x3000
}

/// `text` without its leading white space.
pub open spec fn trim_start(text: Seq<char>) -> Seq<char>
    decreases text.len(),
{
    if text.len() > 0 && is_white_space(text[0]) {
        trim_start(text.drop_first())
    } else {
        text
    }
}

/// `text` without its trailing white space.
pub open spec fn trim_end(text: Seq<char>) -> Seq<char>
    decreases text.len(),
{
    if text.len() > 0 && is_white_space(text.last()) {
        trim_end(text.drop_last())
    } else {
        text
    }
}

/// `text` without leading and trailing white space.
pub open spec fn trimmed(text: Seq<char>) -> Seq<char> {
    trim_end(trim_start(text))
}

/// Whether `c` is white space (the Unicode property White_Space).
pub fn is_space(c: char) -> (r: bool)
    ensures
        r == is_white_space(c),
{
    let u = c as u32;
    (0x9 <= u && u <= 0xD) || u == 0x20 || u == 0x85 || u == 0xA0 || u == 0x1680 || (0x2000 <= u
        && u <= 0x200A) || u == 0x2028 || u == 0x2029 || u == 0x202F || u == 0x205F || u == 0x3000
}

/// Dropping the `i` leading white-space characters of `t`, where `t[i]` (if
/// any) is not white space, is what `trim_start` does.
proof fn lemma_trim_start(t: Seq<char>, i: int)
    requires
        0 <= i <= t.len(),
        forall|j: int| 0 <= j < i ==> is_white_space(#[trigger] t[j]),
        i == t.len() || !is_white_space(t[i]),
    ensures
        trim_start(t) == t.subrange(i, t.len() as int),
    decreases i,
{
    if i == 0 {
        assert(t.subrange(0, t.len() as int) =~= t);
    } else {
        let d = t.drop_first();
        assert forall|j: int| 0 <= j < i - 1 implies is_white_space(#[trigger] d[j]) by {
            assert(d[j] == t[j + 1]);
        }
        lemma_trim_start(d, i - 1);
        assert(d.subrange(i - 1, d.len() as int) =~= t.subrange(i, t.len() as int));
    }
}

/// Keeping the first `k` characters of `t`, where all after them are white
/// space and `t[k - 1]` (if any) is not, is what `trim_end` does.
proof fn lemma_trim_end(t: Seq<char>, k: int)
    requires
        0 <= k <= t.len(),
        forall|j: int| k <= j < t.len() ==> is_white_space(#[trigger] t[j]),
        k == 0 || !is_white_space(t[k - 1]),
    ensures
        trim_end(t) == t.subrange(0, k),
    decreases t.len() - k,
{
    if k == t.len() {
        assert(t.subrange(0, k) =~= t);
    } else {
        let d = t.drop_last();
        assert forall|j: int| k <= j < d.len() implies is_white_space(#[trigger] d[j]) by {
            assert(d[j] == t[j]);
        }
        lemma_trim_end(d, k);
        assert(d.subrange(0, k) =~= t.subrange(0, k));
    }
}

/// `text` without leading and trailing white space (what `str::trim` does).
pub fn trim(text: &str) -> (r: String)
    ensures
        r@ == trimmed(text@),
{
    let n = text.unicode_len();
    let mut s: usize = 0;
    while s < n && is_space(text.get_char(s))
        invariant
            n == text@.len(),
            s <= n,
            forall|j: int| 0 <= j < s ==> is_white_space(#[trigger] text@[j]),
        decreases n - s,
    {
        s = s + 1;
    }
    let mut e: usize = n;
    while e > s && is_space(text.get_char(e - 1))
        invariant
            n == text@.len(),
            s <= e <= n,
            forall|j: int| e <= j < n ==> is_white_space(#[trigger] text@[j]),
        decreases e - s,
    {
        e = e - 1;
    }
    proof {
        lemma_trim_start(text@, s as int);
        let u = text@.subrange(s as int, n as int);
        assert forall|j: int| e - s <= j < u.len() implies is_white_space(#[trigger] u[j]) by {
            assert(u[j] == text@[j + s]);
        }
        if e > s {
            assert(u[e - s - 1] == text@[e - 1]);
        }
        lemma_trim_end(u, e - s);
        assert(u.subrange(0, e - s) =~= text@.subrange(s as int, e as int));
    }
    String::from_str(text.substring_char(s, e))
}

} // verus!
