//! Character-level helpers for typeahead matching: Unicode white space,
//! control characters, ASCII case folding, trimming and prefix tests over
//! `char` sequences, plus the one call into std's Unicode case mapping.
use vstd::prelude::*;
use vstd::std_specs::iter::IteratorSpec;

verus! {

/// The Unicode `White_Space` property (what `char::is_whitespace` tests).
pub open spec fn is_white_space(c: char) -> bool {
    let u = c as u32;
    ||| 0x09 <= u <= 0x0D
    ||| u == 0x20
    ||| u == 0x85
    ||| u == 0xA0
    ||| u == 0x1680
    ||| 0x2000 <= u <= 0x200A
    ||| u == 0x2028
    ||| u == 0x2029
    ||| u == 0x202F
    ||| u == 0x205F
    ||| u == 0x3000
}

/// The Unicode general category `Cc` (what `char::is_control` tests).
pub open spec fn is_control(c: char) -> bool {
    let u = c as u32;
    u <= 0x1F || (0x7F <= u <= 0x9F)
}

/// ASCII lower-casing of one character (what `char::to_ascii_lowercase`
/// computes); non-ASCII-uppercase characters are unchanged.
pub open spec fn ascii_lower(c: char) -> char {
    if 'A' <= c <= 'Z' {
        ((c as u32) + 32) as char
    } else {
        c
    }
}

/// Number of leading white-space characters.
pub open spec fn leading_white_space(s: Seq<char>) -> nat
    decreases s.len(),
{
    if s.len() > 0 && is_white_space(s[0]) {
        1 + leading_white_space(s.drop_first())
    } else {
        0
    }
}

/// Number of trailing white-space characters.
pub open spec fn trailing_white_space(s: Seq<char>) -> nat
    decreases s.len(),
{
    if s.len() > 0 && is_white_space(s.last()) {
        1 + trailing_white_space(s.drop_last())
    } else {
        0
    }
}

/// `s` without its leading white space (`str::trim_start`).
pub open spec fn trim_start(s: Seq<char>) -> Seq<char> {
    s.skip(leading_white_space(s) as int)
}

/// `s` without its trailing white space (`str::trim_end`).
pub open spec fn trim_end(s: Seq<char>) -> Seq<char> {
    s.take(s.len() - trailing_white_space(s))
}

/// `s` without leading and trailing white space (`str::trim`).
pub open spec fn trim(s: Seq<char>) -> Seq<char> {
    trim_end(trim_start(s))
}

/// Every character of a non-empty `s` equals its first one up to ASCII case.
pub open spec fn repeats_one_char(s: Seq<char>) -> bool {
    s.len() > 0 && forall|i: int| 0 <= i < s.len() ==> ascii_lower(#[trigger] s[i]) == ascii_lower(s[0])
}

/// The full Unicode lower-case mapping of a string, as computed by
/// `str::to_lowercase` (context-sensitive, may change the length).
pub uninterp spec fn unicode_lowercase(s: Seq<char>) -> Seq<char>;

/// Calls `str::to_lowercase`. Claimed: the result is the lower-case mapping of
/// the argument's characters, a function of those characters alone.
#[verifier::external_body]
pub(crate) fn str_to_lowercase(s: &str) -> (r: String)
    ensures
        r@ == unicode_lowercase(s@),
{
    s.to_lowercase()
}

/// Calls `String::push`. Claimed: the character is appended at the end.
#[verifier::external_body]
pub(crate) fn string_push(s: &mut String, c: char)
    ensures
        final(s)@ == old(s)@.push(c),
{
    s.push(c)
}

/// Tests the Unicode `White_Space` property.
pub fn char_is_white_space(c: char) -> (b: bool)
    ensures
        b == is_white_space(c),
{
    let u = c as u32;
    (0x09 <= u && u <= 0x0D) || u == 0x20 || u == 0x85 || u == 0xA0 || u == 0x1680 || (0x2000 <= u
        && u <= 0x200A) || u == 0x2028 || u == 0x2029 || u == 0x202F || u == 0x205F || u == 0x3000
}

/// Tests the Unicode general category `Cc`.
pub fn char_is_control(c: char) -> (b: bool)
    ensures
        b == is_control(c),
{
    let u = c as u32;
    u <= 0x1F || (0x7F <= u && u <= 0x9F)
}

/// ASCII lower-casing of one character.
pub fn char_ascii_lower(c: char) -> (r: char)
    ensures
        r == ascii_lower(c),
{
    if 'A' <= c && c <= 'Z' {
        let u = (c as u32) + 32;
        assert(0x61 <= u <= 0x7A);
        (u as u8) as char
    } else {
        c
    }
}

/// The characters of a string slice, in order.
pub fn chars_of(s: &str) -> (v: Vec<char>)
    ensures
        v@ == s@,
{
    let mut v: Vec<char> = Vec::new();
    let mut it = s.chars();
    proof {
        vstd::string::axiom_spec_iter(s);
    }
    loop
        invariant
            v@ + it.remaining() == s@,
            it.decrease() is Some,
        ensures
            v@ == s@,
        decreases it.decrease()->0,
    {
        let ghost before = it;
        match it.next() {
            Some(c) => {
                proof {
                    vstd::string::next_postcondition(&before, &it, Some(c));
                }
                v.push(c);
                assert(v@ + it.remaining() =~= s@) by {
                    assert(before.remaining() =~= seq![c] + it.remaining());
                }
            },
            None => {
                proof {
                    vstd::string::next_postcondition(&before, &it, None);
                }
                assert(v@ =~= s@);
                break ;
            },
        }
    }
    v
}

/// A `String` holding exactly the given characters.
pub fn string_of(v: &[char]) -> (s: String)
    ensures
        s@ == v@,
{
    let mut s = String::new();
    let mut i: usize = 0;
    while i < v.len()
        invariant
            i <= v.len(),
            s@ == v@.take(i as int),
        decreases v.len() - i,
    {
        string_push(&mut s, v[i]);
        i = i + 1;
        assert(s@ =~= v@.take(i as int));
    }
    assert(v@.take(v.len() as int) =~= v@);
    s
}

proof fn lemma_leading_step(s: Seq<char>, i: int)
    requires
        0 <= i < s.len(),
        is_white_space(s[i]),
    ensures
        leading_white_space(s.subrange(i, s.len() as int)) == 1 + leading_white_space(
            s.subrange(i + 1, s.len() as int),
        ),
{
    assert(s.subrange(i, s.len() as int).drop_first() =~= s.subrange(i + 1, s.len() as int));
}

proof fn lemma_trailing_step(s: Seq<char>, j: int)
    requires
        0 < j <= s.len(),
        is_white_space(s[j - 1]),
    ensures
        trailing_white_space(s.subrange(0, j)) == 1 + trailing_white_space(s.subrange(0, j - 1)),
{
    assert(s.subrange(0, j).drop_last() =~= s.subrange(0, j - 1));
}

/// Index of the first character after the leading white space.
pub fn leading_white_space_len(v: &[char]) -> (n: usize)
    ensures
        n == leading_white_space(v@),
        n <= v.len(),
{
    let mut i: usize = 0;
    assert(v@.subrange(0, v@.len() as int) =~= v@);
    while i < v.len() && char_is_white_space(v[i])
        invariant
            i <= v.len(),
            leading_white_space(v@) == i + leading_white_space(v@.subrange(i as int, v@.len() as int)),
        decreases v.len() - i,
    {
        proof {
            lemma_leading_step(v@, i as int);
        }
        i = i + 1;
    }
    i
}

/// Number of trailing white-space characters.
pub fn trailing_white_space_len(v: &[char]) -> (n: usize)
    ensures
        n == trailing_white_space(v@),
        n <= v.len(),
{
    let mut j: usize = v.len();
    assert(v@.subrange(0, v@.len() as int) =~= v@);
    while j > 0 && char_is_white_space(v[j - 1])
        invariant
            j <= v.len(),
            trailing_white_space(v@) == (v.len() - j) + trailing_white_space(v@.subrange(0, j as int)),
        decreases j,
    {
        proof {
            lemma_trailing_step(v@, j as int);
        }
        j = j - 1;
    }
    proof {
        let t = v@.subrange(0, j as int);
        if j > 0 {
            assert(t.last() == v@[j - 1]);
        }
    }
    v.len() - j
}

/// The characters `v[start..end]` as a new vector.
pub fn slice_chars(v: &[char], start: usize, end: usize) -> (r: Vec<char>)
    requires
        start <= end <= v.len(),
    ensures
        r@ == v@.subrange(start as int, end as int),
{
    let mut r: Vec<char> = Vec::new();
    let mut i = start;
    while i < end
        invariant
            start <= i <= end <= v.len(),
            r@ == v@.subrange(start as int, i as int),
        decreases end - i,
    {
        r.push(v[i]);
        i = i + 1;
        assert(r@ =~= v@.subrange(start as int, i as int));
    }
    r
}

/// The characters of `v` without leading white space.
pub fn trim_start_chars(v: &[char]) -> (r: Vec<char>)
    ensures
        r@ == trim_start(v@),
{
    let n = leading_white_space_len(v);
    let r = slice_chars(v, n, v.len());
    assert(r@ =~= v@.skip(n as int));
    r
}

/// The characters of `v` without leading and trailing white space.
pub fn trim_chars(v: &[char]) -> (r: Vec<char>)
    ensures
        r@ == trim(v@),
{
    let t = trim_start_chars(v);
    let m = trailing_white_space_len(t.as_slice());
    let r = slice_chars(t.as_slice(), 0, t.len() - m);
    assert(r@ =~= trim_end(t@));
    r
}

/// Whether `p` is a prefix of `s`.
pub fn is_prefix_chars(p: &[char], s: &[char]) -> (b: bool)
    ensures
        b == p@.is_prefix_of(s@),
{
    if p.len() > s.len() {
        return false;
    }
    let mut i: usize = 0;
    while i < p.len()
        invariant
            p.len() <= s.len(),
            i <= p.len(),
            forall|k: int| 0 <= k < i ==> p@[k] == s@[k],
        decreases p.len() - i,
    {
        if p[i] != s[i] {
            assert(p@[i as int] != s@.subrange(0, p@.len() as int)[i as int]);
            return false;
        }
        i = i + 1;
    }
    assert(p@ =~= s@.subrange(0, p@.len() as int));
    true
}

/// Whether a non-empty `v` repeats one character up to ASCII case.
pub fn repeats_one_char_chars(v: &[char]) -> (b: bool)
    ensures
        b == repeats_one_char(v@),
{
    if v.len() == 0 {
        return false;
    }
    let first = char_ascii_lower(v[0]);
    let mut i: usize = 0;
    while i < v.len()
        invariant
            v.len() > 0,
            first == ascii_lower(v@[0]),
            i <= v.len(),
            forall|k: int| 0 <= k < i ==> ascii_lower(#[trigger] v@[k]) == ascii_lower(v@[0]),
        decreases v.len() - i,
    {
        if char_ascii_lower(v[i]) != first {
            return false;
        }
        i = i + 1;
    }
    true
}

/// Whether two character sequences are equal.
pub fn chars_eq(a: &[char], b: &[char]) -> (r: bool)
    ensures
        r == (a@ == b@),
{
    if a.len() != b.len() {
        return false;
    }
    let r = is_prefix_chars(a, b);
    proof {
        if r {
            assert(a@ =~= b@.subrange(0, a@.len() as int));
            assert(b@.subrange(0, b@.len() as int) =~= b@);
        } else {
            if a@ == b@ {
                assert(b@.subrange(0, a@.len() as int) =~= b@);
            }
        }
    }
    r
}


/// The concatenation of two character sequences.
pub fn concat_chars(a: &[char], b: &[char]) -> (r: Vec<char>)
    ensures
        r@ == a@ + b@,
{
    let mut r: Vec<char> = Vec::new();
    let mut i: usize = 0;
    while i < a.len()
        invariant
            i <= a.len(),
            r@ == a@.take(i as int),
        decreases a.len() - i,
    {
        r.push(a[i]);
        i = i + 1;
        assert(r@ =~= a@.take(i as int));
    }
    let mut j: usize = 0;
    assert(a@.take(a.len() as int) =~= a@);
    while j < b.len()
        invariant
            j <= b.len(),
            r@ == a@ + b@.take(j as int),
        decreases b.len() - j,
    {
        r.push(b[j]);
        j = j + 1;
        assert(r@ =~= a@ + b@.take(j as int));
    }
    assert(b@.take(b.len() as int) =~= b@);
    r
}

/// The Unicode lower-case mapping of a character sequence.
pub fn lowercase_chars(v: &[char]) -> (r: Vec<char>)
    ensures
        r@ == unicode_lowercase(v@),
{
    let s = string_of(v);
    let lower = str_to_lowercase(s.as_str());
    chars_of(lower.as_str())
}

} // verus!
