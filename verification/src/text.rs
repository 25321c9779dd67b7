//! Character-level text primitives shared by the rest of the library:
//! trimming, searching, splitting, case mapping, percent-encoding and
//! decimal number parsing, each stated over `Seq<char>`.

use vstd::prelude::*;

verus! {

// ---------------------------------------------------------------------------
// Character classes
// ---------------------------------------------------------------------------

/// Unicode `White_Space`, the set that `char::is_whitespace` and `str::trim` use.
pub open spec fn is_ws(c: char) -> bool {
    let u = c as u32;
    ||| 0x9 <= u <= 0xd
    ||| u == 0x20
    ||| u == 0x85
    ||| u == 0xa0
    ||| u == 0x1680
    ||| 0x2000 <= u <= 0x200a
    ||| u == 0x2028
    ||| u == 0x2029
    ||| u == 0x202f
    ||| u == 0x205f
    ||| u == 0x3000
}

pub fn is_whitespace(c: char) -> (res: bool)
    ensures
        res == is_ws(c),
{
    let u = c as u32;
    (0x9 <= u && u <= 0xd) || u == 0x20 || u == 0x85 || u == 0xa0 || u == 0x1680 || (0x2000 <= u
        && u <= 0x200a) || u == 0x2028 || u == 0x2029 || u == 0x202f || u == 0x205f || u == 0x3000
}

pub open spec fn is_ascii_digit(c: char) -> bool {
    '0' <= c <= '9'
}

pub open spec fn is_ascii_alnum(c: char) -> bool {
    ||| '0' <= c <= '9'
    ||| 'a' <= c <= 'z'
    ||| 'A' <= c <= 'Z'
}

pub fn is_ascii_alphanumeric(c: char) -> (res: bool)
    ensures
        res == is_ascii_alnum(c),
{
    ('0' <= c && c <= '9') || ('a' <= c && c <= 'z') || ('A' <= c && c <= 'Z')
}

/// A set of characters that trimming and splitting work with.
#[derive(Clone, Copy)]
pub enum CharClass {
    Whitespace,
    Exactly(char),
    /// `'/'` or `'\\'`, the separators of a path.
    PathSeparator,
}

impl CharClass {
    pub open spec fn holds(self, c: char) -> bool {
        match self {
            CharClass::Whitespace => is_ws(c),
            CharClass::Exactly(x) => c == x,
            CharClass::PathSeparator => c == '/' || c == '\\',
        }
    }

    pub fn matches(&self, c: char) -> (res: bool)
        ensures
            res == self.holds(c),
    {
        match self {
            CharClass::Whitespace => is_whitespace(c),
            CharClass::Exactly(x) => c == *x,
            CharClass::PathSeparator => c == '/' || c == '\\',
        }
    }
}

// ---------------------------------------------------------------------------
// Conversions between strings and characters
// ---------------------------------------------------------------------------

/// Appends one character to a string (`String::push`).
#[verifier::external_body]
pub(crate) fn push_char(s: &mut String, c: char)
    ensures
        final(s)@ == old(s)@.push(c),
{
    s.push(c)
}

/// The characters of a string, in order.
pub fn to_chars(s: &str) -> (res: Vec<char>)
    ensures
        res@ == s@,
{
    let n = s.unicode_len();
    let mut res: Vec<char> = Vec::new();
    let mut i: usize = 0;
    while i < n
        invariant
            n == s@.len(),
            i <= n,
            res@ == s@.subrange(0, i as int),
        decreases n - i,
    {
        let c = s.get_char(i);
        res.push(c);
        i = i + 1;
    }
    res
}

/// A string made of the given characters.
pub fn from_chars(v: &[char]) -> (res: String)
    ensures
        res@ == v@,
{
    let mut res = String::new();
    let mut i: usize = 0;
    while i < v.len()
        invariant
            i <= v@.len(),
            res@ == v@.subrange(0, i as int),
        decreases v@.len() - i,
    {
        push_char(&mut res, v[i]);
        i = i + 1;
    }
    res
}

/// Appends all characters of `v` to `s`.
pub fn push_chars(s: &mut String, v: &[char])
    ensures
        final(s)@ == old(s)@ + v@,
{
    let mut i: usize = 0;
    while i < v.len()
        invariant
            i <= v@.len(),
            s@ == old(s)@ + v@.subrange(0, i as int),
        decreases v@.len() - i,
    {
        push_char(s, v[i]);
        i = i + 1;
    }
    assert(v@.subrange(0, v@.len() as int) =~= v@);
}

/// Appends all characters of `t` to `s`.
pub fn push_str(s: &mut String, t: &str)
    ensures
        final(s)@ == old(s)@ + t@,
{
    let v = to_chars(t);
    push_chars(s, v.as_slice());
}

/// The concatenation of two strings.
pub fn concat2(a: &str, b: &str) -> (res: String)
    ensures
        res@ == a@ + b@,
{
    let mut s = String::new();
    push_str(&mut s, a);
    push_str(&mut s, b);
    assert(Seq::<char>::empty() + a@ =~= a@);
    s
}

/// A copy of a string slice.
pub fn copy_str(a: &str) -> (res: String)
    ensures
        res@ == a@,
{
    let v = to_chars(a);
    from_chars(v.as_slice())
}

/// Equality of two strings, character by character.
pub fn str_eq(a: &str, b: &str) -> (res: bool)
    ensures
        res == (a@ == b@),
{
    let va = to_chars(a);
    let vb = to_chars(b);
    seq_eq(va.as_slice(), vb.as_slice())
}

pub fn seq_eq(a: &[char], b: &[char]) -> (res: bool)
    ensures
        res == (a@ == b@),
{
    if a.len() != b.len() {
        return false;
    }
    let mut i: usize = 0;
    while i < a.len()
        invariant
            a@.len() == b@.len(),
            i <= a@.len(),
            forall|j: int| 0 <= j < i ==> a@[j] == b@[j],
        decreases a@.len() - i,
    {
        if a[i] != b[i] {
            return false;
        }
        i = i + 1;
    }
    assert(a@ =~= b@);
    true
}

// ---------------------------------------------------------------------------
// Trimming
// ---------------------------------------------------------------------------

/// `s` without the leading characters of class `cls`.
pub open spec fn trim_start_by(s: Seq<char>, cls: CharClass) -> Seq<char>
    decreases s.len(),
{
    if s.len() > 0 && cls.holds(s[0]) {
        trim_start_by(s.drop_first(), cls)
    } else {
        s
    }
}

/// `s` without the trailing characters of class `cls`.
pub open spec fn trim_end_by(s: Seq<char>, cls: CharClass) -> Seq<char>
    decreases s.len(),
{
    if s.len() > 0 && cls.holds(s.last()) {
        trim_end_by(s.drop_last(), cls)
    } else {
        s
    }
}

/// `s` without leading and trailing characters of class `cls` (`str::trim_matches`).
pub open spec fn trim_by(s: Seq<char>, cls: CharClass) -> Seq<char> {
    trim_end_by(trim_start_by(s, cls), cls)
}

/// `str::trim`.
pub open spec fn trim(s: Seq<char>) -> Seq<char> {
    trim_by(s, CharClass::Whitespace)
}

proof fn lemma_trim_start_skip(s: Seq<char>, cls: CharClass, i: int)
    requires
        0 <= i <= s.len(),
        forall|j: int| 0 <= j < i ==> cls.holds(s[j]),
    ensures
        trim_start_by(s, cls) == trim_start_by(s.subrange(i, s.len() as int), cls),
    decreases i,
{
    if i > 0 {
        lemma_trim_start_skip(s.drop_first(), cls, i - 1);
        assert(s.drop_first().subrange(i - 1, s.drop_first().len() as int) =~= s.subrange(
            i,
            s.len() as int,
        ));
    } else {
        assert(s.subrange(0, s.len() as int) =~= s);
    }
}

proof fn lemma_trim_end_skip(s: Seq<char>, cls: CharClass, j: int)
    requires
        0 <= j <= s.len(),
        forall|k: int| j <= k < s.len() ==> cls.holds(s[k]),
    ensures
        trim_end_by(s, cls) == trim_end_by(s.subrange(0, j), cls),
    decreases s.len() - j,
{
    if j < s.len() {
        lemma_trim_end_skip(s.drop_last(), cls, j);
        assert(s.drop_last().subrange(0, j) =~= s.subrange(0, j));
    } else {
        assert(s.subrange(0, j) =~= s);
    }
}

/// Index of the first character of `v[from..]` not in `cls`, or `v.len()`.
fn skip_start(v: &[char], cls: CharClass) -> (i: usize)
    ensures
        i <= v@.len(),
        forall|j: int| 0 <= j < i ==> cls.holds(v@[j]),
        i < v@.len() ==> !cls.holds(v@[i as int]),
{
    let mut i: usize = 0;
    while i < v.len() && cls.matches(v[i])
        invariant
            i <= v@.len(),
            forall|j: int| 0 <= j < i ==> cls.holds(v@[j]),
        decreases v@.len() - i,
    {
        i = i + 1;
    }
    i
}

/// Index just after the last character of `v[lo..]` not in `cls`, or `lo`.
fn skip_end(v: &[char], lo: usize, cls: CharClass) -> (j: usize)
    requires
        lo <= v@.len(),
    ensures
        lo <= j <= v@.len(),
        forall|k: int| j <= k < v@.len() ==> cls.holds(v@[k]),
        j > lo ==> !cls.holds(v@[j - 1]),
{
    let mut j: usize = v.len();
    while j > lo && cls.matches(v[j - 1])
        invariant
            lo <= j <= v@.len(),
            forall|k: int| j <= k < v@.len() ==> cls.holds(v@[k]),
        decreases j,
    {
        j = j - 1;
    }
    j
}

pub fn trim_start_chars(v: &[char], cls: CharClass) -> (res: Vec<char>)
    ensures
        res@ == trim_start_by(v@, cls),
{
    let i = skip_start(v, cls);
    proof {
        lemma_trim_start_skip(v@, cls, i as int);
    }
    let res = slice_range(v, i, v.len());
    assert(trim_start_by(res@, cls) == res@);
    res
}

pub fn trim_end_chars(v: &[char], cls: CharClass) -> (res: Vec<char>)
    ensures
        res@ == trim_end_by(v@, cls),
{
    let j = skip_end(v, 0, cls);
    proof {
        lemma_trim_end_skip(v@, cls, j as int);
    }
    let res = slice_range(v, 0, j);
    assert(trim_end_by(res@, cls) == res@);
    res
}

pub fn trim_chars(v: &[char], cls: CharClass) -> (res: Vec<char>)
    ensures
        res@ == trim_by(v@, cls),
{
    let s = trim_start_chars(v, cls);
    trim_end_chars(s.as_slice(), cls)
}

/// `str::trim`, as characters.
pub fn trim_str(s: &str) -> (res: Vec<char>)
    ensures
        res@ == trim(s@),
{
    let v = to_chars(s);
    trim_chars(v.as_slice(), CharClass::Whitespace)
}

/// The characters `v[lo..hi]`.
pub fn slice_range(v: &[char], lo: usize, hi: usize) -> (res: Vec<char>)
    requires
        lo <= hi <= v@.len(),
    ensures
        res@ == v@.subrange(lo as int, hi as int),
{
    let mut res: Vec<char> = Vec::new();
    let mut i: usize = lo;
    while i < hi
        invariant
            lo <= i <= hi <= v@.len(),
            res@ == v@.subrange(lo as int, i as int),
        decreases hi - i,
    {
        res.push(v[i]);
        i = i + 1;
    }
    res
}

// ---------------------------------------------------------------------------
// Searching
// ---------------------------------------------------------------------------

/// `pat` occurs in `s` at position `i`.
pub open spec fn occurs_at(s: Seq<char>, pat: Seq<char>, i: int) -> bool {
    0 <= i && i + pat.len() <= s.len() && s.subrange(i, i + pat.len()) == pat
}

/// `pat` occurs somewhere in `s` (`str::contains` with a string pattern).
pub open spec fn contains_seq(s: Seq<char>, pat: Seq<char>) -> bool {
    exists|i: int| occurs_at(s, pat, i)
}

fn matches_at(v: &[char], pat: &[char], i: usize) -> (res: bool)
    requires
        i + pat@.len() <= v@.len(),
    ensures
        res == (v@.subrange(i as int, i + pat@.len()) == pat@),
{
    let n = v.len();
    let mut k: usize = 0;
    while k < pat.len()
        invariant
            n == v@.len(),
            i + pat@.len() <= n,
            k <= pat@.len(),
            forall|m: int| 0 <= m < k ==> v@[i + m] == pat@[m],
        decreases pat@.len() - k,
    {
        if v[i + k] != pat[k] {
            assert(v@.subrange(i as int, i + pat@.len())[k as int] != pat@[k as int]);
            return false;
        }
        k = k + 1;
    }
    assert(v@.subrange(i as int, i + pat@.len()) =~= pat@);
    true
}

pub fn contains_chars(v: &[char], pat: &[char]) -> (res: bool)
    ensures
        res == contains_seq(v@, pat@),
{
    if pat.len() > v.len() {
        return false;
    }
    let last = v.len() - pat.len();
    let mut i: usize = 0;
    loop
        invariant
            last == v@.len() - pat@.len(),
            i <= last,
            forall|j: int| 0 <= j < i ==> !occurs_at(v@, pat@, j),
        decreases last - i,
    {
        if matches_at(v, pat, i) {
            assert(occurs_at(v@, pat@, i as int));
            return true;
        }
        if i == last {
            return false;
        }
        i = i + 1;
    }
}

/// Whether `s` contains the string `pat`.
pub fn str_contains(s: &str, pat: &str) -> (res: bool)
    ensures
        res == contains_seq(s@, pat@),
{
    let v = to_chars(s);
    let p = to_chars(pat);
    contains_chars(v.as_slice(), p.as_slice())
}

pub fn contains_char(v: &[char], c: char) -> (res: bool)
    ensures
        res == v@.contains(c),
{
    let mut i: usize = 0;
    while i < v.len()
        invariant
            i <= v@.len(),
            forall|j: int| 0 <= j < i ==> v@[j] != c,
        decreases v@.len() - i,
    {
        if v[i] == c {
            return true;
        }
        i = i + 1;
    }
    false
}

/// Whether some character of `v` is in `cls`.
pub fn contains_class(v: &[char], cls: CharClass) -> (res: bool)
    ensures
        res == exists|j: int| 0 <= j < v@.len() && cls.holds(#[trigger] v@[j]),
{
    let mut i: usize = 0;
    while i < v.len()
        invariant
            i <= v@.len(),
            forall|j: int| 0 <= j < i ==> !cls.holds(#[trigger] v@[j]),
        decreases v@.len() - i,
    {
        if cls.matches(v[i]) {
            return true;
        }
        i = i + 1;
    }
    false
}

// ---------------------------------------------------------------------------
// Splitting
// ---------------------------------------------------------------------------

/// The pieces of `s` between the separators `sep` (`str::split` with a char).
pub open spec fn split_on(s: Seq<char>, sep: char) -> Seq<Seq<char>>
    decreases s.len(),
{
    if s.len() == 0 {
        seq![Seq::<char>::empty()]
    } else {
        let rest = split_on(s.drop_last(), sep);
        if s.last() == sep {
            rest.push(Seq::<char>::empty())
        } else {
            rest.update(rest.len() - 1, rest.last().push(s.last()))
        }
    }
}

pub proof fn lemma_split_nonempty(s: Seq<char>, sep: char)
    ensures
        split_on(s, sep).len() >= 1,
    decreases s.len(),
{
    if s.len() > 0 {
        lemma_split_nonempty(s.drop_last(), sep);
    }
}

/// The first piece is a prefix of the string.
pub proof fn lemma_split_first_is_prefix(s: Seq<char>, sep: char)
    ensures
        split_on(s, sep).len() >= 1,
        split_on(s, sep)[0].len() <= s.len(),
        split_on(s, sep)[0] == s.take(split_on(s, sep)[0].len() as int),
        split_on(s, sep).len() == 1 ==> split_on(s, sep)[0] == s,
    decreases s.len(),
{
    lemma_split_nonempty(s, sep);
    if s.len() == 0 {
        assert(s.take(0) =~= s);
    } else {
        lemma_split_first_is_prefix(s.drop_last(), sep);
        let rest = split_on(s.drop_last(), sep);
        let t = rest[0];
        assert(s.drop_last().take(t.len() as int) =~= s.take(t.len() as int));
        if s.last() != sep && rest.len() == 1 {
            assert(s.drop_last().push(s.last()) =~= s);
            assert(s.take(s.len() as int) =~= s);
        }
    }
}

/// The pieces of `v` between the separators `sep`.
pub fn split_chars(v: &[char], sep: char) -> (res: Vec<Vec<char>>)
    ensures
        res@.len() == split_on(v@, sep).len(),
        forall|k: int| 0 <= k < res@.len() ==> (#[trigger] res@[k])@ == split_on(v@, sep)[k],
{
    let mut done: Vec<Vec<char>> = Vec::new();
    let mut cur: Vec<char> = Vec::new();
    let mut i: usize = 0;
    while i < v.len()
        invariant
            i <= v@.len(),
            done@.len() + 1 == split_on(v@.subrange(0, i as int), sep).len(),
            forall|k: int|
                0 <= k < done@.len() ==> (#[trigger] done@[k])@ == split_on(
                    v@.subrange(0, i as int),
                    sep,
                )[k],
            cur@ == split_on(v@.subrange(0, i as int), sep).last(),
        decreases v@.len() - i,
    {
        let ghost prev = v@.subrange(0, i as int);
        let ghost next = v@.subrange(0, i + 1);
        assert(next.drop_last() =~= prev);
        assert(next.last() == v@[i as int]);
        proof {
            lemma_split_nonempty(prev, sep);
        }
        if v[i] == sep {
            let finished = cur;
            done.push(finished);
            cur = Vec::new();
        } else {
            cur.push(v[i]);
        }
        i = i + 1;
    }
    assert(v@.subrange(0, v@.len() as int) =~= v@);
    done.push(cur);
    done
}

/// The part of `s` after the last character of class `cls`, or all of `s`
/// (the first item of `str::rsplit`).
pub open spec fn after_last(s: Seq<char>, cls: CharClass) -> Seq<char>
    decreases s.len(),
{
    if s.len() == 0 {
        s
    } else if cls.holds(s.last()) {
        Seq::<char>::empty()
    } else {
        after_last(s.drop_last(), cls).push(s.last())
    }
}

proof fn lemma_after_last_from(s: Seq<char>, cls: CharClass, j: int)
    requires
        0 <= j <= s.len(),
        forall|k: int| j <= k < s.len() ==> !cls.holds(s[k]),
        j == 0 || cls.holds(s[j - 1]),
    ensures
        after_last(s, cls) == s.subrange(j, s.len() as int),
    decreases s.len(),
{
    if s.len() == j {
        if j > 0 {
            assert(cls.holds(s.last()));
        }
        assert(s.subrange(j, s.len() as int) =~= Seq::<char>::empty());
    } else {
        lemma_after_last_from(s.drop_last(), cls, j);
        assert(s.drop_last().subrange(j, s.drop_last().len() as int).push(s.last()) =~= s.subrange(
            j,
            s.len() as int,
        ));
    }
}

pub fn after_last_chars(v: &[char], cls: CharClass) -> (res: Vec<char>)
    ensures
        res@ == after_last(v@, cls),
{
    let mut j: usize = v.len();
    while j > 0 && !cls.matches(v[j - 1])
        invariant
            j <= v@.len(),
            forall|k: int| j <= k < v@.len() ==> !cls.holds(v@[k]),
        decreases j,
    {
        j = j - 1;
    }
    proof {
        lemma_after_last_from(v@, cls, j as int);
    }
    slice_range(v, j, v.len())
}

// ---------------------------------------------------------------------------
// Case mapping
// ---------------------------------------------------------------------------

/// What `str::to_lowercase` returns for a string (Unicode lowercase mapping).
pub uninterp spec fn unicode_lowercase(s: Seq<char>) -> Seq<char>;

/// Calls `str::to_lowercase`. Its result is named `unicode_lowercase` of the
/// argument; the Unicode case tables themselves are not stated here, except
/// that on ASCII text it maps `A`-`Z` to `a`-`z` and keeps every other
/// character.
#[verifier::external_body]
pub(crate) fn to_lowercase(s: &str) -> (res: String)
    ensures
        res@ == unicode_lowercase(s@),
        (forall|i: int| 0 <= i < s@.len() ==> (#[trigger] s@[i] as u32) < 128) ==> res@ == ascii_lowercase(
            s@,
        ),
{
    s.to_lowercase()
}

pub open spec fn ascii_lower(c: char) -> char {
    if 'A' <= c <= 'Z' {
        ((c as u32) + 32) as char
    } else {
        c
    }
}

/// `str::to_ascii_lowercase`.
pub open spec fn ascii_lowercase(s: Seq<char>) -> Seq<char> {
    s.map_values(|c: char| ascii_lower(c))
}

pub fn to_ascii_lower_char(c: char) -> (res: char)
    ensures
        res == ascii_lower(c),
{
    if 'A' <= c && c <= 'Z' {
        let u = (c as u32) + 32;
        assert(0x61 <= u <= 0x7a);
        char_from_ascii(u as u8)
    } else {
        c
    }
}

/// The character of an ASCII code.
pub fn char_from_ascii(b: u8) -> (c: char)
    requires
        b < 128,
    ensures
        c as u32 == b as u32,
{
    b as char
}

pub fn to_ascii_lowercase(v: &[char]) -> (res: Vec<char>)
    ensures
        res@ == ascii_lowercase(v@),
{
    let mut res: Vec<char> = Vec::new();
    let mut i: usize = 0;
    while i < v.len()
        invariant
            i <= v@.len(),
            res@ == ascii_lowercase(v@.subrange(0, i as int)),
        decreases v@.len() - i,
    {
        let c = to_ascii_lower_char(v[i]);
        res.push(c);
        i = i + 1;
        assert(ascii_lowercase(v@.subrange(0, i as int)) =~= ascii_lowercase(
            v@.subrange(0, i - 1),
        ).push(ascii_lower(v@[i - 1])));
    }
    assert(v@.subrange(0, v@.len() as int) =~= v@);
    res
}

// ---------------------------------------------------------------------------
// Percent-encoding (RFC 3986 unreserved characters kept)
// ---------------------------------------------------------------------------

pub open spec fn is_unreserved(b: u8) -> bool {
    ||| 0x41 <= b <= 0x5a
    ||| 0x61 <= b <= 0x7a
    ||| 0x30 <= b <= 0x39
    ||| b == 0x2d
    ||| b == 0x5f
    ||| b == 0x2e
    ||| b == 0x7e
}

pub open spec fn hex_upper(d: u8) -> char {
    if d < 10 {
        ((d + 0x30) as u8) as char
    } else {
        ((d - 10 + 0x41) as u8) as char
    }
}

/// The encoding of one byte: itself when unreserved, else `%XY` in upper-case hex.
pub open spec fn pct_byte(b: u8) -> Seq<char> {
    if is_unreserved(b) {
        seq![b as char]
    } else {
        seq!['%', hex_upper(b / 16), hex_upper(b % 16)]
    }
}

pub open spec fn pct_encode(bytes: Seq<u8>) -> Seq<char>
    decreases bytes.len(),
{
    if bytes.len() == 0 {
        Seq::<char>::empty()
    } else {
        pct_encode(bytes.drop_last()) + pct_byte(bytes.last())
    }
}

/// The value of a hexadecimal digit (either case); 0 for anything else.
pub open spec fn hex_value(c: char) -> int {
    if '0' <= c <= '9' {
        (c as int) - 0x30
    } else if 'A' <= c <= 'F' {
        (c as int) - 0x41 + 10
    } else if 'a' <= c <= 'f' {
        (c as int) - 0x61 + 10
    } else {
        0
    }
}

/// Percent-decoding: `%XY` gives the byte with hex digits `XY`; any other
/// character gives its code as a byte.
pub open spec fn pct_decode(s: Seq<char>) -> Seq<u8>
    decreases s.len(),
{
    if s.len() == 0 {
        Seq::<u8>::empty()
    } else if s[0] == '%' && s.len() >= 3 {
        seq![(hex_value(s[1]) * 16 + hex_value(s[2])) as u8] + pct_decode(s.skip(3))
    } else {
        seq![(s[0] as int) as u8] + pct_decode(s.skip(1))
    }
}

/// A character that percent-encoding produces: an unreserved ASCII
/// character, `%`, or an upper-case hex digit.
pub open spec fn is_pct_char(c: char) -> bool {
    ||| ('A' <= c <= 'Z') || ('a' <= c <= 'z') || ('0' <= c <= '9')
    ||| c == '-' || c == '_' || c == '.' || c == '~' || c == '%'
}

proof fn lemma_pct_byte_decodes(b: u8, rest: Seq<char>)
    ensures
        pct_decode(pct_byte(b) + rest) == seq![b] + pct_decode(rest),
        forall|i: int| 0 <= i < pct_byte(b).len() ==> is_pct_char(#[trigger] pct_byte(b)[i]),
{
    let s = pct_byte(b) + rest;
    if is_unreserved(b) {
        assert(s[0] == b as char);
        assert(s.skip(1) =~= rest);
        assert(((b as char) as int) as u8 == b);
    } else {
        let hi = b / 16;
        let lo = b % 16;
        assert(s[0] == '%');
        assert(s[1] == hex_upper(hi));
        assert(s[2] == hex_upper(lo));
        assert(s.skip(3) =~= rest);
        assert(hex_value(hex_upper(hi)) == hi);
        assert(hex_value(hex_upper(lo)) == lo);
        assert((hi * 16 + lo) as u8 == b);
    }
}

proof fn lemma_pct_encode_front(bytes: Seq<u8>)
    requires
        bytes.len() > 0,
    ensures
        pct_encode(bytes) == pct_byte(bytes[0]) + pct_encode(bytes.skip(1)),
    decreases bytes.len(),
{
    if bytes.len() == 1 {
        assert(bytes.drop_last() =~= Seq::<u8>::empty());
        assert(bytes.skip(1) =~= Seq::<u8>::empty());
        assert(pct_byte(bytes[0]) + Seq::<char>::empty() =~= pct_byte(bytes[0]));
    } else {
        lemma_pct_encode_front(bytes.drop_last());
        assert(bytes.drop_last().skip(1) =~= bytes.skip(1).drop_last());
        assert(bytes.skip(1).last() == bytes.last());
        assert(bytes.drop_last()[0] == bytes[0]);
        assert(pct_encode(bytes.skip(1)) == pct_encode(bytes.skip(1).drop_last()) + pct_byte(
            bytes.skip(1).last(),
        ));
        assert(pct_byte(bytes[0]) + pct_encode(bytes.skip(1)) =~= pct_byte(bytes[0])
            + pct_encode(bytes.drop_last().skip(1)) + pct_byte(bytes.last()));
    }
}

/// Percent-decoding gives back the encoded bytes, and the encoding holds
/// only unreserved characters, `%` and upper-case hex digits.
pub proof fn law_pct_decode_inverts(bytes: Seq<u8>)
    ensures
        pct_decode(pct_encode(bytes)) == bytes,
        forall|i: int| 0 <= i < pct_encode(bytes).len() ==> is_pct_char(#[trigger] pct_encode(bytes)[i]),
    decreases bytes.len(),
{
    if bytes.len() > 0 {
        lemma_pct_encode_front(bytes);
        law_pct_decode_inverts(bytes.skip(1));
        lemma_pct_byte_decodes(bytes[0], pct_encode(bytes.skip(1)));
        assert(seq![bytes[0]] + bytes.skip(1) =~= bytes);
        let e = pct_encode(bytes);
        let h = pct_byte(bytes[0]);
        let t = pct_encode(bytes.skip(1));
        assert forall|i: int| 0 <= i < e.len() implies is_pct_char(#[trigger] e[i]) by {
            if i < h.len() {
                assert(e[i] == h[i]);
            } else {
                assert(e[i] == t[i - h.len()]);
            }
        }
    }
}

fn hex_digit(d: u8) -> (c: char)
    requires
        d < 16,
    ensures
        c == hex_upper(d),
{
    if d < 10 {
        char_from_ascii(d + 0x30)
    } else {
        char_from_ascii(d - 10 + 0x41)
    }
}

/// Percent-encodes the UTF-8 bytes of a string onto `out`.
pub fn push_pct_encoded(out: &mut String, s: &str)
    ensures
        final(out)@ == old(out)@ + pct_encode(vstd::utf8::encode_utf8(s@)),
{
    let bytes = s.as_bytes();
    let mut i: usize = 0;
    while i < bytes.len()
        invariant
            bytes@ == vstd::utf8::encode_utf8(s@),
            i <= bytes@.len(),
            out@ == old(out)@ + pct_encode(bytes@.subrange(0, i as int)),
        decreases bytes@.len() - i,
    {
        let b = bytes[i];
        let ghost before = out@;
        if (0x41 <= b && b <= 0x5a) || (0x61 <= b && b <= 0x7a) || (0x30 <= b && b <= 0x39) || b
            == 0x2d || b == 0x5f || b == 0x2e || b == 0x7e {
            push_char(out, char_from_ascii(b));
            assert(pct_byte(b) =~= seq![b as char]);
        } else {
            push_char(out, '%');
            push_char(out, hex_digit(b / 16));
            push_char(out, hex_digit(b % 16));
        }
        assert(out@ == before + pct_byte(b));
        i = i + 1;
        assert(bytes@.subrange(0, i as int).drop_last() =~= bytes@.subrange(0, i - 1));
        assert(out@ =~= old(out)@ + pct_encode(bytes@.subrange(0, i as int)));
    }
    assert(bytes@.subrange(0, bytes@.len() as int) =~= bytes@);
}

// ---------------------------------------------------------------------------
// Decimal numbers
// ---------------------------------------------------------------------------

pub open spec fn digit_value(c: char) -> nat {
    ((c as u32) - 0x30) as nat
}

pub open spec fn all_digits(s: Seq<char>) -> bool {
    forall|i: int| 0 <= i < s.len() ==> is_ascii_digit(#[trigger] s[i])
}

/// The value of a string of decimal digits.
pub open spec fn digits_value(s: Seq<char>) -> nat
    decreases s.len(),
{
    if s.len() == 0 {
        0
    } else {
        digits_value(s.drop_last()) * 10 + digit_value(s.last())
    }
}

/// The digits after an optional leading `'+'`.
pub open spec fn unsigned_body(s: Seq<char>) -> Seq<char> {
    if s.len() > 0 && s[0] == '+' {
        s.drop_first()
    } else {
        s
    }
}

/// What `str::parse::<u64>` accepts: an optional `'+'`, then one or more ASCII
/// digits, whose value fits in the type.
pub open spec fn parse_u64_spec(s: Seq<char>) -> Option<u64> {
    let body = unsigned_body(s);
    if body.len() > 0 && all_digits(body) && digits_value(body) <= u64::MAX {
        Some(digits_value(body) as u64)
    } else {
        None
    }
}

/// What `str::parse::<u16>` accepts: as for `u64`, with the value at most 65535.
pub open spec fn parse_u16_spec(s: Seq<char>) -> Option<u16> {
    let body = unsigned_body(s);
    if body.len() > 0 && all_digits(body) && digits_value(body) <= u16::MAX {
        Some(digits_value(body) as u16)
    } else {
        None
    }
}

/// What `str::parse::<i64>` accepts: an optional sign, then one or more ASCII
/// digits, whose signed value fits in the type.
pub open spec fn parse_i64_spec(s: Seq<char>) -> Option<i64> {
    if s.len() > 0 && s[0] == '-' {
        let body = s.drop_first();
        if body.len() > 0 && all_digits(body) && digits_value(body) <= 0x8000_0000_0000_0000 {
            Some((0 - digits_value(body)) as i64)
        } else {
            None
        }
    } else {
        let body = unsigned_body(s);
        if body.len() > 0 && all_digits(body) && digits_value(body) <= i64::MAX {
            Some(digits_value(body) as i64)
        } else {
            None
        }
    }
}

/// What `str::parse::<bool>` accepts: exactly `"true"` or `"false"`.
pub open spec fn parse_bool_spec(s: Seq<char>) -> Option<bool> {
    if s == seq!['t', 'r', 'u', 'e'] {
        Some(true)
    } else if s == seq!['f', 'a', 'l', 's', 'e'] {
        Some(false)
    } else {
        None
    }
}

proof fn lemma_digits_value_monotone(s: Seq<char>, k: int)
    requires
        0 <= k <= s.len(),
    ensures
        digits_value(s.subrange(0, k)) <= digits_value(s),
    decreases s.len() - k,
{
    if k < s.len() {
        lemma_digits_value_monotone(s.drop_last(), k);
        assert(s.drop_last().subrange(0, k) =~= s.subrange(0, k));
    } else {
        assert(s.subrange(0, k) =~= s);
    }
}

fn all_ascii_digits(v: &[char], from: usize) -> (res: bool)
    requires
        from <= v@.len(),
    ensures
        res == all_digits(v@.subrange(from as int, v@.len() as int)),
{
    let mut i: usize = from;
    while i < v.len()
        invariant
            from <= i <= v@.len(),
            forall|j: int| from <= j < i ==> is_ascii_digit(v@[j]),
        decreases v@.len() - i,
    {
        if !('0' <= v[i] && v[i] <= '9') {
            assert(!is_ascii_digit(v@.subrange(from as int, v@.len() as int)[i - from]));
            return false;
        }
        i = i + 1;
    }
    true
}

/// The value of the digits `v[from..]`, or `None` when it exceeds `max`.
fn digits_up_to(v: &[char], from: usize, max: u64) -> (res: Option<u64>)
    requires
        from <= v@.len(),
        max >= 9,
        all_digits(v@.subrange(from as int, v@.len() as int)),
    ensures
        res == (if digits_value(v@.subrange(from as int, v@.len() as int)) <= max {
            Some(digits_value(v@.subrange(from as int, v@.len() as int)) as u64)
        } else {
            None::<u64>
        }),
{
    let ghost body = v@.subrange(from as int, v@.len() as int);
    let mut acc: u64 = 0;
    let mut i: usize = from;
    while i < v.len()
        invariant
            from <= i <= v@.len(),
            body == v@.subrange(from as int, v@.len() as int),
            all_digits(body),
            acc == digits_value(body.subrange(0, i - from)),
            acc <= max,
            max >= 9,
        decreases v@.len() - i,
    {
        let ghost prefix = body.subrange(0, i + 1 - from);
        assert(prefix.drop_last() =~= body.subrange(0, i - from));
        assert(prefix.last() == v@[i as int]);
        assert(body[i - from] == v@[i as int]);
        assert(is_ascii_digit(body[i - from]));
        let d = (v[i] as u32 - 0x30) as u64;
        if acc > (max - d) / 10 {
            proof {
                assert(digits_value(prefix) == acc * 10 + d);
                assert(acc * 10 + d > max) by (nonlinear_arith)
                    requires
                        acc > (max - d) / 10,
                        d <= 9,
                        d <= max || max < 9,
                ;
                lemma_digits_value_monotone(body, i + 1 - from);
            }
            return None;
        }
        assert(acc * 10 + d <= max) by (nonlinear_arith)
            requires
                acc <= (max - d) / 10,
                d <= max,
        ;
        acc = acc * 10 + d;
        i = i + 1;
    }
    assert(body.subrange(0, v@.len() - from) =~= body);
    Some(acc)
}

/// `str::parse::<u64>`, as an `Option`.
pub fn parse_u64(s: &str) -> (res: Option<u64>)
    ensures
        res == parse_u64_spec(s@),
{
    let v = to_chars(s);
    let from: usize = if v.len() > 0 && v[0] == '+' {
        1
    } else {
        0
    };
    assert(unsigned_body(s@) =~= v@.subrange(from as int, v@.len() as int));
    if from >= v.len() || !all_ascii_digits(v.as_slice(), from) {
        return None;
    }
    digits_up_to(v.as_slice(), from, u64::MAX)
}

/// `str::parse::<u16>`, as an `Option`.
pub fn parse_u16(s: &str) -> (res: Option<u16>)
    ensures
        res == parse_u16_spec(s@),
{
    let v = to_chars(s);
    let from: usize = if v.len() > 0 && v[0] == '+' {
        1
    } else {
        0
    };
    assert(unsigned_body(s@) =~= v@.subrange(from as int, v@.len() as int));
    if from >= v.len() || !all_ascii_digits(v.as_slice(), from) {
        return None;
    }
    match digits_up_to(v.as_slice(), from, 65535) {
        Some(m) => Some(m as u16),
        None => None,
    }
}

/// `str::parse::<i64>`, as an `Option`.
pub fn parse_i64(s: &str) -> (res: Option<i64>)
    ensures
        res == parse_i64_spec(s@),
{
    let v = to_chars(s);
    if v.len() > 0 && v[0] == '-' {
        assert(s@.drop_first() =~= v@.subrange(1, v@.len() as int));
        if v.len() < 2 || !all_ascii_digits(v.as_slice(), 1) {
            return None;
        }
        match digits_up_to(v.as_slice(), 1, 0x8000_0000_0000_0000u64) {
            Some(m) => {
                if m == 0x8000_0000_0000_0000u64 {
                    Some(i64::MIN)
                } else {
                    Some(0 - (m as i64))
                }
            },
            None => None,
        }
    } else {
        let from: usize = if v.len() > 0 && v[0] == '+' {
            1
        } else {
            0
        };
        assert(unsigned_body(s@) =~= v@.subrange(from as int, v@.len() as int));
        if from >= v.len() || !all_ascii_digits(v.as_slice(), from) {
            return None;
        }
        match digits_up_to(v.as_slice(), from, i64::MAX as u64) {
            Some(m) => Some(m as i64),
            None => None,
        }
    }
}

/// `str::parse::<bool>`, as an `Option`.
pub fn parse_bool_str(s: &str) -> (res: Option<bool>)
    ensures
        res == parse_bool_spec(s@),
{
    let v = to_chars(s);
    let t = ['t', 'r', 'u', 'e'];
    let f = ['f', 'a', 'l', 's', 'e'];
    assert(t@ =~= seq!['t', 'r', 'u', 'e']);
    assert(f@ =~= seq!['f', 'a', 'l', 's', 'e']);
    if seq_eq(v.as_slice(), t.as_slice()) {
        Some(true)
    } else if seq_eq(v.as_slice(), f.as_slice()) {
        Some(false)
    } else {
        None
    }
}

} // verus!

verus! {

// ---------------------------------------------------------------------------
// Ordering and joining lists of strings
// ---------------------------------------------------------------------------

/// Lexicographic order by code point (the order of `str`'s `Ord`, since UTF-8
/// preserves code-point order byte-wise).
pub open spec fn lex_le(a: Seq<char>, b: Seq<char>) -> bool
    decreases a.len(),
{
    if a.len() == 0 {
        true
    } else if b.len() == 0 {
        false
    } else if (a[0] as u32) < (b[0] as u32) {
        true
    } else if (a[0] as u32) > (b[0] as u32) {
        false
    } else {
        lex_le(a.drop_first(), b.drop_first())
    }
}

pub proof fn lemma_lex_total(a: Seq<char>, b: Seq<char>)
    ensures
        lex_le(a, b) || lex_le(b, a),
    decreases a.len(),
{
    if a.len() > 0 && b.len() > 0 && a[0] as u32 == b[0] as u32 {
        lemma_lex_total(a.drop_first(), b.drop_first());
    }
}

pub proof fn lemma_lex_trans(a: Seq<char>, b: Seq<char>, c: Seq<char>)
    requires
        lex_le(a, b),
        lex_le(b, c),
    ensures
        lex_le(a, c),
    decreases a.len(),
{
    if a.len() > 0 && b.len() > 0 && c.len() > 0 && a[0] as u32 == b[0] as u32 && b[0] as u32
        == c[0] as u32 {
        lemma_lex_trans(a.drop_first(), b.drop_first(), c.drop_first());
    }
}

pub open spec fn lex_sorted(s: Seq<Seq<char>>) -> bool {
    forall|i: int, j: int| 0 <= i < j < s.len() ==> lex_le(#[trigger] s[i], #[trigger] s[j])
}

fn lex_le_exec(a: &[char], b: &[char]) -> (res: bool)
    ensures
        res == lex_le(a@, b@),
{
    let mut i: usize = 0;
    assert(a@.skip(0) =~= a@);
    assert(b@.skip(0) =~= b@);
    while i < a.len() && i < b.len() && a[i] == b[i]
        invariant
            i <= a@.len(),
            i <= b@.len(),
            lex_le(a@, b@) == lex_le(a@.skip(i as int), b@.skip(i as int)),
        decreases a@.len() - i,
    {
        assert(a@.skip(i as int).drop_first() =~= a@.skip(i + 1));
        assert(b@.skip(i as int).drop_first() =~= b@.skip(i + 1));
        i = i + 1;
    }
    if i == a.len() {
        assert(a@.skip(i as int).len() == 0);
        true
    } else if i == b.len() {
        assert(b@.skip(i as int).len() == 0);
        false
    } else {
        let x = a[i];
        let y = b[i];
        assert(a@.skip(i as int)[0] == x);
        assert(b@.skip(i as int)[0] == y);
        assert(x != y);
        proof {
            vstd::utf8::char_u32_cast(x, x as u32);
            vstd::utf8::char_u32_cast(y, y as u32);
        }
        (x as u32) < (y as u32)
    }
}

/// The strings of `items`, sorted.
pub fn sort_strings(items: Vec<Vec<char>>) -> (res: Vec<Vec<char>>)
    ensures
        res@.len() == items@.len(),
        lex_sorted(res@.map_values(|v: Vec<char>| v@)),
        res@.map_values(|v: Vec<char>| v@).to_multiset() == items@.map_values(|v: Vec<char>| v@).to_multiset(),
{
    let ghost src = items@.map_values(|v: Vec<char>| v@);
    let mut res: Vec<Vec<char>> = Vec::new();
    let mut i: usize = 0;
    assert(res@.map_values(|v: Vec<char>| v@) =~= Seq::<Seq<char>>::empty());
    assert(src.subrange(0, 0) =~= Seq::<Seq<char>>::empty());
    while i < items.len()
        invariant
            src == items@.map_values(|v: Vec<char>| v@),
            i <= items@.len(),
            res@.len() == i,
            lex_sorted(res@.map_values(|v: Vec<char>| v@)),
            res@.map_values(|v: Vec<char>| v@).to_multiset() == src.subrange(0, i as int).to_multiset(),
        decreases items@.len() - i,
    {
        let x = slice_range(items[i].as_slice(), 0, items[i].len());
        assert(x@ =~= src[i as int]);
        let ghost before = res@.map_values(|v: Vec<char>| v@);
        let mut p: usize = 0;
        while p < res.len() && lex_le_exec(res[p].as_slice(), x.as_slice())
            invariant
                before == res@.map_values(|v: Vec<char>| v@),
                p <= res@.len(),
                forall|k: int| 0 <= k < p ==> lex_le(#[trigger] before[k], x@),
            decreases res@.len() - p,
        {
            p = p + 1;
        }
        proof {
            if p < before.len() {
                assert(!lex_le(before[p as int], x@));
                lemma_lex_total(before[p as int], x@);
                assert forall|k: int| p <= k < before.len() implies lex_le(x@, #[trigger] before[k]) by {
                    if k > p {
                        assert(lex_le(before[p as int], before[k]));
                        lemma_lex_trans(x@, before[p as int], before[k]);
                    }
                }
            }
        }
        res.insert(p, x);
        let ghost after = res@.map_values(|v: Vec<char>| v@);
        assert(after =~= before.insert(p as int, src[i as int]));
        proof {
            assert forall|a: int, b: int| 0 <= a < b < after.len() implies lex_le(
                #[trigger] after[a],
                #[trigger] after[b],
            ) by {
                if a < p && b < p {
                } else if a < p && b == p {
                } else if a < p && b > p {
                    assert(after[b] == before[b - 1]);
                    lemma_lex_trans(after[a], x@, after[b]);
                } else if a == p {
                    assert(after[b] == before[b - 1]);
                } else {
                    assert(after[a] == before[a - 1]);
                    assert(after[b] == before[b - 1]);
                }
            }
            vstd::seq_lib::to_multiset_insert(before, p as int, src[i as int]);
            assert(src.subrange(0, i + 1) =~= src.subrange(0, i as int).push(src[i as int]));
            vstd::seq_lib::to_multiset_build(src.subrange(0, i as int), src[i as int]);
        }
        i = i + 1;
    }
    assert(src.subrange(0, src.len() as int) =~= src);
    res
}

/// The strings of `list` separated by `sep`.
pub open spec fn join(list: Seq<Seq<char>>, sep: Seq<char>) -> Seq<char>
    decreases list.len(),
{
    if list.len() == 0 {
        Seq::<char>::empty()
    } else if list.len() == 1 {
        list[0]
    } else {
        join(list.drop_last(), sep) + sep + list.last()
    }
}

/// Joins the strings of `list` with `sep`.
pub fn join_chars(list: &Vec<Vec<char>>, sep: &str) -> (res: String)
    ensures
        res@ == join(list@.map_values(|v: Vec<char>| v@), sep@),
{
    let ghost l = list@.map_values(|v: Vec<char>| v@);
    let mut out = String::new();
    let mut i: usize = 0;
    while i < list.len()
        invariant
            l == list@.map_values(|v: Vec<char>| v@),
            i <= list@.len(),
            out@ == join(l.subrange(0, i as int), sep@),
        decreases list@.len() - i,
    {
        let ghost prev = out@;
        if i > 0 {
            push_str(&mut out, sep);
        }
        push_chars(&mut out, list[i].as_slice());
        assert(l.subrange(0, i + 1).drop_last() =~= l.subrange(0, i as int));
        if i == 0 {
            assert(prev =~= Seq::<char>::empty());
            assert(out@ =~= l.subrange(0, 1)[0]);
        } else {
            assert(out@ =~= prev + sep@ + l[i as int]);
        }
        i = i + 1;
    }
    assert(l.subrange(0, l.len() as int) =~= l);
    out
}

} // verus!
