//! Character-level text helpers shared by the rest of the library.
//!
//! Strings are modelled by their views, sequences of `char`. The
//! predicates here follow the documented behaviour of the corresponding
//! `str` methods (`trim`, `contains`, `starts_with`, `lines`, ...).
use vstd::prelude::*;

verus! {

// ---------------------------------------------------------------------------
// Conversions between strings and character vectors
// ---------------------------------------------------------------------------

/// Copies the characters of a string slice into a vector.
pub fn chars_of(s: &str) -> (v: Vec<char>)
    ensures
        v@ == s@,
{
    let mut v: Vec<char> = Vec::new();
    for c in it: s.chars()
        invariant
            v@ == it.history(),
    {
        v.push(c);
    }
    v
}

/// Appends one character to a string (`String::push`).
#[verifier::external_body]
pub fn push_char(s: &mut String, c: char)
    ensures
        final(s)@ == old(s)@.push(c),
{
    s.push(c);
}

/// Builds a string from a slice of characters.
pub fn string_of(v: &[char]) -> (s: String)
    ensures
        s@ == v@,
{
    let mut s = String::new();
    let mut i: usize = 0;
    while i < v.len()
        invariant
            i <= v@.len(),
            s@ == v@.take(i as int),
        decreases v@.len() - i,
    {
        push_char(&mut s, v[i]);
        i = i + 1;
        assert(s@ =~= v@.take(i as int));
    }
    assert(v@.take(v@.len() as int) =~= v@);
    s
}

/// Appends the characters of a slice to a string.
pub fn append_chars(s: &mut String, v: &[char])
    ensures
        final(s)@ == old(s)@ + v@,
{
    let ghost start = s@;
    let mut i: usize = 0;
    while i < v.len()
        invariant
            i <= v@.len(),
            s@ == start + v@.take(i as int),
        decreases v@.len() - i,
    {
        push_char(s, v[i]);
        i = i + 1;
        assert(s@ =~= start + v@.take(i as int));
    }
    assert(v@.take(v@.len() as int) =~= v@);
}

// ---------------------------------------------------------------------------
// Whitespace and trimming
// ---------------------------------------------------------------------------

/// The characters with the Unicode `White_Space` property, which is what
/// `char::is_whitespace` tests.
pub open spec fn is_ws(c: char) -> bool {
    let u = c as u32;
    ||| 0x09 <= u <= 0x0D
    ||| u == 0x20
    ||| u == 0x85
    ||| u == 0xA0
    ||| u == 0x1680
    ||| 0x2000 <= u <= 0x200A
    ||| u == 0x2028
    ||| u == 0x2029
    ||| u == 0x202F
    ||| u == 0x205F
    ||| u == 0x3000
}

/// `char::is_whitespace`.
pub fn is_whitespace(c: char) -> (b: bool)
    ensures
        b == is_ws(c),
{
    let u = c as u32;
    (0x09 <= u && u <= 0x0D) || u == 0x20 || u == 0x85 || u == 0xA0 || u == 0x1680 || (0x2000
        <= u && u <= 0x200A) || u == 0x2028 || u == 0x2029 || u == 0x202F || u == 0x205F || u
        == 0x3000
}

/// Number of leading whitespace characters.
pub open spec fn ws_prefix_len(s: Seq<char>) -> nat
    decreases s.len(),
{
    if s.len() > 0 && is_ws(s[0]) {
        1 + ws_prefix_len(s.drop_first())
    } else {
        0
    }
}

/// Number of trailing whitespace characters.
pub open spec fn ws_suffix_len(s: Seq<char>) -> nat
    decreases s.len(),
{
    if s.len() > 0 && is_ws(s.last()) {
        1 + ws_suffix_len(s.drop_last())
    } else {
        0
    }
}

/// `str::trim_start`.
pub open spec fn trim_start(s: Seq<char>) -> Seq<char> {
    s.skip(ws_prefix_len(s) as int)
}

/// `str::trim_end`.
pub open spec fn trim_end(s: Seq<char>) -> Seq<char> {
    s.take(s.len() - ws_suffix_len(s))
}

/// `str::trim`.
pub open spec fn trim(s: Seq<char>) -> Seq<char> {
    trim_end(trim_start(s))
}

/// Every character is whitespace (so that `trim` leaves nothing).
pub open spec fn is_blank(s: Seq<char>) -> bool {
    forall|i: int| 0 <= i < s.len() ==> is_ws(#[trigger] s[i])
}

pub proof fn lemma_ws_prefix_len_bound(s: Seq<char>)
    ensures
        ws_prefix_len(s) <= s.len(),
        forall|i: int| 0 <= i < ws_prefix_len(s) ==> is_ws(#[trigger] s[i]),
        ws_prefix_len(s) < s.len() ==> !is_ws(s[ws_prefix_len(s) as int]),
    decreases s.len(),
{
    if s.len() > 0 && is_ws(s[0]) {
        lemma_ws_prefix_len_bound(s.drop_first());
        assert forall|i: int| 0 <= i < ws_prefix_len(s) implies is_ws(#[trigger] s[i]) by {
            if i > 0 {
                assert(s[i] == s.drop_first()[i - 1]);
            }
        }
    }
}

pub proof fn lemma_ws_suffix_len_bound(s: Seq<char>)
    ensures
        ws_suffix_len(s) <= s.len(),
        forall|i: int| s.len() - ws_suffix_len(s) <= i < s.len() ==> is_ws(#[trigger] s[i]),
        ws_suffix_len(s) < s.len() ==> !is_ws(s[s.len() - ws_suffix_len(s) - 1]),
    decreases s.len(),
{
    if s.len() > 0 && is_ws(s.last()) {
        lemma_ws_suffix_len_bound(s.drop_last());
        assert forall|i: int| s.len() - ws_suffix_len(s) <= i < s.len() implies is_ws(
            #[trigger] s[i],
        ) by {
            if i < s.len() - 1 {
                assert(s[i] == s.drop_last()[i]);
            }
        }
    }
}

/// The whole sequence is whitespace exactly when trimming leaves nothing.
pub proof fn lemma_blank_iff_trim_empty(s: Seq<char>)
    ensures
        is_blank(s) <==> trim(s).len() == 0,
        is_blank(s) <==> ws_prefix_len(s) == s.len(),
{
    lemma_ws_prefix_len_bound(s);
    let t = trim_start(s);
    lemma_ws_suffix_len_bound(t);
    if ws_prefix_len(s) < s.len() {
        assert(t[0] == s[ws_prefix_len(s) as int]);
        assert(!is_ws(t[0]));
        if ws_suffix_len(t) == t.len() {
            assert(is_ws(t[0]));
        }
    }
}

/// Index of the first character that is not whitespace (the length when
/// there is none).
pub fn ws_prefix(s: &[char]) -> (n: usize)
    ensures
        n == ws_prefix_len(s@),
{
    let mut i: usize = 0;
    assert(s@.skip(0) =~= s@);
    while i < s.len() && is_whitespace(s[i])
        invariant
            i <= s@.len(),
            ws_prefix_len(s@) == i + ws_prefix_len(s@.skip(i as int)),
        decreases s@.len() - i,
    {
        assert(s@.skip(i as int).drop_first() =~= s@.skip(i + 1));
        i = i + 1;
    }
    i
}

/// Number of trailing whitespace characters.
pub fn ws_suffix(s: &[char]) -> (n: usize)
    ensures
        n == ws_suffix_len(s@),
{
    let mut n: usize = 0;
    assert(s@.take(s@.len() as int) =~= s@);
    while n < s.len() && is_whitespace(s[s.len() - 1 - n])
        invariant
            n <= s@.len(),
            ws_suffix_len(s@) == n + ws_suffix_len(s@.take(s@.len() - n)),
        decreases s@.len() - n,
    {
        assert(s@.take(s@.len() - n).drop_last() =~= s@.take(s@.len() - (n + 1)));
        n = n + 1;
    }
    n
}

/// `str::trim` on characters.
pub fn trim_chars(s: &[char]) -> (t: Vec<char>)
    ensures
        t@ == trim(s@),
{
    let a = ws_prefix(s);
    proof {
        lemma_ws_prefix_len_bound(s@);
    }
    let rest = slice_from(s, a);
    let b = ws_suffix(rest.as_slice());
    proof {
        lemma_ws_suffix_len_bound(rest@);
    }
    slice_range(rest.as_slice(), 0, rest.len() - b)
}

/// `str::trim_end` on characters.
pub fn trim_end_chars(s: &[char]) -> (t: Vec<char>)
    ensures
        t@ == trim_end(s@),
{
    let b = ws_suffix(s);
    proof {
        lemma_ws_suffix_len_bound(s@);
    }
    slice_range(s, 0, s.len() - b)
}

/// True when the string is empty after trimming (`s.trim().is_empty()`).
pub fn is_blank_str(s: &str) -> (b: bool)
    ensures
        b == (trim(s@).len() == 0),
        b == is_blank(s@),
{
    let v = chars_of(s);
    let n = ws_prefix(v.as_slice());
    proof {
        lemma_blank_iff_trim_empty(v@);
    }
    n == v.len()
}

/// Copies `s[from..]`.
pub fn slice_from(s: &[char], from: usize) -> (t: Vec<char>)
    requires
        from <= s@.len(),
    ensures
        t@ == s@.skip(from as int),
{
    slice_range(s, from, s.len())
}

/// Copies `s[from..to]`.
pub fn slice_range(s: &[char], from: usize, to: usize) -> (t: Vec<char>)
    requires
        from <= to <= s@.len(),
    ensures
        t@ == s@.subrange(from as int, to as int),
{
    let mut t: Vec<char> = Vec::new();
    let mut i = from;
    while i < to
        invariant
            from <= i <= to <= s@.len(),
            t@ == s@.subrange(from as int, i as int),
        decreases to - i,
    {
        t.push(s[i]);
        i = i + 1;
        assert(t@ =~= s@.subrange(from as int, i as int));
    }
    t
}

// ---------------------------------------------------------------------------
// Decimal numbers
// ---------------------------------------------------------------------------

/// The ASCII digit for `d < 10`.
pub open spec fn digit_char(d: nat) -> char {
    if d == 0 { '0' }
    else if d == 1 { '1' }
    else if d == 2 { '2' }
    else if d == 3 { '3' }
    else if d == 4 { '4' }
    else if d == 5 { '5' }
    else if d == 6 { '6' }
    else if d == 7 { '7' }
    else if d == 8 { '8' }
    else { '9' }
}

/// Decimal notation of a natural number, as `Display` writes it.
pub open spec fn decimal(n: nat) -> Seq<char>
    decreases n,
{
    if n < 10 {
        seq![digit_char(n)]
    } else {
        decimal(n / 10).push(digit_char(n % 10))
    }
}

/// Decimal notation of an integer, with a leading `-` when negative.
pub open spec fn signed_decimal(n: int) -> Seq<char> {
    if n < 0 {
        seq!['-'] + decimal((-n) as nat)
    } else {
        decimal(n as nat)
    }
}

/// `format!("{:w}", n)`: the decimal notation right-aligned in a field of
/// `w` characters.
pub open spec fn padded_decimal(n: nat, w: nat) -> Seq<char> {
    let d = decimal(n);
    if d.len() < w {
        Seq::new((w - d.len()) as nat, |i: int| ' ') + d
    } else {
        d
    }
}

fn digit(d: u128) -> (c: char)
    requires
        d < 10,
    ensures
        c == digit_char(d as nat),
{
    if d == 0 { '0' }
    else if d == 1 { '1' }
    else if d == 2 { '2' }
    else if d == 3 { '3' }
    else if d == 4 { '4' }
    else if d == 5 { '5' }
    else if d == 6 { '6' }
    else if d == 7 { '7' }
    else if d == 8 { '8' }
    else { '9' }
}

/// Appends the decimal notation of `n`.
pub fn push_decimal(s: &mut String, n: u128)
    ensures
        final(s)@ == old(s)@ + decimal(n as nat),
    decreases n,
{
    if n >= 10 {
        push_decimal(s, n / 10);
    }
    push_char(s, digit(n % 10));
    proof {
        if n >= 10 {
            assert(final(s)@ =~= old(s)@ + decimal(n as nat));
        } else {
            assert(final(s)@ =~= old(s)@ + decimal(n as nat));
        }
    }
}

/// Appends the decimal notation of a signed number.
pub fn push_signed_decimal(s: &mut String, n: i64)
    ensures
        final(s)@ == old(s)@ + signed_decimal(n as int),
{
    if n < 0 {
        push_char(s, '-');
        let m: i128 = -(n as i128);
        push_decimal(s, m as u128);
        assert(final(s)@ =~= old(s)@ + signed_decimal(n as int));
    } else {
        push_decimal(s, n as u128);
    }
}

pub proof fn lemma_decimal_len_pos(n: nat)
    ensures
        decimal(n).len() >= 1,
    decreases n,
{
    if n >= 10 {
        lemma_decimal_len_pos(n / 10);
    }
}

/// Decimal notation of `n` as a new string.
pub fn decimal_string(n: u128) -> (s: String)
    ensures
        s@ == decimal(n as nat),
{
    let mut s = String::new();
    push_decimal(&mut s, n);
    assert(s@ =~= decimal(n as nat));
    s
}

/// Appends `format!("{:w}", n)`.
pub fn push_padded_decimal(s: &mut String, n: u128, w: usize)
    ensures
        final(s)@ == old(s)@ + padded_decimal(n as nat, w as nat),
{
    let d = decimal_string(n);
    let dv = chars_of(d.as_str());
    let ghost start = s@;
    if dv.len() < w {
        let pad = w - dv.len();
        let mut i: usize = 0;
        while i < pad
            invariant
                i <= pad,
                pad == w - dv@.len(),
                s@ == start + Seq::new(i as nat, |j: int| ' '),
            decreases pad - i,
        {
            push_char(s, ' ');
            i = i + 1;
            assert(s@ =~= start + Seq::new(i as nat, |j: int| ' '));
        }
        append_chars(s, dv.as_slice());
        assert(s@ =~= start + padded_decimal(n as nat, w as nat));
    } else {
        append_chars(s, dv.as_slice());
    }
}

// ---------------------------------------------------------------------------
// Substrings
// ---------------------------------------------------------------------------

/// `p` occurs in `s` at index `i`.
pub open spec fn occurs_at(s: Seq<char>, p: Seq<char>, i: int) -> bool {
    0 <= i && i + p.len() <= s.len() && s.subrange(i, i + p.len()) == p
}

/// `s.contains(p)`.
pub open spec fn contains(s: Seq<char>, p: Seq<char>) -> bool {
    exists|i: int| occurs_at(s, p, i)
}

/// `s.starts_with(p)`.
pub open spec fn starts_with(s: Seq<char>, p: Seq<char>) -> bool {
    p.len() <= s.len() && s.take(p.len() as int) == p
}

/// `s.ends_with(p)`.
pub open spec fn ends_with(s: Seq<char>, p: Seq<char>) -> bool {
    p.len() <= s.len() && s.skip(s.len() - p.len()) == p
}

/// Does `p` occur in `s` at `i`?
pub fn occurs_at_exec(s: &[char], p: &[char], i: usize) -> (b: bool)
    ensures
        b == occurs_at(s@, p@, i as int),
{
    if i > s.len() || p.len() > s.len() - i {
        return false;
    }
    let mut j: usize = 0;
    while j < p.len()
        invariant
            i + p@.len() <= s@.len(),
            s@.len() <= usize::MAX,
            j <= p@.len(),
            forall|k: int| 0 <= k < j ==> s@[i + k] == p@[k],
        decreases p@.len() - j,
    {
        if s[i + j] != p[j] {
            assert(s@.subrange(i as int, i + p@.len())[j as int] != p@[j as int]);
            return false;
        }
        j = j + 1;
    }
    assert(s@.subrange(i as int, i + p@.len()) =~= p@);
    true
}

/// `s.contains(p)` on characters.
pub fn contains_chars(s: &[char], p: &[char]) -> (b: bool)
    ensures
        b == contains(s@, p@),
{
    if p.len() == 0 {
        assert(occurs_at(s@, p@, 0)) by {
            assert(s@.subrange(0, 0) =~= p@);
        }
        return true;
    }
    let n = s.len();
    let mut i: usize = 0;
    while i <= s.len() && p.len() <= s.len() - i
        invariant
            n == s@.len(),
            p@.len() > 0,
            i <= s@.len() + 1,
            forall|j: int| 0 <= j < i ==> !occurs_at(s@, p@, j),
        decreases s@.len() + 1 - i,
    {
        if occurs_at_exec(s, p, i) {
            return true;
        }
        i = i + 1;
    }
    assert forall|j: int| !occurs_at(s@, p@, j) by {
        if 0 <= j < i {
        }
    }
    false
}

/// `s.contains(p)`.
pub fn contains_str(s: &str, p: &str) -> (b: bool)
    ensures
        b == contains(s@, p@),
{
    let sv = chars_of(s);
    let pv = chars_of(p);
    contains_chars(sv.as_slice(), pv.as_slice())
}

/// `s.starts_with(p)` on characters.
pub fn starts_with_chars(s: &[char], p: &[char]) -> (b: bool)
    ensures
        b == starts_with(s@, p@),
{
    let b = occurs_at_exec(s, p, 0);
    proof {
        if p@.len() <= s@.len() {
            assert(s@.subrange(0, p@.len() as int) =~= s@.take(p@.len() as int));
        }
    }
    b
}

/// `s.starts_with(p)`.
pub fn starts_with_str(s: &str, p: &str) -> (b: bool)
    ensures
        b == starts_with(s@, p@),
{
    let sv = chars_of(s);
    let pv = chars_of(p);
    starts_with_chars(sv.as_slice(), pv.as_slice())
}

/// `s.ends_with(p)` on characters.
pub fn ends_with_chars(s: &[char], p: &[char]) -> (b: bool)
    ensures
        b == ends_with(s@, p@),
{
    if p.len() > s.len() {
        return false;
    }
    let b = occurs_at_exec(s, p, s.len() - p.len());
    proof {
        assert(s@.subrange(s@.len() - p@.len(), s@.len() as int) =~= s@.skip(s@.len() - p@.len()));
    }
    b
}

// ---------------------------------------------------------------------------
// Case
// ---------------------------------------------------------------------------

/// ASCII lowercase of one character (other characters unchanged).
pub open spec fn ascii_lower(c: char) -> char {
    if 'A' <= c <= 'Z' {
        ((c as u32) + 32) as char
    } else {
        c
    }
}

/// `a.eq_ignore_ascii_case(b)`.
pub open spec fn eq_ignore_ascii_case(a: Seq<char>, b: Seq<char>) -> bool {
    a.len() == b.len() && forall|i: int| 0 <= i < a.len() ==> ascii_lower(#[trigger] a[i])
        == ascii_lower(b[i])
}

fn ascii_lower_exec(c: char) -> (d: char)
    ensures
        d == ascii_lower(c),
{
    if 'A' <= c && c <= 'Z' {
        let u = (c as u32) + 32;
        char_from_ascii(u)
    } else {
        c
    }
}

/// The character of a lowercase ASCII letter code.
fn char_from_ascii(u: u32) -> (c: char)
    requires
        0x61 <= u <= 0x7A,
    ensures
        c == u as char,
{
    let b = u as u8;
    let c = b as char;
    c
}

/// `a.eq_ignore_ascii_case(b)`.
pub fn eq_ignore_ascii_case_str(a: &str, b: &str) -> (r: bool)
    ensures
        r == eq_ignore_ascii_case(a@, b@),
{
    let av = chars_of(a);
    let bv = chars_of(b);
    if av.len() != bv.len() {
        return false;
    }
    let mut i: usize = 0;
    while i < av.len()
        invariant
            av@.len() == bv@.len(),
            av@ == a@,
            bv@ == b@,
            i <= av@.len(),
            forall|j: int| 0 <= j < i ==> ascii_lower(#[trigger] av@[j]) == ascii_lower(bv@[j]),
        decreases av@.len() - i,
    {
        if ascii_lower_exec(av[i]) != ascii_lower_exec(bv[i]) {
            return false;
        }
        i = i + 1;
    }
    true
}

/// What `str::to_lowercase` returns: the Unicode lowercase mapping of the
/// text, which depends on the text alone.
pub uninterp spec fn lowercase(s: Seq<char>) -> Seq<char>;

/// `str::to_lowercase`.
#[verifier::external_body]
pub fn to_lowercase(s: &str) -> (r: String)
    ensures
        r@ == lowercase(s@),
{
    s.to_lowercase()
}

// ---------------------------------------------------------------------------
// Lines
// ---------------------------------------------------------------------------

/// Index of the first `c` at or after `i`, or `-1`.
pub open spec fn index_of_from(s: Seq<char>, c: char, i: int) -> int
    decreases s.len() - i,
{
    if i < 0 || i >= s.len() {
        -1
    } else if s[i] == c {
        i
    } else {
        index_of_from(s, c, i + 1)
    }
}

/// One line of `str::lines`: the trailing `\r` of a line that ended with
/// `\n` is removed.
pub open spec fn strip_cr(l: Seq<char>) -> Seq<char> {
    if l.len() > 0 && l.last() == '\r' {
        l.drop_last()
    } else {
        l
    }
}

/// `str::lines`: the text split at each `\n` (a `\r` right before it is
/// dropped too); a final line ending adds no empty line, and an empty
/// text has no lines.
pub open spec fn lines(s: Seq<char>) -> Seq<Seq<char>>
    decreases s.len(),
{
    if s.len() == 0 {
        Seq::empty()
    } else {
        let k = index_of_from(s, '\n', 0);
        if k < 0 || k >= s.len() {
            seq![s]
        } else {
            seq![strip_cr(s.take(k))] + lines(s.skip(k + 1))
        }
    }
}

pub proof fn lemma_index_of_from_bounds(s: Seq<char>, c: char, i: int)
    requires
        0 <= i,
    ensures
        index_of_from(s, c, i) < 0 || (i <= index_of_from(s, c, i) < s.len() && s[index_of_from(
            s,
            c,
            i,
        )] == c),
        forall|j: int| i <= j < s.len() && (index_of_from(s, c, i) < 0 || j < index_of_from(s, c, i)) ==> s[j] != c,
    decreases s.len() - i,
{
    if i < s.len() && s[i] != c {
        lemma_index_of_from_bounds(s, c, i + 1);
    }
}

/// Splits a text into its lines (`str::lines`).
pub fn split_lines(s: &[char]) -> (ls: Vec<Vec<char>>)
    ensures
        ls@.len() == lines(s@).len(),
        forall|i: int| 0 <= i < ls@.len() ==> #[trigger] ls@[i]@ == lines(s@)[i],
{
    let mut ls: Vec<Vec<char>> = Vec::new();
    let mut start: usize = 0;
    assert(s@.skip(0) =~= s@);
    while start < s.len()
        invariant
            start <= s@.len(),
            ({
                let done = Seq::new(ls@.len(), |i: int| ls@[i]@);
                done + lines(s@.skip(start as int)) == lines(s@)
            }),
        decreases s@.len() - start,
    {
        let ghost rest = s@.skip(start as int);
        let mut j = start;
        while j < s.len() && s[j] != '\n'
            invariant
                start <= j <= s@.len(),
                rest == s@.skip(start as int),
                forall|k: int| start <= k < j ==> s@[k] != '\n',
            decreases s@.len() - j,
        {
            j = j + 1;
        }
        let ghost done_before = Seq::new(ls@.len(), |i: int| ls@[i]@);
        proof {
            lemma_index_of_from_bounds(rest, '\n', 0);
            lemma_index_of_first(rest, '\n', (j - start) as int);
        }
        let mut line = slice_range(s, start, j);
        if j > start && s[j - 1] == '\r' && j < s.len() {
            line.pop();
        }
        ls.push(line);
        if j < s.len() {
            proof {
                assert(rest.take(j - start) =~= s@.subrange(start as int, j as int));
                assert(rest.skip(j - start + 1) =~= s@.skip(j + 1));
            }
            start = j + 1;
        } else {
            proof {
                assert(rest =~= s@.subrange(start as int, j as int));
                assert(s@.skip(j as int) =~= Seq::<char>::empty());
            }
            start = j;
        }
        assert(Seq::new(ls@.len(), |i: int| ls@[i]@) =~= done_before.push(ls@.last()@));
        assert(Seq::new(ls@.len(), |i: int| ls@[i]@) + lines(s@.skip(start as int)) =~= lines(s@));
    }
    assert(s@.skip(start as int) =~= Seq::<char>::empty());
    assert(Seq::new(ls@.len(), |i: int| ls@[i]@) =~= lines(s@));
    ls
}

/// The first `c` found by scanning from the start is at `k`.
proof fn lemma_index_of_first(s: Seq<char>, c: char, k: int)
    requires
        0 <= k <= s.len(),
        forall|j: int| 0 <= j < k ==> s[j] != c,
        k < s.len() ==> s[k] == c,
    ensures
        index_of_from(s, c, 0) == if k < s.len() { k } else { -1 },
{
    lemma_index_of_from_scan(s, c, 0, k);
}

proof fn lemma_index_of_from_scan(s: Seq<char>, c: char, i: int, k: int)
    requires
        0 <= i <= k <= s.len(),
        forall|j: int| i <= j < k ==> s[j] != c,
        k < s.len() ==> s[k] == c,
    ensures
        index_of_from(s, c, i) == if k < s.len() { k } else { -1 },
    decreases k - i,
{
    if i < k {
        lemma_index_of_from_scan(s, c, i + 1, k);
    }
}

// ---------------------------------------------------------------------------
// Words
// ---------------------------------------------------------------------------

/// Length of the leading run of non-whitespace characters.
pub open spec fn word_len(s: Seq<char>) -> nat
    decreases s.len(),
{
    if s.len() > 0 && !is_ws(s[0]) {
        1 + word_len(s.drop_first())
    } else {
        0
    }
}

pub proof fn lemma_word_len_bound(s: Seq<char>)
    ensures
        word_len(s) <= s.len(),
        s.len() > 0 && !is_ws(s[0]) ==> word_len(s) >= 1,
        forall|i: int| 0 <= i < word_len(s) ==> !is_ws(#[trigger] s[i]),
        word_len(s) < s.len() ==> is_ws(s[word_len(s) as int]),
    decreases s.len(),
{
    if s.len() > 0 && !is_ws(s[0]) {
        lemma_word_len_bound(s.drop_first());
        assert forall|i: int| 0 <= i < word_len(s) implies !is_ws(#[trigger] s[i]) by {
            if i > 0 {
                assert(s[i] == s.drop_first()[i - 1]);
            }
        }
    }
}

/// `str::split_whitespace`: the maximal runs of non-whitespace characters.
pub open spec fn words(s: Seq<char>) -> Seq<Seq<char>>
    decreases s.len(),
{
    let t = trim_start(s);
    if t.len() == 0 {
        Seq::empty()
    } else {
        proof {
            lemma_ws_prefix_len_bound(s);
            lemma_word_len_bound(t);
        }
        seq![t.take(word_len(t) as int)] + words(t.skip(word_len(t) as int))
    }
}

/// Splits at whitespace (`str::split_whitespace`).
pub fn split_words(s: &[char]) -> (ws: Vec<Vec<char>>)
    ensures
        ws@.len() == words(s@).len(),
        forall|i: int| 0 <= i < ws@.len() ==> (#[trigger] ws@[i])@ == words(s@)[i],
{
    let mut out: Vec<Vec<char>> = Vec::new();
    let mut pos: usize = 0;
    assert(s@.skip(0) =~= s@);
    while pos < s.len()
        invariant
            pos <= s@.len(),
            Seq::new(out@.len(), |i: int| out@[i]@) + words(s@.skip(pos as int)) == words(s@),
        decreases s@.len() - pos,
    {
        let ghost rest = s@.skip(pos as int);
        let ghost done = Seq::new(out@.len(), |i: int| out@[i]@);
        proof {
            lemma_ws_prefix_len_bound(rest);
        }
        let mut a = pos;
        while a < s.len() && is_whitespace(s[a])
            invariant
                pos <= a <= s@.len(),
                rest == s@.skip(pos as int),
                ws_prefix_len(rest) == (a - pos) + ws_prefix_len(s@.skip(a as int)),
            decreases s@.len() - a,
        {
            assert(s@.skip(a as int).drop_first() =~= s@.skip(a + 1));
            a = a + 1;
        }
        proof {
            lemma_ws_prefix_len_bound(s@.skip(a as int));
            assert(trim_start(rest) =~= s@.skip(a as int));
        }
        if a == s.len() {
            assert(trim_start(rest).len() == 0);
            assert(words(rest) == Seq::<Seq<char>>::empty());
            pos = a;
            assert(s@.skip(pos as int) =~= Seq::<char>::empty());
        } else {
            let ghost t = s@.skip(a as int);
            let mut b = a;
            while b < s.len() && !is_whitespace(s[b])
                invariant
                    a <= b <= s@.len(),
                    t == s@.skip(a as int),
                    word_len(t) == (b - a) + word_len(s@.skip(b as int)),
                decreases s@.len() - b,
            {
                assert(s@.skip(b as int).drop_first() =~= s@.skip(b + 1));
                b = b + 1;
            }
            proof {
                lemma_word_len_bound(s@.skip(b as int));
                assert(t.take(word_len(t) as int) =~= s@.subrange(a as int, b as int));
                assert(t.skip(word_len(t) as int) =~= s@.skip(b as int));
            }
            let w = slice_range(s, a, b);
            out.push(w);
            pos = b;
            assert(Seq::new(out@.len(), |i: int| out@[i]@) =~= done.push(w@));
        }
        assert(Seq::new(out@.len(), |i: int| out@[i]@) + words(s@.skip(pos as int)) =~= words(s@));
    }
    assert(s@.skip(pos as int) =~= Seq::<char>::empty());
    assert(Seq::new(out@.len(), |i: int| out@[i]@) =~= words(s@));
    out
}

} // verus!
