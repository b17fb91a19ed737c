//! Surgical search-and-replace edits: the target block must occur exactly
//! once in the file, line endings are normalised to `\n` for matching and
//! CRLF files are written back with CRLF endings.
use vstd::prelude::*;
use crate::text::{self, chars_of, occurs_at_exec, push_decimal, slice_from, slice_range, string_of};
use vstd::string::StringExecFns;

verus! {

// ---------------------------------------------------------------------------
// Pattern occurrences
// ---------------------------------------------------------------------------

/// The positions at or after `i` at which a non-empty `p` occurs, counted
/// with overlapping occurrences included.
pub open spec fn count_from(s: Seq<char>, p: Seq<char>, i: int) -> nat
    decreases s.len() - i,
{
    if p.len() == 0 || i < 0 || i + p.len() > s.len() {
        0
    } else if text::occurs_at(s, p, i) {
        1 + count_from(s, p, i + 1)
    } else {
        count_from(s, p, i + 1)
    }
}

/// The number of positions at which `p` occurs in `s`, overlapping
/// occurrences included: an empty pattern occurs at every position
/// `0..=s.len()`.
pub open spec fn match_count(s: Seq<char>, p: Seq<char>) -> nat {
    if p.len() == 0 {
        s.len() + 1
    } else {
        count_from(s, p, 0)
    }
}

/// Leftmost index `>= i` at which `p` occurs, or `-1`.
pub open spec fn first_match_from(s: Seq<char>, p: Seq<char>, i: int) -> int
    decreases s.len() - i,
{
    if i < 0 || i + p.len() > s.len() {
        -1
    } else if p.len() == 0 || text::occurs_at(s, p, i) {
        i
    } else {
        first_match_from(s, p, i + 1)
    }
}

/// Leftmost occurrence of `p` in `s`, or `-1`.
pub open spec fn first_match(s: Seq<char>, p: Seq<char>) -> int {
    first_match_from(s, p, 0)
}

/// `s.replacen(p, r, 1)`: the leftmost occurrence of `p` replaced by `r`.
pub open spec fn replace_first(s: Seq<char>, p: Seq<char>, r: Seq<char>) -> Seq<char> {
    let k = first_match(s, p);
    if k < 0 {
        s
    } else {
        s.take(k) + r + s.skip(k + p.len())
    }
}

// ---------------------------------------------------------------------------
// Line endings
// ---------------------------------------------------------------------------

/// `s.replace("\r\n", "\n")`.
pub open spec fn crlf_to_lf(s: Seq<char>) -> Seq<char>
    decreases s.len(),
{
    if s.len() == 0 {
        s
    } else if s.len() >= 2 && s[0] == '\r' && s[1] == '\n' {
        seq!['\n'] + crlf_to_lf(s.skip(2))
    } else {
        seq![s[0]] + crlf_to_lf(s.skip(1))
    }
}

/// `s.replace("\n", "\r\n")`.
pub open spec fn lf_to_crlf(s: Seq<char>) -> Seq<char>
    decreases s.len(),
{
    if s.len() == 0 {
        s
    } else if s[0] == '\n' {
        seq!['\r', '\n'] + lf_to_crlf(s.skip(1))
    } else {
        seq![s[0]] + lf_to_crlf(s.skip(1))
    }
}

/// `s.contains("\r\n")`.
pub open spec fn has_crlf(s: Seq<char>) -> bool {
    exists|i: int| 0 <= i && i + 1 < s.len() && s[i] == '\r' && #[trigger] s[i + 1] == '\n'
}

/// The text contains no carriage return at all.
pub open spec fn no_cr(s: Seq<char>) -> bool {
    forall|i: int| 0 <= i < s.len() ==> #[trigger] s[i] != '\r'
}

/// Every line ending is `\r\n`: each `\r` is followed by `\n` and each
/// `\n` is preceded by `\r`.
pub open spec fn crlf_uniform(s: Seq<char>) -> bool {
    &&& forall|i: int| 0 <= i < s.len() && #[trigger] s[i] == '\r' ==> i + 1 < s.len() && s[i + 1] == '\n'
    &&& forall|i: int| 0 <= i < s.len() && #[trigger] s[i] == '\n' ==> i > 0 && s[i - 1] == '\r'
}

// ---------------------------------------------------------------------------
// The edit
// ---------------------------------------------------------------------------

/// The text an edit writes back: the unique occurrence of the normalised
/// target replaced by the normalised replacement, with CRLF endings
/// restored when the content had any.
pub open spec fn edited_text(content: Seq<char>, target: Seq<char>, replacement: Seq<char>) -> Seq<char> {
    let n = replace_first(crlf_to_lf(content), crlf_to_lf(target), crlf_to_lf(replacement));
    if has_crlf(content) {
        lf_to_crlf(n)
    } else {
        n
    }
}

/// How often the normalised target occurs in the normalised content.
pub open spec fn edit_match_count(content: Seq<char>, target: Seq<char>) -> nat {
    match_count(crlf_to_lf(content), crlf_to_lf(target))
}

/// Why an edit was refused.
#[derive(Debug, Clone, Copy, PartialEq, Eq)]
pub enum EditError {
    /// The target block does not occur in the file.
    TargetNotFound,
    /// The target block occurs this many times (more than once).
    TargetNotUnique { count: usize },
}

impl EditError {
    /// The message reported for this error on the file `rel_path`.
    pub fn message(&self, rel_path: &str) -> (m: String)
        ensures
            m@ == edit_error_message(*self, rel_path@),
    {
        match self {
            EditError::TargetNotFound => {
                let mut m = String::from_str("target_content not found in ");
                m.append(rel_path);
                m.append(". Please verify line numbers and exact content.");
                m
            },
            EditError::TargetNotUnique { count } => {
                let mut m = String::from_str("target_content matched ");
                push_decimal(&mut m, *count as u128);
                m.append(" times in ");
                m.append(rel_path);
                m.append(". Please include more surrounding context to make it unique.");
                m
            },
        }
    }
}

/// The text of each refusal.
pub open spec fn edit_error_message(e: EditError, rel_path: Seq<char>) -> Seq<char> {
    match e {
        EditError::TargetNotFound => "target_content not found in "@ + rel_path
            + ". Please verify line numbers and exact content."@,
        EditError::TargetNotUnique { count } => "target_content matched "@ + text::decimal(count as nat)
            + " times in "@ + rel_path
            + ". Please include more surrounding context to make it unique."@,
    }
}

/// The success message of an edit.
pub fn edit_success_message(rel_path: &str) -> (m: String)
    ensures
        m@ == "Successfully applied edit to "@ + rel_path@,
{
    let mut m = String::from_str("Successfully applied edit to ");
    m.append(rel_path);
    m
}

// ---------------------------------------------------------------------------
// Executable matching and normalisation
// ---------------------------------------------------------------------------

/// The number of positions at which `p` occurs in `s`, overlaps included.
pub fn count_matches(s: &[char], p: &[char]) -> (n: usize)
    requires
        s@.len() < usize::MAX,
    ensures
        n == match_count(s@, p@),
{
    if p.len() == 0 {
        return s.len() + 1;
    }
    let mut n: usize = 0;
    let mut i: usize = 0;
    while i <= s.len() && p.len() <= s.len() - i
        invariant
            p@.len() > 0,
            s@.len() < usize::MAX,
            n <= i <= s@.len() + 1,
            count_from(s@, p@, 0) == n + count_from(s@, p@, i as int),
        decreases s@.len() + 1 - i,
    {
        if occurs_at_exec(s, p, i) {
            n = n + 1;
            i = i + 1;
        } else {
            i = i + 1;
        }
    }
    n
}

/// Leftmost occurrence of `p` in `s`.
pub fn find_first(s: &[char], p: &[char]) -> (k: Option<usize>)
    ensures
        match k {
            Some(k) => first_match(s@, p@) == k as int,
            None => first_match(s@, p@) < 0,
        },
{
    let mut i: usize = 0;
    while i <= s.len() && p.len() <= s.len() - i
        invariant
            i <= s@.len() + 1,
            first_match(s@, p@) == first_match_from(s@, p@, i as int),
        decreases s@.len() + 1 - i,
    {
        if p.len() == 0 || occurs_at_exec(s, p, i) {
            return Some(i);
        }
        i = i + 1;
    }
    None
}

proof fn lemma_crlf_to_lf_len(s: Seq<char>)
    ensures
        crlf_to_lf(s).len() <= s.len(),
    decreases s.len(),
{
    if s.len() >= 2 && s[0] == '\r' && s[1] == '\n' {
        lemma_crlf_to_lf_len(s.skip(2));
    } else if s.len() > 0 {
        lemma_crlf_to_lf_len(s.skip(1));
    }
}

/// `s.replace("\r\n", "\n")` on characters.
pub fn crlf_to_lf_chars(s: &[char]) -> (t: Vec<char>)
    ensures
        t@ == crlf_to_lf(s@),
        t@.len() <= s@.len(),
{
    proof {
        lemma_crlf_to_lf_len(s@);
    }
    let mut t: Vec<char> = Vec::new();
    let mut i: usize = 0;
    assert(s@.skip(0) =~= s@);
    while i < s.len()
        invariant
            i <= s@.len(),
            t@ + crlf_to_lf(s@.skip(i as int)) == crlf_to_lf(s@),
        decreases s@.len() - i,
    {
        let ghost rest = s@.skip(i as int);
        if i + 1 < s.len() && s[i] == '\r' && s[i + 1] == '\n' {
            t.push('\n');
            assert(rest.skip(2) =~= s@.skip(i + 2));
            i = i + 2;
            assert(t@ + crlf_to_lf(s@.skip(i as int)) =~= crlf_to_lf(s@));
        } else {
            t.push(s[i]);
            assert(rest.skip(1) =~= s@.skip(i + 1));
            i = i + 1;
            assert(t@ + crlf_to_lf(s@.skip(i as int)) =~= crlf_to_lf(s@));
        }
    }
    assert(s@.skip(i as int) =~= Seq::<char>::empty());
    assert(t@ =~= crlf_to_lf(s@));
    t
}

/// `s.replace("\n", "\r\n")` on characters.
pub fn lf_to_crlf_chars(s: &[char]) -> (t: Vec<char>)
    ensures
        t@ == lf_to_crlf(s@),
{
    let mut t: Vec<char> = Vec::new();
    let mut i: usize = 0;
    assert(s@.skip(0) =~= s@);
    while i < s.len()
        invariant
            i <= s@.len(),
            t@ + lf_to_crlf(s@.skip(i as int)) == lf_to_crlf(s@),
        decreases s@.len() - i,
    {
        let ghost rest = s@.skip(i as int);
        assert(rest.skip(1) =~= s@.skip(i + 1));
        if s[i] == '\n' {
            t.push('\r');
            t.push('\n');
        } else {
            t.push(s[i]);
        }
        i = i + 1;
        assert(t@ + lf_to_crlf(s@.skip(i as int)) =~= lf_to_crlf(s@));
    }
    assert(s@.skip(i as int) =~= Seq::<char>::empty());
    assert(t@ =~= lf_to_crlf(s@));
    t
}

/// `s.contains("\r\n")` on characters.
pub fn contains_crlf(s: &[char]) -> (b: bool)
    ensures
        b == has_crlf(s@),
{
    let mut i: usize = 0;
    while i < s.len() && i + 1 < s.len()
        invariant
            i <= s@.len(),
            forall|j: int| 0 <= j < i && j + 1 < s@.len() ==> !(s@[j] == '\r' && #[trigger] s@[j + 1] == '\n'),
        decreases s@.len() - i,
    {
        if s[i] == '\r' && s[i + 1] == '\n' {
            return true;
        }
        i = i + 1;
    }
    false
}

/// Applies a surgical edit to the text of a file: the target block, with
/// line endings normalised to `\n`, must occur exactly once in the
/// normalised content, every starting position counted (overlaps too); it is replaced by the normalised replacement, and
/// CRLF line endings are restored when the content had any.
pub fn apply_edit(content: &str, target: &str, replacement: &str) -> (r: Result<String, EditError>)
    requires
        content@.len() < usize::MAX,
    ensures
        match r {
            Ok(out) => edit_match_count(content@, target@) == 1 && out@ == edited_text(
                content@,
                target@,
                replacement@,
            ),
            Err(EditError::TargetNotFound) => edit_match_count(content@, target@) == 0,
            Err(EditError::TargetNotUnique { count }) => count == edit_match_count(
                content@,
                target@,
            ) && count > 1,
        },
{
    let c = chars_of(content);
    let t = chars_of(target);
    let rep = chars_of(replacement);
    let nc = crlf_to_lf_chars(c.as_slice());
    let nt = crlf_to_lf_chars(t.as_slice());
    let nr = crlf_to_lf_chars(rep.as_slice());
    let count = count_matches(nc.as_slice(), nt.as_slice());
    if count == 0 {
        return Err(EditError::TargetNotFound);
    }
    if count > 1 {
        return Err(EditError::TargetNotUnique { count });
    }
    let k = match find_first(nc.as_slice(), nt.as_slice()) {
        Some(k) => k,
        None => {
            proof {
                lemma_count_positive_has_match(nc@, nt@);
            }
            return Err(EditError::TargetNotFound);
        },
    };
    proof {
        lemma_first_match_bounds(nc@, nt@);
    }
    let mut out: Vec<char> = slice_range(nc.as_slice(), 0, k);
    let mut j: usize = 0;
    while j < nr.len()
        invariant
            j <= nr@.len(),
            out@ == nc@.take(k as int) + nr@.take(j as int),
        decreases nr@.len() - j,
    {
        out.push(nr[j]);
        j = j + 1;
        assert(out@ =~= nc@.take(k as int) + nr@.take(j as int));
    }
    let tail = slice_from(nc.as_slice(), k + nt.len());
    let mut j: usize = 0;
    let ghost head = out@;
    while j < tail.len()
        invariant
            j <= tail@.len(),
            out@ == head + tail@.take(j as int),
        decreases tail@.len() - j,
    {
        out.push(tail[j]);
        j = j + 1;
        assert(out@ =~= head + tail@.take(j as int));
    }
    assert(nr@.take(nr@.len() as int) =~= nr@);
    assert(tail@.take(tail@.len() as int) =~= tail@);
    assert(out@ =~= replace_first(nc@, nt@, nr@));
    if contains_crlf(c.as_slice()) {
        let back = lf_to_crlf_chars(out.as_slice());
        Ok(string_of(back.as_slice()))
    } else {
        Ok(string_of(out.as_slice()))
    }
}

/// A leftmost occurrence lies inside the text.
pub proof fn lemma_first_match_bounds(s: Seq<char>, p: Seq<char>)
    ensures
        first_match(s, p) >= 0 ==> text::occurs_at(s, p, first_match(s, p)) || (p.len() == 0
            && first_match(s, p) == 0),
        first_match(s, p) >= 0 ==> first_match(s, p) + p.len() <= s.len(),
{
    lemma_first_match_from_bounds(s, p, 0);
}

proof fn lemma_first_match_from_bounds(s: Seq<char>, p: Seq<char>, i: int)
    requires
        i >= 0,
    ensures
        first_match_from(s, p, i) >= 0 ==> first_match_from(s, p, i) >= i && first_match_from(
            s,
            p,
            i,
        ) + p.len() <= s.len() && (text::occurs_at(s, p, first_match_from(s, p, i)) || (p.len() == 0
            && first_match_from(s, p, i) == i)),
    decreases s.len() - i,
{
    if i + p.len() > s.len() {
    } else if p.len() == 0 || text::occurs_at(s, p, i) {
    } else {
        lemma_first_match_from_bounds(s, p, i + 1);
    }
}

/// A pattern counted at least once has a leftmost occurrence.
proof fn lemma_count_positive_has_match(s: Seq<char>, p: Seq<char>)
    requires
        match_count(s, p) > 0,
    ensures
        first_match(s, p) >= 0,
{
    if p.len() == 0 {
    } else {
        lemma_count_from_positive(s, p, 0);
    }
}

proof fn lemma_count_from_positive(s: Seq<char>, p: Seq<char>, i: int)
    requires
        i >= 0,
        p.len() > 0,
        count_from(s, p, i) > 0,
    ensures
        first_match_from(s, p, i) >= 0,
    decreases s.len() - i,
{
    if i + p.len() > s.len() {
    } else if text::occurs_at(s, p, i) {
    } else {
        lemma_count_from_positive(s, p, i + 1);
    }
}

// ---------------------------------------------------------------------------
// Laws of the edit
// ---------------------------------------------------------------------------

/// Text without carriage returns is left alone by line-ending
/// normalisation.
pub proof fn lemma_no_cr_normal(s: Seq<char>)
    requires
        no_cr(s),
    ensures
        crlf_to_lf(s) == s,
        !has_crlf(s),
    decreases s.len(),
{
    if s.len() > 0 {
        assert(s[0] != '\r');
        assert(no_cr(s.skip(1))) by {
            assert forall|i: int| 0 <= i < s.skip(1).len() implies #[trigger] s.skip(1)[i] != '\r' by {
                assert(s.skip(1)[i] == s[i + 1]);
            }
        }
        lemma_no_cr_normal(s.skip(1));
        assert(crlf_to_lf(s) =~= s);
    }
}

/// A file whose line endings are all CRLF is written back unchanged when
/// normalised to LF and restored.
pub proof fn lemma_crlf_round_trip(s: Seq<char>)
    requires
        crlf_uniform(s),
    ensures
        lf_to_crlf(crlf_to_lf(s)) == s,
    decreases s.len(),
{
    if s.len() == 0 {
    } else if s[0] == '\r' {
        assert(s[1] == '\n');
        let rest = s.skip(2);
        assert(crlf_uniform(rest)) by {
            assert forall|i: int| 0 <= i < rest.len() && #[trigger] rest[i] == '\r' implies i + 1
                < rest.len() && rest[i + 1] == '\n' by {
                assert(rest[i] == s[i + 2]);
                assert(s[i + 3] == rest[i + 1]);
            }
            assert forall|i: int| 0 <= i < rest.len() && #[trigger] rest[i] == '\n' implies i > 0
                && rest[i - 1] == '\r' by {
                assert(rest[i] == s[i + 2]);
                assert(s[i + 1] == '\r');
                if i == 0 {
                    assert(s[1] == '\n');
                }
                assert(rest[i - 1] == s[i + 1]);
            }
        }
        lemma_crlf_round_trip(rest);
        let n = crlf_to_lf(s);
        assert(n == seq!['\n'] + crlf_to_lf(rest));
        assert(n.skip(1) =~= crlf_to_lf(rest));
        assert(lf_to_crlf(n) == seq!['\r', '\n'] + lf_to_crlf(n.skip(1)));
        assert(lf_to_crlf(n) =~= s);
    } else {
        assert(s[0] != '\n') by {
            if s[0] == '\n' {
                assert(0 > 0);
            }
        }
        let rest = s.skip(1);
        assert(crlf_uniform(rest)) by {
            assert forall|i: int| 0 <= i < rest.len() && #[trigger] rest[i] == '\r' implies i + 1
                < rest.len() && rest[i + 1] == '\n' by {
                assert(rest[i] == s[i + 1]);
                assert(s[i + 2] == rest[i + 1]);
            }
            assert forall|i: int| 0 <= i < rest.len() && #[trigger] rest[i] == '\n' implies i > 0
                && rest[i - 1] == '\r' by {
                assert(rest[i] == s[i + 1]);
                assert(s[i] == '\r');
                assert(rest[i - 1] == s[i]);
            }
        }
        lemma_crlf_round_trip(rest);
        let n = crlf_to_lf(s);
        assert(n == seq![s[0]] + crlf_to_lf(rest));
        assert(n.skip(1) =~= crlf_to_lf(rest));
        assert(lf_to_crlf(n) =~= s);
    }
}

/// If `p` occurs at `k >= i`, the search from `i` finds an occurrence no
/// later than `k`.
pub proof fn lemma_first_match_from_finds(s: Seq<char>, p: Seq<char>, i: int, k: int)
    requires
        0 <= i <= k,
        text::occurs_at(s, p, k),
    ensures
        i <= first_match_from(s, p, i) <= k,
        text::occurs_at(s, p, first_match_from(s, p, i)),
    decreases k - i,
{
    if i + p.len() > s.len() {
    } else if p.len() == 0 || text::occurs_at(s, p, i) {
        if p.len() == 0 {
            assert(s.subrange(i, i + p.len()) =~= p);
        }
    } else {
        lemma_first_match_from_finds(s, p, i + 1, k);
    }
}

/// `p` occurs in `s` at position `k` and nowhere else.
pub open spec fn occurs_only_at(s: Seq<char>, p: Seq<char>, k: int) -> bool {
    &&& text::occurs_at(s, p, k)
    &&& forall|j: int| #[trigger] text::occurs_at(s, p, j) ==> j == k
}

/// A pattern that occurs at a single position is counted once, and that
/// position is its leftmost occurrence.
pub proof fn lemma_single_occurrence(s: Seq<char>, p: Seq<char>, k: int)
    requires
        occurs_only_at(s, p, k),
    ensures
        match_count(s, p) == 1,
        first_match(s, p) == k,
{
    lemma_first_match_from_finds(s, p, 0, k);
    if p.len() == 0 {
        if s.len() > 0 {
            assert(s.subrange(s.len() as int, s.len() as int) =~= p);
            assert(text::occurs_at(s, p, s.len() as int));
            assert(s.subrange(0, 0) =~= p);
            assert(text::occurs_at(s, p, 0));
        }
    } else {
        lemma_count_single(s, p, 0, k);
    }
}

proof fn lemma_count_single(s: Seq<char>, p: Seq<char>, i: int, k: int)
    requires
        p.len() > 0,
        0 <= i <= k,
        occurs_only_at(s, p, k),
    ensures
        count_from(s, p, i) == 1,
    decreases k - i,
{
    if i < k {
        assert(!text::occurs_at(s, p, i));
        lemma_count_single(s, p, i + 1, k);
    } else {
        lemma_count_none(s, p, k + 1, k);
    }
}

proof fn lemma_count_none(s: Seq<char>, p: Seq<char>, i: int, k: int)
    requires
        p.len() > 0,
        k < i,
        occurs_only_at(s, p, k),
    ensures
        count_from(s, p, i) == 0,
    decreases s.len() - i,
{
    if i + p.len() > s.len() {
    } else {
        assert(!text::occurs_at(s, p, i));
        lemma_count_none(s, p, i + 1, k);
    }
}

/// A successful edit splices the replacement in place of the unique
/// occurrence of the target: the text before and after it is kept.
pub proof fn lemma_edit_splices(content: Seq<char>, target: Seq<char>, replacement: Seq<char>)
    requires
        edit_match_count(content, target) == 1,
    ensures
        ({
            let nc = crlf_to_lf(content);
            let nt = crlf_to_lf(target);
            let k = first_match(nc, nt);
            &&& 0 <= k && k + nt.len() <= nc.len()
            &&& nc.subrange(k, k + nt.len()) == nt
            &&& edited_text(content, target, replacement) == if has_crlf(content) {
                lf_to_crlf(nc.take(k) + crlf_to_lf(replacement) + nc.skip(k + nt.len()))
            } else {
                nc.take(k) + crlf_to_lf(replacement) + nc.skip(k + nt.len())
            }
        }),
{
    let nc = crlf_to_lf(content);
    let nt = crlf_to_lf(target);
    lemma_count_positive_has_match(nc, nt);
    lemma_first_match_bounds(nc, nt);
    if nt.len() == 0 {
        assert(nc.subrange(0, 0) =~= nt);
    }
}

/// Replacing a block by itself leaves a file with uniform line endings
/// (all LF or all CRLF) unchanged.
pub proof fn lemma_identity_edit(content: Seq<char>, target: Seq<char>)
    requires
        no_cr(content) || crlf_uniform(content),
        edit_match_count(content, target) == 1,
    ensures
        edited_text(content, target, target) == content,
{
    let nc = crlf_to_lf(content);
    let nt = crlf_to_lf(target);
    lemma_edit_splices(content, target, target);
    let k = first_match(nc, nt);
    assert(nc.take(k) + nt + nc.skip(k + nt.len()) =~= nc);
    if has_crlf(content) {
        if no_cr(content) {
            lemma_no_cr_normal(content);
        }
        lemma_crlf_round_trip(content);
    } else {
        if no_cr(content) {
            lemma_no_cr_normal(content);
        } else {
            assert(no_cr(content)) by {
                assert forall|i: int| 0 <= i < content.len() implies #[trigger] content[i]
                    != '\r' by {
                    if content[i] == '\r' {
                        assert(content[i + 1] == '\n');
                        assert(has_crlf(content));
                    }
                }
            }
            lemma_no_cr_normal(content);
        }
    }
}

/// Undoing an edit: on text without carriage returns, when the
/// replacement occurs in the edited text only where it was put, editing
/// it back to the target restores the text before the edit.
pub proof fn lemma_edit_undo(content: Seq<char>, target: Seq<char>, replacement: Seq<char>)
    requires
        no_cr(content),
        no_cr(target),
        no_cr(replacement),
        edit_match_count(content, target) == 1,
        ({
            let edited = edited_text(content, target, replacement);
            forall|i: int, j: int|
                #![trigger text::occurs_at(edited, replacement, i), text::occurs_at(edited, replacement, j)]
                text::occurs_at(edited, replacement, i) && text::occurs_at(edited, replacement, j) ==> i == j
        }),
    ensures
        edit_match_count(edited_text(content, target, replacement), replacement) == 1,
        edited_text(edited_text(content, target, replacement), replacement, target) == content,
{
    lemma_no_cr_normal(content);
    lemma_no_cr_normal(target);
    lemma_no_cr_normal(replacement);
    lemma_edit_splices(content, target, replacement);
    let k = first_match(content, target);
    let edited = edited_text(content, target, replacement);
    assert(edited =~= content.take(k) + replacement + content.skip(k + target.len()));
    assert(edited.subrange(k, k + replacement.len()) =~= replacement);
    assert(text::occurs_at(edited, replacement, k));
    assert(occurs_only_at(edited, replacement, k));
    lemma_single_occurrence(edited, replacement, k);
    assert(no_cr(edited)) by {
        assert forall|i: int| 0 <= i < edited.len() implies #[trigger] edited[i] != '\r' by {
            if i < k {
                assert(edited[i] == content[i]);
            } else if i < k + replacement.len() {
                assert(edited[i] == replacement[i - k]);
            } else {
                assert(edited[i] == content[i - replacement.len() + target.len()]);
            }
        }
    }
    lemma_no_cr_normal(edited);
    assert(content.subrange(k, k + target.len()) == target);
    assert(edited.take(k) + target + edited.skip(k + replacement.len()) =~= content);
}

} // verus!
