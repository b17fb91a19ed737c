//! Workspace search: regular-expression search through file contents and
//! name search through paths. The caller walks the workspace (skipping
//! hidden and git-ignored entries) and hands each entry over in walk
//! order; the search collects what is reported.
use vstd::prelude::*;
use vstd::string::StringExecFns;
use crate::text::{self, chars_of, push_decimal, string_of, to_lowercase, contains_str};

verus! {

#[verifier::external_type_specification]
#[verifier::external_body]
pub struct ExRegex(regex::Regex);

#[verifier::external_type_specification]
#[verifier::external_body]
pub struct ExRegexError(regex::Error);

/// Whether `RegexBuilder::build` accepts a pattern: it is valid syntax and
/// within the default size limits. This depends on the pattern and the
/// case flag alone.
pub uninterp spec fn regex_compiles(pattern: Seq<char>, case_insensitive: bool) -> bool;

/// Whether the regex compiled from a pattern matches somewhere in a
/// line, the line exactly as read (`Regex::is_match`). This depends on the
/// pattern, the case flag and the line alone.
pub uninterp spec fn regex_is_match(pattern: Seq<char>, case_insensitive: bool, line: Seq<char>) -> bool;

/// A compiled search pattern together with the pattern it was compiled
/// from.
pub struct LineMatcher {
    re: regex::Regex,
    pattern: String,
    case_insensitive: bool,
}

impl LineMatcher {
    pub closed spec fn pattern(&self) -> Seq<char> {
        self.pattern@
    }

    pub closed spec fn case_insensitive(&self) -> bool {
        self.case_insensitive
    }
}

/// Compiles `pattern` with `RegexBuilder::new(pattern).case_insensitive(..)
/// .build()`; the result succeeds exactly when the builder accepts the
/// pattern and then remembers the pattern and the flag.
#[verifier::external_body]
fn compile_pattern(pattern: &str, case_insensitive: bool) -> (r: Result<LineMatcher, regex::Error>)
    ensures
        r is Ok == regex_compiles(pattern@, case_insensitive),
        r matches Ok(m) ==> m.pattern() == pattern@ && m.case_insensitive() == case_insensitive,
{
    let mut builder = regex::RegexBuilder::new(pattern);
    builder.case_insensitive(case_insensitive);
    match builder.build() {
        Ok(re) => Ok(LineMatcher { re, pattern: pattern.to_string(), case_insensitive }),
        Err(e) => Err(e),
    }
}

/// `Regex::is_match` of the compiled pattern on one line.
#[verifier::external_body]
fn line_matches(m: &LineMatcher, line: &str) -> (b: bool)
    ensures
        b == regex_is_match(m.pattern(), m.case_insensitive(), line@),
{
    m.re.is_match(line)
}

/// The lines joined with `\n`.
pub open spec fn join_lines(ls: Seq<Seq<char>>) -> Seq<char>
    decreases ls.len(),
{
    if ls.len() == 0 {
        Seq::empty()
    } else if ls.len() == 1 {
        ls[0]
    } else {
        join_lines(ls.drop_last()) + "\n"@ + ls.last()
    }
}

/// Joins lines with `\n`.
pub fn join_strings(ls: &Vec<String>) -> (s: String)
    ensures
        s@ == join_lines(ls@.map_values(|l: String| l@)),
{
    let ghost v = ls@.map_values(|l: String| l@);
    let mut s = String::new();
    let mut i: usize = 0;
    while i < ls.len()
        invariant
            i <= ls@.len(),
            v == ls@.map_values(|l: String| l@),
            s@ == join_lines(v.take(i as int)),
        decreases ls@.len() - i,
    {
        if i > 0 {
            s.append("\n");
        }
        s.append(ls[i].as_str());
        i = i + 1;
        assert(v.take(i as int).drop_last() =~= v.take(i - 1));
        assert(s@ =~= join_lines(v.take(i as int)));
    }
    assert(v.take(ls@.len() as int) =~= v);
    s
}

// ---------------------------------------------------------------------------
// Content search
// ---------------------------------------------------------------------------

/// One reported match: `path:line: text` with the text's trailing
/// whitespace removed.
pub open spec fn match_line(path: Seq<char>, number: nat, line: Seq<char>) -> Seq<char> {
    path + ":"@ + text::decimal(number) + ": "@ + text::trim_end(line)
}

/// The reported matches among the first `n` lines of a file.
pub open spec fn file_matches_upto(
    pattern: Seq<char>,
    ci: bool,
    path: Seq<char>,
    ls: Seq<Seq<char>>,
    n: nat,
) -> Seq<Seq<char>>
    decreases n,
{
    if n == 0 {
        Seq::empty()
    } else {
        let prev = file_matches_upto(pattern, ci, path, ls, (n - 1) as nat);
        if regex_is_match(pattern, ci, ls[n - 1]) {
            prev.push(match_line(path, n, ls[n - 1]))
        } else {
            prev
        }
    }
}

/// The reported matches of one file, in line order.
pub open spec fn file_matches(pattern: Seq<char>, ci: bool, path: Seq<char>, content: Seq<char>) -> Seq<Seq<char>> {
    file_matches_upto(pattern, ci, path, text::lines(content), text::lines(content).len())
}

/// The report of a content search whose files, in walk order, have these
/// matches.
pub open spec fn ripgrep_report(pattern: Seq<char>, all: Seq<Seq<char>>) -> Seq<char> {
    if all.len() == 0 {
        "No matches found for pattern: '"@ + pattern + "'"@
    } else if all.len() >= 60 {
        join_lines(all.take(60)) + "\n... (Results truncated at 60 matches)"@
    } else {
        join_lines(all)
    }
}

/// A content search in progress.
pub struct RipgrepSearch {
    matcher: LineMatcher,
    pattern: String,
    found: Vec<String>,
    all: Ghost<Seq<Seq<char>>>,
}

/// Why a search could not start.
#[derive(Debug)]
pub enum SearchError {
    /// The pattern was refused by the regex compiler.
    InvalidPattern(regex::Error),
}

impl RipgrepSearch {
    /// The pattern searched for.
    pub closed spec fn pattern(&self) -> Seq<char> {
        self.pattern@
    }

    /// Whether the search ignores case.
    pub closed spec fn case_insensitive(&self) -> bool {
        self.matcher.case_insensitive()
    }

    /// All matches of the files handed over so far, in order.
    pub closed spec fn all_matches(&self) -> Seq<Seq<char>> {
        self.all@
    }

    pub closed spec fn wf(&self) -> bool {
        &&& self.found@.map_values(|l: String| l@) == self.all@.take(
            if self.all@.len() < 60 { self.all@.len() as int } else { 60 },
        )
        &&& self.matcher.pattern() == self.pattern@
    }

    /// Starts a search; fails exactly when the pattern does not compile.
    pub fn start(pattern: &str, case_insensitive: bool) -> (r: Result<RipgrepSearch, SearchError>)
        ensures
            r is Ok == regex_compiles(pattern@, case_insensitive),
            r matches Ok(s) ==> s.wf() && s.pattern() == pattern@ && s.case_insensitive()
                == case_insensitive && s.all_matches() == Seq::<Seq<char>>::empty(),
    {
        match compile_pattern(pattern, case_insensitive) {
            Ok(matcher) => {
                let s = RipgrepSearch {
                    matcher,
                    pattern: String::from_str(pattern),
                    found: Vec::new(),
                    all: Ghost(Seq::empty()),
                };
                assert(s.found@.map_values(|l: String| l@) =~= s.all@.take(0));
                Ok(s)
            },
            Err(e) => Err(SearchError::InvalidPattern(e)),
        }
    }

    /// Enough matches were found: no further file is needed.
    pub fn is_full(&self) -> (b: bool)
        requires
            self.wf(),
        ensures
            b == (self.all_matches().len() >= 60),
    {
        assert(self.found@.map_values(|l: String| l@).len() == self.found@.len());
        self.found.len() >= 60
    }

    /// Searches one file, given by its path relative to the workspace and
    /// its text. Returns whether enough matches were found.
    pub fn add_file(&mut self, path: &str, content: &str) -> (full: bool)
        requires
            old(self).wf(),
            old(self).all_matches().len() < 60,
        ensures
            final(self).wf(),
            final(self).pattern() == old(self).pattern(),
            final(self).case_insensitive() == old(self).case_insensitive(),
            final(self).all_matches().take(
                if final(self).all_matches().len() < 60 { final(self).all_matches().len() as int } else { 60 },
            ) == (old(self).all_matches() + file_matches(old(self).pattern(), old(self).case_insensitive(), path@, content@)).take(
                if final(self).all_matches().len() < 60 { final(self).all_matches().len() as int } else { 60 },
            ),
            full == (final(self).all_matches().len() >= 60),
            full == ((old(self).all_matches() + file_matches(old(self).pattern(), old(self).case_insensitive(), path@, content@)).len() >= 60),
            !full ==> final(self).all_matches() == old(self).all_matches() + file_matches(old(self).pattern(), old(self).case_insensitive(), path@, content@),
    {
        let ghost p = self.pattern@;
        let ghost ci = self.matcher.case_insensitive();
        let ghost start_all = self.all@;
        let ghost fm = file_matches(p, ci, path@, content@);
        let cv = chars_of(content);
        let ls = text::split_lines(cv.as_slice());
        let ghost lsv = text::lines(content@);
        let mut i: usize = 0;
        while i < ls.len()
            invariant
                self.wf(),
                self.pattern@ == p,
                self.matcher.case_insensitive() == ci,
                p == old(self).pattern(),
                ci == old(self).case_insensitive(),
                start_all == old(self).all_matches(),
                ls@.len() == lsv.len(),
                forall|j: int| 0 <= j < ls@.len() ==> (#[trigger] ls@[j])@ == lsv[j],
                i <= ls@.len(),
                self.all@ == start_all + file_matches_upto(p, ci, path@, lsv, i as nat),
                self.all@.len() < 60,
                fm == file_matches_upto(p, ci, path@, lsv, lsv.len()),
                fm == file_matches(p, ci, path@, content@),
            decreases ls@.len() - i,
        {
            let line = string_of(ls[i].as_slice());
            let matched = line_matches(&self.matcher, line.as_str());
            let full = self.record_line(path, i + 1, line.as_str(), matched);
            i = i + 1;
            assert(self.all@ =~= start_all + file_matches_upto(p, ci, path@, lsv, i as nat));
            if full {
                proof {
                    assert(self.all@.len() == 60);
                    lemma_file_matches_prefix(p, ci, path@, lsv, i as nat, lsv.len());
                    let rest = fm.subrange(self.all@.len() - start_all.len(), fm.len() as int);
                    assert(start_all + fm =~= self.all@ + rest);
                    assert((start_all + fm).take(60) =~= self.all@.take(60));
                    assert((start_all + fm).len() >= 60);
                }
                return true;
            }
        }
        false
    }

    /// Records whether the pattern matched line `number` (counted from 1)
    /// of the file at `path`: a matching line is reported. Returns whether
    /// enough matches were found.
    pub fn record_line(&mut self, path: &str, number: usize, line: &str, matched: bool) -> (full: bool)
        requires
            old(self).wf(),
            old(self).all_matches().len() < 60,
        ensures
            final(self).wf(),
            final(self).pattern() == old(self).pattern(),
            final(self).case_insensitive() == old(self).case_insensitive(),
            final(self).all_matches() == if matched {
                old(self).all_matches().push(match_line(path@, number as nat, line@))
            } else {
                old(self).all_matches()
            },
            full == (final(self).all_matches().len() >= 60),
    {
        if matched {
            let mut entry = String::from_str(path);
            entry.append(":");
            push_decimal(&mut entry, number as u128);
            entry.append(": ");
            let lv = chars_of(line);
            let t = text::trim_end_chars(lv.as_slice());
            text::append_chars(&mut entry, t.as_slice());
            assert(self.all@.take(self.all@.len() as int) =~= self.all@);
            assert(entry@ == match_line(path@, number as nat, line@));
            self.found.push(entry);
            self.all = Ghost(self.all@.push(match_line(path@, number as nat, line@)));
            assert(self.found@.map_values(|l: String| l@) =~= self.all@.take(
                if self.all@.len() < 60 { self.all@.len() as int } else { 60 },
            ));
        }
        assert(self.found@.map_values(|l: String| l@).len() == self.found@.len());
        self.found.len() >= 60
    }

    /// The report of the search.
    pub fn finish(&self) -> (out: String)
        requires
            self.wf(),
        ensures
            out@ == ripgrep_report(self.pattern(), self.all_matches()),
    {
        if self.found.len() == 0 {
            let mut out = String::from_str("No matches found for pattern: '");
            out.append(self.pattern.as_str());
            out.append("'");
            return out;
        }
        let mut out = join_strings(&self.found);
        if self.found.len() >= 60 {
            out.append("\n... (Results truncated at 60 matches)");
        } else {
            assert(self.all@.take(self.all@.len() as int) =~= self.all@);
        }
        out
    }
}

/// The matches of a file's first `n` lines are a prefix of those of its
/// first `m` lines.
proof fn lemma_file_matches_prefix(p: Seq<char>, ci: bool, path: Seq<char>, ls: Seq<Seq<char>>, n: nat, m: nat)
    requires
        n <= m,
    ensures
        file_matches_upto(p, ci, path, ls, n).len() <= file_matches_upto(p, ci, path, ls, m).len(),
        file_matches_upto(p, ci, path, ls, m).take(file_matches_upto(p, ci, path, ls, n).len() as int)
            == file_matches_upto(p, ci, path, ls, n),
    decreases m - n,
{
    if n < m {
        lemma_file_matches_prefix(p, ci, path, ls, n, (m - 1) as nat);
        let a = file_matches_upto(p, ci, path, ls, n);
        let b = file_matches_upto(p, ci, path, ls, (m - 1) as nat);
        let c = file_matches_upto(p, ci, path, ls, m);
        if regex_is_match(p, ci, ls[m - 1]) {
            assert(c.take(a.len() as int) =~= b.take(a.len() as int));
        }
    } else {
        let a = file_matches_upto(p, ci, path, ls, n);
        assert(a.take(a.len() as int) =~= a);
    }
}

// ---------------------------------------------------------------------------
// Name search
// ---------------------------------------------------------------------------

/// One reported entry.
pub open spec fn entry_line(path: Seq<char>, is_dir: bool) -> Seq<char> {
    (if is_dir { "[DIR ] "@ } else { "[FILE] "@ }) + path
}

/// An entry is reported when its path contains the query, both lowercased.
pub open spec fn name_matches(path: Seq<char>, query: Seq<char>) -> bool {
    text::contains(text::lowercase(path), text::lowercase(query))
}

/// The report of a name search whose matching entries are these.
pub open spec fn find_report(query: Seq<char>, all: Seq<Seq<char>>) -> Seq<char> {
    if all.len() == 0 {
        "No files or directories matching '"@ + query + "'"@
    } else if all.len() >= 50 {
        join_lines(all.take(50)) + "\n... (Truncated at 50 matches)"@
    } else {
        join_lines(all)
    }
}

/// A name search in progress.
pub struct FindSearch {
    query: String,
    query_lower: String,
    found: Vec<String>,
    all: Ghost<Seq<Seq<char>>>,
}

impl FindSearch {
    pub closed spec fn query(&self) -> Seq<char> {
        self.query@
    }

    /// The query lowercased, as entries are compared with it.
    pub closed spec fn query_lower(&self) -> Seq<char> {
        self.query_lower@
    }

    /// The reported lines of the matching entries handed over so far.
    pub closed spec fn all_matches(&self) -> Seq<Seq<char>> {
        self.all@
    }

    pub closed spec fn wf(&self) -> bool {
        &&& self.found@.map_values(|l: String| l@) == self.all@.take(
            if self.all@.len() < 50 { self.all@.len() as int } else { 50 },
        )
        &&& self.query_lower@ == text::lowercase(self.query@)
    }

    /// Starts a search for entries whose path contains `query`, ignoring
    /// case.
    pub fn start(query: &str) -> (s: FindSearch)
        ensures
            s.wf(),
            s.query() == query@,
            s.query_lower() == text::lowercase(query@),
            s.all_matches() == Seq::<Seq<char>>::empty(),
    {
        let s = FindSearch {
            query: String::from_str(query),
            query_lower: to_lowercase(query),
            found: Vec::new(),
            all: Ghost(Seq::empty()),
        };
        assert(s.found@.map_values(|l: String| l@) =~= s.all@.take(0));
        s
    }

    /// Looks at one entry of the walk, given by its path relative to the
    /// workspace. Returns whether enough entries were found.
    pub fn add_entry(&mut self, path: &str, is_dir: bool) -> (full: bool)
        requires
            old(self).wf(),
            old(self).all_matches().len() < 50,
        ensures
            final(self).wf(),
            final(self).query() == old(self).query(),
            final(self).all_matches() == if name_matches(path@, old(self).query()) {
                old(self).all_matches().push(entry_line(path@, is_dir))
            } else {
                old(self).all_matches()
            },
            full == (final(self).all_matches().len() >= 50),
    {
        let lower = to_lowercase(path);
        self.record_entry(path, lower.as_str(), is_dir)
    }

    /// Records an entry of the walk whose path, lowercased, is
    /// `lowered_path`: it is reported when that contains the lowercased
    /// query. Returns whether enough entries were found.
    pub fn record_entry(&mut self, path: &str, lowered_path: &str, is_dir: bool) -> (full: bool)
        requires
            old(self).wf(),
            old(self).all_matches().len() < 50,
        ensures
            final(self).wf(),
            final(self).query() == old(self).query(),
            final(self).query_lower() == old(self).query_lower(),
            final(self).all_matches() == if text::contains(lowered_path@, old(self).query_lower()) {
                old(self).all_matches().push(entry_line(path@, is_dir))
            } else {
                old(self).all_matches()
            },
            full == (final(self).all_matches().len() >= 50),
    {
        if contains_str(lowered_path, self.query_lower.as_str()) {
            let mut entry = if is_dir { String::from_str("[DIR ] ") } else { String::from_str("[FILE] ") };
            entry.append(path);
            assert(self.all@.take(self.all@.len() as int) =~= self.all@);
            assert(entry@ == entry_line(path@, is_dir));
            self.found.push(entry);
            self.all = Ghost(self.all@.push(entry_line(path@, is_dir)));
            assert(self.found@.map_values(|l: String| l@) =~= self.all@.take(
                if self.all@.len() < 50 { self.all@.len() as int } else { 50 },
            ));
        }
        assert(self.found@.map_values(|l: String| l@).len() == self.found@.len());
        self.found.len() >= 50
    }

    /// The report of the search.
    pub fn finish(&self) -> (out: String)
        requires
            self.wf(),
        ensures
            out@ == find_report(self.query(), self.all_matches()),
    {
        if self.found.len() == 0 {
            let mut out = String::from_str("No files or directories matching '");
            out.append(self.query.as_str());
            out.append("'");
            return out;
        }
        let mut out = join_strings(&self.found);
        if self.found.len() >= 50 {
            out.append("\n... (Truncated at 50 matches)");
        } else {
            assert(self.all@.take(self.all@.len() as int) =~= self.all@);
        }
        out
    }
}

} // verus!
