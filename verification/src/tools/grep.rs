//! `search_code`: finds the lines that match a regular expression in the
//! files a glob pattern selects, up to a maximum count.

use vstd::prelude::*;

use crate::json::{member_text, member_u64, JsonTree};

use crate::text::{concat3, decimal, decimal_string, join, join_spec, lines, lines_spec};
use crate::tools::{make_param, param, should_skip, should_skip_spec, tool_description, tool_name, ToolKind, ParamKind, ParamKindView, ParamSchema, ParamSchemaView, ToolError};
use vstd::string::StringExecFns;

verus! {

/// The `search_code` tool.
pub struct SearchCodeTool;

/// The pattern to search for, the files to search and how many matches to
/// report at most.
#[derive(Debug)]
pub struct SearchRequest {
    pub pattern: String,
    pub glob_filter: String,
    pub max_results: u64,
}

#[verifier::external_type_specification]
#[verifier::external_body]
pub struct ExRegex(regex::Regex);

/// Whether `regex::Regex::new` accepts `pattern`.
pub uninterp spec fn regex_compiles(pattern: Seq<char>) -> bool;

/// The text of the error `regex::Regex::new` reports for `pattern`.
pub uninterp spec fn regex_error_text(pattern: Seq<char>) -> Seq<char>;

/// Whether the regex compiled from `pattern` matches somewhere in `line`
/// (`regex::Regex::is_match`).
pub uninterp spec fn regex_matches(pattern: Seq<char>, line: Seq<char>) -> bool;

/// A compiled search pattern together with its source text.  Values are
/// made only by `compile_regex`, so `compiled` is always the regex of
/// `source`.
pub struct CodePattern {
    source: String,
    compiled: regex::Regex,
}

impl CodePattern {
    pub closed spec fn source(&self) -> Seq<char> {
        self.source@
    }
}

/// Calls `regex::Regex::new` (default options).  The contract claims that
/// it succeeds exactly when the crate accepts the pattern, that the error
/// is the crate's message for that pattern, and that the result remembers
/// its source.
#[verifier::external_body]
fn compile_regex(pattern: &str) -> (r: Result<CodePattern, String>)
    ensures
        r is Ok <==> regex_compiles(pattern@),
        r matches Ok(p) ==> p.source() == pattern@,
        r matches Err(m) ==> m@ == regex_error_text(pattern@),
{
    match regex::Regex::new(pattern) {
        Ok(compiled) => Ok(CodePattern { source: pattern.to_string(), compiled }),
        Err(e) => Err(e.to_string()),
    }
}

/// Calls `regex::Regex::is_match` on the compiled pattern.
#[verifier::external_body]
fn regex_is_match(p: &CodePattern, line: &str) -> (b: bool)
    ensures
        b == regex_matches(p.source(), line@),
{
    p.compiled.is_match(line)
}

/// A search hit: the file's relative path, the line number (from 1) and the
/// line, separated by colons.
pub open spec fn hit_text(path: Seq<char>, number: nat, line: Seq<char>) -> Seq<char> {
    path + ":"@ + decimal(number) + ": "@ + line
}

/// The hits of one file's lines `0..upto`, appended to `found` one by one;
/// once the hits number `max`, no line adds another.
pub open spec fn scan_lines(
    pattern: Seq<char>,
    path: Seq<char>,
    ls: Seq<Seq<char>>,
    upto: int,
    found: Seq<Seq<char>>,
    max: nat,
) -> Seq<Seq<char>>
    decreases upto,
{
    if upto <= 0 {
        found
    } else {
        let before = scan_lines(pattern, path, ls, upto - 1, found, max);
        if before.len() >= max {
            before
        } else if regex_matches(pattern, ls[upto - 1]) {
            before.push(hit_text(path, upto as nat, ls[upto - 1]))
        } else {
            before
        }
    }
}

/// The hit for line `i` of `ls` (counted from 0), when the pattern
/// matches that line as it stands.
pub open spec fn hit_at(pattern: Seq<char>, path: Seq<char>, ls: Seq<Seq<char>>) -> spec_fn(int) -> Option<Seq<char>> {
    |i: int|
        if regex_matches(pattern, ls[i]) {
            Some(hit_text(path, (i + 1) as nat, ls[i]))
        } else {
            None
        }
}

/// The hits of lines `0..upto`, every line the pattern matches as it
/// stands in the file, in order.
pub open spec fn all_hits(pattern: Seq<char>, path: Seq<char>, ls: Seq<Seq<char>>, upto: int) -> Seq<Seq<char>> {
    Seq::new(upto as nat, |i: int| i).filter_map(hit_at(pattern, path, ls))
}

proof fn lemma_all_hits_step(pattern: Seq<char>, path: Seq<char>, ls: Seq<Seq<char>>, upto: int)
    requires
        0 < upto,
    ensures
        all_hits(pattern, path, ls, upto) == if regex_matches(pattern, ls[upto - 1]) {
            all_hits(pattern, path, ls, upto - 1).push(hit_text(path, upto as nat, ls[upto - 1]))
        } else {
            all_hits(pattern, path, ls, upto - 1)
        },
        all_hits(pattern, path, ls, upto).len() <= upto,
    decreases upto,
{
    let idx = Seq::new(upto as nat, |i: int| i);
    assert(idx.drop_last() =~= Seq::new((upto - 1) as nat, |i: int| i));
    assert(idx.last() == upto - 1);
    if upto > 1 {
        lemma_all_hits_step(pattern, path, ls, upto - 1);
    } else {
        assert(Seq::new(0nat, |i: int| i).filter_map(hit_at(pattern, path, ls)) =~= Seq::<Seq<char>>::empty());
    }
    if regex_matches(pattern, ls[upto - 1]) {
        assert(all_hits(pattern, path, ls, upto - 1) + seq![hit_text(path, upto as nat, ls[upto - 1])]
            =~= all_hits(pattern, path, ls, upto - 1).push(hit_text(path, upto as nat, ls[upto - 1])));
    }
}

/// Scanning lines `0..upto` adds the hits of every line the pattern
/// matches as it stands in the file, in order, each showing the line's
/// number and the line itself, until the hits number `max`: the result is
/// the longest prefix of `found` followed by all those hits that holds at
/// most `max` entries.
pub proof fn lemma_scan_finds_matching_lines(
    pattern: Seq<char>,
    path: Seq<char>,
    ls: Seq<Seq<char>>,
    upto: int,
    found: Seq<Seq<char>>,
    max: nat,
)
    requires
        0 <= upto <= ls.len(),
        found.len() <= max,
    ensures
        ({
            let all = found + all_hits(pattern, path, ls, upto);
            let n = if all.len() <= max {
                all.len() as int
            } else {
                max as int
            };
            scan_lines(pattern, path, ls, upto, found, max) == all.take(n)
        }),
    decreases upto,
{
    if upto <= 0 {
        assert(Seq::new(0nat, |i: int| i).filter_map(hit_at(pattern, path, ls)) =~= Seq::<Seq<char>>::empty());
        assert(found + all_hits(pattern, path, ls, 0) =~= found);
        assert(found.take(found.len() as int) =~= found);
    } else {
        lemma_scan_finds_matching_lines(pattern, path, ls, upto - 1, found, max);
        lemma_all_hits_step(pattern, path, ls, upto);
        let prev = found + all_hits(pattern, path, ls, upto - 1);
        let all = found + all_hits(pattern, path, ls, upto);
        if regex_matches(pattern, ls[upto - 1]) {
            assert(all =~= prev.push(hit_text(path, upto as nat, ls[upto - 1])));
            if prev.len() >= max {
                assert(all.take(max as int) =~= prev.take(max as int));
            } else {
                assert(prev.take(prev.len() as int) =~= prev);
                assert(all.take(all.len() as int) =~= all);
            }
        } else {
            assert(all =~= prev);
        }
    }
}

/// Within the maximum, a file's hits are exactly its matching lines: when
/// the hits found so far and the file's lines together number at most the
/// maximum, scanning the file adds one hit for each line the pattern
/// matches as it stands, and nothing else.
pub proof fn lemma_scan_within_cap(
    pattern: Seq<char>,
    path: Seq<char>,
    ls: Seq<Seq<char>>,
    found: Seq<Seq<char>>,
    max: nat,
)
    requires
        found.len() + ls.len() <= max,
    ensures
        scan_lines(pattern, path, ls, ls.len() as int, found, max) == found + all_hits(
            pattern,
            path,
            ls,
            ls.len() as int,
        ),
{
    lemma_scan_finds_matching_lines(pattern, path, ls, ls.len() as int, found, max);
    lemma_all_hits_len(pattern, path, ls, ls.len() as int);
    let all = found + all_hits(pattern, path, ls, ls.len() as int);
    assert(all.take(all.len() as int) =~= all);
}

proof fn lemma_all_hits_len(pattern: Seq<char>, path: Seq<char>, ls: Seq<Seq<char>>, upto: int)
    requires
        0 <= upto,
    ensures
        all_hits(pattern, path, ls, upto).len() <= upto,
{
    if upto > 0 {
        lemma_all_hits_step(pattern, path, ls, upto);
    } else {
        assert(Seq::new(0nat, |i: int| i).filter_map(hit_at(pattern, path, ls)) =~= Seq::<Seq<char>>::empty());
    }
}

/// The search output: the hits one per line, or a note that none matched.
pub open spec fn search_text(results: Seq<Seq<char>>) -> Seq<char> {
    if results.len() == 0 {
        "No matches found."@
    } else {
        join_spec(results, "\n"@)
    }
}

/// The hits gathered so far while walking the selected files.
pub struct SearchResults {
    results: Vec<String>,
    max_results: u64,
}

impl View for SearchResults {
    type V = Seq<Seq<char>>;

    closed spec fn view(&self) -> Seq<Seq<char>> {
        self.results.deep_view()
    }
}

impl SearchResults {
    pub closed spec fn limit(&self) -> nat {
        self.max_results as nat
    }

    pub fn new(max_results: u64) -> (r: SearchResults)
        ensures
            r@ == Seq::<Seq<char>>::empty(),
            r.limit() == max_results,
    {
        SearchResults { results: Vec::new(), max_results }
    }

    /// Scans one file, given by its full path, its path relative to the
    /// workspace and its text (none when it could not be read as text).  A
    /// file under a skipped directory is passed over; in any other, each
    /// line the pattern matches is added as a hit while the hits number less
    /// than the maximum.  Returns whether the walk should stop, i.e. whether
    /// the hits now number at least the maximum.
    pub fn scan_file(
        &mut self,
        pattern: &CodePattern,
        full_path: &str,
        relative: &str,
        content: Option<&str>,
    ) -> (stop: bool)
        ensures
            final(self).limit() == old(self).limit(),
            final(self)@ == (if should_skip_spec(full_path@) {
                old(self)@
            } else {
                match content {
                    Some(c) => scan_lines(
                        pattern.source(),
                        relative@,
                        lines_spec(c@),
                        lines_spec(c@).len() as int,
                        old(self)@,
                        old(self).limit(),
                    ),
                    None => old(self)@,
                }
            }),
            stop == (final(self)@.len() >= old(self).limit()),
    {
        let ghost found = self.results.deep_view();
        let ghost max = self.max_results as nat;
        if should_skip(full_path) {
            return self.results.len() as u64 >= self.max_results;
        }
        if let Some(text) = content {
            let ls = lines(text);
            let ghost lv = ls@.map_values(|l: String| l@);
            let ghost src = pattern.source();
            let mut i: usize = 0;
            while i < ls.len()
                invariant_except_break
                    i <= ls.len(),
                    lv == ls@.map_values(|l: String| l@),
                    lv == lines_spec(text@),
                    max == self.max_results,
                    src == pattern.source(),
                    self.results.deep_view() == scan_lines(src, relative@, lv, i as int, found, max),
                ensures
                    max == self.max_results,
                    self.results.deep_view() == scan_lines(
                        src,
                        relative@,
                        lv,
                        lv.len() as int,
                        found,
                        max,
                    ),
                decreases ls.len() - i,
            {
                if self.results.len() as u64 >= self.max_results {
                    proof {
                        lemma_scan_stays_stopped(src, relative@, lv, i as int, lv.len() as int, found, max);
                    }
                    break;
                }
                let ghost before = self.results.deep_view();
                assert(ls[i as int]@ == lv[i as int]);
                if regex_is_match(pattern, ls[i].as_str()) {
                    let hit = concat3(relative, ":", decimal_string(i as u64 + 1).as_str());
                    let hit = concat3(hit.as_str(), ": ", ls[i].as_str());
                    let ghost hv = hit@;
                    assert(hv =~= hit_text(relative@, (i + 1) as nat, lv[i as int]));
                    self.results.push(hit);
                    assert(self.results.deep_view() =~= before.push(hv));
                }
                i = i + 1;
            }
        }
        self.results.len() as u64 >= self.max_results
    }

    /// The hits gathered, in the order they were found.
    pub fn results(&self) -> (r: &Vec<String>)
        ensures
            r.deep_view() == self@,
    {
        &self.results
    }

    /// The tool's output for the search.
    pub fn finish(&self) -> (s: String)
        ensures
            s@ == search_text(self@),
    {
        if self.results.len() == 0 {
            String::from_str("No matches found.")
        } else {
            let s = join(&self.results, "\n");
            assert(self.results@.map_values(|p: String| p@) =~= self.results.deep_view());
            s
        }
    }
}

/// Once the hits number the maximum, later lines add nothing.
proof fn lemma_scan_stays_stopped(
    pattern: Seq<char>,
    path: Seq<char>,
    ls: Seq<Seq<char>>,
    k: int,
    m: int,
    found: Seq<Seq<char>>,
    max: nat,
)
    requires
        0 <= k <= m,
        scan_lines(pattern, path, ls, k, found, max).len() >= max,
    ensures
        scan_lines(pattern, path, ls, m, found, max) == scan_lines(pattern, path, ls, k, found, max),
    decreases m - k,
{
    if m > k {
        lemma_scan_stays_stopped(pattern, path, ls, k, m - 1, found, max);
    }
}

/// The compiled form of a search pattern, or the tool's error for an
/// invalid one.
pub fn compile(pattern: &str) -> (r: Result<CodePattern, ToolError>)
    ensures
        r is Ok <==> regex_compiles(pattern@),
        r matches Ok(p) ==> p.source() == pattern@,
        r matches Err(e) ==> e.text() == "Invalid regex: "@ + regex_error_text(pattern@),
{
    match compile_regex(pattern) {
        Ok(p) => Ok(p),
        Err(m) => Err(ToolError::with_detail("Invalid regex: ", m.as_str())),
    }
}

impl SearchCodeTool {
    /// Reads the arguments: the pattern is required; the file filter
    /// defaults to every file (`**/*`) and the maximum to 20.
    pub fn request(args: &JsonTree) -> (r: Result<SearchRequest, ToolError>)
        ensures
            ({
                let pattern = member_text(args@, "pattern"@);
                match r {
                    Ok(q) => {
                        &&& pattern == Some(q.pattern@)
                        &&& q.glob_filter@ == match member_text(args@, "glob_filter"@) {
                            Some(g) => g,
                            None => "**/*"@,
                        }
                        &&& q.max_results == match member_u64(args@, "max_results"@) {
                            Some(m) => m,
                            None => 20u64,
                        }
                    },
                    Err(e) => pattern is None && e.text() == "Missing pattern"@,
                }
            }),
    {
        Self::from_fields(args.text_at("pattern"), args.text_at("glob_filter"), args.u64_at("max_results"))
    }

    /// The request from the values of its arguments (`None` for an absent
    /// one or one of another type).
    fn from_fields(pattern: Option<String>, glob_filter: Option<String>, max_results: Option<u64>) -> (r:
        Result<SearchRequest, ToolError>)
        ensures
            match r {
                Ok(q) => {
                    &&& pattern.deep_view() == Some(q.pattern@)
                    &&& q.glob_filter@ == match glob_filter.deep_view() {
                        Some(g) => g,
                        None => "**/*"@,
                    }
                    &&& q.max_results == match max_results {
                        Some(m) => m,
                        None => 20u64,
                    }
                },
                Err(e) => pattern is None && e.text() == "Missing pattern"@,
            },
    {
        let pattern = match pattern {
            Some(p) => p,
            None => return Err(ToolError::Message(String::from_str("Missing pattern"))),
        };
        let glob_filter = match glob_filter {
            Some(g) => g,
            None => String::from_str("**/*"),
        };
        let max_results = match max_results {
            Some(m) => m,
            None => 20,
        };
        Ok(SearchRequest { pattern, glob_filter, max_results })
    }
}

/// The parameters `search_code` accepts.
pub open spec fn grep_schema() -> ParamSchemaView {
    ParamSchemaView {
        properties: seq![
            param("pattern"@, ParamKindView::Text, "Regex pattern to search for"@),
            param("glob_filter"@, ParamKindView::Text, "Optional file glob filter (e.g. '*.rs')"@),
            param("max_results"@, ParamKindView::Integer, "Max matches to return (default 20)"@),
        ],
        required: seq!["pattern"@],
    }
}

impl SearchCodeTool {
    pub fn name(&self) -> (n: &'static str)
        ensures
            n@ == tool_name(ToolKind::SearchCode),
    {
        "search_code"
    }

    pub fn description(&self) -> (d: &'static str)
        ensures
            d@ == tool_description(ToolKind::SearchCode),
    {
        "Search for a regex pattern in files. Supports file glob filter."
    }

    pub fn parameters(&self) -> (p: ParamSchema)
        ensures
            p@ == grep_schema(),
    {
        let properties = vec![
            make_param("pattern", ParamKind::Text, "Regex pattern to search for"),
            make_param("glob_filter", ParamKind::Text, "Optional file glob filter (e.g. '*.rs')"),
            make_param("max_results", ParamKind::Integer, "Max matches to return (default 20)"),
        ];
        let required: Vec<&'static str> = vec!["pattern"];
        let p = ParamSchema { properties, required };
        assert(p@.properties =~= grep_schema().properties);
        assert(p@.required =~= grep_schema().required);
        p
    }
}

} // verus!
