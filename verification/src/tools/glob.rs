//! `list_files`: lists the files a glob pattern matches, outside the
//! skipped directories and up to a maximum count.

use vstd::prelude::*;

use crate::json::{member_text, member_u64, JsonTree};

use crate::text::{join, join_spec};
use crate::tools::{
    make_param, param, should_skip, should_skip_spec, tool_description, tool_name, ToolKind, ParamKind, ParamKindView, ParamSchema,
    ParamSchemaView, ToolError,
};
use vstd::string::StringExecFns;

verus! {

/// The `list_files` tool.
pub struct ListFilesTool;

/// The pattern to expand and how many files to report at most.
#[derive(Debug)]
pub struct ListRequest {
    pub pattern: String,
    pub max_results: u64,
}

/// The files gathered so far while walking the matches of a pattern.
pub struct FileListing {
    results: Vec<String>,
    max_results: u64,
}

impl View for FileListing {
    type V = Seq<Seq<char>>;

    closed spec fn view(&self) -> Seq<Seq<char>> {
        self.results.deep_view()
    }
}

/// The listing's text: the files one per line, or a note that none matched.
pub open spec fn listing_text(results: Seq<Seq<char>>) -> Seq<char> {
    if results.len() == 0 {
        "No files matched."@
    } else {
        join_spec(results, "\n"@)
    }
}

impl FileListing {
    pub closed spec fn limit(&self) -> nat {
        self.max_results as nat
    }

    /// An empty listing that stops once `max_results` files are gathered.
    pub fn new(max_results: u64) -> (l: FileListing)
        ensures
            l@ == Seq::<Seq<char>>::empty(),
            l.limit() == max_results,
    {
        FileListing { results: Vec::new(), max_results }
    }

    /// Offers one match: its full path and, when it lies inside the
    /// workspace, its path relative to the workspace.  A match under a
    /// skipped directory or outside the workspace is passed over, and so is
    /// any match once the listing holds the maximum; any other is added.
    /// Returns whether the walk should stop, i.e. whether the listing now
    /// holds the maximum.
    pub fn offer(&mut self, full_path: &str, relative: Option<String>) -> (stop: bool)
        ensures
            final(self).limit() == old(self).limit(),
            final(self)@ == (if should_skip_spec(full_path@) || relative is None || old(self)@.len()
                >= old(self).limit() {
                old(self)@
            } else {
                old(self)@.push(relative->Some_0@)
            }),
            stop == (final(self)@.len() >= old(self).limit()),
    {
        if should_skip(full_path) || self.results.len() as u64 >= self.max_results {
            return self.results.len() as u64 >= self.max_results;
        }
        match relative {
            None => self.results.len() as u64 >= self.max_results,
            Some(rel) => {
                let ghost before = self.results.deep_view();
                let ghost rv = rel@;
                self.results.push(rel);
                assert(self.results.deep_view() =~= before.push(rv));
                self.results.len() as u64 >= self.max_results
            },
        }
    }

    /// The files gathered, in the order they were found.
    pub fn results(&self) -> (r: &Vec<String>)
        ensures
            r.deep_view() == self@,
    {
        &self.results
    }

    /// The tool's output for the listing.
    pub fn finish(&self) -> (s: String)
        ensures
            s@ == listing_text(self@),
    {
        if self.results.len() == 0 {
            String::from_str("No files matched.")
        } else {
            let s = join(&self.results, "\n");
            assert(self.results@.map_values(|p: String| p@) =~= self.results.deep_view());
            s
        }
    }
}

impl ListFilesTool {
    /// Reads the arguments: the pattern is required; the maximum defaults
    /// to 50.
    pub fn request(args: &JsonTree) -> (r: Result<ListRequest, ToolError>)
        ensures
            ({
                let pattern = member_text(args@, "pattern"@);
                match r {
                    Ok(q) => pattern == Some(q.pattern@) && q.max_results == match member_u64(
                        args@,
                        "max_results"@,
                    ) {
                        Some(m) => m,
                        None => 50u64,
                    },
                    Err(e) => pattern is None && e.text() == "Missing pattern"@,
                }
            }),
    {
        Self::from_fields(args.text_at("pattern"), args.u64_at("max_results"))
    }

    /// The request from the values of its arguments (`None` for an absent
    /// one or one of another type).
    fn from_fields(pattern: Option<String>, max_results: Option<u64>) -> (r: Result<
        ListRequest,
        ToolError,
    >)
        ensures
            match r {
                Ok(q) => pattern.deep_view() == Some(q.pattern@) && q.max_results == match max_results {
                    Some(m) => m,
                    None => 50u64,
                },
                Err(e) => pattern is None && e.text() == "Missing pattern"@,
            },
    {
        let pattern = match pattern {
            Some(p) => p,
            None => return Err(ToolError::Message(String::from_str("Missing pattern"))),
        };
        let max_results = match max_results {
            Some(m) => m,
            None => 50,
        };
        Ok(ListRequest { pattern, max_results })
    }
}

/// The parameters `list_files` accepts.
pub open spec fn glob_schema() -> ParamSchemaView {
    ParamSchemaView {
        properties: seq![
            param("pattern"@, ParamKindView::Text, "Glob pattern (e.g. 'src/**/*.rs')"@),
            param("max_results"@, ParamKindView::Integer, "Max files to return (default 50)"@),
        ],
        required: seq!["pattern"@],
    }
}

impl ListFilesTool {
    pub fn name(&self) -> (n: &'static str)
        ensures
            n@ == tool_name(ToolKind::ListFiles),
    {
        "list_files"
    }

    pub fn description(&self) -> (d: &'static str)
        ensures
            d@ == tool_description(ToolKind::ListFiles),
    {
        "List files matching a glob pattern. Skips common ignore directories."
    }

    pub fn parameters(&self) -> (p: ParamSchema)
        ensures
            p@ == glob_schema(),
    {
        let properties = vec![
            make_param("pattern", ParamKind::Text, "Glob pattern (e.g. 'src/**/*.rs')"),
            make_param("max_results", ParamKind::Integer, "Max files to return (default 50)"),
        ];
        let required: Vec<&'static str> = vec!["pattern"];
        let p = ParamSchema { properties, required };
        assert(p@.properties =~= glob_schema().properties);
        assert(p@.required =~= glob_schema().required);
        p
    }
}

} // verus!
