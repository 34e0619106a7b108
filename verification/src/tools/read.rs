//! `read_file`: reads a window of a file's lines, numbered from 1.

use vstd::prelude::*;

use crate::json::{member_text, member_u64, JsonTree};

use crate::text::{
    concat, concat3, decimal, decimal_string, join, join_spec, lines, lines_spec, right_align,
    right_aligned,
};
use crate::tools::{make_param, param, tool_description, tool_name, ToolKind, ParamKind, ParamKindView, ParamSchema, ParamSchemaView, ToolError};
use vstd::string::StringExecFns;

verus! {

/// The `read_file` tool.
pub struct ReadFileTool;

/// The file to read and the window of lines to show.
#[derive(Debug)]
pub struct ReadRequest {
    pub path: String,
    /// First line to show, counted from 1 (at least 1).
    pub offset: u64,
    /// How many lines to show; all the rest when absent.
    pub limit: Option<u64>,
}

/// One shown line: its number right-aligned in six columns, a colon, a
/// space and the line.
pub open spec fn numbered_line(n: nat, line: Seq<char>) -> Seq<char> {
    right_align(decimal(n), 6) + ": "@ + line
}

/// Lines `start..end` of `ls`, numbered from `start + 1`.
pub open spec fn numbered_window(ls: Seq<Seq<char>>, start: int, end: int) -> Seq<Seq<char>> {
    Seq::new((end - start) as nat, |k: int| numbered_line((start + k + 1) as nat, ls[start + k]))
}

/// Where the window ends: after `limit` lines or at the last line,
/// whichever comes first.
pub open spec fn window_end(start: int, limit: Option<u64>, len: int) -> int {
    match limit {
        None => len,
        Some(l) => if start + l < len {
            start + l
        } else {
            len
        },
    }
}

/// What `render` gives for a file's text and a window: the lines from
/// line `offset` to the window's end, numbered; nothing when the window
/// starts past the last line.
pub open spec fn render_spec(content: Seq<char>, offset: u64, limit: Option<u64>) -> Seq<char> {
    let ls = lines_spec(content);
    let start = offset - 1;
    let end = window_end(start, limit, ls.len() as int);
    if start >= end {
        Seq::empty()
    } else {
        join_spec(numbered_window(ls, start, end), "\n"@)
    }
}

/// How many lines a window shows: from line `offset` on, all the rest of
/// the file, or `limit` lines when fewer; none when `offset` lies past the
/// last line.
pub open spec fn shown_count(line_count: int, offset: u64, limit: Option<u64>) -> int {
    let rest = line_count - (offset - 1);
    if rest <= 0 {
        0
    } else {
        match limit {
            Some(l) => if l < rest {
                l as int
            } else {
                rest
            },
            None => rest,
        }
    }
}

/// The window `render` shows is exactly the file's lines from line
/// `offset` on, never more than `limit` of them (whatever the offset), each
/// after its own line number, one per line.
pub proof fn lemma_window_shows_limited_lines(content: Seq<char>, offset: u64, limit: Option<u64>)
    requires
        offset >= 1,
    ensures
        ({
            let ls = lines_spec(content);
            let n = shown_count(ls.len() as int, offset, limit);
            &&& limit matches Some(l) ==> n <= l
            &&& render_spec(content, offset, limit) == join_spec(
                Seq::new(n as nat, |k: int| numbered_line((offset + k) as nat, ls[offset - 1 + k])),
                "\n"@,
            )
        }),
{
    let ls = lines_spec(content);
    let n = shown_count(ls.len() as int, offset, limit);
    let start = offset - 1;
    let end = window_end(start, limit, ls.len() as int);
    if start < end {
        assert(numbered_window(ls, start, end) =~= Seq::new(
            n as nat,
            |k: int| numbered_line((offset + k) as nat, ls[offset - 1 + k]),
        ));
    } else {
        assert(Seq::new(n as nat, |k: int| numbered_line((offset + k) as nat, ls[offset - 1 + k]))
            =~= Seq::<Seq<char>>::empty());
    }
}

impl ReadFileTool {
    /// Reads the arguments: the path is required; the offset defaults to 1
    /// and is raised to 1 when smaller.
    pub fn request(args: &JsonTree) -> (r: Result<ReadRequest, ToolError>)
        ensures
            ({
                let path = member_text(args@, "path"@);
                let offset = member_u64(args@, "offset"@);
                match r {
                    Ok(q) => path == Some(q.path@) && q.limit == member_u64(args@, "limit"@)
                        && q.offset == match offset {
                        Some(o) => if o >= 1 {
                            o
                        } else {
                            1
                        },
                        None => 1,
                    },
                    Err(e) => path is None && e.text() == "Missing path"@,
                }
            }),
    {
        Self::from_fields(args.text_at("path"), args.u64_at("offset"), args.u64_at("limit"))
    }

    /// The request from the values of its arguments (`None` for an absent
    /// one or one of another type).
    fn from_fields(path: Option<String>, offset: Option<u64>, limit: Option<u64>) -> (r: Result<
        ReadRequest,
        ToolError,
    >)
        ensures
            match r {
                Ok(q) => path.deep_view() == Some(q.path@) && q.limit == limit && q.offset == match offset {
                    Some(o) => if o >= 1 {
                        o
                    } else {
                        1
                    },
                    None => 1,
                },
                Err(e) => path is None && e.text() == "Missing path"@,
            },
    {
        let path = match path {
            Some(p) => p,
            None => return Err(ToolError::Message(String::from_str("Missing path"))),
        };
        let offset = match offset {
            Some(o) => if o >= 1 {
                o
            } else {
                1
            },
            None => 1,
        };
        Ok(ReadRequest { path, offset, limit })
    }

    /// The error for a file that could not be read as text.
    pub fn read_failed(path: &str, detail: &str) -> (e: ToolError)
        ensures
            e.text() == "Cannot read "@ + path@ + ": "@ + detail@,
    {
        ToolError::Message(concat3("Cannot read ", path, concat(": ", detail).as_str()))
    }

    /// The numbered window of the file's text: lines `offset..` (at most
    /// `limit` of them), each as `numbered_line`, joined by newlines.
    pub fn render(content: &str, offset: u64, limit: Option<u64>) -> (r: String)
        requires
            offset >= 1,
        ensures
            r@ == render_spec(content@, offset, limit),
    {
        let ls = lines(content);
        let ghost lv = ls@.map_values(|l: String| l@);
        let len = ls.len() as u64;
        let start = offset - 1;
        if start >= len {
            return String::new();
        }
        let end = match limit {
            None => len,
            Some(l) => if l < len - start {
                start + l
            } else {
                len
            },
        };
        if start >= end {
            return String::new();
        }
        let mut shown: Vec<String> = Vec::new();
        let mut k: u64 = start;
        while k < end
            invariant
                start <= k <= end,
                end <= len,
                len == ls.len(),
                lv == ls@.map_values(|l: String| l@),
                lv == lines_spec(content@),
                shown@.map_values(|l: String| l@) == numbered_window(lv, start as int, k as int),
            decreases end - k,
        {
            let number = right_aligned(decimal_string(k + 1).as_str(), 6);
            let line = concat3(number.as_str(), ": ", ls[k as usize].as_str());
            let ghost before = shown@.map_values(|l: String| l@);
            shown.push(line);
            assert(shown@.map_values(|l: String| l@) =~= before.push(line@));
            assert(numbered_window(lv, start as int, k + 1) =~= numbered_window(
                lv,
                start as int,
                k as int,
            ).push(numbered_line((k + 1) as nat, lv[k as int])));
            k = k + 1;
        }
        join(&shown, "\n")
    }
}

/// The parameters `read_file` accepts.
pub open spec fn read_schema() -> ParamSchemaView {
    ParamSchemaView {
        properties: seq![
            param("path"@, ParamKindView::Text, "Path to the file"@),
            param("offset"@, ParamKindView::Integer, "Line number to start from (1-indexed)"@),
            param("limit"@, ParamKindView::Integer, "Number of lines to read"@),
        ],
        required: seq!["path"@],
    }
}

impl ReadFileTool {
    pub fn name(&self) -> (n: &'static str)
        ensures
            n@ == tool_name(ToolKind::ReadFile),
    {
        "read_file"
    }

    pub fn description(&self) -> (d: &'static str)
        ensures
            d@ == tool_description(ToolKind::ReadFile),
    {
        "Read a file from the filesystem. Use offset and limit for long files."
    }

    pub fn parameters(&self) -> (p: ParamSchema)
        ensures
            p@ == read_schema(),
    {
        let properties = vec![
            make_param("path", ParamKind::Text, "Path to the file"),
            make_param("offset", ParamKind::Integer, "Line number to start from (1-indexed)"),
            make_param("limit", ParamKind::Integer, "Number of lines to read"),
        ];
        let required: Vec<&'static str> = vec!["path"];
        let p = ParamSchema { properties, required };
        assert(p@.properties =~= read_schema().properties);
        assert(p@.required =~= read_schema().required);
        p
    }
}

} // verus!
