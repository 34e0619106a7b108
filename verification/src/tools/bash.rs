//! `bash_exec`: runs a shell command with a timeout and reports its output.

use vstd::prelude::*;

use crate::json::{member_text, member_u64, JsonTree};

use crate::text::{concat, concat3, decimal, decimal_string, signed_decimal, signed_decimal_string};
use crate::tools::{make_param, param, tool_description, tool_name, ToolKind, ParamKind, ParamKindView, ParamSchema, ParamSchemaView, ToolError};
use vstd::string::StringExecFns;

verus! {

/// The `bash_exec` tool.
pub struct BashExecTool;

/// The command to run and how long it may take.
#[derive(Debug)]
pub struct BashRequest {
    pub command: String,
    pub timeout_secs: u64,
}

pub open spec fn exit_code_value(code: Option<i32>) -> int {
    match code {
        Some(c) => c as int,
        None => -1,
    }
}

/// The tool's report on a finished command: only the exit code when there
/// was no output; otherwise the standard output, then the standard error
/// under a `[stderr]` header, then the exit code unless it is 0.
pub open spec fn command_report(stdout: Seq<char>, stderr: Seq<char>, code: Option<i32>) -> Seq<
    char,
> {
    if stdout.len() == 0 && stderr.len() == 0 {
        "Exit code: "@ + signed_decimal(exit_code_value(code))
    } else {
        stdout + (if stderr.len() == 0 {
            Seq::empty()
        } else {
            "\n[stderr]\n"@ + stderr
        }) + (if code == Some(0i32) {
            Seq::empty()
        } else {
            "\nExit code: "@ + signed_decimal(exit_code_value(code))
        })
    }
}

/// `s` ends with `t`.
pub open spec fn ends_with(s: Seq<char>, t: Seq<char>) -> bool {
    t.len() <= s.len() && s.subrange(s.len() - t.len(), s.len() as int) == t
}

/// `s` starts with `t`.
pub open spec fn starts_with(s: Seq<char>, t: Seq<char>) -> bool {
    t.len() <= s.len() && s.take(t.len() as int) == t
}

/// What a command's report shows, whatever it printed: a command with no
/// output is reported by its exit code alone (`-1` when it has none);
/// otherwise the report starts with the standard output, and it ends with
/// the exit code line whenever the code is not 0, with the standard error
/// under its header when the code is 0 and there is standard error, and
/// with nothing but the standard output when the code is 0 and there is no
/// standard error.
pub proof fn lemma_report_shows_output_and_failure(stdout: Seq<char>, stderr: Seq<char>, code: Option<i32>)
    ensures
        ({
            let r = command_report(stdout, stderr, code);
            let code_line = "Exit code: "@ + signed_decimal(exit_code_value(code));
            &&& stdout.len() == 0 && stderr.len() == 0 ==> r == code_line
            &&& stdout.len() > 0 || stderr.len() > 0 ==> {
                &&& starts_with(r, stdout)
                &&& (code != Some(0i32) ==> ends_with(r, "\n"@ + code_line))
                &&& (code == Some(0i32) && stderr.len() > 0 ==> ends_with(
                    r,
                    "\n[stderr]\n"@ + stderr,
                ))
                &&& (code == Some(0i32) && stderr.len() == 0 ==> r == stdout)
            }
            &&& (code == None::<i32> ==> signed_decimal(exit_code_value(code)) == "-1"@)
        }),
{
    let r = command_report(stdout, stderr, code);
    let code_line = "Exit code: "@ + signed_decimal(exit_code_value(code));
    if code is None {
        reveal_strlit("-1");
        assert(decimal(1) =~= seq!['1']);
        assert(signed_decimal(-1) =~= "-1"@);
    }
    if stdout.len() > 0 || stderr.len() > 0 {
        let mid = if stderr.len() == 0 {
            Seq::empty()
        } else {
            "\n[stderr]\n"@ + stderr
        };
        let tail = if code == Some(0i32) {
            Seq::empty()
        } else {
            "\n"@ + code_line
        };
        assert("\nExit code: "@ + signed_decimal(exit_code_value(code)) =~= "\n"@ + code_line) by {
            reveal_strlit("\nExit code: ");
            reveal_strlit("\n");
            reveal_strlit("Exit code: ");
        }
        assert(r =~= stdout + mid + tail);
        assert(r.take(stdout.len() as int) =~= stdout);
        assert(r.subrange(r.len() - tail.len(), r.len() as int) =~= tail);
        if code == Some(0i32) {
            assert(r.subrange(r.len() - mid.len(), r.len() as int) =~= mid);
        }
    }
}

fn exit_code_text(code: Option<i32>) -> (s: String)
    ensures
        s@ == signed_decimal(exit_code_value(code)),
{
    let c: i64 = match code {
        Some(c) => c as i64,
        None => -1,
    };
    signed_decimal_string(c)
}

impl BashExecTool {
    /// Reads the arguments: the command is required; the timeout defaults
    /// to 120 seconds.
    pub fn request(args: &JsonTree) -> (r: Result<BashRequest, ToolError>)
        ensures
            ({
                let command = member_text(args@, "command"@);
                match r {
                    Ok(q) => command == Some(q.command@) && q.timeout_secs == match member_u64(
                        args@,
                        "timeout_secs"@,
                    ) {
                        Some(t) => t,
                        None => 120u64,
                    },
                    Err(e) => command is None && e.text() == "Missing command"@,
                }
            }),
    {
        Self::from_fields(args.text_at("command"), args.u64_at("timeout_secs"))
    }

    /// The request from the values of its arguments (`None` for an absent
    /// one or one of another type).
    fn from_fields(command: Option<String>, timeout_secs: Option<u64>) -> (r: Result<
        BashRequest,
        ToolError,
    >)
        ensures
            match r {
                Ok(q) => command.deep_view() == Some(q.command@) && q.timeout_secs == match timeout_secs {
                    Some(t) => t,
                    None => 120u64,
                },
                Err(e) => command is None && e.text() == "Missing command"@,
            },
    {
        let command = match command {
            Some(c) => c,
            None => return Err(ToolError::Message(String::from_str("Missing command"))),
        };
        let timeout_secs = match timeout_secs {
            Some(t) => t,
            None => 120,
        };
        Ok(BashRequest { command, timeout_secs })
    }

    /// The report on a finished command (see `command_report`).
    pub fn report(stdout: &str, stderr: &str, exit_code: Option<i32>) -> (r: String)
        ensures
            r@ == command_report(stdout@, stderr@, exit_code),
    {
        if stdout.is_empty() && stderr.is_empty() {
            return concat("Exit code: ", exit_code_text(exit_code).as_str());
        }
        let mut r = String::from_str(stdout);
        if !stderr.is_empty() {
            r.append("\n[stderr]\n");
            r.append(stderr);
        }
        let ok = match exit_code {
            Some(c) => c == 0,
            None => false,
        };
        if !ok {
            r.append("\nExit code: ");
            r.append(exit_code_text(exit_code).as_str());
        }
        r
    }

    /// The error for a command that did not finish in time.
    pub fn timed_out(timeout_secs: u64) -> (e: ToolError)
        ensures
            e.text() == "Command timed out after "@ + decimal(timeout_secs as nat) + " seconds"@,
    {
        ToolError::Message(
            concat3("Command timed out after ", decimal_string(timeout_secs).as_str(), " seconds"),
        )
    }

    /// The error for a command that could not be started.
    pub fn spawn_failed(detail: &str) -> (e: ToolError)
        ensures
            e.text() == "Command failed to spawn: "@ + detail@,
    {
        ToolError::with_detail("Command failed to spawn: ", detail)
    }

    /// The error for a command whose output could not be collected.
    pub fn execution_failed(detail: &str) -> (e: ToolError)
        ensures
            e.text() == "Execution failed: "@ + detail@,
    {
        ToolError::with_detail("Execution failed: ", detail)
    }
}

/// The parameters `bash_exec` accepts.
pub open spec fn bash_schema() -> ParamSchemaView {
    ParamSchemaView {
        properties: seq![
            param("command"@, ParamKindView::Text, "Shell command to execute"@),
            param("timeout_secs"@, ParamKindView::Integer, "Timeout in seconds (default 120)"@),
        ],
        required: seq!["command"@],
    }
}

impl BashExecTool {
    pub fn name(&self) -> (n: &'static str)
        ensures
            n@ == tool_name(ToolKind::BashExec),
    {
        "bash_exec"
    }

    pub fn description(&self) -> (d: &'static str)
        ensures
            d@ == tool_description(ToolKind::BashExec),
    {
        "Execute a shell command with an enforced timeout. Returns stdout and stderr."
    }

    pub fn parameters(&self) -> (p: ParamSchema)
        ensures
            p@ == bash_schema(),
    {
        let properties = vec![
            make_param("command", ParamKind::Text, "Shell command to execute"),
            make_param("timeout_secs", ParamKind::Integer, "Timeout in seconds (default 120)"),
        ];
        let required: Vec<&'static str> = vec!["command"];
        let p = ParamSchema { properties, required };
        assert(p@.properties =~= bash_schema().properties);
        assert(p@.required =~= bash_schema().required);
        p
    }
}

} // verus!
