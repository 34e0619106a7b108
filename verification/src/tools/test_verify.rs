//! `test_verify`: picks the test framework of the workspace and the test
//! command to run, and reports the run.

use vstd::prelude::*;

use crate::json::{item_texts, member, member_text, member_u64, JsonTree};

use crate::paths::{file_name, file_name_spec, file_stem, file_stem_spec, parent, parent_spec};
use crate::text::{
    clone_string, concat, concat3, decimal, decimal_string, join, join_spec, same_text, signed_decimal,
    signed_decimal_string,
};
use crate::tools::{ToolError, make_param, param, tool_description, tool_name, ToolKind, ParamKind, ParamKindView, ParamSchema, ParamSchemaView};
use vstd::string::StringExecFns;

verus! {

/// The `test_verify` tool.
pub struct TestVerifyTool;

/// Which project files exist at the top of the workspace.
#[derive(Clone, Copy, Debug)]
pub struct ProjectMarkers {
    pub cargo_toml: bool,
    pub package_json: bool,
    pub pyproject_toml: bool,
    pub setup_py: bool,
    pub setup_cfg: bool,
    pub go_mod: bool,
}

/// The framework a workspace's marker files point to, checked in the order
/// Rust, Node, Python, Go.
pub open spec fn detect_framework_spec(m: ProjectMarkers) -> Result<Seq<char>, Seq<char>> {
    if m.cargo_toml {
        Ok("rust"@)
    } else if m.package_json {
        Ok("node"@)
    } else if m.pyproject_toml || m.setup_py || m.setup_cfg {
        Ok("python"@)
    } else if m.go_mod {
        Ok("go"@)
    } else {
        Err("Could not auto-detect test framework. Pass --framework explicitly."@)
    }
}

/// The test filter for one changed Rust file: its file stem, or for a
/// `mod.rs` the name of its directory.
pub open spec fn rust_filter_spec(file: Seq<char>) -> Option<Seq<char>> {
    match file_stem_spec(file) {
        None => None,
        Some(stem) => if stem == "mod"@ {
            match parent_spec(file) {
                Some(p) => match file_name_spec(p) {
                    Some(dir) => Some(dir),
                    None => Some(stem),
                },
                None => Some(stem),
            }
        } else {
            Some(stem)
        },
    }
}

/// The filters of the changed files that have one, in order.
pub open spec fn rust_filters(files: Seq<Seq<char>>) -> Seq<Seq<char>>
    decreases files.len(),
{
    if files.len() == 0 {
        Seq::empty()
    } else {
        let rest = rust_filters(files.drop_last());
        match rust_filter_spec(files.last()) {
            Some(f) => rest.push(f),
            None => rest,
        }
    }
}

pub open spec fn rust_command_spec(files: Seq<Seq<char>>) -> Seq<char> {
    if rust_filters(files).len() == 0 {
        "cargo test"@
    } else {
        "cargo test -- "@ + join_spec(rust_filters(files), " -- "@)
    }
}

/// `dirs` lists, once each, the parent directory of every changed file
/// that has one.
pub open spec fn is_go_package_list(files: Seq<Seq<char>>, dirs: Seq<Seq<char>>) -> bool {
    &&& dirs.no_duplicates()
    &&& forall|d: Seq<char>|
        #![trigger dirs.contains(d)]
        dirs.contains(d) <==> exists|i: int|
            0 <= i < files.len() && #[trigger] parent_spec(files[i]) == Some(d)
}

/// The parent directories of the changed files that have one, each once,
/// in the order they first appear.
pub open spec fn go_package_list(files: Seq<Seq<char>>) -> Seq<Seq<char>>
    decreases files.len(),
{
    if files.len() == 0 {
        Seq::empty()
    } else {
        let ps = go_package_list(files.drop_last());
        match parent_spec(files.last()) {
            Some(p) => if ps.contains(p) {
                ps
            } else {
                ps.push(p)
            },
            None => ps,
        }
    }
}

/// The package list holds no directory twice, and holds exactly the parent
/// directories of the changed files.
pub proof fn lemma_go_package_list(files: Seq<Seq<char>>)
    ensures
        is_go_package_list(files, go_package_list(files)),
    decreases files.len(),
{
    if files.len() > 0 {
        let rest = files.drop_last();
        lemma_go_package_list(rest);
        let ps = go_package_list(rest);
        let n = files.len() - 1;
        assert forall|i: int| 0 <= i < n implies files[i] == #[trigger] rest[i] by {}
        let out = go_package_list(files);
        assert forall|d: Seq<char>|
            #![trigger out.contains(d)]
            out.contains(d) <==> exists|i: int|
                0 <= i < files.len() && #[trigger] parent_spec(files[i]) == Some(d) by {
            if out.contains(d) {
                if ps.contains(d) {
                    let i = choose|i: int| 0 <= i < rest.len() && #[trigger] parent_spec(rest[i]) == Some(d);
                    assert(parent_spec(files[i]) == Some(d));
                } else {
                    assert(parent_spec(files[n]) == Some(d));
                }
            }
            if exists|i: int| 0 <= i < files.len() && #[trigger] parent_spec(files[i]) == Some(d) {
                let i = choose|i: int| 0 <= i < files.len() && #[trigger] parent_spec(files[i]) == Some(d);
                if i < n {
                    assert(parent_spec(rest[i]) == Some(d));
                    assert(ps.contains(d));
                    let k = choose|k: int| 0 <= k < ps.len() && ps[k] == d;
                    if !(parent_spec(files.last()) matches Some(p) && ps.contains(p)) && parent_spec(files.last()) is Some {
                        assert(out[k] == d);
                    }
                } else {
                    if !ps.contains(d) {
                        assert(out[ps.len() as int] == d);
                    }
                }
            }
        }
        if let Some(p) = parent_spec(files.last()) {
            if !ps.contains(p) {
                assert forall|a: int, b: int| 0 <= a < out.len() && 0 <= b < out.len() && a != b implies out[a] != out[b] by {
                    if a == ps.len() {
                        assert(out[b] == ps[b]);
                    } else if b == ps.len() {
                        assert(out[a] == ps[a]);
                    }
                }
            }
        }
    }
}

/// The shell command for `framework` (already resolved) and the changed
/// files, or the error for an unknown framework.
pub open spec fn command_ok(framework: Seq<char>, files: Seq<Seq<char>>, cmd: Seq<char>) -> bool {
    if framework == "rust"@ {
        cmd == rust_command_spec(files)
    } else if framework == "node"@ {
        cmd == "npm test"@
    } else if framework == "python"@ {
        if files.len() == 0 {
            cmd == "python -m pytest"@
        } else {
            cmd == "python -m pytest "@ + join_spec(files, " "@)
        }
    } else if framework == "go"@ {
        if files.len() == 0 {
            cmd == "go test ./..."@
        } else {
            cmd == "go test "@ + join_spec(go_package_list(files), " "@)
        }
    } else {
        false
    }
}

pub open spec fn is_known_framework(f: Seq<char>) -> bool {
    f == "rust"@ || f == "node"@ || f == "python"@ || f == "go"@
}

pub open spec fn unknown_framework_error(f: Seq<char>) -> Seq<char> {
    "Unknown or unsupported framework: "@ + f
}

/// The framework actually used: the detected one for `auto`.
pub open spec fn effective_framework(markers: ProjectMarkers, framework: Seq<char>) -> Result<
    Seq<char>,
    Seq<char>,
> {
    if framework == "auto"@ {
        detect_framework_spec(markers)
    } else {
        Ok(framework)
    }
}

/// What `detect_and_build_command` returns, for each outcome.
pub open spec fn command_result_ok(
    markers: ProjectMarkers,
    framework: Seq<char>,
    files: Seq<Seq<char>>,
    r: Result<Seq<char>, Seq<char>>,
) -> bool {
    match effective_framework(markers, framework) {
        Err(e) => r == Err::<Seq<char>, Seq<char>>(e),
        Ok(f) => if is_known_framework(f) {
            r is Ok && command_ok(f, files, r->Ok_0)
        } else {
            r == Err::<Seq<char>, Seq<char>>(unknown_framework_error(f))
        },
    }
}

/// Each marker file selects its framework, in the order Rust, Node,
/// Python, Go: `Cargo.toml` always means Rust; otherwise `package.json`
/// means Node; otherwise any of `pyproject.toml`, `setup.py` and
/// `setup.cfg` means Python; otherwise `go.mod` means Go; a workspace with
/// none of them has no framework to detect.
pub proof fn lemma_markers_select_framework(m: ProjectMarkers)
    ensures
        m.cargo_toml ==> detect_framework_spec(m) == Ok::<Seq<char>, Seq<char>>("rust"@),
        !m.cargo_toml && m.package_json ==> detect_framework_spec(m) == Ok::<Seq<char>, Seq<char>>(
            "node"@,
        ),
        !m.cargo_toml && !m.package_json && m.pyproject_toml ==> detect_framework_spec(m) == Ok::<
            Seq<char>,
            Seq<char>,
        >("python"@),
        !m.cargo_toml && !m.package_json && m.setup_py ==> detect_framework_spec(m) == Ok::<
            Seq<char>,
            Seq<char>,
        >("python"@),
        !m.cargo_toml && !m.package_json && m.setup_cfg ==> detect_framework_spec(m) == Ok::<
            Seq<char>,
            Seq<char>,
        >("python"@),
        !m.cargo_toml && !m.package_json && !m.pyproject_toml && !m.setup_py && !m.setup_cfg
            && m.go_mod ==> detect_framework_spec(m) == Ok::<Seq<char>, Seq<char>>("go"@),
        detect_framework_spec(m) is Err <==> !(m.cargo_toml || m.package_json || m.pyproject_toml
            || m.setup_py || m.setup_cfg || m.go_mod),
{
}

/// With the framework left to detection, a Python project (one with no
/// `Cargo.toml` or `package.json` and any of `pyproject.toml`, `setup.py`,
/// `setup.cfg`) runs `python -m pytest`, on the changed files when there
/// are any.
pub proof fn lemma_python_project_runs_pytest(m: ProjectMarkers, files: Seq<Seq<char>>, r: Result<Seq<char>, Seq<char>>)
    requires
        !m.cargo_toml,
        !m.package_json,
        m.pyproject_toml || m.setup_py || m.setup_cfg,
        command_result_ok(m, "auto"@, files, r),
    ensures
        files.len() == 0 ==> r == Ok::<Seq<char>, Seq<char>>("python -m pytest"@),
        files.len() > 0 ==> r == Ok::<Seq<char>, Seq<char>>(
            "python -m pytest "@ + join_spec(files, " "@),
        ),
{
    reveal_strlit("python");
    reveal_strlit("rust");
    reveal_strlit("node");
    assert(effective_framework(m, "auto"@) == Ok::<Seq<char>, Seq<char>>("python"@));
    assert("python"@[0] != "rust"@[0]);
    assert("python"@[0] != "node"@[0]);
    assert(is_known_framework("python"@));
    assert(command_ok("python"@, files, r->Ok_0));
}

/// The framework the marker files point to.
pub fn detect_framework(markers: &ProjectMarkers) -> (r: Result<String, String>)
    ensures
        match r {
            Ok(f) => detect_framework_spec(*markers) == Ok::<Seq<char>, Seq<char>>(f@),
            Err(e) => detect_framework_spec(*markers) == Err::<Seq<char>, Seq<char>>(e@),
        },
{
    if markers.cargo_toml {
        return Ok(String::from_str("rust"));
    }
    if markers.package_json {
        return Ok(String::from_str("node"));
    }
    if markers.pyproject_toml || markers.setup_py || markers.setup_cfg {
        return Ok(String::from_str("python"));
    }
    if markers.go_mod {
        return Ok(String::from_str("go"));
    }
    Err(String::from_str("Could not auto-detect test framework. Pass --framework explicitly."))
}

/// The test filter for one changed Rust file.
pub fn derive_rust_test_filter(file_path: &str) -> (r: Option<String>)
    ensures
        r.deep_view() == rust_filter_spec(file_path@),
{
    let stem = match file_stem(file_path) {
        Some(s) => s,
        None => return None,
    };
    if same_text(stem.as_str(), "mod") {
        if let Some(p) = parent(file_path) {
            if let Some(dir) = file_name(p.as_str()) {
                return Some(dir);
            }
        }
    }
    Some(stem)
}

/// `cargo test`, narrowed to the changed files' filters when there are any.
pub fn build_rust_command(changed_files: &Vec<String>) -> (r: Result<String, String>)
    ensures
        r is Ok,
        r->Ok_0@ == rust_command_spec(changed_files.deep_view()),
{
    let ghost files = changed_files.deep_view();
    let mut filters: Vec<String> = Vec::new();
    let mut i: usize = 0;
    while i < changed_files.len()
        invariant
            i <= changed_files.len(),
            files == changed_files.deep_view(),
            filters.deep_view() == rust_filters(files.take(i as int)),
        decreases changed_files.len() - i,
    {
        assert(files.take(i + 1).drop_last() =~= files.take(i as int));
        assert(files.take(i + 1).last() == files[i as int]);
        let ghost before = filters.deep_view();
        match derive_rust_test_filter(changed_files[i].as_str()) {
            Some(f) => {
                let ghost fv = f@;
                filters.push(f);
                assert(filters.deep_view() =~= before.push(fv));
            },
            None => {},
        }
        i = i + 1;
    }
    assert(files.take(changed_files.len() as int) =~= files);
    if filters.len() == 0 {
        return Ok(String::from_str("cargo test"));
    }
    let joined = join(&filters, " -- ");
    assert(filters@.map_values(|p: String| p@) =~= filters.deep_view());
    Ok(concat("cargo test -- ", joined.as_str()))
}

fn contains_text(v: &Vec<String>, t: &str) -> (b: bool)
    ensures
        b == v.deep_view().contains(t@),
{
    let mut i: usize = 0;
    while i < v.len()
        invariant
            i <= v.len(),
            forall|j: int| 0 <= j < i ==> v.deep_view()[j] != t@,
        decreases v.len() - i,
    {
        if same_text(v[i].as_str(), t) {
            assert(v.deep_view()[i as int] == t@);
            return true;
        }
        i = i + 1;
    }
    false
}

/// The parent directories of the changed files, each once, in the order
/// they first appear.
fn go_packages(changed_files: &Vec<String>) -> (dirs: Vec<String>)
    ensures
        dirs.deep_view() == go_package_list(changed_files.deep_view()),
{
    let ghost files = changed_files.deep_view();
    let mut dirs: Vec<String> = Vec::new();
    let mut i: usize = 0;
    while i < changed_files.len()
        invariant
            i <= changed_files.len(),
            files == changed_files.deep_view(),
            dirs.deep_view() == go_package_list(files.take(i as int)),
        decreases changed_files.len() - i,
    {
        assert(files.take(i + 1).drop_last() =~= files.take(i as int));
        assert(files.take(i + 1).last() == files[i as int]);
        let ghost before = dirs.deep_view();
        match parent(changed_files[i].as_str()) {
            Some(p) => {
                if !contains_text(&dirs, p.as_str()) {
                    let ghost pv = p@;
                    dirs.push(p);
                    assert(dirs.deep_view() =~= before.push(pv));
                }
            },
            None => {},
        }
        i = i + 1;
    }
    assert(files.take(changed_files.len() as int) =~= files);
    dirs
}

/// The test command for the workspace: the framework is detected from the
/// marker files when it is `auto`, and the command is narrowed to the
/// changed files where the framework allows it.
pub fn detect_and_build_command(
    markers: &ProjectMarkers,
    framework: &str,
    changed_files: &Vec<String>,
) -> (r: Result<String, String>)
    ensures
        command_result_ok(
            *markers,
            framework@,
            changed_files.deep_view(),
            match r {
                Ok(c) => Ok::<Seq<char>, Seq<char>>(c@),
                Err(e) => Err::<Seq<char>, Seq<char>>(e@),
            },
        ),
{
    let effective = if same_text(framework, "auto") {
        match detect_framework(markers) {
            Ok(f) => f,
            Err(e) => return Err(e),
        }
    } else {
        framework.to_owned()
    };
    let ghost files = changed_files.deep_view();
    let fw = effective.as_str();
    if same_text(fw, "rust") {
        build_rust_command(changed_files)
    } else if same_text(fw, "node") {
        Ok(String::from_str("npm test"))
    } else if same_text(fw, "python") {
        if changed_files.len() == 0 {
            Ok(String::from_str("python -m pytest"))
        } else {
            let joined = join(changed_files, " ");
            assert(changed_files@.map_values(|p: String| p@) =~= files);
            Ok(concat("python -m pytest ", joined.as_str()))
        }
    } else if same_text(fw, "go") {
        if changed_files.len() == 0 {
            Ok(String::from_str("go test ./..."))
        } else {
            let dirs = go_packages(changed_files);
            let joined = join(&dirs, " ");
            assert(dirs@.map_values(|p: String| p@) =~= dirs.deep_view());
            Ok(concat("go test ", joined.as_str()))
        }
    } else {
        Err(concat("Unknown or unsupported framework: ", fw))
    }
}

/// What the tool runs, read from its arguments.
#[derive(Debug)]
pub struct TestRequest {
    pub changed_files: Vec<String>,
    pub framework: String,
    pub timeout_secs: u64,
}

/// The text items of a list, in order (non-text items are dropped).
pub open spec fn text_items(items: Seq<Option<Seq<char>>>) -> Seq<Seq<char>>
    decreases items.len(),
{
    if items.len() == 0 {
        Seq::empty()
    } else {
        let rest = text_items(items.drop_last());
        match items.last() {
            Some(t) => rest.push(t),
            None => rest,
        }
    }
}

impl TestVerifyTool {
    /// Reads the arguments: the changed files (the string items of the
    /// list, none when absent), the framework (`auto` when absent) and the
    /// timeout (300 seconds when absent).
    pub fn request(args: &JsonTree) -> (r: TestRequest)
        ensures
            r.changed_files.deep_view() == match item_texts(member(args@, "changed_files"@)) {
                Some(items) => text_items(items),
                None => Seq::empty(),
            },
            r.framework@ == match member_text(args@, "framework"@) {
                Some(f) => f,
                None => "auto"@,
            },
            r.timeout_secs == match member_u64(args@, "timeout_secs"@) {
                Some(t) => t,
                None => 300u64,
            },
    {
        Self::from_fields(args.texts_at("changed_files"), args.text_at("framework"), args.u64_at("timeout_secs"))
    }

    /// The request from the values of its arguments (`None` for an absent
    /// one or one of another type).
    fn from_fields(
        changed_files: Option<Vec<Option<String>>>,
        framework: Option<String>,
        timeout_secs: Option<u64>,
    ) -> (r: TestRequest)
        ensures
            r.changed_files.deep_view() == match changed_files.deep_view() {
                Some(items) => text_items(items),
                None => Seq::empty(),
            },
            r.framework@ == match framework.deep_view() {
                Some(f) => f,
                None => "auto"@,
            },
            r.timeout_secs == match timeout_secs {
                Some(t) => t,
                None => 300u64,
            },
    {
        let mut files: Vec<String> = Vec::new();
        match changed_files {
            Some(items) => {
                let ghost iv = items.deep_view();
                let mut i: usize = 0;
                while i < items.len()
                    invariant
                        i <= items.len(),
                        iv == items.deep_view(),
                        files.deep_view() == text_items(iv.take(i as int)),
                    decreases items.len() - i,
                {
                    assert(iv.take(i + 1).drop_last() =~= iv.take(i as int));
                    assert(iv.take(i + 1).last() == iv[i as int]);
                    let ghost before = files.deep_view();
                    match &items[i] {
                        Some(t) => {
                            let c = clone_string(t);
                            files.push(c);
                            assert(files.deep_view() =~= before.push(t@));
                        },
                        None => {},
                    }
                    i = i + 1;
                }
                assert(iv.take(items.len() as int) =~= iv);
            },
            None => {
                assert(files.deep_view() =~= Seq::<Seq<char>>::empty());
            },
        }
        let framework = match framework {
            Some(f) => f,
            None => String::from_str("auto"),
        };
        let timeout_secs = match timeout_secs {
            Some(t) => t,
            None => 300,
        };
        TestRequest { changed_files: files, framework, timeout_secs }
    }

    /// The error for a test command that could not be started.
    pub fn spawn_failed(detail: &str) -> (e: ToolError)
        ensures
            e.text() == "Test command failed to spawn: "@ + detail@,
    {
        ToolError::with_detail("Test command failed to spawn: ", detail)
    }

    /// The error for a test run whose output could not be collected.
    pub fn execution_failed(detail: &str) -> (e: ToolError)
        ensures
            e.text() == "Test execution failed: "@ + detail@,
    {
        ToolError::with_detail("Test execution failed: ", detail)
    }

    /// The error for a test run that did not finish within its timeout.
    pub fn timed_out(timeout_secs: u64) -> (e: ToolError)
        ensures
            e.text() == "Test command timed out after "@ + decimal(timeout_secs as nat) + " seconds"@,
    {
        ToolError::Message(
            concat3("Test command timed out after ", decimal_string(timeout_secs).as_str(), " seconds"),
        )
    }

    /// The tool's report on a finished test run.
    pub fn report(command: &str, stdout: &str, stderr: &str, exit_code: Option<i32>) -> (r: String)
        ensures
            r@ == "[Test command] "@ + command@ + "\n\n"@ + stdout@ + (if stderr@.len() == 0 {
                Seq::empty()
            } else {
                "\n[stderr]\n"@ + stderr@
            }) + "\n\nExit code: "@ + signed_decimal(
                match exit_code {
                    Some(c) => c as int,
                    None => -1,
                },
            ),
    {
        let mut r = concat3("[Test command] ", command, "\n\n");
        r.append(stdout);
        if !stderr.is_empty() {
            r.append("\n[stderr]\n");
            r.append(stderr);
        }
        r.append("\n\nExit code: ");
        let code: i64 = match exit_code {
            Some(c) => c as i64,
            None => -1,
        };
        let digits = signed_decimal_string(code);
        r.append(digits.as_str());
        r
    }
}

/// The parameters `test_verify` accepts.
pub open spec fn test_verify_schema() -> ParamSchemaView {
    ParamSchemaView {
        properties: seq![
            param("changed_files"@, ParamKindView::TextList, "List of files that were modified (used to target tests)"@),
            param("framework"@, ParamKindView::Choice(seq!["auto"@, "rust"@, "node"@, "python"@, "go"@]), "Test framework. Use 'auto' to auto-detect (default)."@),
            param("timeout_secs"@, ParamKindView::Integer, "Timeout in seconds (default 300 for tests)"@),
        ],
        required: Seq::empty(),
    }
}

impl TestVerifyTool {
    pub fn name(&self) -> (n: &'static str)
        ensures
            n@ == tool_name(ToolKind::TestVerify),
    {
        "test_verify"
    }

    pub fn description(&self) -> (d: &'static str)
        ensures
            d@ == tool_description(ToolKind::TestVerify),
    {
        "Auto-detect the test framework in the workspace and run tests.Use this after every write_file to verify correctness.Pass changed_files to run targeted tests."
    }

    pub fn parameters(&self) -> (p: ParamSchema)
        ensures
            p@ == test_verify_schema(),
    {
        let choices: Vec<&'static str> = vec!["auto", "rust", "node", "python", "go"];
        assert(choices.deep_view() =~= seq!["auto"@, "rust"@, "node"@, "python"@, "go"@]);
        let properties = vec![
            make_param("changed_files", ParamKind::TextList, "List of files that were modified (used to target tests)"),
            make_param("framework", ParamKind::Choice(choices), "Test framework. Use 'auto' to auto-detect (default)."),
            make_param("timeout_secs", ParamKind::Integer, "Timeout in seconds (default 300 for tests)"),
        ];
        let required: Vec<&'static str> = Vec::new();
        let p = ParamSchema { properties, required };
        assert(p@.properties =~= test_verify_schema().properties);
        assert(p@.required =~= test_verify_schema().required);
        p
    }
}

} // verus!
