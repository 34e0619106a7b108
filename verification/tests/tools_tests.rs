use codeloop::json::JsonTree;
use codeloop::tools::bash::BashExecTool;
use codeloop::tools::glob::{FileListing, ListFilesTool};
use codeloop::tools::grep::{compile, SearchCodeTool, SearchResults};
use codeloop::tools::read::ReadFileTool;
use codeloop::tools::test_verify::{
    build_rust_command, derive_rust_test_filter, detect_and_build_command, detect_framework,
    ProjectMarkers, TestVerifyTool,
};
use codeloop::tools::write::WriteFileTool;
use codeloop::tools::{default_tools, should_skip, ParamKind, ToolError, ToolKind, ToolRegistry};

fn args(pairs: Vec<(&str, JsonTree)>) -> JsonTree {
    JsonTree::Object(pairs.into_iter().map(|(k, v)| (k.to_string(), v)).collect())
}

fn jt(s: &str) -> JsonTree {
    JsonTree::Text(s.to_string())
}

fn jn(n: u64) -> JsonTree {
    JsonTree::Number(n.to_string(), Some(n))
}

fn markers() -> ProjectMarkers {
    ProjectMarkers {
        cargo_toml: false,
        package_json: false,
        pyproject_toml: false,
        setup_py: false,
        setup_cfg: false,
        go_mod: false,
    }
}

fn strings(v: &[&str]) -> Vec<String> {
    v.iter().map(|s| s.to_string()).collect()
}

fn text(e: ToolError) -> String {
    e.message()
}

#[test]
fn skip_dirs_are_whole_components() {
    assert!(should_skip("/ws/target/debug/a.rs"));
    assert!(should_skip("/ws/.git/HEAD"));
    assert!(should_skip("node_modules/x.js"));
    assert!(should_skip("/home/u/.cargo"));
    assert!(!should_skip("/ws/targets/a.rs"));
    assert!(!should_skip("/ws/src/target.rs"));
    assert!(!should_skip("/ws/my.git/a"));
    assert!(!should_skip(""));
}

#[test]
fn registry_lists_and_finds_tools() {
    let reg = default_tools();
    let defs = reg.get_definitions();
    let names: Vec<&str> = defs.iter().map(|d| d.name.as_str()).collect();
    assert_eq!(
        names,
        vec!["read_file", "write_file", "bash_exec", "search_code", "list_files", "test_verify"]
    );
    assert_eq!(reg.find_by_name("search_code"), Some(ToolKind::SearchCode));
    assert_eq!(reg.find_by_name("test_verify"), Some(ToolKind::TestVerify));
    assert_eq!(reg.find_by_name("rm_rf"), None);
    let mut empty = ToolRegistry::new();
    assert_eq!(empty.find_by_name("read_file"), None);
    empty.register(ToolKind::ReadFile);
    assert_eq!(empty.find_by_name("read_file"), Some(ToolKind::ReadFile));
    assert!(empty.get_definitions().len() == 1);
}

#[test]
fn tool_schemas() {
    let p = ToolKind::TestVerify.parameters();
    assert!(p.required.is_empty());
    assert_eq!(p.properties.len(), 3);
    match &p.properties[1].kind {
        ParamKind::Choice(c) => assert_eq!(c, &vec!["auto", "rust", "node", "python", "go"]),
        other => panic!("unexpected kind {other:?}"),
    }
    let b = ToolKind::BashExec.parameters();
    assert_eq!(b.required, vec!["command"]);
    assert_eq!(b.properties[1].description, "Timeout in seconds (default 120)");
    assert_eq!(
        ToolKind::ReadFile.description(),
        "Read a file from the filesystem. Use offset and limit for long files."
    );
    assert_eq!(
        ToolKind::TestVerify.description(),
        "Auto-detect the test framework in the workspace and run tests.Use this after every write_file to verify correctness.Pass changed_files to run targeted tests."
    );
}

#[test]
fn bash_request_defaults_and_errors() {
    let r = BashExecTool::request(&args(vec![("command", jt("ls"))])).unwrap();
    assert_eq!((r.command.as_str(), r.timeout_secs), ("ls", 120));
    let r = BashExecTool::request(&args(vec![("command", jt("ls")), ("timeout_secs", jn(5))])).unwrap();
    assert_eq!(r.timeout_secs, 5);
    assert_eq!(text(BashExecTool::request(&args(vec![("command", jn(1)), ("timeout_secs", jn(5))])).unwrap_err()), "Missing command");
}

#[test]
fn bash_reports() {
    assert_eq!(BashExecTool::report("", "", Some(3)), "Exit code: 3");
    assert_eq!(BashExecTool::report("", "", None), "Exit code: -1");
    assert_eq!(BashExecTool::report("hi\n", "", Some(0)), "hi\n");
    assert_eq!(BashExecTool::report("hi\n", "oops", Some(0)), "hi\n\n[stderr]\noops");
    assert_eq!(BashExecTool::report("", "oops", Some(2)), "\n[stderr]\noops\nExit code: 2");
    assert_eq!(BashExecTool::report("x", "", None), "x\nExit code: -1");
    assert_eq!(text(BashExecTool::timed_out(7)), "Command timed out after 7 seconds");
    assert_eq!(text(BashExecTool::spawn_failed("no sh")), "Command failed to spawn: no sh");
    assert_eq!(text(BashExecTool::execution_failed("io")), "Execution failed: io");
}

#[test]
fn read_window_numbering() {
    let content = "alpha\nbeta\ngamma\n";
    assert_eq!(
        ReadFileTool::render(content, 1, None),
        "     1: alpha\n     2: beta\n     3: gamma"
    );
    assert_eq!(ReadFileTool::render(content, 2, Some(1)), "     2: beta");
    assert_eq!(ReadFileTool::render(content, 2, Some(100)), "     2: beta\n     3: gamma");
    assert_eq!(ReadFileTool::render(content, 4, None), "");
    assert_eq!(ReadFileTool::render(content, 2, Some(0)), "");
    assert_eq!(ReadFileTool::render("", 1, None), "");
}

#[test]
fn read_window_past_the_end() {
    assert_eq!(ReadFileTool::render("a\nb\n", 5, None), "");
    assert_eq!(ReadFileTool::render("", 3, None), "");
    assert_eq!(ReadFileTool::render("a\nb\n", 3, Some(u64::MAX)), "");
    assert_eq!(ReadFileTool::render("a\nb\n", 2, Some(u64::MAX)), "     2: b");
    assert_eq!(ReadFileTool::render("a", 1, Some(u64::MAX)), "     1: a");
}

#[test]
fn read_request() {
    let r = ReadFileTool::request(&args(vec![("path", jt("f.rs"))])).unwrap();
    assert_eq!((r.offset, r.limit), (1, None));
    let r = ReadFileTool::request(&args(vec![("limit", jn(3)), ("offset", jn(0)), ("path", jt("f.rs"))])).unwrap();
    assert_eq!((r.offset, r.limit), (1, Some(3)));
    assert_eq!(text(ReadFileTool::request(&args(vec![("offset", jn(2))])).unwrap_err()), "Missing path");
    assert_eq!(text(ReadFileTool::read_failed("f.rs", "gone")), "Cannot read f.rs: gone");
}

#[test]
fn write_request_and_report() {
    assert_eq!(text(WriteFileTool::request(&JsonTree::Null).unwrap_err()), "Missing path");
    assert_eq!(
        text(WriteFileTool::request(&args(vec![("path", jt("a"))])).unwrap_err()),
        "Missing content"
    );
    let q = WriteFileTool::request(&args(vec![("content", jt("b")), ("path", jt("a"))])).unwrap();
    assert_eq!((q.path.as_str(), q.content.as_str()), ("a", "b"));

    assert_eq!(
        WriteFileTool::report("new.rs", None, "fn a() {}\n"),
        "Wrote 10 bytes to new.rs\nDiff: +1 -0 lines\n  + fn a() {}"
    );
    let old = "a\nb\nc\nd\n";
    let new = "a\nB\nc\nd\n";
    assert_eq!(
        WriteFileTool::report("f", Some(old), new),
        "Wrote 8 bytes to f\nDiff: +1 -1 lines\n  - b\n  + B"
    );
    assert_eq!(
        WriteFileTool::report("f", Some(old), old),
        "Wrote 8 bytes to f\nDiff: +0 -0 lines"
    );
    assert_eq!(
        WriteFileTool::report("f", Some("x\n"), "1\n2\n3\n4\n"),
        "Wrote 8 bytes to f\nDiff: +4 -1 lines\n  - x\n  + 1\n  + 2\n  + 3\n  + ..."
    );
    assert_eq!(WriteFileTool::report("u", None, "\u{e9}"), "Wrote 2 bytes to u\nDiff: +1 -0 lines\n  + \u{e9}");
    assert_eq!(text(WriteFileTool::create_dir_failed("denied")), "Cannot create dir: denied");
    assert_eq!(text(WriteFileTool::write_failed("f", "full")), "Cannot write f: full");
}

#[test]
fn listing_caps_and_skips() {
    let q = ListFilesTool::request(&args(vec![("pattern", jt("src/**"))])).unwrap();
    assert_eq!(q.max_results, 50);
    assert_eq!(text(ListFilesTool::request(&args(vec![])).unwrap_err()), "Missing pattern");

    let mut l = FileListing::new(2);
    assert!(!l.offer("/ws/target/x", Some("target/x".into())));
    assert!(!l.offer("/elsewhere/y", None));
    assert!(!l.offer("/ws/a", Some("a".into())));
    assert!(l.offer("/ws/b", Some("b".into())));
    assert_eq!(l.results(), &vec!["a".to_string(), "b".to_string()]);
    assert_eq!(l.finish(), "a\nb");
    assert_eq!(FileListing::new(5).finish(), "No files matched.");

    let mut zero = FileListing::new(0);
    assert!(zero.offer("/ws/a", Some("a".into())));
    assert!(zero.results().is_empty());
    assert_eq!(zero.finish(), "No files matched.");

    let mut full = FileListing::new(1);
    assert!(full.offer("/ws/a", Some("a".into())));
    assert!(full.offer("/ws/b", Some("b".into())));
    assert_eq!(full.finish(), "a");
}

#[test]
fn search_hits_and_caps() {
    let q = SearchCodeTool::request(&args(vec![("pattern", jt("fn"))])).unwrap();
    assert_eq!((q.glob_filter.as_str(), q.max_results), ("**/*", 20));
    assert_eq!(text(SearchCodeTool::request(&args(vec![("glob_filter", jt("*.rs"))])).unwrap_err()), "Missing pattern");

    let re = compile(r"fn \w+").unwrap();
    let mut s = SearchResults::new(3);
    assert!(!s.scan_file(&re, "/ws/src/a.rs", "src/a.rs", Some("fn one() {}\nlet x = 1;\nfn two() {}\n")));
    assert_eq!(s.results(), &strings(&["src/a.rs:1: fn one() {}", "src/a.rs:3: fn two() {}"]));
    assert!(!s.scan_file(&re, "/ws/src/b.rs", "src/b.rs", None));
    assert!(s.scan_file(&re, "/ws/src/c.rs", "src/c.rs", Some("fn a()\nfn b()\n")));
    assert_eq!(s.results().len(), 3);
    assert_eq!(s.finish(), "src/a.rs:1: fn one() {}\nsrc/a.rs:3: fn two() {}\nsrc/c.rs:1: fn a()");
    assert_eq!(SearchResults::new(1).finish(), "No matches found.");

    let mut skipping = SearchResults::new(5);
    assert!(!skipping.scan_file(&re, "/ws/target/gen.rs", "target/gen.rs", Some("fn x()")));
    assert!(!skipping.scan_file(&re, "/ws/.git/hooks/a", ".git/hooks/a", Some("fn x()")));
    assert!(!skipping.scan_file(&re, "/ws/node_modules/m.js", "node_modules/m.js", Some("fn x()")));
    assert!(!skipping.scan_file(&re, "/ws/.cargo/c.rs", ".cargo/c.rs", Some("fn x()")));
    assert_eq!(skipping.finish(), "No matches found.");
    assert!(!skipping.scan_file(&re, "/ws/src/targets.rs", "src/targets.rs", Some("fn x()")));
    assert_eq!(skipping.finish(), "src/targets.rs:1: fn x()");

    let mut zero = SearchResults::new(0);
    assert!(zero.scan_file(&re, "/ws/a", "a", Some("fn here()")));
    assert!(zero.results().is_empty());
    assert_eq!(zero.finish(), "No matches found.");

    let mut one = SearchResults::new(1);
    assert!(one.scan_file(&re, "/ws/a", "a", Some("fn x()\nfn y()")));
    assert_eq!(one.finish(), "a:1: fn x()");

    let err = compile("(unclosed").err().unwrap();
    assert!(text(err).starts_with("Invalid regex: "));
}

#[test]
fn framework_detection() {
    assert_eq!(detect_framework(&markers()), Err("Could not auto-detect test framework. Pass --framework explicitly.".to_string()));
    let mut m = markers();
    m.go_mod = true;
    m.setup_cfg = true;
    assert_eq!(detect_framework(&m), Ok("python".to_string()));
    m.package_json = true;
    assert_eq!(detect_framework(&m), Ok("node".to_string()));
    m.cargo_toml = true;
    assert_eq!(detect_framework(&m), Ok("rust".to_string()));
}

#[test]
fn rust_filters() {
    assert_eq!(derive_rust_test_filter("src/tools/grep.rs"), Some("grep".to_string()));
    assert_eq!(derive_rust_test_filter("src/tools/mod.rs"), Some("tools".to_string()));
    assert_eq!(derive_rust_test_filter("mod.rs"), Some("mod".to_string()));
    assert_eq!(derive_rust_test_filter(".."), None);
    assert_eq!(derive_rust_test_filter("/"), None);
    assert_eq!(build_rust_command(&vec![]), Ok("cargo test".to_string()));
    assert_eq!(build_rust_command(&strings(&["/"])), Ok("cargo test".to_string()));
    assert_eq!(
        build_rust_command(&strings(&["src/a.rs", "src/b/mod.rs"])),
        Ok("cargo test -- a -- b".to_string())
    );
}

#[test]
fn test_commands() {
    let mut rust = markers();
    rust.cargo_toml = true;
    assert_eq!(detect_and_build_command(&rust, "auto", &vec![]), Ok("cargo test".to_string()));
    assert_eq!(detect_and_build_command(&markers(), "node", &vec![]), Ok("npm test".to_string()));
    assert_eq!(
        detect_and_build_command(&markers(), "python", &strings(&["t/a.py", "t/b.py"])),
        Ok("python -m pytest t/a.py t/b.py".to_string())
    );
    assert_eq!(detect_and_build_command(&markers(), "python", &vec![]), Ok("python -m pytest".to_string()));
    assert_eq!(detect_and_build_command(&markers(), "go", &vec![]), Ok("go test ./...".to_string()));
    assert_eq!(
        detect_and_build_command(&markers(), "go", &strings(&["pkg/a.go", "pkg/b.go", "cmd/m.go"])),
        Ok("go test pkg cmd".to_string())
    );
    assert_eq!(
        detect_and_build_command(&markers(), "cobol", &vec![]),
        Err("Unknown or unsupported framework: cobol".to_string())
    );
    assert!(detect_and_build_command(&markers(), "auto", &vec![]).is_err());
}

#[test]
fn test_verify_request_and_report() {
    let r = TestVerifyTool::request(&args(vec![]));
    assert!(r.changed_files.is_empty());
    assert_eq!((r.framework.as_str(), r.timeout_secs), ("auto", 300));
    let r = TestVerifyTool::request(&args(vec![
        ("changed_files", JsonTree::Array(vec![jt("a.rs"), jn(3), jt("b.rs")])),
        ("framework", jt("rust")),
        ("timeout_secs", jn(9)),
    ]));
    assert_eq!(r.changed_files, strings(&["a.rs", "b.rs"]));
    assert_eq!((r.framework.as_str(), r.timeout_secs), ("rust", 9));
    let r = TestVerifyTool::request(&args(vec![("changed_files", jt("a.rs")), ("timeout_secs", jt("9"))]));
    assert!(r.changed_files.is_empty());
    assert_eq!(r.timeout_secs, 300);
    assert_eq!(
        TestVerifyTool::report("cargo test", "ok\n", "", Some(0)),
        "[Test command] cargo test\n\nok\n\n\nExit code: 0"
    );
    assert_eq!(
        TestVerifyTool::report("npm test", "", "boom", None),
        "[Test command] npm test\n\n\n[stderr]\nboom\n\nExit code: -1"
    );
    assert_eq!(text(TestVerifyTool::spawn_failed("x")), "Test command failed to spawn: x");
    assert_eq!(text(TestVerifyTool::execution_failed("y")), "Test execution failed: y");
    assert_eq!(text(ToolError::task_panicked("z")), "Task panicked: z");
}
