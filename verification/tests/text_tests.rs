use codeloop::hitl::{feedback_of, parse_reply, HitlReply};
use codeloop::paths::{file_name, file_stem, parent, resolve};
use codeloop::text::{decimal_string, join, lines, right_aligned, signed_decimal_string, trim};

#[test]
fn lines_split_like_str_lines() {
    assert_eq!(lines("a\nb\r\nc"), vec!["a", "b", "c"]);
    assert_eq!(lines("a\n"), vec!["a"]);
    assert_eq!(lines("a\n\n"), vec!["a", ""]);
    assert_eq!(lines(""), Vec::<String>::new());
    assert_eq!(lines("\n"), vec![""]);
    assert_eq!(lines("x\r"), vec!["x\r"]);
    let sample = "fn main() {\r\n    x\n}\n\n tail";
    let expected: Vec<String> = sample.lines().map(String::from).collect();
    assert_eq!(lines(sample), expected);
}

#[test]
fn trim_matches_std_trim() {
    for s in ["  y ", "\tquit\n", "", "   ", "\u{3000}x\u{a0}", "a b"] {
        assert_eq!(trim(s), s.trim());
    }
}

#[test]
fn decimals_and_alignment() {
    assert_eq!(decimal_string(0), "0");
    assert_eq!(decimal_string(1234567), "1234567");
    assert_eq!(decimal_string(u64::MAX), u64::MAX.to_string());
    assert_eq!(signed_decimal_string(-1), "-1");
    assert_eq!(signed_decimal_string(i64::MIN), i64::MIN.to_string());
    assert_eq!(right_aligned("42", 6), "    42");
    assert_eq!(right_aligned("1234567", 6), "1234567");
    assert_eq!(right_aligned("42", 6), format!("{:>6}", 42));
}

#[test]
fn join_puts_separator_between() {
    let parts = vec!["a".to_string(), "b".to_string(), "c".to_string()];
    assert_eq!(join(&parts, " -- "), "a -- b -- c");
    assert_eq!(join(&Vec::new(), ", "), "");
}

#[test]
fn unix_path_pieces_agree_with_std() {
    let cases = [
        "src/lib.rs",
        "lib.rs",
        "src/agent/mod.rs",
        "a//b/c",
        "a/./b",
        "a/b/",
        "./a",
        ".",
        "..",
        "/",
        "",
        "/a",
        "a/..",
        "/./a",
        ".bashrc",
        "a.tar.gz",
        "x.",
        "dir/.hidden.rs",
    ];
    for c in cases {
        let p = std::path::Path::new(c);
        assert_eq!(
            file_name(c),
            p.file_name().map(|s| s.to_str().unwrap().to_string()),
            "file_name of {c:?}"
        );
        assert_eq!(
            parent(c),
            p.parent().map(|s| s.display().to_string()),
            "parent of {c:?}"
        );
        assert_eq!(
            file_stem(c),
            p.file_stem().map(|s| s.to_str().unwrap().to_string()),
            "file_stem of {c:?}"
        );
    }
}

#[test]
fn hitl_replies() {
    assert_eq!(parse_reply("y\n"), HitlReply::Approve);
    assert_eq!(parse_reply("  YES "), HitlReply::Approve);
    assert_eq!(parse_reply("No"), HitlReply::Reject);
    assert_eq!(parse_reply("n"), HitlReply::Reject);
    assert_eq!(parse_reply("QUIT\r\n"), HitlReply::Quit);
    assert_eq!(parse_reply("q"), HitlReply::Quit);
    assert_eq!(parse_reply("maybe"), HitlReply::Unrecognized);
    assert_eq!(parse_reply(""), HitlReply::Unrecognized);
    assert_eq!(parse_reply("ye s"), HitlReply::Unrecognized);
}

#[test]
fn hitl_feedback() {
    assert_eq!(feedback_of("  use quicksort \n"), Some("use quicksort".to_string()));
    assert_eq!(feedback_of("\n"), None);
    assert_eq!(feedback_of(""), None);
}

#[test]
fn paths_resolve_like_join() {
    for (base, path) in [("/ws", "a.rs"), ("/ws/", "src/a.rs"), ("/ws", "/etc/hosts"), ("", "a"), ("/ws", ""), ("ws", "b/c")] {
        let joined = std::path::Path::new(base).join(path);
        assert_eq!(resolve(base, path), joined.to_str().unwrap(), "{base} + {path}");
    }
}
