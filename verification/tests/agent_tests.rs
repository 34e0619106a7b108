use codeloop::agent::{format_tool_calls, Action, AgentSession, Event, Stage};
use codeloop::config::{Config, ConfigError};
use codeloop::hitl::HitlDecision;
use codeloop::json::JsonTree;
use codeloop::llm::{decode_chat_response, ChatResponse, Role, ToolCall};
use codeloop::plan::{build_system_prompt, PlanState};
use codeloop::tools::{default_tools, ToolKind};

fn reply_text(t: &str) -> Event {
    Event::LlmReplied(ChatResponse::from_parts(Some(t.to_string()), vec![], None))
}

fn reply_calls(calls: Vec<ToolCall>) -> Event {
    Event::LlmReplied(ChatResponse::from_parts(None, calls, Some("tool_calls".to_string())))
}

fn call(id: &str, name: &str, args: &str) -> ToolCall {
    ToolCall::new(id, name, args)
}

fn start(max: u32, auto: bool) -> (AgentSession, Action) {
    AgentSession::start(&default_tools(), "/ws", max, auto, "fix the bug")
}

#[test]
fn fresh_plan_and_prompt() {
    let p = PlanState::new("goal");
    assert!(!p.reflection_needed);
    assert!(p.last_error.is_none());
    let prompt = build_system_prompt(&p, "/ws");
    assert!(prompt.starts_with("You are an expert software architect."));
    assert!(prompt.ends_with("Current objective: goal\nWorkspace: /ws"));
    assert!(!prompt.contains("REFLECTION REQUIRED"));

    let mut q = PlanState::new("goal");
    q.reflection_needed = true;
    let prompt = build_system_prompt(&q, "/ws");
    assert!(prompt.contains("REFLECTION REQUIRED \u{2014} Last error: Unknown\nAnalyze the error above."));
    q.last_error = Some("Error: boom".to_string());
    assert!(build_system_prompt(&q, "/ws").contains("Last error: Error: boom\n"));
}

#[test]
fn run_finishes_on_plain_answer() {
    let (mut s, a) = start(3, false);
    assert!(matches!(a, Action::CallLlm { with_tools: true }));
    assert_eq!(s.history().len(), 2);
    assert_eq!(s.history()[0].role, Role::System);
    assert_eq!(
        s.history()[1].content.as_deref(),
        Some("Task: fix the bug\n\nBegin with Phase 1 \u{2014} explore the codebase and produce a plan.")
    );
    match s.step(reply_text("All done.")) {
        Action::Finish(t) => assert_eq!(t, "All done."),
        other => panic!("unexpected {other:?}"),
    }
    assert_eq!(s.stage(), Stage::Finished);
    assert_eq!(s.history().len(), 3);
}

#[test]
fn empty_reply_fails() {
    let (mut s, _) = start(3, true);
    match s.step(Event::LlmReplied(ChatResponse::from_parts(Some(String::new()), vec![], None))) {
        Action::Fail(m) => assert_eq!(m, "LLM returned neither content nor tool calls"),
        other => panic!("unexpected {other:?}"),
    }
}

#[test]
fn approved_tools_run_in_order_and_answers_follow() {
    let (mut s, _) = start(5, false);
    let a = s.step(reply_calls(vec![
        call("c1", "read_file", r#"{"path":"a.rs"}"#),
        call("c2", "nope", "{}"),
    ]));
    assert!(matches!(a, Action::AskHuman { iteration: 1 }));
    let shown = format_tool_calls(s.pending_calls());
    assert!(shown.contains("  Tool: read_file\n  Args: {"));
    assert!(shown.contains("\n---\n  Tool: nope\n  Args: {}"));

    match s.step(Event::Decided(HitlDecision::Approve)) {
        Action::RunTool { tool, arguments, args, workspace } => {
            assert_eq!(tool, ToolKind::ReadFile);
            assert_eq!(workspace, "/ws");
            assert_eq!(arguments, r#"{"path":"a.rs"}"#);
            assert_eq!(args.text_at("path").as_deref(), Some("a.rs"));
        }
        other => panic!("unexpected {other:?}"),
    }
    // the unknown tool is answered without being run, and the next iteration begins
    assert!(matches!(
        s.step(Event::ToolSucceeded("contents".into())),
        Action::CallLlm { with_tools: true }
    ));
    let h = s.history();
    assert_eq!(h.len(), 5);
    assert_eq!(h[2].role, Role::Assistant);
    assert_eq!(h[3].tool_call_id.as_deref(), Some("c1"));
    assert_eq!(h[3].content.as_deref(), Some("contents"));
    assert_eq!(h[4].tool_call_id.as_deref(), Some("c2"));
    assert_eq!(h[4].content.as_deref(), Some("Unknown tool: nope"));
    assert!(s.plan().reflection_needed);
    assert_eq!(s.plan().last_error.as_deref(), Some("Unknown tool: nope"));
    // the refreshed system prompt asks for reflection
    assert!(h[0].content.as_deref().unwrap().contains("Last error: Unknown tool: nope"));
}

#[test]
fn tool_failure_then_success_clears_reflection() {
    let (mut s, _) = start(5, true);
    assert!(matches!(
        s.step(reply_calls(vec![call("1", "bash_exec", r#"{"command":"false"}"#)])),
        Action::RunTool { tool: ToolKind::BashExec, .. }
    ));
    assert!(matches!(s.step(Event::ToolFailed("Missing command".into())), Action::CallLlm { with_tools: true }));
    assert_eq!(s.plan().last_error.as_deref(), Some("Error: Missing command"));
    assert_eq!(s.history().last().unwrap().content.as_deref(), Some("Error: Missing command"));
    assert!(s.history()[0]
        .content
        .as_deref()
        .unwrap()
        .ends_with("REFLECTION REQUIRED \u{2014} Last error: Error: Missing command\nAnalyze the error above. Identify the root cause. Propose a different approach. Do NOT repeat the same failing action."));
    s.step(reply_calls(vec![call("2", "list_files", r#"{"pattern":"*"}"#)]));
    s.step(Event::ToolSucceeded("a.rs".into()));
    assert!(!s.plan().reflection_needed);
    assert!(s.plan().last_error.is_none());
    assert!(!s.history()[0].content.as_deref().unwrap().contains("REFLECTION REQUIRED"));
}

#[test]
fn invalid_arguments_fail_the_run() {
    let (mut s, _) = start(5, true);
    match s.step(reply_calls(vec![call("1", "read_file", "{not json")])) {
        Action::Fail(m) => assert_eq!(m, "key must be a string at line 1 column 2"),
        other => panic!("unexpected {other:?}"),
    }
    assert_eq!(s.stage(), Stage::Finished);

    // a valid call runs first; the invalid one after it ends the run
    let (mut t, _) = start(5, true);
    assert!(matches!(
        t.step(reply_calls(vec![call("1", "list_files", r#"{"pattern":"*"}"#), call("2", "read_file", "")])),
        Action::RunTool { tool: ToolKind::ListFiles, .. }
    ));
    match t.step(Event::ToolSucceeded("a.rs".into())) {
        Action::Fail(m) => assert_eq!(m, "EOF while parsing a value at line 1 column 0"),
        other => panic!("unexpected {other:?}"),
    }
}

#[test]
fn rejection_replans_and_quit_stops() {
    let (mut s, _) = start(5, false);
    s.step(reply_calls(vec![call("1", "write_file", "{}")]));
    let a = s.step(Event::Decided(HitlDecision::Reject(Some("use quicksort".into()))));
    assert!(matches!(a, Action::CallLlm { with_tools: true }));
    assert!(s.plan().reflection_needed);
    assert_eq!(
        s.history().last().unwrap().content.as_deref(),
        Some("User rejected the proposed action. Feedback: use quicksort\nPlease propose a different approach.")
    );
    s.step(reply_calls(vec![call("2", "write_file", "{}")]));
    s.step(Event::Decided(HitlDecision::Reject(None)));
    assert_eq!(
        s.history().last().unwrap().content.as_deref(),
        Some("User rejected the proposed action. Please propose a different approach.")
    );
    s.step(reply_calls(vec![call("3", "write_file", "{}")]));
    match s.step(Event::Decided(HitlDecision::Quit)) {
        Action::Finish(t) => assert_eq!(t, "Agent terminated by user."),
        other => panic!("unexpected {other:?}"),
    }
}

#[test]
fn iterations_run_out_into_a_summary() {
    let (mut s, _) = start(1, true);
    s.step(reply_calls(vec![call("1", "list_files", r#"{"pattern":"*"}"#)]));
    let a = s.step(Event::ToolSucceeded("x".into()));
    assert!(matches!(a, Action::CallLlm { with_tools: false }));
    assert_eq!(s.stage(), Stage::AwaitingSummary);
    assert_eq!(
        s.history().last().unwrap().content.as_deref(),
        Some("Maximum iterations reached. Provide a summary of what was accomplished and what remains.")
    );
    match s.step(reply_text("did half")) {
        Action::Finish(t) => assert_eq!(t, "MAX_ITERATIONS_REACHED. did half"),
        other => panic!("unexpected {other:?}"),
    }

    let (mut z, a) = start(0, true);
    assert!(matches!(a, Action::CallLlm { with_tools: false }));
    match z.step(Event::LlmReplied(ChatResponse::from_parts(None, vec![], None))) {
        Action::Finish(t) => assert_eq!(t, "MAX_ITERATIONS_REACHED. No summary available."),
        other => panic!("unexpected {other:?}"),
    }
}

#[test]
fn auto_mode_never_asks_and_events_are_checked() {
    let (mut s, _) = start(2, true);
    assert!(!s.accepts(&Event::ToolSucceeded("x".into())));
    assert!(s.accepts(&Event::LlmFailed("x".into())));
    let a = s.step(reply_calls(vec![call("1", "read_file", "{}")]));
    assert!(!matches!(a, Action::AskHuman { .. }));
    assert!(s.accepts(&Event::ToolFailed("x".into())));
    assert!(!s.accepts(&Event::Decided(HitlDecision::Approve)));
}

#[test]
fn llm_failure_fails_the_run() {
    let (mut s, _) = start(2, false);
    match s.step(Event::LlmFailed("network down".into())) {
        Action::Fail(m) => assert_eq!(m, "network down"),
        other => panic!("unexpected {other:?}"),
    }
    assert!(!s.accepts(&Event::LlmFailed("again".into())));
}

#[test]
fn proposal_shows_invalid_json_verbatim() {
    let shown = format_tool_calls(&vec![call("1", "bash_exec", "{oops")]);
    assert_eq!(shown, "  Tool: bash_exec\n  Args: {oops");
    let shown = format_tool_calls(&vec![call("1", "bash_exec", r#"{"command":"ls"}"#)]);
    assert_eq!(shown, "  Tool: bash_exec\n  Args: {\n  \"command\": \"ls\"\n}");
    let shown = format_tool_calls(&vec![
        call("c1", "read_file", "not json"),
        call("c2", "list_files", "{}"),
    ]);
    assert_eq!(shown, "  Tool: read_file\n  Args: not json\n---\n  Tool: list_files\n  Args: {}");
    assert_eq!(format_tool_calls(&vec![]), "");
}

#[test]
fn config_rules() {
    let ok = Config::new(Some("k".into()), None, None, None, Ok("/ws".into())).unwrap();
    assert_eq!((ok.model.as_str(), ok.max_iterations, ok.workspace.as_str()), ("deepseek-chat", 20, "/ws"));
    let env = Config::new(None, Some("e".into()), Some("m".into()), Some(3), Ok("/w".into())).unwrap();
    assert_eq!((env.api_key.as_str(), env.model.as_str(), env.max_iterations), ("e", "m", 3));
    let empty = Config::new(Some(String::new()), Some("e".into()), None, None, Ok("/w".into()));
    assert!(matches!(empty, Err(ConfigError::MissingApiKey)));
    let none = Config::new(None, None, None, None, Err(("x".into(), "gone".into())));
    let e = none.unwrap_err();
    assert_eq!(e.message(), "DEEPSEEK_API_KEY not set. Use --api-key or set the env var.");
    let ws = Config::new(Some("k".into()), None, None, None, Err(("nowhere".into(), "No such file".into())));
    assert_eq!(ws.unwrap_err().message(), "Failed to canonicalize workspace path 'nowhere': No such file");
}

fn expected_prompt(objective: &str, workspace: &str, reflection: Option<Option<&str>>) -> String {
    let reflection = match reflection {
        Some(last_error) => format!(
            "\n\nREFLECTION REQUIRED \u{2014} Last error: {}\n\
             Analyze the error above. Identify the root cause. \
             Propose a different approach. Do NOT repeat the same failing action.",
            last_error.unwrap_or("Unknown")
        ),
        None => String::new(),
    };
    format!(
        "You are an expert software architect. Follow this protocol strictly:\n\
         \n\
         PHASE 1: ANALYSIS & PLANNING\n\
         1. Explore the codebase: use list_files and search_code to understand structure.\n\
         2. Read relevant files to understand the current implementation.\n\
         3. Produce a structured plan.\n\
         \n\
         PHASE 2: EXECUTION & VERIFICATION\n\
         1. Execute one step at a time using the appropriate tools.\n\
         2. After EVERY write_file, run test_verify to ensure correctness.\n\
         3. On failure: analyze the error, identify the root cause, propose a fix.\n\
            NEVER attempt the same failing approach twice.\n\
         4. Do NOT use bash_exec to run tests \u{2014} always use test_verify.\n\
         \n\
         PHASE 3: FINAL REVIEW\n\
         1. Run the full test suite with test_verify.\n\
         2. Summarize all changes made.\n\
         3. Do NOT call any more tools after the summary.\n\
         \n\
         Current objective: {}\n\
         Workspace: {}{}",
        objective, workspace, reflection,
    )
}

#[test]
fn system_prompt_text_is_exact() {
    let mut p = PlanState::new("Add pagination");
    assert_eq!(build_system_prompt(&p, "/srv/app"), expected_prompt("Add pagination", "/srv/app", None));
    p.reflection_needed = true;
    assert_eq!(build_system_prompt(&p, "/srv/app"), expected_prompt("Add pagination", "/srv/app", Some(None)));
    p.last_error = Some("Error: x".to_string());
    assert_eq!(
        build_system_prompt(&p, "/srv/app"),
        expected_prompt("Add pagination", "/srv/app", Some(Some("Error: x")))
    );
}

#[test]
fn reply_decoding_reads_first_choice() {
    let body = r#"{"choices":[{"message":{"content":"","tool_calls":[
        {"id":"c1","type":"function","function":{"name":"read_file","arguments":"{\"path\":\"a\"}"}},
        {"id":7,"function":{"name":"x","arguments":"{}"}},
        {"id":"c3","function":{"name":"list_files","arguments":"{}"}}
    ]},"finish_reason":"tool_calls"},{"message":{"content":"second"}}]}"#;
    let r = decode_chat_response(body).unwrap();
    assert!(r.content.is_none());
    assert_eq!(r.finish_reason.as_deref(), Some("tool_calls"));
    assert_eq!(r.tool_calls.len(), 2);
    assert_eq!(
        (r.tool_calls[0].id.as_str(), r.tool_calls[0].name.as_str(), r.tool_calls[0].arguments.as_str()),
        ("c1", "read_file", r#"{"path":"a"}"#)
    );
    assert_eq!(r.tool_calls[1].id, "c3");

    let text = decode_chat_response(r#"{"choices":[{"message":{"content":"done"}}]}"#).unwrap();
    assert_eq!(text.content.as_deref(), Some("done"));
    assert!(text.tool_calls.is_empty());
    assert!(text.finish_reason.is_none());
}

#[test]
fn reply_decoding_errors() {
    assert_eq!(decode_chat_response("not json").unwrap_err(), "error decoding response body");
    assert_eq!(
        decode_chat_response(r#"{"choices": [], "id": 1}"#).unwrap_err(),
        r#"No choices in DeepSeek API response: {"choices":[],"id":1}"#
    );
    assert_eq!(
        decode_chat_response("[1]").unwrap_err(),
        "No choices in DeepSeek API response: [1]"
    );
}

#[test]
fn reply_from_tree() {
    let call_tree = JsonTree::Object(vec![
        ("function".to_string(), JsonTree::Object(vec![
            ("arguments".to_string(), JsonTree::Text("{}".into())),
            ("name".to_string(), JsonTree::Text("bash_exec".into())),
        ])),
        ("id".to_string(), JsonTree::Text("k".into())),
    ]);
    let c = ToolCall::from_json(&call_tree).unwrap();
    assert_eq!((c.id.as_str(), c.name.as_str(), c.arguments.as_str()), ("k", "bash_exec", "{}"));
    assert!(ToolCall::from_json(&JsonTree::Null).is_none());

    let data = JsonTree::Object(vec![(
        "choices".to_string(),
        JsonTree::Array(vec![JsonTree::Object(vec![(
            "message".to_string(),
            JsonTree::Object(vec![
                ("content".to_string(), JsonTree::Text("hi".into())),
                ("tool_calls".to_string(), JsonTree::Array(vec![call_tree, JsonTree::Bool(true)])),
            ]),
        )])]),
    )]);
    let r = ChatResponse::from_json(&data).unwrap();
    assert_eq!(r.content.as_deref(), Some("hi"));
    assert_eq!(r.tool_calls.len(), 1);
    assert!(ChatResponse::from_json(&JsonTree::Array(vec![])).is_none());

    let n = JsonTree::Number("5".into(), Some(5));
    assert_eq!(n.as_u64(), Some(5));
    assert_eq!(JsonTree::Text("5".into()).as_u64(), None);
    assert_eq!(JsonTree::Text("t".into()).text().as_deref(), Some("t"));
    assert!(data.get("missing").is_none());
    assert!(JsonTree::Null.get("choices").is_none());
}

#[test]
fn model_is_asked_at_most_max_plus_one() {
    let (mut s, mut a) = start(2, true);
    let mut calls = 0;
    loop {
        let event = match a {
            Action::CallLlm { .. } => {
                calls += 1;
                reply_calls(vec![call("1", "list_files", r#"{"pattern":"*"}"#)])
            }
            Action::RunTool { .. } => Event::ToolSucceeded("a.rs".into()),
            Action::Finish(_) | Action::Fail(_) => break,
            Action::AskHuman { .. } => panic!("automatic mode asked the user"),
        };
        a = s.step(event);
    }
    assert_eq!(calls, 3);
}

#[test]
fn tools_wait_for_approval() {
    let (mut s, _) = start(3, false);
    let a = s.step(reply_calls(vec![call("1", "bash_exec", r#"{"command":"ls"}"#)]));
    assert!(matches!(a, Action::AskHuman { iteration: 1 }));
    assert!(!s.accepts(&Event::ToolSucceeded("x".into())));
    assert!(matches!(s.step(Event::Decided(HitlDecision::Approve)), Action::RunTool { .. }));
}
