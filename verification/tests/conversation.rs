use ai_butler::{
    decide_tool, function_call_error, shell_tool, tool_command, tool_result, ButlerConfig,
    Candidate, Content, FunctionCall, FunctionDeclaration, GeminiClient, GeminiResponse,
    JsonValue, Part, ReplyStep, Tool, ToolRun, UiEvent, UsageMetadata,
};
use tokio::sync::mpsc;

fn config() -> ButlerConfig {
    ButlerConfig::new("Ada".to_string(), "Jeeves".to_string(), "calm".to_string())
}

fn client() -> GeminiClient {
    let (tx, _rx) = mpsc::channel(10);
    GeminiClient::new("SECRET".to_string(), config(), tx)
}

fn obj(fields: Vec<(&str, JsonValue)>) -> JsonValue {
    JsonValue::Object(fields.into_iter().map(|(k, v)| (k.to_string(), v)).collect())
}

fn s(text: &str) -> JsonValue {
    JsonValue::Str(text.to_string())
}

fn text_part(t: &str) -> Part {
    Part { text: Some(t.to_string()), function_call: None, function_response: None }
}

fn call(command: &str) -> FunctionCall {
    FunctionCall { name: "execute_shell_command".to_string(), args: obj(vec![("command", s(command))]) }
}

fn answer(parts: Vec<Part>, tokens: Option<usize>) -> GeminiResponse {
    GeminiResponse {
        candidates: Some(vec![Candidate { content: Some(Content { role: "model".to_string(), parts }) }]),
        usage_metadata: Some(UsageMetadata { total_token_count: tokens }),
    }
}

fn error_text(e: &UiEvent) -> String {
    match e {
        UiEvent::AiError(t) => t.clone(),
        other => panic!("not an error notice: {:?}", other),
    }
}

#[test]
fn new_client_offers_the_shell_tool() {
    let c = client();
    assert!(c.history.is_empty());
    assert_eq!(c.api_key, "SECRET");
    assert_eq!(c.tools.len(), 1);
    assert_eq!(c.tools[0], shell_tool());
    let d: &FunctionDeclaration = &c.tools[0].function_declarations[0];
    assert_eq!(d.name, "execute_shell_command");
    assert_eq!(d.description, "Execute a shell command on the user's system.");
    let expected = obj(vec![
        ("type", s("OBJECT")),
        ("properties", obj(vec![("command", obj(vec![
            ("type", s("STRING")),
            ("description", s("The exact shell command to execute.")),
        ]))])),
        ("required", JsonValue::Array(vec![s("command")])),
    ]);
    assert_eq!(d.parameters, expected);
}

#[test]
fn limits_refuse_a_turn() {
    let mut c = client();
    c.config.tokens_used = 4_000_000;
    c.config.requests_made = 1_500;
    let e = c.begin_turn(Some("hi".to_string())).unwrap_err();
    assert_eq!(error_text(&e), "Token limit exceeded!");
    assert!(c.history.is_empty());
    c.config.tokens_used = 0;
    let e = c.begin_turn(Some("hi".to_string())).unwrap_err();
    assert_eq!(error_text(&e), "Request limit exceeded!");
    assert!(c.history.is_empty());
}

#[test]
fn a_prompt_opens_a_turn() {
    let mut c = client();
    match c.begin_turn(Some("What is up?".to_string())) {
        Ok(Some(UiEvent::AppendMessage(who, said))) => {
            assert_eq!(who, "Ada");
            assert_eq!(said, "What is up?");
        }
        other => panic!("unexpected {:?}", other),
    }
    assert_eq!(c.history, vec![Content { role: "user".to_string(), parts: vec![text_part("What is up?")] }]);
    assert!(matches!(c.begin_turn(None), Ok(None)));
    assert_eq!(c.history.len(), 1);
}

#[test]
fn request_carries_instruction_history_and_tools() {
    let mut c = client();
    let _ = c.begin_turn(Some("hello".to_string()));
    let r = c.build_request();
    assert_eq!(
        r.system_instruction,
        Some(Content {
            role: "user".to_string(),
            parts: vec![text_part(
                "Your name is Jeeves. The user's name is Ada. Your vibe and core instruction is: calm."
            )],
        })
    );
    assert_eq!(r.contents, c.history);
    assert_eq!(r.tools, Some(vec![shell_tool()]));
}

#[test]
fn request_url_fills_the_key() {
    let mut c = client();
    assert_eq!(
        c.request_url(),
        "https://generativelanguage.googleapis.com/v1beta/models/gemini-2.5-flash:generateContent?key=SECRET"
    );
    c.config.api_url = "http://proxy/{}/x?k={}&z={".to_string();
    assert_eq!(c.request_url(), "http://proxy/SECRET/x?k=SECRET&z={");
    c.config.api_url = "plain".to_string();
    assert_eq!(c.request_url(), "plain");
}

#[test]
fn failures_take_the_turn_back() {
    let mut c = client();
    let _ = c.begin_turn(Some("one".to_string()));
    let before = c.history.len();
    let _ = c.begin_turn(Some("two".to_string()));
    let e = c.network_failed("connection refused");
    assert_eq!(error_text(&e), "Network Error: connection refused");
    assert_eq!(c.history.len(), before);
    let _ = c.begin_turn(Some("three".to_string()));
    let e = c.request_failed("429 Too Many Requests", "{\"error\":1}");
    assert_eq!(error_text(&e), "API Request failed: 429 Too Many Requests - {\"error\":1}");
    assert_eq!(c.history, vec![Content { role: "user".to_string(), parts: vec![text_part("one")] }]);
    // with no turn left, nothing more is taken back
    let mut empty = client();
    let _ = empty.network_failed("x");
    assert!(empty.history.is_empty());
}

#[test]
fn an_answer_is_counted_and_split_into_steps() {
    let mut c = client();
    let _ = c.begin_turn(Some("list files".to_string()));
    let parts = vec![
        text_part("Sure."),
        Part { text: Some("Running it.".to_string()), function_call: Some(call("ls")), function_response: None },
    ];
    let out = c.accept_response(answer(parts, Some(120)));
    assert_eq!(c.config.requests_made, 1);
    assert_eq!(c.config.tokens_used, 120);
    assert!(matches!(out.usage, Some(UiEvent::UsageUpdate(120, 4_000_000, 1, 1_500))));
    let steps = out.reply.unwrap();
    assert_eq!(steps.len(), 3);
    assert!(matches!(&steps[0], ReplyStep::Say(w, t) if w == "Jeeves" && t == "Sure."));
    assert!(matches!(&steps[1], ReplyStep::Say(w, t) if w == "Jeeves" && t == "Running it."));
    assert!(matches!(&steps[2], ReplyStep::Call(f) if *f == call("ls")));
    assert_eq!(c.history.len(), 2);
    assert_eq!(c.history[1].role, "model");
}

#[test]
fn an_answer_without_usage_counts_only_the_request() {
    let mut c = client();
    let out = c.accept_response(GeminiResponse {
        candidates: Some(vec![Candidate { content: Some(Content { role: "model".to_string(), parts: vec![] }) }]),
        usage_metadata: None,
    });
    assert!(out.usage.is_none());
    assert_eq!(c.config.requests_made, 1);
    assert_eq!(c.config.tokens_used, 0);
    assert!(out.reply.unwrap().is_empty());
    let out = c.accept_response(answer(vec![], None));
    assert!(out.usage.is_none());
    assert_eq!(c.config.requests_made, 2);
}

#[test]
fn an_answer_without_content_takes_the_turn_back() {
    let mut c = client();
    let _ = c.begin_turn(Some("hello".to_string()));
    let out = c.accept_response(GeminiResponse {
        candidates: Some(vec![]),
        usage_metadata: Some(UsageMetadata { total_token_count: Some(7) }),
    });
    assert_eq!(error_text(&out.reply.unwrap_err()), "Failed to parse response");
    assert!(c.history.is_empty());
    assert_eq!(c.config.requests_made, 1);
    assert_eq!(c.config.tokens_used, 7);
    let out = c.accept_response(GeminiResponse {
        candidates: Some(vec![Candidate { content: None }]),
        usage_metadata: None,
    });
    assert!(out.reply.is_err());
    let out = c.accept_response(GeminiResponse { candidates: None, usage_metadata: None });
    assert!(out.reply.is_err());
    assert_eq!(c.config.requests_made, 3);
}

#[test]
fn tool_command_reads_the_command_argument() {
    assert_eq!(tool_command(&call("ls -la")), Some("ls -la".to_string()));
    let no_arg = FunctionCall { name: "execute_shell_command".to_string(), args: obj(vec![]) };
    assert_eq!(tool_command(&no_arg), Some(String::new()));
    let not_text = FunctionCall {
        name: "execute_shell_command".to_string(),
        args: obj(vec![("command", JsonValue::Number("5".to_string()))]),
    };
    assert_eq!(tool_command(&not_text), Some(String::new()));
    let other = FunctionCall { name: "something_else".to_string(), args: obj(vec![("command", s("ls"))]) };
    assert_eq!(tool_command(&other), None);
}

#[test]
fn commands_run_only_when_allowed() {
    let d = decide_tool("ls".to_string(), true);
    assert!(matches!(&d.notice, UiEvent::ToolExecuted(t) if t == "Executing: ls"));
    assert_eq!(d.run, Some("ls".to_string()));
    let d = decide_tool("rm -rf /".to_string(), false);
    assert!(matches!(&d.notice, UiEvent::ToolExecuted(t) if t == "Command execution denied."));
    assert_eq!(d.run, None);
}

#[test]
fn tool_results_as_json() {
    assert_eq!(tool_result(ToolRun::Denied), obj(vec![("error", s("User denied execution."))]));
    assert_eq!(
        tool_result(ToolRun::Failed("No such file".to_string())),
        obj(vec![("error", s("No such file"))])
    );
    assert_eq!(
        tool_result(ToolRun::Finished { stdout: "a\n".to_string(), stderr: String::new(), status: Some(0) }),
        obj(vec![("stdout", s("a\n")), ("stderr", s("")), ("status", JsonValue::Number("0".to_string()))])
    );
    assert_eq!(
        tool_result(ToolRun::Finished { stdout: String::new(), stderr: "boom".to_string(), status: Some(-2) }),
        obj(vec![("stdout", s("")), ("stderr", s("boom")), ("status", JsonValue::Number("-2".to_string()))])
    );
    assert_eq!(
        tool_result(ToolRun::Finished { stdout: String::new(), stderr: String::new(), status: None }),
        obj(vec![("stdout", s("")), ("stderr", s("")), ("status", JsonValue::Null)])
    );
}

#[test]
fn tool_results_join_the_history() {
    let mut c = client();
    c.record_tool_result("execute_shell_command".to_string(), ToolRun::Denied);
    assert_eq!(c.history.len(), 1);
    let turn = &c.history[0];
    assert_eq!(turn.role, "user");
    assert_eq!(turn.parts.len(), 1);
    let r = turn.parts[0].function_response.as_ref().unwrap();
    assert_eq!(r.name, "execute_shell_command");
    assert_eq!(r.response, obj(vec![("error", s("User denied execution."))]));
    assert!(turn.parts[0].text.is_none() && turn.parts[0].function_call.is_none());
}

#[test]
fn confirmation_request_names_the_assistant() {
    let c = client();
    let (tx, mut rx) = tokio::sync::oneshot::channel();
    let event = c.confirmation_request("ls", tx);
    match event {
        UiEvent::ToolPrompt(who, what, tx) => {
            assert_eq!(who, "Jeeves");
            assert_eq!(what, "ls");
            tx.send(true).unwrap();
            assert_eq!(rx.try_recv().unwrap(), true);
        }
        other => panic!("unexpected {:?}", other),
    }
}

#[test]
fn function_call_errors_are_notices() {
    assert_eq!(error_text(&function_call_error("boom")), "Function call error: boom");
}

#[test]
fn requests_stay_within_the_limit() {
    let mut c = client();
    c.config.request_limit = 2;
    let mut admitted = 0;
    for _ in 0..5 {
        if c.begin_turn(Some("go".to_string())).is_ok() {
            admitted += 1;
            let _ = c.accept_response(answer(vec![text_part("ok")], Some(1)));
        }
        assert!(c.config.requests_made <= c.config.request_limit);
    }
    assert_eq!(admitted, 2);
}

#[test]
fn usage_reaches_the_interface() {
    let (ui_tx, ui_rx) = mpsc::channel(10);
    let (api_tx, _api_rx) = mpsc::channel(10);
    let mut app = ai_butler::App::new(config(), ui_rx, api_tx);
    let mut c = GeminiClient::new("k".to_string(), config(), ui_tx);
    c.config.tokens_used = 900;
    let out = c.accept_response(answer(vec![text_part("hi")], Some(100)));
    app.handle_ui_event(out.usage.unwrap());
    assert_eq!(app.config.tokens_used, c.config.tokens_used);
    assert_eq!(app.config.requests_made, c.config.requests_made);
    assert_eq!(app.config.token_limit, c.config.token_limit);
    assert_eq!(app.config.request_limit, c.config.request_limit);
    assert_eq!(app.config.tokens_used, 1000);
}

#[test]
fn tool_declaration_roundtrip() {
    let t: Tool = shell_tool();
    assert_eq!(t.duplicate(), t);
    assert_eq!(ai_butler::duplicate_tools(&vec![shell_tool()]), vec![t]);
}

#[test]
fn request_ends_with_the_new_prompt() {
    let mut c = client();
    let _ = c.begin_turn(Some("first".to_string()));
    let _ = c.accept_response(answer(vec![text_part("reply")], Some(3)));
    let _ = c.begin_turn(Some("second".to_string()));
    let r = c.build_request();
    assert_eq!(r.contents.len(), 3);
    assert_eq!(r.contents[2], Content { role: "user".to_string(), parts: vec![text_part("second")] });
    assert_eq!(r.contents[0], Content { role: "user".to_string(), parts: vec![text_part("first")] });
}

#[test]
fn a_run_keeps_settings_and_counters_only_rise() {
    let mut c = client();
    let tools_before = c.tools.len();
    let mut seen = vec![(c.config.tokens_used, c.config.requests_made)];
    let _ = c.begin_turn(Some("one".to_string()));
    seen.push((c.config.tokens_used, c.config.requests_made));
    let _ = c.accept_response(answer(vec![Part { text: None, function_call: Some(call("ls")), function_response: None }], Some(5)));
    seen.push((c.config.tokens_used, c.config.requests_made));
    c.record_tool_result("execute_shell_command".to_string(), ToolRun::Denied);
    let _ = c.begin_turn(None);
    let _ = c.network_failed("down");
    seen.push((c.config.tokens_used, c.config.requests_made));
    for w in seen.windows(2) {
        assert!(w[1].0 >= w[0].0 && w[1].1 >= w[0].1);
    }
    assert_eq!(c.api_key, "SECRET");
    assert_eq!(c.tools.len(), tools_before);
    assert_eq!(c.config.user_name, "Ada");
    assert_eq!(c.config.token_limit, 4_000_000);
    assert_eq!(c.config.request_limit, 1_500);
}
