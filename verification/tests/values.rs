use ai_butler::{
    default_api_url, default_request_limit, default_token_limit, format_with_commas,
    signed_decimal_text, ButlerConfig, Candidate, Content, FunctionCall, JsonValue, Part, Shade,
    ThemeColor,
};

fn obj(fields: Vec<(&str, JsonValue)>) -> JsonValue {
    JsonValue::Object(fields.into_iter().map(|(k, v)| (k.to_string(), v)).collect())
}

fn s(text: &str) -> JsonValue {
    JsonValue::Str(text.to_string())
}

#[test]
fn commas_group_thousands() {
    assert_eq!(format_with_commas(0), "0");
    assert_eq!(format_with_commas(7), "7");
    assert_eq!(format_with_commas(999), "999");
    assert_eq!(format_with_commas(1000), "1,000");
    assert_eq!(format_with_commas(1005), "1,005");
    assert_eq!(format_with_commas(12345), "12,345");
    assert_eq!(format_with_commas(4_000_000), "4,000,000");
    assert_eq!(format_with_commas(1_234_567_890), "1,234,567,890");
}

#[test]
fn commas_only_group_digits_on_examples() {
    for n in [0usize, 9, 10, 999, 1000, 1001, 65_536, 4_000_000, 123_456_789, usize::MAX] {
        let formatted = format_with_commas(n);
        let digits: String = formatted.chars().filter(|c| *c != ',').collect();
        assert_eq!(digits, n.to_string());
    }
    assert_eq!(format_with_commas(usize::MAX), "18,446,744,073,709,551,615");
}

#[test]
fn signed_decimal_matches_display() {
    for i in [0i32, 1, -1, 42, -42, 255, 127, i32::MAX, i32::MIN] {
        assert_eq!(signed_decimal_text(i), i.to_string());
    }
}

#[test]
fn defaults_of_a_new_configuration() {
    assert_eq!(default_token_limit(), 4_000_000);
    assert_eq!(default_request_limit(), 1_500);
    assert_eq!(
        default_api_url(),
        "https://generativelanguage.googleapis.com/v1beta/models/gemini-2.5-flash:generateContent?key={}"
    );
}

#[test]
fn onboarding_configuration() {
    let c = ButlerConfig::new("Ada".to_string(), "Jeeves".to_string(), "dry wit".to_string());
    assert_eq!(c.user_name, "Ada");
    assert_eq!(c.ai_name, "Jeeves");
    assert_eq!(c.vibe, "dry wit");
    assert_eq!(c.tokens_used, 0);
    assert_eq!(c.token_limit, 4_000_000);
    assert_eq!(c.requests_made, 0);
    assert_eq!(c.request_limit, 1_500);
    assert_eq!(c.api_url, default_api_url());
}

#[test]
fn palette_shades() {
    assert_eq!(ThemeColor::UserMessage.color(), Shade::Cyan);
    assert_eq!(ThemeColor::AiMessage.color(), Shade::LightMagenta);
    assert_eq!(ThemeColor::SystemMessage.color(), Shade::Yellow);
    assert_eq!(ThemeColor::StatusBarBg.color(), Shade::Indexed(234));
    assert_eq!(ThemeColor::ToolAccent.color(), Shade::Indexed(214));
    assert_eq!(ThemeColor::TokensNormal.color(), Shade::Green);
    assert_eq!(ThemeColor::TokensWarning.color(), Shade::Yellow);
    assert_eq!(ThemeColor::TokensCritical.color(), Shade::Red);
    assert_eq!(ThemeColor::LoadingIndicator.color(), Shade::LightYellow);
    assert_eq!(ThemeColor::InputBorder.color(), Shade::Blue);
    assert_eq!(ThemeColor::DenyAction.color(), Shade::Red);
    assert_eq!(ThemeColor::AllowAction.color(), Shade::Green);
    assert_eq!(ThemeColor::HintText.color(), Shade::Gray);
    assert_eq!(ThemeColor::ToolCommandPrefix.color(), Shade::DarkGray);
}

#[test]
fn json_field_lookup() {
    let args = obj(vec![("command", s("ls -la")), ("other", JsonValue::Null)]);
    assert_eq!(args.get("command"), Some(&s("ls -la")));
    assert_eq!(args.get("command").and_then(|v| v.as_str()), Some("ls -la"));
    assert_eq!(args.get("missing"), None);
    assert_eq!(args.get("other").and_then(|v| v.as_str()), None);
    assert_eq!(s("x").get("command"), None);
    assert_eq!(JsonValue::Array(vec![s("command")]).get("command"), None);
    // the first field of a name wins
    let twice = obj(vec![("k", s("first")), ("k", s("second"))]);
    assert_eq!(twice.get("k"), Some(&s("first")));
    assert_eq!(JsonValue::Number("3".to_string()).as_str(), None);
}

#[test]
fn json_copy_is_equal() {
    let doc = obj(vec![
        ("a", JsonValue::Array(vec![JsonValue::Bool(true), JsonValue::Number("1.5".to_string())])),
        ("b", obj(vec![("c", JsonValue::Null)])),
    ]);
    assert_eq!(doc.duplicate(), doc);
}

#[test]
fn model_copies_are_equal() {
    let turn = Content {
        role: "model".to_string(),
        parts: vec![
            Part { text: Some("hi".to_string()), function_call: None, function_response: None },
            Part {
                text: None,
                function_call: Some(FunctionCall {
                    name: "execute_shell_command".to_string(),
                    args: obj(vec![("command", s("pwd"))]),
                }),
                function_response: None,
            },
        ],
    };
    assert_eq!(turn.duplicate(), turn);
    let copies = ai_butler::duplicate_contents(&vec![turn.duplicate(), turn.duplicate()]);
    assert_eq!(copies.len(), 2);
    assert_eq!(copies[1], turn);
    let candidate = Candidate { content: None };
    assert_eq!(candidate, Candidate { content: None });
}
