use ai_butler::{
    is_exit_command, App, AppState, ButlerConfig, Key, KeyAction, KeyOutcome, KeyPress, Speaker, ThemeColor,
    UiEvent,
};
use tokio::sync::{mpsc, oneshot};

fn config() -> ButlerConfig {
    ButlerConfig::new("Ada".to_string(), "Jeeves".to_string(), "calm".to_string())
}

fn fresh() -> (App, mpsc::Sender<UiEvent>, mpsc::Receiver<String>) {
    let (ui_tx, ui_rx) = mpsc::channel(100);
    let (api_tx, api_rx) = mpsc::channel(100);
    (App::new(config(), ui_rx, api_tx), ui_tx, api_rx)
}

fn press(key: Key) -> KeyPress {
    KeyPress { key, control: false }
}

fn texts(app: &App) -> Vec<(String, String)> {
    app.messages.clone()
}

#[test]
fn new_interface_is_idle() {
    let (app, _ui, _api) = fresh();
    assert!(app.messages.is_empty());
    assert!(!app.is_loading);
    assert!(matches!(app.state, AppState::Normal));
    assert_eq!(app.frame, 0);
    assert_eq!(app.config, config());
}

#[test]
fn events_update_the_interface() {
    let (mut app, _ui, _api) = fresh();
    app.handle_ui_event(UiEvent::AppendMessage("Ada".to_string(), "hello".to_string()));
    app.handle_ui_event(UiEvent::AiError("Token limit exceeded!".to_string()));
    app.handle_ui_event(UiEvent::ToolExecuted("Executing: ls".to_string()));
    assert_eq!(
        texts(&app),
        vec![
            ("Ada".to_string(), "hello".to_string()),
            ("System".to_string(), "Token limit exceeded!".to_string()),
            ("System".to_string(), "Executing: ls".to_string()),
        ]
    );
    app.handle_ui_event(UiEvent::UsageUpdate(10, 20, 3, 4));
    assert_eq!(
        (app.config.tokens_used, app.config.token_limit, app.config.requests_made, app.config.request_limit),
        (10, 20, 3, 4)
    );
    assert_eq!(app.config.user_name, "Ada");
    app.is_loading = true;
    app.handle_ui_event(UiEvent::FinishedLoading);
    assert!(!app.is_loading);
}

#[test]
fn events_arrive_through_the_channel() {
    let (mut app, ui, _api) = fresh();
    assert!(app.next_event().is_none());
    ui.try_send(UiEvent::FinishedLoading).unwrap();
    assert!(matches!(app.next_event(), Some(UiEvent::FinishedLoading)));
    assert!(app.next_event().is_none());
}

fn nothing(action: &KeyAction) -> bool {
    matches!(action, KeyAction::Nothing)
}

#[test]
fn escape_and_control_c_quit() {
    let (mut app, _ui, _api) = fresh();
    let (o, a) = app.handle_key(press(Key::Esc), "draft");
    assert_eq!(o, KeyOutcome::Quit);
    assert!(nothing(&a));
    let (o, a) = app.handle_key(KeyPress { key: Key::Char('c'), control: true }, "draft");
    assert_eq!(o, KeyOutcome::Quit);
    assert!(nothing(&a));
    let (o, a) = app.handle_key(press(Key::Char('c')), "");
    assert_eq!(o, KeyOutcome::EditInput);
    assert!(nothing(&a));
}

#[test]
fn enter_sends_the_line() {
    let (mut app, _ui, _api) = fresh();
    let (o, a) = app.handle_key(press(Key::Enter), "");
    assert_eq!(o, KeyOutcome::Ignored);
    assert!(nothing(&a));
    assert!(!app.is_loading);
    let (o, a) = app.handle_key(press(Key::Enter), "What time is it?");
    assert_eq!(o, KeyOutcome::Submitted);
    assert!(matches!(&a, KeyAction::SendPrompt(p) if p == "What time is it?"));
    assert!(app.is_loading);
    // while an answer is coming, Enter goes to the input line and nothing is sent
    let (o, a) = app.handle_key(press(Key::Enter), "more");
    assert_eq!(o, KeyOutcome::EditInput);
    assert!(nothing(&a));
}

#[test]
fn exit_word_quits() {
    let (mut app, _ui, _api) = fresh();
    let (o, a) = app.handle_key(press(Key::Enter), "ExIt");
    assert_eq!(o, KeyOutcome::Quit);
    assert!(nothing(&a));
    assert!(is_exit_command("exit"));
    assert!(is_exit_command("EXIT"));
    assert!(!is_exit_command("exit "));
    assert!(!is_exit_command("exi"));
    assert!(!is_exit_command("éxit"));
    assert!(!is_exit_command(""));
}

#[test]
fn confirmation_allows_only_on_y_or_enter() {
    for (key, allowed) in [
        (Key::Char('y'), true),
        (Key::Char('Y'), true),
        (Key::Enter, true),
        (Key::Char('n'), false),
        (Key::Esc, false),
        (Key::Other, false),
    ] {
        let (mut app, _ui, _api) = fresh();
        let (tx, mut rx) = oneshot::channel();
        app.handle_ui_event(UiEvent::ToolPrompt("Jeeves".to_string(), "rm -rf /tmp/x".to_string(), tx));
        assert_eq!(app.input_height(), 6);
        assert_eq!(
            app.tool_prompt_title().as_deref(),
            Some("Jeeves wants to execute a shell command:")
        );
        let (o, a) = app.handle_key(press(key), "typed");
        assert_eq!(o, KeyOutcome::Answered(allowed));
        match a {
            KeyAction::Deliver(t, b) => {
                assert_eq!(b, allowed);
                t.send(b).unwrap();
            }
            other => panic!("unexpected {:?}", other),
        }
        assert_eq!(rx.try_recv().unwrap(), allowed);
        assert!(matches!(app.state, AppState::Normal));
        assert_eq!(app.input_height(), 3);
        assert_eq!(app.tool_prompt_title(), None);
    }
}

#[test]
fn frames_wrap_around() {
    let (mut app, _ui, _api) = fresh();
    app.tick();
    assert_eq!(app.frame, 1);
    app.frame = usize::MAX;
    app.tick();
    assert_eq!(app.frame, 0);
}

#[test]
fn speakers_and_icons() {
    let (app, _ui, _api) = fresh();
    assert_eq!(app.speaker("Ada"), Speaker::User);
    assert_eq!(app.speaker("System"), Speaker::System);
    assert_eq!(app.speaker("Jeeves"), Speaker::Assistant);
    assert_eq!(Speaker::User.icon(), "👤");
    assert_eq!(Speaker::System.icon(), "⚙️");
    assert_eq!(Speaker::Assistant.icon(), "🤖");
    assert_eq!(Speaker::User.theme(), ThemeColor::UserMessage);
    assert_eq!(Speaker::System.theme(), ThemeColor::SystemMessage);
    assert_eq!(Speaker::Assistant.theme(), ThemeColor::AiMessage);
}

#[test]
fn usage_colour_thresholds() {
    let (mut app, _ui, _api) = fresh();
    app.config.token_limit = 1000;
    for (used, theme) in [
        (0, ThemeColor::TokensNormal),
        (500, ThemeColor::TokensNormal),
        (501, ThemeColor::TokensWarning),
        (800, ThemeColor::TokensWarning),
        (801, ThemeColor::TokensCritical),
        (5000, ThemeColor::TokensCritical),
    ] {
        app.config.tokens_used = used;
        assert_eq!(app.usage_theme(), theme);
    }
}

#[test]
fn spinner_and_loading_notice() {
    let (mut app, _ui, _api) = fresh();
    assert_eq!(app.spinner(), "");
    assert_eq!(app.loading_message(), "");
    app.is_loading = true;
    let frames = ["⠋", "⠙", "⠹", "⠸", "⠼", "⠴", "⠦", "⠧", "⠇", "⠏"];
    for f in 0..40usize {
        app.frame = f;
        assert_eq!(app.spinner(), frames[(f / 2) % 10]);
    }
    app.frame = 5;
    assert_eq!(app.loading_message(), " │ ⠹ Thinking...");
}

#[test]
fn status_figures_use_separators() {
    let (mut app, _ui, _api) = fresh();
    app.config.tokens_used = 1_234_567;
    app.config.requests_made = 12;
    let f = app.status_figures();
    assert_eq!(f.tokens_used, "1,234,567");
    assert_eq!(f.token_limit, " / 4,000,000 ");
    assert_eq!(f.requests_made, "12");
    assert_eq!(f.request_limit, " / 1,500 ");
}

#[test]
fn messages_only_grow_over_a_run() {
    let (mut app, _ui, _api) = fresh();
    let mut snapshots = vec![texts(&app)];
    app.handle_ui_event(UiEvent::AppendMessage("Ada".to_string(), "hi".to_string()));
    snapshots.push(texts(&app));
    let _ = app.handle_key(press(Key::Enter), "next");
    snapshots.push(texts(&app));
    app.handle_ui_event(UiEvent::UsageUpdate(1, 2, 3, 4));
    app.tick();
    snapshots.push(texts(&app));
    app.handle_ui_event(UiEvent::AiError("oops".to_string()));
    snapshots.push(texts(&app));
    for i in 0..snapshots.len() {
        for j in i..snapshots.len() {
            assert!(snapshots[j].starts_with(&snapshots[i]));
        }
    }
    assert_eq!(snapshots.last().unwrap().len(), 2);
}
