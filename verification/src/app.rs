use vstd::prelude::*;

use tokio::sync::{mpsc, oneshot};

use crate::channels::poll_event;
use crate::config::ButlerConfig;
use crate::text::{format_with_commas, str_equal, with_commas};
use crate::theme::ThemeColor;

verus! {

/// What the assistant's side tells the interface.
#[derive(Debug)]
pub enum UiEvent {
    /// A message to show: speaker, then text.
    AppendMessage(String, String),
    /// An error to show as a system message.
    AiError(String),
    /// New usage figures: tokens used, token limit, requests made, request limit.
    UsageUpdate(usize, usize, usize, usize),
    /// The assistant (named first) asks to run a shell command (second); the decision
    /// goes back through the channel.
    ToolPrompt(String, String, oneshot::Sender<bool>),
    /// A notice about a tool run, shown as a system message.
    ToolExecuted(String),
    /// The assistant has finished answering.
    FinishedLoading,
}

/// What the interface is doing.
#[derive(Debug)]
pub enum AppState {
    /// Taking messages.
    Normal,
    /// Asking the user to allow or deny a shell command.
    WaitingForTool { ai_name: String, cmd: String, tx: Option<oneshot::Sender<bool>> },
}

/// The keys that the interface tells apart.
#[derive(Clone, Copy, Debug, PartialEq, Eq, Structural)]
pub enum Key {
    Esc,
    Enter,
    Char(char),
    Other,
}

/// A key press, with whether Control was held.
#[derive(Clone, Copy, Debug, PartialEq, Eq, Structural)]
pub struct KeyPress {
    pub key: Key,
    pub control: bool,
}

/// What a key press asks the terminal loop to do.
#[derive(Clone, Copy, Debug, PartialEq, Eq, Structural)]
pub enum KeyOutcome {
    /// Leave the application.
    Quit,
    /// The typed message was sent to the assistant: clear the input line.
    Submitted,
    /// Hand the key to the input line, which edits its text.
    EditInput,
    /// Nothing to do.
    Ignored,
    /// The user's decision on a shell command was delivered.
    Answered(bool),
}

/// What must go over a channel after a key press.
#[derive(Debug)]
pub enum KeyAction {
    /// Nothing is sent.
    Nothing,
    /// Offer this prompt to the assistant on the prompt channel.
    SendPrompt(String),
    /// Send this decision on this confirmation channel.
    Deliver(oneshot::Sender<bool>, bool),
}

/// Who a message comes from, as the message list shows it.
#[derive(Clone, Copy, Debug, PartialEq, Eq, Structural)]
pub enum Speaker {
    User,
    System,
    Assistant,
}

/// The state of the terminal interface.
pub struct App {
    /// The conversation shown so far: speaker and text.
    pub messages: Vec<(String, String)>,
    pub config: ButlerConfig,
    /// Whether a prompt is being answered.
    pub is_loading: bool,
    pub state: AppState,
    pub ui_rx: mpsc::Receiver<UiEvent>,
    pub api_tx: mpsc::Sender<String>,
    /// Animation frame counter.
    pub frame: usize,
}

/// A configuration with its four usage figures replaced.
pub open spec fn with_usage(
    config: ButlerConfig,
    tokens_used: usize,
    token_limit: usize,
    requests_made: usize,
    request_limit: usize,
) -> ButlerConfig {
    ButlerConfig { tokens_used, token_limit, requests_made, request_limit, ..config }
}

/// The speaker name of system notices.
pub open spec fn system_role() -> Seq<char> {
    "System"@
}

/// The texts of a message list.
pub open spec fn messages_view(m: Seq<(String, String)>) -> Seq<(Seq<char>, Seq<char>)> {
    m.map_values(|p: (String, String)| (p.0@, p.1@))
}

/// Whether a message list is an earlier state of another: the later one only adds
/// messages at the end.
pub open spec fn messages_grow(earlier: Seq<(String, String)>, later: Seq<(String, String)>) -> bool {
    messages_view(earlier).is_prefix_of(messages_view(later))
}

/// Whether a key leaves the application while messages are being typed:
/// Esc, or Control-C.
pub open spec fn is_quit_key(k: KeyPress) -> bool {
    k.key == Key::Esc || (k.control && k.key == Key::Char('c'))
}

/// Whether a key allows a shell command: `y`, `Y` or Enter; any other key denies.
pub open spec fn is_allow_key(k: KeyPress) -> bool {
    k.key == Key::Char('y') || k.key == Key::Char('Y') || k.key == Key::Enter
}

/// A character with ASCII capitals made lower case.
pub open spec fn ascii_lower(c: char) -> char {
    if 'A' <= c && c <= 'Z' {
        ((c as u32) + 32) as char
    } else {
        c
    }
}

/// Whether a typed message is the word `exit`, in any mix of ASCII case.
pub open spec fn is_exit_word(s: Seq<char>) -> bool {
    &&& s.len() == 4
    &&& ascii_lower(s[0]) == 'e'
    &&& ascii_lower(s[1]) == 'x'
    &&& ascii_lower(s[2]) == 'i'
    &&& ascii_lower(s[3]) == 't'
}

fn lower_ascii(c: char) -> (l: char)
    ensures
        l == ascii_lower(c),
{
    if 'A' <= c && c <= 'Z' {
        let code: u32 = (c as u32) + 32;
        let b: u8 = code as u8;
        b as char
    } else {
        c
    }
}

/// Whether `s` equals `exit` ignoring ASCII case, as `str::eq_ignore_ascii_case` decides.
pub fn is_exit_command(s: &str) -> (exit: bool)
    ensures
        exit == is_exit_word(s@),
{
    if s.unicode_len() != 4 {
        return false;
    }
    lower_ascii(s.get_char(0)) == 'e' && lower_ascii(s.get_char(1)) == 'x' && lower_ascii(
        s.get_char(2),
    ) == 'i' && lower_ascii(s.get_char(3)) == 't'
}

impl App {
    /// A fresh interface: no messages, not loading, taking messages, at frame zero.
    pub fn new(config: ButlerConfig, ui_rx: mpsc::Receiver<UiEvent>, api_tx: mpsc::Sender<String>) -> (app: App)
        ensures
            app.messages@.len() == 0,
            app.config == config,
            !app.is_loading,
            app.state is Normal,
            app.ui_rx == ui_rx,
            app.api_tx == api_tx,
            app.frame == 0,
    {
        App {
            messages: Vec::new(),
            config,
            is_loading: false,
            state: AppState::Normal,
            ui_rx,
            api_tx,
            frame: 0,
        }
    }

    /// The next event that the assistant's side has sent, if one is waiting.
    pub fn next_event(&mut self) -> (event: Option<UiEvent>)
        ensures
            final(self).messages == old(self).messages,
            messages_grow(old(self).messages@, final(self).messages@),
            final(self).config == old(self).config,
            final(self).is_loading == old(self).is_loading,
            final(self).state == old(self).state,
            final(self).api_tx == old(self).api_tx,
            final(self).frame == old(self).frame,
    {
        poll_event(&mut self.ui_rx)
    }
}

impl App {
    /// Applies an event from the assistant's side: a message or a notice joins the
    /// list, usage figures replace the counters, a tool request opens the
    /// confirmation panel, and the end of an answer stops the loading indicator.
    pub fn handle_ui_event(&mut self, event: UiEvent)
        ensures
            final(self).frame == old(self).frame,
            final(self).ui_rx == old(self).ui_rx,
            final(self).api_tx == old(self).api_tx,
            messages_grow(old(self).messages@, final(self).messages@),
            match event {
                UiEvent::AppendMessage(role, text) => {
                    &&& final(self).messages@ == old(self).messages@.push((role, text))
                    &&& final(self).config == old(self).config
                    &&& final(self).is_loading == old(self).is_loading
                    &&& final(self).state == old(self).state
                },
                UiEvent::AiError(note) | UiEvent::ToolExecuted(note) => {
                    &&& messages_view(final(self).messages@) == messages_view(
                        old(self).messages@,
                    ).push((system_role(), note@))
                    &&& final(self).config == old(self).config
                    &&& final(self).is_loading == old(self).is_loading
                    &&& final(self).state == old(self).state
                },
                UiEvent::UsageUpdate(tokens_used, token_limit, requests_made, request_limit) => {
                    &&& final(self).messages == old(self).messages
                    &&& final(self).config == with_usage(
                        old(self).config,
                        tokens_used,
                        token_limit,
                        requests_made,
                        request_limit,
                    )
                    &&& final(self).is_loading == old(self).is_loading
                    &&& final(self).state == old(self).state
                },
                UiEvent::ToolPrompt(ai_name, cmd, tx) => {
                    &&& final(self).messages == old(self).messages
                    &&& final(self).config == old(self).config
                    &&& final(self).is_loading == old(self).is_loading
                    &&& final(self).state == (AppState::WaitingForTool { ai_name, cmd, tx: Some(tx) })
                },
                UiEvent::FinishedLoading => {
                    &&& final(self).messages == old(self).messages
                    &&& final(self).config == old(self).config
                    &&& !final(self).is_loading
                    &&& final(self).state == old(self).state
                },
            },
    {
        match event {
            UiEvent::AppendMessage(role, text) => {
                self.messages.push((role, text));
                assert(messages_view(self.messages@) =~= messages_view(old(self).messages@).push(
                    (role@, text@),
                ));
            },
            UiEvent::AiError(note) => {
                self.messages.push((String::from_str("System"), note));
                assert(messages_view(self.messages@) =~= messages_view(old(self).messages@).push(
                    (system_role(), note@),
                ));
            },
            UiEvent::UsageUpdate(tokens_used, token_limit, requests_made, request_limit) => {
                self.config.tokens_used = tokens_used;
                self.config.token_limit = token_limit;
                self.config.requests_made = requests_made;
                self.config.request_limit = request_limit;
            },
            UiEvent::ToolPrompt(ai_name, cmd, tx) => {
                self.state = AppState::WaitingForTool { ai_name, cmd, tx: Some(tx) };
            },
            UiEvent::ToolExecuted(note) => {
                self.messages.push((String::from_str("System"), note));
                assert(messages_view(self.messages@) =~= messages_view(old(self).messages@).push(
                    (system_role(), note@),
                ));
            },
            UiEvent::FinishedLoading => {
                self.is_loading = false;
            },
        }
    }

    /// Decides what a key press does, and what goes over a channel because of it.
    /// While messages are being typed, Esc or Control-C quits; Enter offers the typed
    /// text (`input`) to the assistant unless an answer is still coming, the line is
    /// empty, or it says `exit`, which quits; every other key edits the line. While a
    /// shell command waits for confirmation, `y`, `Y` or Enter allows it, any other key
    /// denies it, the decision goes back on the prompt's own channel, and the panel
    /// closes. Nothing is sent in any other case.
    pub fn handle_key(&mut self, key: KeyPress, input: &str) -> (result: (KeyOutcome, KeyAction))
        ensures
            final(self).messages == old(self).messages,
            messages_grow(old(self).messages@, final(self).messages@),
            final(self).config == old(self).config,
            final(self).ui_rx == old(self).ui_rx,
            final(self).api_tx == old(self).api_tx,
            final(self).frame == old(self).frame,
            (result.1 is SendPrompt) <==> (result.0 == KeyOutcome::Submitted),
            result.1 matches KeyAction::SendPrompt(p) ==> p@ == input@,
            match old(self).state {
                AppState::Normal => {
                    &&& final(self).state is Normal
                    &&& !(result.1 is Deliver)
                    &&& if is_quit_key(key) {
                        result.0 == KeyOutcome::Quit && final(self).is_loading == old(self).is_loading
                    } else if key.key == Key::Enter && !old(self).is_loading {
                        if input@.len() == 0 {
                            result.0 == KeyOutcome::Ignored && !final(self).is_loading
                        } else if is_exit_word(input@) {
                            result.0 == KeyOutcome::Quit && !final(self).is_loading
                        } else {
                            result.0 == KeyOutcome::Submitted && final(self).is_loading
                        }
                    } else {
                        result.0 == KeyOutcome::EditInput && final(self).is_loading
                            == old(self).is_loading
                    }
                },
                AppState::WaitingForTool { tx, .. } => {
                    &&& final(self).state is Normal
                    &&& final(self).is_loading == old(self).is_loading
                    &&& match tx {
                        Some(s) => {
                            &&& result.0 == KeyOutcome::Answered(is_allow_key(key))
                            &&& result.1 matches KeyAction::Deliver(t, allow)
                            &&& t == s
                            &&& allow == is_allow_key(key)
                        },
                        None => result.0 == KeyOutcome::Ignored && result.1 is Nothing,
                    }
                },
            },
    {
        if let AppState::Normal = self.state {
            if key.key == Key::Esc || (key.control && key.key == Key::Char('c')) {
                return (KeyOutcome::Quit, KeyAction::Nothing);
            }
            if key.key == Key::Enter && !self.is_loading {
                if input.unicode_len() == 0 {
                    return (KeyOutcome::Ignored, KeyAction::Nothing);
                }
                if is_exit_command(input) {
                    return (KeyOutcome::Quit, KeyAction::Nothing);
                }
                self.is_loading = true;
                (KeyOutcome::Submitted, KeyAction::SendPrompt(String::from_str(input)))
            } else {
                (KeyOutcome::EditInput, KeyAction::Nothing)
            }
        } else {
            let allow = key.key == Key::Char('y') || key.key == Key::Char('Y') || key.key
                == Key::Enter;
            let mut previous = AppState::Normal;
            std::mem::swap(&mut previous, &mut self.state);
            match previous {
                AppState::WaitingForTool { tx: Some(tx), .. } => {
                    (KeyOutcome::Answered(allow), KeyAction::Deliver(tx, allow))
                },
                _ => (KeyOutcome::Ignored, KeyAction::Nothing),
            }
        }
    }

    /// Advances the animation by one frame, wrapping around at the end of `usize`.
    pub fn tick(&mut self)
        ensures
            final(self).frame == (if old(self).frame == usize::MAX {
                0
            } else {
                old(self).frame + 1
            }),
            final(self).messages == old(self).messages,
            messages_grow(old(self).messages@, final(self).messages@),
            final(self).config == old(self).config,
            final(self).is_loading == old(self).is_loading,
            final(self).state == old(self).state,
            final(self).ui_rx == old(self).ui_rx,
            final(self).api_tx == old(self).api_tx,
    {
        self.frame = self.frame.wrapping_add(1);
    }
}

/// The figures of the status bar, formatted with thousands separators.
#[derive(Clone, Debug, PartialEq, Eq)]
pub struct StatusFigures {
    /// The tokens used.
    pub tokens_used: String,
    /// The token limit, as ` / limit `.
    pub token_limit: String,
    /// The requests made.
    pub requests_made: String,
    /// The request limit, as ` / limit `.
    pub request_limit: String,
}

/// A limit as the status bar shows it after a count: ` / limit `.
pub open spec fn limit_text(limit: nat) -> Seq<char> {
    " / "@ + with_commas(limit) + " "@
}

/// The spinner glyph for step `i` of its ten-step cycle.
pub open spec fn spinner_glyph(i: nat) -> Seq<char> {
    if i == 0 {
        "⠋"@
    } else if i == 1 {
        "⠙"@
    } else if i == 2 {
        "⠹"@
    } else if i == 3 {
        "⠸"@
    } else if i == 4 {
        "⠼"@
    } else if i == 5 {
        "⠴"@
    } else if i == 6 {
        "⠦"@
    } else if i == 7 {
        "⠧"@
    } else if i == 8 {
        "⠇"@
    } else {
        "⠏"@
    }
}

/// The colour of the token count: critical above eight tenths of the limit, a
/// warning above half of it, normal otherwise (tenths and halves rounded down).
pub open spec fn usage_theme_of(tokens_used: nat, token_limit: nat) -> ThemeColor {
    if tokens_used > token_limit * 8 / 10 {
        ThemeColor::TokensCritical
    } else if tokens_used > token_limit / 2 {
        ThemeColor::TokensWarning
    } else {
        ThemeColor::TokensNormal
    }
}

/// The title line of the confirmation panel.
pub open spec fn tool_prompt_title_of(ai_name: Seq<char>) -> Seq<char> {
    ai_name + " wants to execute a shell command:"@
}

/// The loading notice of the status bar at a given frame.
pub open spec fn loading_message_of(frame: nat) -> Seq<char> {
    " │ "@ + spinner_glyph((frame / 2) % 10) + " Thinking..."@
}

impl Speaker {
    /// The icon in front of the speaker's name.
    pub fn icon(&self) -> (icon: &'static str)
        ensures
            icon@ == match *self {
                Speaker::User => "👤"@,
                Speaker::System => "⚙️"@,
                Speaker::Assistant => "🤖"@,
            },
    {
        match self {
            Speaker::User => "👤",
            Speaker::System => "⚙️",
            Speaker::Assistant => "🤖",
        }
    }

    /// The palette element of the speaker's name.
    pub fn theme(&self) -> (theme: ThemeColor)
        ensures
            theme == match *self {
                Speaker::User => ThemeColor::UserMessage,
                Speaker::System => ThemeColor::SystemMessage,
                Speaker::Assistant => ThemeColor::AiMessage,
            },
    {
        match self {
            Speaker::User => ThemeColor::UserMessage,
            Speaker::System => ThemeColor::SystemMessage,
            Speaker::Assistant => ThemeColor::AiMessage,
        }
    }
}

fn spinner_frame(i: usize) -> (glyph: &'static str)
    requires
        i < 10,
    ensures
        glyph@ == spinner_glyph(i as nat),
{
    if i == 0 {
        "⠋"
    } else if i == 1 {
        "⠙"
    } else if i == 2 {
        "⠹"
    } else if i == 3 {
        "⠸"
    } else if i == 4 {
        "⠼"
    } else if i == 5 {
        "⠴"
    } else if i == 6 {
        "⠦"
    } else if i == 7 {
        "⠧"
    } else if i == 8 {
        "⠇"
    } else {
        "⠏"
    }
}

impl App {
    /// The height of the bottom panel: six rows for the confirmation panel, three for
    /// the input line.
    pub fn input_height(&self) -> (rows: u16)
        ensures
            rows == (if self.state is WaitingForTool {
                6u16
            } else {
                3u16
            }),
    {
        match self.state {
            AppState::WaitingForTool { .. } => 6,
            AppState::Normal => 3,
        }
    }

    /// Who a message's speaker is: the configured user, the system, or else the assistant.
    pub fn speaker(&self, role: &str) -> (who: Speaker)
        ensures
            who == (if role@ == self.config.user_name@ {
                Speaker::User
            } else if role@ == system_role() {
                Speaker::System
            } else {
                Speaker::Assistant
            }),
    {
        if str_equal(role, self.config.user_name.as_str()) {
            Speaker::User
        } else if str_equal(role, "System") {
            Speaker::System
        } else {
            Speaker::Assistant
        }
    }

    /// The palette element of the token count.
    pub fn usage_theme(&self) -> (theme: ThemeColor)
        requires
            self.config.token_limit * 8 <= usize::MAX,
        ensures
            theme == usage_theme_of(self.config.tokens_used as nat, self.config.token_limit as nat),
    {
        if self.config.tokens_used > self.config.token_limit * 8 / 10 {
            ThemeColor::TokensCritical
        } else if self.config.tokens_used > self.config.token_limit / 2 {
            ThemeColor::TokensWarning
        } else {
            ThemeColor::TokensNormal
        }
    }

    /// The usage figures of the status bar.
    pub fn status_figures(&self) -> (figures: StatusFigures)
        ensures
            figures.tokens_used@ == with_commas(self.config.tokens_used as nat),
            figures.token_limit@ == limit_text(self.config.token_limit as nat),
            figures.requests_made@ == with_commas(self.config.requests_made as nat),
            figures.request_limit@ == limit_text(self.config.request_limit as nat),
    {
        StatusFigures {
            tokens_used: format_with_commas(self.config.tokens_used),
            token_limit: String::from_str(" / ").concat(
                format_with_commas(self.config.token_limit).as_str(),
            ).concat(" "),
            requests_made: format_with_commas(self.config.requests_made),
            request_limit: String::from_str(" / ").concat(
                format_with_commas(self.config.request_limit).as_str(),
            ).concat(" "),
        }
    }

    /// The spinner glyph: the frame's step of the cycle while loading, empty otherwise.
    pub fn spinner(&self) -> (glyph: &'static str)
        ensures
            glyph@ == (if self.is_loading {
                spinner_glyph(((self.frame / 2) % 10) as nat)
            } else {
                ""@
            }),
    {
        if self.is_loading {
            spinner_frame((self.frame / 2) % 10)
        } else {
            ""
        }
    }

    /// The loading notice of the status bar, empty when nothing is loading.
    pub fn loading_message(&self) -> (message: String)
        ensures
            message@ == (if self.is_loading {
                loading_message_of(self.frame as nat)
            } else {
                Seq::empty()
            }),
    {
        if self.is_loading {
            let glyph = self.spinner();
            String::from_str(" │ ").concat(glyph).concat(" Thinking...")
        } else {
            String::new()
        }
    }

    /// The title of the confirmation panel, while one is open.
    pub fn tool_prompt_title(&self) -> (title: Option<String>)
        ensures
            match self.state {
                AppState::WaitingForTool { ai_name, .. } => title matches Some(t) && t@
                    == tool_prompt_title_of(ai_name@),
                AppState::Normal => title is None,
            },
    {
        match &self.state {
            AppState::WaitingForTool { ai_name, .. } => Some(
                ai_name.clone().concat(" wants to execute a shell command:"),
            ),
            AppState::Normal => None,
        }
    }
}

} // verus!
