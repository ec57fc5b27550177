use vstd::prelude::*;

verus! {

/// The colours that the terminal interface paints with.
#[derive(Clone, Copy, Debug, PartialEq, Eq, Structural)]
pub enum Shade {
    Cyan,
    LightMagenta,
    Yellow,
    White,
    Gray,
    DarkGray,
    Green,
    Red,
    LightYellow,
    Blue,
    /// A colour of the terminal's 256-colour palette.
    Indexed(u8),
}

/// Semantic colour palette for the interface: each element names its role, and
/// `color` says which shade paints it.
#[derive(Clone, Copy, Debug, PartialEq, Eq, Structural)]
pub enum ThemeColor {
    /// Role header for the human user.
    UserMessage,
    /// Role header for the assistant.
    AiMessage,
    /// Role header for system and tool notices.
    SystemMessage,
    /// Text body of every message.
    MessageBody,
    /// The colon after a role name.
    HeaderPunctuation,
    /// Background of the status bar strip.
    StatusBarBg,
    /// Dim labels such as "Tokens:" and "Requests:".
    StatusBarLabel,
    /// Muted values: limits and separators.
    StatusBarMuted,
    /// Token count while usage is low.
    TokensNormal,
    /// Token count while usage is moderate.
    TokensWarning,
    /// Token count while usage is high.
    TokensCritical,
    /// The current request count.
    RequestCount,
    /// Spinner and "Thinking..." text.
    LoadingIndicator,
    /// Border and title of the message input.
    InputBorder,
    /// Text that the user types.
    InputText,
    /// Border, title and header of the confirmation panel.
    ToolAccent,
    /// The "$ " prompt prefix.
    ToolCommandPrefix,
    /// The shell command being proposed.
    ToolCommand,
    /// The "Y / Enter" key label.
    AllowAction,
    /// The "any other key" key label.
    DenyAction,
    /// Prose around the key hints.
    HintText,
}

/// The shade of each element of the palette.
pub open spec fn shade_of(t: ThemeColor) -> Shade {
    match t {
        ThemeColor::UserMessage => Shade::Cyan,
        ThemeColor::AiMessage => Shade::LightMagenta,
        ThemeColor::SystemMessage => Shade::Yellow,
        ThemeColor::MessageBody => Shade::White,
        ThemeColor::HeaderPunctuation => Shade::Gray,
        ThemeColor::StatusBarBg => Shade::Indexed(234),
        ThemeColor::StatusBarLabel => Shade::Gray,
        ThemeColor::StatusBarMuted => Shade::DarkGray,
        ThemeColor::TokensNormal => Shade::Green,
        ThemeColor::TokensWarning => Shade::Yellow,
        ThemeColor::TokensCritical => Shade::Red,
        ThemeColor::RequestCount => Shade::Cyan,
        ThemeColor::LoadingIndicator => Shade::LightYellow,
        ThemeColor::InputBorder => Shade::Blue,
        ThemeColor::InputText => Shade::White,
        ThemeColor::ToolAccent => Shade::Indexed(214),
        ThemeColor::ToolCommandPrefix => Shade::DarkGray,
        ThemeColor::ToolCommand => Shade::Yellow,
        ThemeColor::AllowAction => Shade::Green,
        ThemeColor::DenyAction => Shade::Red,
        ThemeColor::HintText => Shade::Gray,
    }
}

impl ThemeColor {
    /// The shade that paints this element.
    pub fn color(&self) -> (shade: Shade)
        ensures
            shade == shade_of(*self),
    {
        match self {
            ThemeColor::UserMessage => Shade::Cyan,
            ThemeColor::AiMessage => Shade::LightMagenta,
            ThemeColor::SystemMessage => Shade::Yellow,
            ThemeColor::MessageBody => Shade::White,
            ThemeColor::HeaderPunctuation => Shade::Gray,
            ThemeColor::StatusBarBg => Shade::Indexed(234),
            ThemeColor::StatusBarLabel => Shade::Gray,
            ThemeColor::StatusBarMuted => Shade::DarkGray,
            ThemeColor::TokensNormal => Shade::Green,
            ThemeColor::TokensWarning => Shade::Yellow,
            ThemeColor::TokensCritical => Shade::Red,
            ThemeColor::RequestCount => Shade::Cyan,
            ThemeColor::LoadingIndicator => Shade::LightYellow,
            ThemeColor::InputBorder => Shade::Blue,
            ThemeColor::InputText => Shade::White,
            ThemeColor::ToolAccent => Shade::Indexed(214),
            ThemeColor::ToolCommandPrefix => Shade::DarkGray,
            ThemeColor::ToolCommand => Shade::Yellow,
            ThemeColor::AllowAction => Shade::Green,
            ThemeColor::DenyAction => Shade::Red,
            ThemeColor::HintText => Shade::Gray,
        }
    }
}

} // verus!
