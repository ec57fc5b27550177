//! The verified core of a terminal butler that chats with the Gemini API: the
//! conversation and its usage allowances, the shell-tool confirmation, the terminal
//! interface's state and status line, and the data that goes over the wire.

mod app;
mod channels;
mod client;
mod config;
mod json;
mod laws;
mod models;
mod text;
mod theme;

pub use app::{
    ascii_lower, is_allow_key, is_exit_command, is_exit_word, is_quit_key, limit_text, loading_message_of,
    messages_grow, messages_view, spinner_glyph, system_role, tool_prompt_title_of, usage_theme_of, with_usage,
    App, AppState, Key, KeyAction, KeyOutcome, KeyPress, Speaker, StatusFigures, UiEvent,
};
pub use client::{
    command_argument, counted, decide_tool, fill_key, first_content, function_call_error,
    is_error_notice, part_steps, reply_steps, reports_usage, response_tokens, shell_function_name,
    shell_tool, shell_tool_data, step_data, steps_data, system_prompt, taken_back, tool_command,
    tool_notice_text, tool_response_turn, tool_result, tool_result_data, user_text_turn,
    GeminiClient, ReplyStep, ResponseOutcome, StepData, ToolDecision, ToolRun,
};
pub use config::{
    default_api_url, default_request_limit, default_token_limit, spec_default_api_url,
    spec_default_request_limit, spec_default_token_limit, ButlerConfig,
};
pub use json::{field_data, field_in, fields_data, items_data, json_data, JsonData, JsonValue};
pub use laws::{
    admitted_requests_stay_within_limit, allowances_close_for_good, calls_of_parts, calls_of_steps,
    commas_only_group_digits, only_escape_and_control_c_quit, only_yes_allows,
    reply_hands_on_every_call_and_text, says_of_steps, text_comes_before_call, texts_of_parts,
    usage_colour_thresholds, conversation_keeps_settings,
    messages_only_grow, request_step, requests_never_pass_limit, default_endpoint_carries_key,
    default_request_url, failed_turn_restores_history, request_ends_with_prompt, usage_update_reaches_interface,
    without_commas,
};
pub use models::{
    contents_data, duplicate_contents, duplicate_tools, opt_text, parts_data, tools_data,
    Candidate, Content, ContentData, DeclarationData, FunctionCall, FunctionDeclaration,
    FunctionResponse, GeminiRequest, GeminiResponse, NamedJson, Part, PartData, Tool, ToolData,
    UsageMetadata,
};
pub use text::{decimal, format_with_commas, signed_decimal, signed_decimal_text, with_commas};
pub use theme::{shade_of, Shade, ThemeColor};
