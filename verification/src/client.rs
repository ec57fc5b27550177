use vstd::prelude::*;

use tokio::sync::{mpsc, oneshot};

use crate::app::UiEvent;
use crate::config::ButlerConfig;
use crate::json::{fields_data, items_data, JsonData, JsonValue};
use crate::models::{
    contents_data, duplicate_contents, duplicate_tools, tools_data, Content,
    ContentData, DeclarationData, FunctionCall, FunctionDeclaration, FunctionResponse,
    GeminiRequest, GeminiResponse, NamedJson, Part, PartData, Tool, ToolData,
};
use crate::text::{push_char, signed_decimal, signed_decimal_text, str_equal};

verus! {

/// The conversation with the model: the key it is sent with, the turns so far, the
/// tools offered, and the configuration whose allowances and counters it keeps.
pub struct GeminiClient {
    pub api_key: String,
    pub history: Vec<Content>,
    pub tools: Vec<Tool>,
    pub config: ButlerConfig,
    pub ui_tx: mpsc::Sender<UiEvent>,
}

impl GeminiClient {
    /// Whether `later` is a state this conversation can step to: the key, tools,
    /// channel, names, endpoint and allowances are kept, and the counters never fall.
    pub open spec fn keeps(self, later: GeminiClient) -> bool {
        &&& later.api_key == self.api_key
        &&& later.tools == self.tools
        &&& later.ui_tx == self.ui_tx
        &&& later.config.user_name == self.config.user_name
        &&& later.config.ai_name == self.config.ai_name
        &&& later.config.vibe == self.config.vibe
        &&& later.config.api_url == self.config.api_url
        &&& later.config.token_limit == self.config.token_limit
        &&& later.config.request_limit == self.config.request_limit
        &&& later.config.tokens_used >= self.config.tokens_used
        &&& later.config.requests_made >= self.config.requests_made
    }
}

/// The name of the one function that the model may call.
pub open spec fn shell_function_name() -> Seq<char> {
    "execute_shell_command"@
}

/// The declaration of the shell tool: a function that takes one required string,
/// the command.
pub open spec fn shell_tool_data() -> ToolData {
    ToolData {
        function_declarations: seq![
            DeclarationData {
                name: shell_function_name(),
                description: "Execute a shell command on the user's system."@,
                parameters: JsonData::Object(
                    seq![
                        ("type"@, JsonData::Str("OBJECT"@)),
                        (
                            "properties"@,
                            JsonData::Object(
                                seq![
                                    (
                                        "command"@,
                                        JsonData::Object(
                                            seq![
                                                ("type"@, JsonData::Str("STRING"@)),
                                                (
                                                    "description"@,
                                                    JsonData::Str(
                                                        "The exact shell command to execute."@,
                                                    ),
                                                ),
                                            ],
                                        ),
                                    ),
                                ],
                            ),
                        ),
                        ("required"@, JsonData::Array(seq![JsonData::Str("command"@)])),
                    ],
                ),
            },
        ],
    }
}

/// A turn of the user that says `text`.
pub open spec fn user_text_turn(text: Seq<char>) -> ContentData {
    ContentData {
        role: "user"@,
        parts: seq![PartData { text: Some(text), function_call: None, function_response: None }],
    }
}

/// The instruction that tells the model who it is, whom it serves and how it behaves.
pub open spec fn system_prompt(config: ButlerConfig) -> Seq<char> {
    "Your name is "@ + config.ai_name@ + ". The user's name is "@ + config.user_name@
        + ". Your vibe and core instruction is: "@ + config.vibe@ + "."@
}

/// The endpoint template with each `{}` replaced by the key.
pub open spec fn fill_key(template: Seq<char>, key: Seq<char>) -> Seq<char>
    decreases template.len(),
{
    if template.len() < 2 {
        template
    } else if template[0] == '{' && template[1] == '}' {
        key + fill_key(template.skip(2), key)
    } else {
        seq![template[0]] + fill_key(template.skip(1), key)
    }
}

/// The history after a failed request: its last turn taken back, if there is one.
pub open spec fn taken_back(history: Seq<Content>) -> Seq<Content> {
    if history.len() == 0 {
        history
    } else {
        history.drop_last()
    }
}

/// Whether an event is an error notice with the given text.
pub open spec fn is_error_notice(event: UiEvent, text: Seq<char>) -> bool {
    event matches UiEvent::AiError(t) && t@ == text
}

fn shell_parameters() -> (schema: JsonValue)
    ensures
        schema@ == shell_tool_data().function_declarations[0].parameters,
{
    let command_fields = vec![
        (String::from_str("type"), JsonValue::Str(String::from_str("STRING"))),
        (
            String::from_str("description"),
            JsonValue::Str(String::from_str("The exact shell command to execute.")),
        ),
    ];
    assert(fields_data(command_fields@) =~= seq![
        ("type"@, JsonData::Str("STRING"@)),
        ("description"@, JsonData::Str("The exact shell command to execute."@)),
    ]);
    let command = JsonValue::Object(command_fields);
    let ghost command_v = command@;
    let property_fields = vec![(String::from_str("command"), command)];
    assert(fields_data(property_fields@) =~= seq![("command"@, command_v)]);
    let properties = JsonValue::Object(property_fields);
    let ghost properties_v = properties@;
    let required_items = vec![JsonValue::Str(String::from_str("command"))];
    assert(items_data(required_items@) =~= seq![JsonData::Str("command"@)]);
    let required = JsonValue::Array(required_items);
    let ghost required_v = required@;
    let schema_fields = vec![
        (String::from_str("type"), JsonValue::Str(String::from_str("OBJECT"))),
        (String::from_str("properties"), properties),
        (String::from_str("required"), required),
    ];
    assert(fields_data(schema_fields@) =~= seq![
        ("type"@, JsonData::Str("OBJECT"@)),
        ("properties"@, properties_v),
        ("required"@, required_v),
    ]);
    JsonValue::Object(schema_fields)
}

/// The tool that lets the model ask for a shell command.
pub fn shell_tool() -> (tool: Tool)
    ensures
        tool@ == shell_tool_data(),
{
    let declaration = FunctionDeclaration {
        name: String::from_str("execute_shell_command"),
        description: String::from_str("Execute a shell command on the user's system."),
        parameters: shell_parameters(),
    };
    let tool = Tool { function_declarations: vec![declaration] };
    assert(tool@.function_declarations =~= shell_tool_data().function_declarations);
    tool
}

impl GeminiClient {
    /// A conversation with no turns yet that offers the shell tool.
    pub fn new(api_key: String, config: ButlerConfig, ui_tx: mpsc::Sender<UiEvent>) -> (client: GeminiClient)
        ensures
            client.api_key == api_key,
            client.history@.len() == 0,
            tools_data(client.tools@) == seq![shell_tool_data()],
            client.config == config,
            client.ui_tx == ui_tx,
    {
        let tools = vec![shell_tool()];
        assert(tools_data(tools@) =~= seq![shell_tool_data()]);
        GeminiClient { api_key, history: Vec::new(), tools, config, ui_tx }
    }

    /// Opens a turn. With an allowance spent nothing changes and the error notice comes
    /// back (the token allowance is checked first). Otherwise a prompt joins the
    /// history as a user turn and comes back as the message to show under the user's
    /// name; without a prompt (a turn that answers a tool call) nothing changes.
    pub fn begin_turn(&mut self, prompt: Option<String>) -> (opened: Result<Option<UiEvent>, UiEvent>)
        ensures
            final(self).api_key == old(self).api_key,
            final(self).tools == old(self).tools,
            final(self).config == old(self).config,
            final(self).ui_tx == old(self).ui_tx,
            old(self).keeps(*final(self)),
            (opened is Ok) <==> (!old(self).config.tokens_exhausted()
                && !old(self).config.requests_exhausted()),
            (opened is Ok) <==> (old(self).config.tokens_used < old(self).config.token_limit
                && old(self).config.requests_made < old(self).config.request_limit),
            old(self).config.tokens_exhausted() ==> (opened matches Err(e) && is_error_notice(
                e,
                "Token limit exceeded!"@,
            ) && final(self).history == old(self).history),
            !old(self).config.tokens_exhausted() && old(self).config.requests_exhausted()
                ==> (opened matches Err(e) && is_error_notice(e, "Request limit exceeded!"@)
                && final(self).history == old(self).history),
            !old(self).config.tokens_exhausted() && !old(self).config.requests_exhausted() ==> {
                match prompt {
                    Some(text) => {
                        &&& final(self).history@.len() == old(self).history@.len() + 1
                        &&& final(self).history@.drop_last() == old(self).history@
                        &&& final(self).history@.last()@ == user_text_turn(text@)
                        &&& opened matches Ok(Some(UiEvent::AppendMessage(who, said)))
                        &&& who@ == old(self).config.user_name@
                        &&& said@ == text@
                    },
                    None => opened matches Ok(None) && final(self).history == old(self).history,
                }
            },
    {
        if self.config.tokens_used >= self.config.token_limit {
            return Err(UiEvent::AiError(String::from_str("Token limit exceeded!")));
        }
        if self.config.requests_made >= self.config.request_limit {
            return Err(UiEvent::AiError(String::from_str("Request limit exceeded!")));
        }
        match prompt {
            Some(text) => {
                let part = Part { text: Some(text.clone()), function_call: None, function_response: None };
                let turn = Content { role: String::from_str("user"), parts: vec![part] };
                assert(turn@.parts =~= user_text_turn(text@).parts);
                self.history.push(turn);
                assert(self.history@.drop_last() =~= old(self).history@);
                Ok(Some(UiEvent::AppendMessage(self.config.user_name.clone(), text)))
            },
            None => Ok(None),
        }
    }

    /// The request body: the system instruction as a user turn, the whole history, and
    /// the tools.
    pub fn build_request(&self) -> (request: GeminiRequest)
        ensures
            request.system_instruction matches Some(c) && c@ == user_text_turn(
                system_prompt(self.config),
            ),
            contents_data(request.contents@) == contents_data(self.history@),
            request.tools matches Some(t) && tools_data(t@) == tools_data(self.tools@),
    {
        let prompt = String::from_str("Your name is ").concat(self.config.ai_name.as_str()).concat(
            ". The user's name is ",
        ).concat(self.config.user_name.as_str()).concat(
            ". Your vibe and core instruction is: ",
        ).concat(self.config.vibe.as_str()).concat(".");
        let part = Part { text: Some(prompt), function_call: None, function_response: None };
        let instruction = Content { role: String::from_str("user"), parts: vec![part] };
        assert(instruction@.parts =~= user_text_turn(system_prompt(self.config)).parts);
        GeminiRequest {
            system_instruction: Some(instruction),
            contents: duplicate_contents(&self.history),
            tools: Some(duplicate_tools(&self.tools)),
        }
    }

    /// The address to post the request to: the configured endpoint with the key in
    /// place of each `{}`.
    pub fn request_url(&self) -> (url: String)
        ensures
            url@ == fill_key(self.config.api_url@, self.api_key@),
    {
        let template = self.config.api_url.as_str();
        let key = self.api_key.as_str();
        let n = template.unicode_len();
        let mut url = String::new();
        let mut i: usize = 0;
        assert(template@.skip(0) =~= template@);
        while i < n
            invariant
                n == template@.len(),
                i <= n,
                key@ == self.api_key@,
                fill_key(template@, key@) == url@ + fill_key(template@.skip(i as int), key@),
            decreases n - i,
        {
            let ghost rest = template@.skip(i as int);
            let ghost before = url@;
            let c = template.get_char(i);
            if i + 1 < n && c == '{' && template.get_char(i + 1) == '}' {
                assert(rest.skip(2) =~= template@.skip(i + 2));
                assert(fill_key(rest, key@) == key@ + fill_key(template@.skip(i + 2), key@));
                url.append(key);
                assert(before + (key@ + fill_key(template@.skip(i + 2), key@)) =~= url@ + fill_key(
                    template@.skip(i + 2),
                    key@,
                ));
                i = i + 2;
            } else {
                if i + 1 < n {
                    assert(rest.skip(1) =~= template@.skip(i + 1));
                    assert(fill_key(rest, key@) == seq![c] + fill_key(template@.skip(i + 1), key@));
                } else {
                    assert(template@.skip(i + 1).len() == 0);
                    assert(rest =~= seq![c]);
                    assert(fill_key(template@.skip(i + 1), key@) =~= Seq::empty());
                }
                push_char(&mut url, c);
                assert(before + (seq![c] + fill_key(template@.skip(i + 1), key@)) =~= url@ + fill_key(
                    template@.skip(i + 1),
                    key@,
                ));
                i = i + 1;
            }
        }
        assert(template@.skip(n as int).len() == 0);
        url
    }
}

/// What the model's answer asks the conversation loop to do, part by part.
#[derive(Debug)]
pub enum ReplyStep {
    /// Show a message: speaker, then text.
    Say(String, String),
    /// Handle a function call.
    Call(FunctionCall),
}

/// What accepting a parsed answer leaves to the conversation loop.
#[derive(Debug)]
pub struct ResponseOutcome {
    /// When the answer reports its token count: the usage figures to show, after the
    /// configuration with its new counters has been saved.
    pub usage: Option<UiEvent>,
    /// The steps of the answer, in order; or the error notice when it holds no content.
    pub reply: Result<Vec<ReplyStep>, UiEvent>,
}

/// What a reply step means.
pub enum StepData {
    Say(Seq<char>, Seq<char>),
    Call(NamedJson),
}

/// The meaning of a reply step.
pub open spec fn step_data(step: ReplyStep) -> StepData {
    match step {
        ReplyStep::Say(who, said) => StepData::Say(who@, said@),
        ReplyStep::Call(call) => StepData::Call(call@),
    }
}

/// The meanings of a list of reply steps.
pub open spec fn steps_data(steps: Seq<ReplyStep>) -> Seq<StepData> {
    steps.map_values(|s: ReplyStep| step_data(s))
}

/// The steps of one part: its text, shown under the assistant's name, then its call.
pub open spec fn part_steps(part: PartData, ai_name: Seq<char>) -> Seq<StepData> {
    (match part.text {
        Some(t) => seq![StepData::Say(ai_name, t)],
        None => Seq::empty(),
    }) + (match part.function_call {
        Some(c) => seq![StepData::Call(c)],
        None => Seq::empty(),
    })
}

/// The steps of a list of parts, part after part.
pub open spec fn reply_steps(parts: Seq<PartData>, ai_name: Seq<char>) -> Seq<StepData>
    decreases parts.len(),
{
    if parts.len() == 0 {
        Seq::empty()
    } else {
        reply_steps(parts.drop_last(), ai_name) + part_steps(parts.last(), ai_name)
    }
}

/// Whether an answer reports how many tokens it used.
pub open spec fn reports_usage(response: GeminiResponse) -> bool {
    response.usage_metadata matches Some(u) && u.total_token_count is Some
}

/// The tokens that an answer reports, zero when it reports none.
pub open spec fn response_tokens(response: GeminiResponse) -> nat {
    match response.usage_metadata {
        Some(u) => match u.total_token_count {
            Some(t) => t as nat,
            None => 0,
        },
        None => 0,
    }
}

/// The content of an answer's first candidate, if it has one.
pub open spec fn first_content(response: GeminiResponse) -> Option<Content> {
    match response.candidates {
        Some(list) => if list@.len() > 0 {
            list@[0].content
        } else {
            None
        },
        None => None,
    }
}

/// The counters after an accepted answer: one more request, and the tokens it reports.
pub open spec fn counted(config: ButlerConfig, response: GeminiResponse) -> ButlerConfig {
    ButlerConfig {
        requests_made: (config.requests_made + 1) as usize,
        tokens_used: (config.tokens_used + response_tokens(response)) as usize,
        ..config
    }
}

/// The command that a call's arguments name: their string field `command`, or the
/// empty string when there is none.
pub open spec fn command_argument(args: JsonData) -> Seq<char> {
    match args.field("command"@) {
        Some(v) => match v.text() {
            Some(t) => t,
            None => Seq::empty(),
        },
        None => Seq::empty(),
    }
}

/// How a requested shell command went.
#[derive(Debug)]
pub enum ToolRun {
    /// The user denied it.
    Denied,
    /// It ran: what it wrote, and its exit code when it has one.
    Finished { stdout: String, stderr: String, status: Option<i32> },
    /// It could not be started: the reason.
    Failed(String),
}

/// The JSON result that the model gets back for a run.
pub open spec fn tool_result_data(run: ToolRun) -> JsonData {
    match run {
        ToolRun::Denied => JsonData::Object(
            seq![("error"@, JsonData::Str("User denied execution."@))],
        ),
        ToolRun::Finished { stdout, stderr, status } => JsonData::Object(
            seq![
                ("stdout"@, JsonData::Str(stdout@)),
                ("stderr"@, JsonData::Str(stderr@)),
                (
                    "status"@,
                    match status {
                        Some(code) => JsonData::Number(signed_decimal(code as int)),
                        None => JsonData::Null,
                    },
                ),
            ],
        ),
        ToolRun::Failed(reason) => JsonData::Object(seq![("error"@, JsonData::Str(reason@))]),
    }
}

/// The user turn that answers the call `name` with `result`.
pub open spec fn tool_response_turn(name: Seq<char>, result: JsonData) -> ContentData {
    ContentData {
        role: "user"@,
        parts: seq![
            PartData {
                text: None,
                function_call: None,
                function_response: Some(NamedJson { name, value: result }),
            },
        ],
    }
}

/// The notice that the interface shows once the user has decided on `cmd`.
pub open spec fn tool_notice_text(cmd: Seq<char>, allowed: bool) -> Seq<char> {
    if allowed {
        "Executing: "@ + cmd
    } else {
        "Command execution denied."@
    }
}

/// The command that a call asks to run: `Some` exactly for the shell function.
pub fn tool_command(call: &FunctionCall) -> (cmd: Option<String>)
    ensures
        match cmd {
            Some(c) => call.name@ == shell_function_name() && c@ == command_argument(call.args@),
            None => call.name@ != shell_function_name(),
        },
{
    if !str_equal(call.name.as_str(), "execute_shell_command") {
        return None;
    }
    proof {
        reveal_strlit("");
    }
    let text = match call.args.get("command") {
        Some(v) => match v.as_str() {
            Some(t) => t,
            None => "",
        },
        None => "",
    };
    Some(String::from_str(text))
}

/// What happens once the user has decided on a command.
#[derive(Debug)]
pub struct ToolDecision {
    /// The notice to show.
    pub notice: UiEvent,
    /// The command to run; none when it was denied.
    pub run: Option<String>,
}

/// Acts on the user's decision on `cmd`: the command runs only when it was allowed, and
/// the notice says which.
pub fn decide_tool(cmd: String, allowed: bool) -> (decision: ToolDecision)
    ensures
        decision.notice matches UiEvent::ToolExecuted(t) && t@ == tool_notice_text(cmd@, allowed),
        match decision.run {
            Some(c) => allowed && c == cmd,
            None => !allowed,
        },
{
    if allowed {
        let notice = UiEvent::ToolExecuted(String::from_str("Executing: ").concat(cmd.as_str()));
        ToolDecision { notice, run: Some(cmd) }
    } else {
        ToolDecision {
            notice: UiEvent::ToolExecuted(String::from_str("Command execution denied.")),
            run: None,
        }
    }
}

/// The JSON result that the model gets back for a run.
pub fn tool_result(run: ToolRun) -> (result: JsonValue)
    ensures
        result@ == tool_result_data(run),
{
    let ghost expected = tool_result_data(run);
    match run {
        ToolRun::Denied => {
            let fields = vec![
                (String::from_str("error"), JsonValue::Str(String::from_str("User denied execution."))),
            ];
            assert(fields_data(fields@) =~= expected->Object_0);
            JsonValue::Object(fields)
        },
        ToolRun::Finished { stdout, stderr, status } => {
            let code = match status {
                Some(c) => JsonValue::Number(signed_decimal_text(c)),
                None => JsonValue::Null,
            };
            let fields = vec![
                (String::from_str("stdout"), JsonValue::Str(stdout)),
                (String::from_str("stderr"), JsonValue::Str(stderr)),
                (String::from_str("status"), code),
            ];
            assert(fields_data(fields@) =~= expected->Object_0);
            JsonValue::Object(fields)
        },
        ToolRun::Failed(reason) => {
            let fields = vec![(String::from_str("error"), JsonValue::Str(reason))];
            assert(fields_data(fields@) =~= expected->Object_0);
            JsonValue::Object(fields)
        },
    }
}

/// The notice shown when handling a function call failed.
pub fn function_call_error(error: &str) -> (notice: UiEvent)
    ensures
        notice matches UiEvent::AiError(t) && t@ == "Function call error: "@ + error@,
{
    UiEvent::AiError(String::from_str("Function call error: ").concat(error))
}

fn plan_steps(content: &Content, ai_name: &String) -> (steps: Vec<ReplyStep>)
    ensures
        steps_data(steps@) == reply_steps(content@.parts, ai_name@),
{
    let ghost parts = content@.parts;
    let mut steps: Vec<ReplyStep> = Vec::new();
    for i in 0..content.parts.len()
        invariant
            parts == content@.parts,
            parts.len() == content.parts@.len(),
            steps_data(steps@) == reply_steps(parts.take(i as int), ai_name@),
    {
        let part = &content.parts[i];
        let ghost before = steps@;
        assert(parts[i as int] == part@);
        if let Some(t) = &part.text {
            steps.push(ReplyStep::Say(ai_name.clone(), t.clone()));
        }
        if let Some(c) = &part.function_call {
            steps.push(ReplyStep::Call(c.duplicate()));
        }
        proof {
            assert(parts.take(i + 1).drop_last() =~= parts.take(i as int));
            assert(steps_data(steps@) =~= steps_data(before) + part_steps(part@, ai_name@));
        }
    }
    assert(parts.take(content.parts.len() as int) =~= parts);
    steps
}

impl GeminiClient {
    /// Takes back the turn of a request that could not be sent, and gives the notice.
    pub fn network_failed(&mut self, error: &str) -> (notice: UiEvent)
        ensures
            final(self).history@ == taken_back(old(self).history@),
            final(self).api_key == old(self).api_key,
            final(self).tools == old(self).tools,
            final(self).config == old(self).config,
            final(self).ui_tx == old(self).ui_tx,
            old(self).keeps(*final(self)),
            is_error_notice(notice, "Network Error: "@ + error@),
    {
        self.history.pop();
        UiEvent::AiError(String::from_str("Network Error: ").concat(error))
    }

    /// Takes back the turn of a request that the service refused, and gives the notice
    /// with the status and the body of the answer.
    pub fn request_failed(&mut self, status: &str, body: &str) -> (notice: UiEvent)
        ensures
            final(self).history@ == taken_back(old(self).history@),
            final(self).api_key == old(self).api_key,
            final(self).tools == old(self).tools,
            final(self).config == old(self).config,
            final(self).ui_tx == old(self).ui_tx,
            old(self).keeps(*final(self)),
            is_error_notice(notice, "API Request failed: "@ + status@ + " - "@ + body@),
    {
        self.history.pop();
        UiEvent::AiError(
            String::from_str("API Request failed: ").concat(status).concat(" - ").concat(body),
        )
    }

    /// Whether the counters can take an answer: one more request, and its tokens, still
    /// fit in a `usize`.
    pub fn counts_fit(&self, response: &GeminiResponse) -> (fit: bool)
        ensures
            fit == (self.config.requests_made < usize::MAX && self.config.tokens_used
                + response_tokens(*response) <= usize::MAX),
    {
        let tokens: usize = match &response.usage_metadata {
            Some(u) => match u.total_token_count {
                Some(t) => t,
                None => 0,
            },
            None => 0,
        };
        self.config.requests_made < usize::MAX && tokens <= usize::MAX - self.config.tokens_used
    }

    /// Accepts a parsed answer: counts the request and the tokens it reports; then its
    /// first candidate's content joins the history and its parts become the steps to
    /// take, or, when there is no such content, the turn is taken back and the error
    /// notice comes back.
    pub fn accept_response(&mut self, response: GeminiResponse) -> (outcome: ResponseOutcome)
        requires
            old(self).config.requests_made < usize::MAX,
            old(self).config.tokens_used + response_tokens(response) <= usize::MAX,
        ensures
            final(self).api_key == old(self).api_key,
            final(self).tools == old(self).tools,
            final(self).ui_tx == old(self).ui_tx,
            final(self).config == counted(old(self).config, response),
            old(self).keeps(*final(self)),
            outcome.usage == (if reports_usage(response) {
                Some(
                    UiEvent::UsageUpdate(
                        final(self).config.tokens_used,
                        final(self).config.token_limit,
                        final(self).config.requests_made,
                        final(self).config.request_limit,
                    ),
                )
            } else {
                None::<UiEvent>
            }),
            match first_content(response) {
                Some(c) => {
                    &&& final(self).history@ == old(self).history@.push(c)
                    &&& outcome.reply matches Ok(steps)
                    &&& steps_data(steps@) == reply_steps(c@.parts, old(self).config.ai_name@)
                },
                None => {
                    &&& final(self).history@ == taken_back(old(self).history@)
                    &&& outcome.reply matches Err(e)
                    &&& is_error_notice(e, "Failed to parse response"@)
                },
            },
    {
        self.config.requests_made = self.config.requests_made + 1;
        let mut usage: Option<UiEvent> = None;
        if let Some(u) = &response.usage_metadata {
            if let Some(total) = u.total_token_count {
                self.config.tokens_used = self.config.tokens_used + total;
                usage = Some(
                    UiEvent::UsageUpdate(
                        self.config.tokens_used,
                        self.config.token_limit,
                        self.config.requests_made,
                        self.config.request_limit,
                    ),
                );
            }
        }
        let ghost whole = response;
        let GeminiResponse { candidates, .. } = response;
        let content = match candidates {
            Some(mut list) => {
                if list.len() > 0 {
                    let first = list.remove(0);
                    first.content
                } else {
                    None
                }
            },
            None => None,
        };
        assert(content == first_content(whole));
        match content {
            Some(c) => {
                let steps = plan_steps(&c, &self.config.ai_name);
                self.history.push(c);
                ResponseOutcome { usage, reply: Ok(steps) }
            },
            None => {
                self.history.pop();
                ResponseOutcome {
                    usage,
                    reply: Err(UiEvent::AiError(String::from_str("Failed to parse response"))),
                }
            },
        }
    }

    /// The request to confirm `cmd`, under the assistant's name, with the channel on
    /// which the user's decision is to come back.
    pub fn confirmation_request(&self, cmd: &str, tx: oneshot::Sender<bool>) -> (request: UiEvent)
        ensures
            request matches UiEvent::ToolPrompt(who, what, t) && who@ == self.config.ai_name@
                && what@ == cmd@ && t == tx,
    {
        UiEvent::ToolPrompt(self.config.ai_name.clone(), String::from_str(cmd), tx)
    }

    /// Adds the user turn that answers the call `name` with the result of the run.
    pub fn record_tool_result(&mut self, name: String, run: ToolRun)
        ensures
            contents_data(final(self).history@) == contents_data(old(self).history@).push(
                tool_response_turn(name@, tool_result_data(run)),
            ),
            final(self).api_key == old(self).api_key,
            final(self).tools == old(self).tools,
            final(self).config == old(self).config,
            final(self).ui_tx == old(self).ui_tx,
            old(self).keeps(*final(self)),
    {
        let ghost name_v = name@;
        let response = FunctionResponse { name, response: tool_result(run) };
        let part = Part { text: None, function_call: None, function_response: Some(response) };
        let turn = Content { role: String::from_str("user"), parts: vec![part] };
        assert(turn@.parts =~= tool_response_turn(name_v, tool_result_data(run)).parts);
        self.history.push(turn);
        assert(contents_data(self.history@) =~= contents_data(old(self).history@).push(turn@));
    }
}

} // verus!
