use vstd::prelude::*;

use crate::json::{JsonData, JsonValue};

verus! {

/// A request body for the `generateContent` endpoint.
#[derive(Debug, PartialEq)]
pub struct GeminiRequest {
    pub system_instruction: Option<Content>,
    pub contents: Vec<Content>,
    pub tools: Option<Vec<Tool>>,
}

/// A set of functions that the model may call.
#[derive(Debug, PartialEq)]
pub struct Tool {
    pub function_declarations: Vec<FunctionDeclaration>,
}

/// One callable function: its name, what it does, and the JSON schema of its arguments.
#[derive(Debug, PartialEq)]
pub struct FunctionDeclaration {
    pub name: String,
    pub description: String,
    pub parameters: JsonValue,
}

/// One turn of the conversation: who speaks, and what is said.
#[derive(Debug, PartialEq)]
pub struct Content {
    pub role: String,
    pub parts: Vec<Part>,
}

/// A piece of a turn: text, a call that the model asks for, or the answer to one.
#[derive(Debug, PartialEq)]
pub struct Part {
    pub text: Option<String>,
    pub function_call: Option<FunctionCall>,
    pub function_response: Option<FunctionResponse>,
}

/// A call of a declared function, with its JSON arguments.
#[derive(Debug, PartialEq)]
pub struct FunctionCall {
    pub name: String,
    pub args: JsonValue,
}

/// The JSON result of a function call, sent back to the model.
#[derive(Debug, PartialEq)]
pub struct FunctionResponse {
    pub name: String,
    pub response: JsonValue,
}

/// How many tokens a request used.
#[derive(Debug, PartialEq)]
pub struct UsageMetadata {
    pub total_token_count: Option<usize>,
}

/// A response body of the `generateContent` endpoint.
#[derive(Debug, PartialEq)]
pub struct GeminiResponse {
    pub candidates: Option<Vec<Candidate>>,
    pub usage_metadata: Option<UsageMetadata>,
}

/// One answer that the model proposes.
#[derive(Debug, PartialEq)]
pub struct Candidate {
    pub content: Option<Content>,
}

/// A name with a JSON value: what a function call or a function response means.
pub struct NamedJson {
    pub name: Seq<char>,
    pub value: JsonData,
}

/// What a part means.
pub struct PartData {
    pub text: Option<Seq<char>>,
    pub function_call: Option<NamedJson>,
    pub function_response: Option<NamedJson>,
}

/// What a turn means.
pub struct ContentData {
    pub role: Seq<char>,
    pub parts: Seq<PartData>,
}

/// What a function declaration means.
pub struct DeclarationData {
    pub name: Seq<char>,
    pub description: Seq<char>,
    pub parameters: JsonData,
}

/// What a tool means.
pub struct ToolData {
    pub function_declarations: Seq<DeclarationData>,
}

impl View for FunctionCall {
    type V = NamedJson;

    open spec fn view(&self) -> NamedJson {
        NamedJson { name: self.name@, value: self.args@ }
    }
}

impl View for FunctionResponse {
    type V = NamedJson;

    open spec fn view(&self) -> NamedJson {
        NamedJson { name: self.name@, value: self.response@ }
    }
}

/// The text of an optional string.
pub open spec fn opt_text(s: Option<String>) -> Option<Seq<char>> {
    match s {
        Some(t) => Some(t@),
        None => None,
    }
}

impl View for Part {
    type V = PartData;

    open spec fn view(&self) -> PartData {
        PartData {
            text: opt_text(self.text),
            function_call: match self.function_call {
                Some(c) => Some(c@),
                None => None,
            },
            function_response: match self.function_response {
                Some(r) => Some(r@),
                None => None,
            },
        }
    }
}

/// The meanings of a list of parts.
pub open spec fn parts_data(parts: Seq<Part>) -> Seq<PartData> {
    parts.map_values(|p: Part| p@)
}

impl View for Content {
    type V = ContentData;

    open spec fn view(&self) -> ContentData {
        ContentData { role: self.role@, parts: parts_data(self.parts@) }
    }
}

/// The meanings of a list of turns.
pub open spec fn contents_data(contents: Seq<Content>) -> Seq<ContentData> {
    contents.map_values(|c: Content| c@)
}

impl View for FunctionDeclaration {
    type V = DeclarationData;

    open spec fn view(&self) -> DeclarationData {
        DeclarationData {
            name: self.name@,
            description: self.description@,
            parameters: self.parameters@,
        }
    }
}

impl View for Tool {
    type V = ToolData;

    open spec fn view(&self) -> ToolData {
        ToolData {
            function_declarations: self.function_declarations@.map_values(
                |d: FunctionDeclaration| d@,
            ),
        }
    }
}

/// The meanings of a list of tools.
pub open spec fn tools_data(tools: Seq<Tool>) -> Seq<ToolData> {
    tools.map_values(|t: Tool| t@)
}

fn duplicate_text(s: &Option<String>) -> (copy: Option<String>)
    ensures
        opt_text(copy) == opt_text(*s),
{
    match s {
        Some(t) => Some(t.clone()),
        None => None,
    }
}

impl FunctionCall {
    /// A copy with the same meaning.
    pub fn duplicate(&self) -> (copy: FunctionCall)
        ensures
            copy@ == self@,
    {
        FunctionCall { name: self.name.clone(), args: self.args.duplicate() }
    }
}

impl FunctionResponse {
    /// A copy with the same meaning.
    pub fn duplicate(&self) -> (copy: FunctionResponse)
        ensures
            copy@ == self@,
    {
        FunctionResponse { name: self.name.clone(), response: self.response.duplicate() }
    }
}

impl Part {
    /// A copy with the same meaning.
    pub fn duplicate(&self) -> (copy: Part)
        ensures
            copy@ == self@,
    {
        let function_call = match &self.function_call {
            Some(c) => Some(c.duplicate()),
            None => None,
        };
        let function_response = match &self.function_response {
            Some(r) => Some(r.duplicate()),
            None => None,
        };
        Part { text: duplicate_text(&self.text), function_call, function_response }
    }
}

impl Content {
    /// A copy with the same meaning.
    pub fn duplicate(&self) -> (copy: Content)
        ensures
            copy@ == self@,
    {
        let mut parts: Vec<Part> = Vec::new();
        for i in 0..self.parts.len()
            invariant
                parts@.len() == i,
                forall|j: int| 0 <= j < i ==> #[trigger] parts@[j]@ == self.parts@[j]@,
        {
            parts.push(self.parts[i].duplicate());
        }
        assert(parts_data(parts@) =~= parts_data(self.parts@));
        Content { role: self.role.clone(), parts }
    }
}

/// A copy of a list of turns with the same meaning.
pub fn duplicate_contents(contents: &Vec<Content>) -> (copy: Vec<Content>)
    ensures
        contents_data(copy@) == contents_data(contents@),
{
    let mut copy: Vec<Content> = Vec::new();
    for i in 0..contents.len()
        invariant
            copy@.len() == i,
            forall|j: int| 0 <= j < i ==> #[trigger] copy@[j]@ == contents@[j]@,
    {
        copy.push(contents[i].duplicate());
    }
    assert(contents_data(copy@) =~= contents_data(contents@));
    copy
}

impl FunctionDeclaration {
    /// A copy with the same meaning.
    pub fn duplicate(&self) -> (copy: FunctionDeclaration)
        ensures
            copy@ == self@,
    {
        FunctionDeclaration {
            name: self.name.clone(),
            description: self.description.clone(),
            parameters: self.parameters.duplicate(),
        }
    }
}

impl Tool {
    /// A copy with the same meaning.
    pub fn duplicate(&self) -> (copy: Tool)
        ensures
            copy@ == self@,
    {
        let mut declarations: Vec<FunctionDeclaration> = Vec::new();
        for i in 0..self.function_declarations.len()
            invariant
                declarations@.len() == i,
                forall|j: int|
                    0 <= j < i ==> #[trigger] declarations@[j]@ == self.function_declarations@[j]@,
        {
            declarations.push(self.function_declarations[i].duplicate());
        }
        let copy = Tool { function_declarations: declarations };
        assert(copy@.function_declarations =~= self@.function_declarations);
        copy
    }
}

/// A copy of a list of tools with the same meaning.
pub fn duplicate_tools(tools: &Vec<Tool>) -> (copy: Vec<Tool>)
    ensures
        tools_data(copy@) == tools_data(tools@),
{
    let mut copy: Vec<Tool> = Vec::new();
    for i in 0..tools.len()
        invariant
            copy@.len() == i,
            forall|j: int| 0 <= j < i ==> #[trigger] copy@[j]@ == tools@[j]@,
    {
        copy.push(tools[i].duplicate());
    }
    assert(tools_data(copy@) =~= tools_data(tools@));
    copy
}

} // verus!
