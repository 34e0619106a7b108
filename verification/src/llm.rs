//! The chat-completion data model shared by the agent and the model client:
//! messages, tool calls, responses and tool definitions.

use vstd::prelude::*;
use vstd::string::StringExecFns;

use crate::json::{
    compact_json_text, json_compact, json_parses, json_tree_of, member, member_text, parse_json_tree,
    JsonTree, JsonValue,
};
use crate::text::{clone_string, concat};
use crate::tools::ParamSchema;

verus! {

/// Who authored a message.
#[derive(Clone, Copy, PartialEq, Eq, Debug, Structural)]
pub enum Role {
    System,
    User,
    Assistant,
    Tool,
}

/// A tool invocation that the model asked for.
#[derive(Debug)]
pub struct ToolCall {
    pub id: String,
    pub name: String,
    pub arguments: String,
}

pub struct ToolCallView {
    pub id: Seq<char>,
    pub name: Seq<char>,
    pub arguments: Seq<char>,
}

impl View for ToolCall {
    type V = ToolCallView;

    open spec fn view(&self) -> ToolCallView {
        ToolCallView { id: self.id@, name: self.name@, arguments: self.arguments@ }
    }
}

impl DeepView for ToolCall {
    type V = ToolCallView;

    open spec fn deep_view(&self) -> ToolCallView {
        self.view()
    }
}

impl ToolCall {
    pub fn new(id: &str, name: &str, arguments: &str) -> (c: ToolCall)
        ensures
            c.id@ == id@,
            c.name@ == name@,
            c.arguments@ == arguments@,
    {
        ToolCall { id: id.to_owned(), name: name.to_owned(), arguments: arguments.to_owned() }
    }

    /// A copy with the same id, name and arguments.
    pub fn duplicate(&self) -> (c: ToolCall)
        ensures
            c@ == self@,
    {
        ToolCall {
            id: clone_string(&self.id),
            name: clone_string(&self.name),
            arguments: clone_string(&self.arguments),
        }
    }
}

/// A copy of every call, in order.
pub fn duplicate_calls(calls: &Vec<ToolCall>) -> (out: Vec<ToolCall>)
    ensures
        out.deep_view() == calls.deep_view(),
{
    let mut out: Vec<ToolCall> = Vec::new();
    let mut i: usize = 0;
    while i < calls.len()
        invariant
            i <= calls.len(),
            out.deep_view() == calls.deep_view().take(i as int),
        decreases calls.len() - i,
    {
        let c = calls[i].duplicate();
        let ghost before = out.deep_view();
        out.push(c);
        assert(out.deep_view() =~= before.push(c@));
        assert(calls.deep_view().take(i as int).push(calls.deep_view()[i as int]) =~= calls.deep_view().take(i + 1));
        i = i + 1;
    }
    assert(calls.deep_view().take(calls.len() as int) =~= calls.deep_view());
    out
}

/// One entry of the conversation sent to the model.
#[derive(Debug)]
pub struct Message {
    pub role: Role,
    pub content: Option<String>,
    pub tool_calls: Option<Vec<ToolCall>>,
    pub tool_call_id: Option<String>,
    pub name: Option<String>,
}

pub struct MessageView {
    pub role: Role,
    pub content: Option<Seq<char>>,
    pub tool_calls: Option<Seq<ToolCallView>>,
    pub tool_call_id: Option<Seq<char>>,
    pub name: Option<Seq<char>>,
}

impl View for Message {
    type V = MessageView;

    open spec fn view(&self) -> MessageView {
        MessageView {
            role: self.role,
            content: self.content.deep_view(),
            tool_calls: self.tool_calls.deep_view(),
            tool_call_id: self.tool_call_id.deep_view(),
            name: self.name.deep_view(),
        }
    }
}

impl DeepView for Message {
    type V = MessageView;

    open spec fn deep_view(&self) -> MessageView {
        self.view()
    }
}

/// A message with only a role and a text.
pub open spec fn text_message(role: Role, text: Seq<char>) -> MessageView {
    MessageView { role, content: Some(text), tool_calls: None, tool_call_id: None, name: None }
}

/// An assistant turn, with the text and the tool calls the model returned.
pub open spec fn assistant_message(
    content: Option<Seq<char>>,
    tool_calls: Option<Seq<ToolCallView>>,
) -> MessageView {
    MessageView { role: Role::Assistant, content, tool_calls, tool_call_id: None, name: None }
}

/// The result of one tool call, addressed to the call's id.
pub open spec fn tool_message(id: Seq<char>, name: Seq<char>, content: Seq<char>) -> MessageView {
    MessageView {
        role: Role::Tool,
        content: Some(content),
        tool_calls: None,
        tool_call_id: Some(id),
        name: Some(name),
    }
}

impl Message {
    pub fn system(content: &str) -> (m: Message)
        ensures
            m@ == text_message(Role::System, content@),
    {
        Message {
            role: Role::System,
            content: Some(content.to_owned()),
            tool_calls: None,
            tool_call_id: None,
            name: None,
        }
    }

    pub fn user(content: &str) -> (m: Message)
        ensures
            m@ == text_message(Role::User, content@),
    {
        Message {
            role: Role::User,
            content: Some(content.to_owned()),
            tool_calls: None,
            tool_call_id: None,
            name: None,
        }
    }

    pub fn assistant(content: Option<String>, tool_calls: Option<Vec<ToolCall>>) -> (m: Message)
        ensures
            m@ == assistant_message(content.deep_view(), tool_calls.deep_view()),
    {
        Message { role: Role::Assistant, content, tool_calls, tool_call_id: None, name: None }
    }

    pub fn tool(id: &str, name: &str, content: &str) -> (m: Message)
        ensures
            m@ == tool_message(id@, name@, content@),
    {
        Message {
            role: Role::Tool,
            content: Some(content.to_owned()),
            tool_calls: None,
            tool_call_id: Some(id.to_owned()),
            name: Some(name.to_owned()),
        }
    }
}

/// What the model answered to one request.
#[derive(Debug)]
pub struct ChatResponse {
    pub content: Option<String>,
    pub tool_calls: Vec<ToolCall>,
    pub finish_reason: Option<String>,
}

pub struct ChatResponseView {
    pub content: Option<Seq<char>>,
    pub tool_calls: Seq<ToolCallView>,
    pub finish_reason: Option<Seq<char>>,
}

impl View for ChatResponse {
    type V = ChatResponseView;

    open spec fn view(&self) -> ChatResponseView {
        ChatResponseView {
            content: self.content.deep_view(),
            tool_calls: self.tool_calls.deep_view(),
            finish_reason: self.finish_reason.deep_view(),
        }
    }
}

impl ChatResponse {
    /// Builds a response from the fields of a completion choice; an empty
    /// text counts as no text.
    pub fn from_parts(
        content: Option<String>,
        tool_calls: Vec<ToolCall>,
        finish_reason: Option<String>,
    ) -> (r: ChatResponse)
        ensures
            r.content.deep_view() == (match content.deep_view() {
                Some(t) => if t.len() == 0 { None } else { Some(t) },
                None => None,
            }),
            r.tool_calls.deep_view() == tool_calls.deep_view(),
            r.finish_reason.deep_view() == finish_reason.deep_view(),
    {
        let content = match content {
            Some(t) => if t.as_str().is_empty() { None } else { Some(t) },
            None => None,
        };
        ChatResponse { content, tool_calls, finish_reason }
    }
}

/// A tool as it is announced to the model.
pub struct ToolDefinition {
    pub name: String,
    pub description: String,
    pub parameters: ParamSchema,
}

impl ToolDefinition {
    pub fn new(name: &str, description: &str, parameters: ParamSchema) -> (d: ToolDefinition)
        ensures
            d.name@ == name@,
            d.description@ == description@,
            d.parameters == parameters,
    {
        ToolDefinition { name: name.to_owned(), description: description.to_owned(), parameters }
    }
}

// ---------------------------------------------------------------------------
// Reading a chat-completion reply
// ---------------------------------------------------------------------------

/// A tool call as a reply writes it: an object with an `id` text and a
/// `function` object holding `name` and `arguments` texts.
pub open spec fn call_of(v: JsonValue) -> Option<ToolCallView> {
    let f = member(v, "function"@);
    match (member_text(v, "id"@), member_text(f, "name"@), member_text(f, "arguments"@)) {
        (Some(id), Some(name), Some(arguments)) => Some(
            ToolCallView { id, name, arguments },
        ),
        _ => None,
    }
}

/// The tool calls among `items` that read as tool calls, in order; the
/// others are passed over.
pub open spec fn calls_of(items: Seq<JsonValue>) -> Seq<ToolCallView>
    decreases items.len(),
{
    if items.len() == 0 {
        Seq::empty()
    } else {
        let earlier = calls_of(items.drop_last());
        match call_of(items.last()) {
            Some(c) => earlier.push(c),
            None => earlier,
        }
    }
}

/// A text, with the empty text counted as none.
pub open spec fn non_empty(t: Option<Seq<char>>) -> Option<Seq<char>> {
    match t {
        Some(x) => if x.len() == 0 {
            None
        } else {
            Some(x)
        },
        None => None,
    }
}

/// The response a reply carries: its first choice's message text (when
/// not empty), the tool calls of that message that read as tool calls, and
/// the choice's finish reason; `None` when the reply has no choice.
pub open spec fn reply_of(data: JsonValue) -> Option<ChatResponseView> {
    match member(data, "choices"@) {
        JsonValue::Array(choices) => if choices.len() == 0 {
            None
        } else {
            let choice = choices[0];
            let message = member(choice, "message"@);
            Some(
                ChatResponseView {
                    content: non_empty(member_text(message, "content"@)),
                    tool_calls: match member(message, "tool_calls"@) {
                        JsonValue::Array(items) => calls_of(items),
                        _ => Seq::empty(),
                    },
                    finish_reason: member_text(choice, "finish_reason"@),
                },
            )
        },
        _ => None,
    }
}

/// The error for a reply body that is not JSON.
pub open spec fn undecodable_body_error() -> Seq<char> {
    "error decoding response body"@
}

/// The error for a reply without a choice; it shows the reply.
pub open spec fn no_choices_error(body: Seq<char>) -> Seq<char> {
    "No choices in DeepSeek API response: "@ + json_compact(body)
}

/// The value of `o`, with `None` read as `Null`.
pub open spec fn or_null(o: Option<&JsonTree>) -> JsonValue {
    match o {
        Some(t) => t@,
        None => JsonValue::Null,
    }
}

/// The text of member `key` of the value `v` (absent counting as `Null`).
fn text_member(v: Option<&JsonTree>, key: &str) -> (r: Option<String>)
    ensures
        r.deep_view() == member_text(or_null(v), key@),
{
    match v {
        Some(t) => match t.get(key) {
            Some(x) => x.text(),
            None => None,
        },
        None => None,
    }
}

/// The member `key` of the value `v` (absent counting as `Null`).
fn member_in<'a>(v: Option<&'a JsonTree>, key: &str) -> (r: Option<&'a JsonTree>)
    ensures
        or_null(r) == member(or_null(v), key@),
{
    match v {
        Some(t) => t.get(key),
        None => None,
    }
}

impl ToolCall {
    /// Reads a tool call from its JSON form in a reply.
    pub fn from_json(v: &JsonTree) -> (r: Option<ToolCall>)
        ensures
            r.deep_view() == call_of(v@),
    {
        let f = member_in(Some(v), "function");
        let id = text_member(Some(v), "id");
        let name = text_member(f, "name");
        let arguments = text_member(f, "arguments");
        match (id, name, arguments) {
            (Some(id), Some(name), Some(arguments)) => Some(ToolCall { id, name, arguments }),
            _ => None,
        }
    }
}

/// The tool calls among `items` that read as tool calls, in order.
fn calls_from(items: &Vec<JsonTree>) -> (r: Vec<ToolCall>)
    ensures
        r.deep_view() == calls_of(items@.map_values(|t: JsonTree| t@)),
{
    let ghost iv = items@.map_values(|t: JsonTree| t@);
    let mut out: Vec<ToolCall> = Vec::new();
    let mut i: usize = 0;
    while i < items.len()
        invariant
            i <= items.len(),
            iv == items@.map_values(|t: JsonTree| t@),
            out.deep_view() == calls_of(iv.take(i as int)),
        decreases items.len() - i,
    {
        assert(iv.take(i + 1).drop_last() =~= iv.take(i as int));
        assert(iv.take(i + 1).last() == items@[i as int]@);
        let ghost before = out.deep_view();
        match ToolCall::from_json(&items[i]) {
            Some(c) => {
                let ghost cv = c@;
                out.push(c);
                assert(out.deep_view() =~= before.push(cv));
            },
            None => {},
        }
        i = i + 1;
    }
    assert(iv.take(i as int) =~= iv);
    out
}

/// The items of a JSON array, as `tree_view` lists them.
proof fn lemma_array_items(t: &JsonTree)
    requires
        t matches JsonTree::Array(_),
    ensures
        t@ == JsonValue::Array(t->Array_0@.map_values(|x: JsonTree| x@)),
{
    let items = t->Array_0;
    assert(t@->Array_0 =~= items@.map_values(|x: JsonTree| x@));
}

impl ChatResponse {
    /// Reads the response a parsed reply carries: see `reply_of`.
    pub fn from_json(data: &JsonTree) -> (r: Option<ChatResponse>)
        ensures
            match r {
                Some(c) => reply_of(data@) == Some(c@),
                None => reply_of(data@) is None,
            },
    {
        let choices = data.get("choices");
        let choice = match choices {
            Some(t) => match t {
                JsonTree::Array(cs) => {
                    proof {
                        lemma_array_items(t);
                    }
                    if cs.len() == 0 {
                        return None;
                    }
                    &cs[0]
                },
                _ => return None,
            },
            None => return None,
        };
        let message = member_in(Some(choice), "message");
        let content = text_member(message, "content");
        let finish_reason = text_member(Some(choice), "finish_reason");
        let tool_calls = match member_in(message, "tool_calls") {
            Some(t) => match t {
                JsonTree::Array(items) => {
                    proof {
                        lemma_array_items(t);
                    }
                    calls_from(items)
                },
                _ => {
                    let v: Vec<ToolCall> = Vec::new();
                    assert(v.deep_view() =~= Seq::<ToolCallView>::empty());
                    v
                },
            },
            None => {
                let v: Vec<ToolCall> = Vec::new();
                assert(v.deep_view() =~= Seq::<ToolCallView>::empty());
                v
            },
        };
        let ghost mv = member(choice@, "message"@);
        assert(tool_calls.deep_view() == match member(mv, "tool_calls"@) {
            JsonValue::Array(items) => calls_of(items),
            _ => Seq::empty(),
        });
        assert(member(data@, "choices"@)->Array_0[0] == choice@);
        Some(ChatResponse::from_parts(content, tool_calls, finish_reason))
    }
}

/// Reads a chat-completion reply body: the response of its first choice,
/// or the error for a body that is not JSON or has no choice.
pub fn decode_chat_response(body: &str) -> (r: Result<ChatResponse, String>)
    ensures
        !json_parses(body@) ==> (r matches Err(m) && m@ == undecodable_body_error()),
        json_parses(body@) ==> match reply_of(json_tree_of(body@)) {
            Some(v) => r matches Ok(c) && c@ == v,
            None => r matches Err(m) && m@ == no_choices_error(body@),
        },
{
    match parse_json_tree(body) {
        Err(_) => Err(String::from_str("error decoding response body")),
        Ok(data) => match ChatResponse::from_json(&data) {
            Some(c) => Ok(c),
            None => {
                let shown = match compact_json_text(body) {
                    Some(t) => t,
                    None => String::new(),
                };
                Err(concat("No choices in DeepSeek API response: ", shown.as_str()))
            },
        },
    }
}

} // verus!
