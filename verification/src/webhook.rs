use vstd::prelude::*;
use vstd::string::*;
use crate::json::{
    json_is_object, json_member, json_member_of, json_object, json_text, json_text_of,
};
use crate::text::{opt_text, same_text};

verus! {

/// One call of a tool that the voice provider asks the service to make.
pub struct ToolCall {
    pub id: String,
    pub kind: String,
    pub name: String,
    pub arguments: serde_json::Value,
}

/// What the dispatcher reads of an event that the voice provider posts.
pub struct CallEvent {
    pub request_type: String,
    pub phone_number: Option<String>,
    pub tool_calls: Option<Vec<ToolCall>>,
}

/// The plain answer to an event: a status word and a message, and no data.
pub struct ServerResponse {
    pub status: String,
    pub message: String,
    pub data: Option<String>,
}

/// The assistant that answers a call, and how it greets the caller.
pub struct AssistantReply {
    pub assistant_id: String,
    pub first_message: String,
    pub name: String,
}

/// What the user store answered when it was asked who calls from a number.
pub enum CallerLookup {
    /// A user has that number, with or without a nickname.
    Found { nickname: Option<String> },
    /// No user has that number.
    Missing,
    /// The store could not answer.
    Failed,
}

/// The answer to an event.
pub enum CallReply {
    Assistant(AssistantReply),
    Status(ServerResponse),
}

/// What the dispatcher wants done for an event: look the caller up and come
/// back with the store's answer, or send a reply right away.
pub enum CallAction {
    FindCaller { phone_number: String },
    Answer(CallReply),
}

/// The tools that an event can ask for.
#[derive(Clone, Copy, Debug, PartialEq, Eq, Structural)]
pub enum ToolKind {
    PerplexityAsk,
    SystemCommand,
    Unknown,
}

/// What is to be done for one tool call.
pub enum ToolAction {
    /// Put the question to the search service.
    AskPerplexity { message: String },
    /// A search was asked for, but its arguments are no JSON object.
    Nothing,
    /// Note the system command.
    SystemCommand,
    /// Note that the tool is not known.
    Unknown,
}

/// The id of the assistant that every reply names.
pub open spec fn assistant_id() -> Seq<char> {
    "d60f5e83-3d90-4604-9d7d-06cb5decdc36"@
}

/// The nickname that the store knows the caller by, if it knows one.
pub open spec fn known_nickname(caller: CallerLookup) -> Option<Seq<char>> {
    match caller {
        CallerLookup::Found { nickname: Some(n) } => Some(n@),
        _ => None,
    }
}

/// The tool that a function name stands for.
pub open spec fn tool_kind_of(name: Seq<char>) -> ToolKind {
    if name == "perplexity-ask"@ {
        ToolKind::PerplexityAsk
    } else if name == "system-command"@ {
        ToolKind::SystemCommand
    } else {
        ToolKind::Unknown
    }
}

/// The question that a search call carries: none unless its arguments are
/// an object, and then the text of the member `message`, or the empty text
/// where that member is missing or is no text.
pub open spec fn question_of(is_object: bool, message: Option<Seq<char>>) -> Option<Seq<char>> {
    if !is_object {
        None
    } else {
        match message {
            Some(m) => Some(m),
            None => Some(Seq::empty()),
        }
    }
}

impl ServerResponse {
    /// Whether this response has the given status and message, and no data.
    pub open spec fn has(self, status: Seq<char>, message: Seq<char>) -> bool {
        self.status@ == status && self.message@ == message && self.data is None
    }

    fn new(status: &str, message: &str) -> (r: ServerResponse)
        ensures
            r.has(status@, message@),
    {
        ServerResponse { status: status.to_owned(), message: message.to_owned(), data: None }
    }
}

impl AssistantReply {
    /// Whether this reply names the service's assistant and greets a caller
    /// of that nickname: by the nickname where there is one, and else with
    /// the provider's placeholder.
    pub open spec fn greets(self, nickname: Option<Seq<char>>) -> bool {
        &&& self.assistant_id@ == assistant_id()
        &&& match nickname {
            Some(n) => self.first_message@ == "Hello! "@ + n && self.name@ == n,
            None => self.first_message@ == "Hello! {{name}}"@ && self.name@ == "nickname"@,
        }
    }

    fn greeting(nickname: Option<&str>) -> (r: AssistantReply)
        ensures
            r.greets(opt_text(nickname)),
    {
        let assistant_id = "d60f5e83-3d90-4604-9d7d-06cb5decdc36".to_owned();
        match nickname {
            Some(n) => AssistantReply {
                assistant_id,
                first_message: "Hello! ".to_owned().concat(n),
                name: n.to_owned(),
            },
            None => AssistantReply {
                assistant_id,
                first_message: "Hello! {{name}}".to_owned(),
                name: "nickname".to_owned(),
            },
        }
    }
}

/// Answers a request for an assistant once the store has said who calls:
/// a known caller with a nickname is greeted by it, everyone else with the
/// placeholder.
pub fn handle_assistant_request(caller: &CallerLookup) -> (reply: AssistantReply)
    ensures
        reply.greets(known_nickname(*caller)),
{
    match caller {
        CallerLookup::Found { nickname: Some(n) } => AssistantReply::greeting(Some(n.as_str())),
        _ => AssistantReply::greeting(None),
    }
}

/// What a request for an assistant needs next: with the caller's number,
/// the store is to be asked who calls from it; without one, nobody is
/// looked up and the placeholder greeting is sent.
pub fn caller_to_find(phone_number: Option<&str>) -> (action: CallAction)
    ensures
        match phone_number {
            Some(p) => action matches CallAction::FindCaller { phone_number: n } && n@ == p@,
            None => action matches CallAction::Answer(CallReply::Assistant(r)) && r.greets(None),
        },
{
    match phone_number {
        Some(p) => CallAction::FindCaller { phone_number: p.to_owned() },
        None => CallAction::Answer(CallReply::Assistant(AssistantReply::greeting(None))),
    }
}

/// Dispatches an event by its request type; `None` stands for a payload
/// that could not be read as an event. Only requests for an assistant are
/// served: with a caller's number the store is to be asked, without one the
/// placeholder greeting is sent. Every other event is answered with an
/// error, and so is an unreadable payload.
pub fn handle_phone_call_event(event: Option<&CallEvent>) -> (action: CallAction)
    ensures
        match event {
            None => action matches CallAction::Answer(CallReply::Status(r)) && r.has(
                "error"@,
                "Error parsing payload"@,
            ),
            Some(e) => if e.request_type@ == "assistant-request"@ {
                match e.phone_number {
                    Some(p) => action matches CallAction::FindCaller { phone_number }
                        && phone_number@ == p@,
                    None => action matches CallAction::Answer(CallReply::Assistant(r))
                        && r.greets(None),
                }
            } else {
                action matches CallAction::Answer(CallReply::Status(r)) && r.has(
                    "error"@,
                    "Unknown request type"@,
                )
            },
        },
{
    match event {
        None => CallAction::Answer(
            CallReply::Status(ServerResponse::new("error", "Error parsing payload")),
        ),
        Some(e) => {
            if same_text(e.request_type.as_str(), "assistant-request") {
                match &e.phone_number {
                    Some(p) => caller_to_find(Some(p.as_str())),
                    None => caller_to_find(None),
                }
            } else {
                CallAction::Answer(
                    CallReply::Status(ServerResponse::new("error", "Unknown request type")),
                )
            }
        },
    }
}

/// The tool that a function name stands for.
pub fn classify_tool(name: &str) -> (kind: ToolKind)
    ensures
        kind == tool_kind_of(name@),
{
    if same_text(name, "perplexity-ask") {
        ToolKind::PerplexityAsk
    } else if same_text(name, "system-command") {
        ToolKind::SystemCommand
    } else {
        ToolKind::Unknown
    }
}

/// The question of a search call, from what its arguments were read to be.
pub fn perplexity_question(is_object: bool, message: Option<&str>) -> (r: Option<String>)
    ensures
        match r {
            Some(q) => question_of(is_object, opt_text(message)) == Some(q@),
            None => question_of(is_object, opt_text(message)) is None,
        },
{
    if !is_object {
        return None;
    }
    match message {
        Some(m) => Some(m.to_owned()),
        None => Some(String::new()),
    }
}

/// The question that a search call's arguments carry: none unless they are
/// a JSON object, and then the text of their member `message`, or the empty
/// text where that member is missing or is no text.
pub open spec fn question_in(arguments: serde_json::Value) -> Option<Seq<char>> {
    question_of(
        json_object(arguments),
        match json_member_of(arguments, "message"@) {
            Some(member) => json_text_of(member),
            None => None,
        },
    )
}

impl ToolAction {
    /// Whether this is the action that a tool call asks for: a search call
    /// with a question puts that question to the search service, one
    /// without does nothing, and the other calls are noted by their kind.
    pub open spec fn answers(self, call: ToolCall) -> bool {
        match tool_kind_of(call.name@) {
            ToolKind::PerplexityAsk => match question_in(call.arguments) {
                Some(question) => self matches ToolAction::AskPerplexity { message } && message@
                    == question,
                None => self is Nothing,
            },
            ToolKind::SystemCommand => self is SystemCommand,
            ToolKind::Unknown => self is Unknown,
        }
    }
}

/// What is to be done for one tool call. A search call's question is read
/// from its JSON arguments.
pub fn tool_action(call: &ToolCall) -> (action: ToolAction)
    ensures
        action.answers(*call),
{
    match classify_tool(call.name.as_str()) {
        ToolKind::PerplexityAsk => {
            let message = match json_member(&call.arguments, "message") {
                Some(member) => json_text(member),
                None => None,
            };
            match perplexity_question(json_is_object(&call.arguments), message) {
                Some(question) => ToolAction::AskPerplexity { message: question },
                None => ToolAction::Nothing,
            }
        },
        ToolKind::SystemCommand => ToolAction::SystemCommand,
        ToolKind::Unknown => ToolAction::Unknown,
    }
}

/// The tool calls that an event carries; none where it has no such list.
pub open spec fn calls_of(event: CallEvent) -> Seq<ToolCall> {
    match event.tool_calls {
        Some(calls) => calls@,
        None => Seq::empty(),
    }
}

/// Goes through the tool calls of an event: for each call, in order, the
/// one action that it asks for, and the response that reports the calls as
/// processed. The search service is thus asked once for each search call
/// that carries a question, with that question, and for no other call.
pub fn handle_tool_calls(event: &CallEvent) -> (r: (Vec<ToolAction>, ServerResponse))
    ensures
        r.0.len() == calls_of(*event).len(),
        forall|i: int| 0 <= i < r.0.len() ==> (#[trigger] r.0[i]).answers(calls_of(*event)[i]),
        r.1.has("success"@, "Tool calls processed successfully"@),
{
    let mut actions: Vec<ToolAction> = Vec::new();
    if let Some(calls) = &event.tool_calls {
        let mut i: usize = 0;
        while i < calls.len()
            invariant
                i <= calls.len(),
                calls@ == calls_of(*event),
                actions.len() == i,
                forall|j: int| 0 <= j < i ==> (#[trigger] actions[j]).answers(calls[j]),
            decreases calls.len() - i,
        {
            let action = tool_action(&calls[i]);
            actions.push(action);
            i = i + 1;
        }
    }
    (actions, ServerResponse::new("success", "Tool calls processed successfully"))
}

/// Acknowledges a status update.
pub fn handle_status_update(_event: &CallEvent) -> (r: ServerResponse)
    ensures
        r.has("success"@, "Status update received"@),
{
    ServerResponse::new("success", "Status update received")
}

} // verus!
