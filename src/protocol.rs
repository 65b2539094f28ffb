//! The values exchanged with the inference server, as plain data.

use vstd::prelude::*;

verus! {

/// One entry of a conversation: who spoke and what was said.
#[derive(Clone, Debug)]
pub struct Message {
    pub role: String,
    pub content: String,
}

/// The mathematical content of a [`Message`].
pub struct MessageView {
    pub role: Seq<char>,
    pub content: Seq<char>,
}

impl View for Message {
    type V = MessageView;

    open spec fn view(&self) -> MessageView {
        MessageView { role: self.role@, content: self.content@ }
    }
}

impl PartialEq for Message {
    fn eq(&self, other: &Message) -> (r: bool) {
        self.role == other.role && self.content == other.content
    }
}

impl vstd::std_specs::cmp::PartialEqSpecImpl for Message {
    open spec fn obeys_eq_spec() -> bool {
        true
    }

    open spec fn eq_spec(&self, other: &Message) -> bool {
        self.role@ == other.role@ && self.content@ == other.content@
    }
}

/// Role of a message typed by the person using the client.
pub open spec fn user_role() -> Seq<char> {
    "user"@
}

/// Role of a message that the client writes itself to report a failure.
pub open spec fn system_role() -> Seq<char> {
    "system"@
}

impl Message {
    /// A message typed by the user.
    pub fn user(content: String) -> (r: Message)
        ensures
            r@ == (MessageView { role: user_role(), content: content@ }),
    {
        Message { role: String::from_str("user"), content }
    }

    /// A status message written by the client itself.
    pub fn system(content: String) -> (r: Message)
        ensures
            r@ == (MessageView { role: system_role(), content: content@ }),
    {
        Message { role: String::from_str("system"), content }
    }

    /// A field-by-field copy.
    pub fn duplicate(&self) -> (r: Message)
        ensures
            r@ == self@,
    {
        Message { role: self.role.clone(), content: self.content.clone() }
    }
}

/// The views of a sequence of messages.
pub open spec fn messages_view(messages: Seq<Message>) -> Seq<MessageView> {
    messages.map_values(|m: Message| m@)
}

/// Copies a whole message list, entry by entry.
pub fn copy_messages(messages: &Vec<Message>) -> (r: Vec<Message>)
    ensures
        messages_view(r@) == messages_view(messages@),
{
    let mut r: Vec<Message> = Vec::new();
    let mut i: usize = 0;
    while i < messages.len()
        invariant
            i <= messages@.len(),
            r@.len() == i,
            forall|j: int| 0 <= j < i ==> #[trigger] r@[j]@ == messages@[j]@,
        decreases messages@.len() - i,
    {
        r.push(messages[i].duplicate());
        i = i + 1;
    }
    assert(messages_view(r@) =~= messages_view(messages@));
    r
}

/// Body of a chat-completion request: the whole conversation so far, for one model.
pub struct ChatRequest {
    pub model: String,
    pub messages: Vec<Message>,
    pub stream: bool,
}

/// Body of a successful chat-completion reply.
pub struct ChatResponse {
    pub message: Message,
}

/// One entry of the server's model listing.
pub struct ModelInfo {
    pub name: String,
}

/// Body of a successful model listing.
pub struct TagsResponse {
    pub models: Vec<ModelInfo>,
}

/// The names of the listed models, in listing order.
pub open spec fn listed_names(tags: TagsResponse) -> Seq<Seq<char>> {
    tags.models@.map_values(|m: ModelInfo| m.name@)
}

/// How one HTTP exchange with the server ended.
pub enum FetchOutcome<T> {
    /// No response was obtained; the text describes the transport failure.
    TransportFailed(String),
    /// A response came with a status outside the success range.
    HttpStatus(u16),
    /// A successful response whose body does not have the expected shape.
    ParseFailed(String),
    /// A successful response with a well-formed body.
    Received(T),
}

} // verus!
