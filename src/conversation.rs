//! The conversation controller: the message history, submission of user input
//! and the handling of chat-completion replies.

use vstd::prelude::*;

use crate::connection::ConnectionManager;
use crate::protocol::{
    copy_messages, messages_view, system_role, user_role, ChatRequest, ChatResponse,
    FetchOutcome, Message, MessageView,
};
use crate::text::{decimal, decimal_text, prefixed};

verus! {

/// The mathematical content of a [`Conversation`].
pub struct ConversationView {
    pub history: Seq<MessageView>,
    pub busy: bool,
}

/// The history of one conversation, and whether a request is in flight.
pub struct Conversation {
    history: Vec<Message>,
    busy: bool,
}

/// A chat-completion request to be sent: where, and with which body.
pub struct ChatCommand {
    pub url: String,
    pub request: ChatRequest,
}

/// Address of the chat-completion service of the server at `endpoint`.
pub open spec fn chat_url(endpoint: Seq<char>) -> Seq<char> {
    endpoint + "/api/chat"@
}

/// Whether a submission of `text` with `model` selected is taken up.
pub open spec fn accepts(text: Seq<char>, model: Seq<char>) -> bool {
    text.len() > 0 && model.len() > 0
}

/// A conversation with nothing said and nothing in flight.
pub open spec fn initial_conversation() -> ConversationView {
    ConversationView { history: Seq::empty(), busy: false }
}

/// Effect of a submission: an accepted one appends the user's message and
/// marks the conversation busy; any other changes nothing.
pub open spec fn after_submit(
    s: ConversationView,
    text: Seq<char>,
    model: Seq<char>,
) -> ConversationView {
    if accepts(text, model) {
        ConversationView {
            history: s.history.push(MessageView { role: user_role(), content: text }),
            busy: true,
        }
    } else {
        s
    }
}

/// The message that the end of a chat-completion exchange appends: the
/// server's message on success, a system message describing the failure
/// otherwise.
pub open spec fn reply_message(outcome: FetchOutcome<ChatResponse>) -> MessageView {
    match outcome {
        FetchOutcome::TransportFailed(d) => MessageView {
            role: system_role(),
            content: "Network Error: "@ + d@,
        },
        FetchOutcome::HttpStatus(code) => MessageView {
            role: system_role(),
            content: "API Error: "@ + decimal(code as nat),
        },
        FetchOutcome::ParseFailed(d) => MessageView {
            role: system_role(),
            content: "Error parsing response: "@ + d@,
        },
        FetchOutcome::Received(resp) => resp.message@,
    }
}

/// Effect of the end of a chat-completion exchange.
pub open spec fn after_reply(
    s: ConversationView,
    outcome: FetchOutcome<ChatResponse>,
) -> ConversationView {
    ConversationView { history: s.history.push(reply_message(outcome)), busy: false }
}

impl View for Conversation {
    type V = ConversationView;

    closed spec fn view(&self) -> ConversationView {
        ConversationView { history: messages_view(self.history@), busy: self.busy }
    }
}

fn chat_url_of(endpoint: &String) -> (r: String)
    ensures
        r@ == chat_url(endpoint@),
{
    let mut r = endpoint.clone();
    r.append("/api/chat");
    r
}

/// The message that ends a chat-completion exchange with `outcome`.
pub fn reply_for(outcome: FetchOutcome<ChatResponse>) -> (r: Message)
    ensures
        r@ == reply_message(outcome),
{
    match outcome {
        FetchOutcome::TransportFailed(d) => Message::system(prefixed("Network Error: ", &d)),
        FetchOutcome::HttpStatus(code) => {
            let digits = decimal_text(code);
            Message::system(prefixed("API Error: ", &digits))
        },
        FetchOutcome::ParseFailed(d) => Message::system(
            prefixed("Error parsing response: ", &d),
        ),
        FetchOutcome::Received(resp) => resp.message,
    }
}

impl Conversation {
    /// An empty, idle conversation.
    pub fn new() -> (r: Conversation)
        ensures
            r@ == initial_conversation(),
    {
        let r = Conversation { history: Vec::new(), busy: false };
        assert(r@.history =~= Seq::<MessageView>::empty());
        r
    }

    /// Takes up `text` when it and the selected model of `connection` are both
    /// non-empty: the user's message is appended, the conversation becomes
    /// busy, and the request to send is returned, carrying the whole history
    /// and the model selected now. Otherwise nothing changes and `None` comes
    /// back. A call while busy is not refused here: the caller holds input
    /// back while [`Conversation::is_busy`] is true.
    pub fn submit(&mut self, text: String, connection: &ConnectionManager) -> (r: Option<
        ChatCommand,
    >)
        ensures
            final(self)@ == after_submit(old(self)@, text@, connection@.selected),
            r is Some <==> accepts(text@, connection@.selected),
            r matches Some(c) ==> {
                &&& c.url@ == chat_url(connection@.endpoint)
                &&& c.request.model@ == connection@.selected
                &&& messages_view(c.request.messages@) == final(self)@.history
                &&& !c.request.stream
            },
    {
        let model = connection.selected_model();
        if text.as_str().is_empty() || model.as_str().is_empty() {
            return None;
        }
        let ghost before = messages_view(self.history@);
        self.history.push(Message::user(text));
        self.busy = true;
        assert(messages_view(self.history@) =~= before.push(
            MessageView { role: user_role(), content: text@ },
        ));
        let messages = copy_messages(&self.history);
        let url = chat_url_of(connection.endpoint());
        Some(ChatCommand { url, request: ChatRequest { model: model.clone(), messages, stream: false } })
    }

    /// Records the end of a chat-completion exchange: exactly one message is
    /// appended, and the conversation is idle again.
    pub fn finish_chat(&mut self, outcome: FetchOutcome<ChatResponse>)
        ensures
            final(self)@ == after_reply(old(self)@, outcome),
    {
        let ghost before = messages_view(self.history@);
        let reply = reply_for(outcome);
        self.history.push(reply);
        self.busy = false;
        assert(messages_view(self.history@) =~= before.push(reply_message(outcome)));
    }

    /// The messages so far, oldest first.
    pub fn history(&self) -> (r: &Vec<Message>)
        ensures
            messages_view(r@) == self@.history,
    {
        &self.history
    }

    /// Whether a chat-completion request is in flight.
    pub fn is_busy(&self) -> (r: bool)
        ensures
            r == self@.busy,
    {
        self.busy
    }
}

} // verus!
