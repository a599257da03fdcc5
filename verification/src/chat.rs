//! The conversation: its transcript, the turn rule by which instructions
//! get their roles, the request that each turn sends and the way each reply
//! is folded back into the transcript.

use vstd::prelude::*;
use crate::endpoint::{chat_completions_url, Connection};
use crate::error::Error;
use crate::json::{
    array_value, empty_object, json_of, json_text, member, new_object, object_insert,
    object_value, text_value, value_as_array, value_as_str, value_get, values_of, write_value,
    Json,
};
use crate::text::{name_mark, trim, trimmed};
use crate::transport::{
    decoded_reply, exchange, exchanged, post_request, read_reply, views_as, Outcome, Request,
    RequestView,
};
use crate::types::Usage;
use crate::wire::{
    get_i64, get_items, get_text, get_u32, integer_member, items_member, json_one_or_many,
    lemma_with_member, one_or_many_json, optional_bool, optional_integer, optional_number,
    optional_string, put_bool, put_number, put_text, put_u32, put_value, read_texts,
    text_member, texts, texts_value, with_member, OneOrMany,
};

verus! {

/// The speaker of one message of a conversation.
#[derive(Debug, Clone, Copy, PartialEq, Eq, Structural)]
pub enum Role {
    System,
    User,
    Assistant,
}

impl Role {
    /// The tag under which the role goes over the wire.
    pub open spec fn name(self) -> Seq<char> {
        match self {
            Role::System => "system"@,
            Role::User => "user"@,
            Role::Assistant => "assistant"@,
        }
    }

    /// The role that the turn rule gives to the message at `position` of a
    /// transcript: the first message carries the instructions, and after it
    /// the user and the assistant take turns, the user first.
    pub open spec fn at(position: nat) -> Role {
        if position == 0 {
            Role::System
        } else if (position - 1) % 2 == 0 {
            Role::User
        } else {
            Role::Assistant
        }
    }

    pub fn as_str(self) -> (s: &'static str)
        ensures
            s@ == self.name(),
    {
        match self {
            Role::System => "system",
            Role::User => "user",
            Role::Assistant => "assistant",
        }
    }

    /// The role of the next message of a transcript that holds `history_len`
    /// messages.
    pub fn next(history_len: usize) -> (role: Role)
        ensures
            role == Role::at(history_len as nat),
    {
        if history_len == 0 {
            Role::System
        } else if (history_len - 1) % 2 == 0 {
            Role::User
        } else {
            Role::Assistant
        }
    }
}

/// The roles that the turn rule gives to `count` messages appended to a
/// transcript of `start` messages.
pub open spec fn turn_roles(start: nat, count: nat) -> Seq<Role> {
    Seq::new(count, |i: int| Role::at((start + i) as nat))
}

/// Computes the roles of `batch_size` messages that continue a transcript of
/// `history_len` messages.
pub fn assign_roles(history_len: usize, batch_size: usize) -> (roles: Vec<Role>)
    ensures
        roles@ == turn_roles(history_len as nat, batch_size as nat),
{
    let mut roles: Vec<Role> = Vec::new();
    if batch_size == 0 {
        assert(roles@ =~= turn_roles(history_len as nat, 0));
        return roles;
    }
    let mut role = Role::next(history_len);
    let mut i: usize = 0;
    while i < batch_size
        invariant
            i <= batch_size,
            roles@ == turn_roles(history_len as nat, i as nat),
            i < batch_size ==> role == Role::at((history_len + i) as nat),
        decreases batch_size - i,
    {
        roles.push(role);
        role = match role {
            Role::User => Role::Assistant,
            _ => Role::User,
        };
        i += 1;
        assert(roles@ =~= turn_roles(history_len as nat, i as nat));
    }
    roles
}

/// One message of a conversation as a mathematical value.
pub struct MessageView {
    pub role: Seq<char>,
    pub content: Seq<char>,
}

#[derive(Debug, Clone)]
pub struct Message {
    pub role: String,
    pub content: String,
}

impl View for Message {
    type V = MessageView;

    open spec fn view(&self) -> MessageView {
        MessageView { role: self.role@, content: self.content@ }
    }
}

impl Message {
    pub fn new(role: &str, content: &str) -> (message: Self)
        ensures
            message@ == (MessageView { role: role@, content: content@ }),
    {
        Message { role: role.to_owned(), content: content.to_owned() }
    }
}

/// The document that stands for a message: an object with the members
/// `role` and `content`.
pub open spec fn message_json(m: MessageView) -> Json {
    let role = empty_object().insert("role"@, Json::Text(m.role));
    Json::Object(role.insert("content"@, Json::Text(m.content)))
}

/// The document that stands for a transcript: the array of its messages, in
/// order.
pub open spec fn transcript_json(history: Seq<MessageView>) -> Json {
    Json::Array(history.map_values(|m: MessageView| message_json(m)))
}

impl Message {
    /// The message that a document describes: an object whose members `role`
    /// and `content` are strings.
    pub open spec fn decode(j: Json) -> Option<MessageView> {
        match (text_member(j, "role"@), text_member(j, "content"@)) {
            (Some(role), Some(content)) => Some(MessageView { role, content }),
            _ => None,
        }
    }

    pub fn to_json(&self) -> (v: serde_json::Value)
        ensures
            json_of(v) == message_json(self@),
    {
        let mut m = new_object();
        object_insert(&mut m, "role", text_value(self.role.as_str()));
        object_insert(&mut m, "content", text_value(self.content.as_str()));
        object_value(m)
    }

    pub fn from_json(v: &serde_json::Value) -> (r: Option<Message>)
        ensures
            views_as(r, Message::decode(json_of(*v))),
    {
        let role = match get_text(v, "role") {
            Some(s) => s,
            None => {
                return None;
            },
        };
        let content = match get_text(v, "content") {
            Some(s) => s,
            None => {
                return None;
            },
        };
        Some(Message { role, content })
    }
}

/// Where generation stops: at one text, or at any text of a list.
#[derive(Debug, Clone)]
pub enum ChatStop {
    String(String),
    Array(Vec<String>),
}

impl View for ChatStop {
    type V = OneOrMany;

    open spec fn view(&self) -> OneOrMany {
        match self {
            ChatStop::String(s) => OneOrMany::One(s@),
            ChatStop::Array(items) => OneOrMany::Many(texts(items@)),
        }
    }
}

impl ChatStop {
    /// Writes the stop condition as a document: a bare string for one text,
    /// an array of strings for a list.
    pub fn to_json(&self) -> (v: serde_json::Value)
        ensures
            json_of(v) == one_or_many_json(self@),
    {
        match self {
            ChatStop::String(s) => text_value(s.as_str()),
            ChatStop::Array(items) => texts_value(items),
        }
    }

    /// Reads a stop condition back from a document.
    pub fn from_json(v: &serde_json::Value) -> (r: Option<ChatStop>)
        ensures
            views_as(r, json_one_or_many(json_of(*v))),
    {
        match value_as_str(v) {
            Some(s) => Some(ChatStop::String(s.to_owned())),
            None => match value_as_array(v) {
                Some(items) => match read_texts(items) {
                    Some(list) => Some(ChatStop::Array(list)),
                    None => None,
                },
                None => None,
            },
        }
    }
}

/// The document of an optional stop condition.
pub open spec fn optional_stop(stop: Option<ChatStop>) -> Option<Json> {
    match stop {
        Some(x) => Some(one_or_many_json(x@)),
        None => None,
    }
}

/// The messages that instructions become when they continue a transcript of
/// `start` messages: each text is one message, in order, with the role that
/// the turn rule gives to its position.
pub open spec fn bootstrap(start: nat, instructions: Seq<Seq<char>>) -> Seq<MessageView> {
    Seq::new(
        instructions.len(),
        |i: int|
            MessageView { role: Role::at((start + i) as nat).name(), content: instructions[i] },
    )
}

/// The transcript after a series of calls of `instructions`, one for each
/// batch, in order.
pub open spec fn bootstrap_all(
    history: Seq<MessageView>,
    batches: Seq<Seq<Seq<char>>>,
) -> Seq<MessageView>
    decreases batches.len(),
{
    if batches.len() == 0 {
        history
    } else {
        let reached = bootstrap_all(history, batches.drop_last());
        reached + bootstrap(reached.len(), batches.last())
    }
}

/// However instructions are split into batches, the transcript that was
/// there stays at the front as it was, and each message behind it has the
/// role that the turn rule gives to its position.
pub proof fn lemma_bootstrap_by_position(history: Seq<MessageView>, batches: Seq<Seq<Seq<char>>>)
    ensures
        history.len() <= bootstrap_all(history, batches).len(),
        bootstrap_all(history, batches).take(history.len() as int) == history,
        forall|p: int|
            history.len() <= p < bootstrap_all(history, batches).len() ==> (
            #[trigger] bootstrap_all(history, batches)[p]).role == Role::at(p as nat).name(),
    decreases batches.len(),
{
    if batches.len() == 0 {
        assert(history.take(history.len() as int) =~= history);
    } else {
        lemma_bootstrap_by_position(history, batches.drop_last());
        let reached = bootstrap_all(history, batches.drop_last());
        let all = bootstrap_all(history, batches);
        assert(all.take(history.len() as int) =~= reached.take(history.len() as int));
    }
}

/// Instructions given to an empty conversation, in any number of calls:
/// the first message is the system's, and from the second on the user and
/// the assistant take turns, the user first.
pub proof fn lemma_bootstrap_from_empty(batches: Seq<Seq<Seq<char>>>)
    ensures
        forall|p: int|
            0 <= p < bootstrap_all(Seq::empty(), batches).len() ==> (#[trigger] bootstrap_all(
                Seq::empty(),
                batches,
            )[p]).role == (if p == 0 {
                "system"@
            } else if p % 2 == 1 {
                "user"@
            } else {
                "assistant"@
            }),
{
    lemma_bootstrap_by_position(Seq::empty(), batches);
}

/// Instructions given to a conversation of `history.len() > 0` messages,
/// in any number of calls: the first new message is the user's if
/// `history.len() - 1` is even and the assistant's if it is odd, and the
/// two take turns from there.
pub proof fn lemma_bootstrap_continues(history: Seq<MessageView>, batches: Seq<Seq<Seq<char>>>)
    requires
        history.len() > 0,
    ensures
        bootstrap_all(history, batches).take(history.len() as int) == history,
        forall|i: int|
            0 <= i && history.len() + i < bootstrap_all(history, batches).len() ==> (
            #[trigger] bootstrap_all(history, batches)[history.len() + i]).role == (if (
            history.len() - 1 + i) % 2 == 0 {
                "user"@
            } else {
                "assistant"@
            }),
{
    lemma_bootstrap_by_position(history, batches);
    let all = bootstrap_all(history, batches);
    assert forall|i: int| 0 <= i && history.len() + i < all.len() implies (
    #[trigger] all[history.len() + i]).role == (if (history.len() - 1 + i) % 2 == 0 {
        "user"@
    } else {
        "assistant"@
    }) by {
        let p = history.len() + i;
        assert(all[p].role == Role::at(p as nat).name());
    }
}

/// The characters of each text of a sequence.
pub open spec fn str_views(items: Seq<&str>) -> Seq<Seq<char>> {
    items.map_values(|s: &str| s@)
}

/// The message that the user sends.
pub open spec fn user_message(content: Seq<char>) -> MessageView {
    MessageView { role: "user"@, content }
}

/// One conversation with a model: the transcript, the parameters of
/// generation, and the address and credential of the service.
#[derive(Debug, Clone)]
pub struct Chat {
    pub model: String,
    pub connection: Connection,
    pub messages: Vec<Message>,
    pub temperature: Option<serde_json::Number>,
    pub top_p: Option<serde_json::Number>,
    pub n: Option<u32>,
    pub stream: Option<bool>,
    pub stop: Option<ChatStop>,
    pub max_tokens: Option<u32>,
    pub presence_penalty: Option<serde_json::Number>,
    pub frequency_penalty: Option<serde_json::Number>,
    pub user: Option<String>,
}

impl Default for Chat {
    /// A conversation with no model, no message and no parameter, over the
    /// connection to nowhere.
    fn default() -> (chat: Self)
        ensures
            chat.model@ == Seq::<char>::empty(),
            chat.connection.endpoint() == Seq::<char>::empty(),
            chat.connection.version() == 0,
            chat.connection.authorization() == Seq::<char>::empty(),
            chat.messages@.len() == 0,
            chat.plain(),
    {
        Chat {
            model: String::new(),
            connection: Connection::default(),
            messages: Vec::new(),
            temperature: None,
            top_p: None,
            n: None,
            stream: None,
            stop: None,
            max_tokens: None,
            presence_penalty: None,
            frequency_penalty: None,
            user: None,
        }
    }
}

impl std::ops::Deref for Chat {
    type Target = Vec<Message>;

    /// The messages of the conversation.
    fn deref(&self) -> (messages: &Vec<Message>)
        ensures
            *messages == self.messages,
    {
        &self.messages
    }
}

impl std::ops::DerefMut for Chat {
    /// The messages of the conversation, open to change.
    fn deref_mut(&mut self) -> (messages: &mut Vec<Message>)
        ensures
            *messages == old(self).messages,
            final(self).messages == *final(messages),
            final(self).same_settings(old(self)),
    {
        &mut self.messages
    }
}

impl Chat {
    /// The transcript.
    pub open spec fn history(&self) -> Seq<MessageView> {
        self.messages@.map_values(|m: Message| m@)
    }

    /// Whether no parameter of generation is set.
    pub open spec fn plain(&self) -> bool {
        &&& self.temperature is None
        &&& self.top_p is None
        &&& self.n is None
        &&& self.stream is None
        &&& self.stop is None
        &&& self.max_tokens is None
        &&& self.presence_penalty is None
        &&& self.frequency_penalty is None
        &&& self.user is None
    }

    /// Whether two conversations agree in everything but the transcript.
    pub open spec fn same_settings(&self, other: &Chat) -> bool {
        &&& self.model == other.model
        &&& self.connection == other.connection
        &&& self.temperature == other.temperature
        &&& self.top_p == other.top_p
        &&& self.n == other.n
        &&& self.stream == other.stream
        &&& self.stop == other.stop
        &&& self.max_tokens == other.max_tokens
        &&& self.presence_penalty == other.presence_penalty
        &&& self.frequency_penalty == other.frequency_penalty
        &&& self.user == other.user
    }

    /// The members of the request object that carries `history`: `model` and
    /// `messages` always, and each parameter of generation under its own
    /// name if and only if it is set.
    pub open spec fn payload_with(&self, history: Seq<MessageView>) -> Map<Seq<char>, Json> {
        let m = empty_object().insert("model"@, Json::Text(self.model@));
        let m = m.insert("messages"@, transcript_json(history));
        let m = with_member(m, "temperature"@, optional_number(self.temperature));
        let m = with_member(m, "top_p"@, optional_number(self.top_p));
        let m = with_member(m, "n"@, optional_integer(self.n));
        let m = with_member(m, "stream"@, optional_bool(self.stream));
        let m = with_member(m, "stop"@, optional_stop(self.stop));
        let m = with_member(m, "max_tokens"@, optional_integer(self.max_tokens));
        let m = with_member(m, "presence_penalty"@, optional_number(self.presence_penalty));
        let m = with_member(m, "frequency_penalty"@, optional_number(self.frequency_penalty));
        with_member(m, "user"@, optional_string(self.user))
    }

    /// The members of the request object of the conversation as it stands.
    pub open spec fn payload(&self) -> Map<Seq<char>, Json> {
        self.payload_with(self.history())
    }

    /// The request that submits a transcript to the service.
    pub open spec fn request_with(&self, history: Seq<MessageView>) -> RequestView {
        post_request(
            chat_completions_url(self.connection.endpoint(), self.connection.version()),
            self.connection.authorization(),
            json_text(Json::Object(self.payload_with(history))),
        )
    }

    /// A conversation with `model` over `connection` that has no message
    /// yet and sets no parameter of generation.
    pub(crate) fn new(model: &str, connection: &Connection) -> (chat: Self)
        ensures
            chat.model@ == model@,
            chat.connection == *connection,
            chat.messages@.len() == 0,
            chat.history() == Seq::<MessageView>::empty(),
            chat.plain(),
    {
        let chat = Chat {
            model: model.to_owned(),
            connection: connection.clone(),
            messages: Vec::new(),
            temperature: None,
            top_p: None,
            n: None,
            stream: None,
            stop: None,
            max_tokens: None,
            presence_penalty: None,
            frequency_penalty: None,
            user: None,
        };
        assert(chat.history() =~= Seq::<MessageView>::empty());
        chat
    }

    /// Appends each text of `message` to the transcript as one message, in
    /// order. The role of each is the one that the turn rule gives to its
    /// position in the transcript: `system` for the very first message,
    /// then `user` and `assistant` in turn. Nothing is sent.
    pub fn instructions(&mut self, message: &[&str])
        ensures
            final(self).history() == old(self).history() + bootstrap(
                old(self).history().len(),
                str_views(message@),
            ),
            final(self).messages@.len() == old(self).messages@.len() + message@.len(),
            message@.len() == 0 ==> final(self).history() == old(self).history(),
            final(self).same_settings(old(self)),
    {
        let ghost start = self.history().len();
        let ghost before = self.history();
        let mut i: usize = 0;
        assert(self.history() =~= before + bootstrap(start, str_views(message@).take(0)));
        while i < message.len()
            invariant
                i <= message.len(),
                start == before.len(),
                self.messages@.len() == start + i,
                self.history() == before + bootstrap(start, str_views(message@).take(i as int)),
                self.same_settings(old(self)),
            decreases message.len() - i,
        {
            let ghost reached = self.history();
            let role = Role::next(self.messages.len());
            let next = Message::new(role.as_str(), message[i]);
            self.messages.push(next);
            proof {
                let texts = str_views(message@);
                assert(self.history() =~= reached.push(next@));
                assert(texts.take(i + 1) =~= texts.take(i as int).push(message@[i as int]@));
                assert(bootstrap(start, texts.take(i + 1)) =~= bootstrap(
                    start,
                    texts.take(i as int),
                ).push(next@));
            }
            i += 1;
        }
        proof {
            assert(str_views(message@).take(message@.len() as int) =~= str_views(message@));
            if message@.len() == 0 {
                assert(self.history() =~= before);
            }
        }
    }

    /// Builds the request object of the conversation as it stands.
    pub fn to_json(&self) -> (v: serde_json::Value)
        ensures
            json_of(v) == Json::Object(self.payload()),
    {
        let mut items: Vec<serde_json::Value> = Vec::new();
        let mut i: usize = 0;
        while i < self.messages.len()
            invariant
                i <= self.messages.len(),
                items@.len() == i,
                forall|k: int|
                    0 <= k < i ==> json_of(#[trigger] items@[k]) == message_json(
                        self.messages@[k]@,
                    ),
            decreases self.messages.len() - i,
        {
            items.push(self.messages[i].to_json());
            i += 1;
        }
        assert(values_of(items@) =~= self.history().map_values(|m: MessageView| message_json(m)));
        let mut m = new_object();
        object_insert(&mut m, "model", text_value(self.model.as_str()));
        object_insert(&mut m, "messages", array_value(items));
        put_number(&mut m, "temperature", &self.temperature);
        put_number(&mut m, "top_p", &self.top_p);
        put_u32(&mut m, "n", self.n);
        put_bool(&mut m, "stream", self.stream);
        put_value(
            &mut m,
            "stop",
            match &self.stop {
                Some(stop) => Some(stop.to_json()),
                None => None,
            },
        );
        put_u32(&mut m, "max_tokens", self.max_tokens);
        put_number(&mut m, "presence_penalty", &self.presence_penalty);
        put_number(&mut m, "frequency_penalty", &self.frequency_penalty);
        put_text(&mut m, "user", &self.user);
        object_value(m)
    }
}

/// One candidate of a chat response as a mathematical value.
pub struct ChatResponseChoiceView {
    pub index: u32,
    pub message: MessageView,
    pub finish_reason: Seq<char>,
}

#[derive(Debug, Clone)]
pub struct ChatResponseChoice {
    pub index: u32,
    pub message: Message,
    pub finish_reason: String,
}

impl View for ChatResponseChoice {
    type V = ChatResponseChoiceView;

    open spec fn view(&self) -> ChatResponseChoiceView {
        ChatResponseChoiceView {
            index: self.index,
            message: self.message@,
            finish_reason: self.finish_reason@,
        }
    }
}

impl ChatResponseChoice {
    /// The message that a document holds under `message`.
    pub open spec fn decode_message(j: Json) -> Option<MessageView> {
        match member(j, "message"@) {
            Some(m) => Message::decode(m),
            None => None,
        }
    }

    /// The candidate that a document describes: an object whose member
    /// `index` is an integer of 32 bits that is not negative, whose member
    /// `message` is a message and whose member `finish_reason` is a string.
    pub open spec fn decode(j: Json) -> Option<ChatResponseChoiceView> {
        match (
            integer_member(j, "index"@, 0, u32::MAX as int),
            ChatResponseChoice::decode_message(j),
            text_member(j, "finish_reason"@),
        ) {
            (Some(index), Some(message), Some(finish_reason)) => Some(
                ChatResponseChoiceView { index: index as u32, message, finish_reason },
            ),
            _ => None,
        }
    }

    pub fn from_json(v: &serde_json::Value) -> (r: Option<ChatResponseChoice>)
        ensures
            views_as(r, ChatResponseChoice::decode(json_of(*v))),
    {
        let index = match get_u32(v, "index") {
            Some(n) => n,
            None => {
                return None;
            },
        };
        let message = match value_get(v, "message") {
            Some(m) => match Message::from_json(m) {
                Some(message) => message,
                None => {
                    return None;
                },
            },
            None => {
                return None;
            },
        };
        let finish_reason = match get_text(v, "finish_reason") {
            Some(s) => s,
            None => {
                return None;
            },
        };
        Some(ChatResponseChoice { index, message, finish_reason })
    }
}

/// The answer to one turn of a chat as a mathematical value.
pub struct ChatResponseView {
    pub id: Seq<char>,
    pub object: Seq<char>,
    pub created: i64,
    pub choices: Seq<ChatResponseChoiceView>,
    pub usage: Usage,
}

#[derive(Debug, Clone)]
pub struct ChatResponse {
    pub id: String,
    pub object: String,
    pub created: i64,
    pub choices: Vec<ChatResponseChoice>,
    pub usage: Usage,
}

impl View for ChatResponse {
    type V = ChatResponseView;

    open spec fn view(&self) -> ChatResponseView {
        ChatResponseView {
            id: self.id@,
            object: self.object@,
            created: self.created,
            choices: self.choices@.map_values(|c: ChatResponseChoice| c@),
            usage: self.usage,
        }
    }
}

impl ChatResponse {
    /// The candidates that the items of an array describe, in order: `None`
    /// unless every item describes one.
    pub open spec fn decode_choices(items: Seq<Json>) -> Option<Seq<ChatResponseChoiceView>> {
        if forall|i: int|
            0 <= i < items.len() ==> (#[trigger] ChatResponseChoice::decode(items[i])) is Some {
            Some(items.map_values(|j: Json| ChatResponseChoice::decode(j)->Some_0))
        } else {
            None
        }
    }

    /// The choices that a document holds under `choices`.
    pub open spec fn decode_choices_member(j: Json) -> Option<Seq<ChatResponseChoiceView>> {
        match items_member(j, "choices"@) {
            Some(items) => ChatResponse::decode_choices(items),
            None => None,
        }
    }

    /// The usage that a document holds under `usage`.
    pub open spec fn decode_usage(j: Json) -> Option<Usage> {
        match member(j, "usage"@) {
            Some(u) => Usage::decode(u),
            None => None,
        }
    }

    /// The answer that a document describes: an object with the strings `id`
    /// and `object`, the time `created` as an integer of 64 bits, the array
    /// `choices` of candidates, which may be empty, and the object `usage`.
    /// Other members are passed over.
    pub open spec fn decode(j: Json) -> Option<ChatResponseView> {
        match (
            text_member(j, "id"@),
            text_member(j, "object"@),
            integer_member(j, "created"@, i64::MIN as int, i64::MAX as int),
            ChatResponse::decode_choices_member(j),
            ChatResponse::decode_usage(j),
        ) {
            (Some(id), Some(object), Some(created), Some(choices), Some(usage)) => Some(
                ChatResponseView { id, object, created: created as i64, choices, usage },
            ),
            _ => None,
        }
    }

    fn choices_from_json(v: &serde_json::Value) -> (r: Option<Vec<ChatResponseChoice>>)
        ensures
            match r {
                Some(choices) => ChatResponse::decode_choices_member(json_of(*v)) == Some(
                    choices@.map_values(|c: ChatResponseChoice| c@),
                ),
                None => ChatResponse::decode_choices_member(json_of(*v)) is None,
            },
    {
        let items = match get_items(v, "choices") {
            Some(items) => items,
            None => {
                return None;
            },
        };
        let mut choices: Vec<ChatResponseChoice> = Vec::new();
        let mut i: usize = 0;
        while i < items.len()
            invariant
                i <= items.len(),
                choices@.len() == i,
                items_member(json_of(*v), "choices"@) == Some(values_of(items@)),
                forall|k: int|
                    0 <= k < i ==> ChatResponseChoice::decode(json_of(#[trigger] items@[k]))
                        == Some(choices@[k]@),
            decreases items.len() - i,
        {
            match ChatResponseChoice::from_json(&items[i]) {
                Some(choice) => {
                    choices.push(choice);
                },
                None => {
                    assert(ChatResponseChoice::decode(values_of(items@)[i as int]) is None);
                    return None;
                },
            }
            i += 1;
        }
        proof {
            let docs = values_of(items@);
            assert forall|k: int| 0 <= k < docs.len() implies (
            #[trigger] ChatResponseChoice::decode(docs[k])) is Some by {
                assert(ChatResponseChoice::decode(json_of(items@[k])) == Some(choices@[k]@));
            }
            assert(docs.map_values(|j: Json| ChatResponseChoice::decode(j)->Some_0)
                =~= choices@.map_values(|c: ChatResponseChoice| c@));
        }
        Some(choices)
    }

    /// Reads the answer from the document of a response.
    pub fn from_json(v: &serde_json::Value) -> (r: Option<ChatResponse>)
        ensures
            views_as(r, ChatResponse::decode(json_of(*v))),
    {
        let id = match get_text(v, "id") {
            Some(s) => s,
            None => {
                return None;
            },
        };
        let object = match get_text(v, "object") {
            Some(s) => s,
            None => {
                return None;
            },
        };
        let created = match get_i64(v, "created") {
            Some(n) => n,
            None => {
                return None;
            },
        };
        let choices = match ChatResponse::choices_from_json(v) {
            Some(c) => c,
            None => {
                return None;
            },
        };
        let usage = match value_get(v, "usage") {
            Some(u) => match Usage::from_json(u) {
                Some(usage) => usage,
                None => {
                    return None;
                },
            },
            None => {
                return None;
            },
        };
        Some(ChatResponse { id, object, created, choices, usage })
    }
}

/// The answer that the outcome of a chat request brings, or the failure
/// that it stands for.
pub open spec fn chat_reply(outcome: Outcome) -> Result<ChatResponseView, Error> {
    decoded_reply(outcome, |j: Json| ChatResponse::decode(j))
}

/// The message that an answer contributes to the conversation: the message
/// of its first choice, whatever others it offers. An answer without
/// choices is the failure `EmptyChoiceSet`.
pub open spec fn first_choice(answer: ChatResponseView) -> Result<MessageView, Error> {
    if answer.choices.len() == 0 {
        Err(Error::EmptyChoiceSet)
    } else {
        Ok(answer.choices[0].message)
    }
}

/// The message that the outcome of a chat request contributes, or the
/// failure that it stands for.
pub open spec fn contribution(outcome: Outcome) -> Result<MessageView, Error> {
    match chat_reply(outcome) {
        Ok(answer) => first_choice(answer),
        Err(e) => Err(e),
    }
}

/// The transcript after a turn: a message that arrived is appended, a
/// failure leaves the transcript as it is.
pub open spec fn folded(history: Seq<MessageView>, arrived: Result<MessageView, Error>) -> Seq<
    MessageView,
> {
    match arrived {
        Ok(m) => history.push(m),
        Err(_) => history,
    }
}

/// Whether a turn returned what it owes: the trimmed content of the message
/// that arrived, or the failure.
pub open spec fn returned(r: Result<String, Error>, arrived: Result<MessageView, Error>) -> bool {
    match arrived {
        Ok(m) => r matches Ok(text) && text@ == trimmed(m.content),
        Err(e) => r == Err::<String, Error>(e),
    }
}

impl Chat {
    /// Opens a turn: appends `message` to the transcript as a message of the
    /// user and returns the request that submits the whole conversation.
    /// The message is taken as it is, the empty text included.
    pub fn begin_send(&mut self, message: &str) -> (request: Request)
        ensures
            final(self).history() == old(self).history().push(user_message(message@)),
            final(self).same_settings(old(self)),
            request@ == old(self).request_with(old(self).history().push(user_message(message@))),
    {
        let ghost before = self.history();
        self.messages.push(Message::new("user", message));
        assert(self.history() =~= before.push(user_message(message@)));
        let document = self.to_json();
        self.connection.chat_completions(write_value(&document))
    }

    /// Folds an answer into the conversation: the message of the first
    /// choice is appended to the transcript as it came, and its content is
    /// returned without the white space around it. An answer without
    /// choices changes nothing and is reported as `EmptyChoiceSet`.
    pub fn receive(&mut self, response: ChatResponse) -> (r: Result<String, Error>)
        ensures
            final(self).history() == folded(old(self).history(), first_choice(response@)),
            returned(r, first_choice(response@)),
            final(self).same_settings(old(self)),
    {
        let ghost before = self.history();
        let mut choices = response.choices;
        if choices.len() == 0 {
            return Err(Error::EmptyChoiceSet);
        }
        let first = choices.remove(0);
        let text = trim(first.message.content.as_str()).to_owned();
        self.messages.push(first.message);
        assert(self.history() =~= before.push(response@.choices[0].message));
        Ok(text)
    }

    /// Closes a turn with what the transport reported. A response that
    /// brings an answer is folded into the conversation as `receive` says.
    /// Every failure leaves the transcript as `begin_send` left it, with
    /// the message of the user at its end, and is returned.
    pub fn finish_send(&mut self, outcome: Outcome) -> (r: Result<String, Error>)
        ensures
            final(self).history() == folded(old(self).history(), contribution(outcome)),
            returned(r, contribution(outcome)),
            final(self).same_settings(old(self)),
    {
        let document = match read_reply(outcome) {
            Ok(v) => v,
            Err(e) => {
                return Err(e);
            },
        };
        match ChatResponse::from_json(&document) {
            Some(response) => self.receive(response),
            None => Err(Error::UnexpectedResponseShape),
        }
    }

    /// Takes one turn through `transport`: sends the conversation with
    /// `message` at its end, and folds the answer into the transcript.
    /// After success the transcript has grown by the message of the user
    /// and the message of the assistant; after a failure, by the message of
    /// the user alone.
    pub fn send<F: FnOnce(Request) -> Outcome>(&mut self, message: &str, transport: F) -> (r:
        Result<String, Error>)
        requires
            forall|request: Request| transport.requires((request,)),
        ensures
            final(self).same_settings(old(self)),
            exists|outcome: Outcome|
                exchanged(
                    transport,
                    old(self).request_with(old(self).history().push(user_message(message@))),
                    outcome,
                ) && final(self).history() == folded(
                    old(self).history().push(user_message(message@)),
                    contribution(outcome),
                ) && returned(r, contribution(outcome)),
            r is Ok ==> final(self).history().len() == old(self).history().len() + 2,
            r matches Ok(text) ==> text@ == trimmed(final(self).history().last().content),
            r is Err ==> final(self).history() == old(self).history().push(user_message(message@)),
    {
        let request = self.begin_send(message);
        let outcome = exchange(request, transport);
        self.finish_send(outcome)
    }
}

/// The names under which a chat request can hold a member.
pub open spec fn chat_member_names() -> Set<Seq<char>> {
    set![
        "model"@,
        "messages"@,
        "temperature"@,
        "top_p"@,
        "n"@,
        "stream"@,
        "stop"@,
        "max_tokens"@,
        "presence_penalty"@,
        "frequency_penalty"@,
        "user"@,
    ]
}

/// The request object of a conversation holds the model and the transcript,
/// holds each parameter of generation under its own name if and only if the
/// parameter is set, with the value that was set, and holds nothing else;
/// so a parameter that is not set is no member at all.
pub proof fn lemma_chat_payload_members(chat: Chat, history: Seq<MessageView>)
    ensures
        chat.payload_with(history).dom().subset_of(chat_member_names()),
        member(Json::Object(chat.payload_with(history)), "model"@) == Some(Json::Text(chat.model@)),
        member(Json::Object(chat.payload_with(history)), "messages"@) == Some(
            transcript_json(history),
        ),
        member(Json::Object(chat.payload_with(history)), "temperature"@) == optional_number(
            chat.temperature,
        ),
        member(Json::Object(chat.payload_with(history)), "top_p"@) == optional_number(chat.top_p),
        member(Json::Object(chat.payload_with(history)), "n"@) == optional_integer(chat.n),
        member(Json::Object(chat.payload_with(history)), "stream"@) == optional_bool(chat.stream),
        member(Json::Object(chat.payload_with(history)), "stop"@) == optional_stop(chat.stop),
        member(Json::Object(chat.payload_with(history)), "max_tokens"@) == optional_integer(
            chat.max_tokens,
        ),
        member(Json::Object(chat.payload_with(history)), "presence_penalty"@) == optional_number(
            chat.presence_penalty,
        ),
        member(Json::Object(chat.payload_with(history)), "frequency_penalty"@) == optional_number(
            chat.frequency_penalty,
        ),
        member(Json::Object(chat.payload_with(history)), "user"@) == optional_string(chat.user),
{
    assert(name_mark("model"@) == (5nat, 'm', 'o')) by {
        reveal_strlit("model");
    }
    assert(name_mark("messages"@) == (8nat, 'm', 'e')) by {
        reveal_strlit("messages");
    }
    assert(name_mark("temperature"@) == (11nat, 't', 'e')) by {
        reveal_strlit("temperature");
    }
    assert(name_mark("top_p"@) == (5nat, 't', 'o')) by {
        reveal_strlit("top_p");
    }
    assert(name_mark("n"@).0 == 1) by {
        reveal_strlit("n");
    }
    assert(name_mark("stream"@) == (6nat, 's', 't')) by {
        reveal_strlit("stream");
    }
    assert(name_mark("stop"@) == (4nat, 's', 't')) by {
        reveal_strlit("stop");
    }
    assert(name_mark("max_tokens"@) == (10nat, 'm', 'a')) by {
        reveal_strlit("max_tokens");
    }
    assert(name_mark("presence_penalty"@) == (16nat, 'p', 'r')) by {
        reveal_strlit("presence_penalty");
    }
    assert(name_mark("frequency_penalty"@) == (17nat, 'f', 'r')) by {
        reveal_strlit("frequency_penalty");
    }
    assert(name_mark("user"@) == (4nat, 'u', 's')) by {
        reveal_strlit("user");
    }
    let m = empty_object().insert("model"@, Json::Text(chat.model@));
    let m = m.insert("messages"@, transcript_json(history));
    lemma_with_member(m, "temperature"@, optional_number(chat.temperature));
    let m = with_member(m, "temperature"@, optional_number(chat.temperature));
    lemma_with_member(m, "top_p"@, optional_number(chat.top_p));
    let m = with_member(m, "top_p"@, optional_number(chat.top_p));
    lemma_with_member(m, "n"@, optional_integer(chat.n));
    let m = with_member(m, "n"@, optional_integer(chat.n));
    lemma_with_member(m, "stream"@, optional_bool(chat.stream));
    let m = with_member(m, "stream"@, optional_bool(chat.stream));
    lemma_with_member(m, "stop"@, optional_stop(chat.stop));
    let m = with_member(m, "stop"@, optional_stop(chat.stop));
    lemma_with_member(m, "max_tokens"@, optional_integer(chat.max_tokens));
    let m = with_member(m, "max_tokens"@, optional_integer(chat.max_tokens));
    lemma_with_member(m, "presence_penalty"@, optional_number(chat.presence_penalty));
    let m = with_member(m, "presence_penalty"@, optional_number(chat.presence_penalty));
    lemma_with_member(m, "frequency_penalty"@, optional_number(chat.frequency_penalty));
    let m = with_member(m, "frequency_penalty"@, optional_number(chat.frequency_penalty));
    lemma_with_member(m, "user"@, optional_string(chat.user));
    let m = with_member(m, "user"@, optional_string(chat.user));
    assert(m == chat.payload_with(history));
}

} // verus!
