//! The chat-completion request: what is asked of the model, and how it is
//! written down as a JSON document.

use vstd::prelude::*;
use vstd::string::StringExecFns;
use crate::json::item_views;
use crate::json::json_text;
use crate::json::member_views;
use crate::json::print;
use crate::json::Json;
use crate::json::JsonView;

verus! {

/// The model that is asked.
pub const MODEL: &'static str = "gpt-4-turbo-preview";

/// The form in which the model is to answer: one JSON object.
pub const RESPONSE_FORMAT: &'static str = "json_object";

/// The instruction that opens every conversation. It asks for the title of
/// the paper as it stands in the text, for the paper worked over as the
/// caller's own prompt says, and for both in one JSON object with the members
/// `title` and `body`, the title being `null` where none was found.
pub const SYSTEM_INSTRUCTION: &'static str =
    "まず，ユーザーから与えられるテキストから論文のタイトルをそのまま抽出して下さい．\n次に，以下に与えるシステムプロンプトに従って論文を加工して下さい．\n結果は，{\"title\": 抽出したタイトル, \"body\": 加工した論文} という形式のJSONで出力して下さい．\nタイトルを抽出できなかった場合は，{\"title\": null, \"body\": 加工した論文} として下さい．";

/// The names of the members of the payload and of its messages, and the
/// names of the roles, as they stand on the wire.
pub const KEY_MODEL: &'static str = "model";

pub const KEY_RESPONSE_FORMAT: &'static str = "response_format";

pub const KEY_TYPE: &'static str = "type";

pub const KEY_MESSAGES: &'static str = "messages";

pub const KEY_ROLE: &'static str = "role";

pub const KEY_CONTENT: &'static str = "content";

pub const ROLE_SYSTEM: &'static str = "system";

pub const ROLE_USER: &'static str = "user";

/// Who speaks in a message.
#[derive(Clone, Copy, Debug, PartialEq, Eq, Structural)]
pub enum Role {
    System,
    User,
}

impl Role {
    /// The name of the role on the wire.
    pub open spec fn name(self) -> Seq<char> {
        match self {
            Role::System => ROLE_SYSTEM@,
            Role::User => ROLE_USER@,
        }
    }

    /// The name of the role on the wire.
    pub fn as_str(&self) -> (name: &'static str)
        ensures
            name@ == self.name(),
    {
        match self {
            Role::System => ROLE_SYSTEM,
            Role::User => ROLE_USER,
        }
    }
}

/// One message of the conversation.
#[derive(Debug, PartialEq, Eq)]
pub struct ChatMessage {
    pub role: Role,
    pub content: String,
}

/// The mathematical value of a [`ChatMessage`].
pub struct ChatMessageView {
    pub role: Role,
    pub content: Seq<char>,
}

impl View for ChatMessage {
    type V = ChatMessageView;

    open spec fn view(&self) -> ChatMessageView {
        ChatMessageView { role: self.role, content: self.content@ }
    }
}

impl ChatMessageView {
    /// The message as a JSON object: its role, then its content.
    pub open spec fn document(self) -> JsonView {
        JsonView::Object(
            seq![
                (KEY_ROLE@, JsonView::Text(self.role.name())),
                (KEY_CONTENT@, JsonView::Text(self.content)),
            ],
        )
    }
}

impl ChatMessage {
    /// The message as a JSON object.
    pub fn to_json(&self) -> (document: Json)
        ensures
            document@ == self@.document(),
    {
        let mut members: Vec<(String, Json)> = Vec::new();
        members.push((String::from_str(KEY_ROLE), Json::text(String::from_str(self.role.as_str()))));
        members.push((String::from_str(KEY_CONTENT), Json::text(self.content.clone())));
        assert(member_views(members@) =~= self@.document()->Object_0);
        Json::object(members)
    }
}

/// What is sent to the model: which model, the form of its answer, and the
/// conversation so far. It is made for one request and never changed.
#[derive(Debug, PartialEq, Eq)]
pub struct ChatPayload {
    pub model: String,
    pub response_format: String,
    pub messages: Vec<ChatMessage>,
}

/// The mathematical value of a [`ChatPayload`].
pub struct ChatPayloadView {
    pub model: Seq<char>,
    pub response_format: Seq<char>,
    pub messages: Seq<ChatMessageView>,
}

impl View for ChatPayload {
    type V = ChatPayloadView;

    open spec fn view(&self) -> ChatPayloadView {
        ChatPayloadView {
            model: self.model@,
            response_format: self.response_format@,
            messages: Seq::new(self.messages.len() as nat, |i: int| self.messages[i]@),
        }
    }
}

/// The payload of a summarisation: the fixed instruction, then the caller's
/// prompt, both spoken by the system, then the text of the document, spoken
/// by the user.
pub open spec fn summarization_payload(prompt: Seq<char>, text: Seq<char>) -> ChatPayloadView {
    ChatPayloadView {
        model: MODEL@,
        response_format: RESPONSE_FORMAT@,
        messages: seq![
            ChatMessageView { role: Role::System, content: SYSTEM_INSTRUCTION@ },
            ChatMessageView { role: Role::System, content: prompt },
            ChatMessageView { role: Role::User, content: text },
        ],
    }
}

impl ChatPayloadView {
    /// The payload as a JSON object: the model, the form of the answer, and
    /// the messages as an array in their order.
    pub open spec fn document(self) -> JsonView {
        JsonView::Object(
            seq![
                (KEY_MODEL@, JsonView::Text(self.model)),
                (
                    KEY_RESPONSE_FORMAT@,
                    JsonView::Object(seq![(KEY_TYPE@, JsonView::Text(self.response_format))]),
                ),
                (
                    KEY_MESSAGES@,
                    JsonView::Array(
                        Seq::new(self.messages.len(), |i: int| self.messages[i].document()),
                    ),
                ),
            ],
        )
    }

    /// The request body: the text that is printed for the payload's document.
    pub open spec fn body(self) -> Seq<char> {
        json_text(self.document())
    }
}

impl ChatPayload {
    /// The payload that asks for a summary of `text` as `prompt` describes.
    pub fn summarization(prompt: &str, text: &str) -> (payload: ChatPayload)
        ensures
            payload@ == summarization_payload(prompt@, text@),
    {
        let mut messages: Vec<ChatMessage> = Vec::new();
        messages.push(
            ChatMessage { role: Role::System, content: String::from_str(SYSTEM_INSTRUCTION) },
        );
        messages.push(ChatMessage { role: Role::System, content: String::from_str(prompt) });
        messages.push(ChatMessage { role: Role::User, content: String::from_str(text) });
        let payload = ChatPayload {
            model: String::from_str(MODEL),
            response_format: String::from_str(RESPONSE_FORMAT),
            messages,
        };
        assert(payload@.messages =~= summarization_payload(prompt@, text@).messages);
        payload
    }

    /// The payload as a JSON object.
    pub fn to_json(&self) -> (document: Json)
        ensures
            document@ == self@.document(),
    {
        let mut items: Vec<Json> = Vec::new();
        let mut i: usize = 0;
        while i < self.messages.len()
            invariant
                i <= self.messages.len(),
                items.len() == i,
                forall|k: int| 0 <= k < i ==> (#[trigger] items[k])@ == self.messages[k]@.document(),
            decreases self.messages.len() - i,
        {
            items.push(self.messages[i].to_json());
            i += 1;
        }
        assert(item_views(items@) =~= Seq::new(
            self@.messages.len(),
            |i: int| self@.messages[i].document(),
        ));
        let messages = Json::array(items);
        let mut form: Vec<(String, Json)> = Vec::new();
        form.push((String::from_str(KEY_TYPE), Json::text(self.response_format.clone())));
        assert(member_views(form@) =~= seq![(KEY_TYPE@, JsonView::Text(self.response_format@))]);
        let form = Json::object(form);
        let mut members: Vec<(String, Json)> = Vec::new();
        members.push((String::from_str(KEY_MODEL), Json::text(self.model.clone())));
        members.push((String::from_str(KEY_RESPONSE_FORMAT), form));
        members.push((String::from_str(KEY_MESSAGES), messages));
        assert(member_views(members@) =~= self@.document()->Object_0);
        Json::object(members)
    }

    /// The request body: the payload printed as JSON.
    pub fn body(&self) -> (text: String)
        ensures
            text@ == self@.body(),
    {
        print(&self.to_json())
    }
}

} // verus!
