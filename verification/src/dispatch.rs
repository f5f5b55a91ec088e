//! From the outcome of one round trip to exactly one reply.
//!
//! The round trip itself happens elsewhere. This module says what is sent
//! (`build_request`), how what came back is classified (`classify`), and
//! what each possible outcome puts into the conversation (`reply_message`):
//! the text of the first block tagged as text, or one of two fixed apologies.

use vstd::prelude::*;
use vstd::string::StringExecFns;
use crate::message::{assistant_role, copy_messages, views_of, Message, MessageView};

verus! {

/// The bound on the size of a reply that every request asks for.
pub const MAX_TOKENS: u32 = 1000;

/// The tag of a block that carries text.
pub open spec fn text_tag() -> Seq<char> {
    "text"@
}

/// The apology for a round trip that failed, and for a reply without text.
pub open spec fn generic_apology() -> Seq<char> {
    "I apologize, but I encountered an error."@
}

/// The apology for a reply whose body could not be read.
pub open spec fn decode_apology() -> Seq<char> {
    "I apologize, but I encountered an error processing your request."@
}

/// What is sent: the model asked, the bound on its reply, and the
/// conversation so far.
pub struct ApiRequest {
    pub model: String,
    pub max_tokens: u32,
    pub messages: Vec<Message>,
}

/// What a request is to the contracts.
pub ghost struct ApiRequestView {
    pub model: Seq<char>,
    pub max_tokens: u32,
    pub messages: Seq<MessageView>,
}

impl View for ApiRequest {
    type V = ApiRequestView;

    open spec fn view(&self) -> ApiRequestView {
        ApiRequestView {
            model: self.model@,
            max_tokens: self.max_tokens,
            messages: views_of(self.messages@),
        }
    }
}

/// One block of a reply: its tag and, where it has one, its text.
pub struct ContentBlock {
    pub content_type: String,
    pub text: Option<String>,
}

/// What a block is to the contracts.
pub ghost struct ContentBlockView {
    pub content_type: Seq<char>,
    pub text: Option<Seq<char>>,
}

impl View for ContentBlock {
    type V = ContentBlockView;

    open spec fn view(&self) -> ContentBlockView {
        ContentBlockView {
            content_type: self.content_type@,
            text: match self.text {
                Some(t) => Some(t@),
                None => None,
            },
        }
    }
}

/// The body of a reply that could be read: its blocks, in order.
pub struct ApiResponse {
    pub content: Vec<ContentBlock>,
}

impl View for ApiResponse {
    type V = Seq<ContentBlockView>;

    open spec fn view(&self) -> Seq<ContentBlockView> {
        self.content@.map_values(|b: ContentBlock| b@)
    }
}

/// How a round trip ended.
pub enum Outcome {
    /// Nothing usable came back from the network.
    TransportFailure,
    /// Something came back, and its body could not be read.
    DecodeFailure,
    /// A body came back and was read.
    Reply(ApiResponse),
}

/// What an outcome is to the contracts.
pub ghost enum OutcomeView {
    TransportFailure,
    DecodeFailure,
    Reply(Seq<ContentBlockView>),
}

impl View for Outcome {
    type V = OutcomeView;

    open spec fn view(&self) -> OutcomeView {
        match self {
            Outcome::TransportFailure => OutcomeView::TransportFailure,
            Outcome::DecodeFailure => OutcomeView::DecodeFailure,
            Outcome::Reply(response) => OutcomeView::Reply(response@),
        }
    }
}

/// Whether a status says that the request was served: the codes from 200 up
/// to 299.
pub open spec fn is_success(status: u16) -> bool {
    200 <= status < 300
}

/// How a round trip ended, from what came back: no status at all where the
/// network gave nothing, and no body where what came could not be read. A
/// status outside the successful ones is a failure of the round trip,
/// whatever the body holds.
pub open spec fn classified(
    status: Option<u16>,
    body: Option<Seq<ContentBlockView>>,
) -> OutcomeView {
    match status {
        Some(code) if is_success(code) => match body {
            Some(blocks) => OutcomeView::Reply(blocks),
            None => OutcomeView::DecodeFailure,
        },
        _ => OutcomeView::TransportFailure,
    }
}

/// The request that puts a conversation to a model.
pub open spec fn request_for(model: Seq<char>, history: Seq<MessageView>) -> ApiRequestView {
    ApiRequestView { model, max_tokens: MAX_TOKENS, messages: history }
}

/// The index of the first block at or after `from` that is tagged as text.
pub open spec fn first_text_from(blocks: Seq<ContentBlockView>, from: int) -> Option<int>
    decreases blocks.len() - from,
{
    if from < 0 || from >= blocks.len() {
        None
    } else if blocks[from].content_type == text_tag() {
        Some(from)
    } else {
        first_text_from(blocks, from + 1)
    }
}

/// The index of the first block that is tagged as text.
pub open spec fn first_text_index(blocks: Seq<ContentBlockView>) -> Option<int> {
    first_text_from(blocks, 0)
}

/// The text of the first block tagged as text. Later blocks are not looked
/// at, even where that first one has no text.
pub open spec fn extracted_text(blocks: Seq<ContentBlockView>) -> Option<Seq<char>> {
    match first_text_index(blocks) {
        Some(i) => blocks[i].text,
        None => None,
    }
}

/// What the reply to a submission says, for each way the round trip can end.
pub open spec fn reply_content(outcome: OutcomeView) -> Seq<char> {
    match outcome {
        OutcomeView::TransportFailure => generic_apology(),
        OutcomeView::DecodeFailure => decode_apology(),
        OutcomeView::Reply(blocks) => match extracted_text(blocks) {
            Some(t) => t,
            None => generic_apology(),
        },
    }
}

/// The one message that a round trip adds to the conversation.
pub open spec fn reply_for(outcome: OutcomeView) -> MessageView {
    MessageView { role: assistant_role(), content: reply_content(outcome) }
}

/// Builds the request for a conversation as it stands: every message of it,
/// in order, for the given model and under the fixed bound.
pub fn build_request(model: &str, history: &Vec<Message>) -> (r: ApiRequest)
    ensures
        r@ == request_for(model@, views_of(history@)),
{
    ApiRequest {
        model: String::from_str(model),
        max_tokens: MAX_TOKENS,
        messages: copy_messages(history),
    }
}

/// Whether a status says that the request was served.
pub fn status_is_success(status: u16) -> (r: bool)
    ensures
        r == is_success(status),
{
    200 <= status && status < 300
}

/// Says how a round trip ended. `status` is the status that came back, or
/// `None` where nothing came back; `body` is the body as it was read, or
/// `None` where it could not be read.
pub fn classify(status: Option<u16>, body: Option<ApiResponse>) -> (r: Outcome)
    ensures
        r@ == classified(
            status,
            match body {
                Some(b) => Some(b@),
                None => None,
            },
        ),
{
    match status {
        Some(code) => {
            if status_is_success(code) {
                match body {
                    Some(b) => Outcome::Reply(b),
                    None => Outcome::DecodeFailure,
                }
            } else {
                Outcome::TransportFailure
            }
        },
        None => Outcome::TransportFailure,
    }
}

/// The generic apology, as text.
pub fn generic_apology_text() -> (r: String)
    ensures
        r@ == generic_apology(),
{
    String::from_str("I apologize, but I encountered an error.")
}

/// The apology for an unreadable body, as text.
pub fn decode_apology_text() -> (r: String)
    ensures
        r@ == decode_apology(),
{
    String::from_str("I apologize, but I encountered an error processing your request.")
}

/// Finds the first block that is tagged as text.
pub fn find_text_block(response: &ApiResponse) -> (r: Option<usize>)
    ensures
        match r {
            Some(i) => first_text_index(response@) == Some(i as int),
            None => first_text_index(response@) is None,
        },
{
    let tag = String::from_str("text");
    let mut i: usize = 0;
    while i < response.content.len()
        invariant
            i <= response.content.len(),
            tag@ == text_tag(),
            response@.len() == response.content.len(),
            first_text_index(response@) == first_text_from(response@, i as int),
        decreases response.content.len() - i,
    {
        assert(response@[i as int] == response.content[i as int]@);
        if response.content[i].content_type == tag {
            return Some(i);
        }
        i += 1;
    }
    None
}

/// Takes the text of the first block tagged as text, if that block has one.
pub fn extract_text(response: &ApiResponse) -> (r: Option<String>)
    ensures
        match r {
            Some(t) => extracted_text(response@) == Some(t@),
            None => extracted_text(response@) is None,
        },
{
    match find_text_block(response) {
        Some(i) => {
            proof {
                lemma_first_text_from(response@, 0);
            }
            assert(response@[i as int] == response.content[i as int]@);
            match &response.content[i].text {
                Some(t) => Some(t.clone()),
                None => None,
            }
        },
        None => None,
    }
}

/// The content of the reply for an outcome: the extracted text where there is
/// one, else the apology that belongs to the outcome.
pub fn reply_text(outcome: &Outcome) -> (r: String)
    ensures
        r@ == reply_content(outcome@),
{
    match outcome {
        Outcome::TransportFailure => generic_apology_text(),
        Outcome::DecodeFailure => decode_apology_text(),
        Outcome::Reply(response) => match extract_text(response) {
            Some(t) => t,
            None => generic_apology_text(),
        },
    }
}

/// The message that an outcome adds to the conversation.
pub fn reply_message(outcome: &Outcome) -> (r: Message)
    ensures
        r@ == reply_for(outcome@),
{
    Message { role: String::from_str("assistant"), content: reply_text(outcome) }
}

/// What `first_text_from` finds is tagged as text and no block between `from`
/// and it is; where it finds nothing, no block from `from` on is tagged so.
pub proof fn lemma_first_text_from(blocks: Seq<ContentBlockView>, from: int)
    requires
        0 <= from,
    ensures
        match first_text_from(blocks, from) {
            Some(i) => {
                &&& from <= i < blocks.len()
                &&& blocks[i].content_type == text_tag()
                &&& forall|j: int| from <= j < i ==> blocks[j].content_type != text_tag()
            },
            None => forall|j: int|
                from <= j < blocks.len() ==> blocks[j].content_type != text_tag(),
        },
    decreases blocks.len() - from,
{
    if from < blocks.len() && blocks[from].content_type != text_tag() {
        lemma_first_text_from(blocks, from + 1);
    }
}

/// A round trip that brought nothing back, or a status outside the successful
/// ones, is answered with the generic apology, whatever body came with it.
pub proof fn lemma_failed_status_reply(status: Option<u16>, body: Option<Seq<ContentBlockView>>)
    requires
        status matches Some(code) ==> !is_success(code),
    ensures
        classified(status, body) is TransportFailure,
        reply_content(classified(status, body)) == generic_apology(),
{
}

/// The reply to an outcome is the text of the first text-tagged block exactly
/// when the body was read, such a block exists and it carries a text. In every
/// other case it is an apology: the one for unreadable bodies where the body
/// could not be read, else the generic one.
pub proof fn lemma_reply_content_cases(outcome: OutcomeView)
    ensures
        outcome is TransportFailure ==> reply_content(outcome) == generic_apology(),
        outcome is DecodeFailure ==> reply_content(outcome) == decode_apology(),
        outcome matches OutcomeView::Reply(blocks) ==> {
            &&& (forall|j: int| 0 <= j < blocks.len() ==> blocks[j].content_type != text_tag())
                ==> reply_content(outcome) == generic_apology()
            &&& forall|i: int|
                0 <= i < blocks.len() && blocks[i].content_type == text_tag() && (forall|j: int|
                    0 <= j < i ==> blocks[j].content_type != text_tag()) ==> reply_content(outcome)
                    == match #[trigger] blocks[i].text {
                    Some(t) => t,
                    None => generic_apology(),
                }
        },
{
    match outcome {
        OutcomeView::Reply(blocks) => {
            lemma_first_text_from(blocks, 0);
        },
        _ => {},
    }
}

} // verus!
