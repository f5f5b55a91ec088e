//! The fact of the day: what a fetched fact puts into the conversation.
//!
//! A fetch that fails is answered as any other round trip that fails: with
//! the generic apology, or with the apology for a body that could not be
//! read.

use vstd::prelude::*;
use vstd::string::StringExecFns;
use crate::dispatch::{
    decode_apology, decode_apology_text, generic_apology, generic_apology_text, is_success,
    status_is_success,
};
use crate::message::{fact_role, Message, MessageView};

verus! {

/// The part of a fact that holds its text.
pub struct DogFactAttributes {
    pub body: String,
}

/// One fact of a reply.
pub struct DogFactData {
    pub attributes: DogFactAttributes,
}

/// The body of a reply that could be read: its facts, in order.
pub struct DogFactResponse {
    pub data: Vec<DogFactData>,
}

impl View for DogFactResponse {
    type V = Seq<Seq<char>>;

    /// The texts of the facts, in order.
    open spec fn view(&self) -> Seq<Seq<char>> {
        self.data@.map_values(|d: DogFactData| d.attributes.body@)
    }
}

/// How fetching a fact ended.
pub enum FactOutcome {
    /// Nothing usable came back from the network.
    TransportFailure,
    /// Something came back, and its body could not be read.
    DecodeFailure,
    /// A body came back and was read.
    Reply(DogFactResponse),
}

/// What an outcome is to the contracts: for a reply, the texts of its facts.
pub ghost enum FactOutcomeView {
    TransportFailure,
    DecodeFailure,
    Reply(Seq<Seq<char>>),
}

impl View for FactOutcome {
    type V = FactOutcomeView;

    open spec fn view(&self) -> FactOutcomeView {
        match self {
            FactOutcome::TransportFailure => FactOutcomeView::TransportFailure,
            FactOutcome::DecodeFailure => FactOutcomeView::DecodeFailure,
            FactOutcome::Reply(response) => FactOutcomeView::Reply(response@),
        }
    }
}

/// How fetching a fact ended, from what came back: no status at all where
/// the network gave nothing, and no body where what came could not be read. A
/// status outside the successful ones is a failure of the round trip,
/// whatever the body holds.
pub open spec fn classified_fact(
    status: Option<u16>,
    body: Option<Seq<Seq<char>>>,
) -> FactOutcomeView {
    match status {
        Some(code) if is_success(code) => match body {
            Some(facts) => FactOutcomeView::Reply(facts),
            None => FactOutcomeView::DecodeFailure,
        },
        _ => FactOutcomeView::TransportFailure,
    }
}

/// The text that fetching a fact yields: the first fact of a reply that was
/// read and holds one; the generic apology where the round trip failed or the
/// reply holds no fact; the other apology where the body could not be read.
pub open spec fn fact_content(outcome: FactOutcomeView) -> Seq<char> {
    match outcome {
        FactOutcomeView::TransportFailure => generic_apology(),
        FactOutcomeView::DecodeFailure => decode_apology(),
        FactOutcomeView::Reply(facts) => if facts.len() > 0 {
            facts[0]
        } else {
            generic_apology()
        },
    }
}

/// The one message that fetching a fact adds to the conversation.
pub open spec fn fact_for(outcome: FactOutcomeView) -> MessageView {
    MessageView { role: fact_role(), content: fact_content(outcome) }
}

/// Says how fetching a fact ended. `status` is the status that came back, or
/// `None` where nothing came back; `body` is the body as it was read, or
/// `None` where it could not be read.
pub fn classify_fact(status: Option<u16>, body: Option<DogFactResponse>) -> (r: FactOutcome)
    ensures
        r@ == classified_fact(
            status,
            match body {
                Some(b) => Some(b@),
                None => None,
            },
        ),
{
    match status {
        Some(code) => {
            if status_is_success(code) {
                match body {
                    Some(b) => FactOutcome::Reply(b),
                    None => FactOutcome::DecodeFailure,
                }
            } else {
                FactOutcome::TransportFailure
            }
        },
        None => FactOutcome::TransportFailure,
    }
}

/// The text for an outcome: the first fact, or the apology that belongs to
/// the outcome.
pub fn fact_text(outcome: &FactOutcome) -> (r: String)
    ensures
        r@ == fact_content(outcome@),
{
    match outcome {
        FactOutcome::TransportFailure => generic_apology_text(),
        FactOutcome::DecodeFailure => decode_apology_text(),
        FactOutcome::Reply(response) => {
            if response.data.len() > 0 {
                assert(response@[0] == response.data[0].attributes.body@);
                response.data[0].attributes.body.clone()
            } else {
                generic_apology_text()
            }
        },
    }
}

/// The message that an outcome adds to the conversation.
pub fn fact_message(outcome: &FactOutcome) -> (r: Message)
    ensures
        r@ == fact_for(outcome@),
{
    Message { role: String::from_str("API"), content: fact_text(outcome) }
}

/// A fetch that brought nothing back, or a status outside the successful
/// ones, is answered with the generic apology, whatever body came with it.
pub proof fn lemma_failed_status_fact(status: Option<u16>, body: Option<Seq<Seq<char>>>)
    requires
        status matches Some(code) ==> !is_success(code),
    ensures
        classified_fact(status, body) is TransportFailure,
        fact_content(classified_fact(status, body)) == generic_apology(),
{
}

} // verus!
