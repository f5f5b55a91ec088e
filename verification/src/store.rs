//! The conversation: an ordered log of messages that only grows.

use vstd::prelude::*;
use crate::message::{copy_messages, greeting, views_of, Message, MessageView};

verus! {

/// The messages of one widget, in the order in which they were added, which is
/// the order in which they are shown. There is no way to change or remove one.
pub struct ConversationStore {
    messages: Vec<Message>,
}

impl View for ConversationStore {
    type V = Seq<MessageView>;

    closed spec fn view(&self) -> Seq<MessageView> {
        views_of(self.messages@)
    }
}

impl ConversationStore {
    /// A conversation that holds the greeting and nothing else.
    pub fn new() -> (r: ConversationStore)
        ensures
            r@ == seq![greeting()],
    {
        let mut messages: Vec<Message> = Vec::new();
        messages.push(Message::new("Asistent", "Kako mogu da ti pomognem?"));
        assert(views_of(messages@) =~= seq![greeting()]);
        ConversationStore { messages }
    }

    /// Adds a message at the end. What was there stays as it was, so the
    /// conversation before is the start of the conversation after.
    pub fn append(&mut self, message: Message)
        ensures
            final(self)@ == old(self)@.push(message@),
            old(self)@.is_prefix_of(final(self)@),
    {
        self.messages.push(message);
        assert(views_of(self.messages@) =~= views_of(old(self).messages@).push(message@));
    }

    /// How many messages the conversation holds.
    pub fn len(&self) -> (n: usize)
        ensures
            n == self@.len(),
    {
        self.messages.len()
    }

    /// The conversation as it stands, for reading in place.
    pub fn messages(&self) -> (r: &Vec<Message>)
        ensures
            views_of(r@) == self@,
    {
        &self.messages
    }

    /// A copy of the conversation as it stands, for reading.
    pub fn snapshot(&self) -> (r: Vec<Message>)
        ensures
            views_of(r@) == self@,
    {
        copy_messages(&self.messages)
    }
}

} // verus!
