//! One entry of the conversation.

use vstd::prelude::*;
use vstd::string::StringExecFns;

verus! {

/// What a message is to the contracts: its two texts.
pub ghost struct MessageView {
    pub role: Seq<char>,
    pub content: Seq<char>,
}

/// A message: who speaks, and what is said. The role is a label for display
/// only; no value of it is refused.
#[derive(Debug)]
pub struct Message {
    pub role: String,
    pub content: String,
}

impl View for Message {
    type V = MessageView;

    open spec fn view(&self) -> MessageView {
        MessageView { role: self.role@, content: self.content@ }
    }
}

impl Clone for Message {
    fn clone(&self) -> (r: Self)
        ensures
            r@ == self@,
    {
        Message { role: self.role.clone(), content: self.content.clone() }
    }
}

impl Message {
    /// A message with the given role and content.
    pub fn new(role: &str, content: &str) -> (r: Message)
        ensures
            r@ == (MessageView { role: role@, content: content@ }),
    {
        Message { role: String::from_str(role), content: String::from_str(content) }
    }
}

/// The views of a run of messages, in order.
pub open spec fn views_of(messages: Seq<Message>) -> Seq<MessageView> {
    messages.map_values(|m: Message| m@)
}

/// The role of the greeting that opens every conversation.
pub open spec fn greeting_role() -> Seq<char> {
    "Asistent"@
}

/// The content of the greeting that opens every conversation.
pub open spec fn greeting_content() -> Seq<char> {
    "Kako mogu da ti pomognem?"@
}

/// The role under which the user's own text is recorded.
pub open spec fn user_role() -> Seq<char> {
    "user"@
}

/// The role under which a reply to a submission is recorded.
pub open spec fn assistant_role() -> Seq<char> {
    "assistant"@
}

/// The role under which a fetched fact is recorded.
pub open spec fn fact_role() -> Seq<char> {
    "API"@
}

/// The greeting.
pub open spec fn greeting() -> MessageView {
    MessageView { role: greeting_role(), content: greeting_content() }
}

/// Copies a run of messages.
pub fn copy_messages(messages: &Vec<Message>) -> (r: Vec<Message>)
    ensures
        views_of(r@) == views_of(messages@),
{
    let mut out: Vec<Message> = Vec::new();
    let mut i: usize = 0;
    while i < messages.len()
        invariant
            i <= messages.len(),
            out.len() == i,
            forall|j: int| 0 <= j < i ==> out[j]@ == messages[j]@,
        decreases messages.len() - i,
    {
        out.push(messages[i].clone());
        i += 1;
    }
    assert(views_of(out@) =~= views_of(messages@));
    out
}

} // verus!
