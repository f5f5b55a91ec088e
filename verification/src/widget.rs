//! The widget as a whole: conversation and input line, moved by events.
//!
//! `step` says what each event does to the widget and `sent` what it asks the
//! caller to send. The methods of `Chat` do exactly that, and the laws at the
//! end of this file hold of every run of events.

use vstd::prelude::*;
use vstd::string::StringExecFns;
use crate::dispatch::{
    build_request, reply_for, reply_message, request_for, ApiRequest, ApiRequestView, Outcome,
    OutcomeView,
};
use crate::input::{is_submit_key, submits, InputController, InputView};
use crate::message::{assistant_role, greeting, user_role, views_of, Message, MessageView};
use crate::store::ConversationStore;
use crate::text::{is_blank, lemma_trimmed_empty_iff_blank, trimmed};

verus! {

/// What the widget is to the contracts.
pub ghost struct ChatView {
    /// The model that the widget's requests name; it never changes.
    pub model: Seq<char>,
    pub messages: Seq<MessageView>,
    pub draft: Seq<char>,
    pub busy: bool,
}

impl ChatView {
    /// Whether the draft may go out now.
    pub open spec fn can_submit(self) -> bool {
        (InputView { draft: self.draft, busy: self.busy }).can_submit()
    }
}

/// What can happen to the widget.
pub ghost enum Event {
    /// The user changed the draft to this text.
    SetDraft(Seq<char>),
    /// The user asked for the draft to be sent.
    Submit,
    /// The user pressed a key in the input line.
    KeyPress { key: Seq<char>, shift: bool },
    /// The round trip of the submission under way ended.
    Settle(OutcomeView),
}

/// The widget before anything has happened.
pub open spec fn initial(model: Seq<char>) -> ChatView {
    ChatView { model, messages: seq![greeting()], draft: Seq::empty(), busy: false }
}

/// The message that records what the user sent.
pub open spec fn user_message(text: Seq<char>) -> MessageView {
    MessageView { role: user_role(), content: text }
}

/// The widget after a request to send the draft: where the draft may go out,
/// its trimmed text joins the conversation, the draft is empty and the widget
/// is busy. Where it may not, nothing has changed.
pub open spec fn submitted(s: ChatView) -> ChatView {
    if s.can_submit() {
        ChatView {
            messages: s.messages.push(user_message(trimmed(s.draft))),
            draft: Seq::empty(),
            busy: true,
            ..s
        }
    } else {
        s
    }
}

/// What a request to send the draft asks the caller to send: the whole
/// conversation, the new message included, or nothing where the draft may not
/// go out.
pub open spec fn sent_on_submit(s: ChatView) -> Option<ApiRequestView> {
    if s.can_submit() {
        Some(request_for(s.model, submitted(s).messages))
    } else {
        None
    }
}

/// The widget after one event.
pub open spec fn step(s: ChatView, e: Event) -> ChatView {
    match e {
        Event::SetDraft(text) => ChatView { draft: text, ..s },
        Event::Submit => submitted(s),
        Event::KeyPress { key, shift } => if submits(key, shift) {
            submitted(s)
        } else {
            s
        },
        Event::Settle(outcome) => ChatView {
            messages: s.messages.push(reply_for(outcome)),
            busy: false,
            ..s
        },
    }
}

/// What one event asks the caller to send.
pub open spec fn sent(s: ChatView, e: Event) -> Option<ApiRequestView> {
    match e {
        Event::Submit => sent_on_submit(s),
        Event::KeyPress { key, shift } => if submits(key, shift) {
            sent_on_submit(s)
        } else {
            None
        },
        _ => None,
    }
}

/// The widget after a run of events, taken in order.
pub open spec fn run(s: ChatView, events: Seq<Event>) -> ChatView
    decreases events.len(),
{
    if events.len() == 0 {
        s
    } else {
        step(run(s, events.drop_last()), events.last())
    }
}

/// A chat widget: a conversation, an input line, and the name of the model
/// that its requests go to.
pub struct Chat {
    model: String,
    store: ConversationStore,
    input: InputController,
}

impl View for Chat {
    type V = ChatView;

    closed spec fn view(&self) -> ChatView {
        ChatView {
            model: self.model@,
            messages: self.store@,
            draft: self.input@.draft,
            busy: self.input@.busy,
        }
    }
}

/// What the widget answers to a key press.
pub struct KeyResponse {
    /// Whether the caller must keep the key from doing what it would do
    /// otherwise.
    pub suppress_default: bool,
    /// What the caller must send, if anything.
    pub request: Option<ApiRequest>,
}

impl Chat {
    /// A widget for the given model that holds the greeting, an empty draft,
    /// and is not busy.
    pub fn new(model: &str) -> (r: Chat)
        ensures
            r@ == initial(model@),
    {
        Chat {
            model: String::from_str(model),
            store: ConversationStore::new(),
            input: InputController::new(),
        }
    }

    /// The model that the widget's requests name.
    pub fn model(&self) -> (r: &str)
        ensures
            r@ == self@.model,
    {
        self.model.as_str()
    }

    /// Replaces the draft.
    pub fn set_draft(&mut self, text: &str)
        ensures
            final(self)@ == step(old(self)@, Event::SetDraft(text@)),
    {
        self.input.set_draft(text);
    }

    /// The draft as it stands.
    pub fn draft(&self) -> (r: &str)
        ensures
            r@ == self@.draft,
    {
        self.input.draft()
    }

    /// Whether a submission is under way.
    pub fn is_busy(&self) -> (r: bool)
        ensures
            r == self@.busy,
    {
        self.input.is_busy()
    }

    /// Whether the draft may go out now.
    pub fn can_submit(&self) -> (r: bool)
        ensures
            r == self@.can_submit(),
    {
        self.input.can_submit()
    }

    /// How many messages the conversation holds.
    pub fn len(&self) -> (n: usize)
        ensures
            n == self@.messages.len(),
    {
        self.store.len()
    }

    /// A copy of the conversation as it stands.
    pub fn snapshot(&self) -> (r: Vec<Message>)
        ensures
            views_of(r@) == self@.messages,
    {
        self.store.snapshot()
    }

    /// Sends the draft where that is allowed. The draft is emptied and the
    /// widget is busy before this returns; the request that comes back is for
    /// the caller to send, and `settle` takes what came of it.
    pub fn submit(&mut self) -> (r: Option<ApiRequest>)
        ensures
            final(self)@ == step(old(self)@, Event::Submit),
            match r {
                Some(request) => sent(old(self)@, Event::Submit) == Some(request@),
                None => sent(old(self)@, Event::Submit) is None,
            },
    {
        match self.input.begin() {
            Some(text) => {
                self.store.append(Message { role: String::from_str("user"), content: text });
                Some(build_request(self.model.as_str(), self.store.messages()))
            },
            None => None,
        }
    }

    /// Takes a key press in the input line: Enter without Shift sends the
    /// draft as `submit` does, and any other key changes nothing.
    pub fn on_key(&mut self, key: &str, shift: bool) -> (r: KeyResponse)
        ensures
            r.suppress_default == submits(key@, shift),
            final(self)@ == step(old(self)@, Event::KeyPress { key: key@, shift }),
            match r.request {
                Some(request) => sent(old(self)@, Event::KeyPress { key: key@, shift }) == Some(
                    request@,
                ),
                None => sent(old(self)@, Event::KeyPress { key: key@, shift }) is None,
            },
    {
        if is_submit_key(key, shift) {
            KeyResponse { suppress_default: true, request: self.submit() }
        } else {
            KeyResponse { suppress_default: false, request: None }
        }
    }

    /// Takes the outcome of the round trip: adds the one reply that belongs to
    /// it and ends the submission, whatever the outcome is.
    pub fn settle(&mut self, outcome: &Outcome)
        ensures
            final(self)@ == step(old(self)@, Event::Settle(outcome@)),
    {
        self.store.append(reply_message(outcome));
        self.input.finish();
    }
}

/// No event takes a message away or changes one: the conversation before an
/// event is the start of the conversation after it.
pub proof fn lemma_step_extends(s: ChatView, e: Event)
    ensures
        s.messages.is_prefix_of(step(s, e).messages),
        s.messages.len() <= step(s, e).messages.len(),
{
}

/// Over any run of events the conversation only grows: what it held before is
/// the start of what it holds after, so its length never goes down.
pub proof fn lemma_run_extends(s: ChatView, events: Seq<Event>)
    ensures
        s.messages.is_prefix_of(run(s, events).messages),
        s.messages.len() <= run(s, events).messages.len(),
    decreases events.len(),
{
    if events.len() > 0 {
        lemma_run_extends(s, events.drop_last());
        lemma_step_extends(run(s, events.drop_last()), events.last());
    }
}

/// Whatever has happened to a widget since it was made, its conversation
/// still opens with the greeting.
pub proof fn lemma_greeting_stays(model: Seq<char>, events: Seq<Event>)
    ensures
        run(initial(model), events).messages.len() >= 1,
        run(initial(model), events).messages[0] == greeting(),
{
    lemma_run_extends(initial(model), events);
    let after = run(initial(model), events).messages;
    assert(after.subrange(0, 1)[0] == after[0]);
}

/// Settling adds exactly one message, under the assistant's role, whichever
/// way the round trip ended.
pub proof fn lemma_settle_adds_one_reply(s: ChatView, outcome: OutcomeView)
    ensures
        step(s, Event::Settle(outcome)).messages == s.messages.push(reply_for(outcome)),
        step(s, Event::Settle(outcome)).messages.len() == s.messages.len() + 1,
        step(s, Event::Settle(outcome)).messages.last().role == assistant_role(),
{
}

/// A submission that is allowed, followed by its settling, adds the user's
/// trimmed text and then exactly one reply, and leaves the widget free for
/// the next submission.
pub proof fn lemma_turn(s: ChatView, outcome: OutcomeView)
    requires
        s.can_submit(),
    ensures
        step(step(s, Event::Submit), Event::Settle(outcome)) == (ChatView {
            messages: s.messages.push(user_message(trimmed(s.draft))).push(reply_for(outcome)),
            draft: Seq::empty(),
            busy: false,
            ..s
        }),
{
}

/// While the widget is busy the draft may not go out, and settling ends that
/// whichever way the round trip ended.
pub proof fn lemma_busy_gates(s: ChatView, outcome: OutcomeView)
    ensures
        s.busy ==> !s.can_submit(),
        !step(s, Event::Settle(outcome)).busy,
{
}

/// Between a submission and its settling nothing joins the conversation and
/// nothing more is sent: over a run of events without a settling, a busy
/// widget stays busy and keeps its conversation.
pub proof fn lemma_busy_blocks(s: ChatView, events: Seq<Event>)
    requires
        s.busy,
        forall|i: int| 0 <= i < events.len() ==> !(#[trigger] events[i] is Settle),
    ensures
        run(s, events).busy,
        run(s, events).messages == s.messages,
        events.len() > 0 ==> sent(run(s, events.drop_last()), events.last()) is None,
    decreases events.len(),
{
    if events.len() > 0 {
        let before = events.drop_last();
        assert forall|i: int| 0 <= i < before.len() implies !(#[trigger] before[i] is Settle) by {
            assert(before[i] == events[i]);
        }
        lemma_busy_blocks(s, before);
        assert(!(events[events.len() - 1] is Settle));
    }
}

/// After a request to send, the draft is empty at once, before anything is
/// known of the round trip: where the draft may go out it is emptied, and an
/// empty draft stays empty. (A draft that is refused is left as it is.)
pub proof fn lemma_submit_clears_draft(s: ChatView)
    requires
        s.can_submit() || s.draft.len() == 0,
    ensures
        step(s, Event::Submit).draft == Seq::<char>::empty(),
        s.can_submit() ==> step(s, Event::Submit).busy,
{
    assert(s.draft.len() == 0 ==> s.draft =~= Seq::<char>::empty());
}

/// A request to send a draft that is empty or all white space, or one made
/// while the widget is busy, changes nothing and sends nothing.
pub proof fn lemma_refused_submit(s: ChatView)
    requires
        is_blank(s.draft) || s.busy,
    ensures
        !s.can_submit(),
        step(s, Event::Submit) == s,
        sent(s, Event::Submit) is None,
{
    lemma_trimmed_empty_iff_blank(s.draft);
}

/// Asking twice in a row to send is asking once: the second request changes
/// nothing and sends nothing.
pub proof fn lemma_second_submit(s: ChatView)
    ensures
        step(step(s, Event::Submit), Event::Submit) == step(s, Event::Submit),
        sent(step(s, Event::Submit), Event::Submit) is None,
{
}

} // verus!
