//! The input line: a draft, a busy flag, and the rule for when a draft may go
//! out.

use vstd::prelude::*;
use vstd::string::StringExecFns;
use crate::text::{trim, trimmed};

verus! {

/// What the input line is to the contracts.
pub ghost struct InputView {
    pub draft: Seq<char>,
    pub busy: bool,
}

impl InputView {
    /// A draft may go out when trimming leaves something of it and no earlier
    /// submission is still under way.
    pub open spec fn can_submit(self) -> bool {
        trimmed(self.draft).len() > 0 && !self.busy
    }
}

/// The name that a key event gives to the Enter key.
pub open spec fn enter_key() -> Seq<char> {
    "Enter"@
}

/// A key press stands for a submission when it is Enter without Shift.
pub open spec fn submits(key: Seq<char>, shift: bool) -> bool {
    key == enter_key() && !shift
}

/// The draft text and the flag that is up while a submission is under way.
pub struct InputController {
    draft: String,
    busy: bool,
}

impl View for InputController {
    type V = InputView;

    closed spec fn view(&self) -> InputView {
        InputView { draft: self.draft@, busy: self.busy }
    }
}

impl InputController {
    /// An empty draft, not busy.
    pub fn new() -> (r: InputController)
        ensures
            r@ == (InputView { draft: Seq::empty(), busy: false }),
    {
        InputController { draft: String::new(), busy: false }
    }

    /// Replaces the draft, whatever it held and whether busy or not.
    pub fn set_draft(&mut self, text: &str)
        ensures
            final(self)@ == (InputView { draft: text@, busy: old(self)@.busy }),
    {
        self.draft = String::from_str(text);
    }

    /// The draft as it stands.
    pub fn draft(&self) -> (r: &str)
        ensures
            r@ == self@.draft,
    {
        self.draft.as_str()
    }

    /// Whether a submission is under way.
    pub fn is_busy(&self) -> (r: bool)
        ensures
            r == self@.busy,
    {
        self.busy
    }

    /// Whether the draft may go out now.
    pub fn can_submit(&self) -> (r: bool)
        ensures
            r == self@.can_submit(),
    {
        !trim(self.draft.as_str()).is_empty() && !self.busy
    }

    /// Starts a submission where one is allowed: hands out the trimmed draft,
    /// empties the draft and raises the busy flag, all in one step. Where none
    /// is allowed, nothing changes and nothing is handed out.
    pub fn begin(&mut self) -> (r: Option<String>)
        ensures
            match r {
                Some(text) => {
                    &&& old(self)@.can_submit()
                    &&& text@ == trimmed(old(self)@.draft)
                    &&& final(self)@ == (InputView { draft: Seq::empty(), busy: true })
                },
                None => !old(self)@.can_submit() && final(self)@ == old(self)@,
            },
    {
        let kept = trim(self.draft.as_str());
        if kept.is_empty() || self.busy {
            return None;
        }
        let text = String::from_str(kept);
        self.draft = String::new();
        self.busy = true;
        Some(text)
    }

    /// Ends a submission: lowers the busy flag and leaves the draft alone.
    pub fn finish(&mut self)
        ensures
            final(self)@ == (InputView { draft: old(self)@.draft, busy: false }),
    {
        self.busy = false;
    }
}

/// Whether a key press is Enter without Shift, and so stands for a
/// submission. The caller then keeps the key from doing what it would do
/// otherwise.
pub fn is_submit_key(key: &str, shift: bool) -> (r: bool)
    ensures
        r == submits(key@, shift),
{
    !shift && String::from_str(key) == String::from_str("Enter")
}

} // verus!
