//! A chat's place in the form, and what one incoming message makes of it.
use vstd::prelude::*;

verus! {

/// Where a chat stands in the form. Each variant carries exactly the answers
/// collected before it.
#[derive(Clone, Debug, PartialEq, Eq)]
pub enum State {
    Start,
    ReceiveName,
    ReceiveNo { name: String },
    ReceiveSymbol { name: String, no: u8 },
}

/// The model of a `State`: the same variants over character sequences.
pub enum StateView {
    Start,
    ReceiveName,
    ReceiveNo { name: Seq<char> },
    ReceiveSymbol { name: Seq<char>, no: u8 },
}

impl View for State {
    type V = StateView;

    open spec fn view(&self) -> StateView {
        match self {
            State::Start => StateView::Start,
            State::ReceiveName => StateView::ReceiveName,
            State::ReceiveNo { name } => StateView::ReceiveNo { name: name@ },
            State::ReceiveSymbol { name, no } => StateView::ReceiveSymbol { name: name@, no: *no },
        }
    }
}

impl Default for State {
    /// A chat with no stored state is at the start of the form.
    fn default() -> (r: State)
        ensures
            r@ == StateView::Start,
    {
        State::Start
    }
}

/// What becomes of the chat's stored state after a reply.
#[derive(Debug, PartialEq, Eq)]
pub enum Transition {
    /// The input was rejected: nothing is written.
    Stay,
    /// The state is replaced by the one given.
    Update(State),
    /// The form is complete: the stored state is cleared.
    Exit,
}

pub enum TransitionView {
    Stay,
    Update(StateView),
    Exit,
}

impl View for Transition {
    type V = TransitionView;

    open spec fn view(&self) -> TransitionView {
        match self {
            Transition::Stay => TransitionView::Stay,
            Transition::Update(s) => TransitionView::Update(s@),
            Transition::Exit => TransitionView::Exit,
        }
    }
}

/// The answer to one incoming message: the one reply to send, and the one
/// write (if any) to make to the chat's state.
#[derive(Debug, PartialEq, Eq)]
pub struct Step {
    pub reply: String,
    pub transition: Transition,
}

impl View for Step {
    type V = (Seq<char>, TransitionView);

    open spec fn view(&self) -> (Seq<char>, TransitionView) {
        (self.reply@, self.transition@)
    }
}

/// The state a chat is in once `t` has been applied to `s`; a cleared state
/// reads as `Start`.
pub open spec fn after(s: StateView, t: TransitionView) -> StateView {
    match t {
        TransitionView::Stay => s,
        TransitionView::Update(n) => n,
        TransitionView::Exit => StateView::Start,
    }
}

} // verus!
