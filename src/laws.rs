//! What holds of every conversation: the form is only ever walked forward,
//! one place at a time, and a rejected message changes nothing.
use vstd::prelude::*;

use crate::dialogue::{accepts, number_prompt, quantity_of, step};
use crate::state::{after, StateView, TransitionView};

verus! {

/// The state a chat is in after answering message `input` in state `s`.
pub open spec fn next_state(s: StateView, input: Option<Seq<char>>) -> StateView {
    after(s, step(s, input).1)
}

/// The state a chat is in after answering each of `inputs` in turn, from `s`.
pub open spec fn run(s: StateView, inputs: Seq<Option<Seq<char>>>) -> StateView
    decreases inputs.len(),
{
    if inputs.len() == 0 {
        s
    } else {
        next_state(run(s, inputs.drop_last()), inputs.last())
    }
}

/// `n` is the place after `s` on the path
/// Start, ReceiveName, ReceiveNo, ReceiveSymbol, cleared (read as Start),
/// and keeps every answer that `s` holds.
pub open spec fn advances(s: StateView, n: StateView) -> bool {
    match s {
        StateView::Start => n is ReceiveName,
        StateView::ReceiveName => n is ReceiveNo,
        StateView::ReceiveNo { name } => n matches StateView::ReceiveSymbol { name: m, .. } && m
            == name,
        StateView::ReceiveSymbol { .. } => n is Start,
    }
}

/// One message moves a chat one place along the form when it is accepted,
/// and leaves it where it was when it is not.
pub proof fn lemma_step_moves_at_most_one(s: StateView, input: Option<Seq<char>>)
    ensures
        accepts(s, input) ==> advances(s, next_state(s, input)),
        !accepts(s, input) ==> next_state(s, input) == s,
{
}

proof fn lemma_run_last(s: StateView, inputs: Seq<Option<Seq<char>>>, i: int)
    requires
        0 <= i < inputs.len(),
    ensures
        run(s, inputs.take(i + 1)) == next_state(run(s, inputs.take(i)), inputs[i]),
{
    assert(inputs.take(i + 1).drop_last() =~= inputs.take(i));
}

/// Along any sequence of messages, a chat's states form a path that stalls
/// or takes one step forward at each message: from Start to ReceiveName to
/// ReceiveNo to ReceiveSymbol and back to Start when cleared. A rejected
/// message never moves it.
pub proof fn lemma_states_follow_the_form(inputs: Seq<Option<Seq<char>>>)
    ensures
        forall|i: int|
            0 <= i < inputs.len() ==> {
                let a = #[trigger] run(StateView::Start, inputs.take(i));
                let b = run(StateView::Start, inputs.take(i + 1));
                &&& b == a || advances(a, b)
                &&& accepts(a, inputs[i]) ==> advances(a, b)
                &&& !accepts(a, inputs[i]) ==> b == a
            },
{
    assert forall|i: int| 0 <= i < inputs.len() implies {
        let a = #[trigger] run(StateView::Start, inputs.take(i));
        let b = run(StateView::Start, inputs.take(i + 1));
        &&& b == a || advances(a, b)
        &&& accepts(a, inputs[i]) ==> advances(a, b)
        &&& !accepts(a, inputs[i]) ==> b == a
    } by {
        lemma_run_last(StateView::Start, inputs, i);
        lemma_step_moves_at_most_one(run(StateView::Start, inputs.take(i)), inputs[i]);
    }
}

proof fn lemma_rejected_run_stays(name: Seq<char>, inputs: Seq<Option<Seq<char>>>)
    requires
        forall|i: int| 0 <= i < inputs.len() ==> quantity_of(#[trigger] inputs[i]) is None,
    ensures
        run(StateView::ReceiveNo { name }, inputs) == (StateView::ReceiveNo { name }),
    decreases inputs.len(),
{
    if inputs.len() > 0 {
        let rest = inputs.drop_last();
        assert forall|i: int| 0 <= i < rest.len() implies quantity_of(#[trigger] rest[i]) is None by {
            assert(rest[i] == inputs[i]);
        }
        lemma_rejected_run_stays(name, rest);
        assert(quantity_of(inputs[inputs.len() - 1]) is None);
    }
}

/// A chat waiting for the quantity stays there, with the same name, however
/// many messages in a row fail to spell one, and each of them is answered
/// with the same request for a number.
pub proof fn lemma_rejection_is_idempotent(name: Seq<char>, inputs: Seq<Option<Seq<char>>>)
    requires
        forall|i: int| 0 <= i < inputs.len() ==> quantity_of(#[trigger] inputs[i]) is None,
    ensures
        run(StateView::ReceiveNo { name }, inputs) == (StateView::ReceiveNo { name }),
        forall|i: int|
            0 <= i < inputs.len() ==> #[trigger] step(
                run(StateView::ReceiveNo { name }, inputs.take(i)),
                inputs[i],
            ) == (number_prompt(), TransitionView::Stay),
{
    lemma_rejected_run_stays(name, inputs);
    assert forall|i: int| 0 <= i < inputs.len() implies #[trigger] step(
        run(StateView::ReceiveNo { name }, inputs.take(i)),
        inputs[i],
    ) == (number_prompt(), TransitionView::Stay) by {
        let pre = inputs.take(i);
        assert forall|j: int| 0 <= j < pre.len() implies quantity_of(#[trigger] pre[j]) is None by {
            assert(pre[j] == inputs[j]);
        }
        lemma_rejected_run_stays(name, pre);
    }
}

} // verus!
