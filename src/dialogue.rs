//! The dialogue's step functions, one per state, and the dispatch among them.
use vstd::prelude::*;

use crate::number::{decimal, decimal_string, parse_u8, spec_parse_u8};
use crate::state::{State, StateView, Step, Transition, TransitionView};

verus! {

pub open spec fn start_reply() -> Seq<char> {
    "Let's start! Enter Your Fav Crypto?"@
}

pub open spec fn quantity_prompt() -> Seq<char> {
    "How much you Holding?"@
}

pub open spec fn symbol_prompt() -> Seq<char> {
    "What's The Symbol of Your Crypto Holding"@
}

pub open spec fn plain_text_prompt() -> Seq<char> {
    "Send me plain text."@
}

pub open spec fn number_prompt() -> Seq<char> {
    "Send me a number."@
}

/// The summary sent once the form is complete.
pub open spec fn report(name: Seq<char>, no: u8, symbol: Seq<char>) -> Seq<char> {
    "Cyptocurrency: "@ + name + "\nCoins: "@ + decimal(no as nat) + "\nSymbol: "@ + symbol
}

/// The text of a message, if it has any.
pub open spec fn text_of(text: Option<&str>) -> Option<Seq<char>> {
    match text {
        Some(t) => Some(t@),
        None => None,
    }
}

/// A message that carries non-empty text.
pub open spec fn is_plain_text(input: Option<Seq<char>>) -> bool {
    input is Some && input->0.len() > 0
}

/// The quantity a message spells, if it has text that spells one.
pub open spec fn quantity_of(input: Option<Seq<char>>) -> Option<u8> {
    match input {
        Some(t) => spec_parse_u8(t),
        None => None,
    }
}

/// The reply and the state write owed to message `input` in state `s`.
pub open spec fn step(s: StateView, input: Option<Seq<char>>) -> (Seq<char>, TransitionView) {
    match s {
        StateView::Start => (start_reply(), TransitionView::Update(StateView::ReceiveName)),
        StateView::ReceiveName => if is_plain_text(input) {
            (quantity_prompt(), TransitionView::Update(StateView::ReceiveNo { name: input->0 }))
        } else {
            (plain_text_prompt(), TransitionView::Stay)
        },
        StateView::ReceiveNo { name } => match quantity_of(input) {
            Some(no) => (
                symbol_prompt(),
                TransitionView::Update(StateView::ReceiveSymbol { name, no }),
            ),
            None => (number_prompt(), TransitionView::Stay),
        },
        StateView::ReceiveSymbol { name, no } => if is_plain_text(input) {
            (report(name, no, input->0), TransitionView::Exit)
        } else {
            (plain_text_prompt(), TransitionView::Stay)
        },
    }
}

/// Whether `input` is taken in state `s`, moving the form on.
pub open spec fn accepts(s: StateView, input: Option<Seq<char>>) -> bool {
    match s {
        StateView::Start => true,
        StateView::ReceiveName => is_plain_text(input),
        StateView::ReceiveNo { .. } => quantity_of(input) is Some,
        StateView::ReceiveSymbol { .. } => is_plain_text(input),
    }
}

fn reply_of(text: &str) -> (r: String)
    ensures
        r@ == text@,
{
    String::from_str(text)
}

/// Any message opens the form and asks for the holding's name.
pub fn start() -> (r: Step)
    ensures
        r@ == step(StateView::Start, None),
{
    Step {
        reply: reply_of("Let's start! Enter Your Fav Crypto?"),
        transition: Transition::Update(State::ReceiveName),
    }
}

/// Takes non-empty text as the holding's name and asks for the quantity.
pub fn receive_name(text: Option<&str>) -> (r: Step)
    ensures
        r@ == step(StateView::ReceiveName, text_of(text)),
{
    match text {
        Some(t) if !t.is_empty() => Step {
            reply: reply_of("How much you Holding?"),
            transition: Transition::Update(State::ReceiveNo { name: String::from_str(t) }),
        },
        _ => Step { reply: reply_of("Send me plain text."), transition: Transition::Stay },
    }
}

/// Takes text that spells an 8-bit unsigned integer as the quantity and asks
/// for the symbol.
pub fn receive_no(name: String, text: Option<&str>) -> (r: Step)
    ensures
        r@ == step(StateView::ReceiveNo { name: name@ }, text_of(text)),
{
    let no = match text {
        Some(t) => parse_u8(t),
        None => None,
    };
    match no {
        Some(no) => Step {
            reply: reply_of("What's The Symbol of Your Crypto Holding"),
            transition: Transition::Update(State::ReceiveSymbol { name, no }),
        },
        None => Step { reply: reply_of("Send me a number."), transition: Transition::Stay },
    }
}

/// Takes non-empty text as the symbol, sends the summary and ends the form.
pub fn receive_symbol(name: String, no: u8, text: Option<&str>) -> (r: Step)
    ensures
        r@ == step(StateView::ReceiveSymbol { name: name@, no }, text_of(text)),
{
    match text {
        Some(symbol) if !symbol.is_empty() => {
            let mut report = String::from_str("Cyptocurrency: ");
            report.append(name.as_str());
            report.append("\nCoins: ");
            let coins = decimal_string(no);
            report.append(coins.as_str());
            report.append("\nSymbol: ");
            report.append(symbol);
            Step { reply: report, transition: Transition::Exit }
        },
        _ => Step { reply: reply_of("Send me plain text."), transition: Transition::Stay },
    }
}

/// Routes a message to the step function of the chat's current state.
pub fn handle(state: State, text: Option<&str>) -> (r: Step)
    ensures
        r@ == step(state@, text_of(text)),
{
    match state {
        State::Start => start(),
        State::ReceiveName => receive_name(text),
        State::ReceiveNo { name } => receive_no(name, text),
        State::ReceiveSymbol { name, no } => receive_symbol(name, no, text),
    }
}

} // verus!
