use dialogue_bot::{
    decimal_string, handle, parse_u8, receive_name, receive_no, receive_symbol, start, State,
    Step, Transition,
};

fn step(reply: &str, transition: Transition) -> Step {
    Step { reply: reply.to_string(), transition }
}

fn bitcoin_no() -> State {
    State::ReceiveNo { name: "Bitcoin".to_string() }
}

#[test]
fn start_asks_for_the_name() {
    assert_eq!(
        start(),
        step("Let's start! Enter Your Fav Crypto?", Transition::Update(State::ReceiveName))
    );
    assert_eq!(
        handle(State::Start, Some("hi")),
        step("Let's start! Enter Your Fav Crypto?", Transition::Update(State::ReceiveName))
    );
}

#[test]
fn start_takes_any_message() {
    assert_eq!(
        handle(State::Start, None),
        step("Let's start! Enter Your Fav Crypto?", Transition::Update(State::ReceiveName))
    );
}

#[test]
fn default_state_is_start() {
    assert_eq!(State::default(), State::Start);
}

#[test]
fn name_is_taken_and_quantity_asked() {
    assert_eq!(
        receive_name(Some("Bitcoin")),
        step("How much you Holding?", Transition::Update(bitcoin_no()))
    );
    assert_eq!(
        handle(State::ReceiveName, Some("Bitcoin")),
        step("How much you Holding?", Transition::Update(bitcoin_no()))
    );
}

#[test]
fn quantity_is_taken_and_symbol_asked() {
    let expected = step(
        "What's The Symbol of Your Crypto Holding",
        Transition::Update(State::ReceiveSymbol { name: "Bitcoin".to_string(), no: 12 }),
    );
    assert_eq!(receive_no("Bitcoin".to_string(), Some("12")), expected);
    assert_eq!(handle(bitcoin_no(), Some("12")), expected);
}

#[test]
fn symbol_completes_the_form() {
    let expected = step("Cyptocurrency: Bitcoin\nCoins: 12\nSymbol: BTC", Transition::Exit);
    assert_eq!(receive_symbol("Bitcoin".to_string(), 12, Some("BTC")), expected);
    assert_eq!(
        handle(State::ReceiveSymbol { name: "Bitcoin".to_string(), no: 12 }, Some("BTC")),
        expected
    );
}

#[test]
fn report_writes_one_and_three_digit_quantities() {
    assert_eq!(
        receive_symbol("Ether".to_string(), 0, Some("ETH")).reply,
        "Cyptocurrency: Ether\nCoins: 0\nSymbol: ETH"
    );
    assert_eq!(
        receive_symbol("Ether".to_string(), 255, Some("ETH")).reply,
        "Cyptocurrency: Ether\nCoins: 255\nSymbol: ETH"
    );
}

#[test]
fn missing_text_is_rejected_in_each_waiting_state() {
    assert_eq!(handle(State::ReceiveName, None), step("Send me plain text.", Transition::Stay));
    assert_eq!(handle(bitcoin_no(), None), step("Send me a number.", Transition::Stay));
    assert_eq!(
        handle(State::ReceiveSymbol { name: "Bitcoin".to_string(), no: 12 }, None),
        step("Send me plain text.", Transition::Stay)
    );
}

#[test]
fn empty_text_is_rejected() {
    assert_eq!(receive_name(Some("")), step("Send me plain text.", Transition::Stay));
    assert_eq!(
        receive_symbol("Bitcoin".to_string(), 12, Some("")),
        step("Send me plain text.", Transition::Stay)
    );
    assert_eq!(receive_no("Bitcoin".to_string(), Some("")), step("Send me a number.", Transition::Stay));
}

#[test]
fn quantity_boundary() {
    assert_eq!(
        receive_no("Bitcoin".to_string(), Some("255")).transition,
        Transition::Update(State::ReceiveSymbol { name: "Bitcoin".to_string(), no: 255 })
    );
    let rejected = step("Send me a number.", Transition::Stay);
    assert_eq!(receive_no("Bitcoin".to_string(), Some("256")), rejected);
    assert_eq!(receive_no("Bitcoin".to_string(), Some("-1")), rejected);
    assert_eq!(receive_no("Bitcoin".to_string(), Some("abc")), rejected);
}

#[test]
fn repeated_rejection_keeps_state() {
    let mut state = bitcoin_no();
    for input in [Some("abc"), None, Some("256"), Some("-1"), Some("")] {
        let r = handle(state.clone(), input);
        assert_eq!(r, step("Send me a number.", Transition::Stay));
        if let Transition::Update(next) = r.transition {
            state = next;
        }
        assert_eq!(state, bitcoin_no());
    }
}

#[test]
fn whole_conversation_walks_the_form() {
    let inputs = [Some("hi"), None, Some("Bitcoin"), Some("lots"), Some("12"), None, Some("BTC")];
    let mut state = State::Start;
    let mut seen = vec![];
    for input in inputs {
        let r = handle(state.clone(), input);
        state = match r.transition {
            Transition::Stay => state,
            Transition::Update(next) => next,
            Transition::Exit => State::Start,
        };
        seen.push(state.clone());
    }
    assert_eq!(
        seen,
        vec![
            State::ReceiveName,
            State::ReceiveName,
            bitcoin_no(),
            bitcoin_no(),
            State::ReceiveSymbol { name: "Bitcoin".to_string(), no: 12 },
            State::ReceiveSymbol { name: "Bitcoin".to_string(), no: 12 },
            State::Start,
        ]
    );
}

#[test]
fn parse_u8_follows_std() {
    assert_eq!(parse_u8("0"), Some(0));
    assert_eq!(parse_u8("007"), Some(7));
    assert_eq!(parse_u8("+42"), Some(42));
    assert_eq!(parse_u8("255"), Some(255));
    assert_eq!(parse_u8("256"), None);
    assert_eq!(parse_u8("1000"), None);
    assert_eq!(parse_u8(""), None);
    assert_eq!(parse_u8("+"), None);
    assert_eq!(parse_u8("-0"), None);
    assert_eq!(parse_u8(" 1"), None);
    assert_eq!(parse_u8("1 "), None);
    assert_eq!(parse_u8("١٢"), None);
    for s in ["0", "9", "10", "99", "100", "255", "256", "+1", "-1", "x", "0255", "00000000000256"] {
        assert_eq!(parse_u8(s), s.parse::<u8>().ok(), "{s}");
    }
}

#[test]
fn decimal_string_follows_std() {
    for n in 0..=255u8 {
        assert_eq!(decimal_string(n), n.to_string());
    }
}
