//! A four-step chat form that collects a cryptocurrency holding: its name,
//! the number of coins held and its symbol. The dialogue decisions live here
//! as pure step functions; sending replies and storing each chat's state are
//! left to the caller.
pub mod dialogue;
pub mod laws;
pub mod number;
pub mod state;

pub use dialogue::{handle, receive_name, receive_no, receive_symbol, start};
pub use number::{decimal_string, parse_u8};
pub use state::{State, Step, Transition};
