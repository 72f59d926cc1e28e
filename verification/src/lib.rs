//! A quote-of-the-day service core: a fixed list of quotations, one of which
//! is current and is replaced by a randomly drawn one once it has been
//! current for more than a day.

pub mod clock;
pub mod loader;
pub mod quote;
pub mod responder;
pub mod selector;
