//! A small greeting library: it parses an age from text, builds a
//! personalized greeting, and picks age-dependent messages, all with
//! verified contracts. Reading and printing stay outside the library.

pub mod decimal;
pub mod category;
pub mod greeting;
pub mod session;
