//! A lossless recursive-descent parser that turns a textual type or
//! method-signature expression into an ordered token stream. The stream
//! keeps every byte of the input, so a renderer can reproduce it exactly.
pub mod grammar;
pub mod laws;
pub mod parser;
pub mod token;

pub use parser::is_primitive;
pub use parser::parse_constraints;
pub use parser::parse_impl;
pub use parser::parse_trait_impl;
pub use parser::parse_type;
pub use parser::ParsedItem;
pub use token::Primitive;
pub use token::RangeToken;
pub use token::Token;
pub use token::TokenStream;
