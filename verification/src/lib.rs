pub mod action_list;
pub mod comment;
pub mod decimal;
pub mod entry;
pub mod error;
pub mod grammar;
pub mod keycodes;
pub mod modifiers;
pub mod parse;
pub mod reader;
pub mod roundtrip;
pub mod sections;
pub mod special_inputs;
pub mod text;
pub mod text_laws;
pub mod writer;

pub use parse::parse_line;
