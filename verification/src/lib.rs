//! Classify two command-line operands as numbers or text and render a
//! one-line comparison of them.
//!
//! The host's floating-point machinery (parsing, canonical rendering, the
//! bit pattern of a parsed number) runs outside this crate; classification
//! hands in plain data — a rendering, an order key, a NaN flag — and every
//! decision and every character of the output is produced and proved here.

pub mod comparison;
pub mod help;
pub mod value;

pub use comparison::compare;
pub use comparison::compare_numbers;
pub use comparison::compare_texts;
pub use help::gen_help_msg;
pub use value::Numeric;
pub use value::Value;
pub use value::order_key;
