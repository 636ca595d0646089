//! Case-insensitive string wrappers.
//!
//! The wrapper types here change the equivalence relation used to compare,
//! order and hash text, without ever touching the stored bytes. `AsciiText`
//! compares by an ASCII byte fold; `CaselessText` classifies its content once,
//! at construction, and dispatches between the fast ASCII fold and full
//! Unicode case folding. `AsciiRef` and `CaselessRef` are their borrowed
//! counterparts, for text that stays in a buffer someone else owns.

pub mod ascii;
pub mod borrowed;
pub mod fold;
pub mod hashing;
pub mod order;
pub mod text;
pub mod wire;

pub use ascii::AsciiText;
pub use borrowed::AsciiRef;
pub use borrowed::CaselessRef;
pub use fold::ascii_fold_char;
pub use order::TextOrdering;
pub use text::CaselessText;
