//! Verified core of the betradefi program: its declared identity and its one
//! instruction, `initialize`.

pub mod context;
pub mod instructions;
pub mod program_id;

pub use crate::context::{Context, Initialize};
pub use crate::instructions::{emit_greeting, initialize};
pub use crate::program_id::{check_id, id, ID};
