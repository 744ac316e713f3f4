//! A token fundraiser: the rules that decide what each instruction of the
//! fundraiser programs does, the byte layouts of its accounts and of its
//! instruction data, and the laws that hold across instructions.

pub mod constants;
pub mod errors;
pub mod layout;
pub mod state;
pub mod instruction;
pub mod processor;
pub mod handlers;
pub mod laws;
