//! A typed bytecode virtual machine: the instruction catalog and its binary
//! encoding, the monomorphizer that lowers type-generic operations to concrete
//! instructions, and the register-based engine that executes them.

pub mod catalog;
pub mod codec;
pub mod engine;
pub mod header;
pub mod monomorph;
pub mod registers;
pub mod semantics;
pub mod struct_layout;
pub mod var_helper;
