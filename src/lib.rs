//! A verified library: the connection handler of a minimal HTTP-like server,
//! and small building blocks (text helpers, a stack, binary tree traversals,
//! rectangles, post summaries) with their contracts.
pub mod advanced;
pub mod closure;
pub mod data_struct;
pub mod data_type;
pub mod error;
pub mod genericity;
pub mod hello_macro;
pub mod option_result;
pub mod pin;
pub mod server;
pub mod smart_pointer;
pub mod struct_trait;
pub mod traversal;
pub mod types;
pub mod utils;
