//! Building and sending calls to the token program over its binary wire
//! protocol, and reading extension records out of token account data.

pub mod call;
pub mod codec;
pub mod extensions;
pub mod instructions;
pub mod router;
