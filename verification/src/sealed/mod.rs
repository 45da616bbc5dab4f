//! Talking to the sealed provider: its frames, receipts and refusals.

pub mod digest;
pub mod frame;
pub mod launch;
pub mod planned;
pub mod private;
pub mod probe;
pub mod reuse;
pub mod run;
pub mod runtime;
pub mod terminal;
pub mod windows;
pub mod windows_token;
pub mod windows_wire;
