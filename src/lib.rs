//! State model and entry points of a small persistent contract: a wrapping
//! signed 8-bit counter beside an append-only file catalog, with the rules that
//! decide which calls are accepted.

pub mod counter;
pub mod dispatch;
pub mod events;
pub mod laws;
pub mod storage;

pub use counter::Counter;
pub use dispatch::{dispatch, Call, CallError, Reply};
pub use events::LogLine;
pub use storage::{Computer, Disk, Folder, Permission, Storage, StorageState, Transfer};
