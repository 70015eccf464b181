//! A bridge between native classes written in Rust and a host runtime that
//! owns object identity and memory: class registration, the constructor and
//! destructor trampolines the host calls back, and the store that owns each
//! instance's user data apart from the host's object memory.
pub mod object;
pub mod registry;
pub mod trampoline;
pub mod init_handle;
pub mod user_data;
