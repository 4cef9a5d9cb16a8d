//! Capability-scoped introspection and control of a target process on a
//! Mach-style kernel: acquiring a task capability for a process identifier,
//! reading and writing words of the target's virtual memory (escalating page
//! protection where needed), enumerating and selecting threads, and reading
//! and writing a thread's full general-purpose register snapshot.
//!
//! Every kernel round-trip itself is performed by an unverified front end;
//! this crate holds the logic around those round-trips: the translation of
//! raw kernel status codes into a closed taxonomy, the interpretation of
//! each kernel reply (including the defensive checks on returned counts),
//! the word codec, the protection-escalation decision, and the thread
//! selection rule.

pub mod capability;
pub mod memory;
pub mod model;
pub mod protection;
pub mod registers;
pub mod status;
pub mod threads;
