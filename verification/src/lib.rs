//! Read-only structured views over another process's Python interpreter.
//!
//! A sampling profiler copies raw bytes out of a live interpreter and needs to
//! make sense of them: which thread is running, which frame is current, which
//! code object it executes, and which source line the frame's last instruction
//! maps to. The answers live at different offsets, behind different
//! indirections, and in three incompatible line-table encodings depending on
//! the interpreter release.
//!
//! This crate provides:
//! - ten narrow capability traits ([`caps`]) that expose exactly the fields a
//!   stack walker needs, independent of the interpreter version;
//! - per-version-family view types ([`runtime`], [`code`], [`strings`]) that
//!   implement those traits over plain field values already copied from the
//!   target process;
//! - the three line-table decoders ([`linetable`]) and the variable-width
//!   integer codec they rest on ([`varint`]), each with a full functional
//!   specification.
//!
//! Every address handed out by an accessor belongs to the *target* process's
//! address space: it is an opaque number here, never dereferenced locally.
//! Resolving one is always a new read through whatever byte fetcher the caller
//! uses; this crate performs no I/O of its own.

pub mod caps;
pub mod code;
pub mod layout;
pub mod linetable;
pub mod runtime;
pub mod strings;
pub mod varint;
pub mod versions;
