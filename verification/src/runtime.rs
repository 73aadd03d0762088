//! Views over the interpreter's run-time structures: interpreter state,
//! thread state, frames, object headers and type descriptors.
//!
//! Two families of thread/frame plumbing exist. In the older one every frame
//! is its own heap object and the thread state points straight at the
//! current frame. In the newer one frames live on an interpreter-managed
//! stack: the thread state points at a small per-thread anchor, and the
//! current frame must be fetched through the anchor's `current_frame` slot,
//! whose offset is computed from the anchor's own layout (see
//! [`crate::layout`]). A frame's instruction offset is then no longer a
//! stored field but the byte distance between the frame's previous
//! instruction pointer and the start of its code object.

use vstd::prelude::*;

use crate::caps::{FrameObject, InterpreterState, Object, ThreadState, TypeObject};
use crate::layout::{current_frame_offset, spec_current_frame_offset, TARGET_POINTER_BYTES};

verus! {

/// Frame ownership tag that marks the boundary frame owned by interpreter
/// C code, on the release that records ownership instead of a flag.
pub const FRAME_OWNED_BY_CSTACK: u8 = 3;

/// Interpreter state for the releases that do not expose the state of the
/// interpreter-wide lock.
pub struct PlainInterpreterState {
    /// Address of the first thread state.
    pub tstate_head: u64,
    /// Address of the module table.
    pub modules: u64,
}

impl InterpreterState for PlainInterpreterState {
    open spec fn spec_head(&self) -> u64 {
        self.tstate_head
    }

    open spec fn spec_gil_locked(&self) -> Option<bool> {
        None
    }

    open spec fn spec_modules(&self) -> u64 {
        self.modules
    }

    fn head(&self) -> u64 {
        self.tstate_head
    }

    /// Unknown here, deliberately: absent is not the same as unlocked.
    fn gil_locked(&self) -> Option<bool> {
        None
    }

    fn modules(&self) -> u64 {
        self.modules
    }
}

/// Interpreter state for the release that exposes the interpreter-wide
/// lock's raw counter.
pub struct GilInterpreterState {
    /// Address of the first thread state.
    pub tstate_head: u64,
    /// Address of the module table.
    pub modules: u64,
    /// Raw value of the lock's locked counter; any non-zero value means
    /// held.
    pub gil_locked_value: i32,
}

impl InterpreterState for GilInterpreterState {
    open spec fn spec_head(&self) -> u64 {
        self.tstate_head
    }

    open spec fn spec_gil_locked(&self) -> Option<bool> {
        Some(self.gil_locked_value != 0)
    }

    open spec fn spec_modules(&self) -> u64 {
        self.modules
    }

    fn head(&self) -> u64 {
        self.tstate_head
    }

    fn gil_locked(&self) -> Option<bool> {
        Some(self.gil_locked_value != 0)
    }

    fn modules(&self) -> u64 {
        self.modules
    }
}

/// Thread state for the older family: the current frame is a direct
/// pointer, and no OS thread id is recorded.
pub struct DirectThreadState {
    /// Address of the current frame object.
    pub frame: u64,
    /// Logical thread identifier.
    pub thread_id: u64,
    /// Address of the next thread state.
    pub next: u64,
    /// Address of the owning interpreter state.
    pub interp: u64,
}

impl ThreadState for DirectThreadState {
    open spec fn spec_interp(&self) -> u64 {
        self.interp
    }

    open spec fn spec_frame_address(&self) -> Option<u64> {
        None
    }

    open spec fn spec_frame_address_req(&self) -> bool {
        true
    }

    open spec fn spec_frame_req(&self, resolved: Option<u64>) -> bool {
        true
    }

    open spec fn spec_frame(&self, resolved: Option<u64>) -> u64 {
        self.frame
    }

    open spec fn spec_thread_id(&self) -> u64 {
        self.thread_id
    }

    open spec fn spec_native_thread_id(&self) -> Option<u64> {
        None
    }

    open spec fn spec_next(&self) -> u64 {
        self.next
    }

    fn interp(&self) -> u64 {
        self.interp
    }

    /// No indirection on this family: the frame pointer is read directly.
    fn frame_address(&self) -> Option<u64> {
        None
    }

    fn frame(&self, resolved: Option<u64>) -> u64 {
        self.frame
    }

    fn thread_id(&self) -> u64 {
        self.thread_id
    }

    fn native_thread_id(&self) -> Option<u64> {
        None
    }

    fn next(&self) -> u64 {
        self.next
    }
}

/// Thread state for the newer family: the current frame hides behind a
/// per-thread anchor structure, and the OS thread id is recorded.
pub struct AnchoredThreadState {
    /// Address of the per-thread frame anchor.
    pub cframe: u64,
    /// Bytes of fields the anchor declares before its `current_frame`
    /// pointer; the field's offset is computed from this, not hard-coded.
    pub cframe_leading_bytes: u64,
    /// Logical thread identifier.
    pub thread_id: u64,
    /// OS thread identifier.
    pub native_thread_id: u64,
    /// Address of the next thread state.
    pub next: u64,
    /// Address of the owning interpreter state.
    pub interp: u64,
}

impl ThreadState for AnchoredThreadState {
    open spec fn spec_interp(&self) -> u64 {
        self.interp
    }

    open spec fn spec_frame_address(&self) -> Option<u64> {
        Some((self.cframe + spec_current_frame_offset(self.cframe_leading_bytes)) as u64)
    }

    open spec fn spec_frame_address_req(&self) -> bool {
        &&& self.cframe_leading_bytes + TARGET_POINTER_BYTES <= u64::MAX
        &&& self.cframe + spec_current_frame_offset(self.cframe_leading_bytes) <= u64::MAX
    }

    open spec fn spec_frame_req(&self, resolved: Option<u64>) -> bool {
        resolved is Some
    }

    open spec fn spec_frame(&self, resolved: Option<u64>) -> u64 {
        match resolved {
            Some(address) => address,
            None => 0,
        }
    }

    open spec fn spec_thread_id(&self) -> u64 {
        self.thread_id
    }

    open spec fn spec_native_thread_id(&self) -> Option<u64> {
        Some(self.native_thread_id)
    }

    open spec fn spec_next(&self) -> u64 {
        self.next
    }

    fn interp(&self) -> u64 {
        self.interp
    }

    /// Address of the anchor's `current_frame` slot: one more fetch stands
    /// between the thread state and the frame itself.
    fn frame_address(&self) -> Option<u64> {
        let offset = current_frame_offset(self.cframe_leading_bytes);
        Some(self.cframe + offset)
    }

    /// The caller fetched the pointer stored at `frame_address`; that value
    /// *is* the current frame's address.
    fn frame(&self, resolved: Option<u64>) -> u64 {
        match resolved {
            Some(address) => address,
            None => 0,
        }
    }

    fn thread_id(&self) -> u64 {
        self.thread_id
    }

    fn native_thread_id(&self) -> Option<u64> {
        Some(self.native_thread_id)
    }

    fn next(&self) -> u64 {
        self.next
    }
}

/// Frame view for the older family: a heap object with a stored instruction
/// offset. Every such frame counts as an entry frame.
pub struct HeapFrame {
    /// Address of the code object.
    pub f_code: u64,
    /// Stored offset of the last executed instruction.
    pub f_lasti: i32,
    /// Address of the caller's frame.
    pub f_back: u64,
}

impl FrameObject for HeapFrame {
    open spec fn spec_code(&self) -> u64 {
        self.f_code
    }

    open spec fn spec_lasti_req(&self) -> bool {
        true
    }

    open spec fn spec_lasti(&self) -> int {
        self.f_lasti as int
    }

    open spec fn spec_back(&self) -> u64 {
        self.f_back
    }

    open spec fn spec_is_entry(&self) -> bool {
        true
    }

    fn code(&self) -> u64 {
        self.f_code
    }

    fn lasti(&self) -> i32 {
        self.f_lasti
    }

    fn back(&self) -> u64 {
        self.f_back
    }

    fn is_entry(&self) -> bool {
        true
    }
}

/// Frame view for the stack-allocated family, on the release that stores a
/// plain entry flag.
pub struct StackFrame {
    /// Address of the code object.
    pub f_code: u64,
    /// Address of the previously executed instruction, inside the code
    /// object's inline bytecode.
    pub prev_instr: u64,
    /// Address of the caller's frame.
    pub previous: u64,
    /// Stored entry flag.
    pub is_entry: bool,
}

impl FrameObject for StackFrame {
    open spec fn spec_code(&self) -> u64 {
        self.f_code
    }

    open spec fn spec_lasti_req(&self) -> bool {
        i32::MIN <= self.prev_instr - self.f_code <= i32::MAX
    }

    /// The instruction offset is not stored: it is the byte distance from
    /// the code object's base to the previous instruction pointer. The
    /// caller later subtracts the bytecode array's offset inside the code
    /// object; see [`crate::code::CompactCode`].
    open spec fn spec_lasti(&self) -> int {
        self.prev_instr - self.f_code
    }

    open spec fn spec_back(&self) -> u64 {
        self.previous
    }

    open spec fn spec_is_entry(&self) -> bool {
        self.is_entry
    }

    fn code(&self) -> u64 {
        self.f_code
    }

    fn lasti(&self) -> i32 {
        let distance: i64 = if self.prev_instr >= self.f_code {
            (self.prev_instr - self.f_code) as i64
        } else {
            -((self.f_code - self.prev_instr) as i64)
        };
        distance as i32
    }

    fn back(&self) -> u64 {
        self.previous
    }

    fn is_entry(&self) -> bool {
        self.is_entry
    }
}

/// Frame view for the stack-allocated family, on the release that replaced
/// the entry flag with an ownership tag.
pub struct OwnedStackFrame {
    /// Address of the code object.
    pub f_code: u64,
    /// Address of the previously executed instruction, inside the code
    /// object's inline bytecode.
    pub prev_instr: u64,
    /// Address of the caller's frame.
    pub previous: u64,
    /// Ownership tag; [`FRAME_OWNED_BY_CSTACK`] marks the entry boundary.
    pub owner: u8,
}

impl FrameObject for OwnedStackFrame {
    open spec fn spec_code(&self) -> u64 {
        self.f_code
    }

    open spec fn spec_lasti_req(&self) -> bool {
        i32::MIN <= self.prev_instr - self.f_code <= i32::MAX
    }

    open spec fn spec_lasti(&self) -> int {
        self.prev_instr - self.f_code
    }

    open spec fn spec_back(&self) -> u64 {
        self.previous
    }

    open spec fn spec_is_entry(&self) -> bool {
        self.owner == FRAME_OWNED_BY_CSTACK
    }

    fn code(&self) -> u64 {
        self.f_code
    }

    fn lasti(&self) -> i32 {
        let distance: i64 = if self.prev_instr >= self.f_code {
            (self.prev_instr - self.f_code) as i64
        } else {
            -((self.f_code - self.prev_instr) as i64)
        };
        distance as i32
    }

    fn back(&self) -> u64 {
        self.previous
    }

    fn is_entry(&self) -> bool {
        self.owner == FRAME_OWNED_BY_CSTACK
    }
}

/// A generic object header: enough to find the type descriptor.
pub struct PyObjectHeader {
    /// Address of the object's type descriptor.
    pub ob_type: u64,
}

impl Object for PyObjectHeader {
    open spec fn spec_ob_type(&self) -> u64 {
        self.ob_type
    }

    fn ob_type(&self) -> u64 {
        self.ob_type
    }
}

/// A type descriptor: name, attribute-dictionary offset and feature flags.
pub struct PyTypeDescriptor {
    /// Address of the C string holding the type's name.
    pub tp_name: u64,
    /// Byte offset of an instance's attribute dictionary.
    pub tp_dictoffset: i64,
    /// Feature-flag bitset.
    pub tp_flags: u64,
}

impl TypeObject for PyTypeDescriptor {
    open spec fn spec_name(&self) -> u64 {
        self.tp_name
    }

    open spec fn spec_dictoffset(&self) -> i64 {
        self.tp_dictoffset
    }

    open spec fn spec_flags(&self) -> u64 {
        self.tp_flags
    }

    fn name(&self) -> u64 {
        self.tp_name
    }

    fn dictoffset(&self) -> i64 {
        self.tp_dictoffset
    }

    fn flags(&self) -> u64 {
        self.tp_flags
    }
}

} // verus!
