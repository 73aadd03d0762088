//! The ten capability traits: everything a stack walker needs, nothing more.
//!
//! Each trait exposes one entity of the target interpreter — interpreter
//! state, thread state, frame, code object, the string/bytes/tuple/list
//! payload carriers, generic object headers and type descriptors — through a
//! handful of accessors whose meaning is the same for every supported
//! release. Every accessor is a pure function of the view it is called on;
//! each trait pairs it with a spec-mode twin, and the implementations bind
//! those twins to the concrete per-version field, so a caller generic over a
//! version still gets an exact contract.
//!
//! Any `u64` returned here is an address in the *target* process. Fields a
//! release simply does not have come back as `None`, never as an error: a
//! missing "is the lock held" bit means *unknown*, not "unlocked".

use vstd::prelude::*;

verus! {

/// One interpreter instance: the root of the thread list and module table.
pub trait InterpreterState {
    /// Address of the first thread state in the interpreter's list.
    spec fn spec_head(&self) -> u64;

    /// Whether the interpreter-wide lock is held; `None` on releases that do
    /// not expose it.
    spec fn spec_gil_locked(&self) -> Option<bool>;

    /// Address of the interpreter's module table.
    spec fn spec_modules(&self) -> u64;

    fn head(&self) -> (r: u64)
        ensures
            r == self.spec_head(),
    ;

    fn gil_locked(&self) -> (r: Option<bool>)
        ensures
            r == self.spec_gil_locked(),
    ;

    fn modules(&self) -> (r: u64)
        ensures
            r == self.spec_modules(),
    ;
}

/// One OS-level execution context inside the interpreter.
pub trait ThreadState {
    /// Address of the owning interpreter state.
    spec fn spec_interp(&self) -> u64;

    /// When the release parks the current frame behind a separate anchor
    /// structure, the address of that anchor's `current_frame` slot; `None`
    /// when the thread state points at the frame directly.
    spec fn spec_frame_address(&self) -> Option<u64>;

    /// What `frame_address` may be called with, and what `frame` needs:
    /// releases with the extra indirection need the pre-resolved address
    /// handed back in.
    spec fn spec_frame_address_req(&self) -> bool;

    spec fn spec_frame_req(&self, resolved: Option<u64>) -> bool;

    /// Address of the current frame, given the pre-resolved indirection
    /// where one is needed.
    spec fn spec_frame(&self, resolved: Option<u64>) -> u64;

    /// Logical thread identifier.
    spec fn spec_thread_id(&self) -> u64;

    /// OS thread identifier; `None` on releases that do not record it.
    spec fn spec_native_thread_id(&self) -> Option<u64>;

    /// Address of the next thread state in the list.
    spec fn spec_next(&self) -> u64;

    fn interp(&self) -> (r: u64)
        ensures
            r == self.spec_interp(),
    ;

    fn frame_address(&self) -> (r: Option<u64>)
        requires
            self.spec_frame_address_req(),
        ensures
            r == self.spec_frame_address(),
    ;

    fn frame(&self, resolved: Option<u64>) -> (r: u64)
        requires
            self.spec_frame_req(resolved),
        ensures
            r == self.spec_frame(resolved),
    ;

    fn thread_id(&self) -> (r: u64)
        ensures
            r == self.spec_thread_id(),
    ;

    fn native_thread_id(&self) -> (r: Option<u64>)
        ensures
            r == self.spec_native_thread_id(),
    ;

    fn next(&self) -> (r: u64)
        ensures
            r == self.spec_next(),
    ;
}

/// One active call frame.
pub trait FrameObject {
    /// Address of the code object this frame executes.
    spec fn spec_code(&self) -> u64;

    /// What `lasti` needs of the view; the newest releases derive the offset
    /// from a pointer difference that must fit the result type.
    spec fn spec_lasti_req(&self) -> bool;

    /// Offset of the last executed instruction, in the unit of the release's
    /// line table.
    spec fn spec_lasti(&self) -> int;

    /// Address of the caller's frame.
    spec fn spec_back(&self) -> u64;

    /// Whether this frame sits at the boundary to interpreter-entry C code.
    spec fn spec_is_entry(&self) -> bool;

    fn code(&self) -> (r: u64)
        ensures
            r == self.spec_code(),
    ;

    fn lasti(&self) -> (r: i32)
        requires
            self.spec_lasti_req(),
        ensures
            r as int == self.spec_lasti(),
    ;

    fn back(&self) -> (r: u64)
        ensures
            r == self.spec_back(),
    ;

    fn is_entry(&self) -> (r: bool)
        ensures
            r == self.spec_is_entry(),
    ;
}

/// Static metadata of one compiled function or module body.
pub trait CodeObject {
    /// Address of the name string object.
    spec fn spec_name(&self) -> u64;

    /// Address of the filename string object.
    spec fn spec_filename(&self) -> u64;

    /// Address of the line-table payload object.
    spec fn spec_line_table(&self) -> u64;

    /// Source line on which this body starts.
    spec fn spec_first_lineno(&self) -> i32;

    /// Number of local variables.
    spec fn spec_nlocals(&self) -> i32;

    /// Number of positional arguments.
    spec fn spec_argcount(&self) -> i32;

    /// Address of the variable-names tuple.
    spec fn spec_varnames(&self) -> u64;

    /// What decoding the line table needs: the scan over these bytes from
    /// this offset stays within `i32` bounds.
    spec fn spec_line_number_req(&self, lasti: i32, table: Seq<u8>) -> bool;

    /// The line the release's own table generation resolves `lasti` to.
    spec fn spec_line_number(&self, lasti: i32, table: Seq<u8>) -> int;

    fn name(&self) -> (r: u64)
        ensures
            r == self.spec_name(),
    ;

    fn filename(&self) -> (r: u64)
        ensures
            r == self.spec_filename(),
    ;

    fn line_table(&self) -> (r: u64)
        ensures
            r == self.spec_line_table(),
    ;

    fn first_lineno(&self) -> (r: i32)
        ensures
            r == self.spec_first_lineno(),
    ;

    fn nlocals(&self) -> (r: i32)
        ensures
            r == self.spec_nlocals(),
    ;

    fn argcount(&self) -> (r: i32)
        ensures
            r == self.spec_argcount(),
    ;

    fn varnames(&self) -> (r: u64)
        ensures
            r == self.spec_varnames(),
    ;

    /// Checks at run time whether `get_line_number` accepts these inputs,
    /// so a caller holding an arbitrary fetched table need not prove it.
    fn line_number_fits(&self, lasti: i32, table: &[u8]) -> (b: bool)
        ensures
            b == self.spec_line_number_req(lasti, table@),
    ;

    /// Resolves an instruction offset to a source line through the line
    /// table bytes the caller fetched.
    fn get_line_number(&self, lasti: i32, table: &[u8]) -> (r: i32)
        requires
            self.spec_line_number_req(lasti, table@),
        ensures
            r as int == self.spec_line_number(lasti, table@),
    ;
}

/// A raw byte payload, such as a legacy line table.
pub trait BytesObject {
    /// Number of payload bytes.
    spec fn spec_size(&self) -> usize;

    /// Guard for the address computation: the payload offset must not push
    /// the address past the end of the target address space.
    spec fn spec_address_req(&self, base: u64) -> bool;

    /// Address of the first payload byte of the object at `base`.
    spec fn spec_address(&self, base: u64) -> int;

    fn size(&self) -> (r: usize)
        ensures
            r == self.spec_size(),
    ;

    fn address(&self, base: u64) -> (r: u64)
        requires
            self.spec_address_req(base),
        ensures
            r as int == self.spec_address(base),
    ;
}

/// A text value: a function name or filename.
pub trait StringObject {
    /// Whether every character is ASCII.
    spec fn spec_ascii(&self) -> bool;

    /// Character width tag: bytes per character of the payload.
    spec fn spec_kind(&self) -> u32;

    /// Number of characters.
    spec fn spec_size(&self) -> usize;

    spec fn spec_address_req(&self, base: u64) -> bool;

    /// Address of the first character of the object at `base`.
    spec fn spec_address(&self, base: u64) -> int;

    fn ascii(&self) -> (r: bool)
        ensures
            r == self.spec_ascii(),
    ;

    fn kind(&self) -> (r: u32)
        ensures
            r == self.spec_kind(),
    ;

    fn size(&self) -> (r: usize)
        ensures
            r == self.spec_size(),
    ;

    fn address(&self, base: u64) -> (r: u64)
        requires
            self.spec_address_req(base),
        ensures
            r as int == self.spec_address(base),
    ;
}

/// A fixed-size ordered collection of object pointers.
pub trait TupleObject {
    /// Number of elements.
    spec fn spec_size(&self) -> usize;

    spec fn spec_address_req(&self, base: u64, index: usize) -> bool;

    /// Address of the pointer slot for element `index` of the tuple at
    /// `base`.
    spec fn spec_address(&self, base: u64, index: usize) -> int;

    fn size(&self) -> (r: usize)
        ensures
            r == self.spec_size(),
    ;

    fn address(&self, base: u64, index: usize) -> (r: u64)
        requires
            self.spec_address_req(base, index),
        ensures
            r as int == self.spec_address(base, index),
    ;
}

/// A variable-size ordered collection of object pointers.
pub trait ListObject {
    /// Number of elements.
    spec fn spec_size(&self) -> usize;

    /// Address of the out-of-line pointer array.
    spec fn spec_item(&self) -> u64;

    fn size(&self) -> (r: usize)
        ensures
            r == self.spec_size(),
    ;

    fn item(&self) -> (r: u64)
        ensures
            r == self.spec_item(),
    ;
}

/// A generic object header.
pub trait Object {
    /// Address of the object's type descriptor.
    spec fn spec_ob_type(&self) -> u64;

    fn ob_type(&self) -> (r: u64)
        ensures
            r == self.spec_ob_type(),
    ;
}

/// A type descriptor.
pub trait TypeObject {
    /// Address of the C string holding the type's name.
    spec fn spec_name(&self) -> u64;

    /// Byte offset of an instance's attribute dictionary, or zero or a
    /// negative tag when the type keeps none at a fixed place.
    spec fn spec_dictoffset(&self) -> i64;

    /// The type's feature-flag bitset.
    spec fn spec_flags(&self) -> u64;

    fn name(&self) -> (r: u64)
        ensures
            r == self.spec_name(),
    ;

    fn dictoffset(&self) -> (r: i64)
        ensures
            r == self.spec_dictoffset(),
    ;

    fn flags(&self) -> (r: u64)
        ensures
            r == self.spec_flags(),
    ;
}

} // verus!
