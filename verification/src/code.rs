//! Views over code objects, one per line-table generation.
//!
//! The scalar accessors are the same story three times: name, filename,
//! line-table address, first line, local and argument counts, variable
//! names. What separates the three views is `get_line_number`: each binds
//! the trait's contract to the decoder of its own table generation
//! ([`crate::linetable`]), and the newest one first rebases the incoming
//! offset, which arrives as a byte distance from the code object's start,
//! onto the inline bytecode array.

use vstd::prelude::*;

use crate::caps::CodeObject;
use crate::linetable::{
    classic_fits, classic_line, classic_line_number, classic_ok, compact_fits, compact_line,
    compact_line_number, compact_ok, v10_fits, v10_line, v10_line_number, v10_ok,
};

verus! {

/// Code view for the releases with the classic paired line table.
pub struct ClassicCode {
    /// Address of the name string object.
    pub co_name: u64,
    /// Address of the filename string object.
    pub co_filename: u64,
    /// Address of the bytes object holding the paired line table.
    pub co_lnotab: u64,
    /// Source line on which the body starts.
    pub co_firstlineno: i32,
    /// Number of local variables.
    pub co_nlocals: i32,
    /// Number of positional arguments.
    pub co_argcount: i32,
    /// Address of the variable-names tuple.
    pub co_varnames: u64,
}

impl CodeObject for ClassicCode {
    open spec fn spec_name(&self) -> u64 {
        self.co_name
    }

    open spec fn spec_filename(&self) -> u64 {
        self.co_filename
    }

    open spec fn spec_line_table(&self) -> u64 {
        self.co_lnotab
    }

    open spec fn spec_first_lineno(&self) -> i32 {
        self.co_firstlineno
    }

    open spec fn spec_nlocals(&self) -> i32 {
        self.co_nlocals
    }

    open spec fn spec_argcount(&self) -> i32 {
        self.co_argcount
    }

    open spec fn spec_varnames(&self) -> u64 {
        self.co_varnames
    }

    open spec fn spec_line_number_req(&self, lasti: i32, table: Seq<u8>) -> bool {
        classic_ok(table, lasti as int, 0, 0, self.co_firstlineno as int)
    }

    open spec fn spec_line_number(&self, lasti: i32, table: Seq<u8>) -> int {
        classic_line(self.co_firstlineno as int, lasti as int, table)
    }

    fn name(&self) -> u64 {
        self.co_name
    }

    fn filename(&self) -> u64 {
        self.co_filename
    }

    fn line_table(&self) -> u64 {
        self.co_lnotab
    }

    fn first_lineno(&self) -> i32 {
        self.co_firstlineno
    }

    fn nlocals(&self) -> i32 {
        self.co_nlocals
    }

    fn argcount(&self) -> i32 {
        self.co_argcount
    }

    fn varnames(&self) -> u64 {
        self.co_varnames
    }

    fn line_number_fits(&self, lasti: i32, table: &[u8]) -> bool {
        classic_fits(self.co_firstlineno, lasti, table)
    }

    fn get_line_number(&self, lasti: i32, table: &[u8]) -> i32 {
        classic_line_number(self.co_firstlineno, lasti, table)
    }
}

/// Code view for the one release that kept the paired table but changed the
/// instruction-offset unit and added the no-line sentinel.
pub struct V10Code {
    /// Address of the name string object.
    pub co_name: u64,
    /// Address of the filename string object.
    pub co_filename: u64,
    /// Address of the bytes object holding the paired line table.
    pub co_linetable: u64,
    /// Source line on which the body starts.
    pub co_firstlineno: i32,
    /// Number of local variables.
    pub co_nlocals: i32,
    /// Number of positional arguments.
    pub co_argcount: i32,
    /// Address of the variable-names tuple.
    pub co_varnames: u64,
}

impl CodeObject for V10Code {
    open spec fn spec_name(&self) -> u64 {
        self.co_name
    }

    open spec fn spec_filename(&self) -> u64 {
        self.co_filename
    }

    open spec fn spec_line_table(&self) -> u64 {
        self.co_linetable
    }

    open spec fn spec_first_lineno(&self) -> i32 {
        self.co_firstlineno
    }

    open spec fn spec_nlocals(&self) -> i32 {
        self.co_nlocals
    }

    open spec fn spec_argcount(&self) -> i32 {
        self.co_argcount
    }

    open spec fn spec_varnames(&self) -> u64 {
        self.co_varnames
    }

    open spec fn spec_line_number_req(&self, lasti: i32, table: Seq<u8>) -> bool {
        &&& -0x4000_0000 <= lasti <= 0x3fff_ffff
        &&& v10_ok(table, 2 * lasti as int, 0, 0, self.co_firstlineno as int)
    }

    open spec fn spec_line_number(&self, lasti: i32, table: Seq<u8>) -> int {
        v10_line(self.co_firstlineno as int, lasti as int, table)
    }

    fn name(&self) -> u64 {
        self.co_name
    }

    fn filename(&self) -> u64 {
        self.co_filename
    }

    fn line_table(&self) -> u64 {
        self.co_linetable
    }

    fn first_lineno(&self) -> i32 {
        self.co_firstlineno
    }

    fn nlocals(&self) -> i32 {
        self.co_nlocals
    }

    fn argcount(&self) -> i32 {
        self.co_argcount
    }

    fn varnames(&self) -> u64 {
        self.co_varnames
    }

    fn line_number_fits(&self, lasti: i32, table: &[u8]) -> bool {
        v10_fits(self.co_firstlineno, lasti, table)
    }

    fn get_line_number(&self, lasti: i32, table: &[u8]) -> i32 {
        v10_line_number(self.co_firstlineno, lasti, table)
    }
}

/// Code view for the releases with the compact varint line table.
pub struct CompactCode {
    /// Address of the name string object.
    pub co_name: u64,
    /// Address of the filename string object.
    pub co_filename: u64,
    /// Address of the bytes object holding the compact line table.
    pub co_linetable: u64,
    /// Source line on which the body starts.
    pub co_firstlineno: i32,
    /// Number of local variables.
    pub co_nlocals: i32,
    /// Number of positional arguments.
    pub co_argcount: i32,
    /// Address of the variable-names tuple.
    pub co_localsplusnames: u64,
    /// Byte offset of the inline bytecode array within the code object, in
    /// the layout the caller selected. The frame's instruction offset is a
    /// distance from the code object's start and must be rebased by this
    /// amount before the table is scanned.
    pub code_adaptive_offset: u32,
}

impl CodeObject for CompactCode {
    open spec fn spec_name(&self) -> u64 {
        self.co_name
    }

    open spec fn spec_filename(&self) -> u64 {
        self.co_filename
    }

    open spec fn spec_line_table(&self) -> u64 {
        self.co_linetable
    }

    open spec fn spec_first_lineno(&self) -> i32 {
        self.co_firstlineno
    }

    open spec fn spec_nlocals(&self) -> i32 {
        self.co_nlocals
    }

    open spec fn spec_argcount(&self) -> i32 {
        self.co_argcount
    }

    open spec fn spec_varnames(&self) -> u64 {
        self.co_localsplusnames
    }

    open spec fn spec_line_number_req(&self, lasti: i32, table: Seq<u8>) -> bool {
        &&& self.code_adaptive_offset <= i32::MAX
        &&& i32::MIN <= lasti - self.code_adaptive_offset
        &&& compact_ok(
            table,
            lasti - self.code_adaptive_offset,
            0,
            0,
            self.co_firstlineno as int,
        )
    }

    open spec fn spec_line_number(&self, lasti: i32, table: Seq<u8>) -> int {
        compact_line(self.co_firstlineno as int, lasti - self.code_adaptive_offset, table)
    }

    fn name(&self) -> u64 {
        self.co_name
    }

    fn filename(&self) -> u64 {
        self.co_filename
    }

    fn line_table(&self) -> u64 {
        self.co_linetable
    }

    fn first_lineno(&self) -> i32 {
        self.co_firstlineno
    }

    fn nlocals(&self) -> i32 {
        self.co_nlocals
    }

    fn argcount(&self) -> i32 {
        self.co_argcount
    }

    fn varnames(&self) -> u64 {
        self.co_localsplusnames
    }

    fn line_number_fits(&self, lasti: i32, table: &[u8]) -> bool {
        if self.code_adaptive_offset > i32::MAX as u32 {
            return false;
        }
        let rebased = lasti as i64 - self.code_adaptive_offset as i64;
        if rebased < i32::MIN as i64 {
            return false;
        }
        compact_fits(self.co_firstlineno, rebased as i32, table)
    }

    fn get_line_number(&self, lasti: i32, table: &[u8]) -> i32 {
        let adjusted = lasti - self.code_adaptive_offset as i32;
        compact_line_number(self.co_firstlineno, adjusted, table)
    }
}

} // verus!
