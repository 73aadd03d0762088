//! The three line-table decodings.
//!
//! A code object stores a compressed map from bytecode offset to source line.
//! Three incompatible generations of that map exist, and each must be decoded
//! with its own tie-break and sign-handling rules:
//!
//! - the classic paired table: `(bytecode_delta, line_delta)` byte pairs,
//!   scanned until the accumulated bytecode address passes the target
//!   (strictly), the line accumulated *before* crossing;
//! - its successor, which doubles the incoming instruction offset, applies
//!   the crossing entry's line delta, and treats a line-delta byte of `0x80`
//!   as "no source line for this span": the line is left alone while the
//!   bytecode address still advances;
//! - the compact varint records, scanned until the accumulated address
//!   reaches the target (non-strictly), the line accumulated *after* applying
//!   the current record's delta.
//!
//! The stopping comparisons differ on purpose: each matches the historical
//! behaviour of its generation, and they must not be unified.
//!
//! Each decoder is a pure function of the anchor line, the target offset and
//! the table bytes, and is proved to return exactly what its specification
//! scan computes. A table whose compact records are cut off mid-varint makes
//! the scan stop and hand back the line accumulated so far; no input panics.

use vstd::prelude::*;

use crate::varint::{
    lemma_varint_last_bounds, read_signed_varint, read_varint, signed_varint_val, varint_fits,
    varint_last, varint_wf,
};

verus! {

/// Signed meaning of a raw line-delta byte in the paired table formats:
/// bytes at or above 0x80 stand for negative deltas, two's-complement style.
pub open spec fn pair_delta(b: u8) -> int {
    if b >= 0x80 {
        b - 0x100
    } else {
        b as int
    }
}

/// One step of the classic scan: accumulate the bytecode delta, stop
/// strictly after passing `lasti` with the line accumulated so far, else
/// apply the line delta and continue.
pub open spec fn classic_scan(t: Seq<u8>, lasti: int, i: int, addr: int, line: int) -> int
    decreases t.len() - i,
{
    if i < 0 || i + 2 > t.len() {
        line
    } else {
        let addr2 = addr + t[i];
        if addr2 > lasti {
            line
        } else {
            classic_scan(t, lasti, i + 2, addr2, line + pair_delta(t[i + 1]))
        }
    }
}

/// Line for instruction offset `lasti` under the classic paired table.
pub open spec fn classic_line(first_lineno: int, lasti: int, t: Seq<u8>) -> int {
    classic_scan(t, lasti, 0, 0, first_lineno)
}

/// The classic scan stays within `i32` bounds from the given state on.
pub open spec fn classic_ok(t: Seq<u8>, lasti: int, i: int, addr: int, line: int) -> bool
    decreases t.len() - i,
{
    if i < 0 || i + 2 > t.len() {
        true
    } else {
        let addr2 = addr + t[i];
        &&& addr2 <= i32::MAX
        &&& (addr2 > lasti || {
            let line2 = line + pair_delta(t[i + 1]);
            &&& i32::MIN <= line2 <= i32::MAX
            &&& classic_ok(t, lasti, i + 2, addr2, line2)
        })
    }
}

/// Decodes a classic paired line table.
pub fn classic_line_number(first_lineno: i32, lasti: i32, table: &[u8]) -> (r: i32)
    requires
        classic_ok(table@, lasti as int, 0, 0, first_lineno as int),
    ensures
        r as int == classic_line(first_lineno as int, lasti as int, table@),
{
    let ghost t = table@;
    let size = table.len();
    let mut i: usize = 0;
    let mut line_number: i32 = first_lineno;
    let mut bytecode_address: i32 = 0;
    while i < size && i + 1 < size
        invariant
            t == table@,
            size == t.len(),
            i <= size,
            0 <= bytecode_address,
            classic_ok(t, lasti as int, i as int, bytecode_address as int, line_number as int),
            classic_scan(t, lasti as int, i as int, bytecode_address as int, line_number as int)
                == classic_line(first_lineno as int, lasti as int, t),
        decreases size - i,
    {
        let addr2 = bytecode_address + table[i] as i32;
        if addr2 > lasti {
            return line_number;
        }
        let b = table[i + 1];
        let increment: i32 = if b >= 0x80 {
            b as i32 - 0x100
        } else {
            b as i32
        };
        line_number = line_number + increment;
        bytecode_address = addr2;
        i = i + 2;
    }
    line_number
}

/// Table `[]` leaves the anchor line untouched, whatever the offset.
pub proof fn lemma_classic_empty_table(first_lineno: int, lasti: int)
    ensures
        classic_line(first_lineno, lasti, Seq::<u8>::empty()) == first_lineno,
{
}

/// Checks [`classic_line_number`]'s precondition at run time: reports
/// whether the classic scan of these inputs stays within `i32` bounds.
pub fn classic_fits(first_lineno: i32, lasti: i32, table: &[u8]) -> (b: bool)
    ensures
        b == classic_ok(table@, lasti as int, 0, 0, first_lineno as int),
{
    let ghost t = table@;
    let size = table.len();
    let mut i: usize = 0;
    let mut line: i64 = first_lineno as i64;
    let mut addr: i64 = 0;
    while i < size && i + 1 < size
        invariant
            t == table@,
            size == t.len(),
            i <= size,
            0 <= addr <= i32::MAX,
            i32::MIN <= line <= i32::MAX,
            classic_ok(t, lasti as int, i as int, addr as int, line as int) == classic_ok(
                t,
                lasti as int,
                0,
                0,
                first_lineno as int,
            ),
        decreases size - i,
    {
        let addr2 = addr + table[i] as i64;
        if addr2 > i32::MAX as i64 {
            return false;
        }
        if addr2 > lasti as i64 {
            return true;
        }
        let b = table[i + 1];
        let increment: i64 = if b >= 0x80 {
            b as i64 - 0x100
        } else {
            b as i64
        };
        let line2 = line + increment;
        if line2 < i32::MIN as i64 || line2 > i32::MAX as i64 {
            return false;
        }
        line = line2;
        addr = addr2;
        i = i + 2;
    }
    true
}

/// One step of the successor scan: apply the line delta unless the byte is
/// the no-line sentinel, advance the address either way, stop strictly after
/// passing the (already doubled) offset.
pub open spec fn paired_scan_v10(t: Seq<u8>, lasti2: int, i: int, addr: int, line: int) -> int
    decreases t.len() - i,
{
    if i < 0 || i + 2 > t.len() {
        line
    } else {
        let line2 = if t[i + 1] == 0x80 {
            line
        } else {
            line + pair_delta(t[i + 1])
        };
        let addr2 = addr + t[i];
        if addr2 > lasti2 {
            line2
        } else {
            paired_scan_v10(t, lasti2, i + 2, addr2, line2)
        }
    }
}

/// Line for instruction offset `lasti` under the successor paired table,
/// whose unit changed: the offset is doubled before the scan.
pub open spec fn v10_line(first_lineno: int, lasti: int, t: Seq<u8>) -> int {
    paired_scan_v10(t, 2 * lasti, 0, 0, first_lineno)
}

/// The successor scan stays within `i32` bounds from the given state on.
pub open spec fn v10_ok(t: Seq<u8>, lasti2: int, i: int, addr: int, line: int) -> bool
    decreases t.len() - i,
{
    if i < 0 || i + 2 > t.len() {
        true
    } else {
        let line2 = if t[i + 1] == 0x80 {
            line
        } else {
            line + pair_delta(t[i + 1])
        };
        let addr2 = addr + t[i];
        &&& addr2 <= i32::MAX
        &&& i32::MIN <= line2 <= i32::MAX
        &&& (addr2 > lasti2 || v10_ok(t, lasti2, i + 2, addr2, line2))
    }
}

/// Decodes a successor paired line table.
pub fn v10_line_number(first_lineno: i32, lasti: i32, table: &[u8]) -> (r: i32)
    requires
        -0x4000_0000 <= lasti <= 0x3fff_ffff,
        v10_ok(table@, 2 * lasti as int, 0, 0, first_lineno as int),
    ensures
        r as int == v10_line(first_lineno as int, lasti as int, table@),
{
    let ghost t = table@;
    let lasti2 = 2 * lasti;
    let size = table.len();
    let mut i: usize = 0;
    let mut line_number: i32 = first_lineno;
    let mut bytecode_address: i32 = 0;
    while i < size && i + 1 < size
        invariant
            t == table@,
            size == t.len(),
            i <= size,
            0 <= bytecode_address,
            lasti2 == 2 * lasti as int,
            v10_ok(t, lasti2 as int, i as int, bytecode_address as int, line_number as int),
            paired_scan_v10(
                t,
                lasti2 as int,
                i as int,
                bytecode_address as int,
                line_number as int,
            ) == v10_line(first_lineno as int, lasti as int, t),
        decreases size - i,
    {
        let delta = table[i];
        let b = table[i + 1];
        if b != 0x80 {
            let increment: i32 = if b >= 0x80 {
                b as i32 - 0x100
            } else {
                b as i32
            };
            line_number = line_number + increment;
        }
        bytecode_address = bytecode_address + delta as i32;
        i = i + 2;
        if bytecode_address > lasti2 {
            return line_number;
        }
    }
    line_number
}

/// A no-line sentinel leaves the line alone while the bytecode address still
/// advances by the paired delta byte, and the scan otherwise proceeds as for
/// any other entry.
pub proof fn lemma_v10_sentinel_skipped(t: Seq<u8>, lasti2: int, i: int, addr: int, line: int)
    requires
        0 <= i,
        i + 2 <= t.len(),
        t[i + 1] == 0x80,
    ensures
        addr + t[i] > lasti2 ==> paired_scan_v10(t, lasti2, i, addr, line) == line,
        addr + t[i] <= lasti2 ==> paired_scan_v10(t, lasti2, i, addr, line) == paired_scan_v10(
            t,
            lasti2,
            i + 2,
            addr + t[i],
            line,
        ),
{
}

/// Checks [`v10_line_number`]'s precondition at run time: reports whether
/// the offset survives doubling and the scan stays within `i32` bounds.
pub fn v10_fits(first_lineno: i32, lasti: i32, table: &[u8]) -> (b: bool)
    ensures
        b == (-0x4000_0000 <= lasti <= 0x3fff_ffff && v10_ok(
            table@,
            2 * lasti as int,
            0,
            0,
            first_lineno as int,
        )),
{
    if lasti < -0x4000_0000 || lasti > 0x3fff_ffff {
        return false;
    }
    let ghost t = table@;
    let lasti2: i64 = 2 * lasti as i64;
    let size = table.len();
    let mut i: usize = 0;
    let mut line: i64 = first_lineno as i64;
    let mut addr: i64 = 0;
    while i < size && i + 1 < size
        invariant
            t == table@,
            size == t.len(),
            i <= size,
            -0x4000_0000 <= lasti <= 0x3fff_ffff,
            lasti2 == 2 * lasti as int,
            0 <= addr <= i32::MAX,
            i32::MIN <= line <= i32::MAX,
            v10_ok(t, lasti2 as int, i as int, addr as int, line as int) == v10_ok(
                t,
                lasti2 as int,
                0,
                0,
                first_lineno as int,
            ),
        decreases size - i,
    {
        let delta = table[i];
        let b = table[i + 1];
        let line2: i64 = if b == 0x80 {
            line
        } else if b >= 0x80 {
            line + (b as i64 - 0x100)
        } else {
            line + b as i64
        };
        let addr2 = addr + delta as i64;
        if addr2 > i32::MAX as i64 {
            return false;
        }
        if line2 < i32::MIN as i64 || line2 > i32::MAX as i64 {
            return false;
        }
        if addr2 > lasti2 {
            return true;
        }
        line = line2;
        addr = addr2;
        i = i + 2;
    }
    true
}

/// Bytes a compact record occupies past its header byte, and the line delta
/// it carries: `None` when a varint the record needs is cut off by the end of
/// the table or is over-long.
pub open spec fn compact_record(t: Seq<u8>, i: int) -> Option<(int, int)> {
    let code = (t[i] >> 3) & 15;
    if code == 15 {
        Some((0int, i + 1))
    } else if code == 14 {
        if varint_wf(t, i + 1) {
            let j1 = varint_last(t, i + 1) + 1;
            if varint_wf(t, j1) {
                let j2 = varint_last(t, j1) + 1;
                if varint_wf(t, j2) {
                    let j3 = varint_last(t, j2) + 1;
                    if varint_wf(t, j3) {
                        Some((signed_varint_val(t, i + 1), varint_last(t, j3) + 1))
                    } else {
                        None
                    }
                } else {
                    None
                }
            } else {
                None
            }
        } else {
            None
        }
    } else if code == 13 {
        if varint_wf(t, i + 1) {
            Some((signed_varint_val(t, i + 1), varint_last(t, i + 1) + 1))
        } else {
            None
        }
    } else if code >= 10 {
        Some(((code - 10) as int, i + 3))
    } else {
        Some((0int, i + 2))
    }
}

/// One step of the compact scan: advance the address by the record's
/// instruction span, apply its line delta, stop non-strictly at the
/// (already adjusted) offset with the line accumulated *after* the delta.
pub open spec fn compact_scan(t: Seq<u8>, lasti: int, i: int, addr: int, line: int) -> int
    decreases t.len() - i,
{
    if i < 0 || i >= t.len() {
        line
    } else {
        match compact_record(t, i) {
            None => line,
            Some((d, next)) => {
                let addr2 = addr + 2 * (((t[i] & 7) as int) + 1);
                let line2 = line + d;
                if addr2 >= lasti {
                    line2
                } else if next >= t.len() {
                    line2
                } else {
                    compact_scan(t, lasti, next, addr2, line2)
                }
            },
        }
    }
}

/// Line for the already adjusted instruction offset `lasti` under the
/// compact varint table.
pub open spec fn compact_line(first_lineno: int, lasti: int, t: Seq<u8>) -> int {
    compact_scan(t, lasti, 0, 0, first_lineno)
}

/// The compact scan stays within `i32` bounds from the given state on.
pub open spec fn compact_ok(t: Seq<u8>, lasti: int, i: int, addr: int, line: int) -> bool
    decreases t.len() - i,
{
    if i < 0 || i >= t.len() {
        true
    } else {
        let addr2 = addr + 2 * (((t[i] & 7) as int) + 1);
        &&& addr2 <= i32::MAX
        &&& match compact_record(t, i) {
            None => true,
            Some((d, next)) => {
                let line2 = line + d;
                &&& i32::MIN <= line2 <= i32::MAX
                &&& (addr2 >= lasti || next >= t.len() || compact_ok(t, lasti, next, addr2, line2))
            },
        }
    }
}

/// Decodes a compact varint line table. `lasti` must already be adjusted to
/// an offset into the bytecode: the caller subtracts the byte offset of the
/// bytecode array within the code object.
pub fn compact_line_number(first_lineno: i32, lasti: i32, table: &[u8]) -> (r: i32)
    requires
        compact_ok(table@, lasti as int, 0, 0, first_lineno as int),
    ensures
        r as int == compact_line(first_lineno as int, lasti as int, table@),
{
    let ghost t = table@;
    let mut line_number: i32 = first_lineno;
    let mut bytecode_address: i32 = 0;
    let mut index: usize = 0;
    while index < table.len()
        invariant
            t == table@,
            index <= t.len(),
            0 <= bytecode_address,
            compact_ok(t, lasti as int, index as int, bytecode_address as int, line_number as int),
            compact_scan(
                t,
                lasti as int,
                index as int,
                bytecode_address as int,
                line_number as int,
            ) == compact_line(first_lineno as int, lasti as int, t),
        decreases t.len() - index,
    {
        let ghost i0 = index as int;
        let ghost addr0 = bytecode_address as int;
        let ghost line0 = line_number as int;
        let byte = table[index];
        index = index + 1;
        let addr2 = bytecode_address + (((byte & 7) as i32) + 1) * 2;
        let code = (byte >> 3) & 15;
        let line_delta: i64;
        if code == 15 {
            line_delta = 0;
        } else if code == 14 {
            if !varint_fits(table, index) {
                return line_number;
            }
            proof { lemma_varint_last_bounds(t, index as int); }
            let d = read_signed_varint(&mut index, table);
            if !varint_fits(table, index) {
                return line_number;
            }
            proof { lemma_varint_last_bounds(t, index as int); }
            let _end_line = read_varint(&mut index, table);
            if !varint_fits(table, index) {
                return line_number;
            }
            proof { lemma_varint_last_bounds(t, index as int); }
            let _start_column = read_varint(&mut index, table);
            if !varint_fits(table, index) {
                return line_number;
            }
            proof { lemma_varint_last_bounds(t, index as int); }
            let _end_column = read_varint(&mut index, table);
            line_delta = d;
        } else if code == 13 {
            if !varint_fits(table, index) {
                return line_number;
            }
            proof { lemma_varint_last_bounds(t, index as int); }
            line_delta = read_signed_varint(&mut index, table);
        } else if code >= 10 {
            if table.len() - index >= 2 {
                index = index + 2;
            } else {
                index = table.len();
            }
            line_delta = (code - 10) as i64;
        } else {
            if table.len() - index >= 1 {
                index = index + 1;
            } else {
                index = table.len();
            }
            line_delta = 0;
        }
        assert(compact_record(t, i0) matches Some((d, next)) ==> line_delta == d && (index == next
            || (next > t.len() && index == t.len())));
        let wide: i64 = line_number as i64 + line_delta;
        line_number = wide as i32;
        bytecode_address = addr2;
        if bytecode_address >= lasti {
            return line_number;
        }
    }
    line_number
}

/// Checks [`compact_line_number`]'s precondition at run time: reports
/// whether the compact scan of these inputs stays within `i32` bounds.
/// `lasti` is the already adjusted offset, as for the decoder itself.
pub fn compact_fits(first_lineno: i32, lasti: i32, table: &[u8]) -> (b: bool)
    ensures
        b == compact_ok(table@, lasti as int, 0, 0, first_lineno as int),
{
    let ghost t = table@;
    let mut line: i64 = first_lineno as i64;
    let mut addr: i64 = 0;
    let mut index: usize = 0;
    while index < table.len()
        invariant
            t == table@,
            index <= t.len(),
            0 <= addr <= i32::MAX,
            i32::MIN <= line <= i32::MAX,
            compact_ok(t, lasti as int, index as int, addr as int, line as int) == compact_ok(
                t,
                lasti as int,
                0,
                0,
                first_lineno as int,
            ),
        decreases t.len() - index,
    {
        let ghost i0 = index as int;
        let byte = table[index];
        index = index + 1;
        let addr2 = addr + ((((byte & 7) as i64) + 1) * 2);
        let code = (byte >> 3) & 15;
        if addr2 > i32::MAX as i64 {
            return false;
        }
        let line_delta: i64;
        if code == 15 {
            line_delta = 0;
        } else if code == 14 {
            if !varint_fits(table, index) {
                return true;
            }
            proof { lemma_varint_last_bounds(t, index as int); }
            let d = read_signed_varint(&mut index, table);
            if !varint_fits(table, index) {
                return true;
            }
            proof { lemma_varint_last_bounds(t, index as int); }
            let _end_line = read_varint(&mut index, table);
            if !varint_fits(table, index) {
                return true;
            }
            proof { lemma_varint_last_bounds(t, index as int); }
            let _start_column = read_varint(&mut index, table);
            if !varint_fits(table, index) {
                return true;
            }
            proof { lemma_varint_last_bounds(t, index as int); }
            let _end_column = read_varint(&mut index, table);
            line_delta = d;
        } else if code == 13 {
            if !varint_fits(table, index) {
                return true;
            }
            proof { lemma_varint_last_bounds(t, index as int); }
            line_delta = read_signed_varint(&mut index, table);
        } else if code >= 10 {
            if table.len() - index >= 2 {
                index = index + 2;
            } else {
                index = table.len();
            }
            line_delta = (code - 10) as i64;
        } else {
            if table.len() - index >= 1 {
                index = index + 1;
            } else {
                index = table.len();
            }
            line_delta = 0;
        }
        assert(compact_record(t, i0) matches Some((d, next)) ==> line_delta == d && (index == next
            || (next > t.len() && index == t.len())));
        let line2 = line + line_delta;
        if line2 < i32::MIN as i64 || line2 > i32::MAX as i64 {
            return false;
        }
        if addr2 >= lasti as i64 {
            return true;
        }
        line = line2;
        addr = addr2;
    }
    true
}

} // verus!
