//! Views over the payload-carrying objects: strings, bytes, tuples, lists.
//!
//! Each view holds the header fields already copied out of the target
//! process, plus — where releases disagree — the header sizes of the layout
//! the caller selected. The `address` accessors answer the one question a
//! stack walker has: *where in the target does the payload start?*
//!
//! String payloads moved twice. The oldest releases store the bytes right
//! after a fixed header. The tagged representation that followed must
//! branch: a string that is not compact keeps its characters behind one more
//! pointer, recorded in the object's data slot; a compact ASCII string's
//! characters start right after the ASCII header; a compact non-ASCII
//! string's after the larger compact header.

use vstd::prelude::*;

use crate::caps::{BytesObject, ListObject, StringObject, TupleObject};
use crate::layout::TARGET_POINTER_BYTES;

verus! {

/// Byte offset of the character payload inside the oldest releases' string
/// object: object header, size, cached hash and interning tag come first.
pub const LEGACY_STRING_PAYLOAD_OFFSET: u64 = 36;

/// Byte offset of the payload inside a bytes object: variable-size object
/// header and cached hash come first.
pub const BYTES_PAYLOAD_OFFSET: u64 = 32;

/// Byte offset of the element-pointer array inside a tuple object: the
/// variable-size object header comes first.
pub const TUPLE_ITEM_OFFSET: u64 = 24;

/// String view for the oldest releases: a single byte-per-character payload
/// directly after a fixed header. The same object doubles as the byte
/// payload carrier, so this view also answers as [`BytesObject`].
pub struct LegacyString {
    /// Declared length, in characters.
    pub ob_size: usize,
}

impl StringObject for LegacyString {
    open spec fn spec_ascii(&self) -> bool {
        true
    }

    open spec fn spec_kind(&self) -> u32 {
        1
    }

    open spec fn spec_size(&self) -> usize {
        self.ob_size
    }

    open spec fn spec_address_req(&self, base: u64) -> bool {
        base + LEGACY_STRING_PAYLOAD_OFFSET <= u64::MAX
    }

    open spec fn spec_address(&self, base: u64) -> int {
        base + LEGACY_STRING_PAYLOAD_OFFSET
    }

    fn ascii(&self) -> bool {
        true
    }

    fn kind(&self) -> u32 {
        1
    }

    fn size(&self) -> usize {
        self.ob_size
    }

    fn address(&self, base: u64) -> u64 {
        base + LEGACY_STRING_PAYLOAD_OFFSET
    }
}

impl BytesObject for LegacyString {
    open spec fn spec_size(&self) -> usize {
        self.ob_size
    }

    open spec fn spec_address_req(&self, base: u64) -> bool {
        base + LEGACY_STRING_PAYLOAD_OFFSET <= u64::MAX
    }

    open spec fn spec_address(&self, base: u64) -> int {
        base + LEGACY_STRING_PAYLOAD_OFFSET
    }

    fn size(&self) -> usize {
        self.ob_size
    }

    fn address(&self, base: u64) -> u64 {
        base + LEGACY_STRING_PAYLOAD_OFFSET
    }
}

/// Byte-payload view for every release with a dedicated bytes object.
pub struct PyBytes {
    /// Declared length, in bytes.
    pub ob_size: usize,
}

impl BytesObject for PyBytes {
    open spec fn spec_size(&self) -> usize {
        self.ob_size
    }

    open spec fn spec_address_req(&self, base: u64) -> bool {
        base + BYTES_PAYLOAD_OFFSET <= u64::MAX
    }

    open spec fn spec_address(&self, base: u64) -> int {
        base + BYTES_PAYLOAD_OFFSET
    }

    fn size(&self) -> usize {
        self.ob_size
    }

    fn address(&self, base: u64) -> u64 {
        base + BYTES_PAYLOAD_OFFSET
    }
}

/// String view for the tagged representation: compact/ASCII/kind flags plus
/// the data slot, and the two header sizes of the selected release's layout.
pub struct PyUnicode {
    /// Whether every character is ASCII.
    pub ascii: bool,
    /// Whether the characters live inline, right after the header.
    pub compact: bool,
    /// Bytes per character.
    pub kind: u32,
    /// Declared length, in characters.
    pub length: usize,
    /// The object's data slot: where a non-compact string keeps the address
    /// of its out-of-line characters.
    pub data_any: u64,
    /// Size of the fixed ASCII header in the selected layout.
    pub ascii_header: u64,
    /// Size of the larger compact-unicode header in the selected layout.
    pub compact_header: u64,
}

impl StringObject for PyUnicode {
    open spec fn spec_ascii(&self) -> bool {
        self.ascii
    }

    open spec fn spec_kind(&self) -> u32 {
        self.kind
    }

    open spec fn spec_size(&self) -> usize {
        self.length
    }

    open spec fn spec_address_req(&self, base: u64) -> bool {
        self.compact ==> base + if self.ascii {
            self.ascii_header
        } else {
            self.compact_header
        } <= u64::MAX
    }

    /// A non-compact string's characters sit wherever the data slot says;
    /// a compact string's right after the header its flags select.
    open spec fn spec_address(&self, base: u64) -> int {
        if !self.compact {
            self.data_any as int
        } else if self.ascii {
            base + self.ascii_header
        } else {
            base + self.compact_header
        }
    }

    fn ascii(&self) -> bool {
        self.ascii
    }

    fn kind(&self) -> u32 {
        self.kind
    }

    fn size(&self) -> usize {
        self.length
    }

    fn address(&self, base: u64) -> u64 {
        if !self.compact {
            self.data_any
        } else if self.ascii {
            base + self.ascii_header
        } else {
            base + self.compact_header
        }
    }
}

/// Tuple view: elements are pointer slots inline after the header.
pub struct PyTuple {
    /// Declared length, in elements.
    pub ob_size: usize,
}

impl TupleObject for PyTuple {
    open spec fn spec_size(&self) -> usize {
        self.ob_size
    }

    open spec fn spec_address_req(&self, base: u64, index: usize) -> bool {
        base + TUPLE_ITEM_OFFSET + index * TARGET_POINTER_BYTES <= u64::MAX
    }

    open spec fn spec_address(&self, base: u64, index: usize) -> int {
        base + TUPLE_ITEM_OFFSET + index * TARGET_POINTER_BYTES
    }

    fn address(&self, base: u64, index: usize) -> u64 {
        base + TUPLE_ITEM_OFFSET + (index as u64) * TARGET_POINTER_BYTES
    }

    fn size(&self) -> usize {
        self.ob_size
    }
}

/// List view: elements live in an out-of-line pointer array.
pub struct PyList {
    /// Declared length, in elements.
    pub ob_size: usize,
    /// Address of the pointer array.
    pub ob_item: u64,
}

impl ListObject for PyList {
    open spec fn spec_size(&self) -> usize {
        self.ob_size
    }

    open spec fn spec_item(&self) -> u64 {
        self.ob_item
    }

    fn size(&self) -> usize {
        self.ob_size
    }

    fn item(&self) -> u64 {
        self.ob_item
    }
}

} // verus!
