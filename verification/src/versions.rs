//! The supported interpreter releases, and what each one's layout needs.
//!
//! Version detection happens outside this crate: a collaborator inspects the
//! target process once and hands back a discriminant. The functions here map
//! that discriminant to the parameters the view types take — which
//! line-table generation to decode, the string header sizes of the release's
//! 64-bit layout, and whether (and with how many leading bytes) the release
//! parks the current frame behind a per-thread anchor.

use vstd::prelude::*;

verus! {

/// The supported interpreter releases, oldest first.
#[derive(Clone, Copy, Debug, PartialEq, Eq, Structural)]
pub enum Version {
    V2_7,
    V3_3,
    V3_5,
    V3_6,
    V3_7,
    V3_8,
    V3_9,
    V3_10,
    V3_11,
    V3_12,
}

/// The three line-table generations.
#[derive(Clone, Copy, Debug, PartialEq, Eq, Structural)]
pub enum LineTableKind {
    /// Paired deltas; strict stop, the crossing entry's delta not applied.
    Classic,
    /// Paired deltas with doubled offsets and the no-line sentinel.
    DoubledPaired,
    /// Compact varint records; non-strict stop after applying the record.
    CompactVarint,
}

impl Version {
    /// Which line-table generation the release stores in its code objects.
    pub open spec fn spec_line_table_kind(self) -> LineTableKind {
        match self {
            Version::V3_10 => LineTableKind::DoubledPaired,
            Version::V3_11 => LineTableKind::CompactVarint,
            Version::V3_12 => LineTableKind::CompactVarint,
            _ => LineTableKind::Classic,
        }
    }

    pub fn line_table_kind(self) -> (r: LineTableKind)
        ensures
            r == self.spec_line_table_kind(),
    {
        match self {
            Version::V3_10 => LineTableKind::DoubledPaired,
            Version::V3_11 => LineTableKind::CompactVarint,
            Version::V3_12 => LineTableKind::CompactVarint,
            _ => LineTableKind::Classic,
        }
    }

    /// Whether the release stores text in the tagged compact/ASCII
    /// representation rather than a single flat payload.
    pub open spec fn spec_has_tagged_strings(self) -> bool {
        !(self matches Version::V2_7)
    }

    pub fn has_tagged_strings(self) -> (r: bool)
        ensures
            r == self.spec_has_tagged_strings(),
    {
        !matches!(self, Version::V2_7)
    }

    /// Header sizes `(ascii, compact)` of the tagged string representation
    /// in the release's 64-bit layout. The newest release dropped the
    /// wide-character pointer from both headers, shrinking them.
    pub open spec fn spec_unicode_headers(self) -> (u64, u64) {
        match self {
            Version::V3_12 => (40u64, 56u64),
            _ => (48u64, 72u64),
        }
    }

    pub fn unicode_headers(self) -> (r: (u64, u64))
        ensures
            r == self.spec_unicode_headers(),
    {
        match self {
            Version::V3_12 => (40u64, 56u64),
            _ => (48u64, 72u64),
        }
    }

    /// Bytes the per-thread frame anchor declares before its
    /// `current_frame` pointer; `None` for the releases whose thread state
    /// points at the frame directly. The first anchored release opens the
    /// anchor with a one-byte tracing flag; the next removes it.
    pub open spec fn spec_cframe_leading_bytes(self) -> Option<u64> {
        match self {
            Version::V3_11 => Some(1u64),
            Version::V3_12 => Some(0u64),
            _ => None,
        }
    }

    pub fn cframe_leading_bytes(self) -> (r: Option<u64>)
        ensures
            r == self.spec_cframe_leading_bytes(),
    {
        match self {
            Version::V3_11 => Some(1u64),
            Version::V3_12 => Some(0u64),
            _ => None,
        }
    }
}

} // verus!
