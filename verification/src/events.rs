//! What a scan reports while it runs, as plain values.

use crate::types::ContextKind;
use vstd::prelude::*;

verus! {

/// One report of a scan, in the order in which the scan makes them.
#[derive(Clone, Debug)]
pub enum ScanEvent {
    /// A matching line, or in a multi-line scan the lines that hold a match.
    Match {
        /// The number of the first line, counted from 1, where lines are
        /// counted.
        line_number: Option<u64>,
        /// The offset of the first byte from the start of the input.
        absolute_byte_offset: u64,
        /// The bytes, line terminators included.
        bytes: Vec<u8>,
    },
    /// A line that did not match and is reported for its place.
    Context {
        /// The number of the line, counted from 1, where lines are counted.
        line_number: Option<u64>,
        /// The offset of the first byte from the start of the input.
        absolute_byte_offset: u64,
        /// The bytes, the line terminator included.
        bytes: Vec<u8>,
        /// Why the line is reported.
        kind: ContextKind,
    },
    /// The end of the scan.
    Finish {
        /// The number of bytes that the scan consumed.
        byte_count: u64,
        /// The offset at which binary data was first found, if any was.
        binary_byte_offset: Option<u64>,
    },
}

/// A [`ScanEvent`] in contracts.
pub enum ScanEventView {
    Match { line_number: Option<u64>, absolute_byte_offset: u64, bytes: Seq<u8> },
    Context { line_number: Option<u64>, absolute_byte_offset: u64, bytes: Seq<u8>, kind: ContextKind },
    Finish { byte_count: u64, binary_byte_offset: Option<u64> },
}

impl View for ScanEvent {
    type V = ScanEventView;

    open spec fn view(&self) -> ScanEventView {
        match *self {
            ScanEvent::Match { line_number, absolute_byte_offset, bytes } => ScanEventView::Match {
                line_number,
                absolute_byte_offset,
                bytes: bytes@,
            },
            ScanEvent::Context {
                line_number,
                absolute_byte_offset,
                bytes,
                kind,
            } => ScanEventView::Context { line_number, absolute_byte_offset, bytes: bytes@, kind },
            ScanEvent::Finish { byte_count, binary_byte_offset } => ScanEventView::Finish {
                byte_count,
                binary_byte_offset,
            },
        }
    }
}

/// The reports of a scan in contracts.
pub open spec fn event_views(events: Seq<ScanEvent>) -> Seq<ScanEventView> {
    events.map_values(|e: ScanEvent| e@)
}

} // verus!
