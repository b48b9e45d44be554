//! Classification of native input events.
//!
//! Of a native event record the logic reads exactly one thing: its
//! integer type tag.  `EventRecord` carries that tag as a plain value;
//! classification turns it into a typed enumeration without transforming
//! the payload.

use vstd::prelude::*;

verus! {

/// The native type tag of a user-requested quit event.
pub const EVENT_TYPE_QUIT: u32 = 0x100;

/// What the logic reads of a native event: its integer type tag.
#[derive(Clone, Copy, Debug, PartialEq, Eq, Structural)]
pub struct EventRecord {
    pub event_type: u32,
}

/// An event's type tag as a typed enumeration value: the quit request, or
/// any other tag carried through unchanged.
#[derive(Clone, Copy, Debug, PartialEq, Eq, Structural)]
pub enum EventKind {
    Quit,
    Other(u32),
}

/// The classification of a type tag: quit exactly for the quit tag, and
/// the tag itself otherwise.
pub open spec fn spec_classify(tag: u32) -> EventKind {
    if tag == EVENT_TYPE_QUIT {
        EventKind::Quit
    } else {
        EventKind::Other(tag)
    }
}

/// Law: the quit tag classifies as quit, and every other tag as a
/// non-quit classification.
pub proof fn lemma_classify_quit(tag: u32)
    ensures
        tag == EVENT_TYPE_QUIT ==> spec_classify(tag) is Quit,
        tag != EVENT_TYPE_QUIT ==> !(spec_classify(tag) is Quit),
{
}

} // verus!
