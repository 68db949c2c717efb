//! Discovery feed reader: what one take from the feed of active
//! publications hands to the discovery loop.
//!
//! A take is non-blocking and asks for one entry. It may fail, find the feed
//! empty, or deliver an entry. An entry whose data is not valid is not to
//! be read: it is returned to the middleware at once and never acted on.

use vstd::prelude::*;

verus! {

/// The type-information reference carried by a discovered publication, as
/// the lookup on the entry returned it. The reference itself stays with the
/// caller; the loop only needs to know whether there is one to resolve.
#[derive(Clone, Copy, Debug, PartialEq, Eq, Structural)]
pub struct TypeInfo {
    /// Status code of the lookup; zero on success.
    pub status: i32,
    /// Whether the lookup produced a non-null reference.
    pub present: bool,
}

impl TypeInfo {
    /// Type information can be resolved only if the lookup succeeded and
    /// produced a reference.
    pub open spec fn available(self) -> bool {
        self.status == 0 && self.present
    }

    /// Tests whether there is type information to resolve.
    pub fn is_available(&self) -> (yes: bool)
        ensures
            yes == self.available(),
    {
        self.status == 0 && self.present
    }
}

/// One record read from the discovery feed. It is backed by a loan that the
/// reader of the feed must return once the loop is done with the record.
#[derive(Clone, Debug, PartialEq, Eq)]
pub struct DiscoveryEntry {
    /// Validity flag of the sample. The other fields mean nothing when it is
    /// false.
    pub valid_data: bool,
    /// Topic name of the publication: the bytes of the C string, without its
    /// terminator.
    pub topic_name: Vec<u8>,
    /// Type information of the publication.
    pub type_info: TypeInfo,
}

/// Mathematical value of a [`DiscoveryEntry`].
pub struct EntryView {
    pub valid_data: bool,
    pub topic_name: Seq<u8>,
    pub type_info: TypeInfo,
}

impl View for DiscoveryEntry {
    type V = EntryView;

    open spec fn view(&self) -> EntryView {
        EntryView {
            valid_data: self.valid_data,
            topic_name: self.topic_name@,
            type_info: self.type_info,
        }
    }
}

/// What one take from the feed amounts to.
#[derive(Clone, Copy, Debug, PartialEq, Eq, Structural)]
pub enum Taken {
    /// The take failed with this status code. There is no loan.
    Failed(i32),
    /// The feed is drained for now. There is no loan.
    Nothing,
    /// An entry without valid data: to release unread.
    Invalid,
    /// An entry to act on.
    Entry,
}

/// What a take amounts to that returned `count` entries, or a negative
/// status code, the entry having the validity flag `valid_data`.
pub open spec fn taken(count: i32, valid_data: bool) -> Taken {
    if count < 0 {
        Taken::Failed(count)
    } else if count == 0 {
        Taken::Nothing
    } else if !valid_data {
        Taken::Invalid
    } else {
        Taken::Entry
    }
}

/// Classifies the result of one take from the count it returned and the
/// validity flag of the sample. Only after the answer [`Taken::Entry`] may
/// the fields of the sample be read.
pub fn next_entry(count: i32, valid_data: bool) -> (next: Taken)
    ensures
        next == taken(count, valid_data),
{
    if count < 0 {
        Taken::Failed(count)
    } else if count == 0 {
        Taken::Nothing
    } else if !valid_data {
        Taken::Invalid
    } else {
        Taken::Entry
    }
}

} // verus!
