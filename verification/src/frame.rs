//! Mock CAN frames.
//!
//! A frame carries an identifier and either a payload of bytes (a data frame)
//! or only a requested length (a remote frame).

use crate::id::Id;
use vstd::prelude::*;
use vstd::slice::slice_to_vec;

verus! {

/// What a frame carries besides its identifier.
#[derive(Debug, Clone, PartialEq, Eq)]
pub enum MockFrameType {
    /// A data frame with a payload.
    Standard(Vec<u8>),
    /// A remote frame (RTR) that requests `dlc` bytes.
    Remote(usize),
}

/// In-memory CAN frame.
///
/// Two frames are equal when their identifiers, their kinds and their
/// payloads (or requested lengths) are equal.
#[derive(Debug)]
pub struct MockFrame {
    frame_type: MockFrameType,
    id: Id,
}

/// What a frame carries besides its identifier, as a mathematical value.
pub enum Payload {
    /// The bytes of a data frame.
    Data(Seq<u8>),
    /// The length that a remote frame requests.
    Remote(nat),
}

/// A frame as a mathematical value.
pub struct FrameView {
    /// The frame's identifier.
    pub id: Id,
    /// The frame's payload or requested length.
    pub payload: Payload,
}

impl View for MockFrameType {
    type V = Payload;

    open spec fn view(&self) -> Payload {
        match self {
            MockFrameType::Standard(bytes) => Payload::Data(bytes@),
            MockFrameType::Remote(dlc) => Payload::Remote(*dlc as nat),
        }
    }
}

impl View for MockFrame {
    type V = FrameView;

    closed spec fn view(&self) -> FrameView {
        FrameView { id: self.id, payload: self.frame_type@ }
    }
}

impl Clone for MockFrame {
    /// A copy with the same identifier and the same payload.
    fn clone(&self) -> (copy: MockFrame)
        ensures
            copy@ == self@,
    {
        let frame_type = match &self.frame_type {
            MockFrameType::Standard(bytes) => {
                MockFrameType::Standard(slice_to_vec(bytes.as_slice()))
            },
            MockFrameType::Remote(dlc) => MockFrameType::Remote(*dlc),
        };
        MockFrame { frame_type, id: self.id }
    }
}

/// Whether two byte strings are the same.
fn same_bytes(a: &Vec<u8>, b: &Vec<u8>) -> (same: bool)
    ensures
        same == (a@ == b@),
{
    if a.len() != b.len() {
        return false;
    }
    let mut i: usize = 0;
    while i < a.len()
        invariant
            i <= a.len(),
            a.len() == b.len(),
            forall|j: int| 0 <= j < i ==> a@[j] == b@[j],
        decreases a.len() - i,
    {
        if a[i] != b[i] {
            return false;
        }
        i += 1;
    }
    assert(a@ =~= b@);
    true
}

impl PartialEq for MockFrame {
    /// Whether the two frames have the same identifier, are of the same kind
    /// and carry the same payload or requested length.
    fn eq(&self, other: &MockFrame) -> (equal: bool) {
        let same_payload = match (&self.frame_type, &other.frame_type) {
            (MockFrameType::Standard(a), MockFrameType::Standard(b)) => same_bytes(a, b),
            (MockFrameType::Remote(a), MockFrameType::Remote(b)) => *a == *b,
            _ => false,
        };
        self.id == other.id && same_payload
    }
}

impl Eq for MockFrame {

}

impl vstd::std_specs::cmp::PartialEqSpecImpl for MockFrame {
    open spec fn obeys_eq_spec() -> bool {
        true
    }

    open spec fn eq_spec(&self, other: &MockFrame) -> bool {
        self@ == other@
    }
}

impl MockFrame {
    /// Creates a data frame that carries a copy of `data`.
    pub fn new(id: Id, data: &[u8]) -> (frame: Option<MockFrame>)
        ensures
            frame matches Some(f) && f@ == (FrameView { id, payload: Payload::Data(data@) }),
    {
        Some(MockFrame { frame_type: MockFrameType::Standard(slice_to_vec(data)), id })
    }

    /// Creates a remote frame that requests `dlc` bytes.
    pub fn new_remote(id: Id, dlc: usize) -> (frame: Option<MockFrame>)
        ensures
            frame matches Some(f) && f@ == (FrameView { id, payload: Payload::Remote(dlc as nat) }),
    {
        Some(MockFrame { frame_type: MockFrameType::Remote(dlc), id })
    }

    /// Whether the frame's identifier is an extended one.
    pub fn is_extended(&self) -> (extended: bool)
        ensures
            extended == self@.id.extended(),
    {
        match self.id {
            Id::Standard(_) => false,
            Id::Extended(_) => true,
        }
    }

    /// Whether the frame is a remote frame.
    pub fn is_remote_frame(&self) -> (remote: bool)
        ensures
            remote == (self@.payload is Remote),
    {
        match self.frame_type {
            MockFrameType::Standard(_) => false,
            MockFrameType::Remote(_) => true,
        }
    }

    /// The frame's identifier.
    pub fn id(&self) -> (id: Id)
        ensures
            id == self@.id,
    {
        self.id
    }

    /// The data length code: the payload's length for a data frame, the
    /// requested length for a remote frame.
    pub fn dlc(&self) -> (dlc: usize)
        ensures
            dlc as nat == self@.length(),
    {
        match &self.frame_type {
            MockFrameType::Standard(items) => items.len(),
            MockFrameType::Remote(dlc) => *dlc,
        }
    }

    /// The payload of a data frame; a remote frame has none.
    pub fn data(&self) -> (data: &[u8])
        ensures
            data@ == self@.bytes(),
    {
        match &self.frame_type {
            MockFrameType::Standard(items) => items.as_slice(),
            MockFrameType::Remote(_) => &[],
        }
    }
}

impl FrameView {
    /// The data length code of the frame.
    pub open spec fn length(self) -> nat {
        match self.payload {
            Payload::Data(bytes) => bytes.len(),
            Payload::Remote(dlc) => dlc,
        }
    }

    /// The bytes that the frame carries.
    pub open spec fn bytes(self) -> Seq<u8> {
        match self.payload {
            Payload::Data(bytes) => bytes,
            Payload::Remote(_) => Seq::empty(),
        }
    }
}

} // verus!
