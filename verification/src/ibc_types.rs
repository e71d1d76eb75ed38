//! The IBC values that the light clients read: heights, timestamps and
//! client types, held as plain integers.

use vstd::prelude::*;

verus! {

/// An IBC height: a revision number and a block height within the revision.
#[derive(Clone, Copy, Debug, PartialEq, Eq, Structural)]
pub struct Height {
    pub revision_number: u64,
    pub revision_height: u64,
}

/// The order of heights: by revision number, then by height in the revision.
pub open spec fn height_lt(a: Height, b: Height) -> bool {
    a.revision_number < b.revision_number || (a.revision_number == b.revision_number
        && a.revision_height < b.revision_height)
}

/// Heights are totally ordered: no height lies below itself, the order is
/// transitive, and of two different heights one lies below the other; a
/// later revision lies above every height of an earlier one.
pub proof fn lemma_height_order(a: Height, b: Height, c: Height)
    ensures
        !height_lt(a, a),
        height_lt(a, b) ==> !height_lt(b, a),
        height_lt(a, b) && height_lt(b, c) ==> height_lt(a, c),
        a != b ==> height_lt(a, b) || height_lt(b, a),
        a.revision_number < b.revision_number ==> height_lt(a, b),
        a.revision_number == b.revision_number ==> (height_lt(a, b) <==> a.revision_height
            < b.revision_height),
{
}

impl Height {
    /// `self >= other` in the order of heights.
    pub fn ge(&self, other: &Height) -> (r: bool)
        ensures
            r == !height_lt(*self, *other),
            self.revision_number > other.revision_number ==> r,
            self.revision_number < other.revision_number ==> !r,
            self.revision_number == other.revision_number ==> (r <==> self.revision_height
                >= other.revision_height),
    {
        self.revision_number > other.revision_number || (self.revision_number
            == other.revision_number && self.revision_height >= other.revision_height)
    }
}

/// An IBC timestamp: nanoseconds since the Unix epoch, 0 meaning that none is
/// set.
#[derive(Clone, Copy, Debug, PartialEq, Eq, Structural)]
pub struct Timestamp {
    pub nanoseconds: u64,
}

/// A protobuf `Any`: a type URL and the encoded message it names.
pub struct Any {
    pub type_url: String,
    pub value: Vec<u8>,
}

impl View for Any {
    type V = (Seq<char>, Seq<u8>);

    open spec fn view(&self) -> (Seq<char>, Seq<u8>) {
        (self.type_url@, self.value@)
    }
}

/// The id of a committed state: 32 bytes.
pub type StateId = [u8; 32];

/// The kinds of IBC light client.
#[derive(Clone, Copy, Debug, PartialEq, Eq, Structural)]
pub enum ClientType {
    Tendermint,
    Mock,
}

} // verus!
