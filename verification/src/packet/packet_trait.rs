use vstd::prelude::*;

use crate::types::packet::{Tag, Version};

verus! {

/// What every packet body knows of the header that it came with.
pub trait PacketTrait {
    /// The header format that the packet was or will be framed in.
    spec fn header_version(&self) -> Version;

    /// The kind of packet that the header announces.
    spec fn header_tag(&self) -> Tag;

    fn packet_version(&self) -> (v: Version)
        ensures
            v == self.header_version(),
    ;

    fn tag(&self) -> (t: Tag)
        ensures
            t == self.header_tag(),
    ;
}

} // verus!
