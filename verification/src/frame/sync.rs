use vstd::prelude::*;

use crate::frame::ConvertibleFrame;
use crate::id::CommunicationObject;

verus! {

/// A synchronization frame: no fields, an empty payload, and the fixed
/// sync communication object.
#[derive(Copy, Clone, Debug, PartialEq, Eq, Structural)]
pub struct SyncFrame;

impl SyncFrame {
    pub fn new() -> (r: Self)
        ensures
            r == SyncFrame,
    {
        Self
    }
}

impl Default for SyncFrame {
    fn default() -> (r: Self)
        ensures
            r == SyncFrame,
    {
        Self::new()
    }
}

impl ConvertibleFrame for SyncFrame {
    open spec fn spec_communication_object(&self) -> CommunicationObject {
        CommunicationObject::Sync
    }

    open spec fn spec_frame_data(&self) -> Seq<u8> {
        Seq::empty()
    }

    fn communication_object(&self) -> (r: CommunicationObject)
        ensures
            r == self.spec_communication_object(),
    {
        CommunicationObject::Sync
    }

    fn frame_data(&self) -> (r: Vec<u8>)
        ensures
            r@ == self.spec_frame_data(),
    {
        let data: Vec<u8> = Vec::new();
        proof {
            assert(data@ =~= self.spec_frame_data());
        }
        data
    }
}

} // verus!
