use vstd::prelude::*;

use crate::frame::sdo::Direction;
use crate::frame::sdo::SdoCommand;
use crate::frame::sdo::SdoCommandView;
use crate::frame::sdo::SdoFrameView;
use crate::frame::sdo::SdoTransferType;
use crate::frame::sdo::SdoTransferTypeView;
use crate::frame::CanOpenFrame;
use crate::frame::CanOpenFrameView;
use crate::id::NodeId;

verus! {

/// The correlation key of one SDO transaction: which entry of which
/// node's object dictionary the exchange is about.
#[derive(Copy, Clone, Debug, PartialEq, Eq, Hash, Structural)]
pub struct ObjectDictionaryAddress {
    pub node_id: NodeId,
    pub index: u16,
    pub sub_index: u8,
}

/// What the correlation engine decides about one incoming frame.
#[derive(Debug, PartialEq)]
pub enum DispatchOutcome {
    /// The frame answers the pending request at this address: the entry
    /// has been retired and the embedded payload belongs to its waiter.
    Resolved { address: ObjectDictionaryAddress, data: Vec<u8> },
    /// An expedited upload response for an address nobody is waiting on;
    /// the frame is dropped.
    NoPendingRequest,
    /// An SDO frame that carries no expedited upload payload; nothing can
    /// be resolved with it.
    NotAResponse,
    /// Any other message kind; only worth logging.
    NotSdo,
}

/// The mathematical value of a dispatch outcome.
#[verifier::ext_equal]
pub enum DispatchOutcomeView {
    Resolved { address: ObjectDictionaryAddress, data: Seq<u8> },
    NoPendingRequest,
    NotAResponse,
    NotSdo,
}

impl View for DispatchOutcome {
    type V = DispatchOutcomeView;

    open spec fn view(&self) -> DispatchOutcomeView {
        match self {
            DispatchOutcome::Resolved { address, data } => DispatchOutcomeView::Resolved {
                address: *address,
                data: data@,
            },
            DispatchOutcome::NoPendingRequest => DispatchOutcomeView::NoPendingRequest,
            DispatchOutcome::NotAResponse => DispatchOutcomeView::NotAResponse,
            DispatchOutcome::NotSdo => DispatchOutcomeView::NotSdo,
        }
    }
}

/// Whether a sequence holds the given address anywhere.
spec fn seq_contains(s: Seq<ObjectDictionaryAddress>, address: ObjectDictionaryAddress) -> bool {
    exists|i: int| 0 <= i < s.len() && s[i] == address
}

/// Whether a sequence holds no address twice.
spec fn seq_unique(s: Seq<ObjectDictionaryAddress>) -> bool {
    forall|i: int, j: int| 0 <= i < j < s.len() ==> s[i] != s[j]
}

/// The set of addresses a sequence holds.
spec fn seq_as_set(s: Seq<ObjectDictionaryAddress>) -> Set<ObjectDictionaryAddress> {
    Set::new(|a: ObjectDictionaryAddress| seq_contains(s, a))
}

proof fn lemma_push_as_set(s: Seq<ObjectDictionaryAddress>, a: ObjectDictionaryAddress)
    ensures
        seq_as_set(s.push(a)) == seq_as_set(s).insert(a),
{
    let s2 = s.push(a);
    assert forall|x: ObjectDictionaryAddress| seq_as_set(s2).contains(x) implies seq_as_set(
        s,
    ).insert(a).contains(x) by {
        let i = choose|i: int| 0 <= i < s2.len() && s2[i] == x;
        if i < s.len() {
            assert(s[i] == x);
        }
    }
    assert forall|x: ObjectDictionaryAddress| seq_as_set(s).insert(a).contains(x) implies seq_as_set(
        s2,
    ).contains(x) by {
        if x == a {
            assert(s2[s.len() as int] == x);
        } else {
            let i = choose|i: int| 0 <= i < s.len() && s[i] == x;
            assert(s2[i] == x);
        }
    }
    assert(seq_as_set(s2) =~= seq_as_set(s).insert(a));
}

proof fn lemma_remove_as_set(s: Seq<ObjectDictionaryAddress>, i: int)
    requires
        seq_unique(s),
        0 <= i < s.len(),
    ensures
        seq_as_set(s.remove(i)) == seq_as_set(s).remove(s[i]),
        seq_unique(s.remove(i)),
{
    let s2 = s.remove(i);
    assert forall|x: ObjectDictionaryAddress| seq_as_set(s2).contains(x) implies seq_as_set(
        s,
    ).remove(s[i]).contains(x) by {
        let j = choose|j: int| 0 <= j < s2.len() && s2[j] == x;
        if j < i {
            assert(s[j] == x);
        } else {
            assert(s[j + 1] == x);
        }
    }
    assert forall|x: ObjectDictionaryAddress| seq_as_set(s).remove(s[i]).contains(x)
        implies seq_as_set(s2).contains(x) by {
        let j = choose|j: int| 0 <= j < s.len() && s[j] == x;
        if j < i {
            assert(s2[j] == x);
        } else {
            assert(j != i);
            assert(s2[j - 1] == x);
        }
    }
    assert(seq_as_set(s2) =~= seq_as_set(s).remove(s[i]));
}

/// The table of outstanding SDO requests: the decision core of the frame
/// handler.  Callers register an address before their request goes out;
/// the receiving side hands every incoming frame to [`handle_frame`],
/// which retires at most one matching entry and names the waiter the
/// payload belongs to.  A registration for an address already pending is
/// refused, so an entry can never be orphaned by a later request, and
/// each entry is resolved at most once.
///
/// [`handle_frame`]: SdoCorrelator::handle_frame
pub struct SdoCorrelator {
    entries: Vec<ObjectDictionaryAddress>,
}

impl View for SdoCorrelator {
    type V = Set<ObjectDictionaryAddress>;

    closed spec fn view(&self) -> Set<ObjectDictionaryAddress> {
        seq_as_set(self.entries@)
    }
}

impl SdoCorrelator {
    /// The table's invariant: no address is pending twice.
    pub closed spec fn wf(&self) -> bool {
        seq_unique(self.entries@)
    }

    /// The frame that is the expedited answer to the request at the
    /// given address: an initiate-upload response from the addressed
    /// node carrying data inline.
    pub open spec fn spec_upload_response(
        address: ObjectDictionaryAddress,
        sized: bool,
        data: Seq<u8>,
    ) -> CanOpenFrameView {
        CanOpenFrameView::SdoFrame(
            SdoFrameView {
                direction: Direction::Tx,
                node_id: address.node_id,
                command: SdoCommandView::InitiateUploadResponse {
                    index: address.index,
                    sub_index: address.sub_index,
                    transfer_type: SdoTransferTypeView::Expedited { sized, data },
                },
            },
        )
    }

    /// The engine's step function: what one incoming frame does to the
    /// pending set, and what the caller is told.  Only an expedited
    /// initiate-upload response can resolve a waiter; it retires exactly
    /// the entry at its own address, and only if one is pending.  Every
    /// other frame leaves the table untouched.
    pub open spec fn spec_dispatch(
        pending: Set<ObjectDictionaryAddress>,
        frame: CanOpenFrameView,
    ) -> (Set<ObjectDictionaryAddress>, DispatchOutcomeView) {
        match frame {
            CanOpenFrameView::SdoFrame(f) => match f.command {
                SdoCommandView::InitiateUploadResponse {
                    index,
                    sub_index,
                    transfer_type,
                } => match transfer_type {
                    SdoTransferTypeView::Expedited { sized, data } => {
                        let address = ObjectDictionaryAddress {
                            node_id: f.node_id,
                            index,
                            sub_index,
                        };
                        if pending.contains(address) {
                            (
                                pending.remove(address),
                                DispatchOutcomeView::Resolved { address, data },
                            )
                        } else {
                            (pending, DispatchOutcomeView::NoPendingRequest)
                        }
                    },
                    SdoTransferTypeView::Normal { .. } => (
                        pending,
                        DispatchOutcomeView::NotAResponse,
                    ),
                },
                _ => (pending, DispatchOutcomeView::NotAResponse),
            },
            _ => (pending, DispatchOutcomeView::NotSdo),
        }
    }

    /// An empty table.
    pub fn new() -> (r: Self)
        ensures
            r.wf(),
            r@ == Set::<ObjectDictionaryAddress>::empty(),
    {
        let r = SdoCorrelator { entries: Vec::new() };
        proof {
            assert(r@ =~= Set::<ObjectDictionaryAddress>::empty());
        }
        r
    }

    /// The index of the pending entry at the given address, if one is.
    fn find(&self, address: ObjectDictionaryAddress) -> (r: Option<usize>)
        ensures
            match r {
                Some(i) => i < self.entries@.len() && self.entries@[i as int] == address,
                None => !self@.contains(address),
            },
    {
        let mut i: usize = 0;
        while i < self.entries.len()
            invariant
                i <= self.entries@.len(),
                forall|k: int| 0 <= k < i ==> self.entries@[k] != address,
            decreases self.entries@.len() - i,
        {
            if self.entries[i] == address {
                return Some(i);
            }
            i = i + 1;
        }
        None
    }

    /// Registers a request for one address.  Succeeds exactly when no
    /// request for the same address is already pending; a collision
    /// leaves the table unchanged and is reported, never silently
    /// tolerated.
    pub fn register(&mut self, address: ObjectDictionaryAddress) -> (r: bool)
        requires
            old(self).wf(),
        ensures
            final(self).wf(),
            r == !old(self)@.contains(address),
            r ==> final(self)@ == old(self)@.insert(address),
            !r ==> final(self)@ == old(self)@,
    {
        match self.find(address) {
            Some(_) => false,
            None => {
                proof {
                    lemma_push_as_set(self.entries@, address);
                }
                self.entries.push(address);
                true
            },
        }
    }

    /// Retires the pending entry at the given address, reporting whether
    /// one was there.  Resolution goes through here, and so does cleanup
    /// when a caller gives up on a request it registered.
    pub fn deregister(&mut self, address: ObjectDictionaryAddress) -> (r: bool)
        requires
            old(self).wf(),
        ensures
            final(self).wf(),
            r == old(self)@.contains(address),
            r ==> final(self)@ == old(self)@.remove(address),
            !r ==> final(self)@ == old(self)@,
    {
        match self.find(address) {
            Some(i) => {
                proof {
                    lemma_remove_as_set(self.entries@, i as int);
                }
                self.entries.remove(i);
                true
            },
            None => false,
        }
    }

    /// Registers a read of one object-dictionary entry and hands back
    /// the request frame to put on the bus: the compute side of an SDO
    /// read.  Refused when a read of the same entry of the same node is
    /// already in flight.
    pub fn begin_sdo_read(&mut self, node_id: NodeId, index: u16, sub_index: u8) -> (r: Option<
        CanOpenFrame,
    >)
        requires
            old(self).wf(),
        ensures
            final(self).wf(),
            ({
                let address = ObjectDictionaryAddress { node_id, index, sub_index };
                &&& old(self)@.contains(address) ==> r is None && final(self)@ == old(self)@
                &&& !old(self)@.contains(address) ==> {
                    &&& final(self)@ == old(self)@.insert(address)
                    &&& r matches Some(f) && f@ == CanOpenFrameView::SdoFrame(
                        SdoFrameView {
                            direction: Direction::Rx,
                            node_id,
                            command: SdoCommandView::InitiateUploadRequest { index, sub_index },
                        },
                    )
                }
            }),
    {
        let address = ObjectDictionaryAddress { node_id, index, sub_index };
        if self.register(address) {
            Some(CanOpenFrame::new_sdo_read_frame(node_id, index, sub_index))
        } else {
            None
        }
    }

    /// Decides what one incoming frame means for the pending requests:
    /// exactly the step function [`spec_dispatch`], with the payload of
    /// a resolved entry copied out for its waiter.
    ///
    /// [`spec_dispatch`]: SdoCorrelator::spec_dispatch
    pub fn handle_frame(&mut self, frame: &CanOpenFrame) -> (r: DispatchOutcome)
        requires
            old(self).wf(),
        ensures
            final(self).wf(),
            final(self)@ == Self::spec_dispatch(old(self)@, frame@).0,
            r@ == Self::spec_dispatch(old(self)@, frame@).1,
    {
        match frame {
            CanOpenFrame::SdoFrame(f) => match &f.command {
                SdoCommand::InitiateUploadResponse {
                    index,
                    sub_index,
                    transfer_type,
                } => match transfer_type {
                    SdoTransferType::Expedited { sized: _, data } => {
                        let address = ObjectDictionaryAddress {
                            node_id: f.node_id,
                            index: *index,
                            sub_index: *sub_index,
                        };
                        if self.deregister(address) {
                            DispatchOutcome::Resolved { address, data: copy_bytes(data) }
                        } else {
                            DispatchOutcome::NoPendingRequest
                        }
                    },
                    SdoTransferType::Normal { .. } => DispatchOutcome::NotAResponse,
                },
                _ => DispatchOutcome::NotAResponse,
            },
            _ => DispatchOutcome::NotSdo,
        }
    }
}

/// A byte-for-byte copy.
fn copy_bytes(data: &Vec<u8>) -> (r: Vec<u8>)
    ensures
        r@ == data@,
{
    let mut r: Vec<u8> = Vec::new();
    let mut i: usize = 0;
    while i < data.len()
        invariant
            i <= data@.len(),
            r@ == data@.subrange(0, i as int),
        decreases data@.len() - i,
    {
        r.push(data[i]);
        proof {
            assert(r@ =~= data@.subrange(0, i + 1));
        }
        i = i + 1;
    }
    proof {
        assert(data@.subrange(0, data@.len() as int) =~= data@);
    }
    r
}

/// Correlation is independent per address: with requests pending at two
/// distinct addresses, delivering their responses in reverse order hands
/// each address exactly its own payload, and afterwards neither is
/// pending any more.
pub proof fn lemma_reverse_order_resolution(
    pending: Set<ObjectDictionaryAddress>,
    a1: ObjectDictionaryAddress,
    a2: ObjectDictionaryAddress,
    sized1: bool,
    sized2: bool,
    d1: Seq<u8>,
    d2: Seq<u8>,
)
    requires
        a1 != a2,
        !pending.contains(a1),
        !pending.contains(a2),
    ensures
        ({
            let registered = pending.insert(a1).insert(a2);
            let (after2, r2) = SdoCorrelator::spec_dispatch(
                registered,
                SdoCorrelator::spec_upload_response(a2, sized2, d2),
            );
            let (after1, r1) = SdoCorrelator::spec_dispatch(
                after2,
                SdoCorrelator::spec_upload_response(a1, sized1, d1),
            );
            &&& r2 == (DispatchOutcomeView::Resolved { address: a2, data: d2 })
            &&& r1 == (DispatchOutcomeView::Resolved { address: a1, data: d1 })
            &&& after1 == pending
        }),
{
    let registered = pending.insert(a1).insert(a2);
    assert(registered.remove(a2).contains(a1));
    assert(registered.remove(a2).remove(a1) =~= pending);
}

} // verus!
