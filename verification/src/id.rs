use vstd::arithmetic::div_mod::lemma_fundamental_div_mod;
use vstd::arithmetic::div_mod::lemma_fundamental_div_mod_converse;
use vstd::prelude::*;

use crate::error::Error;

verus! {

/// A 7-bit CANopen node address, held as the raw byte that appears on the
/// bus.  An address is well formed when the reserved high bit is clear;
/// [`NodeId::new`] is the checked constructor, and every decoder only ever
/// produces well-formed addresses.
#[derive(Copy, Clone, Debug, PartialEq, Eq, Hash, Structural)]
pub struct NodeId(pub u8);

impl NodeId {
    /// The reserved high bit (0x80) must be clear.
    pub open spec fn valid(self) -> bool {
        self.0 < 0x80
    }

    /// Checked constructor: accepts exactly the bytes with the high bit
    /// clear (0 through 127) and reports every other byte.
    pub fn new(raw_id: u8) -> (r: Result<Self, Error>)
        ensures
            raw_id < 0x80 ==> r == Ok::<NodeId, Error>(NodeId(raw_id)),
            raw_id >= 0x80 ==> r == Err::<NodeId, Error>(Error::InvalidNodeId(raw_id)),
    {
        if raw_id < 0x80 {
            Ok(NodeId(raw_id))
        } else {
            Err(Error::InvalidNodeId(raw_id))
        }
    }

    /// The stored byte, unchanged.
    pub fn as_raw(&self) -> (r: u8)
        ensures
            r == self.0,
    {
        self.0
    }
}

impl TryFrom<u8> for NodeId {
    type Error = Error;

    fn try_from(raw_id: u8) -> Result<Self, Error> {
        NodeId::new(raw_id)
    }
}

impl vstd::std_specs::convert::TryFromSpecImpl<u8> for NodeId {
    open spec fn obeys_try_from_spec() -> bool {
        true
    }

    open spec fn try_from_spec(raw_id: u8) -> Result<Self, Error> {
        if raw_id < 0x80 {
            Ok(NodeId(raw_id))
        } else {
            Err(Error::InvalidNodeId(raw_id))
        }
    }
}

/// An identifier as it appears on the bus: either a standard 11-bit
/// identifier or an extended 29-bit identifier.  Only standard identifiers
/// carry CANopen traffic; extended ones are rejected during classification.
#[derive(Copy, Clone, Debug, PartialEq, Eq, Structural)]
pub enum CanId {
    Standard(u16),
    Extended(u32),
}

/// The closed set of CANopen message categories, each mapped one-to-one to
/// an 11-bit identifier: a fixed base per category, plus the node address
/// for the per-node categories.
#[derive(Copy, Clone, Debug, PartialEq, Eq, Structural)]
pub enum CommunicationObject {
    NmtNodeControl,
    GlobalFailsafeCommand,
    Sync,
    Emergency(NodeId),
    TimeStamp,
    TxPdo1(NodeId),
    RxPdo1(NodeId),
    TxPdo2(NodeId),
    RxPdo2(NodeId),
    TxPdo3(NodeId),
    RxPdo3(NodeId),
    TxPdo4(NodeId),
    RxPdo4(NodeId),
    TxSdo(NodeId),
    RxSdo(NodeId),
    NmtNodeMonitoring(NodeId),
    TxLss,
    RxLss,
}

impl CommunicationObject {
    /// Whether the node address carried by the category (if any) is well
    /// formed.
    pub open spec fn node_valid(self) -> bool {
        match self {
            CommunicationObject::Emergency(n) => n.valid(),
            CommunicationObject::TxPdo1(n) => n.valid(),
            CommunicationObject::RxPdo1(n) => n.valid(),
            CommunicationObject::TxPdo2(n) => n.valid(),
            CommunicationObject::RxPdo2(n) => n.valid(),
            CommunicationObject::TxPdo3(n) => n.valid(),
            CommunicationObject::RxPdo3(n) => n.valid(),
            CommunicationObject::TxPdo4(n) => n.valid(),
            CommunicationObject::RxPdo4(n) => n.valid(),
            CommunicationObject::TxSdo(n) => n.valid(),
            CommunicationObject::RxSdo(n) => n.valid(),
            CommunicationObject::NmtNodeMonitoring(n) => n.valid(),
            _ => true,
        }
    }

    /// The identifier each category encodes to: its fixed base, plus the
    /// node address where the category is per-node.
    pub open spec fn spec_cob_id(self) -> u16 {
        match self {
            CommunicationObject::NmtNodeControl => 0x000,
            CommunicationObject::GlobalFailsafeCommand => 0x001,
            CommunicationObject::Sync => 0x080,
            CommunicationObject::Emergency(n) => (0x080 + n.0) as u16,
            CommunicationObject::TimeStamp => 0x100,
            CommunicationObject::TxPdo1(n) => (0x180 + n.0) as u16,
            CommunicationObject::RxPdo1(n) => (0x200 + n.0) as u16,
            CommunicationObject::TxPdo2(n) => (0x280 + n.0) as u16,
            CommunicationObject::RxPdo2(n) => (0x300 + n.0) as u16,
            CommunicationObject::TxPdo3(n) => (0x380 + n.0) as u16,
            CommunicationObject::RxPdo3(n) => (0x400 + n.0) as u16,
            CommunicationObject::TxPdo4(n) => (0x480 + n.0) as u16,
            CommunicationObject::RxPdo4(n) => (0x500 + n.0) as u16,
            CommunicationObject::TxSdo(n) => (0x580 + n.0) as u16,
            CommunicationObject::RxSdo(n) => (0x600 + n.0) as u16,
            CommunicationObject::NmtNodeMonitoring(n) => (0x700 + n.0) as u16,
            CommunicationObject::TxLss => 0x7E4,
            CommunicationObject::RxLss => 0x7E5,
        }
    }

    /// Classification of an identifier: each per-node category occupies a
    /// contiguous 0x80-wide band; the rest are single fixed points.  Any
    /// identifier above 11 bits, or inside no band, or at an unassigned slot
    /// of a sparsely assigned band, is invalid.
    pub open spec fn spec_classify(id: u16) -> Result<CommunicationObject, Error> {
        let band = id / 0x80;
        let node = NodeId((id % 0x80) as u8);
        if id >= 0x800 {
            Err(Error::InvalidCobId(id))
        } else if band == 0 {
            if id == 0x000 {
                Ok(CommunicationObject::NmtNodeControl)
            } else if id == 0x001 {
                Ok(CommunicationObject::GlobalFailsafeCommand)
            } else {
                Err(Error::InvalidCobId(id))
            }
        } else if band == 1 {
            if node.0 == 0 {
                Ok(CommunicationObject::Sync)
            } else {
                Ok(CommunicationObject::Emergency(node))
            }
        } else if band == 2 {
            if id == 0x100 {
                Ok(CommunicationObject::TimeStamp)
            } else {
                Err(Error::InvalidCobId(id))
            }
        } else if band == 3 {
            Ok(CommunicationObject::TxPdo1(node))
        } else if band == 4 {
            Ok(CommunicationObject::RxPdo1(node))
        } else if band == 5 {
            Ok(CommunicationObject::TxPdo2(node))
        } else if band == 6 {
            Ok(CommunicationObject::RxPdo2(node))
        } else if band == 7 {
            Ok(CommunicationObject::TxPdo3(node))
        } else if band == 8 {
            Ok(CommunicationObject::RxPdo3(node))
        } else if band == 9 {
            Ok(CommunicationObject::TxPdo4(node))
        } else if band == 10 {
            Ok(CommunicationObject::RxPdo4(node))
        } else if band == 11 {
            Ok(CommunicationObject::TxSdo(node))
        } else if band == 12 {
            Ok(CommunicationObject::RxSdo(node))
        } else if band == 14 {
            Ok(CommunicationObject::NmtNodeMonitoring(node))
        } else if band == 15 {
            if id == 0x7E4 {
                Ok(CommunicationObject::TxLss)
            } else if id == 0x7E5 {
                Ok(CommunicationObject::RxLss)
            } else {
                Err(Error::InvalidCobId(id))
            }
        } else {
            Err(Error::InvalidCobId(id))
        }
    }

    /// Classifies an 11-bit identifier, failing on any identifier that no
    /// category claims.
    pub fn new(id: u16) -> (r: Result<Self, Error>)
        ensures
            r == Self::spec_classify(id),
    {
        if id >= 0x800 {
            return Err(Error::InvalidCobId(id));
        }
        let band: u16 = id / 0x80;
        let node = NodeId((id % 0x80) as u8);
        match band {
            0 => {
                if id == 0x000 {
                    Ok(CommunicationObject::NmtNodeControl)
                } else if id == 0x001 {
                    Ok(CommunicationObject::GlobalFailsafeCommand)
                } else {
                    Err(Error::InvalidCobId(id))
                }
            },
            1 => {
                if node.0 == 0 {
                    Ok(CommunicationObject::Sync)
                } else {
                    Ok(CommunicationObject::Emergency(node))
                }
            },
            2 => {
                if id == 0x100 {
                    Ok(CommunicationObject::TimeStamp)
                } else {
                    Err(Error::InvalidCobId(id))
                }
            },
            3 => Ok(CommunicationObject::TxPdo1(node)),
            4 => Ok(CommunicationObject::RxPdo1(node)),
            5 => Ok(CommunicationObject::TxPdo2(node)),
            6 => Ok(CommunicationObject::RxPdo2(node)),
            7 => Ok(CommunicationObject::TxPdo3(node)),
            8 => Ok(CommunicationObject::RxPdo3(node)),
            9 => Ok(CommunicationObject::TxPdo4(node)),
            10 => Ok(CommunicationObject::RxPdo4(node)),
            11 => Ok(CommunicationObject::TxSdo(node)),
            12 => Ok(CommunicationObject::RxSdo(node)),
            14 => Ok(CommunicationObject::NmtNodeMonitoring(node)),
            15 => {
                if id == 0x7E4 {
                    Ok(CommunicationObject::TxLss)
                } else if id == 0x7E5 {
                    Ok(CommunicationObject::RxLss)
                } else {
                    Err(Error::InvalidCobId(id))
                }
            },
            _ => Err(Error::InvalidCobId(id)),
        }
    }

    /// The identifier that addresses this communication object on the bus.
    pub fn as_cob_id(&self) -> (r: u16)
        ensures
            r == self.spec_cob_id(),
    {
        match self {
            CommunicationObject::NmtNodeControl => 0x000,
            CommunicationObject::GlobalFailsafeCommand => 0x001,
            CommunicationObject::Sync => 0x080,
            CommunicationObject::Emergency(node_id) => 0x080 + node_id.as_raw() as u16,
            CommunicationObject::TimeStamp => 0x100,
            CommunicationObject::TxPdo1(node_id) => 0x180 + node_id.as_raw() as u16,
            CommunicationObject::RxPdo1(node_id) => 0x200 + node_id.as_raw() as u16,
            CommunicationObject::TxPdo2(node_id) => 0x280 + node_id.as_raw() as u16,
            CommunicationObject::RxPdo2(node_id) => 0x300 + node_id.as_raw() as u16,
            CommunicationObject::TxPdo3(node_id) => 0x380 + node_id.as_raw() as u16,
            CommunicationObject::RxPdo3(node_id) => 0x400 + node_id.as_raw() as u16,
            CommunicationObject::TxPdo4(node_id) => 0x480 + node_id.as_raw() as u16,
            CommunicationObject::RxPdo4(node_id) => 0x500 + node_id.as_raw() as u16,
            CommunicationObject::TxSdo(node_id) => 0x580 + node_id.as_raw() as u16,
            CommunicationObject::RxSdo(node_id) => 0x600 + node_id.as_raw() as u16,
            CommunicationObject::NmtNodeMonitoring(node_id) => 0x700 + node_id.as_raw() as u16,
            CommunicationObject::TxLss => 0x7E4,
            CommunicationObject::RxLss => 0x7E5,
        }
    }
}

impl From<CommunicationObject> for CanId {
    fn from(cob: CommunicationObject) -> Self {
        CanId::Standard(cob.as_cob_id())
    }
}

impl vstd::std_specs::convert::FromSpecImpl<CommunicationObject> for CanId {
    open spec fn obeys_from_spec() -> bool {
        true
    }

    open spec fn from_spec(cob: CommunicationObject) -> Self {
        CanId::Standard(cob.spec_cob_id())
    }
}

impl TryFrom<CanId> for CommunicationObject {
    type Error = Error;

    fn try_from(id: CanId) -> Result<Self, Error> {
        match id {
            CanId::Standard(id) => CommunicationObject::new(id),
            CanId::Extended(_) => Err(Error::CanFdNotSupported),
        }
    }
}

impl vstd::std_specs::convert::TryFromSpecImpl<CanId> for CommunicationObject {
    open spec fn obeys_try_from_spec() -> bool {
        true
    }

    open spec fn try_from_spec(id: CanId) -> Result<Self, Error> {
        match id {
            CanId::Standard(id) => CommunicationObject::spec_classify(id),
            CanId::Extended(_) => Err(Error::CanFdNotSupported),
        }
    }
}

/// A division fact used when a banded identifier is taken apart: adding a
/// node below 0x80 to a base that is a multiple of 0x80 lands in that
/// base's band and keeps the node recoverable.
proof fn lemma_band_split(k: int, n: int)
    requires
        0 <= k < 16,
        0 <= n < 0x80,
    ensures
        (k * 0x80 + n) / 0x80 == k,
        (k * 0x80 + n) % 0x80 == n,
{
    lemma_fundamental_div_mod_converse(k * 0x80 + n, 0x80, k, n);
}

/// Addressing is a pure inverse pair, object side: every well-formed
/// communication object classifies back from the identifier it encodes to.
/// The one exception is the emergency category with node 0, whose
/// identifier is the sync fixed point and classifies as sync.
pub proof fn lemma_cob_id_round_trip(cob: CommunicationObject)
    requires
        cob.node_valid(),
        cob matches CommunicationObject::Emergency(n) ==> n.0 != 0,
    ensures
        CommunicationObject::spec_classify(cob.spec_cob_id()) == Ok::<
            CommunicationObject,
            Error,
        >(cob),
{
    match cob {
        CommunicationObject::Emergency(n) => lemma_band_split(1, n.0 as int),
        CommunicationObject::TxPdo1(n) => lemma_band_split(3, n.0 as int),
        CommunicationObject::RxPdo1(n) => lemma_band_split(4, n.0 as int),
        CommunicationObject::TxPdo2(n) => lemma_band_split(5, n.0 as int),
        CommunicationObject::RxPdo2(n) => lemma_band_split(6, n.0 as int),
        CommunicationObject::TxPdo3(n) => lemma_band_split(7, n.0 as int),
        CommunicationObject::RxPdo3(n) => lemma_band_split(8, n.0 as int),
        CommunicationObject::TxPdo4(n) => lemma_band_split(9, n.0 as int),
        CommunicationObject::RxPdo4(n) => lemma_band_split(10, n.0 as int),
        CommunicationObject::TxSdo(n) => lemma_band_split(11, n.0 as int),
        CommunicationObject::RxSdo(n) => lemma_band_split(12, n.0 as int),
        CommunicationObject::NmtNodeMonitoring(n) => lemma_band_split(14, n.0 as int),
        _ => (),
    }
}

/// Addressing is a pure inverse pair, identifier side: every identifier
/// that classifies successfully re-encodes to itself.
pub proof fn lemma_cob_id_classify_inverse(id: u16)
    requires
        CommunicationObject::spec_classify(id) is Ok,
    ensures
        CommunicationObject::spec_classify(id)->Ok_0.spec_cob_id() == id,
{
    lemma_fundamental_div_mod(id as int, 0x80);
}

} // verus!
