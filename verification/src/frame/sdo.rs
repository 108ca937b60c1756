use vstd::arithmetic::div_mod::lemma_div_denominator;
use vstd::arithmetic::div_mod::lemma_fundamental_div_mod;
use vstd::arithmetic::div_mod::lemma_fundamental_div_mod_converse;
use vstd::arithmetic::div_mod::lemma_small_mod;
use vstd::prelude::*;

use crate::error::result_view;
use crate::error::Error;
use crate::error::FrameKind;
use crate::frame::ConvertibleFrame;
use crate::id::CommunicationObject;
use crate::id::NodeId;

verus! {

/// Which side of an SDO exchange put a frame on the bus: the node (server,
/// Tx) or the client (Rx).  The same command-specifier bits mean different
/// things in each direction.
#[derive(Copy, Clone, Debug, PartialEq, Eq, Structural)]
pub enum Direction {
    Tx,
    Rx,
}

/// The command specifiers a client can put in a request frame.
#[derive(Copy, Clone, Debug, PartialEq, Eq, Structural)]
pub enum ClientCommandSpecifier {
    DownloadSegmentRequest,
    InitiateDownloadRequest,
    InitiateUploadRequest,
    UploadSegmentRequest,
    BlockUpload,
    BlockDownload,
}

impl ClientCommandSpecifier {
    pub open spec fn spec_as_num(self) -> u8 {
        match self {
            ClientCommandSpecifier::DownloadSegmentRequest => 0,
            ClientCommandSpecifier::InitiateDownloadRequest => 1,
            ClientCommandSpecifier::InitiateUploadRequest => 2,
            ClientCommandSpecifier::UploadSegmentRequest => 3,
            ClientCommandSpecifier::BlockUpload => 5,
            ClientCommandSpecifier::BlockDownload => 6,
        }
    }

    pub open spec fn spec_new(value: u8) -> Result<Self, Error> {
        if value == 0 {
            Ok(ClientCommandSpecifier::DownloadSegmentRequest)
        } else if value == 1 {
            Ok(ClientCommandSpecifier::InitiateDownloadRequest)
        } else if value == 2 {
            Ok(ClientCommandSpecifier::InitiateUploadRequest)
        } else if value == 3 {
            Ok(ClientCommandSpecifier::UploadSegmentRequest)
        } else if value == 5 {
            Ok(ClientCommandSpecifier::BlockUpload)
        } else if value == 6 {
            Ok(ClientCommandSpecifier::BlockDownload)
        } else {
            Err(Error::InvalidClientCommandSpecifier(value))
        }
    }

    pub fn new(value: u8) -> (r: Result<Self, Error>)
        ensures
            r == Self::spec_new(value),
    {
        match value {
            0 => Ok(ClientCommandSpecifier::DownloadSegmentRequest),
            1 => Ok(ClientCommandSpecifier::InitiateDownloadRequest),
            2 => Ok(ClientCommandSpecifier::InitiateUploadRequest),
            3 => Ok(ClientCommandSpecifier::UploadSegmentRequest),
            5 => Ok(ClientCommandSpecifier::BlockUpload),
            6 => Ok(ClientCommandSpecifier::BlockDownload),
            _ => Err(Error::InvalidClientCommandSpecifier(value)),
        }
    }

    pub fn as_num(&self) -> (r: u8)
        ensures
            r == self.spec_as_num(),
    {
        match self {
            ClientCommandSpecifier::DownloadSegmentRequest => 0,
            ClientCommandSpecifier::InitiateDownloadRequest => 1,
            ClientCommandSpecifier::InitiateUploadRequest => 2,
            ClientCommandSpecifier::UploadSegmentRequest => 3,
            ClientCommandSpecifier::BlockUpload => 5,
            ClientCommandSpecifier::BlockDownload => 6,
        }
    }
}

/// The command specifiers a server can put in a response frame.
#[derive(Copy, Clone, Debug, PartialEq, Eq, Structural)]
pub enum ServerCommandSpecifier {
    UploadSegmentResponse,
    DownloadSegmentResponse,
    InitiateUploadResponse,
    InitiateDownloadResponse,
    BlockDownload,
    BlockUpload,
}

impl ServerCommandSpecifier {
    pub open spec fn spec_as_num(self) -> u8 {
        match self {
            ServerCommandSpecifier::UploadSegmentResponse => 0,
            ServerCommandSpecifier::DownloadSegmentResponse => 1,
            ServerCommandSpecifier::InitiateUploadResponse => 2,
            ServerCommandSpecifier::InitiateDownloadResponse => 3,
            ServerCommandSpecifier::BlockDownload => 5,
            ServerCommandSpecifier::BlockUpload => 6,
        }
    }

    pub open spec fn spec_new(value: u8) -> Result<Self, Error> {
        if value == 0 {
            Ok(ServerCommandSpecifier::UploadSegmentResponse)
        } else if value == 1 {
            Ok(ServerCommandSpecifier::DownloadSegmentResponse)
        } else if value == 2 {
            Ok(ServerCommandSpecifier::InitiateUploadResponse)
        } else if value == 3 {
            Ok(ServerCommandSpecifier::InitiateDownloadResponse)
        } else if value == 5 {
            Ok(ServerCommandSpecifier::BlockDownload)
        } else if value == 6 {
            Ok(ServerCommandSpecifier::BlockUpload)
        } else {
            Err(Error::InvalidCommandSpecifier(value))
        }
    }

    pub fn new(value: u8) -> (r: Result<Self, Error>)
        ensures
            r == Self::spec_new(value),
    {
        match value {
            0 => Ok(ServerCommandSpecifier::UploadSegmentResponse),
            1 => Ok(ServerCommandSpecifier::DownloadSegmentResponse),
            2 => Ok(ServerCommandSpecifier::InitiateUploadResponse),
            3 => Ok(ServerCommandSpecifier::InitiateDownloadResponse),
            5 => Ok(ServerCommandSpecifier::BlockDownload),
            6 => Ok(ServerCommandSpecifier::BlockUpload),
            _ => Err(Error::InvalidCommandSpecifier(value)),
        }
    }

    pub fn as_num(&self) -> (r: u8)
        ensures
            r == self.spec_as_num(),
    {
        match self {
            ServerCommandSpecifier::UploadSegmentResponse => 0,
            ServerCommandSpecifier::DownloadSegmentResponse => 1,
            ServerCommandSpecifier::InitiateUploadResponse => 2,
            ServerCommandSpecifier::InitiateDownloadResponse => 3,
            ServerCommandSpecifier::BlockDownload => 5,
            ServerCommandSpecifier::BlockUpload => 6,
        }
    }
}

/// A direction-tagged command specifier: the abort code means the same
/// thing on both sides; every other value is read against the direction
/// the frame travelled in.
#[derive(Copy, Clone, Debug, PartialEq, Eq, Structural)]
pub enum CommandSpecifier {
    AbortTransfer,
    Client(ClientCommandSpecifier),
    Server(ServerCommandSpecifier),
}

impl CommandSpecifier {
    pub open spec fn spec_as_num(self) -> u8 {
        match self {
            CommandSpecifier::AbortTransfer => 4,
            CommandSpecifier::Client(ccs) => ccs.spec_as_num(),
            CommandSpecifier::Server(scs) => scs.spec_as_num(),
        }
    }

    /// The command-specifier value's meaning in the given direction.
    /// Value 4 is the abort code in both directions; value 7 (and any
    /// value above it) is invalid in both.
    pub open spec fn spec_new(direction: Direction, value: u8) -> Result<Self, Error> {
        if value == 4 {
            Ok(CommandSpecifier::AbortTransfer)
        } else {
            match direction {
                Direction::Tx => match ServerCommandSpecifier::spec_new(value) {
                    Ok(scs) => Ok(CommandSpecifier::Server(scs)),
                    Err(e) => Err(e),
                },
                Direction::Rx => match ClientCommandSpecifier::spec_new(value) {
                    Ok(ccs) => Ok(CommandSpecifier::Client(ccs)),
                    Err(e) => Err(e),
                },
            }
        }
    }

    /// Reading a whole first byte: the command specifier occupies its top
    /// three bits.
    pub open spec fn spec_new_with_byte(direction: Direction, byte: u8) -> Result<Self, Error> {
        Self::spec_new(direction, byte / 0x20)
    }

    /// The specifier's contribution to a first byte.
    pub open spec fn spec_as_byte_fragment(self) -> u8 {
        (self.spec_as_num() * 0x20) as u8
    }

    pub fn new(direction: Direction, value: u8) -> (r: Result<Self, Error>)
        ensures
            r == Self::spec_new(direction, value),
    {
        if value == 4 {
            return Ok(Self::AbortTransfer);
        }
        match direction {
            Direction::Tx => match ServerCommandSpecifier::new(value) {
                Ok(scs) => Ok(Self::Server(scs)),
                Err(e) => Err(e),
            },
            Direction::Rx => match ClientCommandSpecifier::new(value) {
                Ok(ccs) => Ok(Self::Client(ccs)),
                Err(e) => Err(e),
            },
        }
    }

    pub fn new_with_byte(direction: Direction, byte: u8) -> (r: Result<Self, Error>)
        ensures
            r == Self::spec_new_with_byte(direction, byte),
    {
        Self::new(direction, byte / 0x20)
    }

    pub fn as_num(&self) -> (r: u8)
        ensures
            r == self.spec_as_num(),
    {
        match self {
            Self::AbortTransfer => 4,
            Self::Client(ccs) => ccs.as_num(),
            Self::Server(scs) => scs.as_num(),
        }
    }

    pub fn as_byte_fragment(&self) -> (r: u8)
        ensures
            r == self.spec_as_byte_fragment(),
    {
        self.as_num() * 0x20
    }
}

/// The given bytes extended (or cut) to exactly `n` bytes, the tail filled
/// with zeros.
pub open spec fn spec_pad(data: Seq<u8>, n: int) -> Seq<u8> {
    Seq::new(n as nat, |i: int| if i < data.len() { data[i] } else { 0 })
}

/// A 32-bit value recomposed from its four little-endian bytes.
pub open spec fn spec_u32_from_le(b0: u8, b1: u8, b2: u8, b3: u8) -> u32 {
    (b0 + b1 * 0x100 + b2 * 0x10000 + b3 * 0x1000000) as u32
}

/// The mathematical value of an SDO transfer type: what the codec reads
/// out of an initiate frame.
#[verifier::ext_equal]
pub enum SdoTransferTypeView {
    Normal { size: usize },
    Expedited { sized: bool, data: Seq<u8> },
}

impl SdoTransferTypeView {
    /// What a transfer type must satisfy before it can be laid out in a
    /// frame: at most four inline bytes, and a size that fits the 32-bit
    /// field.
    pub open spec fn wf(self) -> bool {
        match self {
            SdoTransferTypeView::Normal { size } => size <= 0xFFFF_FFFFusize,
            SdoTransferTypeView::Expedited { sized, data } => data.len() <= 4,
        }
    }

    /// The flag bits a transfer type contributes to an initiate frame's
    /// first byte: bit 1 the expedited flag, bit 0 the size-specified
    /// flag, bits 2 and 3 the void-byte count (four minus the inline data
    /// length), meaningful only when both flags are set.
    pub open spec fn spec_first_byte_fragment(self) -> u8 {
        match self {
            SdoTransferTypeView::Normal { size } => 0x01,
            SdoTransferTypeView::Expedited { sized, data } => if sized {
                (((4 - data.len()) * 4) % 0x10 + 3) as u8
            } else {
                0x02
            },
        }
    }

    /// The four data bytes of an initiate frame: the size little-endian
    /// for a normal transfer, the inline data zero-padded for an
    /// expedited one.
    pub open spec fn spec_as_data_bytes(self) -> Seq<u8> {
        match self {
            SdoTransferTypeView::Normal { size } => seq![
                (size % 0x100) as u8,
                ((size / 0x100) % 0x100) as u8,
                ((size / 0x10000) % 0x100) as u8,
                ((size / 0x1000000) % 0x100) as u8,
            ],
            SdoTransferTypeView::Expedited { sized, data } => spec_pad(data, 4),
        }
    }

    /// The decode of the transfer-type bits and data of an eight-byte
    /// initiate payload.  A normal transfer without a size is not
    /// handled; a payload shorter than its void-byte count promises is
    /// rejected.
    pub open spec fn spec_new_with_bytes(bytes: Seq<u8>) -> Result<Self, Error> {
        let b0 = bytes[0];
        if (b0 / 2) % 2 == 0 {
            if b0 % 2 == 0 {
                Err(Error::NotImplemented)
            } else if bytes.len() < 8 {
                Err(Error::InvalidDataLength { length: bytes.len() as usize, kind: FrameKind::Sdo })
            } else {
                Ok(
                    SdoTransferTypeView::Normal {
                        size: spec_u32_from_le(bytes[4], bytes[5], bytes[6], bytes[7]) as usize,
                    },
                )
            }
        } else {
            let sized = b0 % 2 == 1;
            let data_end = if sized {
                8 - (b0 / 4) % 4
            } else {
                8
            };
            if bytes.len() < data_end {
                Err(Error::InvalidDataLength { length: bytes.len() as usize, kind: FrameKind::Sdo })
            } else {
                Ok(SdoTransferTypeView::Expedited { sized, data: bytes.subrange(4, data_end) })
            }
        }
    }

    /// A transfer type survives the trip through a frame's bits when it is
    /// well formed and, if expedited and sized, carries at least one byte:
    /// an empty sized payload encodes with a vanishing void-byte count and
    /// comes back as four zero bytes.
    pub open spec fn decodable(self) -> bool {
        match self {
            SdoTransferTypeView::Normal { size } => size <= 0xFFFF_FFFFusize,
            SdoTransferTypeView::Expedited { sized, data } => if sized {
                1 <= data.len() <= 4
            } else {
                data.len() == 4
            },
        }
    }
}

/// How the data of one SDO exchange travels: a normal transfer announcing
/// its total size and streaming later, or an expedited transfer embedding
/// up to four bytes directly in the initiate frame.
#[derive(Debug, PartialEq)]
pub enum SdoTransferType {
    Normal { size: usize },
    Expedited { sized: bool, data: Vec<u8> },
}

impl View for SdoTransferType {
    type V = SdoTransferTypeView;

    open spec fn view(&self) -> SdoTransferTypeView {
        match self {
            SdoTransferType::Normal { size } => SdoTransferTypeView::Normal { size: *size },
            SdoTransferType::Expedited { sized, data } => SdoTransferTypeView::Expedited {
                sized: *sized,
                data: data@,
            },
        }
    }
}

impl SdoTransferType {
    pub fn new_with_bytes(bytes: &[u8]) -> (r: Result<Self, Error>)
        requires
            bytes@.len() >= 1,
        ensures
            result_view(r) == SdoTransferTypeView::spec_new_with_bytes(bytes@),
    {
        let b0 = bytes[0];
        if (b0 / 2) % 2 == 0 {
            if b0 % 2 == 0 {
                Err(Error::NotImplemented)
            } else if bytes.len() < 8 {
                Err(Error::InvalidDataLength { length: bytes.len(), kind: FrameKind::Sdo })
            } else {
                let size: u32 = bytes[4] as u32 + bytes[5] as u32 * 0x100 + bytes[6] as u32
                    * 0x10000 + bytes[7] as u32 * 0x1000000;
                Ok(SdoTransferType::Normal { size: size as usize })
            }
        } else {
            let sized = b0 % 2 == 1;
            let data_end: usize = if sized {
                8 - ((b0 / 4) % 4) as usize
            } else {
                8
            };
            if bytes.len() < data_end {
                Err(Error::InvalidDataLength { length: bytes.len(), kind: FrameKind::Sdo })
            } else {
                let mut data: Vec<u8> = Vec::new();
                let mut i: usize = 4;
                proof {
                    assert(data@ =~= bytes@.subrange(4, 4));
                }
                while i < data_end
                    invariant
                        4 <= i <= data_end,
                        data_end <= bytes@.len(),
                        data@ == bytes@.subrange(4, i as int),
                    decreases data_end - i,
                {
                    data.push(bytes[i]);
                    proof {
                        assert(data@ =~= bytes@.subrange(4, i + 1));
                    }
                    i = i + 1;
                }
                Ok(SdoTransferType::Expedited { sized, data })
            }
        }
    }

    /// The executable check of the well-formedness the encoder asks for.
    pub fn is_wf(&self) -> (r: bool)
        ensures
            r == self@.wf(),
    {
        match self {
            SdoTransferType::Normal { size } => *size <= 0xFFFF_FFFFusize,
            SdoTransferType::Expedited { sized: _, data } => data.len() <= 4,
        }
    }

    pub fn as_first_byte_fragment(&self) -> (r: u8)
        requires
            self@.wf(),
        ensures
            r == self@.spec_first_byte_fragment(),
    {
        match self {
            SdoTransferType::Normal { size: _ } => 0x01,
            SdoTransferType::Expedited { sized, data } => {
                if *sized {
                    ((4 - data.len()) as u8 * 4) % 0x10 + 3
                } else {
                    0x02
                }
            },
        }
    }

    pub fn as_data_bytes(&self) -> (r: Vec<u8>)
        ensures
            r@ == self@.spec_as_data_bytes(),
    {
        match self {
            SdoTransferType::Normal { size } => {
                let mut buf: Vec<u8> = Vec::new();
                buf.push((*size % 0x100) as u8);
                buf.push((*size / 0x100 % 0x100) as u8);
                buf.push((*size / 0x10000 % 0x100) as u8);
                buf.push((*size / 0x1000000 % 0x100) as u8);
                proof {
                    assert(buf@ =~= self@.spec_as_data_bytes());
                }
                buf
            },
            SdoTransferType::Expedited { sized: _, data } => {
                let mut buf: Vec<u8> = Vec::new();
                let mut i: usize = 0;
                while i < 4
                    invariant
                        i <= 4,
                        buf@.len() == i,
                        forall|j: int|
                            0 <= j < i ==> buf@[j] == (if j < data@.len() {
                                data@[j]
                            } else {
                                0u8
                            }),
                    decreases 4 - i,
                {
                    if i < data.len() {
                        buf.push(data[i]);
                    } else {
                        buf.push(0);
                    }
                    i = i + 1;
                }
                proof {
                    assert(buf@ =~= self@.spec_as_data_bytes());
                }
                buf
            },
        }
    }
}

/// The data window of one segment frame: up to seven bytes.
#[derive(Debug, PartialEq)]
pub struct SdoSegmentData(pub Vec<u8>);

impl View for SdoSegmentData {
    type V = Seq<u8>;

    open spec fn view(&self) -> Seq<u8> {
        self.0@
    }
}

/// The void-byte bits a segment's data contributes to the first byte:
/// seven minus the data length, in bits 1 through 3.
pub open spec fn spec_segment_first_byte_fragment(data: Seq<u8>) -> u8 {
    ((7 - data.len()) * 2) as u8
}

impl SdoSegmentData {
    pub fn as_first_byte_fragment(&self) -> (r: u8)
        requires
            self@.len() <= 7,
        ensures
            r == spec_segment_first_byte_fragment(self@),
    {
        ((7 - self.0.len()) as u8) * 2
    }
}

/// The toggle bit that alternates between successive segments of one
/// transfer, carried in bit 4 of the first byte.
#[derive(Copy, Clone, Debug, PartialEq, Eq, Structural)]
pub struct SdoSegmentToggle(pub bool);

impl SdoSegmentToggle {
    pub open spec fn spec_first_byte_fragment(self) -> u8 {
        if self.0 {
            0x10
        } else {
            0x00
        }
    }

    pub fn as_first_byte_fragment(&self) -> (r: u8)
        ensures
            r == self.spec_first_byte_fragment(),
    {
        if self.0 {
            0x10
        } else {
            0x00
        }
    }
}

/// The mathematical value of one SDO exchange unit.
#[verifier::ext_equal]
pub enum SdoCommandView {
    InitiateDownloadRequest { index: u16, sub_index: u8, transfer_type: SdoTransferTypeView },
    InitiateDownloadResponse { index: u16, sub_index: u8 },
    DownloadSegmentRequest { toggle: SdoSegmentToggle, data: Seq<u8>, continued: bool },
    DownloadSegmentResponse { toggle: SdoSegmentToggle },
    InitiateUploadRequest { index: u16, sub_index: u8 },
    InitiateUploadResponse { index: u16, sub_index: u8, transfer_type: SdoTransferTypeView },
    UploadSegmentRequest { toggle: SdoSegmentToggle },
    UploadSegmentResponse { toggle: SdoSegmentToggle, data: Seq<u8>, continued: bool },
    AbortTransfer { index: u16, sub_index: u8, abort_code: u32 },
}

impl SdoCommandView {
    /// What a command must satisfy before it can be laid out in a frame:
    /// its transfer type well formed, its segment window at most seven
    /// bytes.
    pub open spec fn wf(self) -> bool {
        match self {
            SdoCommandView::InitiateDownloadRequest { transfer_type, .. } => transfer_type.wf(),
            SdoCommandView::InitiateUploadResponse { transfer_type, .. } => transfer_type.wf(),
            SdoCommandView::DownloadSegmentRequest { data, .. } => data.len() <= 7,
            SdoCommandView::UploadSegmentResponse { data, .. } => data.len() <= 7,
            _ => true,
        }
    }

    /// The eight bytes a command encodes to: the first byte packs the
    /// command specifier and its flags, bytes 1 through 3 carry the
    /// object-dictionary address where the command has one, and the tail
    /// carries data, a size, an abort code, or zero padding.
    pub open spec fn spec_as_bytes(self) -> Seq<u8> {
        match self {
            SdoCommandView::AbortTransfer { index, sub_index, abort_code } => seq![
                0x80u8,
                (index % 0x100) as u8,
                (index / 0x100) as u8,
                sub_index,
                (abort_code % 0x100) as u8,
                ((abort_code / 0x100) % 0x100) as u8,
                ((abort_code / 0x10000) % 0x100) as u8,
                ((abort_code / 0x1000000) % 0x100) as u8,
            ],
            SdoCommandView::InitiateDownloadRequest { index, sub_index, transfer_type } => seq![
                (0x20 + transfer_type.spec_first_byte_fragment()) as u8,
                (index % 0x100) as u8,
                (index / 0x100) as u8,
                sub_index,
            ] + transfer_type.spec_as_data_bytes(),
            SdoCommandView::InitiateDownloadResponse { index, sub_index } => seq![
                0x60u8,
                (index % 0x100) as u8,
                (index / 0x100) as u8,
                sub_index,
                0,
                0,
                0,
                0,
            ],
            SdoCommandView::DownloadSegmentRequest { toggle, data, continued } => seq![
                (toggle.spec_first_byte_fragment() + spec_segment_first_byte_fragment(data) + (
                if continued {
                    1int
                } else {
                    0int
                })) as u8,
            ] + spec_pad(data, 7),
            SdoCommandView::DownloadSegmentResponse { toggle } => seq![
                (0x20 + toggle.spec_first_byte_fragment()) as u8,
                0,
                0,
                0,
                0,
                0,
                0,
                0,
            ],
            SdoCommandView::InitiateUploadRequest { index, sub_index } => seq![
                0x40u8,
                (index % 0x100) as u8,
                (index / 0x100) as u8,
                sub_index,
                0,
                0,
                0,
                0,
            ],
            SdoCommandView::InitiateUploadResponse { index, sub_index, transfer_type } => seq![
                (0x40 + transfer_type.spec_first_byte_fragment()) as u8,
                (index % 0x100) as u8,
                (index / 0x100) as u8,
                sub_index,
            ] + transfer_type.spec_as_data_bytes(),
            SdoCommandView::UploadSegmentRequest { toggle } => seq![
                (0x60 + toggle.spec_first_byte_fragment()) as u8,
                0,
                0,
                0,
                0,
                0,
                0,
                0,
            ],
            SdoCommandView::UploadSegmentResponse { toggle, data, continued } => seq![
                (toggle.spec_first_byte_fragment() + spec_segment_first_byte_fragment(data) + (
                if continued {
                    1int
                } else {
                    0int
                })) as u8,
            ] + spec_pad(data, 7),
        }
    }

    /// The commands that come back unchanged from their own encoding when
    /// read in the given direction: the abort command and the four
    /// initiate commands the decoder handles, each in the direction that
    /// carries it, with a transfer type that survives the bit packing.
    /// Segment and block commands do not decode.
    pub open spec fn decodable_in(self, direction: Direction) -> bool {
        match self {
            SdoCommandView::AbortTransfer { .. } => true,
            SdoCommandView::InitiateDownloadRequest { transfer_type, .. } => direction
                == Direction::Rx && transfer_type.decodable(),
            SdoCommandView::InitiateUploadRequest { .. } => direction == Direction::Rx,
            SdoCommandView::InitiateDownloadResponse { .. } => direction == Direction::Tx,
            SdoCommandView::InitiateUploadResponse { transfer_type, .. } => direction
                == Direction::Tx && transfer_type.decodable(),
            _ => false,
        }
    }

    /// The decode of an eight-byte payload read in the given direction.
    pub open spec fn spec_decode(direction: Direction, bytes: Seq<u8>) -> Result<Self, Error> {
        if bytes.len() < 8 {
            Err(Error::InvalidDataLength { length: bytes.len() as usize, kind: FrameKind::Sdo })
        } else {
            match CommandSpecifier::spec_new_with_byte(direction, bytes[0]) {
                Err(e) => Err(e),
                Ok(cs) => {
                    let index = (bytes[1] + bytes[2] * 0x100) as u16;
                    let sub_index = bytes[3];
                    match cs {
                        CommandSpecifier::AbortTransfer => Ok(
                            SdoCommandView::AbortTransfer {
                                index,
                                sub_index,
                                abort_code: spec_u32_from_le(
                                    bytes[4],
                                    bytes[5],
                                    bytes[6],
                                    bytes[7],
                                ),
                            },
                        ),
                        CommandSpecifier::Client(ClientCommandSpecifier::InitiateUploadRequest) => Ok(
                            SdoCommandView::InitiateUploadRequest { index, sub_index },
                        ),
                        CommandSpecifier::Server(
                            ServerCommandSpecifier::InitiateDownloadResponse,
                        ) => Ok(SdoCommandView::InitiateDownloadResponse { index, sub_index }),
                        CommandSpecifier::Client(
                            ClientCommandSpecifier::InitiateDownloadRequest,
                        ) => match SdoTransferTypeView::spec_new_with_bytes(bytes) {
                            Ok(transfer_type) => Ok(
                                SdoCommandView::InitiateDownloadRequest {
                                    index,
                                    sub_index,
                                    transfer_type,
                                },
                            ),
                            Err(e) => Err(e),
                        },
                        CommandSpecifier::Server(ServerCommandSpecifier::InitiateUploadResponse) => match
                            SdoTransferTypeView::spec_new_with_bytes(bytes) {
                            Ok(transfer_type) => Ok(
                                SdoCommandView::InitiateUploadResponse {
                                    index,
                                    sub_index,
                                    transfer_type,
                                },
                            ),
                            Err(e) => Err(e),
                        },
                        _ => Err(Error::NotImplemented),
                    }
                },
            }
        }
    }
}

/// One SDO exchange unit, as the codec builds and reads it.
#[derive(Debug, PartialEq)]
pub enum SdoCommand {
    InitiateDownloadRequest { index: u16, sub_index: u8, transfer_type: SdoTransferType },
    InitiateDownloadResponse { index: u16, sub_index: u8 },
    DownloadSegmentRequest { toggle: SdoSegmentToggle, data: SdoSegmentData, continued: bool },
    DownloadSegmentResponse { toggle: SdoSegmentToggle },
    InitiateUploadRequest { index: u16, sub_index: u8 },
    InitiateUploadResponse { index: u16, sub_index: u8, transfer_type: SdoTransferType },
    UploadSegmentRequest { toggle: SdoSegmentToggle },
    UploadSegmentResponse { toggle: SdoSegmentToggle, data: SdoSegmentData, continued: bool },
    AbortTransfer { index: u16, sub_index: u8, abort_code: u32 },
}

impl View for SdoCommand {
    type V = SdoCommandView;

    open spec fn view(&self) -> SdoCommandView {
        match self {
            SdoCommand::InitiateDownloadRequest { index, sub_index, transfer_type } => SdoCommandView::InitiateDownloadRequest {
                index: *index,
                sub_index: *sub_index,
                transfer_type: transfer_type@,
            },
            SdoCommand::InitiateDownloadResponse { index, sub_index } => SdoCommandView::InitiateDownloadResponse {
                index: *index,
                sub_index: *sub_index,
            },
            SdoCommand::DownloadSegmentRequest { toggle, data, continued } => SdoCommandView::DownloadSegmentRequest {
                toggle: *toggle,
                data: data@,
                continued: *continued,
            },
            SdoCommand::DownloadSegmentResponse { toggle } => SdoCommandView::DownloadSegmentResponse {
                toggle: *toggle,
            },
            SdoCommand::InitiateUploadRequest { index, sub_index } => SdoCommandView::InitiateUploadRequest {
                index: *index,
                sub_index: *sub_index,
            },
            SdoCommand::InitiateUploadResponse { index, sub_index, transfer_type } => SdoCommandView::InitiateUploadResponse {
                index: *index,
                sub_index: *sub_index,
                transfer_type: transfer_type@,
            },
            SdoCommand::UploadSegmentRequest { toggle } => SdoCommandView::UploadSegmentRequest {
                toggle: *toggle,
            },
            SdoCommand::UploadSegmentResponse { toggle, data, continued } => SdoCommandView::UploadSegmentResponse {
                toggle: *toggle,
                data: data@,
                continued: *continued,
            },
            SdoCommand::AbortTransfer { index, sub_index, abort_code } => SdoCommandView::AbortTransfer {
                index: *index,
                sub_index: *sub_index,
                abort_code: *abort_code,
            },
        }
    }
}

/// Appends every byte of `other` to `buf`.
fn append_bytes(buf: &mut Vec<u8>, other: &Vec<u8>)
    ensures
        final(buf)@ == old(buf)@ + other@,
{
    let mut i: usize = 0;
    proof {
        assert(buf@ =~= old(buf)@ + other@.subrange(0, 0));
    }
    while i < other.len()
        invariant
            i <= other@.len(),
            buf@ == old(buf)@ + other@.subrange(0, i as int),
        decreases other@.len() - i,
    {
        buf.push(other[i]);
        proof {
            assert(buf@ =~= old(buf)@ + other@.subrange(0, i + 1));
        }
        i = i + 1;
    }
    proof {
        assert(other@.subrange(0, other@.len() as int) =~= other@);
    }
}

/// Appends zeros to `buf` until it holds exactly `n` bytes.
fn pad_to(buf: &mut Vec<u8>, n: usize)
    requires
        old(buf)@.len() <= n,
    ensures
        final(buf)@.len() == n,
        forall|j: int| 0 <= j < old(buf)@.len() ==> final(buf)@[j] == old(buf)@[j],
        forall|j: int| old(buf)@.len() <= j < n ==> final(buf)@[j] == 0u8,
{
    while buf.len() < n
        invariant
            old(buf)@.len() <= buf@.len() <= n,
            forall|j: int| 0 <= j < old(buf)@.len() ==> buf@[j] == old(buf)@[j],
            forall|j: int| old(buf)@.len() <= j < buf@.len() ==> buf@[j] == 0u8,
        decreases n - buf@.len(),
    {
        buf.push(0);
    }
}

impl SdoCommand {
    /// The executable check of the well-formedness the encoder asks for.
    pub fn is_wf(&self) -> (r: bool)
        ensures
            r == self@.wf(),
    {
        match self {
            SdoCommand::InitiateDownloadRequest { transfer_type, .. } => transfer_type.is_wf(),
            SdoCommand::InitiateUploadResponse { transfer_type, .. } => transfer_type.is_wf(),
            SdoCommand::DownloadSegmentRequest { data, .. } => data.0.len() <= 7,
            SdoCommand::UploadSegmentResponse { data, .. } => data.0.len() <= 7,
            _ => true,
        }
    }

    /// Lays the command out as a full eight-byte payload, zero-padding
    /// whatever the command leaves unused.
    pub fn as_bytes(&self) -> (r: Vec<u8>)
        requires
            self@.wf(),
        ensures
            r@ == self@.spec_as_bytes(),
    {
        let mut buf: Vec<u8> = Vec::new();
        match self {
            SdoCommand::AbortTransfer { index, sub_index, abort_code } => {
                buf.push(0x80);
                buf.push((*index % 0x100) as u8);
                buf.push((*index / 0x100) as u8);
                buf.push(*sub_index);
                buf.push((*abort_code % 0x100) as u8);
                buf.push((*abort_code / 0x100 % 0x100) as u8);
                buf.push((*abort_code / 0x10000 % 0x100) as u8);
                buf.push((*abort_code / 0x1000000 % 0x100) as u8);
            },
            SdoCommand::InitiateDownloadRequest { index, sub_index, transfer_type } => {
                buf.push(0x20 + transfer_type.as_first_byte_fragment());
                buf.push((*index % 0x100) as u8);
                buf.push((*index / 0x100) as u8);
                buf.push(*sub_index);
                let data_bytes = transfer_type.as_data_bytes();
                append_bytes(&mut buf, &data_bytes);
            },
            SdoCommand::InitiateDownloadResponse { index, sub_index } => {
                buf.push(0x60);
                buf.push((*index % 0x100) as u8);
                buf.push((*index / 0x100) as u8);
                buf.push(*sub_index);
                pad_to(&mut buf, 8);
            },
            SdoCommand::DownloadSegmentRequest { toggle, data, continued } => {
                buf.push(
                    toggle.as_first_byte_fragment() + data.as_first_byte_fragment() + (
                    if *continued {
                        1
                    } else {
                        0
                    }),
                );
                append_bytes(&mut buf, &data.0);
                pad_to(&mut buf, 8);
            },
            SdoCommand::DownloadSegmentResponse { toggle } => {
                buf.push(0x20 + toggle.as_first_byte_fragment());
                pad_to(&mut buf, 8);
            },
            SdoCommand::InitiateUploadRequest { index, sub_index } => {
                buf.push(0x40);
                buf.push((*index % 0x100) as u8);
                buf.push((*index / 0x100) as u8);
                buf.push(*sub_index);
                pad_to(&mut buf, 8);
            },
            SdoCommand::InitiateUploadResponse { index, sub_index, transfer_type } => {
                buf.push(0x40 + transfer_type.as_first_byte_fragment());
                buf.push((*index % 0x100) as u8);
                buf.push((*index / 0x100) as u8);
                buf.push(*sub_index);
                let data_bytes = transfer_type.as_data_bytes();
                append_bytes(&mut buf, &data_bytes);
            },
            SdoCommand::UploadSegmentRequest { toggle } => {
                buf.push(0x60 + toggle.as_first_byte_fragment());
                pad_to(&mut buf, 8);
            },
            SdoCommand::UploadSegmentResponse { toggle, data, continued } => {
                buf.push(
                    toggle.as_first_byte_fragment() + data.as_first_byte_fragment() + (
                    if *continued {
                        1
                    } else {
                        0
                    }),
                );
                append_bytes(&mut buf, &data.0);
                pad_to(&mut buf, 8);
            },
        }
        proof {
            assert(buf@ =~= self@.spec_as_bytes());
        }
        buf
    }
}

/// The mathematical value of one SDO frame.
#[verifier::ext_equal]
pub struct SdoFrameView {
    pub direction: Direction,
    pub node_id: NodeId,
    pub command: SdoCommandView,
}

impl SdoFrameView {
    /// The decode of an SDO payload for the given node and direction.
    pub open spec fn spec_new_with_bytes(
        direction: Direction,
        node_id: NodeId,
        bytes: Seq<u8>,
    ) -> Result<Self, Error> {
        match SdoCommandView::spec_decode(direction, bytes) {
            Ok(command) => Ok(SdoFrameView { direction, node_id, command }),
            Err(e) => Err(e),
        }
    }
}

/// One SDO frame: the direction it travels in, the node whose SDO channel
/// carries it, and the command it holds.
#[derive(Debug, PartialEq)]
pub struct SdoFrame {
    pub direction: Direction,
    pub node_id: NodeId,
    pub command: SdoCommand,
}

impl View for SdoFrame {
    type V = SdoFrameView;

    open spec fn view(&self) -> SdoFrameView {
        SdoFrameView { direction: self.direction, node_id: self.node_id, command: self.command@ }
    }
}

impl SdoFrame {
    /// An initiate-upload request for one object-dictionary entry,
    /// travelling client to server.
    pub fn new_sdo_read_frame(node_id: NodeId, index: u16, sub_index: u8) -> (r: Self)
        ensures
            r@ == (SdoFrameView {
                direction: Direction::Rx,
                node_id,
                command: SdoCommandView::InitiateUploadRequest { index, sub_index },
            }),
    {
        Self {
            direction: Direction::Rx,
            node_id,
            command: SdoCommand::InitiateUploadRequest { index, sub_index },
        }
    }

    /// An expedited, sized initiate-download request writing up to four
    /// bytes to one object-dictionary entry, travelling client to server.
    /// More than four bytes cannot ride in an expedited frame and are
    /// rejected.
    pub fn new_sdo_write_frame(node_id: NodeId, index: u16, sub_index: u8, data: Vec<u8>) -> (r:
        Result<Self, Error>)
        ensures
            data@.len() <= 4 ==> (r matches Ok(f) && f@ == (SdoFrameView {
                direction: Direction::Rx,
                node_id,
                command: SdoCommandView::InitiateDownloadRequest {
                    index,
                    sub_index,
                    transfer_type: SdoTransferTypeView::Expedited { sized: true, data: data@ },
                },
            })),
            data@.len() > 4 ==> r == Err::<SdoFrame, Error>(
                Error::InvalidDataLength { length: data@.len() as usize, kind: FrameKind::Sdo },
            ),
    {
        if data.len() > 4 {
            return Err(Error::InvalidDataLength { length: data.len(), kind: FrameKind::Sdo });
        }
        Ok(
            Self {
                direction: Direction::Rx,
                node_id,
                command: SdoCommand::InitiateDownloadRequest {
                    index,
                    sub_index,
                    transfer_type: SdoTransferType::Expedited { sized: true, data },
                },
            },
        )
    }

    /// Decodes an SDO payload arriving for the given node in the given
    /// direction.
    pub fn new_with_bytes(direction: Direction, node_id: NodeId, bytes: &[u8]) -> (r: Result<
        Self,
        Error,
    >)
        ensures
            result_view(r) == SdoFrameView::spec_new_with_bytes(direction, node_id, bytes@),
    {
        if bytes.len() < 8 {
            return Err(Error::InvalidDataLength { length: bytes.len(), kind: FrameKind::Sdo });
        }
        let command_specifier = match CommandSpecifier::new_with_byte(direction, bytes[0]) {
            Ok(cs) => cs,
            Err(e) => {
                return Err(e);
            },
        };
        let index: u16 = bytes[1] as u16 + bytes[2] as u16 * 0x100;
        let sub_index: u8 = bytes[3];
        match command_specifier {
            CommandSpecifier::AbortTransfer => {
                let abort_code: u32 = bytes[4] as u32 + bytes[5] as u32 * 0x100 + bytes[6] as u32
                    * 0x10000 + bytes[7] as u32 * 0x1000000;
                Ok(
                    Self {
                        direction,
                        node_id,
                        command: SdoCommand::AbortTransfer { index, sub_index, abort_code },
                    },
                )
            },
            CommandSpecifier::Client(ClientCommandSpecifier::InitiateUploadRequest) => Ok(
                Self {
                    direction,
                    node_id,
                    command: SdoCommand::InitiateUploadRequest { index, sub_index },
                },
            ),
            CommandSpecifier::Server(ServerCommandSpecifier::InitiateDownloadResponse) => Ok(
                Self {
                    direction,
                    node_id,
                    command: SdoCommand::InitiateDownloadResponse { index, sub_index },
                },
            ),
            CommandSpecifier::Client(ClientCommandSpecifier::InitiateDownloadRequest) => {
                match SdoTransferType::new_with_bytes(bytes) {
                    Ok(transfer_type) => Ok(
                        Self {
                            direction,
                            node_id,
                            command: SdoCommand::InitiateDownloadRequest {
                                index,
                                sub_index,
                                transfer_type,
                            },
                        },
                    ),
                    Err(e) => Err(e),
                }
            },
            CommandSpecifier::Server(ServerCommandSpecifier::InitiateUploadResponse) => {
                match SdoTransferType::new_with_bytes(bytes) {
                    Ok(transfer_type) => Ok(
                        Self {
                            direction,
                            node_id,
                            command: SdoCommand::InitiateUploadResponse {
                                index,
                                sub_index,
                                transfer_type,
                            },
                        },
                    ),
                    Err(e) => Err(e),
                }
            },
            _ => Err(Error::NotImplemented),
        }
    }
}

impl ConvertibleFrame for SdoFrame {
    open spec fn spec_communication_object(&self) -> CommunicationObject {
        match self.direction {
            Direction::Tx => CommunicationObject::TxSdo(self.node_id),
            Direction::Rx => CommunicationObject::RxSdo(self.node_id),
        }
    }

    open spec fn spec_frame_data(&self) -> Seq<u8> {
        self.command@.spec_as_bytes()
    }

    open spec fn encodable(&self) -> bool {
        self.command@.wf()
    }

    fn communication_object(&self) -> (r: CommunicationObject)
        ensures
            r == self.spec_communication_object(),
    {
        match self.direction {
            Direction::Tx => CommunicationObject::TxSdo(self.node_id),
            Direction::Rx => CommunicationObject::RxSdo(self.node_id),
        }
    }

    fn frame_data(&self) -> (r: Vec<u8>)
        ensures
            r@ == self.spec_frame_data(),
    {
        self.command.as_bytes()
    }
}

/// The division facts behind the first byte's bit fields: a byte built as
/// command-specifier bits, void-byte bits, the expedited flag and the
/// size flag gives each field back.
proof fn lemma_byte0_fields(k: int, void: int, e: int, s: int)
    requires
        0 <= k < 8,
        0 <= void < 4,
        0 <= e < 2,
        0 <= s < 2,
    ensures
        (k * 32 + void * 4 + e * 2 + s) / 32 == k,
        (k * 32 + void * 4 + e * 2 + s) % 2 == s,
        ((k * 32 + void * 4 + e * 2 + s) / 2) % 2 == e,
        ((k * 32 + void * 4 + e * 2 + s) / 4) % 4 == void,
{
    let b0 = k * 32 + void * 4 + e * 2 + s;
    lemma_fundamental_div_mod_converse(b0, 32, k, void * 4 + e * 2 + s);
    lemma_fundamental_div_mod_converse(b0, 2, k * 16 + void * 2 + e, s);
    lemma_fundamental_div_mod_converse(k * 16 + void * 2 + e, 2, k * 8 + void, e);
    lemma_fundamental_div_mod_converse(b0, 4, k * 8 + void, e * 2 + s);
    lemma_fundamental_div_mod_converse(k * 8 + void, 4, k * 2, void);
}

/// A 32-bit value comes back from its four little-endian bytes.
proof fn lemma_le4_round_trip(x: int)
    requires
        0 <= x < 0x1_0000_0000,
    ensures
        x % 0x100 + ((x / 0x100) % 0x100) * 0x100 + ((x / 0x10000) % 0x100) * 0x10000 + ((x
            / 0x1000000) % 0x100) * 0x1000000 == x,
        0 <= x / 0x1000000 < 0x100,
{
    lemma_fundamental_div_mod(x, 0x100);
    lemma_fundamental_div_mod(x / 0x100, 0x100);
    lemma_fundamental_div_mod(x / 0x10000, 0x100);
    lemma_div_denominator(x, 0x100, 0x100);
    lemma_div_denominator(x, 0x10000, 0x100);
    lemma_fundamental_div_mod(x, 0x1000000);
    lemma_small_mod((x / 0x1000000) as nat, 0x100);
}

/// A 16-bit value comes back from its two little-endian bytes.
proof fn lemma_le2_round_trip(x: int)
    requires
        0 <= x < 0x1_0000,
    ensures
        x % 0x100 + (x / 0x100) * 0x100 == x,
        0 <= x / 0x100 < 0x100,
{
    lemma_fundamental_div_mod(x, 0x100);
}

/// Round trip of the transfer-type bits: a decodable transfer type is
/// read back intact from the first byte it contributes and the data bytes
/// it lays out, whatever command-specifier bits stand above it.
proof fn lemma_transfer_type_round_trip(k: int, t: SdoTransferTypeView)
    requires
        0 <= k < 8,
        t.decodable(),
    ensures
        SdoTransferTypeView::spec_new_with_bytes(
            seq![(k * 32 + t.spec_first_byte_fragment()) as u8, 0, 0, 0]
                + t.spec_as_data_bytes(),
        ) == Ok::<SdoTransferTypeView, Error>(t),
{
    let bytes = seq![(k * 32 + t.spec_first_byte_fragment()) as u8, 0u8, 0u8, 0u8]
        + t.spec_as_data_bytes();
    assert(bytes.len() == 8);
    match t {
        SdoTransferTypeView::Normal { size } => {
            lemma_byte0_fields(k, 0, 0, 1);
            assert(bytes[0] == k * 32 + 1);
            lemma_le4_round_trip(size as int);
            assert(spec_u32_from_le(bytes[4], bytes[5], bytes[6], bytes[7]) == size);
        },
        SdoTransferTypeView::Expedited { sized, data } => {
            if sized {
                let void = 4 - data.len();
                lemma_small_mod((void * 4) as nat, 0x10);
                lemma_byte0_fields(k, void as int, 1, 1);
                assert(bytes[0] == k * 32 + void * 4 + 2 + 1);
                let data_end = 8 - (bytes[0] / 4) % 4;
                assert(data_end == 4 + data.len());
                assert(bytes.subrange(4, data_end as int) =~= data);
            } else {
                lemma_byte0_fields(k, 0, 1, 0);
                assert(bytes[0] == k * 32 + 2);
                assert(bytes.subrange(4, 8) =~= data);
            }
        },
    }
}

/// Two byte sequences that agree everywhere but in the placeholder bytes
/// 1 through 3 decode to the same transfer type.
proof fn lemma_transfer_type_ignores_header(a: Seq<u8>, b: Seq<u8>)
    requires
        a.len() == b.len(),
        a.len() >= 1,
        a[0] == b[0],
        forall|i: int| 4 <= i < a.len() ==> a[i] == b[i],
    ensures
        SdoTransferTypeView::spec_new_with_bytes(a) == SdoTransferTypeView::spec_new_with_bytes(b),
{
    let b0 = a[0];
    if (b0 / 2) % 2 == 0 {
    } else {
        let sized = b0 % 2 == 1;
        let data_end = if sized {
            8 - (b0 / 4) % 4
        } else {
            8
        };
        if a.len() >= data_end {
            assert(a.subrange(4, data_end) =~= b.subrange(4, data_end));
        }
    }
}

/// Round trip, value side: every decodable SDO command is read back
/// intact, in its own direction, from the eight bytes it encodes to.
pub proof fn lemma_sdo_command_round_trip(direction: Direction, command: SdoCommandView)
    requires
        command.decodable_in(direction),
    ensures
        SdoCommandView::spec_decode(direction, command.spec_as_bytes()) == Ok::<
            SdoCommandView,
            Error,
        >(command),
{
    let bytes = command.spec_as_bytes();
    assert(bytes.len() == 8);
    match command {
        SdoCommandView::AbortTransfer { index, sub_index, abort_code } => {
            lemma_byte0_fields(4, 0, 0, 0);
            assert(bytes[0] / 32 == 4);
            lemma_le2_round_trip(index as int);
            lemma_le4_round_trip(abort_code as int);
            assert(SdoCommandView::spec_decode(direction, bytes) =~= Ok::<
                SdoCommandView,
                Error,
            >(command));
        },
        SdoCommandView::InitiateUploadRequest { index, sub_index } => {
            lemma_byte0_fields(2, 0, 0, 0);
            assert(bytes[0] / 32 == 2);
            lemma_le2_round_trip(index as int);
            assert(SdoCommandView::spec_decode(direction, bytes) =~= Ok::<
                SdoCommandView,
                Error,
            >(command));
        },
        SdoCommandView::InitiateDownloadResponse { index, sub_index } => {
            lemma_byte0_fields(3, 0, 0, 0);
            assert(bytes[0] / 32 == 3);
            lemma_le2_round_trip(index as int);
            assert(SdoCommandView::spec_decode(direction, bytes) =~= Ok::<
                SdoCommandView,
                Error,
            >(command));
        },
        SdoCommandView::InitiateDownloadRequest { index, sub_index, transfer_type } => {
            lemma_initiate_with_transfer(1, index, sub_index, transfer_type, bytes);
            assert(bytes[0] / 32 == 1);
            lemma_le2_round_trip(index as int);
            assert(SdoCommandView::spec_decode(direction, bytes) =~= Ok::<
                SdoCommandView,
                Error,
            >(command));
        },
        SdoCommandView::InitiateUploadResponse { index, sub_index, transfer_type } => {
            lemma_initiate_with_transfer(2, index, sub_index, transfer_type, bytes);
            assert(bytes[0] / 32 == 2);
            lemma_le2_round_trip(index as int);
            assert(SdoCommandView::spec_decode(direction, bytes) =~= Ok::<
                SdoCommandView,
                Error,
            >(command));
        },
        _ => {
            assert(false);
        },
    }
}

/// Shared step of the two initiate commands that carry a transfer type:
/// the first byte yields their command specifier back, and the transfer
/// type decodes intact from the full payload.
proof fn lemma_initiate_with_transfer(
    k: int,
    index: u16,
    sub_index: u8,
    t: SdoTransferTypeView,
    bytes: Seq<u8>,
)
    requires
        0 <= k < 8,
        t.decodable(),
        bytes.len() == 8,
        bytes[0] == (k * 32 + t.spec_first_byte_fragment()) as u8,
        forall|i: int| 4 <= i < 8 ==> bytes[i] == t.spec_as_data_bytes()[i - 4],
    ensures
        bytes[0] / 32 == k,
        SdoTransferTypeView::spec_new_with_bytes(bytes) == Ok::<SdoTransferTypeView, Error>(t),
{
    let canonical = seq![(k * 32 + t.spec_first_byte_fragment()) as u8, 0u8, 0u8, 0u8]
        + t.spec_as_data_bytes();
    assert(t.spec_as_data_bytes().len() == 4);
    lemma_transfer_type_round_trip(k, t);
    lemma_transfer_type_ignores_header(bytes, canonical);
    match t {
        SdoTransferTypeView::Normal { size } => {
            lemma_byte0_fields(k, 0, 0, 1);
        },
        SdoTransferTypeView::Expedited { sized, data } => {
            if sized {
                let void = 4 - data.len();
                lemma_small_mod(((4 - data.len()) * 4) as nat, 0x10);
                lemma_byte0_fields(k, void as int, 1, 1);
            } else {
                lemma_byte0_fields(k, 0, 1, 0);
            }
        },
    }
}

/// The decoder only produces values that survive re-encoding: every
/// command it accepts is decodable in the direction it was read in.
/// Together with the round trip of the values this closes the byte side:
/// re-encoding a decoded payload yields the canonical eight bytes of the
/// same command, which decode to it again.
pub proof fn lemma_sdo_decode_produces_decodable(direction: Direction, bytes: Seq<u8>)
    requires
        SdoCommandView::spec_decode(direction, bytes) is Ok,
    ensures
        SdoCommandView::spec_decode(direction, bytes)->Ok_0.decodable_in(direction),
{
}

/// Round trip, frame side: every SDO frame whose command is decodable in
/// its direction is read back intact from its own payload.
pub proof fn lemma_sdo_frame_round_trip(frame: SdoFrameView)
    requires
        frame.command.decodable_in(frame.direction),
    ensures
        SdoFrameView::spec_new_with_bytes(
            frame.direction,
            frame.node_id,
            frame.command.spec_as_bytes(),
        ) == Ok::<SdoFrameView, Error>(frame),
{
    lemma_sdo_command_round_trip(frame.direction, frame.command);
}

} // verus!
