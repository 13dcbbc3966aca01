//! The two records that frame a command on the bulk endpoints: the Command Block Wrapper that the
//! host sends and the Command Status Wrapper that the device answers with.
//!
//! | Offset | Size | Command Block Wrapper        |
//! |--------|------|------------------------------|
//! | 0      | 4    | signature `0x43425355`       |
//! | 4      | 4    | tag                          |
//! | 8      | 4    | data transfer length         |
//! | 12     | 1    | flags (bit 7: 1 = IN)        |
//! | 13     | 1    | LUN (low 4 bits)             |
//! | 14     | 1    | command block length (1..=16)|
//! | 15     | 16   | command block                |
//!
//! | Offset | Size | Command Status Wrapper       |
//! |--------|------|------------------------------|
//! | 0      | 4    | signature `0x53425355`       |
//! | 4      | 4    | tag                          |
//! | 8      | 4    | data residue                 |
//! | 12     | 1    | status (0, 1 or 2)           |
//!
//! Integers of more than one byte are stored least significant byte first.
use crate::buffer::copy_to_front;
use crate::bytes::{le32_at, le32_bytes, lemma_le32_of_bytes, read_le32, write_le32};
use crate::transport::CommandStatus;
use vstd::prelude::*;
use vstd::slice::slice_subrange;

verus! {

/// Signature of a Command Block Wrapper: the bytes `USBC`
pub const CBW_SIGNATURE: u32 = 0x43425355;

/// Signature of a Command Status Wrapper: the bytes `USBS`
pub const CSW_SIGNATURE: u32 = 0x53425355;

/// Length of a Command Block Wrapper
pub const CBW_LEN: usize = 31;

/// Length of a Command Status Wrapper
pub const CSW_LEN: usize = 13;

/// Length of the shortest command block
pub const MIN_CB_LEN: usize = 1;

/// Length of the longest command block
pub const MAX_CB_LEN: usize = 16;

/// A Command Block Wrapper is not valid.
#[derive(Copy, Clone, Debug, PartialEq, Eq, Structural)]
pub struct InvalidCbwError;

/// Direction of the data phase of a command.
#[derive(Copy, Clone, Debug, PartialEq, Eq, Structural)]
pub enum DataDirection {
    /// Host to device
    Out,
    /// Device to host
    In,
    /// The command has no data phase
    NotExpected,
}

impl Default for DataDirection {
    fn default() -> (d: DataDirection)
        ensures
            d == DataDirection::NotExpected,
    {
        DataDirection::NotExpected
    }
}

/// What a Command Block Wrapper says.
pub struct CbwView {
    /// Chosen by the host, echoed in the status
    pub tag: u32,
    /// Number of bytes that the host expects to move in the data phase
    pub data_transfer_len: u32,
    pub direction: DataDirection,
    pub lun: u8,
    /// The command block, as long as the wrapper says it is
    pub block: Seq<u8>,
}

impl CbwView {
    /// The fields are those of a wrapper that was read from bytes: the command block has 1 to 16
    /// bytes, the LUN has four bits, and a data phase is expected exactly where bytes are to move.
    pub open spec fn wf(self) -> bool {
        &&& MIN_CB_LEN <= self.block.len() <= MAX_CB_LEN
        &&& self.lun <= 0x0F
        &&& self.data_transfer_len == 0 <==> self.direction == DataDirection::NotExpected
    }

    /// The wrapper that stands for no command: every field zero, no data phase.
    pub open spec fn empty() -> CbwView {
        CbwView {
            tag: 0,
            data_transfer_len: 0,
            direction: DataDirection::NotExpected,
            lun: 0,
            block: Seq::empty(),
        }
    }
}

/// The flags byte that names `direction`.
pub open spec fn flags_of(direction: DataDirection) -> u8 {
    if direction == DataDirection::In {
        0x80
    } else {
        0
    }
}

/// The direction of a data phase of `len` bytes under the flags byte `flags`: none where `len` is 0,
/// whatever the flags say.
pub open spec fn direction_of(len: u32, flags: u8) -> DataDirection {
    if len == 0 {
        DataDirection::NotExpected
    } else if flags & 0x80 != 0 {
        DataDirection::In
    } else {
        DataDirection::Out
    }
}

/// The 27 bytes that follow the signature in the wrapper `cbw`. The command block is filled up with
/// zeros to 16 bytes.
pub open spec fn encode_cbw_body(cbw: CbwView) -> Seq<u8> {
    le32_bytes(cbw.tag) + le32_bytes(cbw.data_transfer_len) + seq![
        flags_of(cbw.direction),
        cbw.lun,
        cbw.block.len() as u8,
    ] + cbw.block + Seq::new((MAX_CB_LEN - cbw.block.len()) as nat, |i: int| 0u8)
}

/// The 31 bytes of the wrapper `cbw`.
pub open spec fn encode_cbw(cbw: CbwView) -> Seq<u8> {
    le32_bytes(CBW_SIGNATURE) + encode_cbw_body(cbw)
}

/// The wrapper whose 27 bytes after the signature are `body`, if they are those of a valid one: the
/// command block length is 1 to 16.
pub open spec fn decode_cbw_body(body: Seq<u8>) -> Option<CbwView> {
    if body.len() == CBW_LEN - 4 && MIN_CB_LEN <= body[10] <= MAX_CB_LEN {
        Some(
            CbwView {
                tag: le32_at(body, 0),
                data_transfer_len: le32_at(body, 4),
                direction: direction_of(le32_at(body, 4), body[8]),
                lun: body[9] & 0x0F,
                block: body.subrange(11, 11 + body[10]),
            },
        )
    } else {
        None
    }
}

/// The wrapper that the 31 bytes `frame` hold, if they hold a valid one: they start with the
/// signature and the command block length is 1 to 16.
pub open spec fn decode_cbw(frame: Seq<u8>) -> Option<CbwView> {
    if frame.len() == CBW_LEN && le32_at(frame, 0) == CBW_SIGNATURE {
        decode_cbw_body(frame.subrange(4, CBW_LEN as int))
    } else {
        None
    }
}

/// A wrapper that is written out and read back is the same wrapper.
pub proof fn lemma_cbw_round_trip(cbw: CbwView)
    requires
        cbw.wf(),
    ensures
        decode_cbw(encode_cbw(cbw)) == Some(cbw),
        encode_cbw(cbw).len() == CBW_LEN,
{
    let frame = encode_cbw(cbw);
    let body = frame.subrange(4, CBW_LEN as int);
    assert(body =~= encode_cbw_body(cbw));
    lemma_le32_of_bytes(CBW_SIGNATURE);
    lemma_le32_of_bytes(cbw.tag);
    lemma_le32_of_bytes(cbw.data_transfer_len);
    assert(le32_at(frame, 0) == le32_at(le32_bytes(CBW_SIGNATURE), 0));
    assert(le32_at(body, 0) == le32_at(le32_bytes(cbw.tag), 0));
    assert(le32_at(body, 4) == le32_at(le32_bytes(cbw.data_transfer_len), 0));
    let lun = cbw.lun;
    assert(lun & 0x0F == lun) by (bit_vector)
        requires
            lun <= 0x0F,
    ;
    assert(0x80u8 & 0x80 != 0) by (bit_vector);
    assert(0u8 & 0x80 == 0) by (bit_vector);
    assert(body.subrange(11, 11 + body[10]) =~= cbw.block);
}

/// No data phase is expected where the data transfer length of a wrapper is 0: whatever its flags
/// byte is, the wrapper reads the same.
pub proof fn lemma_no_data_without_length(body: Seq<u8>, flags: u8)
    requires
        decode_cbw_body(body) is Some,
        le32_at(body, 4) == 0,
    ensures
        decode_cbw_body(body).unwrap().direction == DataDirection::NotExpected,
        decode_cbw_body(body.update(8, flags)) == decode_cbw_body(body),
{
    let other = body.update(8, flags);
    assert(other.subrange(11, 11 + other[10]) =~= body.subrange(11, 11 + body[10]));
}

/// Command Block Wrapper
#[derive(Copy, Clone, Debug)]
pub struct CommandBlockWrapper {
    pub tag: u32,
    pub data_transfer_len: u32,
    pub direction: DataDirection,
    pub lun: u8,
    pub block_len: usize,
    pub block: [u8; 16],
}

impl View for CommandBlockWrapper {
    type V = CbwView;

    open spec fn view(&self) -> CbwView {
        CbwView {
            tag: self.tag,
            data_transfer_len: self.data_transfer_len,
            direction: self.direction,
            lun: self.lun,
            block: self.block@.subrange(0, self.block_len as int),
        }
    }
}

impl Default for CommandBlockWrapper {
    fn default() -> (cbw: CommandBlockWrapper)
        ensures
            cbw@ == CbwView::empty(),
            cbw.block_len == 0,
    {
        let cbw = CommandBlockWrapper {
            tag: 0,
            data_transfer_len: 0,
            direction: DataDirection::NotExpected,
            lun: 0,
            block_len: 0,
            block: [0u8; 16],
        };
        assert(cbw@.block =~= Seq::<u8>::empty());
        cbw
    }
}

impl CommandBlockWrapper {
    /// Reads a wrapper from the 27 bytes that follow its signature.
    pub fn from_le_bytes(value: &[u8]) -> (res: Result<CommandBlockWrapper, InvalidCbwError>)
        requires
            value@.len() == CBW_LEN - 4,
        ensures
            res is Ok == decode_cbw_body(value@) is Some,
            res matches Ok(cbw) ==> ({
                &&& cbw@ == decode_cbw_body(value@).unwrap()
                &&& cbw@.wf()
                &&& cbw.block_len == value@[10]
                &&& cbw.block@ == value@.subrange(11, 27)
            }),
    {
        let block_len = value[10] as usize;
        if !(MIN_CB_LEN <= block_len && block_len <= MAX_CB_LEN) {
            return Err(InvalidCbwError);
        }
        let data_transfer_len = read_le32(value, 4);
        let flags = value[8];
        let raw_lun = value[9];
        let lun = raw_lun & 0b0000_1111;
        assert(lun <= 0x0F) by (bit_vector)
            requires
                lun == raw_lun & 0b0000_1111,
        ;
        let mut block = [0u8; 16];
        copy_to_front(&mut block, slice_subrange(value, 11, 27));
        let cbw = CommandBlockWrapper {
            tag: read_le32(value, 0),
            data_transfer_len,
            direction: if data_transfer_len != 0 {
                if (flags & 0x80) != 0 {
                    DataDirection::In
                } else {
                    DataDirection::Out
                }
            } else {
                DataDirection::NotExpected
            },
            lun,
            block_len,
            block,
        };
        assert(cbw@.block =~= value@.subrange(11, 11 + value@[10]));
        assert(cbw.block@ =~= value@.subrange(11, 27));
        Ok(cbw)
    }

    /// Writes the wrapper out in its 31 bytes.
    pub fn to_le_bytes(&self) -> (bytes: [u8; 31])
        requires
            self@.wf(),
            self.block_len <= MAX_CB_LEN,
        ensures
            bytes@ == encode_cbw(self@),
    {
        let mut bytes = [0u8; 31];
        write_le32(&mut bytes, 0, CBW_SIGNATURE);
        write_le32(&mut bytes, 4, self.tag);
        write_le32(&mut bytes, 8, self.data_transfer_len);
        bytes[12] = match self.direction {
            DataDirection::In => 0x80,
            _ => 0,
        };
        bytes[13] = self.lun;
        bytes[14] = self.block_len as u8;
        let mut i: usize = 0;
        while i < self.block_len
            invariant
                i <= self.block_len <= MAX_CB_LEN,
                bytes@.subrange(0, 15) == encode_cbw(self@).subrange(0, 15),
                forall|j: int| 0 <= j < i ==> bytes@[15 + j] == self.block@[j],
                forall|j: int| 15 + i <= j < 31 ==> bytes@[j] == 0,
            decreases self.block_len - i,
        {
            bytes[15 + i] = self.block[i];
            assert(bytes@.subrange(0, 15) =~= encode_cbw(self@).subrange(0, 15));
            i = i + 1;
        }
        assert(bytes@ =~= encode_cbw(self@)) by {
            assert(bytes@.subrange(0, 15) == encode_cbw(self@).subrange(0, 15));
            assert forall|j: int| 0 <= j < 31 implies bytes@[j] == encode_cbw(self@)[j] by {
                if j < 15 {
                    assert(bytes@[j] == bytes@.subrange(0, 15)[j]);
                    assert(encode_cbw(self@)[j] == encode_cbw(self@).subrange(0, 15)[j]);
                }
            }
        }
        bytes
    }
}

/// Command Status Wrapper
#[derive(Copy, Clone, Debug, PartialEq, Eq, Structural)]
pub struct CommandStatusWrapper {
    /// The tag of the command that the status is for
    pub tag: u32,
    /// Number of bytes that the host expected and the data phase did not move
    pub data_residue: u32,
    pub status: CommandStatus,
}

/// The 13 bytes of the wrapper `csw`.
pub open spec fn encode_csw(csw: CommandStatusWrapper) -> Seq<u8> {
    le32_bytes(CSW_SIGNATURE) + le32_bytes(csw.tag) + le32_bytes(csw.data_residue) + seq![
        csw.status.code(),
    ]
}

/// The wrapper that the bytes `frame` hold, if they hold one: there are 13 of them, they start with
/// the signature and the status is one of the three.
pub open spec fn decode_csw(frame: Seq<u8>) -> Option<CommandStatusWrapper> {
    if frame.len() == CSW_LEN && le32_at(frame, 0) == CSW_SIGNATURE && CommandStatus::with_code(
        frame[12],
    ) is Some {
        Some(
            CommandStatusWrapper {
                tag: le32_at(frame, 4),
                data_residue: le32_at(frame, 8),
                status: CommandStatus::with_code(frame[12]).unwrap(),
            },
        )
    } else {
        None
    }
}

/// A status that is written out and read back is the same status.
pub proof fn lemma_csw_round_trip(csw: CommandStatusWrapper)
    ensures
        decode_csw(encode_csw(csw)) == Some(csw),
        encode_csw(csw).len() == CSW_LEN,
{
    let frame = encode_csw(csw);
    lemma_le32_of_bytes(CSW_SIGNATURE);
    lemma_le32_of_bytes(csw.tag);
    lemma_le32_of_bytes(csw.data_residue);
    assert(le32_at(frame, 0) == le32_at(le32_bytes(CSW_SIGNATURE), 0));
    assert(le32_at(frame, 4) == le32_at(le32_bytes(csw.tag), 0));
    assert(le32_at(frame, 8) == le32_at(le32_bytes(csw.data_residue), 0));
}

impl CommandStatusWrapper {
    /// Writes the wrapper out in its 13 bytes.
    pub fn to_le_bytes(&self) -> (bytes: [u8; 13])
        ensures
            bytes@ == encode_csw(*self),
    {
        let mut bytes = [0u8; 13];
        write_le32(&mut bytes, 0, CSW_SIGNATURE);
        write_le32(&mut bytes, 4, self.tag);
        write_le32(&mut bytes, 8, self.data_residue);
        bytes[12] = self.status.to_code();
        assert(bytes@ =~= encode_csw(*self));
        bytes
    }

    /// Reads a wrapper from its 13 bytes.
    pub fn from_le_bytes(bytes: &[u8]) -> (res: Option<CommandStatusWrapper>)
        ensures
            res == decode_csw(bytes@),
    {
        if bytes.len() != CSW_LEN || read_le32(bytes, 0) != CSW_SIGNATURE {
            return None;
        }
        match CommandStatus::from_code(bytes[12]) {
            Some(status) => Some(
                CommandStatusWrapper {
                    tag: read_le32(bytes, 4),
                    data_residue: read_le32(bytes, 8),
                    status,
                },
            ),
            None => None,
        }
    }
}

} // verus!
