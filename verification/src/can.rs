//! Bus frames and the transport that carries them.

use vstd::prelude::*;

verus! {

/// A fault of the bus driver or of the link to the bus.
#[derive(Debug, Clone, Copy, PartialEq, Eq, Structural)]
pub enum CANError {
    ComErr,
}

/// The number of payload bytes a frame can carry.
pub const MAX_PAYLOAD: usize = 8;

/// Driver flag of a frame with an 11-bit identifier.
pub const FLAG_STANDARD: u32 = 0x2;

/// Driver flag of a frame with a 29-bit identifier.
pub const FLAG_EXTENDED: u32 = 0x4;

/// Identifier of the frame that the mock transport hands out.
pub const MOCK_FRAME_ID: u32 = 0x200;

/// Payload of the frame that the mock transport hands out.
pub open spec fn mock_payload() -> Seq<u8> {
    seq![1u8, 2u8, 3u8, 4u8]
}

/// The declared length of a frame built from `n` input bytes.
pub open spec fn frame_length(n: nat) -> nat {
    if n < 8 {
        n
    } else {
        8
    }
}

/// The eight data bytes of a frame built from `input`: the input's first
/// bytes in order, then zeros.
pub open spec fn frame_bytes(input: Seq<u8>) -> Seq<u8> {
    Seq::new(
        8,
        |i: int|
            if i < input.len() {
                input[i]
            } else {
                0u8
            },
    )
}

/// One message on the bus.
#[derive(Debug, Clone, Copy, PartialEq, Eq)]
pub struct CANMessage {
    pub id: u32,
    pub data: [u8; 8],
    pub dlc: u8,
    pub is_extended: bool,
}

impl CANMessage {
    /// The bytes the frame declares: the first `dlc` of its data bytes.
    pub open spec fn payload(self) -> Seq<u8> {
        self.data@.take(self.dlc as int)
    }

    /// The declared length fits the data and the bytes past it are zero.
    pub open spec fn well_formed(self) -> bool {
        &&& self.dlc <= 8
        &&& forall|i: int| self.dlc <= i < 8 ==> self.data@[i] == 0
    }

    /// This frame is the one that `id`, `input` and `is_extended` determine.
    pub open spec fn built_from(self, id: u32, input: Seq<u8>, is_extended: bool) -> bool {
        &&& self.id == id
        &&& self.is_extended == is_extended
        &&& self.dlc == frame_length(input.len())
        &&& self.data@ =~= frame_bytes(input)
    }

    /// Builds a frame from up to eight payload bytes. Input past the eighth
    /// byte is dropped without an error.
    pub fn new(id: u32, data: &[u8], is_extended: bool) -> (msg: Self)
        ensures
            msg.built_from(id, data@, is_extended),
            msg.well_formed(),
            data@.len() <= 8 ==> msg.dlc == data@.len() && msg.payload() == data@,
            data@.len() > 8 ==> msg.dlc == 8 && msg.payload() == data@.take(8),
    {
        let mut d = [0u8;8];
        let n: usize = if data.len() >= MAX_PAYLOAD {
            MAX_PAYLOAD
        } else {
            data.len()
        };
        let mut i: usize = 0;
        while i < n
            invariant
                i <= n,
                n <= 8,
                n <= data@.len(),
                forall|j: int| 0 <= j < i ==> d@[j] == data@[j],
                forall|j: int| i <= j < 8 ==> d@[j] == 0,
            decreases n - i,
        {
            d[i] = data[i];
            i += 1;
        }
        CANMessage { id, data: d, dlc: n as u8, is_extended }
    }

    /// The flag word a driver takes with this frame on a write.
    pub fn driver_flags(&self) -> (flags: u32)
        ensures
            flags == if self.is_extended {
                FLAG_EXTENDED
            } else {
                FLAG_STANDARD
            },
    {
        if self.is_extended {
            FLAG_EXTENDED
        } else {
            FLAG_STANDARD
        }
    }
}

/// How a driver's non-blocking receive call ended.
#[derive(Debug)]
pub enum DriverRead {
    /// A frame was waiting: its identifier and the bytes of its buffer.
    Frame { id: u32, data: Vec<u8> },
    /// Nothing was waiting.
    NoMessage,
    /// The driver reported anything else.
    Fault,
}

/// What a transport's `read` returns for the way the driver's call ended:
/// an empty bus is no error.
pub fn from_driver_read(outcome: DriverRead) -> (r: Result<Option<CANMessage>, CANError>)
    ensures
        match outcome {
            DriverRead::Frame { id, data } => r matches Ok(Some(msg)) && msg.built_from(
                id,
                data@,
                false,
            ),
            DriverRead::NoMessage => r matches Ok(None),
            DriverRead::Fault => r matches Err(CANError::ComErr),
        },
{
    match outcome {
        DriverRead::Frame { id, data } => Ok(Some(CANMessage::new(id, data.as_slice(), false))),
        DriverRead::NoMessage => Ok(None),
        DriverRead::Fault => Err(CANError::ComErr),
    }
}

/// Access to the bus. Neither call blocks.
pub trait CANHandle: Send + Sync {
    /// Hands one frame to the bus.
    fn write(&self, msg: &CANMessage) -> Result<(), CANError>
        requires
            msg.well_formed(),
    ;

    /// Takes one frame from the bus, or `None` when none is waiting.
    fn read(&self) -> Result<Option<CANMessage>, CANError>;
}

/// A transport without hardware: every write succeeds and every read
/// returns the same frame.
pub struct MockHandle {}

impl MockHandle {
    /// Opens the mock, whatever the device number.
    pub fn open(_dev: i32) -> (r: Result<Self, CANError>)
        ensures
            r is Ok,
    {
        Ok(Self {  })
    }
}

impl CANHandle for MockHandle {
    fn write(&self, _msg: &CANMessage) -> (r: Result<(), CANError>)
        ensures
            r is Ok,
    {
        Ok(())
    }

    fn read(&self) -> (r: Result<Option<CANMessage>, CANError>)
        ensures
            r matches Ok(Some(msg)) && msg.built_from(MOCK_FRAME_ID, mock_payload(), false),
    {
        let bytes: [u8; 4] = [1, 2, 3, 4];
        proof {
            assert(bytes@ =~= mock_payload());
        }
        Ok(Some(CANMessage::new(MOCK_FRAME_ID, bytes.as_slice(), false)))
    }
}

} // verus!
