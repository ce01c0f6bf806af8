//! The controller of the rig: it latches the client's commands, sends
//! them to the bus as a command word and takes the servos' angles from
//! the telemetry frames it reads.

use crate::can::{CANError, CANHandle, CANMessage};
use crate::protocol::ControllerInput;
use vstd::prelude::*;

verus! {

/// Servo `i` reports its angle in frames with the identifier `SERVO_BASE + i`.
pub const SERVO_BASE: u32 = 0x200;

/// Identifier of the frame that carries the command word.
pub const COMMAND_ID: u32 = 0x200;

/// What the controller knows of one servo.
#[derive(Debug, Clone, Copy, PartialEq, Eq, Structural)]
pub struct ServoState {
    pub id: u8,
    pub angle: u8,
    pub up_pressed: bool,
    pub down_pressed: bool,
}

impl ServoState {
    /// The servo `id` at rest: angle 0 and no latch set.
    pub fn new(id: u8) -> (s: Self)
        ensures
            s == (ServoState { id, angle: 0, up_pressed: false, down_pressed: false }),
    {
        Self { id, angle: 0, up_pressed: false, down_pressed: false }
    }
}

impl Default for ServoState {
    fn default() -> (s: Self)
        ensures
            s == (ServoState { id: 0, angle: 0, up_pressed: false, down_pressed: false }),
    {
        Self { id: 0, angle: 0, up_pressed: false, down_pressed: false }
    }
}

/// Why a tick of the controller failed.
#[derive(Debug, Clone, Copy, PartialEq, Eq, Structural)]
pub enum ControllerError {
    /// A telemetry frame declared no payload.
    InvalidMessage,
    /// The transport failed on a read or a write.
    ComError,
}

/// The servo states of a fresh controller of `count` servos.
pub open spec fn initial_servos(count: nat) -> Seq<ServoState> {
    Seq::new(
        count,
        |i: int| ServoState { id: (i % 256) as u8, angle: 0, up_pressed: false, down_pressed: false },
    )
}

/// Every servo's identifier is its index, as far as a byte holds it.
pub open spec fn ids_follow_index(servos: Seq<ServoState>) -> bool {
    forall|i: int| 0 <= i < servos.len() ==> (#[trigger] servos[i]).id == i % 256
}

/// `servos` after `command`: axis 0 latches `up` and `down`, axis 1 latches
/// `left` and `right`, and nothing else changes.
pub open spec fn with_command(servos: Seq<ServoState>, command: ControllerInput) -> Seq<
    ServoState,
> {
    Seq::new(
        servos.len(),
        |i: int|
            if i == 0 {
                ServoState { up_pressed: command.up, down_pressed: command.down, ..servos[i] }
            } else if i == 1 {
                ServoState { up_pressed: command.left, down_pressed: command.right, ..servos[i] }
            } else {
                servos[i]
            },
    )
}

/// The servo that a telemetry frame with the identifier `id` reports on,
/// among `count` servos.
pub open spec fn addressed_servo(id: u32, count: nat) -> Option<int> {
    if SERVO_BASE <= id && id - SERVO_BASE < count {
        Some(id - SERVO_BASE)
    } else {
        None
    }
}

/// `servos` after the telemetry frame `msg`: the servo it addresses, if
/// any, takes the frame's first byte as its angle.
pub open spec fn with_telemetry(servos: Seq<ServoState>, msg: CANMessage) -> Seq<ServoState> {
    match addressed_servo(msg.id, servos.len()) {
        Some(i) => servos.update(i, ServoState { angle: msg.data@[0], ..servos[i] }),
        None => servos,
    }
}

/// The two command bits of one axis: 1 for up, 2 for down, up first.
pub open spec fn axis_bits(servos: Seq<ServoState>, axis: int) -> int {
    if 0 <= axis < servos.len() {
        if servos[axis].up_pressed {
            1
        } else if servos[axis].down_pressed {
            2
        } else {
            0
        }
    } else {
        0
    }
}

/// The command word: axis 0 in bits 0 and 1, axis 1 in bits 2 and 3.
pub open spec fn command_word(servos: Seq<ServoState>) -> int {
    axis_bits(servos, 0) + 4 * axis_bits(servos, 1)
}

/// The command word bit by bit: bit 0 is up on axis 0, bit 1 is down on
/// axis 0 unless up is pressed too, bits 2 and 3 are the same for axis 1,
/// and no other bit is set.
pub proof fn lemma_command_word_bits(servos: Seq<ServoState>)
    ensures
        0 <= command_word(servos) < 16,
        (command_word(servos) as u16) & 0x1 != 0 <==> servos.len() > 0 && servos[0].up_pressed,
        (command_word(servos) as u16) & 0x2 != 0 <==> servos.len() > 0 && !servos[0].up_pressed
            && servos[0].down_pressed,
        (command_word(servos) as u16) & 0x4 != 0 <==> servos.len() > 1 && servos[1].up_pressed,
        (command_word(servos) as u16) & 0x8 != 0 <==> servos.len() > 1 && !servos[1].up_pressed
            && servos[1].down_pressed,
{
    let low = axis_bits(servos, 0) as u16;
    let high = axis_bits(servos, 1) as u16;
    let word = command_word(servos) as u16;
    assert(low <= 2 && high <= 2 && word == low + 4 * high ==> (word & 0x1 != 0 <==> low == 1) && (
    word & 0x2 != 0 <==> low == 2) && (word & 0x4 != 0 <==> high == 1) && (word & 0x8 != 0 <==> high
        == 2)) by (bit_vector);
}

/// The two bytes of `word`, low byte first.
pub open spec fn le_bytes(word: int) -> Seq<u8> {
    seq![(word % 256) as u8, (word / 256) as u8]
}

/// How the write of a tick ended, as the controller reports it.
pub open spec fn reported(wr: Result<(), CANError>) -> Result<(), ControllerError> {
    match wr {
        Ok(_) => Ok(()),
        Err(_) => Err(ControllerError::ComError),
    }
}

/// The servo states after the read phase of a tick that read `rd`, and
/// how the phase ended: with `ComError` the tick is over, with
/// `InvalidMessage` it goes on to its write and fails at its end.
pub open spec fn after_read(servos: Seq<ServoState>, rd: Result<Option<CANMessage>, CANError>) -> (
    Seq<ServoState>,
    Result<(), ControllerError>,
) {
    match rd {
        Err(_) => (servos, Err(ControllerError::ComError)),
        Ok(None) => (servos, Ok(())),
        Ok(Some(msg)) => if msg.dlc < 1 {
            (servos, Err(ControllerError::InvalidMessage))
        } else {
            (with_telemetry(servos, msg), Ok(()))
        },
    }
}

/// One tick on `servos`, where the read ended as `rd` and the write, if
/// the tick came to it, as `wr`: the states after it and its result. A
/// fault of the read phase is the tick's result whatever the write did.
pub open spec fn tick(
    servos: Seq<ServoState>,
    rd: Result<Option<CANMessage>, CANError>,
    wr: Result<(), CANError>,
) -> (Seq<ServoState>, Result<(), ControllerError>) {
    let (next, read_phase) = after_read(servos, rd);
    match read_phase {
        Ok(_) => (next, reported(wr)),
        Err(e) => (next, Err(e)),
    }
}

/// A tick can take `before` to `after` with the result `r`.
pub open spec fn tick_yields(
    before: Seq<ServoState>,
    after: Seq<ServoState>,
    r: Result<(), ControllerError>,
) -> bool {
    exists|rd: Result<Option<CANMessage>, CANError>, wr: Result<(), CANError>|
        #[trigger] tick(before, rd, wr) == (after, r)
}

/// `after` has the servos of `before` with at most one angle changed.
pub open spec fn one_angle_apart(before: Seq<ServoState>, after: Seq<ServoState>) -> bool {
    &&& after.len() == before.len()
    &&& forall|i: int|
        0 <= i < before.len() ==> #[trigger] after[i] == (ServoState {
            angle: after[i].angle,
            ..before[i]
        })
    &&& forall|i: int, j: int|
        0 <= i < before.len() && 0 <= j < before.len() && (#[trigger] after[i]).angle
            != before[i].angle && (#[trigger] after[j]).angle != before[j].angle ==> i == j
}

/// Whatever the transport did, a tick changes at most one angle and
/// nothing else, and a tick that reports `InvalidMessage` changes nothing.
pub proof fn lemma_tick_moves_one_angle(
    before: Seq<ServoState>,
    after: Seq<ServoState>,
    r: Result<(), ControllerError>,
)
    requires
        tick_yields(before, after, r),
    ensures
        one_angle_apart(before, after),
        r matches Err(ControllerError::InvalidMessage) ==> after == before,
{
    let (rd, wr) = choose|rd: Result<Option<CANMessage>, CANError>, wr: Result<(), CANError>|
        #[trigger] tick(before, rd, wr) == (after, r);
    assert(tick(before, rd, wr) == (after, r));
}

/// Applying a command twice leaves the servos as applying it once does.
pub proof fn lemma_command_idempotent(servos: Seq<ServoState>, command: ControllerInput)
    ensures
        with_command(with_command(servos, command), command) == with_command(servos, command),
{
}

/// A tick changes no servo but the one that the telemetry frame
/// addresses: servo `i` stays as it was unless a frame was read whose
/// identifier is `SERVO_BASE + i`. The number of servos never changes.
pub proof fn lemma_tick_spares_other_servos(
    servos: Seq<ServoState>,
    rd: Result<Option<CANMessage>, CANError>,
    wr: Result<(), CANError>,
    i: int,
)
    requires
        0 <= i < servos.len(),
        !(rd matches Ok(Some(msg)) && msg.id == SERVO_BASE + i),
    ensures
        tick(servos, rd, wr).0.len() == servos.len(),
        tick(servos, rd, wr).0[i] == servos[i],
{
}

/// A tick changes nothing of a servo but its angle.
pub proof fn lemma_tick_changes_angles_only(
    servos: Seq<ServoState>,
    rd: Result<Option<CANMessage>, CANError>,
    wr: Result<(), CANError>,
    i: int,
)
    requires
        0 <= i < servos.len(),
    ensures
        tick(servos, rd, wr).0[i] == (ServoState {
            angle: tick(servos, rd, wr).0[i].angle,
            ..servos[i]
        }),
{
}

/// A telemetry frame that declares no payload makes the tick fail with
/// `InvalidMessage` and leaves every servo as it was.
pub proof fn lemma_tick_refuses_empty_frame(
    servos: Seq<ServoState>,
    msg: CANMessage,
    wr: Result<(), CANError>,
)
    requires
        msg.dlc == 0,
    ensures
        tick(servos, Ok(Some(msg)), wr).0 == servos,
        tick(servos, Ok(Some(msg)), wr).1 matches Err(ControllerError::InvalidMessage),
{
}

/// Drives a rig of servos over one transport.
pub struct ServoController {
    handle: Box<dyn CANHandle>,
    servos: Vec<ServoState>,
}

impl View for ServoController {
    type V = Seq<ServoState>;

    closed spec fn view(&self) -> Seq<ServoState> {
        self.servos@
    }
}

impl ServoController {
    #[verifier::type_invariant]
    spec fn inv(self) -> bool {
        ids_follow_index(self.servos@)
    }

    /// A controller of `servo_count` servos at rest over `handle`.
    pub fn new(handle: Box<dyn CANHandle>, servo_count: u32) -> (c: Self)
        ensures
            c@ == initial_servos(servo_count as nat),
    {
        let mut servos: Vec<ServoState> = Vec::new();
        let mut i: u32 = 0;
        while i < servo_count
            invariant
                i <= servo_count,
                servos@ == initial_servos(i as nat),
            decreases servo_count - i,
        {
            let id: u8 = #[verifier::truncate] (i as u8);
            assert(id == i % 256) by (bit_vector)
                requires
                    id == i as u8,
            ;
            servos.push(ServoState::new(id));
            i += 1;
        }
        Self { handle, servos }
    }

    /// Latches the intents of `command` on the first two servos. Servos
    /// that the rig does not have are passed over.
    pub fn handle_command(&mut self, command: ControllerInput) -> (r: Result<(), ControllerError>)
        ensures
            r is Ok,
            final(self)@ == with_command(old(self)@, command),
    {
        proof {
            use_type_invariant(&*self);
        }
        let mut servos: Vec<ServoState> = Vec::new();
        std::mem::swap(&mut servos, &mut self.servos);
        if servos.len() > 0 {
            servos[0].up_pressed = command.up;
            servos[0].down_pressed = command.down;
        }
        if servos.len() > 1 {
            servos[1].up_pressed = command.left;
            servos[1].down_pressed = command.right;
        }
        self.servos = servos;
        Ok(())
    }

    /// The read phase of a tick on one telemetry frame: a frame that
    /// declares no payload is refused and changes nothing; any other sets
    /// the angle of the servo it addresses, the first that matches.
    pub fn apply_telemetry(&mut self, msg: &CANMessage) -> (r: Result<(), ControllerError>)
        ensures
            (final(self)@, r) == after_read(old(self)@, Ok(Some(*msg))),
    {
        proof {
            use_type_invariant(&*self);
        }
        if msg.dlc < 1 {
            return Err(ControllerError::InvalidMessage);
        }
        let mut servos: Vec<ServoState> = Vec::new();
        std::mem::swap(&mut servos, &mut self.servos);
        let mut index: usize = 0;
        while index < servos.len()
            invariant_except_break
                index <= servos@.len(),
                servos@ == old(self)@,
                addressed_servo(msg.id, index as nat) is None,
            ensures
                servos@ == with_telemetry(old(self)@, *msg),
            decreases servos@.len() - index,
        {
            if msg.id >= SERVO_BASE && (msg.id - SERVO_BASE) as usize == index {
                servos[index].angle = msg.data[0];
                break ;
            }
            index += 1;
        }
        self.servos = servos;
        Ok(())
    }

    /// The read phase of a tick on what the transport's read returned.
    pub fn apply_read(&mut self, rd: Result<Option<CANMessage>, CANError>) -> (r: Result<
        (),
        ControllerError,
    >)
        ensures
            (final(self)@, r) == after_read(old(self)@, rd),
    {
        match rd {
            Err(_) => Err(ControllerError::ComError),
            Ok(None) => Ok(()),
            Ok(Some(msg)) => self.apply_telemetry(&msg),
        }
    }

    /// The frame that a tick writes: the command word of the current
    /// latches, low byte first, under a standard identifier.
    pub fn command_frame(&self) -> (frame: CANMessage)
        ensures
            frame.built_from(COMMAND_ID, le_bytes(command_word(self@)), false),
    {
        let mut word: u16 = 0;
        if self.servos.len() > 0 {
            if self.servos[0].up_pressed {
                word |= 0x1;
            } else if self.servos[0].down_pressed {
                word |= 0x2;
            }
        }
        assert(word == axis_bits(self@, 0)) by {
            assert(0u16 | 0x1 == 1 && 0u16 | 0x2 == 2) by (bit_vector);
        }
        let ghost low = word;
        if self.servos.len() > 1 {
            if self.servos[1].up_pressed {
                word |= 0x4;
            } else if self.servos[1].down_pressed {
                word |= 0x8;
            }
        }
        assert(word == command_word(self@)) by {
            assert(low <= 2 ==> low | 0x4 == low + 4 && low | 0x8 == low + 8) by (bit_vector);
        }
        let bytes: [u8; 2] = [(word % 256) as u8, (word / 256) as u8];
        assert(bytes@ =~= le_bytes(command_word(self@)));
        CANMessage::new(COMMAND_ID, bytes.as_slice(), false)
    }

    /// One tick. It reads at most one telemetry frame; a failed read ends
    /// the tick at once. A frame that declares no payload is dropped and
    /// the tick goes on, to fail with `InvalidMessage` at its end. The
    /// tick then writes the command frame; a failed write fails it too.
    pub fn update(&mut self) -> (r: Result<(), ControllerError>)
        ensures
            tick_yields(old(self)@, final(self)@, r),
            one_angle_apart(old(self)@, final(self)@),
            r matches Err(ControllerError::InvalidMessage) ==> final(self)@ == old(self)@,
    {
        let rd = self.handle.read();
        let ghost read = rd;
        let read_phase = self.apply_read(rd);
        if let Err(ControllerError::ComError) = read_phase {
            proof {
                assert(tick(old(self)@, read, Ok(())) == (self@, read_phase));
                lemma_tick_moves_one_angle(old(self)@, self@, read_phase);
            }
            return read_phase;
        }
        let frame = self.command_frame();
        let wr = self.handle.write(&frame);
        let r = match (read_phase, wr) {
            (Err(e), _) => Err(e),
            (Ok(_), Err(_)) => Err(ControllerError::ComError),
            (Ok(_), Ok(_)) => Ok(()),
        };
        proof {
            assert(tick(old(self)@, read, wr) == (self@, r));
            lemma_tick_moves_one_angle(old(self)@, self@, r);
        }
        r
    }

    /// The state of every servo, in order.
    pub fn get_servo_state<'a>(&'a self) -> (servos: &'a Vec<ServoState>)
        ensures
            servos@ == self@,
            ids_follow_index(servos@),
    {
        proof {
            use_type_invariant(&*self);
        }
        &self.servos
    }
}

} // verus!
