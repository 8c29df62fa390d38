//! A session with one adapter over a transport.
use vstd::prelude::*;

use crate::constants::{INIT_COMMAND, REFRESH_POLLS, RUMBLE_COMMAND};
use crate::parsing::{
    blank_is_disconnected, port_decoded, port_start, Controller, Packet, CONTROLLER_INFO_MARKER,
    FRAME_LEN,
};
use crate::usb::AdapterHardware;

verus! {

/// The rumble command for the four ports: the command byte, then 1 or 0 per
/// port.
pub open spec fn rumble_bytes(ports: [bool; 4]) -> Seq<u8> {
    seq![
        RUMBLE_COMMAND,
        if ports[0] { 1u8 } else { 0u8 },
        if ports[1] { 1u8 } else { 0u8 },
        if ports[2] { 1u8 } else { 0u8 },
        if ports[3] { 1u8 } else { 0u8 },
    ]
}

/// Builds the rumble command for the four ports.
pub fn rumble_command(ports: [bool; 4]) -> (r: [u8; 5])
    ensures
        r@ == rumble_bytes(ports),
{
    let r = [
        RUMBLE_COMMAND,
        if ports[0] { 1u8 } else { 0u8 },
        if ports[1] { 1u8 } else { 0u8 },
        if ports[2] { 1u8 } else { 0u8 },
        if ports[3] { 1u8 } else { 0u8 },
    ];
    assert(r@ =~= rumble_bytes(ports));
    r
}

/// `ports` is what a session reports for the frame `b`: the decoded ports
/// when the frame carries controller state, and four blank, disconnected
/// ports otherwise.
pub open spec fn controllers_of_frame(b: Seq<u8>, ports: [Controller; 4]) -> bool {
    if b[0] == CONTROLLER_INFO_MARKER {
        forall|i: int| 0 <= i < 4 ==> port_decoded(#[trigger] ports[i], b, port_start(i))
    } else {
        forall|i: int| 0 <= i < 4 ==> (#[trigger] ports[i]).is_blank()
    }
}

/// A frame that does not carry controller state reads as four disconnected
/// ports, whatever its other bytes hold.
pub proof fn unmarked_frame_reads_disconnected(b: Seq<u8>, ports: [Controller; 4])
    requires
        b.len() == FRAME_LEN,
        b[0] != CONTROLLER_INFO_MARKER,
        controllers_of_frame(b, ports),
    ensures
        forall|i: int| 0 <= i < 4 ==> !(#[trigger] ports[i]).spec_connected(),
{
    assert forall|i: int| 0 <= i < 4 implies !(#[trigger] ports[i]).spec_connected() by {
        blank_is_disconnected(ports[i]);
    }
}

/// The ports that a session reports for a packet.
pub fn controllers_of_packet(packet: Packet) -> (r: [Controller; 4])
    ensures
        packet matches Packet::ControllerInfo { ports } ==> r == ports,
        packet is Unknown ==> forall|i: int| 0 <= i < 4 ==> (#[trigger] r[i]).is_blank(),
{
    match packet {
        Packet::ControllerInfo { ports } => ports,
        Packet::Unknown(_) => {
            let d = Controller::default();
            [d, d, d, d]
        },
    }
}

/// One call that a session made on its transport, with what came back.
pub enum TransportCall<E> {
    /// A command handed to `write_interrupt`.
    Write { data: Seq<u8>, result: Result<(), E> },
    /// A `read_interrupt` into a buffer of `len` bytes, which held `data`
    /// afterwards.
    Read { len: nat, data: Seq<u8>, result: Result<(), E> },
}

impl<E> TransportCall<E> {
    /// What the transport returned for this call.
    pub open spec fn result(self) -> Result<(), E> {
        match self {
            TransportCall::Write { result, .. } => result,
            TransportCall::Read { result, .. } => result,
        }
    }

    /// A read of one whole frame.
    pub open spec fn is_frame_read(self) -> bool {
        self matches TransportCall::Read { len, data, .. } && len == FRAME_LEN && data.len()
            == FRAME_LEN
    }
}

/// The calls that setting rumble for `ports` appends to the log `before`,
/// giving `after`: the rumble command, then, only if it was sent, one read
/// of the acknowledgement frame.
pub open spec fn rumble_exchange<E>(
    before: Seq<TransportCall<E>>,
    after: Seq<TransportCall<E>>,
    ports: [bool; 4],
) -> bool {
    &&& after.len() > before.len()
    &&& after.take(before.len() as int) == before
    &&& after[before.len() as int] matches TransportCall::Write { data, .. } && data == rumble_bytes(
        ports,
    )
    &&& if after[before.len() as int].result() is Ok {
        after.len() == before.len() + 2 && after.last().is_frame_read()
    } else {
        after.len() == before.len() + 1
    }
}

/// A connection to an adapter. End it with [`GcAdapter::close`], which turns
/// all rumble off.
pub struct GcAdapter<T: AdapterHardware> {
    usb: T,
    log: Ghost<Seq<TransportCall<T::Error>>>,
}

impl<T: AdapterHardware> GcAdapter<T> {
    /// The calls made on the transport so far, oldest first.
    pub closed spec fn log(&self) -> Seq<TransportCall<T::Error>> {
        self.log@
    }

    /// Starts a session: sends the initialization command once. A failed
    /// send gives the transport back with its error.
    pub fn new(usb: T) -> (r: Result<Self, (T, T::Error)>)
        ensures
            r matches Ok(a) ==> a.log() == seq![
                TransportCall::<T::Error>::Write { data: seq![INIT_COMMAND], result: Ok(()) },
            ],
    {
        let mut usb = usb;
        let init = [INIT_COMMAND];
        proof {
            assert(init@ =~= seq![INIT_COMMAND]);
        }
        match usb.write_interrupt(&init) {
            Ok(()) => {
                let ghost log = seq![
                    TransportCall::<T::Error>::Write { data: init@, result: Ok(()) },
                ];
                Ok(GcAdapter { usb, log: Ghost(log) })
            },
            Err(e) => Err((usb, e)),
        }
    }

    /// Sends one command and logs the call.
    fn send(&mut self, data: &[u8]) -> (r: Result<(), T::Error>)
        ensures
            final(self).log() == old(self).log().push(
                TransportCall::Write { data: data@, result: r },
            ),
    {
        let r = self.usb.write_interrupt(data);
        proof {
            self.log@ = self.log@.push(TransportCall::Write { data: data@, result: r });
        }
        r
    }

    /// Reads one frame into `buf` and logs the call.
    fn receive(&mut self, buf: &mut [u8; 37]) -> (r: Result<(), T::Error>)
        ensures
            final(self).log() == old(self).log().push(
                TransportCall::Read { len: FRAME_LEN as nat, data: final(buf)@, result: r },
            ),
            final(buf)@.len() == FRAME_LEN,
    {
        let r = self.usb.read_interrupt(buf);
        proof {
            self.log@ = self.log@.push(
                TransportCall::Read { len: FRAME_LEN as nat, data: buf@, result: r },
            );
        }
        r
    }

    /// Sets rumble for all 4 ports at once, then reads and drops the
    /// adapter's acknowledgement frame. A failed transfer ends the call with
    /// the transport's error.
    pub fn set_rumble(&mut self, ports: [bool; 4]) -> (r: Result<(), T::Error>)
        ensures
            rumble_exchange(old(self).log(), final(self).log(), ports),
            r == final(self).log().last().result(),
    {
        let payload = rumble_command(ports);
        match self.send(&payload) {
            Ok(()) => {
                let mut buf = [0u8; 37];
                let r = self.receive(&mut buf);
                assert(self.log().take(old(self).log().len() as int) =~= old(self).log());
                r
            },
            Err(e) => {
                assert(self.log().take(old(self).log().len() as int) =~= old(self).log());
                Err(e)
            },
        }
    }

    /// Reads and drops 10 frames, so that the next read reflects current
    /// input. Stops at the first failed read, with the transport's error.
    pub fn refresh_inputs(&mut self) -> (r: Result<(), T::Error>)
        ensures
            final(self).log().take(old(self).log().len() as int) == old(self).log(),
            old(self).log().len() < final(self).log().len() <= old(self).log().len()
                + REFRESH_POLLS,
            forall|j: int|
                old(self).log().len() <= j < final(self).log().len() ==> (
                #[trigger] final(self).log()[j]).is_frame_read(),
            forall|j: int|
                old(self).log().len() <= j < final(self).log().len() - 1 ==> (
                #[trigger] final(self).log()[j]).result() is Ok,
            r == final(self).log().last().result(),
            r is Ok ==> final(self).log().len() == old(self).log().len() + REFRESH_POLLS,
    {
        let ghost start = self.log();
        let mut i: usize = 0;
        let mut buf = [0u8; 37];
        let mut last = self.receive(&mut buf);
        assert(self.log().take(start.len() as int) =~= start);
        if last.is_err() {
            return last;
        }
        i = i + 1;
        while i < REFRESH_POLLS
            invariant
                1 <= i <= REFRESH_POLLS,
                start == old(self).log(),
                self.log().len() == start.len() + i,
                self.log().take(start.len() as int) == start,
                forall|j: int|
                    start.len() <= j < self.log().len() ==> (#[trigger] self.log()[j]).is_frame_read(),
                forall|j: int|
                    start.len() <= j < self.log().len() ==> (#[trigger] self.log()[j]).result() is Ok,
                last == self.log().last().result(),
            decreases REFRESH_POLLS - i,
        {
            let ghost before = self.log();
            last = self.receive(&mut buf);
            assert(self.log().take(start.len() as int) =~= before.take(start.len() as int));
            assert(forall|j: int| 0 <= j < before.len() ==> self.log()[j] == before[j]);
            if last.is_err() {
                return last;
            }
            i = i + 1;
        }
        last
    }

    /// Reads one frame and reports the four ports it holds; a frame that does
    /// not carry controller state reads as four disconnected ports. A failed
    /// read ends the call with the transport's error.
    pub fn read_controllers(&mut self) -> (r: Result<[Controller; 4], T::Error>)
        ensures
            final(self).log().len() == old(self).log().len() + 1,
            final(self).log().drop_last() == old(self).log(),
            final(self).log().last().is_frame_read() || final(self).log().last().result() is Err,
            final(self).log().last() is Read,
            final(self).log().last()->Read_len == FRAME_LEN,
            r matches Ok(ports) ==> final(self).log().last().is_frame_read() && controllers_of_frame(
                final(self).log().last()->Read_data,
                ports,
            ),
            r matches Err(e) ==> final(self).log().last().result() == Err::<(), T::Error>(e),
    {
        let mut buf = [0u8; 37];
        let res = self.receive(&mut buf);
        assert(self.log().drop_last() =~= old(self).log());
        match res {
            Ok(()) => {
                let packet = Packet::parse(buf);
                Ok(controllers_of_packet(packet))
            },
            Err(e) => Err(e),
        }
    }

    /// Ends the session's use of the rumble motors: turns rumble off on all
    /// ports and reads the acknowledgement. A failure here is ignored, so
    /// that ending a session never fails.
    pub fn close(&mut self)
        ensures
            rumble_exchange(old(self).log(), final(self).log(), [false, false, false, false]),
    {
        let _ = self.set_rumble([false, false, false, false]);
    }
}

} // verus!
