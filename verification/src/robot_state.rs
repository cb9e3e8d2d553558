//! The basestation's buffers of commands to send to the robots and of feedback
//! received from them.
use vstd::prelude::*;
use crate::definitions::{BasestationToRobot, RobotToBasestation};
use crate::converter::{
    FirmwareVersion, FromBasestationPacket, ToBasestationPacket, parse_base_station_to_server,
    parse_server_to_base_station, spec_parse_base_station_to_server,
    spec_parse_server_to_base_station,
};

verus! {

/// Number of robots per team; robot ids are below this.
pub const NUM_ROBOTS: usize = 16;

/// Feedback of all robots that answered, sent to the server.
pub struct FromBasestationWrapper {
    pub packets: Vec<FromBasestationPacket>,
    pub error_code: u32,
    pub firmware_version: Option<FirmwareVersion>,
    pub seq_id: u32,
}

/// Per-robot buffers of the basestation.
pub struct RobotState {
    feedback_seq_id: u32,
    pub send_buffer: [Option<BasestationToRobot>; 16],
    pub receive_buffer: [Option<(RobotToBasestation, i32, u32)>; 16],
}

/// The send buffer after the server's packets `ps` were applied in order: a packet
/// that converts replaces the entry of its robot id, if that id is below sixteen.
pub open spec fn apply_packets(
    buf: Seq<Option<BasestationToRobot>>,
    ps: Seq<ToBasestationPacket>,
) -> Seq<Option<BasestationToRobot>>
    decreases ps.len(),
{
    if ps.len() == 0 {
        buf
    } else {
        let prev = apply_packets(buf, ps.drop_last());
        match spec_parse_server_to_base_station(ps.last()) {
            Some(p) => if p.id < 16 { prev.update(p.id as int, Some(p)) } else { prev },
            None => prev,
        }
    }
}

/// The server feedback for the filled entries of a receive buffer, in order.
pub open spec fn collect_feedback(
    buf: Seq<Option<(RobotToBasestation, i32, u32)>>,
) -> Seq<FromBasestationPacket>
    decreases buf.len(),
{
    if buf.len() == 0 {
        Seq::empty()
    } else {
        let prev = collect_feedback(buf.drop_last());
        match buf.last() {
            Some((p, rssi, rtt)) => prev.push(spec_parse_base_station_to_server(p, rssi, rtt)),
            None => prev,
        }
    }
}

/// The filled entries of a send buffer, in order.
pub open spec fn collect_pending(buf: Seq<Option<BasestationToRobot>>) -> Seq<BasestationToRobot>
    decreases buf.len(),
{
    if buf.len() == 0 {
        Seq::empty()
    } else {
        let prev = collect_pending(buf.drop_last());
        match buf.last() {
            Some(p) => prev.push(p),
            None => prev,
        }
    }
}

/// Whether some entry of a buffer is filled.
pub open spec fn any_filled<T>(buf: Seq<Option<T>>) -> bool {
    exists|i: int| 0 <= i < buf.len() && buf[i] is Some
}

/// Whether every entry of a buffer is empty.
pub open spec fn all_empty<T>(buf: Seq<Option<T>>) -> bool {
    forall|i: int| 0 <= i < buf.len() ==> buf[i] is None
}

impl Default for RobotState {
    fn default() -> (r: Self)
        ensures
            r.seq_id() == 0,
            all_empty(r.sends()),
            all_empty(r.feedback()),
    {
        RobotState { feedback_seq_id: 0, send_buffer: [None; 16], receive_buffer: [None; 16] }
    }
}

impl RobotState {
    /// Sequence number of the last feedback packet created.
    pub closed spec fn seq_id(&self) -> u32 {
        self.feedback_seq_id
    }

    /// Contents of the send buffer (`send_buffer`), indexed by robot id. Closed: the
    /// struct has a private field, and an open function could not read its fields.
    pub closed spec fn sends(&self) -> Seq<Option<BasestationToRobot>> {
        self.send_buffer@
    }

    /// Contents of the receive buffer (`receive_buffer`), indexed by robot id.
    pub closed spec fn feedback(&self) -> Seq<Option<(RobotToBasestation, i32, u32)>> {
        self.receive_buffer@
    }

    /// Stores the convertible server packets in the send buffer, by robot id;
    /// packets that do not convert or name an id of sixteen or more are dropped.
    pub fn update_from_network(&mut self, packets: Vec<ToBasestationPacket>)
        ensures
            final(self).sends() == apply_packets(old(self).sends(), packets@),
            final(self).feedback() == old(self).feedback(),
            final(self).seq_id() == old(self).seq_id(),
    {
        let n = packets.len();
        let mut i: usize = 0;
        while i < n
            invariant
                n == packets@.len(),
                i <= n,
                self.send_buffer@ == apply_packets(old(self).send_buffer@, packets@.take(i as int)),
                self.receive_buffer == old(self).receive_buffer,
                self.feedback_seq_id == old(self).feedback_seq_id,
            decreases n - i,
        {
            proof {
                assert(packets@.take(i + 1).drop_last() =~= packets@.take(i as int));
            }
            if let Some(parsed_packet) = parse_server_to_base_station(packets[i]) {
                if parsed_packet.id < 16 {
                    self.send_buffer[parsed_packet.id as usize] = Some(parsed_packet);
                }
            }
            i += 1;
        }
        proof {
            assert(packets@.take(n as int) =~= packets@);
        }
    }

    /// Converts all buffered robot feedback into one server packet and empties the
    /// receive buffer. The sequence number advances (wrapping) on every call; the
    /// packet is returned only if some feedback was buffered.
    pub fn create_network_packet(&mut self) -> (r: Option<FromBasestationWrapper>)
        ensures
            final(self).seq_id() == old(self).seq_id().wrapping_add(1),
            all_empty(final(self).feedback()),
            final(self).sends() == old(self).sends(),
            r is Some <==> any_filled(old(self).feedback()),
            r matches Some(w) ==> {
                &&& w.packets@ == collect_feedback(old(self).feedback())
                &&& w.error_code == 0
                &&& w.firmware_version == Some(FirmwareVersion { major: 0, minor: 0, patch: 0 })
                &&& w.seq_id == final(self).seq_id()
            },
    {
        let mut packets: Vec<FromBasestationPacket> = Vec::new();
        let mut any_feedback = false;
        let ghost old_buf = self.receive_buffer@;
        let mut i: usize = 0;
        while i < 16
            invariant
                i <= 16,
                old_buf == old(self).receive_buffer@,
                self.receive_buffer@.len() == 16,
                self.send_buffer == old(self).send_buffer,
                self.feedback_seq_id == old(self).feedback_seq_id,
                packets@ == collect_feedback(old_buf.take(i as int)),
                any_feedback <==> any_filled(old_buf.take(i as int)),
                forall|j: int| 0 <= j < i ==> self.receive_buffer@[j] is None,
                forall|j: int| i <= j < 16 ==> self.receive_buffer@[j] == old_buf[j],
            decreases 16 - i,
        {
            proof {
                assert(old_buf.take(i + 1).drop_last() =~= old_buf.take(i as int));
            }
            let entry = self.receive_buffer[i];
            self.receive_buffer[i] = None;
            match entry {
                Some((packet, rssi, rtt)) => {
                    packets.push(parse_base_station_to_server(packet, rssi, rtt));
                    any_feedback = true;
                    proof {
                        assert(old_buf.take(i + 1)[i as int] is Some);
                    }
                },
                None => {
                    proof {
                        if any_filled(old_buf.take(i + 1)) {
                            let k = choose|k: int| 0 <= k < i + 1 && #[trigger] old_buf.take(i + 1)[k] is Some;
                            assert(old_buf.take(i as int)[k] is Some);
                        }
                    }
                },
            }
            i += 1;
        }
        proof {
            assert(old_buf.take(16) =~= old_buf);
        }

        self.feedback_seq_id = self.feedback_seq_id.wrapping_add(1);

        if any_feedback {
            Some(FromBasestationWrapper {
                packets,
                error_code: 0,
                firmware_version: Some(FirmwareVersion { major: 0, minor: 0, patch: 0 }),
                seq_id: self.feedback_seq_id,
            })
        } else {
            None
        }
    }

    /// Takes every buffered command, in robot-id order, leaving the send buffer empty.
    /// Each command is sent over the radio once.
    pub fn take_pending_packets(&mut self) -> (r: Vec<BasestationToRobot>)
        ensures
            r@ == collect_pending(old(self).sends()),
            all_empty(final(self).sends()),
            final(self).feedback() == old(self).feedback(),
            final(self).seq_id() == old(self).seq_id(),
    {
        let mut pending: Vec<BasestationToRobot> = Vec::new();
        let ghost old_buf = self.send_buffer@;
        let mut i: usize = 0;
        while i < 16
            invariant
                i <= 16,
                old_buf == old(self).send_buffer@,
                self.send_buffer@.len() == 16,
                self.receive_buffer == old(self).receive_buffer,
                self.feedback_seq_id == old(self).feedback_seq_id,
                pending@ == collect_pending(old_buf.take(i as int)),
                forall|j: int| 0 <= j < i ==> self.send_buffer@[j] is None,
                forall|j: int| i <= j < 16 ==> self.send_buffer@[j] == old_buf[j],
            decreases 16 - i,
        {
            proof {
                assert(old_buf.take(i + 1).drop_last() =~= old_buf.take(i as int));
            }
            let entry = self.send_buffer[i];
            self.send_buffer[i] = None;
            if let Some(packet) = entry {
                pending.push(packet);
            }
            i += 1;
        }
        proof {
            assert(old_buf.take(16) =~= old_buf);
        }
        pending
    }

    /// Stores a robot's radio feedback with its signal strength and round-trip time,
    /// if its id names one of the sixteen robots; returns whether it was stored.
    pub fn store_feedback(&mut self, packet: RobotToBasestation, rssi: i32, rtt: u32) -> (stored: bool)
        ensures
            stored == (packet.id < 16),
            stored ==> final(self).feedback() == old(self).feedback().update(
                packet.id as int,
                Some((packet, rssi, rtt)),
            ),
            !stored ==> final(self).feedback() == old(self).feedback(),
            final(self).sends() == old(self).sends(),
            final(self).seq_id() == old(self).seq_id(),
    {
        if packet.id < 16 {
            self.receive_buffer[packet.id as usize] = Some((packet, rssi, rtt));
            true
        } else {
            false
        }
    }
}

} // verus!
