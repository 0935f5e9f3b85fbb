//! The state of a session and its traffic counters.

use vstd::prelude::*;

verus! {

/// The state of a session.
#[derive(Debug, Clone, Copy, PartialEq, Eq, Structural)]
pub enum SessionState {
    Connecting,
    Active,
    Error,
    Closed,
}

impl SessionState {
    /// The number of the state in control messages.
    pub open spec fn proto_number(self) -> i32 {
        match self {
            SessionState::Connecting => 1,
            SessionState::Active => 2,
            SessionState::Error => 3,
            SessionState::Closed => 4,
        }
    }

    /// The state's name.
    pub open spec fn name_text(self) -> Seq<char> {
        match self {
            SessionState::Connecting => "Connecting"@,
            SessionState::Active => "Active"@,
            SessionState::Error => "Error"@,
            SessionState::Closed => "Closed"@,
        }
    }

    /// The number of the state in control messages.
    pub fn to_proto(&self) -> (number: i32)
        ensures
            number == self.proto_number(),
    {
        match self {
            SessionState::Connecting => 1,
            SessionState::Active => 2,
            SessionState::Error => 3,
            SessionState::Closed => 4,
        }
    }

    /// The state's name.
    pub fn name(&self) -> (text: &'static str)
        ensures
            text@ == self.name_text(),
    {
        match self {
            SessionState::Connecting => "Connecting",
            SessionState::Active => "Active",
            SessionState::Error => "Error",
            SessionState::Closed => "Closed",
        }
    }
}

/// Traffic counters. A counter that passes the largest 64-bit number starts again at zero.
#[derive(Debug)]
pub struct TrafficStats {
    packets_received: u64,
    bytes_received: u64,
    packets_sent: u64,
    bytes_sent: u64,
    packets_lost: u64,
}

/// The traffic counters at one moment.
#[derive(Debug, Clone, Copy, PartialEq, Eq, Structural)]
pub struct TrafficStatsSnapshot {
    pub packets_received: u64,
    pub bytes_received: u64,
    pub packets_sent: u64,
    pub bytes_sent: u64,
    pub packets_lost: u64,
}

/// The packet loss rate: the share of received packets that were lost, in percent.
///
/// `Percent` stands for `lost / received * 100`, with `received` not zero.
#[derive(Debug, Clone, Copy, PartialEq, Eq, Structural)]
pub enum PacketLossRate {
    Zero,
    Percent { lost: u64, received: u64 },
}

impl View for TrafficStats {
    type V = TrafficStatsSnapshot;

    closed spec fn view(&self) -> TrafficStatsSnapshot {
        TrafficStatsSnapshot {
            packets_received: self.packets_received,
            bytes_received: self.bytes_received,
            packets_sent: self.packets_sent,
            bytes_sent: self.bytes_sent,
            packets_lost: self.packets_lost,
        }
    }
}

/// `a + b` in 64 bits.
pub open spec fn wrapping_sum(a: u64, b: u64) -> u64 {
    ((a + b) % 0x1_0000_0000_0000_0000) as u64
}

impl TrafficStatsSnapshot {
    /// All counters at zero.
    pub open spec fn zero() -> TrafficStatsSnapshot {
        TrafficStatsSnapshot {
            packets_received: 0,
            bytes_received: 0,
            packets_sent: 0,
            bytes_sent: 0,
            packets_lost: 0,
        }
    }

    /// The counters after one more packet of `bytes` bytes was received.
    pub open spec fn after_received(self, bytes: u64) -> TrafficStatsSnapshot {
        TrafficStatsSnapshot {
            packets_received: wrapping_sum(self.packets_received, 1),
            bytes_received: wrapping_sum(self.bytes_received, bytes),
            ..self
        }
    }

    /// The counters after one more packet of `bytes` bytes was sent.
    pub open spec fn after_sent(self, bytes: u64) -> TrafficStatsSnapshot {
        TrafficStatsSnapshot {
            packets_sent: wrapping_sum(self.packets_sent, 1),
            bytes_sent: wrapping_sum(self.bytes_sent, bytes),
            ..self
        }
    }

    /// The counters after one more packet was lost.
    pub open spec fn after_lost(self) -> TrafficStatsSnapshot {
        TrafficStatsSnapshot { packets_lost: wrapping_sum(self.packets_lost, 1), ..self }
    }

    /// The packet loss rate that these counters give.
    pub open spec fn loss_rate(self) -> PacketLossRate {
        if self.packets_received == 0 {
            PacketLossRate::Zero
        } else {
            PacketLossRate::Percent { lost: self.packets_lost, received: self.packets_received }
        }
    }

    /// The packet loss rate: zero as long as nothing was received.
    pub fn packet_loss_rate(&self) -> (rate: PacketLossRate)
        ensures
            rate == self.loss_rate(),
    {
        if self.packets_received == 0 {
            PacketLossRate::Zero
        } else {
            PacketLossRate::Percent { lost: self.packets_lost, received: self.packets_received }
        }
    }
}

impl TrafficStats {
    /// Counters at zero.
    pub fn new() -> (stats: TrafficStats)
        ensures
            stats@ == TrafficStatsSnapshot::zero(),
    {
        TrafficStats {
            packets_received: 0,
            bytes_received: 0,
            packets_sent: 0,
            bytes_sent: 0,
            packets_lost: 0,
        }
    }

    /// Counts a received packet of `bytes` bytes.
    pub fn record_received(&mut self, bytes: u64)
        ensures
            final(self)@ == old(self)@.after_received(bytes),
    {
        self.packets_received = self.packets_received.wrapping_add(1);
        self.bytes_received = self.bytes_received.wrapping_add(bytes);
    }

    /// Counts a sent packet of `bytes` bytes.
    pub fn record_sent(&mut self, bytes: u64)
        ensures
            final(self)@ == old(self)@.after_sent(bytes),
    {
        self.packets_sent = self.packets_sent.wrapping_add(1);
        self.bytes_sent = self.bytes_sent.wrapping_add(bytes);
    }

    /// Counts a lost packet.
    pub fn record_lost(&mut self)
        ensures
            final(self)@ == old(self)@.after_lost(),
    {
        self.packets_lost = self.packets_lost.wrapping_add(1);
    }

    /// The counters as they are now.
    pub fn get_snapshot(&self) -> (snapshot: TrafficStatsSnapshot)
        ensures
            snapshot == self@,
    {
        TrafficStatsSnapshot {
            packets_received: self.packets_received,
            bytes_received: self.bytes_received,
            packets_sent: self.packets_sent,
            bytes_sent: self.bytes_sent,
            packets_lost: self.packets_lost,
        }
    }
}

} // verus!
