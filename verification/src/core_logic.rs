//! Building a request, pairing it with a received reply, validating the
//! pair, and computing the clock offset and round-trip delay.

use crate::error::{spec_kiss_code_of, KissCode, ProtocolError, SynchronizationError};
use crate::packet::{
    spec_encode, LeapIndicator, Mode, Packet, ReferenceIdentifier, SntpTimestamp,
};
use crate::result::{SntpDuration, SynchronizationResult};
use crate::wall_clock;
use vstd::prelude::*;

verus! {

/// Half of a value, rounded toward zero: how the offset sum is split in two.
pub open spec fn spec_half_toward_zero(x: int) -> int {
    if x >= 0 {
        x / 2
    } else {
        -((-x) / 2)
    }
}

/// The round-trip delay of an exchange, in fixed-point units, from the four
/// protocol timestamps: `(T4 - T1) - (T3 - T2)`.
pub open spec fn spec_delay_units(t1: int, t2: int, t3: int, t4: int) -> int {
    (t4 - t1) - (t3 - t2)
}

/// The clock offset of an exchange, in fixed-point units, from the four
/// protocol timestamps: `((T2 - T1) + (T3 - T4)) / 2`.
pub open spec fn spec_offset_units(t1: int, t2: int, t3: int, t4: int) -> int {
    spec_half_toward_zero((t2 - t1) + (t3 - t4))
}

/// The validation a reply must pass, in this exact order, so that a
/// Kiss-o'-Death is reported even when other fields are also malformed:
/// stratum 0 is a Kiss-o'-Death carrying the code named by the reply's
/// reference identifier; then the originate timestamp must equal the
/// request's transmit timestamp; then the transmit timestamp must not be
/// the zero sentinel; then the mode must be server or broadcast.
pub open spec fn spec_check(request: Packet, reply: Packet) -> Result<(), ProtocolError> {
    if reply.stratum == 0 {
        Err(ProtocolError::KissODeath(spec_kiss_code_of(reply.reference_identifier)))
    } else if reply.originate_timestamp@ != request.transmit_timestamp@ {
        Err(ProtocolError::InvalidOriginateTimestamp)
    } else if reply.transmit_timestamp@ == 0 {
        Err(ProtocolError::InvalidTransmitTimestamp)
    } else if !(reply.mode matches Mode::Server || reply.mode matches Mode::Broadcast) {
        Err(ProtocolError::InvalidMode)
    } else {
        Ok(())
    }
}

/// What the result of a validated exchange holds: offset and delay computed
/// from T1 = originate (the request's transmit instant as echoed by the
/// server), T2 = receive, T3 = transmit, T4 = local arrival, and the
/// reply's identifying fields copied through.
pub open spec fn spec_sync_result(
    reply: Packet,
    reply_timestamp: SntpTimestamp,
    res: SynchronizationResult,
) -> bool {
    &&& res.spec_clock_offset()@ == spec_offset_units(
        reply.originate_timestamp@,
        reply.receive_timestamp@,
        reply.transmit_timestamp@,
        reply_timestamp@,
    )
    &&& res.spec_round_trip_delay()@ == spec_delay_units(
        reply.originate_timestamp@,
        reply.receive_timestamp@,
        reply.transmit_timestamp@,
        reply_timestamp@,
    )
    &&& res.spec_reference_identifier() == reply.reference_identifier
    &&& res.spec_leap_indicator() == reply.li
    &&& res.spec_stratum() == reply.stratum
}

/// A request that has been (or is about to be) sent: a client-mode packet
/// whose transmit timestamp is its capture instant and whose every other
/// field is empty or zero. It is consumed when paired with a reply; a fresh
/// request must be built for each exchange.
pub struct Request {
    packet: Packet,
}

impl View for Request {
    type V = Packet;

    closed spec fn view(&self) -> Packet {
        self.packet
    }
}

impl Request {
    /// A request packet is always well-formed for encoding: client mode,
    /// stratum 0, empty reference identifier, zero timestamps except the
    /// transmit instant.
    #[verifier::type_invariant]
    closed spec fn wf(self) -> bool {
        &&& self.packet.li == LeapIndicator::NoWarning
        &&& self.packet.mode == Mode::Client
        &&& self.packet.stratum == 0
        &&& self.packet.reference_identifier matches ReferenceIdentifier::Empty
        &&& self.packet.reference_timestamp@ == 0
        &&& self.packet.originate_timestamp@ == 0
        &&& self.packet.receive_timestamp@ == 0
    }

    /// A request stamped with the current wall-clock instant.
    pub fn new() -> (r: Request)
        ensures
            r@.li == LeapIndicator::NoWarning,
            r@.mode == Mode::Client,
            r@.stratum == 0,
            r@.reference_identifier matches ReferenceIdentifier::Empty,
            r@.reference_timestamp@ == 0,
            r@.originate_timestamp@ == 0,
            r@.receive_timestamp@ == 0,
            r@.transmit_timestamp@ > 0,
    {
        Self::new_with_transmit_time(wall_clock::system_time_now())
    }

    /// A request stamped with a caller-supplied transmit instant, so that a
    /// reference time can be injected instead of sampling the clock.
    pub fn new_with_transmit_time(transmit_time: std::time::SystemTime) -> (r: Request)
        ensures
            r@.li == LeapIndicator::NoWarning,
            r@.mode == Mode::Client,
            r@.stratum == 0,
            r@.reference_identifier matches ReferenceIdentifier::Empty,
            r@.reference_timestamp@ == 0,
            r@.originate_timestamp@ == 0,
            r@.receive_timestamp@ == 0,
            r@.transmit_timestamp@ > 0,
    {
        Request {
            packet: Packet {
                li: LeapIndicator::NoWarning,
                mode: Mode::Client,
                stratum: 0,
                reference_identifier: ReferenceIdentifier::Empty,
                reference_timestamp: SntpTimestamp::zero(),
                originate_timestamp: SntpTimestamp::zero(),
                receive_timestamp: SntpTimestamp::zero(),
                transmit_timestamp: SntpTimestamp::from_systemtime(transmit_time),
            },
        }
    }

    /// The 48 wire bytes of this request.
    pub fn as_bytes(&self) -> (r: [u8; 48])
        ensures
            r@ == spec_encode(self@),
    {
        proof {
            use_type_invariant(self);
        }
        self.packet.to_bytes()
    }

    fn into_packet(self) -> (r: Packet)
        ensures
            r == self@,
    {
        self.packet
    }
}

/// A request paired with the reply it drew and the local instant the reply
/// arrived: everything validation and the offset/delay computation need.
pub struct Reply {
    request: Packet,
    reply: Packet,
    reply_timestamp: SntpTimestamp,
}

impl Reply {
    /// The request packet this reply answers.
    pub closed spec fn spec_request(&self) -> Packet {
        self.request
    }

    /// The decoded reply packet.
    pub closed spec fn spec_reply(&self) -> Packet {
        self.reply
    }

    /// The local wall-clock instant the reply arrived (T4).
    pub closed spec fn spec_reply_timestamp(&self) -> SntpTimestamp {
        self.reply_timestamp
    }

    /// Pairs a request with its reply, stamping the arrival with the
    /// current wall-clock instant.
    pub fn new(request: Request, reply: Packet) -> (r: Reply)
        ensures
            r.spec_request() == request@,
            r.spec_reply() == reply,
            r.spec_reply_timestamp()@ > 0,
    {
        Self::new_with_reply_time(request, reply, wall_clock::system_time_now())
    }

    /// Pairs a request with its reply and a caller-supplied arrival instant.
    pub fn new_with_reply_time(request: Request, reply: Packet, reply_time: std::time::SystemTime) -> (r:
        Reply)
        ensures
            r.spec_request() == request@,
            r.spec_reply() == reply,
            r.spec_reply_timestamp()@ > 0,
    {
        Reply {
            request: request.into_packet(),
            reply,
            reply_timestamp: SntpTimestamp::from_systemtime(reply_time),
        }
    }

    fn check(&self) -> (r: Result<(), ProtocolError>)
        ensures
            r == spec_check(self.spec_request(), self.spec_reply()),
    {
        if self.reply.stratum == 0 {
            return Err(
                ProtocolError::KissODeath(KissCode::new(&self.reply.reference_identifier)),
            );
        }
        proof {
            crate::packet::lemma_timestamp_eq(
                self.reply.originate_timestamp,
                self.request.transmit_timestamp,
            );
        }
        if self.reply.originate_timestamp != self.request.transmit_timestamp {
            return Err(ProtocolError::InvalidOriginateTimestamp);
        }
        if self.reply.transmit_timestamp.is_zero() {
            return Err(ProtocolError::InvalidTransmitTimestamp);
        }
        if !(matches!(self.reply.mode, Mode::Server) || matches!(self.reply.mode, Mode::Broadcast)) {
            return Err(ProtocolError::InvalidMode);
        }
        Ok(())
    }

    /// Validates the pair and, when it passes, computes the synchronization
    /// result: the validation fails exactly as `spec_check` says, and a
    /// successful result holds what `spec_sync_result` says.
    pub fn process(self) -> (r: Result<SynchronizationResult, SynchronizationError>)
        ensures
            spec_check(self.spec_request(), self.spec_reply()) matches Err(e) ==> r matches Err(
                SynchronizationError::ProtocolError(pe),
            ) && pe == e,
            spec_check(self.spec_request(), self.spec_reply()) is Ok ==> (r matches Ok(res)
                && spec_sync_result(self.spec_reply(), self.spec_reply_timestamp(), res)),
    {
        match self.check() {
            Err(e) => {
                return Err(SynchronizationError::ProtocolError(e));
            },
            Ok(()) => {},
        }
        let originate_ts: SntpTimestamp = self.reply.originate_timestamp;
        let transmit_ts: SntpTimestamp = self.reply.transmit_timestamp;
        let receive_ts: SntpTimestamp = self.reply.receive_timestamp;
        let d41: SntpDuration = self.reply_timestamp.sub(originate_ts);
        let d32: SntpDuration = transmit_ts.sub(receive_ts);
        let delay_units: i128 = d41.as_fixed_point() - d32.as_fixed_point();
        let d21: SntpDuration = receive_ts.sub(originate_ts);
        let d34: SntpDuration = transmit_ts.sub(self.reply_timestamp);
        let offset_sum: i128 = d21.as_fixed_point() + d34.as_fixed_point();
        let negative: bool = offset_sum < 0;
        let magnitude: u128 = if negative {
            (-offset_sum) as u128
        } else {
            offset_sum as u128
        };
        let half: u128 = magnitude / 2;
        let offset_units: i128 = if negative {
            -(half as i128)
        } else {
            half as i128
        };
        Ok(
            SynchronizationResult::new(
                SntpDuration::from_fixed_point(offset_units),
                SntpDuration::from_fixed_point(delay_units),
                self.reply.reference_identifier,
                self.reply.li,
                self.reply.stratum,
            ),
        )
    }
}

} // verus!
