//! The errors a synchronization can end with, and the Kiss-o'-Death codes.

use crate::packet::ReferenceIdentifier;
use vstd::string::StringExecFns;
use vstd::prelude::*;

verus! {

/// The reason a server gave for a Kiss-o'-Death reply.
///
/// A stratum-0 reply tells the client the request was refused; its reference
/// identifier carries a 4-character code saying why (RFC 5905, section 7.4).
#[derive(Copy, Clone, Debug, PartialEq, Eq, Hash, Structural)]
pub enum KissCode {
    /// Unknown code
    Unknown,
    /// The association belongs to an anycast server
    AssociationBelongsToAnycastServer,
    /// The association belongs to a broadcast server
    AssociationBelongsToBroadcastServer,
    /// The association belongs to a manycast server
    AssociationBelongsToManycastServer,
    /// Server authentication failed
    ServerAuthenticationFailed,
    /// Autokey sequence failed
    AutokeySequenceFailed,
    /// Cryptographic authentication or identification failed
    CryptographicAuthenticationFailed,
    /// Access denied by remote server
    AccessDenied,
    /// Lost peer in symmetric mode
    LostPeer,
    /// The association has not yet synchronized for the first time
    AssociationNotYetSynchronized,
    /// No key found: either the key was never installed or it is not trusted
    NoKeyFound,
    /// The server has temporarily denied access: the client exceeded the rate
    /// threshold and must back off
    RateExceeded,
    /// Somebody is tinkering with the association from a remote host
    TinkeringWithAssociation,
    /// A step change in system time has occurred, but the association has not
    /// yet resynchronized
    StepChange,
}

/// The kiss code named by a 4-character ASCII reference identifier; any
/// string outside the fixed table means `Unknown`.
pub open spec fn spec_kiss_code_of_chars(s: Seq<char>) -> KissCode {
    if s == "ACST"@ {
        KissCode::AssociationBelongsToAnycastServer
    } else if s == "AUTH"@ {
        KissCode::ServerAuthenticationFailed
    } else if s == "AUTO"@ {
        KissCode::AutokeySequenceFailed
    } else if s == "BCST"@ {
        KissCode::AssociationBelongsToBroadcastServer
    } else if s == "CRYP"@ {
        KissCode::CryptographicAuthenticationFailed
    } else if s == "DENY"@ {
        KissCode::AccessDenied
    } else if s == "DROP"@ {
        KissCode::LostPeer
    } else if s == "RSTR"@ {
        KissCode::AccessDenied
    } else if s == "INIT"@ {
        KissCode::AssociationNotYetSynchronized
    } else if s == "MCST"@ {
        KissCode::AssociationBelongsToManycastServer
    } else if s == "NKEY"@ {
        KissCode::NoKeyFound
    } else if s == "RATE"@ {
        KissCode::RateExceeded
    } else if s == "RMOT"@ {
        KissCode::TinkeringWithAssociation
    } else if s == "STEP"@ {
        KissCode::StepChange
    } else {
        KissCode::Unknown
    }
}

/// The kiss code carried by a reference identifier: only the ASCII variant
/// can name one; every other variant means `Unknown`.
pub open spec fn spec_kiss_code_of(id: ReferenceIdentifier) -> KissCode {
    match id {
        ReferenceIdentifier::ASCII(s) => spec_kiss_code_of_chars(s@),
        _ => KissCode::Unknown,
    }
}

impl KissCode {
    /// The kiss code named by a reference identifier.
    pub fn new(reference_identifier: &ReferenceIdentifier) -> (r: KissCode)
        ensures
            r == spec_kiss_code_of(*reference_identifier),
    {
        match reference_identifier {
            ReferenceIdentifier::ASCII(s) => {
                if s.eq(&"ACST".to_owned()) {
                    KissCode::AssociationBelongsToAnycastServer
                } else if s.eq(&"AUTH".to_owned()) {
                    KissCode::ServerAuthenticationFailed
                } else if s.eq(&"AUTO".to_owned()) {
                    KissCode::AutokeySequenceFailed
                } else if s.eq(&"BCST".to_owned()) {
                    KissCode::AssociationBelongsToBroadcastServer
                } else if s.eq(&"CRYP".to_owned()) {
                    KissCode::CryptographicAuthenticationFailed
                } else if s.eq(&"DENY".to_owned()) {
                    KissCode::AccessDenied
                } else if s.eq(&"DROP".to_owned()) {
                    KissCode::LostPeer
                } else if s.eq(&"RSTR".to_owned()) {
                    KissCode::AccessDenied
                } else if s.eq(&"INIT".to_owned()) {
                    KissCode::AssociationNotYetSynchronized
                } else if s.eq(&"MCST".to_owned()) {
                    KissCode::AssociationBelongsToManycastServer
                } else if s.eq(&"NKEY".to_owned()) {
                    KissCode::NoKeyFound
                } else if s.eq(&"RATE".to_owned()) {
                    KissCode::RateExceeded
                } else if s.eq(&"RMOT".to_owned()) {
                    KissCode::TinkeringWithAssociation
                } else if s.eq(&"STEP".to_owned()) {
                    KissCode::StepChange
                } else {
                    KissCode::Unknown
                }
            },
            _ => KissCode::Unknown,
        }
    }
}

/// The human-readable description of a kiss code.
pub open spec fn spec_kiss_code_description(code: KissCode) -> Seq<char> {
    match code {
        KissCode::Unknown => "Unknown"@,
        KissCode::AssociationBelongsToAnycastServer => "The association belongs to an anycast server"@,
        KissCode::AssociationBelongsToBroadcastServer => "The association belongs to a broadcast server"@,
        KissCode::AssociationBelongsToManycastServer => "The association belongs to a manycast server"@,
        KissCode::ServerAuthenticationFailed => "Server authentication failed"@,
        KissCode::AutokeySequenceFailed => "Autokey sequence failed"@,
        KissCode::CryptographicAuthenticationFailed => "Cryptographic authentication or identification failed"@,
        KissCode::AccessDenied => "Access denied by remote server"@,
        KissCode::LostPeer => "Lost peer in symmetric mode"@,
        KissCode::AssociationNotYetSynchronized => "The association has not yet synchronized for the first time"@,
        KissCode::NoKeyFound => "No key found. Either the key was never installed or is not trusted"@,
        KissCode::RateExceeded => "Rate exceeded. The server has temporarily denied access because the client exceeded the rate threshold"@,
        KissCode::TinkeringWithAssociation => "Somebody is tinkering with the association from a remote host"@,
        KissCode::StepChange => "A step change in system time has occurred, but the association has not yet resynchronized"@,
    }
}

impl KissCode {
    /// The human-readable description of this kiss code.
    pub fn description(&self) -> (r: String)
        ensures
            r@ == spec_kiss_code_description(*self),
    {
        match self {
            KissCode::Unknown => "Unknown".to_owned(),
            KissCode::AssociationBelongsToAnycastServer => "The association belongs to an anycast server".to_owned(),
            KissCode::AssociationBelongsToBroadcastServer => "The association belongs to a broadcast server".to_owned(),
            KissCode::AssociationBelongsToManycastServer => "The association belongs to a manycast server".to_owned(),
            KissCode::ServerAuthenticationFailed => "Server authentication failed".to_owned(),
            KissCode::AutokeySequenceFailed => "Autokey sequence failed".to_owned(),
            KissCode::CryptographicAuthenticationFailed => "Cryptographic authentication or identification failed".to_owned(),
            KissCode::AccessDenied => "Access denied by remote server".to_owned(),
            KissCode::LostPeer => "Lost peer in symmetric mode".to_owned(),
            KissCode::AssociationNotYetSynchronized => "The association has not yet synchronized for the first time".to_owned(),
            KissCode::NoKeyFound => "No key found. Either the key was never installed or is not trusted".to_owned(),
            KissCode::RateExceeded => "Rate exceeded. The server has temporarily denied access because the client exceeded the rate threshold".to_owned(),
            KissCode::TinkeringWithAssociation => "Somebody is tinkering with the association from a remote host".to_owned(),
            KissCode::StepChange => "A step change in system time has occurred, but the association has not yet resynchronized".to_owned(),
        }
    }
}

/// A protocol-level rejection: something in the reply's bytes or fields,
/// determined purely by packet content, made it unusable.
#[derive(Copy, Clone, Debug, PartialEq, Eq, Hash, Structural)]
pub enum ProtocolError {
    /// Server reply packet is too short
    PacketIsTooShort,
    /// Server reply packet has unsupported version
    InvalidPacketVersion,
    /// Server reply packet contains invalid leap indicator
    InvalidLeapIndicator,
    /// Server reply packet contains invalid mode
    InvalidMode,
    /// Server reply contains invalid originate timestamp
    InvalidOriginateTimestamp,
    /// Server reply contains invalid transmit timestamp
    InvalidTransmitTimestamp,
    /// Server reply contains invalid reference identifier
    InvalidReferenceIdentifier,
    /// Kiss-o'-Death packet received: the server rejected the request, and
    /// generally the client should stop sending requests to it
    KissODeath(KissCode),
}

/// The human-readable description of a protocol error.
pub open spec fn spec_protocol_error_description(e: ProtocolError) -> Seq<char> {
    match e {
        ProtocolError::PacketIsTooShort => "Server reply packet is too short"@,
        ProtocolError::InvalidPacketVersion => "Server reply packet has unsupported version"@,
        ProtocolError::InvalidLeapIndicator => "Server reply packet contains invalid leap indicator"@,
        ProtocolError::InvalidMode => "Server reply packet contains invalid mode"@,
        ProtocolError::InvalidOriginateTimestamp => "Server reply contains invalid originate timestamp"@,
        ProtocolError::InvalidTransmitTimestamp => "Server reply contains invalid transmit timestamp"@,
        ProtocolError::InvalidReferenceIdentifier => "Server reply contains invalid reference identifier"@,
        ProtocolError::KissODeath(code) => "Kiss-o'-Death packet received: "@
            + spec_kiss_code_description(code),
    }
}

impl ProtocolError {
    /// The human-readable description of this error.
    pub fn description(&self) -> (r: String)
        ensures
            r@ == spec_protocol_error_description(*self),
    {
        match self {
            ProtocolError::PacketIsTooShort => "Server reply packet is too short".to_owned(),
            ProtocolError::InvalidPacketVersion => "Server reply packet has unsupported version".to_owned(),
            ProtocolError::InvalidLeapIndicator => "Server reply packet contains invalid leap indicator".to_owned(),
            ProtocolError::InvalidMode => "Server reply packet contains invalid mode".to_owned(),
            ProtocolError::InvalidOriginateTimestamp => "Server reply contains invalid originate timestamp".to_owned(),
            ProtocolError::InvalidTransmitTimestamp => "Server reply contains invalid transmit timestamp".to_owned(),
            ProtocolError::InvalidReferenceIdentifier => "Server reply contains invalid reference identifier".to_owned(),
            ProtocolError::KissODeath(code) => "Kiss-o'-Death packet received: ".to_owned().concat(
                code.description().as_str(),
            ),
        }
    }
}

#[verifier::external_type_specification]
#[verifier::external_body]
pub struct ExIoError(std::io::Error);

/// Relies on std::io::Error's Display implementation for the message text;
/// nothing is promised of it.
#[verifier::external_body]
fn io_error_message(e: &std::io::Error) -> String {
    format!("{}", e)
}

/// Why a synchronization attempt failed: the transport broke, or the reply
/// violated the protocol.
#[derive(Debug)]
pub enum SynchronizationError {
    /// An I/O error occurred during the query: socket error, timeout, and
    /// the like
    IOError(std::io::Error),
    /// SNTP protocol specific error
    ProtocolError(ProtocolError),
}

impl From<std::io::Error> for SynchronizationError {
    fn from(io_error: std::io::Error) -> (r: SynchronizationError) {
        SynchronizationError::IOError(io_error)
    }
}

impl vstd::std_specs::convert::FromSpecImpl<std::io::Error> for SynchronizationError {
    open spec fn obeys_from_spec() -> bool {
        true
    }

    open spec fn from_spec(io_error: std::io::Error) -> SynchronizationError {
        SynchronizationError::IOError(io_error)
    }
}

impl From<ProtocolError> for SynchronizationError {
    fn from(protocol_error: ProtocolError) -> (r: SynchronizationError) {
        SynchronizationError::ProtocolError(protocol_error)
    }
}

impl vstd::std_specs::convert::FromSpecImpl<ProtocolError> for SynchronizationError {
    open spec fn obeys_from_spec() -> bool {
        true
    }

    open spec fn from_spec(protocol_error: ProtocolError) -> SynchronizationError {
        SynchronizationError::ProtocolError(protocol_error)
    }
}

impl SynchronizationError {
    /// True exactly when the error is a Kiss-o'-Death.
    ///
    /// A Kiss-o'-Death asks the client to stop sending requests to the
    /// server; this helper checks directly for that condition.
    pub fn is_kiss_of_death(&self) -> (r: bool)
        ensures
            r == (self matches SynchronizationError::ProtocolError(
                ProtocolError::KissODeath(_),
            )),
    {
        match self {
            SynchronizationError::ProtocolError(ProtocolError::KissODeath(_)) => true,
            _ => false,
        }
    }
}

impl SynchronizationError {
    /// The human-readable description of this error. For a protocol error
    /// the text is fixed; for an I/O error it carries whatever message the
    /// transport produced.
    pub fn description(&self) -> (r: String)
        ensures
            self matches SynchronizationError::ProtocolError(pe) ==> r@ == "Protocol error: "@
                + spec_protocol_error_description(*pe),
    {
        match self {
            SynchronizationError::IOError(io_error) => "Input/output error: ".to_owned().concat(
                io_error_message(io_error).as_str(),
            ),
            SynchronizationError::ProtocolError(protocol_error) => {
                "Protocol error: ".to_owned().concat(protocol_error.description().as_str())
            },
        }
    }
}

/// An arithmetic over- or underflow during a timestamp conversion.
#[derive(Copy, Clone, Debug, PartialEq, Eq, Hash, Structural)]
pub enum ConversionError {
    /// An arithmetic over/underflow
    Overflow,
}

impl ConversionError {
    /// The human-readable description of this error.
    pub fn description(&self) -> (r: String)
        ensures
            r@ == "Overflow during timestamp conversion"@,
    {
        "Overflow during timestamp conversion".to_owned()
    }
}

} // verus!
