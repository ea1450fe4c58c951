//! An SNTPv4 (RFC 4330/5905) client core: the 64-bit fixed-point NTP
//! timestamp with era-aware arithmetic, the 48-byte packet codec with
//! field validation, the request/reply synchronization logic including
//! Kiss-o'-Death detection, and the offset/delay computation.
//!
//! All network transport is left to the caller: the library builds the
//! request bytes, decodes and validates the reply bytes, and computes the
//! clock offset and round-trip delay from the four protocol timestamps.

mod core_logic;
mod error;
mod packet;
mod result;
mod wall_clock;

pub use core_logic::{Reply, Request};
pub use error::{ConversionError, KissCode, ProtocolError, SynchronizationError};
pub use packet::{AddressFamily, LeapIndicator, Mode, Packet, ReferenceIdentifier, SntpTimestamp};
pub use result::{SntpDateTime, SntpDuration, SynchronizationResult};
