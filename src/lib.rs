//! A minimal SNTP client core: the fixed 48-byte message layout with its
//! network-byte-order codec, and the conversion of NTP-epoch seconds into
//! calendar time.

pub mod message;
pub mod timestamp;
