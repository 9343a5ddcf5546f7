//! Encoding and decoding of CCSDS space packets carrying ECSS PUS C telecommands,
//! together with the CCSDS day-segmented (CDS) short timestamp.
pub mod ccsds;
pub mod crc;
pub mod ecss;
pub mod tc;
pub mod time;

pub use ccsds::{
    ByteConversionError, PacketError, PacketType, SequenceFlags, SizeMissmatch, SpHeader,
    CCSDS_HEADER_LEN,
};
