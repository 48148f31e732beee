//! Codec for Type-Length-Value (TLV) extension records of a PTP-style
//! time-synchronization protocol: classification of 16-bit wire codes into
//! semantic categories, and encoding/decoding of a bounded-capacity record
//! (type code, explicit length, opaque payload) to and from network bytes.
pub mod tlv;
pub mod tlv_type;

pub use tlv::TLV;
pub use tlv::WireFormatError;
pub use tlv_type::TlvType;
