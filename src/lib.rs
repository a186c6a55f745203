//! Safe building blocks for encoding CoAP payloads with a CBOR encoder:
//! null-terminated staging of keys and values, resolution of symbolic
//! encoder names, and checked handling of encoder status codes.


pub mod bytes;
pub mod coap_context;
pub mod error;
pub mod registry;

pub use bytes::{has_trailing_nul, ToBytesOptionalNull};
pub use coap_context::{CoapContext, COAP_KEY_SIZE, COAP_VALUE_SIZE};
pub use error::CoapError;
pub use registry::{lookup_encoder, str_eq, EncoderHandle};
