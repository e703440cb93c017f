//! Hand-off of a negotiated TLS 1.2 AES-128-GCM session to the kernel's TLS
//! record layer: key derivation, the socket options that enable the offload,
//! the ancillary-message layout used for out-of-band records, the alert codec,
//! and the read path that reacts to alerts signalled by the kernel.

pub mod cmsg;
pub mod codec;
pub mod keys;
pub mod rustls_record;
pub mod stream;
pub mod sys;

pub use crate::keys::tls12_crypto_info_aes_gcm_128 as Tls12CryptoInfoAesGcm128;
pub use crate::rustls_record::Rustls;
pub use crate::stream::{Error, KtlsStream};
