//! Marshalling of authenticated-cipher-mode parameters.
//!
//! The owned form, [`AuthenticatedCipherModeInfo`], keeps every buffer in a
//! `Vec<u8>` of its own. The wire form, [`WireDescriptor`], is the fixed-layout
//! record that a platform AEAD provider reads and overwrites during one call;
//! here its pointers are borrows, so that it cannot outlive the buffers it
//! was projected from.

pub mod error;
pub mod wire;
pub mod aead;
pub mod theorems;

pub use crate::aead::AuthenticatedCipherModeInfo;
pub use crate::aead::ModeInfoView;
pub use crate::error::AeadError;
pub use crate::wire::WireBuffer;
pub use crate::wire::WireDescriptor;
pub use crate::wire::AUTHENTICATED_CIPHER_MODE_INFO_VERSION;
pub use crate::wire::AUTH_MODE_CHAIN_CALLS_FLAG;
pub use crate::wire::MAC_CONTEXT_LEN;
