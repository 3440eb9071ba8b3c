//! One-time authentication codes: HOTP (counter based) and TOTP (time based).
//!
//! A shared secret and a moving factor go through a keyed hash; the digest is
//! reduced to a 31-bit number by dynamic truncation, and that number, taken
//! modulo a power of ten, is written as a zero-padded decimal string.

pub mod error;
pub mod algorithm;
pub mod decimal;
pub mod truncation;
pub mod keyed_hash;
pub mod secret;
pub mod otp;

pub use crate::error::OtpError;
pub use crate::algorithm::{HashAlgorithm, TotpHashAlgorithm};
pub use crate::truncation::{dynamic_truncation, truncation_window};
pub use crate::keyed_hash::generate_hmac;
pub use crate::secret::decode_secret;
pub use crate::otp::{generate_hotp, hotp, time_counter, totp};
