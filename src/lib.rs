//! Elliptic-curve key generation on top of a NIST Hash_DRBG.
//!
//! The arithmetic and the DRBG construction come from `cocoon-tpm-crypto`;
//! this crate holds the glue around them with its contracts: curve and hash
//! selection, the error taxonomy, the key generator's post-conditions,
//! fixed-width serialization of key pairs and their hexadecimal report.
pub mod drbg;
pub mod error;
pub mod hex;
pub mod keygen;
pub mod keypair;
pub mod order;
pub mod params;

pub use drbg::{entropy_source_error, instantiate_primary, instantiate_rng, Drbg};
pub use error::KeygenError;
pub use hex::{format_report, key_report, to_hex};
pub use keygen::{assemble_key_pair, gen_ecc_key, scalar_in_range};
pub use order::{be_less, be_to_nat, lemma_be_zero};
pub use keypair::{is_zero, left_pad, lemma_encoding_round_trip, KeyPair};
pub use params::{CurveId, HashAlg};
