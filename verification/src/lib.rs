//! A key-encapsulation mechanism secure against chosen ciphertexts, built
//! from a passively secure public-key encryption scheme by hashing,
//! deterministic re-encryption and implicit rejection.
//!
//! The encryption scheme and the symmetric functions are parameters
//! (`primitives`); the randomness source is any generator of rand_core.
//! `api` holds key generation, encapsulation and decapsulation, `laws` what
//! holds between them, `secret_key` the layout of the secret key and
//! `constant_time` the comparison and the conditional move that
//! decapsulation rests on.

pub mod params;
pub mod error;
pub mod constant_time;
pub mod rng;
pub mod secret_key;
pub mod primitives;
pub mod api;
pub mod laws;
