//! Seed material.
//!
//! Sixty-four bytes of entropy fix the node's identity and every key it
//! holds. The operator supplies them as 128 hexadecimal digits, or they are
//! drawn at startup, and then their text is handed back so that the operator
//! can be shown it once.

use crate::hex;
use rand::RngCore;
use vstd::prelude::*;

verus! {

/// The seed to start the node with.
#[derive(Debug, PartialEq, Eq)]
pub struct StartupSeed {
    /// The seed itself.
    pub bytes: [u8; 64],
    /// What to tell the operator, where the seed was drawn here.
    pub notice: Option<String>,
}

/// Why no seed could be had.
#[derive(Clone, Copy, Debug, PartialEq, Eq, Structural)]
pub enum SeedError {
    /// The text supplied is not 128 hexadecimal digits.
    InvalidHex,
}

/// The sentence that tells the operator of a seed drawn at startup.
pub open spec fn notice_of(bytes: Seq<u8>) -> Seq<char> {
    "no seed provided, generated new seed: "@ + hex::encoded(bytes)
}

/// `RngCore::fill_bytes` on `rand::thread_rng()`: sixty-four bytes from the
/// thread's generator. Nothing is promised of them.
#[verifier::external_body]
fn fresh_entropy() -> (bytes: [u8; 64]) {
    let mut bytes = [0u8; 64];
    rand::thread_rng().fill_bytes(&mut bytes);
    bytes
}

/// The seed that the operator's text stands for.
///
/// The same text gives the same seed, whenever it is read.
pub fn supplied_seed(text: &str) -> (r: Result<StartupSeed, SeedError>)
    ensures
        match r {
            Ok(seed) => hex::decoded(text@, 64) == Some(seed.bytes@) && seed.notice is None,
            Err(e) => hex::decoded(text@, 64) is None && e == SeedError::InvalidHex,
        },
{
    match hex::decode_64(text) {
        Some(bytes) => Ok(StartupSeed { bytes, notice: None }),
        None => Err(SeedError::InvalidHex),
    }
}

/// A seed made of freshly drawn bytes, with the notice that shows them.
pub fn generated_seed(bytes: [u8; 64]) -> (seed: StartupSeed)
    ensures
        seed.bytes == bytes,
        seed.notice matches Some(text) && text@ == notice_of(bytes@),
{
    let shown = hex::encode(bytes.as_slice());
    let text = "no seed provided, generated new seed: ".to_owned().concat(shown.as_str());
    StartupSeed { bytes, notice: Some(text) }
}

/// The seed for this start of the node: the operator's where one was
/// supplied, a fresh one with its notice where none was.
///
/// Whether the data directory already holds state made under another seed is
/// not looked at here. To supply the seed that belongs to that state is the
/// operator's part; the notice is the one occasion to record a fresh seed.
pub fn startup_seed(supplied: Option<&str>) -> (r: Result<StartupSeed, SeedError>)
    ensures
        match supplied {
            Some(text) => match r {
                Ok(seed) => hex::decoded(text@, 64) == Some(seed.bytes@) && seed.notice is None,
                Err(e) => hex::decoded(text@, 64) is None && e == SeedError::InvalidHex,
            },
            None => r matches Ok(seed) && (seed.notice matches Some(text) && text@ == notice_of(
                seed.bytes@,
            )),
        },
{
    match supplied {
        Some(text) => supplied_seed(text),
        None => Ok(generated_seed(fresh_entropy())),
    }
}

} // verus!
