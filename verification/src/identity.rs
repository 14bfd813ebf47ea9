//! Node identities.
//!
//! A node is known by a public key. Here a key is held in its compressed
//! form, 33 bytes, and written on the wire as 66 lowercase hexadecimal digits.
//! Whether a text names a key at all is for `secp256k1` to say.

use crate::hex;
use ldk_node::bitcoin::secp256k1::PublicKey;
use vstd::prelude::*;

verus! {

/// The compressed form of the public key that `text` names, as
/// `PublicKey::from_str` of `secp256k1` reads it; `None` where it reads none.
pub uninterp spec fn key_named(text: Seq<char>) -> Option<Seq<u8>>;

/// Whether `text` has the shape of a key on the wire: hexadecimal digits for
/// 33 bytes (compressed) or 65 bytes (uncompressed).
pub open spec fn key_shaped(text: Seq<char>) -> bool {
    hex::all_digits(text) && (text.len() == 66 || text.len() == 130)
}

/// The node identity that `text` stands for: the key it names, where it has
/// the shape of a key and names one.
pub open spec fn node_id_of(text: Seq<char>) -> Option<Seq<u8>> {
    match key_named(text) {
        Some(bytes) => if key_shaped(text) && bytes.len() == 33 {
            Some(bytes)
        } else {
            None
        },
        None => None,
    }
}

/// The identity of a node: its public key, compressed.
#[derive(Clone, Copy, Debug, PartialEq, Eq)]
pub struct NodeId {
    pub bytes: [u8; 33],
}

/// `PublicKey::from_str` of `secp256k1`, followed by `PublicKey::serialize`.
///
/// The parser reads hexadecimal digits of either case into a buffer, refuses
/// a text that does not hold exactly 33 or 65 bytes of them, and then asks the
/// curve library whether those bytes are a point. What it accepts is named
/// `key_named`; the result here is the accepted key's 33-byte compressed form.
#[verifier::external_body]
fn public_key_from_str(text: &str) -> (r: Option<[u8; 33]>)
    ensures
        r matches Some(bytes) ==> key_named(text@) == Some(bytes@),
        r is None ==> key_named(text@) is None,
        r is Some ==> key_shaped(text@),
{
    match text.parse::<PublicKey>() {
        Ok(key) => Some(key.serialize()),
        Err(_) => None,
    }
}

impl NodeId {
    /// Reads a node identity from its text.
    ///
    /// Succeeds exactly on the texts that stand for an identity, and then
    /// holds that key's compressed form.
    pub fn parse(text: &str) -> (r: Option<NodeId>)
        ensures
            r matches Some(id) ==> node_id_of(text@) == Some(id.bytes@),
            r is None ==> node_id_of(text@) is None,
    {
        match public_key_from_str(text) {
            Some(bytes) => Some(NodeId { bytes }),
            None => None,
        }
    }

    /// The identity as it is written on the wire.
    pub fn to_hex(&self) -> (text: String)
        ensures
            text@ == hex::encoded(self.bytes@),
            text@.len() == 66,
    {
        proof {
            hex::lemma_encoded_is_hex(self.bytes@);
        }
        hex::encode(self.bytes.as_slice())
    }
}

} // verus!
