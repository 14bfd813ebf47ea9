//! Network addresses of peers.
//!
//! A caller names a peer's address as one text, `host:port`. Which texts are
//! addresses is for the engine's own parser to say; a `PeerAddress` is a text
//! that it accepted.

use ldk_node::lightning::ln::msgs::SocketAddress;
use vstd::prelude::*;

verus! {

/// Whether `SocketAddress::from_str` of `lightning` accepts `text`.
pub uninterp spec fn address_accepted(text: Seq<char>) -> bool;

/// `SocketAddress::from_str` of `lightning`: says whether the text is an
/// address. The parser tries an IP address with a port, then an onion
/// address, then a host name with a port, and fails without panicking on
/// anything else.
#[verifier::external_body]
fn socket_address_parses(text: &str) -> (ok: bool)
    ensures
        ok == address_accepted(text@),
{
    text.parse::<SocketAddress>().is_ok()
}

/// The text of an address that the engine's parser accepts.
#[derive(Debug, PartialEq, Eq)]
pub struct PeerAddress {
    text: String,
}

impl View for PeerAddress {
    type V = Seq<char>;

    closed spec fn view(&self) -> Seq<char> {
        self.text@
    }
}

impl Clone for PeerAddress {
    fn clone(&self) -> (copy: Self)
        ensures
            copy@ == self@,
    {
        proof {
            use_type_invariant(self);
        }
        PeerAddress { text: self.text.clone() }
    }
}

impl PeerAddress {
    #[verifier::type_invariant]
    spec fn accepted(self) -> bool {
        address_accepted(self.text@)
    }

    /// Takes `text` as an address, if it is one.
    pub fn parse(text: &str) -> (r: Option<PeerAddress>)
        ensures
            r is Some <==> address_accepted(text@),
            r matches Some(address) ==> address@ == text@,
    {
        if socket_address_parses(text) {
            Some(PeerAddress { text: text.to_owned() })
        } else {
            None
        }
    }

    /// The address as text, for the engine's parser.
    pub fn as_str(&self) -> (text: &str)
        ensures
            text@ == self@,
            address_accepted(text@),
    {
        proof {
            use_type_invariant(self);
        }
        self.text.as_str()
    }
}

} // verus!
