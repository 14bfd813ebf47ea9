//! Payment requests.
//!
//! An invoice reaches the control plane as text. Whether a text is an invoice
//! (encoding, fields, signature) is for `lightning_invoice` to say; an
//! `Invoice` is a text that it accepted.

use ldk_node::lightning_invoice::Bolt11Invoice;
use vstd::prelude::*;

verus! {

/// Whether `Bolt11Invoice::from_str` of `lightning_invoice` accepts `text`.
pub uninterp spec fn invoice_accepted(text: Seq<char>) -> bool;

/// `Bolt11Invoice::from_str` of `lightning_invoice`: says whether the text is
/// a signed payment request that the parser takes.
#[verifier::external_body]
fn bolt11_parses(text: &str) -> (ok: bool)
    ensures
        ok == invoice_accepted(text@),
{
    text.parse::<Bolt11Invoice>().is_ok()
}

/// The text of a payment request that the parser accepts.
#[derive(Debug, PartialEq, Eq)]
pub struct Invoice {
    text: String,
}

impl View for Invoice {
    type V = Seq<char>;

    closed spec fn view(&self) -> Seq<char> {
        self.text@
    }
}

impl Clone for Invoice {
    fn clone(&self) -> (copy: Self)
        ensures
            copy@ == self@,
    {
        proof {
            use_type_invariant(self);
        }
        Invoice { text: self.text.clone() }
    }
}

impl Invoice {
    #[verifier::type_invariant]
    spec fn accepted(self) -> bool {
        invoice_accepted(self.text@)
    }

    /// Takes `text` as an invoice, if it is one.
    pub fn parse(text: &str) -> (r: Option<Invoice>)
        ensures
            r is Some <==> invoice_accepted(text@),
            r matches Some(invoice) ==> invoice@ == text@,
    {
        if bolt11_parses(text) {
            Some(Invoice { text: text.to_owned() })
        } else {
            None
        }
    }

    /// The invoice as text, for the engine's parser.
    pub fn as_str(&self) -> (text: &str)
        ensures
            text@ == self@,
            invoice_accepted(text@),
    {
        proof {
            use_type_invariant(self);
        }
        self.text.as_str()
    }
}

} // verus!
