//! The credentials of one account on one exchange.
//!
//! A bundle is plain data that is handed to an adapter as it is. This crate
//! compares bundles and passes them on; it never interprets or changes one.

use vstd::prelude::*;
use vstd::std_specs::cmp::PartialEqSpec;

verus! {

/// Key, secret and optional subaccount label of an account.
#[derive(Debug)]
pub struct ExchangeCredentials {
    pub api_key: String,
    pub secret: String,
    pub subaccount: Option<String>,
}

/// The field values of a bundle, as text.
pub struct CredentialsView {
    pub api_key: Seq<char>,
    pub secret: Seq<char>,
    pub subaccount: Option<Seq<char>>,
}

impl View for ExchangeCredentials {
    type V = CredentialsView;

    open spec fn view(&self) -> CredentialsView {
        CredentialsView {
            api_key: self.api_key@,
            secret: self.secret@,
            subaccount: match self.subaccount {
                Some(label) => Some(label@),
                None => None,
            },
        }
    }
}

impl PartialEq for ExchangeCredentials {
    /// Two bundles are equal when they agree in all three fields.
    fn eq(&self, other: &Self) -> (same: bool) {
        let same_subaccount = match (&self.subaccount, &other.subaccount) {
            (Some(a), Some(b)) => *a == *b,
            (None, None) => true,
            _ => false,
        };
        self.api_key == other.api_key && self.secret == other.secret && same_subaccount
    }
}

impl Eq for ExchangeCredentials {

}

impl vstd::std_specs::cmp::PartialEqSpecImpl for ExchangeCredentials {
    open spec fn obeys_eq_spec() -> bool {
        true
    }

    open spec fn eq_spec(&self, other: &Self) -> bool {
        self@ == other@
    }
}

/// Bundles with identical field values are equal, and only those.
pub proof fn lemma_equal_by_fields(a: ExchangeCredentials, b: ExchangeCredentials)
    ensures
        a.eq_spec(&b) <==> {
            &&& a.api_key@ == b.api_key@
            &&& a.secret@ == b.secret@
            &&& match (a.subaccount, b.subaccount) {
                (Some(x), Some(y)) => x@ == y@,
                (None, None) => true,
                _ => false,
            }
        },
{
}

} // verus!
