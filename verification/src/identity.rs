//! Public identities derived from well-known seed labels.
//!
//! Two independent derivation schemes are in use: consensus authorities get
//! an Ed25519 identity (fast deterministic verification for finality voting),
//! ledger accounts an Sr25519 identity. Both schemes derive from a short
//! label through the same path convention: the label prefixed by the
//! hard-junction separator, with no password.

use vstd::prelude::*;
use sp_core::Pair;

verus! {

/// A public identity used for block-finality voting.
#[derive(Clone, Copy, Debug, PartialEq, Eq, Hash)]
pub struct AuthorityId {
    pub bytes: [u8; 32],
}

/// A public identity of a ledger account.
#[derive(Clone, Copy, Debug, PartialEq, Eq, Hash)]
pub struct AccountId {
    pub bytes: [u8; 32],
}

impl View for AuthorityId {
    type V = Seq<u8>;

    open spec fn view(&self) -> Seq<u8> {
        self.bytes@
    }
}

impl View for AccountId {
    type V = Seq<u8>;

    open spec fn view(&self) -> Seq<u8> {
        self.bytes@
    }
}

/// The Ed25519 public identity that the label-based derivation scheme
/// produces for a label: a fixed function of the label alone.
pub uninterp spec fn ed25519_public_of(label: Seq<char>) -> Seq<u8>;

/// Whether the Ed25519 derivation scheme accepts a label: the derivation is
/// deterministic, so acceptance too is a fixed function of the label alone.
pub uninterp spec fn ed25519_derives(label: Seq<char>) -> bool;

/// The Sr25519 public identity that the label-based derivation scheme
/// produces for a label: a fixed function of the label alone.
pub uninterp spec fn sr25519_public_of(label: Seq<char>) -> Seq<u8>;

/// Whether the Sr25519 derivation scheme accepts a label: the derivation is
/// deterministic, so acceptance too is a fixed function of the label alone.
pub uninterp spec fn sr25519_derives(label: Seq<char>) -> bool;

/// Relies on `sp_core::ed25519::Pair::from_string`, called on the label
/// prefixed by the hard-junction separator and with no password: the derived
/// pair, and so its public identity, depends on the label alone and is
/// reproducible across processes and platforms. Whether a label is accepted
/// is likewise a function of the label alone; derivation rejects a label
/// only by returning an error, never by panicking.
#[verifier::external_body]
pub(crate) fn authority_key(s: &str) -> (r: Option<AuthorityId>)
    ensures
        r is Some <==> ed25519_derives(s@),
        r matches Some(a) ==> a@ == ed25519_public_of(s@),
{
    match sp_core::ed25519::Pair::from_string(&format!("//{}", s), None) {
        Ok(p) => Some(AuthorityId { bytes: p.public().0 }),
        Err(_) => None,
    }
}

/// Relies on `sp_core::sr25519::Pair::from_string`, called on the label
/// prefixed by the hard-junction separator and with no password: the derived
/// pair, and so its public identity, depends on the label alone and is
/// reproducible across processes and platforms. Whether a label is accepted
/// is likewise a function of the label alone; derivation rejects a label
/// only by returning an error, never by panicking.
#[verifier::external_body]
pub(crate) fn account_key(s: &str) -> (r: Option<AccountId>)
    ensures
        r is Some <==> sr25519_derives(s@),
        r matches Some(a) ==> a@ == sr25519_public_of(s@),
{
    match sp_core::sr25519::Pair::from_string(&format!("//{}", s), None) {
        Ok(p) => Some(AccountId { bytes: p.public().0 }),
        Err(_) => None,
    }
}

/// Determinism of identity derivation: the identity derived for a label is a
/// function of the label alone, so two derivations of the same label, under
/// either scheme, yield byte-identical public identities.
pub proof fn lemma_derivation_deterministic(
    label: Seq<char>,
    a1: Seq<u8>,
    a2: Seq<u8>,
    b1: Seq<u8>,
    b2: Seq<u8>,
)
    requires
        a1 == ed25519_public_of(label),
        a2 == ed25519_public_of(label),
        b1 == sr25519_public_of(label),
        b2 == sr25519_public_of(label),
    ensures
        a1 == a2,
        b1 == b2,
{
}

} // verus!
