//! Variant registry and chain specification loader.
//!
//! A network variant is one of a closed set of named configurations. The
//! registry resolves a human-supplied identifier to a variant; the loader
//! derives that variant's well-known identities, composes its genesis state,
//! and wraps the result with network metadata into the final chain
//! specification artifact.

use vstd::prelude::*;
use crate::genesis::{
    account_views, authority_views, spec_compose, testnet_genesis, GenesisState, GenesisView,
};
use crate::identity::{
    account_key, authority_key, ed25519_derives, ed25519_public_of, sr25519_derives,
    sr25519_public_of, AccountId, AuthorityId,
};

verus! {

/// The chain specification option: one of a closed set of network variants,
/// converted from a string identifier supplied by configuration.
#[derive(Clone, Copy, Debug, PartialEq, Eq, Structural)]
pub enum Alternative {
    /// The current runtime with a single well-known authority.
    Development,
    /// The current runtime with two well-known authorities.
    LocalTestnet,
}

/// The final artifact consumed by the node framework: network metadata
/// wrapped around a composed genesis state. All optional metadata fields are
/// unset for the built-in variants.
#[derive(Clone, Debug, PartialEq, Eq)]
pub struct ChainSpec {
    pub name: String,
    pub id: String,
    pub boot_nodes: Vec<String>,
    pub telemetry_url: Option<String>,
    pub protocol_id: Option<String>,
    pub consensus_engine: Option<String>,
    pub properties: Option<String>,
    pub genesis: GenesisState,
}

/// The views of a sequence of strings.
pub open spec fn string_views(s: Seq<String>) -> Seq<Seq<char>> {
    Seq::new(s.len(), |i: int| s[i]@)
}

#[verifier::ext_equal]
pub ghost struct ChainSpecView {
    pub name: Seq<char>,
    pub id: Seq<char>,
    pub boot_nodes: Seq<Seq<char>>,
    pub telemetry_url: Option<Seq<char>>,
    pub protocol_id: Option<Seq<char>>,
    pub consensus_engine: Option<Seq<char>>,
    pub properties: Option<Seq<char>>,
    pub genesis: GenesisView,
}

impl View for ChainSpec {
    type V = ChainSpecView;

    open spec fn view(&self) -> ChainSpecView {
        ChainSpecView {
            name: self.name@,
            id: self.id@,
            boot_nodes: string_views(self.boot_nodes@),
            telemetry_url: match self.telemetry_url {
                Some(s) => Some(s@),
                None => None,
            },
            protocol_id: match self.protocol_id {
                Some(s) => Some(s@),
                None => None,
            },
            consensus_engine: match self.consensus_engine {
                Some(s) => Some(s@),
                None => None,
            },
            properties: match self.properties {
                Some(s) => Some(s@),
                None => None,
            },
            genesis: self.genesis@,
        }
    }
}

/// The finality/block-production authority identities of a variant.
pub open spec fn spec_authorities(v: Alternative) -> Seq<Seq<u8>> {
    match v {
        Alternative::Development => seq![ed25519_public_of("Alice"@)],
        Alternative::LocalTestnet => seq![
            ed25519_public_of("Alice"@),
            ed25519_public_of("Bob"@),
        ],
    }
}

/// The endowed-account identities of a variant.
pub open spec fn spec_endowed(v: Alternative) -> Seq<Seq<u8>> {
    match v {
        Alternative::Development => seq![sr25519_public_of("Alice"@)],
        Alternative::LocalTestnet => seq![
            sr25519_public_of("Alice"@),
            sr25519_public_of("Bob"@),
            sr25519_public_of("Charlie"@),
            sr25519_public_of("Dave"@),
            sr25519_public_of("Eve"@),
            sr25519_public_of("Ferdie"@),
        ],
    }
}

/// The administrative root identity of a variant.
pub open spec fn spec_root(v: Alternative) -> Seq<u8> {
    match v {
        Alternative::Development => sr25519_public_of("Alice"@),
        Alternative::LocalTestnet => sr25519_public_of("Alice"@),
    }
}

/// The session-controller identities: two fixed controller labels,
/// independent of the variant's authority list.
pub open spec fn spec_controllers() -> Seq<Seq<u8>> {
    seq![sr25519_public_of("Alice Controller"@), sr25519_public_of("Bob Controller"@)]
}

/// The display name of a variant's chain specification.
pub open spec fn spec_name(v: Alternative) -> Seq<char> {
    match v {
        Alternative::Development => "Development"@,
        Alternative::LocalTestnet => "Local Testnet"@,
    }
}

/// The machine identifier of a variant's chain specification.
pub open spec fn spec_id(v: Alternative) -> Seq<char> {
    match v {
        Alternative::Development => "dev"@,
        Alternative::LocalTestnet => "local_testnet"@,
    }
}

/// The full chain specification of a variant, given the compiled runtime
/// code: metadata fields fixed per variant, no bootstrap peers, no optional
/// overrides, and the genesis state composed from the variant's identities.
pub open spec fn spec_load(v: Alternative, code: Seq<u8>) -> ChainSpecView {
    ChainSpecView {
        name: spec_name(v),
        id: spec_id(v),
        boot_nodes: Seq::empty(),
        telemetry_url: None,
        protocol_id: None,
        consensus_engine: None,
        properties: None,
        genesis: spec_compose(
            spec_authorities(v),
            spec_endowed(v),
            spec_root(v),
            code,
            spec_controllers(),
        ),
    }
}

/// Whether the derivation schemes accept every seed label a variant needs:
/// the variant's authority and account labels under their respective
/// schemes, and the two fixed session-controller labels. All labels are
/// fixed well-known constants, so rejection is a programming defect, not an
/// expected outcome.
pub open spec fn spec_derivable(v: Alternative) -> bool {
    sr25519_derives("Alice Controller"@) && sr25519_derives("Bob Controller"@) && match v {
        Alternative::Development => ed25519_derives("Alice"@) && sr25519_derives("Alice"@),
        Alternative::LocalTestnet => ed25519_derives("Alice"@) && ed25519_derives("Bob"@)
            && sr25519_derives("Alice"@) && sr25519_derives("Bob"@) && sr25519_derives("Charlie"@)
            && sr25519_derives("Dave"@) && sr25519_derives("Eve"@) && sr25519_derives("Ferdie"@),
    }
}

impl Alternative {
    /// Resolve a string identifier to a variant: `"dev"` names the
    /// development variant; the empty string and `"local"` both name the
    /// local-testnet variant; every other string resolves to nothing.
    pub fn from(s: &str) -> (r: Option<Alternative>)
        ensures
            r == Some(Alternative::Development) <==> s@ == "dev"@,
            r == Some(Alternative::LocalTestnet) <==> (s@ == ""@ || s@ == "local"@),
            r is None <==> !(s@ == "dev"@ || s@ == ""@ || s@ == "local"@),
    {
        proof {
            reveal_strlit("dev");
            reveal_strlit("");
            reveal_strlit("local");
            assert("dev"@.len() == 3);
            assert(""@.len() == 0);
            assert("local"@.len() == 5);
        }
        let t: String = s.to_owned();
        if t == "dev".to_owned() {
            Some(Alternative::Development)
        } else if t == "".to_owned() {
            Some(Alternative::LocalTestnet)
        } else if t == "local".to_owned() {
            Some(Alternative::LocalTestnet)
        } else {
            None
        }
    }

    /// Build the full chain specification for this variant around the given
    /// compiled runtime code. Construction itself cannot fail: the result is
    /// `Ok` exactly when key derivation accepts every one of the variant's
    /// fixed seed labels, which the derivation scheme decides.
    pub fn load(self, runtime_code: Vec<u8>) -> (r: Result<ChainSpec, String>)
        ensures
            r is Ok <==> spec_derivable(self),
            r matches Ok(cs) ==> cs@ == spec_load(self, runtime_code@),
            r matches Err(e) ==> e@ == "seed label rejected by key derivation"@,
    {
        let ghost code_view: Seq<u8> = runtime_code@;
        let controllers = match Self::session_controllers() {
            Some(c) => c,
            None => {
                return Err("seed label rejected by key derivation".to_owned());
            },
        };
        match self {
            Alternative::Development => {
                let auth_alice = match authority_key("Alice") {
                    Some(k) => k,
                    None => {
                        return Err("seed label rejected by key derivation".to_owned());
                    },
                };
                let acct_alice = match account_key("Alice") {
                    Some(k) => k,
                    None => {
                        return Err("seed label rejected by key derivation".to_owned());
                    },
                };
                let mut authorities: Vec<AuthorityId> = Vec::new();
                authorities.push(auth_alice);
                let mut endowed: Vec<AccountId> = Vec::new();
                endowed.push(acct_alice);
                proof {
                    assert(authority_views(authorities@) =~= spec_authorities(self));
                    assert(account_views(endowed@) =~= spec_endowed(self));
                }
                let genesis = testnet_genesis(
                    authorities,
                    endowed,
                    acct_alice,
                    runtime_code,
                    controllers,
                );
                let cs = ChainSpec {
                    name: "Development".to_owned(),
                    id: "dev".to_owned(),
                    boot_nodes: Vec::new(),
                    telemetry_url: None,
                    protocol_id: None,
                    consensus_engine: None,
                    properties: None,
                    genesis: genesis,
                };
                proof {
                    assert(string_views(cs.boot_nodes@) =~= Seq::<Seq<char>>::empty());
                    assert(cs@ =~~= spec_load(self, code_view));
                }
                Ok(cs)
            },
            Alternative::LocalTestnet => {
                let auth_alice = match authority_key("Alice") {
                    Some(k) => k,
                    None => {
                        return Err("seed label rejected by key derivation".to_owned());
                    },
                };
                let auth_bob = match authority_key("Bob") {
                    Some(k) => k,
                    None => {
                        return Err("seed label rejected by key derivation".to_owned());
                    },
                };
                let acct_alice = match account_key("Alice") {
                    Some(k) => k,
                    None => {
                        return Err("seed label rejected by key derivation".to_owned());
                    },
                };
                let acct_bob = match account_key("Bob") {
                    Some(k) => k,
                    None => {
                        return Err("seed label rejected by key derivation".to_owned());
                    },
                };
                let acct_charlie = match account_key("Charlie") {
                    Some(k) => k,
                    None => {
                        return Err("seed label rejected by key derivation".to_owned());
                    },
                };
                let acct_dave = match account_key("Dave") {
                    Some(k) => k,
                    None => {
                        return Err("seed label rejected by key derivation".to_owned());
                    },
                };
                let acct_eve = match account_key("Eve") {
                    Some(k) => k,
                    None => {
                        return Err("seed label rejected by key derivation".to_owned());
                    },
                };
                let acct_ferdie = match account_key("Ferdie") {
                    Some(k) => k,
                    None => {
                        return Err("seed label rejected by key derivation".to_owned());
                    },
                };
                let mut authorities: Vec<AuthorityId> = Vec::new();
                authorities.push(auth_alice);
                authorities.push(auth_bob);
                let mut endowed: Vec<AccountId> = Vec::new();
                endowed.push(acct_alice);
                endowed.push(acct_bob);
                endowed.push(acct_charlie);
                endowed.push(acct_dave);
                endowed.push(acct_eve);
                endowed.push(acct_ferdie);
                proof {
                    assert(authority_views(authorities@) =~= spec_authorities(self));
                    assert(account_views(endowed@) =~= spec_endowed(self));
                }
                let genesis = testnet_genesis(
                    authorities,
                    endowed,
                    acct_alice,
                    runtime_code,
                    controllers,
                );
                let cs = ChainSpec {
                    name: "Local Testnet".to_owned(),
                    id: "local_testnet".to_owned(),
                    boot_nodes: Vec::new(),
                    telemetry_url: None,
                    protocol_id: None,
                    consensus_engine: None,
                    properties: None,
                    genesis: genesis,
                };
                proof {
                    assert(string_views(cs.boot_nodes@) =~= Seq::<Seq<char>>::empty());
                    assert(cs@ =~~= spec_load(self, code_view));
                }
                Ok(cs)
            },
        }
    }

    /// Derive the two fixed session-controller identities, in order; nothing
    /// exactly when derivation rejects one of the labels.
    fn session_controllers() -> (r: Option<Vec<AccountId>>)
        ensures
            r is Some <==> (sr25519_derives("Alice Controller"@) && sr25519_derives(
                "Bob Controller"@,
            )),
            r matches Some(c) ==> account_views(c@) == spec_controllers(),
    {
        let ctrl_alice = match account_key("Alice Controller") {
            Some(k) => k,
            None => {
                return None;
            },
        };
        let ctrl_bob = match account_key("Bob Controller") {
            Some(k) => k,
            None => {
                return None;
            },
        };
        let mut controllers: Vec<AccountId> = Vec::new();
        controllers.push(ctrl_alice);
        controllers.push(ctrl_bob);
        proof {
            assert(account_views(controllers@) =~= spec_controllers());
        }
        Some(controllers)
    }
}

/// Referential integrity: for every variant, the administrative root
/// identity stands in the endowed-accounts identity index of the loaded
/// genesis state.
pub proof fn lemma_root_is_endowed(v: Alternative, code: Seq<u8>)
    ensures
        spec_load(v, code).genesis.indices matches Some(ix) && spec_load(
            v,
            code,
        ).genesis.sudo matches Some(s) && ix.ids.contains(s.key),
{
    let g = spec_load(v, code).genesis;
    assert(g.indices matches Some(ix) && ix.ids == spec_endowed(v));
    assert(g.sudo matches Some(s) && s.key == spec_root(v));
    assert(spec_endowed(v)[0] == spec_root(v));
    assert(spec_endowed(v).contains(spec_root(v)));
}

/// Idempotence of loading: two chain specifications loaded for the same
/// variant around the same runtime code are structurally identical, genesis
/// state included.
pub proof fn lemma_load_idempotent(
    s1: ChainSpecView,
    s2: ChainSpecView,
    v: Alternative,
    code: Seq<u8>,
)
    requires
        s1 == spec_load(v, code),
        s2 == spec_load(v, code),
    ensures
        s1.genesis == s2.genesis,
        s1 == s2,
{
}

} // verus!
