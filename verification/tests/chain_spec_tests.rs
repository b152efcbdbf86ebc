use chain_spec::chain_spec::Alternative;
use chain_spec::fraction::{Perbill, Permill};
use chain_spec::genesis::{testnet_genesis, GenesisState, ENDOWMENT};
use chain_spec::identity::{AccountId, AuthorityId};
use sp_core::Pair;

fn dev_code() -> Vec<u8> {
    vec![0x00, 0x61, 0x73, 0x6d, 0x01, 0x00, 0x00, 0x00]
}

fn load(v: Alternative) -> GenesisState {
    v.load(dev_code()).expect("built-in variants load").genesis
}

#[test]
fn resolve_dev() {
    assert_eq!(Alternative::from("dev"), Some(Alternative::Development));
}

#[test]
fn resolve_empty_string() {
    assert_eq!(Alternative::from(""), Some(Alternative::LocalTestnet));
}

#[test]
fn resolve_local_alias() {
    assert_eq!(Alternative::from("local"), Some(Alternative::LocalTestnet));
}

#[test]
fn resolve_unknown_is_no_match() {
    assert_eq!(Alternative::from("unknown"), None);
    assert_eq!(Alternative::from("Dev"), None);
    assert_eq!(Alternative::from("local_testnet"), None);
}

#[test]
fn derivation_is_deterministic_across_loads() {
    let g1 = load(Alternative::LocalTestnet);
    let g2 = load(Alternative::LocalTestnet);
    assert_eq!(g1, g2);
    let a1 = g1.consensus.as_ref().unwrap().authorities.clone();
    let a2 = g2.consensus.as_ref().unwrap().authorities.clone();
    assert_eq!(a1, a2);
    let e1 = g1.indices.as_ref().unwrap().ids.clone();
    let e2 = g2.indices.as_ref().unwrap().ids.clone();
    assert_eq!(e1, e2);
}

#[test]
fn local_testnet_identities_are_pairwise_distinct() {
    let g = load(Alternative::LocalTestnet);
    let ids = &g.indices.as_ref().unwrap().ids;
    assert_eq!(ids.len(), 6);
    for i in 0..ids.len() {
        for j in 0..ids.len() {
            if i != j {
                assert_ne!(ids[i], ids[j], "endowed accounts {} and {} collide", i, j);
            }
        }
    }
    let auths = &g.consensus.as_ref().unwrap().authorities;
    assert_eq!(auths.len(), 2);
    assert_ne!(auths[0], auths[1]);
}

#[test]
fn authority_and_account_schemes_differ() {
    let g = load(Alternative::Development);
    let authority = g.consensus.as_ref().unwrap().authorities[0];
    let account = g.indices.as_ref().unwrap().ids[0];
    assert_ne!(authority.bytes, account.bytes);
}

#[test]
fn derived_identities_match_the_derivation_scheme() {
    let expected_authority =
        sp_core::ed25519::Pair::from_string("//Alice", None).unwrap().public().0;
    let expected_account =
        sp_core::sr25519::Pair::from_string("//Alice", None).unwrap().public().0;
    let g = load(Alternative::Development);
    assert_eq!(g.consensus.as_ref().unwrap().authorities[0].bytes, expected_authority);
    assert_eq!(g.indices.as_ref().unwrap().ids[0].bytes, expected_account);
}

#[test]
fn root_is_endowed_in_every_variant() {
    for v in [Alternative::Development, Alternative::LocalTestnet] {
        let g = load(v);
        let root = g.sudo.as_ref().unwrap().key;
        let ids = &g.indices.as_ref().unwrap().ids;
        assert!(ids.contains(&root));
    }
}

#[test]
fn fraction_parameters_are_normalized() {
    for v in [Alternative::Development, Alternative::LocalTestnet] {
        let g = load(v);
        let staking = g.staking.as_ref().unwrap();
        assert!(staking.session_reward.parts <= 1_000_000_000);
        assert!(staking.offline_slash.parts <= 1_000_000_000);
        let treasury = g.treasury.as_ref().unwrap();
        assert!(treasury.proposal_bond.parts <= 1_000_000);
        assert!(treasury.burn.parts <= 1_000_000);
    }
}

#[test]
fn period_and_count_parameters_are_positive() {
    let g = load(Alternative::Development);
    assert!(g.timestamp.as_ref().unwrap().minimum_period > 0);
    assert!(g.session.as_ref().unwrap().session_length > 0);
    let staking = g.staking.as_ref().unwrap();
    assert!(staking.validator_count > 0);
    assert!(staking.minimum_validator_count > 0);
    assert!(staking.sessions_per_era > 0);
    assert!(staking.bonding_duration > 0);
    let democracy = g.democracy.as_ref().unwrap();
    assert!(democracy.launch_period > 0);
    assert!(democracy.voting_period > 0);
    assert!(democracy.minimum_deposit > 0);
    let council = g.council_voting.as_ref().unwrap();
    assert!(council.cooloff_period > 0);
    assert!(council.voting_period > 0);
    let treasury = g.treasury.as_ref().unwrap();
    assert!(treasury.spend_period > 0);
    assert!(treasury.proposal_bond_minimum > 0);
}

#[test]
fn fixed_parameter_values() {
    let g = load(Alternative::Development);
    assert_eq!(g.timestamp.as_ref().unwrap().minimum_period, 5);
    let balances = g.balances.as_ref().unwrap();
    assert_eq!(balances.transaction_base_fee, 1);
    assert_eq!(balances.transaction_byte_fee, 0);
    assert_eq!(balances.existential_deposit, 500);
    assert_eq!(balances.transfer_fee, 0);
    assert_eq!(balances.creation_fee, 0);
    assert!(balances.vesting.is_empty());
    assert_eq!(g.session.as_ref().unwrap().session_length, 6);
    let staking = g.staking.as_ref().unwrap();
    assert_eq!(staking.validator_count, 5);
    assert_eq!(staking.minimum_validator_count, 1);
    assert_eq!(staking.sessions_per_era, 5);
    assert_eq!(staking.session_reward.parts, 10_000_000);
    assert_eq!(staking.offline_slash.parts, 1_000_000_000);
    assert_eq!(staking.offline_slash_grace, 3);
    assert_eq!(staking.bonding_duration, 30);
    assert!(staking.invulnerables.is_empty());
    assert!(staking.stakers.is_empty());
    assert_eq!(staking.current_era, 0);
    assert_eq!(staking.current_session_reward, 10);
    let democracy = g.democracy.as_ref().unwrap();
    assert_eq!(democracy.launch_period, 1440);
    assert_eq!(democracy.minimum_deposit, 10_000);
    assert_eq!(democracy.public_delay, 5);
    assert_eq!(democracy.max_lock_periods, 60);
    assert_eq!(democracy.voting_period, 144);
    let council = g.council_voting.as_ref().unwrap();
    assert_eq!(council.cooloff_period, 360);
    assert_eq!(council.voting_period, 60);
    assert_eq!(council.enact_delay_period, 5);
    let treasury = g.treasury.as_ref().unwrap();
    assert_eq!(treasury.proposal_bond.parts, 50_000);
    assert_eq!(treasury.proposal_bond_minimum, 1_000_000);
    assert_eq!(treasury.spend_period, 360);
    assert_eq!(treasury.burn.parts, 100_000);
}

#[test]
fn development_scenario() {
    let authority = AuthorityId { bytes: [1; 32] };
    let account = AccountId { bytes: [2; 32] };
    let controller_a = AccountId { bytes: [3; 32] };
    let controller_b = AccountId { bytes: [4; 32] };
    let g = testnet_genesis(
        vec![authority],
        vec![account],
        account,
        dev_code(),
        vec![controller_a, controller_b],
    );
    assert_eq!(g.indices.as_ref().unwrap().ids.len(), 1);
    let grandpa = g.grandpa.as_ref().unwrap();
    assert_eq!(grandpa.authorities.len(), 1);
    assert_eq!(grandpa.authorities[0], (authority, 1));
    assert_eq!(g.sudo.as_ref().unwrap().key, account);
    assert_eq!(g.consensus.as_ref().unwrap().code, dev_code());
    // The session key table is cut to the shorter list: one authority.
    let session = g.session.as_ref().unwrap();
    assert_eq!(session.validators.len(), 2);
    assert_eq!(session.keys, vec![(controller_a, authority)]);
}

#[test]
fn development_variant_through_loader() {
    let g = load(Alternative::Development);
    assert_eq!(g.indices.as_ref().unwrap().ids.len(), 1);
    let grandpa = g.grandpa.as_ref().unwrap();
    assert_eq!(grandpa.authorities.len(), 1);
    assert_eq!(grandpa.authorities[0].1, 1);
    assert_eq!(grandpa.authorities[0].0, g.consensus.as_ref().unwrap().authorities[0]);
    assert_eq!(g.sudo.as_ref().unwrap().key, g.indices.as_ref().unwrap().ids[0]);
}

#[test]
fn local_testnet_scenario() {
    let g = load(Alternative::LocalTestnet);
    assert_eq!(g.indices.as_ref().unwrap().ids.len(), 6);
    let grandpa = g.grandpa.as_ref().unwrap();
    assert_eq!(grandpa.authorities.len(), 2);
    assert!(grandpa.authorities.iter().all(|(_, w)| *w == 1));
    let balances = &g.balances.as_ref().unwrap().balances;
    assert_eq!(balances.len(), 6);
    let ids = &g.indices.as_ref().unwrap().ids;
    for (i, (who, amount)) in balances.iter().enumerate() {
        assert_eq!(*who, ids[i]);
        assert_eq!(*amount, 1u128 << 60);
        assert_eq!(*amount, ENDOWMENT);
    }
    let session = g.session.as_ref().unwrap();
    assert_eq!(session.validators.len(), 2);
    assert_eq!(session.keys.len(), 2);
    let auths = &g.consensus.as_ref().unwrap().authorities;
    assert_eq!(session.keys[0].1, auths[0]);
    assert_eq!(session.keys[1].1, auths[1]);
}

#[test]
fn loader_is_idempotent() {
    for v in [Alternative::Development, Alternative::LocalTestnet] {
        let s1 = v.load(dev_code()).expect("built-in variants load");
        let s2 = v.load(dev_code()).expect("built-in variants load");
        assert_eq!(s1.genesis, s2.genesis);
        assert_eq!(s1, s2);
    }
}

#[test]
fn loader_metadata() {
    let dev = Alternative::Development.load(dev_code()).unwrap();
    assert_eq!(dev.name, "Development");
    assert_eq!(dev.id, "dev");
    assert!(dev.boot_nodes.is_empty());
    assert!(dev.telemetry_url.is_none());
    assert!(dev.protocol_id.is_none());
    assert!(dev.consensus_engine.is_none());
    assert!(dev.properties.is_none());
    let local = Alternative::LocalTestnet.load(dev_code()).unwrap();
    assert_eq!(local.name, "Local Testnet");
    assert_eq!(local.id, "local_testnet");
    assert!(local.boot_nodes.is_empty());
}

#[test]
fn runtime_code_is_attached_verbatim() {
    let code = vec![7u8, 8, 9, 10];
    let spec = Alternative::Development.load(code.clone()).unwrap();
    assert_eq!(spec.genesis.consensus.as_ref().unwrap().code, code);
}

#[test]
fn perbill_from_percent_clamps() {
    assert_eq!(Perbill::from_percent(0).parts, 0);
    assert_eq!(Perbill::from_percent(1).parts, 10_000_000);
    assert_eq!(Perbill::from_percent(100).parts, 1_000_000_000);
    assert_eq!(Perbill::from_percent(101).parts, 1_000_000_000);
    assert_eq!(Perbill::from_percent(50_000).parts, 1_000_000_000);
}

#[test]
fn perbill_from_millionths_clamps() {
    assert_eq!(Perbill::from_millionths(0).parts, 0);
    assert_eq!(Perbill::from_millionths(10_000).parts, 10_000_000);
    assert_eq!(Perbill::from_millionths(1_000_000).parts, 1_000_000_000);
    assert_eq!(Perbill::from_millionths(1_000_001).parts, 1_000_000_000);
}

#[test]
fn permill_constructors_clamp() {
    assert_eq!(Permill::from_percent(0).parts, 0);
    assert_eq!(Permill::from_percent(5).parts, 50_000);
    assert_eq!(Permill::from_percent(101).parts, 1_000_000);
    assert_eq!(Permill::from_millionths(50_000).parts, 50_000);
    assert_eq!(Permill::from_millionths(100_000).parts, 100_000);
    assert_eq!(Permill::from_millionths(2_000_000).parts, 1_000_000);
}
