//! The genesis state record and its composer.
//!
//! A `GenesisState` is the aggregate record a node loads before any block is
//! produced: runtime code and block-production authorities, timestamp,
//! identity index, balances, session assignment, staking, governance,
//! treasury, finality authorities, and the administrative root. It is
//! composed exactly once, from an authority list, a funded-account list, a
//! root identity, the compiled runtime code, and the session-controller
//! list, and is a pure function of those inputs: `spec_compose` states the
//! whole record, field by field, and `testnet_genesis` is proved to return
//! exactly that record.

use vstd::prelude::*;
use crate::fraction::{Perbill, Permill};
use crate::identity::{AccountId, AuthorityId};

verus! {

/// Starting balance of every endowed account: 2^60, effectively unlimited
/// for a test network.
pub const ENDOWMENT: u128 = 1_152_921_504_606_846_976;

/// Runtime code and the authority list for block-production consensus.
#[derive(Clone, Debug, PartialEq, Eq)]
pub struct ConsensusParams {
    pub code: Vec<u8>,
    pub authorities: Vec<AuthorityId>,
}

/// Minimum interval between blocks, half of the target block time.
#[derive(Clone, Copy, Debug, PartialEq, Eq)]
pub struct TimestampParams {
    pub minimum_period: u64,
}

/// The identity index: every account identity known at genesis.
#[derive(Clone, Debug, PartialEq, Eq)]
pub struct IndicesParams {
    pub ids: Vec<AccountId>,
}

/// A schedule releasing locked balance over time; none exist at genesis.
#[derive(Clone, Copy, Debug, PartialEq, Eq)]
pub struct VestingSchedule {
    pub who: AccountId,
    pub begin: u64,
    pub length: u64,
}

/// Per-account starting balances, fee parameters and vesting schedules.
#[derive(Clone, Debug, PartialEq, Eq)]
pub struct BalancesParams {
    pub transaction_base_fee: u128,
    pub transaction_byte_fee: u128,
    pub existential_deposit: u128,
    pub transfer_fee: u128,
    pub creation_fee: u128,
    pub balances: Vec<(AccountId, u128)>,
    pub vesting: Vec<VestingSchedule>,
}

/// Validator controllers, their mapping to authority identities, and the
/// session length in blocks.
#[derive(Clone, Debug, PartialEq, Eq)]
pub struct SessionParams {
    pub validators: Vec<AccountId>,
    pub keys: Vec<(AccountId, AuthorityId)>,
    pub session_length: u64,
}

/// Staking parameters of the runtime state machine.
#[derive(Clone, Debug, PartialEq, Eq)]
pub struct StakingParams {
    pub validator_count: u32,
    pub minimum_validator_count: u32,
    pub sessions_per_era: u64,
    pub session_reward: Perbill,
    pub offline_slash: Perbill,
    pub offline_slash_grace: u32,
    pub bonding_duration: u64,
    pub invulnerables: Vec<AccountId>,
    pub stakers: Vec<(AccountId, AccountId, u128)>,
    pub current_era: u64,
    pub current_session_reward: u128,
}

/// Democracy (public referendum) parameters.
#[derive(Clone, Copy, Debug, PartialEq, Eq)]
pub struct DemocracyParams {
    pub launch_period: u64,
    pub minimum_deposit: u128,
    pub public_delay: u64,
    pub max_lock_periods: u32,
    pub voting_period: u64,
}

/// Council voting parameters.
#[derive(Clone, Copy, Debug, PartialEq, Eq)]
pub struct CouncilVotingParams {
    pub cooloff_period: u64,
    pub voting_period: u64,
    pub enact_delay_period: u64,
}

/// Treasury parameters.
#[derive(Clone, Copy, Debug, PartialEq, Eq)]
pub struct TreasuryParams {
    pub proposal_bond: Permill,
    pub proposal_bond_minimum: u128,
    pub spend_period: u64,
    pub burn: Permill,
}

/// The authority set for block-finality voting, each authority weighted.
#[derive(Clone, Debug, PartialEq, Eq)]
pub struct GrandpaParams {
    pub authorities: Vec<(AuthorityId, u64)>,
}

/// The one account granted unrestricted administrative override.
#[derive(Clone, Copy, Debug, PartialEq, Eq)]
pub struct SudoParams {
    pub key: AccountId,
}

/// The full genesis state record; each sub-record is optional in the type
/// but always populated by the composer.
#[derive(Clone, Debug, PartialEq, Eq)]
pub struct GenesisState {
    pub consensus: Option<ConsensusParams>,
    pub timestamp: Option<TimestampParams>,
    pub indices: Option<IndicesParams>,
    pub balances: Option<BalancesParams>,
    pub session: Option<SessionParams>,
    pub staking: Option<StakingParams>,
    pub democracy: Option<DemocracyParams>,
    pub council_voting: Option<CouncilVotingParams>,
    pub treasury: Option<TreasuryParams>,
    pub grandpa: Option<GrandpaParams>,
    pub sudo: Option<SudoParams>,
}

/// The identities of a sequence of accounts, as byte sequences.
pub open spec fn account_views(s: Seq<AccountId>) -> Seq<Seq<u8>> {
    Seq::new(s.len(), |i: int| s[i]@)
}

/// The identities of a sequence of authorities, as byte sequences.
pub open spec fn authority_views(s: Seq<AuthorityId>) -> Seq<Seq<u8>> {
    Seq::new(s.len(), |i: int| s[i]@)
}

/// The views of a balance table.
pub open spec fn balance_views(s: Seq<(AccountId, u128)>) -> Seq<(Seq<u8>, u128)> {
    Seq::new(s.len(), |i: int| (s[i].0@, s[i].1))
}

/// The views of a controller-to-authority key table.
pub open spec fn key_views(s: Seq<(AccountId, AuthorityId)>) -> Seq<(Seq<u8>, Seq<u8>)> {
    Seq::new(s.len(), |i: int| (s[i].0@, s[i].1@))
}

/// The views of a weighted finality-authority table.
pub open spec fn weighted_views(s: Seq<(AuthorityId, u64)>) -> Seq<(Seq<u8>, u64)> {
    Seq::new(s.len(), |i: int| (s[i].0@, s[i].1))
}

/// The views of a staker table.
pub open spec fn staker_views(s: Seq<(AccountId, AccountId, u128)>) -> Seq<(Seq<u8>, Seq<u8>, u128)> {
    Seq::new(s.len(), |i: int| (s[i].0@, s[i].1@, s[i].2))
}

/// The views of a vesting-schedule table.
pub open spec fn vesting_views(s: Seq<VestingSchedule>) -> Seq<VestingView> {
    Seq::new(s.len(), |i: int| s[i]@)
}

#[verifier::ext_equal]
pub ghost struct ConsensusView {
    pub code: Seq<u8>,
    pub authorities: Seq<Seq<u8>>,
}

#[verifier::ext_equal]
pub ghost struct IndicesView {
    pub ids: Seq<Seq<u8>>,
}

#[verifier::ext_equal]
pub ghost struct VestingView {
    pub who: Seq<u8>,
    pub begin: u64,
    pub length: u64,
}

#[verifier::ext_equal]
pub ghost struct BalancesView {
    pub transaction_base_fee: u128,
    pub transaction_byte_fee: u128,
    pub existential_deposit: u128,
    pub transfer_fee: u128,
    pub creation_fee: u128,
    pub balances: Seq<(Seq<u8>, u128)>,
    pub vesting: Seq<VestingView>,
}

#[verifier::ext_equal]
pub ghost struct SessionView {
    pub validators: Seq<Seq<u8>>,
    pub keys: Seq<(Seq<u8>, Seq<u8>)>,
    pub session_length: u64,
}

#[verifier::ext_equal]
pub ghost struct StakingView {
    pub validator_count: u32,
    pub minimum_validator_count: u32,
    pub sessions_per_era: u64,
    pub session_reward: Perbill,
    pub offline_slash: Perbill,
    pub offline_slash_grace: u32,
    pub bonding_duration: u64,
    pub invulnerables: Seq<Seq<u8>>,
    pub stakers: Seq<(Seq<u8>, Seq<u8>, u128)>,
    pub current_era: u64,
    pub current_session_reward: u128,
}

#[verifier::ext_equal]
pub ghost struct GrandpaView {
    pub authorities: Seq<(Seq<u8>, u64)>,
}

#[verifier::ext_equal]
pub ghost struct SudoView {
    pub key: Seq<u8>,
}

#[verifier::ext_equal]
pub ghost struct GenesisView {
    pub consensus: Option<ConsensusView>,
    pub timestamp: Option<TimestampParams>,
    pub indices: Option<IndicesView>,
    pub balances: Option<BalancesView>,
    pub session: Option<SessionView>,
    pub staking: Option<StakingView>,
    pub democracy: Option<DemocracyParams>,
    pub council_voting: Option<CouncilVotingParams>,
    pub treasury: Option<TreasuryParams>,
    pub grandpa: Option<GrandpaView>,
    pub sudo: Option<SudoView>,
}

impl View for ConsensusParams {
    type V = ConsensusView;

    open spec fn view(&self) -> ConsensusView {
        ConsensusView { code: self.code@, authorities: authority_views(self.authorities@) }
    }
}

impl View for IndicesParams {
    type V = IndicesView;

    open spec fn view(&self) -> IndicesView {
        IndicesView { ids: account_views(self.ids@) }
    }
}

impl View for VestingSchedule {
    type V = VestingView;

    open spec fn view(&self) -> VestingView {
        VestingView { who: self.who@, begin: self.begin, length: self.length }
    }
}

impl View for BalancesParams {
    type V = BalancesView;

    open spec fn view(&self) -> BalancesView {
        BalancesView {
            transaction_base_fee: self.transaction_base_fee,
            transaction_byte_fee: self.transaction_byte_fee,
            existential_deposit: self.existential_deposit,
            transfer_fee: self.transfer_fee,
            creation_fee: self.creation_fee,
            balances: balance_views(self.balances@),
            vesting: vesting_views(self.vesting@),
        }
    }
}

impl View for SessionParams {
    type V = SessionView;

    open spec fn view(&self) -> SessionView {
        SessionView {
            validators: account_views(self.validators@),
            keys: key_views(self.keys@),
            session_length: self.session_length,
        }
    }
}

impl View for StakingParams {
    type V = StakingView;

    open spec fn view(&self) -> StakingView {
        StakingView {
            validator_count: self.validator_count,
            minimum_validator_count: self.minimum_validator_count,
            sessions_per_era: self.sessions_per_era,
            session_reward: self.session_reward,
            offline_slash: self.offline_slash,
            offline_slash_grace: self.offline_slash_grace,
            bonding_duration: self.bonding_duration,
            invulnerables: account_views(self.invulnerables@),
            stakers: staker_views(self.stakers@),
            current_era: self.current_era,
            current_session_reward: self.current_session_reward,
        }
    }
}

impl View for GrandpaParams {
    type V = GrandpaView;

    open spec fn view(&self) -> GrandpaView {
        GrandpaView { authorities: weighted_views(self.authorities@) }
    }
}

impl View for SudoParams {
    type V = SudoView;

    open spec fn view(&self) -> SudoView {
        SudoView { key: self.key@ }
    }
}

impl View for GenesisState {
    type V = GenesisView;

    open spec fn view(&self) -> GenesisView {
        GenesisView {
            consensus: match self.consensus {
                Some(c) => Some(c@),
                None => None,
            },
            timestamp: self.timestamp,
            indices: match self.indices {
                Some(c) => Some(c@),
                None => None,
            },
            balances: match self.balances {
                Some(c) => Some(c@),
                None => None,
            },
            session: match self.session {
                Some(c) => Some(c@),
                None => None,
            },
            staking: match self.staking {
                Some(c) => Some(c@),
                None => None,
            },
            democracy: self.democracy,
            council_voting: self.council_voting,
            treasury: self.treasury,
            grandpa: match self.grandpa {
                Some(c) => Some(c@),
                None => None,
            },
            sudo: match self.sudo {
                Some(c) => Some(c@),
                None => None,
            },
        }
    }
}

/// The session key table: each controller paired with the authority at the
/// same position, cut to the shorter of the two lists.
pub open spec fn zip_keys(controllers: Seq<Seq<u8>>, authorities: Seq<Seq<u8>>) -> Seq<
    (Seq<u8>, Seq<u8>),
> {
    Seq::new(
        if controllers.len() <= authorities.len() {
            controllers.len()
        } else {
            authorities.len()
        },
        |i: int| (controllers[i], authorities[i]),
    )
}

/// The genesis state composed from an authority list, an endowed-account
/// list, a root identity, the compiled runtime code and a session-controller
/// list: the complete record, stated field by field.
pub open spec fn spec_compose(
    authorities: Seq<Seq<u8>>,
    endowed: Seq<Seq<u8>>,
    root: Seq<u8>,
    code: Seq<u8>,
    controllers: Seq<Seq<u8>>,
) -> GenesisView {
    GenesisView {
        consensus: Some(ConsensusView { code: code, authorities: authorities }),
        timestamp: Some(TimestampParams { minimum_period: 5 }),
        indices: Some(IndicesView { ids: endowed }),
        balances: Some(
            BalancesView {
                transaction_base_fee: 1,
                transaction_byte_fee: 0,
                existential_deposit: 500,
                transfer_fee: 0,
                creation_fee: 0,
                balances: Seq::new(endowed.len(), |i: int| (endowed[i], ENDOWMENT)),
                vesting: Seq::empty(),
            },
        ),
        session: Some(
            SessionView {
                validators: controllers,
                keys: zip_keys(controllers, authorities),
                session_length: 6,
            },
        ),
        staking: Some(
            StakingView {
                validator_count: 5,
                minimum_validator_count: 1,
                sessions_per_era: 5,
                session_reward: Perbill { parts: 10_000_000 },
                offline_slash: Perbill { parts: 1_000_000_000 },
                offline_slash_grace: 3,
                bonding_duration: 30,
                invulnerables: Seq::empty(),
                stakers: Seq::empty(),
                current_era: 0,
                current_session_reward: 10,
            },
        ),
        democracy: Some(
            DemocracyParams {
                launch_period: 1440,
                minimum_deposit: 10_000,
                public_delay: 5,
                max_lock_periods: 60,
                voting_period: 144,
            },
        ),
        council_voting: Some(
            CouncilVotingParams { cooloff_period: 360, voting_period: 60, enact_delay_period: 5 },
        ),
        treasury: Some(
            TreasuryParams {
                proposal_bond: Permill { parts: 50_000 },
                proposal_bond_minimum: 1_000_000,
                spend_period: 360,
                burn: Permill { parts: 100_000 },
            },
        ),
        grandpa: Some(
            GrandpaView { authorities: Seq::new(authorities.len(), |i: int| (authorities[i], 1u64)) },
        ),
        sudo: Some(SudoView { key: root }),
    }
}

/// Compose the genesis state for a test network: the authority list becomes
/// both the block-production and the finality authority set (each finality
/// authority with weight one), every endowed account is indexed and endowed
/// with the fixed starting balance, the session controllers are paired
/// positionally with the authorities, all remaining parameters are fixed
/// constants, and the root identity becomes the administrative root.
pub fn testnet_genesis(
    initial_authorities: Vec<AuthorityId>,
    endowed_accounts: Vec<AccountId>,
    root_key: AccountId,
    code: Vec<u8>,
    session_controllers: Vec<AccountId>,
) -> (g: GenesisState)
    requires
        initial_authorities@.len() > 0,
        endowed_accounts@.len() > 0,
    ensures
        g@ == spec_compose(
            authority_views(initial_authorities@),
            account_views(endowed_accounts@),
            root_key@,
            code@,
            account_views(session_controllers@),
        ),
{
    let ghost auths: Seq<Seq<u8>> = authority_views(initial_authorities@);
    let ghost endowed: Seq<Seq<u8>> = account_views(endowed_accounts@);
    let ghost controllers: Seq<Seq<u8>> = account_views(session_controllers@);

    let mut balances: Vec<(AccountId, u128)> = Vec::new();
    let mut i: usize = 0;
    while i < endowed_accounts.len()
        invariant
            i <= endowed_accounts.len(),
            balances@.len() == i,
            forall|j: int|
                0 <= j < i ==> balances@[j].0 == endowed_accounts@[j] && balances@[j].1
                    == ENDOWMENT,
        decreases endowed_accounts.len() - i,
    {
        let who = endowed_accounts[i];
        balances.push((who, ENDOWMENT));
        i += 1;
    }

    let mut keys: Vec<(AccountId, AuthorityId)> = Vec::new();
    let mut i: usize = 0;
    while i < session_controllers.len() && i < initial_authorities.len()
        invariant
            i <= session_controllers.len(),
            i <= initial_authorities.len(),
            keys@.len() == i,
            forall|j: int|
                0 <= j < i ==> keys@[j].0 == session_controllers@[j] && keys@[j].1
                    == initial_authorities@[j],
        decreases session_controllers.len() - i,
    {
        let c = session_controllers[i];
        let a = initial_authorities[i];
        keys.push((c, a));
        i += 1;
    }

    let mut weighted: Vec<(AuthorityId, u64)> = Vec::new();
    let mut i: usize = 0;
    while i < initial_authorities.len()
        invariant
            i <= initial_authorities.len(),
            weighted@.len() == i,
            forall|j: int|
                0 <= j < i ==> weighted@[j].0 == initial_authorities@[j] && weighted@[j].1 == 1u64,
        decreases initial_authorities.len() - i,
    {
        let a = initial_authorities[i];
        weighted.push((a, 1));
        i += 1;
    }

    proof {
        assert(balance_views(balances@) =~= Seq::new(
            endowed.len(),
            |j: int| (endowed[j], ENDOWMENT),
        ));
        assert(key_views(keys@) =~= zip_keys(controllers, auths));
        assert(weighted_views(weighted@) =~= Seq::new(auths.len(), |j: int| (auths[j], 1u64)));
        assert(vesting_views(Seq::<VestingSchedule>::empty()) =~= Seq::<VestingView>::empty());
        assert(account_views(Seq::<AccountId>::empty()) =~= Seq::<Seq<u8>>::empty());
        assert(staker_views(Seq::<(AccountId, AccountId, u128)>::empty()) =~= Seq::<
            (Seq<u8>, Seq<u8>, u128),
        >::empty());
    }

    let g = GenesisState {
        consensus: Some(ConsensusParams { code: code, authorities: initial_authorities }),
        timestamp: Some(TimestampParams { minimum_period: 5 }),
        indices: Some(IndicesParams { ids: endowed_accounts }),
        balances: Some(
            BalancesParams {
                transaction_base_fee: 1,
                transaction_byte_fee: 0,
                existential_deposit: 500,
                transfer_fee: 0,
                creation_fee: 0,
                balances: balances,
                vesting: Vec::new(),
            },
        ),
        session: Some(
            SessionParams { validators: session_controllers, keys: keys, session_length: 6 },
        ),
        staking: Some(
            StakingParams {
                validator_count: 5,
                minimum_validator_count: 1,
                sessions_per_era: 5,
                session_reward: Perbill::from_millionths(10_000),
                offline_slash: Perbill::from_percent(50_000),
                offline_slash_grace: 3,
                bonding_duration: 30,
                invulnerables: Vec::new(),
                stakers: Vec::new(),
                current_era: 0,
                current_session_reward: 10,
            },
        ),
        democracy: Some(
            DemocracyParams {
                launch_period: 1440,
                minimum_deposit: 10_000,
                public_delay: 5,
                max_lock_periods: 60,
                voting_period: 144,
            },
        ),
        council_voting: Some(
            CouncilVotingParams { cooloff_period: 360, voting_period: 60, enact_delay_period: 5 },
        ),
        treasury: Some(
            TreasuryParams {
                proposal_bond: Permill::from_millionths(50_000),
                proposal_bond_minimum: 1_000_000,
                spend_period: 360,
                burn: Permill::from_millionths(100_000),
            },
        ),
        grandpa: Some(GrandpaParams { authorities: weighted }),
        sudo: Some(SudoParams { key: root_key }),
    };
    proof {
        assert(g@ =~~= spec_compose(auths, endowed, root_key@, code@, controllers));
    }
    g
}

/// Authority lockstep: in every composed genesis state the finality
/// authority set is derived from the same list as the block-production
/// authority set — it pairs exactly the block-production authorities, in
/// order, each with weight one.
pub proof fn lemma_authority_sets_in_lockstep(
    g: GenesisView,
    authorities: Seq<Seq<u8>>,
    endowed: Seq<Seq<u8>>,
    root: Seq<u8>,
    code: Seq<u8>,
    controllers: Seq<Seq<u8>>,
)
    requires
        g == spec_compose(authorities, endowed, root, code, controllers),
    ensures
        g.consensus matches Some(cons) && g.grandpa matches Some(gr) && gr.authorities.len()
            == cons.authorities.len() && (forall|i: int|
            0 <= i < cons.authorities.len() ==> gr.authorities[i] == (cons.authorities[i], 1u64)),
{
}

/// Parameter bounds: in every composed genesis state, each fraction-typed
/// parameter (session reward, offline slash, proposal bond, burn) is at most
/// one, and every period, duration and validator count is strictly positive.
pub proof fn lemma_parameters_bounded(
    g: GenesisView,
    authorities: Seq<Seq<u8>>,
    endowed: Seq<Seq<u8>>,
    root: Seq<u8>,
    code: Seq<u8>,
    controllers: Seq<Seq<u8>>,
)
    requires
        g == spec_compose(authorities, endowed, root, code, controllers),
    ensures
        g.staking matches Some(st) && st.session_reward.wf() && st.offline_slash.wf()
            && st.validator_count > 0 && st.minimum_validator_count > 0 && st.sessions_per_era > 0
            && st.bonding_duration > 0,
        g.treasury matches Some(t) && t.proposal_bond.wf() && t.burn.wf() && t.spend_period > 0
            && t.proposal_bond_minimum > 0,
        g.timestamp matches Some(ts) && ts.minimum_period > 0,
        g.session matches Some(se) && se.session_length > 0,
        g.democracy matches Some(d) && d.launch_period > 0 && d.voting_period > 0
            && d.minimum_deposit > 0,
        g.council_voting matches Some(cv) && cv.cooloff_period > 0 && cv.voting_period > 0,
{
}

} // verus!
