//! The records of the program, and the operations on them by key.
//!
//! A proof is kept under its timestamp and its submitter, a claim record
//! under its task and its claimant, a badge under its quiz and its user,
//! and the counter of a quiz under the quiz. Each operation looks up the
//! records that it touches, runs, and writes them back only if it was
//! accepted: an operation that is refused leaves the ledger as it was.

use vstd::prelude::*;
use std::collections::HashMap;
use crate::errors::error::ErrorCode;
use crate::instructions::claim::{claim_refusal, claim_statement, pool_refusal, Claim, IniClaim};
use crate::instructions::initialize::Initialize;
use crate::instructions::update::{owner_refusal, Update};
use crate::instructions::upload_badge::{
    admitted_tier, is_first_of_quiz, upload_badge_refusal, UploadBadge,
};
use crate::instructions::upload_validation::{
    admitted_proof, upload_validation_refusal, UploadValidation,
};
use crate::instructions::withdraw::{withdraw_refusal, withdrawn, Withdraw};
use crate::pubkey::Pubkey;
use crate::states::badge::{Badge, BadgeConfig, BadgeConfigPool};
use crate::states::claim::{ClaimReward, StateAccount, TokenAccount};
use crate::states::consensus::{Config, ConsensusState};
use crate::table::Table;
use crate::utils::instructions::InstructionsSysvar;

verus! {

broadcast use vstd::std_specs::hash::group_hash_axioms;

/// All that the program keeps.
#[derive(Clone, Debug, PartialEq, Eq)]
pub struct Ledger {
    /// The identity of the program.
    pub program_id: Pubkey,
    pub config: Config,
    /// The balance in the configuration's custody, into which fees go.
    pub config_lamports: u64,
    pub state: StateAccount,
    /// The address of the pool state, which is the authority over its
    /// vaults.
    pub state_key: Pubkey,
    /// The bump with which that address was derived.
    pub state_bump: u8,
    pub badge_config_pool: BadgeConfigPool,
    /// The consensus proofs, by timestamp and submitter.
    pub consensus: Table<ConsensusState>,
    /// The claim records, by task and claimant.
    pub rewards: Table<ClaimReward>,
    /// The badge counters, by quiz.
    pub badge_configs: HashMap<u64, BadgeConfig>,
    /// The badges, by quiz and user.
    pub badges: Table<Badge>,
}

/// The keys, among those of `badges`, of the badges for `quiz`.
pub open spec fn quiz_badges(badges: Map<(u64, Seq<u8>), Badge>, quiz: u64) -> Set<
    (u64, Seq<u8>),
> {
    badges.dom().filter(|key: (u64, Seq<u8>)| key.0 == quiz)
}

impl Ledger {
    /// Whether the records are in order: each counter is kept under the
    /// quiz that it names, which is not zero; each badge is kept under the
    /// quiz and the owner that it names; each claim record is kept under
    /// its owner; the number of quizzes counted is the number of counters
    /// kept, the number of badges counted is the number of badges kept,
    /// and the counter of each quiz counts the badges kept for the quiz.
    /// A new ledger is in order, and every operation keeps it so.
    pub open spec fn wf(self) -> bool {
        &&& forall|quiz: u64|
            self.badge_config_of(quiz).total == (#[trigger] quiz_badges(self.badges@, quiz)).len()
        &&& forall|quiz: u64| #[trigger]
            self.badge_configs@.contains_key(quiz) ==> quiz != 0
                && self.badge_configs@[quiz].quiz == quiz
        &&& forall|key: (u64, Seq<u8>)| #[trigger]
            self.badges@.contains_key(key) ==> self.badges@[key].quiz == key.0
                && self.badges@[key].owner@ == key.1
        &&& forall|key: (u64, Seq<u8>)| #[trigger]
            self.rewards@.contains_key(key) ==> self.rewards@[key].owner@ == key.1
        &&& self.badge_configs@.dom().finite()
        &&& self.badges@.dom().finite()
        &&& self.badge_config_pool.config_count == self.badge_configs@.len()
        &&& self.badge_config_pool.total == self.badges@.len()
    }

    /// The proof kept under `timestamp` and `submitter`, if there is one.
    pub open spec fn proof_of(self, timestamp: u64, submitter: Pubkey) -> Option<ConsensusState> {
        if self.consensus@.contains_key((timestamp, submitter@)) {
            Some(self.consensus@[(timestamp, submitter@)])
        } else {
            None
        }
    }

    /// The claim record of `claimant` for `task`: a new one if none is
    /// kept yet.
    pub open spec fn reward_of(self, task: u16, claimant: Pubkey) -> ClaimReward {
        if self.rewards@.contains_key((task as u64, claimant@)) {
            self.rewards@[(task as u64, claimant@)]
        } else {
            ClaimReward::spec_new()
        }
    }

    /// The nonce that the next claim of `claimant` for `task` must carry.
    pub open spec fn next_nonce(self, task: u16, claimant: Pubkey) -> u16 {
        self.reward_of(task, claimant).times
    }

    /// The badge of `user` for `quiz`, if there is one.
    pub open spec fn badge_of(self, quiz: u64, user: Pubkey) -> Option<Badge> {
        if self.badges@.contains_key((quiz, user@)) {
            Some(self.badges@[(quiz, user@)])
        } else {
            None
        }
    }

    /// The counter of `quiz`: a new one if none is kept yet.
    pub open spec fn badge_config_of(self, quiz: u64) -> BadgeConfig {
        if self.badge_configs@.contains_key(quiz) {
            self.badge_configs@[quiz]
        } else {
            BadgeConfig { quiz: 0, total: 0 }
        }
    }

    /// The ledger of the program `program_id`, whose pool state lives at
    /// `state_key`, derived with `state_bump`: nothing is set up and
    /// nothing is kept.
    pub fn new(program_id: Pubkey, state_key: Pubkey, state_bump: u8) -> (ledger: Ledger)
        ensures
            ledger.program_id == program_id,
            ledger.config == Config::spec_new(),
            ledger.config_lamports == 0,
            ledger.state == StateAccount::spec_new(),
            ledger.state_key == state_key,
            ledger.state_bump == state_bump,
            ledger.badge_config_pool == (BadgeConfigPool { total: 0, config_count: 0 }),
            ledger.consensus@ == Map::<(u64, Seq<u8>), ConsensusState>::empty(),
            ledger.rewards@ == Map::<(u64, Seq<u8>), ClaimReward>::empty(),
            ledger.badge_configs@ == Map::<u64, BadgeConfig>::empty(),
            ledger.badges@ == Map::<(u64, Seq<u8>), Badge>::empty(),
            ledger.wf(),
    {
        let ledger = Ledger {
            program_id,
            config: Config::new(),
            config_lamports: 0,
            state: StateAccount::new(),
            state_key,
            state_bump,
            badge_config_pool: BadgeConfigPool::new(),
            consensus: Table::new(),
            rewards: Table::new(),
            badge_configs: HashMap::new(),
            badges: Table::new(),
        };
        proof {
            assert forall|quiz: u64|
                ledger.badge_config_of(quiz).total == (#[trigger] quiz_badges(
                    ledger.badges@,
                    quiz,
                )).len() by {
                assert(quiz_badges(ledger.badges@, quiz) =~= Set::<(u64, Seq<u8>)>::empty());
            }
        }
        ledger
    }

    /// The records that an upload of a proof by `user` under `timestamp`
    /// touches.
    pub open spec fn upload_validation_context(
        self,
        user: Pubkey,
        user_lamports: u64,
        ix_sysvar: InstructionsSysvar,
        timestamp: u64,
    ) -> UploadValidation {
        UploadValidation {
            user,
            user_lamports,
            config: self.config,
            config_lamports: self.config_lamports,
            consensus: self.proof_of(timestamp, user),
            ix_sysvar,
        }
    }

    /// The records that a claim of `payer` for `task` touches.
    pub open spec fn claim_context(
        self,
        payer: Pubkey,
        token_vault: TokenAccount,
        receiver: TokenAccount,
        mint: Pubkey,
        ix_sysvar: InstructionsSysvar,
        task: u16,
    ) -> Claim {
        Claim {
            program_id: self.program_id,
            payer,
            config: self.config,
            state: self.state,
            state_key: self.state_key,
            reward: self.reward_of(task, payer),
            token_vault,
            receiver,
            mint,
            ix_sysvar,
        }
    }

    /// The records that setting a pool up for `payer` touches.
    pub open spec fn ini_claim_context(
        self,
        payer: Pubkey,
        mint: Pubkey,
        token_vault_key: Pubkey,
        token_vault: TokenAccount,
    ) -> IniClaim {
        IniClaim {
            program_id: self.program_id,
            state: self.state,
            state_key: self.state_key,
            state_bump: self.state_bump,
            mint,
            token_vault,
            token_vault_key,
            config: self.config,
            payer,
        }
    }

    /// The records that the badge of `user` for `quiz` touches.
    pub open spec fn upload_badge_context(
        self,
        user: Pubkey,
        ix_sysvar: InstructionsSysvar,
        quiz: u64,
    ) -> UploadBadge {
        UploadBadge {
            user,
            config: self.config,
            badge_config_pool: self.badge_config_pool,
            badge_config: self.badge_config_of(quiz),
            badge: self.badge_of(quiz, user),
            ix_sysvar,
        }
    }
}

/// Sets the configuration up, once, with `payer` as its owner.
pub fn initialize(ledger: &mut Ledger, payer: Pubkey, signer: Pubkey, fee: u64) -> (r: Result<
    (),
    ErrorCode,
>)
    ensures
        old(ledger).config.initialized ==> r == Err::<(), ErrorCode>(ErrorCode::Initialized)
            && *final(ledger) == *old(ledger),
        !old(ledger).config.initialized ==> r is Ok && *final(ledger) == (Ledger {
            config: Config { signer, owner: payer, fee, initialized: true, ..old(ledger).config },
            ..*old(ledger)
        }),
        old(ledger).wf() ==> final(ledger).wf(),
{
    let mut ctx = Initialize { config: ledger.config, payer };
    crate::instructions::initialize::initialize(&mut ctx, signer, fee)?;
    ledger.config = ctx.config;
    Ok(())
}

/// Changes the trusted signer and the upload fee, for the owner.
pub fn update(ledger: &mut Ledger, payer: Pubkey, signer: Pubkey, fee: u64) -> (r: Result<
    (),
    ErrorCode,
>)
    ensures
        match owner_refusal(old(ledger).config, payer) {
            Some(e) => r == Err::<(), ErrorCode>(e) && *final(ledger) == *old(ledger),
            None => r is Ok && *final(ledger) == (Ledger {
                config: Config { signer, fee, ..old(ledger).config },
                ..*old(ledger)
            }),
        },
        old(ledger).wf() ==> final(ledger).wf(),
{
    let mut ctx = Update { config: ledger.config, payer };
    crate::instructions::update::update(&mut ctx, signer, fee)?;
    ledger.config = ctx.config;
    Ok(())
}

/// Moves `amount` out of the configuration's custody into the owner's
/// balance; all of it if `amount` is zero.
pub fn withdraw(ledger: &mut Ledger, payer: Pubkey, payer_lamports: &mut u64, amount: u64) -> (r:
    Result<(), ErrorCode>)
    ensures
        match withdraw_refusal(
            Withdraw {
                config: old(ledger).config,
                config_lamports: old(ledger).config_lamports,
                payer,
                payer_lamports: *old(payer_lamports),
            },
            amount,
        ) {
            Some(e) => r == Err::<(), ErrorCode>(e) && *final(ledger) == *old(ledger)
                && *final(payer_lamports) == *old(payer_lamports),
            None => r is Ok && *final(ledger) == (Ledger {
                config_lamports: (old(ledger).config_lamports - withdrawn(
                    old(ledger).config_lamports,
                    amount,
                )) as u64,
                ..*old(ledger)
            }) && *final(payer_lamports) == *old(payer_lamports) + withdrawn(
                old(ledger).config_lamports,
                amount,
            ),
        },
        old(ledger).wf() ==> final(ledger).wf(),
{
    let mut ctx = Withdraw {
        config: ledger.config,
        config_lamports: ledger.config_lamports,
        payer,
        payer_lamports: *payer_lamports,
    };
    crate::instructions::withdraw::withdraw(&mut ctx, amount)?;
    ledger.config_lamports = ctx.config_lamports;
    *payer_lamports = ctx.payer_lamports;
    Ok(())
}

/// What an accepted upload by `user` under `timestamp` leaves in the
/// ledger: the proof is kept under the two, it holds the statement's
/// timestamp and proof and says whether the submitter is the configured
/// signer, the fee is in the configuration's custody, and nothing else has
/// changed.
pub open spec fn proof_kept(
    pre: Ledger,
    post: Ledger,
    user: Pubkey,
    timestamp: u64,
    admitted: (u64, Seq<u8>),
) -> bool {
    let key = (timestamp, user@);
    &&& post.consensus@.contains_key(key)
    &&& post.consensus@[key].timestamp == admitted.0
    &&& post.consensus@[key].consensus_proof@ == admitted.1
    &&& post.consensus@[key].global == (user@ == pre.config.signer@)
    &&& post.consensus@[key].bump == 0
    &&& post.consensus@ == pre.consensus@.insert(key, post.consensus@[key])
    &&& post.config_lamports == pre.config_lamports + pre.config.fee
    &&& post == (Ledger {
        consensus: post.consensus,
        config_lamports: post.config_lamports,
        ..pre
    })
}

/// Uploads, for `user`, the consensus proof that `msg` states, signed by
/// `sig`, to be kept under `timestamp` and `user`. The fee is taken out of
/// `user_lamports`.
pub fn upload_validation(
    ledger: &mut Ledger,
    user: Pubkey,
    user_lamports: &mut u64,
    ix_sysvar: InstructionsSysvar,
    timestamp: u64,
    msg: Vec<u8>,
    sig: [u8; 64],
) -> (r: Result<(), ErrorCode>)
    ensures
        match upload_validation_refusal(
            old(ledger).upload_validation_context(
                user,
                *old(user_lamports),
                ix_sysvar,
                timestamp,
            ),
            msg@,
            sig@,
        ) {
            Some(e) => r == Err::<(), ErrorCode>(e) && *final(ledger) == *old(ledger)
                && *final(user_lamports) == *old(user_lamports),
            None => r is Ok && proof_kept(
                *old(ledger),
                *final(ledger),
                user,
                timestamp,
                admitted_proof(
                    old(ledger).upload_validation_context(
                        user,
                        *old(user_lamports),
                        ix_sysvar,
                        timestamp,
                    ),
                    msg@,
                    sig@,
                )->Ok_0,
            ) && *final(user_lamports) == *old(user_lamports) - old(ledger).config.fee,
        },
        old(ledger).consensus@.contains_key((timestamp, user@)) ==> r is Err,
        old(ledger).wf() ==> final(ledger).wf(),
{
    let mut ctx = UploadValidation {
        user,
        user_lamports: *user_lamports,
        config: ledger.config,
        config_lamports: ledger.config_lamports,
        consensus: ledger.consensus.get(timestamp, &user),
        ix_sysvar,
    };
    crate::instructions::upload_validation::upload_validation(&mut ctx, timestamp, msg, sig)?;
    match ctx.consensus {
        Some(record) => {
            ledger.consensus.set(timestamp, &user, record);
        },
        None => {},
    }
    ledger.config_lamports = ctx.config_lamports;
    *user_lamports = ctx.user_lamports;
    Ok(())
}

/// What a recorded badge of `user` for `quiz` leaves in the ledger: the
/// badge is kept under the two, with the tier; the counter of the quiz is
/// kept under the quiz and counts one more; one more badge is counted over
/// all, and one more quiz if the badge is the first of its quiz; nothing
/// else has changed.
pub open spec fn badge_kept(pre: Ledger, post: Ledger, user: Pubkey, quiz: u64, tier: u64) -> bool {
    let key = (quiz, user@);
    let counter = pre.badge_config_of(quiz);
    &&& post.badges@ == pre.badges@.insert(key, Badge { owner: user, quiz, tier })
    &&& post.badge_configs@ == pre.badge_configs@.insert(
        quiz,
        BadgeConfig {
            quiz: if is_first_of_quiz(counter) {
                quiz
            } else {
                counter.quiz
            },
            total: (counter.total + 1) as u64,
        },
    )
    &&& post.badge_config_pool == (BadgeConfigPool {
        total: (pre.badge_config_pool.total + 1) as u64,
        config_count: if is_first_of_quiz(counter) {
            (pre.badge_config_pool.config_count + 1) as u64
        } else {
            pre.badge_config_pool.config_count
        },
    })
    &&& post == (Ledger {
        badges: post.badges,
        badge_configs: post.badge_configs,
        badge_config_pool: post.badge_config_pool,
        ..pre
    })
}

/// A badge that is recorded on a ledger in order leaves it in order.
pub proof fn lemma_badge_keeps_order(pre: Ledger, post: Ledger, user: Pubkey, quiz: u64, tier: u64)
    requires
        pre.wf(),
        quiz != 0,
        !pre.badges@.contains_key((quiz, user@)),
        pre.badge_config_pool.total < u64::MAX,
        pre.badge_config_of(quiz).total < u64::MAX,
        is_first_of_quiz(pre.badge_config_of(quiz)) ==> pre.badge_config_pool.config_count
            < u64::MAX,
        badge_kept(pre, post, user, quiz, tier),
    ensures
        post.wf(),
{
    let key = (quiz, user@);
    assert(post.badges@.dom() =~= pre.badges@.dom().insert(key));
    assert(post.badge_configs@.dom() =~= pre.badge_configs@.dom().insert(quiz));
    assert forall|other: u64| post.badge_config_of(other).total == (#[trigger] quiz_badges(
        post.badges@,
        other,
    )).len() by {
        let kept = |key: (u64, Seq<u8>)| key.0 == other;
        pre.badges@.dom().lemma_len_filter(kept);
        assert(pre.badge_config_of(other).total == quiz_badges(pre.badges@, other).len());
        if other == quiz {
            assert(quiz_badges(post.badges@, other) =~= quiz_badges(pre.badges@, other).insert(
                key,
            ));
        } else {
            assert(quiz_badges(post.badges@, other) =~= quiz_badges(pre.badges@, other));
        }
    }
}

/// Records, for `user` and `quiz`, the badge that `msg` states, signed by
/// `sig`.
pub fn upload_badge(
    ledger: &mut Ledger,
    user: Pubkey,
    ix_sysvar: InstructionsSysvar,
    quiz: u64,
    msg: Vec<u8>,
    sig: [u8; 64],
) -> (r: Result<(), ErrorCode>)
    ensures
        match upload_badge_refusal(
            old(ledger).upload_badge_context(user, ix_sysvar, quiz),
            quiz,
            msg@,
            sig@,
        ) {
            Some(e) => r == Err::<(), ErrorCode>(e) && *final(ledger) == *old(ledger),
            None => r is Ok && badge_kept(
                *old(ledger),
                *final(ledger),
                user,
                quiz,
                admitted_tier(
                    old(ledger).upload_badge_context(user, ix_sysvar, quiz),
                    quiz,
                    msg@,
                    sig@,
                )->Ok_0,
            ),
        },
        old(ledger).badges@.contains_key((quiz, user@)) ==> r is Err,
        old(ledger).wf() ==> final(ledger).wf(),
{
    let counter = match ledger.badge_configs.get(&quiz) {
        Some(counter) => *counter,
        None => BadgeConfig::new(),
    };
    let mut ctx = UploadBadge {
        user,
        config: ledger.config,
        badge_config_pool: ledger.badge_config_pool,
        badge_config: counter,
        badge: ledger.badges.get(quiz, &user),
        ix_sysvar,
    };
    crate::instructions::upload_badge::upload_badge(&mut ctx, quiz, msg, sig)?;
    let ghost before = *ledger;
    match ctx.badge {
        Some(badge) => {
            proof {
                Pubkey::lemma_view_injective(badge.owner, user);
            }
            ledger.badges.set(quiz, &user, badge);
        },
        None => {},
    }
    ledger.badge_configs.insert(quiz, ctx.badge_config);
    ledger.badge_config_pool = ctx.badge_config_pool;
    proof {
        if before.wf() {
            lemma_badge_keeps_order(before, *ledger, user, quiz, ctx.badge->0.tier);
        }
    }
    Ok(())
}

/// What setting a pool up leaves in the ledger: the pool state has the
/// pool's kind of token and vault, and the bump of its own address; nothing
/// else has changed.
pub open spec fn pool_kept(pre: Ledger, post: Ledger, state: StateAccount) -> bool {
    post == (Ledger { state, ..pre })
}

/// Makes the vault at `token_vault_key` the vault of the primary pool, to
/// pay out tokens of the kind `mint`, for the owner.
pub fn ini_claim(
    ledger: &mut Ledger,
    payer: Pubkey,
    mint: Pubkey,
    token_vault_key: Pubkey,
    token_vault: &TokenAccount,
) -> (r: Result<(), ErrorCode>)
    ensures
        match pool_refusal(old(ledger).ini_claim_context(payer, mint, token_vault_key, *token_vault)) {
            Some(e) => r == Err::<(), ErrorCode>(e) && *final(ledger) == *old(ledger),
            None => r is Ok && pool_kept(
                *old(ledger),
                *final(ledger),
                StateAccount {
                    token_mint: mint,
                    token_vault: token_vault_key,
                    bump: old(ledger).state_bump,
                    ..old(ledger).state
                },
            ),
        },
        old(ledger).wf() ==> final(ledger).wf(),
{
    let mut ctx = IniClaim {
        program_id: ledger.program_id,
        state: ledger.state,
        state_key: ledger.state_key,
        state_bump: ledger.state_bump,
        mint,
        token_vault: *token_vault,
        token_vault_key,
        config: ledger.config,
        payer,
    };
    crate::instructions::claim::ini_claim(&mut ctx)?;
    ledger.state = ctx.state;
    Ok(())
}

/// Makes the vault at `token_vault_key` the vault of the public pool, to
/// pay out tokens of the kind `mint`, for the owner.
pub fn ini_claim_public(
    ledger: &mut Ledger,
    payer: Pubkey,
    mint: Pubkey,
    token_vault_key: Pubkey,
    token_vault: &TokenAccount,
) -> (r: Result<(), ErrorCode>)
    ensures
        match pool_refusal(old(ledger).ini_claim_context(payer, mint, token_vault_key, *token_vault)) {
            Some(e) => r == Err::<(), ErrorCode>(e) && *final(ledger) == *old(ledger),
            None => r is Ok && pool_kept(
                *old(ledger),
                *final(ledger),
                StateAccount {
                    public_token_mint: mint,
                    public_token_vault: token_vault_key,
                    bump: old(ledger).state_bump,
                    ..old(ledger).state
                },
            ),
        },
        old(ledger).wf() ==> final(ledger).wf(),
{
    let mut ctx = IniClaim {
        program_id: ledger.program_id,
        state: ledger.state,
        state_key: ledger.state_key,
        state_bump: ledger.state_bump,
        mint,
        token_vault: *token_vault,
        token_vault_key,
        config: ledger.config,
        payer,
    };
    crate::instructions::claim::ini_claim_public(&mut ctx)?;
    ledger.state = ctx.state;
    Ok(())
}

/// What an accepted claim of `reward` by `payer` for `task` leaves in the
/// ledger: the claim record of the two belongs to the claimant, holds the
/// reward and expects the next nonce; the total claimed has grown by the
/// reward; nothing else has changed.
pub open spec fn claim_kept(pre: Ledger, post: Ledger, payer: Pubkey, task: u16, reward: u64) -> bool {
    &&& post.rewards@ == pre.rewards@.insert(
        (task as u64, payer@),
        ClaimReward { owner: payer, reward, times: (pre.next_nonce(task, payer) + 1) as u16 },
    )
    &&& post.state == (StateAccount { claimed: (pre.state.claimed + reward) as u64, ..pre.state })
    &&& post == (Ledger { rewards: post.rewards, state: post.state, ..pre })
}

/// What an accepted claim of `reward` leaves in the vault: the reward has
/// left it.
pub open spec fn paid_out(vault_before: TokenAccount, vault_after: TokenAccount, reward: u64) -> bool {
    vault_after == (TokenAccount { amount: (vault_before.amount - reward) as u64, ..vault_before })
}

/// What an accepted claim of `reward` leaves in the receiving balance: the
/// reward has come in.
pub open spec fn paid_in(
    receiver_before: TokenAccount,
    receiver_after: TokenAccount,
    reward: u64,
) -> bool {
    receiver_after == (TokenAccount {
        amount: (receiver_before.amount + reward) as u64,
        ..receiver_before
    })
}

/// What an accepted claim of `reward` leaves in the balances: the reward
/// has moved from the vault to the receiving balance.
pub open spec fn reward_paid(
    vault_before: TokenAccount,
    vault_after: TokenAccount,
    receiver_before: TokenAccount,
    receiver_after: TokenAccount,
    reward: u64,
) -> bool {
    paid_out(vault_before, vault_after, reward) && paid_in(receiver_before, receiver_after, reward)
}

/// Claims, out of the primary pool and for `payer`, the reward that `msg`
/// grants, signed by `sig`, against the claim record of `payer` for
/// `task`. The reward moves from `token_vault` to `receiver`.
pub fn claim(
    ledger: &mut Ledger,
    payer: Pubkey,
    token_vault: &mut TokenAccount,
    receiver: &mut TokenAccount,
    mint: Pubkey,
    ix_sysvar: InstructionsSysvar,
    task: u16,
    msg: Vec<u8>,
    sig: [u8; 64],
) -> (r: Result<(), ErrorCode>)
    ensures
        match claim_refusal(
            old(ledger).claim_context(
                payer,
                *old(token_vault),
                *old(receiver),
                mint,
                ix_sysvar,
                task,
            ),
            old(ledger).state.token_mint,
            task,
            msg@,
            sig@,
        ) {
            Some(e) => r == Err::<(), ErrorCode>(e) && *final(ledger) == *old(ledger)
                && *final(token_vault) == *old(token_vault) && *final(receiver) == *old(receiver),
            None => r is Ok && claim_kept(
                *old(ledger),
                *final(ledger),
                payer,
                task,
                claim_statement(msg@)->Ok_0.reward,
            ) && reward_paid(
                *old(token_vault),
                *final(token_vault),
                *old(receiver),
                *final(receiver),
                claim_statement(msg@)->Ok_0.reward,
            ),
        },
        r is Ok ==> claim_statement(msg@) is Ok && claim_statement(msg@)->Ok_0.task == task
            && claim_statement(msg@)->Ok_0.nonce == old(ledger).next_nonce(task, payer),
        old(ledger).wf() ==> final(ledger).wf(),
{
    let record = match ledger.rewards.get(task as u64, &payer) {
        Some(record) => record,
        None => ClaimReward::new(),
    };
    let mut ctx = Claim {
        program_id: ledger.program_id,
        payer,
        config: ledger.config,
        state: ledger.state,
        state_key: ledger.state_key,
        reward: record,
        token_vault: *token_vault,
        receiver: *receiver,
        mint,
        ix_sysvar,
    };
    crate::instructions::claim::claim(&mut ctx, task, msg, sig)?;
    proof {
        Pubkey::lemma_view_injective(ctx.reward.owner, payer);
    }
    ledger.rewards.set(task as u64, &payer, ctx.reward);
    ledger.state = ctx.state;
    *token_vault = ctx.token_vault;
    *receiver = ctx.receiver;
    Ok(())
}

/// Claims, out of the public pool and for `payer`, the reward that `msg`
/// grants, signed by `sig`, against the claim record of `payer` for
/// `task`. The reward moves from `token_vault` to `receiver`.
pub fn claim_public(
    ledger: &mut Ledger,
    payer: Pubkey,
    token_vault: &mut TokenAccount,
    receiver: &mut TokenAccount,
    mint: Pubkey,
    ix_sysvar: InstructionsSysvar,
    task: u16,
    msg: Vec<u8>,
    sig: [u8; 64],
) -> (r: Result<(), ErrorCode>)
    ensures
        match claim_refusal(
            old(ledger).claim_context(
                payer,
                *old(token_vault),
                *old(receiver),
                mint,
                ix_sysvar,
                task,
            ),
            old(ledger).state.public_token_mint,
            task,
            msg@,
            sig@,
        ) {
            Some(e) => r == Err::<(), ErrorCode>(e) && *final(ledger) == *old(ledger)
                && *final(token_vault) == *old(token_vault) && *final(receiver) == *old(receiver),
            None => r is Ok && claim_kept(
                *old(ledger),
                *final(ledger),
                payer,
                task,
                claim_statement(msg@)->Ok_0.reward,
            ) && reward_paid(
                *old(token_vault),
                *final(token_vault),
                *old(receiver),
                *final(receiver),
                claim_statement(msg@)->Ok_0.reward,
            ),
        },
        r is Ok ==> claim_statement(msg@) is Ok && claim_statement(msg@)->Ok_0.task == task
            && claim_statement(msg@)->Ok_0.nonce == old(ledger).next_nonce(task, payer),
        old(ledger).wf() ==> final(ledger).wf(),
{
    let record = match ledger.rewards.get(task as u64, &payer) {
        Some(record) => record,
        None => ClaimReward::new(),
    };
    let mut ctx = Claim {
        program_id: ledger.program_id,
        payer,
        config: ledger.config,
        state: ledger.state,
        state_key: ledger.state_key,
        reward: record,
        token_vault: *token_vault,
        receiver: *receiver,
        mint,
        ix_sysvar,
    };
    crate::instructions::claim::claim_public(&mut ctx, task, msg, sig)?;
    proof {
        Pubkey::lemma_view_injective(ctx.reward.owner, payer);
    }
    ledger.rewards.set(task as u64, &payer, ctx.reward);
    ledger.state = ctx.state;
    *token_vault = ctx.token_vault;
    *receiver = ctx.receiver;
    Ok(())
}

} // verus!
