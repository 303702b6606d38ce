//! What holds of the ledger over more than one operation.

use vstd::prelude::*;
use crate::errors::error::ErrorCode;
use crate::instructions::claim::{balances_refusal, claim_refusal, claim_statement};
use crate::instructions::upload_badge::upload_badge_refusal;
use crate::instructions::upload_validation::{
    admitted_proof, upload_validation_refusal, validation_statement,
};
use crate::ledger::{
    badge_kept, claim_kept, lemma_badge_keeps_order, paid_out, proof_kept, Ledger,
};
use crate::pubkey::Pubkey;
use crate::states::claim::TokenAccount;
use crate::utils::ed25519::{attests, lemma_record_binds};
use crate::utils::instructions::{preceding_instruction, signed_by, InstructionsSysvar};

verus! {

/// A claim as it is submitted: who claims, with which balances, in which
/// transaction, for which task, with which message and signature, and out
/// of which pool.
pub struct ClaimCall {
    pub payer: Pubkey,
    pub token_vault: TokenAccount,
    pub receiver: TokenAccount,
    pub mint: Pubkey,
    pub ix_sysvar: InstructionsSysvar,
    pub task: u16,
    pub msg: Seq<u8>,
    pub sig: Seq<u8>,
    /// Whether the claim goes to the public pool.
    pub public: bool,
}

impl ClaimCall {
    /// The nonce that the claim's statement carries.
    pub open spec fn nonce(self) -> u16 {
        claim_statement(self.msg)->Ok_0.nonce
    }

    /// The reward that the claim's statement grants.
    pub open spec fn reward(self) -> u64 {
        claim_statement(self.msg)->Ok_0.reward
    }

    /// Why the ledger refuses the claim, if it does.
    pub open spec fn refusal(self, ledger: Ledger) -> Option<ErrorCode> {
        claim_refusal(
            ledger.claim_context(
                self.payer,
                self.token_vault,
                self.receiver,
                self.mint,
                self.ix_sysvar,
                self.task,
            ),
            if self.public {
                ledger.state.public_token_mint
            } else {
                ledger.state.token_mint
            },
            self.task,
            self.msg,
            self.sig,
        )
    }

    /// Whether the claim takes the ledger from `pre` to `post`: it is not
    /// refused, and `post` is what it leaves.
    pub open spec fn accepted(self, pre: Ledger, post: Ledger) -> bool {
        self.refusal(pre) is None && claim_kept(pre, post, self.payer, self.task, self.reward())
    }
}

/// The number of claims among the steps.
pub open spec fn claims_among(steps: Seq<Option<ClaimCall>>) -> nat
    decreases steps.len(),
{
    if steps.len() == 0 {
        0
    } else {
        claims_among(steps.drop_last()) + if steps.last() is Some {
            1nat
        } else {
            0nat
        }
    }
}

/// The sum of the rewards of the claims among the steps.
pub open spec fn rewards_among(steps: Seq<Option<ClaimCall>>) -> nat
    decreases steps.len(),
{
    if steps.len() == 0 {
        0
    } else {
        rewards_among(steps.drop_last()) + match steps.last() {
            Some(call) => call.reward() as nat,
            None => 0nat,
        }
    }
}

/// Whether the ledgers are a history of the claim record of `claimant` for
/// `task`: each step is either an accepted claim of the claimant for the
/// task, or something else, which leaves that claim record as it is.
pub open spec fn is_history_of_record(
    ledgers: Seq<Ledger>,
    steps: Seq<Option<ClaimCall>>,
    task: u16,
    claimant: Pubkey,
) -> bool {
    &&& ledgers.len() == steps.len() + 1
    &&& forall|i: int|
        0 <= i < steps.len() ==> match #[trigger] steps[i] {
            Some(call) => call.task == task && call.payer == claimant && call.accepted(
                ledgers[i],
                ledgers[i + 1],
            ),
            None => ledgers[i + 1].reward_of(task, claimant) == ledgers[i].reward_of(
                task,
                claimant,
            ),
        }
}

proof fn lemma_record_counts_claims(
    ledgers: Seq<Ledger>,
    steps: Seq<Option<ClaimCall>>,
    task: u16,
    claimant: Pubkey,
    upto: int,
)
    requires
        is_history_of_record(ledgers, steps, task, claimant),
        ledgers[0].next_nonce(task, claimant) == 0,
        0 <= upto <= steps.len(),
    ensures
        ledgers[upto].next_nonce(task, claimant) == claims_among(steps.take(upto)),
    decreases upto,
{
    if upto > 0 {
        lemma_record_counts_claims(ledgers, steps, task, claimant, upto - 1);
        assert(steps.take(upto).drop_last() == steps.take(upto - 1));
        assert(steps.take(upto).last() == steps[upto - 1]);
        match steps[upto - 1] {
            Some(call) => {
                assert(call.accepted(ledgers[upto - 1], ledgers[upto]));
            },
            None => {},
        }
    }
}

/// The claims that are accepted for one claimant and one task carry the
/// nonces 0, 1, 2 and so on, in that order: each accepted claim carries
/// the number of claims that were accepted for the two before it, whatever
/// else happened in between.
pub proof fn lemma_accepted_nonces_are_sequential(
    ledgers: Seq<Ledger>,
    steps: Seq<Option<ClaimCall>>,
    task: u16,
    claimant: Pubkey,
)
    requires
        is_history_of_record(ledgers, steps, task, claimant),
        !ledgers[0].rewards@.contains_key((task as u64, claimant@)),
    ensures
        forall|i: int|
            0 <= i < steps.len() ==> (#[trigger] steps[i] matches Some(call) ==> call.nonce()
                == claims_among(steps.take(i))),
        ledgers.last().next_nonce(task, claimant) == claims_among(steps),
{
    assert forall|i: int| 0 <= i < steps.len() implies (#[trigger] steps[i] matches Some(call)
        ==> call.nonce() == claims_among(steps.take(i))) by {
        lemma_record_counts_claims(ledgers, steps, task, claimant, i);
        match steps[i] {
            Some(call) => {
                assert(call.accepted(ledgers[i], ledgers[i + 1]));
            },
            None => {},
        }
    }
    lemma_record_counts_claims(ledgers, steps, task, claimant, steps.len() as int);
    assert(steps.take(steps.len() as int) == steps);
}

/// A claim whose nonce is not the one that the claim record of its
/// claimant and task expects next, be it lower or higher, is refused.
pub proof fn lemma_wrong_nonce_is_refused(ledger: Ledger, call: ClaimCall)
    requires
        claim_statement(call.msg) is Ok,
        call.nonce() != ledger.next_nonce(call.task, call.payer),
    ensures
        call.refusal(ledger) is Some,
{
}

/// Where nothing else stands in the way, a claim is accepted exactly when
/// its nonce is the one that the claim record of its claimant and task
/// expects next, and any other nonce is a nonce error. Nothing else stands
/// in the way when the balances are in order, the statement is for the
/// claim's task and names the claimant, the configuration is set up, the
/// signature was verified, the counters have room, the vault holds the
/// reward, and the receiving balance has room for it.
pub proof fn lemma_claim_is_accepted_on_the_next_nonce_only(ledger: Ledger, call: ClaimCall)
    requires
        balances_refusal(
            ledger.claim_context(
                call.payer,
                call.token_vault,
                call.receiver,
                call.mint,
                call.ix_sysvar,
                call.task,
            ),
            if call.public {
                ledger.state.public_token_mint
            } else {
                ledger.state.token_mint
            },
        ) is None,
        claim_statement(call.msg) matches Ok(statement) && statement.task == call.task
            && statement.receiver == call.payer@,
        ledger.config.initialized,
        signed_by(
            call.ix_sysvar.key@,
            call.ix_sysvar.data@,
            ledger.config.signer@,
            call.msg,
            call.sig,
        ),
        ledger.next_nonce(call.task, call.payer) < u16::MAX,
        ledger.state.claimed + call.reward() <= u64::MAX,
        call.token_vault.amount >= call.reward(),
        call.receiver.amount + call.reward() <= u64::MAX,
    ensures
        call.refusal(ledger) is None <==> call.nonce() == ledger.next_nonce(call.task, call.payer),
        call.nonce() != ledger.next_nonce(call.task, call.payer) ==> call.refusal(ledger) == Some(
            ErrorCode::NonceError,
        ),
{
}

/// A statement is paid for its own task only: a claim whose statement is
/// for another task than the one it is submitted for is refused.
pub proof fn lemma_statement_of_another_task_is_refused(ledger: Ledger, call: ClaimCall)
    requires
        claim_statement(call.msg) matches Ok(statement) && statement.task != call.task,
    ensures
        call.refusal(ledger) is Some,
{
}

/// A statement that was accepted for one task is refused under every
/// other, by whomever, with whatever balances and on whatever ledger it is
/// submitted again.
pub proof fn lemma_accepted_statement_is_refused_under_another_task(
    pre: Ledger,
    post: Ledger,
    call: ClaimCall,
    ledger: Ledger,
    again: ClaimCall,
)
    requires
        call.accepted(pre, post),
        again.msg == call.msg,
        again.task != call.task,
    ensures
        again.refusal(ledger) is Some,
{
}

/// A claim that was accepted is refused when it is submitted again.
pub proof fn lemma_replayed_claim_is_refused(pre: Ledger, post: Ledger, call: ClaimCall)
    requires
        call.accepted(pre, post),
    ensures
        call.refusal(post) is Some,
{
    assert(post.rewards@.contains_key((call.task as u64, call.payer@)));
}

/// A claim of one claimant for one task leaves the claim records of every
/// other pair as they are.
pub proof fn lemma_claim_keeps_other_records(
    pre: Ledger,
    post: Ledger,
    call: ClaimCall,
    task: u16,
    claimant: Pubkey,
)
    requires
        call.accepted(pre, post),
        (call.task, call.payer@) != (task, claimant@),
    ensures
        post.reward_of(task, claimant) == pre.reward_of(task, claimant),
{
    assert((call.task as u64, call.payer@) != (task as u64, claimant@));
}

/// Whether the ledgers and the vaults are a history of a pool: each step
/// is either an accepted claim that is paid out of the vault as the step
/// before left it, or something else, which leaves the total claimed and
/// the vault as they are.
pub open spec fn is_history_of_pool(
    ledgers: Seq<Ledger>,
    vaults: Seq<TokenAccount>,
    steps: Seq<Option<ClaimCall>>,
) -> bool {
    &&& ledgers.len() == steps.len() + 1
    &&& vaults.len() == steps.len() + 1
    &&& forall|i: int|
        0 <= i < steps.len() ==> match #[trigger] steps[i] {
            Some(call) => call.token_vault == vaults[i] && call.accepted(
                ledgers[i],
                ledgers[i + 1],
            ) && paid_out(vaults[i], vaults[i + 1], call.reward()),
            None => ledgers[i + 1].state.claimed == ledgers[i].state.claimed && vaults[i + 1]
                == vaults[i],
        }
}

proof fn lemma_pool_sums_rewards(
    ledgers: Seq<Ledger>,
    vaults: Seq<TokenAccount>,
    steps: Seq<Option<ClaimCall>>,
    upto: int,
)
    requires
        is_history_of_pool(ledgers, vaults, steps),
        0 <= upto <= steps.len(),
    ensures
        ledgers[upto].state.claimed == ledgers[0].state.claimed + rewards_among(steps.take(upto)),
        vaults[upto].amount == vaults[0].amount - rewards_among(steps.take(upto)),
    decreases upto,
{
    if upto > 0 {
        lemma_pool_sums_rewards(ledgers, vaults, steps, upto - 1);
        assert(steps.take(upto).drop_last() == steps.take(upto - 1));
        assert(steps.take(upto).last() == steps[upto - 1]);
        match steps[upto - 1] {
            Some(call) => {
                assert(call.accepted(ledgers[upto - 1], ledgers[upto]));
                assert(paid_out(vaults[upto - 1], vaults[upto], call.reward()));
            },
            None => {},
        }
    }
}

/// After any number of accepted claims the total claimed has grown by
/// exactly the sum of their rewards, and the vault holds exactly that sum
/// less.
pub proof fn lemma_total_claimed_is_sum_of_rewards(
    ledgers: Seq<Ledger>,
    vaults: Seq<TokenAccount>,
    steps: Seq<Option<ClaimCall>>,
)
    requires
        is_history_of_pool(ledgers, vaults, steps),
    ensures
        ledgers.last().state.claimed == ledgers[0].state.claimed + rewards_among(steps),
        vaults.last().amount == vaults[0].amount - rewards_among(steps),
{
    lemma_pool_sums_rewards(ledgers, vaults, steps, steps.len() as int);
    assert(steps.take(steps.len() as int) == steps);
}

/// The total claimed never goes down over a history of a pool.
pub proof fn lemma_total_claimed_only_grows(
    ledgers: Seq<Ledger>,
    vaults: Seq<TokenAccount>,
    steps: Seq<Option<ClaimCall>>,
)
    requires
        is_history_of_pool(ledgers, vaults, steps),
    ensures
        ledgers.last().state.claimed >= ledgers[0].state.claimed,
{
    lemma_total_claimed_is_sum_of_rewards(ledgers, vaults, steps);
}

/// The step before an operation vouches for one message and one signature
/// under a key: a message or a signature that differs from them, be it in
/// a single bit, is not signed by that step.
pub proof fn lemma_tampered_statement_is_not_signed(
    key: Seq<u8>,
    data: Seq<u8>,
    signer: Seq<u8>,
    msg: Seq<u8>,
    sig: Seq<u8>,
    other_msg: Seq<u8>,
    other_sig: Seq<u8>,
)
    requires
        signed_by(key, data, signer, msg, sig),
        other_msg != msg || other_sig != sig,
    ensures
        !signed_by(key, data, signer, other_msg, other_sig),
{
    let ix = preceding_instruction(key, data)->0;
    if attests(ix, signer, other_msg, other_sig) {
        lemma_record_binds(ix.data, signer, msg, sig, signer, other_msg, other_sig);
    }
}

/// An upload whose message or signature differs from what the step before
/// it verified is refused.
pub proof fn lemma_tampered_upload_is_refused(
    ledger: Ledger,
    user: Pubkey,
    user_lamports: u64,
    ix_sysvar: InstructionsSysvar,
    timestamp: u64,
    msg: Seq<u8>,
    sig: Seq<u8>,
    other_msg: Seq<u8>,
    other_sig: Seq<u8>,
)
    requires
        signed_by(ix_sysvar.key@, ix_sysvar.data@, ledger.config.signer@, msg, sig),
        other_msg != msg || other_sig != sig,
    ensures
        upload_validation_refusal(
            ledger.upload_validation_context(user, user_lamports, ix_sysvar, timestamp),
            other_msg,
            other_sig,
        ) is Some,
{
    lemma_tampered_statement_is_not_signed(
        ix_sysvar.key@,
        ix_sysvar.data@,
        ledger.config.signer@,
        msg,
        sig,
        other_msg,
        other_sig,
    );
}

/// An upload whose message and signature are what the step before it
/// verified under the configured signer is accepted, the first time for
/// its timestamp and submitter, provided that its proof is admitted and
/// its fee can be moved.
pub proof fn lemma_genuine_upload_is_accepted(
    ledger: Ledger,
    user: Pubkey,
    user_lamports: u64,
    ix_sysvar: InstructionsSysvar,
    timestamp: u64,
    msg: Seq<u8>,
    sig: Seq<u8>,
)
    requires
        admitted_proof(
            ledger.upload_validation_context(user, user_lamports, ix_sysvar, timestamp),
            msg,
            sig,
        ) is Ok,
        !ledger.consensus@.contains_key((timestamp, user@)),
        ledger.config.fee <= user_lamports,
        ledger.config_lamports + ledger.config.fee <= u64::MAX,
    ensures
        upload_validation_refusal(
            ledger.upload_validation_context(user, user_lamports, ix_sysvar, timestamp),
            msg,
            sig,
        ) is None,
{
}

/// Once a proof is kept under a timestamp and a submitter, every further
/// upload under the two is refused, whatever it states.
pub proof fn lemma_proof_is_uploaded_once(
    pre: Ledger,
    post: Ledger,
    user: Pubkey,
    timestamp: u64,
    admitted: (u64, Seq<u8>),
    user_lamports: u64,
    ix_sysvar: InstructionsSysvar,
    msg: Seq<u8>,
    sig: Seq<u8>,
)
    requires
        proof_kept(pre, post, user, timestamp, admitted),
    ensures
        upload_validation_refusal(
            post.upload_validation_context(user, user_lamports, ix_sysvar, timestamp),
            msg,
            sig,
        ) is Some,
{
}

/// An upload leaves every proof that is kept under another timestamp or
/// another submitter as it is, and adds none there.
pub proof fn lemma_upload_keeps_other_proofs(
    pre: Ledger,
    post: Ledger,
    user: Pubkey,
    timestamp: u64,
    admitted: (u64, Seq<u8>),
)
    requires
        proof_kept(pre, post, user, timestamp, admitted),
    ensures
        forall|key: (u64, Seq<u8>)|
            key != (timestamp, user@) ==> #[trigger] post.consensus@.contains_key(key)
                == pre.consensus@.contains_key(key) && (pre.consensus@.contains_key(key)
                ==> post.consensus@[key] == pre.consensus@[key]),
{
}

/// A genuine upload is kept under its timestamp and its submitter, with
/// the timestamp that its statement gives.
pub proof fn lemma_genuine_upload_is_kept(
    pre: Ledger,
    post: Ledger,
    user: Pubkey,
    user_lamports: u64,
    ix_sysvar: InstructionsSysvar,
    timestamp: u64,
    msg: Seq<u8>,
    sig: Seq<u8>,
)
    requires
        admitted_proof(
            pre.upload_validation_context(user, user_lamports, ix_sysvar, timestamp),
            msg,
            sig,
        ) is Ok,
        proof_kept(
            pre,
            post,
            user,
            timestamp,
            admitted_proof(
                pre.upload_validation_context(user, user_lamports, ix_sysvar, timestamp),
                msg,
                sig,
            )->Ok_0,
        ),
    ensures
        post.proof_of(timestamp, user) matches Some(record) && record.timestamp
            == validation_statement(msg)->Ok_0.timestamp,
{
}

/// Each kind of record has one writer: an upload of a proof leaves the
/// claim records, the pool state and the badges as they are; a badge
/// leaves the proofs, the claim records and the pool state as they are; a
/// claim leaves the proofs and the badges as they are. None of them
/// changes the configuration.
pub proof fn lemma_records_have_one_writer(
    pre: Ledger,
    post: Ledger,
    who: Pubkey,
    number: u64,
    admitted: (u64, Seq<u8>),
    tier: u64,
    task: u16,
    reward: u64,
)
    ensures
        proof_kept(pre, post, who, number, admitted) ==> post.rewards == pre.rewards && post.state
            == pre.state && post.badges == pre.badges && post.badge_configs == pre.badge_configs
            && post.badge_config_pool == pre.badge_config_pool && post.config == pre.config,
        badge_kept(pre, post, who, number, tier) ==> post.rewards == pre.rewards && post.state
            == pre.state && post.consensus == pre.consensus && post.config == pre.config
            && post.config_lamports == pre.config_lamports,
        claim_kept(pre, post, who, task, reward) ==> post.consensus == pre.consensus && post.badges
            == pre.badges && post.badge_configs == pre.badge_configs && post.badge_config_pool
            == pre.badge_config_pool && post.config == pre.config && post.config_lamports
            == pre.config_lamports,
{
}

/// While the configuration is not set up, no statement is admitted: every
/// upload of a proof, every badge and every claim is refused.
pub proof fn lemma_nothing_is_admitted_before_setup(
    ledger: Ledger,
    call: ClaimCall,
    user: Pubkey,
    user_lamports: u64,
    ix_sysvar: InstructionsSysvar,
    number: u64,
    msg: Seq<u8>,
    sig: Seq<u8>,
)
    requires
        !ledger.config.initialized,
    ensures
        call.refusal(ledger) is Some,
        upload_validation_refusal(
            ledger.upload_validation_context(user, user_lamports, ix_sysvar, number),
            msg,
            sig,
        ) is Some,
        upload_badge_refusal(ledger.upload_badge_context(user, ix_sysvar, number), number, msg, sig)
            is Some,
{
}

/// On a ledger that is in order, a quiz is counted when its first badge is
/// recorded and at no other time, its counter counts one badge more, and
/// the ledger stays in order.
pub proof fn lemma_quiz_is_counted_with_its_first_badge(
    pre: Ledger,
    post: Ledger,
    user: Pubkey,
    quiz: u64,
    tier: u64,
)
    requires
        pre.wf(),
        quiz != 0,
        !pre.badges@.contains_key((quiz, user@)),
        pre.badge_config_pool.total < u64::MAX,
        pre.badge_config_pool.config_count < u64::MAX,
        pre.badge_config_of(quiz).total < u64::MAX,
        badge_kept(pre, post, user, quiz, tier),
    ensures
        post.wf(),
        post.badge_config_pool.config_count == pre.badge_config_pool.config_count + (
        if pre.badge_configs@.contains_key(quiz) {
            0int
        } else {
            1int
        }),
        post.badge_config_pool.total == pre.badge_config_pool.total + 1,
        post.badge_config_of(quiz).quiz == quiz,
        post.badge_config_of(quiz).total == pre.badge_config_of(quiz).total + 1,
{
    lemma_badge_keeps_order(pre, post, user, quiz, tier);
}

/// Once a user has a badge for a quiz, every further badge for the two is
/// refused, whatever it states, and so the counters stay as the first
/// badge left them.
pub proof fn lemma_badge_is_recorded_once(
    pre: Ledger,
    post: Ledger,
    user: Pubkey,
    quiz: u64,
    tier: u64,
    ix_sysvar: InstructionsSysvar,
    msg: Seq<u8>,
    sig: Seq<u8>,
)
    requires
        badge_kept(pre, post, user, quiz, tier),
    ensures
        upload_badge_refusal(post.upload_badge_context(user, ix_sysvar, quiz), quiz, msg, sig)
            is Some,
{
    assert(post.badges@.contains_key((quiz, user@)));
}

} // verus!
