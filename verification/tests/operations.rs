use consensus_onchain::errors::error::ErrorCode;
use consensus_onchain::instructions::claim::{
    claim, claim_public, ini_claim, ini_claim_public, settle, Claim, ClaimInput, ClaimPublic,
    IniClaim, IniClaimPublic,
};
use consensus_onchain::instructions::initialize::{initialize, Initialize};
use consensus_onchain::instructions::update::{check_owner, update, Update};
use consensus_onchain::instructions::upload_badge::{
    record_badge, upload_badge, BadgeInfo, UploadBadge,
};
use consensus_onchain::instructions::upload_validation::{
    record_proof, upload_validation, UploadValidation, Validation,
};
use consensus_onchain::instructions::withdraw::{withdraw, Withdraw};
use consensus_onchain::pubkey::Pubkey;
use consensus_onchain::states::badge::{Badge, BadgeConfig, BadgeConfigPool};
use consensus_onchain::states::claim::{ClaimReward, StateAccount, TokenAccount};
use consensus_onchain::states::consensus::{Config, ConsensusState};
use consensus_onchain::utils::ed25519::ED25519_ID;
use consensus_onchain::utils::instructions::{InstructionsSysvar, INSTRUCTIONS_ID};
use solana_program::sysvar::instructions::{
    construct_instructions_data, store_current_index, BorrowedInstruction,
};

fn key(n: u8) -> Pubkey {
    Pubkey::new_from_array([n; 32])
}

fn key_json(n: u8) -> String {
    let items: Vec<String> = (0..32).map(|_| format!("{}", n)).collect();
    format!("[{}]", items.join(","))
}

const SIGNER: u8 = 7;
const OWNER: u8 = 3;
const USER: u8 = 11;
const MINT: u8 = 21;
const PUBLIC_MINT: u8 = 22;
const PROGRAM: u8 = 77;

fn authority() -> (Pubkey, u8) {
    let program = solana_program::pubkey::Pubkey::new_from_array([PROGRAM; 32]);
    let (address, bump) =
        solana_program::pubkey::Pubkey::find_program_address(&[b"state"], &program);
    (Pubkey::new_from_array(address.to_bytes()), bump)
}

fn signature() -> [u8; 64] {
    [0x5au8; 64]
}

fn signed(signer: u8, msg: &[u8], sig: &[u8; 64]) -> InstructionsSysvar {
    let mut record: Vec<u8> = vec![1, 0, 48, 0, 0xff, 0xff, 16, 0, 0xff, 0xff, 112, 0];
    record.push((msg.len() % 256) as u8);
    record.push((msg.len() / 256) as u8);
    record.push(0xff);
    record.push(0xff);
    record.extend_from_slice(&[signer; 32]);
    record.extend_from_slice(sig);
    record.extend_from_slice(msg);
    let ed25519 = solana_program::pubkey::Pubkey::new_from_array(ED25519_ID);
    let program = solana_program::pubkey::Pubkey::new_from_array([9u8; 32]);
    let steps = vec![
        BorrowedInstruction { program_id: &ed25519, accounts: vec![], data: &record },
        BorrowedInstruction { program_id: &program, accounts: vec![], data: &[1, 2, 3] },
    ];
    let mut data = construct_instructions_data(&steps);
    store_current_index(&mut data, 1);
    InstructionsSysvar { key: Pubkey::new_from_array(INSTRUCTIONS_ID), data }
}

fn config(fee: u64) -> Config {
    Config { signer: key(SIGNER), owner: key(OWNER), fee, initialized: true, bump: 254 }
}

fn pools() -> StateAccount {
    StateAccount {
        token_mint: key(MINT),
        token_vault: key(41),
        bump: authority().1,
        claimed: 1000,
        public_token_mint: key(PUBLIC_MINT),
        public_token_vault: key(42),
    }
}

fn claim_message(task: u16, nonce: u16, reward: u64, receiver: u8) -> Vec<u8> {
    format!(
        "{{\"task\":{},\"nonce\":{},\"reward\":{},\"receiver\":{}}}",
        task,
        nonce,
        reward,
        key_json(receiver)
    )
    .into_bytes()
}

fn claim_records(msg: &[u8], mint: u8) -> Claim {
    Claim {
        program_id: key(PROGRAM),
        payer: key(USER),
        config: config(0),
        state: pools(),
        state_key: authority().0,
        reward: ClaimReward::new(),
        token_vault: TokenAccount { mint: key(mint), owner: authority().0, amount: 500 },
        receiver: TokenAccount { mint: key(mint), owner: key(USER), amount: 5 },
        mint: key(mint),
        ix_sysvar: signed(SIGNER, msg, &signature()),
    }
}

#[test]
fn initialize_sets_the_configuration_up_once() {
    let mut ctx = Initialize { config: Config::new(), payer: key(OWNER) };
    assert_eq!(initialize(&mut ctx, key(SIGNER), 10), Ok(()));
    assert_eq!(
        ctx.config,
        Config { signer: key(SIGNER), owner: key(OWNER), fee: 10, initialized: true, bump: 0 }
    );
    let before = ctx;
    assert_eq!(initialize(&mut ctx, key(1), 99), Err(ErrorCode::Initialized));
    assert_eq!(ctx, before);
}

#[test]
fn update_is_for_the_owner_of_a_configuration_that_is_set_up() {
    let mut ctx = Update { config: config(10), payer: key(OWNER) };
    assert_eq!(update(&mut ctx, key(8), 20), Ok(()));
    assert_eq!(
        ctx.config,
        Config { signer: key(8), owner: key(OWNER), fee: 20, initialized: true, bump: 254 }
    );
    let mut stranger = Update { config: config(10), payer: key(USER) };
    assert_eq!(update(&mut stranger, key(8), 20), Err(ErrorCode::OnlyOwner));
    assert_eq!(stranger.config, config(10));
    let mut unset = Update { config: Config::new(), payer: Pubkey::default() };
    assert_eq!(update(&mut unset, key(8), 20), Err(ErrorCode::NotInitialized));
    assert_eq!(unset.config, Config::new());
    assert_eq!(check_owner(&config(1), &key(OWNER)), Ok(()));
    assert_eq!(check_owner(&Config::new(), &key(OWNER)), Err(ErrorCode::OnlyOwner));
}

#[test]
fn withdraw_of_zero_takes_all() {
    let mut ctx =
        Withdraw { config: config(0), config_lamports: 700, payer: key(OWNER), payer_lamports: 5 };
    assert_eq!(withdraw(&mut ctx, 0), Ok(()));
    assert_eq!(ctx.config_lamports, 0);
    assert_eq!(ctx.payer_lamports, 705);
}

#[test]
fn withdraw_takes_the_amount() {
    let mut ctx =
        Withdraw { config: config(0), config_lamports: 700, payer: key(OWNER), payer_lamports: 5 };
    assert_eq!(withdraw(&mut ctx, 300), Ok(()));
    assert_eq!(ctx.config_lamports, 400);
    assert_eq!(ctx.payer_lamports, 305);
    assert_eq!(withdraw(&mut ctx, 400), Ok(()));
    assert_eq!(ctx.config_lamports, 0);
    assert_eq!(ctx.payer_lamports, 705);
}

#[test]
fn withdraw_is_refused_without_change() {
    let start =
        Withdraw { config: config(0), config_lamports: 700, payer: key(OWNER), payer_lamports: 5 };
    let mut ctx = start;
    assert_eq!(withdraw(&mut ctx, 701), Err(ErrorCode::InsufficientFunds));
    assert_eq!(ctx, start);
    ctx.payer = key(USER);
    assert_eq!(withdraw(&mut ctx, 1), Err(ErrorCode::OnlyOwner));
    let mut unset = Withdraw {
        config: Config::new(),
        config_lamports: 700,
        payer: Pubkey::default(),
        payer_lamports: 5,
    };
    assert_eq!(withdraw(&mut unset, 1), Err(ErrorCode::NotInitialized));
    let mut full = Withdraw {
        config: config(0),
        config_lamports: 700,
        payer: key(OWNER),
        payer_lamports: u64::MAX - 699,
    };
    assert_eq!(withdraw(&mut full, 0), Err(ErrorCode::Overflow));
    assert_eq!(withdraw(&mut full, 699), Ok(()));
    assert_eq!(full.payer_lamports, u64::MAX);
}

fn proof_message(timestamp: u64, proof: &str) -> Vec<u8> {
    format!("{{\"timestamp\":{},\"consensus_proof\":\"{}\"}}", timestamp, proof).into_bytes()
}

fn upload_records(msg: &[u8], fee: u64) -> UploadValidation {
    UploadValidation {
        user: key(USER),
        user_lamports: 1000,
        config: config(fee),
        config_lamports: 50,
        consensus: None,
        ix_sysvar: signed(SIGNER, msg, &signature()),
    }
}

#[test]
fn upload_validation_records_the_proof_and_takes_the_fee() {
    let msg = proof_message(1700000000, &format!("0x{}", "ab".repeat(32)));
    let mut ctx = upload_records(&msg, 30);
    assert_eq!(upload_validation(&mut ctx, 1700000000, msg.clone(), signature()), Ok(()));
    assert_eq!(
        ctx.consensus,
        Some(ConsensusState {
            global: false,
            timestamp: 1700000000,
            consensus_proof: [0xab; 32],
            bump: 0
        })
    );
    assert_eq!(ctx.user_lamports, 970);
    assert_eq!(ctx.config_lamports, 80);
    assert_eq!(ctx.config, config(30));
}

#[test]
fn upload_validation_by_the_signer_itself_is_global() {
    let msg = proof_message(5, &"0F".repeat(32));
    let mut ctx = upload_records(&msg, 0);
    ctx.user = key(SIGNER);
    assert_eq!(upload_validation(&mut ctx, 5, msg.clone(), signature()), Ok(()));
    assert_eq!(
        ctx.consensus,
        Some(ConsensusState { global: true, timestamp: 5, consensus_proof: [0x0f; 32], bump: 0 })
    );
    assert_eq!(ctx.user_lamports, 1000);
    assert_eq!(ctx.config_lamports, 50);
}

#[test]
fn upload_validation_keeps_the_statement_s_timestamp() {
    let msg = proof_message(77, &"00".repeat(32));
    let mut ctx = upload_records(&msg, 0);
    assert_eq!(upload_validation(&mut ctx, 5, msg.clone(), signature()), Ok(()));
    assert_eq!(ctx.consensus.unwrap().timestamp, 77);
}

#[test]
fn upload_validation_refusals() {
    let good = proof_message(1, &"ab".repeat(32));
    let cases: Vec<(Vec<u8>, ErrorCode)> = vec![
        (vec![0xff, 0x00], ErrorCode::MessageShouldString),
        (b"not json".to_vec(), ErrorCode::MessageShouldJson),
        (b"{\"timestamp\":1}".to_vec(), ErrorCode::MessageShouldJson),
        (proof_message(1, &"ab".repeat(31)), ErrorCode::ProofLengthError),
        (proof_message(1, &"ab".repeat(33)), ErrorCode::ProofLengthError),
        (proof_message(1, &format!("0x{}", "ab".repeat(31))), ErrorCode::ProofLengthError),
        (proof_message(1, &"xy".repeat(32)), ErrorCode::ProofDataError),
        (proof_message(1, &"abc".to_string()), ErrorCode::ProofDataError),
    ];
    for (msg, want) in cases {
        let mut ctx = upload_records(&msg, 30);
        let before = ctx.clone();
        assert_eq!(upload_validation(&mut ctx, 1, msg.clone(), signature()), Err(want));
        assert_eq!(ctx, before);
    }
    let mut unset = upload_records(&good, 30);
    unset.config.initialized = false;
    assert_eq!(
        upload_validation(&mut unset, 1, good.clone(), signature()),
        Err(ErrorCode::NotInitialized)
    );
    let mut unsigned = upload_records(&good, 30);
    unsigned.ix_sysvar = signed(SIGNER + 1, &good, &signature());
    assert_eq!(
        upload_validation(&mut unsigned, 1, good.clone(), signature()),
        Err(ErrorCode::SigVerificationFailed)
    );
    let mut taken = upload_records(&good, 30);
    taken.consensus = Some(ConsensusState {
        global: false,
        timestamp: 1,
        consensus_proof: [1; 32],
        bump: 0,
    });
    let before = taken.clone();
    assert_eq!(
        upload_validation(&mut taken, 1, good.clone(), signature()),
        Err(ErrorCode::AccountInUse)
    );
    assert_eq!(taken, before);
    let mut poor = upload_records(&good, 30);
    poor.user_lamports = 29;
    assert_eq!(
        upload_validation(&mut poor, 1, good.clone(), signature()),
        Err(ErrorCode::InsufficientFunds)
    );
    assert_eq!(poor.consensus, None);
    let mut full = upload_records(&good, 30);
    full.config_lamports = u64::MAX - 29;
    assert_eq!(
        upload_validation(&mut full, 1, good.clone(), signature()),
        Err(ErrorCode::Overflow)
    );
    assert_eq!(full.consensus, None);
    assert_eq!(full.user_lamports, 1000);
}

#[test]
fn upload_validation_checks_the_configuration_and_the_signature_before_the_message() {
    let bad = vec![0xffu8];
    let mut unset = upload_records(&bad, 0);
    unset.config.initialized = false;
    assert_eq!(
        upload_validation(&mut unset, 1, bad.clone(), signature()),
        Err(ErrorCode::NotInitialized)
    );
    let mut unsigned = upload_records(&bad, 0);
    unsigned.ix_sysvar = signed(SIGNER, b"other", &signature());
    assert_eq!(
        upload_validation(&mut unsigned, 1, bad.clone(), signature()),
        Err(ErrorCode::SigVerificationFailed)
    );
}

#[test]
fn upload_validation_with_a_tampered_message_or_signature_is_refused() {
    let msg = proof_message(1, &"ab".repeat(32));
    for at in 0..msg.len() {
        let mut other = msg.clone();
        other[at] ^= 1;
        let mut ctx = upload_records(&msg, 0);
        assert_eq!(
            upload_validation(&mut ctx, 1, other, signature()),
            Err(ErrorCode::SigVerificationFailed)
        );
        assert_eq!(ctx.consensus, None);
    }
    for at in 0..64usize {
        let mut other = signature();
        other[at] ^= 0x10;
        let mut ctx = upload_records(&msg, 0);
        assert_eq!(
            upload_validation(&mut ctx, 1, msg.clone(), other),
            Err(ErrorCode::SigVerificationFailed)
        );
        assert_eq!(ctx.consensus, None);
    }
}

fn badge_message(quiz: u64, tier: u64, owner: u8) -> Vec<u8> {
    format!("{{\"quiz\":{},\"tier\":{},\"owner\":{}}}", quiz, tier, key_json(owner)).into_bytes()
}

fn badge_records(msg: &[u8]) -> UploadBadge {
    UploadBadge {
        user: key(USER),
        config: config(0),
        badge_config_pool: BadgeConfigPool { total: 10, config_count: 2 },
        badge_config: BadgeConfig::new(),
        badge: None,
        ix_sysvar: signed(SIGNER, msg, &signature()),
    }
}

#[test]
fn upload_badge_records_the_first_badge_of_a_quiz() {
    let msg = badge_message(4, 2, USER);
    let mut ctx = badge_records(&msg);
    assert_eq!(upload_badge(&mut ctx, 4, msg.clone(), signature()), Ok(()));
    assert_eq!(ctx.badge, Some(Badge { owner: key(USER), quiz: 4, tier: 2 }));
    assert_eq!(ctx.badge_config, BadgeConfig { quiz: 4, total: 1 });
    assert_eq!(ctx.badge_config_pool, BadgeConfigPool { total: 11, config_count: 3 });
}

#[test]
fn upload_badge_records_a_later_badge_of_a_quiz() {
    let msg = badge_message(4, 9, USER);
    let mut ctx = badge_records(&msg);
    ctx.badge_config = BadgeConfig { quiz: 4, total: 6 };
    assert_eq!(upload_badge(&mut ctx, 4, msg.clone(), signature()), Ok(()));
    assert_eq!(ctx.badge, Some(Badge { owner: key(USER), quiz: 4, tier: 9 }));
    assert_eq!(ctx.badge_config, BadgeConfig { quiz: 4, total: 7 });
    assert_eq!(ctx.badge_config_pool, BadgeConfigPool { total: 11, config_count: 2 });
}

#[test]
fn upload_badge_goes_by_the_quiz_it_is_called_with() {
    let msg = badge_message(5, 2, USER);
    let mut ctx = badge_records(&msg);
    assert_eq!(upload_badge(&mut ctx, 4, msg.clone(), signature()), Ok(()));
    assert_eq!(ctx.badge, Some(Badge { owner: key(USER), quiz: 4, tier: 2 }));
}

#[test]
fn upload_badge_refusals() {
    let good = badge_message(4, 2, USER);
    let mut zero = badge_records(&good);
    let before = zero.clone();
    assert_eq!(
        upload_badge(&mut zero, 0, good.clone(), signature()),
        Err(ErrorCode::InvalidQuizIDError)
    );
    assert_eq!(zero, before);
    let cases: Vec<(Vec<u8>, ErrorCode)> = vec![
        (vec![0xc3, 0x28], ErrorCode::MessageShouldString),
        (b"[]".to_vec(), ErrorCode::MessageShouldJson),
        (badge_message(4, 2, USER + 1), ErrorCode::InvalidOwnerError),
    ];
    for (msg, want) in cases {
        let mut ctx = badge_records(&msg);
        let before = ctx.clone();
        assert_eq!(upload_badge(&mut ctx, 4, msg.clone(), signature()), Err(want));
        assert_eq!(ctx, before);
    }
    let mut unset = badge_records(&good);
    unset.config.initialized = false;
    assert_eq!(
        upload_badge(&mut unset, 4, good.clone(), signature()),
        Err(ErrorCode::NotInitialized)
    );
    let mut unsigned = badge_records(&good);
    unsigned.ix_sysvar = signed(SIGNER, &good, &[0u8; 64]);
    assert_eq!(
        upload_badge(&mut unsigned, 4, good.clone(), signature()),
        Err(ErrorCode::SigVerificationFailed)
    );
    let mut taken = badge_records(&good);
    taken.badge = Some(Badge { owner: key(USER), quiz: 4, tier: 1 });
    taken.badge_config = BadgeConfig { quiz: 4, total: 1 };
    let before = taken.clone();
    assert_eq!(
        upload_badge(&mut taken, 4, good.clone(), signature()),
        Err(ErrorCode::AccountInUse)
    );
    assert_eq!(taken, before);
    let mut full = badge_records(&good);
    full.badge_config_pool.total = u64::MAX;
    assert_eq!(upload_badge(&mut full, 4, good.clone(), signature()), Err(ErrorCode::Overflow));
    assert_eq!(full.badge, None);
    let mut many = badge_records(&good);
    many.badge_config_pool.config_count = u64::MAX;
    assert_eq!(upload_badge(&mut many, 4, good.clone(), signature()), Err(ErrorCode::Overflow));
    many.badge_config = BadgeConfig { quiz: 4, total: 3 };
    assert_eq!(upload_badge(&mut many, 4, good.clone(), signature()), Ok(()));
    assert_eq!(many.badge_config_pool.config_count, u64::MAX);
}

fn pool_records() -> IniClaim {
    IniClaim {
        program_id: key(PROGRAM),
        state: StateAccount::new(),
        state_key: authority().0,
        state_bump: authority().1,
        mint: key(MINT),
        token_vault: TokenAccount { mint: key(MINT), owner: authority().0, amount: 0 },
        token_vault_key: key(41),
        config: config(0),
        payer: key(OWNER),
    }
}

#[test]
fn ini_claim_sets_the_primary_pool_up() {
    let mut ctx = pool_records();
    assert_eq!(ini_claim(&mut ctx), Ok(()));
    assert_eq!(
        ctx.state,
        StateAccount {
            token_mint: key(MINT),
            token_vault: key(41),
            bump: authority().1,
            claimed: 0,
            public_token_mint: Pubkey::default(),
            public_token_vault: Pubkey::default(),
        }
    );
}

#[test]
fn ini_claim_public_sets_the_public_pool_up() {
    let mut ctx: IniClaimPublic = pool_records();
    ctx.state = pools();
    ctx.mint = key(50);
    ctx.token_vault.mint = key(50);
    ctx.token_vault_key = key(51);
    assert_eq!(ini_claim_public(&mut ctx), Ok(()));
    assert_eq!(
        ctx.state,
        StateAccount {
            token_mint: key(MINT),
            token_vault: key(41),
            bump: authority().1,
            claimed: 1000,
            public_token_mint: key(50),
            public_token_vault: key(51),
        }
    );
}

#[test]
fn ini_claim_refusals() {
    let mut wrong_mint = pool_records();
    wrong_mint.token_vault.mint = key(MINT + 1);
    let before = wrong_mint;
    assert_eq!(ini_claim(&mut wrong_mint), Err(ErrorCode::InvalidTokenAccount));
    assert_eq!(wrong_mint, before);
    let mut wrong_owner = pool_records();
    wrong_owner.token_vault.owner = key(OWNER);
    assert_eq!(ini_claim(&mut wrong_owner), Err(ErrorCode::InvalidVaultOwner));
    assert_eq!(ini_claim_public(&mut wrong_owner), Err(ErrorCode::InvalidVaultOwner));
    let mut stranger = pool_records();
    stranger.payer = key(USER);
    assert_eq!(ini_claim(&mut stranger), Err(ErrorCode::OnlyOwner));
    assert_eq!(ini_claim_public(&mut stranger), Err(ErrorCode::OnlyOwner));
    assert_eq!(stranger.state, StateAccount::new());
}

#[test]
fn ini_claim_confirms_the_authority_of_the_program() {
    let mut wrong_bump = pool_records();
    wrong_bump.state_bump = authority().1.wrapping_sub(1);
    let before = wrong_bump;
    assert_eq!(ini_claim(&mut wrong_bump), Err(ErrorCode::AccountError));
    assert_eq!(wrong_bump, before);
    let mut wrong_address = pool_records();
    wrong_address.state_key = key(31);
    wrong_address.token_vault.owner = key(31);
    assert_eq!(ini_claim(&mut wrong_address), Err(ErrorCode::AccountError));
    let mut wrong_program = pool_records();
    wrong_program.program_id = key(PROGRAM + 1);
    assert_eq!(ini_claim_public(&mut wrong_program), Err(ErrorCode::AccountError));
    assert_eq!(wrong_program.state, StateAccount::new());
}

#[test]
fn claim_derives_the_authority_of_the_program_anew() {
    let msg = claim_message(1, 0, 100, USER);
    let mut wrong_bump = claim_records(&msg, MINT);
    wrong_bump.state.bump = authority().1.wrapping_sub(1);
    let before = wrong_bump.clone();
    assert_eq!(claim(&mut wrong_bump, 1, msg.clone(), signature()), Err(ErrorCode::AccountError));
    assert_eq!(wrong_bump, before);
    let mut wrong_address = claim_records(&msg, MINT);
    wrong_address.state_key = key(31);
    wrong_address.token_vault.owner = key(31);
    assert_eq!(
        claim(&mut wrong_address, 1, msg.clone(), signature()),
        Err(ErrorCode::AccountError)
    );
    let mut wrong_program = claim_records(&msg, MINT);
    wrong_program.program_id = key(PROGRAM + 1);
    assert_eq!(
        claim_public(&mut wrong_program, 1, msg.clone(), signature()),
        Err(ErrorCode::AccountError)
    );
    assert_eq!(wrong_program.token_vault.amount, 500);
}

#[test]
fn claim_settles_the_reward() {
    let msg = claim_message(1, 0, 100, USER);
    let mut ctx = claim_records(&msg, MINT);
    assert_eq!(claim(&mut ctx, 1, msg.clone(), signature()), Ok(()));
    assert_eq!(ctx.reward, ClaimReward { owner: key(USER), reward: 100, times: 1 });
    assert_eq!(ctx.state, StateAccount { claimed: 1100, ..pools() });
    assert_eq!(ctx.token_vault.amount, 400);
    assert_eq!(ctx.receiver.amount, 105);
    assert_eq!(ctx.config, config(0));
}

#[test]
fn claim_public_settles_against_the_public_pool() {
    let msg = claim_message(1, 3, 500, USER);
    let mut ctx: ClaimPublic = claim_records(&msg, PUBLIC_MINT);
    ctx.reward = ClaimReward { owner: key(USER), reward: 1, times: 3 };
    assert_eq!(claim_public(&mut ctx, 1, msg.clone(), signature()), Ok(()));
    assert_eq!(ctx.reward, ClaimReward { owner: key(USER), reward: 500, times: 4 });
    assert_eq!(ctx.state.claimed, 1500);
    assert_eq!(ctx.token_vault.amount, 0);
    assert_eq!(ctx.receiver.amount, 505);
    let mut primary = claim_records(&msg, MINT);
    primary.reward.times = 3;
    assert_eq!(
        claim_public(&mut primary, 1, msg.clone(), signature()),
        Err(ErrorCode::InvalidTokenAccount)
    );
    let mut public = claim_records(&msg, PUBLIC_MINT);
    public.reward.times = 3;
    assert_eq!(
        claim(&mut public, 1, msg.clone(), signature()),
        Err(ErrorCode::InvalidTokenAccount)
    );
}

#[test]
fn claim_with_the_wrong_nonce_is_refused_without_change() {
    for (expected, carried) in [(0u16, 1u16), (1, 0), (5, 4), (5, 6), (5, 5 + 256), (65535, 0)] {
        let msg = claim_message(1, carried, 100, USER);
        let mut ctx = claim_records(&msg, MINT);
        ctx.reward = ClaimReward { owner: key(USER), reward: 9, times: expected };
        let before = ctx.clone();
        assert_eq!(claim(&mut ctx, 1, msg.clone(), signature()), Err(ErrorCode::NonceError));
        assert_eq!(ctx, before);
    }
}

#[test]
fn claim_refusals() {
    let good = claim_message(1, 0, 100, USER);
    let cases: Vec<(Vec<u8>, ErrorCode)> = vec![
        (vec![0x80], ErrorCode::MessageShouldString),
        (b"{}".to_vec(), ErrorCode::MessageShouldJson),
        (claim_message(1, 0, 100, USER + 1), ErrorCode::InvalidOwnerError),
        (claim_message(1, 0, 501, USER), ErrorCode::InsufficientFunds),
        (claim_message(1, 0, u64::MAX, USER), ErrorCode::Overflow),
    ];
    for (msg, want) in cases {
        let mut ctx = claim_records(&msg, MINT);
        let before = ctx.clone();
        assert_eq!(claim(&mut ctx, 1, msg.clone(), signature()), Err(want));
        assert_eq!(ctx, before);
    }
    let mut unset = claim_records(&good, MINT);
    unset.config.initialized = false;
    assert_eq!(claim(&mut unset, 1, good.clone(), signature()), Err(ErrorCode::NotInitialized));
    let mut unsigned = claim_records(&good, MINT);
    unsigned.ix_sysvar.data = vec![0, 0];
    assert_eq!(
        claim(&mut unsigned, 1, good.clone(), signature()),
        Err(ErrorCode::SigVerificationFailed)
    );
    let mut wrong_vault = claim_records(&good, MINT);
    wrong_vault.token_vault.mint = key(PUBLIC_MINT);
    assert_eq!(
        claim(&mut wrong_vault, 1, good.clone(), signature()),
        Err(ErrorCode::InvalidTokenAccount)
    );
    let mut stray_vault = claim_records(&good, MINT);
    stray_vault.token_vault.owner = key(USER);
    assert_eq!(
        claim(&mut stray_vault, 1, good.clone(), signature()),
        Err(ErrorCode::InvalidVaultOwner)
    );
    let mut wrong_receiver = claim_records(&good, MINT);
    wrong_receiver.receiver.owner = key(OWNER);
    assert_eq!(
        claim(&mut wrong_receiver, 1, good.clone(), signature()),
        Err(ErrorCode::InvalidTokenAccount)
    );
    let mut wrong_kind = claim_records(&good, MINT);
    wrong_kind.receiver.mint = key(PUBLIC_MINT);
    wrong_kind.mint = key(PUBLIC_MINT);
    assert_eq!(
        claim(&mut wrong_kind, 1, good.clone(), signature()),
        Err(ErrorCode::InvalidTokenAccount)
    );
    let mut mislabeled = claim_records(&good, MINT);
    mislabeled.mint = key(PUBLIC_MINT);
    assert_eq!(
        claim(&mut mislabeled, 1, good.clone(), signature()),
        Err(ErrorCode::InvalidTokenAccount)
    );
}

#[test]
fn claim_counters_do_not_wrap() {
    let last = claim_message(1, 65535, 1, USER);
    let mut ctx = claim_records(&last, MINT);
    ctx.reward.times = 65535;
    let before = ctx.clone();
    assert_eq!(claim(&mut ctx, 1, last.clone(), signature()), Err(ErrorCode::Overflow));
    assert_eq!(ctx, before);
    let msg = claim_message(1, 0, 10, USER);
    let mut total = claim_records(&msg, MINT);
    total.state.claimed = u64::MAX - 9;
    assert_eq!(claim(&mut total, 1, msg.clone(), signature()), Err(ErrorCode::Overflow));
    total.state.claimed = u64::MAX - 10;
    assert_eq!(claim(&mut total, 1, msg.clone(), signature()), Ok(()));
    assert_eq!(total.state.claimed, u64::MAX);
    let mut room = claim_records(&msg, MINT);
    room.receiver.amount = u64::MAX - 9;
    assert_eq!(claim(&mut room, 1, msg.clone(), signature()), Err(ErrorCode::Overflow));
    assert_eq!(room.token_vault.amount, 500);
}

#[test]
fn claim_of_a_statement_for_another_task_is_refused() {
    let msg = claim_message(2, 0, 100, USER);
    let mut ctx = claim_records(&msg, MINT);
    let before = ctx.clone();
    assert_eq!(claim(&mut ctx, 1, msg.clone(), signature()), Err(ErrorCode::AccountError));
    assert_eq!(ctx, before);
    assert_eq!(
        claim_public(&mut claim_records(&msg, PUBLIC_MINT), 3, msg.clone(), signature()),
        Err(ErrorCode::AccountError)
    );
    assert_eq!(claim(&mut ctx, 2, msg.clone(), signature()), Ok(()));
    assert_eq!(ctx.reward.times, 1);
}

fn grant(task: u16, nonce: u16, reward: u64, receiver: u8) -> ClaimInput {
    ClaimInput { task, nonce, reward, receiver: key(receiver) }
}

#[test]
fn settle_works_on_the_statement_it_is_given() {
    let mut ctx = claim_records(b"unused", MINT);
    ctx.reward = ClaimReward { owner: key(USER), reward: 7, times: 4 };
    assert_eq!(settle(&mut ctx, 9, Ok(grant(9, 4, 120, USER)), true), Ok(()));
    assert_eq!(ctx.reward, ClaimReward { owner: key(USER), reward: 120, times: 5 });
    assert_eq!(ctx.state.claimed, 1120);
    assert_eq!(ctx.token_vault.amount, 380);
    assert_eq!(ctx.receiver.amount, 125);
}

#[test]
fn settle_refuses_in_order() {
    let start = claim_records(b"unused", MINT);
    let cases: Vec<(u16, Result<ClaimInput, ErrorCode>, bool, ErrorCode)> = vec![
        (1, Err(ErrorCode::MessageShouldString), false, ErrorCode::MessageShouldString),
        (1, Err(ErrorCode::MessageShouldJson), true, ErrorCode::MessageShouldJson),
        (1, Ok(grant(2, 5, 1000, USER + 1)), false, ErrorCode::InvalidOwnerError),
        (1, Ok(grant(2, 5, 1000, USER)), false, ErrorCode::SigVerificationFailed),
        (1, Ok(grant(2, 5, 1000, USER)), true, ErrorCode::AccountError),
        (1, Ok(grant(1, 5, 1000, USER)), true, ErrorCode::NonceError),
        (1, Ok(grant(1, 0, 1000, USER)), true, ErrorCode::InsufficientFunds),
        (1, Ok(grant(1, 0, u64::MAX, USER)), true, ErrorCode::Overflow),
    ];
    for (task, statement, signed, want) in cases {
        let mut ctx = start.clone();
        assert_eq!(settle(&mut ctx, task, statement, signed), Err(want));
        assert_eq!(ctx, start);
    }
    let mut unset = start.clone();
    unset.config.initialized = false;
    assert_eq!(
        settle(&mut unset, 1, Ok(grant(1, 0, 1, USER)), true),
        Err(ErrorCode::NotInitialized)
    );
    assert_eq!(
        settle(&mut unset, 1, Ok(grant(1, 0, 1, USER + 1)), true),
        Err(ErrorCode::InvalidOwnerError)
    );
}

#[test]
fn record_badge_works_on_the_statement_it_is_given() {
    let mut ctx = badge_records(b"unused");
    let statement = BadgeInfo { quiz: 4, tier: 6, owner: key(USER) };
    assert_eq!(record_badge(&mut ctx, 4, Ok(statement), true), Ok(()));
    assert_eq!(ctx.badge, Some(Badge { owner: key(USER), quiz: 4, tier: 6 }));
    assert_eq!(ctx.badge_config, BadgeConfig { quiz: 4, total: 1 });
    assert_eq!(ctx.badge_config_pool, BadgeConfigPool { total: 11, config_count: 3 });
    let before = ctx.clone();
    assert_eq!(record_badge(&mut ctx, 4, Ok(statement), true), Err(ErrorCode::AccountInUse));
    assert_eq!(ctx, before);
}

#[test]
fn record_badge_refuses_in_order() {
    let start = badge_records(b"unused");
    let mine = BadgeInfo { quiz: 4, tier: 6, owner: key(USER) };
    let other = BadgeInfo { quiz: 4, tier: 6, owner: key(USER + 1) };
    let cases: Vec<(u64, Result<BadgeInfo, ErrorCode>, bool, ErrorCode)> = vec![
        (0, Err(ErrorCode::MessageShouldJson), false, ErrorCode::InvalidQuizIDError),
        (0, Ok(mine), true, ErrorCode::InvalidQuizIDError),
        (4, Err(ErrorCode::MessageShouldString), true, ErrorCode::MessageShouldString),
        (4, Ok(other), false, ErrorCode::InvalidOwnerError),
        (4, Ok(mine), false, ErrorCode::SigVerificationFailed),
    ];
    for (quiz, statement, signed, want) in cases {
        let mut ctx = start.clone();
        assert_eq!(record_badge(&mut ctx, quiz, statement, signed), Err(want));
        assert_eq!(ctx, start);
    }
    let mut unset = start.clone();
    unset.config.initialized = false;
    assert_eq!(record_badge(&mut unset, 4, Ok(mine), true), Err(ErrorCode::NotInitialized));
    assert_eq!(record_badge(&mut unset, 4, Ok(other), true), Err(ErrorCode::InvalidOwnerError));
}

#[test]
fn record_proof_works_on_the_statement_it_is_given() {
    let mut ctx = upload_records(b"unused", 30);
    let statement =
        Validation { timestamp: 99, consensus_proof: format!("0x{}", "c3".repeat(32)) };
    assert_eq!(record_proof(&mut ctx, Ok(statement.clone()), true), Ok(()));
    assert_eq!(
        ctx.consensus,
        Some(ConsensusState {
            global: false,
            timestamp: 99,
            consensus_proof: [0xc3; 32],
            bump: 0
        })
    );
    assert_eq!(ctx.user_lamports, 970);
    assert_eq!(ctx.config_lamports, 80);
    let before = ctx.clone();
    assert_eq!(record_proof(&mut ctx, Ok(statement), true), Err(ErrorCode::AccountInUse));
    assert_eq!(ctx, before);
}

#[test]
fn record_proof_refuses_in_order() {
    let start = upload_records(b"unused", 30);
    let good = Validation { timestamp: 1, consensus_proof: "ab".repeat(32) };
    let short = Validation { timestamp: 1, consensus_proof: "ab".repeat(31) };
    let garbled = Validation { timestamp: 1, consensus_proof: "0xzz".to_string() };
    let cases: Vec<(Result<Validation, ErrorCode>, bool, ErrorCode)> = vec![
        (Err(ErrorCode::MessageShouldJson), false, ErrorCode::SigVerificationFailed),
        (Ok(good.clone()), false, ErrorCode::SigVerificationFailed),
        (Err(ErrorCode::MessageShouldString), true, ErrorCode::MessageShouldString),
        (Err(ErrorCode::MessageShouldJson), true, ErrorCode::MessageShouldJson),
        (Ok(short), true, ErrorCode::ProofLengthError),
        (Ok(garbled), true, ErrorCode::ProofDataError),
    ];
    for (statement, signed, want) in cases {
        let mut ctx = start.clone();
        assert_eq!(record_proof(&mut ctx, statement, signed), Err(want));
        assert_eq!(ctx, start);
    }
    let mut unset = start.clone();
    unset.config.initialized = false;
    assert_eq!(record_proof(&mut unset, Ok(good.clone()), false), Err(ErrorCode::NotInitialized));
    let mut poor = start.clone();
    poor.user_lamports = 29;
    assert_eq!(record_proof(&mut poor, Ok(good), true), Err(ErrorCode::InsufficientFunds));
}
