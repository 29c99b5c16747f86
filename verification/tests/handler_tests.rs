use elusiv::processor::{
    init_verification, init_verification_transfer_fee, init_verification_proof,
    compute_verification, finalize_verification_send, finalize_verification_send_nullifier,
    finalize_verification_transfer_lamports, finalize_verification_transfer_token,
    FinalizeSendData, FeeCalculation, RESERVED_VACCS_PER_FEE_PAYER, COMPUTE_VERIFICATION_IX_COUNT,
    zero_commitment_raw,
};
use elusiv::verification::{VerificationAccount, VerificationAccountData, VerificationState};
use elusiv::state::{StorageAccount, NullifierAccount, GovernorAccount, VKeyAccount, empty_root_raw};
use elusiv::token::{AccountState, TokenAccount, TokenRegistry, get_associated_token_address};
use elusiv::types::{
    InputCommitment, JoinSplitPublicInputs, SendPublicInputs, MigratePublicInputs, ProofRequest,
    Proof, generate_hashed_inputs, SEND_QUADRA_VKEY_ID,
};
use elusiv::queue::{commitment_queue_new, CommitmentHashRequest};
use elusiv::instructions::{
    Instruction, system_program_id, token_program_id, FINALIZE_VERIFICATION_SEND_INDEX,
    FINALIZE_VERIFICATION_SEND_NULLIFIER_INDEX, FINALIZE_VERIFICATION_TRANSFER_LAMPORTS_INDEX,
    FINALIZE_VERIFICATION_TRANSFER_TOKEN_INDEX,
};
use elusiv::fields::RawU256;
use elusiv::error::ElusivError;

pub fn mutate<T: Clone, F: Fn(&mut T)>(v: &T, f: F) -> T {
    let mut i = v.clone();
    f(&mut i);
    i
}

const OWN_PROGRAM_ID: [u64; 4] = [100, 200, 300, 400];
const LAMPORTS_PER_SOL: u64 = 1_000_000_000;
const LAMPORTS_TOKEN_ID: u16 = 0;
const USDC_TOKEN_ID: u16 = 2;
const USDT_TOKEN_ID: u16 = 3;

fn u256_from_str_skip_mr(s: &str) -> [u64; 4] {
    let v: u128 = s.parse().unwrap();
    [(v & 0xFFFF_FFFF_FFFF_FFFF) as u64, (v >> 64) as u64, 0, 0]
}

fn registry() -> TokenRegistry {
    TokenRegistry {
        mints: vec![[0, 0, 0, 0], [1, 1, 1, 1], [77, 77, 77, 77], [88, 88, 88, 88]],
    }
}

fn stub(tag: u8) -> Instruction {
    Instruction { program_id: OWN_PROGRAM_ID, accounts: Vec::new(), data: vec![tag] }
}

fn finalize_tags(n: usize, uses_lamports: bool) -> Vec<Instruction> {
    let mut list = vec![stub(FINALIZE_VERIFICATION_SEND_INDEX)];
    for _ in 0..n {
        list.push(stub(FINALIZE_VERIFICATION_SEND_NULLIFIER_INDEX));
    }
    list.push(stub(if uses_lamports {
        FINALIZE_VERIFICATION_TRANSFER_LAMPORTS_INDEX
    } else {
        FINALIZE_VERIFICATION_TRANSFER_TOKEN_INDEX
    }));
    list
}

fn send_inputs(token_id: u16, fee: u64) -> SendPublicInputs {
    SendPublicInputs {
        join_split: JoinSplitPublicInputs {
            input_commitments: vec![InputCommitment {
                root: Some(empty_root_raw()),
                nullifier_hash: RawU256::new(u256_from_str_skip_mr("1")),
            }],
            output_commitment: RawU256::new(u256_from_str_skip_mr("1")),
            fee_version: 0,
            amount: LAMPORTS_PER_SOL,
            fee,
            token_id,
        },
        recipient_is_associated_token_account: false,
        hashed_inputs: u256_from_str_skip_mr("1"),
        current_time: 0,
        solana_pay_transfer: false,
    }
}

fn fee() -> FeeCalculation {
    FeeCalculation {
        subvention: 44,
        proof_verification_fee: 100,
        commitment_hash_fee: 5000,
        commitment_hash_fee_token: 5000,
        network_fee: 10,
        associated_token_account_rent: 0,
        associated_token_account_rent_token: 0,
    }
}

// Minimum fee for `fee()`: 5000 + 100 + 10 - 44.
const MIN_FEE: u64 = 5066;

#[test]
fn test_init_verification() {
    let storage = StorageAccount::new();
    let mut n = NullifierAccount::new([0, 0, 0, 0]);
    let fee_payer = [1u64, 0, 0, 0];
    let vkey_id = SEND_QUADRA_VKEY_ID;
    let vkey = VKeyAccount { is_frozen: true, public_inputs_count: 14 };
    let schedule: Vec<u16> = vec![0; 5];
    let pid = OWN_PROGRAM_ID;

    let inputs = send_inputs(0, MIN_FEE);
    let (nd_key, _bump) = inputs.join_split.nullifier_duplicate_pda(&pid).unwrap();
    let nd = AccountState { key: nd_key, lamports: 1 };

    // Instance index exceeds the per-payer reservation
    assert!(matches!(
        init_verification(fee_payer, &nd, &storage, &n, &n, &vkey, RESERVED_VACCS_PER_FEE_PAYER, vkey_id, [0, 1], ProofRequest::Send(inputs.clone()), false, 0, &schedule, &pid),
        Err(_)
    ));

    // Commitment-count too low
    assert!(matches!(
        init_verification(fee_payer, &nd, &storage, &n, &n, &vkey, 0, vkey_id, [0, 1], ProofRequest::Send(mutate(&inputs, |v| {
            v.join_split.input_commitments.clear();
        })), false, 0, &schedule, &pid),
        Err(_)
    ));

    // Invalid root
    assert!(matches!(
        init_verification(fee_payer, &nd, &storage, &n, &n, &vkey, 0, vkey_id, [0, 1], ProofRequest::Send(mutate(&inputs, |v| {
            v.join_split.input_commitments[0].root = Some(RawU256::new(u256_from_str_skip_mr("1")));
        })), false, 0, &schedule, &pid),
        Err(_)
    ));

    // First root is None
    assert!(matches!(
        init_verification(fee_payer, &nd, &storage, &n, &n, &vkey, 0, vkey_id, [0, 1], ProofRequest::Send(mutate(&inputs, |v| {
            v.join_split.input_commitments[0].root = None;
        })), false, 0, &schedule, &pid),
        Err(_)
    ));

    // Mismatched tree indices
    assert!(matches!(
        init_verification(fee_payer, &nd, &storage, &n, &n, &vkey, 0, vkey_id, [1, 0], ProofRequest::Send(inputs.clone()), false, 0, &schedule, &pid),
        Err(_)
    ));

    // Zero commitment
    assert!(matches!(
        init_verification(fee_payer, &nd, &storage, &n, &n, &vkey, 0, vkey_id, [0, 1], ProofRequest::Send(mutate(&inputs, |v| {
            v.join_split.output_commitment = RawU256::new(zero_commitment_raw());
        })), false, 0, &schedule, &pid),
        Err(_)
    ));

    // Nullifier already exists
    n.try_insert_nullifier_hash(inputs.join_split.input_commitments[0].nullifier_hash.reduce())
        .unwrap();
    assert!(matches!(
        init_verification(fee_payer, &nd, &storage, &n, &n, &vkey, 0, vkey_id, [0, 1], ProofRequest::Send(inputs.clone()), false, 0, &schedule, &pid),
        Err(_)
    ));

    // Invalid nullifier_duplicate_account
    let n = NullifierAccount::new([0, 0, 0, 0]);
    let invalid_nd = AccountState { key: [9, 9, 9, 9], lamports: 1 };
    assert!(matches!(
        init_verification(fee_payer, &invalid_nd, &storage, &n, &n, &vkey, 0, vkey_id, [0, 1], ProofRequest::Send(inputs.clone()), false, 0, &schedule, &pid),
        Err(_)
    ));

    // Invalid nullifier_duplicate_account with skip set to true
    assert!(matches!(
        init_verification(fee_payer, &invalid_nd, &storage, &n, &n, &vkey, 0, vkey_id, [0, 1], ProofRequest::Send(inputs.clone()), true, 0, &schedule, &pid),
        Err(_)
    ));

    // Migrate always fails
    assert!(matches!(
        init_verification(fee_payer, &nd, &storage, &n, &n, &vkey, 0, vkey_id, [0, 1], ProofRequest::Migrate(
            MigratePublicInputs {
                join_split: inputs.join_split.clone(),
                current_nsmt_root: RawU256::new([0, 0, 0, 0]),
                next_nsmt_root: RawU256::new([0, 0, 0, 0]),
            }
        ), false, 0, &schedule, &pid),
        Err(_)
    ));

    let acc = init_verification(fee_payer, &nd, &storage, &n, &n, &vkey, 0, vkey_id, [0, 1], ProofRequest::Send(inputs), false, 0, &schedule, &pid)
        .unwrap();
    assert!(matches!(acc.get_state(), VerificationState::Created));
    assert_eq!(acc.get_is_verified(), None);
}

#[test]
fn test_init_verification_transfer_fee_lamports() {
    let f_key = [1u64, 0, 0, 0];
    let mut f = AccountState { key: f_key, lamports: 1_000_000 };
    let f_token = TokenAccount { key: f_key, amount: 0, token_id: 0, owner: f_key, exists: true };
    let mut pool = AccountState { key: [2, 0, 0, 0], lamports: 0 };
    let mut pool_token = TokenAccount { key: [2, 0, 0, 0], amount: 0, token_id: 0, owner: [2, 0, 0, 0], exists: true };
    let fee_c = AccountState { key: [3, 0, 0, 0], lamports: 0 };
    let mut fee_c_token = TokenAccount { key: [3, 0, 0, 0], amount: 1_000, token_id: 0, owner: [3, 0, 0, 0], exists: true };
    let mut g = GovernorAccount::new();
    let reg = registry();
    let sys = system_program_id();
    let spl = token_program_id();
    let priced = fee();

    let inputs = send_inputs(LAMPORTS_TOKEN_ID, MIN_FEE);
    let schedule: Vec<u16> = vec![0; 5];
    let mut verification_acc = VerificationAccount::setup(
        RawU256::new(f_key),
        false,
        &Vec::new(),
        &schedule,
        0,
        ProofRequest::Send(inputs.clone()),
        [0, 1],
    );

    // Invalid fee_payer
    let mut f2 = AccountState { key: [9, 9, 9, 9], lamports: 1_000_000 };
    assert!(matches!(
        init_verification_transfer_fee(&mut f2, &f_token, &mut pool, &mut pool_token, &fee_c, &mut fee_c_token, &g, &mut verification_acc, &spl, &sys, &reg, &priced),
        Err(_)
    ));

    // Invalid verification account state
    verification_acc.set_state(&VerificationState::FeeTransferred);
    assert!(matches!(
        init_verification_transfer_fee(&mut f, &f_token, &mut pool, &mut pool_token, &fee_c, &mut fee_c_token, &g, &mut verification_acc, &spl, &sys, &reg, &priced),
        Err(_)
    ));

    // Invalid fee_version
    verification_acc.set_state(&VerificationState::Created);
    g.fee_version = 1;
    assert!(matches!(
        init_verification_transfer_fee(&mut f, &f_token, &mut pool, &mut pool_token, &fee_c, &mut fee_c_token, &g, &mut verification_acc, &spl, &sys, &reg, &priced),
        Err(_)
    ));

    // Invalid fee (fee too low, since too high is allowed)
    g.fee_version = 0;
    let low_fee_inputs = send_inputs(LAMPORTS_TOKEN_ID, MIN_FEE - 1);
    let mut low_fee_acc = VerificationAccount::setup(
        RawU256::new(f_key),
        false,
        &Vec::new(),
        &schedule,
        0,
        ProofRequest::Send(low_fee_inputs),
        [0, 1],
    );
    assert!(matches!(
        init_verification_transfer_fee(&mut f, &f_token, &mut pool, &mut pool_token, &fee_c, &mut fee_c_token, &g, &mut low_fee_acc, &spl, &sys, &reg, &priced),
        Err(_)
    ));

    // Invalid system_program
    assert!(matches!(
        init_verification_transfer_fee(&mut f, &f_token, &mut pool, &mut pool_token, &fee_c, &mut fee_c_token, &g, &mut verification_acc, &spl, &spl, &reg, &priced),
        Err(_)
    ));

    // Invalid pool_account
    let mut any_token = TokenAccount { key: [9, 9, 9, 9], amount: 0, token_id: 0, owner: [9, 9, 9, 9], exists: true };
    assert!(matches!(
        init_verification_transfer_fee(&mut f, &f_token, &mut pool, &mut any_token, &fee_c, &mut fee_c_token, &g, &mut verification_acc, &spl, &sys, &reg, &priced),
        Err(_)
    ));

    // Invalid fee_collector_account
    assert!(matches!(
        init_verification_transfer_fee(&mut f, &f_token, &mut pool, &mut pool_token, &fee_c, &mut any_token, &g, &mut verification_acc, &spl, &sys, &reg, &priced),
        Err(_)
    ));

    assert!(matches!(
        init_verification_transfer_fee(&mut f, &f_token, &mut pool, &mut pool_token, &fee_c, &mut fee_c_token, &g, &mut verification_acc, &spl, &sys, &reg, &priced),
        Ok(())
    ));

    assert!(matches!(verification_acc.get_state(), VerificationState::FeeTransferred));
    // The fee payer escrowed the commitment hash fee into the pool, the
    // fee collector the subvention.
    assert_eq!(f.lamports, 1_000_000 - priced.commitment_hash_fee);
    assert_eq!(pool.lamports, priced.commitment_hash_fee);
    assert_eq!(fee_c_token.amount, 1_000 - priced.subvention);
    assert_eq!(pool_token.amount, priced.subvention);
}

#[test]
fn test_init_verification_transfer_fee_token() {
    let reg = registry();
    let f_key = [1u64, 0, 0, 0];
    let mut f = AccountState { key: f_key, lamports: 1_000_000 };
    let usdc_mint = reg.mints[USDC_TOKEN_ID as usize];

    let token_acc = TokenAccount { key: [10, 0, 0, 0], amount: 0, token_id: USDC_TOKEN_ID, owner: f_key, exists: true };
    let wrong_token_acc = TokenAccount { key: [11, 0, 0, 0], amount: 0, token_id: USDT_TOKEN_ID, owner: f_key, exists: true };

    let pool = AccountState { key: [2, 0, 0, 0], lamports: 0 };
    let fee_c = AccountState { key: [3, 0, 0, 0], lamports: 0 };
    let pool_ata = get_associated_token_address(&pool.key, &usdc_mint).unwrap();
    let fee_c_ata = get_associated_token_address(&fee_c.key, &usdc_mint).unwrap();
    let mut pool_token = TokenAccount { key: pool_ata, amount: 0, token_id: USDC_TOKEN_ID, owner: pool.key, exists: true };
    let mut fee_c_token = TokenAccount { key: fee_c_ata, amount: 1_000, token_id: USDC_TOKEN_ID, owner: fee_c.key, exists: true };

    let g = GovernorAccount::new();
    let sys = system_program_id();
    let spl = token_program_id();
    let priced = fee();
    let schedule: Vec<u16> = vec![0; 5];

    let mut pool_m = pool;
    let inputs = send_inputs(USDC_TOKEN_ID, MIN_FEE);
    let mut verification_acc = VerificationAccount::setup(
        RawU256::new(f_key),
        false,
        &Vec::new(),
        &schedule,
        0,
        ProofRequest::Send(inputs.clone()),
        [0, 1],
    );

    // Invalid fee (fee too low, since too high is allowed)
    let mut low_fee_acc = VerificationAccount::setup(
        RawU256::new(f_key),
        false,
        &Vec::new(),
        &schedule,
        0,
        ProofRequest::Send(send_inputs(USDC_TOKEN_ID, MIN_FEE - 1)),
        [0, 1],
    );
    assert!(matches!(
        init_verification_transfer_fee(&mut f, &token_acc, &mut pool_m, &mut pool_token, &fee_c, &mut fee_c_token, &g, &mut low_fee_acc, &spl, &sys, &reg, &priced),
        Err(_)
    ));

    // Invalid system_program
    assert!(matches!(
        init_verification_transfer_fee(&mut f, &token_acc, &mut pool_m, &mut pool_token, &fee_c, &mut fee_c_token, &g, &mut verification_acc, &spl, &spl, &reg, &priced),
        Err(_)
    ));

    // Invalid token_program
    assert!(matches!(
        init_verification_transfer_fee(&mut f, &token_acc, &mut pool_m, &mut pool_token, &fee_c, &mut fee_c_token, &g, &mut verification_acc, &sys, &sys, &reg, &priced),
        Err(_)
    ));

    // Invalid fee_payer_account
    assert!(matches!(
        init_verification_transfer_fee(&mut f, &wrong_token_acc, &mut pool_m, &mut pool_token, &fee_c, &mut fee_c_token, &g, &mut verification_acc, &spl, &sys, &reg, &priced),
        Err(_)
    ));

    // Invalid pool_account
    let mut fee_c_token_copy = fee_c_token;
    assert!(matches!(
        init_verification_transfer_fee(&mut f, &token_acc, &mut pool_m, &mut fee_c_token_copy, &fee_c, &mut fee_c_token, &g, &mut verification_acc, &spl, &sys, &reg, &priced),
        Err(_)
    ));

    // Invalid fee_collector_account
    let mut pool_token_copy = pool_token;
    assert!(matches!(
        init_verification_transfer_fee(&mut f, &token_acc, &mut pool_m, &mut pool_token, &fee_c, &mut pool_token_copy, &g, &mut verification_acc, &spl, &sys, &reg, &priced),
        Err(_)
    ));

    assert!(matches!(
        init_verification_transfer_fee(&mut f, &token_acc, &mut pool_m, &mut pool_token, &fee_c, &mut fee_c_token, &g, &mut verification_acc, &spl, &sys, &reg, &priced),
        Ok(())
    ));

    assert!(matches!(verification_acc.get_state(), VerificationState::FeeTransferred));
}

fn test_proof() -> Proof {
    Proof { a: [10026859, 0, 0, 0], b: [19685960, 0, 0, 0], c: [21186803, 0, 0, 0] }
}

#[test]
fn test_init_verification_proof() {
    let proof = test_proof();
    let valid_key = [0u64, 0, 0, 0];
    let fee_payer = AccountState { key: valid_key, lamports: 0 };
    let schedule: Vec<u16> = vec![0; 5];
    let mut verification_account = VerificationAccount::setup(
        RawU256::new(valid_key),
        false,
        &Vec::new(),
        &schedule,
        0,
        ProofRequest::Send(send_inputs(0, MIN_FEE)),
        [0, 1],
    );

    // Account setup
    verification_account.set_state(&VerificationState::ProofSetup);
    assert!(matches!(init_verification_proof(&fee_payer, &mut verification_account, proof), Err(_)));
    verification_account.set_state(&VerificationState::FeeTransferred);

    // Computation already finished
    verification_account.set_is_verified(&Some(true));
    assert!(matches!(init_verification_proof(&fee_payer, &mut verification_account, proof), Err(_)));
    verification_account.set_is_verified(&Some(false));
    assert!(matches!(init_verification_proof(&fee_payer, &mut verification_account, proof), Err(_)));
    verification_account.set_is_verified(&None);

    // Invalid fee_payer
    let invalid_fee_payer = AccountState { key: [9, 9, 9, 9], lamports: 0 };
    assert!(matches!(init_verification_proof(&invalid_fee_payer, &mut verification_account, proof), Err(_)));

    // Success
    assert!(matches!(init_verification_proof(&fee_payer, &mut verification_account, proof), Ok(())));
    assert!(matches!(verification_account.get_state(), VerificationState::ProofSetup));
    assert_eq!(verification_account.get_proof().a, proof.a);
    assert_eq!(verification_account.get_proof().b, proof.b);
    assert_eq!(verification_account.get_proof().c, proof.c);

    // Already setup proof
    assert!(matches!(init_verification_proof(&fee_payer, &mut verification_account, proof), Err(_)));
}

#[test]
fn test_compute_verification() {
    let vkey = VKeyAccount { is_frozen: true, public_inputs_count: 14 };
    let schedule: Vec<u16> = vec![0; 5];
    let mut verification_account = VerificationAccount::setup(
        RawU256::new([1, 0, 0, 0]),
        false,
        &Vec::new(),
        &schedule,
        SEND_QUADRA_VKEY_ID,
        ProofRequest::Send(send_inputs(0, MIN_FEE)),
        [0, 1],
    );

    // Computation is already finished (a verdict is recorded)
    verification_account.set_is_verified(&Some(true));
    assert!(matches!(
        compute_verification(&mut verification_account, &vkey, SEND_QUADRA_VKEY_ID, Ok(None)),
        Err(_)
    ));
    verification_account.set_is_verified(&None);

    // A frozen key of another id is rejected
    assert!(matches!(
        compute_verification(&mut verification_account, &vkey, SEND_QUADRA_VKEY_ID + 1, Ok(None)),
        Err(_)
    ));

    // Success for public input preparation
    for _ in 0..schedule.len() {
        assert!(matches!(
            compute_verification(&mut verification_account, &vkey, SEND_QUADRA_VKEY_ID, Ok(None)),
            Ok(())
        ));
    }

    // Failure of the pairing sub-phase while the proof is not set up
    assert!(matches!(
        compute_verification(
            &mut verification_account,
            &vkey,
            SEND_QUADRA_VKEY_ID,
            Err(ElusivError::InvalidAccountState),
        ),
        Err(_)
    ));

    let proof = test_proof();
    verification_account.set_proof(&proof);
    verification_account.set_state(&VerificationState::ProofSetup);

    // Success
    for _ in 0..COMPUTE_VERIFICATION_IX_COUNT - 1 {
        assert!(matches!(
            compute_verification(&mut verification_account, &vkey, SEND_QUADRA_VKEY_ID, Ok(None)),
            Ok(())
        ));
    }
    // A stepper failure other than a state mismatch records a rejection.
    assert!(matches!(
        compute_verification(
            &mut verification_account,
            &vkey,
            SEND_QUADRA_VKEY_ID,
            Err(ElusivError::InvalidPublicInputs),
        ),
        Ok(())
    ));

    // Computation is finished
    assert!(matches!(
        compute_verification(&mut verification_account, &vkey, SEND_QUADRA_VKEY_ID, Ok(None)),
        Err(_)
    ));
    assert_eq!(verification_account.get_is_verified(), Some(false));
}

struct FinalizeSendSetup {
    public_inputs: SendPublicInputs,
    verification_acc: VerificationAccount,
    recipient: [u64; 4],
    identifier: [u64; 4],
    reference: [u64; 4],
    finalize_data: FinalizeSendData,
    fee_payer: [u64; 4],
}

fn finalize_send_test(token_id: u16) -> FinalizeSendSetup {
    let recipient = [21u64, 0, 0, 0];
    let identifier = [22u64, 0, 0, 0];
    let reference = [23u64, 0, 0, 0];
    let iv = [24u64, 0, 0, 0];
    let encrypted_owner = [25u64, 0, 0, 0];
    let fee_payer = [26u64, 0, 0, 0];

    let public_inputs = SendPublicInputs {
        join_split: JoinSplitPublicInputs {
            input_commitments: vec![InputCommitment {
                root: Some(empty_root_raw()),
                nullifier_hash: RawU256::new(u256_from_str_skip_mr("1")),
            }],
            output_commitment: RawU256::new(u256_from_str_skip_mr("987654321")),
            fee_version: 0,
            amount: LAMPORTS_PER_SOL,
            fee: 10000,
            token_id,
        },
        recipient_is_associated_token_account: false,
        hashed_inputs: generate_hashed_inputs(
            recipient,
            identifier,
            iv,
            encrypted_owner,
            reference,
            false,
            &None,
        ),
        current_time: 1234567,
        solana_pay_transfer: false,
    };

    let mut verification_acc = VerificationAccount::setup(
        RawU256::new(fee_payer),
        false,
        &Vec::new(),
        &vec![0],
        0,
        ProofRequest::Send(public_inputs.clone()),
        [0, 1],
    );
    verification_acc.set_state(&VerificationState::ProofSetup);
    verification_acc.set_is_verified(&Some(true));
    verification_acc.set_other_data(&VerificationAccountData {
        recipient_wallet: Some(RawU256::new(recipient)),
        fee_payer_account: RawU256::new(fee_payer),
        ..VerificationAccountData::empty(RawU256::new(fee_payer))
    });

    let finalize_data = FinalizeSendData {
        timestamp: public_inputs.current_time,
        total_amount: public_inputs.join_split.amount + public_inputs.join_split.fee,
        token_id,
        mt_index: 0,
        commitment_index: 0,
        iv,
        encrypted_owner,
    };

    FinalizeSendSetup { public_inputs, verification_acc, recipient, identifier, reference, finalize_data, fee_payer }
}

const INSTRUCTIONS_ACCOUNT_KEY: [u64; 4] = [255, 255, 255, 255];

#[test]
fn test_finalize_verification_send_valid() {
    let mut setup = finalize_send_test(USDC_TOKEN_ID);
    let queue = commitment_queue_new();
    let storage = StorageAccount::new();
    let list = finalize_tags(1, false);

    // Verification is not finished
    setup.verification_acc.set_is_verified(&None);
    assert!(matches!(
        finalize_verification_send(setup.recipient, setup.identifier, setup.reference, INSTRUCTIONS_ACCOUNT_KEY, &queue, &mut setup.verification_acc, &storage, &list, 0, setup.finalize_data.clone(), false, &OWN_PROGRAM_ID),
        Err(_)
    ));

    setup.verification_acc.set_is_verified(&Some(true));

    // Invalid recipient
    assert!(matches!(
        finalize_verification_send(setup.identifier, setup.identifier, setup.reference, INSTRUCTIONS_ACCOUNT_KEY, &queue, &mut setup.verification_acc, &storage, &list, 0, setup.finalize_data.clone(), false, &OWN_PROGRAM_ID),
        Err(_)
    ));

    // Invalid identifier
    assert!(matches!(
        finalize_verification_send(setup.recipient, setup.recipient, setup.reference, INSTRUCTIONS_ACCOUNT_KEY, &queue, &mut setup.verification_acc, &storage, &list, 0, setup.finalize_data.clone(), false, &OWN_PROGRAM_ID),
        Err(_)
    ));

    // Invalid reference
    assert!(matches!(
        finalize_verification_send(setup.recipient, setup.identifier, setup.recipient, INSTRUCTIONS_ACCOUNT_KEY, &queue, &mut setup.verification_acc, &storage, &list, 0, setup.finalize_data.clone(), false, &OWN_PROGRAM_ID),
        Err(_)
    ));

    // Invalid finalize_data
    for invalid_data in [
        mutate(&setup.finalize_data, |d| { d.timestamp = 0 }),
        mutate(&setup.finalize_data, |d| { d.total_amount = setup.public_inputs.join_split.amount }),
        mutate(&setup.finalize_data, |d| { d.token_id = 0 }),
        mutate(&setup.finalize_data, |d| { d.commitment_index = 1 }),
        mutate(&setup.finalize_data, |d| { d.mt_index = 1 }),
        mutate(&setup.finalize_data, |d| { d.encrypted_owner = d.iv }),
        mutate(&setup.finalize_data, |d| { d.iv = d.encrypted_owner }),
    ] {
        assert!(matches!(
            finalize_verification_send(setup.recipient, setup.identifier, setup.reference, INSTRUCTIONS_ACCOUNT_KEY, &queue, &mut setup.verification_acc, &storage, &list, 0, invalid_data, false, &OWN_PROGRAM_ID),
            Err(_)
        ));
    }

    // Success
    assert!(matches!(
        finalize_verification_send(setup.recipient, setup.identifier, setup.reference, INSTRUCTIONS_ACCOUNT_KEY, &queue, &mut setup.verification_acc, &storage, &list, 0, setup.finalize_data.clone(), false, &OWN_PROGRAM_ID),
        Ok(())
    ));

    assert!(matches!(setup.verification_acc.get_state(), VerificationState::InsertNullifiers));

    // Called twice
    assert!(matches!(
        finalize_verification_send(setup.recipient, setup.identifier, setup.reference, INSTRUCTIONS_ACCOUNT_KEY, &queue, &mut setup.verification_acc, &storage, &list, 0, setup.finalize_data.clone(), false, &OWN_PROGRAM_ID),
        Err(_)
    ));
}

#[test]
fn test_finalize_verification_send_invalid() {
    let mut setup = finalize_send_test(USDC_TOKEN_ID);
    let queue = commitment_queue_new();
    let storage = StorageAccount::new();
    let list: Vec<Instruction> = Vec::new();

    setup.verification_acc.set_is_verified(&Some(false));

    assert!(matches!(
        finalize_verification_send(setup.recipient, setup.identifier, setup.reference, INSTRUCTIONS_ACCOUNT_KEY, &queue, &mut setup.verification_acc, &storage, &list, 0, setup.finalize_data.clone(), false, &OWN_PROGRAM_ID),
        Ok(())
    ));
    assert!(matches!(setup.verification_acc.get_state(), VerificationState::Finalized));
}

#[test]
fn test_finalize_verification_migrate() {
    let migrate_public_inputs = MigratePublicInputs {
        join_split: send_inputs(0, 10000).join_split,
        current_nsmt_root: RawU256::new([0, 0, 0, 0]),
        next_nsmt_root: RawU256::new([0, 0, 0, 0]),
    };

    let mut v_account = VerificationAccount::setup(
        RawU256::new([1, 0, 0, 0]),
        false,
        &Vec::new(),
        &vec![0],
        1,
        ProofRequest::Migrate(migrate_public_inputs),
        [0, 1],
    );
    v_account.set_state(&VerificationState::ProofSetup);
    v_account.set_is_verified(&Some(true));

    let queue = commitment_queue_new();
    let storage = StorageAccount::new();
    let finalize_data = FinalizeSendData::default();

    assert!(matches!(
        finalize_verification_send([1, 0, 0, 0], [1, 0, 0, 0], [1, 0, 0, 0], INSTRUCTIONS_ACCOUNT_KEY, &queue, &mut v_account, &storage, &Vec::new(), 0, finalize_data, false, &OWN_PROGRAM_ID),
        Err(_)
    ));
}

#[test]
fn test_finalize_verification_send_nullifier() {
    let mut setup = finalize_send_test(USDC_TOKEN_ID);
    let list = finalize_tags(1, false);

    setup.verification_acc.set_state(&VerificationState::InsertNullifiers);

    // Nullifier duplicate
    let mut n_acc_0 = NullifierAccount::new([0, 0, 0, 0]);
    n_acc_0
        .try_insert_nullifier_hash(
            setup.public_inputs.join_split.input_commitments[0].nullifier_hash.reduce(),
        )
        .unwrap();
    assert!(matches!(
        finalize_verification_send_nullifier(&mut setup.verification_acc, &mut n_acc_0, &list, 1, 0, &OWN_PROGRAM_ID),
        Err(_)
    ));

    let mut n_acc_0 = NullifierAccount::new([0, 0, 0, 0]);

    // Success
    assert!(matches!(
        finalize_verification_send_nullifier(&mut setup.verification_acc, &mut n_acc_0, &list, 1, 0, &OWN_PROGRAM_ID),
        Ok(())
    ));

    assert!(!n_acc_0
        .can_insert_nullifier_hash(
            setup.public_inputs.join_split.input_commitments[0].nullifier_hash.reduce(),
        )
        .unwrap());
    assert!(matches!(setup.verification_acc.get_state(), VerificationState::Finalized));

    // Called twice
    assert!(matches!(
        finalize_verification_send_nullifier(&mut setup.verification_acc, &mut n_acc_0, &list, 1, 0, &OWN_PROGRAM_ID),
        Err(_)
    ));
}

#[test]
fn test_finalize_verification_transfer_lamports() {
    let mut setup = finalize_send_test(LAMPORTS_TOKEN_ID);
    setup.verification_acc.set_state(&VerificationState::Finalized);
    let list = finalize_tags(1, true);

    let mut f = AccountState { key: setup.fee_payer, lamports: 0 };
    let mut recipient = AccountState { key: setup.recipient, lamports: 0 };
    let mut pool = AccountState { key: [30, 0, 0, 0], lamports: 10 * LAMPORTS_PER_SOL };
    let mut fee_c = AccountState { key: [31, 0, 0, 0], lamports: 0 };
    let (nd_key, _bump) = setup.public_inputs.join_split.nullifier_duplicate_pda(&OWN_PROGRAM_ID).unwrap();
    let mut n_pda = AccountState { key: nd_key, lamports: 1000 };
    let mut v_lamports: u64 = 2000;
    let mut queue = commitment_queue_new();

    // Invalid state
    {
        let mut wrong_state = finalize_send_test(LAMPORTS_TOKEN_ID);
        wrong_state.verification_acc.set_state(&VerificationState::Created);
        assert!(matches!(
            finalize_verification_transfer_lamports(&mut f, &mut recipient, &mut pool, &mut fee_c, &mut queue, &mut wrong_state.verification_acc, &mut v_lamports, &mut n_pda, &list, 2, &OWN_PROGRAM_ID),
            Err(_)
        ));
    }

    // Invalid nullifier_duplicate_account
    let mut invalid_n_pda = AccountState { key: [9, 9, 9, 9], lamports: 1000 };
    assert!(matches!(
        finalize_verification_transfer_lamports(&mut f, &mut recipient, &mut pool, &mut fee_c, &mut queue, &mut setup.verification_acc, &mut v_lamports, &mut invalid_n_pda, &list, 2, &OWN_PROGRAM_ID),
        Err(_)
    ));

    // Invalid original_fee_payer
    let mut any = AccountState { key: [9, 9, 9, 9], lamports: 0 };
    assert!(matches!(
        finalize_verification_transfer_lamports(&mut any, &mut recipient, &mut pool, &mut fee_c, &mut queue, &mut setup.verification_acc, &mut v_lamports, &mut n_pda, &list, 2, &OWN_PROGRAM_ID),
        Err(_)
    ));

    // Invalid recipient
    assert!(matches!(
        finalize_verification_transfer_lamports(&mut f, &mut any, &mut pool, &mut fee_c, &mut queue, &mut setup.verification_acc, &mut v_lamports, &mut n_pda, &list, 2, &OWN_PROGRAM_ID),
        Err(_)
    ));

    // Commitment queue is full
    {
        let mut full_queue = commitment_queue_new();
        for _ in 0..239 {
            full_queue
                .enqueue(CommitmentHashRequest { commitment: [0, 0, 0, 0], fee_version: 0, min_batching_rate: 0 })
                .unwrap();
        }
        assert!(matches!(
            finalize_verification_transfer_lamports(&mut f, &mut recipient, &mut pool, &mut fee_c, &mut full_queue, &mut setup.verification_acc, &mut v_lamports, &mut n_pda, &list, 2, &OWN_PROGRAM_ID),
            Err(ElusivError::QueueIsFull)
        ));
    }

    assert!(matches!(
        finalize_verification_transfer_lamports(&mut f, &mut recipient, &mut pool, &mut fee_c, &mut queue, &mut setup.verification_acc, &mut v_lamports, &mut n_pda, &list, 2, &OWN_PROGRAM_ID),
        Ok(())
    ));

    assert_eq!(n_pda.lamports, 0);
    assert_eq!(v_lamports, 0);
    assert!(matches!(setup.verification_acc.get_state(), VerificationState::Closed));
    assert_eq!(recipient.lamports, LAMPORTS_PER_SOL);
    assert_eq!(queue.len(), 1);
}

#[test]
fn test_finalize_verification_transfer_token() {
    let reg = registry();
    let usdc_mint = reg.mints[USDC_TOKEN_ID as usize];
    let mut setup = finalize_send_test(USDC_TOKEN_ID);
    setup.verification_acc.set_state(&VerificationState::Finalized);
    let list = finalize_tags(1, false);

    let mut f = AccountState { key: setup.fee_payer, lamports: 0 };
    let mut f_token = TokenAccount { key: setup.fee_payer, amount: 0, token_id: USDC_TOKEN_ID, owner: setup.fee_payer, exists: true };
    let mut r = TokenAccount { key: setup.recipient, amount: 0, token_id: USDC_TOKEN_ID, owner: setup.recipient, exists: true };
    let r_wallet = AccountState { key: setup.recipient, lamports: 0 };
    let mut pool = AccountState { key: [30, 0, 0, 0], lamports: 10 * LAMPORTS_PER_SOL };
    let fee_c = AccountState { key: [31, 0, 0, 0], lamports: 0 };
    let mut fee_c_m = fee_c;
    let pool_ata = get_associated_token_address(&pool.key, &usdc_mint).unwrap();
    let fee_c_ata = get_associated_token_address(&fee_c.key, &usdc_mint).unwrap();
    let mut pool_token = TokenAccount { key: pool_ata, amount: 10 * LAMPORTS_PER_SOL, token_id: USDC_TOKEN_ID, owner: pool.key, exists: true };
    let mut fee_c_token = TokenAccount { key: fee_c_ata, amount: 0, token_id: USDC_TOKEN_ID, owner: fee_c.key, exists: true };
    let (nd_key, _bump) = setup.public_inputs.join_split.nullifier_duplicate_pda(&OWN_PROGRAM_ID).unwrap();
    let mut n_pda = AccountState { key: nd_key, lamports: 1000 };
    let mut v_lamports: u64 = 2000;
    let mut queue = commitment_queue_new();
    let spl = token_program_id();
    let sys = system_program_id();

    // Invalid pool_account
    let mut fee_c_token_copy = fee_c_token;
    assert!(matches!(
        finalize_verification_transfer_token(&mut f, &mut f_token, &mut r, &r_wallet, &mut pool, &mut fee_c_token_copy, &mut fee_c_m, &mut fee_c_token, &mut queue, &mut setup.verification_acc, &mut v_lamports, &mut n_pda, &spl, &usdc_mint, &list, 2, &reg, 42, &OWN_PROGRAM_ID),
        Err(_)
    ));

    // Invalid fee_collector_account
    let mut pool_token_copy = pool_token;
    assert!(matches!(
        finalize_verification_transfer_token(&mut f, &mut f_token, &mut r, &r_wallet, &mut pool, &mut pool_token, &mut fee_c_m, &mut pool_token_copy, &mut queue, &mut setup.verification_acc, &mut v_lamports, &mut n_pda, &spl, &usdc_mint, &list, 2, &reg, 42, &OWN_PROGRAM_ID),
        Err(_)
    ));

    // Invalid token_program
    assert!(matches!(
        finalize_verification_transfer_token(&mut f, &mut f_token, &mut r, &r_wallet, &mut pool, &mut pool_token, &mut fee_c_m, &mut fee_c_token, &mut queue, &mut setup.verification_acc, &mut v_lamports, &mut n_pda, &sys, &usdc_mint, &list, 2, &reg, 42, &OWN_PROGRAM_ID),
        Err(_)
    ));

    // Invalid original_fee_payer
    let mut any = AccountState { key: [9, 9, 9, 9], lamports: 0 };
    assert!(matches!(
        finalize_verification_transfer_token(&mut any, &mut f_token, &mut r, &r_wallet, &mut pool, &mut pool_token, &mut fee_c_m, &mut fee_c_token, &mut queue, &mut setup.verification_acc, &mut v_lamports, &mut n_pda, &spl, &usdc_mint, &list, 2, &reg, 42, &OWN_PROGRAM_ID),
        Err(_)
    ));

    // Invalid recipient
    let mut any_token = TokenAccount { key: [9, 9, 9, 9], amount: 0, token_id: USDC_TOKEN_ID, owner: [9, 9, 9, 9], exists: true };
    assert!(matches!(
        finalize_verification_transfer_token(&mut f, &mut f_token, &mut any_token, &r_wallet, &mut pool, &mut pool_token, &mut fee_c_m, &mut fee_c_token, &mut queue, &mut setup.verification_acc, &mut v_lamports, &mut n_pda, &spl, &usdc_mint, &list, 2, &reg, 42, &OWN_PROGRAM_ID),
        Err(_)
    ));

    assert!(matches!(
        finalize_verification_transfer_token(&mut f, &mut f_token, &mut r, &r_wallet, &mut pool, &mut pool_token, &mut fee_c_m, &mut fee_c_token, &mut queue, &mut setup.verification_acc, &mut v_lamports, &mut n_pda, &spl, &usdc_mint, &list, 2, &reg, 42, &OWN_PROGRAM_ID),
        Ok(())
    ));

    assert_eq!(n_pda.lamports, 0);
    assert_eq!(v_lamports, 0);
    assert!(matches!(setup.verification_acc.get_state(), VerificationState::Closed));
    assert_eq!(r.amount, LAMPORTS_PER_SOL);
    assert_eq!(queue.len(), 1);
}
