//! The instruction handlers driving a verification through its
//! lifecycle, and the checks they share.
//!
//! Each handler asserts the account's current state, performs validated
//! work, and advances the state; every guard aborts the call with a
//! structural error and changes nothing. The callers hand the handlers
//! plain decoded values: account keys and balances, the statement, the
//! transaction's decoded instruction list, and the priced fee
//! components.

use vstd::prelude::*;
use vstd::std_specs::cmp::PartialEqSpec;
use crate::U256;
use crate::u256_eq;
use crate::error::ElusivError;
use crate::fields::RawU256;
use crate::instructions::{
    AccountMeta, Instruction, bytes_eq, FINALIZE_VERIFICATION_SEND_INDEX,
    FINALIZE_VERIFICATION_SEND_NULLIFIER_INDEX, FINALIZE_VERIFICATION_TRANSFER_LAMPORTS_INDEX,
    FINALIZE_VERIFICATION_TRANSFER_TOKEN_INDEX, spec_memo_program_id, memo_instruction,
    spec_system_program_id, system_program_id, spec_token_program_id, token_program_id,
    system_instruction_transfer, token_instruction_transfer,
};
use crate::state::{MT_COMMITMENT_COUNT, StorageAccount, NullifierAccount, VKeyAccount, GovernorAccount};
use crate::types::{InputCommitment, JoinSplitPublicInputs, SendPublicInputs, ProofRequest, Proof, JOIN_SPLIT_MAX_N_ARITY, SEND_QUADRA_VKEY_ID, MIGRATE_UNARY_VKEY_ID, spec_hashed_inputs};
use crate::fields::{spec_reduced, u256_from_bytes};
use crate::verification::{VerificationAccount, VerificationAccountData, VerificationState};
use crate::token::{AccountState, TokenAccount, TokenRegistry, Token, lamports_add, verify_token_account, verify_program_token_account, verify_associated_token_account, spec_token_account_valid, spec_program_token_account_valid, spec_associated_token_address};
use crate::queue::{CommitmentQueue, CommitmentHashRequest};

verus! {

/// We only allow two distinct trees in a join-split (merges reduce the
/// tree count).
pub const MAX_MT_COUNT: usize = 2;

/// The most verification accounts allowed at once per fee payer, which
/// bounds address griefing.
pub const RESERVED_VACCS_PER_FEE_PAYER: u32 = 128;

/// How many instructions one compute transaction carries.
pub const COMPUTE_VERIFICATION_IX_COUNT: u16 = 7;

/// How many low timestamp bits validation ignores.
pub const TIMESTAMP_BITS_PRUNING: u64 = 5;

/// An asserted time is acceptable iff it is no further ahead of the
/// current time than the pruning granularity: both are right-shifted by
/// the pruning bits and compared.
pub fn is_timestamp_valid(asserted_time: u64, timestamp: u64) -> (r: bool)
    ensures
        r == (asserted_time >> TIMESTAMP_BITS_PRUNING <= timestamp >> TIMESTAMP_BITS_PRUNING),
{
    (asserted_time >> TIMESTAMP_BITS_PRUNING) <= (timestamp >> TIMESTAMP_BITS_PRUNING)
}

/// Whether no element of `v` occurs twice.
pub fn is_vec_duplicate_free<T: PartialEq + PartialEqSpec + Clone>(v: &Vec<T>) -> (r: bool)
    requires
        T::obeys_eq_spec(),
    ensures
        r <==> forall|i: int, j: int| 0 <= i < j < v@.len() ==> !v@[i].eq_spec(&v@[j]),
{
    let n: usize = v.len();
    let mut i: usize = 0;
    while i < n
        invariant
            T::obeys_eq_spec(),
            n == v@.len(),
            i <= n,
            forall|x: int, y: int| 0 <= x < y < n && x < i ==> !v@[x].eq_spec(&v@[y]),
        decreases n - i,
    {
        let mut j: usize = i + 1;
        while j < n
            invariant
                T::obeys_eq_spec(),
                n == v@.len(),
                i < j <= n || (i + 1 == j && j > n),
                i < n,
                forall|y: int| i < y < j ==> !v@[i as int].eq_spec(&v@[y]),
            decreases n - j,
        {
            if v[i] == v[j] {
                return false;
            }
            j = j + 1;
        }
        i = i + 1;
    }
    true
}

/// The estimated minimum placement of the next output commitment: its
/// index within a tree, and which tree it lands in, given the active
/// tree's index, how many commitments that tree holds, and how many wait
/// in the queue.
pub fn minimum_commitment_mt_index(
    mt_index: u32,
    commitment_count: u32,
    commitment_queue_len: u32,
) -> (r: (u32, u32))
    requires
        commitment_count + commitment_queue_len <= u32::MAX,
        mt_index + (commitment_count + commitment_queue_len) / (MT_COMMITMENT_COUNT as int)
            <= u32::MAX,
    ensures
        r.0 == (commitment_count + commitment_queue_len) as int % (MT_COMMITMENT_COUNT as int),
        r.1 == mt_index + (commitment_count + commitment_queue_len) as int / (
        MT_COMMITMENT_COUNT as int),
{
    let count: u32 = MT_COMMITMENT_COUNT as u32;
    let pending: u32 = commitment_count + commitment_queue_len;
    let index: u32 = pending % count;
    let mt_offset: u32 = pending / count;
    (index, mt_index + mt_offset)
}

/// The tag (leading payload byte) of this program's instruction at
/// position `idx` of the transaction: out-of-range positions and empty
/// payloads are ordering violations, a foreign program id an account
/// violation.
pub open spec fn spec_ix_tag(list: Seq<Instruction>, idx: int, program_id: U256) -> Result<
    u8,
    ElusivError,
> {
    if idx < 0 || idx >= list.len() {
        Err(ElusivError::InvalidOtherInstruction)
    } else if list[idx].program_id != program_id {
        Err(ElusivError::InvalidAccount)
    } else if list[idx].data@.len() == 0 {
        Err(ElusivError::InvalidOtherInstruction)
    } else {
        Ok(list[idx].data@[0])
    }
}

/// Reads the tag of this program's instruction at `idx`.
fn get_elusiv_ix_index(instruction_list: &Vec<Instruction>, idx: usize, program_id: &U256) -> (r:
    Result<u8, ElusivError>)
    ensures
        r == spec_ix_tag(instruction_list@, idx as int, *program_id),
{
    if idx >= instruction_list.len() {
        return Err(ElusivError::InvalidOtherInstruction);
    }
    let ix: &Instruction = &instruction_list[idx];
    if !u256_eq(&ix.program_id, program_id) {
        return Err(ElusivError::InvalidAccount);
    }
    if ix.data.len() == 0 {
        return Err(ElusivError::InvalidOtherInstruction);
    }
    Ok(ix.data[0])
}

/// The sibling run from position `zero` on matches the expected tags from
/// `k` on.
pub open spec fn spec_siblings_from(
    list: Seq<Instruction>,
    zero: int,
    expected: Seq<u8>,
    program_id: U256,
    k: int,
) -> Result<(), ElusivError>
    decreases expected.len() - k,
{
    if k < 0 || k >= expected.len() {
        Ok(())
    } else {
        match spec_ix_tag(list, zero + k, program_id) {
            Ok(tag) => if tag == expected[k] {
                spec_siblings_from(list, zero, expected, program_id, k + 1)
            } else {
                Err(ElusivError::InvalidOtherInstruction)
            },
            Err(e) => Err(e),
        }
    }
}

/// What enforcing a sibling run decides: the current instruction (at
/// position `current_index`, standing at offset `current_sibling_index`
/// of the run) must carry the expected tag, the run must fit before it,
/// and every run position must carry its expected tag.
pub open spec fn spec_enforce_instruction_siblings(
    list: Seq<Instruction>,
    current_index: int,
    current_sibling_index: int,
    expected: Seq<u8>,
    program_id: U256,
) -> Result<(), ElusivError> {
    if current_sibling_index >= expected.len() {
        Err(ElusivError::InvalidOtherInstruction)
    } else {
        match spec_ix_tag(list, current_index, program_id) {
            Ok(tag) => if tag != expected[current_sibling_index] {
                Err(ElusivError::InvalidOtherInstruction)
            } else if current_index < current_sibling_index {
                Err(ElusivError::MathError)
            } else {
                spec_siblings_from(
                    list,
                    current_index - current_sibling_index,
                    expected,
                    program_id,
                    0,
                )
            },
            Err(e) => Err(e),
        }
    }
}

/// Enforces that the transaction's instructions around the current one
/// match the expected ordering of tags exactly.
pub fn enforce_instruction_siblings(
    instruction_list: &Vec<Instruction>,
    current_index: usize,
    current_sibling_index: usize,
    expected: &Vec<u8>,
    program_id: &U256,
) -> (r: Result<(), ElusivError>)
    ensures
        r == spec_enforce_instruction_siblings(
            instruction_list@,
            current_index as int,
            current_sibling_index as int,
            expected@,
            *program_id,
        ),
{
    if current_sibling_index >= expected.len() {
        return Err(ElusivError::InvalidOtherInstruction);
    }
    let current_tag: u8 = match get_elusiv_ix_index(instruction_list, current_index, program_id) {
        Ok(tag) => tag,
        Err(e) => {
            return Err(e);
        }
    };
    if current_tag != expected[current_sibling_index] {
        return Err(ElusivError::InvalidOtherInstruction);
    }
    if current_index < current_sibling_index {
        return Err(ElusivError::MathError);
    }
    let zero_ix_index: usize = current_index - current_sibling_index;
    let n: usize = expected.len();
    let list_len: usize = instruction_list.len();
    let mut k: usize = 0;
    while k < n
        invariant
            n == expected@.len(),
            list_len == instruction_list@.len(),
            k <= n,
            zero_ix_index <= current_index,
            spec_enforce_instruction_siblings(
                instruction_list@,
                current_index as int,
                current_sibling_index as int,
                expected@,
                *program_id,
            ) == spec_siblings_from(
                instruction_list@,
                zero_ix_index as int,
                expected@,
                *program_id,
                k as int,
            ),
        decreases n - k,
    {
        if k > usize::MAX - zero_ix_index {
            proof {
                assert(zero_ix_index + k >= instruction_list@.len());
                assert(spec_siblings_from(
                    instruction_list@,
                    zero_ix_index as int,
                    expected@,
                    *program_id,
                    k as int,
                ) == Err::<(), ElusivError>(ElusivError::InvalidOtherInstruction));
            }
            return Err(ElusivError::InvalidOtherInstruction);
        }
        let tag_result: Result<u8, ElusivError> = get_elusiv_ix_index(
            instruction_list,
            zero_ix_index + k,
            program_id,
        );
        proof {
            assert(spec_siblings_from(
                instruction_list@,
                zero_ix_index as int,
                expected@,
                *program_id,
                k as int,
            ) == match spec_ix_tag(instruction_list@, zero_ix_index + k, *program_id) {
                Ok(tag) => if tag == expected@[k as int] {
                    spec_siblings_from(
                        instruction_list@,
                        zero_ix_index as int,
                        expected@,
                        *program_id,
                        k + 1,
                    )
                } else {
                    Err(ElusivError::InvalidOtherInstruction)
                },
                Err(e) => Err(e),
            });
        }
        let tag: u8 = match tag_result {
            Ok(tag) => tag,
            Err(e) => {
                return Err(e);
            }
        };
        if tag != expected[k] {
            return Err(ElusivError::InvalidOtherInstruction);
        }
        k = k + 1;
    }
    Ok(())
}

/// The tag sequence a finalize run must show: the first finalize step,
/// one nullifier step per input commitment, then the matching terminal
/// transfer.
pub open spec fn spec_finalize_ix_tags(
    number_of_input_commitments: int,
    uses_lamports: bool,
) -> Seq<u8> {
    seq![FINALIZE_VERIFICATION_SEND_INDEX] + Seq::new(
        number_of_input_commitments as nat,
        |i: int| FINALIZE_VERIFICATION_SEND_NULLIFIER_INDEX,
    ) + seq![
        if uses_lamports {
            FINALIZE_VERIFICATION_TRANSFER_LAMPORTS_INDEX
        } else {
            FINALIZE_VERIFICATION_TRANSFER_TOKEN_INDEX
        },
    ]
}

/// Enforces the fixed finalize sequence around the current instruction.
pub fn enforce_finalize_send_instructions(
    instruction_list: &Vec<Instruction>,
    current_index: usize,
    finalize_instruction_index: usize,
    number_of_input_commitments: usize,
    uses_lamports: bool,
    program_id: &U256,
) -> (r: Result<(), ElusivError>)
    requires
        number_of_input_commitments <= usize::MAX - 2,
    ensures
        r == spec_enforce_instruction_siblings(
            instruction_list@,
            current_index as int,
            finalize_instruction_index as int,
            spec_finalize_ix_tags(number_of_input_commitments as int, uses_lamports),
            *program_id,
        ),
{
    let mut expected: Vec<u8> = Vec::new();
    expected.push(FINALIZE_VERIFICATION_SEND_INDEX);
    let mut i: usize = 0;
    while i < number_of_input_commitments
        invariant
            i <= number_of_input_commitments,
            expected@ =~= seq![FINALIZE_VERIFICATION_SEND_INDEX] + Seq::new(
                i as nat,
                |x: int| FINALIZE_VERIFICATION_SEND_NULLIFIER_INDEX,
            ),
        decreases number_of_input_commitments - i,
    {
        expected.push(FINALIZE_VERIFICATION_SEND_NULLIFIER_INDEX);
        i = i + 1;
        proof {
            assert(expected@ =~= seq![FINALIZE_VERIFICATION_SEND_INDEX] + Seq::new(
                i as nat,
                |x: int| FINALIZE_VERIFICATION_SEND_NULLIFIER_INDEX,
            ));
        }
    }
    if uses_lamports {
        expected.push(FINALIZE_VERIFICATION_TRANSFER_LAMPORTS_INDEX);
    } else {
        expected.push(FINALIZE_VERIFICATION_TRANSFER_TOKEN_INDEX);
    }
    proof {
        assert(expected@ =~= spec_finalize_ix_tags(
            number_of_input_commitments as int,
            uses_lamports,
        ));
    }
    enforce_instruction_siblings(
        instruction_list,
        current_index,
        finalize_instruction_index,
        &expected,
        program_id,
    )
}

/// Whether the instruction at `index` matches `expected`: same program,
/// same payload unless ignored, and at least the expected accounts with
/// at least the expected privileges.
pub open spec fn spec_instruction_matches(
    actual: Instruction,
    expected: Instruction,
    ignore_data: bool,
) -> bool {
    &&& actual.program_id == expected.program_id
    &&& (!ignore_data ==> actual.data@ == expected.data@)
    &&& actual.accounts@.len() >= expected.accounts@.len()
    &&& forall|i: int|
        0 <= i < expected.accounts@.len() ==> {
            &&& (#[trigger] actual.accounts@[i]).pubkey == expected.accounts@[i].pubkey
            &&& (expected.accounts@[i].is_signer ==> actual.accounts@[i].is_signer)
            &&& (expected.accounts@[i].is_writable ==> actual.accounts@[i].is_writable)
        }
}

/// What enforcing one instruction decides.
pub open spec fn spec_enforce_instruction(
    list: Seq<Instruction>,
    index: int,
    expected: Instruction,
    ignore_data: bool,
) -> Result<(), ElusivError> {
    if index < 0 || index >= list.len() {
        Err(ElusivError::InvalidOtherInstruction)
    } else if spec_instruction_matches(list[index], expected, ignore_data) {
        Ok(())
    } else {
        Err(ElusivError::InvalidOtherInstruction)
    }
}

/// Checks the instruction at `index` against `expected`.
pub fn enforce_instruction(
    instruction_list: &Vec<Instruction>,
    index: usize,
    expected: &Instruction,
    ignore_data: bool,
) -> (r: Result<(), ElusivError>)
    ensures
        r == spec_enforce_instruction(instruction_list@, index as int, *expected, ignore_data),
{
    if index >= instruction_list.len() {
        return Err(ElusivError::InvalidOtherInstruction);
    }
    let actual: &Instruction = &instruction_list[index];
    if !u256_eq(&actual.program_id, &expected.program_id) {
        return Err(ElusivError::InvalidOtherInstruction);
    }
    if !ignore_data && !bytes_eq(&actual.data, &expected.data) {
        return Err(ElusivError::InvalidOtherInstruction);
    }
    let n: usize = expected.accounts.len();
    if actual.accounts.len() < n {
        return Err(ElusivError::InvalidOtherInstruction);
    }
    let mut i: usize = 0;
    while i < n
        invariant
            n == expected.accounts@.len(),
            actual.accounts@.len() >= n,
            i <= n,
            actual == instruction_list@[index as int],
            forall|j: int|
                0 <= j < i ==> {
                    &&& (#[trigger] actual.accounts@[j]).pubkey == expected.accounts@[j].pubkey
                    &&& (expected.accounts@[j].is_signer ==> actual.accounts@[j].is_signer)
                    &&& (expected.accounts@[j].is_writable ==> actual.accounts@[j].is_writable)
                },
        decreases n - i,
    {
        let exp: &AccountMeta = &expected.accounts[i];
        let act: &AccountMeta = &actual.accounts[i];
        if !u256_eq(&act.pubkey, &exp.pubkey) {
            return Err(ElusivError::InvalidOtherInstruction);
        }
        if exp.is_signer && !act.is_signer {
            return Err(ElusivError::InvalidOtherInstruction);
        }
        if exp.is_writable && !act.is_writable {
            return Err(ElusivError::InvalidOtherInstruction);
        }
        i = i + 1;
    }
    Ok(())
}

/// Where the memo instruction must sit: last in the transaction, or
/// second to last when the payout relays through the fee payer.
pub open spec fn spec_memo_index(list: Seq<Instruction>, solana_pay_transfer: bool) -> int {
    if solana_pay_transfer {
        list.len() - 2
    } else {
        list.len() - 1
    }
}

/// What extracting the memo decides: the instruction at the memo
/// position must be a memo-program instruction; its payload is the memo.
pub open spec fn spec_get_memo_from_instructions(
    list: Seq<Instruction>,
    solana_pay_transfer: bool,
) -> Result<Seq<u8>, ElusivError> {
    let idx = spec_memo_index(list, solana_pay_transfer);
    if idx < 0 || idx >= list.len() {
        Err(ElusivError::InvalidOtherInstruction)
    } else if list[idx].program_id == spec_memo_program_id() {
        Ok(list[idx].data@)
    } else {
        Err(ElusivError::InvalidOtherInstruction)
    }
}

/// Extracts the memo bytes from the transaction's memo instruction.
pub fn get_memo_from_instructions(
    instruction_list: &Vec<Instruction>,
    solana_pay_transfer: bool,
) -> (r: Result<Vec<u8>, ElusivError>)
    ensures
        match spec_get_memo_from_instructions(instruction_list@, solana_pay_transfer) {
            Ok(memo) => r matches Ok(m) && m@ == memo,
            Err(e) => r == Result::<Vec<u8>, ElusivError>::Err(e),
        },
{
    let count: usize = instruction_list.len();
    let back: usize = if solana_pay_transfer { 2 } else { 1 };
    if count < back {
        return Err(ElusivError::InvalidOtherInstruction);
    }
    let memo_index: usize = count - back;
    let empty: Vec<u8> = Vec::new();
    let expected: Instruction = memo_instruction(&empty);
    match enforce_instruction(instruction_list, memo_index, &expected, true) {
        Ok(()) => Ok(instruction_list[memo_index].data.clone()),
        Err(e) => Err(e),
    }
}


/// The raw form of the canonical zero commitment; a statement must never
/// output it.
pub open spec fn spec_zero_commitment_raw() -> U256 {
    [9u64, 9u64, 9u64, 9u64]
}

pub fn zero_commitment_raw() -> (r: U256)
    ensures
        r == spec_zero_commitment_raw(),
{
    [9, 9, 9, 9]
}

/// How many of the first `i` inputs carry their own root; it is also the
/// distinct-root slot the next root-carrying input would take.
pub open spec fn spec_roots_before(inputs: Seq<InputCommitment>, i: int) -> int
    decreases i,
{
    if i <= 0 {
        0
    } else {
        spec_roots_before(inputs, i - 1) + if inputs[i - 1].root is Some {
            1int
        } else {
            0int
        }
    }
}

/// Which tree slot input `i` spends from: its own root's slot if it
/// carries one, the first input's tree otherwise.
pub open spec fn spec_tree_slot(inputs: Seq<InputCommitment>, i: int) -> int {
    if inputs[i].root is Some {
        spec_roots_before(inputs, i)
    } else {
        0
    }
}

/// The root-validation walk over the inputs, from input `i` on, having
/// seen `seen` roots: a third distinct root is rejected; a root of the
/// active tree must be in the live root history; a root of a closed tree
/// must equal that tree's frozen root.
pub open spec fn spec_check_roots(
    inputs: Seq<InputCommitment>,
    storage: StorageAccount,
    n0: NullifierAccount,
    n1: NullifierAccount,
    tree_indices: [u32; 2],
    i: int,
) -> Result<(), ElusivError>
    decreases inputs.len() - i,
{
    if i < 0 || i >= inputs.len() {
        Ok(())
    } else {
        match inputs[i].root {
            Some(root) => {
                let slot = spec_roots_before(inputs, i);
                if slot >= MAX_MT_COUNT {
                    Err(ElusivError::InvalidPublicInputs)
                } else {
                    let valid = if tree_indices[slot] == storage.trees_count {
                        storage.active_mt_root_history@.contains(spec_reduced(root.view_raw()))
                    } else {
                        spec_reduced(root.view_raw()) == (if slot == 0 {
                            n0.root
                        } else {
                            n1.root
                        })
                    };
                    if valid {
                        spec_check_roots(inputs, storage, n0, n1, tree_indices, i + 1)
                    } else {
                        Err(ElusivError::InvalidMerkleRoot)
                    }
                }
            },
            None => spec_check_roots(inputs, storage, n0, n1, tree_indices, i + 1),
        }
    }
}

/// The nullifier walk over the inputs from input `i` on: two inputs must
/// not reuse one nullifier hash within one tree, and every input's
/// reduced nullifier hash must be absent from its tree's set.
pub open spec fn spec_check_nullifiers(
    inputs: Seq<InputCommitment>,
    n0c: Seq<U256>,
    n1c: Seq<U256>,
    i: int,
) -> Result<(), ElusivError>
    decreases inputs.len() - i,
{
    if i < 0 || i >= inputs.len() {
        Ok(())
    } else if exists|j: int|
        0 <= j < inputs.len() && j != i && inputs[j].nullifier_hash.view_raw()
            == inputs[i].nullifier_hash.view_raw() && spec_tree_slot(inputs, j) == spec_tree_slot(
            inputs,
            i,
        ) {
        Err(ElusivError::InvalidPublicInputs)
    } else if (if spec_tree_slot(inputs, i) == 0 {
        n0c
    } else {
        n1c
    }).contains(spec_reduced(inputs[i].nullifier_hash.view_raw())) {
        Err(ElusivError::CouldNotInsertNullifier)
    } else {
        spec_check_nullifiers(inputs, n0c, n1c, i + 1)
    }
}

/// What validating a join-split statement decides (the create step runs
/// this): no zero output commitment, a root on the first input, the
/// arity bound, valid roots over at most two pairwise-distinct trees,
/// and fresh, unrepeated nullifier hashes.
pub open spec fn spec_check_join_split_public_inputs(
    public_inputs: JoinSplitPublicInputs,
    storage: StorageAccount,
    n0: NullifierAccount,
    n1: NullifierAccount,
    tree_indices: [u32; 2],
) -> Result<(), ElusivError> {
    let inputs = public_inputs.input_commitments@;
    if public_inputs.output_commitment.view_raw() == spec_zero_commitment_raw() {
        Err(ElusivError::InvalidPublicInputs)
    } else if inputs.len() == 0 || inputs[0].root is None {
        Err(ElusivError::InvalidPublicInputs)
    } else if inputs.len() > JOIN_SPLIT_MAX_N_ARITY {
        Err(ElusivError::InvalidPublicInputs)
    } else {
        match spec_check_roots(inputs, storage, n0, n1, tree_indices, 0) {
            Err(e) => Err(e),
            Ok(()) => {
                if spec_roots_before(inputs, inputs.len() as int) > 1 && tree_indices[0]
                    == tree_indices[1] {
                    Err(ElusivError::InvalidInstructionData)
                } else {
                    spec_check_nullifiers(inputs, n0.contents(), n1.contents(), 0)
                }
            },
        }
    }
}

/// Validates a join-split statement against the live tree state.
#[verifier::rlimit(80)]
pub fn check_join_split_public_inputs(
    public_inputs: &JoinSplitPublicInputs,
    storage_account: &StorageAccount,
    nullifier_account0: &NullifierAccount,
    nullifier_account1: &NullifierAccount,
    tree_indices: &[u32; 2],
) -> (r: Result<(), ElusivError>)
    ensures
        r == spec_check_join_split_public_inputs(
            *public_inputs,
            *storage_account,
            *nullifier_account0,
            *nullifier_account1,
            *tree_indices,
        ),
{
    let ghost inputs = public_inputs.input_commitments@;
    let ghost whole = spec_check_join_split_public_inputs(
        *public_inputs,
        *storage_account,
        *nullifier_account0,
        *nullifier_account1,
        *tree_indices,
    );
    let out: U256 = public_inputs.output_commitment.skip_mr();
    let zero: U256 = zero_commitment_raw();
    if u256_eq(&out, &zero) {
        return Err(ElusivError::InvalidPublicInputs);
    }
    let n: usize = public_inputs.input_commitments.len();
    if n == 0 || matches!(public_inputs.input_commitments[0].root, Option::None) {
        return Err(ElusivError::InvalidPublicInputs);
    }
    if n > JOIN_SPLIT_MAX_N_ARITY {
        return Err(ElusivError::InvalidPublicInputs);
    }
    // Root walk, recording each input's tree slot on the way.
    let mut slots: Vec<usize> = Vec::new();
    let mut roots_seen: usize = 0;
    let mut i: usize = 0;
    while i < n
        invariant
            n == inputs.len(),
            inputs == public_inputs.input_commitments@,
            i <= n,
            slots@.len() == i,
            roots_seen == spec_roots_before(inputs, i as int),
            roots_seen <= MAX_MT_COUNT,
            forall|j: int| 0 <= j < i ==> slots@[j] == spec_tree_slot(inputs, j),
            whole == spec_check_join_split_public_inputs(
                *public_inputs,
                *storage_account,
                *nullifier_account0,
                *nullifier_account1,
                *tree_indices,
            ),
            public_inputs.output_commitment.view_raw() != spec_zero_commitment_raw(),
            inputs.len() != 0,
            inputs[0].root is Some,
            inputs.len() <= JOIN_SPLIT_MAX_N_ARITY,
            ({
                let rest = spec_check_roots(
                    inputs,
                    *storage_account,
                    *nullifier_account0,
                    *nullifier_account1,
                    *tree_indices,
                    i as int,
                );
                whole == match rest {
                    Err(e) => Err(e),
                    Ok(()) => {
                        if spec_roots_before(inputs, inputs.len() as int) > 1 && tree_indices[0]
                            == tree_indices[1] {
                            Err(ElusivError::InvalidInstructionData)
                        } else {
                            spec_check_nullifiers(
                                inputs,
                                nullifier_account0.contents(),
                                nullifier_account1.contents(),
                                0,
                            )
                        }
                    },
                }
            }),
        decreases n - i,
    {
        let input: &InputCommitment = &public_inputs.input_commitments[i];
        match input.root {
            Some(root) => {
                if roots_seen >= MAX_MT_COUNT {
                    return Err(ElusivError::InvalidPublicInputs);
                }
                let reduced: U256 = root.reduce();
                let valid: bool = if tree_indices[roots_seen]
                    == storage_account.get_trees_count() {
                    storage_account.is_root_valid(reduced)
                } else {
                    let frozen: U256 = if roots_seen == 0 {
                        nullifier_account0.get_root()
                    } else {
                        nullifier_account1.get_root()
                    };
                    u256_eq(&reduced, &frozen)
                };
                if !valid {
                    return Err(ElusivError::InvalidMerkleRoot);
                }
                slots.push(roots_seen);
                roots_seen = roots_seen + 1;
            },
            None => {
                slots.push(0);
            },
        }
        i = i + 1;
    }
    // At most two distinct trees, pairwise different where two are used.
    if roots_seen > 1 {
        let mut index_vec: Vec<u32> = Vec::new();
        index_vec.push(tree_indices[0]);
        index_vec.push(tree_indices[1]);
        if !is_vec_duplicate_free(&index_vec) {
            proof {
                if tree_indices[0] != tree_indices[1] {
                    assert(forall|x: int, y: int|
                        0 <= x < y < index_vec@.len() ==> !index_vec@[x].eq_spec(&index_vec@[y]));
                }
            }
            return Err(ElusivError::InvalidInstructionData);
        }
        proof {
            assert(!index_vec@[0].eq_spec(&index_vec@[1]));
        }
    }
    // Nullifier walk.
    let ghost n0c = nullifier_account0.contents();
    let ghost n1c = nullifier_account1.contents();
    proof {
        assert(spec_check_roots(
            inputs,
            *storage_account,
            *nullifier_account0,
            *nullifier_account1,
            *tree_indices,
            n as int,
        ) == Ok::<(), ElusivError>(()));
        if spec_roots_before(inputs, inputs.len() as int) > 1 {
            assert(!(tree_indices[0] == tree_indices[1]));
        }
        assert(whole == spec_check_nullifiers(inputs, n0c, n1c, 0));
    }
    let mut i: usize = 0;
    while i < n
        invariant
            n == inputs.len(),
            inputs == public_inputs.input_commitments@,
            i <= n,
            slots@.len() == n,
            n0c == nullifier_account0.contents(),
            n1c == nullifier_account1.contents(),
            forall|j: int| 0 <= j < n ==> slots@[j] == spec_tree_slot(inputs, j),
            whole == spec_check_join_split_public_inputs(
                *public_inputs,
                *storage_account,
                *nullifier_account0,
                *nullifier_account1,
                *tree_indices,
            ),
            whole == spec_check_nullifiers(inputs, n0c, n1c, i as int),
        decreases n - i,
    {
        let hash_i: U256 = public_inputs.input_commitments[i].nullifier_hash.skip_mr();
        let slot_i: usize = slots[i];
        let mut j: usize = 0;
        while j < n
            invariant
                n == inputs.len(),
                inputs == public_inputs.input_commitments@,
                i < n,
                j <= n,
                slots@.len() == n,
                n0c == nullifier_account0.contents(),
                n1c == nullifier_account1.contents(),
                hash_i == inputs[i as int].nullifier_hash.view_raw(),
                slot_i == spec_tree_slot(inputs, i as int),
                forall|j2: int| 0 <= j2 < n ==> slots@[j2] == spec_tree_slot(inputs, j2),
                whole == spec_check_join_split_public_inputs(
                    *public_inputs,
                    *storage_account,
                    *nullifier_account0,
                    *nullifier_account1,
                    *tree_indices,
                ),
                whole == spec_check_nullifiers(inputs, n0c, n1c, i as int),
                forall|j2: int|
                    0 <= j2 < j && j2 != i ==> !(inputs[j2].nullifier_hash.view_raw()
                        == inputs[i as int].nullifier_hash.view_raw() && spec_tree_slot(
                        inputs,
                        j2,
                    ) == spec_tree_slot(inputs, i as int)),
            decreases n - j,
        {
            if j != i {
                let hash_j: U256 = public_inputs.input_commitments[j].nullifier_hash.skip_mr();
                if u256_eq(&hash_i, &hash_j) && slots[j] == slot_i {
                    proof {
                        assert(inputs[j as int].nullifier_hash.view_raw()
                            == inputs[i as int].nullifier_hash.view_raw() && spec_tree_slot(
                            inputs,
                            j as int,
                        ) == spec_tree_slot(inputs, i as int));
                        assert(spec_check_nullifiers(inputs, n0c, n1c, i as int) == Err::<
                            (),
                            ElusivError,
                        >(ElusivError::InvalidPublicInputs));
                    }
                    return Err(ElusivError::InvalidPublicInputs);
                }
            }
            j = j + 1;
        }
        proof {
            assert(!(exists|j2: int|
                0 <= j2 < inputs.len() && j2 != i && inputs[j2].nullifier_hash.view_raw()
                    == inputs[i as int].nullifier_hash.view_raw() && spec_tree_slot(inputs, j2)
                    == spec_tree_slot(inputs, i as int)));
        }
        let reduced: U256 = public_inputs.input_commitments[i].nullifier_hash.reduce();
        let fresh: bool = if slot_i == 0 {
            match nullifier_account0.can_insert_nullifier_hash(reduced) {
                Ok(b) => b,
                Err(_) => false,
            }
        } else {
            match nullifier_account1.can_insert_nullifier_hash(reduced) {
                Ok(b) => b,
                Err(_) => false,
            }
        };
        if !fresh {
            proof {
                assert(spec_check_nullifiers(inputs, n0c, n1c, i as int) == Err::<
                    (),
                    ElusivError,
                >(ElusivError::CouldNotInsertNullifier));
            }
            return Err(ElusivError::CouldNotInsertNullifier);
        }
        i = i + 1;
    }
    Ok(())
}


/// The data the first finalize step asserts; every field is checked
/// against the statement and the live tree state.
#[derive(Clone, PartialEq, Debug)]
pub struct FinalizeSendData {
    pub timestamp: u64,
    pub total_amount: u64,
    pub token_id: u16,
    /// Estimated index of the tree the next commitment lands in.
    pub mt_index: u32,
    /// Estimated index of the next commitment within that tree.
    pub commitment_index: u32,
    pub iv: U256,
    pub encrypted_owner: U256,
}

impl Default for FinalizeSendData {
    /// An all-zero record.
    fn default() -> (r: Self)
        ensures
            r == (FinalizeSendData {
                timestamp: 0,
                total_amount: 0,
                token_id: 0,
                mt_index: 0,
                commitment_index: 0,
                iv: [0u64, 0u64, 0u64, 0u64],
                encrypted_owner: [0u64, 0u64, 0u64, 0u64],
            }),
    {
        FinalizeSendData {
            timestamp: 0,
            total_amount: 0,
            token_id: 0,
            mt_index: 0,
            commitment_index: 0,
            iv: [0, 0, 0, 0],
            encrypted_owner: [0, 0, 0, 0],
        }
    }
}

/// The fee components of one verification, already priced into the
/// statement's asset by the fee schedule and the oracle's exchange rates
/// (both outside collaborators): what the fee floor and the escrow
/// movements are computed from.
#[derive(Clone, Copy, PartialEq, Debug)]
pub struct FeeCalculation {
    /// Subsidy the fee collector escrows, in the statement's token.
    pub subvention: u64,
    /// Reward for driving the computation, in the statement's token;
    /// priced from the input-preparation step count.
    pub proof_verification_fee: u64,
    /// Cost of hashing the output commitment at the governor's batching
    /// rate, in lamports.
    pub commitment_hash_fee: u64,
    /// The same cost, in the statement's token.
    pub commitment_hash_fee_token: u64,
    /// The fee collector's cut of the sent amount, in the statement's
    /// token.
    pub network_fee: u64,
    /// Rent for creating an associated token account, in lamports.
    pub associated_token_account_rent: u64,
    /// The same rent, in the statement's token.
    pub associated_token_account_rent_token: u64,
}

/// What creating a verification decides, in guard order: a frozen key of
/// the statement's circuit, a legal instance index, a send statement
/// (migrate is not available) passing its structural, timestamp and
/// join-split checks, and a duplicate-guard account at the statement's
/// derived address (funded, where the guard is deliberately skipped).
pub open spec fn spec_init_verification_check(
    vkey_account: VKeyAccount,
    verification_account_index: u32,
    vkey_id: u32,
    tree_indices: [u32; 2],
    request: ProofRequest,
    skip_nullifier_pda: bool,
    nullifier_duplicate_account: AccountState,
    storage_account: StorageAccount,
    nullifier_account0: NullifierAccount,
    nullifier_account1: NullifierAccount,
    current_timestamp: u64,
    program_id: U256,
) -> Result<(), ElusivError> {
    if !vkey_account.is_frozen {
        Err(ElusivError::InvalidAccount)
    } else if vkey_id != (match request {
        ProofRequest::Send(_) => SEND_QUADRA_VKEY_ID,
        ProofRequest::Migrate(_) => MIGRATE_UNARY_VKEY_ID,
    }) {
        Err(ElusivError::InvalidAccount)
    } else if verification_account_index >= RESERVED_VACCS_PER_FEE_PAYER {
        Err(ElusivError::InvalidAccount)
    } else {
        match request {
            ProofRequest::Migrate(_) => Err(ElusivError::FeatureNotAvailable),
            ProofRequest::Send(public_inputs) => {
                if !public_inputs.spec_verify_additional_constraints() {
                    Err(ElusivError::InvalidPublicInputs)
                } else if !(public_inputs.current_time >> TIMESTAMP_BITS_PRUNING
                    <= current_timestamp >> TIMESTAMP_BITS_PRUNING) {
                    Err(ElusivError::InvalidInstructionData)
                } else {
                    match spec_check_join_split_public_inputs(
                        public_inputs.join_split,
                        storage_account,
                        nullifier_account0,
                        nullifier_account1,
                        tree_indices,
                    ) {
                        Err(e) => Err(e),
                        Ok(()) => match public_inputs.join_split.spec_nullifier_duplicate_pda(
                            program_id,
                        ) {
                            None => Err(ElusivError::InvalidAccount),
                            Some((key, _bump)) => {
                                if nullifier_duplicate_account.key != u256_from_bytes(key) {
                                    Err(ElusivError::InvalidAccount)
                                } else if skip_nullifier_pda
                                    && nullifier_duplicate_account.lamports == 0 {
                                    Err(ElusivError::InvalidInstructionData)
                                } else {
                                    Ok(())
                                }
                            },
                        },
                    }
                }
            },
        }
    }
}

/// Initializes a new proof verification: validates the statement against
/// the live tree state and hands back the stored verification account.
/// The duplicate-guard account (already opened, or checked as funded
/// where skipped) pins the statement's nullifier hashes for the
/// verification's lifetime; `prepare_inputs_instructions` is the
/// arithmetic-step schedule the proof subsystem precomputed for the
/// statement.
pub fn init_verification(
    fee_payer_key: U256,
    nullifier_duplicate_account: &AccountState,
    storage_account: &StorageAccount,
    nullifier_account0: &NullifierAccount,
    nullifier_account1: &NullifierAccount,
    vkey_account: &VKeyAccount,
    verification_account_index: u32,
    vkey_id: u32,
    tree_indices: [u32; 2],
    request: ProofRequest,
    skip_nullifier_pda: bool,
    current_timestamp: u64,
    prepare_inputs_instructions: &Vec<u16>,
    program_id: &U256,
) -> (r: Result<VerificationAccount, ElusivError>)
    requires
        prepare_inputs_instructions@.len() <= u32::MAX,
    ensures
        match spec_init_verification_check(
            *vkey_account,
            verification_account_index,
            vkey_id,
            tree_indices,
            request,
            skip_nullifier_pda,
            *nullifier_duplicate_account,
            *storage_account,
            *nullifier_account0,
            *nullifier_account1,
            current_timestamp,
            *program_id,
        ) {
            Err(e) => r == Result::<VerificationAccount, ElusivError>::Err(e),
            Ok(()) => r matches Ok(acc) && {
                &&& acc.state == VerificationState::Created
                &&& acc.vkey_id == vkey_id
                &&& acc.request == request
                &&& acc.tree_indices == tree_indices
                &&& acc.is_verified is None
                &&& acc.other_data == (VerificationAccountData {
                    skip_nullifier_pda,
                    ..VerificationAccountData::spec_empty(RawU256(fee_payer_key))
                })
                &&& acc.public_inputs@ == request.spec_join_split().spec_public_signals()
                &&& acc.prepare_inputs_instructions@ == prepare_inputs_instructions@
                &&& acc.prepare_inputs_instructions_count as int
                    == prepare_inputs_instructions@.len()
            },
        },
{
    if !vkey_account.get_is_frozen() {
        return Err(ElusivError::InvalidAccount);
    }
    if vkey_id != request.vkey_id() {
        return Err(ElusivError::InvalidAccount);
    }
    if verification_account_index >= RESERVED_VACCS_PER_FEE_PAYER {
        return Err(ElusivError::InvalidAccount);
    }
    let public_inputs: &SendPublicInputs = match &request {
        ProofRequest::Send(public_inputs) => public_inputs,
        ProofRequest::Migrate(_) => {
            return Err(ElusivError::FeatureNotAvailable);
        },
    };
    if !public_inputs.verify_additional_constraints() {
        return Err(ElusivError::InvalidPublicInputs);
    }
    if !is_timestamp_valid(public_inputs.current_time, current_timestamp) {
        return Err(ElusivError::InvalidInstructionData);
    }
    match check_join_split_public_inputs(
        &public_inputs.join_split,
        storage_account,
        nullifier_account0,
        nullifier_account1,
        &tree_indices,
    ) {
        Ok(()) => {},
        Err(e) => {
            return Err(e);
        },
    }
    let (derived_key, _bump): (U256, u8) = match public_inputs.join_split.nullifier_duplicate_pda(
        program_id,
    ) {
        Ok(p) => p,
        Err(e) => {
            return Err(e);
        },
    };
    if !u256_eq(&nullifier_duplicate_account.key, &derived_key) {
        return Err(ElusivError::InvalidAccount);
    }
    if skip_nullifier_pda && nullifier_duplicate_account.lamports == 0 {
        return Err(ElusivError::InvalidInstructionData);
    }
    let raw_public_inputs: Vec<RawU256> = public_inputs.join_split.public_signals();
    Ok(
        VerificationAccount::setup(
            RawU256::new(fee_payer_key),
            skip_nullifier_pda,
            &raw_public_inputs,
            prepare_inputs_instructions,
            vkey_id,
            request,
            tree_indices,
        ),
    )
}

/// What submitting the proof points decides: the fee must be paid, no
/// verdict recorded yet, and the caller must be the original fee payer.
pub open spec fn spec_init_verification_proof_check(
    acc: VerificationAccount,
    fee_payer: AccountState,
) -> Result<(), ElusivError> {
    if acc.state != VerificationState::FeeTransferred {
        Err(ElusivError::InvalidAccountState)
    } else if acc.is_verified is Some {
        Err(ElusivError::ComputationIsAlreadyFinished)
    } else if acc.other_data.fee_payer.view_raw() != fee_payer.key {
        Err(ElusivError::InvalidAccount)
    } else {
        Ok(())
    }
}

/// Stores the three proof points, exactly once: a second call finds the
/// state advanced and fails.
pub fn init_verification_proof(
    fee_payer: &AccountState,
    verification_account: &mut VerificationAccount,
    proof: Proof,
) -> (r: Result<(), ElusivError>)
    ensures
        match spec_init_verification_proof_check(*old(verification_account), *fee_payer) {
            Err(e) => r == Result::<(), ElusivError>::Err(e) && *final(verification_account)
                == *old(verification_account),
            Ok(()) => r == Result::<(), ElusivError>::Ok(()) && *final(verification_account)
                == (VerificationAccount {
                state: VerificationState::ProofSetup,
                proof,
                ..*old(verification_account)
            }),
        },
{
    if !matches!(verification_account.get_state(), VerificationState::FeeTransferred) {
        return Err(ElusivError::InvalidAccountState);
    }
    if matches!(verification_account.get_is_verified(), Option::Some(_)) {
        return Err(ElusivError::ComputationIsAlreadyFinished);
    }
    let data: VerificationAccountData = verification_account.get_other_data();
    let payer: U256 = data.fee_payer.skip_mr();
    if !u256_eq(&payer, &fee_payer.key) {
        return Err(ElusivError::InvalidAccount);
    }
    verification_account.set_proof(&proof);
    verification_account.set_state(&VerificationState::ProofSetup);
    Ok(())
}

/// What one compute step decides: with a frozen key of the right id, no
/// verdict yet and the account in an input-preparation or pairing phase,
/// the stepper's outcome either records nothing (an intermediate step),
/// records the final verdict, or - for any stepper error other than a
/// state mismatch - records a `false` verdict, since malformed proof data
/// is an expected adversarial input rather than a program fault. The
/// result is the verdict to record.
pub open spec fn spec_compute_verification_check(
    acc: VerificationAccount,
    vkey_account: VKeyAccount,
    vkey_id: u32,
    step_result: Result<Option<bool>, ElusivError>,
) -> Result<Option<bool>, ElusivError> {
    if !vkey_account.is_frozen {
        Err(ElusivError::InvalidAccount)
    } else if acc.vkey_id != vkey_id {
        Err(ElusivError::InvalidAccount)
    } else if acc.is_verified is Some {
        Err(ElusivError::ComputationIsAlreadyFinished)
    } else if acc.state != VerificationState::Created && acc.state != VerificationState::ProofSetup {
        Err(ElusivError::InvalidAccountState)
    } else {
        match step_result {
            Ok(v) => Ok(v),
            Err(ElusivError::InvalidAccountState) => Err(ElusivError::InvalidAccountState),
            Err(_) => Ok(Some(false)),
        }
    }
}

/// One step of the partial verification. The pairing arithmetic itself is
/// an outside collaborator: the caller runs the stepper over the stored
/// state (keyed by the instruction's position in its transaction) and
/// hands its outcome in; this handler performs the guards and records the
/// verdict write-once.
pub fn compute_verification(
    verification_account: &mut VerificationAccount,
    vkey_account: &VKeyAccount,
    vkey_id: u32,
    step_result: Result<Option<bool>, ElusivError>,
) -> (r: Result<(), ElusivError>)
    ensures
        match spec_compute_verification_check(
            *old(verification_account),
            *vkey_account,
            vkey_id,
            step_result,
        ) {
            Err(e) => r == Result::<(), ElusivError>::Err(e) && *final(verification_account)
                == *old(verification_account),
            Ok(v) => r == Result::<(), ElusivError>::Ok(()) && *final(verification_account)
                == (VerificationAccount { is_verified: v, ..*old(verification_account) }),
        },
{
    if !vkey_account.get_is_frozen() {
        return Err(ElusivError::InvalidAccount);
    }
    if verification_account.get_vkey_id() != vkey_id {
        return Err(ElusivError::InvalidAccount);
    }
    if matches!(verification_account.get_is_verified(), Option::Some(_)) {
        return Err(ElusivError::ComputationIsAlreadyFinished);
    }
    let state: VerificationState = verification_account.get_state();
    if !(matches!(state, VerificationState::Created) || matches!(
        state,
        VerificationState::ProofSetup,
    )) {
        return Err(ElusivError::InvalidAccountState);
    }
    match step_result {
        Ok(result) => {
            match result {
                Some(final_result) => {
                    verification_account.set_is_verified(&Some(final_result));
                },
                None => {
                    proof {
                        assert(*verification_account == (VerificationAccount {
                            is_verified: Option::<bool>::None,
                            ..*old(verification_account)
                        }));
                    }
                },
            }
            Ok(())
        },
        Err(e) => {
            if matches!(e, ElusivError::InvalidAccountState) {
                Err(ElusivError::InvalidAccountState)
            } else {
                verification_account.set_is_verified(&Some(false));
                Ok(())
            }
        },
    }
}


/// What the fee transfer decides, in guard order: right state and payer,
/// matching fee version, a declared fee covering the computed minimum
/// (`commitment hash fee + proof verification fee + network fee -
/// subvention`, overpayment allowed), valid program token accounts, the
/// associated-token-account rent reserved where one must be created, the
/// right transfer programs, sufficient balances without overflow, and a
/// fee-payer token account of the statement's asset.
pub open spec fn spec_init_verification_transfer_fee_check(
    acc: VerificationAccount,
    fee_payer: AccountState,
    fee_payer_token_account: TokenAccount,
    pool: AccountState,
    pool_account: TokenAccount,
    fee_collector: AccountState,
    fee_collector_account: TokenAccount,
    governor: GovernorAccount,
    token_program: U256,
    system_program: U256,
    registry: TokenRegistry,
    priced: FeeCalculation,
) -> Result<(), ElusivError> {
    let js = acc.request.spec_join_split();
    let token_id = js.token_id;
    let min_fee = priced.commitment_hash_fee_token + priced.proof_verification_fee
        + priced.network_fee - priced.subvention;
    let ata = match acc.request {
        ProofRequest::Send(public_inputs) => public_inputs.recipient_is_associated_token_account,
        ProofRequest::Migrate(_) => false,
    };
    let rent = if ata {
        priced.associated_token_account_rent as int
    } else {
        0int
    };
    if acc.state != VerificationState::Created {
        Err(ElusivError::InvalidAccountState)
    } else if acc.other_data.fee_payer.view_raw() != fee_payer.key {
        Err(ElusivError::InvalidAccount)
    } else if js.fee_version != governor.fee_version {
        Err(ElusivError::InvalidFeeVersion)
    } else if priced.commitment_hash_fee_token + priced.proof_verification_fee > u64::MAX {
        Err(ElusivError::MathError)
    } else if priced.commitment_hash_fee_token + priced.proof_verification_fee
        + priced.network_fee > u64::MAX {
        Err(ElusivError::MathError)
    } else if min_fee < 0 {
        Err(ElusivError::MathError)
    } else if js.fee < min_fee {
        Err(ElusivError::InvalidPublicInputs)
    } else if !spec_program_token_account_valid(pool.key, pool_account.key, token_id, registry) {
        Err(ElusivError::InvalidAccount)
    } else if !spec_program_token_account_valid(
        fee_collector.key,
        fee_collector_account.key,
        token_id,
        registry,
    ) {
        Err(ElusivError::InvalidAccount)
    } else if ata && token_id == 0 {
        Err(ElusivError::InvalidPublicInputs)
    } else if ata && js.amount < priced.associated_token_account_rent_token {
        Err(ElusivError::InvalidPublicInputs)
    } else if system_program != spec_system_program_id() {
        Err(ElusivError::InvalidAccount)
    } else if priced.commitment_hash_fee + rent > u64::MAX {
        Err(ElusivError::MathError)
    } else if fee_payer.lamports < priced.commitment_hash_fee + rent {
        Err(ElusivError::MathError)
    } else if pool.lamports + priced.commitment_hash_fee + rent > u64::MAX {
        Err(ElusivError::MathError)
    } else if token_id > 0 && token_program != spec_token_program_id() {
        Err(ElusivError::InvalidAccount)
    } else if fee_collector_account.amount < priced.subvention {
        Err(ElusivError::MathError)
    } else if pool_account.amount + priced.subvention > u64::MAX {
        Err(ElusivError::MathError)
    } else if !spec_token_account_valid(fee_payer_token_account, token_id, registry) {
        Err(ElusivError::InvalidAccount)
    } else {
        Ok(())
    }
}

/// The side-record the fee transfer stores: the payer, the full fee
/// breakdown and the batching rate, with no recipient set yet.
pub open spec fn spec_transfer_fee_data(
    acc: VerificationAccount,
    fee_payer: AccountState,
    fee_payer_token_account: TokenAccount,
    governor: GovernorAccount,
    priced: FeeCalculation,
) -> VerificationAccountData {
    let ata = match acc.request {
        ProofRequest::Send(public_inputs) => public_inputs.recipient_is_associated_token_account,
        ProofRequest::Migrate(_) => false,
    };
    VerificationAccountData {
        fee_payer: RawU256(fee_payer.key),
        fee_payer_account: RawU256(fee_payer_token_account.key),
        recipient_wallet: None,
        skip_nullifier_pda: acc.other_data.skip_nullifier_pda,
        min_batching_rate: governor.commitment_batching_rate,
        token_id: acc.request.spec_join_split().token_id,
        subvention: priced.subvention,
        network_fee: priced.network_fee,
        commitment_hash_fee: priced.commitment_hash_fee,
        commitment_hash_fee_token: priced.commitment_hash_fee_token,
        proof_verification_fee: priced.proof_verification_fee,
        associated_token_account_rent: if ata {
            priced.associated_token_account_rent_token
        } else {
            0u64
        },
    }
}

/// Pays the verification's fees: the fee payer escrows the commitment
/// hash fee (plus the associated-token-account rent where one must be
/// created) into the pool in lamports, the fee collector escrows the
/// subvention into the pool in the statement's token, and the account
/// records the full breakdown and advances to `FeeTransferred`. Rejects
/// a declared fee below the computed minimum; every failure leaves all
/// balances and the account untouched.
pub fn init_verification_transfer_fee(
    fee_payer: &mut AccountState,
    fee_payer_token_account: &TokenAccount,
    pool: &mut AccountState,
    pool_account: &mut TokenAccount,
    fee_collector: &AccountState,
    fee_collector_account: &mut TokenAccount,
    governor: &GovernorAccount,
    verification_account: &mut VerificationAccount,
    token_program: &U256,
    system_program: &U256,
    registry: &TokenRegistry,
    priced: &FeeCalculation,
) -> (r: Result<(), ElusivError>)
    ensures
        match spec_init_verification_transfer_fee_check(
            *old(verification_account),
            *old(fee_payer),
            *fee_payer_token_account,
            *old(pool),
            *old(pool_account),
            *fee_collector,
            *old(fee_collector_account),
            *governor,
            *token_program,
            *system_program,
            *registry,
            *priced,
        ) {
            Err(e) => {
                &&& r == Result::<(), ElusivError>::Err(e)
                &&& *final(fee_payer) == *old(fee_payer)
                &&& *final(pool) == *old(pool)
                &&& *final(pool_account) == *old(pool_account)
                &&& *final(fee_collector_account) == *old(fee_collector_account)
                &&& *final(verification_account) == *old(verification_account)
            },
            Ok(()) => {
                let ata = match old(verification_account).request {
                    ProofRequest::Send(public_inputs) => public_inputs.recipient_is_associated_token_account,
                    ProofRequest::Migrate(_) => false,
                };
                let rent = if ata {
                    priced.associated_token_account_rent as int
                } else {
                    0int
                };
                &&& r == Result::<(), ElusivError>::Ok(())
                &&& final(fee_payer).key == old(fee_payer).key
                &&& final(fee_payer).lamports == old(fee_payer).lamports
                    - priced.commitment_hash_fee - rent
                &&& final(pool).key == old(pool).key
                &&& final(pool).lamports == old(pool).lamports + priced.commitment_hash_fee + rent
                &&& *final(fee_collector_account) == (TokenAccount {
                    amount: (old(fee_collector_account).amount - priced.subvention) as u64,
                    ..*old(fee_collector_account)
                })
                &&& *final(pool_account) == (TokenAccount {
                    amount: (old(pool_account).amount + priced.subvention) as u64,
                    ..*old(pool_account)
                })
                &&& *final(verification_account) == (VerificationAccount {
                    state: VerificationState::FeeTransferred,
                    other_data: spec_transfer_fee_data(
                        *old(verification_account),
                        *old(fee_payer),
                        *fee_payer_token_account,
                        *governor,
                        *priced,
                    ),
                    ..*old(verification_account)
                })
            },
        },
{
    if !matches!(verification_account.get_state(), VerificationState::Created) {
        return Err(ElusivError::InvalidAccountState);
    }
    let other_data: VerificationAccountData = verification_account.get_other_data();
    let stored_payer: U256 = other_data.fee_payer.skip_mr();
    if !u256_eq(&stored_payer, &fee_payer.key) {
        return Err(ElusivError::InvalidAccount);
    }
    if verification_account.get_request().fee_version() != governor.get_fee_version() {
        return Err(ElusivError::InvalidFeeVersion);
    }
    let token_id: u16 = verification_account.get_request().join_split_inputs().token_id;
    let amount: u64 = verification_account.get_request().join_split_inputs().amount;
    let declared_fee: u64 = verification_account.get_request().join_split_inputs().fee;
    // The computed minimum fee, over checked token arithmetic.
    let commitment_hash_fee_token: Token = Token::new(token_id, priced.commitment_hash_fee_token);
    let proof_verification_fee: Token = Token::new(token_id, priced.proof_verification_fee);
    let network_fee: Token = Token::new(token_id, priced.network_fee);
    let subvention: Token = Token::new(token_id, priced.subvention);
    let s1: Token = match commitment_hash_fee_token.checked_add(&proof_verification_fee) {
        Ok(v) => v,
        Err(e) => {
            return Err(e);
        },
    };
    let s2: Token = match s1.checked_add(&network_fee) {
        Ok(v) => v,
        Err(e) => {
            return Err(e);
        },
    };
    let min_fee: Token = match s2.checked_sub(&subvention) {
        Ok(v) => v,
        Err(e) => {
            return Err(e);
        },
    };
    if declared_fee < min_fee.amount() {
        return Err(ElusivError::InvalidPublicInputs);
    }
    match verify_program_token_account(&pool.key, &pool_account.key, token_id, registry) {
        Ok(()) => {},
        Err(e) => {
            return Err(e);
        },
    }
    match verify_program_token_account(
        &fee_collector.key,
        &fee_collector_account.key,
        token_id,
        registry,
    ) {
        Ok(()) => {},
        Err(e) => {
            return Err(e);
        },
    }
    let ata: bool = match verification_account.get_request() {
        ProofRequest::Send(public_inputs) => public_inputs.recipient_is_associated_token_account,
        ProofRequest::Migrate(_) => false,
    };
    if ata && token_id == 0 {
        return Err(ElusivError::InvalidPublicInputs);
    }
    if ata && amount < priced.associated_token_account_rent_token {
        return Err(ElusivError::InvalidPublicInputs);
    }
    let rent: u64 = if ata {
        priced.associated_token_account_rent
    } else {
        0
    };
    let sys: U256 = system_program_id();
    if !u256_eq(system_program, &sys) {
        return Err(ElusivError::InvalidAccount);
    }
    let escrow: u64 = match lamports_add(priced.commitment_hash_fee, rent) {
        Ok(v) => v,
        Err(e) => {
            return Err(e);
        },
    };
    if fee_payer.lamports < escrow {
        return Err(ElusivError::MathError);
    }
    let pool_after: u64 = match lamports_add(pool.lamports, escrow) {
        Ok(v) => v,
        Err(e) => {
            return Err(e);
        },
    };
    if token_id > 0 {
        let tok: U256 = token_program_id();
        if !u256_eq(token_program, &tok) {
            return Err(ElusivError::InvalidAccount);
        }
    }
    if fee_collector_account.amount < priced.subvention {
        return Err(ElusivError::MathError);
    }
    let pool_token_after: u64 = match lamports_add(pool_account.amount, priced.subvention) {
        Ok(v) => v,
        Err(e) => {
            return Err(e);
        },
    };
    if !verify_token_account(fee_payer_token_account, token_id, registry) {
        return Err(ElusivError::InvalidAccount);
    }
    // All checks passed: apply the escrow movements and the record.
    fee_payer.lamports = fee_payer.lamports - escrow;
    pool.lamports = pool_after;
    fee_collector_account.amount = fee_collector_account.amount - priced.subvention;
    pool_account.amount = pool_token_after;
    verification_account.set_other_data(
        &VerificationAccountData {
            fee_payer: RawU256::new(fee_payer.key),
            fee_payer_account: RawU256::new(fee_payer_token_account.key),
            recipient_wallet: None,
            skip_nullifier_pda: other_data.skip_nullifier_pda,
            min_batching_rate: governor.get_commitment_batching_rate(),
            token_id,
            subvention: priced.subvention,
            network_fee: priced.network_fee,
            commitment_hash_fee: priced.commitment_hash_fee,
            commitment_hash_fee_token: priced.commitment_hash_fee_token,
            proof_verification_fee: priced.proof_verification_fee,
            associated_token_account_rent: if ata {
                priced.associated_token_account_rent_token
            } else {
                0
            },
        },
    );
    verification_account.set_state(&VerificationState::FeeTransferred);
    Ok(())
}


/// What the first finalize step decides, in guard order: the proof must
/// be set up and the statement a send; where a memo is used it must sit
/// at its fixed position; the binding hash recomputed from the supplied
/// recipient, identifier, iv, encrypted owner, transaction reference and
/// memo must equal the statement's declared one; a verdict must be
/// recorded; and for an accepted proof the sibling instructions and the
/// asserted placement data must match. `Ok(false)` means the rejected
/// branch (no sibling or placement checks), `Ok(true)` the accepted one.
pub open spec fn spec_finalize_verification_send_check(
    acc: VerificationAccount,
    recipient_key: U256,
    identifier_key: U256,
    transaction_reference_key: U256,
    instructions_account_key: U256,
    queue: CommitmentQueue,
    storage: StorageAccount,
    list: Seq<Instruction>,
    current_ix_index: int,
    data: FinalizeSendData,
    uses_memo: bool,
    program_id: U256,
) -> Result<bool, ElusivError> {
    if acc.state != VerificationState::ProofSetup {
        Err(ElusivError::InvalidAccountState)
    } else {
        match acc.request {
            ProofRequest::Migrate(_) => Err(ElusivError::FeatureNotAvailable),
            ProofRequest::Send(public_inputs) => {
                let memo_result = if uses_memo {
                    match spec_get_memo_from_instructions(list, public_inputs.solana_pay_transfer) {
                        Ok(m) => Ok(Some(m)),
                        Err(e) => Err(e),
                    }
                } else {
                    Ok(None)
                };
                match memo_result {
                    Err(e) => Err(e),
                    Ok(memo) => {
                        let reference = if transaction_reference_key != instructions_account_key {
                            transaction_reference_key
                        } else {
                            [0u64, 0u64, 0u64, 0u64]
                        };
                        let hash = spec_hashed_inputs(
                            recipient_key,
                            identifier_key,
                            data.iv,
                            data.encrypted_owner,
                            reference,
                            public_inputs.recipient_is_associated_token_account,
                            memo,
                        );
                        if hash != public_inputs.hashed_inputs {
                            Err(ElusivError::InputsMismatch)
                        } else {
                            match acc.is_verified {
                                None => Err(ElusivError::ComputationIsNotYetFinished),
                                Some(false) => Ok(false),
                                Some(true) => {
                                    let js = public_inputs.join_split;
                                    match spec_enforce_instruction_siblings(
                                        list,
                                        current_ix_index,
                                        0,
                                        spec_finalize_ix_tags(
                                            js.input_commitments@.len() as int,
                                            js.token_id == 0,
                                        ),
                                        program_id,
                                    ) {
                                        Err(e) => Err(e),
                                        Ok(()) => {
                                            let pending = storage.next_commitment_ptr
                                                + queue.contents().len();
                                            let commitment_index = pending % (
                                            MT_COMMITMENT_COUNT as int);
                                            let mt_index = storage.trees_count + pending / (
                                            MT_COMMITMENT_COUNT as int);
                                            if data.timestamp != public_inputs.current_time {
                                                Err(ElusivError::InputsMismatch)
                                            } else if data.total_amount != js.amount + js.fee {
                                                Err(ElusivError::InputsMismatch)
                                            } else if data.token_id != js.token_id {
                                                Err(ElusivError::InputsMismatch)
                                            } else if data.commitment_index > commitment_index {
                                                Err(ElusivError::InputsMismatch)
                                            } else if data.mt_index != mt_index {
                                                Err(ElusivError::InputsMismatch)
                                            } else {
                                                Ok(true)
                                            }
                                        },
                                    }
                                },
                            }
                        }
                    },
                }
            },
        }
    }
}

/// The first finalize step: recomputes the binding hash over the
/// accounts actually supplied (preventing recipient or memo tampering
/// after proof construction), records the recipient wallet, and - for an
/// accepted proof - pins the sibling-instruction run and the asserted
/// placement of the output commitment before advancing to
/// `InsertNullifiers`. A rejected proof jumps straight to `Finalized`.
pub fn finalize_verification_send(
    recipient_key: U256,
    identifier_key: U256,
    transaction_reference_key: U256,
    instructions_account_key: U256,
    commitment_hash_queue: &CommitmentQueue,
    verification_account: &mut VerificationAccount,
    storage_account: &StorageAccount,
    instruction_list: &Vec<Instruction>,
    current_ix_index: usize,
    data: FinalizeSendData,
    uses_memo: bool,
    program_id: &U256,
) -> (r: Result<(), ElusivError>)
    requires
        storage_account.wf(),
        commitment_hash_queue.wf(),
        commitment_hash_queue.size() <= MT_COMMITMENT_COUNT,
        storage_account.trees_count + 2 <= u32::MAX,
        old(verification_account).request.spec_join_split().input_commitments@.len() + 2
            <= usize::MAX,
    ensures
        match spec_finalize_verification_send_check(
            *old(verification_account),
            recipient_key,
            identifier_key,
            transaction_reference_key,
            instructions_account_key,
            *commitment_hash_queue,
            *storage_account,
            instruction_list@,
            current_ix_index as int,
            data,
            uses_memo,
            *program_id,
        ) {
            Err(e) => r == Result::<(), ElusivError>::Err(e) && *final(verification_account)
                == *old(verification_account),
            Ok(accepted) => r == Result::<(), ElusivError>::Ok(()) && *final(verification_account)
                == (VerificationAccount {
                state: if accepted {
                    VerificationState::InsertNullifiers
                } else {
                    VerificationState::Finalized
                },
                other_data: VerificationAccountData {
                    recipient_wallet: Some(RawU256(recipient_key)),
                    ..old(verification_account).other_data
                },
                ..*old(verification_account)
            }),
        },
{
    if !matches!(verification_account.get_state(), VerificationState::ProofSetup) {
        return Err(ElusivError::InvalidAccountState);
    }
    let is_send: bool = matches!(verification_account.get_request(), ProofRequest::Send(_));
    if !is_send {
        return Err(ElusivError::FeatureNotAvailable);
    }
    let (solana_pay, ata_flag, declared_hash, current_time, amount, fee, token_id, n): (
        bool,
        bool,
        U256,
        u64,
        u64,
        u64,
        u16,
        usize,
    ) = match verification_account.get_request() {
        ProofRequest::Send(public_inputs) => (
            public_inputs.solana_pay_transfer,
            public_inputs.recipient_is_associated_token_account,
            public_inputs.hashed_inputs,
            public_inputs.current_time,
            public_inputs.join_split.amount,
            public_inputs.join_split.fee,
            public_inputs.join_split.token_id,
            public_inputs.join_split.input_commitments.len(),
        ),
        ProofRequest::Migrate(_) => {
            return Err(ElusivError::FeatureNotAvailable);
        },
    };
    let memo: Option<Vec<u8>> = if uses_memo {
        match get_memo_from_instructions(instruction_list, solana_pay) {
            Ok(m) => Some(m),
            Err(e) => {
                return Err(e);
            },
        }
    } else {
        None
    };
    let reference: U256 = if !u256_eq(&transaction_reference_key, &instructions_account_key) {
        transaction_reference_key
    } else {
        [0, 0, 0, 0]
    };
    let hash: U256 = crate::types::generate_hashed_inputs(
        recipient_key,
        identifier_key,
        data.iv,
        data.encrypted_owner,
        reference,
        ata_flag,
        &memo,
    );
    if !u256_eq(&hash, &declared_hash) {
        return Err(ElusivError::InputsMismatch);
    }
    let verdict: bool = match verification_account.get_is_verified() {
        None => {
            return Err(ElusivError::ComputationIsNotYetFinished);
        },
        Some(v) => v,
    };
    if !verdict {
        let old_data: VerificationAccountData = verification_account.get_other_data();
        verification_account.set_other_data(
            &VerificationAccountData {
                recipient_wallet: Some(RawU256::new(recipient_key)),
                ..old_data
            },
        );
        verification_account.set_state(&VerificationState::Finalized);
        return Ok(());
    }
    match enforce_finalize_send_instructions(
        instruction_list,
        current_ix_index,
        0,
        n,
        token_id == 0,
        program_id,
    ) {
        Ok(()) => {},
        Err(e) => {
            return Err(e);
        },
    }
    let queue_len: u64 = commitment_hash_queue.len();
    let (commitment_index, mt_index): (u32, u32) = minimum_commitment_mt_index(
        storage_account.get_trees_count(),
        storage_account.get_next_commitment_ptr(),
        queue_len as u32,
    );
    if data.timestamp != current_time {
        return Err(ElusivError::InputsMismatch);
    }
    let total: u128 = amount as u128 + fee as u128;
    if data.total_amount as u128 != total {
        return Err(ElusivError::InputsMismatch);
    }
    if data.token_id != token_id {
        return Err(ElusivError::InputsMismatch);
    }
    if data.commitment_index > commitment_index {
        return Err(ElusivError::InputsMismatch);
    }
    if data.mt_index != mt_index {
        return Err(ElusivError::InputsMismatch);
    }
    let old_data: VerificationAccountData = verification_account.get_other_data();
    verification_account.set_other_data(
        &VerificationAccountData { recipient_wallet: Some(RawU256::new(recipient_key)), ..old_data },
    );
    verification_account.set_state(&VerificationState::InsertNullifiers);
    Ok(())
}

/// What one nullifier-insertion step decides: the account must be in the
/// insertion phase with a send statement, the sibling run must match at
/// the step's offset, only the first tree may be spent from (further
/// trees are not available yet), and the step's nullifier hash must be
/// insertable. The result says whether this was the last input.
pub open spec fn spec_finalize_send_nullifier_check(
    acc: VerificationAccount,
    nullifier_account: NullifierAccount,
    list: Seq<Instruction>,
    current_ix_index: int,
    input_commitment_index: int,
    program_id: U256,
) -> Result<bool, ElusivError> {
    if acc.state != VerificationState::InsertNullifiers {
        Err(ElusivError::InvalidAccountState)
    } else {
        match acc.request {
            ProofRequest::Migrate(_) => Err(ElusivError::FeatureNotAvailable),
            ProofRequest::Send(public_inputs) => {
                let inputs = public_inputs.join_split.input_commitments@;
                match spec_enforce_instruction_siblings(
                    list,
                    current_ix_index,
                    input_commitment_index + 1,
                    spec_finalize_ix_tags(
                        inputs.len() as int,
                        public_inputs.join_split.token_id == 0,
                    ),
                    program_id,
                ) {
                    Err(e) => Err(e),
                    Ok(()) => {
                        if exists|i: int|
                            0 <= i <= input_commitment_index && i < inputs.len()
                                && spec_tree_slot(inputs, i) != 0 {
                            Err(ElusivError::FeatureNotAvailable)
                        } else if input_commitment_index < inputs.len() && {
                            let reduced = spec_reduced(
                                inputs[input_commitment_index].nullifier_hash.view_raw(),
                            );
                            nullifier_account.contents().contains(reduced)
                                || nullifier_account.contents().len() == nullifier_account.capacity
                        } {
                            Err(ElusivError::CouldNotInsertNullifier)
                        } else {
                            Ok(input_commitment_index == inputs.len() - 1)
                        }
                    },
                }
            },
        }
    }
}

/// One nullifier-insertion step: pins its position in the sibling run,
/// records the step's nullifier hash (in reduced form) permanently in
/// the tree's set - a duplicate fails the whole step - and, on the last
/// input commitment, advances to `Finalized`.
pub fn finalize_verification_send_nullifier(
    verification_account: &mut VerificationAccount,
    nullifier_account: &mut NullifierAccount,
    instruction_list: &Vec<Instruction>,
    current_ix_index: usize,
    input_commitment_index: u8,
    program_id: &U256,
) -> (r: Result<(), ElusivError>)
    requires
        old(nullifier_account).wf(),
        old(verification_account).request.spec_join_split().input_commitments@.len() + 2
            <= usize::MAX,
    ensures
        final(nullifier_account).wf(),
        match spec_finalize_send_nullifier_check(
            *old(verification_account),
            *old(nullifier_account),
            instruction_list@,
            current_ix_index as int,
            input_commitment_index as int,
            *program_id,
        ) {
            Err(e) => {
                &&& r == Result::<(), ElusivError>::Err(e)
                &&& *final(verification_account) == *old(verification_account)
                &&& *final(nullifier_account) == *old(nullifier_account)
            },
            Ok(last) => {
                let inputs = old(verification_account).request.spec_join_split().input_commitments@;
                &&& r == Result::<(), ElusivError>::Ok(())
                &&& *final(verification_account) == (VerificationAccount {
                    state: if last {
                        VerificationState::Finalized
                    } else {
                        old(verification_account).state
                    },
                    ..*old(verification_account)
                })
                &&& (input_commitment_index < inputs.len() ==> final(nullifier_account).contents()
                    =~= old(nullifier_account).contents().push(
                    spec_reduced(inputs[input_commitment_index as int].nullifier_hash.view_raw()),
                ))
                &&& (input_commitment_index >= inputs.len() ==> *final(nullifier_account)
                    == *old(nullifier_account))
                &&& final(nullifier_account).root == old(nullifier_account).root
                &&& final(nullifier_account).capacity == old(nullifier_account).capacity
            },
        },
{
    if !matches!(verification_account.get_state(), VerificationState::InsertNullifiers) {
        return Err(ElusivError::InvalidAccountState);
    }
    let is_send: bool = matches!(verification_account.get_request(), ProofRequest::Send(_));
    if !is_send {
        return Err(ElusivError::FeatureNotAvailable);
    }
    let ghost inputs = verification_account.request.spec_join_split().input_commitments@;
    let n: usize = verification_account.get_request().join_split_inputs().input_commitments.len();
    let uses_lamports: bool = verification_account.get_request().join_split_inputs().token_id == 0;
    let target: usize = input_commitment_index as usize;
    let sibling_check: Result<(), ElusivError> = enforce_finalize_send_instructions(
        instruction_list,
        current_ix_index,
        target + 1,
        n,
        uses_lamports,
        program_id,
    );
    proof {
        assert(sibling_check == spec_enforce_instruction_siblings(
            instruction_list@,
            current_ix_index as int,
            (target + 1) as int,
            spec_finalize_ix_tags(n as int, uses_lamports),
            *program_id,
        ));
    }
    match sibling_check {
        Ok(()) => {},
        Err(e) => {
            return Err(e);
        },
    }
    // Walk the inputs up to the target, rejecting any spend outside the
    // first tree.
    let end: usize = if target < n {
        target + 1
    } else {
        n
    };
    let mut i: usize = 0;
    let mut roots_seen: usize = 0;
    proof {
        assert(spec_roots_before(inputs, 0) == 0);
        assert(spec_enforce_instruction_siblings(
            instruction_list@,
            current_ix_index as int,
            input_commitment_index + 1,
            spec_finalize_ix_tags(
                inputs.len() as int,
                old(verification_account).request.spec_join_split().token_id == 0,
            ),
            *program_id,
        ) is Ok);
    }
    while i < end
        invariant
            n == inputs.len(),
            inputs == verification_account.request.spec_join_split().input_commitments@,
            end <= n,
            end == if (input_commitment_index as int) < n as int {
                input_commitment_index + 1
            } else {
                n as int
            },
            i <= end,
            roots_seen == spec_roots_before(inputs, i as int),
            forall|x: int| 0 <= x < i ==> spec_tree_slot(inputs, x) == 0,
            *verification_account == *old(verification_account),
            *nullifier_account == *old(nullifier_account),
            old(nullifier_account).wf(),
            old(verification_account).state == VerificationState::InsertNullifiers,
            old(verification_account).request is Send,
            spec_enforce_instruction_siblings(
                instruction_list@,
                current_ix_index as int,
                input_commitment_index + 1,
                spec_finalize_ix_tags(
                    inputs.len() as int,
                    old(verification_account).request.spec_join_split().token_id == 0,
                ),
                *program_id,
            ) is Ok,
        decreases end - i,
    {
        let input_root_some: bool = match verification_account.get_request().join_split_inputs()
            .input_commitments[i].root {
            Some(_) => true,
            None => false,
        };
        let slot: usize = if input_root_some {
            roots_seen
        } else {
            0
        };
        if slot != 0 {
            proof {
                assert(spec_tree_slot(inputs, i as int) != 0);
            }
            return Err(ElusivError::FeatureNotAvailable);
        }
        if input_root_some {
            roots_seen = roots_seen + 1;
        }
        i = i + 1;
    }
    proof {
        assert(!(exists|x: int|
            0 <= x <= input_commitment_index && x < inputs.len() && spec_tree_slot(inputs, x)
                != 0));
    }
    if target < n {
        let reduced: U256 = verification_account.get_request().join_split_inputs()
            .input_commitments[target].nullifier_hash.reduce();
        match nullifier_account.try_insert_nullifier_hash(reduced) {
            Ok(()) => {},
            Err(e) => {
                return Err(e);
            },
        }
    }
    if n > 0 && target == n - 1 {
        verification_account.set_state(&VerificationState::Finalized);
    }
    Ok(())
}


/// Whether `actual` is the native transfer `from -> to` over `lamports`,
/// with `from` signing: what the relay mode's last instruction must be.
pub open spec fn spec_matches_system_transfer(
    actual: Instruction,
    from: U256,
    to: U256,
    lamports: u64,
) -> bool {
    &&& actual.program_id == spec_system_program_id()
    &&& actual.data@ == crate::instructions::spec_system_transfer_data(lamports)
    &&& actual.accounts@.len() >= 2
    &&& actual.accounts@[0].pubkey == from
    &&& actual.accounts@[0].is_signer
    &&& actual.accounts@[0].is_writable
    &&& actual.accounts@[1].pubkey == to
    &&& actual.accounts@[1].is_writable
}

/// What the native-asset terminal transfer decides, in guard order. On a
/// rejected proof it only needs headroom to route the rent, the escrowed
/// subvention and the hash fee to the fee collector; on an accepted one
/// it needs the sibling run, the recorded recipient, pool balance for
/// payout and reimbursements, headroom on every receiver, and room in the
/// commitment queue.
pub open spec fn spec_finalize_transfer_lamports_check(
    acc: VerificationAccount,
    fee_payer: AccountState,
    recipient: AccountState,
    pool: AccountState,
    fee_collector: AccountState,
    queue: CommitmentQueue,
    verification_account_lamports: u64,
    nullifier_duplicate_account: AccountState,
    list: Seq<Instruction>,
    current_ix_index: int,
    program_id: U256,
) -> Result<(), ElusivError> {
    let js = acc.request.spec_join_split();
    let data = acc.other_data;
    let nd_lamports = if data.skip_nullifier_pda {
        0int
    } else {
        nullifier_duplicate_account.lamports as int
    };
    if js.token_id != 0 {
        Err(ElusivError::InvalidAccountState)
    } else if acc.state != VerificationState::Finalized {
        Err(ElusivError::InvalidAccountState)
    } else if data.fee_payer.view_raw() != fee_payer.key {
        Err(ElusivError::InvalidAccount)
    } else {
        match js.spec_nullifier_duplicate_pda(program_id) {
            None => Err(ElusivError::InvalidAccount),
            Some((key, _bump)) => {
                if nullifier_duplicate_account.key != u256_from_bytes(key) {
                    Err(ElusivError::InvalidAccount)
                } else if acc.is_verified == Some(false) {
                    if fee_collector.lamports + verification_account_lamports > u64::MAX {
                        Err(ElusivError::MathError)
                    } else if fee_collector.lamports + verification_account_lamports + nd_lamports
                        > u64::MAX {
                        Err(ElusivError::MathError)
                    } else if pool.lamports < data.subvention {
                        Err(ElusivError::MathError)
                    } else if fee_collector.lamports + verification_account_lamports + nd_lamports
                        + data.subvention > u64::MAX {
                        Err(ElusivError::MathError)
                    } else if pool.lamports - data.subvention < data.commitment_hash_fee {
                        Err(ElusivError::MathError)
                    } else if fee_collector.lamports + verification_account_lamports + nd_lamports
                        + data.subvention + data.commitment_hash_fee > u64::MAX {
                        Err(ElusivError::MathError)
                    } else {
                        Ok(())
                    }
                } else {
                    let send_leg = match acc.request {
                        ProofRequest::Send(public_inputs) => {
                            let n = public_inputs.join_split.input_commitments@.len() as int;
                            match spec_enforce_instruction_siblings(
                                list,
                                current_ix_index,
                                n + 1,
                                spec_finalize_ix_tags(n, true),
                                program_id,
                            ) {
                                Err(e) => Err(e),
                                Ok(()) => match data.recipient_wallet {
                                    None => Err(ElusivError::InvalidAccount),
                                    Some(rw) => {
                                        if recipient.key != rw.view_raw() {
                                            Err(ElusivError::InvalidAccount)
                                        } else if pool.lamports < js.amount {
                                            Err(ElusivError::MathError)
                                        } else if public_inputs.solana_pay_transfer {
                                            if fee_payer.lamports + js.amount > u64::MAX {
                                                Err(ElusivError::MathError)
                                            } else if list.len() == 0
                                                || !spec_matches_system_transfer(
                                                list[list.len() - 1],
                                                fee_payer.key,
                                                recipient.key,
                                                js.amount as u64,
                                            ) {
                                                Err(ElusivError::InvalidOtherInstruction)
                                            } else {
                                                Ok(())
                                            }
                                        } else {
                                            if recipient.lamports + js.amount > u64::MAX {
                                                Err(ElusivError::MathError)
                                            } else {
                                                Ok(())
                                            }
                                        }
                                    },
                                },
                            }
                        },
                        ProofRequest::Migrate(_) => Ok(()),
                    };
                    match send_leg {
                        Err(e) => Err(e),
                        Ok(()) => {
                            let paid_out = match acc.request {
                                ProofRequest::Send(_) => js.amount as int,
                                ProofRequest::Migrate(_) => 0int,
                            };
                            let payer_in = match acc.request {
                                ProofRequest::Send(public_inputs) => if public_inputs.solana_pay_transfer {
                                    js.amount as int
                                } else {
                                    0int
                                },
                                ProofRequest::Migrate(_) => 0int,
                            };
                            let reimburse = data.commitment_hash_fee_token as int
                                + data.proof_verification_fee as int;
                            if reimburse > u64::MAX {
                                Err(ElusivError::MathError)
                            } else if pool.lamports - paid_out < reimburse {
                                Err(ElusivError::MathError)
                            } else if fee_payer.lamports + payer_in + reimburse > u64::MAX {
                                Err(ElusivError::MathError)
                            } else if pool.lamports - paid_out - reimburse < data.network_fee {
                                Err(ElusivError::MathError)
                            } else if fee_collector.lamports + data.network_fee > u64::MAX {
                                Err(ElusivError::MathError)
                            } else if fee_payer.lamports + payer_in + reimburse
                                + verification_account_lamports > u64::MAX {
                                Err(ElusivError::MathError)
                            } else if fee_payer.lamports + payer_in + reimburse
                                + verification_account_lamports + nd_lamports > u64::MAX {
                                Err(ElusivError::MathError)
                            } else if queue.contents().len() == queue.capacity() {
                                Err(ElusivError::QueueIsFull)
                            } else {
                                Ok(())
                            }
                        },
                    }
                }
            },
        }
    }
}

/// The commitment-hash request a completed verification enqueues.
pub open spec fn spec_commitment_request(acc: VerificationAccount) -> CommitmentHashRequest {
    CommitmentHashRequest {
        commitment: spec_reduced(acc.request.spec_join_split().output_commitment.view_raw()),
        fee_version: acc.request.spec_join_split().fee_version,
        min_batching_rate: acc.other_data.min_batching_rate,
    }
}

/// The terminal transfer for the native asset. For a rejected proof the
/// verification and duplicate-guard rents, the escrowed subvention and
/// the hash fee all flow to the fee collector - invalid proofs forfeit
/// their rent. For an accepted proof the pool pays the recipient
/// (directly, or through the fee payer as relay with the transaction's
/// pinned last instruction), reimburses the fee payer, pays the network
/// fee to the fee collector, closes both accounts back to the fee payer,
/// and enqueues the output commitment for hashing. Either way the
/// account closes.
#[verifier::rlimit(100)]
pub fn finalize_verification_transfer_lamports(
    original_fee_payer: &mut AccountState,
    recipient: &mut AccountState,
    pool: &mut AccountState,
    fee_collector: &mut AccountState,
    commitment_hash_queue: &mut CommitmentQueue,
    verification_account: &mut VerificationAccount,
    verification_account_lamports: &mut u64,
    nullifier_duplicate_account: &mut AccountState,
    instruction_list: &Vec<Instruction>,
    current_ix_index: usize,
    program_id: &U256,
) -> (r: Result<(), ElusivError>)
    requires
        old(commitment_hash_queue).wf(),
        old(verification_account).request.spec_join_split().input_commitments@.len() + 2
            <= usize::MAX,
    ensures
        final(commitment_hash_queue).wf(),
        match spec_finalize_transfer_lamports_check(
            *old(verification_account),
            *old(original_fee_payer),
            *old(recipient),
            *old(pool),
            *old(fee_collector),
            *old(commitment_hash_queue),
            *old(verification_account_lamports),
            *old(nullifier_duplicate_account),
            instruction_list@,
            current_ix_index as int,
            *program_id,
        ) {
            Err(e) => {
                &&& r == Result::<(), ElusivError>::Err(e)
                &&& *final(original_fee_payer) == *old(original_fee_payer)
                &&& *final(recipient) == *old(recipient)
                &&& *final(pool) == *old(pool)
                &&& *final(fee_collector) == *old(fee_collector)
                &&& *final(commitment_hash_queue) == *old(commitment_hash_queue)
                &&& *final(verification_account) == *old(verification_account)
                &&& *final(verification_account_lamports) == *old(verification_account_lamports)
                &&& *final(nullifier_duplicate_account) == *old(nullifier_duplicate_account)
            },
            Ok(()) => {
                let acc = *old(verification_account);
                let js = acc.request.spec_join_split();
                let data = acc.other_data;
                let nd_out = if data.skip_nullifier_pda {
                    0int
                } else {
                    old(nullifier_duplicate_account).lamports as int
                };
                let rejected = acc.is_verified == Some(false);
                let paid_out = if rejected {
                    data.subvention + data.commitment_hash_fee
                } else {
                    (match acc.request {
                        ProofRequest::Send(_) => js.amount as int,
                        ProofRequest::Migrate(_) => 0int,
                    }) + data.commitment_hash_fee_token + data.proof_verification_fee
                        + data.network_fee
                };
                let payer_in = match acc.request {
                    ProofRequest::Send(public_inputs) => if public_inputs.solana_pay_transfer {
                        js.amount as int
                    } else {
                        0int
                    },
                    ProofRequest::Migrate(_) => 0int,
                };
                &&& r == Result::<(), ElusivError>::Ok(())
                &&& final(pool).lamports == old(pool).lamports - paid_out
                &&& final(pool).key == old(pool).key
                &&& *final(verification_account_lamports) == 0
                &&& final(nullifier_duplicate_account).key == old(
                    nullifier_duplicate_account,
                ).key
                &&& final(nullifier_duplicate_account).lamports == if data.skip_nullifier_pda {
                    old(nullifier_duplicate_account).lamports as int
                } else {
                    0int
                }
                &&& (rejected ==> {
                    &&& final(fee_collector).lamports == old(fee_collector).lamports + *old(
                        verification_account_lamports,
                    ) + nd_out + data.subvention + data.commitment_hash_fee
                    &&& *final(original_fee_payer) == *old(original_fee_payer)
                    &&& *final(recipient) == *old(recipient)
                    &&& *final(commitment_hash_queue) == *old(commitment_hash_queue)
                })
                &&& (!rejected ==> {
                    &&& final(fee_collector).lamports == old(fee_collector).lamports
                        + data.network_fee
                    &&& final(original_fee_payer).lamports == old(original_fee_payer).lamports
                        + payer_in + data.commitment_hash_fee_token + data.proof_verification_fee
                        + *old(verification_account_lamports) + nd_out
                    &&& final(original_fee_payer).key == old(original_fee_payer).key
                    &&& final(recipient).key == old(recipient).key
                    &&& final(recipient).lamports == old(recipient).lamports + (
                    match acc.request {
                        ProofRequest::Send(public_inputs) => if public_inputs.solana_pay_transfer {
                            0int
                        } else {
                            js.amount as int
                        },
                        ProofRequest::Migrate(_) => 0int,
                    })
                    &&& final(commitment_hash_queue).contents() =~= old(
                        commitment_hash_queue,
                    ).contents().push(spec_commitment_request(acc))
                })
                &&& final(fee_collector).key == old(fee_collector).key
                &&& *final(verification_account) == (VerificationAccount {
                    state: VerificationState::Closed,
                    ..*old(verification_account)
                })
            },
        },
{
    let token_id: u16 = verification_account.get_request().join_split_inputs().token_id;
    if token_id != 0 {
        return Err(ElusivError::InvalidAccountState);
    }
    if !matches!(verification_account.get_state(), VerificationState::Finalized) {
        return Err(ElusivError::InvalidAccountState);
    }
    let data: VerificationAccountData = verification_account.get_other_data();
    let stored_payer: U256 = data.fee_payer.skip_mr();
    if !u256_eq(&stored_payer, &original_fee_payer.key) {
        return Err(ElusivError::InvalidAccount);
    }
    let (derived_key, _bump): (U256, u8) = match verification_account.get_request()
        .join_split_inputs().nullifier_duplicate_pda(program_id) {
        Ok(p) => p,
        Err(e) => {
            return Err(e);
        },
    };
    if !u256_eq(&nullifier_duplicate_account.key, &derived_key) {
        return Err(ElusivError::InvalidAccount);
    }
    let nd_out: u64 = if data.skip_nullifier_pda {
        0
    } else {
        nullifier_duplicate_account.lamports
    };
    let rejected: bool = matches!(verification_account.get_is_verified(), Some(false));
    if rejected {
        // Rent, subvention and hash fee forfeit to the fee collector.
        let fc1: u64 = match lamports_add(fee_collector.lamports, *verification_account_lamports) {
            Ok(v) => v,
            Err(e) => {
                return Err(e);
            },
        };
        let fc2: u64 = match lamports_add(fc1, nd_out) {
            Ok(v) => v,
            Err(e) => {
                return Err(e);
            },
        };
        if pool.lamports < data.subvention {
            return Err(ElusivError::MathError);
        }
        let fc3: u64 = match lamports_add(fc2, data.subvention) {
            Ok(v) => v,
            Err(e) => {
                return Err(e);
            },
        };
        if pool.lamports - data.subvention < data.commitment_hash_fee {
            return Err(ElusivError::MathError);
        }
        let fc4: u64 = match lamports_add(fc3, data.commitment_hash_fee) {
            Ok(v) => v,
            Err(e) => {
                return Err(e);
            },
        };
        pool.lamports = pool.lamports - data.subvention - data.commitment_hash_fee;
        fee_collector.lamports = fc4;
        *verification_account_lamports = 0;
        if !data.skip_nullifier_pda {
            nullifier_duplicate_account.lamports = 0;
        }
        verification_account.set_state(&VerificationState::Closed);
        return Ok(());
    }
    // Accepted (or still-running duplicate) path: pay out and close.
    let is_send: bool = matches!(verification_account.get_request(), ProofRequest::Send(_));
    let mut recipient_in: u64 = 0;
    let mut payer_in: u64 = 0;
    let mut paid_out: u64 = 0;
    if is_send {
        let (solana_pay, amount, n): (bool, u64, usize) = match verification_account.get_request() {
            ProofRequest::Send(public_inputs) => (
                public_inputs.solana_pay_transfer,
                public_inputs.join_split.amount,
                public_inputs.join_split.input_commitments.len(),
            ),
            ProofRequest::Migrate(_) => (false, 0, 0),
        };
        match enforce_finalize_send_instructions(
            instruction_list,
            current_ix_index,
            n + 1,
            n,
            true,
            program_id,
        ) {
            Ok(()) => {},
            Err(e) => {
                return Err(e);
            },
        }
        let recipient_wallet: U256 = match data.recipient_wallet {
            Some(rw) => rw.skip_mr(),
            None => {
                return Err(ElusivError::InvalidAccount);
            },
        };
        if !u256_eq(&recipient.key, &recipient_wallet) {
            return Err(ElusivError::InvalidAccount);
        }
        if pool.lamports < amount {
            return Err(ElusivError::MathError);
        }
        if solana_pay {
            match lamports_add(original_fee_payer.lamports, amount) {
                Ok(_) => {},
                Err(e) => {
                    return Err(e);
                },
            }
            let count: usize = instruction_list.len();
            if count == 0 {
                return Err(ElusivError::InvalidOtherInstruction);
            }
            let expected: Instruction = system_instruction_transfer(
                original_fee_payer.key,
                recipient.key,
                amount,
            );
            match enforce_instruction(instruction_list, count - 1, &expected, false) {
                Ok(()) => {},
                Err(e) => {
                    return Err(e);
                },
            }
            payer_in = amount;
        } else {
            match lamports_add(recipient.lamports, amount) {
                Ok(_) => {},
                Err(e) => {
                    return Err(e);
                },
            }
            recipient_in = amount;
        }
        paid_out = amount;
    }
    let reimburse: u64 = match lamports_add(
        data.commitment_hash_fee_token,
        data.proof_verification_fee,
    ) {
        Ok(v) => v,
        Err(e) => {
            return Err(e);
        },
    };
    if pool.lamports - paid_out < reimburse {
        return Err(ElusivError::MathError);
    }
    let fp1: u64 = match lamports_add(original_fee_payer.lamports, payer_in) {
        Ok(v) => v,
        Err(_) => {
            return Err(ElusivError::MathError);
        },
    };
    let fp2: u64 = match lamports_add(fp1, reimburse) {
        Ok(v) => v,
        Err(e) => {
            return Err(e);
        },
    };
    if pool.lamports - paid_out - reimburse < data.network_fee {
        return Err(ElusivError::MathError);
    }
    let fc1: u64 = match lamports_add(fee_collector.lamports, data.network_fee) {
        Ok(v) => v,
        Err(e) => {
            return Err(e);
        },
    };
    let fp3: u64 = match lamports_add(fp2, *verification_account_lamports) {
        Ok(v) => v,
        Err(e) => {
            return Err(e);
        },
    };
    let fp4: u64 = match lamports_add(fp3, nd_out) {
        Ok(v) => v,
        Err(e) => {
            return Err(e);
        },
    };
    proof {
        commitment_hash_queue.lemma_len_bound();
    }
    let output_commitment: U256 = verification_account.get_request().join_split_inputs()
        .output_commitment.reduce();
    let fee_version: u32 = verification_account.get_request().join_split_inputs().fee_version;
    let request: CommitmentHashRequest = CommitmentHashRequest {
        commitment: output_commitment,
        fee_version,
        min_batching_rate: data.min_batching_rate,
    };
    match commitment_hash_queue.enqueue(request) {
        Ok(()) => {},
        Err(e) => {
            return Err(e);
        },
    }
    pool.lamports = pool.lamports - paid_out - reimburse - data.network_fee;
    recipient.lamports = recipient.lamports + recipient_in;
    original_fee_payer.lamports = fp4;
    fee_collector.lamports = fc1;
    *verification_account_lamports = 0;
    if !data.skip_nullifier_pda {
        nullifier_duplicate_account.lamports = 0;
    }
    verification_account.set_state(&VerificationState::Closed);
    Ok(())
}


/// Whether `actual` is the token transfer `source -> destination` over
/// `amount`, signed by `owner`: what the relay mode's last instruction
/// must be for a token payout.
pub open spec fn spec_matches_token_transfer(
    actual: Instruction,
    source: U256,
    destination: U256,
    owner: U256,
    amount: u64,
) -> bool {
    &&& actual.program_id == spec_token_program_id()
    &&& actual.data@ == crate::instructions::spec_token_transfer_data(amount)
    &&& actual.accounts@.len() >= 3
    &&& actual.accounts@[0].pubkey == source
    &&& actual.accounts@[0].is_writable
    &&& actual.accounts@[1].pubkey == destination
    &&& actual.accounts@[1].is_writable
    &&& actual.accounts@[2].pubkey == owner
    &&& actual.accounts@[2].is_signer
}

/// The send-statement figures the token terminal transfer works with:
/// whether funds fall back to the fee collector over a bad recipient
/// account, whether an associated token account must be created, the
/// rent withheld for it, and the amount actually paid out.
pub open spec fn spec_token_send_shape(
    acc: VerificationAccount,
    recipient: TokenAccount,
    registry: TokenRegistry,
) -> (bool, bool, int, int) {
    let js = acc.request.spec_join_split();
    match acc.request {
        ProofRequest::Send(public_inputs) => {
            if !public_inputs.recipient_is_associated_token_account {
                let fallback = !spec_token_account_valid(recipient, js.token_id, registry);
                (fallback, false, 0int, js.amount as int)
            } else {
                let created = !recipient.exists;
                let rent = if created {
                    acc.other_data.associated_token_account_rent as int
                } else {
                    0int
                };
                (false, created, rent, js.amount - rent)
            }
        },
        ProofRequest::Migrate(_) => (false, false, 0int, 0int),
    }
}

/// What the token-asset terminal transfer decides, in guard order.
/// The send-statement checks of the token terminal transfer: the
/// sibling run, the recipient (or its associated token account, with the
/// mint pinned where it must be created), and the amount leg's balance
/// and relay checks. Trivially satisfied for a migrate statement.
pub open spec fn spec_token_send_checks(
    acc: VerificationAccount,
    fee_payer: AccountState,
    fee_payer_account: TokenAccount,
    recipient: TokenAccount,
    recipient_wallet: AccountState,
    pool_account: TokenAccount,
    fee_collector_account: TokenAccount,
    mint_account_key: U256,
    registry: TokenRegistry,
    list: Seq<Instruction>,
    current_ix_index: int,
    program_id: U256,
) -> Result<(), ElusivError> {
    let js = acc.request.spec_join_split();
    let data = acc.other_data;
    let token_id = js.token_id;
    match data.recipient_wallet {
        None => Err(ElusivError::InvalidAccount),
        Some(rw) => {
            let send_leg = match acc.request {
                ProofRequest::Send(public_inputs) => {
                    let n = public_inputs.join_split.input_commitments@.len() as int;
                    match spec_enforce_instruction_siblings(
                        list,
                        current_ix_index,
                        n + 1,
                        spec_finalize_ix_tags(n, false),
                        program_id,
                    ) {
                        Err(e) => Err(e),
                        Ok(()) => {
                            if !public_inputs.recipient_is_associated_token_account {
                                if recipient.key != rw.view_raw() {
                                    Err(ElusivError::InvalidAccount)
                                } else {
                                    Ok(())
                                }
                            } else if recipient_wallet.key != rw.view_raw() {
                                Err(ElusivError::InvalidAccount)
                            } else if !(1 <= token_id && (token_id as int)
                                < registry.mints@.len()) {
                                Err(ElusivError::InvalidInstructionData)
                            } else {
                                match spec_associated_token_address(
                                    recipient_wallet.key,
                                    registry.mints@[token_id as int],
                                ) {
                                    None => Err(ElusivError::InvalidAccount),
                                    Some((ata, _b)) => {
                                        if recipient.key != u256_from_bytes(ata) {
                                            Err(ElusivError::InvalidAccount)
                                        } else if !recipient.exists && mint_account_key
                                            != registry.mints@[token_id as int] {
                                            Err(ElusivError::InvalidAccount)
                                        } else {
                                            Ok(())
                                        }
                                    },
                                }
                            }
                        },
                    }
                },
                ProofRequest::Migrate(_) => Ok(()),
            };
            match send_leg {
                Err(e) => Err(e),
                Ok(()) => {
                    let (fallback, created, rent_token, amount_token) = spec_token_send_shape(
                        acc,
                        recipient,
                        registry,
                    );
                    let is_send = acc.request is Send;
                    let solana_pay = match acc.request {
                        ProofRequest::Send(public_inputs) => public_inputs.solana_pay_transfer,
                        ProofRequest::Migrate(_) => false,
                    };
                    let dest_amount = fee_collector_account.amount + (
                    if is_send && !solana_pay && fallback {
                        amount_token
                    } else {
                        0int
                    });
                    if is_send && amount_token < 0 {
                        Err(ElusivError::MathError)
                    } else if is_send && pool_account.amount < amount_token {
                        Err(ElusivError::MathError)
                    } else if is_send && solana_pay && fee_payer_account.amount + amount_token
                        > u64::MAX {
                        Err(ElusivError::MathError)
                    } else if is_send && solana_pay && (list.len() == 0
                        || !spec_matches_token_transfer(
                        list[list.len() - 1],
                        fee_payer_account.key,
                        if fallback {
                            fee_collector_account.key
                        } else {
                            recipient.key
                        },
                        fee_payer.key,
                        amount_token as u64,
                    )) {
                        Err(ElusivError::InvalidOtherInstruction)
                    } else if is_send && !solana_pay && !fallback && recipient.amount
                        + amount_token > u64::MAX {
                        Err(ElusivError::MathError)
                    } else if is_send && !solana_pay && fallback && dest_amount > u64::MAX {
                        Err(ElusivError::MathError)
                    } else {
                        Ok(())
                    }
                },
            }
        },
    }
}

/// The settlement ladder of the token terminal transfer, after the send
/// checks: reimbursements, the network fee, the account closes, the rent
/// refund and room in the commitment queue.
pub open spec fn spec_token_payout_remainder(
    acc: VerificationAccount,
    fee_payer: AccountState,
    fee_payer_account: TokenAccount,
    recipient: TokenAccount,
    pool: AccountState,
    pool_account: TokenAccount,
    fee_collector_account: TokenAccount,
    queue: CommitmentQueue,
    verification_account_lamports: u64,
    nullifier_duplicate_account: AccountState,
    registry: TokenRegistry,
    spl_token_account_rent: u64,
) -> Result<(), ElusivError> {
    let data = acc.other_data;
    let nd_lamports = if data.skip_nullifier_pda {
        0int
    } else {
        nullifier_duplicate_account.lamports as int
    };
    let (fallback, created, rent_token, amount_token) = spec_token_send_shape(
        acc,
        recipient,
        registry,
    );
    let is_send = acc.request is Send;
    let solana_pay = match acc.request {
        ProofRequest::Send(public_inputs) => public_inputs.solana_pay_transfer,
        ProofRequest::Migrate(_) => false,
    };
    let ata_flag = match acc.request {
        ProofRequest::Send(public_inputs) => public_inputs.recipient_is_associated_token_account,
        ProofRequest::Migrate(_) => false,
    };
    let dest_amount = fee_collector_account.amount + (
    if is_send && !solana_pay && fallback {
        amount_token
    } else {
        0int
    });
    let paid_out_token = if is_send {
        amount_token
    } else {
        0int
    };
    let reimburse = data.commitment_hash_fee_token + data.proof_verification_fee;
    if reimburse > u64::MAX {
        Err(ElusivError::MathError)
    } else if reimburse + rent_token > u64::MAX {
        Err(ElusivError::MathError)
    } else if pool_account.amount - paid_out_token < reimburse + rent_token {
        Err(ElusivError::MathError)
    } else if fee_payer_account.amount + (
    if is_send && solana_pay {
        amount_token
    } else {
        0int
    }) + reimburse + rent_token > u64::MAX {
        Err(ElusivError::MathError)
    } else if pool_account.amount - paid_out_token - reimburse - rent_token < data.network_fee {
        Err(ElusivError::MathError)
    } else if dest_amount + data.network_fee > u64::MAX {
        Err(ElusivError::MathError)
    } else if fee_payer.lamports + verification_account_lamports + nd_lamports > u64::MAX {
        Err(ElusivError::MathError)
    } else if is_send && ata_flag && pool.lamports < spl_token_account_rent {
        Err(ElusivError::MathError)
    } else if is_send && ata_flag && fee_payer.lamports + verification_account_lamports
        + nd_lamports + spl_token_account_rent > u64::MAX {
        Err(ElusivError::MathError)
    } else if queue.contents().len() == queue.capacity() {
        Err(ElusivError::QueueIsFull)
    } else {
        Ok(())
    }
}

/// What the accepted-proof (or still-running duplicate) branch of the
/// token terminal transfer decides, from the transfer-program guard on.
pub open spec fn spec_finalize_transfer_token_accepted_check(
    acc: VerificationAccount,
    fee_payer: AccountState,
    fee_payer_account: TokenAccount,
    recipient: TokenAccount,
    recipient_wallet: AccountState,
    pool: AccountState,
    pool_account: TokenAccount,
    fee_collector_account: TokenAccount,
    queue: CommitmentQueue,
    verification_account_lamports: u64,
    nullifier_duplicate_account: AccountState,
    token_program: U256,
    mint_account_key: U256,
    registry: TokenRegistry,
    spl_token_account_rent: u64,
    list: Seq<Instruction>,
    current_ix_index: int,
    program_id: U256,
) -> Result<(), ElusivError> {
    if token_program != spec_token_program_id() {
        Err(ElusivError::InvalidAccount)
    } else {
        match spec_token_send_checks(
            acc,
            fee_payer,
            fee_payer_account,
            recipient,
            recipient_wallet,
            pool_account,
            fee_collector_account,
            mint_account_key,
            registry,
            list,
            current_ix_index,
            program_id,
        ) {
            Err(e) => Err(e),
            Ok(()) => spec_token_payout_remainder(
                acc,
                fee_payer,
                fee_payer_account,
                recipient,
                pool,
                pool_account,
                fee_collector_account,
                queue,
                verification_account_lamports,
                nullifier_duplicate_account,
                registry,
                spl_token_account_rent,
            ),
        }
    }
}

/// What the token-asset terminal transfer decides, in guard order.
pub open spec fn spec_finalize_transfer_token_check(
    acc: VerificationAccount,
    fee_payer: AccountState,
    fee_payer_account: TokenAccount,
    recipient: TokenAccount,
    recipient_wallet: AccountState,
    pool: AccountState,
    pool_account: TokenAccount,
    fee_collector: AccountState,
    fee_collector_account: TokenAccount,
    queue: CommitmentQueue,
    verification_account_lamports: u64,
    nullifier_duplicate_account: AccountState,
    token_program: U256,
    mint_account_key: U256,
    registry: TokenRegistry,
    spl_token_account_rent: u64,
    list: Seq<Instruction>,
    current_ix_index: int,
    program_id: U256,
) -> Result<(), ElusivError> {
    let js = acc.request.spec_join_split();
    let data = acc.other_data;
    let token_id = js.token_id;
    let nd_lamports = if data.skip_nullifier_pda {
        0int
    } else {
        nullifier_duplicate_account.lamports as int
    };
    match data.recipient_wallet {
        None => Err(ElusivError::InvalidAccount),
        Some(rw) => {
            if token_id == 0 {
                Err(ElusivError::InvalidAccountState)
            } else if acc.state != VerificationState::Finalized {
                Err(ElusivError::InvalidAccountState)
            } else if data.fee_payer.view_raw() != fee_payer.key {
                Err(ElusivError::InvalidAccount)
            } else if data.fee_payer_account.view_raw() != fee_payer_account.key {
                Err(ElusivError::InvalidAccount)
            } else {
                match js.spec_nullifier_duplicate_pda(program_id) {
                    None => Err(ElusivError::InvalidAccount),
                    Some((key, _bump)) => {
                        if nullifier_duplicate_account.key != u256_from_bytes(key) {
                            Err(ElusivError::InvalidAccount)
                        } else if !spec_program_token_account_valid(
                            pool.key,
                            pool_account.key,
                            token_id,
                            registry,
                        ) {
                            Err(ElusivError::InvalidAccount)
                        } else if !spec_program_token_account_valid(
                            fee_collector.key,
                            fee_collector_account.key,
                            token_id,
                            registry,
                        ) {
                            Err(ElusivError::InvalidAccount)
                        } else if acc.is_verified == Some(false) {
                            if fee_collector.lamports + verification_account_lamports
                                + nd_lamports > u64::MAX {
                                Err(ElusivError::MathError)
                            } else if pool_account.amount < data.subvention {
                                Err(ElusivError::MathError)
                            } else if fee_collector_account.amount + data.subvention > u64::MAX {
                                Err(ElusivError::MathError)
                            } else if data.commitment_hash_fee + spl_token_account_rent
                                > u64::MAX {
                                Err(ElusivError::MathError)
                            } else if pool.lamports < data.commitment_hash_fee
                                + spl_token_account_rent {
                                Err(ElusivError::MathError)
                            } else if fee_collector.lamports + verification_account_lamports
                                + nd_lamports + data.commitment_hash_fee + spl_token_account_rent
                                > u64::MAX {
                                Err(ElusivError::MathError)
                            } else {
                                Ok(())
                            }
                        } else {
                            spec_finalize_transfer_token_accepted_check(
                                acc,
                                fee_payer,
                                fee_payer_account,
                                recipient,
                                recipient_wallet,
                                pool,
                                pool_account,
                                fee_collector_account,
                                queue,
                                verification_account_lamports,
                                nullifier_duplicate_account,
                                token_program,
                                mint_account_key,
                                registry,
                                spl_token_account_rent,
                                list,
                                current_ix_index,
                                program_id,
                            )
                        }
                    },
                }
            }
        },
    }
}

/// The terminal transfer for a token asset. A rejected proof forfeits
/// rent, subvention and hash fee to the fee collector. An accepted one
/// pays the recipient's token account (validating it, creating the
/// associated token account where needed with a rent advance reclaimed
/// from the pool, and falling back to the fee collector over a malformed
/// recipient account rather than blocking the transaction), reimburses
/// the fee payer, pays the network fee, closes both accounts back to the
/// fee payer, and enqueues the output commitment for hashing.
#[verifier::rlimit(100)]
pub fn finalize_verification_transfer_token(
    original_fee_payer: &mut AccountState,
    original_fee_payer_account: &mut TokenAccount,
    recipient: &mut TokenAccount,
    recipient_wallet: &AccountState,
    pool: &mut AccountState,
    pool_account: &mut TokenAccount,
    fee_collector: &mut AccountState,
    fee_collector_account: &mut TokenAccount,
    commitment_hash_queue: &mut CommitmentQueue,
    verification_account: &mut VerificationAccount,
    verification_account_lamports: &mut u64,
    nullifier_duplicate_account: &mut AccountState,
    token_program: &U256,
    mint_account_key: &U256,
    instruction_list: &Vec<Instruction>,
    current_ix_index: usize,
    registry: &TokenRegistry,
    spl_token_account_rent: u64,
    program_id: &U256,
) -> (r: Result<(), ElusivError>)
    requires
        old(commitment_hash_queue).wf(),
        old(verification_account).request.spec_join_split().input_commitments@.len() + 2
            <= usize::MAX,
    ensures
        final(commitment_hash_queue).wf(),
        match spec_finalize_transfer_token_check(
            *old(verification_account),
            *old(original_fee_payer),
            *old(original_fee_payer_account),
            *old(recipient),
            *recipient_wallet,
            *old(pool),
            *old(pool_account),
            *old(fee_collector),
            *old(fee_collector_account),
            *old(commitment_hash_queue),
            *old(verification_account_lamports),
            *old(nullifier_duplicate_account),
            *token_program,
            *mint_account_key,
            *registry,
            spl_token_account_rent,
            instruction_list@,
            current_ix_index as int,
            *program_id,
        ) {
            Err(e) => {
                &&& r == Result::<(), ElusivError>::Err(e)
                &&& *final(original_fee_payer) == *old(original_fee_payer)
                &&& *final(original_fee_payer_account) == *old(original_fee_payer_account)
                &&& *final(recipient) == *old(recipient)
                &&& *final(pool) == *old(pool)
                &&& *final(pool_account) == *old(pool_account)
                &&& *final(fee_collector) == *old(fee_collector)
                &&& *final(fee_collector_account) == *old(fee_collector_account)
                &&& *final(commitment_hash_queue) == *old(commitment_hash_queue)
                &&& *final(verification_account) == *old(verification_account)
                &&& *final(verification_account_lamports) == *old(verification_account_lamports)
                &&& *final(nullifier_duplicate_account) == *old(nullifier_duplicate_account)
            },
            Ok(()) => {
                let acc = *old(verification_account);
                let js = acc.request.spec_join_split();
                let data = acc.other_data;
                let nd_out = if data.skip_nullifier_pda {
                    0int
                } else {
                    old(nullifier_duplicate_account).lamports as int
                };
                let rejected = acc.is_verified == Some(false);
                let (fallback, created, rent_token, amount_token) = spec_token_send_shape(
                    acc,
                    *old(recipient),
                    *registry,
                );
                let is_send = acc.request is Send;
                let solana_pay = match acc.request {
                    ProofRequest::Send(public_inputs) => public_inputs.solana_pay_transfer,
                    ProofRequest::Migrate(_) => false,
                };
                let ata_flag = match acc.request {
                    ProofRequest::Send(public_inputs) => public_inputs.recipient_is_associated_token_account,
                    ProofRequest::Migrate(_) => false,
                };
                let reimburse = data.commitment_hash_fee_token + data.proof_verification_fee
                    + rent_token;
                &&& r == Result::<(), ElusivError>::Ok(())
                &&& *final(verification_account_lamports) == 0
                &&& final(nullifier_duplicate_account).key == old(nullifier_duplicate_account).key
                &&& final(nullifier_duplicate_account).lamports == if data.skip_nullifier_pda {
                    old(nullifier_duplicate_account).lamports as int
                } else {
                    0int
                }
                &&& *final(verification_account) == (VerificationAccount {
                    state: VerificationState::Closed,
                    ..*old(verification_account)
                })
                &&& (rejected ==> {
                    &&& final(fee_collector).lamports == old(fee_collector).lamports + *old(
                        verification_account_lamports,
                    ) + nd_out + data.commitment_hash_fee + spl_token_account_rent
                    &&& final(fee_collector).key == old(fee_collector).key
                    &&& *final(fee_collector_account) == (TokenAccount {
                        amount: (old(fee_collector_account).amount + data.subvention) as u64,
                        ..*old(fee_collector_account)
                    })
                    &&& *final(pool_account) == (TokenAccount {
                        amount: (old(pool_account).amount - data.subvention) as u64,
                        ..*old(pool_account)
                    })
                    &&& final(pool).lamports == old(pool).lamports - data.commitment_hash_fee
                        - spl_token_account_rent
                    &&& final(pool).key == old(pool).key
                    &&& *final(original_fee_payer) == *old(original_fee_payer)
                    &&& *final(original_fee_payer_account) == *old(original_fee_payer_account)
                    &&& *final(recipient) == *old(recipient)
                    &&& *final(commitment_hash_queue) == *old(commitment_hash_queue)
                })
                &&& (!rejected ==> {
                    let paid_out_token = if is_send {
                        amount_token
                    } else {
                        0int
                    };
                    &&& final(pool_account).amount == old(pool_account).amount - paid_out_token
                        - reimburse - data.network_fee
                    &&& final(pool_account).key == old(pool_account).key
                    &&& final(recipient).amount == old(recipient).amount + (
                    if is_send && !solana_pay && !fallback {
                        amount_token
                    } else {
                        0int
                    })
                    &&& final(recipient).exists == (old(recipient).exists || created)
                    &&& final(recipient).key == old(recipient).key
                    &&& final(fee_collector_account).amount == old(fee_collector_account).amount
                        + data.network_fee + (
                    if is_send && !solana_pay && fallback {
                        amount_token
                    } else {
                        0int
                    })
                    &&& final(fee_collector_account).key == old(fee_collector_account).key
                    &&& final(original_fee_payer_account).amount == old(
                        original_fee_payer_account,
                    ).amount + (
                    if is_send && solana_pay {
                        amount_token
                    } else {
                        0int
                    }) + reimburse
                    &&& final(original_fee_payer_account).key == old(
                        original_fee_payer_account,
                    ).key
                    &&& final(original_fee_payer).lamports == old(original_fee_payer).lamports
                        + *old(verification_account_lamports) + nd_out + (
                    if is_send && ata_flag {
                        spl_token_account_rent as int
                    } else {
                        0int
                    })
                    &&& final(original_fee_payer).key == old(original_fee_payer).key
                    &&& final(pool).lamports == old(pool).lamports - (
                    if is_send && ata_flag {
                        spl_token_account_rent as int
                    } else {
                        0int
                    })
                    &&& final(pool).key == old(pool).key
                    &&& *final(fee_collector) == *old(fee_collector)
                    &&& final(commitment_hash_queue).contents() =~= old(
                        commitment_hash_queue,
                    ).contents().push(spec_commitment_request(acc))
                })
            },
        },
{
    let data: VerificationAccountData = verification_account.get_other_data();
    let recipient_address: U256 = match data.recipient_wallet {
        Some(rw) => rw.skip_mr(),
        None => {
            return Err(ElusivError::InvalidAccount);
        },
    };
    let token_id: u16 = verification_account.get_request().join_split_inputs().token_id;
    if token_id == 0 {
        return Err(ElusivError::InvalidAccountState);
    }
    if !matches!(verification_account.get_state(), VerificationState::Finalized) {
        return Err(ElusivError::InvalidAccountState);
    }
    let stored_payer: U256 = data.fee_payer.skip_mr();
    if !u256_eq(&stored_payer, &original_fee_payer.key) {
        return Err(ElusivError::InvalidAccount);
    }
    let stored_payer_account: U256 = data.fee_payer_account.skip_mr();
    if !u256_eq(&stored_payer_account, &original_fee_payer_account.key) {
        return Err(ElusivError::InvalidAccount);
    }
    let (derived_key, _bump): (U256, u8) = match verification_account.get_request()
        .join_split_inputs().nullifier_duplicate_pda(program_id) {
        Ok(p) => p,
        Err(e) => {
            return Err(e);
        },
    };
    if !u256_eq(&nullifier_duplicate_account.key, &derived_key) {
        return Err(ElusivError::InvalidAccount);
    }
    match verify_program_token_account(&pool.key, &pool_account.key, token_id, registry) {
        Ok(()) => {},
        Err(e) => {
            return Err(e);
        },
    }
    match verify_program_token_account(
        &fee_collector.key,
        &fee_collector_account.key,
        token_id,
        registry,
    ) {
        Ok(()) => {},
        Err(e) => {
            return Err(e);
        },
    }
    let nd_out: u64 = if data.skip_nullifier_pda {
        0
    } else {
        nullifier_duplicate_account.lamports
    };
    let rejected: bool = matches!(verification_account.get_is_verified(), Some(false));
    if rejected {
        let fc1: u64 = match lamports_add(fee_collector.lamports, *verification_account_lamports) {
            Ok(v) => v,
            Err(e) => {
                return Err(e);
            },
        };
        let fc2: u64 = match lamports_add(fc1, nd_out) {
            Ok(v) => v,
            Err(e) => {
                return Err(e);
            },
        };
        if pool_account.amount < data.subvention {
            return Err(ElusivError::MathError);
        }
        let fct: u64 = match lamports_add(fee_collector_account.amount, data.subvention) {
            Ok(v) => v,
            Err(e) => {
                return Err(e);
            },
        };
        let rent_and_fee: u64 = match lamports_add(data.commitment_hash_fee, spl_token_account_rent) {
            Ok(v) => v,
            Err(e) => {
                return Err(e);
            },
        };
        if pool.lamports < rent_and_fee {
            return Err(ElusivError::MathError);
        }
        let fc3: u64 = match lamports_add(fc2, rent_and_fee) {
            Ok(v) => v,
            Err(e) => {
                return Err(e);
            },
        };
        fee_collector.lamports = fc3;
        *verification_account_lamports = 0;
        if !data.skip_nullifier_pda {
            nullifier_duplicate_account.lamports = 0;
        }
        pool_account.amount = pool_account.amount - data.subvention;
        fee_collector_account.amount = fct;
        pool.lamports = pool.lamports - rent_and_fee;
        verification_account.set_state(&VerificationState::Closed);
        return Ok(());
    }
    finalize_verification_transfer_token_accepted(
        original_fee_payer,
        original_fee_payer_account,
        recipient,
        recipient_wallet,
        pool,
        pool_account,
        fee_collector_account,
        commitment_hash_queue,
        verification_account,
        verification_account_lamports,
        nullifier_duplicate_account,
        token_program,
        mint_account_key,
        instruction_list,
        current_ix_index,
        registry,
        spl_token_account_rent,
        program_id,
    )
}

/// The accepted-proof branch of the token terminal transfer; the caller
/// has already checked identities, addresses and the program token
/// accounts, and ruled out the rejected branch.
#[verifier::rlimit(100)]
fn finalize_verification_transfer_token_accepted(
    original_fee_payer: &mut AccountState,
    original_fee_payer_account: &mut TokenAccount,
    recipient: &mut TokenAccount,
    recipient_wallet: &AccountState,
    pool: &mut AccountState,
    pool_account: &mut TokenAccount,
    fee_collector_account: &mut TokenAccount,
    commitment_hash_queue: &mut CommitmentQueue,
    verification_account: &mut VerificationAccount,
    verification_account_lamports: &mut u64,
    nullifier_duplicate_account: &mut AccountState,
    token_program: &U256,
    mint_account_key: &U256,
    instruction_list: &Vec<Instruction>,
    current_ix_index: usize,
    registry: &TokenRegistry,
    spl_token_account_rent: u64,
    program_id: &U256,
) -> (r: Result<(), ElusivError>)
    requires
        old(commitment_hash_queue).wf(),
        old(verification_account).request.spec_join_split().input_commitments@.len() + 2
            <= usize::MAX,
        old(verification_account).other_data.recipient_wallet is Some,
        old(verification_account).is_verified != Some(false),
        old(verification_account).request.spec_join_split().token_id != 0,
    ensures
        final(commitment_hash_queue).wf(),
        match spec_finalize_transfer_token_accepted_check(
            *old(verification_account),
            *old(original_fee_payer),
            *old(original_fee_payer_account),
            *old(recipient),
            *recipient_wallet,
            *old(pool),
            *old(pool_account),
            *old(fee_collector_account),
            *old(commitment_hash_queue),
            *old(verification_account_lamports),
            *old(nullifier_duplicate_account),
            *token_program,
            *mint_account_key,
            *registry,
            spl_token_account_rent,
            instruction_list@,
            current_ix_index as int,
            *program_id,
        ) {
            Err(e) => {
                &&& r == Result::<(), ElusivError>::Err(e)
                &&& *final(original_fee_payer) == *old(original_fee_payer)
                &&& *final(original_fee_payer_account) == *old(original_fee_payer_account)
                &&& *final(recipient) == *old(recipient)
                &&& *final(pool) == *old(pool)
                &&& *final(pool_account) == *old(pool_account)
                &&& *final(fee_collector_account) == *old(fee_collector_account)
                &&& *final(commitment_hash_queue) == *old(commitment_hash_queue)
                &&& *final(verification_account) == *old(verification_account)
                &&& *final(verification_account_lamports) == *old(verification_account_lamports)
                &&& *final(nullifier_duplicate_account) == *old(nullifier_duplicate_account)
            },
            Ok(()) => {
                let acc = *old(verification_account);
                let js = acc.request.spec_join_split();
                let data = acc.other_data;
                let nd_out = if data.skip_nullifier_pda {
                    0int
                } else {
                    old(nullifier_duplicate_account).lamports as int
                };
                let (fallback, created, rent_token, amount_token) = spec_token_send_shape(
                    acc,
                    *old(recipient),
                    *registry,
                );
                let is_send = acc.request is Send;
                let solana_pay = match acc.request {
                    ProofRequest::Send(public_inputs) => public_inputs.solana_pay_transfer,
                    ProofRequest::Migrate(_) => false,
                };
                let ata_flag = match acc.request {
                    ProofRequest::Send(public_inputs) => public_inputs.recipient_is_associated_token_account,
                    ProofRequest::Migrate(_) => false,
                };
                let reimburse = data.commitment_hash_fee_token + data.proof_verification_fee
                    + rent_token;
                let paid_out_token = if is_send {
                    amount_token
                } else {
                    0int
                };
                &&& r == Result::<(), ElusivError>::Ok(())
                &&& *final(verification_account_lamports) == 0
                &&& final(nullifier_duplicate_account).key == old(nullifier_duplicate_account).key
                &&& final(nullifier_duplicate_account).lamports == if data.skip_nullifier_pda {
                    old(nullifier_duplicate_account).lamports as int
                } else {
                    0int
                }
                &&& *final(verification_account) == (VerificationAccount {
                    state: VerificationState::Closed,
                    ..*old(verification_account)
                })
                &&& final(pool_account).amount == old(pool_account).amount - paid_out_token
                    - reimburse - data.network_fee
                &&& final(pool_account).key == old(pool_account).key
                &&& final(recipient).amount == old(recipient).amount + (
                if is_send && !solana_pay && !fallback {
                    amount_token
                } else {
                    0int
                })
                &&& final(recipient).exists == (old(recipient).exists || created)
                &&& final(recipient).key == old(recipient).key
                &&& final(fee_collector_account).amount == old(fee_collector_account).amount
                    + data.network_fee + (
                if is_send && !solana_pay && fallback {
                    amount_token
                } else {
                    0int
                })
                &&& final(fee_collector_account).key == old(fee_collector_account).key
                &&& final(original_fee_payer_account).amount == old(
                    original_fee_payer_account,
                ).amount + (
                if is_send && solana_pay {
                    amount_token
                } else {
                    0int
                }) + reimburse
                &&& final(original_fee_payer_account).key == old(original_fee_payer_account).key
                &&& final(original_fee_payer).lamports == old(original_fee_payer).lamports + *old(
                    verification_account_lamports,
                ) + nd_out + (
                if is_send && ata_flag {
                    spl_token_account_rent as int
                } else {
                    0int
                })
                &&& final(original_fee_payer).key == old(original_fee_payer).key
                &&& final(pool).lamports == old(pool).lamports - (
                if is_send && ata_flag {
                    spl_token_account_rent as int
                } else {
                    0int
                })
                &&& final(pool).key == old(pool).key
                &&& final(commitment_hash_queue).contents() =~= old(
                    commitment_hash_queue,
                ).contents().push(spec_commitment_request(acc))
            },
        },
{
    let data: VerificationAccountData = verification_account.get_other_data();
    let nd_out: u64 = if data.skip_nullifier_pda {
        0
    } else {
        nullifier_duplicate_account.lamports
    };
    let tok: U256 = token_program_id();
    if !u256_eq(token_program, &tok) {
        return Err(ElusivError::InvalidAccount);
    }
    let (fallback, created, rent_token, amount_token): (bool, bool, u64, u64) =
        match token_send_checks(
        original_fee_payer,
        original_fee_payer_account,
        recipient,
        recipient_wallet,
        pool_account,
        fee_collector_account,
        verification_account,
        mint_account_key,
        instruction_list,
        current_ix_index,
        registry,
        program_id,
    ) {
        Ok(shape) => shape,
        Err(e) => {
            return Err(e);
        },
    };
    let is_send: bool = matches!(verification_account.get_request(), ProofRequest::Send(_));
    let (solana_pay, ata_flag): (bool, bool) = match verification_account.get_request() {
        ProofRequest::Send(public_inputs) => (
            public_inputs.solana_pay_transfer,
            public_inputs.recipient_is_associated_token_account,
        ),
        ProofRequest::Migrate(_) => (false, false),
    };
    let paid_out_token: u64 = if is_send {
        amount_token
    } else {
        0
    };
    let r1: u64 = match lamports_add(data.commitment_hash_fee_token, data.proof_verification_fee) {
        Ok(v) => v,
        Err(e) => {
            return Err(e);
        },
    };
    let reimburse: u64 = match lamports_add(r1, rent_token) {
        Ok(v) => v,
        Err(e) => {
            return Err(e);
        },
    };
    if pool_account.amount - paid_out_token < reimburse {
        return Err(ElusivError::MathError);
    }
    let payer_in_token: u64 = if is_send && solana_pay {
        amount_token
    } else {
        0
    };
    let fpt1: u64 = match lamports_add(original_fee_payer_account.amount, payer_in_token) {
        Ok(v) => v,
        Err(_) => {
            return Err(ElusivError::MathError);
        },
    };
    let fpt2: u64 = match lamports_add(fpt1, reimburse) {
        Ok(v) => v,
        Err(e) => {
            return Err(e);
        },
    };
    if pool_account.amount - paid_out_token - reimburse < data.network_fee {
        return Err(ElusivError::MathError);
    }
    let fallback_in: u64 = if is_send && !solana_pay && fallback {
        amount_token
    } else {
        0
    };
    let fct1: u64 = match lamports_add(fee_collector_account.amount, fallback_in) {
        Ok(v) => v,
        Err(_) => {
            return Err(ElusivError::MathError);
        },
    };
    let fct2: u64 = match lamports_add(fct1, data.network_fee) {
        Ok(v) => v,
        Err(e) => {
            return Err(e);
        },
    };
    let fp1: u64 = match lamports_add(original_fee_payer.lamports, *verification_account_lamports) {
        Ok(v) => v,
        Err(_) => {
            return Err(ElusivError::MathError);
        },
    };
    let fp2: u64 = match lamports_add(fp1, nd_out) {
        Ok(v) => v,
        Err(_) => {
            return Err(ElusivError::MathError);
        },
    };
    let rent_refund: u64 = if is_send && ata_flag {
        spl_token_account_rent
    } else {
        0
    };
    if is_send && ata_flag && pool.lamports < spl_token_account_rent {
        return Err(ElusivError::MathError);
    }
    let fp3: u64 = if is_send && ata_flag {
        match lamports_add(fp2, spl_token_account_rent) {
            Ok(v) => v,
            Err(e) => {
                return Err(e);
            },
        }
    } else {
        fp2
    };
    proof {
        commitment_hash_queue.lemma_len_bound();
    }
    let output_commitment: U256 = verification_account.get_request().join_split_inputs()
        .output_commitment.reduce();
    let fee_version: u32 = verification_account.get_request().join_split_inputs().fee_version;
    let request: CommitmentHashRequest = CommitmentHashRequest {
        commitment: output_commitment,
        fee_version,
        min_batching_rate: data.min_batching_rate,
    };
    match commitment_hash_queue.enqueue(request) {
        Ok(()) => {},
        Err(e) => {
            return Err(e);
        },
    }
    pool_account.amount = pool_account.amount - paid_out_token - reimburse - data.network_fee;
    if is_send && !solana_pay && !fallback {
        recipient.amount = recipient.amount + amount_token;
    }
    if created {
        recipient.exists = true;
    }
    fee_collector_account.amount = fct2;
    original_fee_payer_account.amount = fpt2;
    original_fee_payer.lamports = fp3;
    pool.lamports = pool.lamports - rent_refund;
    *verification_account_lamports = 0;
    if !data.skip_nullifier_pda {
        nullifier_duplicate_account.lamports = 0;
    }
    verification_account.set_state(&VerificationState::Closed);
    Ok(())
}

/// The send-statement checks of the token terminal transfer: read-only;
/// hands back the payout shape (fallback to the fee collector, whether
/// the associated token account must be created, the rent withheld for
/// it, and the amount actually paid out).
#[verifier::rlimit(100)]
fn token_send_checks(
    original_fee_payer: &AccountState,
    original_fee_payer_account: &TokenAccount,
    recipient: &TokenAccount,
    recipient_wallet: &AccountState,
    pool_account: &TokenAccount,
    fee_collector_account: &TokenAccount,
    verification_account: &VerificationAccount,
    mint_account_key: &U256,
    instruction_list: &Vec<Instruction>,
    current_ix_index: usize,
    registry: &TokenRegistry,
    program_id: &U256,
) -> (r: Result<(bool, bool, u64, u64), ElusivError>)
    requires
        verification_account.request.spec_join_split().input_commitments@.len() + 2 <= usize::MAX,
    ensures
        match spec_token_send_checks(
            *verification_account,
            *original_fee_payer,
            *original_fee_payer_account,
            *recipient,
            *recipient_wallet,
            *pool_account,
            *fee_collector_account,
            *mint_account_key,
            *registry,
            instruction_list@,
            current_ix_index as int,
            *program_id,
        ) {
            Err(e) => r == Result::<(bool, bool, u64, u64), ElusivError>::Err(e),
            Ok(()) => {
                let (fallback, created, rent_token, amount_token) = spec_token_send_shape(
                    *verification_account,
                    *recipient,
                    *registry,
                );
                r == Result::<(bool, bool, u64, u64), ElusivError>::Ok(
                    (fallback, created, rent_token as u64, amount_token as u64),
                )
            },
        },
{
    let data: VerificationAccountData = verification_account.get_other_data();
    let recipient_address: U256 = match data.recipient_wallet {
        Some(rw) => rw.skip_mr(),
        None => {
            return Err(ElusivError::InvalidAccount);
        },
    };
    let token_id: u16 = verification_account.get_request().join_split_inputs().token_id;
    let is_send: bool = matches!(verification_account.get_request(), ProofRequest::Send(_));
    let mut fallback: bool = false;
    let mut created: bool = false;
    let mut rent_token: u64 = 0;
    let mut amount_token: u64 = 0;
    if is_send {
        let (solana_pay, ata_flag, amount, n): (bool, bool, u64, usize) =
            match verification_account.get_request() {
            ProofRequest::Send(public_inputs) => (
                public_inputs.solana_pay_transfer,
                public_inputs.recipient_is_associated_token_account,
                public_inputs.join_split.amount,
                public_inputs.join_split.input_commitments.len(),
            ),
            ProofRequest::Migrate(_) => (false, false, 0, 0),
        };
        match enforce_finalize_send_instructions(
            instruction_list,
            current_ix_index,
            n + 1,
            n,
            false,
            program_id,
        ) {
            Ok(()) => {},
            Err(e) => {
                return Err(e);
            },
        }
        if !ata_flag {
            if !u256_eq(&recipient.key, &recipient_address) {
                return Err(ElusivError::InvalidAccount);
            }
            fallback = !verify_token_account(recipient, token_id, registry);
        } else {
            if !u256_eq(&recipient_wallet.key, &recipient_address) {
                return Err(ElusivError::InvalidAccount);
            }
            let is_ata: bool = match verify_associated_token_account(
                &recipient_wallet.key,
                &recipient.key,
                token_id,
                registry,
            ) {
                Ok(b) => b,
                Err(e) => {
                    return Err(e);
                },
            };
            if !is_ata {
                return Err(ElusivError::InvalidAccount);
            }
            if !recipient.exists {
                let mint: U256 = match registry.mint_of(token_id) {
                    Ok(m) => m,
                    Err(e) => {
                        return Err(e);
                    },
                };
                if !u256_eq(mint_account_key, &mint) {
                    return Err(ElusivError::InvalidAccount);
                }
                created = true;
                rent_token = data.associated_token_account_rent;
            }
        }
        if amount < rent_token {
            return Err(ElusivError::MathError);
        }
        amount_token = amount - rent_token;
        if pool_account.amount < amount_token {
            return Err(ElusivError::MathError);
        }
        if solana_pay {
            match lamports_add(original_fee_payer_account.amount, amount_token) {
                Ok(_) => {},
                Err(e) => {
                    return Err(e);
                },
            }
            let count: usize = instruction_list.len();
            if count == 0 {
                return Err(ElusivError::InvalidOtherInstruction);
            }
            let dest: U256 = if fallback {
                fee_collector_account.key
            } else {
                recipient.key
            };
            let expected: Instruction = token_instruction_transfer(
                original_fee_payer_account.key,
                dest,
                original_fee_payer.key,
                amount_token,
            );
            match enforce_instruction(instruction_list, count - 1, &expected, false) {
                Ok(()) => {},
                Err(e) => {
                    return Err(e);
                },
            }
        } else {
            if !fallback {
                match lamports_add(recipient.amount, amount_token) {
                    Ok(_) => {},
                    Err(e) => {
                        return Err(e);
                    },
                }
            } else {
                match lamports_add(fee_collector_account.amount, amount_token) {
                    Ok(_) => {},
                    Err(e) => {
                        return Err(e);
                    },
                }
            }
        }
    }
    Ok((fallback, created, rent_token, amount_token))
}


/// The verdict is write-once: as soon as a verdict is recorded, every
/// further compute step fails with `ComputationIsAlreadyFinished`
/// whatever outcome the stepper would hand in, so a recorded verdict
/// never changes.
pub proof fn lemma_verdict_write_once(
    acc: VerificationAccount,
    vkey_account: VKeyAccount,
    vkey_id: u32,
    step_result: Result<Option<bool>, ElusivError>,
)
    requires
        acc.is_verified is Some,
        vkey_account.is_frozen,
        acc.vkey_id == vkey_id,
    ensures
        spec_compute_verification_check(acc, vkey_account, vkey_id, step_result) == Err::<
            Option<bool>,
            ElusivError,
        >(ElusivError::ComputationIsAlreadyFinished),
{
}

/// State monotonicity: no handler decision can come out `Ok` unless the
/// account stands in the handler's documented precondition state - the
/// fee transfer needs `Created`, proof setup `FeeTransferred`, a compute
/// step `Created` or `ProofSetup`, the first finalize step `ProofSetup`,
/// a nullifier step `InsertNullifiers`, and both terminal transfers
/// `Finalized`.
pub proof fn lemma_handler_state_preconditions(
    acc: VerificationAccount,
    fee_payer: AccountState,
    fee_payer_token_account: TokenAccount,
    recipient_account: AccountState,
    recipient_token_account: TokenAccount,
    recipient_wallet: AccountState,
    pool: AccountState,
    pool_account: TokenAccount,
    fee_collector: AccountState,
    fee_collector_account: TokenAccount,
    governor: GovernorAccount,
    nullifier_account: NullifierAccount,
    queue: CommitmentQueue,
    verification_account_lamports: u64,
    nullifier_duplicate_account: AccountState,
    vkey_account: VKeyAccount,
    vkey_id: u32,
    step_result: Result<Option<bool>, ElusivError>,
    token_program: U256,
    system_program: U256,
    mint_account_key: U256,
    registry: TokenRegistry,
    priced: FeeCalculation,
    spl_token_account_rent: u64,
    recipient_key: U256,
    identifier_key: U256,
    transaction_reference_key: U256,
    instructions_account_key: U256,
    storage: StorageAccount,
    list: Seq<Instruction>,
    current_ix_index: int,
    input_commitment_index: int,
    data: FinalizeSendData,
    uses_memo: bool,
    program_id: U256,
)
    ensures
        acc.state != VerificationState::Created ==> spec_init_verification_transfer_fee_check(
            acc,
            fee_payer,
            fee_payer_token_account,
            pool,
            pool_account,
            fee_collector,
            fee_collector_account,
            governor,
            token_program,
            system_program,
            registry,
            priced,
        ) is Err,
        acc.state != VerificationState::FeeTransferred ==> spec_init_verification_proof_check(
            acc,
            fee_payer,
        ) is Err,
        acc.state != VerificationState::Created && acc.state != VerificationState::ProofSetup
            ==> spec_compute_verification_check(acc, vkey_account, vkey_id, step_result) is Err,
        acc.state != VerificationState::ProofSetup ==> spec_finalize_verification_send_check(
            acc,
            recipient_key,
            identifier_key,
            transaction_reference_key,
            instructions_account_key,
            queue,
            storage,
            list,
            current_ix_index,
            data,
            uses_memo,
            program_id,
        ) is Err,
        acc.state != VerificationState::InsertNullifiers
            ==> spec_finalize_send_nullifier_check(
            acc,
            nullifier_account,
            list,
            current_ix_index,
            input_commitment_index,
            program_id,
        ) is Err,
        acc.state != VerificationState::Finalized ==> spec_finalize_transfer_lamports_check(
            acc,
            fee_payer,
            recipient_account,
            pool,
            fee_collector,
            queue,
            verification_account_lamports,
            nullifier_duplicate_account,
            list,
            current_ix_index,
            program_id,
        ) is Err,
        acc.state != VerificationState::Finalized ==> spec_finalize_transfer_token_check(
            acc,
            fee_payer,
            fee_payer_token_account,
            recipient_token_account,
            recipient_wallet,
            pool,
            pool_account,
            fee_collector,
            fee_collector_account,
            queue,
            verification_account_lamports,
            nullifier_duplicate_account,
            token_program,
            mint_account_key,
            registry,
            spl_token_account_rent,
            list,
            current_ix_index,
            program_id,
        ) is Err,
{
}

} // verus!
