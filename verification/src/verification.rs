//! The verification account: the persistent object tracking one proof
//! verification from creation through fee payment, proof submission,
//! stepped computation, nullifier insertion and fund release.

use vstd::prelude::*;
use crate::U256;
use crate::error::ElusivError;
use crate::fields::RawU256;
use crate::types::{Proof, ProofRequest};
use crate::program_account::MultiInstancePDAAccount;

verus! {

/// The most verification accounts one fee payer may have open at once.
pub const VERIFICATION_ACCOUNT_MAX_INSTANCES: u64 = 128;


/// The linear lifecycle of a verification; no transition ever goes
/// backward.
#[derive(Clone, Copy, PartialEq, Eq, Structural, Debug)]
pub enum VerificationState {
    /// The account exists with its immutable fields stored; no fee paid
    /// yet.
    Created,
    FeeTransferred,
    ProofSetup,
    InsertNullifiers,
    Finalized,
    Closed,
}

/// The mutable side-record of a verification: who pays, who receives,
/// and the full fee breakdown, all fixed at fee-transfer time.
#[derive(Clone, Copy, PartialEq, Debug)]
pub struct VerificationAccountData {
    /// The fee payer's address (raw form), fixed at creation.
    pub fee_payer: RawU256,
    /// The fee payer's token account for the statement's asset.
    pub fee_payer_account: RawU256,
    /// The recipient's wallet, set by the first finalize step.
    pub recipient_wallet: Option<RawU256>,
    /// Whether the duplicate-guard address was left open (documented
    /// secondary-verification allowance).
    pub skip_nullifier_pda: bool,
    pub min_batching_rate: u32,
    pub token_id: u16,
    /// Subsidy escrowed from the fee collector, in the statement's token.
    pub subvention: u64,
    /// Cut owed to the fee collector, in the statement's token.
    pub network_fee: u64,
    /// Cost of hashing the output commitment, in lamports.
    pub commitment_hash_fee: u64,
    /// The same cost, in the statement's token.
    pub commitment_hash_fee_token: u64,
    /// Reward for driving the verification, in the statement's token.
    pub proof_verification_fee: u64,
    /// Rent advanced for creating the recipient's associated token
    /// account, in the statement's token.
    pub associated_token_account_rent: u64,
}

impl VerificationAccountData {
    /// An all-zero record with no recipient set.
    pub open spec fn spec_empty(fee_payer: RawU256) -> VerificationAccountData {
        VerificationAccountData {
            fee_payer,
            fee_payer_account: fee_payer,
            recipient_wallet: None,
            skip_nullifier_pda: false,
            min_batching_rate: 0,
            token_id: 0,
            subvention: 0,
            network_fee: 0,
            commitment_hash_fee: 0,
            commitment_hash_fee_token: 0,
            proof_verification_fee: 0,
            associated_token_account_rent: 0,
        }
    }

    pub fn empty(fee_payer: RawU256) -> (r: Self)
        ensures
            r == Self::spec_empty(fee_payer),
    {
        VerificationAccountData {
            fee_payer,
            fee_payer_account: fee_payer,
            recipient_wallet: None,
            skip_nullifier_pda: false,
            min_batching_rate: 0,
            token_id: 0,
            subvention: 0,
            network_fee: 0,
            commitment_hash_fee: 0,
            commitment_hash_fee_token: 0,
            proof_verification_fee: 0,
            associated_token_account_rent: 0,
        }
    }
}

/// One proof verification's persistent state.
pub struct VerificationAccount {
    pub state: VerificationState,
    /// Which verifying key the request runs against; immutable after
    /// creation.
    pub vkey_id: u32,
    /// The statement being proven; immutable after creation.
    pub request: ProofRequest,
    /// The Merkle trees the statement's inputs reference.
    pub tree_indices: [u32; 2],
    pub other_data: VerificationAccountData,
    /// Whether the proof was accepted; absent while the computation
    /// runs, then set exactly once.
    pub is_verified: Option<bool>,
    /// The proof points, populated exactly once by the proof-setup step.
    pub proof: Proof,
    /// The statement's raw public signals, consumed by the stepper.
    pub public_inputs: Vec<RawU256>,
    /// The precomputed input-preparation schedule.
    pub prepare_inputs_instructions: Vec<u16>,
    pub prepare_inputs_instructions_count: u32,
}

impl VerificationAccount {
    /// A blank account for `request`, with every immutable field stored
    /// and the lifecycle at its start.
    pub fn setup(
        fee_payer: RawU256,
        skip_nullifier_pda: bool,
        public_inputs: &Vec<RawU256>,
        instructions: &Vec<u16>,
        vkey_id: u32,
        request: ProofRequest,
        tree_indices: [u32; 2],
    ) -> (r: Self)
        requires
            instructions@.len() <= u32::MAX,
        ensures
            r.state == VerificationState::Created,
            r.vkey_id == vkey_id,
            r.request == request,
            r.tree_indices == tree_indices,
            r.other_data == (VerificationAccountData {
                skip_nullifier_pda,
                ..VerificationAccountData::spec_empty(fee_payer)
            }),
            r.is_verified is None,
            r.public_inputs@ == public_inputs@,
            r.prepare_inputs_instructions@ == instructions@,
            r.prepare_inputs_instructions_count as int == instructions@.len(),
            r.other_data.fee_payer == fee_payer,
            r.other_data.skip_nullifier_pda == skip_nullifier_pda,
    {
        let mut data: VerificationAccountData = VerificationAccountData::empty(fee_payer);
        data.skip_nullifier_pda = skip_nullifier_pda;
        VerificationAccount {
            state: VerificationState::Created,
            vkey_id,
            request,
            tree_indices,
            other_data: data,
            is_verified: None,
            proof: Proof { a: [0, 0, 0, 0], b: [0, 0, 0, 0], c: [0, 0, 0, 0] },
            public_inputs: public_inputs.clone(),
            prepare_inputs_instructions: instructions.clone(),
            prepare_inputs_instructions_count: instructions.len() as u32,
        }
    }

    pub fn get_state(&self) -> (r: VerificationState)
        ensures
            r == self.state,
    {
        self.state
    }

    pub fn set_state(&mut self, state: &VerificationState)
        ensures
            *final(self) == (VerificationAccount { state: *state, ..*old(self) }),
    {
        self.state = *state;
    }

    pub fn get_vkey_id(&self) -> (r: u32)
        ensures
            r == self.vkey_id,
    {
        self.vkey_id
    }

    pub fn get_request(&self) -> (r: &ProofRequest)
        ensures
            *r == self.request,
    {
        &self.request
    }

    pub fn get_other_data(&self) -> (r: VerificationAccountData)
        ensures
            r == self.other_data,
    {
        self.other_data
    }

    pub fn set_other_data(&mut self, data: &VerificationAccountData)
        ensures
            *final(self) == (VerificationAccount { other_data: *data, ..*old(self) }),
    {
        self.other_data = *data;
    }

    pub fn get_is_verified(&self) -> (r: Option<bool>)
        ensures
            r == self.is_verified,
    {
        self.is_verified
    }

    pub fn set_is_verified(&mut self, is_verified: &Option<bool>)
        ensures
            *final(self) == (VerificationAccount { is_verified: *is_verified, ..*old(self) }),
    {
        self.is_verified = *is_verified;
    }

    pub fn get_proof(&self) -> (r: Proof)
        ensures
            r == self.proof,
    {
        self.proof
    }

    pub fn set_proof(&mut self, proof: &Proof)
        ensures
            *final(self) == (VerificationAccount { proof: *proof, ..*old(self) }),
    {
        self.proof = *proof;
    }

    pub fn get_prepare_inputs_instructions_count(&self) -> (r: u32)
        ensures
            r == self.prepare_inputs_instructions_count,
    {
        self.prepare_inputs_instructions_count
    }
}

impl MultiInstancePDAAccount for VerificationAccount {
    fn max_instances() -> (r: u64)
        ensures
            r == VERIFICATION_ACCOUNT_MAX_INSTANCES,
    {
        VERIFICATION_ACCOUNT_MAX_INSTANCES
    }

    fn is_valid(&self, index: u64) -> (r: bool) {
        let m: u64 = Self::max_instances();
        index < m
    }
}

} // verus!
