//! The statement types a proof speaks about: join-split public inputs,
//! the send and migrate statements, the proof itself, and the binding
//! hash over the send statement's off-circuit data.

use vstd::prelude::*;
use crate::U256;
use crate::error::ElusivError;
use crate::fields::{RawU256, u256_le_bytes, u256_from_bytes, u256_to_le_bytes, u256_from_le_bytes};
use crate::crypto::{sha256, sha256_of, pda_of, try_find_program_address};

verus! {

/// Most input commitments a join-split statement may spend.
pub const JOIN_SPLIT_MAX_N_ARITY: usize = 4;

/// Verifying-key id of the send circuit.
pub const SEND_QUADRA_VKEY_ID: u32 = 0;

/// Verifying-key id of the migrate circuit.
pub const MIGRATE_UNARY_VKEY_ID: u32 = 1;

/// One spent input: its nullifier hash, and the root of the tree it was
/// spent from. Only the first distinct root of a statement is mandatory;
/// a missing root means "same tree as the first input".
#[derive(Clone, Copy, PartialEq, Debug)]
pub struct InputCommitment {
    /// The Merkle root, in raw form.
    pub root: Option<RawU256>,
    /// The input's nullifier hash, in raw form.
    pub nullifier_hash: RawU256,
}

/// The join-split core of a statement: `N` spent inputs conserving value
/// into one output commitment plus a declared fee.
#[derive(Clone, PartialEq, Debug)]
pub struct JoinSplitPublicInputs {
    pub input_commitments: Vec<InputCommitment>,
    /// The fresh output commitment, in raw form.
    pub output_commitment: RawU256,
    pub fee_version: u32,
    /// The amount paid out to the recipient.
    pub amount: u64,
    /// The declared fee (must cover the computed minimum).
    pub fee: u64,
    /// The asset: 0 is the native token, anything else a fungible token.
    pub token_id: u16,
}

impl JoinSplitPublicInputs {
    /// Amount plus fee: everything the statement takes out of the pool.
    pub open spec fn spec_total_amount(self) -> int {
        self.amount + self.fee
    }

    pub fn total_amount(&self) -> (r: u64)
        requires
            self.spec_total_amount() <= u64::MAX,
        ensures
            r as int == self.spec_total_amount(),
    {
        self.amount + self.fee
    }

    /// The seed list of the statement's duplicate-guard address: the raw
    /// bytes of every input's nullifier hash.
    pub open spec fn nullifier_duplicate_seeds(self) -> Seq<Seq<u8>> {
        self.input_commitments@.map_values(
            |c: InputCommitment| u256_le_bytes(c.nullifier_hash.view_raw()),
        )
    }

    /// The duplicate-guard address of this statement under `program_id`:
    /// the derived address over [`Self::nullifier_duplicate_seeds`].
    pub open spec fn spec_nullifier_duplicate_pda(self, program_id: U256) -> Option<(Seq<u8>, u8)> {
        pda_of(self.nullifier_duplicate_seeds(), u256_le_bytes(program_id))
    }

    /// Derives the statement's duplicate-guard address; fails with
    /// `InvalidAccount` exactly when no bump seed yields an address.
    pub fn nullifier_duplicate_pda(&self, program_id: &U256) -> (r: Result<(U256, u8), ElusivError>)
        ensures
            match self.spec_nullifier_duplicate_pda(*program_id) {
                Some((key, bump)) => r == Result::<(U256, u8), ElusivError>::Ok(
                    (u256_from_bytes(key), bump),
                ),
                None => r == Result::<(U256, u8), ElusivError>::Err(ElusivError::InvalidAccount),
            },
    {
        let mut seeds: Vec<Vec<u8>> = Vec::new();
        let n: usize = self.input_commitments.len();
        let mut i: usize = 0;
        while i < n
            invariant
                n == self.input_commitments@.len(),
                i <= n,
                seeds@.len() == i,
                forall|j: int|
                    0 <= j < i ==> seeds@[j]@ == u256_le_bytes(
                        self.input_commitments@[j].nullifier_hash.view_raw(),
                    ),
            decreases n - i,
        {
            let raw: U256 = self.input_commitments[i].nullifier_hash.skip_mr();
            seeds.push(u256_to_le_bytes(&raw));
            i = i + 1;
        }
        proof {
            assert(seeds.deep_view() =~~= self.nullifier_duplicate_seeds());
        }
        let pid_bytes: Vec<u8> = u256_to_le_bytes(program_id);
        match try_find_program_address(&seeds, &pid_bytes) {
            Some((key, bump)) => Ok((u256_from_le_bytes(&key), bump)),
            None => Err(ElusivError::InvalidAccount),
        }
    }

    /// The first `i` inputs' contribution to the raw public signals: for
    /// every input its root (the zero word where the input carries none)
    /// and its nullifier hash.
    pub open spec fn spec_public_signals_prefix(inputs: Seq<InputCommitment>, i: int) -> Seq<
        RawU256,
    >
        decreases i,
    {
        if i <= 0 {
            Seq::empty()
        } else {
            Self::spec_public_signals_prefix(inputs, i - 1) + seq![
                match inputs[i - 1].root {
                    Some(root) => root,
                    None => RawU256([0u64, 0u64, 0u64, 0u64]),
                },
                inputs[i - 1].nullifier_hash,
            ]
        }
    }

    /// The statement's raw public signals, in wire order: every input's
    /// root and nullifier hash, then the output commitment.
    pub open spec fn spec_public_signals(self) -> Seq<RawU256> {
        Self::spec_public_signals_prefix(
            self.input_commitments@,
            self.input_commitments@.len() as int,
        ).push(self.output_commitment)
    }

    /// Serializes the statement's raw public signals.
    pub fn public_signals(&self) -> (r: Vec<RawU256>)
        ensures
            r@ == self.spec_public_signals(),
    {
        let ghost inputs = self.input_commitments@;
        let n: usize = self.input_commitments.len();
        let mut out: Vec<RawU256> = Vec::new();
        let mut i: usize = 0;
        while i < n
            invariant
                n == inputs.len(),
                inputs == self.input_commitments@,
                i <= n,
                out@ == Self::spec_public_signals_prefix(inputs, i as int),
            decreases n - i,
        {
            let root: RawU256 = match self.input_commitments[i].root {
                Some(root) => root,
                None => RawU256::new([0, 0, 0, 0]),
            };
            out.push(root);
            out.push(self.input_commitments[i].nullifier_hash);
            proof {
                assert(out@ =~= Self::spec_public_signals_prefix(inputs, i + 1));
            }
            i = i + 1;
        }
        out.push(self.output_commitment);
        out
    }
}

/// The public statement of a shielded send: the join-split core plus the
/// recipient-binding data.
#[derive(Clone, PartialEq, Debug)]
pub struct SendPublicInputs {
    pub join_split: JoinSplitPublicInputs,
    /// Whether the funds go to the recipient's associated token account.
    pub recipient_is_associated_token_account: bool,
    /// Binding hash over the off-circuit finalize data; recomputed and
    /// checked at finalize time.
    pub hashed_inputs: U256,
    /// The timestamp the sender asserted, pruned at validation.
    pub current_time: u64,
    /// Whether payout runs through the fee payer as a relay, pinned by
    /// the transaction's last instruction.
    pub solana_pay_transfer: bool,
}

impl SendPublicInputs {
    /// The statement's structural constraint: it spends at least one and
    /// at most the maximum arity of input commitments.
    pub open spec fn spec_verify_additional_constraints(self) -> bool {
        &&& self.join_split.input_commitments@.len() >= 1
        &&& self.join_split.input_commitments@.len() <= JOIN_SPLIT_MAX_N_ARITY
    }

    pub fn verify_additional_constraints(&self) -> (r: bool)
        ensures
            r == self.spec_verify_additional_constraints(),
    {
        let n: usize = self.join_split.input_commitments.len();
        1 <= n && n <= JOIN_SPLIT_MAX_N_ARITY
    }
}

/// The public statement of a migration between nullifier-set Merkle
/// trees; the feature is not available yet and every handler rejects it.
#[derive(Clone, PartialEq, Debug)]
pub struct MigratePublicInputs {
    pub join_split: JoinSplitPublicInputs,
    pub current_nsmt_root: RawU256,
    pub next_nsmt_root: RawU256,
}

/// The three proof points, carried opaquely to the partial-verification
/// stepper.
#[derive(Clone, Copy, PartialEq, Debug)]
pub struct Proof {
    pub a: U256,
    pub b: U256,
    pub c: U256,
}

/// The statement a verification request proves.
#[derive(Clone, PartialEq, Debug)]
pub enum ProofRequest {
    Send(SendPublicInputs),
    Migrate(MigratePublicInputs),
}

impl ProofRequest {
    /// The join-split core of whichever statement this is.
    pub open spec fn spec_join_split(self) -> JoinSplitPublicInputs {
        match self {
            ProofRequest::Send(public_inputs) => public_inputs.join_split,
            ProofRequest::Migrate(public_inputs) => public_inputs.join_split,
        }
    }

    pub fn join_split_inputs(&self) -> (r: &JoinSplitPublicInputs)
        ensures
            *r == self.spec_join_split(),
    {
        match self {
            ProofRequest::Send(public_inputs) => &public_inputs.join_split,
            ProofRequest::Migrate(public_inputs) => &public_inputs.join_split,
        }
    }

    pub fn fee_version(&self) -> (r: u32)
        ensures
            r == self.spec_join_split().fee_version,
    {
        self.join_split_inputs().fee_version
    }

    /// The amount the fee computation is based on.
    pub fn proof_fee_amount(&self) -> (r: u64)
        ensures
            r == match *self {
                ProofRequest::Send(_) => self.spec_join_split().amount,
                ProofRequest::Migrate(_) => 0u64,
            },
    {
        match self {
            ProofRequest::Send(request) => request.join_split.amount,
            _ => 0,
        }
    }

    /// The id of the verifying key the statement's circuit needs.
    pub fn vkey_id(&self) -> (r: u32)
        ensures
            r == match *self {
                ProofRequest::Send(_) => SEND_QUADRA_VKEY_ID,
                ProofRequest::Migrate(_) => MIGRATE_UNARY_VKEY_ID,
            },
    {
        match self {
            ProofRequest::Send(_) => SEND_QUADRA_VKEY_ID,
            ProofRequest::Migrate(_) => MIGRATE_UNARY_VKEY_ID,
        }
    }
}

/// The byte string the binding hash digests: the five 256-bit values in
/// fixed order, the associated-token-account flag, then the memo bytes if
/// any.
pub open spec fn spec_hashed_inputs_bytes(
    recipient: U256,
    identifier: U256,
    iv: U256,
    encrypted_owner: U256,
    transaction_reference: U256,
    recipient_is_associated_token_account: bool,
    memo: Option<Seq<u8>>,
) -> Seq<u8> {
    u256_le_bytes(recipient) + u256_le_bytes(identifier) + u256_le_bytes(iv) + u256_le_bytes(
        encrypted_owner,
    ) + u256_le_bytes(transaction_reference) + seq![
        if recipient_is_associated_token_account {
            1u8
        } else {
            0u8
        },
    ] + match memo {
        Some(m) => m,
        None => Seq::<u8>::empty(),
    }
}

/// The binding hash itself: the SHA-256 digest of the bytes above, read
/// as limbs, with the top three bits cleared so the value fits the field.
pub open spec fn spec_hashed_inputs(
    recipient: U256,
    identifier: U256,
    iv: U256,
    encrypted_owner: U256,
    transaction_reference: U256,
    recipient_is_associated_token_account: bool,
    memo: Option<Seq<u8>>,
) -> U256 {
    let digest = u256_from_bytes(
        sha256_of(
            spec_hashed_inputs_bytes(
                recipient,
                identifier,
                iv,
                encrypted_owner,
                transaction_reference,
                recipient_is_associated_token_account,
                memo,
            ),
        ),
    );
    [digest[0], digest[1], digest[2], digest[3] & 0x1FFF_FFFF_FFFF_FFFF]
}

/// Computes the binding hash over the send statement's off-circuit data.
///
/// The statement declares this value as `hashed_inputs`; the finalize
/// handler recomputes it from the accounts actually supplied and rejects
/// a mismatch, which pins recipient, identifier, iv, encrypted owner,
/// transaction reference and memo to what the proof was built over.
pub fn generate_hashed_inputs(
    recipient: U256,
    identifier: U256,
    iv: U256,
    encrypted_owner: U256,
    transaction_reference: U256,
    recipient_is_associated_token_account: bool,
    memo: &Option<Vec<u8>>,
) -> (r: U256)
    ensures
        r == spec_hashed_inputs(
            recipient,
            identifier,
            iv,
            encrypted_owner,
            transaction_reference,
            recipient_is_associated_token_account,
            match *memo {
                Some(ref m) => Some(m@),
                None => None,
            },
        ),
{
    let mut data: Vec<u8> = u256_to_le_bytes(&recipient);
    let mut b: Vec<u8> = u256_to_le_bytes(&identifier);
    data.append(&mut b);
    let mut b: Vec<u8> = u256_to_le_bytes(&iv);
    data.append(&mut b);
    let mut b: Vec<u8> = u256_to_le_bytes(&encrypted_owner);
    data.append(&mut b);
    let mut b: Vec<u8> = u256_to_le_bytes(&transaction_reference);
    data.append(&mut b);
    data.push(if recipient_is_associated_token_account { 1 } else { 0 });
    match memo {
        Some(m) => {
            let mut mc: Vec<u8> = m.clone();
            data.append(&mut mc);
        }
        None => {}
    }
    proof {
        assert(data@ =~= spec_hashed_inputs_bytes(
            recipient,
            identifier,
            iv,
            encrypted_owner,
            transaction_reference,
            recipient_is_associated_token_account,
            match *memo {
                Some(ref m) => Some(m@),
                None => None,
            },
        ));
    }
    let digest: Vec<u8> = sha256(&data);
    let limbs: U256 = u256_from_le_bytes(&digest);
    [limbs[0], limbs[1], limbs[2], limbs[3] & 0x1FFF_FFFF_FFFF_FFFF]
}

} // verus!
