//! The model of a transaction's instructions, as the instructions sysvar
//! exposes them: the callers of the finalize handlers pass the decoded
//! sibling-instruction list in, and the handlers pin each instruction's
//! position and neighbours against it.
//!
//! Also here: the byte-exact encodings of the two outside transfer
//! instructions the handlers must recognize, and the well-known program
//! addresses they belong to.

use vstd::prelude::*;
use crate::U256;

verus! {

/// One account an instruction touches.
#[derive(Clone, Copy, PartialEq, Debug)]
pub struct AccountMeta {
    pub pubkey: U256,
    pub is_signer: bool,
    pub is_writable: bool,
}

/// One instruction of the transaction, decoded.
#[derive(Clone, PartialEq, Debug)]
pub struct Instruction {
    pub program_id: U256,
    pub accounts: Vec<AccountMeta>,
    pub data: Vec<u8>,
}

/// The native-transfer program's address.
pub open spec fn spec_system_program_id() -> U256 {
    [0u64, 0u64, 0u64, 0u64]
}

pub fn system_program_id() -> (r: U256)
    ensures
        r == spec_system_program_id(),
{
    [0, 0, 0, 0]
}

/// The token program's address.
pub open spec fn spec_token_program_id() -> U256 {
    [0x93a165d7e1f6dd06u64, 0xac79ebce46e1cbd9u64, 0x91375b5fed85b41cu64, 0xa900ff7e85f58c3au64]
}

pub fn token_program_id() -> (r: U256)
    ensures
        r == spec_token_program_id(),
{
    [0x93a165d7e1f6dd06, 0xac79ebce46e1cbd9, 0x91375b5fed85b41c, 0xa900ff7e85f58c3a]
}

/// The associated-token-account program's address.
pub open spec fn spec_associated_token_program_id() -> U256 {
    [0xf189244e8f25978cu64, 0x830d8e1429103dbbu64, 0x8410ffda99135a0bu64, 0x59f8e9dbd87b8e04u64]
}

pub fn associated_token_program_id() -> (r: U256)
    ensures
        r == spec_associated_token_program_id(),
{
    [0xf189244e8f25978c, 0x830d8e1429103dbb, 0x8410ffda99135a0b, 0x59f8e9dbd87b8e04]
}

/// The memo program's address.
pub open spec fn spec_memo_program_id() -> U256 {
    [0x062129995a534a05u64, 0x7c38da6071e8244du64, 0x81bb92bcddb5357cu64, 0x8d44054140a81fe4u64]
}

pub fn memo_program_id() -> (r: U256)
    ensures
        r == spec_memo_program_id(),
{
    [0x062129995a534a05, 0x7c38da6071e8244d, 0x81bb92bcddb5357c, 0x8d44054140a81fe4]
}

/// Every instruction payload of this program starts with the ordinal of
/// its variant; the finalize handlers pin sibling instructions by these
/// ordinals.
pub const INIT_VERIFICATION_INDEX: u8 = 0;

pub const INIT_VERIFICATION_TRANSFER_FEE_INDEX: u8 = 1;

pub const INIT_VERIFICATION_PROOF_INDEX: u8 = 2;

pub const COMPUTE_VERIFICATION_INDEX: u8 = 3;

pub const FINALIZE_VERIFICATION_SEND_INDEX: u8 = 4;

pub const FINALIZE_VERIFICATION_SEND_NULLIFIER_INDEX: u8 = 5;

pub const FINALIZE_VERIFICATION_TRANSFER_LAMPORTS_INDEX: u8 = 6;

pub const FINALIZE_VERIFICATION_TRANSFER_TOKEN_INDEX: u8 = 7;

/// Equality of two byte strings.
pub fn bytes_eq(a: &Vec<u8>, b: &Vec<u8>) -> (r: bool)
    ensures
        r <==> a@ == b@,
{
    let n: usize = a.len();
    if n != b.len() {
        return false;
    }
    let mut i: usize = 0;
    while i < n
        invariant
            n == a@.len(),
            n == b@.len(),
            i <= n,
            forall|j: int| 0 <= j < i ==> a@[j] == b@[j],
        decreases n - i,
    {
        if a[i] != b[i] {
            return false;
        }
        i = i + 1;
    }
    proof {
        assert(a@ =~= b@);
    }
    true
}

/// The native transfer instruction's wire form: discriminant 2 as four
/// little-endian bytes, then the lamport amount as eight.
pub open spec fn spec_system_transfer_data(lamports: u64) -> Seq<u8> {
    vstd::bytes::spec_u32_to_le_bytes(2u32) + vstd::bytes::spec_u64_to_le_bytes(lamports)
}

/// Builds the native transfer instruction `from -> to` over `lamports`,
/// byte-exactly as the system program defines it.
pub fn system_instruction_transfer(from: U256, to: U256, lamports: u64) -> (r: Instruction)
    ensures
        r.program_id == spec_system_program_id(),
        r.accounts@ =~= seq![
            AccountMeta { pubkey: from, is_signer: true, is_writable: true },
            AccountMeta { pubkey: to, is_signer: false, is_writable: true },
        ],
        r.data@ == spec_system_transfer_data(lamports),
{
    let mut data: Vec<u8> = vstd::bytes::u32_to_le_bytes(2);
    let mut amount: Vec<u8> = vstd::bytes::u64_to_le_bytes(lamports);
    data.append(&mut amount);
    let mut accounts: Vec<AccountMeta> = Vec::new();
    accounts.push(AccountMeta { pubkey: from, is_signer: true, is_writable: true });
    accounts.push(AccountMeta { pubkey: to, is_signer: false, is_writable: true });
    Instruction { program_id: system_program_id(), accounts, data }
}

/// The token transfer instruction's wire form: discriminant 3, then the
/// amount as eight little-endian bytes.
pub open spec fn spec_token_transfer_data(amount: u64) -> Seq<u8> {
    seq![3u8] + vstd::bytes::spec_u64_to_le_bytes(amount)
}

/// Builds the token transfer instruction `source -> destination` signed
/// by `owner`, byte-exactly as the token program defines it.
pub fn token_instruction_transfer(source: U256, destination: U256, owner: U256, amount: u64) -> (r:
    Instruction)
    ensures
        r.program_id == spec_token_program_id(),
        r.accounts@ =~= seq![
            AccountMeta { pubkey: source, is_signer: false, is_writable: true },
            AccountMeta { pubkey: destination, is_signer: false, is_writable: true },
            AccountMeta { pubkey: owner, is_signer: true, is_writable: false },
        ],
        r.data@ == spec_token_transfer_data(amount),
{
    let mut data: Vec<u8> = Vec::new();
    data.push(3);
    let mut amount_bytes: Vec<u8> = vstd::bytes::u64_to_le_bytes(amount);
    data.append(&mut amount_bytes);
    proof {
        assert(data@ =~= spec_token_transfer_data(amount));
    }
    let mut accounts: Vec<AccountMeta> = Vec::new();
    accounts.push(AccountMeta { pubkey: source, is_signer: false, is_writable: true });
    accounts.push(AccountMeta { pubkey: destination, is_signer: false, is_writable: true });
    accounts.push(AccountMeta { pubkey: owner, is_signer: true, is_writable: false });
    Instruction { program_id: token_program_id(), accounts, data }
}

/// A memo instruction: the memo program with the bytes as payload and no
/// accounts.
pub fn memo_instruction(memo: &Vec<u8>) -> (r: Instruction)
    ensures
        r.program_id == spec_memo_program_id(),
        r.accounts@ =~= Seq::<AccountMeta>::empty(),
        r.data@ == memo@,
{
    Instruction { program_id: memo_program_id(), accounts: Vec::new(), data: memo.clone() }
}

} // verus!
