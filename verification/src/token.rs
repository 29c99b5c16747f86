//! Multi-asset amounts and the decoded views of the accounts that hold
//! them.
//!
//! Asset id 0 is the native token (lamports); any other id is a fungible
//! token whose mint the registry lists. By convention, where a handler
//! works on the native asset the token-account view passed to it carries
//! the wallet's own key and its lamport balance.

use vstd::prelude::*;
use crate::U256;
use crate::error::ElusivError;
use crate::fields::u256_to_le_bytes;
use crate::crypto::{pda_of, try_find_program_address};
use crate::fields::{u256_le_bytes, u256_from_bytes, u256_from_le_bytes};
use crate::instructions::{spec_token_program_id, token_program_id, spec_associated_token_program_id, associated_token_program_id};
use crate::u256_eq;

verus! {

/// An amount of one asset.
#[derive(Clone, Copy, PartialEq, Debug)]
pub struct Token {
    pub id: u16,
    pub amount: u64,
}

impl Token {
    pub fn new(id: u16, amount: u64) -> (r: Self)
        ensures
            r == (Token { id, amount }),
    {
        Token { id, amount }
    }

    pub fn amount(&self) -> (r: u64)
        ensures
            r == self.amount,
    {
        self.amount
    }

    /// Sum of two amounts; fails with `MathError` exactly on an asset
    /// mismatch or overflow.
    pub fn checked_add(&self, other: &Token) -> (r: Result<Token, ElusivError>)
        ensures
            self.id == other.id && self.amount + other.amount <= u64::MAX ==> r == Result::<
                Token,
                ElusivError,
            >::Ok(Token { id: self.id, amount: (self.amount + other.amount) as u64 }),
            self.id != other.id || self.amount + other.amount > u64::MAX ==> r == Result::<
                Token,
                ElusivError,
            >::Err(ElusivError::MathError),
    {
        if self.id != other.id {
            return Err(ElusivError::MathError);
        }
        if self.amount > u64::MAX - other.amount {
            return Err(ElusivError::MathError);
        }
        Ok(Token { id: self.id, amount: self.amount + other.amount })
    }

    /// Difference of two amounts; fails with `MathError` exactly on an
    /// asset mismatch or underflow.
    pub fn checked_sub(&self, other: &Token) -> (r: Result<Token, ElusivError>)
        ensures
            self.id == other.id && self.amount >= other.amount ==> r == Result::<
                Token,
                ElusivError,
            >::Ok(Token { id: self.id, amount: (self.amount - other.amount) as u64 }),
            self.id != other.id || self.amount < other.amount ==> r == Result::<
                Token,
                ElusivError,
            >::Err(ElusivError::MathError),
    {
        if self.id != other.id {
            return Err(ElusivError::MathError);
        }
        if self.amount < other.amount {
            return Err(ElusivError::MathError);
        }
        Ok(Token { id: self.id, amount: self.amount - other.amount })
    }
}

/// Checked lamport addition; fails with `MathError` exactly on overflow.
pub fn lamports_add(a: u64, b: u64) -> (r: Result<u64, ElusivError>)
    ensures
        a + b <= u64::MAX ==> r == Result::<u64, ElusivError>::Ok((a + b) as u64),
        a + b > u64::MAX ==> r == Result::<u64, ElusivError>::Err(ElusivError::MathError),
{
    if a > u64::MAX - b {
        Err(ElusivError::MathError)
    } else {
        Ok(a + b)
    }
}

/// A wallet or program account, as the handlers see it: its address and
/// lamport balance.
#[derive(Clone, Copy, PartialEq, Debug)]
pub struct AccountState {
    pub key: U256,
    pub lamports: u64,
}

/// The decoded view of a token account (or, for the native asset, of the
/// wallet itself): address, balance, the asset its mint corresponds to,
/// the wallet that owns it, and whether the account exists on chain.
#[derive(Clone, Copy, PartialEq, Debug)]
pub struct TokenAccount {
    pub key: U256,
    pub amount: u64,
    /// The asset the account's mint corresponds to; 0 where the view
    /// stands for the wallet's own lamports.
    pub token_id: u16,
    /// The wallet the token account belongs to.
    pub owner: U256,
    pub exists: bool,
}

/// The registry of supported assets: `mints[id]` is the mint address of
/// asset `id`; entry 0 stands for the native token and is never read.
pub struct TokenRegistry {
    pub mints: Vec<U256>,
}

impl TokenRegistry {
    /// The mint of asset `token_id`; fails with `InvalidInstructionData`
    /// exactly when the id is unknown or names the native asset.
    pub fn mint_of(&self, token_id: u16) -> (r: Result<U256, ElusivError>)
        ensures
            1 <= token_id && (token_id as int) < self.mints@.len() ==> r == Result::<
                U256,
                ElusivError,
            >::Ok(self.mints@[token_id as int]),
            !(1 <= token_id && (token_id as int) < self.mints@.len()) ==> r == Result::<
                U256,
                ElusivError,
            >::Err(ElusivError::InvalidInstructionData),
    {
        if token_id >= 1 && (token_id as usize) < self.mints.len() {
            Ok(self.mints[token_id as usize])
        } else {
            Err(ElusivError::InvalidInstructionData)
        }
    }
}

/// Whether `account` can stand for asset `token_id`: any account for the
/// native asset; for a token, an existing account whose mint matches the
/// registry.
pub open spec fn spec_token_account_valid(
    account: TokenAccount,
    token_id: u16,
    registry: TokenRegistry,
) -> bool {
    if token_id == 0 {
        true
    } else {
        &&& account.exists
        &&& account.token_id == token_id
        &&& 1 <= token_id
        &&& (token_id as int) < registry.mints@.len()
    }
}

/// Checks a supplied token account against the statement's asset.
pub fn verify_token_account(account: &TokenAccount, token_id: u16, registry: &TokenRegistry) -> (r:
    bool)
    ensures
        r == spec_token_account_valid(*account, token_id, *registry),
{
    if token_id == 0 {
        true
    } else {
        account.exists && account.token_id == token_id && 1 <= token_id && (token_id as usize)
            < registry.mints.len()
    }
}

/// The associated token account of `wallet` for `mint`: the derived
/// address over wallet, token program and mint under the
/// associated-token program.
pub open spec fn spec_associated_token_address(wallet: U256, mint: U256) -> Option<(Seq<u8>, u8)> {
    pda_of(
        seq![
            u256_le_bytes(wallet),
            u256_le_bytes(spec_token_program_id()),
            u256_le_bytes(mint),
        ],
        u256_le_bytes(spec_associated_token_program_id()),
    )
}

/// Derives the associated token account address of `wallet` for `mint`;
/// fails with `InvalidAccount` exactly when no bump seed works.
pub fn get_associated_token_address(wallet: &U256, mint: &U256) -> (r: Result<U256, ElusivError>)
    ensures
        match spec_associated_token_address(*wallet, *mint) {
            Some((key, _bump)) => r == Result::<U256, ElusivError>::Ok(u256_from_bytes(key)),
            None => r == Result::<U256, ElusivError>::Err(ElusivError::InvalidAccount),
        },
{
    let mut seeds: Vec<Vec<u8>> = Vec::new();
    seeds.push(u256_to_le_bytes(wallet));
    let tpid: U256 = token_program_id();
    seeds.push(u256_to_le_bytes(&tpid));
    seeds.push(u256_to_le_bytes(mint));
    let apid: U256 = associated_token_program_id();
    let apid_bytes: Vec<u8> = u256_to_le_bytes(&apid);
    proof {
        assert(seeds.deep_view() =~~= seq![
            u256_le_bytes(*wallet),
            u256_le_bytes(spec_token_program_id()),
            u256_le_bytes(*mint),
        ]);
    }
    match try_find_program_address(&seeds, &apid_bytes) {
        Some((key, _bump)) => Ok(u256_from_le_bytes(&key)),
        None => Err(ElusivError::InvalidAccount),
    }
}

/// Whether `account_key` is the program's token account for `pool` and
/// asset `token_id`: the pool's own address for the native asset, its
/// associated token account otherwise.
pub open spec fn spec_program_token_account_valid(
    pool_key: U256,
    account_key: U256,
    token_id: u16,
    registry: TokenRegistry,
) -> bool {
    if token_id == 0 {
        account_key == pool_key
    } else {
        &&& 1 <= token_id
        &&& (token_id as int) < registry.mints@.len()
        &&& match spec_associated_token_address(pool_key, registry.mints@[token_id as int]) {
            Some((key, _bump)) => account_key == u256_from_bytes(key),
            None => false,
        }
    }
}

/// Checks that `account_key` is the program's token account for `pool`
/// and the statement's asset; fails with `InvalidAccount` otherwise.
pub fn verify_program_token_account(
    pool_key: &U256,
    account_key: &U256,
    token_id: u16,
    registry: &TokenRegistry,
) -> (r: Result<(), ElusivError>)
    ensures
        spec_program_token_account_valid(*pool_key, *account_key, token_id, *registry) ==> r
            == Result::<(), ElusivError>::Ok(()),
        !spec_program_token_account_valid(*pool_key, *account_key, token_id, *registry) ==> r
            == Result::<(), ElusivError>::Err(ElusivError::InvalidAccount),
{
    if token_id == 0 {
        if u256_eq(pool_key, account_key) {
            Ok(())
        } else {
            Err(ElusivError::InvalidAccount)
        }
    } else {
        let registry_with_id: bool = 1 <= token_id && (token_id as usize) < registry.mints.len();
        if !registry_with_id {
            return Err(ElusivError::InvalidAccount);
        }
        let mint: U256 = registry.mints[token_id as usize];
        match get_associated_token_address(pool_key, &mint) {
            Ok(expected) => {
                if u256_eq(account_key, &expected) {
                    Ok(())
                } else {
                    Err(ElusivError::InvalidAccount)
                }
            }
            Err(e) => Err(e),
        }
    }
}

/// Whether `account_key` is the associated token account of `wallet` for
/// asset `token_id`; fails with `InvalidInstructionData` exactly when the
/// registry lacks the asset, and with `InvalidAccount` exactly when no
/// bump seed yields an address.
pub fn verify_associated_token_account(
    wallet_key: &U256,
    account_key: &U256,
    token_id: u16,
    registry: &TokenRegistry,
) -> (r: Result<bool, ElusivError>)
    ensures
        r == (if !(1 <= token_id && (token_id as int) < registry.mints@.len()) {
            Err::<bool, ElusivError>(ElusivError::InvalidInstructionData)
        } else {
            match spec_associated_token_address(*wallet_key, registry.mints@[token_id as int]) {
                None => Err::<bool, ElusivError>(ElusivError::InvalidAccount),
                Some((ata, _bump)) => Ok::<bool, ElusivError>(*account_key == u256_from_bytes(ata)),
            }
        }),
{
    let mint: U256 = match registry.mint_of(token_id) {
        Ok(m) => m,
        Err(e) => {
            return Err(e);
        },
    };
    match get_associated_token_address(wallet_key, &mint) {
        Ok(expected) => Ok(u256_eq(account_key, &expected)),
        Err(e) => Err(e),
    }
}

} // verus!
