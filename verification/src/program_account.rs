//! The persisted account layouts' common prefix and the arithmetic for
//! data too large for one account.
//!
//! Every program account starts with a small header (bump seed, format
//! version, initialized flag). Data beyond the single-account limit is
//! split across sub-accounts of a fixed size; the functions here place a
//! global element index into (account, local offset) and size the
//! accounts.

use vstd::prelude::*;
use crate::U256;
use crate::error::ElusivError;
use crate::fields::{u256_from_bytes, u256_le_bytes, u256_to_le_bytes};
use crate::crypto::{pda_of, cpa_of, try_find_program_address, create_program_address};

verus! {

/// An account type of a fixed byte size.
pub trait SizedAccount {
    /// The account's size in bytes.
    fn size() -> usize;
}

impl<const COUNT: usize> SizedAccount for MultiAccountAccountFields<COUNT> {
    fn size() -> (r: usize)
        ensures
            COUNT <= (usize::MAX - 3) / 32 ==> r == 3 + COUNT * 32,
    {
        if COUNT <= (usize::MAX - 3) / 32 {
            proof {
                vstd::arithmetic::div_mod::lemma_fundamental_div_mod(
                    (usize::MAX - 3) as int,
                    32int,
                );
                vstd::arithmetic::div_mod::lemma_mod_bound((usize::MAX - 3) as int, 32int);
            }
            3 + COUNT * 32
        } else {
            usize::MAX
        }
    }
}

/// An account type that exists in up to a fixed number of instances per
/// associated key, so many of them can progress in parallel.
pub trait MultiInstancePDAAccount {
    /// The most instances one key may own.
    fn max_instances() -> u64;

    /// Whether `index` names a legal instance.
    fn is_valid(&self, index: u64) -> (r: bool)
        ensures
            r == exists|m: u64| call_ensures(Self::max_instances, (), m) && index < m,
    ;
}

impl SizedAccount for PDAAccountFields {
    fn size() -> (r: usize)
        ensures
            r == 3,
    {
        3
    }
}

/// The header fields every program account starts with.
#[derive(Clone, Copy, PartialEq, Debug)]
pub struct PDAAccountFields {
    /// The stored bump seed (saves re-deriving the address).
    pub bump_seed: u8,
    /// Format version, for future migrations.
    pub version: u8,
    /// Whether the account's payload was initialized.
    pub initialized: bool,
}

impl PDAAccountFields {
    /// Parses the three header bytes off an account's data; fails with
    /// `InvalidInstructionData` exactly when the data is shorter than the
    /// header or the flag byte is neither 0 nor 1.
    pub fn new(data: &[u8]) -> (r: Result<PDAAccountFields, ElusivError>)
        ensures
            match r {
                Ok(fields) => {
                    &&& data@.len() >= 3
                    &&& (data@[2] == 0 || data@[2] == 1)
                    &&& fields == (PDAAccountFields {
                        bump_seed: data@[0],
                        version: data@[1],
                        initialized: data@[2] == 1,
                    })
                },
                Err(e) => {
                    &&& e == ElusivError::InvalidInstructionData
                    &&& (data@.len() < 3 || !(data@[2] == 0 || data@[2] == 1))
                },
            },
    {
        if data.len() < 3 {
            return Err(ElusivError::InvalidInstructionData);
        }
        let flag: u8 = data[2];
        if flag != 0 && flag != 1 {
            return Err(ElusivError::InvalidInstructionData);
        }
        Ok(PDAAccountFields { bump_seed: data[0], version: data[1], initialized: flag == 1 })
    }
}

/// The header of an account that fronts `COUNT` sub-accounts: the common
/// header plus the sub-accounts' addresses.
pub struct MultiAccountAccountFields<const COUNT: usize> {
    pub bump_seed: u8,
    pub version: u8,
    pub initialized: bool,
    pub pubkeys: Vec<U256>,
}

impl<const COUNT: usize> MultiAccountAccountFields<COUNT> {
    /// Parses the header and the `COUNT` sub-account addresses (32
    /// little-endian bytes each) off an account's data; fails with
    /// `InvalidInstructionData` exactly when the data is too short or the
    /// flag byte is neither 0 nor 1.
    pub fn new(data: &[u8]) -> (r: Result<Self, ElusivError>)
        ensures
            match r {
                Ok(fields) => {
                    &&& data@.len() >= 3 + COUNT * 32
                    &&& (data@[2] == 0 || data@[2] == 1)
                    &&& fields.bump_seed == data@[0]
                    &&& fields.version == data@[1]
                    &&& fields.initialized == (data@[2] == 1)
                    &&& fields.pubkeys@.len() == COUNT
                    &&& forall|k: int|
                        0 <= k < COUNT ==> fields.pubkeys@[k] == u256_from_bytes(
                            data@.subrange(3 + k * 32, 3 + k * 32 + 32),
                        )
                },
                Err(e) => {
                    &&& e == ElusivError::InvalidInstructionData
                    &&& (data@.len() < 3 + COUNT * 32 || data@.len() < 3 || !(data@[2] == 0
                        || data@[2] == 1))
                },
            },
    {
        if data.len() < 3 || COUNT > (usize::MAX - 3) / 32 {
            return Err(ElusivError::InvalidInstructionData);
        }
        proof {
            vstd::arithmetic::div_mod::lemma_fundamental_div_mod(
                (usize::MAX - 3) as int,
                32int,
            );
            vstd::arithmetic::div_mod::lemma_mod_bound((usize::MAX - 3) as int, 32int);
        }
        if data.len() < 3 + COUNT * 32 {
            return Err(ElusivError::InvalidInstructionData);
        }
        let flag: u8 = data[2];
        if flag != 0 && flag != 1 {
            return Err(ElusivError::InvalidInstructionData);
        }
        let mut pubkeys: Vec<U256> = Vec::new();
        let mut k: usize = 0;
        while k < COUNT
            invariant
                k <= COUNT,
                3 + COUNT * 32 <= usize::MAX,
                3 + COUNT * 32 <= data@.len(),
                pubkeys@.len() == k,
                forall|j: int|
                    0 <= j < k ==> pubkeys@[j] == u256_from_bytes(
                        data@.subrange(3 + j * 32, 3 + j * 32 + 32),
                    ),
            decreases COUNT - k,
        {
            let off: usize = 3 + k * 32;
            let chunk: Vec<u8> = vstd::slice::slice_to_vec(
                vstd::slice::slice_subrange(data, off, off + 32),
            );
            let key: U256 = crate::fields::u256_from_le_bytes(&chunk);
            pubkeys.push(key);
            k = k + 1;
        }
        Ok(
            MultiAccountAccountFields {
                bump_seed: data[0],
                version: data[1],
                initialized: flag == 1,
                pubkeys,
            },
        )
    }

    /// The sub-accounts' addresses.
    pub fn all_pubkeys(&self) -> (r: Vec<U256>)
        ensures
            r@ == self.pubkeys@,
    {
        let n: usize = self.pubkeys.len();
        let mut out: Vec<U256> = Vec::new();
        let mut i: usize = 0;
        while i < n
            invariant
                n == self.pubkeys@.len(),
                i <= n,
                out@ =~= self.pubkeys@.subrange(0, i as int),
            decreases n - i,
        {
            out.push(self.pubkeys[i]);
            i = i + 1;
        }
        proof {
            assert(out@ =~= self.pubkeys@);
        }
        out
    }
}

/// The largest account size the platform permits (10 MiB).
pub const MAX_PERMITTED_DATA_LENGTH: usize = 10485760;

/// The largest account size that holds a whole number of elements of
/// `element_size` bytes.
pub fn max_account_size(element_size: usize) -> (r: usize)
    requires
        element_size >= 1,
    ensures
        r == (MAX_PERMITTED_DATA_LENGTH as int / element_size as int) * element_size as int,
{
    proof {
        vstd::arithmetic::div_mod::lemma_fundamental_div_mod(
            MAX_PERMITTED_DATA_LENGTH as int,
            element_size as int,
        );
        vstd::arithmetic::div_mod::lemma_mod_bound(
            MAX_PERMITTED_DATA_LENGTH as int,
            element_size as int,
        );
        vstd::arithmetic::div_mod::lemma_div_pos_is_pos(
            MAX_PERMITTED_DATA_LENGTH as int,
            element_size as int,
        );
        let q = MAX_PERMITTED_DATA_LENGTH as int / element_size as int;
        let e = element_size as int;
        let r = MAX_PERMITTED_DATA_LENGTH as int % e;
        assert(q * e <= MAX_PERMITTED_DATA_LENGTH as int && q * e >= 0) by (nonlinear_arith)
            requires
                MAX_PERMITTED_DATA_LENGTH as int == e * q + r,
                r >= 0,
                q >= 0,
                e >= 1,
        ;
    }
    (MAX_PERMITTED_DATA_LENGTH / element_size) * element_size
}

/// How many accounts a big array of `len` elements of `element_size`
/// bytes takes.
pub fn big_array_accounts_count(len: usize, element_size: usize) -> (r: usize)
    requires
        element_size >= 1,
        element_size <= MAX_PERMITTED_DATA_LENGTH,
    ensures
        r == len as int / (MAX_PERMITTED_DATA_LENGTH as int / element_size as int) + (
        if len as int % (MAX_PERMITTED_DATA_LENGTH as int / element_size as int) == 0 {
            0int
        } else {
            1int
        }),
{
    proof {
        vstd::arithmetic::div_mod::lemma_div_non_zero(
            MAX_PERMITTED_DATA_LENGTH as int,
            element_size as int,
        );
    }
    let max: usize = MAX_PERMITTED_DATA_LENGTH / element_size;
    proof {
        lemma_split_count_fits(len as int, max as int);
    }
    len / max + (if len % max == 0 { 0 } else { 1 })
}

/// Rounding a division up stays within the dividend's own range.
proof fn lemma_split_count_fits(len: int, max: int)
    requires
        0 <= len,
        1 <= max,
    ensures
        0 <= len / max,
        len % max == 0 ==> len / max <= len,
        len % max != 0 ==> len / max + 1 <= len,
{
    vstd::arithmetic::div_mod::lemma_fundamental_div_mod(len, max);
    vstd::arithmetic::div_mod::lemma_mod_bound(len, max);
    vstd::arithmetic::div_mod::lemma_div_pos_is_pos(len, max);
    let q = len / max;
    let r = len % max;
    if r != 0 {
        assert(max >= 2);
        assert(q * 2 <= len) by (nonlinear_arith)
            requires
                len == max * q + r,
                r >= 0,
                q >= 0,
                max >= 2,
        ;
    } else {
        assert(q * 1 <= q * max) by (nonlinear_arith)
            requires
                q >= 0,
                max >= 1,
        ;
    }
}

/// How many accounts it takes to hold `elements_count` elements at
/// `max_elements_per_account` each.
pub fn get_multi_accounts_count(max_elements_per_account: usize, elements_count: usize) -> (r:
    usize)
    requires
        max_elements_per_account >= 1,
    ensures
        r == elements_count as int / max_elements_per_account as int + (
        if elements_count as int % max_elements_per_account as int == 0 {
            0int
        } else {
            1int
        }),
{
    proof {
        lemma_split_count_fits(elements_count as int, max_elements_per_account as int);
    }
    let count: usize = elements_count / max_elements_per_account;
    count + (if elements_count % max_elements_per_account == 0 { 0 } else { 1 })
}

/// Which sub-account a global element index falls into, and where.
pub fn account_and_local_index(index: usize, max_values_per_account: usize) -> (r: (usize, usize))
    requires
        max_values_per_account >= 1,
    ensures
        r.0 == index as int / max_values_per_account as int,
        r.1 == index as int % max_values_per_account as int,
{
    (index / max_values_per_account, index % max_values_per_account)
}

/// The seed list of a program account: its type seed, then the instance
/// offset's little-endian bytes if there is one.
pub open spec fn spec_pda_offset_seed(seed: Seq<u8>, offset: Option<u64>) -> Seq<Seq<u8>> {
    match offset {
        Some(o) => seq![seed, vstd::bytes::spec_u64_to_le_bytes(o)],
        None => seq![seed],
    }
}

/// Builds a program account's seed list.
pub fn pda_offset_seed(seed: &Vec<u8>, offset: Option<u64>) -> (r: Vec<Vec<u8>>)
    ensures
        r.deep_view() == spec_pda_offset_seed(seed@, offset),
{
    let mut seeds: Vec<Vec<u8>> = Vec::new();
    seeds.push(seed.clone());
    match offset {
        Some(o) => {
            seeds.push(vstd::bytes::u64_to_le_bytes(o));
        }
        None => {}
    }
    proof {
        assert(seeds.deep_view() =~~= spec_pda_offset_seed(seed@, offset));
    }
    seeds
}

/// The canonical address and bump of a program account under
/// `program_id`.
pub open spec fn spec_pda_find(seed: Seq<u8>, offset: Option<u64>, program_id: U256) -> Option<
    (Seq<u8>, u8),
> {
    pda_of(spec_pda_offset_seed(seed, offset), u256_le_bytes(program_id))
}

/// Finds a program account's canonical address and bump.
pub fn pda_find(seed: &Vec<u8>, offset: Option<u64>, program_id: &U256) -> (r: Option<(U256, u8)>)
    ensures
        match spec_pda_find(seed@, offset, *program_id) {
            Some((key, bump)) => r == Option::Some((u256_from_bytes(key), bump)),
            None => r is None,
        },
{
    let seeds: Vec<Vec<u8>> = pda_offset_seed(seed, offset);
    let pid_bytes: Vec<u8> = u256_to_le_bytes(program_id);
    match try_find_program_address(&seeds, &pid_bytes) {
        Some((key, bump)) => Some((crate::fields::u256_from_le_bytes(&key), bump)),
        None => None,
    }
}

/// The address of a program account from its stored bump.
pub open spec fn spec_pda_pubkey(
    seed: Seq<u8>,
    offset: Option<u64>,
    bump: u8,
    program_id: U256,
) -> Option<Seq<u8>> {
    cpa_of(spec_pda_offset_seed(seed, offset).push(seq![bump]), u256_le_bytes(program_id))
}

/// Recomputes a program account's address from its seed, offset and
/// stored bump; fails with `InvalidAccount` exactly when the seeds make
/// no valid address.
pub fn pda_pubkey(seed: &Vec<u8>, offset: Option<u64>, bump: u8, program_id: &U256) -> (r: Result<
    U256,
    ElusivError,
>)
    ensures
        match spec_pda_pubkey(seed@, offset, bump, *program_id) {
            Some(key) => r == Result::<U256, ElusivError>::Ok(u256_from_bytes(key)),
            None => r == Result::<U256, ElusivError>::Err(ElusivError::InvalidAccount),
        },
{
    let mut seeds: Vec<Vec<u8>> = pda_offset_seed(seed, offset);
    let mut bump_seed: Vec<u8> = Vec::new();
    bump_seed.push(bump);
    seeds.push(bump_seed);
    proof {
        assert(seeds.deep_view() =~~= spec_pda_offset_seed(seed@, offset).push(seq![bump]));
    }
    let pid_bytes: Vec<u8> = u256_to_le_bytes(program_id);
    match create_program_address(&seeds, &pid_bytes) {
        Some(key) => Ok(crate::fields::u256_from_le_bytes(&key)),
        None => Err(ElusivError::InvalidAccount),
    }
}

/// Checks a supplied account address against the address its own stored
/// bump derives: parses the header off `account_data`, recomputes the
/// address, and compares. Fails with `InvalidInstructionData` where the
/// header is malformed, with `InvalidAccount` where the seeds make no
/// address.
pub fn pda_is_valid_pubkey(
    seed: &Vec<u8>,
    offset: Option<u64>,
    account_data: &[u8],
    pubkey: &U256,
    program_id: &U256,
) -> (r: Result<bool, ElusivError>)
    ensures
        match r {
            Ok(b) => exists|fields: PDAAccountFields|
                {
                    &&& call_ensures(
                        PDAAccountFields::new,
                        (account_data,),
                        Ok::<PDAAccountFields, ElusivError>(fields),
                    )
                    &&& match spec_pda_pubkey(seed@, offset, fields.bump_seed, *program_id) {
                        Some(key) => b == (*pubkey == u256_from_bytes(key)),
                        None => false,
                    }
                },
            Err(e) => e == ElusivError::InvalidInstructionData || e == ElusivError::InvalidAccount,
        },
{
    let fields: PDAAccountFields = match PDAAccountFields::new(account_data) {
        Ok(f) => f,
        Err(e) => {
            return Err(e);
        }
    };
    match pda_pubkey(seed, offset, fields.bump_seed, program_id) {
        Ok(key) => Ok(crate::u256_eq(pubkey, &key)),
        Err(e) => Err(e),
    }
}

} // verus!
