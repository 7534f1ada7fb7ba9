//! Password stretching with Argon2id.
//!
//! The work parameters are explicit. The vault refuses parameters below the
//! function's minimum and a memory cost above `MAX_MEMORY_KIB`, so that a
//! stored blob cannot make the function ask for more memory than a machine
//! can be expected to have.

use vstd::prelude::*;
use argon2::Config;

verus! {

/// The largest memory cost that the vault accepts, in KiB (2 GiB).
pub const MAX_MEMORY_KIB: u32 = 2_097_152;

/// The largest degree of parallelism that Argon2 is defined for.
pub const MAX_PARALLELISM: u32 = 0x00FF_FFFF;

/// The longest password and salt that Argon2 is defined for, in bytes.
pub const MAX_INPUT_LENGTH: usize = 0xFFFF_FFFF;

/// The shortest salt that Argon2 is defined for, in bytes.
pub const MIN_SALT_LENGTH: usize = 8;

/// The length of the derived key, in bytes.
pub const DERIVED_KEY_LENGTH: usize = 32;

/// The work parameters of the key-derivation function.
#[derive(Clone, Copy, Debug, PartialEq, Eq, Structural)]
pub struct KdfParams {
    /// Number of passes over the memory.
    pub time_cost: u32,
    /// Memory in KiB.
    pub memory_kib: u32,
    /// Number of lanes.
    pub parallelism: u32,
}

impl KdfParams {
    /// At least one pass, at least one lane and no more than Argon2 allows,
    /// at least 8 KiB for each lane and no more than `MAX_MEMORY_KIB`.
    pub open spec fn valid(self) -> bool {
        &&& 1 <= self.time_cost
        &&& 1 <= self.parallelism <= MAX_PARALLELISM
        &&& 8 * self.parallelism <= self.memory_kib <= MAX_MEMORY_KIB
    }

    pub fn is_valid(&self) -> (ok: bool)
        ensures
            ok == self.valid(),
    {
        1 <= self.time_cost && 1 <= self.parallelism && self.parallelism <= MAX_PARALLELISM
            && self.memory_kib <= MAX_MEMORY_KIB && self.parallelism <= self.memory_kib / 8
    }

    /// Two passes over 19 MiB in one lane.
    pub fn recommended() -> (params: KdfParams)
        ensures
            params == (KdfParams { time_cost: 2, memory_kib: 19_456, parallelism: 1 }),
            params.valid(),
    {
        KdfParams { time_cost: 2, memory_kib: 19_456, parallelism: 1 }
    }
}

/// The key that Argon2id, version 1.3, derives from a password and a salt
/// under the given work parameters, without secret and associated data.
pub uninterp spec fn argon2id_key(
    password: Seq<u8>,
    salt: Seq<u8>,
    time_cost: u32,
    memory_kib: u32,
    parallelism: u32,
) -> Seq<u8>;

/// `argon2::hash_raw` under the crate's default configuration with the three
/// work parameters replaced. The function checks its inputs against its
/// limits and then computes; on inputs within the limits it returns the
/// derived key, which has the configured length of 32 bytes and depends on
/// nothing but the inputs.
#[verifier::external_body]
pub(crate) fn stretch_password(
    password: &[u8],
    salt: &[u8],
    params: KdfParams,
) -> (out: Option<Vec<u8>>)
    requires
        params.valid(),
        MIN_SALT_LENGTH <= salt@.len() <= MAX_INPUT_LENGTH,
        password@.len() <= MAX_INPUT_LENGTH,
    ensures
        match out {
            Some(key) => key@.len() == DERIVED_KEY_LENGTH && key@ == argon2id_key(
                password@,
                salt@,
                params.time_cost,
                params.memory_kib,
                params.parallelism,
            ),
            None => false,
        },
{
    let config = Config {
        time_cost: params.time_cost,
        mem_cost: params.memory_kib,
        lanes: params.parallelism,
        ..Config::default()
    };
    argon2::hash_raw(password, salt, &config).ok()
}

} // verus!
