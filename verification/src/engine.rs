//! The oblivious map that holds the encoded records.
//!
//! The map and its three operations are taken on trust from the crates that
//! implement them: the verifier sees the contracts below and not the code
//! behind them. The contracts say what the map holds and which status code
//! comes back. They do not cover the ways in which the map gives up that no
//! key selects: the ORAM beneath it aborts when its stash overflows, which a
//! stash of the size used here makes negligibly rare, and so does a random
//! generator that the hardware fails.

use aligned_cmov::subtle::Choice;
use aligned_cmov::typenum::{U1024, U16, U32};
use aligned_cmov::A8Bytes;
use mc_oblivious_map::CuckooHashTableCreator;
use mc_oblivious_ram::PathORAM4096Z4Creator;
use mc_oblivious_traits::{HeapORAMStorageCreator, OMapCreator, ObliviousHashMap};
use mc_rand::McRng;
use vstd::arithmetic::power2::{lemma_pow2_unfold, pow2};
use vstd::prelude::*;

use crate::key_image::all_zero;

verus! {

/// Status code of the map: the key was present. The four codes here have
/// the values of the constants of the same names in `mc_oblivious_traits`.
pub const OMAP_FOUND: u32 = 0;

/// Status code of the map: the key was absent.
pub const OMAP_NOT_FOUND: u32 = 1;

/// Status code of the map: the table had no room for a new key.
pub const OMAP_OVERFLOW: u32 = 2;

/// Status code of the map: the key was rejected.
pub const OMAP_INVALID_KEY: u32 = 3;

/// Number of entries that fit in one bucket of the table: a bucket is a
/// 1024-byte block cut into slots of one key and one value.
pub const BUCKET_CAPACITY: u64 = 21;

/// Largest number of buckets per arena that the position maps of the
/// underlying ORAM can address.
pub const MAX_BUCKETS: u64 = 0x2_0000_0000;

/// Whether a map of the wanted capacity can be built. The table spreads the
/// capacity over two arenas, rounds the bucket count of each up to a power of
/// two, and that count has to stay addressable.
pub open spec fn capacity_supported(desired_capacity: u64) -> bool {
    desired_capacity / BUCKET_CAPACITY / 2 <= MAX_BUCKETS
}

/// The least power of two that is at least `n`, and 1 where `n` is 0.
pub open spec fn least_power_of_two(n: nat) -> nat
    decreases n,
{
    if n <= 1 {
        1
    } else {
        2 * least_power_of_two((n + 1) / 2)
    }
}

/// Number of buckets in each of the table's two arenas for a wanted
/// capacity: half the capacity, counted in buckets and rounded down, then
/// taken up to a power of two.
pub open spec fn buckets_for(desired_capacity: u64) -> nat {
    least_power_of_two((desired_capacity / BUCKET_CAPACITY / 2) as nat)
}

/// `least_power_of_two(n)` is a power of two, reaches `n`, and is the least
/// such: from 1 on it stays under twice `n`.
pub proof fn lemma_least_power_of_two(n: nat)
    ensures
        exists|e: nat| least_power_of_two(n) == pow2(e),
        n <= least_power_of_two(n),
        n >= 1 ==> least_power_of_two(n) < 2 * n,
        least_power_of_two(n) == 1 || least_power_of_two(n) % 2 == 0,
    decreases n,
{
    if n <= 1 {
        assert(pow2(0) == 1) by {
            vstd::arithmetic::power2::lemma2_to64();
        }
        assert(least_power_of_two(n) == pow2(0));
    } else {
        let half = ((n + 1) / 2) as nat;
        lemma_least_power_of_two(half);
        let e = choose|e: nat| least_power_of_two(half) == pow2(e);
        lemma_pow2_unfold(e + 1);
        assert(least_power_of_two(n) == pow2(e + 1));
    }
}

/// The two arenas of a table built for a wanted capacity together have room
/// for that capacity, short of at most one bucket in each.
pub proof fn lemma_buckets_reach_capacity(desired_capacity: u64)
    ensures
        buckets_for(desired_capacity) >= 1,
        2 * BUCKET_CAPACITY * buckets_for(desired_capacity) + 2 * BUCKET_CAPACITY
            > desired_capacity,
{
    lemma_least_power_of_two((desired_capacity / BUCKET_CAPACITY / 2) as nat);
}

/// Tests whether a map of the wanted capacity can be built.
pub fn is_capacity_supported(desired_capacity: u64) -> (supported: bool)
    ensures
        supported == capacity_supported(desired_capacity),
{
    desired_capacity / BUCKET_CAPACITY / 2 <= MAX_BUCKETS
}

/// The `CuckooHashTable` of `mc_oblivious_map` with 32-byte keys and 16-byte
/// values, over two path ORAMs of `mc_oblivious_ram` in heap storage. The
/// verifier sees nothing inside it; `map_entries` names what it holds.
#[verifier::external_body]
pub struct ObliviousMap {
    table: Box<
        <CuckooHashTableCreator<
            U1024,
            McRng,
            PathORAM4096Z4Creator<McRng, HeapORAMStorageCreator>,
        > as OMapCreator<U32, U16, McRng>>::Output,
    >,
}

/// The key/value pairs that a map holds.
pub uninterp spec fn map_entries(omap: ObliviousMap) -> Map<Seq<u8>, Seq<u8>>;

/// The number of buckets in each of the two arenas that a map was built with.
pub uninterp spec fn map_buckets(omap: ObliviousMap) -> nat;

/// The number of blocks in the stash that each ORAM of a map was built with.
pub uninterp spec fn map_stash_size(omap: ObliviousMap) -> nat;

impl ObliviousMap {
    /// `OMapCreator::create` of `CuckooHashTableCreator`: builds an empty
    /// table of about the wanted capacity, each ORAM with a stash of
    /// `stash_size` blocks and its own generator from `McRng::default`. The
    /// table takes half the wanted capacity in whole buckets, rounding down,
    /// and gives each arena the next power of two of buckets.
    /// Capacities that the position maps cannot address are left out, since
    /// construction panics on them, and so is an empty stash, with which the
    /// first access would fail. The storage is allocated at once.
    #[verifier::external_body]
    pub(crate) fn create(desired_capacity: u64, stash_size: usize) -> (omap: Self)
        requires
            capacity_supported(desired_capacity),
            stash_size > 0,
        ensures
            map_entries(omap).dom() == Set::<Seq<u8>>::empty(),
            map_buckets(omap) == buckets_for(desired_capacity),
            map_stash_size(omap) == stash_size,
    {
        ObliviousMap {
            table: Box::new(
                <CuckooHashTableCreator<
                    U1024,
                    McRng,
                    PathORAM4096Z4Creator<McRng, HeapORAMStorageCreator>,
                > as OMapCreator<U32, U16, McRng>>::create(
                    desired_capacity,
                    stash_size,
                    McRng::default,
                ),
            ),
        }
    }

    /// `ObliviousHashMap::read` of the table: never changes what the map
    /// holds nor how it was sized. The all-zero key is rejected; a key that is present gives
    /// `OMAP_FOUND` and its value in `output`; any other key gives
    /// `OMAP_NOT_FOUND`. Unless the key was found, `output` is left as it was.
    #[verifier::external_body]
    pub(crate) fn read(&mut self, key: &[u8; 32], output: &mut [u8; 16]) -> (code: u32)
        ensures
            map_entries(*final(self)) == map_entries(*old(self)),
            map_buckets(*final(self)) == map_buckets(*old(self)),
            map_stash_size(*final(self)) == map_stash_size(*old(self)),
            all_zero(key@) ==> code == OMAP_INVALID_KEY && final(output)@ == old(output)@,
            !all_zero(key@) && map_entries(*old(self)).contains_key(key@) ==> code == OMAP_FOUND
                && final(output)@ == map_entries(*old(self))[key@],
            !all_zero(key@) && !map_entries(*old(self)).contains_key(key@) ==> code
                == OMAP_NOT_FOUND && final(output)@ == old(output)@,
    {
        let mut query = A8Bytes::<U32>::default();
        query.copy_from_slice(key);
        let mut value = A8Bytes::<U16>::default();
        value.copy_from_slice(output);
        let code = self.table.read(&query, &mut value);
        output.copy_from_slice(&value);
        code
    }

    /// `ObliviousHashMap::vartime_write` of the table. The all-zero key is
    /// rejected with `OMAP_INVALID_KEY`. A key that is present gives
    /// `OMAP_FOUND`, and its value is replaced where `allow_overwrite` is 1.
    /// A key that is absent is either added, with `OMAP_NOT_FOUND`, or the
    /// table overflows, with `OMAP_OVERFLOW`; which of the two depends on
    /// how full the table is and on its hash keys. Whenever the key is
    /// rejected or the table overflows, the map holds what it held before.
    /// The table overflows only where both buckets that the key hashes to,
    /// one in each arena, are full, so only on a map of at least
    /// `2 * BUCKET_CAPACITY` entries. The sizing of the map never changes.
    #[verifier::external_body]
    pub(crate) fn vartime_write(
        &mut self,
        key: &[u8; 32],
        value: &[u8; 16],
        allow_overwrite: u8,
    ) -> (code: u32)
        requires
            allow_overwrite <= 1,
        ensures
            map_buckets(*final(self)) == map_buckets(*old(self)),
            map_stash_size(*final(self)) == map_stash_size(*old(self)),
            code == OMAP_OVERFLOW ==> map_entries(*old(self)).dom().len() >= 2 * BUCKET_CAPACITY,
            all_zero(key@) ==> code == OMAP_INVALID_KEY && map_entries(*final(self))
                == map_entries(*old(self)),
            !all_zero(key@) && map_entries(*old(self)).contains_key(key@) ==> code == OMAP_FOUND
                && map_entries(*final(self)) == (if allow_overwrite == 1 {
                map_entries(*old(self)).insert(key@, value@)
            } else {
                map_entries(*old(self))
            }),
            !all_zero(key@) && !map_entries(*old(self)).contains_key(key@) ==> (code
                == OMAP_NOT_FOUND && map_entries(*final(self)) == map_entries(*old(self)).insert(
                key@,
                value@,
            )) || (code == OMAP_OVERFLOW && map_entries(*final(self)) == map_entries(*old(self))),
    {
        let mut query = A8Bytes::<U32>::default();
        query.copy_from_slice(key);
        let mut new_value = A8Bytes::<U16>::default();
        new_value.copy_from_slice(value);
        self.table.vartime_write(&query, &new_value, Choice::from(allow_overwrite))
    }
}

} // verus!
