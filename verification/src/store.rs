//! The store: key images mapped to records, kept in an oblivious map.

use vstd::prelude::*;

use crate::engine::{
    buckets_for, capacity_supported, map_buckets, map_entries, map_stash_size, ObliviousMap,
    BUCKET_CAPACITY, OMAP_FOUND, OMAP_NOT_FOUND,
};
use crate::key_image::{all_zero, KeyImage, KEY_SIZE};
use crate::outcome::{
    classify_read, is_read_code, write_outcome, AddRecordsError, KeyImageResultCode,
};
use crate::record::{
    decode, decode_spec, encode, lemma_decode_encode, lemma_decode_zero, zero_record, KeyImageData,
};

verus! {

/// Number of blocks in the stash of each ORAM under the map.
pub const STASH_SIZE: usize = 32;

/// Passed to the map on every write: a record under a key that is already
/// present replaces the old one.
pub const ALLOW_OVERWRITE: u8 = 1;

/// The records that a map of encoded entries stands for.
pub open spec fn records_of(entries: Map<Seq<u8>, Seq<u8>>) -> Map<Seq<u8>, KeyImageData> {
    entries.map_values(|value: Seq<u8>| decode_spec(value))
}

/// What a lookup of `key` gives in a store that holds `records`.
pub open spec fn lookup(records: Map<Seq<u8>, KeyImageData>, key: Seq<u8>) -> (
    KeyImageData,
    KeyImageResultCode,
) {
    if records.contains_key(key) {
        (records[key], KeyImageResultCode::NotSpent)
    } else {
        (zero_record(), KeyImageResultCode::KeyImageError)
    }
}

/// The records of a store that started empty and took the given inserts in
/// order, each of them with success.
pub open spec fn after_inserts(inserts: Seq<(Seq<u8>, KeyImageData)>) -> Map<
    Seq<u8>,
    KeyImageData,
>
    decreases inserts.len(),
{
    if inserts.len() == 0 {
        Map::empty()
    } else {
        after_inserts(inserts.drop_last()).insert(inserts.last().0, inserts.last().1)
    }
}

/// Holds the oblivious map and answers requests about key image records.
pub struct KeyImageStore {
    omap: ObliviousMap,
}

impl View for KeyImageStore {
    type V = Map<Seq<u8>, KeyImageData>;

    closed spec fn view(&self) -> Map<Seq<u8>, KeyImageData> {
        records_of(map_entries(self.omap))
    }
}

impl KeyImageStore {
    /// The invariant of the store: every key in the map is a key image that
    /// the map accepts, that is 32 bytes that are not all zero. It holds of
    /// every store that `new` returns, and both operations keep it.
    pub closed spec fn wf(&self) -> bool {
        &&& map_entries(self.omap).dom().finite()
        &&& forall|key: Seq<u8>| #[trigger]
            map_entries(self.omap).contains_key(key) ==> key.len() == KEY_SIZE && !all_zero(key)
    }

    /// The number of buckets in each of the two arenas of the map, fixed
    /// when the store is built.
    pub closed spec fn buckets(&self) -> nat {
        map_buckets(self.omap)
    }

    /// The number of blocks in the stash of each ORAM under the map, fixed
    /// when the store is built.
    pub closed spec fn stash_blocks(&self) -> nat {
        map_stash_size(self.omap)
    }

    /// A well-formed store holds finitely many records, each of them under a
    /// key image of 32 bytes that are not all zero.
    pub proof fn lemma_keys_accepted(self)
        requires
            self.wf(),
        ensures
            self@.dom().finite(),
            forall|key: Seq<u8>| #[trigger]
                self@.contains_key(key) ==> key.len() == KEY_SIZE && !all_zero(key),
    {
        assert(self@.dom() =~= map_entries(self.omap).dom());
    }

    /// An empty store with room for about `desired_capacity` records: the
    /// map is built once, sized for that capacity and with a stash of
    /// `STASH_SIZE` blocks. The capacity has to be one that the map can be
    /// built for.
    pub fn new(desired_capacity: u64) -> (store: Self)
        requires
            capacity_supported(desired_capacity),
        ensures
            store.wf(),
            store@ == Map::<Seq<u8>, KeyImageData>::empty(),
            store.buckets() == buckets_for(desired_capacity),
            store.stash_blocks() == STASH_SIZE,
    {
        let omap = ObliviousMap::create(desired_capacity, STASH_SIZE);
        let store = KeyImageStore { omap };
        assert(store@ =~= Map::<Seq<u8>, KeyImageData>::empty());
        store
    }

    /// Stores `data` under `key_image`, in place of any record that was
    /// there. The all-zero key image is refused, a key image that is already
    /// present always succeeds, and a new one succeeds unless the map
    /// overflows, which it cannot do while it holds fewer records than two
    /// buckets take. On an error the store is unchanged, and its sizing
    /// never changes.
    pub fn add_record(&mut self, key_image: &KeyImage, data: KeyImageData) -> (result: Result<
        (),
        AddRecordsError,
    >)
        requires
            old(self).wf(),
        ensures
            final(self).wf(),
            result is Ok ==> final(self)@ == old(self)@.insert(key_image@, data),
            result is Err ==> final(self)@ == old(self)@,
            all_zero(key_image@) ==> result is Err,
            old(self)@.contains_key(key_image@) ==> result is Ok,
            !all_zero(key_image@) && old(self)@.dom().len() < 2 * BUCKET_CAPACITY ==> result is Ok,
            final(self).buckets() == old(self).buckets(),
            final(self).stash_blocks() == old(self).stash_blocks(),
    {
        proof {
            lemma_decode_encode(data);
        }
        let value = encode(&data);
        let code = self.omap.vartime_write(key_image.as_bytes(), &value, ALLOW_OVERWRITE);
        proof {
            key_image.lemma_len();
            assert(old(self)@.dom() =~= map_entries(old(self).omap).dom());
            if code == OMAP_FOUND || code == OMAP_NOT_FOUND {
                assert(records_of(map_entries(old(self).omap).insert(key_image@, value@))
                    =~= records_of(map_entries(old(self).omap)).insert(key_image@, data));
            }
        }
        write_outcome(code)
    }

    /// Looks `key_image` up: the stored record and `NotSpent`, or the zero
    /// record and `KeyImageError` where nothing is stored under it. There is
    /// no failure, and the store holds afterwards what it held before.
    pub fn find_record(&mut self, key_image: &KeyImage) -> (found: (
        KeyImageData,
        KeyImageResultCode,
    ))
        requires
            old(self).wf(),
        ensures
            final(self).wf(),
            final(self)@ == old(self)@,
            found == lookup(old(self)@, key_image@),
            final(self).buckets() == old(self).buckets(),
            final(self).stash_blocks() == old(self).stash_blocks(),
    {
        let mut value: [u8; 16] = [0u8; 16];
        let ghost zeros = value@;
        let code = self.omap.read(key_image.as_bytes(), &mut value);
        assert(is_read_code(code));
        let classification = classify_read(code);
        let record = decode(&value);
        proof {
            key_image.lemma_len();
            lemma_decode_zero(zeros);
        }
        (record, classification)
    }
}

/// After a record was stored under a key, a lookup of that key gives the
/// record, classified `NotSpent`.
pub proof fn lemma_insert_then_find(
    records: Map<Seq<u8>, KeyImageData>,
    key: Seq<u8>,
    data: KeyImageData,
)
    ensures
        lookup(records.insert(key, data), key) == (data, KeyImageResultCode::NotSpent),
{
}

/// A lookup of a key that the store does not hold gives the zero record,
/// classified `KeyImageError`.
pub proof fn lemma_unknown_key(records: Map<Seq<u8>, KeyImageData>, key: Seq<u8>)
    requires
        !records.contains_key(key),
    ensures
        lookup(records, key) == (zero_record(), KeyImageResultCode::KeyImageError),
{
}

/// A key that none of the inserts into a fresh store named is unknown to it:
/// the store does not hold it, whatever else was stored and in what order.
pub proof fn lemma_never_inserted(inserts: Seq<(Seq<u8>, KeyImageData)>, key: Seq<u8>)
    requires
        forall|i: int| 0 <= i < inserts.len() ==> (#[trigger] inserts[i]).0 != key,
    ensures
        !after_inserts(inserts).contains_key(key),
        lookup(after_inserts(inserts), key) == (zero_record(), KeyImageResultCode::KeyImageError),
    decreases inserts.len(),
{
    if inserts.len() > 0 {
        let earlier = inserts.drop_last();
        assert forall|i: int| 0 <= i < earlier.len() implies (#[trigger] earlier[i]).0 != key by {
            assert(earlier[i] == inserts[i]);
        }
        lemma_never_inserted(earlier, key);
        assert(inserts.last() == inserts[inserts.len() - 1]);
    }
}

/// Storing a second record under a key supersedes the first: the store is
/// what it would be had the first never been stored, and a lookup gives the
/// second.
pub proof fn lemma_overwrite(
    records: Map<Seq<u8>, KeyImageData>,
    key: Seq<u8>,
    first: KeyImageData,
    second: KeyImageData,
)
    ensures
        records.insert(key, first).insert(key, second) == records.insert(key, second),
        lookup(records.insert(key, first).insert(key, second), key) == (
            second,
            KeyImageResultCode::NotSpent,
        ),
{
    assert(records.insert(key, first).insert(key, second) =~= records.insert(key, second));
}

} // verus!
