//! Key-value overrides of model metadata.
//!
//! The backend reads an array of fixed-size slots and stops at the first slot
//! whose key is empty. The array here always ends with such a slot.

use crate::float_bits::F64Bits;
use vstd::prelude::*;

verus! {

/// The value of an override.
#[derive(Debug, Clone, Copy, PartialEq)]
pub enum ParamOverrideValue {
    /// A boolean value.
    Bool(bool),
    /// A floating-point value.
    Float(F64Bits),
    /// An integer value.
    Int(i64),
    /// A text value, as a C string.
    Str([u8; 128]),
}

/// One slot of the override array.
#[derive(Debug, Clone, Copy)]
pub struct KvOverride {
    /// The key as a C string: its bytes, then zeros.
    pub key: [u8; 128],
    /// The value.
    pub value: ParamOverrideValue,
}

/// Model of a [`KvOverride`].
pub struct KvSlot {
    /// The key's bytes, zeros included.
    pub key: Seq<u8>,
    /// The value.
    pub value: ParamOverrideValue,
}

/// An override as a reader of the array sees it.
pub struct KvEntry {
    /// The key's bytes, without the zeros.
    pub key: Seq<u8>,
    /// The value.
    pub value: ParamOverrideValue,
}

impl View for KvOverride {
    type V = KvSlot;

    open spec fn view(&self) -> KvSlot {
        KvSlot { key: self.key@, value: self.value }
    }
}

/// The models of a vector of slots.
pub open spec fn slot_views(slots: Seq<KvOverride>) -> Seq<KvSlot> {
    slots.map_values(|s: KvOverride| s@)
}

/// The models of a vector of listed overrides.
pub open spec fn listed_views(listed: Seq<(Vec<u8>, ParamOverrideValue)>) -> Seq<KvEntry> {
    listed.map_values(|e: (Vec<u8>, ParamOverrideValue)| KvEntry { key: e.0@, value: e.1 })
}

/// The bytes before the first zero.
pub open spec fn c_string(bytes: Seq<u8>) -> Seq<u8>
    decreases bytes.len(),
{
    if bytes.len() == 0 || bytes[0] == 0 {
        Seq::empty()
    } else {
        seq![bytes[0]] + c_string(bytes.drop_first())
    }
}

/// `key` as a slot holds it.
pub open spec fn padded(key: Seq<u8>) -> Seq<u8> {
    Seq::new(
        128,
        |i: int|
            if i < key.len() {
                key[i]
            } else {
                0u8
            },
    )
}

/// The slot that ends the array.
pub open spec fn empty_slot() -> KvSlot {
    KvSlot { key: padded(Seq::empty()), value: ParamOverrideValue::Int(0) }
}

/// How many slots come before the first one with an empty key.
pub open spec fn named_count(slots: Seq<KvSlot>) -> nat
    decreases slots.len(),
{
    if slots.len() == 0 || slots[0].key[0] == 0 {
        0
    } else {
        1 + named_count(slots.drop_first())
    }
}

/// The overrides that a reader of the array sees.
pub open spec fn overrides(slots: Seq<KvSlot>) -> Seq<KvEntry> {
    Seq::new(
        named_count(slots),
        |i: int| KvEntry { key: c_string(slots[i].key), value: slots[i].value },
    )
}

/// The array is one that a reader gets through: it ends with an empty key,
/// nothing follows an empty key but empty keys, and every key is a C string.
pub open spec fn terminated(slots: Seq<KvSlot>) -> bool {
    &&& slots.len() > 0
    &&& slots.last().key[0] == 0
    &&& forall|i: int|
        0 <= i < slots.len() ==> (#[trigger] slots[i]).key.len() == 128 && slots[i].key[127] == 0
    &&& forall|i: int, j: int|
        0 <= i <= j < slots.len() && (#[trigger] slots[i]).key[0] == 0
            ==> (#[trigger] slots[j]).key[0] == 0
}

/// A key that fits a slot: at most 127 ASCII bytes, none of them zero. The
/// bound on the bytes is that of a signed C `char`.
pub open spec fn valid_key(key: Seq<u8>) -> bool {
    &&& key.len() <= 127
    &&& forall|i: int| 0 <= i < key.len() ==> 0 < #[trigger] key[i] < 128
}

/// The array after an override was appended: the first slot with an empty key
/// takes it, and one more empty slot ends the array.
pub open spec fn appended(
    slots: Seq<KvSlot>,
    key: Seq<u8>,
    value: ParamOverrideValue,
) -> Seq<KvSlot> {
    slots.update(named_count(slots) as int, KvSlot { key: padded(key), value }).push(empty_slot())
}

proof fn lemma_named_count_is(slots: Seq<KvSlot>, n: int)
    requires
        0 <= n <= slots.len(),
        forall|i: int| 0 <= i < n ==> (#[trigger] slots[i]).key[0] != 0,
        n < slots.len() ==> slots[n].key[0] == 0,
    ensures
        named_count(slots) == n,
    decreases slots.len(),
{
    if n > 0 {
        assert(slots[0].key[0] != 0);
        let rest = slots.drop_first();
        assert forall|i: int| 0 <= i < n - 1 implies (#[trigger] rest[i]).key[0] != 0 by {
            assert(rest[i] == slots[i + 1]);
        }
        lemma_named_count_is(rest, n - 1);
    }
}

proof fn lemma_named_count(slots: Seq<KvSlot>)
    ensures
        named_count(slots) <= slots.len(),
        forall|i: int| 0 <= i < named_count(slots) ==> (#[trigger] slots[i]).key[0] != 0,
        named_count(slots) < slots.len() ==> slots[named_count(slots) as int].key[0] == 0,
    decreases slots.len(),
{
    if slots.len() > 0 && slots[0].key[0] != 0 {
        let rest = slots.drop_first();
        lemma_named_count(rest);
        assert forall|i: int| 0 <= i < named_count(slots) implies (#[trigger] slots[i]).key[0]
            != 0 by {
            if i > 0 {
                assert(rest[i - 1] == slots[i]);
            }
        }
    }
}

proof fn lemma_c_string_is(bytes: Seq<u8>, n: int)
    requires
        0 <= n <= bytes.len(),
        forall|i: int| 0 <= i < n ==> #[trigger] bytes[i] != 0,
        n < bytes.len() ==> bytes[n] == 0,
    ensures
        c_string(bytes) == bytes.take(n),
    decreases bytes.len(),
{
    if n > 0 {
        assert(bytes[0] != 0);
        let rest = bytes.drop_first();
        assert forall|i: int| 0 <= i < n - 1 implies #[trigger] rest[i] != 0 by {
            assert(rest[i] == bytes[i + 1]);
        }
        lemma_c_string_is(rest, n - 1);
        assert(seq![bytes[0]] + rest.take(n - 1) =~= bytes.take(n));
    } else {
        assert(bytes.take(0) =~= Seq::<u8>::empty());
    }
}

/// A slot's key reads back as it was written.
pub proof fn law_key_round_trip(key: Seq<u8>)
    requires
        valid_key(key),
    ensures
        c_string(padded(key)) == key,
{
    lemma_c_string_is(padded(key), key.len() as int);
    assert(padded(key).take(key.len() as int) =~= key);
}

/// Appending puts the override behind those already there, which stay as they
/// were, and the array still ends with an empty slot. An empty key ends the
/// array for a reader, so an override under it is not seen.
pub proof fn law_append(slots: Seq<KvSlot>, key: Seq<u8>, value: ParamOverrideValue)
    requires
        terminated(slots),
        valid_key(key),
    ensures
        terminated(appended(slots, key, value)),
        key.len() > 0 ==> overrides(appended(slots, key, value)) == overrides(slots).push(
            KvEntry { key, value },
        ),
        key.len() == 0 ==> overrides(appended(slots, key, value)) == overrides(slots),
{
    let n = named_count(slots) as int;
    let after = appended(slots, key, value);
    lemma_named_count(slots);
    if n == slots.len() {
        assert(slots[n - 1].key[0] != 0);
    }
    assert(after[n].key == padded(key));
    assert(after.last() == empty_slot());
    assert forall|i: int| 0 <= i < n implies (#[trigger] after[i]).key[0] != 0 by {
        assert(after[i] == slots[i]);
    }
    assert forall|i: int| n < i < after.len() implies (#[trigger] after[i]).key[0] == 0 by {
        if i < slots.len() {
            assert(slots[n].key[0] == 0);
            assert(after[i] == slots[i]);
        }
    }
    assert forall|i: int| 0 <= i < after.len() implies (#[trigger] after[i]).key.len() == 128
        && after[i].key[127] == 0 by {
        if i < slots.len() && i != n {
            assert(after[i] == slots[i]);
        }
    }
    law_key_round_trip(key);
    if key.len() > 0 {
        assert(key[0] != 0);
        lemma_named_count_is(after, n + 1);
        assert(overrides(after) =~= overrides(slots).push(KvEntry { key, value }));
    } else {
        lemma_named_count_is(after, n);
        assert(overrides(after) =~= overrides(slots));
    }
}

/// The array that holds no override.
pub open spec fn no_overrides() -> Seq<KvSlot> {
    seq![empty_slot()]
}

/// The array that holds no override is terminated, and a reader sees none.
pub proof fn law_no_overrides()
    ensures
        terminated(no_overrides()),
        overrides(no_overrides()) == Seq::<KvEntry>::empty(),
{
    lemma_named_count_is(no_overrides(), 0);
    assert(overrides(no_overrides()) =~= Seq::<KvEntry>::empty());
}

/// The array after several overrides were appended, one after the other.
pub open spec fn appended_all(slots: Seq<KvSlot>, entries: Seq<KvEntry>) -> Seq<KvSlot>
    decreases entries.len(),
{
    if entries.len() == 0 {
        slots
    } else {
        appended(
            appended_all(slots, entries.drop_last()),
            entries.last().key,
            entries.last().value,
        )
    }
}

/// A reader sees all overrides that were appended under a key, in order.
pub proof fn law_appended_overrides_read_back(entries: Seq<KvEntry>)
    requires
        forall|i: int|
            0 <= i < entries.len() ==> valid_key((#[trigger] entries[i]).key)
                && entries[i].key.len() > 0,
    ensures
        terminated(appended_all(no_overrides(), entries)),
        overrides(appended_all(no_overrides(), entries)) == entries,
    decreases entries.len(),
{
    law_no_overrides();
    if entries.len() > 0 {
        let front = entries.drop_last();
        assert forall|i: int| 0 <= i < front.len() implies valid_key((#[trigger] front[i]).key)
            && front[i].key.len() > 0 by {
            assert(front[i] == entries[i]);
        }
        law_appended_overrides_read_back(front);
        law_append(
            appended_all(no_overrides(), front),
            entries.last().key,
            entries.last().value,
        );
        assert(front.push(entries.last()) =~= entries);
    } else {
        assert(entries =~= Seq::empty());
    }
}

fn new_empty_slot() -> (slot: KvOverride)
    ensures
        slot@ == empty_slot(),
{
    let slot = KvOverride { key: [0u8; 128], value: ParamOverrideValue::Int(0) };
    assert(slot.key@ =~= padded(Seq::empty()));
    slot
}

/// The slots of an override array that holds no override.
pub(crate) fn new_slots() -> (slots: Vec<KvOverride>)
    ensures
        slot_views(slots@) == no_overrides(),
{
    let mut slots: Vec<KvOverride> = Vec::new();
    slots.push(new_empty_slot());
    assert(slot_views(slots@) =~= no_overrides());
    slots
}

fn padded_key(key: &[u8]) -> (slot_key: [u8; 128])
    requires
        key@.len() <= 127,
    ensures
        slot_key@ == padded(key@),
{
    let mut slot_key = [0u8; 128];
    let mut i: usize = 0;
    while i < key.len()
        invariant
            i <= key.len() <= 127,
            slot_key@.len() == 128,
            forall|j: int| 0 <= j < i ==> slot_key@[j] == key@[j],
            forall|j: int| i <= j < 128 ==> slot_key@[j] == 0,
        decreases key.len() - i,
    {
        slot_key[i] = key[i];
        i += 1;
    }
    assert(slot_key@ =~= padded(key@));
    slot_key
}

fn count_named(slots: &Vec<KvOverride>) -> (n: usize)
    requires
        terminated(slot_views(slots@)),
    ensures
        n == named_count(slot_views(slots@)),
        n < slots.len(),
{
    let ghost all = slot_views(slots@);
    let mut n: usize = 0;
    while slots[n].key[0] != 0
        invariant
            n < slots.len(),
            all == slot_views(slots@),
            terminated(all),
            forall|i: int| 0 <= i < n ==> (#[trigger] all[i]).key[0] != 0,
        decreases slots.len() - n,
    {
        assert(all[n as int].key[0] != 0);
        assert(all.last().key[0] == 0);
        n += 1;
    }
    proof {
        assert(all[n as int].key[0] == 0);
        lemma_named_count_is(all, n as int);
    }
    n
}

/// Appends an override to the array.
pub(crate) fn append(slots: &mut Vec<KvOverride>, key: &[u8], value: ParamOverrideValue)
    requires
        terminated(slot_views(old(slots)@)),
        valid_key(key@),
    ensures
        slot_views(final(slots)@) == appended(slot_views(old(slots)@), key@, value),
        terminated(slot_views(final(slots)@)),
        final(slots).len() == old(slots).len() + 1,
        forall|n: int|
            0 <= n < old(slots).len() && (#[trigger] old(slots)@[n]).key@[0] != 0
                ==> final(slots)@[n] == old(slots)@[n],
        overrides(slot_views(old(slots)@)).len() < old(slots).len(),
        final(slots)@[overrides(slot_views(old(slots)@)).len() as int].value == value,
{
    proof {
        law_append(slot_views(slots@), key@, value);
    }
    let n = count_named(slots);
    proof {
        lemma_named_count(slot_views(slots@));
        assert(slot_views(slots@)[n as int] == slots@[n as int]@);
    }
    slots.set(n, KvOverride { key: padded_key(key), value });
    slots.push(new_empty_slot());
    assert(slot_views(slots@) =~= appended(slot_views(old(slots)@), key@, value));
}

fn key_bytes(slot: &KvOverride) -> (key: Vec<u8>)
    requires
        slot.key@[127] == 0,
    ensures
        key@ == c_string(slot.key@),
{
    let mut key: Vec<u8> = Vec::new();
    let mut i: usize = 0;
    while slot.key[i] != 0
        invariant
            i < 128,
            slot.key@.len() == 128,
            slot.key@[127] == 0,
            key@ == slot.key@.take(i as int),
            forall|j: int| 0 <= j < i ==> #[trigger] slot.key@[j] != 0,
        decreases 128 - i,
    {
        key.push(slot.key[i]);
        i += 1;
        assert(slot.key@.take(i as int) =~= slot.key@.take(i - 1).push(slot.key@[i - 1]));
    }
    proof {
        lemma_c_string_is(slot.key@, i as int);
    }
    key
}

/// The overrides that a reader of the array sees, in order.
pub(crate) fn list(slots: &Vec<KvOverride>) -> (listed: Vec<(Vec<u8>, ParamOverrideValue)>)
    requires
        terminated(slot_views(slots@)),
    ensures
        listed_views(listed@) == overrides(slot_views(slots@)),
{
    let ghost all = slot_views(slots@);
    let n = count_named(slots);
    let mut listed: Vec<(Vec<u8>, ParamOverrideValue)> = Vec::new();
    let mut i: usize = 0;
    while i < n
        invariant
            i <= n < slots.len(),
            all == slot_views(slots@),
            terminated(all),
            n == named_count(all),
            listed.len() == i,
            forall|j: int|
                0 <= j < i ==> (#[trigger] listed@[j]).0@ == c_string(all[j].key) && listed@[j].1
                    == all[j].value,
        decreases n - i,
    {
        assert(all[i as int] == slots@[i as int]@);
        listed.push((key_bytes(&slots[i]), slots[i].value));
        i += 1;
    }
    assert(listed_views(listed@) =~= overrides(all));
    listed
}

/// The model of a slot array shows every slot as it lies in memory: in its
/// place, with its key's bytes and with its value.
pub proof fn law_slots_are_shown_as_stored(slots: Seq<KvOverride>, i: int)
    requires
        0 <= i < slots.len(),
    ensures
        slot_views(slots).len() == slots.len(),
        slot_views(slots)[i].key == slots[i].key@,
        slot_views(slots)[i].value == slots[i].value,
{
}

/// The model of a listing shows every pair as it was listed.
pub proof fn law_listing_is_shown_as_returned(
    listed: Seq<(Vec<u8>, ParamOverrideValue)>,
    i: int,
)
    requires
        0 <= i < listed.len(),
    ensures
        listed_views(listed).len() == listed.len(),
        listed_views(listed)[i].key == listed[i].0@,
        listed_views(listed)[i].value == listed[i].1,
{
}

/// A key fits exactly when it is at most 127 bytes long and each of its bytes
/// lies between 1 and 127.
pub proof fn law_keys_that_fit(key: Seq<u8>)
    ensures
        valid_key(key) <==> key.len() < 128 && forall|i: int|
            0 <= i < key.len() ==> #[trigger] key[i] != 0 && key[i] < 0x80,
{
}

/// A C string is what stands before the first zero.
pub proof fn law_c_string(bytes: Seq<u8>)
    ensures
        c_string(bytes).len() <= bytes.len(),
        forall|i: int|
            0 <= i < c_string(bytes).len() ==> #[trigger] c_string(bytes)[i] == bytes[i]
                && bytes[i] != 0,
        c_string(bytes).len() < bytes.len() ==> bytes[c_string(bytes).len() as int] == 0,
    decreases bytes.len(),
{
    if bytes.len() > 0 && bytes[0] != 0 {
        let rest = bytes.drop_first();
        law_c_string(rest);
        assert forall|i: int| 0 <= i < c_string(bytes).len() implies #[trigger] c_string(bytes)[i]
            == bytes[i] && bytes[i] != 0 by {
            if i > 0 {
                assert(c_string(rest)[i - 1] == rest[i - 1]);
            }
        }
    }
}

/// A reader of the array sees each slot before the first empty one, under the
/// key and with the value that lie in that slot, and nothing more.
pub proof fn law_reader_sees_the_slots(slots: Seq<KvSlot>, n: int, i: int)
    requires
        0 <= n < slots.len(),
        forall|k: int| 0 <= k < n ==> (#[trigger] slots[k]).key[0] != 0,
        slots[n].key[0] == 0,
        0 <= i < n,
        slots[i].key.len() == 128,
    ensures
        overrides(slots).len() == n,
        overrides(slots)[i].value == slots[i].value,
        0 < overrides(slots)[i].key.len() <= 128,
        overrides(slots)[i].key == slots[i].key.take(overrides(slots)[i].key.len() as int),
        forall|j: int| 0 <= j < overrides(slots)[i].key.len() ==> slots[i].key[j] != 0,
        overrides(slots)[i].key.len() < 128 ==> slots[i].key[
            overrides(slots)[i].key.len() as int
        ] == 0,
{
    lemma_named_count_is(slots, n);
    let key = overrides(slots)[i].key;
    assert(key == c_string(slots[i].key));
    law_c_string(slots[i].key);
    assert(slots[i].key[0] != 0);
    assert(key =~= slots[i].key.take(key.len() as int));
    assert forall|j: int| 0 <= j < key.len() implies slots[i].key[j] != 0 by {
        assert(c_string(slots[i].key)[j] == slots[i].key[j]);
    }
}

/// A reader goes on until the first empty slot: those it sees have a key, and
/// the one behind them, if any, has none.
pub proof fn law_reader_stops_where_the_slots_end(slots: Seq<KvSlot>)
    ensures
        overrides(slots).len() <= slots.len(),
        forall|i: int| 0 <= i < overrides(slots).len() ==> (#[trigger] slots[i]).key[0] != 0,
        overrides(slots).len() < slots.len() ==> slots[overrides(slots).len() as int].key[0] == 0,
{
    lemma_named_count(slots);
}

/// A reader of an array that begins with an empty slot sees nothing.
pub proof fn law_reader_stops_at_an_empty_slot(slots: Seq<KvSlot>)
    requires
        slots.len() > 0,
        slots[0].key[0] == 0,
    ensures
        overrides(slots).len() == 0,
{
}

/// What appending does to the slots that the backend reads: the first empty
/// slot `n` takes the value itself and the key's bytes followed by zeros, every
/// other slot keeps its key and value, and one slot is added that is all
/// zeros.
pub proof fn law_append_writes_the_slot(
    slots: Seq<KvSlot>,
    key: Seq<u8>,
    value: ParamOverrideValue,
    n: int,
)
    requires
        0 <= n < slots.len(),
        forall|k: int| 0 <= k < n ==> (#[trigger] slots[k]).key[0] != 0,
        slots[n].key[0] == 0,
        key.len() <= 127,
    ensures
        appended(slots, key, value).len() == slots.len() + 1,
        appended(slots, key, value)[n].value == value,
        appended(slots, key, value)[n].key.len() == 128,
        forall|i: int|
            0 <= i < key.len() ==> #[trigger] appended(slots, key, value)[n].key[i] == key[i],
        forall|i: int|
            key.len() <= i < 128 ==> #[trigger] appended(slots, key, value)[n].key[i] == 0,
        forall|i: int|
            0 <= i < slots.len() && i != n ==> #[trigger] appended(slots, key, value)[i]
                == slots[i],
        appended(slots, key, value)[slots.len() as int].value == ParamOverrideValue::Int(0),
        appended(slots, key, value)[slots.len() as int].key.len() == 128,
        forall|i: int|
            0 <= i < 128 ==> #[trigger] appended(slots, key, value)[slots.len() as int].key[i]
                == 0,
{
    lemma_named_count_is(slots, n);
}

/// An array without overrides is one slot, all zeros.
pub proof fn law_new_array_is_one_empty_slot(i: int)
    requires
        0 <= i < 128,
    ensures
        no_overrides().len() == 1,
        no_overrides()[0].key.len() == 128,
        no_overrides()[0].key[i] == 0,
        no_overrides()[0].value == ParamOverrideValue::Int(0),
{
}

/// A terminated array has an empty slot for a reader to stop at, and every key
/// in it has a zero for a reader of the key to stop at.
pub proof fn law_terminated_arrays_end(slots: Seq<KvSlot>, i: int)
    requires
        terminated(slots),
        0 <= i < slots.len(),
    ensures
        overrides(slots).len() < slots.len(),
        slots[slots.len() - 1].key[0] == 0,
        slots[i].key.len() == 128,
        c_string(slots[i].key).len() < 128,
{
    lemma_named_count(slots);
    law_c_string(slots[i].key);
    let n = named_count(slots) as int;
    if n == slots.len() {
        assert(slots[n - 1].key[0] != 0);
    }
    if c_string(slots[i].key).len() == 128 {
        assert(c_string(slots[i].key)[127] == slots[i].key[127]);
    }
}

} // verus!
