//! A container that holds at most one value of each kind of an enumeration,
//! where a value's kind is its variant, whatever its payload.
use std::collections::VecDeque;

use vstd::prelude::*;

verus! {

/// An enumeration whose values fall into finitely many kinds and serialize
/// to one key/value pair each: the key names the kind, the value encodes the
/// payload.
pub trait SerializableEnum: Sized {
    /// What a value's payload serializes to.
    type V: View;

    /// The number of kinds.
    spec fn spec_kind_count() -> nat;

    /// The kind of a value, an index below `spec_kind_count()`.
    spec fn spec_kind(&self) -> nat;

    /// The key under which values of kind `kind` serialize.
    spec fn spec_key(kind: nat) -> Seq<char>;

    /// What the payload of a value serializes to.
    spec fn spec_value(&self) -> <Self::V as View>::V;

    /// Distinct kinds serialize under distinct keys.
    proof fn lemma_keys_distinct(k1: nat, k2: nat)
        requires
            k1 < Self::spec_kind_count(),
            k2 < Self::spec_kind_count(),
            k1 != k2,
        ensures
            Self::spec_key(k1) != Self::spec_key(k2),
    ;

    /// Every value's kind is below the kind count.
    proof fn lemma_kind_bound(&self)
        ensures
            self.spec_kind() < Self::spec_kind_count(),
    ;

    fn kind_count() -> (r: usize)
        ensures
            r == Self::spec_kind_count(),
    ;

    fn kind(&self) -> (r: usize)
        ensures
            r == self.spec_kind(),
            r < Self::spec_kind_count(),
    ;

    fn get_key(&self) -> (r: String)
        ensures
            r@ == Self::spec_key(self.spec_kind()),
    ;

    fn get_value(&self) -> (r: Self::V)
        ensures
            r@ == self.spec_value(),
    ;
}

/// A value compared by its kind alone: two wrappers are equal when their
/// values are of one kind, whatever their payloads.
pub struct EnumWrapper<E>(pub E);

impl<E> EnumWrapper<E> {
    pub fn into_internal(self) -> (r: E)
        ensures
            r == self.0,
    {
        self.0
    }

    pub fn get_ref(&self) -> (r: &E)
        ensures
            *r == self.0,
    {
        &self.0
    }
}

impl<E: SerializableEnum> PartialEq for EnumWrapper<E> {
    fn eq(&self, other: &Self) -> (r: bool) {
        self.0.kind() == other.0.kind()
    }
}

impl<E: SerializableEnum> vstd::std_specs::cmp::PartialEqSpecImpl for EnumWrapper<E> {
    open spec fn obeys_eq_spec() -> bool {
        true
    }

    open spec fn eq_spec(&self, other: &Self) -> bool {
        self.0.spec_kind() == other.0.spec_kind()
    }
}

impl<E: SerializableEnum> Eq for EnumWrapper<E> {
}

impl<E> From<E> for EnumWrapper<E> {
    fn from(internal: E) -> (r: Self)
        ensures
            r.0 == internal,
    {
        EnumWrapper(internal)
    }
}

impl<E> vstd::std_specs::convert::FromSpecImpl<E> for EnumWrapper<E> {
    open spec fn obeys_from_spec() -> bool {
        true
    }

    open spec fn from_spec(v: E) -> EnumWrapper<E> {
        EnumWrapper(v)
    }
}

/// Number of occupied slots in `s`.
spec fn occupied<T>(s: Seq<Option<T>>) -> nat
    decreases s.len(),
{
    if s.len() == 0 {
        0
    } else {
        occupied(s.drop_last()) + if s.last() is Some {
            1nat
        } else {
            0nat
        }
    }
}

/// The indices below `n` of the occupied slots of `s`.
spec fn occupied_indices<T>(s: Seq<Option<T>>, n: nat) -> Set<nat> {
    Set::new(|k: nat| k < n && s[k as int] is Some)
}

proof fn lemma_occupied_indices<T>(s: Seq<Option<T>>, n: nat)
    requires
        n <= s.len(),
    ensures
        occupied_indices(s, n).finite(),
        occupied_indices(s, n).len() == occupied(s.take(n as int)),
    decreases n,
{
    if n == 0 {
        assert(occupied_indices(s, n) =~= Set::empty());
    } else {
        let m = (n - 1) as nat;
        lemma_occupied_indices(s, m);
        assert(s.take(n as int).drop_last() =~= s.take(m as int));
        if s[m as int] is Some {
            assert(occupied_indices(s, n) =~= occupied_indices(s, m).insert(m));
        } else {
            assert(occupied_indices(s, n) =~= occupied_indices(s, m));
        }
    }
}

/// Every kind-keyed map that `E`'s values can form: keys below the kind
/// count, each mapped to a value of that kind.
pub open spec fn is_kind_map<E: SerializableEnum>(m: Map<nat, E>) -> bool {
    forall|k: nat| #[trigger] m.contains_key(k) ==> k < E::spec_kind_count() && m[k].spec_kind() == k
}

/// The pairs that the values of kinds below `n` stored in `m` serialize to,
/// in increasing order of kind: the key names the kind, the value encodes
/// the payload.
pub open spec fn serialized_below<E: SerializableEnum>(m: Map<nat, E>, n: nat) -> Seq<(Seq<char>, <E::V as View>::V)>
    decreases n,
{
    if n == 0 {
        Seq::empty()
    } else {
        let k = (n - 1) as nat;
        let rest = serialized_below(m, k);
        if m.contains_key(k) {
            rest.push((E::spec_key(k), m[k].spec_value()))
        } else {
            rest
        }
    }
}

/// The pairs that the values stored in `m` serialize to, one per value.
pub open spec fn serialized<E: SerializableEnum>(m: Map<nat, E>) -> Seq<(Seq<char>, <E::V as View>::V)> {
    serialized_below(m, E::spec_kind_count())
}

/// The values of kinds below `n` stored in `m`, in increasing order of kind.
pub open spec fn values_below<E>(m: Map<nat, E>, n: nat) -> Seq<E>
    decreases n,
{
    if n == 0 {
        Seq::empty()
    } else {
        let k = (n - 1) as nat;
        if m.contains_key(k) {
            values_below(m, k).push(m[k])
        } else {
            values_below(m, k)
        }
    }
}

/// The values stored in `m`, in increasing order of kind.
pub open spec fn stored_values<E: SerializableEnum>(m: Map<nat, E>) -> Seq<E> {
    values_below(m, E::spec_kind_count())
}

/// Key/value pairs, each part read through its view.
pub open spec fn entries_view<V: View>(entries: Seq<(String, V)>) -> Seq<(Seq<char>, V::V)> {
    entries.map_values(|e: (String, V)| (e.0@, e.1@))
}

/// A set of enum values holding at most one value of each kind. Inserting a
/// value of a kind already present replaces the stored one.
#[derive(Debug)]
pub struct EnumMap<E: SerializableEnum> {
    slots: Vec<Option<E>>,
}

impl<E: SerializableEnum> View for EnumMap<E> {
    type V = Map<nat, E>;

    /// The stored values, by kind.
    closed spec fn view(&self) -> Map<nat, E> {
        Map::new(
            |k: nat| k < self.slots@.len() && self.slots@[k as int] is Some,
            |k: nat| self.slots@[k as int]->Some_0,
        )
    }
}

impl<E: SerializableEnum> EnumMap<E> {
    /// Slot `k` holds the value of kind `k`, if any.
    pub closed spec fn well_formed(&self) -> bool {
        &&& self.slots@.len() == E::spec_kind_count()
        &&& forall|k: int| 0 <= k < self.slots@.len() && #[trigger] self.slots@[k] is Some
            ==> self.slots@[k]->Some_0.spec_kind() == k
    }

    proof fn lemma_len_is_occupied(&self)
        requires
            self.well_formed(),
        ensures
            self@.dom().finite(),
            self@.len() == occupied(self.slots@),
    {
        lemma_occupied_indices(self.slots@, self.slots@.len());
        assert(self@.dom() =~= occupied_indices(self.slots@, self.slots@.len()));
        assert(self.slots@.take(self.slots@.len() as int) =~= self.slots@);
    }

    /// A well-formed set stores finitely many values, each under its own
    /// kind, which is below the kind count.
    pub proof fn lemma_stored_kinds(&self)
        requires
            self.well_formed(),
        ensures
            is_kind_map(self@),
            self@.dom().finite(),
    {
        self.lemma_len_is_occupied();
    }

    pub fn new() -> (r: Self)
        ensures
            r.well_formed(),
            r@ == Map::<nat, E>::empty(),
    {
        let count = E::kind_count();
        let mut slots: Vec<Option<E>> = Vec::new();
        let mut i: usize = 0;
        while i < count
            invariant
                i <= count,
                count == E::spec_kind_count(),
                slots@.len() == i,
                forall|k: int| 0 <= k < i ==> slots@[k] is None,
            decreases count - i,
        {
            slots.push(None);
            i = i + 1;
        }
        let r = EnumMap { slots };
        assert(r@ =~= Map::<nat, E>::empty());
        r
    }

    /// Stores `item`, replacing and returning the stored value of its kind.
    pub fn insert(&mut self, item: E) -> (r: Option<E>)
        requires
            old(self).well_formed(),
        ensures
            final(self).well_formed(),
            final(self)@ == old(self)@.insert(item.spec_kind(), item),
            r == (if old(self)@.contains_key(item.spec_kind()) {
                Some(old(self)@[item.spec_kind()])
            } else {
                None::<E>
            }),
    {
        let k = item.kind();
        let mut slot = Some(item);
        std::mem::swap(&mut self.slots[k], &mut slot);
        assert(self@ =~= old(self)@.insert(k as nat, item));
        slot
    }

    /// The stored value of the same kind as `item`.
    pub fn get(&self, item: E) -> (r: Option<&E>)
        requires
            self.well_formed(),
        ensures
            r == (if self@.contains_key(item.spec_kind()) {
                Some(&self@[item.spec_kind()])
            } else {
                None::<&E>
            }),
    {
        let k = item.kind();
        self.slots[k].as_ref()
    }

    /// Removes and returns the stored value of the same kind as `item`.
    pub fn remove(&mut self, item: E) -> (r: Option<E>)
        requires
            old(self).well_formed(),
        ensures
            final(self).well_formed(),
            final(self)@ == old(self)@.remove(item.spec_kind()),
            r == (if old(self)@.contains_key(item.spec_kind()) {
                Some(old(self)@[item.spec_kind()])
            } else {
                None::<E>
            }),
    {
        let k = item.kind();
        let mut slot: Option<E> = None;
        std::mem::swap(&mut self.slots[k], &mut slot);
        assert(self@ =~= old(self)@.remove(k as nat));
        slot
    }

    /// The number of stored values.
    pub fn len(&self) -> (r: usize)
        requires
            self.well_formed(),
        ensures
            r == self@.len(),
    {
        let n = self.slots.len();
        let mut count: usize = 0;
        let mut i: usize = 0;
        while i < n
            invariant
                n == self.slots@.len(),
                i <= n,
                count <= i,
                count == occupied(self.slots@.take(i as int)),
            decreases n - i,
        {
            assert(self.slots@.take(i + 1).drop_last() =~= self.slots@.take(i as int));
            if self.slots[i].is_some() {
                count = count + 1;
            }
            i = i + 1;
        }
        proof {
            self.lemma_len_is_occupied();
            assert(self.slots@.take(n as int) =~= self.slots@);
        }
        count
    }

    /// Hands out the stored values, in increasing order of kind.
    pub fn into_iter(self) -> (r: IntoIter<E>)
        requires
            self.well_formed(),
        ensures
            r@ == stored_values(self@),
    {
        let ghost m = self@;
        let mut slots = self.slots;
        let n = slots.len();
        let mut items: VecDeque<E> = VecDeque::new();
        let mut i: usize = 0;
        while i < n
            invariant
                n == slots@.len(),
                n == E::spec_kind_count(),
                i <= n,
                forall|k: nat| i <= k < n ==> (#[trigger] m.contains_key(k) <==> slots@[k as int] is Some),
                forall|k: nat| i <= k < n && #[trigger] m.contains_key(k) ==> slots@[k as int] == Some(m[k]),
                forall|k: nat| #[trigger] m.contains_key(k) ==> k < n,
                items@ == values_below(m, i as nat),
            decreases n - i,
        {
            let mut slot: Option<E> = None;
            std::mem::swap(&mut slots[i], &mut slot);
            match slot {
                Some(e) => {
                    items.push_back(e);
                },
                None => {},
            }
            i = i + 1;
        }
        IntoIter { items }
    }

    /// Lends out the stored values, in increasing order of kind.
    pub fn iter(&self) -> (r: Iter<'_, E>)
        requires
            self.well_formed(),
        ensures
            r@ == stored_values(self@),
    {
        let n = self.slots.len();
        let mut items: VecDeque<&E> = VecDeque::new();
        let mut i: usize = 0;
        while i < n
            invariant
                self.well_formed(),
                n == self.slots@.len(),
                i <= n,
                items@.map_values(|e: &E| *e) == values_below(self@, i as nat),
            decreases n - i,
        {
            match &self.slots[i] {
                Some(e) => {
                    items.push_back(e);
                },
                None => {},
            }
            assert(items@.map_values(|e: &E| *e) =~= values_below(self@, (i + 1) as nat));
            i = i + 1;
        }
        Iter { items }
    }

    /// The key/value pairs that the stored values serialize to, one per
    /// stored value, in increasing order of kind.
    pub fn serialize(&self) -> (r: Vec<(String, E::V)>)
        requires
            self.well_formed(),
        ensures
            entries_view(r@) == serialized(self@),
    {
        let n = self.slots.len();
        let mut entries: Vec<(String, E::V)> = Vec::new();
        let mut i: usize = 0;
        while i < n
            invariant
                self.well_formed(),
                n == self.slots@.len(),
                i <= n,
                entries_view(entries@) =~= serialized_below(self@, i as nat),
            decreases n - i,
        {
            match &self.slots[i] {
                Some(e) => {
                    let key = e.get_key();
                    let value = e.get_value();
                    entries.push((key, value));
                },
                None => {},
            }
            i = i + 1;
        }
        entries
    }
}

/// The values that an `EnumMap` handed out, in increasing order of kind.
pub struct IntoIter<E> {
    items: VecDeque<E>,
}

impl<E> View for IntoIter<E> {
    type V = Seq<E>;

    /// The values not yet handed out, in the order in which they come.
    closed spec fn view(&self) -> Seq<E> {
        self.items@
    }
}

impl<E> IntoIter<E> {
    /// The next value, if any is left.
    pub fn next(&mut self) -> (r: Option<E>)
        ensures
            old(self)@.len() == 0 ==> r is None && final(self)@ == old(self)@,
            old(self)@.len() > 0 ==> r == Some(old(self)@[0]) && final(self)@ == old(self)@.drop_first(),
    {
        self.items.pop_front()
    }
}

/// The values that an `EnumMap` lends out, in increasing order of kind.
pub struct Iter<'a, E> {
    items: VecDeque<&'a E>,
}

impl<'a, E> View for Iter<'a, E> {
    type V = Seq<E>;

    /// The values not yet lent out, in the order in which they come.
    closed spec fn view(&self) -> Seq<E> {
        self.items@.map_values(|e: &E| *e)
    }
}

impl<'a, E> Iter<'a, E> {
    /// The next value, if any is left.
    pub fn next(&mut self) -> (r: Option<&'a E>)
        ensures
            old(self)@.len() == 0 ==> r is None && final(self)@ == old(self)@,
            old(self)@.len() > 0 ==> r == Some(&old(self)@[0]) && final(self)@ == old(self)@.drop_first(),
    {
        let r = self.items.pop_front();
        assert(self@ =~= old(self)@.drop_first() || old(self)@.len() == 0);
        r
    }
}

impl<E: SerializableEnum> Default for EnumMap<E> {
    fn default() -> (r: Self)
        ensures
            r.well_formed(),
            r@ == Map::<nat, E>::empty(),
    {
        Self::new()
    }
}

/// The map that inserting `items`, one after another, into an empty set
/// yields.
pub open spec fn inserted_all<E: SerializableEnum>(items: Seq<E>) -> Map<nat, E>
    decreases items.len(),
{
    if items.len() == 0 {
        Map::empty()
    } else {
        let last = items.last();
        inserted_all(items.drop_last()).insert(last.spec_kind(), last)
    }
}

/// The kinds of the values in `items`.
pub open spec fn kinds_of<E: SerializableEnum>(items: Seq<E>) -> Set<nat> {
    Set::new(|k: nat| exists|i: int| 0 <= i < items.len() && #[trigger] items[i].spec_kind() == k)
}

/// `v` is the last value of kind `k` in `items`.
pub open spec fn is_last_of_kind<E: SerializableEnum>(items: Seq<E>, k: nat, v: E) -> bool {
    exists|i: int|
        0 <= i < items.len() && items[i] == v && v.spec_kind() == k && forall|j: int|
            i < j < items.len() ==> #[trigger] items[j].spec_kind() != k
}

/// The kinds below `n` that `m` holds, in increasing order.
spec fn kinds_below<E>(m: Map<nat, E>, n: nat) -> Seq<nat>
    decreases n,
{
    if n == 0 {
        Seq::empty()
    } else {
        let k = (n - 1) as nat;
        if m.contains_key(k) {
            kinds_below(m, k).push(k)
        } else {
            kinds_below(m, k)
        }
    }
}

proof fn lemma_serialized_below<E: SerializableEnum>(m: Map<nat, E>, n: nat)
    requires
        n <= E::spec_kind_count(),
    ensures
        Set::new(|k: nat| k < n && m.contains_key(k)).finite(),
        serialized_below(m, n).len() == Set::new(|k: nat| k < n && m.contains_key(k)).len(),
        kinds_below(m, n).len() == serialized_below(m, n).len(),
        forall|i: int| #![trigger kinds_below(m, n)[i]] 0 <= i < kinds_below(m, n).len() ==> {
            &&& kinds_below(m, n)[i] < n
            &&& serialized_below(m, n)[i].0 == E::spec_key(kinds_below(m, n)[i])
        },
        forall|i: int, j: int| 0 <= i < j < kinds_below(m, n).len()
            ==> kinds_below(m, n)[i] < kinds_below(m, n)[j],
    decreases n,
{
    let below = Set::new(|k: nat| k < n && m.contains_key(k));
    if n == 0 {
        assert(below =~= Set::empty());
    } else {
        let p = (n - 1) as nat;
        lemma_serialized_below(m, p);
        let prev = Set::new(|k: nat| k < p && m.contains_key(k));
        if m.contains_key(p) {
            assert(below =~= prev.insert(p));
            let kinds = kinds_below(m, n);
            let rest = kinds_below(m, p);
            assert(kinds == rest.push(p));
            assert forall|i: int| #![trigger kinds[i]] 0 <= i < kinds.len() implies {
                &&& kinds[i] < n
                &&& serialized_below(m, n)[i].0 == E::spec_key(kinds[i])
            } by {
                if i < rest.len() {
                    assert(kinds[i] == rest[i]);
                    assert(serialized_below(m, n)[i] == serialized_below(m, p)[i]);
                }
            }
            assert forall|i: int, j: int| 0 <= i < j < kinds.len() implies kinds[i] < kinds[j] by {
                assert(kinds[i] == rest[i]);
                if j < rest.len() {
                    assert(kinds[j] == rest[j]);
                }
            }
        } else {
            assert(below =~= prev);
        }
    }
}

/// No key occurs twice in the serialization of the values of kinds below `n`.
proof fn lemma_serialized_keys_distinct<E: SerializableEnum>(m: Map<nat, E>, n: nat)
    requires
        n <= E::spec_kind_count(),
    ensures
        forall|i: int, j: int| 0 <= i < j < serialized_below(m, n).len()
            ==> serialized_below(m, n)[i].0 != serialized_below(m, n)[j].0,
{
    lemma_serialized_below(m, n);
    let kinds = kinds_below(m, n);
    assert forall|i: int, j: int| 0 <= i < j < serialized_below(m, n).len() implies serialized_below(
        m,
        n,
    )[i].0 != serialized_below(m, n)[j].0 by {
        assert(kinds[i] < kinds[j]);
        assert(kinds[j] < n);
        E::lemma_keys_distinct(kinds[i], kinds[j]);
    }
}

proof fn lemma_inserted_all<E: SerializableEnum>(items: Seq<E>)
    ensures
        inserted_all(items).dom() == kinds_of(items),
        forall|k: nat| #[trigger] inserted_all(items).contains_key(k) ==> is_last_of_kind(
            items,
            k,
            inserted_all(items)[k],
        ),
    decreases items.len(),
{
    if items.len() == 0 {
        assert(kinds_of(items) =~= Set::empty());
        assert(inserted_all(items).dom() =~= Set::empty());
    } else {
        let init = items.drop_last();
        let last = items.last();
        let n = items.len() - 1;
        lemma_inserted_all(init);
        let m = inserted_all(items);
        assert forall|k: nat| kinds_of(items).contains(k) <==> m.dom().contains(k) by {
            if kinds_of(items).contains(k) && k != last.spec_kind() {
                let i = choose|i: int| 0 <= i < items.len() && #[trigger] items[i].spec_kind() == k;
                assert(init[i].spec_kind() == k);
                assert(kinds_of(init).contains(k));
            }
            if m.dom().contains(k) && k != last.spec_kind() {
                assert(kinds_of(init).contains(k));
                let i = choose|i: int| 0 <= i < init.len() && #[trigger] init[i].spec_kind() == k;
                assert(items[i].spec_kind() == k);
            }
            if k == last.spec_kind() {
                assert(items[n].spec_kind() == k);
            }
        }
        assert(m.dom() =~= kinds_of(items));
        assert forall|k: nat| #[trigger] m.contains_key(k) implies is_last_of_kind(items, k, m[k]) by {
            if k == last.spec_kind() {
                assert(items[n] == m[k]);
            } else {
                assert(is_last_of_kind(init, k, m[k]));
                let i = choose|i: int|
                    0 <= i < init.len() && init[i] == m[k] && m[k].spec_kind() == k && forall|j: int|
                        i < j < init.len() ==> #[trigger] init[j].spec_kind() != k;
                assert(items[i] == m[k]);
                assert forall|j: int| i < j < items.len() implies #[trigger] items[j].spec_kind() != k by {
                    if j < n {
                        assert(items[j] == init[j]);
                    }
                }
            }
        }
    }
}

/// Inserting any sequence of values into an empty set leaves exactly one
/// stored value for each kind inserted, namely the last value of that kind;
/// the set's serialization has one pair per stored value and no key twice.
pub proof fn lemma_one_entry_per_kind<E: SerializableEnum>(items: Seq<E>)
    ensures
        inserted_all(items).dom() == kinds_of(items),
        forall|k: nat| #[trigger] inserted_all(items).contains_key(k) ==> is_last_of_kind(
            items,
            k,
            inserted_all(items)[k],
        ),
        serialized(inserted_all(items)).len() == inserted_all(items).len(),
        forall|i: int, j: int| 0 <= i < j < serialized(inserted_all(items)).len()
            ==> serialized(inserted_all(items))[i].0 != serialized(inserted_all(items))[j].0,
{
    lemma_inserted_all(items);
    let m = inserted_all(items);
    let count = E::spec_kind_count();
    lemma_serialized_below(m, count);
    lemma_serialized_keys_distinct(m, count);
    assert forall|k: nat| m.contains_key(k) implies k < count by {
        let i = choose|i: int| 0 <= i < items.len() && #[trigger] items[i].spec_kind() == k;
        items[i].lemma_kind_bound();
    }
    assert(Set::new(|k: nat| k < count && m.contains_key(k)) =~= m.dom());
}

} // verus!
