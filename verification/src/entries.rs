//! Texts under keys, kept in ascending order of the keys.
use vstd::prelude::*;
use crate::text;

verus! {

/// Entries with a value for `key` at its place.
pub open spec fn placed(
    entries: Seq<(Seq<char>, Seq<char>)>,
    key: Seq<char>,
    value: Seq<char>,
) -> Seq<(Seq<char>, Seq<char>)>
    decreases entries.len(),
{
    if entries.len() == 0 {
        seq![(key, value)]
    } else if entries[0].0 == key {
        entries.update(0, (key, value))
    } else if text::precedes(key, entries[0].0) {
        seq![(key, value)] + entries
    } else {
        seq![entries[0]] + placed(entries.skip(1), key, value)
    }
}

/// The value under a key, if there is one.
pub open spec fn value_of(entries: Seq<(Seq<char>, Seq<char>)>, key: Seq<char>) -> Option<Seq<char>>
    decreases entries.len(),
{
    if entries.len() == 0 {
        None
    } else if entries[0].0 == key {
        Some(entries[0].1)
    } else {
        value_of(entries.skip(1), key)
    }
}

/// Texts under keys.
pub struct Entries {
    pub items: Vec<(String, String)>,
}

impl View for Entries {
    type V = Seq<(Seq<char>, Seq<char>)>;

    open spec fn view(&self) -> Seq<(Seq<char>, Seq<char>)> {
        Seq::new(self.items@.len(), |i: int| (self.items@[i].0@, self.items@[i].1@))
    }
}

/// Placing an entry behind others that come before it leaves those as they are.
proof fn lemma_placed_behind(
    entries: Seq<(Seq<char>, Seq<char>)>,
    k: int,
    key: Seq<char>,
    value: Seq<char>,
)
    requires
        0 <= k <= entries.len(),
        forall|i: int|
            0 <= i < k ==> (#[trigger] entries[i]).0 != key && !text::precedes(key, entries[i].0),
    ensures
        placed(entries, key, value) == entries.take(k) + placed(entries.skip(k), key, value),
    decreases k,
{
    if k == 0 {
        assert(entries.skip(0) =~= entries);
        assert(entries.take(0) + placed(entries, key, value) =~= placed(entries, key, value));
    } else {
        let rest = entries.skip(1);
        assert(entries[0].0 != key);
        assert forall|i: int| 0 <= i < k - 1 implies (#[trigger] rest[i]).0 != key
            && !text::precedes(key, rest[i].0) by {
            assert(rest[i] == entries[i + 1]);
        }
        lemma_placed_behind(rest, k - 1, key, value);
        assert(rest.skip(k - 1) =~= entries.skip(k));
        assert(seq![entries[0]] + rest.take(k - 1) =~= entries.take(k));
        assert(seq![entries[0]] + (rest.take(k - 1) + placed(entries.skip(k), key, value))
            =~= entries.take(k) + placed(entries.skip(k), key, value));
    }
}

impl Entries {
    /// Nothing.
    pub fn new() -> (r: Entries)
        ensures
            r@ == Seq::<(Seq<char>, Seq<char>)>::empty(),
    {
        let r = Entries { items: Vec::new() };
        assert(r@ =~= Seq::<(Seq<char>, Seq<char>)>::empty());
        r
    }

    /// Puts a value under a key.
    pub fn put(&mut self, key: &str, value: &str)
        ensures
            final(self)@ == placed(old(self)@, key@, value@),
    {
        let ghost before = self@;
        let mut k: usize = 0;
        while k < self.items.len() && !text::same_text(self.items[k].0.as_str(), key)
            && !text::comes_before(key, self.items[k].0.as_str())
            invariant
                k <= self.items@.len(),
                self@ == before,
                forall|i: int|
                    0 <= i < k ==> (#[trigger] before[i]).0 != key@ && !text::precedes(
                        key@,
                        before[i].0,
                    ),
            decreases self.items@.len() - k,
        {
            assert(before[k as int].0 == self.items@[k as int].0@);
            k = k + 1;
        }
        proof {
            lemma_placed_behind(before, k as int, key@, value@);
            if k < before.len() {
                assert(before[k as int].0 == self.items@[k as int].0@);
                assert(before.skip(k as int)[0] == before[k as int]);
            }
        }
        if k < self.items.len() && text::same_text(self.items[k].0.as_str(), key) {
            let entry = (key.to_owned(), value.to_owned());
            self.items.set(k, entry);
            proof {
                assert(self@ =~= before.take(k as int) + before.skip(k as int).update(
                    0,
                    (key@, value@),
                ));
            }
        } else {
            self.items.insert(k, (key.to_owned(), value.to_owned()));
            proof {
                assert(self@ =~= before.take(k as int) + (seq![(key@, value@)] + before.skip(
                    k as int,
                )));
                if k == before.len() {
                    assert(before.skip(k as int) =~= Seq::<(Seq<char>, Seq<char>)>::empty());
                    assert(seq![(key@, value@)] + before.skip(k as int) =~= seq![(key@, value@)]);
                }
            }
        }
    }

    /// The value under a key, if there is one.
    pub fn get(&self, key: &str) -> (r: Option<&str>)
        ensures
            match r {
                Some(value) => value_of(self@, key@) == Some(value@),
                None => value_of(self@, key@) is None,
            },
    {
        let mut i: usize = 0;
        assert(self@.skip(0) =~= self@);
        while i < self.items.len()
            invariant
                i <= self.items@.len(),
                value_of(self@.skip(i as int), key@) == value_of(self@, key@),
            decreases self.items@.len() - i,
        {
            assert(self@.skip(i as int)[0] == (self.items@[i as int].0@, self.items@[i as int].1@));
            if text::same_text(self.items[i].0.as_str(), key) {
                return Some(self.items[i].1.as_str());
            }
            assert(self@.skip(i as int).skip(1) =~= self@.skip(i + 1));
            i = i + 1;
        }
        None
    }

    /// The value under a key, or nothing at all.
    pub fn get_or_empty(&self, key: &str) -> (r: String)
        ensures
            r@ == value_or_empty(self@, key@),
    {
        match self.get(key) {
            Some(value) => value.to_owned(),
            None => {
                let r = String::new();
                assert(r@ =~= Seq::<char>::empty());
                r
            },
        }
    }

    /// How many keys there are.
    pub fn len(&self) -> (r: usize)
        ensures
            r == self@.len(),
    {
        self.items.len()
    }
}

/// The value under a key, or nothing at all.
pub open spec fn value_or_empty(entries: Seq<(Seq<char>, Seq<char>)>, key: Seq<char>) -> Seq<char> {
    match value_of(entries, key) {
        Some(value) => value,
        None => Seq::empty(),
    }
}

/// Whether keys stand in strictly ascending order.
pub open spec fn ordered(entries: Seq<(Seq<char>, Seq<char>)>) -> bool {
    forall|i: int, j: int|
        0 <= i < j < entries.len() ==> text::precedes(
            (#[trigger] entries[i]).0,
            (#[trigger] entries[j]).0,
        )
}

/// Where a key comes from after one was placed.
proof fn lemma_placed_keys(
    entries: Seq<(Seq<char>, Seq<char>)>,
    key: Seq<char>,
    value: Seq<char>,
    i: int,
)
    requires
        0 <= i < placed(entries, key, value).len(),
    ensures
        placed(entries, key, value)[i].0 == key || exists|j: int|
            0 <= j < entries.len() && entries[j].0 == placed(entries, key, value)[i].0,
    decreases entries.len(),
{
    if entries.len() == 0 {
    } else if entries[0].0 == key {
        if i > 0 {
            assert(entries[i].0 == placed(entries, key, value)[i].0);
        }
    } else if text::precedes(key, entries[0].0) {
        if i > 0 {
            assert(entries[i - 1].0 == placed(entries, key, value)[i].0);
        }
    } else {
        let rest = entries.skip(1);
        if i > 0 {
            lemma_placed_keys(rest, key, value, i - 1);
            if rest.len() > 0 && placed(rest, key, value)[i - 1].0 != key {
                let j = choose|j: int|
                    0 <= j < rest.len() && rest[j].0 == placed(rest, key, value)[i - 1].0;
                assert(entries[j + 1].0 == placed(entries, key, value)[i].0);
            }
        } else {
            assert(entries[0].0 == placed(entries, key, value)[i].0);
        }
    }
}

/// Putting entries keeps the keys in strictly ascending order: no key is written
/// twice.
pub proof fn lemma_keys_stay_ordered(
    entries: Seq<(Seq<char>, Seq<char>)>,
    key: Seq<char>,
    value: Seq<char>,
)
    requires
        ordered(entries),
    ensures
        ordered(placed(entries, key, value)),
    decreases entries.len(),
{
    let after = placed(entries, key, value);
    if entries.len() == 0 {
    } else if entries[0].0 == key {
        assert forall|i: int, j: int| 0 <= i < j < after.len() implies text::precedes(
            (#[trigger] after[i]).0,
            (#[trigger] after[j]).0,
        ) by {
            assert(after[i].0 == entries[i].0);
            assert(after[j].0 == entries[j].0);
        }
    } else if text::precedes(key, entries[0].0) {
        assert forall|i: int, j: int| 0 <= i < j < after.len() implies text::precedes(
            (#[trigger] after[i]).0,
            (#[trigger] after[j]).0,
        ) by {
            if i > 0 {
                assert(after[i] == entries[i - 1] && after[j] == entries[j - 1]);
            } else {
                assert(after[j] == entries[j - 1]);
                if j > 1 {
                    text::lemma_precedes_transitive(key, entries[0].0, entries[j - 1].0);
                }
            }
        }
    } else {
        let rest = entries.skip(1);
        assert forall|i: int, j: int| 0 <= i < j < rest.len() implies text::precedes(
            (#[trigger] rest[i]).0,
            (#[trigger] rest[j]).0,
        ) by {
            assert(rest[i] == entries[i + 1] && rest[j] == entries[j + 1]);
        }
        lemma_keys_stay_ordered(rest, key, value);
        text::lemma_precedes_total(entries[0].0, key);
        assert forall|i: int, j: int| 0 <= i < j < after.len() implies text::precedes(
            (#[trigger] after[i]).0,
            (#[trigger] after[j]).0,
        ) by {
            if i > 0 {
                assert(after[i] == placed(rest, key, value)[i - 1]);
                assert(after[j] == placed(rest, key, value)[j - 1]);
            } else {
                assert(after[j] == placed(rest, key, value)[j - 1]);
                lemma_placed_keys(rest, key, value, j - 1);
                if after[j].0 != key {
                    let k = choose|k: int|
                        0 <= k < rest.len() && rest[k].0 == placed(rest, key, value)[j - 1].0;
                    assert(rest[k] == entries[k + 1]);
                }
            }
        }
    }
}

/// A value that was put is the one that is found, and no other key is affected.
pub proof fn lemma_put_is_found(
    entries: Seq<(Seq<char>, Seq<char>)>,
    key: Seq<char>,
    value: Seq<char>,
    other: Seq<char>,
)
    ensures
        value_of(placed(entries, key, value), key) == Some(value),
        other != key ==> value_of(placed(entries, key, value), other) == value_of(entries, other),
    decreases entries.len(),
{
    let after = placed(entries, key, value);
    if entries.len() == 0 {
        assert(after.skip(1) =~= entries);
    } else if entries[0].0 == key {
        assert(after.skip(1) =~= entries.skip(1));
    } else if text::precedes(key, entries[0].0) {
        assert(after.skip(1) =~= entries);
    } else {
        lemma_put_is_found(entries.skip(1), key, value, other);
        assert(after.skip(1) =~= placed(entries.skip(1), key, value));
    }
}

/// Entries with values for several keys, each put in turn.
pub open spec fn all_placed(
    entries: Seq<(Seq<char>, Seq<char>)>,
    pairs: Seq<(Seq<char>, Seq<char>)>,
) -> Seq<(Seq<char>, Seq<char>)>
    decreases pairs.len(),
{
    if pairs.len() == 0 {
        entries
    } else {
        placed(all_placed(entries, pairs.drop_last()), pairs.last().0, pairs.last().1)
    }
}

/// Entries without those under a key.
pub open spec fn without(entries: Seq<(Seq<char>, Seq<char>)>, key: Seq<char>) -> Seq<
    (Seq<char>, Seq<char>),
>
    decreases entries.len(),
{
    if entries.len() == 0 {
        entries
    } else if entries[0].0 == key {
        without(entries.skip(1), key)
    } else {
        seq![entries[0]] + without(entries.skip(1), key)
    }
}

/// Entries without those under several keys.
pub open spec fn without_all(
    entries: Seq<(Seq<char>, Seq<char>)>,
    keys: Seq<Seq<char>>,
) -> Seq<(Seq<char>, Seq<char>)>
    decreases keys.len(),
{
    if keys.len() == 0 {
        entries
    } else {
        without(without_all(entries, keys.drop_last()), keys.last())
    }
}

/// The value that the last of several pairs gives a key, if one does.
pub open spec fn last_value(pairs: Seq<(Seq<char>, Seq<char>)>, key: Seq<char>) -> Option<Seq<char>>
    decreases pairs.len(),
{
    if pairs.len() == 0 {
        None
    } else if pairs.last().0 == key {
        Some(pairs.last().1)
    } else {
        last_value(pairs.drop_last(), key)
    }
}

/// Of several pairs that were put, the last one for a key is found; a key that none of
/// them has keeps what it had.
pub proof fn lemma_all_placed_are_found(
    entries: Seq<(Seq<char>, Seq<char>)>,
    pairs: Seq<(Seq<char>, Seq<char>)>,
    key: Seq<char>,
)
    ensures
        value_of(all_placed(entries, pairs), key) == (match last_value(pairs, key) {
            Some(value) => Some(value),
            None => value_of(entries, key),
        }),
    decreases pairs.len(),
{
    if pairs.len() > 0 {
        lemma_all_placed_are_found(entries, pairs.drop_last(), key);
        lemma_put_is_found(
            all_placed(entries, pairs.drop_last()),
            pairs.last().0,
            pairs.last().1,
            key,
        );
    }
}

/// Putting several pairs keeps the keys in order.
pub proof fn lemma_all_placed_stay_ordered(
    entries: Seq<(Seq<char>, Seq<char>)>,
    pairs: Seq<(Seq<char>, Seq<char>)>,
)
    requires
        ordered(entries),
    ensures
        ordered(all_placed(entries, pairs)),
    decreases pairs.len(),
{
    if pairs.len() > 0 {
        lemma_all_placed_stay_ordered(entries, pairs.drop_last());
        lemma_keys_stay_ordered(
            all_placed(entries, pairs.drop_last()),
            pairs.last().0,
            pairs.last().1,
        );
    }
}

/// A key that was taken out is not found, and no other key is affected.
pub proof fn lemma_removed_is_gone(
    entries: Seq<(Seq<char>, Seq<char>)>,
    key: Seq<char>,
    other: Seq<char>,
)
    ensures
        value_of(without(entries, key), key) is None,
        other != key ==> value_of(without(entries, key), other) == value_of(entries, other),
    decreases entries.len(),
{
    if entries.len() > 0 {
        let rest = without(entries.skip(1), key);
        lemma_removed_is_gone(entries.skip(1), key, other);
        if entries[0].0 != key {
            assert((seq![entries[0]] + rest).skip(1) =~= rest);
        }
    }
}

proof fn lemma_all_removed_are_gone(
    entries: Seq<(Seq<char>, Seq<char>)>,
    keys: Seq<Seq<char>>,
    key: Seq<char>,
)
    ensures
        value_of(without_all(entries, keys), key) == (if keys.contains(key) {
            None
        } else {
            value_of(entries, key)
        }),
    decreases keys.len(),
{
    if keys.len() > 0 {
        let before = without_all(entries, keys.drop_last());
        lemma_all_removed_are_gone(entries, keys.drop_last(), key);
        lemma_removed_is_gone(before, keys.last(), key);
        if keys.contains(key) {
            let i = choose|i: int| 0 <= i < keys.len() && keys[i] == key;
            if i < keys.len() - 1 {
                assert(keys.drop_last()[i] == key);
            }
        } else {
            assert(keys[keys.len() - 1] != key);
            assert forall|i: int| 0 <= i < keys.len() - 1 implies keys.drop_last()[i] != key by {
                assert(keys[i] != key);
            }
        }
    }
}

proof fn lemma_removed_keys(entries: Seq<(Seq<char>, Seq<char>)>, key: Seq<char>, i: int) -> (j: int)
    requires
        0 <= i < without(entries, key).len(),
    ensures
        i <= j < entries.len(),
        entries[j] == without(entries, key)[i],
    decreases entries.len(),
{
    let rest = entries.skip(1);
    if entries[0].0 == key {
        let j = lemma_removed_keys(rest, key, i);
        assert(rest[j] == entries[j + 1]);
        j + 1
    } else if i == 0 {
        0
    } else {
        let j = lemma_removed_keys(rest, key, i - 1);
        assert(rest[j] == entries[j + 1]);
        j + 1
    }
}

/// Taking a key out keeps the others in order.
pub proof fn lemma_removal_keeps_order(entries: Seq<(Seq<char>, Seq<char>)>, key: Seq<char>)
    requires
        ordered(entries),
    ensures
        ordered(without(entries, key)),
    decreases entries.len(),
{
    if entries.len() > 0 {
        let rest = entries.skip(1);
        let after = without(entries, key);
        assert forall|i: int, j: int| 0 <= i < j < rest.len() implies text::precedes(
            (#[trigger] rest[i]).0,
            (#[trigger] rest[j]).0,
        ) by {
            assert(rest[i] == entries[i + 1] && rest[j] == entries[j + 1]);
        }
        lemma_removal_keeps_order(rest, key);
        if entries[0].0 != key {
            assert forall|i: int, j: int| 0 <= i < j < after.len() implies text::precedes(
                (#[trigger] after[i]).0,
                (#[trigger] after[j]).0,
            ) by {
                assert(after[j] == without(rest, key)[j - 1]);
                if i > 0 {
                    assert(after[i] == without(rest, key)[i - 1]);
                } else {
                    let k = lemma_removed_keys(rest, key, j - 1);
                    assert(rest[k] == entries[k + 1]);
                }
            }
        }
    }
}

proof fn lemma_all_removals_keep_order(
    entries: Seq<(Seq<char>, Seq<char>)>,
    keys: Seq<Seq<char>>,
)
    requires
        ordered(entries),
    ensures
        ordered(without_all(entries, keys)),
    decreases keys.len(),
{
    if keys.len() > 0 {
        lemma_all_removals_keep_order(entries, keys.drop_last());
        lemma_removal_keeps_order(without_all(entries, keys.drop_last()), keys.last());
    }
}

proof fn lemma_place_of(entries: Seq<(Seq<char>, Seq<char>)>, key: Seq<char>) -> (i: int)
    requires
        value_of(entries, key) is Some,
    ensures
        0 <= i < entries.len(),
        entries[i].0 == key,
    decreases entries.len(),
{
    if entries[0].0 == key {
        0
    } else {
        let i = lemma_place_of(entries.skip(1), key);
        assert(entries.skip(1)[i] == entries[i + 1]);
        i + 1
    }
}

/// A key that stands in entries is found.
pub proof fn lemma_present_is_found(entries: Seq<(Seq<char>, Seq<char>)>, i: int)
    requires
        0 <= i < entries.len(),
    ensures
        value_of(entries, entries[i].0) is Some,
    decreases entries.len(),
{
    if entries[0].0 != entries[i].0 {
        assert(entries.skip(1)[i - 1] == entries[i]);
        lemma_present_is_found(entries.skip(1), i - 1);
    }
}

/// A key is found where it stands last or is found in front of that.
pub proof fn lemma_value_of_last(entries: Seq<(Seq<char>, Seq<char>)>, key: Seq<char>)
    requires
        entries.len() > 0,
    ensures
        value_of(entries, key) is Some <==> entries.last().0 == key || value_of(
            entries.drop_last(),
            key,
        ) is Some,
    decreases entries.len(),
{
    reveal_with_fuel(value_of, 2);
    if entries.len() > 1 && entries[0].0 != key {
        lemma_value_of_last(entries.skip(1), key);
        assert(entries.skip(1).drop_last() =~= entries.drop_last().skip(1));
    }
}

proof fn lemma_tail_of_ordered(entries: Seq<(Seq<char>, Seq<char>)>, key: Seq<char>)
    requires
        ordered(entries),
        entries.len() > 0,
    ensures
        ordered(entries.skip(1)),
        value_of(entries.skip(1), key) == (if key == entries[0].0 {
            None
        } else {
            value_of(entries, key)
        }),
{
    let rest = entries.skip(1);
    assert forall|i: int, j: int| 0 <= i < j < rest.len() implies text::precedes(
        (#[trigger] rest[i]).0,
        (#[trigger] rest[j]).0,
    ) by {
        assert(rest[i] == entries[i + 1] && rest[j] == entries[j + 1]);
    }
    if key == entries[0].0 && value_of(rest, key) is Some {
        let i = lemma_place_of(rest, key);
        assert(rest[i] == entries[i + 1]);
        text::lemma_precedes_total(entries[0].0, entries[i + 1].0);
    }
}

/// Entries in order that give every key the same value are the same.
pub proof fn lemma_ordered_entries_are_unique(
    a: Seq<(Seq<char>, Seq<char>)>,
    b: Seq<(Seq<char>, Seq<char>)>,
)
    requires
        ordered(a),
        ordered(b),
        forall|key: Seq<char>| #[trigger] value_of(a, key) == value_of(b, key),
    ensures
        a == b,
    decreases a.len(),
{
    if a.len() > 0 {
        lemma_present_is_found(a, 0);
        assert(value_of(b, a[0].0) is Some);
        let j = lemma_place_of(b, a[0].0);
        lemma_present_is_found(b, 0);
        assert(value_of(a, b[0].0) is Some);
        let i = lemma_place_of(a, b[0].0);
        if j > 0 {
            assert(text::precedes(b[0].0, b[j].0));
            if i > 0 {
                assert(text::precedes(a[0].0, a[i].0));
            }
            text::lemma_precedes_total(a[0].0, b[0].0);
        }
        assert(value_of(a, a[0].0) == value_of(b, a[0].0));
        assert forall|key: Seq<char>| #[trigger]
            value_of(a.skip(1), key) == value_of(b.skip(1), key) by {
            lemma_tail_of_ordered(a, key);
            lemma_tail_of_ordered(b, key);
            assert(value_of(a, key) == value_of(b, key));
        }
        lemma_tail_of_ordered(a, a[0].0);
        lemma_tail_of_ordered(b, a[0].0);
        lemma_ordered_entries_are_unique(a.skip(1), b.skip(1));
        assert(a =~= seq![a[0]] + a.skip(1));
        assert(b =~= seq![b[0]] + b.skip(1));
    } else if b.len() > 0 {
        lemma_present_is_found(b, 0);
        assert(value_of(a, b[0].0) == value_of(b, b[0].0));
    }
}

/// Taking out the keys that several pairs do not have and then putting the pairs leaves
/// exactly what putting them into nothing would.
pub proof fn lemma_replacement(
    entries: Seq<(Seq<char>, Seq<char>)>,
    gone: Seq<Seq<char>>,
    pairs: Seq<(Seq<char>, Seq<char>)>,
)
    requires
        ordered(entries),
        forall|key: Seq<char>| #[trigger]
            gone.contains(key) <==> value_of(entries, key) is Some && last_value(pairs, key) is None,
    ensures
        all_placed(without_all(entries, gone), pairs) == all_placed(Seq::empty(), pairs),
{
    let nothing = Seq::<(Seq<char>, Seq<char>)>::empty();
    let kept = without_all(entries, gone);
    lemma_all_removals_keep_order(entries, gone);
    lemma_all_placed_stay_ordered(kept, pairs);
    lemma_all_placed_stay_ordered(nothing, pairs);
    assert forall|key: Seq<char>| #[trigger]
        value_of(all_placed(kept, pairs), key) == value_of(all_placed(nothing, pairs), key) by {
        lemma_all_placed_are_found(kept, pairs, key);
        lemma_all_placed_are_found(nothing, pairs, key);
        lemma_all_removed_are_gone(entries, gone, key);
        assert(gone.contains(key) <==> value_of(entries, key) is Some && last_value(pairs, key)
            is None);
    }
    lemma_ordered_entries_are_unique(all_placed(kept, pairs), all_placed(nothing, pairs));
}

} // verus!
