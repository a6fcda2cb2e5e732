//! Configuration option storage.
//!
//! The application holds three option categories (integer, numeric, string),
//! each a mapping from option name to value in which the last write per name
//! wins. A store is viewed abstractly as a `Map` from the name's characters
//! to the stored value, so the order in which distinct options were set is
//! irrelevant to the view; [`lemma_set_same_option_twice`] and
//! [`lemma_set_distinct_options_commute`] state those two facts as laws.
//!
//! Option names and string option values travel to the solver engine as
//! null-terminated byte strings, so a name or value whose encoding contains
//! a zero byte cannot be transported: [`c_string_compatible`] is the check.

use vstd::prelude::*;
use vstd::string::StringSliceAdditionalSpecFns;
use vstd::utf8::encode_utf8;

verus! {

/// No byte of `bytes` is zero, so a null-terminated copy can carry them.
pub open spec fn nul_free(bytes: Seq<u8>) -> bool {
    forall|i: int| 0 <= i < bytes.len() ==> bytes[i] != 0
}

/// The text's byte encoding can be transported as a null-terminated string.
pub open spec fn c_compatible_text(text: Seq<char>) -> bool {
    nul_free(encode_utf8(text))
}

/// Whether `s` can be transported as a null-terminated string, that is,
/// whether none of its bytes is zero.
pub fn c_string_compatible(s: &str) -> (r: bool)
    ensures
        r == c_compatible_text(s@),
{
    let bytes = s.as_bytes();
    let mut i: usize = 0;
    while i < bytes.len()
        invariant
            i <= bytes@.len(),
            bytes@ == encode_utf8(s@),
            forall|j: int| 0 <= j < i ==> bytes@[j] != 0,
        decreases bytes@.len() - i,
    {
        if bytes[i] == 0 {
            return false;
        }
        i = i + 1;
    }
    true
}

/// The mapping that a sequence of name/value entries denotes: entries apply
/// in order, so a later entry for the same name overrides an earlier one.
pub open spec fn pairs_to_map<V>(entries: Seq<(String, V)>) -> Map<Seq<char>, V>
    decreases entries.len(),
{
    if entries.len() == 0 {
        Map::<Seq<char>, V>::empty()
    } else {
        pairs_to_map(entries.drop_last()).insert(entries.last().0@, entries.last().1)
    }
}

/// No two entries share a name.
pub open spec fn unique_keys<V>(entries: Seq<(String, V)>) -> bool {
    forall|i: int, j: int| 0 <= i < j < entries.len() ==> entries[i].0@ != entries[j].0@
}

/// A name is in the denoted mapping exactly when some entry carries it.
pub proof fn lemma_pairs_to_map_dom<V>(entries: Seq<(String, V)>)
    ensures
        forall|k: Seq<char>| #[trigger]
            pairs_to_map(entries).dom().contains(k) <==> exists|i: int|
                0 <= i < entries.len() && entries[i].0@ == k,
    decreases entries.len(),
{
    if entries.len() > 0 {
        lemma_pairs_to_map_dom(entries.drop_last());
        assert forall|k: Seq<char>| #[trigger]
            pairs_to_map(entries).dom().contains(k) implies exists|i: int|
            0 <= i < entries.len() && entries[i].0@ == k by {
            if k == entries.last().0@ {
                assert(entries[entries.len() - 1].0@ == k);
            } else {
                assert(pairs_to_map(entries.drop_last()).dom().contains(k));
                let i = choose|i: int|
                    0 <= i < entries.drop_last().len() && entries.drop_last()[i].0@ == k;
                assert(entries.drop_last()[i] == entries[i]);
                assert(entries[i].0@ == k);
            }
        }
        assert forall|k: Seq<char>|
            exists|i: int|
                0 <= i < entries.len() && entries[i].0@ == k implies #[trigger] pairs_to_map(
            entries,
        ).dom().contains(k) by {
            let i = choose|i: int| 0 <= i < entries.len() && entries[i].0@ == k;
            if i < entries.len() - 1 {
                assert(entries.drop_last()[i].0@ == k);
                assert(pairs_to_map(entries.drop_last()).dom().contains(k));
            } else {
                assert(k == entries.last().0@);
            }
        }
    }
}

/// Under unique names, the denoted mapping sends entry `i`'s name to entry
/// `i`'s value.
pub proof fn lemma_pairs_to_map_value<V>(entries: Seq<(String, V)>, i: int)
    requires
        unique_keys(entries),
        0 <= i < entries.len(),
    ensures
        pairs_to_map(entries).dom().contains(entries[i].0@),
        pairs_to_map(entries)[entries[i].0@] == entries[i].1,
    decreases entries.len(),
{
    if i < entries.len() - 1 {
        assert(unique_keys(entries.drop_last())) by {
            assert(forall|a: int, b: int|
                0 <= a < b < entries.drop_last().len() ==> entries.drop_last()[a].0@
                    == entries[a].0@ && entries.drop_last()[b].0@ == entries[b].0@);
        }
        lemma_pairs_to_map_value(entries.drop_last(), i);
        assert(entries.drop_last()[i] == entries[i]);
        assert(entries[i].0@ != entries.last().0@);
    }
}

/// Under unique names, replacing the entry that carries a name with a new
/// value for the same name updates the denoted mapping at that name alone.
pub proof fn lemma_pairs_to_map_update<V>(entries: Seq<(String, V)>, i: int, pair: (String, V))
    requires
        unique_keys(entries),
        0 <= i < entries.len(),
        entries[i].0@ == pair.0@,
    ensures
        pairs_to_map(entries.update(i, pair)) == pairs_to_map(entries).insert(pair.0@, pair.1),
    decreases entries.len(),
{
    let updated = entries.update(i, pair);
    if i == entries.len() - 1 {
        assert(updated.drop_last() =~= entries.drop_last());
        assert(updated.last() == pair);
        assert(pairs_to_map(updated) =~= pairs_to_map(entries).insert(pair.0@, pair.1));
    } else {
        assert(updated.drop_last() =~= entries.drop_last().update(i, pair));
        assert(unique_keys(entries.drop_last())) by {
            assert(forall|a: int, b: int|
                0 <= a < b < entries.drop_last().len() ==> entries.drop_last()[a].0@
                    == entries[a].0@ && entries.drop_last()[b].0@ == entries[b].0@);
        }
        assert(entries.drop_last()[i] == entries[i]);
        lemma_pairs_to_map_update(entries.drop_last(), i, pair);
        assert(updated.last() == entries.last());
        assert(entries.last().0@ != pair.0@);
        assert(pairs_to_map(updated) =~= pairs_to_map(entries).insert(pair.0@, pair.1));
    }
}

/// Setting the same option name twice leaves only the last value in effect.
pub proof fn lemma_set_same_option_twice<V>(
    options: Map<Seq<char>, V>,
    name: Seq<char>,
    first: V,
    second: V,
)
    ensures
        options.insert(name, first).insert(name, second) == options.insert(name, second),
{
    assert(options.insert(name, first).insert(name, second) =~= options.insert(name, second));
}

/// The order in which two distinct option names are set does not matter.
pub proof fn lemma_set_distinct_options_commute<V>(
    options: Map<Seq<char>, V>,
    name_a: Seq<char>,
    value_a: V,
    name_b: Seq<char>,
    value_b: V,
)
    requires
        name_a != name_b,
    ensures
        options.insert(name_a, value_a).insert(name_b, value_b) == options.insert(
            name_b,
            value_b,
        ).insert(name_a, value_a),
{
    assert(options.insert(name_a, value_a).insert(name_b, value_b) =~= options.insert(
        name_b,
        value_b,
    ).insert(name_a, value_a));
}

/// One option category: a last-write-wins mapping from option name to value,
/// stored as a vector with one entry per name.
#[derive(Clone, Debug, PartialEq, Eq)]
pub struct OptionStore<V> {
    entries: Vec<(String, V)>,
}

impl<V> OptionStore<V> {
    /// The stored entries, one per name.
    pub closed spec fn spec_entries(&self) -> Seq<(String, V)> {
        self.entries@
    }

    /// The mapping this store denotes.
    pub open spec fn as_map(&self) -> Map<Seq<char>, V> {
        pairs_to_map(self.spec_entries())
    }

    /// Each name is stored at most once.
    pub open spec fn wf(&self) -> bool {
        unique_keys(self.spec_entries())
    }

    /// An empty store.
    pub fn new() -> (store: OptionStore<V>)
        ensures
            store.wf(),
            store.as_map() == Map::<Seq<char>, V>::empty(),
            store.spec_entries() == Seq::<(String, V)>::empty(),
    {
        OptionStore { entries: Vec::new() }
    }

    /// Sets `name` to `value`, replacing any earlier value for the same name.
    pub fn set(&mut self, name: String, value: V)
        requires
            old(self).wf(),
        ensures
            final(self).wf(),
            final(self).as_map() == old(self).as_map().insert(name@, value),
    {
        let mut i: usize = 0;
        while i < self.entries.len()
            invariant
                self == old(self),
                old(self).wf(),
                i <= self.entries@.len(),
                forall|j: int| 0 <= j < i ==> self.entries@[j].0@ != name@,
            decreases self.entries@.len() - i,
        {
            if self.entries[i].0 == name {
                proof {
                    lemma_pairs_to_map_update(self.entries@, i as int, (name, value));
                }
                let ghost before = self.entries@;
                self.entries[i] = (name, value);
                proof {
                    assert forall|a: int, b: int|
                        0 <= a < b < self.entries@.len() implies self.entries@[a].0@
                        != self.entries@[b].0@ by {
                        assert(before[a].0@ != before[b].0@);
                        assert(self.entries@[a].0@ == before[a].0@);
                        assert(self.entries@[b].0@ == before[b].0@);
                    }
                }
                return ;
            }
            i = i + 1;
        }
        let ghost before = self.entries@;
        proof {
            assert(before.push((name, value)).drop_last() =~= before);
        }
        self.entries.push((name, value));
        proof {
            assert forall|a: int, b: int|
                0 <= a < b < self.entries@.len() implies self.entries@[a].0@
                != self.entries@[b].0@ by {
                if b < before.len() {
                    assert(before[a].0@ != before[b].0@);
                } else {
                    assert(before[a].0@ != name@);
                }
            }
        }
    }

    /// The stored entries, for iteration in an unspecified category order.
    pub fn entries(&self) -> (r: &Vec<(String, V)>)
        ensures
            r@ == self.spec_entries(),
    {
        &self.entries
    }
}

} // verus!
