//! What is known of each device, keyed by the device's identity.
//!
//! The table is a list in which no identity occurs twice; its view is the map
//! from identity to state.

use vstd::prelude::*;
use vstd::string::StringExecFns;
use crate::dto::detection::DeviceState;

verus! {

/// The map that a list of entries stands for: a later entry for an identity
/// replaces an earlier one.
pub open spec fn table_of<T>(entries: Seq<(String, DeviceState<T>)>) -> Map<
    Seq<char>,
    DeviceState<T>,
>
    decreases entries.len(),
{
    if entries.len() == 0 {
        Map::empty()
    } else {
        table_of(entries.drop_last()).insert(entries.last().0@, entries.last().1)
    }
}

/// No identity occurs twice in the list.
pub open spec fn distinct_ids<T>(entries: Seq<(String, DeviceState<T>)>) -> bool {
    forall|i: int, j: int|
        0 <= i < j < entries.len() ==> (#[trigger] entries[i]).0@ != (#[trigger] entries[j]).0@
}

/// An identity that no entry carries is not in the map.
pub proof fn lemma_table_absent<T>(entries: Seq<(String, DeviceState<T>)>, id: Seq<char>)
    requires
        forall|i: int| 0 <= i < entries.len() ==> (#[trigger] entries[i]).0@ != id,
    ensures
        !table_of(entries).contains_key(id),
    decreases entries.len(),
{
    if entries.len() > 0 {
        let earlier = entries.drop_last();
        assert forall|i: int| 0 <= i < earlier.len() implies (#[trigger] earlier[i]).0@ != id by {
            assert(earlier[i] == entries[i]);
        }
        lemma_table_absent(earlier, id);
        assert(entries.last() == entries[entries.len() - 1]);
    }
}

/// Every entry of a list without repeated identities is found in the map.
pub proof fn lemma_table_lookup<T>(entries: Seq<(String, DeviceState<T>)>, i: int)
    requires
        distinct_ids(entries),
        0 <= i < entries.len(),
    ensures
        table_of(entries).contains_key(entries[i].0@),
        table_of(entries)[entries[i].0@] == entries[i].1,
    decreases entries.len(),
{
    let last: int = entries.len() - 1;
    if i < last {
        let earlier = entries.drop_last();
        assert forall|a: int, b: int| 0 <= a < b < earlier.len() implies (#[trigger] earlier[a]).0@
            != (#[trigger] earlier[b]).0@ by {
            assert(earlier[a] == entries[a]);
            assert(earlier[b] == entries[b]);
        }
        lemma_table_lookup(earlier, i);
        assert(earlier[i] == entries[i]);
        assert(entries[i].0@ != entries[last].0@);
    }
}

/// Replacing the state of the `i`-th entry, under an identity that reads the
/// same, is an insertion into the map.
pub proof fn lemma_table_replace<T>(
    entries: Seq<(String, DeviceState<T>)>,
    i: int,
    id: String,
    state: DeviceState<T>,
)
    requires
        distinct_ids(entries),
        0 <= i < entries.len(),
        id@ == entries[i].0@,
    ensures
        distinct_ids(entries.update(i, (id, state))),
        table_of(entries.update(i, (id, state))) == table_of(entries).insert(id@, state),
    decreases entries.len(),
{
    let updated = entries.update(i, (id, state));
    let last: int = entries.len() - 1;
    assert forall|a: int, b: int| 0 <= a < b < updated.len() implies (#[trigger] updated[a]).0@
        != (#[trigger] updated[b]).0@ by {
        assert(entries[a].0@ != entries[b].0@);
    }
    if i < last {
        let earlier = entries.drop_last();
        assert forall|a: int, b: int| 0 <= a < b < earlier.len() implies (#[trigger] earlier[a]).0@
            != (#[trigger] earlier[b]).0@ by {
            assert(earlier[a] == entries[a]);
            assert(earlier[b] == entries[b]);
        }
        assert(earlier[i] == entries[i]);
        lemma_table_replace(earlier, i, id, state);
        assert(updated.drop_last() =~= earlier.update(i, (id, state)));
        assert(updated.last() == entries.last());
        assert(entries[i].0@ != entries[last].0@);
        assert(table_of(updated) =~= table_of(entries).insert(id@, state));
    } else {
        assert(updated.drop_last() =~= entries.drop_last());
        assert(table_of(updated) =~= table_of(entries).insert(id@, state));
    }
}

/// The last known state of every device that has been heard.
pub struct DeviceTable<T> {
    entries: Vec<(String, DeviceState<T>)>,
}

impl<T> View for DeviceTable<T> {
    type V = Map<Seq<char>, DeviceState<T>>;

    closed spec fn view(&self) -> Map<Seq<char>, DeviceState<T>> {
        table_of(self.entries@)
    }
}

impl<T> DeviceTable<T> {
    /// No identity is listed twice.
    pub closed spec fn wf(&self) -> bool {
        distinct_ids(self.entries@)
    }
}

impl<T: Copy> DeviceTable<T> {
    /// A table that knows no device.
    pub fn new() -> (table: Self)
        ensures
            table.wf(),
            table@ == Map::<Seq<char>, DeviceState<T>>::empty(),
    {
        DeviceTable { entries: Vec::new() }
    }

    /// Remembers `state` as the latest of the device `device_id`.
    pub fn record(&mut self, device_id: String, state: DeviceState<T>)
        requires
            old(self).wf(),
        ensures
            final(self).wf(),
            final(self)@ == old(self)@.insert(device_id@, state),
    {
        let mut i: usize = 0;
        while i < self.entries.len()
            invariant
                i <= self.entries@.len(),
                self.entries@ == old(self).entries@,
                distinct_ids(self.entries@),
                forall|k: int| 0 <= k < i ==> (#[trigger] self.entries@[k]).0@ != device_id@,
            decreases self.entries@.len() - i,
        {
            if self.entries[i].0 == device_id {
                proof {
                    lemma_table_replace(self.entries@, i as int, device_id, state);
                }
                self.entries.set(i, (device_id, state));
                return ;
            }
            i = i + 1;
        }
        proof {
            let grown = self.entries@.push((device_id, state));
            assert(grown.drop_last() =~= self.entries@);
            assert forall|a: int, b: int| 0 <= a < b < grown.len() implies (#[trigger] grown[a]).0@
                != (#[trigger] grown[b]).0@ by {
                if b < self.entries@.len() {
                    assert(self.entries@[a].0@ != self.entries@[b].0@);
                } else {
                    assert(self.entries@[a].0@ != device_id@);
                }
            }
        }
        self.entries.push((device_id, state));
    }

    /// The latest state of the device `device_id`, if it has been heard.
    pub fn get(&self, device_id: &str) -> (found: Option<DeviceState<T>>)
        requires
            self.wf(),
        ensures
            found == if self@.contains_key(device_id@) {
                Some(self@[device_id@])
            } else {
                None
            },
    {
        let wanted = String::from_str(device_id);
        let mut i: usize = 0;
        while i < self.entries.len()
            invariant
                i <= self.entries@.len(),
                wanted@ == device_id@,
                distinct_ids(self.entries@),
                forall|k: int| 0 <= k < i ==> (#[trigger] self.entries@[k]).0@ != device_id@,
            decreases self.entries@.len() - i,
        {
            if self.entries[i].0 == wanted {
                proof {
                    lemma_table_lookup(self.entries@, i as int);
                }
                return Some(self.entries[i].1);
            }
            i = i + 1;
        }
        proof {
            lemma_table_absent(self.entries@, device_id@);
        }
        None
    }

    /// A copy of the table as a list in which every device occurs once.
    pub fn snapshot(&self) -> (listing: Vec<(String, DeviceState<T>)>)
        requires
            self.wf(),
        ensures
            distinct_ids(listing@),
            table_of(listing@) == self@,
            listing@.len() == self@.dom().len(),
    {
        let mut listing: Vec<(String, DeviceState<T>)> = Vec::with_capacity(self.entries.len());
        let mut i: usize = 0;
        while i < self.entries.len()
            invariant
                i <= self.entries@.len(),
                listing@.len() == i,
                forall|k: int|
                    0 <= k < i ==> (#[trigger] listing@[k]).0@ == self.entries@[k].0@
                        && listing@[k].1 == self.entries@[k].1,
            decreases self.entries@.len() - i,
        {
            let id = self.entries[i].0.clone();
            listing.push((id, self.entries[i].1));
            i = i + 1;
        }
        proof {
            lemma_same_table(listing@, self.entries@);
            lemma_table_size(self.entries@);
        }
        listing
    }
}

/// Two lists that agree entry by entry, in what the identities read and in the
/// states, stand for the same map and repeat an identity or not alike.
pub proof fn lemma_same_table<T>(
    left: Seq<(String, DeviceState<T>)>,
    right: Seq<(String, DeviceState<T>)>,
)
    requires
        left.len() == right.len(),
        forall|k: int|
            0 <= k < left.len() ==> (#[trigger] left[k]).0@ == right[k].0@ && left[k].1
                == right[k].1,
    ensures
        table_of(left) == table_of(right),
        distinct_ids(right) ==> distinct_ids(left),
    decreases left.len(),
{
    if left.len() > 0 {
        let l = left.drop_last();
        let r = right.drop_last();
        assert forall|k: int| 0 <= k < l.len() implies (#[trigger] l[k]).0@ == r[k].0@ && l[k].1
            == r[k].1 by {
            assert(l[k] == left[k]);
            assert(r[k] == right[k]);
        }
        lemma_same_table(l, r);
        assert(left.last() == left[left.len() - 1]);
    }
    if distinct_ids(right) {
        assert forall|a: int, b: int| 0 <= a < b < left.len() implies (#[trigger] left[a]).0@ != (
        #[trigger] left[b]).0@ by {
            assert(right[a].0@ != right[b].0@);
        }
    }
}

/// A list without repeated identities has as many entries as its map has keys.
pub proof fn lemma_table_size<T>(entries: Seq<(String, DeviceState<T>)>)
    requires
        distinct_ids(entries),
    ensures
        table_of(entries).dom().finite(),
        table_of(entries).dom().len() == entries.len(),
    decreases entries.len(),
{
    if entries.len() > 0 {
        let earlier = entries.drop_last();
        assert forall|a: int, b: int| 0 <= a < b < earlier.len() implies (#[trigger] earlier[a]).0@
            != (#[trigger] earlier[b]).0@ by {
            assert(earlier[a] == entries[a]);
            assert(earlier[b] == entries[b]);
        }
        lemma_table_size(earlier);
        assert forall|k: int| 0 <= k < earlier.len() implies (#[trigger] earlier[k]).0@
            != entries.last().0@ by {
            assert(earlier[k] == entries[k]);
            assert(entries.last() == entries[entries.len() - 1]);
        }
        lemma_table_absent(earlier, entries.last().0@);
        assert(table_of(entries).dom() =~= table_of(earlier).dom().insert(entries.last().0@));
    }
}

} // verus!
