//! A map from addresses to small values, as the contract keeps per-address
//! flags and counters.

use vstd::prelude::*;

use crate::types::Address;

verus! {

/// The map that a sequence of `(address, value)` writes produces: a later
/// write to the same address overrides an earlier one.
pub open spec fn written_map<V>(writes: Seq<(Seq<u8>, V)>) -> Map<Seq<u8>, V>
    decreases writes.len(),
{
    if writes.len() == 0 {
        Map::empty()
    } else {
        written_map(writes.drop_last()).insert(writes.last().0, writes.last().1)
    }
}

/// A finite map from addresses (by their encoding) to values.
pub struct AddressMap<V> {
    writes: Vec<(Address, V)>,
}

impl<V: Copy> View for AddressMap<V> {
    type V = Map<Seq<u8>, V>;

    closed spec fn view(&self) -> Map<Seq<u8>, V> {
        written_map(self.write_log())
    }
}

impl<V: Copy> AddressMap<V> {
    spec fn write_log(&self) -> Seq<(Seq<u8>, V)> {
        self.writes@.map_values(|w: (Address, V)| (w.0@, w.1))
    }

    /// The empty map.
    pub fn new() -> (m: Self)
        ensures
            m@ == Map::<Seq<u8>, V>::empty(),
    {
        let m = AddressMap { writes: Vec::new() };
        assert(m.write_log() =~= Seq::<(Seq<u8>, V)>::empty());
        m
    }

    /// Maps `key` to `value`, replacing any earlier value.
    pub fn insert(&mut self, key: Address, value: V)
        ensures
            final(self)@ == old(self)@.insert(key@, value),
    {
        let ghost k = key@;
        self.writes.push((key, value));
        assert(self.write_log().drop_last() =~= old(self).write_log());
        assert(self.write_log().last() == (k, value));
    }

    /// The value of `key`, if any.
    pub fn get(&self, key: &Address) -> (r: Option<V>)
        ensures
            r == (if self@.contains_key(key@) { Some(self@[key@]) } else { None::<V> }),
    {
        let ghost log = self.write_log();
        let mut i: usize = self.writes.len();
        assert(log.take(i as int) =~= log);
        while i > 0
            invariant
                i <= self.writes@.len(),
                log == self.write_log(),
                log.len() == self.writes@.len(),
                written_map(log).contains_key(key@) == written_map(log.take(i as int)).contains_key(key@),
                written_map(log).contains_key(key@) ==> written_map(log)[key@] == written_map(log.take(i as int))[key@],
            decreases i,
        {
            let ghost prefix = log.take(i as int);
            assert(prefix.drop_last() =~= log.take(i - 1));
            assert(prefix.last() == log[i - 1]);
            let entry = &self.writes[i - 1];
            if entry.0.same_as(key) {
                return Some(entry.1);
            }
            i = i - 1;
        }
        assert(log.take(0) =~= Seq::<(Seq<u8>, V)>::empty());
        None
    }
}

} // verus!
