//! The values that a graph database returns.
//!
//! A driver hands back dynamically typed values. `GraphValue` is the closed
//! set of shapes that the decoders tell apart; every function that reads one
//! matches on all of them.

use vstd::prelude::*;

verus! {

/// One value of a query result.
#[derive(Debug, PartialEq)]
pub enum GraphValue {
    Null,
    Bool(bool),
    Int(i64),
    /// A floating-point number, kept as its IEEE 754 binary64 bit pattern.
    Float(u64),
    String(String),
    List(Vec<ListItem>),
    Mapping(Properties),
    Node(Node),
    Relationship(Relationship),
}

/// An element of a list value, together with the string form that the
/// driver gives it. The driver alone knows how it prints a value, so the
/// text travels with the element.
#[derive(Debug, PartialEq)]
pub struct ListItem {
    pub value: GraphValue,
    pub text: String,
}

/// A property map: keys with their values, in the order in which they were
/// added. Of two entries with one key the later one counts.
#[derive(Debug, PartialEq)]
pub struct Properties {
    pub entries: Vec<(String, GraphValue)>,
}

/// A node of the graph: its identifier, its labels and its properties.
#[derive(Debug, PartialEq)]
pub struct Node {
    pub id: i64,
    pub labels: Vec<String>,
    pub properties: Properties,
}

/// A relationship of the graph.
#[derive(Debug, PartialEq)]
pub struct Relationship {
    pub id: i64,
    pub kind: String,
    pub properties: Properties,
}

/// One row of a query result.
#[derive(Debug, PartialEq)]
pub struct Record {
    pub values: Vec<GraphValue>,
}

/// The value that `entries` holds under `key`: that of the last entry with
/// this key, if there is one.
pub open spec fn find(entries: Seq<(String, GraphValue)>, key: Seq<char>) -> Option<GraphValue>
    decreases entries.len(),
{
    if entries.len() == 0 {
        None
    } else if entries.last().0@ == key {
        Some(entries.last().1)
    } else {
        find(entries.drop_last(), key)
    }
}

impl View for Properties {
    type V = Map<Seq<char>, GraphValue>;

    open spec fn view(&self) -> Map<Seq<char>, GraphValue> {
        Map::new(
            |k: Seq<char>| find(self.entries@, k).is_some(),
            |k: Seq<char>| find(self.entries@, k).unwrap(),
        )
    }
}

impl Properties {
    /// The value under `key`, if the map has that key.
    pub open spec fn lookup(&self, key: Seq<char>) -> Option<GraphValue> {
        if self@.contains_key(key) {
            Some(self@[key])
        } else {
            None
        }
    }

    /// A map without entries.
    pub fn new() -> (r: Self)
        ensures
            r@ == Map::<Seq<char>, GraphValue>::empty(),
            r.entries@.len() == 0,
    {
        let r = Properties { entries: Vec::new() };
        assert(r@ =~= Map::<Seq<char>, GraphValue>::empty());
        r
    }

    /// Sets the value under `key`, in place of the one that was there.
    pub fn insert(&mut self, key: String, value: GraphValue)
        ensures
            final(self)@ == old(self)@.insert(key@, value),
            final(self).entries@ == old(self).entries@.push((key, value)),
    {
        let ghost before = self.entries@;
        self.entries.push((key, value));
        proof {
            let after = self.entries@;
            assert(after.drop_last() =~= before);
            assert(self@ =~= old(self)@.insert(key@, value));
        }
    }

    /// Looks `key` up by exact match.
    pub fn get(&self, key: &str) -> (r: Option<&GraphValue>)
        ensures
            r matches Some(v) ==> self.lookup(key@) == Some(*v),
            r is None ==> self.lookup(key@) is None,
    {
        let wanted: String = key.to_owned();
        let mut i: usize = self.entries.len();
        proof {
            assert(self.entries@.subrange(0, i as int) =~= self.entries@);
        }
        while i > 0
            invariant
                i <= self.entries@.len(),
                wanted@ == key@,
                find(self.entries@, key@) == find(self.entries@.subrange(0, i as int), key@),
            decreases i,
        {
            let ghost cur = self.entries@.subrange(0, i as int);
            if self.entries[i - 1].0 == wanted {
                proof {
                    assert(cur.last() == self.entries@[i - 1]);
                }
                return Some(&self.entries[i - 1].1);
            }
            proof {
                assert(cur.last() == self.entries@[i - 1]);
                assert(cur.drop_last() =~= self.entries@.subrange(0, i - 1));
            }
            i = i - 1;
        }
        None
    }
}

} // verus!
