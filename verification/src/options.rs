//! Name-to-value option mappings, supplied at adapter construction (which
//! must contain the credential) and at scan start (which must contain the
//! object-type selector). Immutable once read; when a name was set twice,
//! the latest setting wins.

use vstd::prelude::*;

verus! {

/// The value bound to `key`, scanning the entries from the latest backwards.
pub open spec fn opt_lookup(entries: Seq<(Seq<char>, Seq<char>)>, key: Seq<char>) -> Option<
    Seq<char>,
>
    decreases entries.len(),
{
    if entries.len() == 0 {
        None
    } else if entries.last().0 == key {
        Some(entries.last().1)
    } else {
        opt_lookup(entries.drop_last(), key)
    }
}

/// A mapping from option name to string value.
#[derive(Debug, Clone)]
pub struct OptionMap {
    entries: Vec<(String, String)>,
}

impl View for OptionMap {
    type V = Seq<(Seq<char>, Seq<char>)>;

    closed spec fn view(&self) -> Seq<(Seq<char>, Seq<char>)> {
        self.entries@.map_values(|p: (String, String)| (p.0@, p.1@))
    }
}

impl OptionMap {
    /// An empty mapping.
    pub fn new() -> (r: OptionMap)
        ensures
            r@ == Seq::<(Seq<char>, Seq<char>)>::empty(),
    {
        let r = OptionMap { entries: Vec::new() };
        proof {
            assert(r@ =~= Seq::<(Seq<char>, Seq<char>)>::empty());
        }
        r
    }

    /// Binds `key` to `value`, overriding any earlier binding of `key`.
    pub fn set(&mut self, key: &str, value: &str)
        ensures
            final(self)@ == old(self)@.push((key@, value@)),
    {
        self.entries.push((key.to_owned(), value.to_owned()));
        proof {
            assert(self@ =~= old(self)@.push((key@, value@)));
        }
    }

    /// The value bound to `key`, if any.
    pub fn get<'a>(&'a self, key: &str) -> (r: Option<&'a String>)
        ensures
            match r {
                Some(v) => opt_lookup(self@, key@) == Some(v@),
                None => opt_lookup(self@, key@) is None,
            },
    {
        let needle = key.to_owned();
        let mut i: usize = self.entries.len();
        while i > 0
            invariant
                i <= self.entries.len(),
                needle@ == key@,
                forall|j: int| i <= j < self@.len() ==> self@[j].0 != key@,
            decreases i,
        {
            i = i - 1;
            if self.entries[i].0 == needle {
                proof {
                    lemma_opt_lookup_found(self@, key@, i as int);
                }
                return Some(&self.entries[i].1);
            }
        }
        proof {
            lemma_opt_lookup_absent(self@, key@);
        }
        None
    }
}

/// When entry `i` binds `key` and no later entry does, the lookup yields
/// entry `i`'s value.
proof fn lemma_opt_lookup_found(entries: Seq<(Seq<char>, Seq<char>)>, key: Seq<char>, i: int)
    requires
        0 <= i < entries.len(),
        entries[i].0 == key,
        forall|j: int| i < j < entries.len() ==> entries[j].0 != key,
    ensures
        opt_lookup(entries, key) == Some(entries[i].1),
    decreases entries.len(),
{
    if i == entries.len() - 1 {
    } else {
        lemma_opt_lookup_found(entries.drop_last(), key, i);
    }
}

/// When no entry binds `key`, the lookup yields nothing.
proof fn lemma_opt_lookup_absent(entries: Seq<(Seq<char>, Seq<char>)>, key: Seq<char>)
    requires
        forall|j: int| 0 <= j < entries.len() ==> entries[j].0 != key,
    ensures
        opt_lookup(entries, key) is None,
    decreases entries.len(),
{
    if entries.len() > 0 {
        lemma_opt_lookup_absent(entries.drop_last(), key);
    }
}

} // verus!
