//! The table of namespace bindings that is live during one decode pass.

use vstd::prelude::*;
use crate::text::str_equal;
use crate::text::text_pairs;

verus! {

/// The map that a list of `(uri, prefix)` bindings stands for: a later
/// binding of a URI replaces an earlier one.
pub open spec fn bindings_map(bindings: Seq<(Seq<char>, Seq<char>)>) -> Map<Seq<char>, Seq<char>>
    decreases bindings.len(),
{
    if bindings.len() == 0 {
        Map::empty()
    } else {
        bindings_map(bindings.drop_last()).insert(bindings.last().0, bindings.last().1)
    }
}

/// A URI whose last binding stands at `at` is mapped to that binding's
/// prefix.
proof fn lemma_last_binding_wins(bindings: Seq<(Seq<char>, Seq<char>)>, uri: Seq<char>, at: int)
    requires
        0 <= at < bindings.len(),
        bindings[at].0 == uri,
        forall|j: int| at < j < bindings.len() ==> bindings[j].0 != uri,
    ensures
        bindings_map(bindings).contains_key(uri),
        bindings_map(bindings)[uri] == bindings[at].1,
    decreases bindings.len(),
{
    if at < bindings.len() - 1 {
        lemma_last_binding_wins(bindings.drop_last(), uri, at);
    }
}

/// A URI that no binding names is not in the map.
proof fn lemma_unbound_is_absent(bindings: Seq<(Seq<char>, Seq<char>)>, uri: Seq<char>)
    requires
        forall|j: int| 0 <= j < bindings.len() ==> bindings[j].0 != uri,
    ensures
        !bindings_map(bindings).contains_key(uri),
    decreases bindings.len(),
{
    if bindings.len() > 0 {
        lemma_unbound_is_absent(bindings.drop_last(), uri);
    }
}

/// What the map holds for a URI is the prefix of one of the bindings.
proof fn lemma_mapped_is_bound(bindings: Seq<(Seq<char>, Seq<char>)>, uri: Seq<char>) -> (at: int)
    requires
        bindings_map(bindings).contains_key(uri),
    ensures
        0 <= at < bindings.len(),
        bindings[at].0 == uri,
        bindings[at].1 == bindings_map(bindings)[uri],
    decreases bindings.len(),
{
    if bindings.last().0 == uri {
        bindings.len() - 1
    } else {
        lemma_mapped_is_bound(bindings.drop_last(), uri)
    }
}

/// Namespace URIs and the prefixes bound to them.
#[derive(Debug)]
pub struct NamespaceTable {
    bindings: Vec<(String, String)>,
}

impl NamespaceTable {
    /// The bindings as plain values, in the order in which they were made.
    pub closed spec fn bindings(&self) -> Seq<(Seq<char>, Seq<char>)> {
        text_pairs(self.bindings@)
    }

    /// An empty table.
    pub fn new() -> (table: NamespaceTable)
        ensures
            table@ == Map::<Seq<char>, Seq<char>>::empty(),
    {
        NamespaceTable { bindings: Vec::new() }
    }

    /// Binds `prefix` to `uri`; an earlier binding of `uri` is replaced.
    pub fn insert(&mut self, uri: String, prefix: String)
        ensures
            final(self)@ == old(self)@.insert(uri@, prefix@),
    {
        let ghost before = self.bindings();
        self.bindings.push((uri, prefix));
        assert(self.bindings().drop_last() == before);
    }

    /// The prefix bound to `uri`, if any.
    pub fn get(&self, uri: &str) -> (r: Option<&String>)
        ensures
            match r {
                Some(prefix) => self@.contains_key(uri@) && self@[uri@] == prefix@,
                None => !self@.contains_key(uri@),
            },
    {
        let mut i: usize = self.bindings.len();
        while i > 0
            invariant
                i <= self.bindings@.len(),
                forall|j: int| i <= j < self.bindings().len() ==> self.bindings()[j].0 != uri@,
            decreases i,
        {
            i -= 1;
            if str_equal(self.bindings[i].0.as_str(), uri) {
                proof {
                    lemma_last_binding_wins(self.bindings(), uri@, i as int);
                }
                return Some(&self.bindings[i].1);
            }
        }
        proof {
            lemma_unbound_is_absent(self.bindings(), uri@);
        }
        None
    }

    /// A URI to which `prefix` is bound, if there is one. Where several
    /// are, any of them may be given.
    pub fn uri_for_prefix(&self, prefix: &str) -> (r: Option<String>)
        ensures
            match r {
                Some(uri) => self@.contains_key(uri@) && self@[uri@] == prefix@,
                None => forall|uri: Seq<char>|
                    self@.contains_key(uri) ==> #[trigger] self@[uri] != prefix@,
            },
    {
        let mut i: usize = self.bindings.len();
        while i > 0
            invariant
                i <= self.bindings@.len(),
                forall|j: int|
                    i <= j < self.bindings().len() ==> !(self@.contains_key(self.bindings()[j].0)
                        && self@[#[trigger] self.bindings()[j].0] == prefix@
                        && self.bindings()[j].1 == prefix@),
            decreases i,
        {
            i -= 1;
            if str_equal(self.bindings[i].1.as_str(), prefix) {
                match self.get(self.bindings[i].0.as_str()) {
                    Some(live) => {
                        if str_equal(live.as_str(), prefix) {
                            return Some(self.bindings[i].0.clone());
                        }
                    },
                    None => {},
                }
            }
        }
        assert forall|uri: Seq<char>| self@.contains_key(uri) implies #[trigger] self@[uri]
            != prefix@ by {
            lemma_mapped_is_bound(self.bindings(), uri);
        }
        None
    }
}

impl View for NamespaceTable {
    type V = Map<Seq<char>, Seq<char>>;

    closed spec fn view(&self) -> Map<Seq<char>, Seq<char>> {
        bindings_map(self.bindings())
    }
}

} // verus!
