//! The directory-to-destination map: built once at startup, read-only after.
use vstd::prelude::*;

verus! {

/// The destinations that a list of `(directory, destination)` entries
/// configures; a later entry for the same directory replaces an earlier one.
pub open spec fn pairs_map(entries: Seq<(String, String)>) -> Map<Seq<char>, Seq<char>>
    decreases entries.len(),
{
    if entries.len() == 0 {
        Map::empty()
    } else {
        pairs_map(entries.drop_last()).insert(entries.last().0@, entries.last().1@)
    }
}

/// The mapping that `serde_json` reads from a JSON object of strings, or
/// `None` where the text is not such an object.
pub uninterp spec fn mapping_of(text: Seq<char>) -> Option<Map<Seq<char>, Seq<char>>>;

/// Relies on serde_json::from_str into a `HashMap<String, String>`: parses
/// a JSON object whose values are strings. The entries are handed out in the
/// map's own order, each key once.
#[verifier::external_body]
fn parse_string_map(text: &str) -> (r: Option<Vec<(String, String)>>)
    ensures
        r is Some <==> mapping_of(text@) is Some,
        r matches Some(v) ==> pairs_map(v@) == mapping_of(text@)->Some_0,
{
    match serde_json::from_str::<std::collections::HashMap<String, String>>(text) {
        Ok(m) => Some(m.into_iter().collect()),
        Err(_) => None,
    }
}

/// Maps a directory name, relative to the watched root, to the identifier of
/// the destination that receives the files written in it.
#[derive(Debug, Clone)]
pub struct DestinationMap {
    entries: Vec<(String, String)>,
}

impl View for DestinationMap {
    type V = Map<Seq<char>, Seq<char>>;

    closed spec fn view(&self) -> Map<Seq<char>, Seq<char>> {
        pairs_map(self.entries@)
    }
}

proof fn lemma_pairs_map_lookup(entries: Seq<(String, String)>, k: Seq<char>, j: int)
    requires
        -1 <= j < entries.len(),
        j >= 0 ==> entries[j].0@ == k,
        forall|m: int| j < m < entries.len() ==> (#[trigger] entries[m]).0@ != k,
    ensures
        j < 0 ==> !pairs_map(entries).contains_key(k),
        j >= 0 ==> pairs_map(entries).contains_key(k) && pairs_map(entries)[k] == entries[j].1@,
    decreases entries.len(),
{
    if entries.len() > 0 && j != entries.len() - 1 {
        let prev = entries.drop_last();
        assert forall|m: int| j < m < prev.len() implies (#[trigger] prev[m]).0@ != k by {
            assert(prev[m] == entries[m]);
        }
        lemma_pairs_map_lookup(prev, k, j);
        assert(entries.last() == entries[entries.len() - 1]);
    }
}

impl DestinationMap {
    /// A map with no directory configured.
    pub fn new() -> (r: Self)
        ensures
            r@ == Map::<Seq<char>, Seq<char>>::empty(),
    {
        DestinationMap { entries: Vec::new() }
    }

    /// Routes the files of `dir` to `destination`, replacing what `dir` had.
    pub fn insert(&mut self, dir: String, destination: String)
        ensures
            final(self)@ == old(self)@.insert(dir@, destination@),
    {
        self.entries.push((dir, destination));
        proof {
            assert(self.entries@.drop_last() =~= old(self).entries@);
        }
    }

    /// A map of the given entries; a later entry for a directory wins.
    pub fn from_pairs(pairs: Vec<(String, String)>) -> (r: Self)
        ensures
            r@ == pairs_map(pairs@),
    {
        DestinationMap { entries: pairs }
    }

    /// Reads the map from a JSON object of strings, `None` where the text is
    /// not one.
    pub fn from_json(text: &str) -> (r: Option<Self>)
        ensures
            r is Some <==> mapping_of(text@) is Some,
            r matches Some(m) ==> m@ == mapping_of(text@)->Some_0,
    {
        match parse_string_map(text) {
            None => None,
            Some(v) => Some(Self::from_pairs(v)),
        }
    }

    /// The destination of `dir`, `None` where `dir` is unmapped.
    pub fn get(&self, dir: &String) -> (r: Option<String>)
        ensures
            r is Some <==> self@.contains_key(dir@),
            r matches Some(d) ==> d@ == self@[dir@],
    {
        let mut i: usize = self.entries.len();
        while i > 0
            invariant
                i <= self.entries.len(),
                forall|m: int| i <= m < self.entries.len() ==> (#[trigger] self.entries@[m]).0@ != dir@,
            decreases i,
        {
            if self.entries[i - 1].0 == *dir {
                proof {
                    lemma_pairs_map_lookup(self.entries@, dir@, i - 1);
                }
                return Some(self.entries[i - 1].1.clone());
            }
            i = i - 1;
        }
        proof {
            lemma_pairs_map_lookup(self.entries@, dir@, -1);
        }
        None
    }

}

} // verus!
