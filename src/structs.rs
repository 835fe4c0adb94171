use vstd::hash_map::StringHashMap;
use vstd::prelude::*;

verus! {

/// The token-to-id table of a segmentation model.
pub struct Dictionary {
    map: StringHashMap<i16>,
}

impl View for Dictionary {
    type V = Map<Seq<char>, i16>;

    closed spec fn view(&self) -> Map<Seq<char>, i16> {
        self.map@
    }
}

impl Dictionary {
    /// An empty dictionary.
    pub fn new() -> (r: Dictionary)
        ensures
            r@ == Map::<Seq<char>, i16>::empty(),
    {
        Dictionary { map: StringHashMap::new() }
    }

    /// Binds `token` to `id`, replacing an earlier binding of `token`.
    pub fn insert(&mut self, token: String, id: i16)
        ensures
            final(self)@ == old(self)@.insert(token@, id),
    {
        self.map.insert(token, id);
    }

    /// The number of tokens bound.
    pub fn len(&self) -> (r: usize)
        ensures
            r == self@.len(),
    {
        broadcast use vstd::hash_map::axiom_string_hash_map_spec_len;

        self.map.len()
    }

    /// The id bound to `token`, if any.
    pub fn get(&self, token: &str) -> (r: Option<i16>)
        ensures
            r == (if self@.contains_key(token@) {
                Some(self@[token@])
            } else {
                None::<i16>
            }),
    {
        match self.map.get(token) {
            Some(id) => Some(*id),
            None => None,
        }
    }
}

/// The integer part of a segmentation model: its name, which also declares
/// how it tokenizes, and its dictionary.
pub struct LstmData {
    pub model: String,
    pub dic: Dictionary,
}

/// One line of a segmentation test set.
#[derive(Debug)]
pub struct TestCase {
    pub unseg: String,
    pub expected_bies: String,
    pub true_bies: String,
}

/// A segmentation test set.
#[derive(Debug)]
pub struct TestTextData {
    pub testcases: Vec<TestCase>,
}

} // verus!
