//! The keys that are marked on the on-screen keyboard right now.

use vstd::prelude::*;
use vstd::string::*;

verus! {

/// The identifiers of the marked keys, in the order they were marked.
#[derive(Debug)]
pub struct HighlightedKeys {
    keys: Vec<String>,
}

impl View for HighlightedKeys {
    type V = Seq<Seq<char>>;

    closed spec fn view(&self) -> Seq<Seq<char>> {
        self.keys@.map_values(|key: String| key@)
    }
}

impl HighlightedKeys {
    /// No key is marked.
    pub fn new() -> (marked: HighlightedKeys)
        ensures
            marked@ == Seq::<Seq<char>>::empty(),
    {
        HighlightedKeys { keys: Vec::new() }
    }

    /// Notes that `key` has been marked.
    pub fn add_highlighted_key(&mut self, key: &str)
        ensures
            final(self)@ == old(self)@.push(key@),
    {
        self.keys.push(key.to_string());
    }

    /// Drops `key` from the marked keys, however often it was noted.
    pub fn remove_highlighted_key(&mut self, key: &str)
        ensures
            final(self)@ == old(self)@.filter(|marked: Seq<char>| marked != key@),
    {
        let dropped = key.to_string();
        let mut kept: Vec<String> = Vec::new();
        let ghost others = |marked: Seq<char>| marked != key@;
        let mut i: usize = 0;
        proof {
            reveal(Seq::filter);
        }
        while i < self.keys.len()
            invariant
                i <= self.keys.len(),
                dropped@ == key@,
                others == |marked: Seq<char>| marked != key@,
                kept@.map_values(|key: String| key@) == self@.take(i as int).filter(others),
            decreases self.keys.len() - i,
        {
            proof {
                assert(self@.take(i + 1) =~= self@.take(i as int).push(self@[i as int]));
                self@.take(i as int).lemma_filter_push(self@[i as int], others);
            }
            if self.keys[i] != dropped {
                kept.push(self.keys[i].clone());
            }
            i = i + 1;
        }
        assert(self@.take(i as int) =~= self@);
        self.keys = kept;
    }

    /// Forgets every marked key.
    pub fn clear_highlighted_keys(&mut self)
        ensures
            final(self)@ == Seq::<Seq<char>>::empty(),
    {
        self.keys.clear();
    }

    /// Takes the key that was marked last out of the marked keys.
    pub fn take_highlighted_key(&mut self) -> (key: Option<String>)
        ensures
            old(self)@.len() == 0 ==> key is None && final(self)@ == old(self)@,
            old(self)@.len() > 0 ==> key is Some && key->Some_0@ == old(self)@.last(),
            old(self)@.len() > 0 ==> final(self)@ == old(self)@.drop_last(),
    {
        self.keys.pop()
    }
}

} // verus!
