//! The one message this library carries: the file paths and URIs of a launch.

use vstd::prelude::*;

verus! {

/// The character sequences held by a sequence of strings, in order.
pub open spec fn texts(items: Seq<String>) -> Seq<Seq<char>> {
    Seq::new(items.len(), |i: int| items[i]@)
}

/// The ordered list of file paths and URIs attached to one launch.
///
/// An empty payload is valid: it only asks the owner to bring its window to
/// the front.
#[derive(Debug)]
pub struct Payload {
    pub items: Vec<String>,
}

impl View for Payload {
    type V = Seq<Seq<char>>;

    open spec fn view(&self) -> Seq<Seq<char>> {
        texts(self.items@)
    }
}

impl Payload {
    /// The empty payload.
    pub fn new() -> (p: Payload)
        ensures
            p@ == Seq::<Seq<char>>::empty(),
    {
        let p = Payload { items: Vec::new() };
        assert(p@ =~= Seq::<Seq<char>>::empty());
        p
    }

    /// Wraps a list of strings without touching it.
    pub fn from_vec(items: Vec<String>) -> (p: Payload)
        ensures
            p.items == items,
            p@ == texts(items@),
    {
        Payload { items }
    }

    /// Gives the list of strings back.
    pub fn into_vec(self) -> (items: Vec<String>)
        ensures
            items == self.items,
            texts(items@) == self@,
    {
        self.items
    }

    /// Number of entries.
    pub fn len(&self) -> (n: usize)
        ensures
            n == self@.len(),
    {
        self.items.len()
    }

    /// Whether the payload carries no entry at all.
    pub fn is_empty(&self) -> (b: bool)
        ensures
            b == (self@.len() == 0),
    {
        self.items.len() == 0
    }

    /// The entry at position `i`.
    pub fn get(&self, i: usize) -> (s: &String)
        requires
            i < self@.len(),
        ensures
            s@ == self@[i as int],
    {
        &self.items[i]
    }

    /// Appends one entry at the end.
    pub fn push(&mut self, item: String)
        ensures
            final(self)@ == old(self)@.push(item@),
    {
        self.items.push(item);
        assert(self@ =~= old(self)@.push(item@));
    }

    /// An independent copy with the same entries in the same order.
    pub fn duplicate(&self) -> (p: Payload)
        ensures
            p@ == self@,
    {
        let mut items: Vec<String> = Vec::new();
        let mut i: usize = 0;
        while i < self.items.len()
            invariant
                i <= self.items.len(),
                items.len() == i,
                forall|k: int| 0 <= k < i ==> items[k]@ == self.items[k]@,
            decreases self.items.len() - i,
        {
            items.push(self.items[i].clone());
            i = i + 1;
        }
        let p = Payload { items };
        assert(p@ =~= self@);
        p
    }

    /// Whether two payloads hold the same entries in the same order.
    pub fn same_as(&self, other: &Payload) -> (b: bool)
        ensures
            b == (self@ == other@),
    {
        if self.items.len() != other.items.len() {
            assert(self@.len() != other@.len());
            return false;
        }
        let mut i: usize = 0;
        while i < self.items.len()
            invariant
                i <= self.items.len(),
                self.items.len() == other.items.len(),
                forall|k: int| 0 <= k < i ==> self@[k] == other@[k],
            decreases self.items.len() - i,
        {
            if self.items[i] != other.items[i] {
                assert(self@[i as int] != other@[i as int]);
                return false;
            }
            i = i + 1;
        }
        assert(self@ =~= other@);
        true
    }
}

} // verus!
