use vstd::prelude::*;

use crate::turn::{Turn, TurnModel};

verus! {

/// The ordered history of a session: turns in the order they were made.
/// Turns are only ever added at the end.
pub struct Conversation {
    turns: Vec<Turn>,
}

/// The models of a sequence of turns.
pub open spec fn models(ts: Seq<Turn>) -> Seq<TurnModel> {
    ts.map_values(|t: Turn| t@)
}

impl View for Conversation {
    type V = Seq<TurnModel>;

    closed spec fn view(&self) -> Seq<TurnModel> {
        models(self.turns@)
    }
}

impl Conversation {
    /// An empty conversation.
    pub fn new() -> (r: Conversation)
        ensures
            r@ == Seq::<TurnModel>::empty(),
    {
        let r = Conversation { turns: Vec::new() };
        assert(r@ =~= Seq::<TurnModel>::empty());
        r
    }

    /// The number of turns so far.
    pub fn len(&self) -> (r: usize)
        ensures
            r == self@.len(),
    {
        self.turns.len()
    }

    /// The turn at position `i`.
    pub fn get(&self, i: usize) -> (r: &Turn)
        requires
            i < self@.len(),
        ensures
            r@ == self@[i as int],
    {
        &self.turns[i]
    }

    /// Adds `t` after every turn made so far.
    pub fn append(&mut self, t: Turn)
        ensures
            final(self)@ == old(self)@.push(t@),
    {
        let ghost m = t@;
        self.turns.push(t);
        assert(self@ =~= old(self)@.push(m));
    }

    /// Every turn made so far, in order, as a sequence of its own.
    pub fn snapshot(&self) -> (r: Vec<Turn>)
        ensures
            models(r@) == self@,
    {
        let mut r: Vec<Turn> = Vec::new();
        let mut i: usize = 0;
        while i < self.turns.len()
            invariant
                i <= self.turns@.len(),
                models(r@) =~= models(self.turns@).subrange(0, i as int),
            decreases self.turns@.len() - i,
        {
            let t = self.turns[i].duplicate();
            let ghost before = r@;
            r.push(t);
            assert(models(r@) =~= models(before).push(self.turns@[i as int]@));
            assert(models(self.turns@).subrange(0, i + 1) =~= models(
                self.turns@,
            ).subrange(0, i as int).push(self.turns@[i as int]@));
            i = i + 1;
        }
        assert(models(self.turns@).subrange(0, i as int) =~= models(self.turns@));
        r
    }
}

} // verus!
