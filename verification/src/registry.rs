//! The turns a runtime is running, by turn id: at most one turn runs under an
//! id at a time, and input and cancellation reach only running turns.
use vstd::hash_map::StringHashMap;
use vstd::prelude::*;
use vstd::string::StringExecFns;

use crate::error::RuntimeError;

verus! {

/// The running turns, each with the handle `C` that reaches it.
#[verifier::reject_recursive_types(C)]
pub struct TurnRegistry<C> {
    turns: StringHashMap<C>,
}

impl<C> View for TurnRegistry<C> {
    type V = Map<Seq<char>, C>;

    closed spec fn view(&self) -> Map<Seq<char>, C> {
        self.turns@
    }
}

impl<C> TurnRegistry<C> {
    /// No turn running.
    pub fn new() -> (r: Self)
        ensures
            r@ == Map::<Seq<char>, C>::empty(),
    {
        TurnRegistry { turns: StringHashMap::new() }
    }

    /// Whether a turn runs under `turn_id`.
    pub fn contains(&self, turn_id: &str) -> (r: bool)
        ensures
            r == self@.contains_key(turn_id@),
    {
        self.turns.contains_key(turn_id)
    }

    /// Starts keeping `control` for the turn `turn_id`; refused when a turn
    /// already runs under that id, and then nothing changes.
    pub fn register(&mut self, turn_id: &str, control: C) -> (r: Result<(), RuntimeError>)
        ensures
            old(self)@.contains_key(turn_id@) ==> (r matches Err(RuntimeError::TurnAlreadyExists {
                turn_id: t,
            }) && t@ == turn_id@ && final(self)@ == old(self)@),
            !old(self)@.contains_key(turn_id@) ==> (r is Ok && final(self)@ == old(self)@.insert(
                turn_id@,
                control,
            )),
    {
        if self.turns.contains_key(turn_id) {
            Err(RuntimeError::TurnAlreadyExists { turn_id: turn_id.to_string() })
        } else {
            self.turns.insert(turn_id.to_string(), control);
            Ok(())
        }
    }

    /// The handle of the running turn `turn_id`, or `TurnNotFound`.
    pub fn get(&self, turn_id: &str) -> (r: Result<&C, RuntimeError>)
        ensures
            self@.contains_key(turn_id@) ==> (r matches Ok(c) && *c == self@[turn_id@]),
            !self@.contains_key(turn_id@) ==> (r matches Err(RuntimeError::TurnNotFound {
                turn_id: t,
            }) && t@ == turn_id@),
    {
        match self.turns.get(turn_id) {
            Some(c) => Ok(c),
            None => Err(RuntimeError::TurnNotFound { turn_id: turn_id.to_string() }),
        }
    }

    /// Forgets the turn `turn_id`, if it runs.
    pub fn remove(&mut self, turn_id: &str)
        ensures
            final(self)@ == old(self)@.remove(turn_id@),
    {
        self.turns.remove(turn_id);
    }
}

/// A turn id that is registered can be reached until it is removed, and a
/// second registration under it is refused; after removal it can be registered again.
pub proof fn lemma_one_turn_per_id<C>(m: Map<Seq<char>, C>, id: Seq<char>, c: C, d: C)
    ensures
        m.insert(id, c).contains_key(id),
        m.insert(id, c)[id] == c,
        !m.insert(id, c).remove(id).contains_key(id),
        m.insert(id, c).remove(id).insert(id, d)[id] == d,
{
}

} // verus!
