//! The single-slot matchmaking rendezvous: at most one session waits at a
//! time; the next pairing attempt takes it as its peer and empties the slot.

use vstd::prelude::*;

verus! {

/// One session's identity as the rendezvous holds it: a numeric connection
/// identifier (for diagnostics only) and the nickname negotiated before the
/// pairing attempt. The session's message channel itself stays with the
/// caller's transport layer, keyed by the identifier.
pub struct Session {
    pub id: u64,
    pub nickname: String,
}

/// The outcome of a pairing attempt.
pub enum PairOutcome {
    /// The slot was empty: the caller's session was stored and now waits;
    /// the caller performs no further reads or writes on it until a future
    /// attempt pairs with it.
    Waiting,
    /// The slot held a waiting session: the caller removes it and takes it
    /// as its peer, and the slot is empty again.
    Paired(Session),
}

/// The slot contents after a pairing attempt by `s`: an empty slot stores
/// `s`; a full slot is emptied.
pub open spec fn slot_after(slot: Option<Session>, s: Session) -> Option<Session> {
    match slot {
        None => Some(s),
        Some(_) => None,
    }
}

/// What a pairing attempt by `s` returns: `Waiting` on an empty slot, the
/// stored session on a full one.
pub open spec fn outcome_of(slot: Option<Session>, s: Session) -> PairOutcome {
    match slot {
        None => PairOutcome::Waiting,
        Some(p) => PairOutcome::Paired(p),
    }
}

/// The single-slot waiting room. Invariant: it holds at most one waiting
/// session, and a stored session leaves the slot exactly once, through the
/// one pairing attempt that returns it. Callers that share a registry
/// serialize their attempts with a mutual-exclusion lock around `try_pair`.
pub struct Registry {
    /// The waiting session, when one is stored.
    pub slot: Option<Session>,
}

impl Registry {
    /// A registry with an empty slot.
    pub fn new() -> (r: Registry)
        ensures
            r.slot is None,
    {
        Registry { slot: None }
    }

    /// One pairing attempt: removes and returns the waiting session when one
    /// is stored, and otherwise stores `session` and reports that it waits.
    pub fn try_pair(&mut self, session: Session) -> (r: PairOutcome)
        ensures
            final(self).slot == slot_after(old(self).slot, session),
            r == outcome_of(old(self).slot, session),
    {
        let data = self.slot.take();
        match data {
            Some(x) => PairOutcome::Paired(x),
            None => {
                self.slot = Some(session);
                PairOutcome::Waiting
            },
        }
    }
}

/// Rendezvous order: from an empty slot, a first session `a` is stored and
/// waits; a second session `b` pairs with `a`, emptying the slot; a third
/// session `c` then waits again.
pub proof fn lemma_rendezvous(a: Session, b: Session, c: Session)
    ensures
        outcome_of(None, a) is Waiting,
        slot_after(None, a) == Some(a),
        outcome_of(slot_after(None, a), b) == PairOutcome::Paired(a),
        slot_after(slot_after(None, a), b) is None,
        outcome_of(slot_after(slot_after(None, a), b), c) is Waiting,
{
}

} // verus!
