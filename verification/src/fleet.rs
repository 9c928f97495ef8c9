//! The supervisor of the fleet. Once per cycle it sees to the credential,
//! asks for the listing of vehicles, starts a unit for every vehicle that
//! has none and cancels the unit of every vehicle that the listing no
//! longer names.
use vstd::prelude::*;
use crate::error::Error;
use crate::records::Vehicle;
use crate::token::{RefreshRequest, TokenState};

verus! {

/// Seconds between two cycles of the supervisor.
pub const CYCLE_SECS: u64 = 60;

/// The ids of the vehicles of a listing, in its order.
pub open spec fn ids(listing: Seq<Vehicle>) -> Seq<i64> {
    listing.map_values(|v: Vehicle| v.id)
}

/// The ids among `known` that `listed` names, in the order of `known`.
pub open spec fn named(known: Seq<i64>, listed: Seq<i64>) -> Seq<i64> {
    known.filter(|id: i64| listed.contains(id))
}

/// The ids among `known` that `listed` does not name, in the order of
/// `known`.
pub open spec fn unnamed(known: Seq<i64>, listed: Seq<i64>) -> Seq<i64> {
    known.filter(|id: i64| !listed.contains(id))
}

/// The vehicles of the listing whose id is not among `known`, in the order
/// of the listing; of several entries with one id, the first.
pub open spec fn newcomers(listing: Seq<Vehicle>, known: Seq<i64>) -> Seq<Vehicle>
    decreases listing.len(),
{
    if listing.len() == 0 {
        Seq::empty()
    } else {
        let earlier = listing.drop_last();
        let last = listing.last();
        if known.contains(last.id) || ids(earlier).contains(last.id) {
            newcomers(earlier, known)
        } else {
            newcomers(earlier, known).push(last)
        }
    }
}

/// What the supervisor does next within a cycle.
#[derive(Debug, Clone, PartialEq, Eq)]
pub enum CycleAction {
    /// Send this request, and come back with the answer.
    Refresh(RefreshRequest),
    /// Ask for the listing of vehicles.
    ListVehicles,
    /// Leave the listing out of this cycle and wait for the next.
    Skip,
}

/// What a listing asks of the supervisor.
#[derive(Debug, Clone, PartialEq, Eq)]
pub struct CyclePlan {
    /// The vehicles to start a unit for.
    pub spawn: Vec<Vehicle>,
    /// The ids of the vehicles whose unit is to be cancelled and let go.
    pub cancel: Vec<i64>,
}

/// The supervisor: the ids of the vehicles that have a unit.
#[derive(Debug, PartialEq, Eq)]
pub struct Supervisor {
    monitored: Vec<i64>,
}

/// A pushed list contains what the list contained, and what was pushed.
pub proof fn lemma_push_contains<T>(s: Seq<T>, x: T)
    ensures
        forall|y: T| #[trigger] s.push(x).contains(y) <==> s.contains(y) || y == x,
{
    assert forall|y: T| #[trigger] s.push(x).contains(y) <==> s.contains(y) || y == x by {
        if s.contains(y) {
            let i = choose|i: int| 0 <= i < s.len() && s[i] == y;
            assert(s.push(x)[i] == y);
        }
        if y == x {
            assert(s.push(x)[s.len() as int] == y);
        }
    }
}

/// Filtering a pushed list filters the list and keeps what was pushed if
/// it passes.
pub proof fn lemma_filter_push<T>(s: Seq<T>, x: T, pred: spec_fn(T) -> bool)
    ensures
        s.push(x).filter(pred) == (if pred(x) {
            s.filter(pred).push(x)
        } else {
            s.filter(pred)
        }),
{
    reveal(Seq::filter);
    assert(s.push(x).drop_last() =~= s);
}

/// Pushing what a list of distinct items does not contain keeps the items
/// distinct.
pub proof fn lemma_push_distinct<T>(s: Seq<T>, x: T)
    requires
        s.no_duplicates(),
        !s.contains(x),
    ensures
        s.push(x).no_duplicates(),
{
    assert forall|i: int, j: int|
        0 <= i < s.push(x).len() && 0 <= j < s.push(x).len() && i != j implies s.push(x)[i]
        != s.push(x)[j] by {
        if i < s.len() {
            assert(s.contains(s[i]));
        }
        if j < s.len() {
            assert(s.contains(s[j]));
        }
    }
}

/// Whether `id` is among `known`.
fn knows(known: &Vec<i64>, id: i64) -> (found: bool)
    ensures
        found == known@.contains(id),
{
    let mut i: usize = 0;
    while i < known.len()
        invariant
            i <= known.len(),
            forall|k: int| 0 <= k < i ==> known@[k] != id,
        decreases known.len() - i,
    {
        if known[i] == id {
            return true;
        }
        i += 1;
    }
    false
}

/// Whether the listing names `id`.
fn lists(listing: &Vec<Vehicle>, id: i64) -> (found: bool)
    ensures
        found == ids(listing@).contains(id),
{
    let mut i: usize = 0;
    while i < listing.len()
        invariant
            i <= listing.len(),
            forall|k: int| 0 <= k < i ==> ids(listing@)[k] != id,
        decreases listing.len() - i,
    {
        if listing[i].id == id {
            assert(ids(listing@)[i as int] == id);
            return true;
        }
        i += 1;
    }
    false
}

impl Supervisor {
    /// The ids of the vehicles that have a unit.
    pub closed spec fn monitored(&self) -> Seq<i64> {
        self.monitored@
    }

    /// No vehicle has two units.
    #[verifier::type_invariant]
    spec fn distinct(&self) -> bool {
        self.monitored@.no_duplicates()
    }

    /// A supervisor without units.
    pub fn new() -> (s: Self)
        ensures
            s.monitored().len() == 0,
    {
        Supervisor { monitored: Vec::new() }
    }

    /// The ids of the vehicles that have a unit.
    pub fn units(&self) -> (ids: &Vec<i64>)
        ensures
            ids@ == self.monitored(),
            ids@.no_duplicates(),
    {
        proof {
            use_type_invariant(self);
        }
        &self.monitored
    }

    /// Whether the vehicle `id` has a unit.
    pub fn is_monitored(&self, id: i64) -> (found: bool)
        ensures
            found == self.monitored().contains(id),
    {
        knows(&self.monitored, id)
    }

    /// Opens a cycle at `now`: the credential is refreshed first where it
    /// is due or was refused; otherwise the listing is next.
    pub fn begin_cycle(&self, token: &TokenState, now: i64) -> (action: CycleAction)
        ensures
            match action {
                CycleAction::Refresh(q) => (token.token().due(now) || token.refused())
                    && token.refreshes(q),
                CycleAction::ListVehicles => !token.token().due(now) && !token.refused(),
                CycleAction::Skip => false,
            },
    {
        match token.check_refresh_token(now) {
            Some(request) => CycleAction::Refresh(request),
            None => CycleAction::ListVehicles,
        }
    }

    /// Goes on after a refresh: to the listing where it succeeded; where it
    /// failed, the listing is left out of this cycle.
    pub fn after_refresh(&self, outcome: &Result<(), Error>) -> (action: CycleAction)
        ensures
            outcome is Ok ==> action == CycleAction::ListVehicles,
            outcome is Err ==> action == CycleAction::Skip,
    {
        match outcome {
            Ok(_) => CycleAction::ListVehicles,
            Err(_) => CycleAction::Skip,
        }
    }

    /// Takes the answer to the listing.
    ///
    /// A failed listing changes nothing and asks for nothing: it is tried
    /// again in the next cycle. After a listing, exactly the listed vehicles
    /// have a unit. Started are the listed vehicles that had none, each
    /// once and in the order of the listing; cancelled are the units of the
    /// vehicles that are not listed, in the order in which they were
    /// started.
    pub fn on_listing(&mut self, listing: &Result<Vec<Vehicle>, Error>) -> (plan: CyclePlan)
        ensures
            final(self).monitored().no_duplicates(),
            match listing {
                Err(_) => final(self).monitored() == old(self).monitored() && plan.spawn@.len() == 0
                    && plan.cancel@.len() == 0,
                Ok(listed) => {
                    &&& plan.spawn@ == newcomers(listed@, old(self).monitored())
                    &&& plan.cancel@ == unnamed(old(self).monitored(), ids(listed@))
                    &&& final(self).monitored() == named(old(self).monitored(), ids(listed@)) + ids(
                        plan.spawn@,
                    )
                    &&& forall|id: i64| #[trigger]
                        final(self).monitored().contains(id) <==> ids(listed@).contains(id)
                    &&& forall|id: i64| #[trigger]
                        plan.cancel@.contains(id) <==> old(self).monitored().contains(id) && !ids(
                            listed@,
                        ).contains(id)
                    &&& forall|id: i64| #[trigger]
                        ids(plan.spawn@).contains(id) <==> ids(listed@).contains(id)
                            && !old(self).monitored().contains(id)
                    &&& plan.cancel@.no_duplicates()
                    &&& ids(plan.spawn@).no_duplicates()
                    &&& forall|k: int|
                        0 <= k < plan.spawn@.len() ==> listed@.contains(#[trigger] plan.spawn@[k])
                },
            },
    {
        proof {
            use_type_invariant(&*self);
        }
        let listed = match listing {
            Err(_) => {
                return CyclePlan { spawn: Vec::new(), cancel: Vec::new() };
            },
            Ok(listed) => listed,
        };
        let ghost before = self.monitored@;
        let mut kept: Vec<i64> = Vec::new();
        let mut cancel: Vec<i64> = Vec::new();
        let mut i: usize = 0;
        while i < self.monitored.len()
            invariant
                i <= self.monitored.len(),
                self.monitored@ == before,
                before.no_duplicates(),
                kept@.no_duplicates(),
                cancel@.no_duplicates(),
                kept@ == named(before.take(i as int), ids(listed@)),
                cancel@ == unnamed(before.take(i as int), ids(listed@)),
                forall|id: i64| #[trigger]
                    kept@.contains(id) <==> before.take(i as int).contains(id) && ids(
                        listed@,
                    ).contains(id),
                forall|id: i64| #[trigger]
                    cancel@.contains(id) <==> before.take(i as int).contains(id) && !ids(
                        listed@,
                    ).contains(id),
            decreases self.monitored.len() - i,
        {
            let id = self.monitored[i];
            proof {
                assert(before.take(i + 1) =~= before.take(i as int).push(id));
                lemma_filter_push(
                    before.take(i as int),
                    id,
                    |id: i64| ids(listed@).contains(id),
                );
                lemma_filter_push(
                    before.take(i as int),
                    id,
                    |id: i64| !ids(listed@).contains(id),
                );
                lemma_push_contains(before.take(i as int), id);
            }
            if lists(listed, id) {
                proof {
                    lemma_push_distinct(kept@, id);
                    lemma_push_contains(kept@, id);
                }
                kept.push(id);
            } else {
                proof {
                    lemma_push_distinct(cancel@, id);
                    lemma_push_contains(cancel@, id);
                }
                cancel.push(id);
            }
            i += 1;
        }
        assert(before.take(before.len() as int) =~= before);
        let ghost stayed = kept@;
        let mut spawn: Vec<Vehicle> = Vec::new();
        let mut j: usize = 0;
        while j < listed.len()
            invariant
                j <= listed.len(),
                kept@.no_duplicates(),
                ids(spawn@).no_duplicates(),
                spawn@ == newcomers(listed@.take(j as int), before),
                kept@ == stayed + ids(spawn@),
                forall|id: i64| #[trigger]
                    stayed.contains(id) <==> before.contains(id) && ids(listed@).contains(id),
                forall|id: i64| #[trigger]
                    kept@.contains(id) <==> stayed.contains(id) || ids(
                        listed@.take(j as int),
                    ).contains(id),
                forall|id: i64| #[trigger]
                    ids(spawn@).contains(id) <==> ids(listed@.take(j as int)).contains(id)
                        && !before.contains(id),
                forall|k: int| 0 <= k < spawn@.len() ==> listed@.contains(#[trigger] spawn@[k]),
            decreases listed.len() - j,
        {
            let id = listed[j].id;
            proof {
                let seen = ids(listed@.take(j as int));
                assert(ids(listed@.take(j + 1)) =~= seen.push(id));
                lemma_push_contains(seen, id);
                assert(ids(listed@)[j as int] == id);
                assert(listed@.take(j + 1).drop_last() =~= listed@.take(j as int));
            }
            if !knows(&kept, id) {
                let vehicle = listed[j].duplicate();
                proof {
                    lemma_push_contains(kept@, id);
                    assert(ids(spawn@.push(vehicle)) =~= ids(spawn@).push(id));
                    lemma_push_distinct(ids(spawn@), id);
                    lemma_push_contains(ids(spawn@), id);
                }
                kept.push(id);
                spawn.push(vehicle);
            }
            j += 1;
        }
        assert(listed@.take(listed@.len() as int) =~= listed@);
        self.monitored = kept;
        CyclePlan { spawn, cancel }
    }
}

} // verus!
