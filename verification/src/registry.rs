//! The session registry's identifiers, apart from everything else the
//! console holds, and what holds of them over any run of registrations and
//! evictions.

use vstd::prelude::*;
use std::sync::Arc;
use crate::app::AppModel;
use crate::session::Session;

verus! {

/// The registry as identifiers alone: those of the sessions it holds, in the
/// order of the list, and the highest one ever handed out.
pub struct Registry {
    pub ids: Seq<nat>,
    pub highest: nat,
}

/// One change of the registry.
pub enum RegistryOp {
    /// A new session joins.
    Register,
    /// The session in this row leaves.
    Evict(nat),
}

impl Registry {
    /// The registry of a new console.
    pub open spec fn fresh() -> Registry {
        Registry { ids: Seq::empty(), highest: 0 }
    }

    /// The identifiers rise along the list, and none is zero or above the
    /// highest one handed out.
    pub open spec fn ordered(self) -> bool {
        &&& forall|i: int| 0 <= i < self.ids.len() ==> 1 <= #[trigger] self.ids[i] <= self.highest
        &&& forall|i: int, j: int|
            0 <= i < j < self.ids.len() ==> #[trigger] self.ids[i] < #[trigger] self.ids[j]
    }

    /// The identifier that the next session gets.
    pub open spec fn next_id(self) -> nat {
        self.highest + 1
    }

    /// The registry once a session joined it.
    pub open spec fn register(self) -> Registry {
        Registry { ids: self.ids.push(self.next_id()), highest: self.next_id() }
    }

    /// The registry once the session in row `index` left it; the same
    /// registry where there is no such row.
    pub open spec fn evict(self, index: nat) -> Registry {
        if index < self.ids.len() {
            Registry { ids: self.ids.remove(index as int), ..self }
        } else {
            self
        }
    }

    /// The registry after one change.
    pub open spec fn apply(self, op: RegistryOp) -> Registry {
        match op {
            RegistryOp::Register => self.register(),
            RegistryOp::Evict(index) => self.evict(index),
        }
    }

    /// The registry after each of `ops` in turn.
    pub open spec fn run(self, ops: Seq<RegistryOp>) -> Registry
        decreases ops.len(),
    {
        if ops.len() == 0 {
            self
        } else {
            self.run(ops.drop_last()).apply(ops.last())
        }
    }

    /// The identifiers handed out while `ops` run, in the order of their
    /// registrations.
    pub open spec fn issued(self, ops: Seq<RegistryOp>) -> Seq<nat>
        decreases ops.len(),
    {
        if ops.len() == 0 {
            Seq::empty()
        } else {
            let before = self.issued(ops.drop_last());
            match ops.last() {
                RegistryOp::Register => before.push(self.run(ops.drop_last()).next_id()),
                RegistryOp::Evict(_) => before,
            }
        }
    }
}

impl<'a> AppModel<'a> {
    /// The identifiers of the console's registry.
    pub open spec fn registry(self) -> Registry {
        Registry {
            ids: self.sessions.map_values(|s: Arc<Session>| s.id as nat),
            highest: self.highest_session_number as nat,
        }
    }
}

/// A console in a sound state has its registry's identifiers in order.
pub proof fn lemma_wf_is_ordered(m: AppModel)
    requires
        m.wf(),
    ensures
        m.registry().ordered(),
{
}

/// Registering a session in the console registers it in the registry of
/// identifiers.
pub proof fn lemma_register_matches(m: AppModel, session: Arc<Session>)
    requires
        session.id == m.highest_session_number + 1,
        m.highest_session_number < usize::MAX,
    ensures
        m.after_register(session).registry() == m.registry().register(),
{
    assert(m.after_register(session).registry().ids =~= m.registry().register().ids);
}

/// Evicting a session from the console evicts it from the registry of
/// identifiers.
pub proof fn lemma_evict_matches(m: AppModel, index: usize)
    ensures
        m.after_evict(index).registry() == m.registry().evict(index as nat),
{
    assert(m.after_evict(index).registry().ids =~= m.registry().evict(index as nat).ids);
}

/// One change keeps the identifiers in order and never lowers the highest
/// one handed out.
pub proof fn lemma_apply_keeps_order(r: Registry, op: RegistryOp)
    requires
        r.ordered(),
    ensures
        r.apply(op).ordered(),
        r.apply(op).highest >= r.highest,
{
}

/// However registrations and evictions follow one another, the sessions get
/// the identifiers above the highest one handed out before, one after the
/// other in the order of their registrations: each is one more than the one
/// before it, so they are distinct, they rise, and eviction frees none of
/// them for another session. The registry stays in order throughout.
pub proof fn lemma_ids_never_reused(r: Registry, ops: Seq<RegistryOp>)
    requires
        r.ordered(),
    ensures
        r.run(ops).ordered(),
        r.run(ops).highest == r.highest + r.issued(ops).len(),
        forall|k: int|
            0 <= k < r.issued(ops).len() ==> #[trigger] r.issued(ops)[k] == r.highest + 1 + k,
        forall|k: int, i: int|
            0 <= k < r.issued(ops).len() && 0 <= i < r.ids.len() ==> #[trigger] r.issued(ops)[k]
                > #[trigger] r.ids[i],
    decreases ops.len(),
{
    if ops.len() > 0 {
        lemma_ids_never_reused(r, ops.drop_last());
        lemma_apply_keeps_order(r.run(ops.drop_last()), ops.last());
    }
}

} // verus!
