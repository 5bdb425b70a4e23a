use std::collections::HashMap;

use vstd::prelude::*;
use vstd::string::*;

use crate::error::AppError;
use crate::model::PortId;
use crate::text::{decimal, decimal_string};

verus! {

broadcast use vstd::std_specs::hash::group_hash_axioms;

/// The error for an unknown port: `Port <id> not found`.
pub fn port_not_found(id: PortId) -> (e: AppError)
    ensures
        e matches AppError::Serial(m) && m@ == "Port "@ + decimal(id as nat) + " not found"@,
{
    let mut m = "Port ".to_owned();
    let digits = decimal_string(id as u64);
    m.append(digits.as_str());
    m.append(" not found");
    AppError::Serial(m)
}

/// One operation on the port registry: handing out an identifier, recording
/// a port under one, or taking one out.
pub enum RegistryOp {
    Reserve,
    Insert(PortId),
    Remove(PortId),
}

/// The registry as the set of open identifiers and the next identifier.
pub struct RegistryModel {
    pub next_id: int,
    pub open: Set<PortId>,
}

/// A new registry: nothing open, identifiers start at 1.
pub open spec fn fresh_registry() -> RegistryModel {
    RegistryModel { next_id: 1, open: Set::empty() }
}

/// What one operation does to the registry.
pub open spec fn registry_step(m: RegistryModel, op: RegistryOp) -> RegistryModel {
    match op {
        RegistryOp::Reserve => RegistryModel { next_id: m.next_id + 1, open: m.open },
        RegistryOp::Insert(id) => RegistryModel { next_id: m.next_id, open: m.open.insert(id) },
        RegistryOp::Remove(id) => RegistryModel { next_id: m.next_id, open: m.open.remove(id) },
    }
}

/// A new registry after the operations, in order.
pub open spec fn replay(ops: Seq<RegistryOp>) -> RegistryModel
    decreases ops.len(),
{
    if ops.len() == 0 {
        fresh_registry()
    } else {
        registry_step(replay(ops.drop_last()), ops.last())
    }
}

/// Every insert is under an identifier handed out before it (as `insert`
/// requires).
pub open spec fn valid_ops(ops: Seq<RegistryOp>) -> bool {
    forall|i: int|
        0 <= i < ops.len() ==> (#[trigger] ops[i] matches RegistryOp::Insert(id) ==> 1 <= id < replay(
            ops.take(i),
        ).next_id)
}

/// How many identifiers the operations hand out.
pub open spec fn reserves_in(ops: Seq<RegistryOp>) -> int
    decreases ops.len(),
{
    if ops.len() == 0 {
        0
    } else {
        reserves_in(ops.drop_last()) + if ops.last() is Reserve { 1int } else { 0int }
    }
}

/// The identifier handed out by the operation at `i` (when it is a reserve).
pub open spec fn id_at(ops: Seq<RegistryOp>, i: int) -> int {
    replay(ops.take(i)).next_id
}

proof fn lemma_replay_inv(ops: Seq<RegistryOp>, n: int)
    requires
        valid_ops(ops),
        0 <= n <= ops.len(),
    ensures
        replay(ops.take(n)).next_id == reserves_in(ops.take(n)) + 1,
        forall|id: PortId| #[trigger] replay(ops.take(n)).open.contains(id) ==> 1 <= id < replay(ops.take(n)).next_id,
    decreases n,
{
    if n == 0 {
        assert(ops.take(0) =~= Seq::<RegistryOp>::empty());
    } else {
        lemma_replay_inv(ops, n - 1);
        let p = ops.take(n);
        assert(p.drop_last() =~= ops.take(n - 1));
        assert(p.last() == ops[n - 1]);
        let prev = replay(ops.take(n - 1));
        assert(ops[n - 1] matches RegistryOp::Insert(id) ==> 1 <= id < prev.next_id);
    }
}

/// Identifiers of successive opens from a new registry are 1, 2, 3, … in
/// order, whatever was inserted or removed in between: the `k`-th reserve
/// hands out `k`, which is above the identifier of every port still open.
pub proof fn law_successive_ids(ops: Seq<RegistryOp>, i: int)
    requires
        valid_ops(ops),
        0 <= i < ops.len(),
        ops[i] is Reserve,
    ensures
        id_at(ops, i) == reserves_in(ops.take(i)) + 1,
        forall|id: PortId| #[trigger] replay(ops.take(i)).open.contains(id) ==> id < id_at(ops, i),
{
    lemma_replay_inv(ops, i);
}

proof fn lemma_reserves_grow(ops: Seq<RegistryOp>, i: int, j: int)
    requires
        0 <= i < j <= ops.len(),
        ops[i] is Reserve,
    ensures
        reserves_in(ops.take(i)) < reserves_in(ops.take(j)),
    decreases j - i,
{
    let q = ops.take(j);
    assert(q.drop_last() =~= ops.take(j - 1));
    if j - 1 > i {
        lemma_reserves_grow(ops, i, j - 1);
    } else {
        assert(q.last() == ops[i]);
    }
}

/// Identifiers handed out are never handed out again: of two reserves, the
/// later hands out a larger identifier, even after ports were closed.
pub proof fn law_ids_never_reused(ops: Seq<RegistryOp>, i: int, j: int)
    requires
        valid_ops(ops),
        0 <= i < j < ops.len(),
        ops[i] is Reserve,
        ops[j] is Reserve,
    ensures
        id_at(ops, i) < id_at(ops, j),
{
    lemma_replay_inv(ops, i);
    lemma_replay_inv(ops, j);
    lemma_reserves_grow(ops, i, j);
}

/// The open ports, each under the identifier it was given when opened, and
/// the identifier the next port will get. `H` is whatever stands for an open
/// port (the handle of its worker).
pub struct PortRegistry<H> {
    next_id: PortId,
    ports: HashMap<PortId, H>,
}

impl<H> PortRegistry<H> {
    /// The identifier the next opened port gets.
    pub closed spec fn next_id(&self) -> PortId {
        self.next_id
    }

    /// The open ports by identifier.
    pub closed spec fn ports(&self) -> Map<PortId, H> {
        self.ports@
    }

    /// The registry as identifiers only, for laws over sequences of
    /// operations; which handle is open under each identifier is what
    /// [`Self::ports`] states.
    pub open spec fn model(&self) -> RegistryModel {
        RegistryModel { next_id: self.next_id() as int, open: self.ports().dom() }
    }

    /// Identifiers start at 1, and every open port has an identifier handed
    /// out before: from 1 up to, but not including, the next one.
    pub open spec fn wf(&self) -> bool {
        &&& self.next_id() >= 1
        &&& forall|id: PortId| #[trigger] self.ports().contains_key(id) ==> 1 <= id < self.next_id()
    }

    /// No port open; identifiers start at 1.
    pub fn new() -> (r: Self)
        ensures
            r.wf(),
            r.next_id() == 1,
            r.ports() == Map::<PortId, H>::empty(),
            r.model() == fresh_registry(),
    {
        PortRegistry { next_id: 1, ports: HashMap::new() }
    }

    /// The identifier the next opened port gets.
    pub fn peek_next_id(&self) -> (n: PortId)
        ensures
            n == self.next_id(),
    {
        self.next_id
    }

    /// Hands out the identifier for a port about to be opened. The identifier
    /// is used up even when opening then fails.
    pub fn reserve_id(&mut self) -> (id: PortId)
        requires
            old(self).wf(),
            old(self).next_id() < u32::MAX,
        ensures
            final(self).wf(),
            id == old(self).next_id(),
            final(self).next_id() == id + 1,
            final(self).ports() == old(self).ports(),
            final(self).model() == registry_step(old(self).model(), RegistryOp::Reserve),
    {
        let id = self.next_id;
        self.next_id = self.next_id + 1;
        assert forall|k: PortId| #[trigger] self.ports().contains_key(k) implies 1 <= k < self.next_id() by {
            assert(old(self).ports().contains_key(k));
        }
        id
    }

    /// Records an opened port under an identifier handed out before.
    pub fn insert(&mut self, id: PortId, handle: H)
        requires
            old(self).wf(),
            1 <= id < old(self).next_id(),
        ensures
            final(self).wf(),
            final(self).next_id() == old(self).next_id(),
            final(self).ports() == old(self).ports().insert(id, handle),
            final(self).model() == registry_step(old(self).model(), RegistryOp::Insert(id)),
    {
        self.ports.insert(id, handle);
        assert forall|k: PortId| #[trigger] self.ports().contains_key(k) implies 1 <= k < self.next_id() by {
            if k != id {
                assert(old(self).ports().contains_key(k));
            }
        }
    }

    /// Takes a port out of the registry to close it; an error when no port is
    /// open under `id`.
    pub fn remove(&mut self, id: PortId) -> (r: Result<H, AppError>)
        requires
            old(self).wf(),
        ensures
            final(self).wf(),
            final(self).next_id() == old(self).next_id(),
            final(self).model() == registry_step(old(self).model(), RegistryOp::Remove(id)),
            old(self).ports().contains_key(id) ==> (r matches Ok(h) && h == old(self).ports()[id]
                && final(self).ports() == old(self).ports().remove(id)),
            !old(self).ports().contains_key(id) ==> (r matches Err(AppError::Serial(m)) && m@ == "Port "@
                + decimal(id as nat) + " not found"@ && final(self).ports() == old(self).ports()),
    {
        let r = match self.ports.remove(&id) {
            Some(h) => Ok(h),
            None => Err(port_not_found(id)),
        };
        assert forall|k: PortId| #[trigger] self.ports().contains_key(k) implies 1 <= k < self.next_id() by {
            assert(old(self).ports().contains_key(k));
        }
        r
    }

    /// The port open under `id`; an error when there is none.
    pub fn get(&self, id: PortId) -> (r: Result<&H, AppError>)
        ensures
            self.ports().contains_key(id) ==> (r matches Ok(h) && *h == self.ports()[id]),
            !self.ports().contains_key(id) ==> (r matches Err(AppError::Serial(m)) && m@ == "Port "@
                + decimal(id as nat) + " not found"@),
    {
        match self.ports.get(&id) {
            Some(h) => Ok(h),
            None => Err(port_not_found(id)),
        }
    }
}

/// A reserved identifier is never that of a port still open, so opening a
/// port never replaces another.
pub proof fn law_reserved_id_is_fresh<H>(r: PortRegistry<H>)
    requires
        r.wf(),
    ensures
        !r.ports().contains_key(r.next_id()),
{
}

} // verus!
