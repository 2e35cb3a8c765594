//! The register, delete and info operations. Registering waits on two chain
//! lookups; each step here takes what the previous lookup returned and says
//! what to do next, so the caller performs the lookups and spawns watchers.

use vstd::prelude::*;

use crate::key::{KeyModel, RpcSearchKey};
use crate::table::{
    after_insert, after_publish, after_remove, index_of, is_registered, table_wf, may_publish,
    RegistrationTable, TableModel,
};
use crate::tip::TipSnapshot;

verus! {

/// A failed chain-data lookup.
#[derive(Clone, Debug, PartialEq, Eq)]
pub enum ChainError {
    /// The chain-data service could not be reached or answered with an error.
    Network(String),
    /// No header exists at the given block number.
    NotFound(u64),
}

/// What a registration asks for next.
#[derive(Debug)]
pub enum RegisterStep {
    /// Registration is over, with this result: `Ok(true)` where the key is
    /// newly watched, `Ok(false)` where there was nothing to do.
    Done(Result<bool, ChainError>),
    /// Look up the current chain tip.
    FetchTip,
    /// Look up the header at this block number.
    FetchHeader(u64),
    /// The key is now registered: spawn the watcher with this identifier;
    /// the result is `Ok(true)`.
    Spawn(u64),
}

/// The state of the service: the registrations and their watchers.
#[derive(Debug)]
pub struct EmitterService {
    table: RegistrationTable,
}

impl View for EmitterService {
    type V = TableModel;

    closed spec fn view(&self) -> TableModel {
        self.table@
    }
}

impl EmitterService {
    /// Keys are unique and watcher identifiers increase along the table.
    pub open spec fn wf(&self) -> bool {
        table_wf(self@)
    }

    /// A service with nothing registered.
    pub fn new() -> (r: EmitterService)
        ensures
            r.wf(),
            r@.regs.len() == 0,
            r@.next_watcher == 0,
    {
        EmitterService { table: RegistrationTable::new() }
    }

    /// Whether `key` is registered.
    pub fn is_registered(&self, key: &RpcSearchKey) -> (r: bool)
        ensures
            r == is_registered(self@, key@),
    {
        self.table.contains(key)
    }

    /// Whether another watcher can still be spawned.
    pub fn has_capacity(&self) -> (r: bool)
        ensures
            r == (self@.next_watcher < u64::MAX),
    {
        self.table.has_capacity()
    }

    /// First step of registering `key`: nothing to do where it is registered
    /// already, else look up the chain tip.
    pub fn begin_register(&self, key: &RpcSearchKey) -> (r: RegisterStep)
        ensures
            r == (if is_registered(self@, key@) {
                RegisterStep::Done(Ok(false))
            } else {
                RegisterStep::FetchTip
            }),
    {
        if self.table.contains(key) {
            RegisterStep::Done(Ok(false))
        } else {
            RegisterStep::FetchTip
        }
    }

    /// Step of registering `key` from block `start` once the chain tip lookup
    /// returned `tip`: a failed lookup ends it with that error; a key that got
    /// registered meanwhile, or a start at or beyond the tip, ends it with
    /// `false`; else the header at `start` is looked up. Nothing is registered.
    pub fn on_tip(&self, key: &RpcSearchKey, start: u64, tip: Result<u64, ChainError>) -> (r:
        RegisterStep)
        ensures
            r == (match tip {
                Err(e) => RegisterStep::Done(Err(e)),
                Ok(t) => if is_registered(self@, key@) || start >= t {
                    RegisterStep::Done(Ok(false))
                } else {
                    RegisterStep::FetchHeader(start)
                },
            }),
    {
        match tip {
            Err(e) => RegisterStep::Done(Err(e)),
            Ok(t) => {
                if self.table.contains(key) || start >= t {
                    RegisterStep::Done(Ok(false))
                } else {
                    RegisterStep::FetchHeader(start)
                }
            },
        }
    }

    /// Last step of registering `key`, once the header lookup returned
    /// `header`: a failed lookup ends it with that error; else `key` is
    /// registered with a cell seeded by the header, in one step, unless it got
    /// registered meanwhile (then `false`).
    pub fn on_header(&mut self, key: RpcSearchKey, header: Result<TipSnapshot, ChainError>) -> (r:
        RegisterStep)
        requires
            old(self).wf(),
            old(self)@.next_watcher < u64::MAX,
        ensures
            final(self).wf(),
            match header {
                Err(e) => r == RegisterStep::Done(Err(e)) && final(self)@ == old(self)@,
                Ok(h) => {
                    &&& final(self)@ == after_insert(old(self)@, key@, h)
                    &&& r == (if is_registered(old(self)@, key@) {
                        RegisterStep::Done(Ok(false))
                    } else {
                        RegisterStep::Spawn(old(self)@.next_watcher as u64)
                    })
                },
            },
    {
        match header {
            Err(e) => RegisterStep::Done(Err(e)),
            Ok(h) => match self.table.insert_if_absent(key, h) {
                Some(w) => RegisterStep::Spawn(w),
                None => RegisterStep::Done(Ok(false)),
            },
        }
    }

    /// Stops watching `key`; returns the watcher to cancel, or `None` where
    /// `key` was not registered (the result of delete is whether it is `Some`).
    pub fn delete(&mut self, key: &RpcSearchKey) -> (r: Option<u64>)
        requires
            old(self).wf(),
        ensures
            final(self).wf(),
            final(self)@ == after_remove(old(self)@, key@),
            r is Some == is_registered(old(self)@, key@),
            r is Some ==> r->Some_0 == old(self)@.regs[index_of(old(self)@, key@)].watcher,
            !is_registered(final(self)@, key@),
            final(self)@.next_watcher == old(self)@.next_watcher,
            forall|other: KeyModel|
                other != key@ ==> #[trigger] same_registration(old(self)@, final(self)@, other),
    {
        let r = self.table.remove(key);
        proof {
            lemma_remove_keeps_others(old(self)@, key@);
        }
        r
    }

    /// Every registered key with its current tip, in order of registration.
    /// Each registered key appears once.
    pub fn info(&self) -> (r: Vec<(RpcSearchKey, TipSnapshot)>)
        requires
            self.wf(),
        ensures
            r@.len() == self@.regs.len(),
            forall|i: int|
                0 <= i < r@.len() ==> r@[i].0@ == self@.regs[i].key && r@[i].1
                    == self@.regs[i].tip,
            forall|i: int, j: int| 0 <= i < j < r@.len() ==> r@[i].0@ != r@[j].0@,
            forall|k: KeyModel|
                is_registered(self@, k) <==> exists|i: int| 0 <= i < r@.len() && #[trigger] r@[i].0@ == k,
    {
        let r = self.table.snapshot_all();
        assert forall|k: KeyModel|
            is_registered(self@, k) implies exists|i: int| 0 <= i < r@.len() && #[trigger] r@[i].0@ == k by {
            let i = index_of(self@, k);
            assert(r@[i].0@ == k);
        }
        r
    }

    /// The tip published for `key`, where it is registered.
    pub fn tip_of(&self, key: &RpcSearchKey) -> (r: Option<TipSnapshot>)
        requires
            self.wf(),
        ensures
            r == (if is_registered(self@, key@) {
                Some(self@.regs[index_of(self@, key@)].tip)
            } else {
                None
            }),
    {
        self.table.tip_of(key)
    }

    /// Publishes `tip` for `key` on behalf of watcher `watcher`: refused where
    /// that watcher no longer owns `key`'s registration, or `tip` lies below
    /// the published one.
    pub fn publish(&mut self, key: &RpcSearchKey, watcher: u64, tip: TipSnapshot) -> (r: bool)
        requires
            old(self).wf(),
        ensures
            final(self).wf(),
            r == may_publish(old(self)@, key@, watcher, tip),
            final(self)@ == after_publish(old(self)@, key@, watcher, tip),
    {
        self.table.publish(key, watcher, tip)
    }
}

} // verus!

verus! {

/// Registering a key twice, in either order of two concurrent calls: the
/// second finds it registered and changes nothing. So at most one of the two
/// succeeds, and exactly one registration (one watcher) of the key is left.
pub proof fn lemma_duplicate_register(m: TableModel, k: KeyModel, h1: TipSnapshot, h2: TipSnapshot)
    requires
        table_wf(m),
        m.next_watcher < u64::MAX,
    ensures
        ({
            let m1 = after_insert(m, k, h1);
            let m2 = after_insert(m1, k, h2);
            &&& is_registered(m1, k)
            &&& m2 == m1
            &&& !(!is_registered(m, k) && !is_registered(m1, k))
            &&& table_wf(m2)
            &&& forall|i: int, j: int|
                0 <= i < m2.regs.len() && 0 <= j < m2.regs.len() && m2.regs[i].key == k
                    && m2.regs[j].key == k ==> i == j
        }),
{
    let m1 = after_insert(m, k, h1);
    if !is_registered(m, k) {
        let n = m.regs.len() as int;
        assert(m1.regs[n].key == k);
    }
    lemma_insert_wf(m, k, h1);
}

/// Deleting a key twice is deleting it once, and afterwards it is not
/// registered. The watcher it had can publish nothing more, for no key, not
/// even once the key is registered again.
pub proof fn lemma_delete_final(
    m: TableModel,
    k: KeyModel,
    other: KeyModel,
    tip: TipSnapshot,
    h: TipSnapshot,
)
    requires
        table_wf(m),
        is_registered(m, k),
    ensures
        ({
            let w = m.regs[index_of(m, k)].watcher;
            let d = after_remove(m, k);
            &&& after_remove(d, k) == d
            &&& !is_registered(d, k)
            &&& !may_publish(d, other, w, tip)
            &&& after_publish(d, other, w, tip) == d
            &&& !may_publish(after_insert(d, k, h), other, w, tip)
        }),
{
    let i = index_of(m, k);
    let w = m.regs[i].watcher;
    let d = after_remove(m, k);
    lemma_remove_wf(m, k);
    assert(!is_registered(d, k)) by {
        if is_registered(d, k) {
            let j = index_of(d, k);
            if j < i {
                assert(d.regs[j] == m.regs[j]);
            } else {
                assert(d.regs[j] == m.regs[j + 1]);
            }
        }
    }
    assert forall|j: int| 0 <= j < d.regs.len() implies d.regs[j].watcher != w by {
        if j < i {
            assert(d.regs[j] == m.regs[j]);
        } else {
            assert(d.regs[j] == m.regs[j + 1]);
        }
    }
    let e = after_insert(d, k, h);
    assert forall|j: int| 0 <= j < e.regs.len() implies e.regs[j].watcher != w by {
        if j < d.regs.len() {
            assert(e.regs[j] == d.regs[j]);
        }
    }
}

/// A publish leaves every key registered as it was, with the same watcher,
/// and never lowers the block number of any key's tip.
pub proof fn lemma_publish_monotone(
    m: TableModel,
    k: KeyModel,
    w: u64,
    tip: TipSnapshot,
    other: KeyModel,
)
    requires
        table_wf(m),
        is_registered(m, other),
    ensures
        ({
            let p = after_publish(m, k, w, tip);
            &&& table_wf(p)
            &&& is_registered(p, other)
            &&& p.regs[index_of(p, other)].watcher == m.regs[index_of(m, other)].watcher
            &&& p.regs[index_of(p, other)].tip.block_number >= m.regs[index_of(
                m,
                other,
            )].tip.block_number
            &&& (may_publish(m, k, w, tip) ==> p.regs[index_of(p, k)].tip == tip)
        }),
{
    let p = after_publish(m, k, w, tip);
    let o = index_of(m, other);
    assert(p.regs[o].key == other);
    let q = index_of(p, other);
    assert(q == o);
    if may_publish(m, k, w, tip) {
        let i = index_of(m, k);
        assert(p.regs[i].key == k);
        assert(index_of(p, k) == i);
    }
}

/// The table after registrations of `k` with the headers `hs`, one after the
/// other: the order in which concurrent registrations commit.
pub open spec fn register_all(m: TableModel, k: KeyModel, hs: Seq<TipSnapshot>) -> TableModel
    decreases hs.len(),
{
    if hs.len() == 0 {
        m
    } else {
        after_insert(register_all(m, k, hs.drop_last()), k, hs.last())
    }
}

/// How many of those registrations succeed.
pub open spec fn register_successes(m: TableModel, k: KeyModel, hs: Seq<TipSnapshot>) -> nat
    decreases hs.len(),
{
    if hs.len() == 0 {
        0
    } else {
        register_successes(m, k, hs.drop_last()) + if is_registered(
            register_all(m, k, hs.drop_last()),
            k,
        ) {
            0nat
        } else {
            1nat
        }
    }
}

/// Any number of registrations of one key: at most one succeeds (exactly one
/// where the key was not registered before), and afterwards the key has
/// exactly one registration.
pub proof fn lemma_register_many(m: TableModel, k: KeyModel, hs: Seq<TipSnapshot>)
    requires
        table_wf(m),
        m.next_watcher < u64::MAX,
        hs.len() > 0,
    ensures
        register_successes(m, k, hs) == if is_registered(m, k) { 0nat } else { 1nat },
        table_wf(register_all(m, k, hs)),
        is_registered(register_all(m, k, hs), k),
        forall|i: int, j: int|
            0 <= i < register_all(m, k, hs).regs.len() && 0 <= j < register_all(m, k, hs).regs.len()
                && register_all(m, k, hs).regs[i].key == k && register_all(m, k, hs).regs[j].key
                == k ==> i == j,
    decreases hs.len(),
{
    let p = hs.drop_last();
    if p.len() == 0 {
        assert(register_all(m, k, p) == m);
        assert(register_successes(m, k, p) == 0);
        lemma_duplicate_register(m, k, hs.last(), hs.last());
    } else {
        lemma_register_many(m, k, p);
        let q = register_all(m, k, p);
        assert(register_all(m, k, hs) == q);
        assert(register_successes(m, k, hs) == register_successes(m, k, p));
    }
}

/// An operation on the table, as any caller may interleave them.
pub enum TableOp {
    Insert(KeyModel, TipSnapshot),
    Remove(KeyModel),
    Publish(KeyModel, u64, TipSnapshot),
}

pub open spec fn apply_op(m: TableModel, op: TableOp) -> TableModel {
    match op {
        TableOp::Insert(k, h) => after_insert(m, k, h),
        TableOp::Remove(k) => after_remove(m, k),
        TableOp::Publish(k, w, t) => after_publish(m, k, w, t),
    }
}

pub open spec fn apply_ops(m: TableModel, ops: Seq<TableOp>) -> TableModel
    decreases ops.len(),
{
    if ops.len() == 0 {
        m
    } else {
        apply_op(apply_ops(m, ops.drop_last()), ops.last())
    }
}

/// While `k` is not deleted, whatever else happens keeps it registered with
/// the same watcher, and its tip never goes down: two `info` calls show it
/// with non-decreasing block numbers.
pub proof fn lemma_tip_monotone_over_ops(m: TableModel, ops: Seq<TableOp>, k: KeyModel)
    requires
        table_wf(m),
        m.next_watcher + ops.len() <= u64::MAX,
        is_registered(m, k),
        forall|i: int| 0 <= i < ops.len() ==> ops[i] != TableOp::Remove(k),
    ensures
        ({
            let e = apply_ops(m, ops);
            &&& table_wf(e)
            &&& e.next_watcher <= m.next_watcher + ops.len()
            &&& is_registered(e, k)
            &&& e.regs[index_of(e, k)].watcher == m.regs[index_of(m, k)].watcher
            &&& e.regs[index_of(e, k)].tip.block_number >= m.regs[index_of(
                m,
                k,
            )].tip.block_number
        }),
    decreases ops.len(),
{
    if ops.len() > 0 {
        let p = ops.drop_last();
        assert forall|i: int| 0 <= i < p.len() implies p[i] != TableOp::Remove(k) by {
            assert(p[i] == ops[i]);
        }
        lemma_tip_monotone_over_ops(m, p, k);
        let q = apply_ops(m, p);
        match ops.last() {
            TableOp::Insert(k2, h) => {
                lemma_insert_wf(q, k2, h);
                if k2 != k {
                    lemma_insert_keeps_others(q, k2, h);
                    assert(same_registration(q, after_insert(q, k2, h), k));
                }
            },
            TableOp::Remove(k2) => {
                lemma_remove_keeps_others(q, k2);
                assert(same_registration(q, after_remove(q, k2), k));
            },
            TableOp::Publish(k2, w, t) => {
                lemma_publish_monotone(q, k2, w, t, k);
            },
        }
    }
}

/// `k` is registered in `a` exactly when in `b`, with the same tip and watcher.
pub open spec fn same_registration(a: TableModel, b: TableModel, k: KeyModel) -> bool {
    &&& is_registered(a, k) == is_registered(b, k)
    &&& is_registered(a, k) ==> a.regs[index_of(a, k)] == b.regs[index_of(b, k)]
}

/// Removing a key takes it out and leaves every other registration as it was.
pub proof fn lemma_remove_keeps_others(m: TableModel, k: KeyModel)
    requires
        table_wf(m),
    ensures
        !is_registered(after_remove(m, k), k),
        forall|other: KeyModel| other != k ==> #[trigger] same_registration(m, after_remove(m, k), other),
{
    lemma_remove_wf(m, k);
    let d = after_remove(m, k);
    if is_registered(m, k) {
        let i = index_of(m, k);
        assert forall|a: int| 0 <= a < d.regs.len() implies d.regs[a] == m.regs[if a < i {
            a
        } else {
            a + 1
        }] by {}
        assert(!is_registered(d, k)) by {
            if is_registered(d, k) {
                let j = index_of(d, k);
                assert(d.regs[j] == m.regs[if j < i { j } else { j + 1 }]);
            }
        }
        assert forall|other: KeyModel| other != k implies #[trigger] same_registration(m, d, other) by {
            if is_registered(m, other) {
                let o = index_of(m, other);
                assert(o != i);
                let p = if o < i { o } else { o - 1 };
                assert(d.regs[p] == m.regs[o]);
                assert(d.regs[p].key == other);
                assert(index_of(d, other) == p);
            }
            if is_registered(d, other) {
                let q = index_of(d, other);
                assert(d.regs[q] == m.regs[if q < i { q } else { q + 1 }]);
            }
        }
    }
}

/// Registering another key leaves every registration of `k` as it was.
pub proof fn lemma_insert_keeps_others(m: TableModel, k: KeyModel, h: TipSnapshot)
    requires
        table_wf(m),
        m.next_watcher < u64::MAX,
    ensures
        forall|other: KeyModel| other != k ==> #[trigger] same_registration(m, after_insert(m, k, h), other),
{
    lemma_insert_wf(m, k, h);
    let e = after_insert(m, k, h);
    assert forall|other: KeyModel| other != k implies #[trigger] same_registration(m, e, other) by {
        if is_registered(m, other) {
            let o = index_of(m, other);
            assert(e.regs[o] == m.regs[o]);
            assert(index_of(e, other) == o);
        }
        if is_registered(e, other) {
            let q = index_of(e, other);
            if !is_registered(m, k) && q == m.regs.len() {
                assert(e.regs[q].key == k);
            } else {
                assert(e.regs[q] == m.regs[q]);
            }
        }
    }
}

/// A registration keeps the table well formed.
pub proof fn lemma_insert_wf(m: TableModel, k: KeyModel, h: TipSnapshot)
    requires
        table_wf(m),
        m.next_watcher < u64::MAX,
    ensures
        table_wf(after_insert(m, k, h)),
{
}

/// A removal keeps the table well formed.
pub proof fn lemma_remove_wf(m: TableModel, k: KeyModel)
    requires
        table_wf(m),
    ensures
        table_wf(after_remove(m, k)),
{
    if is_registered(m, k) {
        let i = index_of(m, k);
        let d = after_remove(m, k);
        assert forall|a: int| 0 <= a < d.regs.len() implies d.regs[a] == m.regs[if a < i {
            a
        } else {
            a + 1
        }] by {}
    }
}

} // verus!
