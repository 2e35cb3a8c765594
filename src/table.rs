//! The table of registrations: for each registered key, its tip cell and the
//! watcher bound to it.

use vstd::prelude::*;

use crate::key::{KeyModel, RpcSearchKey};
use crate::tip::{TipCell, TipSnapshot};

verus! {

/// One registration as plain values.
pub struct RegModel {
    pub key: KeyModel,
    pub tip: TipSnapshot,
    pub watcher: u64,
}

/// The table as plain values: registrations in order of creation, and the
/// identifier the next watcher will get.
pub struct TableModel {
    pub regs: Seq<RegModel>,
    pub next_watcher: nat,
}

/// Whether `k` is registered.
pub open spec fn is_registered(m: TableModel, k: KeyModel) -> bool {
    exists|i: int| 0 <= i < m.regs.len() && m.regs[i].key == k
}

/// Where `k` stands in the table, when it is registered.
pub open spec fn index_of(m: TableModel, k: KeyModel) -> int {
    choose|i: int| 0 <= i < m.regs.len() && m.regs[i].key == k
}

/// Keys are unique, and watcher identifiers were handed out before, in order
/// of registration.
pub open spec fn table_wf(m: TableModel) -> bool {
    &&& forall|i: int, j: int|
        0 <= i < m.regs.len() && 0 <= j < m.regs.len() && m.regs[i].key == m.regs[j].key ==> i
            == j
    &&& forall|i: int| 0 <= i < m.regs.len() ==> m.regs[i].watcher < m.next_watcher
    &&& forall|i: int, j: int| 0 <= i < j < m.regs.len() ==> m.regs[i].watcher < m.regs[j].watcher
    &&& m.next_watcher <= u64::MAX
}

/// The table after registering `k` with a cell seeded by `tip`: unchanged if
/// `k` is there already, else one more registration with a fresh watcher.
pub open spec fn after_insert(m: TableModel, k: KeyModel, tip: TipSnapshot) -> TableModel {
    if is_registered(m, k) {
        m
    } else {
        TableModel {
            regs: m.regs.push(RegModel { key: k, tip, watcher: m.next_watcher as u64 }),
            next_watcher: m.next_watcher + 1,
        }
    }
}

/// The table after removing `k`: unchanged if it is not there.
pub open spec fn after_remove(m: TableModel, k: KeyModel) -> TableModel {
    if is_registered(m, k) {
        TableModel { regs: m.regs.remove(index_of(m, k)), next_watcher: m.next_watcher }
    } else {
        m
    }
}

/// Whether watcher `w` may publish `tip` for `k`: `k` is registered with
/// watcher `w`, and `tip` does not lie below the one its cell holds.
pub open spec fn may_publish(m: TableModel, k: KeyModel, w: u64, tip: TipSnapshot) -> bool {
    is_registered(m, k) && m.regs[index_of(m, k)].watcher == w && tip.block_number >= m.regs[index_of(
        m,
        k,
    )].tip.block_number
}

/// The table after watcher `w` publishes `tip` for `k`.
pub open spec fn after_publish(m: TableModel, k: KeyModel, w: u64, tip: TipSnapshot) -> TableModel {
    if may_publish(m, k, w, tip) {
        let i = index_of(m, k);
        TableModel {
            regs: m.regs.update(i, RegModel { key: k, tip, watcher: w }),
            next_watcher: m.next_watcher,
        }
    } else {
        m
    }
}

/// A registration: the key, the cell that publishes its tip, and the
/// identifier of the watcher that alone writes that cell.
#[derive(Debug)]
pub struct Registration {
    key: RpcSearchKey,
    cell: TipCell,
    watcher: u64,
}

impl View for Registration {
    type V = RegModel;

    closed spec fn view(&self) -> RegModel {
        RegModel { key: self.key@, tip: self.cell.tip(), watcher: self.watcher }
    }
}

/// The authority on which keys are registered. A registration and its
/// watcher are made and dropped together.
#[derive(Debug)]
pub struct RegistrationTable {
    entries: Vec<Registration>,
    next_watcher: u64,
}

impl View for RegistrationTable {
    type V = TableModel;

    closed spec fn view(&self) -> TableModel {
        TableModel {
            regs: self.entries@.map_values(|r: Registration| r@),
            next_watcher: self.next_watcher as nat,
        }
    }
}

impl RegistrationTable {
    pub open spec fn wf(&self) -> bool {
        table_wf(self@)
    }

    /// The empty table.
    pub fn new() -> (r: RegistrationTable)
        ensures
            r@.regs.len() == 0,
            r@.next_watcher == 0,
            r.wf(),
    {
        RegistrationTable { entries: Vec::new(), next_watcher: 0 }
    }

    fn find(&self, key: &RpcSearchKey) -> (r: Option<usize>)
        ensures
            match r {
                Some(i) => i < self@.regs.len() && self@.regs[i as int].key == key@,
                None => !is_registered(self@, key@),
            },
    {
        let mut i: usize = 0;
        while i < self.entries.len()
            invariant
                i <= self.entries@.len(),
                forall|j: int| 0 <= j < i ==> self@.regs[j].key != key@,
            decreases self.entries@.len() - i,
        {
            if self.entries[i].key.same(key) {
                return Some(i);
            }
            i = i + 1;
        }
        None
    }

    /// Whether `key` is registered.
    pub fn contains(&self, key: &RpcSearchKey) -> (r: bool)
        ensures
            r == is_registered(self@, key@),
    {
        self.find(key).is_some()
    }

    /// Whether another watcher identifier can still be handed out.
    pub fn has_capacity(&self) -> (r: bool)
        ensures
            r == (self@.next_watcher < u64::MAX),
    {
        self.next_watcher < u64::MAX
    }

    /// The tip published for `key`, where it is registered.
    pub fn tip_of(&self, key: &RpcSearchKey) -> (r: Option<TipSnapshot>)
        requires
            self.wf(),
        ensures
            r == (if is_registered(self@, key@) {
                Some(self@.regs[index_of(self@, key@)].tip)
            } else {
                None
            }),
    {
        match self.find(key) {
            Some(i) => {
                proof {
                    let j = index_of(self@, key@);
                    assert(j == i);
                }
                Some(self.entries[i].cell.read())
            },
            None => None,
        }
    }

    /// Registers `key` with a cell seeded by `initial` if it is absent, in one
    /// step; returns the new watcher's identifier, or `None` where `key` was
    /// registered already.
    pub fn insert_if_absent(&mut self, key: RpcSearchKey, initial: TipSnapshot) -> (r: Option<u64>)
        requires
            old(self).wf(),
            old(self)@.next_watcher < u64::MAX,
        ensures
            final(self).wf(),
            final(self)@ == after_insert(old(self)@, key@, initial),
            r == (if is_registered(old(self)@, key@) {
                None
            } else {
                Some(old(self)@.next_watcher as u64)
            }),
    {
        if self.find(&key).is_some() {
            return None;
        }
        let w = self.next_watcher;
        let ghost old_regs = self@.regs;
        let ghost k = key@;
        self.entries.push(Registration { key, cell: TipCell::create(initial), watcher: w });
        self.next_watcher = w + 1;
        assert(self@.regs =~= old_regs.push(RegModel { key: k, tip: initial, watcher: w }));
        Some(w)
    }

    /// Removes `key`; returns the identifier of the watcher to cancel, or
    /// `None` where `key` was not registered.
    pub fn remove(&mut self, key: &RpcSearchKey) -> (r: Option<u64>)
        requires
            old(self).wf(),
        ensures
            final(self).wf(),
            final(self)@ == after_remove(old(self)@, key@),
            r == (if is_registered(old(self)@, key@) {
                Some(old(self)@.regs[index_of(old(self)@, key@)].watcher)
            } else {
                None
            }),
    {
        match self.find(key) {
            Some(i) => {
                let ghost j = index_of(self@, key@);
                assert(j == i);
                let ghost old_regs = self@.regs;
                let reg = self.entries.remove(i);
                assert(self@.regs =~= old_regs.remove(i as int));
                Some(reg.watcher)
            },
            None => None,
        }
    }

    /// Publishes `tip` for `key` on behalf of watcher `watcher`; refused where
    /// `key` is not registered with that watcher, or `tip` lies below the
    /// published one.
    pub fn publish(&mut self, key: &RpcSearchKey, watcher: u64, tip: TipSnapshot) -> (r: bool)
        requires
            old(self).wf(),
        ensures
            final(self).wf(),
            r == may_publish(old(self)@, key@, watcher, tip),
            final(self)@ == after_publish(old(self)@, key@, watcher, tip),
    {
        match self.find(key) {
            Some(i) => {
                let ghost j = index_of(self@, key@);
                assert(j == i);
                if self.entries[i].watcher != watcher {
                    return false;
                }
                let ghost old_regs = self@.regs;
                let mut reg = self.entries.remove(i);
                let ok = reg.cell.publish(tip);
                self.entries.insert(i, reg);
                assert(self@.regs =~= (if ok {
                    old_regs.update(i as int, RegModel { key: key@, tip, watcher })
                } else {
                    old_regs
                }));
                ok
            },
            None => false,
        }
    }

    /// Every registered key with its current tip, in order of registration.
    pub fn snapshot_all(&self) -> (r: Vec<(RpcSearchKey, TipSnapshot)>)
        ensures
            r@.len() == self@.regs.len(),
            forall|i: int|
                0 <= i < r@.len() ==> r@[i].0@ == self@.regs[i].key && r@[i].1
                    == self@.regs[i].tip,
    {
        let mut out: Vec<(RpcSearchKey, TipSnapshot)> = Vec::new();
        let mut i: usize = 0;
        while i < self.entries.len()
            invariant
                i <= self.entries@.len(),
                out@.len() == i,
                forall|j: int|
                    0 <= j < i ==> out@[j].0@ == self@.regs[j].key && out@[j].1
                        == self@.regs[j].tip,
            decreases self.entries@.len() - i,
        {
            let reg = &self.entries[i];
            out.push((reg.key.duplicate(), reg.cell.read()));
            i = i + 1;
        }
        out
    }
}

} // verus!
