//! The observable collection: an ordered in-memory store of mod
//! records. Each structural mutation returns the change notification
//! the presentation layer must emit; a flag-only mutation returns
//! none, because it is a per-item property change, not a structural
//! one.

use vstd::prelude::*;

use crate::mod_data::{ModData, ModDataView};
use crate::scanner::spec_views;

verus! {

/// One structural-change notification: at `position`, `removed` items
/// were taken out and `added` items were put in.
#[derive(Clone, Copy, PartialEq, Eq, Structural, Debug)]
pub struct StructuralChange {
    pub position: usize,
    pub removed: usize,
    pub added: usize,
}

/// The ordered collection of mod records; it holds exactly one
/// snapshot at a time.
pub struct Model {
    pub records: Vec<ModData>,
}

impl Model {
    /// The empty collection.
    pub fn new() -> (r: Model)
        ensures
            r.records@ == Seq::<ModData>::empty(),
            spec_views(r.records@) == Seq::<ModDataView>::empty(),
    {
        let r = Model { records: Vec::new() };
        assert(spec_views(r.records@) =~= Seq::<ModDataView>::empty());
        r
    }

    /// How many records the collection holds.
    pub fn n_items(&self) -> (r: usize)
        ensures
            r == self.records@.len(),
    {
        self.records.len()
    }

    /// The record at `position`, if the collection has one there.
    pub fn item(&self, position: usize) -> (r: Option<&ModData>)
        ensures
            match r {
                Some(m) => position < self.records@.len() && m@ == self.records@[
                    position as int]@,
                None => position >= self.records@.len(),
            },
    {
        if position < self.records.len() {
            Some(&self.records[position])
        } else {
            None
        }
    }

    /// Appends one record at the end and reports a one-item insertion
    /// there.
    pub fn append(&mut self, record: ModData) -> (r: StructuralChange)
        requires
            old(self).records@.len() < usize::MAX,
        ensures
            final(self).records@ == old(self).records@.push(record),
            r == (StructuralChange {
                position: old(self).records@.len() as usize,
                removed: 0usize,
                added: 1usize,
            }),
    {
        let position = self.records.len();
        self.records.push(record);
        StructuralChange { position, removed: 0, added: 1 }
    }

    /// Atomically replaces the whole snapshot and reports a full-range
    /// replacement: everything old removed at position zero,
    /// everything new inserted there.
    pub fn replace(&mut self, other: Vec<ModData>) -> (r: StructuralChange)
        ensures
            final(self).records@ == other@,
            r == (StructuralChange {
                position: 0usize,
                removed: old(self).records@.len() as usize,
                added: other@.len() as usize,
            }),
    {
        let removed = self.records.len();
        let added = other.len();
        self.records = other;
        StructuralChange { position: 0, removed, added }
    }

    /// Sets every record's enabled flag in place. Neither the length
    /// nor any record's position or other field changes, and no
    /// structural notification is owed: the return type says so.
    pub fn toggle_all(&mut self, enable: bool)
        ensures
            final(self).records@.len() == old(self).records@.len(),
            forall|i: int|
                0 <= i < old(self).records@.len() ==> #[trigger] final(self).records@[i]@
                    == (ModDataView { is_enabled: enable, ..old(self).records@[i]@ }),
    {
        let n: usize = self.records.len();
        let mut out: Vec<ModData> = Vec::new();
        let mut i: usize = 0;
        while i < n
            invariant
                n == self.records@.len(),
                i <= n,
                out@.len() == i,
                forall|j: int|
                    0 <= j < i ==> #[trigger] out@[j]@ == (ModDataView {
                        is_enabled: enable,
                        ..self.records@[j]@
                    }),
            decreases n - i,
        {
            let mut m = self.records[i].duplicate();
            m.is_enabled = enable;
            out.push(m);
            i = i + 1;
        }
        self.records = out;
    }

    /// Removes the record at `position` and reports a one-item removal
    /// there; out-of-bounds positions change nothing and report no
    /// notification.
    pub fn remove(&mut self, position: usize) -> (r: Option<StructuralChange>)
        ensures
            match r {
                Some(c) => position < old(self).records@.len() && final(self).records@ == old(
                    self,
                ).records@.remove(position as int) && c == (StructuralChange {
                    position: position,
                    removed: 1usize,
                    added: 0usize,
                }),
                None => position >= old(self).records@.len() && final(self).records@ == old(
                    self,
                ).records@,
            },
    {
        if position < self.records.len() {
            self.records.remove(position);
            Some(StructuralChange { position, removed: 1, added: 0 })
        } else {
            None
        }
    }
}

impl Default for Model {
    /// The empty collection.
    fn default() -> (r: Model)
        ensures
            r.records@.len() == 0,
    {
        Model::new()
    }
}

} // verus!
