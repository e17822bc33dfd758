//! Snapshots of the committed state and the persistent arena that holds them.
use vstd::prelude::*;
use crate::fault::Fatal;
use crate::noun::{Noun, NounV};

verus! {

/// The metadata slot that holds the snapshot version.
pub const SNAPSHOT_VERSION_SLOT: usize = 0;

/// The metadata slot that holds the handle of the snapshot record.
pub const SNAPSHOT_SLOT: usize = 1;

/// The snapshot version this serf writes and reads.
pub const CURRENT_SNAPSHOT_VERSION: u64 = 1;

/// The committed state: generation, number of committed events, kernel and
/// cold jet table.
#[derive(Debug, PartialEq, Eq)]
pub struct Snapshot {
    pub epoch: u64,
    pub event_num: u64,
    pub arvo: Noun,
    pub cold: Noun,
}

pub struct SnapshotV {
    pub epoch: u64,
    pub event_num: u64,
    pub arvo: NounV,
    pub cold: NounV,
}

impl View for Snapshot {
    type V = SnapshotV;

    open spec fn view(&self) -> SnapshotV {
        SnapshotV { epoch: self.epoch, event_num: self.event_num, arvo: self.arvo@, cold: self.cold@ }
    }
}

impl Snapshot {
    /// A copy of the record and of every noun it holds.
    pub fn copy(&self) -> (r: Snapshot)
        ensures
            r@ == self@,
    {
        Snapshot {
            epoch: self.epoch,
            event_num: self.event_num,
            arvo: self.arvo.copy(),
            cold: self.cold.copy(),
        }
    }
}

/// A persistent arena: two metadata slots and the records written to it,
/// with the part of both that has been forced to durable storage.
#[derive(Debug)]
pub struct Pma {
    version: u64,
    handle: u64,
    records: Vec<Snapshot>,
    durable_version: u64,
    durable_handle: u64,
    durable_len: usize,
}

pub struct PmaV {
    pub version: u64,
    pub handle: u64,
    pub records: Seq<SnapshotV>,
    pub durable_version: u64,
    pub durable_handle: u64,
    pub durable_len: nat,
}

impl View for Pma {
    type V = PmaV;

    closed spec fn view(&self) -> PmaV {
        PmaV {
            version: self.version,
            handle: self.handle,
            records: self.records@.map_values(|s: Snapshot| s@),
            durable_version: self.durable_version,
            durable_handle: self.durable_handle,
            durable_len: self.durable_len as nat,
        }
    }
}

impl PmaV {
    /// What a load finds: nothing on a fresh arena, the record that the
    /// snapshot slot names on a current one, a fatal condition otherwise.
    pub open spec fn loaded(self) -> Result<Option<SnapshotV>, Fatal> {
        if self.version == 0 {
            Ok(None)
        } else if self.version != CURRENT_SNAPSHOT_VERSION {
            Err(Fatal::UnsupportedVersion)
        } else if self.handle < self.records.len() {
            Ok(Some(self.records[self.handle as int]))
        } else {
            Err(Fatal::CorruptSnapshot)
        }
    }

    /// The durable part alone, as a crash leaves it.
    pub open spec fn after_crash(self) -> PmaV {
        PmaV {
            version: self.durable_version,
            handle: self.durable_handle,
            records: self.records.subrange(0, self.durable_len as int),
            durable_version: self.durable_version,
            durable_handle: self.durable_handle,
            durable_len: self.durable_len,
        }
    }

    pub open spec fn wf(self) -> bool {
        self.durable_len <= self.records.len()
    }

    /// The arena after a snapshot record is written and both metadata slots
    /// are rewritten to name it.
    pub open spec fn saved(self, s: SnapshotV) -> PmaV {
        PmaV {
            version: CURRENT_SNAPSHOT_VERSION,
            handle: self.records.len() as u64,
            records: self.records.push(s),
            ..self
        }
    }

    /// The arena after it is forced to durable storage.
    pub open spec fn synced(self) -> PmaV {
        PmaV {
            durable_version: self.version,
            durable_handle: self.handle,
            durable_len: self.records.len(),
            ..self
        }
    }
}

impl Pma {
    /// A fresh, empty arena.
    pub fn new() -> (r: Pma)
        ensures
            r@.version == 0,
            r@.handle == 0,
            r@.records.len() == 0,
            r@.durable_version == 0,
            r@.durable_handle == 0,
            r@.durable_len == 0,
            r@.wf(),
    {
        let r = Pma {
            version: 0,
            handle: 0,
            records: Vec::new(),
            durable_version: 0,
            durable_handle: 0,
            durable_len: 0,
        };
        proof {
            assert(r@.records =~= Seq::<SnapshotV>::empty());
        }
        r
    }

    /// The value of a metadata slot.
    pub fn meta_get(&self, field: usize) -> (r: u64)
        requires
            field == SNAPSHOT_VERSION_SLOT || field == SNAPSHOT_SLOT,
        ensures
            field == SNAPSHOT_VERSION_SLOT ==> r == self@.version,
            field == SNAPSHOT_SLOT ==> r == self@.handle,
    {
        if field == SNAPSHOT_VERSION_SLOT {
            self.version
        } else {
            self.handle
        }
    }

    /// Rewrites a metadata slot; durable storage is untouched.
    pub fn meta_set(&mut self, field: usize, value: u64)
        requires
            field == SNAPSHOT_VERSION_SLOT || field == SNAPSHOT_SLOT,
        ensures
            field == SNAPSHOT_VERSION_SLOT ==> final(self)@ == (PmaV { version: value, ..old(self)@ }),
            field == SNAPSHOT_SLOT ==> final(self)@ == (PmaV { handle: value, ..old(self)@ }),
    {
        if field == SNAPSHOT_VERSION_SLOT {
            self.version = value;
        } else {
            self.handle = value;
        }
    }

    /// Copies a record, with every noun it holds, into the arena and returns
    /// its handle; the metadata slots are untouched.
    pub fn save_record(&mut self, s: &Snapshot) -> (h: u64)
        requires
            old(self)@.records.len() < u64::MAX,
        ensures
            h as nat == old(self)@.records.len(),
            final(self)@ == (PmaV { records: old(self)@.records.push(s@), ..old(self)@ }),
    {
        let h = self.records.len() as u64;
        let c = s.copy();
        self.records.push(c);
        proof {
            assert(self@.records =~= old(self)@.records.push(s@));
        }
        h
    }

    /// Whether the durable part lies within the records written.
    pub fn is_wf(&self) -> (r: bool)
        ensures
            r == self@.wf(),
    {
        self.durable_len <= self.records.len()
    }

    /// The number of records in the arena.
    pub fn len(&self) -> (r: usize)
        ensures
            r as nat == self@.records.len(),
    {
        self.records.len()
    }

    /// Forces the arena to durable storage.
    pub fn sync(&mut self)
        ensures
            final(self)@ == old(self)@.synced(),
            final(self)@.wf(),
    {
        self.durable_version = self.version;
        self.durable_handle = self.handle;
        self.durable_len = self.records.len();
    }

    /// The arena as a crash would leave it: what was last forced to durable
    /// storage.
    pub fn after_crash(&self) -> (r: Pma)
        requires
            self@.wf(),
        ensures
            r@ == self@.after_crash(),
            r@.wf(),
    {
        let mut records: Vec<Snapshot> = Vec::new();
        let mut i: usize = 0;
        while i < self.durable_len
            invariant
                self@.wf(),
                i <= self@.durable_len,
                records@.map_values(|s: Snapshot| s@) =~= self@.records.subrange(0, i as int),
            decreases self@.durable_len - i,
        {
            let ghost prev = records@;
            let c = self.records[i].copy();
            records.push(c);
            proof {
                assert(records@ == prev.push(c));
                assert(self@.records[i as int] == self.records@[i as int]@);
                assert(records@.map_values(|s: Snapshot| s@) =~= prev.map_values(|s: Snapshot| s@).push(c@));
            }
            i = i + 1;
            proof {
                assert(records@.map_values(|s: Snapshot| s@) =~= self@.records.subrange(0, i as int));
            }
        }
        Pma {
            version: self.durable_version,
            handle: self.durable_handle,
            records,
            durable_version: self.durable_version,
            durable_handle: self.durable_handle,
            durable_len: self.durable_len,
        }
    }

    /// What a load finds in the arena, copied out.
    pub fn load_snapshot(&self) -> (r: Result<Option<Snapshot>, Fatal>)
        ensures
            match (r, self@.loaded()) {
                (Ok(None), Ok(None)) => true,
                (Ok(Some(s)), Ok(Some(v))) => s@ == v,
                (Err(e), Err(f)) => e == f,
                _ => false,
            },
    {
        let version = self.meta_get(SNAPSHOT_VERSION_SLOT);
        if version == 0 {
            Ok(None)
        } else if version != CURRENT_SNAPSHOT_VERSION {
            Err(Fatal::UnsupportedVersion)
        } else {
            let handle = self.meta_get(SNAPSHOT_SLOT);
            if handle < self.records.len() as u64 {
                Ok(Some(self.records[handle as usize].copy()))
            } else {
                Err(Fatal::CorruptSnapshot)
            }
        }
    }
}

} // verus!
