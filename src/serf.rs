//! The serf's context and its event dispatcher.
//!
//! The dispatcher is a state machine. `handle_request` takes a request from
//! the king and either answers it at once or asks for one interpretation;
//! `resume` takes the interpreter's outcome and either answers or asks for
//! the next interpretation. Replies collect in the context's outbox.
use vstd::prelude::*;
use crate::fault::{Fatal, Fault};
use crate::noun::{c, d, inc_bytes, mug, mug_of, Noun, NounV};
use crate::snapshot::{Pma, PmaV, Snapshot, SnapshotV, CURRENT_SNAPSHOT_VERSION};

verus! {

/// The axis of the kernel's load gate (reserved).
pub const LOAD_AXIS: u8 = 4;

/// The axis of the kernel's scry gate.
pub const PEEK_AXIS: u8 = 22;

/// The axis of the kernel's poke gate.
pub const POKE_AXIS: u8 = 23;

/// The axis of the kernel's wish gate (reserved).
pub const WISH_AXIS: u8 = 10;

/// A four-letter tag as the bytes of its atom.
pub open spec fn tas(a: u8, b: u8, c: u8, e: u8) -> Seq<u8> {
    seq![a, b, c, e]
}

pub(crate) fn tas_vec(a: u8, b: u8, c: u8, e: u8) -> (r: Vec<u8>)
    ensures
        r@ == tas(a, b, c, e),
{
    let mut v: Vec<u8> = Vec::new();
    v.push(a);
    v.push(b);
    v.push(c);
    v.push(e);
    proof {
        assert(v@ =~= tas(a, b, c, e));
    }
    v
}

/// `%live`
pub open spec fn tag_live() -> Seq<u8> { tas(0x6c, 0x69, 0x76, 0x65) }
/// `%peek`
pub open spec fn tag_peek() -> Seq<u8> { tas(0x70, 0x65, 0x65, 0x6b) }
/// `%play`
pub open spec fn tag_play() -> Seq<u8> { tas(0x70, 0x6c, 0x61, 0x79) }
/// `%work`
pub open spec fn tag_work() -> Seq<u8> { tas(0x77, 0x6f, 0x72, 0x6b) }
/// `%save`
pub open spec fn tag_save() -> Seq<u8> { tas(0x73, 0x61, 0x76, 0x65) }
/// `%exit`
pub open spec fn tag_exit() -> Seq<u8> { tas(0x65, 0x78, 0x69, 0x74) }
/// `%crud`
pub open spec fn tag_crud() -> Seq<u8> { tas(0x63, 0x72, 0x75, 0x64) }
/// `%arvo`
pub open spec fn tag_arvo() -> Seq<u8> { tas(0x61, 0x72, 0x76, 0x6f) }

/// The slam formula `[8 [9 axis 0 2] 9 2 10 [6 0 7] 0 2]`. Against the
/// subject `[arvo ovo]` it takes the kernel's gate at `axis`, sets its
/// sample to `ovo` and calls it.
pub open spec fn slam_formula(axis: u8) -> NounV {
    c(d(8), c(c(d(9), c(d(axis), c(d(0), d(2)))),
      c(d(9), c(d(2), c(d(10), c(c(d(6), c(d(0), d(7))), c(d(0), d(2))))))))
}

/// `[2 [0 3] 0 2]`: the lifecycle formula, which runs the first event of
/// the list on the whole list.
pub open spec fn boot_formula() -> NounV {
    c(d(2), c(c(d(0), d(3)), c(d(0), d(2))))
}

/// `[%exit tang]`: an interpreter failure as the kernel sees it.
pub open spec fn goof_of(tang: NounV) -> NounV {
    c(NounV::Atom(tag_exit()), tang)
}

/// The crud event that stands in for a failed job `[now rest]`:
/// `[now+1 [0 %arvo 0] %crud goof rest]`.
pub open spec fn crud_of(job: NounV, goof: NounV) -> Option<NounV> {
    match job {
        NounV::Cell(now, rest) => match *now {
            NounV::Atom(b) => Some(c(NounV::Atom(inc_bytes(b)),
                c(c(d(0), c(NounV::Atom(tag_arvo()), d(0))),
                c(NounV::Atom(tag_crud()), c(goof, *rest))))),
            _ => None,
        },
        _ => None,
    }
}

/// A reply to the king.
#[derive(Debug, PartialEq, Eq)]
pub enum Reply {
    Ripe { eve: u64, mug: u32 },
    Live,
    PeekDone { dat: Noun },
    PlayDone { mug: u32 },
    PlayBail { eve: u64, mug: u32, dud: Noun },
    WorkDone { eve: u64, mug: u32, fec: Noun },
    WorkSwap { eve: u64, mug: u32, job: Noun, fec: Noun },
    WorkBail { lud: Noun },
}

pub enum ReplyV {
    Ripe { eve: u64, mug: u32 },
    Live,
    PeekDone { dat: NounV },
    PlayDone { mug: u32 },
    PlayBail { eve: u64, mug: u32, dud: NounV },
    WorkDone { eve: u64, mug: u32, fec: NounV },
    WorkSwap { eve: u64, mug: u32, job: NounV, fec: NounV },
    WorkBail { lud: NounV },
}

impl View for Reply {
    type V = ReplyV;

    open spec fn view(&self) -> ReplyV {
        match self {
            Reply::Ripe { eve, mug } => ReplyV::Ripe { eve: *eve, mug: *mug },
            Reply::Live => ReplyV::Live,
            Reply::PeekDone { dat } => ReplyV::PeekDone { dat: dat@ },
            Reply::PlayDone { mug } => ReplyV::PlayDone { mug: *mug },
            Reply::PlayBail { eve, mug, dud } => ReplyV::PlayBail { eve: *eve, mug: *mug, dud: dud@ },
            Reply::WorkDone { eve, mug, fec } => ReplyV::WorkDone { eve: *eve, mug: *mug, fec: fec@ },
            Reply::WorkSwap { eve, mug, job, fec } => ReplyV::WorkSwap {
                eve: *eve,
                mug: *mug,
                job: job@,
                fec: fec@,
            },
            Reply::WorkBail { lud } => ReplyV::WorkBail { lud: lud@ },
        }
    }
}

/// What the dispatcher awaits from the interpreter.
pub enum Pending {
    Idle,
    Peek,
    Boot { eve: Noun },
    Play { rest: Noun },
    Work { job: Noun },
    Swap { ovo: Noun, goof: Noun },
}

pub enum PendingV {
    Idle,
    Peek,
    Boot { eve: NounV },
    Play { rest: NounV },
    Work { job: NounV },
    Swap { ovo: NounV, goof: NounV },
}

impl View for Pending {
    type V = PendingV;

    open spec fn view(&self) -> PendingV {
        match self {
            Pending::Idle => PendingV::Idle,
            Pending::Peek => PendingV::Peek,
            Pending::Boot { eve } => PendingV::Boot { eve: eve@ },
            Pending::Play { rest } => PendingV::Play { rest: rest@ },
            Pending::Work { job } => PendingV::Work { job: job@ },
            Pending::Swap { ovo, goof } => PendingV::Swap { ovo: ovo@, goof: goof@ },
        }
    }
}

/// What the dispatcher asks of its host next.
#[derive(Debug, PartialEq, Eq)]
pub enum Action {
    /// Run the interpreter on `subject` with `formula` (clearing the
    /// interrupt flag first where `clear_interrupt` is set, and recording
    /// the run under the name `trace` where tracing is on) and hand the
    /// outcome to `resume`.
    Interpret { subject: Noun, formula: Noun, clear_interrupt: bool, trace: Option<Vec<u8>> },
    /// The request is answered: clear the interrupt flag, send the replies
    /// and take the next request.
    Finish,
}

pub enum ActionV {
    Interpret { subject: NounV, formula: NounV, clear_interrupt: bool, trace: Option<Seq<u8>> },
    Finish,
}

impl View for Action {
    type V = ActionV;

    open spec fn view(&self) -> ActionV {
        match self {
            Action::Interpret { subject, formula, clear_interrupt, trace } => ActionV::Interpret {
                subject: subject@,
                formula: formula@,
                clear_interrupt: *clear_interrupt,
                trace: match trace {
                    Some(t) => Some(t@),
                    None => None,
                },
            },
            Action::Finish => ActionV::Finish,
        }
    }
}

/// The serf's state: the committed fields, the jet tables, the per-event
/// cache and scry stack, the persistent arena, the message port and what the
/// dispatcher awaits.
pub struct Context {
    epoch: u64,
    event_num: u64,
    arvo: Noun,
    mug: u32,
    cold: Noun,
    warm: Noun,
    hot: Noun,
    cache: Noun,
    scry_stack: Noun,
    pma: Pma,
    inbox: Vec<Noun>,
    outbox: Vec<Reply>,
    pending: Pending,
    tracing: bool,
}

pub struct ContextV {
    pub epoch: u64,
    pub event_num: u64,
    pub arvo: NounV,
    pub mug: u32,
    pub cold: NounV,
    pub warm: NounV,
    pub hot: NounV,
    pub cache: NounV,
    pub scry_stack: NounV,
    pub pma: PmaV,
    pub inbox: Seq<NounV>,
    pub sent: Seq<ReplyV>,
    pub pending: PendingV,
    pub tracing: bool,
}

impl View for Context {
    type V = ContextV;

    closed spec fn view(&self) -> ContextV {
        ContextV {
            epoch: self.epoch,
            event_num: self.event_num,
            arvo: self.arvo@,
            mug: self.mug,
            cold: self.cold@,
            warm: self.warm@,
            hot: self.hot@,
            cache: self.cache@,
            scry_stack: self.scry_stack@,
            pma: self.pma@,
            inbox: self.inbox@.map_values(|n: Noun| n@),
            sent: self.outbox@.map_values(|r: Reply| r@),
            pending: self.pending@,
            tracing: self.tracing,
        }
    }
}

impl ContextV {
    /// The snapshot that the context's committed fields make.
    pub open spec fn snapshot(self) -> SnapshotV {
        SnapshotV { epoch: self.epoch, event_num: self.event_num, arvo: self.arvo, cold: self.cold }
    }

    /// The context's invariant: the hash is that of the kernel, the arena
    /// holds the committed state (or is fresh, and the state initial), and a
    /// boot is awaited only before the first event.
    pub open spec fn wf(self) -> bool {
        &&& self.mug == mug_of(self.arvo)
        &&& self.pma.wf()
        &&& match self.pma.loaded() {
            Ok(None) => self.epoch == 0 && self.event_num == 0 && self.arvo == d(0),
            Ok(Some(s)) => s.epoch == self.epoch && s.event_num == self.event_num && s.arvo
                == self.arvo,
            Err(_) => false,
        }
        &&& (self.pending is Boot ==> self.event_num == 0)
    }

    pub open spec fn send(self, r: ReplyV) -> ContextV {
        ContextV { sent: self.sent.push(r), ..self }
    }

    /// Whether one more event can be committed.
    pub open spec fn can_commit(self) -> bool {
        self.pma.records.len() < u64::MAX
    }

    /// The context after the event that makes `a` the kernel is committed
    /// as event number `n`.
    pub open spec fn commit(self, n: u64, a: NounV) -> ContextV {
        ContextV {
            event_num: n,
            arvo: a,
            mug: mug_of(a),
            cache: d(0),
            scry_stack: d(0),
            pma: self.pma.saved(SnapshotV { epoch: self.epoch, event_num: n, arvo: a, cold: self.cold }),
            ..self
        }
    }
}

impl Context {
    /// Opens the context over an arena: a fresh one (epoch 0, no events,
    /// the kernel the atom 0, an empty cold table) or the snapshot the arena
    /// names; `hot` is the process's hot jet table, and `tracing` says
    /// whether interpretations are to be named for a trace sink.
    pub fn load(pma: Pma, hot: Noun, tracing: bool) -> (r: Result<Context, Fatal>)
        requires
            pma@.wf(),
        ensures
            match (r, pma@.loaded()) {
                (Ok(ctx), Ok(None)) => ctx@.epoch == 0 && ctx@.event_num == 0 && ctx@.arvo == d(0)
                    && ctx@.cold == d(0),
                (Ok(ctx), Ok(Some(s))) => ctx@.snapshot() == s,
                (Err(e), Err(f)) => e == f,
                _ => false,
            },
            r matches Ok(ctx) ==> {
                &&& ctx@.wf()
                &&& ctx@.pma == pma@
                &&& ctx@.hot == hot@
                &&& ctx@.warm == d(0)
                &&& ctx@.cache == d(0)
                &&& ctx@.scry_stack == d(0)
                &&& ctx@.inbox.len() == 0
                &&& ctx@.sent.len() == 0
                &&& ctx@.pending is Idle
                &&& ctx@.tracing == tracing
            },
    {
        let (epoch, event_num, arvo, cold) = match pma.load_snapshot() {
            Err(e) => {
                return Err(e);
            },
            Ok(None) => (0, 0, Noun::small(0), Noun::small(0)),
            Ok(Some(s)) => (s.epoch, s.event_num, s.arvo, s.cold),
        };
        let m = mug(&arvo);
        let ctx = Context {
            epoch,
            event_num,
            arvo,
            mug: m,
            cold,
            warm: Noun::small(0),
            hot,
            cache: Noun::small(0),
            scry_stack: Noun::small(0),
            pma,
            inbox: Vec::new(),
            outbox: Vec::new(),
            pending: Pending::Idle,
            tracing,
        };
        proof {
            assert(ctx@.inbox =~= Seq::<NounV>::empty());
            assert(ctx@.sent =~= Seq::<ReplyV>::empty());
        }
        Ok(ctx)
    }

    pub fn tracing(&self) -> (r: bool)
        ensures
            r == self@.tracing,
    {
        self.tracing
    }

    pub fn epoch(&self) -> (r: u64)
        ensures
            r == self@.epoch,
    {
        self.epoch
    }

    pub fn event_num(&self) -> (r: u64)
        ensures
            r == self@.event_num,
    {
        self.event_num
    }

    pub fn mug(&self) -> (r: u32)
        ensures
            r == self@.mug,
    {
        self.mug
    }

    pub fn arvo(&self) -> (r: &Noun)
        ensures
            r@ == self@.arvo,
    {
        &self.arvo
    }

    pub fn cold(&self) -> (r: &Noun)
        ensures
            r@ == self@.cold,
    {
        &self.cold
    }

    pub fn warm(&self) -> (r: &Noun)
        ensures
            r@ == self@.warm,
    {
        &self.warm
    }

    pub fn hot(&self) -> (r: &Noun)
        ensures
            r@ == self@.hot,
    {
        &self.hot
    }

    /// Gives up the context and keeps its arena, as a process exit does.
    pub fn into_pma(self) -> (r: Pma)
        ensures
            r@ == self@.pma,
    {
        self.pma
    }

    pub fn pma(&self) -> (r: &Pma)
        ensures
            r@ == self@.pma,
    {
        &self.pma
    }

    /// Writes the committed fields to the arena as a new snapshot record and
    /// rewrites the metadata slots to name it; durable storage is untouched.
    pub fn save(&mut self)
        requires
            old(self)@.can_commit(),
        ensures
            final(self)@ == (ContextV { pma: old(self)@.pma.saved(old(self)@.snapshot()), ..old(self)@ }),
    {
        let s = Snapshot {
            epoch: self.epoch,
            event_num: self.event_num,
            arvo: self.arvo.copy(),
            cold: self.cold.copy(),
        };
        let h = self.pma.save_record(&s);
        self.pma.meta_set(crate::snapshot::SNAPSHOT_VERSION_SLOT, CURRENT_SNAPSHOT_VERSION);
        self.pma.meta_set(crate::snapshot::SNAPSHOT_SLOT, h);
    }

    /// Commits the event that makes `new_arvo` the kernel as event number
    /// `new_event_num`: saves the snapshot, clears the cache and the scry
    /// stack and recomputes the hash.
    pub fn event_update(&mut self, new_event_num: u64, new_arvo: Noun)
        requires
            old(self)@.can_commit(),
        ensures
            final(self)@ == old(self)@.commit(new_event_num, new_arvo@),
    {
        self.arvo = new_arvo;
        self.event_num = new_event_num;
        self.save();
        self.cache = Noun::small(0);
        self.scry_stack = Noun::small(0);
        self.mug = mug(&self.arvo);
    }

    /// Forces the arena to durable storage.
    pub fn sync(&mut self)
        ensures
            final(self)@ == (ContextV { pma: old(self)@.pma.synced(), ..old(self)@ }),
    {
        self.pma.sync();
    }

    /// Hands a request from the king to the message port.
    pub fn deliver(&mut self, writ: Noun)
        ensures
            final(self)@ == (ContextV { inbox: old(self)@.inbox.push(writ@), ..old(self)@ }),
    {
        let ghost w = writ@;
        self.inbox.push(writ);
        proof {
            assert(self@.inbox =~= old(self)@.inbox.push(w));
        }
    }

    /// The next request from the king, where one is waiting.
    pub fn next(&mut self) -> (r: Option<Noun>)
        ensures
            old(self)@.inbox.len() == 0 ==> r is None && final(self)@ == old(self)@,
            old(self)@.inbox.len() > 0 ==> (r matches Some(w) && w@ == old(self)@.inbox[0]
                && final(self)@ == (ContextV { inbox: old(self)@.inbox.drop_first(), ..old(self)@ })),
    {
        if self.inbox.len() == 0 {
            None
        } else {
            let w = self.inbox.remove(0);
            proof {
                assert(self@.inbox =~= old(self)@.inbox.drop_first());
            }
            Some(w)
        }
    }

    /// Takes the replies written so far, oldest first.
    pub fn take_replies(&mut self) -> (r: Vec<Reply>)
        ensures
            r@.map_values(|x: Reply| x@) == old(self)@.sent,
            final(self)@ == (ContextV { sent: Seq::empty(), ..old(self)@ }),
    {
        let mut r: Vec<Reply> = Vec::new();
        std::mem::swap(&mut r, &mut self.outbox);
        proof {
            assert(self@.sent =~= Seq::<ReplyV>::empty());
        }
        r
    }

    /// Whether the dispatcher awaits nothing.
    pub fn is_idle(&self) -> (r: bool)
        ensures
            r == self@.pending is Idle,
    {
        match self.pending {
            Pending::Idle => true,
            _ => false,
        }
    }

    /// Whether one more snapshot record can be written.
    pub fn can_commit(&self) -> (r: bool)
        ensures
            r == self@.can_commit(),
    {
        (self.pma.len() as u64) < u64::MAX
    }

    pub(crate) fn set_pending(&mut self, p: Pending)
        ensures
            final(self)@ == (ContextV { pending: p@, ..old(self)@ }),
    {
        self.pending = p;
    }

    /// What the dispatcher awaited; it now awaits nothing.
    pub(crate) fn take_pending(&mut self) -> (p: Pending)
        ensures
            p@ == old(self)@.pending,
            final(self)@ == (ContextV { pending: PendingV::Idle, ..old(self)@ }),
    {
        let mut p = Pending::Idle;
        std::mem::swap(&mut p, &mut self.pending);
        p
    }

    /// Takes the jet tables that the interpreter left.
    pub(crate) fn set_jets(&mut self, cold: Noun, warm: Noun)
        ensures
            final(self)@ == (ContextV { cold: cold@, warm: warm@, ..old(self)@ }),
    {
        self.cold = cold;
        self.warm = warm;
    }

    /// Empties the noun cache.
    pub(crate) fn reset_cache(&mut self)
        ensures
            final(self)@ == (ContextV { cache: d(0), ..old(self)@ }),
    {
        self.cache = Noun::small(0);
    }

    /// Empties the noun cache and the scry stack.
    pub(crate) fn reset_event(&mut self)
        ensures
            final(self)@ == (ContextV { cache: d(0), scry_stack: d(0), ..old(self)@ }),
    {
        self.cache = Noun::small(0);
        self.scry_stack = Noun::small(0);
    }

    fn send(&mut self, r: Reply)
        ensures
            final(self)@ == old(self)@.send(r@),
    {
        let ghost v = r@;
        self.outbox.push(r);
        proof {
            assert(self@.sent =~= old(self)@.sent.push(v));
        }
    }

    /// Announces the serf and its state.
    pub fn ripe(&mut self)
        ensures
            final(self)@ == old(self)@.send(ReplyV::Ripe { eve: old(self)@.event_num, mug: old(self)@.mug }),
    {
        let r = Reply::Ripe { eve: self.event_num, mug: self.mug };
        self.send(r);
    }

    /// Acknowledges a live request.
    pub fn live(&mut self)
        ensures
            final(self)@ == old(self)@.send(ReplyV::Live),
    {
        self.send(Reply::Live);
    }

    /// Answers a peek with its result.
    pub fn peek_done(&mut self, dat: Noun)
        ensures
            final(self)@ == old(self)@.send(ReplyV::PeekDone { dat: dat@ }),
    {
        self.send(Reply::PeekDone { dat });
    }

    /// Reports a finished playback.
    pub fn play_done(&mut self)
        ensures
            final(self)@ == old(self)@.send(ReplyV::PlayDone { mug: old(self)@.mug }),
    {
        let r = Reply::PlayDone { mug: self.mug };
        self.send(r);
    }

    /// Reports a failed playback with its goof.
    pub fn play_bail(&mut self, dud: Noun)
        ensures
            final(self)@ == old(self)@.send(
                ReplyV::PlayBail { eve: old(self)@.event_num, mug: old(self)@.mug, dud: dud@ },
            ),
    {
        let r = Reply::PlayBail { eve: self.event_num, mug: self.mug, dud };
        self.send(r);
    }

    /// Reports a committed job with its effects.
    pub fn work_done(&mut self, fec: Noun)
        ensures
            final(self)@ == old(self)@.send(
                ReplyV::WorkDone { eve: old(self)@.event_num, mug: old(self)@.mug, fec: fec@ },
            ),
    {
        let r = Reply::WorkDone { eve: self.event_num, mug: self.mug, fec };
        self.send(r);
    }

    /// Reports that the substitute `job` was committed in place of the one
    /// sent, with its effects.
    pub fn work_swap(&mut self, job: Noun, fec: Noun)
        ensures
            final(self)@ == old(self)@.send(
                ReplyV::WorkSwap { eve: old(self)@.event_num, mug: old(self)@.mug, job: job@, fec: fec@ },
            ),
    {
        let r = Reply::WorkSwap { eve: self.event_num, mug: self.mug, job, fec };
        self.send(r);
    }

    /// Reports a job that nothing was committed for, with the goofs.
    pub fn work_bail(&mut self, lud: Noun)
        ensures
            final(self)@ == old(self)@.send(ReplyV::WorkBail { lud: lud@ }),
    {
        self.send(Reply::WorkBail { lud });
    }
}

} // verus!
