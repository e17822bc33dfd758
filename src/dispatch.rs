//! The dispatcher: what the serf does with each request and with each
//! outcome of the interpreter.
use vstd::prelude::*;
use crate::fault::{outcome_view, Fatal, Fault, FaultV};
use crate::noun::{c, d, inc_atom, is_tag, lent, lent_of, slot, slot_of, Noun, NounV};
use crate::trace::{
    boot_name, boot_trace_name, peek_name, peek_trace_name, play_name, play_trace_name, work_name,
    work_trace_name,
};
use crate::serf::{
    boot_formula, crud_of, goof_of, slam_formula, tag_arvo, tag_crud, tag_live,
    tag_peek, tag_play, tag_save, tag_work, tas_vec, Action, ActionV, Context, ContextV, Pending,
    PendingV, ReplyV, PEEK_AXIS, POKE_AXIS,
};

verus! {

/// An interpreter outcome as the kernel sees it: the product, or the goof of
/// a deterministic or non-deterministic failure; a scry is fatal.
pub open spec fn soft_of(res: Result<NounV, FaultV>) -> Result<Result<NounV, NounV>, Fatal> {
    match res {
        Ok(v) => Ok(Ok(v)),
        Err(FaultV::Deterministic(t)) => Ok(Err(goof_of(t))),
        Err(FaultV::NonDeterministic(t)) => Ok(Err(goof_of(t))),
        Err(_) => Err(Fatal::UnexpectedScry),
    }
}

/// Whether an executed step returned what `expected` says, with the context
/// `post` after it. A fatal step leaves the context to be dropped.
pub open spec fn steps_to(
    r: Result<Action, Fatal>,
    post: ContextV,
    expected: Result<(ContextV, ActionV), Fatal>,
) -> bool {
    match (r, expected) {
        (Ok(a), Ok((s, av))) => a@ == av && post == s,
        (Err(e), Err(f)) => e == f,
        _ => false,
    }
}

/// `name` where tracing is on.
pub open spec fn traced(s: ContextV, name: Seq<u8>) -> Option<Seq<u8>> {
    if s.tracing {
        Some(name)
    } else {
        None
    }
}

/// The wire of a crud event, `[0 %arvo 0]`.
pub open spec fn crud_wire() -> NounV {
    c(d(0), c(NounV::Atom(tag_arvo()), d(0)))
}

/// The trace name of a job `[now wire tag ...]`, where it has a wire and
/// its tag is an atom.
pub open spec fn job_trace_of(job: NounV) -> Option<Seq<u8>> {
    match (slot_of(job, 6), slot_of(job, 14)) {
        (Some(w), Some(NounV::Atom(t))) => Some(work_name(w, t)),
        _ => None,
    }
}

/// Playback of the rest of a list: slam the next event, or report that
/// the list is done.
pub open spec fn play_list_step(s: ContextV, lit: NounV) -> Result<(ContextV, ActionV), Fatal> {
    match lit {
        NounV::Cell(h, t) => Ok((
            ContextV { pending: PendingV::Play { rest: *t }, ..s },
            ActionV::Interpret {
                subject: c(s.arvo, *h),
                formula: slam_formula(POKE_AXIS),
                clear_interrupt: false,
                trace: traced(s, play_name(s.event_num as nat)),
            },
        )),
        NounV::Atom(_) => Ok((s.send(ReplyV::PlayDone { mug: s.mug }), ActionV::Finish)),
    }
}

/// After a failed job: slam the crud event that stands in for it, with the
/// interrupt flag and the cache cleared.
pub open spec fn work_swap_step(s: ContextV, job: NounV, goof: NounV) -> Result<
    (ContextV, ActionV),
    Fatal,
> {
    match crud_of(job, goof) {
        Some(ovo) => Ok((
            ContextV { cache: d(0), pending: PendingV::Swap { ovo, goof }, ..s },
            ActionV::Interpret {
                subject: c(s.arvo, ovo),
                formula: slam_formula(POKE_AXIS),
                clear_interrupt: true,
                trace: traced(s, work_name(crud_wire(), tag_crud())),
            },
        )),
        None => Err(Fatal::MalformedJob),
    }
}

/// What a request does: `[%live sub ...]`, `[%peek ovo]`, `[%play list]`
/// or `[%work mil job]`.
pub open spec fn request_step(s: ContextV, writ: NounV) -> Result<(ContextV, ActionV), Fatal> {
    if !(s.pending is Idle) {
        Err(Fatal::OutOfOrder)
    } else {
        let s0 = ContextV { cache: d(0), scry_stack: d(0), ..s };
        match slot_of(writ, 2) {
            Some(NounV::Atom(tag)) => if tag == tag_live() {
                match slot_of(writ, 6) {
                    Some(NounV::Atom(sub)) => {
                        let s1 = if sub == tag_save() {
                            ContextV { pma: s0.pma.synced(), ..s0 }
                        } else {
                            s0
                        };
                        Ok((s1.send(ReplyV::Live), ActionV::Finish))
                    },
                    _ => Err(Fatal::MalformedRequest),
                }
            } else if tag == tag_peek() {
                match slot_of(writ, 7) {
                    Some(ovo) => Ok((
                        ContextV { pending: PendingV::Peek, ..s0 },
                        ActionV::Interpret {
                            subject: c(s0.arvo, ovo),
                            formula: slam_formula(PEEK_AXIS),
                            clear_interrupt: false,
                            trace: traced(s0, peek_name()),
                        },
                    )),
                    None => Err(Fatal::MalformedRequest),
                }
            } else if tag == tag_play() {
                match slot_of(writ, 7) {
                    Some(lit) => if s0.epoch == 0 && s0.event_num == 0 {
                        Ok((
                            ContextV { pending: PendingV::Boot { eve: lit }, ..s0 },
                            ActionV::Interpret {
                                subject: lit,
                                formula: boot_formula(),
                                clear_interrupt: false,
                                trace: traced(s0, boot_name()),
                            },
                        ))
                    } else {
                        play_list_step(s0, lit)
                    },
                    None => Err(Fatal::MalformedRequest),
                }
            } else if tag == tag_work() {
                match slot_of(writ, 7) {
                    Some(job) => if s0.tracing && job_trace_of(job) is None {
                        Err(Fatal::MalformedJob)
                    } else {
                        Ok((
                            ContextV { pending: PendingV::Work { job }, ..s0 },
                            ActionV::Interpret {
                                subject: c(s0.arvo, job),
                                formula: slam_formula(POKE_AXIS),
                                clear_interrupt: false,
                                trace: traced(s0, job_trace_of(job).unwrap_or(Seq::empty())),
                            },
                        ))
                    },
                    None => Err(Fatal::MalformedRequest),
                }
            } else {
                Err(Fatal::UnknownTag)
            },
            _ => Err(Fatal::MalformedRequest),
        }
    }
}

/// Commits the product `[fec arvo]` of a slam as the next event, then
/// continues with `then`'s reply; fatal where the product is an atom or
/// no event can be committed.
pub open spec fn commit_product(s: ContextV, product: NounV) -> Result<ContextV, Fatal> {
    match product {
        NounV::Cell(_, a) => if s.event_num == u64::MAX {
            Err(Fatal::EventOverflow)
        } else if !s.can_commit() {
            Err(Fatal::ArenaFull)
        } else {
            Ok(s.commit((s.event_num + 1) as u64, *a))
        },
        NounV::Atom(_) => Err(Fatal::MalformedResult),
    }
}

pub open spec fn effects_of(product: NounV) -> NounV {
    match product {
        NounV::Cell(f, _) => *f,
        NounV::Atom(_) => d(0),
    }
}

/// What an interpreter outcome does, given what the dispatcher awaited; the
/// interpreter also hands back the cold and warm jet tables it left.
pub open spec fn resume_step(
    s: ContextV,
    cold: NounV,
    warm: NounV,
    res: Result<NounV, FaultV>,
) -> Result<(ContextV, ActionV), Fatal> {
    let s0 = ContextV { cold, warm, pending: PendingV::Idle, ..s };
    match s.pending {
        PendingV::Idle => Err(Fatal::OutOfOrder),
        PendingV::Peek => match res {
            Ok(dat) => Ok((s0.send(ReplyV::PeekDone { dat }), ActionV::Finish)),
            Err(_) => Err(Fatal::PeekFailed),
        },
        PendingV::Boot { eve } => match soft_of(res) {
            Err(f) => Err(f),
            Ok(Err(g)) => Ok((
                s0.send(ReplyV::PlayBail { eve: s0.event_num, mug: s0.mug, dud: g }),
                ActionV::Finish,
            )),
            Ok(Ok(gat)) => if lent_of(eve) is None || lent_of(eve).unwrap() > u64::MAX {
                Err(Fatal::MalformedRequest)
            } else if slot_of(gat, 7) is None {
                Err(Fatal::MalformedResult)
            } else if !s0.can_commit() {
                Err(Fatal::ArenaFull)
            } else {
                let s1 = s0.commit(lent_of(eve).unwrap() as u64, slot_of(gat, 7).unwrap());
                Ok((s1.send(ReplyV::PlayDone { mug: s1.mug }), ActionV::Finish))
            },
        },
        PendingV::Play { rest } => match soft_of(res) {
            Err(f) => Err(f),
            Ok(Err(g)) => Ok((
                s0.send(ReplyV::PlayBail { eve: s0.event_num, mug: s0.mug, dud: g }),
                ActionV::Finish,
            )),
            Ok(Ok(p)) => match commit_product(s0, p) {
                Err(f) => Err(f),
                Ok(s1) => play_list_step(s1, rest),
            },
        },
        PendingV::Work { job } => match soft_of(res) {
            Err(f) => Err(f),
            Ok(Err(g)) => work_swap_step(s0, job, g),
            Ok(Ok(p)) => match commit_product(s0, p) {
                Err(f) => Err(f),
                Ok(s1) => Ok((
                    s1.send(ReplyV::WorkDone { eve: s1.event_num, mug: s1.mug, fec: effects_of(p) }),
                    ActionV::Finish,
                )),
            },
        },
        PendingV::Swap { ovo, goof } => match soft_of(res) {
            Err(f) => Err(f),
            Ok(Err(gc)) => Ok((
                s0.send(ReplyV::WorkBail { lud: c(gc, c(goof, d(0))) }),
                ActionV::Finish,
            )),
            Ok(Ok(p)) => match commit_product(s0, p) {
                Err(f) => Err(f),
                Ok(s1) => Ok((
                    s1.send(ReplyV::WorkSwap {
                        eve: s1.event_num,
                        mug: s1.mug,
                        job: ovo,
                        fec: effects_of(p),
                    }),
                    ActionV::Finish,
                )),
            },
        },
    }
}

/// The formula that slams the kernel's gate at `axis`.
fn slam_formula_noun(axis: u8) -> (r: Noun)
    ensures
        r@ == slam_formula(axis),
{
    let pul = Noun::cell(Noun::small(9), Noun::cell(Noun::small(axis), Noun::cell(Noun::small(0), Noun::small(2))));
    let sam = Noun::cell(Noun::small(6), Noun::cell(Noun::small(0), Noun::small(7)));
    let tail = Noun::cell(Noun::small(10), Noun::cell(sam, Noun::cell(Noun::small(0), Noun::small(2))));
    Noun::cell(Noun::small(8), Noun::cell(pul, Noun::cell(Noun::small(9), Noun::cell(Noun::small(2), tail))))
}

/// Asks for the kernel's gate at `axis` to be slammed with `ovo`: the
/// subject `[arvo ovo]` and the slam formula, under the trace name `trace`.
pub fn slam(ctx: &Context, axis: u8, ovo: Noun, trace: Option<Vec<u8>>) -> (r: Action)
    ensures
        r@ == (ActionV::Interpret {
            subject: c(ctx@.arvo, ovo@),
            formula: slam_formula(axis),
            clear_interrupt: false,
            trace: match trace {
                Some(t) => Some(t@),
                None => None,
            },
        }),
{
    let sub = Noun::cell(ctx.arvo().copy(), ovo);
    Action::Interpret { subject: sub, formula: slam_formula_noun(axis), clear_interrupt: false, trace }
}

fn traced_name(ctx: &Context, name: Vec<u8>) -> (r: Option<Vec<u8>>)
    ensures
        r matches Some(t) ==> ctx@.tracing && t@ == name@,
        r is None ==> !ctx@.tracing,
{
    if ctx.tracing() {
        Some(name)
    } else {
        None
    }
}

/// `[%exit tang]`.
pub fn goof(tang: Noun) -> (r: Noun)
    ensures
        r@ == goof_of(tang@),
{
    Noun::cell(Noun::atom(tas_vec(0x65, 0x78, 0x69, 0x74)), tang)
}

/// An interpreter outcome as the kernel sees it.
pub fn soft(res: Result<Noun, Fault>) -> (r: Result<Result<Noun, Noun>, Fatal>)
    ensures
        match (r, soft_of(outcome_view(res))) {
            (Ok(Ok(v)), Ok(Ok(w))) => v@ == w,
            (Ok(Err(g)), Ok(Err(h))) => g@ == h,
            (Err(e), Err(f)) => e == f,
            _ => false,
        },
{
    match res {
        Ok(v) => Ok(Ok(v)),
        Err(Fault::Deterministic(t)) => Ok(Err(goof(t))),
        Err(Fault::NonDeterministic(t)) => Ok(Err(goof(t))),
        Err(Fault::ScryBlocked(_)) => Err(Fatal::UnexpectedScry),
        Err(Fault::ScryCrashed(_)) => Err(Fatal::UnexpectedScry),
    }
}

} // verus!

verus! {

/// Asks for a scry: the kernel's peek gate slammed with `ovo`.
pub fn peek(ctx: &mut Context, ovo: Noun) -> (r: Action)
    ensures
        final(ctx)@ == (ContextV { pending: PendingV::Peek, ..old(ctx)@ }),
        r@ == (ActionV::Interpret {
            subject: c(old(ctx)@.arvo, ovo@),
            formula: slam_formula(PEEK_AXIS),
            clear_interrupt: false,
            trace: traced(old(ctx)@, peek_name()),
        }),
{
    let tr = traced_name(ctx, peek_trace_name());
    let a = slam(ctx, PEEK_AXIS, ovo, tr);
    ctx.set_pending(Pending::Peek);
    a
}

/// Asks for the lifecycle formula to be run on the whole event list `eve`.
pub fn play_life(ctx: &mut Context, eve: Noun) -> (r: Action)
    ensures
        final(ctx)@ == (ContextV { pending: PendingV::Boot { eve: eve@ }, ..old(ctx)@ }),
        r@ == (ActionV::Interpret {
            subject: eve@,
            formula: boot_formula(),
            clear_interrupt: false,
            trace: traced(old(ctx)@, boot_name()),
        }),
{
    let f = Noun::cell(
        Noun::small(2),
        Noun::cell(Noun::cell(Noun::small(0), Noun::small(3)), Noun::cell(Noun::small(0), Noun::small(2))),
    );
    let subject = eve.copy();
    let trace = traced_name(ctx, boot_trace_name());
    ctx.set_pending(Pending::Boot { eve });
    Action::Interpret { subject, formula: f, clear_interrupt: false, trace }
}

/// Plays the next event of the list `lit`, or reports that playback is done.
pub fn play_list(ctx: &mut Context, lit: Noun) -> (r: Action)
    ensures
        play_list_step(old(ctx)@, lit@) == Ok::<(ContextV, ActionV), Fatal>((final(ctx)@, r@)),
{
    match lit {
        Noun::Cell(h, t) => {
            let tr = traced_name(ctx, play_trace_name(ctx.event_num()));
            let a = slam(ctx, POKE_AXIS, *h, tr);
            ctx.set_pending(Pending::Play { rest: *t });
            a
        },
        Noun::Atom(_) => {
            ctx.play_done();
            Action::Finish
        },
    }
}

/// The trace name of a job `[now wire tag ...]`, where it has a wire and
/// its tag is an atom.
pub fn job_trace(job: &Noun) -> (r: Option<Vec<u8>>)
    ensures
        r matches Some(t) ==> job_trace_of(job@) == Some(t@),
        r is None ==> job_trace_of(job@) is None,
{
    match slot(job, 6) {
        Some(wire) => match slot(job, 14) {
            Some(Noun::Atom(t)) => Some(work_trace_name(&wire, t.as_slice())),
            _ => None,
        },
        None => None,
    }
}

/// Asks for the kernel's poke gate to be slammed with `job`; where tracing
/// is on, a job without a wire or an atom tag is fatal.
pub fn work(ctx: &mut Context, job: Noun) -> (r: Result<Action, Fatal>)
    ensures
        old(ctx)@.tracing && job_trace_of(job@) is None ==> r == Err::<Action, Fatal>(Fatal::MalformedJob),
        !(old(ctx)@.tracing && job_trace_of(job@) is None) ==> (r matches Ok(a) && a@ == (ActionV::Interpret {
            subject: c(old(ctx)@.arvo, job@),
            formula: slam_formula(POKE_AXIS),
            clear_interrupt: false,
            trace: traced(old(ctx)@, job_trace_of(job@).unwrap_or(Seq::empty())),
        }) && final(ctx)@ == (ContextV { pending: PendingV::Work { job: job@ }, ..old(ctx)@ })),
{
    let tr = if ctx.tracing() {
        match job_trace(&job) {
            Some(t) => Some(t),
            None => {
                return Err(Fatal::MalformedJob);
            },
        }
    } else {
        None
    };
    let a = slam(ctx, POKE_AXIS, job.copy(), tr);
    ctx.set_pending(Pending::Work { job });
    Ok(a)
}

/// After the job `job` failed with `goof`: asks for the crud event that
/// stands in for it to be slammed.
pub fn work_swap(ctx: &mut Context, job: Noun, goof: Noun) -> (r: Result<Action, Fatal>)
    ensures
        steps_to(r, final(ctx)@, work_swap_step(old(ctx)@, job@, goof@)),
{
    let ghost jv = job@;
    match job {
        Noun::Cell(now, rest) => match *now {
            Noun::Atom(b) => {
                assert(jv == c(now@, rest@));
                assert(now@ == NounV::Atom(b@));
                assert(jv == c(NounV::Atom(b@), rest@));
                let ghost ov = crud_of(jv, goof@).unwrap();
                let wire = Noun::cell(
                    Noun::small(0),
                    Noun::cell(Noun::atom(tas_vec(0x61, 0x72, 0x76, 0x6f)), Noun::small(0)),
                );
                let crud = Noun::atom(tas_vec(0x63, 0x72, 0x75, 0x64));
                let ovo = Noun::cell(
                    Noun::atom(inc_atom(&b)),
                    Noun::cell(wire, Noun::cell(crud, Noun::cell(goof.copy(), *rest))),
                );
                assert(ovo@ == ov);
                ctx.reset_cache();
                let subject = Noun::cell(ctx.arvo().copy(), ovo.copy());
                let tr = if ctx.tracing() {
                    let crud_wire = Noun::cell(
                        Noun::small(0),
                        Noun::cell(Noun::atom(tas_vec(0x61, 0x72, 0x76, 0x6f)), Noun::small(0)),
                    );
                    let crud_tag = tas_vec(0x63, 0x72, 0x75, 0x64);
                    Some(work_trace_name(&crud_wire, crud_tag.as_slice()))
                } else {
                    None
                };
                ctx.set_pending(Pending::Swap { ovo, goof });
                Ok(Action::Interpret {
                    subject,
                    formula: slam_formula_noun(POKE_AXIS),
                    clear_interrupt: true,
                    trace: tr,
                })
            },
            Noun::Cell(_, _) => Err(Fatal::MalformedJob),
        },
        Noun::Atom(_) => Err(Fatal::MalformedJob),
    }
}

/// Reports that neither the job nor its crud event could be committed:
/// `[goof_crud goof 0]`.
pub fn work_bail(ctx: &mut Context, goof_crud: Noun, goof: Noun)
    ensures
        final(ctx)@ == old(ctx)@.send(ReplyV::WorkBail { lud: c(goof_crud@, c(goof@, d(0))) }),
{
    let lud = Noun::cell(goof_crud, Noun::cell(goof, Noun::small(0)));
    ctx.work_bail(lud);
}

} // verus!

verus! {

/// Commits the product `[fec arvo]` of a slam as the next event and hands
/// back `fec`.
fn commit_slam(ctx: &mut Context, product: Noun) -> (r: Result<Noun, Fatal>)
    ensures
        match (r, commit_product(old(ctx)@, product@)) {
            (Ok(f), Ok(s)) => f@ == effects_of(product@) && final(ctx)@ == s,
            (Err(e), Err(f)) => e == f,
            _ => false,
        },
{
    match product {
        Noun::Cell(fec, a) => {
            let n = ctx.event_num();
            if n == u64::MAX {
                return Err(Fatal::EventOverflow);
            }
            if !ctx.can_commit() {
                return Err(Fatal::ArenaFull);
            }
            ctx.event_update(n + 1, *a);
            Ok(*fec)
        },
        Noun::Atom(_) => Err(Fatal::MalformedResult),
    }
}

/// Takes one request from the king: answers a `live` request at once, or
/// asks for the interpretation that a `peek`, `play` or `work` request needs.
pub fn handle_request(ctx: &mut Context, writ: &Noun) -> (r: Result<Action, Fatal>)
    ensures
        steps_to(r, final(ctx)@, request_step(old(ctx)@, writ@)),
{
    if !ctx.is_idle() {
        return Err(Fatal::OutOfOrder);
    }
    ctx.reset_event();
    let tag = match slot(writ, 2) {
        Some(t) => t,
        None => {
            return Err(Fatal::MalformedRequest);
        },
    };
    if tag.is_cell() {
        return Err(Fatal::MalformedRequest);
    }
    if is_tag(&tag, tas_vec(0x6c, 0x69, 0x76, 0x65).as_slice()) {
        match slot(writ, 6) {
            Some(sub) => {
                if sub.is_cell() {
                    return Err(Fatal::MalformedRequest);
                }
                if is_tag(&sub, tas_vec(0x73, 0x61, 0x76, 0x65).as_slice()) {
                    ctx.sync();
                }
                ctx.live();
                Ok(Action::Finish)
            },
            None => Err(Fatal::MalformedRequest),
        }
    } else if is_tag(&tag, tas_vec(0x70, 0x65, 0x65, 0x6b).as_slice()) {
        match slot(writ, 7) {
            Some(ovo) => Ok(peek(ctx, ovo)),
            None => Err(Fatal::MalformedRequest),
        }
    } else if is_tag(&tag, tas_vec(0x70, 0x6c, 0x61, 0x79).as_slice()) {
        match slot(writ, 7) {
            Some(lit) => if ctx.epoch() == 0 && ctx.event_num() == 0 {
                Ok(play_life(ctx, lit))
            } else {
                Ok(play_list(ctx, lit))
            },
            None => Err(Fatal::MalformedRequest),
        }
    } else if is_tag(&tag, tas_vec(0x77, 0x6f, 0x72, 0x6b).as_slice()) {
        match slot(writ, 7) {
            Some(job) => work(ctx, job),
            None => Err(Fatal::MalformedRequest),
        }
    } else {
        Err(Fatal::UnknownTag)
    }
}

/// Takes the interpreter's outcome, with the cold and warm jet tables it
/// left, and does what the awaited step calls for: commits and replies,
/// reports a failure, or asks for the next interpretation.
pub fn resume(ctx: &mut Context, cold: Noun, warm: Noun, res: Result<Noun, Fault>) -> (r: Result<
    Action,
    Fatal,
>)
    ensures
        steps_to(r, final(ctx)@, resume_step(old(ctx)@, cold@, warm@, outcome_view(res))),
{
    let ghost rv = outcome_view(res);
    let p = ctx.take_pending();
    ctx.set_jets(cold, warm);
    match p {
        Pending::Idle => Err(Fatal::OutOfOrder),
        Pending::Peek => match res {
            Ok(dat) => {
                ctx.peek_done(dat);
                Ok(Action::Finish)
            },
            Err(_) => Err(Fatal::PeekFailed),
        },
        Pending::Boot { eve } => match soft(res) {
            Err(f) => Err(f),
            Ok(Err(g)) => {
                ctx.play_bail(g);
                Ok(Action::Finish)
            },
            Ok(Ok(gat)) => {
                let k = match lent(&eve) {
                    Some(k) => k,
                    None => {
                        return Err(Fatal::MalformedRequest);
                    },
                };
                let a = match slot(&gat, 7) {
                    Some(a) => a,
                    None => {
                        return Err(Fatal::MalformedResult);
                    },
                };
                if !ctx.can_commit() {
                    return Err(Fatal::ArenaFull);
                }
                ctx.event_update(k, a);
                ctx.play_done();
                Ok(Action::Finish)
            },
        },
        Pending::Play { rest } => match soft(res) {
            Err(f) => Err(f),
            Ok(Err(g)) => {
                ctx.play_bail(g);
                Ok(Action::Finish)
            },
            Ok(Ok(product)) => match commit_slam(ctx, product) {
                Err(f) => Err(f),
                Ok(_) => Ok(play_list(ctx, rest)),
            },
        },
        Pending::Work { job } => match soft(res) {
            Err(f) => Err(f),
            Ok(Err(g)) => work_swap(ctx, job, g),
            Ok(Ok(product)) => match commit_slam(ctx, product) {
                Err(f) => Err(f),
                Ok(fec) => {
                    ctx.work_done(fec);
                    Ok(Action::Finish)
                },
            },
        },
        Pending::Swap { ovo, goof } => match soft(res) {
            Err(f) => Err(f),
            Ok(Err(goof_crud)) => {
                work_bail(ctx, goof_crud, goof);
                Ok(Action::Finish)
            },
            Ok(Ok(product)) => match commit_slam(ctx, product) {
                Err(f) => Err(f),
                Ok(fec) => {
                    ctx.work_swap(ovo, fec);
                    Ok(Action::Finish)
                },
            },
        },
    }
}

} // verus!
