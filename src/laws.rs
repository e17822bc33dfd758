//! What holds of the serf across calls.
use vstd::prelude::*;
use crate::dispatch::{commit_product, play_list_step, request_step, resume_step};
use crate::fault::{Fatal, FaultV};
use crate::noun::{d, lent_of, mug_of, slot_of, NounV};
use crate::serf::{tag_work, ContextV, PendingV, ReplyV};
use crate::snapshot::{PmaV, SnapshotV};

verus! {

/// Writing a snapshot and then loading the arena gives that snapshot back.
pub proof fn lemma_save_then_load(p: PmaV, s: SnapshotV)
    requires
        p.records.len() < u64::MAX,
    ensures
        p.saved(s).loaded() == Ok::<Option<SnapshotV>, Fatal>(Some(s)),
{
    assert(p.saved(s).records[p.records.len() as int] == s);
}

/// A snapshot written and then forced to durable storage survives a crash.
pub proof fn lemma_sync_survives_crash(p: PmaV, s: SnapshotV)
    requires
        p.wf(),
        p.records.len() < u64::MAX,
    ensures
        p.saved(s).synced().after_crash().loaded() == Ok::<Option<SnapshotV>, Fatal>(Some(s)),
{
    let q = p.saved(s).synced().after_crash();
    assert(q.records =~= p.records.push(s));
    assert(q.records[p.records.len() as int] == s);
}

/// After the event that makes `a` the kernel is committed as number `n`, a
/// reload from the arena yields the epoch, `n`, `a` and the cold table.
pub proof fn lemma_commit_reloads(s: ContextV, n: u64, a: NounV)
    requires
        s.can_commit(),
    ensures
        s.commit(n, a).pma.loaded() == Ok::<Option<SnapshotV>, Fatal>(
            Some(SnapshotV { epoch: s.epoch, event_num: n, arvo: a, cold: s.cold }),
        ),
        s.commit(n, a).mug == mug_of(a),
{
    lemma_save_then_load(s.pma, SnapshotV { epoch: s.epoch, event_num: n, arvo: a, cold: s.cold });
}

proof fn lemma_commit_wf(s: ContextV, n: u64, a: NounV)
    requires
        s.wf(),
        s.can_commit(),
        !(s.pending is Boot),
    ensures
        s.commit(n, a).wf(),
{
    lemma_commit_reloads(s, n, a);
}

proof fn lemma_play_list_wf(s: ContextV, lit: NounV)
    requires
        s.wf(),
        !(s.pending is Boot),
    ensures
        play_list_step(s, lit) matches Ok((t, _)) ==> t.wf() && t.event_num == s.event_num,
{
}

/// Every request keeps the context's invariant (the hash is that of the
/// kernel and the arena holds the committed state) and never lowers the
/// event number.
pub proof fn lemma_request_keeps_wf(s: ContextV, writ: NounV)
    requires
        s.wf(),
    ensures
        request_step(s, writ) matches Ok((t, _)) ==> t.wf() && t.event_num == s.event_num,
{
    let s0 = ContextV { cache: d(0), scry_stack: d(0), ..s };
    assert(s0.pma.synced().loaded() == s0.pma.loaded());
    if s.pending is Idle {
        lemma_play_list_wf(s0, slot_of(writ, 7).unwrap_or(d(0)));
    }
}

/// Every interpreter outcome keeps the context's invariant and never lowers
/// the event number.
pub proof fn lemma_resume_keeps_wf(s: ContextV, cold: NounV, warm: NounV, res: Result<NounV, FaultV>)
    requires
        s.wf(),
    ensures
        resume_step(s, cold, warm, res) matches Ok((t, _)) ==> t.wf() && t.event_num >= s.event_num,
{
    let s0 = ContextV { cold, warm, pending: PendingV::Idle, ..s };
    match s.pending {
        PendingV::Boot { eve } => {
            if let Ok(gat) = res {
                if s0.can_commit() && slot_of(gat, 7) is Some && lent_fits(eve) {
                    lemma_commit_wf(s0, lent_of(eve).unwrap() as u64, slot_of(gat, 7).unwrap());
                }
            }
        },
        PendingV::Play { rest } => {
            match res {
                Ok(p) => match commit_product(s0, p) {
                    Ok(s1) => {
                        lemma_commit_wf(s0, (s0.event_num + 1) as u64, slot_of(p, 3).unwrap());
                        lemma_play_list_wf(s1, rest);
                    },
                    Err(_) => {},
                },
                Err(_) => {},
            }
        },
        PendingV::Work { job } => {
            match res {
                Ok(p) => if commit_product(s0, p) is Ok {
                    lemma_commit_wf(s0, (s0.event_num + 1) as u64, slot_of(p, 3).unwrap());
                },
                Err(_) => {},
            }
        },
        PendingV::Swap { ovo, goof } => {
            match res {
                Ok(p) => if commit_product(s0, p) is Ok {
                    lemma_commit_wf(s0, (s0.event_num + 1) as u64, slot_of(p, 3).unwrap());
                },
                Err(_) => {},
            }
        },
        _ => {},
    }
}

spec fn lent_fits(eve: NounV) -> bool {
    lent_of(eve) is Some && lent_of(eve).unwrap() <= u64::MAX
}

} // verus!

verus! {

/// `t` follows `s` by exactly one reply to a job: `work_done` or
/// `work_swap` with one event committed, or `work_bail` with none.
pub open spec fn one_work_reply(s: ContextV, t: ContextV) -> bool {
    &&& t.sent.len() == s.sent.len() + 1
    &&& t.sent.subrange(0, s.sent.len() as int) == s.sent
    &&& match t.sent.last() {
        ReplyV::WorkDone { .. } => t.event_num == s.event_num + 1,
        ReplyV::WorkSwap { .. } => t.event_num == s.event_num + 1,
        ReplyV::WorkBail { .. } => t.event_num == s.event_num,
        _ => false,
    }
}

/// A `work` request commits zero events or one and is answered by exactly
/// one of `work_done`, `work_swap` and `work_bail`: either the first outcome
/// finishes it, or the crud event is slammed and its outcome finishes it.
pub proof fn lemma_work_commits_at_most_one(
    s: ContextV,
    writ: NounV,
    cold1: NounV,
    warm1: NounV,
    res1: Result<NounV, FaultV>,
    cold2: NounV,
    warm2: NounV,
    res2: Result<NounV, FaultV>,
)
    requires
        slot_of(writ, 2) == Some(NounV::Atom(tag_work())),
        request_step(s, writ) is Ok,
        resume_step(request_step(s, writ).unwrap().0, cold1, warm1, res1) is Ok,
    ensures
        ({
            let s1 = request_step(s, writ).unwrap().0;
            let (s2, a2) = resume_step(s1, cold1, warm1, res1).unwrap();
            &&& a2 is Finish ==> one_work_reply(s, s2)
            &&& a2 is Interpret ==> {
                &&& s2.sent == s.sent
                &&& s2.event_num == s.event_num
                &&& resume_step(s2, cold2, warm2, res2) matches Ok((s3, a3)) ==> a3 is Finish
                    && one_work_reply(s, s3)
            }
        }),
{
    let s1 = request_step(s, writ).unwrap().0;
    let (s2, a2) = resume_step(s1, cold1, warm1, res1).unwrap();
    assert(s1.sent == s.sent && s1.event_num == s.event_num);
    if a2 is Finish {
        assert(s2.sent.subrange(0, s.sent.len() as int) =~= s.sent);
    } else {
        match resume_step(s2, cold2, warm2, res2) {
            Ok((s3, a3)) => {
                assert(s3.sent.subrange(0, s.sent.len() as int) =~= s.sent);
            },
            Err(_) => {},
        }
    }
}

} // verus!

verus! {

/// A step that finishes a request leaves the dispatcher awaiting nothing:
/// no event, job or crud event of the request stays held in the context.
pub proof fn lemma_finish_holds_nothing_pending(
    s: ContextV,
    writ: NounV,
    cold: NounV,
    warm: NounV,
    res: Result<NounV, FaultV>,
)
    ensures
        request_step(s, writ) matches Ok((t, a)) ==> (a is Finish ==> t.pending is Idle),
        resume_step(s, cold, warm, res) matches Ok((t, a)) ==> (a is Finish ==> t.pending is Idle),
{
}

} // verus!
