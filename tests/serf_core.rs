use serf::dispatch::{goof, handle_request, job_trace, play_list, resume, slam, soft, work, work_bail, work_swap};
use serf::fault::{Fatal, Fault};
use serf::noun::{inc_atom, is_tag, lent, mug, slot, Noun};
use serf::trace::{path_to_cord, play_trace_name, work_trace_name, work_trace_text};
use serf::serf::{Action, Context, Reply, PEEK_AXIS, POKE_AXIS};
use serf::snapshot::{Pma, Snapshot, CURRENT_SNAPSHOT_VERSION, SNAPSHOT_SLOT, SNAPSHOT_VERSION_SLOT};

fn d(n: u8) -> Noun {
    Noun::small(n)
}

fn t(a: Noun, b: Noun) -> Noun {
    Noun::cell(a, b)
}

fn tag(s: &str) -> Noun {
    Noun::atom(s.as_bytes().to_vec())
}

fn list(items: Vec<Noun>) -> Noun {
    let mut out = d(0);
    for n in items.into_iter().rev() {
        out = t(n, out);
    }
    out
}

fn slam_formula(axis: u8) -> Noun {
    // [8 [9 axis 0 2] 9 2 10 [6 0 7] 0 2]
    t(
        d(8),
        t(
            t(d(9), t(d(axis), t(d(0), d(2)))),
            t(d(9), t(d(2), t(d(10), t(t(d(6), t(d(0), d(7))), t(d(0), d(2)))))),
        ),
    )
}

fn fresh() -> Context {
    Context::load(Pma::new(), d(0), false).unwrap()
}

/// A context whose kernel is `arvo` after `n` committed events.
fn at_event(n: u64, arvo: Noun) -> Context {
    let mut pma = Pma::new();
    let h = pma.save_record(&Snapshot { epoch: 0, event_num: n, arvo, cold: d(0) });
    pma.meta_set(SNAPSHOT_VERSION_SLOT, CURRENT_SNAPSHOT_VERSION);
    pma.meta_set(SNAPSHOT_SLOT, h);
    Context::load(pma, d(0), false).unwrap()
}

fn work_writ(job: Noun) -> Noun {
    t(tag("work"), t(d(0), job))
}

fn sample_job() -> Noun {
    // [now wire %tag body]
    t(Noun::atom(vec![0xff, 0x01]), t(list(vec![tag("ames")]), t(tag("hear"), d(9))))
}

#[test]
fn cold_boot_plays_the_lifecycle_and_survives_a_restart() {
    let mut ctx = fresh();
    ctx.ripe();
    let events = list(vec![d(10), d(11), d(12)]);
    let writ = t(tag("play"), t(d(0), events.copy()));
    let act = handle_request(&mut ctx, &writ).unwrap();
    assert_eq!(
        act,
        Action::Interpret {
            subject: events.copy(),
            formula: t(d(2), t(t(d(0), d(3)), t(d(0), d(2)))),
            clear_interrupt: false,
            trace: None
        }
    );
    let a3 = t(tag("arvo"), d(3));
    let gat = t(d(1), t(d(2), a3.copy()));
    assert_eq!(resume(&mut ctx, d(0), d(0), Ok(gat)).unwrap(), Action::Finish);
    assert_eq!(ctx.event_num(), 3);
    let m3 = mug(&a3);
    assert_eq!(ctx.mug(), m3);
    let replies = ctx.take_replies();
    assert_eq!(replies, vec![Reply::Ripe { eve: 0, mug: mug(&d(0)) }, Reply::PlayDone { mug: m3 }]);

    let mut again = Context::load(ctx.into_pma(), d(0), false).unwrap();
    again.ripe();
    assert_eq!(again.take_replies(), vec![Reply::Ripe { eve: 3, mug: m3 }]);
    assert_eq!(again.arvo(), &a3);
}

#[test]
fn normal_poke_commits_and_reports_work_done() {
    let a3 = t(tag("arvo"), d(3));
    let mut ctx = at_event(3, a3.copy());
    let job = sample_job();
    let act = handle_request(&mut ctx, &work_writ(job.copy())).unwrap();
    assert_eq!(
        act,
        Action::Interpret { subject: t(a3, job), formula: slam_formula(POKE_AXIS), clear_interrupt: false, trace: None }
    );
    let a4 = t(tag("arvo"), d(4));
    let fec = list(vec![tag("give")]);
    assert_eq!(resume(&mut ctx, d(0), d(0), Ok(t(fec.copy(), a4.copy()))).unwrap(), Action::Finish);
    assert_eq!(ctx.take_replies(), vec![Reply::WorkDone { eve: 4, mug: mug(&a4), fec }]);
    let reloaded = Context::load(ctx.into_pma(), d(0), false).unwrap();
    assert_eq!(reloaded.event_num(), 4);
    assert_eq!(reloaded.arvo(), &a4);
}

fn crud_for(job: &Noun, g: Noun) -> Noun {
    // [now+1 [0 %arvo 0] %crud goof rest]
    let rest = slot(job, 3).unwrap();
    t(
        Noun::atom(vec![0x00, 0x02]),
        t(t(d(0), t(tag("arvo"), d(0))), t(tag("crud"), t(g, rest))),
    )
}

#[test]
fn crud_retry_commits_the_substitute() {
    let a3 = t(tag("arvo"), d(3));
    let mut ctx = at_event(3, a3.copy());
    let job = sample_job();
    handle_request(&mut ctx, &work_writ(job.copy())).unwrap();
    let trace = list(vec![tag("oops")]);
    let act = resume(&mut ctx, d(0), d(0), Err(Fault::Deterministic(trace.copy()))).unwrap();
    let g = t(tag("exit"), trace);
    let crud = crud_for(&job, g);
    assert_eq!(
        act,
        Action::Interpret {
            subject: t(a3, crud.copy()),
            formula: slam_formula(POKE_AXIS),
            clear_interrupt: true,
            trace: None
        }
    );
    assert_eq!(ctx.event_num(), 3);
    let a4 = t(tag("arvo"), d(44));
    let fec = list(vec![tag("crud")]);
    assert_eq!(resume(&mut ctx, d(0), d(0), Ok(t(fec.copy(), a4.copy()))).unwrap(), Action::Finish);
    assert_eq!(ctx.take_replies(), vec![Reply::WorkSwap { eve: 4, mug: mug(&a4), job: crud, fec }]);
    assert_eq!(ctx.event_num(), 4);
}

#[test]
fn crud_failure_reports_both_goofs_and_commits_nothing() {
    let a3 = t(tag("arvo"), d(3));
    let mut ctx = at_event(3, a3);
    let records = ctx.pma().len();
    handle_request(&mut ctx, &work_writ(sample_job())).unwrap();
    let t1 = list(vec![tag("one")]);
    let t2 = list(vec![tag("two")]);
    resume(&mut ctx, d(0), d(0), Err(Fault::NonDeterministic(t1.copy()))).unwrap();
    assert_eq!(resume(&mut ctx, d(0), d(0), Err(Fault::Deterministic(t2.copy()))).unwrap(), Action::Finish);
    let lud = t(t(tag("exit"), t2), t(t(tag("exit"), t1), d(0)));
    assert_eq!(ctx.take_replies(), vec![Reply::WorkBail { lud }]);
    assert_eq!(ctx.event_num(), 3);
    assert_eq!(ctx.pma().len(), records);
}

#[test]
fn save_forces_durability_that_survives_a_crash() {
    let mut ctx = at_event(3, t(tag("arvo"), d(3)));
    handle_request(&mut ctx, &work_writ(sample_job())).unwrap();
    let a4 = t(tag("arvo"), d(4));
    resume(&mut ctx, d(0), d(0), Ok(t(d(0), a4.copy()))).unwrap();
    // Without a save, a crash loses the event.
    let lost = Context::load(ctx.pma().after_crash(), d(0), false).unwrap();
    assert_eq!(lost.event_num(), 0);
    let live = t(tag("live"), t(tag("save"), d(0)));
    assert_eq!(handle_request(&mut ctx, &live).unwrap(), Action::Finish);
    assert_eq!(ctx.take_replies().last(), Some(&Reply::Live));
    let kept = Context::load(ctx.pma().after_crash(), d(0), false).unwrap();
    assert_eq!(kept.event_num(), 4);
    assert_eq!(kept.arvo(), &a4);
}

#[test]
fn interrupted_job_goes_through_the_crud_path_with_the_flag_cleared() {
    let mut ctx = at_event(3, t(tag("arvo"), d(3)));
    handle_request(&mut ctx, &work_writ(sample_job())).unwrap();
    let intr = list(vec![tag("intr")]);
    match resume(&mut ctx, d(0), d(0), Err(Fault::Deterministic(intr))).unwrap() {
        Action::Interpret { clear_interrupt, .. } => assert!(clear_interrupt),
        Action::Finish => panic!("expected the crud event"),
    }
}

#[test]
fn live_without_save_is_acknowledged_and_does_not_sync() {
    let mut ctx = fresh();
    let writ = t(tag("live"), t(tag("cram"), d(0)));
    assert_eq!(handle_request(&mut ctx, &writ).unwrap(), Action::Finish);
    assert_eq!(ctx.take_replies(), vec![Reply::Live]);
}

#[test]
fn peek_slams_the_scry_gate_and_answers() {
    let a = t(tag("arvo"), d(3));
    let mut ctx = at_event(3, a.copy());
    let ovo = list(vec![tag("cx")]);
    let act = handle_request(&mut ctx, &t(tag("peek"), t(d(0), ovo.copy()))).unwrap();
    assert_eq!(act, Action::Interpret { subject: t(a, ovo), formula: slam_formula(PEEK_AXIS), clear_interrupt: false, trace: None });
    assert_eq!(resume(&mut ctx, d(0), d(0), Ok(d(7))).unwrap(), Action::Finish);
    assert_eq!(ctx.take_replies(), vec![Reply::PeekDone { dat: d(7) }]);
    assert_eq!(ctx.event_num(), 3);
}

#[test]
fn failed_peek_is_fatal() {
    let mut ctx = at_event(3, d(3));
    handle_request(&mut ctx, &t(tag("peek"), t(d(0), d(1)))).unwrap();
    assert_eq!(resume(&mut ctx, d(0), d(0), Err(Fault::Deterministic(d(0)))), Err(Fatal::PeekFailed));
}

#[test]
fn replay_after_boot_plays_each_event() {
    let mut ctx = at_event(2, d(2));
    let writ = t(tag("play"), t(d(0), list(vec![d(20), d(21)])));
    let act = handle_request(&mut ctx, &writ).unwrap();
    assert_eq!(act, Action::Interpret { subject: t(d(2), d(20)), formula: slam_formula(POKE_AXIS), clear_interrupt: false, trace: None });
    let act = resume(&mut ctx, d(0), d(0), Ok(t(d(0), d(3)))).unwrap();
    assert_eq!(act, Action::Interpret { subject: t(d(3), d(21)), formula: slam_formula(POKE_AXIS), clear_interrupt: false, trace: None });
    assert_eq!(resume(&mut ctx, d(0), d(0), Ok(t(d(0), d(4)))).unwrap(), Action::Finish);
    assert_eq!(ctx.event_num(), 4);
    assert_eq!(ctx.take_replies(), vec![Reply::PlayDone { mug: mug(&d(4)) }]);
}

#[test]
fn failed_replay_bails_with_the_goof() {
    let mut ctx = at_event(2, d(2));
    handle_request(&mut ctx, &t(tag("play"), t(d(0), list(vec![d(20)])))).unwrap();
    resume(&mut ctx, d(0), d(0), Err(Fault::Deterministic(d(5)))).unwrap();
    assert_eq!(
        ctx.take_replies(),
        vec![Reply::PlayBail { eve: 2, mug: mug(&d(2)), dud: t(tag("exit"), d(5)) }]
    );
    assert_eq!(ctx.event_num(), 2);
}

#[test]
fn scry_outside_virtual_nock_is_fatal() {
    let mut ctx = at_event(3, d(3));
    handle_request(&mut ctx, &work_writ(sample_job())).unwrap();
    assert_eq!(resume(&mut ctx, d(0), d(0), Err(Fault::ScryBlocked(d(1)))), Err(Fatal::UnexpectedScry));
    assert_eq!(soft(Err(Fault::ScryCrashed(d(1)))), Err(Fatal::UnexpectedScry));
}

#[test]
fn malformed_requests_are_fatal() {
    let mut ctx = fresh();
    assert_eq!(handle_request(&mut ctx, &t(tag("what"), d(0))), Err(Fatal::UnknownTag));
    assert_eq!(handle_request(&mut ctx, &d(3)), Err(Fatal::MalformedRequest));
    assert_eq!(handle_request(&mut ctx, &t(t(d(1), d(2)), d(0))), Err(Fatal::MalformedRequest));
    assert_eq!(handle_request(&mut ctx, &t(tag("work"), d(0))), Err(Fatal::MalformedRequest));
    assert_eq!(handle_request(&mut ctx, &t(tag("live"), t(t(d(1), d(1)), d(0)))), Err(Fatal::MalformedRequest));
}

#[test]
fn out_of_order_steps_are_fatal() {
    let mut ctx = fresh();
    assert_eq!(resume(&mut ctx, d(0), d(0), Ok(d(0))), Err(Fatal::OutOfOrder));
    handle_request(&mut ctx, &t(tag("peek"), t(d(0), d(1)))).unwrap();
    assert_eq!(handle_request(&mut ctx, &t(tag("peek"), t(d(0), d(1)))), Err(Fatal::OutOfOrder));
}

#[test]
fn atom_product_is_fatal() {
    let mut ctx = at_event(3, d(3));
    handle_request(&mut ctx, &work_writ(sample_job())).unwrap();
    assert_eq!(resume(&mut ctx, d(0), d(0), Ok(d(1))), Err(Fatal::MalformedResult));
}

#[test]
fn job_without_atom_head_cannot_be_swapped() {
    let mut ctx = at_event(3, d(3));
    assert_eq!(work_swap(&mut ctx, d(4), d(0)), Err(Fatal::MalformedJob));
    assert_eq!(work_swap(&mut ctx, t(t(d(1), d(1)), d(0)), d(0)), Err(Fatal::MalformedJob));
}

#[test]
fn unsupported_and_corrupt_arenas_are_refused() {
    let mut pma = Pma::new();
    pma.meta_set(SNAPSHOT_VERSION_SLOT, 2);
    assert!(matches!(Context::load(pma, d(0), false), Err(Fatal::UnsupportedVersion)));
    let mut pma = Pma::new();
    pma.meta_set(SNAPSHOT_VERSION_SLOT, CURRENT_SNAPSHOT_VERSION);
    pma.meta_set(SNAPSHOT_SLOT, 5);
    assert!(matches!(Context::load(pma, d(0), false), Err(Fatal::CorruptSnapshot)));
}

#[test]
fn save_then_load_is_the_identity() {
    let mut ctx = at_event(7, t(d(1), d(2)));
    ctx.save();
    let back = ctx.pma().load_snapshot().unwrap().unwrap();
    assert_eq!(back, Snapshot { epoch: 0, event_num: 7, arvo: t(d(1), d(2)), cold: d(0) });
}

#[test]
fn event_update_then_reload_gives_the_committed_state() {
    let mut ctx = at_event(1, d(1));
    ctx.event_update(2, t(d(9), d(9)));
    assert_eq!(ctx.mug(), mug(&t(d(9), d(9))));
    let back = Context::load(ctx.into_pma(), d(0), false).unwrap();
    assert_eq!((back.epoch(), back.event_num(), back.arvo()), (0, 2, &t(d(9), d(9))));
    assert_eq!(back.cold(), &d(0));
}

#[test]
fn fresh_context_is_initial() {
    let ctx = fresh();
    assert_eq!((ctx.epoch(), ctx.event_num(), ctx.arvo()), (0, 0, &d(0)));
    assert_eq!(ctx.mug(), mug(&d(0)));
}

#[test]
fn next_takes_requests_in_order() {
    let mut ctx = fresh();
    assert_eq!(ctx.next(), None);
    ctx.deliver(d(1));
    ctx.deliver(d(2));
    assert_eq!(ctx.next(), Some(d(1)));
    assert_eq!(ctx.next(), Some(d(2)));
    assert_eq!(ctx.next(), None);
}

#[test]
fn replies_carry_the_current_state() {
    let mut ctx = at_event(5, d(5));
    let m = mug(&d(5));
    ctx.peek_done(d(1));
    ctx.play_done();
    ctx.play_bail(d(2));
    ctx.work_done(d(3));
    ctx.work_swap(d(4), d(6));
    work_bail(&mut ctx, d(7), d(8));
    assert_eq!(
        ctx.take_replies(),
        vec![
            Reply::PeekDone { dat: d(1) },
            Reply::PlayDone { mug: m },
            Reply::PlayBail { eve: 5, mug: m, dud: d(2) },
            Reply::WorkDone { eve: 5, mug: m, fec: d(3) },
            Reply::WorkSwap { eve: 5, mug: m, job: d(4), fec: d(6) },
            Reply::WorkBail { lud: t(d(7), t(d(8), d(0))) },
        ]
    );
}

#[test]
fn sync_makes_the_arena_durable() {
    let mut ctx = at_event(1, d(1));
    ctx.event_update(2, d(2));
    ctx.sync();
    assert_eq!(Context::load(ctx.pma().after_crash(), d(0), false).unwrap().event_num(), 2);
}

#[test]
fn play_list_on_empty_list_is_done() {
    let mut ctx = at_event(1, d(1));
    assert_eq!(play_list(&mut ctx, d(0)), Action::Finish);
    assert_eq!(ctx.take_replies(), vec![Reply::PlayDone { mug: mug(&d(1)) }]);
}

#[test]
fn slam_builds_subject_and_formula() {
    let ctx = at_event(1, d(1));
    assert_eq!(
        slam(&ctx, 23, d(5), None),
        Action::Interpret { subject: t(d(1), d(5)), formula: slam_formula(23), clear_interrupt: false, trace: None }
    );
}

#[test]
fn goof_wraps_a_tang() {
    assert_eq!(goof(d(1)), t(tag("exit"), d(1)));
}

#[test]
fn slot_follows_axes() {
    let n = t(d(1), t(d(2), d(3)));
    assert_eq!(slot(&n, 1), Some(n.copy()));
    assert_eq!(slot(&n, 2), Some(d(1)));
    assert_eq!(slot(&n, 6), Some(d(2)));
    assert_eq!(slot(&n, 7), Some(d(3)));
    assert_eq!(slot(&n, 4), None);
    assert_eq!(slot(&n, 0), None);
}

#[test]
fn inc_carries_through_full_bytes() {
    assert_eq!(inc_atom(&vec![]), vec![1]);
    assert_eq!(inc_atom(&vec![0xff, 0xff]), vec![0, 0, 1]);
    assert_eq!(inc_atom(&vec![0xff, 0x01]), vec![0, 2]);
    assert_eq!(inc_atom(&vec![5]), vec![6]);
}

#[test]
fn lent_counts_lists() {
    assert_eq!(lent(&list(vec![d(1), d(2), d(3)])), Some(3));
    assert_eq!(lent(&d(0)), Some(0));
    assert_eq!(lent(&t(d(1), d(1))), None);
}

#[test]
fn tags_compare_by_bytes() {
    assert!(is_tag(&tag("work"), b"work"));
    assert!(!is_tag(&tag("work"), b"wor"));
    assert!(!is_tag(&t(d(1), d(1)), b"work"));
}

#[test]
fn mug_is_structural_and_copy_keeps_it() {
    let n = t(tag("arvo"), t(d(3), Noun::atom(vec![1, 2, 3])));
    assert_eq!(mug(&n), mug(&n.copy()));
    assert_ne!(mug(&t(d(1), d(2))), mug(&t(d(2), d(1))));
    // FNV-1a over no bytes is its offset basis.
    assert_eq!(mug(&d(0)), 0x811c9dc5);
    assert_eq!(mug(&d(97)), 0xe40c292c);
}

fn traced_at_event(n: u64, arvo: Noun) -> Context {
    let ctx = at_event(n, arvo);
    Context::load(ctx.into_pma(), d(0), true).unwrap()
}

fn trace_of(a: &Action) -> Option<String> {
    match a {
        Action::Interpret { trace: Some(t), .. } => Some(String::from_utf8(t.clone()).unwrap()),
        _ => None,
    }
}

#[test]
fn traced_requests_carry_their_names() {
    let mut ctx = traced_at_event(3, d(3));
    let act = handle_request(&mut ctx, &work_writ(sample_job())).unwrap();
    assert_eq!(trace_of(&act).as_deref(), Some("work [/ames hear]"));
    let act = resume(&mut ctx, d(0), d(0), Err(Fault::Deterministic(d(0)))).unwrap();
    assert_eq!(trace_of(&act).as_deref(), Some("work [//arvo crud]"));
    resume(&mut ctx, d(0), d(0), Ok(t(d(0), d(4)))).unwrap();
    let act = handle_request(&mut ctx, &t(tag("peek"), t(d(0), d(1)))).unwrap();
    assert_eq!(trace_of(&act).as_deref(), Some("peek"));
    resume(&mut ctx, d(0), d(0), Ok(d(0))).unwrap();
    let act = handle_request(&mut ctx, &t(tag("play"), t(d(0), list(vec![d(1)])))).unwrap();
    assert_eq!(trace_of(&act).as_deref(), Some("play [4]"));
}

#[test]
fn traced_boot_is_named_boot() {
    let mut ctx = Context::load(Pma::new(), d(0), true).unwrap();
    let act = handle_request(&mut ctx, &t(tag("play"), t(d(0), list(vec![d(1)])))).unwrap();
    assert_eq!(trace_of(&act).as_deref(), Some("boot"));
}

#[test]
fn traced_job_without_tag_is_fatal() {
    let mut ctx = traced_at_event(3, d(3));
    assert!(matches!(work(&mut ctx, t(d(1), d(2))), Err(Fatal::MalformedJob)));
    let mut quiet = at_event(3, d(3));
    assert!(work(&mut quiet, t(d(1), d(2))).is_ok());
}

#[test]
fn trace_names_cut_invalid_utf8() {
    let wire = list(vec![Noun::atom(vec![b'a', 0xff, b'b'])]);
    assert_eq!(path_to_cord(&wire), vec![b'/', b'a', 0xff, b'b']);
    assert_eq!(work_trace_name(&wire, &[b'o', b'k', 0xc3]), b"work [/a ok]".to_vec());
    assert_eq!(work_trace_text(b"/x/y", 2, b"tag", 3), b"work [/x tag]".to_vec());
    assert_eq!(play_trace_name(0), b"play [0]".to_vec());
    assert_eq!(play_trace_name(1234), b"play [1234]".to_vec());
    assert_eq!(job_trace(&d(1)), None);
}
