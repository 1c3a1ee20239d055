use vstd::prelude::*;
use super::continuous::{ContinuousView, PhaseView};
use super::error::ErrorView;
use super::oneshot::{OneshotView, StageView};
use super::protocol::{AnswerView, CallView};

verus! {

/// What the host sees while the target is the active connection and is up and the
/// session is logged in.
pub open spec fn in_desired_state(target: Seq<char>, answer: AnswerView) -> bool {
    match answer {
        AnswerView::Active(active) => active == Some(target),
        AnswerView::Connected(up) => up,
        AnswerView::Logged(logged) => logged,
        _ => true,
    }
}

/// Idempotence. While the target is the active connection and the session is logged
/// in, a pass asks its three questions and ends in success: it names no connect, no
/// disconnect, no login and no logout.
pub proof fn lemma_pass_is_idempotent(target: Seq<char>, answers: Seq<AnswerView>)
    requires
        OneshotView::start(target).after(answers) is Some,
        forall|k: int| 0 <= k < answers.len() ==> in_desired_state(target, #[trigger] answers[k]),
    ensures
        answers.len() <= 3,
        answers.len() == 3 <==> OneshotView::start(target).after(answers)->0.outcome() is Some,
        answers.len() == 3 ==> OneshotView::start(target).after(answers)->0.outcome() == Some(
            Ok::<(), ErrorView>(()),
        ),
        forall|k: int|
            0 <= k <= answers.len() ==> (#[trigger] OneshotView::start(target).call(answers, k)
                matches Some(call) ==> !call.alters_network() && !call.alters_session()),
{
    let start = OneshotView::start(target);
    let n = answers.len() as int;
    assert(start.after(answers.take(0)) == Some(start));
    if n >= 1 {
        start.lemma_after_prefix(answers, 1);
        start.lemma_after_step(answers, 0);
        assert(in_desired_state(target, answers[0]));
        assert(start.after(answers.take(1))->0.stage == StageView::IsConnected);
    }
    if n >= 2 {
        start.lemma_after_prefix(answers, 2);
        start.lemma_after_step(answers, 1);
        assert(in_desired_state(target, answers[1]));
        assert(start.after(answers.take(2))->0.stage == StageView::IsLogged);
    }
    if n >= 3 {
        start.lemma_after_prefix(answers, 3);
        start.lemma_after_step(answers, 2);
        assert(in_desired_state(target, answers[2]));
        assert(start.after(answers.take(3))->0.stage == StageView::Finished(Ok(())));
    }
    if n >= 4 {
        start.lemma_after_prefix(answers, 4);
        start.lemma_after_step(answers, 3);
    }
    assert(answers.take(n) =~= answers);
    assert forall|k: int| 0 <= k <= answers.len() implies (#[trigger] start.call(answers, k)
        matches Some(call) ==> !call.alters_network() && !call.alters_session()) by {
        assert(k == 0 || k == 1 || k == 2 || k == 3);
    }
}

/// No retry. Every answer takes a pass further, so a pass takes six answers at most:
/// nothing is asked or tried a second time.
pub proof fn lemma_pass_takes_six_answers_at_most(target: Seq<char>, answers: Seq<AnswerView>)
    requires
        OneshotView::start(target).after(answers) is Some,
    ensures
        answers.len() <= 6,
        answers.len() == 6 ==> OneshotView::start(target).after(answers)->0.outcome() is Some,
{
    let start = OneshotView::start(target);
    assert(start.after(answers.take(0)) == Some(start));
    start.lemma_progress(answers, 0, answers.len() as int);
    assert(answers.take(answers.len() as int) =~= answers);
}

/// Ordering. Where a connection other than the target is active, the second call of
/// the pass is the disconnect of that connection. It is the only disconnect of the
/// pass, and a connect, which is always one to the target, comes only after it.
pub proof fn lemma_disconnect_comes_first(
    target: Seq<char>,
    other: Seq<char>,
    answers: Seq<AnswerView>,
)
    requires
        OneshotView::start(target).after(answers) is Some,
        answers.len() >= 1,
        answers[0] == AnswerView::Active(Some(other)),
        other != target,
    ensures
        OneshotView::start(target).call(answers, 1) == Some(CallView::Disconnect(other)),
        forall|k: int|
            0 <= k <= answers.len() && k != 1 ==> !(#[trigger] OneshotView::start(target).call(
                answers,
                k,
            ) matches Some(call) && call is Disconnect),
        forall|k: int|
            0 <= k <= answers.len() ==> (#[trigger] OneshotView::start(target).call(answers, k)
                matches Some(call) ==> (call is Connect ==> k > 1 && call == CallView::Connect(
                target,
            ))),
{
    let start = OneshotView::start(target);
    assert(start.after(answers.take(0)) == Some(start));
    start.lemma_after_prefix(answers, 1);
    start.lemma_after_step(answers, 0);
    assert(start.at(answers, 1).stage == StageView::Disconnect(other));
    assert forall|k: int| 0 <= k <= answers.len() implies (k != 1 ==> !(#[trigger] start.call(
        answers,
        k,
    ) matches Some(call) && call is Disconnect)) && (start.call(answers, k) matches Some(call)
        ==> (call is Connect ==> k > 1 && call == CallView::Connect(target))) by {
        start.lemma_after_prefix(answers, k);
        if k >= 2 {
            start.lemma_progress(answers, 1, k);
        }
    }
}

/// Ordering. A pass never names a disconnect of its own target, whatever it is told.
pub proof fn lemma_target_is_never_disconnected(target: Seq<char>, answers: Seq<AnswerView>, k: int)
    requires
        OneshotView::start(target).after(answers) is Some,
        0 <= k <= answers.len(),
    ensures
        OneshotView::start(target).call(answers, k) != Some(CallView::Disconnect(target)),
{
    let start = OneshotView::start(target);
    start.lemma_after_prefix(answers, k);
    if k == 0 {
        assert(start.after(answers.take(0)) == Some(start));
    } else {
        start.lemma_after_prefix(answers, k - 1);
        start.lemma_after_step(answers, k - 1);
    }
}

/// Short circuit. Once a disconnect or a connect has failed the pass is over with that
/// failure: the failure is the last answer that it takes, and from first to last it
/// names no call on the session.
pub proof fn lemma_failed_connection_skips_session(
    target: Seq<char>,
    answers: Seq<AnswerView>,
    j: int,
)
    requires
        OneshotView::start(target).after(answers) is Some,
        0 <= j < answers.len(),
        answers[j] matches AnswerView::Connection(Err(_)),
    ensures
        j == answers.len() - 1,
        OneshotView::start(target).after(answers)->0.outcome() == Some(
            Err::<(), ErrorView>(ErrorView::Connection(answers[j]->Connection_0->Err_0)),
        ),
        forall|k: int|
            0 <= k <= answers.len() ==> !(#[trigger] OneshotView::start(target).call(answers, k)
                matches Some(call) && call.on_session()),
{
    let start = OneshotView::start(target);
    let n = answers.len() as int;
    start.lemma_after_prefix(answers, j);
    start.lemma_after_prefix(answers, j + 1);
    start.lemma_after_step(answers, j);
    assert(start.at(answers, j + 1).stage is Finished);
    if j + 1 < n {
        start.lemma_after_prefix(answers, j + 2);
        start.lemma_after_step(answers, j + 1);
    }
    assert(answers.take(n) =~= answers);
    assert forall|k: int| 0 <= k <= answers.len() implies !(#[trigger] start.call(answers, k)
        matches Some(call) && call.on_session()) by {
        start.lemma_after_prefix(answers, k);
        if k <= j {
            start.lemma_progress(answers, k, j);
        }
    }
}

/// Whether the answer with which the state `before` was left is the success of a pass.
pub open spec fn pass_succeeded(before: ContinuousView, answer: AnswerView) -> bool {
    before.phase matches PhaseView::Reconcile(stage) && (OneshotView {
        target: before.target,
        stage,
    }).next(answer) matches Some(pass) && pass.outcome() == Some(Ok::<(), ErrorView>(()))
}

/// Fresh observation. A cycle begins by asking which connection is active: what an
/// earlier cycle was told is not used again.
pub proof fn lemma_cycle_begins_with_observation(
    target: Seq<char>,
    interval: u64,
    answers: Seq<AnswerView>,
    k: int,
)
    requires
        ContinuousView::start(target, interval).after(answers) is Some,
        1 <= k <= answers.len(),
        answers[k - 1] == AnswerView::Slept,
    ensures
        ContinuousView::start(target, interval).at(answers, k - 1).phase is Idle,
        ContinuousView::start(target, interval).at(answers, k).phase == PhaseView::Reconcile(
            StageView::Active,
        ),
        ContinuousView::start(target, interval).call(answers, k) == Some(CallView::Active),
{
    let start = ContinuousView::start(target, interval);
    start.lemma_after_prefix(answers, k);
    start.lemma_after_prefix(answers, k - 1);
    start.lemma_after_step(answers, k - 1);
}

/// Probing. The internet is probed only right after a pass has succeeded, or right
/// after the login that ends a recovery: never before a pass, and never after a pass
/// that failed.
pub proof fn lemma_probe_follows_success(
    target: Seq<char>,
    interval: u64,
    answers: Seq<AnswerView>,
    k: int,
)
    requires
        ContinuousView::start(target, interval).after(answers) is Some,
        0 <= k <= answers.len(),
        ContinuousView::start(target, interval).call(answers, k) == Some(CallView::Probe),
    ensures
        k >= 2,
        pass_succeeded(ContinuousView::start(target, interval).at(answers, k - 1), answers[k - 1])
            || ContinuousView::start(target, interval).at(answers, k - 1).phase is Login,
{
    let start = ContinuousView::start(target, interval);
    start.lemma_after_prefix(answers, k);
    start.lemma_stays_well_formed(answers, k);
    if k == 0 {
        assert(start.after(answers.take(0)) == Some(start));
    } else {
        start.lemma_after_prefix(answers, k - 1);
        start.lemma_after_step(answers, k - 1);
        start.lemma_stays_well_formed(answers, k - 1);
        if k == 1 {
            assert(start.after(answers.take(0)) == Some(start));
        }
    }
}

/// Recovery. The supervisor enters RECOVER with its `k`-th answer if and only if the
/// answer before it was the success of a pass and the `k`-th answer itself, which is
/// then that of the probe that follows, says that the internet cannot be reached.
pub proof fn lemma_recover_entered_iff(
    target: Seq<char>,
    interval: u64,
    answers: Seq<AnswerView>,
    k: int,
)
    requires
        ContinuousView::start(target, interval).after(answers) is Some,
        1 <= k <= answers.len(),
    ensures
        ({
            let start = ContinuousView::start(target, interval);
            start.at(answers, k).phase.in_recover() && !start.at(answers, k - 1).phase.in_recover()
        }) <==> ({
            let start = ContinuousView::start(target, interval);
            k >= 2 && pass_succeeded(start.at(answers, k - 2), answers[k - 2]) && answers[k - 1]
                == AnswerView::Reached(false)
        }),
{
    let start = ContinuousView::start(target, interval);
    start.lemma_after_prefix(answers, k);
    start.lemma_after_prefix(answers, k - 1);
    start.lemma_after_step(answers, k - 1);
    if k >= 2 {
        start.lemma_after_prefix(answers, k - 2);
        start.lemma_after_step(answers, k - 2);
    } else {
        assert(start.after(answers.take(0)) == Some(start));
    }
}

/// Restoration. A supervisor that has stopped made exactly one restoration attempt: its
/// last call. That call is made for the connection that the very first answer named,
/// a connect to it, or a disconnect of the target where it named none. The failure
/// reported is the one that led to the restoration, or the restoration's own.
pub proof fn lemma_one_restoration(target: Seq<char>, interval: u64, answers: Seq<AnswerView>)
    requires
        ContinuousView::start(target, interval).after(answers) matches Some(end)
            && end.phase is Finished,
    ensures
        answers.len() >= 2,
        answers[0] is Active,
        ({
            let start = ContinuousView::start(target, interval);
            let last = answers.len() - 1;
            &&& start.at(answers, last).phase is Restore
            &&& start.call(answers, last) == Some(
                match answers[0]->Active_0 {
                    Some(original) => CallView::Connect(original),
                    None => CallView::Disconnect(target),
                },
            )
            &&& forall|k: int| 0 <= k < last ==> !(#[trigger] start.at(answers, k).phase is Restore)
            &&& forall|k: int| 0 <= k <= last ==> !(#[trigger] start.at(answers, k).phase is Finished)
            &&& start.after(answers)->0.outcome() == Some(
                match answers[last] {
                    AnswerView::Connection(Err(e)) => ErrorView::Connection(e),
                    _ => start.at(answers, last).phase->Restore_0,
                },
            )
        }),
{
    let start = ContinuousView::start(target, interval);
    let n = answers.len() as int;
    assert(answers.take(n) =~= answers);
    assert(start.after(answers.take(0)) == Some(start));
    assert(n >= 1);
    start.lemma_after_prefix(answers, n - 1);
    start.lemma_after_step(answers, n - 1);
    assert(start.at(answers, n - 1).phase is Restore);
    start.lemma_original_is_kept(answers, n - 1);
    assert forall|k: int| 0 <= k < n - 1 implies !(#[trigger] start.at(answers, k).phase is Restore)
        && !(start.at(answers, k).phase is Finished) by {
        start.lemma_after_prefix(answers, k);
        start.lemma_after_prefix(answers, k + 1);
        start.lemma_after_step(answers, k);
        start.lemma_after_prefix(answers, k + 2);
        start.lemma_after_step(answers, k + 1);
    }
}

} // verus!
