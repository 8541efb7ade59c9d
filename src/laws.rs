use crate::feed::{
    expects, initial, next, status_payload, with_phase, well_formed,
    ActionModel, BroadcasterModel, EventModel, PhaseModel,
};
use crate::error::BroadcastError;
use crate::message::message_text;
use crate::settings::SettingsModel;
use vstd::arithmetic::div_mod::{lemma_fundamental_div_mod, lemma_fundamental_div_mod_converse};
use vstd::prelude::*;

verus! {

/// The report of a world in which every send and every wait succeeds.
pub open spec fn smooth_reply(a: ActionModel) -> EventModel {
    match a {
        ActionModel::Send(_) => EventModel::Sent,
        ActionModel::Sleep(_) => EventModel::Woke,
        _ => EventModel::Resume,
    }
}

/// The state and action after step `n` (counting from 0) of a feed started
/// in `m`, when every send and every wait succeeds.
pub open spec fn smooth_run(m: BroadcasterModel, n: nat) -> (BroadcasterModel, ActionModel)
    decreases n,
{
    if n == 0 {
        next(m, EventModel::Resume)
    } else {
        let prev = smooth_run(m, (n - 1) as nat);
        next(prev.0, smooth_reply(prev.1))
    }
}

proof fn lemma_next_index(n: nat, len: nat)
    requires
        len > 0,
    ensures
        (n % len) + 1 < len ==> (n + 1) % len == (n % len) + 1,
        (n % len) + 1 >= len ==> (n + 1) % len == 0,
{
    let q = n as int / len as int;
    let k = n as int % len as int;
    lemma_fundamental_div_mod(n as int, len as int);
    assert(n == q * len + k) by (nonlinear_arith)
        requires
            n == len * q + k,
    ;
    if k + 1 < len {
        lemma_fundamental_div_mod_converse(n as int + 1, len as int, q, k + 1);
    } else {
        assert(n + 1 == (q + 1) * len + 0) by (nonlinear_arith)
            requires
                n == q * len + k,
                k + 1 == len,
        ;
        lemma_fundamental_div_mod_converse(n as int + 1, len as int, q + 1, 0);
    }
}

proof fn lemma_smooth_states(s: SettingsModel, n: nat)
    requires
        s.lyrics.len() > 0,
        !s.reload,
    ensures
        smooth_run(initial(s), 2 * n).0 == with_phase(
            initial(s),
            PhaseModel::Sending(n % s.lyrics.len()),
        ),
        smooth_run(initial(s), 2 * n + 1).0 == with_phase(
            initial(s),
            PhaseModel::Sleeping(n % s.lyrics.len()),
        ),
    decreases n,
{
    let m = initial(s);
    let len = s.lyrics.len();
    if n > 0 {
        lemma_smooth_states(s, (n - 1) as nat);
        lemma_next_index((n - 1) as nat, len);
        assert(smooth_run(m, 2 * n) == next(
            smooth_run(m, (2 * (n - 1) + 1) as nat).0,
            EventModel::Woke,
        ));
    }
    assert(smooth_run(m, 2 * n + 1) == next(smooth_run(m, 2 * n).0, EventModel::Sent));
}

/// With reload off and at least one lyric, and every send and wait
/// succeeding, the feed sends the lyrics in order, each between the prefix
/// and the suffix, over and over, and waits the interval after every send.
pub proof fn lemma_cyclic_messages(s: SettingsModel, n: nat)
    requires
        s.lyrics.len() > 0,
        !s.reload,
    ensures
        smooth_run(initial(s), 2 * n).1 == ActionModel::Send(
            status_payload(message_text(s.prefix, s.lyrics[(n % s.lyrics.len()) as int], s.suffix)),
        ),
        smooth_run(initial(s), 2 * n + 1).1 == ActionModel::Sleep(s.interval),
{
    let m = initial(s);
    lemma_smooth_states(s, n);
    if n > 0 {
        lemma_smooth_states(s, (n - 1) as nat);
    }
    assert(smooth_run(m, 2 * n + 1) == next(smooth_run(m, 2 * n).0, EventModel::Sent));
}

/// With no lyrics no step ever sends or waits, and the lyrics stay empty; a
/// pass re-loads first when reload is on and is over at once otherwise, so
/// the next pass follows without any wait.
pub proof fn lemma_empty_lyrics_never_send(m: BroadcasterModel, e: EventModel)
    requires
        well_formed(m),
        m.lyrics.len() == 0,
    ensures
        !(next(m, e).1 is Send),
        !(next(m, e).1 is Sleep),
        next(m, e).0.lyrics == m.lyrics,
        well_formed(next(m, e).0),
        m.phase == PhaseModel::PassStart && e == EventModel::Resume ==> next(m, e).1 == (if m.reload {
            ActionModel::Reload
        } else {
            ActionModel::Idle
        }),
        m.phase == PhaseModel::PassStart && e == EventModel::Resume && !m.reload ==> next(m, e).0
            == m,
        m.phase == PhaseModel::Reloading && e is Reloaded ==> next(m, e).1 == ActionModel::Idle
            && next(m, e).0.phase == PhaseModel::PassStart,
{
}

/// Re-loaded settings give the interval, prefix and suffix of the pass that
/// follows, and nothing else: the lyrics and the reload flag stay those of
/// the base settings. The first message of the pass already uses the new
/// prefix and suffix, and the wait after it the new interval.
pub proof fn lemma_reload_applies(m: BroadcasterModel, s: SettingsModel)
    requires
        well_formed(m),
        m.phase == PhaseModel::Reloading,
    ensures
        next(m, EventModel::Reloaded(s)).0.lyrics == m.lyrics,
        next(m, EventModel::Reloaded(s)).0.reload == m.reload,
        next(m, EventModel::Reloaded(s)).0.interval == s.interval,
        next(m, EventModel::Reloaded(s)).0.prefix == s.prefix,
        next(m, EventModel::Reloaded(s)).0.suffix == s.suffix,
        m.lyrics.len() > 0 ==> next(m, EventModel::Reloaded(s)).1 == ActionModel::Send(
            status_payload(message_text(s.prefix, m.lyrics[0], s.suffix)),
        ),
        m.lyrics.len() > 0 ==> next(next(m, EventModel::Reloaded(s)).0, EventModel::Sent).1
            == ActionModel::Sleep(s.interval),
{
}

/// Between two re-loads nothing changes the lyrics, the interval, the prefix
/// or the suffix, and every message and wait uses the ones in effect: a
/// message carries the lyric of its position between the prefix and suffix,
/// and a wait lasts the interval.
pub proof fn lemma_settings_kept_between_reloads(m: BroadcasterModel, e: EventModel)
    requires
        well_formed(m),
        !(e is Reloaded),
    ensures
        well_formed(next(m, e).0),
        next(m, e).0.lyrics == m.lyrics,
        next(m, e).0.reload == m.reload,
        next(m, e).0.interval == m.interval,
        next(m, e).0.prefix == m.prefix,
        next(m, e).0.suffix == m.suffix,
        next(m, e).1 is Sleep ==> next(m, e).1 == ActionModel::Sleep(m.interval),
        forall|i: nat|
            next(m, e).0.phase == PhaseModel::Sending(i) && next(m, e).1 is Send ==> next(m, e).1
                == ActionModel::Send(
                status_payload(message_text(m.prefix, m.lyrics[i as int], m.suffix)),
            ),
{
}

/// A failed send stops the feed for good: it reports the send error, and
/// from then on no event is awaited and none leads to another send, wait or
/// re-load.
pub proof fn lemma_send_failure_is_fatal(m: BroadcasterModel, e: EventModel)
    requires
        well_formed(m),
        m.phase is Sending,
    ensures
        next(m, EventModel::SendFailed) == (
            with_phase(m, PhaseModel::Stopped),
            ActionModel::Stop(BroadcastError::Send),
        ),
        !expects(with_phase(m, PhaseModel::Stopped), e),
        next(with_phase(m, PhaseModel::Stopped), e) == (
            with_phase(m, PhaseModel::Stopped),
            ActionModel::Idle,
        ),
{
}

/// Formatting is plain concatenation with no hidden state: a triple always
/// gives the same text, the lyric standing right after the prefix and the
/// suffix right after the lyric, and so the same message payload.
pub proof fn lemma_format_is_pure(
    prefix: Seq<char>,
    lyric: Seq<char>,
    suffix: Seq<char>,
    first: Seq<char>,
    second: Seq<char>,
)
    requires
        first == message_text(prefix, lyric, suffix),
        second == message_text(prefix, lyric, suffix),
    ensures
        first == second,
        status_payload(first) == status_payload(second),
        first.len() == (prefix.len() + lyric.len()) as int + suffix.len(),
        first.subrange(0, prefix.len() as int) == prefix,
        first.subrange(prefix.len() as int, (prefix.len() + lyric.len()) as int) == lyric,
        first.subrange((prefix.len() + lyric.len()) as int, first.len() as int) == suffix,
{
    assert(first.subrange(0, prefix.len() as int) =~= prefix);
    assert(first.subrange(prefix.len() as int, (prefix.len() + lyric.len()) as int) =~= lyric);
    assert(first.subrange((prefix.len() + lyric.len()) as int, first.len() as int) =~= suffix);
}

/// The state and action after step `n` (counting from 0) of a pass that
/// starts when the settings `s` come back from a re-load in `m`, when every
/// send and every wait succeeds.
pub open spec fn pass_after_reload(m: BroadcasterModel, s: SettingsModel, n: nat) -> (
    BroadcasterModel,
    ActionModel,
)
    decreases n,
{
    if n == 0 {
        next(m, EventModel::Reloaded(s))
    } else {
        let prev = pass_after_reload(m, s, (n - 1) as nat);
        next(prev.0, smooth_reply(prev.1))
    }
}

/// `m` with the interval, prefix and suffix of `s`, in phase `p`.
pub open spec fn reloaded_in(m: BroadcasterModel, s: SettingsModel, p: PhaseModel) -> BroadcasterModel {
    BroadcasterModel { interval: s.interval, prefix: s.prefix, suffix: s.suffix, phase: p, ..m }
}

proof fn lemma_pass_states(m: BroadcasterModel, s: SettingsModel, j: nat)
    requires
        well_formed(m),
        m.phase == PhaseModel::Reloading,
        j < m.lyrics.len(),
    ensures
        pass_after_reload(m, s, 2 * j) == (
            reloaded_in(m, s, PhaseModel::Sending(j)),
            ActionModel::Send(status_payload(message_text(s.prefix, m.lyrics[j as int], s.suffix))),
        ),
        pass_after_reload(m, s, 2 * j + 1) == (
            reloaded_in(m, s, PhaseModel::Sleeping(j)),
            ActionModel::Sleep(s.interval),
        ),
    decreases j,
{
    if j > 0 {
        lemma_pass_states(m, s, (j - 1) as nat);
        assert(pass_after_reload(m, s, 2 * j) == next(
            pass_after_reload(m, s, (2 * (j - 1) + 1) as nat).0,
            EventModel::Woke,
        ));
    }
    assert(pass_after_reload(m, s, 2 * j + 1) == next(
        pass_after_reload(m, s, 2 * j).0,
        EventModel::Sent,
    ));
}

/// With reload on, the pass that follows a re-load of `s` sends every lyric
/// of the base settings, in order, between the prefix and suffix of `s`,
/// waits the interval of `s` after each, and then re-loads again; the
/// lyrics of `s` and its reload flag play no part.
pub proof fn lemma_pass_after_reload(m: BroadcasterModel, s: SettingsModel, j: nat)
    requires
        well_formed(m),
        m.phase == PhaseModel::Reloading,
        m.reload,
        m.lyrics.len() > 0,
    ensures
        j < m.lyrics.len() ==> pass_after_reload(m, s, 2 * j).1 == ActionModel::Send(
            status_payload(message_text(s.prefix, m.lyrics[j as int], s.suffix)),
        ),
        j < m.lyrics.len() ==> pass_after_reload(m, s, 2 * j + 1).1 == ActionModel::Sleep(
            s.interval,
        ),
        pass_after_reload(m, s, 2 * m.lyrics.len()) == (
            reloaded_in(m, s, PhaseModel::Reloading),
            ActionModel::Reload,
        ),
{
    if j < m.lyrics.len() {
        lemma_pass_states(m, s, j);
    }
    let last = (m.lyrics.len() - 1) as nat;
    lemma_pass_states(m, s, last);
    assert(pass_after_reload(m, s, 2 * m.lyrics.len()) == next(
        pass_after_reload(m, s, 2 * last + 1).0,
        EventModel::Woke,
    ));
}

} // verus!
