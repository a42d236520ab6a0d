//! What holds of every test run.

use vstd::prelude::*;

use crate::conduct;
use crate::json;
use crate::options::ClientOpts;
use crate::protocol;
use crate::protocol::{ClientMsg, Phase, Reply};
use crate::run::{Action, Clock, Event, Incoming, Plan, Run, Stage, ECHO_TIMEOUT_NS};
use crate::stats;
use crate::stats::Transfer;

verus! {

/// What happened in a run: the events, each with its reading of the clocks.
pub type Log = Seq<(Event, Clock)>;

/// Where a run is after all that has happened in it.
pub open spec fn after(plan: Plan, test_id: u64, log: Log) -> Run
    decreases log.len(),
{
    if log.len() == 0 {
        Run::begin(plan, test_id).0
    } else {
        let (event, now) = log.last();
        after(plan, test_id, log.drop_last()).next(event, now).0
    }
}

/// Whether each event could come when it did.
pub open spec fn possible(plan: Plan, test_id: u64, log: Log) -> bool
    decreases log.len(),
{
    if log.len() == 0 {
        true
    } else {
        let (event, now) = log.last();
        &&& possible(plan, test_id, log.drop_last())
        &&& after(plan, test_id, log.drop_last()).accepts(event, now)
    }
}

/// An event that can come leaves a run as runs are.
pub proof fn step_keeps_wf(run: Run, event: Event, now: Clock)
    requires
        run.wf(),
        run.accepts(event, now),
    ensures
        run.next(event, now).0.wf(),
{
}

/// A run never has more answers than pings, nor more pings than its limit, and
/// never uploads more than its limit allows; its limits stay the same.
pub proof fn every_run_is_wf(plan: Plan, test_id: u64, log: Log)
    requires
        possible(plan, test_id, log),
    ensures
        after(plan, test_id, log).wf(),
        after(plan, test_id, log).plan == plan,
        after(plan, test_id, log).test_id == test_id,
    decreases log.len(),
{
    if log.len() > 0 {
        let (event, now) = log.last();
        every_run_is_wf(plan, test_id, log.drop_last());
        step_keeps_wf(after(plan, test_id, log.drop_last()), event, now);
    }
}

/// The place of a stage in the order of the phases.
pub open spec fn rank(stage: Stage) -> nat {
    match stage {
        Stage::PingOpening => 0,
        Stage::PingSending { .. } | Stage::PingWaiting { .. } => 1,
        Stage::PingClosing => 2,
        Stage::DownloadOpening => 3,
        Stage::Downloading { .. } => 4,
        Stage::UploadOpening => 5,
        Stage::ChunkPreparing => 6,
        Stage::ChunkSending { .. } | Stage::UploadPolling { .. } | Stage::UploadYielding { .. } => 7,
        Stage::UploadClosing => 8,
        Stage::Finished | Stage::Closed => 9,
    }
}

/// The phases come in the order ping, download, upload, and none comes again;
/// what a phase has found does not change after it.
pub proof fn phases_in_order(run: Run, event: Event, now: Clock)
    requires
        run.accepts(event, now),
    ensures
        rank(run.stage) <= rank(run.next(event, now).0.stage),
        run.rtts.is_prefix_of(run.next(event, now).0.rtts),
        rank(run.stage) >= 2 ==> run.next(event, now).0.rtts == run.rtts,
        rank(run.stage) >= 5 ==> run.next(event, now).0.download == run.download,
        rank(run.stage) >= 8 ==> run.next(event, now).0.upload == run.upload,
{
}

/// Once a run is over, nothing more can come.
pub proof fn the_end_is_final(run: Run, event: Event, now: Clock)
    requires
        run.stage is Finished || run.stage is Closed,
    ensures
        !run.accepts(event, now),
{
}

/// A ping goes out only while there is time for it and its number is below the
/// limit; it bears the time of day, and the numbers run from zero without gaps.
pub proof fn ping_within_limits(run: Run, event: Event, now: Clock, seq: u64, t_send: u64)
    requires
        run.accepts(event, now),
        run.next(event, now).1 == Action::Send(ClientMsg::Ping { seq, t_send }),
    ensures
        t_send == now.wall_ms,
        run.plan.ping_max_count > 0 ==> seq < run.plan.ping_max_count,
        match run.stage {
            Stage::PingOpening => seq == 0 && run.plan.ping_duration_ms > 0,
            Stage::PingWaiting { began_ns, seq: last, .. } => seq == last + 1 && now.ms_since(
                began_ns,
            ) < run.plan.ping_duration_ms,
            _ => false,
        },
{
}

/// A round trip time is recorded only when the answer to the ping that is
/// waited for comes, and it is the time of day then less that of the ping.
pub proof fn only_the_echo_counts(run: Run, event: Event, now: Clock)
    requires
        run.accepts(event, now),
    ensures
        run.is_echo(event) ==> (run.stage matches Stage::PingWaiting { sent_at_ms, .. }
            && run.next(event, now).0.rtts == run.rtts.push((now.wall_ms - sent_at_ms) as u64)),
        !run.is_echo(event) ==> run.next(event, now).0.rtts == run.rtts,
{
}

/// The client takes its own ping, sent back to it, for the answer.
pub proof fn own_ping_is_echo(run: Run, text: Seq<char>, seq: u64, t_send: u64)
    requires
        run.stage matches Stage::PingWaiting { seq: waited, .. } && waited == seq,
        json::parses_as(text, (ClientMsg::Ping { seq, t_send }).json()),
    ensures
        json::parsed(text) matches Ok(json) && run.is_echo(
            Event::Received(Incoming::Text(Reply::of(json))),
        ),
{
    protocol::message_reads_back(ClientMsg::Ping { seq, t_send });
}

/// While the answer to a ping is waited for, no other message changes anything,
/// until the wait has lasted too long. Then the ping counts as unanswered.
pub proof fn other_messages_do_not_end_the_wait(run: Run, event: Event, now: Clock)
    requires
        run.accepts(event, now),
        run.stage is PingWaiting,
        !run.is_echo(event),
        event != Event::Received(Incoming::Close),
    ensures
        run.stage matches Stage::PingWaiting { since_ns, .. } && if now.ns_since(since_ns)
            < ECHO_TIMEOUT_NS {
            run.next(event, now) == (run, Action::Receive)
        } else {
            run.next(event, now).0.rtts == run.rtts && !(run.next(
                event,
                now,
            ).0.stage is PingWaiting)
        },
{
}

/// When the time for pings is over, the end of a wait ends the phase with the
/// figures of all answers.
pub proof fn ping_phase_ends_in_time(run: Run, event: Event, now: Clock)
    requires
        run.accepts(event, now),
        run.ping_over(event, now),
        event != Event::Received(Incoming::Close),
        run.stage matches Stage::PingWaiting { began_ns, .. } && now.ms_since(began_ns)
            >= run.plan.ping_duration_ms,
    ensures
        run.next(event, now).0.stage is PingClosing,
        run.next(event, now).1 == (Action::SendSummary {
            test_id: run.test_id,
            figures: stats::summary(run.next(event, now).0.rtts),
        }),
{
}

/// A message of the end of the connection ends the run at once, wherever one
/// is waited for, and there is no report.
pub proof fn close_ends_the_run(run: Run, now: Clock)
    requires
        run.accepts(Event::Received(Incoming::Close), now),
    ensures
        run.next(Event::Received(Incoming::Close), now) == (run.at(Stage::Closed), Action::Abort),
{
}

/// A download without its end counts as none.
pub proof fn broken_download_counts_nothing(run: Run, now: Clock)
    requires
        run.wf(),
        run.stage is Downloading,
    ensures
        run.next(Event::NothingReceived, now).0.download == Transfer::none(),
        run.next(Event::NothingReceived, now).0.stage is UploadOpening,
{
}

/// A chunk goes out only while there is time for it and less than the limit has
/// been sent. It is never larger than the chunk that was made, nor than what is
/// left up to the limit, and it is as large as that allows.
pub proof fn chunk_within_limits(run: Run, event: Event, now: Clock, length: usize)
    requires
        run.accepts(event, now),
        run.next(event, now).1 == Action::SendChunk(length),
    ensures
        run.next(event, now).0.stage matches Stage::ChunkSending { began_ns, sent, .. }
            && now.ms_since(began_ns) < run.plan.upload_duration_ms && sent
            < run.plan.upload_max_bytes && length <= run.plan.chunk_bytes && sent + length
            <= run.plan.upload_max_bytes && (length == run.plan.chunk_bytes || sent + length
            == run.plan.upload_max_bytes),
{
}

/// When the upload began, and the bytes that have been sent once the event has
/// come, while chunks are being sent.
pub open spec fn uploading(run: Run, event: Event) -> Option<(u64, nat)> {
    match run.stage {
        Stage::ChunkSending { began_ns, sent, .. } => if event is Performed {
            Some((began_ns, sent as nat + run.plan.next_chunk(sent)))
        } else {
            Some((began_ns, sent as nat))
        },
        Stage::UploadPolling { began_ns, sent } => Some((began_ns, sent as nat)),
        Stage::UploadYielding { began_ns, sent, .. } => Some((began_ns, sent as nat)),
        _ => None,
    }
}

/// When the time for the upload is over or enough has been sent, no chunk
/// follows: at most the upload looks for one more message before it ends.
pub proof fn upload_ends_at_its_limits(run: Run, event: Event, now: Clock)
    requires
        run.wf(),
        run.accepts(event, now),
        uploading(run, event) matches Some((began_ns, sent)) && (now.ms_since(began_ns)
            >= run.plan.upload_duration_ms || sent >= run.plan.upload_max_bytes),
    ensures
        match run.next(event, now).0.stage {
            Stage::UploadPolling { .. } => run.stage is ChunkSending,
            Stage::UploadClosing | Stage::Finished | Stage::Closed => true,
            _ => false,
        },
{
}

/// When the server ends the upload, the results hold what has been sent until
/// then, and the client sends nothing more: the run ends at once, or after
/// others have been let run.
pub proof fn server_ends_the_upload(run: Run, reply: Reply, now: Clock, later: Clock)
    requires
        run.stage is UploadPolling,
        reply.ends(Phase::Upload),
    ensures
        ({
            let (ended, action) = run.next(Event::Received(Incoming::Text(reply)), now);
            &&& run.stage matches Stage::UploadPolling { began_ns, sent } && ended.upload == (
            Transfer { bytes: sent, ms: now.ms_since(began_ns) as u64 })
            &&& if ended.stage is Finished {
                action == Action::Report(ended.results())
            } else {
                &&& action == Action::Yield
                &&& ended.next(Event::Performed, later) == (
                    ended.at(Stage::Finished),
                    Action::Report(ended.results()),
                )
            }
        }),
{
}

/// When the client ends the upload, it says how much it has sent and in what
/// time. The results hold the same, unless nothing was sent: then they hold no
/// upload.
pub proof fn client_ends_the_upload(
    run: Run,
    event: Event,
    now: Clock,
    test_id: u64,
    bytes_sent: u64,
    elapsed_ms: u64,
)
    requires
        run.wf(),
        run.accepts(event, now),
        run.next(event, now).1 == Action::Send(
            ClientMsg::UploadDone { test_id, bytes_sent, elapsed_ms },
        ),
    ensures
        test_id == run.test_id,
        run.next(event, now).0.stage is UploadClosing,
        run.next(event, now).0.upload == if bytes_sent > 0 {
            Transfer { bytes: bytes_sent, ms: elapsed_ms }
        } else {
            Transfer::none()
        },
{
}

/// A report comes at the end of the run and nowhere else, and holds its results.
pub proof fn report_at_the_end(run: Run, event: Event, now: Clock)
    requires
        run.accepts(event, now),
    ensures
        run.next(event, now).1 is Report <==> run.next(event, now).0.stage is Finished,
        run.next(event, now).1 matches Action::Report(results) ==> results == run.next(
            event,
            now,
        ).0.results(),
{
}

/// The pings that have been sent.
pub open spec fn pings_sent(plan: Plan, test_id: u64, log: Log) -> nat
    decreases log.len(),
{
    if log.len() == 0 {
        0
    } else {
        let before = pings_sent(plan, test_id, log.drop_last());
        match (after(plan, test_id, log.drop_last()).stage, log.last().0) {
            (Stage::PingSending { .. }, Event::Performed) => before + 1,
            _ => before,
        }
    }
}

/// A ping bears the number of pings before it. No more answers are counted than
/// pings were sent, and no more pings are sent than the limit, if there is one.
pub proof fn pings_are_counted(plan: Plan, test_id: u64, log: Log)
    requires
        possible(plan, test_id, log),
    ensures
        match after(plan, test_id, log).stage {
            Stage::PingOpening => pings_sent(plan, test_id, log) == 0,
            Stage::PingSending { seq, .. } => pings_sent(plan, test_id, log) == seq,
            Stage::PingWaiting { seq, .. } => pings_sent(plan, test_id, log) == seq + 1,
            _ => true,
        },
        after(plan, test_id, log).rtts.len() <= pings_sent(plan, test_id, log),
        plan.ping_max_count > 0 ==> pings_sent(plan, test_id, log) <= plan.ping_max_count,
    decreases log.len(),
{
    if log.len() > 0 {
        let (event, now) = log.last();
        let run = after(plan, test_id, log.drop_last());
        every_run_is_wf(plan, test_id, log.drop_last());
        pings_are_counted(plan, test_id, log.drop_last());
        phases_in_order(run, event, now);
    }
}

/// The bytes that the server has sent during the download.
pub open spec fn bytes_received(plan: Plan, test_id: u64, log: Log) -> nat
    decreases log.len(),
{
    if log.len() == 0 {
        0
    } else {
        let before = bytes_received(plan, test_id, log.drop_last());
        match (after(plan, test_id, log.drop_last()).stage, log.last().0) {
            (Stage::Downloading { .. }, Event::Received(Incoming::Binary(more))) => before
                + more as nat,
            _ => before,
        }
    }
}

/// The bytes of the chunks that have been sent.
pub open spec fn bytes_sent(plan: Plan, test_id: u64, log: Log) -> nat
    decreases log.len(),
{
    if log.len() == 0 {
        0
    } else {
        let before = bytes_sent(plan, test_id, log.drop_last());
        match (after(plan, test_id, log.drop_last()).stage, log.last().0) {
            (Stage::ChunkSending { sent, .. }, Event::Performed) => before + plan.next_chunk(sent),
            _ => before,
        }
    }
}

/// While the download goes on, the run knows the bytes that have come; a
/// download that has ended holds them all.
pub proof fn download_counts_what_came(plan: Plan, test_id: u64, log: Log)
    requires
        possible(plan, test_id, log),
    ensures
        after(plan, test_id, log).stage matches Stage::Downloading { bytes, .. } ==> bytes
            == bytes_received(plan, test_id, log),
        rank(after(plan, test_id, log).stage) < 4 ==> bytes_received(plan, test_id, log) == 0,
        after(plan, test_id, log).download != Transfer::none() ==> after(
            plan,
            test_id,
            log,
        ).download.bytes == bytes_received(plan, test_id, log),
    decreases log.len(),
{
    if log.len() > 0 {
        let (event, now) = log.last();
        let run = after(plan, test_id, log.drop_last());
        every_run_is_wf(plan, test_id, log.drop_last());
        download_counts_what_came(plan, test_id, log.drop_last());
        phases_in_order(run, event, now);
    }
}

/// While the upload goes on, the run knows the bytes of the chunks that have
/// been sent; the report holds them all. They are never more than the limit.
pub proof fn upload_counts_what_went(plan: Plan, test_id: u64, log: Log)
    requires
        possible(plan, test_id, log),
    ensures
        match after(plan, test_id, log).stage {
            Stage::ChunkSending { sent, .. } => sent == bytes_sent(plan, test_id, log),
            Stage::UploadPolling { sent, .. } => sent == bytes_sent(plan, test_id, log),
            Stage::UploadYielding { sent, .. } => sent == bytes_sent(plan, test_id, log),
            Stage::UploadClosing | Stage::Finished => after(plan, test_id, log).upload.bytes
                == bytes_sent(plan, test_id, log),
            Stage::Closed => true,
            _ => bytes_sent(plan, test_id, log) == 0,
        },
        bytes_sent(plan, test_id, log) <= plan.upload_max_bytes,
    decreases log.len(),
{
    if log.len() > 0 {
        let (event, now) = log.last();
        let run = after(plan, test_id, log.drop_last());
        every_run_is_wf(plan, test_id, log.drop_last());
        upload_counts_what_went(plan, test_id, log.drop_last());
        phases_in_order(run, event, now);
    }
}

/// What is to be done after all that has happened in a run.
pub open spec fn asked(plan: Plan, test_id: u64, log: Log) -> Action {
    if log.len() == 0 {
        Run::begin(plan, test_id).1
    } else {
        let (event, now) = log.last();
        after(plan, test_id, log.drop_last()).next(event, now).1
    }
}

/// The messages that begin a phase, in the order in which they were asked for.
pub open spec fn starts(plan: Plan, test_id: u64, log: Log) -> Seq<ClientMsg>
    decreases log.len(),
{
    let before = if log.len() == 0 {
        Seq::empty()
    } else {
        starts(plan, test_id, log.drop_last())
    };
    match asked(plan, test_id, log) {
        Action::Send(msg) => if msg is PingStart || msg is TransferStart {
            before.push(msg)
        } else {
            before
        },
        _ => before,
    }
}

/// The messages that begin the three phases, in their order.
pub open spec fn all_starts(plan: Plan, test_id: u64) -> Seq<ClientMsg> {
    seq![
        ClientMsg::PingStart {
            test_id,
            duration_ms: plan.ping_duration_ms,
            max_count: plan.ping_max_count,
        },
        plan.download_start(test_id),
        plan.upload_start(test_id),
    ]
}

/// Each phase begins with its message, and no such message comes twice or out
/// of its order; a run that is reported has sent all three.
pub proof fn each_phase_is_announced_once(plan: Plan, test_id: u64, log: Log)
    requires
        possible(plan, test_id, log),
    ensures
        starts(plan, test_id, log).is_prefix_of(all_starts(plan, test_id)),
        !(after(plan, test_id, log).stage is Closed) ==> starts(plan, test_id, log).len() == (
        if rank(after(plan, test_id, log).stage) < 3 {
            1int
        } else if rank(after(plan, test_id, log).stage) < 5 {
            2
        } else {
            3
        }),
    decreases log.len(),
{
    if log.len() > 0 {
        let (event, now) = log.last();
        let run = after(plan, test_id, log.drop_last());
        every_run_is_wf(plan, test_id, log.drop_last());
        each_phase_is_announced_once(plan, test_id, log.drop_last());
        phases_in_order(run, event, now);
        assert(!(run.stage is Closed));
    }
}

/// How often the client has been asked to say that the upload is over.
pub open spec fn upload_ends(plan: Plan, test_id: u64, log: Log) -> nat
    decreases log.len(),
{
    let before = if log.len() == 0 {
        0
    } else {
        upload_ends(plan, test_id, log.drop_last())
    };
    match asked(plan, test_id, log) {
        Action::Send(ClientMsg::UploadDone { .. }) => before + 1,
        _ => before,
    }
}

/// Whether the server has ended the upload.
pub open spec fn server_ended(plan: Plan, test_id: u64, log: Log) -> bool
    decreases log.len(),
{
    if log.len() == 0 {
        false
    } else {
        ||| server_ended(plan, test_id, log.drop_last())
        ||| match (after(plan, test_id, log.drop_last()).stage, log.last().0) {
            (Stage::UploadPolling { .. }, Event::Received(Incoming::Text(reply))) => reply.ends(
                Phase::Upload,
            ),
            _ => false,
        }
    }
}

/// The client says at most once that the upload is over. In a run that is
/// reported it has said so, unless the server ended the upload: then it has
/// not.
pub proof fn upload_is_ended_once(plan: Plan, test_id: u64, log: Log)
    requires
        possible(plan, test_id, log),
    ensures
        match after(plan, test_id, log).stage {
            Stage::Finished => if server_ended(plan, test_id, log) {
                upload_ends(plan, test_id, log) == 0
            } else {
                upload_ends(plan, test_id, log) == 1
            },
            Stage::UploadClosing => upload_ends(plan, test_id, log) == 1 && !server_ended(
                plan,
                test_id,
                log,
            ),
            Stage::UploadYielding { done, .. } => upload_ends(plan, test_id, log) == 0 && done
                == server_ended(plan, test_id, log),
            _ => upload_ends(plan, test_id, log) == 0 && !server_ended(plan, test_id, log),
        },
    decreases log.len(),
{
    if log.len() > 0 {
        upload_is_ended_once(plan, test_id, log.drop_last());
    }
}

/// When the time of a phase began: when its announcement had gone out, and for
/// the upload when its chunk was there as well.
pub open spec fn began(plan: Plan, test_id: u64, log: Log, phase: Phase) -> Option<u64>
    decreases log.len(),
{
    if log.len() == 0 {
        None
    } else {
        match (after(plan, test_id, log.drop_last()).stage, phase) {
            (Stage::PingOpening, Phase::Ping)
            | (Stage::DownloadOpening, Phase::Download)
            | (Stage::ChunkPreparing, Phase::Upload) => Some(log.last().1.mono_ns),
            _ => began(plan, test_id, log.drop_last(), phase),
        }
    }
}

/// When the server said that the download was done.
pub open spec fn download_over(plan: Plan, test_id: u64, log: Log) -> Option<Clock>
    decreases log.len(),
{
    if log.len() == 0 {
        None
    } else {
        let (event, now) = log.last();
        if after(plan, test_id, log.drop_last()).stage is Downloading && conduct::says_done(
            event,
            Phase::Download,
        ) {
            Some(now)
        } else {
            download_over(plan, test_id, log.drop_last())
        }
    }
}

/// When the server said that the upload was done, or the client was asked to say
/// so.
pub open spec fn upload_over(plan: Plan, test_id: u64, log: Log) -> Option<Clock>
    decreases log.len(),
{
    if log.len() == 0 {
        None
    } else {
        let (event, now) = log.last();
        let stage = after(plan, test_id, log.drop_last()).stage;
        if stage is UploadPolling && conduct::says_done(event, Phase::Upload) {
            Some(now)
        } else if asked(plan, test_id, log) matches Action::Send(ClientMsg::UploadDone { .. }) {
            Some(now)
        } else {
            upload_over(plan, test_id, log.drop_last())
        }
    }
}

/// The time of each phase runs from its own beginning: pings and transfers are
/// held to it, and a transfer that counts took the whole milliseconds from there
/// to its end. A download that the server did not end does not count.
pub proof fn phases_are_timed(plan: Plan, test_id: u64, log: Log)
    requires
        possible(plan, test_id, log),
    ensures
        match after(plan, test_id, log).stage {
            Stage::PingSending { began_ns, .. } | Stage::PingWaiting { began_ns, .. } => Some(
                began_ns,
            ) == began(plan, test_id, log, Phase::Ping),
            Stage::Downloading { began_ns, .. } => Some(began_ns) == began(
                plan,
                test_id,
                log,
                Phase::Download,
            ),
            Stage::ChunkSending { began_ns, .. }
            | Stage::UploadPolling { began_ns, .. }
            | Stage::UploadYielding { began_ns, .. } => Some(began_ns) == began(
                plan,
                test_id,
                log,
                Phase::Upload,
            ),
            _ => true,
        },
        match download_over(plan, test_id, log) {
            Some(end) => {
                &&& began(plan, test_id, log, Phase::Download) matches Some(start) && conduct::took(
                    start,
                    end,
                    after(plan, test_id, log).download.ms,
                )
                &&& after(plan, test_id, log).download.bytes == bytes_received(plan, test_id, log)
                &&& rank(after(plan, test_id, log).stage) >= 5
            },
            None => after(plan, test_id, log).download == (Transfer { bytes: 0, ms: 0 }),
        },
        match upload_over(plan, test_id, log) {
            Some(end) => {
                &&& began(plan, test_id, log, Phase::Upload) matches Some(start) && (after(
                    plan,
                    test_id,
                    log,
                ).upload == (Transfer { bytes: 0, ms: 0 }) || conduct::took(
                    start,
                    end,
                    after(plan, test_id, log).upload.ms,
                ))
                &&& after(plan, test_id, log).upload.bytes == bytes_sent(plan, test_id, log)
                &&& match after(plan, test_id, log).stage {
                    Stage::UploadYielding { done, .. } => done,
                    Stage::UploadClosing | Stage::Finished => true,
                    _ => false,
                }
            },
            None => after(plan, test_id, log).upload == (Transfer { bytes: 0, ms: 0 }),
        },
    decreases log.len(),
{
    if log.len() > 0 {
        let (event, now) = log.last();
        let run = after(plan, test_id, log.drop_last());
        every_run_is_wf(plan, test_id, log.drop_last());
        phases_are_timed(plan, test_id, log.drop_last());
        download_counts_what_came(plan, test_id, log.drop_last());
        upload_counts_what_went(plan, test_id, log.drop_last());
        upload_is_ended_once(plan, test_id, log.drop_last());
    }
}

/// Every announcement bears the limits that the options set for its phase.
pub proof fn announcements_bear_the_options(opts: ClientOpts, test_id: u64, log: Log)
    requires
        possible(Plan::of(opts), test_id, log),
    ensures
        starts(Plan::of(opts), test_id, log).is_prefix_of(
            seq![
                ClientMsg::PingStart {
                    test_id,
                    duration_ms: opts.ping_duration_ms,
                    max_count: opts.ping_max_count,
                },
                ClientMsg::TransferStart {
                    phase: Phase::Download,
                    test_id,
                    duration_ms: opts.download_duration_ms,
                    max_bytes: opts.download_max_bytes,
                    chunk_bytes: opts.chunk_bytes,
                },
                ClientMsg::TransferStart {
                    phase: Phase::Upload,
                    test_id,
                    duration_ms: opts.upload_duration_ms,
                    max_bytes: opts.upload_max_bytes,
                    chunk_bytes: opts.chunk_bytes,
                },
            ],
        ),
{
    each_phase_is_announced_once(Plan::of(opts), test_id, log);
}

} // verus!
