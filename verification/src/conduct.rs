//! What the client does at each moment of a test run, and why: each law starts
//! from where the run is, what has happened and the clocks, and says what
//! follows, down to the numbers.

use vstd::prelude::*;

use crate::options::ClientOpts;
use crate::protocol::{ClientMsg, Phase};
use crate::run::{
    Action,
    Clock,
    Event,
    Incoming,
    Plan,
    Run,
    Stage,
    BATCH_SIZE,
    ECHO_TIMEOUT_NS,
    POLL_INTERVAL_MS,
    POLL_TIMEOUT_MS,
};
use crate::stats;
use crate::stats::{TestResults, Transfer};

verus! {

/// Whether less than so many milliseconds have passed since a moment.
pub open spec fn time_left(began_ns: u64, limit_ms: u64, now: Clock) -> bool {
    limit_ms > 0 && now.mono_ns < began_ns + limit_ms * 1_000_000
}

/// Whether so many whole milliseconds have passed since a moment. None have,
/// where the clock has not reached it.
pub open spec fn took(began_ns: u64, now: Clock, ms: u64) -> bool {
    if now.mono_ns < began_ns {
        ms == 0
    } else {
        ms * 1_000_000 <= now.mono_ns - began_ns < ms * 1_000_000 + 1_000_000
    }
}

/// Whether the server has sent back the ping of that number.
pub open spec fn answers(event: Event, seq: u64) -> bool {
    event matches Event::Received(Incoming::Text(reply)) && reply.phase == Some(Phase::Ping)
        && reply.seq == Some(seq)
}

/// Whether the server has said that the phase is done.
pub open spec fn says_done(event: Event, phase: Phase) -> bool {
    event matches Event::Received(Incoming::Text(reply)) && reply.phase == Some(phase)
        && reply.done == Some(true)
}

/// Whether a message was waited for and something came of it.
pub open spec fn heard(event: Event) -> bool {
    event is Received || event is NothingReceived
}

/// Whether a chunk of that length is the largest that may follow so many bytes.
pub open spec fn chunk_follows(plan: Plan, sent: u64, length: usize) -> bool {
    &&& length <= plan.chunk_bytes
    &&& sent + length <= plan.upload_max_bytes
    &&& length == plan.chunk_bytes || sent + length == plan.upload_max_bytes
}

/// Whether the wait for the answer to a ping is over: it has come, or a second
/// has passed.
pub open spec fn wait_over(event: Event, seq: u64, since_ns: u64, now: Clock) -> bool {
    answers(event, seq) || now.mono_ns >= since_ns + 1_000_000_000
}

/// A second for an answer, sixteen chunks in a row, and a look for a message at
/// every hundredth millisecond, for one millisecond.
pub proof fn pace()
    ensures
        ECHO_TIMEOUT_NS == 1_000 * 1_000_000,
        BATCH_SIZE == 16,
        POLL_INTERVAL_MS == 100,
        POLL_TIMEOUT_MS == 1,
{
}

/// Time is measured in nanoseconds and in whole milliseconds, and later readings
/// never show less of it.
pub proof fn time_is_measured(now: Clock, later: Clock, moment_ns: u64, ms: u64)
    ensures
        now.mono_ns >= moment_ns ==> now.ns_since(moment_ns) == now.mono_ns - moment_ns,
        now.mono_ns < moment_ns ==> now.ns_since(moment_ns) == 0,
        took(moment_ns, now, ms) <==> now.ms_since(moment_ns) == ms,
        now.mono_ns <= later.mono_ns ==> now.ms_since(moment_ns) <= later.ms_since(moment_ns),
        now.ms_since(moment_ns) <= u64::MAX,
{
}

/// A run begins with the announcement of the pings, under the limits of the
/// options and with empty results.
pub proof fn run_begins(opts: ClientOpts, test_id: u64)
    ensures
        ({
            let (run, action) = Run::begin(Plan::of(opts), test_id);
            &&& action == Action::Send(
                ClientMsg::PingStart {
                    test_id,
                    duration_ms: opts.ping_duration_ms,
                    max_count: opts.ping_max_count,
                },
            )
            &&& run.stage is PingOpening
            &&& run.test_id == test_id
            &&& run.rtts == Seq::<u64>::empty()
            &&& run.download == (Transfer { bytes: 0, ms: 0 })
            &&& run.upload == (Transfer { bytes: 0, ms: 0 })
            &&& run.plan == (Plan {
                ping_duration_ms: opts.ping_duration_ms,
                ping_max_count: opts.ping_max_count,
                download_duration_ms: opts.download_duration_ms,
                download_max_bytes: opts.download_max_bytes,
                upload_duration_ms: opts.upload_duration_ms,
                upload_max_bytes: opts.upload_max_bytes,
                chunk_bytes: opts.chunk_bytes,
            })
        }),
{
}

/// What is sent is sent: where no answer is waited for, the only news is that
/// the action was carried out, or of a chunk that it could not be sent. Where a
/// message is waited for, any may come, or none. It is refused only where a
/// number would run over, or an answer would come before its ping.
pub proof fn what_can_come(run: Run, event: Event, now: Clock)
    ensures
        match run.stage {
            Stage::PingOpening
            | Stage::PingSending { .. }
            | Stage::PingClosing
            | Stage::DownloadOpening
            | Stage::UploadOpening
            | Stage::ChunkPreparing
            | Stage::UploadYielding { .. }
            | Stage::UploadClosing => run.accepts(event, now) <==> event == Event::Performed,
            Stage::ChunkSending { .. } => run.accepts(event, now) <==> event == Event::Performed
                || event == Event::SendFailed,
            Stage::UploadPolling { .. } => run.accepts(event, now) <==> heard(event),
            Stage::Downloading { bytes, .. } => run.accepts(event, now) <==> heard(event) && (
            event matches Event::Received(Incoming::Binary(more)) ==> bytes + more <= u64::MAX),
            Stage::PingWaiting { seq, sent_at_ms, since_ns, .. } => run.accepts(event, now)
                <==> heard(event) && (answers(event, seq) ==> now.wall_ms >= sent_at_ms) && (
            wait_over(event, seq, since_ns, now) && event != Event::Received(Incoming::Close)
                ==> seq < u64::MAX),
            Stage::Finished | Stage::Closed => !run.accepts(event, now),
        },
{
}

/// Once the ping phase is announced, the first ping goes out, if there is any
/// time for pings at all; if there is none, the phase is over.
pub proof fn first_ping(run: Run, now: Clock)
    requires
        run.stage is PingOpening,
    ensures
        run.next(Event::Performed, now) == if run.plan.ping_duration_ms > 0 {
            (
                Run {
                    stage: Stage::PingSending {
                        began_ns: now.mono_ns,
                        seq: 0,
                        sent_at_ms: now.wall_ms,
                    },
                    ..run
                },
                Action::Send(ClientMsg::Ping { seq: 0, t_send: now.wall_ms }),
            )
        } else {
            (
                Run { stage: Stage::PingClosing, ..run },
                Action::SendSummary { test_id: run.test_id, figures: stats::summary(run.rtts) },
            )
        },
{
}

/// The wait for an answer begins when the ping has gone out.
pub proof fn ping_is_awaited(run: Run, now: Clock, began_ns: u64, seq: u64, sent_at_ms: u64)
    requires
        run.stage == (Stage::PingSending { began_ns, seq, sent_at_ms }),
    ensures
        run.next(Event::Performed, now) == (
            Run {
                stage: Stage::PingWaiting { began_ns, seq, sent_at_ms, since_ns: now.mono_ns },
                ..run
            },
            Action::Receive,
        ),
{
}

/// As long as neither the answer has come nor a second has passed, the wait goes
/// on, whatever else comes, and nothing changes.
pub proof fn wait_goes_on(
    run: Run,
    event: Event,
    now: Clock,
    began_ns: u64,
    seq: u64,
    sent_at_ms: u64,
    since_ns: u64,
)
    requires
        run.stage == (Stage::PingWaiting { began_ns, seq, sent_at_ms, since_ns }),
        event != Event::Received(Incoming::Close),
        !wait_over(event, seq, since_ns, now),
    ensures
        run.next(event, now) == (run, Action::Receive),
{
}

/// The round trip times of a run, once the wait for a ping is over: an answer
/// adds the time of day of its coming less that of its ping, and a ping without
/// one adds nothing.
pub open spec fn times_after(run: Run, event: Event, now: Clock, seq: u64, sent_at_ms: u64) -> Seq<
    u64,
> {
    if answers(event, seq) {
        run.rtts.push((now.wall_ms - sent_at_ms) as u64)
    } else {
        run.rtts
    }
}

/// While there is time for pings and their number is not used up, the next ping
/// follows the last, answered or not, and bears the next number. The ping phase
/// ends only for cause.
pub proof fn pings_go_on_while_they_may(
    run: Run,
    event: Event,
    now: Clock,
    began_ns: u64,
    seq: u64,
    sent_at_ms: u64,
    since_ns: u64,
)
    requires
        run.stage == (Stage::PingWaiting { began_ns, seq, sent_at_ms, since_ns }),
        event != Event::Received(Incoming::Close),
        wait_over(event, seq, since_ns, now),
        answers(event, seq) ==> now.wall_ms >= sent_at_ms,
        seq < u64::MAX,
        time_left(began_ns, run.plan.ping_duration_ms, now),
        run.plan.ping_max_count == 0 || seq + 1 < run.plan.ping_max_count,
    ensures
        run.next(event, now) == (
            Run {
                stage: Stage::PingSending {
                    began_ns,
                    seq: (seq + 1) as u64,
                    sent_at_ms: now.wall_ms,
                },
                rtts: times_after(run, event, now, seq, sent_at_ms),
                ..run
            },
            Action::Send(ClientMsg::Ping { seq: (seq + 1) as u64, t_send: now.wall_ms }),
        ),
{
}

/// When the time for pings is over, or their number is used up, the end of a
/// wait ends the phase, and the figures of all its answers go out.
pub proof fn pings_stop_at_their_limits(
    run: Run,
    event: Event,
    now: Clock,
    began_ns: u64,
    seq: u64,
    sent_at_ms: u64,
    since_ns: u64,
)
    requires
        run.stage == (Stage::PingWaiting { began_ns, seq, sent_at_ms, since_ns }),
        event != Event::Received(Incoming::Close),
        wait_over(event, seq, since_ns, now),
        answers(event, seq) ==> now.wall_ms >= sent_at_ms,
        seq < u64::MAX,
        !time_left(began_ns, run.plan.ping_duration_ms, now) || (run.plan.ping_max_count > 0 && seq
            + 1 >= run.plan.ping_max_count),
    ensures
        ({
            let rtts = times_after(run, event, now, seq, sent_at_ms);
            run.next(event, now) == (
                Run { stage: Stage::PingClosing, rtts, ..run },
                Action::SendSummary { test_id: run.test_id, figures: stats::summary(rtts) },
            )
        }),
{
}

/// The end of the connection ends the run, wherever a message is waited for.
pub proof fn closing_ends_the_run(run: Run, now: Clock)
    requires
        run.stage is PingWaiting || run.stage is Downloading || run.stage is UploadPolling,
    ensures
        run.next(Event::Received(Incoming::Close), now) == (
            Run { stage: Stage::Closed, ..run },
            Action::Abort,
        ),
{
}

/// After the figures of the pings, the download is asked for, under its own
/// limits; its time begins when the request has gone out.
pub proof fn download_begins(run: Run, now: Clock)
    ensures
        run.stage is PingClosing ==> run.next(Event::Performed, now) == (
            Run { stage: Stage::DownloadOpening, ..run },
            Action::Send(
                ClientMsg::TransferStart {
                    phase: Phase::Download,
                    test_id: run.test_id,
                    duration_ms: run.plan.download_duration_ms,
                    max_bytes: run.plan.download_max_bytes,
                    chunk_bytes: run.plan.chunk_bytes,
                },
            ),
        ),
        run.stage is DownloadOpening ==> run.next(Event::Performed, now) == (
            Run { stage: Stage::Downloading { began_ns: now.mono_ns, bytes: 0 }, ..run },
            Action::Receive,
        ),
{
}

/// The request for the upload, under its own limits.
pub open spec fn upload_request(run: Run) -> Action {
    Action::Send(
        ClientMsg::TransferStart {
            phase: Phase::Upload,
            test_id: run.test_id,
            duration_ms: run.plan.upload_duration_ms,
            max_bytes: run.plan.upload_max_bytes,
            chunk_bytes: run.plan.chunk_bytes,
        },
    )
}

/// The download adds up the data that comes, and goes on until the server says
/// that it is done, or no more can come.
pub proof fn download_adds_up(run: Run, event: Event, now: Clock, began_ns: u64, bytes: u64)
    requires
        run.stage == (Stage::Downloading { began_ns, bytes }),
        heard(event),
        event != Event::Received(Incoming::Close),
        !says_done(event, Phase::Download),
    ensures
        match event {
            Event::Received(Incoming::Binary(more)) => bytes + more <= u64::MAX ==> run.next(
                event,
                now,
            ) == (
                Run {
                    stage: Stage::Downloading { began_ns, bytes: (bytes + more) as u64 },
                    ..run
                },
                Action::Receive,
            ),
            Event::Received(_) => run.next(event, now) == (run, Action::Receive),
            _ => run.next(event, now) == (
                Run { stage: Stage::UploadOpening, ..run },
                upload_request(run),
            ),
        },
{
}

/// When the server says that the download is done, it counts with exactly the
/// bytes that came and the whole milliseconds since it began, and the upload is
/// asked for.
pub proof fn download_is_measured(
    run: Run,
    event: Event,
    now: Clock,
    began_ns: u64,
    bytes: u64,
    ms: u64,
)
    requires
        run.stage == (Stage::Downloading { began_ns, bytes }),
        says_done(event, Phase::Download),
        took(began_ns, now, ms),
    ensures
        run.next(event, now) == (
            Run { stage: Stage::UploadOpening, download: Transfer { bytes, ms }, ..run },
            upload_request(run),
        ),
{
    time_is_measured(now, now, began_ns, ms);
}

/// Once the upload is announced, a chunk of the size of the options is made. The
/// time of the upload begins when it is there: its first chunk goes out, unless
/// there is no time or there are no bytes for any. Then the upload is over
/// before it has begun.
pub proof fn upload_begins(run: Run, now: Clock, length: usize)
    requires
        chunk_follows(run.plan, 0, length),
    ensures
        run.stage is UploadOpening ==> run.next(Event::Performed, now) == (
            Run { stage: Stage::ChunkPreparing, ..run },
            Action::PrepareChunk(run.plan.chunk_bytes),
        ),
        run.stage is ChunkPreparing ==> run.next(Event::Performed, now) == if
            run.plan.upload_duration_ms > 0 && run.plan.upload_max_bytes > 0 {
            (
                Run {
                    stage: Stage::ChunkSending { began_ns: now.mono_ns, sent: 0, batch: 0 },
                    ..run
                },
                Action::SendChunk(length),
            )
        } else {
            ended_by_client(run, 0, 0)
        },
{
}

/// How the client ends an upload of so many bytes in so much time: it says so,
/// and counts the upload, if there was any.
pub open spec fn ended_by_client(run: Run, sent: u64, ms: u64) -> (Run, Action) {
    (
        Run {
            stage: Stage::UploadClosing,
            upload: if sent > 0 {
                Transfer { bytes: sent, ms }
            } else {
                run.upload
            },
            ..run
        },
        Action::Send(
            ClientMsg::UploadDone { test_id: run.test_id, bytes_sent: sent, elapsed_ms: ms },
        ),
    )
}

/// How a run ends: its results are reported, as they are.
pub open spec fn reported(run: Run) -> (Run, Action) {
    (
        Run { stage: Stage::Finished, ..run },
        Action::Report(
            TestResults {
                ping: stats::summary(run.rtts),
                download: run.download,
                upload: run.upload,
            },
        ),
    )
}

/// In a row of sixteen, a chunk that has gone out is followed by the next, as
/// large as the limit allows, while there are time and bytes for it.
pub proof fn row_goes_on(
    run: Run,
    now: Clock,
    began_ns: u64,
    sent: u64,
    batch: u64,
    length: usize,
    next_length: usize,
)
    requires
        run.stage == (Stage::ChunkSending { began_ns, sent, batch }),
        batch < 15,
        chunk_follows(run.plan, sent, length),
        time_left(began_ns, run.plan.upload_duration_ms, now),
        sent + length < run.plan.upload_max_bytes,
        chunk_follows(run.plan, (sent + length) as u64, next_length),
    ensures
        run.next(Event::Performed, now) == (
            Run {
                stage: Stage::ChunkSending {
                    began_ns,
                    sent: (sent + length) as u64,
                    batch: (batch + 1) as u64,
                },
                ..run
            },
            Action::SendChunk(next_length),
        ),
{
}

/// A row of chunks ends with the sixteenth, at a limit, or with a chunk that
/// could not be sent, which does not count. In a millisecond that a hundred
/// divides, the upload then looks for a message. In any other, others may run if
/// there are time and bytes left, and the upload ends if not.
pub proof fn row_ends(
    run: Run,
    event: Event,
    now: Clock,
    began_ns: u64,
    sent: u64,
    batch: u64,
    length: usize,
    ms: u64,
)
    requires
        run.stage == (Stage::ChunkSending { began_ns, sent, batch }),
        batch < 16,
        event == Event::Performed || event == Event::SendFailed,
        chunk_follows(run.plan, sent, length),
        took(began_ns, now, ms),
        event == Event::Performed ==> batch == 15 || !time_left(
            began_ns,
            run.plan.upload_duration_ms,
            now,
        ) || sent + length == run.plan.upload_max_bytes,
    ensures
        ({
            let gone = if event == Event::Performed {
                (sent + length) as u64
            } else {
                sent
            };
            run.next(event, now) == if ms % 100 == 0 {
                (
                    Run { stage: Stage::UploadPolling { began_ns, sent: gone }, ..run },
                    Action::ReceiveBriefly,
                )
            } else if time_left(began_ns, run.plan.upload_duration_ms, now) && gone
                < run.plan.upload_max_bytes {
                (
                    Run {
                        stage: Stage::UploadYielding { began_ns, sent: gone, done: false },
                        ..run
                    },
                    Action::Yield,
                )
            } else {
                ended_by_client(run, gone, ms)
            }
        }),
{
    time_is_measured(now, now, began_ns, ms);
}

/// When the server says that the upload is done, it counts with exactly the bytes
/// that went and the whole milliseconds since it began; nothing more is sent.
/// At a limit the run is reported at once, and else when others have run.
pub proof fn upload_ended_by_server_is_measured(
    run: Run,
    event: Event,
    now: Clock,
    later: Clock,
    began_ns: u64,
    sent: u64,
    ms: u64,
)
    requires
        run.stage == (Stage::UploadPolling { began_ns, sent }),
        says_done(event, Phase::Upload),
        took(began_ns, now, ms),
    ensures
        ({
            let counted = Run { upload: Transfer { bytes: sent, ms }, ..run };
            if time_left(began_ns, run.plan.upload_duration_ms, now) && sent
                < run.plan.upload_max_bytes {
                let ended = Run {
                    stage: Stage::UploadYielding { began_ns, sent, done: true },
                    ..counted
                };
                &&& run.next(event, now) == (ended, Action::Yield)
                &&& ended.next(Event::Performed, later) == reported(ended)
            } else {
                run.next(event, now) == reported(counted)
            }
        }),
{
    time_is_measured(now, now, began_ns, ms);
}

/// A look for a message that finds no end of the upload changes nothing: the
/// upload goes on while there are time and bytes left, and ends if not.
pub proof fn look_without_an_end(
    run: Run,
    event: Event,
    now: Clock,
    began_ns: u64,
    sent: u64,
    ms: u64,
)
    requires
        run.stage == (Stage::UploadPolling { began_ns, sent }),
        heard(event),
        event != Event::Received(Incoming::Close),
        !says_done(event, Phase::Upload),
        took(began_ns, now, ms),
    ensures
        run.next(event, now) == if time_left(began_ns, run.plan.upload_duration_ms, now) && sent
            < run.plan.upload_max_bytes {
            (
                Run { stage: Stage::UploadYielding { began_ns, sent, done: false }, ..run },
                Action::Yield,
            )
        } else {
            ended_by_client(run, sent, ms)
        },
{
    time_is_measured(now, now, began_ns, ms);
}

/// When others have run, the next row begins while there are time and bytes
/// left, and the upload ends if not.
pub proof fn upload_goes_on_while_it_may(
    run: Run,
    now: Clock,
    began_ns: u64,
    sent: u64,
    length: usize,
    ms: u64,
)
    requires
        run.stage == (Stage::UploadYielding { began_ns, sent, done: false }),
        sent < run.plan.upload_max_bytes,
        chunk_follows(run.plan, sent, length),
        took(began_ns, now, ms),
    ensures
        run.next(Event::Performed, now) == if time_left(
            began_ns,
            run.plan.upload_duration_ms,
            now,
        ) {
            (
                Run { stage: Stage::ChunkSending { began_ns, sent, batch: 0 }, ..run },
                Action::SendChunk(length),
            )
        } else {
            ended_by_client(run, sent, ms)
        },
{
    time_is_measured(now, now, began_ns, ms);
}

/// The upload ends only for cause: the server has ended it, its time is over, or
/// all its bytes have been sent.
pub proof fn upload_ends_only_for_cause(
    run: Run,
    event: Event,
    now: Clock,
    began_ns: u64,
    sent: u64,
)
    requires
        run.accepts(event, now),
        match run.stage {
            Stage::ChunkSending { began_ns: start, sent: before, batch } => start == began_ns
                && batch < 16 && (event == Event::SendFailed ==> sent == before) && (event
                == Event::Performed ==> sent >= before && chunk_follows(
                run.plan,
                before,
                (sent - before) as usize,
            ) && sent - before <= usize::MAX),
            Stage::UploadPolling { began_ns: start, sent: so_far } => start == began_ns && so_far
                == sent && !says_done(event, Phase::Upload),
            Stage::UploadYielding { began_ns: start, sent: so_far, done } => start == began_ns
                && so_far == sent && !done,
            _ => false,
        },
        time_left(began_ns, run.plan.upload_duration_ms, now),
        sent < run.plan.upload_max_bytes,
    ensures
        !(run.next(event, now).0.stage is UploadClosing),
        !(run.next(event, now).0.stage is Finished),
        run.stage is UploadYielding ==> run.next(event, now).1 is SendChunk,
{
}

/// When the end of the upload has been said, the run is over, and its results
/// are reported.
pub proof fn run_is_reported(run: Run, now: Clock)
    requires
        run.stage is UploadClosing,
    ensures
        run.next(Event::Performed, now) == reported(run),
{
}

/// The results of a run are the figures of its answers and its two transfers.
pub proof fn results_are_those_of_the_run(run: Run)
    ensures
        run.results() == (TestResults {
            ping: stats::summary(run.rtts),
            download: run.download,
            upload: run.upload,
        }),
{
}

} // verus!
