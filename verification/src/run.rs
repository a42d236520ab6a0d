//! The course of a test run, as a state machine.
//!
//! A run is at a stage, at which it waits for one action to be carried out. An
//! event says how the action came out; with it comes a reading of the clocks,
//! and no time passes between the decisions that are taken on one reading.

use vstd::prelude::*;

use crate::options::ClientOpts;
use crate::protocol::{ClientMsg, Phase, Reply};
use crate::stats;
use crate::stats::{PingSummary, TestResults, Transfer};

verus! {

/// How long an answer to a ping is waited for.
pub const ECHO_TIMEOUT_NS: u64 = 1_000_000_000;

/// How many chunks are uploaded in a row.
pub const BATCH_SIZE: u64 = 16;

/// The upload looks out for messages at the milliseconds that this divides.
pub const POLL_INTERVAL_MS: u64 = 100;

/// How long a look for a message during the upload may take.
pub const POLL_TIMEOUT_MS: u64 = 1;

/// A reading of the clocks: one that only ever moves on, in nanoseconds, and
/// the time of day, in milliseconds.
#[derive(Clone, Copy, Debug, PartialEq, Eq, Structural)]
pub struct Clock {
    pub mono_ns: u64,
    pub wall_ms: u64,
}

impl Clock {
    /// The nanoseconds since a moment.
    pub open spec fn ns_since(self, moment_ns: u64) -> nat {
        if self.mono_ns >= moment_ns {
            (self.mono_ns - moment_ns) as nat
        } else {
            0
        }
    }

    /// The whole milliseconds since a moment.
    pub open spec fn ms_since(self, moment_ns: u64) -> nat {
        self.ns_since(moment_ns) / 1_000_000
    }

    /// The nanoseconds since a moment.
    pub fn elapsed_ns(&self, moment_ns: u64) -> (ns: u64)
        ensures
            ns == self.ns_since(moment_ns),
    {
        if self.mono_ns >= moment_ns {
            self.mono_ns - moment_ns
        } else {
            0
        }
    }

    /// The whole milliseconds since a moment.
    pub fn elapsed_ms(&self, moment_ns: u64) -> (ms: u64)
        ensures
            ms == self.ms_since(moment_ns),
    {
        self.elapsed_ns(moment_ns) / 1_000_000
    }
}

/// The limits of a test run.
#[derive(Clone, Copy, Debug, PartialEq, Eq, Structural)]
pub struct Plan {
    pub ping_duration_ms: u64,
    pub ping_max_count: u64,
    pub download_duration_ms: u64,
    pub download_max_bytes: u64,
    pub upload_duration_ms: u64,
    pub upload_max_bytes: u64,
    pub chunk_bytes: usize,
}

impl Plan {
    /// The limits that the options set.
    pub open spec fn of(opts: ClientOpts) -> Plan {
        Plan {
            ping_duration_ms: opts.ping_duration_ms,
            ping_max_count: opts.ping_max_count,
            download_duration_ms: opts.download_duration_ms,
            download_max_bytes: opts.download_max_bytes,
            upload_duration_ms: opts.upload_duration_ms,
            upload_max_bytes: opts.upload_max_bytes,
            chunk_bytes: opts.chunk_bytes,
        }
    }

    /// Whether another ping may go out.
    pub open spec fn allows_ping(self, began_ns: u64, seq: u64, now: Clock) -> bool {
        &&& now.ms_since(began_ns) < self.ping_duration_ms
        &&& self.ping_max_count == 0 || seq < self.ping_max_count
    }

    /// Whether another chunk may go out.
    pub open spec fn allows_chunk(self, began_ns: u64, sent: u64, now: Clock) -> bool {
        &&& now.ms_since(began_ns) < self.upload_duration_ms
        &&& sent < self.upload_max_bytes
    }

    /// The size of the chunk that goes out when so many bytes have been sent: a
    /// whole one, or what is left up to the limit if that is less.
    pub open spec fn next_chunk(self, sent: u64) -> nat {
        if sent + self.chunk_bytes <= self.upload_max_bytes {
            self.chunk_bytes as nat
        } else if sent <= self.upload_max_bytes {
            (self.upload_max_bytes - sent) as nat
        } else {
            0
        }
    }

    /// The message that begins the download.
    pub open spec fn download_start(self, test_id: u64) -> ClientMsg {
        ClientMsg::TransferStart {
            phase: Phase::Download,
            test_id,
            duration_ms: self.download_duration_ms,
            max_bytes: self.download_max_bytes,
            chunk_bytes: self.chunk_bytes,
        }
    }

    /// The message that begins the upload.
    pub open spec fn upload_start(self, test_id: u64) -> ClientMsg {
        ClientMsg::TransferStart {
            phase: Phase::Upload,
            test_id,
            duration_ms: self.upload_duration_ms,
            max_bytes: self.upload_max_bytes,
            chunk_bytes: self.chunk_bytes,
        }
    }
}

/// Where a test run is.
#[derive(Clone, Copy, Debug, PartialEq, Eq, Structural)]
pub enum Stage {
    /// The message that begins the ping phase is on its way.
    PingOpening,
    /// A ping is on its way.
    PingSending { began_ns: u64, seq: u64, sent_at_ms: u64 },
    /// The ping has gone out at `since_ns`; the answer is waited for.
    PingWaiting { began_ns: u64, seq: u64, sent_at_ms: u64, since_ns: u64 },
    /// The figures of the ping phase are on their way.
    PingClosing,
    /// The message that begins the download is on its way.
    DownloadOpening,
    /// Data is waited for.
    Downloading { began_ns: u64, bytes: u64 },
    /// The message that begins the upload is on its way.
    UploadOpening,
    /// The chunk to upload is being made.
    ChunkPreparing,
    /// A chunk is on its way, the one after `batch` others in a row.
    ChunkSending { began_ns: u64, sent: u64, batch: u64 },
    /// The upload looks out for a message.
    UploadPolling { began_ns: u64, sent: u64 },
    /// The upload lets others run; `done` if the server has ended it.
    UploadYielding { began_ns: u64, sent: u64, done: bool },
    /// The message that ends the upload is on its way.
    UploadClosing,
    /// The run is over.
    Finished,
    /// The server has closed the connection.
    Closed,
}

/// A message of the server.
#[derive(Clone, Copy, Debug, PartialEq, Eq, Structural)]
pub enum Incoming {
    /// A text, as it was read.
    Text(Reply),
    /// So many bytes of data.
    Binary(usize),
    /// The end of the connection.
    Close,
    /// Anything else.
    Other,
}

/// How an action came out.
#[derive(Clone, Copy, Debug, PartialEq, Eq, Structural)]
pub enum Event {
    /// It was carried out.
    Performed,
    /// The chunk could not be sent.
    SendFailed,
    /// A message came.
    Received(Incoming),
    /// No message came.
    NothingReceived,
}

/// What is to be done next.
#[derive(Clone, Copy, Debug, PartialEq, Eq, Structural)]
pub enum Action {
    /// Send a message.
    Send(ClientMsg),
    /// Send the figures of the ping phase.
    SendSummary { test_id: u64, figures: PingSummary },
    /// Wait for a message.
    Receive,
    /// Wait for a message, but no longer than `POLL_TIMEOUT_MS`.
    ReceiveBriefly,
    /// Make the chunk to upload, of that size.
    PrepareChunk(usize),
    /// Send so many bytes of the chunk, from its beginning.
    SendChunk(usize),
    /// Let others run.
    Yield,
    /// Report the results; the run is over.
    Report(TestResults),
    /// Give up; the server has closed the connection.
    Abort,
}

/// A test run: its limits, where it is, the round trip times so far, and the
/// transfers, which are none until they are complete.
pub struct Run {
    pub plan: Plan,
    pub test_id: u64,
    pub stage: Stage,
    pub rtts: Seq<u64>,
    pub download: Transfer,
    pub upload: Transfer,
}

impl Run {
    /// A run that is about to begin, and its first action.
    pub open spec fn begin(plan: Plan, test_id: u64) -> (Run, Action) {
        (
            Run {
                plan,
                test_id,
                stage: Stage::PingOpening,
                rtts: Seq::empty(),
                download: Transfer::none(),
                upload: Transfer::none(),
            },
            Action::Send(
                ClientMsg::PingStart {
                    test_id,
                    duration_ms: plan.ping_duration_ms,
                    max_count: plan.ping_max_count,
                },
            ),
        )
    }

    /// The run, at another stage.
    pub open spec fn at(self, stage: Stage) -> Run {
        Run { stage, ..self }
    }

    /// The results so far.
    pub open spec fn results(self) -> TestResults {
        TestResults {
            ping: stats::summary(self.rtts),
            download: self.download,
            upload: self.upload,
        }
    }

    /// The next ping, or the end of the ping phase.
    pub open spec fn ping(self, began_ns: u64, seq: u64, now: Clock) -> (Run, Action) {
        if self.plan.allows_ping(began_ns, seq, now) {
            (
                self.at(Stage::PingSending { began_ns, seq, sent_at_ms: now.wall_ms }),
                Action::Send(ClientMsg::Ping { seq, t_send: now.wall_ms }),
            )
        } else {
            (
                self.at(Stage::PingClosing),
                Action::SendSummary { test_id: self.test_id, figures: stats::summary(self.rtts) },
            )
        }
    }

    /// A ping has been answered.
    pub open spec fn answered(self, rtt_ms: u64) -> Run {
        Run { rtts: self.rtts.push(rtt_ms), ..self }
    }

    /// The upload begins.
    pub open spec fn open_upload(self) -> (Run, Action) {
        (self.at(Stage::UploadOpening), Action::Send(self.plan.upload_start(self.test_id)))
    }

    /// A row of chunks begins, or the upload is over.
    pub open spec fn upload(self, began_ns: u64, sent: u64, done: bool, now: Clock) -> (Run, Action) {
        if !done && self.plan.allows_chunk(began_ns, sent, now) {
            (
                self.at(Stage::ChunkSending { began_ns, sent, batch: 0 }),
                Action::SendChunk(self.plan.next_chunk(sent) as usize),
            )
        } else {
            self.finish_upload(began_ns, sent, done, now)
        }
    }

    /// A row of chunks is over: time to look for a message, or to let others
    /// run.
    pub open spec fn end_batch(self, began_ns: u64, sent: u64, now: Clock) -> (Run, Action) {
        if now.ms_since(began_ns) % POLL_INTERVAL_MS as nat == 0 {
            (self.at(Stage::UploadPolling { began_ns, sent }), Action::ReceiveBriefly)
        } else {
            self.end_turn(began_ns, sent, false, now)
        }
    }

    /// Others may run before the next row, unless the upload has reached a
    /// limit.
    pub open spec fn end_turn(self, began_ns: u64, sent: u64, done: bool, now: Clock) -> (
        Run,
        Action,
    ) {
        if self.plan.allows_chunk(began_ns, sent, now) {
            (self.at(Stage::UploadYielding { began_ns, sent, done }), Action::Yield)
        } else {
            self.finish_upload(began_ns, sent, done, now)
        }
    }

    /// The upload is over. Where the server has not ended it, the client does,
    /// and counts what it has sent.
    pub open spec fn finish_upload(self, began_ns: u64, sent: u64, done: bool, now: Clock) -> (
        Run,
        Action,
    ) {
        let ms = now.ms_since(began_ns) as u64;
        if done {
            (self.at(Stage::Finished), Action::Report(self.results()))
        } else {
            let counted = if sent > 0 {
                Run { upload: Transfer { bytes: sent, ms }, ..self }
            } else {
                self
            };
            (
                counted.at(Stage::UploadClosing),
                Action::Send(
                    ClientMsg::UploadDone { test_id: self.test_id, bytes_sent: sent, elapsed_ms: ms },
                ),
            )
        }
    }

    /// What holds of every run: no more pings have been answered than were
    /// sent, nor sent than the limit allows; the upload keeps to its limit; and
    /// a transfer counts only from its end on.
    pub open spec fn wf(self) -> bool {
        &&& self.rtts.len() <= u64::MAX
        &&& self.plan.ping_max_count > 0 ==> self.rtts.len() <= self.plan.ping_max_count
        &&& self.upload.bytes <= self.plan.upload_max_bytes
        &&& match self.stage {
            Stage::PingOpening => {
                &&& self.rtts.len() == 0
                &&& self.download == Transfer::none()
                &&& self.upload == Transfer::none()
            },
            Stage::PingSending { seq, .. } | Stage::PingWaiting { seq, .. } => {
                &&& self.rtts.len() <= seq
                &&& self.plan.ping_max_count > 0 ==> seq < self.plan.ping_max_count
                &&& self.download == Transfer::none()
                &&& self.upload == Transfer::none()
            },
            Stage::PingClosing | Stage::DownloadOpening | Stage::Downloading { .. } => {
                &&& self.download == Transfer::none()
                &&& self.upload == Transfer::none()
            },
            Stage::UploadOpening | Stage::ChunkPreparing => self.upload == Transfer::none(),
            Stage::ChunkSending { sent, batch, .. } => {
                &&& sent < self.plan.upload_max_bytes
                &&& batch < BATCH_SIZE
                &&& self.upload == Transfer::none()
            },
            Stage::UploadPolling { sent, .. } => {
                &&& sent <= self.plan.upload_max_bytes
                &&& self.upload == Transfer::none()
            },
            Stage::UploadYielding { sent, done, .. } => {
                &&& sent < self.plan.upload_max_bytes
                &&& if done {
                    self.upload.bytes == sent
                } else {
                    self.upload == Transfer::none()
                }
            },
            Stage::UploadClosing | Stage::Finished | Stage::Closed => true,
        }
    }

    /// Whether the message answers the ping that is waited for.
    pub open spec fn is_echo(self, event: Event) -> bool {
        match (self.stage, event) {
            (Stage::PingWaiting { seq, .. }, Event::Received(Incoming::Text(reply))) => reply.echoes(
                seq,
            ),
            _ => false,
        }
    }

    /// Whether the wait for the answer to a ping is over.
    pub open spec fn ping_over(self, event: Event, now: Clock) -> bool {
        self.stage matches Stage::PingWaiting { since_ns, .. } && (self.is_echo(event)
            || now.ns_since(since_ns) >= ECHO_TIMEOUT_NS)
    }

    /// Whether the event can come at this stage, with no number running over:
    /// it tells how the action that is waited for came out; no answer comes
    /// earlier by the time of day than its ping; and pings and received bytes
    /// remain few enough to be counted.
    pub open spec fn accepts(self, event: Event, now: Clock) -> bool {
        match self.stage {
            Stage::PingWaiting { seq, sent_at_ms, .. } => {
                &&& event is Received || event is NothingReceived
                &&& self.is_echo(event) ==> now.wall_ms >= sent_at_ms
                &&& self.ping_over(event, now) && event != Event::Received(Incoming::Close) ==> seq
                    < u64::MAX
            },
            Stage::Downloading { bytes, .. } => match event {
                Event::Received(Incoming::Binary(more)) => bytes + more <= u64::MAX,
                Event::Received(_) | Event::NothingReceived => true,
                _ => false,
            },
            Stage::ChunkSending { .. } => event is Performed || event is SendFailed,
            Stage::UploadPolling { .. } => event is Received || event is NothingReceived,
            Stage::Finished | Stage::Closed => false,
            _ => event is Performed,
        }
    }

    /// Where the run is after an event, and what is to be done then.
    pub open spec fn next(self, event: Event, now: Clock) -> (Run, Action)
        recommends
            self.accepts(event, now),
    {
        match self.stage {
            Stage::PingOpening => self.ping(now.mono_ns, 0, now),
            Stage::PingSending { began_ns, seq, sent_at_ms } => (
                self.at(Stage::PingWaiting { began_ns, seq, sent_at_ms, since_ns: now.mono_ns }),
                Action::Receive,
            ),
            Stage::PingWaiting { began_ns, seq, sent_at_ms, .. } => {
                if event == Event::Received(Incoming::Close) {
                    (self.at(Stage::Closed), Action::Abort)
                } else if self.is_echo(event) {
                    self.answered((now.wall_ms - sent_at_ms) as u64).ping(
                        began_ns,
                        (seq + 1) as u64,
                        now,
                    )
                } else if self.ping_over(event, now) {
                    self.ping(began_ns, (seq + 1) as u64, now)
                } else {
                    (self, Action::Receive)
                }
            },
            Stage::PingClosing => (
                self.at(Stage::DownloadOpening),
                Action::Send(self.plan.download_start(self.test_id)),
            ),
            Stage::DownloadOpening => (
                self.at(Stage::Downloading { began_ns: now.mono_ns, bytes: 0 }),
                Action::Receive,
            ),
            Stage::Downloading { began_ns, bytes } => match event {
                Event::Received(Incoming::Binary(more)) => (
                    self.at(Stage::Downloading { began_ns, bytes: (bytes + more) as u64 }),
                    Action::Receive,
                ),
                Event::Received(Incoming::Text(reply)) => if reply.ends(Phase::Download) {
                    let ms = now.ms_since(began_ns) as u64;
                    Run { download: Transfer { bytes, ms }, ..self }.open_upload()
                } else {
                    (self, Action::Receive)
                },
                Event::Received(Incoming::Close) => (self.at(Stage::Closed), Action::Abort),
                Event::Received(Incoming::Other) => (self, Action::Receive),
                _ => self.open_upload(),
            },
            Stage::UploadOpening => (
                self.at(Stage::ChunkPreparing),
                Action::PrepareChunk(self.plan.chunk_bytes),
            ),
            Stage::ChunkPreparing => self.upload(now.mono_ns, 0, false, now),
            Stage::ChunkSending { began_ns, sent, batch } => {
                if event == Event::Performed {
                    let sent = (sent + self.plan.next_chunk(sent)) as u64;
                    let batch = (batch + 1) as u64;
                    if batch < BATCH_SIZE && self.plan.allows_chunk(began_ns, sent, now) {
                        (
                            self.at(Stage::ChunkSending { began_ns, sent, batch }),
                            Action::SendChunk(self.plan.next_chunk(sent) as usize),
                        )
                    } else {
                        self.end_batch(began_ns, sent, now)
                    }
                } else {
                    self.end_batch(began_ns, sent, now)
                }
            },
            Stage::UploadPolling { began_ns, sent } => match event {
                Event::Received(Incoming::Close) => (self.at(Stage::Closed), Action::Abort),
                Event::Received(Incoming::Text(reply)) => if reply.ends(Phase::Upload) {
                    let ms = now.ms_since(began_ns) as u64;
                    Run { upload: Transfer { bytes: sent, ms }, ..self }.end_turn(
                        began_ns,
                        sent,
                        true,
                        now,
                    )
                } else {
                    self.end_turn(began_ns, sent, false, now)
                },
                _ => self.end_turn(began_ns, sent, false, now),
            },
            Stage::UploadYielding { began_ns, sent, done } => self.upload(
                began_ns,
                sent,
                done,
                now,
            ),
            Stage::UploadClosing => (self.at(Stage::Finished), Action::Report(self.results())),
            Stage::Finished => (self, Action::Report(self.results())),
            Stage::Closed => (self, Action::Abort),
        }
    }
}

} // verus!
