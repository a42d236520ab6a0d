//! The client's side of a test run: it is told what happens, and says what to
//! do next.

use vstd::prelude::*;

use crate::json;
use crate::options::ClientOpts;
use crate::protocol::{ClientMsg, Phase, Reply};
use crate::run::{
    Action,
    Clock,
    Event,
    Incoming,
    Plan,
    Run,
    Stage,
    BATCH_SIZE,
    ECHO_TIMEOUT_NS,
    POLL_INTERVAL_MS,
};
use crate::stats::{PingStats, TestResults, Transfer};

verus! {

/// A test run in progress.
pub struct Session {
    plan: Plan,
    test_id: u64,
    stage: Stage,
    pings: PingStats,
    download: Transfer,
    upload: Transfer,
}

impl View for Session {
    type V = Run;

    closed spec fn view(&self) -> Run {
        Run {
            plan: self.plan,
            test_id: self.test_id,
            stage: self.stage,
            rtts: self.pings@,
            download: self.download,
            upload: self.upload,
        }
    }
}

impl Session {
    /// Whether this is a run as runs are.
    pub closed spec fn wf(self) -> bool {
        &&& self@.wf()
        &&& self.pings.wf()
    }

    /// What holds of every run holds of this one.
    pub proof fn wf_of_run(&self)
        requires
            self.wf(),
        ensures
            self@.wf(),
    {
    }

    /// A new run under these options, and its first action.
    pub fn start(opts: &ClientOpts, test_id: u64) -> (started: (Session, Action))
        ensures
            started.0.wf(),
            (started.0@, started.1) == Run::begin(Plan::of(*opts), test_id),
    {
        let plan = Plan {
            ping_duration_ms: opts.ping_duration_ms,
            ping_max_count: opts.ping_max_count,
            download_duration_ms: opts.download_duration_ms,
            download_max_bytes: opts.download_max_bytes,
            upload_duration_ms: opts.upload_duration_ms,
            upload_max_bytes: opts.upload_max_bytes,
            chunk_bytes: opts.chunk_bytes,
        };
        let none = Transfer { bytes: 0, ms: 0 };
        let session = Session {
            plan,
            test_id,
            stage: Stage::PingOpening,
            pings: PingStats::new(),
            download: none,
            upload: none,
        };
        let hello = ClientMsg::PingStart {
            test_id,
            duration_ms: plan.ping_duration_ms,
            max_count: plan.ping_max_count,
        };
        (session, Action::Send(hello))
    }

    /// Where the run is.
    pub fn stage(&self) -> (stage: Stage)
        ensures
            stage == self@.stage,
    {
        self.stage
    }

    /// The results so far.
    pub fn results(&self) -> (results: TestResults)
        requires
            self.wf(),
        ensures
            results == self@.results(),
    {
        self.figures()
    }

    /// The results so far.
    fn figures(&self) -> (results: TestResults)
        requires
            self.pings.wf(),
        ensures
            results == self@.results(),
    {
        TestResults { ping: self.pings.summary(), download: self.download, upload: self.upload }
    }

    /// Whether another ping may go out.
    fn may_ping(&self, began_ns: u64, seq: u64, now: Clock) -> (yes: bool)
        ensures
            yes == self@.plan.allows_ping(began_ns, seq, now),
    {
        now.elapsed_ms(began_ns) < self.plan.ping_duration_ms && (self.plan.ping_max_count == 0
            || seq < self.plan.ping_max_count)
    }

    /// Whether another chunk may go out.
    fn may_send(&self, began_ns: u64, sent: u64, now: Clock) -> (yes: bool)
        ensures
            yes == self@.plan.allows_chunk(began_ns, sent, now),
    {
        now.elapsed_ms(began_ns) < self.plan.upload_duration_ms && sent
            < self.plan.upload_max_bytes
    }

    /// The size of the next chunk.
    fn next_chunk(&self, sent: u64) -> (bytes: usize)
        requires
            sent <= self@.plan.upload_max_bytes,
        ensures
            bytes == self@.plan.next_chunk(sent),
            sent + bytes <= self@.plan.upload_max_bytes,
    {
        let left: u64 = self.plan.upload_max_bytes - sent;
        if self.plan.chunk_bytes as u64 <= left {
            self.plan.chunk_bytes
        } else {
            left as usize
        }
    }

    /// Whether the message answers the ping that is waited for.
    fn is_echo(&self, event: Event) -> (yes: bool)
        ensures
            yes == self@.is_echo(event),
    {
        match (self.stage, event) {
            (Stage::PingWaiting { seq, .. }, Event::Received(Incoming::Text(reply))) => {
                reply.is_echo_of(seq)
            },
            _ => false,
        }
    }

    /// Whether the event can come now, with no number running over.
    pub fn accepts(&self, event: Event, now: Clock) -> (yes: bool)
        ensures
            yes == self@.accepts(event, now),
    {
        match self.stage {
            Stage::PingWaiting { seq, sent_at_ms, since_ns, .. } => {
                let echo = self.is_echo(event);
                let over = echo || now.elapsed_ns(since_ns) >= ECHO_TIMEOUT_NS;
                match event {
                    Event::Received(Incoming::Close) => true,
                    Event::Received(_) | Event::NothingReceived => {
                        (!echo || now.wall_ms >= sent_at_ms) && (!over || seq < u64::MAX)
                    },
                    _ => false,
                }
            },
            Stage::Downloading { bytes, .. } => match event {
                Event::Received(Incoming::Binary(more)) => more as u64 <= u64::MAX - bytes,
                Event::Received(_) | Event::NothingReceived => true,
                _ => false,
            },
            Stage::ChunkSending { .. } => match event {
                Event::Performed | Event::SendFailed => true,
                _ => false,
            },
            Stage::UploadPolling { .. } => match event {
                Event::Received(_) | Event::NothingReceived => true,
                _ => false,
            },
            Stage::Finished | Stage::Closed => false,
            _ => match event {
                Event::Performed => true,
                _ => false,
            },
        }
    }

    /// The next ping, or the end of the ping phase.
    fn ping(&mut self, began_ns: u64, seq: u64, now: Clock) -> (action: Action)
        requires
            old(self).pings.wf(),
        ensures
            final(self).pings.wf(),
            (final(self)@, action) == old(self)@.ping(began_ns, seq, now),
    {
        if self.may_ping(began_ns, seq, now) {
            self.stage = Stage::PingSending { began_ns, seq, sent_at_ms: now.wall_ms };
            Action::Send(ClientMsg::Ping { seq, t_send: now.wall_ms })
        } else {
            self.stage = Stage::PingClosing;
            Action::SendSummary { test_id: self.test_id, figures: self.pings.summary() }
        }
    }

    /// The upload begins.
    fn open_upload(&mut self) -> (action: Action)
        requires
            old(self).pings.wf(),
        ensures
            final(self).pings.wf(),
            (final(self)@, action) == old(self)@.open_upload(),
    {
        self.stage = Stage::UploadOpening;
        Action::Send(
            ClientMsg::TransferStart {
                phase: Phase::Upload,
                test_id: self.test_id,
                duration_ms: self.plan.upload_duration_ms,
                max_bytes: self.plan.upload_max_bytes,
                chunk_bytes: self.plan.chunk_bytes,
            },
        )
    }

    /// A row of chunks begins, or the upload is over.
    fn upload(&mut self, began_ns: u64, sent: u64, done: bool, now: Clock) -> (action: Action)
        requires
            old(self).pings.wf(),
        ensures
            final(self).pings.wf(),
            (final(self)@, action) == old(self)@.upload(began_ns, sent, done, now),
    {
        if !done && self.may_send(began_ns, sent, now) {
            self.stage = Stage::ChunkSending { began_ns, sent, batch: 0 };
            Action::SendChunk(self.next_chunk(sent))
        } else {
            self.finish_upload(began_ns, sent, done, now)
        }
    }

    /// A row of chunks is over.
    fn end_batch(&mut self, began_ns: u64, sent: u64, now: Clock) -> (action: Action)
        requires
            old(self).pings.wf(),
        ensures
            final(self).pings.wf(),
            (final(self)@, action) == old(self)@.end_batch(began_ns, sent, now),
    {
        if now.elapsed_ms(began_ns) % POLL_INTERVAL_MS == 0 {
            self.stage = Stage::UploadPolling { began_ns, sent };
            Action::ReceiveBriefly
        } else {
            self.end_turn(began_ns, sent, false, now)
        }
    }

    /// Others may run before the next row, unless the upload is over.
    fn end_turn(&mut self, began_ns: u64, sent: u64, done: bool, now: Clock) -> (action: Action)
        requires
            old(self).pings.wf(),
        ensures
            final(self).pings.wf(),
            (final(self)@, action) == old(self)@.end_turn(began_ns, sent, done, now),
    {
        if self.may_send(began_ns, sent, now) {
            self.stage = Stage::UploadYielding { began_ns, sent, done };
            Action::Yield
        } else {
            self.finish_upload(began_ns, sent, done, now)
        }
    }

    /// The upload is over.
    fn finish_upload(&mut self, began_ns: u64, sent: u64, done: bool, now: Clock) -> (action:
        Action)
        requires
            old(self).pings.wf(),
        ensures
            final(self).pings.wf(),
            (final(self)@, action) == old(self)@.finish_upload(began_ns, sent, done, now),
    {
        if done {
            self.stage = Stage::Finished;
            self.report()
        } else {
            let ms: u64 = now.elapsed_ms(began_ns);
            if sent > 0 {
                self.upload = Transfer { bytes: sent, ms };
            }
            self.stage = Stage::UploadClosing;
            Action::Send(
                ClientMsg::UploadDone { test_id: self.test_id, bytes_sent: sent, elapsed_ms: ms },
            )
        }
    }

    /// The report of the results.
    fn report(&self) -> (action: Action)
        requires
            self.pings.wf(),
        ensures
            action == Action::Report(self@.results()),
    {
        Action::Report(self.figures())
    }

    /// The server has closed the connection.
    fn close(&mut self) -> (action: Action)
        requires
            old(self).pings.wf(),
        ensures
            final(self).pings.wf(),
            (final(self)@, action) == (old(self)@.at(Stage::Closed), Action::Abort),
    {
        self.stage = Stage::Closed;
        Action::Abort
    }

    /// Takes an event, and says what to do next.
    pub fn step(&mut self, event: Event, now: Clock) -> (action: Action)
        requires
            old(self).wf(),
            old(self)@.accepts(event, now),
        ensures
            final(self).wf(),
            (final(self)@, action) == old(self)@.next(event, now),
    {
        match self.stage {
            Stage::PingOpening => self.ping(now.mono_ns, 0, now),
            Stage::PingSending { began_ns, seq, sent_at_ms } => {
                self.stage = Stage::PingWaiting {
                    began_ns,
                    seq,
                    sent_at_ms,
                    since_ns: now.mono_ns,
                };
                Action::Receive
            },
            Stage::PingWaiting { began_ns, seq, sent_at_ms, since_ns } => {
                if let Event::Received(Incoming::Close) = event {
                    self.close()
                } else if self.is_echo(event) {
                    self.pings.record(now.wall_ms - sent_at_ms);
                    self.ping(began_ns, seq + 1, now)
                } else if now.elapsed_ns(since_ns) >= ECHO_TIMEOUT_NS {
                    self.ping(began_ns, seq + 1, now)
                } else {
                    Action::Receive
                }
            },
            Stage::PingClosing => {
                self.stage = Stage::DownloadOpening;
                Action::Send(
                    ClientMsg::TransferStart {
                        phase: Phase::Download,
                        test_id: self.test_id,
                        duration_ms: self.plan.download_duration_ms,
                        max_bytes: self.plan.download_max_bytes,
                        chunk_bytes: self.plan.chunk_bytes,
                    },
                )
            },
            Stage::DownloadOpening => {
                self.stage = Stage::Downloading { began_ns: now.mono_ns, bytes: 0 };
                Action::Receive
            },
            Stage::Downloading { began_ns, bytes } => match event {
                Event::Received(Incoming::Binary(more)) => {
                    self.stage = Stage::Downloading { began_ns, bytes: bytes + more as u64 };
                    Action::Receive
                },
                Event::Received(Incoming::Text(reply)) => {
                    if reply.is_end_of(Phase::Download) {
                        self.download = Transfer { bytes, ms: now.elapsed_ms(began_ns) };
                        self.open_upload()
                    } else {
                        Action::Receive
                    }
                },
                Event::Received(Incoming::Close) => self.close(),
                Event::Received(Incoming::Other) => Action::Receive,
                _ => self.open_upload(),
            },
            Stage::UploadOpening => {
                self.stage = Stage::ChunkPreparing;
                Action::PrepareChunk(self.plan.chunk_bytes)
            },
            Stage::ChunkPreparing => self.upload(now.mono_ns, 0, false, now),
            Stage::ChunkSending { began_ns, sent, batch } => {
                if let Event::Performed = event {
                    let sent: u64 = sent + self.next_chunk(sent) as u64;
                    let batch: u64 = batch + 1;
                    if batch < BATCH_SIZE && self.may_send(began_ns, sent, now) {
                        self.stage = Stage::ChunkSending { began_ns, sent, batch };
                        Action::SendChunk(self.next_chunk(sent))
                    } else {
                        self.end_batch(began_ns, sent, now)
                    }
                } else {
                    self.end_batch(began_ns, sent, now)
                }
            },
            Stage::UploadPolling { began_ns, sent } => match event {
                Event::Received(Incoming::Close) => self.close(),
                Event::Received(Incoming::Text(reply)) => {
                    if reply.is_end_of(Phase::Upload) {
                        self.upload = Transfer { bytes: sent, ms: now.elapsed_ms(began_ns) };
                        self.end_turn(began_ns, sent, true, now)
                    } else {
                        self.end_turn(began_ns, sent, false, now)
                    }
                },
                _ => self.end_turn(began_ns, sent, false, now),
            },
            Stage::UploadYielding { began_ns, sent, done } => {
                self.upload(began_ns, sent, done, now)
            },
            Stage::UploadClosing => {
                self.stage = Stage::Finished;
                self.report()
            },
            Stage::Finished => self.report(),
            Stage::Closed => Action::Abort,
        }
    }

    /// Takes a text of the server as it came, and says what to do next. A text
    /// that is not JSON, or that cannot come now, leaves the run as it is.
    pub fn step_text(&mut self, text: &str, now: Clock) -> (result: Result<Action, TextError>)
        requires
            old(self).wf(),
        ensures
            final(self).wf(),
            match json::parsed(text@) {
                Ok(json) => {
                    let event = Event::Received(Incoming::Text(Reply::of(json)));
                    if old(self)@.accepts(event, now) {
                        result matches Ok(action) && (final(self)@, action) == old(self)@.next(
                            event,
                            now,
                        )
                    } else {
                        result == Err::<Action, TextError>(TextError::Unexpected) && final(self)@
                            == old(self)@
                    }
                },
                Err(words) => {
                    &&& result matches Err(TextError::NotJson(said)) && said@ == words
                    &&& final(self)@ == old(self)@
                },
            },
    {
        match Reply::from_text(text) {
            Ok(reply) => {
                let event = Event::Received(Incoming::Text(reply));
                if self.accepts(event, now) {
                    Ok(self.step(event, now))
                } else {
                    Err(TextError::Unexpected)
                }
            },
            Err(words) => Err(TextError::NotJson(words)),
        }
    }
}

/// Why a text of the server is not taken.
#[derive(Debug)]
pub enum TextError {
    /// It is not JSON, in the parser's words.
    NotJson(String),
    /// It cannot come now.
    Unexpected,
}

} // verus!
