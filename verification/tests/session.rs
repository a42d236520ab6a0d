use lan_speedtest::options::ClientOpts;
use lan_speedtest::protocol::{ClientMsg, Phase, Reply};
use lan_speedtest::run::{Action, Clock, Event, Incoming, Stage};
use lan_speedtest::session::{Session, TextError};
use lan_speedtest::stats::{PingSummary, Ratio, Transfer};

const MS: u64 = 1_000_000;

fn opts() -> ClientOpts {
    ClientOpts {
        server: "ws://localhost:8080/ws".to_string(),
        ping_duration_ms: 100,
        ping_max_count: 2,
        download_max_bytes: 5000,
        download_duration_ms: 200,
        upload_max_bytes: 100,
        upload_duration_ms: 1000,
        chunk_bytes: 30,
        format: "text".to_string(),
    }
}

fn at(ms: u64) -> Clock {
    Clock { mono_ns: ms * MS, wall_ms: 50_000 + ms }
}

fn step(session: &mut Session, event: Event, now: Clock) -> Action {
    assert!(session.accepts(event, now));
    session.step(event, now)
}

fn text(phase: Phase, seq: Option<u64>, done: Option<bool>) -> Event {
    Event::Received(Incoming::Text(Reply { phase: Some(phase), seq, done }))
}

fn end_of(phase: Phase) -> Event {
    text(phase, None, Some(true))
}

fn echo(seq: u64) -> Event {
    text(Phase::Ping, Some(seq), None)
}

/// A run that has sent its first ping at millisecond 10 and waits.
fn waiting(opts: &ClientOpts) -> Session {
    let (mut session, _) = Session::start(opts, 7);
    assert_eq!(
        step(&mut session, Event::Performed, at(10)),
        Action::Send(ClientMsg::Ping { seq: 0, t_send: 50_010 })
    );
    assert_eq!(step(&mut session, Event::Performed, at(10)), Action::Receive);
    session
}

/// A run whose download begins at millisecond 100, without pings.
fn downloading(opts: &ClientOpts) -> Session {
    let opts = ClientOpts { ping_duration_ms: 0, ..opts.clone() };
    let (mut session, _) = Session::start(&opts, 7);
    step(&mut session, Event::Performed, at(0));
    step(&mut session, Event::Performed, at(0));
    assert_eq!(step(&mut session, Event::Performed, at(100)), Action::Receive);
    session
}

/// A run that is about to make its chunk, without pings or download.
fn preparing(opts: &ClientOpts) -> Session {
    let mut session = downloading(opts);
    step(&mut session, Event::NothingReceived, at(100));
    assert_eq!(
        step(&mut session, Event::Performed, at(100)),
        Action::PrepareChunk(opts.chunk_bytes)
    );
    session
}

#[test]
fn whole_run() {
    let (mut session, first) = Session::start(&opts(), 7);
    assert_eq!(
        first,
        Action::Send(ClientMsg::PingStart { test_id: 7, duration_ms: 100, max_count: 2 })
    );
    let s = &mut session;
    assert_eq!(
        step(s, Event::Performed, at(0)),
        Action::Send(ClientMsg::Ping { seq: 0, t_send: 50_000 })
    );
    assert_eq!(step(s, Event::Performed, at(1)), Action::Receive);
    assert_eq!(
        step(s, echo(0), at(4)),
        Action::Send(ClientMsg::Ping { seq: 1, t_send: 50_004 })
    );
    assert_eq!(step(s, Event::Performed, at(5)), Action::Receive);
    let figures = PingSummary {
        count: 2,
        average: Ratio { num: 11, den: 2 },
        min_ms: 4,
        max_ms: 7,
    };
    assert_eq!(
        step(s, echo(1), at(11)),
        Action::SendSummary { test_id: 7, figures }
    );
    assert_eq!(
        step(s, Event::Performed, at(12)),
        Action::Send(ClientMsg::TransferStart {
            phase: Phase::Download,
            test_id: 7,
            duration_ms: 200,
            max_bytes: 5000,
            chunk_bytes: 30,
        })
    );
    assert_eq!(step(s, Event::Performed, at(20)), Action::Receive);
    assert_eq!(step(s, Event::Received(Incoming::Binary(700)), at(21)), Action::Receive);
    assert_eq!(step(s, Event::Received(Incoming::Binary(300)), at(22)), Action::Receive);
    assert_eq!(
        step(s, end_of(Phase::Download), at(30)),
        Action::Send(ClientMsg::TransferStart {
            phase: Phase::Upload,
            test_id: 7,
            duration_ms: 1000,
            max_bytes: 100,
            chunk_bytes: 30,
        })
    );
    assert_eq!(step(s, Event::Performed, at(31)), Action::PrepareChunk(30));
    assert_eq!(step(s, Event::Performed, at(40)), Action::SendChunk(30));
    assert_eq!(step(s, Event::Performed, at(41)), Action::SendChunk(30));
    assert_eq!(step(s, Event::Performed, at(42)), Action::SendChunk(30));
    assert_eq!(step(s, Event::Performed, at(43)), Action::SendChunk(10));
    assert_eq!(
        step(s, Event::Performed, at(45)),
        Action::Send(ClientMsg::UploadDone { test_id: 7, bytes_sent: 100, elapsed_ms: 5 })
    );
    let results = match step(s, Event::Performed, at(46)) {
        Action::Report(results) => results,
        other => panic!("{:?}", other),
    };
    assert_eq!(results.ping, figures);
    assert_eq!(results.download, Transfer { bytes: 1000, ms: 10 });
    assert_eq!(results.upload, Transfer { bytes: 100, ms: 5 });
    assert_eq!(s.results(), results);
    assert_eq!(s.stage(), Stage::Finished);
    assert!(!s.accepts(Event::Performed, at(47)));
}

#[test]
fn no_time_means_no_pings() {
    let (mut session, _) = Session::start(&ClientOpts { ping_duration_ms: 0, ..opts() }, 7);
    let zero = PingSummary { count: 0, average: Ratio { num: 0, den: 1 }, min_ms: 0, max_ms: 0 };
    assert_eq!(
        step(&mut session, Event::Performed, at(0)),
        Action::SendSummary { test_id: 7, figures: zero }
    );
}

#[test]
fn zero_count_means_no_limit_of_pings() {
    let mut session = waiting(&ClientOpts { ping_max_count: 0, ..opts() });
    for seq in 0..50 {
        assert_eq!(
            step(&mut session, echo(seq), at(11)),
            Action::Send(ClientMsg::Ping { seq: seq + 1, t_send: 50_011 })
        );
        assert_eq!(step(&mut session, Event::Performed, at(11)), Action::Receive);
    }
}

#[test]
fn pings_end_with_their_time() {
    let mut session = waiting(&opts());
    match step(&mut session, echo(0), at(110)) {
        Action::SendSummary { figures, .. } => assert_eq!(figures.count, 1),
        other => panic!("{:?}", other),
    }
    let mut session = waiting(&opts());
    assert_eq!(
        step(&mut session, echo(0), Clock { mono_ns: 110 * MS - 1, wall_ms: 50_109 }),
        Action::Send(ClientMsg::Ping { seq: 1, t_send: 50_109 })
    );
}

#[test]
fn other_messages_do_not_count_as_answers() {
    let mut session = waiting(&opts());
    for event in [
        echo(1),
        text(Phase::Download, Some(0), None),
        text(Phase::Ping, None, Some(true)),
        Event::Received(Incoming::Binary(10)),
        Event::Received(Incoming::Other),
        Event::NothingReceived,
    ] {
        let before = session.stage();
        assert_eq!(step(&mut session, event, at(1009)), Action::Receive);
        assert_eq!(session.stage(), before);
    }
    assert_eq!(session.results().ping.count, 0);
}

#[test]
fn unanswered_ping_times_out() {
    let opts = ClientOpts { ping_duration_ms: 5000, ..opts() };
    let mut session = waiting(&opts);
    assert_eq!(
        step(&mut session, echo(9), at(1010)),
        Action::Send(ClientMsg::Ping { seq: 1, t_send: 51_010 })
    );
    assert_eq!(session.results().ping.count, 0);
    let mut session = waiting(&opts);
    assert_eq!(
        step(&mut session, Event::NothingReceived, at(1010)),
        Action::Send(ClientMsg::Ping { seq: 1, t_send: 51_010 })
    );
    // an answer that comes late still counts
    let mut session = waiting(&opts);
    step(&mut session, echo(0), at(2010));
    assert_eq!(session.results().ping.max_ms, 2000);
}

#[test]
fn own_ping_is_taken_for_the_answer() {
    let mut session = waiting(&opts());
    let ping = ClientMsg::Ping { seq: 0, t_send: 50_010 }.to_text();
    assert!(matches!(
        session.step_text(&ping, at(15)),
        Ok(Action::Send(ClientMsg::Ping { seq: 1, t_send: 50_015 }))
    ));
    assert_eq!(session.results().ping.max_ms, 5);
}

#[test]
fn text_that_is_not_json_changes_nothing() {
    let mut session = waiting(&opts());
    let before = session.stage();
    assert!(matches!(session.step_text("ping", at(15)), Err(TextError::NotJson(_))));
    assert_eq!(session.stage(), before);
}

#[test]
fn text_out_of_place_is_refused() {
    let (mut session, _) = Session::start(&opts(), 7);
    assert!(matches!(session.step_text("{}", at(15)), Err(TextError::Unexpected)));
    assert_eq!(session.stage(), Stage::PingOpening);
}

#[test]
fn answer_before_its_ping_is_not_accepted() {
    let session = waiting(&opts());
    let early = Clock { mono_ns: 11 * MS, wall_ms: 50_009 };
    assert!(!session.accepts(echo(0), early));
    assert!(session.accepts(echo(1), early));
    assert!(session.accepts(echo(0), Clock { mono_ns: 0, wall_ms: 50_010 }));
}

#[test]
fn close_ends_the_run_in_each_phase() {
    let close = Event::Received(Incoming::Close);
    let mut session = waiting(&opts());
    assert_eq!(step(&mut session, close, at(11)), Action::Abort);
    assert_eq!(session.stage(), Stage::Closed);
    let mut session = downloading(&opts());
    assert_eq!(step(&mut session, close, at(101)), Action::Abort);
    assert_eq!(session.stage(), Stage::Closed);
    let mut session = preparing(&opts());
    step(&mut session, Event::Performed, at(200));
    assert_eq!(step(&mut session, Event::SendFailed, at(300)), Action::ReceiveBriefly);
    assert_eq!(step(&mut session, close, at(301)), Action::Abort);
    assert_eq!(session.stage(), Stage::Closed);
}

#[test]
fn download_waits_for_its_own_end() {
    let mut session = downloading(&opts());
    for event in [
        end_of(Phase::Ping),
        end_of(Phase::Upload),
        text(Phase::Download, None, Some(false)),
        text(Phase::Download, None, None),
        Event::Received(Incoming::Other),
    ] {
        assert_eq!(step(&mut session, event, at(101)), Action::Receive);
    }
    step(&mut session, Event::Received(Incoming::Binary(64)), at(102));
    step(&mut session, end_of(Phase::Download), at(108));
    assert_eq!(session.results().download, Transfer { bytes: 64, ms: 8 });
}

#[test]
fn broken_download_leads_to_the_upload_without_results() {
    let mut session = downloading(&opts());
    step(&mut session, Event::Received(Incoming::Binary(64)), at(102));
    assert!(matches!(
        step(&mut session, Event::NothingReceived, at(103)),
        Action::Send(ClientMsg::TransferStart { phase: Phase::Upload, .. })
    ));
    assert_eq!(session.results().download, Transfer { bytes: 0, ms: 0 });
}

#[test]
fn download_of_too_many_bytes_is_not_accepted() {
    let mut session = downloading(&opts());
    step(&mut session, Event::Received(Incoming::Binary(usize::MAX)), at(102));
    assert!(!session.accepts(Event::Received(Incoming::Binary(1)), at(103)));
    assert!(session.accepts(Event::Received(Incoming::Binary(0)), at(103)));
}

#[test]
fn chunks_go_out_in_rows() {
    let mut session = preparing(&ClientOpts { upload_max_bytes: 10_000, ..opts() });
    assert_eq!(step(&mut session, Event::Performed, at(200)), Action::SendChunk(30));
    for _ in 0..15 {
        assert_eq!(step(&mut session, Event::Performed, at(201)), Action::SendChunk(30));
    }
    assert_eq!(step(&mut session, Event::Performed, at(201)), Action::Yield);
    assert_eq!(
        session.stage(),
        Stage::UploadYielding { began_ns: 200 * MS, sent: 480, done: false }
    );
    assert_eq!(step(&mut session, Event::Performed, at(202)), Action::SendChunk(30));
}

#[test]
fn last_chunk_is_cut_to_the_limit() {
    let mut session = preparing(&ClientOpts { chunk_bytes: 64, ..opts() });
    assert_eq!(step(&mut session, Event::Performed, at(200)), Action::SendChunk(64));
    assert_eq!(step(&mut session, Event::Performed, at(201)), Action::SendChunk(36));
    assert_eq!(
        step(&mut session, Event::Performed, at(202)),
        Action::Send(ClientMsg::UploadDone { test_id: 7, bytes_sent: 100, elapsed_ms: 2 })
    );
    assert_eq!(session.results().upload, Transfer { bytes: 100, ms: 2 });
    // a chunk that is larger than the limit
    let mut session = preparing(&ClientOpts { chunk_bytes: 4096, ..opts() });
    assert_eq!(step(&mut session, Event::Performed, at(200)), Action::SendChunk(100));
    // a limit that is a number of whole chunks
    let mut session = preparing(&ClientOpts { chunk_bytes: 50, ..opts() });
    assert_eq!(step(&mut session, Event::Performed, at(200)), Action::SendChunk(50));
    assert_eq!(step(&mut session, Event::Performed, at(200)), Action::SendChunk(50));
    assert_eq!(step(&mut session, Event::Performed, at(200)), Action::ReceiveBriefly);
}

#[test]
fn full_upload_ends_at_exactly_the_limit() {
    let opts = ClientOpts {
        upload_max_bytes: 40_000_000,
        upload_duration_ms: 5000,
        chunk_bytes: 65536,
        ..opts()
    };
    let mut session = preparing(&opts);
    let mut action = step(&mut session, Event::Performed, at(200));
    let mut sent = 0;
    let mut chunks = 0;
    loop {
        match action {
            Action::SendChunk(length) => {
                assert!(length <= 65536);
                sent += length;
                chunks += 1;
            }
            Action::Yield => {}
            other => {
                assert_eq!(
                    other,
                    Action::Send(ClientMsg::UploadDone {
                        test_id: 7,
                        bytes_sent: 40_000_000,
                        elapsed_ms: 1,
                    })
                );
                break;
            }
        }
        action = step(&mut session, Event::Performed, at(201));
    }
    assert_eq!(sent, 40_000_000);
    assert_eq!(chunks, 611);
    assert_eq!(session.results().upload, Transfer { bytes: 40_000_000, ms: 1 });
}

#[test]
fn limit_of_the_largest_number_is_no_overflow() {
    let opts = ClientOpts { upload_max_bytes: u64::MAX, chunk_bytes: usize::MAX, ..opts() };
    let mut session = preparing(&opts);
    assert_eq!(step(&mut session, Event::Performed, at(200)), Action::SendChunk(usize::MAX));
    assert!(session.accepts(Event::Performed, at(201)));
}

#[test]
fn empty_chunks_go_out_until_time_is_over() {
    let mut session = preparing(&ClientOpts { chunk_bytes: 0, ..opts() });
    assert_eq!(step(&mut session, Event::Performed, at(200)), Action::SendChunk(0));
    for _ in 0..15 {
        assert_eq!(step(&mut session, Event::Performed, at(201)), Action::SendChunk(0));
    }
    assert_eq!(step(&mut session, Event::Performed, at(201)), Action::Yield);
    assert_eq!(step(&mut session, Event::Performed, at(201)), Action::SendChunk(0));
    assert_eq!(
        step(&mut session, Event::Performed, at(1201)),
        Action::Send(ClientMsg::UploadDone { test_id: 7, bytes_sent: 0, elapsed_ms: 1001 })
    );
}

#[test]
fn upload_looks_for_messages_now_and_then() {
    let mut session = preparing(&opts());
    step(&mut session, Event::Performed, at(200));
    assert_eq!(step(&mut session, Event::SendFailed, at(299)), Action::Yield);
    assert_eq!(step(&mut session, Event::Performed, at(299)), Action::SendChunk(30));
    assert_eq!(step(&mut session, Event::SendFailed, at(300)), Action::ReceiveBriefly);
    assert_eq!(step(&mut session, Event::NothingReceived, at(301)), Action::Yield);
}

#[test]
fn server_ends_the_upload() {
    let mut session = preparing(&opts());
    step(&mut session, Event::Performed, at(200));
    step(&mut session, Event::Performed, at(250));
    assert_eq!(step(&mut session, Event::SendFailed, at(300)), Action::ReceiveBriefly);
    assert_eq!(step(&mut session, end_of(Phase::Upload), at(301)), Action::Yield);
    let results = match step(&mut session, Event::Performed, at(302)) {
        Action::Report(results) => results,
        other => panic!("{:?}", other),
    };
    assert_eq!(results.upload, Transfer { bytes: 30, ms: 101 });
    // at the limit of time the run ends at once
    let mut session = preparing(&opts());
    step(&mut session, Event::Performed, at(200));
    assert_eq!(step(&mut session, Event::SendFailed, at(1100)), Action::ReceiveBriefly);
    assert!(matches!(
        step(&mut session, end_of(Phase::Upload), at(1200)),
        Action::Report(_)
    ));
}

#[test]
fn other_messages_do_not_end_the_upload() {
    for event in [
        end_of(Phase::Download),
        text(Phase::Upload, None, Some(false)),
        Event::Received(Incoming::Binary(5)),
        Event::Received(Incoming::Other),
    ] {
        let mut session = preparing(&opts());
        step(&mut session, Event::Performed, at(200));
        assert_eq!(step(&mut session, Event::SendFailed, at(300)), Action::ReceiveBriefly);
        assert_eq!(step(&mut session, event, at(301)), Action::Yield);
        assert_eq!(step(&mut session, Event::Performed, at(301)), Action::SendChunk(30));
    }
}

#[test]
fn upload_of_nothing_is_no_result() {
    let mut session = preparing(&opts());
    step(&mut session, Event::Performed, at(200));
    assert_eq!(
        step(&mut session, Event::SendFailed, at(1201)),
        Action::Send(ClientMsg::UploadDone { test_id: 7, bytes_sent: 0, elapsed_ms: 1001 })
    );
    assert_eq!(session.results().upload, Transfer { bytes: 0, ms: 0 });
}

#[test]
fn no_bytes_or_no_time_means_no_chunks() {
    for opts in [
        ClientOpts { upload_max_bytes: 0, ..opts() },
        ClientOpts { upload_duration_ms: 0, ..opts() },
    ] {
        let mut session = preparing(&opts);
        assert_eq!(
            step(&mut session, Event::Performed, at(200)),
            Action::Send(ClientMsg::UploadDone { test_id: 7, bytes_sent: 0, elapsed_ms: 0 })
        );
    }
}

#[test]
fn clock_that_lags_shows_no_time() {
    let now = Clock { mono_ns: 5, wall_ms: 0 };
    assert_eq!(now.elapsed_ns(9), 0);
    assert_eq!(now.elapsed_ms(9), 0);
    assert_eq!(Clock { mono_ns: 3 * MS - 1, wall_ms: 0 }.elapsed_ms(0), 2);
    assert_eq!(Clock { mono_ns: 7, wall_ms: 0 }.elapsed_ns(3), 4);
}
