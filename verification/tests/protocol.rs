use lan_speedtest::protocol::{ClientMsg, Phase, Reply, ValidationError};
use lan_speedtest::stats::{PingSummary, Ratio, TestResults, Transfer};

fn json(text: &str) -> serde_json::Value {
    serde_json::from_str(text).unwrap()
}

fn messages() -> Vec<ClientMsg> {
    vec![
        ClientMsg::PingStart { test_id: 7, duration_ms: 5000, max_count: 100 },
        ClientMsg::Ping { seq: 3, t_send: 1_700_000_000_123 },
        ClientMsg::TransferStart {
            phase: Phase::Download,
            test_id: 7,
            duration_ms: 5000,
            max_bytes: 40_000_000,
            chunk_bytes: 65536,
        },
        ClientMsg::TransferStart {
            phase: Phase::Upload,
            test_id: u64::MAX,
            duration_ms: 0,
            max_bytes: u64::MAX,
            chunk_bytes: usize::MAX,
        },
        ClientMsg::UploadDone { test_id: 7, bytes_sent: 131072, elapsed_ms: 20 },
    ]
}

#[test]
fn messages_have_their_members() {
    let expected = [
        r#"{"phase":"ping","action":"start","test_id":7,"duration_ms":5000,"max_count":100}"#,
        r#"{"phase":"ping","seq":3,"t_send":1700000000123}"#,
        r#"{"phase":"download","action":"start","test_id":7,"duration_ms":5000,"max_bytes":40000000,"chunk_bytes":65536}"#,
        r#"{"phase":"upload","action":"start","test_id":18446744073709551615,"duration_ms":0,"max_bytes":18446744073709551615,"chunk_bytes":18446744073709551615}"#,
        r#"{"phase":"upload","done":true,"test_id":7,"bytes_sent":131072,"elapsed_ms":20}"#,
    ];
    for (msg, text) in messages().iter().zip(expected) {
        assert_eq!(msg.to_json(), json(text));
    }
}

#[test]
fn messages_are_written_compactly() {
    assert_eq!(
        ClientMsg::Ping { seq: 3, t_send: 5 }.to_text(),
        r#"{"phase":"ping","seq":3,"t_send":5}"#
    );
}

#[test]
fn messages_read_back() {
    for msg in messages() {
        assert_eq!(json(&msg.to_text()), msg.to_json());
        let reply = Reply::from_text(&msg.to_text()).unwrap();
        let (phase, seq, done) = match msg {
            ClientMsg::PingStart { .. } => (Phase::Ping, None, None),
            ClientMsg::Ping { seq, .. } => (Phase::Ping, Some(seq), None),
            ClientMsg::TransferStart { phase, .. } => (phase, None, None),
            ClientMsg::UploadDone { .. } => (Phase::Upload, None, Some(true)),
        };
        assert_eq!(reply, Reply { phase: Some(phase), seq, done });
    }
}

#[test]
fn ping_summary_has_its_whole_members() {
    let figures = PingSummary {
        count: 4,
        average: Ratio { num: 10, den: 4 },
        min_ms: 1,
        max_ms: 5,
    };
    let value = figures.to_json(9);
    assert_eq!(value, json(r#"{"phase":"ping","done":true,"test_id":9,"ping_count":4}"#));
    assert_eq!(
        Reply::from_value(&value),
        Reply { phase: Some(Phase::Ping), seq: None, done: Some(true) }
    );
}

#[test]
fn results_have_their_whole_members() {
    let results = TestResults {
        ping: PingSummary { count: 4, average: Ratio { num: 10, den: 4 }, min_ms: 1, max_ms: 5 },
        download: Transfer { bytes: 1000, ms: 8 },
        upload: Transfer { bytes: 2000, ms: 16 },
    };
    assert_eq!(
        results.to_json(),
        json(r#"{"ping":{"count":4},"download":{"bytes":1000,"ms":8},"upload":{"bytes":2000,"ms":16}}"#)
    );
}

#[test]
fn refusal_is_an_object_of_four_texts() {
    let refusal = ValidationError {
        field: "max_bytes".to_string(),
        value: "5".to_string(),
        max: "4".to_string(),
        message: "too \"large\"\n".to_string(),
    };
    assert_eq!(
        refusal.to_json(),
        json(r#"{"error":"too \"large\"\n","field":"max_bytes","value":"5","max":"4"}"#)
    );
}

#[test]
fn phases_have_distinct_names() {
    for phase in [Phase::Ping, Phase::Download, Phase::Upload] {
        assert_eq!(Phase::from_name(phase.name()), Some(phase));
    }
    assert_eq!(Phase::Ping.name(), "ping");
    assert_eq!(Phase::Download.name(), "download");
    assert_eq!(Phase::Upload.name(), "upload");
    assert_eq!(Phase::from_name("Ping"), None);
    assert_eq!(Phase::from_name(""), None);
}

#[test]
fn reply_takes_members_of_the_right_kind_only() {
    let none = Reply { phase: None, seq: None, done: None };
    assert_eq!(Reply::from_text("{}"), Ok(none));
    assert_eq!(Reply::from_text("[1,2]"), Ok(none));
    assert_eq!(Reply::from_text("3"), Ok(none));
    assert_eq!(
        Reply::from_text(r#"{"phase":5,"seq":"1","done":1}"#),
        Ok(none)
    );
    assert_eq!(
        Reply::from_text(r#"{"phase":"pong","seq":-1,"done":null}"#),
        Ok(none)
    );
    assert_eq!(Reply::from_text(r#"{"seq":1.0}"#), Ok(none));
    assert_eq!(
        Reply::from_text(r#" {"done":false, "seq":18446744073709551615, "phase":"upload", "x":[{}]} "#),
        Ok(Reply { phase: Some(Phase::Upload), seq: Some(u64::MAX), done: Some(false) })
    );
}

#[test]
fn text_that_is_not_json_is_refused_in_words() {
    assert_eq!(
        Reply::from_text(""),
        Err("EOF while parsing a value at line 1 column 0".to_string())
    );
    assert!(Reply::from_text("{\"phase\":").is_err());
}

#[test]
fn replies_are_told_apart() {
    let echo = Reply { phase: Some(Phase::Ping), seq: Some(4), done: None };
    assert!(echo.is_echo_of(4));
    assert!(!echo.is_echo_of(5));
    assert!(!echo.is_end_of(Phase::Ping));
    assert!(!Reply { phase: Some(Phase::Upload), ..echo }.is_echo_of(4));
    assert!(!Reply { phase: None, ..echo }.is_echo_of(4));
    let end = Reply { phase: Some(Phase::Download), seq: None, done: Some(true) };
    assert!(end.is_end_of(Phase::Download));
    assert!(!end.is_end_of(Phase::Upload));
    assert!(!Reply { done: Some(false), ..end }.is_end_of(Phase::Download));
    assert!(!Reply { done: None, ..end }.is_end_of(Phase::Download));
}
