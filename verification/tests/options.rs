use lan_speedtest::options::{random_chunk, ClientOpts, ReportForm};

fn opts(server: &str, format: &str) -> ClientOpts {
    ClientOpts {
        server: server.to_string(),
        ping_duration_ms: 5000,
        ping_max_count: 100,
        download_max_bytes: 40_000_000,
        download_duration_ms: 5000,
        upload_max_bytes: 40_000_000,
        upload_duration_ms: 5000,
        chunk_bytes: 65536,
        format: format.to_string(),
    }
}

#[test]
fn server_url_is_normalised() {
    assert_eq!(
        opts("ws://localhost:8080/ws", "text").server_url(),
        Ok("ws://localhost:8080/ws".to_string())
    );
    assert_eq!(
        opts("  WS://LocalHost:80", "text").server_url(),
        Ok("ws://localhost/".to_string())
    );
}

#[test]
fn server_that_is_no_url_is_refused() {
    assert_eq!(
        opts("localhost", "text").server_url(),
        Err("RelativeUrlWithoutBase".to_string())
    );
}

#[test]
fn report_form_follows_the_option() {
    assert_eq!(opts("", "json").report_form(), ReportForm::Json);
    assert_eq!(opts("", "text").report_form(), ReportForm::Text);
    assert_eq!(opts("", "JSON").report_form(), ReportForm::Text);
    assert_eq!(opts("", "").report_form(), ReportForm::Text);
}

#[test]
fn chunk_is_random_and_of_its_size() {
    assert_eq!(random_chunk(0), Ok(vec![]));
    let chunk = random_chunk(4096).unwrap();
    assert_eq!(chunk.len(), 4096);
    assert!(chunk.iter().any(|byte| *byte != 0));
    assert_ne!(chunk, random_chunk(4096).unwrap());
}
