//! What a test run is asked to do: the options of the client, and what they
//! call for.

use vstd::prelude::*;

verus! {

/// The options of a test run.
#[derive(Clone, Debug)]
pub struct ClientOpts {
    /// WebSocket URL of the server.
    pub server: String,
    /// How long to go on pinging.
    pub ping_duration_ms: u64,
    /// How many pings to send at most; 0 means as many as time allows.
    pub ping_max_count: u64,
    /// How many bytes to download at most.
    pub download_max_bytes: u64,
    /// How long to go on downloading.
    pub download_duration_ms: u64,
    /// How many bytes to upload at most.
    pub upload_max_bytes: u64,
    /// How long to go on uploading.
    pub upload_duration_ms: u64,
    /// The size of one chunk of data.
    pub chunk_bytes: usize,
    /// The form of the report: "json", or anything else for plain text.
    pub format: String,
}

/// The form of a report.
#[derive(Clone, Copy, Debug, PartialEq, Eq, Structural)]
pub enum ReportForm {
    Json,
    Text,
}

impl ClientOpts {
    /// The form of the report that these options ask for.
    pub fn report_form(&self) -> (form: ReportForm)
        ensures
            form == if self.format@ == "json"@ {
                ReportForm::Json
            } else {
                ReportForm::Text
            },
    {
        if self.format == "json".to_owned() {
            ReportForm::Json
        } else {
            ReportForm::Text
        }
    }
}

/// What a text is as a URL: its normal form, or the error.
pub uninterp spec fn normal_url(text: Seq<char>) -> Result<Seq<char>, Seq<char>>;

/// `url::Url::parse`, with the URL as its text and the error as it is printed
/// for debugging.
#[verifier::external_body]
fn read_url(text: &str) -> (result: Result<String, String>)
    ensures
        match result {
            Ok(address) => normal_url(text@) matches Ok(normal) && normal == address@,
            Err(words) => normal_url(text@) matches Err(said) && said == words@,
        },
{
    match url::Url::parse(text) {
        Ok(parsed) => Ok(parsed.as_str().to_string()),
        Err(error) => Err(format!("{:?}", error)),
    }
}

impl ClientOpts {
    /// The address to connect to: the server's URL in its normal form, or why
    /// the option is not a URL.
    pub fn server_url(&self) -> (result: Result<String, String>)
        ensures
            match normal_url(self.server@) {
                Ok(normal) => result matches Ok(address) && address@ == normal,
                Err(words) => result matches Err(said) && said@ == words,
            },
    {
        read_url(self.server.as_str())
    }
}

/// `getrandom::getrandom`: every byte of the buffer is overwritten with one
/// that nothing is known of. The buffer keeps its length, and an empty one is
/// filled without fail.
#[verifier::external_body]
fn fill_random(buffer: &mut Vec<u8>) -> (result: Result<(), String>)
    ensures
        final(buffer)@.len() == old(buffer)@.len(),
        old(buffer)@.len() == 0 ==> result is Ok,
{
    getrandom::getrandom(buffer.as_mut_slice()).map_err(|error| format!("{:?}", error))
}

/// A chunk of random data to upload, of that size, or why there is none.
pub fn random_chunk(chunk_bytes: usize) -> (result: Result<Vec<u8>, String>)
    requires
        chunk_bytes <= isize::MAX,
    ensures
        result matches Ok(chunk) ==> chunk@.len() == chunk_bytes,
        chunk_bytes == 0 ==> result is Ok,
{
    let mut chunk: Vec<u8> = vec![0u8; chunk_bytes];
    match fill_random(&mut chunk) {
        Ok(()) => Ok(chunk),
        Err(words) => Err(words),
    }
}

} // verus!
