//! The messages that client and server exchange.

use vstd::prelude::*;

use crate::json;
use crate::json::Json;
use crate::stats::PingSummary;

verus! {

/// A phase of a test run.
#[derive(Clone, Copy, Debug, PartialEq, Eq, Structural)]
pub enum Phase {
    Ping,
    Download,
    Upload,
}

impl Phase {
    /// What the phase is called in a message.
    pub open spec fn label(self) -> Seq<char> {
        match self {
            Phase::Ping => "ping"@,
            Phase::Download => "download"@,
            Phase::Upload => "upload"@,
        }
    }

    /// The phase of that label, if there is one.
    pub open spec fn labelled(label: Seq<char>) -> Option<Phase> {
        if label == Phase::Ping.label() {
            Some(Phase::Ping)
        } else if label == Phase::Download.label() {
            Some(Phase::Download)
        } else if label == Phase::Upload.label() {
            Some(Phase::Upload)
        } else {
            None
        }
    }

    /// What the phase is called in a message.
    pub fn name(&self) -> (name: &'static str)
        ensures
            name@ == self.label(),
    {
        match self {
            Phase::Ping => "ping",
            Phase::Download => "download",
            Phase::Upload => "upload",
        }
    }

    /// The phase of that name, if there is one.
    pub fn from_name(name: &str) -> (phase: Option<Phase>)
        ensures
            phase == Phase::labelled(name@),
    {
        let name = name.to_owned();
        if name == "ping".to_owned() {
            Some(Phase::Ping)
        } else if name == "download".to_owned() {
            Some(Phase::Download)
        } else if name == "upload".to_owned() {
            Some(Phase::Upload)
        } else {
            None
        }
    }
}

/// A phase is the one of its label, so no two phases share a label.
pub proof fn phase_of_its_label(phase: Phase)
    ensures
        Phase::labelled(phase.label()) == Some(phase),
{
    reveal_strlit("ping");
    reveal_strlit("download");
    reveal_strlit("upload");
    assert("ping"@.len() == 4 && "download"@.len() == 8 && "upload"@.len() == 6);
}

/// The phases go by the names "ping", "download" and "upload", and by no other.
pub proof fn names_of_the_phases(label: Seq<char>)
    ensures
        Phase::Ping.label() == "ping"@,
        Phase::Download.label() == "download"@,
        Phase::Upload.label() == "upload"@,
        Phase::labelled(label) == Some(Phase::Ping) <==> label == "ping"@,
        Phase::labelled(label) == Some(Phase::Download) <==> label == "download"@,
        Phase::labelled(label) == Some(Phase::Upload) <==> label == "upload"@,
{
    phase_of_its_label(Phase::Ping);
    phase_of_its_label(Phase::Download);
    phase_of_its_label(Phase::Upload);
}

/// A message of the client. The figures at the end of the ping phase go out as
/// a `PingSummary`.
#[derive(Clone, Copy, Debug, PartialEq, Eq, Structural)]
pub enum ClientMsg {
    /// The ping phase begins.
    PingStart { test_id: u64, duration_ms: u64, max_count: u64 },
    /// One ping, with the time in milliseconds at which it was sent.
    Ping { seq: u64, t_send: u64 },
    /// The download or the upload phase begins.
    TransferStart {
        phase: Phase,
        test_id: u64,
        duration_ms: u64,
        max_bytes: u64,
        chunk_bytes: usize,
    },
    /// The client ends the upload phase.
    UploadDone { test_id: u64, bytes_sent: u64, elapsed_ms: u64 },
}

impl ClientMsg {
    /// The message as a JSON object.
    pub open spec fn json(self) -> Json {
        match self {
            ClientMsg::PingStart { test_id, duration_ms, max_count } => Json::Object(
                map![
                    "phase"@ => Json::Text(Phase::Ping.label()),
                    "action"@ => Json::Text("start"@),
                    "test_id"@ => Json::Unsigned(test_id),
                    "duration_ms"@ => Json::Unsigned(duration_ms),
                    "max_count"@ => Json::Unsigned(max_count),
                ],
            ),
            ClientMsg::Ping { seq, t_send } => Json::Object(
                map![
                    "phase"@ => Json::Text(Phase::Ping.label()),
                    "seq"@ => Json::Unsigned(seq),
                    "t_send"@ => Json::Unsigned(t_send),
                ],
            ),
            ClientMsg::TransferStart { phase, test_id, duration_ms, max_bytes, chunk_bytes } =>
                Json::Object(
                map![
                    "phase"@ => Json::Text(phase.label()),
                    "action"@ => Json::Text("start"@),
                    "test_id"@ => Json::Unsigned(test_id),
                    "duration_ms"@ => Json::Unsigned(duration_ms),
                    "max_bytes"@ => Json::Unsigned(max_bytes),
                    "chunk_bytes"@ => Json::Unsigned(chunk_bytes as u64),
                ],
            ),
            ClientMsg::UploadDone { test_id, bytes_sent, elapsed_ms } => Json::Object(
                map![
                    "phase"@ => Json::Text(Phase::Upload.label()),
                    "done"@ => Json::Flag(true),
                    "test_id"@ => Json::Unsigned(test_id),
                    "bytes_sent"@ => Json::Unsigned(bytes_sent),
                    "elapsed_ms"@ => Json::Unsigned(elapsed_ms),
                ],
            ),
        }
    }

    /// The phase that the message belongs to.
    pub open spec fn phase(self) -> Phase {
        match self {
            ClientMsg::PingStart { .. } => Phase::Ping,
            ClientMsg::Ping { .. } => Phase::Ping,
            ClientMsg::TransferStart { phase, .. } => phase,
            ClientMsg::UploadDone { .. } => Phase::Upload,
        }
    }

    /// The message as a JSON object.
    pub fn to_json(&self) -> (value: serde_json::Value)
        ensures
            json::tree(value) == self.json(),
    {
        let mut object = json::new_object();
        match self {
            ClientMsg::PingStart { test_id, duration_ms, max_count } => {
                json::put(&mut object, "phase", json::text_value(Phase::Ping.name()));
                json::put(&mut object, "action", json::text_value("start"));
                json::put(&mut object, "test_id", json::unsigned_value(*test_id));
                json::put(&mut object, "duration_ms", json::unsigned_value(*duration_ms));
                json::put(&mut object, "max_count", json::unsigned_value(*max_count));
            },
            ClientMsg::Ping { seq, t_send } => {
                json::put(&mut object, "phase", json::text_value(Phase::Ping.name()));
                json::put(&mut object, "seq", json::unsigned_value(*seq));
                json::put(&mut object, "t_send", json::unsigned_value(*t_send));
            },
            ClientMsg::TransferStart { phase, test_id, duration_ms, max_bytes, chunk_bytes } => {
                json::put(&mut object, "phase", json::text_value(phase.name()));
                json::put(&mut object, "action", json::text_value("start"));
                json::put(&mut object, "test_id", json::unsigned_value(*test_id));
                json::put(&mut object, "duration_ms", json::unsigned_value(*duration_ms));
                json::put(&mut object, "max_bytes", json::unsigned_value(*max_bytes));
                json::put(&mut object, "chunk_bytes", json::unsigned_value(*chunk_bytes as u64));
            },
            ClientMsg::UploadDone { test_id, bytes_sent, elapsed_ms } => {
                json::put(&mut object, "phase", json::text_value(Phase::Upload.name()));
                json::put(&mut object, "done", json::flag_value(true));
                json::put(&mut object, "test_id", json::unsigned_value(*test_id));
                json::put(&mut object, "bytes_sent", json::unsigned_value(*bytes_sent));
                json::put(&mut object, "elapsed_ms", json::unsigned_value(*elapsed_ms));
            },
        }
        json::object_value(object)
    }

    /// The message as it goes over the wire. It parses as the message.
    pub fn to_text(&self) -> (text: String)
        ensures
            text@ == json::written(self.json()),
            json::parses_as(text@, self.json()),
    {
        json::write(&self.to_json())
    }
}

impl PingSummary {
    /// The message that ends the ping phase, but for the times.
    pub open spec fn json(self, test_id: u64) -> Json {
        Json::Object(
            map![
                "phase"@ => Json::Text(Phase::Ping.label()),
                "done"@ => Json::Flag(true),
                "test_id"@ => Json::Unsigned(test_id),
                "ping_count"@ => Json::Unsigned(self.count),
            ],
        )
    }

    /// The message that ends the ping phase, but for the average, the least and
    /// the greatest time, which the caller puts in as reals.
    pub fn to_json(&self, test_id: u64) -> (value: serde_json::Value)
        ensures
            json::tree(value) == self.json(test_id),
    {
        let mut object = json::new_object();
        json::put(&mut object, "phase", json::text_value(Phase::Ping.name()));
        json::put(&mut object, "done", json::flag_value(true));
        json::put(&mut object, "test_id", json::unsigned_value(test_id));
        json::put(&mut object, "ping_count", json::unsigned_value(self.count));
        json::object_value(object)
    }
}

/// What the client reads in a text of the server.
#[derive(Clone, Copy, Debug, PartialEq, Eq, Structural)]
pub struct Reply {
    pub phase: Option<Phase>,
    pub seq: Option<u64>,
    pub done: Option<bool>,
}

impl Reply {
    /// What the client reads in a JSON value. A member that is missing or of
    /// another kind, and a phase of another name, count as absent.
    pub open spec fn of(json: Json) -> Reply {
        Reply {
            phase: match json.member("phase"@) {
                Some(Json::Text(label)) => Phase::labelled(label),
                _ => None,
            },
            seq: match json.member("seq"@) {
                Some(Json::Unsigned(seq)) => Some(seq),
                _ => None,
            },
            done: match json.member("done"@) {
                Some(Json::Flag(done)) => Some(done),
                _ => None,
            },
        }
    }

    /// Whether the server says that the phase is done.
    pub open spec fn ends(self, phase: Phase) -> bool {
        self.phase == Some(phase) && self.done == Some(true)
    }

    /// Whether this answers the ping of that number.
    pub open spec fn echoes(self, seq: u64) -> bool {
        self.phase == Some(Phase::Ping) && self.seq == Some(seq)
    }

    /// What the client reads in a JSON value.
    pub fn from_value(value: &serde_json::Value) -> (reply: Reply)
        ensures
            reply == Reply::of(json::tree(*value)),
    {
        let phase = match json::get(value, "phase") {
            Some(member) => match member.as_str() {
                Some(name) => Phase::from_name(name),
                None => None,
            },
            None => None,
        };
        let seq = match json::get(value, "seq") {
            Some(member) => member.as_u64(),
            None => None,
        };
        let done = match json::get(value, "done") {
            Some(member) => member.as_bool(),
            None => None,
        };
        Reply { phase, seq, done }
    }

    /// What the client reads in a text, or why the text is not JSON.
    pub fn from_text(text: &str) -> (result: Result<Reply, String>)
        ensures
            match json::parsed(text@) {
                Ok(json) => result matches Ok(reply) && reply == Reply::of(json),
                Err(words) => result matches Err(said) && said@ == words,
            },
    {
        match json::parse(text) {
            Ok(value) => Ok(Reply::from_value(&value)),
            Err(words) => Err(words),
        }
    }

    /// Whether the server says that the phase is done.
    pub fn is_end_of(&self, phase: Phase) -> (yes: bool)
        ensures
            yes == self.ends(phase),
    {
        match (self.phase, self.done) {
            (Some(named), Some(done)) => named == phase && done,
            _ => false,
        }
    }

    /// Whether this answers the ping of that number.
    pub fn is_echo_of(&self, seq: u64) -> (yes: bool)
        ensures
            yes == self.echoes(seq),
    {
        match (self.phase, self.seq) {
            (Some(named), Some(answered)) => named == Phase::Ping && answered == seq,
            _ => false,
        }
    }
}

/// The member names of messages and replies are told apart.
proof fn member_names()
    ensures
        "phase"@ != "action"@ && "phase"@ != "test_id"@ && "phase"@ != "duration_ms"@,
        "phase"@ != "max_count"@ && "phase"@ != "seq"@ && "phase"@ != "t_send"@,
        "phase"@ != "max_bytes"@ && "phase"@ != "chunk_bytes"@ && "phase"@ != "done"@,
        "phase"@ != "bytes_sent"@ && "phase"@ != "elapsed_ms"@,
        "seq"@ != "action"@ && "seq"@ != "test_id"@ && "seq"@ != "duration_ms"@,
        "seq"@ != "max_count"@ && "seq"@ != "t_send"@ && "seq"@ != "max_bytes"@,
        "seq"@ != "chunk_bytes"@ && "seq"@ != "done"@ && "seq"@ != "bytes_sent"@,
        "seq"@ != "elapsed_ms"@,
        "done"@ != "action"@ && "done"@ != "test_id"@ && "done"@ != "duration_ms"@,
        "done"@ != "max_count"@ && "done"@ != "t_send"@ && "done"@ != "max_bytes"@,
        "done"@ != "chunk_bytes"@ && "done"@ != "bytes_sent"@ && "done"@ != "elapsed_ms"@,
{
    reveal_strlit("phase");
    reveal_strlit("action");
    reveal_strlit("test_id");
    reveal_strlit("duration_ms");
    reveal_strlit("max_count");
    reveal_strlit("seq");
    reveal_strlit("t_send");
    reveal_strlit("max_bytes");
    reveal_strlit("chunk_bytes");
    reveal_strlit("done");
    reveal_strlit("bytes_sent");
    reveal_strlit("elapsed_ms");
    assert("phase"@.len() == 5 && "seq"@.len() == 3 && "done"@.len() == 4);
}

/// The other member names are told apart too.
proof fn number_names()
    ensures
        "action"@ != "test_id"@ && "action"@ != "duration_ms"@ && "action"@ != "max_count"@,
        "action"@ != "max_bytes"@ && "action"@ != "chunk_bytes"@,
        "test_id"@ != "duration_ms"@ && "test_id"@ != "max_count"@ && "test_id"@ != "max_bytes"@,
        "test_id"@ != "chunk_bytes"@ && "test_id"@ != "bytes_sent"@ && "test_id"@ != "elapsed_ms"@,
        "duration_ms"@ != "max_count"@ && "duration_ms"@ != "max_bytes"@,
        "duration_ms"@ != "chunk_bytes"@ && "max_bytes"@ != "chunk_bytes"@,
        "bytes_sent"@ != "elapsed_ms"@,
        "ping_count"@ != "phase"@ && "ping_count"@ != "done"@ && "ping_count"@ != "test_id"@,
{
    reveal_strlit("phase");
    reveal_strlit("done");
    reveal_strlit("action");
    reveal_strlit("test_id");
    reveal_strlit("duration_ms");
    reveal_strlit("max_count");
    reveal_strlit("max_bytes");
    reveal_strlit("chunk_bytes");
    reveal_strlit("bytes_sent");
    reveal_strlit("elapsed_ms");
    reveal_strlit("ping_count");
    assert("action"@.len() == 6 && "test_id"@.len() == 7 && "ping_count"@.len() == 10);
    assert("max_count"@.len() == 9 && "max_bytes"@.len() == 9 && "phase"@.len() == 5);
    assert("duration_ms"@.len() == 11 && "chunk_bytes"@.len() == 11 && "done"@.len() == 4);
    assert("bytes_sent"@.len() == 10 && "elapsed_ms"@.len() == 10);
    assert("duration_ms"@[0] == 'd' && "chunk_bytes"@[0] == 'c');
    assert("bytes_sent"@[0] == 'b' && "elapsed_ms"@[0] == 'e');
}

/// The members of a reply are read each for itself: the phase is the one that the
/// text "phase" names, the number is the nonnegative integer "seq", and "done" is
/// the flag of that name, whatever else the object holds. What is missing or of
/// another kind is absent.
pub proof fn reply_reads_each_member(
    members: Map<Seq<char>, Json>,
    phase: Phase,
    seq: u64,
    done: bool,
)
    ensures
        ({
            let reply = Reply::of(Json::Object(members));
            &&& reply.done == Some(done) <==> members.contains_key("done"@) && members["done"@]
                == Json::Flag(done)
            &&& reply.seq == Some(seq) <==> members.contains_key("seq"@) && members["seq"@]
                == Json::Unsigned(seq)
            &&& reply.phase == Some(phase) <==> members.contains_key("phase"@) && members["phase"@]
                == Json::Text(
                match phase {
                    Phase::Ping => "ping"@,
                    Phase::Download => "download"@,
                    Phase::Upload => "upload"@,
                },
            )
        }),
{
    if members.contains_key("phase"@) && members["phase"@] is Text {
        names_of_the_phases(members["phase"@]->Text_0);
    }
}

/// No other member, nor a change of one, changes what is read.
pub proof fn reply_heeds_no_other_member(
    members: Map<Seq<char>, Json>,
    key: Seq<char>,
    value: Json,
)
    ensures
        ({
            let (old, new) = (
                Reply::of(Json::Object(members)),
                Reply::of(Json::Object(members.insert(key, value))),
            );
            &&& key != "phase"@ ==> new.phase == old.phase
            &&& key != "seq"@ ==> new.seq == old.seq
            &&& key != "done"@ ==> new.done == old.done
        }),
{
}

/// In what is no object nothing is read.
pub proof fn reply_of_no_object(json: Json)
    requires
        !(json is Object),
    ensures
        Reply::of(json) == (Reply { phase: None, seq: None, done: None }),
{
}

/// An object that names a phase and is done ends that phase and no other; one
/// that names the ping phase and a number answers the ping of that number and no
/// other. Nothing else does.
pub proof fn reply_is_understood(members: Map<Seq<char>, Json>, phase: Phase, seq: u64)
    ensures
        ({
            let reply = Reply::of(Json::Object(members));
            &&& reply.ends(phase) <==> {
                &&& members.contains_key("phase"@)
                &&& members["phase"@] == Json::Text(
                    match phase {
                        Phase::Ping => "ping"@,
                        Phase::Download => "download"@,
                        Phase::Upload => "upload"@,
                    },
                )
                &&& members.contains_key("done"@)
                &&& members["done"@] == Json::Flag(true)
            }
            &&& reply.echoes(seq) <==> {
                &&& members.contains_key("phase"@)
                &&& members["phase"@] == Json::Text("ping"@)
                &&& members.contains_key("seq"@)
                &&& members["seq"@] == Json::Unsigned(seq)
            }
        }),
{
    reply_reads_each_member(members, phase, seq, true);
    reply_reads_each_member(members, Phase::Ping, seq, true);
}

/// Which replies end a phase, and which answer a ping.
pub proof fn reply_is_told_apart(reply: Reply, phase: Phase, seq: u64)
    ensures
        reply.ends(phase) <==> reply.phase == Some(phase) && reply.done == Some(true),
        reply.echoes(seq) <==> reply.phase == Some(Phase::Ping) && reply.seq == Some(seq),
{
}

/// What a message of the client says when it is read as a reply: its phase, a
/// number only of a ping and that of the ping, and "done" only of the message
/// that ends the upload. `ClientMsg::to_text` parses as `ClientMsg::json`, so
/// this is what `Reply::from_text` gives of it.
pub proof fn message_reads_back(msg: ClientMsg)
    ensures
        Reply::of(msg.json()) == (Reply {
            phase: Some(msg.phase()),
            seq: match msg {
                ClientMsg::Ping { seq, .. } => Some(seq),
                _ => None,
            },
            done: match msg {
                ClientMsg::UploadDone { .. } => Some(true),
                _ => None,
            },
        }),
{
    member_names();
    phase_of_its_label(msg.phase());
}

/// Whether an object holds these members and no others.
pub open spec fn holds_just(json: Json, keys: Set<Seq<char>>) -> bool {
    json matches Json::Object(members) && members.dom() == keys
}

/// Each message holds its own numbers, each under its name, with the phase and
/// what it says of it, and nothing else.
pub proof fn message_holds_its_numbers(msg: ClientMsg)
    ensures
        match msg {
            ClientMsg::PingStart { test_id, duration_ms, max_count } => {
                let json = msg.json();
                &&& json.member("phase"@) == Some(Json::Text("ping"@))
                &&& json.member("action"@) == Some(Json::Text("start"@))
                &&& json.member("test_id"@) == Some(Json::Unsigned(test_id))
                &&& json.member("duration_ms"@) == Some(Json::Unsigned(duration_ms))
                &&& json.member("max_count"@) == Some(Json::Unsigned(max_count))
                &&& holds_just(
                    json,
                    set!["phase"@, "action"@, "test_id"@, "duration_ms"@, "max_count"@],
                )
            },
            ClientMsg::Ping { seq, t_send } => {
                let json = msg.json();
                &&& json.member("phase"@) == Some(Json::Text("ping"@))
                &&& json.member("seq"@) == Some(Json::Unsigned(seq))
                &&& json.member("t_send"@) == Some(Json::Unsigned(t_send))
                &&& holds_just(json, set!["phase"@, "seq"@, "t_send"@])
            },
            ClientMsg::TransferStart { phase, test_id, duration_ms, max_bytes, chunk_bytes } => {
                let json = msg.json();
                &&& phase is Ping ==> json.member("phase"@) == Some(Json::Text("ping"@))
                &&& phase is Download ==> json.member("phase"@) == Some(Json::Text("download"@))
                &&& phase is Upload ==> json.member("phase"@) == Some(Json::Text("upload"@))
                &&& json.member("action"@) == Some(Json::Text("start"@))
                &&& json.member("test_id"@) == Some(Json::Unsigned(test_id))
                &&& json.member("duration_ms"@) == Some(Json::Unsigned(duration_ms))
                &&& json.member("max_bytes"@) == Some(Json::Unsigned(max_bytes))
                &&& json.member("chunk_bytes"@) == Some(Json::Unsigned(chunk_bytes as u64))
                &&& holds_just(
                    json,
                    set![
                        "phase"@,
                        "action"@,
                        "test_id"@,
                        "duration_ms"@,
                        "max_bytes"@,
                        "chunk_bytes"@,
                    ],
                )
            },
            ClientMsg::UploadDone { test_id, bytes_sent, elapsed_ms } => {
                let json = msg.json();
                &&& json.member("phase"@) == Some(Json::Text("upload"@))
                &&& json.member("done"@) == Some(Json::Flag(true))
                &&& json.member("test_id"@) == Some(Json::Unsigned(test_id))
                &&& json.member("bytes_sent"@) == Some(Json::Unsigned(bytes_sent))
                &&& json.member("elapsed_ms"@) == Some(Json::Unsigned(elapsed_ms))
                &&& holds_just(
                    json,
                    set!["phase"@, "done"@, "test_id"@, "bytes_sent"@, "elapsed_ms"@],
                )
            },
        },
{
    member_names();
    number_names();
    let json = msg.json();
    match msg {
        ClientMsg::PingStart { .. } => {
            assert(json->Object_0.dom() == set![
                "phase"@,
                "action"@,
                "test_id"@,
                "duration_ms"@,
                "max_count"@,
            ]);
        },
        ClientMsg::Ping { .. } => {
            assert(json->Object_0.dom() == set!["phase"@, "seq"@, "t_send"@]);
        },
        ClientMsg::TransferStart { .. } => {
            assert(json->Object_0.dom() == set![
                "phase"@,
                "action"@,
                "test_id"@,
                "duration_ms"@,
                "max_bytes"@,
                "chunk_bytes"@,
            ]);
        },
        ClientMsg::UploadDone { .. } => {
            assert(json->Object_0.dom() == set![
                "phase"@,
                "done"@,
                "test_id"@,
                "bytes_sent"@,
                "elapsed_ms"@,
            ]);
        },
    }
}

/// The message that ends the ping phase holds the run's number and the count of
/// its answers, and nothing else that is whole.
pub proof fn summary_holds_its_numbers(figures: PingSummary, test_id: u64)
    ensures
        ({
            let json = figures.json(test_id);
            &&& json.member("phase"@) == Some(Json::Text("ping"@))
            &&& json.member("done"@) == Some(Json::Flag(true))
            &&& json.member("test_id"@) == Some(Json::Unsigned(test_id))
            &&& json.member("ping_count"@) == Some(Json::Unsigned(figures.count))
            &&& holds_just(json, set!["phase"@, "done"@, "test_id"@, "ping_count"@])
        }),
{
    member_names();
    number_names();
    assert(figures.json(test_id)->Object_0.dom() == set![
        "phase"@,
        "done"@,
        "test_id"@,
        "ping_count"@,
    ]);
}

/// The message that ends the ping phase, read as a reply, says so.
pub proof fn summary_reads_back(figures: PingSummary, test_id: u64)
    ensures
        Reply::of(figures.json(test_id)) == (Reply {
            phase: Some(Phase::Ping),
            seq: None,
            done: Some(true),
        }),
        figures.json(test_id).member("ping_count"@) == Some(Json::Unsigned(figures.count)),
{
    member_names();
    phase_of_its_label(Phase::Ping);
    reveal_strlit("phase");
    reveal_strlit("seq");
    reveal_strlit("done");
    reveal_strlit("ping_count");
    assert("phase"@.len() == 5 && "seq"@.len() == 3 && "done"@.len() == 4);
    assert("ping_count"@.len() == 10);
}

/// Why a request is refused: the field, what it held, the most that it may
/// hold, and a message.
#[derive(Debug)]
pub struct ValidationError {
    pub field: String,
    pub value: String,
    pub max: String,
    pub message: String,
}

impl ValidationError {
    /// The refusal as a JSON object.
    pub open spec fn json(self) -> Json {
        Json::Object(
            map![
                "error"@ => Json::Text(self.message@),
                "field"@ => Json::Text(self.field@),
                "value"@ => Json::Text(self.value@),
                "max"@ => Json::Text(self.max@),
            ],
        )
    }

    /// The refusal as a JSON object.
    pub fn to_json(&self) -> (value: serde_json::Value)
        ensures
            json::tree(value) == self.json(),
    {
        let mut object = json::new_object();
        json::put(&mut object, "error", json::text_value(self.message.as_str()));
        json::put(&mut object, "field", json::text_value(self.field.as_str()));
        json::put(&mut object, "value", json::text_value(self.value.as_str()));
        json::put(&mut object, "max", json::text_value(self.max.as_str()));
        json::object_value(object)
    }
}

/// A refusal holds its four texts, each under its own name, and nothing else.
pub proof fn refusal_holds_its_texts(refusal: ValidationError)
    ensures
        refusal.json().member("error"@) == Some(Json::Text(refusal.message@)),
        refusal.json().member("field"@) == Some(Json::Text(refusal.field@)),
        refusal.json().member("value"@) == Some(Json::Text(refusal.value@)),
        refusal.json().member("max"@) == Some(Json::Text(refusal.max@)),
        forall|key: Seq<char>|
            key != "error"@ && key != "field"@ && key != "value"@ && key != "max"@
                ==> #[trigger] refusal.json().member(key) is None,
{
    reveal_strlit("error");
    reveal_strlit("field");
    reveal_strlit("value");
    reveal_strlit("max");
    assert("max"@.len() == 3 && "error"@.len() == 5);
    assert("error"@[0] == 'e' && "field"@[0] == 'f' && "value"@[0] == 'v');
}

} // verus!
