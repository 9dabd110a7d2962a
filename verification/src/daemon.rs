//! Talking to the kild daemon: request ids, the requests sent, how replies
//! are read and judged, and the client's errors.
use vstd::prelude::*;
use crate::text::{decimal_digits, owned, push_decimal, push_str, str_eq};

verus! {

/// The text of request id number `n`: `ui-<n>`.
pub open spec fn request_id_text(n: u64) -> Seq<char> {
    "ui-"@ + decimal_digits(n as nat)
}

/// The request id with number `n`.
pub fn request_id(n: u64) -> (r: String)
    ensures
        r@ == request_id_text(n),
{
    let mut s = owned("ui-");
    push_decimal(&mut s, n);
    s
}

/// Takes the next number from the process's request counter and makes a
/// request id of it: the id carries the counter's value, and the counter
/// moves on by one (wrapping on overflow), so that later ids carry larger
/// numbers and ids are unique within a process.
pub fn next_request_id(counter: &mut u64) -> (r: String)
    ensures
        r@ == request_id_text(*old(counter)),
        *final(counter) == (if *old(counter) == u64::MAX { 0 } else { *old(counter) + 1 }),
{
    let n = *counter;
    *counter = n.wrapping_add(1);
    request_id(n)
}

/// Ids taken one after another from the counter carry increasing numbers:
/// after the id numbered `n`, the next carries `n + 1` (until the counter
/// wraps), so the two differ.
pub proof fn lemma_next_id_larger(n: u64)
    requires
        n < u64::MAX,
    ensures
        ({
            let next: u64 = (n + 1) as u64;
            &&& next > n
            &&& request_id_text(next) != request_id_text(n)
        }),
{
    lemma_request_ids_distinct((n + 1) as u64, n);
}

/// Distinct numbers give distinct request ids.
pub proof fn lemma_request_ids_distinct(a: u64, b: u64)
    requires
        a != b,
    ensures
        request_id_text(a) != request_id_text(b),
{
    lemma_decimal_injective(a as nat, b as nat);
    reveal_strlit("ui-");
    if request_id_text(a) == request_id_text(b) {
        assert(decimal_digits(a as nat) =~= request_id_text(a).subrange(3, request_id_text(a).len() as int));
        assert(decimal_digits(b as nat) =~= request_id_text(b).subrange(3, request_id_text(b).len() as int));
    }
}

/// Distinct numbers have distinct decimal renderings.
pub proof fn lemma_decimal_injective(a: nat, b: nat)
    ensures
        a != b ==> decimal_digits(a) != decimal_digits(b),
    decreases a + b,
{
    if a != b && decimal_digits(a) == decimal_digits(b) {
        if a < 10 && b < 10 {
            assert(decimal_digits(a)[0] == decimal_digits(b)[0]);
        } else if a < 10 {
            lemma_decimal_len(b / 10);
            assert(decimal_digits(b).len() >= 2);
        } else if b < 10 {
            lemma_decimal_len(a / 10);
            assert(decimal_digits(a).len() >= 2);
        } else {
            let da = decimal_digits(a);
            let db = decimal_digits(b);
            assert(da.drop_last() == decimal_digits(a / 10));
            assert(db.drop_last() == decimal_digits(b / 10));
            assert(da.last() == db.last());
            if a / 10 == b / 10 {
                assert(a % 10 != b % 10);
                assert(crate::text::digit_char(a % 10) != crate::text::digit_char(b % 10));
            } else {
                lemma_decimal_injective(a / 10, b / 10);
            }
        }
    }
}

/// A decimal rendering is never empty.
pub proof fn lemma_decimal_len(n: nat)
    ensures
        decimal_digits(n).len() >= 1,
    decreases n,
{
    if n >= 10 {
        lemma_decimal_len(n / 10);
    }
}

/// A failure of the daemon client.
#[derive(Debug, Clone, PartialEq, Eq)]
pub enum DaemonClientError {
    /// Connecting failed; holds the system's message.
    Connect(String),
    /// A request could not be serialised; holds the serialiser's message.
    Serialize(String),
    /// Reading or writing failed; holds the system's message.
    Io(String),
    ConnectionClosed,
    EmptyResponse,
    /// A reply was not valid JSON: the parser's message and the reply.
    InvalidJson { source: String, json: String },
    /// A reply of the wrong kind; holds its description.
    UnexpectedResponse(String),
    /// The daemon reported an error: its code and message.
    DaemonError { code: String, message: String },
    SessionNotFound,
    /// Base64 data could not be decoded; holds the decoder's message.
    Base64Decode(String),
}

/// The message shown for a daemon client error.
pub open spec fn daemon_error_text(e: DaemonClientError) -> Seq<char> {
    match e {
        DaemonClientError::Connect(m) => "failed to connect to daemon: "@ + m@,
        DaemonClientError::Serialize(m) => "failed to serialize request: "@ + m@,
        DaemonClientError::Io(m) => "I/O error: "@ + m@,
        DaemonClientError::ConnectionClosed => "daemon closed connection (EOF)"@,
        DaemonClientError::EmptyResponse => "daemon sent empty response"@,
        DaemonClientError::InvalidJson { source, json } => "invalid JSON from daemon: "@ + source@ + ": "@
            + json@,
        DaemonClientError::UnexpectedResponse(m) => "unexpected response from daemon: "@ + m@,
        DaemonClientError::DaemonError { code, message } => "daemon error ("@ + code@ + "): "@ + message@,
        DaemonClientError::SessionNotFound => "no running daemon session found"@,
        DaemonClientError::Base64Decode(m) => "base64 decode failed: "@ + m@,
    }
}

fn prefixed(prefix: &str, m: &str) -> (r: String)
    ensures
        r@ == prefix@ + m@,
{
    let mut s = owned(prefix);
    push_str(&mut s, m);
    s
}

impl DaemonClientError {
    /// The message shown for this error.
    pub fn to_string(&self) -> (r: String)
        ensures
            r@ == daemon_error_text(*self),
    {
        match self {
            DaemonClientError::Connect(m) => prefixed("failed to connect to daemon: ", m.as_str()),
            DaemonClientError::Serialize(m) => prefixed("failed to serialize request: ", m.as_str()),
            DaemonClientError::Io(m) => prefixed("I/O error: ", m.as_str()),
            DaemonClientError::ConnectionClosed => owned("daemon closed connection (EOF)"),
            DaemonClientError::EmptyResponse => owned("daemon sent empty response"),
            DaemonClientError::InvalidJson { source, json } => {
                let mut s = prefixed("invalid JSON from daemon: ", source.as_str());
                push_str(&mut s, ": ");
                push_str(&mut s, json.as_str());
                s
            },
            DaemonClientError::UnexpectedResponse(m) => prefixed("unexpected response from daemon: ", m.as_str()),
            DaemonClientError::DaemonError { code, message } => {
                let mut s = prefixed("daemon error (", code.as_str());
                push_str(&mut s, "): ");
                push_str(&mut s, message.as_str());
                s
            },
            DaemonClientError::SessionNotFound => owned("no running daemon session found"),
            DaemonClientError::Base64Decode(m) => prefixed("base64 decode failed: ", m.as_str()),
        }
    }
}

/// What `str::trim` gives for a reply line.
pub open spec fn trimmed(line: Seq<char>) -> Seq<char> {
    crate::paths::spec_trim(line)
}

/// Checks a reply line read from the daemon: none read means the daemon
/// closed the connection; a blank line is an empty response; otherwise the
/// line without surrounding white space is the reply to parse.
pub fn check_reply_line(bytes_read: usize, line: &str) -> (r: Result<String, DaemonClientError>)
    ensures
        bytes_read == 0 ==> r == Err::<String, DaemonClientError>(DaemonClientError::ConnectionClosed),
        bytes_read != 0 && trimmed(line@).len() == 0 ==> r == Err::<String, DaemonClientError>(
            DaemonClientError::EmptyResponse,
        ),
        bytes_read != 0 && trimmed(line@).len() != 0 ==> (r matches Ok(t) && t@ == trimmed(line@)),
{
    if bytes_read == 0 {
        return Err(DaemonClientError::ConnectionClosed);
    }
    let t = crate::paths::trim(line);
    if t.unicode_len() == 0 {
        return Err(DaemonClientError::EmptyResponse);
    }
    Ok(t)
}

/// The state of a daemon session.
#[derive(Clone, Copy, Debug, PartialEq, Eq, Structural)]
pub enum SessionStatus {
    Creating,
    Running,
    Stopped,
}

/// What the daemon tells about a session.
#[derive(Clone, Debug)]
pub struct DaemonSession {
    pub id: String,
    pub working_directory: String,
    pub command: String,
    pub status: SessionStatus,
    pub created_at: String,
}

/// An error code the daemon sends.
#[derive(Clone, Debug, PartialEq, Eq)]
pub enum ErrorCode {
    SessionNotFound,
    /// Any other code, as the daemon names it.
    Other(String),
}

/// The name of an error code as the daemon sends it.
pub open spec fn code_text(c: ErrorCode) -> Seq<char> {
    match c {
        ErrorCode::SessionNotFound => "session_not_found"@,
        ErrorCode::Other(s) => s@,
    }
}

fn code_string(c: &ErrorCode) -> (r: String)
    ensures
        r@ == code_text(*c),
{
    match c {
        ErrorCode::SessionNotFound => owned("session_not_found"),
        ErrorCode::Other(s) => s.clone(),
    }
}

/// A reply from the daemon.
#[derive(Clone, Debug)]
pub enum DaemonReply {
    Ack,
    SessionList(Vec<DaemonSession>),
    SessionInfo(DaemonSession),
    SessionCreated(DaemonSession),
    Error { code: ErrorCode, message: String },
    PtyOutput { session_id: String, data: String },
}

/// A short name for the kind of a reply.
pub open spec fn reply_kind(r: DaemonReply) -> Seq<char> {
    match r {
        DaemonReply::Ack => "Ack"@,
        DaemonReply::SessionList(_) => "SessionList"@,
        DaemonReply::SessionInfo(_) => "SessionInfo"@,
        DaemonReply::SessionCreated(_) => "SessionCreated"@,
        DaemonReply::Error { .. } => "Error"@,
        DaemonReply::PtyOutput { .. } => "PtyOutput"@,
    }
}

impl DaemonReply {
    /// A short name for the kind of this reply.
    pub fn kind(&self) -> (r: &'static str)
        ensures
            r@ == reply_kind(*self),
    {
        match self {
            DaemonReply::Ack => "Ack",
            DaemonReply::SessionList(_) => "SessionList",
            DaemonReply::SessionInfo(_) => "SessionInfo",
            DaemonReply::SessionCreated(_) => "SessionCreated",
            DaemonReply::Error { .. } => "Error",
            DaemonReply::PtyOutput { .. } => "PtyOutput",
        }
    }
}

/// Whether `e` is the error for a reply that was not expected: the
/// daemon's own error for an error reply, else an unexpected response.
pub open spec fn is_refusal(e: DaemonClientError, reply: DaemonReply) -> bool {
    match reply {
        DaemonReply::Error { code, message } => e matches DaemonClientError::DaemonError { code: c, message: m }
            && c@ == code_text(code) && m@ == message@,
        _ => e matches DaemonClientError::UnexpectedResponse(d) && d@ == reply_kind(reply),
    }
}

/// The error for a reply that was not the one expected.
fn refuse(reply: DaemonReply) -> (r: DaemonClientError)
    ensures
        is_refusal(r, reply),
{
    match reply {
        DaemonReply::Error { code, message } => DaemonClientError::DaemonError { code: code_string(&code), message },
        other => DaemonClientError::UnexpectedResponse(owned(other.kind())),
    }
}

/// Judges the reply to a ping: an acknowledgement means the daemon runs;
/// any other reply, an error reply included, is unexpected.
pub fn ping_outcome(reply: DaemonReply) -> (r: Result<bool, DaemonClientError>)
    ensures
        reply is Ack ==> r == Ok::<bool, DaemonClientError>(true),
        !(reply is Ack) ==> (r matches Err(DaemonClientError::UnexpectedResponse(d)) && d@ == reply_kind(reply)),
{
    match reply {
        DaemonReply::Ack => Ok(true),
        other => Err(DaemonClientError::UnexpectedResponse(owned(other.kind()))),
    }
}

/// Judges the reply to a session listing: the sessions listed.
pub fn list_outcome(reply: DaemonReply) -> (r: Result<Vec<DaemonSession>, DaemonClientError>)
    ensures
        match reply {
            DaemonReply::SessionList(s) => r == Ok::<Vec<DaemonSession>, DaemonClientError>(s),
            _ => r matches Err(e) && is_refusal(e, reply),
        },
{
    match reply {
        DaemonReply::SessionList(s) => Ok(s),
        other => Err(refuse(other)),
    }
}

/// Judges the reply to a session query: the session, or none when the
/// daemon does not know it.
pub fn get_session_outcome(reply: DaemonReply) -> (r: Result<Option<DaemonSession>, DaemonClientError>)
    ensures
        match reply {
            DaemonReply::SessionInfo(s) => r == Ok::<Option<DaemonSession>, DaemonClientError>(Some(s)),
            DaemonReply::Error { code: ErrorCode::SessionNotFound, .. } => r == Ok::<
                Option<DaemonSession>,
                DaemonClientError,
            >(None),
            _ => r matches Err(e) && is_refusal(e, reply),
        },
{
    match reply {
        DaemonReply::SessionInfo(s) => Ok(Some(s)),
        DaemonReply::Error { code: ErrorCode::SessionNotFound, .. } => Ok(None),
        other => Err(refuse(other)),
    }
}

/// Judges the reply to a stop request or an attach request: an
/// acknowledgement means it was done.
pub fn ack_outcome(reply: DaemonReply) -> (r: Result<(), DaemonClientError>)
    ensures
        reply is Ack ==> r is Ok,
        !(reply is Ack) ==> (r matches Err(e) && is_refusal(e, reply)),
{
    match reply {
        DaemonReply::Ack => Ok(()),
        other => Err(refuse(other)),
    }
}

/// Judges the reply to a session creation: the id of the new session.
pub fn create_outcome(reply: DaemonReply) -> (r: Result<String, DaemonClientError>)
    ensures
        match reply {
            DaemonReply::SessionCreated(s) => r == Ok::<String, DaemonClientError>(s.id),
            _ => r matches Err(e) && is_refusal(e, reply),
        },
{
    match reply {
        DaemonReply::SessionCreated(s) => Ok(s.id),
        other => Err(refuse(other)),
    }
}

/// The first running session of a listing.
pub fn find_first_running_session(sessions: Vec<DaemonSession>) -> (r: Result<DaemonSession, DaemonClientError>)
    ensures
        match r {
            Ok(s) => exists|i: int| 0 <= i < sessions@.len() && sessions@[i] == s && s.status == SessionStatus::Running
                && forall|j: int| 0 <= j < i ==> sessions@[j].status != SessionStatus::Running,
            Err(e) => e == DaemonClientError::SessionNotFound && forall|j: int| 0 <= j < sessions@.len()
                ==> sessions@[j].status != SessionStatus::Running,
        },
{
    let mut v = sessions;
    let mut i: usize = 0;
    while i < v.len()
        invariant
            v@ == sessions@,
            i <= v@.len(),
            forall|j: int| 0 <= j < i ==> v@[j].status != SessionStatus::Running,
        decreases v@.len() - i,
    {
        if v[i].status == SessionStatus::Running {
            let s = v.remove(i);
            return Ok(s);
        }
        i = i + 1;
    }
    Err(DaemonClientError::SessionNotFound)
}

/// The character of the standard base64 alphabet for a 6-bit value:
/// `A`-`Z`, `a`-`z`, `0`-`9`, `+`, `/`.
pub open spec fn base64_char(v: int) -> char {
    if v < 26 {
        (65 + v) as char
    } else if v < 52 {
        (97 + v - 26) as char
    } else if v < 62 {
        (48 + v - 52) as char
    } else if v == 62 {
        '+'
    } else {
        '/'
    }
}

/// Standard, padded base64 of bytes: each group of three bytes becomes
/// four characters of six bits each; a last group of one or two bytes is
/// padded with `=` to four characters.
pub open spec fn spec_base64(d: Seq<u8>) -> Seq<char>
    decreases d.len(),
{
    let a: int = d[0] as int;
    let b: int = d[1] as int;
    let c: int = d[2] as int;
    if d.len() == 0 {
        Seq::empty()
    } else if d.len() == 1 {
        seq![base64_char(a / 4), base64_char((a % 4) * 16), '=', '=']
    } else if d.len() == 2 {
        seq![base64_char(a / 4), base64_char((a % 4) * 16 + b / 16), base64_char((b % 16) * 4), '=']
    } else {
        seq![
            base64_char(a / 4),
            base64_char((a % 4) * 16 + b / 16),
            base64_char((b % 16) * 4 + c / 64),
            base64_char(c % 64),
        ] + spec_base64(d.subrange(3, d.len() as int))
    }
}

/// Encodes bytes as standard, padded base64 (`Engine::encode` on
/// `general_purpose::STANDARD`).
///
/// Trusted: the result is the standard, padded base64 of the bytes
/// (`spec_base64`), as the crate documents the standard alphabet with
/// padding.
#[verifier::external_body]
fn base64_encode(data: &[u8]) -> (r: String)
    ensures
        r@ == spec_base64(data@),
{
    base64::Engine::encode(&base64::engine::general_purpose::STANDARD, data)
}

/// What decoding text as standard, padded base64
/// (`base64::engine::general_purpose::STANDARD`) gives: the bytes, or the
/// decoder's message.
pub uninterp spec fn spec_base64_decoded(data: Seq<char>) -> Result<Seq<u8>, Seq<char>>;

/// The content of a decoding result.
pub open spec fn decoded_view(r: Result<Vec<u8>, String>) -> Result<Seq<u8>, Seq<char>> {
    match r {
        Ok(v) => Ok(v@),
        Err(m) => Err(m@),
    }
}

/// Whether a decoding result gives back the bytes `b`.
pub open spec fn round_trips(r: Result<Seq<u8>, Seq<char>>, b: Seq<u8>) -> bool {
    r == Ok::<Seq<u8>, Seq<char>>(b)
}

/// Decodes standard, padded base64 (`Engine::decode` on
/// `general_purpose::STANDARD`); the error is the decoder's message.
///
/// Trusted: the result is `spec_base64_decoded` of the text, and the text
/// the same engine encodes bytes as decodes back to those bytes (it is
/// canonically padded, as this engine requires).
#[verifier::external_body]
fn base64_decode(data: &str) -> (r: Result<Vec<u8>, String>)
    ensures
        decoded_view(r) == spec_base64_decoded(data@),
        forall|b: Seq<u8>| spec_base64(b) == data@ ==> #[trigger] round_trips(decoded_view(r), b),
{
    match base64::Engine::decode(&base64::engine::general_purpose::STANDARD, data) {
        Ok(v) => Ok(v),
        Err(e) => Err(e.to_string()),
    }
}

/// Decodes the base64 payload of a terminal output message: the bytes, or
/// `Base64Decode` with the decoder's message. Text written by
/// [`write_stdin_request`]'s encoding decodes back to the bytes encoded.
pub fn decode_output(data: &str) -> (r: Result<Vec<u8>, DaemonClientError>)
    ensures
        match spec_base64_decoded(data@) {
            Ok(b) => r matches Ok(v) && v@ == b,
            Err(m) => r matches Err(DaemonClientError::Base64Decode(t)) && t@ == m,
        },
        forall|b: Seq<u8>| #[trigger] spec_base64(b) == data@ ==> (r matches Ok(v) && v@ == b),
{
    let d = base64_decode(data);
    let ghost dv = decoded_view(d);
    proof {
        assert forall|b: Seq<u8>| #[trigger] spec_base64(b) == data@ implies dv == Ok::<Seq<u8>, Seq<char>>(b) by {
            assert(round_trips(dv, b));
        }
    }
    match d {
        Ok(v) => Ok(v),
        Err(m) => Err(DaemonClientError::Base64Decode(m)),
    }
}

/// A request to the daemon.
#[derive(Clone, Debug)]
pub enum ClientRequest {
    Ping { id: String },
    ListSessions { id: String, project_id: Option<String> },
    GetSession { id: String, session_id: String },
    StopSession { id: String, session_id: String },
    CreateSession {
        id: String,
        session_id: String,
        working_directory: String,
        command: String,
        args: Vec<String>,
        env_vars: Vec<(String, String)>,
        rows: u16,
        cols: u16,
        use_login_shell: bool,
    },
    Attach { id: String, session_id: String, rows: u16, cols: u16 },
    WriteStdin { id: String, session_id: String, data: String },
    ResizePty { id: String, session_id: String, rows: u16, cols: u16 },
    Detach { id: String, session_id: String },
}

/// The shell new daemon sessions run: the user's shell, or `/bin/bash`
/// when it is not known.
pub fn shell_or_default(shell: Option<String>) -> (r: String)
    ensures
        match shell {
            Some(s) => r@ == s@,
            None => r@ == "/bin/bash"@,
        },
{
    match shell {
        Some(s) => s,
        None => owned("/bin/bash"),
    }
}

/// The request creating daemon session `session_id` in `working_directory`:
/// a login shell (`shell`, or `/bin/bash` when unknown) without arguments
/// or extra environment, on a 24 by 80 terminal.
pub fn create_session_request(id: String, session_id: &str, working_directory: &str, shell: Option<String>) -> (r:
    ClientRequest)
    ensures
        match r {
            ClientRequest::CreateSession {
                id: i,
                session_id: s,
                working_directory: w,
                command: c,
                args,
                env_vars,
                rows,
                cols,
                use_login_shell,
            } => {
                &&& i == id
                &&& s@ == session_id@
                &&& w@ == working_directory@
                &&& c@ == (match shell {
                    Some(sh) => sh@,
                    None => "/bin/bash"@,
                })
                &&& args@.len() == 0
                &&& env_vars@.len() == 0
                &&& rows == 24
                &&& cols == 80
                &&& use_login_shell
            },
            _ => false,
        },
{
    ClientRequest::CreateSession {
        id,
        session_id: owned(session_id),
        working_directory: owned(working_directory),
        command: shell_or_default(shell),
        args: Vec::new(),
        env_vars: Vec::new(),
        rows: 24,
        cols: 80,
        use_login_shell: true,
    }
}

/// The request writing `data` to the terminal of daemon session
/// `session_id`, base64-encoded.
pub fn write_stdin_request(id: String, session_id: &str, data: &[u8]) -> (r: ClientRequest)
    ensures
        r matches ClientRequest::WriteStdin { id: i, session_id: s, data: d } && i == id && s@ == session_id@
            && d@ == spec_base64(data@),
{
    ClientRequest::WriteStdin { id, session_id: owned(session_id), data: base64_encode(data) }
}

/// A message as sent on the wire: its JSON text followed by a newline.
pub fn frame_message(json: &str) -> (r: Vec<u8>)
    ensures
        r@ == vstd::utf8::encode_utf8(json@).push(0x0au8),
{
    let mut v = vstd::slice::slice_to_vec(json.as_bytes());
    v.push(0x0a);
    v
}

} // verus!
