//! The `voxtype-voice-v1` session protocol as the client sees it: what each
//! server message does to a recognition session, and how the runtime's
//! health report is read.
use vstd::prelude::*;
use crate::settings::opt_view;
use crate::text::str_eq;
use vstd::string::StringExecFns;

verus! {

/// Polls of the session-start handshake before giving up.
pub const START_POLL_ATTEMPTS: u32 = 80;

/// Milliseconds between two polls of the session-start handshake.
pub const START_POLL_INTERVAL_MS: u64 = 50;

/// Seconds to wait for the final transcript of a session.
pub const FINAL_TIMEOUT_SECS: u64 = 60;

pub struct TranscribeResult {
    pub text: String,
}

/// The runtime's answer to `GET /health`.
pub struct RuntimeHealth {
    pub ok: bool,
    pub ready: bool,
    pub model_loaded: bool,
    pub model_id: Option<String>,
    pub detail: Option<String>,
    pub execution_provider: Option<String>,
}

/// The fields of a health report, each present only when it has the
/// expected JSON type (booleans for the flags, strings for the rest).
pub struct HealthFields {
    pub ok: Option<bool>,
    pub ready: Option<bool>,
    pub model_loaded: Option<bool>,
    pub model_id: Option<String>,
    pub message: Option<String>,
    pub execution_provider: Option<String>,
}

pub open spec fn flag(b: Option<bool>) -> bool {
    match b {
        Some(v) => v,
        None => false,
    }
}

/// The health report: missing flags read as `false`; `message` is the detail.
pub fn runtime_health_from(f: HealthFields) -> (h: RuntimeHealth)
    ensures
        h.ok == flag(f.ok),
        h.ready == flag(f.ready),
        h.model_loaded == flag(f.model_loaded),
        h.model_id == f.model_id,
        h.detail == f.message,
        h.execution_provider == f.execution_provider,
{
    RuntimeHealth {
        ok: match f.ok {
            Some(v) => v,
            None => false,
        },
        ready: match f.ready {
            Some(v) => v,
            None => false,
        },
        model_loaded: match f.model_loaded {
            Some(v) => v,
            None => false,
        },
        model_id: f.model_id,
        detail: f.message,
        execution_provider: f.execution_provider,
    }
}

/// The runtime can take a session: it answered, and reports ok and ready.
pub fn check_runtime_health(health: &Option<RuntimeHealth>) -> (b: bool)
    ensures
        b == (health matches Some(h) && h.ok && h.ready),
{
    match health {
        Some(h) => h.ok && h.ready,
        None => false,
    }
}

/// A JSON member that should hold a string.
pub enum JsonText {
    Absent,
    Text(String),
    /// Present, but not a string (including `null`).
    NotText,
}

/// A text frame from the runtime, by the members the client reads. Members
/// that are missing or not strings are `None` (except `message`, where the
/// difference matters).
pub struct ServerMessage {
    pub session_id: Option<String>,
    pub kind: Option<String>,
    pub text: Option<String>,
    pub message: JsonText,
    pub code: Option<String>,
}

/// What the client knows of one recognition session.
pub struct SessionState {
    /// The server acknowledged `session.start`.
    pub started: bool,
    /// The error the server reported before the session started.
    pub start_error: Option<String>,
    /// `session.end` was sent and its transcript is still owed.
    pub awaiting_final: bool,
}

/// What a server message asks the client to do besides updating its state.
pub struct MessageEffect {
    /// Text to show on the overlay.
    pub overlay_text: Option<String>,
    /// The outcome handed to whoever waits for the transcript.
    pub deliver: Option<Result<TranscribeResult, String>>,
}

pub open spec fn text_or_empty(t: Option<String>) -> Seq<char> {
    match t {
        Some(s) => s@,
        None => Seq::empty(),
    }
}

/// The error text of an `error` message: `message` when present (the generic
/// text when it is not a string), else `code`, else the generic text.
pub open spec fn error_text(m: ServerMessage) -> Seq<char> {
    match m.message {
        JsonText::Text(s) => s@,
        JsonText::NotText => "语音识别失败"@,
        JsonText::Absent => match m.code {
            Some(c) => c@,
            None => "语音识别失败"@,
        },
    }
}

/// The message is for another session.
pub open spec fn foreign(m: ServerMessage, session_id: Seq<char>) -> bool {
    m.session_id matches Some(s) && s@ != session_id
}

pub open spec fn kind_is(m: ServerMessage, k: Seq<char>) -> bool {
    opt_view(m.kind) == Some(k)
}

pub open spec fn delivered_ok(e: MessageEffect, text: Seq<char>) -> bool {
    e.deliver matches Some(Ok(r)) && r.text@ == text
}

pub open spec fn delivered_err(e: MessageEffect, text: Seq<char>) -> bool {
    e.deliver matches Some(Err(msg)) && msg@ == text
}

/// The effect of the server message `m` on a session with id `id`, taking
/// it from state `s0` to `s1` and asking for `e`:
/// - a message of another session changes nothing;
/// - `session.started` marks the session started;
/// - `partial` shows its text;
/// - `final` shows its text and hands it over as the transcript, if one is owed;
/// - `error` records its text as the start error unless the session had
///   started, and hands it over as the failure, if a transcript is owed;
/// - anything else changes nothing.
pub open spec fn message_handled(
    s0: SessionState,
    s1: SessionState,
    e: MessageEffect,
    id: Seq<char>,
    m: ServerMessage,
) -> bool {
    if foreign(m, id) {
        s1 == s0 && e.overlay_text is None && e.deliver is None
    } else if kind_is(m, "session.started"@) {
        &&& s1 == SessionState { started: true, ..s0 }
        &&& e.overlay_text is None
        &&& e.deliver is None
    } else if kind_is(m, "partial"@) {
        &&& s1 == s0
        &&& opt_view(e.overlay_text) == Some(text_or_empty(m.text))
        &&& e.deliver is None
    } else if kind_is(m, "final"@) {
        &&& s1 == SessionState { awaiting_final: false, ..s0 }
        &&& opt_view(e.overlay_text) == Some(text_or_empty(m.text))
        &&& if s0.awaiting_final {
            delivered_ok(e, text_or_empty(m.text))
        } else {
            e.deliver is None
        }
    } else if kind_is(m, "error"@) {
        &&& s1.started == s0.started
        &&& !s1.awaiting_final
        &&& if s0.started {
            s1.start_error == s0.start_error
        } else {
            opt_view(s1.start_error) == Some(error_text(m))
        }
        &&& e.overlay_text is None
        &&& if s0.awaiting_final {
            delivered_err(e, error_text(m))
        } else {
            e.deliver is None
        }
    } else {
        s1 == s0 && e.overlay_text is None && e.deliver is None
    }
}

impl SessionState {
    pub fn new() -> (s: Self)
        ensures
            !s.started,
            s.start_error is None,
            !s.awaiting_final,
    {
        SessionState { started: false, start_error: None, awaiting_final: false }
    }

    /// `session.end` is being sent: a transcript is now owed.
    pub fn begin_end_session(&mut self)
        ensures
            final(self).awaiting_final,
            final(self).started == old(self).started,
            final(self).start_error == old(self).start_error,
    {
        self.awaiting_final = true;
    }

    /// Applies one server message of a session whose id is `session_id`.
    pub fn handle_server_message(&mut self, session_id: &str, m: &ServerMessage) -> (e:
        MessageEffect)
        ensures
            message_handled(*old(self), *final(self), e, session_id@, *m),
    {
        let none = MessageEffect { overlay_text: None, deliver: None };
        if let Some(s) = &m.session_id {
            if !str_eq(s.as_str(), session_id) {
                return none;
            }
        }
        let kind = match &m.kind {
            Some(k) => k.as_str(),
            None => {
                return none;
            },
        };
        if str_eq(kind, "session.started") {
            self.started = true;
            none
        } else if str_eq(kind, "partial") {
            MessageEffect { overlay_text: Some(text_or_empty_exec(&m.text)), deliver: None }
        } else if str_eq(kind, "final") {
            let text = text_or_empty_exec(&m.text);
            let deliver = if self.awaiting_final {
                self.awaiting_final = false;
                Some(Ok(TranscribeResult { text: text.clone() }))
            } else {
                None
            };
            MessageEffect { overlay_text: Some(text), deliver }
        } else if str_eq(kind, "error") {
            let message = error_text_exec(m);
            if !self.started {
                self.start_error = Some(message.clone());
            }
            let deliver = if self.awaiting_final {
                self.awaiting_final = false;
                Some(Err(message))
            } else {
                None
            };
            MessageEffect { overlay_text: None, deliver }
        } else {
            none
        }
    }

    /// One poll of the session-start handshake: an error reported before the
    /// start wins; then an acknowledged start; otherwise keep waiting.
    pub fn start_status(&self) -> (r: Option<Result<(), String>>)
        ensures
            self.start_error matches Some(err) ==> (r matches Some(Err(msg)) && msg@ == err@),
            self.start_error is None && self.started ==> r == Some(Ok::<(), String>(())),
            self.start_error is None && !self.started ==> r is None,
    {
        match &self.start_error {
            Some(err) => Some(Err(err.clone())),
            None => if self.started {
                Some(Ok(()))
            } else {
                None
            },
        }
    }

    /// The outcome when the handshake polls are used up.
    pub fn start_timeout_result(&self) -> (r: Result<(), String>)
        ensures
            self.start_error matches Some(err) ==> (r matches Err(msg) && msg@ == err@),
            self.start_error is None ==> (r matches Err(msg) && msg@
                == "语音服务响应超时，请确认模型已加载完成"@),
    {
        match &self.start_error {
            Some(err) => Err(err.clone()),
            None => Err(String::from_str("语音服务响应超时，请确认模型已加载完成")),
        }
    }
}

fn text_or_empty_exec(t: &Option<String>) -> (r: String)
    ensures
        r@ == text_or_empty(*t),
{
    match t {
        Some(s) => s.clone(),
        None => String::new(),
    }
}

fn error_text_exec(m: &ServerMessage) -> (r: String)
    ensures
        r@ == error_text(*m),
{
    match &m.message {
        JsonText::Text(s) => s.clone(),
        JsonText::NotText => String::from_str("语音识别失败"),
        JsonText::Absent => match &m.code {
            Some(c) => c.clone(),
            None => String::from_str("语音识别失败"),
        },
    }
}

} // verus!

verus! {

/// Once the server has acknowledged the start and no start error was seen,
/// no later message of the session makes the handshake fail.
pub proof fn acknowledged_start_is_stable(
    s0: SessionState,
    s1: SessionState,
    e: MessageEffect,
    id: Seq<char>,
    m: ServerMessage,
)
    requires
        s0.started,
        s0.start_error is None,
        message_handled(s0, s1, e, id, m),
    ensures
        s1.started,
        s1.start_error is None,
{
}

/// A transcript is handed over at most once per `session.end`: after a
/// `final` or `error` has been delivered, a further one delivers nothing.
pub proof fn transcript_delivered_at_most_once(
    s0: SessionState,
    s1: SessionState,
    s2: SessionState,
    e1: MessageEffect,
    e2: MessageEffect,
    id: Seq<char>,
    m1: ServerMessage,
    m2: ServerMessage,
)
    requires
        e1.deliver is Some,
        message_handled(s0, s1, e1, id, m1),
        message_handled(s1, s2, e2, id, m2),
    ensures
        e2.deliver is None,
{
}

} // verus!
