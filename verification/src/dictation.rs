//! The dictation cycle: idle → recording → transcribing → idle, and what is
//! done with a transcript before it is typed.
use vstd::prelude::*;
use crate::settings::{first_entry_with_id, has_entry_with_id, AppSettings, ModelsCatalog};
use crate::text::{chars_of, trim, trimmed};

verus! {

/// Audio shorter than this many bytes (200 ms of 16 kHz mono `pcm_s16le`)
/// is not sent to the recogniser.
pub const MIN_PCM_BYTES: usize = 6400;

#[derive(Debug, Clone, Copy, PartialEq, Eq, Structural)]
pub enum DictationPhase {
    Idle,
    Recording,
    Transcribing,
}

impl DictationPhase {
    pub open spec fn label(self) -> Seq<char> {
        match self {
            DictationPhase::Idle => "idle"@,
            DictationPhase::Recording => "recording"@,
            DictationPhase::Transcribing => "transcribing"@,
        }
    }

    pub fn as_str(self) -> (s: &'static str)
        ensures
            s@ == self.label(),
    {
        match self {
            DictationPhase::Idle => "idle",
            DictationPhase::Recording => "recording",
            DictationPhase::Transcribing => "transcribing",
        }
    }

    pub open spec fn spec_toggle_action(self) -> ToggleAction {
        match self {
            DictationPhase::Idle => ToggleAction::EnsureRuntimeThenStart,
            DictationPhase::Recording => ToggleAction::StopAndType,
            DictationPhase::Transcribing => ToggleAction::Nothing,
        }
    }

    /// What the toggle command does in this phase.
    pub fn toggle_action(self) -> (a: ToggleAction)
        ensures
            a == self.spec_toggle_action(),
    {
        match self {
            DictationPhase::Idle => ToggleAction::EnsureRuntimeThenStart,
            DictationPhase::Recording => ToggleAction::StopAndType,
            DictationPhase::Transcribing => ToggleAction::Nothing,
        }
    }
}

#[derive(Debug, Clone, Copy, PartialEq, Eq, Structural)]
pub enum ToggleAction {
    /// Make sure the runtime is up and healthy, then start recording.
    EnsureRuntimeThenStart,
    /// Stop recording, transcribe and type the text.
    StopAndType,
    /// A transcript is being produced; the toggle is ignored.
    Nothing,
}

/// What a start command leads to.
#[derive(Debug, Clone, Copy, PartialEq, Eq, Structural)]
pub enum StartDecision {
    /// A recording is already running: nothing to do.
    AlreadyRecording,
    /// Start the runtime if needed, wait for it, connect, open a session and capture audio.
    Begin,
}

/// What a stop command leads to.
#[derive(Debug, Clone, Copy, PartialEq, Eq, Structural)]
pub enum StopDecision {
    /// Nothing is recording: the transcript is empty.
    NothingRecorded,
    /// Send the captured audio, end the session and type what comes back.
    Transcribe,
}

/// The dictation worker's state: the phase it shows, and whether it holds a
/// running audio capture with its recognition session.
pub struct DictationWorker {
    pub phase: DictationPhase,
    pub recording: bool,
}

impl DictationWorker {
    /// A capture is only held while the phase is `Recording`.
    pub open spec fn wf(self) -> bool {
        self.recording ==> self.phase == DictationPhase::Recording
    }

    /// The state once a capture and its session are up.
    pub open spec fn after_start(self) -> DictationWorker {
        DictationWorker { phase: DictationPhase::Recording, recording: true }
    }

    /// The state after a stop command.
    pub open spec fn after_stop(self) -> DictationWorker {
        if self.recording {
            DictationWorker { phase: DictationPhase::Transcribing, recording: false }
        } else {
            self
        }
    }

    /// The state once the transcript has been typed.
    pub open spec fn after_typed(self) -> DictationWorker {
        DictationWorker { phase: DictationPhase::Idle, recording: self.recording }
    }

    pub fn new() -> (w: Self)
        ensures
            w.phase == DictationPhase::Idle,
            !w.recording,
            w.wf(),
    {
        DictationWorker { phase: DictationPhase::Idle, recording: false }
    }

    pub fn start_requested(&self) -> (d: StartDecision)
        ensures
            d == (if self.recording {
                StartDecision::AlreadyRecording
            } else {
                StartDecision::Begin
            }),
    {
        if self.recording {
            StartDecision::AlreadyRecording
        } else {
            StartDecision::Begin
        }
    }

    /// The capture and the session are up: the phase to show is `Recording`.
    pub fn recording_started(&mut self) -> (shown: DictationPhase)
        ensures
            *final(self) == old(self).after_start(),
            shown == final(self).phase,
    {
        self.recording = true;
        self.phase = DictationPhase::Recording;
        DictationPhase::Recording
    }

    /// A stop command: when something is recording, the capture is handed
    /// over for transcription and the phase becomes `Transcribing`.
    pub fn stop_requested(&mut self) -> (d: StopDecision)
        ensures
            *final(self) == old(self).after_stop(),
            d == (if old(self).recording {
                StopDecision::Transcribe
            } else {
                StopDecision::NothingRecorded
            }),
    {
        if !self.recording {
            return StopDecision::NothingRecorded;
        }
        self.recording = false;
        self.phase = DictationPhase::Transcribing;
        StopDecision::Transcribe
    }

    /// The transcript has been typed: back to `Idle`.
    pub fn transcript_typed(&mut self) -> (shown: DictationPhase)
        ensures
            *final(self) == old(self).after_typed(),
            shown == final(self).phase,
    {
        self.phase = DictationPhase::Idle;
        DictationPhase::Idle
    }
}

/// Is a capture of `len` bytes long enough to send?
pub fn should_send_pcm(len: usize) -> (b: bool)
    ensures
        b == (len >= MIN_PCM_BYTES),
{
    len >= MIN_PCM_BYTES
}

/// Punctuation dropped from the end of a transcript: full-width and ASCII
/// comma, full stop, exclamation and question marks, semicolon and colon,
/// and the ideographic enumeration comma.
pub open spec fn is_trailing_punct(c: char) -> bool {
    ||| c == '，'
    ||| c == '。'
    ||| c == '！'
    ||| c == '？'
    ||| c == '、'
    ||| c == '；'
    ||| c == '：'
    ||| c == ','
    ||| c == '.'
    ||| c == '!'
    ||| c == '?'
    ||| c == ';'
    ||| c == ':'
}

/// `s` without its trailing run of punctuation.
pub open spec fn strip_trailing(s: Seq<char>) -> Seq<char>
    decreases s.len(),
{
    if s.len() > 0 && is_trailing_punct(s.last()) {
        strip_trailing(s.drop_last())
    } else {
        s
    }
}

fn is_trailing_punct_exec(c: char) -> (b: bool)
    ensures
        b == is_trailing_punct(c),
{
    c == '，' || c == '。' || c == '！' || c == '？' || c == '、' || c == '；' || c == '：' || c == ','
        || c == '.' || c == '!' || c == '?' || c == ';' || c == ':'
}

/// `text` without the punctuation at its end.
pub fn strip_trailing_punct(text: &str) -> (r: String)
    ensures
        r@ == strip_trailing(text@),
{
    let v = chars_of(text);
    let mut n = v.len();
    assert(text@.take(n as int) =~= text@);
    while n > 0 && is_trailing_punct_exec(v[n - 1])
        invariant
            n <= v.len(),
            v@ == text@,
            strip_trailing(text@) == strip_trailing(text@.take(n as int)),
        decreases n,
    {
        assert(text@.take(n as int).drop_last() =~= text@.take(n - 1));
        n = n - 1;
    }
    assert(strip_trailing(text@.take(n as int)) == text@.take(n as int));
    assert(text@.take(n as int) =~= text@.subrange(0, n as int));
    proof {
        assert(text@.take(text@.len() as int) =~= text@);
    }
    text.substring_char(0, n).to_owned()
}

/// The text typed for a transcript: trimmed, and without trailing
/// punctuation when the settings ask for that.
pub open spec fn typed_text(raw: Seq<char>, strip_punctuation: bool) -> Seq<char> {
    if strip_punctuation {
        strip_trailing(trimmed(raw))
    } else {
        trimmed(raw)
    }
}

pub fn finalize_transcript(raw: &str, strip_punctuation: bool) -> (r: String)
    ensures
        r@ == typed_text(raw@, strip_punctuation),
{
    let t = trim(raw);
    if strip_punctuation {
        strip_trailing_punct(t.as_str())
    } else {
        t
    }
}

/// Stores `hotkey`, trimmed, as the configured hotkey.
pub fn update_hotkey_setting(settings: &mut AppSettings, hotkey: &str)
    ensures
        final(settings).hotkey@ == trimmed(hotkey@),
        final(settings).hotkey_mode == old(settings).hotkey_mode,
        final(settings).active_model_id == old(settings).active_model_id,
        final(settings).runtime_ws_port == old(settings).runtime_ws_port,
        final(settings).api_port == old(settings).api_port,
        final(settings).strip_trailing_punctuation == old(settings).strip_trailing_punctuation,
        final(settings).use_gpu == old(settings).use_gpu,
{
    settings.hotkey = trim(hotkey);
}

/// The display name of the active model, when it is in the catalog.
pub fn active_model_name(active_model_id: &Option<String>, catalog: Option<&ModelsCatalog>) -> (r:
    Option<String>)
    ensures
        r matches Some(n) ==> exists|i: int|
            #![trigger catalog->0.models@[i]]
            active_model_id is Some && catalog is Some && first_entry_with_id(
                catalog->0.models@,
                active_model_id->0@,
                i,
            ) && n@ == catalog->0.models@[i].name@,
        r is None <==> (active_model_id is None || catalog is None || !has_entry_with_id(
            catalog->0.models@,
            active_model_id->0@,
        )),
{
    match (active_model_id, catalog) {
        (Some(id), Some(c)) => {
            match crate::settings::find_catalog_entry(c, id.as_str()) {
                Ok(e) => Some(e.name.clone()),
                Err(_) => None,
            }
        },
        _ => None,
    }
}

} // verus!

verus! {

/// Stripping keeps a prefix of the text and removes only punctuation: the
/// result is `s` cut short, and every character cut off is trailing punctuation.
pub proof fn strip_trailing_removes_only_punctuation(s: Seq<char>)
    ensures
        strip_trailing(s).len() <= s.len(),
        strip_trailing(s) == s.take(strip_trailing(s).len() as int),
        forall|i: int| strip_trailing(s).len() <= i < s.len() ==> is_trailing_punct(#[trigger] s[i]),
    decreases s.len(),
{
    if s.len() > 0 && is_trailing_punct(s.last()) {
        strip_trailing_removes_only_punctuation(s.drop_last());
        assert(s.drop_last().take(strip_trailing(s).len() as int) =~= s.take(
            strip_trailing(s).len() as int,
        ));
        assert forall|i: int| strip_trailing(s).len() <= i < s.len() implies is_trailing_punct(
            #[trigger] s[i],
        ) by {
            if i < s.len() - 1 {
                assert(s[i] == s.drop_last()[i]);
            }
        }
    } else {
        assert(s.take(s.len() as int) =~= s);
    }
}

/// A stripped text does not end in punctuation.
pub proof fn strip_trailing_leaves_no_trailing_punctuation(s: Seq<char>)
    ensures
        strip_trailing(s).len() == 0 || !is_trailing_punct(strip_trailing(s).last()),
    decreases s.len(),
{
    if s.len() > 0 && is_trailing_punct(s.last()) {
        strip_trailing_leaves_no_trailing_punctuation(s.drop_last());
    }
}

/// Stripping twice is stripping once.
pub proof fn strip_trailing_idempotent(s: Seq<char>)
    ensures
        strip_trailing(strip_trailing(s)) == strip_trailing(s),
{
    strip_trailing_leaves_no_trailing_punctuation(s);
}

/// Every step of the worker keeps its invariant: a capture is held only
/// while recording. (Typing follows a stop, which released the capture.)
pub proof fn dictation_steps_keep_invariant(w: DictationWorker)
    requires
        w.wf(),
    ensures
        w.after_start().wf(),
        w.after_stop().wf(),
        w.after_stop().after_typed().wf(),
{
}

/// A full dictation cycle from rest (start, capture, stop, type) ends at rest
/// again; along the way the toggle command starts, then stops, then is ignored.
pub proof fn dictation_cycle_returns_to_idle(w0: DictationWorker)
    requires
        w0.phase == DictationPhase::Idle,
        !w0.recording,
    ensures
        w0.phase.spec_toggle_action() == ToggleAction::EnsureRuntimeThenStart,
        w0.after_start().phase.spec_toggle_action() == ToggleAction::StopAndType,
        w0.after_start().after_stop().phase.spec_toggle_action() == ToggleAction::Nothing,
        w0.after_start().after_stop().after_typed() == w0,
{
}

/// A stop command with nothing recorded changes nothing.
pub proof fn stop_without_recording_is_noop(w: DictationWorker)
    requires
        !w.recording,
    ensures
        w.after_stop() == w,
{
}

} // verus!

verus! {

/// Each of `，。！？、；：,.!?;:` at the end of a text is stripped: appending one
/// of them changes nothing in the stripped result; a letter or a space at the
/// end stops the stripping.
pub proof fn strip_trailing_removes_each_punctuation_mark(s: Seq<char>)
    ensures
        strip_trailing(s.push('，')) == strip_trailing(s),
        strip_trailing(s.push('。')) == strip_trailing(s),
        strip_trailing(s.push('！')) == strip_trailing(s),
        strip_trailing(s.push('？')) == strip_trailing(s),
        strip_trailing(s.push('、')) == strip_trailing(s),
        strip_trailing(s.push('；')) == strip_trailing(s),
        strip_trailing(s.push('：')) == strip_trailing(s),
        strip_trailing(s.push(',')) == strip_trailing(s),
        strip_trailing(s.push('.')) == strip_trailing(s),
        strip_trailing(s.push('!')) == strip_trailing(s),
        strip_trailing(s.push('?')) == strip_trailing(s),
        strip_trailing(s.push(';')) == strip_trailing(s),
        strip_trailing(s.push(':')) == strip_trailing(s),
        strip_trailing(s.push('a')) == s.push('a'),
        strip_trailing(s.push('好')) == s.push('好'),
        strip_trailing(s.push(' ')) == s.push(' '),
{
    assert(s.push('，').drop_last() =~= s);
    assert(s.push('。').drop_last() =~= s);
    assert(s.push('！').drop_last() =~= s);
    assert(s.push('？').drop_last() =~= s);
    assert(s.push('、').drop_last() =~= s);
    assert(s.push('；').drop_last() =~= s);
    assert(s.push('：').drop_last() =~= s);
    assert(s.push(',').drop_last() =~= s);
    assert(s.push('.').drop_last() =~= s);
    assert(s.push('!').drop_last() =~= s);
    assert(s.push('?').drop_last() =~= s);
    assert(s.push(';').drop_last() =~= s);
    assert(s.push(':').drop_last() =~= s);
}

/// Stripping keeps a prefix of the text, removes only punctuation marks,
/// and stops at the last character that is not one.
pub proof fn strip_trailing_removes_only_a_punctuation_tail(s: Seq<char>)
    ensures
        strip_trailing(s).len() <= s.len(),
        strip_trailing(s) =~= s.take(strip_trailing(s).len() as int),
        strip_trailing(s).len() == 0 || !is_trailing_punct(strip_trailing(s).last()),
        forall|i: int| strip_trailing(s).len() <= i < s.len() ==> is_trailing_punct(#[trigger] s[i]),
    decreases s.len(),
{
    if s.len() > 0 && is_trailing_punct(s.last()) {
        strip_trailing_removes_only_a_punctuation_tail(s.drop_last());
        assert forall|i: int| strip_trailing(s).len() <= i < s.len() implies is_trailing_punct(
            #[trigger] s[i],
        ) by {
            if i < s.len() - 1 {
                assert(s[i] == s.drop_last()[i]);
            }
        }
    }
}

} // verus!
