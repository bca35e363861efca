//! Decisions around the local ASR runtime process: which port it listens on,
//! which listeners on that port are stale runtimes that may be reclaimed, and
//! how a health poll is read.
//!
//! The process table and the socket table are read by the caller (`netstat`,
//! `tasklist`); this module parses their text output and decides.
use vstd::prelude::*;

use crate::settings::{opt_view, AppSettings};
use crate::text::{
    chars_of, contains_in, contains_in_exec, decimal, decimal_chars, decimal_string,
    eq_ignore_ascii_case, find_char, find_char_exec, lemma_find_char_bounds, parse_u32_in,
    parse_u32_in_exec, skip_char_backward, skip_char_backward_exec, skip_char_forward,
    skip_char_forward_exec, skip_ws_backward, skip_ws_backward_exec, skip_ws_forward,
    skip_ws_forward_exec, str_eq_ignore_ascii_case, word_start, word_start_exec,
};
use crate::voice_ws::RuntimeHealth;
use vstd::string::StringExecFns;


verus! {

pub const RUNTIME_PORT_MIN: u16 = 6016;

pub const RUNTIME_PORT_MAX: u16 = 6100;

/// Milliseconds between two health polls.
pub const HEALTH_POLL_INTERVAL_MS: u64 = 300;

/// End of the line that starts at `i`: the next `'\n'` at or after `i`, or the end of the text.
pub open spec fn line_end(s: Seq<char>, i: int) -> int {
    find_char(s, i, s.len() as int, '\n')
}

/// The text `netstat` prints for a listener bound to loopback on `port`.
pub open spec fn listen_needle(port: u16) -> Seq<char> {
    "127.0.0.1:"@ + decimal(port as nat)
}

/// The process id that a `netstat` line `[lo, hi)` reports for a loopback
/// listener: the line mentions the needle and `LISTENING`, and its last
/// white-space separated field is a positive decimal `u32`.
pub open spec fn line_listener_pid(s: Seq<char>, lo: int, hi: int, needle: Seq<char>) -> Option<
    u32,
> {
    if contains_in(s, lo, hi, needle) && contains_in(s, lo, hi, "LISTENING"@) {
        let e = skip_ws_backward(s, lo, hi);
        let w = word_start(s, lo, e);
        if e == lo {
            None
        } else {
            match parse_u32_in(s, w, e) {
                Some(p) => if p > 0 {
                    Some(p)
                } else {
                    None
                },
                None => None,
            }
        }
    } else {
        None
    }
}

/// The listener pids reported by the lines that start at or after `i`, in order.
pub open spec fn listener_pids_from(s: Seq<char>, i: int, needle: Seq<char>) -> Seq<u32>
    decreases s.len() - i,
{
    if i < 0 || i >= s.len() {
        Seq::empty()
    } else {
        let e = line_end(s, i);
        proof {
            lemma_find_char_bounds(s, i, s.len() as int, '\n');
        }
        let rest = if e + 1 <= s.len() {
            listener_pids_from(s, e + 1, needle)
        } else {
            Seq::empty()
        };
        match line_listener_pid(s, i, e, needle) {
            Some(p) => seq![p] + rest,
            None => rest,
        }
    }
}

/// The pids that the `netstat` output `text` shows listening on `127.0.0.1:port`.
pub open spec fn listener_pids(text: Seq<char>, port: u16) -> Seq<u32> {
    listener_pids_from(text, 0, listen_needle(port))
}

/// No process listens on `port` according to `text`.
pub open spec fn port_is_free(text: Seq<char>, port: u16) -> bool {
    listener_pids(text, port).len() == 0
}

pub open spec fn clamp_port(p: u16) -> u16 {
    if p < RUNTIME_PORT_MIN {
        RUNTIME_PORT_MIN
    } else if p > RUNTIME_PORT_MAX {
        RUNTIME_PORT_MAX
    } else {
        p
    }
}

/// `port` is the first free port when the runtime range is searched upwards
/// from `start` and then from the bottom of the range up to `start`.
pub open spec fn first_free_port_from(text: Seq<char>, start: u16, port: u16) -> bool {
    &&& RUNTIME_PORT_MIN <= port <= RUNTIME_PORT_MAX
    &&& port_is_free(text, port)
    &&& if port >= start {
        forall|q: u16| start <= q < port ==> !port_is_free(text, q)
    } else {
        &&& forall|q: u16| start <= q <= RUNTIME_PORT_MAX ==> !port_is_free(text, q)
        &&& forall|q: u16| RUNTIME_PORT_MIN <= q < port ==> !port_is_free(text, q)
    }
}

pub open spec fn no_free_runtime_port(text: Seq<char>) -> bool {
    forall|q: u16| RUNTIME_PORT_MIN <= q <= RUNTIME_PORT_MAX ==> !port_is_free(text, q)
}

pub open spec fn no_free_port_message() -> Seq<char> {
    "无可用识别服务端口（6016-6100 均被占用）"@
}

fn listen_needle_exec(port: u16) -> (v: Vec<char>)
    ensures
        v@ == listen_needle(port),
{
    let prefix = chars_of("127.0.0.1:");
    let digits = decimal_chars(port as u64);
    let mut v = prefix;
    let mut k: usize = 0;
    let ghost p = v@;
    while k < digits.len()
        invariant
            k <= digits.len(),
            v@ == p + digits@.take(k as int),
        decreases digits.len() - k,
    {
        v.push(digits[k]);
        assert(digits@.take(k + 1) == digits@.take(k as int).push(digits@[k as int]));
        k = k + 1;
    }
    assert(digits@.take(digits.len() as int) == digits@);
    proof {
        reveal_strlit("127.0.0.1:");
    }
    v
}

fn line_listener_pid_exec(s: &Vec<char>, lo: usize, hi: usize, needle: &Vec<char>, listening: &Vec<
    char,
>) -> (r: Option<u32>)
    requires
        lo <= hi <= s.len(),
        listening@ == "LISTENING"@,
    ensures
        r == line_listener_pid(s@, lo as int, hi as int, needle@),
{
    if contains_in_exec(s, lo, hi, needle) && contains_in_exec(s, lo, hi, listening) {
        let e = skip_ws_backward_exec(s, lo, hi);
        let w = word_start_exec(s, lo, e);
        if e == lo {
            None
        } else {
            match parse_u32_in_exec(s, w, e) {
                Some(p) => if p > 0 {
                    Some(p)
                } else {
                    None
                },
                None => None,
            }
        }
    } else {
        None
    }
}

/// The pids that the `netstat -ano -p tcp` output `netstat_output` shows
/// listening on `127.0.0.1:port`, in the order of the lines that show them.
pub fn find_listener_pids(netstat_output: &str, port: u16) -> (pids: Vec<u32>)
    ensures
        pids@ == listener_pids(netstat_output@, port),
{
    let s = chars_of(netstat_output);
    let needle = listen_needle_exec(port);
    let listening = chars_of("LISTENING");
    let mut pids: Vec<u32> = Vec::new();
    let mut i: usize = 0;
    while i < s.len()
        invariant
            i <= s.len(),
            s@ == netstat_output@,
            needle@ == listen_needle(port),
            listening@ == "LISTENING"@,
            pids@ + listener_pids_from(s@, i as int, needle@) == listener_pids_from(
                s@,
                0,
                needle@,
            ),
        decreases s.len() - i,
    {
        let e = find_char_exec(&s, i, s.len(), '\n');
        let found = line_listener_pid_exec(&s, i, e, &needle, &listening);
        let ghost rest = if e + 1 <= s.len() {
            listener_pids_from(s@, e + 1, needle@)
        } else {
            Seq::empty()
        };
        assert(listener_pids_from(s@, i as int, needle@) == match line_listener_pid(
            s@,
            i as int,
            e as int,
            needle@,
        ) {
            Some(p) => seq![p] + rest,
            None => rest,
        });
        match found {
            Some(p) => {
                pids.push(p);
                assert(pids@ + rest == (pids@.drop_last()) + (seq![p] + rest));
            },
            None => {},
        }
        if e < s.len() {
            i = e + 1;
        } else {
            i = s.len();
        }
    }
    assert(pids@ + listener_pids_from(s@, i as int, needle@) == pids@);
    pids
}

fn port_is_free_exec(netstat_output: &str, port: u16) -> (r: bool)
    ensures
        r == port_is_free(netstat_output@, port),
{
    find_listener_pids(netstat_output, port).len() == 0
}

/// The first runtime port without a listener, searching upwards from `start`
/// (moved into the runtime range) and then wrapping to the bottom of the range.
pub fn find_free_runtime_port(start: u16, netstat_output: &str) -> (r: Result<u16, String>)
    ensures
        r matches Ok(p) ==> first_free_port_from(netstat_output@, clamp_port(start), p),
        r matches Err(msg) ==> no_free_runtime_port(netstat_output@) && msg@
            == no_free_port_message(),
        r is Ok <==> !no_free_runtime_port(netstat_output@),
{
    let first = if start < RUNTIME_PORT_MIN {
        RUNTIME_PORT_MIN
    } else if start > RUNTIME_PORT_MAX {
        RUNTIME_PORT_MAX
    } else {
        start
    };
    assert(first == clamp_port(start));
    let mut port = first;
    while port <= RUNTIME_PORT_MAX
        invariant
            RUNTIME_PORT_MIN <= first <= port <= RUNTIME_PORT_MAX + 1,
            first == clamp_port(start),
            forall|q: u16| first <= q < port ==> !port_is_free(netstat_output@, q),
        decreases RUNTIME_PORT_MAX + 1 - port,
    {
        if port_is_free_exec(netstat_output, port) {
            return Ok(port);
        }
        port = port + 1;
    }
    let mut port = RUNTIME_PORT_MIN;
    while port < first
        invariant
            RUNTIME_PORT_MIN <= port <= first <= RUNTIME_PORT_MAX,
            first == clamp_port(start),
            forall|q: u16| first <= q <= RUNTIME_PORT_MAX ==> !port_is_free(netstat_output@, q),
            forall|q: u16| RUNTIME_PORT_MIN <= q < port ==> !port_is_free(netstat_output@, q),
        decreases first - port,
    {
        if port_is_free_exec(netstat_output, port) {
            return Ok(port);
        }
        port = port + 1;
    }
    proof {
        reveal_strlit("无可用识别服务端口（6016-6100 均被占用）");
    }
    Err(String::from_str("无可用识别服务端口（6016-6100 均被占用）"))
}

} // verus!

verus! {

/// The image name `tasklist /FO CSV /NH` reports: the output trimmed; nothing
/// when that is empty or says `No tasks`; else its first comma-separated
/// field without surrounding double quotes.
pub open spec fn image_name(s: Seq<char>) -> Option<Seq<char>> {
    let a = skip_ws_forward(s, 0, s.len() as int);
    let b = skip_ws_backward(s, a, s.len() as int);
    if a == b || contains_in(s, a, b, "No tasks"@) {
        None
    } else {
        let c = find_char(s, a, b, ',');
        let x = skip_char_forward(s, a, c, '"');
        let y = skip_char_backward(s, x, c, '"');
        Some(s.subrange(x, y))
    }
}

/// The executable image of the process that `tasklist_output` describes.
pub fn process_image_name(tasklist_output: &str) -> (r: Option<String>)
    ensures
        opt_view(r) == image_name(tasklist_output@),
{
    let s = chars_of(tasklist_output);
    let a = skip_ws_forward_exec(&s, 0, s.len());
    let b = skip_ws_backward_exec(&s, a, s.len());
    let no_tasks = chars_of("No tasks");
    if a == b || contains_in_exec(&s, a, b, &no_tasks) {
        return None;
    }
    let c = find_char_exec(&s, a, b, ',');
    let x = skip_char_forward_exec(&s, a, c, '"');
    let y = skip_char_backward_exec(&s, x, c, '"');
    Some(tasklist_output.substring_char(x, y).to_owned())
}

/// A process id with what `tasklist` printed for it.
pub struct PidImage {
    pub pid: u32,
    pub tasklist_output: String,
}

pub open spec fn is_runtime_image(tasklist_output: Seq<char>) -> bool {
    image_name(tasklist_output) matches Some(n) && eq_ignore_ascii_case(n, "voxtype-runtime.exe"@)
}

/// `pid` is, by the first `tasklist` record of it, a `voxtype-runtime.exe` process.
pub open spec fn pid_is_runtime(images: Seq<PidImage>, pid: u32) -> bool {
    exists|i: int|
        0 <= i < images.len() && #[trigger] images[i].pid == pid && (forall|j: int|
            0 <= j < i ==> images[j].pid != pid) && is_runtime_image(images[i].tasklist_output@)
}

/// Is `pid` one of our own runtime processes (left over from an earlier run)?
pub fn is_voxtype_runtime_pid(pid: u32, images: &Vec<PidImage>) -> (r: bool)
    ensures
        r == pid_is_runtime(images@, pid),
{
    let mut i: usize = 0;
    while i < images.len()
        invariant
            i <= images.len(),
            forall|j: int| 0 <= j < i ==> images@[j].pid != pid,
        decreases images.len() - i,
    {
        if images[i].pid == pid {
            let r = match process_image_name(images[i].tasklist_output.as_str()) {
                Some(name) => str_eq_ignore_ascii_case(name.as_str(), "voxtype-runtime.exe"),
                None => false,
            };
            assert(r == is_runtime_image(images@[i as int].tasklist_output@));
            if !r {
                assert forall|k: int|
                    0 <= k < images.len() && #[trigger] images@[k].pid == pid && (forall|j: int|
                        0 <= j < k ==> images@[j].pid != pid) implies !is_runtime_image(
                    images@[k].tasklist_output@,
                ) by {
                    if k != i {
                        if k < i {
                        } else {
                            assert(images@[i as int].pid == pid);
                        }
                    }
                }
            }
            return r;
        }
        i = i + 1;
    }
    false
}

fn all_runtime_pids(pids: &Vec<u32>, images: &Vec<PidImage>) -> (r: bool)
    ensures
        r == (forall|i: int| 0 <= i < pids.len() ==> pid_is_runtime(images@, #[trigger] pids@[i])),
{
    let mut i: usize = 0;
    while i < pids.len()
        invariant
            i <= pids.len(),
            forall|k: int| 0 <= k < i ==> pid_is_runtime(images@, #[trigger] pids@[k]),
        decreases pids.len() - i,
    {
        if !is_voxtype_runtime_pid(pids[i], images) {
            return false;
        }
        i = i + 1;
    }
    true
}

/// The port the runtime is started on.
pub struct PortChoice {
    pub port: u16,
    /// Stale runtime processes to stop before the port can be reused.
    pub reclaim_pids: Vec<u32>,
    /// The port differs from the configured one and is to be saved.
    pub persist: bool,
}

/// Where the search for another port starts: just above the configured one,
/// brought into the runtime range (so a configured port above it starts the
/// search at the top of the range). A configured port at the top of the range
/// starts the search at the bottom, so that it is tried last: the search is
/// for another port, and the configured one comes back only when every other
/// runtime port is busy.
pub open spec fn next_port_start(configured: u16) -> u16 {
    if configured == RUNTIME_PORT_MAX {
        RUNTIME_PORT_MIN
    } else if configured < RUNTIME_PORT_MIN {
        RUNTIME_PORT_MIN
    } else if configured >= RUNTIME_PORT_MAX {
        RUNTIME_PORT_MAX
    } else {
        (configured + 1) as u16
    }
}

pub open spec fn moved_to_free_port(text: Seq<char>, configured: u16, r: Result<PortChoice, String>) -> bool {
    match r {
        Ok(c) => first_free_port_from(text, clamp_port(next_port_start(configured)), c.port)
            && c.reclaim_pids@.len() == 0 && c.persist,
        Err(msg) => no_free_runtime_port(text) && msg@ == no_free_port_message(),
    }
}

/// Every listener on the configured port is a stale runtime of ours.
pub open spec fn only_stale_runtimes(text: Seq<char>, configured: u16, images: Seq<PidImage>) -> bool {
    forall|i: int|
        0 <= i < listener_pids(text, configured).len() ==> pid_is_runtime(
            images,
            #[trigger] listener_pids(text, configured)[i],
        )
}

pub open spec fn port_resolved(
    force_new: bool,
    configured: u16,
    text: Seq<char>,
    images: Seq<PidImage>,
    r: Result<PortChoice, String>,
) -> bool {
    if force_new {
        moved_to_free_port(text, configured, r)
    } else if port_is_free(text, configured) {
        r matches Ok(c) && c.port == configured && c.reclaim_pids@.len() == 0 && !c.persist
    } else if only_stale_runtimes(text, configured, images) {
        r matches Ok(c) && c.port == configured && c.reclaim_pids@ == listener_pids(
            text,
            configured,
        ) && !c.persist
    } else {
        moved_to_free_port(text, configured, r)
    }
}

/// Picks the runtime port. With `force_new`, the first free port found
/// cyclically from `next_port_start` (just above the configured port, within
/// the runtime range; from the bottom when the configured port is the top
/// one). Otherwise the configured port when nothing listens on it, or when
/// only stale runtimes do (they are to be stopped); else the first free port
/// found the same way.
pub fn resolve_runtime_port(
    force_new: bool,
    configured: u16,
    netstat_output: &str,
    images: &Vec<PidImage>,
) -> (r: Result<PortChoice, String>)
    ensures
        port_resolved(force_new, configured, netstat_output@, images@, r),
{
    let start = if configured == RUNTIME_PORT_MAX {
        RUNTIME_PORT_MIN
    } else if configured < RUNTIME_PORT_MIN {
        RUNTIME_PORT_MIN
    } else if configured > RUNTIME_PORT_MAX {
        RUNTIME_PORT_MAX
    } else {
        configured + 1
    };
    assert(start == next_port_start(configured));
    if force_new {
        let port = find_free_runtime_port(start, netstat_output)?;
        return Ok(PortChoice { port, reclaim_pids: Vec::new(), persist: true });
    }
    let listeners = find_listener_pids(netstat_output, configured);
    if listeners.len() == 0 {
        return Ok(PortChoice { port: configured, reclaim_pids: Vec::new(), persist: false });
    }
    if all_runtime_pids(&listeners, images) {
        return Ok(PortChoice { port: configured, reclaim_pids: listeners, persist: false });
    }
    let port = find_free_runtime_port(start, netstat_output)?;
    Ok(PortChoice { port, reclaim_pids: Vec::new(), persist: true })
}

/// Records `port` as the runtime port; returns whether the settings changed
/// (and so are to be saved).
pub fn persist_runtime_port(settings: &mut AppSettings, port: u16) -> (changed: bool)
    ensures
        changed == (old(settings).runtime_ws_port != port),
        final(settings).runtime_ws_port == port,
        final(settings).hotkey == old(settings).hotkey,
        final(settings).hotkey_mode == old(settings).hotkey_mode,
        final(settings).active_model_id == old(settings).active_model_id,
        final(settings).api_port == old(settings).api_port,
        final(settings).strip_trailing_punctuation == old(settings).strip_trailing_punctuation,
        final(settings).use_gpu == old(settings).use_gpu,
{
    if settings.runtime_ws_port == port {
        return false;
    }
    settings.runtime_ws_port = port;
    true
}

/// How a health poll during start-up reads.
pub enum HealthPoll {
    /// The model is loaded; sessions can start.
    Ready,
    /// The runtime reports a failure.
    Failed(String),
    /// No answer yet, or still loading.
    KeepWaiting,
}

pub open spec fn health_failure_message(detail: Option<String>) -> Seq<char> {
    "识别服务异常: "@ + match detail {
        Some(d) => d@,
        None => "health not ok"@,
    }
}

/// A poll reads `Ready` once the runtime is ready, `Failed` when it reports
/// not ok (before being ready), and `KeepWaiting` otherwise.
pub open spec fn poll_reads(health: Option<RuntimeHealth>, r: HealthPoll) -> bool {
    match health {
        None => r is KeepWaiting,
        Some(h) => if h.ready {
            r is Ready
        } else if !h.ok {
            r matches HealthPoll::Failed(msg) && msg@ == health_failure_message(h.detail)
        } else {
            r is KeepWaiting
        },
    }
}

pub fn health_poll_outcome(health: &Option<RuntimeHealth>) -> (r: HealthPoll)
    ensures
        poll_reads(*health, r),
{
    match health {
        None => HealthPoll::KeepWaiting,
        Some(h) => {
            if h.ready {
                HealthPoll::Ready
            } else if !h.ok {
                let mut msg = String::from_str("识别服务异常: ");
                match &h.detail {
                    Some(d) => msg.append(d.as_str()),
                    None => msg.append("health not ok"),
                }
                HealthPoll::Failed(msg)
            } else {
                HealthPoll::KeepWaiting
            }
        },
    }
}

/// How many health polls fit in `max_ms`.
pub fn health_poll_steps(max_ms: u64) -> (n: u64)
    ensures
        n == max_ms / HEALTH_POLL_INTERVAL_MS,
{
    max_ms / HEALTH_POLL_INTERVAL_MS
}

/// The error once every health poll has passed without the runtime becoming ready.
pub fn startup_timeout_message() -> (s: String)
    ensures
        s@ == "识别服务启动超时（模型加载可能较慢，请查看 runtime 日志）"@,
{
    String::from_str("识别服务启动超时（模型加载可能较慢，请查看 runtime 日志）")
}

/// The runtime's command line (after the executable).
pub fn runtime_command_args(port: u16, model_dir: &str, model_type: &str, provider: &str) -> (r:
    Vec<String>)
    ensures
        r@.len() == 8,
        r@[0]@ == "--port"@,
        r@[1]@ == decimal(port as nat),
        r@[2]@ == "--model-dir"@,
        r@[3]@ == model_dir@,
        r@[4]@ == "--model-type"@,
        r@[5]@ == model_type@,
        r@[6]@ == "--provider"@,
        r@[7]@ == provider@,
{
    let mut r: Vec<String> = Vec::new();
    r.push(String::from_str("--port"));
    r.push(decimal_string(port as u64));
    r.push(String::from_str("--model-dir"));
    r.push(model_dir.to_owned());
    r.push(String::from_str("--model-type"));
    r.push(model_type.to_owned());
    r.push(String::from_str("--provider"));
    r.push(provider.to_owned());
    r
}

} // verus!

verus! {

/// Only stale runtimes are ever reclaimed: every pid the port choice asks to
/// stop is one of our own runtime processes, and it listens on the configured
/// port, which is then reused.
pub proof fn reclaims_only_stale_runtimes(
    force_new: bool,
    configured: u16,
    text: Seq<char>,
    images: Seq<PidImage>,
    c: PortChoice,
)
    requires
        port_resolved(force_new, configured, text, images, Ok(c)),
    ensures
        c.reclaim_pids@.len() > 0 ==> c.port == configured,
        forall|i: int|
            0 <= i < c.reclaim_pids@.len() ==> pid_is_runtime(images, #[trigger] c.reclaim_pids@[i])
                && listener_pids(text, configured).contains(c.reclaim_pids@[i]),
{
    assert forall|i: int| 0 <= i < c.reclaim_pids@.len() implies pid_is_runtime(
        images,
        #[trigger] c.reclaim_pids@[i],
    ) && listener_pids(text, configured).contains(c.reclaim_pids@[i]) by {
        assert(listener_pids(text, configured)[i] == c.reclaim_pids@[i]);
    }
}

/// The port chosen always lies in the runtime range, except that a free (or
/// reclaimable) configured port is kept as it is.
pub proof fn chosen_port_in_range_or_configured(
    force_new: bool,
    configured: u16,
    text: Seq<char>,
    images: Seq<PidImage>,
    c: PortChoice,
)
    requires
        port_resolved(force_new, configured, text, images, Ok(c)),
    ensures
        (RUNTIME_PORT_MIN <= c.port <= RUNTIME_PORT_MAX) || (!force_new && c.port == configured),
        c.persist ==> RUNTIME_PORT_MIN <= c.port <= RUNTIME_PORT_MAX && port_is_free(text, c.port),
{
}

} // verus!

verus! {

/// The model directory and the model kind the runtime is started with for
/// the active catalog entry.
pub fn resolve_active_model_dir(data_root: &str, entry: &crate::settings::ModelCatalogEntry) -> (r: (
    String,
    String,
))
    ensures
        r.0@ == crate::paths::joined_path(
            crate::paths::joined_path(data_root@, "models"@),
            entry.layout@,
        ),
        r.1@ == entry.spec_runtime_preset_or_type(),
{
    let dir = crate::settings::model_dir_for_id(data_root, entry.id.as_str(), entry.layout.as_str());
    let kind = entry.runtime_preset_or_type().to_owned();
    (dir, kind)
}

} // verus!

verus! {

/// A fresh port differs from the configured one whenever any other runtime
/// port is free; the configured port is reused only when every other port is busy.
pub proof fn fresh_port_differs_when_another_is_free(
    configured: u16,
    text: Seq<char>,
    images: Seq<PidImage>,
    c: PortChoice,
    other: u16,
)
    requires
        port_resolved(true, configured, text, images, Ok(c)),
        RUNTIME_PORT_MIN <= other <= RUNTIME_PORT_MAX,
        other != configured,
        port_is_free(text, other),
    ensures
        c.port != configured,
{
    assert(clamp_port(next_port_start(configured)) == next_port_start(configured));
}

} // verus!
