//! Model download decisions: progress percentages, resumable transfers, the
//! order in which mirrors are tried, ModelScope file lists, integrity checks,
//! and switching the active model.
use vstd::prelude::*;
use crate::settings::{
    find_catalog_entry, first_entry_with_id, has_entry_with_id, is_model_installed, model_installed,
    opt_view, unknown_model_message, AppSettings, ModelCatalogEntry, ModelDownloadSpec,
    ModelScopeFileSpec, ModelsCatalog, ModelsDirSnapshot,
};
use crate::text::{
    chars_of, decimal, decimal_string, find_char, find_char_exec, parse_u64_in,
    parse_u64_in_exec, skip_char_forward, skip_char_forward_exec, str_contains, contains,
};
use vstd::string::StringExecFns;

verus! {

pub const CONNECT_TIMEOUT_SECS: u64 = 30;

pub const READ_STALL_TIMEOUT_SECS: u64 = 120;

pub const HTTP_PER_URL_RETRIES: u32 = 2;

/// Downloads at least this large go through `curl.exe` on Windows.
pub const CURL_MIN_BYTES: u64 = 10485760;

pub open spec fn min_u64(a: u64, b: u64) -> u64 {
    if a <= b {
        a
    } else {
        b
    }
}

/// The byte count a file's progress is measured against: the file's own size
/// when known and non-zero, else the overall total, and at least 1.
pub open spec fn percent_denominator(total_all: u64, file_total: Option<u64>) -> u64 {
    let d = match file_total {
        Some(t) => if t > 0 {
            t
        } else {
            total_all
        },
        None => total_all,
    };
    if d < 1 {
        1
    } else {
        d
    }
}

/// Bytes counted as done: the earlier files plus this file's progress (capped
/// at the denominator), saturating at `u64::MAX`.
pub open spec fn percent_current(done_base: u64, total_all: u64, file_done: u64, file_total: Option<
    u64,
>) -> int {
    let denom = percent_denominator(total_all, file_total);
    let sum = done_base + min_u64(file_done, denom);
    if sum > u64::MAX {
        u64::MAX as int
    } else {
        sum
    }
}

/// The scaled share `current * 90 / denom`, as the progress event computes it.
pub open spec fn percent_share(done_base: u64, total_all: u64, file_done: u64, file_total: Option<
    u64,
>) -> int {
    percent_current(done_base, total_all, file_done, file_total) * 90 / (percent_denominator(
        total_all,
        file_total,
    ) as int)
}

/// The progress percentage: `5 + share`, the share taken as a byte (its low
/// eight bits), and capped at 95.
pub open spec fn spec_file_percent(done_base: u64, total_all: u64, file_done: u64, file_total: Option<
    u64,
>) -> u8 {
    let p = 5 + percent_share(done_base, total_all, file_done, file_total) % 256;
    if p > 95 {
        95
    } else {
        p as u8
    }
}

/// The inputs on which the percentage is computed without overflow: the
/// scaled byte count fits in a `u64`, and `5 +` the byte fits in a `u8`.
pub open spec fn file_percent_defined(done_base: u64, total_all: u64, file_done: u64, file_total: Option<
    u64,
>) -> bool {
    &&& percent_current(done_base, total_all, file_done, file_total) * 90 <= u64::MAX
    &&& 5 + percent_share(done_base, total_all, file_done, file_total) % 256 <= 255
}

/// Progress of a file download, in percent of the whole model (5 to 95).
pub fn file_percent(done_base: u64, total_all: u64, file_done: u64, file_total: Option<u64>) -> (p:
    u8)
    requires
        file_percent_defined(done_base, total_all, file_done, file_total),
    ensures
        p == spec_file_percent(done_base, total_all, file_done, file_total),
{
    let d = match file_total {
        Some(t) => if t > 0 {
            t
        } else {
            total_all
        },
        None => total_all,
    };
    let denom = if d < 1 {
        1
    } else {
        d
    };
    let capped = if file_done <= denom {
        file_done
    } else {
        denom
    };
    let current = done_base.saturating_add(capped);
    let share = (current * 90) / denom;
    let byte = share as u8;
    assert(byte as int == share % 256) by (bit_vector)
        requires
            byte == share as u8,
    ;
    let p = 5 + byte;
    if p > 95 {
        95
    } else {
        p
    }
}

/// Progress while the first bytes are awaited: a slow pulse from 3 to 12
/// over two minutes.
pub open spec fn spec_connecting_percent(elapsed_secs: u64) -> u8 {
    let secs = min_u64(elapsed_secs, 120);
    (3 + secs * 9 / 120) as u8
}

pub fn connecting_percent(elapsed_secs: u64) -> (p: u8)
    ensures
        p == spec_connecting_percent(elapsed_secs),
        3 <= p <= 12,
{
    let secs = if elapsed_secs <= 120 {
        elapsed_secs
    } else {
        120
    };
    assert(secs * 9 / 120 <= 9) by (nonlinear_arith)
        requires
            secs <= 120,
    ;
    let p = 3 + ((secs * 9) / 120) as u8;
    if p > 12 {
        12
    } else {
        p
    }
}

/// The file names a partial download uses beside its target: `<name>.part`
/// for the bytes and `<name>.part.meta.json` for the resume record.
pub fn part_file_names(file_name: Option<&str>) -> (r: (String, String))
    ensures
        r.0@ == (match file_name {
            Some(n) => n@,
            None => "file"@,
        }) + ".part"@,
        r.1@ == (match file_name {
            Some(n) => n@,
            None => "file"@,
        }) + ".part.meta.json"@,
{
    let name = match file_name {
        Some(n) => n,
        None => "file",
    };
    let mut part = String::from_str(name);
    part.append(".part");
    let mut meta = String::from_str(name);
    meta.append(".part.meta.json");
    (part, meta)
}

/// The resume record kept beside a partial download.
pub struct PartMeta {
    pub url: String,
    pub total: Option<u64>,
    pub downloaded: u64,
}

pub open spec fn meta_for_url(meta: Option<PartMeta>, url: Seq<char>) -> bool {
    meta matches Some(m) && m.url@ == url
}

fn meta_for_url_exec(meta: &Option<PartMeta>, url: &str) -> (r: bool)
    ensures
        r == meta_for_url(*meta, url@),
{
    match meta {
        Some(m) => crate::text::str_eq(m.url.as_str(), url),
        None => false,
    }
}

/// A partial download is discarded before fetching `url` when it exists and
/// its resume record (if readable) is for another URL.
pub fn should_reset_part(part_exists: bool, meta: &Option<PartMeta>, url: &str) -> (r: bool)
    ensures
        r == (part_exists && !meta_for_url(*meta, url@)),
{
    part_exists && !meta_for_url_exec(meta, url)
}

/// Where a transfer resumes: the recorded byte count when the record is for
/// this URL, else (or when that count is 0) the partial file's length;
/// nothing without a partial file.
pub fn resume_offset(part_exists: bool, meta: &Option<PartMeta>, url: &str, part_len: u64) -> (r:
    u64)
    ensures
        r == (if !part_exists {
            0
        } else {
            let recorded = if meta_for_url(*meta, url@) {
                meta->0.downloaded
            } else {
                0
            };
            if recorded == 0 {
                part_len
            } else {
                recorded
            }
        }),
{
    if !part_exists {
        return 0;
    }
    let mut r: u64 = 0;
    if meta_for_url_exec(meta, url) {
        match meta {
            Some(m) => {
                r = m.downloaded;
            },
            None => {},
        }
    }
    if r == 0 {
        part_len
    } else {
        r
    }
}

/// What to do with the server's answer to a (possibly ranged) request.
pub enum ResponsePlan {
    /// The partial file already holds everything (416 on a range request).
    AlreadyComplete,
    /// The request failed.
    Fail(String),
    /// The server ignored the range: start again from byte 0.
    Restart,
    /// Write the body from the current offset.
    Proceed,
}

pub open spec fn response_planned(resume_from: u64, status: u16, status_text: Seq<char>, r: ResponsePlan) -> bool {
    if !(200 <= status < 300) {
        if resume_from > 0 && status == 416 {
            r is AlreadyComplete
        } else {
            r matches ResponsePlan::Fail(msg) && msg@ == "HTTP "@ + status_text
        }
    } else if resume_from > 0 && status == 200 {
        r is Restart
    } else {
        r is Proceed
    }
}

/// Reads the response status; `status_text` is the status as displayed
/// (code and reason).
pub fn response_plan(resume_from: u64, status: u16, status_text: &str) -> (r: ResponsePlan)
    ensures
        response_planned(resume_from, status, status_text@, r),
{
    if !(200 <= status && status < 300) {
        if resume_from > 0 && status == 416 {
            return ResponsePlan::AlreadyComplete;
        }
        let mut msg = String::from_str("HTTP ");
        msg.append(status_text);
        return ResponsePlan::Fail(msg);
    }
    if resume_from > 0 && status == 200 {
        ResponsePlan::Restart
    } else {
        ResponsePlan::Proceed
    }
}

/// The total size named by a `Content-Range` value: the second `/`-separated field.
pub open spec fn content_range_total(s: Seq<char>) -> Option<u64> {
    let a = find_char(s, 0, s.len() as int, '/');
    if a >= s.len() {
        None
    } else {
        parse_u64_in(s, a + 1, find_char(s, a + 1, s.len() as int, '/'))
    }
}

pub fn parse_content_range_total(value: &str) -> (r: Option<u64>)
    ensures
        r == content_range_total(value@),
{
    let s = chars_of(value);
    let a = find_char_exec(&s, 0, s.len(), '/');
    if a >= s.len() {
        return None;
    }
    let b = find_char_exec(&s, a + 1, s.len(), '/');
    parse_u64_in_exec(&s, a + 1, b)
}

/// The size of the complete file: the body length plus the offset, else the
/// catalog's size, else the total from `Content-Range`.
pub fn expected_total(
    content_length: Option<u64>,
    resume_from: u64,
    known_total: Option<u64>,
    content_range: Option<&str>,
) -> (r: Option<u64>)
    requires
        content_length matches Some(n) ==> n + resume_from <= u64::MAX,
    ensures
        r == (match content_length {
            Some(n) => Some((n + resume_from) as u64),
            None => match known_total {
                Some(t) => Some(t),
                None => match content_range {
                    Some(v) => content_range_total(v@),
                    None => None,
                },
            },
        }),
{
    match content_length {
        Some(n) => Some(n + resume_from),
        None => match known_total {
            Some(t) => Some(t),
            None => match content_range {
                Some(v) => parse_content_range_total(v),
                None => None,
            },
        },
    }
}

pub open spec fn byte_counts(downloaded: u64, expected: u64) -> Seq<char> {
    "("@ + decimal(downloaded as nat) + "/"@ + decimal(expected as nat) + " bytes)"@
}

fn byte_counts_exec(downloaded: u64, expected: u64) -> (s: String)
    ensures
        s@ == byte_counts(downloaded, expected),
{
    let mut s = String::from_str("(");
    let d = decimal_string(downloaded);
    s.append(d.as_str());
    s.append("/");
    let e = decimal_string(expected);
    s.append(e.as_str());
    s.append(" bytes)");
    s
}

/// A transfer is complete when it reached the catalog's size (if known).
pub fn check_download_complete(downloaded: u64, known_total: Option<u64>) -> (r: Result<(), String>)
    ensures
        r is Err <==> (known_total matches Some(e) && downloaded < e),
        r matches Err(msg) ==> msg@ == "下载不完整 "@ + byte_counts(downloaded, known_total->0),
{
    if let Some(expected) = known_total {
        if downloaded < expected {
            let mut msg = String::from_str("下载不完整 ");
            let counts = byte_counts_exec(downloaded, expected);
            msg.append(counts.as_str());
            return Err(msg);
        }
    }
    Ok(())
}

/// A `curl` transfer is complete when it is within 1 KiB of the catalog's size (if known).
pub fn check_curl_download_complete(downloaded: u64, known_total: Option<u64>) -> (r: Result<
    (),
    String,
>)
    requires
        downloaded + 1024 <= u64::MAX,
    ensures
        r is Err <==> (known_total matches Some(e) && downloaded + 1024 < e),
        r matches Err(msg) ==> msg@ == "curl 下载不完整 "@ + byte_counts(
            downloaded,
            known_total->0,
        ),
{
    if let Some(expected) = known_total {
        if downloaded + 1024 < expected {
            let mut msg = String::from_str("curl 下载不完整 ");
            let counts = byte_counts_exec(downloaded, expected);
            msg.append(counts.as_str());
            return Err(msg);
        }
    }
    Ok(())
}

} // verus!

verus! {

/// The percentage always lies between 5 and 95.
pub proof fn file_percent_in_range(done_base: u64, total_all: u64, file_done: u64, file_total: Option<u64>)
    ensures
        5 <= spec_file_percent(done_base, total_all, file_done, file_total) <= 95,
{
}

/// While the bytes counted stay within the denominator, the percentage is
/// `5 + 90 * current / denominator` exactly, and it never goes down as more
/// of the file arrives.
pub proof fn file_percent_tracks_progress(
    done_base: u64,
    total_all: u64,
    d1: u64,
    d2: u64,
    file_total: Option<u64>,
)
    requires
        d1 <= d2,
        done_base + d2 <= percent_denominator(total_all, file_total),
    ensures
        spec_file_percent(done_base, total_all, d1, file_total) == 5 + percent_share(
            done_base,
            total_all,
            d1,
            file_total,
        ),
        spec_file_percent(done_base, total_all, d1, file_total) <= spec_file_percent(
            done_base,
            total_all,
            d2,
            file_total,
        ),
{
    let denom = percent_denominator(total_all, file_total) as int;
    let c1 = percent_current(done_base, total_all, d1, file_total);
    let c2 = percent_current(done_base, total_all, d2, file_total);
    assert(c1 == done_base + d1);
    assert(c2 == done_base + d2);
    assert(c1 * 90 / denom <= 90) by (nonlinear_arith)
        requires
            0 <= c1 <= denom,
            denom >= 1,
    ;
    assert(c2 * 90 / denom <= 90) by (nonlinear_arith)
        requires
            0 <= c2 <= denom,
            denom >= 1,
    ;
    assert(c1 * 90 / denom <= c2 * 90 / denom) by (nonlinear_arith)
        requires
            0 <= c1 <= c2,
            denom >= 1,
    ;
    assert(c1 * 90 / denom >= 0) by (nonlinear_arith)
        requires
            0 <= c1,
            denom >= 1,
    ;
}

/// The connecting pulse never goes down as time passes.
pub proof fn connecting_percent_monotone(e1: u64, e2: u64)
    requires
        e1 <= e2,
    ensures
        spec_connecting_percent(e1) <= spec_connecting_percent(e2),
{
    let s1 = min_u64(e1, 120);
    let s2 = min_u64(e2, 120);
    assert(s1 * 9 / 120 <= s2 * 9 / 120) by (nonlinear_arith)
        requires
            0 <= s1 <= s2,
    ;
    assert(s2 * 9 / 120 <= 9) by (nonlinear_arith)
        requires
            0 <= s2 <= 120,
    ;
}

/// Large downloads on Windows go through `curl.exe`.
pub fn prefer_curl(target_is_windows: bool, known_total: Option<u64>) -> (b: bool)
    ensures
        b == (target_is_windows && (known_total matches Some(t) && t >= CURL_MIN_BYTES)),
{
    let total = match known_total {
        Some(t) => t,
        None => 0,
    };
    target_is_windows && total >= CURL_MIN_BYTES
}

/// One try at fetching one of the candidate URLs.
#[derive(Debug, Clone, Copy, PartialEq, Eq, Structural)]
pub struct DownloadAttempt {
    pub url_index: usize,
    pub via_curl: bool,
    /// 0 for the first try of this URL over HTTP, 1 for the retry.
    pub retry: u32,
}

/// The tries made, in order, until one succeeds: with `curl`, one per URL
/// (a failed `curl` moves on to the next URL); otherwise two HTTP tries per URL.
pub open spec fn attempt_order(url_count: nat, via_curl: bool) -> Seq<DownloadAttempt> {
    if via_curl {
        Seq::new(url_count, |i: int| DownloadAttempt { url_index: i as usize, via_curl: true, retry: 0 })
    } else {
        Seq::new(
            url_count * 2,
            |k: int| DownloadAttempt { url_index: (k / 2) as usize, via_curl: false, retry: (k % 2) as u32 },
        )
    }
}

pub open spec fn no_urls_message() -> Seq<char> {
    "模型配置缺少下载地址"@
}

/// The download tries for `url_count` candidate URLs; an error when there are none.
pub fn download_attempts(url_count: usize, via_curl: bool) -> (r: Result<Vec<DownloadAttempt>, String>)
    requires
        url_count * 2 <= usize::MAX,
    ensures
        url_count == 0 ==> (r matches Err(msg) && msg@ == no_urls_message()),
        url_count > 0 ==> (r matches Ok(v) && v@ == attempt_order(url_count as nat, via_curl)),
{
    if url_count == 0 {
        return Err(String::from_str("模型配置缺少下载地址"));
    }
    let mut v: Vec<DownloadAttempt> = Vec::new();
    let mut i: usize = 0;
    while i < url_count
        invariant
            i <= url_count,
            url_count * 2 <= usize::MAX,
            via_curl ==> v@ == attempt_order(i as nat, true),
            !via_curl ==> v@ == attempt_order(i as nat, false),
        decreases url_count - i,
    {
        if via_curl {
            v.push(DownloadAttempt { url_index: i, via_curl: true, retry: 0 });
            assert(v@ =~= attempt_order((i + 1) as nat, true));
        } else {
            v.push(DownloadAttempt { url_index: i, via_curl: false, retry: 0 });
            v.push(DownloadAttempt { url_index: i, via_curl: false, retry: 1 });
            assert forall|k: int| 0 <= k < (i + 1) * 2 implies #[trigger] v@[k] == attempt_order(
                (i + 1) as nat,
                false,
            )[k] by {
                if k < i * 2 {
                    assert(v@[k] == attempt_order(i as nat, false)[k]);
                } else if k == i * 2 {
                    assert(k / 2 == i && k % 2 == 0) by (nonlinear_arith)
                        requires
                            k == i * 2,
                    ;
                } else {
                    assert(k / 2 == i && k % 2 == 1) by (nonlinear_arith)
                        requires
                            k == i * 2 + 1,
                    ;
                }
            }
            assert(v@ =~= attempt_order((i + 1) as nat, false));
        }
        i = i + 1;
    }
    Ok(v)
}

/// After a failed HTTP try, the partial file is discarded when the error
/// was a stall, a connection failure or an HTTP status.
pub fn http_failure_clears_part(err: &str) -> (b: bool)
    ensures
        b == (contains(err@, "停滞"@) || contains(err@, "连接"@) || contains(err@, "HTTP"@)),
{
    str_contains(err, "停滞") || str_contains(err, "连接") || str_contains(err, "HTTP")
}

/// The error once every try failed: the last one's, else a generic one.
pub fn final_download_error(last_err: Option<String>) -> (msg: String)
    ensures
        msg@ == (match last_err {
            Some(e) => e@,
            None => "所有下载源均失败，请检查网络或稍后重试"@,
        }),
{
    match last_err {
        Some(e) => e,
        None => String::from_str("所有下载源均失败，请检查网络或稍后重试"),
    }
}

pub open spec fn sizes_sum(files: Seq<ModelScopeFileSpec>) -> nat
    decreases files.len(),
{
    if files.len() == 0 {
        0
    } else {
        sizes_sum(files.drop_last()) + match files.last().size {
            Some(s) => s as nat,
            None => 0,
        }
    }
}

/// `s` without its trailing `/` characters.
pub open spec fn without_trailing_slashes(s: Seq<char>) -> Seq<char>
    decreases s.len(),
{
    if s.len() > 0 && s.last() == '/' {
        without_trailing_slashes(s.drop_last())
    } else {
        s
    }
}

/// The downloads a ModelScope model needs.
pub struct ModelScopePlan {
    /// The sum of the sizes the catalog gives (files without one count 0).
    pub total_size: u64,
    /// `<base>/<file name>` for each file, in catalog order.
    pub urls: Vec<String>,
}

pub open spec fn quoted_name(name: Seq<char>, rest: Seq<char>) -> Seq<char> {
    "「"@ + name + rest
}

pub open spec fn modelscope_planned(entry: ModelCatalogEntry, r: Result<ModelScopePlan, String>) -> bool {
    let d = entry.download;
    match d.modelscope_resolve_base {
        None => r matches Err(msg) && msg@ == quoted_name(entry.name@, "」缺少 ModelScope 配置"@),
        Some(base) => if d.modelscope_files@.len() == 0 {
            r matches Err(msg) && msg@ == quoted_name(entry.name@, "」未配置 ModelScope 文件列表"@)
        } else {
            &&& r matches Ok(p)
            &&& p.total_size == sizes_sum(d.modelscope_files@)
            &&& p.urls@.len() == d.modelscope_files@.len()
            &&& forall|i: int|
                0 <= i < p.urls@.len() ==> #[trigger] p.urls@[i]@ == without_trailing_slashes(
                    base@,
                ) + "/"@ + d.modelscope_files@[i].name@
        },
    }
}

fn without_trailing_slashes_exec(s: &str) -> (r: String)
    ensures
        r@ == without_trailing_slashes(s@),
{
    let v = chars_of(s);
    let mut n = v.len();
    assert(s@.take(n as int) =~= s@);
    while n > 0 && v[n - 1] == '/'
        invariant
            n <= v.len(),
            v@ == s@,
            without_trailing_slashes(s@) == without_trailing_slashes(s@.take(n as int)),
        decreases n,
    {
        assert(s@.take(n as int).drop_last() =~= s@.take(n - 1));
        n = n - 1;
    }
    assert(s@.take(n as int) =~= s@.subrange(0, n as int));
    s.substring_char(0, n).to_owned()
}

/// The URLs and the total size of a ModelScope download.
pub fn modelscope_plan(entry: &ModelCatalogEntry) -> (r: Result<ModelScopePlan, String>)
    requires
        sizes_sum(entry.download.modelscope_files@) <= u64::MAX,
    ensures
        modelscope_planned(*entry, r),
{
    let base = match &entry.download.modelscope_resolve_base {
        Some(b) => without_trailing_slashes_exec(b.as_str()),
        None => {
            let mut msg = String::from_str("「");
            msg.append(entry.name.as_str());
            msg.append("」缺少 ModelScope 配置");
            return Err(msg);
        },
    };
    let files = &entry.download.modelscope_files;
    if files.len() == 0 {
        let mut msg = String::from_str("「");
        msg.append(entry.name.as_str());
        msg.append("」未配置 ModelScope 文件列表");
        return Err(msg);
    }
    let mut total: u64 = 0;
    let mut urls: Vec<String> = Vec::new();
    let mut i: usize = 0;
    while i < files.len()
        invariant
            i <= files.len(),
            files@ == entry.download.modelscope_files@,
            sizes_sum(files@) <= u64::MAX,
            entry.download.modelscope_resolve_base matches Some(b) && base@
                == without_trailing_slashes(b@),
            total == sizes_sum(files@.take(i as int)),
            urls@.len() == i,
            forall|k: int|
                0 <= k < i ==> #[trigger] urls@[k]@ == base@ + "/"@ + files@[k].name@,
        decreases files.len() - i,
    {
        assert(files@.take(i + 1).drop_last() =~= files@.take(i as int));
        proof {
            lemma_sizes_sum_prefix(files@, i + 1);
        }
        let add = match files[i].size {
            Some(s) => s,
            None => 0,
        };
        total = total + add;
        let mut url = String::from_str(base.as_str());
        url.append("/");
        url.append(files[i].name.as_str());
        urls.push(url);
        i = i + 1;
    }
    assert(files@.take(files@.len() as int) =~= files@);
    Ok(ModelScopePlan { total_size: total, urls })
}

/// The sizes of a prefix never add up to more than those of the whole list.
pub proof fn lemma_sizes_sum_prefix(files: Seq<ModelScopeFileSpec>, n: int)
    requires
        0 <= n <= files.len(),
    ensures
        sizes_sum(files.take(n)) <= sizes_sum(files),
    decreases files.len() - n,
{
    if n < files.len() {
        lemma_sizes_sum_prefix(files, n + 1);
        assert(files.take(n + 1).drop_last() =~= files.take(n));
    } else {
        assert(files.take(n) =~= files);
    }
}

/// After one ModelScope file: the bytes counted as done (its catalog size, or
/// the bytes written when it has none); an optional file that failed is
/// skipped; a required one fails the download.
pub fn modelscope_file_done(done: u64, spec: &ModelScopeFileSpec, outcome: Result<u64, String>) -> (r:
    Result<u64, String>)
    requires
        outcome matches Ok(bytes) ==> done + (match spec.size {
            Some(s) => s,
            None => bytes,
        }) <= u64::MAX,
    ensures
        outcome matches Ok(bytes) ==> r == Ok::<u64, String>(
            (done + match spec.size {
                Some(s) => s,
                None => bytes,
            }) as u64,
        ),
        outcome matches Err(e) ==> if spec.required {
            r matches Err(msg) && msg@ == "下载 "@ + spec.name@ + " 失败: "@ + e@
        } else {
            r == Ok::<u64, String>(done)
        },
{
    match outcome {
        Ok(bytes) => {
            let add = match spec.size {
                Some(s) => s,
                None => bytes,
            };
            Ok(done + add)
        },
        Err(e) => {
            if !spec.required {
                return Ok(done);
            }
            let mut msg = String::from_str("下载 ");
            msg.append(spec.name.as_str());
            msg.append(" 失败: ");
            msg.append(e.as_str());
            Err(msg)
        },
    }
}

/// How a model is fetched.
#[derive(Debug, Clone, Copy, PartialEq, Eq, Structural)]
pub enum DownloadKind {
    /// File by file from ModelScope.
    ModelScope,
    /// One `.tar.bz2` archive.
    Archive,
    /// One `.zip` archive.
    Zip,
}

pub fn download_kind(d: &ModelDownloadSpec) -> (k: DownloadKind)
    ensures
        k == (if d.spec_is_modelscope() {
            DownloadKind::ModelScope
        } else if d.spec_is_archive() {
            DownloadKind::Archive
        } else {
            DownloadKind::Zip
        }),
{
    if d.is_modelscope() {
        DownloadKind::ModelScope
    } else if d.is_archive() {
        DownloadKind::Archive
    } else {
        DownloadKind::Zip
    }
}

/// The archive file an archive download is saved as, in the models directory.
pub fn archive_file_name(kind: DownloadKind, model_id: &str) -> (r: String)
    ensures
        r@ == model_id@ + (if kind == DownloadKind::Archive {
            ".tar.bz2"@
        } else {
            ".zip"@
        }),
{
    let mut r = String::from_str(model_id);
    if kind == DownloadKind::Archive {
        r.append(".tar.bz2");
    } else {
        r.append(".zip");
    }
    r
}

/// The directory a download is unpacked into before it replaces the installed model.
pub fn staging_dir_name(layout: &str) -> (r: String)
    ensures
        r@ == ".staging-"@ + layout@,
{
    let mut r = String::from_str(".staging-");
    r.append(layout);
    r
}

/// A download may only start for a supported model.
pub fn check_download_supported(entry: &ModelCatalogEntry) -> (r: Result<(), String>)
    ensures
        r is Ok <==> entry.supported,
        r matches Err(msg) ==> msg@ == quoted_name(entry.name@, "」尚未支持"@),
{
    if !entry.supported {
        let mut msg = String::from_str("「");
        msg.append(entry.name.as_str());
        msg.append("」尚未支持");
        return Err(msg);
    }
    Ok(())
}

/// After unpacking: the download is kept only when its files are complete in the staging directory.
pub fn check_staged_model(s: &ModelsDirSnapshot, staging_dir: &str, entry: &ModelCatalogEntry) -> (r:
    Result<(), String>)
    ensures
        r is Ok <==> crate::settings::model_installed_at(*s, staging_dir@, *entry),
        r matches Err(msg) ==> msg@ == "模型文件不完整，请重试下载"@,
{
    if !crate::settings::is_model_installed_at(s, staging_dir, entry) {
        return Err(String::from_str("模型文件不完整，请重试下载"));
    }
    Ok(())
}

/// After moving into place: the model must be complete in its own directory;
/// then it becomes the active model.
pub fn finish_model_install(
    s: &ModelsDirSnapshot,
    entry: &ModelCatalogEntry,
    settings: &mut AppSettings,
) -> (r: Result<(), String>)
    ensures
        r is Ok <==> model_installed(*s, *entry),
        r matches Err(msg) ==> msg@ == "模型安装校验失败，请重试下载"@ && *final(settings) == *old(
            settings,
        ),
        r is Ok ==> opt_view(final(settings).active_model_id) == Some(entry.id@)
            && final(settings).hotkey == old(settings).hotkey && final(settings).hotkey_mode == old(
            settings,
        ).hotkey_mode && final(settings).runtime_ws_port == old(settings).runtime_ws_port
            && final(settings).api_port == old(settings).api_port
            && final(settings).strip_trailing_punctuation == old(
            settings,
        ).strip_trailing_punctuation && final(settings).use_gpu == old(settings).use_gpu,
{
    if !is_model_installed(entry, s) {
        return Err(String::from_str("模型安装校验失败，请重试下载"));
    }
    settings.active_model_id = Some(entry.id.clone());
    Ok(())
}

} // verus!

verus! {

pub open spec fn activation(
    models: Seq<ModelCatalogEntry>,
    model_id: Seq<char>,
    s: ModelsDirSnapshot,
    settings0: AppSettings,
    settings1: AppSettings,
    r: Result<(), String>,
) -> bool {
    if !has_entry_with_id(models, model_id) {
        r matches Err(msg) && msg@ == unknown_model_message(model_id) && settings1 == settings0
    } else {
        let e = models[choose|i: int| first_entry_with_id(models, model_id, i)];
        if !e.supported {
            r matches Err(msg) && msg@ == quoted_name(e.name@, "」尚未支持，无法切换"@)
                && settings1 == settings0
        } else if !model_installed(s, e) {
            r matches Err(msg) && msg@ == "请先下载「"@ + e.name@ + "」"@ && settings1 == settings0
        } else {
            &&& r is Ok
            &&& opt_view(settings1.active_model_id) == Some(model_id)
            &&& settings1.hotkey == settings0.hotkey
            &&& settings1.hotkey_mode == settings0.hotkey_mode
            &&& settings1.runtime_ws_port == settings0.runtime_ws_port
            &&& settings1.api_port == settings0.api_port
            &&& settings1.strip_trailing_punctuation == settings0.strip_trailing_punctuation
            &&& settings1.use_gpu == settings0.use_gpu
        }
    }
}

/// Makes `model_id` the active model, provided the catalog knows it, it is
/// supported and its files are installed.
pub fn activate_model(
    catalog: &ModelsCatalog,
    model_id: &str,
    s: &ModelsDirSnapshot,
    settings: &mut AppSettings,
) -> (r: Result<(), String>)
    ensures
        activation(catalog.models@, model_id@, *s, *old(settings), *final(settings), r),
{
    let entry = match find_catalog_entry(catalog, model_id) {
        Ok(e) => e,
        Err(msg) => {
            return Err(msg);
        },
    };
    proof {
        let i = choose|i: int| first_entry_with_id(catalog.models@, model_id@, i) && *entry
            == catalog.models@[i];
        let j = choose|j: int| first_entry_with_id(catalog.models@, model_id@, j);
        assert(i == j) by {
            if i < j {
                assert(catalog.models@[i].id@ == model_id@);
            } else if j < i {
                assert(catalog.models@[j].id@ == model_id@);
            }
        }
    }
    if !entry.supported {
        let mut msg = String::from_str("「");
        msg.append(entry.name.as_str());
        msg.append("」尚未支持，无法切换");
        return Err(msg);
    }
    if !is_model_installed(entry, s) {
        let mut msg = String::from_str("请先下载「");
        msg.append(entry.name.as_str());
        msg.append("」");
        return Err(msg);
    }
    settings.active_model_id = Some(model_id.to_owned());
    Ok(())
}

/// The directory an archive unpacks to: when it holds exactly one entry and
/// that is a directory, the contents of that directory are the model;
/// otherwise the unpacked tree itself is.
pub fn single_top_level_dir(children_are_dirs: &Vec<bool>) -> (r: Option<usize>)
    ensures
        r == (if children_are_dirs@.len() == 1 && children_are_dirs@[0] {
            Some(0usize)
        } else {
            None::<usize>
        }),
{
    if children_are_dirs.len() == 1 && children_are_dirs[0] {
        Some(0)
    } else {
        None
    }
}

/// A zip entry's path inside the extraction directory: its name without leading `/`.
pub fn zip_entry_relative_name(name: &str) -> (r: String)
    ensures
        r@ == name@.skip(skip_char_forward(name@, 0, name@.len() as int, '/')),
{
    let v = chars_of(name);
    let a = skip_char_forward_exec(&v, 0, v.len(), '/');
    assert(name@.skip(a as int) =~= name@.subrange(a as int, name@.len() as int));
    name.substring_char(a, v.len()).to_owned()
}

} // verus!

verus! {

pub const MIB: u64 = 1048576;

pub open spec fn spec_attempt_message(url_index: usize, url_count: usize, retry: u32) -> Seq<char> {
    (if retry == 0 {
        "尝试下载源 "@
    } else {
        "重试下载源 "@
    }) + decimal((url_index + 1) as nat) + "/"@ + decimal(url_count as nat) + "…"@
}

/// The progress text shown before a try: the first try of a URL, or its retry.
pub fn attempt_message(url_index: usize, url_count: usize, retry: u32) -> (s: String)
    requires
        url_index < url_count,
    ensures
        s@ == spec_attempt_message(url_index, url_count, retry),
{
    let mut s = if retry == 0 {
        String::from_str("尝试下载源 ")
    } else {
        String::from_str("重试下载源 ")
    };
    let i = decimal_string((url_index + 1) as u64);
    s.append(i.as_str());
    s.append("/");
    let n = decimal_string(url_count as u64);
    s.append(n.as_str());
    s.append("…");
    s
}

pub open spec fn spec_size_progress_message(label: Seq<char>, downloaded: u64, total: Option<u64>) -> Seq<char> {
    label + "… "@ + decimal((downloaded / MIB) as nat) + match total {
        Some(t) => " / "@ + decimal((t / MIB) as nat) + " MB"@,
        None => " MB"@,
    }
}

/// The progress text of a transfer: whole mebibytes done, and of the total when known.
pub fn size_progress_message(label: &str, downloaded: u64, total: Option<u64>) -> (s: String)
    ensures
        s@ == spec_size_progress_message(label@, downloaded, total),
{
    let mut s = String::from_str(label);
    s.append("… ");
    let d = decimal_string(downloaded / MIB);
    s.append(d.as_str());
    match total {
        Some(t) => {
            s.append(" / ");
            let m = decimal_string(t / MIB);
            s.append(m.as_str());
            s.append(" MB");
        },
        None => {
            s.append(" MB");
        },
    }
    s
}

pub open spec fn spec_curl_progress_message(
    label: Seq<char>,
    downloaded: u64,
    last_downloaded: u64,
    total: Option<u64>,
    elapsed_secs: u64,
) -> Seq<char> {
    if downloaded == 0 {
        label + "… 连接中 ("@ + decimal(elapsed_secs as nat) + "s)"@
    } else if downloaded == last_downloaded {
        spec_size_progress_message(label, downloaded, total) + " · 等待数据"@
    } else {
        spec_size_progress_message(label, downloaded, total)
    }
}

/// The progress text of a `curl` transfer, polled every half second: still
/// connecting, waiting for data (nothing new since the last poll), or its size.
pub fn curl_progress_message(
    label: &str,
    downloaded: u64,
    last_downloaded: u64,
    total: Option<u64>,
    elapsed_secs: u64,
) -> (s: String)
    ensures
        s@ == spec_curl_progress_message(label@, downloaded, last_downloaded, total, elapsed_secs),
{
    if downloaded == 0 {
        let mut s = String::from_str(label);
        s.append("… 连接中 (");
        let e = decimal_string(elapsed_secs);
        s.append(e.as_str());
        s.append("s)");
        s
    } else {
        let mut s = size_progress_message(label, downloaded, total);
        if downloaded == last_downloaded {
            s.append(" · 等待数据");
        }
        s
    }
}

} // verus!

verus! {

/// Every candidate URL is tried, in order: with `curl` exactly once each;
/// over HTTP exactly twice each, a first try then a retry.
pub proof fn every_url_is_tried(url_count: nat)
    ensures
        attempt_order(url_count, true).len() == url_count,
        forall|i: int|
            0 <= i < url_count ==> #[trigger] attempt_order(url_count, true)[i] == (DownloadAttempt {
                url_index: i as usize,
                via_curl: true,
                retry: 0,
            }),
        attempt_order(url_count, false).len() == 2 * url_count,
        forall|i: int|
            0 <= i < url_count ==> #[trigger] attempt_order(url_count, false)[2 * i]
                == (DownloadAttempt { url_index: i as usize, via_curl: false, retry: 0 }),
        forall|i: int|
            0 <= i < url_count ==> #[trigger] attempt_order(url_count, false)[2 * i + 1]
                == (DownloadAttempt { url_index: i as usize, via_curl: false, retry: 1 }),
{
    assert forall|i: int| 0 <= i < url_count implies #[trigger] attempt_order(url_count, false)[2
        * i] == (DownloadAttempt { url_index: i as usize, via_curl: false, retry: 0 }) by {
        assert((2 * i) / 2 == i && (2 * i) % 2 == 0) by (nonlinear_arith);
    }
    assert forall|i: int| 0 <= i < url_count implies #[trigger] attempt_order(url_count, false)[2
        * i + 1] == (DownloadAttempt { url_index: i as usize, via_curl: false, retry: 1 }) by {
        assert((2 * i + 1) / 2 == i && (2 * i + 1) % 2 == 1) by (nonlinear_arith);
    }
}

/// A partial file is taken as complete only on `416` to a ranged request;
/// any other status outside `2xx` fails with `HTTP` and the status, whatever
/// the offset; a `2xx` answer never fails.
pub proof fn response_statuses_read_right(resume_from: u64, status: u16, status_text: Seq<char>, r: ResponsePlan)
    requires
        response_planned(resume_from, status, status_text, r),
    ensures
        (r is AlreadyComplete) ==> resume_from > 0 && status == 416,
        !(200 <= status < 300) && status != 416 ==> (r matches ResponsePlan::Fail(msg) && msg@
            == "HTTP "@ + status_text),
        !(200 <= status < 300) && resume_from == 0 ==> (r matches ResponsePlan::Fail(msg) && msg@
            == "HTTP "@ + status_text),
        200 <= status < 300 ==> !(r is Fail) && !(r is AlreadyComplete),
        (r is Restart) ==> resume_from > 0 && status == 200,
        status == 206 ==> (r is Proceed),
        resume_from > 0 && status == 416 ==> (r is AlreadyComplete),
        resume_from > 0 && status == 200 ==> (r is Restart),
        200 <= status < 300 && (resume_from == 0 || status != 200) ==> (r is Proceed),
{
}

} // verus!
