//! Application settings, the model catalog, and where things live on disk.
use vstd::prelude::*;
use crate::paths::{join_path, joined_path, PathProbe};
use crate::text::{eq_ignore_ascii_case, str_eq_ignore_ascii_case, trim, trimmed};
use vstd::string::StringExecFns;

verus! {

pub const DEFAULT_WS_PORT: u16 = 6016;

pub const DEFAULT_API_PORT: u16 = 6020;

pub const DEFAULT_HOTKEY: &'static str = "F9";

pub const DEFAULT_HOTKEY_MODE: &'static str = "hold";

pub const WS_SUBPROTOCOL: &'static str = "voxtype-voice-v1";

/// User settings, persisted as JSON in the data directory.
pub struct AppSettings {
    pub hotkey: String,
    /// "hold" = press to talk, release to stop; "toggle" = press start, press again stop
    pub hotkey_mode: String,
    pub active_model_id: Option<String>,
    pub runtime_ws_port: u16,
    pub api_port: u16,
    pub strip_trailing_punctuation: bool,
    /// When true, runtime uses the platform GPU provider (CUDA/CoreML) with CPU fallback.
    pub use_gpu: bool,
}

pub open spec fn opt_view(o: Option<String>) -> Option<Seq<char>> {
    match o {
        Some(s) => Some(s@),
        None => None,
    }
}

impl AppSettings {
    /// The settings a fresh installation starts with.
    pub open spec fn is_default(self) -> bool {
        &&& self.hotkey@ == "F9"@
        &&& self.hotkey_mode@ == "hold"@
        &&& opt_view(self.active_model_id) == Some("sensevoice-int8"@)
        &&& self.runtime_ws_port == DEFAULT_WS_PORT
        &&& self.api_port == DEFAULT_API_PORT
        &&& self.strip_trailing_punctuation
        &&& self.use_gpu
    }
}

impl Default for AppSettings {
    fn default() -> (s: Self)
        ensures
            s.is_default(),
    {
        AppSettings {
            hotkey: String::from_str(DEFAULT_HOTKEY),
            hotkey_mode: String::from_str(DEFAULT_HOTKEY_MODE),
            active_model_id: Some(String::from_str("sensevoice-int8")),
            runtime_ws_port: DEFAULT_WS_PORT,
            api_port: DEFAULT_API_PORT,
            strip_trailing_punctuation: true,
            use_gpu: true,
        }
    }
}

/// The hotkey mode a settings file without one gets.
pub fn default_hotkey_mode() -> (s: String)
    ensures
        s@ == "hold"@,
{
    String::from_str(DEFAULT_HOTKEY_MODE)
}

/// The value of boolean fields that a settings or catalog file may leave out.
pub fn default_true() -> (b: bool)
    ensures
        b,
{
    true
}

/// The download source of a catalog entry that names none.
pub fn default_source_zip() -> (s: String)
    ensures
        s@ == "zip"@,
{
    String::from_str("zip")
}

/// ONNX execution provider when GPU acceleration is enabled (platform-specific):
/// CoreML on macOS; Windows and Linux use the CUDA wheels (with CPU fallback).
pub fn preferred_gpu_provider(target_is_macos: bool) -> (p: &'static str)
    ensures
        p@ == (if target_is_macos {
            "coreml"@
        } else {
            "cuda"@
        }),
{
    if target_is_macos {
        "coreml"
    } else {
        "cuda"
    }
}

/// The execution provider the runtime is started with.
pub fn resolve_runtime_provider(use_gpu: bool, target_is_macos: bool) -> (p: &'static str)
    ensures
        p@ == (if !use_gpu {
            "cpu"@
        } else if target_is_macos {
            "coreml"@
        } else {
            "cuda"@
        }),
{
    if use_gpu {
        preferred_gpu_provider(target_is_macos)
    } else {
        "cpu"
    }
}

/// The data directory: `custom` (the `VOXTYPE_DATA_ROOT` override) when it is
/// not blank, else `VoxType` under `local_app_data` (`LOCALAPPDATA`, or `.`).
pub fn data_root(custom: Option<&str>, local_app_data: Option<&str>) -> (r: String)
    ensures
        r@ == (match custom {
            Some(c) if trimmed(c@).len() > 0 => c@,
            _ => joined_path(
                match local_app_data {
                    Some(b) => b@,
                    None => "."@,
                },
                "VoxType"@,
            ),
        }),
{
    if let Some(c) = custom {
        let t = trim(c);
        if !t.as_str().is_empty() {
            return c.to_owned();
        }
    }
    let base = match local_app_data {
        Some(b) => b,
        None => ".",
    };
    join_path(base, "VoxType")
}

pub fn runtime_log_path(data_root: &str) -> (p: String)
    ensures
        p@ == joined_path(joined_path(data_root@, "logs"@), "runtime.log"@),
{
    let logs = join_path(data_root, "logs");
    join_path(logs.as_str(), "runtime.log")
}

pub fn settings_path(data_root: &str) -> (p: String)
    ensures
        p@ == joined_path(data_root@, "settings.json"@),
{
    join_path(data_root, "settings.json")
}

pub fn models_dir(data_root: &str) -> (p: String)
    ensures
        p@ == joined_path(data_root@, "models"@),
{
    join_path(data_root, "models")
}

/// The directory a model is installed in: its layout name under the models directory.
pub fn model_dir_for_id(data_root: &str, _model_id: &str, layout: &str) -> (p: String)
    ensures
        p@ == joined_path(joined_path(data_root@, "models"@), layout@),
{
    let models = models_dir(data_root);
    join_path(models.as_str(), layout)
}

pub fn model_layout_path(data_root: &str, layout: &str) -> (p: String)
    ensures
        p@ == joined_path(joined_path(data_root@, "models"@), layout@),
{
    let models = models_dir(data_root);
    join_path(models.as_str(), layout)
}

/// Installed layout: `<install-dir>/catalog/models.json`, bundled at build time.
pub fn bundled_catalog_path(install_dir: Option<&str>) -> (p: Option<String>)
    ensures
        opt_view(p) == (match install_dir {
            Some(d) => Some(joined_path(joined_path(d@, "catalog"@), "models.json"@)),
            None => None,
        }),
{
    match install_dir {
        Some(d) => {
            let c = join_path(d, "catalog");
            Some(join_path(c.as_str(), "models.json"))
        },
        None => None,
    }
}

/// The user's override of the catalog: `<data-root>/catalog/models.json`.
pub fn user_catalog_path(data_root: &str) -> (p: String)
    ensures
        p@ == joined_path(joined_path(data_root@, "catalog"@), "models.json"@),
{
    let c = join_path(data_root, "catalog");
    join_path(c.as_str(), "models.json")
}

/// The catalog staged next to the application crate during development.
pub fn staged_catalog_path(manifest_dir: &str) -> (p: String)
    ensures
        p@ == joined_path(
            joined_path(joined_path(manifest_dir@, "bundle-resources"@), "catalog"@),
            "models.json"@,
        ),
{
    let a = join_path(manifest_dir, "bundle-resources");
    let b = join_path(a.as_str(), "catalog");
    join_path(b.as_str(), "models.json")
}

/// The repository's canonical catalog, two levels above the application crate.
pub fn repo_catalog_path(manifest_dir: &str) -> (p: String)
    ensures
        p@ == joined_path(
            joined_path(joined_path(joined_path(manifest_dir@, ".."@), ".."@), "catalog"@),
            "models.json"@,
        ),
{
    let a = join_path(manifest_dir, "..");
    let b = join_path(a.as_str(), "..");
    let c = join_path(b.as_str(), "catalog");
    join_path(c.as_str(), "models.json")
}

/// Where a catalog may come from, with what the caller found on disk.
pub struct CatalogProbe {
    /// The `VOXTYPE_MODELS_CATALOG` override, when set.
    pub env_override: Option<String>,
    /// `user_catalog_path`, and whether anything exists there.
    pub user_catalog: String,
    pub user_catalog_exists: bool,
    /// `bundled_catalog_path`, when the install directory is known, and whether it is a file.
    pub bundled: Option<PathProbe>,
    /// `staged_catalog_path`, and whether it is a file.
    pub staged: PathProbe,
    /// `repo_catalog_path`.
    pub repo: String,
}

/// The catalog locations, in the order they are tried.
pub enum CatalogSource {
    Env,
    UserOverride,
    Bundled,
    DevStaged,
    DevRepo,
}

pub open spec fn catalog_choice(p: CatalogProbe) -> CatalogSource {
    if p.env_override is Some {
        CatalogSource::Env
    } else if p.user_catalog_exists {
        CatalogSource::UserOverride
    } else if p.bundled matches Some(b) && b.is_file {
        CatalogSource::Bundled
    } else if p.staged.is_file {
        CatalogSource::DevStaged
    } else {
        CatalogSource::DevRepo
    }
}

pub open spec fn catalog_location(p: CatalogProbe, c: CatalogSource) -> Seq<char> {
    match c {
        CatalogSource::Env => p.env_override->0@,
        CatalogSource::UserOverride => p.user_catalog@,
        CatalogSource::Bundled => p.bundled->0.path@,
        CatalogSource::DevStaged => p.staged.path@,
        CatalogSource::DevRepo => p.repo@,
    }
}

pub open spec fn catalog_label(c: CatalogSource) -> Seq<char> {
    match c {
        CatalogSource::Env => "env"@,
        CatalogSource::UserOverride => "user-override"@,
        CatalogSource::Bundled => "bundled"@,
        CatalogSource::DevStaged => "dev-staged"@,
        CatalogSource::DevRepo => "dev-repo"@,
    }
}

/// The catalog file to read: the first location that applies.
pub fn catalog_path(p: &CatalogProbe) -> (r: String)
    ensures
        r@ == catalog_location(*p, catalog_choice(*p)),
{
    if let Some(e) = &p.env_override {
        return e.clone();
    }
    if p.user_catalog_exists {
        return p.user_catalog.clone();
    }
    if let Some(b) = &p.bundled {
        if b.is_file {
            return b.path.clone();
        }
    }
    if p.staged.is_file {
        return p.staged.path.clone();
    }
    p.repo.clone()
}

/// A label for the location `catalog_path` picks.
pub fn catalog_source(p: &CatalogProbe) -> (r: &'static str)
    ensures
        r@ == catalog_label(catalog_choice(*p)),
{
    if p.env_override.is_some() {
        return "env";
    }
    if p.user_catalog_exists {
        return "user-override";
    }
    if let Some(b) = &p.bundled {
        if b.is_file {
            return "bundled";
        }
    }
    if p.staged.is_file {
        return "dev-staged";
    }
    "dev-repo"
}

} // verus!

verus! {

/// One file of a model published on ModelScope.
pub struct ModelScopeFileSpec {
    pub name: String,
    pub size: Option<u64>,
    pub sha256: Option<String>,
    pub required: bool,
}

/// How a model is fetched.
pub struct ModelDownloadSpec {
    pub source: String,
    pub url: Option<String>,
    pub mirror_url: Option<String>,
    pub fallback_urls: Vec<String>,
    pub modelscope_resolve_base: Option<String>,
    pub modelscope_files: Vec<ModelScopeFileSpec>,
    pub sha256: Option<String>,
    pub size_bytes: Option<u64>,
}

pub open spec fn string_views(v: Seq<String>) -> Seq<Seq<char>> {
    v.map_values(|s: String| s@)
}

pub open spec fn opt_seq(o: Option<String>) -> Seq<Seq<char>> {
    match o {
        Some(s) => seq![s@],
        None => Seq::empty(),
    }
}

/// `out` with `url` (trimmed) appended, unless it is blank or already there.
pub open spec fn push_unique_spec(out: Seq<Seq<char>>, url: Seq<char>) -> Seq<Seq<char>> {
    let t = trimmed(url);
    if t.len() == 0 || out.contains(t) {
        out
    } else {
        out.push(t)
    }
}

/// The distinct, trimmed, non-blank URLs among the first `n` of `srcs`, in
/// the order they first occur.
pub open spec fn unique_urls(srcs: Seq<Seq<char>>, n: int) -> Seq<Seq<char>>
    decreases n,
{
    if n <= 0 {
        Seq::empty()
    } else {
        push_unique_spec(unique_urls(srcs, n - 1), srcs[n - 1])
    }
}

impl ModelDownloadSpec {
    /// The URLs a download may come from, mirror first, before cleaning.
    pub open spec fn url_sources(self) -> Seq<Seq<char>> {
        opt_seq(self.mirror_url) + opt_seq(self.url) + string_views(self.fallback_urls@)
    }

    pub open spec fn candidate_urls(self) -> Seq<Seq<char>> {
        unique_urls(self.url_sources(), self.url_sources().len() as int)
    }

    pub open spec fn spec_is_modelscope(self) -> bool {
        eq_ignore_ascii_case(self.source@, "modelscope"@)
    }

    pub open spec fn spec_is_archive(self) -> bool {
        eq_ignore_ascii_case(self.source@, "archive"@) || eq_ignore_ascii_case(
            self.source@,
            "github"@,
        )
    }

    pub fn is_modelscope(&self) -> (b: bool)
        ensures
            b == self.spec_is_modelscope(),
    {
        str_eq_ignore_ascii_case(self.source.as_str(), "modelscope")
    }

    pub fn is_archive(&self) -> (b: bool)
        ensures
            b == self.spec_is_archive(),
    {
        str_eq_ignore_ascii_case(self.source.as_str(), "archive") || str_eq_ignore_ascii_case(
            self.source.as_str(),
            "github",
        )
    }

    /// The mirror, the primary URL and the fallbacks, trimmed, without blanks
    /// and without repeats, in that order.
    pub fn candidate_zip_urls(&self) -> (out: Vec<String>)
        ensures
            string_views(out@) == self.candidate_urls(),
    {
        let mut out: Vec<String> = Vec::new();
        let ghost srcs = self.url_sources();
        let ghost n_opt = opt_seq(self.mirror_url).len() + opt_seq(self.url).len();
        assert(string_views(out@) =~= unique_urls(srcs, 0));
        let mut n: usize = 0;
        if let Some(mirror) = &self.mirror_url {
            assert(srcs[0] == mirror@);
            push_unique(&mut out, mirror.as_str());
            n = 1;
        }
        assert(string_views(out@) == unique_urls(srcs, n as int));
        if let Some(url) = &self.url {
            assert(srcs[n as int] == url@);
            push_unique(&mut out, url.as_str());
            n = n + 1;
        }
        assert(n == n_opt);
        assert(string_views(out@) == unique_urls(srcs, n as int));
        let mut i: usize = 0;
        while i < self.fallback_urls.len()
            invariant
                srcs == self.url_sources(),
                n == n_opt,
                n_opt == opt_seq(self.mirror_url).len() + opt_seq(self.url).len(),
                i <= self.fallback_urls.len(),
                string_views(out@) == unique_urls(srcs, n + i),
            decreases self.fallback_urls.len() - i,
        {
            assert(srcs[n + i] == self.fallback_urls@[i as int]@);
            push_unique(&mut out, self.fallback_urls[i].as_str());
            i = i + 1;
        }
        assert(srcs.len() == n + i);
        out
    }
}

/// Appends `url`, trimmed, to `out` unless it is blank or already present.
fn push_unique(out: &mut Vec<String>, url: &str)
    ensures
        string_views(final(out)@) == push_unique_spec(string_views(old(out)@), url@),
{
    let t = trim(url);
    if t.as_str().is_empty() {
        return;
    }
    let mut i: usize = 0;
    while i < out.len()
        invariant
            i <= out.len(),
            out@ == old(out)@,
            t@ == trimmed(url@),
            t@.len() > 0,
            forall|k: int| 0 <= k < i ==> out@[k]@ != t@,
        decreases out.len() - i,
    {
        if out[i] == t {
            assert(string_views(out@)[i as int] == t@);
            return;
        }
        i = i + 1;
    }
    assert(!string_views(out@).contains(t@));
    out.push(t);
    assert(string_views(out@) =~= string_views(old(out)@).push(t@));
}

/// One model the application knows how to fetch and run.
pub struct ModelCatalogEntry {
    pub id: String,
    pub name: String,
    pub description: String,
    pub default: bool,
    pub model_type: String,
    pub layout: String,
    pub runtime_preset: Option<String>,
    pub supported: bool,
    pub download: ModelDownloadSpec,
}

impl ModelCatalogEntry {
    /// The runtime preset when one is set, else the model type.
    pub open spec fn spec_runtime_preset_or_type(self) -> Seq<char> {
        match self.runtime_preset {
            Some(p) => p@,
            None => self.model_type@,
        }
    }

    pub fn runtime_preset_or_type(&self) -> (r: &str)
        ensures
            r@ == self.spec_runtime_preset_or_type(),
    {
        match &self.runtime_preset {
            Some(p) => p.as_str(),
            None => self.model_type.as_str(),
        }
    }
}

/// A catalog entry as the settings UI lists it.
pub struct ModelStatusDto {
    pub id: String,
    pub name: String,
    pub description: String,
    pub supported: bool,
    pub installed: bool,
    pub active: bool,
}

/// The catalog of models.
pub struct ModelsCatalog {
    pub schema_version: u32,
    pub models: Vec<ModelCatalogEntry>,
}

/// Index of the first entry whose id is `id`, if any.
pub open spec fn first_entry_with_id(models: Seq<ModelCatalogEntry>, id: Seq<char>, i: int) -> bool {
    &&& 0 <= i < models.len()
    &&& models[i].id@ == id
    &&& forall|j: int| 0 <= j < i ==> models[j].id@ != id
}

pub open spec fn has_entry_with_id(models: Seq<ModelCatalogEntry>, id: Seq<char>) -> bool {
    exists|i: int| 0 <= i < models.len() && #[trigger] models[i].id@ == id
}

pub open spec fn unknown_model_message(id: Seq<char>) -> Seq<char> {
    "未知模型: "@ + id
}

/// The catalog entry whose id is `model_id` (the first, should there be several).
pub fn find_catalog_entry<'a>(catalog: &'a ModelsCatalog, model_id: &str) -> (r: Result<
    &'a ModelCatalogEntry,
    String,
>)
    ensures
        r matches Ok(e) ==> exists|i: int|
            first_entry_with_id(catalog.models@, model_id@, i) && *e == catalog.models@[i],
        r matches Err(msg) ==> !has_entry_with_id(catalog.models@, model_id@) && msg@
            == unknown_model_message(model_id@),
        r is Ok <==> has_entry_with_id(catalog.models@, model_id@),
{
    let id = String::from_str(model_id);
    let mut i: usize = 0;
    while i < catalog.models.len()
        invariant
            id@ == model_id@,
            i <= catalog.models.len(),
            forall|j: int| 0 <= j < i ==> catalog.models@[j].id@ != model_id@,
        decreases catalog.models.len() - i,
    {
        if catalog.models[i].id == id {
            assert(first_entry_with_id(catalog.models@, model_id@, i as int));
            return Ok(&catalog.models[i]);
        }
        i = i + 1;
    }
    let mut msg = String::from_str("未知模型: ");
    msg.append(model_id);
    Err(msg)
}

} // verus!

verus! {

/// What the caller found under the models directory: every directory and
/// every file, as paths relative to it with `/` between components.
pub struct ModelsDirSnapshot {
    pub dirs: Vec<String>,
    pub files: Vec<String>,
}

impl ModelsDirSnapshot {
    pub open spec fn has_dir(self, p: Seq<char>) -> bool {
        string_views(self.dirs@).contains(p)
    }

    pub open spec fn has_file(self, p: Seq<char>) -> bool {
        string_views(self.files@).contains(p)
    }
}

/// `name` inside the directory `dir`, both relative to the models directory.
pub open spec fn rel(dir: Seq<char>, name: Seq<char>) -> Seq<char> {
    dir + "/"@ + name
}

pub open spec fn spec_has_onnx_stem(s: ModelsDirSnapshot, dir: Seq<char>, stem: Seq<char>) -> bool {
    s.has_file(rel(dir, stem + ".int8.onnx"@)) || s.has_file(rel(dir, stem + ".onnx"@))
}

pub open spec fn has_tokenizer_in(s: ModelsDirSnapshot, dir: Seq<char>, name: Seq<char>) -> bool {
    &&& s.has_dir(rel(dir, name))
    &&& (s.has_file(rel(rel(dir, name), "tokenizer.json"@)) || s.has_file(
        rel(rel(dir, name), "vocab.json"@),
    ))
}

pub open spec fn spec_has_tokenizer_dir(s: ModelsDirSnapshot, dir: Seq<char>) -> bool {
    has_tokenizer_in(s, dir, "tokenizer"@) || has_tokenizer_in(s, dir, "Qwen3-0.6B"@)
}

pub open spec fn spec_has_paraformer_or_sensevoice_layout(
    s: ModelsDirSnapshot,
    dir: Seq<char>,
) -> bool {
    &&& s.has_file(rel(dir, "tokens.txt"@))
    &&& (s.has_file(rel(dir, "model.int8.onnx"@)) || s.has_file(rel(dir, "model.onnx"@)))
}

pub open spec fn spec_has_funasr_nano_layout(s: ModelsDirSnapshot, dir: Seq<char>) -> bool {
    &&& spec_has_onnx_stem(s, dir, "encoder_adaptor"@)
    &&& spec_has_onnx_stem(s, dir, "llm"@)
    &&& spec_has_onnx_stem(s, dir, "embedding"@)
    &&& spec_has_tokenizer_dir(s, dir)
}

pub open spec fn spec_has_qwen_asr_layout(s: ModelsDirSnapshot, dir: Seq<char>) -> bool {
    &&& s.has_file(rel(dir, "conv_frontend.onnx"@))
    &&& spec_has_onnx_stem(s, dir, "encoder"@)
    &&& spec_has_onnx_stem(s, dir, "decoder"@)
    &&& spec_has_tokenizer_dir(s, dir)
}

pub open spec fn spec_has_whisper_layout(s: ModelsDirSnapshot, dir: Seq<char>) -> bool {
    &&& s.has_file(rel(dir, "tokens.txt"@))
    &&& (s.has_file(rel(dir, "encoder.int8.onnx"@)) || s.has_file(rel(dir, "encoder.onnx"@)))
    &&& (s.has_file(rel(dir, "decoder.int8.onnx"@)) || s.has_file(rel(dir, "decoder.onnx"@)))
}

/// The files a runtime of kind `kind` needs are all in `dir`.
pub open spec fn layout_complete(s: ModelsDirSnapshot, dir: Seq<char>, kind: Seq<char>) -> bool {
    if kind == "whisper"@ {
        spec_has_whisper_layout(s, dir)
    } else if kind == "fun_asr_nano"@ {
        spec_has_funasr_nano_layout(s, dir)
    } else if kind == "qwen_asr"@ {
        spec_has_qwen_asr_layout(s, dir)
    } else {
        spec_has_paraformer_or_sensevoice_layout(s, dir)
    }
}

/// `entry`'s model is complete in the directory `dir`.
pub open spec fn model_installed_at(s: ModelsDirSnapshot, dir: Seq<char>, entry: ModelCatalogEntry) -> bool {
    s.has_dir(dir) && layout_complete(s, dir, entry.spec_runtime_preset_or_type())
}

/// `entry`'s model is complete in its own directory (its layout name).
pub open spec fn model_installed(s: ModelsDirSnapshot, entry: ModelCatalogEntry) -> bool {
    model_installed_at(s, entry.layout@, entry)
}

fn contains_string(v: &Vec<String>, p: &String) -> (r: bool)
    ensures
        r == string_views(v@).contains(p@),
{
    let mut i: usize = 0;
    while i < v.len()
        invariant
            i <= v.len(),
            forall|k: int| 0 <= k < i ==> v@[k]@ != p@,
        decreases v.len() - i,
    {
        if v[i] == *p {
            assert(string_views(v@)[i as int] == p@);
            return true;
        }
        i = i + 1;
    }
    assert(!string_views(v@).contains(p@));
    false
}

fn rel_path(dir: &str, name: &str) -> (r: String)
    ensures
        r@ == rel(dir@, name@),
{
    let mut r = String::from_str(dir);
    r.append("/");
    r.append(name);
    r
}

fn has_file_in(s: &ModelsDirSnapshot, dir: &str, name: &str) -> (r: bool)
    ensures
        r == s.has_file(rel(dir@, name@)),
{
    let p = rel_path(dir, name);
    contains_string(&s.files, &p)
}

fn has_onnx_stem(s: &ModelsDirSnapshot, dir: &str, stem: &str) -> (r: bool)
    ensures
        r == spec_has_onnx_stem(*s, dir@, stem@),
{
    let mut a = String::from_str(stem);
    a.append(".int8.onnx");
    let mut b = String::from_str(stem);
    b.append(".onnx");
    has_file_in(s, dir, a.as_str()) || has_file_in(s, dir, b.as_str())
}

fn tokenizer_in(s: &ModelsDirSnapshot, dir: &str, name: &str) -> (r: bool)
    ensures
        r == has_tokenizer_in(*s, dir@, name@),
{
    let tok = rel_path(dir, name);
    contains_string(&s.dirs, &tok) && (has_file_in(s, tok.as_str(), "tokenizer.json")
        || has_file_in(s, tok.as_str(), "vocab.json"))
}

fn has_tokenizer_dir(s: &ModelsDirSnapshot, dir: &str) -> (r: bool)
    ensures
        r == spec_has_tokenizer_dir(*s, dir@),
{
    tokenizer_in(s, dir, "tokenizer") || tokenizer_in(s, dir, "Qwen3-0.6B")
}

fn has_paraformer_or_sensevoice_layout(s: &ModelsDirSnapshot, dir: &str) -> (r: bool)
    ensures
        r == spec_has_paraformer_or_sensevoice_layout(*s, dir@),
{
    let has_tokens = has_file_in(s, dir, "tokens.txt");
    let has_onnx = has_file_in(s, dir, "model.int8.onnx") || has_file_in(s, dir, "model.onnx");
    has_tokens && has_onnx
}

fn has_funasr_nano_layout(s: &ModelsDirSnapshot, dir: &str) -> (r: bool)
    ensures
        r == spec_has_funasr_nano_layout(*s, dir@),
{
    has_onnx_stem(s, dir, "encoder_adaptor") && has_onnx_stem(s, dir, "llm") && has_onnx_stem(
        s,
        dir,
        "embedding",
    ) && has_tokenizer_dir(s, dir)
}

fn has_qwen_asr_layout(s: &ModelsDirSnapshot, dir: &str) -> (r: bool)
    ensures
        r == spec_has_qwen_asr_layout(*s, dir@),
{
    has_file_in(s, dir, "conv_frontend.onnx") && has_onnx_stem(s, dir, "encoder")
        && has_onnx_stem(s, dir, "decoder") && has_tokenizer_dir(s, dir)
}

fn has_whisper_layout(s: &ModelsDirSnapshot, dir: &str) -> (r: bool)
    ensures
        r == spec_has_whisper_layout(*s, dir@),
{
    let has_tokens = has_file_in(s, dir, "tokens.txt");
    let has_encoder = has_file_in(s, dir, "encoder.int8.onnx") || has_file_in(
        s,
        dir,
        "encoder.onnx",
    );
    let has_decoder = has_file_in(s, dir, "decoder.int8.onnx") || has_file_in(
        s,
        dir,
        "decoder.onnx",
    );
    has_tokens && has_encoder && has_decoder
}

/// Is `entry`'s model complete in the directory `dir` (relative to the models directory)?
pub fn is_model_installed_at(s: &ModelsDirSnapshot, dir: &str, entry: &ModelCatalogEntry) -> (r:
    bool)
    ensures
        r == model_installed_at(*s, dir@, *entry),
{
    let d = String::from_str(dir);
    if !contains_string(&s.dirs, &d) {
        return false;
    }
    let kind = entry.runtime_preset_or_type();
    if crate::text::str_eq(kind, "whisper") {
        has_whisper_layout(s, dir)
    } else if crate::text::str_eq(kind, "fun_asr_nano") {
        has_funasr_nano_layout(s, dir)
    } else if crate::text::str_eq(kind, "qwen_asr") {
        has_qwen_asr_layout(s, dir)
    } else {
        has_paraformer_or_sensevoice_layout(s, dir)
    }
}

/// Is `entry`'s model complete in its directory?
pub fn is_model_installed(entry: &ModelCatalogEntry, s: &ModelsDirSnapshot) -> (r: bool)
    ensures
        r == model_installed(*s, *entry),
{
    is_model_installed_at(s, entry.layout.as_str(), entry)
}

/// Does `dir` hold a `tokens.txt`?
pub fn tokens_exists(s: &ModelsDirSnapshot, dir: &str) -> (r: bool)
    ensures
        r == s.has_file(rel(dir@, "tokens.txt"@)),
{
    has_file_in(s, dir, "tokens.txt")
}

/// The status line the settings UI shows for `m`.
pub open spec fn model_status_of(
    m: ModelCatalogEntry,
    active_model_id: Option<String>,
    s: ModelsDirSnapshot,
    d: ModelStatusDto,
) -> bool {
    &&& d.id@ == m.id@
    &&& d.name@ == m.name@
    &&& d.description@ == m.description@
    &&& d.supported == m.supported
    &&& d.installed == model_installed(s, m)
    &&& d.active == (opt_view(active_model_id) == Some(m.id@))
}

/// Every catalog entry with whether it is installed and whether it is the active model.
pub fn list_model_statuses(
    catalog: &ModelsCatalog,
    settings: &AppSettings,
    s: &ModelsDirSnapshot,
) -> (r: Vec<ModelStatusDto>)
    ensures
        r.len() == catalog.models.len(),
        forall|i: int|
            0 <= i < r.len() ==> model_status_of(
                #[trigger] catalog.models@[i],
                settings.active_model_id,
                *s,
                r@[i],
            ),
{
    let mut r: Vec<ModelStatusDto> = Vec::new();
    let mut i: usize = 0;
    while i < catalog.models.len()
        invariant
            i <= catalog.models.len(),
            r.len() == i,
            forall|k: int|
                0 <= k < i ==> model_status_of(
                    #[trigger] catalog.models@[k],
                    settings.active_model_id,
                    *s,
                    r@[k],
                ),
        decreases catalog.models.len() - i,
    {
        let m = &catalog.models[i];
        let active = match &settings.active_model_id {
            Some(a) => *a == m.id,
            None => false,
        };
        r.push(
            ModelStatusDto {
                id: m.id.clone(),
                name: m.name.clone(),
                description: m.description.clone(),
                supported: m.supported,
                installed: is_model_installed(m, s),
                active,
            },
        );
        i = i + 1;
    }
    r
}

/// Where the runtime executable may be, in order of preference: the
/// `VOXTYPE_RUNTIME_EXE` override, the development build, the installed copy.
pub fn runtime_exe_candidates(
    env_exe: Option<&str>,
    manifest_dir: &str,
    install_dir: Option<&str>,
) -> (r: Vec<String>)
    ensures
        string_views(r@) == (match env_exe {
            Some(e) => seq![e@],
            None => Seq::empty(),
        }) + seq![dev_runtime_exe(manifest_dir@)] + (match install_dir {
            Some(d) => seq![installed_runtime_exe(d@)],
            None => Seq::empty(),
        }),
{
    let mut r: Vec<String> = Vec::new();
    if let Some(e) = env_exe {
        r.push(e.to_owned());
    }
    let a = join_path(manifest_dir, "..");
    let b = join_path(a.as_str(), "..");
    let c = join_path(b.as_str(), "runtime");
    let d = join_path(c.as_str(), "dist");
    let e = join_path(d.as_str(), "voxtype-runtime");
    r.push(join_path(e.as_str(), "voxtype-runtime.exe"));
    if let Some(dir) = install_dir {
        let x = join_path(dir, "runtime");
        let y = join_path(x.as_str(), "voxtype-runtime");
        r.push(join_path(y.as_str(), "voxtype-runtime.exe"));
    }
    assert(string_views(r@) =~= (match env_exe {
        Some(e) => seq![e@],
        None => Seq::empty(),
    }) + seq![dev_runtime_exe(manifest_dir@)] + (match install_dir {
        Some(d) => seq![installed_runtime_exe(d@)],
        None => Seq::empty(),
    }));
    r
}

pub open spec fn dev_runtime_exe(manifest_dir: Seq<char>) -> Seq<char> {
    joined_path(
        joined_path(
            joined_path(
                joined_path(joined_path(joined_path(manifest_dir, ".."@), ".."@), "runtime"@),
                "dist"@,
            ),
            "voxtype-runtime"@,
        ),
        "voxtype-runtime.exe"@,
    )
}

pub open spec fn installed_runtime_exe(install_dir: Seq<char>) -> Seq<char> {
    joined_path(
        joined_path(joined_path(install_dir, "runtime"@), "voxtype-runtime"@),
        "voxtype-runtime.exe"@,
    )
}

/// The runtime executable: the first candidate that is a file, else the
/// first candidate, else `voxtype-runtime.exe`.
pub fn runtime_exe_path(probes: &Vec<PathProbe>) -> (r: String)
    ensures
        (exists|i: int| 0 <= i < probes.len() && #[trigger] probes@[i].is_file) ==> exists|i: int|
            0 <= i < probes.len() && probes@[i].is_file && (forall|j: int|
                0 <= j < i ==> !#[trigger] probes@[j].is_file) && r@ == probes@[i].path@,
        (forall|i: int| 0 <= i < probes.len() ==> !#[trigger] probes@[i].is_file) ==> r@ == (
        if probes.len() > 0 {
            probes@[0].path@
        } else {
            "voxtype-runtime.exe"@
        }),
{
    let mut i: usize = 0;
    while i < probes.len()
        invariant
            i <= probes.len(),
            forall|j: int| 0 <= j < i ==> !#[trigger] probes@[j].is_file,
        decreases probes.len() - i,
    {
        if probes[i].is_file {
            return probes[i].path.clone();
        }
        i = i + 1;
    }
    if probes.len() > 0 {
        probes[0].path.clone()
    } else {
        String::from_str("voxtype-runtime.exe")
    }
}

} // verus!

verus! {

/// The cleaned candidate URLs are distinct and non-blank, each is some source
/// URL trimmed, and every source that is not blank once trimmed is among them.
pub proof fn unique_urls_properties(srcs: Seq<Seq<char>>, n: int)
    requires
        0 <= n <= srcs.len(),
    ensures
        forall|i: int, j: int|
            0 <= i < j < unique_urls(srcs, n).len() ==> unique_urls(srcs, n)[i] != unique_urls(
                srcs,
                n,
            )[j],
        forall|i: int|
            0 <= i < unique_urls(srcs, n).len() ==> (#[trigger] unique_urls(srcs, n)[i]).len()
                > 0,
        forall|i: int|
            0 <= i < unique_urls(srcs, n).len() ==> exists|k: int|
                0 <= k < n && #[trigger] unique_urls(srcs, n)[i] == trimmed(srcs[k]),
        forall|k: int|
            0 <= k < n && trimmed(srcs[k]).len() > 0 ==> unique_urls(srcs, n).contains(
                #[trigger] trimmed(srcs[k]),
            ),
    decreases n,
{
    if n > 0 {
        unique_urls_properties(srcs, n - 1);
        let prev = unique_urls(srcs, n - 1);
        let cur = unique_urls(srcs, n);
        let t = trimmed(srcs[n - 1]);
        if t.len() == 0 || prev.contains(t) {
            assert(cur == prev);
            assert forall|i: int| 0 <= i < cur.len() implies exists|k: int|
                0 <= k < n && #[trigger] cur[i] == trimmed(srcs[k]) by {
                let k = choose|k: int| 0 <= k < n - 1 && prev[i] == trimmed(srcs[k]);
            }
        } else {
            assert(cur == prev.push(t));
            assert forall|i: int| 0 <= i < cur.len() implies exists|k: int|
                0 <= k < n && #[trigger] cur[i] == trimmed(srcs[k]) by {
                if i < prev.len() {
                    let k = choose|k: int| 0 <= k < n - 1 && prev[i] == trimmed(srcs[k]);
                    assert(cur[i] == prev[i]);
                } else {
                    assert(cur[i] == trimmed(srcs[n - 1]));
                }
            }
            assert forall|k: int| 0 <= k < n && trimmed(srcs[k]).len() > 0 implies cur.contains(
                #[trigger] trimmed(srcs[k]),
            ) by {
                if k < n - 1 {
                    let m = choose|m: int| 0 <= m < prev.len() && prev[m] == trimmed(srcs[k]);
                    assert(cur[m] == prev[m]);
                } else {
                    assert(cur[prev.len() as int] == t);
                }
            }
            assert forall|i: int, j: int| 0 <= i < j < cur.len() implies cur[i] != cur[j] by {
                if j == prev.len() {
                    assert(cur[i] == prev[i]);
                }
            }
        }
    }
}

/// `candidate_zip_urls` yields distinct, non-blank URLs, each a configured
/// URL trimmed, and covers every configured URL that is not blank.
pub proof fn candidate_urls_distinct_and_complete(d: ModelDownloadSpec)
    ensures
        forall|i: int, j: int|
            0 <= i < j < d.candidate_urls().len() ==> d.candidate_urls()[i]
                != d.candidate_urls()[j],
        forall|i: int|
            0 <= i < d.candidate_urls().len() ==> (#[trigger] d.candidate_urls()[i]).len() > 0,
        forall|k: int|
            0 <= k < d.url_sources().len() && trimmed(d.url_sources()[k]).len() > 0
                ==> d.candidate_urls().contains(#[trigger] trimmed(d.url_sources()[k])),
{
    unique_urls_properties(d.url_sources(), d.url_sources().len() as int);
}

} // verus!

verus! {

/// Without the environment override, a catalog copied to the user's data
/// directory is read in preference to the bundled one.
pub proof fn user_catalog_overrides_bundled(p: CatalogProbe)
    requires
        p.env_override is None,
        p.user_catalog_exists,
    ensures
        catalog_choice(p) == CatalogSource::UserOverride,
        catalog_location(p, catalog_choice(p)) == p.user_catalog@,
        catalog_label(catalog_choice(p)) == "user-override"@,
{
}

} // verus!

verus! {

/// `k` is where `t` first occurs among the trimmed sources.
pub open spec fn first_occurrence(srcs: Seq<Seq<char>>, t: Seq<char>, k: int) -> bool {
    &&& 0 <= k < srcs.len()
    &&& trimmed(srcs[k]) == t
    &&& forall|m: int| 0 <= m < k ==> trimmed(#[trigger] srcs[m]) != t
}

/// `t` first occurs among the first `n` trimmed sources.
pub open spec fn occurs_before(srcs: Seq<Seq<char>>, t: Seq<char>, n: int) -> bool {
    exists|k: int| k < n && #[trigger] first_occurrence(srcs, t, k)
}

pub proof fn first_occurrence_unique(srcs: Seq<Seq<char>>, t: Seq<char>, k1: int, k2: int)
    requires
        first_occurrence(srcs, t, k1),
        first_occurrence(srcs, t, k2),
    ensures
        k1 == k2,
{
    if k1 < k2 {
        assert(trimmed(srcs[k1]) == t);
    } else if k2 < k1 {
        assert(trimmed(srcs[k2]) == t);
    }
}

/// Each cleaned URL is its own trim, and the cleaned URLs come in the order
/// in which they first occur among the sources.
pub proof fn unique_urls_trimmed_in_first_occurrence_order(srcs: Seq<Seq<char>>, n: int)
    requires
        0 <= n <= srcs.len(),
    ensures
        forall|i: int|
            0 <= i < unique_urls(srcs, n).len() ==> trimmed(#[trigger] unique_urls(srcs, n)[i])
                == unique_urls(srcs, n)[i],
        forall|i: int|
            0 <= i < unique_urls(srcs, n).len() ==> occurs_before(
                srcs,
                #[trigger] unique_urls(srcs, n)[i],
                n,
            ),
        forall|i: int, j: int, ki: int, kj: int|
            0 <= i < j < unique_urls(srcs, n).len() && #[trigger] first_occurrence(
                srcs,
                unique_urls(srcs, n)[i],
                ki,
            ) && #[trigger] first_occurrence(srcs, unique_urls(srcs, n)[j], kj) ==> ki < kj,
    decreases n,
{
    if n > 0 {
        unique_urls_trimmed_in_first_occurrence_order(srcs, n - 1);
        unique_urls_properties(srcs, n - 1);
        let prev = unique_urls(srcs, n - 1);
        let cur = unique_urls(srcs, n);
        let t = trimmed(srcs[n - 1]);
        if !(t.len() == 0 || prev.contains(t)) {
            assert(cur == prev.push(t));
            crate::text::trimmed_idempotent(srcs[n - 1]);
            assert forall|m: int| 0 <= m < n - 1 implies trimmed(#[trigger] srcs[m]) != t by {
                if trimmed(srcs[m]) == t {
                    assert(prev.contains(trimmed(srcs[m])));
                }
            }
            assert(first_occurrence(srcs, t, n - 1));
            assert forall|i: int| 0 <= i < cur.len() implies trimmed(#[trigger] cur[i]) == cur[i] by {
                if i < prev.len() {
                    assert(cur[i] == prev[i]);
                }
            }
            assert forall|i: int| 0 <= i < cur.len() implies occurs_before(
                srcs,
                #[trigger] cur[i],
                n,
            ) by {
                if i < prev.len() {
                    assert(cur[i] == prev[i]);
                    assert(occurs_before(srcs, prev[i], n - 1));
                    let k0 = choose|k: int| k < n - 1 && first_occurrence(srcs, prev[i], k);
                    assert(k0 < n && first_occurrence(srcs, cur[i], k0));
                } else {
                    assert(cur[i] == t);
                    assert(n - 1 < n && first_occurrence(srcs, cur[i], n - 1));
                }
            }
            assert forall|i: int, j: int, ki: int, kj: int|
                0 <= i < j < cur.len() && #[trigger] first_occurrence(srcs, cur[i], ki)
                    && #[trigger] first_occurrence(srcs, cur[j], kj) implies ki < kj by {
                assert(cur[i] == prev[i]);
                assert(occurs_before(srcs, prev[i], n - 1));
                let k0 = choose|k: int| k < n - 1 && first_occurrence(srcs, prev[i], k);
                first_occurrence_unique(srcs, prev[i], k0, ki);
                if j < prev.len() {
                    assert(cur[j] == prev[j]);
                } else {
                    assert(cur[j] == t);
                    first_occurrence_unique(srcs, t, n - 1, kj);
                }
            }
        } else {
            assert(cur == prev);
            assert forall|i: int| 0 <= i < cur.len() implies occurs_before(
                srcs,
                #[trigger] cur[i],
                n,
            ) by {
                assert(occurs_before(srcs, prev[i], n - 1));
                let k0 = choose|k: int| k < n - 1 && first_occurrence(srcs, prev[i], k);
                assert(k0 < n && first_occurrence(srcs, cur[i], k0));
            }
        }
    }
}

/// `candidate_zip_urls` yields each URL trimmed, in the order in which it
/// first occurs among the mirror, the primary URL and the fallbacks.
pub proof fn candidate_urls_trimmed_and_ordered(d: ModelDownloadSpec)
    ensures
        forall|i: int|
            0 <= i < d.candidate_urls().len() ==> trimmed(#[trigger] d.candidate_urls()[i])
                == d.candidate_urls()[i],
        forall|i: int, j: int, ki: int, kj: int|
            0 <= i < j < d.candidate_urls().len() && #[trigger] first_occurrence(
                d.url_sources(),
                d.candidate_urls()[i],
                ki,
            ) && #[trigger] first_occurrence(d.url_sources(), d.candidate_urls()[j], kj) ==> ki
                < kj,
        forall|i: int|
            0 <= i < d.candidate_urls().len() ==> occurs_before(
                d.url_sources(),
                #[trigger] d.candidate_urls()[i],
                d.url_sources().len() as int,
            ),
{
    unique_urls_trimmed_in_first_occurrence_order(d.url_sources(), d.url_sources().len() as int);
}

} // verus!

verus! {

/// A model counts as installed in `dir` (for `model_installed`, its layout
/// directory) exactly when that directory exists and holds
/// the files its runtime kind needs, each `.onnx` model file being met by
/// either its `.int8.onnx` or its plain `.onnx` form:
/// - `whisper`: `tokens.txt`, an encoder and a decoder;
/// - `fun_asr_nano`: `encoder_adaptor`, `llm` and `embedding`, with a
///   tokenizer directory (`tokenizer` or `Qwen3-0.6B`, holding
///   `tokenizer.json` or `vocab.json`);
/// - `qwen_asr`: `conv_frontend.onnx`, an encoder, a decoder and a tokenizer
///   directory;
/// - any other kind (`sensevoice`, `paraformer`, ...): `tokens.txt` and
///   `model`.
pub proof fn model_installed_by_layout_files(s: ModelsDirSnapshot, dir: Seq<char>, entry: ModelCatalogEntry)
    ensures
        entry.spec_runtime_preset_or_type() == "whisper"@ ==> (model_installed_at(s, dir, entry) <==> (
        s.has_dir(dir) && s.has_file(rel(dir, "tokens.txt"@)) && (s.has_file(
            rel(dir, "encoder.int8.onnx"@),
        ) || s.has_file(rel(dir, "encoder.onnx"@))) && (s.has_file(
            rel(dir, "decoder.int8.onnx"@),
        ) || s.has_file(rel(dir, "decoder.onnx"@))))),
        entry.spec_runtime_preset_or_type() == "fun_asr_nano"@ ==> (model_installed_at(s, dir, entry) <==> (
        s.has_dir(dir) && (s.has_file(rel(dir, "encoder_adaptor.int8.onnx"@))
            || s.has_file(rel(dir, "encoder_adaptor.onnx"@))) && (s.has_file(
            rel(dir, "llm.int8.onnx"@),
        ) || s.has_file(rel(dir, "llm.onnx"@))) && (s.has_file(
            rel(dir, "embedding.int8.onnx"@),
        ) || s.has_file(rel(dir, "embedding.onnx"@))) && ((s.has_dir(
            rel(dir, "tokenizer"@),
        ) && (s.has_file(rel(rel(dir, "tokenizer"@), "tokenizer.json"@)) || s.has_file(
            rel(rel(dir, "tokenizer"@), "vocab.json"@),
        ))) || (s.has_dir(rel(dir, "Qwen3-0.6B"@)) && (s.has_file(
            rel(rel(dir, "Qwen3-0.6B"@), "tokenizer.json"@),
        ) || s.has_file(rel(rel(dir, "Qwen3-0.6B"@), "vocab.json"@))))))),
        entry.spec_runtime_preset_or_type() == "qwen_asr"@ ==> (model_installed_at(s, dir, entry) <==> (
        s.has_dir(dir) && s.has_file(rel(dir, "conv_frontend.onnx"@)) && (
        s.has_file(rel(dir, "encoder.int8.onnx"@)) || s.has_file(
            rel(dir, "encoder.onnx"@),
        )) && (s.has_file(rel(dir, "decoder.int8.onnx"@)) || s.has_file(
            rel(dir, "decoder.onnx"@),
        )) && ((s.has_dir(rel(dir, "tokenizer"@)) && (s.has_file(
            rel(rel(dir, "tokenizer"@), "tokenizer.json"@),
        ) || s.has_file(rel(rel(dir, "tokenizer"@), "vocab.json"@)))) || (s.has_dir(
            rel(dir, "Qwen3-0.6B"@),
        ) && (s.has_file(rel(rel(dir, "Qwen3-0.6B"@), "tokenizer.json"@)) || s.has_file(
            rel(rel(dir, "Qwen3-0.6B"@), "vocab.json"@),
        )))))),
        entry.spec_runtime_preset_or_type() != "whisper"@ && entry.spec_runtime_preset_or_type()
            != "fun_asr_nano"@ && entry.spec_runtime_preset_or_type() != "qwen_asr"@ ==> (
        model_installed_at(s, dir, entry) <==> (s.has_dir(dir) && s.has_file(
            rel(dir, "tokens.txt"@),
        ) && (s.has_file(rel(dir, "model.int8.onnx"@)) || s.has_file(
            rel(dir, "model.onnx"@),
        )))),
{
    reveal_strlit("whisper");
    reveal_strlit("fun_asr_nano");
    reveal_strlit("qwen_asr");
    reveal_strlit("encoder_adaptor");
    reveal_strlit(".int8.onnx");
    reveal_strlit("encoder_adaptor.int8.onnx");
    assert("encoder_adaptor"@ + ".int8.onnx"@ =~= "encoder_adaptor.int8.onnx"@);
    reveal_strlit(".onnx");
    reveal_strlit("encoder_adaptor.onnx");
    assert("encoder_adaptor"@ + ".onnx"@ =~= "encoder_adaptor.onnx"@);
    reveal_strlit("llm");
    reveal_strlit("llm.int8.onnx");
    assert("llm"@ + ".int8.onnx"@ =~= "llm.int8.onnx"@);
    reveal_strlit("llm.onnx");
    assert("llm"@ + ".onnx"@ =~= "llm.onnx"@);
    reveal_strlit("embedding");
    reveal_strlit("embedding.int8.onnx");
    assert("embedding"@ + ".int8.onnx"@ =~= "embedding.int8.onnx"@);
    reveal_strlit("embedding.onnx");
    assert("embedding"@ + ".onnx"@ =~= "embedding.onnx"@);
    reveal_strlit("encoder");
    reveal_strlit("encoder.int8.onnx");
    assert("encoder"@ + ".int8.onnx"@ =~= "encoder.int8.onnx"@);
    reveal_strlit("encoder.onnx");
    assert("encoder"@ + ".onnx"@ =~= "encoder.onnx"@);
    reveal_strlit("decoder");
    reveal_strlit("decoder.int8.onnx");
    assert("decoder"@ + ".int8.onnx"@ =~= "decoder.int8.onnx"@);
    reveal_strlit("decoder.onnx");
    assert("decoder"@ + ".onnx"@ =~= "decoder.onnx"@);
    assert("fun_asr_nano"@[0] != "whisper"@[0]);
    assert("qwen_asr"@[0] != "whisper"@[0]);
    assert("qwen_asr"@[0] != "fun_asr_nano"@[0]);
}

} // verus!
