//! Where downloaded models live, whether a model is complete on disk, and
//! the decisions of the resumable download.
use vstd::prelude::*;

use crate::config::{config_dir, config_dir_under, NO_CONFIG_DIR};
use crate::errors::{concat2, concat3, owned, AppError};
use crate::models::registry::{
    catalog, get_model, lookup, model_info, BackendKind, ModelInfo, ModelInfoDto, ModelView,
    MODEL_COUNT, FILE_CACHED_DECODE_INT8_ONNX, FILE_DECODER_INT8_ONNX, FILE_ENCODE_INT8_ONNX,
    FILE_ENCODER_INT8_ONNX, FILE_MODEL_INT8_ONNX, FILE_PREPROCESS_ONNX, FILE_TOKENS_TXT,
    FILE_UNCACHED_DECODE_INT8_ONNX,
};
use crate::paths::{join_path, join_path_exec};
use crate::text::{chars_eq_str, chars_of, views};

verus! {

pub const MODELS_DIR: &'static str = "models";

pub const DOWNLOADING_SUFFIX: &'static str = ".downloading";

/// Attempts made per file before a download gives up.
pub const MAX_RETRIES: u32 = 3;

pub const CONNECT_TIMEOUT_SECS: u64 = 30;

pub const READ_TIMEOUT_SECS: u64 = 300;

pub const UNKNOWN_MODEL_PREFIX: &'static str = "Unknown model: ";

pub const NO_FILES_PREFIX: &'static str = "Model ";

pub const NO_FILES_SUFFIX: &'static str = " has no files";

pub const DOWNLOAD_FAILED_PREFIX: &'static str = "Download failed for ";

pub const DOWNLOAD_FAILED_MIDDLE: &'static str = ": HTTP ";

/// Progress of a model download, reported after every received chunk.
#[derive(Debug, Clone)]
pub struct DownloadProgress {
    pub model_id: String,
    pub file_name: String,
    pub downloaded_bytes: u64,
    pub total_bytes: u64,
    pub file_index: usize,
    pub total_files: usize,
}

/// The directory of model `id` under the system configuration directory
/// `base`.
pub open spec fn model_dir_under(base: Seq<char>, id: Seq<char>) -> Seq<char> {
    join_path(join_path(config_dir_under(base), MODELS_DIR@), id)
}

/// File `rel` of model `id` under the system configuration directory `base`.
pub open spec fn model_file_under(base: Seq<char>, id: Seq<char>, rel: Seq<char>) -> Seq<char> {
    join_path(model_dir_under(base, id), rel)
}

/// The path of file `relative_path` of model `model_id`, given the
/// application's settings directory `settings_dir`.
pub fn model_file_in(settings_dir: &str, model_id: &str, relative_path: &str) -> (r: String)
    ensures
        r@ == join_path(
            join_path(join_path(settings_dir@, MODELS_DIR@), model_id@),
            relative_path@,
        ),
        forall|b: Seq<char>|
            settings_dir@ == config_dir_under(b) ==> r@ == model_file_under(
                b,
                model_id@,
                relative_path@,
            ),
{
    let models = join_path_exec(settings_dir, MODELS_DIR);
    let dir = join_path_exec(models.as_str(), model_id);
    join_path_exec(dir.as_str(), relative_path)
}

/// The path of file `relative_path` of model `model_id`.
pub fn model_file_path(model_id: &str, relative_path: &str) -> (r: Result<String, AppError>)
    ensures
        match r {
            Ok(p) => exists|b: Seq<char>| p@ == model_file_under(b, model_id@, relative_path@),
            Err(e) => e is Config && e.text() == NO_CONFIG_DIR@,
        },
{
    match config_dir() {
        Ok(d) => {
            let p = model_file_in(d.as_str(), model_id, relative_path);
            proof {
                let b = choose|b: Seq<char>| d@ == config_dir_under(b);
                assert(p@ == model_file_under(b, model_id@, relative_path@));
            }
            Ok(p)
        },
        Err(e) => Err(e),
    }
}

/// The files of `files` that are present, given their sizes on disk (0
/// for a missing file): a model is complete when each of its files is there
/// and not empty.
pub open spec fn files_complete(m: ModelView, file_sizes: Seq<u64>) -> bool {
    file_sizes.len() == m.files.len() && forall|k: int| 0 <= k < file_sizes.len() ==> file_sizes[k]
        > 0
}

/// Whether model `model_id` is fully downloaded, given the sizes on disk of
/// its files in catalog order (0 for a file that is missing). An unknown
/// model is never downloaded.
pub fn is_model_downloaded(model_id: &str, file_sizes: &[u64]) -> (b: bool)
    ensures
        b == (lookup(model_id@) matches Some(m) && files_complete(m, file_sizes@)),
{
    let m = match get_model(model_id) {
        Some(m) => m,
        None => return false,
    };
    if file_sizes.len() != m.files.len() {
        return false;
    }
    let mut k: usize = 0;
    while k < file_sizes.len()
        invariant
            k <= file_sizes.len(),
            forall|j: int| 0 <= j < k ==> file_sizes@[j] > 0,
        decreases file_sizes.len() - k,
    {
        if file_sizes[k] == 0 {
            return false;
        }
        k += 1;
    }
    true
}

/// Whether model `id` is fully downloaded when its files have the sizes
/// `file_sizes` on disk.
pub open spec fn model_downloaded(id: Seq<char>, file_sizes: Seq<u64>) -> bool {
    lookup(id) matches Some(m) && files_complete(m, file_sizes)
}

/// The sizes on disk given for catalog position `i` (none when missing).
pub open spec fn sizes_at(file_sizes: Seq<Vec<u64>>, i: int) -> Seq<u64> {
    if 0 <= i < file_sizes.len() {
        file_sizes[i]@
    } else {
        Seq::empty()
    }
}

/// Whether each catalog model is fully downloaded, given, for each catalog
/// position, the sizes on disk of the model's files (0 for a missing file).
pub fn downloaded_flags(file_sizes: &[Vec<u64>]) -> (flags: Vec<bool>)
    ensures
        flags.len() == catalog().len(),
        forall|i: int|
            0 <= i < flags.len() ==> #[trigger] flags@[i] == model_downloaded(
                catalog()[i].id,
                sizes_at(file_sizes@, i),
            ),
{
    let none: Vec<u64> = Vec::new();
    let mut flags: Vec<bool> = Vec::new();
    let mut i: usize = 0;
    while i < MODEL_COUNT
        invariant
            i <= MODEL_COUNT,
            flags.len() == i,
            none@ == Seq::<u64>::empty(),
            forall|j: int|
                0 <= j < i ==> #[trigger] flags@[j] == model_downloaded(
                    catalog()[j].id,
                    sizes_at(file_sizes@, j),
                ),
        decreases MODEL_COUNT - i,
    {
        let m = model_info(i);
        let b = if i < file_sizes.len() {
            is_model_downloaded(m.id, file_sizes[i].as_slice())
        } else {
            is_model_downloaded(m.id, none.as_slice())
        };
        flags.push(b);
        i += 1;
    }
    flags
}

/// A catalog model counts as downloaded exactly when as many sizes as it has
/// files are given, none of them 0.
pub proof fn law_downloaded_means_complete(file_sizes: Seq<u64>, i: int)
    requires
        0 <= i < MODEL_COUNT,
    ensures
        model_downloaded(catalog()[i].id, file_sizes) == (file_sizes.len()
            == catalog()[i].files.len() && forall|k: int|
            0 <= k < file_sizes.len() ==> file_sizes[k] > 0),
{
    crate::models::registry::law_lookup_finds_model(i);
}

/// The listing entry of a catalog model.
pub open spec fn listed(m: ModelView, active: Seq<char>, downloaded: bool) -> (
    Seq<char>,
    bool,
    bool,
) {
    (m.id, downloaded, m.id == active)
}

fn dto_of(m: &ModelInfo, active: &Vec<char>, downloaded: bool) -> (d: ModelInfoDto)
    ensures
        d.id@ == m@.id,
        d.display_name@ == m@.display_name,
        d.description@ == m@.description,
        d.backend == m@.backend,
        d.total_size_bytes == m@.total_size_bytes,
        d.size_display@ == m@.size_display,
        views(d.best_for_languages@) == m@.best_for_languages,
        d.is_downloaded == downloaded,
        d.is_active == (m@.id == active@),
{
    let mut langs: Vec<String> = Vec::new();
    let mut i: usize = 0;
    while i < m.best_for_languages.len()
        invariant
            i <= m.best_for_languages.len(),
            views(langs@) == m@.best_for_languages.take(i as int),
        decreases m.best_for_languages.len() - i,
    {
        let s = owned(m.best_for_languages[i]);
        let ghost before = langs@;
        langs.push(s);
        proof {
            assert(views(langs@) =~= views(before).push(s@));
            assert(m@.best_for_languages.take(i + 1) =~= m@.best_for_languages.take(i as int).push(
                m@.best_for_languages[i as int],
            ));
        }
        i += 1;
    }
    assert(m@.best_for_languages.take(m.best_for_languages.len() as int)
        =~= m@.best_for_languages);
    ModelInfoDto {
        id: owned(m.id),
        display_name: owned(m.display_name),
        description: owned(m.description),
        backend: m.backend,
        total_size_bytes: m.total_size_bytes,
        size_display: owned(m.size_display),
        best_for_languages: langs,
        is_downloaded: downloaded,
        is_active: chars_eq_str(active, m.id),
    }
}

/// Every catalog model for the settings screen, in catalog order, marked
/// active when its id is `active_model_id` and downloaded when `downloaded`
/// says so at its position (a missing position counts as not downloaded).
pub fn list_models_with_status(active_model_id: &str, downloaded: &[bool]) -> (v: Vec<
    ModelInfoDto,
>)
    ensures
        v.len() == catalog().len(),
        forall|i: int|
            0 <= i < v.len() ==> {
                let d = #[trigger] v@[i];
                let m = catalog()[i];
                &&& d.id@ == m.id
                &&& d.display_name@ == m.display_name
                &&& d.description@ == m.description
                &&& d.backend == m.backend
                &&& d.total_size_bytes == m.total_size_bytes
                &&& d.size_display@ == m.size_display
                &&& views(d.best_for_languages@) == m.best_for_languages
                &&& d.is_downloaded == (i < downloaded.len() && downloaded@[i])
                &&& d.is_active == (m.id == active_model_id@)
            },
{
    let active = chars_of(active_model_id);
    let mut v: Vec<ModelInfoDto> = Vec::new();
    let mut i: usize = 0;
    while i < MODEL_COUNT
        invariant
            i <= MODEL_COUNT,
            v.len() == i,
            active@ == active_model_id@,
            forall|j: int|
                0 <= j < i ==> {
                    let d = #[trigger] v@[j];
                    let m = catalog()[j];
                    &&& d.id@ == m.id
                    &&& d.display_name@ == m.display_name
                    &&& d.description@ == m.description
                    &&& d.backend == m.backend
                    &&& d.total_size_bytes == m.total_size_bytes
                    &&& d.size_display@ == m.size_display
                    &&& views(d.best_for_languages@) == m.best_for_languages
                    &&& d.is_downloaded == (j < downloaded.len() && downloaded@[j])
                    &&& d.is_active == (m.id == active_model_id@)
                },
        decreases MODEL_COUNT - i,
    {
        let m = model_info(i);
        let is_down = i < downloaded.len() && downloaded[i];
        let d = dto_of(&m, &active, is_down);
        v.push(d);
        i += 1;
    }
    v
}

/// The file paths a backend is built from.
pub enum BackendPaths {
    Whisper(String),
    SenseVoice(String, String),
    Paraformer(String, String),
    Moonshine(String, String, String, String, String),
    FireRedAsr(String, String, String),
}

/// The path of the weights of Whisper model `model_id`: its first file.
pub fn whisper_model_path(model_id: &str) -> (r: Result<String, AppError>)
    ensures
        lookup(model_id@) is None ==> (r matches Err(e) && e is Config && e.text()
            == UNKNOWN_MODEL_PREFIX@ + model_id@),
        lookup(model_id@) matches Some(m) ==> match r {
            Ok(p) => exists|b: Seq<char>|
                p@ == model_file_under(b, model_id@, m.files[0].relative_path),
            Err(e) => e is Config && e.text() == NO_CONFIG_DIR@,
        },
{
    let info = match get_model(model_id) {
        Some(m) => m,
        None => return Err(AppError::Config(concat2(UNKNOWN_MODEL_PREFIX, model_id))),
    };
    if info.files.len() == 0 {
        proof {
            crate::models::registry::lemma_lookup_has_files(model_id@);
        }
        return Err(AppError::Config(concat3(NO_FILES_PREFIX, model_id, NO_FILES_SUFFIX)));
    }
    assert(info.files@[0]@ == info@.files[0]);
    let rel = info.files[0].relative_path;
    assert(rel@ == info@.files[0].relative_path);
    model_file_path(model_id, rel)
}

/// The model and token files of SenseVoice model `model_id`.
pub fn sensevoice_model_paths(model_id: &str) -> (r: Result<(String, String), AppError>)
    ensures
        match r {
            Ok(t) => exists|b: Seq<char>|
                t.0@ == model_file_under(b, model_id@, FILE_MODEL_INT8_ONNX@) && t.1@
                    == model_file_under(b, model_id@, FILE_TOKENS_TXT@),
            Err(e) => e is Config && e.text() == NO_CONFIG_DIR@,
        },
{
    match config_dir() {
        Ok(d) => {
            let a = model_file_in(d.as_str(), model_id, FILE_MODEL_INT8_ONNX);
            let t = model_file_in(d.as_str(), model_id, FILE_TOKENS_TXT);
            proof {
                let b = choose|b: Seq<char>| d@ == config_dir_under(b);
                assert(a@ == model_file_under(b, model_id@, FILE_MODEL_INT8_ONNX@));
                assert(t@ == model_file_under(b, model_id@, FILE_TOKENS_TXT@));
            }
            Ok((a, t))
        },
        Err(e) => Err(e),
    }
}

/// The model and token files of Paraformer model `model_id`.
pub fn paraformer_model_paths(model_id: &str) -> (r: Result<(String, String), AppError>)
    ensures
        match r {
            Ok(t) => exists|b: Seq<char>|
                t.0@ == model_file_under(b, model_id@, FILE_MODEL_INT8_ONNX@) && t.1@
                    == model_file_under(b, model_id@, FILE_TOKENS_TXT@),
            Err(e) => e is Config && e.text() == NO_CONFIG_DIR@,
        },
{
    sensevoice_model_paths(model_id)
}

/// The preprocessor, encoder, uncached and cached decoder, and token files
/// of Moonshine model `model_id`.
pub fn moonshine_model_paths(model_id: &str) -> (r: Result<
    (String, String, String, String, String),
    AppError,
>)
    ensures
        match r {
            Ok(t) => exists|b: Seq<char>|
                {
                    &&& t.0@ == model_file_under(b, model_id@, FILE_PREPROCESS_ONNX@)
                    &&& t.1@ == model_file_under(b, model_id@, FILE_ENCODE_INT8_ONNX@)
                    &&& t.2@ == model_file_under(b, model_id@, FILE_UNCACHED_DECODE_INT8_ONNX@)
                    &&& t.3@ == model_file_under(b, model_id@, FILE_CACHED_DECODE_INT8_ONNX@)
                    &&& t.4@ == model_file_under(b, model_id@, FILE_TOKENS_TXT@)
                },
            Err(e) => e is Config && e.text() == NO_CONFIG_DIR@,
        },
{
    match config_dir() {
        Ok(d) => {
            let p = model_file_in(d.as_str(), model_id, FILE_PREPROCESS_ONNX);
            let e = model_file_in(d.as_str(), model_id, FILE_ENCODE_INT8_ONNX);
            let u = model_file_in(d.as_str(), model_id, FILE_UNCACHED_DECODE_INT8_ONNX);
            let c = model_file_in(d.as_str(), model_id, FILE_CACHED_DECODE_INT8_ONNX);
            let t = model_file_in(d.as_str(), model_id, FILE_TOKENS_TXT);
            proof {
                let b = choose|b: Seq<char>| d@ == config_dir_under(b);
                assert(p@ == model_file_under(b, model_id@, FILE_PREPROCESS_ONNX@));
                assert(e@ == model_file_under(b, model_id@, FILE_ENCODE_INT8_ONNX@));
                assert(u@ == model_file_under(b, model_id@, FILE_UNCACHED_DECODE_INT8_ONNX@));
                assert(c@ == model_file_under(b, model_id@, FILE_CACHED_DECODE_INT8_ONNX@));
                assert(t@ == model_file_under(b, model_id@, FILE_TOKENS_TXT@));
            }
            Ok((p, e, u, c, t))
        },
        Err(e) => Err(e),
    }
}

/// The encoder, decoder and token files of FireRedASR model `model_id`.
pub fn fire_red_asr_model_paths(model_id: &str) -> (r: Result<(String, String, String), AppError>)
    ensures
        match r {
            Ok(t) => exists|b: Seq<char>|
                {
                    &&& t.0@ == model_file_under(b, model_id@, FILE_ENCODER_INT8_ONNX@)
                    &&& t.1@ == model_file_under(b, model_id@, FILE_DECODER_INT8_ONNX@)
                    &&& t.2@ == model_file_under(b, model_id@, FILE_TOKENS_TXT@)
                },
            Err(e) => e is Config && e.text() == NO_CONFIG_DIR@,
        },
{
    match config_dir() {
        Ok(d) => {
            let e = model_file_in(d.as_str(), model_id, FILE_ENCODER_INT8_ONNX);
            let c = model_file_in(d.as_str(), model_id, FILE_DECODER_INT8_ONNX);
            let t = model_file_in(d.as_str(), model_id, FILE_TOKENS_TXT);
            proof {
                let b = choose|b: Seq<char>| d@ == config_dir_under(b);
                assert(e@ == model_file_under(b, model_id@, FILE_ENCODER_INT8_ONNX@));
                assert(c@ == model_file_under(b, model_id@, FILE_DECODER_INT8_ONNX@));
                assert(t@ == model_file_under(b, model_id@, FILE_TOKENS_TXT@));
            }
            Ok((e, c, t))
        },
        Err(e) => Err(e),
    }
}

/// Where a file is written while it downloads.
pub fn downloading_path(dest: &str) -> (r: String)
    ensures
        r@ == dest@ + DOWNLOADING_SUFFIX@,
{
    concat2(dest, DOWNLOADING_SUFFIX)
}

pub open spec fn pow2(n: nat) -> nat
    decreases n,
{
    if n == 0 {
        1
    } else {
        2 * pow2((n - 1) as nat)
    }
}

/// The pause, in seconds, before retry number `attempt` (counted from 1)
/// of a download: `2^attempt`.
pub fn retry_delay_secs(attempt: u32) -> (d: u64)
    requires
        0 < attempt < MAX_RETRIES,
    ensures
        d == pow2(attempt as nat),
{
    reveal_with_fuel(pow2, 3);
    if attempt == 1 {
        2
    } else {
        4
    }
}

/// What to do with the answer to a (possibly ranged) download request.
pub enum ResponseStep {
    /// The server has nothing past what is already on disk.
    Complete,
    /// The answer is an HTTP error.
    Failed,
    /// Write the body: appended to the partial file, or over it; `start` is
    /// the byte count already on disk and `total` the expected final size.
    Write { append: bool, start: u64, total: u64 },
}

/// The step for an answer with HTTP status `status` and announced body
/// length `content_length`, when `downloaded` bytes are already on disk and
/// the file should be `expected_size` bytes long.
pub open spec fn response_step(
    downloaded: u64,
    status: u16,
    content_length: Option<u64>,
    expected_size: u64,
) -> ResponseStep {
    if downloaded > 0 && status == 416 {
        ResponseStep::Complete
    } else {
        let start: u64 = if downloaded > 0 && status == 200 {
            0
        } else {
            downloaded
        };
        if !(200 <= status < 300) {
            ResponseStep::Failed
        } else if status == 206 {
            let rest: u64 = match content_length {
                Some(n) => n,
                None => if expected_size >= start {
                    (expected_size - start) as u64
                } else {
                    0
                },
            };
            ResponseStep::Write { append: start > 0, start, total: (start + rest) as u64 }
        } else {
            ResponseStep::Write {
                append: false,
                start,
                total: match content_length {
                    Some(n) => n,
                    None => expected_size,
                },
            }
        }
    }
}

/// Decides what to do with a download answer (see `response_step`). A
/// partial answer must not announce more bytes than fit after those on disk.
pub fn plan_response(
    downloaded: u64,
    status: u16,
    content_length: Option<u64>,
    expected_size: u64,
) -> (r: ResponseStep)
    requires
        status == 206 && content_length is Some ==> downloaded + content_length->0 <= u64::MAX,
    ensures
        r == response_step(downloaded, status, content_length, expected_size),
{
    if downloaded > 0 && status == 416 {
        return ResponseStep::Complete;
    }
    let start: u64 = if downloaded > 0 && status == 200 {
        0
    } else {
        downloaded
    };
    if !(200 <= status && status < 300) {
        return ResponseStep::Failed;
    }
    if status == 206 {
        let rest: u64 = match content_length {
            Some(n) => n,
            None => expected_size.saturating_sub(start),
        };
        ResponseStep::Write { append: start > 0, start, total: start + rest }
    } else {
        ResponseStep::Write {
            append: false,
            start,
            total: match content_length {
                Some(n) => n,
                None => expected_size,
            },
        }
    }
}

/// A download never appends to a partial file unless the server answered
/// with partial content, and it always writes from where the file stands.
pub proof fn law_append_only_on_partial_content(
    downloaded: u64,
    status: u16,
    content_length: Option<u64>,
    expected_size: u64,
)
    ensures
        response_step(downloaded, status, content_length, expected_size) matches ResponseStep::Write {
            append,
            start,
            ..
        } ==> (append ==> status == 206 && start == downloaded && downloaded > 0) && (!append
            ==> start == 0 || status != 206),
{
}

/// The next thing a model download does.
#[derive(Debug, Clone, Copy, PartialEq, Eq, Structural)]
pub enum DownloadStage {
    /// Look at file `file` on disk.
    Check { file: usize },
    /// File `file` is on disk already: report it complete.
    Skip { file: usize },
    /// Download file `file`, after the pause of attempt `attempt`
    /// (counted from 0).
    Fetch { file: usize, attempt: u32 },
    /// Move the downloaded file `file` into place.
    Install { file: usize },
    /// Every file is in place.
    Done,
    /// The last attempt at a file failed: give up with its error.
    GiveUp,
}

/// What the download loop reports back after a stage.
#[derive(Debug, Clone, Copy, PartialEq, Eq, Structural)]
pub enum DownloadEvent {
    /// The file was looked at: `present` when it exists and is not empty.
    Checked { present: bool },
    /// An attempt at the file ended, successfully or not.
    Attempted { ok: bool },
    /// A report or a move was carried out.
    Performed,
}

/// The stage that follows file `file` of `total_files`.
pub open spec fn after_file(file: usize, total_files: usize) -> DownloadStage {
    if file + 1 < total_files {
        DownloadStage::Check { file: (file + 1) as usize }
    } else {
        DownloadStage::Done
    }
}

/// The first stage of a download of `total_files` files.
pub open spec fn first_stage(total_files: usize) -> DownloadStage {
    if total_files > 0 {
        DownloadStage::Check { file: 0 }
    } else {
        DownloadStage::Done
    }
}

/// The stage after `stage` once `event` came back. A present file is
/// skipped; a failed attempt is tried again until `MAX_RETRIES` attempts
/// were made; an event that does not answer the stage changes nothing.
pub open spec fn download_next(
    stage: DownloadStage,
    total_files: usize,
    event: DownloadEvent,
) -> DownloadStage {
    match (stage, event) {
        (DownloadStage::Check { file }, DownloadEvent::Checked { present }) => if present {
            DownloadStage::Skip { file }
        } else {
            DownloadStage::Fetch { file, attempt: 0 }
        },
        (DownloadStage::Skip { file }, DownloadEvent::Performed) => after_file(file, total_files),
        (DownloadStage::Fetch { file, attempt }, DownloadEvent::Attempted { ok }) => if ok {
            DownloadStage::Install { file }
        } else if attempt + 1 < MAX_RETRIES {
            DownloadStage::Fetch { file, attempt: (attempt + 1) as u32 }
        } else {
            DownloadStage::GiveUp
        },
        (DownloadStage::Install { file }, DownloadEvent::Performed) => after_file(
            file,
            total_files,
        ),
        _ => stage,
    }
}

/// A stage that a download of `total_files` files can be in: its file is
/// one of them, and its attempt one of the `MAX_RETRIES`.
pub open spec fn stage_valid(stage: DownloadStage, total_files: usize) -> bool {
    match stage {
        DownloadStage::Check { file } => file < total_files,
        DownloadStage::Skip { file } => file < total_files,
        DownloadStage::Fetch { file, attempt } => file < total_files && attempt < MAX_RETRIES,
        DownloadStage::Install { file } => file < total_files,
        _ => true,
    }
}

/// Starts the download of model `model_id`: an unknown model is an error,
/// and a known one begins at its first file.
pub fn download_start(model_id: &str) -> (r: Result<(DownloadStage, usize), AppError>)
    ensures
        lookup(model_id@) is None ==> (r matches Err(e) && e is Config && e.text()
            == UNKNOWN_MODEL_PREFIX@ + model_id@),
        lookup(model_id@) matches Some(m) ==> r == Ok::<(DownloadStage, usize), AppError>(
            (first_stage(m.files.len() as usize), m.files.len() as usize),
        ),
{
    match get_model(model_id) {
        Some(m) => {
            let total = m.files.len();
            if total > 0 {
                Ok((DownloadStage::Check { file: 0 }, total))
            } else {
                Ok((DownloadStage::Done, total))
            }
        },
        None => Err(AppError::Config(concat2(UNKNOWN_MODEL_PREFIX, model_id))),
    }
}

/// `after_file(file, total_files)`.
fn next_file(file: usize, total_files: usize) -> (s: DownloadStage)
    ensures
        s == after_file(file, total_files),
{
    if total_files > 0 && file < total_files - 1 {
        DownloadStage::Check { file: file + 1 }
    } else {
        DownloadStage::Done
    }
}

/// Advances a model download (see `download_next`).
pub fn download_step(stage: DownloadStage, total_files: usize, event: DownloadEvent) -> (s:
    DownloadStage)
    ensures
        s == download_next(stage, total_files, event),
{
    match (stage, event) {
        (DownloadStage::Check { file }, DownloadEvent::Checked { present }) => if present {
            DownloadStage::Skip { file }
        } else {
            DownloadStage::Fetch { file, attempt: 0 }
        },
        (DownloadStage::Skip { file }, DownloadEvent::Performed) => next_file(file, total_files),
        (DownloadStage::Fetch { file, attempt }, DownloadEvent::Attempted { ok }) => if ok {
            DownloadStage::Install { file }
        } else if attempt < MAX_RETRIES - 1 {
            DownloadStage::Fetch { file, attempt: attempt + 1 }
        } else {
            DownloadStage::GiveUp
        },
        (DownloadStage::Install { file }, DownloadEvent::Performed) => next_file(file, total_files),
        _ => stage,
    }
}

/// The pause, in seconds, before attempt `attempt` (counted from 0) at a
/// file: none before the first, `retry_delay_secs` before the others.
pub fn fetch_delay_secs(attempt: u32) -> (d: u64)
    requires
        attempt < MAX_RETRIES,
    ensures
        d == if attempt == 0 {
            0
        } else {
            pow2(attempt as nat)
        },
{
    if attempt == 0 {
        0
    } else {
        retry_delay_secs(attempt)
    }
}

/// Every stage a download passes through is valid: it starts valid and
/// each step keeps it so.
pub proof fn law_download_stage_stays_valid(
    stage: DownloadStage,
    total_files: usize,
    event: DownloadEvent,
)
    requires
        stage_valid(stage, total_files),
    ensures
        stage_valid(first_stage(total_files), total_files),
        stage_valid(download_next(stage, total_files, event), total_files),
{
}

/// A file is fetched at most `MAX_RETRIES` times: after the last failed
/// attempt the download gives up, and a file found on disk is never
/// fetched.
pub proof fn law_retries_bounded(file: usize, total_files: usize, attempt: u32)
    requires
        attempt < MAX_RETRIES,
    ensures
        attempt + 1 == MAX_RETRIES ==> download_next(
            DownloadStage::Fetch { file, attempt },
            total_files,
            DownloadEvent::Attempted { ok: false },
        ) == DownloadStage::GiveUp,
        download_next(
            DownloadStage::Check { file },
            total_files,
            DownloadEvent::Checked { present: true },
        ) == (DownloadStage::Skip { file }),
{
}

/// Files are taken in order: once file `file` is skipped or installed, the
/// download moves to the next file, or is done after the last.
pub proof fn law_files_in_order(file: usize, total_files: usize)
    requires
        file < total_files,
    ensures
        download_next(DownloadStage::Skip { file }, total_files, DownloadEvent::Performed)
            == download_next(DownloadStage::Install { file }, total_files, DownloadEvent::Performed),
        file + 1 < total_files ==> download_next(
            DownloadStage::Skip { file },
            total_files,
            DownloadEvent::Performed,
        ) == (DownloadStage::Check { file: (file + 1) as usize }),
        file + 1 == total_files ==> download_next(
            DownloadStage::Skip { file },
            total_files,
            DownloadEvent::Performed,
        ) == DownloadStage::Done,
{
}

/// The message of a download answered with an HTTP error; `status_text` is
/// the status as the HTTP client displays it.
pub fn download_failed_message(file_name: &str, status_text: &str) -> (r: String)
    ensures
        r@ == DOWNLOAD_FAILED_PREFIX@ + file_name@ + DOWNLOAD_FAILED_MIDDLE@ + status_text@,
{
    let a = concat3(DOWNLOAD_FAILED_PREFIX, file_name, DOWNLOAD_FAILED_MIDDLE);
    concat2(a.as_str(), status_text)
}

/// The progress reported for a file that is already on disk: complete at
/// its catalog size.
pub fn present_file_progress(
    model_id: &str,
    file_name: &str,
    size_bytes: u64,
    file_index: usize,
    total_files: usize,
) -> (p: DownloadProgress)
    ensures
        p.model_id@ == model_id@,
        p.file_name@ == file_name@,
        p.downloaded_bytes == size_bytes,
        p.total_bytes == size_bytes,
        p.file_index == file_index,
        p.total_files == total_files,
{
    DownloadProgress {
        model_id: owned(model_id),
        file_name: owned(file_name),
        downloaded_bytes: size_bytes,
        total_bytes: size_bytes,
        file_index,
        total_files,
    }
}


pub const ZIPFORMER_NOT_WIRED: &'static str = "ZipformerCtc backend not yet wired up";

/// The files, relative to the model's directory, that model `m`'s backend
/// is built from, in the order the backend takes them; `None` for a backend
/// that cannot be built.
pub open spec fn backend_files(m: ModelView) -> Option<Seq<Seq<char>>> {
    match m.backend {
        BackendKind::Whisper => Some(seq![m.files[0].relative_path]),
        BackendKind::SenseVoice => Some(seq![FILE_MODEL_INT8_ONNX@, FILE_TOKENS_TXT@]),
        BackendKind::Paraformer => Some(seq![FILE_MODEL_INT8_ONNX@, FILE_TOKENS_TXT@]),
        BackendKind::Moonshine => Some(
            seq![
                FILE_PREPROCESS_ONNX@,
                FILE_ENCODE_INT8_ONNX@,
                FILE_UNCACHED_DECODE_INT8_ONNX@,
                FILE_CACHED_DECODE_INT8_ONNX@,
                FILE_TOKENS_TXT@,
            ],
        ),
        BackendKind::FireRedAsr => Some(
            seq![FILE_ENCODER_INT8_ONNX@, FILE_DECODER_INT8_ONNX@, FILE_TOKENS_TXT@],
        ),
        BackendKind::ZipformerCtc => None,
    }
}

/// The backend of a set of paths.
pub open spec fn paths_backend(p: BackendPaths) -> BackendKind {
    match p {
        BackendPaths::Whisper(..) => BackendKind::Whisper,
        BackendPaths::SenseVoice(..) => BackendKind::SenseVoice,
        BackendPaths::Paraformer(..) => BackendKind::Paraformer,
        BackendPaths::Moonshine(..) => BackendKind::Moonshine,
        BackendPaths::FireRedAsr(..) => BackendKind::FireRedAsr,
    }
}

/// The paths, in order.
pub open spec fn paths_list(p: BackendPaths) -> Seq<Seq<char>> {
    match p {
        BackendPaths::Whisper(a) => seq![a@],
        BackendPaths::SenseVoice(a, b) => seq![a@, b@],
        BackendPaths::Paraformer(a, b) => seq![a@, b@],
        BackendPaths::Moonshine(a, b, c, d, e) => seq![a@, b@, c@, d@, e@],
        BackendPaths::FireRedAsr(a, b, c) => seq![a@, b@, c@],
    }
}

/// The files of model `id` under the system configuration directory `base`.
pub open spec fn files_under(base: Seq<char>, id: Seq<char>, files: Seq<Seq<char>>) -> Seq<
    Seq<char>,
> {
    files.map_values(|f: Seq<char>| model_file_under(base, id, f))
}

/// The paths the backend of catalog model `m` (with id `model_id`) is
/// built from.
pub fn backend_paths(model_id: &str, m: &ModelInfo) -> (r: Result<BackendPaths, AppError>)
    requires
        lookup(model_id@) == Some(m@),
    ensures
        match backend_files(m@) {
            None => r matches Err(e) && e is Whisper && e.text() == ZIPFORMER_NOT_WIRED@,
            Some(files) => match r {
                Ok(p) => paths_backend(p) == m@.backend && exists|b: Seq<char>|
                    paths_list(p) == files_under(b, model_id@, files),
                Err(e) => e is Config && e.text() == NO_CONFIG_DIR@,
            },
        },
{
    match m.backend {
        BackendKind::Whisper => {
            match whisper_model_path(model_id) {
                Ok(p) => {
                    let r = BackendPaths::Whisper(p);
                    proof {
                        let files = backend_files(m@)->0;
                        let b = choose|b: Seq<char>|
                            p@ == model_file_under(b, model_id@, m@.files[0].relative_path);
                        assert(paths_list(r) =~= files_under(b, model_id@, files));
                    }
                    Ok(r)
                },
                Err(e) => Err(e),
            }
        },
        BackendKind::SenseVoice => {
            match sensevoice_model_paths(model_id) {
                Ok((a, t)) => {
                    let r = BackendPaths::SenseVoice(a, t);
                    proof {
                        let files = backend_files(m@)->0;
                        let b = choose|b: Seq<char>|
                            a@ == model_file_under(b, model_id@, FILE_MODEL_INT8_ONNX@) && t@
                                == model_file_under(b, model_id@, FILE_TOKENS_TXT@);
                        assert(paths_list(r) =~= files_under(b, model_id@, files));
                    }
                    Ok(r)
                },
                Err(e) => Err(e),
            }
        },
        BackendKind::Paraformer => {
            match paraformer_model_paths(model_id) {
                Ok((a, t)) => {
                    let r = BackendPaths::Paraformer(a, t);
                    proof {
                        let files = backend_files(m@)->0;
                        let b = choose|b: Seq<char>|
                            a@ == model_file_under(b, model_id@, FILE_MODEL_INT8_ONNX@) && t@
                                == model_file_under(b, model_id@, FILE_TOKENS_TXT@);
                        assert(paths_list(r) =~= files_under(b, model_id@, files));
                    }
                    Ok(r)
                },
                Err(e) => Err(e),
            }
        },
        BackendKind::Moonshine => {
            match moonshine_model_paths(model_id) {
                Ok((p, e, u, c, t)) => {
                    let r = BackendPaths::Moonshine(p, e, u, c, t);
                    proof {
                        let files = backend_files(m@)->0;
                        let b = choose|b: Seq<char>|
                            {
                                &&& p@ == model_file_under(b, model_id@, FILE_PREPROCESS_ONNX@)
                                &&& e@ == model_file_under(b, model_id@, FILE_ENCODE_INT8_ONNX@)
                                &&& u@ == model_file_under(
                                    b,
                                    model_id@,
                                    FILE_UNCACHED_DECODE_INT8_ONNX@,
                                )
                                &&& c@ == model_file_under(
                                    b,
                                    model_id@,
                                    FILE_CACHED_DECODE_INT8_ONNX@,
                                )
                                &&& t@ == model_file_under(b, model_id@, FILE_TOKENS_TXT@)
                            };
                        assert(paths_list(r) =~= files_under(b, model_id@, files));
                    }
                    Ok(r)
                },
                Err(e) => Err(e),
            }
        },
        BackendKind::FireRedAsr => {
            match fire_red_asr_model_paths(model_id) {
                Ok((e, d, t)) => {
                    let r = BackendPaths::FireRedAsr(e, d, t);
                    proof {
                        let files = backend_files(m@)->0;
                        let b = choose|b: Seq<char>|
                            {
                                &&& e@ == model_file_under(b, model_id@, FILE_ENCODER_INT8_ONNX@)
                                &&& d@ == model_file_under(b, model_id@, FILE_DECODER_INT8_ONNX@)
                                &&& t@ == model_file_under(b, model_id@, FILE_TOKENS_TXT@)
                            };
                        assert(paths_list(r) =~= files_under(b, model_id@, files));
                    }
                    Ok(r)
                },
                Err(e) => Err(e),
            }
        },
        BackendKind::ZipformerCtc => Err(AppError::Whisper(owned(ZIPFORMER_NOT_WIRED))),
    }
}
} // verus!
