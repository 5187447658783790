//! The catalog of downloadable speech-to-text models and the queries over it:
//! lookup by id, per-language recommendations, switch suggestions, and the
//! rewriting of download URLs for a mirror of the model host.
use vstd::prelude::*;

use crate::text::{
    chars_eq_str, chars_of, replace_first, replace_first_exec, string_of, sub_chars,
};

verus! {

/// Which inference backend a model runs on.
#[derive(Debug, Clone, Copy, PartialEq, Eq, Structural)]
pub enum BackendKind {
    Whisper,
    SenseVoice,
    Paraformer,
    Moonshine,
    FireRedAsr,
    ZipformerCtc,
}

/// A file that has to be downloaded for a model.
#[derive(Debug, Clone)]
pub struct ModelFile {
    /// Path inside the model's directory.
    pub relative_path: &'static str,
    /// Where the file is downloaded from.
    pub url: &'static str,
    /// Expected size in bytes, used for progress.
    pub size_bytes: u64,
    /// SHA-1 digest published by the host, where known.
    pub sha1: Option<&'static str>,
}

/// Static description of a downloadable model.
#[derive(Debug, Clone)]
pub struct ModelInfo {
    pub id: &'static str,
    pub display_name: &'static str,
    pub description: &'static str,
    pub backend: BackendKind,
    pub total_size_bytes: u64,
    pub size_display: &'static str,
    pub files: Vec<ModelFile>,
    /// Language codes the model is recommended for.
    pub best_for_languages: Vec<&'static str>,
    /// Why the model is suggested, shown with the suggestion.
    pub recommendation_reason: &'static str,
}

/// A model as listed to the settings screen.
#[derive(Debug, Clone)]
pub struct ModelInfoDto {
    pub id: String,
    pub display_name: String,
    pub description: String,
    pub backend: BackendKind,
    pub total_size_bytes: u64,
    pub size_display: String,
    pub best_for_languages: Vec<String>,
    pub is_downloaded: bool,
    pub is_active: bool,
}

/// The mathematical content of a `ModelFile`.
pub struct FileView {
    pub relative_path: Seq<char>,
    pub url: Seq<char>,
    pub size_bytes: u64,
    pub sha1: Option<Seq<char>>,
}

/// The mathematical content of a `ModelInfo`.
pub struct ModelView {
    pub id: Seq<char>,
    pub display_name: Seq<char>,
    pub description: Seq<char>,
    pub backend: BackendKind,
    pub total_size_bytes: u64,
    pub size_display: Seq<char>,
    pub files: Seq<FileView>,
    pub best_for_languages: Seq<Seq<char>>,
    pub recommendation_reason: Seq<char>,
}

impl View for ModelFile {
    type V = FileView;

    open spec fn view(&self) -> FileView {
        FileView {
            relative_path: self.relative_path@,
            url: self.url@,
            size_bytes: self.size_bytes,
            sha1: match self.sha1 {
                Some(s) => Some(s@),
                None => None,
            },
        }
    }
}

impl View for ModelInfo {
    type V = ModelView;

    open spec fn view(&self) -> ModelView {
        ModelView {
            id: self.id@,
            display_name: self.display_name@,
            description: self.description@,
            backend: self.backend,
            total_size_bytes: self.total_size_bytes,
            size_display: self.size_display@,
            files: self.files@.map_values(|f: ModelFile| f@),
            best_for_languages: self.best_for_languages@.map_values(|s: &'static str| s@),
            recommendation_reason: self.recommendation_reason@,
        }
    }
}

pub const MODEL_COUNT: usize = 11;

pub const DEFAULT_HF_ENDPOINT: &'static str = "https://huggingface.co";

pub const FILE_CACHED_DECODE_INT8_ONNX: &'static str = "cached_decode.int8.onnx";

pub const FILE_DECODER_INT8_ONNX: &'static str = "decoder.int8.onnx";

pub const FILE_ENCODE_INT8_ONNX: &'static str = "encode.int8.onnx";

pub const FILE_ENCODER_INT8_ONNX: &'static str = "encoder.int8.onnx";

pub const FILE_GGML_BASE_BIN: &'static str = "ggml-base.bin";

pub const FILE_GGML_LARGE_V3_TURBO_Q5_0_BIN: &'static str = "ggml-large-v3-turbo-q5_0.bin";

pub const FILE_GGML_LARGE_V3_TURBO_BIN: &'static str = "ggml-large-v3-turbo.bin";

pub const FILE_GGML_LARGE_V3_BIN: &'static str = "ggml-large-v3.bin";

pub const FILE_GGML_MEDIUM_BIN: &'static str = "ggml-medium.bin";

pub const FILE_GGML_SMALL_BIN: &'static str = "ggml-small.bin";

pub const FILE_MODEL_INT8_ONNX: &'static str = "model.int8.onnx";

pub const FILE_PREPROCESS_ONNX: &'static str = "preprocess.onnx";

pub const FILE_TOKENS_TXT: &'static str = "tokens.txt";

pub const FILE_UNCACHED_DECODE_INT8_ONNX: &'static str = "uncached_decode.int8.onnx";

pub const LANG_AUTO: &'static str = "auto";

pub const LANG_DE: &'static str = "de";

pub const LANG_EN: &'static str = "en";

pub const LANG_ES: &'static str = "es";

pub const LANG_FR: &'static str = "fr";

pub const LANG_JA: &'static str = "ja";

pub const LANG_KO: &'static str = "ko";

pub const LANG_RU: &'static str = "ru";

pub const LANG_YUE: &'static str = "yue";

pub const LANG_ZH: &'static str = "zh";

pub const WHISPER_BASE_ID: &'static str = "whisper-base";

pub const WHISPER_BASE_NAME: &'static str = "Whisper Base";

pub const WHISPER_BASE_DESCRIPTION: &'static str = "优点：体积最小、速度最快的 Whisper 模型，适合日常轻量使用\n缺点：准确率在 Whisper 系列中最低，中文识别易出错，不适合专业场景";

pub const WHISPER_BASE_SIZE: &'static str = "142 MB";

pub const WHISPER_BASE_REASON: &'static str = "";

pub const WHISPER_BASE_FILE0_URL: &'static str = "https://huggingface.co/ggerganov/whisper.cpp/resolve/main/ggml-base.bin";

pub const WHISPER_BASE_FILE0_SHA1: &'static str = "465707469ff3a37a2b9b8d8f89f2f99de7299dac";

pub const WHISPER_SMALL_ID: &'static str = "whisper-small";

pub const WHISPER_SMALL_NAME: &'static str = "Whisper Small";

pub const WHISPER_SMALL_DESCRIPTION: &'static str = "优点：精度比 Base 显著提升，支持 99 种语言，中英文均衡，性价比高\n缺点：体积比 Base 大 3 倍，推理速度较慢，不如专用模型精准";

pub const WHISPER_SMALL_SIZE: &'static str = "466 MB";

pub const WHISPER_SMALL_REASON: &'static str = "";

pub const WHISPER_SMALL_FILE0_URL: &'static str = "https://huggingface.co/ggerganov/whisper.cpp/resolve/main/ggml-small.bin";

pub const WHISPER_MEDIUM_ID: &'static str = "whisper-medium";

pub const WHISPER_MEDIUM_NAME: &'static str = "Whisper Medium";

pub const WHISPER_MEDIUM_DESCRIPTION: &'static str = "优点：多语言转录精度优秀，中英混合语音表现好\n缺点：体积 1.4 GB 较大，推理速度偏慢，Mac 上可能有明显延迟";

pub const WHISPER_MEDIUM_SIZE: &'static str = "1.4 GB";

pub const WHISPER_MEDIUM_REASON: &'static str = "";

pub const WHISPER_MEDIUM_FILE0_URL: &'static str = "https://huggingface.co/ggerganov/whisper.cpp/resolve/main/ggml-medium.bin";

pub const WHISPER_LARGE_V3_ID: &'static str = "whisper-large-v3";

pub const WHISPER_LARGE_V3_NAME: &'static str = "Whisper Large v3";

pub const WHISPER_LARGE_V3_DESCRIPTION: &'static str = "优点：Whisper 最大最精准模型，支持 99 种语言，准确率最高\n缺点：体积 2.9 GB，推理速度最慢，实时语音输入可能有较长等待";

pub const WHISPER_LARGE_V3_SIZE: &'static str = "2.9 GB";

pub const WHISPER_LARGE_V3_REASON: &'static str = "该语言下 Whisper Large v3 准确率最高";

pub const WHISPER_LARGE_V3_FILE0_URL: &'static str = "https://huggingface.co/ggerganov/whisper.cpp/resolve/main/ggml-large-v3.bin";

pub const WHISPER_LARGE_V3_TURBO_ID: &'static str = "whisper-large-v3-turbo";

pub const WHISPER_LARGE_V3_TURBO_NAME: &'static str = "Whisper Large v3 Turbo";

pub const WHISPER_LARGE_V3_TURBO_DESCRIPTION: &'static str = "优点：Large v3 的加速版，速度提升数倍但精度接近原版，英语表现优秀\n缺点：体积仍有 1.5 GB，小语种精度不如完整 Large v3";

pub const WHISPER_LARGE_V3_TURBO_SIZE: &'static str = "1.5 GB";

pub const WHISPER_LARGE_V3_TURBO_REASON: &'static str = "英文识别精度最高，速度比 Large v3 快数倍";

pub const WHISPER_LARGE_V3_TURBO_FILE0_URL: &'static str = "https://huggingface.co/ggerganov/whisper.cpp/resolve/main/ggml-large-v3-turbo.bin";

pub const WHISPER_LARGE_V3_TURBO_FILE0_SHA1: &'static str = "4af2b29d7ec73d781377bfd1758ca957a807e941";

pub const WHISPER_LARGE_V3_TURBO_Q5_ID: &'static str = "whisper-large-v3-turbo-q5";

pub const WHISPER_LARGE_V3_TURBO_Q5_NAME: &'static str = "Whisper Large v3 Turbo (Q5)";

pub const WHISPER_LARGE_V3_TURBO_Q5_DESCRIPTION: &'static str = "优点：Large v3 Turbo 的 5-bit 量化版，体积仅为原版 1/3，精度损失极小\n缺点：量化可能导致极少数场景下转录异常，整体仍是性价比之选";

pub const WHISPER_LARGE_V3_TURBO_Q5_SIZE: &'static str = "547 MB";

pub const WHISPER_LARGE_V3_TURBO_Q5_REASON: &'static str = "";

pub const WHISPER_LARGE_V3_TURBO_Q5_FILE0_URL: &'static str = "https://huggingface.co/ggerganov/whisper.cpp/resolve/main/ggml-large-v3-turbo-q5_0.bin";

pub const WHISPER_LARGE_V3_TURBO_Q5_FILE0_SHA1: &'static str = "e050f7970618a659205450ad97eb95a18d69c9ee";

pub const SENSEVOICE_SMALL_ID: &'static str = "sensevoice-small";

pub const SENSEVOICE_SMALL_NAME: &'static str = "SenseVoice Small";

pub const SENSEVOICE_SMALL_DESCRIPTION: &'static str = "优点：阿里出品，中日韩语音识别最佳，推理极快（RTF<0.1），自动添加标点\n缺点：英文及其他欧洲语言精度不如 Whisper，仅支持中日韩英粤 5 种语言";

pub const SENSEVOICE_SMALL_SIZE: &'static str = "228 MB";

pub const SENSEVOICE_SMALL_REASON: &'static str = "中日韩语识别精度远超 Whisper，推理速度快且自动添加标点";

pub const SENSEVOICE_SMALL_FILE0_URL: &'static str = "https://huggingface.co/csukuangfj/sherpa-onnx-sense-voice-zh-en-ja-ko-yue-2024-07-17/resolve/main/model.int8.onnx";

pub const SENSEVOICE_SMALL_FILE1_URL: &'static str = "https://huggingface.co/csukuangfj/sherpa-onnx-sense-voice-zh-en-ja-ko-yue-2024-07-17/resolve/main/tokens.txt";

pub const PARAFORMER_ZH_ID: &'static str = "paraformer-zh";

pub const PARAFORMER_ZH_NAME: &'static str = "Paraformer 中文";

pub const PARAFORMER_ZH_DESCRIPTION: &'static str = "优点：阿里出品，非自回归架构推理极快（RTF<0.07），中文识别精度高\n缺点：仅支持中文，不适合英文或其他语言用户";

pub const PARAFORMER_ZH_SIZE: &'static str = "217 MB";

pub const PARAFORMER_ZH_REASON: &'static str = "中文专用，推理速度极快（RTF<0.07），精度高";

pub const PARAFORMER_ZH_FILE0_URL: &'static str = "https://huggingface.co/csukuangfj/sherpa-onnx-paraformer-zh-2024-03-09/resolve/main/model.int8.onnx";

pub const PARAFORMER_ZH_FILE1_URL: &'static str = "https://huggingface.co/csukuangfj/sherpa-onnx-paraformer-zh-2024-03-09/resolve/main/tokens.txt";

pub const PARAFORMER_TRILINGUAL_ID: &'static str = "paraformer-trilingual";

pub const PARAFORMER_TRILINGUAL_NAME: &'static str = "Paraformer 中英粤";

pub const PARAFORMER_TRILINGUAL_DESCRIPTION: &'static str = "优点：支持中英粤 3 语言，中英代码切换无障碍，阿里出品，推理快\n缺点：体积比 Paraformer 中文版大 15%，纯中文场景精度与其接近，无优势";

pub const PARAFORMER_TRILINGUAL_SIZE: &'static str = "234 MB";

pub const PARAFORMER_TRILINGUAL_REASON: &'static str = "粤语识别唯一可用模型，同时支持中英混合";

pub const PARAFORMER_TRILINGUAL_FILE0_URL: &'static str = "https://huggingface.co/csukuangfj/sherpa-onnx-paraformer-trilingual-zh-cantonese-en/resolve/main/model.int8.onnx";

pub const PARAFORMER_TRILINGUAL_FILE1_URL: &'static str = "https://huggingface.co/csukuangfj/sherpa-onnx-paraformer-trilingual-zh-cantonese-en/resolve/main/tokens.txt";

pub const FIRE_RED_ASR_V1_ID: &'static str = "fire-red-asr-v1";

pub const FIRE_RED_ASR_V1_NAME: &'static str = "FireRedASR Large v1";

pub const FIRE_RED_ASR_V1_DESCRIPTION: &'static str = "优点：小红书开源的中文 ASR SOTA，AED 架构精度极高，中文 CER 逼近 2%\n缺点：体积 1.74 GB 极大，首次下载耗时长，推理速度不如非自回归模型";

pub const FIRE_RED_ASR_V1_SIZE: &'static str = "1.74 GB";

pub const FIRE_RED_ASR_V1_REASON: &'static str = "";

pub const FIRE_RED_ASR_V1_FILE0_URL: &'static str = "https://huggingface.co/csukuangfj/sherpa-onnx-fire-red-asr-large-zh_en-2025-02-16/resolve/main/encoder.int8.onnx";

pub const FIRE_RED_ASR_V1_FILE1_URL: &'static str = "https://huggingface.co/csukuangfj/sherpa-onnx-fire-red-asr-large-zh_en-2025-02-16/resolve/main/decoder.int8.onnx";

pub const FIRE_RED_ASR_V1_FILE2_URL: &'static str = "https://huggingface.co/csukuangfj/sherpa-onnx-fire-red-asr-large-zh_en-2025-02-16/resolve/main/tokens.txt";

pub const MOONSHINE_BASE_EN_ID: &'static str = "moonshine-base-en";

pub const MOONSHINE_BASE_EN_NAME: &'static str = "Moonshine Base (EN)";

pub const MOONSHINE_BASE_EN_DESCRIPTION: &'static str = "优点：专为实时语音设计，推理速度约为 Whisper 的 5 倍（RTF<0.05），英文精度好\n缺点：仅支持英文，不适合中文或其他语言用户";

pub const MOONSHINE_BASE_EN_SIZE: &'static str = "274 MB";

pub const MOONSHINE_BASE_EN_REASON: &'static str = "英文专用，推理速度约为 Whisper 的 5 倍";

pub const MOONSHINE_BASE_EN_FILE0_URL: &'static str = "https://huggingface.co/csukuangfj/sherpa-onnx-moonshine-base-en-int8/resolve/main/preprocess.onnx";

pub const MOONSHINE_BASE_EN_FILE1_URL: &'static str = "https://huggingface.co/csukuangfj/sherpa-onnx-moonshine-base-en-int8/resolve/main/encode.int8.onnx";

pub const MOONSHINE_BASE_EN_FILE2_URL: &'static str = "https://huggingface.co/csukuangfj/sherpa-onnx-moonshine-base-en-int8/resolve/main/uncached_decode.int8.onnx";

pub const MOONSHINE_BASE_EN_FILE3_URL: &'static str = "https://huggingface.co/csukuangfj/sherpa-onnx-moonshine-base-en-int8/resolve/main/cached_decode.int8.onnx";

pub const MOONSHINE_BASE_EN_FILE4_URL: &'static str = "https://huggingface.co/csukuangfj/sherpa-onnx-moonshine-base-en-int8/resolve/main/tokens.txt";

/// The catalog entry of `whisper-base`.
pub open spec fn whisper_base_view() -> ModelView {
    ModelView {
        id: WHISPER_BASE_ID@,
        display_name: WHISPER_BASE_NAME@,
        description: WHISPER_BASE_DESCRIPTION@,
        backend: BackendKind::Whisper,
        total_size_bytes: 148_000_000,
        size_display: WHISPER_BASE_SIZE@,
        files: seq![FileView { relative_path: FILE_GGML_BASE_BIN@, url: WHISPER_BASE_FILE0_URL@, size_bytes: 148_000_000, sha1: Some(WHISPER_BASE_FILE0_SHA1@) }],
        best_for_languages: seq![],
        recommendation_reason: WHISPER_BASE_REASON@,
    }
}

/// The catalog entry of `whisper-small`.
pub open spec fn whisper_small_view() -> ModelView {
    ModelView {
        id: WHISPER_SMALL_ID@,
        display_name: WHISPER_SMALL_NAME@,
        description: WHISPER_SMALL_DESCRIPTION@,
        backend: BackendKind::Whisper,
        total_size_bytes: 488_636_416,
        size_display: WHISPER_SMALL_SIZE@,
        files: seq![FileView { relative_path: FILE_GGML_SMALL_BIN@, url: WHISPER_SMALL_FILE0_URL@, size_bytes: 488_636_416, sha1: None }],
        best_for_languages: seq![],
        recommendation_reason: WHISPER_SMALL_REASON@,
    }
}

/// The catalog entry of `whisper-medium`.
pub open spec fn whisper_medium_view() -> ModelView {
    ModelView {
        id: WHISPER_MEDIUM_ID@,
        display_name: WHISPER_MEDIUM_NAME@,
        description: WHISPER_MEDIUM_DESCRIPTION@,
        backend: BackendKind::Whisper,
        total_size_bytes: 1_533_774_848,
        size_display: WHISPER_MEDIUM_SIZE@,
        files: seq![FileView { relative_path: FILE_GGML_MEDIUM_BIN@, url: WHISPER_MEDIUM_FILE0_URL@, size_bytes: 1_533_774_848, sha1: None }],
        best_for_languages: seq![],
        recommendation_reason: WHISPER_MEDIUM_REASON@,
    }
}

/// The catalog entry of `whisper-large-v3`.
pub open spec fn whisper_large_v3_view() -> ModelView {
    ModelView {
        id: WHISPER_LARGE_V3_ID@,
        display_name: WHISPER_LARGE_V3_NAME@,
        description: WHISPER_LARGE_V3_DESCRIPTION@,
        backend: BackendKind::Whisper,
        total_size_bytes: 3_094_623_232,
        size_display: WHISPER_LARGE_V3_SIZE@,
        files: seq![FileView { relative_path: FILE_GGML_LARGE_V3_BIN@, url: WHISPER_LARGE_V3_FILE0_URL@, size_bytes: 3_094_623_232, sha1: None }],
        best_for_languages: seq![LANG_AUTO@, LANG_FR@, LANG_DE@, LANG_ES@, LANG_RU@],
        recommendation_reason: WHISPER_LARGE_V3_REASON@,
    }
}

/// The catalog entry of `whisper-large-v3-turbo`.
pub open spec fn whisper_large_v3_turbo_view() -> ModelView {
    ModelView {
        id: WHISPER_LARGE_V3_TURBO_ID@,
        display_name: WHISPER_LARGE_V3_TURBO_NAME@,
        description: WHISPER_LARGE_V3_TURBO_DESCRIPTION@,
        backend: BackendKind::Whisper,
        total_size_bytes: 1_620_000_000,
        size_display: WHISPER_LARGE_V3_TURBO_SIZE@,
        files: seq![FileView { relative_path: FILE_GGML_LARGE_V3_TURBO_BIN@, url: WHISPER_LARGE_V3_TURBO_FILE0_URL@, size_bytes: 1_620_000_000, sha1: Some(WHISPER_LARGE_V3_TURBO_FILE0_SHA1@) }],
        best_for_languages: seq![LANG_EN@],
        recommendation_reason: WHISPER_LARGE_V3_TURBO_REASON@,
    }
}

/// The catalog entry of `whisper-large-v3-turbo-q5`.
pub open spec fn whisper_large_v3_turbo_q5_view() -> ModelView {
    ModelView {
        id: WHISPER_LARGE_V3_TURBO_Q5_ID@,
        display_name: WHISPER_LARGE_V3_TURBO_Q5_NAME@,
        description: WHISPER_LARGE_V3_TURBO_Q5_DESCRIPTION@,
        backend: BackendKind::Whisper,
        total_size_bytes: 574_000_000,
        size_display: WHISPER_LARGE_V3_TURBO_Q5_SIZE@,
        files: seq![FileView { relative_path: FILE_GGML_LARGE_V3_TURBO_Q5_0_BIN@, url: WHISPER_LARGE_V3_TURBO_Q5_FILE0_URL@, size_bytes: 574_000_000, sha1: Some(WHISPER_LARGE_V3_TURBO_Q5_FILE0_SHA1@) }],
        best_for_languages: seq![],
        recommendation_reason: WHISPER_LARGE_V3_TURBO_Q5_REASON@,
    }
}

/// The catalog entry of `sensevoice-small`.
pub open spec fn sensevoice_small_view() -> ModelView {
    ModelView {
        id: SENSEVOICE_SMALL_ID@,
        display_name: SENSEVOICE_SMALL_NAME@,
        description: SENSEVOICE_SMALL_DESCRIPTION@,
        backend: BackendKind::SenseVoice,
        total_size_bytes: 239_316_000,
        size_display: SENSEVOICE_SMALL_SIZE@,
        files: seq![FileView { relative_path: FILE_MODEL_INT8_ONNX@, url: SENSEVOICE_SMALL_FILE0_URL@, size_bytes: 239_000_000, sha1: None }, FileView { relative_path: FILE_TOKENS_TXT@, url: SENSEVOICE_SMALL_FILE1_URL@, size_bytes: 316_000, sha1: None }],
        best_for_languages: seq![LANG_ZH@, LANG_JA@, LANG_KO@],
        recommendation_reason: SENSEVOICE_SMALL_REASON@,
    }
}

/// The catalog entry of `paraformer-zh`.
pub open spec fn paraformer_zh_view() -> ModelView {
    ModelView {
        id: PARAFORMER_ZH_ID@,
        display_name: PARAFORMER_ZH_NAME@,
        description: PARAFORMER_ZH_DESCRIPTION@,
        backend: BackendKind::Paraformer,
        total_size_bytes: 227_405_559,
        size_display: PARAFORMER_ZH_SIZE@,
        files: seq![FileView { relative_path: FILE_MODEL_INT8_ONNX@, url: PARAFORMER_ZH_FILE0_URL@, size_bytes: 227_330_205, sha1: None }, FileView { relative_path: FILE_TOKENS_TXT@, url: PARAFORMER_ZH_FILE1_URL@, size_bytes: 75_354, sha1: None }],
        best_for_languages: seq![LANG_ZH@],
        recommendation_reason: PARAFORMER_ZH_REASON@,
    }
}

/// The catalog entry of `paraformer-trilingual`.
pub open spec fn paraformer_trilingual_view() -> ModelView {
    ModelView {
        id: PARAFORMER_TRILINGUAL_ID@,
        display_name: PARAFORMER_TRILINGUAL_NAME@,
        description: PARAFORMER_TRILINGUAL_DESCRIPTION@,
        backend: BackendKind::Paraformer,
        total_size_bytes: 245_119_000,
        size_display: PARAFORMER_TRILINGUAL_SIZE@,
        files: seq![FileView { relative_path: FILE_MODEL_INT8_ONNX@, url: PARAFORMER_TRILINGUAL_FILE0_URL@, size_bytes: 245_000_000, sha1: None }, FileView { relative_path: FILE_TOKENS_TXT@, url: PARAFORMER_TRILINGUAL_FILE1_URL@, size_bytes: 119_000, sha1: None }],
        best_for_languages: seq![LANG_YUE@],
        recommendation_reason: PARAFORMER_TRILINGUAL_REASON@,
    }
}

/// The catalog entry of `fire-red-asr-v1`.
pub open spec fn fire_red_asr_v1_view() -> ModelView {
    ModelView {
        id: FIRE_RED_ASR_V1_ID@,
        display_name: FIRE_RED_ASR_V1_NAME@,
        description: FIRE_RED_ASR_V1_DESCRIPTION@,
        backend: BackendKind::FireRedAsr,
        total_size_bytes: 1_735_071_400,
        size_display: FIRE_RED_ASR_V1_SIZE@,
        files: seq![FileView { relative_path: FILE_ENCODER_INT8_ONNX@, url: FIRE_RED_ASR_V1_FILE0_URL@, size_bytes: 1_290_000_000, sha1: None }, FileView { relative_path: FILE_DECODER_INT8_ONNX@, url: FIRE_RED_ASR_V1_FILE1_URL@, size_bytes: 445_000_000, sha1: None }, FileView { relative_path: FILE_TOKENS_TXT@, url: FIRE_RED_ASR_V1_FILE2_URL@, size_bytes: 71_400, sha1: None }],
        best_for_languages: seq![],
        recommendation_reason: FIRE_RED_ASR_V1_REASON@,
    }
}

/// The catalog entry of `moonshine-base-en`.
pub open spec fn moonshine_base_en_view() -> ModelView {
    ModelView {
        id: MOONSHINE_BASE_EN_ID@,
        display_name: MOONSHINE_BASE_EN_NAME@,
        description: MOONSHINE_BASE_EN_DESCRIPTION@,
        backend: BackendKind::Moonshine,
        total_size_bytes: 286_929_760,
        size_display: MOONSHINE_BASE_EN_SIZE@,
        files: seq![FileView { relative_path: FILE_PREPROCESS_ONNX@, url: MOONSHINE_BASE_EN_FILE0_URL@, size_bytes: 14_077_290, sha1: None }, FileView { relative_path: FILE_ENCODE_INT8_ONNX@, url: MOONSHINE_BASE_EN_FILE1_URL@, size_bytes: 50_311_494, sha1: None }, FileView { relative_path: FILE_UNCACHED_DECODE_INT8_ONNX@, url: MOONSHINE_BASE_EN_FILE2_URL@, size_bytes: 122_120_451, sha1: None }, FileView { relative_path: FILE_CACHED_DECODE_INT8_ONNX@, url: MOONSHINE_BASE_EN_FILE3_URL@, size_bytes: 99_983_837, sha1: None }, FileView { relative_path: FILE_TOKENS_TXT@, url: MOONSHINE_BASE_EN_FILE4_URL@, size_bytes: 436_688, sha1: None }],
        best_for_languages: seq![LANG_EN@],
        recommendation_reason: MOONSHINE_BASE_EN_REASON@,
    }
}

pub open spec fn catalog() -> Seq<ModelView> {
    seq![
        whisper_base_view(),
        whisper_small_view(),
        whisper_medium_view(),
        whisper_large_v3_view(),
        whisper_large_v3_turbo_view(),
        whisper_large_v3_turbo_q5_view(),
        sensevoice_small_view(),
        paraformer_zh_view(),
        paraformer_trilingual_view(),
        fire_red_asr_v1_view(),
        moonshine_base_en_view(),
    ]
}

fn whisper_base() -> (m: ModelInfo)
    ensures
        m@ == whisper_base_view(),
{
    let m = ModelInfo {
        id: WHISPER_BASE_ID,
        display_name: WHISPER_BASE_NAME,
        description: WHISPER_BASE_DESCRIPTION,
        backend: BackendKind::Whisper,
        total_size_bytes: 148_000_000,
        size_display: WHISPER_BASE_SIZE,
        files: vec![ModelFile { relative_path: FILE_GGML_BASE_BIN, url: WHISPER_BASE_FILE0_URL, size_bytes: 148_000_000, sha1: Some(WHISPER_BASE_FILE0_SHA1) }],
        best_for_languages: vec![],
        recommendation_reason: WHISPER_BASE_REASON,
    };
    assert(m@.files =~= whisper_base_view().files);
    assert(m@.best_for_languages =~= whisper_base_view().best_for_languages);
    m
}

fn whisper_small() -> (m: ModelInfo)
    ensures
        m@ == whisper_small_view(),
{
    let m = ModelInfo {
        id: WHISPER_SMALL_ID,
        display_name: WHISPER_SMALL_NAME,
        description: WHISPER_SMALL_DESCRIPTION,
        backend: BackendKind::Whisper,
        total_size_bytes: 488_636_416,
        size_display: WHISPER_SMALL_SIZE,
        files: vec![ModelFile { relative_path: FILE_GGML_SMALL_BIN, url: WHISPER_SMALL_FILE0_URL, size_bytes: 488_636_416, sha1: None }],
        best_for_languages: vec![],
        recommendation_reason: WHISPER_SMALL_REASON,
    };
    assert(m@.files =~= whisper_small_view().files);
    assert(m@.best_for_languages =~= whisper_small_view().best_for_languages);
    m
}

fn whisper_medium() -> (m: ModelInfo)
    ensures
        m@ == whisper_medium_view(),
{
    let m = ModelInfo {
        id: WHISPER_MEDIUM_ID,
        display_name: WHISPER_MEDIUM_NAME,
        description: WHISPER_MEDIUM_DESCRIPTION,
        backend: BackendKind::Whisper,
        total_size_bytes: 1_533_774_848,
        size_display: WHISPER_MEDIUM_SIZE,
        files: vec![ModelFile { relative_path: FILE_GGML_MEDIUM_BIN, url: WHISPER_MEDIUM_FILE0_URL, size_bytes: 1_533_774_848, sha1: None }],
        best_for_languages: vec![],
        recommendation_reason: WHISPER_MEDIUM_REASON,
    };
    assert(m@.files =~= whisper_medium_view().files);
    assert(m@.best_for_languages =~= whisper_medium_view().best_for_languages);
    m
}

fn whisper_large_v3() -> (m: ModelInfo)
    ensures
        m@ == whisper_large_v3_view(),
{
    let m = ModelInfo {
        id: WHISPER_LARGE_V3_ID,
        display_name: WHISPER_LARGE_V3_NAME,
        description: WHISPER_LARGE_V3_DESCRIPTION,
        backend: BackendKind::Whisper,
        total_size_bytes: 3_094_623_232,
        size_display: WHISPER_LARGE_V3_SIZE,
        files: vec![ModelFile { relative_path: FILE_GGML_LARGE_V3_BIN, url: WHISPER_LARGE_V3_FILE0_URL, size_bytes: 3_094_623_232, sha1: None }],
        best_for_languages: vec![LANG_AUTO, LANG_FR, LANG_DE, LANG_ES, LANG_RU],
        recommendation_reason: WHISPER_LARGE_V3_REASON,
    };
    assert(m@.files =~= whisper_large_v3_view().files);
    assert(m@.best_for_languages =~= whisper_large_v3_view().best_for_languages);
    m
}

fn whisper_large_v3_turbo() -> (m: ModelInfo)
    ensures
        m@ == whisper_large_v3_turbo_view(),
{
    let m = ModelInfo {
        id: WHISPER_LARGE_V3_TURBO_ID,
        display_name: WHISPER_LARGE_V3_TURBO_NAME,
        description: WHISPER_LARGE_V3_TURBO_DESCRIPTION,
        backend: BackendKind::Whisper,
        total_size_bytes: 1_620_000_000,
        size_display: WHISPER_LARGE_V3_TURBO_SIZE,
        files: vec![ModelFile { relative_path: FILE_GGML_LARGE_V3_TURBO_BIN, url: WHISPER_LARGE_V3_TURBO_FILE0_URL, size_bytes: 1_620_000_000, sha1: Some(WHISPER_LARGE_V3_TURBO_FILE0_SHA1) }],
        best_for_languages: vec![LANG_EN],
        recommendation_reason: WHISPER_LARGE_V3_TURBO_REASON,
    };
    assert(m@.files =~= whisper_large_v3_turbo_view().files);
    assert(m@.best_for_languages =~= whisper_large_v3_turbo_view().best_for_languages);
    m
}

fn whisper_large_v3_turbo_q5() -> (m: ModelInfo)
    ensures
        m@ == whisper_large_v3_turbo_q5_view(),
{
    let m = ModelInfo {
        id: WHISPER_LARGE_V3_TURBO_Q5_ID,
        display_name: WHISPER_LARGE_V3_TURBO_Q5_NAME,
        description: WHISPER_LARGE_V3_TURBO_Q5_DESCRIPTION,
        backend: BackendKind::Whisper,
        total_size_bytes: 574_000_000,
        size_display: WHISPER_LARGE_V3_TURBO_Q5_SIZE,
        files: vec![ModelFile { relative_path: FILE_GGML_LARGE_V3_TURBO_Q5_0_BIN, url: WHISPER_LARGE_V3_TURBO_Q5_FILE0_URL, size_bytes: 574_000_000, sha1: Some(WHISPER_LARGE_V3_TURBO_Q5_FILE0_SHA1) }],
        best_for_languages: vec![],
        recommendation_reason: WHISPER_LARGE_V3_TURBO_Q5_REASON,
    };
    assert(m@.files =~= whisper_large_v3_turbo_q5_view().files);
    assert(m@.best_for_languages =~= whisper_large_v3_turbo_q5_view().best_for_languages);
    m
}

fn sensevoice_small() -> (m: ModelInfo)
    ensures
        m@ == sensevoice_small_view(),
{
    let m = ModelInfo {
        id: SENSEVOICE_SMALL_ID,
        display_name: SENSEVOICE_SMALL_NAME,
        description: SENSEVOICE_SMALL_DESCRIPTION,
        backend: BackendKind::SenseVoice,
        total_size_bytes: 239_316_000,
        size_display: SENSEVOICE_SMALL_SIZE,
        files: vec![ModelFile { relative_path: FILE_MODEL_INT8_ONNX, url: SENSEVOICE_SMALL_FILE0_URL, size_bytes: 239_000_000, sha1: None }, ModelFile { relative_path: FILE_TOKENS_TXT, url: SENSEVOICE_SMALL_FILE1_URL, size_bytes: 316_000, sha1: None }],
        best_for_languages: vec![LANG_ZH, LANG_JA, LANG_KO],
        recommendation_reason: SENSEVOICE_SMALL_REASON,
    };
    assert(m@.files =~= sensevoice_small_view().files);
    assert(m@.best_for_languages =~= sensevoice_small_view().best_for_languages);
    m
}

fn paraformer_zh() -> (m: ModelInfo)
    ensures
        m@ == paraformer_zh_view(),
{
    let m = ModelInfo {
        id: PARAFORMER_ZH_ID,
        display_name: PARAFORMER_ZH_NAME,
        description: PARAFORMER_ZH_DESCRIPTION,
        backend: BackendKind::Paraformer,
        total_size_bytes: 227_405_559,
        size_display: PARAFORMER_ZH_SIZE,
        files: vec![ModelFile { relative_path: FILE_MODEL_INT8_ONNX, url: PARAFORMER_ZH_FILE0_URL, size_bytes: 227_330_205, sha1: None }, ModelFile { relative_path: FILE_TOKENS_TXT, url: PARAFORMER_ZH_FILE1_URL, size_bytes: 75_354, sha1: None }],
        best_for_languages: vec![LANG_ZH],
        recommendation_reason: PARAFORMER_ZH_REASON,
    };
    assert(m@.files =~= paraformer_zh_view().files);
    assert(m@.best_for_languages =~= paraformer_zh_view().best_for_languages);
    m
}

fn paraformer_trilingual() -> (m: ModelInfo)
    ensures
        m@ == paraformer_trilingual_view(),
{
    let m = ModelInfo {
        id: PARAFORMER_TRILINGUAL_ID,
        display_name: PARAFORMER_TRILINGUAL_NAME,
        description: PARAFORMER_TRILINGUAL_DESCRIPTION,
        backend: BackendKind::Paraformer,
        total_size_bytes: 245_119_000,
        size_display: PARAFORMER_TRILINGUAL_SIZE,
        files: vec![ModelFile { relative_path: FILE_MODEL_INT8_ONNX, url: PARAFORMER_TRILINGUAL_FILE0_URL, size_bytes: 245_000_000, sha1: None }, ModelFile { relative_path: FILE_TOKENS_TXT, url: PARAFORMER_TRILINGUAL_FILE1_URL, size_bytes: 119_000, sha1: None }],
        best_for_languages: vec![LANG_YUE],
        recommendation_reason: PARAFORMER_TRILINGUAL_REASON,
    };
    assert(m@.files =~= paraformer_trilingual_view().files);
    assert(m@.best_for_languages =~= paraformer_trilingual_view().best_for_languages);
    m
}

fn fire_red_asr_v1() -> (m: ModelInfo)
    ensures
        m@ == fire_red_asr_v1_view(),
{
    let m = ModelInfo {
        id: FIRE_RED_ASR_V1_ID,
        display_name: FIRE_RED_ASR_V1_NAME,
        description: FIRE_RED_ASR_V1_DESCRIPTION,
        backend: BackendKind::FireRedAsr,
        total_size_bytes: 1_735_071_400,
        size_display: FIRE_RED_ASR_V1_SIZE,
        files: vec![ModelFile { relative_path: FILE_ENCODER_INT8_ONNX, url: FIRE_RED_ASR_V1_FILE0_URL, size_bytes: 1_290_000_000, sha1: None }, ModelFile { relative_path: FILE_DECODER_INT8_ONNX, url: FIRE_RED_ASR_V1_FILE1_URL, size_bytes: 445_000_000, sha1: None }, ModelFile { relative_path: FILE_TOKENS_TXT, url: FIRE_RED_ASR_V1_FILE2_URL, size_bytes: 71_400, sha1: None }],
        best_for_languages: vec![],
        recommendation_reason: FIRE_RED_ASR_V1_REASON,
    };
    assert(m@.files =~= fire_red_asr_v1_view().files);
    assert(m@.best_for_languages =~= fire_red_asr_v1_view().best_for_languages);
    m
}

fn moonshine_base_en() -> (m: ModelInfo)
    ensures
        m@ == moonshine_base_en_view(),
{
    let m = ModelInfo {
        id: MOONSHINE_BASE_EN_ID,
        display_name: MOONSHINE_BASE_EN_NAME,
        description: MOONSHINE_BASE_EN_DESCRIPTION,
        backend: BackendKind::Moonshine,
        total_size_bytes: 286_929_760,
        size_display: MOONSHINE_BASE_EN_SIZE,
        files: vec![ModelFile { relative_path: FILE_PREPROCESS_ONNX, url: MOONSHINE_BASE_EN_FILE0_URL, size_bytes: 14_077_290, sha1: None }, ModelFile { relative_path: FILE_ENCODE_INT8_ONNX, url: MOONSHINE_BASE_EN_FILE1_URL, size_bytes: 50_311_494, sha1: None }, ModelFile { relative_path: FILE_UNCACHED_DECODE_INT8_ONNX, url: MOONSHINE_BASE_EN_FILE2_URL, size_bytes: 122_120_451, sha1: None }, ModelFile { relative_path: FILE_CACHED_DECODE_INT8_ONNX, url: MOONSHINE_BASE_EN_FILE3_URL, size_bytes: 99_983_837, sha1: None }, ModelFile { relative_path: FILE_TOKENS_TXT, url: MOONSHINE_BASE_EN_FILE4_URL, size_bytes: 436_688, sha1: None }],
        best_for_languages: vec![LANG_EN],
        recommendation_reason: MOONSHINE_BASE_EN_REASON,
    };
    assert(m@.files =~= moonshine_base_en_view().files);
    assert(m@.best_for_languages =~= moonshine_base_en_view().best_for_languages);
    m
}

/// The `i`-th model of the catalog.
pub fn model_info(i: usize) -> (m: ModelInfo)
    requires
        i < MODEL_COUNT,
    ensures
        m@ == catalog()[i as int],
{
    if i == 0 {
        whisper_base()
    } else if i == 1 {
        whisper_small()
    } else if i == 2 {
        whisper_medium()
    } else if i == 3 {
        whisper_large_v3()
    } else if i == 4 {
        whisper_large_v3_turbo()
    } else if i == 5 {
        whisper_large_v3_turbo_q5()
    } else if i == 6 {
        sensevoice_small()
    } else if i == 7 {
        paraformer_zh()
    } else if i == 8 {
        paraformer_trilingual()
    } else if i == 9 {
        fire_red_asr_v1()
    } else {
        moonshine_base_en()
    }
}


/// The first model of `models` with the id.
pub open spec fn lookup_in(models: Seq<ModelView>, id: Seq<char>) -> Option<ModelView>
    decreases models.len(),
{
    if models.len() == 0 {
        None
    } else if models[0].id == id {
        Some(models[0])
    } else {
        lookup_in(models.drop_first(), id)
    }
}

/// The catalog model with the id.
pub open spec fn lookup(id: Seq<char>) -> Option<ModelView> {
    lookup_in(catalog(), id)
}

/// The models of `models` recommended for the language, in order.
pub open spec fn recommended_in(models: Seq<ModelView>, lang: Seq<char>) -> Seq<ModelView>
    decreases models.len(),
{
    if models.len() == 0 {
        Seq::empty()
    } else {
        let rest = recommended_in(models.drop_last(), lang);
        if models.last().best_for_languages.contains(lang) {
            rest.push(models.last())
        } else {
            rest
        }
    }
}

/// The catalog models recommended for the language, in catalog order.
pub open spec fn recommended(lang: Seq<char>) -> Seq<ModelView> {
    recommended_in(catalog(), lang)
}

/// Id, display name and reason of a suggested model.
pub open spec fn suggestion_entry(m: ModelView) -> (Seq<char>, Seq<char>, Seq<char>) {
    (m.id, m.display_name, m.recommendation_reason)
}

/// The models to suggest to a user of `current` who speaks `lang`: none
/// when nothing is recommended for the language or `current` already is one
/// of the recommended models.
pub open spec fn suggestion(current: Seq<char>, lang: Seq<char>) -> Option<
    Seq<(Seq<char>, Seq<char>, Seq<char>)>,
> {
    let recs = recommended(lang);
    if recs.len() == 0 {
        None
    } else if exists|i: int| 0 <= i < recs.len() && #[trigger] recs[i].id == current {
        None
    } else {
        Some(recs.map_values(|m: ModelView| suggestion_entry(m)))
    }
}

pub open spec fn triple_view(t: (&'static str, &'static str, &'static str)) -> (
    Seq<char>,
    Seq<char>,
    Seq<char>,
) {
    (t.0@, t.1@, t.2@)
}

/// `s` without its trailing `c` characters (`str::trim_end_matches(c)`).
pub open spec fn trim_end_char(s: Seq<char>, c: char) -> Seq<char>
    decreases s.len(),
{
    if s.len() > 0 && s.last() == c {
        trim_end_char(s.drop_last(), c)
    } else {
        s
    }
}

/// A download URL rewritten for a mirror of the model host: unchanged for
/// an empty endpoint or the default one; otherwise its first occurrence of
/// the default host replaced by the endpoint without trailing slashes.
pub open spec fn resolved_url(url: Seq<char>, endpoint: Seq<char>) -> Seq<char> {
    if endpoint.len() == 0 || endpoint == DEFAULT_HF_ENDPOINT@ {
        url
    } else {
        replace_first(url, DEFAULT_HF_ENDPOINT@, trim_end_char(endpoint, '/'))
    }
}

/// The whole catalog, in order.
pub fn all_models() -> (v: Vec<ModelInfo>)
    ensures
        v@.map_values(|m: ModelInfo| m@) == catalog(),
{
    let mut v: Vec<ModelInfo> = Vec::new();
    let mut i: usize = 0;
    while i < MODEL_COUNT
        invariant
            i <= MODEL_COUNT,
            v@.map_values(|m: ModelInfo| m@) == catalog().take(i as int),
        decreases MODEL_COUNT - i,
    {
        let m = model_info(i);
        let ghost before = v@;
        v.push(m);
        proof {
            assert(v@.map_values(|m: ModelInfo| m@) =~= before.map_values(|m: ModelInfo| m@).push(
                m@,
            ));
            assert(catalog().take(i + 1) =~= catalog().take(i as int).push(catalog()[i as int]));
        }
        i += 1;
    }
    assert(catalog().take(MODEL_COUNT as int) =~= catalog());
    v
}

/// Looks a model up by its id.
pub fn get_model(id: &str) -> (r: Option<ModelInfo>)
    ensures
        match r {
            Some(m) => lookup(id@) == Some(m@),
            None => lookup(id@) is None,
        },
{
    let key = chars_of(id);
    let mut i: usize = 0;
    assert(catalog().skip(0) =~= catalog());
    while i < MODEL_COUNT
        invariant
            i <= MODEL_COUNT,
            key@ == id@,
            lookup(id@) == lookup_in(catalog().skip(i as int), id@),
        decreases MODEL_COUNT - i,
    {
        let m = model_info(i);
        proof {
            assert(catalog().skip(i as int)[0] == catalog()[i as int]);
            assert(catalog().skip(i as int).drop_first() =~= catalog().skip(i + 1));
        }
        if chars_eq_str(&key, m.id) {
            return Some(m);
        }
        i += 1;
    }
    None
}

/// Whether the model lists the language among those it is best for.
fn listed_for(m: &ModelInfo, lang: &Vec<char>) -> (b: bool)
    ensures
        b == m@.best_for_languages.contains(lang@),
{
    let ghost langs = m@.best_for_languages;
    let mut i: usize = 0;
    while i < m.best_for_languages.len()
        invariant
            i <= m.best_for_languages.len(),
            langs == m@.best_for_languages,
            forall|k: int| 0 <= k < i ==> langs[k] != lang@,
        decreases m.best_for_languages.len() - i,
    {
        if chars_eq_str(lang, m.best_for_languages[i]) {
            assert(langs[i as int] == lang@);
            return true;
        }
        i += 1;
    }
    false
}

/// The models recommended for a language code, in catalog order.
pub fn recommended_models_for_language(language: &str) -> (v: Vec<ModelInfo>)
    ensures
        v@.map_values(|m: ModelInfo| m@) == recommended(language@),
{
    let lang = chars_of(language);
    let mut v: Vec<ModelInfo> = Vec::new();
    let mut i: usize = 0;
    while i < MODEL_COUNT
        invariant
            i <= MODEL_COUNT,
            lang@ == language@,
            v@.map_values(|m: ModelInfo| m@) == recommended_in(catalog().take(i as int), language@),
        decreases MODEL_COUNT - i,
    {
        let m = model_info(i);
        proof {
            assert(catalog().take(i + 1).drop_last() =~= catalog().take(i as int));
            assert(catalog().take(i + 1).last() == catalog()[i as int]);
        }
        if listed_for(&m, &lang) {
            let ghost before = v@;
            v.push(m);
            assert(v@.map_values(|m: ModelInfo| m@) =~= before.map_values(|m: ModelInfo| m@).push(
                m@,
            ));
        }
        i += 1;
    }
    assert(catalog().take(MODEL_COUNT as int) =~= catalog());
    v
}

/// Suggests switching models when the current one is not among those
/// recommended for the language: the id, display name and reason of each
/// recommended model, or `None` when there is nothing to suggest.
pub fn suggest_model_switch(current_model: &str, language: &str) -> (r: Option<
    Vec<(&'static str, &'static str, &'static str)>,
>)
    ensures
        match r {
            Some(v) => suggestion(current_model@, language@) == Some(
                v@.map_values(|t: (&'static str, &'static str, &'static str)| triple_view(t)),
            ),
            None => suggestion(current_model@, language@) is None,
        },
{
    let recs = recommended_models_for_language(language);
    let ghost rv = recs@.map_values(|m: ModelInfo| m@);
    if recs.len() == 0 {
        return None;
    }
    let cur = chars_of(current_model);
    let mut out: Vec<(&'static str, &'static str, &'static str)> = Vec::new();
    let mut i: usize = 0;
    while i < recs.len()
        invariant
            i <= recs.len(),
            cur@ == current_model@,
            rv == recs@.map_values(|m: ModelInfo| m@),
            rv == recommended(language@),
            forall|k: int| 0 <= k < i ==> rv[k].id != current_model@,
            out@.map_values(|t: (&'static str, &'static str, &'static str)| triple_view(t))
                == rv.take(i as int).map_values(|m: ModelView| suggestion_entry(m)),
        decreases recs.len() - i,
    {
        let m = &recs[i];
        assert(rv[i as int] == recs@[i as int]@);
        if chars_eq_str(&cur, m.id) {
            assert(recommended(language@)[i as int].id == current_model@);
            return None;
        }
        let t = (m.id, m.display_name, m.recommendation_reason);
        let ghost before = out@;
        out.push(t);
        proof {
            assert(out@.map_values(|t: (&'static str, &'static str, &'static str)| triple_view(t))
                =~= before.map_values(
                |t: (&'static str, &'static str, &'static str)| triple_view(t),
            ).push(triple_view(t)));
            assert(rv.take(i + 1).map_values(|m: ModelView| suggestion_entry(m)) =~= rv.take(
                i as int,
            ).map_values(|m: ModelView| suggestion_entry(m)).push(suggestion_entry(rv[i as int])));
        }
        i += 1;
    }
    assert(rv.take(recs.len() as int) =~= rv);
    Some(out)
}

/// Rewrites a model download URL for a custom mirror endpoint (see
/// `resolved_url`).
pub fn resolve_url(original_url: &str, hf_endpoint: &str) -> (r: String)
    ensures
        r@ == resolved_url(original_url@, hf_endpoint@),
{
    let ep = chars_of(hf_endpoint);
    if ep.len() == 0 || chars_eq_str(&ep, DEFAULT_HF_ENDPOINT) {
        return string_of(&chars_of(original_url));
    }
    let mut n = ep.len();
    assert(ep@.take(n as int) =~= ep@);
    while n > 0 && ep[n - 1] == '/'
        invariant
            n <= ep.len(),
            trim_end_char(ep@, '/') == trim_end_char(ep@.take(n as int), '/'),
        decreases n,
    {
        proof {
            assert(ep@.take(n as int).drop_last() =~= ep@.take(n - 1));
        }
        n -= 1;
    }
    let endpoint = sub_chars(&ep, 0, n);
    proof {
        let t = ep@.take(n as int);
        assert(endpoint@ =~= t);
        if n > 0 {
            assert(t.last() == ep@[n - 1]);
        }
        assert(trim_end_char(t, '/') == t);
        reveal_strlit("https://huggingface.co");
    }
    let host = chars_of(DEFAULT_HF_ENDPOINT);
    string_of(&replace_first_exec(&chars_of(original_url), &host, &endpoint))
}


proof fn lemma_catalog_ids()
    ensures
        forall|i: int, j: int|
            0 <= i < j < catalog().len() ==> #[trigger] catalog()[i].id != #[trigger] catalog()[
                j
            ].id,
{
    reveal_strlit("whisper-base");
    reveal_strlit("whisper-small");
    reveal_strlit("whisper-medium");
    reveal_strlit("whisper-large-v3");
    reveal_strlit("whisper-large-v3-turbo");
    reveal_strlit("whisper-large-v3-turbo-q5");
    reveal_strlit("sensevoice-small");
    reveal_strlit("paraformer-zh");
    reveal_strlit("paraformer-trilingual");
    reveal_strlit("fire-red-asr-v1");
    reveal_strlit("moonshine-base-en");
    assert forall|i: int, j: int| 0 <= i < j < catalog().len() implies #[trigger] catalog()[i].id
        != #[trigger] catalog()[j].id by {
        if catalog()[i].id.len() == catalog()[j].id.len() {
            assert(catalog()[i].id[0] != catalog()[j].id[0] || catalog()[i].id[8]
                != catalog()[j].id[8] || catalog()[i].id.last() != catalog()[j].id.last()
                || catalog()[i].id[catalog()[i].id.len() - 2] != catalog()[j].id[
                catalog()[j].id.len() - 2]);
        }
    }
}

/// No two catalog models share an id, so an id names one model.
pub proof fn law_catalog_ids_distinct(i: int, j: int)
    requires
        0 <= i < j < MODEL_COUNT,
    ensures
        catalog()[i].id != catalog()[j].id,
{
    lemma_catalog_ids();
}

proof fn lemma_lookup_in(models: Seq<ModelView>, k: int)
    requires
        0 <= k < models.len(),
        forall|j: int| 0 <= j < k ==> (#[trigger] models[j]).id != models[k].id,
    ensures
        lookup_in(models, models[k].id) == Some(models[k]),
    decreases k,
{
    if k > 0 {
        let rest = models.drop_first();
        assert forall|j: int| 0 <= j < k - 1 implies (#[trigger] rest[j]).id != rest[k - 1].id by {
            assert(rest[j] == models[j + 1]);
        }
        lemma_lookup_in(rest, k - 1);
    }
}

/// Looking up the id of any catalog model finds that model.
pub proof fn law_lookup_finds_model(i: int)
    requires
        0 <= i < MODEL_COUNT,
    ensures
        lookup(catalog()[i].id) == Some(catalog()[i]),
{
    lemma_catalog_ids();
    lemma_lookup_in(catalog(), i);
}

/// Every catalog model has at least one file to download.
pub proof fn law_every_model_has_files(i: int)
    requires
        0 <= i < MODEL_COUNT,
    ensures
        catalog()[i].files.len() > 0,
{
}

proof fn lemma_recommended_in(models: Seq<ModelView>, lang: Seq<char>)
    ensures
        forall|k: int|
            0 <= k < recommended_in(models, lang).len() ==> (#[trigger] recommended_in(
                models,
                lang,
            )[k]).best_for_languages.contains(lang) && models.contains(
                recommended_in(models, lang)[k],
            ),
    decreases models.len(),
{
    if models.len() > 0 {
        let init = models.drop_last();
        lemma_recommended_in(init, lang);
        assert forall|k: int| 0 <= k < recommended_in(init, lang).len() implies models.contains(
            #[trigger] recommended_in(init, lang)[k],
        ) by {
            let m = recommended_in(init, lang)[k];
            let w = choose|w: int| 0 <= w < init.len() && init[w] == m;
            assert(models[w] == m);
        }
        assert(models[models.len() - 1] == models.last());
    }
}

/// Only models that list a language are ever recommended for it.
pub proof fn law_recommended_models_list_language(lang: Seq<char>, k: int)
    requires
        0 <= k < recommended(lang).len(),
    ensures
        recommended(lang)[k].best_for_languages.contains(lang),
        catalog().contains(recommended(lang)[k]),
{
    lemma_recommended_in(catalog(), lang);
}

proof fn lemma_recommended_in_filter(models: Seq<ModelView>, lang: Seq<char>)
    ensures
        recommended_in(models, lang) == models.filter(
            |m: ModelView| m.best_for_languages.contains(lang),
        ),
    decreases models.len(),
{
    reveal(Seq::filter);
    if models.len() > 0 {
        lemma_recommended_in_filter(models.drop_last(), lang);
    }
}

/// The models recommended for a language are exactly the catalog models
/// that list it, in catalog order: none is left out and none is added.
pub proof fn law_recommended_are_listing_models(lang: Seq<char>, i: int)
    requires
        0 <= i < catalog().len(),
    ensures
        recommended(lang) == catalog().filter(|m: ModelView| m.best_for_languages.contains(lang)),
        catalog()[i].best_for_languages.contains(lang) ==> recommended(lang).contains(catalog()[i]),
{
    lemma_recommended_in_filter(catalog(), lang);
    let pred = |m: ModelView| m.best_for_languages.contains(lang);
    if catalog()[i].best_for_languages.contains(lang) {
        catalog().lemma_filter_contains(pred, i);
    }
}

/// A switch is suggested exactly when some catalog model lists the
/// language and none of those is the current model; the suggestion then
/// names every such model, in catalog order, with its display name and
/// reason.
pub proof fn law_suggestion_when_current_not_recommended(current: Seq<char>, lang: Seq<char>)
    ensures
        ({
            let recs = catalog().filter(|m: ModelView| m.best_for_languages.contains(lang));
            &&& suggestion(current, lang) is None <==> (recs.len() == 0 || exists|i: int|
                0 <= i < recs.len() && #[trigger] recs[i].id == current)
            &&& suggestion(current, lang) is Some ==> suggestion(current, lang)->0.len()
                == recs.len() && forall|k: int|
                0 <= k < recs.len() ==> #[trigger] suggestion(current, lang)->0[k] == (
                    recs[k].id,
                    recs[k].display_name,
                    recs[k].recommendation_reason,
                )
        }),
{
    lemma_recommended_in_filter(catalog(), lang);
}

/// FireRedASR is offered only by hand: it is never recommended, whatever
/// the language.
pub proof fn law_fire_red_never_recommended(lang: Seq<char>, k: int)
    requires
        0 <= k < recommended(lang).len(),
    ensures
        recommended(lang)[k].id != FIRE_RED_ASR_V1_ID@,
{
    lemma_recommended_in(catalog(), lang);
    lemma_catalog_ids();
    let m = recommended(lang)[k];
    let w = choose|w: int| 0 <= w < catalog().len() && catalog()[w] == m;
    if w != 9 {
        assert(catalog()[9].id == FIRE_RED_ASR_V1_ID@);
    }
}

/// A switch suggestion never proposes the model already in use.
pub proof fn law_suggestion_excludes_current(current: Seq<char>, lang: Seq<char>, k: int)
    requires
        suggestion(current, lang) is Some,
        0 <= k < suggestion(current, lang)->0.len(),
    ensures
        suggestion(current, lang)->0[k].0 != current,
{
    let recs = recommended(lang);
    assert(suggestion(current, lang)->0[k] == suggestion_entry(recs[k]));
    if recs[k].id == current {
        assert(exists|i: int| 0 <= i < recs.len() && #[trigger] recs[i].id == current);
    }
}

proof fn lemma_lookup_in_member(models: Seq<ModelView>, id: Seq<char>)
    ensures
        lookup_in(models, id) matches Some(m) ==> models.contains(m) && m.id == id,
    decreases models.len(),
{
    if models.len() > 0 && models[0].id != id {
        lemma_lookup_in_member(models.drop_first(), id);
        if let Some(m) = lookup_in(models.drop_first(), id) {
            let w = choose|w: int| 0 <= w < models.drop_first().len() && models.drop_first()[w] == m;
            assert(models[w + 1] == m);
        }
    } else if models.len() > 0 {
        assert(models[0] == models[0]);
    }
}

/// A model found by lookup is the catalog model with that id, and it has
/// files to download.
pub proof fn lemma_lookup_has_files(id: Seq<char>)
    ensures
        lookup(id) matches Some(m) ==> catalog().contains(m) && m.id == id && m.files.len() > 0,
{
    lemma_lookup_in_member(catalog(), id);
}

/// An empty endpoint or the default host leaves every download URL as it
/// is.
pub proof fn law_default_endpoint_keeps_urls(url: Seq<char>, endpoint: Seq<char>)
    requires
        endpoint.len() == 0 || endpoint == DEFAULT_HF_ENDPOINT@,
    ensures
        resolved_url(url, endpoint) == url,
{
}
} // verus!
