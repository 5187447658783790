//! Language codes as the speech-to-text engines take them.
use vstd::prelude::*;

use crate::errors::{concat2, AppError};
use crate::text::str_eq;

verus! {

pub const LANG_ZH: &'static str = "zh";

pub const LANG_ZH_CN: &'static str = "zh-CN";

pub const LANG_ZH_TW: &'static str = "zh-TW";

pub const LANG_EN: &'static str = "en";

pub const LANG_JA: &'static str = "ja";

pub const LANG_KO: &'static str = "ko";

pub const LANG_AUTO: &'static str = "auto";

/// A Chinese variant code of the settings screen.
pub open spec fn is_chinese_variant(code: Seq<char>) -> bool {
    code == LANG_ZH_CN@ || code == LANG_ZH_TW@
}

/// The language code the engines take for a code of the settings screen:
/// the Chinese variants fold to `zh`, everything else passes through.
pub open spec fn stt_language(code: Seq<char>) -> Seq<char> {
    if is_chinese_variant(code) {
        LANG_ZH@
    } else {
        code
    }
}

/// The language SenseVoice is asked for: one of the languages it knows, or
/// `auto`.
pub open spec fn sensevoice_language(code: Seq<char>) -> Seq<char> {
    if code == LANG_ZH@ || is_chinese_variant(code) {
        LANG_ZH@
    } else if code == LANG_EN@ {
        LANG_EN@
    } else if code == LANG_JA@ {
        LANG_JA@
    } else if code == LANG_KO@ {
        LANG_KO@
    } else {
        LANG_AUTO@
    }
}

/// Folds a language code of the settings screen to the one the engines take
/// (see `stt_language`).
pub fn language_to_stt_lang<'a>(code: &'a str) -> (r: &'a str)
    ensures
        r@ == stt_language(code@),
{
    if str_eq(code, LANG_ZH_CN) || str_eq(code, LANG_ZH_TW) {
        LANG_ZH
    } else {
        code
    }
}

/// Maps a language code to one SenseVoice knows (see `sensevoice_language`).
pub fn map_language_for_sensevoice(language: &str) -> (r: &'static str)
    ensures
        r@ == sensevoice_language(language@),
{
    if str_eq(language, LANG_ZH) || str_eq(language, LANG_ZH_CN) || str_eq(language, LANG_ZH_TW) {
        LANG_ZH
    } else if str_eq(language, LANG_EN) {
        LANG_EN
    } else if str_eq(language, LANG_JA) {
        LANG_JA
    } else if str_eq(language, LANG_KO) {
        LANG_KO
    } else {
        LANG_AUTO
    }
}

/// Folding is idempotent: a folded code folds to itself.
pub proof fn law_stt_language_idempotent(code: Seq<char>)
    ensures
        stt_language(stt_language(code)) == stt_language(code),
{
    reveal_strlit("zh");
    reveal_strlit("zh-CN");
    reveal_strlit("zh-TW");
    assert(LANG_ZH@.len() != LANG_ZH_CN@.len());
    assert(LANG_ZH@.len() != LANG_ZH_TW@.len());
}


pub const SENSEVOICE_MODEL_MISSING: &'static str = "SenseVoice model file not found: ";

pub const SENSEVOICE_TOKENS_MISSING: &'static str = "SenseVoice tokens file not found: ";

/// Checks that both files of a SenseVoice model exist before the recognizer
/// is built; the model file is checked first.
pub fn sensevoice_file_check(
    model_path: &str,
    model_exists: bool,
    tokens_path: &str,
    tokens_exists: bool,
) -> (r: Result<(), AppError>)
    ensures
        !model_exists ==> (r matches Err(e) && e is Whisper && e.text() == SENSEVOICE_MODEL_MISSING@
            + model_path@),
        model_exists && !tokens_exists ==> (r matches Err(e) && e is Whisper && e.text()
            == SENSEVOICE_TOKENS_MISSING@ + tokens_path@),
        model_exists && tokens_exists ==> r is Ok,
{
    if !model_exists {
        Err(AppError::Whisper(concat2(SENSEVOICE_MODEL_MISSING, model_path)))
    } else if !tokens_exists {
        Err(AppError::Whisper(concat2(SENSEVOICE_TOKENS_MISSING, tokens_path)))
    } else {
        Ok(())
    }
}
} // verus!
