//! The application's persistent settings: their defaults, the migration
//! applied when they are loaded, the update of one field by name, and where
//! they live on disk.
use vstd::prelude::*;

use crate::errors::{concat3, owned, AppError};
use crate::llm::client::{is_legacy, is_legacy_default_template};
use crate::paths::{join_path, join_path_exec};
use crate::text::{chars_of, eq_ic, eq_ic_exec, str_eq, string_of, views};

verus! {

pub const APP_CONFIG_DIR: &'static str = "com.input0.app";

pub const CONFIG_FILENAME: &'static str = "config.toml";

pub const NO_CONFIG_DIR: &'static str = "Could not determine system config directory";

pub const DEFAULT_API_BASE_URL: &'static str = "https://api.openai.com/v1";

pub const DEFAULT_LLM_MODEL: &'static str = "gpt-4o-mini";

pub const DEFAULT_LANGUAGE: &'static str = "auto";

pub const DEFAULT_HOTKEY: &'static str = "Option+Space";

pub const DEFAULT_STT_MODEL: &'static str = "whisper-base";

pub const DEFAULT_HF_ENDPOINT: &'static str = "https://huggingface.co";

pub const TRUE_TEXT: &'static str = "true";

pub const UNKNOWN_FIELD_PREFIX: &'static str = "Unknown config field: '";

pub const UNKNOWN_FIELD_SUFFIX: &'static str = "'";

pub const INVALID_USER_TAGS: &'static str = "Invalid JSON for user_tags: ";

pub const INVALID_CUSTOM_MODELS: &'static str = "Invalid JSON for custom_models: ";

pub const FIELD_API_KEY: &'static str = "api_key";

pub const FIELD_API_BASE_URL: &'static str = "api_base_url";

pub const FIELD_MODEL: &'static str = "model";

pub const FIELD_LANGUAGE: &'static str = "language";

pub const FIELD_HOTKEY: &'static str = "hotkey";

pub const FIELD_MODEL_PATH: &'static str = "model_path";

pub const FIELD_STT_MODEL: &'static str = "stt_model";

pub const FIELD_TEXT_STRUCTURING: &'static str = "text_structuring";

pub const FIELD_USER_TAGS: &'static str = "user_tags";

pub const FIELD_CUSTOM_MODELS: &'static str = "custom_models";

pub const FIELD_ONBOARDING_COMPLETED: &'static str = "onboarding_completed";

pub const FIELD_INPUT_DEVICE: &'static str = "input_device";

pub const FIELD_HF_ENDPOINT: &'static str = "hf_endpoint";

pub const FIELD_CUSTOM_PROMPT_ENABLED: &'static str = "custom_prompt_enabled";

pub const FIELD_CUSTOM_PROMPT: &'static str = "custom_prompt";

pub const FIELD_STRUCTURING_PROMPT: &'static str = "structuring_prompt";

/// The settings of the application.
#[derive(Debug, Clone)]
pub struct AppConfig {
    pub api_key: String,
    pub api_base_url: String,
    pub model: String,
    pub language: String,
    pub hotkey: String,
    pub model_path: String,
    pub stt_model: String,
    pub text_structuring: bool,
    pub user_tags: Vec<String>,
    pub custom_models: Vec<String>,
    pub onboarding_completed: bool,
    pub input_device: String,
    pub hf_endpoint: String,
    pub custom_prompt_enabled: bool,
    pub custom_prompt: String,
    pub structuring_prompt: String,
}

/// The mathematical content of an `AppConfig`.
pub struct ConfigView {
    pub api_key: Seq<char>,
    pub api_base_url: Seq<char>,
    pub model: Seq<char>,
    pub language: Seq<char>,
    pub hotkey: Seq<char>,
    pub model_path: Seq<char>,
    pub stt_model: Seq<char>,
    pub text_structuring: bool,
    pub user_tags: Seq<Seq<char>>,
    pub custom_models: Seq<Seq<char>>,
    pub onboarding_completed: bool,
    pub input_device: Seq<char>,
    pub hf_endpoint: Seq<char>,
    pub custom_prompt_enabled: bool,
    pub custom_prompt: Seq<char>,
    pub structuring_prompt: Seq<char>,
}

impl View for AppConfig {
    type V = ConfigView;

    open spec fn view(&self) -> ConfigView {
        ConfigView {
            api_key: self.api_key@,
            api_base_url: self.api_base_url@,
            model: self.model@,
            language: self.language@,
            hotkey: self.hotkey@,
            model_path: self.model_path@,
            stt_model: self.stt_model@,
            text_structuring: self.text_structuring,
            user_tags: views(self.user_tags@),
            custom_models: views(self.custom_models@),
            onboarding_completed: self.onboarding_completed,
            input_device: self.input_device@,
            hf_endpoint: self.hf_endpoint@,
            custom_prompt_enabled: self.custom_prompt_enabled,
            custom_prompt: self.custom_prompt@,
            structuring_prompt: self.structuring_prompt@,
        }
    }
}

/// The settings of a fresh installation.
pub open spec fn default_config() -> ConfigView {
    ConfigView {
        api_key: Seq::empty(),
        api_base_url: DEFAULT_API_BASE_URL@,
        model: DEFAULT_LLM_MODEL@,
        language: DEFAULT_LANGUAGE@,
        hotkey: DEFAULT_HOTKEY@,
        model_path: Seq::empty(),
        stt_model: DEFAULT_STT_MODEL@,
        text_structuring: false,
        user_tags: Seq::empty(),
        custom_models: Seq::empty(),
        onboarding_completed: false,
        input_device: Seq::empty(),
        hf_endpoint: DEFAULT_HF_ENDPOINT@,
        custom_prompt_enabled: false,
        custom_prompt: Seq::empty(),
        structuring_prompt: Seq::empty(),
    }
}

impl Default for AppConfig {
    fn default() -> (c: AppConfig)
        ensures
            c@ == default_config(),
    {
        let c = AppConfig {
            api_key: String::new(),
            api_base_url: owned(DEFAULT_API_BASE_URL),
            model: owned(DEFAULT_LLM_MODEL),
            language: owned(DEFAULT_LANGUAGE),
            hotkey: owned(DEFAULT_HOTKEY),
            model_path: String::new(),
            stt_model: owned(DEFAULT_STT_MODEL),
            text_structuring: false,
            user_tags: Vec::new(),
            custom_models: Vec::new(),
            onboarding_completed: false,
            input_device: String::new(),
            hf_endpoint: owned(DEFAULT_HF_ENDPOINT),
            custom_prompt_enabled: false,
            custom_prompt: String::new(),
            structuring_prompt: String::new(),
        };
        assert(c@.user_tags =~= Seq::<Seq<char>>::empty());
        assert(c@.custom_models =~= Seq::<Seq<char>>::empty());
        c
    }
}

/// A settings field that can be updated by name.
#[derive(Debug, Clone, Copy, PartialEq, Eq, Structural)]
pub enum ConfigField {
    ApiKey,
    ApiBaseUrl,
    Model,
    Language,
    Hotkey,
    ModelPath,
    SttModel,
    TextStructuring,
    UserTags,
    CustomModels,
    OnboardingCompleted,
    InputDevice,
    HfEndpoint,
    CustomPromptEnabled,
    CustomPrompt,
    StructuringPrompt,
}

/// The field with the name.
pub open spec fn field_named(name: Seq<char>) -> Option<ConfigField> {
    if name == FIELD_API_KEY@ {
        Some(ConfigField::ApiKey)
    } else if name == FIELD_API_BASE_URL@ {
        Some(ConfigField::ApiBaseUrl)
    } else if name == FIELD_MODEL@ {
        Some(ConfigField::Model)
    } else if name == FIELD_LANGUAGE@ {
        Some(ConfigField::Language)
    } else if name == FIELD_HOTKEY@ {
        Some(ConfigField::Hotkey)
    } else if name == FIELD_MODEL_PATH@ {
        Some(ConfigField::ModelPath)
    } else if name == FIELD_STT_MODEL@ {
        Some(ConfigField::SttModel)
    } else if name == FIELD_TEXT_STRUCTURING@ {
        Some(ConfigField::TextStructuring)
    } else if name == FIELD_USER_TAGS@ {
        Some(ConfigField::UserTags)
    } else if name == FIELD_CUSTOM_MODELS@ {
        Some(ConfigField::CustomModels)
    } else if name == FIELD_ONBOARDING_COMPLETED@ {
        Some(ConfigField::OnboardingCompleted)
    } else if name == FIELD_INPUT_DEVICE@ {
        Some(ConfigField::InputDevice)
    } else if name == FIELD_HF_ENDPOINT@ {
        Some(ConfigField::HfEndpoint)
    } else if name == FIELD_CUSTOM_PROMPT_ENABLED@ {
        Some(ConfigField::CustomPromptEnabled)
    } else if name == FIELD_CUSTOM_PROMPT@ {
        Some(ConfigField::CustomPrompt)
    } else if name == FIELD_STRUCTURING_PROMPT@ {
        Some(ConfigField::StructuringPrompt)
    } else {
        None
    }
}

fn field_of(name: &str) -> (r: Option<ConfigField>)
    ensures
        r == field_named(name@),
{
    if str_eq(name, FIELD_API_KEY) {
        Some(ConfigField::ApiKey)
    } else if str_eq(name, FIELD_API_BASE_URL) {
        Some(ConfigField::ApiBaseUrl)
    } else if str_eq(name, FIELD_MODEL) {
        Some(ConfigField::Model)
    } else if str_eq(name, FIELD_LANGUAGE) {
        Some(ConfigField::Language)
    } else if str_eq(name, FIELD_HOTKEY) {
        Some(ConfigField::Hotkey)
    } else if str_eq(name, FIELD_MODEL_PATH) {
        Some(ConfigField::ModelPath)
    } else if str_eq(name, FIELD_STT_MODEL) {
        Some(ConfigField::SttModel)
    } else if str_eq(name, FIELD_TEXT_STRUCTURING) {
        Some(ConfigField::TextStructuring)
    } else if str_eq(name, FIELD_USER_TAGS) {
        Some(ConfigField::UserTags)
    } else if str_eq(name, FIELD_CUSTOM_MODELS) {
        Some(ConfigField::CustomModels)
    } else if str_eq(name, FIELD_ONBOARDING_COMPLETED) {
        Some(ConfigField::OnboardingCompleted)
    } else if str_eq(name, FIELD_INPUT_DEVICE) {
        Some(ConfigField::InputDevice)
    } else if str_eq(name, FIELD_HF_ENDPOINT) {
        Some(ConfigField::HfEndpoint)
    } else if str_eq(name, FIELD_CUSTOM_PROMPT_ENABLED) {
        Some(ConfigField::CustomPromptEnabled)
    } else if str_eq(name, FIELD_CUSTOM_PROMPT) {
        Some(ConfigField::CustomPrompt)
    } else if str_eq(name, FIELD_STRUCTURING_PROMPT) {
        Some(ConfigField::StructuringPrompt)
    } else {
        None
    }
}

/// `c` with one field set from its text `value`; a flag is set when the
/// text is `true` in any ASCII letter case; a list field takes `list`, the
/// parsed JSON array.
pub open spec fn with_field(c: ConfigView, f: ConfigField, value: Seq<char>, list: Seq<Seq<char>>) -> ConfigView {
    match f {
        ConfigField::ApiKey => ConfigView { api_key: value, ..c },
        ConfigField::ApiBaseUrl => ConfigView { api_base_url: value, ..c },
        ConfigField::Model => ConfigView { model: value, ..c },
        ConfigField::Language => ConfigView { language: value, ..c },
        ConfigField::Hotkey => ConfigView { hotkey: value, ..c },
        ConfigField::ModelPath => ConfigView { model_path: value, ..c },
        ConfigField::SttModel => ConfigView { stt_model: value, ..c },
        ConfigField::TextStructuring => ConfigView { text_structuring: eq_ic(value, TRUE_TEXT@), ..c },
        ConfigField::UserTags => ConfigView { user_tags: list, ..c },
        ConfigField::CustomModels => ConfigView { custom_models: list, ..c },
        ConfigField::OnboardingCompleted => ConfigView { onboarding_completed: eq_ic(value, TRUE_TEXT@), ..c },
        ConfigField::InputDevice => ConfigView { input_device: value, ..c },
        ConfigField::HfEndpoint => ConfigView { hf_endpoint: value, ..c },
        ConfigField::CustomPromptEnabled => ConfigView { custom_prompt_enabled: eq_ic(value, TRUE_TEXT@), ..c },
        ConfigField::CustomPrompt => ConfigView { custom_prompt: value, ..c },
        ConfigField::StructuringPrompt => ConfigView { structuring_prompt: value, ..c },
    }
}

/// Sets field `f` of `config` from its text `value` (a list field from
/// `list`).
pub fn set_field(config: &mut AppConfig, f: ConfigField, value: &str, list: Vec<String>)
    ensures
        final(config)@ == with_field(old(config)@, f, value@, views(list@)),
{
    match f {
        ConfigField::ApiKey => {
            config.api_key = string_of(&chars_of(value));
        },
        ConfigField::ApiBaseUrl => {
            config.api_base_url = string_of(&chars_of(value));
        },
        ConfigField::Model => {
            config.model = string_of(&chars_of(value));
        },
        ConfigField::Language => {
            config.language = string_of(&chars_of(value));
        },
        ConfigField::Hotkey => {
            config.hotkey = string_of(&chars_of(value));
        },
        ConfigField::ModelPath => {
            config.model_path = string_of(&chars_of(value));
        },
        ConfigField::SttModel => {
            config.stt_model = string_of(&chars_of(value));
        },
        ConfigField::TextStructuring => {
            config.text_structuring = eq_ic_exec(&chars_of(value), &chars_of(TRUE_TEXT));
        },
        ConfigField::UserTags => {
            config.user_tags = list;
        },
        ConfigField::CustomModels => {
            config.custom_models = list;
        },
        ConfigField::OnboardingCompleted => {
            config.onboarding_completed = eq_ic_exec(&chars_of(value), &chars_of(TRUE_TEXT));
        },
        ConfigField::InputDevice => {
            config.input_device = string_of(&chars_of(value));
        },
        ConfigField::HfEndpoint => {
            config.hf_endpoint = string_of(&chars_of(value));
        },
        ConfigField::CustomPromptEnabled => {
            config.custom_prompt_enabled = eq_ic_exec(&chars_of(value), &chars_of(TRUE_TEXT));
        },
        ConfigField::CustomPrompt => {
            config.custom_prompt = string_of(&chars_of(value));
        },
        ConfigField::StructuringPrompt => {
            config.structuring_prompt = string_of(&chars_of(value));
        },
    }
}

/// The flag fields.
pub open spec fn is_flag_field(f: ConfigField) -> bool {
    f == ConfigField::TextStructuring || f == ConfigField::OnboardingCompleted || f
        == ConfigField::CustomPromptEnabled
}

/// The fields holding a JSON array of strings.
pub open spec fn is_list_field(f: ConfigField) -> bool {
    f == ConfigField::UserTags || f == ConfigField::CustomModels
}

/// The prefix of the message given when a list field's value is not a JSON
/// array of strings.
pub open spec fn list_error_prefix(f: ConfigField) -> Seq<char> {
    if f == ConfigField::UserTags {
        INVALID_USER_TAGS@
    } else {
        INVALID_CUSTOM_MODELS@
    }
}

/// The outcome of setting the field named `name` of `c` to `value`, where
/// `parsed` is what parsing `value` as a JSON array of strings gave: the new
/// settings, or the message of the configuration error.
pub open spec fn field_update(
    c: ConfigView,
    name: Seq<char>,
    value: Seq<char>,
    parsed: Result<Seq<Seq<char>>, Seq<char>>,
) -> Result<ConfigView, Seq<char>> {
    match field_named(name) {
        None => Err(UNKNOWN_FIELD_PREFIX@ + name + UNKNOWN_FIELD_SUFFIX@),
        Some(f) => if is_list_field(f) {
            match parsed {
                Ok(l) => Ok(with_field(c, f, value, l)),
                Err(e) => Err(list_error_prefix(f) + e),
            }
        } else {
            Ok(with_field(c, f, value, Seq::empty()))
        },
    }
}

/// The view of an update's outcome.
pub open spec fn update_view(r: Result<AppConfig, AppError>) -> Result<ConfigView, Seq<char>> {
    match r {
        Ok(c) => Ok(c@),
        Err(e) => Err(e.text()),
    }
}

pub open spec fn parsed_view(p: Result<Vec<String>, String>) -> Result<Seq<Seq<char>>, Seq<char>> {
    match p {
        Ok(v) => Ok(views(v@)),
        Err(e) => Err(e@),
    }
}

/// What `serde_json` parses out of `text` read as a JSON array of strings:
/// the strings, or the text of the parser's error.
pub uninterp spec fn json_string_array(text: Seq<char>) -> Result<Seq<Seq<char>>, Seq<char>>;

/// `serde_json::from_str::<Vec<String>>`, with the error rendered by its
/// `Display`. The contract says only that the outcome is the one named by
/// `json_string_array` for the text.
#[verifier::external_body]
fn parse_string_array(text: &str) -> (r: Result<Vec<String>, String>)
    ensures
        parsed_view(r) == json_string_array(text@),
{
    serde_json::from_str::<Vec<String>>(text).map_err(|e| e.to_string())
}

/// Sets the field named `field` of `config` to `value`, given what parsing
/// `value` as a JSON array of strings gave (consulted for the list fields
/// only). Unknown names and unparsable lists give a configuration error.
pub fn update_field_with(
    config: AppConfig,
    field: &str,
    value: &str,
    parsed: Result<Vec<String>, String>,
) -> (r: Result<AppConfig, AppError>)
    ensures
        update_view(r) == field_update(config@, field@, value@, parsed_view(parsed)),
        r matches Err(e) ==> e is Config,
{
    let mut config = config;
    match field_of(field) {
        None => Err(AppError::Config(concat3(UNKNOWN_FIELD_PREFIX, field, UNKNOWN_FIELD_SUFFIX))),
        Some(f) => {
            let is_list = match f {
                ConfigField::UserTags => true,
                ConfigField::CustomModels => true,
                _ => false,
            };
            if is_list {
                match parsed {
                    Ok(l) => {
                        set_field(&mut config, f, value, l);
                        Ok(config)
                    },
                    Err(e) => {
                        let prefix = match f {
                            ConfigField::UserTags => INVALID_USER_TAGS,
                            _ => INVALID_CUSTOM_MODELS,
                        };
                        Err(AppError::Config(crate::errors::concat2(prefix, e.as_str())))
                    },
                }
            } else {
                let empty: Vec<String> = Vec::new();
                assert(views(empty@) =~= Seq::<Seq<char>>::empty());
                set_field(&mut config, f, value, empty);
                Ok(config)
            }
        },
    }
}

/// Sets the field named `field` of `config` to `value`: text fields take the
/// text, flags are set when it reads `true` in any letter case, and
/// `user_tags` and `custom_models` take the strings of a JSON array.
pub fn update_field(config: AppConfig, field: &str, value: &str) -> (r: Result<AppConfig, AppError>)
    ensures
        update_view(r) == field_update(config@, field@, value@, json_string_array(value@)),
        r matches Err(e) ==> e is Config,
{
    let is_list = str_eq(field, FIELD_USER_TAGS) || str_eq(field, FIELD_CUSTOM_MODELS);
    if is_list {
        let parsed = parse_string_array(value);
        update_field_with(config, field, value, parsed)
    } else {
        proof {
            assert(field_named(field@) is None || !is_list_field(field_named(field@)->0));
        }
        let empty: Vec<String> = Vec::new();
        update_field_with(config, field, value, Ok(empty))
    }
}

/// The text of a text field.
pub open spec fn text_of(c: ConfigView, f: ConfigField) -> Seq<char> {
    match f {
        ConfigField::ApiKey => c.api_key,
        ConfigField::ApiBaseUrl => c.api_base_url,
        ConfigField::Model => c.model,
        ConfigField::Language => c.language,
        ConfigField::Hotkey => c.hotkey,
        ConfigField::ModelPath => c.model_path,
        ConfigField::SttModel => c.stt_model,
        ConfigField::InputDevice => c.input_device,
        ConfigField::HfEndpoint => c.hf_endpoint,
        ConfigField::CustomPrompt => c.custom_prompt,
        ConfigField::StructuringPrompt => c.structuring_prompt,
        _ => Seq::empty(),
    }
}

/// Writing a text field and reading it back gives the written text, and
/// every other text field keeps its value.
pub proof fn law_update_reads_back(
    c: ConfigView,
    name: Seq<char>,
    value: Seq<char>,
    parsed: Result<Seq<Seq<char>>, Seq<char>>,
    other: ConfigField,
)
    requires
        field_named(name) is Some,
        !is_flag_field(field_named(name)->0),
        !is_list_field(field_named(name)->0),
    ensures
        field_update(c, name, value, parsed) is Ok,
        text_of(field_update(c, name, value, parsed)->Ok_0, field_named(name)->0) == value,
        other != field_named(name)->0 ==> text_of(
            field_update(c, name, value, parsed)->Ok_0,
            other,
        ) == text_of(c, other),
{
}

/// Applying the same update twice leaves the settings as applying it once.
pub proof fn law_update_idempotent(
    c: ConfigView,
    name: Seq<char>,
    value: Seq<char>,
    parsed: Result<Seq<Seq<char>>, Seq<char>>,
)
    requires
        field_update(c, name, value, parsed) is Ok,
    ensures
        field_update(field_update(c, name, value, parsed)->Ok_0, name, value, parsed) == field_update(
            c,
            name,
            value,
            parsed,
        ),
{
}

/// The name of a settings field.
pub open spec fn field_name(f: ConfigField) -> Seq<char> {
    match f {
        ConfigField::ApiKey => FIELD_API_KEY@,
        ConfigField::ApiBaseUrl => FIELD_API_BASE_URL@,
        ConfigField::Model => FIELD_MODEL@,
        ConfigField::Language => FIELD_LANGUAGE@,
        ConfigField::Hotkey => FIELD_HOTKEY@,
        ConfigField::ModelPath => FIELD_MODEL_PATH@,
        ConfigField::SttModel => FIELD_STT_MODEL@,
        ConfigField::TextStructuring => FIELD_TEXT_STRUCTURING@,
        ConfigField::UserTags => FIELD_USER_TAGS@,
        ConfigField::CustomModels => FIELD_CUSTOM_MODELS@,
        ConfigField::OnboardingCompleted => FIELD_ONBOARDING_COMPLETED@,
        ConfigField::InputDevice => FIELD_INPUT_DEVICE@,
        ConfigField::HfEndpoint => FIELD_HF_ENDPOINT@,
        ConfigField::CustomPromptEnabled => FIELD_CUSTOM_PROMPT_ENABLED@,
        ConfigField::CustomPrompt => FIELD_CUSTOM_PROMPT@,
        ConfigField::StructuringPrompt => FIELD_STRUCTURING_PROMPT@,
    }
}

/// Every field's own name selects that field, and no other.
pub proof fn law_field_names_select(f: ConfigField)
    ensures
        field_named(field_name(f)) == Some(f),
{
    reveal_strlit("api_key");
    reveal_strlit("api_base_url");
    reveal_strlit("model");
    reveal_strlit("language");
    reveal_strlit("hotkey");
    reveal_strlit("model_path");
    reveal_strlit("stt_model");
    reveal_strlit("text_structuring");
    reveal_strlit("user_tags");
    reveal_strlit("custom_models");
    reveal_strlit("onboarding_completed");
    reveal_strlit("input_device");
    reveal_strlit("hf_endpoint");
    reveal_strlit("custom_prompt_enabled");
    reveal_strlit("custom_prompt");
    reveal_strlit("structuring_prompt");
    match f {
        ConfigField::ApiKey => {},
        ConfigField::ApiBaseUrl => {
            assert(FIELD_API_BASE_URL@.len() != FIELD_API_KEY@.len());
        },
        ConfigField::Model => {
            assert(FIELD_MODEL@.len() != FIELD_API_KEY@.len());
            assert(FIELD_MODEL@.len() != FIELD_API_BASE_URL@.len());
        },
        ConfigField::Language => {
            assert(FIELD_LANGUAGE@.len() != FIELD_API_KEY@.len());
            assert(FIELD_LANGUAGE@.len() != FIELD_API_BASE_URL@.len());
            assert(FIELD_LANGUAGE@.len() != FIELD_MODEL@.len());
        },
        ConfigField::Hotkey => {
            assert(FIELD_HOTKEY@.len() != FIELD_API_KEY@.len());
            assert(FIELD_HOTKEY@.len() != FIELD_API_BASE_URL@.len());
            assert(FIELD_HOTKEY@.len() != FIELD_MODEL@.len());
            assert(FIELD_HOTKEY@.len() != FIELD_LANGUAGE@.len());
        },
        ConfigField::ModelPath => {
            assert(FIELD_MODEL_PATH@.len() != FIELD_API_KEY@.len());
            assert(FIELD_MODEL_PATH@.len() != FIELD_API_BASE_URL@.len());
            assert(FIELD_MODEL_PATH@.len() != FIELD_MODEL@.len());
            assert(FIELD_MODEL_PATH@.len() != FIELD_LANGUAGE@.len());
            assert(FIELD_MODEL_PATH@.len() != FIELD_HOTKEY@.len());
        },
        ConfigField::SttModel => {
            assert(FIELD_STT_MODEL@.len() != FIELD_API_KEY@.len());
            assert(FIELD_STT_MODEL@.len() != FIELD_API_BASE_URL@.len());
            assert(FIELD_STT_MODEL@.len() != FIELD_MODEL@.len());
            assert(FIELD_STT_MODEL@.len() != FIELD_LANGUAGE@.len());
            assert(FIELD_STT_MODEL@.len() != FIELD_HOTKEY@.len());
            assert(FIELD_STT_MODEL@.len() != FIELD_MODEL_PATH@.len());
        },
        ConfigField::TextStructuring => {
            assert(FIELD_TEXT_STRUCTURING@.len() != FIELD_API_KEY@.len());
            assert(FIELD_TEXT_STRUCTURING@.len() != FIELD_API_BASE_URL@.len());
            assert(FIELD_TEXT_STRUCTURING@.len() != FIELD_MODEL@.len());
            assert(FIELD_TEXT_STRUCTURING@.len() != FIELD_LANGUAGE@.len());
            assert(FIELD_TEXT_STRUCTURING@.len() != FIELD_HOTKEY@.len());
            assert(FIELD_TEXT_STRUCTURING@.len() != FIELD_MODEL_PATH@.len());
            assert(FIELD_TEXT_STRUCTURING@.len() != FIELD_STT_MODEL@.len());
        },
        ConfigField::UserTags => {
            assert(FIELD_USER_TAGS@.len() != FIELD_API_KEY@.len());
            assert(FIELD_USER_TAGS@.len() != FIELD_API_BASE_URL@.len());
            assert(FIELD_USER_TAGS@.len() != FIELD_MODEL@.len());
            assert(FIELD_USER_TAGS@.len() != FIELD_LANGUAGE@.len());
            assert(FIELD_USER_TAGS@.len() != FIELD_HOTKEY@.len());
            assert(FIELD_USER_TAGS@.len() != FIELD_MODEL_PATH@.len());
            assert(FIELD_USER_TAGS@[0] != FIELD_STT_MODEL@[0]);
            assert(FIELD_USER_TAGS@.len() != FIELD_TEXT_STRUCTURING@.len());
        },
        ConfigField::CustomModels => {
            assert(FIELD_CUSTOM_MODELS@.len() != FIELD_API_KEY@.len());
            assert(FIELD_CUSTOM_MODELS@.len() != FIELD_API_BASE_URL@.len());
            assert(FIELD_CUSTOM_MODELS@.len() != FIELD_MODEL@.len());
            assert(FIELD_CUSTOM_MODELS@.len() != FIELD_LANGUAGE@.len());
            assert(FIELD_CUSTOM_MODELS@.len() != FIELD_HOTKEY@.len());
            assert(FIELD_CUSTOM_MODELS@.len() != FIELD_MODEL_PATH@.len());
            assert(FIELD_CUSTOM_MODELS@.len() != FIELD_STT_MODEL@.len());
            assert(FIELD_CUSTOM_MODELS@.len() != FIELD_TEXT_STRUCTURING@.len());
            assert(FIELD_CUSTOM_MODELS@.len() != FIELD_USER_TAGS@.len());
        },
        ConfigField::OnboardingCompleted => {
            assert(FIELD_ONBOARDING_COMPLETED@.len() != FIELD_API_KEY@.len());
            assert(FIELD_ONBOARDING_COMPLETED@.len() != FIELD_API_BASE_URL@.len());
            assert(FIELD_ONBOARDING_COMPLETED@.len() != FIELD_MODEL@.len());
            assert(FIELD_ONBOARDING_COMPLETED@.len() != FIELD_LANGUAGE@.len());
            assert(FIELD_ONBOARDING_COMPLETED@.len() != FIELD_HOTKEY@.len());
            assert(FIELD_ONBOARDING_COMPLETED@.len() != FIELD_MODEL_PATH@.len());
            assert(FIELD_ONBOARDING_COMPLETED@.len() != FIELD_STT_MODEL@.len());
            assert(FIELD_ONBOARDING_COMPLETED@.len() != FIELD_TEXT_STRUCTURING@.len());
            assert(FIELD_ONBOARDING_COMPLETED@.len() != FIELD_USER_TAGS@.len());
            assert(FIELD_ONBOARDING_COMPLETED@.len() != FIELD_CUSTOM_MODELS@.len());
        },
        ConfigField::InputDevice => {
            assert(FIELD_INPUT_DEVICE@.len() != FIELD_API_KEY@.len());
            assert(FIELD_INPUT_DEVICE@[0] != FIELD_API_BASE_URL@[0]);
            assert(FIELD_INPUT_DEVICE@.len() != FIELD_MODEL@.len());
            assert(FIELD_INPUT_DEVICE@.len() != FIELD_LANGUAGE@.len());
            assert(FIELD_INPUT_DEVICE@.len() != FIELD_HOTKEY@.len());
            assert(FIELD_INPUT_DEVICE@.len() != FIELD_MODEL_PATH@.len());
            assert(FIELD_INPUT_DEVICE@.len() != FIELD_STT_MODEL@.len());
            assert(FIELD_INPUT_DEVICE@.len() != FIELD_TEXT_STRUCTURING@.len());
            assert(FIELD_INPUT_DEVICE@.len() != FIELD_USER_TAGS@.len());
            assert(FIELD_INPUT_DEVICE@.len() != FIELD_CUSTOM_MODELS@.len());
            assert(FIELD_INPUT_DEVICE@.len() != FIELD_ONBOARDING_COMPLETED@.len());
        },
        ConfigField::HfEndpoint => {
            assert(FIELD_HF_ENDPOINT@.len() != FIELD_API_KEY@.len());
            assert(FIELD_HF_ENDPOINT@.len() != FIELD_API_BASE_URL@.len());
            assert(FIELD_HF_ENDPOINT@.len() != FIELD_MODEL@.len());
            assert(FIELD_HF_ENDPOINT@.len() != FIELD_LANGUAGE@.len());
            assert(FIELD_HF_ENDPOINT@.len() != FIELD_HOTKEY@.len());
            assert(FIELD_HF_ENDPOINT@.len() != FIELD_MODEL_PATH@.len());
            assert(FIELD_HF_ENDPOINT@.len() != FIELD_STT_MODEL@.len());
            assert(FIELD_HF_ENDPOINT@.len() != FIELD_TEXT_STRUCTURING@.len());
            assert(FIELD_HF_ENDPOINT@.len() != FIELD_USER_TAGS@.len());
            assert(FIELD_HF_ENDPOINT@.len() != FIELD_CUSTOM_MODELS@.len());
            assert(FIELD_HF_ENDPOINT@.len() != FIELD_ONBOARDING_COMPLETED@.len());
            assert(FIELD_HF_ENDPOINT@.len() != FIELD_INPUT_DEVICE@.len());
        },
        ConfigField::CustomPromptEnabled => {
            assert(FIELD_CUSTOM_PROMPT_ENABLED@.len() != FIELD_API_KEY@.len());
            assert(FIELD_CUSTOM_PROMPT_ENABLED@.len() != FIELD_API_BASE_URL@.len());
            assert(FIELD_CUSTOM_PROMPT_ENABLED@.len() != FIELD_MODEL@.len());
            assert(FIELD_CUSTOM_PROMPT_ENABLED@.len() != FIELD_LANGUAGE@.len());
            assert(FIELD_CUSTOM_PROMPT_ENABLED@.len() != FIELD_HOTKEY@.len());
            assert(FIELD_CUSTOM_PROMPT_ENABLED@.len() != FIELD_MODEL_PATH@.len());
            assert(FIELD_CUSTOM_PROMPT_ENABLED@.len() != FIELD_STT_MODEL@.len());
            assert(FIELD_CUSTOM_PROMPT_ENABLED@.len() != FIELD_TEXT_STRUCTURING@.len());
            assert(FIELD_CUSTOM_PROMPT_ENABLED@.len() != FIELD_USER_TAGS@.len());
            assert(FIELD_CUSTOM_PROMPT_ENABLED@.len() != FIELD_CUSTOM_MODELS@.len());
            assert(FIELD_CUSTOM_PROMPT_ENABLED@.len() != FIELD_ONBOARDING_COMPLETED@.len());
            assert(FIELD_CUSTOM_PROMPT_ENABLED@.len() != FIELD_INPUT_DEVICE@.len());
            assert(FIELD_CUSTOM_PROMPT_ENABLED@.len() != FIELD_HF_ENDPOINT@.len());
        },
        ConfigField::CustomPrompt => {
            assert(FIELD_CUSTOM_PROMPT@.len() != FIELD_API_KEY@.len());
            assert(FIELD_CUSTOM_PROMPT@.len() != FIELD_API_BASE_URL@.len());
            assert(FIELD_CUSTOM_PROMPT@.len() != FIELD_MODEL@.len());
            assert(FIELD_CUSTOM_PROMPT@.len() != FIELD_LANGUAGE@.len());
            assert(FIELD_CUSTOM_PROMPT@.len() != FIELD_HOTKEY@.len());
            assert(FIELD_CUSTOM_PROMPT@.len() != FIELD_MODEL_PATH@.len());
            assert(FIELD_CUSTOM_PROMPT@.len() != FIELD_STT_MODEL@.len());
            assert(FIELD_CUSTOM_PROMPT@.len() != FIELD_TEXT_STRUCTURING@.len());
            assert(FIELD_CUSTOM_PROMPT@.len() != FIELD_USER_TAGS@.len());
            assert(FIELD_CUSTOM_PROMPT@[7] != FIELD_CUSTOM_MODELS@[7]);
            assert(FIELD_CUSTOM_PROMPT@.len() != FIELD_ONBOARDING_COMPLETED@.len());
            assert(FIELD_CUSTOM_PROMPT@.len() != FIELD_INPUT_DEVICE@.len());
            assert(FIELD_CUSTOM_PROMPT@.len() != FIELD_HF_ENDPOINT@.len());
            assert(FIELD_CUSTOM_PROMPT@.len() != FIELD_CUSTOM_PROMPT_ENABLED@.len());
        },
        ConfigField::StructuringPrompt => {
            assert(FIELD_STRUCTURING_PROMPT@.len() != FIELD_API_KEY@.len());
            assert(FIELD_STRUCTURING_PROMPT@.len() != FIELD_API_BASE_URL@.len());
            assert(FIELD_STRUCTURING_PROMPT@.len() != FIELD_MODEL@.len());
            assert(FIELD_STRUCTURING_PROMPT@.len() != FIELD_LANGUAGE@.len());
            assert(FIELD_STRUCTURING_PROMPT@.len() != FIELD_HOTKEY@.len());
            assert(FIELD_STRUCTURING_PROMPT@.len() != FIELD_MODEL_PATH@.len());
            assert(FIELD_STRUCTURING_PROMPT@.len() != FIELD_STT_MODEL@.len());
            assert(FIELD_STRUCTURING_PROMPT@.len() != FIELD_TEXT_STRUCTURING@.len());
            assert(FIELD_STRUCTURING_PROMPT@.len() != FIELD_USER_TAGS@.len());
            assert(FIELD_STRUCTURING_PROMPT@.len() != FIELD_CUSTOM_MODELS@.len());
            assert(FIELD_STRUCTURING_PROMPT@.len() != FIELD_ONBOARDING_COMPLETED@.len());
            assert(FIELD_STRUCTURING_PROMPT@.len() != FIELD_INPUT_DEVICE@.len());
            assert(FIELD_STRUCTURING_PROMPT@.len() != FIELD_HF_ENDPOINT@.len());
            assert(FIELD_STRUCTURING_PROMPT@.len() != FIELD_CUSTOM_PROMPT_ENABLED@.len());
            assert(FIELD_STRUCTURING_PROMPT@.len() != FIELD_CUSTOM_PROMPT@.len());
        },
    }
}

/// Setting a flag by its name stores whether the value reads `true` in any
/// ASCII letter case, and keeps every other setting; the update always
/// succeeds.
pub proof fn law_flag_update(
    c: ConfigView,
    f: ConfigField,
    value: Seq<char>,
    parsed: Result<Seq<Seq<char>>, Seq<char>>,
)
    requires
        is_flag_field(f),
    ensures
        field_update(c, field_name(f), value, parsed) == Ok::<ConfigView, Seq<char>>(
            with_field(c, f, value, Seq::empty()),
        ),
        f == ConfigField::TextStructuring ==> field_update(c, field_name(f), value, parsed)
            == Ok::<ConfigView, Seq<char>>(
            ConfigView { text_structuring: eq_ic(value, TRUE_TEXT@), ..c },
        ),
        f == ConfigField::OnboardingCompleted ==> field_update(c, field_name(f), value, parsed)
            == Ok::<ConfigView, Seq<char>>(
            ConfigView { onboarding_completed: eq_ic(value, TRUE_TEXT@), ..c },
        ),
        f == ConfigField::CustomPromptEnabled ==> field_update(c, field_name(f), value, parsed)
            == Ok::<ConfigView, Seq<char>>(
            ConfigView { custom_prompt_enabled: eq_ic(value, TRUE_TEXT@), ..c },
        ),
{
    law_field_names_select(f);
}

/// Whether the stored custom prompt is a verbatim default template of an
/// earlier release, which loading clears.
pub open spec fn needs_migration(c: ConfigView) -> bool {
    c.custom_prompt.len() > 0 && is_legacy(c.custom_prompt)
}

/// The settings after the load-time migration.
pub open spec fn migrated(c: ConfigView) -> ConfigView {
    if needs_migration(c) {
        ConfigView { custom_prompt: Seq::empty(), ..c }
    } else {
        c
    }
}

/// The settings that loading yields from the parsed settings file (`None`
/// when there is no file): the defaults, or the file's settings with a
/// custom prompt cleared when it is a default template of an earlier
/// release. The flag says whether the cleaned settings must be written back.
pub fn load(file: Option<AppConfig>) -> (r: (AppConfig, bool))
    ensures
        match file {
            None => r.0@ == default_config() && !r.1,
            Some(c) => r.0@ == migrated(c@) && r.1 == needs_migration(c@),
        },
{
    match file {
        None => (AppConfig::default(), false),
        Some(c) => {
            let mut c = c;
            let nonempty = chars_of(c.custom_prompt.as_str()).len() > 0;
            if nonempty && is_legacy_default_template(c.custom_prompt.as_str()) {
                c.custom_prompt = String::new();
                (c, true)
            } else {
                (c, false)
            }
        },
    }
}

/// Loaded settings never hold a legacy default template as custom prompt,
/// and loading them again changes nothing.
pub proof fn law_migration_settles(c: ConfigView)
    ensures
        !needs_migration(migrated(c)),
        migrated(migrated(c)) == migrated(c),
{
}

/// The settings directory under the system configuration directory `base`.
pub open spec fn config_dir_under(base: Seq<char>) -> Seq<char> {
    join_path(base, APP_CONFIG_DIR@)
}

/// `dirs::config_dir`, as text. Nothing is stated of the result: it
/// depends on the platform and the environment.
#[verifier::external_body]
fn system_config_dir() -> (r: Option<String>) {
    dirs::config_dir().map(|p| p.to_string_lossy().into_owned())
}

/// The settings directory, given the system configuration directory (`None`
/// when the system has none).
pub fn config_dir_from(base: Option<String>) -> (r: Result<String, AppError>)
    ensures
        match base {
            Some(b) => r matches Ok(d) && d@ == config_dir_under(b@),
            None => r matches Err(e) && e is Config && e.text() == NO_CONFIG_DIR@,
        },
{
    match base {
        Some(b) => Ok(join_path_exec(b.as_str(), APP_CONFIG_DIR)),
        None => Err(AppError::Config(owned(NO_CONFIG_DIR))),
    }
}

/// The settings directory inside the system configuration directory.
pub fn config_dir() -> (r: Result<String, AppError>)
    ensures
        match r {
            Ok(d) => exists|b: Seq<char>| d@ == config_dir_under(b),
            Err(e) => e is Config && e.text() == NO_CONFIG_DIR@,
        },
{
    let base = system_config_dir();
    let ghost gb = base;
    let r = config_dir_from(base);
    proof {
        if let Some(b) = gb {
            assert(r->Ok_0@ == config_dir_under(b@));
        }
    }
    r
}

/// The settings file inside the system configuration directory.
pub fn config_path() -> (r: Result<String, AppError>)
    ensures
        match r {
            Ok(p) => exists|b: Seq<char>| p@ == join_path(config_dir_under(b), CONFIG_FILENAME@),
            Err(e) => e is Config && e.text() == NO_CONFIG_DIR@,
        },
{
    match config_dir() {
        Ok(d) => {
            let p = join_path_exec(d.as_str(), CONFIG_FILENAME);
            proof {
                let b = choose|b: Seq<char>| d@ == config_dir_under(b);
                assert(p@ == join_path(config_dir_under(b), CONFIG_FILENAME@));
            }
            Ok(p)
        },
        Err(e) => Err(e),
    }
}


/// The model host used when the setting is missing.
pub fn default_hf_endpoint() -> (s: String)
    ensures
        s@ == DEFAULT_HF_ENDPOINT@,
{
    owned(DEFAULT_HF_ENDPOINT)
}

/// The speech-to-text model used when the setting is missing.
pub fn default_stt_model() -> (s: String)
    ensures
        s@ == DEFAULT_STT_MODEL@,
{
    owned(DEFAULT_STT_MODEL)
}

/// Text structuring is off when the setting is missing.
pub fn default_text_structuring() -> (b: bool)
    ensures
        !b,
{
    false
}
} // verus!
