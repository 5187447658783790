//! The decisions around the activation hotkey: how a hotkey is registered,
//! what its press and release do, how the outcome of each stage is reported,
//! how the hotkey is changed, and which speech-to-text model the application
//! starts with.
use vstd::prelude::*;

use crate::errors::{concat2, concat3, owned, AppError};
use crate::input::hotkey::{accelerator, hotkey_error_text, hotkey_parse_ok, to_tauri_shortcut};
use crate::input::single_key::{key_named, normalized, SingleKey};
use crate::models::manager::{
    backend_files, backend_paths, files_under, paths_backend, paths_list, BackendPaths,
    ZIPFORMER_NOT_WIRED,
};
use crate::config::NO_CONFIG_DIR;
use crate::models::registry::{get_model, lookup};
use crate::pipeline::CANCELLED;
use crate::text::{chars_of, contains, contains_exec, eq_ic, eq_ic_exec};

verus! {

pub const ESCAPE_KEY: &'static str = "Escape";

pub const START_TIMED_OUT: &'static str = "start_recording timed out (10s)";

pub const STOP_TIMED_OUT: &'static str = "stop_recording timed out";

pub const TASK_PANICKED_PREFIX: &'static str = "spawn_blocking panic: ";

pub const MONITOR_START_FAILED_PREFIX: &'static str = "Failed to start single-key monitor: ";

pub const MONITOR_STOP_FAILED_PREFIX: &'static str = "Failed to stop single-key monitor: ";

pub const REGISTER_FAILED_PREFIX: &'static str = "Failed to register shortcut '";

pub const UNREGISTER_FAILED_PREFIX: &'static str = "Failed to unregister shortcut '";

pub const SHORTCUT_FAILED_MIDDLE: &'static str = "': ";

pub const UNKNOWN_STT_MODEL_PREFIX: &'static str = "Unknown STT model: ";

pub const STT_NOT_DOWNLOADED_PREFIX: &'static str = "Model '";

pub const STT_NOT_DOWNLOADED_SUFFIX: &'static str = "' is not downloaded yet";

/// Seconds allowed for starting or stopping a recording.
pub const RECORDER_TIMEOUT_SECS: u64 = 10;

/// Seconds allowed for cancelling a job from the Escape key.
pub const CANCEL_TIMEOUT_SECS: u64 = 5;

/// Whether the hotkey names a single modifier key watched by the native key
/// monitor rather than a combination for the global-shortcut service.
pub fn is_single_key_hotkey(raw: &str) -> (b: bool)
    ensures
        b == key_named(normalized(raw@)) is Some,
{
    crate::input::hotkey::is_single_key(raw)
}

/// Where a hotkey is registered.
pub enum ShortcutRoute {
    /// With the native monitor of a single modifier key.
    SingleKey(SingleKey),
    /// With the global-shortcut service, as this accelerator.
    Accelerator(String),
}

/// Where the hotkey goes: a single modifier key to its monitor, anything
/// else to the global-shortcut service in accelerator syntax, or the error
/// of a hotkey that does not parse.
pub fn shortcut_route(raw: &str) -> (r: Result<ShortcutRoute, AppError>)
    ensures
        key_named(normalized(raw@)) matches Some(k) ==> (r matches Ok(ShortcutRoute::SingleKey(
            j,
        )) && j == k),
        key_named(normalized(raw@)) is None ==> {
            &&& (r is Ok <==> hotkey_parse_ok(raw@))
            &&& r matches Ok(route) ==> (route matches ShortcutRoute::Accelerator(s) && s@
                == accelerator(raw@))
            &&& r matches Err(e) ==> e is Input && hotkey_error_text(raw@, e.text())
        },
{
    match SingleKey::from_raw(raw) {
        Some(k) => Ok(ShortcutRoute::SingleKey(k)),
        None => match to_tauri_shortcut(raw) {
            Ok(s) => Ok(ShortcutRoute::Accelerator(s)),
            Err(e) => Err(e),
        },
    }
}

/// The error of a shortcut the service refused; `service_error` is the
/// service's message.
pub fn register_failed(shortcut: &str, service_error: &str) -> (e: AppError)
    ensures
        e is Input,
        e.text() == REGISTER_FAILED_PREFIX@ + shortcut@ + SHORTCUT_FAILED_MIDDLE@
            + service_error@,
{
    let a = concat3(REGISTER_FAILED_PREFIX, shortcut, SHORTCUT_FAILED_MIDDLE);
    AppError::Input(concat2(a.as_str(), service_error))
}

/// The error of a shortcut the service failed to release.
pub fn unregister_failed(shortcut: &str, service_error: &str) -> (e: AppError)
    ensures
        e is Input,
        e.text() == UNREGISTER_FAILED_PREFIX@ + shortcut@ + SHORTCUT_FAILED_MIDDLE@
            + service_error@,
{
    let a = concat3(UNREGISTER_FAILED_PREFIX, shortcut, SHORTCUT_FAILED_MIDDLE);
    AppError::Input(concat2(a.as_str(), service_error))
}

/// The error of a key monitor that failed to start.
pub fn monitor_start_failed(monitor_error: &str) -> (e: AppError)
    ensures
        e is Input,
        e.text() == MONITOR_START_FAILED_PREFIX@ + monitor_error@,
{
    AppError::Input(concat2(MONITOR_START_FAILED_PREFIX, monitor_error))
}

/// The error of a key monitor that failed to stop.
pub fn monitor_stop_failed(monitor_error: &str) -> (e: AppError)
    ensures
        e is Input,
        e.text() == MONITOR_STOP_FAILED_PREFIX@ + monitor_error@,
{
    AppError::Input(concat2(MONITOR_STOP_FAILED_PREFIX, monitor_error))
}

/// A press of the hotkey starts a recording unless one is running.
pub fn starts_on_press(pipeline_active: bool) -> (b: bool)
    ensures
        b == !pipeline_active,
{
    !pipeline_active
}

/// How an attempt to start or stop the recorder ended.
pub enum RecorderOutcome {
    Done,
    Failed(AppError),
    /// The worker task panicked; its message.
    Panicked(String),
    TimedOut,
}

/// The message shown when starting a recording failed; `None` when it
/// started.
pub fn start_failure(outcome: RecorderOutcome) -> (r: Option<String>)
    ensures
        match outcome {
            RecorderOutcome::Done => r is None,
            RecorderOutcome::Failed(e) => r matches Some(m) && m@ == e.text(),
            RecorderOutcome::Panicked(p) => r matches Some(m) && m@ == TASK_PANICKED_PREFIX@ + p@,
            RecorderOutcome::TimedOut => r matches Some(m) && m@ == START_TIMED_OUT@,
        },
{
    match outcome {
        RecorderOutcome::Done => None,
        RecorderOutcome::Failed(e) => Some(e.message()),
        RecorderOutcome::Panicked(p) => Some(concat2(TASK_PANICKED_PREFIX, p.as_str())),
        RecorderOutcome::TimedOut => Some(owned(START_TIMED_OUT)),
    }
}

/// What a release of the hotkey does.
pub enum ReleaseAction {
    /// Starting failed: only hide the error after a while.
    HideError,
    /// Nothing is recording.
    Ignore,
    /// Stop the recording and process it.
    Stop,
}

/// The release of the hotkey: a pending start error wins, then a running
/// recording is stopped. The pending error is cleared in every case.
pub fn on_release(error_pending: bool, pipeline_active: bool) -> (r: (ReleaseAction, bool))
    ensures
        !r.1,
        error_pending ==> r.0 is HideError,
        !error_pending && pipeline_active ==> r.0 is Stop,
        !error_pending && !pipeline_active ==> r.0 is Ignore,
{
    if error_pending {
        (ReleaseAction::HideError, false)
    } else if pipeline_active {
        (ReleaseAction::Stop, false)
    } else {
        (ReleaseAction::Ignore, false)
    }
}

/// What follows an attempt to stop the recorder.
pub enum StopFollowUp {
    /// Process the recording.
    Process,
    /// Show this error, then hide the overlay after a while.
    ShowError(String),
    /// Give up quietly (the worker task panicked).
    Abandon,
}

/// See `StopFollowUp`.
pub fn after_stop(outcome: RecorderOutcome) -> (r: StopFollowUp)
    ensures
        match outcome {
            RecorderOutcome::Done => r is Process,
            RecorderOutcome::Failed(e) => r matches StopFollowUp::ShowError(m) && m@ == e.text(),
            RecorderOutcome::Panicked(_) => r is Abandon,
            RecorderOutcome::TimedOut => r matches StopFollowUp::ShowError(m) && m@
                == STOP_TIMED_OUT@,
        },
{
    match outcome {
        RecorderOutcome::Done => StopFollowUp::Process,
        RecorderOutcome::Failed(e) => StopFollowUp::ShowError(e.message()),
        RecorderOutcome::Panicked(_) => StopFollowUp::Abandon,
        RecorderOutcome::TimedOut => StopFollowUp::ShowError(owned(STOP_TIMED_OUT)),
    }
}

/// The error to show once a job ended: none for a job that succeeded or
/// that the user cancelled.
pub fn after_processing(outcome: &Result<String, AppError>) -> (r: Option<String>)
    ensures
        match outcome {
            Ok(_) => r is None,
            Err(e) => if contains(e.text(), CANCELLED@) {
                r is None
            } else {
                r matches Some(m) && m@ == e.text()
            },
        },
{
    match outcome {
        Ok(_) => None,
        Err(e) => {
            let m = e.message();
            if contains_exec(&chars_of(m.as_str()), &chars_of(CANCELLED)) {
                None
            } else {
                Some(m)
            }
        },
    }
}

/// Registering the Escape shortcut when its registration flag is
/// `registered`: the new flag, and whether to register it now.
pub open spec fn escape_register(registered: bool) -> (bool, bool) {
    (true, !registered)
}

/// Releasing the Escape shortcut: the new flag, and whether to release it
/// now.
pub open spec fn escape_unregister(registered: bool) -> (bool, bool) {
    (false, registered)
}

/// See `escape_register`.
pub fn escape_register_step(registered: bool) -> (r: (bool, bool))
    ensures
        r == escape_register(registered),
{
    (true, !registered)
}

/// See `escape_unregister`.
pub fn escape_unregister_step(registered: bool) -> (r: (bool, bool))
    ensures
        r == escape_unregister(registered),
{
    (false, registered)
}

/// Registering Escape twice registers it once, releasing it twice releases
/// it once, and a release always re-enables a later registration.
pub proof fn law_escape_registration_idempotent(registered: bool)
    ensures
        !escape_register(escape_register(registered).0).1,
        !escape_unregister(escape_unregister(registered).0).1,
        escape_register(escape_unregister(registered).0).1,
{
}

/// How a change of the hotkey is carried out.
pub enum HotkeyChange {
    /// Same hotkey (up to letter case): only the setting is rewritten.
    SaveOnly,
    /// Release the old hotkey, register the new one (restoring the old one
    /// if that fails), then save the setting.
    Replace,
}

/// Plans changing the hotkey from `current` to `requested`. A requested
/// combination that does not parse is refused with the parse error.
pub fn plan_hotkey_change(current: &str, requested: &str) -> (r: Result<HotkeyChange, AppError>)
    ensures
        key_named(normalized(requested@)) is None && !hotkey_parse_ok(requested@) ==> (r matches Err(
            e,
        ) && e is Input && hotkey_error_text(requested@, e.text())),
        key_named(normalized(requested@)) is Some || hotkey_parse_ok(requested@) ==> {
            &&& r is Ok
            &&& (r matches Ok(HotkeyChange::SaveOnly) <==> eq_ic(current@, requested@))
        },
{
    if !is_single_key_hotkey(requested) {
        match to_tauri_shortcut(requested) {
            Ok(_) => {},
            Err(e) => return Err(e),
        }
    }
    if eq_ic_exec(&chars_of(current), &chars_of(requested)) {
        Ok(HotkeyChange::SaveOnly)
    } else {
        Ok(HotkeyChange::Replace)
    }
}

/// The speech-to-text model the application starts with.
pub enum StartupModel {
    /// The configured catalog model.
    Configured,
    /// A model file named by the legacy `model_path` setting.
    Legacy,
    /// The model bundled with the application.
    Bundled,
    /// None: the user has to download one.
    NoModel,
}

/// The start-up choice: the configured model when it is downloaded;
/// otherwise the legacy model path when it is set (if the file exists);
/// otherwise the bundled model when there is one.
pub fn startup_model(
    configured_downloaded: bool,
    legacy_model_path: &str,
    legacy_exists: bool,
    bundled_found: bool,
) -> (r: StartupModel)
    ensures
        configured_downloaded ==> r is Configured,
        !configured_downloaded && legacy_model_path@.len() > 0 ==> (if legacy_exists {
            r is Legacy
        } else {
            r is NoModel
        }),
        !configured_downloaded && legacy_model_path@.len() == 0 ==> (if bundled_found {
            r is Bundled
        } else {
            r is NoModel
        }),
{
    if configured_downloaded {
        StartupModel::Configured
    } else if chars_of(legacy_model_path).len() > 0 {
        if legacy_exists {
            StartupModel::Legacy
        } else {
            StartupModel::NoModel
        }
    } else if bundled_found {
        StartupModel::Bundled
    } else {
        StartupModel::NoModel
    }
}

/// What loading speech-to-text model `model_id` needs, given whether its
/// files are all on disk: the backend's paths, or why it cannot be loaded.
pub fn stt_load_plan(model_id: &str, downloaded: bool) -> (r: Result<BackendPaths, AppError>)
    ensures
        lookup(model_id@) is None ==> (r matches Err(e) && e is Whisper && e.text()
            == UNKNOWN_STT_MODEL_PREFIX@ + model_id@),
        lookup(model_id@) matches Some(m) ==> {
            if !downloaded {
                r matches Err(e) && e is Whisper && e.text() == STT_NOT_DOWNLOADED_PREFIX@
                    + model_id@ + STT_NOT_DOWNLOADED_SUFFIX@
            } else {
                match backend_files(m) {
                    None => r matches Err(e) && e is Whisper && e.text() == ZIPFORMER_NOT_WIRED@,
                    Some(files) => match r {
                        Ok(p) => paths_backend(p) == m.backend && exists|b: Seq<char>|
                            paths_list(p) == files_under(b, model_id@, files),
                        Err(e) => e is Config && e.text() == NO_CONFIG_DIR@,
                    },
                }
            }
        },
{
    let info = match get_model(model_id) {
        Some(m) => m,
        None => return Err(AppError::Whisper(concat2(UNKNOWN_STT_MODEL_PREFIX, model_id))),
    };
    if !downloaded {
        return Err(
            AppError::Whisper(concat3(STT_NOT_DOWNLOADED_PREFIX, model_id, STT_NOT_DOWNLOADED_SUFFIX)),
        );
    }
    backend_paths(model_id, &info)
}

} // verus!
