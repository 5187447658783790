use input0::activation::{
    after_processing, after_stop, escape_register_step, escape_unregister_step, on_release,
    start_failure, startup_model, stt_load_plan, ReleaseAction, RecorderOutcome, StartupModel,
    StopFollowUp,
};
use input0::audio::{device_listing, pick_input_device, DeviceChoice};
use input0::errors::AppError;
use input0::pipeline::{
    check_can_record, check_can_stop, chosen_input_device, job_step, needs_clipboard,
    should_optimize, AudioJob, JobAction, JobEvent, JobPhase, PipelineState,
};
use input0::shared::{new_pipeline_active, new_pipeline_error_pending, CancellationToken};

fn run(job: AudioJob, event: JobEvent) -> (AudioJob, Vec<JobAction>) {
    job_step(job, event)
}

fn finish_of(actions: &[JobAction]) -> Option<&Result<String, AppError>> {
    actions.iter().find_map(|a| match a {
        JobAction::Finish(r) => Some(r),
        _ => None,
    })
}

#[test]
fn job_with_correction_pastes_corrected_text() {
    let job = AudioJob::new();
    let (job, acts) = run(job, JobEvent::Began { cancelled: false });
    assert!(matches!(acts[0], JobAction::Emit(PipelineState::Transcribing)));
    assert!(matches!(acts[1], JobAction::PrepareAudio));
    let (job, acts) = run(job, JobEvent::AudioReady { cancelled: false });
    assert!(matches!(acts[0], JobAction::Transcribe));
    let (job, acts) = run(
        job,
        JobEvent::Transcribed { text: "helo world".to_string(), cancelled: false, optimize: true },
    );
    assert!(matches!(acts[0], JobAction::Emit(PipelineState::Optimizing)));
    match &acts[1] {
        JobAction::Optimize(t) => assert_eq!(t, "helo world"),
        _ => panic!("expected a correction request"),
    }
    let (job, acts) = run(
        job,
        JobEvent::Optimized { result: Ok("Hello world.".to_string()), cancelled: false },
    );
    match &acts[0] {
        JobAction::SaveHistory(h) => {
            assert_eq!(h.original, "helo world");
            assert_eq!(h.corrected, "Hello world.");
        }
        _ => panic!("expected the history to be saved"),
    }
    let (job, acts) = run(job, JobEvent::HistorySaved { cancelled: false });
    assert!(matches!(acts[0], JobAction::Emit(PipelineState::Pasting)));
    assert!(matches!(acts[1], JobAction::CheckAccess));
    let (job, acts) = run(job, JobEvent::AccessChecked { granted: true });
    match &acts[0] {
        JobAction::Paste(t) => assert_eq!(t, "Hello world."),
        _ => panic!("expected a paste"),
    }
    let (job, acts) = run(job, JobEvent::Pasted);
    match &acts[0] {
        JobAction::Emit(PipelineState::Done { transcribed_text, text }) => {
            assert_eq!(transcribed_text, "helo world");
            assert_eq!(text, "Hello world.");
        }
        _ => panic!("expected the done state"),
    }
    assert!(matches!(acts[1], JobAction::HideAfter(1200)));
    assert_eq!(finish_of(&acts).unwrap().as_ref().unwrap(), "Hello world.");
    assert_eq!(job.phase, JobPhase::Finished);
}

#[test]
fn failed_correction_warns_and_keeps_transcript() {
    let job = AudioJob::new();
    let (job, _) = run(job, JobEvent::Began { cancelled: false });
    let (job, _) = run(job, JobEvent::AudioReady { cancelled: false });
    let (job, _) = run(
        job,
        JobEvent::Transcribed { text: "raw text".to_string(), cancelled: false, optimize: true },
    );
    let (job, acts) = run(
        job,
        JobEvent::Optimized { result: Err("API error".to_string()), cancelled: false },
    );
    match &acts[0] {
        JobAction::Warn(m) => assert_eq!(
            m,
            "Text optimization failed: API error. Using original transcription."
        ),
        _ => panic!("expected a warning"),
    }
    assert!(!acts.iter().any(|a| matches!(a, JobAction::SaveHistory(_))));
    let (job, _) = run(job, JobEvent::AccessChecked { granted: true });
    assert_eq!(job.final_text, "raw text");
}

#[test]
fn blank_transcript_finishes_empty() {
    let job = AudioJob::new();
    let (job, _) = run(job, JobEvent::Began { cancelled: false });
    let (job, _) = run(job, JobEvent::AudioReady { cancelled: false });
    let (job, acts) = run(
        job,
        JobEvent::Transcribed { text: "  \n ".to_string(), cancelled: false, optimize: true },
    );
    assert_eq!(job.phase, JobPhase::Finished);
    assert!(matches!(
        &acts[0],
        JobAction::Emit(PipelineState::Done { transcribed_text, text }) if transcribed_text.is_empty() && text.is_empty()
    ));
    assert_eq!(finish_of(&acts).unwrap().as_ref().unwrap(), "");
}

#[test]
fn cancellation_wins_at_every_checkpoint() {
    let (job, acts) = run(AudioJob::new(), JobEvent::Began { cancelled: true });
    assert_eq!(job.phase, JobPhase::Finished);
    let e = finish_of(&acts).unwrap().as_ref().err().unwrap();
    assert_eq!(e.message(), "Cancelled");
    let (job, _) = run(AudioJob::new(), JobEvent::Began { cancelled: false });
    let (job, _) = run(job, JobEvent::AudioReady { cancelled: false });
    let (job, _) = run(
        job,
        JobEvent::Transcribed { text: "x".to_string(), cancelled: false, optimize: true },
    );
    let (job, acts) = run(
        job,
        JobEvent::Optimized { result: Ok("X".to_string()), cancelled: true },
    );
    assert!(!acts.iter().any(|a| matches!(a, JobAction::SaveHistory(_) | JobAction::Paste(_))));
    assert_eq!(finish_of(&acts).unwrap().as_ref().err().unwrap().message(), "Cancelled");
    let (_, acts) = run(job, JobEvent::Pasted);
    assert!(acts.is_empty());
}

#[test]
fn missing_permission_stops_before_paste() {
    let (job, _) = run(AudioJob::new(), JobEvent::Began { cancelled: false });
    let (job, _) = run(job, JobEvent::AudioReady { cancelled: false });
    let (job, acts) = run(
        job,
        JobEvent::Transcribed { text: "hi".to_string(), cancelled: false, optimize: false },
    );
    assert!(matches!(acts[0], JobAction::Emit(PipelineState::Pasting)));
    let (_, acts) = run(job, JobEvent::AccessChecked { granted: false });
    assert!(matches!(acts[0], JobAction::RequestAccess));
    let e = finish_of(&acts).unwrap().as_ref().err().unwrap();
    assert!(matches!(e, AppError::Input(_)));
    assert!(e.message().starts_with("Accessibility permission required."));
}

#[test]
fn failure_ends_job_with_its_error() {
    let (job, _) = run(AudioJob::new(), JobEvent::Began { cancelled: false });
    let (job, acts) = run(job, JobEvent::Failed(AppError::Whisper("STT transcription timed out (120s)".to_string())));
    assert_eq!(job.phase, JobPhase::Finished);
    assert_eq!(
        finish_of(&acts).unwrap().as_ref().err().unwrap().message(),
        "STT transcription timed out (120s)"
    );
}

#[test]
fn optimization_and_clipboard_switches() {
    assert!(should_optimize("sk-1", "gpt-4o-mini"));
    assert!(!should_optimize("", "gpt-4o-mini"));
    assert!(!should_optimize("sk-1", ""));
    assert!(needs_clipboard(true, "Use {{clipboard}} here"));
    assert!(!needs_clipboard(false, "Use {{clipboard}} here"));
    assert!(!needs_clipboard(true, "No placeholder"));
    assert!(!needs_clipboard(true, "   "));
}

#[test]
fn recorder_checks() {
    assert_eq!(check_can_record(true, true).err().unwrap().message(), "Already recording");
    assert_eq!(
        check_can_record(false, false).err().unwrap().message(),
        "STT model not loaded. Please download and select a model in Settings."
    );
    assert!(check_can_record(false, true).is_ok());
    assert_eq!(check_can_stop(false).err().unwrap().message(), "Not recording");
    assert!(check_can_stop(true).is_ok());
    assert_eq!(chosen_input_device(Some("USB Mic".to_string())), Some("USB Mic".to_string()));
    assert_eq!(chosen_input_device(Some(String::new())), None);
    assert_eq!(chosen_input_device(None), None);
}

#[test]
fn hotkey_edges() {
    assert!(matches!(on_release(true, true), (ReleaseAction::HideError, false)));
    assert!(matches!(on_release(false, true), (ReleaseAction::Stop, false)));
    assert!(matches!(on_release(false, false), (ReleaseAction::Ignore, false)));
    assert_eq!(start_failure(RecorderOutcome::Done), None);
    assert_eq!(
        start_failure(RecorderOutcome::TimedOut).unwrap(),
        "start_recording timed out (10s)"
    );
    assert_eq!(
        start_failure(RecorderOutcome::Panicked("boom".to_string())).unwrap(),
        "spawn_blocking panic: boom"
    );
    assert!(matches!(after_stop(RecorderOutcome::Done), StopFollowUp::Process));
    assert!(matches!(after_stop(RecorderOutcome::Panicked(String::new())), StopFollowUp::Abandon));
    match after_stop(RecorderOutcome::TimedOut) {
        StopFollowUp::ShowError(m) => assert_eq!(m, "stop_recording timed out"),
        _ => panic!("expected an error"),
    }
    assert_eq!(after_processing(&Err(AppError::Audio("Cancelled".to_string()))), None);
    assert_eq!(
        after_processing(&Err(AppError::Input("Paste operation timed out (10s)".to_string()))),
        Some("Paste operation timed out (10s)".to_string())
    );
    assert_eq!(after_processing(&Ok("x".to_string())), None);
}

#[test]
fn escape_registration_is_idempotent() {
    let (flag, register) = escape_register_step(false);
    assert!(flag && register);
    let (flag, register) = escape_register_step(flag);
    assert!(flag && !register);
    let (flag, release) = escape_unregister_step(flag);
    assert!(!flag && release);
    let (_, release) = escape_unregister_step(flag);
    assert!(!release);
}

#[test]
fn startup_model_fallbacks() {
    assert!(matches!(startup_model(true, "/x.bin", true, true), StartupModel::Configured));
    assert!(matches!(startup_model(false, "/x.bin", true, true), StartupModel::Legacy));
    assert!(matches!(startup_model(false, "/x.bin", false, true), StartupModel::NoModel));
    assert!(matches!(startup_model(false, "", false, true), StartupModel::Bundled));
    assert!(matches!(startup_model(false, "", false, false), StartupModel::NoModel));
    assert_eq!(stt_load_plan("x", true).err().unwrap().message(), "Unknown STT model: x");
    assert_eq!(
        stt_load_plan("whisper-base", false).err().unwrap().message(),
        "Model 'whisper-base' is not downloaded yet"
    );
}

#[test]
fn input_devices() {
    let list = device_listing(
        vec!["Built-in".to_string(), "USB".to_string()],
        Some("USB".to_string()),
    );
    assert!(!list[0].is_default);
    assert!(list[1].is_default);
    assert_eq!(list[1].name, "USB");
    let names = vec!["A".to_string(), "B".to_string()];
    assert_eq!(pick_input_device(Some("B"), Ok(names.clone()), true).unwrap(), DeviceChoice::Listed(1));
    assert_eq!(pick_input_device(Some("C"), Ok(names.clone()), true).unwrap(), DeviceChoice::Default);
    assert_eq!(
        pick_input_device(Some("C"), Ok(names), false).err().unwrap().message(),
        "No default input device found"
    );
    assert_eq!(pick_input_device(Some(""), Err("x".to_string()), true).unwrap(), DeviceChoice::Default);
    assert_eq!(
        pick_input_device(Some("A"), Err("denied".to_string()), true).err().unwrap().message(),
        "Failed to enumerate input devices: denied"
    );
}

#[test]
fn shared_flags_start_clear() {
    let token = CancellationToken::new();
    assert!(!token.is_cancelled());
    token.cancel();
    assert!(token.is_cancelled());
    token.reset();
    assert!(!token.is_cancelled());
    let active = new_pipeline_active();
    assert!(!active.load(std::sync::atomic::Ordering::SeqCst));
    let pending = new_pipeline_error_pending();
    assert!(!pending.0.load(std::sync::atomic::Ordering::SeqCst));
}
