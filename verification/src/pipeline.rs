//! The dictation pipeline: the states shown to the user, and the decisions
//! of a job that turns recorded audio into pasted text (transcribe, optionally
//! correct with the language model, paste). The job is a state machine: the
//! application performs each action it asks for and answers with an event.
use vstd::prelude::*;

use crate::errors::{concat3, error_view, owned, AppError, ErrorKind};
use crate::llm::client::HistoryEntry;
use crate::text::{chars_of, contains, contains_exec, is_blank, trim};

verus! {

pub const CANCELLED: &'static str = "Cancelled";

pub const ALREADY_RECORDING: &'static str = "Already recording";

pub const NOT_RECORDING: &'static str = "Not recording";

pub const MODEL_NOT_LOADED: &'static str =
    "STT model not loaded. Please download and select a model in Settings.";

pub const ACCESSIBILITY_REQUIRED: &'static str =
    "Accessibility permission required. Please grant access in System Settings → Privacy & Security → Accessibility, then try again.";

pub const OPTIMIZE_FAILED_PREFIX: &'static str = "Text optimization failed: ";

pub const OPTIMIZE_FAILED_SUFFIX: &'static str = ". Using original transcription.";

pub const TRANSCRIBE_TIMED_OUT: &'static str = "STT transcription timed out (120s)";

pub const PASTE_TIMED_OUT: &'static str = "Paste operation timed out (10s)";

pub const CLIPBOARD_PLACEHOLDER: &'static str = "{{clipboard}}";

/// How long the overlay stays up after a finished job, in milliseconds.
pub const DONE_HIDE_DELAY_MS: u64 = 1200;

/// How long an error stays on the overlay, in milliseconds.
pub const ERROR_HIDE_DELAY_MS: u64 = 2200;

pub const TRANSCRIBE_TIMEOUT_SECS: u64 = 120;

pub const PASTE_TIMEOUT_SECS: u64 = 10;

/// What the overlay shows.
#[derive(Debug, Clone)]
pub enum PipelineState {
    Idle,
    Recording,
    Transcribing,
    Optimizing,
    Pasting,
    Done { transcribed_text: String, text: String },
    Error { message: String },
    Cancelled,
}

/// A change of the pipeline state, as sent to the user interface.
#[derive(Debug, Clone)]
pub struct PipelineEvent {
    pub state: PipelineState,
}

/// A non-fatal problem reported to the user interface.
#[derive(Debug, Clone)]
pub struct PipelineWarning {
    pub message: String,
}

/// The mathematical content of a `PipelineState`.
pub enum StateView {
    Idle,
    Recording,
    Transcribing,
    Optimizing,
    Pasting,
    Done(Seq<char>, Seq<char>),
    Error(Seq<char>),
    Cancelled,
}

impl View for PipelineState {
    type V = StateView;

    open spec fn view(&self) -> StateView {
        match self {
            PipelineState::Idle => StateView::Idle,
            PipelineState::Recording => StateView::Recording,
            PipelineState::Transcribing => StateView::Transcribing,
            PipelineState::Optimizing => StateView::Optimizing,
            PipelineState::Pasting => StateView::Pasting,
            PipelineState::Done { transcribed_text, text } => StateView::Done(
                transcribed_text@,
                text@,
            ),
            PipelineState::Error { message } => StateView::Error(message@),
            PipelineState::Cancelled => StateView::Cancelled,
        }
    }
}

/// Where a job stands.
#[derive(Debug, Clone, Copy, PartialEq, Eq, Structural)]
pub enum JobPhase {
    New,
    Preparing,
    Transcribing,
    Optimizing,
    SavingHistory,
    CheckingAccess,
    Pasting,
    Finished,
}

/// A job that turns one recording into pasted text.
pub struct AudioJob {
    pub phase: JobPhase,
    /// What speech-to-text produced.
    pub transcript: String,
    /// What will be pasted.
    pub final_text: String,
}

pub struct JobView {
    pub phase: JobPhase,
    pub transcript: Seq<char>,
    pub final_text: Seq<char>,
}

impl View for AudioJob {
    type V = JobView;

    open spec fn view(&self) -> JobView {
        JobView { phase: self.phase, transcript: self.transcript@, final_text: self.final_text@ }
    }
}

/// What the application reports back to a job. `cancelled` is the state of
/// the job's cancellation token when the report is made.
pub enum JobEvent {
    /// The recording was handed over.
    Began { cancelled: bool },
    /// The audio was converted for the speech-to-text engine.
    AudioReady { cancelled: bool },
    /// Speech-to-text produced `text`; `optimize` says whether the settings
    /// ask for correction by the language model.
    Transcribed { text: String, cancelled: bool, optimize: bool },
    /// The language model answered: the corrected text, or the error's text.
    Optimized { result: Result<String, String>, cancelled: bool },
    /// The correction was stored in the history (successfully or not).
    HistorySaved { cancelled: bool },
    /// Whether the process may synthesize key presses.
    AccessChecked { granted: bool },
    /// The text was pasted into the frontmost application.
    Pasted,
    /// A step failed.
    Failed(AppError),
}

pub enum EventView {
    Began(bool),
    AudioReady(bool),
    Transcribed(Seq<char>, bool, bool),
    Optimized(Result<Seq<char>, Seq<char>>, bool),
    HistorySaved(bool),
    AccessChecked(bool),
    Pasted,
    Failed((ErrorKind, Seq<char>)),
}

impl View for JobEvent {
    type V = EventView;

    open spec fn view(&self) -> EventView {
        match self {
            JobEvent::Began { cancelled } => EventView::Began(*cancelled),
            JobEvent::AudioReady { cancelled } => EventView::AudioReady(*cancelled),
            JobEvent::Transcribed { text, cancelled, optimize } => EventView::Transcribed(
                text@,
                *cancelled,
                *optimize,
            ),
            JobEvent::Optimized { result, cancelled } => EventView::Optimized(
                match result {
                    Ok(t) => Ok(t@),
                    Err(e) => Err(e@),
                },
                *cancelled,
            ),
            JobEvent::HistorySaved { cancelled } => EventView::HistorySaved(*cancelled),
            JobEvent::AccessChecked { granted } => EventView::AccessChecked(*granted),
            JobEvent::Pasted => EventView::Pasted,
            JobEvent::Failed(e) => EventView::Failed(error_view(*e)),
        }
    }
}

/// What a job asks the application to do, in order.
pub enum JobAction {
    /// Show a pipeline state.
    Emit(PipelineState),
    /// Convert the recording for the speech-to-text engine.
    PrepareAudio,
    /// Load the settings and run speech-to-text.
    Transcribe,
    /// Ask the language model to correct the text.
    Optimize(String),
    /// Store the correction in the history.
    SaveHistory(HistoryEntry),
    /// Report a non-fatal problem.
    Warn(String),
    /// Find out whether key presses may be synthesized.
    CheckAccess,
    /// Ask the user for that permission.
    RequestAccess,
    /// Paste the text into the frontmost application.
    Paste(String),
    /// Hide the overlay after this many milliseconds unless a newer job
    /// showed it meanwhile.
    HideAfter(u64),
    /// The job's outcome.
    Finish(Result<String, AppError>),
}

pub enum ActionView {
    Emit(StateView),
    PrepareAudio,
    Transcribe,
    Optimize(Seq<char>),
    SaveHistory(Seq<char>, Seq<char>),
    Warn(Seq<char>),
    CheckAccess,
    RequestAccess,
    Paste(Seq<char>),
    HideAfter(u64),
    Finish(Result<Seq<char>, (ErrorKind, Seq<char>)>),
}

impl View for JobAction {
    type V = ActionView;

    open spec fn view(&self) -> ActionView {
        match self {
            JobAction::Emit(s) => ActionView::Emit(s@),
            JobAction::PrepareAudio => ActionView::PrepareAudio,
            JobAction::Transcribe => ActionView::Transcribe,
            JobAction::Optimize(t) => ActionView::Optimize(t@),
            JobAction::SaveHistory(h) => ActionView::SaveHistory(h.original@, h.corrected@),
            JobAction::Warn(m) => ActionView::Warn(m@),
            JobAction::CheckAccess => ActionView::CheckAccess,
            JobAction::RequestAccess => ActionView::RequestAccess,
            JobAction::Paste(t) => ActionView::Paste(t@),
            JobAction::HideAfter(ms) => ActionView::HideAfter(*ms),
            JobAction::Finish(r) => ActionView::Finish(
                match r {
                    Ok(t) => Ok(t@),
                    Err(e) => Err(error_view(*e)),
                },
            ),
        }
    }
}

pub open spec fn actions_view(v: Seq<JobAction>) -> Seq<ActionView> {
    v.map_values(|a: JobAction| a@)
}

/// The outcome of a cancelled job.
pub open spec fn cancelled_outcome() -> ActionView {
    ActionView::Finish(Err((ErrorKind::Audio, CANCELLED@)))
}

/// The warning given when the language model fails and the raw transcript
/// is used instead.
pub open spec fn optimize_warning(e: Seq<char>) -> Seq<char> {
    OPTIMIZE_FAILED_PREFIX@ + e + OPTIMIZE_FAILED_SUFFIX@
}

pub open spec fn finished(job: JobView) -> JobView {
    JobView { phase: JobPhase::Finished, ..job }
}

/// The move of a job on an event: its next state and the actions to
/// perform, in order. Events that do not fit the job's phase are ignored.
pub open spec fn job_next(job: JobView, ev: EventView) -> (JobView, Seq<ActionView>) {
    match (job.phase, ev) {
        (JobPhase::New, EventView::Began(cancelled)) => if cancelled {
            (finished(job), seq![cancelled_outcome()])
        } else {
            (
                JobView { phase: JobPhase::Preparing, ..job },
                seq![ActionView::Emit(StateView::Transcribing), ActionView::PrepareAudio],
            )
        },
        (JobPhase::Preparing, EventView::AudioReady(cancelled)) => if cancelled {
            (finished(job), seq![cancelled_outcome()])
        } else {
            (JobView { phase: JobPhase::Transcribing, ..job }, seq![ActionView::Transcribe])
        },
        (JobPhase::Transcribing, EventView::Transcribed(text, cancelled, optimize)) => if cancelled {
            (finished(job), seq![cancelled_outcome()])
        } else if trim(text).len() == 0 {
            (
                JobView {
                    phase: JobPhase::Finished,
                    transcript: text,
                    final_text: Seq::empty(),
                },
                seq![
                    ActionView::Emit(StateView::Done(Seq::empty(), Seq::empty())),
                    ActionView::HideAfter(DONE_HIDE_DELAY_MS),
                    ActionView::Finish(Ok(Seq::empty())),
                ],
            )
        } else if optimize {
            (
                JobView { phase: JobPhase::Optimizing, transcript: text, final_text: text },
                seq![ActionView::Emit(StateView::Optimizing), ActionView::Optimize(text)],
            )
        } else {
            (
                JobView { phase: JobPhase::CheckingAccess, transcript: text, final_text: text },
                seq![ActionView::Emit(StateView::Pasting), ActionView::CheckAccess],
            )
        },
        (JobPhase::Optimizing, EventView::Optimized(result, cancelled)) => match result {
            Ok(o) => if cancelled {
                (finished(job), seq![cancelled_outcome()])
            } else {
                (
                    JobView { phase: JobPhase::SavingHistory, final_text: o, ..job },
                    seq![ActionView::SaveHistory(job.transcript, o)],
                )
            },
            Err(e) => if cancelled {
                (
                    JobView { phase: JobPhase::Finished, final_text: job.transcript, ..job },
                    seq![ActionView::Warn(optimize_warning(e)), cancelled_outcome()],
                )
            } else {
                (
                    JobView {
                        phase: JobPhase::CheckingAccess,
                        final_text: job.transcript,
                        ..job
                    },
                    seq![
                        ActionView::Warn(optimize_warning(e)),
                        ActionView::Emit(StateView::Pasting),
                        ActionView::CheckAccess,
                    ],
                )
            },
        },
        (JobPhase::SavingHistory, EventView::HistorySaved(cancelled)) => if cancelled {
            (finished(job), seq![cancelled_outcome()])
        } else {
            (
                JobView { phase: JobPhase::CheckingAccess, ..job },
                seq![ActionView::Emit(StateView::Pasting), ActionView::CheckAccess],
            )
        },
        (JobPhase::CheckingAccess, EventView::AccessChecked(granted)) => if granted {
            (JobView { phase: JobPhase::Pasting, ..job }, seq![ActionView::Paste(job.final_text)])
        } else {
            (
                finished(job),
                seq![
                    ActionView::RequestAccess,
                    ActionView::Finish(Err((ErrorKind::Input, ACCESSIBILITY_REQUIRED@))),
                ],
            )
        },
        (JobPhase::Pasting, EventView::Pasted) => (
            finished(job),
            seq![
                ActionView::Emit(StateView::Done(job.transcript, job.final_text)),
                ActionView::HideAfter(DONE_HIDE_DELAY_MS),
                ActionView::Finish(Ok(job.final_text)),
            ],
        ),
        (phase, EventView::Failed(e)) => if phase == JobPhase::Finished {
            (job, Seq::empty())
        } else {
            (finished(job), seq![ActionView::Finish(Err(e))])
        },
        _ => (job, Seq::empty()),
    }
}

impl AudioJob {
    /// A job that has not started yet.
    pub fn new() -> (j: AudioJob)
        ensures
            j@.phase == JobPhase::New,
            j@.transcript.len() == 0,
            j@.final_text.len() == 0,
    {
        AudioJob { phase: JobPhase::New, transcript: String::new(), final_text: String::new() }
    }
}

fn cancelled_error() -> (e: AppError)
    ensures
        error_view(e) == (ErrorKind::Audio, CANCELLED@),
{
    AppError::Audio(owned(CANCELLED))
}

fn copy_string(s: &String) -> (r: String)
    ensures
        r@ == s@,
{
    owned(s.as_str())
}

/// Advances `job` on `event` (see `job_next`).
pub fn job_step(job: AudioJob, event: JobEvent) -> (r: (AudioJob, Vec<JobAction>))
    ensures
        r.0@ == job_next(job@, event@).0,
        actions_view(r.1@) == job_next(job@, event@).1,
{
    let ghost j = job@;
    let ghost ev = event@;
    let mut job = job;
    let mut acts: Vec<JobAction> = Vec::new();
    match (job.phase, event) {
        (JobPhase::New, JobEvent::Began { cancelled }) => {
            if cancelled {
                job.phase = JobPhase::Finished;
                acts.push(JobAction::Finish(Err(cancelled_error())));
            } else {
                job.phase = JobPhase::Preparing;
                acts.push(JobAction::Emit(PipelineState::Transcribing));
                acts.push(JobAction::PrepareAudio);
            }
        },
        (JobPhase::Preparing, JobEvent::AudioReady { cancelled }) => {
            if cancelled {
                job.phase = JobPhase::Finished;
                acts.push(JobAction::Finish(Err(cancelled_error())));
            } else {
                job.phase = JobPhase::Transcribing;
                acts.push(JobAction::Transcribe);
            }
        },
        (JobPhase::Transcribing, JobEvent::Transcribed { text, cancelled, optimize }) => {
            if cancelled {
                job.phase = JobPhase::Finished;
                acts.push(JobAction::Finish(Err(cancelled_error())));
            } else if is_blank(&chars_of(text.as_str())) {
                job.phase = JobPhase::Finished;
                job.transcript = text;
                job.final_text = String::new();
                acts.push(
                    JobAction::Emit(
                        PipelineState::Done { transcribed_text: String::new(), text: String::new() },
                    ),
                );
                acts.push(JobAction::HideAfter(DONE_HIDE_DELAY_MS));
                acts.push(JobAction::Finish(Ok(String::new())));
            } else if optimize {
                job.phase = JobPhase::Optimizing;
                job.final_text = copy_string(&text);
                let t = copy_string(&text);
                job.transcript = text;
                acts.push(JobAction::Emit(PipelineState::Optimizing));
                acts.push(JobAction::Optimize(t));
            } else {
                job.phase = JobPhase::CheckingAccess;
                job.final_text = copy_string(&text);
                job.transcript = text;
                acts.push(JobAction::Emit(PipelineState::Pasting));
                acts.push(JobAction::CheckAccess);
            }
        },
        (JobPhase::Optimizing, JobEvent::Optimized { result, cancelled }) => {
            match result {
                Ok(o) => {
                    if cancelled {
                        job.phase = JobPhase::Finished;
                        acts.push(JobAction::Finish(Err(cancelled_error())));
                    } else {
                        job.phase = JobPhase::SavingHistory;
                        let entry = HistoryEntry {
                            original: copy_string(&job.transcript),
                            corrected: copy_string(&o),
                        };
                        job.final_text = o;
                        acts.push(JobAction::SaveHistory(entry));
                    }
                },
                Err(e) => {
                    job.final_text = copy_string(&job.transcript);
                    acts.push(
                        JobAction::Warn(
                            concat3(OPTIMIZE_FAILED_PREFIX, e.as_str(), OPTIMIZE_FAILED_SUFFIX),
                        ),
                    );
                    if cancelled {
                        job.phase = JobPhase::Finished;
                        acts.push(JobAction::Finish(Err(cancelled_error())));
                    } else {
                        job.phase = JobPhase::CheckingAccess;
                        acts.push(JobAction::Emit(PipelineState::Pasting));
                        acts.push(JobAction::CheckAccess);
                    }
                },
            }
        },
        (JobPhase::SavingHistory, JobEvent::HistorySaved { cancelled }) => {
            if cancelled {
                job.phase = JobPhase::Finished;
                acts.push(JobAction::Finish(Err(cancelled_error())));
            } else {
                job.phase = JobPhase::CheckingAccess;
                acts.push(JobAction::Emit(PipelineState::Pasting));
                acts.push(JobAction::CheckAccess);
            }
        },
        (JobPhase::CheckingAccess, JobEvent::AccessChecked { granted }) => {
            if granted {
                job.phase = JobPhase::Pasting;
                acts.push(JobAction::Paste(copy_string(&job.final_text)));
            } else {
                job.phase = JobPhase::Finished;
                acts.push(JobAction::RequestAccess);
                acts.push(JobAction::Finish(Err(AppError::Input(owned(ACCESSIBILITY_REQUIRED)))));
            }
        },
        (JobPhase::Pasting, JobEvent::Pasted) => {
            job.phase = JobPhase::Finished;
            acts.push(
                JobAction::Emit(
                    PipelineState::Done {
                        transcribed_text: copy_string(&job.transcript),
                        text: copy_string(&job.final_text),
                    },
                ),
            );
            acts.push(JobAction::HideAfter(DONE_HIDE_DELAY_MS));
            acts.push(JobAction::Finish(Ok(copy_string(&job.final_text))));
        },
        (phase, JobEvent::Failed(e)) => {
            if phase != JobPhase::Finished {
                job.phase = JobPhase::Finished;
                acts.push(JobAction::Finish(Err(e)));
            }
        },
        _ => {},
    }
    proof {
        assert(actions_view(acts@) =~= job_next(j, ev).1);
    }
    (job, acts)
}

/// Whether the settings ask for correction by the language model: only
/// with both an API key and a model name.
pub open spec fn optimization_enabled(api_key: Seq<char>, model: Seq<char>) -> bool {
    api_key.len() > 0 && model.len() > 0
}

/// See `optimization_enabled`.
pub fn should_optimize(api_key: &str, model: &str) -> (b: bool)
    ensures
        b == optimization_enabled(api_key@, model@),
{
    chars_of(api_key).len() > 0 && chars_of(model).len() > 0
}

/// Whether the clipboard has to be read for a correction: only when an
/// enabled, non-blank custom prompt refers to it.
pub open spec fn clipboard_needed(enabled: bool, custom_prompt: Seq<char>) -> bool {
    enabled && trim(custom_prompt).len() > 0 && contains(custom_prompt, CLIPBOARD_PLACEHOLDER@)
}

/// See `clipboard_needed`.
pub fn needs_clipboard(custom_prompt_enabled: bool, custom_prompt: &str) -> (b: bool)
    ensures
        b == clipboard_needed(custom_prompt_enabled, custom_prompt@),
{
    let p = chars_of(custom_prompt);
    custom_prompt_enabled && !is_blank(&p) && contains_exec(&p, &chars_of(CLIPBOARD_PLACEHOLDER))
}

/// Checks that a recording may start: not while one is running, and not
/// without a loaded speech-to-text model.
pub fn check_can_record(recording: bool, model_loaded: bool) -> (r: Result<(), AppError>)
    ensures
        recording ==> (r matches Err(e) && error_view(e) == (ErrorKind::Audio, ALREADY_RECORDING@)),
        !recording && !model_loaded ==> (r matches Err(e) && error_view(e) == (
            ErrorKind::Whisper,
            MODEL_NOT_LOADED@,
        )),
        !recording && model_loaded ==> r is Ok,
{
    if recording {
        Err(AppError::Audio(owned(ALREADY_RECORDING)))
    } else if !model_loaded {
        Err(AppError::Whisper(owned(MODEL_NOT_LOADED)))
    } else {
        Ok(())
    }
}

/// Checks that a recording can be stopped: one must be running.
pub fn check_can_stop(recording: bool) -> (r: Result<(), AppError>)
    ensures
        recording <==> r is Ok,
        r matches Err(e) ==> error_view(e) == (ErrorKind::Audio, NOT_RECORDING@),
{
    if recording {
        Ok(())
    } else {
        Err(AppError::Audio(owned(NOT_RECORDING)))
    }
}

/// The input device to record from: the configured one, unless the setting
/// is empty (then the system default, `None`).
pub fn chosen_input_device(configured: Option<String>) -> (r: Option<String>)
    ensures
        match configured {
            Some(d) => if d@.len() > 0 {
                r matches Some(x) && x@ == d@
            } else {
                r is None
            },
            None => r is None,
        },
{
    match configured {
        Some(d) => {
            if chars_of(d.as_str()).len() > 0 {
                Some(d)
            } else {
                None
            }
        },
        None => None,
    }
}

/// Whether a delayed hide of the overlay still applies: only when no newer
/// job showed the overlay since the hide was scheduled.
pub fn hide_is_current(current_generation: u64, expected: u64) -> (b: bool)
    ensures
        b == (current_generation == expected),
{
    current_generation == expected
}

/// Once a job is finished, every event is ignored.
pub proof fn law_finished_job_is_inert(job: JobView, ev: EventView)
    requires
        job.phase == JobPhase::Finished,
    ensures
        job_next(job, ev) == (job, Seq::<ActionView>::empty()),
{
}

/// A cancellation seen at any checkpoint ends the job as cancelled, and
/// nothing is pasted.
pub proof fn law_cancellation_ends_job(job: JobView, ev: EventView)
    requires
        job.phase != JobPhase::Finished,
        match ev {
            EventView::Began(c) => c,
            EventView::AudioReady(c) => c,
            EventView::Transcribed(_, c, _) => c,
            EventView::Optimized(_, c) => c,
            EventView::HistorySaved(c) => c,
            _ => false,
        },
        job_next(job, ev).1.len() > 0,
    ensures
        job_next(job, ev).0.phase == JobPhase::Finished,
        job_next(job, ev).1.last() == cancelled_outcome(),
        forall|k: int|
            0 <= k < job_next(job, ev).1.len() ==> !(#[trigger] job_next(job, ev).1[k] is Paste),
{
}

/// The history only ever records a correction the language model returned
/// for the job's transcript, and only when the job was not cancelled.
pub proof fn law_history_records_successful_corrections(job: JobView, ev: EventView, k: int)
    requires
        0 <= k < job_next(job, ev).1.len(),
        job_next(job, ev).1[k] is SaveHistory,
    ensures
        job.phase == JobPhase::Optimizing,
        ev matches EventView::Optimized(Ok(o), false) && job_next(job, ev).1[k]
            == ActionView::SaveHistory(job.transcript, o),
{
}

/// Text is pasted only once the permission was granted, and it is the
/// job's final text.
pub proof fn law_paste_needs_permission(job: JobView, ev: EventView, k: int)
    requires
        0 <= k < job_next(job, ev).1.len(),
        job_next(job, ev).1[k] is Paste,
    ensures
        ev == EventView::AccessChecked(true),
        job_next(job, ev).1[k] == ActionView::Paste(job.final_text),
{
}

/// A failed correction falls back to the transcript: the text that goes on
/// to be pasted is what speech-to-text produced.
pub proof fn law_failed_correction_keeps_transcript(job: JobView, e: Seq<char>)
    requires
        job.phase == JobPhase::Optimizing,
    ensures
        job_next(job, EventView::Optimized(Err(e), false)).0.final_text == job.transcript,
        job_next(job, EventView::Optimized(Err(e), false)).0.phase == JobPhase::CheckingAccess,
{
}


/// A job that is never cancelled, whose transcript `t` is not blank and
/// whose correction `o` succeeds: it stores `(t, o)` in the history before
/// anything is pasted, pastes `o`, shows both texts, and ends with `o`.
pub proof fn law_corrected_run(t: Seq<char>, o: Seq<char>)
    requires
        trim(t).len() > 0,
    ensures
        ({
            let j0 = JobView { phase: JobPhase::New, transcript: Seq::empty(), final_text: Seq::empty() };
            let s1 = job_next(j0, EventView::Began(false));
            let s2 = job_next(s1.0, EventView::AudioReady(false));
            let s3 = job_next(s2.0, EventView::Transcribed(t, false, true));
            let s4 = job_next(s3.0, EventView::Optimized(Ok(o), false));
            let s5 = job_next(s4.0, EventView::HistorySaved(false));
            let s6 = job_next(s5.0, EventView::AccessChecked(true));
            let s7 = job_next(s6.0, EventView::Pasted);
            &&& s3.1 == seq![ActionView::Emit(StateView::Optimizing), ActionView::Optimize(t)]
            &&& s4.1 == seq![ActionView::SaveHistory(t, o)]
            &&& s6.1 == seq![ActionView::Paste(o)]
            &&& s7.1 == seq![
                ActionView::Emit(StateView::Done(t, o)),
                ActionView::HideAfter(DONE_HIDE_DELAY_MS),
                ActionView::Finish(Ok(o)),
            ]
            &&& s7.0.phase == JobPhase::Finished
        }),
{
}
} // verus!
