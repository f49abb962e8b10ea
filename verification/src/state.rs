use crate::config::{Config, ConfigV};
use crate::opt_view;
use crate::result_view;
use crate::transcribe::{LoadError, LoadErrorV, Transcriber, TranscriberLoadResult};
use vstd::prelude::*;

verus! {

/// The controller's lifecycle: idle, capturing audio, or running a
/// recognition in the background.
#[derive(Clone, Copy, PartialEq, Eq, Structural, Debug)]
pub enum AppState {
    Idle,
    Recording,
    Transcribing,
}

/// Ghost mirror of the controller: every string as its character sequence.
pub ghost struct ManagerV {
    pub state: AppState,
    pub config: ConfigV,
    pub transcriber: Option<Transcriber>,
    pub last_transcription: Seq<char>,
    pub error: Option<Seq<char>>,
}

/// The process-wide controller: lifecycle state, current configuration, the
/// active backend, the last result and the last error. In the shell each
/// field sits behind its own lock so status reads never wait on a running
/// transcription; what every operation does to the values is fixed here.
pub struct AppStateManager {
    pub state: AppState,
    pub config: Config,
    pub transcriber: Option<Transcriber>,
    pub last_transcription: String,
    pub error: Option<String>,
}

impl View for AppStateManager {
    type V = ManagerV;

    open spec fn view(&self) -> ManagerV {
        ManagerV {
            state: self.state,
            config: self.config@,
            transcriber: self.transcriber,
            last_transcription: self.last_transcription@,
            error: opt_view(self.error),
        }
    }
}

/// What the shell must do after handing the controller a trigger.
#[derive(Clone, Copy, PartialEq, Eq, Structural, Debug)]
pub enum ToggleAction {
    /// No model is loaded: nothing starts, the error is recorded.
    RejectNoModel,
    /// Start a capture session, then report through `capture_started`.
    StartCapture,
    /// Stop the running session, then report through `capture_stopped`.
    StopCapture,
    /// A transcription is in flight: the trigger is dropped.
    Ignore,
}

/// How stopping the capture session went.
pub enum StopOutcome {
    /// Samples were drained and handed to the background transcription.
    Stopped,
    /// No session was running after all.
    NoSession,
    /// Draining or conversion failed with this message.
    Failed { message: String },
}

/// Ghost mirror of [`StopOutcome`].
pub ghost enum StopOutcomeV {
    Stopped,
    NoSession,
    Failed { message: Seq<char> },
}

impl View for StopOutcome {
    type V = StopOutcomeV;

    open spec fn view(&self) -> StopOutcomeV {
        match self {
            StopOutcome::Stopped => StopOutcomeV::Stopped,
            StopOutcome::NoSession => StopOutcomeV::NoSession,
            StopOutcome::Failed { message } => StopOutcomeV::Failed { message: message@ },
        }
    }
}

/// One trigger: from idle it either rejects (no model) or asks for a
/// capture; from recording it moves to transcribing at once, so a rapid
/// second trigger cannot stop the same session twice; while transcribing it
/// changes nothing.
pub open spec fn trigger_transition(m: ManagerV) -> (ManagerV, ToggleAction) {
    match m.state {
        AppState::Idle => if m.transcriber is None {
            (
                ManagerV { error: Some("No model loaded"@), ..m },
                ToggleAction::RejectNoModel,
            )
        } else {
            (m, ToggleAction::StartCapture)
        },
        AppState::Recording => (
            ManagerV { state: AppState::Transcribing, ..m },
            ToggleAction::StopCapture,
        ),
        AppState::Transcribing => (m, ToggleAction::Ignore),
    }
}

/// Report of the capture start that a trigger asked for: success begins the
/// recording and clears the error; failure stays idle and records it.
pub open spec fn capture_started_transition(m: ManagerV, outcome: Result<(), Seq<char>>) -> ManagerV {
    match outcome {
        Ok(_) => ManagerV { state: AppState::Recording, error: None, ..m },
        Err(e) => ManagerV { error: Some(e), ..m },
    }
}

/// Report of the capture stop: on success the background transcription is
/// under way; a missing session or a failure returns to idle, the failure
/// with its message recorded.
pub open spec fn capture_stopped_transition(m: ManagerV, outcome: StopOutcomeV) -> ManagerV {
    match outcome {
        StopOutcomeV::Stopped => m,
        StopOutcomeV::NoSession => ManagerV { state: AppState::Idle, ..m },
        StopOutcomeV::Failed { message } => ManagerV {
            state: AppState::Idle,
            error: Some(message),
            ..m
        },
    }
}

impl AppStateManager {
    /// A controller starting idle under `config`, with no backend, no
    /// result and no error.
    pub fn new(config: Config) -> (m: AppStateManager)
        ensures
            m@ == (ManagerV {
                state: AppState::Idle,
                config: config@,
                transcriber: None,
                last_transcription: Seq::<char>::empty(),
                error: None,
            }),
    {
        AppStateManager {
            state: AppState::Idle,
            config,
            transcriber: None,
            last_transcription: String::new(),
            error: None,
        }
    }

    pub fn get_state(&self) -> (s: AppState)
        ensures
            s == self.state,
    {
        self.state
    }

    pub fn set_state(&mut self, state: AppState)
        ensures
            final (self)@ == (ManagerV { state, ..old(self)@ }),
    {
        self.state = state;
    }

    pub fn get_config(&self) -> (c: Config)
        ensures
            c@ == self.config@,
    {
        self.config.duplicate()
    }

    /// Replaces the configuration and says whether the hotkey changed, so
    /// the shell knows to re-register the shortcut. Persisting the new value
    /// is the shell's step.
    pub fn update_config(&mut self, config: Config) -> (hotkey_changed: bool)
        ensures
            final (self)@ == (ManagerV { config: config@, ..old(self)@ }),
            hotkey_changed == (old(self)@.config.hotkey != config@.hotkey),
    {
        let changed = !crate::str_eq(self.config.hotkey.as_str(), config.hotkey.as_str());
        self.config = config;
        changed
    }

    pub fn has_model(&self) -> (r: bool)
        ensures
            r == (self.transcriber is Some),
    {
        self.transcriber.is_some()
    }

    pub fn is_multilingual(&self) -> (r: bool)
        ensures
            r == (self.transcriber matches Some(t) && t.multilingual),
    {
        match &self.transcriber {
            Some(t) => t.is_multilingual(),
            None => false,
        }
    }

    pub fn set_error(&mut self, error: Option<String>)
        ensures
            final (self)@ == (ManagerV { error: opt_view(error), ..old(self)@ }),
    {
        self.error = error;
    }

    pub fn get_error(&self) -> (e: Option<String>)
        ensures
            opt_view(e) == self@.error,
    {
        match &self.error {
            Some(s) => Some(s.clone()),
            None => None,
        }
    }

    pub fn set_last_transcription(&mut self, text: String)
        ensures
            final (self)@ == (ManagerV { last_transcription: text@, ..old(self)@ }),
    {
        self.last_transcription = text;
    }

    pub fn get_last_transcription(&self) -> (t: String)
        ensures
            t@ == self.last_transcription@,
    {
        self.last_transcription.clone()
    }

    /// Installs the backend a finished load produced: on success it replaces
    /// the previous one, the path is recorded in the configuration and the
    /// acceleration preference is cleared when the load fell back; on
    /// failure nothing changes and the previous backend stays usable.
    /// Returns whether fallback occurred. Persisting the configuration is
    /// the shell's step.
    pub fn load_model(
        &mut self,
        model_path: &str,
        outcome: Result<TranscriberLoadResult, LoadError>,
    ) -> (r: Result<bool, LoadError>)
        ensures
            match outcome {
                Ok(res) => {
                    &&& final (self)@ == (ManagerV {
                        transcriber: Some(res.transcriber),
                        config: ConfigV {
                            model_path: Some(model_path@),
                            use_gpu: old(self)@.config.use_gpu && !res.gpu_fallback,
                            ..old(self)@.config
                        },
                        ..old(self)@
                    })
                    &&& r == Ok::<bool, LoadError>(res.gpu_fallback)
                },
                Err(e) => final (self)@ == old(self)@ && r == Err::<bool, LoadError>(e),
            },
    {
        match outcome {
            Ok(res) => {
                self.transcriber = Some(res.transcriber);
                self.config.model_path = Some(model_path.to_owned());
                if res.gpu_fallback {
                    self.config.use_gpu = false;
                }
                Ok(res.gpu_fallback)
            },
            Err(e) => Err(e),
        }
    }

    /// Re-runs a load against the configured model path: without one the
    /// request is [`LoadError::NoModelLoaded`] and nothing changes; with one
    /// it installs the outcome exactly as `load_model` does, the path
    /// staying as it is.
    pub fn reload_model(&mut self, outcome: Result<TranscriberLoadResult, LoadError>) -> (r:
        Result<bool, LoadError>)
        ensures
            old(self)@.config.model_path is None ==> {
                &&& final (self)@ == old(self)@
                &&& r is Err
                &&& r->Err_0@ == LoadErrorV::NoModelLoaded
            },
            old(self)@.config.model_path is Some ==> match outcome {
                Ok(res) => {
                    &&& final (self)@ == (ManagerV {
                        transcriber: Some(res.transcriber),
                        config: ConfigV {
                            use_gpu: old(self)@.config.use_gpu && !res.gpu_fallback,
                            ..old(self)@.config
                        },
                        ..old(self)@
                    })
                    &&& r == Ok::<bool, LoadError>(res.gpu_fallback)
                },
                Err(e) => final (self)@ == old(self)@ && r == Err::<bool, LoadError>(e),
            },
    {
        if self.config.model_path.is_none() {
            return Err(LoadError::NoModelLoaded);
        }
        match outcome {
            Ok(res) => {
                self.transcriber = Some(res.transcriber);
                if res.gpu_fallback {
                    self.config.use_gpu = false;
                }
                Ok(res.gpu_fallback)
            },
            Err(e) => Err(e),
        }
    }

    /// Advances the controller on the one external trigger, per
    /// [`trigger_transition`], and says what the shell must do next.
    pub fn on_trigger(&mut self) -> (action: ToggleAction)
        ensures
            final (self)@ == trigger_transition(old(self)@).0,
            action == trigger_transition(old(self)@).1,
    {
        match self.state {
            AppState::Idle => {
                if self.transcriber.is_none() {
                    self.error = Some(String::from_str("No model loaded"));
                    ToggleAction::RejectNoModel
                } else {
                    ToggleAction::StartCapture
                }
            },
            AppState::Recording => {
                self.state = AppState::Transcribing;
                ToggleAction::StopCapture
            },
            AppState::Transcribing => ToggleAction::Ignore,
        }
    }

    /// Report of the capture start a trigger asked for, per
    /// [`capture_started_transition`].
    pub fn capture_started(&mut self, outcome: Result<(), String>)
        requires
            old(self)@.state == AppState::Idle,
        ensures
            final (self)@ == capture_started_transition(old(self)@, result_view(outcome)),
    {
        match outcome {
            Ok(_) => {
                self.state = AppState::Recording;
                self.error = None;
            },
            Err(e) => {
                self.error = Some(e);
            },
        }
    }

    /// Report of the capture stop a trigger asked for, per
    /// [`capture_stopped_transition`].
    pub fn capture_stopped(&mut self, outcome: StopOutcome)
        requires
            old(self)@.state == AppState::Transcribing,
        ensures
            final (self)@ == capture_stopped_transition(old(self)@, outcome@),
    {
        match outcome {
            StopOutcome::Stopped => {},
            StopOutcome::NoSession => {
                self.state = AppState::Idle;
            },
            StopOutcome::Failed { message } => {
                self.state = AppState::Idle;
                self.error = Some(message);
            },
        }
    }
}

/// Character threshold above which a result is cut for the notification.
pub const PREVIEW_LIMIT: usize = 50;

/// The notification body for a result: over [`PREVIEW_LIMIT`] characters it
/// is cut to the threshold with a trailing ellipsis; shorter results pass
/// through.
pub open spec fn preview_of(text: Seq<char>) -> Seq<char> {
    if text.len() > PREVIEW_LIMIT {
        text.subrange(0, PREVIEW_LIMIT as int) + "..."@
    } else {
        text
    }
}

/// Cuts a result to its notification preview, per [`preview_of`]. The
/// stored transcription is never cut.
pub fn preview(text: &str) -> (p: String)
    ensures
        p@ == preview_of(text@),
{
    let n = text.unicode_len();
    if n > PREVIEW_LIMIT {
        let mut p = text.substring_char(0, PREVIEW_LIMIT).to_owned();
        p.append("...");
        p
    } else {
        text.to_owned()
    }
}

/// One notification for the shell to show, best effort.
pub struct Notification {
    pub title: String,
    pub body: String,
}

/// Ghost mirror of [`Notification`].
pub ghost struct NotificationV {
    pub title: Seq<char>,
    pub body: Seq<char>,
}

impl View for Notification {
    type V = NotificationV;

    open spec fn view(&self) -> NotificationV {
        NotificationV { title: self.title@, body: self.body@ }
    }
}

/// The side effects the shell performs after one transcription cycle:
/// fire-and-forget, their failures never reach the pipeline.
pub struct FinishEffects {
    pub copy_text: Option<String>,
    pub notification: Option<Notification>,
}

/// Ghost mirror of [`FinishEffects`].
pub ghost struct FinishEffectsV {
    pub copy_text: Option<Seq<char>>,
    pub notification: Option<NotificationV>,
}

impl View for FinishEffects {
    type V = FinishEffectsV;

    open spec fn view(&self) -> FinishEffectsV {
        FinishEffectsV {
            copy_text: opt_view(self.copy_text),
            notification: opt_view(self.notification),
        }
    }
}

/// End of a transcription: the controller returns to idle whatever came
/// back. Non-empty text becomes the stored result and clears the error;
/// empty text — silence — stores nothing and is no error; a failure is
/// recorded.
pub open spec fn finish_transition(m: ManagerV, outcome: Result<Seq<char>, Seq<char>>) -> ManagerV {
    match outcome {
        Ok(text) => if text.len() > 0 {
            ManagerV {
                state: AppState::Idle,
                last_transcription: text,
                error: None,
                ..m
            }
        } else {
            ManagerV { state: AppState::Idle, error: None, ..m }
        },
        Err(e) => ManagerV { state: AppState::Idle, error: Some(e), ..m },
    }
}

/// The side effects owed for a finished transcription: non-empty text is
/// copied when configured and announced with its preview when configured;
/// silence gets its own notice regardless; a failure is announced with its
/// message.
pub open spec fn finish_effects_of(config: ConfigV, outcome: Result<Seq<char>, Seq<char>>) -> FinishEffectsV {
    match outcome {
        Ok(text) => if text.len() > 0 {
            FinishEffectsV {
                copy_text: if config.auto_copy {
                    Some(text)
                } else {
                    None
                },
                notification: if config.show_notifications {
                    Some(NotificationV { title: "Transcribed"@, body: preview_of(text) })
                } else {
                    None
                },
            }
        } else {
            FinishEffectsV {
                copy_text: None,
                notification: Some(
                    NotificationV {
                        title: "No speech detected"@,
                        body: "Try speaking louder or closer to the microphone"@,
                    },
                ),
            }
        },
        Err(e) => FinishEffectsV {
            copy_text: None,
            notification: Some(NotificationV { title: "Transcription failed"@, body: e }),
        },
    }
}

impl AppStateManager {
    /// Records the end of the background transcription, per
    /// [`finish_transition`], and returns the side effects owed, per
    /// [`finish_effects_of`].
    pub fn transcription_finished(&mut self, outcome: Result<String, String>) -> (effects:
        FinishEffects)
        requires
            old(self)@.state == AppState::Transcribing,
        ensures
            final (self)@ == finish_transition(old(self)@, result_view(outcome)),
            effects@ == finish_effects_of(old(self)@.config, result_view(outcome)),
    {
        match outcome {
            Ok(text) => {
                if !text.as_str().is_empty() {
                    let copy_text = if self.config.auto_copy {
                        Some(text.clone())
                    } else {
                        None
                    };
                    let notification = if self.config.show_notifications {
                        Some(
                            Notification {
                                title: String::from_str("Transcribed"),
                                body: preview(text.as_str()),
                            },
                        )
                    } else {
                        None
                    };
                    self.last_transcription = text;
                    self.error = None;
                    self.state = AppState::Idle;
                    FinishEffects { copy_text, notification }
                } else {
                    self.error = None;
                    self.state = AppState::Idle;
                    FinishEffects {
                        copy_text: None,
                        notification: Some(
                            Notification {
                                title: String::from_str("No speech detected"),
                                body: String::from_str(
                                    "Try speaking louder or closer to the microphone",
                                ),
                            },
                        ),
                    }
                }
            },
            Err(e) => {
                let body = e.clone();
                self.error = Some(e);
                self.state = AppState::Idle;
                FinishEffects {
                    copy_text: None,
                    notification: Some(
                        Notification { title: String::from_str("Transcription failed"), body },
                    ),
                }
            },
        }
    }
}

/// Triggering from idle with no backend loaded leaves the controller idle,
/// records the error, and starts no capture.
pub proof fn lemma_trigger_idle_without_model(m: ManagerV)
    requires
        m.state == AppState::Idle,
        m.transcriber is None,
    ensures
        trigger_transition(m).1 == ToggleAction::RejectNoModel,
        trigger_transition(m).0.state == AppState::Idle,
        trigger_transition(m).0.transcriber == m.transcriber,
        trigger_transition(m).0.config == m.config,
        trigger_transition(m).0.last_transcription == m.last_transcription,
{
}

/// A trigger that arrives while a transcription is in flight changes
/// nothing and is dropped; a second rapid trigger meets the same state and
/// is dropped too, so exactly one cycle completes.
pub proof fn lemma_trigger_dropped_while_transcribing(m: ManagerV)
    requires
        m.state == AppState::Transcribing,
    ensures
        trigger_transition(m) == (m, ToggleAction::Ignore),
        trigger_transition(trigger_transition(m).0) == (m, ToggleAction::Ignore),
{
}

} // verus!
