use crate::opt_view;
use vstd::prelude::*;

verus! {

/// A loaded recognition backend: bound by the loader to one model file, with
/// the model's multilingual capability read once at load time and the
/// hardware path actually in effect. Immutable once constructed; a reload
/// builds a new value and swaps it in.
#[derive(Clone, Copy, PartialEq, Eq, Structural, Debug)]
pub struct Transcriber {
    pub multilingual: bool,
    pub accelerated: bool,
}

/// Result of a completed load: the backend and whether the accelerated
/// attempt failed and the software path took over.
#[derive(Clone, Copy, PartialEq, Eq, Structural, Debug)]
pub struct TranscriberLoadResult {
    pub transcriber: Transcriber,
    pub gpu_fallback: bool,
}

/// Why a load request ended without a backend.
#[derive(Clone, PartialEq, Eq, Debug)]
pub enum LoadError {
    /// The configured model file does not exist on disk.
    ModelNotFound { path: String },
    /// No model path is configured, so there is nothing to reload.
    NoModelLoaded,
    /// The engine could not construct a recognizer; the message is the
    /// software attempt's, the actionable one.
    BackendFailed { message: String },
}

/// Ghost mirror of [`LoadError`], strings as character sequences.
pub ghost enum LoadErrorV {
    ModelNotFound { path: Seq<char> },
    NoModelLoaded,
    BackendFailed { message: Seq<char> },
}

impl View for LoadError {
    type V = LoadErrorV;

    open spec fn view(&self) -> LoadErrorV {
        match self {
            LoadError::ModelNotFound { path } => LoadErrorV::ModelNotFound { path: path@ },
            LoadError::NoModelLoaded => LoadErrorV::NoModelLoaded,
            LoadError::BackendFailed { message } => LoadErrorV::BackendFailed {
                message: message@,
            },
        }
    }
}

impl LoadError {
    /// The message shown for this failure.
    pub open spec fn message_of(&self) -> Seq<char> {
        match self {
            LoadError::ModelNotFound { path } => "Model file not found: "@ + path@,
            LoadError::NoModelLoaded => "No model loaded"@,
            LoadError::BackendFailed { message } => message@,
        }
    }

    pub fn message(&self) -> (m: String)
        ensures
            m@ == self.message_of(),
    {
        match self {
            LoadError::ModelNotFound { path } => String::from_str(
                "Model file not found: ",
            ).concat(path.as_str()),
            LoadError::NoModelLoaded => String::from_str("No model loaded"),
            LoadError::BackendFailed { message } => message.clone(),
        }
    }
}

/// The next move of the two-attempt load procedure. The shell performs the
/// engine attempt a step asks for and hands the outcome to the next step;
/// which attempts run, and what each outcome means, is fixed here.
#[derive(Clone, PartialEq, Eq, Debug)]
pub enum LoadStep {
    /// The request is rejected before any engine call.
    Fail { error: LoadError },
    /// Construct with acceleration on the given device.
    TryAccelerated { gpu_device: i32 },
    /// Construct on the software path; `fell_back` records whether an
    /// accelerated attempt failed first.
    TrySoftware { fell_back: bool },
    /// A backend is ready.
    Done { result: TranscriberLoadResult },
}

/// Ghost mirror of [`LoadStep`].
pub ghost enum LoadStepV {
    Fail { error: LoadErrorV },
    TryAccelerated { gpu_device: i32 },
    TrySoftware { fell_back: bool },
    Done { result: TranscriberLoadResult },
}

impl View for LoadStep {
    type V = LoadStepV;

    open spec fn view(&self) -> LoadStepV {
        match self {
            LoadStep::Fail { error } => LoadStepV::Fail { error: error@ },
            LoadStep::TryAccelerated { gpu_device } => LoadStepV::TryAccelerated {
                gpu_device: *gpu_device,
            },
            LoadStep::TrySoftware { fell_back } => LoadStepV::TrySoftware {
                fell_back: *fell_back,
            },
            LoadStep::Done { result } => LoadStepV::Done { result: *result },
        }
    }
}

/// First step: a missing model file is rejected by name before any engine
/// call; otherwise the preferred path is attempted first.
pub open spec fn begin_load_of(
    path: Seq<char>,
    model_exists: bool,
    use_gpu: bool,
    gpu_device: i32,
) -> LoadStepV {
    if !model_exists {
        LoadStepV::Fail { error: LoadErrorV::ModelNotFound { path } }
    } else if use_gpu {
        LoadStepV::TryAccelerated { gpu_device }
    } else {
        LoadStepV::TrySoftware { fell_back: false }
    }
}

/// After the accelerated attempt: success is final, on the accelerated path
/// and with no fallback reported; the failure message is discarded and the
/// software path is tried next.
pub open spec fn after_accelerated_of(outcome: Result<bool, Seq<char>>) -> LoadStepV {
    match outcome {
        Ok(multilingual) => LoadStepV::Done {
            result: TranscriberLoadResult {
                transcriber: Transcriber { multilingual, accelerated: true },
                gpu_fallback: false,
            },
        },
        Err(_) => LoadStepV::TrySoftware { fell_back: true },
    }
}

/// After the software attempt: success yields the backend, reporting whether
/// it is the fallback; failure propagates this attempt's error as the
/// definitive one.
pub open spec fn after_software_of(fell_back: bool, outcome: Result<bool, Seq<char>>) -> Result<
    TranscriberLoadResult,
    LoadErrorV,
> {
    match outcome {
        Ok(multilingual) => Ok(
            TranscriberLoadResult {
                transcriber: Transcriber { multilingual, accelerated: false },
                gpu_fallback: fell_back,
            },
        ),
        Err(message) => Err(LoadErrorV::BackendFailed { message }),
    }
}

/// The view of an engine attempt's outcome: `Ok` carries the loaded model's
/// multilingual flag, `Err` the engine's message.
pub open spec fn attempt_view(outcome: Result<bool, String>) -> Result<bool, Seq<char>> {
    match outcome {
        Ok(m) => Ok(m),
        Err(e) => Err(e@),
    }
}

pub fn begin_load(model_path: &str, model_exists: bool, use_gpu: bool, gpu_device: i32) -> (step:
    LoadStep)
    ensures
        step@ == begin_load_of(model_path@, model_exists, use_gpu, gpu_device),
{
    if !model_exists {
        LoadStep::Fail { error: LoadError::ModelNotFound { path: model_path.to_owned() } }
    } else if use_gpu {
        LoadStep::TryAccelerated { gpu_device }
    } else {
        LoadStep::TrySoftware { fell_back: false }
    }
}

pub fn after_accelerated_attempt(outcome: Result<bool, String>) -> (step: LoadStep)
    ensures
        step@ == after_accelerated_of(attempt_view(outcome)),
{
    match outcome {
        Ok(multilingual) => LoadStep::Done {
            result: TranscriberLoadResult {
                transcriber: Transcriber { multilingual, accelerated: true },
                gpu_fallback: false,
            },
        },
        Err(_) => LoadStep::TrySoftware { fell_back: true },
    }
}

pub fn after_software_attempt(fell_back: bool, outcome: Result<bool, String>) -> (r: Result<
    TranscriberLoadResult,
    LoadError,
>)
    ensures
        (match r {
            Ok(res) => Ok::<TranscriberLoadResult, LoadErrorV>(res),
            Err(e) => Err(e@),
        }) == after_software_of(fell_back, attempt_view(outcome)),
{
    match outcome {
        Ok(multilingual) => Ok(
            TranscriberLoadResult {
                transcriber: Transcriber { multilingual, accelerated: false },
                gpu_fallback: fell_back,
            },
        ),
        Err(message) => Err(LoadError::BackendFailed { message }),
    }
}

/// The whole load procedure in one view: what comes out for a given model
/// file, preference, and pair of engine attempt outcomes. The accelerated
/// attempt is consulted only when acceleration is preferred, the software
/// attempt only when no accelerated backend was obtained.
pub open spec fn load_outcome_of(
    path: Seq<char>,
    model_exists: bool,
    use_gpu: bool,
    accelerated: Result<bool, Seq<char>>,
    software: Result<bool, Seq<char>>,
) -> Result<TranscriberLoadResult, LoadErrorV> {
    if !model_exists {
        Err(LoadErrorV::ModelNotFound { path })
    } else if use_gpu {
        match accelerated {
            Ok(multilingual) => Ok(
                TranscriberLoadResult {
                    transcriber: Transcriber { multilingual, accelerated: true },
                    gpu_fallback: false,
                },
            ),
            Err(_) => after_software_of(true, software),
        }
    } else {
        after_software_of(false, software)
    }
}

/// Walking the steps as the loader's driver does—begin, then the attempt
/// each step asks for—always lands on [`load_outcome_of`].
pub proof fn lemma_load_steps_compose(
    path: Seq<char>,
    model_exists: bool,
    use_gpu: bool,
    gpu_device: i32,
    accelerated: Result<bool, Seq<char>>,
    software: Result<bool, Seq<char>>,
)
    ensures
        ({
            let outcome = load_outcome_of(path, model_exists, use_gpu, accelerated, software);
            match begin_load_of(path, model_exists, use_gpu, gpu_device) {
                LoadStepV::Fail { error } => outcome == Err::<TranscriberLoadResult, LoadErrorV>(
                    error,
                ),
                LoadStepV::TryAccelerated { .. } => match after_accelerated_of(accelerated) {
                    LoadStepV::Done { result } => outcome == Ok::<
                        TranscriberLoadResult,
                        LoadErrorV,
                    >(result),
                    LoadStepV::TrySoftware { fell_back } => outcome == after_software_of(
                        fell_back,
                        software,
                    ),
                    _ => false,
                },
                LoadStepV::TrySoftware { fell_back } => outcome == after_software_of(
                    fell_back,
                    software,
                ),
                LoadStepV::Done { .. } => false,
            }
        }),
{
}

/// With acceleration requested and the accelerated attempt failing, the
/// procedure still yields a usable backend whenever the software path
/// succeeds, and reports the fallback; when both attempts fail, the software
/// attempt's error is the one propagated.
pub proof fn lemma_accelerated_failure_falls_back(
    path: Seq<char>,
    accel_error: Seq<char>,
    software: Result<bool, Seq<char>>,
)
    ensures
        software is Ok ==> load_outcome_of(path, true, true, Err(accel_error), software) == Ok::<
            TranscriberLoadResult,
            LoadErrorV,
        >(
            TranscriberLoadResult {
                transcriber: Transcriber { multilingual: software->Ok_0, accelerated: false },
                gpu_fallback: true,
            },
        ),
        software is Err ==> load_outcome_of(path, true, true, Err(accel_error), software) == Err::<
            TranscriberLoadResult,
            LoadErrorV,
        >(LoadErrorV::BackendFailed { message: software->Err_0 }),
{
}

/// Fallback is reported exactly when acceleration was requested, its attempt
/// failed, and the software attempt then succeeded.
pub proof fn lemma_fell_back_iff(
    path: Seq<char>,
    model_exists: bool,
    use_gpu: bool,
    accelerated: Result<bool, Seq<char>>,
    software: Result<bool, Seq<char>>,
)
    ensures
        ({
            let outcome = load_outcome_of(path, model_exists, use_gpu, accelerated, software);
            outcome is Ok ==> (outcome->Ok_0.gpu_fallback <==> (use_gpu && accelerated is Err))
        }),
{
}

/// The language parameter for one recognition run: a multilingual model
/// takes the hint through unless it is the sentinel `"auto"`; a monolingual
/// model is always run as English, whatever the hint.
pub open spec fn language_param_of(multilingual: bool, hint: Option<Seq<char>>) -> Option<
    Seq<char>,
> {
    if !multilingual {
        Some("en"@)
    } else {
        match hint {
            Some(l) => if l == "auto"@ {
                None
            } else {
                Some(l)
            },
            None => None,
        }
    }
}

impl Transcriber {
    /// Whether the loaded model is multilingual, as cached at load time.
    pub fn is_multilingual(&self) -> (r: bool)
        ensures
            r == self.multilingual,
    {
        self.multilingual
    }

    /// The language handed to the engine for one run, per
    /// [`language_param_of`].
    pub fn language_param(&self, hint: Option<&str>) -> (lang: Option<String>)
        ensures
            opt_view(lang) == language_param_of(self.multilingual, opt_view(hint)),
    {
        if !self.multilingual {
            Some(String::from_str("en"))
        } else {
            match hint {
                Some(h) => if crate::str_eq(h, "auto") {
                    None
                } else {
                    Some(h.to_owned())
                },
                None => None,
            }
        }
    }
}

/// Names what `char::to_uppercase` yields for a character: its Unicode
/// uppercase mapping, determined by the character alone.
pub uninterp spec fn upper_of(c: char) -> Seq<char>;

/// Relies on char::to_uppercase for the Unicode uppercase mapping of one
/// character.
#[verifier::external_body]
fn char_uppercase(c: char) -> (r: String)
    ensures
        r@ == upper_of(c),
{
    c.to_uppercase().collect()
}

/// The first character mapped to uppercase, the rest unchanged.
pub open spec fn capitalized(s: Seq<char>) -> Seq<char> {
    if s.len() == 0 {
        s
    } else {
        upper_of(s[0]) + s.skip(1)
    }
}

/// Capitalizes the first character of a language name for display.
pub fn capitalize_first(s: &str) -> (r: String)
    ensures
        r@ == capitalized(s@),
{
    let n = s.unicode_len();
    if n == 0 {
        String::new()
    } else {
        let first = s.get_char(0);
        let rest = s.substring_char(1, n);
        let mut out = char_uppercase(first);
        out.append(rest);
        proof {
            assert(s@.subrange(1, n as int) =~= s@.skip(1));
        }
        out
    }
}

/// One entry of the language listing: the engine's code and a display name.
pub struct LanguageInfo {
    pub code: String,
    pub name: String,
}

/// Builds the language listing from the engine's `(code, name)` table:
/// codes kept as they are, names capitalized for display, order kept.
pub fn get_supported_languages(entries: Vec<(String, String)>) -> (langs: Vec<LanguageInfo>)
    ensures
        langs@.len() == entries@.len(),
        forall|i: int|
            0 <= i < entries@.len() ==> {
                &&& (#[trigger] langs@[i]).code@ == entries@[i].0@
                &&& langs@[i].name@ == capitalized(entries@[i].1@)
            },
{
    let n = entries.len();
    let mut langs: Vec<LanguageInfo> = Vec::new();
    let mut i: usize = 0;
    while i < n
        invariant
            n == entries@.len(),
            i <= n,
            langs@.len() == i,
            forall|t: int|
                0 <= t < i ==> {
                    &&& (#[trigger] langs@[t]).code@ == entries@[t].0@
                    &&& langs@[t].name@ == capitalized(entries@[t].1@)
                },
        decreases n - i,
    {
        let code = entries[i].0.clone();
        let name = capitalize_first(entries[i].1.as_str());
        langs.push(LanguageInfo { code, name });
        i += 1;
    }
    langs
}

/// Worker threads for one recognition run: the machine's reported
/// parallelism capped at eight, or four when none is reported.
pub fn num_cpus(available: Option<usize>) -> (n: i32)
    ensures
        match available {
            Some(p) => n == if p > 8 {
                8int
            } else {
                p as int
            },
            None => n == 4,
        },
{
    match available {
        Some(p) => if p > 8 {
            8
        } else {
            p as i32
        },
        None => 4,
    }
}

} // verus!
