use vstd::prelude::*;

verus! {

/// Mathematical model of a [`Config`]: each string field as its sequence of
/// characters.
pub ghost struct ConfigV {
    pub hotkey: Seq<char>,
    pub language: Seq<char>,
    pub model_path: Option<Seq<char>>,
    pub use_gpu: bool,
    pub gpu_device: int,
    pub auto_copy: bool,
    pub show_notifications: bool,
}

/// User configuration carried through the pipeline: the trigger hotkey, the
/// language preference (`"auto"` or an ISO code), the model file in use, the
/// hardware-acceleration preference with its device index, and the two
/// side-effect switches. Persistence is the shell's concern; the library only
/// reads and updates the value.
pub struct Config {
    pub hotkey: String,
    pub language: String,
    pub model_path: Option<String>,
    pub use_gpu: bool,
    pub gpu_device: i32,
    pub auto_copy: bool,
    pub show_notifications: bool,
}

impl View for Config {
    type V = ConfigV;

    open spec fn view(&self) -> ConfigV {
        ConfigV {
            hotkey: self.hotkey@,
            language: self.language@,
            model_path: match self.model_path {
                Some(p) => Some(p@),
                None => None,
            },
            use_gpu: self.use_gpu,
            gpu_device: self.gpu_device as int,
            auto_copy: self.auto_copy,
            show_notifications: self.show_notifications,
        }
    }
}

impl Config {
    /// Field-by-field copy; the result models the same configuration.
    pub fn duplicate(&self) -> (c: Config)
        ensures
            c@ == self@,
    {
        Config {
            hotkey: self.hotkey.clone(),
            language: self.language.clone(),
            model_path: match &self.model_path {
                Some(p) => Some(p.clone()),
                None => None,
            },
            use_gpu: self.use_gpu,
            gpu_device: self.gpu_device,
            auto_copy: self.auto_copy,
            show_notifications: self.show_notifications,
        }
    }
}

impl Default for Config {
    /// The configuration written on first start: F9 as the trigger, automatic
    /// language detection, no model selected, software inference, copy and
    /// notifications switched on.
    fn default() -> (c: Config)
        ensures
            c.hotkey@ == "F9"@,
            c.language@ == "auto"@,
            c.model_path is None,
            !c.use_gpu,
            c.gpu_device == 0,
            c.auto_copy,
            c.show_notifications,
    {
        Config {
            hotkey: String::from_str("F9"),
            language: String::from_str("auto"),
            model_path: None,
            use_gpu: false,
            gpu_device: 0,
            auto_copy: true,
            show_notifications: true,
        }
    }
}

/// The application's directory under the platform configuration root.
pub open spec fn config_dir_of(base: Seq<char>) -> Seq<char> {
    base + "/shy-to-text"@
}

/// The directory that model files are kept in.
pub open spec fn models_dir_of(base: Seq<char>) -> Seq<char> {
    config_dir_of(base) + "/models"@
}

/// The configuration file inside the application's directory.
pub open spec fn config_path_of(base: Seq<char>) -> Seq<char> {
    config_dir_of(base) + "/config.json"@
}

impl Config {
    /// Application directory under `base`, the platform configuration root as
    /// the shell reports it. Creating the directory is the shell's task.
    pub fn config_dir(base: &str) -> (dir: String)
        ensures
            dir@ == config_dir_of(base@),
    {
        base.to_owned().concat("/shy-to-text")
    }

    /// Model directory under `base`.
    pub fn models_dir(base: &str) -> (dir: String)
        ensures
            dir@ == models_dir_of(base@),
    {
        Config::config_dir(base).concat("/models")
    }

    /// Configuration file path under `base`.
    pub fn config_path(base: &str) -> (path: String)
        ensures
            path@ == config_path_of(base@),
    {
        Config::config_dir(base).concat("/config.json")
    }
}

/// A file of this name holds a model: a non-empty stem followed by the
/// `.bin` extension.
pub open spec fn is_model_file(name: Seq<char>) -> bool {
    name.len() > 4 && name.subrange(name.len() - 4, name.len() as int) == ".bin"@
}

/// The stem of a model file name: everything before the `.bin` extension, or
/// `None` when the name is no model file's.
pub fn model_stem(file_name: &str) -> (stem: Option<String>)
    ensures
        match stem {
            Some(s) => is_model_file(file_name@) && s@ == file_name@.subrange(
                0,
                file_name@.len() - 4,
            ),
            None => !is_model_file(file_name@),
        },
{
    proof {
        reveal_strlit(".bin");
    }
    let n = file_name.unicode_len();
    if n <= 4 {
        return None;
    }
    let matches = file_name.get_char(n - 4) == '.' && file_name.get_char(n - 3) == 'b'
        && file_name.get_char(n - 2) == 'i' && file_name.get_char(n - 1) == 'n';
    if matches {
        proof {
            assert(file_name@.subrange(n - 4, n as int) =~= ".bin"@);
        }
        Some(file_name.substring_char(0, n - 4).to_owned())
    } else {
        proof {
            if file_name@.subrange(n - 4, n as int) == ".bin"@ {
                assert(file_name@.subrange(n - 4, n as int)[0] == file_name@[n - 4]);
                assert(file_name@.subrange(n - 4, n as int)[1] == file_name@[n - 3]);
                assert(file_name@.subrange(n - 4, n as int)[2] == file_name@[n - 2]);
                assert(file_name@.subrange(n - 4, n as int)[3] == file_name@[n - 1]);
            }
        }
        None
    }
}

/// What the shell stores about one detected model file.
pub struct ModelInfo {
    pub name: String,
    pub path: String,
    pub size: u64,
}

/// One entry of the model listing: `Some` exactly for model files, carrying
/// the stem as display name together with the file's full path and size.
pub fn model_info_for(file_name: &str, path: String, size: u64) -> (info: Option<ModelInfo>)
    ensures
        match info {
            Some(m) => is_model_file(file_name@) && m.name@ == file_name@.subrange(
                0,
                file_name@.len() - 4,
            ) && m.path == path && m.size == size,
            None => !is_model_file(file_name@),
        },
{
    match model_stem(file_name) {
        Some(stem) => Some(ModelInfo { name: stem, path, size }),
        None => None,
    }
}

} // verus!
