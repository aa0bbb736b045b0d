//! Static configuration that does not change while the bot runs.

use vstd::prelude::*;
use vstd::string::*;

verus! {

/// Where the bot finds its dolphin list and where it keeps its state.
#[derive(Debug)]
pub struct Config {
    dolphin_path: String,
    state_dir: String,
}

/// A configuration as characters.
pub struct ConfigView {
    pub dolphin_path: Seq<char>,
    pub state_dir: Seq<char>,
}

impl View for Config {
    type V = ConfigView;

    closed spec fn view(&self) -> ConfigView {
        ConfigView { dolphin_path: self.dolphin_path@, state_dir: self.state_dir@ }
    }
}

/// The configuration used when none was read from the environment.
pub open spec fn default_config_view() -> ConfigView {
    ConfigView { dolphin_path: "./resources/dolphins.txt"@, state_dir: "./state/"@ }
}

/// The name of the database file inside the state directory.
pub const DB_FILE: &'static str = "db.sqlite";

/// `name` appended to the directory `base` as a path component, as
/// `PathBuf::push` does with a relative component on Unix: a `/` is put
/// between them unless `base` is empty or already ends in one.
pub open spec fn join_view(base: Seq<char>, name: Seq<char>) -> Seq<char> {
    if base.len() == 0 || base.last() == '/' {
        base + name
    } else {
        base + seq!['/'] + name
    }
}

/// Why a configuration could not be read.
#[derive(Clone, Copy, Debug, PartialEq, Eq, Structural)]
pub enum ConfigError {
    /// `DOLPHIN_PATH` is unset or not Unicode.
    MissingDolphinPath,
    /// `STATE_DIR` is unset or not Unicode.
    MissingStateDir,
}

impl ConfigError {
    /// The text of the error.
    pub fn message(&self) -> (r: String)
        ensures
            r@ == (match self {
                ConfigError::MissingDolphinPath =>
                    "failed to read DOLPHIN_PATH environment variable"@,
                ConfigError::MissingStateDir => "failed to read STATE_DIR environment variable"@,
            }),
    {
        match self {
            ConfigError::MissingDolphinPath => String::from_str(
                "failed to read DOLPHIN_PATH environment variable",
            ),
            ConfigError::MissingStateDir => String::from_str(
                "failed to read STATE_DIR environment variable",
            ),
        }
    }
}

impl Config {
    /// A configuration from the values of the variables `DOLPHIN_PATH` (the
    /// dolphin file) and `STATE_DIR` (where state is saved), `None` standing
    /// for a variable that could not be read. `DOLPHIN_PATH` is looked at first.
    pub fn from_vars(dolphin_path: Option<String>, state_dir: Option<String>) -> (r: Result<
        Config,
        ConfigError,
    >)
        ensures
            dolphin_path is None ==> r == Err::<Config, ConfigError>(
                ConfigError::MissingDolphinPath,
            ),
            dolphin_path is Some && state_dir is None ==> r == Err::<Config, ConfigError>(
                ConfigError::MissingStateDir,
            ),
            dolphin_path is Some && state_dir is Some ==> (r matches Ok(c) && c@.dolphin_path
                == dolphin_path->0@ && c@.state_dir == state_dir->0@),
    {
        let dolphin_path = match dolphin_path {
            Some(p) => p,
            None => return Err(ConfigError::MissingDolphinPath),
        };
        let state_dir = match state_dir {
            Some(d) => d,
            None => return Err(ConfigError::MissingStateDir),
        };
        Ok(Config { dolphin_path, state_dir })
    }

    /// The configuration in force: the one stored at start-up where there is
    /// one, else the default.
    pub fn get(stored: Option<&Config>) -> (r: Config)
        ensures
            match stored {
                Some(c) => r@ == c@,
                None => r@ == default_config_view(),
            },
    {
        match stored {
            Some(c) => Config {
                dolphin_path: c.dolphin_path.clone(),
                state_dir: c.state_dir.clone(),
            },
            None => Config::default(),
        }
    }

    /// The directory where state is saved.
    pub fn state_dir(&self) -> (r: &str)
        ensures
            r@ == self@.state_dir,
    {
        self.state_dir.as_str()
    }

    /// The file that holds the dolphin list.
    pub fn dolphin_path(&self) -> (r: &str)
        ensures
            r@ == self@.dolphin_path,
    {
        self.dolphin_path.as_str()
    }

    /// The path of the database file: `db.sqlite` inside the state directory.
    pub fn db_path(&self) -> (r: String)
        ensures
            r@ == join_view(self@.state_dir, DB_FILE@),
    {
        let base = self.state_dir.as_str();
        let n = base.unicode_len();
        let mut path = String::from_str(base);
        if n > 0 && base.get_char(n - 1) != '/' {
            path.append("/");
            proof {
                reveal_strlit("/");
                assert("/"@ =~= seq!['/']);
            }
        }
        path.append(DB_FILE);
        path
    }
}

impl Default for Config {
    fn default() -> (r: Config)
        ensures
            r@ == default_config_view(),
    {
        Config {
            dolphin_path: String::from_str("./resources/dolphins.txt"),
            state_dir: String::from_str("./state/"),
        }
    }
}

} // verus!
