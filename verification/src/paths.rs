//! Where an application keeps its configuration and data.

use vstd::prelude::*;
use crate::errors::{ErrorModel, MigrationError};
use crate::text::{concat2, concat3, opt_text};

verus! {

/// Path resolution strategy.
#[derive(Debug, Clone, PartialEq, Eq)]
pub enum PathStrategy {
    /// Use the directories that the operating system recommends.
    System,
    /// Use XDG directories on every platform: `~/.config` and `~/.local/share`.
    Xdg,
    /// Use a custom base directory for everything.
    CustomBase(String),
}

/// What a path strategy holds.
pub enum StrategyModel {
    System,
    Xdg,
    CustomBase(Seq<char>),
}

impl View for PathStrategy {
    type V = StrategyModel;

    open spec fn view(&self) -> StrategyModel {
        match self {
            PathStrategy::System => StrategyModel::System,
            PathStrategy::Xdg => StrategyModel::Xdg,
            PathStrategy::CustomBase(base) => StrategyModel::CustomBase(base@),
        }
    }
}

impl Default for PathStrategy {
    fn default() -> (r: Self)
        ensures
            r@ == StrategyModel::System,
    {
        PathStrategy::System
    }
}

/// The path of `part` under the directory `base`: an absolute `part` stands alone, and
/// a separator is written only where `base` does not end in one.
pub open spec fn joined_path(base: Seq<char>, part: Seq<char>) -> Seq<char> {
    if part.len() > 0 && part[0] == '/' {
        part
    } else if base.len() == 0 {
        part
    } else if base.last() == '/' {
        base + part
    } else {
        base + "/"@ + part
    }
}

/// Joins a directory and a path below it.
pub fn join_path(base: &str, part: &str) -> (r: String)
    ensures
        r@ == joined_path(base@, part@),
{
    let base_len = base.unicode_len();
    if part.unicode_len() > 0 && part.get_char(0) == '/' {
        String::from_str(part)
    } else if base_len == 0 {
        String::from_str(part)
    } else if base.get_char(base_len - 1) == '/' {
        concat2(base, part)
    } else {
        concat3(base, "/", part)
    }
}

/// Application path manager with configurable resolution strategies.
#[derive(Debug, Clone)]
pub struct AppPaths {
    pub app_name: String,
    pub config_strategy: PathStrategy,
    pub data_strategy: PathStrategy,
}

impl AppPaths {
    /// Create a new path manager for the given application name, with the system
    /// strategy for both configuration and data.
    pub fn new(app_name: &str) -> (r: Self)
        ensures
            r.app_name@ == app_name@,
            r.config_strategy@ == StrategyModel::System,
            r.data_strategy@ == StrategyModel::System,
    {
        Self {
            app_name: String::from_str(app_name),
            config_strategy: PathStrategy::default(),
            data_strategy: PathStrategy::default(),
        }
    }

    /// Set the configuration directory resolution strategy.
    pub fn config_strategy(self, strategy: PathStrategy) -> (r: Self)
        ensures
            r.app_name == self.app_name,
            r.config_strategy == strategy,
            r.data_strategy == self.data_strategy,
    {
        Self { app_name: self.app_name, config_strategy: strategy, data_strategy: self.data_strategy }
    }

    /// Set the data directory resolution strategy.
    pub fn data_strategy(self, strategy: PathStrategy) -> (r: Self)
        ensures
            r.app_name == self.app_name,
            r.config_strategy == self.config_strategy,
            r.data_strategy == strategy,
    {
        Self { app_name: self.app_name, config_strategy: self.config_strategy, data_strategy: strategy }
    }
}

/// Preference path manager for OS-recommended preference directories.
#[derive(Debug, Clone)]
pub struct PrefPath {
    pub app_name: String,
}

impl PrefPath {
    /// Create a new preference path manager for the given application name.
    pub fn new(app_name: &str) -> (r: Self)
        ensures
            r.app_name@ == app_name@,
    {
        Self { app_name: String::from_str(app_name) }
    }
}


/// Asks `dirs::config_dir` for the user's configuration directory. The answer depends
/// on the platform and the environment; a path that is not valid Unicode counts as
/// none.
#[verifier::external_body]
pub(crate) fn system_config_dir() -> Option<String> {
    dirs::config_dir().and_then(|p| p.into_os_string().into_string().ok())
}

/// Asks `dirs::data_dir` for the user's data directory. The answer depends on the
/// platform and the environment; a path that is not valid Unicode counts as none.
#[verifier::external_body]
pub(crate) fn system_data_dir() -> Option<String> {
    dirs::data_dir().and_then(|p| p.into_os_string().into_string().ok())
}

/// Asks `dirs::home_dir` for the user's home directory. The answer depends on the
/// platform and the environment; a path that is not valid Unicode counts as none.
#[verifier::external_body]
pub(crate) fn user_home_dir() -> Option<String> {
    dirs::home_dir().and_then(|p| p.into_os_string().into_string().ok())
}

/// The configuration directory of an application under a strategy, given what the
/// system names as the configuration directory and as the home directory.
pub open spec fn config_dir_of(
    strategy: StrategyModel,
    app_name: Seq<char>,
    system: Option<Seq<char>>,
    home: Option<Seq<char>>,
) -> Result<Seq<char>, ErrorModel> {
    match strategy {
        StrategyModel::System => match system {
            Some(base) => Ok(joined_path(base, app_name)),
            None => Err(ErrorModel::HomeDirNotFound),
        },
        StrategyModel::Xdg => match home {
            Some(h) => Ok(joined_path(joined_path(h, ".config"@), app_name)),
            None => Err(ErrorModel::HomeDirNotFound),
        },
        StrategyModel::CustomBase(base) => Ok(joined_path(base, app_name)),
    }
}

/// The data directory of an application under a strategy, given what the system names
/// as the data directory and as the home directory.
pub open spec fn data_dir_of(
    strategy: StrategyModel,
    app_name: Seq<char>,
    system: Option<Seq<char>>,
    home: Option<Seq<char>>,
) -> Result<Seq<char>, ErrorModel> {
    match strategy {
        StrategyModel::System => match system {
            Some(base) => Ok(joined_path(base, app_name)),
            None => Err(ErrorModel::HomeDirNotFound),
        },
        StrategyModel::Xdg => match home {
            Some(h) => Ok(joined_path(joined_path(h, ".local/share"@), app_name)),
            None => Err(ErrorModel::HomeDirNotFound),
        },
        StrategyModel::CustomBase(base) => Ok(joined_path(joined_path(base, "data"@), app_name)),
    }
}

/// The preference directory of an application: below `Library/Preferences` of the home
/// directory on macOS, below the system's configuration directory elsewhere.
pub open spec fn pref_dir_of(
    app_name: Seq<char>,
    macos: bool,
    system: Option<Seq<char>>,
    home: Option<Seq<char>>,
) -> Result<Seq<char>, ErrorModel> {
    if macos {
        match home {
            Some(h) => Ok(joined_path(joined_path(h, "Library/Preferences"@), app_name)),
            None => Err(ErrorModel::HomeDirNotFound),
        }
    } else {
        match system {
            Some(base) => Ok(joined_path(base, app_name)),
            None => Err(ErrorModel::HomeDirNotFound),
        }
    }
}

/// The content of a result that carries a path or an error.
pub open spec fn path_result(r: Result<String, MigrationError>) -> Result<Seq<char>, ErrorModel> {
    match r {
        Ok(p) => Ok(p@),
        Err(e) => Err(e@),
    }
}

/// Resolves the configuration directory from what the system named.
pub fn resolve_config_dir_from(
    strategy: &PathStrategy,
    app_name: &str,
    system: Option<String>,
    home: Option<String>,
) -> (r: Result<String, MigrationError>)
    ensures
        path_result(r) == config_dir_of(strategy@, app_name@, opt_text(system), opt_text(home)),
{
    match strategy {
        PathStrategy::System => match system {
            Some(base) => Ok(join_path(base.as_str(), app_name)),
            None => Err(MigrationError::HomeDirNotFound),
        },
        PathStrategy::Xdg => match home {
            Some(h) => {
                let config = join_path(h.as_str(), ".config");
                Ok(join_path(config.as_str(), app_name))
            },
            None => Err(MigrationError::HomeDirNotFound),
        },
        PathStrategy::CustomBase(base) => Ok(join_path(base.as_str(), app_name)),
    }
}

/// Resolves the data directory from what the system named.
pub fn resolve_data_dir_from(
    strategy: &PathStrategy,
    app_name: &str,
    system: Option<String>,
    home: Option<String>,
) -> (r: Result<String, MigrationError>)
    ensures
        path_result(r) == data_dir_of(strategy@, app_name@, opt_text(system), opt_text(home)),
{
    match strategy {
        PathStrategy::System => match system {
            Some(base) => Ok(join_path(base.as_str(), app_name)),
            None => Err(MigrationError::HomeDirNotFound),
        },
        PathStrategy::Xdg => match home {
            Some(h) => {
                let share = join_path(h.as_str(), ".local/share");
                Ok(join_path(share.as_str(), app_name))
            },
            None => Err(MigrationError::HomeDirNotFound),
        },
        PathStrategy::CustomBase(base) => {
            let data = join_path(base.as_str(), "data");
            Ok(join_path(data.as_str(), app_name))
        },
    }
}

/// Resolves the preference directory from what the system named.
pub fn resolve_pref_dir_from(
    app_name: &str,
    macos: bool,
    system: Option<String>,
    home: Option<String>,
) -> (r: Result<String, MigrationError>)
    ensures
        path_result(r) == pref_dir_of(app_name@, macos, opt_text(system), opt_text(home)),
{
    if macos {
        match home {
            Some(h) => {
                let prefs = join_path(h.as_str(), "Library/Preferences");
                Ok(join_path(prefs.as_str(), app_name))
            },
            None => Err(MigrationError::HomeDirNotFound),
        }
    } else {
        match system {
            Some(base) => Ok(join_path(base.as_str(), app_name)),
            None => Err(MigrationError::HomeDirNotFound),
        }
    }
}

impl AppPaths {
    /// Whether `dir` is the configuration directory for some answer of the system.
    pub open spec fn config_dir_may_be(&self, dir: Seq<char>) -> bool {
        exists|system: Option<Seq<char>>, home: Option<Seq<char>>|
            config_dir_of(self.config_strategy@, self.app_name@, system, home) == Ok::<
                Seq<char>,
                ErrorModel,
            >(dir)
    }

    /// Whether `dir` is the data directory for some answer of the system.
    pub open spec fn data_dir_may_be(&self, dir: Seq<char>) -> bool {
        exists|system: Option<Seq<char>>, home: Option<Seq<char>>|
            data_dir_of(self.data_strategy@, self.app_name@, system, home) == Ok::<
                Seq<char>,
                ErrorModel,
            >(dir)
    }

    /// Resolves the configuration directory. The system is asked only where the
    /// strategy needs its answer; with a custom base the result is fixed.
    pub fn resolve_config_dir(&self) -> (r: Result<String, MigrationError>)
        ensures
            match r {
                Ok(dir) => self.config_dir_may_be(dir@),
                Err(e) => e@ is HomeDirNotFound && !(self.config_strategy@ is CustomBase),
            },
            self.config_strategy@ matches StrategyModel::CustomBase(base) ==> path_result(r) == Ok::<
                Seq<char>,
                ErrorModel,
            >(joined_path(base, self.app_name@)),
    {
        let (system, home) = match &self.config_strategy {
            PathStrategy::System => (system_config_dir(), None),
            PathStrategy::Xdg => (None, user_home_dir()),
            PathStrategy::CustomBase(_) => (None, None),
        };
        let ghost s = opt_text(system);
        let ghost h = opt_text(home);
        let r = resolve_config_dir_from(&self.config_strategy, self.app_name.as_str(), system, home);
        proof {
            if r is Ok {
                assert(config_dir_of(self.config_strategy@, self.app_name@, s, h) == Ok::<
                    Seq<char>,
                    ErrorModel,
                >(r->Ok_0@));
            }
        }
        r
    }

    /// Resolves the data directory. The system is asked only where the strategy needs
    /// its answer; with a custom base the result is fixed.
    pub fn resolve_data_dir(&self) -> (r: Result<String, MigrationError>)
        ensures
            match r {
                Ok(dir) => self.data_dir_may_be(dir@),
                Err(e) => e@ is HomeDirNotFound && !(self.data_strategy@ is CustomBase),
            },
            self.data_strategy@ matches StrategyModel::CustomBase(base) ==> path_result(r) == Ok::<
                Seq<char>,
                ErrorModel,
            >(joined_path(joined_path(base, "data"@), self.app_name@)),
    {
        let (system, home) = match &self.data_strategy {
            PathStrategy::System => (system_data_dir(), None),
            PathStrategy::Xdg => (None, user_home_dir()),
            PathStrategy::CustomBase(_) => (None, None),
        };
        let ghost s = opt_text(system);
        let ghost h = opt_text(home);
        let r = resolve_data_dir_from(&self.data_strategy, self.app_name.as_str(), system, home);
        proof {
            if r is Ok {
                assert(data_dir_of(self.data_strategy@, self.app_name@, s, h) == Ok::<
                    Seq<char>,
                    ErrorModel,
                >(r->Ok_0@));
            }
        }
        r
    }
}

impl AppPaths {
    /// The path of a configuration file: `filename` below the configuration directory.
    pub fn config_file_path(&self, filename: &str) -> (r: Result<String, MigrationError>)
        ensures
            match r {
                Ok(file) => exists|dir: Seq<char>|
                    self.config_dir_may_be(dir) && file@ == joined_path(dir, filename@),
                Err(e) => e@ is HomeDirNotFound && !(self.config_strategy@ is CustomBase),
            },
            self.config_strategy@ matches StrategyModel::CustomBase(base) ==> path_result(r) == Ok::<
                Seq<char>,
                ErrorModel,
            >(joined_path(joined_path(base, self.app_name@), filename@)),
    {
        match self.resolve_config_dir() {
            Ok(dir) => Ok(join_path(dir.as_str(), filename)),
            Err(e) => Err(e),
        }
    }

    /// The path of a data file: `filename` below the data directory.
    pub fn data_file_path(&self, filename: &str) -> (r: Result<String, MigrationError>)
        ensures
            match r {
                Ok(file) => exists|dir: Seq<char>|
                    self.data_dir_may_be(dir) && file@ == joined_path(dir, filename@),
                Err(e) => e@ is HomeDirNotFound && !(self.data_strategy@ is CustomBase),
            },
            self.data_strategy@ matches StrategyModel::CustomBase(base) ==> path_result(r) == Ok::<
                Seq<char>,
                ErrorModel,
            >(joined_path(joined_path(joined_path(base, "data"@), self.app_name@), filename@)),
    {
        match self.resolve_data_dir() {
            Ok(dir) => Ok(join_path(dir.as_str(), filename)),
            Err(e) => Err(e),
        }
    }
}

impl PrefPath {
    /// Whether `dir` is the preference directory for some answer of the system.
    pub open spec fn pref_dir_may_be(&self, macos: bool, dir: Seq<char>) -> bool {
        exists|system: Option<Seq<char>>, home: Option<Seq<char>>|
            pref_dir_of(self.app_name@, macos, system, home) == Ok::<Seq<char>, ErrorModel>(dir)
    }

    /// The path of a preference file: `filename` below the preference directory of the
    /// platform.
    pub fn pref_file_path(&self, macos: bool, filename: &str) -> (r: Result<String, MigrationError>)
        ensures
            match r {
                Ok(file) => exists|dir: Seq<char>|
                    self.pref_dir_may_be(macos, dir) && file@ == joined_path(dir, filename@),
                Err(e) => e@ is HomeDirNotFound,
            },
    {
        match self.resolve_pref_dir(macos) {
            Ok(dir) => {
                let file = join_path(dir.as_str(), filename);
                assert(self.pref_dir_may_be(macos, dir@) && file@ == joined_path(dir@, filename@));
                Ok(file)
            },
            Err(e) => Err(e),
        }
    }

    /// Resolves the preference directory for the platform: `macos` says whether this
    /// is macOS.
    pub fn resolve_pref_dir(&self, macos: bool) -> (r: Result<String, MigrationError>)
        ensures
            match r {
                Ok(dir) => exists|system: Option<Seq<char>>, home: Option<Seq<char>>|
                    pref_dir_of(self.app_name@, macos, system, home) == Ok::<
                        Seq<char>,
                        ErrorModel,
                    >(dir@),
                Err(e) => e@ is HomeDirNotFound,
            },
    {
        let (system, home) = if macos {
            (None, user_home_dir())
        } else {
            (system_config_dir(), None)
        };
        let ghost s = opt_text(system);
        let ghost h = opt_text(home);
        let r = resolve_pref_dir_from(self.app_name.as_str(), macos, system, home);
        proof {
            if r is Ok {
                assert(pref_dir_of(self.app_name@, macos, s, h) == Ok::<Seq<char>, ErrorModel>(
                    r->Ok_0@,
                ));
            }
        }
        r
    }
}

} // verus!
