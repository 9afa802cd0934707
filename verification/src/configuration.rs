//! The configuration of the server, and how a TOML document becomes one.
//!
//! A configuration file holds two keys, both required:
//!
//! ```toml
//! use_local_time_in_logs = false
//! apps_directory_path = "/srv/unity/apps"
//! ```
//!
//! Keys beyond these two are passed over.

use vstd::prelude::*;

use crate::document::parse_table;
use crate::document::parsed_document;
use crate::document::table_setting;
use crate::document::table_settings;
use crate::document::Setting;
use crate::document::SettingView;

verus! {

/// The error with which the system refuses to read a file.
#[verifier::external_type_specification]
#[verifier::external_body]
pub struct ExIoError(std::io::Error);

/// The path that the configuration file is at.
pub const CONFIG_PATH: &'static str = "/srv/unity/config.toml";

/// Default apps path.
pub const DEFAULT_APPS_PATH: &'static str = "/srv/unity/apps";

/// A key of the configuration file.
#[derive(Debug, Clone, Copy, PartialEq, Eq, Structural)]
pub enum Key {
    /// `use_local_time_in_logs`, a boolean.
    UseLocalTimeInLogs,
    /// `apps_directory_path`, a string.
    AppsDirectoryPath,
}

impl Key {
    /// The key as it is written in the file.
    pub open spec fn spec_name(self) -> Seq<char> {
        match self {
            Key::UseLocalTimeInLogs => "use_local_time_in_logs"@,
            Key::AppsDirectoryPath => "apps_directory_path"@,
        }
    }

    /// The key as it is written in the file.
    pub fn name(&self) -> (word: &'static str)
        ensures
            word@ == self.spec_name(),
    {
        match self {
            Key::UseLocalTimeInLogs => "use_local_time_in_logs",
            Key::AppsDirectoryPath => "apps_directory_path",
        }
    }
}

/// A configuration.
#[derive(Debug, Clone, PartialEq, Eq)]
pub struct Configuration {
    /// If local time should be used in logs. Generally only recommended if
    /// you don't administrate multiple servers across timezones and you hate
    /// UTC. (UTC will be converted into local time in the frontend log viewer.)
    pub use_local_time_in_logs: bool,
    /// The directory Unity apps will be stored in.
    pub apps_directory_path: String,
}

/// What a [`Configuration`] holds.
pub struct ConfigurationView {
    pub use_local_time_in_logs: bool,
    pub apps_directory_path: Seq<char>,
}

impl View for Configuration {
    type V = ConfigurationView;

    open spec fn view(&self) -> ConfigurationView {
        ConfigurationView {
            use_local_time_in_logs: self.use_local_time_in_logs,
            apps_directory_path: self.apps_directory_path@,
        }
    }
}

/// Why a text is no configuration.
#[derive(Debug)]
pub enum Fault {
    /// The text is no TOML document; `toml` says what it found.
    Malformed(toml::de::Error),
    /// The document lacks a key.
    MissingField(Key),
    /// The value of a key is of another kind than the key asks for.
    InvalidType(Key),
}

/// An enumeration of possible configuration-related errors.
#[derive(Debug)]
pub enum LoadError {
    /// I/O (read/write) error.
    ReadWriteError(std::io::Error),
    /// Configuration file deserialization error.
    DeserializationError(Fault),
}

/// The default configuration: UTC in logs, apps under [`DEFAULT_APPS_PATH`].
pub open spec fn default_configuration() -> ConfigurationView {
    ConfigurationView {
        use_local_time_in_logs: false,
        apps_directory_path: DEFAULT_APPS_PATH@,
    }
}

/// The configuration that the values of the two keys make, where
/// `None` stands for a key that the document lacks.
///
/// Both keys must be there, the first with a boolean and the second with a
/// string. The first key at fault is the one reported.
pub open spec fn read_settings(
    use_local_time_in_logs: Option<SettingView>,
    apps_directory_path: Option<SettingView>,
) -> Result<ConfigurationView, Fault> {
    match (use_local_time_in_logs, apps_directory_path) {
        (None, _) => Err(Fault::MissingField(Key::UseLocalTimeInLogs)),
        (Some(SettingView::Boolean(flag)), Some(SettingView::Text(path))) => Ok(
            ConfigurationView { use_local_time_in_logs: flag, apps_directory_path: path },
        ),
        (Some(SettingView::Boolean(_)), None) => Err(
            Fault::MissingField(Key::AppsDirectoryPath),
        ),
        (Some(SettingView::Boolean(_)), Some(_)) => Err(
            Fault::InvalidType(Key::AppsDirectoryPath),
        ),
        (Some(_), _) => Err(Fault::InvalidType(Key::UseLocalTimeInLogs)),
    }
}

/// The configuration that a table with these entries makes.
pub open spec fn read_table(settings: Map<Seq<char>, SettingView>) -> Result<
    ConfigurationView,
    Fault,
> {
    read_settings(
        settings.get(Key::UseLocalTimeInLogs.spec_name()),
        settings.get(Key::AppsDirectoryPath.spec_name()),
    )
}

/// The configuration that a text makes.
pub open spec fn read_text(text: Seq<char>) -> Result<ConfigurationView, Fault> {
    match parsed_document(text) {
        Ok(settings) => read_table(settings),
        Err(error) => Err(Fault::Malformed(error)),
    }
}

/// What a load gives, by what reading the file gave: its text, or the error
/// with which it could not be read.
pub open spec fn load_outcome(contents: Result<Seq<char>, std::io::Error>) -> Result<
    ConfigurationView,
    LoadError,
> {
    match contents {
        Ok(text) => match read_text(text) {
            Ok(configuration) => Ok(configuration),
            Err(fault) => Err(LoadError::DeserializationError(fault)),
        },
        Err(error) => Err(LoadError::ReadWriteError(error)),
    }
}

/// An outcome with what the configuration holds in place of the
/// configuration.
pub open spec fn outcome_view<E>(outcome: Result<Configuration, E>) -> Result<
    ConfigurationView,
    E,
> {
    match outcome {
        Ok(configuration) => Ok(configuration@),
        Err(error) => Err(error),
    }
}

/// What reading the file gave, with what the text holds in place of the text.
pub open spec fn contents_view(contents: Result<String, std::io::Error>) -> Result<
    Seq<char>,
    std::io::Error,
> {
    match contents {
        Ok(text) => Ok(text@),
        Err(error) => Err(error),
    }
}

/// A table that holds the two values of a configuration under their keys
/// reads back as that configuration, whatever else it holds.
pub proof fn lemma_written_configuration_reads_back(
    settings: Map<Seq<char>, SettingView>,
    configuration: ConfigurationView,
)
    requires
        settings.contains_key(Key::UseLocalTimeInLogs.spec_name()),
        settings[Key::UseLocalTimeInLogs.spec_name()] == SettingView::Boolean(
            configuration.use_local_time_in_logs,
        ),
        settings.contains_key(Key::AppsDirectoryPath.spec_name()),
        settings[Key::AppsDirectoryPath.spec_name()] == SettingView::Text(
            configuration.apps_directory_path,
        ),
    ensures
        read_table(settings) == Ok::<ConfigurationView, Fault>(configuration),
{
}

/// There is no partial success: a table makes a configuration only where it
/// holds both keys, the first with a boolean and the second with a string,
/// and the configuration then holds these two values.
pub proof fn lemma_configuration_needs_both_keys(
    settings: Map<Seq<char>, SettingView>,
    configuration: ConfigurationView,
)
    requires
        read_table(settings) == Ok::<ConfigurationView, Fault>(configuration),
    ensures
        settings.contains_key(Key::UseLocalTimeInLogs.spec_name()),
        settings.contains_key(Key::AppsDirectoryPath.spec_name()),
        settings[Key::UseLocalTimeInLogs.spec_name()] == SettingView::Boolean(
            configuration.use_local_time_in_logs,
        ),
        settings[Key::AppsDirectoryPath.spec_name()] == SettingView::Text(
            configuration.apps_directory_path,
        ),
{
}

impl Configuration {
    /// Generates a default configuration.
    ///
    /// # Returns
    /// The default configuration, which is below.
    /// ```toml
    /// use_local_time_in_logs = false
    /// apps_directory_path = "/srv/unity/apps"
    /// ```
    pub fn new() -> (configuration: Configuration)
        ensures
            configuration@ == default_configuration(),
    {
        Configuration {
            use_local_time_in_logs: false,
            apps_directory_path: DEFAULT_APPS_PATH.to_owned(),
        }
    }

    /// Makes a configuration of the values of its two keys, where `None`
    /// stands for a key that the document lacks.
    pub fn from_settings(
        use_local_time_in_logs: Option<Setting>,
        apps_directory_path: Option<Setting>,
    ) -> (outcome: Result<Configuration, Fault>)
        ensures
            outcome_view(outcome) == read_settings(
                match use_local_time_in_logs {
                    Some(setting) => Some(setting@),
                    None => None,
                },
                match apps_directory_path {
                    Some(setting) => Some(setting@),
                    None => None,
                },
            ),
    {
        let use_local_time_in_logs = match use_local_time_in_logs {
            None => { return Err(Fault::MissingField(Key::UseLocalTimeInLogs)); },
            Some(Setting::Boolean(flag)) => flag,
            Some(_) => { return Err(Fault::InvalidType(Key::UseLocalTimeInLogs)); },
        };
        let apps_directory_path = match apps_directory_path {
            None => { return Err(Fault::MissingField(Key::AppsDirectoryPath)); },
            Some(Setting::Text(path)) => path,
            Some(_) => { return Err(Fault::InvalidType(Key::AppsDirectoryPath)); },
        };
        Ok(Configuration { use_local_time_in_logs, apps_directory_path })
    }

    /// Makes a configuration of the top-level table of a document.
    pub fn from_table(table: &toml::Table) -> (outcome: Result<Configuration, Fault>)
        ensures
            outcome_view(outcome) == read_table(table_settings(*table)),
    {
        let use_local_time_in_logs = table_setting(table, Key::UseLocalTimeInLogs.name());
        let apps_directory_path = table_setting(table, Key::AppsDirectoryPath.name());
        Configuration::from_settings(use_local_time_in_logs, apps_directory_path)
    }

    /// Makes a configuration of the text of a configuration file.
    pub fn parse(text: &str) -> (outcome: Result<Configuration, Fault>)
        ensures
            outcome_view(outcome) == read_text(text@),
    {
        match parse_table(text) {
            Ok(table) => Configuration::from_table(&table),
            Err(error) => Err(Fault::Malformed(error)),
        }
    }

    /// Loads the configuration from what reading the file at [`CONFIG_PATH`]
    /// gave: its text, or the error with which it could not be read.
    ///
    /// # Returns
    /// `Result<Configuration, LoadError>`, `Ok(Configuration)` on success, and `Err(LoadError)`.
    pub fn load(contents: Result<String, std::io::Error>) -> (outcome: Result<
        Configuration,
        LoadError,
    >)
        ensures
            outcome_view(outcome) == load_outcome(contents_view(contents)),
            // A file that could not be read is a read/write error, never a
            // deserialization error.
            contents is Err ==> outcome matches Err(LoadError::ReadWriteError(_)),
            // A document without `apps_directory_path` is a deserialization error.
            contents matches Ok(text) && parsed_document(text@) matches Ok(settings)
                && !settings.contains_key(Key::AppsDirectoryPath.spec_name())
                ==> outcome matches Err(LoadError::DeserializationError(_)),
            // So is one whose `use_local_time_in_logs` is no boolean.
            contents matches Ok(text) && parsed_document(text@) matches Ok(settings)
                && settings.contains_key(Key::UseLocalTimeInLogs.spec_name())
                && !(settings[Key::UseLocalTimeInLogs.spec_name()] is Boolean)
                ==> outcome matches Err(LoadError::DeserializationError(_)),
    {
        match contents {
            Ok(text) => match Configuration::parse(text.as_str()) {
                Ok(configuration) => Ok(configuration),
                Err(fault) => Err(LoadError::DeserializationError(fault)),
            },
            Err(error) => Err(LoadError::ReadWriteError(error)),
        }
    }
}

} // verus!
