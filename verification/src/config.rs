//! The settings of a run: what the command line gives, completed from the
//! configuration file and from the defaults.

use crate::cli::{firefox_type_named, FirefoxType};
use crate::ini::{ini_document, parse_ini, sections_view, setting, setting_of, Section, SectionView};
use crate::locator::{option_view, result_view};
use crate::text::{join, joined, unescape, unescaped};
use vstd::prelude::*;

verus! {

/// What the command line gives. A field is `None` where its flag is absent.
#[derive(Debug, Clone, PartialEq, Eq)]
pub struct Options {
    pub firefox_type: Option<FirefoxType>,
    pub firefox_home_path: Option<String>,
    pub profile_path: Option<String>,
    pub column_delimiter: Option<String>,
    pub row_delimiter: Option<String>,
}

/// The settings in effect. The delimiters are ready to be written: their
/// escapes are expanded.
#[derive(Debug, Clone, PartialEq, Eq)]
pub struct Settings {
    pub firefox_type: Option<FirefoxType>,
    pub firefox_home_path: Option<String>,
    pub profile_path: Option<String>,
    pub column_delimiter: String,
    pub row_delimiter: String,
}

/// Why the settings could not be made up.
#[derive(Debug, Clone, PartialEq, Eq)]
pub enum ConfigError {
    /// The configuration file could not be read or is malformed; the
    /// reason is kept.
    Unreadable(String),
    /// The configuration file names a flavour that does not exist; the
    /// name is kept.
    InvalidFirefoxType(String),
}

/// `Options` as text.
pub ghost struct OptionsView {
    pub firefox_type: Option<FirefoxType>,
    pub firefox_home_path: Option<Seq<char>>,
    pub profile_path: Option<Seq<char>>,
    pub column_delimiter: Option<Seq<char>>,
    pub row_delimiter: Option<Seq<char>>,
}

/// `Settings` as text.
pub ghost struct SettingsView {
    pub firefox_type: Option<FirefoxType>,
    pub firefox_home_path: Option<Seq<char>>,
    pub profile_path: Option<Seq<char>>,
    pub column_delimiter: Seq<char>,
    pub row_delimiter: Seq<char>,
}

/// A `ConfigError` as text.
pub ghost enum ConfigFailure {
    Unreadable(Seq<char>),
    InvalidFirefoxType(Seq<char>),
}

impl View for Options {
    type V = OptionsView;

    open spec fn view(&self) -> OptionsView {
        OptionsView {
            firefox_type: self.firefox_type,
            firefox_home_path: option_view(self.firefox_home_path),
            profile_path: option_view(self.profile_path),
            column_delimiter: option_view(self.column_delimiter),
            row_delimiter: option_view(self.row_delimiter),
        }
    }
}

impl View for Settings {
    type V = SettingsView;

    open spec fn view(&self) -> SettingsView {
        SettingsView {
            firefox_type: self.firefox_type,
            firefox_home_path: option_view(self.firefox_home_path),
            profile_path: option_view(self.profile_path),
            column_delimiter: self.column_delimiter@,
            row_delimiter: self.row_delimiter@,
        }
    }
}

impl View for ConfigError {
    type V = ConfigFailure;

    open spec fn view(&self) -> ConfigFailure {
        match self {
            ConfigError::Unreadable(why) => ConfigFailure::Unreadable(why@),
            ConfigError::InvalidFirefoxType(name) => ConfigFailure::InvalidFirefoxType(name@),
        }
    }
}

/// Where the configuration file lies: where it was asked for, else
/// `foxmarks/config` under the user's configuration directory.
pub open spec fn config_file_of(custom: Option<Seq<char>>, directory: Option<Seq<char>>) -> Option<
    Seq<char>,
> {
    match custom {
        Some(path) => Some(path),
        None => match directory {
            Some(directory) => Some(joined(directory, "foxmarks/config"@)),
            None => None,
        },
    }
}

/// What a configuration file comes to. `file` is `None` where there is no
/// such file, which stands for a file without sections; else it is the
/// file's text, or the reason why it could not be read.
pub open spec fn loaded(file: Option<Result<Seq<char>, Seq<char>>>) -> Result<
    Seq<SectionView>,
    ConfigFailure,
> {
    match file {
        None => Ok(Seq::empty()),
        Some(Err(why)) => Err(ConfigFailure::Unreadable(why)),
        Some(Ok(text)) => match ini_document(text) {
            Ok(sections) => Ok(sections),
            Err(why) => Err(ConfigFailure::Unreadable(why)),
        },
    }
}

/// A text setting: the flag's value, else the configuration file's.
pub open spec fn text_setting(
    flag: Option<Seq<char>>,
    configuration: Seq<SectionView>,
    section: Seq<char>,
    key: Seq<char>,
) -> Option<Seq<char>> {
    match flag {
        Some(value) => Some(value),
        None => setting_of(configuration, section, key),
    }
}

/// A delimiter: the flag's value, else the configuration file's, with
/// its escapes expanded; else `fallback` as it stands.
pub open spec fn delimiter_setting(
    flag: Option<Seq<char>>,
    configuration: Seq<SectionView>,
    key: Seq<char>,
    fallback: Seq<char>,
) -> Seq<char> {
    match text_setting(flag, configuration, "output"@, key) {
        Some(raw) => unescaped(raw),
        None => fallback,
    }
}

/// The settings in effect.
///
/// Each field is taken from the command line where its flag is present,
/// else from the configuration file: the flavour, the profile store and
/// the profile from the section `database`, the delimiters from the
/// section `output`. The column delimiter falls back to `;` and the row
/// delimiter to a newline. A flavour that the configuration file names is
/// only read where the command line names none; a name that is no
/// flavour's is then an error.
pub open spec fn settled(command_line: OptionsView, configuration: Seq<SectionView>) -> Result<
    SettingsView,
    ConfigFailure,
> {
    let firefox_type = match command_line.firefox_type {
        Some(flavour) => Ok(Some(flavour)),
        None => match setting_of(configuration, "database"@, "firefox_type"@) {
            Some(name) => match firefox_type_named(name) {
                Some(flavour) => Ok(Some(flavour)),
                None => Err(ConfigFailure::InvalidFirefoxType(name)),
            },
            None => Ok(None),
        },
    };
    match firefox_type {
        Err(error) => Err(error),
        Ok(firefox_type) => Ok(
            SettingsView {
                firefox_type,
                firefox_home_path: text_setting(
                    command_line.firefox_home_path,
                    configuration,
                    "database"@,
                    "firefox_home_path"@,
                ),
                profile_path: text_setting(
                    command_line.profile_path,
                    configuration,
                    "database"@,
                    "profile_path"@,
                ),
                column_delimiter: delimiter_setting(
                    command_line.column_delimiter,
                    configuration,
                    "column_delimiter"@,
                    ";"@,
                ),
                row_delimiter: delimiter_setting(
                    command_line.row_delimiter,
                    configuration,
                    "row_delimiter"@,
                    "\n"@,
                ),
            },
        ),
    }
}

/// The path of the configuration file, if it can be told.
pub fn config_path(custom: Option<String>, directory: Option<String>) -> (path: Option<String>)
    ensures
        option_view(path) == config_file_of(option_view(custom), option_view(directory)),
{
    match custom {
        Some(path) => Some(path),
        None => match directory {
            Some(directory) => Some(join(directory.as_str(), "foxmarks/config")),
            None => None,
        },
    }
}

/// Reads the configuration file into its sections.
pub fn load(file: Option<Result<String, String>>) -> (configuration: Result<
    Vec<Section>,
    ConfigError,
>)
    ensures
        match configuration {
            Ok(sections) => loaded(
                match file {
                    Some(text) => Some(result_view(text)),
                    None => None,
                },
            ) == Ok::<Seq<SectionView>, ConfigFailure>(sections_view(sections@)),
            Err(error) => loaded(
                match file {
                    Some(text) => Some(result_view(text)),
                    None => None,
                },
            ) == Err::<Seq<SectionView>, ConfigFailure>(error@),
        },
{
    match file {
        None => {
            let sections: Vec<Section> = Vec::new();
            assert(sections_view(sections@) =~= Seq::empty());
            Ok(sections)
        },
        Some(Err(why)) => Err(ConfigError::Unreadable(why)),
        Some(Ok(text)) => match parse_ini(text.as_str()) {
            Ok(sections) => Ok(sections),
            Err(why) => Err(ConfigError::Unreadable(why)),
        },
    }
}

/// A text setting: the flag's value, else the configuration file's.
fn text_or_configured(flag: Option<String>, configuration: &Vec<Section>, section: &str, key: &str)
    -> (value: Option<String>)
    ensures
        option_view(value) == text_setting(
            option_view(flag),
            sections_view(configuration@),
            section@,
            key@,
        ),
{
    match flag {
        Some(value) => Some(value),
        None => setting(configuration, section, key),
    }
}

/// A delimiter: the flag's value, else the configuration file's, with
/// its escapes expanded; else `fallback` as it stands.
fn delimiter(flag: Option<String>, configuration: &Vec<Section>, key: &str, fallback: &str) -> (value:
    String)
    ensures
        value@ == delimiter_setting(
            option_view(flag),
            sections_view(configuration@),
            key@,
            fallback@,
        ),
{
    match text_or_configured(flag, configuration, "output", key) {
        Some(raw) => unescape(raw.as_str()),
        None => fallback.to_owned(),
    }
}

/// Makes up the settings in effect from the command line and the
/// configuration file.
pub fn settle(command_line: Options, configuration: &Vec<Section>) -> (settings: Result<
    Settings,
    ConfigError,
>)
    ensures
        match settings {
            Ok(settings) => settled(command_line@, sections_view(configuration@)) == Ok::<
                SettingsView,
                ConfigFailure,
            >(settings@),
            Err(error) => settled(command_line@, sections_view(configuration@)) == Err::<
                SettingsView,
                ConfigFailure,
            >(error@),
        },
{
    let firefox_type = match command_line.firefox_type {
        Some(flavour) => Some(flavour),
        None => match setting(configuration, "database", "firefox_type") {
            Some(name) => match FirefoxType::from_str(name.as_str()) {
                Ok(flavour) => Some(flavour),
                Err(name) => {
                    return Err(ConfigError::InvalidFirefoxType(name));
                },
            },
            None => None,
        },
    };
    Ok(
        Settings {
            firefox_type,
            firefox_home_path: text_or_configured(
                command_line.firefox_home_path,
                configuration,
                "database",
                "firefox_home_path",
            ),
            profile_path: text_or_configured(
                command_line.profile_path,
                configuration,
                "database",
                "profile_path",
            ),
            column_delimiter: delimiter(
                command_line.column_delimiter,
                configuration,
                "column_delimiter",
                ";",
            ),
            row_delimiter: delimiter(command_line.row_delimiter, configuration, "row_delimiter", "\n"),
        },
    )
}

} // verus!
