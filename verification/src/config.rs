//! The settings of a run and how they are read from a TOML document.

use vstd::prelude::*;
use vstd::string::*;
use crate::text::same_text;

verus! {

/// Whether one item's failure stops the whole batch.
#[derive(Debug, Clone, Copy, PartialEq, Eq, Structural)]
pub enum ErrorStrategy {
    Abort,
    Continue,
}

impl ErrorStrategy {
    /// The strategy that a configuration value names: `abort` or `continue`,
    /// in lower case and nothing else.
    pub fn from_str(v: &str) -> (strategy: Option<ErrorStrategy>)
        ensures
            strategy == if v@ == "abort"@ {
                Some(ErrorStrategy::Abort)
            } else if v@ == "continue"@ {
                Some(ErrorStrategy::Continue)
            } else {
                None
            },
    {
        if same_text(v, "abort") {
            Some(ErrorStrategy::Abort)
        } else if same_text(v, "continue") {
            Some(ErrorStrategy::Continue)
        } else {
            None
        }
    }
}

/// What happens when the target of a download already exists.
#[derive(Debug, Clone, Copy, PartialEq, Eq, Structural)]
pub enum OverwriteStrategy {
    Overwrite,
    Skip,
}

impl OverwriteStrategy {
    /// The strategy that a configuration value names: `overwrite` or `skip`,
    /// in lower case and nothing else.
    pub fn from_str(v: &str) -> (strategy: Option<OverwriteStrategy>)
        ensures
            strategy == if v@ == "overwrite"@ {
                Some(OverwriteStrategy::Overwrite)
            } else if v@ == "skip"@ {
                Some(OverwriteStrategy::Skip)
            } else {
                None
            },
    {
        if same_text(v, "overwrite") {
            Some(OverwriteStrategy::Overwrite)
        } else if same_text(v, "skip") {
            Some(OverwriteStrategy::Skip)
        } else {
            None
        }
    }
}

/// The wireless network of the camera and the interface that joins it.
#[derive(Debug)]
pub struct WifiConfig {
    pub interface: String,
    pub ssid: String,
}

impl Clone for WifiConfig {
    fn clone(&self) -> (copy: WifiConfig)
        ensures
            copy.interface@ == self.interface@,
            copy.ssid@ == self.ssid@,
    {
        WifiConfig { interface: self.interface.clone(), ssid: self.ssid.clone() }
    }
}

/// What a run needs to know.
#[derive(Debug)]
pub struct Config {
    /// Where incremental transfers go; none switches them off.
    pub download_dir: Option<String>,
    /// Where the camera's transfer order goes; none switches it off.
    pub transfer_order_dir: Option<String>,
    pub error_strategy: ErrorStrategy,
    pub overwrite_strategy: OverwriteStrategy,
    pub power_off: bool,
    pub wifi: Option<WifiConfig>,
}

/// A configuration to start from, with every setting in it.
pub const CONFIG_TEMPLATE: &'static str = "\
# What to do when a download fails: \"abort\" stops the run, \"continue\" goes on
# with the next file.
error_strategy = \"abort\"

# What to do when a file is there already: \"skip\" keeps it, \"overwrite\"
# replaces it.
overwrite_strategy = \"skip\"

# Whether to switch the camera off when the transfer is done.
power_off = false

# Files that are new since the last run. Leave the section out to switch
# this off.
[incremental]
download_directory = \"/home/user/Pictures/camera\"

# Files marked for transfer on the camera. Leave the section out to switch
# this off.
[transfer_order]
download_directory = \"/home/user/Pictures/camera/order\"

# Join the camera's wireless network for the time of the transfer.
#[wifi]
#interface = \"wlan0\"
#ssid = \"E-M10-P-XXXXXXXX\"
";

/// Why a configuration could not be had from a file's text.
#[derive(Debug, Clone, Copy, PartialEq, Eq, Structural)]
pub enum ConfigError {
    /// The text is not a TOML document.
    NotToml,
    /// There is no `error_strategy`.
    ErrorStrategyMissing,
    /// `error_strategy` is neither `abort` nor `continue`.
    ErrorStrategyInvalid,
    /// There is no `overwrite_strategy`.
    OverwriteStrategyMissing,
    /// `overwrite_strategy` is neither `overwrite` nor `skip`.
    OverwriteStrategyInvalid,
    /// There is no `power_off`, or it is neither `true` nor `false`.
    PowerOffMissing,
}

/// What a TOML document says on the settings of a run. A setting that is not
/// there is `None`; for the two strategies, a setting that is there and is
/// not a string is `Some(None)`.
#[derive(Debug)]
pub struct Settings {
    pub error_strategy: Option<Option<String>>,
    pub overwrite_strategy: Option<Option<String>>,
    pub incremental_directory: Option<String>,
    pub transfer_order_directory: Option<String>,
    pub power_off: Option<bool>,
    pub wifi_interface: Option<String>,
    pub wifi_ssid: Option<String>,
}

/// The settings of a document as plain values.
pub struct SettingsView {
    pub error_strategy: Option<Option<Seq<char>>>,
    pub overwrite_strategy: Option<Option<Seq<char>>>,
    pub incremental_directory: Option<Seq<char>>,
    pub transfer_order_directory: Option<Seq<char>>,
    pub power_off: Option<bool>,
    pub wifi_interface: Option<Seq<char>>,
    pub wifi_ssid: Option<Seq<char>>,
}

/// A configuration as plain values.
pub struct ConfigView {
    pub download_dir: Option<Seq<char>>,
    pub transfer_order_dir: Option<Seq<char>>,
    pub error_strategy: ErrorStrategy,
    pub overwrite_strategy: OverwriteStrategy,
    pub power_off: bool,
    /// The interface and the network's name.
    pub wifi: Option<(Seq<char>, Seq<char>)>,
}

/// A text that may be there, as a plain value.
pub open spec fn text_view(text: Option<String>) -> Option<Seq<char>> {
    match text {
        Some(t) => Some(t@),
        None => None,
    }
}

/// A setting that may be there and may be a text, as a plain value.
pub open spec fn setting_view(setting: Option<Option<String>>) -> Option<Option<Seq<char>>> {
    match setting {
        Some(text) => Some(text_view(text)),
        None => None,
    }
}

impl View for Settings {
    type V = SettingsView;

    open spec fn view(&self) -> SettingsView {
        SettingsView {
            error_strategy: setting_view(self.error_strategy),
            overwrite_strategy: setting_view(self.overwrite_strategy),
            incremental_directory: text_view(self.incremental_directory),
            transfer_order_directory: text_view(self.transfer_order_directory),
            power_off: self.power_off,
            wifi_interface: text_view(self.wifi_interface),
            wifi_ssid: text_view(self.wifi_ssid),
        }
    }
}

impl View for Config {
    type V = ConfigView;

    open spec fn view(&self) -> ConfigView {
        ConfigView {
            download_dir: text_view(self.download_dir),
            transfer_order_dir: text_view(self.transfer_order_dir),
            error_strategy: self.error_strategy,
            overwrite_strategy: self.overwrite_strategy,
            power_off: self.power_off,
            wifi: match self.wifi {
                Some(w) => Some((w.interface@, w.ssid@)),
                None => None,
            },
        }
    }
}

/// The error strategy that a text names.
pub open spec fn error_strategy_named(v: Seq<char>) -> Option<ErrorStrategy> {
    if v == "abort"@ {
        Some(ErrorStrategy::Abort)
    } else if v == "continue"@ {
        Some(ErrorStrategy::Continue)
    } else {
        None
    }
}

/// The overwrite strategy that a text names.
pub open spec fn overwrite_strategy_named(v: Seq<char>) -> Option<OverwriteStrategy> {
    if v == "overwrite"@ {
        Some(OverwriteStrategy::Overwrite)
    } else if v == "skip"@ {
        Some(OverwriteStrategy::Skip)
    } else {
        None
    }
}

/// What is wrong with the settings, if anything is. The settings are looked
/// at in a fixed order and the first fault found is the one reported: the
/// error strategy, then the overwrite strategy, then the switch for powering
/// off.
pub open spec fn settings_fault(s: SettingsView) -> Option<ConfigError> {
    if s.error_strategy is None {
        Some(ConfigError::ErrorStrategyMissing)
    } else if s.error_strategy->0 is None || error_strategy_named(s.error_strategy->0->0)
        is None {
        Some(ConfigError::ErrorStrategyInvalid)
    } else if s.overwrite_strategy is None {
        Some(ConfigError::OverwriteStrategyMissing)
    } else if s.overwrite_strategy->0 is None || overwrite_strategy_named(
        s.overwrite_strategy->0->0,
    ) is None {
        Some(ConfigError::OverwriteStrategyInvalid)
    } else if s.power_off is None {
        Some(ConfigError::PowerOffMissing)
    } else {
        None
    }
}

/// The configuration that faultless settings stand for. The two directories
/// are optional, each switching its kind of transfer on. The wireless switch
/// is on where both the interface and the network's name are set.
pub open spec fn settings_config(s: SettingsView) -> ConfigView {
    ConfigView {
        download_dir: s.incremental_directory,
        transfer_order_dir: s.transfer_order_directory,
        error_strategy: error_strategy_named(s.error_strategy->0->0)->0,
        overwrite_strategy: overwrite_strategy_named(s.overwrite_strategy->0->0)->0,
        power_off: s.power_off->0,
        wifi: if s.wifi_interface is Some && s.wifi_ssid is Some {
            Some((s.wifi_interface->0, s.wifi_ssid->0))
        } else {
            None
        },
    }
}

/// A TOML value: a string, a number, a truth value, a date, a list or a table.
#[verifier::external_type_specification]
#[verifier::external_body]
pub struct ExTomlValue(toml::Value);

/// What a TOML value holds, as far as a configuration looks at it.
pub enum Toml {
    /// A string.
    Text(Seq<char>),
    /// A truth value.
    Flag(bool),
    /// A table: a value under each of its keys.
    Table(Map<Seq<char>, Toml>),
    /// A number, a date or a list.
    Other,
}

impl Toml {
    /// The value under a key, if this is a table and has the key.
    pub open spec fn member(self, key: Seq<char>) -> Option<Toml> {
        match self {
            Toml::Table(entries) => if entries.contains_key(key) {
                Some(entries[key])
            } else {
                None
            },
            _ => None,
        }
    }

    /// The text, if this is a string.
    pub open spec fn text(self) -> Option<Seq<char>> {
        match self {
            Toml::Text(text) => Some(text),
            _ => None,
        }
    }

    /// The truth value, if this is one.
    pub open spec fn flag(self) -> Option<bool> {
        match self {
            Toml::Flag(flag) => Some(flag),
            _ => None,
        }
    }

    /// The text under a key, if this is a table that holds a string there.
    pub open spec fn member_text(self, key: Seq<char>) -> Option<Seq<char>> {
        match self.member(key) {
            Some(entry) => entry.text(),
            None => None,
        }
    }

    /// The text under a key of the table under another key.
    pub open spec fn section_text(self, section: Seq<char>, key: Seq<char>) -> Option<Seq<char>> {
        match self.member(section) {
            Some(table) => table.member_text(key),
            None => None,
        }
    }

    /// A strategy setting: whether it is there, and its text if it is a string.
    pub open spec fn strategy(self, key: Seq<char>) -> Option<Option<Seq<char>>> {
        match self.member(key) {
            Some(entry) => Some(entry.text()),
            None => None,
        }
    }
}

/// What a `toml::Value` holds.
pub uninterp spec fn toml_value(value: toml::Value) -> Toml;

/// What the document holds that the `FromStr` of `toml::Value` reads from a
/// text; nothing where it reports an error.
pub uninterp spec fn toml_read(text: Seq<char>) -> Option<Toml>;

/// `str::parse` to a `toml::Value`: the text read as a TOML document. What
/// the document holds depends on the text alone.
#[verifier::external_body]
fn parse_document(text: &str) -> (document: Option<toml::Value>)
    ensures
        match document {
            Some(read) => toml_read(text@) == Some(toml_value(read)),
            None => toml_read(text@) is None,
        },
{
    match text.parse::<toml::Value>() {
        Ok(document) => Some(document),
        Err(_) => None,
    }
}

/// `toml::Value::get` with a string key: the entry under the key if the
/// value is a table and has the key, and nothing otherwise.
#[verifier::external_body]
fn member<'a>(value: &'a toml::Value, key: &str) -> (found: Option<&'a toml::Value>)
    ensures
        match found {
            Some(entry) => toml_value(*value).member(key@) == Some(toml_value(*entry)),
            None => toml_value(*value).member(key@) is None,
        },
{
    value.get(key)
}

/// `toml::Value::as_str`: the text if the value is a string.
#[verifier::external_body]
fn text_of(value: &toml::Value) -> (text: Option<&str>)
    ensures
        match text {
            Some(t) => toml_value(*value).text() == Some(t@),
            None => toml_value(*value).text() is None,
        },
{
    value.as_str()
}

/// `toml::Value::as_bool`: the truth value if the value is one.
#[verifier::external_body]
fn flag_of(value: &toml::Value) -> (flag: Option<bool>)
    ensures
        flag == toml_value(*value).flag(),
{
    value.as_bool()
}

/// What a document says on the settings of a run.
pub open spec fn document_settings(document: Toml) -> SettingsView {
    SettingsView {
        error_strategy: document.strategy("error_strategy"@),
        overwrite_strategy: document.strategy("overwrite_strategy"@),
        incremental_directory: document.section_text("incremental"@, "download_directory"@),
        transfer_order_directory: document.section_text("transfer_order"@, "download_directory"@),
        power_off: match document.member("power_off"@) {
            Some(entry) => entry.flag(),
            None => None,
        },
        wifi_interface: document.section_text("wifi"@, "interface"@),
        wifi_ssid: document.section_text("wifi"@, "ssid"@),
    }
}

fn read_text(table: &toml::Value, key: &str) -> (text: Option<String>)
    ensures
        text_view(text) == toml_value(*table).member_text(key@),
{
    match member(table, key) {
        Some(entry) => match text_of(entry) {
            Some(t) => Some(String::from_str(t)),
            None => None,
        },
        None => None,
    }
}

fn read_section_text(document: &toml::Value, section: &str, key: &str) -> (text: Option<String>)
    ensures
        text_view(text) == toml_value(*document).section_text(section@, key@),
{
    match member(document, section) {
        Some(table) => read_text(table, key),
        None => None,
    }
}

fn read_strategy(document: &toml::Value, key: &str) -> (setting: Option<Option<String>>)
    ensures
        setting_view(setting) == toml_value(*document).strategy(key@),
{
    match member(document, key) {
        Some(entry) => match text_of(entry) {
            Some(t) => Some(Some(String::from_str(t))),
            None => Some(None),
        },
        None => None,
    }
}

impl Settings {
    /// Looks up in a document what it says on each setting.
    pub(crate) fn read(document: &toml::Value) -> (settings: Settings)
        ensures
            settings@ == document_settings(toml_value(*document)),
    {
        Settings {
            error_strategy: read_strategy(document, "error_strategy"),
            overwrite_strategy: read_strategy(document, "overwrite_strategy"),
            incremental_directory: read_section_text(document, "incremental", "download_directory"),
            transfer_order_directory: read_section_text(
                document,
                "transfer_order",
                "download_directory",
            ),
            power_off: match member(document, "power_off") {
                Some(entry) => flag_of(entry),
                None => None,
            },
            wifi_interface: read_section_text(document, "wifi", "interface"),
            wifi_ssid: read_section_text(document, "wifi", "ssid"),
        }
    }
}

impl Config {
    /// The configuration that the settings stand for, or the first fault in them.
    pub fn from_settings(settings: Settings) -> (made: Result<Config, ConfigError>)
        ensures
            match settings_fault(settings@) {
                Some(fault) => made == Err::<Config, ConfigError>(fault),
                None => made matches Ok(config) && config@ == settings_config(settings@),
            },
    {
        let error_strategy = match &settings.error_strategy {
            None => {
                return Err(ConfigError::ErrorStrategyMissing);
            },
            Some(None) => {
                return Err(ConfigError::ErrorStrategyInvalid);
            },
            Some(Some(text)) => match ErrorStrategy::from_str(text.as_str()) {
                Some(strategy) => strategy,
                None => {
                    return Err(ConfigError::ErrorStrategyInvalid);
                },
            },
        };
        let overwrite_strategy = match &settings.overwrite_strategy {
            None => {
                return Err(ConfigError::OverwriteStrategyMissing);
            },
            Some(None) => {
                return Err(ConfigError::OverwriteStrategyInvalid);
            },
            Some(Some(text)) => match OverwriteStrategy::from_str(text.as_str()) {
                Some(strategy) => strategy,
                None => {
                    return Err(ConfigError::OverwriteStrategyInvalid);
                },
            },
        };
        let power_off = match settings.power_off {
            Some(flag) => flag,
            None => {
                return Err(ConfigError::PowerOffMissing);
            },
        };
        let wifi = match (settings.wifi_interface, settings.wifi_ssid) {
            (Some(interface), Some(ssid)) => Some(WifiConfig { interface, ssid }),
            _ => None,
        };
        Ok(
            Config {
                download_dir: settings.incremental_directory,
                transfer_order_dir: settings.transfer_order_directory,
                error_strategy,
                overwrite_strategy,
                power_off,
                wifi,
            },
        )
    }

    /// The configuration that the text of a configuration file stands for.
    /// The text is a TOML document; its settings are looked up and judged
    /// as `from_settings` says.
    pub fn from_file(contents: &str) -> (made: Result<Config, ConfigError>)
        ensures
            match toml_read(contents@) {
                None => made == Err::<Config, ConfigError>(ConfigError::NotToml),
                Some(document) => match settings_fault(document_settings(document)) {
                    Some(fault) => made == Err::<Config, ConfigError>(fault),
                    None => made matches Ok(config) && config@ == settings_config(
                        document_settings(document),
                    ),
                },
            },
    {
        match parse_document(contents) {
            None => Err(ConfigError::NotToml),
            Some(document) => Config::from_settings(Settings::read(&document)),
        }
    }

    /// The text of a configuration file to start from.
    pub fn template() -> (text: &'static str)
        ensures
            text@ == CONFIG_TEMPLATE@,
    {
        CONFIG_TEMPLATE
    }
}

} // verus!
