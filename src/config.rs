use vstd::prelude::*;
use vstd::string::*;
use crate::diagnostics::{Diagnostic, Issue, issues_of};
use crate::priority::{class_of_value, folds_to, folds_to_name, parse_priority_class};
use crate::types::{ModSettings, default_settings};

verus! {

#[verifier::external_type_specification]
#[verifier::external_body]
pub struct ExIni(ini::Ini);

#[verifier::external_type_specification]
#[verifier::external_body]
pub struct ExParseError(ini::ParseError);

/// For each section name and key, the value an INI document holds there: the
/// first value of the key in the first section of that name.
pub uninterp spec fn ini_entries(i: ini::Ini) -> Map<(Seq<char>, Seq<char>), Seq<char>>;

/// The entries of an INI text, or `None` when it is not well-formed INI.
pub uninterp spec fn ini_document(text: Seq<char>) -> Option<Map<(Seq<char>, Seq<char>), Seq<char>>>;

/// Relies on `ini::Ini::load_from_str`: the outcome depends on the text alone.
#[verifier::external_body]
fn load_ini(text: &str) -> (r: Result<ini::Ini, ini::ParseError>)
    ensures
        r is Ok <==> ini_document(text@) is Some,
        r is Ok ==> ini_document(text@) == Some(ini_entries(r->Ok_0)),
{
    ini::Ini::load_from_str(text)
}

/// Relies on `ini::Ini::get_from`: the first value of `key` in the first section
/// named `section`, if there is one.
#[verifier::external_body]
fn ini_value<'a>(doc: &'a ini::Ini, section: &str, key: &str) -> (r: Option<&'a str>)
    ensures
        match r {
            Some(v) => ini_entries(*doc).contains_key((section@, key@)) && ini_entries(
                *doc,
            )[(section@, key@)] == v@,
            None => !ini_entries(*doc).contains_key((section@, key@)),
        },
{
    doc.get_from(Some(section), key)
}

/// The section of the configuration file that holds the settings.
pub open spec fn config_section() -> Seq<char> {
    "CpuOptmizerMod"@
}

/// A boolean written `true` or `false`, in any ASCII case.
pub open spec fn bool_of_value(raw: Seq<char>) -> Option<bool> {
    if folds_to(raw, "true"@) {
        Some(true)
    } else if folds_to(raw, "false"@) {
        Some(false)
    } else {
        None
    }
}

pub open spec fn opt_view(o: Option<&str>) -> Option<Seq<char>> {
    match o {
        Some(s) => Some(s@),
        None => None,
    }
}

/// The settings that the raw values of the two keys give; absent or invalid values
/// leave the default.
pub open spec fn settings_of(enabled: Option<Seq<char>>, priority: Option<Seq<char>>) -> ModSettings {
    ModSettings {
        enabled: match enabled {
            Some(raw) => match bool_of_value(raw) {
                Some(b) => b,
                None => default_settings().enabled,
            },
            None => default_settings().enabled,
        },
        priority: match priority {
            Some(raw) => match class_of_value(raw) {
                Some(p) => Some(p),
                None => default_settings().priority,
            },
            None => default_settings().priority,
        },
    }
}

/// One issue for each key that is present with a value outside its domain.
pub open spec fn value_issues(enabled: Option<Seq<char>>, priority: Option<Seq<char>>) -> Seq<Issue> {
    let e = match enabled {
        Some(raw) => if bool_of_value(raw) is None {
            seq![Issue::InvalidValue("enabled"@, raw)]
        } else {
            Seq::empty()
        },
        None => Seq::empty(),
    };
    let p = match priority {
        Some(raw) => if class_of_value(raw) is None {
            seq![Issue::InvalidValue("priority"@, raw)]
        } else {
            Seq::empty()
        },
        None => Seq::empty(),
    };
    e + p
}

pub open spec fn entry(m: Map<(Seq<char>, Seq<char>), Seq<char>>, key: Seq<char>) -> Option<Seq<char>> {
    if m.contains_key((config_section(), key)) {
        Some(m[(config_section(), key)])
    } else {
        None
    }
}

/// The settings and issues of a parsed document's entries.
pub open spec fn report_of_entries(m: Map<(Seq<char>, Seq<char>), Seq<char>>) -> (ModSettings, Seq<Issue>) {
    let e = entry(m, "enabled"@);
    let p = entry(m, "priority"@);
    (settings_of(e, p), value_issues(e, p))
}

/// Where the configuration text comes from.
pub enum ConfigSource {
    /// No file at the configuration path.
    Absent,
    /// A file is there but could not be read as text.
    Unreadable,
    /// The text of the file.
    Text(String),
}

/// The report for a configuration path and what was found there.
pub open spec fn load_report(path: Seq<char>, source: ConfigSource) -> (ModSettings, Seq<Issue>) {
    match source {
        ConfigSource::Absent => (default_settings(), Seq::empty()),
        ConfigSource::Unreadable => (default_settings(), seq![Issue::UnparsableConfig(path)]),
        ConfigSource::Text(t) => match ini_document(t@) {
            None => (default_settings(), seq![Issue::UnparsableConfig(path)]),
            Some(m) => report_of_entries(m),
        },
    }
}

/// The outcome of reading the configuration: the settings, and what to report.
pub struct ConfigReport {
    pub settings: ModSettings,
    pub diagnostics: Vec<Diagnostic>,
}

impl View for ConfigReport {
    type V = (ModSettings, Seq<Issue>);

    open spec fn view(&self) -> (ModSettings, Seq<Issue>) {
        (self.settings, issues_of(self.diagnostics@))
    }
}

/// Reads a boolean value: `true` or `false` in any ASCII case.
pub fn parse_enabled(raw: &str) -> (r: Option<bool>)
    ensures
        r == bool_of_value(raw@),
{
    if folds_to_name(raw, "true") {
        Some(true)
    } else if folds_to_name(raw, "false") {
        Some(false)
    } else {
        None
    }
}

/// Settings from the raw values of `enabled` and `priority`, each possibly absent.
pub fn settings_from_values(enabled: Option<&str>, priority: Option<&str>) -> (r: ConfigReport)
    ensures
        r@ == (settings_of(opt_view(enabled), opt_view(priority)), value_issues(
            opt_view(enabled),
            opt_view(priority),
        )),
{
    let mut settings = ModSettings::defaults();
    let mut diagnostics: Vec<Diagnostic> = Vec::new();
    if let Some(raw) = enabled {
        match parse_enabled(raw) {
            Some(b) => {
                settings.enabled = b;
            },
            None => {
                diagnostics.push(
                    Diagnostic::InvalidValue {
                        key: String::from_str("enabled"),
                        raw: String::from_str(raw),
                    },
                );
            },
        }
    }
    if let Some(raw) = priority {
        match parse_priority_class(Some(raw)) {
            Some(p) => {
                settings.priority = Some(p);
            },
            None => {
                diagnostics.push(
                    Diagnostic::InvalidValue {
                        key: String::from_str("priority"),
                        raw: String::from_str(raw),
                    },
                );
            },
        }
    }
    assert(issues_of(diagnostics@) =~= value_issues(opt_view(enabled), opt_view(priority)));
    ConfigReport { settings, diagnostics }
}

/// Settings from the `CpuOptmizerMod` section of a parsed document.
pub fn settings_from_ini(doc: &ini::Ini) -> (r: ConfigReport)
    ensures
        r@ == report_of_entries(ini_entries(*doc)),
{
    let enabled = ini_value(doc, "CpuOptmizerMod", "enabled");
    let priority = ini_value(doc, "CpuOptmizerMod", "priority");
    settings_from_values(enabled, priority)
}

/// Settings from the configuration file at `path`; never fails, and falls back to
/// the defaults for whatever is missing or invalid.
pub fn load_settings(path: &str, source: &ConfigSource) -> (r: ConfigReport)
    ensures
        r@ == load_report(path@, *source),
{
    match source {
        ConfigSource::Absent => ConfigReport { settings: ModSettings::defaults(), diagnostics: Vec::new() },
        ConfigSource::Unreadable => {
            let mut diagnostics: Vec<Diagnostic> = Vec::new();
            diagnostics.push(Diagnostic::UnparsableConfig { path: String::from_str(path) });
            assert(issues_of(diagnostics@) =~= seq![Issue::UnparsableConfig(path@)]);
            ConfigReport { settings: ModSettings::defaults(), diagnostics }
        },
        ConfigSource::Text(text) => match load_ini(text.as_str()) {
            Ok(doc) => settings_from_ini(&doc),
            Err(_) => {
                let mut diagnostics: Vec<Diagnostic> = Vec::new();
                diagnostics.push(Diagnostic::UnparsableConfig { path: String::from_str(path) });
                assert(issues_of(diagnostics@) =~= seq![Issue::UnparsableConfig(path@)]);
                ConfigReport { settings: ModSettings::defaults(), diagnostics }
            },
        },
    }
}

/// Neither key holds a value that is both present and valid.
pub open spec fn nothing_valid(enabled: Option<Seq<char>>, priority: Option<Seq<char>>) -> bool {
    &&& (enabled is None || bool_of_value(enabled->0) is None)
    &&& (priority is None || class_of_value(priority->0) is None)
}

/// A missing, unreadable or unparsable configuration file, or one in which neither
/// key is present with a valid value, gives the default settings.
pub proof fn lemma_no_valid_config_gives_defaults(path: Seq<char>, source: ConfigSource)
    requires
        match source {
            ConfigSource::Text(t) => match ini_document(t@) {
                None => true,
                Some(m) => nothing_valid(entry(m, "enabled"@), entry(m, "priority"@)),
            },
            _ => true,
        },
    ensures
        load_report(path, source).0 == default_settings(),
{
}

} // verus!
