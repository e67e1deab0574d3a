use vstd::prelude::*;
use vstd::string::*;
use crate::config::{ConfigSource, load_report, load_settings};
use crate::diagnostics::{Diagnostic, Issue, LocationFailure, issues_of};
use crate::types::{ModSettings, PriorityClass, default_settings};

verus! {

/// The reason code with which the loader announces that the library was attached.
pub const PROCESS_ATTACH: i32 = 1;

/// Whether the entry point acts on this reason code; on every other code it returns
/// success and does nothing.
pub fn is_process_attach(reason: i32) -> (r: bool)
    ensures
        r == (reason == PROCESS_ATTACH),
{
    reason == PROCESS_ATTACH
}

/// The class to apply: none when the settings are disabled or leave it unset.
pub open spec fn class_to_apply(s: ModSettings) -> Option<PriorityClass> {
    if s.enabled {
        s.priority
    } else {
        None
    }
}

pub fn priority_to_apply(settings: &ModSettings) -> (r: Option<PriorityClass>)
    ensures
        r == class_to_apply(*settings),
        !settings.enabled ==> r is None,
{
    if settings.enabled {
        settings.priority
    } else {
        None
    }
}

/// Everything the attach step decides: the settings in force, the problems to report,
/// and the class to hand to the operating system.
pub struct AttachPlan {
    pub settings: ModSettings,
    pub diagnostics: Vec<Diagnostic>,
    pub apply: Option<PriorityClass>,
}

pub open spec fn plan_of(
    location: Result<Seq<char>, LocationFailure>,
    source: ConfigSource,
) -> (ModSettings, Seq<Issue>, Option<PriorityClass>) {
    match location {
        Err(f) => (default_settings(), seq![Issue::Location(f)], class_to_apply(default_settings())),
        Ok(path) => {
            let (settings, issues) = load_report(path, source);
            (settings, issues, class_to_apply(settings))
        },
    }
}

pub open spec fn location_view(l: Result<String, LocationFailure>) -> Result<Seq<char>, LocationFailure> {
    match l {
        Ok(p) => Ok(p@),
        Err(f) => Err(f),
    }
}

impl View for AttachPlan {
    type V = (ModSettings, Seq<Issue>, Option<PriorityClass>);

    open spec fn view(&self) -> (ModSettings, Seq<Issue>, Option<PriorityClass>) {
        (self.settings, issues_of(self.diagnostics@), self.apply)
    }
}

/// Decides the attach step from where the configuration was looked for and what was
/// found there. `source` is ignored when the location failed.
pub fn plan_attach(location: &Result<String, LocationFailure>, source: &ConfigSource) -> (r: AttachPlan)
    ensures
        r@ == plan_of(location_view(*location), *source),
        !r.settings.enabled ==> r.apply is None,
{
    match location {
        Err(f) => {
            let settings = ModSettings::defaults();
            let mut diagnostics: Vec<Diagnostic> = Vec::new();
            diagnostics.push(Diagnostic::Location(*f));
            assert(issues_of(diagnostics@) =~= seq![Issue::Location(*f)]);
            let apply = priority_to_apply(&settings);
            AttachPlan { settings, diagnostics, apply }
        },
        Ok(path) => {
            let report = load_settings(path.as_str(), source);
            let apply = priority_to_apply(&report.settings);
            AttachPlan { settings: report.settings, diagnostics: report.diagnostics, apply }
        },
    }
}

/// The class applied at attach depends on nothing but where the configuration was
/// looked for and what was found there, not on the priority the process had before:
/// attaching twice with the same enabled configuration applies its class both times.
pub proof fn lemma_attach_applies_configured_class(
    location: Result<Seq<char>, LocationFailure>,
    source: ConfigSource,
    first: AttachPlan,
    second: AttachPlan,
)
    requires
        first@ == plan_of(location, source),
        second@ == plan_of(location, source),
        first.settings.enabled,
    ensures
        first.apply == second.apply,
        second.apply == second.settings.priority,
{
}

/// The text summarising the settings in force, for the debug dialog.
pub open spec fn summary_of(s: ModSettings) -> Seq<char> {
    "Enabled:"@ + (if s.enabled {
        "true"@
    } else {
        "false"@
    }) + "\nPRIORITY:"@ + match s.priority {
        Some(p) => class_name(p),
        None => "unset"@,
    }
}

pub open spec fn class_name(p: PriorityClass) -> Seq<char> {
    match p {
        PriorityClass::Idle => "Idle"@,
        PriorityClass::BelowNormal => "BelowNormal"@,
        PriorityClass::Normal => "Normal"@,
        PriorityClass::AboveNormal => "AboveNormal"@,
        PriorityClass::High => "High"@,
        PriorityClass::Realtime => "Realtime"@,
    }
}

fn class_name_str(p: PriorityClass) -> (r: &'static str)
    ensures
        r@ == class_name(p),
{
    match p {
        PriorityClass::Idle => "Idle",
        PriorityClass::BelowNormal => "BelowNormal",
        PriorityClass::Normal => "Normal",
        PriorityClass::AboveNormal => "AboveNormal",
        PriorityClass::High => "High",
        PriorityClass::Realtime => "Realtime",
    }
}

pub fn settings_summary(settings: &ModSettings) -> (r: String)
    ensures
        r@ == summary_of(*settings),
{
    let mut r = String::from_str("Enabled:");
    if settings.enabled {
        r.append("true");
    } else {
        r.append("false");
    }
    r.append("\nPRIORITY:");
    match settings.priority {
        Some(p) => r.append(class_name_str(p)),
        None => r.append("unset"),
    }
    r
}

} // verus!
