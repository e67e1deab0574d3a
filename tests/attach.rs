use cpu_optimizer::bootstrap::{
    is_process_attach, plan_attach, priority_to_apply, settings_summary, AttachPlan,
};
use cpu_optimizer::config::ConfigSource;
use cpu_optimizer::diagnostics::{decimal_text, Diagnostic, LocationFailure};
use cpu_optimizer::location::{config_path_for, config_path_from_module};
use cpu_optimizer::logger::{report_debug, report_error, DialogIcon};
use cpu_optimizer::types::{ModSettings, PriorityClass};

const BUFFER: usize = 2048;

fn image_buffer(path: &str) -> (Vec<u16>, u32) {
    let mut units = vec![0u16; BUFFER];
    let encoded: Vec<u16> = path.encode_utf16().collect();
    units[..encoded.len()].copy_from_slice(&encoded);
    (units, encoded.len() as u32)
}

fn attach(path: &str, config: Option<&str>) -> AttachPlan {
    let (units, len) = image_buffer(path);
    let location = config_path_from_module(&units, len);
    let source = match config {
        Some(text) => ConfigSource::Text(text.to_string()),
        None => ConfigSource::Absent,
    };
    plan_attach(&location, &source)
}

#[test]
fn only_process_attach_acts() {
    assert!(is_process_attach(1));
    for reason in [0, 2, 3, -1, 100] {
        assert!(!is_process_attach(reason));
    }
}

#[test]
fn config_path_replaces_the_extension() {
    assert_eq!(config_path_for("C:\\app\\plugin.dll").unwrap(), "C:\\app\\plugin.ini");
    assert_eq!(config_path_for("C:\\app\\plugin.v2.dll").unwrap(), "C:\\app\\plugin.v2.ini");
    assert_eq!(config_path_for("/opt/app/plugin.so").unwrap(), "/opt/app/plugin.ini");
}

#[test]
fn file_name_without_dot_has_no_config() {
    assert_eq!(config_path_for("C:\\app\\plugin"), None);
    assert_eq!(config_path_for("C:\\my.app\\plugin"), None);
    assert_eq!(config_path_for(""), None);
}

#[test]
fn location_from_buffer() {
    let (units, len) = image_buffer("C:\\app\\plugin.dll");
    assert_eq!(config_path_from_module(&units, len).unwrap(), "C:\\app\\plugin.ini");
    let (units, len) = image_buffer("C:\\app\\plugin");
    assert_eq!(config_path_from_module(&units, len), Err(LocationFailure::NoExtension));
}

#[test]
fn empty_length_is_a_location_failure() {
    let units = vec![0u16; BUFFER];
    assert_eq!(config_path_from_module(&units, 0), Err(LocationFailure::EmptyPath));
}

#[test]
fn length_at_buffer_size_is_a_location_failure() {
    let units = vec![b'a' as u16; BUFFER];
    assert_eq!(config_path_from_module(&units, BUFFER as u32), Err(LocationFailure::Truncated));
    assert_eq!(config_path_from_module(&units, BUFFER as u32 + 1), Err(LocationFailure::Truncated));
    let mut units = vec![b'a' as u16; BUFFER];
    units[BUFFER - 5] = b'.' as u16;
    assert!(config_path_from_module(&units, BUFFER as u32 - 1).is_ok());
}

#[test]
fn lone_surrogate_is_a_location_failure() {
    let mut units = vec![0u16; BUFFER];
    let encoded: Vec<u16> = "C:\\a.dll".encode_utf16().collect();
    units[..encoded.len()].copy_from_slice(&encoded);
    units[3] = 0xD800;
    assert_eq!(
        config_path_from_module(&units, encoded.len() as u32),
        Err(LocationFailure::NotUtf16)
    );
}

#[test]
fn non_ascii_path_is_decoded() {
    let (units, len) = image_buffer("C:\\jeux\\éè\\mod.dll");
    assert_eq!(config_path_from_module(&units, len).unwrap(), "C:\\jeux\\éè\\mod.ini");
}

#[test]
fn location_failure_uses_defaults_and_reports() {
    let plan = plan_attach(&Err(LocationFailure::EmptyPath), &ConfigSource::Absent);
    assert_eq!(plan.settings, ModSettings { enabled: true, priority: Some(PriorityClass::High) });
    assert_eq!(plan.apply, Some(PriorityClass::High));
    assert_eq!(plan.diagnostics.len(), 1);
    assert!(matches!(plan.diagnostics[0], Diagnostic::Location(LocationFailure::EmptyPath)));
}

#[test]
fn disabled_settings_apply_nothing() {
    for priority in [None, Some(PriorityClass::Idle), Some(PriorityClass::Realtime)] {
        assert_eq!(priority_to_apply(&ModSettings { enabled: false, priority }), None);
    }
    assert_eq!(
        priority_to_apply(&ModSettings { enabled: true, priority: Some(PriorityClass::Normal) }),
        Some(PriorityClass::Normal)
    );
}

#[test]
fn scenario_config_absent() {
    let plan = attach("C:\\app\\plugin.dll", None);
    assert!(plan.diagnostics.is_empty());
    assert_eq!(plan.apply, Some(PriorityClass::High));
}

#[test]
fn scenario_full_config() {
    let plan = attach("C:\\app\\plugin.dll", Some("[CpuOptmizerMod]\nenabled=true\npriority=realtime"));
    assert!(plan.diagnostics.is_empty());
    assert_eq!(plan.apply, Some(PriorityClass::Realtime));
}

#[test]
fn scenario_disabled() {
    let plan = attach("C:\\app\\plugin.dll", Some("[CpuOptmizerMod]\nenabled=false\npriority=idle"));
    assert!(plan.diagnostics.is_empty());
    assert!(!plan.settings.enabled);
    assert_eq!(plan.apply, None);
}

#[test]
fn scenario_integer_form() {
    let plan = attach("C:\\app\\plugin.dll", Some("[CpuOptmizerMod]\npriority=2"));
    assert!(plan.diagnostics.is_empty());
    assert_eq!(plan.apply, Some(PriorityClass::Normal));
}

#[test]
fn scenario_invalid_value() {
    let plan = attach("C:\\app\\plugin.dll", Some("[CpuOptmizerMod]\npriority=turbo"));
    assert_eq!(plan.diagnostics.len(), 1);
    let text = plan.diagnostics[0].message();
    assert!(text.contains("priority"));
    assert!(text.contains("turbo"));
    assert_eq!(plan.apply, Some(PriorityClass::High));
}

#[test]
fn scenario_unparseable_file() {
    let plan = attach("C:\\app\\plugin.dll", Some("[CpuOptmizerMod\npriority=idle\n"));
    assert_eq!(plan.diagnostics.len(), 1);
    assert_eq!(plan.diagnostics[0].message(), "Unable to parse ini file: C:\\app\\plugin.ini");
    assert_eq!(plan.settings, ModSettings { enabled: true, priority: Some(PriorityClass::High) });
    assert_eq!(plan.apply, Some(PriorityClass::High));
}

#[test]
fn attaching_twice_applies_the_same_class() {
    let config = Some("[CpuOptmizerMod]\npriority=above normal");
    let first = attach("C:\\app\\plugin.dll", config);
    let second = attach("C:\\app\\plugin.dll", config);
    assert_eq!(first.apply, Some(PriorityClass::AboveNormal));
    assert_eq!(first.apply, second.apply);
}

#[test]
fn decimal_spelling_of_flags() {
    assert_eq!(decimal_text(0), "0");
    assert_eq!(decimal_text(128), "128");
    assert_eq!(decimal_text(16384), "16384");
    assert_eq!(decimal_text(4294967295), "4294967295");
}

#[test]
fn diagnostic_messages() {
    let d = Diagnostic::ApplyFailure { flag: PriorityClass::Realtime.flag() };
    assert_eq!(d.message(), "Unable to set priority class to 256.");
    let d = Diagnostic::InvalidValue { key: "enabled".to_string(), raw: "maybe".to_string() };
    assert_eq!(d.message(), "Found key \"enabled\", but unable to parse \"maybe\" as a valid value.");
    let d = Diagnostic::Location(LocationFailure::NoExtension);
    assert_eq!(d.message(), "Unable to locate the ini file: the library file name has no extension.");
}

#[test]
fn dialogs_have_their_titles() {
    let e = report_error("boom");
    assert_eq!(e.title, "Cpu Optimizer Error");
    assert_eq!(e.text, "boom");
    assert_eq!(e.icon, DialogIcon::Error);
    let d = report_debug("hello");
    assert_eq!(d.title, "Cpu Optimizer Debug");
    assert_eq!(d.text, "hello");
    assert_eq!(d.icon, DialogIcon::Info);
}

#[test]
fn summary_of_settings() {
    let s = ModSettings { enabled: true, priority: Some(PriorityClass::High) };
    assert_eq!(settings_summary(&s), "Enabled:true\nPRIORITY:High");
    let s = ModSettings { enabled: false, priority: None };
    assert_eq!(settings_summary(&s), "Enabled:false\nPRIORITY:unset");
}
