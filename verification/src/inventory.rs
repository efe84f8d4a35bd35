use vstd::prelude::*;
use vstd::arithmetic::div_mod::{
    lemma_div_is_ordered, lemma_fundamental_div_mod, lemma_fundamental_div_mod_converse_div,
};
use vstd::string::StringExecFns;

verus! {

/// Best-effort hardware and OS inventory, one row per displayed value.
/// Every textual field falls back to the `"Unknown"` sentinel when the
/// underlying platform query is unavailable or yields nothing usable.
#[derive(Clone, Debug)]
pub struct SystemSpecs {
    pub cpu_model: String,
    pub total_memory_gb: u64,
    pub gpu_model: String,
    pub disk_type: String,
    pub os_version: String,
    pub monitor_info: String,
    pub network_type: String,
    pub device_type: String,
}

/// Sentinel for a value no platform query could provide.
pub open spec fn unknown_text() -> Seq<char> {
    "Unknown"@
}

/// The string field named `key` of the JSON document `text`, if `text`
/// parses as JSON and carries a string under that key; a function of the
/// two arguments alone.
pub uninterp spec fn json_str_field(text: Seq<char>, key: Seq<char>) -> Option<Seq<char>>;

/// `text` without its leading and trailing whitespace; a function of the
/// characters alone.
pub uninterp spec fn trimmed(text: Seq<char>) -> Seq<char>;

/// Relies on serde_json::from_str together with serde_json::Value::get and
/// serde_json::Value::as_str: extracts the string field named `key` from
/// the JSON document `text`, and nothing is the answer for a document that
/// does not parse, a missing key, or a non-string field.
#[verifier::external_body]
fn json_string_field(text: &str, key: &str) -> (r: Option<String>)
    ensures
        r.deep_view() == json_str_field(text@, key@),
{
    match serde_json::from_str::<serde_json::Value>(text) {
        Ok(doc) => match doc.get(key) {
            Some(field) => field.as_str().map(|s| s.to_string()),
            None => None,
        },
        Err(_) => None,
    }
}

/// Relies on str::trim: the input without leading and trailing whitespace.
#[verifier::external_body]
fn trim_text(text: &str) -> (r: String)
    ensures
        r@ == trimmed(text@),
{
    text.trim().to_string()
}

/// A raw query result, or the sentinel where the query gave nothing.
pub open spec fn spec_value_or_unknown(raw: Option<Seq<char>>) -> Seq<char> {
    match raw {
        Option::Some(v) => v,
        Option::None => unknown_text(),
    }
}

fn value_or_unknown(raw: Option<String>) -> (r: String)
    ensures
        r@ == spec_value_or_unknown(raw.deep_view()),
{
    match raw {
        Option::Some(v) => v,
        Option::None => "Unknown".to_owned(),
    }
}

/// An extracted field after cleaning: trimmed, and replaced by the
/// sentinel when it was missing or trims away to nothing.
pub open spec fn spec_clean_field(raw: Option<Seq<char>>) -> Seq<char> {
    match raw {
        Option::Some(v) => if trimmed(v).len() == 0 {
            unknown_text()
        } else {
            trimmed(v)
        },
        Option::None => unknown_text(),
    }
}

fn clean_field(raw: Option<String>) -> (r: String)
    ensures
        r@ == spec_clean_field(raw.deep_view()),
{
    match raw {
        Option::Some(v) => {
            let t = trim_text(v.as_str());
            if t.as_str().is_empty() {
                "Unknown".to_owned()
            } else {
                t
            }
        },
        Option::None => "Unknown".to_owned(),
    }
}

/// The monitor description after cleaning: a usable value is additionally
/// marked as the active mode; a missing, empty or unknown one stays the
/// bare sentinel.
pub open spec fn spec_monitor_field(raw: Option<Seq<char>>) -> Seq<char> {
    match raw {
        Option::Some(v) => if trimmed(v).len() == 0 || trimmed(v) == unknown_text() {
            unknown_text()
        } else {
            trimmed(v) + " (Aktif)"@
        },
        Option::None => unknown_text(),
    }
}

fn monitor_field(raw: Option<String>) -> (r: String)
    ensures
        r@ == spec_monitor_field(raw.deep_view()),
{
    match raw {
        Option::Some(v) => {
            let t = trim_text(v.as_str());
            let unknown: String = "Unknown".to_owned();
            if t.as_str().is_empty() || t == unknown {
                unknown
            } else {
                let mut r = t;
                r.append(" (Aktif)");
                r
            }
        },
        Option::None => "Unknown".to_owned(),
    }
}

/// Bytes rounded to the nearest whole gibibyte (half rounds up).
pub open spec fn spec_round_gib(bytes: int) -> int {
    (bytes + 0x2000_0000) / 0x4000_0000
}

/// Rounds a byte count to whole gibibytes, to the nearest (half up).
pub fn bytes_to_gib_rounded(bytes: u64) -> (g: u64)
    ensures
        g as int == spec_round_gib(bytes as int),
{
    let whole = bytes / 0x4000_0000;
    let rem = bytes % 0x4000_0000;
    proof {
        lemma_fundamental_div_mod(bytes as int, 0x4000_0000);
        lemma_div_is_ordered(bytes as int, u64::MAX as int, 0x4000_0000);
        if rem >= 0x2000_0000 {
            lemma_fundamental_div_mod_converse_div(
                bytes as int + 0x2000_0000,
                0x4000_0000,
                whole as int + 1,
                rem as int - 0x2000_0000,
            );
        } else {
            lemma_fundamental_div_mod_converse_div(
                bytes as int + 0x2000_0000,
                0x4000_0000,
                whole as int,
                rem as int + 0x2000_0000,
            );
        }
    }
    if rem >= 0x2000_0000 {
        whole + 1
    } else {
        whole
    }
}

/// The cleaned value of the field named `key`, taken from the auxiliary
/// JSON inventory document where one was obtained.
pub open spec fn spec_extra_field(extra: Option<Seq<char>>, key: Seq<char>) -> Seq<char> {
    match extra {
        Option::Some(doc) => spec_clean_field(json_str_field(doc, key)),
        Option::None => unknown_text(),
    }
}

/// The cleaned monitor field of the auxiliary JSON inventory document.
pub open spec fn spec_extra_monitor(extra: Option<Seq<char>>) -> Seq<char> {
    match extra {
        Option::Some(doc) => spec_monitor_field(json_str_field(doc, "monitor"@)),
        Option::None => unknown_text(),
    }
}

/// Assembles the inventory from raw query results: the CPU brand, memory
/// size and OS version as the platform reported them (or nothing), and the
/// auxiliary JSON document with the remaining fields, where one was
/// obtained. Each field is cleaned and falls back to the sentinel exactly
/// as the field specs state.
pub fn build_specs(
    cpu_brand: Option<String>,
    memory_bytes: u64,
    os_version: Option<String>,
    extra: Option<String>,
) -> (s: SystemSpecs)
    ensures
        s.cpu_model@ == spec_value_or_unknown(cpu_brand.deep_view()),
        s.total_memory_gb as int == spec_round_gib(memory_bytes as int),
        s.os_version@ == spec_value_or_unknown(os_version.deep_view()),
        s.gpu_model@ == spec_extra_field(extra.deep_view(), "gpu"@),
        s.disk_type@ == spec_extra_field(extra.deep_view(), "disk"@),
        s.network_type@ == spec_extra_field(extra.deep_view(), "net"@),
        s.device_type@ == spec_extra_field(extra.deep_view(), "dev"@),
        s.monitor_info@ == spec_extra_monitor(extra.deep_view()),
{
    let (gpu_model, disk_type, network_type, device_type, monitor_info) = match &extra {
        Option::Some(doc) => (
            clean_field(json_string_field(doc.as_str(), "gpu")),
            clean_field(json_string_field(doc.as_str(), "disk")),
            clean_field(json_string_field(doc.as_str(), "net")),
            clean_field(json_string_field(doc.as_str(), "dev")),
            monitor_field(json_string_field(doc.as_str(), "monitor")),
        ),
        Option::None => (
            "Unknown".to_owned(),
            "Unknown".to_owned(),
            "Unknown".to_owned(),
            "Unknown".to_owned(),
            "Unknown".to_owned(),
        ),
    };
    SystemSpecs {
        cpu_model: value_or_unknown(cpu_brand),
        total_memory_gb: bytes_to_gib_rounded(memory_bytes),
        gpu_model,
        disk_type,
        os_version: value_or_unknown(os_version),
        monitor_info,
        network_type,
        device_type,
    }
}

/// Relies on sysinfo::System::{new, refresh_cpu_list} with
/// sysinfo::CpuRefreshKind::everything, sysinfo::System::cpus and
/// sysinfo::Cpu::brand: the brand string of the first processor, or
/// nothing where the platform reports no processor. The result depends on
/// the machine, so nothing further is promised.
#[verifier::external_body]
fn probe_cpu_brand() -> (r: Option<String>) {
    let mut sys = sysinfo::System::new();
    sys.refresh_cpu_list(sysinfo::CpuRefreshKind::everything());
    sys.cpus().first().map(|cpu| cpu.brand().to_string())
}

/// Relies on sysinfo::System::{new, refresh_memory, total_memory}: the
/// machine's total memory in bytes. The result depends on the machine, so
/// nothing further is promised.
#[verifier::external_body]
fn probe_total_memory_bytes() -> (r: u64) {
    let mut sys = sysinfo::System::new();
    sys.refresh_memory();
    sys.total_memory()
}

/// Relies on sysinfo::System::long_os_version: the long OS version string,
/// where the platform offers one. The result depends on the machine, so
/// nothing further is promised.
#[verifier::external_body]
fn probe_os_version() -> (r: Option<String>) {
    sysinfo::System::long_os_version()
}

/// Collects the inventory: CPU, memory and OS version are queried from the
/// platform here, while the auxiliary JSON document — the platform shell's
/// answer about GPU, disk, monitor, network and chassis — is handed in by
/// the caller, since obtaining it means running an external process. The
/// JSON-derived fields are pinned exactly; the three probed values depend
/// on the machine, so only their fallback handling is stated by
/// `build_specs`, which this function applies.
pub fn collect_system_specs(extra: Option<String>) -> (s: SystemSpecs)
    ensures
        s.gpu_model@ == spec_extra_field(extra.deep_view(), "gpu"@),
        s.disk_type@ == spec_extra_field(extra.deep_view(), "disk"@),
        s.network_type@ == spec_extra_field(extra.deep_view(), "net"@),
        s.device_type@ == spec_extra_field(extra.deep_view(), "dev"@),
        s.monitor_info@ == spec_extra_monitor(extra.deep_view()),
{
    let cpu = probe_cpu_brand();
    let memory = probe_total_memory_bytes();
    let os = probe_os_version();
    build_specs(cpu, memory, os, extra)
}

} // verus!
