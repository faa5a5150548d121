//! Scenario files: which format a file is read or written in, and how a
//! scenario request's outcome is judged against its expectation.

use vstd::prelude::*;
use crate::text::{ends_with, is_suffix};

verus! {

/// Proxy section of a scenario.
pub struct ScenarioProxyConfig {
    /// Listening address; the command line may supply it instead.
    pub address: Option<String>,
}

/// A gRPC plugin named by a scenario.
pub struct ScenarioPluginConfig {
    pub address: String,
}

/// Serialisation format of a scenario or report file.
#[derive(Clone, Copy, Debug, PartialEq, Eq, Structural)]
pub enum FileFormat {
    Json,
    Yaml,
    /// A Markdown document (reports only).
    Markdown,
    /// An HTML document (reports only).
    Html,
    Unsupported,
}

/// Format of a file, by its extension: `.json`, `.yaml` / `.yml`, `.md`
/// or `.html`.
pub open spec fn spec_file_format(path: Seq<char>) -> FileFormat {
    if is_suffix(path, ".json"@) {
        FileFormat::Json
    } else if is_suffix(path, ".yaml"@) || is_suffix(path, ".yml"@) {
        FileFormat::Yaml
    } else if is_suffix(path, ".md"@) {
        FileFormat::Markdown
    } else if is_suffix(path, ".html"@) {
        FileFormat::Html
    } else {
        FileFormat::Unsupported
    }
}

/// Chooses the format a scenario is read in, or a report written in.
pub fn file_format(path: &str) -> (r: FileFormat)
    ensures
        r == spec_file_format(path@),
{
    if ends_with(path, ".json") {
        FileFormat::Json
    } else if ends_with(path, ".yaml") || ends_with(path, ".yml") {
        FileFormat::Yaml
    } else if ends_with(path, ".md") {
        FileFormat::Markdown
    } else if ends_with(path, ".html") {
        FileFormat::Html
    } else {
        FileFormat::Unsupported
    }
}

/// Whether a request met its expectation: the response time check decides
/// when there is one, else the status check, else nothing is known.
pub open spec fn spec_expectation_met(expected_status: Option<u16>, status: u16, time_check: Option<bool>) -> Option<bool> {
    match time_check {
        Some(t) => Some(t),
        None => match expected_status {
            Some(s) => Some(s == status),
            None => None,
        },
    }
}

/// Judges a request against its expectation, given the status it got and
/// the outcome of the response time check if one was asked for.
pub fn expectation_met(expected_status: Option<u16>, status: u16, time_check: Option<bool>) -> (r: Option<bool>)
    ensures
        r == spec_expectation_met(expected_status, status, time_check),
{
    let mut met: Option<bool> = None;
    match expected_status {
        Some(s) => {
            met = Some(s == status);
        },
        None => {},
    }
    match time_check {
        Some(t) => {
            met = Some(t);
        },
        None => {},
    }
    met
}

/// The verdict on a request: a response-time check, when one was made,
/// decides whatever the status; without one, the status check decides;
/// with neither, nothing is known.
pub proof fn lemma_expectation_verdict(expected_status: Option<u16>, status: u16, time_check: Option<bool>)
    ensures
        time_check matches Some(t) ==> spec_expectation_met(expected_status, status, time_check) == Some(t),
        expected_status matches Some(s) ==> (time_check is None ==> spec_expectation_met(
            expected_status,
            status,
            time_check,
        ) == Some(s == status)),
        time_check is None && expected_status is None ==> spec_expectation_met(expected_status, status, time_check)
            is None,
{
}

/// The addresses of a scenario's plugins.
pub fn plugin_addresses(plugins: &Vec<ScenarioPluginConfig>) -> (r: Vec<String>)
    ensures
        r@.len() == plugins@.len(),
        forall|i: int| 0 <= i < plugins@.len() ==> #[trigger] r@[i]@ == plugins@[i].address@,
{
    let mut out: Vec<String> = Vec::new();
    let mut i: usize = 0;
    while i < plugins.len()
        invariant
            i <= plugins.len(),
            out@.len() == i,
            forall|j: int| 0 <= j < i ==> #[trigger] out@[j]@ == plugins@[j].address@,
        decreases plugins.len() - i,
    {
        out.push(plugins[i].address.clone());
        i += 1;
    }
    out
}

} // verus!
