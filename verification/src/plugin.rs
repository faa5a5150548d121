//! Information about remote plugins.

use vstd::prelude::*;
use vstd::string::*;
use crate::text::option_view;
use crate::types::{Direction, FaultKind};

verus! {

/// Identity of a remote plugin, as reported in scenario reports.
pub struct RemotePluginInfo {
    name: String,
    version: String,
    author: String,
    url: String,
}

impl RemotePluginInfo {
    /// Records a plugin's identity.
    pub fn new(name: String, version: String, author: String, url: String) -> (r: Self)
        ensures
            r.spec_name() == name@,
            r.spec_version() == version@,
            r.spec_author() == author@,
            r.spec_url() == url@,
    {
        RemotePluginInfo { name, version, author, url }
    }

    /// The plugin's name, as a sequence of characters.
    pub closed spec fn spec_name(&self) -> Seq<char> {
        self.name@
    }

    /// The plugin's version, as a sequence of characters.
    pub closed spec fn spec_version(&self) -> Seq<char> {
        self.version@
    }

    /// The plugin's author, as a sequence of characters.
    pub closed spec fn spec_author(&self) -> Seq<char> {
        self.author@
    }

    /// The plugin's URL, as a sequence of characters.
    pub closed spec fn spec_url(&self) -> Seq<char> {
        self.url@
    }

    /// The plugin's name.
    pub fn name(&self) -> (r: &String)
        ensures
            r@ == self.spec_name(),
    {
        &self.name
    }

    /// The plugin's version.
    pub fn version(&self) -> (r: &String)
        ensures
            r@ == self.spec_version(),
    {
        &self.version
    }

    /// The plugin's author.
    pub fn author(&self) -> (r: &String)
        ensures
            r@ == self.spec_author(),
    {
        &self.author
    }

    /// The plugin's URL.
    pub fn url(&self) -> (r: &String)
        ensures
            r@ == self.spec_url(),
    {
        &self.url
    }
}

/// Which hooks of the proxy a built-in fault plugin acts in.
pub struct PluginHooks {
    /// Adjusts the HTTP client before forwarding.
    pub prepares_client: bool,
    /// Transforms forwarded requests.
    pub on_request: bool,
    /// Transforms upstream responses.
    pub on_response: bool,
    /// Wraps the client side of CONNECT tunnels.
    pub wraps_client: bool,
    /// Wraps the server side of CONNECT tunnels.
    pub wraps_server: bool,
}

/// Hooks of the built-in plugin for a fault kind and direction: the DNS
/// plugin installs its resolver on the client; the bandwidth plugin
/// throttles requests when its direction covers ingress, and responses;
/// the latency plugin delays responses and wraps the tunnel side of each
/// direction it covers; every other plugin wraps both tunnel sides.
pub open spec fn spec_plugin_hooks(kind: FaultKind, direction: Direction) -> PluginHooks {
    PluginHooks {
        prepares_client: kind == FaultKind::Dns,
        on_request: kind == FaultKind::Bandwidth && direction.spec_is_ingress(),
        on_response: kind == FaultKind::Bandwidth || kind == FaultKind::Latency,
        wraps_client: kind != FaultKind::Latency || direction.spec_is_ingress(),
        wraps_server: kind != FaultKind::Latency || direction.spec_is_egress(),
    }
}

/// The hooks the built-in plugin of a fault kind acts in.
pub fn builtin_plugin_hooks(kind: FaultKind, direction: Direction) -> (r: PluginHooks)
    ensures
        r == spec_plugin_hooks(kind, direction),
{
    let latency = kind == FaultKind::Latency;
    PluginHooks {
        prepares_client: kind == FaultKind::Dns,
        on_request: kind == FaultKind::Bandwidth && direction.is_ingress(),
        on_response: kind == FaultKind::Bandwidth || latency,
        wraps_client: !latency || direction.is_ingress(),
        wraps_server: !latency || direction.is_egress(),
    }
}

/// Every built-in plugin acts on at least one side of a tunnel.
pub proof fn lemma_plugin_wraps_some_side(kind: FaultKind, direction: Direction)
    ensures
        spec_plugin_hooks(kind, direction).wraps_client || spec_plugin_hooks(kind, direction).wraps_server,
{
}

/// A latency plugin delays the client side of a tunnel exactly when its
/// direction covers ingress, and the server side exactly when it covers
/// egress; every other built-in plugin wraps both sides.
pub proof fn lemma_plugin_wrapped_sides(kind: FaultKind, direction: Direction)
    ensures
        kind == FaultKind::Latency ==> (spec_plugin_hooks(kind, direction).wraps_client <==> (direction
            == Direction::Ingress || direction == Direction::Both)),
        kind == FaultKind::Latency ==> (spec_plugin_hooks(kind, direction).wraps_server <==> (direction
            == Direction::Egress || direction == Direction::Both)),
        kind != FaultKind::Latency ==> spec_plugin_hooks(kind, direction).wraps_client
            && spec_plugin_hooks(kind, direction).wraps_server,
{
}

/// Only the DNS plugin prepares the HTTP client; only the bandwidth plugin
/// transforms requests, and only when its direction covers ingress; the
/// bandwidth and latency plugins transform responses.
pub proof fn lemma_plugin_http_hooks(kind: FaultKind, direction: Direction)
    ensures
        spec_plugin_hooks(kind, direction).prepares_client <==> kind == FaultKind::Dns,
        spec_plugin_hooks(kind, direction).on_request <==> (kind == FaultKind::Bandwidth && (direction
            == Direction::Ingress || direction == Direction::Both)),
        spec_plugin_hooks(kind, direction).on_response <==> (kind == FaultKind::Bandwidth || kind
            == FaultKind::Latency),
{
}

/// A metadata field a plugin reported, `None` when it is empty.
pub fn non_empty(s: String) -> (r: Option<String>)
    ensures
        s@.len() == 0 ==> r is None,
        s@.len() > 0 ==> r == Some(s),
{
    if s.unicode_len() == 0 {
        None
    } else {
        Some(s)
    }
}

/// An optional field, empty when absent.
pub open spec fn or_empty(o: Option<Seq<char>>) -> Seq<char> {
    match o {
        Some(s) => s,
        None => Seq::empty(),
    }
}

/// Description of a connected gRPC plugin.
pub open spec fn spec_remote_plugin_description(
    name: Seq<char>,
    version: Seq<char>,
    author: Option<Seq<char>>,
    url: Option<Seq<char>>,
    platform: Option<Seq<char>>,
) -> Seq<char> {
    "gRPC Plugin:\n---------------------\nPlugin IP          : "@ + name + "\nPlugin Version        : "@
        + version + "\nPlugin Author     : "@ + or_empty(author) + "\nPlugin Url      : "@ + or_empty(url)
        + "\nPlugin Platform: "@ + or_empty(platform)
}

fn append_optional(out: &mut String, o: Option<&str>)
    ensures
        final(out)@ == old(out)@ + or_empty(option_view(o)),
{
    match o {
        Some(s) => out.append(s),
        None => {
            assert(old(out)@ + Seq::<char>::empty() =~= old(out)@);
        },
    }
}

/// Describes a connected gRPC plugin, absent fields left empty.
pub fn describe_remote_plugin(
    name: &str,
    version: &str,
    author: Option<&str>,
    url: Option<&str>,
    platform: Option<&str>,
) -> (r: String)
    ensures
        r@ == spec_remote_plugin_description(
            name@,
            version@,
            option_view(author),
            option_view(url),
            option_view(platform),
        ),
{
    let mut s = String::from_str("gRPC Plugin:\n---------------------\nPlugin IP          : ");
    s.append(name);
    s.append("\nPlugin Version        : ");
    s.append(version);
    s.append("\nPlugin Author     : ");
    append_optional(&mut s, author);
    s.append("\nPlugin Url      : ");
    append_optional(&mut s, url);
    s.append("\nPlugin Platform: ");
    append_optional(&mut s, platform);
    s
}

} // verus!
