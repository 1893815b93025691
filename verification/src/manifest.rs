//! The plugin's static self-description: metadata, the capability manifest,
//! their exact JSON texts, and the fixed values that `get_manifest` and
//! `get_metadata` advertise on every call.

use vstd::prelude::*;
use vstd::string::StringExecFns;
use crate::text::{bool_text, opt_quoted, quoted, quoted_array, push_bool, push_opt_quoted,
    push_quoted, push_quoted_array};

verus! {

/// Static descriptive data advertised by the plugin.
#[derive(Clone)]
pub struct PluginMetadata {
    pub name: String,
    pub version: String,
    pub description: String,
    pub author: String,
    pub logo: Option<String>,
    pub license: Option<String>,
    pub homepage: Option<String>,
    pub repository: Option<String>,
    pub keywords: Vec<String>,
    pub api_version: String,
}

/// The capability descriptor: metadata plus what the plugin can do and which
/// event handlers it answers to.
pub struct PluginManifest {
    pub metadata: PluginMetadata,
    pub capabilities: Vec<String>,
    pub ui_available: bool,
    pub event_handlers: Vec<String>,
}

/// The JSON text of the metadata object, fields in declaration order, absent
/// optional fields spelled `null`.
pub open spec fn metadata_text(m: PluginMetadata) -> Seq<char> {
    "{\"name\":"@ + quoted(m.name@) + ",\"version\":"@ + quoted(m.version@)
        + ",\"description\":"@ + quoted(m.description@) + ",\"author\":"@ + quoted(m.author@)
        + ",\"logo\":"@ + opt_quoted(m.logo.deep_view()) + ",\"license\":"@
        + opt_quoted(m.license.deep_view()) + ",\"homepage\":"@
        + opt_quoted(m.homepage.deep_view()) + ",\"repository\":"@
        + opt_quoted(m.repository.deep_view()) + ",\"keywords\":"@
        + quoted_array(m.keywords.deep_view()) + ",\"api_version\":"@ + quoted(m.api_version@)
        + "}"@
}

/// The JSON text of the manifest object.
pub open spec fn manifest_text(m: PluginManifest) -> Seq<char> {
    "{\"metadata\":"@ + metadata_text(m.metadata) + ",\"capabilities\":"@
        + quoted_array(m.capabilities.deep_view()) + ",\"ui_available\":"@
        + bool_text(m.ui_available) + ",\"event_handlers\":"@
        + quoted_array(m.event_handlers.deep_view()) + "}"@
}

/// The one metadata value this plugin ever advertises.
pub open spec fn is_default_metadata(m: PluginMetadata) -> bool {
    &&& m.name@ == "Example Plugin"@
    &&& m.version@ == "1.0.0"@
    &&& m.description@ == "A sample plugin demonstrating UI capabilities"@
    &&& m.author@ == "Plugin Developer"@
    &&& m.logo.deep_view() == Some(
        "data:image/svg+xml;base64,PHN2ZyB3aWR0aD0iMjQiIGhlaWdodD0iMjQiIHZpZXdCb3g9IjAgMCAyNCAyNCIgZmlsbD0ibm9uZSIgeG1sbnM9Imh0dHA6Ly93d3cudzMub3JnLzIwMDAvc3ZnIj4KPHBhdGggZD0iTTEyIDJMMTMuMDkgOC4yNkwyMCA9TDEzLjA5IDE1Ljc0TDEyIDIyTDEwLjkxIDE1Ljc0TDQgOUwxMC45MSA4LjI2TDEyIDJaIiBmaWxsPSIjRkY2NTAwIi8+Cjwvc3ZnPgo="@,
    )
    &&& m.license.deep_view() == Some("MIT"@)
    &&& m.homepage.deep_view() == Some("https://example.com"@)
    &&& m.repository.deep_view() == Some("https://github.com/example/plugin"@)
    &&& m.keywords.deep_view() == seq!["example"@, "ui"@, "demo"@]
    &&& m.api_version@ == "1.0"@
}

/// The JSON text of the fixed metadata.
pub open spec fn default_metadata_text() -> Seq<char> {
    "{\"name\":"@ + quoted("Example Plugin"@) + ",\"version\":"@ + quoted("1.0.0"@)
        + ",\"description\":"@ + quoted("A sample plugin demonstrating UI capabilities"@)
        + ",\"author\":"@ + quoted("Plugin Developer"@) + ",\"logo\":"@ + opt_quoted(
        Some(
            "data:image/svg+xml;base64,PHN2ZyB3aWR0aD0iMjQiIGhlaWdodD0iMjQiIHZpZXdCb3g9IjAgMCAyNCAyNCIgZmlsbD0ibm9uZSIgeG1sbnM9Imh0dHA6Ly93d3cudzMub3JnLzIwMDAvc3ZnIj4KPHBhdGggZD0iTTEyIDJMMTMuMDkgOC4yNkwyMCA9TDEzLjA5IDE1Ljc0TDEyIDIyTDEwLjkxIDE1Ljc0TDQgOUwxMC45MSA4LjI2TDEyIDJaIiBmaWxsPSIjRkY2NTAwIi8+Cjwvc3ZnPgo="@,
        ),
    ) + ",\"license\":"@ + opt_quoted(Some("MIT"@)) + ",\"homepage\":"@ + opt_quoted(
        Some("https://example.com"@),
    ) + ",\"repository\":"@ + opt_quoted(Some("https://github.com/example/plugin"@))
        + ",\"keywords\":"@ + quoted_array(seq!["example"@, "ui"@, "demo"@])
        + ",\"api_version\":"@ + quoted("1.0"@) + "}"@
}

/// The JSON text of the fixed manifest: the fixed metadata, the capability
/// list, UI availability, and the advertised event handler names.
pub open spec fn default_manifest_text() -> Seq<char> {
    "{\"metadata\":"@ + default_metadata_text() + ",\"capabilities\":"@ + quoted_array(
        seq!["ui"@, "events"@, "state_management"@],
    ) + ",\"ui_available\":"@ + bool_text(true) + ",\"event_handlers\":"@ + quoted_array(
        seq!["handle_click"@, "handle_input_change"@, "handle_select_change"@],
    ) + "}"@
}

/// Serializes metadata to its JSON text.
#[verifier::rlimit(30)]
pub fn metadata_json(m: &PluginMetadata) -> (out: String)
    ensures
        out@ == metadata_text(*m),
{
    let mut out = String::new();
    out.append("{\"name\":");
    push_quoted(&mut out, m.name.as_str());
    out.append(",\"version\":");
    push_quoted(&mut out, m.version.as_str());
    out.append(",\"description\":");
    push_quoted(&mut out, m.description.as_str());
    out.append(",\"author\":");
    push_quoted(&mut out, m.author.as_str());
    out.append(",\"logo\":");
    push_opt_quoted(&mut out, &m.logo);
    out.append(",\"license\":");
    push_opt_quoted(&mut out, &m.license);
    out.append(",\"homepage\":");
    push_opt_quoted(&mut out, &m.homepage);
    out.append(",\"repository\":");
    push_opt_quoted(&mut out, &m.repository);
    out.append(",\"keywords\":");
    push_quoted_array(&mut out, &m.keywords);
    out.append(",\"api_version\":");
    push_quoted(&mut out, m.api_version.as_str());
    out.append("}");
    proof {
        assert(out@ =~= metadata_text(*m));
    }
    out
}

/// Serializes a manifest to its JSON text.
pub fn manifest_json(m: &PluginManifest) -> (out: String)
    ensures
        out@ == manifest_text(*m),
{
    let mut out = String::new();
    out.append("{\"metadata\":");
    let meta = metadata_json(&m.metadata);
    out.append(meta.as_str());
    out.append(",\"capabilities\":");
    push_quoted_array(&mut out, &m.capabilities);
    out.append(",\"ui_available\":");
    push_bool(&mut out, m.ui_available);
    out.append(",\"event_handlers\":");
    push_quoted_array(&mut out, &m.event_handlers);
    out.append("}");
    proof {
        assert(out@ =~= manifest_text(*m));
    }
    out
}

/// Builds the fixed metadata value.
pub fn create_metadata() -> (m: PluginMetadata)
    ensures
        is_default_metadata(m),
        metadata_text(m) == default_metadata_text(),
{
    let mut keywords: Vec<String> = Vec::new();
    keywords.push(String::from_str("example"));
    keywords.push(String::from_str("ui"));
    keywords.push(String::from_str("demo"));
    proof {
        assert(keywords.deep_view() =~= seq!["example"@, "ui"@, "demo"@]);
    }
    let m = PluginMetadata {
        name: String::from_str("Example Plugin"),
        version: String::from_str("1.0.0"),
        description: String::from_str("A sample plugin demonstrating UI capabilities"),
        author: String::from_str("Plugin Developer"),
        logo: Some(
            String::from_str(
                "data:image/svg+xml;base64,PHN2ZyB3aWR0aD0iMjQiIGhlaWdodD0iMjQiIHZpZXdCb3g9IjAgMCAyNCAyNCIgZmlsbD0ibm9uZSIgeG1sbnM9Imh0dHA6Ly93d3cudzMub3JnLzIwMDAvc3ZnIj4KPHBhdGggZD0iTTEyIDJMMTMuMDkgOC4yNkwyMCA9TDEzLjA5IDE1Ljc0TDEyIDIyTDEwLjkxIDE1Ljc0TDQgOUwxMC45MSA4LjI2TDEyIDJaIiBmaWxsPSIjRkY2NTAwIi8+Cjwvc3ZnPgo=",
            ),
        ),
        license: Some(String::from_str("MIT")),
        homepage: Some(String::from_str("https://example.com")),
        repository: Some(String::from_str("https://github.com/example/plugin")),
        keywords,
        api_version: String::from_str("1.0"),
    };
    proof {
        assert(metadata_text(m) == default_metadata_text());
    }
    m
}

/// Renders the fixed metadata as JSON text; the same text on every call.
pub fn get_metadata() -> (r: String)
    ensures
        r@ == default_metadata_text(),
{
    let m = create_metadata();
    metadata_json(&m)
}

/// Renders the fixed manifest as JSON text; the same text on every call.
pub fn get_manifest() -> (r: String)
    ensures
        r@ == default_manifest_text(),
{
    let metadata = create_metadata();
    let mut capabilities: Vec<String> = Vec::new();
    capabilities.push(String::from_str("ui"));
    capabilities.push(String::from_str("events"));
    capabilities.push(String::from_str("state_management"));
    proof {
        assert(capabilities.deep_view() =~= seq!["ui"@, "events"@, "state_management"@]);
    }
    let mut event_handlers: Vec<String> = Vec::new();
    event_handlers.push(String::from_str("handle_click"));
    event_handlers.push(String::from_str("handle_input_change"));
    event_handlers.push(String::from_str("handle_select_change"));
    proof {
        assert(event_handlers.deep_view() =~= seq!["handle_click"@, "handle_input_change"@,
            "handle_select_change"@]);
    }
    let manifest = PluginManifest { metadata, capabilities, ui_available: true, event_handlers };
    let r = manifest_json(&manifest);
    proof {
        assert(manifest_text(manifest) == default_manifest_text());
    }
    r
}

} // verus!
