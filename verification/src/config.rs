//! The two JSON payloads that the language server receives: its
//! initialization options and its workspace configuration.
//!
//! Both are computed afresh from what the host answered when it was asked
//! for the settings of this extension. A failed lookup counts as settings
//! that hold nothing.

use vstd::prelude::*;
use crate::json::{
    empty_object, json_of, map_contains_key, map_insert, map_new, single_member_object,
    value_from_map, value_from_string, value_into_map, Json,
};

verus! {

/// The name under which the host keeps the settings of this extension.
pub const SETTINGS_SCOPE: &'static str = "react-compiler-marker";

/// The member of the initialization options that has a default.
pub const TOOLTIP_FORMAT_KEY: &'static str = "tooltipFormat";

/// The tooltip format where the host names none.
pub const DEFAULT_TOOLTIP_FORMAT: &'static str = "markdown";

/// The one member of the workspace configuration, as the language server
/// asks for it.
pub const WORKSPACE_SECTION: &'static str = "reactCompilerMarker";

/// The settings of one worktree for this extension, as the host holds them.
#[derive(Clone, Debug)]
pub struct WorktreeSettings {
    pub initialization_options: Option<serde_json::Value>,
    pub settings: Option<serde_json::Value>,
}

/// The outcome of asking the host for the settings: the settings, or the
/// host's message where it could not give them.
pub type SettingsLookup = Result<WorktreeSettings, String>;

/// The initialization options that the host configured, if any.
pub open spec fn configured_initialization_options(lookup: SettingsLookup) -> Option<
    serde_json::Value,
> {
    match lookup {
        Ok(found) => found.initialization_options,
        Err(_) => None,
    }
}

/// The language server settings that the host configured, if any.
pub open spec fn configured_settings(lookup: SettingsLookup) -> Option<serde_json::Value> {
    match lookup {
        Ok(found) => found.settings,
        Err(_) => None,
    }
}

/// The document of a configured value, and `{}` where nothing is configured.
pub open spec fn or_empty_object(configured: Option<serde_json::Value>) -> Json {
    match configured {
        Some(value) => json_of(value),
        None => empty_object(),
    }
}

/// An object gains the default tooltip format unless it names one already;
/// a document that is no object stays as it is.
pub open spec fn with_default_tooltip_format(options: Json) -> Json {
    match options {
        Json::Object(members) => if members.contains_key(TOOLTIP_FORMAT_KEY@) {
            options
        } else {
            Json::Object(
                members.insert(TOOLTIP_FORMAT_KEY@, Json::Text(DEFAULT_TOOLTIP_FORMAT@)),
            )
        },
        _ => options,
    }
}

/// The initialization options that the language server receives.
pub open spec fn initialization_payload(lookup: SettingsLookup) -> Json {
    with_default_tooltip_format(or_empty_object(configured_initialization_options(lookup)))
}

/// The workspace configuration that the language server receives.
pub open spec fn workspace_configuration_payload(lookup: SettingsLookup) -> Json {
    single_member_object(WORKSPACE_SECTION@, or_empty_object(configured_settings(lookup)))
}

/// Settings in which the host configured nothing.
pub open spec fn no_settings() -> WorktreeSettings {
    WorktreeSettings { initialization_options: None, settings: None }
}

/// Initialization options that are an object always name a tooltip format.
pub proof fn lemma_tooltip_format_is_present(options: Json)
    requires
        options is Object,
    ensures
        with_default_tooltip_format(options) matches Json::Object(members)
            && members.contains_key(TOOLTIP_FORMAT_KEY@),
{
}

/// Every member that the host configured is in the payload with the value
/// that the host gave it: the tooltip format too, where the host set one.
pub proof fn lemma_host_members_are_kept(options: Json, key: Seq<char>)
    requires
        options matches Json::Object(members) && members.contains_key(key),
    ensures
        with_default_tooltip_format(options) matches Json::Object(members)
            && members.contains_key(key) && members[key] == options->Object_0[key],
{
}

/// The payload holds the host's members and the tooltip format, nothing
/// else; where the host named no tooltip format, it is the default.
pub proof fn lemma_only_the_tooltip_format_is_added(options: Json)
    requires
        options is Object,
    ensures
        with_default_tooltip_format(options) matches Json::Object(members) && members.dom()
            == options->Object_0.dom().insert(TOOLTIP_FORMAT_KEY@),
        !options->Object_0.contains_key(TOOLTIP_FORMAT_KEY@) ==> with_default_tooltip_format(
            options,
        )->Object_0[TOOLTIP_FORMAT_KEY@] == Json::Text(DEFAULT_TOOLTIP_FORMAT@),
{
    let members = options->Object_0;
    if members.contains_key(TOOLTIP_FORMAT_KEY@) {
        assert(members.dom().insert(TOOLTIP_FORMAT_KEY@) =~= members.dom());
    }
}

/// Options that are no JSON object come back as they are.
pub proof fn lemma_other_documents_pass_through(options: Json)
    requires
        !(options is Object),
    ensures
        with_default_tooltip_format(options) == options,
{
}

/// Adding the default a second time changes nothing.
pub proof fn lemma_default_tooltip_format_is_idempotent(options: Json)
    ensures
        with_default_tooltip_format(with_default_tooltip_format(options))
            == with_default_tooltip_format(options),
{
}

/// A lookup that failed gives the payloads of settings that hold nothing,
/// whatever the host's message was.
pub proof fn lemma_failed_lookup_counts_as_no_settings(message: String)
    ensures
        initialization_payload(Err(message)) == initialization_payload(Ok(no_settings())),
        workspace_configuration_payload(Err(message)) == workspace_configuration_payload(
            Ok(no_settings()),
        ),
{
}

/// Without configured settings the initialization options are the default
/// tooltip format alone, and the workspace section is `{}`.
pub proof fn lemma_payloads_without_settings()
    ensures
        initialization_payload(Ok(no_settings())) == single_member_object(
            TOOLTIP_FORMAT_KEY@,
            Json::Text(DEFAULT_TOOLTIP_FORMAT@),
        ),
        workspace_configuration_payload(Ok(no_settings())) == single_member_object(
            WORKSPACE_SECTION@,
            empty_object(),
        ),
{
}

/// The workspace configuration is an object with exactly one member, the
/// workspace section, which holds what the host configured.
pub proof fn lemma_workspace_configuration_has_one_section(lookup: SettingsLookup)
    ensures
        workspace_configuration_payload(lookup) matches Json::Object(members) && members.dom()
            == set![WORKSPACE_SECTION@] && members[WORKSPACE_SECTION@] == or_empty_object(
            configured_settings(lookup),
        ),
{
    let members = workspace_configuration_payload(lookup)->Object_0;
    assert(members.dom() =~= set![WORKSPACE_SECTION@]);
}

/// The JSON object without members.
pub fn new_empty_object() -> (value: serde_json::Value)
    ensures
        json_of(value) == empty_object(),
{
    value_from_map(map_new())
}

/// The configured value, or `{}` where there is none.
pub fn value_or_empty_object(configured: Option<serde_json::Value>) -> (value: serde_json::Value)
    ensures
        json_of(value) == or_empty_object(configured),
        configured matches Some(given) ==> value == given,
{
    match configured {
        Some(given) => given,
        None => new_empty_object(),
    }
}

/// Adds the default tooltip format to options that name none. A value that
/// the host set is never overwritten, and options that are no JSON object
/// are handed back untouched.
pub fn apply_default_tooltip_format(options: serde_json::Value) -> (payload: serde_json::Value)
    ensures
        json_of(payload) == with_default_tooltip_format(json_of(options)),
        !(json_of(options) is Object) ==> payload == options,
{
    match value_into_map(options) {
        Ok(mut members) => {
            if !map_contains_key(&members, TOOLTIP_FORMAT_KEY) {
                let default_format = value_from_string(DEFAULT_TOOLTIP_FORMAT.to_owned());
                let _ = map_insert(&mut members, TOOLTIP_FORMAT_KEY.to_owned(), default_format);
            }
            value_from_map(members)
        },
        Err(other) => other,
    }
}

/// The initialization options for the language server: those that the host
/// configured, or `{}` where the lookup failed or configured none, with the
/// default tooltip format added.
pub fn resolve_initialization_options(lookup: SettingsLookup) -> (payload: serde_json::Value)
    ensures
        json_of(payload) == initialization_payload(lookup),
{
    let configured = match lookup {
        Ok(found) => found.initialization_options,
        Err(_) => None,
    };
    apply_default_tooltip_format(value_or_empty_object(configured))
}

/// The workspace configuration for the language server: one object whose
/// only member holds the settings that the host configured, or `{}` where
/// the lookup failed or configured none.
pub fn resolve_workspace_configuration(lookup: SettingsLookup) -> (payload: serde_json::Value)
    ensures
        json_of(payload) == workspace_configuration_payload(lookup),
{
    let configured = match lookup {
        Ok(found) => found.settings,
        Err(_) => None,
    };
    let mut members = map_new();
    let _ = map_insert(&mut members, WORKSPACE_SECTION.to_owned(), value_or_empty_object(configured));
    value_from_map(members)
}

} // verus!
