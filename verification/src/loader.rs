//! Reading the configuration: the override that a JSON document holds, laid
//! over the defaults of the platform field by field.

use crate::config::{
    default_config, merged, no_override, parse_errors, AgentConfig, ConfigError, ConfigOverride,
    LoadedConfig, OverrideView, Platform, Setting,
};
use crate::json::{as_array, as_str, as_u64, json_items, json_of, member, parse, parsed_json, Json};
use vstd::prelude::*;
use vstd::string::StringExecFns;

verus! {

/// Whether every element of `items` is a string.
pub open spec fn all_text(items: Seq<Json>) -> bool {
    forall|i: int| 0 <= i < items.len() ==> #[trigger] items[i] is Text
}

/// The strings that `items` holds, where every element is one.
pub open spec fn texts(items: Seq<Json>) -> Seq<Seq<char>> {
    Seq::new(items.len(), |i: int| items[i]->Text_0)
}

/// What `json` says of the interval: nothing unless it is an object with a
/// member `interval`, and then the member's value where that is an integer
/// that a `u64` can hold.
pub open spec fn interval_setting(json: Json) -> Setting<u64> {
    if json is Object && json->Object_0.contains_key("interval"@) {
        match json->Object_0["interval"@] {
            Json::Number(Some(n)) => Setting::Given(n),
            _ => Setting::Malformed,
        }
    } else {
        Setting::Absent
    }
}

/// What `json` says of the ignore list: nothing unless it is an object with a
/// member `ignore`, and then the member's elements where it is an array of
/// strings.
pub open spec fn ignore_setting(json: Json) -> Setting<Seq<Seq<char>>> {
    if json is Object && json->Object_0.contains_key("ignore"@) {
        match json->Object_0["ignore"@] {
            Json::Array(items) => if all_text(items) {
                Setting::Given(texts(items))
            } else {
                Setting::Malformed
            },
            _ => Setting::Malformed,
        }
    } else {
        Setting::Absent
    }
}

/// The override that `json` holds.
pub open spec fn override_of(json: Json) -> OverrideView {
    OverrideView { interval: interval_setting(json), ignore: ignore_setting(json) }
}

/// The override that `text` holds: that of the JSON document it is, and none
/// where it is no JSON document.
pub open spec fn override_of_text(text: Seq<char>) -> OverrideView {
    match parsed_json(text) {
        Some(json) => override_of(json),
        None => no_override(),
    }
}

/// The strings that `items` holds, or `None` where an element is no string.
pub fn read_names(items: &Vec<serde_json::Value>) -> (names: Option<Vec<String>>)
    ensures
        names is Some <==> all_text(json_items(items@)),
        names is Some ==> names->0.deep_view() == texts(json_items(items@)),
{
    let mut names: Vec<String> = Vec::new();
    let mut i: usize = 0;
    while i < items.len()
        invariant
            i <= items.len(),
            names.len() == i,
            forall|j: int| 0 <= j < i ==> #[trigger] json_items(items@)[j] is Text,
            forall|j: int|
                0 <= j < i ==> #[trigger] names.deep_view()[j] == json_items(
                    items@,
                )[j]->Text_0,
        decreases items.len() - i,
    {
        match as_str(&items[i]) {
            Some(name) => {
                let ghost before = names.deep_view();
                names.push(String::from_str(name));
                assert forall|j: int| 0 <= j < i + 1 implies #[trigger] names.deep_view()[j]
                    == json_items(items@)[j]->Text_0 by {
                    if j < i {
                        assert(names.deep_view()[j] == before[j]);
                    }
                }
            },
            None => {
                assert(!(json_items(items@)[i as int] is Text));
                return None;
            },
        }
        i += 1;
    }
    Some(names)
}

/// The override that `value` holds.
pub fn read_override(value: &serde_json::Value) -> (over: ConfigOverride)
    ensures
        over@ == override_of(json_of(*value)),
{
    let interval = match member(value, "interval") {
        Some(field) => match as_u64(field) {
            Some(seconds) => Setting::Given(seconds),
            None => Setting::Malformed,
        },
        None => Setting::Absent,
    };
    let ignore = match member(value, "ignore") {
        Some(field) => match as_array(field) {
            Some(items) => match read_names(items) {
                Some(names) => Setting::Given(names),
                None => Setting::Malformed,
            },
            None => Setting::Malformed,
        },
        None => Setting::Absent,
    };
    ConfigOverride { interval, ignore }
}

/// The override that `text` holds.
pub fn parse_override(text: &str) -> (over: ConfigOverride)
    ensures
        over@ == override_of_text(text@),
{
    match parse(text) {
        Some(value) => read_override(&value),
        None => ConfigOverride { interval: Setting::Absent, ignore: Setting::Absent },
    }
}

impl AgentConfig {
    /// The configuration that `text` asks for on `platform`: the defaults,
    /// with the fields replaced that `text`, read as a JSON object, gives a
    /// usable value for. A text that is no JSON object changes nothing and is
    /// no error.
    pub fn from_override(text: &str, platform: Platform) -> (loaded: LoadedConfig)
        ensures
            loaded.config@ == merged(default_config(platform), override_of_text(text@)),
            loaded.errors@ == parse_errors(override_of_text(text@)),
    {
        AgentConfig::default_for(platform).merge(parse_override(text))
    }
}

/// A text that is no JSON document, or a document that is no object, asks
/// for nothing: the defaults stand, and there is no error.
pub proof fn law_non_object_gives_defaults(text: Seq<char>, platform: Platform)
    requires
        parsed_json(text) matches Some(json) ==> !(json is Object),
    ensures
        merged(default_config(platform), override_of_text(text)) == default_config(platform),
        parse_errors(override_of_text(text)) == Seq::<ConfigError>::empty(),
{
}

/// An object without the members `interval` and `ignore` asks for nothing
/// either.
pub proof fn law_unnamed_fields_keep_defaults(json: Json, platform: Platform)
    requires
        json is Object,
        !json->Object_0.contains_key("interval"@),
        !json->Object_0.contains_key("ignore"@),
    ensures
        merged(default_config(platform), override_of(json)) == default_config(platform),
        parse_errors(override_of(json)) == Seq::<ConfigError>::empty(),
{
}

} // verus!
