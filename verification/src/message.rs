//! The two payloads the bridge publishes: the announcement of a component,
//! and the measurements.

mod layout;

use crate::ascii::ascii_lowercase;
use crate::component::SensorComponent;
use crate::config::{BridgeConfig, ConfigView};
use crate::json::number::is_number;
use crate::json::syntax::{is_plain, lemma_member_at, lemma_plain_concat, quoted, says, Json};
use crate::json::unique::lemma_encoding_says;
use crate::json::writer::{
    line, member_head, push_line, push_member_head, push_quoted, push_spaces, spaces,
};
use crate::message::layout::{lemma_discovery_layout, lemma_state_layout};
use crate::topic::{spec_state_topic, state_topic};
use vstd::prelude::*;
use vstd::string::*;

verus! {

/// The template by which the platform takes a component's measurement out of
/// the state payload: `{{ value_json.<field> }}`.
pub open spec fn spec_value_template(component: SensorComponent) -> Seq<char> {
    "{{ "@ + component.spec_value_path() + " }}"@
}

/// What tells the entities of one device apart: `{identifier}_{device_class}`.
pub open spec fn spec_unique_id(identifier: Seq<char>, component: SensorComponent) -> Seq<char> {
    identifier + "_"@ + component.spec_device_class()
}

/// The `device` object of the announcement, character for character.
pub open spec fn device_text(config: ConfigView) -> Seq<char> {
    "{"@
        + member_head(6, "identifiers"@) + "["@
        + line(10) + quoted(config.identifier)
        + line(6) + "]"@ + ","@
        + member_head(6, "name"@) + quoted(config.name)
        + line(4) + "}"@
}

/// The announcement of `component`, character for character.
pub open spec fn discovery_text(config: ConfigView, component: SensorComponent) -> Seq<char> {
    "{"@ + spaces(2)
        + member_head(3, "device_class"@) + quoted(component.spec_device_class()) + ","@
        + member_head(3, "state_topic"@) + quoted(spec_state_topic(config.room)) + ","@
        + member_head(3, "unit_of_measurement"@) + quoted(component.spec_unit()) + ","@
        + member_head(3, "value_template"@) + quoted(spec_value_template(component)) + ","@
        + member_head(3, "unique_id"@) + quoted(spec_unique_id(config.identifier, component)) + ","@
        + member_head(3, "device"@) + device_text(config)
        + line(0) + "}"@ + line(0)
}

/// The state payload for two measurements given as decimal text, character
/// for character.
pub open spec fn state_text(temperature: Seq<char>, pressure: Seq<char>) -> Seq<char> {
    "{"@ + spaces(2)
        + member_head(3, "temperature"@) + " "@ + temperature + ","@
        + member_head(3, "pressure"@) + " "@ + pressure
        + line(0) + "}"@ + line(0)
}

/// Builds the template by which the platform reads `component`'s
/// measurement.
pub fn value_template(component: SensorComponent) -> (template: String)
    ensures
        template@ == spec_value_template(component),
{
    let mut template = String::from_str("{{ ");
    template.append(component.value_path().as_str());
    template.append(" }}");
    template
}

/// Builds the identifier of the entity that `component` of the device is.
pub fn unique_id(identifier: &str, component: SensorComponent) -> (id: String)
    ensures
        id@ == spec_unique_id(identifier@, component),
{
    let mut id = String::from_str(identifier);
    id.append("_");
    id.append(component.device_class());
    id
}

/// Builds the `device` object, which tells the platform which device the
/// entity belongs to.
pub fn device_object(config: &BridgeConfig) -> (object: String)
    ensures
        object@ == device_text(config@),
{
    let mut out = String::from_str("{");
    push_member_head(&mut out, 6, "identifiers");
    out.append("[");
    push_line(&mut out, 10);
    push_quoted(&mut out, config.identifier.as_str());
    push_line(&mut out, 6);
    out.append("]");
    out.append(",");
    push_member_head(&mut out, 6, "name");
    push_quoted(&mut out, config.name.as_str());
    push_line(&mut out, 4);
    out.append("}");
    out
}

/// Builds the payload that announces `component` of the configured device.
pub fn discovery_message(config: &BridgeConfig, component: SensorComponent) -> (message: String)
    ensures
        message@ == discovery_text(config@, component),
        is_plain(config@.room) && is_plain(config@.identifier) && is_plain(config@.name) ==> says(
            message@,
            discovery_document(config@, component),
        ),
{
    proof {
        if is_plain(config@.room) && is_plain(config@.identifier) && is_plain(config@.name) {
            lemma_discovery_message_is_json(config@, component);
        }
    }
    let topic = state_topic(config.room.as_str());
    let template = value_template(component);
    let id = unique_id(config.identifier.as_str(), component);
    let device = device_object(config);
    let mut out = String::from_str("{");
    push_spaces(&mut out, 2);
    push_member_head(&mut out, 3, "device_class");
    push_quoted(&mut out, component.device_class());
    out.append(",");
    push_member_head(&mut out, 3, "state_topic");
    push_quoted(&mut out, topic.as_str());
    out.append(",");
    push_member_head(&mut out, 3, "unit_of_measurement");
    push_quoted(&mut out, component.unit());
    out.append(",");
    push_member_head(&mut out, 3, "value_template");
    push_quoted(&mut out, template.as_str());
    out.append(",");
    push_member_head(&mut out, 3, "unique_id");
    push_quoted(&mut out, id.as_str());
    out.append(",");
    push_member_head(&mut out, 3, "device");
    out.append(device.as_str());
    push_line(&mut out, 0);
    out.append("}");
    push_line(&mut out, 0);
    out
}

/// Builds the state payload from the decimal text of the two measurements.
pub fn state_message(temperature: &str, pressure: &str) -> (message: String)
    ensures
        message@ == state_text(temperature@, pressure@),
        is_number(temperature@) && is_number(pressure@) ==> says(
            message@,
            state_document(temperature@, pressure@),
        ),
{
    proof {
        if is_number(temperature@) && is_number(pressure@) {
            lemma_state_message_is_json(temperature@, pressure@);
        }
    }
    let mut out = String::from_str("{");
    push_spaces(&mut out, 2);
    push_member_head(&mut out, 3, "temperature");
    out.append(" ");
    out.append(temperature);
    out.append(",");
    push_member_head(&mut out, 3, "pressure");
    out.append(" ");
    out.append(pressure);
    push_line(&mut out, 0);
    out.append("}");
    push_line(&mut out, 0);
    out
}

/// What the state payload says: an object of two numbers.
pub open spec fn state_document(temperature: Seq<char>, pressure: Seq<char>) -> Json {
    Json::Object(
        seq![
            ("temperature"@, Json::Number(temperature)),
            ("pressure"@, Json::Number(pressure)),
        ],
    )
}

/// What the announcement of `component` says.
pub open spec fn discovery_document(config: ConfigView, component: SensorComponent) -> Json {
    Json::Object(
        seq![
            ("device_class"@, Json::Text(component.spec_device_class())),
            ("state_topic"@, Json::Text(spec_state_topic(config.room))),
            ("unit_of_measurement"@, Json::Text(component.spec_unit())),
            ("value_template"@, Json::Text(spec_value_template(component))),
            ("unique_id"@, Json::Text(spec_unique_id(config.identifier, component))),
            (
                "device"@,
                Json::Object(
                    seq![
                        ("identifiers"@, Json::List(seq![Json::Text(config.identifier)])),
                        ("name"@, Json::Text(config.name)),
                    ],
                ),
            ),
        ],
    )
}

/// The values the announcement quotes are plain where the configured room
/// and identifier are.
pub proof fn lemma_discovery_values_are_plain(config: ConfigView, component: SensorComponent)
    requires
        is_plain(config.room),
        is_plain(config.identifier),
    ensures
        is_plain(component.spec_device_class()),
        is_plain(component.spec_unit()),
        is_plain(spec_state_topic(config.room)),
        is_plain(spec_value_template(component)),
        is_plain(spec_unique_id(config.identifier, component)),
{
    reveal_strlit("temperature");
    reveal_strlit("pressure");
    reveal_strlit("\u{b0}C");
    reveal_strlit("kPa");
    reveal_strlit("homeassistant/sensor/");
    reveal_strlit("/state");
    reveal_strlit("{{ ");
    reveal_strlit(" }}");
    reveal_strlit("value_json.");
    reveal_strlit("_");
    lemma_plain_concat("homeassistant/sensor/"@, config.room);
    lemma_plain_concat("homeassistant/sensor/"@ + config.room, "/state"@);
    lemma_plain_concat("value_json."@, component.spec_device_class());
    lemma_plain_concat("{{ "@, component.spec_value_path());
    lemma_plain_concat("{{ "@ + component.spec_value_path(), " }}"@);
    lemma_plain_concat(config.identifier, "_"@);
    lemma_plain_concat(config.identifier + "_"@, component.spec_device_class());
}

/// What each member of the announcement holds.
pub proof fn lemma_discovery_members(config: ConfigView, component: SensorComponent)
    ensures
        ({
            let document = discovery_document(config, component);
            &&& document.member("device_class"@) == Some(
                Json::Text(component.spec_device_class()),
            )
            &&& document.member("state_topic"@) == Some(Json::Text(spec_state_topic(config.room)))
            &&& document.member("unit_of_measurement"@) == Some(Json::Text(component.spec_unit()))
            &&& document.member("value_template"@) == Some(
                Json::Text(spec_value_template(component)),
            )
            &&& document.member("unique_id"@) == Some(
                Json::Text(spec_unique_id(config.identifier, component)),
            )
            &&& document.member("device"@) == Some(
                Json::Object(
                    seq![
                        ("identifiers"@, Json::List(seq![Json::Text(config.identifier)])),
                        ("name"@, Json::Text(config.name)),
                    ],
                ),
            )
        }),
{
    reveal_strlit("device_class");
    reveal_strlit("state_topic");
    reveal_strlit("unit_of_measurement");
    reveal_strlit("value_template");
    reveal_strlit("unique_id");
    reveal_strlit("device");
    let members = discovery_document(config, component)->Object_0;
    assert(members[0].0 == "device_class"@ && members[1].0 == "state_topic"@ && members[2].0
        == "unit_of_measurement"@ && members[3].0 == "value_template"@ && members[4].0
        == "unique_id"@ && members[5].0 == "device"@);
    lemma_member_at(members, "device_class"@, 0);
    lemma_member_at(members, "state_topic"@, 1);
    lemma_member_at(members, "unit_of_measurement"@, 2);
    lemma_member_at(members, "value_template"@, 3);
    lemma_member_at(members, "unique_id"@, 4);
    lemma_member_at(members, "device"@, 5);
}

/// What each member of the state payload holds.
pub proof fn lemma_state_members(temperature: Seq<char>, pressure: Seq<char>)
    ensures
        state_document(temperature, pressure).member("temperature"@) == Some(
            Json::Number(temperature),
        ),
        state_document(temperature, pressure).member("pressure"@) == Some(Json::Number(pressure)),
{
    reveal_strlit("temperature");
    reveal_strlit("pressure");
    let members = state_document(temperature, pressure)->Object_0;
    assert(members[0].0 == "temperature"@ && members[1].0 == "pressure"@);
    lemma_member_at(members, "temperature"@, 0);
    lemma_member_at(members, "pressure"@, 1);
}

/// Where room, identifier and name need no escaping, the announcement is a
/// JSON text. What it says is [`discovery_document`] and nothing else: its
/// `device_class` is the component's name in lower case, and its `unique_id`
/// is the device identifier, an underscore and the device class.
pub proof fn lemma_discovery_message_is_json(config: ConfigView, component: SensorComponent)
    requires
        is_plain(config.room),
        is_plain(config.identifier),
        is_plain(config.name),
    ensures
        says(discovery_text(config, component), discovery_document(config, component)),
        discovery_document(config, component).member("device_class"@) == Some(
            Json::Text(ascii_lowercase(component.spec_label())),
        ),
        discovery_document(config, component).member("unique_id"@) == Some(
            Json::Text(config.identifier + "_"@ + ascii_lowercase(component.spec_label())),
        ),
{
    component.lemma_device_class_is_lowercase_label();
    lemma_discovery_members(config, component);
    lemma_discovery_values_are_plain(config, component);
    lemma_discovery_layout(config, component);
    lemma_encoding_says(discovery_text(config, component), discovery_document(config, component));
}

/// Where both measurements are JSON numbers, the state payload is a JSON
/// text. What it says is an object with exactly the two members
/// `temperature` and `pressure`, each the number it was given.
pub proof fn lemma_state_message_is_json(temperature: Seq<char>, pressure: Seq<char>)
    requires
        is_number(temperature),
        is_number(pressure),
    ensures
        says(state_text(temperature, pressure), state_document(temperature, pressure)),
        state_document(temperature, pressure).member("temperature"@) == Some(
            Json::Number(temperature),
        ),
        state_document(temperature, pressure).member("pressure"@) == Some(Json::Number(pressure)),
{
    lemma_state_members(temperature, pressure);
    lemma_state_layout(temperature, pressure);
    lemma_encoding_says(state_text(temperature, pressure), state_document(temperature, pressure));
}

/// The measurement of `component` in a state payload.
pub open spec fn measurement_of(
    component: SensorComponent,
    temperature: Seq<char>,
    pressure: Seq<char>,
) -> Seq<char> {
    match component {
        SensorComponent::Temperature => temperature,
        SensorComponent::Pressure => pressure,
    }
}

/// The announcement and the state payload fit together: the topic that the
/// announcement of either component names is the one state topic of the
/// room, and the member that its template reads from the state payload is
/// there and holds that component's measurement.
pub proof fn lemma_announcement_fits_state(
    config: ConfigView,
    component: SensorComponent,
    temperature: Seq<char>,
    pressure: Seq<char>,
)
    ensures
        discovery_document(config, component).member("state_topic"@) == Some(
            Json::Text(spec_state_topic(config.room)),
        ),
        discovery_document(config, component).member("value_template"@) == Some(
            Json::Text("{{ value_json."@ + component.spec_device_class() + " }}"@),
        ),
        state_document(temperature, pressure).member(component.spec_device_class()) == Some(
            Json::Number(measurement_of(component, temperature, pressure)),
        ),
{
    lemma_discovery_members(config, component);
    lemma_state_members(temperature, pressure);
    assert(spec_value_template(component) =~= "{{ value_json."@ + component.spec_device_class()
        + " }}"@) by {
        reveal_strlit("{{ ");
        reveal_strlit("value_json.");
        reveal_strlit("{{ value_json.");
    }
}

/// The announcement depends on nothing but the configuration and the
/// component: whatever two calls of [`discovery_message`] return for the
/// same ones is the same, character for character.
pub proof fn lemma_discovery_message_is_repeatable(
    config: ConfigView,
    component: SensorComponent,
    first: Seq<char>,
    second: Seq<char>,
)
    requires
        first == discovery_text(config, component),
        second == discovery_text(config, component),
    ensures
        first == second,
{
}

/// The state payload depends on nothing but the two measurements: whatever
/// two calls of [`state_message`] return for the same ones is the same,
/// character for character.
pub proof fn lemma_state_message_is_repeatable(
    temperature: Seq<char>,
    pressure: Seq<char>,
    first: Seq<char>,
    second: Seq<char>,
)
    requires
        first == state_text(temperature, pressure),
        second == state_text(temperature, pressure),
    ensures
        first == second,
{
}

} // verus!
