//! The syntax trees of the two payloads: the witnesses that each payload is
//! a JSON text and says what it should.

use crate::component::SensorComponent;
use crate::config::ConfigView;
use crate::json::number::is_number;
use crate::json::syntax::{
    elements_value, encodes, is_blank, is_plain, lemma_elements_push, lemma_members_push,
    members_text, members_value, quoted, Element, Json, Member, Syntax,
};
use crate::json::writer::{
    lemma_member_on_line, lemma_spaces_are_blank, line, member_head, member_on_line, spaces,
};
use crate::message::{
    device_text, discovery_document, discovery_text, spec_unique_id, spec_value_template,
    state_document, state_text,
};
use crate::topic::spec_state_topic;
use vstd::prelude::*;
use vstd::string::*;

verus! {

/// A member of the announcement whose value is a string.
spec fn text_member(
    before: Seq<char>,
    indent: nat,
    name: Seq<char>,
    value: Seq<char>,
    trail: Seq<char>,
) -> Member {
    member_on_line(before, indent, name, Seq::empty(), Syntax::Text(value), trail)
}

/// The one element of the `identifiers` array.
spec fn identifier_element(config: ConfigView) -> Element {
    Element { lead: line(10), value: Syntax::Text(config.identifier), trail: line(6) }
}

/// The members of the `device` object, in order.
spec fn device_members(config: ConfigView) -> Seq<Member> {
    let none = Seq::<char>::empty();
    Seq::empty().push(
        member_on_line(
            none,
            6,
            "identifiers"@,
            none,
            Syntax::List(Seq::empty().push(identifier_element(config))),
            none,
        ),
    ).push(text_member(none, 6, "name"@, config.name, line(4)))
}

/// The members of the announcement, in order.
spec fn discovery_members(config: ConfigView, component: SensorComponent) -> Seq<Member> {
    let none = Seq::<char>::empty();
    Seq::empty().push(
        text_member(spaces(2), 3, "device_class"@, component.spec_device_class(), none),
    ).push(text_member(none, 3, "state_topic"@, spec_state_topic(config.room), none)).push(
        text_member(none, 3, "unit_of_measurement"@, component.spec_unit(), none),
    ).push(text_member(none, 3, "value_template"@, spec_value_template(component), none)).push(
        text_member(none, 3, "unique_id"@, spec_unique_id(config.identifier, component), none),
    ).push(
        member_on_line(none, 3, "device"@, none, Syntax::Object(device_members(config)), line(0)),
    )
}

/// The syntax tree of the announcement.
spec fn discovery_layout(config: ConfigView, component: SensorComponent) -> Element {
    Element {
        lead: Seq::empty(),
        value: Syntax::Object(discovery_members(config, component)),
        trail: line(0),
    }
}

/// What a string member reads as, what it says, and when it is well formed.
proof fn lemma_text_member(
    before: Seq<char>,
    indent: nat,
    name: Seq<char>,
    value: Seq<char>,
    trail: Seq<char>,
)
    ensures
        text_member(before, indent, name, value, trail).text() == before + (member_head(
            indent,
            name,
        ) + quoted(value) + trail),
        text_member(before, indent, name, value, trail).value() == (name, Json::Text(value)),
        is_blank(before) && is_plain(name) && is_plain(value) && is_blank(trail) ==> text_member(
            before,
            indent,
            name,
            value,
            trail,
        ).well_formed(),
{
    lemma_member_on_line(before, indent, name, Seq::empty(), Syntax::Text(value), trail);
    assert(before + member_head(indent, name) + Seq::<char>::empty() + quoted(value) + trail
        =~= before + (member_head(indent, name) + quoted(value) + trail));
}

/// The text of the `device` object's syntax tree is [`device_text`].
proof fn lemma_device_text(config: ConfigView)
    ensures
        Syntax::Object(device_members(config)).text() == device_text(config),
{
    let none = Seq::<char>::empty();
    let item = identifier_element(config);
    let list = Syntax::List(Seq::empty().push(item));
    let first = member_on_line(none, 6, "identifiers"@, none, list, none);
    let second = text_member(none, 6, "name"@, config.name, line(4));
    lemma_elements_push(Seq::empty(), item);
    lemma_member_on_line(none, 6, "identifiers"@, none, list, none);
    lemma_text_member(none, 6, "name"@, config.name, line(4));
    lemma_members_push(Seq::empty(), first);
    lemma_members_push(Seq::empty().push(first), second);
    reveal_strlit("{");
    reveal_strlit("}");
    reveal_strlit("[");
    reveal_strlit("]");
    reveal_strlit(",");
    assert(list.text() =~= "["@ + line(10) + quoted(config.identifier) + line(6) + "]"@);
    assert(first.text() =~= member_head(6, "identifiers"@) + list.text());
    assert(Syntax::Object(device_members(config)).text() =~= device_text(config));
}

/// The `device` object's syntax tree is well formed, and says what the
/// document's `device` member holds.
proof fn lemma_device_value(config: ConfigView)
    requires
        is_plain(config.identifier),
        is_plain(config.name),
    ensures
        Syntax::Object(device_members(config)).well_formed(),
        Syntax::Object(device_members(config)).value() == Json::Object(
            seq![
                ("identifiers"@, Json::List(seq![Json::Text(config.identifier)])),
                ("name"@, Json::Text(config.name)),
            ],
        ),
{
    let none = Seq::<char>::empty();
    let item = identifier_element(config);
    let items = Seq::empty().push(item);
    let list = Syntax::List(items);
    let first = member_on_line(none, 6, "identifiers"@, none, list, none);
    let second = text_member(none, 6, "name"@, config.name, line(4));
    let members = device_members(config);
    reveal_strlit("identifiers");
    reveal_strlit("name");
    lemma_spaces_are_blank(4);
    lemma_spaces_are_blank(6);
    lemma_spaces_are_blank(10);
    lemma_elements_push(Seq::empty(), item);
    assert(item.value.well_formed());
    assert(item.well_formed());
    assert(list.well_formed());
    assert(list.value() == Json::List(seq![Json::Text(config.identifier)])) by {
        assert(elements_value(items) =~= seq![Json::Text(config.identifier)]);
    }
    lemma_member_on_line(none, 6, "identifiers"@, none, list, none);
    lemma_text_member(none, 6, "name"@, config.name, line(4));
    lemma_members_push(Seq::empty(), first);
    lemma_members_push(Seq::empty().push(first), second);
    assert(members_value(members) =~= seq![
        ("identifiers"@, Json::List(seq![Json::Text(config.identifier)])),
        ("name"@, Json::Text(config.name)),
    ]);
    assert forall|i: int| 0 <= i < members.len() implies (#[trigger] members[i]).well_formed() by {
        if i == 0 {
        } else {
        }
    }
}

/// Writing the first member after the opening brace.
proof fn lemma_write_first(member: Member, before: Seq<char>, head: Seq<char>, value: Seq<char>)
    requires
        member.text() == before + (head + value + Seq::<char>::empty()),
    ensures
        "{"@ + before + head + value == "{"@ + members_text(Seq::empty().push(member)),
{
    lemma_members_push(Seq::empty(), member);
    assert("{"@ + before + head + value =~= "{"@ + member.text());
}

/// Writing a comma and one more member after `written`, which is an opening
/// brace and the members so far.
proof fn lemma_write_member(
    written: Seq<char>,
    members: Seq<Member>,
    member: Member,
    head: Seq<char>,
    value: Seq<char>,
    trail: Seq<char>,
)
    requires
        members.len() > 0,
        written == "{"@ + members_text(members),
        member.text() == Seq::<char>::empty() + (head + value + trail),
    ensures
        written + ","@ + head + value + trail == "{"@ + members_text(members.push(member)),
        trail.len() == 0 ==> written + ","@ + head + value == "{"@ + members_text(
            members.push(member),
        ),
{
    reveal_strlit(",");
    lemma_members_push(members, member);
    assert(written + ","@ + head + value + trail =~= "{"@ + (members_text(members) + seq![',']
        + member.text()));
    if trail.len() == 0 {
        assert(written + ","@ + head + value + trail =~= written + ","@ + head + value);
    }
}

/// Writing the closing brace and what trails it.
proof fn lemma_write_end(written: Seq<char>, members: Seq<Member>, trail: Seq<char>)
    requires
        written == "{"@ + members_text(members),
    ensures
        (Element { lead: Seq::empty(), value: Syntax::Object(members), trail }).text() == written
            + "}"@ + trail,
{
    reveal_strlit("{");
    reveal_strlit("}");
    let element = Element { lead: Seq::empty(), value: Syntax::Object(members), trail };
    assert(element.text() =~= written + "}"@ + trail);
}

/// The text of the `device` member.
proof fn lemma_device_member_text(config: ConfigView)
    ensures
        member_on_line(
            Seq::empty(),
            3,
            "device"@,
            Seq::empty(),
            Syntax::Object(device_members(config)),
            line(0),
        ).text() == Seq::<char>::empty() + (member_head(3, "device"@) + device_text(config) + line(
            0,
        )),
{
    let none = Seq::<char>::empty();
    let device = Syntax::Object(device_members(config));
    lemma_member_on_line(none, 3, "device"@, none, device, line(0));
    lemma_device_text(config);
    assert(none + member_head(3, "device"@) + none + device_text(config) + line(0) =~= none + (
    member_head(3, "device"@) + device_text(config) + line(0)));
}

/// The text of the announcement's syntax tree is the announcement.
proof fn lemma_discovery_layout_text(config: ConfigView, component: SensorComponent)
    ensures
        discovery_layout(config, component).text() == discovery_text(config, component),
{
    let none = Seq::<char>::empty();
    let class = component.spec_device_class();
    let topic = spec_state_topic(config.room);
    let unit = component.spec_unit();
    let template = spec_value_template(component);
    let id = spec_unique_id(config.identifier, component);
    let device = Syntax::Object(device_members(config));
    let m1 = text_member(spaces(2), 3, "device_class"@, class, none);
    let m2 = text_member(none, 3, "state_topic"@, topic, none);
    let m3 = text_member(none, 3, "unit_of_measurement"@, unit, none);
    let m4 = text_member(none, 3, "value_template"@, template, none);
    let m5 = text_member(none, 3, "unique_id"@, id, none);
    let m6 = member_on_line(none, 3, "device"@, none, device, line(0));
    lemma_text_member(spaces(2), 3, "device_class"@, class, none);
    lemma_text_member(none, 3, "state_topic"@, topic, none);
    lemma_text_member(none, 3, "unit_of_measurement"@, unit, none);
    lemma_text_member(none, 3, "value_template"@, template, none);
    lemma_text_member(none, 3, "unique_id"@, id, none);
    lemma_device_member_text(config);
    let s1 = Seq::<Member>::empty().push(m1);
    let s2 = s1.push(m2);
    let s3 = s2.push(m3);
    let s4 = s3.push(m4);
    let s5 = s4.push(m5);
    let s6 = s5.push(m6);
    let d1 = "{"@ + spaces(2) + member_head(3, "device_class"@) + quoted(class);
    let d2 = d1 + ","@ + member_head(3, "state_topic"@) + quoted(topic);
    let d3 = d2 + ","@ + member_head(3, "unit_of_measurement"@) + quoted(unit);
    let d4 = d3 + ","@ + member_head(3, "value_template"@) + quoted(template);
    let d5 = d4 + ","@ + member_head(3, "unique_id"@) + quoted(id);
    let d6 = d5 + ","@ + member_head(3, "device"@) + device_text(config) + line(0);
    lemma_write_first(m1, spaces(2), member_head(3, "device_class"@), quoted(class));
    lemma_write_member(d1, s1, m2, member_head(3, "state_topic"@), quoted(topic), none);
    lemma_write_member(d2, s2, m3, member_head(3, "unit_of_measurement"@), quoted(unit), none);
    lemma_write_member(d3, s3, m4, member_head(3, "value_template"@), quoted(template), none);
    lemma_write_member(d4, s4, m5, member_head(3, "unique_id"@), quoted(id), none);
    lemma_write_member(d5, s5, m6, member_head(3, "device"@), device_text(config), line(0));
    lemma_write_end(d6, s6, line(0));
}

/// The announcement's syntax tree is well formed, and its value is the
/// announcement's document.
proof fn lemma_discovery_layout_value(config: ConfigView, component: SensorComponent)
    requires
        is_plain(config.identifier),
        is_plain(config.name),
        is_plain(component.spec_device_class()),
        is_plain(component.spec_unit()),
        is_plain(spec_state_topic(config.room)),
        is_plain(spec_value_template(component)),
        is_plain(spec_unique_id(config.identifier, component)),
    ensures
        discovery_layout(config, component).well_formed(),
        discovery_layout(config, component).value() == discovery_document(config, component),
{
    let none = Seq::<char>::empty();
    let class = component.spec_device_class();
    let topic = spec_state_topic(config.room);
    let unit = component.spec_unit();
    let template = spec_value_template(component);
    let id = spec_unique_id(config.identifier, component);
    let device = Syntax::Object(device_members(config));
    let m1 = text_member(spaces(2), 3, "device_class"@, class, none);
    let m2 = text_member(none, 3, "state_topic"@, topic, none);
    let m3 = text_member(none, 3, "unit_of_measurement"@, unit, none);
    let m4 = text_member(none, 3, "value_template"@, template, none);
    let m5 = text_member(none, 3, "unique_id"@, id, none);
    let m6 = member_on_line(none, 3, "device"@, none, device, line(0));
    lemma_spaces_are_blank(0);
    lemma_spaces_are_blank(2);
    lemma_device_value(config);
    assert(is_plain("device_class"@) && is_plain("state_topic"@) && is_plain(
        "unit_of_measurement"@,
    ) && is_plain("value_template"@) && is_plain("unique_id"@) && is_plain("device"@)) by {
        reveal_strlit("device_class");
        reveal_strlit("state_topic");
        reveal_strlit("unit_of_measurement");
        reveal_strlit("value_template");
        reveal_strlit("unique_id");
        reveal_strlit("device");
    }
    lemma_text_member(spaces(2), 3, "device_class"@, class, none);
    lemma_text_member(none, 3, "state_topic"@, topic, none);
    lemma_text_member(none, 3, "unit_of_measurement"@, unit, none);
    lemma_text_member(none, 3, "value_template"@, template, none);
    lemma_text_member(none, 3, "unique_id"@, id, none);
    lemma_member_on_line(none, 3, "device"@, none, device, line(0));
    let s1 = Seq::<Member>::empty().push(m1);
    let s2 = s1.push(m2);
    let s3 = s2.push(m3);
    let s4 = s3.push(m4);
    let s5 = s4.push(m5);
    let s6 = s5.push(m6);
    lemma_members_push(Seq::empty(), m1);
    lemma_members_push(s1, m2);
    lemma_members_push(s2, m3);
    lemma_members_push(s3, m4);
    lemma_members_push(s4, m5);
    lemma_members_push(s5, m6);
    assert(members_value(s6) =~= seq![
        ("device_class"@, Json::Text(class)),
        ("state_topic"@, Json::Text(topic)),
        ("unit_of_measurement"@, Json::Text(unit)),
        ("value_template"@, Json::Text(template)),
        ("unique_id"@, Json::Text(id)),
        ("device"@, device.value()),
    ]);
    assert forall|i: int| 0 <= i < s6.len() implies (#[trigger] s6[i]).well_formed() by {
        if i == 0 {
        } else if i == 1 {
        } else if i == 2 {
        } else if i == 3 {
        } else if i == 4 {
        } else {
        }
    }
    assert(Syntax::Object(s6).well_formed());
}

/// Where the values it quotes are plain, the announcement has a well-formed
/// syntax tree whose value is the announcement's document.
pub proof fn lemma_discovery_layout(config: ConfigView, component: SensorComponent)
    requires
        is_plain(config.room),
        is_plain(config.identifier),
        is_plain(config.name),
        is_plain(component.spec_device_class()),
        is_plain(component.spec_unit()),
        is_plain(spec_state_topic(config.room)),
        is_plain(spec_value_template(component)),
        is_plain(spec_unique_id(config.identifier, component)),
    ensures
        encodes(discovery_text(config, component), discovery_document(config, component)),
{
    lemma_discovery_layout_text(config, component);
    lemma_discovery_layout_value(config, component);
    lemma_spaces_are_blank(0);
    let layout = discovery_layout(config, component);
    assert(layout.well_formed());
}

/// The members of the state payload, in order.
spec fn state_members(temperature: Seq<char>, pressure: Seq<char>) -> Seq<Member> {
    let none = Seq::<char>::empty();
    Seq::empty().push(
        member_on_line(spaces(2), 3, "temperature"@, " "@, Syntax::Number(temperature), none),
    ).push(member_on_line(none, 3, "pressure"@, " "@, Syntax::Number(pressure), line(0)))
}

/// The syntax tree of the state payload.
spec fn state_layout(temperature: Seq<char>, pressure: Seq<char>) -> Element {
    Element {
        lead: Seq::empty(),
        value: Syntax::Object(state_members(temperature, pressure)),
        trail: line(0),
    }
}

/// Where both measurements are numbers, the state payload has a well-formed
/// syntax tree whose value is the state payload's document.
pub proof fn lemma_state_layout(temperature: Seq<char>, pressure: Seq<char>)
    requires
        is_number(temperature),
        is_number(pressure),
    ensures
        encodes(state_text(temperature, pressure), state_document(temperature, pressure)),
{
    let none = Seq::<char>::empty();
    let first = member_on_line(
        spaces(2),
        3,
        "temperature"@,
        " "@,
        Syntax::Number(temperature),
        none,
    );
    let second = member_on_line(none, 3, "pressure"@, " "@, Syntax::Number(pressure), line(0));
    let members = state_members(temperature, pressure);
    let layout = state_layout(temperature, pressure);
    reveal_strlit("{");
    reveal_strlit("}");
    reveal_strlit(",");
    reveal_strlit(" ");
    reveal_strlit("temperature");
    reveal_strlit("pressure");
    lemma_spaces_are_blank(0);
    lemma_spaces_are_blank(2);
    lemma_member_on_line(spaces(2), 3, "temperature"@, " "@, Syntax::Number(temperature), none);
    lemma_member_on_line(none, 3, "pressure"@, " "@, Syntax::Number(pressure), line(0));
    lemma_members_push(Seq::empty(), first);
    lemma_members_push(Seq::empty().push(first), second);
    assert(members_text(members) == first.text() + seq![','] + second.text());
    assert(layout.text() =~= state_text(temperature, pressure));
    assert(members_value(members) =~= seq![
        ("temperature"@, Json::Number(temperature)),
        ("pressure"@, Json::Number(pressure)),
    ]);
    assert(layout.value() == state_document(temperature, pressure));
    assert forall|i: int| 0 <= i < members.len() implies (#[trigger] members[i]).well_formed() by {
        if i == 0 {
        } else {
        }
    }
    assert(layout.well_formed());
}

} // verus!
