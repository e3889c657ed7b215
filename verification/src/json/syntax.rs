//! JSON values, the concrete syntax that spells a value out (blanks
//! included), and the relation between a text and the value it encodes.
//!
//! The syntax covers the part of JSON that the payloads of this crate use:
//! objects, arrays, numbers, and strings without escape sequences. Every
//! text that has a well-formed syntax tree here is a JSON text.

use crate::json::number::is_number;
use vstd::prelude::*;

verus! {

/// A JSON value. A number is kept as its literal, digit for digit.
pub enum Json {
    Text(Seq<char>),
    Number(Seq<char>),
    List(Seq<Json>),
    Object(Seq<(Seq<char>, Json)>),
}

impl Json {
    /// The value of the first member that goes by `name`, where this is an
    /// object and has one.
    pub open spec fn member(self, name: Seq<char>) -> Option<Json> {
        match self {
            Json::Object(members) => first_named(members, name, 0),
            _ => None,
        }
    }
}

/// The value of the first of `members`, from index `from` on, that goes by
/// `name`.
pub open spec fn first_named(
    members: Seq<(Seq<char>, Json)>,
    name: Seq<char>,
    from: int,
) -> Option<Json>
    decreases members.len() - from,
{
    if from < 0 || from >= members.len() {
        None
    } else if members[from].0 == name {
        Some(members[from].1)
    } else {
        first_named(members, name, from + 1)
    }
}

/// The concrete syntax of a value.
pub enum Syntax {
    Text(Seq<char>),
    Number(Seq<char>),
    List(Seq<Element>),
    Object(Seq<Member>),
}

/// A value with the blanks before and after it.
pub struct Element {
    pub lead: Seq<char>,
    pub value: Syntax,
    pub trail: Seq<char>,
}

/// A member of an object: blanks, the quoted name, blanks, a colon, the element.
pub struct Member {
    pub lead: Seq<char>,
    pub name: Seq<char>,
    pub gap: Seq<char>,
    pub element: Element,
}

/// The four characters that JSON accepts between tokens.
pub open spec fn is_blank_char(c: char) -> bool {
    c == ' ' || c == '\n' || c == '\r' || c == '\t'
}

pub open spec fn is_blank(s: Seq<char>) -> bool {
    forall|i: int| 0 <= i < s.len() ==> is_blank_char(#[trigger] s[i])
}

/// A character that may stand in a JSON string as it is: no quote, no
/// backslash, no control character.
pub open spec fn is_plain_char(c: char) -> bool {
    c != '"' && c != '\\' && c >= ' '
}

/// A string that needs no escaping between quotes.
pub open spec fn is_plain(s: Seq<char>) -> bool {
    forall|i: int| 0 <= i < s.len() ==> is_plain_char(#[trigger] s[i])
}

/// A string between double quotes.
pub open spec fn quoted(s: Seq<char>) -> Seq<char> {
    seq!['"'] + s + seq!['"']
}

impl Syntax {
    /// The characters that spell this value out.
    pub open spec fn text(self) -> Seq<char>
        decreases self,
    {
        match self {
            Syntax::Text(s) => quoted(s),
            Syntax::Number(n) => n,
            Syntax::List(elements) => seq!['['] + elements_text(elements) + seq![']'],
            Syntax::Object(members) => seq!['{'] + members_text(members) + seq!['}'],
        }
    }

    /// The value that is spelled out.
    pub open spec fn value(self) -> Json
        decreases self,
    {
        match self {
            Syntax::Text(s) => Json::Text(s),
            Syntax::Number(n) => Json::Number(n),
            Syntax::List(elements) => Json::List(elements_value(elements)),
            Syntax::Object(members) => Json::Object(members_value(members)),
        }
    }

    /// Strings need no escaping, numbers follow the number grammar, and
    /// whatever stands between tokens is blank.
    pub open spec fn well_formed(self) -> bool
        decreases self,
    {
        match self {
            Syntax::Text(s) => is_plain(s),
            Syntax::Number(n) => is_number(n),
            Syntax::List(elements) => forall|i: int|
                0 <= i < elements.len() ==> (#[trigger] elements[i]).well_formed(),
            Syntax::Object(members) => forall|i: int|
                0 <= i < members.len() ==> (#[trigger] members[i]).well_formed(),
        }
    }
}

impl Element {
    pub open spec fn text(self) -> Seq<char>
        decreases self,
    {
        self.lead + self.value.text() + self.trail
    }

    pub open spec fn value(self) -> Json
        decreases self,
    {
        self.value.value()
    }

    pub open spec fn well_formed(self) -> bool
        decreases self,
    {
        is_blank(self.lead) && self.value.well_formed() && is_blank(self.trail)
    }
}

impl Member {
    pub open spec fn text(self) -> Seq<char>
        decreases self,
    {
        self.lead + quoted(self.name) + self.gap + seq![':'] + self.element.text()
    }

    pub open spec fn value(self) -> (Seq<char>, Json)
        decreases self,
    {
        (self.name, self.element.value())
    }

    pub open spec fn well_formed(self) -> bool
        decreases self,
    {
        is_blank(self.lead) && is_plain(self.name) && is_blank(self.gap)
            && self.element.well_formed()
    }
}

/// The elements of an array, with a comma between neighbours.
pub open spec fn elements_text(elements: Seq<Element>) -> Seq<char>
    decreases elements,
{
    if elements.len() == 0 {
        Seq::empty()
    } else if elements.len() == 1 {
        elements[0].text()
    } else {
        elements_text(elements.drop_last()) + seq![','] + elements.last().text()
    }
}

pub open spec fn elements_value(elements: Seq<Element>) -> Seq<Json>
    decreases elements,
{
    if elements.len() == 0 {
        Seq::empty()
    } else {
        elements_value(elements.drop_last()).push(elements.last().value())
    }
}

/// The members of an object, with a comma between neighbours.
pub open spec fn members_text(members: Seq<Member>) -> Seq<char>
    decreases members,
{
    if members.len() == 0 {
        Seq::empty()
    } else if members.len() == 1 {
        members[0].text()
    } else {
        members_text(members.drop_last()) + seq![','] + members.last().text()
    }
}

pub open spec fn members_value(members: Seq<Member>) -> Seq<(Seq<char>, Json)>
    decreases members,
{
    if members.len() == 0 {
        Seq::empty()
    } else {
        members_value(members.drop_last()).push(members.last().value())
    }
}

/// `text` is a JSON text whose value is `value`.
pub open spec fn encodes(text: Seq<char>, value: Json) -> bool {
    exists|document: Element|
        #![trigger document.text()]
        document.well_formed() && document.text() == text && document.value() == value
}

/// `text` is a JSON text, and `value` is the one thing it says.
pub open spec fn says(text: Seq<char>, value: Json) -> bool {
    encodes(text, value) && forall|other: Json| encodes(text, other) ==> other == value
}

/// The member at `at` is the one that a name finds where no earlier member
/// goes by that name.
pub proof fn lemma_member_at(members: Seq<(Seq<char>, Json)>, name: Seq<char>, at: int)
    requires
        0 <= at < members.len(),
        members[at].0 == name,
        forall|i: int| 0 <= i < at ==> (#[trigger] members[i]).0 != name,
    ensures
        Json::Object(members).member(name) == Some(members[at].1),
{
    lemma_first_named_from(members, name, at, 0);
}

/// As [`lemma_member_at`], for a search that starts at `from`.
proof fn lemma_first_named_from(members: Seq<(Seq<char>, Json)>, name: Seq<char>, at: int, from: int)
    requires
        0 <= from <= at < members.len(),
        members[at].0 == name,
        forall|i: int| 0 <= i < at ==> (#[trigger] members[i]).0 != name,
    ensures
        first_named(members, name, from) == Some(members[at].1),
    decreases at - from,
{
    if from < at {
        assert(members[from].0 != name);
        lemma_first_named_from(members, name, at, from + 1);
    }
}

/// Blanks joined to blanks are blanks.
pub proof fn lemma_blank_concat(a: Seq<char>, b: Seq<char>)
    requires
        is_blank(a),
        is_blank(b),
    ensures
        is_blank(a + b),
{
}

/// Plain strings joined are plain.
pub proof fn lemma_plain_concat(a: Seq<char>, b: Seq<char>)
    requires
        is_plain(a),
        is_plain(b),
    ensures
        is_plain(a + b),
{
}

/// One more member adds a comma and its text, and its name and value.
pub proof fn lemma_members_push(members: Seq<Member>, member: Member)
    ensures
        members_text(members.push(member)) == if members.len() == 0 {
            member.text()
        } else {
            members_text(members) + seq![','] + member.text()
        },
        members_value(members.push(member)) == members_value(members).push(member.value()),
{
    assert(members.push(member).drop_last() =~= members);
}

/// One more element adds a comma and its text, and its value.
pub proof fn lemma_elements_push(elements: Seq<Element>, element: Element)
    ensures
        elements_text(elements.push(element)) == if elements.len() == 0 {
            element.text()
        } else {
            elements_text(elements) + seq![','] + element.text()
        },
        elements_value(elements.push(element)) == elements_value(elements).push(element.value()),
{
    assert(elements.push(element).drop_last() =~= elements);
}

} // verus!
