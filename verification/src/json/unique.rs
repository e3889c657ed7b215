//! A JSON text encodes one value only.

use crate::json::number::{is_digit, is_number, splits_as_number};
use crate::json::syntax::{
    elements_text, elements_value, encodes, is_blank, is_blank_char, is_plain, members_text,
    members_value, quoted, says, Element, Json, Member, Syntax,
};
use vstd::prelude::*;

verus! {

/// A character that a number can hold.
spec fn is_number_char(c: char) -> bool {
    is_digit(c) || c == '-' || c == '+' || c == '.' || c == 'e' || c == 'E'
}

/// Every character of `s` is one that a number can hold.
spec fn is_number_chars(s: Seq<char>) -> bool {
    forall|i: int| 0 <= i < s.len() ==> is_number_char(#[trigger] s[i])
}

/// `rest` does not carry a number on.
spec fn ends_number(rest: Seq<char>) -> bool {
    rest.len() == 0 || !is_number_char(rest[0])
}

/// Blanks in front of something that is not blank can be told from it.
proof fn lemma_blank_prefix(a: Seq<char>, x: Seq<char>, b: Seq<char>, y: Seq<char>)
    requires
        is_blank(a),
        is_blank(b),
        a + x == b + y,
        x.len() > 0,
        !is_blank_char(x[0]),
        y.len() > 0,
        !is_blank_char(y[0]),
    ensures
        a == b,
        x == y,
{
    let whole = a + x;
    if a.len() < b.len() {
        assert(whole[a.len() as int] == x[0]);
        assert((b + y)[a.len() as int] == b[a.len() as int]);
    }
    if b.len() < a.len() {
        assert((b + y)[b.len() as int] == y[0]);
        assert(whole[b.len() as int] == a[b.len() as int]);
    }
    assert(a.len() == b.len());
    assert forall|i: int| 0 <= i < a.len() implies a[i] == b[i] by {
        assert(whole[i] == a[i]);
        assert((b + y)[i] == b[i]);
    }
    assert(a =~= b);
    assert(x.len() == y.len()) by {
        assert(whole.len() == a.len() + x.len());
        assert((b + y).len() == b.len() + y.len());
    }
    assert forall|i: int| 0 <= i < x.len() implies x[i] == y[i] by {
        assert(whole[a.len() + i] == x[i]);
        assert((b + y)[b.len() + i] == y[i]);
    }
    assert(x =~= y);
}

/// A quoted string ends at its second quote.
proof fn lemma_quoted_prefix(p: Seq<char>, x: Seq<char>, q: Seq<char>, y: Seq<char>)
    requires
        is_plain(p),
        is_plain(q),
        quoted(p) + x == quoted(q) + y,
    ensures
        p == q,
        x == y,
{
    let left = quoted(p) + x;
    let right = quoted(q) + y;
    let pl = p.len() as int;
    let ql = q.len() as int;
    assert(quoted(p).len() == pl + 2);
    assert(quoted(q).len() == ql + 2);
    assert forall|i: int| 0 <= i < pl implies left[i + 1] == p[i] by {
        assert(quoted(p)[i + 1] == p[i]);
    }
    assert forall|i: int| 0 <= i < ql implies right[i + 1] == q[i] by {
        assert(quoted(q)[i + 1] == q[i]);
    }
    assert(left[pl + 1] == '"') by {
        assert(quoted(p)[pl + 1] == '"');
    }
    assert(right[ql + 1] == '"') by {
        assert(quoted(q)[ql + 1] == '"');
    }
    if pl < ql {
        assert(right[pl + 1] == q[pl]);
    }
    if ql < pl {
        assert(left[ql + 1] == p[ql]);
    }
    assert(pl == ql);
    assert(p =~= q);
    assert(x.len() == y.len()) by {
        assert(left.len() == quoted(p).len() + x.len());
        assert(right.len() == quoted(q).len() + y.len());
    }
    assert forall|i: int| 0 <= i < x.len() implies x[i] == y[i] by {
        assert(left[pl + 2 + i] == x[i]);
        assert(right[ql + 2 + i] == y[i]);
    }
    assert(x =~= y);
}

/// A number ends where what a number can hold ends.
proof fn lemma_number_prefix(n: Seq<char>, x: Seq<char>, m: Seq<char>, y: Seq<char>)
    requires
        is_number_chars(n),
        is_number_chars(m),
        ends_number(x),
        ends_number(y),
        n + x == m + y,
    ensures
        n == m,
        x == y,
{
    let left = n + x;
    let right = m + y;
    assert(left.len() == n.len() + x.len());
    assert(right.len() == m.len() + y.len());
    if n.len() < m.len() {
        assert(right[n.len() as int] == m[n.len() as int]);
        assert(x.len() > 0);
        assert(left[n.len() as int] == x[0]);
    }
    if m.len() < n.len() {
        assert(left[m.len() as int] == n[m.len() as int]);
        assert(y.len() > 0);
        assert(right[m.len() as int] == y[0]);
    }
    assert(n.len() == m.len());
    assert forall|i: int| 0 <= i < n.len() implies n[i] == m[i] by {
        assert(left[i] == n[i]);
        assert(right[i] == m[i]);
    }
    assert(n =~= m);
    assert forall|i: int| 0 <= i < x.len() implies x[i] == y[i] by {
        assert(left[n.len() + i] == x[i]);
        assert(right[m.len() + i] == y[i]);
    }
    assert(x =~= y);
}

/// A number is not empty, starts with a minus or a digit, and holds nothing
/// but what a number can hold.
proof fn lemma_number_chars(n: Seq<char>)
    requires
        is_number(n),
    ensures
        n.len() > 0,
        n[0] == '-' || is_digit(n[0]),
        is_number_chars(n),
{
    let (i, j, k) = choose|i: int, j: int, k: int| splits_as_number(n, i, j, k);
    let len = n.len() as int;
    let sign = n.subrange(0, i);
    let integer = n.subrange(i, j);
    let fraction = n.subrange(j, k);
    let exponent = n.subrange(k, len);
    assert(integer[0] == n[i]);
    if i == 1 {
        assert(sign[0] == n[0]);
    }
    assert forall|t: int| 0 <= t < len implies is_number_char(#[trigger] n[t]) by {
        if t < i {
            assert(sign[t] == n[t]);
        } else if t < j {
            assert(integer[t - i] == n[t]);
        } else if t < k {
            assert(fraction[t - j] == n[t]);
            if t > j {
                assert(fraction.skip(1)[t - j - 1] == n[t]);
            }
        } else {
            assert(exponent[t - k] == n[t]);
            if t > k {
                assert(exponent.skip(1)[t - k - 1] == n[t]);
            }
            if t > k + 1 {
                assert(exponent.skip(2)[t - k - 2] == n[t]);
            }
        }
    }
}

/// What a value's text starts with tells what kind of value it is; it is
/// never a blank.
proof fn lemma_syntax_starts(s: Syntax)
    requires
        s.well_formed(),
    ensures
        s.text().len() > 0,
        !is_blank_char(s.text()[0]),
        s is Text <==> s.text()[0] == '"',
        s is List <==> s.text()[0] == '[',
        s is Object <==> s.text()[0] == '{',
        s is Number <==> s.text()[0] == '-' || is_digit(s.text()[0]),
{
    match s {
        Syntax::Text(p) => {
            assert(s.text()[0] == '"');
        },
        Syntax::Number(n) => {
            lemma_number_chars(n);
        },
        Syntax::List(elements) => {
            assert(s.text()[0] == '[');
        },
        Syntax::Object(members) => {
            assert(s.text()[0] == '{');
        },
    }
}

/// An element's text starts with a blank or with what starts a value.
proof fn lemma_element_starts(e: Element)
    requires
        e.well_formed(),
    ensures
        e.text().len() > 0,
        e.text()[0] != ']',
        e.text()[0] != '}',
        e.text()[0] != ',',
{
    lemma_syntax_starts(e.value);
    let body = e.value.text();
    if e.lead.len() > 0 {
        assert(e.text()[0] == e.lead[0]);
    } else {
        assert(e.text()[0] == body[0]);
    }
}

/// The elements' text and values, taken from the front.
proof fn lemma_elements_from_front(elements: Seq<Element>)
    requires
        elements.len() > 0,
    ensures
        elements_text(elements) == if elements.len() == 1 {
            elements[0].text()
        } else {
            elements[0].text() + seq![','] + elements_text(elements.drop_first())
        },
        elements_value(elements) == seq![elements[0].value()] + elements_value(
            elements.drop_first(),
        ),
    decreases elements.len(),
{
    let rest = elements.drop_first();
    if elements.len() == 1 {
        assert(elements.drop_last() =~= Seq::<Element>::empty());
        assert(rest =~= Seq::<Element>::empty());
        assert(elements_value(elements) =~= seq![elements[0].value()] + elements_value(rest));
    } else {
        let front = elements.drop_last();
        lemma_elements_from_front(front);
        assert(front.drop_first() =~= rest.drop_last());
        assert(front[0] == elements[0]);
        assert(rest.last() == elements.last());
        assert(elements_value(elements) =~= seq![elements[0].value()] + elements_value(rest));
        if elements.len() == 2 {
            assert(rest.len() == 1);
            assert(rest[0] == elements.last());
        } else {
            assert(elements_text(elements) =~= elements[0].text() + seq![','] + elements_text(
                rest,
            ));
        }
    }
}

/// The members' text and values, taken from the front.
proof fn lemma_members_from_front(members: Seq<Member>)
    requires
        members.len() > 0,
    ensures
        members_text(members) == if members.len() == 1 {
            members[0].text()
        } else {
            members[0].text() + seq![','] + members_text(members.drop_first())
        },
        members_value(members) == seq![members[0].value()] + members_value(members.drop_first()),
    decreases members.len(),
{
    let rest = members.drop_first();
    if members.len() == 1 {
        assert(members.drop_last() =~= Seq::<Member>::empty());
        assert(rest =~= Seq::<Member>::empty());
        assert(members_value(members) =~= seq![members[0].value()] + members_value(rest));
    } else {
        let front = members.drop_last();
        lemma_members_from_front(front);
        assert(front.drop_first() =~= rest.drop_last());
        assert(front[0] == members[0]);
        assert(rest.last() == members.last());
        assert(members_value(members) =~= seq![members[0].value()] + members_value(rest));
        if members.len() == 2 {
            assert(rest.len() == 1);
            assert(rest[0] == members.last());
        } else {
            assert(members_text(members) =~= members[0].text() + seq![','] + members_text(rest));
        }
    }
}

/// What can follow an element inside an array or an object: something that
/// starts with neither a blank nor what a number can hold.
spec fn closes(tail: Seq<char>) -> bool {
    tail.len() > 0 && !is_blank_char(tail[0]) && !is_number_char(tail[0])
}

/// Two values whose texts, each with something after it that carries no
/// number on, read the same are the same value, with the same after them.
proof fn lemma_syntax_unique(a: Syntax, x: Seq<char>, b: Syntax, y: Seq<char>)
    requires
        a.well_formed(),
        b.well_formed(),
        ends_number(x),
        ends_number(y),
        a.text() + x == b.text() + y,
    ensures
        a.value() == b.value(),
        x == y,
    decreases a,
{
    lemma_syntax_starts(a);
    lemma_syntax_starts(b);
    let left = a.text() + x;
    let right = b.text() + y;
    assert(left[0] == a.text()[0]);
    assert(right[0] == b.text()[0]);
    match (a, b) {
        (Syntax::Text(p), Syntax::Text(q)) => {
            lemma_quoted_prefix(p, x, q, y);
        },
        (Syntax::Number(n), Syntax::Number(m)) => {
            lemma_number_chars(n);
            lemma_number_chars(m);
            lemma_number_prefix(n, x, m, y);
        },
        (Syntax::List(ea), Syntax::List(eb)) => {
            let close_x = seq![']'] + x;
            let close_y = seq![']'] + y;
            assert(left.drop_first() =~= elements_text(ea) + close_x);
            assert(right.drop_first() =~= elements_text(eb) + close_y);
            if ea.len() > 0 {
                lemma_elements_from_front(ea);
                lemma_element_starts(ea[0]);
                assert((elements_text(ea) + close_x)[0] == ea[0].text()[0]);
            }
            if eb.len() > 0 {
                lemma_elements_from_front(eb);
                lemma_element_starts(eb[0]);
                assert((elements_text(eb) + close_y)[0] == eb[0].text()[0]);
            }
            if ea.len() == 0 {
                assert((elements_text(ea) + close_x)[0] == ']');
            }
            if eb.len() == 0 {
                assert((elements_text(eb) + close_y)[0] == ']');
            }
            if ea.len() == 0 {
                assert(eb.len() == 0);
                assert(ea =~= eb);
                assert(x =~= (elements_text(ea) + close_x).drop_first());
                assert(y =~= (elements_text(eb) + close_y).drop_first());
            } else {
                lemma_elements_unique(ea, x, eb, y);
            }
        },
        (Syntax::Object(ma), Syntax::Object(mb)) => {
            let close_x = seq!['}'] + x;
            let close_y = seq!['}'] + y;
            assert(left.drop_first() =~= members_text(ma) + close_x);
            assert(right.drop_first() =~= members_text(mb) + close_y);
            if ma.len() > 0 {
                lemma_members_from_front(ma);
                lemma_member_starts(ma[0]);
                assert((members_text(ma) + close_x)[0] == ma[0].text()[0]);
            }
            if mb.len() > 0 {
                lemma_members_from_front(mb);
                lemma_member_starts(mb[0]);
                assert((members_text(mb) + close_y)[0] == mb[0].text()[0]);
            }
            if ma.len() == 0 {
                assert((members_text(ma) + close_x)[0] == '}');
            }
            if mb.len() == 0 {
                assert((members_text(mb) + close_y)[0] == '}');
            }
            if ma.len() == 0 {
                assert(mb.len() == 0);
                assert(ma =~= mb);
                assert(x =~= (members_text(ma) + close_x).drop_first());
                assert(y =~= (members_text(mb) + close_y).drop_first());
            } else {
                lemma_members_unique(ma, x, mb, y);
            }
        },
        _ => {},
    }
}

/// Two elements, each with the same kind of thing after it, that read the
/// same hold the same value, with the same after them.
proof fn lemma_element_unique(a: Element, x: Seq<char>, b: Element, y: Seq<char>)
    requires
        a.well_formed(),
        b.well_formed(),
        closes(x),
        closes(y),
        a.text() + x == b.text() + y,
    ensures
        a.value() == b.value(),
        x == y,
    decreases a,
{
    lemma_syntax_starts(a.value);
    lemma_syntax_starts(b.value);
    let after_a = a.trail + x;
    let after_b = b.trail + y;
    let from_a = a.value.text() + after_a;
    let from_b = b.value.text() + after_b;
    assert(a.text() + x =~= a.lead + from_a);
    assert(b.text() + y =~= b.lead + from_b);
    assert(from_a[0] == a.value.text()[0]);
    assert(from_b[0] == b.value.text()[0]);
    lemma_blank_prefix(a.lead, from_a, b.lead, from_b);
    assert(ends_number(after_a)) by {
        if a.trail.len() > 0 {
            assert(after_a[0] == a.trail[0]);
        } else {
            assert(after_a[0] == x[0]);
        }
    }
    assert(ends_number(after_b)) by {
        if b.trail.len() > 0 {
            assert(after_b[0] == b.trail[0]);
        } else {
            assert(after_b[0] == y[0]);
        }
    }
    lemma_syntax_unique(a.value, after_a, b.value, after_b);
    lemma_blank_prefix(a.trail, x, b.trail, y);
}

/// Two rows of elements, each up to the closing bracket, that read the same
/// hold the same values, with the same after the bracket.
proof fn lemma_elements_unique(a: Seq<Element>, x: Seq<char>, b: Seq<Element>, y: Seq<char>)
    requires
        a.len() > 0,
        forall|i: int| 0 <= i < a.len() ==> (#[trigger] a[i]).well_formed(),
        forall|i: int| 0 <= i < b.len() ==> (#[trigger] b[i]).well_formed(),
        elements_text(a) + (seq![']'] + x) == elements_text(b) + (seq![']'] + y),
        b.len() > 0,
    ensures
        elements_value(a) == elements_value(b),
        x == y,
    decreases a,
{
    lemma_elements_from_front(a);
    lemma_elements_from_front(b);
    let close_x = seq![']'] + x;
    let close_y = seq![']'] + y;
    let rest_a = a.drop_first();
    let rest_b = b.drop_first();
    let tail_a = if a.len() == 1 {
        close_x
    } else {
        seq![','] + (elements_text(rest_a) + close_x)
    };
    let tail_b = if b.len() == 1 {
        close_y
    } else {
        seq![','] + (elements_text(rest_b) + close_y)
    };
    assert(elements_text(a) + close_x =~= a[0].text() + tail_a);
    assert(elements_text(b) + close_y =~= b[0].text() + tail_b);
    assert(tail_a[0] == if a.len() == 1 { ']' } else { ',' });
    assert(tail_b[0] == if b.len() == 1 { ']' } else { ',' });
    lemma_element_unique(a[0], tail_a, b[0], tail_b);
    if a.len() == 1 {
        assert(b.len() == 1);
        assert(x =~= close_x.drop_first());
        assert(y =~= close_y.drop_first());
        assert(rest_a =~= rest_b);
    } else {
        assert(b.len() > 1);
        assert(elements_text(rest_a) + close_x =~= tail_a.drop_first());
        assert(elements_text(rest_b) + close_y =~= tail_b.drop_first());
        assert forall|i: int| 0 <= i < rest_a.len() implies (#[trigger] rest_a[i]).well_formed(
        ) by {
            assert(rest_a[i] == a[i + 1]);
        }
        assert forall|i: int| 0 <= i < rest_b.len() implies (#[trigger] rest_b[i]).well_formed(
        ) by {
            assert(rest_b[i] == b[i + 1]);
        }
        lemma_elements_unique(rest_a, x, rest_b, y);
    }
}

/// A member's text starts with a blank or a quote.
proof fn lemma_member_starts(m: Member)
    requires
        m.well_formed(),
    ensures
        m.text().len() > 0,
        m.text()[0] != '}',
{
    let name = quoted(m.name);
    assert(name[0] == '"');
    if m.lead.len() > 0 {
        assert(m.text()[0] == m.lead[0]);
    } else {
        assert(m.text()[0] == name[0]);
    }
}

/// Two members, each with the same kind of thing after it, that read the
/// same have the same name and value, with the same after them.
proof fn lemma_member_unique(a: Member, x: Seq<char>, b: Member, y: Seq<char>)
    requires
        a.well_formed(),
        b.well_formed(),
        closes(x),
        closes(y),
        a.text() + x == b.text() + y,
    ensures
        a.value() == b.value(),
        x == y,
    decreases a,
{
    let element_a = a.element.text() + x;
    let element_b = b.element.text() + y;
    let colon_a = seq![':'] + element_a;
    let colon_b = seq![':'] + element_b;
    let gap_a = a.gap + colon_a;
    let gap_b = b.gap + colon_b;
    let name_a = quoted(a.name) + gap_a;
    let name_b = quoted(b.name) + gap_b;
    assert(a.text() + x =~= a.lead + name_a);
    assert(b.text() + y =~= b.lead + name_b);
    assert(name_a[0] == '"') by {
        assert(quoted(a.name)[0] == '"');
    }
    assert(name_b[0] == '"') by {
        assert(quoted(b.name)[0] == '"');
    }
    lemma_blank_prefix(a.lead, name_a, b.lead, name_b);
    lemma_quoted_prefix(a.name, gap_a, b.name, gap_b);
    assert(colon_a[0] == ':');
    assert(colon_b[0] == ':');
    lemma_blank_prefix(a.gap, colon_a, b.gap, colon_b);
    assert(element_a =~= colon_a.drop_first());
    assert(element_b =~= colon_b.drop_first());
    lemma_element_unique(a.element, x, b.element, y);
}

/// Two rows of members, each up to the closing brace, that read the same
/// have the same names and values, with the same after the brace.
proof fn lemma_members_unique(a: Seq<Member>, x: Seq<char>, b: Seq<Member>, y: Seq<char>)
    requires
        a.len() > 0,
        forall|i: int| 0 <= i < a.len() ==> (#[trigger] a[i]).well_formed(),
        forall|i: int| 0 <= i < b.len() ==> (#[trigger] b[i]).well_formed(),
        members_text(a) + (seq!['}'] + x) == members_text(b) + (seq!['}'] + y),
        b.len() > 0,
    ensures
        members_value(a) == members_value(b),
        x == y,
    decreases a,
{
    lemma_members_from_front(a);
    lemma_members_from_front(b);
    let close_x = seq!['}'] + x;
    let close_y = seq!['}'] + y;
    let rest_a = a.drop_first();
    let rest_b = b.drop_first();
    let tail_a = if a.len() == 1 {
        close_x
    } else {
        seq![','] + (members_text(rest_a) + close_x)
    };
    let tail_b = if b.len() == 1 {
        close_y
    } else {
        seq![','] + (members_text(rest_b) + close_y)
    };
    assert(members_text(a) + close_x =~= a[0].text() + tail_a);
    assert(members_text(b) + close_y =~= b[0].text() + tail_b);
    assert(tail_a[0] == if a.len() == 1 { '}' } else { ',' });
    assert(tail_b[0] == if b.len() == 1 { '}' } else { ',' });
    lemma_member_unique(a[0], tail_a, b[0], tail_b);
    if a.len() == 1 {
        assert(b.len() == 1);
        assert(x =~= close_x.drop_first());
        assert(y =~= close_y.drop_first());
        assert(rest_a =~= rest_b);
    } else {
        assert(b.len() > 1);
        assert(members_text(rest_a) + close_x =~= tail_a.drop_first());
        assert(members_text(rest_b) + close_y =~= tail_b.drop_first());
        assert forall|i: int| 0 <= i < rest_a.len() implies (#[trigger] rest_a[i]).well_formed(
        ) by {
            assert(rest_a[i] == a[i + 1]);
        }
        assert forall|i: int| 0 <= i < rest_b.len() implies (#[trigger] rest_b[i]).well_formed(
        ) by {
            assert(rest_b[i] == b[i + 1]);
        }
        lemma_members_unique(rest_a, x, rest_b, y);
    }
}

/// Two documents that read the same hold the same value.
pub proof fn lemma_document_is_unique(a: Element, b: Element)
    requires
        a.well_formed(),
        b.well_formed(),
        a.text() == b.text(),
    ensures
        a.value() == b.value(),
{
    lemma_syntax_starts(a.value);
    lemma_syntax_starts(b.value);
    let from_a = a.value.text() + a.trail;
    let from_b = b.value.text() + b.trail;
    assert(a.text() =~= a.lead + from_a);
    assert(b.text() =~= b.lead + from_b);
    assert(from_a[0] == a.value.text()[0]);
    assert(from_b[0] == b.value.text()[0]);
    lemma_blank_prefix(a.lead, from_a, b.lead, from_b);
    lemma_syntax_unique(a.value, a.trail, b.value, b.trail);
}

/// A text encodes at most one value.
pub proof fn lemma_encoding_is_unique(text: Seq<char>, first: Json, second: Json)
    requires
        encodes(text, first),
        encodes(text, second),
    ensures
        first == second,
{
    let a = choose|document: Element|
        #![trigger document.text()]
        document.well_formed() && document.text() == text && document.value() == first;
    let b = choose|document: Element|
        #![trigger document.text()]
        document.well_formed() && document.text() == text && document.value() == second;
    lemma_document_is_unique(a, b);
}

/// What a text encodes is the one thing it says.
pub proof fn lemma_encoding_says(text: Seq<char>, value: Json)
    requires
        encodes(text, value),
    ensures
        says(text, value),
{
    assert forall|other: Json| encodes(text, other) implies other == value by {
        lemma_encoding_is_unique(text, value, other);
    }
}

} // verus!
