//! Writing JSON text piece by piece: blanks, quoted strings, and the start
//! of a member.

use crate::json::syntax::{is_blank, is_plain, lemma_blank_concat, quoted, Element, Member, Syntax};
use vstd::prelude::*;
use vstd::string::*;

verus! {

/// `n` spaces.
pub open spec fn spaces(n: nat) -> Seq<char> {
    Seq::new(n, |i: int| ' ')
}

/// A line feed and `n` spaces.
pub open spec fn line(n: nat) -> Seq<char> {
    seq!['\n'] + spaces(n)
}

/// The start of a member on a line of its own: a line feed, `indent` spaces,
/// the quoted name and a colon.
pub open spec fn member_head(indent: nat, name: Seq<char>) -> Seq<char> {
    line(indent) + quoted(name) + ":"@
}

/// A member on a line of its own: `before`, a line feed and `indent` spaces,
/// the name, the colon, then `lead`, the value and `trail`.
pub open spec fn member_on_line(
    before: Seq<char>,
    indent: nat,
    name: Seq<char>,
    lead: Seq<char>,
    value: Syntax,
    trail: Seq<char>,
) -> Member {
    Member {
        lead: before + line(indent),
        name,
        gap: Seq::empty(),
        element: Element { lead, value, trail },
    }
}

/// Spaces and line feeds are blanks.
pub proof fn lemma_spaces_are_blank(n: nat)
    ensures
        is_blank(spaces(n)),
        is_blank(line(n)),
{
}

/// The text of a member on a line of its own, written out.
pub proof fn lemma_member_on_line(
    before: Seq<char>,
    indent: nat,
    name: Seq<char>,
    lead: Seq<char>,
    value: Syntax,
    trail: Seq<char>,
)
    ensures
        member_on_line(before, indent, name, lead, value, trail).text() == before + member_head(
            indent,
            name,
        ) + lead + value.text() + trail,
        member_on_line(before, indent, name, lead, value, trail).value() == (name, value.value()),
        is_blank(before) && is_plain(name) && is_blank(lead) && value.well_formed() && is_blank(
            trail,
        ) ==> member_on_line(before, indent, name, lead, value, trail).well_formed(),
{
    reveal_strlit(":");
    let member = member_on_line(before, indent, name, lead, value, trail);
    assert(member.text() =~= before + member_head(indent, name) + lead + value.text() + trail);
    lemma_spaces_are_blank(indent);
    if is_blank(before) {
        lemma_blank_concat(before, line(indent));
    }
}

/// Appends `n` spaces to `out`.
pub fn push_spaces(out: &mut String, n: usize)
    ensures
        final(out)@ == old(out)@ + spaces(n as nat),
{
    let mut written: usize = 0;
    assert(out@ =~= old(out)@ + spaces(0));
    while written < n
        invariant
            written <= n,
            out@ == old(out)@ + spaces(written as nat),
        decreases n - written,
    {
        out.append(" ");
        proof {
            reveal_strlit(" ");
            assert(out@ =~= old(out)@ + spaces((written + 1) as nat));
        }
        written += 1;
    }
}

/// Appends a line feed and `indent` spaces to `out`.
pub fn push_line(out: &mut String, indent: usize)
    ensures
        final(out)@ == old(out)@ + line(indent as nat),
{
    out.append("\n");
    push_spaces(out, indent);
    proof {
        reveal_strlit("\n");
        assert(out@ =~= old(out)@ + line(indent as nat));
    }
}

/// Appends `s` between double quotes to `out`, as it is.
pub fn push_quoted(out: &mut String, s: &str)
    ensures
        final(out)@ == old(out)@ + quoted(s@),
{
    out.append("\"");
    out.append(s);
    out.append("\"");
    proof {
        reveal_strlit("\"");
        assert(out@ =~= old(out)@ + quoted(s@));
    }
}

/// Appends the start of a member to `out`.
pub fn push_member_head(out: &mut String, indent: usize, name: &str)
    ensures
        final(out)@ == old(out)@ + member_head(indent as nat, name@),
{
    push_line(out, indent);
    push_quoted(out, name);
    out.append(":");
    assert(out@ =~= old(out)@ + member_head(indent as nat, name@));
}

} // verus!
