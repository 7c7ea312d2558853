//! The shape of the printed text: indentation, and the brackets, commas and
//! line breaks around the members of an array or an object.

use vstd::prelude::*;

verus! {

/// `text` with two spaces added after each of its line breaks.
pub open spec fn indented(text: Seq<char>) -> Seq<char>
    decreases text.len(),
{
    if text.len() == 0 {
        Seq::empty()
    } else if text.last() == '\n' {
        indented(text.drop_last()) + seq!['\n', ' ', ' ']
    } else {
        indented(text.drop_last()).push(text.last())
    }
}

/// Pushes a nested text one level to the right: every line break in it is
/// followed by two more spaces.
pub fn indent(text: &str) -> (r: String)
    ensures
        r@ == indented(text@),
{
    let mut out = String::new();
    for c in it: text.chars()
        invariant
            it.seq() == text@,
            out@ == indented(text@.take(it.index() as int)),
    {
        proof {
            let i = it.index() as int;
            assert(text@.take(i + 1).drop_last() == text@.take(i));
            assert(text@.take(i + 1).last() == c);
        }
        if c == '\n' {
            out.push('\n');
            out.push(' ');
            out.push(' ');
        } else {
            out.push(c);
        }
    }
    proof {
        assert(text@.take(text@.len() as int) == text@);
    }
    out
}

/// Lines set one below the other, with a comma after each but the last.
pub open spec fn stacked(lines: Seq<Seq<char>>) -> Seq<char>
    decreases lines.len(),
{
    if lines.len() == 0 {
        Seq::empty()
    } else if lines.len() == 1 {
        lines[0]
    } else {
        stacked(lines.drop_last()) + seq![',', '\n'] + lines.last()
    }
}

/// The line of one array element: two spaces, then the element's text pushed
/// one level to the right.
pub open spec fn array_line(part: Seq<char>) -> Seq<char> {
    seq![' ', ' '] + indented(part)
}

/// The line of one object member: two spaces, the key in double quotes, a
/// colon and a space, then the member's text pushed one level to the right.
pub open spec fn object_line(key: Seq<char>, part: Seq<char>) -> Seq<char> {
    seq![' ', ' ', '"'] + key + seq!['"', ':', ' '] + indented(part)
}

/// The lines of an array, one for each rendered element.
pub open spec fn array_lines(parts: Seq<Seq<char>>) -> Seq<Seq<char>> {
    Seq::new(parts.len(), |i: int| array_line(parts[i]))
}

/// The lines of an object, one for each rendered member.
pub open spec fn object_lines(members: Seq<(Seq<char>, Seq<char>)>) -> Seq<Seq<char>> {
    Seq::new(members.len(), |i: int| object_line(members[i].0, members[i].1))
}

/// The text of an array whose elements are already rendered as `parts`: an
/// opening bracket, the lines of the elements, and a closing bracket on a
/// line of its own.
pub open spec fn array_text(parts: Seq<Seq<char>>) -> Seq<char> {
    seq!['[', '\n'] + stacked(array_lines(parts)) + seq!['\n', ']']
}

/// The text of an object whose keys and values are already rendered as
/// `members`: an opening brace, the lines of the members, and a closing
/// brace on a line of its own.
pub open spec fn object_text(members: Seq<(Seq<char>, Seq<char>)>) -> Seq<char> {
    seq!['{', '\n'] + stacked(object_lines(members)) + seq!['\n', '}']
}

/// Sets rendered elements out as an array: an opening bracket, one indented
/// line for each element with commas between them, and a closing bracket on
/// a line of its own. Without elements the two brackets enclose one empty
/// line.
pub fn layout_array(parts: &Vec<String>) -> (r: String)
    ensures
        r@ == array_text(parts.deep_view()),
{
    let ghost lines = array_lines(parts.deep_view());
    let mut out = String::from_str("[\n");
    proof {
        reveal_strlit("[\n");
        assert(out@ == seq!['[', '\n'] + stacked(lines.take(0)));
    }
    let mut i: usize = 0;
    while i < parts.len()
        invariant
            i <= parts.len(),
            lines == array_lines(parts.deep_view()),
            out@ == seq!['[', '\n'] + stacked(lines.take(i as int)),
        decreases parts.len() - i,
    {
        if i > 0 {
            out.append(",\n");
        }
        out.append("  ");
        let inner = indent(parts[i].as_str());
        out.append(inner.as_str());
        proof {
            let next = lines.take(i + 1);
            assert(next.drop_last() == lines.take(i as int));
            assert(next.last() == seq![' ', ' '] + inner@);
            reveal_strlit(",\n");
            reveal_strlit("  ");
        }
        i += 1;
    }
    out.append("\n]");
    proof {
        reveal_strlit("\n]");
        assert(lines.take(i as int) == lines);
    }
    out
}

/// Sets rendered members out as an object: an opening brace, one indented
/// line for each member (the key in double quotes, a colon, a space, the
/// value) with commas between them, and a closing brace on a line of its
/// own. Without members the two braces enclose one empty line.
pub fn layout_object(members: &Vec<(String, String)>) -> (r: String)
    ensures
        r@ == object_text(members.deep_view()),
{
    let ghost lines = object_lines(members.deep_view());
    let mut out = String::from_str("{\n");
    proof {
        reveal_strlit("{\n");
        assert(out@ == seq!['{', '\n'] + stacked(lines.take(0)));
    }
    let mut i: usize = 0;
    while i < members.len()
        invariant
            i <= members.len(),
            lines == object_lines(members.deep_view()),
            out@ == seq!['{', '\n'] + stacked(lines.take(i as int)),
        decreases members.len() - i,
    {
        if i > 0 {
            out.append(",\n");
        }
        out.append("  \"");
        out.append(members[i].0.as_str());
        out.append("\": ");
        let inner = indent(members[i].1.as_str());
        out.append(inner.as_str());
        proof {
            let next = lines.take(i + 1);
            assert(next.drop_last() == lines.take(i as int));
            assert(next.last() == seq![' ', ' ', '"'] + members[i as int].0@ + seq!['"', ':', ' ']
                + inner@);
            reveal_strlit(",\n");
            reveal_strlit("  \"");
            reveal_strlit("\": ");
        }
        i += 1;
    }
    out.append("\n}");
    proof {
        reveal_strlit("\n}");
        assert(lines.take(i as int) == lines);
    }
    out
}

} // verus!
