//! The text of the inspector's debug panel: a value's debug output, broken
//! into one line for each piece between brackets, colons and commas.

use vstd::prelude::*;
use vstd::string::StringExecFns;

verus! {

/// Whether `c` is white space: one of the code points with the Unicode
/// property `White_Space`.
pub open spec fn is_blank(c: char) -> bool {
    let code = c as u32;
    ||| 0x09 <= code <= 0x0d
    ||| code == 0x20
    ||| code == 0x85
    ||| code == 0xa0
    ||| code == 0x1680
    ||| 0x2000 <= code <= 0x200a
    ||| code == 0x2028
    ||| code == 0x2029
    ||| code == 0x202f
    ||| code == 0x205f
    ||| code == 0x3000
}

/// Whether `c` is white space.
pub fn blank(c: char) -> (b: bool)
    ensures
        b == is_blank(c),
{
    let code: u32 = c as u32;
    (0x09 <= code && code <= 0x0d) || code == 0x20 || code == 0x85 || code == 0xa0 || code == 0x1680
        || (0x2000 <= code && code <= 0x200a) || code == 0x2028 || code == 0x2029 || code == 0x202f
        || code == 0x205f || code == 0x3000
}

/// Whether a piece ends at `c`: an opening or closing bracket, a colon or a
/// comma.
pub open spec fn is_break(c: char) -> bool {
    c == '(' || c == '{' || c == '[' || c == ':' || c == ',' || c == ')' || c == '}' || c == ']'
}

/// Whether a piece ends at `c`.
pub fn breaks(c: char) -> (b: bool)
    ensures
        b == is_break(c),
{
    c == '(' || c == '{' || c == '[' || c == ':' || c == ',' || c == ')' || c == '}' || c == ']'
}

/// `piece` without the white space at its two ends.
pub open spec fn trimmed(piece: Seq<char>) -> Seq<char>
    decreases piece.len(),
{
    if piece.len() == 0 {
        piece
    } else if is_blank(piece.first()) {
        trimmed(piece.drop_first())
    } else if is_blank(piece.last()) {
        trimmed(piece.drop_last())
    } else {
        piece
    }
}

/// The line that `piece` makes: nothing where it is blank, else what is
/// left of it after trimming, and a line feed.
pub open spec fn line_of(piece: Seq<char>) -> Seq<char> {
    let rest = trimmed(piece);
    if rest.len() == 0 {
        rest
    } else {
        rest.push('\n')
    }
}

/// The lines of `text`, read after the piece `pending` that has no end yet.
pub open spec fn lines_after(pending: Seq<char>, text: Seq<char>) -> Seq<char>
    decreases text.len(),
{
    if text.len() == 0 {
        line_of(pending)
    } else if is_break(text.first()) {
        line_of(pending) + lines_after(Seq::empty(), text.drop_first())
    } else {
        lines_after(pending.push(text.first()), text.drop_first())
    }
}

/// The lines of `text`: its pieces between brackets, colons and commas,
/// trimmed, the blank ones left out, a line feed after each.
pub open spec fn lines(text: Seq<char>) -> Seq<char> {
    lines_after(Seq::empty(), text)
}

/// `String::push` of std: appends the one character `c` to `text`.
#[verifier::external_body]
fn push_char(text: &mut String, c: char)
    ensures
        final(text)@ == old(text)@.push(c),
{
    text.push(c);
}

proof fn lemma_trimmed_blank_ends(piece: Seq<char>, start: int, end: int)
    requires
        0 <= start <= end <= piece.len(),
        forall|i: int| 0 <= i < start ==> is_blank(#[trigger] piece[i]),
        forall|i: int| end <= i < piece.len() ==> is_blank(#[trigger] piece[i]),
        start < end ==> !is_blank(piece[start]) && !is_blank(piece[end - 1]),
    ensures
        trimmed(piece) == piece.subrange(start, end),
    decreases piece.len(),
{
    if piece.len() == 0 {
        assert(piece.subrange(start, end) =~= piece);
    } else if is_blank(piece.first()) {
        let rest = piece.drop_first();
        if start == 0 {
            // nothing but white space
            assert(start == end);
            assert forall|i: int| 0 <= i < rest.len() implies is_blank(#[trigger] rest[i]) by {
                assert(rest[i] == piece[i + 1]);
            }
            lemma_trimmed_blank_ends(rest, 0, 0);
            assert(rest.subrange(0, 0) =~= piece.subrange(start, end));
        } else {
            assert forall|i: int| 0 <= i < start - 1 implies is_blank(#[trigger] rest[i]) by {
                assert(rest[i] == piece[i + 1]);
            }
            assert forall|i: int| end - 1 <= i < rest.len() implies is_blank(#[trigger] rest[i]) by {
                assert(rest[i] == piece[i + 1]);
            }
            lemma_trimmed_blank_ends(rest, start - 1, end - 1);
            assert(rest.subrange(start - 1, end - 1) =~= piece.subrange(start, end));
        }
    } else if is_blank(piece.last()) {
        let rest = piece.drop_last();
        assert(start == 0);
        assert(end < piece.len());
        assert forall|i: int| end <= i < rest.len() implies is_blank(#[trigger] rest[i]) by {
            assert(rest[i] == piece[i]);
        }
        lemma_trimmed_blank_ends(rest, start, end);
        assert(rest.subrange(start, end) =~= piece.subrange(start, end));
    } else {
        assert(start == 0);
        assert(end == piece.len());
        assert(piece.subrange(start, end) =~= piece);
    }
}

fn push_line(text: &mut String, piece: &Vec<char>)
    ensures
        final(text)@ == old(text)@ + line_of(piece@),
{
    let len: usize = piece.len();
    let mut start: usize = 0;
    while start < len && blank(piece[start])
        invariant
            start <= len,
            len == piece@.len(),
            forall|i: int| 0 <= i < start ==> is_blank(#[trigger] piece@[i]),
        decreases len - start,
    {
        start += 1;
    }
    let mut end: usize = len;
    while end > start && blank(piece[end - 1])
        invariant
            start <= end <= len,
            len == piece@.len(),
            forall|i: int| end <= i < len ==> is_blank(#[trigger] piece@[i]),
        decreases end,
    {
        end -= 1;
    }
    proof {
        lemma_trimmed_blank_ends(piece@, start as int, end as int);
    }
    if start < end {
        let mut i: usize = start;
        while i < end
            invariant
                start <= i <= end <= len,
                len == piece@.len(),
                text@ == old(text)@ + piece@.subrange(start as int, i as int),
            decreases end - i,
        {
            push_char(text, piece[i]);
            assert(text@ =~= old(text)@ + piece@.subrange(start as int, i + 1));
            i += 1;
        }
        push_char(text, '\n');
        assert(text@ =~= old(text)@ + line_of(piece@));
    } else {
        assert(text@ =~= old(text)@ + line_of(piece@));
    }
}

/// Breaks `text` into its lines.
pub fn debug_lines(text: &str) -> (broken: String)
    ensures
        broken@ == lines(text@),
{
    let mut broken = String::new();
    let mut pending: Vec<char> = Vec::new();
    assert(text@.skip(0) =~= text@);
    assert(broken@ + lines(text@) =~= lines(text@));
    for c in letters: text.chars()
        invariant
            letters.seq() == text@,
            broken@ + lines_after(pending@, text@.skip(letters.index() as int)) == lines(text@),
    {
        let ghost rest = text@.skip(letters.index() as int);
        assert(rest.first() == c);
        assert(rest.drop_first() =~= text@.skip(letters.index() + 1));
        if breaks(c) {
            let ghost before = broken@;
            let ghost piece = pending@;
            push_line(&mut broken, &pending);
            pending.clear();
            assert(broken@ + lines_after(pending@, rest.drop_first()) =~= before + lines_after(
                piece,
                rest,
            ));
        } else {
            pending.push(c);
        }
    }
    push_line(&mut broken, &pending);
    broken
}

/// The text of the debug panel for the value called `name` whose debug
/// output is `data`: the name, a colon, and the lines of `data`.
pub fn debug_text(name: &str, data: &str) -> (text: String)
    ensures
        text@ == name@ + ":\n"@ + lines(data@),
{
    let mut text = String::from_str(name);
    text.append(":\n");
    let broken = debug_lines(data);
    text.append(broken.as_str());
    text
}

} // verus!
