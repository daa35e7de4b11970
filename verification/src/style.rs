//! How one line of output is laid out: the indentation guide, the header and
//! the terminal control sequences around them.

use vstd::prelude::*;

verus! {

/// Starts the muted colour in which the indentation guide is shown.
pub const ANSI_GRAY: &'static str = "\x1b[90m";

/// Starts the bold face in which a header is shown.
pub const ANSI_BOLD: &'static str = "\x1b[1m";

/// Ends whatever style is in force.
pub const ANSI_RESET: &'static str = "\x1b[0m";

/// The piece of the indentation guide that stands for one level of depth.
pub const GUIDE: &'static str = "|  ";

/// The indentation guide of a line at `depth`: one `GUIDE` for every level.
pub open spec fn indent_guide(depth: nat) -> Seq<char>
    decreases depth,
{
    if depth == 0 {
        Seq::empty()
    } else {
        indent_guide((depth - 1) as nat) + GUIDE@
    }
}

/// The length of the header of `text`: the number of characters before its
/// first colon, or all of them where it has none.
pub open spec fn header_len(text: Seq<char>) -> nat
    decreases text.len(),
{
    if text.len() == 0 || text[0] == ':' {
        0
    } else {
        1 + header_len(text.drop_first())
    }
}

/// The line that shows `text` at `depth`: the muted indentation guide, then
/// the header of `text` in bold, then the rest of `text`, from its first colon
/// on, as it is.
pub open spec fn styled_line(depth: nat, text: Seq<char>) -> Seq<char> {
    ANSI_GRAY@ + indent_guide(depth) + ANSI_RESET@ + ANSI_BOLD@ + text.take(
        header_len(text) as int,
    ) + ANSI_RESET@ + text.skip(header_len(text) as int)
}

/// The header of a text ends at its first colon: it holds no colon, and a
/// colon follows it unless the header is the whole text.
pub proof fn lemma_header_ends_at_first_colon(text: Seq<char>)
    ensures
        header_len(text) <= text.len(),
        forall|i: int| 0 <= i < header_len(text) ==> text[i] != ':',
        header_len(text) < text.len() ==> text[header_len(text) as int] == ':',
    decreases text.len(),
{
    if text.len() != 0 && text[0] != ':' {
        let rest = text.drop_first();
        lemma_header_ends_at_first_colon(rest);
        assert forall|i: int| 0 <= i < header_len(text) implies text[i] != ':' by {
            if i > 0 {
                assert(text[i] == rest[i - 1]);
            }
        }
    }
}

/// Where the first colon of a text stands at `at`, its header has length `at`.
pub proof fn lemma_header_len_at_colon(text: Seq<char>, at: int)
    requires
        0 <= at < text.len(),
        text[at] == ':',
        forall|i: int| 0 <= i < at ==> text[i] != ':',
    ensures
        header_len(text) == at,
{
    lemma_header_ends_at_first_colon(text);
}

/// A text without a colon is all header.
pub proof fn lemma_header_len_without_colon(text: Seq<char>)
    requires
        forall|i: int| 0 <= i < text.len() ==> text[i] != ':',
    ensures
        header_len(text) == text.len(),
{
    lemma_header_ends_at_first_colon(text);
}

/// The guide of a depth is three characters for every level, and going one
/// level deeper adds a bar and two spaces at its end.
pub proof fn lemma_indent_guide(depth: nat)
    ensures
        indent_guide(depth).len() == 3 * depth,
        indent_guide(depth + 1) == indent_guide(depth).push('|').push(' ').push(' '),
    decreases depth,
{
    reveal_strlit("|  ");
    if depth > 0 {
        lemma_indent_guide((depth - 1) as nat);
    }
}

/// A line whose text has no colon is all header: the whole text stands in
/// bold behind the guide.
pub proof fn lemma_styled_line_without_colon(depth: nat, text: Seq<char>)
    requires
        forall|i: int| 0 <= i < text.len() ==> text[i] != ':',
    ensures
        styled_line(depth, text) == ANSI_GRAY@ + indent_guide(depth) + ANSI_RESET@ + ANSI_BOLD@
            + text + ANSI_RESET@,
{
    lemma_header_len_without_colon(text);
}

/// A line whose text is a header without a colon, a colon and a rest shows
/// the header in bold behind the guide, and the colon and the rest after it
/// as they are.
pub proof fn lemma_styled_line_with_colon(depth: nat, header: Seq<char>, rest: Seq<char>)
    requires
        forall|i: int| 0 <= i < header.len() ==> header[i] != ':',
    ensures
        styled_line(depth, header + seq![':'] + rest) == ANSI_GRAY@ + indent_guide(depth)
            + ANSI_RESET@ + ANSI_BOLD@ + header + ANSI_RESET@ + seq![':'] + rest,
{
    lemma_header_len_at_colon(header + seq![':'] + rest, header.len() as int);
}

} // verus!
