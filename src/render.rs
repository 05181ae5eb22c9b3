use core::fmt::Write;
use vstd::prelude::*;

verus! {

/// The four spaces that uniform indentation puts in front of a line.
pub open spec fn uniform_indent() -> Seq<char> {
    seq![' ', ' ', ' ', ' ']
}

/// The six spaces in front of every line of a numbered entry but its first.
pub open spec fn continuation_indent() -> Seq<char> {
    seq![' ', ' ', ' ', ' ', ' ', ' ']
}

/// The decimal digit for `d < 10`.
pub open spec fn digit_char(d: nat) -> char {
    seq!['0', '1', '2', '3', '4', '5', '6', '7', '8', '9'][d as int]
}

/// The decimal representation of `n`, without leading zeros.
pub open spec fn decimal(n: nat) -> Seq<char>
    decreases n,
{
    if n < 10 {
        seq![digit_char(n)]
    } else {
        decimal(n / 10).push(digit_char(n % 10))
    }
}

/// `s` right-aligned in a field of four characters, padded with spaces.
pub open spec fn pad_to_four(s: Seq<char>) -> Seq<char> {
    if s.len() >= 4 {
        s
    } else {
        Seq::new((4 - s.len()) as nat, |i: int| ' ') + s
    }
}

/// The label in front of the first line of entry `n`: the number, right-aligned
/// in four columns, then a colon and a space.
pub open spec fn number_label(n: nat) -> Seq<char> {
    pad_to_four(decimal(n)) + seq![':', ' ']
}

/// What goes in front of indented line `line` (counting only the lines that
/// received a prefix): four spaces when `number` is absent, else the number
/// label on the first line and six spaces on the others.
pub open spec fn line_prefix(number: Option<nat>, line: nat) -> Seq<char> {
    match number {
        None => uniform_indent(),
        Some(n) => if line == 0 {
            number_label(n)
        } else {
            continuation_indent()
        },
    }
}

/// Indents `s` character by character. `at_start` says whether the next
/// character begins a line; `line` counts the prefixes written so far. A
/// prefix goes in front of the first character of every line that is not
/// empty; newlines are copied as they are.
pub open spec fn indent_from(s: Seq<char>, number: Option<nat>, at_start: bool, line: nat) -> Seq<char>
    decreases s.len(),
{
    if s.len() == 0 {
        Seq::empty()
    } else if s[0] == '\n' {
        seq!['\n'] + indent_from(s.drop_first(), number, true, line)
    } else if at_start {
        line_prefix(number, line) + seq![s[0]] + indent_from(s.drop_first(), number, false, line + 1)
    } else {
        seq![s[0]] + indent_from(s.drop_first(), number, false, line)
    }
}

/// `s` indented as one entry of the cause chain: uniformly when `number` is
/// absent, under the label of that number otherwise.
pub open spec fn indented_text(s: Seq<char>, number: Option<nat>) -> Seq<char> {
    indent_from(s, number, true, 0)
}

/// The header written before the cause chain.
pub open spec fn caused_by_header() -> Seq<char> {
    "\n\nCaused by:"@
}

/// The header written before a captured stack.
pub open spec fn stack_header() -> Seq<char> {
    "\n\nStack backtrace:\n"@
}

/// The first `k` entries of the cause chain, each on a line of its own;
/// entries are numbered from zero when `numbered` holds.
pub open spec fn chain_entries(causes: Seq<Seq<char>>, numbered: bool, k: nat) -> Seq<char>
    decreases k,
{
    if k == 0 {
        Seq::empty()
    } else {
        let i = (k - 1) as nat;
        chain_entries(causes, numbered, i) + seq!['\n'] + indented_text(
            causes[i as int],
            if numbered {
                Some(i)
            } else {
                None
            },
        )
    }
}

/// The cause chain part of a report: empty without causes; otherwise the
/// header and every entry, numbered when there are two or more.
pub open spec fn cause_section(causes: Seq<Seq<char>>) -> Seq<char> {
    if causes.len() == 0 {
        Seq::empty()
    } else {
        caused_by_header() + chain_entries(causes, causes.len() > 1, causes.len())
    }
}

/// The stack part of a report: empty when no stack was captured.
pub open spec fn stack_section(stack: Option<Seq<char>>) -> Seq<char> {
    match stack {
        None => Seq::empty(),
        Some(t) => stack_header() + t,
    }
}

/// The full report for an error with text `display`, the texts of its causes
/// closest first, and the text of its captured stack if there is one.
pub open spec fn report_text(display: Seq<char>, causes: Seq<Seq<char>>, stack: Option<Seq<char>>) -> Seq<char> {
    display + cause_section(causes) + stack_section(stack)
}

/// The texts of a list of strings.
pub open spec fn texts(v: Seq<String>) -> Seq<Seq<char>> {
    v.map_values(|s: String| s@)
}

/// The text of an optional string.
pub open spec fn opt_text(s: Option<&str>) -> Option<Seq<char>> {
    match s {
        None => None,
        Some(t) => Some(t@),
    }
}

/// Relies on indenter::indented with its default format: four spaces go in
/// front of every line that is not empty; a write into a `String` never fails.
#[verifier::external_body]
fn write_indented(out: &mut String, text: &str)
    ensures
        final(out)@ == old(out)@ + indented_text(text@, None),
{
    let _ = write!(indenter::indented(out), "{}", text);
}

/// Relies on indenter::Indented::ind: the first line that is not empty gets
/// `n` right-aligned in four columns and ": ", the later ones six spaces; a
/// write into a `String` never fails.
#[verifier::external_body]
fn write_numbered(out: &mut String, text: &str, n: usize)
    ensures
        final(out)@ == old(out)@ + indented_text(text@, Some(n as nat)),
{
    let _ = write!(indenter::indented(out).ind(n), "{}", text);
}

/// Renders the report of an error whose text is `display`, whose causes,
/// closest first, have the texts in `causes`, and whose captured stack, if
/// any, renders as `stack`.
pub fn render_report(display: &str, causes: &Vec<String>, stack: Option<&str>) -> (r: String)
    ensures
        r@ == report_text(display@, texts(causes@), opt_text(stack)),
        causes@.len() == 0 ==> r@ == display@ + stack_section(opt_text(stack)),
        causes@.len() == 1 ==> r@ == display@ + caused_by_header() + seq!['\n'] + indented_text(
            causes@[0]@,
            None,
        ) + stack_section(opt_text(stack)),
        causes@.len() >= 2 ==> r@ == display@ + caused_by_header() + chain_entries(
            texts(causes@),
            true,
            causes@.len(),
        ) + stack_section(opt_text(stack)),
{
    let mut out = String::from_str(display);
    let ghost cs = texts(causes@);
    if causes.len() > 0 {
        out.append("\n\nCaused by:");
        let numbered = causes.len() > 1;
        let mut i: usize = 0;
        while i < causes.len()
            invariant
                i <= causes@.len(),
                cs == texts(causes@),
                numbered == (causes@.len() > 1),
                out@ == display@ + caused_by_header() + chain_entries(cs, numbered, i as nat),
            decreases causes@.len() - i,
        {
            out.append("\n");
            proof {
                reveal_strlit("\n");
            }
            if numbered {
                write_numbered(&mut out, causes[i].as_str(), i);
            } else {
                write_indented(&mut out, causes[i].as_str());
            }
            i = i + 1;
            assert(out@ == display@ + caused_by_header() + chain_entries(cs, numbered, i as nat));
        }
    }
    match stack {
        Some(t) => {
            out.append("\n\nStack backtrace:\n");
            out.append(t);
        },
        None => {},
    }
    proof {
        if causes@.len() == 1 {
            assert(chain_entries(cs, false, 0) == Seq::<char>::empty());
        }
    }
    out
}

} // verus!
