//! Fields of comma-separated values.

use vstd::prelude::*;

verus! {

/// Calls `String::push`, which appends one character to the text.
#[verifier::external_body]
fn push_char(text: &mut String, c: char)
    ensures
        final(text)@ == old(text)@.push(c),
{
    text.push(c);
}

/// The first `n` characters of a text as they stand in a quoted field, after
/// the opening quote: each quote is doubled.
pub open spec fn quoted_prefix(input: Seq<char>, n: int) -> Seq<char>
    decreases n,
{
    if n <= 0 {
        seq!['"']
    } else if input[n - 1] == '"' {
        quoted_prefix(input, n - 1).push('"').push('"')
    } else {
        quoted_prefix(input, n - 1).push(input[n - 1])
    }
}

/// A text as a quoted field of a line of comma-separated values: between
/// quotes, with each quote of its own doubled.
pub open spec fn quoted_field(input: Seq<char>) -> Seq<char> {
    quoted_prefix(input, input.len() as int).push('"')
}

/// Writes a text as a quoted field of a line of comma-separated values.
pub fn escape_csv_string(input: &str) -> (output: String)
    ensures
        output@ == quoted_field(input@),
{
    let mut output = String::new();
    push_char(&mut output, '"');
    assert(output@ =~= quoted_prefix(input@, 0));
    for c in it: input.chars()
        invariant
            it.seq() == input@,
            output@ == quoted_prefix(input@, it.index() as int),
    {
        if c == '"' {
            push_char(&mut output, '"');
            push_char(&mut output, '"');
        } else {
            push_char(&mut output, c);
        }
    }
    push_char(&mut output, '"');
    output
}

} // verus!
