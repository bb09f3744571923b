//! Properties of start-line parsing that hold for every input.
use vstd::prelude::*;

use crate::parser::{code_number, is_status_token, start_line_of, StartLineView, StatusCode};
use crate::response::code_digits;
use crate::text::{decimal_value, is_digit, words};

verus! {

/// A line with fewer than two or more than three tokens is always a bad
/// request, whatever the tokens are.
pub proof fn lemma_token_count_rejected(s: Seq<char>)
    requires
        words(s).len() < 2 || words(s).len() > 3,
    ensures
        start_line_of(s) == Err::<StartLineView, StatusCode>(StatusCode::BadRequest),
{
}

/// A line whose first token begins with `HTTP/` parses, if at all, as a
/// status line; a line whose first token does not parses, if at all, as a
/// request line.
pub proof fn lemma_classification(s: Seq<char>)
    ensures
        start_line_of(s) is Ok && is_status_token(words(s)[0]) ==> start_line_of(
            s,
        )->Ok_0 is Status,
        start_line_of(s) is Ok && !is_status_token(words(s)[0]) ==> start_line_of(
            s,
        )->Ok_0 is Request,
{
}

/// Parsing is a function of the text alone: two lines with the same
/// characters have the same outcome, so parsing one line twice gives equal
/// results.
pub proof fn lemma_parse_deterministic(a: Seq<char>, b: Seq<char>)
    requires
        a == b,
    ensures
        start_line_of(a) == start_line_of(b),
{
}

/// The digits that a failure response carries are the decimal text of the
/// outcome's numeric code.
pub proof fn lemma_code_digits_spell_code(c: StatusCode)
    ensures
        code_digits(c).len() == 3,
        forall|i: int| 0 <= i < 3 ==> is_digit(#[trigger] code_digits(c)[i]),
        decimal_value(code_digits(c)) == code_number(c) as nat,
{
    reveal_strlit("400");
    reveal_strlit("405");
    reveal_strlit("414");
    reveal_strlit("501");
    reveal_strlit("504");
    let d = code_digits(c);
    assert(d.drop_last().drop_last().drop_last() =~= Seq::<char>::empty());
    reveal_with_fuel(decimal_value, 4);
}

} // verus!
