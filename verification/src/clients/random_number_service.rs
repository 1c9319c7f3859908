//! The random number service: where it is asked, and how its answer is read.
use vstd::prelude::*;
use crate::models::error::Failure;
use crate::text::{chars_of, parse_u16, parse_u16_range, trim, trim_bounds};

verus! {

/// The address the random number service is asked at: one integer between
/// 1 and 100, in base ten, as plain text.
pub const RANDOM_NUMBER_URL: &'static str =
    "https://www.random.org/integers/?num=1&min=1&max=100&col=1&base=10&format=plain&rnd=new";

/// The random number service could not be reached, its answer could not be
/// read, or the answer was not a number.
#[derive(Debug, Clone, Copy, PartialEq, Eq)]
pub struct RandomNumberServiceError;

impl RandomNumberServiceError {
    /// The text this error displays as.
    pub fn to_string(&self) -> (s: String)
        ensures
            s@ == "RandomNumberServiceError"@,
    {
        String::from_str("RandomNumberServiceError")
    }
}

/// The message attached when the answer `text` (as received, untrimmed) is
/// not a number: `could not parse "text"`.
pub open spec fn unparsable_message(text: Seq<char>) -> Seq<char> {
    "could not parse \""@ + text + "\""@
}

/// The message for an answer that is not a number quotes the answer in full,
/// as it was received: `could not parse "`, the text, then `"`.
pub proof fn unparsable_message_quotes_text(text: Seq<char>)
    ensures
        ({
            let m = unparsable_message(text);
            &&& m.len() == text.len() + 18
            &&& m.subrange(0, 17) == "could not parse \""@
            &&& m.subrange(17, 17 + text.len() as int) == text
            &&& m.last() == '"'
        }),
{
    reveal_strlit("could not parse \"");
    reveal_strlit("\"");
    let m = unparsable_message(text);
    assert(m.subrange(0, 17) =~= "could not parse \""@);
    assert(m.subrange(17, 17 + text.len() as int) =~= text);
}

/// Reads the body of the service's answer: the text without its surrounding
/// white space must be an unsigned 16-bit integer in base ten. Otherwise the
/// failure carries a message that quotes the text as it was received.
pub fn parse_random_number(text: &str) -> (r: Result<u16, Failure<RandomNumberServiceError>>)
    ensures
        match parse_u16(trim(text@)) {
            Some(n) => r == Ok::<u16, Failure<RandomNumberServiceError>>(n),
            None => r matches Err(f) && f.context == RandomNumberServiceError && f.message@
                == unparsable_message(text@),
        },
{
    let chars = chars_of(text);
    let (start, end) = trim_bounds(&chars);
    match parse_u16_range(&chars, start, end) {
        Some(n) => Ok(n),
        None => {
            let mut message = String::from_str("could not parse \"");
            message.append(text);
            message.append("\"");
            Err(Failure { context: RandomNumberServiceError, message })
        },
    }
}

} // verus!
