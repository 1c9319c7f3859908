//! The error-test endpoint: checks a name and a favourite number, and greets
//! the caller when both pass.
use vstd::prelude::*;
use crate::models::error::{
    AppError, BAD_REQUEST, bare_error, error_with_message, ErrorView, Failure, INTERNAL_SERVER_ERROR,
    reply_view,
};
use crate::text::{
    all_digits, decimal, decimal_has_no_leading_zero, decimal_is_digits, digits_value,
    push_signed_decimal, signed_decimal,
};

verus! {

/// The only favourite number that passes the check.
pub const SECRET_NUMBER: i32 = 1337;

/// A first and a last name (query parameters `first` and `last`).
#[derive(Debug, PartialEq, Eq)]
pub struct Name {
    pub first: String,
    pub last: String,
}

/// A favourite number (query parameter `favoriteNumber`).
#[derive(Debug, Clone, Copy, PartialEq, Eq)]
pub struct Other {
    pub favorite_number: i32,
}

/// The favourite number checked was not the secret one.
#[derive(Debug, Clone, Copy, PartialEq, Eq)]
pub struct CheckNumberError;

impl CheckNumberError {
    /// The text this error displays as.
    pub fn to_string(&self) -> (s: String)
        ensures
            s@ == "CheckNumberError"@,
    {
        String::from_str("CheckNumberError")
    }
}

/// The message answered when the favourite number is negative.
pub open spec fn negative_number_message() -> Seq<char> {
    "Favorite number must be positive"@
}

/// The message answered when a name is empty.
pub open spec fn empty_name_message() -> Seq<char> {
    "First and last name must not be empty"@
}

/// The greeting answered when every check passes.
pub open spec fn greeting(first: Seq<char>, last: Seq<char>) -> Seq<char> {
    "Hello, "@ + first + " "@ + last + "!"@
}

/// The message attached when `number` is not the secret number:
/// `` `number` is not the secret number``.
pub open spec fn not_secret_message(number: i32) -> Seq<char> {
    "`"@ + signed_decimal(number as int) + "` is not the secret number"@
}

/// The message naming a number that is not the secret one is the number in
/// base ten (a `-` before the digits of its magnitude when it is negative,
/// no leading zero) between backquotes, followed by " is not the secret
/// number".
pub proof fn not_secret_message_names_the_number(number: i32)
    ensures
        ({
            let m = not_secret_message(number);
            let tail = "` is not the secret number"@;
            let shown = m.subrange(1, m.len() - tail.len());
            let digits = if number < 0 { shown.drop_first() } else { shown };
            &&& m.len() > tail.len() + 1
            &&& m[0] == '`'
            &&& m.subrange(m.len() - tail.len(), m.len() as int) == tail
            &&& (number < 0 <==> shown[0] == '-')
            &&& digits.len() >= 1
            &&& all_digits(digits)
            &&& digits_value(digits) == (if number < 0 { -number } else { number as int })
            &&& (digits[0] == '0' ==> digits.len() == 1)
        }),
{
    reveal_strlit("`");
    reveal_strlit("` is not the secret number");
    let m = not_secret_message(number);
    let tail = "` is not the secret number"@;
    let mag: nat = if number < 0 { (-number) as nat } else { number as nat };
    decimal_is_digits(mag);
    decimal_has_no_leading_zero(mag);
    assert(m.subrange(m.len() - tail.len(), m.len() as int) =~= tail);
    let shown = m.subrange(1, m.len() - tail.len());
    assert(shown =~= signed_decimal(number as int));
    if number < 0 {
        assert(shown.drop_first() =~= decimal(mag));
    }
}

/// Succeeds exactly on the secret number; otherwise the failure carries a
/// message naming the number.
pub fn is_secret_number(number: &i32) -> (r: Result<(), Failure<CheckNumberError>>)
    ensures
        r is Ok <==> *number == SECRET_NUMBER,
        r matches Err(f) ==> f.context == CheckNumberError && f.message@ == not_secret_message(*number),
{
    if *number != SECRET_NUMBER {
        let mut message = String::from_str("`");
        push_signed_decimal(&mut message, *number);
        message.append("` is not the secret number");
        return Err(Failure { context: CheckNumberError, message });
    }
    Ok(())
}

/// The answer to the error-test request, checked in this order: a negative
/// favourite number is a 400, an empty first or last name is a 400, a
/// favourite number other than the secret one is a 500 with no message;
/// otherwise the caller is greeted by name.
pub open spec fn error_test_reply(first: Seq<char>, last: Seq<char>, favorite_number: i32) -> Result<
    Seq<char>,
    ErrorView,
> {
    if favorite_number < 0 {
        Err(error_with_message(BAD_REQUEST, negative_number_message()))
    } else if first.len() == 0 || last.len() == 0 {
        Err(error_with_message(BAD_REQUEST, empty_name_message()))
    } else if favorite_number != SECRET_NUMBER {
        Err(bare_error(INTERNAL_SERVER_ERROR))
    } else {
        Ok(greeting(first, last))
    }
}

/// The caller is greeted exactly when both names are nonempty and the
/// favourite number is the secret one; a 400 always carries a message and a
/// 500 never does.
pub proof fn greeting_only_for_secret_number(first: Seq<char>, last: Seq<char>, favorite_number: i32)
    ensures
        error_test_reply(first, last, favorite_number) is Ok <==> (first.len() != 0 && last.len() != 0
            && favorite_number == 1337),
        error_test_reply(first, last, favorite_number) matches Err(e) ==> (e.code == 400
            <==> e.message is Some),
        error_test_reply(first, last, favorite_number) matches Err(e) ==> (e.code == 400 || e.code
            == 500),
        favorite_number >= 0 && first.len() != 0 && last.len() != 0 && favorite_number != 1337
            ==> error_test_reply(first, last, favorite_number) == Err::<Seq<char>, ErrorView>(
            ErrorView { code: 500, message: None },
        ),
{
}

/// A request with an empty first or last name and a favourite number that
/// is not negative is answered with a 400 Bad Request carrying the message
/// "First and last name must not be empty", whatever the number is: the names
/// are checked before the secret number.
pub proof fn empty_name_is_bad_request(first: Seq<char>, last: Seq<char>, favorite_number: i32)
    requires
        favorite_number >= 0,
        first.len() == 0 || last.len() == 0,
    ensures
        error_test_reply(first, last, favorite_number) == Err::<Seq<char>, ErrorView>(
            ErrorView { code: 400, message: Some("First and last name must not be empty"@) },
        ),
{
}

/// A negative favourite number is answered with a 400 Bad Request carrying
/// the message "Favorite number must be positive", whatever the names are.
pub proof fn negative_number_is_bad_request(first: Seq<char>, last: Seq<char>, favorite_number: i32)
    requires
        favorite_number < 0,
    ensures
        error_test_reply(first, last, favorite_number) == Err::<Seq<char>, ErrorView>(
            ErrorView { code: 400, message: Some("Favorite number must be positive"@) },
        ),
{
}

/// The greeting holds both names in full: it is "Hello, ", then the first
/// name, a space, the last name and "!", so its length is that of the two
/// names plus nine.
pub proof fn greeting_holds_both_names(first: Seq<char>, last: Seq<char>)
    requires
        first.len() > 0,
        last.len() > 0,
    ensures
        ({
            let f = first.len() as int;
            let l = last.len() as int;
            &&& error_test_reply(first, last, SECRET_NUMBER) is Ok
            &&& error_test_reply(first, last, SECRET_NUMBER) matches Ok(g) ==> {
                &&& g.len() == f + l + 9
                &&& g.subrange(0, 7) == "Hello, "@
                &&& g.subrange(7, 7 + f) == first
                &&& g[7 + f] == ' '
                &&& g.subrange(8 + f, 8 + f + l) == last
                &&& g[8 + f + l] == '!'
            }
        }),
{
    reveal_strlit("Hello, ");
    reveal_strlit(" ");
    reveal_strlit("!");
    let f = first.len() as int;
    let l = last.len() as int;
    let g = greeting(first, last);
    assert(g.subrange(0, 7) =~= "Hello, "@);
    assert(g.subrange(7, 7 + f) =~= first);
    assert(g.subrange(8 + f, 8 + f + l) =~= last);
}

/// Answers the error-test request (see [`error_test_reply`]).
pub fn get(name: Name, other: Other) -> (r: Result<String, AppError>)
    ensures
        reply_view(r) == error_test_reply(name.first@, name.last@, other.favorite_number),
{
    let favorite_number = other.favorite_number;

    if favorite_number < 0 {
        return Err(AppError::bad_request(String::from_str("Favorite number must be positive")));
    }
    if name.first.as_str().is_empty() || name.last.as_str().is_empty() {
        return Err(AppError::bad_request(String::from_str("First and last name must not be empty")));
    }
    match is_secret_number(&other.favorite_number) {
        Ok(()) => {},
        Err(failure) => {
            proof {
                AppError::report_is_server_error();
            }
            return Err(AppError::from(failure.context));
        },
    }

    let mut reply = String::from_str("Hello, ");
    reply.append(name.first.as_str());
    reply.append(" ");
    reply.append(name.last.as_str());
    reply.append("!");
    Ok(reply)
}

} // verus!
