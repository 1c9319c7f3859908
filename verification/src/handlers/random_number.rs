//! The random-number endpoint: asks the random number service for a number
//! and answers it multiplied by 100.
use vstd::prelude::*;
use crate::clients::random_number_service::RandomNumberServiceError;
use crate::models::error::{AppError, bare_error, ErrorView, INTERNAL_SERVER_ERROR, reply_view};
use crate::text::{
    all_digits, decimal, decimal_has_no_leading_zero, decimal_is_digits, decimal_reads_back,
    digits_value, parse_u16, trim,
};

verus! {

/// What the number from the service is multiplied by.
pub const MULTIPLIER: u16 = 100;

/// The answer to the random-number request, given what the service answered:
/// the number times 100 in base ten when that fits in 16 bits; a 500 with no
/// message when it does not, or when the service failed.
pub open spec fn random_number_reply(outcome: Result<u16, RandomNumberServiceError>) -> Result<
    Seq<char>,
    ErrorView,
> {
    match outcome {
        Ok(n) => if n * MULTIPLIER <= u16::MAX {
            Ok(decimal((n * MULTIPLIER) as nat))
        } else {
            Err(bare_error(INTERNAL_SERVER_ERROR))
        },
        Err(_) => Err(bare_error(INTERNAL_SERVER_ERROR)),
    }
}

/// The request succeeds exactly when the service answered a number whose
/// product with 100 fits in 16 bits (at most 655); every other answer is a 500 Internal Server Error with no
/// message, whether the service failed or the product overflowed.
pub proof fn random_number_fails_only_with_500(outcome: Result<u16, RandomNumberServiceError>)
    ensures
        random_number_reply(outcome) is Ok <==> (outcome matches Ok(n) && n * 100 <= 65535),
        random_number_reply(outcome) is Err ==> random_number_reply(outcome) == Err::<Seq<char>, ErrorView>(
            ErrorView { code: 500, message: None },
        ),
{
}

/// When the product fits in 16 bits, the body is the number times 100 in
/// base ten: a nonempty run of digits with no leading zero whose value is
/// the product, which reads back as the product.
pub proof fn reply_is_product_in_base_ten(n: u16)
    requires
        n * 100 <= u16::MAX,
    ensures
        random_number_reply(Ok(n)) matches Ok(body) && body.len() >= 1 && all_digits(body)
            && digits_value(body) == n * 100 && (body[0] == '0' ==> body.len() == 1)
            && parse_u16(trim(body)) == Some((n * 100) as u16),
{
    decimal_is_digits((n * 100) as nat);
    decimal_has_no_leading_zero((n * 100) as nat);
    decimal_reads_back((n * 100) as u16);
}

/// Answers the random-number request once the service has answered with
/// `outcome` (see [`random_number_reply`]).
pub fn get(outcome: Result<u16, RandomNumberServiceError>) -> (r: Result<String, AppError>)
    ensures
        reply_view(r) == random_number_reply(outcome),
{
    let number = match outcome {
        Ok(n) => n,
        Err(err) => {
            proof {
                AppError::report_is_server_error();
            }
            return Err(AppError::from(err));
        },
    };
    match number.checked_mul(MULTIPLIER) {
        Some(n) => Ok(crate::text::to_decimal(n as u32)),
        None => Err(AppError::server_error()),
    }
}

} // verus!
