//! The boundary to the JavaScript host: an outcome becomes the value or the
//! error that the host's calling convention expects.

use vstd::prelude::*;
use crate::failure::Failure;

verus! {

/// The host's error type, `neon::types::extract::Error`. Opaque here.
#[verifier::external_type_specification]
#[verifier::external_body]
pub struct ExHostError(neon::types::extract::Error);

/// The description of a host error: the text of its cause, which is what the
/// host gets to see as the message of the thrown JavaScript `Error`.
pub uninterp spec fn host_error_description(error: neon::types::extract::Error) -> Seq<char>;

/// Calls `neon::types::extract::Error::new` with `message` as the cause.
/// Trusted: the new error's cause is the boxed message, so the description
/// that the host sees is the message, character for character.
#[verifier::external_body]
fn host_error(message: String) -> (error: neon::types::extract::Error)
    ensures
        host_error_description(error) == message@,
{
    neon::types::extract::Error::new(message)
}

/// Hands an outcome to the host. A resolved path is the plain success value;
/// a failure becomes a host error whose description is the failure's message.
/// Nothing is added to either and nothing is taken away.
pub fn marshal(outcome: Result<String, Failure>) -> (reply: Result<
    String,
    neon::types::extract::Error,
>)
    ensures
        match outcome {
            Ok(path) => reply is Ok && reply->Ok_0 == path,
            Err(failure) => reply is Err && host_error_description(reply->Err_0)
                == failure@.message(),
        },
{
    match outcome {
        Ok(path) => Ok(path),
        Err(failure) => Err(host_error(failure.message())),
    }
}

} // verus!
