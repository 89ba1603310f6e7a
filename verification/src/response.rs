//! Response interpretation.
//!
//! Once the unverified transport has performed the exchange, the observed
//! status code and the decoded body come back here: the status is
//! classified into the error taxonomy, and a decoded body (or its absence)
//! becomes the operation's result.

use vstd::prelude::*;

use crate::error::Error;
use crate::types::{ServerErrorMessage, TranslatedText, TranslatedTextList};

verus! {

/// Holds when an HTTP status code reports success.
pub open spec fn is_success_status(status: u16) -> bool {
    200 <= status < 300
}

/// The text of a server-reported error: the error body's message and
/// detail joined as `message: detail` (an absent detail contributes
/// nothing after the separator), or the raw status text when no error
/// body could be decoded.
pub open spec fn server_error_text(
    error_body: Option<ServerErrorMessage>,
    status_text: Seq<char>,
) -> Seq<char> {
    match error_body {
        Option::Some(b) => b.message@ + ": "@ + (match b.detail {
            Option::Some(d) => d@,
            Option::None => Seq::<char>::empty(),
        }),
        Option::None => status_text,
    }
}

/// Classifies the outcome of an exchange from the observed status code.
///
/// A success status passes; 401 and 403 report a refused credential,
/// whatever the body holds; 404 reports a missing resource; every other
/// failure becomes a server error carrying the server's own description
/// when one was decoded, and the raw status text otherwise.
pub fn evaluate_response(
    status: u16,
    status_text: String,
    error_body: Option<ServerErrorMessage>,
) -> (r: Result<(), Error>)
    ensures
        r is Ok <==> is_success_status(status),
        status == 401 || status == 403 ==> r == Err::<(), Error>(Error::Authorization),
        status == 404 ==> r == Err::<(), Error>(Error::NotFound),
        !is_success_status(status) && status != 401 && status != 403 && status != 404 ==> (
        r matches Err(Error::Server(m)) && m@ == server_error_text(error_body, status_text@)),
{
    if 200 <= status && status < 300 {
        Ok(())
    } else if status == 401 || status == 403 {
        Err(Error::Authorization)
    } else if status == 404 {
        Err(Error::NotFound)
    } else {
        let message = match error_body {
            Option::Some(b) => {
                let with_separator = b.message.concat(": ");
                match b.detail {
                    Option::Some(d) => with_separator.concat(d.as_str()),
                    Option::None => with_separator,
                }
            },
            Option::None => status_text,
        };
        Err(Error::Server(message))
    }
}

/// Accepts a decoded response body, and reports a deserialization error
/// where the body did not match the operation's expected shape.
pub fn decoded_or_error<T>(decoded: Option<T>) -> (r: Result<T, Error>)
    ensures
        match decoded {
            Option::Some(v) => r matches Ok(x) && x == v,
            Option::None => r matches Err(e) && e == Error::Deserialization,
        },
{
    match decoded {
        Option::Some(v) => Ok(v),
        Option::None => Err(Error::Deserialization),
    }
}

/// Unwraps a decoded translation response into the ordered list of
/// translated units, one per submitted block; a body of the wrong shape
/// is a deserialization error.
pub fn translations_from_decoded(decoded: Option<TranslatedTextList>) -> (r: Result<
    Vec<TranslatedText>,
    Error,
>)
    ensures
        match decoded {
            Option::Some(l) => r matches Ok(ts) && ts == l.translations,
            Option::None => r matches Err(e) && e == Error::Deserialization,
        },
{
    match decoded {
        Option::Some(l) => Ok(l.translations),
        Option::None => Err(Error::Deserialization),
    }
}

} // verus!
