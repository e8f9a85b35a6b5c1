use vstd::prelude::*;
use vstd::string::StringExecFns;

verus! {

#[verifier::external_type_specification]
#[verifier::external_body]
pub struct ExStatus(tonic::Status);

/// The text that tonic renders for the gRPC status code numbered `code`.
pub uninterp spec fn code_description(code: i32) -> Seq<char>;

/// The number of the gRPC status code that `status` carries.
pub uninterp spec fn code_number_of(status: tonic::Status) -> i32;

/// The message that `status` carries.
pub uninterp spec fn message_of(status: tonic::Status) -> Seq<char>;

/// What separates the code from the message in an error text.
pub open spec fn separator() -> Seq<char> {
    seq![' ', '-', ' ']
}

/// Relies on tonic::Status::code: the code of a status, one of the variants
/// of tonic::Code, which are numbered 0 to 16.
#[verifier::external_body]
fn status_code_number(status: &tonic::Status) -> (r: i32)
    ensures
        r == code_number_of(*status),
        0 <= r <= 16,
{
    status.code() as i32
}

/// Relies on tonic::Code::description, applied to the code with that number:
/// a fixed text for each code.
#[verifier::external_body]
fn describe_code(code: i32) -> (r: &'static str)
    ensures
        r@ == code_description(code),
{
    tonic::Code::from_i32(code).description()
}

/// Relies on tonic::Status::message: the message that the status carries.
pub assume_specification<'a>[ tonic::Status::message ](status: &'a tonic::Status) -> (r: &'a str)
    ensures
        r@ == message_of(*status),
;

/// Joins a code and a message into the text `<code> - <message>`.
pub fn format_error(code: &str, message: &str) -> (r: String)
    ensures
        r@ == code@ + separator() + message@,
{
    let sep = " - ";
    proof {
        reveal_strlit(" - ");
        assert(sep@ =~= separator());
    }
    let mut text = String::from_str(code);
    text.append(sep);
    text.append(message);
    text
}

/// The error text for a failure with the status code numbered `code` and
/// the given message: the code's description, ` - `, then the message.
pub fn status_text(code: i32, message: &str) -> (r: String)
    ensures
        r@ == code_description(code) + separator() + message@,
{
    format_error(describe_code(code), message)
}

/// The error text for a remote failure: the description of its code,
/// ` - `, then its message.
pub fn from_status(status: tonic::Status) -> (r: String)
    ensures
        r@ == code_description(code_number_of(status)) + separator() + message_of(status),
        0 <= code_number_of(status) <= 16,
{
    let code = status_code_number(&status);
    status_text(code, status.message())
}

/// A reply of the store with its failure, if any, turned into error text.
pub fn reply<T>(result: Result<T, tonic::Status>) -> (r: Result<T, String>)
    ensures
        result is Ok <==> r is Ok,
        result matches Ok(v) ==> r == Ok::<T, String>(v),
        result matches Err(s) ==> r matches Err(e) && e@ == code_description(code_number_of(s))
            + separator() + message_of(s),
{
    match result {
        Ok(v) => Ok(v),
        Err(status) => Err(from_status(status)),
    }
}

} // verus!
