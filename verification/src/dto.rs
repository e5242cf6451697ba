//! The values that cross the relay's boundary, and the check that a relayed
//! message must pass.
use vstd::prelude::*;
use validator::{ValidationError, ValidationErrors};
use crate::text::{blank, is_blank};

verus! {

/// One failed check, as the `validator` crate records it.
#[verifier::external_type_specification]
#[verifier::external_body]
pub struct ExValidationError(ValidationError);

/// The failed checks of one value, by field, as the `validator` crate records them.
#[verifier::external_type_specification]
#[verifier::external_body]
pub struct ExValidationErrors(ValidationErrors);

/// The names of the fields under which `errors` holds something.
pub uninterp spec fn failed_fields(errors: ValidationErrors) -> Set<Seq<char>>;

/// Whether all that `errors` holds under any field is a list of failed checks of
/// that field, and not the errors of a nested value.
pub uninterp spec fn holds_field_errors_only(errors: ValidationErrors) -> bool;

/// `ValidationError::new`: a failed check with the given code, no message and
/// no parameters.
#[verifier::external_body]
fn new_error(code: &'static str) -> ValidationError {
    ValidationError::new(code)
}

/// `ValidationError::with_message`: the same failed check, with the message set.
#[verifier::external_body]
fn with_message(error: ValidationError, message: &'static str) -> ValidationError {
    error.with_message(std::borrow::Cow::from(message))
}

/// `ValidationError::add_param`: records the text `value` under `name` among
/// the parameters of the failed check.
#[verifier::external_body]
fn add_text_param(error: &mut ValidationError, name: &'static str, value: &String) {
    error.add_param(std::borrow::Cow::from(name), value)
}

/// `ValidationErrors::new`: a record that holds nothing.
#[verifier::external_body]
fn no_errors() -> (errors: ValidationErrors)
    ensures
        failed_fields(errors) == Set::<Seq<char>>::empty(),
        holds_field_errors_only(errors),
{
    ValidationErrors::new()
}

/// `ValidationErrors::add`: appends `error` to the failed checks of `field`,
/// which is from then on among the fields that failed. The call panics where
/// `field` holds the errors of a nested value, so such a record is left out.
#[verifier::external_body]
fn add_error(errors: &mut ValidationErrors, field: &'static str, error: ValidationError)
    requires
        holds_field_errors_only(*old(errors)),
    ensures
        failed_fields(*final(errors)) == failed_fields(*old(errors)).insert(field@),
        holds_field_errors_only(*final(errors)),
{
    errors.add(field, error)
}

/// `ValidationErrors::is_empty`: whether no field has failed.
#[verifier::external_body]
fn is_clean(errors: &ValidationErrors) -> (clean: bool)
    ensures
        clean == (failed_fields(*errors) == Set::<Seq<char>>::empty()),
{
    errors.is_empty()
}

/// Accepts a text that is not blank.
pub fn not_blank(value: &str) -> (res: Result<(), ValidationError>)
    ensures
        res is Err <==> is_blank(value@),
{
    if blank(value) {
        return Err(with_message(new_error("not_blank"), "value cannot be blank"));
    }
    Ok(())
}

/// A chat message: who says it, and what.
#[derive(Debug)]
pub struct MessageDto {
    pub username: String,
    pub message: String,
}

/// The fields of `dto` that are blank, by name.
pub open spec fn blank_fields(dto: MessageDto) -> Set<Seq<char>> {
    Set::new(
        |field: Seq<char>|
            (field == "username"@ && is_blank(dto.username@)) || (field == "message"@ && is_blank(
                dto.message@,
            )),
    )
}

impl MessageDto {
    /// Whether the message may be relayed: neither field is blank.
    pub open spec fn is_valid(&self) -> bool {
        !is_blank(self.username@) && !is_blank(self.message@)
    }

    /// Checks that neither field is blank. A blank field is reported under its
    /// name, with the rejected text as the parameter `value`.
    pub fn validate(&self) -> (res: Result<(), ValidationErrors>)
        ensures
            res is Ok <==> self.is_valid(),
            res is Err ==> failed_fields(res->Err_0) == blank_fields(*self),
    {
        let mut errors = no_errors();
        match not_blank(self.username.as_str()) {
            Ok(()) => {},
            Err(error) => {
                let mut error = error;
                add_text_param(&mut error, "value", &self.username);
                add_error(&mut errors, "username", error);
            },
        }
        match not_blank(self.message.as_str()) {
            Ok(()) => {},
            Err(error) => {
                let mut error = error;
                add_text_param(&mut error, "value", &self.message);
                add_error(&mut errors, "message", error);
            },
        }
        proof {
            reveal_strlit("username");
            reveal_strlit("message");
            assert("username"@ != "message"@) by {
                assert("username"@.len() != "message"@.len());
            }
            assert(failed_fields(errors) =~= blank_fields(*self));
            if !self.is_valid() {
                assert(blank_fields(*self).contains("username"@) || blank_fields(*self).contains(
                    "message"@,
                ));
            }
        }
        if is_clean(&errors) {
            Ok(())
        } else {
            Err(errors)
        }
    }
}

/// A request to register: the name and the password of the new user.
#[derive(Debug)]
pub struct RegisterDto {
    pub username: String,
    pub password: String,
}

/// The answer to a registration: the session token, and where to go next.
pub struct RegisterResponse {
    pub token: String,
    pub redirect_url: String,
}

/// The answer to a request for a room: its name.
pub struct RoomResponse {
    pub room: String,
}

/// What a visitor may learn of a session: the name of its user.
pub struct Session {
    pub username: String,
}

} // verus!
