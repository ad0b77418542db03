pub mod subscriber_email;
pub mod subscriber_name;

pub use subscriber_email::SubscriberEmail;
pub use subscriber_name::SubscriberName;

use crate::errors::Error;
use crate::routes::FormData;
use subscriber_email::{email_is_valid, is_email_error, user_part};
use subscriber_name::{
    has_forbidden_character, is_blank, is_name_error, is_valid_name, MAX_GRAPHEMES,
};
use vstd::prelude::*;

verus! {

/// A subscriber whose name and email both passed validation.
pub struct NewSubscriber {
    pub email: SubscriberEmail,
    pub name: SubscriberName,
}

impl NewSubscriber {
    pub fn new(email: SubscriberEmail, name: SubscriberName) -> (r: NewSubscriber)
        ensures
            r.email == email,
            r.name == name,
    {
        NewSubscriber { email, name }
    }

    /// Validates a submitted form: the name first, then the email. The first
    /// rule that fails gives the error.
    pub fn try_from(value: FormData) -> (r: Result<NewSubscriber, Error>)
        ensures
            r is Ok <==> is_valid_name(value.name@) && email_is_valid(value.email@),
            r matches Ok(s) ==> s.name@ == value.name@ && s.email@ == value.email@,
            r matches Err(e) ==> if !is_valid_name(value.name@) {
                is_name_error(e)
            } else {
                is_email_error(e, value.email@)
            },
            value.name@.len() <= MAX_GRAPHEMES && !is_blank(value.name@) && !has_forbidden_character(
                value.name@,
            ) ==> is_valid_name(value.name@),
            !value.email@.contains('@') ==> r is Err,
            value.email@.contains('@') && user_part(value.email@).len() == 0 ==> r is Err,
    {
        let name = match SubscriberName::parse(value.name.as_str()) {
            Ok(name) => name,
            Err(e) => return Err(e),
        };
        let email = match SubscriberEmail::parse(value.email.as_str()) {
            Ok(email) => email,
            Err(e) => return Err(e),
        };
        Ok(NewSubscriber::new(email, name))
    }
}

} // verus!
