mod greet;
pub mod subscriptions;
mod subscriptions_confirm;

pub use greet::greet;
pub use subscriptions::{
    confirmation_email, subscribe_step, subscriber_record, ConfirmationEmail, FormData, Reply,
    SubscribeAction, SubscribeError, SubscribeEvent, SubscribeStage, SubscriberRecord,
};
pub use subscriptions_confirm::Parameters;

use vstd::prelude::*;

verus! {

/// The values that the home page template shows.
pub struct HelloTemplate {
    pub name: String,
}

impl Default for HelloTemplate {
    fn default() -> (r: HelloTemplate)
        ensures
            r.name@ == Seq::<char>::empty(),
    {
        HelloTemplate { name: String::new() }
    }
}

} // verus!
