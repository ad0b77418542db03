//! Domain rules of a newsletter service: validation of subscriber names and
//! emails, the subscription workflow's decisions, and the confirmation email.
pub mod domain;
pub mod errors;
pub mod routes;
pub mod email_client;
