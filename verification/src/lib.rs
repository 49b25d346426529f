//! Photo enrolment against a remote identity-verification service.
//!
//! A run asks for a one-time enrolment token for a new random user, uploads
//! a photo under that token and, on request, deletes the user again under an
//! OAuth access token. The library decides; the program around it acts. A
//! [`session::Session`] hands out one [`session::Action`] at a time (send
//! this request, read the photo, leave with this code) together with the
//! lines to log, and is told what came of it as a [`session::Event`]. The
//! first failure ends the run: nothing is retried.
//!
//! [`laws`] holds what is proved of every run.

pub mod config;
pub mod error;
pub mod journal;
pub mod json;
pub mod laws;
pub mod request;
pub mod response;
pub mod session;
pub mod status;
pub mod step;
pub mod username;
