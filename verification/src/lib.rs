//! A bot that posts generated pictures: the decisions of its pipeline, from
//! the wording of a prompt to the two calls that publish a post, with the
//! network and the disk left to the caller.

pub mod http;
pub mod imagegen;
pub mod job;
pub mod json;
pub mod phrase;
pub mod naming;
pub mod prompt;
pub mod publish;
pub mod schedule;
pub mod store;
pub mod text;
