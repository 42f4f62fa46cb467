//! A chat bridge for a desktop shell: one stored API key, one prompt at a
//! time. The shell does the file and network work; every decision about
//! what to store, what to send and what an answer means is made here.

pub mod completion;
pub mod credential;
pub mod error;
pub mod json;
pub mod request;
pub mod response;
pub mod text;
