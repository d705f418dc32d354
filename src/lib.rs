//! Verified core of three small command-line tools: an asynchronous
//! image-generation client, a `.env`-to-shell converter and a
//! Chinese-to-English dictionary lookup.

pub mod filename;
pub mod shell;
pub mod sizes;
pub mod text;
pub mod protocol;
pub mod translate;
