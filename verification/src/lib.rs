//! Client-side logic for a LiveStreet blog site: building the requests the
//! site expects and reading what it answers.

pub mod text;
pub mod pairs;
pub mod types;
pub mod trusted;
pub mod replies;
pub mod site;
pub mod profile;
pub mod pages;
pub mod cookies;
