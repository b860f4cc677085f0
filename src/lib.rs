//! Projects: the data model, the pages and the replies of a small web
//! application that lists, creates and shows projects.

pub mod routes;
pub mod project;
pub mod reply;
pub mod handlers;
pub mod error;
pub mod text;
