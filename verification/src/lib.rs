//! Verified core of a bookshelf service: the records it keeps, the rules
//! that accept or refuse a request, the decisions each request takes
//! between its database steps, and the logic of the browser client.


pub mod text;
pub mod model;
pub mod error;
pub mod validation;
pub mod books;
pub mod listing;
pub mod statements;
pub mod authors;
pub mod client;
pub mod display;
pub mod forms;
pub mod toast;
pub mod pages;
pub mod deletion;
