//! Core of a sidebar-navigated personal portfolio site.
//!
//! The library holds everything the site decides or computes: the typed
//! content records, the ordering of the project list, the route table, the
//! contact-form submission state machine, and one view model per page. The
//! surrounding program renders the view models and performs the network
//! and timer work the models ask for.

pub mod contact;
pub mod content;
pub mod ext;
pub mod json;
pub mod order;
pub mod routes;
pub mod shell;
pub mod text;
pub mod views;
