//! A terminal client for Clockify time tracking: the state it keeps, the
//! decisions it takes on keys and background results, and what its panels
//! show.
pub mod api;
pub mod calendar;
pub mod config;
pub mod date;
pub mod laws;
pub mod layout;
pub mod lists;
pub mod models;
pub mod state;
pub mod text;
pub mod totals;
pub mod view;
