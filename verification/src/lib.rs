//! A catalog of movies read from the pages of one origin site.
//!
//! The crate holds the pipeline from a page to a cached entity: what is
//! asked of the origin (`client`), how a page becomes entities (`html`,
//! `extract`, `rules`), how long results are kept (`cache`), how queries
//! run against all of that (`catalog`), and how a player is passed through
//! (`proxy`). It does no input or output: requests are handed out and
//! their outcomes taken in, and time is a parameter.

pub mod api;
pub mod cache;
pub mod catalog;
pub mod client;
pub mod config;
pub mod errors;
pub mod extract;
pub mod html;
pub mod models;
pub mod proxy;
pub mod reference;
pub mod rules;
pub mod text;
