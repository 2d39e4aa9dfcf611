//! Core of a terminal reader for a link-aggregator site: the listing modes
//! and their pager, the page cache, and the state machine that reconciles
//! user input with fetched data.

pub mod action;
pub mod app;
pub mod cache;
pub mod data;
pub mod database;
pub mod display;
pub mod handle_events;
pub mod handle_posts;
pub mod input;
pub mod laws;
pub mod mode_map;
pub mod modes;
pub mod navigate;
pub mod text;
pub mod utils;
pub mod worker;
