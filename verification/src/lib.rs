//! The decisions of a small case-listing web server: which page of case
//! records a request asks for, what is read from the store for it, what the
//! table template is given, and what reply a rendering becomes.

pub mod case;
pub mod config;
pub mod context;
pub mod decimal;
pub mod engine;
pub mod link;
pub mod pages;
pub mod paging;
pub mod render;
pub mod timestamp;
