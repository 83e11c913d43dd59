//! The HTML pages that the service hands out.

pub mod auth_page;
pub mod pair_page;
