//! The configurable parts: the mutations and the directory browser.

pub mod add;
pub mod auto_date;
pub mod case;
pub mod file_browser;
pub mod numbering;
pub mod regex;
pub mod remove;
pub mod replace;
