//! Building blocks shared by every mutation and by the browser.

pub mod mutation_pipeline;
pub mod path_map;
pub mod slot;
