//! The history panel of saved text threads, without its toolkit: which rows the panel lists, which
//! row is selected, what each row shows, and what is asked of the thread store.

pub mod bucket;
pub mod calendar;
pub mod clock;
pub mod history;
pub mod items;
pub mod laws;
pub mod operations;
pub mod paths;
pub mod rows;
pub mod selection;
pub mod text;
pub mod thread;
pub mod timestamp;
