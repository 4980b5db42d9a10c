//! What the row of a notification shows: its text, its pictures, its buttons and its badges,
//! and where each of them stands.

pub mod actions;
pub mod address;
pub mod catalog;
pub mod escape;
pub mod events;
pub mod icons;
pub mod image_fetch;
pub mod images;
pub mod markdown;
pub mod markup;
pub mod pango;
pub mod pango_laws;
pub mod row;
pub mod row_laws;
pub mod style;
pub mod text;
pub mod time;
