//! Builders for the author block of a chat message embed.

pub mod author;
pub mod image_source;

pub use author::{AuthorFields, EmbedAuthorBuilder, Setting};
pub use image_source::{ImageSource, ImageSourceUrlError};
