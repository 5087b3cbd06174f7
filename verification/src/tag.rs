//! Parameter tags and the lists that native calls take.

pub mod builder;
pub mod tag;

pub use crate::tag::builder::Builder;
pub use crate::tag::tag::Kind;
pub use crate::tag::tag::Tag;
pub use crate::tag::tag::TagItem;
pub use crate::tag::tag::TagType;
