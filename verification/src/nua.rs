//! The agent, its dialog handles and the events that reach them.

pub mod builder;
pub mod event;
pub mod handle;
pub mod nua;

pub use crate::nua::builder::Builder;
pub use crate::nua::builder::Builder as NuaBuilder;
pub use crate::nua::event::Event;
pub use crate::nua::handle::Handle;
pub use crate::nua::nua::Nua;
