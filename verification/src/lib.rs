//! A verified, engine-free core for driving a native SIP user-agent stack.
//!
//! The crate never touches the native engine itself.  Every operation is a
//! transition: it looks at the state of a reactor, agent or dialog handle and
//! at the engine's last [`sys::Reply`], updates the state, and says which
//! native [`sys::Call`] has to be made next.  The embedding program makes the
//! call and comes back with the reply.

pub mod error;
pub mod nua;
pub mod sip;
pub mod su;
pub mod sys;
pub mod tag;
pub mod text;

pub use crate::error::Error;
pub use crate::nua::event::Event as NuaEvent;
pub use crate::nua::handle::Handle;
pub use crate::nua::nua::Nua;
pub use crate::sip::Sip;
pub use crate::su::get_default_root;
pub use crate::su::main_loop_quit;
pub use crate::su::main_loop_run;
pub use crate::su::Root;
pub use crate::tag::builder::Builder as TagBuilder;
pub use crate::tag::tag::Tag;
