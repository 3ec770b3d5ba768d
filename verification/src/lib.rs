//! An error container: [`Status`] holds a [`Kind`] to match on, a [`Context`]
//! that takes up detail on the way up the stack, and at most one cause, which
//! is either open to everyone or kept for debugging.
//!
//! A cause is held as a [`Cause`]: what the error shows, and the causes behind
//! it. [`Status::sources`] walks the public causes only; the view that
//! [`Status::into_internal`] gives walks the cause whatever its visibility.
//! What a status shows never includes its cause.

pub mod cause;
pub mod chain;
pub mod context;
pub mod ext;
pub mod internal;
pub mod kind;
pub mod laws;
pub mod ordered;
pub mod status;
pub mod term;
pub mod text;

pub use crate::cause::{Cause, Failure};
pub use crate::chain::Chain;
pub use crate::context::{AdhocContext, AdhocValue, Context, NoContext};
pub use crate::ext::{ErrorContext, ResultStatusExt};
pub use crate::internal::InternalStatus;
pub use crate::kind::{Kind, Unkind};
pub use crate::status::{Source, SourceView, Status, StatusView};
pub use crate::term::TerminatingStatus;
pub use crate::text::Render;
