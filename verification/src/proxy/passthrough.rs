//! The last middleware of the plain proxy: the passthrough to the upstream
//! transport, with the helpers and the connection that it rests on.

pub use crate::upstream::connection::Connection;
pub use crate::upstream::helpers;
pub use crate::upstream::shared::{Pending, PendingKind, Shared};
pub use crate::upstream::{Middleware, Subscription, Transport};
pub use crate::ws_upstream as ws;
