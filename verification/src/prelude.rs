//! The names that a user of the data layer needs.

pub use crate::db::{Database, DatabaseConnector};
pub use crate::entity::{IdType, Status, Task, Todo};
pub use crate::error::{ErrorKind, InternalError};
