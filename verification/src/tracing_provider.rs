//! The tracing helpers as the backend binary names them.

pub use crate::tracing::{configured_max_level, get_log_level, Level};
