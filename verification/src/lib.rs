//! Settings panel core: configuration schema, persistence decisions,
//! localized strings, section navigation, search, reset flows, accent
//! colour helpers and the application state transitions of the
//! hayate-kit settings application.

pub mod lang;
pub mod modals;
pub mod persistence;
pub mod search;
pub mod sections;
pub mod state;
pub mod text;
pub mod window;
