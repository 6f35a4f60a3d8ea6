//! Modal dialogs: the accent picker, the reset confirmation, the overlay
//! stacking rule and the accent-colour helpers.

pub mod accent;
pub mod overlay;
pub mod reset;
pub mod wcag;
