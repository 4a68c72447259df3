//! The core of the Autopilot desktop application: the application's
//! lifecycle and the state of its main window, kept as plain values and
//! verified with Verus.
//!
//! The toolkit stays outside. It reports activations, clicks and toggles; the
//! types here decide what follows, and the caller shows the result.

pub mod about;
pub mod application;
pub mod profile;
pub mod window;
