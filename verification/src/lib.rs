//! Watches the latest deployment of a project and decides, on every poll,
//! whether to announce that a build is running, announce that the deployment
//! is ready and open its live URL, or stay quiet.
//!
//! The decision logic is verified: the state machine over observations, the
//! age window for build announcements, and the suppression of duplicate
//! "ready" announcements. Fetching the records over HTTP, showing desktop
//! notifications and launching the browser are left to the surrounding
//! application.

mod clock;
pub mod decode;
pub mod laws;
pub mod state;
pub mod step;
