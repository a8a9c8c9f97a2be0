//! Core logic of a macOS menu-bar overlay panel.
//!
//! The crate verifies the two design-bearing subsystems of the application:
//! the presentation state machine that coordinates the main panel, the notch
//! indicator surface and a memoized screen position, and the selection-capture
//! engine that drives an accessibility query with a clipboard-mediated
//! fallback protocol. Every operating-system call (accessibility queries,
//! clipboard reads and writes, window operations) is performed by an outer
//! driver; the library decides, the driver obeys.

pub mod capture;
pub mod credentials;
pub mod presentation;
pub mod shortcuts;
pub mod text;
