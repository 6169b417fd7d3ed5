//! Core logic of a multi-button macro pad: each key position carries a small
//! display and shares one sense line with the others. The crate holds the
//! configuration store that decodes the binary layout, the per-button
//! interaction state machine, and the dispatcher that turns classified
//! presses into page changes and redraw commands.
pub mod config;
pub mod clock;
pub mod button_machine;
pub mod util;
pub mod functions;
pub mod mux;
pub mod serial;
