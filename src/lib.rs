//! Mouse automation engine: button polling, coordinate capture and a
//! budgeted click scheduler.
pub mod buttons;
pub mod capture;
pub mod engine;
pub mod scheduler;
