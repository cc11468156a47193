//! Control core of a battery-powered, network-connected quiz-response
//! terminal: the battery capacity estimator, the typed event stream that
//! merges button, network and battery signals, and the quiz state machine
//! that decides what to render and what to transmit.

pub mod battery;
pub mod bus;
pub mod controller;
pub mod controls;
pub mod event;
pub mod text;
