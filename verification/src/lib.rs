//! An edge-triggered input controller: a digital input line whose edges are
//! latched by an external-interrupt block, escalated through an interrupt
//! controller, and serviced by a routine that drives one digital output.
//!
//! The register semantics, the two masking levels and the service routine are
//! modelled on plain values so that every rule of the design is stated as a
//! contract and proved.
pub mod bits;
pub mod controller;
pub mod gpio;
pub mod line;
pub mod nvic;
pub mod registers;
pub mod sensor;
pub mod theorems;
pub mod wifi;
