//! A safe manager for a hardware-synchronized frame clock: a native timer
//! bound to one display that invokes a registered callback once per refresh.
//!
//! The platform's timer primitive is an external collaborator with strict
//! usage rules (never start a running timer, never stop a stopped one, never
//! let it target freed callback storage). This library is the verified
//! safety net around it: a pause/resume state machine and a callback
//! registration protocol whose invariants guarantee those rules are met.
//! The unsafe platform binding itself lives outside the library and mirrors
//! each verified transition with the corresponding native call.

pub mod errors;
pub mod link;
pub mod timer;
