//! # educore-communication
//!
//! Notices, complaints, chat, email/SMS dispatch, notifications,
//! contact forms, speech sliders and phone-call logs of the school
//! engine: validated value objects, aggregates with their state
//! transitions, typed commands and events, the pure factory services
//! that turn a command into a new or updated aggregate plus its event,
//! and the template renderer.
#![allow(unused_imports)]

pub mod aggregate;
pub mod commands;
pub mod entities;
pub mod errors;
pub mod events;
pub mod foundation;
pub mod prelude;
pub mod query;
pub mod rendering;
pub mod services;
pub mod template;
pub mod value_objects;

use vstd::prelude::*;

verus! {

/// Package name, so consumers can check which crate they link.
pub const PACKAGE_NAME: &'static str = "educore-communication";

/// Package version.
pub const PACKAGE_VERSION: &'static str = "0.1.0";

} // verus!
