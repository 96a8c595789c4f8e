//! Investment tracking core: the record model, the client-side lifecycle
//! reducer that mirrors server state, form validation, and the decision
//! logic of the controller that sits between the two.
//!
//! Everything here is pure logic over plain values; the HTTP client, the
//! database and the browser UI live outside this crate and hand values in.

pub mod controller;
pub mod forms;
pub mod numeric;
pub mod panels;
pub mod records;
pub mod renewal;
pub mod state;
pub mod text;
