//! Signed webhook ingress for a messaging platform: authenticate a callback,
//! decode its event batch, and plan one echo reply per event.

pub mod dispatch;
pub mod error;
pub mod handler;
pub mod json;
pub mod laws;
pub mod reply;
pub mod signature;
pub mod state;
pub mod webhook_event;
