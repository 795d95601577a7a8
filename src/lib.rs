//! A greeting firmware's logic: the message it sends, the serial frame
//! timing, the greeting task's scheduling decisions and the boot decision.

pub mod message;
pub mod serial;
pub mod greeter;
pub mod firmware;
