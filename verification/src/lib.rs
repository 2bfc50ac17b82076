//! Report encoding and input decisions for a trackball mouse.

pub mod report;
pub mod hid;
pub mod trackball;
pub mod scanner;
pub mod interrupts;
pub mod indicator;
