//! Supervision of one operating-system process: ask it to stop with the
//! interrupt signal, wait for it, and report how it ended.
//!
//! A [`process::Process`] stands for a live process. Sending the interrupt
//! turns it into a [`process::SignalledProcess`], and each wait on that either
//! ends the supervision with a final disposition or an error, or hands the
//! value back for another wait. What each answer of the operating system
//! means is decided in [`status`], and [`lifecycle`] states what a whole
//! termination returns for a given run of answers.

pub mod lifecycle;
pub mod process;
pub mod status;
