//! Verified decision logic of a daemon that streams a Canon EOS live view
//! as a USB (UVC) webcam.

pub mod text;
pub mod pid_file;
pub mod focus;
pub mod stream;
pub mod preview;
pub mod identity;
pub mod supervisor;
