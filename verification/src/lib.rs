//! Verified core of a multi-monitor layout switcher.
//!
//! The library models the platform's display-configuration protocol: listing
//! display devices and their supported modes, reading the settings a device is
//! currently using, and realizing a requested layout by staging one change per
//! device and then committing all staged changes in a single system-wide step.
//! The operating-system calls themselves live outside the library; every
//! decision taken around them is verified here.

pub mod device;
pub mod errors;
pub mod layout;
pub mod modes;
pub mod orientation;
pub mod settings;
