//! An observable value cell for property-changed style data binding.
//!
//! [`observable_property::ObservableProperty`] owns one value of an
//! equality-comparable type together with two notification channels.  A write
//! through [`observable_property::ObservableProperty::set`] compares the new
//! value with the stored one: when they are equal nothing happens and no
//! listener runs; when they differ the cell fires its `PropertyChanging`
//! channel while the old value is still visible, stores the new value, fires
//! its `PropertyChanged` channel, and reports that a change took place.
//!
//! The crate is single-threaded and synchronous: every listener call completes
//! before the write that triggered it returns.  A caller that shares one cell
//! across threads must supply its own synchronization.
#![allow(non_snake_case)]

pub mod observable_property;
pub mod property_event;

pub use observable_property::Notice;
pub use observable_property::ObservableProperty;
pub use property_event::PropertyEvent;
