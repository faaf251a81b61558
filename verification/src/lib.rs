//! Power management for a supercapacitor-backed host controller.
//!
//! The controller sits between an external supply, a supercapacitor and a
//! host computer. It decides when the host's rails are enabled, rides
//! through short losses of external power on the supercapacitor, watches
//! over the host where the host asks for it, and shows its state on a row
//! of LEDs.
//!
//! The crate holds those decisions as plain functions from state and
//! stimulus to next state and effects. Every function carries a contract,
//! so the surrounding firmware only samples inputs, performs the effects it
//! is handed, and feeds back what happened.
//!
//! - [`state_machine`] is the hierarchical power state machine,
//!   [`event_loop`] turns one tick's commands and readings into its events,
//!   and [`guarantees`] states what holds of both.
//! - [`config`], [`config_manager`] and [`version`] hold the compiled-in and
//!   the operator-tunable values.
//! - [`gpio_input`], [`power_button`] and [`host_watchdog`] serve the inputs
//!   and the emulated power button.
//! - [`colors`], [`led_blinker`] and [`led_patterns`] render the status LEDs.
//! - [`i2c_secondary`], [`flash_writer`], [`flash_layout`] and
//!   [`shared_types`] serve the host protocol and firmware updates.

pub mod colors;
pub mod config;
pub mod config_manager;
pub mod event_loop;
pub mod flash_layout;
pub mod flash_writer;
pub mod gpio_input;
pub mod guarantees;
pub mod host_watchdog;
pub mod i2c_secondary;
pub mod led_blinker;
pub mod led_patterns;
pub mod power_button;
pub mod shared_types;
pub mod state_machine;
pub mod version;
