//! A single-device RGB light controller library.
//!
//! The library holds the verified core of the controller: the canonical
//! color model and its numeric conversions, the output driver that turns a
//! color into per-channel PWM settings, the shared device state that
//! serializes updates from the two ingress paths, and the datagram dispatch
//! rules for the color control surface.

mod api;
mod color;
mod config;
mod driver;
mod osc;
mod state;

pub use api::{ApiError, PutOutcome, handle_put_color, malformed_request_error, resource_not_found_error};
pub use color::Color;
pub use config::{DEFAULT_OSC_PORT, bind_host, bind_port, parse_port};
pub use osc::{DatagramOutcome, DecodedDatagram, OscArg, color_command, decoded_of, dispatch_message, dispatch_post, handle_datagram, spec_color_command, spec_color_target};
pub use state::{DeviceState, startup_color, color_after_updates, lemma_set_then_get, lemma_updates_never_tear, lemma_reported_color_is_one_whole_update};
pub use driver::{DriverError, OutputDriver, period_ns, pulse_ns, OSCILLATION_HZ, RED_CHANNEL_PIN, GREEN_CHANNEL_PIN, BLUE_CHANNEL_PIN};
