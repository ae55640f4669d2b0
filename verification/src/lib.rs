//! Private relay transports for Buzz.
use vstd::prelude::*;

pub mod auth;
pub mod connection;
pub mod discovery;
pub mod dispatch;
pub mod envelope;
pub mod fips_mobile;
pub mod fips_runtime;
pub mod identifiers;
pub mod invite;
pub mod native_websocket;
pub mod nip17_gateway;
pub mod nip17_gateway_runtime;
pub mod pipeline;
pub mod playback_speed;
pub mod protocol;
pub mod relay_invite;
pub mod relay_url;
pub mod remote_config;
pub mod send_loop;
pub mod text;
pub mod transport;

verus! {

}
