//! Choosing the host port that a published target port is mapped to.

use vstd::prelude::*;

verus! {

/// The lowest port of the dynamic range, the one drawn from.
pub const EPHEMERAL_PORT_MIN: u32 = 49152;

/// The highest port of the dynamic range.
pub const EPHEMERAL_PORT_MAX: u32 = 65535;

/// Relies on rand::random_range: a draw from a non-empty range yields a
/// value within that range.
#[verifier::external_body]
fn draw_ephemeral_port() -> (p: u32)
    ensures
        EPHEMERAL_PORT_MIN <= p <= EPHEMERAL_PORT_MAX,
{
    rand::random_range(49152..=65535u32)
}

/// A candidate host port, drawn at random from the dynamic range. Of the
/// draw nothing but the range is known — two calls may differ — so the
/// caller tests each candidate by binding a listener to it and draws
/// again when that fails.
pub fn host_port_candidate() -> (p: u32)
    ensures
        EPHEMERAL_PORT_MIN <= p <= EPHEMERAL_PORT_MAX,
{
    draw_ephemeral_port()
}

/// How the orchestrator resolves its ports: when the target's port is to
/// be published, the configured port is mapped to the freshly drawn host
/// port and the drawn port is the one to connect to; otherwise there is
/// no mapping and the configured port is connected to directly.
pub fn resolve_ports(expose_port: bool, configured_port: u32, drawn_port: u32) -> (r: (
    Option<(u32, u32)>,
    u32,
))
    ensures
        expose_port ==> r == (Some((configured_port, drawn_port)), drawn_port),
        !expose_port ==> r == (None::<(u32, u32)>, configured_port),
{
    if expose_port {
        (Some((configured_port, drawn_port)), drawn_port)
    } else {
        (None, configured_port)
    }
}

} // verus!
