//! A webhook-triggered deployment gate.
//!
//! A release notification is first authenticated by a keyed signature over
//! its raw body ([`signature`]); an authentic `package` event is then
//! resolved to a deployable service and turned into a registry-login and
//! stack-deploy command pair whose exit statuses decide the caller-visible
//! outcome ([`orchestrator`]). Everything here is pure decision logic: an
//! outer runner performs the commands and hands back what happened.

pub mod orchestrator;
pub mod signature;

use vstd::prelude::*;

verus! {

/// Fixed body of the liveness probe.
pub fn ping_body() -> (r: &'static str)
    ensures
        r@ == "Pong!"@,
{
    "Pong!"
}

} // verus!
