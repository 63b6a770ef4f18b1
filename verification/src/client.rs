//! What the gateway client is constructed with.

use crate::commands::{Command, Framework};
use crate::config::Config;
use crate::identity::Owners;
use crate::intents::{required_intents, required_mask};
use vstd::prelude::*;

verus! {

/// The ingredients of the client: the token, the gateway subscriptions and
/// the command framework.
#[derive(Debug)]
pub struct ClientPlan {
    pub token: String,
    /// The intent mask to subscribe with.
    pub intents: u64,
    pub framework: Framework,
}

/// Puts together what the client is built from: the configured token, the
/// three message subscriptions, and a framework with prefix "!", the
/// resolved owners and the general group with `ping`.
pub fn plan_client(config: Config, owners: Owners) -> (plan: ClientPlan)
    ensures
        plan.token@ == config.token@,
        plan.intents == required_mask(),
        plan.framework.prefix@ == "!"@,
        plan.framework.owners@ == owners@,
        plan.framework.group.name@ == "General"@,
        plan.framework.group.commands@ == seq![Command::Ping],
{
    ClientPlan {
        token: config.token,
        intents: required_intents(),
        framework: Framework::new(owners.ids),
    }
}

} // verus!
