//! The gateway subscriptions that the bot asks for when it connects.

use serenity::model::gateway::GatewayIntents;
use vstd::prelude::*;

verus! {

/// Bit of the guild-messages subscription in the gateway's intent mask.
pub open spec fn guild_messages_mask() -> u64 {
    0x200
}

/// Bit of the direct-messages subscription in the gateway's intent mask.
pub open spec fn direct_messages_mask() -> u64 {
    0x1000
}

/// Bit of the message-content subscription in the gateway's intent mask.
pub open spec fn message_content_mask() -> u64 {
    0x8000
}

/// The mask of the three subscriptions together.
pub open spec fn required_mask() -> u64 {
    0x9200
}

/// Trusted: the bits of serenity's `GatewayIntents::GUILD_MESSAGES`, which
/// the crate declares as `1 << 9`.
#[verifier::external_body]
fn guild_messages_bits() -> (bits: u64)
    ensures
        bits == guild_messages_mask(),
{
    GatewayIntents::GUILD_MESSAGES.bits()
}

/// Trusted: the bits of serenity's `GatewayIntents::DIRECT_MESSAGES`, which
/// the crate declares as `1 << 12`.
#[verifier::external_body]
fn direct_messages_bits() -> (bits: u64)
    ensures
        bits == direct_messages_mask(),
{
    GatewayIntents::DIRECT_MESSAGES.bits()
}

/// Trusted: the bits of serenity's `GatewayIntents::MESSAGE_CONTENT`, which
/// the crate declares as `1 << 15`.
#[verifier::external_body]
fn message_content_bits() -> (bits: u64)
    ensures
        bits == message_content_mask(),
{
    GatewayIntents::MESSAGE_CONTENT.bits()
}

/// The intent mask the client is constructed with: guild messages, direct
/// messages and message content, and nothing else.
pub fn required_intents() -> (bits: u64)
    ensures
        bits == required_mask(),
        bits == guild_messages_mask() | direct_messages_mask() | message_content_mask(),
{
    let guild: u64 = guild_messages_bits();
    let direct: u64 = direct_messages_bits();
    let content: u64 = message_content_bits();
    assert(0x200u64 | 0x1000u64 | 0x8000u64 == 0x9200u64) by (bit_vector);
    guild | direct | content
}

} // verus!
