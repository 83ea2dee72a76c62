//! The presence reactor: decides, for one voice-state change, whether to
//! join the acting user's channel, leave the guild's voice connection, or
//! do nothing.
use vstd::prelude::*;

use crate::targets::{spec_is_target, targets_in, TargetRegistry, TargetsModel};
use crate::{ChannelId, GuildId, UserId};

verus! {

/// One user's voice-state change in one guild.
#[derive(Clone, Copy, Debug)]
pub struct VoiceStateChange {
    pub guild_id: GuildId,
    /// The acting user.
    pub user_id: UserId,
    /// The channel of the previous state; `None` when there was no previous state.
    pub previous_channel: Option<ChannelId>,
    /// The channel of the new state; `None` when the user left voice.
    pub new_channel: Option<ChannelId>,
}

/// What the voice client reported around the change.
#[derive(Clone, Copy, Debug)]
pub struct VoiceContext {
    /// The bot's own user identity.
    pub self_id: UserId,
    /// Members remaining in the previous channel; `None` when it could not be counted.
    pub previous_occupancy: Option<usize>,
    /// The channel the bot is connected to in this guild, if any.
    pub bot_channel: Option<ChannelId>,
    /// Members of the bot's channel (meaningless when it is not connected).
    pub bot_occupancy: usize,
}

/// The reactor's decision.
#[derive(PartialEq, Eq, Structural, Clone, Copy, Debug)]
pub enum PresenceAction {
    /// No join, no leave, nothing else.
    Ignore,
    /// Leave the guild's voice connection.
    Leave(GuildId),
    /// Join the given channel of the given guild.
    Join(GuildId, ChannelId),
}

/// The fast-path filter: the guild has targets and `u` is not one of them.
pub open spec fn spec_filtered_out(m: TargetsModel, g: GuildId, u: UserId) -> bool {
    !targets_in(m, g).is_empty() && !targets_in(m, g).contains(u)
}

/// The bot already holds a connection that a join to `c` must not disturb:
/// it shares its channel with someone, or it sits in another channel.
pub open spec fn already_handled(cx: VoiceContext, c: ChannelId) -> bool {
    match cx.bot_channel {
        Some(b) => cx.bot_occupancy > 1 || b != c,
        None => false,
    }
}

/// The decision for change `ev` in context `cx` against target registry `m`.
pub open spec fn presence_decision(
    m: TargetsModel,
    ev: VoiceStateChange,
    cx: VoiceContext,
) -> PresenceAction {
    if spec_filtered_out(m, ev.guild_id, ev.user_id) {
        PresenceAction::Ignore
    } else {
        match ev.new_channel {
            None => {
                if ev.previous_channel.is_some() && cx.previous_occupancy.is_some()
                    && cx.previous_occupancy.unwrap() <= 1 {
                    PresenceAction::Leave(ev.guild_id)
                } else {
                    PresenceAction::Ignore
                }
            },
            Some(c) => {
                if ev.user_id == cx.self_id || already_handled(cx, c) {
                    PresenceAction::Ignore
                } else if spec_is_target(m, ev.guild_id, ev.user_id) {
                    PresenceAction::Join(ev.guild_id, c)
                } else {
                    PresenceAction::Ignore
                }
            },
        }
    }
}

/// Whether an event of user `u` in guild `g` is dropped by the fast-path
/// filter, before anything about channels is looked up.
pub fn is_filtered_out(targets: &TargetRegistry, g: GuildId, u: UserId) -> (r: bool)
    ensures
        r == spec_filtered_out(targets@, g, u),
{
    targets.has_targets(g) && !targets.is_target(g, u)
}

/// Decides how to react to the voice-state change `ev`.
pub fn voice_state_update(targets: &TargetRegistry, ev: &VoiceStateChange, cx: &VoiceContext) -> (r:
    PresenceAction)
    ensures
        r == presence_decision(targets@, *ev, *cx),
        spec_filtered_out(targets@, ev.guild_id, ev.user_id) ==> r == PresenceAction::Ignore,
        ev.user_id == cx.self_id ==> !(r is Join),
        !spec_filtered_out(targets@, ev.guild_id, ev.user_id) && ev.new_channel.is_none()
            && ev.previous_channel.is_some() && cx.previous_occupancy.is_some() ==> (r
            == PresenceAction::Leave(ev.guild_id) <==> cx.previous_occupancy.unwrap() <= 1),
{
    let g = ev.guild_id;
    let u = ev.user_id;
    if is_filtered_out(targets, g, u) {
        return PresenceAction::Ignore;
    }
    match ev.new_channel {
        None => {
            match (ev.previous_channel, cx.previous_occupancy) {
                (Some(_), Some(n)) => {
                    if n <= 1 {
                        PresenceAction::Leave(g)
                    } else {
                        PresenceAction::Ignore
                    }
                },
                _ => PresenceAction::Ignore,
            }
        },
        Some(c) => {
            let handled = match cx.bot_channel {
                Some(b) => cx.bot_occupancy > 1 || b != c,
                None => false,
            };
            if u == cx.self_id || handled {
                PresenceAction::Ignore
            } else if targets.is_target(g, u) {
                PresenceAction::Join(g, c)
            } else {
                PresenceAction::Ignore
            }
        },
    }
}

} // verus!
