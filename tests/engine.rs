use annoybot::gate::{Receiver, TickOutcome};
use annoybot::identity::IdentityTable;
use annoybot::playback::PlaybackRegistry;
use annoybot::presence::{is_filtered_out, voice_state_update, PresenceAction, VoiceContext, VoiceStateChange};
use annoybot::targets::{add_annoy_user, remove_annoy_user, TargetRegistry};

const BOT: u64 = 999;

fn joins(guild: u64, user: u64, channel: u64) -> VoiceStateChange {
    VoiceStateChange { guild_id: guild, user_id: user, previous_channel: None, new_channel: Some(channel) }
}

fn leaves(guild: u64, user: u64, channel: u64) -> VoiceStateChange {
    VoiceStateChange { guild_id: guild, user_id: user, previous_channel: Some(channel), new_channel: None }
}

fn idle_bot() -> VoiceContext {
    VoiceContext { self_id: BOT, previous_occupancy: None, bot_channel: None, bot_occupancy: 0 }
}

#[test]
fn add_target_twice_is_idempotent() {
    let mut t = TargetRegistry::new();
    t.add_target(7, 42);
    t.add_target(7, 42);
    assert!(t.is_target(7, 42));
    t.remove_target(7, 42);
    assert!(!t.is_target(7, 42));
    assert!(t.has_entry(7));
    assert!(!t.has_targets(7));
}

#[test]
fn remove_absent_pair_is_noop() {
    let mut t = TargetRegistry::new();
    t.remove_target(7, 42);
    assert!(!t.has_entry(7));
    t.add_target(7, 1);
    t.remove_target(7, 42);
    assert!(t.is_target(7, 1));
    assert!(!t.is_target(7, 42));
}

#[test]
fn free_functions_update_registry() {
    let mut t = TargetRegistry::new();
    add_annoy_user(&mut t, &7, 42);
    add_annoy_user(&mut t, &7, 43);
    assert!(t.is_target(7, 42) && t.is_target(7, 43));
    remove_annoy_user(&mut t, &7, 42);
    assert!(!t.is_target(7, 42));
    assert!(t.is_target(7, 43));
}

#[test]
fn guilds_are_isolated() {
    let mut t = TargetRegistry::new();
    let mut pb: PlaybackRegistry<u32> = PlaybackRegistry::new();
    pb.install(8, 5);
    t.add_target(8, 42);
    t.add_target(7, 42);
    t.remove_target(7, 42);
    assert!(t.is_target(8, 42));
    assert!(!t.is_target(7, 42));
    assert!(!t.has_entry(9));
    let r = Receiver::new(7);
    let ids = IdentityTable::new();
    assert_eq!(r.on_voice_tick(&t, &ids, &mut pb, &vec![]), TickOutcome::NoHandle);
    let p = pb.get(8).unwrap();
    assert_eq!(p.handle, 5);
    assert!(!p.playing);
}

#[test]
fn identity_table_latest_mapping_wins() {
    let mut ids = IdentityTable::new();
    assert_eq!(ids.resolve(1001), None);
    ids.observe(1001, 42);
    assert_eq!(ids.resolve(1001), Some(42));
    ids.observe(1001, 43);
    assert_eq!(ids.resolve(1001), Some(43));
    let r = Receiver::new(7);
    r.on_speaking_update(&mut ids, 1002, None);
    assert_eq!(ids.resolve(1002), None);
    r.on_speaking_update(&mut ids, 1002, Some(44));
    assert_eq!(ids.resolve(1002), Some(44));
}

#[test]
fn gate_plays_only_for_resolved_targets() {
    let mut t = TargetRegistry::new();
    t.add_target(7, 42);
    let mut ids = IdentityTable::new();
    ids.observe(1001, 42);
    ids.observe(1002, 50);
    let mut pb: PlaybackRegistry<u8> = PlaybackRegistry::new();
    pb.install(7, 0);
    let r = Receiver::new(7);
    // a speaking non-target and an unresolved stream keep it paused
    assert_eq!(r.on_voice_tick(&t, &ids, &mut pb, &vec![1002, 3000]), TickOutcome::Paused);
    assert!(!pb.get(7).unwrap().playing);
    assert_eq!(r.on_voice_tick(&t, &ids, &mut pb, &vec![1002, 1001]), TickOutcome::Resumed);
    assert!(pb.get(7).unwrap().playing);
}

#[test]
fn gate_inert_without_target_entry() {
    let t = TargetRegistry::new();
    let mut ids = IdentityTable::new();
    ids.observe(1001, 42);
    let mut pb: PlaybackRegistry<u8> = PlaybackRegistry::new();
    pb.install(7, 0);
    let r = Receiver::new(7);
    assert_eq!(r.on_voice_tick(&t, &ids, &mut pb, &vec![1001]), TickOutcome::Disabled);
    assert!(!pb.get(7).unwrap().playing);
}

#[test]
fn gate_without_handle_skips_tick() {
    let mut t = TargetRegistry::new();
    t.add_target(7, 42);
    let mut ids = IdentityTable::new();
    ids.observe(1001, 42);
    let mut pb: PlaybackRegistry<u8> = PlaybackRegistry::new();
    let r = Receiver::new(7);
    assert_eq!(r.on_voice_tick(&t, &ids, &mut pb, &vec![1001]), TickOutcome::NoHandle);
    assert!(pb.get(7).is_none());
}

#[test]
fn filter_fast_path_ignores_non_targets() {
    let mut t = TargetRegistry::new();
    t.add_target(7, 42);
    assert!(is_filtered_out(&t, 7, 50));
    assert!(!is_filtered_out(&t, 7, 42));
    assert!(!is_filtered_out(&t, 8, 50));
    // even a departure that would leave the bot alone is ignored
    let cx = VoiceContext { previous_occupancy: Some(1), ..idle_bot() };
    assert_eq!(voice_state_update(&t, &leaves(7, 50, 3), &cx), PresenceAction::Ignore);
    assert_eq!(voice_state_update(&t, &joins(7, 50, 3), &idle_bot()), PresenceAction::Ignore);
}

#[test]
fn bot_own_event_never_joins() {
    let mut t = TargetRegistry::new();
    t.add_target(7, BOT);
    assert_eq!(voice_state_update(&t, &joins(7, BOT, 3), &idle_bot()), PresenceAction::Ignore);
}

#[test]
fn leave_when_alone() {
    let mut t = TargetRegistry::new();
    t.add_target(7, 42);
    let alone = VoiceContext { previous_occupancy: Some(1), ..idle_bot() };
    assert_eq!(voice_state_update(&t, &leaves(7, 42, 3), &alone), PresenceAction::Leave(7));
    let empty = VoiceContext { previous_occupancy: Some(0), ..idle_bot() };
    assert_eq!(voice_state_update(&t, &leaves(7, 42, 3), &empty), PresenceAction::Leave(7));
    let company = VoiceContext { previous_occupancy: Some(2), ..idle_bot() };
    assert_eq!(voice_state_update(&t, &leaves(7, 42, 3), &company), PresenceAction::Ignore);
    let unknown = VoiceContext { previous_occupancy: None, ..idle_bot() };
    assert_eq!(voice_state_update(&t, &leaves(7, 42, 3), &unknown), PresenceAction::Ignore);
}

#[test]
fn no_previous_state_and_no_channel_is_noop() {
    let mut t = TargetRegistry::new();
    t.add_target(7, 42);
    let ev = VoiceStateChange { guild_id: 7, user_id: 42, previous_channel: None, new_channel: None };
    let cx = VoiceContext { previous_occupancy: Some(1), ..idle_bot() };
    assert_eq!(voice_state_update(&t, &ev, &cx), PresenceAction::Ignore);
}

#[test]
fn connected_bot_is_not_moved() {
    let mut t = TargetRegistry::new();
    t.add_target(7, 42);
    let busy = VoiceContext { bot_channel: Some(3), bot_occupancy: 2, ..idle_bot() };
    assert_eq!(voice_state_update(&t, &joins(7, 42, 3), &busy), PresenceAction::Ignore);
    let elsewhere = VoiceContext { bot_channel: Some(4), bot_occupancy: 1, ..idle_bot() };
    assert_eq!(voice_state_update(&t, &joins(7, 42, 3), &elsewhere), PresenceAction::Ignore);
    let same_alone = VoiceContext { bot_channel: Some(3), bot_occupancy: 1, ..idle_bot() };
    assert_eq!(voice_state_update(&t, &joins(7, 42, 3), &same_alone), PresenceAction::Join(7, 3));
}

#[test]
fn scenario_non_target_join_does_nothing() {
    let mut t = TargetRegistry::new();
    t.add_target(7, 1);
    t.remove_target(7, 1);
    let mut pb: PlaybackRegistry<u8> = PlaybackRegistry::new();
    let action = voice_state_update(&t, &joins(7, 42, 3), &idle_bot());
    assert_eq!(action, PresenceAction::Ignore);
    assert!(pb.get(7).is_none());
    let fresh = TargetRegistry::new();
    assert_eq!(voice_state_update(&fresh, &joins(7, 42, 3), &idle_bot()), PresenceAction::Ignore);
    assert!(!pb.set_playing(7, true));
}

#[test]
fn scenario_target_join_installs_paused_track() {
    let mut t = TargetRegistry::new();
    t.add_target(7, 42);
    let mut pb: PlaybackRegistry<&str> = PlaybackRegistry::new();
    let action = voice_state_update(&t, &joins(7, 42, 3), &idle_bot());
    assert_eq!(action, PresenceAction::Join(7, 3));
    if let PresenceAction::Join(g, _) = action {
        pb.install(g, "loop");
    }
    let p = pb.get(7).unwrap();
    assert_eq!(p.handle, "loop");
    assert!(!p.playing);
}

#[test]
fn scenario_speaking_tick_toggles_playback() {
    let mut t = TargetRegistry::new();
    t.add_target(7, 42);
    let mut ids = IdentityTable::new();
    let mut pb: PlaybackRegistry<u8> = PlaybackRegistry::new();
    pb.install(7, 1);
    let r = Receiver::new(7);
    r.on_speaking_update(&mut ids, 1001, Some(42));
    assert_eq!(r.on_voice_tick(&t, &ids, &mut pb, &vec![1001]), TickOutcome::Resumed);
    assert!(pb.get(7).unwrap().playing);
    assert_eq!(r.on_voice_tick(&t, &ids, &mut pb, &vec![]), TickOutcome::Paused);
    assert!(!pb.get(7).unwrap().playing);
}

#[test]
fn scenario_last_target_leaves_and_handle_goes_stale() {
    let mut t = TargetRegistry::new();
    t.add_target(7, 42);
    let mut pb: PlaybackRegistry<u8> = PlaybackRegistry::new();
    pb.install(7, 1);
    let cx = VoiceContext { previous_occupancy: Some(1), bot_channel: Some(3), bot_occupancy: 2, ..idle_bot() };
    assert_eq!(voice_state_update(&t, &leaves(7, 42, 3), &cx), PresenceAction::Leave(7));
    // the registry is not cleared by a leave
    assert!(pb.get(7).is_some());
}
