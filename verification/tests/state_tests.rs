use pipo::messages::{ChannelState, UserState};
use pipo::state::StateCache;

fn channel(id: u32, name: Option<&str>, description: Option<&str>) -> ChannelState {
    let mut c = ChannelState::new();
    c.channel_id = Some(id);
    c.name = name.map(String::from);
    c.description = description.map(String::from);
    c
}

fn user(session: u32, name: Option<&str>) -> UserState {
    let mut u = UserState::new();
    u.session = Some(session);
    u.name = name.map(String::from);
    u
}

fn cache() -> StateCache {
    StateCache::new(
        String::from("PIPO"),
        vec![(String::from("#general"), 0), (String::from("#dev"), 1)],
    )
}

#[test]
fn a_channel_state_binds_its_mapping() {
    let mut c = cache();
    c.merge_channel(channel(7, Some("#general"), None));
    assert_eq!(c.bus_for_channel_id(7), Some(0));
    assert_eq!(c.channel_id_for_bus_name(&String::from("#general")), Some(7));
    assert_eq!(c.bus_for_channel_id(8), None);
}

#[test]
fn partial_merge_preserves_unset_fields() {
    let mut c = cache();
    c.merge_channel(channel(7, Some("general"), None));
    c.merge_channel(channel(7, None, Some("new")));
    let merged = c.channel_state(7).expect("channel cached");
    assert_eq!(merged.name.as_deref(), Some("general"));
    assert_eq!(merged.description.as_deref(), Some("new"));
}

#[test]
fn merging_the_same_channel_update_twice_changes_nothing() {
    let mut once = cache();
    once.merge_channel(channel(7, Some("#general"), None));
    once.merge_channel(channel(7, None, Some("topic")));
    let mut twice = cache();
    twice.merge_channel(channel(7, Some("#general"), None));
    twice.merge_channel(channel(7, None, Some("topic")));
    twice.merge_channel(channel(7, None, Some("topic")));
    assert_eq!(once.channel_state(7), twice.channel_state(7));
    assert_eq!(once.bus_for_channel_id(7), twice.bus_for_channel_id(7));
}

#[test]
fn merging_the_same_user_update_twice_changes_nothing() {
    let mut c = cache();
    c.merge_user(user(42, Some("alice")));
    c.merge_user(user(42, Some("alice")));
    assert_eq!(c.username_for_session(42).as_deref(), Some("alice"));
}

#[test]
fn user_merge_keeps_unset_fields() {
    let mut c = cache();
    c.merge_user(user(42, Some("alice")));
    c.merge_user(user(42, None));
    assert_eq!(c.username_for_session(42).as_deref(), Some("alice"));
}

#[test]
fn self_session_is_detected_and_cleared() {
    let mut c = cache();
    assert_eq!(c.actor_id(), None);
    c.merge_user(user(42, Some("alice")));
    assert_eq!(c.actor_id(), None);
    c.merge_user(user(5, Some("PIPO")));
    assert_eq!(c.actor_id(), Some(5));
    c.remove_user(5);
    assert_eq!(c.actor_id(), None);
    assert_eq!(c.username_for_session(5), None);
}

#[test]
fn removing_a_channel_unbinds_its_mapping() {
    let mut c = cache();
    c.merge_channel(channel(7, Some("#general"), None));
    c.remove_channel(7);
    assert_eq!(c.bus_for_channel_id(7), None);
    assert_eq!(c.channel_id_for_bus_name(&String::from("#general")), None);
    assert!(c.channel_state(7).is_none());
    // The mapping itself stays configured and can bind again.
    c.merge_channel(channel(9, Some("#general"), None));
    assert_eq!(c.bus_for_channel_id(9), Some(0));
}

#[test]
fn a_rename_moves_the_binding() {
    let mut c = cache();
    c.merge_channel(channel(7, Some("#general"), None));
    c.merge_channel(channel(7, Some("#dev"), None));
    assert_eq!(c.channel_id_for_bus_name(&String::from("#general")), None);
    assert_eq!(c.channel_id_for_bus_name(&String::from("#dev")), Some(7));
    assert_eq!(c.bus_for_channel_id(7), Some(1));
}

#[test]
fn reset_forgets_all_server_state() {
    let mut c = cache();
    c.merge_channel(channel(7, Some("#general"), None));
    c.merge_user(user(5, Some("PIPO")));
    c.reset();
    assert_eq!(c.actor_id(), None);
    assert!(c.channel_state(7).is_none());
    assert_eq!(c.username_for_session(5), None);
    assert_eq!(c.bus_for_channel_id(7), None);
    assert_eq!(c.channel_id_for_bus_name(&String::from("#general")), None);
    assert_eq!(c.mapping_count(), 2);
}

#[test]
fn channel_ids_come_back_in_arrival_order() {
    let mut c = cache();
    c.merge_channel(channel(3, None, None));
    c.merge_channel(channel(1, None, None));
    c.merge_channel(channel(2, None, None));
    c.merge_channel(channel(1, None, Some("again")));
    assert_eq!(c.channel_id_list(), vec![3, 1, 2]);
}
