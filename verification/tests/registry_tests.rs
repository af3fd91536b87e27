use media_registry::domain::{
    DeviceRole, MediaDevice, MediaDeviceSession, MediaDeviceType, MediaPlayer, MediaPlayerOwner,
    MediaPlayerTimeline, MEDIA_PLAYER_GRACE_MS, VOLUME_SCALE,
};
use media_registry::errors::{PolicyError, SessionError};
use media_registry::registry::{DeviceEvent, MediaRegistry};

fn device(id: &str, device_type: MediaDeviceType) -> MediaDevice {
    MediaDevice {
        id: id.to_string(),
        name: id.to_string(),
        device_type,
        is_default_multimedia: false,
        is_default_communications: false,
        sessions: Vec::new(),
        volume: 5000,
        muted: false,
    }
}

fn session(instance_id: &str, process_id: u32) -> MediaDeviceSession {
    MediaDeviceSession {
        id: format!("session-{instance_id}"),
        instance_id: instance_id.to_string(),
        process_id,
        name: "app".to_string(),
        icon_path: None,
        is_system: false,
        volume: 5000,
        muted: false,
    }
}

fn player(umid: &str) -> MediaPlayer {
    MediaPlayer {
        umid: umid.to_string(),
        title: "track".to_string(),
        author: "artist".to_string(),
        thumbnail: None,
        owner: MediaPlayerOwner { name: Some(umid.to_string()) },
        timeline: MediaPlayerTimeline { position_ms: 0, duration_ms: 240_000, rate_milli: 1000 },
        playing: true,
        is_default: false,
        removed_at: None,
    }
}

fn ids(reg: &MediaRegistry) -> Vec<String> {
    let mut v: Vec<String> = reg.list_devices().iter().map(|d| d.id.clone()).collect();
    v.sort();
    v
}

#[test]
fn out_of_range_volume_is_rejected_and_state_unchanged() {
    let mut reg = MediaRegistry::new();
    let mut dev = device("speakers", MediaDeviceType::Output);
    dev.sessions.push(session("inst-1", 42));
    reg.on_device_added(dev);

    let dev_id = "speakers".to_string();
    let inst = "inst-1".to_string();

    let r = reg.set_session_volume(&dev_id, &inst, -1);
    assert_eq!(r, Err(SessionError::OutOfRange));
    let r = reg.set_session_volume(&dev_id, &inst, VOLUME_SCALE as i64 + 1);
    assert_eq!(r, Err(SessionError::OutOfRange));
    assert_eq!(reg.devices[0].sessions[0].volume, 5000);

    let r = reg.set_device_volume(&dev_id, i64::MIN);
    assert_eq!(r, Err(PolicyError::OutOfRange));
    assert_eq!(reg.devices[0].volume, 5000);

    let r = reg.set_session_volume(&dev_id, &inst, VOLUME_SCALE as i64);
    assert_eq!(r, Ok(()));
    // the mirror waits for the echoed notification
    assert_eq!(reg.devices[0].sessions[0].volume, 5000);
}

#[test]
fn struct_level_set_volume_validates_range() {
    let mut s = session("inst-9", 7);
    assert_eq!(s.set_volume(-5), Err(SessionError::OutOfRange));
    assert_eq!(s.set_volume(10_001), Err(SessionError::OutOfRange));
    assert_eq!(s.set_volume(0), Ok(()));
    assert_eq!(s.volume, 5000);

    let mut d = device("mic", MediaDeviceType::Input);
    assert_eq!(d.set_volume(-1), Err(SessionError::OutOfRange));
    assert_eq!(d.set_volume(10_000), Ok(()));
    assert_eq!(d.volume, 5000);
}

#[test]
fn tracked_ids_follow_arrivals_and_removals() {
    let mut reg = MediaRegistry::new();
    let events = vec![
        DeviceEvent::Arrived(device("a", MediaDeviceType::Output)),
        DeviceEvent::Arrived(device("b", MediaDeviceType::Input)),
        DeviceEvent::Removed("a".to_string()),
        DeviceEvent::Arrived(device("c", MediaDeviceType::Output)),
        DeviceEvent::Arrived(device("b", MediaDeviceType::Input)),
        DeviceEvent::Removed("missing".to_string()),
    ];
    reg.process_device_events(events);
    assert_eq!(ids(&reg), vec!["b".to_string(), "c".to_string()]);
}

#[test]
fn re_arrival_replaces_the_stale_entry() {
    let mut reg = MediaRegistry::new();
    reg.on_device_added(device("a", MediaDeviceType::Output));
    let mut again = device("a", MediaDeviceType::Output);
    again.name = "renamed".to_string();
    reg.on_device_added(again);
    assert_eq!(reg.devices.len(), 1);
    assert_eq!(reg.devices[0].name, "renamed");
}

#[test]
fn at_most_one_default_per_type_and_role() {
    let mut reg = MediaRegistry::new();
    reg.on_device_added(device("a", MediaDeviceType::Output));
    reg.on_device_added(device("b", MediaDeviceType::Output));
    reg.on_device_added(device("mic", MediaDeviceType::Input));

    let a = "a".to_string();
    let b = "b".to_string();
    let mic = "mic".to_string();
    assert_eq!(reg.set_default_endpoint(&a, DeviceRole::Multimedia), Ok(()));
    assert_eq!(reg.set_default_endpoint(&b, DeviceRole::Multimedia), Ok(()));
    assert_eq!(reg.set_default_endpoint(&b, DeviceRole::Communications), Ok(()));
    assert_eq!(reg.set_default_endpoint(&mic, DeviceRole::Multimedia), Ok(()));

    let mm_defaults: Vec<&str> = reg
        .devices
        .iter()
        .filter(|d| d.device_type == MediaDeviceType::Output && d.is_default_multimedia)
        .map(|d| d.id.as_str())
        .collect();
    assert_eq!(mm_defaults, vec!["b"]);
    let comm_defaults: Vec<&str> = reg
        .devices
        .iter()
        .filter(|d| d.device_type == MediaDeviceType::Output && d.is_default_communications)
        .map(|d| d.id.as_str())
        .collect();
    assert_eq!(comm_defaults, vec!["b"]);
    assert!(reg.devices.iter().any(|d| d.id == "mic" && d.is_default_multimedia));
}

#[test]
fn console_role_shares_the_multimedia_flag() {
    let mut reg = MediaRegistry::new();
    reg.on_device_added(device("a", MediaDeviceType::Output));
    let a = "a".to_string();
    assert_eq!(reg.set_default_endpoint(&a, DeviceRole::Console), Ok(()));
    assert!(reg.devices[0].is_default_multimedia);
    assert!(!reg.devices[0].is_default_communications);
}

#[test]
fn removing_a_device_removes_its_sessions() {
    let mut reg = MediaRegistry::new();
    let mut dev = device("speakers", MediaDeviceType::Output);
    dev.sessions.push(session("inst-1", 1));
    dev.sessions.push(session("inst-2", 2));
    reg.on_device_added(dev);
    assert_eq!(reg.devices[0].sessions.len(), 2);

    let id = "speakers".to_string();
    reg.on_device_removed(&id);
    assert!(reg.devices.is_empty());

    // a late echo for the removed device's session is dropped harmlessly
    let inst = "inst-1".to_string();
    reg.on_session_volume_changed(&id, &inst, 1000, false);
    assert!(reg.devices.is_empty());
}

#[test]
fn removed_player_present_through_grace_window_and_evicted_after() {
    let mut reg = MediaRegistry::new();
    reg.upsert_player(player("spotify"));
    let umid = "spotify".to_string();
    let t: u64 = 1000;
    reg.mark_player_removed(&umid, t);
    assert_eq!(reg.players.len(), 1);
    assert_eq!(reg.players[0].removed_at, Some(t));

    reg.sweep_players(t + MEDIA_PLAYER_GRACE_MS - 1);
    assert_eq!(reg.players.len(), 1);

    reg.sweep_players(t + MEDIA_PLAYER_GRACE_MS);
    assert!(reg.list_players().is_empty());
}

#[test]
fn second_removal_mark_keeps_the_first_timestamp() {
    let mut reg = MediaRegistry::new();
    reg.upsert_player(player("vlc"));
    let umid = "vlc".to_string();
    reg.mark_player_removed(&umid, 500);
    reg.mark_player_removed(&umid, 9_999);
    assert_eq!(reg.players[0].removed_at, Some(500));
}

#[test]
fn upsert_clears_the_removal_mark() {
    let mut reg = MediaRegistry::new();
    reg.upsert_player(player("edge"));
    let umid = "edge".to_string();
    reg.mark_player_removed(&umid, 100);
    let mut again = player("edge");
    again.title = "next track".to_string();
    reg.upsert_player(again);
    assert_eq!(reg.players.len(), 1);
    assert_eq!(reg.players[0].removed_at, None);
    assert_eq!(reg.players[0].title, "next track");
    reg.sweep_players(100 + MEDIA_PLAYER_GRACE_MS + 1);
    assert_eq!(reg.players.len(), 1);
}

#[test]
fn set_default_player_is_exclusive() {
    let mut reg = MediaRegistry::new();
    reg.upsert_player(player("one"));
    reg.upsert_player(player("two"));
    reg.upsert_player(player("three"));

    let two = "two".to_string();
    assert!(reg.set_default_player(&two));
    let defaults: Vec<&str> =
        reg.players.iter().filter(|p| p.is_default).map(|p| p.umid.as_str()).collect();
    assert_eq!(defaults, vec!["two"]);

    let three = "three".to_string();
    assert!(reg.set_default_player(&three));
    let defaults: Vec<&str> =
        reg.players.iter().filter(|p| p.is_default).map(|p| p.umid.as_str()).collect();
    assert_eq!(defaults, vec!["three"]);

    let ghost_umid = "nobody".to_string();
    assert!(!reg.set_default_player(&ghost_umid));
    let defaults: Vec<&str> =
        reg.players.iter().filter(|p| p.is_default).map(|p| p.umid.as_str()).collect();
    assert_eq!(defaults, vec!["three"]);
}

#[test]
fn upserting_a_default_player_clears_the_others() {
    let mut reg = MediaRegistry::new();
    reg.upsert_player(player("one"));
    let one = "one".to_string();
    assert!(reg.set_default_player(&one));
    let mut p = player("two");
    p.is_default = true;
    reg.upsert_player(p);
    let defaults: Vec<&str> =
        reg.players.iter().filter(|p| p.is_default).map(|p| p.umid.as_str()).collect();
    assert_eq!(defaults, vec!["two"]);
}

#[test]
fn session_created_then_disconnected_leaves_the_list() {
    let mut reg = MediaRegistry::new();
    reg.on_device_added(device("speakers", MediaDeviceType::Output));
    let dev_id = "speakers".to_string();
    reg.on_session_created(&dev_id, session("inst-77", 1234));
    assert_eq!(reg.devices[0].sessions.len(), 1);
    assert_eq!(reg.devices[0].sessions[0].process_id, 1234);

    let inst = "inst-77".to_string();
    reg.on_session_disconnected(&dev_id, &inst);
    assert!(reg.devices[0].sessions.is_empty());
    assert!(!reg.devices[0].sessions.iter().any(|s| s.instance_id == "inst-77"));
}

#[test]
fn session_created_replaces_a_stale_instance() {
    let mut reg = MediaRegistry::new();
    reg.on_device_added(device("speakers", MediaDeviceType::Output));
    let dev_id = "speakers".to_string();
    reg.on_session_created(&dev_id, session("inst-1", 1));
    reg.on_session_created(&dev_id, session("inst-1", 2));
    assert_eq!(reg.devices[0].sessions.len(), 1);
    assert_eq!(reg.devices[0].sessions[0].process_id, 2);
}

#[test]
fn new_default_endpoint_clears_the_previous_holder() {
    let mut reg = MediaRegistry::new();
    let mut old_default = device("headset", MediaDeviceType::Output);
    old_default.is_default_multimedia = true;
    reg.on_device_added(old_default);
    reg.on_device_added(device("speakers", MediaDeviceType::Output));

    let speakers = "speakers".to_string();
    assert_eq!(reg.set_default_endpoint(&speakers, DeviceRole::Multimedia), Ok(()));
    let headset = &reg.devices.iter().find(|d| d.id == "headset").unwrap();
    let speakers_dev = &reg.devices.iter().find(|d| d.id == "speakers").unwrap();
    assert!(!headset.is_default_multimedia);
    assert!(speakers_dev.is_default_multimedia);

    // subsequent queries reflect the change
    let d = reg.default_device(MediaDeviceType::Output, DeviceRole::Multimedia).unwrap();
    assert_eq!(d.id, "speakers");
    assert!(reg.default_device(MediaDeviceType::Output, DeviceRole::Communications).is_none());
    assert!(reg.default_device(MediaDeviceType::Input, DeviceRole::Multimedia).is_none());
}

#[test]
fn default_endpoint_for_unknown_device_fails() {
    let mut reg = MediaRegistry::new();
    reg.on_device_added(device("speakers", MediaDeviceType::Output));
    let stale = "unplugged".to_string();
    let r = reg.set_default_endpoint(&stale, DeviceRole::Multimedia);
    assert_eq!(r, Err(PolicyError::DeviceNotFound));
    assert!(!reg.devices[0].is_default_multimedia);
}

#[test]
fn volume_echoes_update_the_mirror() {
    let mut reg = MediaRegistry::new();
    let mut dev = device("speakers", MediaDeviceType::Output);
    dev.sessions.push(session("inst-1", 1));
    reg.on_device_added(dev);
    let dev_id = "speakers".to_string();
    let inst = "inst-1".to_string();

    reg.on_session_volume_changed(&dev_id, &inst, 2500, true);
    assert_eq!(reg.devices[0].sessions[0].volume, 2500);
    assert!(reg.devices[0].sessions[0].muted);

    reg.on_device_volume_changed(&dev_id, 7500, true);
    assert_eq!(reg.devices[0].volume, 7500);
    assert!(reg.devices[0].muted);
    // sessions are untouched by an endpoint echo
    assert_eq!(reg.devices[0].sessions[0].volume, 2500);
}

#[test]
fn requests_for_torn_down_sessions_fail_with_session_gone() {
    let mut reg = MediaRegistry::new();
    reg.on_device_added(device("speakers", MediaDeviceType::Output));
    let dev_id = "speakers".to_string();
    let inst = "gone".to_string();
    assert_eq!(reg.set_session_volume(&dev_id, &inst, 100), Err(SessionError::SessionGone));
    assert_eq!(reg.set_session_muted(&dev_id, &inst, true), Err(SessionError::SessionGone));

    let unplugged = "unplugged".to_string();
    assert_eq!(reg.set_session_volume(&unplugged, &inst, 100), Err(SessionError::SessionGone));
    assert_eq!(reg.set_device_volume(&unplugged, 100), Err(PolicyError::DeviceNotFound));
    assert_eq!(reg.set_device_muted(&unplugged, true), Err(PolicyError::DeviceNotFound));
    assert_eq!(reg.set_device_muted(&dev_id, true), Ok(()));
}
