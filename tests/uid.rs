use mln::enums::{EventPhase, LoggedType, MonitorableState};
use mln::helpers::{getUid, session_uid_bytes};
use mln::logger::{MonitorableChanged, MonitorableCheckpoint};

#[test]
fn uid_is_unique() {
    let uid1 = getUid().to_string();
    let uid2 = getUid().to_string();

    assert!(uid1 != uid2);
}

#[test]
fn uid_is_version_five() {
    let uid = getUid();
    assert_eq!(uid.get_version_num(), 5);
    assert_eq!(uid.as_bytes()[8] & 0xc0, 0x80);
}

#[test]
fn session_uid_of_nil_seed() {
    let r = session_uid_bytes([0u8; 16]);
    assert_eq!(
        r,
        [156, 17, 176, 21, 244, 59, 89, 114, 183, 146, 185, 202, 63, 17, 136, 243]
    );
    assert_eq!(
        uuid::Uuid::from_bytes(r).to_string(),
        "9c11b015-f43b-5972-b792-b9ca3f1188f3"
    );
}

#[test]
fn session_uid_differs_from_seed() {
    let seed = [7u8; 16];
    let r = session_uid_bytes(seed);
    assert_ne!(r, seed);
    assert_eq!(r[6] >> 4, 5);
    assert_eq!(r[8] & 0xc0, 0x80);
    assert_eq!(session_uid_bytes(seed), r);
}

#[test]
fn monitorable_state_bits() {
    assert_eq!(MonitorableState::CONSTRUCTED.bits(), 0x01);
    assert_eq!(MonitorableState::DESTRUCTING.bits(), 0x02);
    assert_eq!(MonitorableState::DESTRUCTED.bits(), 0x04);
}

#[test]
fn log_records_hold_their_fields() {
    let checkpoint = MonitorableCheckpoint {
        uid: getUid(),
        checkpoint: "some text".to_string(),
    };
    assert_eq!(checkpoint.checkpoint, "some text");
    let changed = MonitorableChanged {
        uid: getUid(),
        name: "name".to_string(),
        logged_type: LoggedType::MONITORABLE_CHANGED,
        value: 123,
    };
    assert_eq!(changed.logged_type, LoggedType::MONITORABLE_CHANGED);
    assert_eq!(changed.value, 123);
    assert_ne!(checkpoint.uid, changed.uid);
    assert_eq!(EventPhase::NONE, EventPhase::NONE);
}
