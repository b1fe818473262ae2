use mezeporta::inject::{friend_table_ready, inject_blob, FRIEND_TABLE_SIZE};
use mezeporta::mhf::FriendData;
use mezeporta::text::parse_usize;
use mezeporta::endpoint::Endpoint;
use mezeporta::user::{UserData, UserManager};
use mezeporta::version::MhfVersion;

#[test]
fn friends_are_written_into_the_table() {
    let mut buf = vec![0xAAu8; FRIEND_TABLE_SIZE];
    let friends = vec![
        FriendData { cid: 1, id: 1, name: "Al".to_string() },
        FriendData { cid: 2, id: 33, name: "Bo".to_string() },
    ];
    inject_blob(&mut buf, 0x18, &friends);
    assert_eq!(&buf[0..6], b"211111");
    assert_eq!(&buf[6..8], &[0, 0]);
    assert_eq!(&buf[8..10], b"Al");
    assert_eq!(buf[10], 0);
    assert_eq!(&buf[0x18..0x1c], &1u32.to_le_bytes());
    let base = 0x30 + 4;
    assert_eq!(&buf[base..base + 6], b"221111");
    assert_eq!(&buf[0x30 + 0x18 + 4..0x30 + 0x18 + 8], &33u32.to_le_bytes());
    assert_eq!(buf[0x100], 0xAA);
}

#[test]
fn a_short_table_takes_only_the_entries_that_fit() {
    let mut buf = vec![0xAAu8; 0x60];
    let friends = vec![
        FriendData { cid: 1, id: 1, name: "Al".to_string() },
        FriendData { cid: 2, id: 33, name: "Bo".to_string() },
        FriendData { cid: 3, id: 2, name: "Cy".to_string() },
    ];
    inject_blob(&mut buf, 0x18, &friends);
    assert_eq!(&buf[0..6], b"211111");
    assert_eq!(&buf[8..10], b"Al");
    assert_eq!(&buf[0x18..0x1c], &1u32.to_le_bytes());
    assert_eq!(&buf[0x34..0x3a], b"221111");
    assert_eq!(&buf[0x3c..0x3e], b"Bo");
    assert_eq!(&buf[0x4c..0x50], &33u32.to_le_bytes());
    assert!(buf[0x50..0x60].iter().all(|&b| b == 0xAA));
    assert_eq!(buf[0x30], 0xAA);
}

#[test]
fn header_layouts_mark_later_entries() {
    let mut buf = vec![0u8; FRIEND_TABLE_SIZE];
    let friends = vec![
        FriendData { cid: 1, id: 1, name: "A".to_string() },
        FriendData { cid: 2, id: 2, name: "B".to_string() },
    ];
    inject_blob(&mut buf, 0x20, &friends);
    assert_eq!(&buf[8..14], b"211111");
    assert_eq!(buf[0x30 + 3], 1);
    assert_eq!(buf[0x30 + 4], 1);
    assert_eq!(&buf[0x30 + 8 + 0x20 + 4..0x30 + 8 + 0x20 + 8], &2u32.to_le_bytes());
}

#[test]
fn table_readiness() {
    assert!(!friend_table_ready(&[0u8; 0x20]));
    assert!(friend_table_ready(&[1u8; 0x20]));
    let mut b = [1u8; 0x20];
    b[28] = 0;
    b[29] = 0;
    b[30] = 0;
    b[31] = 0;
    assert!(!friend_table_ready(&b));
}

#[test]
fn usize_parsing_follows_std() {
    assert_eq!(parse_usize("42"), Some(42));
    assert_eq!(parse_usize("+7"), Some(7));
    assert_eq!(parse_usize("-1"), None);
    assert_eq!(parse_usize(""), None);
    assert_eq!(parse_usize("+"), None);
    assert_eq!(parse_usize(" 1"), None);
    assert_eq!(parse_usize("99999999999999999999999"), None);
}

fn endpoint(name: &str, remote: bool) -> Endpoint {
    Endpoint {
        url: "u".to_string(),
        name: name.to_string(),
        launcher_port: None,
        game_port: None,
        game_folder: None,
        version: MhfVersion::ZZ,
        is_remote: remote,
    }
}

#[test]
fn users_are_remembered_per_server() {
    let mut m = UserManager::new();
    let e = endpoint("srv", true);
    assert_eq!(m.get_target(&e), "srv:true");
    assert_eq!(m.get_target(&endpoint("srv", false)), "srv:false");
    let fresh = m.get_user(&e);
    assert_eq!(fresh.username, "");
    assert!(fresh.remember_me);
    m.set(&e, UserData { username: "me".to_string(), remember_me: true }, "pw".to_string(), false);
    assert_eq!(m.get_user(&e).username, "me");
    assert_eq!(m.stored_password(&e), "pw");
    assert_eq!(m.get_user(&endpoint("srv", false)).username, "");
    m.set(&e, UserData { username: "me".to_string(), remember_me: false }, String::new(), false);
    assert_eq!(m.get_user(&e).username, "");
    assert_eq!(m.stored_password(&e), "");
}
