use opaque_pake::client::{
    call_id_argument, call_outcome, decimal, device_from_c, entries_to_read, event_from_c,
    file_key_argument, flag, friend_from_c, friend_request_from_c, group_call_member_from_c,
    group_member_from_c, has_nul, history_from_c, listing_outcome, media_packet_from_c,
    mi_device_entry_t, mi_device_pairing_request_t, mi_event_t, mi_friend_entry_t,
    mi_friend_request_entry_t, mi_group_call_member_t, mi_group_member_entry_t,
    mi_history_entry_t, mi_media_config_t, mi_media_packet_t, mi_sdk_version, opt_text,
    pairing_request_from_c, text_argument, Client, MediaConfig, MI_E2EE_SDK_ABI_VERSION,
};

fn version(abi: u32) -> mi_sdk_version {
    mi_sdk_version { major: 1, minor: 2, patch: 3, abi }
}

#[test]
fn matching_abi_is_accepted() {
    assert_eq!(MI_E2EE_SDK_ABI_VERSION, 1);
    assert_eq!(Client::check_abi(&version(1)), Ok(()));
}

#[test]
fn other_abi_is_reported_with_both_numbers() {
    assert_eq!(
        Client::check_abi(&version(2)),
        Err("mi_e2ee sdk abi mismatch: 2 != 1".to_string())
    );
    assert_eq!(
        Client::check_abi(&version(0)),
        Err("mi_e2ee sdk abi mismatch: 0 != 1".to_string())
    );
    assert_eq!(
        Client::check_abi(&version(4294967295)),
        Err("mi_e2ee sdk abi mismatch: 4294967295 != 1".to_string())
    );
}

#[test]
fn client_is_made_only_for_a_matching_abi() {
    let client = Client::new(version(1), Some("client.ini")).ok().unwrap();
    assert_eq!(client.version().abi, 1);
    assert_eq!(client.version().major, 1);
    assert_eq!(client.version().patch, 3);
    assert!(Client::new(version(1), None).is_ok());
    assert_eq!(
        Client::new(version(7), None).err(),
        Some("mi_e2ee sdk abi mismatch: 7 != 1".to_string())
    );
    assert_eq!(
        Client::new(version(1), Some("bad\0path")).err(),
        Some("config path contains null".to_string())
    );
    assert_eq!(
        Client::new(version(7), Some("bad\0path")).err(),
        Some("mi_e2ee sdk abi mismatch: 7 != 1".to_string())
    );
}

#[test]
fn decimal_writes_every_digit() {
    assert_eq!(decimal(0), "0");
    assert_eq!(decimal(9), "9");
    assert_eq!(decimal(10), "10");
    assert_eq!(decimal(1234567890), "1234567890");
    assert_eq!(decimal(u32::MAX), "4294967295");
}

#[test]
fn zero_bytes_are_found_wherever_they_stand() {
    assert!(!has_nul(b""));
    assert!(!has_nul(b"abc"));
    assert!(has_nul(b"\0abc"));
    assert!(has_nul(b"ab\0c"));
    assert!(has_nul(b"abc\0"));
}

#[test]
fn text_arguments_must_not_hold_a_zero_byte() {
    assert_eq!(text_argument("alice", "peer"), Ok(()));
    assert_eq!(text_argument("", "peer"), Ok(()));
    assert_eq!(text_argument("al\0ice", "peer"), Err("peer contains null".to_string()));
    assert_eq!(
        text_argument("\0", "reply_to_message_id"),
        Err("reply_to_message_id contains null".to_string())
    );
}

#[test]
fn call_ids_and_file_keys_have_fixed_lengths() {
    assert_eq!(call_id_argument(&[0u8; 16]), Ok(()));
    assert_eq!(call_id_argument(&[0u8; 15]), Err("call id invalid".to_string()));
    assert_eq!(call_id_argument(&[0u8; 17]), Err("call id invalid".to_string()));
    assert_eq!(call_id_argument(&[]), Err("call id invalid".to_string()));
    assert_eq!(file_key_argument(&[0u8; 32]), Ok(()));
    assert_eq!(file_key_argument(&[0u8; 31]), Err("file key invalid".to_string()));
    assert_eq!(file_key_argument(&[0u8; 33]), Err("file key invalid".to_string()));
}

#[test]
fn call_results_follow_the_number() {
    assert_eq!(flag(true), 1);
    assert_eq!(flag(false), 0);
    assert_eq!(call_outcome(1, "ignored".to_string()), Ok(()));
    assert_eq!(call_outcome(-1, "ignored".to_string()), Ok(()));
    assert_eq!(call_outcome(0, "not logged in".to_string()), Err("not logged in".to_string()));
    assert_eq!(listing_outcome(String::new()), Ok(()));
    assert_eq!(listing_outcome("timeout".to_string()), Err("timeout".to_string()));
}

#[test]
fn no_more_entries_are_read_than_the_buffer_holds() {
    assert_eq!(entries_to_read(0, 8), 0);
    assert_eq!(entries_to_read(3, 8), 3);
    assert_eq!(entries_to_read(8, 8), 8);
    assert_eq!(entries_to_read(9, 8), 8);
    assert_eq!(entries_to_read(u32::MAX, 0), 0);
}

#[test]
fn missing_texts_become_empty_texts() {
    assert_eq!(opt_text(None), "");
    assert_eq!(opt_text(Some("x".to_string())), "x");
    let friend = friend_from_c(mi_friend_entry_t { username: Some("bob".to_string()), remark: None });
    assert_eq!(friend.username, "bob");
    assert_eq!(friend.remark, "");
    let request = friend_request_from_c(mi_friend_request_entry_t {
        requester_username: None,
        requester_remark: Some("hi".to_string()),
    });
    assert_eq!(request.requester_username, "");
    assert_eq!(request.requester_remark, "hi");
    let device =
        device_from_c(mi_device_entry_t { device_id: Some("d1".to_string()), last_seen_sec: 77 });
    assert_eq!(device.device_id, "d1");
    assert_eq!(device.last_seen_sec, 77);
    let pairing = pairing_request_from_c(mi_device_pairing_request_t {
        device_id: None,
        request_id_hex: Some("ab12".to_string()),
    });
    assert_eq!(pairing.device_id, "");
    assert_eq!(pairing.request_id_hex, "ab12");
    let member = group_member_from_c(mi_group_member_entry_t { username: None, role: 2 });
    assert_eq!(member.username, "");
    assert_eq!(member.role, 2);
    let caller = group_call_member_from_c(mi_group_call_member_t {
        username: Some("carol".to_string()),
    });
    assert_eq!(caller.username, "carol");
    let packet = media_packet_from_c(mi_media_packet_t { sender: None, payload: vec![1, 2] });
    assert_eq!(packet.sender, "");
    assert_eq!(packet.payload, vec![1, 2]);
}

#[test]
fn history_flags_become_booleans() {
    let stored = history_from_c(mi_history_entry_t {
        kind: 1,
        status: 2,
        is_group: 0,
        outgoing: 5,
        timestamp_sec: 1700000000,
        conv_id: Some("c".to_string()),
        sender: None,
        message_id: Some("m".to_string()),
        text: Some("hello".to_string()),
        file_id: None,
        file_key: vec![3; 32],
        file_name: None,
        file_size: 9,
        sticker_id: None,
    });
    assert_eq!(stored.kind, 1);
    assert_eq!(stored.status, 2);
    assert!(!stored.is_group);
    assert!(stored.outgoing);
    assert_eq!(stored.timestamp_sec, 1700000000);
    assert_eq!(stored.conv_id.as_deref(), Some("c"));
    assert_eq!(stored.sender, None);
    assert_eq!(stored.text.as_deref(), Some("hello"));
    assert_eq!(stored.file_key, vec![3; 32]);
    assert_eq!(stored.file_size, 9);
}

#[test]
fn event_fields_are_carried_over() {
    let event = event_from_c(mi_event_t {
        type_: 4,
        ts_ms: 12345,
        peer: Some("bob".to_string()),
        sender: None,
        group_id: None,
        message_id: Some("id".to_string()),
        text: Some("hi".to_string()),
        file_id: None,
        file_name: None,
        file_size: 0,
        file_key: Vec::new(),
        sticker_id: None,
        notice_kind: 6,
        actor: None,
        target: None,
        role: 1,
        typing: 1,
        online: 0,
        call_id: [7; 16],
        call_key_id: 8,
        call_op: 9,
        call_media_flags: 3,
        payload: vec![1, 2, 3],
    });
    assert_eq!(event.event_type, 4);
    assert_eq!(event.ts_ms, 12345);
    assert_eq!(event.peer.as_deref(), Some("bob"));
    assert_eq!(event.sender, None);
    assert_eq!(event.text.as_deref(), Some("hi"));
    assert_eq!(event.notice_kind, 6);
    assert_eq!(event.role, 1);
    assert!(event.typing);
    assert!(!event.online);
    assert_eq!(event.call_id, [7; 16]);
    assert_eq!(event.call_key_id, 8);
    assert_eq!(event.call_op, 9);
    assert_eq!(event.call_media_flags, 3);
    assert_eq!(event.payload, vec![1, 2, 3]);
}

#[test]
fn media_settings_are_carried_over() {
    let zero = mi_media_config_t::default();
    assert_eq!(zero.audio_delay_ms, 0);
    assert_eq!(zero.group_pull_wait_ms, 0);
    let config = MediaConfig::from_c(mi_media_config_t {
        audio_delay_ms: 1,
        video_delay_ms: 2,
        audio_max_frames: 3,
        video_max_frames: 4,
        pull_max_packets: 5,
        pull_wait_ms: 6,
        group_pull_max_packets: 7,
        group_pull_wait_ms: 8,
    });
    assert_eq!(config.audio_delay_ms, 1);
    assert_eq!(config.video_delay_ms, 2);
    assert_eq!(config.audio_max_frames, 3);
    assert_eq!(config.video_max_frames, 4);
    assert_eq!(config.pull_max_packets, 5);
    assert_eq!(config.pull_wait_ms, 6);
    assert_eq!(config.group_pull_max_packets, 7);
    assert_eq!(config.group_pull_wait_ms, 8);
}
