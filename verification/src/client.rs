//! The records that the messaging client's SDK hands out, and the rules that its
//! calls hold their arguments and results to.

#![allow(non_camel_case_types)]

use vstd::prelude::*;
use vstd::string::StringSliceAdditionalSpecFns;

verus! {

/// The SDK ABI that this library speaks.
pub const MI_E2EE_SDK_ABI_VERSION: u32 = 1;

/// Bytes of a call identifier.
pub const CALL_ID_LEN: usize = 16;

/// Bytes of a file key.
pub const FILE_KEY_LEN: usize = 32;

/// What stands for a client inside the SDK. It has no content of its own.
pub struct mi_client_handle {
    _private: [u8; 0],
}

/// The version that an SDK reports of itself.
#[derive(Copy, Clone, Debug)]
pub struct mi_sdk_version {
    pub major: u32,
    pub minor: u32,
    pub patch: u32,
    pub abi: u32,
}

/// An event as the SDK reports it: texts may be missing, flags are bytes.
#[derive(Clone, Debug)]
pub struct mi_event_t {
    pub type_: u32,
    pub ts_ms: u64,
    pub peer: Option<String>,
    pub sender: Option<String>,
    pub group_id: Option<String>,
    pub message_id: Option<String>,
    pub text: Option<String>,
    pub file_id: Option<String>,
    pub file_name: Option<String>,
    pub file_size: u64,
    pub file_key: Vec<u8>,
    pub sticker_id: Option<String>,
    pub notice_kind: u32,
    pub actor: Option<String>,
    pub target: Option<String>,
    pub role: u32,
    pub typing: u8,
    pub online: u8,
    pub call_id: [u8; 16],
    pub call_key_id: u32,
    pub call_op: u32,
    pub call_media_flags: u8,
    pub payload: Vec<u8>,
}

/// A friend as the SDK reports it.
#[derive(Clone, Debug)]
pub struct mi_friend_entry_t {
    pub username: Option<String>,
    pub remark: Option<String>,
}

/// A friend request as the SDK reports it.
#[derive(Clone, Debug)]
pub struct mi_friend_request_entry_t {
    pub requester_username: Option<String>,
    pub requester_remark: Option<String>,
}

/// A device as the SDK reports it.
#[derive(Clone, Debug)]
pub struct mi_device_entry_t {
    pub device_id: Option<String>,
    pub last_seen_sec: u32,
}

/// A pairing request as the SDK reports it.
#[derive(Clone, Debug)]
pub struct mi_device_pairing_request_t {
    pub device_id: Option<String>,
    pub request_id_hex: Option<String>,
}

/// A group member as the SDK reports it.
#[derive(Clone, Debug)]
pub struct mi_group_member_entry_t {
    pub username: Option<String>,
    pub role: u32,
}

/// A member of a group call as the SDK reports it.
#[derive(Clone, Debug)]
pub struct mi_group_call_member_t {
    pub username: Option<String>,
}

/// A media packet as the SDK reports it.
#[derive(Clone, Debug)]
pub struct mi_media_packet_t {
    pub sender: Option<String>,
    pub payload: Vec<u8>,
}

/// The media settings as the SDK reports them.
#[derive(Copy, Clone, Debug)]
pub struct mi_media_config_t {
    pub audio_delay_ms: u32,
    pub video_delay_ms: u32,
    pub audio_max_frames: u32,
    pub video_max_frames: u32,
    pub pull_max_packets: u32,
    pub pull_wait_ms: u32,
    pub group_pull_max_packets: u32,
    pub group_pull_wait_ms: u32,
}

/// A stored message as the SDK reports it.
#[derive(Clone, Debug)]
pub struct mi_history_entry_t {
    pub kind: u32,
    pub status: u32,
    pub is_group: u8,
    pub outgoing: u8,
    pub timestamp_sec: u64,
    pub conv_id: Option<String>,
    pub sender: Option<String>,
    pub message_id: Option<String>,
    pub text: Option<String>,
    pub file_id: Option<String>,
    pub file_key: Vec<u8>,
    pub file_name: Option<String>,
    pub file_size: u64,
    pub sticker_id: Option<String>,
}

/// Something that happened: a message, a notice, a call signal.
#[derive(Debug, Clone)]
pub struct Event {
    pub event_type: u32,
    pub ts_ms: u64,
    pub peer: Option<String>,
    pub sender: Option<String>,
    pub group_id: Option<String>,
    pub message_id: Option<String>,
    pub text: Option<String>,
    pub file_id: Option<String>,
    pub file_name: Option<String>,
    pub file_size: u64,
    pub file_key: Vec<u8>,
    pub sticker_id: Option<String>,
    pub notice_kind: u32,
    pub actor: Option<String>,
    pub target: Option<String>,
    pub role: u32,
    pub typing: bool,
    pub online: bool,
    pub call_id: [u8; 16],
    pub call_key_id: u32,
    pub call_op: u32,
    pub call_media_flags: u8,
    pub payload: Vec<u8>,
}

#[derive(Debug, Clone)]
pub struct FriendEntry {
    pub username: String,
    pub remark: String,
}

#[derive(Debug, Clone)]
pub struct FriendRequestEntry {
    pub requester_username: String,
    pub requester_remark: String,
}

#[derive(Debug, Clone)]
pub struct DeviceEntry {
    pub device_id: String,
    pub last_seen_sec: u32,
}

#[derive(Debug, Clone)]
pub struct DevicePairingRequest {
    pub device_id: String,
    pub request_id_hex: String,
}

#[derive(Debug, Clone)]
pub struct GroupMemberEntry {
    pub username: String,
    pub role: u32,
}

#[derive(Debug, Clone)]
pub struct GroupCallMember {
    pub username: String,
}

#[derive(Debug, Clone)]
pub struct MediaPacket {
    pub sender: String,
    pub payload: Vec<u8>,
}

#[derive(Debug, Clone, Copy)]
pub struct MediaConfig {
    pub audio_delay_ms: u32,
    pub video_delay_ms: u32,
    pub audio_max_frames: u32,
    pub video_max_frames: u32,
    pub pull_max_packets: u32,
    pub pull_wait_ms: u32,
    pub group_pull_max_packets: u32,
    pub group_pull_wait_ms: u32,
}

#[derive(Debug, Clone)]
pub struct HistoryEntry {
    pub kind: u32,
    pub status: u32,
    pub is_group: bool,
    pub outgoing: bool,
    pub timestamp_sec: u64,
    pub conv_id: Option<String>,
    pub sender: Option<String>,
    pub message_id: Option<String>,
    pub text: Option<String>,
    pub file_id: Option<String>,
    pub file_key: Vec<u8>,
    pub file_name: Option<String>,
    pub file_size: u64,
    pub sticker_id: Option<String>,
}

#[derive(Debug, Clone)]
pub struct GroupCallStart {
    pub call_id: [u8; 16],
    pub key_id: u32,
}

#[derive(Debug, Clone)]
pub struct GroupCallSignalResponse {
    pub call_id: [u8; 16],
    pub key_id: u32,
    pub members: Vec<GroupCallMember>,
    pub member_count: u32,
}

/// A client of an SDK whose ABI this library speaks.
pub struct Client {
    version: mi_sdk_version,
}

/// The text that a missing text counts as: none.
pub open spec fn text_or_empty(text: Option<String>) -> Seq<char> {
    match text {
        Some(t) => t@,
        None => Seq::empty(),
    }
}

/// The decimal digit `d`.
pub open spec fn digit_of(d: nat) -> Seq<char> {
    if d == 0 {
        "0"@
    } else if d == 1 {
        "1"@
    } else if d == 2 {
        "2"@
    } else if d == 3 {
        "3"@
    } else if d == 4 {
        "4"@
    } else if d == 5 {
        "5"@
    } else if d == 6 {
        "6"@
    } else if d == 7 {
        "7"@
    } else if d == 8 {
        "8"@
    } else {
        "9"@
    }
}

/// The decimal numeral of `n`.
pub open spec fn decimal_of(n: nat) -> Seq<char>
    decreases n,
{
    if n < 10 {
        digit_of(n)
    } else {
        decimal_of(n / 10) + digit_of(n % 10)
    }
}

/// What is reported of an SDK whose ABI is `abi` and not this library's.
pub open spec fn abi_mismatch_of(abi: u32) -> Seq<char> {
    "mi_e2ee sdk abi mismatch: "@ + decimal_of(abi as nat) + " != "@ + decimal_of(
        MI_E2EE_SDK_ABI_VERSION as nat,
    )
}

/// Whether `bytes` hold a zero byte, which no text handed to the SDK may.
pub open spec fn holds_nul(bytes: Seq<u8>) -> bool {
    exists|i: int| 0 <= i < bytes.len() && bytes[i] == 0
}

fn digit(d: u32) -> (text: &'static str)
    requires
        d < 10,
    ensures
        text@ == digit_of(d as nat),
{
    if d == 0 {
        "0"
    } else if d == 1 {
        "1"
    } else if d == 2 {
        "2"
    } else if d == 3 {
        "3"
    } else if d == 4 {
        "4"
    } else if d == 5 {
        "5"
    } else if d == 6 {
        "6"
    } else if d == 7 {
        "7"
    } else if d == 8 {
        "8"
    } else {
        "9"
    }
}

/// Writes `n` in decimal.
pub fn decimal(n: u32) -> (text: String)
    ensures
        text@ == decimal_of(n as nat),
    decreases n,
{
    if n < 10 {
        String::from_str(digit(n))
    } else {
        decimal(n / 10).concat(digit(n % 10))
    }
}

/// The text of an optional text: its own, or none.
pub fn opt_text(text: Option<String>) -> (out: String)
    ensures
        out@ == text_or_empty(text),
{
    match text {
        Some(t) => t,
        None => String::new(),
    }
}

pub fn friend_from_c(entry: mi_friend_entry_t) -> (friend: FriendEntry)
    ensures
        friend.username@ == text_or_empty(entry.username),
        friend.remark@ == text_or_empty(entry.remark),
{
    FriendEntry { username: opt_text(entry.username), remark: opt_text(entry.remark) }
}

pub fn friend_request_from_c(entry: mi_friend_request_entry_t) -> (request: FriendRequestEntry)
    ensures
        request.requester_username@ == text_or_empty(entry.requester_username),
        request.requester_remark@ == text_or_empty(entry.requester_remark),
{
    FriendRequestEntry {
        requester_username: opt_text(entry.requester_username),
        requester_remark: opt_text(entry.requester_remark),
    }
}

pub fn device_from_c(entry: mi_device_entry_t) -> (device: DeviceEntry)
    ensures
        device.device_id@ == text_or_empty(entry.device_id),
        device.last_seen_sec == entry.last_seen_sec,
{
    DeviceEntry { device_id: opt_text(entry.device_id), last_seen_sec: entry.last_seen_sec }
}

pub fn pairing_request_from_c(entry: mi_device_pairing_request_t) -> (request:
    DevicePairingRequest)
    ensures
        request.device_id@ == text_or_empty(entry.device_id),
        request.request_id_hex@ == text_or_empty(entry.request_id_hex),
{
    DevicePairingRequest {
        device_id: opt_text(entry.device_id),
        request_id_hex: opt_text(entry.request_id_hex),
    }
}

pub fn group_member_from_c(entry: mi_group_member_entry_t) -> (member: GroupMemberEntry)
    ensures
        member.username@ == text_or_empty(entry.username),
        member.role == entry.role,
{
    GroupMemberEntry { username: opt_text(entry.username), role: entry.role }
}

pub fn group_call_member_from_c(entry: mi_group_call_member_t) -> (member: GroupCallMember)
    ensures
        member.username@ == text_or_empty(entry.username),
{
    GroupCallMember { username: opt_text(entry.username) }
}

pub fn media_packet_from_c(entry: mi_media_packet_t) -> (packet: MediaPacket)
    ensures
        packet.sender@ == text_or_empty(entry.sender),
        packet.payload == entry.payload,
{
    MediaPacket { sender: opt_text(entry.sender), payload: entry.payload }
}

pub fn history_from_c(entry: mi_history_entry_t) -> (stored: HistoryEntry)
    ensures
        stored.kind == entry.kind,
        stored.status == entry.status,
        stored.is_group == (entry.is_group != 0),
        stored.outgoing == (entry.outgoing != 0),
        stored.timestamp_sec == entry.timestamp_sec,
        stored.conv_id == entry.conv_id,
        stored.sender == entry.sender,
        stored.message_id == entry.message_id,
        stored.text == entry.text,
        stored.file_id == entry.file_id,
        stored.file_key == entry.file_key,
        stored.file_name == entry.file_name,
        stored.file_size == entry.file_size,
        stored.sticker_id == entry.sticker_id,
{
    HistoryEntry {
        kind: entry.kind,
        status: entry.status,
        is_group: entry.is_group != 0,
        outgoing: entry.outgoing != 0,
        timestamp_sec: entry.timestamp_sec,
        conv_id: entry.conv_id,
        sender: entry.sender,
        message_id: entry.message_id,
        text: entry.text,
        file_id: entry.file_id,
        file_key: entry.file_key,
        file_name: entry.file_name,
        file_size: entry.file_size,
        sticker_id: entry.sticker_id,
    }
}

pub fn event_from_c(ev: mi_event_t) -> (event: Event)
    ensures
        event.event_type == ev.type_,
        event.ts_ms == ev.ts_ms,
        event.peer == ev.peer,
        event.sender == ev.sender,
        event.group_id == ev.group_id,
        event.message_id == ev.message_id,
        event.text == ev.text,
        event.file_id == ev.file_id,
        event.file_name == ev.file_name,
        event.file_size == ev.file_size,
        event.file_key == ev.file_key,
        event.sticker_id == ev.sticker_id,
        event.notice_kind == ev.notice_kind,
        event.actor == ev.actor,
        event.target == ev.target,
        event.role == ev.role,
        event.typing == (ev.typing != 0),
        event.online == (ev.online != 0),
        event.call_id == ev.call_id,
        event.call_key_id == ev.call_key_id,
        event.call_op == ev.call_op,
        event.call_media_flags == ev.call_media_flags,
        event.payload == ev.payload,
{
    Event {
        event_type: ev.type_,
        ts_ms: ev.ts_ms,
        peer: ev.peer,
        sender: ev.sender,
        group_id: ev.group_id,
        message_id: ev.message_id,
        text: ev.text,
        file_id: ev.file_id,
        file_name: ev.file_name,
        file_size: ev.file_size,
        file_key: ev.file_key,
        sticker_id: ev.sticker_id,
        notice_kind: ev.notice_kind,
        actor: ev.actor,
        target: ev.target,
        role: ev.role,
        typing: ev.typing != 0,
        online: ev.online != 0,
        call_id: ev.call_id,
        call_key_id: ev.call_key_id,
        call_op: ev.call_op,
        call_media_flags: ev.call_media_flags,
        payload: ev.payload,
    }
}

impl Default for mi_media_config_t {
    fn default() -> (cfg: Self)
        ensures
            cfg.audio_delay_ms == 0,
            cfg.video_delay_ms == 0,
            cfg.audio_max_frames == 0,
            cfg.video_max_frames == 0,
            cfg.pull_max_packets == 0,
            cfg.pull_wait_ms == 0,
            cfg.group_pull_max_packets == 0,
            cfg.group_pull_wait_ms == 0,
    {
        mi_media_config_t {
            audio_delay_ms: 0,
            video_delay_ms: 0,
            audio_max_frames: 0,
            video_max_frames: 0,
            pull_max_packets: 0,
            pull_wait_ms: 0,
            group_pull_max_packets: 0,
            group_pull_wait_ms: 0,
        }
    }
}

impl MediaConfig {
    /// The settings that the SDK reported, field by field.
    pub fn from_c(cfg: mi_media_config_t) -> (config: MediaConfig)
        ensures
            config.audio_delay_ms == cfg.audio_delay_ms,
            config.video_delay_ms == cfg.video_delay_ms,
            config.audio_max_frames == cfg.audio_max_frames,
            config.video_max_frames == cfg.video_max_frames,
            config.pull_max_packets == cfg.pull_max_packets,
            config.pull_wait_ms == cfg.pull_wait_ms,
            config.group_pull_max_packets == cfg.group_pull_max_packets,
            config.group_pull_wait_ms == cfg.group_pull_wait_ms,
    {
        MediaConfig {
            audio_delay_ms: cfg.audio_delay_ms,
            video_delay_ms: cfg.video_delay_ms,
            audio_max_frames: cfg.audio_max_frames,
            video_max_frames: cfg.video_max_frames,
            pull_max_packets: cfg.pull_max_packets,
            pull_wait_ms: cfg.pull_wait_ms,
            group_pull_max_packets: cfg.group_pull_max_packets,
            group_pull_wait_ms: cfg.group_pull_wait_ms,
        }
    }
}

impl Client {
    /// The SDK version that this client was made for.
    pub closed spec fn sdk_version(self) -> mi_sdk_version {
        self.version
    }

    #[verifier::type_invariant]
    spec fn speaks_abi(self) -> bool {
        self.version.abi == MI_E2EE_SDK_ABI_VERSION
    }

    fn ensure_abi(v: &mi_sdk_version) -> (checked: Result<(), String>)
        ensures
            checked.is_ok() <==> v.abi == MI_E2EE_SDK_ABI_VERSION,
            checked matches Err(message) ==> message@ == abi_mismatch_of(v.abi),
    {
        if v.abi != MI_E2EE_SDK_ABI_VERSION {
            return Err(
                String::from_str("mi_e2ee sdk abi mismatch: ").concat(
                    decimal(v.abi).as_str(),
                ).concat(" != ").concat(decimal(MI_E2EE_SDK_ABI_VERSION).as_str()),
            );
        }
        Ok(())
    }

    /// Checks that an SDK which reports the version `v` speaks this library's
    /// ABI.
    pub fn check_abi(v: &mi_sdk_version) -> (checked: Result<(), String>)
        ensures
            checked.is_ok() <==> v.abi == MI_E2EE_SDK_ABI_VERSION,
            checked matches Err(message) ==> message@ == abi_mismatch_of(v.abi),
    {
        Self::ensure_abi(v)
    }

    /// A client for an SDK that reports the version `v`, to be configured from
    /// `config_path` if there is one.
    pub fn new(v: mi_sdk_version, config_path: Option<&str>) -> (made: Result<Self, String>)
        ensures
            match made {
                Ok(client) => v.abi == MI_E2EE_SDK_ABI_VERSION && client.sdk_version() == v && (
                config_path matches Some(path) ==> !holds_nul(path.spec_bytes())),
                Err(message) => if v.abi != MI_E2EE_SDK_ABI_VERSION {
                    message@ == abi_mismatch_of(v.abi)
                } else {
                    config_path matches Some(path) && holds_nul(path.spec_bytes()) && message@
                        == "config path contains null"@
                },
            },
    {
        Self::ensure_abi(&v)?;
        match config_path {
            Some(path) => {
                if has_nul(path.as_bytes()) {
                    return Err(String::from_str("config path contains null"));
                }
            },
            None => {},
        }
        Ok(Client { version: v })
    }

    pub fn version(&self) -> (v: mi_sdk_version)
        ensures
            v == self.sdk_version(),
            v.abi == MI_E2EE_SDK_ABI_VERSION,
    {
        proof {
            use_type_invariant(self);
        }
        self.version
    }
}

/// What is reported of a text argument named `what` that holds a zero byte.
pub open spec fn contains_null_of(what: Seq<char>) -> Seq<char> {
    what + " contains null"@
}

/// How many of the `reported` entries a buffer of `capacity` entries holds.
pub open spec fn entries_held(reported: u32, capacity: u32) -> u32 {
    if reported <= capacity {
        reported
    } else {
        capacity
    }
}

/// A text argument named `what` must hold no zero byte: the SDK takes texts that
/// end at the first one.
pub fn text_argument(text: &str, what: &str) -> (checked: Result<(), String>)
    ensures
        checked.is_ok() <==> !holds_nul(text.spec_bytes()),
        checked matches Err(message) ==> message@ == contains_null_of(what@),
{
    if has_nul(text.as_bytes()) {
        Err(String::from_str(what).concat(" contains null"))
    } else {
        Ok(())
    }
}

/// A call identifier must have `CALL_ID_LEN` bytes.
pub fn call_id_argument(call_id: &[u8]) -> (checked: Result<(), String>)
    ensures
        checked.is_ok() <==> call_id@.len() == CALL_ID_LEN,
        checked matches Err(message) ==> message@ == "call id invalid"@,
{
    if call_id.len() != CALL_ID_LEN {
        Err(String::from_str("call id invalid"))
    } else {
        Ok(())
    }
}

/// A file key must have `FILE_KEY_LEN` bytes.
pub fn file_key_argument(file_key: &[u8]) -> (checked: Result<(), String>)
    ensures
        checked.is_ok() <==> file_key@.len() == FILE_KEY_LEN,
        checked matches Err(message) ==> message@ == "file key invalid"@,
{
    if file_key.len() != FILE_KEY_LEN {
        Err(String::from_str("file key invalid"))
    } else {
        Ok(())
    }
}

/// The number that the SDK takes for a yes or a no.
pub fn flag(value: bool) -> (number: i32)
    ensures
        number == if value {
            1i32
        } else {
            0i32
        },
{
    if value {
        1
    } else {
        0
    }
}

/// What a call that answers with a number made of itself: zero is failure, and
/// the failure is what the SDK last reported.
pub fn call_outcome(ok: i32, last_error: String) -> (outcome: Result<(), String>)
    ensures
        ok != 0 ==> outcome.is_ok(),
        ok == 0 ==> outcome == Err::<(), String>(last_error),
{
    if ok == 0 {
        Err(last_error)
    } else {
        Ok(())
    }
}

/// What a call that fills a buffer made of itself: it failed where the SDK
/// reports an error, whatever it wrote.
pub fn listing_outcome(last_error: String) -> (outcome: Result<(), String>)
    ensures
        last_error@.len() == 0 ==> outcome.is_ok(),
        last_error@.len() > 0 ==> outcome == Err::<(), String>(last_error),
{
    if last_error.as_str().unicode_len() != 0 {
        Err(last_error)
    } else {
        Ok(())
    }
}

/// How many entries to read from a buffer of `capacity` entries of which the SDK
/// says it filled `reported`.
pub fn entries_to_read(reported: u32, capacity: u32) -> (held: u32)
    ensures
        held == entries_held(reported, capacity),
        held <= capacity,
        held <= reported,
{
    if reported <= capacity {
        reported
    } else {
        capacity
    }
}

/// Whether `bytes` hold a zero byte.
pub fn has_nul(bytes: &[u8]) -> (found: bool)
    ensures
        found == holds_nul(bytes@),
{
    let mut i: usize = 0;
    while i < bytes.len()
        invariant
            i <= bytes@.len(),
            forall|j: int| 0 <= j < i ==> bytes@[j] != 0,
        decreases bytes@.len() - i,
    {
        if bytes[i] == 0 {
            return true;
        }
        i += 1;
    }
    false
}

} // verus!
