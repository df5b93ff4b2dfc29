//! The token dictionaries of the binary codec: one primary table of 236
//! single-byte tokens and four secondary tables selected by a dictionary id.
//! The tables are fixed data; lookups are bidirectional and read-only.


use vstd::prelude::*;


verus! {


pub open spec fn single_token_seq() -> Seq<Seq<char>> {
    seq![
        ""@,
        "xmlstreamstart"@,
        "xmlstreamend"@,
        "s.whatsapp.net"@,
        "type"@,
        "participant"@,
        "from"@,
        "receipt"@,
        "id"@,
        "notification"@,
        "disappearing_mode"@,
        "status"@,
        "jid"@,
        "broadcast"@,
        "user"@,
        "devices"@,
        "device_hash"@,
        "to"@,
        "offline"@,
        "message"@,
        "result"@,
        "class"@,
        "xmlns"@,
        "duration"@,
        "notify"@,
        "iq"@,
        "t"@,
        "ack"@,
        "g.us"@,
        "enc"@,
        "urn:xmpp:whatsapp:push"@,
        "presence"@,
        "config_value"@,
        "picture"@,
        "verified_name"@,
        "config_code"@,
        "key-index-list"@,
        "contact"@,
        "mediatype"@,
        "routing_info"@,
        "edge_routing"@,
        "get"@,
        "read"@,
        "urn:xmpp:ping"@,
        "fallback_hostname"@,
        "0"@,
        "chatstate"@,
        "business_hours_config"@,
        "unavailable"@,
        "download_buckets"@,
        "skmsg"@,
        "verified_level"@,
        "composing"@,
        "handshake"@,
        "device-list"@,
        "media"@,
        "text"@,
        "fallback_ip4"@,
        "media_conn"@,
        "device"@,
        "creation"@,
        "location"@,
        "config"@,
        "item"@,
        "fallback_ip6"@,
        "count"@,
        "w:profile:picture"@,
        "image"@,
        "business"@,
        "2"@,
        "hostname"@,
        "call-creator"@,
        "display_name"@,
        "relaylatency"@,
        "platform"@,
        "abprops"@,
        "success"@,
        "msg"@,
        "offline_preview"@,
        "prop"@,
        "key-index"@,
        "v"@,
        "day_of_week"@,
        "pkmsg"@,
        "version"@,
        "1"@,
        "ping"@,
        "w:p"@,
        "download"@,
        "video"@,
        "set"@,
        "specific_hours"@,
        "props"@,
        "primary"@,
        "unknown"@,
        "hash"@,
        "commerce_experience"@,
        "last"@,
        "subscribe"@,
        "max_buckets"@,
        "call"@,
        "profile"@,
        "member_since_text"@,
        "close_time"@,
        "call-id"@,
        "sticker"@,
        "mode"@,
        "participants"@,
        "value"@,
        "query"@,
        "profile_options"@,
        "open_time"@,
        "code"@,
        "list"@,
        "host"@,
        "ts"@,
        "contacts"@,
        "upload"@,
        "lid"@,
        "preview"@,
        "update"@,
        "usync"@,
        "w:stats"@,
        "delivery"@,
        "auth_ttl"@,
        "context"@,
        "fail"@,
        "cart_enabled"@,
        "appdata"@,
        "category"@,
        "atn"@,
        "direct_connection"@,
        "decrypt-fail"@,
        "relay_id"@,
        "mmg-fallback.whatsapp.net"@,
        "target"@,
        "available"@,
        "name"@,
        "last_id"@,
        "mmg.whatsapp.net"@,
        "categories"@,
        "401"@,
        "is_new"@,
        "index"@,
        "tctoken"@,
        "ip4"@,
        "token_id"@,
        "latency"@,
        "recipient"@,
        "edit"@,
        "ip6"@,
        "add"@,
        "thumbnail-document"@,
        "26"@,
        "paused"@,
        "true"@,
        "identity"@,
        "stream:error"@,
        "key"@,
        "sidelist"@,
        "background"@,
        "audio"@,
        "3"@,
        "thumbnail-image"@,
        "biz-cover-photo"@,
        "cat"@,
        "gcm"@,
        "thumbnail-video"@,
        "error"@,
        "auth"@,
        "deny"@,
        "serial"@,
        "in"@,
        "registration"@,
        "thumbnail-link"@,
        "remove"@,
        "00"@,
        "gif"@,
        "thumbnail-gif"@,
        "tag"@,
        "capability"@,
        "multicast"@,
        "item-not-found"@,
        "description"@,
        "business_hours"@,
        "config_expo_key"@,
        "md-app-state"@,
        "expiration"@,
        "fallback"@,
        "ttl"@,
        "300"@,
        "md-msg-hist"@,
        "device_orientation"@,
        "out"@,
        "w:m"@,
        "open_24h"@,
        "side_list"@,
        "token"@,
        "inactive"@,
        "01"@,
        "document"@,
        "te2"@,
        "played"@,
        "encrypt"@,
        "msgr"@,
        "hide"@,
        "direct_path"@,
        "12"@,
        "state"@,
        "not-authorized"@,
        "url"@,
        "terminate"@,
        "signature"@,
        "status-revoke-delay"@,
        "02"@,
        "te"@,
        "linked_accounts"@,
        "trusted_contact"@,
        "timezone"@,
        "ptt"@,
        "kyc-id"@,
        "privacy_token"@,
        "readreceipts"@,
        "appointment_only"@,
        "address"@,
        "expected_ts"@,
        "privacy"@,
        "7"@,
        "android"@,
        "interactive"@,
        "device-identity"@,
        "enabled"@,
        "attribute_padding"@,
        "1080"@,
        "03"@,
        "screen_height"@,
    ]
}



pub fn single_byte_tokens() -> (r: Vec<&'static str>)
    ensures
        r@.len() == 236,
        forall|i: int| 0 <= i < 236 ==> (#[trigger] r@[i])@ == single_token_seq()[i],
{
    let v: Vec<&'static str> = vec![
        "",
        "xmlstreamstart",
        "xmlstreamend",
        "s.whatsapp.net",
        "type",
        "participant",
        "from",
        "receipt",
        "id",
        "notification",
        "disappearing_mode",
        "status",
        "jid",
        "broadcast",
        "user",
        "devices",
        "device_hash",
        "to",
        "offline",
        "message",
        "result",
        "class",
        "xmlns",
        "duration",
        "notify",
        "iq",
        "t",
        "ack",
        "g.us",
        "enc",
        "urn:xmpp:whatsapp:push",
        "presence",
        "config_value",
        "picture",
        "verified_name",
        "config_code",
        "key-index-list",
        "contact",
        "mediatype",
        "routing_info",
        "edge_routing",
        "get",
        "read",
        "urn:xmpp:ping",
        "fallback_hostname",
        "0",
        "chatstate",
        "business_hours_config",
        "unavailable",
        "download_buckets",
        "skmsg",
        "verified_level",
        "composing",
        "handshake",
        "device-list",
        "media",
        "text",
        "fallback_ip4",
        "media_conn",
        "device",
        "creation",
        "location",
        "config",
        "item",
        "fallback_ip6",
        "count",
        "w:profile:picture",
        "image",
        "business",
        "2",
        "hostname",
        "call-creator",
        "display_name",
        "relaylatency",
        "platform",
        "abprops",
        "success",
        "msg",
        "offline_preview",
        "prop",
        "key-index",
        "v",
        "day_of_week",
        "pkmsg",
        "version",
        "1",
        "ping",
        "w:p",
        "download",
        "video",
        "set",
        "specific_hours",
        "props",
        "primary",
        "unknown",
        "hash",
        "commerce_experience",
        "last",
        "subscribe",
        "max_buckets",
        "call",
        "profile",
        "member_since_text",
        "close_time",
        "call-id",
        "sticker",
        "mode",
        "participants",
        "value",
        "query",
        "profile_options",
        "open_time",
        "code",
        "list",
        "host",
        "ts",
        "contacts",
        "upload",
        "lid",
        "preview",
        "update",
        "usync",
        "w:stats",
        "delivery",
        "auth_ttl",
        "context",
        "fail",
        "cart_enabled",
        "appdata",
        "category",
        "atn",
        "direct_connection",
        "decrypt-fail",
        "relay_id",
        "mmg-fallback.whatsapp.net",
        "target",
        "available",
        "name",
        "last_id",
        "mmg.whatsapp.net",
        "categories",
        "401",
        "is_new",
        "index",
        "tctoken",
        "ip4",
        "token_id",
        "latency",
        "recipient",
        "edit",
        "ip6",
        "add",
        "thumbnail-document",
        "26",
        "paused",
        "true",
        "identity",
        "stream:error",
        "key",
        "sidelist",
        "background",
        "audio",
        "3",
        "thumbnail-image",
        "biz-cover-photo",
        "cat",
        "gcm",
        "thumbnail-video",
        "error",
        "auth",
        "deny",
        "serial",
        "in",
        "registration",
        "thumbnail-link",
        "remove",
        "00",
        "gif",
        "thumbnail-gif",
        "tag",
        "capability",
        "multicast",
        "item-not-found",
        "description",
        "business_hours",
        "config_expo_key",
        "md-app-state",
        "expiration",
        "fallback",
        "ttl",
        "300",
        "md-msg-hist",
        "device_orientation",
        "out",
        "w:m",
        "open_24h",
        "side_list",
        "token",
        "inactive",
        "01",
        "document",
        "te2",
        "played",
        "encrypt",
        "msgr",
        "hide",
        "direct_path",
        "12",
        "state",
        "not-authorized",
        "url",
        "terminate",
        "signature",
        "status-revoke-delay",
        "02",
        "te",
        "linked_accounts",
        "trusted_contact",
        "timezone",
        "ptt",
        "kyc-id",
        "privacy_token",
        "readreceipts",
        "appointment_only",
        "address",
        "expected_ts",
        "privacy",
        "7",
        "android",
        "interactive",
        "device-identity",
        "enabled",
        "attribute_padding",
        "1080",
        "03",
        "screen_height",
    ];
    v
}



pub open spec fn double_token_seq_0() -> Seq<Seq<char>> {
    seq![
        "read-self"@,
        "active"@,
        "fbns"@,
        "protocol"@,
        "reaction"@,
        "screen_width"@,
        "heartbeat"@,
        "deviceid"@,
        "2:47DEQpj8"@,
        "uploadfieldstat"@,
        "voip_settings"@,
        "retry"@,
        "priority"@,
        "longitude"@,
        "conflict"@,
        "false"@,
        "ig_professional"@,
        "replaced"@,
        "preaccept"@,
        "cover_photo"@,
        "uncompressed"@,
        "encopt"@,
        "ppic"@,
        "04"@,
        "passive"@,
        "status-revoke-drop"@,
        "keygen"@,
        "540"@,
        "offer"@,
        "rate"@,
        "opus"@,
        "latitude"@,
        "w:gp2"@,
        "ver"@,
        "4"@,
        "business_profile"@,
        "medium"@,
        "sender"@,
        "prev_v_id"@,
        "email"@,
        "website"@,
        "invited"@,
        "sign_credential"@,
        "05"@,
        "transport"@,
        "skey"@,
        "reason"@,
        "peer_abtest_bucket"@,
        "America/Sao_Paulo"@,
        "appid"@,
        "refresh"@,
        "100"@,
        "06"@,
        "404"@,
        "101"@,
        "104"@,
        "107"@,
        "102"@,
        "109"@,
        "103"@,
        "member_add_mode"@,
        "105"@,
        "transaction-id"@,
        "110"@,
        "106"@,
        "outgoing"@,
        "108"@,
        "111"@,
        "tokens"@,
        "followers"@,
        "ig_handle"@,
        "self_pid"@,
        "tue"@,
        "dec"@,
        "thu"@,
        "joinable"@,
        "peer_pid"@,
        "mon"@,
        "features"@,
        "wed"@,
        "peer_device_presence"@,
        "pn"@,
        "delete"@,
        "07"@,
        "fri"@,
        "audio_duration"@,
        "admin"@,
        "connected"@,
        "delta"@,
        "rcat"@,
        "disable"@,
        "collection"@,
        "08"@,
        "480"@,
        "sat"@,
        "phash"@,
        "all"@,
        "invite"@,
        "accept"@,
        "critical_unblock_low"@,
        "group_update"@,
        "signed_credential"@,
        "blinded_credential"@,
        "eph_setting"@,
        "net"@,
        "09"@,
        "background_location"@,
        "refresh_id"@,
        "Asia/Kolkata"@,
        "privacy_mode_ts"@,
        "account_sync"@,
        "voip_payload_type"@,
        "service_areas"@,
        "acs_public_key"@,
        "v_id"@,
        "0a"@,
        "fallback_class"@,
        "relay"@,
        "actual_actors"@,
        "metadata"@,
        "w:biz"@,
        "5"@,
        "connected-limit"@,
        "notice"@,
        "0b"@,
        "host_storage"@,
        "fb_page"@,
        "subject"@,
        "privatestats"@,
        "invis"@,
        "groupadd"@,
        "010"@,
        "note.m4r"@,
        "uuid"@,
        "0c"@,
        "8000"@,
        "sun"@,
        "372"@,
        "1020"@,
        "stage"@,
        "1200"@,
        "720"@,
        "canonical"@,
        "fb"@,
        "011"@,
        "video_duration"@,
        "0d"@,
        "1140"@,
        "superadmin"@,
        "012"@,
        "Opening.m4r"@,
        "keystore_attestation"@,
        "dleq_proof"@,
        "013"@,
        "timestamp"@,
        "ab_key"@,
        "w:sync:app:state"@,
        "0e"@,
        "vertical"@,
        "600"@,
        "p_v_id"@,
        "6"@,
        "likes"@,
        "014"@,
        "500"@,
        "1260"@,
        "creator"@,
        "0f"@,
        "rte"@,
        "destination"@,
        "group"@,
        "group_info"@,
        "syncd_anti_tampering_fatal_exception_enabled"@,
        "015"@,
        "dl_bw"@,
        "Asia/Jakarta"@,
        "vp8/h.264"@,
        "online"@,
        "1320"@,
        "fb:multiway"@,
        "10"@,
        "timeout"@,
        "016"@,
        "nse_retry"@,
        "urn:xmpp:whatsapp:dirty"@,
        "017"@,
        "a_v_id"@,
        "web_shops_chat_header_button_enabled"@,
        "nse_call"@,
        "inactive-upgrade"@,
        "none"@,
        "web"@,
        "groups"@,
        "2250"@,
        "mms_hot_content_timespan_in_seconds"@,
        "contact_blacklist"@,
        "nse_read"@,
        "suspended_group_deletion_notification"@,
        "binary_version"@,
        "018"@,
        "https://www.whatsapp.com/otp/copy/"@,
        "reg_push"@,
        "shops_hide_catalog_attachment_entrypoint"@,
        "server_sync"@,
        "."@,
        "ephemeral_messages_allowed_values"@,
        "019"@,
        "mms_vcache_aggregation_enabled"@,
        "iphone"@,
        "America/Argentina/Buenos_Aires"@,
        "01a"@,
        "mms_vcard_autodownload_size_kb"@,
        "nse_ver"@,
        "shops_header_dropdown_menu_item"@,
        "dhash"@,
        "catalog_status"@,
        "communities_mvp_new_iqs_serverprop"@,
        "blocklist"@,
        "default"@,
        "11"@,
        "ephemeral_messages_enabled"@,
        "01b"@,
        "original_dimensions"@,
        "8"@,
        "mms4_media_retry_notification_encryption_enabled"@,
        "mms4_server_error_receipt_encryption_enabled"@,
        "original_image_url"@,
        "sync"@,
        "multiway"@,
        "420"@,
        "companion_enc_static"@,
        "shops_profile_drawer_entrypoint"@,
        "01c"@,
        "vcard_as_document_size_kb"@,
        "status_video_max_duration"@,
        "request_image_url"@,
        "01d"@,
        "regular_high"@,
        "s_t"@,
        "abt"@,
        "share_ext_min_preliminary_image_quality"@,
        "01e"@,
        "32"@,
        "syncd_key_rotation_enabled"@,
        "data_namespace"@,
        "md_downgrade_read_receipts2"@,
        "patch"@,
        "polltype"@,
        "ephemeral_messages_setting"@,
        "userrate"@,
        "15"@,
        "partial_pjpeg_bw_threshold"@,
        "played-self"@,
        "catalog_exists"@,
        "01f"@,
        "mute_v2"@,
    ]
}



pub fn double_byte_tokens_0() -> (r: Vec<&'static str>)
    ensures
        r@.len() == 256,
        forall|i: int| 0 <= i < 256 ==> (#[trigger] r@[i])@ == double_token_seq_0()[i],
{
    let v: Vec<&'static str> = vec![
        "read-self",
        "active",
        "fbns",
        "protocol",
        "reaction",
        "screen_width",
        "heartbeat",
        "deviceid",
        "2:47DEQpj8",
        "uploadfieldstat",
        "voip_settings",
        "retry",
        "priority",
        "longitude",
        "conflict",
        "false",
        "ig_professional",
        "replaced",
        "preaccept",
        "cover_photo",
        "uncompressed",
        "encopt",
        "ppic",
        "04",
        "passive",
        "status-revoke-drop",
        "keygen",
        "540",
        "offer",
        "rate",
        "opus",
        "latitude",
        "w:gp2",
        "ver",
        "4",
        "business_profile",
        "medium",
        "sender",
        "prev_v_id",
        "email",
        "website",
        "invited",
        "sign_credential",
        "05",
        "transport",
        "skey",
        "reason",
        "peer_abtest_bucket",
        "America/Sao_Paulo",
        "appid",
        "refresh",
        "100",
        "06",
        "404",
        "101",
        "104",
        "107",
        "102",
        "109",
        "103",
        "member_add_mode",
        "105",
        "transaction-id",
        "110",
        "106",
        "outgoing",
        "108",
        "111",
        "tokens",
        "followers",
        "ig_handle",
        "self_pid",
        "tue",
        "dec",
        "thu",
        "joinable",
        "peer_pid",
        "mon",
        "features",
        "wed",
        "peer_device_presence",
        "pn",
        "delete",
        "07",
        "fri",
        "audio_duration",
        "admin",
        "connected",
        "delta",
        "rcat",
        "disable",
        "collection",
        "08",
        "480",
        "sat",
        "phash",
        "all",
        "invite",
        "accept",
        "critical_unblock_low",
        "group_update",
        "signed_credential",
        "blinded_credential",
        "eph_setting",
        "net",
        "09",
        "background_location",
        "refresh_id",
        "Asia/Kolkata",
        "privacy_mode_ts",
        "account_sync",
        "voip_payload_type",
        "service_areas",
        "acs_public_key",
        "v_id",
        "0a",
        "fallback_class",
        "relay",
        "actual_actors",
        "metadata",
        "w:biz",
        "5",
        "connected-limit",
        "notice",
        "0b",
        "host_storage",
        "fb_page",
        "subject",
        "privatestats",
        "invis",
        "groupadd",
        "010",
        "note.m4r",
        "uuid",
        "0c",
        "8000",
        "sun",
        "372",
        "1020",
        "stage",
        "1200",
        "720",
        "canonical",
        "fb",
        "011",
        "video_duration",
        "0d",
        "1140",
        "superadmin",
        "012",
        "Opening.m4r",
        "keystore_attestation",
        "dleq_proof",
        "013",
        "timestamp",
        "ab_key",
        "w:sync:app:state",
        "0e",
        "vertical",
        "600",
        "p_v_id",
        "6",
        "likes",
        "014",
        "500",
        "1260",
        "creator",
        "0f",
        "rte",
        "destination",
        "group",
        "group_info",
        "syncd_anti_tampering_fatal_exception_enabled",
        "015",
        "dl_bw",
        "Asia/Jakarta",
        "vp8/h.264",
        "online",
        "1320",
        "fb:multiway",
        "10",
        "timeout",
        "016",
        "nse_retry",
        "urn:xmpp:whatsapp:dirty",
        "017",
        "a_v_id",
        "web_shops_chat_header_button_enabled",
        "nse_call",
        "inactive-upgrade",
        "none",
        "web",
        "groups",
        "2250",
        "mms_hot_content_timespan_in_seconds",
        "contact_blacklist",
        "nse_read",
        "suspended_group_deletion_notification",
        "binary_version",
        "018",
        "https://www.whatsapp.com/otp/copy/",
        "reg_push",
        "shops_hide_catalog_attachment_entrypoint",
        "server_sync",
        ".",
        "ephemeral_messages_allowed_values",
        "019",
        "mms_vcache_aggregation_enabled",
        "iphone",
        "America/Argentina/Buenos_Aires",
        "01a",
        "mms_vcard_autodownload_size_kb",
        "nse_ver",
        "shops_header_dropdown_menu_item",
        "dhash",
        "catalog_status",
        "communities_mvp_new_iqs_serverprop",
        "blocklist",
        "default",
        "11",
        "ephemeral_messages_enabled",
        "01b",
        "original_dimensions",
        "8",
        "mms4_media_retry_notification_encryption_enabled",
        "mms4_server_error_receipt_encryption_enabled",
        "original_image_url",
        "sync",
        "multiway",
        "420",
        "companion_enc_static",
        "shops_profile_drawer_entrypoint",
        "01c",
        "vcard_as_document_size_kb",
        "status_video_max_duration",
        "request_image_url",
        "01d",
        "regular_high",
        "s_t",
        "abt",
        "share_ext_min_preliminary_image_quality",
        "01e",
        "32",
        "syncd_key_rotation_enabled",
        "data_namespace",
        "md_downgrade_read_receipts2",
        "patch",
        "polltype",
        "ephemeral_messages_setting",
        "userrate",
        "15",
        "partial_pjpeg_bw_threshold",
        "played-self",
        "catalog_exists",
        "01f",
        "mute_v2",
    ];
    v
}



pub open spec fn double_token_seq_1() -> Seq<Seq<char>> {
    seq![
        "reject"@,
        "dirty"@,
        "announcement"@,
        "020"@,
        "13"@,
        "9"@,
        "status_video_max_bitrate"@,
        "fb:thrift_iq"@,
        "offline_batch"@,
        "022"@,
        "full"@,
        "ctwa_first_business_reply_logging"@,
        "h.264"@,
        "smax_id"@,
        "group_description_length"@,
        "https://www.whatsapp.com/otp/code"@,
        "status_image_max_edge"@,
        "smb_upsell_business_profile_enabled"@,
        "021"@,
        "web_upgrade_to_md_modal"@,
        "14"@,
        "023"@,
        "s_o"@,
        "smaller_video_thumbs_status_enabled"@,
        "media_max_autodownload"@,
        "960"@,
        "blocking_status"@,
        "peer_msg"@,
        "joinable_group_call_client_version"@,
        "group_call_video_maximization_enabled"@,
        "return_snapshot"@,
        "high"@,
        "America/Mexico_City"@,
        "entry_point_block_logging_enabled"@,
        "pop"@,
        "024"@,
        "1050"@,
        "16"@,
        "1380"@,
        "one_tap_calling_in_group_chat_size"@,
        "regular_low"@,
        "inline_joinable_education_enabled"@,
        "hq_image_max_edge"@,
        "locked"@,
        "America/Bogota"@,
        "smb_biztools_deeplink_enabled"@,
        "status_image_quality"@,
        "1088"@,
        "025"@,
        "payments_upi_intent_transaction_limit"@,
        "voip"@,
        "w:g2"@,
        "027"@,
        "md_pin_chat_enabled"@,
        "026"@,
        "multi_scan_pjpeg_download_enabled"@,
        "shops_product_grid"@,
        "transaction_id"@,
    ]
}



pub fn double_byte_tokens_1() -> (r: Vec<&'static str>)
    ensures
        r@.len() == 58,
        forall|i: int| 0 <= i < 58 ==> (#[trigger] r@[i])@ == double_token_seq_1()[i],
{
    let v: Vec<&'static str> = vec![
        "reject",
        "dirty",
        "announcement",
        "020",
        "13",
        "9",
        "status_video_max_bitrate",
        "fb:thrift_iq",
        "offline_batch",
        "022",
        "full",
        "ctwa_first_business_reply_logging",
        "h.264",
        "smax_id",
        "group_description_length",
        "https://www.whatsapp.com/otp/code",
        "status_image_max_edge",
        "smb_upsell_business_profile_enabled",
        "021",
        "web_upgrade_to_md_modal",
        "14",
        "023",
        "s_o",
        "smaller_video_thumbs_status_enabled",
        "media_max_autodownload",
        "960",
        "blocking_status",
        "peer_msg",
        "joinable_group_call_client_version",
        "group_call_video_maximization_enabled",
        "return_snapshot",
        "high",
        "America/Mexico_City",
        "entry_point_block_logging_enabled",
        "pop",
        "024",
        "1050",
        "16",
        "1380",
        "one_tap_calling_in_group_chat_size",
        "regular_low",
        "inline_joinable_education_enabled",
        "hq_image_max_edge",
        "locked",
        "America/Bogota",
        "smb_biztools_deeplink_enabled",
        "status_image_quality",
        "1088",
        "025",
        "payments_upi_intent_transaction_limit",
        "voip",
        "w:g2",
        "027",
        "md_pin_chat_enabled",
        "026",
        "multi_scan_pjpeg_download_enabled",
        "shops_product_grid",
        "transaction_id",
    ];
    v
}



pub open spec fn double_token_seq_2() -> Seq<Seq<char>> {
    seq![
        "ctwa_context_enabled"@,
        "20"@,
        "fna"@,
        "hq_image_quality"@,
        "alt_jpeg_doc_detection_quality"@,
        "group_call_max_participants"@,
        "pkey"@,
        "America/Belem"@,
        "image_max_kbytes"@,
        "web_cart_v1_1_order_message_changes_enabled"@,
        "ctwa_context_enterprise_enabled"@,
        "urn:xmpp:whatsapp:account"@,
        "840"@,
        "Asia/Kuala_Lumpur"@,
        "max_participants"@,
        "video_remux_after_repair_enabled"@,
        "stella_addressbook_restriction_type"@,
        "660"@,
        "900"@,
        "780"@,
        "context_menu_ios13_enabled"@,
        "mute-state"@,
        "ref"@,
        "payments_request_messages"@,
        "029"@,
        "frskmsg"@,
        "vcard_max_size_kb"@,
        "sample_buffer_gif_player_enabled"@,
        "match_last_seen"@,
        "510"@,
        "4983"@,
        "video_max_bitrate"@,
        "028"@,
        "w:comms:chat"@,
        "17"@,
        "frequently_forwarded_max"@,
        "groups_privacy_blacklist"@,
        "Asia/Karachi"@,
        "02a"@,
        "web_download_document_thumb_mms_enabled"@,
        "02b"@,
        "hist_sync"@,
        "biz_block_reasons_version"@,
        "1024"@,
        "18"@,
        "web_is_direct_connection_for_plm_transparent"@,
        "view_once_write"@,
        "file_max_size"@,
        "paid_convo_id"@,
        "online_privacy_setting"@,
        "video_max_edge"@,
        "view_once_read"@,
        "enhanced_storage_management"@,
        "multi_scan_pjpeg_encoding_enabled"@,
        "ctwa_context_forward_enabled"@,
        "video_transcode_downgrade_enable"@,
        "template_doc_mime_types"@,
        "hq_image_bw_threshold"@,
        "30"@,
        "body"@,
    ]
}



pub fn double_byte_tokens_2() -> (r: Vec<&'static str>)
    ensures
        r@.len() == 60,
        forall|i: int| 0 <= i < 60 ==> (#[trigger] r@[i])@ == double_token_seq_2()[i],
{
    let v: Vec<&'static str> = vec![
        "ctwa_context_enabled",
        "20",
        "fna",
        "hq_image_quality",
        "alt_jpeg_doc_detection_quality",
        "group_call_max_participants",
        "pkey",
        "America/Belem",
        "image_max_kbytes",
        "web_cart_v1_1_order_message_changes_enabled",
        "ctwa_context_enterprise_enabled",
        "urn:xmpp:whatsapp:account",
        "840",
        "Asia/Kuala_Lumpur",
        "max_participants",
        "video_remux_after_repair_enabled",
        "stella_addressbook_restriction_type",
        "660",
        "900",
        "780",
        "context_menu_ios13_enabled",
        "mute-state",
        "ref",
        "payments_request_messages",
        "029",
        "frskmsg",
        "vcard_max_size_kb",
        "sample_buffer_gif_player_enabled",
        "match_last_seen",
        "510",
        "4983",
        "video_max_bitrate",
        "028",
        "w:comms:chat",
        "17",
        "frequently_forwarded_max",
        "groups_privacy_blacklist",
        "Asia/Karachi",
        "02a",
        "web_download_document_thumb_mms_enabled",
        "02b",
        "hist_sync",
        "biz_block_reasons_version",
        "1024",
        "18",
        "web_is_direct_connection_for_plm_transparent",
        "view_once_write",
        "file_max_size",
        "paid_convo_id",
        "online_privacy_setting",
        "video_max_edge",
        "view_once_read",
        "enhanced_storage_management",
        "multi_scan_pjpeg_encoding_enabled",
        "ctwa_context_forward_enabled",
        "video_transcode_downgrade_enable",
        "template_doc_mime_types",
        "hq_image_bw_threshold",
        "30",
        "body",
    ];
    v
}



pub open spec fn double_token_seq_3() -> Seq<Seq<char>> {
    seq![
        "stream:features"@,
        "regular"@,
        "1724"@,
        "profile_picture"@,
    ]
}



pub fn double_byte_tokens_3() -> (r: Vec<&'static str>)
    ensures
        r@.len() == 4,
        forall|i: int| 0 <= i < 4 ==> (#[trigger] r@[i])@ == double_token_seq_3()[i],
{
    let v: Vec<&'static str> = vec![
        "stream:features",
        "regular",
        "1724",
        "profile_picture",
    ];
    v
}


/// The first index at or after `i` in the primary table whose entry equals `t`;
/// index 0 (the empty string) is never a token.
pub open spec fn first_single_index_at(t: Seq<char>, i: int) -> Option<u8>
    decreases 236 - i,
{
    if i < 1 || i >= 236 {
        None
    } else if single_token_seq()[i] == t {
        Some(i as u8)
    } else {
        first_single_index_at(t, i + 1)
    }
}

/// The reverse lookup of the primary table: the lowest index whose entry is `t`.
pub open spec fn spec_token_index(t: Seq<char>) -> Option<u8> {
    first_single_index_at(t, 1)
}

/// The forward lookup of a secondary table: dictionary id, then index.
pub open spec fn spec_double_token(dict: int, index: int) -> Option<Seq<char>> {
    if 0 <= index && (if dict == 0 {
        index < 256
    } else if dict == 1 {
        index < 58
    } else if dict == 2 {
        index < 60
    } else {
        dict == 3 && index < 4
    }) {
        if dict == 0 {
            Some(double_token_seq_0()[index])
        } else if dict == 1 {
            Some(double_token_seq_1()[index])
        } else if dict == 2 {
            Some(double_token_seq_2()[index])
        } else {
            Some(double_token_seq_3()[index])
        }
    } else {
        None
    }
}

/// Forward lookup in the primary table: the string a single token byte stands for.
pub fn get_token(index: u8) -> (r: Option<&'static str>)
    ensures
        index < 236 ==> (r matches Some(s) && s@ == single_token_seq()[index as int]),
        index >= 236 ==> r is None,
{
    if index < 236 {
        let table = single_byte_tokens();
        Some(table[index as usize])
    } else {
        None
    }
}

/// Reverse lookup in the primary table: the lowest token index for `s`, if any.
pub fn get_token_index(s: &str) -> (r: Option<u8>)
    ensures
        r == spec_token_index(s@),
{
    let table = single_byte_tokens();
    let mut i: usize = 1;
    while i < 236
        invariant
            1 <= i <= 236,
            table@.len() == 236,
            forall|k: int| 0 <= k < 236 ==> (#[trigger] table@[k])@ == single_token_seq()[k],
            first_single_index_at(s@, 1) == first_single_index_at(s@, i as int),
        decreases 236 - i,
    {
        if crate::bytes_util::str_eq(s, table[i]) {
            proof {
                assert(first_single_index_at(s@, i as int) == Some(i as u8));
            }
            return Some(i as u8);
        }
        i = i + 1;
    }
    None
}

/// Forward lookup in a secondary table selected by a dictionary id.
pub fn get_double_token(dict: u8, index: u8) -> (r: Option<&'static str>)
    ensures
        match r {
            Some(s) => spec_double_token(dict as int, index as int) == Some(s@),
            None => spec_double_token(dict as int, index as int) is None,
        },
{
    if dict == 0 {
        let t = double_byte_tokens_0();
        Some(t[index as usize])
    } else if dict == 1 {
        let t = double_byte_tokens_1();
        if (index as usize) < 58 {
            Some(t[index as usize])
        } else {
            None
        }
    } else if dict == 2 {
        let t = double_byte_tokens_2();
        if (index as usize) < 60 {
            Some(t[index as usize])
        } else {
            None
        }
    } else if dict == 3 {
        let t = double_byte_tokens_3();
        if (index as usize) < 4 {
            Some(t[index as usize])
        } else {
            None
        }
    } else {
        None
    }
}

/// Every entry found by the reverse lookup maps back to the same string:
/// for any `t`, if `spec_token_index(t)` names an index, the primary table
/// holds exactly `t` there.
pub proof fn lemma_first_single_index_at(t: Seq<char>, i: int)
    requires
        1 <= i <= 236,
    ensures
        match first_single_index_at(t, i) {
            Some(j) => i <= j < 236 && single_token_seq()[j as int] == t,
            None => forall|k: int| i <= k < 236 ==> single_token_seq()[k] != t,
        },
    decreases 236 - i,
{
    if i < 236 {
        if single_token_seq()[i] != t {
            lemma_first_single_index_at(t, i + 1);
        }
    }
}

/// Token bijection: a string that the reverse lookup resolves to an index
/// is the very entry stored at that index, so looking the index up again
/// yields the original string.
pub proof fn lemma_token_round_trip(t: Seq<char>)
    ensures
        match spec_token_index(t) {
            Some(j) => 1 <= j < 236 && single_token_seq()[j as int] == t,
            None => forall|k: int| 1 <= k < 236 ==> single_token_seq()[k] != t,
        },
{
    lemma_first_single_index_at(t, 1);
}

/// The entries of the fourth secondary table are pairwise distinct,
/// so the string-to-index direction of its lookup is well defined.
#[verifier::spinoff_prover]
#[verifier::rlimit(100)]
pub proof fn lemma_double_table_3_distinct()
    ensures
        forall|i: int, j: int|
            0 <= i < j < 4 ==> double_token_seq_3()[i] != double_token_seq_3()[j],
{
    reveal_strlit("stream:features");
    reveal_strlit("regular");
    reveal_strlit("1724");
    reveal_strlit("profile_picture");
    assert("stream:features"@.len() == 15);
    assert("regular"@.len() == 7);
    assert("1724"@.len() == 4);
    assert("profile_picture"@.len() == 15);
    assert("profile_picture"@[0] == 'p');
    assert("stream:features"@[0] == 's');
}

/// The entries of the second secondary table are pairwise distinct,
/// so the string-to-index direction of its lookup is well defined.
#[verifier::spinoff_prover]
#[verifier::rlimit(100)]
pub proof fn lemma_double_table_1_distinct()
    ensures
        forall|i: int, j: int|
            0 <= i < j < 58 ==> double_token_seq_1()[i] != double_token_seq_1()[j],
{
    reveal_strlit("reject");
    reveal_strlit("dirty");
    reveal_strlit("announcement");
    reveal_strlit("020");
    reveal_strlit("13");
    reveal_strlit("9");
    reveal_strlit("status_video_max_bitrate");
    reveal_strlit("fb:thrift_iq");
    reveal_strlit("offline_batch");
    reveal_strlit("022");
    reveal_strlit("full");
    reveal_strlit("ctwa_first_business_reply_logging");
    reveal_strlit("h.264");
    reveal_strlit("smax_id");
    reveal_strlit("group_description_length");
    reveal_strlit("https://www.whatsapp.com/otp/code");
    reveal_strlit("status_image_max_edge");
    reveal_strlit("smb_upsell_business_profile_enabled");
    reveal_strlit("021");
    reveal_strlit("web_upgrade_to_md_modal");
    reveal_strlit("14");
    reveal_strlit("023");
    reveal_strlit("s_o");
    reveal_strlit("smaller_video_thumbs_status_enabled");
    reveal_strlit("media_max_autodownload");
    reveal_strlit("960");
    reveal_strlit("blocking_status");
    reveal_strlit("peer_msg");
    reveal_strlit("joinable_group_call_client_version");
    reveal_strlit("group_call_video_maximization_enabled");
    reveal_strlit("return_snapshot");
    reveal_strlit("high");
    reveal_strlit("America/Mexico_City");
    reveal_strlit("entry_point_block_logging_enabled");
    reveal_strlit("pop");
    reveal_strlit("024");
    reveal_strlit("1050");
    reveal_strlit("16");
    reveal_strlit("1380");
    reveal_strlit("one_tap_calling_in_group_chat_size");
    reveal_strlit("regular_low");
    reveal_strlit("inline_joinable_education_enabled");
    reveal_strlit("hq_image_max_edge");
    reveal_strlit("locked");
    reveal_strlit("America/Bogota");
    reveal_strlit("smb_biztools_deeplink_enabled");
    reveal_strlit("status_image_quality");
    reveal_strlit("1088");
    reveal_strlit("025");
    reveal_strlit("payments_upi_intent_transaction_limit");
    reveal_strlit("voip");
    reveal_strlit("w:g2");
    reveal_strlit("027");
    reveal_strlit("md_pin_chat_enabled");
    reveal_strlit("026");
    reveal_strlit("multi_scan_pjpeg_download_enabled");
    reveal_strlit("shops_product_grid");
    reveal_strlit("transaction_id");
    assert("reject"@.len() == 6);
    assert("dirty"@.len() == 5);
    assert("announcement"@.len() == 12);
    assert("020"@.len() == 3);
    assert("13"@.len() == 2);
    assert("9"@.len() == 1);
    assert("status_video_max_bitrate"@.len() == 24);
    assert("fb:thrift_iq"@.len() == 12);
    assert("offline_batch"@.len() == 13);
    assert("022"@.len() == 3);
    assert("full"@.len() == 4);
    assert("ctwa_first_business_reply_logging"@.len() == 33);
    assert("h.264"@.len() == 5);
    assert("smax_id"@.len() == 7);
    assert("group_description_length"@.len() == 24);
    assert("https://www.whatsapp.com/otp/code"@.len() == 33);
    assert("status_image_max_edge"@.len() == 21);
    assert("smb_upsell_business_profile_enabled"@.len() == 35);
    assert("021"@.len() == 3);
    assert("web_upgrade_to_md_modal"@.len() == 23);
    assert("14"@.len() == 2);
    assert("023"@.len() == 3);
    assert("s_o"@.len() == 3);
    assert("smaller_video_thumbs_status_enabled"@.len() == 35);
    assert("media_max_autodownload"@.len() == 22);
    assert("960"@.len() == 3);
    assert("blocking_status"@.len() == 15);
    assert("peer_msg"@.len() == 8);
    assert("joinable_group_call_client_version"@.len() == 34);
    assert("group_call_video_maximization_enabled"@.len() == 37);
    assert("return_snapshot"@.len() == 15);
    assert("high"@.len() == 4);
    assert("America/Mexico_City"@.len() == 19);
    assert("entry_point_block_logging_enabled"@.len() == 33);
    assert("pop"@.len() == 3);
    assert("024"@.len() == 3);
    assert("1050"@.len() == 4);
    assert("16"@.len() == 2);
    assert("1380"@.len() == 4);
    assert("one_tap_calling_in_group_chat_size"@.len() == 34);
    assert("regular_low"@.len() == 11);
    assert("inline_joinable_education_enabled"@.len() == 33);
    assert("hq_image_max_edge"@.len() == 17);
    assert("locked"@.len() == 6);
    assert("America/Bogota"@.len() == 14);
    assert("smb_biztools_deeplink_enabled"@.len() == 29);
    assert("status_image_quality"@.len() == 20);
    assert("1088"@.len() == 4);
    assert("025"@.len() == 3);
    assert("payments_upi_intent_transaction_limit"@.len() == 37);
    assert("voip"@.len() == 4);
    assert("w:g2"@.len() == 4);
    assert("027"@.len() == 3);
    assert("md_pin_chat_enabled"@.len() == 19);
    assert("026"@.len() == 3);
    assert("multi_scan_pjpeg_download_enabled"@.len() == 33);
    assert("shops_product_grid"@.len() == 18);
    assert("transaction_id"@.len() == 14);
    assert("020"@[0] == '0');
    assert("020"@[2] == '0');
    assert("021"@[0] == '0');
    assert("021"@[2] == '1');
    assert("022"@[0] == '0');
    assert("022"@[2] == '2');
    assert("023"@[0] == '0');
    assert("023"@[2] == '3');
    assert("024"@[0] == '0');
    assert("024"@[2] == '4');
    assert("025"@[0] == '0');
    assert("025"@[2] == '5');
    assert("026"@[0] == '0');
    assert("026"@[2] == '6');
    assert("027"@[0] == '0');
    assert("027"@[2] == '7');
    assert("1050"@[0] == '1');
    assert("1050"@[1] == '0');
    assert("1050"@[2] == '5');
    assert("1088"@[0] == '1');
    assert("1088"@[1] == '0');
    assert("1088"@[2] == '8');
    assert("13"@[1] == '3');
    assert("1380"@[0] == '1');
    assert("1380"@[1] == '3');
    assert("14"@[1] == '4');
    assert("16"@[1] == '6');
    assert("960"@[0] == '9');
    assert("America/Bogota"@[0] == 'A');
    assert("America/Mexico_City"@[0] == 'A');
    assert("announcement"@[0] == 'a');
    assert("blocking_status"@[0] == 'b');
    assert("ctwa_first_business_reply_logging"@[0] == 'c');
    assert("dirty"@[0] == 'd');
    assert("entry_point_block_logging_enabled"@[0] == 'e');
    assert("fb:thrift_iq"@[0] == 'f');
    assert("full"@[0] == 'f');
    assert("group_call_video_maximization_enabled"@[0] == 'g');
    assert("group_description_length"@[0] == 'g');
    assert("h.264"@[0] == 'h');
    assert("high"@[0] == 'h');
    assert("https://www.whatsapp.com/otp/code"@[0] == 'h');
    assert("inline_joinable_education_enabled"@[0] == 'i');
    assert("joinable_group_call_client_version"@[0] == 'j');
    assert("locked"@[0] == 'l');
    assert("md_pin_chat_enabled"@[0] == 'm');
    assert("multi_scan_pjpeg_download_enabled"@[0] == 'm');
    assert("one_tap_calling_in_group_chat_size"@[0] == 'o');
    assert("payments_upi_intent_transaction_limit"@[0] == 'p');
    assert("pop"@[0] == 'p');
    assert("reject"@[0] == 'r');
    assert("return_snapshot"@[0] == 'r');
    assert("s_o"@[0] == 's');
    assert("smaller_video_thumbs_status_enabled"@[2] == 'a');
    assert("smb_upsell_business_profile_enabled"@[2] == 'b');
    assert("status_video_max_bitrate"@[0] == 's');
    assert("transaction_id"@[0] == 't');
    assert("voip"@[0] == 'v');
    assert("w:g2"@[0] == 'w');
}

/// The entries of the third secondary table are pairwise distinct,
/// so the string-to-index direction of its lookup is well defined.
#[verifier::spinoff_prover]
#[verifier::rlimit(100)]
pub proof fn lemma_double_table_2_distinct()
    ensures
        forall|i: int, j: int|
            0 <= i < j < 60 ==> double_token_seq_2()[i] != double_token_seq_2()[j],
{
    reveal_strlit("ctwa_context_enabled");
    reveal_strlit("20");
    reveal_strlit("fna");
    reveal_strlit("hq_image_quality");
    reveal_strlit("alt_jpeg_doc_detection_quality");
    reveal_strlit("group_call_max_participants");
    reveal_strlit("pkey");
    reveal_strlit("America/Belem");
    reveal_strlit("image_max_kbytes");
    reveal_strlit("web_cart_v1_1_order_message_changes_enabled");
    reveal_strlit("ctwa_context_enterprise_enabled");
    reveal_strlit("urn:xmpp:whatsapp:account");
    reveal_strlit("840");
    reveal_strlit("Asia/Kuala_Lumpur");
    reveal_strlit("max_participants");
    reveal_strlit("video_remux_after_repair_enabled");
    reveal_strlit("stella_addressbook_restriction_type");
    reveal_strlit("660");
    reveal_strlit("900");
    reveal_strlit("780");
    reveal_strlit("context_menu_ios13_enabled");
    reveal_strlit("mute-state");
    reveal_strlit("ref");
    reveal_strlit("payments_request_messages");
    reveal_strlit("029");
    reveal_strlit("frskmsg");
    reveal_strlit("vcard_max_size_kb");
    reveal_strlit("sample_buffer_gif_player_enabled");
    reveal_strlit("match_last_seen");
    reveal_strlit("510");
    reveal_strlit("4983");
    reveal_strlit("video_max_bitrate");
    reveal_strlit("028");
    reveal_strlit("w:comms:chat");
    reveal_strlit("17");
    reveal_strlit("frequently_forwarded_max");
    reveal_strlit("groups_privacy_blacklist");
    reveal_strlit("Asia/Karachi");
    reveal_strlit("02a");
    reveal_strlit("web_download_document_thumb_mms_enabled");
    reveal_strlit("02b");
    reveal_strlit("hist_sync");
    reveal_strlit("biz_block_reasons_version");
    reveal_strlit("1024");
    reveal_strlit("18");
    reveal_strlit("web_is_direct_connection_for_plm_transparent");
    reveal_strlit("view_once_write");
    reveal_strlit("file_max_size");
    reveal_strlit("paid_convo_id");
    reveal_strlit("online_privacy_setting");
    reveal_strlit("video_max_edge");
    reveal_strlit("view_once_read");
    reveal_strlit("enhanced_storage_management");
    reveal_strlit("multi_scan_pjpeg_encoding_enabled");
    reveal_strlit("ctwa_context_forward_enabled");
    reveal_strlit("video_transcode_downgrade_enable");
    reveal_strlit("template_doc_mime_types");
    reveal_strlit("hq_image_bw_threshold");
    reveal_strlit("30");
    reveal_strlit("body");
    assert("ctwa_context_enabled"@.len() == 20);
    assert("20"@.len() == 2);
    assert("fna"@.len() == 3);
    assert("hq_image_quality"@.len() == 16);
    assert("alt_jpeg_doc_detection_quality"@.len() == 30);
    assert("group_call_max_participants"@.len() == 27);
    assert("pkey"@.len() == 4);
    assert("America/Belem"@.len() == 13);
    assert("image_max_kbytes"@.len() == 16);
    assert("web_cart_v1_1_order_message_changes_enabled"@.len() == 43);
    assert("ctwa_context_enterprise_enabled"@.len() == 31);
    assert("urn:xmpp:whatsapp:account"@.len() == 25);
    assert("840"@.len() == 3);
    assert("Asia/Kuala_Lumpur"@.len() == 17);
    assert("max_participants"@.len() == 16);
    assert("video_remux_after_repair_enabled"@.len() == 32);
    assert("stella_addressbook_restriction_type"@.len() == 35);
    assert("660"@.len() == 3);
    assert("900"@.len() == 3);
    assert("780"@.len() == 3);
    assert("context_menu_ios13_enabled"@.len() == 26);
    assert("mute-state"@.len() == 10);
    assert("ref"@.len() == 3);
    assert("payments_request_messages"@.len() == 25);
    assert("029"@.len() == 3);
    assert("frskmsg"@.len() == 7);
    assert("vcard_max_size_kb"@.len() == 17);
    assert("sample_buffer_gif_player_enabled"@.len() == 32);
    assert("match_last_seen"@.len() == 15);
    assert("510"@.len() == 3);
    assert("4983"@.len() == 4);
    assert("video_max_bitrate"@.len() == 17);
    assert("028"@.len() == 3);
    assert("w:comms:chat"@.len() == 12);
    assert("17"@.len() == 2);
    assert("frequently_forwarded_max"@.len() == 24);
    assert("groups_privacy_blacklist"@.len() == 24);
    assert("Asia/Karachi"@.len() == 12);
    assert("02a"@.len() == 3);
    assert("web_download_document_thumb_mms_enabled"@.len() == 39);
    assert("02b"@.len() == 3);
    assert("hist_sync"@.len() == 9);
    assert("biz_block_reasons_version"@.len() == 25);
    assert("1024"@.len() == 4);
    assert("18"@.len() == 2);
    assert("web_is_direct_connection_for_plm_transparent"@.len() == 44);
    assert("view_once_write"@.len() == 15);
    assert("file_max_size"@.len() == 13);
    assert("paid_convo_id"@.len() == 13);
    assert("online_privacy_setting"@.len() == 22);
    assert("video_max_edge"@.len() == 14);
    assert("view_once_read"@.len() == 14);
    assert("enhanced_storage_management"@.len() == 27);
    assert("multi_scan_pjpeg_encoding_enabled"@.len() == 33);
    assert("ctwa_context_forward_enabled"@.len() == 28);
    assert("video_transcode_downgrade_enable"@.len() == 32);
    assert("template_doc_mime_types"@.len() == 23);
    assert("hq_image_bw_threshold"@.len() == 21);
    assert("30"@.len() == 2);
    assert("body"@.len() == 4);
    assert("028"@[0] == '0');
    assert("028"@[2] == '8');
    assert("029"@[0] == '0');
    assert("029"@[2] == '9');
    assert("02a"@[0] == '0');
    assert("02a"@[2] == 'a');
    assert("02b"@[0] == '0');
    assert("02b"@[2] == 'b');
    assert("1024"@[0] == '1');
    assert("17"@[0] == '1');
    assert("17"@[1] == '7');
    assert("18"@[0] == '1');
    assert("18"@[1] == '8');
    assert("20"@[0] == '2');
    assert("30"@[0] == '3');
    assert("4983"@[0] == '4');
    assert("510"@[0] == '5');
    assert("660"@[0] == '6');
    assert("780"@[0] == '7');
    assert("840"@[0] == '8');
    assert("900"@[0] == '9');
    assert("America/Belem"@[0] == 'A');
    assert("Asia/Karachi"@[0] == 'A');
    assert("Asia/Kuala_Lumpur"@[0] == 'A');
    assert("biz_block_reasons_version"@[0] == 'b');
    assert("body"@[0] == 'b');
    assert("enhanced_storage_management"@[0] == 'e');
    assert("file_max_size"@[0] == 'f');
    assert("fna"@[0] == 'f');
    assert("frequently_forwarded_max"@[0] == 'f');
    assert("group_call_max_participants"@[0] == 'g');
    assert("groups_privacy_blacklist"@[0] == 'g');
    assert("hq_image_quality"@[0] == 'h');
    assert("image_max_kbytes"@[0] == 'i');
    assert("match_last_seen"@[0] == 'm');
    assert("max_participants"@[0] == 'm');
    assert("paid_convo_id"@[0] == 'p');
    assert("payments_request_messages"@[0] == 'p');
    assert("pkey"@[0] == 'p');
    assert("ref"@[0] == 'r');
    assert("sample_buffer_gif_player_enabled"@[0] == 's');
    assert("urn:xmpp:whatsapp:account"@[0] == 'u');
    assert("vcard_max_size_kb"@[0] == 'v');
    assert("vcard_max_size_kb"@[1] == 'c');
    assert("video_max_bitrate"@[0] == 'v');
    assert("video_max_bitrate"@[1] == 'i');
    assert("video_max_edge"@[2] == 'd');
    assert("video_remux_after_repair_enabled"@[0] == 'v');
    assert("video_remux_after_repair_enabled"@[6] == 'r');
    assert("video_transcode_downgrade_enable"@[0] == 'v');
    assert("video_transcode_downgrade_enable"@[6] == 't');
    assert("view_once_read"@[2] == 'e');
    assert("view_once_write"@[0] == 'v');
    assert("w:comms:chat"@[0] == 'w');
}

/// The entries of the first secondary table are pairwise distinct,
/// so the string-to-index direction of its lookup is well defined.
#[verifier::spinoff_prover]
#[verifier::rlimit(100)]
pub proof fn lemma_double_table_0_distinct()
    ensures
        forall|i: int, j: int|
            0 <= i < j < 256 ==> double_token_seq_0()[i] != double_token_seq_0()[j],
{
    reveal_strlit("read-self");
    reveal_strlit("active");
    reveal_strlit("fbns");
    reveal_strlit("protocol");
    reveal_strlit("reaction");
    reveal_strlit("screen_width");
    reveal_strlit("heartbeat");
    reveal_strlit("deviceid");
    reveal_strlit("2:47DEQpj8");
    reveal_strlit("uploadfieldstat");
    reveal_strlit("voip_settings");
    reveal_strlit("retry");
    reveal_strlit("priority");
    reveal_strlit("longitude");
    reveal_strlit("conflict");
    reveal_strlit("false");
    reveal_strlit("ig_professional");
    reveal_strlit("replaced");
    reveal_strlit("preaccept");
    reveal_strlit("cover_photo");
    reveal_strlit("uncompressed");
    reveal_strlit("encopt");
    reveal_strlit("ppic");
    reveal_strlit("04");
    reveal_strlit("passive");
    reveal_strlit("status-revoke-drop");
    reveal_strlit("keygen");
    reveal_strlit("540");
    reveal_strlit("offer");
    reveal_strlit("rate");
    reveal_strlit("opus");
    reveal_strlit("latitude");
    reveal_strlit("w:gp2");
    reveal_strlit("ver");
    reveal_strlit("4");
    reveal_strlit("business_profile");
    reveal_strlit("medium");
    reveal_strlit("sender");
    reveal_strlit("prev_v_id");
    reveal_strlit("email");
    reveal_strlit("website");
    reveal_strlit("invited");
    reveal_strlit("sign_credential");
    reveal_strlit("05");
    reveal_strlit("transport");
    reveal_strlit("skey");
    reveal_strlit("reason");
    reveal_strlit("peer_abtest_bucket");
    reveal_strlit("America/Sao_Paulo");
    reveal_strlit("appid");
    reveal_strlit("refresh");
    reveal_strlit("100");
    reveal_strlit("06");
    reveal_strlit("404");
    reveal_strlit("101");
    reveal_strlit("104");
    reveal_strlit("107");
    reveal_strlit("102");
    reveal_strlit("109");
    reveal_strlit("103");
    reveal_strlit("member_add_mode");
    reveal_strlit("105");
    reveal_strlit("transaction-id");
    reveal_strlit("110");
    reveal_strlit("106");
    reveal_strlit("outgoing");
    reveal_strlit("108");
    reveal_strlit("111");
    reveal_strlit("tokens");
    reveal_strlit("followers");
    reveal_strlit("ig_handle");
    reveal_strlit("self_pid");
    reveal_strlit("tue");
    reveal_strlit("dec");
    reveal_strlit("thu");
    reveal_strlit("joinable");
    reveal_strlit("peer_pid");
    reveal_strlit("mon");
    reveal_strlit("features");
    reveal_strlit("wed");
    reveal_strlit("peer_device_presence");
    reveal_strlit("pn");
    reveal_strlit("delete");
    reveal_strlit("07");
    reveal_strlit("fri");
    reveal_strlit("audio_duration");
    reveal_strlit("admin");
    reveal_strlit("connected");
    reveal_strlit("delta");
    reveal_strlit("rcat");
    reveal_strlit("disable");
    reveal_strlit("collection");
    reveal_strlit("08");
    reveal_strlit("480");
    reveal_strlit("sat");
    reveal_strlit("phash");
    reveal_strlit("all");
    reveal_strlit("invite");
    reveal_strlit("accept");
    reveal_strlit("critical_unblock_low");
    reveal_strlit("group_update");
    reveal_strlit("signed_credential");
    reveal_strlit("blinded_credential");
    reveal_strlit("eph_setting");
    reveal_strlit("net");
    reveal_strlit("09");
    reveal_strlit("background_location");
    reveal_strlit("refresh_id");
    reveal_strlit("Asia/Kolkata");
    reveal_strlit("privacy_mode_ts");
    reveal_strlit("account_sync");
    reveal_strlit("voip_payload_type");
    reveal_strlit("service_areas");
    reveal_strlit("acs_public_key");
    reveal_strlit("v_id");
    reveal_strlit("0a");
    reveal_strlit("fallback_class");
    reveal_strlit("relay");
    reveal_strlit("actual_actors");
    reveal_strlit("metadata");
    reveal_strlit("w:biz");
    reveal_strlit("5");
    reveal_strlit("connected-limit");
    reveal_strlit("notice");
    reveal_strlit("0b");
    reveal_strlit("host_storage");
    reveal_strlit("fb_page");
    reveal_strlit("subject");
    reveal_strlit("privatestats");
    reveal_strlit("invis");
    reveal_strlit("groupadd");
    reveal_strlit("010");
    reveal_strlit("note.m4r");
    reveal_strlit("uuid");
    reveal_strlit("0c");
    reveal_strlit("8000");
    reveal_strlit("sun");
    reveal_strlit("372");
    reveal_strlit("1020");
    reveal_strlit("stage");
    reveal_strlit("1200");
    reveal_strlit("720");
    reveal_strlit("canonical");
    reveal_strlit("fb");
    reveal_strlit("011");
    reveal_strlit("video_duration");
    reveal_strlit("0d");
    reveal_strlit("1140");
    reveal_strlit("superadmin");
    reveal_strlit("012");
    reveal_strlit("Opening.m4r");
    reveal_strlit("keystore_attestation");
    reveal_strlit("dleq_proof");
    reveal_strlit("013");
    reveal_strlit("timestamp");
    reveal_strlit("ab_key");
    reveal_strlit("w:sync:app:state");
    reveal_strlit("0e");
    reveal_strlit("vertical");
    reveal_strlit("600");
    reveal_strlit("p_v_id");
    reveal_strlit("6");
    reveal_strlit("likes");
    reveal_strlit("014");
    reveal_strlit("500");
    reveal_strlit("1260");
    reveal_strlit("creator");
    reveal_strlit("0f");
    reveal_strlit("rte");
    reveal_strlit("destination");
    reveal_strlit("group");
    reveal_strlit("group_info");
    reveal_strlit("syncd_anti_tampering_fatal_exception_enabled");
    reveal_strlit("015");
    reveal_strlit("dl_bw");
    reveal_strlit("Asia/Jakarta");
    reveal_strlit("vp8/h.264");
    reveal_strlit("online");
    reveal_strlit("1320");
    reveal_strlit("fb:multiway");
    reveal_strlit("10");
    reveal_strlit("timeout");
    reveal_strlit("016");
    reveal_strlit("nse_retry");
    reveal_strlit("urn:xmpp:whatsapp:dirty");
    reveal_strlit("017");
    reveal_strlit("a_v_id");
    reveal_strlit("web_shops_chat_header_button_enabled");
    reveal_strlit("nse_call");
    reveal_strlit("inactive-upgrade");
    reveal_strlit("none");
    reveal_strlit("web");
    reveal_strlit("groups");
    reveal_strlit("2250");
    reveal_strlit("mms_hot_content_timespan_in_seconds");
    reveal_strlit("contact_blacklist");
    reveal_strlit("nse_read");
    reveal_strlit("suspended_group_deletion_notification");
    reveal_strlit("binary_version");
    reveal_strlit("018");
    reveal_strlit("https://www.whatsapp.com/otp/copy/");
    reveal_strlit("reg_push");
    reveal_strlit("shops_hide_catalog_attachment_entrypoint");
    reveal_strlit("server_sync");
    reveal_strlit(".");
    reveal_strlit("ephemeral_messages_allowed_values");
    reveal_strlit("019");
    reveal_strlit("mms_vcache_aggregation_enabled");
    reveal_strlit("iphone");
    reveal_strlit("America/Argentina/Buenos_Aires");
    reveal_strlit("01a");
    reveal_strlit("mms_vcard_autodownload_size_kb");
    reveal_strlit("nse_ver");
    reveal_strlit("shops_header_dropdown_menu_item");
    reveal_strlit("dhash");
    reveal_strlit("catalog_status");
    reveal_strlit("communities_mvp_new_iqs_serverprop");
    reveal_strlit("blocklist");
    reveal_strlit("default");
    reveal_strlit("11");
    reveal_strlit("ephemeral_messages_enabled");
    reveal_strlit("01b");
    reveal_strlit("original_dimensions");
    reveal_strlit("8");
    reveal_strlit("mms4_media_retry_notification_encryption_enabled");
    reveal_strlit("mms4_server_error_receipt_encryption_enabled");
    reveal_strlit("original_image_url");
    reveal_strlit("sync");
    reveal_strlit("multiway");
    reveal_strlit("420");
    reveal_strlit("companion_enc_static");
    reveal_strlit("shops_profile_drawer_entrypoint");
    reveal_strlit("01c");
    reveal_strlit("vcard_as_document_size_kb");
    reveal_strlit("status_video_max_duration");
    reveal_strlit("request_image_url");
    reveal_strlit("01d");
    reveal_strlit("regular_high");
    reveal_strlit("s_t");
    reveal_strlit("abt");
    reveal_strlit("share_ext_min_preliminary_image_quality");
    reveal_strlit("01e");
    reveal_strlit("32");
    reveal_strlit("syncd_key_rotation_enabled");
    reveal_strlit("data_namespace");
    reveal_strlit("md_downgrade_read_receipts2");
    reveal_strlit("patch");
    reveal_strlit("polltype");
    reveal_strlit("ephemeral_messages_setting");
    reveal_strlit("userrate");
    reveal_strlit("15");
    reveal_strlit("partial_pjpeg_bw_threshold");
    reveal_strlit("played-self");
    reveal_strlit("catalog_exists");
    reveal_strlit("01f");
    reveal_strlit("mute_v2");
    assert("read-self"@.len() == 9);
    assert("active"@.len() == 6);
    assert("fbns"@.len() == 4);
    assert("protocol"@.len() == 8);
    assert("reaction"@.len() == 8);
    assert("screen_width"@.len() == 12);
    assert("heartbeat"@.len() == 9);
    assert("deviceid"@.len() == 8);
    assert("2:47DEQpj8"@.len() == 10);
    assert("uploadfieldstat"@.len() == 15);
    assert("voip_settings"@.len() == 13);
    assert("retry"@.len() == 5);
    assert("priority"@.len() == 8);
    assert("longitude"@.len() == 9);
    assert("conflict"@.len() == 8);
    assert("false"@.len() == 5);
    assert("ig_professional"@.len() == 15);
    assert("replaced"@.len() == 8);
    assert("preaccept"@.len() == 9);
    assert("cover_photo"@.len() == 11);
    assert("uncompressed"@.len() == 12);
    assert("encopt"@.len() == 6);
    assert("ppic"@.len() == 4);
    assert("04"@.len() == 2);
    assert("passive"@.len() == 7);
    assert("status-revoke-drop"@.len() == 18);
    assert("keygen"@.len() == 6);
    assert("540"@.len() == 3);
    assert("offer"@.len() == 5);
    assert("rate"@.len() == 4);
    assert("opus"@.len() == 4);
    assert("latitude"@.len() == 8);
    assert("w:gp2"@.len() == 5);
    assert("ver"@.len() == 3);
    assert("4"@.len() == 1);
    assert("business_profile"@.len() == 16);
    assert("medium"@.len() == 6);
    assert("sender"@.len() == 6);
    assert("prev_v_id"@.len() == 9);
    assert("email"@.len() == 5);
    assert("website"@.len() == 7);
    assert("invited"@.len() == 7);
    assert("sign_credential"@.len() == 15);
    assert("05"@.len() == 2);
    assert("transport"@.len() == 9);
    assert("skey"@.len() == 4);
    assert("reason"@.len() == 6);
    assert("peer_abtest_bucket"@.len() == 18);
    assert("America/Sao_Paulo"@.len() == 17);
    assert("appid"@.len() == 5);
    assert("refresh"@.len() == 7);
    assert("100"@.len() == 3);
    assert("06"@.len() == 2);
    assert("404"@.len() == 3);
    assert("101"@.len() == 3);
    assert("104"@.len() == 3);
    assert("107"@.len() == 3);
    assert("102"@.len() == 3);
    assert("109"@.len() == 3);
    assert("103"@.len() == 3);
    assert("member_add_mode"@.len() == 15);
    assert("105"@.len() == 3);
    assert("transaction-id"@.len() == 14);
    assert("110"@.len() == 3);
    assert("106"@.len() == 3);
    assert("outgoing"@.len() == 8);
    assert("108"@.len() == 3);
    assert("111"@.len() == 3);
    assert("tokens"@.len() == 6);
    assert("followers"@.len() == 9);
    assert("ig_handle"@.len() == 9);
    assert("self_pid"@.len() == 8);
    assert("tue"@.len() == 3);
    assert("dec"@.len() == 3);
    assert("thu"@.len() == 3);
    assert("joinable"@.len() == 8);
    assert("peer_pid"@.len() == 8);
    assert("mon"@.len() == 3);
    assert("features"@.len() == 8);
    assert("wed"@.len() == 3);
    assert("peer_device_presence"@.len() == 20);
    assert("pn"@.len() == 2);
    assert("delete"@.len() == 6);
    assert("07"@.len() == 2);
    assert("fri"@.len() == 3);
    assert("audio_duration"@.len() == 14);
    assert("admin"@.len() == 5);
    assert("connected"@.len() == 9);
    assert("delta"@.len() == 5);
    assert("rcat"@.len() == 4);
    assert("disable"@.len() == 7);
    assert("collection"@.len() == 10);
    assert("08"@.len() == 2);
    assert("480"@.len() == 3);
    assert("sat"@.len() == 3);
    assert("phash"@.len() == 5);
    assert("all"@.len() == 3);
    assert("invite"@.len() == 6);
    assert("accept"@.len() == 6);
    assert("critical_unblock_low"@.len() == 20);
    assert("group_update"@.len() == 12);
    assert("signed_credential"@.len() == 17);
    assert("blinded_credential"@.len() == 18);
    assert("eph_setting"@.len() == 11);
    assert("net"@.len() == 3);
    assert("09"@.len() == 2);
    assert("background_location"@.len() == 19);
    assert("refresh_id"@.len() == 10);
    assert("Asia/Kolkata"@.len() == 12);
    assert("privacy_mode_ts"@.len() == 15);
    assert("account_sync"@.len() == 12);
    assert("voip_payload_type"@.len() == 17);
    assert("service_areas"@.len() == 13);
    assert("acs_public_key"@.len() == 14);
    assert("v_id"@.len() == 4);
    assert("0a"@.len() == 2);
    assert("fallback_class"@.len() == 14);
    assert("relay"@.len() == 5);
    assert("actual_actors"@.len() == 13);
    assert("metadata"@.len() == 8);
    assert("w:biz"@.len() == 5);
    assert("5"@.len() == 1);
    assert("connected-limit"@.len() == 15);
    assert("notice"@.len() == 6);
    assert("0b"@.len() == 2);
    assert("host_storage"@.len() == 12);
    assert("fb_page"@.len() == 7);
    assert("subject"@.len() == 7);
    assert("privatestats"@.len() == 12);
    assert("invis"@.len() == 5);
    assert("groupadd"@.len() == 8);
    assert("010"@.len() == 3);
    assert("note.m4r"@.len() == 8);
    assert("uuid"@.len() == 4);
    assert("0c"@.len() == 2);
    assert("8000"@.len() == 4);
    assert("sun"@.len() == 3);
    assert("372"@.len() == 3);
    assert("1020"@.len() == 4);
    assert("stage"@.len() == 5);
    assert("1200"@.len() == 4);
    assert("720"@.len() == 3);
    assert("canonical"@.len() == 9);
    assert("fb"@.len() == 2);
    assert("011"@.len() == 3);
    assert("video_duration"@.len() == 14);
    assert("0d"@.len() == 2);
    assert("1140"@.len() == 4);
    assert("superadmin"@.len() == 10);
    assert("012"@.len() == 3);
    assert("Opening.m4r"@.len() == 11);
    assert("keystore_attestation"@.len() == 20);
    assert("dleq_proof"@.len() == 10);
    assert("013"@.len() == 3);
    assert("timestamp"@.len() == 9);
    assert("ab_key"@.len() == 6);
    assert("w:sync:app:state"@.len() == 16);
    assert("0e"@.len() == 2);
    assert("vertical"@.len() == 8);
    assert("600"@.len() == 3);
    assert("p_v_id"@.len() == 6);
    assert("6"@.len() == 1);
    assert("likes"@.len() == 5);
    assert("014"@.len() == 3);
    assert("500"@.len() == 3);
    assert("1260"@.len() == 4);
    assert("creator"@.len() == 7);
    assert("0f"@.len() == 2);
    assert("rte"@.len() == 3);
    assert("destination"@.len() == 11);
    assert("group"@.len() == 5);
    assert("group_info"@.len() == 10);
    assert("syncd_anti_tampering_fatal_exception_enabled"@.len() == 44);
    assert("015"@.len() == 3);
    assert("dl_bw"@.len() == 5);
    assert("Asia/Jakarta"@.len() == 12);
    assert("vp8/h.264"@.len() == 9);
    assert("online"@.len() == 6);
    assert("1320"@.len() == 4);
    assert("fb:multiway"@.len() == 11);
    assert("10"@.len() == 2);
    assert("timeout"@.len() == 7);
    assert("016"@.len() == 3);
    assert("nse_retry"@.len() == 9);
    assert("urn:xmpp:whatsapp:dirty"@.len() == 23);
    assert("017"@.len() == 3);
    assert("a_v_id"@.len() == 6);
    assert("web_shops_chat_header_button_enabled"@.len() == 36);
    assert("nse_call"@.len() == 8);
    assert("inactive-upgrade"@.len() == 16);
    assert("none"@.len() == 4);
    assert("web"@.len() == 3);
    assert("groups"@.len() == 6);
    assert("2250"@.len() == 4);
    assert("mms_hot_content_timespan_in_seconds"@.len() == 35);
    assert("contact_blacklist"@.len() == 17);
    assert("nse_read"@.len() == 8);
    assert("suspended_group_deletion_notification"@.len() == 37);
    assert("binary_version"@.len() == 14);
    assert("018"@.len() == 3);
    assert("https://www.whatsapp.com/otp/copy/"@.len() == 34);
    assert("reg_push"@.len() == 8);
    assert("shops_hide_catalog_attachment_entrypoint"@.len() == 40);
    assert("server_sync"@.len() == 11);
    assert("."@.len() == 1);
    assert("ephemeral_messages_allowed_values"@.len() == 33);
    assert("019"@.len() == 3);
    assert("mms_vcache_aggregation_enabled"@.len() == 30);
    assert("iphone"@.len() == 6);
    assert("America/Argentina/Buenos_Aires"@.len() == 30);
    assert("01a"@.len() == 3);
    assert("mms_vcard_autodownload_size_kb"@.len() == 30);
    assert("nse_ver"@.len() == 7);
    assert("shops_header_dropdown_menu_item"@.len() == 31);
    assert("dhash"@.len() == 5);
    assert("catalog_status"@.len() == 14);
    assert("communities_mvp_new_iqs_serverprop"@.len() == 34);
    assert("blocklist"@.len() == 9);
    assert("default"@.len() == 7);
    assert("11"@.len() == 2);
    assert("ephemeral_messages_enabled"@.len() == 26);
    assert("01b"@.len() == 3);
    assert("original_dimensions"@.len() == 19);
    assert("8"@.len() == 1);
    assert("mms4_media_retry_notification_encryption_enabled"@.len() == 48);
    assert("mms4_server_error_receipt_encryption_enabled"@.len() == 44);
    assert("original_image_url"@.len() == 18);
    assert("sync"@.len() == 4);
    assert("multiway"@.len() == 8);
    assert("420"@.len() == 3);
    assert("companion_enc_static"@.len() == 20);
    assert("shops_profile_drawer_entrypoint"@.len() == 31);
    assert("01c"@.len() == 3);
    assert("vcard_as_document_size_kb"@.len() == 25);
    assert("status_video_max_duration"@.len() == 25);
    assert("request_image_url"@.len() == 17);
    assert("01d"@.len() == 3);
    assert("regular_high"@.len() == 12);
    assert("s_t"@.len() == 3);
    assert("abt"@.len() == 3);
    assert("share_ext_min_preliminary_image_quality"@.len() == 39);
    assert("01e"@.len() == 3);
    assert("32"@.len() == 2);
    assert("syncd_key_rotation_enabled"@.len() == 26);
    assert("data_namespace"@.len() == 14);
    assert("md_downgrade_read_receipts2"@.len() == 27);
    assert("patch"@.len() == 5);
    assert("polltype"@.len() == 8);
    assert("ephemeral_messages_setting"@.len() == 26);
    assert("userrate"@.len() == 8);
    assert("15"@.len() == 2);
    assert("partial_pjpeg_bw_threshold"@.len() == 26);
    assert("played-self"@.len() == 11);
    assert("catalog_exists"@.len() == 14);
    assert("01f"@.len() == 3);
    assert("mute_v2"@.len() == 7);
    assert("."@[0] == '.');
    assert("010"@[0] == '0');
    assert("010"@[2] == '0');
    assert("011"@[0] == '0');
    assert("011"@[2] == '1');
    assert("012"@[0] == '0');
    assert("012"@[2] == '2');
    assert("013"@[0] == '0');
    assert("013"@[2] == '3');
    assert("014"@[0] == '0');
    assert("014"@[2] == '4');
    assert("015"@[0] == '0');
    assert("015"@[2] == '5');
    assert("016"@[0] == '0');
    assert("016"@[2] == '6');
    assert("017"@[0] == '0');
    assert("017"@[2] == '7');
    assert("018"@[0] == '0');
    assert("018"@[2] == '8');
    assert("019"@[0] == '0');
    assert("019"@[2] == '9');
    assert("01a"@[0] == '0');
    assert("01a"@[2] == 'a');
    assert("01b"@[0] == '0');
    assert("01b"@[2] == 'b');
    assert("01c"@[0] == '0');
    assert("01c"@[2] == 'c');
    assert("01d"@[0] == '0');
    assert("01d"@[2] == 'd');
    assert("01e"@[0] == '0');
    assert("01e"@[2] == 'e');
    assert("01f"@[0] == '0');
    assert("01f"@[2] == 'f');
    assert("04"@[0] == '0');
    assert("04"@[1] == '4');
    assert("05"@[0] == '0');
    assert("05"@[1] == '5');
    assert("06"@[0] == '0');
    assert("06"@[1] == '6');
    assert("07"@[0] == '0');
    assert("07"@[1] == '7');
    assert("08"@[0] == '0');
    assert("08"@[1] == '8');
    assert("09"@[0] == '0');
    assert("09"@[1] == '9');
    assert("0a"@[0] == '0');
    assert("0a"@[1] == 'a');
    assert("0b"@[0] == '0');
    assert("0b"@[1] == 'b');
    assert("0c"@[0] == '0');
    assert("0c"@[1] == 'c');
    assert("0d"@[0] == '0');
    assert("0d"@[1] == 'd');
    assert("0e"@[0] == '0');
    assert("0e"@[1] == 'e');
    assert("0f"@[0] == '0');
    assert("0f"@[1] == 'f');
    assert("10"@[0] == '1');
    assert("10"@[1] == '0');
    assert("100"@[0] == '1');
    assert("100"@[1] == '0');
    assert("100"@[2] == '0');
    assert("101"@[0] == '1');
    assert("101"@[1] == '0');
    assert("101"@[2] == '1');
    assert("102"@[0] == '1');
    assert("102"@[1] == '0');
    assert("102"@[2] == '2');
    assert("1020"@[0] == '1');
    assert("1020"@[1] == '0');
    assert("103"@[0] == '1');
    assert("103"@[1] == '0');
    assert("103"@[2] == '3');
    assert("104"@[0] == '1');
    assert("104"@[1] == '0');
    assert("104"@[2] == '4');
    assert("105"@[0] == '1');
    assert("105"@[1] == '0');
    assert("105"@[2] == '5');
    assert("106"@[0] == '1');
    assert("106"@[1] == '0');
    assert("106"@[2] == '6');
    assert("107"@[0] == '1');
    assert("107"@[1] == '0');
    assert("107"@[2] == '7');
    assert("108"@[0] == '1');
    assert("108"@[1] == '0');
    assert("108"@[2] == '8');
    assert("109"@[0] == '1');
    assert("109"@[1] == '0');
    assert("109"@[2] == '9');
    assert("11"@[0] == '1');
    assert("11"@[1] == '1');
    assert("110"@[0] == '1');
    assert("110"@[1] == '1');
    assert("110"@[2] == '0');
    assert("111"@[0] == '1');
    assert("111"@[1] == '1');
    assert("111"@[2] == '1');
    assert("1140"@[0] == '1');
    assert("1140"@[1] == '1');
    assert("1200"@[0] == '1');
    assert("1200"@[1] == '2');
    assert("1200"@[2] == '0');
    assert("1260"@[0] == '1');
    assert("1260"@[1] == '2');
    assert("1260"@[2] == '6');
    assert("1320"@[0] == '1');
    assert("1320"@[1] == '3');
    assert("15"@[0] == '1');
    assert("15"@[1] == '5');
    assert("2250"@[0] == '2');
    assert("2:47DEQpj8"@[0] == '2');
    assert("32"@[0] == '3');
    assert("372"@[0] == '3');
    assert("4"@[0] == '4');
    assert("404"@[0] == '4');
    assert("404"@[1] == '0');
    assert("420"@[0] == '4');
    assert("420"@[1] == '2');
    assert("480"@[0] == '4');
    assert("480"@[1] == '8');
    assert("5"@[0] == '5');
    assert("500"@[0] == '5');
    assert("500"@[1] == '0');
    assert("540"@[0] == '5');
    assert("540"@[1] == '4');
    assert("6"@[0] == '6');
    assert("600"@[0] == '6');
    assert("720"@[0] == '7');
    assert("8"@[0] == '8');
    assert("8000"@[0] == '8');
    assert("America/Argentina/Buenos_Aires"@[0] == 'A');
    assert("America/Sao_Paulo"@[0] == 'A');
    assert("Asia/Jakarta"@[0] == 'A');
    assert("Asia/Jakarta"@[5] == 'J');
    assert("Asia/Kolkata"@[0] == 'A');
    assert("Asia/Kolkata"@[5] == 'K');
    assert("Opening.m4r"@[0] == 'O');
    assert("a_v_id"@[0] == 'a');
    assert("a_v_id"@[1] == '_');
    assert("ab_key"@[0] == 'a');
    assert("ab_key"@[1] == 'b');
    assert("abt"@[0] == 'a');
    assert("abt"@[1] == 'b');
    assert("accept"@[0] == 'a');
    assert("accept"@[1] == 'c');
    assert("accept"@[2] == 'c');
    assert("account_sync"@[0] == 'a');
    assert("acs_public_key"@[0] == 'a');
    assert("acs_public_key"@[1] == 'c');
    assert("active"@[0] == 'a');
    assert("active"@[1] == 'c');
    assert("active"@[2] == 't');
    assert("actual_actors"@[0] == 'a');
    assert("admin"@[0] == 'a');
    assert("admin"@[1] == 'd');
    assert("all"@[0] == 'a');
    assert("all"@[1] == 'l');
    assert("appid"@[0] == 'a');
    assert("appid"@[1] == 'p');
    assert("audio_duration"@[0] == 'a');
    assert("audio_duration"@[1] == 'u');
    assert("background_location"@[0] == 'b');
    assert("binary_version"@[0] == 'b');
    assert("blinded_credential"@[0] == 'b');
    assert("blocklist"@[0] == 'b');
    assert("business_profile"@[0] == 'b');
    assert("canonical"@[0] == 'c');
    assert("canonical"@[1] == 'a');
    assert("catalog_exists"@[0] == 'c');
    assert("catalog_exists"@[8] == 'e');
    assert("catalog_status"@[0] == 'c');
    assert("catalog_status"@[8] == 's');
    assert("collection"@[0] == 'c');
    assert("communities_mvp_new_iqs_serverprop"@[0] == 'c');
    assert("companion_enc_static"@[0] == 'c');
    assert("companion_enc_static"@[1] == 'o');
    assert("conflict"@[0] == 'c');
    assert("connected"@[0] == 'c');
    assert("connected"@[1] == 'o');
    assert("connected-limit"@[0] == 'c');
    assert("contact_blacklist"@[0] == 'c');
    assert("cover_photo"@[0] == 'c');
    assert("creator"@[0] == 'c');
    assert("critical_unblock_low"@[0] == 'c');
    assert("critical_unblock_low"@[1] == 'r');
    assert("data_namespace"@[0] == 'd');
    assert("dec"@[0] == 'd');
    assert("default"@[0] == 'd');
    assert("default"@[1] == 'e');
    assert("delete"@[0] == 'd');
    assert("delta"@[0] == 'd');
    assert("delta"@[1] == 'e');
    assert("destination"@[0] == 'd');
    assert("deviceid"@[0] == 'd');
    assert("dhash"@[0] == 'd');
    assert("dhash"@[1] == 'h');
    assert("disable"@[0] == 'd');
    assert("disable"@[1] == 'i');
    assert("dl_bw"@[0] == 'd');
    assert("dl_bw"@[1] == 'l');
    assert("dleq_proof"@[0] == 'd');
    assert("email"@[0] == 'e');
    assert("encopt"@[0] == 'e');
    assert("eph_setting"@[0] == 'e');
    assert("ephemeral_messages_enabled"@[0] == 'e');
    assert("ephemeral_messages_enabled"@[19] == 'e');
    assert("ephemeral_messages_setting"@[0] == 'e');
    assert("ephemeral_messages_setting"@[19] == 's');
    assert("fallback_class"@[0] == 'f');
    assert("false"@[0] == 'f');
    assert("fb"@[0] == 'f');
    assert("fb:multiway"@[0] == 'f');
    assert("fb_page"@[0] == 'f');
    assert("fbns"@[0] == 'f');
    assert("features"@[0] == 'f');
    assert("followers"@[0] == 'f');
    assert("fri"@[0] == 'f');
    assert("group"@[0] == 'g');
    assert("group_info"@[0] == 'g');
    assert("group_update"@[0] == 'g');
    assert("groupadd"@[0] == 'g');
    assert("groups"@[0] == 'g');
    assert("heartbeat"@[0] == 'h');
    assert("host_storage"@[0] == 'h');
    assert("https://www.whatsapp.com/otp/copy/"@[0] == 'h');
    assert("ig_handle"@[0] == 'i');
    assert("ig_professional"@[0] == 'i');
    assert("inactive-upgrade"@[0] == 'i');
    assert("invis"@[0] == 'i');
    assert("invite"@[0] == 'i');
    assert("invite"@[1] == 'n');
    assert("invited"@[0] == 'i');
    assert("iphone"@[0] == 'i');
    assert("iphone"@[1] == 'p');
    assert("joinable"@[0] == 'j');
    assert("keygen"@[0] == 'k');
    assert("keystore_attestation"@[0] == 'k');
    assert("latitude"@[0] == 'l');
    assert("likes"@[0] == 'l');
    assert("longitude"@[0] == 'l');
    assert("medium"@[0] == 'm');
    assert("member_add_mode"@[0] == 'm');
    assert("metadata"@[0] == 'm');
    assert("metadata"@[1] == 'e');
    assert("mms4_server_error_receipt_encryption_enabled"@[0] == 'm');
    assert("mms_vcache_aggregation_enabled"@[0] == 'm');
    assert("mms_vcache_aggregation_enabled"@[7] == 'c');
    assert("mms_vcard_autodownload_size_kb"@[0] == 'm');
    assert("mms_vcard_autodownload_size_kb"@[7] == 'r');
    assert("mon"@[0] == 'm');
    assert("multiway"@[0] == 'm');
    assert("multiway"@[1] == 'u');
    assert("mute_v2"@[0] == 'm');
    assert("net"@[0] == 'n');
    assert("none"@[0] == 'n');
    assert("note.m4r"@[0] == 'n');
    assert("note.m4r"@[1] == 'o');
    assert("notice"@[0] == 'n');
    assert("nse_call"@[0] == 'n');
    assert("nse_call"@[1] == 's');
    assert("nse_call"@[4] == 'c');
    assert("nse_read"@[0] == 'n');
    assert("nse_read"@[1] == 's');
    assert("nse_read"@[4] == 'r');
    assert("nse_retry"@[0] == 'n');
    assert("nse_ver"@[0] == 'n');
    assert("offer"@[0] == 'o');
    assert("online"@[0] == 'o');
    assert("opus"@[0] == 'o');
    assert("original_dimensions"@[0] == 'o');
    assert("original_image_url"@[0] == 'o');
    assert("outgoing"@[0] == 'o');
    assert("p_v_id"@[0] == 'p');
    assert("partial_pjpeg_bw_threshold"@[0] == 'p');
    assert("passive"@[0] == 'p');
    assert("patch"@[0] == 'p');
    assert("patch"@[1] == 'a');
    assert("peer_abtest_bucket"@[0] == 'p');
    assert("peer_device_presence"@[0] == 'p');
    assert("peer_pid"@[0] == 'p');
    assert("peer_pid"@[1] == 'e');
    assert("phash"@[0] == 'p');
    assert("phash"@[1] == 'h');
    assert("played-self"@[0] == 'p');
    assert("pn"@[0] == 'p');
    assert("polltype"@[0] == 'p');
    assert("polltype"@[1] == 'o');
    assert("ppic"@[0] == 'p');
    assert("preaccept"@[0] == 'p');
    assert("preaccept"@[3] == 'a');
    assert("prev_v_id"@[0] == 'p');
    assert("prev_v_id"@[3] == 'v');
    assert("priority"@[0] == 'p');
    assert("priority"@[1] == 'r');
    assert("priority"@[2] == 'i');
    assert("privacy_mode_ts"@[0] == 'p');
    assert("privatestats"@[0] == 'p');
    assert("protocol"@[0] == 'p');
    assert("protocol"@[1] == 'r');
    assert("protocol"@[2] == 'o');
    assert("rate"@[0] == 'r');
    assert("rate"@[1] == 'a');
    assert("rcat"@[0] == 'r');
    assert("rcat"@[1] == 'c');
    assert("reaction"@[0] == 'r');
    assert("reaction"@[2] == 'a');
    assert("read-self"@[0] == 'r');
    assert("reason"@[0] == 'r');
    assert("refresh"@[0] == 'r');
    assert("refresh_id"@[0] == 'r');
    assert("reg_push"@[0] == 'r');
    assert("reg_push"@[2] == 'g');
    assert("regular_high"@[0] == 'r');
    assert("relay"@[0] == 'r');
    assert("relay"@[2] == 'l');
    assert("replaced"@[0] == 'r');
    assert("replaced"@[2] == 'p');
    assert("request_image_url"@[0] == 'r');
    assert("retry"@[0] == 'r');
    assert("retry"@[2] == 't');
    assert("rte"@[0] == 'r');
    assert("s_t"@[0] == 's');
    assert("s_t"@[1] == '_');
    assert("sat"@[0] == 's');
    assert("sat"@[1] == 'a');
    assert("screen_width"@[0] == 's');
    assert("self_pid"@[0] == 's');
    assert("sender"@[0] == 's');
    assert("server_sync"@[0] == 's');
    assert("service_areas"@[0] == 's');
    assert("shops_header_dropdown_menu_item"@[6] == 'h');
    assert("shops_profile_drawer_entrypoint"@[6] == 'p');
    assert("sign_credential"@[0] == 's');
    assert("signed_credential"@[0] == 's');
    assert("skey"@[0] == 's');
    assert("skey"@[1] == 'k');
    assert("stage"@[0] == 's');
    assert("status-revoke-drop"@[0] == 's');
    assert("status_video_max_duration"@[0] == 's');
    assert("subject"@[0] == 's');
    assert("sun"@[0] == 's');
    assert("sun"@[1] == 'u');
    assert("superadmin"@[0] == 's');
    assert("sync"@[0] == 's');
    assert("sync"@[1] == 'y');
    assert("syncd_anti_tampering_fatal_exception_enabled"@[0] == 's');
    assert("syncd_key_rotation_enabled"@[0] == 's');
    assert("thu"@[0] == 't');
    assert("thu"@[1] == 'h');
    assert("timeout"@[0] == 't');
    assert("timestamp"@[0] == 't');
    assert("timestamp"@[1] == 'i');
    assert("tokens"@[0] == 't');
    assert("transaction-id"@[0] == 't');
    assert("transport"@[0] == 't');
    assert("transport"@[1] == 'r');
    assert("tue"@[0] == 't');
    assert("tue"@[1] == 'u');
    assert("uncompressed"@[0] == 'u');
    assert("uploadfieldstat"@[0] == 'u');
    assert("userrate"@[0] == 'u');
    assert("uuid"@[0] == 'u');
    assert("v_id"@[0] == 'v');
    assert("vcard_as_document_size_kb"@[0] == 'v');
    assert("ver"@[0] == 'v');
    assert("vertical"@[0] == 'v');
    assert("video_duration"@[0] == 'v');
    assert("voip_payload_type"@[0] == 'v');
    assert("voip_settings"@[0] == 'v');
    assert("vp8/h.264"@[0] == 'v');
    assert("w:biz"@[0] == 'w');
    assert("w:biz"@[2] == 'b');
    assert("w:gp2"@[0] == 'w');
    assert("w:gp2"@[2] == 'g');
    assert("w:sync:app:state"@[0] == 'w');
    assert("web"@[0] == 'w');
    assert("web"@[2] == 'b');
    assert("website"@[0] == 'w');
    assert("wed"@[0] == 'w');
    assert("wed"@[2] == 'd');
}

} // verus!
