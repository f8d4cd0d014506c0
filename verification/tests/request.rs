use twilight::model::channel_type::ChannelType;
use twilight::model::id::ChannelId;
use twilight::model::id::EmojiId;
use twilight::model::id::GuildId;
use twilight::model::id::RoleId;
use twilight::model::id::UserId;
use twilight::model::permission_overwrite::PermissionOverwrite;
use twilight::model::permission_overwrite::PermissionOverwriteType;
use twilight::request::audit::audit_header;
use twilight::request::audit::audit_header_name;
use twilight::request::audit::percent_encode;
use twilight::request::route::Method;
use twilight::request::route::Request;
use twilight::request::route::Route;
use twilight::request::update_channel::UpdateChannel;
use twilight::request::update_channel::UpdateChannelError;
use twilight::request::update_channel::UpdateChannelFields;
use twilight::request::update_emoji::UpdateEmoji;
use twilight::request::validate::channel_name;
use twilight::request::validate::channel_topic;
use twilight::request::validate::rate_limit_per_user;

fn repeated(c: char, n: usize) -> String {
    std::iter::repeat(c).take(n).collect()
}

#[test]
fn channel_name_length_bounds() {
    assert!(!channel_name(""));
    assert!(!channel_name("a"));
    assert!(channel_name("ab"));
    assert!(channel_name(&repeated('a', 100)));
    assert!(!channel_name(&repeated('a', 101)));
}

#[test]
fn channel_name_counts_characters_not_bytes() {
    // 100 characters of two bytes each.
    assert!(channel_name(&repeated('é', 100)));
    assert!(!channel_name(&repeated('é', 101)));
    assert!(!channel_name("é"));
}

#[test]
fn channel_topic_length_bound() {
    assert!(channel_topic(""));
    assert!(channel_topic(&repeated('t', 1024)));
    assert!(!channel_topic(&repeated('t', 1025)));
    assert!(channel_topic(&repeated('ü', 1024)));
}

#[test]
fn rate_limit_per_user_bound() {
    assert!(rate_limit_per_user(0));
    assert!(rate_limit_per_user(21600));
    assert!(!rate_limit_per_user(21601));
    assert!(!rate_limit_per_user(u64::MAX));
}

#[test]
fn new_update_changes_nothing() {
    let update = UpdateChannel::new(ChannelId(1));
    assert_eq!(update.channel_id(), ChannelId(1));
    assert_eq!(update.fields(), &UpdateChannelFields::default());
    assert_eq!(update.fields().name, None);
    assert_eq!(update.fields().kind, None);
}

#[test]
fn update_channel_sets_each_field() {
    let overwrite = PermissionOverwrite {
        allow: 0x400,
        deny: 0x800,
        kind: PermissionOverwriteType::Member(UserId(12)),
    };
    let update = UpdateChannel::new(ChannelId(7))
        .bitrate(64000)
        .nsfw(true)
        .parent_id(Some(ChannelId(3)))
        .permission_overwrites(vec![overwrite])
        .position(2)
        .user_limit(10)
        .kind(ChannelType::GuildNews);
    let update = update.name(String::from("general")).unwrap();
    let update = update.rate_limit_per_user(30).unwrap();
    let update = update.topic(String::from("talk")).unwrap();
    let fields = update.fields();
    assert_eq!(fields.bitrate, Some(64000));
    assert_eq!(fields.name, Some(String::from("general")));
    assert_eq!(fields.nsfw, Some(true));
    assert_eq!(fields.parent_id, Some(Some(ChannelId(3))));
    assert_eq!(fields.permission_overwrites, Some(vec![overwrite]));
    assert_eq!(fields.position, Some(2));
    assert_eq!(fields.rate_limit_per_user, Some(30));
    assert_eq!(fields.topic, Some(String::from("talk")));
    assert_eq!(fields.user_limit, Some(10));
    assert_eq!(fields.kind, Some(ChannelType::GuildNews));
    assert_eq!(update.channel_id(), ChannelId(7));
}

#[test]
fn update_channel_can_clear_the_parent() {
    let update = UpdateChannel::new(ChannelId(7)).parent_id(None);
    assert_eq!(update.fields().parent_id, Some(None));
}

#[test]
fn update_channel_refuses_a_short_name() {
    let result = UpdateChannel::new(ChannelId(7)).name(String::from("a"));
    assert_eq!(result.err(), Some(UpdateChannelError::NameInvalid));
}

#[test]
fn update_channel_refuses_a_long_name() {
    let result = UpdateChannel::new(ChannelId(7)).name(repeated('n', 101));
    assert_eq!(result.err(), Some(UpdateChannelError::NameInvalid));
    let result = UpdateChannel::new(ChannelId(7)).name(repeated('n', 100));
    assert!(result.is_ok());
}

#[test]
fn update_channel_refuses_a_long_topic() {
    let result = UpdateChannel::new(ChannelId(7)).topic(repeated('t', 1025));
    assert_eq!(result.err(), Some(UpdateChannelError::TopicInvalid));
    let result = UpdateChannel::new(ChannelId(7)).topic(repeated('t', 1024));
    assert!(result.is_ok());
}

#[test]
fn update_channel_refuses_a_long_slow_mode() {
    let result = UpdateChannel::new(ChannelId(7)).rate_limit_per_user(21601);
    assert_eq!(result.err(), Some(UpdateChannelError::RateLimitPerUserInvalid));
    let result = UpdateChannel::new(ChannelId(7)).rate_limit_per_user(21600);
    assert_eq!(result.ok().unwrap().fields().rate_limit_per_user, Some(21600));
}

#[test]
fn update_channel_error_messages() {
    assert_eq!(UpdateChannelError::NameInvalid.message(), "the length of the name is invalid");
    assert_eq!(
        UpdateChannelError::RateLimitPerUserInvalid.message(),
        "the rate limit per user is invalid"
    );
    assert_eq!(UpdateChannelError::TopicInvalid.message(), "the topic is invalid");
}

#[test]
fn update_channel_request_without_reason() {
    let update = UpdateChannel::new(ChannelId(42)).nsfw(false);
    let request = update.start(b"{\"nsfw\":false}".to_vec());
    assert_eq!(
        request,
        Request {
            body: b"{\"nsfw\":false}".to_vec(),
            audit_reason: None,
            route: Route::UpdateChannel { channel_id: 42 },
        }
    );
}

#[test]
fn update_channel_request_with_reason() {
    let update = UpdateChannel::new(ChannelId(42)).reason(String::from("spam & abuse"));
    let request = update.start(b"{}".to_vec());
    assert_eq!(request.body, b"{}".to_vec());
    assert_eq!(request.audit_reason, Some(b"spam%20%26%20abuse".to_vec()));
    assert_eq!(request.route, Route::UpdateChannel { channel_id: 42 });
}

#[test]
fn update_emoji_sets_each_field() {
    let update = UpdateEmoji::new(GuildId(1), EmojiId(2))
        .name(String::from("party"))
        .roles(vec![RoleId(5), RoleId(6)]);
    assert_eq!(update.guild_id(), GuildId(1));
    assert_eq!(update.emoji_id(), EmojiId(2));
    assert_eq!(update.fields().name, Some(String::from("party")));
    assert_eq!(update.fields().roles, Some(vec![RoleId(5), RoleId(6)]));
}

#[test]
fn update_emoji_request() {
    let update = UpdateEmoji::new(GuildId(10), EmojiId(20));
    let request = update.start(b"{}".to_vec());
    assert_eq!(request.audit_reason, None);
    assert_eq!(request.route, Route::UpdateEmoji { emoji_id: 20, guild_id: 10 });
    let update = UpdateEmoji::new(GuildId(10), EmojiId(20)).reason(String::from("ok"));
    let request = update.start(b"{\"name\":\"x\"}".to_vec());
    assert_eq!(request.audit_reason, Some(b"ok".to_vec()));
    assert_eq!(request.body, b"{\"name\":\"x\"}".to_vec());
}

#[test]
fn percent_encoding_leaves_letters_and_digits() {
    assert_eq!(percent_encode(b"abcXYZ019"), b"abcXYZ019".to_vec());
    assert_eq!(percent_encode(b""), Vec::<u8>::new());
}

#[test]
fn percent_encoding_writes_upper_case_hex() {
    assert_eq!(percent_encode(b" "), b"%20".to_vec());
    assert_eq!(percent_encode(b"/"), b"%2F".to_vec());
    assert_eq!(percent_encode(&[0x00, 0xff, 0x7f]), b"%00%FF%7F".to_vec());
    assert_eq!(percent_encode(b"a-b_c"), b"a%2Db%5Fc".to_vec());
}

#[test]
fn audit_header_encodes_utf8() {
    assert_eq!(audit_header("ü"), b"%C3%BC".to_vec());
    assert_eq!(audit_header("raid: 3 bots"), b"raid%3A%203%20bots".to_vec());
    assert_eq!(audit_header_name(), "x-audit-log-reason");
}

#[test]
fn audit_header_is_always_plain() {
    let value = audit_header("\"quoted\"\r\n\tü€");
    assert!(value.iter().all(|b| b.is_ascii_alphanumeric() || *b == b'%'));
}

#[test]
fn route_paths() {
    assert_eq!(Route::UpdateChannel { channel_id: 0 }.path(), b"channels/0".to_vec());
    assert_eq!(Route::UpdateChannel { channel_id: 123 }.path(), b"channels/123".to_vec());
    assert_eq!(
        Route::UpdateChannel { channel_id: u64::MAX }.path(),
        b"channels/18446744073709551615".to_vec()
    );
    assert_eq!(
        Route::UpdateEmoji { emoji_id: 77, guild_id: 1000 }.path(),
        b"guilds/1000/emojis/77".to_vec()
    );
}

#[test]
fn route_methods() {
    assert_eq!(Route::UpdateChannel { channel_id: 1 }.method(), Method::Patch);
    assert_eq!(Route::UpdateEmoji { emoji_id: 1, guild_id: 1 }.method(), Method::Patch);
}
