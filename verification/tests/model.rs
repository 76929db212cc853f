//! Tests of the id newtypes, the snowflake timestamp conversion, and the
//! decimal rendering helpers.

use gateway_shard::digits::{four_digits, three_digits, two_digits, u64_to_string};
use gateway_shard::id::{parse_id, AnswerId, ApplicationId, GuildId, ParseIdError, ShardId};
use gateway_shard::timestamp::Timestamp;

#[test]
fn test_created_at() {
    // The id is from the platform's snowflake docs
    let id = GuildId::new(175928847299117063);
    assert_eq!(id.created_at().unix_timestamp(), 1462015105);
    assert_eq!(id.created_at().to_string(), "2016-04-30T11:18:25.796Z");
}

#[test]
fn test_epoch_renders_as_unix_origin() {
    let t = Timestamp::from_millis(0);
    assert_eq!(t.to_string(), "1970-01-01T00:00:00.000Z");
    assert_eq!(t.unix_timestamp(), 0);
}

#[test]
fn test_max_timestamp_renders_as_year_9999() {
    let t = Timestamp::from_millis(253_402_300_799_999);
    assert_eq!(t.to_string(), "9999-12-31T23:59:59.999Z");
}

#[test]
fn test_leap_day_renders() {
    // 2020-02-29T12:34:56.789Z
    let t = Timestamp::from_millis(1_582_979_696_789);
    assert_eq!(t.to_string(), "2020-02-29T12:34:56.789Z");
}

#[test]
fn test_snowflake_epoch_offset() {
    // A snowflake of 0 is the platform epoch itself, 2015-01-01.
    let t = Timestamp::from_discord_id(0);
    assert_eq!(t.millis(), 1_420_070_400_000);
    assert_eq!(t.to_string(), "2015-01-01T00:00:00.000Z");
}

#[test]
fn test_decimal_rendering() {
    assert_eq!(u64_to_string(0), "0");
    assert_eq!(u64_to_string(7), "7");
    assert_eq!(u64_to_string(12345), "12345");
    assert_eq!(u64_to_string(u64::MAX), "18446744073709551615");
    assert_eq!(two_digits(3), "03");
    assert_eq!(two_digits(42), "42");
    assert_eq!(three_digits(5), "005");
    assert_eq!(three_digits(57), "057");
    assert_eq!(three_digits(570), "570");
    assert_eq!(four_digits(2016), "2016");
    assert_eq!(four_digits(93), "0093");
}

#[test]
fn test_id_accessors() {
    assert_eq!(ShardId(7).get(), 7);
    assert_eq!(ApplicationId::new(81384788765712384).get(), 81384788765712384);
    assert_eq!(AnswerId::new(3).get(), 3);
}

#[test]
fn test_id_parsing() {
    assert_eq!(parse_id("175928847299117063"), Ok(175928847299117063));
    assert_eq!(parse_id("0"), Ok(0));
    // Like std's integer parser, a single leading plus sign is accepted.
    assert_eq!(parse_id("+42"), Ok(42));
    assert_eq!(parse_id(""), Err(ParseIdError));
    assert_eq!(parse_id("+"), Err(ParseIdError));
    assert_eq!(parse_id("12a"), Err(ParseIdError));
    assert_eq!(parse_id("-5"), Err(ParseIdError));
    // The all-ones value is reserved, and anything larger does not fit.
    assert_eq!(parse_id("18446744073709551614"), Ok(u64::MAX - 1));
    assert_eq!(parse_id("18446744073709551615"), Err(ParseIdError));
    assert_eq!(parse_id("18446744073709551616"), Err(ParseIdError));

    let id: GuildId = "175928847299117063".parse().unwrap();
    assert_eq!(id.get(), 175928847299117063);
    assert!("999999999999999999999".parse::<GuildId>().is_err());
}
