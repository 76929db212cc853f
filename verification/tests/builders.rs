//! Tests of the request builders and the message length rules.

use gateway_shard::builder::{check_lengths, CreateAllowedMentions, CreateAttachment, CreateEmbed,
    CreateInteractionResponseFollowup, CreatePoll, EditGuildIncidentActions, GetEntitlements,
    MessageFlags, ModelError, MESSAGE_FLAG_EPHEMERAL};
use gateway_shard::id::{EntitlementId, GuildId, SkuId, UserId};
use gateway_shard::timestamp::Timestamp;

#[test]
fn followup_builder_sets_fields() {
    let followup = CreateInteractionResponseFollowup::new()
        .content("hello".to_string())
        .tts(true)
        .allowed_mentions(CreateAllowedMentions::new())
        .poll(CreatePoll {
            question: "which?".to_string(),
            answers: vec!["a".to_string(), "b".to_string()],
            duration_hours: 24,
        });
    assert_eq!(followup.content.as_deref(), Some("hello"));
    assert_eq!(followup.tts, Some(true));
    assert!(followup.allowed_mentions.is_some());
    assert!(followup.poll.is_some());
    assert!(followup.flags.is_none());
}

#[test]
fn followup_embeds_append_and_replace() {
    let e1 = CreateEmbed::new().title("one".to_string());
    let e2 = CreateEmbed::new().title("two".to_string());
    let e3 = CreateEmbed::new().title("three".to_string());

    let followup = CreateInteractionResponseFollowup::new()
        .add_embed(e1.clone())
        .add_embeds(vec![e2.clone(), e3.clone()]);
    assert_eq!(followup.embeds, vec![e1.clone(), e2, e3]);

    // `embed` replaces the whole list.
    let followup = followup.embed(e1.clone());
    assert_eq!(followup.embeds, vec![e1]);
}

#[test]
fn followup_files_append_and_replace() {
    let f1 = CreateAttachment { filename: "a.png".to_string(), data: vec![1, 2] };
    let f2 = CreateAttachment { filename: "b.png".to_string(), data: vec![3] };
    let f3 = CreateAttachment { filename: "c.png".to_string(), data: vec![] };

    let followup = CreateInteractionResponseFollowup::new()
        .add_file(f1.clone())
        .add_files(vec![f2.clone()]);
    assert_eq!(followup.attachments.new_attachments, vec![f1, f2.clone()]);

    let followup = followup.files(vec![f3.clone()]);
    assert_eq!(followup.attachments.new_attachments, vec![f3]);
}

#[test]
fn ephemeral_sets_and_clears_the_flag() {
    let followup = CreateInteractionResponseFollowup::new().ephemeral(true);
    assert_eq!(followup.flags.unwrap().bits, MESSAGE_FLAG_EPHEMERAL);

    let followup = CreateInteractionResponseFollowup::new()
        .flags(MessageFlags::from_bits(0b1))
        .ephemeral(true);
    assert_eq!(followup.flags.unwrap().bits, 0b1 | MESSAGE_FLAG_EPHEMERAL);

    let followup = followup.ephemeral(false);
    assert_eq!(followup.flags.unwrap().bits, 0b1);
}

#[test]
fn content_length_is_checked_in_code_points() {
    let ok = CreateInteractionResponseFollowup::new().content("a".repeat(2000));
    assert!(ok.check_length().is_ok());

    let long = CreateInteractionResponseFollowup::new().content("a".repeat(2003));
    assert_eq!(long.check_length(), Err(ModelError::MessageTooLong(3)));

    // 1000 two-byte code points are still 1000 code points.
    let wide = CreateInteractionResponseFollowup::new().content("é".repeat(2000));
    assert!(wide.check_length().is_ok());
}

#[test]
fn embed_count_and_length_are_checked() {
    let small = CreateEmbed::new().title("t".repeat(100));
    let mut eleven = Vec::new();
    for _ in 0..11 {
        eleven.push(small.clone());
    }
    assert_eq!(check_lengths(None, Some(&eleven), 0), Err(ModelError::EmbedAmount));

    let big = CreateEmbed::new()
        .title("t".repeat(3000))
        .description("d".repeat(3001));
    let embeds = vec![small.clone(), big];
    assert_eq!(check_lengths(None, Some(&embeds), 0), Err(ModelError::EmbedTooLong(1)));

    let exact = CreateEmbed::new()
        .title("t".repeat(3000))
        .description("d".repeat(3000));
    assert_eq!(check_lengths(None, Some(&vec![small, exact]), 0), Ok(()));
}

#[test]
fn sticker_count_is_checked() {
    assert_eq!(check_lengths(None, None, 3), Ok(()));
    assert_eq!(check_lengths(None, None, 4), Err(ModelError::StickerAmount));
}

#[test]
fn entitlements_builder_sets_filters() {
    let query = GetEntitlements::default()
        .user_id(UserId::new(5))
        .sku_ids(vec![SkuId::new(9)])
        .before(EntitlementId::new(100))
        .after(EntitlementId::new(50))
        .limit(25)
        .guild_id(GuildId::new(77))
        .exclude_ended(true);
    assert_eq!(query.user_id.unwrap().get(), 5);
    assert_eq!(query.sku_ids.unwrap()[0].get(), 9);
    assert_eq!(query.before.unwrap().get(), 100);
    assert_eq!(query.after.unwrap().get(), 50);
    assert_eq!(query.limit, Some(25));
    assert_eq!(query.guild_id.unwrap().get(), 77);
    assert_eq!(query.exclude_ended, Some(true));
}

#[test]
fn incident_actions_builder_sets_timestamps() {
    let actions = EditGuildIncidentActions::new();
    assert!(actions.invites_disabled_until.is_none());
    assert!(actions.dms_disabled_until.is_none());

    let until = Timestamp::from_millis(1_700_000_000_000);
    let actions = actions.invites_disabled_until(until).dms_disabled_until(until);
    assert_eq!(actions.invites_disabled_until, Some(until));
    assert_eq!(actions.dms_disabled_until, Some(until));
}
