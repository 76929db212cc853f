//! Request builders: the interaction-followup message builder, the
//! entitlement query builder, and the guild incident-action editor, together
//! with the small payload types they carry and the length rules a message
//! must meet.

use vstd::prelude::*;
use vstd::string::StrSliceExecFns;
use crate::constants::{EMBED_MAX_COUNT, EMBED_MAX_LENGTH, MESSAGE_CODE_LIMIT, STICKER_MAX_COUNT};
use crate::id::{EntitlementId, GuildId, SkuId, UserId};
use crate::timestamp::Timestamp;

verus! {

/// A validation error raised before a request is sent.
#[derive(Clone, Copy, Debug, Eq, PartialEq, Structural)]
pub enum ModelError {
    /// The message content is over the limit; carries the overage in code
    /// points.
    MessageTooLong(usize),
    /// More embeds than a message may carry.
    EmbedAmount,
    /// An embed's text is over the limit; carries the overage in code points.
    EmbedTooLong(usize),
    /// More stickers than a message may carry.
    StickerAmount,
}

/// An embed under construction; the shard core reads only its text lengths.
#[derive(Clone, Debug, Eq, PartialEq)]
pub struct CreateEmbed {
    pub title: Option<String>,
    pub description: Option<String>,
}

impl CreateEmbed {
    /// An empty embed.
    pub fn new() -> (r: CreateEmbed)
        ensures
            r.title is None,
            r.description is None,
    {
        CreateEmbed { title: None, description: None }
    }

    /// Sets the title.
    pub fn title(self, title: String) -> (r: CreateEmbed)
        ensures
            r == (CreateEmbed { title: Some(title), ..self }),
    {
        CreateEmbed { title: Some(title), ..self }
    }

    /// Sets the description.
    pub fn description(self, description: String) -> (r: CreateEmbed)
        ensures
            r == (CreateEmbed { description: Some(description), ..self }),
    {
        CreateEmbed { description: Some(description), ..self }
    }
}

/// The text length of one embed, in code points.
pub open spec fn embed_len(e: CreateEmbed) -> nat {
    (match e.title {
        Some(t) => t@.len(),
        None => 0,
    }) + (match e.description {
        Some(d) => d@.len(),
        None => 0,
    })
}

/// The overage an over-long embed is reported with, measured at the first of
/// its parts (title, then description) that crossed the limit; zero while the
/// embed is within the limit.
pub open spec fn embed_overage(e: CreateEmbed) -> nat {
    let t = match e.title {
        Some(t) => t@.len(),
        None => 0nat,
    };
    let d = match e.description {
        Some(d) => d@.len(),
        None => 0nat,
    };
    if t > EMBED_MAX_LENGTH {
        (t - EMBED_MAX_LENGTH) as nat
    } else if t + d > EMBED_MAX_LENGTH {
        (t + d - EMBED_MAX_LENGTH) as nat
    } else {
        0
    }
}

/// A file attached to a message.
#[derive(Clone, Debug, Eq, PartialEq)]
pub struct CreateAttachment {
    pub filename: String,
    pub data: Vec<u8>,
}

/// The attachment edits a message carries: the files newly added to it.
#[derive(Clone, Debug, Eq, PartialEq)]
pub struct EditAttachments {
    pub new_attachments: Vec<CreateAttachment>,
}

impl EditAttachments {
    /// No attachment edits.
    pub fn new() -> (r: EditAttachments)
        ensures
            r.new_attachments@ == Seq::<CreateAttachment>::empty(),
    {
        EditAttachments { new_attachments: Vec::new() }
    }

    /// Appends one new file.
    pub fn add(self, attachment: CreateAttachment) -> (r: EditAttachments)
        ensures
            r.new_attachments@ == self.new_attachments@.push(attachment),
    {
        let mut s = self;
        s.new_attachments.push(attachment);
        s
    }
}

/// The mentions a message is allowed to ping.
#[derive(Clone, Debug, Eq, PartialEq)]
pub struct CreateAllowedMentions {
    pub everyone: bool,
    pub users: Vec<UserId>,
}

impl CreateAllowedMentions {
    /// Allows no mentions.
    pub fn new() -> (r: CreateAllowedMentions)
        ensures
            !r.everyone,
            r.users@ == Seq::<UserId>::empty(),
    {
        CreateAllowedMentions { everyone: false, users: Vec::new() }
    }
}

/// A row of message components, carried opaquely by the builders.
#[derive(Clone, Debug, Eq, PartialEq)]
pub struct CreateActionRow {
    pub custom_ids: Vec<String>,
}

/// A poll attached to a message.
#[derive(Clone, Debug, Eq, PartialEq)]
pub struct CreatePoll {
    pub question: String,
    pub answers: Vec<String>,
    pub duration_hours: u32,
}

/// The bit a message flag set holds for an ephemeral response.
pub const MESSAGE_FLAG_EPHEMERAL: u64 = 64;

/// A bitset of message flags.
#[derive(Clone, Copy, Debug, Eq, PartialEq, Structural)]
pub struct MessageFlags {
    pub bits: u64,
}

impl MessageFlags {
    /// No flags.
    pub fn empty() -> (r: MessageFlags)
        ensures
            r.bits == 0,
    {
        MessageFlags { bits: 0 }
    }

    /// The flags with exactly the given bits.
    pub fn from_bits(bits: u64) -> (r: MessageFlags)
        ensures
            r.bits == bits,
    {
        MessageFlags { bits }
    }
}

/// Whether some embed of the list is over the text limit, reported with
/// exactly the given overage.
pub open spec fn embeds_over_limit(e: Seq<CreateEmbed>, over: usize) -> bool {
    exists|i: int|
        0 <= i < e.len() && #[trigger] embed_len(e[i]) > EMBED_MAX_LENGTH && over == embed_overage(
            e[i],
        )
}

/// Checks a message's lengths: content within the code-point limit, no more
/// embeds than allowed and each within its text limit, and the sticker count
/// within its cap. The checks run in that order and the first breach is
/// reported.
#[verifier::rlimit(60)]
#[verifier::spinoff_prover]
pub fn check_lengths(
    content: Option<&String>,
    embeds: Option<&Vec<CreateEmbed>>,
    stickers: usize,
) -> (r: Result<(), ModelError>)
    ensures
        r matches Err(ModelError::MessageTooLong(over)) ==> content matches Some(c) && c@.len()
            > MESSAGE_CODE_LIMIT && over == c@.len() - MESSAGE_CODE_LIMIT,
        r matches Err(ModelError::EmbedAmount) ==> embeds matches Some(e) && e@.len()
            > EMBED_MAX_COUNT,
        r matches Err(ModelError::EmbedTooLong(over)) ==> embeds matches Some(e)
            && embeds_over_limit(e@, over),
        r matches Err(ModelError::StickerAmount) ==> stickers > STICKER_MAX_COUNT,
        r is Ok <==> ((content matches Some(c) ==> c@.len() <= MESSAGE_CODE_LIMIT) && (
        embeds matches Some(e) ==> e@.len() <= EMBED_MAX_COUNT && (forall|i: int|
            0 <= i < e@.len() ==> #[trigger] embed_len(e@[i]) <= EMBED_MAX_LENGTH)) && stickers
            <= STICKER_MAX_COUNT),
{
    match content {
        Some(c) => {
            let length = c.as_str().unicode_len();
            if length > MESSAGE_CODE_LIMIT {
                return Err(ModelError::MessageTooLong(length - MESSAGE_CODE_LIMIT));
            }
        },
        None => {},
    }
    match embeds {
        Some(e) => {
            if e.len() > EMBED_MAX_COUNT {
                return Err(ModelError::EmbedAmount);
            }
            let mut i: usize = 0;
            while i < e.len()
                invariant
                    embeds == Some(e),
                    0 <= i <= e@.len(),
                    forall|j: int| 0 <= j < i ==> #[trigger] embed_len(e@[j]) <= EMBED_MAX_LENGTH,
                decreases e@.len() - i,
            {
                let embed = &e[i];
                let mut length: usize = 0;
                match &embed.title {
                    Some(t) => {
                        let l = t.as_str().unicode_len();
                        if l > EMBED_MAX_LENGTH {
                            proof {
                                assert(embed_len(e@[i as int]) > EMBED_MAX_LENGTH);
                                assert(l - EMBED_MAX_LENGTH == embed_overage(e@[i as int]));
                                assert(embeds_over_limit(e@, (l - EMBED_MAX_LENGTH) as usize));
                            }
                            return Err(ModelError::EmbedTooLong(l - EMBED_MAX_LENGTH));
                        }
                        length = l;
                    },
                    None => {},
                }
                match &embed.description {
                    Some(d) => {
                        let l = d.as_str().unicode_len();
                        if l > EMBED_MAX_LENGTH - length {
                            let over = l - (EMBED_MAX_LENGTH - length);
                            proof {
                                assert(embed_len(e@[i as int]) > EMBED_MAX_LENGTH);
                                assert(over == embed_overage(e@[i as int]));
                                assert(embeds_over_limit(e@, over));
                            }
                            return Err(ModelError::EmbedTooLong(over));
                        }
                        length = length + l;
                    },
                    None => {},
                }
                proof {
                    assert(embed_len(e@[i as int]) == length);
                }
                i = i + 1;
            }
        },
        None => {},
    }
    if stickers > STICKER_MAX_COUNT {
        return Err(ModelError::StickerAmount);
    }
    Ok(())
}

/// A builder for a followup message to an interaction response.
#[derive(Clone, Debug, Eq, PartialEq)]
pub struct CreateInteractionResponseFollowup {
    pub content: Option<String>,
    pub tts: Option<bool>,
    pub embeds: Vec<CreateEmbed>,
    pub allowed_mentions: Option<CreateAllowedMentions>,
    pub components: Option<Vec<CreateActionRow>>,
    pub flags: Option<MessageFlags>,
    pub poll: Option<CreatePoll>,
    pub attachments: EditAttachments,
}

impl Default for CreateInteractionResponseFollowup {
    fn default() -> (r: Self)
        ensures
            r.content is None,
            r.tts is None,
            r.embeds@ == Seq::<CreateEmbed>::empty(),
            r.allowed_mentions is None,
            r.components is None,
            r.flags is None,
            r.poll is None,
            r.attachments.new_attachments@ == Seq::<CreateAttachment>::empty(),
    {
        CreateInteractionResponseFollowup {
            content: None,
            tts: None,
            embeds: Vec::new(),
            allowed_mentions: None,
            components: None,
            flags: None,
            poll: None,
            attachments: EditAttachments::new(),
        }
    }
}

impl CreateInteractionResponseFollowup {
    /// Equivalent to [`Self::default`].
    pub fn new() -> (r: Self)
        ensures
            r.content is None,
            r.tts is None,
            r.embeds@ == Seq::<CreateEmbed>::empty(),
            r.allowed_mentions is None,
            r.components is None,
            r.flags is None,
            r.poll is None,
            r.attachments.new_attachments@ == Seq::<CreateAttachment>::empty(),
    {
        Self::default()
    }

    /// Checks this message's lengths before it is sent.
    pub fn check_length(&self) -> (r: Result<(), ModelError>)
        ensures
            r is Ok <==> ((self.content matches Some(c) ==> c@.len() <= MESSAGE_CODE_LIMIT)
                && self.embeds@.len() <= EMBED_MAX_COUNT && (forall|i: int|
                0 <= i < self.embeds@.len() ==> #[trigger] embed_len(self.embeds@[i])
                    <= EMBED_MAX_LENGTH)),
    {
        check_lengths(self.content.as_ref(), Some(&self.embeds), 0)
    }

    /// Set the content of the message; it must stay under the code-point
    /// limit to pass [`Self::check_length`].
    pub fn content(self, content: String) -> (r: Self)
        ensures
            r == (Self { content: Some(content), ..self }),
    {
        Self { content: Some(content), ..self }
    }

    /// Set whether the message is text-to-speech.
    pub fn tts(self, tts: bool) -> (r: Self)
        ensures
            r == (Self { tts: Some(tts), ..self }),
    {
        Self { tts: Some(tts), ..self }
    }

    /// Appends a file to the message.
    pub fn add_file(self, file: CreateAttachment) -> (r: Self)
        ensures
            r.attachments.new_attachments@ == self.attachments.new_attachments@.push(file),
            r == (Self { attachments: r.attachments, ..self }),
    {
        let attachments = self.attachments.add(file);
        Self { attachments, ..self }
    }

    /// Appends a list of files to the message.
    pub fn add_files(self, files: Vec<CreateAttachment>) -> (r: Self)
        ensures
            r.attachments.new_attachments@ == self.attachments.new_attachments@ + files@,
            r == (Self { attachments: r.attachments, ..self }),
    {
        let mut s = self;
        let mut files = files;
        s.attachments.new_attachments.append(&mut files);
        s
    }

    /// Sets the list of files to include in the message, replacing any
    /// already added.
    pub fn files(self, files: Vec<CreateAttachment>) -> (r: Self)
        ensures
            r.attachments.new_attachments@ == files@,
            r == (Self { attachments: r.attachments, ..self }),
    {
        let s = Self { attachments: EditAttachments::new(), ..self };
        s.add_files(files)
    }

    /// Adds an embed to the message.
    pub fn add_embed(self, embed: CreateEmbed) -> (r: Self)
        ensures
            r.embeds@ == self.embeds@.push(embed),
            r == (Self { embeds: r.embeds, ..self }),
    {
        let mut s = self;
        s.embeds.push(embed);
        s
    }

    /// Adds multiple embeds to the message.
    pub fn add_embeds(self, embeds: Vec<CreateEmbed>) -> (r: Self)
        ensures
            r.embeds@ == self.embeds@ + embeds@,
            r == (Self { embeds: r.embeds, ..self }),
    {
        let mut s = self;
        let mut embeds = embeds;
        s.embeds.append(&mut embeds);
        s
    }

    /// Sets a single embed to include in the message, replacing any already
    /// set.
    pub fn embed(self, embed: CreateEmbed) -> (r: Self)
        ensures
            r.embeds@ == seq![embed],
            r == (Self { embeds: r.embeds, ..self }),
    {
        let mut embeds: Vec<CreateEmbed> = Vec::new();
        embeds.push(embed);
        proof {
            assert(embeds@ =~= seq![embed]);
        }
        self.embeds(embeds)
    }

    /// Sets the list of embeds to include in the message, replacing any
    /// already set.
    pub fn embeds(self, embeds: Vec<CreateEmbed>) -> (r: Self)
        ensures
            r == (Self { embeds, ..self }),
    {
        Self { embeds, ..self }
    }

    /// Set the allowed mentions for the message.
    pub fn allowed_mentions(self, allowed_mentions: CreateAllowedMentions) -> (r: Self)
        ensures
            r == (Self { allowed_mentions: Some(allowed_mentions), ..self }),
    {
        Self { allowed_mentions: Some(allowed_mentions), ..self }
    }

    /// Sets the flags for the response.
    pub fn flags(self, flags: MessageFlags) -> (r: Self)
        ensures
            r == (Self { flags: Some(flags), ..self }),
    {
        Self { flags: Some(flags), ..self }
    }

    /// Adds or removes the ephemeral flag.
    pub fn ephemeral(self, ephemeral: bool) -> (r: Self)
        ensures
            ({
                let bits = match self.flags {
                    Some(f) => f.bits,
                    None => 0u64,
                };
                r == (Self {
                    flags: Some(
                        MessageFlags {
                            bits: if ephemeral {
                                bits | MESSAGE_FLAG_EPHEMERAL
                            } else {
                                bits & !MESSAGE_FLAG_EPHEMERAL
                            },
                        },
                    ),
                    ..self
                })
            }),
    {
        let mut flags = match self.flags {
            Some(f) => f,
            None => MessageFlags::empty(),
        };
        if ephemeral {
            flags.bits = flags.bits | MESSAGE_FLAG_EPHEMERAL;
        } else {
            flags.bits = flags.bits & !MESSAGE_FLAG_EPHEMERAL;
        }
        Self { flags: Some(flags), ..self }
    }

    /// Adds a poll to the message. Only one poll can be added per message.
    pub fn poll(self, poll: CreatePoll) -> (r: Self)
        ensures
            r == (Self { poll: Some(poll), ..self }),
    {
        Self { poll: Some(poll), ..self }
    }

    /// Sets the components of this message.
    pub fn components(self, components: Vec<CreateActionRow>) -> (r: Self)
        ensures
            r == (Self { components: Some(components), ..self }),
    {
        Self { components: Some(components), ..self }
    }
}

/// A builder for a query over active and ended entitlements.
#[derive(Clone, Debug, Eq, PartialEq)]
pub struct GetEntitlements {
    pub user_id: Option<UserId>,
    pub sku_ids: Option<Vec<SkuId>>,
    pub before: Option<EntitlementId>,
    pub after: Option<EntitlementId>,
    pub limit: Option<u8>,
    pub guild_id: Option<GuildId>,
    pub exclude_ended: Option<bool>,
}

impl Default for GetEntitlements {
    fn default() -> (r: Self)
        ensures
            r.user_id is None,
            r.sku_ids is None,
            r.before is None,
            r.after is None,
            r.limit is None,
            r.guild_id is None,
            r.exclude_ended is None,
    {
        GetEntitlements {
            user_id: None,
            sku_ids: None,
            before: None,
            after: None,
            limit: None,
            guild_id: None,
            exclude_ended: None,
        }
    }
}

impl GetEntitlements {
    /// Filters the returned entitlements by user.
    pub fn user_id(self, user_id: UserId) -> (r: Self)
        ensures
            r == (Self { user_id: Some(user_id), ..self }),
    {
        Self { user_id: Some(user_id), ..self }
    }

    /// Filters the returned entitlements by SKU.
    pub fn sku_ids(self, sku_ids: Vec<SkuId>) -> (r: Self)
        ensures
            r == (Self { sku_ids: Some(sku_ids), ..self }),
    {
        Self { sku_ids: Some(sku_ids), ..self }
    }

    /// Filters the returned entitlements to before the given id.
    pub fn before(self, before: EntitlementId) -> (r: Self)
        ensures
            r == (Self { before: Some(before), ..self }),
    {
        Self { before: Some(before), ..self }
    }

    /// Filters the returned entitlements to after the given id.
    pub fn after(self, after: EntitlementId) -> (r: Self)
        ensures
            r == (Self { after: Some(after), ..self }),
    {
        Self { after: Some(after), ..self }
    }

    /// Limits the number of entitlements that may be returned; the platform
    /// accepts up to 100.
    pub fn limit(self, limit: u8) -> (r: Self)
        ensures
            r == (Self { limit: Some(limit), ..self }),
    {
        Self { limit: Some(limit), ..self }
    }

    /// Filters the returned entitlements by guild.
    pub fn guild_id(self, guild_id: GuildId) -> (r: Self)
        ensures
            r == (Self { guild_id: Some(guild_id), ..self }),
    {
        Self { guild_id: Some(guild_id), ..self }
    }

    /// Filters the returned entitlements to only active ones, if `true`.
    pub fn exclude_ended(self, exclude_ended: bool) -> (r: Self)
        ensures
            r == (Self { exclude_ended: Some(exclude_ended), ..self }),
    {
        Self { exclude_ended: Some(exclude_ended), ..self }
    }
}

/// A builder for editing guild incident actions.
#[derive(Clone, Copy, Debug, Eq, PartialEq, Structural)]
pub struct EditGuildIncidentActions {
    pub invites_disabled_until: Option<Timestamp>,
    pub dms_disabled_until: Option<Timestamp>,
}

impl Default for EditGuildIncidentActions {
    fn default() -> (r: Self)
        ensures
            r.invites_disabled_until is None,
            r.dms_disabled_until is None,
    {
        EditGuildIncidentActions { invites_disabled_until: None, dms_disabled_until: None }
    }
}

impl EditGuildIncidentActions {
    /// Equivalent to [`Self::default`].
    pub fn new() -> (r: Self)
        ensures
            r.invites_disabled_until is None,
            r.dms_disabled_until is None,
    {
        Self::default()
    }

    /// Sets the time invites to the guild will be disabled until. Must be no
    /// further than 1 day in the future.
    pub fn invites_disabled_until(self, timestamp: Timestamp) -> (r: Self)
        ensures
            r == (Self { invites_disabled_until: Some(timestamp), ..self }),
    {
        Self { invites_disabled_until: Some(timestamp), ..self }
    }

    /// Sets the time dms for users within the guild will be disabled until.
    /// Must be no further than 1 day in the future.
    pub fn dms_disabled_until(self, timestamp: Timestamp) -> (r: Self)
        ensures
            r == (Self { dms_disabled_until: Some(timestamp), ..self }),
    {
        Self { dms_disabled_until: Some(timestamp), ..self }
    }
}

} // verus!
