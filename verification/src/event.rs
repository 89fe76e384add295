//! Raw event shapes and the Envelope Extractor.
//!
//! The three raw event kinds — command invocation, component activation and
//! modal submission — expose the same common fields and differ only in their
//! kind-specific payload. [`extract_envelope`] applies one rule set to all
//! three: a guild-originated event must carry member data with an embedded
//! user, a private event must carry a top-level user; anything else fails
//! with a `MissingField` error and no partial envelope is produced.

use vstd::prelude::*;

use crate::error::{is_missing_field, Error};
use crate::model::{Member, User};

verus! {

/// Payload of a command invocation.
#[derive(Debug, PartialEq, Eq)]
pub struct CommandData {
    /// Name of the invoked command.
    pub name: String,
}

/// Payload of a UI-component activation.
#[derive(Debug, PartialEq, Eq)]
pub struct ComponentData {
    /// Developer-defined identifier of the activated component.
    pub custom_id: String,
}

/// Payload of a modal (form) submission.
#[derive(Debug, PartialEq, Eq)]
pub struct ModalData {
    /// Developer-defined identifier of the submitted modal.
    pub custom_id: String,
}

/// The common fields of a raw event, with its kind-specific payload.
#[derive(Debug, PartialEq, Eq)]
pub struct EnvelopeParts<D> {
    /// Identifier of the interaction.
    pub id: u64,
    /// Identifier of the application the event was sent to.
    pub application_id: u64,
    /// Opaque secret authorizing a later response to the interaction.
    pub token: String,
    /// Channel the interaction was triggered from.
    pub channel_id: u64,
    /// Guild the interaction was triggered from, absent for private events.
    pub guild_id: Option<u64>,
    /// Member data, attached by the platform on guild-originated events.
    pub member: Option<Member>,
    /// Top-level user, attached by the platform on private events.
    pub user: Option<User>,
    /// Locale of the invoking user.
    pub locale: String,
    /// Kind-specific payload.
    pub data: D,
}

/// Origin of a guild-scoped event: the guild identifier and the validated
/// member that triggered the event.
#[derive(Debug, PartialEq, Eq)]
pub struct GuildOrigin {
    /// Identifier of the originating guild.
    pub guild_id: u64,
    /// The member that triggered the event; carries an embedded user.
    pub member: Member,
}

/// A normalized event: the common fields with identity data validated. The
/// `guild` field is present if and only if the raw event carried a guild
/// identifier.
#[derive(Debug, PartialEq, Eq)]
pub struct InteractionEnvelope<D> {
    /// Identifier of the interaction.
    pub id: u64,
    /// Identifier of the application the event was sent to.
    pub application_id: u64,
    /// Opaque secret authorizing a later response to the interaction.
    pub token: String,
    /// Channel the interaction was triggered from.
    pub channel_id: u64,
    /// Guild origin, present exactly when the event carried a guild id.
    pub guild: Option<GuildOrigin>,
    /// The invoking user: the member's embedded user on the guild path, the
    /// top-level user on the private path.
    pub user: User,
    /// Locale of the invoking user.
    pub locale: String,
    /// Kind-specific payload.
    pub data: D,
}

/// Whether the identity rules hold for these fields: a guild-originated
/// event carries a member with an embedded user, a private event carries a
/// top-level user.
pub open spec fn extraction_succeeds<D>(parts: EnvelopeParts<D>) -> bool {
    match parts.guild_id {
        Some(_) => parts.member matches Some(m) && m.user is Some,
        None => parts.user is Some,
    }
}

/// The field whose absence extraction reports, when it fails: `member` when
/// a guild-originated event carries no member data, `user` otherwise.
pub open spec fn missing_field_name<D>(parts: EnvelopeParts<D>) -> Seq<char> {
    if parts.guild_id is Some && parts.member is None {
        "member"@
    } else {
        "user"@
    }
}

/// The envelope extraction produces when the identity rules hold.
pub open spec fn extracted_envelope<D>(parts: EnvelopeParts<D>) -> InteractionEnvelope<D>
    recommends
        extraction_succeeds(parts),
{
    InteractionEnvelope {
        id: parts.id,
        application_id: parts.application_id,
        token: parts.token,
        channel_id: parts.channel_id,
        guild: match parts.guild_id {
            Some(guild_id) => Some(GuildOrigin { guild_id, member: parts.member->0 }),
            None => None,
        },
        user: match parts.guild_id {
            Some(_) => parts.member->0.user->0,
            None => parts.user->0,
        },
        locale: parts.locale,
        data: parts.data,
    }
}

/// The Envelope Extractor: validates the identity rules and produces the
/// normalized envelope, or reports exactly the missing field. All three raw
/// event kinds are extracted through this one rule set.
pub fn extract_envelope<D>(parts: EnvelopeParts<D>) -> (r: Result<InteractionEnvelope<D>, Error>)
    ensures
        extraction_succeeds(parts) ==> (r matches Ok(env) && env == extracted_envelope(parts)),
        !extraction_succeeds(parts) ==> (r matches Err(e) && is_missing_field(
            e,
            missing_field_name(parts),
        )),
{
    match parts.guild_id {
        Some(guild_id) => {
            let member = match parts.member {
                Some(member) => member,
                None => {
                    return Err(Error::missing_member());
                },
            };
            let user = match &member.user {
                Some(user) => user.clone(),
                None => {
                    return Err(Error::missing_user());
                },
            };
            Ok(InteractionEnvelope {
                id: parts.id,
                application_id: parts.application_id,
                token: parts.token,
                channel_id: parts.channel_id,
                guild: Some(GuildOrigin { guild_id, member }),
                user,
                locale: parts.locale,
                data: parts.data,
            })
        },
        None => {
            let user = match parts.user {
                Some(user) => user,
                None => {
                    return Err(Error::missing_user());
                },
            };
            Ok(InteractionEnvelope {
                id: parts.id,
                application_id: parts.application_id,
                token: parts.token,
                channel_id: parts.channel_id,
                guild: None,
                user,
                locale: parts.locale,
                data: parts.data,
            })
        },
    }
}

/// A raw command-invocation event.
#[derive(Debug, PartialEq, Eq)]
pub struct CommandEvent {
    /// Identifier of the interaction.
    pub id: u64,
    /// Identifier of the application the event was sent to.
    pub application_id: u64,
    /// Opaque secret authorizing a later response to the interaction.
    pub token: String,
    /// Channel the interaction was triggered from.
    pub channel_id: u64,
    /// Guild the interaction was triggered from, absent for private events.
    pub guild_id: Option<u64>,
    /// Member data, attached on guild-originated events.
    pub member: Option<Member>,
    /// Top-level user, attached on private events.
    pub user: Option<User>,
    /// Locale of the invoking user.
    pub locale: String,
    /// Command payload.
    pub data: CommandData,
}

impl CommandEvent {
    /// The common fields of this event, as the Envelope Extractor reads them.
    pub open spec fn parts(self) -> EnvelopeParts<CommandData> {
        EnvelopeParts {
            id: self.id,
            application_id: self.application_id,
            token: self.token,
            channel_id: self.channel_id,
            guild_id: self.guild_id,
            member: self.member,
            user: self.user,
            locale: self.locale,
            data: self.data,
        }
    }

    /// Splits the event into its common fields.
    pub fn into_parts(self) -> (p: EnvelopeParts<CommandData>)
        ensures
            p == self.parts(),
    {
        EnvelopeParts {
            id: self.id,
            application_id: self.application_id,
            token: self.token,
            channel_id: self.channel_id,
            guild_id: self.guild_id,
            member: self.member,
            user: self.user,
            locale: self.locale,
            data: self.data,
        }
    }
}

/// A raw component-activation event.
#[derive(Debug, PartialEq, Eq)]
pub struct ComponentEvent {
    /// Identifier of the interaction.
    pub id: u64,
    /// Identifier of the application the event was sent to.
    pub application_id: u64,
    /// Opaque secret authorizing a later response to the interaction.
    pub token: String,
    /// Channel the interaction was triggered from.
    pub channel_id: u64,
    /// Guild the interaction was triggered from, absent for private events.
    pub guild_id: Option<u64>,
    /// Member data, attached on guild-originated events.
    pub member: Option<Member>,
    /// Top-level user, attached on private events.
    pub user: Option<User>,
    /// Locale of the invoking user.
    pub locale: String,
    /// Component payload.
    pub data: ComponentData,
}

impl ComponentEvent {
    /// The common fields of this event, as the Envelope Extractor reads them.
    pub open spec fn parts(self) -> EnvelopeParts<ComponentData> {
        EnvelopeParts {
            id: self.id,
            application_id: self.application_id,
            token: self.token,
            channel_id: self.channel_id,
            guild_id: self.guild_id,
            member: self.member,
            user: self.user,
            locale: self.locale,
            data: self.data,
        }
    }

    /// Splits the event into its common fields.
    pub fn into_parts(self) -> (p: EnvelopeParts<ComponentData>)
        ensures
            p == self.parts(),
    {
        EnvelopeParts {
            id: self.id,
            application_id: self.application_id,
            token: self.token,
            channel_id: self.channel_id,
            guild_id: self.guild_id,
            member: self.member,
            user: self.user,
            locale: self.locale,
            data: self.data,
        }
    }
}

/// A raw modal-submission event.
#[derive(Debug, PartialEq, Eq)]
pub struct ModalEvent {
    /// Identifier of the interaction.
    pub id: u64,
    /// Identifier of the application the event was sent to.
    pub application_id: u64,
    /// Opaque secret authorizing a later response to the interaction.
    pub token: String,
    /// Channel the interaction was triggered from.
    pub channel_id: u64,
    /// Guild the interaction was triggered from, absent for private events.
    pub guild_id: Option<u64>,
    /// Member data, attached on guild-originated events.
    pub member: Option<Member>,
    /// Top-level user, attached on private events.
    pub user: Option<User>,
    /// Locale of the invoking user.
    pub locale: String,
    /// Modal payload.
    pub data: ModalData,
}

impl ModalEvent {
    /// The common fields of this event, as the Envelope Extractor reads them.
    pub open spec fn parts(self) -> EnvelopeParts<ModalData> {
        EnvelopeParts {
            id: self.id,
            application_id: self.application_id,
            token: self.token,
            channel_id: self.channel_id,
            guild_id: self.guild_id,
            member: self.member,
            user: self.user,
            locale: self.locale,
            data: self.data,
        }
    }

    /// Splits the event into its common fields.
    pub fn into_parts(self) -> (p: EnvelopeParts<ModalData>)
        ensures
            p == self.parts(),
    {
        EnvelopeParts {
            id: self.id,
            application_id: self.application_id,
            token: self.token,
            channel_id: self.channel_id,
            guild_id: self.guild_id,
            member: self.member,
            user: self.user,
            locale: self.locale,
            data: self.data,
        }
    }
}

} // verus!
