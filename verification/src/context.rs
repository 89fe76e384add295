//! The Context Resolver.
//!
//! Resolution turns a raw event into an [`InteractionContext`]: the Envelope
//! Extractor validates identity data, then — only for guild-scoped events —
//! the Guild Config Accessor is invoked exactly once to fetch (or lazily
//! create) the guild's configuration record. The three public entry points
//! `from_command`, `from_component` and `from_modal` differ only in the
//! payload type they thread through; all share [`resolve_parts`], so the
//! branching algorithm cannot diverge between event kinds.

use vstd::prelude::*;

use crate::error::{is_missing_field, Error};
use crate::event::{
    extract_envelope, extracted_envelope, extraction_succeeds, missing_field_name, CommandData,
    CommandEvent, ComponentData, ComponentEvent, EnvelopeParts, ModalData, ModalEvent,
};
use crate::guild::{default_config, Guild, GuildConfig, GuildConfigAccessor};
use crate::model::{Member, User};

verus! {

/// Additional context for events triggered in a guild.
#[derive(Debug, PartialEq, Eq)]
pub struct GuildContext {
    /// Identifier of the guild.
    pub id: u64,
    /// The guild's configuration record, fetched from the accessor.
    pub guild: Guild,
    /// The member that triggered the event.
    pub member: Member,
}

impl GuildContext {
    /// The configuration of the guild.
    pub fn config(&self) -> (c: &GuildConfig)
        ensures
            *c == self.guild.config,
    {
        &self.guild.config
    }
}

/// Context of a resolved interaction. The same shape serves all three event
/// kinds; the payload field is the only kind-specific part. Invariant of
/// resolution: `guild` is present if and only if the source event carried a
/// guild identifier.
#[derive(Debug, PartialEq, Eq)]
pub struct InteractionContext<D> {
    /// Identifier of the interaction.
    pub id: u64,
    /// Identifier of the application the event was sent to.
    pub application_id: u64,
    /// Opaque secret authorizing a later response to the interaction.
    pub token: String,
    /// Kind-specific payload of the event.
    pub data: D,
    /// Channel the interaction was triggered from.
    pub channel: u64,
    /// Guild context, populated exactly for guild-scoped events.
    pub guild: Option<GuildContext>,
    /// The user that triggered the interaction.
    pub user: User,
    /// Locale of the invoking user.
    pub locale: String,
}

/// The context a guild-scoped resolution produces, given the guild record
/// the accessor returned.
pub open spec fn guild_scoped_context<D>(parts: EnvelopeParts<D>, guild: Guild) -> InteractionContext<
    D,
>
    recommends
        extraction_succeeds(parts),
        parts.guild_id is Some,
{
    let env = extracted_envelope(parts);
    InteractionContext {
        id: env.id,
        application_id: env.application_id,
        token: env.token,
        data: env.data,
        channel: env.channel_id,
        guild: Some(GuildContext { id: parts.guild_id->0, guild, member: env.guild->0.member }),
        user: env.user,
        locale: env.locale,
    }
}

/// The context a private resolution produces.
pub open spec fn private_context<D>(parts: EnvelopeParts<D>) -> InteractionContext<D>
    recommends
        extraction_succeeds(parts),
        parts.guild_id is None,
{
    let env = extracted_envelope(parts);
    InteractionContext {
        id: env.id,
        application_id: env.application_id,
        token: env.token,
        data: env.data,
        channel: env.channel_id,
        guild: None,
        user: env.user,
        locale: env.locale,
    }
}

/// Holds when `g` is the record a get-or-create against records `pre` must
/// return for `guild_id`: the stored record unchanged when one exists, the
/// default record otherwise.
pub open spec fn fetched_record(pre: Map<u64, GuildConfig>, guild_id: u64, g: Guild) -> bool {
    &&& g.id == guild_id
    &&& (pre.contains_key(guild_id) ==> g.config == pre[guild_id])
    &&& (!pre.contains_key(guild_id) ==> g.config == default_config())
}

/// The records a successful get-or-create for `guild_id` leaves behind:
/// unchanged when the guild already had a record, extended by the default
/// record otherwise.
pub open spec fn records_after_fetch(pre: Map<u64, GuildConfig>, guild_id: u64) -> Map<
    u64,
    GuildConfig,
> {
    if pre.contains_key(guild_id) {
        pre
    } else {
        pre.insert(guild_id, default_config())
    }
}

/// The complete contract of resolution, shared by the three entry points:
/// relates the raw event's common fields, the accessor state before and
/// after the call, and the result.
///
/// - Identity data absent: the exact `MissingField` error, the accessor
///   untouched.
/// - Well-formed and private: the private context, the accessor untouched.
/// - Well-formed and guild-scoped: exactly one get-or-create call; on
///   success the guild-scoped context holding the fetched record, on failure
///   the accessor's `DependencyError` with the records unchanged. Against an
///   accessor that cannot fail, success is certain.
pub open spec fn resolution_ensures<D, A: GuildConfigAccessor>(
    parts: EnvelopeParts<D>,
    pre: A,
    post: A,
    r: Result<InteractionContext<D>, Error>,
) -> bool {
    if !extraction_succeeds(parts) {
        &&& r matches Err(e) && is_missing_field(e, missing_field_name(parts))
        &&& post == pre
    } else {
        match parts.guild_id {
            Some(guild_id) => {
                &&& post.calls() == pre.calls() + 1
                &&& post.infallible() == pre.infallible()
                &&& (pre.infallible() ==> r is Ok)
                &&& match r {
                    Ok(ctx) => {
                        &&& ctx matches InteractionContext {
                            guild: Some(gctx),
                            ..
                        } && fetched_record(pre.configs(), guild_id, gctx.guild) && ctx
                            == guild_scoped_context(parts, gctx.guild)
                        &&& post.configs() == records_after_fetch(pre.configs(), guild_id)
                    },
                    Err(e) => e is DependencyError && post.configs() == pre.configs(),
                }
            },
            None => {
                &&& post == pre
                &&& r matches Ok(ctx) && ctx == private_context(parts)
            },
        }
    }
}

/// The shared resolution algorithm: extract the envelope, then branch on the
/// guild origin, invoking the accessor exactly once on the guild path and
/// never on the private path.
pub fn resolve_parts<D, A: GuildConfigAccessor>(
    parts: EnvelopeParts<D>,
    accessor: &mut A,
) -> (r: Result<InteractionContext<D>, Error>)
    ensures
        resolution_ensures(parts, *old(accessor), *final(accessor), r),
{
    let envelope = match extract_envelope(parts) {
        Ok(envelope) => envelope,
        Err(e) => {
            return Err(e);
        },
    };
    match envelope.guild {
        Some(origin) => {
            let guild = match accessor.get_or_create(origin.guild_id) {
                Ok(guild) => guild,
                Err(e) => {
                    return Err(e);
                },
            };
            Ok(
                InteractionContext {
                    id: envelope.id,
                    application_id: envelope.application_id,
                    token: envelope.token,
                    data: envelope.data,
                    channel: envelope.channel_id,
                    guild: Some(
                        GuildContext { id: origin.guild_id, guild, member: origin.member },
                    ),
                    user: envelope.user,
                    locale: envelope.locale,
                },
            )
        },
        None => Ok(
            InteractionContext {
                id: envelope.id,
                application_id: envelope.application_id,
                token: envelope.token,
                data: envelope.data,
                channel: envelope.channel_id,
                guild: None,
                user: envelope.user,
                locale: envelope.locale,
            },
        ),
    }
}

/// Law: a context coming out of resolution has its guild field populated if
/// and only if the source event carried a guild identifier; the accessor is
/// invoked exactly once on the guild path and not at all on the private
/// path. Resolving a well-formed guild-scoped event against an accessor that
/// cannot fail succeeds, with the guild field holding the record fetched for
/// exactly that guild.
pub proof fn lemma_resolution_guild_discipline<D, A: GuildConfigAccessor>(
    parts: EnvelopeParts<D>,
    pre: A,
    post: A,
    r: Result<InteractionContext<D>, Error>,
)
    requires
        resolution_ensures(parts, pre, post, r),
    ensures
        r matches Ok(ctx) ==> (ctx.guild is Some <==> parts.guild_id is Some),
        extraction_succeeds(parts) && parts.guild_id is Some ==> post.calls() == pre.calls() + 1,
        extraction_succeeds(parts) && parts.guild_id is Some && pre.infallible() ==> (r matches Ok(
            ctx,
        ) && ctx.guild matches Some(g) && g.id == parts.guild_id->0 && fetched_record(
            pre.configs(),
            parts.guild_id->0,
            g.guild,
        ) && post.configs() == records_after_fetch(pre.configs(), parts.guild_id->0)),
        parts.guild_id is None ==> post == pre,
{
}

impl InteractionContext<CommandData> {
    /// Resolves a raw command invocation.
    pub fn from_command<A: GuildConfigAccessor>(
        command: CommandEvent,
        accessor: &mut A,
    ) -> (r: Result<Self, Error>)
        ensures
            resolution_ensures(command.parts(), *old(accessor), *final(accessor), r),
    {
        resolve_parts(command.into_parts(), accessor)
    }
}

impl InteractionContext<ComponentData> {
    /// Resolves a raw component activation.
    pub fn from_component<A: GuildConfigAccessor>(
        component: ComponentEvent,
        accessor: &mut A,
    ) -> (r: Result<Self, Error>)
        ensures
            resolution_ensures(component.parts(), *old(accessor), *final(accessor), r),
    {
        resolve_parts(component.into_parts(), accessor)
    }
}

impl InteractionContext<ModalData> {
    /// Resolves a raw modal submission.
    pub fn from_modal<A: GuildConfigAccessor>(
        modal: ModalEvent,
        accessor: &mut A,
    ) -> (r: Result<Self, Error>)
        ensures
            resolution_ensures(modal.parts(), *old(accessor), *final(accessor), r),
    {
        resolve_parts(modal.into_parts(), accessor)
    }
}

} // verus!
