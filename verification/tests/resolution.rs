//! Scenario tests for the Context Resolver: the three event kinds share one
//! rule set for identity validation and guild/private branching.

use raidprotect::context::InteractionContext;
use raidprotect::error::Error;
use raidprotect::event::{
    CommandData, CommandEvent, ComponentData, ComponentEvent, ModalData, ModalEvent,
};
use raidprotect::guild::{GuildConfig, MemoryGuildStore};
use raidprotect::model::{Member, User};

fn sample_user() -> User {
    User {
        id: 700,
        name: "alice".to_owned(),
    }
}

fn sample_member() -> Member {
    Member {
        user: Some(sample_user()),
        nick: Some("al".to_owned()),
    }
}

fn command_event(
    guild_id: Option<u64>,
    member: Option<Member>,
    user: Option<User>,
) -> CommandEvent {
    CommandEvent {
        id: 1,
        application_id: 2,
        token: "tok".to_owned(),
        channel_id: 3,
        guild_id,
        member,
        user,
        locale: "en".to_owned(),
        data: CommandData {
            name: "kick".to_owned(),
        },
    }
}

fn component_event(
    guild_id: Option<u64>,
    member: Option<Member>,
    user: Option<User>,
) -> ComponentEvent {
    ComponentEvent {
        id: 4,
        application_id: 5,
        token: "tok2".to_owned(),
        channel_id: 6,
        guild_id,
        member,
        user,
        locale: "fr".to_owned(),
        data: ComponentData {
            custom_id: "confirm".to_owned(),
        },
    }
}

fn modal_event(guild_id: Option<u64>, member: Option<Member>, user: Option<User>) -> ModalEvent {
    ModalEvent {
        id: 7,
        application_id: 8,
        token: "tok3".to_owned(),
        channel_id: 9,
        guild_id,
        member,
        user,
        locale: "de".to_owned(),
        data: ModalData {
            custom_id: "reason-form".to_owned(),
        },
    }
}

fn missing(field: &str) -> Error {
    Error::MissingField(field.to_owned())
}

#[test]
fn guild_command_without_member_is_missing_member() {
    let mut accessor = MemoryGuildStore::new();
    let r = InteractionContext::from_command(command_event(Some(10), None, None), &mut accessor);
    assert_eq!(r.unwrap_err(), missing("member"));
}

#[test]
fn guild_component_without_member_is_missing_member() {
    let mut accessor = MemoryGuildStore::new();
    let r =
        InteractionContext::from_component(component_event(Some(10), None, None), &mut accessor);
    assert_eq!(r.unwrap_err(), missing("member"));
}

#[test]
fn guild_modal_without_member_is_missing_member() {
    let mut accessor = MemoryGuildStore::new();
    let r = InteractionContext::from_modal(modal_event(Some(10), None, None), &mut accessor);
    assert_eq!(r.unwrap_err(), missing("member"));
}

#[test]
fn guild_command_with_userless_member_is_missing_user() {
    let mut accessor = MemoryGuildStore::new();
    let member = Member {
        user: None,
        nick: None,
    };
    let r = InteractionContext::from_command(
        command_event(Some(10), Some(member), None),
        &mut accessor,
    );
    assert_eq!(r.unwrap_err(), missing("user"));
}

#[test]
fn guild_component_with_userless_member_is_missing_user() {
    let mut accessor = MemoryGuildStore::new();
    let member = Member {
        user: None,
        nick: None,
    };
    let r = InteractionContext::from_component(
        component_event(Some(10), Some(member), None),
        &mut accessor,
    );
    assert_eq!(r.unwrap_err(), missing("user"));
}

#[test]
fn guild_modal_with_userless_member_is_missing_user() {
    let mut accessor = MemoryGuildStore::new();
    let member = Member {
        user: None,
        nick: None,
    };
    let r =
        InteractionContext::from_modal(modal_event(Some(10), Some(member), None), &mut accessor);
    assert_eq!(r.unwrap_err(), missing("user"));
}

#[test]
fn private_command_without_user_is_missing_user() {
    let mut accessor = MemoryGuildStore::new();
    let r = InteractionContext::from_command(command_event(None, None, None), &mut accessor);
    assert_eq!(r.unwrap_err(), missing("user"));
}

#[test]
fn private_component_without_user_is_missing_user() {
    let mut accessor = MemoryGuildStore::new();
    let r = InteractionContext::from_component(component_event(None, None, None), &mut accessor);
    assert_eq!(r.unwrap_err(), missing("user"));
}

#[test]
fn private_modal_without_user_is_missing_user() {
    let mut accessor = MemoryGuildStore::new();
    let r = InteractionContext::from_modal(modal_event(None, None, None), &mut accessor);
    assert_eq!(r.unwrap_err(), missing("user"));
}

#[test]
fn guild_command_resolves_with_populated_guild() {
    let mut accessor = MemoryGuildStore::new();
    let ctx = InteractionContext::from_command(
        command_event(Some(10), Some(sample_member()), None),
        &mut accessor,
    )
    .unwrap();
    assert_eq!(ctx.id, 1);
    assert_eq!(ctx.application_id, 2);
    assert_eq!(ctx.token, "tok");
    assert_eq!(ctx.channel, 3);
    assert_eq!(ctx.locale, "en");
    assert_eq!(ctx.data.name, "kick");
    assert_eq!(ctx.user, sample_user());
    let guild = ctx.guild.expect("guild-scoped event must populate guild");
    assert_eq!(guild.id, 10);
    assert_eq!(guild.guild.id, 10);
    assert_eq!(*guild.config(), GuildConfig::default());
    assert_eq!(guild.member, sample_member());
}

#[test]
fn guild_component_resolves_with_populated_guild() {
    let mut accessor = MemoryGuildStore::new();
    let ctx = InteractionContext::from_component(
        component_event(Some(11), Some(sample_member()), None),
        &mut accessor,
    )
    .unwrap();
    assert_eq!(ctx.data.custom_id, "confirm");
    let guild = ctx.guild.expect("guild-scoped event must populate guild");
    assert_eq!(guild.id, 11);
    assert_eq!(guild.guild.config, GuildConfig::default());
}

#[test]
fn guild_modal_resolves_with_populated_guild() {
    let mut accessor = MemoryGuildStore::new();
    let ctx = InteractionContext::from_modal(
        modal_event(Some(12), Some(sample_member()), None),
        &mut accessor,
    )
    .unwrap();
    assert_eq!(ctx.data.custom_id, "reason-form");
    let guild = ctx.guild.expect("guild-scoped event must populate guild");
    assert_eq!(guild.id, 12);
}

#[test]
fn private_command_resolves_without_guild() {
    let mut accessor = MemoryGuildStore::new();
    let ctx = InteractionContext::from_command(
        command_event(None, None, Some(sample_user())),
        &mut accessor,
    )
    .unwrap();
    assert_eq!(ctx.guild, None);
    assert_eq!(ctx.user, sample_user());
    assert_eq!(ctx.data.name, "kick");
}

#[test]
fn private_component_resolves_without_guild() {
    let mut accessor = MemoryGuildStore::new();
    let ctx = InteractionContext::from_component(
        component_event(None, None, Some(sample_user())),
        &mut accessor,
    )
    .unwrap();
    assert_eq!(ctx.guild, None);
    assert_eq!(ctx.user, sample_user());
}

#[test]
fn private_modal_resolves_without_guild() {
    let mut accessor = MemoryGuildStore::new();
    let ctx = InteractionContext::from_modal(
        modal_event(None, None, Some(sample_user())),
        &mut accessor,
    )
    .unwrap();
    assert_eq!(ctx.guild, None);
    assert_eq!(ctx.user, sample_user());
}

#[test]
fn repeated_resolution_observes_the_same_record() {
    let mut accessor = MemoryGuildStore::new();
    let first = InteractionContext::from_command(
        command_event(Some(10), Some(sample_member()), None),
        &mut accessor,
    )
    .unwrap();
    let second = InteractionContext::from_command(
        command_event(Some(10), Some(sample_member()), None),
        &mut accessor,
    )
    .unwrap();
    assert_eq!(
        first.guild.unwrap().guild,
        second.guild.unwrap().guild,
        "get-or-create must not create a second record for the same guild"
    );
}

#[test]
fn guild_resolution_propagates_dependency_error() {
    let mut accessor = raidprotect::guild::UnavailableGuildStore::new();
    let r = InteractionContext::from_command(
        command_event(Some(10), Some(sample_member()), None),
        &mut accessor,
    );
    assert_eq!(r.unwrap_err(), Error::DependencyError);
}

#[test]
fn private_resolution_succeeds_without_the_config_store() {
    let mut accessor = raidprotect::guild::UnavailableGuildStore::new();
    let ctx = InteractionContext::from_command(
        command_event(None, None, Some(sample_user())),
        &mut accessor,
    )
    .unwrap();
    assert_eq!(ctx.guild, None);
}

#[test]
fn validation_precedes_the_config_store_call() {
    let mut accessor = raidprotect::guild::UnavailableGuildStore::new();
    let r = InteractionContext::from_command(command_event(Some(10), None, None), &mut accessor);
    assert_eq!(
        r.unwrap_err(),
        missing("member"),
        "identity validation fails before the store is consulted"
    );
}
