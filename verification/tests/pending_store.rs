//! Scenario tests for the Pending Component Store: round trips for both
//! variants, expiry as an empty result, last write wins, and the key format.

use raidprotect::component::{
    decode_component, encode_component, PendingComponent, PendingSanction, PostInChatButton,
};
use raidprotect::model::{ModlogType, ResponseData, User};
use raidprotect::store::{MemoryKvStore, PendingComponentStore};

fn button(id: &str) -> PendingComponent {
    PendingComponent::PostInChatButton(PostInChatButton {
        id: id.to_owned(),
        response: ResponseData {
            content: Some("posted".to_owned()),
            ephemeral: false,
        },
        author_id: 42,
    })
}

fn sanction(id: &str) -> PendingComponent {
    PendingComponent::Sanction(PendingSanction {
        id: id.to_owned(),
        kind: ModlogType::Ban,
        user: User {
            id: 900,
            name: "mallory".to_owned(),
        },
    })
}

fn empty_store() -> PendingComponentStore<MemoryKvStore> {
    PendingComponentStore::new(MemoryKvStore::new())
}

#[test]
fn id_of_button_is_its_embedded_id() {
    assert_eq!(button("b-1").id(), "b-1");
}

#[test]
fn id_of_sanction_is_its_embedded_id() {
    assert_eq!(sanction("s-1").id(), "s-1");
}

#[test]
fn key_is_namespaced_id() {
    assert_eq!(button("b-1").key(), "pending:component:b-1");
    assert_eq!(
        PendingComponent::key_from("xyz"),
        "pending:component:xyz"
    );
}

#[test]
fn codec_round_trips_button() {
    let c = button("b-1");
    assert_eq!(decode_component(&encode_component(button("b-1"))), Some(c));
}

#[test]
fn codec_round_trips_sanction() {
    let c = sanction("s-1");
    assert_eq!(
        decode_component(&encode_component(sanction("s-1"))),
        Some(c)
    );
}

#[test]
fn put_then_get_returns_button_with_all_fields() {
    let mut store = empty_store();
    store.put(button("b-1"), 0);
    assert_eq!(store.get("b-1", 0), Some(button("b-1")));
}

#[test]
fn put_then_get_returns_sanction_with_all_fields() {
    let mut store = empty_store();
    store.put(sanction("s-1"), 0);
    assert_eq!(store.get("s-1", 0), Some(sanction("s-1")));
}

#[test]
fn get_on_never_stored_id_is_empty() {
    let store = empty_store();
    assert_eq!(store.get("nothing-here", 0), None);
}

#[test]
fn get_after_ttl_elapsed_is_empty() {
    let mut store = empty_store();
    store.put(sanction("s-1"), 100);
    assert_eq!(store.get("s-1", 399), Some(sanction("s-1")));
    assert_eq!(store.get("s-1", 400), None);
    assert_eq!(store.get("s-1", 1000), None);
}

#[test]
fn put_refreshes_the_ttl() {
    let mut store = empty_store();
    store.put(sanction("s-1"), 0);
    store.put(sanction("s-1"), 200);
    assert_eq!(store.get("s-1", 350), Some(sanction("s-1")));
}

#[test]
fn put_twice_with_same_id_keeps_the_second_only() {
    let mut store = empty_store();
    let first = PendingComponent::Sanction(PendingSanction {
        id: "dup".to_owned(),
        kind: ModlogType::Kick,
        user: User {
            id: 1,
            name: "first".to_owned(),
        },
    });
    let second = button("dup");
    store.put(first, 0);
    store.put(second, 0);
    assert_eq!(store.get("dup", 0), Some(button("dup")));
}

#[test]
fn distinct_ids_do_not_collide() {
    let mut store = empty_store();
    store.put(button("one"), 0);
    store.put(sanction("two"), 0);
    assert_eq!(store.get("one", 0), Some(button("one")));
    assert_eq!(store.get("two", 0), Some(sanction("two")));
}

#[test]
fn delete_reclaims_the_record_early() {
    let mut store = empty_store();
    store.put(button("b-1"), 0);
    store.delete("b-1");
    assert_eq!(store.get("b-1", 0), None);
}
