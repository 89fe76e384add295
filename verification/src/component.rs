//! Pending components and their serialized form.
//!
//! A [`PendingComponent`] is the state a handler defers for a later
//! interaction (a button press, a confirmed sanction). Each variant carries
//! its own opaque string identifier, from which the store key
//! `pending:component:<id>` is derived. The codec at the serialization
//! boundary — [`encode_component`] / [`decode_component`] — turns a
//! component into a flat record carrying a variant tag plus the
//! variant-specific fields, and is proved to round-trip exactly.

use vstd::prelude::*;

use crate::model::{ModlogType, ResponseData, User};

verus! {

/// Seconds a pending component lives in the store before it expires.
pub const EXPIRES_AFTER_SECONDS: u64 = 5 * 60;

/// State for the "post in chat" button.
#[derive(Debug, PartialEq, Eq)]
pub struct PostInChatButton {
    /// Component unique identifier.
    pub id: String,
    /// Response to send to the channel.
    pub response: ResponseData,
    /// Id of the initial interaction author.
    pub author_id: u64,
}

impl Clone for PostInChatButton {
    fn clone(&self) -> (r: Self)
        ensures
            r == *self,
    {
        PostInChatButton {
            id: self.id.clone(),
            response: self.response.clone(),
            author_id: self.author_id,
        }
    }
}

/// State for a sanction awaiting confirmation.
#[derive(Debug, PartialEq, Eq)]
pub struct PendingSanction {
    /// Component unique identifier.
    pub id: String,
    /// Kind of the pending moderation-log entry.
    pub kind: ModlogType,
    /// User targeted by the sanction.
    pub user: User,
}

impl Clone for PendingSanction {
    fn clone(&self) -> (r: Self)
        ensures
            r == *self,
    {
        PendingSanction { id: self.id.clone(), kind: self.kind, user: self.user.clone() }
    }
}

/// State of a component waiting for user interaction.
#[derive(Debug, PartialEq, Eq)]
pub enum PendingComponent {
    PostInChatButton(PostInChatButton),
    Sanction(PendingSanction),
}

impl Clone for PendingComponent {
    fn clone(&self) -> (r: Self)
        ensures
            r == *self,
    {
        match self {
            PendingComponent::PostInChatButton(component) => PendingComponent::PostInChatButton(
                component.clone(),
            ),
            PendingComponent::Sanction(component) => PendingComponent::Sanction(component.clone()),
        }
    }
}

/// The key under which the component with identifier `id` is stored.
pub open spec fn key_spec(id: Seq<char>) -> Seq<char> {
    "pending:component:"@ + id
}

/// Distinct identifiers derive distinct store keys.
pub proof fn lemma_key_spec_injective(id1: Seq<char>, id2: Seq<char>)
    requires
        key_spec(id1) == key_spec(id2),
    ensures
        id1 == id2,
{
    assert(key_spec(id1).skip(18) =~= id1) by {
        reveal_strlit("pending:component:");
    }
    assert(key_spec(id2).skip(18) =~= id2) by {
        reveal_strlit("pending:component:");
    }
}

impl PendingComponent {
    /// The component's embedded identifier, whichever the variant.
    pub open spec fn id_spec(&self) -> Seq<char> {
        match self {
            PendingComponent::PostInChatButton(component) => component.id@,
            PendingComponent::Sanction(component) => component.id@,
        }
    }

    /// Get the component unique identifier: each variant's own embedded id
    /// field, never a derived value.
    pub fn id(&self) -> (r: &str)
        ensures
            r@ == self.id_spec(),
            self matches PendingComponent::PostInChatButton(c) ==> r@ == c.id@,
            self matches PendingComponent::Sanction(c) ==> r@ == c.id@,
    {
        match self {
            PendingComponent::PostInChatButton(component) => component.id.as_str(),
            PendingComponent::Sanction(component) => component.id.as_str(),
        }
    }

    /// The store key of this component.
    pub fn key(&self) -> (r: String)
        ensures
            r@ == key_spec(self.id_spec()),
    {
        Self::key_from(self.id())
    }

    /// The store key for the component with identifier `id`.
    pub fn key_from(id: &str) -> (r: String)
        ensures
            r@ == key_spec(id@),
    {
        String::from_str("pending:component:").concat(id)
    }
}

/// Tag distinguishing the serialized variants.
#[derive(Debug, Clone, Copy, PartialEq, Eq)]
pub enum ComponentTag {
    PostInChatButton,
    Sanction,
}

/// The serialized form of a pending component: a variant tag, the embedded
/// identifier, and the fields of that variant; fields of the other variant
/// stay empty.
#[derive(Debug, PartialEq, Eq)]
pub struct StoredRecord {
    /// Which variant the record holds.
    pub tag: ComponentTag,
    /// Component unique identifier.
    pub id: String,
    /// Response payload of a "post in chat" button.
    pub response: Option<ResponseData>,
    /// Author of the initial interaction of a "post in chat" button.
    pub author_id: Option<u64>,
    /// Kind of a pending sanction.
    pub kind: Option<ModlogType>,
    /// Target user of a pending sanction.
    pub user: Option<User>,
}

/// The record encoding produces for a component.
pub open spec fn encode_spec(c: PendingComponent) -> StoredRecord {
    match c {
        PendingComponent::PostInChatButton(b) => StoredRecord {
            tag: ComponentTag::PostInChatButton,
            id: b.id,
            response: Some(b.response),
            author_id: Some(b.author_id),
            kind: None,
            user: None,
        },
        PendingComponent::Sanction(s) => StoredRecord {
            tag: ComponentTag::Sanction,
            id: s.id,
            response: None,
            author_id: None,
            kind: Some(s.kind),
            user: Some(s.user),
        },
    }
}

/// The component a record decodes to: the variant its tag names, provided
/// that variant's fields are all present.
pub open spec fn decode_spec(r: StoredRecord) -> Option<PendingComponent> {
    match r.tag {
        ComponentTag::PostInChatButton => if r.response is Some && r.author_id is Some {
            Some(
                PendingComponent::PostInChatButton(
                    PostInChatButton {
                        id: r.id,
                        response: r.response->0,
                        author_id: r.author_id->0,
                    },
                ),
            )
        } else {
            None
        },
        ComponentTag::Sanction => if r.kind is Some && r.user is Some {
            Some(
                PendingComponent::Sanction(
                    PendingSanction { id: r.id, kind: r.kind->0, user: r.user->0 },
                ),
            )
        } else {
            None
        },
    }
}

/// Serializes a component, preserving its variant tag and every field.
pub fn encode_component(c: PendingComponent) -> (r: StoredRecord)
    ensures
        r == encode_spec(c),
{
    match c {
        PendingComponent::PostInChatButton(b) => StoredRecord {
            tag: ComponentTag::PostInChatButton,
            id: b.id,
            response: Some(b.response),
            author_id: Some(b.author_id),
            kind: None,
            user: None,
        },
        PendingComponent::Sanction(s) => StoredRecord {
            tag: ComponentTag::Sanction,
            id: s.id,
            response: None,
            author_id: None,
            kind: Some(s.kind),
            user: Some(s.user),
        },
    }
}

/// Deserializes a record into the variant its tag names; a record missing a
/// field of that variant decodes to nothing.
pub fn decode_component(r: &StoredRecord) -> (c: Option<PendingComponent>)
    ensures
        c == decode_spec(*r),
{
    match r.tag {
        ComponentTag::PostInChatButton => {
            match (&r.response, &r.author_id) {
                (Some(response), Some(author_id)) => Some(
                    PendingComponent::PostInChatButton(
                        PostInChatButton {
                            id: r.id.clone(),
                            response: response.clone(),
                            author_id: *author_id,
                        },
                    ),
                ),
                _ => None,
            }
        },
        ComponentTag::Sanction => {
            match (&r.kind, &r.user) {
                (Some(kind), Some(user)) => Some(
                    PendingComponent::Sanction(
                        PendingSanction { id: r.id.clone(), kind: *kind, user: user.clone() },
                    ),
                ),
                _ => None,
            }
        },
    }
}

/// Law: the codec round-trips — decoding an encoded component yields the
/// component itself, whichever the variant, with all fields preserved.
pub proof fn lemma_codec_round_trip(c: PendingComponent)
    ensures
        decode_spec(encode_spec(c)) == Some(c),
{
}

} // verus!
