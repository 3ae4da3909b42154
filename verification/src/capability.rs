//! The capabilities by which a domain type builds its own events.

use vstd::prelude::*;
use crate::model::{AppendableResource, Event, EventVerb, Location, UpdatableResource};

verus! {

/// A domain type whose values can be announced as new resources of a collection.
pub trait Appendable: Sized {
    /// The type that names collections.
    type Collection;

    /// The collection that the value belongs to.
    fn collection(&self) -> Self::Collection;

    /// The event that announces the value as a new resource: an insert with no
    /// id, no transaction and the collection that `collection` gave for the value.
    fn to_insert_event(self) -> (ev: Event<(), Self, Self::Collection>)
        ensures
            ev.verb matches EventVerb::Insert(r) && r == AppendableResource::appended(
                self,
                r.location.collection,
            ) && call_ensures(Self::collection, (&self,), r.location.collection),
    {
        let build = |r: AppendableResource<(), Self, Self::Collection>| -> (v: EventVerb<(), Self, Self::Collection>)
            ensures
                v == EventVerb::Insert(r),
            {
                EventVerb::Insert(r)
            };
        Appendable::to_event(self, build)
    }

    /// The event whose verb `build_verb` makes of the appended resource: the
    /// value with no id, no transaction and the collection that `collection`
    /// gave for it.
    fn to_event<F>(self, build_verb: F) -> (ev: Event<(), Self, Self::Collection>) where
        F: FnOnce(AppendableResource<(), Self, Self::Collection>) -> EventVerb<(), Self, Self::Collection>,

        requires
            forall|c: Self::Collection| #[trigger]
                call_ensures(Self::collection, (&self,), c) ==> build_verb.requires(
                    (AppendableResource::appended(self, c),),
                ),
        ensures
            exists|c: Self::Collection| #[trigger]
                call_ensures(Self::collection, (&self,), c) && build_verb.ensures(
                    (AppendableResource::appended(self, c),),
                    ev.verb,
                ),
    {
        let location = Location { id: None, txn_id: None, collection: self.collection() };
        let verb = build_verb(AppendableResource { location, data: self });
        Event::new(verb)
    }
}

/// A domain type whose values carry their own identifier, so that they can be
/// announced as updates of known resources.
pub trait Syncable: Appendable {
    /// The type of identifiers.
    type Id;

    /// The identifier of the value.
    fn id(&self) -> Self::Id;

    /// The event that announces the value as created or replaced: an upsert
    /// with the id that `id` gave for the value, no transaction and the
    /// collection that `collection` gave for it.
    fn to_upsert_event(self) -> (ev: Event<Self::Id, Self, Self::Collection>)
        ensures
            ev.verb matches EventVerb::Upsert(r) && r.location.id matches Some(id)
                && r == UpdatableResource::synced(self, id, r.location.collection)
                && call_ensures(Self::id, (&self,), id)
                && call_ensures(Self::collection, (&self,), r.location.collection),
    {
        let build = |r: UpdatableResource<Self::Id, Self, Self::Collection>| -> (v: EventVerb<Self::Id, Self, Self::Collection>)
            ensures
                v == EventVerb::Upsert(r),
            {
                EventVerb::Upsert(r)
            };
        Syncable::to_sync_event(self, build)
    }

    /// The event that announces the value as a mutation of a known resource:
    /// an update with the id that `id` gave for the value, no transaction and
    /// the collection that `collection` gave for it.
    fn to_update_event(self) -> (ev: Event<Self::Id, Self, Self::Collection>)
        ensures
            ev.verb matches EventVerb::Update(r) && r.location.id matches Some(id)
                && r == UpdatableResource::synced(self, id, r.location.collection)
                && call_ensures(Self::id, (&self,), id)
                && call_ensures(Self::collection, (&self,), r.location.collection),
    {
        let build = |r: UpdatableResource<Self::Id, Self, Self::Collection>| -> (v: EventVerb<Self::Id, Self, Self::Collection>)
            ensures
                v == EventVerb::Update(r),
            {
                EventVerb::Update(r)
            };
        Syncable::to_sync_event(self, build)
    }

    /// The event whose verb `build_verb` makes of the identified resource: the
    /// value with the id that `id` gave for it, no transaction and the
    /// collection that `collection` gave for it.
    fn to_sync_event<F>(self, build_verb: F) -> (ev: Event<Self::Id, Self, Self::Collection>) where
        F: FnOnce(UpdatableResource<Self::Id, Self, Self::Collection>) -> EventVerb<Self::Id, Self, Self::Collection>,

        requires
            forall|id: Self::Id, c: Self::Collection|
                #[trigger] call_ensures(Self::id, (&self,), id) && #[trigger] call_ensures(
                    Self::collection,
                    (&self,),
                    c,
                ) ==> build_verb.requires((UpdatableResource::synced(self, id, c),)),
        ensures
            exists|id: Self::Id, c: Self::Collection|
                #[trigger] call_ensures(Self::id, (&self,), id) && #[trigger] call_ensures(
                    Self::collection,
                    (&self,),
                    c,
                ) && build_verb.ensures((UpdatableResource::synced(self, id, c),), ev.verb),
    {
        let location = Location { id: Some(self.id()), txn_id: None, collection: self.collection() };
        let verb = build_verb(UpdatableResource { location, data: self });
        Event::new(verb)
    }
}

/// `collection` may give `c` for `value`.
pub open spec fn is_collection_of<A: Appendable>(value: &A, c: A::Collection) -> bool {
    call_ensures(A::collection, (value,), c)
}

/// `id` may give `id` for `value`.
pub open spec fn is_id_of<S: Syncable>(value: &S, id: S::Id) -> bool {
    call_ensures(S::id, (value,), id)
}

/// Whatever event `to_insert_event` makes of a value, it is an insert that
/// names no id and no transaction, names a collection of the value, carries
/// the value, and is well formed.
pub proof fn insert_event_location<A: Appendable>(value: A, ev: Event<(), A, A::Collection>)
    requires
        call_ensures(A::to_insert_event, (value,), ev),
    ensures
        ev.verb matches EventVerb::Insert(r) && r.location.id is None && r.location.txn_id is None
            && is_collection_of(&value, r.location.collection) && r.data == value,
        ev.verb.well_formed(),
{
}

/// Whatever events `to_upsert_event` and `to_update_event` make of a value,
/// the first is an upsert and the second an update, each names an id of the
/// value and a collection of the value and no transaction, carries the value,
/// and is well formed.
pub proof fn sync_event_location<S: Syncable>(
    value: S,
    upsert: Event<S::Id, S, S::Collection>,
    update: Event<S::Id, S, S::Collection>,
)
    requires
        call_ensures(S::to_upsert_event, (value,), upsert),
        call_ensures(S::to_update_event, (value,), update),
    ensures
        upsert.verb matches EventVerb::Upsert(r) && r.location.id matches Some(id) && is_id_of(
            &value,
            id,
        ) && r.location.txn_id is None && is_collection_of(&value, r.location.collection)
            && r.data == value,
        update.verb matches EventVerb::Update(r) && r.location.id matches Some(id) && is_id_of(
            &value,
            id,
        ) && r.location.txn_id is None && is_collection_of(&value, r.location.collection)
            && r.data == value,
        upsert.verb.well_formed(),
        update.verb.well_formed(),
{
}

} // verus!
