//! The event data model: where a resource lives, the resource wrappers, the
//! verb of a mutation and the event that announces it.

use vstd::prelude::*;

verus! {

/// Where a resource instance lives.
#[derive(Debug, Clone)]
pub struct Location<ID, C> {
    /// Identifier of the resource; absent while the resource has none yet.
    pub id: Option<ID>,
    /// Reserved tag that groups the events of one transaction; carried as it is.
    pub txn_id: Option<u32>,
    /// The logical collection the resource belongs to.
    pub collection: C,
}

/// A resource that can be mutated after it was created: its location and its payload.
#[derive(Debug, Clone)]
pub struct UpdatableResource<ID, T, C> {
    pub location: Location<ID, C>,
    pub data: T,
}

/// A resource that is only ever inserted: its location and its payload.
#[derive(Debug, Clone)]
pub struct AppendableResource<ID, T, C> {
    pub location: Location<ID, C>,
    pub data: T,
}

/// The bare numeric identifier of a resource, as a delete notification carries it.
#[derive(Debug, Clone)]
pub struct ResourceId(pub u32);

/// The kind of mutation an event announces, with what that kind carries.
#[derive(Debug, Clone)]
pub enum EventVerb<ID, T, C> {
    Insert(AppendableResource<ID, T, C>),
    Update(UpdatableResource<ID, T, C>),
    Upsert(UpdatableResource<ID, T, C>),
    Delete(ResourceId),
}

/// One announced mutation: the unit of transmission.
#[derive(Debug, Clone)]
pub struct Event<ID, T, C> {
    pub verb: EventVerb<ID, T, C>,
}

/// The outer transport frame around one payload.
#[derive(Debug, Clone)]
pub struct WsBody<T> {
    pub data: T,
}

/// Why a verb was refused: its kind and the presence of an id disagree.
#[derive(Debug, Clone, Copy, PartialEq, Eq, Structural)]
pub enum MalformedEventError {
    /// An insert names an id, though the resource has none yet.
    UnexpectedId,
    /// An update or upsert names no id, though its target must be known.
    MissingId,
}

impl<ID, C> Location<ID, C> {
    /// The location of a resource that is being created in `collection`.
    pub open spec fn fresh(collection: C) -> Self {
        Location { id: None, txn_id: None, collection }
    }

    /// The location of the resource `id` of `collection`.
    pub open spec fn of(id: ID, collection: C) -> Self {
        Location { id: Some(id), txn_id: None, collection }
    }
}

impl<T, C> AppendableResource<(), T, C> {
    /// The resource that `data` is when it is appended to `collection`: no id,
    /// no transaction.
    pub open spec fn appended(data: T, collection: C) -> Self {
        AppendableResource { location: Location::fresh(collection), data }
    }
}

impl<ID, T, C> UpdatableResource<ID, T, C> {
    /// The resource that `data` is as the resource `id` of `collection`, outside
    /// any transaction.
    pub open spec fn synced(data: T, id: ID, collection: C) -> Self {
        UpdatableResource { location: Location::of(id, collection), data }
    }
}

impl ResourceId {
    /// The number that the identifier wraps.
    pub fn value(&self) -> (n: u32)
        ensures
            n == self.0,
    {
        self.0
    }
}

impl<ID, T, C> EventVerb<ID, T, C> {
    /// The id is absent on an insert and present on an update or upsert.
    pub open spec fn well_formed(&self) -> bool {
        match *self {
            EventVerb::Insert(r) => r.location.id is None,
            EventVerb::Update(r) => r.location.id is Some,
            EventVerb::Upsert(r) => r.location.id is Some,
            EventVerb::Delete(_) => true,
        }
    }

    /// The fault of a verb that is not well formed.
    pub open spec fn fault(&self) -> Option<MalformedEventError> {
        match *self {
            EventVerb::Insert(r) => if r.location.id is None {
                None
            } else {
                Some(MalformedEventError::UnexpectedId)
            },
            EventVerb::Update(r) | EventVerb::Upsert(r) => if r.location.id is Some {
                None
            } else {
                Some(MalformedEventError::MissingId)
            },
            EventVerb::Delete(_) => None,
        }
    }

    /// The two verbs are of one kind.
    pub open spec fn same_kind(&self, other: &Self) -> bool {
        match (*self, *other) {
            (EventVerb::Insert(_), EventVerb::Insert(_)) => true,
            (EventVerb::Update(_), EventVerb::Update(_)) => true,
            (EventVerb::Upsert(_), EventVerb::Upsert(_)) => true,
            (EventVerb::Delete(_), EventVerb::Delete(_)) => true,
            _ => false,
        }
    }

    /// The snake-case name of the verb's kind, as the wire carries it.
    pub open spec fn kind_name(&self) -> Seq<char> {
        match *self {
            EventVerb::Insert(_) => "insert"@,
            EventVerb::Update(_) => "update"@,
            EventVerb::Upsert(_) => "upsert"@,
            EventVerb::Delete(_) => "delete"@,
        }
    }

    /// An insert of `resource`, refused when the resource already names an id.
    pub fn insert(resource: AppendableResource<ID, T, C>) -> (r: Result<Self, MalformedEventError>)
        ensures
            resource.location.id is None ==> r == Ok::<Self, MalformedEventError>(
                EventVerb::Insert(resource),
            ),
            resource.location.id is Some ==> r == Err::<Self, MalformedEventError>(
                MalformedEventError::UnexpectedId,
            ),
    {
        if resource.location.id.is_none() {
            Ok(EventVerb::Insert(resource))
        } else {
            Err(MalformedEventError::UnexpectedId)
        }
    }

    /// An update of `resource`, refused when the resource names no id.
    pub fn update(resource: UpdatableResource<ID, T, C>) -> (r: Result<Self, MalformedEventError>)
        ensures
            resource.location.id is Some ==> r == Ok::<Self, MalformedEventError>(
                EventVerb::Update(resource),
            ),
            resource.location.id is None ==> r == Err::<Self, MalformedEventError>(
                MalformedEventError::MissingId,
            ),
    {
        if resource.location.id.is_some() {
            Ok(EventVerb::Update(resource))
        } else {
            Err(MalformedEventError::MissingId)
        }
    }

    /// An upsert of `resource`, refused when the resource names no id.
    pub fn upsert(resource: UpdatableResource<ID, T, C>) -> (r: Result<Self, MalformedEventError>)
        ensures
            resource.location.id is Some ==> r == Ok::<Self, MalformedEventError>(
                EventVerb::Upsert(resource),
            ),
            resource.location.id is None ==> r == Err::<Self, MalformedEventError>(
                MalformedEventError::MissingId,
            ),
    {
        if resource.location.id.is_some() {
            Ok(EventVerb::Upsert(resource))
        } else {
            Err(MalformedEventError::MissingId)
        }
    }

    /// The notice that the resource `id` was removed.
    pub fn delete(id: ResourceId) -> (v: Self)
        ensures
            v == EventVerb::<ID, T, C>::Delete(id),
    {
        EventVerb::Delete(id)
    }

    /// Tells whether the verb's kind and the presence of an id agree, and how they do not.
    pub fn validate(&self) -> (r: Result<(), MalformedEventError>)
        ensures
            r is Ok <==> self.well_formed(),
            r matches Err(e) ==> self.fault() == Some(e),
    {
        match self {
            EventVerb::Insert(res) => if res.location.id.is_none() {
                Ok(())
            } else {
                Err(MalformedEventError::UnexpectedId)
            },
            EventVerb::Update(res) => if res.location.id.is_some() {
                Ok(())
            } else {
                Err(MalformedEventError::MissingId)
            },
            EventVerb::Upsert(res) => if res.location.id.is_some() {
                Ok(())
            } else {
                Err(MalformedEventError::MissingId)
            },
            EventVerb::Delete(_) => Ok(()),
        }
    }

    /// The snake-case name of the verb's kind.
    pub fn name(&self) -> (name: &'static str)
        ensures
            name@ == self.kind_name(),
    {
        match self {
            EventVerb::Insert(_) => "insert",
            EventVerb::Update(_) => "update",
            EventVerb::Upsert(_) => "upsert",
            EventVerb::Delete(_) => "delete",
        }
    }
}

impl<ID, T, C> Event<ID, T, C> {
    /// The event that insert-announces `data` as a new resource of `collection`.
    pub open spec fn inserted(data: T, collection: C) -> Self {
        Event {
            verb: EventVerb::Insert(
                AppendableResource { location: Location::fresh(collection), data },
            ),
        }
    }

    /// The event that announces `verb`.
    pub fn new(verb: EventVerb<ID, T, C>) -> (ev: Self)
        ensures
            ev.verb == verb,
    {
        Event { verb }
    }

    /// The event that announces `data` as a new resource of `collection`.
    pub fn new_insert_event(data: T, collection: C) -> (ev: Self)
        ensures
            ev == Self::inserted(data, collection),
            ev.verb.well_formed(),
    {
        let location = Location { id: None, txn_id: None, collection };
        let verb = EventVerb::Insert(AppendableResource { location, data });
        Self::new(verb)
    }

    /// The event, framed for the transport.
    pub fn into_ws_body(self) -> (body: WsBody<Self>)
        ensures
            body.data == self,
    {
        WsBody::new(self)
    }
}

impl<T> WsBody<T> {
    /// The frame around `data`.
    pub fn new(data: T) -> (body: Self)
        ensures
            body.data == data,
    {
        WsBody { data }
    }
}

impl<T> From<T> for WsBody<T> {
    fn from(data: T) -> (body: Self) {
        WsBody::new(data)
    }
}

impl<T> vstd::std_specs::convert::FromSpecImpl<T> for WsBody<T> {
    open spec fn obeys_from_spec() -> bool {
        true
    }

    open spec fn from_spec(data: T) -> Self {
        WsBody { data }
    }
}

} // verus!
