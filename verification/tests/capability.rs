use change_events::capability::{Appendable, Syncable};
use change_events::model::{
    AppendableResource, Event, EventVerb, Location, MalformedEventError, ResourceId,
    UpdatableResource, WsBody,
};

#[derive(Debug, Clone, PartialEq)]
struct DoggoRecord {
    id: u32,
    name: String,
    breed: String,
}

#[allow(dead_code)]
#[derive(Debug, Clone, Copy, PartialEq)]
enum Collection {
    Dogs,
    Cats,
}

impl Appendable for DoggoRecord {
    type Collection = Collection;

    fn collection(&self) -> Collection {
        Collection::Dogs
    }
}

impl Syncable for DoggoRecord {
    type Id = u32;

    fn id(&self) -> u32 {
        self.id
    }
}

fn barky() -> DoggoRecord {
    DoggoRecord { id: 1, name: "Barky".to_string(), breed: "Poodle".to_string() }
}

fn rex() -> DoggoRecord {
    DoggoRecord { id: 4_000_000_000, name: "Rex".to_string(), breed: "Boxer".to_string() }
}

#[test]
fn insert_event_names_no_id_and_the_own_collection() {
    let event = barky().to_insert_event();
    match event.verb {
        EventVerb::Insert(resource) => {
            assert_eq!(resource.location.id, None);
            assert_eq!(resource.location.txn_id, None);
            assert_eq!(resource.location.collection, Collection::Dogs);
            assert_eq!(resource.data, barky());
        }
        _ => panic!("an insert event carries the insert verb"),
    }
}

#[test]
fn upsert_event_names_the_own_id() {
    let event = rex().to_upsert_event();
    match event.verb {
        EventVerb::Upsert(resource) => {
            assert_eq!(resource.location.id, Some(4_000_000_000));
            assert_eq!(resource.location.txn_id, None);
            assert_eq!(resource.location.collection, Collection::Dogs);
            assert_eq!(resource.data, rex());
        }
        _ => panic!("an upsert event carries the upsert verb"),
    }
}

#[test]
fn update_event_names_the_own_id() {
    let event = barky().to_update_event();
    match event.verb {
        EventVerb::Update(resource) => {
            assert_eq!(resource.location.id, Some(1));
            assert_eq!(resource.location.txn_id, None);
            assert_eq!(resource.location.collection, Collection::Dogs);
            assert_eq!(resource.data, barky());
        }
        _ => panic!("an update event carries the update verb"),
    }
}

#[test]
fn to_event_hands_the_appended_resource_to_the_builder() {
    let event = Appendable::to_event(barky(), |resource| {
        assert_eq!(resource.location.id, None);
        assert_eq!(resource.location.txn_id, None);
        assert_eq!(resource.location.collection, Collection::Dogs);
        EventVerb::Insert(resource)
    });
    assert!(matches!(event.verb, EventVerb::Insert(_)));
    assert!(event.verb.validate().is_ok());
}

#[test]
fn to_sync_event_hands_the_identified_resource_to_the_builder() {
    let event = barky().to_sync_event(|resource| {
        assert_eq!(resource.location.id, Some(1));
        assert_eq!(resource.location.txn_id, None);
        assert_eq!(resource.location.collection, Collection::Dogs);
        EventVerb::Update(resource)
    });
    assert!(matches!(event.verb, EventVerb::Update(_)));
    assert!(event.verb.validate().is_ok());
}

#[test]
fn new_insert_event_matches_the_capability() {
    let event: Event<(), DoggoRecord, Collection> =
        Event::new_insert_event(barky(), Collection::Cats);
    match event.verb {
        EventVerb::Insert(resource) => {
            assert_eq!(resource.location.id, None);
            assert_eq!(resource.location.txn_id, None);
            assert_eq!(resource.location.collection, Collection::Cats);
            assert_eq!(resource.data, barky());
        }
        _ => panic!("an insert event carries the insert verb"),
    }
}

#[test]
fn update_without_id_is_refused() {
    let resource = UpdatableResource {
        location: Location { id: None::<u32>, txn_id: None, collection: Collection::Dogs },
        data: barky(),
    };
    let verb = EventVerb::update(resource);
    assert!(matches!(verb, Err(MalformedEventError::MissingId)));
}

#[test]
fn upsert_without_id_is_refused() {
    let resource = UpdatableResource {
        location: Location { id: None::<u32>, txn_id: Some(3), collection: Collection::Dogs },
        data: barky(),
    };
    let verb = EventVerb::upsert(resource);
    assert!(matches!(verb, Err(MalformedEventError::MissingId)));
}

#[test]
fn insert_with_id_is_refused() {
    let resource = AppendableResource {
        location: Location { id: Some(1u32), txn_id: None, collection: Collection::Dogs },
        data: barky(),
    };
    let verb = EventVerb::insert(resource);
    assert!(matches!(verb, Err(MalformedEventError::UnexpectedId)));
}

#[test]
fn checked_constructors_accept_matching_resources() {
    let fresh = AppendableResource {
        location: Location { id: None::<u32>, txn_id: None, collection: Collection::Dogs },
        data: barky(),
    };
    assert!(matches!(EventVerb::insert(fresh), Ok(EventVerb::Insert(_))));
    let known = UpdatableResource {
        location: Location { id: Some(1u32), txn_id: None, collection: Collection::Dogs },
        data: barky(),
    };
    assert!(matches!(EventVerb::update(known.clone()), Ok(EventVerb::Update(_))));
    assert!(matches!(EventVerb::upsert(known), Ok(EventVerb::Upsert(_))));
    let gone: EventVerb<u32, DoggoRecord, Collection> = EventVerb::delete(ResourceId(9));
    assert!(matches!(gone, EventVerb::Delete(ResourceId(9))));
    assert_eq!(ResourceId(9).value(), 9);
}

#[test]
fn validate_tells_how_a_verb_is_malformed() {
    let with_id: EventVerb<u32, DoggoRecord, Collection> = EventVerb::Insert(AppendableResource {
        location: Location { id: Some(1), txn_id: None, collection: Collection::Dogs },
        data: barky(),
    });
    assert_eq!(with_id.validate(), Err(MalformedEventError::UnexpectedId));
    let without_id: EventVerb<u32, DoggoRecord, Collection> =
        EventVerb::Upsert(UpdatableResource {
            location: Location { id: None, txn_id: None, collection: Collection::Dogs },
            data: barky(),
        });
    assert_eq!(without_id.validate(), Err(MalformedEventError::MissingId));
    let gone: EventVerb<u32, DoggoRecord, Collection> = EventVerb::Delete(ResourceId(1));
    assert_eq!(gone.validate(), Ok(()));
}

#[test]
fn verb_names_are_snake_case() {
    let insert = barky().to_insert_event();
    assert_eq!(insert.verb.name(), "insert");
    let update = barky().to_update_event();
    assert_eq!(update.verb.name(), "update");
    let upsert = barky().to_upsert_event();
    assert_eq!(upsert.verb.name(), "upsert");
    let gone: EventVerb<u32, DoggoRecord, Collection> = EventVerb::Delete(ResourceId(1));
    assert_eq!(gone.name(), "delete");
}

#[test]
fn frames_own_what_they_wrap() {
    let event = barky().to_insert_event();
    let body = event.into_ws_body();
    assert!(matches!(body.data.verb, EventVerb::Insert(_)));
    let body: WsBody<u32> = WsBody::from(7);
    assert_eq!(body.data, 7);
    let body = WsBody::new("x");
    assert_eq!(body.data, "x");
}
