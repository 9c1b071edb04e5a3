//! The state engine: how one telemetry record after another changes the
//! airspace picture.

use crate::state::{Coords, ObjectView, Scalar, StateView, TacviewObject, TacviewState, Tag};
use vstd::prelude::*;

verus! {

// ---------------------------------------------------------------------------
// Records
// ---------------------------------------------------------------------------

/// A property of the whole telemetry session.
#[derive(Clone, Copy, Debug)]
pub enum GlobalProperty {
    /// The longitude that all reported longitudes are offsets from.
    ReferenceLongitude(Scalar),
    /// The latitude that all reported latitudes are offsets from.
    ReferenceLatitude(Scalar),
    /// Any other property; the picture does not keep it.
    Other,
}

/// A change to one property of one object.
#[derive(Debug)]
pub enum ObjectProperty {
    /// The axes that changed.
    T(Coords),
    /// The classification tags, all of them.
    Type(Vec<Tag>),
    /// The type designator.
    Name(String),
    /// The callsign shown for the pilot.
    Pilot(String),
    /// The telemetry's label for the side.
    Coalition(String),
    /// Any other property; the picture does not keep it.
    Other,
}

/// One record of the telemetry stream.
#[derive(Debug)]
pub enum Record {
    /// The object left the airspace.
    Remove(u64),
    /// A time mark.
    Frame,
    /// An event.
    Event,
    /// Properties of the session.
    GlobalProperties(Vec<GlobalProperty>),
    /// Changes to the properties of one object.
    Update(u64, Vec<ObjectProperty>),
}

/// The mathematical content of an [`ObjectProperty`].
pub enum PropertyView {
    T(Coords),
    Type(Set<Tag>),
    Name(Seq<char>),
    Pilot(Seq<char>),
    Coalition(Seq<char>),
    Other,
}

/// The mathematical content of a [`Record`].
pub enum RecordView {
    Remove(u64),
    Frame,
    Event,
    GlobalProperties(Seq<GlobalProperty>),
    Update(u64, Seq<PropertyView>),
}

impl View for ObjectProperty {
    type V = PropertyView;

    open spec fn view(&self) -> PropertyView {
        match self {
            ObjectProperty::T(coords) => PropertyView::T(*coords),
            ObjectProperty::Type(tags) => PropertyView::Type(tags@.to_set()),
            ObjectProperty::Name(name) => PropertyView::Name(name@),
            ObjectProperty::Pilot(pilot) => PropertyView::Pilot(pilot@),
            ObjectProperty::Coalition(coalition) => PropertyView::Coalition(coalition@),
            ObjectProperty::Other => PropertyView::Other,
        }
    }
}

/// The contents of a list of property changes.
pub open spec fn property_views(properties: Seq<ObjectProperty>) -> Seq<PropertyView> {
    properties.map_values(|p: ObjectProperty| p@)
}

impl View for Record {
    type V = RecordView;

    open spec fn view(&self) -> RecordView {
        match self {
            Record::Remove(id) => RecordView::Remove(*id),
            Record::Frame => RecordView::Frame,
            Record::Event => RecordView::Event,
            Record::GlobalProperties(properties) => RecordView::GlobalProperties(properties@),
            Record::Update(id, properties) => RecordView::Update(*id, property_views(properties@)),
        }
    }
}

// ---------------------------------------------------------------------------
// What a record does
// ---------------------------------------------------------------------------

/// The object after one property change: reported axes replace the known
/// ones, the tags are replaced as a whole, a text replaces the text.
pub open spec fn with_property(object: ObjectView, property: PropertyView) -> ObjectView {
    match property {
        PropertyView::T(delta) => ObjectView { coords: object.coords.merged(delta), ..object },
        PropertyView::Type(tags) => ObjectView { ty: tags, ..object },
        PropertyView::Name(name) => ObjectView { name: Some(name), ..object },
        PropertyView::Pilot(pilot) => ObjectView { pilot: Some(pilot), ..object },
        PropertyView::Coalition(coalition) => ObjectView { coalition: Some(coalition), ..object },
        PropertyView::Other => object,
    }
}

/// The object after a list of property changes, applied first to last.
pub open spec fn with_properties(object: ObjectView, properties: Seq<PropertyView>) -> ObjectView
    decreases properties.len(),
{
    if properties.len() == 0 {
        object
    } else {
        with_property(with_properties(object, properties.drop_last()), properties.last())
    }
}

/// Whether a session property sets the reference origin.
pub open spec fn sets_reference(property: GlobalProperty) -> bool {
    property is ReferenceLongitude || property is ReferenceLatitude
}

/// The picture after one session property: a new reference origin is stored
/// and every object is dropped, since offsets from the old origin mean
/// nothing against the new one.
pub open spec fn with_global(picture: StateView, property: GlobalProperty) -> StateView {
    match property {
        GlobalProperty::ReferenceLongitude(longitude) => StateView {
            reference_longitude: Some(longitude),
            objects: Map::empty(),
            ..picture
        },
        GlobalProperty::ReferenceLatitude(latitude) => StateView {
            reference_latitude: Some(latitude),
            objects: Map::empty(),
            ..picture
        },
        GlobalProperty::Other => picture,
    }
}

/// The picture after a list of session properties, applied first to last.
pub open spec fn with_globals(picture: StateView, properties: Seq<GlobalProperty>) -> StateView
    decreases properties.len(),
{
    if properties.len() == 0 {
        picture
    } else {
        with_global(with_globals(picture, properties.drop_last()), properties.last())
    }
}

/// The object that an update of `id` starts from: the known one, or a blank
/// one.
pub open spec fn object_or_blank(picture: StateView, id: u64) -> ObjectView {
    if picture.objects.contains_key(id) {
        picture.objects[id]
    } else {
        ObjectView::blank()
    }
}

/// The picture after one record.
pub open spec fn after(picture: StateView, record: RecordView) -> StateView {
    match record {
        RecordView::Remove(id) => StateView { objects: picture.objects.remove(id), ..picture },
        RecordView::Frame => picture,
        RecordView::Event => picture,
        RecordView::GlobalProperties(properties) => with_globals(picture, properties),
        RecordView::Update(id, properties) => StateView {
            objects: picture.objects.insert(
                id,
                with_properties(object_or_blank(picture, id), properties),
            ),
            ..picture
        },
    }
}

/// The picture after a list of records, applied first to last.
pub open spec fn after_all(picture: StateView, records: Seq<RecordView>) -> StateView
    decreases records.len(),
{
    if records.len() == 0 {
        picture
    } else {
        after(after_all(picture, records.drop_last()), records.last())
    }
}

impl TacviewObject {
    /// Applies one property change.
    pub fn apply(&mut self, property: ObjectProperty)
        ensures
            final(self)@ == with_property(old(self)@, property@),
    {
        match property {
            ObjectProperty::T(delta) => {
                self.coords.update(&delta);
            },
            ObjectProperty::Type(tags) => {
                self.ty = tags;
            },
            ObjectProperty::Name(name) => {
                self.name = Some(name);
            },
            ObjectProperty::Pilot(pilot) => {
                self.pilot = Some(pilot);
            },
            ObjectProperty::Coalition(coalition) => {
                self.coalition = Some(coalition);
            },
            ObjectProperty::Other => {},
        }
    }

    /// Applies a list of property changes, first to last.
    pub fn apply_all(&mut self, properties: Vec<ObjectProperty>)
        ensures
            final(self)@ == with_properties(old(self)@, property_views(properties@)),
    {
        let ghost all = property_views(properties@);
        let ghost start = self@;
        proof {
            assert(all.take(0) =~= Seq::<PropertyView>::empty());
        }
        for property in it: properties
            invariant
                property_views(it.seq()) == all,
                self@ == with_properties(start, all.take(it.index())),
        {
            proof {
                let next = all.take(it.index() + 1);
                assert(next.drop_last() =~= all.take(it.index()));
                assert(next.last() == property@);
            }
            self.apply(property);
        }
        proof {
            assert(all.take(all.len() as int) =~= all);
        }
    }
}

impl TacviewState {
    /// Applies one session property.
    pub fn apply_global(&mut self, property: GlobalProperty)
        ensures
            final(self)@ == with_global(old(self)@, property),
    {
        match property {
            GlobalProperty::ReferenceLongitude(longitude) => {
                self.reference_longitude = Some(longitude);
                self.objects.clear();
                proof {
                    assert(self@.objects =~= Map::<u64, ObjectView>::empty());
                }
            },
            GlobalProperty::ReferenceLatitude(latitude) => {
                self.reference_latitude = Some(latitude);
                self.objects.clear();
                proof {
                    assert(self@.objects =~= Map::<u64, ObjectView>::empty());
                }
            },
            GlobalProperty::Other => {},
        }
    }

    /// Applies one record of the telemetry stream.
    pub fn apply(&mut self, record: Record)
        ensures
            final(self)@ == after(old(self)@, record@),
    {
        match record {
            Record::Remove(id) => {
                self.objects.remove(&id);
                proof {
                    assert(self@.objects =~= old(self)@.objects.remove(id));
                }
            },
            Record::Frame => {},
            Record::Event => {},
            Record::GlobalProperties(properties) => {
                let ghost start = self@;
                let mut i: usize = 0;
                proof {
                    assert(properties@.take(0) =~= Seq::<GlobalProperty>::empty());
                }
                while i < properties.len()
                    invariant
                        i <= properties.len(),
                        self@ == with_globals(start, properties@.take(i as int)),
                    decreases properties.len() - i,
                {
                    proof {
                        let next = properties@.take(i + 1);
                        assert(next.drop_last() =~= properties@.take(i as int));
                        assert(next.last() == properties@[i as int]);
                    }
                    self.apply_global(properties[i]);
                    i += 1;
                }
                proof {
                    assert(properties@.take(properties.len() as int) =~= properties@);
                }
            },
            Record::Update(id, properties) => {
                let mut object = match self.objects.remove(&id) {
                    Some(known) => known,
                    None => TacviewObject::new(),
                };
                proof {
                    assert(object@ == object_or_blank(old(self)@, id));
                }
                object.apply_all(properties);
                let ghost updated = object@;
                self.objects.insert(id, object);
                proof {
                    assert(self@.objects =~= old(self)@.objects.insert(id, updated));
                }
            },
        }
    }
}

// ---------------------------------------------------------------------------
// What holds of every stream
// ---------------------------------------------------------------------------

/// Session properties that set no reference origin leave the objects alone;
/// if one of them sets a reference origin, no object is left.
pub proof fn lemma_globals_keep_or_clear(picture: StateView, properties: Seq<GlobalProperty>)
    ensures
        with_globals(picture, properties).objects == if exists|i: int|
            0 <= i < properties.len() && sets_reference(#[trigger] properties[i]) {
            Map::<u64, ObjectView>::empty()
        } else {
            picture.objects
        },
    decreases properties.len(),
{
    if properties.len() > 0 {
        let before = properties.drop_last();
        lemma_globals_keep_or_clear(picture, before);
        if sets_reference(properties.last()) {
            assert(sets_reference(properties[properties.len() - 1]));
        } else if exists|i: int| 0 <= i < before.len() && sets_reference(#[trigger] before[i]) {
            let i = choose|i: int| 0 <= i < before.len() && sets_reference(#[trigger] before[i]);
            assert(sets_reference(properties[i]));
        } else {
            assert forall|i: int| 0 <= i < properties.len() implies !sets_reference(
                #[trigger] properties[i],
            ) by {
                if i < before.len() {
                    assert(before[i] == properties[i]);
                }
            }
        }
    }
}

/// Right after a record that carries a reference longitude or a reference
/// latitude the picture holds no object, whatever it held before.
pub proof fn lemma_reference_clears_objects(picture: StateView, properties: Seq<GlobalProperty>)
    requires
        exists|i: int| 0 <= i < properties.len() && sets_reference(#[trigger] properties[i]),
    ensures
        after(picture, RecordView::GlobalProperties(properties)).objects == Map::<
            u64,
            ObjectView,
        >::empty(),
{
    lemma_globals_keep_or_clear(picture, properties);
}

/// The last value that a sequence of optional values supplies.
pub open spec fn last_some<V>(values: Seq<Option<V>>) -> Option<V>
    decreases values.len(),
{
    if values.len() == 0 {
        None
    } else if values.last() is Some {
        values.last()
    } else {
        last_some(values.drop_last())
    }
}

/// `last_some` is the value at the last position that holds one.
pub proof fn lemma_last_some<V>(values: Seq<Option<V>>)
    ensures
        match last_some(values) {
            Some(v) => exists|i: int|
                0 <= i < values.len() && #[trigger] values[i] == Some(v) && forall|j: int|
                    i < j < values.len() ==> #[trigger] values[j] is None,
            None => forall|i: int| 0 <= i < values.len() ==> #[trigger] values[i] is None,
        },
    decreases values.len(),
{
    if values.len() > 0 {
        let n = values.len() - 1;
        if values.last() is Some {
            assert(values[n] == values.last());
        } else {
            let before = values.drop_last();
            lemma_last_some(before);
            match last_some(before) {
                Some(v) => {
                    let i = choose|i: int|
                        0 <= i < before.len() && #[trigger] before[i] == Some(v) && forall|j: int|
                            i < j < before.len() ==> #[trigger] before[j] is None;
                    assert(values[i] == Some(v));
                    assert forall|j: int| i < j < values.len() implies #[trigger] values[j]
                        is None by {
                        if j < n {
                            assert(before[j] is None);
                        }
                    }
                },
                None => {
                    assert forall|i: int| 0 <= i < values.len() implies #[trigger] values[i]
                        is None by {
                        if i < n {
                            assert(before[i] is None);
                        }
                    }
                },
            }
        }
    }
}

/// The longitude that a property change supplies.
pub open spec fn longitude_in() -> spec_fn(PropertyView) -> Option<Scalar> {
    |p: PropertyView|
        match p {
            PropertyView::T(delta) => delta.longitude,
            _ => None,
        }
}

/// The latitude that a property change supplies.
pub open spec fn latitude_in() -> spec_fn(PropertyView) -> Option<Scalar> {
    |p: PropertyView|
        match p {
            PropertyView::T(delta) => delta.latitude,
            _ => None,
        }
}

/// The altitude that a property change supplies.
pub open spec fn altitude_in() -> spec_fn(PropertyView) -> Option<Scalar> {
    |p: PropertyView|
        match p {
            PropertyView::T(delta) => delta.altitude,
            _ => None,
        }
}

/// The heading that a property change supplies.
pub open spec fn heading_in() -> spec_fn(PropertyView) -> Option<Scalar> {
    |p: PropertyView|
        match p {
            PropertyView::T(delta) => delta.heading,
            _ => None,
        }
}

/// The tags that a property change supplies.
pub open spec fn tags_in() -> spec_fn(PropertyView) -> Option<Set<Tag>> {
    |p: PropertyView|
        match p {
            PropertyView::Type(tags) => Some(tags),
            _ => None,
        }
}

/// The type designator that a property change supplies.
pub open spec fn name_in() -> spec_fn(PropertyView) -> Option<Seq<char>> {
    |p: PropertyView|
        match p {
            PropertyView::Name(name) => Some(name),
            _ => None,
        }
}

/// The pilot's callsign that a property change supplies.
pub open spec fn pilot_in() -> spec_fn(PropertyView) -> Option<Seq<char>> {
    |p: PropertyView|
        match p {
            PropertyView::Pilot(pilot) => Some(pilot),
            _ => None,
        }
}

/// The side's label that a property change supplies.
pub open spec fn coalition_in() -> spec_fn(PropertyView) -> Option<Seq<char>> {
    |p: PropertyView|
        match p {
            PropertyView::Coalition(coalition) => Some(coalition),
            _ => None,
        }
}

/// The object in which every field holds the last value that `changes`
/// supplies for it, and nothing where they supply none.
pub open spec fn settled(changes: Seq<PropertyView>) -> ObjectView {
    ObjectView {
        coords: Coords {
            longitude: last_some(changes.map_values(longitude_in())),
            latitude: last_some(changes.map_values(latitude_in())),
            altitude: last_some(changes.map_values(altitude_in())),
            heading: last_some(changes.map_values(heading_in())),
        },
        ty: match last_some(changes.map_values(tags_in())) {
            Some(tags) => tags,
            None => Set::empty(),
        },
        name: last_some(changes.map_values(name_in())),
        pilot: last_some(changes.map_values(pilot_in())),
        coalition: last_some(changes.map_values(coalition_in())),
    }
}

/// The property changes that the updates of `id` among `records` carry, in
/// the order of the stream.
pub open spec fn changes_of(records: Seq<RecordView>, id: u64) -> Seq<PropertyView>
    decreases records.len(),
{
    if records.len() == 0 {
        Seq::empty()
    } else {
        let before = changes_of(records.drop_last(), id);
        match records.last() {
            RecordView::Update(updated, properties) if updated == id => before + properties,
            _ => before,
        }
    }
}

/// Whether one of `records` is an update of `id`.
pub open spec fn updates(records: Seq<RecordView>, id: u64) -> bool {
    exists|i: int|
        0 <= i < records.len() && #[trigger] records[i] is Update && records[i]->Update_0 == id
}

/// One more value at the end of a mapped sequence.
proof fn lemma_map_push<V>(
    changes: Seq<PropertyView>,
    property: PropertyView,
    pick: spec_fn(PropertyView) -> Option<V>,
)
    ensures
        last_some(changes.push(property).map_values(pick)) == if pick(property) is Some {
            pick(property)
        } else {
            last_some(changes.map_values(pick))
        },
{
    let all = changes.push(property).map_values(pick);
    assert(all.last() == pick(property));
    assert(all.drop_last() =~= changes.map_values(pick));
}

/// One more change to a settled object settles it again.
proof fn lemma_settled_push(changes: Seq<PropertyView>, property: PropertyView)
    ensures
        with_property(settled(changes), property) == settled(changes.push(property)),
{
    lemma_map_push(changes, property, longitude_in());
    lemma_map_push(changes, property, latitude_in());
    lemma_map_push(changes, property, altitude_in());
    lemma_map_push(changes, property, heading_in());
    lemma_map_push(changes, property, tags_in());
    lemma_map_push(changes, property, name_in());
    lemma_map_push(changes, property, pilot_in());
    lemma_map_push(changes, property, coalition_in());
}

/// Further changes to a settled object settle it again.
proof fn lemma_settled_append(changes: Seq<PropertyView>, more: Seq<PropertyView>)
    ensures
        with_properties(settled(changes), more) == settled(changes + more),
    decreases more.len(),
{
    if more.len() == 0 {
        assert(changes + more =~= changes);
    } else {
        lemma_settled_append(changes, more.drop_last());
        lemma_settled_push(changes + more.drop_last(), more.last());
        assert((changes + more.drop_last()).push(more.last()) =~= changes + more);
    }
}

/// A blank object is the one that no change has settled.
proof fn lemma_settled_nothing()
    ensures
        settled(Seq::empty()) == ObjectView::blank(),
{
    let none = Seq::<PropertyView>::empty();
    assert(none.map_values(longitude_in()) =~= Seq::empty());
    assert(none.map_values(latitude_in()) =~= Seq::empty());
    assert(none.map_values(altitude_in()) =~= Seq::empty());
    assert(none.map_values(heading_in()) =~= Seq::empty());
    assert(none.map_values(tags_in()) =~= Seq::empty());
    assert(none.map_values(name_in()) =~= Seq::empty());
    assert(none.map_values(pilot_in()) =~= Seq::empty());
    assert(none.map_values(coalition_in()) =~= Seq::empty());
}

/// Last write wins, field by field: after any sequence of update records
/// applied to the empty picture, an object is known exactly if one of the
/// records updates it, and each of its fields holds the last value that the
/// stream supplied for that field.
pub proof fn lemma_last_write_wins(records: Seq<RecordView>, id: u64)
    requires
        forall|i: int| 0 <= i < records.len() ==> #[trigger] records[i] is Update,
    ensures
        after_all(StateView::empty(), records).objects.contains_key(id) <==> updates(records, id),
        updates(records, id) ==> after_all(StateView::empty(), records).objects[id] == settled(
            changes_of(records, id),
        ),
    decreases records.len(),
{
    if records.len() == 0 {
    } else {
        let before = records.drop_last();
        let n = records.len() - 1;
        assert forall|i: int| 0 <= i < before.len() implies #[trigger] before[i] is Update by {
            assert(before[i] == records[i]);
        }
        lemma_last_write_wins(before, id);
        let picture = after_all(StateView::empty(), before);
        assert(records[n] is Update);
        let updated = records.last()->Update_0;
        let properties = records.last()->Update_1;
        if updates(before, id) {
            let i = choose|i: int|
                0 <= i < before.len() && #[trigger] before[i] is Update && before[i]->Update_0
                    == id;
            assert(records[i] is Update && records[i]->Update_0 == id);
        }
        if updated == id {
            assert(records[n] is Update && records[n]->Update_0 == id);
            if updates(before, id) {
                lemma_settled_append(changes_of(before, id), properties);
            } else {
                assert forall|i: int| 0 <= i < before.len() implies !(#[trigger] before[i]
                    is Update && before[i]->Update_0 == id) by {}
                lemma_no_update_no_change(before, id);
                lemma_settled_nothing();
                lemma_settled_append(Seq::empty(), properties);
                assert(Seq::<PropertyView>::empty() + properties =~= properties);
                assert(changes_of(before, id) + properties =~= properties);
            }
        } else {
            if updates(records, id) {
                let i = choose|i: int|
                    0 <= i < records.len() && #[trigger] records[i] is Update
                        && records[i]->Update_0 == id;
                assert(i < n);
                assert(before[i] is Update && before[i]->Update_0 == id);
            }
        }
    }
}

/// Records that never update `id` carry no change of it.
proof fn lemma_no_update_no_change(records: Seq<RecordView>, id: u64)
    requires
        !updates(records, id),
    ensures
        changes_of(records, id) == Seq::<PropertyView>::empty(),
    decreases records.len(),
{
    if records.len() > 0 {
        let before = records.drop_last();
        let n = records.len() - 1;
        if updates(before, id) {
            let i = choose|i: int|
                0 <= i < before.len() && #[trigger] before[i] is Update && before[i]->Update_0
                    == id;
            assert(records[i] is Update && records[i]->Update_0 == id);
        }
        lemma_no_update_no_change(before, id);
        if records.last() is Update && records.last()->Update_0 == id {
            assert(records[n] is Update && records[n]->Update_0 == id);
        }
    }
}

} // verus!
