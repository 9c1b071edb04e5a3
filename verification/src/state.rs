//! The airspace picture: what is known of each object, and the questions the
//! controller puts to it.

use crate::ordered::{
    entries_in_order, entry_ids, ids_in_order, lemma_filter_first, lemma_filter_step,
};
use crate::text::{contains, normalize_callsign, normalized, occurs_in, same_text};
use std::collections::BTreeMap;
use vstd::prelude::*;

verus! {

// ---------------------------------------------------------------------------
// Coordinates
// ---------------------------------------------------------------------------

/// A double-precision number, held by its IEEE 754 bit pattern. The picture
/// stores and hands on such numbers; it never computes with them.
#[derive(Clone, Copy, Debug, PartialEq, Eq, Structural)]
pub struct Scalar {
    pub bits: u64,
}

/// Where an object is and where it points. Each axis is unknown until the
/// telemetry reports it; until the reference origin is known, longitude and
/// latitude are offsets from it.
#[derive(Clone, Copy, Debug)]
pub struct Coords {
    pub longitude: Option<Scalar>,
    pub latitude: Option<Scalar>,
    pub altitude: Option<Scalar>,
    pub heading: Option<Scalar>,
}

impl Coords {
    /// Nothing known.
    pub open spec fn unknown() -> Coords {
        Coords { longitude: None, latitude: None, altitude: None, heading: None }
    }

    /// `self` with every axis that `delta` reports taken from `delta`.
    pub open spec fn merged(self, delta: Coords) -> Coords {
        Coords {
            longitude: if delta.longitude is Some {
                delta.longitude
            } else {
                self.longitude
            },
            latitude: if delta.latitude is Some {
                delta.latitude
            } else {
                self.latitude
            },
            altitude: if delta.altitude is Some {
                delta.altitude
            } else {
                self.altitude
            },
            heading: if delta.heading is Some {
                delta.heading
            } else {
                self.heading
            },
        }
    }

    /// All four axes are known.
    pub open spec fn complete(self) -> bool {
        self.longitude is Some && self.latitude is Some && self.altitude is Some
            && self.heading is Some
    }

    /// Coordinates of which nothing is known.
    pub fn new() -> (r: Coords)
        ensures
            r == Coords::unknown(),
    {
        Coords { longitude: None, latitude: None, altitude: None, heading: None }
    }

    /// Takes over the axes that `delta` reports and keeps the others.
    pub fn update(&mut self, delta: &Coords)
        ensures
            *final(self) == old(self).merged(*delta),
    {
        if delta.longitude.is_some() {
            self.longitude = delta.longitude;
        }
        if delta.latitude.is_some() {
            self.latitude = delta.latitude;
        }
        if delta.altitude.is_some() {
            self.altitude = delta.altitude;
        }
        if delta.heading.is_some() {
            self.heading = delta.heading;
        }
    }

    /// Whether all four axes are known.
    pub fn is_complete(&self) -> (r: bool)
        ensures
            r == self.complete(),
    {
        self.longitude.is_some() && self.latitude.is_some() && self.altitude.is_some()
            && self.heading.is_some()
    }
}

impl Default for Coords {
    fn default() -> (r: Coords)
        ensures
            r == Coords::unknown(),
    {
        Coords::new()
    }
}

// ---------------------------------------------------------------------------
// Objects
// ---------------------------------------------------------------------------

/// A classification tag of a telemetry object.
#[derive(Clone, Copy, Debug, PartialEq, Eq, Hash, Structural)]
pub enum Tag {
    Air,
    Ground,
    Sea,
    Weapon,
    Sensor,
    Navaid,
    Misc,
    Static,
    Heavy,
    Medium,
    Light,
    Minor,
    FixedWing,
    Rotorcraft,
    Armor,
    AntiAircraft,
    Vehicle,
    Watercraft,
    Human,
    Biologic,
    Missile,
    Rocket,
    Bomb,
    Torpedo,
    Projectile,
    Beam,
    Decoy,
    Building,
    Bullseye,
    Waypoint,
    Tank,
    Warship,
    AircraftCarrier,
    Submarine,
    Infantry,
    Parachutist,
    Shell,
    Bullet,
    Grenade,
    Flare,
    Chaff,
    SmokeGrenade,
    Aerodrome,
    Container,
    Shrapnel,
    Explosion,
}

/// What the picture holds of one object.
#[derive(Debug)]
pub struct TacviewObject {
    pub coords: Coords,
    /// The classification tags, as last reported. They are a set: how often
    /// and in which order a tag stands here means nothing.
    pub ty: Vec<Tag>,
    /// The type designator.
    pub name: Option<String>,
    /// The callsign shown for the pilot.
    pub pilot: Option<String>,
    /// The telemetry's label for the side.
    pub coalition: Option<String>,
}

/// The mathematical content of a [`TacviewObject`].
pub struct ObjectView {
    pub coords: Coords,
    pub ty: Set<Tag>,
    pub name: Option<Seq<char>>,
    pub pilot: Option<Seq<char>>,
    pub coalition: Option<Seq<char>>,
}

/// The characters of an optional text.
pub open spec fn text_of(t: Option<String>) -> Option<Seq<char>> {
    match t {
        Some(s) => Some(s@),
        None => None,
    }
}

impl ObjectView {
    /// An object of which nothing is known yet.
    pub open spec fn blank() -> ObjectView {
        ObjectView {
            coords: Coords::unknown(),
            ty: Set::empty(),
            name: None,
            pilot: None,
            coalition: None,
        }
    }

    /// An aircraft of the side that the telemetry labels `coalition`.
    pub open spec fn is_air_of(self, coalition: Seq<char>) -> bool {
        self.ty.contains(Tag::Air) && self.coalition == Some(coalition)
    }

    /// The pilot's callsign, normalised, holds the normalised `callsign`.
    pub open spec fn answers_to(self, callsign: Seq<char>) -> bool {
        match self.pilot {
            Some(pilot) => occurs_in(normalized(pilot), normalized(callsign)),
            None => false,
        }
    }
}

impl View for TacviewObject {
    type V = ObjectView;

    open spec fn view(&self) -> ObjectView {
        ObjectView {
            coords: self.coords,
            ty: self.ty@.to_set(),
            name: text_of(self.name),
            pilot: text_of(self.pilot),
            coalition: text_of(self.coalition),
        }
    }
}

impl TacviewObject {
    /// An object of which nothing is known yet.
    pub fn new() -> (r: TacviewObject)
        ensures
            r@ == ObjectView::blank(),
    {
        let r = TacviewObject {
            coords: Coords::new(),
            ty: Vec::new(),
            name: None,
            pilot: None,
            coalition: None,
        };
        proof {
            assert(r.ty@.to_set() =~= Set::<Tag>::empty());
        }
        r
    }

    /// Whether the object is tagged as an aircraft.
    pub fn is_air(&self) -> (r: bool)
        ensures
            r == self@.ty.contains(Tag::Air),
    {
        let mut i: usize = 0;
        while i < self.ty.len()
            invariant
                i <= self.ty.len(),
                forall|k: int| 0 <= k < i ==> self.ty@[k] != Tag::Air,
            decreases self.ty.len() - i,
        {
            if self.ty[i] == Tag::Air {
                proof {
                    assert(self.ty@.contains(Tag::Air));
                }
                return true;
            }
            i += 1;
        }
        false
    }

    /// Whether the telemetry files the object under the label `coalition`.
    pub fn in_coalition(&self, coalition: &str) -> (r: bool)
        ensures
            r == (self@.coalition == Some(coalition@)),
    {
        match &self.coalition {
            Some(label) => same_text(label.as_str(), coalition),
            None => false,
        }
    }

    /// Whether the pilot's callsign, normalised, holds `needle`.
    pub fn pilot_matches(&self, needle: &Vec<char>) -> (r: bool)
        ensures
            r == match self@.pilot {
                Some(pilot) => occurs_in(normalized(pilot), needle@),
                None => false,
            },
    {
        match &self.pilot {
            Some(pilot) => {
                let hay = normalize_callsign(pilot.as_str());
                contains(&hay, needle)
            },
            None => false,
        }
    }
}

impl Default for TacviewObject {
    fn default() -> (r: TacviewObject)
        ensures
            r@ == ObjectView::blank(),
    {
        TacviewObject::new()
    }
}

// ---------------------------------------------------------------------------
// The picture
// ---------------------------------------------------------------------------

/// Everything the controller knows of the airspace.
#[derive(Debug)]
pub struct TacviewState {
    pub reference_longitude: Option<Scalar>,
    pub reference_latitude: Option<Scalar>,
    pub objects: BTreeMap<u64, TacviewObject>,
}

/// The mathematical content of a [`TacviewState`].
pub struct StateView {
    pub reference_longitude: Option<Scalar>,
    pub reference_latitude: Option<Scalar>,
    pub objects: Map<u64, ObjectView>,
}

/// The predicate "is an aircraft of `coalition`".
pub open spec fn air_of(coalition: Seq<char>) -> spec_fn(ObjectView) -> bool {
    |o: ObjectView| o.is_air_of(coalition)
}

/// The predicate "is an aircraft of `coalition` that answers to `callsign`".
pub open spec fn air_answering(callsign: Seq<char>, coalition: Seq<char>) -> spec_fn(
    ObjectView,
) -> bool {
    |o: ObjectView| o.is_air_of(coalition) && o.answers_to(callsign)
}

/// The pilot's callsign of an object.
pub open spec fn pilot_of() -> spec_fn(ObjectView) -> Option<Seq<char>> {
    |o: ObjectView| o.pilot
}

impl StateView {
    /// The picture before any telemetry.
    pub open spec fn empty() -> StateView {
        StateView { reference_longitude: None, reference_latitude: None, objects: Map::empty() }
    }

    /// The objects, smallest identifier first.
    pub open spec fn in_order(self) -> Seq<ObjectView> {
        ids_in_order(self.objects.dom()).map_values(|id: u64| self.objects[id])
    }

    /// The aircraft of one side, smallest identifier first.
    pub open spec fn air_objects(self, coalition: Seq<char>) -> Seq<ObjectView> {
        self.in_order().filter(air_of(coalition))
    }

    /// The pilots' callsigns of the aircraft of one side that have one.
    pub open spec fn air_callsigns(self, coalition: Seq<char>) -> Seq<Seq<char>> {
        self.air_objects(coalition).filter_map(pilot_of())
    }

    /// The aircraft of `coalition` with the smallest identifier among those
    /// that answer to `callsign`.
    pub open spec fn find_air_object(self, callsign: Seq<char>, coalition: Seq<char>) -> Option<
        ObjectView,
    > {
        let found = self.in_order().filter(air_answering(callsign, coalition));
        if found.len() > 0 {
            Some(found[0])
        } else {
            None
        }
    }
}

impl View for TacviewState {
    type V = StateView;

    open spec fn view(&self) -> StateView {
        StateView {
            reference_longitude: self.reference_longitude,
            reference_latitude: self.reference_latitude,
            objects: self.objects@.map_values(|o: TacviewObject| o@),
        }
    }
}

/// The contents of a list of borrowed objects.
pub open spec fn views(objects: Seq<&TacviewObject>) -> Seq<ObjectView> {
    objects.map_values(|o: &TacviewObject| o@)
}

/// The contents of a list of texts.
pub open spec fn texts(list: Seq<String>) -> Seq<Seq<char>> {
    list.map_values(|s: String| s@)
}

/// The content of an optional borrowed object.
pub open spec fn view_of(o: Option<&TacviewObject>) -> Option<ObjectView> {
    match o {
        Some(o) => Some(o@),
        None => None,
    }
}

impl TacviewState {
    /// `object` is one of the objects of the picture.
    pub open spec fn holds(&self, object: TacviewObject) -> bool {
        exists|id: u64| #[trigger] self.objects@.contains_key(id) && self.objects@[id] == object
    }

    /// The picture before any telemetry.
    pub fn new() -> (r: TacviewState)
        ensures
            r@ == StateView::empty(),
    {
        let r = TacviewState {
            reference_longitude: None,
            reference_latitude: None,
            objects: BTreeMap::new(),
        };
        proof {
            assert(r@.objects =~= Map::<u64, ObjectView>::empty());
        }
        r
    }

    /// The objects, smallest identifier first.
    pub fn objects_in_order(&self) -> (r: Vec<&TacviewObject>)
        ensures
            views(r@) == self@.in_order(),
            forall|i: int| 0 <= i < r.len() ==> self.holds(*#[trigger] r[i]),
    {
        let entries = entries_in_order(&self.objects);
        let mut out: Vec<&TacviewObject> = Vec::new();
        let mut i: usize = 0;
        while i < entries.len()
            invariant
                i <= entries.len(),
                out.len() == i,
                forall|k: int| 0 <= k < i ==> out[k] == entries[k].1,
            decreases entries.len() - i,
        {
            out.push(entries[i].1);
            i += 1;
        }
        proof {
            let ids = entry_ids(entries@);
            assert(self@.objects.dom() =~= self.objects@.dom());
            assert forall|k: int| 0 <= k < out.len() implies views(out@)[k]
                == self@.in_order()[k] by {
                assert(ids[k] == entries[k].0);
                assert(self.objects@.contains_key(entries[k].0));
            }
            assert(views(out@) =~= self@.in_order());
            assert forall|k: int| 0 <= k < out.len() implies self.holds(*#[trigger] out[k]) by {
                assert(self.objects@.contains_key(entries[k].0));
                assert(self.objects@[entries[k].0] == *out[k]);
            }
        }
        out
    }

    /// The aircraft of `coalition` whose pilot answers to `callsign`: the one
    /// with the smallest identifier, if there are several.
    pub fn find_air_object_by_callsign(&self, callsign: &str, coalition: &str) -> (r: Option<
        &TacviewObject,
    >)
        ensures
            view_of(r) == self@.find_air_object(callsign@, coalition@),
            r matches Some(o) ==> self.holds(*o),
    {
        let needle = normalize_callsign(callsign);
        let objects = self.objects_in_order();
        let ghost all = self@.in_order();
        let ghost wanted = air_answering(callsign@, coalition@);
        let mut i: usize = 0;
        proof {
            reveal(Seq::filter);
            assert(all.take(0) =~= Seq::<ObjectView>::empty());
        }
        while i < objects.len()
            invariant
                i <= objects.len(),
                views(objects@) == all,
                all == self@.in_order(),
                wanted == air_answering(callsign@, coalition@),
                needle@ == normalized(callsign@),
                all.take(i as int).filter(wanted).len() == 0,
                forall|k: int| 0 <= k < objects.len() ==> self.holds(*#[trigger] objects[k]),
            decreases objects.len() - i,
        {
            let object = objects[i];
            proof {
                lemma_filter_step(all, wanted, i as int);
                assert(all[i as int] == object@);
            }
            if object.is_air() && object.in_coalition(coalition) && object.pilot_matches(&needle) {
                proof {
                    lemma_filter_first(all, wanted, i as int);
                }
                return Some(object);
            }
            i += 1;
        }
        proof {
            assert(all.take(objects.len() as int) =~= all);
        }
        None
    }

    /// The aircraft of `coalition`, smallest identifier first.
    pub fn list_air_object_by_coalition(&self, coalition: &str) -> (r: Vec<&TacviewObject>)
        ensures
            views(r@) == self@.air_objects(coalition@),
            forall|i: int| 0 <= i < r.len() ==> self.holds(*#[trigger] r[i]),
    {
        let objects = self.objects_in_order();
        let ghost all = self@.in_order();
        let ghost wanted = air_of(coalition@);
        let mut out: Vec<&TacviewObject> = Vec::new();
        let mut i: usize = 0;
        proof {
            reveal(Seq::filter);
            assert(all.take(0) =~= Seq::<ObjectView>::empty());
            assert(views(out@) =~= Seq::<ObjectView>::empty());
        }
        while i < objects.len()
            invariant
                i <= objects.len(),
                views(objects@) == all,
                wanted == air_of(coalition@),
                views(out@) == all.take(i as int).filter(wanted),
                forall|k: int| 0 <= k < objects.len() ==> self.holds(*#[trigger] objects[k]),
                forall|k: int| 0 <= k < out.len() ==> self.holds(*#[trigger] out[k]),
            decreases objects.len() - i,
        {
            let object = objects[i];
            proof {
                lemma_filter_step(all, wanted, i as int);
                assert(all[i as int] == object@);
            }
            if object.is_air() && object.in_coalition(coalition) {
                let ghost before = views(out@);
                out.push(object);
                proof {
                    assert(views(out@) =~= before.push(object@));
                }
            }
            i += 1;
        }
        proof {
            assert(all.take(objects.len() as int) =~= all);
        }
        out
    }

    /// The pilots' callsigns of the aircraft of `coalition`, smallest
    /// identifier first; an aircraft without one is passed over.
    pub fn list_air_callsigns_by_coalition(&self, coalition: &str) -> (r: Vec<String>)
        ensures
            texts(r@) == self@.air_callsigns(coalition@),
    {
        let aircraft = self.list_air_object_by_coalition(coalition);
        let ghost all = self@.air_objects(coalition@);
        let mut out: Vec<String> = Vec::new();
        let mut i: usize = 0;
        proof {
            assert(all.take(0) =~= Seq::<ObjectView>::empty());
            assert(texts(out@) =~= Seq::<Seq<char>>::empty());
        }
        while i < aircraft.len()
            invariant
                i <= aircraft.len(),
                views(aircraft@) == all,
                texts(out@) == all.take(i as int).filter_map(pilot_of()),
            decreases aircraft.len() - i,
        {
            let object = aircraft[i];
            proof {
                let next = all.take(i + 1);
                assert(next.drop_last() =~= all.take(i as int));
                assert(next.last() == object@);
            }
            match &object.pilot {
                Some(pilot) => {
                    let ghost before = texts(out@);
                    out.push(pilot.clone());
                    proof {
                        assert(texts(out@) =~= before + seq![pilot@]);
                    }
                },
                None => {},
            }
            i += 1;
        }
        proof {
            assert(all.take(aircraft.len() as int) =~= all);
        }
        out
    }
}

impl Default for TacviewState {
    fn default() -> (r: TacviewState)
        ensures
            r@ == StateView::empty(),
    {
        TacviewState::new()
    }
}

} // verus!
