//! The annotation document of one image: annotated objects and regions of
//! interest, each with its polygon.

use crate::geometry::{Point, Polygon};
use crate::meta::{first_position, is_first_position, lemma_first_position, lemma_no_position};
use crate::shape_id::{roi_index_from_id, MAX_ROI_INDEX};
use vstd::prelude::*;

verus! {

/// The confidence of a manual annotation: the fixed-point value of 1.
pub const FULL_CONFIDENCE: u32 = 1_000_000;

/// A property value with the confidence that it holds, in millionths.
#[derive(Clone, Copy, Debug, PartialEq, Eq, Structural)]
pub struct PropertyValueWithConfidence {
    /// Id of the value.
    pub value: i32,
    /// Confidence, from 0 to [`FULL_CONFIDENCE`].
    pub confidence: u32,
}

/// The values of one property of an object.
#[derive(Debug)]
pub struct ObjectProperty {
    /// Id of the property.
    pub id: i32,
    /// Its values.
    pub values: Vec<PropertyValueWithConfidence>,
}

/// Model of an [`ObjectProperty`].
pub struct ObjectPropertyView {
    pub id: i32,
    pub values: Seq<PropertyValueWithConfidence>,
}

impl View for ObjectProperty {
    type V = ObjectPropertyView;

    open spec fn view(&self) -> ObjectPropertyView {
        ObjectPropertyView { id: self.id, values: self.values@ }
    }
}

/// An annotated object.
#[derive(Debug)]
pub struct Object {
    /// Id of the object, unique in its document and not negative.
    pub id: i32,
    /// Id of its category.
    pub category: i32,
    /// Confidence of the annotation, from 0 to [`FULL_CONFIDENCE`].
    pub confidence: u32,
    /// Its outline.
    pub polygon: Vec<Point>,
    /// Its properties. The first entry with an id is the one that counts.
    pub properties: Vec<ObjectProperty>,
}

/// Model of an [`Object`].
pub struct ObjectView {
    pub id: i32,
    pub category: i32,
    pub confidence: u32,
    pub polygon: Seq<Point>,
    pub properties: Seq<ObjectPropertyView>,
}

impl View for Object {
    type V = ObjectView;

    open spec fn view(&self) -> ObjectView {
        ObjectView {
            id: self.id,
            category: self.category,
            confidence: self.confidence,
            polygon: self.polygon@,
            properties: self.properties@.map_values(|p: ObjectProperty| p@),
        }
    }
}

impl ObjectView {
    /// The ids of the property entries, in order.
    pub open spec fn property_ids(self) -> Seq<i32> {
        self.properties.map_values(|p: ObjectPropertyView| p.id)
    }

    /// The values of the property `property_id`: those of the first entry
    /// with that id.
    pub open spec fn property(self, property_id: i32) -> Option<Seq<PropertyValueWithConfidence>> {
        match first_position(self.property_ids(), property_id) {
            Some(k) => Some(self.properties[k].values),
            None => None,
        }
    }

    /// The object with the polygon `polygon` in place of its own.
    pub open spec fn with_polygon(self, polygon: Seq<Point>) -> ObjectView {
        ObjectView { polygon, ..self }
    }
}

/// Copies a run of points.
pub fn copy_points(points: &Vec<Point>) -> (copy: Vec<Point>)
    ensures
        copy@ == points@,
{
    vstd::slice::slice_to_vec(points.as_slice())
}

impl ObjectProperty {
    /// A copy of the entry.
    pub fn duplicate(&self) -> (copy: ObjectProperty)
        ensures
            copy@ == self@,
    {
        ObjectProperty { id: self.id, values: vstd::slice::slice_to_vec(self.values.as_slice()) }
    }
}

impl Object {
    /// A manual annotation of `polygon`: full confidence, no properties.
    pub fn new(id: i32, category: i32, polygon: Vec<Point>) -> (object: Object)
        ensures
            object@ == (ObjectView {
                id,
                category,
                confidence: FULL_CONFIDENCE,
                polygon: polygon@,
                properties: Seq::empty(),
            }),
    {
        let object = Object {
            id,
            category,
            confidence: FULL_CONFIDENCE,
            polygon,
            properties: Vec::new(),
        };
        assert(object@.properties =~= Seq::empty());
        object
    }

    /// A copy of the object.
    pub fn duplicate(&self) -> (copy: Object)
        ensures
            copy@ == self@,
    {
        let mut properties: Vec<ObjectProperty> = Vec::new();
        let mut k: usize = 0;
        while k < self.properties.len()
            invariant
                k <= self.properties@.len(),
                properties@.len() == k,
                forall|j: int| 0 <= j < k ==> (#[trigger] properties@[j])@ == self.properties@[j]@,
            decreases self.properties@.len() - k,
        {
            properties.push(self.properties[k].duplicate());
            k = k + 1;
        }
        let copy = Object {
            id: self.id,
            category: self.category,
            confidence: self.confidence,
            polygon: copy_points(&self.polygon),
            properties,
        };
        assert(copy@.properties =~= self@.properties);
        copy
    }

    /// Position of the first property entry with the id `property_id`.
    fn property_index(&self, property_id: i32) -> (found: Option<usize>)
        ensures
            found.is_some() == first_position(self@.property_ids(), property_id).is_some(),
            found matches Some(k) ==> k < self.properties@.len() && first_position(
                self@.property_ids(),
                property_id,
            ) == Some(k as int) && is_first_position(self@.property_ids(), property_id, k as int),
    {
        let ghost ids = self@.property_ids();
        let mut k: usize = 0;
        while k < self.properties.len()
            invariant
                k <= self.properties@.len(),
                ids == self@.property_ids(),
                forall|j: int| 0 <= j < k ==> ids[j] != property_id,
            decreases self.properties@.len() - k,
        {
            if self.properties[k].id == property_id {
                proof {
                    lemma_first_position(ids, property_id, k as int);
                }
                return Some(k);
            }
            k = k + 1;
        }
        proof {
            lemma_no_position(ids, property_id);
        }
        None
    }

    /// Sets the property `property_id` to the single value `value`, held
    /// with `confidence`: the first entry with that id gets the new value,
    /// or a new entry is added at the end.
    pub fn set_property(&mut self, property_id: i32, value: i32, confidence: u32)
        ensures
            final(self)@.property(property_id) == Some(
                seq![PropertyValueWithConfidence { value, confidence }],
            ),
            final(self)@.properties == ({
                let entry = ObjectPropertyView {
                    id: property_id,
                    values: seq![PropertyValueWithConfidence { value, confidence }],
                };
                match first_position(old(self)@.property_ids(), property_id) {
                    Some(k) => old(self)@.properties.update(k, entry),
                    None => old(self)@.properties.push(entry),
                }
            }),
            final(self)@ == (ObjectView { properties: final(self)@.properties, ..old(self)@ }),
    {
        let mut values: Vec<PropertyValueWithConfidence> = Vec::new();
        values.push(PropertyValueWithConfidence { value, confidence });
        assert(values@ =~= seq![PropertyValueWithConfidence { value, confidence }]);
        let ghost entry = ObjectPropertyView { id: property_id, values: values@ };
        let ghost before = self@;
        match self.property_index(property_id) {
            Some(k) => {
                self.properties[k] = ObjectProperty { id: property_id, values };
                assert(self@.properties =~= before.properties.update(k as int, entry));
                assert(self@.property_ids() =~= before.property_ids());
            },
            None => {
                self.properties.push(ObjectProperty { id: property_id, values });
                assert(self@.properties =~= before.properties.push(entry));
                proof {
                    let ids = self@.property_ids();
                    assert(ids =~= before.property_ids().push(property_id));
                    assert forall|j: int| 0 <= j < before.properties.len() implies ids[j]
                        != property_id by {
                        if before.property_ids()[j] == property_id {
                            assert(before.property_ids().contains(property_id));
                        }
                    }
                    lemma_first_position(ids, property_id, before.properties.len() as int);
                }
            },
        }
    }

    /// The first value of the property `property_id`.
    pub fn get_property(&self, property_id: i32) -> (found: Option<&PropertyValueWithConfidence>)
        ensures
            match self@.property(property_id) {
                Some(values) => if values.len() > 0 {
                    found == Some(&values[0])
                } else {
                    found is None
                },
                None => found is None,
            },
    {
        match self.property_index(property_id) {
            Some(k) => {
                if self.properties[k].values.len() > 0 {
                    Some(&self.properties[k].values[0])
                } else {
                    None
                }
            },
            None => None,
        }
    }

    /// The values of the property `property_id`.
    pub fn property_values(&self, property_id: i32) -> (found: Option<
        &Vec<PropertyValueWithConfidence>,
    >)
        ensures
            match self@.property(property_id) {
                Some(values) => found matches Some(v) && v@ == values,
                None => found is None,
            },
    {
        match self.property_index(property_id) {
            Some(k) => Some(&self.properties[k].values),
            None => None,
        }
    }

    /// Removes every entry of the property `property_id`.
    pub fn remove_property(&mut self, property_id: i32)
        ensures
            final(self)@.properties == old(self)@.properties.filter(
                |p: ObjectPropertyView| p.id != property_id,
            ),
            final(self)@.property(property_id) is None,
            final(self)@ == (ObjectView { properties: final(self)@.properties, ..old(self)@ }),
    {
        let ghost before = self@.properties;
        let ghost keep = |p: ObjectPropertyView| p.id != property_id;
        let mut i: usize = 0;
        let ghost mut seen: int = 0;
        while i < self.properties.len()
            invariant
                i <= self.properties@.len(),
                0 <= seen <= before.len(),
                self.properties@.len() - i == before.len() - seen,
                self@.properties.take(i as int) == before.take(seen).filter(keep),
                self@.properties.skip(i as int) == before.skip(seen),
                self.id == old(self).id,
                self.category == old(self).category,
                self.confidence == old(self).confidence,
                self.polygon == old(self).polygon,
                keep == |p: ObjectPropertyView| p.id != property_id,
            decreases self.properties@.len() - i,
        {
            let ghost current = self@.properties;
            proof {
                lemma_filter_next(before, keep, seen);
                lemma_skip_next(current, i as int, before, seen);
            }
            if self.properties[i].id == property_id {
                self.properties.remove(i);
                proof {
                    assert(self@.properties =~= current.remove(i as int));
                    assert(self@.properties.take(i as int) =~= current.take(i as int));
                    assert(self@.properties.skip(i as int) =~= current.skip(i + 1));
                    seen = seen + 1;
                }
            } else {
                proof {
                    assert(current.take(i + 1) =~= current.take(i as int).push(current[i as int]));
                    seen = seen + 1;
                }
                i = i + 1;
            }
        }
        proof {
            assert(before.take(seen) =~= before);
            assert(self@.properties.take(i as int) =~= self@.properties);
            let ids = self@.property_ids();
            assert forall|j: int| 0 <= j < ids.len() implies ids[j] != property_id by {
                let p = self@.properties[j];
                assert(before.filter(keep).contains(p));
                before.lemma_filter_pred(keep, j);
            }
            lemma_no_position(ids, property_id);
        }
    }

    /// The outline of the object as a [`Polygon`].
    pub fn as_polygon(&self) -> (polygon: Polygon)
        ensures
            polygon@ == self@.polygon,
    {
        Polygon::new(copy_points(&self.polygon))
    }
}

/// A shape of a document by its kind and its position in the list of that
/// kind.
#[derive(Clone, Copy, Debug, PartialEq, Eq, Structural)]
pub enum ShapeRef {
    /// The object at this position in the list of objects.
    Object(usize),
    /// The region of interest at this position in the list of regions.
    Roi(usize),
}

/// The annotation of one image.
#[derive(Debug)]
pub struct Annotation {
    /// Version of the format.
    pub version: String,
    /// The program that made the annotation.
    pub user_agent: String,
    /// When the annotation was made, in milliseconds since 1970.
    pub created_at: i64,
    /// When the annotation was last changed, in milliseconds since 1970.
    pub last_modified: i64,
    /// The regions of interest. A region is addressed by its position.
    pub rois: Vec<Vec<Point>>,
    /// The annotated objects, the one drawn last at the end.
    pub objects: Vec<Object>,
}

/// Model of an [`Annotation`].
#[verifier::ext_equal]
pub struct AnnotationView {
    pub version: Seq<char>,
    pub user_agent: Seq<char>,
    pub created_at: i64,
    pub last_modified: i64,
    pub rois: Seq<Seq<Point>>,
    pub objects: Seq<ObjectView>,
}

impl View for Annotation {
    type V = AnnotationView;

    open spec fn view(&self) -> AnnotationView {
        AnnotationView {
            version: self.version@,
            user_agent: self.user_agent@,
            created_at: self.created_at,
            last_modified: self.last_modified,
            rois: self.rois@.map_values(|r: Vec<Point>| r@),
            objects: self.objects@.map_values(|o: Object| o@),
        }
    }
}

/// Every point of `polygon` is in the range for which distances are
/// computed.
pub open spec fn points_in_range(polygon: Seq<Point>) -> bool {
    forall|i: int| 0 <= i < polygon.len() ==> (#[trigger] polygon[i]).in_range()
}

/// `m` is the largest of `ids`.
pub open spec fn is_largest(ids: Seq<i32>, m: int) -> bool {
    &&& exists|k: int| 0 <= k < ids.len() && #[trigger] ids[k] == m
    &&& forall|k: int| 0 <= k < ids.len() ==> #[trigger] ids[k] <= m
}

impl AnnotationView {
    /// The ids of the objects, in order.
    pub open spec fn object_ids(self) -> Seq<i32> {
        self.objects.map_values(|o: ObjectView| o.id)
    }

    /// The shape that `shape_id` addresses: for a negative id the region of
    /// interest at the decoded position, if there is one; else the first
    /// object that has the id.
    pub open spec fn resolve(self, shape_id: i32) -> Option<ShapeRef> {
        if shape_id < 0 {
            if -shape_id - 1 < self.rois.len() {
                Some(ShapeRef::Roi((-shape_id - 1) as usize))
            } else {
                None
            }
        } else {
            match first_position(self.object_ids(), shape_id) {
                Some(k) => Some(ShapeRef::Object(k as usize)),
                None => None,
            }
        }
    }

    /// `shape` is a shape of this document.
    pub open spec fn has_shape(self, shape: ShapeRef) -> bool {
        match shape {
            ShapeRef::Object(k) => k < self.objects.len(),
            ShapeRef::Roi(k) => k < self.rois.len(),
        }
    }

    /// The polygon of `shape`.
    pub open spec fn polygon_at(self, shape: ShapeRef) -> Seq<Point> {
        match shape {
            ShapeRef::Object(k) => self.objects[k as int].polygon,
            ShapeRef::Roi(k) => self.rois[k as int],
        }
    }

    /// The polygon of the shape that `shape_id` addresses.
    pub open spec fn polygon(self, shape_id: i32) -> Option<Seq<Point>> {
        match self.resolve(shape_id) {
            Some(shape) => Some(self.polygon_at(shape)),
            None => None,
        }
    }

    /// The document with `polygon` as the polygon of `shape`.
    pub open spec fn with_polygon_at(self, shape: ShapeRef, polygon: Seq<Point>) -> AnnotationView {
        match shape {
            ShapeRef::Object(k) => AnnotationView {
                objects: self.objects.update(k as int, self.objects[k as int].with_polygon(polygon)),
                ..self
            },
            ShapeRef::Roi(k) => AnnotationView { rois: self.rois.update(k as int, polygon), ..self },
        }
    }

    /// Number of shapes of both kinds.
    pub open spec fn shape_count(self) -> int {
        (self.objects.len() + self.rois.len()) as int
    }

    /// The shape at place `q` counted from the top: the objects come first,
    /// the one drawn last at the top, then the regions of interest, the last
    /// of them first.
    pub open spec fn shape_from_top(self, q: int) -> ShapeRef {
        if q < self.objects.len() {
            ShapeRef::Object((self.objects.len() - 1 - q) as usize)
        } else {
            ShapeRef::Roi((self.rois.len() - 1 - (q - self.objects.len())) as usize)
        }
    }

    /// The id that addresses `shape`.
    pub open spec fn shape_id(self, shape: ShapeRef) -> int {
        match shape {
            ShapeRef::Object(k) => self.objects[k as int].id as int,
            ShapeRef::Roi(k) => crate::shape_id::spec_roi_id(k as int),
        }
    }

    /// The document with the time of the last change set to `at`.
    pub open spec fn at_time(self, at: i64) -> AnnotationView {
        AnnotationView { last_modified: at, ..self }
    }

    /// The document with `objects` as its objects.
    pub open spec fn with_objects(self, objects: Seq<ObjectView>) -> AnnotationView {
        AnnotationView { objects, ..self }
    }

    /// The document with `rois` as its regions of interest.
    pub open spec fn with_rois(self, rois: Seq<Seq<Point>>) -> AnnotationView {
        AnnotationView { rois, ..self }
    }

    /// The limits that the machine sets on a document: every region of
    /// interest has an id, and every coordinate is in the range for which
    /// distances are computed.
    pub open spec fn within_limits(self) -> bool {
        &&& self.rois.len() <= MAX_ROI_INDEX + 1
        &&& forall|k: int| 0 <= k < self.rois.len() ==> points_in_range(#[trigger] self.rois[k])
        &&& forall|k: int|
            0 <= k < self.objects.len() ==> points_in_range((#[trigger] self.objects[k]).polygon)
    }

    /// The id for the next new object: one more than the largest id, or
    /// zero for a document without objects.
    pub open spec fn is_next_object_id(self, id: int) -> bool {
        if self.objects.len() == 0 {
            id == 0
        } else {
            is_largest(self.object_ids(), id - 1)
        }
    }
}

/// Calls `chrono::Utc::now` and takes `timestamp_millis` of the result: the
/// time of the system clock in milliseconds since 1970. Nothing is claimed
/// of the value. The outside call panics where the clock stands before 1970.
#[verifier::external_body]
fn current_time_millis() -> i64 {
    chrono::Utc::now().timestamp_millis()
}

/// Decides [`points_in_range`].
pub fn check_points_in_range(polygon: &Vec<Point>) -> (ok: bool)
    ensures
        ok == points_in_range(polygon@),
{
    let mut i: usize = 0;
    while i < polygon.len()
        invariant
            i <= polygon@.len(),
            forall|j: int| 0 <= j < i ==> (#[trigger] polygon@[j]).in_range(),
        decreases polygon@.len() - i,
    {
        if !polygon[i].check_in_range() {
            return false;
        }
        i = i + 1;
    }
    true
}

impl Annotation {
    /// An empty annotation made by `user_agent` at the time `now`.
    pub fn new_at(user_agent: &str, now: i64) -> (annotation: Annotation)
        ensures
            annotation@ == (AnnotationView {
                version: "2.0"@,
                user_agent: user_agent@,
                created_at: now,
                last_modified: now,
                rois: Seq::empty(),
                objects: Seq::empty(),
            }),
    {
        let annotation = Annotation {
            version: "2.0".to_owned(),
            user_agent: user_agent.to_owned(),
            created_at: now,
            last_modified: now,
            rois: Vec::new(),
            objects: Vec::new(),
        };
        assert(annotation@.rois =~= Seq::empty());
        assert(annotation@.objects =~= Seq::empty());
        annotation
    }

    /// An empty annotation made by `user_agent` now.
    pub fn new(user_agent: &str) -> (annotation: Annotation)
        ensures
            annotation@ == (AnnotationView {
                version: "2.0"@,
                user_agent: user_agent@,
                created_at: annotation@.created_at,
                last_modified: annotation@.created_at,
                rois: Seq::empty(),
                objects: Seq::empty(),
            }),
    {
        Annotation::new_at(user_agent, current_time_millis())
    }

    /// Records `now` as the time of the last change.
    pub fn touch_at(&mut self, now: i64)
        ensures
            final(self)@ == old(self)@.at_time(now),
    {
        self.last_modified = now;
    }

    /// Records the current time as the time of the last change.
    pub fn touch(&mut self)
        ensures
            final(self)@ == old(self)@.at_time(final(self)@.last_modified),
    {
        self.touch_at(current_time_millis());
    }

    /// Appends `object` and records the time of the change.
    pub fn add_object(&mut self, object: Object)
        ensures
            final(self)@ == old(self)@.with_objects(old(self)@.objects.push(object@)).at_time(
                final(self)@.last_modified,
            ),
    {
        let ghost before = self@;
        self.objects.push(object);
        assert(self@.objects =~= before.objects.push(object@));
        self.touch();
    }

    /// Removes every object with the id `id`. Returns whether there was
    /// one; the time of the last change is recorded only then.
    pub fn remove_object(&mut self, id: i32) -> (removed: bool)
        ensures
            removed == old(self)@.object_ids().contains(id),
            final(self)@.objects == old(self)@.objects.filter(|o: ObjectView| o.id != id),
            final(self)@ == old(self)@.with_objects(final(self)@.objects).at_time(
                final(self)@.last_modified,
            ),
            !removed ==> final(self)@ == old(self)@,
    {
        let ghost before = self@.objects;
        let ghost keep = |o: ObjectView| o.id != id;
        let mut removed: bool = false;
        let mut i: usize = 0;
        let ghost mut seen: int = 0;
        while i < self.objects.len()
            invariant
                i <= self.objects@.len(),
                0 <= seen <= before.len(),
                self.objects@.len() - i == before.len() - seen,
                self@.objects.take(i as int) == before.take(seen).filter(keep),
                self@.objects.skip(i as int) == before.skip(seen),
                self@ == old(self)@.with_objects(self@.objects),
                removed == exists|j: int| 0 <= j < seen && (#[trigger] before[j]).id == id,
                !removed ==> self@ == old(self)@,
                before == old(self)@.objects,
                keep == |o: ObjectView| o.id != id,
            decreases self.objects@.len() - i,
        {
            let ghost current = self@.objects;
            proof {
                lemma_filter_next(before, keep, seen);
                lemma_skip_next(current, i as int, before, seen);
            }
            if self.objects[i].id == id {
                self.objects.remove(i);
                removed = true;
                proof {
                    assert(self@.objects =~= current.remove(i as int));
                    assert(self@.objects.take(i as int) =~= current.take(i as int));
                    assert(self@.objects.skip(i as int) =~= current.skip(i + 1));
                    assert(before[seen].id == id);
                    seen = seen + 1;
                }
            } else {
                proof {
                    assert(current.take(i + 1) =~= current.take(i as int).push(current[i as int]));
                    seen = seen + 1;
                }
                i = i + 1;
            }
        }
        proof {
            assert(before.take(seen) =~= before);
            assert(self@.objects.take(i as int) =~= self@.objects);
            let ids = old(self)@.object_ids();
            if removed {
                let j = choose|j: int| 0 <= j < seen && (#[trigger] before[j]).id == id;
                assert(ids[j] == id);
            } else {
                if ids.contains(id) {
                    let j = choose|j: int| 0 <= j < ids.len() && ids[j] == id;
                    assert(before[j].id == id);
                }
            }
        }
        if removed {
            self.touch();
        }
        removed
    }

    /// Position of the first object with the id `id`.
    pub fn find_object_index(&self, id: i32) -> (found: Option<usize>)
        ensures
            found.is_some() == first_position(self@.object_ids(), id).is_some(),
            found matches Some(k) ==> k < self.objects@.len() && first_position(
                self@.object_ids(),
                id,
            ) == Some(k as int) && is_first_position(self@.object_ids(), id, k as int),
    {
        let ghost ids = self@.object_ids();
        let mut k: usize = 0;
        while k < self.objects.len()
            invariant
                k <= self.objects@.len(),
                ids == self@.object_ids(),
                forall|j: int| 0 <= j < k ==> ids[j] != id,
            decreases self.objects@.len() - k,
        {
            if self.objects[k].id == id {
                proof {
                    lemma_first_position(ids, id, k as int);
                }
                return Some(k);
            }
            k = k + 1;
        }
        proof {
            lemma_no_position(ids, id);
        }
        None
    }

    /// The first object with the id `id`.
    pub fn find_object(&self, id: i32) -> (found: Option<&Object>)
        ensures
            match first_position(self@.object_ids(), id) {
                Some(k) => found == Some(&self.objects@[k]),
                None => found is None,
            },
    {
        match self.find_object_index(id) {
            Some(k) => Some(&self.objects[k]),
            None => None,
        }
    }

    /// The first object with the id `id`, for a change. The document after
    /// the borrow holds the changed object in its place.
    pub fn find_object_mut(&mut self, id: i32) -> (found: Option<&mut Object>)
        ensures
            match first_position(old(self)@.object_ids(), id) {
                Some(k) => {
                    &&& found matches Some(object)
                    &&& *object == old(self).objects@[k]
                    &&& final(self)@ == old(self)@.with_objects(
                        old(self)@.objects.update(k, final(object)@),
                    )
                },
                None => found is None && final(self)@ == old(self)@,
            },
    {
        match self.find_object_index(id) {
            Some(k) => Some(&mut self.objects[k]),
            None => None,
        }
    }

    /// The id for the next new object: one more than the largest id in use,
    /// or zero for a document without objects.
    pub fn next_object_id(&self) -> (id: i32)
        requires
            forall|k: int| 0 <= k < self@.objects.len() ==> (#[trigger] self@.objects[k]).id < i32::MAX,
        ensures
            self@.is_next_object_id(id as int),
    {
        match self.largest_object_id() {
            Some(largest) => {
                proof {
                    let k = choose|k: int| 0 <= k < self@.object_ids().len() && #[trigger] self@.object_ids()[k] == largest;
                    assert(self@.objects[k].id == largest);
                }
                largest + 1
            },
            None => 0,
        }
    }

    /// The largest id of an object; `None` for a document without objects.
    pub fn largest_object_id(&self) -> (largest: Option<i32>)
        ensures
            largest.is_none() == (self@.objects.len() == 0),
            largest matches Some(m) ==> is_largest(self@.object_ids(), m as int),
    {
        if self.objects.len() == 0 {
            return None;
        }
        let ghost ids = self@.object_ids();
        let mut largest: i32 = self.objects[0].id;
        let ghost mut at: int = 0;
        let mut k: usize = 1;
        while k < self.objects.len()
            invariant
                1 <= k <= self.objects@.len(),
                ids == self@.object_ids(),
                0 <= at < k,
                ids[at] == largest,
                forall|j: int| 0 <= j < k ==> #[trigger] ids[j] <= largest,
            decreases self.objects@.len() - k,
        {
            if self.objects[k].id > largest {
                largest = self.objects[k].id;
                proof {
                    at = k as int;
                }
            }
            k = k + 1;
        }
        Some(largest)
    }

    /// Resolves a shape id to the shape that it addresses.
    pub fn resolve_shape(&self, shape_id: i32) -> (shape: Option<ShapeRef>)
        ensures
            shape == self@.resolve(shape_id),
            shape matches Some(s) ==> self@.has_shape(s),
    {
        match roi_index_from_id(shape_id) {
            Some(index) => {
                if index < self.rois.len() {
                    Some(ShapeRef::Roi(index))
                } else {
                    None
                }
            },
            None => {
                match self.find_object_index(shape_id) {
                    Some(k) => Some(ShapeRef::Object(k)),
                    None => None,
                }
            },
        }
    }

    /// The polygon of `shape`.
    pub fn polygon_at(&self, shape: ShapeRef) -> (polygon: &Vec<Point>)
        requires
            self@.has_shape(shape),
        ensures
            polygon@ == self@.polygon_at(shape),
    {
        match shape {
            ShapeRef::Object(k) => &self.objects[k].polygon,
            ShapeRef::Roi(k) => &self.rois[k],
        }
    }

    /// The polygon of the shape that `shape_id` addresses.
    pub fn polygon(&self, shape_id: i32) -> (polygon: Option<&Vec<Point>>)
        ensures
            match self@.polygon(shape_id) {
                Some(points) => polygon matches Some(p) && p@ == points,
                None => polygon is None,
            },
    {
        match self.resolve_shape(shape_id) {
            Some(shape) => Some(self.polygon_at(shape)),
            None => None,
        }
    }

    /// The polygon of the shape that `shape_id` addresses, for a change.
    ///
    /// Every edit of a polygon goes through this borrow: it is the only way
    /// to a polygon buffer of the document, and it hands out one buffer at a
    /// time. The document after the borrow differs from the one before in
    /// that polygon alone.
    pub fn polygon_mut(&mut self, shape_id: i32) -> (polygon: Option<&mut Vec<Point>>)
        ensures
            match old(self)@.resolve(shape_id) {
                Some(shape) => {
                    &&& polygon matches Some(p)
                    &&& p@ == old(self)@.polygon_at(shape)
                    &&& final(self)@ == old(self)@.with_polygon_at(shape, final(p)@)
                },
                None => polygon is None && final(self)@ == old(self)@,
            },
    {
        match self.resolve_shape(shape_id) {
            Some(ShapeRef::Object(k)) => Some(&mut self.objects[k].polygon),
            Some(ShapeRef::Roi(k)) => Some(&mut self.rois[k]),
            None => None,
        }
    }

    /// Decides [`AnnotationView::within_limits`].
    pub fn check_within_limits(&self) -> (ok: bool)
        ensures
            ok == self@.within_limits(),
    {
        if self.rois.len() > MAX_ROI_INDEX + 1 {
            return false;
        }
        let mut k: usize = 0;
        while k < self.rois.len()
            invariant
                k <= self.rois@.len(),
                forall|j: int| 0 <= j < k ==> points_in_range(#[trigger] self@.rois[j]),
            decreases self.rois@.len() - k,
        {
            if !check_points_in_range(&self.rois[k]) {
                assert(!points_in_range(self@.rois[k as int]));
                return false;
            }
            k = k + 1;
        }
        let mut k: usize = 0;
        while k < self.objects.len()
            invariant
                k <= self.objects@.len(),
                forall|j: int| 0 <= j < self.rois@.len() ==> points_in_range(#[trigger] self@.rois[j]),
                forall|j: int| 0 <= j < k ==> points_in_range((#[trigger] self@.objects[j]).polygon),
            decreases self.objects@.len() - k,
        {
            if !check_points_in_range(&self.objects[k].polygon) {
                assert(!points_in_range(self@.objects[k as int].polygon));
                return false;
            }
            k = k + 1;
        }
        true
    }
}

/// Filtering one element more: the kept elements of the first `m + 1` are
/// those of the first `m`, and the element at `m` if it is kept.
pub proof fn lemma_filter_next<T>(s: Seq<T>, keep: spec_fn(T) -> bool, m: int)
    requires
        0 <= m < s.len(),
    ensures
        s.take(m + 1).filter(keep) == if keep(s[m]) {
            s.take(m).filter(keep).push(s[m])
        } else {
            s.take(m).filter(keep)
        },
{
    reveal(Seq::filter);
    assert(s.take(m + 1).drop_last() =~= s.take(m));
    assert(s.take(m + 1).last() == s[m]);
}

/// Two sequences with equal tails have equal heads of the tails, and equal
/// tails one element further on.
pub proof fn lemma_skip_next<T>(a: Seq<T>, i: int, b: Seq<T>, m: int)
    requires
        0 <= i < a.len(),
        0 <= m <= b.len(),
        a.skip(i) == b.skip(m),
    ensures
        m < b.len(),
        a[i] == b[m],
        a.skip(i + 1) == b.skip(m + 1),
{
    assert(a.skip(i).len() == a.len() - i);
    assert(b.skip(m).len() == b.len() - m);
    assert(m < b.len());
    assert(a[i] == a.skip(i)[0]);
    assert(b[m] == b.skip(m)[0]);
    assert(a.skip(i + 1) =~= a.skip(i).skip(1));
    assert(b.skip(m + 1) =~= b.skip(m).skip(1));
}

} // verus!
