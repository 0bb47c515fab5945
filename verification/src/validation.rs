//! The result of checking a document against the metadata of its project.

use crate::annotation::{Annotation, AnnotationView, Object, ObjectView, PropertyValueWithConfidence};
use crate::geometry::{Point, UNIT};
use crate::meta::{
    category_ids, first_position, property_value_ids, special_value_ids, Category, CategoryProperty,
    Meta, PropertyType,
};
use crate::search::{first_index, lemma_first_index_is, lemma_first_index_none};
use crate::text::{append_decimal, append_integer, decimal_text, integer_text};
use vstd::prelude::*;
use vstd::string::StringExecFns;

verus! {

/// What a check found.
#[derive(Debug)]
pub struct ValidationResult {
    /// No error was found.
    pub is_valid: bool,
    /// The errors, in the order in which they were found.
    pub errors: Vec<String>,
    /// The warnings, in the order in which they were found.
    pub warnings: Vec<String>,
}

/// Model of a [`ValidationResult`].
pub struct ValidationResultView {
    pub is_valid: bool,
    pub errors: Seq<Seq<char>>,
    pub warnings: Seq<Seq<char>>,
}

impl View for ValidationResult {
    type V = ValidationResultView;

    open spec fn view(&self) -> ValidationResultView {
        ValidationResultView {
            is_valid: self.is_valid,
            errors: self.errors@.map_values(|e: String| e@),
            warnings: self.warnings@.map_values(|w: String| w@),
        }
    }
}

impl ValidationResult {
    /// The result of a check that found nothing.
    pub fn new() -> (result: ValidationResult)
        ensures
            result@ == (ValidationResultView {
                is_valid: true,
                errors: Seq::empty(),
                warnings: Seq::empty(),
            }),
    {
        let result = ValidationResult { is_valid: true, errors: Vec::new(), warnings: Vec::new() };
        assert(result@.errors =~= Seq::empty());
        assert(result@.warnings =~= Seq::empty());
        result
    }

    /// Records an error: the result is no longer valid.
    pub fn add_error(&mut self, error: String)
        ensures
            final(self)@ == (ValidationResultView {
                is_valid: false,
                errors: old(self)@.errors.push(error@),
                warnings: old(self)@.warnings,
            }),
    {
        self.is_valid = false;
        self.errors.push(error);
        assert(self@.errors =~= old(self)@.errors.push(error@));
    }

    /// Records a warning: the result stays as valid as it was.
    pub fn add_warning(&mut self, warning: String)
        ensures
            final(self)@ == (ValidationResultView {
                is_valid: old(self)@.is_valid,
                errors: old(self)@.errors,
                warnings: old(self)@.warnings.push(warning@),
            }),
    {
        self.warnings.push(warning);
        assert(self@.warnings =~= old(self)@.warnings.push(warning@));
    }
}

/// The warning for a document without objects.
pub open spec fn text_no_objects() -> Seq<char> {
    "Annotation has no objects"@
}

/// The error for the object at `index` with a category that the project
/// has not.
pub open spec fn text_invalid_category(index: int, category: int) -> Seq<char> {
    "Object "@ + decimal_text(index as nat) + " has invalid category ID: "@ + integer_text(category)
}

/// The error for the object at `index` with a polygon of `count` points,
/// fewer than three.
pub open spec fn text_invalid_polygon(index: int, count: int) -> Seq<char> {
    "Object "@ + decimal_text(index as nat) + " has invalid polygon with "@ + decimal_text(
        count as nat,
    ) + " points (minimum 3 required)"@
}

/// The error for the point `point` of the object at `index` with the
/// coordinate `value` outside the image; `axis` names the coordinate.
pub open spec fn text_invalid_coordinate(
    index: int,
    point: int,
    axis: Seq<char>,
    value: int,
) -> Seq<char> {
    "Object "@ + decimal_text(index as nat) + " point "@ + decimal_text(point as nat)
        + " has invalid "@ + axis + " coordinate: "@ + integer_text(value)
        + " (must be 0-1000000)"@
}

/// The error for the object at `index` whose property `property` has the
/// value `value`, which is neither a value of the type of the property nor
/// a special value.
pub open spec fn text_invalid_property(index: int, property: int, value: int) -> Seq<char> {
    "Object "@ + decimal_text(index as nat) + " has invalid property value: property="@
        + integer_text(property) + ", value="@ + integer_text(value)
}

/// The errors of the point `p`, the point `point` of the object at
/// `index`: one for each coordinate outside the image.
pub open spec fn point_errors(p: Point, index: int, point: int) -> Seq<Seq<char>> {
    (if p.x < 0 || p.x > UNIT {
        seq![text_invalid_coordinate(index, point, "x"@, p.x as int)]
    } else {
        Seq::empty()
    }) + (if p.y < 0 || p.y > UNIT {
        seq![text_invalid_coordinate(index, point, "y"@, p.y as int)]
    } else {
        Seq::empty()
    })
}

/// The errors of the first `k` points of `polygon`.
pub open spec fn polygon_errors(polygon: Seq<Point>, index: int, k: int) -> Seq<Seq<char>>
    decreases k,
{
    if k <= 0 {
        Seq::empty()
    } else {
        polygon_errors(polygon, index, k - 1) + point_errors(polygon[k - 1], index, k - 1)
    }
}

/// The value `value` is known: it is a value of the type `property_type`
/// or a special value of the project.
pub open spec fn is_known_value(value: i32, property_type: PropertyType, meta: Meta) -> bool {
    property_value_ids(property_type.values@).contains(value) || special_value_ids(
        meta.property_special_values@,
    ).contains(value)
}

/// The errors of the first `k` of `values`, the values of the property
/// `property` of the object at `index`.
pub open spec fn value_errors(
    values: Seq<PropertyValueWithConfidence>,
    index: int,
    property: int,
    property_type: PropertyType,
    meta: Meta,
    k: int,
) -> Seq<Seq<char>>
    decreases k,
{
    if k <= 0 {
        Seq::empty()
    } else {
        let before = value_errors(values, index, property, property_type, meta, k - 1);
        if is_known_value(values[k - 1].value, property_type, meta) {
            before
        } else {
            before.push(text_invalid_property(index, property, values[k - 1].value as int))
        }
    }
}

/// The first property type of the project with the name `name`.
pub open spec fn type_named(meta: Meta, name: Seq<char>) -> Option<int> {
    first_index(meta.property_types@.len() as int, |k: int| meta.property_types@[k].name@ == name)
}

/// The errors of the property `property` of the object `object` at
/// `index`: those of its values, where the object has the property and the
/// project has its type.
pub open spec fn property_errors(
    object: ObjectView,
    index: int,
    property: CategoryProperty,
    meta: Meta,
) -> Seq<Seq<char>> {
    match (object.property(property.id), type_named(meta, property.property_type@)) {
        (Some(values), Some(t)) => value_errors(
            values,
            index,
            property.id as int,
            meta.property_types@[t],
            meta,
            values.len() as int,
        ),
        _ => Seq::empty(),
    }
}

/// The errors of the first `k` of the properties `properties`.
pub open spec fn properties_errors(
    object: ObjectView,
    index: int,
    properties: Seq<CategoryProperty>,
    meta: Meta,
    k: int,
) -> Seq<Seq<char>>
    decreases k,
{
    if k <= 0 {
        Seq::empty()
    } else {
        properties_errors(object, index, properties, meta, k - 1) + property_errors(
            object,
            index,
            properties[k - 1],
            meta,
        )
    }
}

/// The errors of the object `object` at `index`: an unknown category, a
/// polygon of fewer than three points, coordinates outside the image, and
/// unknown values of the properties of its category.
pub open spec fn object_errors(object: ObjectView, index: int, meta: Meta) -> Seq<Seq<char>> {
    let category = first_position(category_ids(meta.categories@), object.category);
    (if category is None {
        seq![text_invalid_category(index, object.category as int)]
    } else {
        Seq::empty()
    }) + (if object.polygon.len() < 3 {
        seq![text_invalid_polygon(index, object.polygon.len() as int)]
    } else {
        Seq::empty()
    }) + polygon_errors(object.polygon, index, object.polygon.len() as int) + (match category {
        Some(c) => properties_errors(
            object,
            index,
            meta.categories@[c].properties@,
            meta,
            meta.categories@[c].properties@.len() as int,
        ),
        None => Seq::empty(),
    })
}

/// The errors of the first `k` objects.
pub open spec fn objects_errors(objects: Seq<ObjectView>, meta: Meta, k: int) -> Seq<Seq<char>>
    decreases k,
{
    if k <= 0 {
        Seq::empty()
    } else {
        objects_errors(objects, meta, k - 1) + object_errors(objects[k - 1], k - 1, meta)
    }
}

/// What the check of a document against the metadata of its project
/// finds: a warning for a document without objects, and the errors of its
/// objects. The document is valid where there is no error.
pub open spec fn spec_validate(annotation: AnnotationView, meta: Meta) -> ValidationResultView {
    let errors = objects_errors(annotation.objects, meta, annotation.objects.len() as int);
    ValidationResultView {
        is_valid: errors.len() == 0,
        errors,
        warnings: if annotation.objects.len() == 0 {
            seq![text_no_objects()]
        } else {
            Seq::empty()
        },
    }
}

impl ValidationResultView {
    /// The result with `errors` recorded after those it has.
    pub open spec fn with_errors(self, errors: Seq<Seq<char>>) -> ValidationResultView {
        ValidationResultView {
            is_valid: self.is_valid && errors.len() == 0,
            errors: self.errors + errors,
            warnings: self.warnings,
        }
    }
}

fn begin_object_text(index: usize) -> (text: String)
    ensures
        text@ == "Object "@ + decimal_text(index as nat),
{
    let mut text: String = String::from_str("Object ");
    append_decimal(&mut text, index as u64);
    text
}

fn report_category(result: &mut ValidationResult, index: usize, category: i32)
    ensures
        final(result)@ == old(result)@.with_errors(
            seq![text_invalid_category(index as int, category as int)],
        ),
{
    let mut text: String = begin_object_text(index);
    text.append(" has invalid category ID: ");
    append_integer(&mut text, category as i64);
    result.add_error(text);
    assert(result@.errors =~= old(result)@.errors + seq![
        text_invalid_category(index as int, category as int),
    ]);
}

fn report_polygon(result: &mut ValidationResult, index: usize, count: usize)
    ensures
        final(result)@ == old(result)@.with_errors(
            seq![text_invalid_polygon(index as int, count as int)],
        ),
{
    let mut text: String = begin_object_text(index);
    text.append(" has invalid polygon with ");
    append_decimal(&mut text, count as u64);
    text.append(" points (minimum 3 required)");
    result.add_error(text);
    assert(result@.errors =~= old(result)@.errors + seq![
        text_invalid_polygon(index as int, count as int),
    ]);
}

fn report_coordinate(
    result: &mut ValidationResult,
    index: usize,
    point: usize,
    axis: &str,
    value: i32,
)
    ensures
        final(result)@ == old(result)@.with_errors(
            seq![text_invalid_coordinate(index as int, point as int, axis@, value as int)],
        ),
{
    let mut text: String = begin_object_text(index);
    text.append(" point ");
    append_decimal(&mut text, point as u64);
    text.append(" has invalid ");
    text.append(axis);
    text.append(" coordinate: ");
    append_integer(&mut text, value as i64);
    text.append(" (must be 0-1000000)");
    result.add_error(text);
    assert(result@.errors =~= old(result)@.errors + seq![
        text_invalid_coordinate(index as int, point as int, axis@, value as int),
    ]);
}

fn report_property(result: &mut ValidationResult, index: usize, property: i32, value: i32)
    ensures
        final(result)@ == old(result)@.with_errors(
            seq![text_invalid_property(index as int, property as int, value as int)],
        ),
{
    let mut text: String = begin_object_text(index);
    text.append(" has invalid property value: property=");
    append_integer(&mut text, property as i64);
    text.append(", value=");
    append_integer(&mut text, value as i64);
    result.add_error(text);
    assert(result@.errors =~= old(result)@.errors + seq![
        text_invalid_property(index as int, property as int, value as int),
    ]);
}

/// Recording no error changes nothing, and recording errors one run after
/// the other is recording both runs.
proof fn lemma_with_errors(r: ValidationResultView, a: Seq<Seq<char>>, b: Seq<Seq<char>>)
    ensures
        r.with_errors(Seq::empty()) == r,
        r.with_errors(a).with_errors(b) == r.with_errors(a + b),
{
    assert(r.errors + Seq::<Seq<char>>::empty() =~= r.errors);
    assert((r.errors + a) + b =~= r.errors + (a + b));
}

fn check_points(result: &mut ValidationResult, polygon: &Vec<Point>, index: usize)
    ensures
        final(result)@ == old(result)@.with_errors(
            polygon_errors(polygon@, index as int, polygon@.len() as int),
        ),
{
    let mut k: usize = 0;
    proof {
        lemma_with_errors(result@, Seq::empty(), Seq::empty());
    }
    while k < polygon.len()
        invariant
            k <= polygon@.len(),
            result@ == old(result)@.with_errors(polygon_errors(polygon@, index as int, k as int)),
        decreases polygon@.len() - k,
    {
        let ghost before = result@;
        let ghost done = polygon_errors(polygon@, index as int, k as int);
        let p: Point = polygon[k];
        if p.x < 0 || p.x > UNIT {
            report_coordinate(result, index, k, "x", p.x);
        }
        let ghost middle = result@;
        if p.y < 0 || p.y > UNIT {
            report_coordinate(result, index, k, "y", p.y);
        }
        proof {
            let x_errors: Seq<Seq<char>> = if p.x < 0 || p.x > UNIT {
                seq![text_invalid_coordinate(index as int, k as int, "x"@, p.x as int)]
            } else {
                Seq::empty()
            };
            let y_errors: Seq<Seq<char>> = if p.y < 0 || p.y > UNIT {
                seq![text_invalid_coordinate(index as int, k as int, "y"@, p.y as int)]
            } else {
                Seq::empty()
            };
            lemma_with_errors(before, x_errors, y_errors);
            assert(middle == before.with_errors(x_errors));
            lemma_with_errors(middle, Seq::empty(), Seq::empty());
            assert(result@ == before.with_errors(point_errors(p, index as int, k as int)));
            lemma_with_errors(old(result)@, done, point_errors(p, index as int, k as int));
        }
        k = k + 1;
    }
}

/// Position of the first property type with the name `name`.
fn find_type_named(meta: &Meta, name: &String) -> (found: Option<usize>)
    ensures
        found.is_some() == type_named(*meta, name@).is_some(),
        found matches Some(t) ==> t < meta.property_types@.len() && type_named(*meta, name@)
            == Some(t as int),
{
    let ghost pred = |k: int| meta.property_types@[k].name@ == name@;
    let mut k: usize = 0;
    while k < meta.property_types.len()
        invariant
            k <= meta.property_types@.len(),
            pred == |k: int| meta.property_types@[k].name@ == name@,
            forall|j: int| 0 <= j < k ==> !#[trigger] pred(j),
        decreases meta.property_types@.len() - k,
    {
        if meta.property_types[k].name == *name {
            proof {
                assert(pred(k as int));
                lemma_first_index_is(meta.property_types@.len() as int, pred, k as int);
            }
            return Some(k);
        }
        assert(!pred(k as int));
        k = k + 1;
    }
    proof {
        lemma_first_index_none(meta.property_types@.len() as int, pred);
    }
    None
}

/// Decides [`is_known_value`].
fn knows_value(value: i32, property_type: &PropertyType, meta: &Meta) -> (known: bool)
    ensures
        known == is_known_value(value, *property_type, *meta),
{
    if property_type.find_value(value).is_some() {
        proof {
            crate::validation::lemma_position_means_contains(
                property_value_ids(property_type.values@),
                value,
            );
        }
        return true;
    }
    proof {
        crate::validation::lemma_position_means_contains(
            property_value_ids(property_type.values@),
            value,
        );
        crate::validation::lemma_position_means_contains(
            special_value_ids(meta.property_special_values@),
            value,
        );
    }
    meta.find_special_value(value).is_some()
}

/// An id has a first position exactly where it occurs.
proof fn lemma_position_means_contains(ids: Seq<i32>, id: i32)
    ensures
        first_position(ids, id).is_some() == ids.contains(id),
{
}

fn check_property(
    result: &mut ValidationResult,
    object: &Object,
    index: usize,
    property: &CategoryProperty,
    meta: &Meta,
)
    ensures
        final(result)@ == old(result)@.with_errors(
            property_errors(object@, index as int, *property, *meta),
        ),
{
    proof {
        lemma_with_errors(result@, Seq::empty(), Seq::empty());
    }
    let values: &Vec<PropertyValueWithConfidence> = match object.property_values(property.id) {
        Some(values) => values,
        None => {
            return ;
        },
    };
    let t: usize = match find_type_named(meta, &property.property_type) {
        Some(t) => t,
        None => {
            return ;
        },
    };
    let property_type: &PropertyType = &meta.property_types[t];
    let mut k: usize = 0;
    while k < values.len()
        invariant
            k <= values@.len(),
            t < meta.property_types@.len(),
            *property_type == meta.property_types@[t as int],
            result@ == old(result)@.with_errors(
                value_errors(
                    values@,
                    index as int,
                    property.id as int,
                    *property_type,
                    *meta,
                    k as int,
                ),
            ),
        decreases values@.len() - k,
    {
        let ghost done = value_errors(
            values@,
            index as int,
            property.id as int,
            *property_type,
            *meta,
            k as int,
        );
        let value: i32 = values[k].value;
        if !knows_value(value, property_type, meta) {
            report_property(result, index, property.id, value);
            proof {
                lemma_with_errors(
                    old(result)@,
                    done,
                    seq![text_invalid_property(index as int, property.id as int, value as int)],
                );
                assert(done + seq![
                    text_invalid_property(index as int, property.id as int, value as int),
                ] =~= done.push(
                    text_invalid_property(index as int, property.id as int, value as int),
                ));
            }
        }
        k = k + 1;
    }
}

fn check_object(result: &mut ValidationResult, object: &Object, index: usize, meta: &Meta)
    ensures
        final(result)@ == old(result)@.with_errors(object_errors(object@, index as int, *meta)),
{
    let ghost start = result@;
    let category: Option<&Category> = meta.find_category(object.category);
    if category.is_none() {
        report_category(result, index, object.category);
    }
    let ghost first: Seq<Seq<char>> = if category is None {
        seq![text_invalid_category(index as int, object.category as int)]
    } else {
        Seq::empty()
    };
    proof {
        lemma_with_errors(start, Seq::empty(), Seq::empty());
    }
    assert(result@ == start.with_errors(first));
    if object.polygon.len() < 3 {
        report_polygon(result, index, object.polygon.len());
    }
    let ghost second: Seq<Seq<char>> = if object.polygon@.len() < 3 {
        seq![text_invalid_polygon(index as int, object.polygon@.len() as int)]
    } else {
        Seq::empty()
    };
    proof {
        lemma_with_errors(start, first, second);
        lemma_with_errors(start.with_errors(first), Seq::empty(), Seq::empty());
    }
    assert(result@ == start.with_errors(first + second));
    check_points(result, &object.polygon, index);
    let ghost third = polygon_errors(object.polygon@, index as int, object.polygon@.len() as int);
    proof {
        lemma_with_errors(start, first + second, third);
    }
    assert(result@ == start.with_errors(first + second + third));
    match category {
        Some(c) => {
            let ghost head = result@;
            let mut k: usize = 0;
            proof {
                lemma_with_errors(head, Seq::empty(), Seq::empty());
            }
            while k < c.properties.len()
                invariant
                    k <= c.properties@.len(),
                    result@ == head.with_errors(
                        properties_errors(object@, index as int, c.properties@, *meta, k as int),
                    ),
                decreases c.properties@.len() - k,
            {
                let ghost done = properties_errors(
                    object@,
                    index as int,
                    c.properties@,
                    *meta,
                    k as int,
                );
                check_property(result, object, index, &c.properties[k], meta);
                proof {
                    lemma_with_errors(
                        head,
                        done,
                        property_errors(object@, index as int, c.properties@[k as int], *meta),
                    );
                }
                k = k + 1;
            }
            proof {
                let fourth = properties_errors(
                    object@,
                    index as int,
                    c.properties@,
                    *meta,
                    c.properties@.len() as int,
                );
                lemma_with_errors(start, first + second + third, fourth);
            }
        },
        None => {
            proof {
                lemma_with_errors(start, first + second + third, Seq::empty());
                assert(first + second + third + Seq::<Seq<char>>::empty() =~= first + second
                    + third);
            }
        },
    }
}

/// Checks a document against the metadata of its project.
pub fn validate_annotation(annotation: &Annotation, meta: &Meta) -> (result: ValidationResult)
    ensures
        result@ == spec_validate(annotation@, *meta),
{
    let mut result: ValidationResult = ValidationResult::new();
    if annotation.objects.len() == 0 {
        result.add_warning(String::from_str("Annotation has no objects"));
        assert(result@.warnings =~= seq![text_no_objects()]);
    }
    let ghost start = result@;
    proof {
        lemma_with_errors(start, Seq::empty(), Seq::empty());
    }
    let mut k: usize = 0;
    while k < annotation.objects.len()
        invariant
            k <= annotation.objects@.len(),
            start.errors.len() == 0,
            start.is_valid,
            result@ == start.with_errors(objects_errors(annotation@.objects, *meta, k as int)),
        decreases annotation.objects@.len() - k,
    {
        let ghost done = objects_errors(annotation@.objects, *meta, k as int);
        check_object(&mut result, &annotation.objects[k], k, meta);
        proof {
            lemma_with_errors(
                start,
                done,
                object_errors(annotation@.objects[k as int], k as int, *meta),
            );
        }
        k = k + 1;
    }
    proof {
        let errors = objects_errors(
            annotation@.objects,
            *meta,
            annotation@.objects.len() as int,
        );
        assert(start.errors + errors =~= errors);
    }
    result
}

} // verus!
