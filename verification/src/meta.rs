//! Project metadata: how shapes are shown, and the categories and property
//! types that annotated objects refer to by id.

use vstd::prelude::*;

verus! {

/// Number of screen steps in one pixel. Screen positions and radii are
/// whole numbers of screen steps.
pub const PIXEL: i32 = 1000;

/// Whether annotations are saved on leaving an image, where the project
/// does not say.
pub fn default_auto_save() -> (on: bool)
    ensures
        on,
{
    true
}

/// Radius, in screen steps, within which a pointer picks a vertex, where
/// the project does not say: ten pixels.
pub fn default_vertex_radius() -> (radius: u32)
    ensures
        radius == 10 * PIXEL,
{
    10_000
}

/// How shapes are displayed and picked.
#[derive(Clone, Copy, Debug, PartialEq, Eq, Structural)]
pub struct ShapeConfig {
    /// Style of the title drawn at a shape.
    pub title_style: i32,
    /// Line thickness of outlines.
    pub thickness: i32,
    /// Save when the image changes.
    pub auto_save: bool,
    /// Radius, in screen steps, within which a pointer picks a vertex.
    pub vertex_radius: u32,
}

/// How regions of interest are displayed.
#[derive(Clone, Debug)]
pub struct RoiConfig {
    /// Display colour, as `#RRGGBB`.
    pub color: String,
}

/// A property that objects of a category carry.
#[derive(Clone, Debug)]
pub struct CategoryProperty {
    pub id: i32,
    pub name: String,
    /// Name of the property type that lists the possible values.
    pub property_type: String,
}

/// A category of objects.
#[derive(Clone, Debug)]
pub struct Category {
    pub id: i32,
    pub name: String,
    pub description: String,
    /// Key that selects the category.
    pub hotkey: String,
    /// Display colour, as `#RRGGBB`.
    pub color: String,
    /// Properties of the objects of this category.
    pub properties: Vec<CategoryProperty>,
}

/// A value that a property can take.
#[derive(Clone, Debug)]
pub struct PropertyValue {
    pub id: i32,
    pub name: String,
    pub description: String,
    pub hotkey: String,
    pub color: String,
    /// Short mark drawn on the image.
    pub sign: String,
}

/// A property type: a named list of possible values.
#[derive(Clone, Debug)]
pub struct PropertyType {
    pub id: i32,
    pub name: String,
    pub description: String,
    pub values: Vec<PropertyValue>,
}

/// A value that every property can take besides those of its type, such as
/// "pending" or "excluded".
#[derive(Clone, Debug)]
pub struct PropertySpecialValue {
    pub id: i32,
    pub name: String,
    pub description: String,
    pub hotkey: String,
    pub color: String,
    pub sign: String,
}

/// Metadata of an annotation project.
#[derive(Clone, Debug)]
pub struct Meta {
    pub id: i32,
    pub name: String,
    pub description: String,
    pub shape: ShapeConfig,
    pub roi: RoiConfig,
    pub categories: Vec<Category>,
    pub property_types: Vec<PropertyType>,
    pub property_special_values: Vec<PropertySpecialValue>,
}

/// `k` is the first position in `ids` that holds `id`.
pub open spec fn is_first_position(ids: Seq<i32>, id: i32, k: int) -> bool {
    &&& 0 <= k < ids.len()
    &&& ids[k] == id
    &&& forall|j: int| 0 <= j < k ==> ids[j] != id
}

/// The first position in `ids` that holds `id`, if any does.
pub open spec fn first_position(ids: Seq<i32>, id: i32) -> Option<int> {
    if ids.contains(id) {
        Some(choose|k: int| is_first_position(ids, id, k))
    } else {
        None
    }
}

/// A first position is the first position.
pub proof fn lemma_first_position(ids: Seq<i32>, id: i32, k: int)
    requires
        is_first_position(ids, id, k),
    ensures
        first_position(ids, id) == Some(k),
{
    assert(ids.contains(id));
    let c = choose|c: int| is_first_position(ids, id, c);
    assert(is_first_position(ids, id, c));
    assert(c == k);
}

/// Where no position below `n` holds `id` and `n` is the length, none does.
pub proof fn lemma_no_position(ids: Seq<i32>, id: i32)
    requires
        forall|j: int| 0 <= j < ids.len() ==> ids[j] != id,
    ensures
        first_position(ids, id) is None,
{
    if ids.contains(id) {
        let j = choose|j: int| 0 <= j < ids.len() && ids[j] == id;
        assert(ids[j] == id);
    }
}

/// Where `id` occurs in `ids`, it has a first position.
pub proof fn lemma_first_position_exists(ids: Seq<i32>, id: i32)
    requires
        ids.contains(id),
    ensures
        first_position(ids, id) matches Some(k) && is_first_position(ids, id, k),
{
    let j = choose|j: int| 0 <= j < ids.len() && ids[j] == id;
    lemma_first_below(ids, id, j);
    let k = choose|k: int| is_first_position(ids, id, k);
    assert(is_first_position(ids, id, k));
}

proof fn lemma_first_below(ids: Seq<i32>, id: i32, j: int)
    requires
        0 <= j < ids.len(),
        ids[j] == id,
    ensures
        exists|k: int| is_first_position(ids, id, k),
    decreases j,
{
    if exists|i: int| 0 <= i < j && ids[i] == id {
        let i = choose|i: int| 0 <= i < j && ids[i] == id;
        lemma_first_below(ids, id, i);
    } else {
        assert(is_first_position(ids, id, j));
    }
}

/// The ids of the categories, in order.
pub open spec fn category_ids(categories: Seq<Category>) -> Seq<i32> {
    categories.map_values(|c: Category| c.id)
}

/// The ids of the property types, in order.
pub open spec fn property_type_ids(types: Seq<PropertyType>) -> Seq<i32> {
    types.map_values(|t: PropertyType| t.id)
}

/// The ids of the property values, in order.
pub open spec fn property_value_ids(values: Seq<PropertyValue>) -> Seq<i32> {
    values.map_values(|v: PropertyValue| v.id)
}

/// The ids of the special values, in order.
pub open spec fn special_value_ids(values: Seq<PropertySpecialValue>) -> Seq<i32> {
    values.map_values(|v: PropertySpecialValue| v.id)
}

impl Meta {
    /// The first category with the given id.
    pub fn find_category(&self, id: i32) -> (found: Option<&Category>)
        ensures
            match first_position(category_ids(self.categories@), id) {
                Some(k) => found == Some(&self.categories@[k]),
                None => found is None,
            },
    {
        let ghost ids = category_ids(self.categories@);
        let mut k: usize = 0;
        while k < self.categories.len()
            invariant
                k <= self.categories@.len(),
                ids == category_ids(self.categories@),
                forall|j: int| 0 <= j < k ==> ids[j] != id,
            decreases self.categories@.len() - k,
        {
            if self.categories[k].id == id {
                proof {
                    lemma_first_position(ids, id, k as int);
                }
                return Some(&self.categories[k]);
            }
            k = k + 1;
        }
        proof {
            lemma_no_position(ids, id);
        }
        None
    }

    /// The first property type with the given id.
    pub fn find_property_type(&self, id: i32) -> (found: Option<&PropertyType>)
        ensures
            match first_position(property_type_ids(self.property_types@), id) {
                Some(k) => found == Some(&self.property_types@[k]),
                None => found is None,
            },
    {
        let ghost ids = property_type_ids(self.property_types@);
        let mut k: usize = 0;
        while k < self.property_types.len()
            invariant
                k <= self.property_types@.len(),
                ids == property_type_ids(self.property_types@),
                forall|j: int| 0 <= j < k ==> ids[j] != id,
            decreases self.property_types@.len() - k,
        {
            if self.property_types[k].id == id {
                proof {
                    lemma_first_position(ids, id, k as int);
                }
                return Some(&self.property_types[k]);
            }
            k = k + 1;
        }
        proof {
            lemma_no_position(ids, id);
        }
        None
    }

    /// The first special value with the given id.
    pub fn find_special_value(&self, id: i32) -> (found: Option<&PropertySpecialValue>)
        ensures
            match first_position(special_value_ids(self.property_special_values@), id) {
                Some(k) => found == Some(&self.property_special_values@[k]),
                None => found is None,
            },
    {
        let ghost ids = special_value_ids(self.property_special_values@);
        let mut k: usize = 0;
        while k < self.property_special_values.len()
            invariant
                k <= self.property_special_values@.len(),
                ids == special_value_ids(self.property_special_values@),
                forall|j: int| 0 <= j < k ==> ids[j] != id,
            decreases self.property_special_values@.len() - k,
        {
            if self.property_special_values[k].id == id {
                proof {
                    lemma_first_position(ids, id, k as int);
                }
                return Some(&self.property_special_values[k]);
            }
            k = k + 1;
        }
        proof {
            lemma_no_position(ids, id);
        }
        None
    }
}

impl PropertyType {
    /// The first value of this type with the given id.
    pub fn find_value(&self, id: i32) -> (found: Option<&PropertyValue>)
        ensures
            match first_position(property_value_ids(self.values@), id) {
                Some(k) => found == Some(&self.values@[k]),
                None => found is None,
            },
    {
        let ghost ids = property_value_ids(self.values@);
        let mut k: usize = 0;
        while k < self.values.len()
            invariant
                k <= self.values@.len(),
                ids == property_value_ids(self.values@),
                forall|j: int| 0 <= j < k ==> ids[j] != id,
            decreases self.values@.len() - k,
        {
            if self.values[k].id == id {
                proof {
                    lemma_first_position(ids, id, k as int);
                }
                return Some(&self.values[k]);
            }
            k = k + 1;
        }
        proof {
            lemma_no_position(ids, id);
        }
        None
    }
}

} // verus!
