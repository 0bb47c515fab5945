//! The side panels: what a choice in the list of shapes does to the
//! selection, and what a choice in the panel of properties does to the
//! object that is selected. The panel of properties changes an object in
//! editing mode only.

use crate::annotation::{
    points_in_range, Object, ObjectPropertyView, ObjectView, PropertyValueWithConfidence,
    FULL_CONFIDENCE,
};
use crate::app_state::{AppState, AppStateView};
use crate::meta::first_position;
use crate::state::EditMode;
use vstd::prelude::*;

verus! {

/// The properties after the property `property_id` was set to the single
/// value `value`, held with full confidence: the first entry with that id
/// gets the value, or a new entry is added at the end.
pub open spec fn with_property_value(object: ObjectView, property_id: i32, value: i32) -> Seq<
    ObjectPropertyView,
> {
    let entry = ObjectPropertyView {
        id: property_id,
        values: seq![PropertyValueWithConfidence { value, confidence: FULL_CONFIDENCE }],
    };
    match first_position(object.property_ids(), property_id) {
        Some(k) => object.properties.update(k, entry),
        None => object.properties.push(entry),
    }
}

impl AppStateView {
    /// The place of the object that the panel changes: in editing mode, the
    /// first object with the selected id. A region of interest has no
    /// properties.
    pub open spec fn edited_object(self) -> Option<int> {
        match (self.annotation, self.selected_object_id) {
            (Some(a), Some(id)) => if self.editing_state.mode == EditMode::Editing && id >= 0 {
                first_position(a.object_ids(), id)
            } else {
                None
            },
            _ => None,
        }
    }

    /// The session with `object` in the place of the object at `k`; the
    /// document counts as changed.
    pub open spec fn with_object(self, k: int, object: ObjectView) -> AppStateView {
        match self.annotation {
            Some(a) => AppStateView {
                annotation: Some(a.with_objects(a.objects.update(k, object))),
                has_unsaved_changes: true,
                ..self
            },
            None => self,
        }
    }

    /// The session after the category `category_id` was chosen in the
    /// panel: the object gets the category and loses its properties, which
    /// belonged to the category that it had.
    pub open spec fn choose_category(self, category_id: i32) -> AppStateView {
        match (self.annotation, self.edited_object()) {
            (Some(a), Some(k)) => self.with_object(
                k,
                ObjectView { category: category_id, properties: Seq::empty(), ..a.objects[k] },
            ),
            _ => self,
        }
    }

    /// The session after the value `value` was chosen for the property
    /// `property_id` in the panel.
    pub open spec fn choose_property_value(self, property_id: i32, value: i32) -> AppStateView {
        match (self.annotation, self.edited_object()) {
            (Some(a), Some(k)) => self.with_object(
                k,
                ObjectView {
                    properties: with_property_value(a.objects[k], property_id, value),
                    ..a.objects[k]
                },
            ),
            _ => self,
        }
    }

    /// The session after the property `property_id` was set to no value in
    /// the panel: the object has no entry for it any more.
    pub open spec fn clear_property_value(self, property_id: i32) -> AppStateView {
        match (self.annotation, self.edited_object()) {
            (Some(a), Some(k)) => self.with_object(
                k,
                ObjectView {
                    properties: a.objects[k].properties.filter(
                        |p: ObjectPropertyView| p.id != property_id,
                    ),
                    ..a.objects[k]
                },
            ),
            _ => self,
        }
    }
}

/// An object that keeps its polygon leaves the session within its limits.
proof fn lemma_with_object_keeps_limits(view: AppStateView, k: int, object: ObjectView)
    requires
        view.wf(),
        view.annotation matches Some(a) && 0 <= k < a.objects.len() && object.polygon
            == a.objects[k].polygon,
    ensures
        view.with_object(k, object).wf(),
{
    let before = view.annotation.unwrap();
    let after = view.with_object(k, object).annotation.unwrap();
    assert forall|j: int| 0 <= j < after.objects.len() implies points_in_range(
        (#[trigger] after.objects[j]).polygon,
    ) by {
        assert(after.objects[j].polygon == before.objects[j].polygon);
    }
    assert(after.rois == before.rois);
}

impl AppState {
    /// The place of the object that the panel changes, and a copy of the
    /// object for the change.
    fn edited_object_copy(&self) -> (found: Option<(usize, Object)>)
        ensures
            match self@.edited_object() {
                Some(k) => {
                    &&& found matches Some(f)
                    &&& f.0 == k
                    &&& self.current_annotation matches Some(a)
                    &&& k < a.objects@.len()
                    &&& f.1@ == a@.objects[k]
                },
                None => found is None,
            },
    {
        let id: i32 = match self.selected_object_id {
            Some(id) => id,
            None => {
                return None;
            },
        };
        if self.editing_state.mode != EditMode::Editing || id < 0 {
            return None;
        }
        match &self.current_annotation {
            Some(annotation) => match annotation.find_object_index(id) {
                Some(k) => Some((k, annotation.objects[k].duplicate())),
                None => None,
            },
            None => None,
        }
    }

    /// Puts `object` in the place of the object at `k`.
    fn put_object(&mut self, k: usize, object: Object)
        requires
            old(self).current_annotation matches Some(a) && k < a.objects@.len(),
        ensures
            final(self)@ == old(self)@.with_object(k as int, object@),
    {
        match &mut self.current_annotation {
            Some(annotation) => {
                let ghost before = annotation@;
                annotation.objects[k] = object;
                assert(annotation@.objects =~= before.objects.update(k as int, object@));
                assert(annotation@.rois =~= before.rois);
            },
            None => {},
        }
        self.has_unsaved_changes = true;
    }

    /// Selects the shape `id`, as a click on its line in the list of shapes
    /// does: no vertex is selected any more.
    pub fn select_shape(&mut self, id: i32)
        ensures
            final(self)@ == old(self)@.select_shape(id),
    {
        self.selected_object_id = Some(id);
        self.editing_state.selected_vertex = None;
    }

    /// Gives the selected object the category `category_id`, as the panel
    /// does: the object loses its properties, and the document counts as
    /// changed. Outside editing mode, and without a selected object,
    /// nothing changes.
    pub fn choose_category(&mut self, category_id: i32)
        ensures
            final(self)@ == old(self)@.choose_category(category_id),
            old(self)@.wf() ==> final(self)@.wf(),
    {
        match self.edited_object_copy() {
            Some((k, copy)) => {
                let mut object: Object = copy;
                object.category = category_id;
                object.properties = Vec::new();
                proof {
                    let a = self@.annotation.unwrap();
                    assert(object@.properties =~= Seq::empty());
                    assert(object@ == (ObjectView {
                        category: category_id,
                        properties: Seq::empty(),
                        ..a.objects[k as int]
                    }));
                    if self@.wf() {
                        lemma_with_object_keeps_limits(self@, k as int, object@);
                    }
                }
                self.put_object(k, object);
            },
            None => {},
        }
    }

    /// Sets the property `property_id` of the selected object to the value
    /// `value`, held with full confidence; the document counts as changed.
    /// Outside editing mode, and without a selected object, nothing
    /// changes.
    pub fn choose_property_value(&mut self, property_id: i32, value: i32)
        ensures
            final(self)@ == old(self)@.choose_property_value(property_id, value),
            old(self)@.wf() ==> final(self)@.wf(),
    {
        match self.edited_object_copy() {
            Some((k, copy)) => {
                let mut object: Object = copy;
                let ghost before = object@;
                object.set_property(property_id, value, FULL_CONFIDENCE);
                proof {
                    assert(object@ == (ObjectView {
                        properties: with_property_value(before, property_id, value),
                        ..before
                    }));
                    if self@.wf() {
                        lemma_with_object_keeps_limits(self@, k as int, object@);
                    }
                }
                self.put_object(k, object);
            },
            None => {},
        }
    }

    /// Sets the property `property_id` of the selected object to no value:
    /// its entries are removed, and the document counts as changed.
    /// Outside editing mode, and without a selected object, nothing
    /// changes.
    pub fn clear_property_value(&mut self, property_id: i32)
        ensures
            final(self)@ == old(self)@.clear_property_value(property_id),
            old(self)@.wf() ==> final(self)@.wf(),
    {
        match self.edited_object_copy() {
            Some((k, copy)) => {
                let mut object: Object = copy;
                let ghost before = object@;
                object.remove_property(property_id);
                proof {
                    if self@.wf() {
                        lemma_with_object_keeps_limits(self@, k as int, object@);
                    }
                }
                self.put_object(k, object);
            },
            None => {},
        }
    }
}

} // verus!
