//! Overlay labels that follow an entity through a weak reference.
use vstd::prelude::*;
use crate::geometry::{Point, FrameSize, viewport_of, to_viewport};
use crate::entity::{Handle, Planet, Ship, Trackable, index_of, find_by_handle};

verus! {

/// How far below its entity a label is anchored, in length units (80 pixels).
pub const LABEL_OFFSET: i64 = 80000;

/// An overlay label: the entity it follows, its text and its anchor in
/// viewport coordinates.
#[derive(Clone, Debug)]
pub struct Label {
    pub target: Option<Handle>,
    pub text: String,
    pub anchor: Point,
}

/// A label that follows a planet.
pub type PlanetInfoText = Label;

/// A label that follows a ship.
pub type ShipInfoText = Label;

/// The anchor of a label that follows an entity at absolute position `p`.
pub open spec fn anchor_of(p: Point, frame: FrameSize) -> Point {
    Point { x: viewport_of(p, frame).x, y: (viewport_of(p, frame).y - LABEL_OFFSET) as i64 }
}

/// The entities of `live` have positions in the simulation plane.
pub open spec fn positions_in_bounds<T: Trackable>(live: Seq<T>) -> bool {
    forall|i: int| 0 <= i < live.len() ==> (#[trigger] live[i]).position_spec().in_bounds()
}

/// Where a label follows an entity at `p`.
pub fn label_anchor(p: Point, frame: FrameSize) -> (a: Point)
    requires
        p.in_bounds(),
        frame.valid(),
    ensures
        a == anchor_of(p, frame),
{
    let v = to_viewport(p, frame);
    Point { x: v.x, y: v.y - LABEL_OFFSET }
}

/// A new label that follows `target`, showing its current text.
pub fn spawn_info_text<T: Trackable>(target: &T, frame: FrameSize) -> (l: Label)
    requires
        target.position_spec().in_bounds(),
        frame.valid(),
    ensures
        l.target == Some(target.handle_spec()),
        l.text@ == target.text_spec(),
        l.anchor == anchor_of(target.position_spec(), frame),
{
    let p = target.position();
    Label { target: Some(target.handle()), text: target.display_text(), anchor: label_anchor(p, frame) }
}

/// The label keeps its target and shows the text and anchor of `entity`.
pub open spec fn shows(l: Label, entity_text: Seq<char>, entity_pos: Point, frame: FrameSize) -> bool {
    l.text@ == entity_text && l.anchor == anchor_of(entity_pos, frame)
}

/// Two labels follow the same target and show the same thing.
pub open spec fn same_label(a: Label, b: Label) -> bool {
    a.target == b.target && a.text@ == b.text@ && a.anchor == b.anchor
}

/// `after` is `before` resynchronised with `live`: where the target of
/// `before` resolves among `live`, it shows that entity's text and anchor;
/// otherwise it is unchanged. The target is kept either way.
pub open spec fn refreshed<T: Trackable>(before: Label, after: Label, live: Seq<T>, frame: FrameSize) -> bool {
    &&& after.target == before.target
    &&& match before.target {
        Some(h) => match index_of(live, h) {
            Some(i) => shows(after, live[i].text_spec(), live[i].position_spec(), frame),
            None => same_label(after, before),
        },
        None => same_label(after, before),
    }
}

/// Resynchronises `label` with the entity it follows among `live`. A label
/// without a target, or whose target is not live, is left as it was; this
/// is the normal outcome for a stale reference, not an error. Returns
/// whether the label was updated.
pub fn refresh<T: Trackable>(label: &mut Label, live: &Vec<T>, frame: FrameSize) -> (updated: bool)
    requires
        positions_in_bounds(live@),
        frame.valid(),
    ensures
        refreshed(*old(label), *final(label), live@, frame),
        updated == (old(label).target matches Some(h) && index_of(live@, h) is Some),
{
    match label.target {
        None => false,
        Some(h) => match find_by_handle(live, h) {
            None => false,
            Some(i) => {
                let entity = &live[i];
                let p = entity.position();
                label.text = entity.display_text();
                label.anchor = label_anchor(p, frame);
                true
            },
        },
    }
}

/// Resynchronises every label with the entity it follows among `live`.
pub fn update_labels<T: Trackable>(labels: &mut Vec<Label>, live: &Vec<T>, frame: FrameSize)
    requires
        positions_in_bounds(live@),
        frame.valid(),
    ensures
        final(labels)@.len() == old(labels)@.len(),
        forall|k: int|
            0 <= k < old(labels)@.len() ==> refreshed(old(labels)@[k], #[trigger] final(labels)@[k], live@, frame),
{
    let mut k: usize = 0;
    while k < labels.len()
        invariant
            positions_in_bounds(live@),
            frame.valid(),
            k <= labels@.len(),
            labels@.len() == old(labels)@.len(),
            forall|j: int| k <= j < labels@.len() ==> #[trigger] labels@[j] == old(labels)@[j],
            forall|j: int| 0 <= j < k ==> refreshed(old(labels)@[j], #[trigger] labels@[j], live@, frame),
        decreases labels@.len() - k,
    {
        refresh(&mut labels[k], live, frame);
        k += 1;
    }
}

/// Resynchronises the labels that follow planets.
pub fn update_planet_info_text(labels: &mut Vec<Label>, planets: &Vec<Planet>, frame: FrameSize)
    requires
        forall|i: int| 0 <= i < planets.len() ==> (#[trigger] planets[i]).position.in_bounds(),
        frame.valid(),
    ensures
        final(labels)@.len() == old(labels)@.len(),
        forall|k: int|
            0 <= k < old(labels)@.len() ==> refreshed(old(labels)@[k], #[trigger] final(labels)@[k], planets@, frame),
{
    update_labels(labels, planets, frame);
}

/// Resynchronises the labels that follow ships.
pub fn update_ship_info_text(labels: &mut Vec<Label>, ships: &Vec<Ship>, frame: FrameSize)
    requires
        forall|i: int| 0 <= i < ships.len() ==> (#[trigger] ships[i]).position.in_bounds(),
        frame.valid(),
    ensures
        final(labels)@.len() == old(labels)@.len(),
        forall|k: int|
            0 <= k < old(labels)@.len() ==> refreshed(old(labels)@[k], #[trigger] final(labels)@[k], ships@, frame),
{
    update_labels(labels, ships, frame);
}

} // verus!
