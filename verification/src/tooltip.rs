//! Which primitives get a tooltip: every image under the pointer, and the
//! hovered primitive unless it is one of those.

use crate::geometry::{Pos2, RectTransform};
use crate::scene::{Image, PrimitiveId, Scene2D};
use std::collections::HashSet;
use vstd::prelude::*;

verus! {

/// The hasher of `ahash`, with which the set of shown tooltips hashes.
#[verifier::external_type_specification]
#[verifier::external_body]
pub struct ExRandomState(ahash::RandomState);

/// The handles that a set of shown tooltips holds.
pub uninterp spec fn shown_ids(shown: HashSet<u64, ahash::RandomState>) -> Set<u64>;

/// `ahash::HashSet::default`: a set that holds nothing.
#[verifier::external_body]
fn shown_new() -> (shown: HashSet<u64, ahash::RandomState>)
    ensures
        shown_ids(shown) == Set::<u64>::empty(),
{
    ahash::HashSet::default()
}

/// `HashSet::insert` on a set that hashes with `ahash`: the set holds `raw`
/// besides what it held.
#[verifier::external_body]
fn shown_insert(shown: &mut HashSet<u64, ahash::RandomState>, raw: u64)
    ensures
        shown_ids(*final(shown)) == shown_ids(*old(shown)).insert(raw),
{
    shown.insert(raw);
}

/// `HashSet::contains` on a set that hashes with `ahash`: whether the set
/// holds `raw`.
#[verifier::external_body]
fn shown_contains(shown: &HashSet<u64, ahash::RandomState>, raw: u64) -> (found: bool)
    ensures
        found == shown_ids(*shown).contains(raw),
{
    shown.contains(&raw)
}

/// The tooltips of a frame.
#[derive(Clone, Debug)]
pub struct Tooltips {
    /// The images under the pointer, in drawing order: each shows its own.
    pub images: Vec<PrimitiveId>,
    /// The hovered primitive, where no image tooltip covers it already.
    pub hovered: Option<PrimitiveId>,
}

/// The handles of the images whose rectangle on the screen contains `p`, in
/// order.
pub open spec fn spec_images_under(images: Seq<Image>, ui_from_space: RectTransform, p: Pos2) -> Seq<
    PrimitiveId,
>
    decreases images.len(),
{
    if images.len() == 0 {
        Seq::empty()
    } else {
        let before = spec_images_under(images.drop_last(), ui_from_space, p);
        if ui_from_space.spec_transform_rect(images.last().rect).spec_contains(p) {
            before.push(images.last().instance_hash)
        } else {
            before
        }
    }
}

/// Whether `id` is among `ids`.
pub open spec fn listed(ids: Seq<PrimitiveId>, id: PrimitiveId) -> bool {
    exists|k: int| 0 <= k < ids.len() && ids[k] == id
}

/// The tooltips to show: one for every image under the pointer, and one for
/// the primitive hovered since the last frame unless an image tooltip shows
/// it already. Without a pointer no image has one.
pub fn tooltips(
    scene: &Scene2D,
    ui_from_space: &RectTransform,
    pointer_pos: Option<Pos2>,
    hovered_instance: Option<PrimitiveId>,
) -> (shown: Tooltips)
    ensures
        shown.images@ == match pointer_pos {
            Some(p) => spec_images_under(scene.images@, *ui_from_space, p),
            None => Seq::empty(),
        },
        shown.hovered == match hovered_instance {
            Some(id) if !listed(shown.images@, id) => Some(id),
            _ => None,
        },
{
    let mut images: Vec<PrimitiveId> = Vec::new();
    let mut shown_tooltips: HashSet<u64, ahash::RandomState> = shown_new();
    if let Some(p) = pointer_pos {
        let n: usize = scene.images.len();
        for i in 0..n
            invariant
                n == scene.images@.len(),
                images@ == spec_images_under(scene.images@.take(i as int), *ui_from_space, p),
                forall|raw: u64|
                    shown_ids(shown_tooltips).contains(raw) <==> listed(
                        images@,
                        PrimitiveId { raw },
                    ),
        {
            let img: &Image = &scene.images[i];
            proof {
                assert(scene.images@.take(i + 1).drop_last() =~= scene.images@.take(i as int));
            }
            if ui_from_space.transform_rect(img.rect).contains(p) {
                let ghost before = images@;
                images.push(img.instance_hash);
                shown_insert(&mut shown_tooltips, img.instance_hash.raw);
                proof {
                    let after = images@;
                    assert forall|raw: u64|
                        shown_ids(shown_tooltips).contains(raw) <==> listed(
                            after,
                            PrimitiveId { raw },
                        ) by {
                        let id = PrimitiveId { raw };
                        if listed(before, id) {
                            let k = choose|k: int| 0 <= k < before.len() && before[k] == id;
                            assert(after[k] == id);
                        }
                        if raw == img.instance_hash.raw {
                            assert(after[after.len() - 1] == id);
                        }
                        if listed(after, id) {
                            let k = choose|k: int| 0 <= k < after.len() && after[k] == id;
                            if k < before.len() {
                                assert(before[k] == id);
                            }
                        }
                    }
                }
            }
        }
        proof {
            assert(scene.images@.take(n as int) =~= scene.images@);
        }
    }
    let hovered: Option<PrimitiveId> = match hovered_instance {
        Some(id) => if shown_contains(&shown_tooltips, id.raw) {
            None
        } else {
            Some(id)
        },
        None => None,
    };
    Tooltips { images, hovered }
}

} // verus!
