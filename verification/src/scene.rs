//! The scene, and the part of a tick that reads the input.

use crate::cache::{Cache, VecCache};
use vstd::prelude::*;

verus! {

/// The geometry of one model: its vertices, and the indices that join them
/// into triangles.
pub struct Model<V> {
    pub vertex_buffer: Vec<V>,
    pub index_buffer: Vec<u32>,
}

/// What is loaded once at startup and never changes afterwards.
pub struct InitData<V> {
    pub models: Vec<Model<V>>,
}

/// The state of the four movement keys. Each field is the entry of the key
/// in the key-state mapping: `None` where the mapping has no entry for it.
#[derive(Clone, Copy, Debug, PartialEq, Eq, Structural)]
pub struct KeyStates {
    pub key_w: Option<bool>,
    pub key_s: Option<bool>,
    pub key_d: Option<bool>,
    pub key_a: Option<bool>,
}

/// What one tick asks of the camera: the movement axes, the direction of the
/// displacement in the camera's own frame before it is scaled by elapsed time
/// and speed, and the mouse movements gathered since the tick before.
#[derive(Debug, PartialEq)]
pub struct CameraMove<M> {
    pub forward_axis: i32,
    pub side_axis: i32,
    pub direction: [i32; 3],
    pub mouse_movements: Vec<M>,
}

/// The scene: objects, lights and the camera, each with its upload flag.
pub struct Scene<O, P, D, C> {
    pub objects: VecCache<O>,
    pub point_lights: VecCache<P>,
    pub directional_lights: VecCache<D>,
    pub camera: Cache<C>,
}

/// A key counts as pressed only where the mapping holds `true` for it.
pub open spec fn pressed(entry: Option<bool>) -> bool {
    entry == Some(true)
}

/// One movement axis: 1 where only `positive` is pressed, -1 where only
/// `negative` is, 0 where both or neither are.
pub open spec fn axis(positive: Option<bool>, negative: Option<bool>) -> int {
    (if pressed(positive) { 1int } else { 0int }) - (if pressed(negative) { 1int } else { 0int })
}

/// The direction of the displacement in the camera's own frame, as its X, Y
/// and Z parts: against the side axis along X, and against the forward axis
/// along Z. The camera's orientation has no part in it.
pub open spec fn direction(forward_axis: int, side_axis: int) -> (int, int, int) {
    (-side_axis, 0int, -forward_axis)
}

/// The squared length of a direction.
pub open spec fn squared_length(direction: (int, int, int)) -> int {
    direction.0 * direction.0 + direction.1 * direction.1 + direction.2 * direction.2
}

/// Whether the key behind `entry` is pressed. A key without an entry is not.
pub fn check_key(entry: Option<bool>) -> (down: bool)
    ensures
        down == pressed(entry),
{
    match entry {
        Some(down) => down,
        None => false,
    }
}

/// 1 for a key that is down, 0 for one that is not.
fn unit(down: bool) -> (count: i32)
    ensures
        count == if down { 1int } else { 0int },
{
    if down {
        1
    } else {
        0
    }
}

/// The upper-left 3 by 3 block of a 4 by 4 matrix, both given by columns.
pub fn extract_rotation<S: Copy>(matrix: &[[S; 4]; 4]) -> (rotation: [[S; 3]; 3])
    ensures
        forall|column: int, row: int|
            0 <= column < 3 && 0 <= row < 3 ==> #[trigger] rotation[column][row]
                == matrix[column][row],
{
    [
        [matrix[0][0], matrix[0][1], matrix[0][2]],
        [matrix[1][0], matrix[1][1], matrix[1][2]],
        [matrix[2][0], matrix[2][1], matrix[2][2]],
    ]
}

impl<O, P, D, C> Scene<O, P, D, C> {
    /// A scene of the given parts. Every part starts dirty, so that the first
    /// synchronisation uploads all of it.
    pub fn new(
        objects: Vec<O>,
        point_lights: Vec<P>,
        directional_lights: Vec<D>,
        camera: C,
    ) -> (scene: Self)
        ensures
            scene.objects.values == objects,
            scene.point_lights.values == point_lights,
            scene.directional_lights.values == directional_lights,
            scene.camera.value == camera,
            scene.objects.dirty,
            scene.point_lights.dirty,
            scene.directional_lights.dirty,
            scene.camera.dirty,
    {
        Scene {
            objects: VecCache::new(objects),
            point_lights: VecCache::new(point_lights),
            directional_lights: VecCache::new(directional_lights),
            camera: Cache::new(camera),
        }
    }

    /// Opens a tick. Reads the movement keys, takes every buffered mouse
    /// movement out of `mouse_movements`, and marks the camera dirty. The
    /// caller moves the camera by what is returned.
    pub fn update<M>(&mut self, keys: &KeyStates, mouse_movements: &mut Vec<M>) -> (step:
        CameraMove<M>)
        ensures
            step.forward_axis == axis(keys.key_w, keys.key_s),
            step.side_axis == axis(keys.key_d, keys.key_a),
            (step.direction[0] as int, step.direction[1] as int, step.direction[2] as int)
                == direction(step.forward_axis as int, step.side_axis as int),
            step.mouse_movements@ == old(mouse_movements)@,
            final(mouse_movements)@ == Seq::<M>::empty(),
            final(self).camera.dirty,
            final(self).camera.value == old(self).camera.value,
            final(self).objects == old(self).objects,
            final(self).point_lights == old(self).point_lights,
            final(self).directional_lights == old(self).directional_lights,
    {
        let forward_pressed = check_key(keys.key_w);
        let backwards_pressed = check_key(keys.key_s);
        let right_pressed = check_key(keys.key_d);
        let left_pressed = check_key(keys.key_a);

        let forward_axis: i32 = unit(forward_pressed) - unit(backwards_pressed);
        let side_axis: i32 = unit(right_pressed) - unit(left_pressed);

        let mut taken: Vec<M> = Vec::new();
        taken.append(mouse_movements);

        self.camera.dirty = true;
        CameraMove {
            forward_axis,
            side_axis,
            direction: [-side_axis, 0, -forward_axis],
            mouse_movements: taken,
        }
    }
}

/// Straight ahead is one unit long. With the forward key down and no other
/// movement key counted, the direction is one unit along the negative Z axis.
/// The direction is made from the keys alone: the camera and what it has
/// turned through so far have no part in it.
pub proof fn lemma_forward_is_unit_length(keys: KeyStates)
    requires
        axis(keys.key_w, keys.key_s) == 1,
        axis(keys.key_d, keys.key_a) == 0,
    ensures
        direction(axis(keys.key_w, keys.key_s), axis(keys.key_d, keys.key_a)) == (
            0int,
            0int,
            -1int,
        ),
        squared_length(direction(axis(keys.key_w, keys.key_s), axis(keys.key_d, keys.key_a)))
            == 1,
{
}

/// The squared length of a direction is the sum of the squares of the axes.
pub proof fn lemma_direction_length(forward_axis: int, side_axis: int)
    ensures
        squared_length(direction(forward_axis, side_axis)) == forward_axis * forward_axis
            + side_axis * side_axis,
{
    assert((-side_axis) * (-side_axis) == side_axis * side_axis) by (nonlinear_arith);
    assert((-forward_axis) * (-forward_axis) == forward_axis * forward_axis) by (nonlinear_arith);
}

} // verus!
