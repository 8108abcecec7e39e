//! The axis convention between the inertial frame of propagation and the
//! scene: the inertial vertical axis, the third, is the scene's second.
//!
//! The convention only reorders coordinates, so it is stated for coordinates
//! of any type. Every entity of a scene goes through the same reordering.

use vstd::prelude::*;

verus! {

/// The coordinates of a point with the second and third axis exchanged.
pub open spec fn exchanged<T>(point: (T, T, T)) -> (T, T, T) {
    (point.0, point.2, point.1)
}

/// The sum of two vectors.
pub open spec fn sum(a: (int, int, int), b: (int, int, int)) -> (int, int, int) {
    (a.0 + b.0, a.1 + b.1, a.2 + b.2)
}

/// A vector scaled by a factor.
pub open spec fn scaled(k: int, a: (int, int, int)) -> (int, int, int) {
    (k * a.0, k * a.1, k * a.2)
}

/// The square of the distance between two points.
pub open spec fn distance_squared(a: (int, int, int), b: (int, int, int)) -> int {
    (a.0 - b.0) * (a.0 - b.0) + (a.1 - b.1) * (a.1 - b.1) + (a.2 - b.2) * (a.2 - b.2)
}

/// The scene coordinates of a point given in inertial coordinates.
pub fn to_scene_axes<T>(inertial: (T, T, T)) -> (scene: (T, T, T))
    ensures
        scene == exchanged(inertial),
{
    (inertial.0, inertial.2, inertial.1)
}

/// The inertial coordinates of a point given in scene coordinates.
pub fn to_inertial_axes<T>(scene: (T, T, T)) -> (inertial: (T, T, T))
    ensures
        inertial == exchanged(scene),
        exchanged(inertial) == scene,
{
    (scene.0, scene.2, scene.1)
}

/// The axis convention is a bijection: going to the scene and back, or back
/// and to the scene, gives the point one started from.
pub proof fn law_axes_bijective<T>(point: (T, T, T))
    ensures
        exchanged(exchanged(point)) == point,
{
}

/// On exact coordinates the axis convention is linear: it maps a sum to the
/// sum of the images, and a scaled vector to the scaled image.
pub proof fn law_axes_linear(a: (int, int, int), b: (int, int, int), k: int)
    ensures
        exchanged(sum(a, b)) == sum(exchanged(a), exchanged(b)),
        exchanged(scaled(k, a)) == scaled(k, exchanged(a)),
{
}

/// On exact coordinates the axis convention keeps the distance between any
/// two points.
pub proof fn law_axes_keep_distance(a: (int, int, int), b: (int, int, int))
    ensures
        distance_squared(exchanged(a), exchanged(b)) == distance_squared(a, b),
{
}

} // verus!
