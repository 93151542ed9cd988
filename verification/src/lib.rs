//! A small geometric-object model for a mapping application: points,
//! lines, multilines, polygons and text labels, organized into named
//! layers with a visibility flag.
//!
//! Coordinates are exact integers, so every derived quantity is exact
//! too: a Euclidean distance is the floor of the true square root of
//! the exact squared distance, an area is an exact rational over the
//! shoelace sum, and a centroid is an exact rational point. The
//! floating-point presentation of these values is a concern of the
//! surrounding application, not of the model.

pub mod coordinate;
pub mod map_object;
pub mod objects;
