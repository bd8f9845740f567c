//! Angles tagged with their unit, degrees or radians, with conversions, equality and
//! arithmetic across the two units.
pub mod trig;
