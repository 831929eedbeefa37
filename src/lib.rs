//! Data layer of a CANopen-style object dictionary: a bump arena that hands
//! out disjoint, bounds-checked byte regions, a tagged value type with typed
//! accessors (its variable-length variants live in arena regions), and the
//! entry / object model that binds values to names and access policies.

pub mod data;
pub mod object;
pub mod slice_buffer;
