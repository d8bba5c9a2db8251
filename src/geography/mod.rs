pub mod area;
pub mod grid;
pub mod point;

pub use area::{area_factory, Area, AreaIterator};
pub use grid::{define_geography, Grid, PopulationError};
pub use point::{NeighborIterator, Point};
