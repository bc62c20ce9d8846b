pub mod entities;
pub mod value_objects;
pub mod repositories;
pub mod effects;
