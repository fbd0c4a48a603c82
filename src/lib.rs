//! Rendering of schema entities (fields, type blocks) into schema-definition text.
pub mod attribute;
pub mod composite_type;
pub mod field;
pub mod laws;
pub mod legacy;
pub mod model_field;
pub mod payload;
pub mod text;
