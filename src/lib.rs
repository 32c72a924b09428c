//! Type-safe query composition for a CRUD backend: closed sets of sortable
//! fields per entity, validated sort and pagination requests, deduplicated
//! joins, page metadata and a structured error taxonomy.
pub mod text;
pub mod field;
pub mod value;
pub mod error;
pub mod data;
pub mod game_save;
pub mod solar_system;
pub mod star;
pub mod join;
pub mod store;
pub mod domain;
pub mod planet;
