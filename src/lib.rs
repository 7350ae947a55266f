//! Decoding and encoding of drawing entities carried by a flat stream of
//! tagged records (code pairs).
//!
//! - `code_pair`, `code_pair_put_back`: records and the lookahead stream
//!   that hides comments and replays pushed-back items.
//! - `entities`, `common`, `entity`, `enums`: the entity model and its
//!   mathematical views.
//! - `fields`, `dimension`, `readers`: what one record does to an entity,
//!   for the regular field tables, the dimension family and the kinds whose
//!   codes depend on context.
//! - `decode`: reading one entity (`Entity::read`) against `decode_entity`.
//! - `consolidate`: pairing parallel coordinate lists into points.
//! - `group`: a section's entities with children grouped under parents.
//! - `writers`, `encode`: writing an entity (`Entity::write`) against
//!   `entity_records`, with version gating.
//! - `accessors`: constructors, flag accessors and child attachment.
//! - `laws`: properties of the codec proved over the specifications above.

pub mod code_pair;
pub mod code_pair_put_back;
pub mod enums;
pub mod entities;
pub mod common;
pub mod fields;
pub mod writers;
pub mod accessors;
pub mod consolidate;
pub mod dimension;
pub mod readers;
pub mod entity;
pub mod decode;
pub mod group;
pub mod encode;
pub mod laws;
