use vstd::prelude::*;

pub mod catalogs;
pub mod constraints;
pub mod corpus;
pub mod entities;
pub mod enums;
pub mod ontology;
pub mod overlay;
pub mod round_trip;
pub mod tag_parser;
pub mod tags;
pub mod text;
pub mod validate_narrative;
pub mod views;
pub mod vocabulary;
pub mod voice;
