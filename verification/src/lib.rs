//! Typed model of a web-application-firewall rule language: enumerated
//! vocabularies, collection selectors, input references and the rule
//! aggregate, each built from a kind-tagged parse tree and rendered back to
//! canonical text. Deserialization and serialization are proved inverse over
//! the recognized grammar.

pub mod adapter;
pub mod input;
pub mod rule;
pub mod util;
pub mod vocab;
