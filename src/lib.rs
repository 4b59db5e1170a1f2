//! Decoder for the DBS (depth below surface) sentence of the NMEA 0183 protocol.
//!
//! The payload grammar is checked in verified code; the two lexical primitives
//! it rests on (one expected character, one number literal) come from `nom`.

pub mod dbs;
pub mod lexer;
pub mod sentence;

pub use dbs::{parse_dbs, DbsData};
pub use sentence::{Error, NmeaSentence, SentenceType};
