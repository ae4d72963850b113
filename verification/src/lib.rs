//! Quiz content: a catalog of named exercise packets, each an ordered list of
//! questions, with lookups into it and the checking of submitted answers.
//!
//! - [`question`] and [`packet`] hold the data: a question is free-text or
//!   multiple-choice, and a multiple-choice question always has its four
//!   alternatives and an index that points at one of them.
//! - [`catalog`] holds packets under unique keys and resolves a key, or a key
//!   and an index, to a packet or a question, or to [`catalog::NotFound`].
//! - [`fixture`] builds the catalog that the service ships with.
//! - [`evaluator`] judges a submitted answer.
//! - [`boundary`] says what a request is answered with, as a status and a
//!   body; a lookup that finds nothing is answered with a placeholder.
//! - [`text`] compares strings exactly.
//!
//! Every operation is a pure function of its arguments. A catalog is never
//! changed by a lookup, so any number of readers may share one.

pub mod boundary;
pub mod catalog;
pub mod evaluator;
pub mod fixture;
pub mod packet;
pub mod question;
pub mod text;
