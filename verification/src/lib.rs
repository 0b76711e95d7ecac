//! Batch and service orchestration for image inference with a vision-language
//! model: which directory maps to which algorithm, how the prompting agent of
//! an algorithm is composed, how the structured verdict is taken out of the
//! model's free text, and what is recorded for each image.
//!
//! The functions of this crate are verified with Verus against the contracts
//! that they carry. The few calls that leave the crate, into the regex
//! engine, the JSON and base64 codecs and the path functions of the standard
//! library, are gathered in [`outside`], each with what is taken on trust
//! about it.
//!
//! Nothing here reads a file, walks a directory or talks to the model. That
//! belongs to the caller, who hands in plain values and performs what the
//! functions here return.

pub mod batch;
pub mod cli;
pub mod error;
pub mod extract;
pub mod file_op;
pub mod llm;
pub mod outside;
pub mod serve;
pub mod text;
