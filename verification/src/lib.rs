//! License resolution and policy validation for the dependencies of a
//! project.
//!
//! A run reads the dependency file of a project ([`collector`]), looks up the
//! license of each dependency ([`retriever`]), so many at a time
//! ([`executor`]), and gives the verdict of the project's policy on each
//! record ([`licrc`]). What comes of it is reported ([`report`]).
//!
//! The library decides and its caller acts: the library never fetches
//! anything. A lookup hands its caller the request to send or the text to
//! compare with the known licenses, and takes the answer; the executor hands
//! out the lookups to start and takes their records.
//!
//! Everything here is verified with Verus, but for what the library has
//! from other crates: the reading of `yarn.lock` and `Cargo.lock`
//! ([`collector::js`], [`collector::rust`]) and of HTML ([`scrape`]), whose
//! contracts are taken on trust. Texts are handled as sequences of
//! characters ([`text`]), and the score of a match as a bit pattern
//! ([`score`]): no floating point arithmetic is done.

pub mod check;
pub mod cli;
pub mod collector;
pub mod dependency;
pub mod executor;
pub mod licrc;
pub mod report;
pub mod retriever;
pub mod score;
pub mod scrape;
pub mod text;
