//! The storage that the use cases work on. Each method that the use cases'
//! contracts speak of comes with a relation, `<method>_outcome`, that names
//! the outcomes the method may give for its arguments. An implementation that
//! reaches a database leaves the relation open, as any outcome may come; the
//! use cases' contracts then say what they hand to the storage and what they
//! make of each outcome, without assuming which outcome comes.
//!
//! Each method that changes what is stored also takes an `EffectLog` and
//! appends the write it was asked for, so that the use cases' contracts say
//! which writes they make, in which order, and that they make no others.
pub mod brawlers;
pub mod chat;
pub mod crew_operation;
pub mod friendships;
pub mod mission_chat;
pub mod mission_invitations;
pub mod mission_management;
pub mod mission_operation;
pub mod mission_viewing;
pub mod rating;
pub mod repository_error;
