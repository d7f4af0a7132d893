//! The rules of a role-playing strategy game, apart from its engine: which
//! mode the game is in and how it changes, what a saved game holds and how
//! it is written and read back, and the arithmetic of character creation.
//!
//! Nothing here draws, reads input or touches a disk. The caller owns the
//! loop: it hands in what happened and carries out what comes back.
//!
//! - [`states`] tracks the game's mode; [`plugins`] says which systems run
//!   in which mode and which hooks a change of mode calls for.
//! - [`save`] turns a world into a document and a document into a world;
//!   [`json`] is the tree that documents are made of, and [`form`] is how
//!   each kind of value takes and leaves that tree.
//! - [`components`] and [`character`] hold the data of entities and
//!   characters; [`creator`], [`battle`], [`samples`] and [`assets`] hold
//!   what the game does with them.

pub mod assets;
pub mod battle;
pub mod character;
pub mod components;
pub mod creator;
pub mod duplicate;
pub mod form;
pub mod json;
pub mod plugins;
pub mod samples;
pub mod save;
pub mod states;
