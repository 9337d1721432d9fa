//! Function systems over a `hecs` world.
//!
//! An ordinary function becomes a [`system::System`]: with each run the
//! system borrows from the [`World`] what the function asks for (resources,
//! or the components of one type of every entity), calls the function, and
//! gives back what it borrowed.
//!
//! # What the contracts speak of
//!
//! The store of a world is a `hecs::World`, which checks its borrows while the
//! program runs and panics on a clash. The contracts keep it from that: they
//! see a [`claim::Claim`] in each borrow, the column of the borrowed component
//! type with the kind of the borrow, and ask of a run that its claims clash
//! nowhere and that the world has the resources among them.
//!
//! The store tells the component types apart by their `TypeId`. The contracts
//! tell them apart by their [`store::Column`]: the key that a type names
//! itself, with a number that stands for the type and of which nothing more
//! is known. So two types with different keys are known to differ, and two
//! types with one key are not known to be one. Every component type says
//! what the contracts are to see of its values ([`store::Component`]).
//!
//! Of a world the contracts know which entity has a component in which
//! column, what is seen of each, and which claims are open on it. A run that
//! is lent of the world leaves every component as it was but the resources
//! that it borrows uniquely, and those as its function left them; it gives
//! its guards up when the function has returned, so that the claims are
//! afterwards what they were. A guard that is dropped or leaked instead of
//! given up keeps its claim, and the world does not lend that column against
//! it again.
//!
//! # Where to start
//!
//! - [`World`]: the store, the change tick, the resources.
//! - [`system::systemparam::SystemParam`]: a kind of borrowed argument, with
//!   the kinds for resources in [`resource`] and for queries in
//!   [`system::query`].
//! - [`system::System`], with the systems made of functions in
//!   [`system::functionsystem`] and [`system::exclusivefunctionsystem`].

use vstd::prelude::*;

pub mod claim;
pub mod event;
pub mod resource;
pub mod store;
pub mod system;
pub mod world;

pub use system::query::view::View;
pub use system::query::QueryIter as Query;
pub use world::World;

verus! {

/// Counts the system runs that a [`World`] has seen.
pub type ChangeTick = u32;

} // verus!
