//! A lazy, bidirectional flattening adapter over nested producers.
//!
//! A [`Producer`](producer::Producer) hands out elements one pull at a time
//! from its front end; a [`BidiProducer`](producer::BidiProducer) also hands
//! them out from its back end.  [`Flatten`](flatten::Flatten) wraps a
//! producer whose items are themselves producers and presents every inner
//! element as one flat producer, in outer order, consumable from either end;
//! applying it twice flattens two levels.  The [`laws`] module proves the
//! global properties of the flat view, and [`sources`] offers ready-made
//! producers beside `Vec`.

pub mod flatten;
pub mod laws;
pub mod producer;
pub mod sources;

pub use crate::flatten::{Flatten, IteratorExt};
pub use crate::producer::{collect_back, collect_front, count, BidiProducer, Producer};
