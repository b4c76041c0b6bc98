//! A verified model of a static promotional landing page.
//!
//! The library builds the page as a tree of markup nodes — head links,
//! a hero section with a codec-fallback video, four feature cards,
//! social links and a footer line — and proves the structural contract
//! of every component: which elements appear, in which order, with
//! which attributes.

pub mod icons;
pub mod markup;
pub mod page;
pub mod text;
