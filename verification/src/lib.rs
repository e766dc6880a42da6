//! A small verified builder for HTML documents that embed SVG markup.
//!
//! The library models a markup document as a tree of [`element::Element`]
//! nodes (tag name, ordered attributes, optional text content, ordered
//! children) and renders it to text.  Coordinates are carried as whole
//! tenths of a unit, so every attribute value is formatted exactly with
//! one decimal digit.

pub mod element;
pub mod logo;
pub mod render;
pub mod svg;
pub mod tenths;
