//! A verified rendering-state engine for an immediate-mode 2D canvas.
//!
//! The crate models the state that a canvas context carries between draw
//! calls — the save/restore stack of style frames, the current path, the
//! non-stacked global paint — and the algorithms that turn that state into
//! concrete draw parameters: paint resolution (colour/gradient/alpha
//! composition), the shadow pass decision and its device-space offset
//! construction, and the ordering of backend calls.
//!
//! The rasterising backend itself is out of scope; it is modelled as a
//! command recorder whose log of operations the contracts speak about.
//! Colour strings are parsed by the `cssparser` crate behind a single
//! trusted wrapper.

pub mod scalar;
pub mod error;
pub mod text;
pub mod style;
pub mod blend;
pub mod alpha;
pub mod matrix;
pub mod util;
pub mod paint;
pub mod path;
pub mod gradient;
pub mod pattern;
pub mod state;
pub mod canvas;
pub mod ctx;
