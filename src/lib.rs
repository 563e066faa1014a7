//! Verified core of a responsive portfolio site: viewport classification,
//! zoom normalisation, hover animation, scene clamping, gradient blending,
//! theming, thumbnail polling and the bundled data set.

pub mod anim;
pub mod color;
pub mod data;
pub mod frame;
pub mod gradient;
pub mod layout;
pub mod scene;
pub mod theme;
pub mod thumbnail;
pub mod underline;
