//! Decision logic for a fly camera in a 3D scene editor.
//!
//! A fly camera is driven each frame by three kinds of input — pan keys,
//! pointer motion while an orbit button is held, and the scroll wheel — and
//! its framing is adjusted when UI panels take pixels from the window's
//! edges. The engine applies the resulting translations and rotations to the
//! camera transform; this crate makes the per-frame decisions that feed
//! those updates: which local axes the held keys select, what pointer and
//! scroll motion accumulated over the frame, and how far the view must shift
//! to stay centred in the unoccluded part of the window.

pub mod input;
pub mod viewport;
