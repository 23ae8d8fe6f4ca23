//! Window and child-viewport lifecycle for a desktop preview shell.
//!
//! Each logical session is one resizable host window holding an embedded
//! child viewport that renders externally supplied web content. The modules
//! here carry the protocol that makes that safe to drive from a small
//! control surface: unique naming of windows and viewports under repeated
//! creation, location of the active viewport when stale and fresh surfaces
//! briefly coexist, and the recreate-in-place procedure that swaps a
//! viewport for a replacement without a geometry glitch.

mod errors;
mod geometry;
mod ids;
mod laws;
mod locator;
mod urls;
mod viewport;
mod window;

pub use errors::CmdError;
pub use laws::{
    generations_minted, lemma_created_windows_distinct, lemma_minted_generations_increase,
    lemma_recreation_generations_distinct, lemma_resize_viewport_idempotent,
};
pub use locator::{
    active_index, active_viewport, base_count_upto, best_recreated_upto, find_active_index,
    first_base_upto, lemma_active_after_attach, lemma_active_index_depends_on_kinds,
    lemma_active_prefers_newest_recreated, lemma_active_sole_base,
};
pub use geometry::Rect;
pub use ids::IdentifierAllocator;
pub use urls::{is_valid_url, placeholder_text, resolve_switch_target, validate_url};
pub use viewport::{
    ChildViewport, ClientIdentity, LoadTarget, ViewportKind, generation_of, generations_below,
    is_base, is_recreated, user_agent_text,
};
pub use window::{
    VIEWPORT_HEIGHT, VIEWPORT_WIDTH, WINDOW_BASE_OFFSET, WINDOW_HEIGHT, WINDOW_STEP, WINDOW_WIDTH,
    WindowState, base_viewport_rect, create_window_with_viewport, creation_step,
    default_window_rect, recreation_step, reposition_viewport_spec, resize_viewport_spec,
};
