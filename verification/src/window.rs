use vstd::prelude::*;
use crate::errors::CmdError;
use crate::geometry::Rect;
use crate::ids::IdentifierAllocator;
use crate::locator::{
    active_index, find_active_index, lemma_active_after_attach, lemma_base_upto_properties,
    lemma_best_recreated_upto_properties,
};
use crate::urls::{is_valid_url, placeholder_text, resolve_switch_target, validate_url};
use crate::viewport::{
    ChildViewport, ClientIdentity, LoadTarget, ViewportKind, generation_of, generations_below,
    is_recreated,
};

verus! {

/// Host window inner size: the fixed viewport plus a small control strip.
pub const WINDOW_WIDTH: u32 = 375;

pub const WINDOW_HEIGHT: u32 = 667;

/// Fixed size of the base child viewport inside its host window.
pub const VIEWPORT_WIDTH: u32 = 375;

pub const VIEWPORT_HEIGHT: u32 = 617;

/// Position of the first window, and the diagonal step between successive
/// windows so repeated creations do not perfectly overlap.
pub const WINDOW_BASE_OFFSET: i64 = 100;

pub const WINDOW_STEP: i64 = 30;

/// One logical session: a host window and the child viewports currently
/// attached to it. Normally exactly one viewport is attached; during
/// recreation an old surface and its successor briefly coexist, and the
/// priority rule keeps the active one well defined throughout.
#[derive(Clone, PartialEq, Eq, Debug)]
pub struct WindowState {
    pub window_id: u32,
    pub geometry: Rect,
    pub always_on_top: bool,
    pub viewports: Vec<ChildViewport>,
}

/// Host window geometry for the window with the given id: fixed size,
/// position stepped diagonally with the id.
pub open spec fn default_window_rect(window_id: u32) -> Rect {
    Rect {
        x: (WINDOW_BASE_OFFSET + WINDOW_STEP * (window_id as int)) as i64,
        y: (WINDOW_BASE_OFFSET + WINDOW_STEP * (window_id as int)) as i64,
        width: WINDOW_WIDTH,
        height: WINDOW_HEIGHT,
    }
}

/// Geometry of a freshly attached base viewport: the fixed sub-rectangle
/// at the top of its host window.
pub open spec fn base_viewport_rect() -> Rect {
    Rect { x: 0, y: 0, width: VIEWPORT_WIDTH, height: VIEWPORT_HEIGHT }
}

/// What one window creation pins, seen from outside: the id minted is
/// the counter's value, the counter steps by one, and the window carries
/// exactly the base viewport named after that id.
pub open spec fn creation_step(
    a0: IdentifierAllocator,
    a1: IdentifierAllocator,
    w: WindowState,
) -> bool {
    &&& a1.window_counter == a0.window_counter + 1
    &&& a1.recreation_counter == a0.recreation_counter
    &&& w.window_id == a0.window_counter
    &&& w.viewports@.len() == 1
    &&& w.viewports@[0].kind == (ViewportKind::Base { window_id: w.window_id })
}

/// What one identity switch pins once it resolves an active viewport,
/// seen from outside: the generation minted is the counter's value and
/// the counter steps by one, whether or not the reload target was then
/// accepted.
pub open spec fn recreation_step(
    a0: IdentifierAllocator,
    a1: IdentifierAllocator,
    generation: u32,
) -> bool {
    &&& generation == a0.recreation_counter
    &&& a1.recreation_counter == a0.recreation_counter + 1
    &&& a1.window_counter == a0.window_counter
}

/// Allocate a window id, build the window at its computed default
/// geometry, and attach its base viewport, loaded with the given target
/// under the given client identity.
pub fn create_window_with_viewport(
    alloc: &mut IdentifierAllocator,
    initial: LoadTarget,
    identity: ClientIdentity,
) -> (w: WindowState)
    requires
        old(alloc).window_counter < u32::MAX,
    ensures
        final(alloc).window_counter == old(alloc).window_counter + 1,
        final(alloc).recreation_counter == old(alloc).recreation_counter,
        w.window_id == old(alloc).window_counter,
        w.geometry == default_window_rect(w.window_id),
        w.always_on_top,
        w.viewports@.len() == 1,
        w.viewports@[0] == (ChildViewport {
            kind: ViewportKind::Base { window_id: w.window_id },
            geometry: base_viewport_rect(),
            target: initial,
            identity,
        }),
        active_index(w.viewports@) == Some(0int),
        creation_step(*old(alloc), *final(alloc), w),
{
    let window_id = alloc.next_window_id();
    let offset: i64 = WINDOW_BASE_OFFSET + WINDOW_STEP * (window_id as i64);
    let geometry = Rect { x: offset, y: offset, width: WINDOW_WIDTH, height: WINDOW_HEIGHT };
    let base = ChildViewport {
        kind: ViewportKind::Base { window_id },
        geometry: Rect { x: 0, y: 0, width: VIEWPORT_WIDTH, height: VIEWPORT_HEIGHT },
        target: initial,
        identity,
    };
    let mut viewports: Vec<ChildViewport> = Vec::new();
    viewports.push(base);
    let w = WindowState { window_id, geometry, always_on_top: true, viewports };
    proof {
        lemma_best_recreated_upto_properties(w.viewports@, 1);
        lemma_base_upto_properties(w.viewports@, 1);
        assert(crate::locator::base_count_upto(w.viewports@, 0) == 0);
        assert(crate::locator::base_count_upto(w.viewports@, 1) == 1);
    }
    w
}

impl WindowState {
    /// The currently active child viewport, per the priority rule.
    pub fn find_active(&self) -> (r: Option<&ChildViewport>)
        ensures
            match r {
                Option::Some(v) => crate::locator::active_viewport(self.viewports@) == Some(*v),
                Option::None => crate::locator::active_viewport(self.viewports@) is None,
            },
    {
        match find_active_index(&self.viewports) {
            Option::Some(i) => Some(&self.viewports[i]),
            Option::None => None,
        }
    }

    /// Point the active viewport at a new URL. Geometry, identity and
    /// every other viewport stay untouched; rejected text changes
    /// nothing at all.
    pub fn navigate(&mut self, url: &str) -> (r: Result<(), CmdError>)
        ensures
            final(self).window_id == old(self).window_id,
            final(self).geometry == old(self).geometry,
            final(self).always_on_top == old(self).always_on_top,
            !is_valid_url(url@) ==> r == Err::<(), CmdError>(CmdError::InvalidUrl) && *final(self)
                == *old(self),
            is_valid_url(url@) && active_index(old(self).viewports@) is None ==> r == Err::<
                (),
                CmdError,
            >(CmdError::ViewportNotFound) && *final(self) == *old(self),
            active_index(old(self).viewports@) matches Some(i) ==> ({
                &&& is_valid_url(url@) ==> ({
                    &&& r == Ok::<(), CmdError>(())
                    &&& final(self).viewports@.len() == old(self).viewports@.len()
                    &&& (forall|j: int|
                        0 <= j < old(self).viewports@.len() && j != i ==> final(self).viewports@[j]
                            == old(self).viewports@[j])
                    &&& final(self).viewports@[i].kind == old(self).viewports@[i].kind
                    &&& final(self).viewports@[i].geometry == old(self).viewports@[i].geometry
                    &&& final(self).viewports@[i].identity == old(self).viewports@[i].identity
                    &&& final(self).viewports@[i].target matches LoadTarget::Url(s) && s@ == url@
                })
            }),
    {
        let target = match validate_url(url) {
            Ok(t) => t,
            Err(e) => {
                return Err(e);
            },
        };
        let idx = match find_active_index(&self.viewports) {
            Option::Some(i) => i,
            Option::None => {
                return Err(CmdError::ViewportNotFound);
            },
        };
        self.viewports[idx].target = target;
        Ok(())
    }

    /// Submit script text for execution in the active viewport's content
    /// context. Submission only is decided here; no state changes, and
    /// the script's own output is never captured.
    pub fn run_script(&self, script: &str) -> (r: Result<(), CmdError>)
        ensures
            r == Ok::<(), CmdError>(()) <==> active_index(self.viewports@) is Some,
            r is Err ==> r == Err::<(), CmdError>(CmdError::ViewportNotFound),
    {
        let _ = script;
        match find_active_index(&self.viewports) {
            Option::Some(_) => Ok(()),
            Option::None => Err(CmdError::ViewportNotFound),
        }
    }

    /// Request diagnostic tooling for the active viewport's content.
    /// Resolution only is decided here; no state changes.
    pub fn open_devtools(&self) -> (r: Result<(), CmdError>)
        ensures
            r == Ok::<(), CmdError>(()) <==> active_index(self.viewports@) is Some,
            r is Err ==> r == Err::<(), CmdError>(CmdError::ViewportNotFound),
    {
        match find_active_index(&self.viewports) {
            Option::Some(_) => Ok(()),
            Option::None => Err(CmdError::ViewportNotFound),
        }
    }

    /// Resize the host window itself. The child viewports are independent
    /// and keep their geometry; a combined layout issues both calls.
    pub fn resize_window(&mut self, width: u32, height: u32) -> (r: Result<(), CmdError>)
        ensures
            r == Ok::<(), CmdError>(()),
            final(self).geometry == (Rect {
                x: old(self).geometry.x,
                y: old(self).geometry.y,
                width,
                height,
            }),
            final(self).window_id == old(self).window_id,
            final(self).always_on_top == old(self).always_on_top,
            final(self).viewports == old(self).viewports,
    {
        self.geometry = Rect { x: self.geometry.x, y: self.geometry.y, width, height };
        Ok(())
    }

    /// Toggle the host window's stacking behaviour.
    pub fn set_always_on_top(&mut self, enabled: bool) -> (r: Result<(), CmdError>)
        ensures
            r == Ok::<(), CmdError>(()),
            final(self).always_on_top == enabled,
            final(self).window_id == old(self).window_id,
            final(self).geometry == old(self).geometry,
            final(self).viewports == old(self).viewports,
    {
        self.always_on_top = enabled;
        Ok(())
    }

    /// Resize the active viewport, leaving its position and everything
    /// else alone.
    pub fn resize_viewport(&mut self, width: u32, height: u32) -> (r: Result<(), CmdError>)
        ensures
            final(self).viewports@ == resize_viewport_spec(old(self).viewports@, width, height).0,
            r == resize_viewport_spec(old(self).viewports@, width, height).1,
            final(self).window_id == old(self).window_id,
            final(self).geometry == old(self).geometry,
            final(self).always_on_top == old(self).always_on_top,
    {
        let idx = match find_active_index(&self.viewports) {
            Option::Some(i) => i,
            Option::None => {
                proof {
                    assert(self.viewports@ =~= resize_viewport_spec(
                        self.viewports@,
                        width,
                        height,
                    ).0);
                }
                return Err(CmdError::ViewportNotFound);
            },
        };
        let x = self.viewports[idx].geometry.x;
        let y = self.viewports[idx].geometry.y;
        self.viewports[idx].geometry = Rect { x, y, width, height };
        proof {
            assert(self.viewports@ =~= resize_viewport_spec(
                old(self).viewports@,
                width,
                height,
            ).0);
        }
        Ok(())
    }

    /// Move the active viewport within its host window's coordinate
    /// space, leaving its size and everything else alone.
    pub fn reposition_viewport(&mut self, x: i64, y: i64) -> (r: Result<(), CmdError>)
        ensures
            final(self).viewports@ == reposition_viewport_spec(old(self).viewports@, x, y).0,
            r == reposition_viewport_spec(old(self).viewports@, x, y).1,
            final(self).window_id == old(self).window_id,
            final(self).geometry == old(self).geometry,
            final(self).always_on_top == old(self).always_on_top,
    {
        let idx = match find_active_index(&self.viewports) {
            Option::Some(i) => i,
            Option::None => {
                proof {
                    assert(self.viewports@ =~= reposition_viewport_spec(self.viewports@, x, y).0);
                }
                return Err(CmdError::ViewportNotFound);
            },
        };
        let width = self.viewports[idx].geometry.width;
        let height = self.viewports[idx].geometry.height;
        self.viewports[idx].geometry = Rect { x, y, width, height };
        proof {
            assert(self.viewports@ =~= reposition_viewport_spec(old(self).viewports@, x, y).0);
        }
        Ok(())
    }

    /// Replace the active viewport to change its client identity, which
    /// the platform surface fixes at construction: record the current
    /// geometry, detach the old surface (a refusal to close is tolerated
    /// — the stale surface is superseded by the priority rule), mint a
    /// fresh recreation generation, resolve the reload target, and attach
    /// the replacement at the recorded geometry.
    ///
    /// `close_ok` reports whether the host toolkit actually detached the
    /// old surface; the procedure goes through either way. Malformed
    /// reload text fails the operation after the old surface is already
    /// gone, leaving the window with no active viewport until the caller
    /// retries. The generations-below requirement is the label-namespace
    /// invariant: every attached generation was minted from the global
    /// counter before now, so all sit strictly below it.
    pub fn switch_client_identity(
        &mut self,
        alloc: &mut IdentifierAllocator,
        mobile: bool,
        current_url: &str,
        close_ok: bool,
    ) -> (r: Result<(), CmdError>)
        requires
            old(alloc).recreation_counter < u32::MAX,
            generations_below(old(self).viewports@, old(alloc).recreation_counter),
        ensures
            final(self).window_id == old(self).window_id,
            final(self).geometry == old(self).geometry,
            final(self).always_on_top == old(self).always_on_top,
            final(alloc).window_counter == old(alloc).window_counter,
            active_index(old(self).viewports@) is None ==> ({
                &&& r == Err::<(), CmdError>(CmdError::ViewportNotFound)
                &&& final(self).viewports@ == old(self).viewports@
                &&& final(alloc).recreation_counter == old(alloc).recreation_counter
            }),
            active_index(old(self).viewports@) is Some ==> recreation_step(
                *old(alloc),
                *final(alloc),
                old(alloc).recreation_counter,
            ),
            active_index(old(self).viewports@) matches Some(i) ==> ({
                let survivors = if close_ok {
                    old(self).viewports@.remove(i)
                } else {
                    old(self).viewports@
                };
                let wants_placeholder = current_url@.len() == 0 || current_url@
                    == placeholder_text();
                &&& final(alloc).recreation_counter == old(alloc).recreation_counter + 1
                &&& !wants_placeholder && !is_valid_url(current_url@) ==> r == Err::<
                    (),
                    CmdError,
                >(CmdError::InvalidUrl) && final(self).viewports@ == survivors
                &&& wants_placeholder || is_valid_url(current_url@) ==> ({
                    let nv = final(self).viewports@.last();
                    &&& r == Ok::<(), CmdError>(())
                    &&& final(self).viewports@ == survivors.push(nv)
                    &&& nv.kind == (ViewportKind::Recreated {
                        generation: old(alloc).recreation_counter,
                    })
                    &&& nv.kind != old(self).viewports@[i].kind
                    &&& nv.geometry == old(self).viewports@[i].geometry
                    &&& nv.identity == (if mobile {
                        ClientIdentity::Mobile
                    } else {
                        ClientIdentity::Desktop
                    })
                    &&& (wants_placeholder ==> nv.target == LoadTarget::Placeholder)
                    &&& (!wants_placeholder ==> nv.target is Url)
                    &&& (nv.target matches LoadTarget::Url(s) ==> s@ == current_url@)
                    &&& active_index(final(self).viewports@) == Some(survivors.len() as int)
                })
            }),
    {
        let idx = match find_active_index(&self.viewports) {
            Option::Some(i) => i,
            Option::None => {
                return Err(CmdError::ViewportNotFound);
            },
        };
        let geometry = self.viewports[idx].geometry;
        let ghost old_vs = self.viewports@;
        if close_ok {
            self.viewports.remove(idx);
        }
        let ghost survivors = self.viewports@;
        proof {
            lemma_generations_below_remove(old_vs, idx as int, alloc.recreation_counter, close_ok);
        }
        let generation = alloc.next_recreation_id();
        let target = match resolve_switch_target(current_url) {
            Ok(t) => t,
            Err(e) => {
                return Err(e);
            },
        };
        let identity = ClientIdentity::from_mobile_flag(mobile);
        let nv = ChildViewport {
            kind: ViewportKind::Recreated { generation },
            geometry,
            target,
            identity,
        };
        proof {
            lemma_active_after_attach(survivors, nv);
        }
        self.viewports.push(nv);
        Ok(())
    }
}

/// The state transition of `resize_viewport`: the active viewport's size
/// is replaced, its position kept; without an active viewport nothing
/// changes and the locator's failure is reported.
pub open spec fn resize_viewport_spec(vs: Seq<ChildViewport>, width: u32, height: u32) -> (
    Seq<ChildViewport>,
    Result<(), CmdError>,
) {
    match active_index(vs) {
        Option::Some(i) => (
            vs.update(
                i,
                ChildViewport {
                    kind: vs[i].kind,
                    geometry: Rect { x: vs[i].geometry.x, y: vs[i].geometry.y, width, height },
                    target: vs[i].target,
                    identity: vs[i].identity,
                },
            ),
            Ok(()),
        ),
        Option::None => (vs, Err(CmdError::ViewportNotFound)),
    }
}

/// The state transition of `reposition_viewport`: the active viewport's
/// position is replaced, its size kept.
pub open spec fn reposition_viewport_spec(vs: Seq<ChildViewport>, x: i64, y: i64) -> (
    Seq<ChildViewport>,
    Result<(), CmdError>,
) {
    match active_index(vs) {
        Option::Some(i) => (
            vs.update(
                i,
                ChildViewport {
                    kind: vs[i].kind,
                    geometry: Rect {
                        x,
                        y,
                        width: vs[i].geometry.width,
                        height: vs[i].geometry.height,
                    },
                    target: vs[i].target,
                    identity: vs[i].identity,
                },
            ),
            Ok(()),
        ),
        Option::None => (vs, Err(CmdError::ViewportNotFound)),
    }
}

/// Removing one viewport never lifts a generation above a bound the
/// whole set already respected.
proof fn lemma_generations_below_remove(vs: Seq<ChildViewport>, i: int, bound: u32, removed: bool)
    requires
        generations_below(vs, bound),
        removed ==> 0 <= i < vs.len(),
    ensures
        removed ==> generations_below(vs.remove(i), bound),
{
    if removed {
        let r = vs.remove(i);
        assert forall|j: int| 0 <= j < r.len() && is_recreated(r[j]) implies generation_of(r[j])
            < bound by {
            if j < i {
                assert(r[j] == vs[j]);
            } else {
                assert(r[j] == vs[j + 1]);
            }
        }
    }
}

} // verus!
