use vstd::prelude::*;
use crate::locator::{
    active_index, lemma_active_index_depends_on_kinds, lemma_active_index_in_range,
};
use crate::ids::IdentifierAllocator;
use crate::viewport::{ChildViewport, ViewportKind};
use crate::window::{WindowState, creation_step, recreation_step, resize_viewport_spec};

verus! {

/// Window labels and base-viewport labels stay pairwise distinct across
/// any run of window creations. The two creations here are any two of
/// the run, the later starting from a window counter no lower than the
/// earlier left behind — which always holds, since every allocation only
/// grows the counter — so every pair of the run's windows differs in id,
/// and with it in window label and in base-viewport name.
pub proof fn lemma_created_windows_distinct(
    a0: IdentifierAllocator,
    a1: IdentifierAllocator,
    b0: IdentifierAllocator,
    b1: IdentifierAllocator,
    w1: WindowState,
    w2: WindowState,
)
    requires
        creation_step(a0, a1, w1),
        creation_step(b0, b1, w2),
        a1.window_counter <= b0.window_counter,
    ensures
        w1.window_id < w2.window_id,
        w1.viewports@[0].kind != w2.viewports@[0].kind,
{
}

/// Recreation generations stay pairwise distinct across any run of
/// identity switches, whichever windows the calls target: the counter is
/// global, the later switch starts from a counter no lower than the
/// earlier left behind, so the later generation — and the viewport name
/// derived from it — is strictly greater.
pub proof fn lemma_recreation_generations_distinct(
    a0: IdentifierAllocator,
    a1: IdentifierAllocator,
    b0: IdentifierAllocator,
    b1: IdentifierAllocator,
    g1: u32,
    g2: u32,
)
    requires
        recreation_step(a0, a1, g1),
        recreation_step(b0, b1, g2),
        a1.recreation_counter <= b0.recreation_counter,
    ensures
        g1 < g2,
        (ViewportKind::Recreated { generation: g1 } != ViewportKind::Recreated { generation: g2 }),
{
}

/// The recreation generations a run of identity switches mints, one call
/// per entry — each entry the viewport set of the window that call
/// targets — threading the global recreation counter exactly as
/// `switch_client_identity`'s contract steps it: a call that resolves an
/// active viewport mints the counter's value and steps the counter; one
/// that fails with `ViewportNotFound` mints nothing and leaves it alone.
pub open spec fn generations_minted(windows: Seq<Seq<ChildViewport>>, c0: int) -> Seq<int>
    decreases windows.len(),
{
    if windows.len() == 0 {
        Seq::<int>::empty()
    } else if active_index(windows[0]) is Some {
        seq![c0] + generations_minted(windows.drop_first(), c0 + 1)
    } else {
        generations_minted(windows.drop_first(), c0)
    }
}

/// Every generation a run mints is at least the counter it started from.
proof fn lemma_minted_lower_bound(windows: Seq<Seq<ChildViewport>>, c0: int)
    ensures
        forall|k: int|
            0 <= k < generations_minted(windows, c0).len() ==> generations_minted(windows, c0)[k]
                >= c0,
    decreases windows.len(),
{
    if windows.len() > 0 {
        let g = generations_minted(windows, c0);
        if active_index(windows[0]) is Some {
            let rest = generations_minted(windows.drop_first(), c0 + 1);
            lemma_minted_lower_bound(windows.drop_first(), c0 + 1);
            assert forall|k: int| 0 <= k < g.len() implies g[k] >= c0 by {
                if k == 0 {
                    assert(g[0] == c0);
                } else {
                    assert(g[k] == rest[k - 1]);
                }
            }
        } else {
            lemma_minted_lower_bound(windows.drop_first(), c0);
            assert(g == generations_minted(windows.drop_first(), c0));
        }
    }
}

/// Generations minted across a run of identity switches grow strictly in
/// the order they are minted — and so never repeat — even when the calls
/// target different windows: the counter is global, not per window.
pub proof fn lemma_minted_generations_increase(
    windows: Seq<Seq<ChildViewport>>,
    c0: int,
    i: int,
    j: int,
)
    requires
        0 <= i < j < generations_minted(windows, c0).len(),
    ensures
        generations_minted(windows, c0)[i] < generations_minted(windows, c0)[j],
    decreases windows.len(),
{
    if windows.len() > 0 {
        let g = generations_minted(windows, c0);
        if active_index(windows[0]) is Some {
            let rest = generations_minted(windows.drop_first(), c0 + 1);
            lemma_minted_lower_bound(windows.drop_first(), c0 + 1);
            assert(g[j] == rest[j - 1]);
            if i == 0 {
                assert(g[0] == c0);
                assert(rest[j - 1] >= c0 + 1);
            } else {
                lemma_minted_generations_increase(windows.drop_first(), c0 + 1, i - 1, j - 1);
                assert(g[i] == rest[i - 1]);
            }
        } else {
            lemma_minted_generations_increase(windows.drop_first(), c0, i, j);
            assert(g == generations_minted(windows.drop_first(), c0));
        }
    }
}

/// Resizing the active viewport twice with the same dimensions produces
/// exactly the state one call produces: the first call keeps every
/// viewport's kind, so the locator picks the same viewport again, and
/// the second size update rewrites what is already there.
pub proof fn lemma_resize_viewport_idempotent(vs: Seq<ChildViewport>, width: u32, height: u32)
    ensures
        resize_viewport_spec(resize_viewport_spec(vs, width, height).0, width, height)
            == resize_viewport_spec(vs, width, height),
{
    lemma_active_index_in_range(vs);
    match active_index(vs) {
        Option::Some(i) => {
            let vs1 = resize_viewport_spec(vs, width, height).0;
            assert(forall|k: int| 0 <= k < vs.len() ==> vs1[k].kind == vs[k].kind);
            lemma_active_index_depends_on_kinds(vs, vs1);
            let vs2 = resize_viewport_spec(vs1, width, height).0;
            assert(vs2 =~= vs1);
        },
        Option::None => {},
    }
}

} // verus!
