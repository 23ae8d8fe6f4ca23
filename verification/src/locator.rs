use vstd::prelude::*;
use crate::viewport::{
    ChildViewport, ViewportKind, generation_of, generations_below, is_base, is_recreated,
};

verus! {

/// Index of the recreated viewport carrying the highest generation among
/// the first `n`, keeping the earliest on equal generations, exactly as a
/// front-to-back scan does. (Equal generations never occur in states the
/// allocator produced; the rule is still total.)
pub open spec fn best_recreated_upto(vs: Seq<ChildViewport>, n: int) -> Option<int>
    decreases n,
{
    if n <= 0 {
        None::<int>
    } else {
        let prev = best_recreated_upto(vs, n - 1);
        if is_recreated(vs[n - 1]) {
            match prev {
                Option::None => Some(n - 1),
                Option::Some(i) => if generation_of(vs[n - 1]) > generation_of(vs[i]) {
                    Some(n - 1)
                } else {
                    prev
                },
            }
        } else {
            prev
        }
    }
}

/// How many of the first `n` viewports are base-class.
pub open spec fn base_count_upto(vs: Seq<ChildViewport>, n: int) -> nat
    decreases n,
{
    if n <= 0 {
        0
    } else {
        base_count_upto(vs, n - 1) + if is_base(vs[n - 1]) {
            1nat
        } else {
            0nat
        }
    }
}

/// Index of the first base-class viewport among the first `n`.
pub open spec fn first_base_upto(vs: Seq<ChildViewport>, n: int) -> Option<int>
    decreases n,
{
    if n <= 0 {
        None::<int>
    } else {
        match first_base_upto(vs, n - 1) {
            Option::Some(i) => Some(i),
            Option::None => if is_base(vs[n - 1]) {
                Some(n - 1)
            } else {
                None
            },
        }
    }
}

/// The priority rule resolving the single active viewport of a window:
/// the recreated viewport with the numerically highest generation if any
/// is attached — a base viewport beside it is mid-teardown and is never
/// selected — otherwise the sole base viewport; otherwise none.
pub open spec fn active_index(vs: Seq<ChildViewport>) -> Option<int> {
    match best_recreated_upto(vs, vs.len() as int) {
        Option::Some(i) => Some(i),
        Option::None => if base_count_upto(vs, vs.len() as int) == 1 {
            first_base_upto(vs, vs.len() as int)
        } else {
            None
        },
    }
}

/// The active viewport itself, when one resolves.
pub open spec fn active_viewport(vs: Seq<ChildViewport>) -> Option<ChildViewport> {
    match active_index(vs) {
        Option::Some(i) => Some(vs[i]),
        Option::None => None,
    }
}

/// What the scan's intermediate result means, for each prefix length.
pub proof fn lemma_best_recreated_upto_properties(vs: Seq<ChildViewport>, n: int)
    requires
        n <= vs.len(),
    ensures
        match best_recreated_upto(vs, n) {
            Option::Some(i) => {
                &&& 0 <= i < n
                &&& is_recreated(vs[i])
                &&& forall|j: int|
                    0 <= j < n && is_recreated(vs[j]) ==> generation_of(vs[j]) <= generation_of(
                        vs[i],
                    )
            },
            Option::None => forall|j: int| 0 <= j < n ==> !is_recreated(vs[j]),
        },
    decreases n,
{
    if n > 0 {
        lemma_best_recreated_upto_properties(vs, n - 1);
    }
}

/// What the base-class helpers mean, for each prefix length.
pub proof fn lemma_base_upto_properties(vs: Seq<ChildViewport>, n: int)
    requires
        n <= vs.len(),
    ensures
        match first_base_upto(vs, n) {
            Option::Some(i) => 0 <= i < n && is_base(vs[i]) && base_count_upto(vs, n) >= 1,
            Option::None => base_count_upto(vs, n) == 0,
        },
        base_count_upto(vs, n) == 0 ==> forall|j: int| 0 <= j < n ==> !is_base(vs[j]),
    decreases n,
{
    if n > 0 {
        lemma_base_upto_properties(vs, n - 1);
    }
}

/// The active viewport, when one resolves, sits inside the set; and
/// whenever any recreated viewport is attached, the active one is
/// recreated and carries the numerically greatest generation.
pub proof fn lemma_active_prefers_newest_recreated(vs: Seq<ChildViewport>)
    requires
        exists|j: int| 0 <= j < vs.len() && is_recreated(vs[j]),
    ensures
        active_index(vs) matches Some(i) && 0 <= i < vs.len() && is_recreated(vs[i]) && forall|
            j: int,
        | 0 <= j < vs.len() && is_recreated(vs[j]) ==> generation_of(vs[j]) <= generation_of(vs[i]),
{
    lemma_best_recreated_upto_properties(vs, vs.len() as int);
}

/// With no recreated viewport attached, the active one is the sole base
/// viewport — and only if exactly one is attached.
pub proof fn lemma_active_sole_base(vs: Seq<ChildViewport>)
    requires
        forall|j: int| 0 <= j < vs.len() ==> !is_recreated(vs[j]),
    ensures
        base_count_upto(vs, vs.len() as int) == 1 ==> (active_index(vs) matches Some(i) && 0 <= i
            < vs.len() && is_base(vs[i])),
        base_count_upto(vs, vs.len() as int) != 1 ==> active_index(vs) is None,
{
    lemma_best_recreated_upto_properties(vs, vs.len() as int);
    lemma_base_upto_properties(vs, vs.len() as int);
}

/// Whatever the priority rule picks sits inside the set.
pub proof fn lemma_active_index_in_range(vs: Seq<ChildViewport>)
    ensures
        active_index(vs) matches Some(i) ==> 0 <= i < vs.len(),
{
    lemma_best_recreated_upto_properties(vs, vs.len() as int);
    lemma_base_upto_properties(vs, vs.len() as int);
}

/// The helpers read only the prefix they are given: two sets equal on the
/// first `n` entries resolve alike up to `n`.
pub proof fn lemma_locator_prefix(vs1: Seq<ChildViewport>, vs2: Seq<ChildViewport>, n: int)
    requires
        n <= vs1.len(),
        n <= vs2.len(),
        forall|k: int| 0 <= k < n ==> vs1[k] == vs2[k],
    ensures
        best_recreated_upto(vs1, n) == best_recreated_upto(vs2, n),
        base_count_upto(vs1, n) == base_count_upto(vs2, n),
        first_base_upto(vs1, n) == first_base_upto(vs2, n),
    decreases n,
{
    if n > 0 {
        lemma_locator_prefix(vs1, vs2, n - 1);
        lemma_best_recreated_upto_properties(vs1, n - 1);
    }
}

/// The priority rule reads only each viewport's kind: geometry, target
/// and identity never move the choice.
pub proof fn lemma_active_index_depends_on_kinds(vs1: Seq<ChildViewport>, vs2: Seq<ChildViewport>)
    requires
        vs1.len() == vs2.len(),
        forall|k: int| 0 <= k < vs1.len() ==> vs1[k].kind == vs2[k].kind,
    ensures
        active_index(vs1) == active_index(vs2),
{
    lemma_locator_kinds_upto(vs1, vs2, vs1.len() as int);
}

proof fn lemma_locator_kinds_upto(vs1: Seq<ChildViewport>, vs2: Seq<ChildViewport>, n: int)
    requires
        vs1.len() == vs2.len(),
        n <= vs1.len(),
        forall|k: int| 0 <= k < vs1.len() ==> vs1[k].kind == vs2[k].kind,
    ensures
        best_recreated_upto(vs1, n) == best_recreated_upto(vs2, n),
        base_count_upto(vs1, n) == base_count_upto(vs2, n),
        first_base_upto(vs1, n) == first_base_upto(vs2, n),
    decreases n,
{
    if n > 0 {
        lemma_locator_kinds_upto(vs1, vs2, n - 1);
        lemma_best_recreated_upto_properties(vs1, n - 1);
    }
}

/// Attaching a freshly minted recreated viewport — its generation above
/// every one already attached — makes it the active viewport, whatever
/// stale surfaces remain.
pub proof fn lemma_active_after_attach(vs: Seq<ChildViewport>, nv: ChildViewport)
    requires
        is_recreated(nv),
        generations_below(vs, generation_of(nv)),
    ensures
        active_index(vs.push(nv)) == Some(vs.len() as int),
{
    let pushed = vs.push(nv);
    lemma_locator_prefix(pushed, vs, vs.len() as int);
    lemma_best_recreated_upto_properties(vs, vs.len() as int);
    assert(best_recreated_upto(pushed, vs.len() as int) == best_recreated_upto(
        vs,
        vs.len() as int,
    ));
    assert(pushed[vs.len() as int] == nv);
    assert(best_recreated_upto(pushed, vs.len() as int + 1) == Some(vs.len() as int));
}

/// Locate the active viewport: scan once, tracking the best recreated
/// candidate and the base-class tally, and apply the priority rule.
pub fn find_active_index(viewports: &Vec<ChildViewport>) -> (r: Option<usize>)
    ensures
        match r {
            Option::Some(i) => active_index(viewports@) == Some(i as int) && i
                < viewports@.len(),
            Option::None => active_index(viewports@) is None,
        },
{
    let ghost vs = viewports@;
    let n = viewports.len();
    let mut best: Option<usize> = None;
    let mut base_count: usize = 0;
    let mut first_base: Option<usize> = None;
    let mut i: usize = 0;
    while i < n
        invariant
            n == vs.len(),
            i <= n,
            vs == viewports@,
            match best {
                Option::Some(b) => best_recreated_upto(vs, i as int) == Some(b as int) && b < i,
                Option::None => best_recreated_upto(vs, i as int) is None,
            },
            base_count == base_count_upto(vs, i as int),
            base_count <= i,
            match first_base {
                Option::Some(b) => first_base_upto(vs, i as int) == Some(b as int) && b < i,
                Option::None => first_base_upto(vs, i as int) is None,
            },
        decreases n - i,
    {
        proof {
            lemma_best_recreated_upto_properties(vs, i as int);
        }
        match viewports[i].kind {
            ViewportKind::Recreated { generation } => {
                match best {
                    Option::Some(b) => {
                        let best_generation = match viewports[b].kind {
                            ViewportKind::Recreated { generation: g } => g,
                            ViewportKind::Base { .. } => 0,
                        };
                        if generation > best_generation {
                            best = Some(i);
                        }
                    },
                    Option::None => {
                        best = Some(i);
                    },
                }
            },
            ViewportKind::Base { .. } => {
                base_count = base_count + 1;
                if first_base.is_none() {
                    first_base = Some(i);
                }
            },
        }
        i = i + 1;
    }
    match best {
        Option::Some(b) => Some(b),
        Option::None => {
            if base_count == 1 {
                first_base
            } else {
                None
            }
        },
    }
}

} // verus!
