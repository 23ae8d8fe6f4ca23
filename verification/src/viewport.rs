use vstd::prelude::*;
use crate::geometry::Rect;

verus! {

/// Which naming class a child viewport belongs to.
///
/// A base viewport is named from the id of the window it was created with;
/// a recreated viewport is named from a recreation generation that grows
/// strictly across the whole process. The class decides priority when the
/// active viewport is resolved: a recreated surface always supersedes a
/// base one still attached beside it.
#[derive(Clone, Copy, PartialEq, Eq, Structural, Debug)]
pub enum ViewportKind {
    Base { window_id: u32 },
    Recreated { generation: u32 },
}

/// The client identity a viewport advertises to the content it loads.
/// The platform surface fixes it at construction; changing it takes a
/// full recreate of the viewport.
#[derive(Clone, Copy, PartialEq, Eq, Structural, Debug)]
pub enum ClientIdentity {
    Mobile,
    Desktop,
}

/// What a viewport is asked to show: the neutral placeholder, or a URL
/// that passed syntax validation when it was accepted.
#[derive(Clone, PartialEq, Eq, Debug)]
pub enum LoadTarget {
    Placeholder,
    Url(String),
}

/// One embedded content surface inside a host window.
#[derive(Clone, PartialEq, Eq, Debug)]
pub struct ChildViewport {
    pub kind: ViewportKind,
    pub geometry: Rect,
    pub target: LoadTarget,
    pub identity: ClientIdentity,
}

pub open spec fn is_recreated(v: ChildViewport) -> bool {
    v.kind is Recreated
}

pub open spec fn is_base(v: ChildViewport) -> bool {
    v.kind is Base
}

/// The generation a recreated viewport carries.
pub open spec fn generation_of(v: ChildViewport) -> u32
    recommends
        is_recreated(v),
{
    v.kind->generation
}

/// Every recreated viewport in the set carries a generation below the
/// bound. This is the label-namespace invariant relative to the global
/// recreation counter: generations are minted from the counter before it
/// steps, so every attached one sits strictly below the counter's value.
pub open spec fn generations_below(vs: Seq<ChildViewport>, bound: u32) -> bool {
    forall|j: int| 0 <= j < vs.len() && is_recreated(vs[j]) ==> generation_of(vs[j]) < bound
}

impl ClientIdentity {
    /// The identity string handed to the platform surface for this class.
    pub fn user_agent(&self) -> (r: &'static str)
        ensures
            r@ == user_agent_text(*self),
    {
        match self {
            ClientIdentity::Mobile => {
                "Mozilla/5.0 (iPhone; CPU iPhone OS 16_6 like Mac OS X) AppleWebKit/605.1.15 (KHTML, like Gecko) Version/16.6 Mobile/15E148 Safari/604.1"
            },
            ClientIdentity::Desktop => {
                "Mozilla/5.0 (Macintosh; Intel Mac OS X 10_15_7) AppleWebKit/537.36 (KHTML, like Gecko) Chrome/120.0.0.0 Safari/537.36"
            },
        }
    }

    /// The identity class a switch request with the given flag asks for.
    pub fn from_mobile_flag(mobile: bool) -> (r: ClientIdentity)
        ensures
            r == (if mobile { ClientIdentity::Mobile } else { ClientIdentity::Desktop }),
    {
        if mobile {
            ClientIdentity::Mobile
        } else {
            ClientIdentity::Desktop
        }
    }
}

/// The text each identity class advertises.
pub open spec fn user_agent_text(id: ClientIdentity) -> Seq<char> {
    match id {
        ClientIdentity::Mobile => {
            "Mozilla/5.0 (iPhone; CPU iPhone OS 16_6 like Mac OS X) AppleWebKit/605.1.15 (KHTML, like Gecko) Version/16.6 Mobile/15E148 Safari/604.1"@
        },
        ClientIdentity::Desktop => {
            "Mozilla/5.0 (Macintosh; Intel Mac OS X 10_15_7) AppleWebKit/537.36 (KHTML, like Gecko) Chrome/120.0.0.0 Safari/537.36"@
        },
    }
}

} // verus!
