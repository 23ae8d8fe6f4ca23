use vstd::prelude::*;
use vstd::string::StrSliceExecFns;
use crate::errors::CmdError;
use crate::viewport::LoadTarget;

verus! {

/// Whether the standard URL parser accepts the text as a well-formed
/// absolute URL. The result is a function of the text alone.
pub uninterp spec fn is_valid_url(s: Seq<char>) -> bool;

/// Relies on url::Url::parse: it accepts or rejects a string on its
/// syntax alone, deterministically, without panicking.
#[verifier::external_body]
fn url_syntax_ok(s: &str) -> (r: bool)
    ensures
        r == is_valid_url(s@),
{
    url::Url::parse(s).is_ok()
}

/// The neutral placeholder a viewport shows when no URL is chosen.
pub open spec fn placeholder_text() -> Seq<char> {
    "about:blank"@
}

/// Whether the text is exactly the neutral placeholder.
pub fn is_placeholder_text(s: &str) -> (r: bool)
    ensures
        r == (s@ == placeholder_text()),
{
    let lit: &str = "about:blank";
    proof {
        reveal_strlit("about:blank");
    }
    let n = s.unicode_len();
    if n != lit.unicode_len() {
        return false;
    }
    let mut i: usize = 0;
    while i < n
        invariant
            n == s@.len(),
            n == lit@.len(),
            i <= n,
            lit@ == placeholder_text(),
            forall|j: int| 0 <= j < i ==> s@[j] == lit@[j],
        decreases n - i,
    {
        if s.get_char(i) != lit.get_char(i) {
            return false;
        }
        i = i + 1;
    }
    proof {
        assert(s@ =~= lit@);
    }
    true
}

/// Validate a navigation request: returns the URL as a load target, or
/// rejects text the URL parser does not accept.
pub fn validate_url(url: &str) -> (r: Result<LoadTarget, CmdError>)
    ensures
        is_valid_url(url@) ==> (r matches Ok(t) && t matches LoadTarget::Url(s) && s@ == url@),
        !is_valid_url(url@) ==> r == Err::<LoadTarget, CmdError>(CmdError::InvalidUrl),
{
    if url_syntax_ok(url) {
        Ok(LoadTarget::Url(url.to_owned()))
    } else {
        Err(CmdError::InvalidUrl)
    }
}

/// Resolve the reload target for a recreated viewport: empty text or the
/// neutral placeholder loads the placeholder rather than failing; any
/// other text must be a well-formed URL.
pub fn resolve_switch_target(current_url: &str) -> (r: Result<LoadTarget, CmdError>)
    ensures
        (current_url@.len() == 0 || current_url@ == placeholder_text()) ==> r == Ok::<
            LoadTarget,
            CmdError,
        >(LoadTarget::Placeholder),
        !(current_url@.len() == 0 || current_url@ == placeholder_text()) && is_valid_url(
            current_url@,
        ) ==> (r matches Ok(t) && t matches LoadTarget::Url(s) && s@ == current_url@),
        !(current_url@.len() == 0 || current_url@ == placeholder_text()) && !is_valid_url(
            current_url@,
        ) ==> r == Err::<LoadTarget, CmdError>(CmdError::InvalidUrl),
{
    if current_url.is_empty() || is_placeholder_text(current_url) {
        Ok(LoadTarget::Placeholder)
    } else {
        validate_url(current_url)
    }
}

} // verus!
