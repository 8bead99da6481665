use vstd::prelude::*;
use crate::call_id::CallId;
use crate::types::{ApplicationEvent, FeatureLevel};

verus! {

/// The tie-break both ends apply to two crossing calls: the call with the
/// larger identifier survives; where the identifiers collide, the call whose
/// identity holds the larger priority token survives.
pub open spec fn survives_glare(
    local: CallId,
    local_priority: u64,
    remote: CallId,
    remote_priority: u64,
) -> bool {
    local@ > remote@ || (local@ == remote@ && local_priority > remote_priority)
}

/// Whether the local call survives glare against the remote call `remote`.
/// Each priority token belongs to the identity that placed the call.
pub fn local_survives_glare(
    local: CallId,
    local_priority: u64,
    remote: CallId,
    remote_priority: u64,
) -> (r: bool)
    ensures
        r == survives_glare(local, local_priority, remote, remote_priority),
{
    local.as_u64() > remote.as_u64() || (local.as_u64() == remote.as_u64() && local_priority
        > remote_priority)
}

/// Glare symmetry: for two crossing calls placed by identities with distinct
/// priority tokens, exactly one side keeps its call, whichever side evaluates
/// the rule, even where the call identifiers collide.
pub proof fn glare_exactly_one_survives(a: CallId, pa: u64, b: CallId, pb: u64)
    requires
        pa != pb,
    ensures
        survives_glare(a, pa, b, pb) != survives_glare(b, pb, a, pa),
{
}

/// Both ends name the same survivor: the outcome depends on the pair of calls,
/// not on which end decides.
pub proof fn glare_winner_agreed(a: CallId, pa: u64, b: CallId, pb: u64)
    requires
        pa != pb,
    ensures
        survives_glare(a, pa, b, pb) == !survives_glare(b, pb, a, pa),
        survives_glare(a, pa, b, pb) ==> a@ > b@ || (a@ == b@ && pa > pb),
        survives_glare(b, pb, a, pa) ==> b@ > a@ || (a@ == b@ && pb > pa),
{
}

/// What becomes of a remote offer, given the calls already in progress.
#[derive(Clone, Copy, Debug, PartialEq, Eq, Structural)]
pub enum OfferDecision {
    /// Create the incoming call.
    Accept,
    /// Create the incoming call; the local outgoing call to the same remote
    /// ends with `EndedRemoteGlare`.
    AcceptAndEndLocal,
    /// Do not create the call; the application is told why.
    Reject(ApplicationEvent),
}

/// The decision for a remote offer `offer` from a remote of `feature_level`.
/// `offer_priority` is the priority token of the offering identity and
/// `local_priority` that of this one. `active` is the identifier of the call
/// in progress, if any, `same_remote_outgoing` whether that call is an
/// unanswered outgoing call to the same remote, and `linked_device` whether
/// this device is a linked one.
pub open spec fn offer_decision_spec(
    offer: CallId,
    offer_priority: u64,
    local_priority: u64,
    feature_level: FeatureLevel,
    linked_device: bool,
    active: Option<CallId>,
    same_remote_outgoing: bool,
) -> OfferDecision {
    if linked_device && feature_level == FeatureLevel::Unspecified {
        OfferDecision::Reject(ApplicationEvent::IgnoreCallsFromNonMultiringCallers)
    } else if active is None {
        OfferDecision::Accept
    } else if same_remote_outgoing {
        if survives_glare(active->0, local_priority, offer, offer_priority) {
            OfferDecision::Reject(ApplicationEvent::ReceivedOfferWithGlare)
        } else {
            OfferDecision::AcceptAndEndLocal
        }
    } else {
        OfferDecision::Reject(ApplicationEvent::ReceivedOfferWhileActive)
    }
}

/// Arbitrates a remote offer against the calls in progress.
pub fn decide_offer(
    offer: CallId,
    offer_priority: u64,
    local_priority: u64,
    feature_level: FeatureLevel,
    linked_device: bool,
    active: Option<CallId>,
    same_remote_outgoing: bool,
) -> (r: OfferDecision)
    ensures
        r == offer_decision_spec(
            offer,
            offer_priority,
            local_priority,
            feature_level,
            linked_device,
            active,
            same_remote_outgoing,
        ),
{
    if linked_device && feature_level == FeatureLevel::Unspecified {
        return OfferDecision::Reject(ApplicationEvent::IgnoreCallsFromNonMultiringCallers);
    }
    match active {
        None => OfferDecision::Accept,
        Some(local) => {
            if !same_remote_outgoing {
                OfferDecision::Reject(ApplicationEvent::ReceivedOfferWhileActive)
            } else if local_survives_glare(local, local_priority, offer, offer_priority) {
                OfferDecision::Reject(ApplicationEvent::ReceivedOfferWithGlare)
            } else {
                OfferDecision::AcceptAndEndLocal
            }
        },
    }
}

/// Two identities that offer to each other at once, each with its own
/// outgoing call in progress: exactly one of the two ends its own call and
/// takes the other's offer; the other rejects the offer it received.
pub proof fn glare_offers_resolve_once(
    a: CallId,
    pa: u64,
    b: CallId,
    pb: u64,
    fa: FeatureLevel,
    fb: FeatureLevel,
)
    requires
        pa != pb,
    ensures
        (offer_decision_spec(b, pb, pa, fb, false, Some(a), true) == OfferDecision::AcceptAndEndLocal)
            != (offer_decision_spec(a, pa, pb, fa, false, Some(b), true)
            == OfferDecision::AcceptAndEndLocal),
        fa == FeatureLevel::MultiRing && fb == FeatureLevel::MultiRing ==> (offer_decision_spec(
            b,
            pb,
            pa,
            fb,
            false,
            Some(a),
            true,
        ) == OfferDecision::AcceptAndEndLocal) == (offer_decision_spec(
            a,
            pa,
            pb,
            fa,
            false,
            Some(b),
            true,
        ) == OfferDecision::Reject(ApplicationEvent::ReceivedOfferWithGlare)),
{
}

} // verus!
