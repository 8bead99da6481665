use vstd::prelude::*;
use crate::types::ApplicationEvent;

verus! {

pub open spec fn is_ringing(e: ApplicationEvent) -> bool {
    e == ApplicationEvent::LocalRinging || e == ApplicationEvent::RemoteRinging
}

pub open spec fn is_accepted(e: ApplicationEvent) -> bool {
    e == ApplicationEvent::LocalAccepted || e == ApplicationEvent::RemoteAccepted
}

/// The events that end a call, each for one distinct cause.
pub open spec fn is_end_event(e: ApplicationEvent) -> bool {
    match e {
        ApplicationEvent::EndedLocalHangup
        | ApplicationEvent::EndedRemoteHangup
        | ApplicationEvent::EndedRemoteHangupNeedPermission
        | ApplicationEvent::EndedRemoteHangupAccepted
        | ApplicationEvent::EndedRemoteHangupDeclined
        | ApplicationEvent::EndedRemoteHangupBusy
        | ApplicationEvent::EndedRemoteBusy
        | ApplicationEvent::EndedRemoteGlare
        | ApplicationEvent::EndedTimeout
        | ApplicationEvent::EndedInternalFailure
        | ApplicationEvent::EndedSignalingFailure
        | ApplicationEvent::EndedConnectionFailure
        | ApplicationEvent::EndedAppDroppedCall => true,
        _ => false,
    }
}

/// Remote video and screen-sharing toggles.
pub open spec fn is_media_event(e: ApplicationEvent) -> bool {
    match e {
        ApplicationEvent::RemoteVideoEnable
        | ApplicationEvent::RemoteVideoDisable
        | ApplicationEvent::RemoteSharingScreenEnable
        | ApplicationEvent::RemoteSharingScreenDisable => true,
        _ => false,
    }
}

pub open spec fn has_ringing(e: Seq<ApplicationEvent>) -> bool {
    exists|i: int| 0 <= i < e.len() && is_ringing(#[trigger] e[i])
}

pub open spec fn has_accepted(e: Seq<ApplicationEvent>) -> bool {
    exists|i: int| 0 <= i < e.len() && is_accepted(#[trigger] e[i])
}

pub open spec fn has_end(e: Seq<ApplicationEvent>) -> bool {
    exists|i: int| 0 <= i < e.len() && is_end_event(#[trigger] e[i])
}

/// Whether the last reconnect marker in `e` is `Reconnecting`.
pub open spec fn reconnect_open(e: Seq<ApplicationEvent>) -> bool
    decreases e.len(),
{
    if e.len() == 0 {
        false
    } else if e.last() == ApplicationEvent::Reconnecting {
        true
    } else if e.last() == ApplicationEvent::Reconnected {
        false
    } else {
        reconnect_open(e.drop_last())
    }
}

/// Each `Reconnected` closes a `Reconnecting`, and they never nest.
pub open spec fn reconnect_nested(e: Seq<ApplicationEvent>) -> bool
    decreases e.len(),
{
    if e.len() == 0 {
        true
    } else {
        reconnect_nested(e.drop_last()) && (e.last() == ApplicationEvent::Reconnecting
            ==> !reconnect_open(e.drop_last())) && (e.last() == ApplicationEvent::Reconnected
            ==> reconnect_open(e.drop_last()))
    }
}

/// The delivery order owed to the application for one call.
pub open spec fn events_ordered(e: Seq<ApplicationEvent>) -> bool {
    &&& forall|i: int| 0 <= i < e.len() && is_accepted(#[trigger] e[i]) ==> exists|j: int|
        0 <= j < i && is_ringing(#[trigger] e[j])
    &&& forall|i: int, j: int|
        0 <= i < j < e.len() && is_accepted(#[trigger] e[i]) ==> !is_ringing(#[trigger] e[j])
    &&& forall|i: int, j: int|
        0 <= i < e.len() && 0 <= j < e.len() && is_ringing(#[trigger] e[i]) && is_ringing(
            #[trigger] e[j],
        ) ==> i == j
    &&& forall|i: int, j: int|
        0 <= i < e.len() && 0 <= j < e.len() && is_accepted(#[trigger] e[i]) && is_accepted(
            #[trigger] e[j],
        ) ==> i == j
    &&& forall|i: int| 0 <= i < e.len() && is_end_event(#[trigger] e[i]) ==> i == e.len() - 1
    &&& reconnect_nested(e)
}

/// What appending one event keeps of the order, under the conditions for it.
pub proof fn lemma_push_event(e: Seq<ApplicationEvent>, x: ApplicationEvent)
    requires
        events_ordered(e),
        !has_end(e),
        is_ringing(x) ==> !has_ringing(e) && !has_accepted(e),
        is_accepted(x) ==> has_ringing(e) && !has_accepted(e),
        x == ApplicationEvent::Reconnecting ==> !reconnect_open(e),
        x == ApplicationEvent::Reconnected ==> reconnect_open(e),
    ensures
        events_ordered(e.push(x)),
        reconnect_open(e.push(x)) == (x == ApplicationEvent::Reconnecting || (x
            != ApplicationEvent::Reconnected && reconnect_open(e))),
        has_ringing(e.push(x)) == (has_ringing(e) || is_ringing(x)),
        has_accepted(e.push(x)) == (has_accepted(e) || is_accepted(x)),
        has_end(e.push(x)) == is_end_event(x),
{
    let f = e.push(x);
    assert(f.drop_last() =~= e);
    assert(f[f.len() - 1] == x);
    assert forall|i: int| 0 <= i < f.len() && is_accepted(#[trigger] f[i]) implies exists|j: int|
        0 <= j < i && is_ringing(#[trigger] f[j]) by {
        if i < e.len() {
            assert(f[i] == e[i]);
            let j = choose|j: int| 0 <= j < i && is_ringing(#[trigger] e[j]);
            assert(f[j] == e[j]);
        } else {
            let j = choose|j: int| 0 <= j < e.len() && is_ringing(#[trigger] e[j]);
            assert(f[j] == e[j]);
        }
    }
    assert forall|i: int| 0 <= i < f.len() && is_end_event(#[trigger] f[i]) implies i == f.len()
        - 1 by {
        if i < e.len() {
            assert(f[i] == e[i]);
        }
    }
    if has_ringing(f) && !has_ringing(e) {
        let i = choose|i: int| 0 <= i < f.len() && is_ringing(#[trigger] f[i]);
        if i < e.len() {
            assert(f[i] == e[i]);
        }
    }
    if has_ringing(e) {
        let i = choose|i: int| 0 <= i < e.len() && is_ringing(#[trigger] e[i]);
        assert(f[i] == e[i]);
    }
    if has_accepted(f) && !has_accepted(e) {
        let i = choose|i: int| 0 <= i < f.len() && is_accepted(#[trigger] f[i]);
        if i < e.len() {
            assert(f[i] == e[i]);
        }
    }
    if has_accepted(e) {
        let i = choose|i: int| 0 <= i < e.len() && is_accepted(#[trigger] e[i]);
        assert(f[i] == e[i]);
    }
    if has_end(f) && !is_end_event(x) {
        let i = choose|i: int| 0 <= i < f.len() && is_end_event(#[trigger] f[i]);
        assert(f[i] == e[i]);
    }
    if is_end_event(x) {
        assert(is_end_event(f[f.len() - 1]));
    }
}

/// How many times `x` occurs in `e`.
pub open spec fn count_of(e: Seq<ApplicationEvent>, x: ApplicationEvent) -> nat
    decreases e.len(),
{
    if e.len() == 0 {
        0
    } else {
        count_of(e.drop_last(), x) + if e.last() == x {
            1nat
        } else {
            0nat
        }
    }
}

proof fn lemma_nested_balance(e: Seq<ApplicationEvent>)
    requires
        reconnect_nested(e),
    ensures
        count_of(e, ApplicationEvent::Reconnecting) == count_of(e, ApplicationEvent::Reconnected)
            + if reconnect_open(e) {
            1nat
        } else {
            0nat
        },
    decreases e.len(),
{
    if e.len() > 0 {
        lemma_nested_balance(e.drop_last());
    }
}

proof fn lemma_nested_prefix(e: Seq<ApplicationEvent>, k: int)
    requires
        reconnect_nested(e),
        0 <= k <= e.len(),
    ensures
        reconnect_nested(e.subrange(0, k)),
    decreases e.len(),
{
    if k == e.len() {
        assert(e.subrange(0, k) =~= e);
    } else {
        assert(e.drop_last().subrange(0, k) =~= e.subrange(0, k));
        lemma_nested_prefix(e.drop_last(), k);
    }
}

/// Counted over every prefix of a well-nested log, `Reconnected` never
/// outnumbers `Reconnecting`, and `Reconnecting` leads by at most one: no
/// recovery is reported without a preceding loss.
pub proof fn reconnects_counted(e: Seq<ApplicationEvent>, k: int)
    requires
        events_ordered(e),
        0 <= k <= e.len(),
    ensures
        count_of(e.subrange(0, k), ApplicationEvent::Reconnected) <= count_of(
            e.subrange(0, k),
            ApplicationEvent::Reconnecting,
        ),
        count_of(e.subrange(0, k), ApplicationEvent::Reconnecting) <= count_of(
            e.subrange(0, k),
            ApplicationEvent::Reconnected,
        ) + 1,
{
    lemma_nested_prefix(e, k);
    lemma_nested_balance(e.subrange(0, k));
}

} // verus!
