//! Lifecycle laws: a context is driven from `Created` by a
//! sequence of events, and over any such sequence the actions it hands the
//! host obey the guarantees stated here — at most one resolution, no deny
//! after a resume, no dispatch without credentials, and isolation between
//! call handles.

use vstd::prelude::*;
use crate::config::ConfigView;
use crate::credentials::spec_extract;
use crate::evaluate::spec_contains;
use crate::evaluate::spec_token_present;
use crate::exchange::spec_credential_literal;
use crate::exchange::spec_exchange_body;
use crate::gate::DenyReason;
use crate::gate::SpecAction;
use crate::gate::SpecEvent;
use crate::gate::SpecState;
use crate::gate::access_denied_message;
use crate::gate::api_failure_message;
use crate::gate::spec_step;

verus! {

/// Whether `s` is terminal: the request has been resolved, one way or the
/// other.
pub open spec fn is_terminal(s: SpecState) -> bool {
    s is Authorized || s is Denied
}

/// The state a context reaches after processing `events` from `Created`.
pub open spec fn spec_run(cfg: ConfigView, events: Seq<SpecEvent>) -> SpecState
    decreases events.len(),
{
    if events.len() == 0 {
        SpecState::Created
    } else {
        spec_step(cfg, spec_run(cfg, events.drop_last()), events.last()).0
    }
}

/// The actions a context hands the host while processing `events` from
/// `Created`, one per event.
pub open spec fn spec_actions(cfg: ConfigView, events: Seq<SpecEvent>) -> Seq<SpecAction>
    decreases events.len(),
{
    if events.len() == 0 {
        Seq::empty()
    } else {
        spec_actions(cfg, events.drop_last()).push(
            spec_step(cfg, spec_run(cfg, events.drop_last()), events.last()).1,
        )
    }
}

/// How many of the actions resume the request.
pub open spec fn count_resumes(actions: Seq<SpecAction>) -> nat
    decreases actions.len(),
{
    if actions.len() == 0 {
        0
    } else {
        count_resumes(actions.drop_last()) + if actions.last() is Resume {
            1nat
        } else {
            0nat
        }
    }
}

/// How many of the actions deny the request.
pub open spec fn count_denies(actions: Seq<SpecAction>) -> nat
    decreases actions.len(),
{
    if actions.len() == 0 {
        0
    } else {
        count_denies(actions.drop_last()) + if actions.last() is Deny {
            1nat
        } else {
            0nat
        }
    }
}

/// How many of the actions dispatch an exchange call.
pub open spec fn count_dispatches(actions: Seq<SpecAction>) -> nat
    decreases actions.len(),
{
    if actions.len() == 0 {
        0
    } else {
        count_dispatches(actions.drop_last()) + if actions.last() is Dispatch {
            1nat
        } else {
            0nat
        }
    }
}

/// Pushing one action extends each count by whether that action matches.
proof fn lemma_counts_push(actions: Seq<SpecAction>, x: SpecAction)
    ensures
        count_resumes(actions.push(x)) == count_resumes(actions) + if x is Resume {
            1nat
        } else {
            0nat
        },
        count_denies(actions.push(x)) == count_denies(actions) + if x is Deny {
            1nat
        } else {
            0nat
        },
        count_dispatches(actions.push(x)) == count_dispatches(actions) + if x is Dispatch {
            1nat
        } else {
            0nat
        },
{
    assert(actions.push(x).drop_last() =~= actions);
    assert(actions.push(x).last() == x);
}

/// Running one more event steps the state and pushes the step's action.
proof fn lemma_run_push(cfg: ConfigView, events: Seq<SpecEvent>, e: SpecEvent)
    ensures
        spec_run(cfg, events.push(e)) == spec_step(cfg, spec_run(cfg, events), e).0,
        spec_actions(cfg, events.push(e)) == spec_actions(cfg, events).push(
            spec_step(cfg, spec_run(cfg, events), e).1,
        ),
{
    assert(events.push(e).drop_last() =~= events);
    assert(events.push(e).last() == e);
}

/// A terminal state absorbs every event: the state stays, and nothing but
/// `Ignore` is handed back.
pub proof fn lemma_terminal_step(cfg: ConfigView, s: SpecState, e: SpecEvent)
    requires
        is_terminal(s),
    ensures
        spec_step(cfg, s, e) == (s, SpecAction::Ignore),
{
    match e {
        SpecEvent::RequestHeaders { .. } => {},
        SpecEvent::DispatchResult { .. } => {},
        SpecEvent::ExchangeCallback { .. } => {},
    }
}

/// The lifecycle accounting invariant: over any event sequence, the state a
/// context is in determines exactly how many dispatch, resume and deny
/// actions it has handed the host — in particular, a non-terminal context
/// has resolved nothing, an authorized one has resumed exactly once and
/// denied nothing, and a denied one has denied exactly once and resumed
/// nothing.
pub proof fn lemma_lifecycle_accounting(cfg: ConfigView, events: Seq<SpecEvent>)
    ensures
        ({
            let s = spec_run(cfg, events);
            let acts = spec_actions(cfg, events);
            &&& (s is Created ==> count_resumes(acts) == 0 && count_denies(acts) == 0
                && count_dispatches(acts) == 0)
            &&& (s is CredentialExtracted ==> count_resumes(acts) == 0 && count_denies(acts) == 0
                && count_dispatches(acts) == 1)
            &&& (s is TokenInFlight ==> count_resumes(acts) == 0 && count_denies(acts) == 0
                && count_dispatches(acts) == 1)
            &&& (s is Authorized ==> count_resumes(acts) == 1 && count_denies(acts) == 0
                && count_dispatches(acts) == 1)
            &&& (s matches SpecState::Denied { reason } ==> count_resumes(acts) == 0
                && count_denies(acts) == 1 && count_dispatches(acts) == (
            if reason is MissingCredentials {
                0nat
            } else {
                1nat
            }))
        }),
    decreases events.len(),
{
    if events.len() == 0 {
    } else {
        let prior = events.drop_last();
        let e = events.last();
        lemma_lifecycle_accounting(cfg, prior);
        lemma_counts_push(spec_actions(cfg, prior), spec_step(cfg, spec_run(cfg, prior), e).1);
        match e {
            SpecEvent::RequestHeaders { .. } => {},
            SpecEvent::DispatchResult { .. } => {},
            SpecEvent::ExchangeCallback { .. } => {},
        }
    }
}

/// A context never produces both a resume and a deny: the two terminal
/// outcomes are mutually exclusive, and there is at most one resolution
/// over the whole lifetime.
pub proof fn lemma_resolution_exclusive(cfg: ConfigView, events: Seq<SpecEvent>)
    ensures
        count_resumes(spec_actions(cfg, events)) + count_denies(spec_actions(cfg, events)) <= 1,
{
    lemma_lifecycle_accounting(cfg, events);
}

/// A context dispatches at most one exchange call over its whole lifetime.
pub proof fn lemma_at_most_one_dispatch(cfg: ConfigView, events: Seq<SpecEvent>)
    ensures
        count_dispatches(spec_actions(cfg, events)) <= 1,
{
    lemma_lifecycle_accounting(cfg, events);
}

/// The actions of a run extend those of any of its prefixes.
pub proof fn lemma_actions_prefix(cfg: ConfigView, events: Seq<SpecEvent>, more: Seq<SpecEvent>)
    ensures
        spec_actions(cfg, events + more).len() == events.len() + more.len(),
        spec_actions(cfg, events + more).subrange(0, events.len() as int) == spec_actions(
            cfg,
            events,
        ),
    decreases more.len(),
{
    lemma_actions_len(cfg, events);
    if more.len() == 0 {
        assert(events + more =~= events);
        assert(spec_actions(cfg, events).subrange(0, events.len() as int) =~= spec_actions(
            cfg,
            events,
        ));
    } else {
        lemma_actions_prefix(cfg, events, more.drop_last());
        lemma_actions_len(cfg, events + more.drop_last());
        assert((events + more).drop_last() =~= events + more.drop_last());
        assert((events + more).last() == more.last());
        let base = spec_actions(cfg, events + more.drop_last());
        let x = spec_step(cfg, spec_run(cfg, events + more.drop_last()), more.last()).1;
        assert(spec_actions(cfg, events + more) == base.push(x));
        assert(base.push(x).subrange(0, events.len() as int) =~= base.subrange(
            0,
            events.len() as int,
        ));
    }
}

/// A run hands back exactly one action per event.
pub proof fn lemma_actions_len(cfg: ConfigView, events: Seq<SpecEvent>)
    ensures
        spec_actions(cfg, events).len() == events.len(),
    decreases events.len(),
{
    if events.len() == 0 {
    } else {
        lemma_actions_len(cfg, events.drop_last());
    }
}

/// Once a context is terminal, further events change nothing: the state
/// stays, and no resume, deny or dispatch is ever handed back again.
pub proof fn lemma_terminal_absorbing(cfg: ConfigView, events: Seq<SpecEvent>, more: Seq<SpecEvent>)
    requires
        is_terminal(spec_run(cfg, events)),
    ensures
        spec_run(cfg, events + more) == spec_run(cfg, events),
        count_resumes(spec_actions(cfg, events + more)) == count_resumes(spec_actions(cfg, events)),
        count_denies(spec_actions(cfg, events + more)) == count_denies(spec_actions(cfg, events)),
        count_dispatches(spec_actions(cfg, events + more)) == count_dispatches(
            spec_actions(cfg, events),
        ),
    decreases more.len(),
{
    if more.len() == 0 {
        assert(events + more =~= events);
    } else {
        lemma_terminal_absorbing(cfg, events, more.drop_last());
        assert((events + more).drop_last() =~= events + more.drop_last());
        assert((events + more).last() == more.last());
        let s = spec_run(cfg, events + more.drop_last());
        lemma_terminal_step(cfg, s, more.last());
        lemma_counts_push(spec_actions(cfg, events + more.drop_last()), SpecAction::Ignore);
    }
}

/// From any state past `Created`, no further dispatch is ever handed back,
/// and the context never returns to `Created`.
proof fn lemma_dispatch_stable(cfg: ConfigView, events: Seq<SpecEvent>, more: Seq<SpecEvent>)
    requires
        !(spec_run(cfg, events) is Created),
    ensures
        !(spec_run(cfg, events + more) is Created),
        count_dispatches(spec_actions(cfg, events + more)) == count_dispatches(
            spec_actions(cfg, events),
        ),
    decreases more.len(),
{
    if more.len() == 0 {
        assert(events + more =~= events);
    } else {
        lemma_dispatch_stable(cfg, events, more.drop_last());
        assert((events + more).drop_last() =~= events + more.drop_last());
        assert((events + more).last() == more.last());
        let s = spec_run(cfg, events + more.drop_last());
        let x = spec_step(cfg, s, more.last()).1;
        lemma_counts_push(spec_actions(cfg, events + more.drop_last()), x);
        match more.last() {
            SpecEvent::RequestHeaders { .. } => {},
            SpecEvent::DispatchResult { .. } => {},
            SpecEvent::ExchangeCallback { .. } => {},
        }
    }
}

/// Delivery of the request headers decides the context: when either
/// credential header is missing the context is denied on the spot with the
/// `API invocation failure` message and never dispatches anything; when
/// both are present, exactly one exchange call is dispatched over the whole
/// lifetime, and its body carries the credential pair verbatim.
pub proof fn lemma_headers_decide(
    cfg: ConfigView,
    headers: Seq<(String, String)>,
    rest: Seq<SpecEvent>,
)
    ensures
        ({
            let events = seq![SpecEvent::RequestHeaders { headers }] + rest;
            let acts = spec_actions(cfg, events);
            match spec_extract(headers, cfg) {
                None => {
                    &&& acts[0] == SpecAction::Deny { message: api_failure_message() }
                    &&& count_dispatches(acts) == 0
                    &&& count_denies(acts) == 1
                    &&& count_resumes(acts) == 0
                    &&& spec_run(cfg, events) == (SpecState::Denied {
                        reason: DenyReason::MissingCredentials,
                    })
                },
                Some(cred) => {
                    &&& (acts[0] matches SpecAction::Dispatch { body } && body
                        == spec_exchange_body(cfg.idp_audience, cred.0, cred.1) && spec_contains(
                        body,
                        spec_credential_literal(cred.0, cred.1),
                    ))
                    &&& count_dispatches(acts) == 1
                },
            }
        }),
{
    let first = Seq::<SpecEvent>::empty().push(SpecEvent::RequestHeaders { headers });
    assert(first =~= seq![SpecEvent::RequestHeaders { headers }]);
    let events = first + rest;
    let step = spec_step(cfg, SpecState::Created, SpecEvent::RequestHeaders { headers });
    lemma_run_push(cfg, Seq::<SpecEvent>::empty(), SpecEvent::RequestHeaders { headers });
    assert(spec_run(cfg, Seq::<SpecEvent>::empty()) == SpecState::Created);
    assert(spec_actions(cfg, Seq::<SpecEvent>::empty()) == Seq::<SpecAction>::empty());
    assert(spec_run(cfg, first) == step.0);
    assert(spec_actions(cfg, first) == Seq::<SpecAction>::empty().push(step.1));
    lemma_counts_push(Seq::<SpecAction>::empty(), step.1);
    lemma_actions_prefix(cfg, first, rest);
    lemma_actions_len(cfg, events);
    assert(spec_actions(cfg, events)[0] == spec_actions(cfg, events).subrange(0, 1)[0]);
    match spec_extract(headers, cfg) {
        None => {
            lemma_terminal_absorbing(cfg, first, rest);
        },
        Some(cred) => {
            crate::exchange::lemma_exchange_body_contains_credentials(
                cfg.idp_audience,
                cred.0,
                cred.1,
            );
            lemma_dispatch_stable(cfg, first, rest);
        },
    }
}

/// Completion of the in-flight exchange resolves the context exactly once:
/// a body carrying the token marker resumes the request exactly once and
/// never denies it; a body without the marker — or no response at all —
/// denies it exactly once, with the `Access Denied` message, and never
/// resumes it. This holds over the whole lifetime, whatever events follow.
pub proof fn lemma_callback_resolution(
    cfg: ConfigView,
    prefix: Seq<SpecEvent>,
    call_handle: u32,
    body: Option<String>,
    rest: Seq<SpecEvent>,
)
    requires
        spec_run(cfg, prefix) == (SpecState::TokenInFlight { call_handle }),
    ensures
        ({
            let events = prefix.push(SpecEvent::ExchangeCallback { call_handle, body }) + rest;
            let acts = spec_actions(cfg, events);
            if body matches Some(b) && spec_token_present(b@) {
                &&& spec_run(cfg, events) == SpecState::Authorized
                &&& acts[prefix.len() as int] == SpecAction::Resume
                &&& count_resumes(acts) == 1
                &&& count_denies(acts) == 0
            } else {
                &&& spec_run(cfg, events) matches SpecState::Denied { reason }
                &&& (reason == if body is Some {
                    DenyReason::InvalidCredentials
                } else {
                    DenyReason::Timeout
                })
                &&& acts[prefix.len() as int] == (SpecAction::Deny {
                    message: access_denied_message(),
                })
                &&& count_denies(acts) == 1
                &&& count_resumes(acts) == 0
            }
        }),
{
    let cb = SpecEvent::ExchangeCallback { call_handle, body };
    lemma_lifecycle_accounting(cfg, prefix);
    lemma_run_push(cfg, prefix, cb);
    lemma_counts_push(spec_actions(cfg, prefix), spec_step(cfg, spec_run(cfg, prefix), cb).1);
    lemma_terminal_absorbing(cfg, prefix.push(cb), rest);
    lemma_actions_len(cfg, prefix);
    lemma_actions_prefix(cfg, prefix.push(cb), rest);
    let resolved = prefix.push(cb);
    let events = resolved + rest;
    assert(spec_actions(cfg, events)[prefix.len() as int] == spec_actions(cfg, events).subrange(
        0,
        resolved.len() as int,
    )[prefix.len() as int]);
    assert(spec_actions(cfg, resolved)[prefix.len() as int] == spec_step(
        cfg,
        spec_run(cfg, prefix),
        cb,
    ).1);
}

/// Call handles isolate contexts: a callback bound to one context's call
/// handle is ignored by every context that is not awaiting exactly that
/// handle — in particular by any concurrent context with a different
/// in-flight call.
pub proof fn lemma_callback_isolation(
    cfg: ConfigView,
    s: SpecState,
    call_handle: u32,
    body: Option<String>,
)
    requires
        !(s == (SpecState::TokenInFlight { call_handle })),
    ensures
        spec_step(cfg, s, SpecEvent::ExchangeCallback { call_handle, body }) == (
            s,
            SpecAction::Ignore,
        ),
{
}

} // verus!
