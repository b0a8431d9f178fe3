//! Download of a mapset archive from a cascade of mirrors.
//!
//! The mirrors are tried in a fixed order. The caller performs each request
//! and hands back the reply; this module says whom to ask and when to stop.

use crate::http::{is_hit, is_miss, is_success, status_is_success, Reply};
use crate::text::{decimal, push_decimal};
use vstd::prelude::*;

verus! {

/// A mirror that serves mapset archives.
#[derive(Clone, Copy, Debug, PartialEq, Eq, Structural)]
pub enum Provider {
    Nerinyan,
    Catboy,
    Sayobot,
}

/// How many redirects a request follows at most.
pub const REDIRECT_LIMIT: usize = 10;

/// The result of the cascade.
#[derive(Debug, PartialEq, Eq)]
pub enum CascadeOutcome {
    /// `provider` had the archive.
    Found { provider: Provider, bytes: Vec<u8> },
    /// No mirror has the archive.
    Unavailable,
    /// The request to `provider` failed below HTTP.
    TransportError { provider: Provider, detail: String },
}

/// What to do after a reply.
#[derive(Debug, PartialEq, Eq)]
pub enum CascadeStep {
    /// Ask this mirror next.
    Try(Provider),
    /// Stop; no further request is made.
    Done(CascadeOutcome),
}

/// The result of the cascade as plain values.
pub enum OutcomeView {
    Found { provider: Provider, bytes: Seq<u8> },
    Unavailable,
    TransportError { provider: Provider, detail: Seq<char> },
}

/// What to do after a reply, as plain values.
pub enum StepView {
    Try(Provider),
    Done(OutcomeView),
}

impl View for CascadeOutcome {
    type V = OutcomeView;

    open spec fn view(&self) -> OutcomeView {
        match *self {
            CascadeOutcome::Found { provider, bytes } => OutcomeView::Found {
                provider,
                bytes: bytes@,
            },
            CascadeOutcome::Unavailable => OutcomeView::Unavailable,
            CascadeOutcome::TransportError { provider, detail } => OutcomeView::TransportError {
                provider,
                detail: detail@,
            },
        }
    }
}

impl View for CascadeStep {
    type V = StepView;

    open spec fn view(&self) -> StepView {
        match *self {
            CascadeStep::Try(provider) => StepView::Try(provider),
            CascadeStep::Done(outcome) => StepView::Done(outcome@),
        }
    }
}

/// The place of a mirror in the order of the cascade.
pub open spec fn priority(provider: Provider) -> nat {
    match provider {
        Provider::Nerinyan => 0,
        Provider::Catboy => 1,
        Provider::Sayobot => 2,
    }
}

/// The mirror that is asked first.
pub open spec fn first() -> Provider {
    Provider::Nerinyan
}

/// The mirror that is asked after `provider`, if any.
pub open spec fn successor(provider: Provider) -> Option<Provider> {
    match provider {
        Provider::Nerinyan => Some(Provider::Catboy),
        Provider::Catboy => Some(Provider::Sayobot),
        Provider::Sayobot => None,
    }
}

/// The address of the archive of mapset `id` at `provider`.
pub open spec fn download_url(provider: Provider, id: u32) -> Seq<char> {
    match provider {
        Provider::Nerinyan => "https://api.nerinyan.moe/d/"@ + decimal(id as nat),
        Provider::Catboy => "https://catboy.best/d/"@ + decimal(id as nat),
        Provider::Sayobot => "https://txy1.sayobot.cn/beatmaps/download/full/"@ + decimal(
            id as nat,
        ) + "?server=auto"@,
    }
}

/// What follows the reply of `provider`: a success ends the cascade with
/// the body, any other HTTP status moves on to the next mirror or, after
/// the last, ends it as unavailable; a failure below HTTP ends it as an
/// error.
pub open spec fn reaction(provider: Provider, reply: Reply) -> StepView {
    match reply {
        Reply::Response { status, body } => if is_success(status) {
            StepView::Done(OutcomeView::Found { provider, bytes: body@ })
        } else {
            match successor(provider) {
                Some(next) => StepView::Try(next),
                None => StepView::Done(OutcomeView::Unavailable),
            }
        },
        Reply::Transport { detail } => StepView::Done(
            OutcomeView::TransportError { provider, detail: detail@ },
        ),
    }
}

/// The outcome of a cascade that starts at `provider`, and the number of
/// requests it makes, where `replies` says what each mirror answers when
/// asked.
pub open spec fn cascade_from(
    provider: Provider,
    replies: spec_fn(Provider) -> Reply,
) -> (OutcomeView, nat)
    decreases 3 - priority(provider),
{
    match reaction(provider, replies(provider)) {
        StepView::Done(outcome) => (outcome, 1),
        StepView::Try(next) => {
            let rest = cascade_from(next, replies);
            (rest.0, rest.1 + 1)
        },
    }
}

/// The outcome of the whole cascade and the number of requests it makes.
pub open spec fn cascade(replies: spec_fn(Provider) -> Reply) -> (OutcomeView, nat) {
    cascade_from(first(), replies)
}

/// If some mirror answers with success and every mirror before it answers
/// with another HTTP status, the cascade ends with the body of that mirror,
/// and it makes no request after the one to that mirror.
pub proof fn lemma_first_hit_wins(replies: spec_fn(Provider) -> Reply, winner: Provider)
    requires
        is_hit(replies(winner)),
        forall|p: Provider| priority(p) < priority(winner) ==> is_miss(#[trigger] replies(p)),
    ensures
        cascade(replies).0 == (OutcomeView::Found {
            provider: winner,
            bytes: replies(winner)->body@,
        }),
        cascade(replies).1 == priority(winner) + 1,
{
    reveal_with_fuel(cascade_from, 4);
    if priority(winner) >= 1 {
        assert(is_miss(replies(Provider::Nerinyan)));
    }
    if priority(winner) >= 2 {
        assert(is_miss(replies(Provider::Catboy)));
    }
}

/// If every mirror answers with an HTTP status other than success, the
/// cascade ends as unavailable, after one request to each mirror.
pub proof fn lemma_all_miss_is_unavailable(replies: spec_fn(Provider) -> Reply)
    requires
        forall|p: Provider| is_miss(#[trigger] replies(p)),
    ensures
        cascade(replies).0 == OutcomeView::Unavailable,
        cascade(replies).1 == 3,
{
    reveal_with_fuel(cascade_from, 4);
    assert(is_miss(replies(Provider::Nerinyan)));
    assert(is_miss(replies(Provider::Catboy)));
    assert(is_miss(replies(Provider::Sayobot)));
}

/// The cascade reports a transport error only for a mirror whose request
/// failed below HTTP.
pub proof fn lemma_transport_error_is_real(replies: spec_fn(Provider) -> Reply)
    ensures
        cascade(replies).0 matches OutcomeView::TransportError { provider, detail } ==> replies(
            provider,
        ) matches Reply::Transport { detail: d } && d@ == detail,
{
    reveal_with_fuel(cascade_from, 4);
}

/// The mirror that is asked first.
pub fn first_provider() -> (provider: Provider)
    ensures
        provider == first(),
{
    Provider::Nerinyan
}

/// The address of the archive of mapset `id` at `provider`.
pub fn provider_url(provider: Provider, id: u32) -> (url: String)
    ensures
        url@ == download_url(provider, id),
{
    match provider {
        Provider::Nerinyan => {
            let mut url = String::from_str("https://api.nerinyan.moe/d/");
            push_decimal(&mut url, id as u64);
            url
        },
        Provider::Catboy => {
            let mut url = String::from_str("https://catboy.best/d/");
            push_decimal(&mut url, id as u64);
            url
        },
        Provider::Sayobot => {
            let mut url = String::from_str("https://txy1.sayobot.cn/beatmaps/download/full/");
            push_decimal(&mut url, id as u64);
            url.append("?server=auto");
            url
        },
    }
}

/// Decides what follows the reply of `provider`.
pub fn after_reply(provider: Provider, reply: Reply) -> (step: CascadeStep)
    ensures
        step@ == reaction(provider, reply),
{
    match reply {
        Reply::Response { status, body } => {
            if status_is_success(status) {
                CascadeStep::Done(CascadeOutcome::Found { provider, bytes: body })
            } else {
                match provider {
                    Provider::Nerinyan => CascadeStep::Try(Provider::Catboy),
                    Provider::Catboy => CascadeStep::Try(Provider::Sayobot),
                    Provider::Sayobot => CascadeStep::Done(CascadeOutcome::Unavailable),
                }
            }
        },
        Reply::Transport { detail } => CascadeStep::Done(
            CascadeOutcome::TransportError { provider, detail },
        ),
    }
}

} // verus!
