//! The passphrase of a run: asked for once at most, and not at all where
//! the environment tells the engine how to get it.

use crate::config::RepoCtx;
use crate::text::text3;
use vstd::prelude::*;

verus! {

/// What there is to do to have the passphrase at hand.
#[derive(Debug)]
pub enum SecretStep {
    /// Nothing: this is what the engine is given. It is nothing at all
    /// where the engine finds the passphrase itself.
    Ready(Option<String>),
    /// Ask the operator, with this prompt and without showing what is
    /// typed; an empty answer means that there is no passphrase.
    Ask(String),
}

/// What a [`SecretStep`] holds.
pub enum SecretStepView {
    Ready(Option<Seq<char>>),
    Ask(Seq<char>),
}

impl View for SecretStep {
    type V = SecretStepView;

    open spec fn view(&self) -> SecretStepView {
        match *self {
            SecretStep::Ready(p) => SecretStepView::Ready(p.deep_view()),
            SecretStep::Ask(prompt) => SecretStepView::Ask(prompt@),
        }
    }
}

/// What the operator is asked for the passphrase with.
pub open spec fn passphrase_prompt(repo: Seq<char>) -> Seq<char> {
    "Enter passphrase for repo "@ + repo + " (leave empty if none): "@
}

/// How the passphrase is come by when none is remembered: not at all
/// where the environment names a passphrase or a command that gives one,
/// and by asking otherwise.
pub open spec fn secret_step(repo: Seq<char>, env_override: bool) -> SecretStepView {
    if env_override {
        SecretStepView::Ready(None)
    } else {
        SecretStepView::Ask(passphrase_prompt(repo))
    }
}

/// How the passphrase is come by, remembered or not: a passphrase that is
/// remembered is the one.
pub open spec fn cached_step(
    cached: Option<Seq<char>>,
    repo: Seq<char>,
    env_override: bool,
) -> SecretStepView {
    match cached {
        Some(p) => SecretStepView::Ready(Some(p)),
        None => secret_step(repo, env_override),
    }
}

/// How the passphrase for `ctx` is come by. `env_override` says whether
/// the environment names a passphrase or a command that gives one.
pub fn ensure_passphrase(ctx: &RepoCtx, env_override: bool) -> (step: SecretStep)
    ensures
        step@ == secret_step(ctx.repo@, env_override),
{
    if env_override {
        SecretStep::Ready(None)
    } else {
        SecretStep::Ask(
            text3("Enter passphrase for repo ", ctx.repo.as_str(), " (leave empty if none): "),
        )
    }
}

/// How the passphrase for `ctx` is come by, given the one that is
/// remembered.
pub fn ensure_passphrase_cached(cached: &Option<String>, ctx: &RepoCtx, env_override: bool) -> (step:
    SecretStep)
    ensures
        step@ == cached_step(cached.deep_view(), ctx.repo@, env_override),
{
    match cached {
        Some(p) => SecretStep::Ready(Some(p.clone())),
        None => ensure_passphrase(ctx, env_override),
    }
}

/// What is remembered once the operator has entered a passphrase: what
/// was remembered already, or else what was entered. A passphrase is set
/// once and stays.
pub open spec fn remembered(cached: Option<Seq<char>>, entered: Seq<char>) -> Option<Seq<char>> {
    match cached {
        Some(p) => Some(p),
        None => Some(entered),
    }
}

/// Remembers what the operator entered, for the rest of the run, unless a
/// passphrase is remembered already, and gives back what the engine is
/// given.
pub fn remember(cached: &mut Option<String>, entered: String) -> (r: Option<String>)
    ensures
        final(cached).deep_view() == remembered(old(cached).deep_view(), entered@),
        r.deep_view() == final(cached).deep_view(),
{
    if cached.is_none() {
        *cached = Some(entered);
    }
    cached.clone()
}

/// The operator is asked once at most: with a passphrase remembered, be it
/// the empty one, there is nothing to ask, whichever repository is worked
/// on. And where the environment provides, nobody is asked.
pub proof fn lemma_asked_once(
    cached: Option<Seq<char>>,
    entered: Seq<char>,
    repo: Seq<char>,
    env_override: bool,
)
    ensures
        cached_step(remembered(cached, entered), repo, env_override) == SecretStepView::Ready(
            remembered(cached, entered),
        ),
        remembered(remembered(cached, entered), entered) == remembered(cached, entered),
        cached is Some ==> remembered(cached, entered) == cached,
        cached_step(None, repo, true) == SecretStepView::Ready(None),
        secret_step(repo, true) == SecretStepView::Ready(None),
{
}

} // verus!
