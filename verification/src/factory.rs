//! The Valence-backed execution context factory: builds a Valence for each dispatch, stages
//! it under a fresh invoke id, labels the context with that id, and hands the Valence back
//! to the task handler that presents the label.
use vstd::prelude::*;
use vstd::string::to_string_from_display_ensures;
use std::sync::Arc;
use serde_json::Value;
use vstd::std_specs::convert::IntoSpec;
use valence::{RouterValenceFactoryConfig, Valence, ValenceFactory};
use crate::bindings::{
    arc_clone, factory_build, install_reject_external_system, json_clone, json_rendering,
    json_text, router_config_backend_key, router_config_host_ports_unset, router_config_new,
    router_config_rejects_external_system, router_config_trust_is_external,
};
use crate::errors::{
    context_required_message, invalid_label, invalid_label_message, is_internal_with,
    missing_valence_message, DispatchError, IdentityError,
};
use crate::invoke_label::{
    first_bar, invoke_label, lemma_invoke_label_roundtrip, lemma_label_keeps_actor_text, parse_invoke_id, spec_invoke_label,
    spec_parse_invoke_id,
};
use crate::staging::{
    empty_state, lemma_history_keeps_invariant, lemma_staged_survives_other_calls,
    lemma_taken_id_stays_empty, never_takes, run_ops,
    stage_count, take_staged, StagedState, StagedValences, StoreOp,
};

verus! {

/// Type alias for [`Valence`] when a handler parameter is typed as `ExecutionContext`.
pub type ExecutionContextAlias = Valence;

/// The actor text that goes into a context label: the JSON rendering, or `actor` when
/// rendering failed.
pub open spec fn spec_actor_label(rendered: Result<String, serde_json::Error>) -> Seq<char> {
    match rendered {
        Ok(text) => text@,
        Err(_) => "actor"@,
    }
}

/// The actor text that goes into the label of a context built for `actor_json`: its JSON
/// rendering, or `actor` when rendering fails.
pub open spec fn spec_actor_text(actor_json: Value) -> Seq<char> {
    match json_rendering(actor_json) {
        Some(text) => text,
        None => "actor"@,
    }
}

/// `message` is the display text of some error of a Valence factory.
pub open spec fn is_factory_error_text(message: String) -> bool {
    exists|e: valence::Error| #[trigger] to_string_from_display_ensures::<valence::Error>(&e, message)
}

/// The Valence that recovering with `label` yields from the store state `s`.
pub open spec fn recovered(s: StagedState, label: Seq<char>) -> Option<Valence> {
    match spec_parse_invoke_id(label) {
        Some(invoke_id) => s.lookup(invoke_id),
        None => None,
    }
}

/// The store state after recovering with `label` from `s`.
pub open spec fn after_recovery(s: StagedState, label: Seq<char>) -> StagedState {
    match spec_parse_invoke_id(label) {
        Some(invoke_id) => s.take(invoke_id),
        None => s,
    }
}

/// The execution context of one task dispatch: its label and the actor JSON it was built from.
pub struct ValenceContext {
    label: String,
    actor_json: Value,
}

impl ValenceContext {
    /// The label's text.
    pub closed spec fn label_view(&self) -> Seq<char> {
        self.label@
    }

    /// The captured actor JSON.
    pub closed spec fn actor(&self) -> Value {
        self.actor_json
    }

    /// Debug label for logs and tests: `invoke:<id>|<actor JSON>`.
    pub fn label(&self) -> (r: &str)
        ensures
            r@ == self.label_view(),
    {
        self.label.as_str()
    }

    /// Actor JSON captured at enqueue time.
    pub fn actor_json(&self) -> (r: &Value)
        ensures
            *r == self.actor(),
    {
        &self.actor_json
    }
}

/// Wraps a Valence factory as a Boson execution context factory.
pub struct ValenceExecutionContextFactory<F: ?Sized = dyn ValenceFactory> {
    inner: Arc<F>,
}

impl<F: ?Sized> Clone for ValenceExecutionContextFactory<F> {
    fn clone(&self) -> (r: Self)
        ensures
            r.inner_factory() == self.inner_factory(),
    {
        ValenceExecutionContextFactory { inner: arc_clone(&self.inner) }
    }
}

impl<F: ?Sized> ValenceExecutionContextFactory<F> {
    /// The wrapped Valence factory.
    pub closed spec fn inner_factory(&self) -> Arc<F> {
        self.inner
    }

    /// The wrapped Valence factory, for a host that calls it itself before
    /// [`build_with`].
    pub fn factory(&self) -> (r: &Arc<F>)
        ensures
            *r == self.inner_factory(),
    {
        &self.inner
    }

    /// Create from the host's Valence factory.
    pub fn new(inner: Arc<F>) -> (r: Self)
        ensures
            r.inner_factory() == inner,
    {
        ValenceExecutionContextFactory { inner }
    }
}

impl<F: ValenceFactory + ?Sized> ValenceExecutionContextFactory<F> {
    /// Build a Valence for task dispatch: the inner factory's Valence, or
    /// `IdentityError::InvalidActor` with its error message when it rejects the actor JSON.
    /// Which of the two comes back is the inner factory's decision.
    pub fn build_valence(&self, actor_json: &Value) -> (r: Result<Valence, IdentityError>)
        ensures
            r matches Err(IdentityError::InvalidActor(message)) ==> is_factory_error_text(message),
    {
        identity_result(factory_build(&self.inner, actor_json))
    }

    /// Build the execution context of one dispatch: build a Valence, stage it in `store`
    /// under the next invoke id, and label the context with that id. When the inner factory
    /// rejects the actor, nothing is staged.
    pub fn build(&self, store: &mut StagedValences, actor_json: &Value) -> (r: Result<
        ValenceContext,
        IdentityError,
    >)
        ensures
            r is Err ==> final(store)@ == old(store)@,
            r matches Err(IdentityError::InvalidActor(message)) ==> is_factory_error_text(message),
            r matches Ok(ctx) ==> {
                let invoke_id = old(store)@.next_invoke_id;
                &&& final(store)@ == old(store)@.stage(final(store)@.entries[invoke_id])
                &&& old(store)@.ids_below_counter() ==> !old(store)@.entries.contains_key(invoke_id)
                &&& old(store)@.ids_below_counter() && invoke_id < u64::MAX
                    ==> final(store)@.ids_below_counter()
                &&& ctx.label_view() == spec_invoke_label(invoke_id, spec_actor_text(*actor_json))
                &&& spec_parse_invoke_id(ctx.label_view()) == Some(invoke_id)
                &&& ctx.actor() == *actor_json
            },
    {
        let built = factory_build(&self.inner, actor_json);
        let ghost outcome = built;
        let r = build_with(store, built, actor_json);
        let ghost result = r;
        proof {
            if outcome is Err {
                let e = outcome->Err_0;
                let message = result->Err_0->InvalidActor_0;
                assert(to_string_from_display_ensures::<valence::Error>(&e, message));
            }
        }
        r
    }
}

impl ValenceExecutionContextFactory<dyn ValenceFactory> {
    /// Always fails: the staged Valence is reached only through the dispatch context's label,
    /// with [`valence_from_context`].
    pub fn take_invoke_valence() -> (r: Result<Valence, DispatchError>)
        ensures
            r matches Err(e) && is_internal_with(e, context_required_message()),
    {
        Err(
            DispatchError::Internal {
                message: "missing invoke valence (use valence_from_context with the dispatch ExecutionContext)".to_owned(),
            },
        )
    }
}

/// The rest of a dispatch build, given the inner factory's outcome `built` for
/// `actor_json`: on `Ok(v)`, stage `v` under the next invoke id and return the context
/// labelled with that id and the rendered actor; on `Err(e)`, stage nothing and return
/// `InvalidActor` with `e`'s display text.
pub fn build_with(
    store: &mut StagedValences,
    built: Result<Valence, valence::Error>,
    actor_json: &Value,
) -> (r: Result<ValenceContext, IdentityError>)
    ensures
        match built {
            Ok(v) => {
                let invoke_id = old(store)@.next_invoke_id;
                &&& r matches Ok(ctx) && {
                    &&& ctx.label_view() == spec_invoke_label(
                        invoke_id,
                        spec_actor_text(*actor_json),
                    )
                    &&& json_rendering(*actor_json) matches Some(text) ==> ctx.label_view().skip(
                        first_bar(ctx.label_view()) + 1,
                    ) == text
                    &&& spec_parse_invoke_id(ctx.label_view()) == Some(invoke_id)
                    &&& ctx.actor() == *actor_json
                }
                &&& final(store)@ == old(store)@.stage(v)
                &&& old(store)@.ids_below_counter() ==> !old(store)@.entries.contains_key(invoke_id)
                &&& old(store)@.ids_below_counter() && invoke_id < u64::MAX
                    ==> final(store)@.ids_below_counter()
            },
            Err(e) => {
                &&& final(store)@ == old(store)@
                &&& r matches Err(IdentityError::InvalidActor(message))
                    && to_string_from_display_ensures::<valence::Error>(&e, message)
            },
        },
{
    match identity_result(built) {
        Ok(valence) => {
            proof {
                crate::staging::lemma_ids_below_counter(old(store)@, valence, 0);
            }
            Ok(stage_dispatch(store, valence, actor_json))
        },
        Err(e) => Err(e),
    }
}

/// Maps the inner factory's outcome: its Valence, or `InvalidActor` with its error text.
pub fn identity_result(built: Result<Valence, valence::Error>) -> (r: Result<Valence, IdentityError>)
    ensures
        built matches Ok(v) ==> r == Ok::<Valence, IdentityError>(v),
        built matches Err(e) ==> r matches Err(IdentityError::InvalidActor(message))
            && to_string_from_display_ensures::<valence::Error>(&e, message),
{
    match built {
        Ok(v) => Ok(v),
        Err(e) => Err(IdentityError::InvalidActor(e.to_string())),
    }
}

/// The actor text for a context label: the rendered JSON, or `actor` when rendering failed.
pub fn actor_label_or_default(rendered: Result<String, serde_json::Error>) -> (r: String)
    ensures
        r@ == spec_actor_label(rendered),
        rendered matches Ok(text) ==> r@ == text@,
        rendered is Err ==> r@ == "actor"@,
{
    match rendered {
        Ok(text) => text,
        Err(_) => "actor".to_owned(),
    }
}

/// Stages `valence` in `store` and builds the context whose label carries its invoke id and
/// the actor text `rendered` (or `actor`), holding `actor_json`.
pub fn stage_context(
    store: &mut StagedValences,
    valence: Valence,
    rendered: Result<String, serde_json::Error>,
    actor_json: Value,
) -> (ctx: ValenceContext)
    ensures
        final(store)@ == old(store)@.stage(valence),
        ctx.label_view() == spec_invoke_label(old(store)@.next_invoke_id, spec_actor_label(rendered)),
        rendered matches Ok(text) ==> ctx.label_view().skip(first_bar(ctx.label_view()) + 1)
            == text@,
        spec_parse_invoke_id(ctx.label_view()) == Some(old(store)@.next_invoke_id),
        ctx.actor() == actor_json,
{
    let ghost g_rendered = rendered;
    let invoke_id = store.stage(valence);
    let actor_label = actor_label_or_default(rendered);
    proof {
        lemma_label_keeps_actor_text(invoke_id, spec_actor_label(g_rendered));
        lemma_invoke_label_roundtrip(invoke_id, spec_actor_label(g_rendered));
    }
    let label = invoke_label(invoke_id, actor_label.as_str());
    ValenceContext { label, actor_json }
}

/// Stages `valence` for the dispatch of `actor_json` and builds its context; the label
/// carries the invoke id under which `valence` is staged.
pub fn stage_dispatch(store: &mut StagedValences, valence: Valence, actor_json: &Value) -> (ctx:
    ValenceContext)
    ensures
        final(store)@ == old(store)@.stage(valence),
        ctx.label_view() == spec_invoke_label(old(store)@.next_invoke_id, spec_actor_text(*actor_json)),
        json_rendering(*actor_json) matches Some(text) ==> ctx.label_view().skip(
            first_bar(ctx.label_view()) + 1,
        ) == text,
        spec_parse_invoke_id(ctx.label_view()) == Some(old(store)@.next_invoke_id),
        ctx.actor() == *actor_json,
{
    let rendered = json_text(actor_json);
    let ghost actor = spec_actor_label(rendered);
    let ctx = stage_context(store, valence, rendered, json_clone(actor_json));
    proof {
        lemma_invoke_label_roundtrip(old(store)@.next_invoke_id, actor);
        lemma_label_keeps_actor_text(old(store)@.next_invoke_id, actor);
        assert(actor == spec_actor_text(*actor_json));
    }
    ctx
}

/// Recover the Valence staged for the dispatch whose context carries `label`, taking it out
/// of `store`. Fails when the label names no invoke id, or when nothing is staged under it
/// (never staged, or already taken).
pub fn valence_from_context(store: &mut StagedValences, label: &str) -> (r: Result<
    Valence,
    DispatchError,
>)
    ensures
        final(store)@ == after_recovery(old(store)@, label@),
        final(store)@.next_invoke_id == old(store)@.next_invoke_id,
        match spec_parse_invoke_id(label@) {
            Some(invoke_id) => final(store)@.entries == old(store)@.entries.remove(invoke_id),
            None => final(store)@.entries == old(store)@.entries,
        },
        match recovered(old(store)@, label@) {
            Some(v) => r == Ok::<Valence, DispatchError>(v),
            None => r matches Err(e) && is_internal_with(
                e,
                if spec_parse_invoke_id(label@) is Some {
                    missing_valence_message()
                } else {
                    invalid_label_message()
                },
            ),
        },
{
    match parse_invoke_id(label) {
        Some(invoke_id) => take_staged(store, invoke_id),
        None => Err(invalid_label()),
    }
}

/// Router config that rejects System-shaped actors on the default external trust path:
/// `RouterValenceFactoryConfig::new(default_backend_key)` with
/// `valence::RejectExternalSystemActor` installed as its actor JSON policy, and the actor
/// trust left at `External`. The key is `default_backend_key.into()`.
pub fn router_config_reject_external_system<K: Into<String>>(default_backend_key: K) -> (r:
    RouterValenceFactoryConfig)
    ensures
        router_config_rejects_external_system(r),
        router_config_trust_is_external(r),
        router_config_host_ports_unset(r),
        <K as IntoSpec<String>>::obeys_into_spec() ==> router_config_backend_key(r)
            == <K as IntoSpec<String>>::into_spec(default_backend_key)@,
{
    let key: String = default_backend_key.into();
    install_reject_external_system(router_config_new(key))
}

/// A recovery touches only the id its label carries: every other staged Valence stays
/// staged, unchanged, and the counter does not move.
pub proof fn lemma_recovery_frames_other_ids(s: StagedState, label: Seq<char>, other: u64)
    requires
        spec_parse_invoke_id(label) != Some(other),
    ensures
        after_recovery(s, label).next_invoke_id == s.next_invoke_id,
        after_recovery(s, label).entries.contains_key(other) == s.entries.contains_key(other),
        s.entries.contains_key(other) ==> after_recovery(s, label).entries[other]
            == s.entries[other],
{
}

/// A recovery with a label that carries an id takes exactly that id out of the store.
pub proof fn lemma_recovery_takes_its_own_id(s: StagedState, label: Seq<char>)
    requires
        spec_parse_invoke_id(label) is Some,
    ensures
        !after_recovery(s, label).entries.contains_key(spec_parse_invoke_id(label).unwrap()),
        after_recovery(s, label).entries == s.entries.remove(spec_parse_invoke_id(label).unwrap()),
{
}

/// The actor text of a label is the whole JSON rendering of the actor, not a part of it:
/// whenever the actor JSON renders to `text`, the label built for it is `invoke:<id>|` followed
/// by all of `text`.
pub proof fn lemma_label_carries_full_rendering(invoke_id: u64, actor_json: Value, text: Seq<char>)
    requires
        json_rendering(actor_json) == Some(text),
    ensures
        ({
            let label = spec_invoke_label(invoke_id, spec_actor_text(actor_json));
            &&& label.skip(first_bar(label) + 1) == text
            &&& label.len() == first_bar(label) + 1 + text.len()
            &&& spec_parse_invoke_id(label) == Some(invoke_id)
        }),
{
    lemma_label_keeps_actor_text(invoke_id, spec_actor_text(actor_json));
    lemma_invoke_label_roundtrip(invoke_id, spec_actor_text(actor_json));
}

/// The actor text taken from a successful rendering is all of the rendered text.
pub proof fn lemma_actor_label_is_whole_rendering(text: String)
    ensures
        spec_actor_label(Ok::<String, serde_json::Error>(text)) == text@,
{
}

/// What a dispatch stages, the handler recovers with the context's label, exactly once.
pub proof fn lemma_recover_staged(s: StagedState, valence: Valence, actor: Seq<char>)
    ensures
        recovered(s.stage(valence), spec_invoke_label(s.next_invoke_id, actor)) == Some(valence),
        recovered(
            after_recovery(s.stage(valence), spec_invoke_label(s.next_invoke_id, actor)),
            spec_invoke_label(s.next_invoke_id, actor),
        ) is None,
{
    lemma_invoke_label_roundtrip(s.next_invoke_id, actor);
}

/// Recovery depends on the label only through the invoke id it carries: two labels with the
/// same id (or both with none) give the same Valence and leave the same store.
pub proof fn lemma_recovery_depends_on_id_only(s: StagedState, label1: Seq<char>, label2: Seq<char>)
    requires
        spec_parse_invoke_id(label1) == spec_parse_invoke_id(label2),
    ensures
        recovered(s, label1) == recovered(s, label2),
        after_recovery(s, label1) == after_recovery(s, label2),
{
}

/// The handler recovers what a dispatch staged, even after any other stagings and takes in
/// between that do not use its label's id (while the counter does not wrap).
pub proof fn lemma_recover_after_other_calls(
    s: StagedState,
    valence: Valence,
    actor: Seq<char>,
    ops: Seq<StoreOp>,
)
    requires
        s.next_invoke_id + 1 + stage_count(ops) <= u64::MAX,
        never_takes(ops, s.next_invoke_id),
    ensures
        recovered(run_ops(s.stage(valence), ops), spec_invoke_label(s.next_invoke_id, actor))
            == Some(valence),
{
    lemma_invoke_label_roundtrip(s.next_invoke_id, actor);
    lemma_staged_survives_other_calls(s.stage(valence), s.next_invoke_id, ops);
}

/// Once a dispatch's Valence has been recovered, its label never recovers anything again,
/// whatever stagings and takes follow (while the counter does not wrap).
pub proof fn lemma_recovered_label_stays_spent(
    s: StagedState,
    label: Seq<char>,
    ops: Seq<StoreOp>,
)
    requires
        recovered(s, label) is Some,
        s.ids_below_counter(),
        s.next_invoke_id + stage_count(ops) <= u64::MAX,
    ensures
        recovered(run_ops(after_recovery(s, label), ops), label) is None,
{
    let invoke_id = spec_parse_invoke_id(label).unwrap();
    lemma_taken_id_stays_empty(s, invoke_id, ops);
}

/// For a store made by `new`: once a label has recovered a Valence, it never recovers one
/// again, whatever calls came before and after (fewer than `u64::MAX` stagings in all).
pub proof fn lemma_spent_label_in_any_history(
    before: Seq<StoreOp>,
    label: Seq<char>,
    after: Seq<StoreOp>,
)
    requires
        recovered(run_ops(empty_state(), before), label) is Some,
        stage_count(before) + stage_count(after) < u64::MAX,
    ensures
        recovered(run_ops(after_recovery(run_ops(empty_state(), before), label), after), label)
            is None,
{
    lemma_history_keeps_invariant(before);
    lemma_recovered_label_stays_spent(run_ops(empty_state(), before), label, after);
}

/// Recovering twice with the same label never succeeds the second time.
pub proof fn lemma_recovery_is_one_shot(s: StagedState, label: Seq<char>)
    ensures
        recovered(after_recovery(s, label), label) is None,
{
}

} // verus!
