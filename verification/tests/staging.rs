use std::sync::Arc;

use boson_valence_identity::{
    identity_result, stage_context, stage_dispatch, take_staged, valence_from_context,
    DispatchError, IdentityError, StagedValences, ValenceExecutionContextFactory,
};
use serde_json::Value;
use valence::{
    ActorTrust, InMemoryBackend, RouterValenceFactory, RouterValenceFactoryConfig, Valence,
    ValenceFactory, DEFAULT_IN_MEMORY_ROUTER_KEY,
};

fn json(text: &str) -> Value {
    serde_json::from_str(text).expect("json")
}

fn make_valence(user: &str) -> Valence {
    let mut router = valence::DatabaseRouter::new();
    router.register(
        DEFAULT_IN_MEMORY_ROUTER_KEY.to_string(),
        Arc::new(InMemoryBackend::new()),
    );
    let mut config = RouterValenceFactoryConfig::new(DEFAULT_IN_MEMORY_ROUTER_KEY);
    config.actor_trust = ActorTrust::Internal;
    let factory = RouterValenceFactory::new(Arc::new(router), config);
    factory
        .build(&json(&format!(r#"{{"User": {{"user_id": "{user}"}}}}"#)))
        .expect("valence")
}

fn message(e: DispatchError) -> String {
    match e {
        DispatchError::Internal { message } => message,
    }
}

#[test]
fn stage_hands_out_counting_ids() {
    let mut store = StagedValences::new();
    assert_eq!(store.stage(make_valence("a")), 1);
    assert_eq!(store.stage(make_valence("b")), 2);
    assert_eq!(store.stage(make_valence("c")), 3);
}

#[test]
fn take_returns_what_was_staged_once() {
    let mut store = StagedValences::new();
    let id = store.stage(make_valence("a"));
    let v = store.take(id).expect("staged");
    assert_eq!(v.actor().user_id(), Some("a"));
    assert!(store.take(id).is_none());
}

#[test]
fn take_of_unknown_id_finds_nothing() {
    let mut store = StagedValences::new();
    store.stage(make_valence("a"));
    assert!(store.take(0).is_none());
    assert!(store.take(2).is_none());
    assert!(store.take(1).is_some());
}

#[test]
fn take_staged_reports_missing_valence() {
    let mut store = StagedValences::new();
    match take_staged(&mut store, 9) {
        Ok(_) => panic!("nothing staged"),
        Err(e) => assert_eq!(message(e), "missing invoke valence"),
    }
    let id = store.stage(make_valence("z"));
    assert!(take_staged(&mut store, id).is_ok());
}

#[test]
fn recovery_with_malformed_label_reports_invalid_label() {
    let mut store = StagedValences::new();
    store.stage(make_valence("a"));
    match valence_from_context(&mut store, "app") {
        Ok(_) => panic!("label carries no invoke id"),
        Err(e) => assert_eq!(
            message(e),
            "missing invoke valence (invalid execution context label)"
        ),
    }
    // The staged Valence is still there.
    assert!(valence_from_context(&mut store, "invoke:1").is_ok());
}

#[test]
fn recovery_of_unstaged_id_reports_missing_valence() {
    let mut store = StagedValences::new();
    match valence_from_context(&mut store, "invoke:5|{}") {
        Ok(_) => panic!("nothing staged"),
        Err(e) => assert_eq!(message(e), "missing invoke valence"),
    }
}

#[test]
fn take_invoke_valence_message_points_to_context() {
    match ValenceExecutionContextFactory::take_invoke_valence() {
        Ok(_) => panic!("never succeeds"),
        Err(e) => assert_eq!(
            message(e),
            "missing invoke valence (use valence_from_context with the dispatch ExecutionContext)"
        ),
    }
}

#[test]
fn stage_context_labels_with_id_and_rendered_actor() {
    let mut store = StagedValences::new();
    let actor = json(r#"{"User": {"user_id": "q"}}"#);
    let ctx = stage_context(&mut store, make_valence("q"), Ok("RENDERED".to_string()), actor.clone());
    assert_eq!(ctx.label(), "invoke:1|RENDERED");
    assert_eq!(ctx.actor_json(), &actor);
    let err = serde_json::from_str::<Value>("[").unwrap_err();
    let ctx2 = stage_context(&mut store, make_valence("r"), Err(err), actor.clone());
    assert_eq!(ctx2.label(), "invoke:2|actor");
}

#[test]
fn stage_dispatch_renders_actor_json() {
    let mut store = StagedValences::new();
    let actor = json(r#"{"Service": {"name": "boson_api"}}"#);
    let ctx = stage_dispatch(&mut store, make_valence("s"), &actor);
    assert_eq!(ctx.label(), r#"invoke:1|{"Service":{"name":"boson_api"}}"#);
    assert_eq!(ctx.actor_json(), &actor);
    let v = valence_from_context(&mut store, ctx.label()).expect("staged");
    assert_eq!(v.actor().user_id(), Some("s"));
}

#[test]
fn identity_result_maps_both_outcomes() {
    match identity_result(Ok(make_valence("ok"))) {
        Ok(v) => assert_eq!(v.actor().user_id(), Some("ok")),
        Err(_) => panic!("Ok passes through"),
    }
    match identity_result(Err(valence::Error::Identity("nope".into()))) {
        Ok(_) => panic!("errors map to InvalidActor"),
        Err(IdentityError::InvalidActor(msg)) => assert_eq!(msg, "Identity error: nope"),
    }
}

#[test]
fn interleaved_calls_keep_ids_distinct_and_spent_ids_empty() {
    let mut store = StagedValences::new();
    let a = store.stage(make_valence("a"));
    let b = store.stage(make_valence("b"));
    assert!(store.take(a).is_some());
    let c = store.stage(make_valence("c"));
    assert!(a < b && b < c);
    // b survives the take of a and the staging of c.
    let vb = store.take(b).expect("b still staged");
    assert_eq!(vb.actor().user_id(), Some("b"));
    // a, once taken, stays empty after further stagings.
    store.stage(make_valence("d"));
    assert!(store.take(a).is_none());
    assert_eq!(store.take(c).expect("c").actor().user_id(), Some("c"));
}

#[test]
fn recovery_depends_only_on_the_id_in_the_label() {
    let mut store = StagedValences::new();
    let id = store.stage(make_valence("a"));
    assert_eq!(id, 1);
    // A different actor text after the bar, same id: same Valence.
    let v = valence_from_context(&mut store, "invoke:1|something else").expect("staged");
    assert_eq!(v.actor().user_id(), Some("a"));
}

#[test]
fn build_with_stages_the_built_valence() {
    let mut store = StagedValences::new();
    let actor = json(r#"{"User": {"user_id": "w"}}"#);
    let ctx = boson_valence_identity::build_with(&mut store, Ok(make_valence("w")), &actor)
        .expect("built");
    assert_eq!(ctx.label(), r#"invoke:1|{"User":{"user_id":"w"}}"#);
    assert_eq!(ctx.actor_json(), &actor);
    let v = valence_from_context(&mut store, ctx.label()).expect("staged");
    assert_eq!(v.actor().user_id(), Some("w"));
}

#[test]
fn build_with_failure_stages_nothing_and_keeps_the_message() {
    let mut store = StagedValences::new();
    let actor = json(r#"{"User": {"user_id": "w"}}"#);
    match boson_valence_identity::build_with(
        &mut store,
        Err(valence::Error::Validation("bad actor".into())),
        &actor,
    ) {
        Ok(_) => panic!("factory failure must fail the build"),
        Err(IdentityError::InvalidActor(msg)) => assert_eq!(msg, "Validation error: bad actor"),
    }
    // Nothing was staged and the counter did not move.
    assert_eq!(store.stage(make_valence("next")), 1);
}
