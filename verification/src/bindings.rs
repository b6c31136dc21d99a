//! Trusted items: outside types declared to Verus, and the calls into std, `serde_json`
//! and `valence` that the verified code makes. Each contract here is believed, not proved.
use vstd::prelude::*;

verus! {

/// `String::push` appends one character at the end of the string.
#[verifier::external_body]
pub(crate) fn string_push(s: &mut String, c: char)
    ensures
        final(s)@ == old(s)@.push(c),
{
    s.push(c)
}

} // verus!

verus! {

/// A request-scoped Valence handle; opaque to the verified code, which only moves it.
#[verifier::external_type_specification]
#[verifier::external_body]
pub struct ExValence(valence::Valence);

} // verus!

verus! {

/// Actor JSON as `serde_json` holds it; opaque to the verified code.
#[verifier::external_type_specification]
#[verifier::external_body]
pub struct ExJsonValue(serde_json::Value);

/// The error of `serde_json` serialization.
#[verifier::external_type_specification]
#[verifier::external_body]
pub struct ExJsonError(serde_json::Error);

/// The error that a Valence factory reports.
#[verifier::external_type_specification]
#[verifier::external_body]
pub struct ExValenceError(valence::Error);

/// Host wiring for `valence::RouterValenceFactory`; opaque to the verified code.
#[verifier::external_type_specification]
#[verifier::external_body]
pub struct ExRouterValenceFactoryConfig(valence::RouterValenceFactoryConfig);

/// `ValenceFactory::build` on the wrapped factory, handed `actor_json` unchanged.
/// Nothing is stated of the result: it is decided by whichever factory implementation the
/// host installed (a trait that users implement).
#[verifier::external_body]
pub(crate) fn factory_build<F: valence::ValenceFactory + ?Sized>(
    inner: &std::sync::Arc<F>,
    actor_json: &serde_json::Value,
) -> (r: Result<valence::Valence, valence::Error>) {
    inner.build(actor_json)
}

/// The text that `serde_json::to_string` gives for a JSON value, or `None` where it fails.
pub uninterp spec fn json_rendering(value: serde_json::Value) -> Option<Seq<char>>;

/// `serde_json::to_string` of actor JSON: its outcome is a function of the value alone,
/// named `json_rendering`. It succeeds on every `Value`: map keys are strings, non-finite
/// floats are written as `null`, and the writer is an in-memory `Vec<u8>`.
#[verifier::external_body]
pub(crate) fn json_text(actor_json: &serde_json::Value) -> (r: Result<String, serde_json::Error>)
    ensures
        r is Ok,
        match r {
            Ok(text) => json_rendering(*actor_json) == Some(text@),
            Err(_) => json_rendering(*actor_json) is None,
        },
{
    serde_json::to_string(actor_json)
}

/// `Clone::clone` of actor JSON; `serde_json::Value` derives `Clone`, which copies the
/// value as it is.
#[verifier::external_body]
pub(crate) fn json_clone(actor_json: &serde_json::Value) -> (r: serde_json::Value)
    ensures
        r == *actor_json,
{
    actor_json.clone()
}

/// The public field `default_backend_key` of a router config.
pub uninterp spec fn router_config_backend_key(config: valence::RouterValenceFactoryConfig) -> Seq<
    char,
>;

/// The public field `actor_json_policy` of a router config holds
/// `valence::RejectExternalSystemActor`.
pub uninterp spec fn router_config_rejects_external_system(
    config: valence::RouterValenceFactoryConfig,
) -> bool;

/// The public field `actor_trust` of a router config is `valence::ActorTrust::External`.
pub uninterp spec fn router_config_trust_is_external(
    config: valence::RouterValenceFactoryConfig,
) -> bool;

/// The public fields `telemetry_sink`, `secret_provider`, `actor_factory` and
/// `endpoint_resolver` of a router config are all `None` (the host's defaults apply).
pub uninterp spec fn router_config_host_ports_unset(
    config: valence::RouterValenceFactoryConfig,
) -> bool;

/// `RouterValenceFactoryConfig::new`: the key is the one given, no actor JSON policy is
/// installed, the actor trust is `External`, and no host port override is set.
#[verifier::external_body]
pub(crate) fn router_config_new(default_backend_key: String) -> (r:
    valence::RouterValenceFactoryConfig)
    ensures
        router_config_backend_key(r) == default_backend_key@,
        !router_config_rejects_external_system(r),
        router_config_trust_is_external(r),
        router_config_host_ports_unset(r),
{
    valence::RouterValenceFactoryConfig::new(default_backend_key)
}

/// `RouterValenceFactoryConfig::actor_json_policy` with `valence::RejectExternalSystemActor`:
/// that policy is installed; every other field (the key, the actor trust, the host port
/// overrides) is kept.
#[verifier::external_body]
pub(crate) fn install_reject_external_system(config: valence::RouterValenceFactoryConfig) -> (r:
    valence::RouterValenceFactoryConfig)
    ensures
        router_config_backend_key(r) == router_config_backend_key(config),
        router_config_rejects_external_system(r),
        router_config_trust_is_external(r) == router_config_trust_is_external(config),
        router_config_host_ports_unset(r) == router_config_host_ports_unset(config),
{
    config.actor_json_policy(valence::RejectExternalSystemActor)
}

/// `Arc::clone`: a new handle to the same allocation, so the pointee is the same value.
#[verifier::external_body]
pub(crate) fn arc_clone<T: ?Sized>(a: &std::sync::Arc<T>) -> (r: std::sync::Arc<T>)
    ensures
        r == *a,
{
    std::sync::Arc::clone(a)
}

} // verus!
