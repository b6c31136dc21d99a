//! Builds and recovers Valence execution context for Boson task dispatch.
pub mod bindings;
pub mod decimal;
pub mod errors;
pub mod factory;
pub mod invoke_label;
pub mod staging;

pub use errors::{DispatchError, IdentityError};
pub use factory::{
    actor_label_or_default, build_with, identity_result, router_config_reject_external_system, stage_context,
    stage_dispatch, valence_from_context, ExecutionContextAlias, ValenceContext,
    ValenceExecutionContextFactory,
};
pub use invoke_label::{invoke_label, parse_invoke_id};
pub use staging::{take_staged, StagedValences};
