//! Whether a configuration and a pair of contexts can carry a session.

use crate::context::{LlamaContextInfo, LlamaContextType};
use crate::mtp::config::MtpSessionConfig;
use crate::mtp::error::MtpSessionError;
use crate::speculative::SpeculativeContextCapacity;
use vstd::prelude::*;

verus! {

/// What is wrong with a configuration, given the ruling of the rules that all
/// speculative sessions share.
pub open spec fn config_error(
    config: MtpSessionConfig,
    ruling: Result<(), &'static str>,
) -> Option<MtpSessionError> {
    match ruling {
        Err(reason) => Some(MtpSessionError::InvalidConfig(reason)),
        Ok(_) => if config.n_draft_max <= 0 {
            Some(MtpSessionError::InvalidConfig("n_draft_max must be positive"))
        } else {
            None
        },
    }
}

/// Judges a configuration from the ruling of the shared rules. A draft length
/// that is not positive is refused whatever the ruling.
pub fn check_config(config: &MtpSessionConfig, ruling: Result<(), &'static str>) -> (checked:
    Result<(), MtpSessionError>)
    ensures
        crate::mtp::error::reports(checked, config_error(*config, ruling)),
{
    match ruling {
        Err(reason) => Err(MtpSessionError::InvalidConfig(reason)),
        Ok(_) => if config.n_draft_max <= 0 {
            Err(MtpSessionError::InvalidConfig("n_draft_max must be positive"))
        } else {
            Ok(())
        },
    }
}

/// What the contexts lack before their capacities are looked at: the roles
/// first, then the sequence counts, then a draft length that is no length.
pub open spec fn role_error(
    target: LlamaContextInfo,
    draft: LlamaContextInfo,
    config: MtpSessionConfig,
) -> Option<MtpSessionError> {
    if target.context_type != LlamaContextType::Default || draft.context_type
        != LlamaContextType::Mtp {
        Some(
            MtpSessionError::IncompatibleContexts("target must be Default and draft must be Mtp"),
        )
    } else if target.n_seq_max < config.n_seq || draft.n_seq_max != config.n_seq {
        Some(
            MtpSessionError::IncompatibleContexts(
                "target sequence capacity is too small or draft capacity differs from n_seq",
            ),
        )
    } else if config.n_draft_max < 0 {
        Some(MtpSessionError::InvalidConfig("n_draft_max exceeds u32"))
    } else {
        None
    }
}

/// What a context offers to the capacity rules.
pub open spec fn capacity(context: LlamaContextInfo) -> SpeculativeContextCapacity {
    SpeculativeContextCapacity {
        batch: context.n_batch,
        micro_batch: context.n_ubatch,
        recurrent_slots: context.n_rs_seq,
        recurrent_or_hybrid: context.is_recurrent || context.is_hybrid,
    }
}

/// What the contexts lack once the capacity rules have spoken: what the rules
/// report first, then differing output widths.
pub open spec fn capacity_error(
    target: LlamaContextInfo,
    draft: LlamaContextInfo,
    ruling: Result<(), &'static str>,
) -> Option<MtpSessionError> {
    match ruling {
        Err(reason) => Some(MtpSessionError::IncompatibleContexts(reason)),
        Ok(_) => if draft.n_embd_out != target.n_embd_out {
            Some(
                MtpSessionError::IncompatibleContexts(
                    "draft output width differs from target output width",
                ),
            )
        } else {
            None
        },
    }
}

/// Checks roles, sequence counts and draft length. On success the draft length
/// that the capacity rules are to be asked about.
pub fn check_roles(
    target: &LlamaContextInfo,
    draft: &LlamaContextInfo,
    config: &MtpSessionConfig,
) -> (required: Result<u32, MtpSessionError>)
    ensures
        crate::mtp::error::reports(required, role_error(*target, *draft, *config)),
        required matches Ok(n) ==> n == config.n_draft_max,
        required is Ok <==> target.context_type == LlamaContextType::Default && draft.context_type
            == LlamaContextType::Mtp && target.n_seq_max >= config.n_seq && draft.n_seq_max
            == config.n_seq && config.n_draft_max >= 0,
{
    if target.context_type != LlamaContextType::Default || draft.context_type
        != LlamaContextType::Mtp {
        return Err(
            MtpSessionError::IncompatibleContexts("target must be Default and draft must be Mtp"),
        );
    }
    if target.n_seq_max < config.n_seq || draft.n_seq_max != config.n_seq {
        return Err(
            MtpSessionError::IncompatibleContexts(
                "target sequence capacity is too small or draft capacity differs from n_seq",
            ),
        );
    }
    if config.n_draft_max < 0 {
        return Err(MtpSessionError::InvalidConfig("n_draft_max exceeds u32"));
    }
    Ok(config.n_draft_max as u32)
}

/// What a context offers to the capacity rules.
pub fn context_capacity(context: &LlamaContextInfo) -> (offered: SpeculativeContextCapacity)
    ensures
        offered == capacity(*context),
{
    SpeculativeContextCapacity {
        batch: context.n_batch,
        micro_batch: context.n_ubatch,
        recurrent_slots: context.n_rs_seq,
        recurrent_or_hybrid: context.is_recurrent || context.is_hybrid,
    }
}

/// Judges the contexts from the ruling of the capacity rules.
pub fn check_capacities(
    target: &LlamaContextInfo,
    draft: &LlamaContextInfo,
    ruling: Result<(), &'static str>,
) -> (checked: Result<(), MtpSessionError>)
    ensures
        crate::mtp::error::reports(checked, capacity_error(*target, *draft, ruling)),
{
    match ruling {
        Err(reason) => return Err(MtpSessionError::IncompatibleContexts(reason)),
        Ok(_) => {},
    }
    if draft.n_embd_out != target.n_embd_out {
        return Err(
            MtpSessionError::IncompatibleContexts(
                "draft output width differs from target output width",
            ),
        );
    }
    Ok(())
}

/// Checks that a pair of contexts satisfies the native contract.
///
/// `capacity_rules` judges the capacities of target and draft for the draft
/// length; it is asked only about contexts whose roles and sequence counts are
/// in order.
pub fn validate_contexts<
    F: FnOnce(SpeculativeContextCapacity, SpeculativeContextCapacity, u32) -> Result<
        (),
        &'static str,
    >,
>(
    target: &LlamaContextInfo,
    draft: &LlamaContextInfo,
    config: &MtpSessionConfig,
    capacity_rules: F,
) -> (checked: Result<(), MtpSessionError>)
    requires
        role_error(*target, *draft, *config) is None ==> call_requires(
            capacity_rules,
            (capacity(*target), capacity(*draft), config.n_draft_max as u32),
        ),
    ensures
        role_error(*target, *draft, *config) is Some ==> crate::mtp::error::reports(
            checked,
            role_error(*target, *draft, *config),
        ),
        role_error(*target, *draft, *config) is None ==> exists|ruling: Result<(), &'static str>|
            #[trigger]
            call_ensures(
                capacity_rules,
                (capacity(*target), capacity(*draft), config.n_draft_max as u32),
                ruling,
            ) && crate::mtp::error::reports(checked, capacity_error(*target, *draft, ruling)),
        checked is Ok ==> target.context_type == LlamaContextType::Default && draft.context_type
            == LlamaContextType::Mtp && target.n_seq_max >= config.n_seq && draft.n_seq_max
            == config.n_seq && config.n_draft_max >= 0 && draft.n_embd_out == target.n_embd_out,
{
    let required_draft = match check_roles(target, draft, config) {
        Ok(n) => n,
        Err(error) => return Err(error),
    };
    let ruling = capacity_rules(
        context_capacity(target),
        context_capacity(draft),
        required_draft,
    );
    check_capacities(target, draft, ruling)
}

/// A configuration is in order exactly when the shared rules pass it and its
/// draft length is positive; what the shared rules object to comes first.
pub proof fn law_config_in_order(config: MtpSessionConfig, ruling: Result<(), &'static str>)
    ensures
        config_error(config, ruling) is None <==> ruling is Ok && config.n_draft_max > 0,
        ruling matches Err(reason) ==> config_error(config, ruling) == Some(
            MtpSessionError::InvalidConfig(reason),
        ),
        ruling is Ok && config.n_draft_max <= 0 ==> config_error(config, ruling) == Some(
            MtpSessionError::InvalidConfig("n_draft_max must be positive"),
        ),
{
}

/// Contexts are let through exactly when the target is a default context, the
/// draft a multi-token-prediction context, the target has at least as many
/// sequences as are asked for and the draft just as many, and the draft length
/// is not negative.
pub proof fn law_contexts_in_order(
    target: LlamaContextInfo,
    draft: LlamaContextInfo,
    config: MtpSessionConfig,
)
    ensures
        role_error(target, draft, config) is None <==> {
            &&& target.context_type == LlamaContextType::Default
            &&& draft.context_type == LlamaContextType::Mtp
            &&& target.n_seq_max >= config.n_seq
            &&& draft.n_seq_max == config.n_seq
            &&& config.n_draft_max >= 0
        },
{
}

/// A wrong role is reported before anything else, then sequence counts that do
/// not fit, then a negative draft length.
pub proof fn law_context_refusals(
    target: LlamaContextInfo,
    draft: LlamaContextInfo,
    config: MtpSessionConfig,
)
    ensures
        !(target.context_type == LlamaContextType::Default && draft.context_type
            == LlamaContextType::Mtp) ==> role_error(target, draft, config) == Some(
            MtpSessionError::IncompatibleContexts("target must be Default and draft must be Mtp"),
        ),
        target.context_type == LlamaContextType::Default && draft.context_type
            == LlamaContextType::Mtp && !(config.n_seq <= target.n_seq_max && config.n_seq
            == draft.n_seq_max) ==> role_error(target, draft, config) == Some(
            MtpSessionError::IncompatibleContexts(
                "target sequence capacity is too small or draft capacity differs from n_seq",
            ),
        ),
        target.context_type == LlamaContextType::Default && draft.context_type
            == LlamaContextType::Mtp && config.n_seq <= target.n_seq_max && config.n_seq
            == draft.n_seq_max && config.n_draft_max < 0 ==> role_error(target, draft, config)
            == Some(MtpSessionError::InvalidConfig("n_draft_max exceeds u32")),
{
}

/// The capacity rules are told of a context's batch sizes, its recurrent slots
/// and whether its model is recurrent or a hybrid.
pub proof fn law_capacity_is_the_contexts(context: LlamaContextInfo)
    ensures
        capacity(context).batch == context.n_batch,
        capacity(context).micro_batch == context.n_ubatch,
        capacity(context).recurrent_slots == context.n_rs_seq,
        !capacity(context).recurrent_or_hybrid <==> !context.is_recurrent && !context.is_hybrid,
{
}

/// Capacities are in order exactly when the capacity rules pass them and both
/// contexts have the same output width; what the rules object to comes first.
pub proof fn law_capacities_in_order(
    target: LlamaContextInfo,
    draft: LlamaContextInfo,
    ruling: Result<(), &'static str>,
)
    ensures
        capacity_error(target, draft, ruling) is None <==> ruling is Ok && target.n_embd_out
            == draft.n_embd_out,
        ruling matches Err(reason) ==> capacity_error(target, draft, ruling) == Some(
            MtpSessionError::IncompatibleContexts(reason),
        ),
        ruling is Ok && target.n_embd_out != draft.n_embd_out ==> capacity_error(
            target,
            draft,
            ruling,
        ) == Some(
            MtpSessionError::IncompatibleContexts(
                "draft output width differs from target output width",
            ),
        ),
{
}

} // verus!
