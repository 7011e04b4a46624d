//! A batch request, and the plan that is made of it before any variant is
//! attempted.
//!
//! Planning is where a request can be refused: for its shape, for an item
//! that does not validate, for a pinned variant that does not exist. A
//! request that is refused leaves no plan, so nothing is attempted and
//! nothing is persisted for it.

use crate::episode::{
    all_valid, draws_fill, placed, resolves, resolves_with, slots_of, BatchEpisodeIdInput,
    BatchEpisodeIds, BatchEpisodeIdsWithSize,
};
use crate::error::{BatchError, ErrorDetails, ErrorView};
use crate::identifier::Identifier;
use crate::params::{BatchInferenceParams, InferenceParams};
use crate::record::BatchTags;
use crate::text::text_of;
use crate::tool::{BatchDynamicToolParams, DynamicToolParams};
use crate::variant::{
    names_model, no_variants_message, pinned_candidates, require_variants,
    restrict_to_pinned, SelectorView, StateView, VariantSelector,
};
use serde_json::Value;
use std::collections::HashMap;
use vstd::prelude::*;

verus! {

/// The output schemas that a request supplies: one optional schema per item.
pub type BatchOutputSchemas = Vec<Option<Value>>;

/// A batch request: N inputs for one function, with optional per-item
/// overrides. `F` is the type of the real-valued inference parameters, `S`
/// that of a secret; the library looks into neither.
#[derive(Debug, PartialEq)]
pub struct Params<F, S> {
    /// The function that serves the batch.
    pub function_name: String,
    /// The episode of each item; an identifier is generated where none is
    /// given.
    pub episode_ids: Option<BatchEpisodeIdInput>,
    /// The inputs, one per item.
    pub inputs: Vec<Value>,
    /// Inference-time overrides of the variant's parameters.
    pub params: BatchInferenceParams<F>,
    /// The variant to use, where the caller pins one.
    pub variant_name: Option<String>,
    /// The tags of each item.
    pub tags: Option<BatchTags>,
    /// Dynamic tool-calling overrides.
    pub dynamic_tool_params: BatchDynamicToolParams,
    /// Output schemas that replace the function's for single items.
    pub output_schemas: Option<BatchOutputSchemas>,
    /// Credentials by provider name, handed on to the variant.
    pub credentials: HashMap<String, S>,
}

/// What has been settled about a batch before a variant is attempted.
#[derive(Debug, PartialEq)]
pub struct BatchPlan<F, S> {
    pub function_name: String,
    pub inputs: Vec<Value>,
    /// The episode of each item.
    pub episode_ids: BatchEpisodeIds,
    /// The resolved tool configuration of each item, if it has one.
    pub tool_configs: Vec<Option<Value>>,
    pub output_schemas: Option<BatchOutputSchemas>,
    pub tags: Option<BatchTags>,
    pub credentials: HashMap<String, S>,
    /// The selector, about to pick among the candidates.
    pub selector: VariantSelector<F>,
}

/// Every per-item result is a success.
pub open spec fn all_ok<T>(results: Seq<Result<T, String>>) -> bool {
    forall|i: int| 0 <= i < results.len() ==> (#[trigger] results[i]) is Ok
}

/// `i` is the position of the first per-item result that is a failure.
pub open spec fn is_first_failure<T>(results: Seq<Result<T, String>>, i: int) -> bool {
    &&& 0 <= i < results.len()
    &&& results[i] is Err
    &&& forall|j: int| 0 <= j < i ==> (#[trigger] results[j]) is Ok
}

/// The error for a failure at position `i` of per-item results.
pub open spec fn failure_at<T>(results: Seq<Result<T, String>>, i: int) -> ErrorView {
    ErrorView::BatchInputValidation { index: i as nat, message: results[i]->Err_0@ }
}

/// The values of per-item results that are all successes.
pub open spec fn values<T>(results: Seq<Result<T, String>>) -> Seq<T> {
    Seq::new(results.len(), |i: int| results[i]->Ok_0)
}

/// Collects per-item results into the values of the items. The first
/// failure, in the order of the items, becomes a validation error that
/// carries its position and its message.
pub fn collect_indexed<T>(results: Vec<Result<T, String>>) -> (r: Result<Vec<T>, BatchError>)
    ensures
        r is Ok <==> all_ok(results@),
        r matches Ok(collected) ==> collected@ == values(results@),
        r matches Err(e) ==> exists|i: int| #[trigger]
            is_first_failure(results@, i) && e@ == failure_at(results@, i),
{
    let mut slots = results;
    let n = slots.len();
    let mut collected: Vec<T> = Vec::with_capacity(n);
    for i in 0..n
        invariant
            slots@.len() == n,
            results@.len() == n,
            forall|k: int| i <= k < n ==> slots@[k] == results@[k],
            forall|j: int| 0 <= j < i ==> (#[trigger] results@[j]) is Ok,
            collected@.len() == i,
            forall|j: int| 0 <= j < i ==> collected@[j] == results@[j]->Ok_0,
    {
        let mut slot: Result<T, String> = Err(String::new());
        core::mem::swap(&mut slots[i], &mut slot);
        match slot {
            Ok(value) => {
                collected.push(value);
            },
            Err(message) => {
                assert(is_first_failure(results@, i as int));
                return Err(BatchError::new(ErrorDetails::BatchInputValidation { index: i, message }));
            },
        }
    }
    assert(collected@ =~= values(results@));
    Ok(collected)
}

/// The text that reports a batch without inputs.
pub open spec fn no_inputs_message() -> Seq<char> {
    "No inputs provided"@
}

/// The text that reports per-item results that do not hold one entry per
/// input.
pub open spec fn per_item_count_message() -> Seq<char> {
    "Per-item results do not hold one entry per input"@
}

/// `r` is the failure of planning with the error `error`.
pub open spec fn refused<F, S>(r: Result<BatchPlan<F, S>, BatchError>, error: ErrorView) -> bool {
    r matches Err(e) && e@ == error
}

/// `plan` is the plan of `request` with these candidates, tool
/// configurations, episode identifiers and inference parameters: the
/// request's own data, and a selector that is about to pick, keyed by the
/// episode identifier of the first item.
pub open spec fn is_plan_of<F, S>(
    plan: BatchPlan<F, S>,
    request: Params<F, S>,
    candidates: Seq<Seq<char>>,
    tool_configs: Seq<Option<Value>>,
    episode_ids: Seq<Identifier>,
    inference_params: Seq<InferenceParams<F>>,
) -> bool {
    &&& plan.function_name@ == request.function_name@
    &&& plan.inputs == request.inputs
    &&& plan.episode_ids@ == episode_ids
    &&& plan.tool_configs@ == tool_configs
    &&& plan.output_schemas == request.output_schemas
    &&& plan.tags == request.tags
    &&& plan.credentials == request.credentials
    &&& plan.selector@ == SelectorView {
        state: StateView::Selecting,
        candidates,
        failures: Seq::empty(),
        key: episode_ids[0].bits,
        inference_params,
    }
}

/// `r` is a possible result of planning `request`, for a function with the
/// variants `variants`, where resolving the tool configuration of each item
/// gave `tool_configs` and validating each input gave `input_checks`.
///
/// The checks are made in this order, and the first that fails decides the
/// error: the batch has an input; there is one tool configuration result
/// and one input check per input; the tool configurations were resolved;
/// the function has a variant; the inputs validate; the pinned variant
/// exists; the episode identifiers resolve; the parameter overrides fit.
pub open spec fn plans<F: Copy, S>(
    request: Params<F, S>,
    variants: Seq<String>,
    tool_configs: Seq<Result<Option<Value>, String>>,
    input_checks: Seq<Result<(), String>>,
    r: Result<BatchPlan<F, S>, BatchError>,
) -> bool {
    let n = request.inputs@.len();
    if n == 0 {
        refused(r, ErrorView::InvalidRequest { message: no_inputs_message() })
    } else if tool_configs.len() != n || input_checks.len() != n {
        refused(r, ErrorView::Inference { message: per_item_count_message() })
    } else if !all_ok(tool_configs) {
        exists|i: int| #[trigger]
            is_first_failure(tool_configs, i) && refused(r, failure_at(tool_configs, i))
    } else if variants.len() == 0 {
        refused(
            r,
            ErrorView::InvalidFunctionVariants {
                message: no_variants_message(request.function_name@),
            },
        )
    } else if !all_ok(input_checks) {
        exists|i: int| #[trigger]
            is_first_failure(input_checks, i) && refused(r, failure_at(input_checks, i))
    } else {
        match pinned_candidates(names_model(variants), text_of(request.variant_name)) {
            Err(error) => refused(r, error),
            Ok(candidates) => exists|ids: Result<BatchEpisodeIds, BatchError>| #[trigger]
                resolves(request.episode_ids, n, ids) && match ids {
                    Err(e) => refused(r, e@),
                    Ok(ids) => match request.params.expansion(n) {
                        Err(error) => refused(r, error),
                        Ok(inference_params) => r matches Ok(plan) && is_plan_of(
                            plan,
                            request,
                            candidates,
                            values(tool_configs),
                            ids@,
                            inference_params,
                        ),
                    },
                },
        }
    }
}

impl<F: Copy, S> Params<F, S> {
    /// The number of items of the batch.
    pub fn num_inferences(&self) -> (n: usize)
        ensures
            n == self.inputs@.len(),
    {
        self.inputs.len()
    }

    /// Begins the work on the request: checks that the batch has an input,
    /// and moves the dynamic tool overrides out of the request, expanded
    /// into one set per item. The rest of the request stays as it is.
    pub fn begin(&mut self) -> (r: Result<Vec<DynamicToolParams>, BatchError>)
        ensures
            *final(self) == (Params {
                dynamic_tool_params: final(self).dynamic_tool_params,
                ..*old(self)
            }),
            old(self).inputs@.len() == 0 ==> (r matches Err(e) && e@ == (ErrorView::InvalidRequest {
                message: no_inputs_message(),
            })),
            old(self).inputs@.len() > 0 ==> {
                let expansion = old(self).dynamic_tool_params.expansion(
                    old(self).inputs@.len(),
                );
                &&& r is Ok <==> expansion is Ok
                &&& r matches Ok(v) ==> v@ == expansion->Ok_0
                &&& r matches Err(e) ==> e@ == expansion->Err_0
            },
    {
        let num_inferences = self.inputs.len();
        if num_inferences == 0 {
            return Err(
                BatchError::new(
                    ErrorDetails::InvalidRequest { message: "No inputs provided".to_owned() },
                ),
            );
        }
        let mut dynamic_tool_params = BatchDynamicToolParams {
            allowed_tools: None,
            additional_tools: None,
            tool_choice: None,
            parallel_tool_calls: None,
        };
        core::mem::swap(&mut self.dynamic_tool_params, &mut dynamic_tool_params);
        dynamic_tool_params.expand(num_inferences)
    }

    /// Plans the batch: [`plans`].
    ///
    /// `variants` are the names of the function's variants in its order;
    /// `tool_configs` and `input_checks` hold, for each item, what resolving
    /// its tool configuration and validating its input gave. A list that
    /// does not hold one entry per input is refused, so that no input goes
    /// unvalidated and every item has its tool configuration.
    pub fn plan(
        self,
        variants: Vec<String>,
        tool_configs: Vec<Result<Option<Value>, String>>,
        input_checks: Vec<Result<(), String>>,
    ) -> (r: Result<BatchPlan<F, S>, BatchError>)
        ensures
            plans(self, variants@, tool_configs@, input_checks@, r),
    {
        let Params {
            function_name,
            episode_ids,
            inputs,
            params,
            variant_name,
            tags,
            dynamic_tool_params: _,
            output_schemas,
            credentials,
        } = self;
        let num_inferences = inputs.len();
        if num_inferences == 0 {
            return Err(
                BatchError::new(
                    ErrorDetails::InvalidRequest { message: "No inputs provided".to_owned() },
                ),
            );
        }
        if tool_configs.len() != num_inferences || input_checks.len() != num_inferences {
            return Err(
                BatchError::new(
                    ErrorDetails::Inference {
                        message: "Per-item results do not hold one entry per input".to_owned(),
                    },
                ),
            );
        }
        let tool_configs = collect_indexed(tool_configs)?;
        require_variants(function_name.as_str(), &variants)?;
        let _ = collect_indexed(input_checks)?;
        let candidates = restrict_to_pinned(variants, &variant_name)?;
        let resolved = BatchEpisodeIds::try_from(BatchEpisodeIdsWithSize(episode_ids, num_inferences));
        let episode_ids = resolved?;
        let inference_params = params.expand(num_inferences)?;
        let selector = VariantSelector::new(candidates, episode_ids[0], inference_params);
        Ok(
            BatchPlan {
                function_name,
                inputs,
                episode_ids,
                tool_configs,
                output_schemas,
                tags,
                credentials,
                selector,
            },
        )
    }
}

/// The episode identifiers of a plan are the supplied identifiers at their
/// positions and, in each empty slot, an identifier drawn for that slot
/// alone, in the order of the draws; all of them are valid. So where the
/// draws are distinct, the items without a supplied identifier have
/// distinct episode identifiers.
pub proof fn law_plan_places_one_draw_per_item<F: Copy, S>(
    request: Params<F, S>,
    variants: Seq<String>,
    tool_configs: Seq<Result<Option<Value>, String>>,
    input_checks: Seq<Result<(), String>>,
    r: Result<BatchPlan<F, S>, BatchError>,
)
    requires
        plans(request, variants, tool_configs, input_checks, r),
        r is Ok,
    ensures
        ({
            let slots = slots_of(request.episode_ids, request.inputs@.len());
            let ids = r->Ok_0.episode_ids@;
            &&& ids.len() == request.inputs@.len()
            &&& all_valid(ids)
            &&& exists|drawn: Seq<Identifier>| #[trigger]
                draws_fill(slots, drawn) && ids == placed(slots, drawn)
        }),
{
    let n = request.inputs@.len();
    let candidates = pinned_candidates(names_model(variants), text_of(request.variant_name));
    let resolved = choose|ids: Result<BatchEpisodeIds, BatchError>| #[trigger]
        resolves(request.episode_ids, n, ids) && match ids {
            Err(e) => refused(r, e@),
            Ok(ids) => match request.params.expansion(n) {
                Err(error) => refused(r, error),
                Ok(inference_params) => r matches Ok(plan) && is_plan_of(
                    plan,
                    request,
                    candidates->Ok_0,
                    values(tool_configs),
                    ids@,
                    inference_params,
                ),
            },
        };
    let slots = slots_of(request.episode_ids, n);
    let drawn = choose|drawn: Seq<Identifier>| #[trigger]
        draws_fill(slots, drawn) && resolves_with(slots, drawn, resolved);
    assert(draws_fill(slots, drawn) && r->Ok_0.episode_ids@ == placed(slots, drawn));
}

} // verus!
