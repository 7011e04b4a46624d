use batch_inference::error::{BatchError, ErrorDetails};
use batch_inference::identifier::{validate_episode_id, Identifier};
use batch_inference::params::{
    BatchChatCompletionInferenceParams, BatchInferenceParams, InferenceParams,
};
use batch_inference::record::{
    build_rows, BatchInferenceDatabaseInsertMetadata, BatchModelInferenceWithMetadata,
};
use batch_inference::request::{collect_indexed, BatchPlan, Params};
use batch_inference::tool::{BatchDynamicToolParams, DynamicToolParams};
use batch_inference::variant::{SelectorAction, SelectorEvent, SelectorState};
use serde_json::Value;
use std::collections::HashMap;
use uuid::{Timestamp, Uuid};

type Request = Params<f32, String>;
type Plan = BatchPlan<f32, String>;
type BatchResult = BatchModelInferenceWithMetadata<f32>;

fn json(text: &str) -> Value {
    serde_json::from_str(text).unwrap()
}

fn names(list: &[&str]) -> Vec<String> {
    list.iter().map(|s| s.to_string()).collect()
}

fn request(n: usize) -> Request {
    Params {
        function_name: "extract".to_string(),
        episode_ids: None,
        inputs: (0..n).map(|i| json(&format!("{{\"item\":{}}}", i))).collect(),
        params: BatchInferenceParams::default(),
        variant_name: None,
        tags: None,
        dynamic_tool_params: BatchDynamicToolParams::default(),
        output_schemas: None,
        credentials: HashMap::from([("provider-a".to_string(), "secret".to_string())]),
    }
}

fn no_tools(n: usize) -> Vec<Result<Option<Value>, String>> {
    (0..n).map(|_| Ok(None)).collect()
}

fn valid(n: usize) -> Vec<Result<(), String>> {
    (0..n).map(|_| Ok(())).collect()
}

fn plan(request: Request, variants: &[&str]) -> Result<Plan, BatchError> {
    let n = request.num_inferences();
    request.plan(names(variants), no_tools(n), valid(n))
}

fn invalid_request(message: &str) -> BatchError {
    BatchError::new(ErrorDetails::InvalidRequest { message: message.to_string() })
}

/// What a variant that accepts every batch returns.
fn serve(inputs: &[Value], inference_params: Vec<InferenceParams<f32>>) -> BatchResult {
    BatchModelInferenceWithMetadata {
        batch_id: Identifier::generate(),
        inference_ids: inputs.iter().map(|_| Identifier::generate()).collect(),
        input_messages: inputs.iter().map(|input| Value::Array(vec![input.clone()])).collect(),
        systems: inputs.iter().map(|_| None).collect(),
        inference_params,
        output_schemas: inputs.iter().map(|_| None).collect(),
        model_name: "model-a".to_string(),
        model_provider_name: "provider-a".to_string(),
    }
}

#[test]
fn batch_of_three_is_served_and_recorded() {
    let mut request = request(3);
    request.params = BatchInferenceParams {
        chat_completion: BatchChatCompletionInferenceParams {
            temperature: Some(vec![Some(0.5), None, None]),
            ..Default::default()
        },
    };
    let overrides = request.begin().unwrap();
    assert_eq!(overrides.len(), 3);
    let mut plan = plan(request, &["only"]).unwrap();

    assert_eq!(plan.episode_ids.len(), 3);
    for i in 0..3 {
        assert_eq!(validate_episode_id(plan.episode_ids[i]), Ok(()));
        for j in (i + 1)..3 {
            assert_ne!(plan.episode_ids[i], plan.episode_ids[j]);
        }
    }
    assert_eq!(plan.selector.key, plan.episode_ids[0]);

    let (variant_name, result) = match plan.selector.step::<BatchResult>(SelectorEvent::Resume) {
        SelectorAction::Attempt { variant_name, inference_params } => {
            assert_eq!(variant_name, "only");
            let result = serve(&plan.inputs, inference_params);
            match plan.selector.step(SelectorEvent::AttemptSucceeded(result)) {
                SelectorAction::Persist { variant_name, result } => (variant_name, result),
                other => panic!("expected to persist, got {:?}", other),
            }
        }
        other => panic!("expected an attempt, got {:?}", other),
    };
    assert_eq!(plan.selector.state, SelectorState::Succeeded);
    assert_eq!(result.inference_ids.len(), 3);
    assert!(result.is_aligned(plan.inputs.len()));

    let metadata = BatchInferenceDatabaseInsertMetadata {
        function_name: plan.function_name.clone(),
        variant_name,
        episode_ids: plan.episode_ids.clone(),
        tags: plan.tags,
    };
    let rows = build_rows(&plan.inputs, &result, &metadata, plan.tool_configs).unwrap();
    assert_eq!(rows.len(), 3);
    assert_eq!(rows[0].inference_params.chat_completion.temperature, Some(0.5));
    assert_eq!(rows[1].inference_params.chat_completion.temperature, None);
    assert_eq!(rows[2].inference_params.chat_completion.temperature, None);
    for i in 0..3 {
        assert_eq!(rows[i].id, result.inference_ids[i].to_string());
        assert_eq!(rows[i].batch_id, result.batch_id.to_string());
        assert_eq!(rows[i].episode_id, plan.episode_ids[i].to_string());
        assert_eq!(rows[i].variant_name, "only");
        assert_eq!(rows[i].function_name, "extract");
        assert_eq!(rows[i].input, format!("{{\"item\":{}}}", i));
        assert_eq!(rows[i].input_messages, format!("[{{\"item\":{}}}]", i));
        assert!(rows[i].tags.is_empty());
    }
}

#[test]
fn overlong_max_tokens_array_fails_the_request() {
    let mut request = request(3);
    request.params = BatchInferenceParams {
        chat_completion: BatchChatCompletionInferenceParams {
            max_tokens: Some(vec![Some(1), Some(2), Some(3), Some(4)]),
            ..Default::default()
        },
    };
    // No plan comes back: there is no selector to attempt a variant with,
    // and nothing to build a row from.
    assert_eq!(
        plan(request, &["only"]).unwrap_err(),
        invalid_request("max_tokens vector length (4) does not match number of inferences (3)")
    );
}

#[test]
fn batch_without_inputs_is_refused() {
    let mut empty = request(0);
    assert_eq!(empty.begin(), Err(invalid_request("No inputs provided")));
    assert_eq!(empty, request(0));
    assert_eq!(plan(request(0), &["v"]).unwrap_err(), invalid_request("No inputs provided"));
    // The check comes before every other one.
    let mut empty = request(0);
    empty.variant_name = Some("missing".to_string());
    empty.dynamic_tool_params.tool_choice = Some(vec![None]);
    assert_eq!(empty.begin(), Err(invalid_request("No inputs provided")));
    assert_eq!(
        empty.plan(vec![], vec![Err("tool".to_string())], vec![Err("input".to_string())]),
        Err(invalid_request("No inputs provided"))
    );
}

#[test]
fn begin_moves_the_tool_overrides_out() {
    let mut request = request(2);
    request.dynamic_tool_params = BatchDynamicToolParams {
        allowed_tools: Some(vec![None, Some(vec!["search".to_string()])]),
        additional_tools: None,
        tool_choice: None,
        parallel_tool_calls: Some(vec![Some(true), Some(false)]),
    };
    let overrides = request.begin().unwrap();
    assert_eq!(
        overrides,
        vec![
            DynamicToolParams {
                allowed_tools: None,
                additional_tools: None,
                tool_choice: None,
                parallel_tool_calls: Some(true),
            },
            DynamicToolParams {
                allowed_tools: Some(vec!["search".to_string()]),
                additional_tools: None,
                tool_choice: None,
                parallel_tool_calls: Some(false),
            },
        ]
    );
    let mut expected = Params { dynamic_tool_params: BatchDynamicToolParams::default(), ..self::request(2) };
    expected.dynamic_tool_params = BatchDynamicToolParams::default();
    assert_eq!(request, expected);

    let mut request = self::request(2);
    request.dynamic_tool_params.tool_choice = Some(vec![None]);
    assert_eq!(
        request.begin(),
        Err(invalid_request("tool_choice vector length (1) does not match number of inferences (2)"))
    );
}

#[test]
fn pinned_unknown_variant_is_refused_before_any_attempt() {
    let mut request = request(2);
    request.variant_name = Some("v9".to_string());
    assert_eq!(
        plan(request, &["v1", "v2"]).unwrap_err(),
        BatchError::new(ErrorDetails::UnknownVariant { name: "v9".to_string() })
    );
    let mut request = self::request(2);
    request.variant_name = Some("v2".to_string());
    let plan = plan(request, &["v1", "v2", "v3"]).unwrap();
    assert_eq!(plan.selector.candidates, names(&["v2"]));
    assert_eq!(plan.selector.state, SelectorState::Selecting);
    assert!(plan.selector.failures.is_empty());
}

#[test]
fn function_without_variants_is_refused() {
    assert_eq!(
        plan(request(1), &[]).unwrap_err(),
        BatchError::new(ErrorDetails::InvalidFunctionVariants {
            message: "Function `extract` has no variants".to_string(),
        })
    );
}

#[test]
fn the_first_check_that_fails_decides_the_error() {
    let early = Identifier::from_u128(
        Uuid::new_v7(Timestamp::from_unix_time(946766218, 0, 0, 0)).as_u128(),
    );
    let broken = || {
        let mut request = request(2);
        request.variant_name = Some("missing".to_string());
        request.episode_ids = Some(vec![None, Some(early)]);
        request.params.chat_completion.seed = Some(vec![Some(1)]);
        request
    };
    let bad_tools = || vec![Ok(None), Err("unknown tool `x`".to_string())];
    let bad_inputs = || vec![Err("schema".to_string()), Err("later".to_string())];
    let indexed = |index: usize, message: &str| {
        BatchError::new(ErrorDetails::BatchInputValidation { index, message: message.to_string() })
    };

    // A tool configuration that does not resolve comes first.
    assert_eq!(broken().plan(vec![], bad_tools(), bad_inputs()), Err(indexed(1, "unknown tool `x`")));
    // Then the function's variants.
    assert_eq!(
        broken().plan(vec![], no_tools(2), bad_inputs()),
        Err(BatchError::new(ErrorDetails::InvalidFunctionVariants {
            message: "Function `extract` has no variants".to_string(),
        }))
    );
    // Then the inputs.
    assert_eq!(broken().plan(names(&["v"]), no_tools(2), bad_inputs()), Err(indexed(0, "schema")));
    // Then the pin.
    assert_eq!(
        broken().plan(names(&["v"]), no_tools(2), valid(2)),
        Err(BatchError::new(ErrorDetails::UnknownVariant { name: "missing".to_string() }))
    );
    // Then the episode identifiers.
    assert_eq!(
        broken().plan(names(&["missing"]), no_tools(2), valid(2)),
        Err(indexed(1, "Invalid Episode ID: Timestamp is too early"))
    );
    // Then the parameter overrides.
    let mut request = broken();
    request.episode_ids = None;
    assert_eq!(
        request.plan(names(&["missing"]), no_tools(2), valid(2)),
        Err(invalid_request("seed vector length (1) does not match number of inferences (2)"))
    );
    let mut request = broken();
    request.episode_ids = Some(vec![None]);
    assert_eq!(
        request.plan(names(&["missing"]), no_tools(2), valid(2)),
        Err(invalid_request("Number of episode_ids (1) does not match number of inputs (2)"))
    );
}

#[test]
fn plan_carries_the_request_on() {
    let mut request = request(2);
    let supplied = Identifier::from_u128(Uuid::now_v7().as_u128());
    request.episode_ids = Some(vec![Some(supplied), None]);
    request.tags = Some(vec![Some(HashMap::from([("k".to_string(), "v".to_string())]))]);
    request.output_schemas = Some(vec![None, Some(json("{}"))]);
    request.params.chat_completion.max_tokens = Some(vec![None, Some(64)]);
    let tools = vec![Ok(Some(json("{\"tools\":[]}"))), Ok(None)];
    let plan = request.plan(names(&["v1", "v2"]), tools, valid(2)).unwrap();
    assert_eq!(plan.function_name, "extract");
    assert_eq!(plan.inputs, self::request(2).inputs);
    assert_eq!(plan.episode_ids[0], supplied);
    assert_ne!(plan.episode_ids[1], supplied);
    assert_eq!(plan.tool_configs, vec![Some(json("{\"tools\":[]}")), None]);
    assert_eq!(plan.output_schemas, Some(vec![None, Some(json("{}"))]));
    assert_eq!(plan.tags, Some(vec![Some(HashMap::from([("k".to_string(), "v".to_string())]))]));
    assert_eq!(plan.credentials, self::request(2).credentials);
    assert_eq!(plan.selector.candidates, names(&["v1", "v2"]));
    assert_eq!(plan.selector.key, supplied);
    assert_eq!(plan.selector.inference_params.len(), 2);
    assert_eq!(plan.selector.inference_params[0].chat_completion.max_tokens, None);
    assert_eq!(plan.selector.inference_params[1].chat_completion.max_tokens, Some(64));
}

#[test]
fn per_item_results_are_collected_or_the_first_failure_reported() {
    assert_eq!(collect_indexed::<u8>(vec![]), Ok(vec![]));
    assert_eq!(collect_indexed(vec![Ok(1u8), Ok(2), Ok(3)]), Ok(vec![1u8, 2, 3]));
    assert_eq!(
        collect_indexed(vec![Ok(1u8), Err("second".to_string()), Err("third".to_string())]),
        Err(BatchError::new(ErrorDetails::BatchInputValidation {
            index: 1,
            message: "second".to_string(),
        }))
    );
    assert_eq!(
        collect_indexed(vec![Ok("a".to_string()), Ok("b".to_string()), Err("last".to_string())]),
        Err(BatchError::new(ErrorDetails::BatchInputValidation {
            index: 2,
            message: "last".to_string(),
        }))
    );
}

#[test]
fn error_details_convert_into_errors() {
    let details = ErrorDetails::Serialization { message: "m".to_string() };
    let error: BatchError = details.into();
    assert_eq!(error, BatchError::new(ErrorDetails::Serialization { message: "m".to_string() }));
    assert_eq!(
        error.get_details(),
        &ErrorDetails::Serialization { message: "m".to_string() }
    );
    assert_ne!(error, BatchError::new(ErrorDetails::Inference { message: "m".to_string() }));
}

#[test]
fn per_item_results_must_cover_every_input() {
    let miscounted = BatchError::new(ErrorDetails::Inference {
        message: "Per-item results do not hold one entry per input".to_string(),
    });
    // A missing input check would leave an input unvalidated.
    assert_eq!(request(3).plan(names(&["v"]), no_tools(3), valid(2)), Err(miscounted));
    let miscounted = || {
        BatchError::new(ErrorDetails::Inference {
            message: "Per-item results do not hold one entry per input".to_string(),
        })
    };
    assert_eq!(request(3).plan(names(&["v"]), no_tools(3), valid(4)), Err(miscounted()));
    assert_eq!(request(3).plan(names(&["v"]), no_tools(2), valid(3)), Err(miscounted()));
    assert_eq!(request(3).plan(names(&["v"]), no_tools(4), valid(3)), Err(miscounted()));
    assert_eq!(request(3).plan(names(&["v"]), vec![], vec![]), Err(miscounted()));
    // The count comes before what the results say.
    assert_eq!(
        request(2).plan(vec![], vec![Err("tool".to_string())], vec![Err("input".to_string())]),
        Err(miscounted())
    );
    assert!(request(3).plan(names(&["v"]), no_tools(3), valid(3)).is_ok());
}
