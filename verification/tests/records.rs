use batch_inference::error::{BatchError, ErrorDetails};
use batch_inference::identifier::Identifier;
use batch_inference::params::{ChatCompletionInferenceParams, InferenceParams};
use batch_inference::record::{
    assemble_row, build_rows, encode_item, BatchInferenceDatabaseInsertMetadata,
    BatchModelInferenceInsert, BatchModelInferenceWithMetadata, EncodedItem, EncodedTexts,
};
use serde_json::Value;
use std::collections::HashMap;

fn json(text: &str) -> Value {
    serde_json::from_str(text).unwrap()
}

fn tags(pairs: &[(&str, &str)]) -> HashMap<String, String> {
    pairs.iter().map(|(k, v)| (k.to_string(), v.to_string())).collect()
}

fn item_params(temperature: Option<f32>) -> InferenceParams<f32> {
    InferenceParams {
        chat_completion: ChatCompletionInferenceParams { temperature, ..Default::default() },
    }
}

fn result() -> BatchModelInferenceWithMetadata<f32> {
    BatchModelInferenceWithMetadata {
        batch_id: Identifier::from_u128(0x0192_0000_0000_7000_8000_0000_0000_00b1),
        inference_ids: vec![
            Identifier::from_u128(0x0192_0000_0000_7000_8000_0000_0000_0001),
            Identifier::from_u128(0x0192_0000_0000_7000_8000_0000_0000_0002),
            Identifier::from_u128(0x0192_0000_0000_7000_8000_0000_0000_0003),
        ],
        input_messages: vec![json("[{\"role\":\"user\"}]"), json("[]"), json("[1,2]")],
        systems: vec![Some("Be \"brief\".\n".to_string()), None, Some(String::new())],
        inference_params: vec![item_params(Some(0.5)), item_params(None), item_params(Some(1.0))],
        output_schemas: vec![None, Some(json("{\"type\":\"object\"}")), None],
        model_name: "model-a".to_string(),
        model_provider_name: "provider-a".to_string(),
    }
}

fn metadata(tags: Option<Vec<Option<HashMap<String, String>>>>) -> BatchInferenceDatabaseInsertMetadata {
    BatchInferenceDatabaseInsertMetadata {
        function_name: "extract".to_string(),
        variant_name: "v1".to_string(),
        episode_ids: vec![
            Identifier::from_u128(0x0192_0000_0000_7000_8000_0000_0000_00e1),
            Identifier::from_u128(0x0192_0000_0000_7000_8000_0000_0000_00e2),
            Identifier::from_u128(0x0192_0000_0000_7000_8000_0000_0000_00e3),
        ],
        tags,
    }
}

fn inputs() -> Vec<Value> {
    vec![json("{\"q\":\"one\"}"), json("{\"q\":\"two\"}"), json("null")]
}

#[test]
fn rows_are_aligned_by_position() {
    let tools = vec![None, Some(json("{\"tool_choice\":\"auto\"}")), None];
    let meta = metadata(Some(vec![Some(tags(&[("a", "1")])), None, Some(tags(&[("b", "2")]))]));
    let rows = build_rows(&inputs(), &result(), &meta, tools).unwrap();
    assert_eq!(rows.len(), 3);
    assert_eq!(
        rows[0],
        BatchModelInferenceInsert {
            id: "01920000-0000-7000-8000-000000000001".to_string(),
            batch_id: "01920000-0000-7000-8000-0000000000b1".to_string(),
            function_name: "extract".to_string(),
            variant_name: "v1".to_string(),
            episode_id: "01920000-0000-7000-8000-0000000000e1".to_string(),
            input: "{\"q\":\"one\"}".to_string(),
            input_messages: "[{\"role\":\"user\"}]".to_string(),
            system: Some("\"Be \\\"brief\\\".\\n\"".to_string()),
            tool_params: None,
            inference_params: item_params(Some(0.5)),
            output_schema: None,
            model_name: "model-a".to_string(),
            model_provider_name: "provider-a".to_string(),
            tags: tags(&[("a", "1")]),
        }
    );
    assert_eq!(
        rows[1],
        BatchModelInferenceInsert {
            id: "01920000-0000-7000-8000-000000000002".to_string(),
            batch_id: "01920000-0000-7000-8000-0000000000b1".to_string(),
            function_name: "extract".to_string(),
            variant_name: "v1".to_string(),
            episode_id: "01920000-0000-7000-8000-0000000000e2".to_string(),
            input: "{\"q\":\"two\"}".to_string(),
            input_messages: "[]".to_string(),
            system: None,
            tool_params: Some(json("{\"tool_choice\":\"auto\"}")),
            inference_params: item_params(None),
            output_schema: Some("{\"type\":\"object\"}".to_string()),
            model_name: "model-a".to_string(),
            model_provider_name: "provider-a".to_string(),
            tags: HashMap::new(),
        }
    );
    assert_eq!(rows[2].id, "01920000-0000-7000-8000-000000000003");
    assert_eq!(rows[2].episode_id, "01920000-0000-7000-8000-0000000000e3");
    assert_eq!(rows[2].input, "null");
    assert_eq!(rows[2].input_messages, "[1,2]");
    assert_eq!(rows[2].system, Some("\"\"".to_string()));
    assert_eq!(rows[2].inference_params, item_params(Some(1.0)));
    assert_eq!(rows[2].tags, tags(&[("b", "2")]));
}

#[test]
fn missing_tags_are_padded_with_empty_maps() {
    let short = metadata(Some(vec![Some(tags(&[("a", "1")]))]));
    let rows = build_rows(&inputs(), &result(), &short, vec![None, None, None]).unwrap();
    assert_eq!(rows.len(), 3);
    assert_eq!(rows[0].tags, tags(&[("a", "1")]));
    assert_eq!(rows[1].tags, HashMap::new());
    assert_eq!(rows[2].tags, HashMap::new());

    let absent = metadata(None);
    let rows = build_rows(&inputs(), &result(), &absent, vec![None, None, None]).unwrap();
    assert_eq!(rows.len(), 3);
    assert!(rows.iter().all(|row| row.tags.is_empty()));

    let empty = metadata(Some(vec![]));
    let rows = build_rows(&inputs(), &result(), &empty, vec![None, None, None]).unwrap();
    assert_eq!(rows.len(), 3);
    assert!(rows.iter().all(|row| row.tags.is_empty()));

    // Tags beyond the batch are not looked at.
    let long = metadata(Some(vec![None, None, Some(tags(&[("c", "3")])), Some(tags(&[("d", "4")]))]));
    let rows = build_rows(&inputs(), &result(), &long, vec![None, None, None]).unwrap();
    assert_eq!(rows.len(), 3);
    assert_eq!(rows[2].tags, tags(&[("c", "3")]));
}

#[test]
fn empty_batch_has_no_rows() {
    let result: BatchModelInferenceWithMetadata<f32> = BatchModelInferenceWithMetadata {
        batch_id: Identifier::from_u128(1),
        inference_ids: vec![],
        input_messages: vec![],
        systems: vec![],
        inference_params: vec![],
        output_schemas: vec![],
        model_name: String::new(),
        model_provider_name: String::new(),
    };
    let meta = BatchInferenceDatabaseInsertMetadata {
        function_name: String::new(),
        variant_name: String::new(),
        episode_ids: vec![],
        tags: Some(vec![None]),
    };
    assert!(result.is_aligned(0));
    assert_eq!(build_rows(&vec![], &result, &meta, vec![]), Ok(vec![]));
}

#[test]
fn alignment_asks_for_one_entry_per_item_in_every_array() {
    assert!(result().is_aligned(3));
    assert!(!result().is_aligned(2));
    assert!(!result().is_aligned(4));
    let mut short = result();
    short.inference_ids.pop();
    assert!(!short.is_aligned(3));
    let mut short = result();
    short.input_messages.pop();
    assert!(!short.is_aligned(3));
    let mut short = result();
    short.systems.pop();
    assert!(!short.is_aligned(3));
    let mut short = result();
    short.inference_params.pop();
    assert!(!short.is_aligned(3));
    let mut long = result();
    long.output_schemas.push(None);
    assert!(!long.is_aligned(3));
}

#[test]
fn structured_fields_are_encoded_as_json_text() {
    let encoded = encode_item(
        &json("{\"messages\":[{\"content\":\"caf\\u00e9\"}]}"),
        &json("[true,null,1.5]"),
        &Some("line\tone\\ \"two\"".to_string()),
        &Some(json("{\"a\":[]}")),
    );
    assert_eq!(
        encoded,
        EncodedItem {
            input: Ok("{\"messages\":[{\"content\":\"café\"}]}".to_string()),
            input_messages: Ok("[true,null,1.5]".to_string()),
            system: Some(Ok("\"line\\tone\\\\ \\\"two\\\"\"".to_string())),
            output_schema: Some(Ok("{\"a\":[]}".to_string())),
        }
    );
    let encoded = encode_item(&json("1"), &json("2"), &None, &None);
    assert_eq!(
        encoded,
        EncodedItem {
            input: Ok("1".to_string()),
            input_messages: Ok("2".to_string()),
            system: None,
            output_schema: None,
        }
    );
}

fn serialization(message: &str) -> BatchError {
    BatchError::new(ErrorDetails::Serialization { message: message.to_string() })
}

#[test]
fn the_first_field_that_fails_to_encode_is_reported() {
    let ok = |text: &str| Ok(text.to_string());
    let err = |text: &str| Err(text.to_string());
    let all = EncodedItem {
        input: ok("i"),
        input_messages: ok("m"),
        system: Some(ok("s")),
        output_schema: Some(ok("o")),
    };
    assert_eq!(
        all.into_texts(),
        Ok(EncodedTexts {
            input: "i".to_string(),
            input_messages: "m".to_string(),
            system: Some("s".to_string()),
            output_schema: Some("o".to_string()),
        })
    );
    let bare = EncodedItem { input: ok("i"), input_messages: ok("m"), system: None, output_schema: None };
    assert_eq!(
        bare.into_texts(),
        Ok(EncodedTexts {
            input: "i".to_string(),
            input_messages: "m".to_string(),
            system: None,
            output_schema: None,
        })
    );
    let failing = EncodedItem {
        input: err("bad input"),
        input_messages: err("bad messages"),
        system: Some(err("bad system")),
        output_schema: Some(err("bad schema")),
    };
    assert_eq!(failing.into_texts(), Err(serialization("bad input")));
    let failing = EncodedItem {
        input: ok("i"),
        input_messages: err("bad messages"),
        system: Some(err("bad system")),
        output_schema: Some(err("bad schema")),
    };
    assert_eq!(failing.into_texts(), Err(serialization("bad messages")));
    let failing = EncodedItem {
        input: ok("i"),
        input_messages: ok("m"),
        system: Some(err("bad system")),
        output_schema: Some(err("bad schema")),
    };
    assert_eq!(failing.into_texts(), Err(serialization("bad system")));
    let failing = EncodedItem {
        input: ok("i"),
        input_messages: ok("m"),
        system: None,
        output_schema: Some(err("bad schema")),
    };
    assert_eq!(failing.into_texts(), Err(serialization("bad schema")));
}

#[test]
fn a_row_takes_the_entries_of_its_position() {
    let texts = EncodedTexts {
        input: "in".to_string(),
        input_messages: "msgs".to_string(),
        system: None,
        output_schema: Some("schema".to_string()),
    };
    let meta = metadata(Some(vec![None, None, Some(tags(&[("k", "v")]))]));
    let row = assemble_row(2, texts, Some(json("7")), &result(), &meta);
    assert_eq!(
        row,
        BatchModelInferenceInsert {
            id: "01920000-0000-7000-8000-000000000003".to_string(),
            batch_id: "01920000-0000-7000-8000-0000000000b1".to_string(),
            function_name: "extract".to_string(),
            variant_name: "v1".to_string(),
            episode_id: "01920000-0000-7000-8000-0000000000e3".to_string(),
            input: "in".to_string(),
            input_messages: "msgs".to_string(),
            system: None,
            tool_params: Some(json("7")),
            inference_params: item_params(Some(1.0)),
            output_schema: Some("schema".to_string()),
            model_name: "model-a".to_string(),
            model_provider_name: "provider-a".to_string(),
            tags: tags(&[("k", "v")]),
        }
    );
}

#[test]
fn a_batch_that_is_not_aligned_gives_no_rows() {
    let misaligned = BatchError::new(ErrorDetails::Inference {
        message: "Batch result does not hold one entry per input".to_string(),
    });
    let none = || vec![None, None, None];
    let meta = metadata(None);
    let try_build = batch_inference::record::try_build_rows::<f32>;

    let rows = try_build(&inputs(), &result(), &meta, none()).unwrap();
    assert_eq!(rows, build_rows(&inputs(), &result(), &meta, none()).unwrap());
    assert_eq!(rows.len(), 3);

    let mut short = result();
    short.systems.pop();
    assert_eq!(try_build(&inputs(), &short, &meta, none()), Err(misaligned_error()));
    assert_eq!(try_build(&inputs(), &result(), &meta, vec![None, None]), Err(misaligned_error()));
    let mut short = metadata(None);
    short.episode_ids.pop();
    assert_eq!(try_build(&inputs(), &result(), &short, none()), Err(misaligned_error()));
    let mut fewer = inputs();
    fewer.pop();
    assert_eq!(try_build(&fewer, &result(), &meta, none()), Err(misaligned));
}

fn misaligned_error() -> BatchError {
    BatchError::new(ErrorDetails::Inference {
        message: "Batch result does not hold one entry per input".to_string(),
    })
}
