//! The records of a batch: one row per item, put together from what the
//! serving variant returned, the inputs of the request and the request's
//! metadata.
//!
//! Everything is aligned by position. The structured fields of a row are
//! held as JSON text; if one of them cannot be encoded, no row is produced.

use crate::error::{BatchError, ErrorDetails, ErrorView};
use crate::identifier::{canonical_text, Identifier};
use crate::json::{
    encode_text, encode_value, error_text, json_string_text, json_value_text,
};
use crate::params::InferenceParams;
use crate::text::text_of;
use serde_json::Value;
use std::collections::HashMap;
use vstd::prelude::*;

verus! {

/// The tag maps of a batch as the request carries them: absent, or one
/// optional map per item.
pub type BatchTags = Vec<Option<HashMap<String, String>>>;

/// What a variant returns when it has accepted a batch. Each of the arrays
/// holds one entry per item.
#[derive(Debug, PartialEq)]
pub struct BatchModelInferenceWithMetadata<F> {
    pub batch_id: Identifier,
    pub inference_ids: Vec<Identifier>,
    /// The rendered input messages of each item.
    pub input_messages: Vec<Value>,
    /// The rendered system prompt of each item, if it has one.
    pub systems: Vec<Option<String>>,
    /// The inference parameters of each item, as the variant completed them.
    pub inference_params: Vec<InferenceParams<F>>,
    /// The output schema that overrides the function's, for each item that
    /// has one.
    pub output_schemas: Vec<Option<Value>>,
    pub model_name: String,
    pub model_provider_name: String,
}

/// What the request contributes to the rows of its batch.
#[derive(Debug, PartialEq)]
pub struct BatchInferenceDatabaseInsertMetadata {
    pub function_name: String,
    pub variant_name: String,
    pub episode_ids: Vec<Identifier>,
    pub tags: Option<BatchTags>,
}

/// The row that is persisted for one item of a batch.
#[derive(Debug, PartialEq)]
pub struct BatchModelInferenceInsert<F> {
    pub id: String,
    pub batch_id: String,
    pub function_name: String,
    pub variant_name: String,
    pub episode_id: String,
    pub input: String,
    pub input_messages: String,
    pub system: Option<String>,
    pub tool_params: Option<Value>,
    pub inference_params: InferenceParams<F>,
    pub output_schema: Option<String>,
    pub model_name: String,
    pub model_provider_name: String,
    pub tags: HashMap<String, String>,
}

/// The model of a row: texts as sequences of characters, the tags as a map.
pub struct RowView<F> {
    pub id: Seq<char>,
    pub batch_id: Seq<char>,
    pub function_name: Seq<char>,
    pub variant_name: Seq<char>,
    pub episode_id: Seq<char>,
    pub input: Seq<char>,
    pub input_messages: Seq<char>,
    pub system: Option<Seq<char>>,
    pub tool_params: Option<Value>,
    pub inference_params: InferenceParams<F>,
    pub output_schema: Option<Seq<char>>,
    pub model_name: Seq<char>,
    pub model_provider_name: Seq<char>,
    pub tags: Map<String, String>,
}

impl<F> View for BatchModelInferenceInsert<F> {
    type V = RowView<F>;

    open spec fn view(&self) -> RowView<F> {
        RowView {
            id: self.id@,
            batch_id: self.batch_id@,
            function_name: self.function_name@,
            variant_name: self.variant_name@,
            episode_id: self.episode_id@,
            input: self.input@,
            input_messages: self.input_messages@,
            system: text_of(self.system),
            tool_params: self.tool_params,
            inference_params: self.inference_params,
            output_schema: text_of(self.output_schema),
            model_name: self.model_name@,
            model_provider_name: self.model_provider_name@,
            tags: self.tags@,
        }
    }
}

/// The outcome of encoding one structured field: the JSON text, or the
/// encoder's message.
pub type Encoded = Result<String, String>;

/// The structured fields of one item after encoding.
#[derive(Debug, PartialEq)]
pub struct EncodedItem {
    pub input: Encoded,
    pub input_messages: Encoded,
    pub system: Option<Encoded>,
    pub output_schema: Option<Encoded>,
}

/// The structured fields of one item as JSON texts.
#[derive(Debug, PartialEq)]
pub struct EncodedTexts {
    pub input: String,
    pub input_messages: String,
    pub system: Option<String>,
    pub output_schema: Option<String>,
}

/// The model of [`EncodedTexts`].
pub struct TextsView {
    pub input: Seq<char>,
    pub input_messages: Seq<char>,
    pub system: Option<Seq<char>>,
    pub output_schema: Option<Seq<char>>,
}

impl View for EncodedTexts {
    type V = TextsView;

    open spec fn view(&self) -> TextsView {
        TextsView {
            input: self.input@,
            input_messages: self.input_messages@,
            system: text_of(self.system),
            output_schema: text_of(self.output_schema),
        }
    }
}

/// The outcome of encoding one field, as texts.
pub type Outcome = Result<Seq<char>, Seq<char>>;

/// The model of [`Encoded`].
pub open spec fn outcome_of(encoded: Encoded) -> Outcome {
    match encoded {
        Ok(text) => Ok(text@),
        Err(message) => Err(message@),
    }
}

/// The model of an optional [`Encoded`].
pub open spec fn optional_outcome(field: Option<Encoded>) -> Option<Outcome> {
    match field {
        Some(encoded) => Some(outcome_of(encoded)),
        None => None,
    }
}

/// The model of [`EncodedItem`].
pub struct EncodedItemView {
    pub input: Outcome,
    pub input_messages: Outcome,
    pub system: Option<Outcome>,
    pub output_schema: Option<Outcome>,
}

impl View for EncodedItem {
    type V = EncodedItemView;

    open spec fn view(&self) -> EncodedItemView {
        EncodedItemView {
            input: outcome_of(self.input),
            input_messages: outcome_of(self.input_messages),
            system: optional_outcome(self.system),
            output_schema: optional_outcome(self.output_schema),
        }
    }
}

/// The text of an optional field, if it is there and was encoded.
pub open spec fn encoded_text(field: Option<Outcome>) -> Option<Seq<char>> {
    match field {
        Some(Ok(text)) => Some(text),
        _ => None,
    }
}

impl EncodedItemView {
    /// The message of the first field, in the order input, input messages,
    /// system prompt, output schema, that could not be encoded.
    pub open spec fn failure(self) -> Option<Seq<char>> {
        if let Err(message) = self.input {
            Some(message)
        } else if let Err(message) = self.input_messages {
            Some(message)
        } else if let Some(Err(message)) = self.system {
            Some(message)
        } else if let Some(Err(message)) = self.output_schema {
            Some(message)
        } else {
            None
        }
    }

    /// The texts of the fields, where all of them were encoded.
    pub open spec fn texts(self) -> TextsView {
        TextsView {
            input: self.input->Ok_0,
            input_messages: self.input_messages->Ok_0,
            system: encoded_text(self.system),
            output_schema: encoded_text(self.output_schema),
        }
    }
}

impl EncodedItem {
    /// The texts of the fields, or the serialization error for the first
    /// field that could not be encoded, with the encoder's message.
    pub fn into_texts(self) -> (r: Result<EncodedTexts, BatchError>)
        ensures
            r is Ok <==> self@.failure() is None,
            r matches Ok(texts) ==> texts@ == self@.texts(),
            r matches Err(e) ==> e@ == (ErrorView::Serialization { message: self@.failure()->0 }),
    {
        let EncodedItem { input, input_messages, system, output_schema } = self;
        let input = match input {
            Ok(text) => text,
            Err(message) => {
                return Err(BatchError::new(ErrorDetails::Serialization { message }));
            },
        };
        let input_messages = match input_messages {
            Ok(text) => text,
            Err(message) => {
                return Err(BatchError::new(ErrorDetails::Serialization { message }));
            },
        };
        let system = match system {
            Some(Ok(text)) => Some(text),
            Some(Err(message)) => {
                return Err(BatchError::new(ErrorDetails::Serialization { message }));
            },
            None => None,
        };
        let output_schema = match output_schema {
            Some(Ok(text)) => Some(text),
            Some(Err(message)) => {
                return Err(BatchError::new(ErrorDetails::Serialization { message }));
            },
            None => None,
        };
        Ok(EncodedTexts { input, input_messages, system, output_schema })
    }
}

/// Encodes a structured payload as JSON text: the text that `serde_json`
/// has for the payload, or the message of the error that it reports.
fn encode_payload(value: &Value) -> (r: Encoded)
    ensures
        outcome_of(r) == json_value_text(*value),
{
    match encode_value(value) {
        Ok(text) => Ok(text),
        Err(e) => Err(error_text(&e)),
    }
}

/// Encodes a string as JSON text: the text that `serde_json` has for the
/// string, or the message of the error that it reports.
fn encode_string(text: &String) -> (r: Encoded)
    ensures
        outcome_of(r) == json_string_text(text@),
{
    match encode_text(text.as_str()) {
        Ok(encoded) => Ok(encoded),
        Err(e) => Err(error_text(&e)),
    }
}

/// What encoding the structured fields of an item gives: for the input and
/// the input messages what `serde_json` gives for them, and the same for
/// the system prompt and the output schema where the item has one.
pub open spec fn item_encoding(
    input: Value,
    input_messages: Value,
    system: Option<String>,
    output_schema: Option<Value>,
) -> EncodedItemView {
    EncodedItemView {
        input: json_value_text(input),
        input_messages: json_value_text(input_messages),
        system: match system {
            Some(text) => Some(json_string_text(text@)),
            None => None,
        },
        output_schema: match output_schema {
            Some(schema) => Some(json_value_text(schema)),
            None => None,
        },
    }
}

/// Encodes the structured fields of one item: [`item_encoding`].
pub fn encode_item(
    input: &Value,
    input_messages: &Value,
    system: &Option<String>,
    output_schema: &Option<Value>,
) -> (encoded: EncodedItem)
    ensures
        encoded@ == item_encoding(*input, *input_messages, *system, *output_schema),
{
    let input = encode_payload(input);
    let input_messages = encode_payload(input_messages);
    let system = match system {
        Some(text) => Some(encode_string(text)),
        None => None,
    };
    let output_schema = match output_schema {
        Some(schema) => Some(encode_payload(schema)),
        None => None,
    };
    EncodedItem { input, input_messages, system, output_schema }
}

impl<F> BatchModelInferenceWithMetadata<F> {
    /// Every array of the result holds one entry for each of `n` items.
    pub open spec fn aligned(self, n: nat) -> bool {
        &&& self.inference_ids@.len() == n
        &&& self.input_messages@.len() == n
        &&& self.systems@.len() == n
        &&& self.inference_params@.len() == n
        &&& self.output_schemas@.len() == n
    }

    /// Tests [`Self::aligned`].
    pub fn is_aligned(&self, n: usize) -> (b: bool)
        ensures
            b == self.aligned(n as nat),
    {
        self.inference_ids.len() == n && self.input_messages.len() == n && self.systems.len() == n
            && self.inference_params.len() == n && self.output_schemas.len() == n
    }
}

/// The tags of item `i`: its entry of the tag array, and the empty map
/// where the array is absent, ends before `i`, or holds no map for `i`.
pub open spec fn tags_at(tags: Option<BatchTags>, i: int) -> Map<String, String> {
    match tags {
        Some(v) => if 0 <= i < v@.len() {
            match v@[i] {
                Some(m) => m@,
                None => Map::empty(),
            }
        } else {
            Map::empty()
        },
        None => Map::empty(),
    }
}

/// Computes [`tags_at`].
fn tags_of(tags: &Option<BatchTags>, i: usize) -> (m: HashMap<String, String>)
    ensures
        m@ == tags_at(*tags, i as int),
{
    match tags {
        Some(v) => {
            if i < v.len() {
                match &v[i] {
                    Some(m) => m.clone(),
                    None => HashMap::new(),
                }
            } else {
                HashMap::new()
            }
        },
        None => HashMap::new(),
    }
}

/// The row of item `i`: the entries at position `i` of the result and of
/// the metadata, the identifiers in their canonical text, and the given
/// tool configuration and encoded texts.
pub open spec fn row_model<F>(
    result: BatchModelInferenceWithMetadata<F>,
    metadata: BatchInferenceDatabaseInsertMetadata,
    tool_params: Option<Value>,
    texts: TextsView,
    i: int,
) -> RowView<F> {
    RowView {
        id: canonical_text(result.inference_ids@[i].bits),
        batch_id: canonical_text(result.batch_id.bits),
        function_name: metadata.function_name@,
        variant_name: metadata.variant_name@,
        episode_id: canonical_text(metadata.episode_ids@[i].bits),
        input: texts.input,
        input_messages: texts.input_messages,
        system: texts.system,
        tool_params,
        inference_params: result.inference_params@[i],
        output_schema: texts.output_schema,
        model_name: result.model_name@,
        model_provider_name: result.model_provider_name@,
        tags: tags_at(metadata.tags, i),
    }
}

/// Puts the row of item `i` together: [`row_model`].
pub fn assemble_row<F: Copy>(
    i: usize,
    texts: EncodedTexts,
    tool_params: Option<Value>,
    result: &BatchModelInferenceWithMetadata<F>,
    metadata: &BatchInferenceDatabaseInsertMetadata,
) -> (row: BatchModelInferenceInsert<F>)
    requires
        i < result.inference_ids@.len(),
        i < result.inference_params@.len(),
        i < metadata.episode_ids@.len(),
    ensures
        row@ == row_model(*result, *metadata, tool_params, texts@, i as int),
{
    let EncodedTexts { input, input_messages, system, output_schema } = texts;
    BatchModelInferenceInsert {
        id: result.inference_ids[i].to_string(),
        batch_id: result.batch_id.to_string(),
        function_name: metadata.function_name.clone(),
        variant_name: metadata.variant_name.clone(),
        episode_id: metadata.episode_ids[i].to_string(),
        input,
        input_messages,
        system,
        tool_params,
        inference_params: result.inference_params[i],
        output_schema,
        model_name: result.model_name.clone(),
        model_provider_name: result.model_provider_name.clone(),
        tags: tags_of(&metadata.tags, i),
    }
}

/// What encoding the structured fields of item `i` of a batch gives.
pub open spec fn encoding_at<F>(
    inputs: Seq<Value>,
    result: BatchModelInferenceWithMetadata<F>,
    i: int,
) -> EncodedItemView {
    item_encoding(
        inputs[i],
        result.input_messages@[i],
        result.systems@[i],
        result.output_schemas@[i],
    )
}

/// Every structured field of every item of the batch can be encoded.
pub open spec fn all_encode<F>(
    inputs: Seq<Value>,
    result: BatchModelInferenceWithMetadata<F>,
) -> bool {
    forall|i: int|
        0 <= i < inputs.len() ==> (#[trigger] encoding_at(inputs, result, i)).failure() is None
}

/// Item `k` is the first item of the batch with a structured field that
/// cannot be encoded.
pub open spec fn is_first_failed<F>(
    inputs: Seq<Value>,
    result: BatchModelInferenceWithMetadata<F>,
    k: int,
) -> bool {
    &&& 0 <= k < inputs.len()
    &&& encoding_at(inputs, result, k).failure() is Some
    &&& forall|j: int| 0 <= j < k ==> (#[trigger] encoding_at(inputs, result, j)).failure() is None
}

/// `r` is what building the rows of a batch gives.
///
/// Where every structured field of every item can be encoded, it is one row
/// per item: row `i` is [`row_model`] on the encoded texts of item `i`.
/// Otherwise it is the serialization error for the first field that cannot
/// be encoded, in the first item that has such a field, with the encoder's
/// message.
pub open spec fn builds<F>(
    inputs: Seq<Value>,
    result: BatchModelInferenceWithMetadata<F>,
    metadata: BatchInferenceDatabaseInsertMetadata,
    tool_params: Seq<Option<Value>>,
    r: Result<Vec<BatchModelInferenceInsert<F>>, BatchError>,
) -> bool {
    match r {
        Ok(rows) => {
            &&& all_encode(inputs, result)
            &&& rows@.len() == inputs.len()
            &&& forall|i: int|
                0 <= i < inputs.len() ==> (#[trigger] rows@[i])@ == row_model(
                    result,
                    metadata,
                    tool_params[i],
                    encoding_at(inputs, result, i).texts(),
                    i,
                )
        },
        Err(e) => exists|k: int| #[trigger]
            is_first_failed(inputs, result, k) && e@ == (ErrorView::Serialization {
                message: encoding_at(inputs, result, k).failure()->0,
            }),
    }
}

/// Builds the rows of a batch, one per item, in the order of the items:
/// [`builds`].
///
/// The structured fields are encoded item by item. The first field that
/// cannot be encoded ends the work with a serialization error, and no row
/// is returned.
pub fn build_rows<F: Copy>(
    inputs: &Vec<Value>,
    result: &BatchModelInferenceWithMetadata<F>,
    metadata: &BatchInferenceDatabaseInsertMetadata,
    tool_params: Vec<Option<Value>>,
) -> (r: Result<Vec<BatchModelInferenceInsert<F>>, BatchError>)
    requires
        result.aligned(inputs@.len()),
        metadata.episode_ids@.len() == inputs@.len(),
        tool_params@.len() == inputs@.len(),
    ensures
        builds(inputs@, *result, *metadata, tool_params@, r),
{
    let n = inputs.len();
    let mut tool_params = tool_params;
    let ghost tools = tool_params@;
    let mut rows: Vec<BatchModelInferenceInsert<F>> = Vec::with_capacity(n);
    for i in 0..n
        invariant
            n == inputs@.len(),
            result.aligned(n as nat),
            metadata.episode_ids@.len() == n,
            tool_params@.len() == n,
            tools.len() == n,
            forall|k: int| i <= k < n ==> tool_params@[k] == tools[k],
            rows@.len() == i,
            forall|j: int|
                0 <= j < i ==> (#[trigger] encoding_at(inputs@, *result, j)).failure() is None,
            forall|j: int|
                0 <= j < i ==> (#[trigger] rows@[j])@ == row_model(
                    *result,
                    *metadata,
                    tools[j],
                    encoding_at(inputs@, *result, j).texts(),
                    j,
                ),
    {
        let encoded = encode_item(
            &inputs[i],
            &result.input_messages[i],
            &result.systems[i],
            &result.output_schemas[i],
        );
        assert(encoded@ == encoding_at(inputs@, *result, i as int));
        let texts = match encoded.into_texts() {
            Ok(texts) => texts,
            Err(e) => {
                assert(is_first_failed(inputs@, *result, i as int));
                return Err(e);
            },
        };
        let tool = tool_params[i].take();
        let row = assemble_row(i, texts, tool, result, metadata);
        rows.push(row);
    }
    Ok(rows)
}

/// The text that reports a batch whose arrays do not all hold one entry per
/// item.
pub open spec fn misaligned_message() -> Seq<char> {
    "Batch result does not hold one entry per input"@
}

/// The result, the episode identifiers and the tool configurations hold one
/// entry for each of `n` items.
pub open spec fn batch_aligned<F>(
    n: nat,
    result: BatchModelInferenceWithMetadata<F>,
    metadata: BatchInferenceDatabaseInsertMetadata,
    tool_params: Seq<Option<Value>>,
) -> bool {
    &&& result.aligned(n)
    &&& metadata.episode_ids@.len() == n
    &&& tool_params.len() == n
}

/// Builds the rows of a batch as [`build_rows`] does, after checking that
/// every array holds one entry per input. Where one does not, no field is
/// encoded and an inference error is returned.
pub fn try_build_rows<F: Copy>(
    inputs: &Vec<Value>,
    result: &BatchModelInferenceWithMetadata<F>,
    metadata: &BatchInferenceDatabaseInsertMetadata,
    tool_params: Vec<Option<Value>>,
) -> (r: Result<Vec<BatchModelInferenceInsert<F>>, BatchError>)
    ensures
        !batch_aligned(inputs@.len(), *result, *metadata, tool_params@) ==> (r matches Err(e)
            && e@ == (ErrorView::Inference { message: misaligned_message() })),
        batch_aligned(inputs@.len(), *result, *metadata, tool_params@) ==> builds(
            inputs@,
            *result,
            *metadata,
            tool_params@,
            r,
        ),
{
    let n = inputs.len();
    if result.is_aligned(n) && metadata.episode_ids.len() == n && tool_params.len() == n {
        build_rows(inputs, result, metadata, tool_params)
    } else {
        Err(
            BatchError::new(
                ErrorDetails::Inference {
                    message: "Batch result does not hold one entry per input".to_owned(),
                },
            ),
        )
    }
}

/// Where every structured field of every item can be encoded, the batch
/// gets all its rows, whatever its tags are: one row per item, each with
/// the identifiers, the parameters and the tool configuration of its
/// position, the JSON texts of its own input, input messages, system prompt
/// and output schema, and its tags or the empty map.
pub proof fn law_rows_are_owed<F>(
    inputs: Seq<Value>,
    result: BatchModelInferenceWithMetadata<F>,
    metadata: BatchInferenceDatabaseInsertMetadata,
    tool_params: Seq<Option<Value>>,
    r: Result<Vec<BatchModelInferenceInsert<F>>, BatchError>,
)
    requires
        builds(inputs, result, metadata, tool_params, r),
        all_encode(inputs, result),
    ensures
        r is Ok,
        r->Ok_0@.len() == inputs.len(),
        forall|i: int|
            0 <= i < inputs.len() ==> {
                let row = (#[trigger] r->Ok_0@[i])@;
                &&& row.id == canonical_text(result.inference_ids@[i].bits)
                &&& row.episode_id == canonical_text(metadata.episode_ids@[i].bits)
                &&& json_value_text(inputs[i]) == Ok::<Seq<char>, Seq<char>>(row.input)
                &&& json_value_text(result.input_messages@[i]) == Ok::<Seq<char>, Seq<char>>(
                    row.input_messages,
                )
                &&& row.system == match result.systems@[i] {
                    Some(system) => Some(json_string_text(system@)->Ok_0),
                    None => None,
                }
                &&& row.output_schema == match result.output_schemas@[i] {
                    Some(schema) => Some(json_value_text(schema)->Ok_0),
                    None => None,
                }
                &&& row.inference_params == result.inference_params@[i]
                &&& row.tool_params == tool_params[i]
                &&& row.tags == tags_at(metadata.tags, i)
            },
{
    if r is Err {
        let k = choose|k: int| #[trigger] is_first_failed(inputs, result, k);
        assert(encoding_at(inputs, result, k).failure() is None);
    }
    assert forall|i: int| 0 <= i < inputs.len() implies {
        let row = (#[trigger] r->Ok_0@[i])@;
        &&& json_value_text(inputs[i]) == Ok::<Seq<char>, Seq<char>>(row.input)
        &&& json_value_text(result.input_messages@[i]) == Ok::<Seq<char>, Seq<char>>(
            row.input_messages,
        )
        &&& row.system == match result.systems@[i] {
            Some(system) => Some(json_string_text(system@)->Ok_0),
            None => None,
        }
        &&& row.output_schema == match result.output_schemas@[i] {
            Some(schema) => Some(json_value_text(schema)->Ok_0),
            None => None,
        }
    } by {
        assert(encoding_at(inputs, result, i).failure() is None);
    }
}

/// A structured field that cannot be encoded fails the whole batch: no row
/// is returned, and the error carries the encoder's message for the first
/// such field of the first item that has one.
pub proof fn law_failed_encoding_fails_the_batch<F>(
    inputs: Seq<Value>,
    result: BatchModelInferenceWithMetadata<F>,
    metadata: BatchInferenceDatabaseInsertMetadata,
    tool_params: Seq<Option<Value>>,
    r: Result<Vec<BatchModelInferenceInsert<F>>, BatchError>,
    k: int,
)
    requires
        builds(inputs, result, metadata, tool_params, r),
        is_first_failed(inputs, result, k),
    ensures
        r matches Err(e) && e@ == (ErrorView::Serialization {
            message: encoding_at(inputs, result, k).failure()->0,
        }),
{
    if r is Ok {
        assert(encoding_at(inputs, result, k).failure() is None);
    } else {
        let j = choose|j: int| #[trigger]
            is_first_failed(inputs, result, j) && r->Err_0@ == (ErrorView::Serialization {
                message: encoding_at(inputs, result, j).failure()->0,
            });
        if j < k {
            assert(encoding_at(inputs, result, j).failure() is None);
        }
        if k < j {
            assert(encoding_at(inputs, result, k).failure() is None);
        }
    }
}

/// Tags that are absent, or that end before an item, leave that item's row
/// with the empty map: the row is there all the same.
pub proof fn law_missing_tags_are_padded<F>(
    result: BatchModelInferenceWithMetadata<F>,
    metadata: BatchInferenceDatabaseInsertMetadata,
    tool_params: Option<Value>,
    texts: TextsView,
    i: int,
)
    requires
        0 <= i,
        metadata.tags matches Some(tags) ==> tags@.len() <= i,
    ensures
        row_model(result, metadata, tool_params, texts, i).tags == Map::<String, String>::empty(),
{
}

} // verus!
