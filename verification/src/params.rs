//! Per-field parameter overrides of a batch, and their expansion into one
//! parameter record per item.
//!
//! The scalar type of the real-valued knobs is a type parameter: the
//! expansion never looks into a value, it only moves it to its position.

use crate::broadcast::{check_field_len, entry_at, entry_of, field_fits};
use crate::error::{BatchError, ErrorView};
use crate::text::vector_length_message;
use vstd::prelude::*;

verus! {

/// Inference-time overrides of a batch, one optional array per knob.
#[derive(Clone, Debug, Default, PartialEq)]
pub struct BatchInferenceParams<F> {
    pub chat_completion: BatchChatCompletionInferenceParams<F>,
}

/// The chat-completion knobs of a batch. An array that is present holds one
/// entry per item of the batch; an absent array overrides nothing.
#[derive(Clone, Debug, Default, PartialEq)]
pub struct BatchChatCompletionInferenceParams<F> {
    pub temperature: Option<Vec<Option<F>>>,
    pub max_tokens: Option<Vec<Option<u32>>>,
    pub seed: Option<Vec<Option<u32>>>,
    pub top_p: Option<Vec<Option<F>>>,
    pub presence_penalty: Option<Vec<Option<F>>>,
    pub frequency_penalty: Option<Vec<Option<F>>>,
}

/// The inference parameters of one item.
#[derive(Clone, Copy, Debug, Default, PartialEq)]
pub struct InferenceParams<F> {
    pub chat_completion: ChatCompletionInferenceParams<F>,
}

/// The chat-completion knobs of one item.
#[derive(Clone, Copy, Debug, Default, PartialEq)]
pub struct ChatCompletionInferenceParams<F> {
    pub temperature: Option<F>,
    pub max_tokens: Option<u32>,
    pub seed: Option<u32>,
    pub top_p: Option<F>,
    pub presence_penalty: Option<F>,
    pub frequency_penalty: Option<F>,
}

/// Batch overrides together with the number of items in the batch.
pub struct BatchInferenceParamsWithSize<F>(pub BatchInferenceParams<F>, pub usize);

/// Chat-completion overrides together with the number of items in the batch.
pub struct BatchChatCompletionParamsWithSize<F>(
    pub BatchChatCompletionInferenceParams<F>,
    pub usize,
);

impl<F: Copy> BatchChatCompletionInferenceParams<F> {
    /// The first override array, in the order in which the fields are
    /// checked, whose length differs from `n`: its name and its length.
    pub open spec fn first_mismatch(self, n: nat) -> Option<(Seq<char>, nat)> {
        if !field_fits(self.temperature, n) {
            Some(("temperature"@, self.temperature->0@.len()))
        } else if !field_fits(self.max_tokens, n) {
            Some(("max_tokens"@, self.max_tokens->0@.len()))
        } else if !field_fits(self.seed, n) {
            Some(("seed"@, self.seed->0@.len()))
        } else if !field_fits(self.top_p, n) {
            Some(("top_p"@, self.top_p->0@.len()))
        } else if !field_fits(self.presence_penalty, n) {
            Some(("presence_penalty"@, self.presence_penalty->0@.len()))
        } else if !field_fits(self.frequency_penalty, n) {
            Some(("frequency_penalty"@, self.frequency_penalty->0@.len()))
        } else {
            None
        }
    }

    /// The parameter record of item `i`: each knob is the `i`-th entry of
    /// its array, or `None` where the array is absent.
    pub open spec fn item(self, i: int) -> ChatCompletionInferenceParams<F> {
        ChatCompletionInferenceParams {
            temperature: entry_at(self.temperature, i),
            max_tokens: entry_at(self.max_tokens, i),
            seed: entry_at(self.seed, i),
            top_p: entry_at(self.top_p, i),
            presence_penalty: entry_at(self.presence_penalty, i),
            frequency_penalty: entry_at(self.frequency_penalty, i),
        }
    }

    /// What expanding these overrides over a batch of `n` items gives: the
    /// `n` records, or the text of the error for the first array of the
    /// wrong length.
    pub open spec fn expansion(self, n: nat) -> Result<
        Seq<ChatCompletionInferenceParams<F>>,
        ErrorView,
    > {
        match self.first_mismatch(n) {
            Some((field, len)) => Err(
                ErrorView::InvalidRequest { message: vector_length_message(field, len, n) },
            ),
            None => Ok(Seq::new(n, |i: int| self.item(i))),
        }
    }

    /// Expands the overrides into one record per item of a batch of
    /// `num_inferences` items.
    ///
    /// The arrays are checked in the order temperature, max_tokens, seed,
    /// top_p, presence_penalty, frequency_penalty; the first one whose length
    /// is not `num_inferences` is reported and nothing else is looked at.
    pub fn expand(&self, num_inferences: usize) -> (r: Result<
        Vec<ChatCompletionInferenceParams<F>>,
        BatchError,
    >)
        ensures
            r is Ok <==> self.expansion(num_inferences as nat) is Ok,
            r matches Ok(v) ==> v@ == self.expansion(num_inferences as nat)->Ok_0,
            r matches Err(e) ==> e@ == self.expansion(num_inferences as nat)->Err_0,
    {
        // Every array that is present has one entry per item.
        check_field_len("temperature", &self.temperature, num_inferences)?;
        check_field_len("max_tokens", &self.max_tokens, num_inferences)?;
        check_field_len("seed", &self.seed, num_inferences)?;
        check_field_len("top_p", &self.top_p, num_inferences)?;
        check_field_len("presence_penalty", &self.presence_penalty, num_inferences)?;
        check_field_len("frequency_penalty", &self.frequency_penalty, num_inferences)?;

        let mut all_inference_params: Vec<ChatCompletionInferenceParams<F>> = Vec::with_capacity(
            num_inferences,
        );
        for i in 0..num_inferences
            invariant
                self.first_mismatch(num_inferences as nat) is None,
                all_inference_params@.len() == i,
                forall|j: int| 0 <= j < i ==> all_inference_params@[j] == self.item(j),
        {
            all_inference_params.push(
                ChatCompletionInferenceParams {
                    temperature: entry_of(&self.temperature, i),
                    max_tokens: entry_of(&self.max_tokens, i),
                    seed: entry_of(&self.seed, i),
                    top_p: entry_of(&self.top_p, i),
                    presence_penalty: entry_of(&self.presence_penalty, i),
                    frequency_penalty: entry_of(&self.frequency_penalty, i),
                },
            );
        }
        assert(all_inference_params@ =~= Seq::new(num_inferences as nat, |i: int| self.item(i)));
        Ok(all_inference_params)
    }
}

impl<F: Copy> TryFrom<BatchChatCompletionParamsWithSize<F>> for Vec<ChatCompletionInferenceParams<F>> {
    type Error = BatchError;

    /// Expands the overrides over a batch of the given size.
    fn try_from(sized: BatchChatCompletionParamsWithSize<F>) -> (r: Result<Self, BatchError>)
        ensures
            r is Ok <==> sized.0.expansion(sized.1 as nat) is Ok,
            r matches Ok(v) ==> v@ == sized.0.expansion(sized.1 as nat)->Ok_0,
            r matches Err(e) ==> e@ == sized.0.expansion(sized.1 as nat)->Err_0,
    {
        sized.0.expand(sized.1)
    }
}

/// The conversion is specified by the `ensures` of `try_from` above, over
/// views: the texts inside an error are compared by their characters.
impl<F: Copy> vstd::std_specs::convert::TryFromSpecImpl<BatchChatCompletionParamsWithSize<F>> for Vec<ChatCompletionInferenceParams<F>> {
    open spec fn obeys_try_from_spec() -> bool {
        false
    }

    open spec fn try_from_spec(sized: BatchChatCompletionParamsWithSize<F>) -> Result<Self, BatchError> {
        arbitrary()
    }
}

impl<F: Copy> BatchInferenceParams<F> {
    /// The parameter record of item `i`.
    pub open spec fn item(self, i: int) -> InferenceParams<F> {
        InferenceParams { chat_completion: self.chat_completion.item(i) }
    }

    /// What expanding these overrides over a batch of `n` items gives: the
    /// `n` records, or the error for the first array of the wrong length.
    pub open spec fn expansion(self, n: nat) -> Result<Seq<InferenceParams<F>>, ErrorView> {
        match self.chat_completion.expansion(n) {
            Ok(_) => Ok(Seq::new(n, |i: int| self.item(i))),
            Err(e) => Err(e),
        }
    }

    /// Expands the overrides into one record per item of a batch of
    /// `num_inferences` items.
    pub fn expand(&self, num_inferences: usize) -> (r: Result<Vec<InferenceParams<F>>, BatchError>)
        ensures
            r is Ok <==> self.expansion(num_inferences as nat) is Ok,
            r matches Ok(v) ==> v@ == self.expansion(num_inferences as nat)->Ok_0,
            r matches Err(e) ==> e@ == self.expansion(num_inferences as nat)->Err_0,
    {
        let chat_completion_params = self.chat_completion.expand(num_inferences)?;
        let mut all_inference_params: Vec<InferenceParams<F>> = Vec::with_capacity(num_inferences);
        for i in 0..num_inferences
            invariant
                chat_completion_params@ == self.chat_completion.expansion(
                    num_inferences as nat,
                )->Ok_0,
                self.chat_completion.expansion(num_inferences as nat) is Ok,
                all_inference_params@.len() == i,
                forall|j: int| 0 <= j < i ==> all_inference_params@[j] == self.item(j),
        {
            all_inference_params.push(
                InferenceParams { chat_completion: chat_completion_params[i] },
            );
        }
        assert(all_inference_params@ =~= Seq::new(num_inferences as nat, |i: int| self.item(i)));
        Ok(all_inference_params)
    }
}

impl<F: Copy> TryFrom<BatchInferenceParamsWithSize<F>> for Vec<InferenceParams<F>> {
    type Error = BatchError;

    /// Expands the overrides over a batch of the given size.
    fn try_from(sized: BatchInferenceParamsWithSize<F>) -> (r: Result<Self, BatchError>)
        ensures
            r is Ok <==> sized.0.expansion(sized.1 as nat) is Ok,
            r matches Ok(v) ==> v@ == sized.0.expansion(sized.1 as nat)->Ok_0,
            r matches Err(e) ==> e@ == sized.0.expansion(sized.1 as nat)->Err_0,
    {
        sized.0.expand(sized.1)
    }
}

/// The conversion is specified by the `ensures` of `try_from` above, over
/// views: the texts inside an error are compared by their characters.
impl<F: Copy> vstd::std_specs::convert::TryFromSpecImpl<BatchInferenceParamsWithSize<F>> for Vec<InferenceParams<F>> {
    open spec fn obeys_try_from_spec() -> bool {
        false
    }

    open spec fn try_from_spec(sized: BatchInferenceParamsWithSize<F>) -> Result<Self, BatchError> {
        arbitrary()
    }
}

/// Every override array that fits the batch is expanded position by
/// position: there are `n` records, and in the `i`-th each knob holds the
/// `i`-th entry of its array, or nothing where the array is absent.
pub proof fn law_expansion_is_positional<F: Copy>(batch: BatchInferenceParams<F>, n: nat)
    requires
        field_fits(batch.chat_completion.temperature, n),
        field_fits(batch.chat_completion.max_tokens, n),
        field_fits(batch.chat_completion.seed, n),
        field_fits(batch.chat_completion.top_p, n),
        field_fits(batch.chat_completion.presence_penalty, n),
        field_fits(batch.chat_completion.frequency_penalty, n),
    ensures
        batch.expansion(n) is Ok,
        batch.expansion(n)->Ok_0.len() == n,
        forall|i: int|
            0 <= i < n ==> {
                let item = (#[trigger] batch.expansion(n)->Ok_0[i]).chat_completion;
                &&& item.temperature == entry_at(batch.chat_completion.temperature, i)
                &&& item.max_tokens == entry_at(batch.chat_completion.max_tokens, i)
                &&& item.seed == entry_at(batch.chat_completion.seed, i)
                &&& item.top_p == entry_at(batch.chat_completion.top_p, i)
                &&& item.presence_penalty == entry_at(batch.chat_completion.presence_penalty, i)
                &&& item.frequency_penalty == entry_at(batch.chat_completion.frequency_penalty, i)
            },
{
}

/// An override array of the wrong length fails the expansion: the error
/// names the first such array in the order of the check, its length and the
/// batch size.
pub proof fn law_mismatch_is_reported<F: Copy>(
    batch: BatchInferenceParams<F>,
    n: nat,
    field: Seq<char>,
    len: nat,
)
    requires
        batch.chat_completion.first_mismatch(n) == Some((field, len)),
    ensures
        batch.expansion(n) == Err::<Seq<InferenceParams<F>>, ErrorView>(
            ErrorView::InvalidRequest { message: vector_length_message(field, len, n) },
        ),
        len != n,
{
}

} // verus!
