//! Dynamic tool-calling overrides of a batch, and their expansion into one
//! set of overrides per item.
//!
//! What a tool or a tool choice says is of no concern here: both are
//! structured payloads that are moved to their position unchanged.

use crate::broadcast::{check_field_len, entry_at, field_fits, take_entry};
use crate::error::{BatchError, ErrorView};
use crate::text::vector_length_message;
use serde_json::Value;
use vstd::prelude::*;

verus! {

/// The dynamic tool-calling overrides of a batch, one optional array per
/// field. An array that is present holds one entry per item of the batch.
#[derive(Debug, Default, PartialEq)]
pub struct BatchDynamicToolParams {
    /// Restricts an item to these tools of the function.
    pub allowed_tools: Option<Vec<Option<Vec<String>>>>,
    /// Tools that an item may use besides those of the function.
    pub additional_tools: Option<Vec<Option<Vec<Value>>>>,
    /// How an item chooses among its tools.
    pub tool_choice: Option<Vec<Option<Value>>>,
    /// Whether an item may call tools in parallel.
    pub parallel_tool_calls: Option<Vec<Option<bool>>>,
}

/// The dynamic tool-calling overrides of one item.
#[derive(Debug, Default, PartialEq)]
pub struct DynamicToolParams {
    pub allowed_tools: Option<Vec<String>>,
    pub additional_tools: Option<Vec<Value>>,
    pub tool_choice: Option<Value>,
    pub parallel_tool_calls: Option<bool>,
}

/// Batch overrides together with the number of items in the batch.
pub struct BatchDynamicToolParamsWithSize(pub BatchDynamicToolParams, pub usize);

impl BatchDynamicToolParams {
    /// The first override array, in the order in which the fields are
    /// checked, whose length differs from `n`: its name and its length.
    pub open spec fn first_mismatch(self, n: nat) -> Option<(Seq<char>, nat)> {
        if !field_fits(self.allowed_tools, n) {
            Some(("allowed_tools"@, self.allowed_tools->0@.len()))
        } else if !field_fits(self.additional_tools, n) {
            Some(("additional_tools"@, self.additional_tools->0@.len()))
        } else if !field_fits(self.tool_choice, n) {
            Some(("tool_choice"@, self.tool_choice->0@.len()))
        } else if !field_fits(self.parallel_tool_calls, n) {
            Some(("parallel_tool_calls"@, self.parallel_tool_calls->0@.len()))
        } else {
            None
        }
    }

    /// The overrides of item `i`: each field is the `i`-th entry of its
    /// array, or `None` where the array is absent.
    pub open spec fn item(self, i: int) -> DynamicToolParams {
        DynamicToolParams {
            allowed_tools: entry_at(self.allowed_tools, i),
            additional_tools: entry_at(self.additional_tools, i),
            tool_choice: entry_at(self.tool_choice, i),
            parallel_tool_calls: entry_at(self.parallel_tool_calls, i),
        }
    }

    /// What expanding these overrides over a batch of `n` items gives: the
    /// `n` sets of overrides, or the error for the first array of the wrong
    /// length.
    pub open spec fn expansion(self, n: nat) -> Result<Seq<DynamicToolParams>, ErrorView> {
        match self.first_mismatch(n) {
            Some((field, len)) => Err(
                ErrorView::InvalidRequest { message: vector_length_message(field, len, n) },
            ),
            None => Ok(Seq::new(n, |i: int| self.item(i))),
        }
    }

    /// Expands the overrides into one set per item of a batch of
    /// `num_inferences` items.
    ///
    /// The arrays are checked in the order allowed_tools, additional_tools,
    /// tool_choice, parallel_tool_calls; the first one whose length is not
    /// `num_inferences` is reported and nothing else is looked at.
    pub fn expand(self, num_inferences: usize) -> (r: Result<Vec<DynamicToolParams>, BatchError>)
        ensures
            r is Ok <==> self.expansion(num_inferences as nat) is Ok,
            r matches Ok(v) ==> v@ == self.expansion(num_inferences as nat)->Ok_0,
            r matches Err(e) ==> e@ == self.expansion(num_inferences as nat)->Err_0,
    {
        check_field_len("allowed_tools", &self.allowed_tools, num_inferences)?;
        check_field_len("additional_tools", &self.additional_tools, num_inferences)?;
        check_field_len("tool_choice", &self.tool_choice, num_inferences)?;
        check_field_len("parallel_tool_calls", &self.parallel_tool_calls, num_inferences)?;

        let BatchDynamicToolParams {
            mut allowed_tools,
            mut additional_tools,
            mut tool_choice,
            mut parallel_tool_calls,
        } = self;
        let mut all_dynamic_tool_params: Vec<DynamicToolParams> = Vec::with_capacity(
            num_inferences,
        );
        for i in 0..num_inferences
            invariant
                self.first_mismatch(num_inferences as nat) is None,
                all_dynamic_tool_params@.len() == i,
                forall|j: int| 0 <= j < i ==> all_dynamic_tool_params@[j] == self.item(j),
                untouched_from(self.allowed_tools, allowed_tools, i as int),
                untouched_from(self.additional_tools, additional_tools, i as int),
                untouched_from(self.tool_choice, tool_choice, i as int),
                untouched_from(self.parallel_tool_calls, parallel_tool_calls, i as int),
        {
            all_dynamic_tool_params.push(
                DynamicToolParams {
                    allowed_tools: take_entry(&mut allowed_tools, i),
                    additional_tools: take_entry(&mut additional_tools, i),
                    tool_choice: take_entry(&mut tool_choice, i),
                    parallel_tool_calls: take_entry(&mut parallel_tool_calls, i),
                },
            );
        }
        assert(all_dynamic_tool_params@ =~= Seq::new(
            num_inferences as nat,
            |i: int| self.item(i),
        ));
        Ok(all_dynamic_tool_params)
    }
}

/// `current` is `whole` after the entries before position `i` have been
/// moved out: the entries from `i` on are still those of `whole`.
pub open spec fn untouched_from<T>(
    whole: Option<Vec<Option<T>>>,
    current: Option<Vec<Option<T>>>,
    i: int,
) -> bool {
    match whole {
        None => current is None,
        Some(v) => current matches Some(w) && w@.len() == v@.len() && forall|k: int|
            i <= k < v@.len() ==> w@[k] == v@[k],
    }
}

impl TryFrom<BatchDynamicToolParamsWithSize> for Vec<DynamicToolParams> {
    type Error = BatchError;

    /// Expands the overrides over a batch of the given size.
    fn try_from(sized: BatchDynamicToolParamsWithSize) -> (r: Result<Self, BatchError>)
        ensures
            r is Ok <==> sized.0.expansion(sized.1 as nat) is Ok,
            r matches Ok(v) ==> v@ == sized.0.expansion(sized.1 as nat)->Ok_0,
            r matches Err(e) ==> e@ == sized.0.expansion(sized.1 as nat)->Err_0,
    {
        sized.0.expand(sized.1)
    }
}

/// The conversion is specified by the `ensures` of `try_from` above, over
/// views: the texts inside an error are compared by their characters.
impl vstd::std_specs::convert::TryFromSpecImpl<BatchDynamicToolParamsWithSize> for Vec<DynamicToolParams> {
    open spec fn obeys_try_from_spec() -> bool {
        false
    }

    open spec fn try_from_spec(sized: BatchDynamicToolParamsWithSize) -> Result<Self, BatchError> {
        arbitrary()
    }
}

} // verus!
