//! Choosing the variant that serves a batch, with fallback.
//!
//! One variant serves the whole batch. The selector is a small state
//! machine: it picks a candidate, waits for the outcome of the attempt, and
//! on failure records the error and picks among the candidates that are
//! left, until one succeeds or none is left. Performing an attempt and
//! persisting its result are the caller's part: [`VariantSelector::step`]
//! takes what happened and says what to do next.

use crate::error::{BatchError, ErrorDetails, ErrorView, FailureView, VariantFailure};
use crate::identifier::Identifier;
use crate::params::InferenceParams;
use crate::text::text_of;
use vstd::prelude::*;
use vstd::string::*;

verus! {

/// Where the selector stands.
#[derive(Debug, PartialEq)]
pub enum SelectorState {
    /// A variant is to be picked among the candidates.
    Selecting,
    /// The named variant has been handed the batch.
    Attempting { variant_name: String },
    /// A variant has accepted the batch.
    Succeeded,
    /// Every candidate has failed.
    Exhausted,
}

/// The selector of one batch request.
#[derive(Debug, PartialEq)]
pub struct VariantSelector<F> {
    pub state: SelectorState,
    /// The variants that have not been tried, in the function's order.
    pub candidates: Vec<String>,
    /// The failed attempts, in the order in which they failed.
    pub failures: Vec<VariantFailure>,
    /// The episode identifier of the first item: the key of the sampling.
    pub key: Identifier,
    /// The inference parameters of the items. Every attempt gets a copy.
    pub inference_params: Vec<InferenceParams<F>>,
}

/// What the caller reports to the selector.
#[derive(Debug, PartialEq)]
pub enum SelectorEvent<R> {
    /// Nothing happened outside; the selector is to go on.
    Resume,
    /// The variant under attempt has accepted the batch and returned `R`.
    AttemptSucceeded(R),
    /// The variant under attempt has failed.
    AttemptFailed(BatchError),
}

/// What the selector asks of the caller.
#[derive(Debug, PartialEq)]
pub enum SelectorAction<F, R> {
    /// Hand the whole batch to this variant, with this copy of the
    /// inference parameters, and report the outcome.
    Attempt { variant_name: String, inference_params: Vec<InferenceParams<F>> },
    /// Persist what this variant returned; the request has succeeded.
    Persist { variant_name: String, result: R },
    /// Fail the request with this error.
    Fail(BatchError),
    /// Nothing to do outside; report `Resume`.
    Continue,
    /// The event does not apply in the selector's state; nothing changed.
    Ignored,
}

/// The model of [`SelectorState`].
pub enum StateView {
    Selecting,
    Attempting { variant_name: Seq<char> },
    Succeeded,
    Exhausted,
}

/// The model of [`VariantSelector`].
pub struct SelectorView<F> {
    pub state: StateView,
    pub candidates: Seq<Seq<char>>,
    pub failures: Seq<FailureView>,
    pub key: u128,
    pub inference_params: Seq<InferenceParams<F>>,
}

/// The model of [`SelectorEvent`].
pub enum EventView<R> {
    Resume,
    AttemptSucceeded(R),
    AttemptFailed(ErrorView),
}

/// The model of [`SelectorAction`].
pub enum ActionView<F, R> {
    Attempt { variant_name: Seq<char>, inference_params: Seq<InferenceParams<F>> },
    Persist { variant_name: Seq<char>, result: R },
    Fail(ErrorView),
    Continue,
    Ignored,
}

/// The names in `names`, as texts.
pub open spec fn names_model(names: Seq<String>) -> Seq<Seq<char>> {
    Seq::new(names.len(), |i: int| names[i]@)
}

/// The failures in `failures`, as models.
pub open spec fn failures_model(failures: Seq<VariantFailure>) -> Seq<FailureView> {
    Seq::new(
        failures.len(),
        |i: int| FailureView { variant_name: failures[i].variant_name@, error: failures[i].error@ },
    )
}

impl View for SelectorState {
    type V = StateView;

    open spec fn view(&self) -> StateView {
        match self {
            SelectorState::Selecting => StateView::Selecting,
            SelectorState::Attempting { variant_name } => StateView::Attempting {
                variant_name: variant_name@,
            },
            SelectorState::Succeeded => StateView::Succeeded,
            SelectorState::Exhausted => StateView::Exhausted,
        }
    }
}

impl<F> View for VariantSelector<F> {
    type V = SelectorView<F>;

    open spec fn view(&self) -> SelectorView<F> {
        SelectorView {
            state: self.state@,
            candidates: names_model(self.candidates@),
            failures: failures_model(self.failures@),
            key: self.key.bits,
            inference_params: self.inference_params@,
        }
    }
}

impl<R> View for SelectorEvent<R> {
    type V = EventView<R>;

    open spec fn view(&self) -> EventView<R> {
        match self {
            SelectorEvent::Resume => EventView::Resume,
            SelectorEvent::AttemptSucceeded(result) => EventView::AttemptSucceeded(*result),
            SelectorEvent::AttemptFailed(error) => EventView::AttemptFailed(error@),
        }
    }
}

impl<F, R> View for SelectorAction<F, R> {
    type V = ActionView<F, R>;

    open spec fn view(&self) -> ActionView<F, R> {
        match self {
            SelectorAction::Attempt { variant_name, inference_params } => ActionView::Attempt {
                variant_name: variant_name@,
                inference_params: inference_params@,
            },
            SelectorAction::Persist { variant_name, result } => ActionView::Persist {
                variant_name: variant_name@,
                result: *result,
            },
            SelectorAction::Fail(error) => ActionView::Fail(error@),
            SelectorAction::Continue => ActionView::Continue,
            SelectorAction::Ignored => ActionView::Ignored,
        }
    }
}

/// The position, among `len` candidates, of the variant that is sampled
/// under the key `key`. It depends on nothing else: the same key and the
/// same candidates give the same variant.
pub open spec fn pick_index(key: u128, len: nat) -> int {
    (key as int) % (len as int)
}

/// Whether `failures` holds a failure of the variant `name`.
pub open spec fn has_failed(failures: Seq<FailureView>, name: Seq<char>) -> bool {
    exists|i: int| 0 <= i < failures.len() && (#[trigger] failures[i]).variant_name == name
}

/// The failures after the failure of `name` with `error` has been recorded:
/// one more entry at the end, unless `name` has an entry already, which
/// then stays as it is.
pub open spec fn recorded(failures: Seq<FailureView>, name: Seq<char>, error: ErrorView) -> Seq<
    FailureView,
> {
    if has_failed(failures, name) {
        failures
    } else {
        failures.push(FailureView { variant_name: name, error })
    }
}

/// One transition of the selector: from a state and an event to the next
/// state and the action asked of the caller.
pub open spec fn step_model<F, R>(s: SelectorView<F>, event: EventView<R>) -> (
    SelectorView<F>,
    ActionView<F, R>,
) {
    match (s.state, event) {
        (StateView::Selecting, EventView::Resume) => {
            if s.candidates.len() == 0 {
                (
                    SelectorView { state: StateView::Exhausted, failures: Seq::empty(), ..s },
                    ActionView::Fail(ErrorView::AllVariantsFailed { errors: s.failures }),
                )
            } else {
                let k = pick_index(s.key, s.candidates.len());
                (
                    SelectorView {
                        state: StateView::Attempting { variant_name: s.candidates[k] },
                        candidates: s.candidates.remove(k),
                        ..s
                    },
                    ActionView::Attempt {
                        variant_name: s.candidates[k],
                        inference_params: s.inference_params,
                    },
                )
            }
        },
        (StateView::Attempting { variant_name }, EventView::AttemptSucceeded(result)) => (
            SelectorView { state: StateView::Succeeded, ..s },
            ActionView::Persist { variant_name, result },
        ),
        (StateView::Attempting { variant_name }, EventView::AttemptFailed(error)) => (
            SelectorView {
                state: StateView::Selecting,
                failures: recorded(s.failures, variant_name, error),
                ..s
            },
            ActionView::Continue,
        ),
        _ => (s, ActionView::Ignored),
    }
}

/// The text that reports a function without variants.
pub open spec fn no_variants_message(function_name: Seq<char>) -> Seq<char> {
    "Function `"@ + function_name + "` has no variants"@
}

/// Checks that the function has a variant to serve the batch.
pub fn require_variants(function_name: &str, variants: &Vec<String>) -> (r: Result<(), BatchError>)
    ensures
        r is Ok <==> variants@.len() > 0,
        r matches Err(e) ==> e@ == (ErrorView::InvalidFunctionVariants {
            message: no_variants_message(function_name@),
        }),
{
    if variants.len() == 0 {
        let mut message = "Function `".to_owned();
        message.append(function_name);
        message.append("` has no variants");
        Err(BatchError::new(ErrorDetails::InvalidFunctionVariants { message }))
    } else {
        Ok(())
    }
}

/// The entries of `names` that are `name`, in their order.
pub open spec fn only(names: Seq<Seq<char>>, name: Seq<char>) -> Seq<Seq<char>>
    decreases names.len(),
{
    if names.len() == 0 {
        names
    } else if names.last() == name {
        only(names.drop_last(), name).push(name)
    } else {
        only(names.drop_last(), name)
    }
}

/// The candidates of a request that pins `pinned`: without a pin, all of
/// them; with a pin, those of that name, and an error where there is none.
pub open spec fn pinned_candidates(candidates: Seq<Seq<char>>, pinned: Option<Seq<char>>) -> Result<
    Seq<Seq<char>>,
    ErrorView,
> {
    match pinned {
        None => Ok(candidates),
        Some(name) => if candidates.contains(name) {
            Ok(only(candidates, name))
        } else {
            Err(ErrorView::UnknownVariant { name })
        },
    }
}

/// Restricts the candidates to the pinned variant, if one is pinned:
/// [`pinned_candidates`].
pub fn restrict_to_pinned(candidates: Vec<String>, pinned: &Option<String>) -> (r: Result<
    Vec<String>,
    BatchError,
>)
    ensures
        r is Ok <==> pinned_candidates(names_model(candidates@), text_of(*pinned)) is Ok,
        r matches Ok(kept) ==> names_model(kept@) == pinned_candidates(
            names_model(candidates@),
            text_of(*pinned),
        )->Ok_0,
        r matches Err(e) ==> e@ == pinned_candidates(
            names_model(candidates@),
            text_of(*pinned),
        )->Err_0,
{
    match pinned {
        None => Ok(candidates),
        Some(name) => {
            let ghost names = names_model(candidates@);
            let mut kept: Vec<String> = Vec::new();
            for i in 0..candidates.len()
                invariant
                    names == names_model(candidates@),
                    names_model(kept@) == only(names.take(i as int), name@),
                    kept@.len() > 0 <==> names.take(i as int).contains(name@),
            {
                proof {
                    let before = names.take(i as int);
                    let after = names.take(i + 1);
                    assert(after.drop_last() =~= before);
                    assert(after.last() == names[i as int]);
                    if before.contains(name@) {
                        let j = choose|j: int| 0 <= j < before.len() && before[j] == name@;
                        assert(after[j] == name@);
                    }
                    if after.contains(name@) && names[i as int] != name@ {
                        let j = choose|j: int| 0 <= j < after.len() && after[j] == name@;
                        assert(before[j] == name@);
                    }
                }
                if candidates[i] == *name {
                    kept.push(candidates[i].clone());
                    assert(names_model(kept@) =~= only(names.take(i as int), name@).push(
                        names[i as int],
                    ));
                    assert(names.take(i + 1)[i as int] == name@);
                }
            }
            assert(names.take(candidates@.len() as int) =~= names);
            if kept.len() == 0 {
                Err(BatchError::new(ErrorDetails::UnknownVariant { name: name.clone() }))
            } else {
                Ok(kept)
            }
        },
    }
}

/// A pin on a name that is not among the candidates is refused: no
/// candidate is left to attempt.
pub proof fn law_unknown_pin_is_refused(candidates: Seq<Seq<char>>, name: Seq<char>)
    requires
        !candidates.contains(name),
    ensures
        pinned_candidates(candidates, Some(name)) == Err::<Seq<Seq<char>>, ErrorView>(
            ErrorView::UnknownVariant { name },
        ),
{
}

/// A pin on one of several distinct candidates leaves exactly that one.
pub proof fn law_pin_leaves_one_candidate(candidates: Seq<Seq<char>>, name: Seq<char>)
    requires
        candidates.no_duplicates(),
        candidates.contains(name),
    ensures
        pinned_candidates(candidates, Some(name)) == Ok::<Seq<Seq<char>>, ErrorView>(seq![name]),
{
    lemma_only_distinct(candidates, name);
}

/// Among distinct names, those equal to `name` are `name` alone, or none.
proof fn lemma_only_distinct(names: Seq<Seq<char>>, name: Seq<char>)
    requires
        names.no_duplicates(),
    ensures
        only(names, name) == if names.contains(name) {
            seq![name]
        } else {
            Seq::<Seq<char>>::empty()
        },
    decreases names.len(),
{
    if names.len() > 0 {
        let rest = names.drop_last();
        lemma_only_distinct(rest, name);
        if rest.contains(name) {
            let j = choose|j: int| 0 <= j < rest.len() && rest[j] == name;
            assert(names[j] == name);
            assert(names.last() != name);
            assert(names.contains(name));
        } else if names.last() == name {
            assert(names[names.len() - 1] == name);
            assert(only(rest, name).push(name) =~= seq![name]);
        } else {
            if names.contains(name) {
                let j = choose|j: int| 0 <= j < names.len() && names[j] == name;
                assert(rest[j] == name);
            }
        }
    }
}

/// Copies the inference parameters of a batch.
fn copy_params<F: Copy>(params: &Vec<InferenceParams<F>>) -> (copy: Vec<InferenceParams<F>>)
    ensures
        copy@ == params@,
{
    let mut copy: Vec<InferenceParams<F>> = Vec::with_capacity(params.len());
    for i in 0..params.len()
        invariant
            copy@ == params@.take(i as int),
    {
        copy.push(params[i]);
        assert(params@.take(i + 1) =~= params@.take(i as int).push(params@[i as int]));
    }
    assert(params@.take(params@.len() as int) =~= params@);
    copy
}

/// Looks for a failure of the variant `name`.
fn find_failure(failures: &Vec<VariantFailure>, name: &String) -> (found: bool)
    ensures
        found == has_failed(failures_model(failures@), name@),
{
    for i in 0..failures.len()
        invariant
            forall|j: int| 0 <= j < i ==> failures@[j].variant_name@ != name@,
    {
        if failures[i].variant_name == *name {
            assert(failures_model(failures@)[i as int].variant_name == name@);
            return true;
        }
    }
    false
}

/// Samples a variant among the candidates under the key `episode_id` and
/// takes it out of them: the candidate at [`pick_index`]. The candidates
/// that are left keep their order. Without candidates there is nothing to
/// sample.
pub fn sample_variant(candidates: &mut Vec<String>, episode_id: Identifier) -> (sampled: Option<
    String,
>)
    ensures
        old(candidates)@.len() == 0 ==> sampled is None && final(candidates)@ == old(candidates)@,
        old(candidates)@.len() > 0 ==> {
            let names = names_model(old(candidates)@);
            let k = pick_index(episode_id.bits, names.len());
            &&& 0 <= k < names.len()
            &&& sampled matches Some(name) && name@ == names[k]
            &&& names_model(final(candidates)@) == names.remove(k)
        },
{
    let len = candidates.len();
    if len == 0 {
        return None;
    }
    let k = (episode_id.bits % (len as u128)) as usize;
    let name = candidates.remove(k);
    assert(names_model(candidates@) =~= names_model(old(candidates)@).remove(k as int));
    Some(name)
}

impl<F: Copy> VariantSelector<F> {
    /// A selector that is about to pick among `candidates`. The key of the
    /// sampling is the episode identifier of the first item of the batch.
    pub fn new(
        candidates: Vec<String>,
        key: Identifier,
        inference_params: Vec<InferenceParams<F>>,
    ) -> (selector: Self)
        ensures
            selector@ == (SelectorView {
                state: StateView::Selecting,
                candidates: names_model(candidates@),
                failures: Seq::empty(),
                key: key.bits,
                inference_params: inference_params@,
            }),
    {
        let selector = VariantSelector {
            state: SelectorState::Selecting,
            candidates,
            failures: Vec::new(),
            key,
            inference_params,
        };
        assert(failures_model(selector.failures@) =~= Seq::empty());
        selector
    }

    /// Takes what happened outside, moves to the next state and says what
    /// to do: exactly [`step_model`].
    pub fn step<R>(&mut self, event: SelectorEvent<R>) -> (action: SelectorAction<F, R>)
        ensures
            (final(self)@, action@) == step_model(old(self)@, event@),
    {
        let mut state = SelectorState::Selecting;
        core::mem::swap(&mut self.state, &mut state);
        match (state, event) {
            (SelectorState::Selecting, SelectorEvent::Resume) => {
                match sample_variant(&mut self.candidates, self.key) {
                    None => {
                        let mut errors: Vec<VariantFailure> = Vec::new();
                        core::mem::swap(&mut self.failures, &mut errors);
                        self.state = SelectorState::Exhausted;
                        let error = BatchError::new(ErrorDetails::AllVariantsFailed { errors });
                        assert(error@ == ErrorView::AllVariantsFailed {
                            errors: failures_model(errors@),
                        }) by {
                            assert(error@->errors =~= failures_model(errors@));
                        }
                        assert(failures_model(self.failures@) =~= Seq::empty());
                        SelectorAction::Fail(error)
                    },
                    Some(variant_name) => {
                        let inference_params = copy_params(&self.inference_params);
                        self.state = SelectorState::Attempting {
                            variant_name: variant_name.clone(),
                        };
                        SelectorAction::Attempt { variant_name, inference_params }
                    },
                }
            },
            (SelectorState::Attempting { variant_name }, SelectorEvent::AttemptSucceeded(result)) => {
                self.state = SelectorState::Succeeded;
                SelectorAction::Persist { variant_name, result }
            },
            (SelectorState::Attempting { variant_name }, SelectorEvent::AttemptFailed(error)) => {
                if !find_failure(&self.failures, &variant_name) {
                    self.failures.push(VariantFailure { variant_name, error });
                    assert(failures_model(self.failures@) =~= failures_model(
                        old(self).failures@,
                    ).push(FailureView { variant_name: variant_name@, error: error@ }));
                }
                SelectorAction::Continue
            },
            (state, _) => {
                self.state = state;
                SelectorAction::Ignored
            },
        }
    }
}

/// No two of the recorded failures are of one name.
pub open spec fn failures_distinct(failures: Seq<FailureView>) -> bool {
    forall|i: int, j: int|
        0 <= i < j < failures.len() ==> (#[trigger] failures[i]).variant_name != (
        #[trigger] failures[j]).variant_name
}

/// No transition records a second failure under a name that has one.
pub proof fn law_failures_stay_distinct<F, R>(s: SelectorView<F>, event: EventView<R>)
    requires
        failures_distinct(s.failures),
    ensures
        failures_distinct(step_model(s, event).0.failures),
{
    let next = step_model(s, event).0;
    if s.state is Attempting && event is AttemptFailed {
        let name = s.state->variant_name;
        if !has_failed(s.failures, name) {
            assert forall|i: int, j: int| 0 <= i < j < next.failures.len() implies (
            #[trigger] next.failures[i]).variant_name != (
            #[trigger] next.failures[j]).variant_name by {
                if j == s.failures.len() {
                    assert(s.failures[i].variant_name != name);
                } else {
                    assert(s.failures[i].variant_name != s.failures[j].variant_name);
                }
            }
        }
    }
}

/// The candidates only shrink. A transition that asks for an attempt takes
/// exactly one candidate away, the one it names; among distinct candidates
/// that name is then no candidate any more. Every other transition leaves
/// the candidates as they are. So a selector asks for at most as many
/// attempts as it has candidates.
pub proof fn law_candidates_shrink<F, R>(s: SelectorView<F>, event: EventView<R>)
    ensures
        ({
            let (next, action) = step_model(s, event);
            &&& action is Attempt ==> {
                &&& next.candidates.len() + 1 == s.candidates.len()
                &&& s.candidates.contains(action->Attempt_variant_name)
                &&& next.state == StateView::Attempting {
                    variant_name: action->Attempt_variant_name,
                }
                &&& s.candidates.no_duplicates() ==> next.candidates.no_duplicates()
                    && !next.candidates.contains(action->Attempt_variant_name)
            }
            &&& !(action is Attempt) ==> next.candidates == s.candidates
        }),
{
    let (next, action) = step_model(s, event);
    if action is Attempt {
        let k = pick_index(s.key, s.candidates.len());
        assert(s.candidates[k] == action->Attempt_variant_name);
        if s.candidates.no_duplicates() {
            lemma_remove_distinct(s.candidates, k);
        }
    }
}

/// The selector after `errors.len()` rounds, in each of which a variant is
/// picked, attempted, and fails with the next of `errors`.
pub open spec fn after_failures<F>(s: SelectorView<F>, errors: Seq<ErrorView>) -> SelectorView<F>
    decreases errors.len(),
{
    if errors.len() == 0 {
        s
    } else {
        let before = after_failures(s, errors.drop_last());
        let picked = step_model::<F, ()>(before, EventView::Resume).0;
        step_model::<F, ()>(picked, EventView::AttemptFailed(errors.last())).0
    }
}

/// What holds of a selector `t` that started as `s` and has seen one failed
/// attempt for each of `errors`: every name of `s` is either still a
/// candidate or has failed, never both, and never twice.
pub open spec fn tried_so_far<F>(
    s: SelectorView<F>,
    t: SelectorView<F>,
    errors: Seq<ErrorView>,
) -> bool {
    &&& t.state is Selecting
    &&& t.key == s.key
    &&& t.inference_params == s.inference_params
    &&& t.candidates.no_duplicates()
    &&& t.failures.len() == errors.len()
    &&& t.candidates.len() + t.failures.len() == s.candidates.len()
    &&& forall|i: int| 0 <= i < errors.len() ==> (#[trigger] t.failures[i]).error == errors[i]
    &&& forall|i: int, j: int|
        0 <= i < j < t.failures.len() ==> (#[trigger] t.failures[i]).variant_name != (
        #[trigger] t.failures[j]).variant_name
    &&& forall|name: Seq<char>| #[trigger]
        s.candidates.contains(name) <==> (t.candidates.contains(name) || has_failed(
            t.failures,
            name,
        ))
    &&& forall|name: Seq<char>|
        !(#[trigger] t.candidates.contains(name) && has_failed(t.failures, name))
}

/// Removing one of several distinct names: that name is gone, every other
/// name stays, and the names are still distinct.
proof fn lemma_remove_distinct(names: Seq<Seq<char>>, k: int)
    requires
        names.no_duplicates(),
        0 <= k < names.len(),
    ensures
        names.remove(k).no_duplicates(),
        !names.remove(k).contains(names[k]),
        forall|name: Seq<char>| #[trigger]
            names.contains(name) <==> (name == names[k] || names.remove(k).contains(name)),
{
    let rest = names.remove(k);
    assert forall|i: int| 0 <= i < rest.len() implies #[trigger] rest[i] == names[if i < k {
        i
    } else {
        i + 1
    }] by {}
    assert forall|name: Seq<char>| #[trigger]
        names.contains(name) <==> (name == names[k] || rest.contains(name)) by {
        if names.contains(name) && name != names[k] {
            let i = choose|i: int| 0 <= i < names.len() && names[i] == name;
            if i < k {
                assert(rest[i] == name);
            } else {
                assert(rest[i - 1] == name);
            }
        }
        if rest.contains(name) {
            let i = choose|i: int| 0 <= i < rest.len() && rest[i] == name;
            assert(names[if i < k {
                i
            } else {
                i + 1
            }] == name);
        }
    }
}

/// One round of the fallback loop from a selector that has candidates left:
/// the pick asks for an attempt of one candidate on the batch's own
/// parameters, and the failure of that attempt is recorded as a new entry.
pub proof fn lemma_fallback_round<F>(
    s: SelectorView<F>,
    t: SelectorView<F>,
    errors: Seq<ErrorView>,
    error: ErrorView,
)
    requires
        tried_so_far(s, t, errors),
        t.candidates.len() > 0,
    ensures
        ({
            let name = t.candidates[pick_index(t.key, t.candidates.len())];
            let (picked, action) = step_model::<F, ()>(t, EventView::Resume);
            let (next, then) = step_model::<F, ()>(picked, EventView::AttemptFailed(error));
            &&& t.candidates.contains(name)
            &&& action == ActionView::<F, ()>::Attempt {
                variant_name: name,
                inference_params: s.inference_params,
            }
            &&& then == ActionView::<F, ()>::Continue
            &&& next.failures == t.failures.push(FailureView { variant_name: name, error })
            &&& tried_so_far(s, next, errors.push(error))
        }),
{
    let k = pick_index(t.key, t.candidates.len());
    let name = t.candidates[k];
    let (picked, action) = step_model::<F, ()>(t, EventView::Resume);
    let (next, then) = step_model::<F, ()>(picked, EventView::AttemptFailed(error));
    lemma_remove_distinct(t.candidates, k);
    assert(t.candidates.contains(name));
    assert(!has_failed(t.failures, name));
    let entry = FailureView { variant_name: name, error };
    assert(next.failures == t.failures.push(entry));
    assert forall|other: Seq<char>|
        has_failed(next.failures, other) <==> (other == name || has_failed(
            t.failures,
            other,
        )) by {
        if has_failed(t.failures, other) {
            let i = choose|i: int|
                0 <= i < t.failures.len() && (#[trigger] t.failures[i]).variant_name == other;
            assert(next.failures[i].variant_name == other);
        }
        if other == name {
            assert(next.failures[t.failures.len() as int].variant_name == other);
        }
        if has_failed(next.failures, other) {
            let i = choose|i: int|
                0 <= i < next.failures.len() && (#[trigger] next.failures[i]).variant_name
                    == other;
            if i < t.failures.len() {
                assert(t.failures[i].variant_name == other);
            }
        }
    }
    assert forall|other: Seq<char>| #[trigger]
        next.candidates.contains(other) implies !has_failed(next.failures, other) by {
        assert(t.candidates.contains(other));
        assert(!(t.candidates.contains(other) && has_failed(t.failures, other)));
    }
    assert forall|i: int, j: int| 0 <= i < j < next.failures.len() implies (
    #[trigger] next.failures[i]).variant_name != (#[trigger] next.failures[j]).variant_name by {
        if j == t.failures.len() {
            assert(t.failures[i].variant_name != name);
        } else {
            assert(t.failures[i].variant_name != t.failures[j].variant_name);
        }
    }
    assert forall|i: int| 0 <= i < errors.push(error).len() implies (
    #[trigger] next.failures[i]).error == errors.push(error)[i] by {
        if i < errors.len() {
            assert(t.failures[i].error == errors[i]);
        }
    }
}

/// Fallback tries every candidate exactly once.
///
/// Take a selector that is about to pick among K distinct candidates and has
/// no failure recorded, and let every attempt fail. Then every one of the
/// first K picks asks for an attempt, on the batch's own parameters; the K
/// attempted names are distinct and are exactly the candidates; after the
/// K-th failure no candidate is left, and the next pick fails the request
/// with an aggregate error that holds K entries, the k-th being the k-th
/// attempted name with the k-th error.
pub proof fn law_fallback_tries_each_candidate_once<F>(s: SelectorView<F>, errors: Seq<ErrorView>)
    requires
        s.state is Selecting,
        s.failures.len() == 0,
        s.candidates.no_duplicates(),
        errors.len() == s.candidates.len(),
    ensures
        ({
            let end = after_failures(s, errors);
            &&& end.candidates.len() == 0
            &&& end.failures.len() == errors.len()
            &&& forall|k: int|
                0 <= k < errors.len() ==> step_model::<F, ()>(
                    #[trigger] after_failures(s, errors.take(k)),
                    EventView::Resume,
                ).1 == ActionView::<F, ()>::Attempt {
                    variant_name: end.failures[k].variant_name,
                    inference_params: s.inference_params,
                }
            &&& forall|k: int| 0 <= k < errors.len() ==> (#[trigger] end.failures[k]).error == errors[k]
            &&& forall|i: int, j: int|
                0 <= i < j < end.failures.len() ==> (#[trigger] end.failures[i]).variant_name != (
                #[trigger] end.failures[j]).variant_name
            &&& forall|name: Seq<char>| #[trigger]
                s.candidates.contains(name) <==> has_failed(end.failures, name)
            &&& step_model::<F, ()>(end, EventView::Resume) == (
                SelectorView { state: StateView::Exhausted, failures: Seq::empty(), ..end },
                ActionView::<F, ()>::Fail(ErrorView::AllVariantsFailed { errors: end.failures }),
            )
        }),
{
    lemma_all_failing(s, errors, errors.len() as int);
    assert(errors.take(errors.len() as int) =~= errors);
    let end = after_failures(s, errors);
    assert forall|k: int| 0 <= k < errors.len() implies step_model::<F, ()>(
        #[trigger] after_failures(s, errors.take(k)),
        EventView::Resume,
    ).1 == ActionView::<F, ()>::Attempt {
        variant_name: end.failures[k].variant_name,
        inference_params: s.inference_params,
    } by {
        lemma_all_failing(s, errors, k);
        lemma_all_failing(s, errors, k + 1);
        lemma_failures_grow(s, errors, k + 1, errors.len() as int);
        let t = after_failures(s, errors.take(k));
        let next = after_failures(s, errors.take(k + 1));
        assert(errors.take(k + 1).drop_last() =~= errors.take(k));
        assert(errors.take(k + 1).last() == errors[k]);
        lemma_fallback_round(s, t, errors.take(k), errors[k]);
        assert(t.failures.len() == k);
        assert(next.failures[k] == end.failures.take(k + 1)[k]);
    }
    assert forall|name: Seq<char>| #[trigger]
        s.candidates.contains(name) <==> has_failed(end.failures, name) by {
        if end.candidates.contains(name) {
            let i = choose|i: int| 0 <= i < end.candidates.len() && end.candidates[i] == name;
        }
    }
}

/// After `j` failed rounds out of the `errors.len()` that the candidates
/// allow, [`tried_so_far`] holds.
proof fn lemma_all_failing<F>(s: SelectorView<F>, errors: Seq<ErrorView>, j: int)
    requires
        s.state is Selecting,
        s.failures.len() == 0,
        s.candidates.no_duplicates(),
        errors.len() == s.candidates.len(),
        0 <= j <= errors.len(),
    ensures
        tried_so_far(s, after_failures(s, errors.take(j)), errors.take(j)),
    decreases j,
{
    if j == 0 {
        assert(errors.take(0) =~= Seq::<ErrorView>::empty());
        assert forall|name: Seq<char>| !has_failed(s.failures, name) by {}
    } else {
        lemma_all_failing(s, errors, j - 1);
        let t = after_failures(s, errors.take(j - 1));
        assert(errors.take(j).drop_last() =~= errors.take(j - 1));
        assert(errors.take(j).last() == errors[j - 1]);
        lemma_fallback_round(s, t, errors.take(j - 1), errors[j - 1]);
        assert(errors.take(j - 1).push(errors[j - 1]) =~= errors.take(j));
    }
}

/// The failures recorded after `i` failed rounds are still the first `i`
/// failures after `j >= i` rounds.
proof fn lemma_failures_grow<F>(s: SelectorView<F>, errors: Seq<ErrorView>, i: int, j: int)
    requires
        s.state is Selecting,
        s.failures.len() == 0,
        s.candidates.no_duplicates(),
        errors.len() == s.candidates.len(),
        0 <= i <= j <= errors.len(),
    ensures
        after_failures(s, errors.take(i)).failures == after_failures(
            s,
            errors.take(j),
        ).failures.take(i),
    decreases j - i,
{
    if i == j {
        lemma_all_failing(s, errors, i);
        let f = after_failures(s, errors.take(i)).failures;
        assert(f.take(i) =~= f);
    } else {
        lemma_failures_grow(s, errors, i, j - 1);
        lemma_all_failing(s, errors, j - 1);
        let t = after_failures(s, errors.take(j - 1));
        assert(errors.take(j).drop_last() =~= errors.take(j - 1));
        assert(errors.take(j).last() == errors[j - 1]);
        lemma_fallback_round(s, t, errors.take(j - 1), errors[j - 1]);
        let next = after_failures(s, errors.take(j));
        assert(next.failures.take(i) =~= t.failures.take(i));
    }
}

} // verus!
