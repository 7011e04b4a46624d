//! Episode identifiers of a batch: one per item, supplied by the caller or
//! generated, and all of them validated.

use crate::error::{BatchError, ErrorDetails, ErrorView};
use crate::identifier::{is_version_7, validate_episode_id, Identifier};
use crate::text::{decimal, decimal_string};
use vstd::prelude::*;
use vstd::string::*;

verus! {

/// The episode identifiers that a caller supplies: one entry per item,
/// `None` where the gateway is to generate the identifier.
pub type BatchEpisodeIdInput = Vec<Option<Identifier>>;

/// The episode identifiers of a batch, one per item.
pub type BatchEpisodeIds = Vec<Identifier>;

/// Supplied episode identifiers together with the number of items in the
/// batch.
pub struct BatchEpisodeIdsWithSize(pub Option<BatchEpisodeIdInput>, pub usize);

/// The text that reports supplied episode identifiers whose count differs
/// from the batch size.
pub open spec fn episode_count_message(len: nat, n: nat) -> Seq<char> {
    "Number of episode_ids ("@ + decimal(len) + ") does not match number of inputs ("@ + decimal(n)
        + ")"@
}

/// Builds [`episode_count_message`].
pub fn episode_count_message_string(len: usize, n: usize) -> (s: String)
    ensures
        s@ == episode_count_message(len as nat, n as nat),
{
    let mut s = "Number of episode_ids (".to_owned();
    let len_text = decimal_string(len);
    s.append(len_text.as_str());
    s.append(") does not match number of inputs (");
    let n_text = decimal_string(n);
    s.append(n_text.as_str());
    s.append(")");
    s
}

/// Every identifier of `ids` may be an episode identifier.
pub open spec fn all_valid(ids: Seq<Identifier>) -> bool {
    forall|i: int| 0 <= i < ids.len() ==> (#[trigger] ids[i]).episode_fault() is None
}

/// `i` is the position of the first identifier of `ids` that may not be an
/// episode identifier.
pub open spec fn is_first_fault(ids: Seq<Identifier>, i: int) -> bool {
    &&& 0 <= i < ids.len()
    &&& ids[i].episode_fault() is Some
    &&& forall|j: int| 0 <= j < i ==> (#[trigger] ids[j]).episode_fault() is None
}

/// `r` is what validating `ids` gives: success where all are valid, else
/// the error for the first one that is not, with its position and reason.
pub open spec fn validates(ids: Seq<Identifier>, r: Result<(), BatchError>) -> bool {
    match r {
        Ok(()) => all_valid(ids),
        Err(e) => e@ matches ErrorView::BatchInputValidation { index, message } && is_first_fault(
            ids,
            index as int,
        ) && ids[index as int].episode_fault() == Some(message),
    }
}

/// Validates every identifier of a batch as an episode identifier. All of
/// them are looked at before success is reported; the first one that fails
/// is reported with its position.
pub fn validate_episode_ids(episode_ids: &Vec<Identifier>) -> (r: Result<(), BatchError>)
    ensures
        validates(episode_ids@, r),
{
    for i in 0..episode_ids.len()
        invariant
            forall|j: int| 0 <= j < i ==> (#[trigger] episode_ids@[j]).episode_fault() is None,
    {
        match validate_episode_id(episode_ids[i]) {
            Ok(()) => {},
            Err(message) => {
                return Err(BatchError::new(ErrorDetails::BatchInputValidation { index: i, message }));
            },
        }
    }
    Ok(())
}

/// The slots of a batch of `n` items: the supplied entries where there are
/// any, and `n` empty slots where nothing is supplied.
pub open spec fn slots_of(supplied: Option<BatchEpisodeIdInput>, n: nat) -> Seq<
    Option<Identifier>,
> {
    match supplied {
        Some(v) => v@,
        None => Seq::new(n, |i: int| None::<Identifier>),
    }
}

/// The number of empty slots among the first `i` slots.
pub open spec fn empty_before(slots: Seq<Option<Identifier>>, i: int) -> nat
    decreases i,
{
    if i <= 0 {
        0
    } else if slots[i - 1] is None {
        empty_before(slots, i - 1) + 1
    } else {
        empty_before(slots, i - 1)
    }
}

/// The number of empty slots.
pub open spec fn empty_slots(slots: Seq<Option<Identifier>>) -> nat {
    empty_before(slots, slots.len() as int)
}

/// The identifiers of a batch after the drawn identifiers have been placed:
/// a supplied identifier stays at its position, and the empty slots take
/// the drawn identifiers in their order, one each.
pub open spec fn placed(slots: Seq<Option<Identifier>>, drawn: Seq<Identifier>) -> Seq<
    Identifier,
> {
    Seq::new(
        slots.len(),
        |i: int|
            match slots[i] {
                Some(id) => id,
                None => drawn[empty_before(slots, i) as int],
            },
    )
}

/// Empty slots are counted in order: the count never falls, and it grows
/// over an empty slot.
pub proof fn lemma_empty_before_grows(slots: Seq<Option<Identifier>>, i: int, j: int)
    requires
        0 <= i <= j,
    ensures
        empty_before(slots, i) <= empty_before(slots, j),
        i < j && slots[i] is None ==> empty_before(slots, i) < empty_before(slots, j),
    decreases j - i,
{
    if i < j {
        lemma_empty_before_grows(slots, i, j - 1);
    }
}

/// Counts the empty slots.
pub fn count_empty_slots(slots: &Vec<Option<Identifier>>) -> (count: usize)
    ensures
        count == empty_slots(slots@),
{
    let mut count: usize = 0;
    for i in 0..slots.len()
        invariant
            count == empty_before(slots@, i as int),
            count <= i,
    {
        if slots[i].is_none() {
            count += 1;
        }
    }
    count
}

/// Places one drawn identifier into each empty slot.
fn place(slots: &Vec<Option<Identifier>>, drawn: &Vec<Identifier>) -> (ids: Vec<Identifier>)
    requires
        drawn@.len() == empty_slots(slots@),
    ensures
        ids@ == placed(slots@, drawn@),
{
    let mut ids: Vec<Identifier> = Vec::with_capacity(slots.len());
    let mut next: usize = 0;
    for i in 0..slots.len()
        invariant
            drawn@.len() == empty_slots(slots@),
            next == empty_before(slots@, i as int),
            next <= i,
            ids@.len() == i,
            forall|j: int| 0 <= j < i ==> ids@[j] == placed(slots@, drawn@)[j],
    {
        proof {
            lemma_empty_before_grows(slots@, i as int, slots@.len() as int);
        }
        match slots[i] {
            Some(id) => {
                ids.push(id);
            },
            None => {
                ids.push(drawn[next]);
                next += 1;
            },
        }
    }
    assert(ids@ =~= placed(slots@, drawn@));
    ids
}

/// Places drawn identifiers into the empty slots of a batch: [`placed`].
/// There must be exactly one drawn identifier for each empty slot; else
/// nothing is placed.
pub fn place_episode_ids(slots: &Vec<Option<Identifier>>, drawn: &Vec<Identifier>) -> (r: Option<
    BatchEpisodeIds,
>)
    ensures
        r is Some <==> drawn@.len() == empty_slots(slots@),
        r matches Some(ids) ==> ids@ == placed(slots@, drawn@),
{
    if drawn.len() == count_empty_slots(slots) {
        Some(place(slots, drawn))
    } else {
        None
    }
}

/// `drawn` can be what is drawn for the empty slots: one identifier for
/// each, every one of version 7.
pub open spec fn draws_fill(slots: Seq<Option<Identifier>>, drawn: Seq<Identifier>) -> bool {
    &&& drawn.len() == empty_slots(slots)
    &&& forall|k: int| 0 <= k < drawn.len() ==> is_version_7((#[trigger] drawn[k]).bits)
}

/// `r` is what resolving gives once `drawn` have been drawn and placed: the
/// identifiers of the batch where all of them are valid, else the error for
/// the first that is not.
pub open spec fn resolves_with(
    slots: Seq<Option<Identifier>>,
    drawn: Seq<Identifier>,
    r: Result<BatchEpisodeIds, BatchError>,
) -> bool {
    match r {
        Ok(v) => v@ == placed(slots, drawn) && all_valid(v@),
        Err(e) => validates(placed(slots, drawn), Err(e)),
    }
}

/// `r` is a possible result of resolving `supplied` for a batch of `n`
/// items.
///
/// Supplied identifiers of the wrong count give a request error. Otherwise
/// one identifier is drawn for each empty slot, the drawn identifiers are
/// placed in their order, and `r` is what validating the identifiers of the
/// batch gives: these identifiers, or the error for the first invalid one.
pub open spec fn resolves(
    supplied: Option<BatchEpisodeIdInput>,
    n: nat,
    r: Result<BatchEpisodeIds, BatchError>,
) -> bool {
    if supplied matches Some(v) && v@.len() != n {
        r matches Err(e) && e@ == (ErrorView::InvalidRequest {
            message: episode_count_message(supplied->0@.len(), n),
        })
    } else {
        exists|drawn: Seq<Identifier>| #[trigger]
            draws_fill(slots_of(supplied, n), drawn) && resolves_with(
                slots_of(supplied, n),
                drawn,
                r,
            )
    }
}

/// Draws `count` identifiers, one after the other.
fn draw(count: usize) -> (drawn: Vec<Identifier>)
    ensures
        drawn@.len() == count,
        forall|k: int| 0 <= k < count ==> is_version_7((#[trigger] drawn@[k]).bits),
{
    let mut drawn: Vec<Identifier> = Vec::with_capacity(count);
    for i in 0..count
        invariant
            drawn@.len() == i,
            forall|k: int| 0 <= k < i ==> is_version_7((#[trigger] drawn@[k]).bits),
    {
        drawn.push(Identifier::generate());
    }
    drawn
}

/// `n` empty slots.
fn empty_batch_slots(n: usize) -> (slots: Vec<Option<Identifier>>)
    ensures
        slots@ == slots_of(None, n as nat),
{
    let mut slots: Vec<Option<Identifier>> = Vec::with_capacity(n);
    for i in 0..n
        invariant
            slots@.len() == i,
            forall|j: int| 0 <= j < i ==> slots@[j] is None,
    {
        slots.push(None);
    }
    assert(slots@ =~= slots_of(None, n as nat));
    slots
}

impl TryFrom<BatchEpisodeIdsWithSize> for Vec<Identifier> {
    type Error = BatchError;

    /// Resolves the episode identifiers of a batch: takes the supplied ones,
    /// draws one identifier for each item without, and validates them all.
    fn try_from(sized: BatchEpisodeIdsWithSize) -> (r: Result<Self, BatchError>)
        ensures
            resolves(sized.0, sized.1 as nat, r),
    {
        let BatchEpisodeIdsWithSize(episode_ids, num_inferences) = sized;
        let slots = match episode_ids {
            Some(supplied) => {
                if supplied.len() != num_inferences {
                    let message = episode_count_message_string(supplied.len(), num_inferences);
                    return Err(BatchError::new(ErrorDetails::InvalidRequest { message }));
                }
                supplied
            },
            None => empty_batch_slots(num_inferences),
        };
        assert(slots@ == slots_of(episode_ids, num_inferences as nat));
        let drawn = draw(count_empty_slots(&slots));
        let resolved = place(&slots, &drawn);
        let r = match validate_episode_ids(&resolved) {
            Ok(()) => Ok(resolved),
            Err(e) => Err(e),
        };
        assert(draws_fill(slots@, drawn@) && resolves_with(slots@, drawn@, r));
        r
    }
}

/// The conversion draws fresh identifiers, so its result is no function of
/// its argument; `try_from` states what holds of every result.
impl vstd::std_specs::convert::TryFromSpecImpl<BatchEpisodeIdsWithSize> for Vec<Identifier> {
    open spec fn obeys_try_from_spec() -> bool {
        false
    }

    open spec fn try_from_spec(sized: BatchEpisodeIdsWithSize) -> Result<Self, BatchError> {
        arbitrary()
    }
}

/// Where nothing is supplied, every item takes its own drawn identifier:
/// the identifiers of the batch are the drawn ones, in their order.
pub proof fn law_every_item_takes_its_own_draw(n: nat, drawn: Seq<Identifier>)
    requires
        drawn.len() == n,
    ensures
        empty_slots(slots_of(None, n)) == n,
        placed(slots_of(None, n), drawn) == drawn,
{
    let slots = slots_of(None, n);
    lemma_all_empty(n, n as int);
    assert forall|i: int| 0 <= i < n implies placed(slots, drawn)[i] == drawn[i] by {
        lemma_all_empty(n, i);
    }
    assert(placed(slots, drawn) =~= drawn);
}

/// Among `n` empty slots, there are `i` empty slots before the `i`-th.
proof fn lemma_all_empty(n: nat, i: int)
    requires
        0 <= i <= n,
    ensures
        empty_before(slots_of(None, n), i) == i,
    decreases i,
{
    if i > 0 {
        lemma_all_empty(n, i - 1);
    }
}

/// Identifiers that are drawn distinct stay distinct in the batch: no two
/// empty slots take the same identifier. So a batch without supplied
/// identifiers, resolved from distinct and valid draws, has as many
/// distinct episode identifiers as it has items.
pub proof fn law_distinct_draws_give_distinct_ids(
    slots: Seq<Option<Identifier>>,
    drawn: Seq<Identifier>,
    i: int,
    j: int,
)
    requires
        drawn.len() == empty_slots(slots),
        drawn.no_duplicates(),
        0 <= i < j < slots.len(),
        slots[i] is None,
        slots[j] is None,
    ensures
        placed(slots, drawn)[i] != placed(slots, drawn)[j],
{
    lemma_empty_before_grows(slots, i, j);
    lemma_empty_before_grows(slots, j, slots.len() as int);
}

/// A batch without supplied identifiers that is resolved from valid draws
/// succeeds with exactly the drawn identifiers; where the draws are
/// distinct, so are the episode identifiers of the batch.
pub proof fn law_generated_ids_are_the_draws(
    n: nat,
    drawn: Seq<Identifier>,
    r: Result<BatchEpisodeIds, BatchError>,
)
    requires
        drawn.len() == n,
        all_valid(drawn),
        resolves_with(slots_of(None, n), drawn, r),
    ensures
        r is Ok,
        r->Ok_0@ == drawn,
        drawn.no_duplicates() ==> r->Ok_0@.no_duplicates(),
{
    law_every_item_takes_its_own_draw(n, drawn);
    if r is Err {
        let index = r->Err_0@->index as int;
        assert(drawn[index].episode_fault() is None);
    }
}

/// Where no identifier is supplied and the resolution succeeds, it gives one
/// identifier per item, and each of them may be an episode identifier.
pub proof fn law_generated_ids_are_valid(n: nat, r: Result<BatchEpisodeIds, BatchError>)
    requires
        resolves(None, n, r),
        r is Ok,
    ensures
        r->Ok_0@.len() == n,
        all_valid(r->Ok_0@),
{
}

/// Where the resolution succeeds, every supplied identifier stands at its
/// position, unchanged.
pub proof fn law_supplied_ids_are_kept(
    supplied: BatchEpisodeIdInput,
    n: nat,
    r: Result<BatchEpisodeIds, BatchError>,
    i: int,
)
    requires
        resolves(Some(supplied), n, r),
        r is Ok,
        0 <= i < n,
        supplied@[i] is Some,
    ensures
        supplied@.len() == n,
        r->Ok_0@.len() == n,
        r->Ok_0@[i] == supplied@[i]->0,
{
}

/// A supplied identifier that may not be an episode identifier fails the
/// resolution, wherever it stands: the error is an indexed validation error
/// for an item at or before it.
pub proof fn law_faulty_supplied_id_is_refused(
    supplied: BatchEpisodeIdInput,
    n: nat,
    r: Result<BatchEpisodeIds, BatchError>,
    i: int,
)
    requires
        resolves(Some(supplied), n, r),
        supplied@.len() == n,
        0 <= i < n,
        supplied@[i] matches Some(id) && id.episode_fault() is Some,
    ensures
        r matches Err(e) && (e@ matches ErrorView::BatchInputValidation { index, message } && index
            <= i),
{
    let drawn = choose|drawn: Seq<Identifier>| #[trigger]
        draws_fill(supplied@, drawn) && resolves_with(supplied@, drawn, r);
    let ids = placed(supplied@, drawn);
    assert(ids[i].episode_fault() is Some);
}

/// The first supplied identifier that may not be an episode identifier is
/// reported with its position and its reason, also where it is the last
/// item: the valid identifiers before it do not end the validation.
pub proof fn law_first_faulty_id_is_reported(
    supplied: BatchEpisodeIdInput,
    n: nat,
    r: Result<BatchEpisodeIds, BatchError>,
    i: int,
)
    requires
        resolves(Some(supplied), n, r),
        supplied@.len() == n,
        0 <= i < n,
        supplied@[i] matches Some(id) && id.episode_fault() is Some,
        forall|j: int|
            0 <= j < i ==> ((#[trigger] supplied@[j]) matches Some(id) && id.episode_fault()
                is None),
    ensures
        r matches Err(e) && e@ == (ErrorView::BatchInputValidation {
            index: i as nat,
            message: supplied@[i]->0.episode_fault()->0,
        }),
{
    let drawn = choose|drawn: Seq<Identifier>| #[trigger]
        draws_fill(supplied@, drawn) && resolves_with(supplied@, drawn, r);
    let ids = placed(supplied@, drawn);
    assert(ids[i].episode_fault() is Some);
    assert forall|j: int| 0 <= j < i implies (#[trigger] ids[j]).episode_fault() is None by {
        assert(supplied@[j] matches Some(id) && id.episode_fault() is None);
    }
    let e = r->Err_0;
    let index = e@->index as int;
    if index < i {
        assert(ids[index].episode_fault() is None);
    }
    if index > i {
        assert(ids[i].episode_fault() is None);
    }
}

} // verus!
