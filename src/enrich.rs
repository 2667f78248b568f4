//! Enrichment orchestrator: which entries a batch takes, what became of each
//! entry, and the summary of a batch.
use vstd::prelude::*;

use crate::handlers::EnrichResult;
use crate::models::Game;
use crate::text::text_equals;

verus! {

/// Entries handled by one enrichment batch at most.
pub const ENRICHMENT_BATCH_SIZE: usize = 20;

/// Pause before each remote call after a match, in milliseconds.
pub const STEAM_API_RATE_LIMIT_MS: u64 = 500;

/// An entry is due for enrichment when it is pending, has no catalogue id,
/// or is matched but lacks a cached image.
pub open spec fn needs_enrichment_spec(game: Game) -> bool {
    ||| game.match_status@ == "pending"@
    ||| game.steam_app_id is None
    ||| (game.match_status@ == "matched"@ && (game.local_cover_path is None || game.local_background_path is None))
}

/// Whether an entry is due for enrichment.
pub fn needs_enrichment(game: &Game) -> (r: bool)
    ensures
        r == needs_enrichment_spec(*game),
{
    let pending = text_equals(game.match_status.as_str(), "pending");
    let matched = text_equals(game.match_status.as_str(), "matched");
    pending || game.steam_app_id.is_none() || (matched && (game.local_cover_path.is_none()
        || game.local_background_path.is_none()))
}

/// Positions of the entries due for enrichment, in their order.
pub fn select_for_enrichment(games: &Vec<Game>) -> (r: Vec<usize>)
    ensures
        forall|k: int| 0 <= k < r@.len() ==> #[trigger] r@[k] < games@.len(),
        forall|k: int| 0 <= k < r@.len() ==> needs_enrichment_spec(games@[#[trigger] r@[k] as int]),
        forall|k: int, l: int| 0 <= k < l < r@.len() ==> r@[k] < r@[l],
        forall|i: int| 0 <= i < games@.len() && needs_enrichment_spec(#[trigger] games@[i]) ==> exists|k: int| 0 <= k < r@.len() && r@[k] == i,
{
    let mut r: Vec<usize> = Vec::new();
    let mut i: usize = 0;
    while i < games.len()
        invariant
            0 <= i <= games@.len(),
            forall|k: int| 0 <= k < r@.len() ==> #[trigger] r@[k] < i,
            forall|k: int| 0 <= k < r@.len() ==> needs_enrichment_spec(games@[#[trigger] r@[k] as int]),
            forall|k: int, l: int| 0 <= k < l < r@.len() ==> r@[k] < r@[l],
            forall|j: int| 0 <= j < i && needs_enrichment_spec(#[trigger] games@[j]) ==> exists|k: int| 0 <= k < r@.len() && r@[k] == j,
        decreases games@.len() - i,
    {
        let ghost before = r@;
        let due = needs_enrichment(&games[i]);
        if due {
            r.push(i);
        }
        proof {
            assert forall|j: int| 0 <= j < i + 1 && needs_enrichment_spec(#[trigger] games@[j]) implies exists|k: int|
                0 <= k < r@.len() && r@[k] == j by {
                if j < i {
                    let k = choose|k: int| 0 <= k < before.len() && before[k] == j;
                    assert(r@[k] == j);
                } else {
                    assert(r@[r@.len() - 1] == j);
                }
            }
        }
        i += 1;
    }
    r
}

/// Why an entry failed in a batch.
pub enum FailReason {
    /// The resolver found no catalogue match.
    NoMatch,
    /// The details of the matched entry could not be fetched.
    DetailsUnavailable,
    /// Writing the details to the store failed.
    StoreWrite,
    /// The driver reported an event that does not fit the current step.
    OutOfOrder,
}

/// What became of one entry in a batch.
pub enum ItemOutcome {
    Enriched,
    Failed(FailReason),
    Skipped(String),
}

/// Number of entries a batch takes out of `total` due ones.
pub open spec fn batch_len(total: nat) -> nat {
    if total < ENRICHMENT_BATCH_SIZE {
        total
    } else {
        ENRICHMENT_BATCH_SIZE as nat
    }
}

/// Number of entries a batch takes out of `total` due ones.
pub fn batch_size(total: usize) -> (r: usize)
    ensures
        r == batch_len(total as nat),
{
    if total < ENRICHMENT_BATCH_SIZE {
        total
    } else {
        ENRICHMENT_BATCH_SIZE
    }
}

/// Number of enriched outcomes in `s`.
pub open spec fn count_enriched(s: Seq<ItemOutcome>) -> nat
    decreases s.len(),
{
    if s.len() == 0 {
        0
    } else {
        count_enriched(s.drop_last()) + if s.last() is Enriched { 1nat } else { 0nat }
    }
}

/// Number of failed outcomes in `s`.
pub open spec fn count_failed(s: Seq<ItemOutcome>) -> nat
    decreases s.len(),
{
    if s.len() == 0 {
        0
    } else {
        count_failed(s.drop_last()) + if s.last() is Failed { 1nat } else { 0nat }
    }
}

/// Summary of a batch over `total` due entries: the enriched and failed
/// outcomes counted, and the due entries left beyond the batch cap.
pub fn summarize_enrichment(outcomes: &Vec<ItemOutcome>, total: usize) -> (r: EnrichResult)
    ensures
        r.enriched == count_enriched(outcomes@),
        r.failed == count_failed(outcomes@),
        r.remaining == total - batch_len(total as nat),
        r.total == total,
{
    let mut enriched: usize = 0;
    let mut failed: usize = 0;
    let mut i: usize = 0;
    while i < outcomes.len()
        invariant
            0 <= i <= outcomes@.len(),
            enriched == count_enriched(outcomes@.subrange(0, i as int)),
            failed == count_failed(outcomes@.subrange(0, i as int)),
            enriched <= i,
            failed <= i,
        decreases outcomes@.len() - i,
    {
        assert(outcomes@.subrange(0, i + 1).drop_last() =~= outcomes@.subrange(0, i as int));
        assert(outcomes@.subrange(0, i + 1).last() == outcomes@[i as int]);
        match &outcomes[i] {
            ItemOutcome::Enriched => {
                enriched += 1;
            },
            ItemOutcome::Failed(_) => {
                failed += 1;
            },
            ItemOutcome::Skipped(_) => {},
        }
        i += 1;
    }
    assert(outcomes@.subrange(0, outcomes@.len() as int) =~= outcomes@);
    let remaining = if total > ENRICHMENT_BATCH_SIZE {
        total - ENRICHMENT_BATCH_SIZE
    } else {
        0
    };
    EnrichResult { enriched, failed, remaining, total }
}


/// Where the enrichment of one entry stands.
#[derive(Clone, Copy, Debug, PartialEq, Eq, Structural)]
pub enum EnrichState {
    Resolving,
    FetchingDetails { app_id: i64, confidence: u32 },
    FetchingReviews { app_id: i64, confidence: u32 },
    WritingDetails { app_id: i64, confidence: u32, has_reviews: bool },
    CachingImages { has_reviews: bool },
    WritingImages { has_reviews: bool },
    WritingReviews,
    Done,
}

/// What the driver reports after performing an action.
#[derive(Clone, Copy, Debug)]
pub enum EnrichEvent {
    /// The resolver's answer: a catalogue id and its similarity, or none.
    Resolved(Option<(i64, u32)>),
    /// Whether the details could be fetched.
    DetailsFetched(bool),
    /// Whether the reviews could be fetched.
    ReviewsFetched(bool),
    /// Whether the details were written to the store.
    DetailsWritten(bool),
    /// Whether at least one image is now cached locally.
    ImagesCached(bool),
    /// A write whose failure is only logged has been attempted.
    Written,
}

/// What the driver must do next.
#[derive(Clone, Copy, Debug, PartialEq, Eq, Structural)]
pub enum EnrichAction {
    /// Resolve the entry's title to a catalogue id.
    Resolve,
    /// Wait `delay_ms`, then fetch the details of `app_id`.
    FetchDetails { app_id: i64, delay_ms: u64 },
    /// Wait `delay_ms`, then fetch the reviews of `app_id`.
    FetchReviews { app_id: i64, delay_ms: u64 },
    /// Write the fetched details, the id and the confidence to the store.
    WriteDetails { app_id: i64, confidence: u32 },
    /// Cache the cover and background images.
    CacheImages,
    /// Record the cached image paths in the store.
    WriteImages,
    /// Record the fetched reviews in the store.
    WriteReviews,
    /// The entry is finished with this outcome.
    Finish(FinishedAs),
}

/// Final outcome of one entry, as the step function reports it.
#[derive(Clone, Copy, Debug, PartialEq, Eq, Structural)]
pub enum FinishedAs {
    Enriched,
    NoMatch,
    DetailsUnavailable,
    StoreWrite,
    OutOfOrder,
}

/// The first step of every entry.
pub open spec fn enrich_start_spec() -> (EnrichState, EnrichAction) {
    (EnrichState::Resolving, EnrichAction::Resolve)
}

/// Starts the enrichment of one entry.
pub fn enrich_start() -> (r: (EnrichState, EnrichAction))
    ensures
        r == enrich_start_spec(),
{
    (EnrichState::Resolving, EnrichAction::Resolve)
}

/// After the details are stored: record images if any were cached, then
/// reviews if any were fetched, then finish as enriched.
pub open spec fn after_images(has_reviews: bool) -> (EnrichState, EnrichAction) {
    if has_reviews {
        (EnrichState::WritingReviews, EnrichAction::WriteReviews)
    } else {
        (EnrichState::Done, EnrichAction::Finish(FinishedAs::Enriched))
    }
}

/// The enrichment sequence of one entry: resolve; pause and fetch details
/// (stop as failed without them); pause and fetch reviews; write the
/// details (stop as failed when that fails); cache images and record them;
/// record reviews; finish as enriched. An event that does not fit the step
/// finishes the entry as out of order.
pub open spec fn enrich_next(state: EnrichState, event: EnrichEvent) -> (EnrichState, EnrichAction) {
    let out_of_order = (EnrichState::Done, EnrichAction::Finish(FinishedAs::OutOfOrder));
    match (state, event) {
        (EnrichState::Resolving, EnrichEvent::Resolved(found)) => match found {
            None => (EnrichState::Done, EnrichAction::Finish(FinishedAs::NoMatch)),
            Some(m) => (
                EnrichState::FetchingDetails { app_id: m.0, confidence: m.1 },
                EnrichAction::FetchDetails { app_id: m.0, delay_ms: STEAM_API_RATE_LIMIT_MS },
            ),
        },
        (EnrichState::FetchingDetails { app_id, confidence }, EnrichEvent::DetailsFetched(ok)) => if ok {
            (
                EnrichState::FetchingReviews { app_id, confidence },
                EnrichAction::FetchReviews { app_id, delay_ms: STEAM_API_RATE_LIMIT_MS },
            )
        } else {
            (EnrichState::Done, EnrichAction::Finish(FinishedAs::DetailsUnavailable))
        },
        (EnrichState::FetchingReviews { app_id, confidence }, EnrichEvent::ReviewsFetched(has_reviews)) => (
            EnrichState::WritingDetails { app_id, confidence, has_reviews },
            EnrichAction::WriteDetails { app_id, confidence },
        ),
        (EnrichState::WritingDetails { has_reviews, .. }, EnrichEvent::DetailsWritten(ok)) => if ok {
            (EnrichState::CachingImages { has_reviews }, EnrichAction::CacheImages)
        } else {
            (EnrichState::Done, EnrichAction::Finish(FinishedAs::StoreWrite))
        },
        (EnrichState::CachingImages { has_reviews }, EnrichEvent::ImagesCached(any)) => if any {
            (EnrichState::WritingImages { has_reviews }, EnrichAction::WriteImages)
        } else {
            after_images(has_reviews)
        },
        (EnrichState::WritingImages { has_reviews }, EnrichEvent::Written) => after_images(has_reviews),
        (EnrichState::WritingReviews, EnrichEvent::Written) => (
            EnrichState::Done,
            EnrichAction::Finish(FinishedAs::Enriched),
        ),
        _ => out_of_order,
    }
}

/// One step of the enrichment of an entry.
pub fn enrich_step(state: EnrichState, event: EnrichEvent) -> (r: (EnrichState, EnrichAction))
    ensures
        r == enrich_next(state, event),
{
    let out_of_order = (EnrichState::Done, EnrichAction::Finish(FinishedAs::OutOfOrder));
    match state {
        EnrichState::Resolving => match event {
            EnrichEvent::Resolved(found) => match found {
                None => (EnrichState::Done, EnrichAction::Finish(FinishedAs::NoMatch)),
                Some(m) => (
                    EnrichState::FetchingDetails { app_id: m.0, confidence: m.1 },
                    EnrichAction::FetchDetails { app_id: m.0, delay_ms: STEAM_API_RATE_LIMIT_MS },
                ),
            },
            _ => out_of_order,
        },
        EnrichState::FetchingDetails { app_id, confidence } => match event {
            EnrichEvent::DetailsFetched(ok) => if ok {
                (
                    EnrichState::FetchingReviews { app_id, confidence },
                    EnrichAction::FetchReviews { app_id, delay_ms: STEAM_API_RATE_LIMIT_MS },
                )
            } else {
                (EnrichState::Done, EnrichAction::Finish(FinishedAs::DetailsUnavailable))
            },
            _ => out_of_order,
        },
        EnrichState::FetchingReviews { app_id, confidence } => match event {
            EnrichEvent::ReviewsFetched(has_reviews) => (
                EnrichState::WritingDetails { app_id, confidence, has_reviews },
                EnrichAction::WriteDetails { app_id, confidence },
            ),
            _ => out_of_order,
        },
        EnrichState::WritingDetails { has_reviews, .. } => match event {
            EnrichEvent::DetailsWritten(ok) => if ok {
                (EnrichState::CachingImages { has_reviews }, EnrichAction::CacheImages)
            } else {
                (EnrichState::Done, EnrichAction::Finish(FinishedAs::StoreWrite))
            },
            _ => out_of_order,
        },
        EnrichState::CachingImages { has_reviews } => match event {
            EnrichEvent::ImagesCached(any) => if any {
                (EnrichState::WritingImages { has_reviews }, EnrichAction::WriteImages)
            } else if has_reviews {
                (EnrichState::WritingReviews, EnrichAction::WriteReviews)
            } else {
                (EnrichState::Done, EnrichAction::Finish(FinishedAs::Enriched))
            },
            _ => out_of_order,
        },
        EnrichState::WritingImages { has_reviews } => match event {
            EnrichEvent::Written => if has_reviews {
                (EnrichState::WritingReviews, EnrichAction::WriteReviews)
            } else {
                (EnrichState::Done, EnrichAction::Finish(FinishedAs::Enriched))
            },
            _ => out_of_order,
        },
        EnrichState::WritingReviews => match event {
            EnrichEvent::Written => (EnrichState::Done, EnrichAction::Finish(FinishedAs::Enriched)),
            _ => out_of_order,
        },
        EnrichState::Done => out_of_order,
    }
}

/// The batch outcome of a finished entry.
pub fn finished_outcome(f: FinishedAs) -> (r: ItemOutcome)
    ensures
        f == FinishedAs::Enriched ==> r == ItemOutcome::Enriched,
        f == FinishedAs::NoMatch ==> r == ItemOutcome::Failed(FailReason::NoMatch),
        f == FinishedAs::DetailsUnavailable ==> r == ItemOutcome::Failed(FailReason::DetailsUnavailable),
        f == FinishedAs::StoreWrite ==> r == ItemOutcome::Failed(FailReason::StoreWrite),
        f == FinishedAs::OutOfOrder ==> r == ItemOutcome::Failed(FailReason::OutOfOrder),
{
    match f {
        FinishedAs::Enriched => ItemOutcome::Enriched,
        FinishedAs::NoMatch => ItemOutcome::Failed(FailReason::NoMatch),
        FinishedAs::DetailsUnavailable => ItemOutcome::Failed(FailReason::DetailsUnavailable),
        FinishedAs::StoreWrite => ItemOutcome::Failed(FailReason::StoreWrite),
        FinishedAs::OutOfOrder => ItemOutcome::Failed(FailReason::OutOfOrder),
    }
}

/// Every remote fetch after a match is preceded by the rate-limit pause.
pub proof fn lemma_fetches_are_paced(state: EnrichState, event: EnrichEvent)
    ensures
        enrich_next(state, event).1 matches EnrichAction::FetchDetails { delay_ms, .. } ==> delay_ms
            == STEAM_API_RATE_LIMIT_MS,
        enrich_next(state, event).1 matches EnrichAction::FetchReviews { delay_ms, .. } ==> delay_ms
            == STEAM_API_RATE_LIMIT_MS,
{
}

/// Once the details are stored, the entry can only end as enriched: image
/// caching (a read-only folder included) and the later writes never turn it
/// into a failure when the driver follows the steps.
pub proof fn lemma_stored_details_end_enriched(has_reviews: bool, images_cached: bool)
    ensures
        ({
            let (s1, a1) = enrich_next(EnrichState::CachingImages { has_reviews }, EnrichEvent::ImagesCached(images_cached));
            let (s2, a2) = enrich_next(s1, EnrichEvent::Written);
            let (s3, a3) = enrich_next(s2, EnrichEvent::Written);
            &&& (a1 == EnrichAction::Finish(FinishedAs::Enriched) || a1 == EnrichAction::WriteImages || a1
                == EnrichAction::WriteReviews)
            &&& (a1 is Finish || a2 == EnrichAction::Finish(FinishedAs::Enriched) || a2 == EnrichAction::WriteReviews)
            &&& (a1 is Finish || a2 is Finish || a3 == EnrichAction::Finish(FinishedAs::Enriched))
        }),
{
}

} // verus!
