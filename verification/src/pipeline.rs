//! The pipeline orchestrator and the batch retrieval policy.
//!
//! One run is a stateless, linear three-stage transformation: resolve the
//! search term to locations, fetch each location's weather in input order,
//! then render one line per report. The transport is an external
//! collaborator, so the orchestrator is a step function from state and event
//! to next state and action: the surrounding application performs each
//! requested transfer and hands back its outcome, and every decision — the
//! fail-fast batch policy above all — is taken here.

use vstd::prelude::*;

use crate::data::FetchError;
use crate::data::Location;
use crate::data::RenderError;
use crate::data::RunError;
use crate::data::WeatherReport;
use crate::report::render_all;
use crate::report::spec_render_all;
use crate::report::views_of;
use crate::urls::location_search_url;
use crate::urls::location_weather_url;
use crate::urls::spec_search_url;
use crate::urls::spec_weather_url;

verus! {

/// The outcome of one transfer that the application performed.
pub enum Event {
    /// The outcome of the location search.
    Resolved(Result<Vec<Location>, FetchError>),
    /// The outcome of one weather fetch.
    Fetched(Result<WeatherReport, FetchError>),
}

/// What the orchestrator asks of the application next.
pub enum Action {
    /// Perform the location search under this URL and hand back `Resolved`.
    RequestLocations(String),
    /// Fetch one weather report under this URL and hand back `Fetched`.
    RequestWeather(String),
    /// The run is over, with one line per resolved location or with the
    /// first error encountered.
    Finish(Result<Vec<String>, RunError>),
}

/// The orchestrator's state between two events.
pub enum Pipeline {
    /// The location search is outstanding.
    AwaitingLocations,
    /// Weather is being fetched, one location at a time in input order;
    /// `reports` holds the reports fetched so far.
    Fetching { locations: Vec<Location>, reports: Vec<WeatherReport> },
    /// A `Finish` action has been issued.
    Finished,
}

/// While fetching, at least one location is still outstanding.
pub open spec fn wf(state: Pipeline) -> bool {
    state matches Pipeline::Fetching { locations, reports } ==> reports@.len()
        < locations@.len()
}

/// The event kind that the state is waiting for.
pub open spec fn expects(state: Pipeline, event: Event) -> bool {
    match (state, event) {
        (Pipeline::AwaitingLocations, Event::Resolved(_)) => true,
        (Pipeline::Fetching { locations: _, reports: _ }, Event::Fetched(_)) => true,
        _ => false,
    }
}

/// A finishing action that renders `reports`: its lines are exactly the
/// rendered reports, or it carries the rendering error.
pub open spec fn finish_post(reports: Seq<WeatherReport>, action: Action) -> bool {
    match action {
        Action::Finish(result) => match result {
            Ok(lines) => spec_render_all(reports) == Ok::<Seq<Seq<char>>, RenderError>(
                views_of(lines@),
            ),
            Err(RunError::Render(e)) => spec_render_all(reports) == Err::<
                Seq<Seq<char>>,
                RenderError,
            >(e),
            Err(RunError::Fetch(_)) => false,
        },
        _ => false,
    }
}

/// Exactly what one step decides, for every state and event it accepts.
pub open spec fn step_post(state: Pipeline, event: Event, next: Pipeline, action: Action) -> bool {
    match (state, event) {
        (Pipeline::AwaitingLocations, Event::Resolved(outcome)) => match outcome {
            Err(e) => next is Finished && action == Action::Finish(
                Err::<Vec<String>, RunError>(RunError::Fetch(e)),
            ),
            Ok(locations) => if locations@.len() == 0 {
                next is Finished && (action matches Action::Finish(result) && result
                    matches Ok(lines) && lines@.len() == 0)
            } else {
                (next matches Pipeline::Fetching { locations: l, reports: r } && l@
                    == locations@ && r@.len() == 0) && (action matches Action::RequestWeather(url)
                    && url@ == spec_weather_url(locations@[0].identifier as nat))
            },
        },
        (Pipeline::Fetching { locations, reports }, Event::Fetched(outcome)) => match outcome {
            Err(e) => next is Finished && action == Action::Finish(
                Err::<Vec<String>, RunError>(RunError::Fetch(e)),
            ),
            Ok(report) => {
                let fetched = reports@.push(report);
                if fetched.len() == locations@.len() {
                    next is Finished && finish_post(fetched, action)
                } else {
                    (next matches Pipeline::Fetching { locations: l, reports: r } && l@
                        == locations@ && r@ == fetched) && (action
                        matches Action::RequestWeather(url) && url@ == spec_weather_url(
                        locations@[fetched.len() as int].identifier as nat,
                    ))
                }
            },
        },
        _ => false,
    }
}

/// Begins one run: the first action asks the application to resolve the
/// search term.
pub fn start(search: &str) -> (r: (Pipeline, Action))
    ensures
        r.0 is AwaitingLocations,
        wf(r.0),
        r.1 matches Action::RequestLocations(url) && url@ == spec_search_url(search@),
{
    (Pipeline::AwaitingLocations, Action::RequestLocations(location_search_url(search)))
}

/// Takes one event and decides the next state and action. A failed transfer
/// finishes the run at once with that failure: no partial result survives.
pub fn step(state: Pipeline, event: Event) -> (r: (Pipeline, Action))
    requires
        wf(state),
        expects(state, event),
    ensures
        wf(r.0),
        step_post(state, event, r.0, r.1),
{
    match (state, event) {
        (Pipeline::AwaitingLocations, Event::Resolved(outcome)) => match outcome {
            Err(e) => (Pipeline::Finished, Action::Finish(Err(RunError::Fetch(e)))),
            Ok(locations) => {
                if locations.len() == 0 {
                    (Pipeline::Finished, Action::Finish(Ok(Vec::new())))
                } else {
                    let url = location_weather_url(&locations[0]);
                    (
                        Pipeline::Fetching { locations, reports: Vec::new() },
                        Action::RequestWeather(url),
                    )
                }
            },
        },
        (Pipeline::Fetching { locations, reports }, Event::Fetched(outcome)) => match outcome {
            Err(e) => (Pipeline::Finished, Action::Finish(Err(RunError::Fetch(e)))),
            Ok(report) => {
                let mut reports = reports;
                reports.push(report);
                if reports.len() == locations.len() {
                    let result = match render_all(&reports) {
                        Ok(lines) => Ok(lines),
                        Err(e) => Err(RunError::Render(e)),
                    };
                    (Pipeline::Finished, Action::Finish(result))
                } else {
                    let url = location_weather_url(&locations[reports.len()]);
                    (Pipeline::Fetching { locations, reports }, Action::RequestWeather(url))
                }
            },
        },
        _ => {
            proof {
                assert(false);
            }
            (Pipeline::Finished, Action::Finish(Ok(Vec::new())))
        },
    }
}

/// What aggregating a batch of per-location fetch outcomes yields: every
/// report in input order when all succeed, and the first failure alone —
/// with every already-fetched report discarded — otherwise.
pub open spec fn spec_fetch_all(outcomes: Seq<Result<WeatherReport, FetchError>>) -> Result<
    Seq<WeatherReport>,
    FetchError,
>
    decreases outcomes.len(),
{
    if outcomes.len() == 0 {
        Ok(Seq::empty())
    } else {
        match outcomes[0] {
            Err(e) => Err(e),
            Ok(report) => match spec_fetch_all(outcomes.drop_first()) {
                Ok(rest) => Ok(seq![report] + rest),
                Err(e) => Err(e),
            },
        }
    }
}

/// When every fetch of a batch succeeds, the batch as a whole succeeds and
/// yields exactly one report per location, in input order.
pub proof fn lemma_fetch_all_ok(outcomes: Seq<Result<WeatherReport, FetchError>>)
    requires
        forall|i: int| 0 <= i < outcomes.len() ==> (#[trigger] outcomes[i]) is Ok,
    ensures
        spec_fetch_all(outcomes) is Ok,
        spec_fetch_all(outcomes)->Ok_0.len() == outcomes.len(),
        forall|i: int|
            0 <= i < outcomes.len() ==> spec_fetch_all(outcomes)->Ok_0[i] == (
            #[trigger] outcomes[i])->Ok_0,
    decreases outcomes.len(),
{
    if outcomes.len() > 0 {
        let tail = outcomes.drop_first();
        assert forall|i: int| 0 <= i < tail.len() implies (#[trigger] tail[i]) is Ok by {
            assert(tail[i] == outcomes[i + 1]);
        }
        lemma_fetch_all_ok(tail);
        assert forall|i: int|
            0 <= i < outcomes.len() implies spec_fetch_all(outcomes)->Ok_0[i] == (
        #[trigger] outcomes[i])->Ok_0 by {
            if i > 0 {
                assert(tail[i - 1] == outcomes[i]);
            }
        }
    }
}

/// When the `k`-th fetch of a batch is the first to fail, the batch reports
/// exactly that failure, and none of the reports fetched before it.
pub proof fn lemma_fetch_all_first_error(outcomes: Seq<Result<WeatherReport, FetchError>>, k: int)
    requires
        0 <= k < outcomes.len(),
        outcomes[k] is Err,
        forall|j: int| 0 <= j < k ==> (#[trigger] outcomes[j]) is Ok,
    ensures
        spec_fetch_all(outcomes) == Err::<Seq<WeatherReport>, FetchError>(outcomes[k]->Err_0),
    decreases k,
{
    if k > 0 {
        let tail = outcomes.drop_first();
        assert(outcomes[0] is Ok);
        assert(tail[k - 1] == outcomes[k]);
        assert forall|j: int| 0 <= j < k - 1 implies (#[trigger] tail[j]) is Ok by {
            assert(tail[j] == outcomes[j + 1]);
        }
        lemma_fetch_all_first_error(tail, k - 1);
    }
}

/// Aggregates the outcomes of one fetch per location, in input order,
/// fail-fast: the first failure is the batch's failure, and none of the
/// already-fetched reports is returned beside it.
pub fn fetch_all(outcomes: Vec<Result<WeatherReport, FetchError>>) -> (res: Result<
    Vec<WeatherReport>,
    FetchError,
>)
    ensures
        match res {
            Ok(reports) => spec_fetch_all(outcomes@) == Ok::<Seq<WeatherReport>, FetchError>(
                reports@,
            ),
            Err(e) => spec_fetch_all(outcomes@) == Err::<Seq<WeatherReport>, FetchError>(e),
        },
{
    let ghost all = outcomes@;
    let mut rest = outcomes;
    let mut reports: Vec<WeatherReport> = Vec::new();
    while rest.len() > 0
        invariant
            all == outcomes@,
            reports@.len() + rest@.len() == all.len(),
            rest@ == all.skip(reports@.len() as int),
            forall|j: int| 0 <= j < reports@.len() ==> (#[trigger] all[j]) is Ok,
            forall|j: int| 0 <= j < reports@.len() ==> #[trigger] reports@[j] == all[j]->Ok_0,
        decreases rest@.len(),
    {
        let ghost fetched = reports@.len() as int;
        let ghost rest_old = rest@;
        let outcome = rest.remove(0);
        proof {
            assert(outcome == all[fetched]);
            assert(rest@ =~= all.skip(fetched + 1));
        }
        match outcome {
            Ok(report) => {
                reports.push(report);
            },
            Err(e) => {
                proof {
                    lemma_fetch_all_first_error(all, fetched);
                }
                return Err(e);
            },
        }
    }
    proof {
        lemma_fetch_all_ok(all);
        assert(spec_fetch_all(all)->Ok_0 =~= reports@);
    }
    Ok(reports)
}

} // verus!
