//! Rendering of weather reports: one formatted sentence per report,
//! describing the current day's conditions.
//!
//! A report is only renderable when its forecast sequence is non-empty; an
//! empty sequence is reported as `RenderError::EmptyForecast` rather than
//! read out of range.

use vstd::prelude::*;

use crate::data::DailyForecast;
use crate::data::RenderError;
use crate::data::WeatherReport;
use crate::decimal::format_i64;
use crate::decimal::spec_idec;

verus! {

/// The text of one temperature: its whole-degree value followed by the
/// Celsius unit.
pub open spec fn spec_temperature(degrees: int) -> Seq<char> {
    spec_idec(degrees) + "°C"@
}

/// The text describing one day's conditions: its high, low and current
/// temperatures and the name of its weather state.
pub open spec fn spec_day(forecast: DailyForecast) -> Seq<char> {
    "high of "@ + spec_temperature(forecast.max_temp as int) + " and low of "@
        + spec_temperature(forecast.min_temp as int) + ", currently sitting at "@
        + spec_temperature(forecast.current_temp as int) + " with "@ + forecast.state_name@
}

/// The full sentence for one report: its location's title and the current
/// day's summary, taken from the first forecast.
pub open spec fn spec_report(report: WeatherReport) -> Seq<char> {
    "The weather today in "@ + report.title@ + " will have a "@ + spec_day(
        report.forecasts@[0],
    )
}

/// `needle` occurs contiguously somewhere in `hay`.
pub open spec fn text_contains(hay: Seq<char>, needle: Seq<char>) -> bool {
    exists|i: int|
        0 <= i && i + needle.len() <= hay.len() && #[trigger] hay.subrange(
            i,
            i + needle.len() as int,
        ) == needle
}

proof fn lemma_contains_middle(before: Seq<char>, needle: Seq<char>, after: Seq<char>, hay: Seq<char>)
    requires
        hay == before + needle + after,
    ensures
        text_contains(hay, needle),
{
    let i = before.len() as int;
    assert(hay.subrange(i, i + needle.len() as int) =~= needle);
}

/// Renders a whole-degree temperature, e.g. `12°C` or `-3°C`.
pub fn temperature(degrees: i64) -> (text: String)
    ensures
        text@ == spec_temperature(degrees as int),
{
    let mut text = format_i64(degrees);
    text.append("°C");
    text
}

/// Renders the sentence fragment describing one day's conditions.
pub fn consolidated_weather_report(forecast: &DailyForecast) -> (text: String)
    ensures
        text@ == spec_day(*forecast),
{
    let mut text = String::from_str("high of ");
    text.append(temperature(forecast.max_temp).as_str());
    text.append(" and low of ");
    text.append(temperature(forecast.min_temp).as_str());
    text.append(", currently sitting at ");
    text.append(temperature(forecast.current_temp).as_str());
    text.append(" with ");
    text.append(forecast.state_name.as_str());
    text
}

/// Renders the one-line summary of one report's current day. Fails with
/// `EmptyForecast`, and only then, when the report holds no forecast at all.
pub fn weather_report(report: &WeatherReport) -> (res: Result<String, RenderError>)
    ensures
        match res {
            Ok(text) => report.forecasts@.len() > 0 && text@ == spec_report(*report),
            Err(e) => report.forecasts@.len() == 0 && e == RenderError::EmptyForecast,
        },
{
    if report.forecasts.len() == 0 {
        Err(RenderError::EmptyForecast)
    } else {
        let mut text = String::from_str("The weather today in ");
        text.append(report.title.as_str());
        text.append(" will have a ");
        text.append(consolidated_weather_report(&report.forecasts[0]).as_str());
        Ok(text)
    }
}

/// What rendering a whole sequence of reports yields: one line per report
/// when every report has a forecast, and `EmptyForecast` when any has none.
pub open spec fn spec_render_all(reports: Seq<WeatherReport>) -> Result<
    Seq<Seq<char>>,
    RenderError,
> {
    if forall|i: int| 0 <= i < reports.len() ==> (#[trigger] reports[i].forecasts@).len() > 0 {
        Ok(Seq::new(reports.len(), |i: int| spec_report(reports[i])))
    } else {
        Err(RenderError::EmptyForecast)
    }
}

/// The text of each line of a rendered sequence.
pub open spec fn views_of(lines: Seq<String>) -> Seq<Seq<char>> {
    lines.map_values(|line: String| line@)
}

/// Renders every report of a sequence, in order, short-circuiting on the
/// first report with no forecast.
pub fn render_all(reports: &Vec<WeatherReport>) -> (res: Result<Vec<String>, RenderError>)
    ensures
        match res {
            Ok(lines) => spec_render_all(reports@) == Ok::<Seq<Seq<char>>, RenderError>(
                views_of(lines@),
            ),
            Err(e) => spec_render_all(reports@) == Err::<Seq<Seq<char>>, RenderError>(e),
        },
{
    let mut lines: Vec<String> = Vec::new();
    let mut i: usize = 0;
    while i < reports.len()
        invariant
            i <= reports@.len(),
            lines@.len() == i as int,
            forall|j: int| 0 <= j < i as int ==> (#[trigger] reports@[j].forecasts@).len() > 0,
            forall|j: int|
                0 <= j < i as int ==> (#[trigger] lines@[j])@ == spec_report(reports@[j]),
        decreases reports@.len() - i as int,
    {
        match weather_report(&reports[i]) {
            Ok(line) => {
                lines.push(line);
            },
            Err(e) => {
                proof {
                    assert(reports@[i as int].forecasts@.len() == 0);
                }
                return Err(e);
            },
        }
        i += 1;
    }
    proof {
        assert(views_of(lines@) =~= Seq::new(
            reports@.len(),
            |j: int| spec_report(reports@[j]),
        ));
    }
    Ok(lines)
}

/// Rendering is a pure function of the report: two renderings of the same
/// report yield identical text, character for character.
pub proof fn lemma_weather_report_repeatable(
    report: WeatherReport,
    first: Seq<char>,
    second: Seq<char>,
)
    requires
        first == spec_report(report),
        second == spec_report(report),
    ensures
        first == second,
{
}

/// The day summary always carries the fixed fragments of the sentence and
/// each of the three rendered temperatures, unit included.
pub proof fn lemma_day_report_contains_fragments(forecast: DailyForecast)
    ensures
        text_contains(spec_day(forecast), "high of "@),
        text_contains(spec_day(forecast), "and low of "@),
        text_contains(spec_day(forecast), "currently sitting at "@),
        text_contains(spec_day(forecast), "with "@),
        text_contains(spec_day(forecast), spec_temperature(forecast.max_temp as int)),
        text_contains(spec_day(forecast), spec_temperature(forecast.min_temp as int)),
        text_contains(spec_day(forecast), spec_temperature(forecast.current_temp as int)),
{
    let a1 = "high of "@;
    let t1 = spec_temperature(forecast.max_temp as int);
    let a2 = " and low of "@;
    let t2 = spec_temperature(forecast.min_temp as int);
    let a3 = ", currently sitting at "@;
    let t3 = spec_temperature(forecast.current_temp as int);
    let a4 = " with "@;
    let state = forecast.state_name@;
    let hay = spec_day(forecast);

    assert(hay =~= Seq::<char>::empty() + a1 + (t1 + a2 + t2 + a3 + t3 + a4 + state));
    lemma_contains_middle(Seq::<char>::empty(), a1, t1 + a2 + t2 + a3 + t3 + a4 + state, hay);

    assert(hay =~= a1 + t1 + (a2 + t2 + a3 + t3 + a4 + state));
    lemma_contains_middle(a1, t1, a2 + t2 + a3 + t3 + a4 + state, hay);

    reveal_strlit(" and low of ");
    reveal_strlit("and low of ");
    assert(a2 =~= seq![' '] + "and low of "@);
    assert(hay =~= (a1 + t1 + seq![' ']) + "and low of "@ + (t2 + a3 + t3 + a4 + state));
    lemma_contains_middle(a1 + t1 + seq![' '], "and low of "@, t2 + a3 + t3 + a4 + state, hay);

    assert(hay =~= (a1 + t1 + a2) + t2 + (a3 + t3 + a4 + state));
    lemma_contains_middle(a1 + t1 + a2, t2, a3 + t3 + a4 + state, hay);

    reveal_strlit(", currently sitting at ");
    reveal_strlit("currently sitting at ");
    assert(a3 =~= seq![',', ' '] + "currently sitting at "@);
    assert(hay =~= (a1 + t1 + a2 + t2 + seq![',', ' ']) + "currently sitting at "@ + (t3 + a4
        + state));
    lemma_contains_middle(
        a1 + t1 + a2 + t2 + seq![',', ' '],
        "currently sitting at "@,
        t3 + a4 + state,
        hay,
    );

    assert(hay =~= (a1 + t1 + a2 + t2 + a3) + t3 + (a4 + state));
    lemma_contains_middle(a1 + t1 + a2 + t2 + a3, t3, a4 + state, hay);

    reveal_strlit(" with ");
    reveal_strlit("with ");
    assert(a4 =~= seq![' '] + "with "@);
    assert(hay =~= (a1 + t1 + a2 + t2 + a3 + t3 + seq![' ']) + "with "@ + state);
    lemma_contains_middle(a1 + t1 + a2 + t2 + a3 + t3 + seq![' '], "with "@, state, hay);
}

} // verus!
