use metaweather::data::DailyForecast;
use metaweather::data::FetchError;
use metaweather::data::Location;
use metaweather::data::RenderError;
use metaweather::data::RunError;
use metaweather::data::WeatherReport;
use metaweather::pipeline::fetch_all;
use metaweather::pipeline::start;
use metaweather::pipeline::step;
use metaweather::pipeline::Action;
use metaweather::pipeline::Event;
use metaweather::pipeline::Pipeline;

fn place(title: &str, identifier: u32) -> Location {
    Location {
        title: title.to_string(),
        location_type: "City".to_string(),
        identifier,
        coordinates: "0.0,0.0".to_string(),
    }
}

fn report_for(title: &str, max_temp: i64) -> WeatherReport {
    WeatherReport {
        forecasts: vec![DailyForecast {
            id: 0,
            state_name: "Clear".to_string(),
            state_abbr: "c".to_string(),
            wind_direction_compass: "N".to_string(),
            created: "".to_string(),
            applicable_date: "".to_string(),
            min_temp: 0,
            max_temp,
            current_temp: 0,
            wind_speed: 0,
            wind_direction: 0,
            air_pressure: 0,
            humidity: 0,
            visibility: 0,
            predictability: 0,
        }],
        observation_time: "".to_string(),
        sun_rise: "".to_string(),
        sun_set: "".to_string(),
        timezone_name: "".to_string(),
        timezone: "".to_string(),
        parent: place("England", 0),
        title: title.to_string(),
        location_type: "City".to_string(),
        identifier: 0,
        coordinates: "0.0,0.0".to_string(),
    }
}

fn report_without_forecasts(title: &str) -> WeatherReport {
    let mut report = report_for(title, 0);
    report.forecasts.clear();
    report
}

#[test]
fn fetch_all_returns_every_report_in_input_order() {
    let outcomes: Vec<Result<WeatherReport, FetchError>> = vec![
        Ok(report_for("London", 10)),
        Ok(report_for("Paris", 20)),
        Ok(report_for("Berlin", 30)),
    ];
    let reports = fetch_all(outcomes).unwrap();
    assert_eq!(reports.len(), 3);
    assert_eq!(reports[0].title, "London");
    assert_eq!(reports[1].title, "Paris");
    assert_eq!(reports[2].title, "Berlin");
}

#[test]
fn fetch_all_of_no_outcomes_is_an_empty_success() {
    let outcomes: Vec<Result<WeatherReport, FetchError>> = vec![];
    let reports = fetch_all(outcomes).unwrap();
    assert_eq!(reports.len(), 0);
}

#[test]
fn fetch_all_reports_the_first_failure_and_no_reports() {
    let outcomes: Vec<Result<WeatherReport, FetchError>> = vec![
        Ok(report_for("London", 10)),
        Err(FetchError { message: "connection reset".to_string() }),
        Err(FetchError { message: "later failure".to_string() }),
    ];
    match fetch_all(outcomes) {
        Ok(_) => panic!("a failed fetch must fail the batch"),
        Err(e) => assert_eq!(e.message, "connection reset"),
    }
}

#[test]
fn run_over_no_resolved_locations_succeeds_with_no_output() {
    let (state, action) = start("san");
    match &action {
        Action::RequestLocations(url) => {
            assert_eq!(url, "https://www.metaweather.com/api/location/search/?query=san")
        },
        _ => panic!("a run must begin with the location search"),
    }
    let (_state, action) = step(state, Event::Resolved(Ok(vec![])));
    match action {
        Action::Finish(result) => assert_eq!(result.unwrap(), Vec::<String>::new()),
        _ => panic!("no locations leave nothing to fetch"),
    }
}

#[test]
fn run_over_two_locations_renders_both_in_order() {
    let (state, _action) = start("lon");
    let locations = vec![place("London", 44418), place("Longford", 560)];
    let (state, action) = step(state, Event::Resolved(Ok(locations)));
    match &action {
        Action::RequestWeather(url) => {
            assert_eq!(url, "https://www.metaweather.com/api/location/44418?speed=k")
        },
        _ => panic!("resolved locations must be fetched"),
    }
    let (state, action) = step(state, Event::Fetched(Ok(report_for("London", 21))));
    match &action {
        Action::RequestWeather(url) => {
            assert_eq!(url, "https://www.metaweather.com/api/location/560?speed=k")
        },
        _ => panic!("the second location must be fetched next"),
    }
    let (state, action) = step(state, Event::Fetched(Ok(report_for("Longford", 19))));
    assert!(matches!(state, Pipeline::Finished));
    match action {
        Action::Finish(result) => {
            let lines = result.unwrap();
            assert_eq!(lines.len(), 2);
            assert_eq!(
                lines[0],
                "The weather today in London will have a high of 21°C and low of 0°C, currently sitting at 0°C with Clear",
            );
            assert_eq!(
                lines[1],
                "The weather today in Longford will have a high of 19°C and low of 0°C, currently sitting at 0°C with Clear",
            );
        },
        _ => panic!("after the last fetch the run must finish"),
    }
}

#[test]
fn failed_resolution_finishes_the_run_with_that_failure() {
    let (state, _action) = start("san");
    let failure = FetchError { message: "name resolution failed".to_string() };
    let (state, action) = step(state, Event::Resolved(Err(failure)));
    assert!(matches!(state, Pipeline::Finished));
    match action {
        Action::Finish(Err(RunError::Fetch(e))) => {
            assert_eq!(e.message, "name resolution failed")
        },
        _ => panic!("a failed resolution must fail the run"),
    }
}

#[test]
fn failed_fetch_finishes_the_run_at_once() {
    let (state, _action) = start("lon");
    let locations = vec![place("London", 44418), place("Longford", 560)];
    let (state, _action) = step(state, Event::Resolved(Ok(locations)));
    let failure = FetchError { message: "timed out".to_string() };
    let (state, action) = step(state, Event::Fetched(Err(failure)));
    assert!(matches!(state, Pipeline::Finished));
    match action {
        Action::Finish(Err(RunError::Fetch(e))) => assert_eq!(e.message, "timed out"),
        _ => panic!("a failed fetch must fail the run without partial output"),
    }
}

#[test]
fn report_without_forecasts_fails_the_run_at_rendering() {
    let (state, _action) = start("san");
    let (state, _action) = step(state, Event::Resolved(Ok(vec![place("San Diego", 2487889)])));
    let (state, action) = step(state, Event::Fetched(Ok(report_without_forecasts("San Diego"))));
    assert!(matches!(state, Pipeline::Finished));
    match action {
        Action::Finish(Err(RunError::Render(e))) => assert_eq!(e, RenderError::EmptyForecast),
        _ => panic!("an unrenderable report must fail the run"),
    }
}
