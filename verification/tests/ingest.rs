use scraper::error::{Field, ParseError, ScrapeError};
use scraper::ingest::{try_scrape_all, Command, Next, Signal, Summary, Turn};
use scraper::parse_kml::get_missing_urls;
use scraper::record::{Action, Event, Outcome};

fn found(text: &str) -> Signal {
    Signal::Browser(Event::Text(Outcome::Found(text.to_string())))
}

/// The answers of the browser session for a page on which everything is
/// present.
fn full_page() -> Vec<Signal> {
    vec![
        Signal::Browser(Event::Settled),
        Signal::Browser(Event::Navigated(true)),
        Signal::Browser(Event::Settled),
        found("Voss"),
        found("A grassy takeoff."),
        found("Hordaland"),
        found("790 meters asl Top to bottom 740 meters"),
        found("N 60° 38' 44''  E 6° 24' 28''"),
        found("created 2004"),
        found("updated 2011"),
        Signal::Browser(Event::Text(Outcome::Absent)),
        Signal::Browser(Event::Text(Outcome::Absent)),
        Signal::Browser(Event::Text(Outcome::Absent)),
    ]
}

/// What a run did, as seen from outside.
#[derive(Debug, Default, PartialEq)]
struct Log {
    navigated: Vec<String>,
    inserted: Vec<Option<String>>,
    reported: Vec<ScrapeError>,
    awaited: usize,
    end: Option<Result<Summary, ScrapeError>>,
}

/// Runs over `urls`, answering each command with the next of `signals`.
fn run(urls: Vec<String>, signals: Vec<Signal>) -> Log {
    let mut log = Log::default();
    let mut turn = try_scrape_all(urls);
    let mut signals = signals.into_iter();
    loop {
        let Turn { report, next } = turn;
        if let Some(error) = report {
            log.reported.push(error);
        }
        let ingestion = match next {
            Next::Continue { ingestion, command } => {
                match command {
                    Command::Insert(takeoff) => log.inserted.push(takeoff.source_url),
                    Command::Browser(Action::Navigate { url }) => log.navigated.push(url),
                    Command::Await => log.awaited += 1,
                    _ => {}
                }
                ingestion
            }
            Next::Done(summary) => {
                log.end = Some(Ok(summary));
                break;
            }
            Next::Aborted(error) => {
                log.end = Some(Err(error));
                break;
            }
        };
        match signals.next() {
            Some(signal) => turn = ingestion.advance(signal),
            None => break,
        }
    }
    assert!(signals.next().is_none(), "the run ended before the last signal");
    log
}

#[test]
fn one_record_stored_and_one_failure_logged() {
    let markup = "&quot;https://flightlog.org/fl.html?l=1&amp;amp;start_id=1&quot;&gt;\n\
        &quot;https://flightlog.org/fl.html?l=1&amp;amp;start_id=2&quot;&gt;\n\
        &quot;https://flightlog.org/fl.html?l=1&amp;amp;start_id=3&quot;&gt;\n";
    let known = vec!["https://flightlog.org/fl.html?l=1&start_id=2".to_string()];
    let urls = get_missing_urls(markup, &known).unwrap();
    let a = "https://flightlog.org/fl.html?l=1&start_id=1".to_string();
    let b = "https://flightlog.org/fl.html?l=1&start_id=3".to_string();
    assert_eq!(urls, vec![a.clone(), b.clone()]);

    let mut signals = vec![Signal::SessionOpened(true)];
    signals.extend(full_page());
    signals.push(Signal::Inserted(true));
    // The second page lacks the coordinates.
    let mut second = full_page();
    second.truncate(7);
    second.push(Signal::Browser(Event::Text(Outcome::Absent)));
    signals.extend(second);

    let log = run(urls, signals);
    assert_eq!(log.inserted, vec![Some(a.clone())]);
    assert_eq!(
        log.reported,
        vec![ScrapeError::IncompleteRecord { url: b.clone(), field: Field::Coordinates }]
    );
    assert_eq!(log.navigated, vec![a, b]);
    assert_eq!(log.end, Some(Ok(Summary { novel: 2, ingested: 1, failed: 1 })));
}

#[test]
fn a_session_that_does_not_open_ends_the_run() {
    let log = run(vec!["u".to_string()], vec![Signal::SessionOpened(false)]);
    assert_eq!(log.end, Some(Err(ScrapeError::Session)));
    assert!(log.navigated.is_empty() && log.inserted.is_empty() && log.reported.is_empty());
}

#[test]
fn the_first_command_opens_the_session() {
    match try_scrape_all(vec!["u".to_string()]) {
        Turn { report: None, next: Next::Continue { ingestion, command } } => {
            assert_eq!(command, Command::OpenSession);
            assert_eq!(ingestion.summary(), Summary { novel: 1, ingested: 0, failed: 0 });
        }
        other => panic!("unexpected turn {other:?}"),
    }
}

#[test]
fn a_run_over_nothing_is_done_at_once() {
    let log = run(Vec::new(), vec![Signal::SessionOpened(true)]);
    assert_eq!(log.end, Some(Ok(Summary { novel: 0, ingested: 0, failed: 0 })));
}

#[test]
fn a_record_that_the_store_refuses_is_a_failure_of_its_address() {
    let mut signals = vec![Signal::SessionOpened(true)];
    signals.extend(full_page());
    signals.push(Signal::Inserted(false));
    signals.extend(full_page());
    signals.push(Signal::Inserted(true));
    let log = run(vec!["first".to_string(), "second".to_string()], signals);
    assert_eq!(log.inserted, vec![Some("first".to_string()), Some("second".to_string())]);
    assert_eq!(log.reported, vec![ScrapeError::Sink { url: "first".to_string() }]);
    assert_eq!(log.end, Some(Ok(Summary { novel: 2, ingested: 1, failed: 1 })));
}

#[test]
fn a_failure_does_not_stop_the_run() {
    let mut signals = vec![
        Signal::SessionOpened(true),
        Signal::Browser(Event::Settled),
        Signal::Browser(Event::Navigated(false)),
    ];
    signals.extend(full_page());
    signals.push(Signal::Inserted(true));
    signals.extend(vec![
        Signal::Browser(Event::Settled),
        Signal::Browser(Event::Navigated(true)),
        Signal::Browser(Event::Settled),
        Signal::Browser(Event::Text(Outcome::Unreadable)),
    ]);
    let urls = vec!["one".to_string(), "two".to_string(), "three".to_string()];
    let log = run(urls, signals);
    assert_eq!(log.navigated, vec!["one", "two", "three"]);
    assert_eq!(log.inserted, vec![Some("two".to_string())]);
    assert_eq!(
        log.reported,
        vec![
            ScrapeError::Navigation { url: "one".to_string() },
            ScrapeError::Read { url: "three".to_string(), field: Field::Name },
        ]
    );
    assert_eq!(log.end, Some(Ok(Summary { novel: 3, ingested: 1, failed: 2 })));
}

#[test]
fn a_signal_that_answers_nothing_changes_nothing() {
    let mut signals = vec![
        Signal::Inserted(true),
        Signal::Browser(Event::Settled),
        Signal::SessionOpened(true),
        Signal::Inserted(true),
        Signal::SessionOpened(true),
    ];
    signals.extend(full_page());
    signals.push(Signal::Browser(Event::Settled));
    signals.push(Signal::SessionOpened(false));
    signals.push(Signal::Inserted(true));
    let log = run(vec!["only".to_string()], signals);
    assert_eq!(log.awaited, 6);
    assert_eq!(log.inserted, vec![Some("only".to_string())]);
    assert_eq!(log.end, Some(Ok(Summary { novel: 1, ingested: 1, failed: 0 })));
}

#[test]
fn a_run_that_is_answered_ends() {
    // The longest way through a page: the image is there and is captured.
    let mut page = full_page();
    page[10] = found("https://flightlog.org/image");
    page.insert(11, Signal::Browser(Event::Image(Outcome::Found(vec![1, 2, 3]))));
    assert_eq!(page.len(), 14);
    let urls: Vec<String> = (0..3).map(|i| format!("url-{i}")).collect();
    let mut signals = vec![Signal::SessionOpened(true)];
    for _ in 0..urls.len() {
        signals.extend(page.clone());
        signals.push(Signal::Inserted(true));
    }
    assert!(signals.len() <= 16 * urls.len() + 1);
    let log = run(urls.clone(), signals);
    assert_eq!(log.inserted, urls.into_iter().map(Some).collect::<Vec<_>>());
    assert_eq!(log.end, Some(Ok(Summary { novel: 3, ingested: 3, failed: 0 })));
}

#[test]
fn every_report_names_the_address_that_failed() {
    let mut signals = vec![Signal::SessionOpened(true)];
    let mut bad_altitude = full_page();
    bad_altitude[6] = found("99999999999 meters");
    signals.extend(bad_altitude);
    let mut bad_coordinates = full_page();
    bad_coordinates[7] = found("N 60 E 6");
    signals.extend(bad_coordinates);
    let urls = vec!["first".to_string(), "second".to_string()];
    let log = run(urls, signals);
    assert_eq!(
        log.reported,
        vec![
            ScrapeError::Parse {
                url: "first".to_string(),
                field: Field::Altitude,
                cause: ParseError::Format,
            },
            ScrapeError::Parse {
                url: "second".to_string(),
                field: Field::Coordinates,
                cause: ParseError::Format,
            },
        ]
    );
    let named: Vec<Option<&String>> = log.reported.iter().map(|e| e.address()).collect();
    assert_eq!(named, vec![Some(&"first".to_string()), Some(&"second".to_string())]);
    assert!(log.inserted.is_empty());
    assert_eq!(log.end, Some(Ok(Summary { novel: 2, ingested: 0, failed: 2 })));
}
