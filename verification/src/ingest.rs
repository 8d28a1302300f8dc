use crate::error::{report_view, ScrapeError, ScrapeErrorView};
use crate::models::{NewTakeoff, NewTakeoffView};
use crate::record::{
    advance_of, answers, fresh, lemma_advance_makes_progress, pending, steps_left, Action,
    ActionView, CandidateRecord, Event, EventView, RecordView, Step, StepView,
};
use vstd::prelude::*;

verus! {

/// The counts of a finished run.
#[derive(Clone, Copy, Debug, PartialEq, Eq, Structural)]
pub struct Summary {
    /// How many addresses the run was given.
    pub novel: usize,
    /// How many of them gave a record that the store accepted.
    pub ingested: usize,
    /// How many of them failed.
    pub failed: usize,
}

/// What the run waits for.
#[derive(Clone, Debug, PartialEq, Eq)]
pub enum Phase {
    /// For the browser session to open.
    Opening,
    /// For the browser session, while the record of the current address is
    /// built.
    Scraping(CandidateRecord),
    /// For the store, which was handed the record of the current address.
    Storing,
}

/// The mathematical content of a [`Phase`].
pub enum PhaseView {
    Opening,
    Scraping(RecordView),
    Storing,
}

impl View for Phase {
    type V = PhaseView;

    open spec fn view(&self) -> PhaseView {
        match self {
            Phase::Opening => PhaseView::Opening,
            Phase::Scraping(record) => PhaseView::Scraping(record@),
            Phase::Storing => PhaseView::Storing,
        }
    }
}

/// What happened outside since the last command.
#[derive(Clone, Debug, PartialEq, Eq)]
pub enum Signal {
    /// The browser session was asked for; `true` if it is open.
    SessionOpened(bool),
    /// The browser session answered an action.
    Browser(Event),
    /// The store was handed a record; `true` if it accepted it.
    Inserted(bool),
}

/// The mathematical content of a [`Signal`].
pub enum SignalView {
    SessionOpened(bool),
    Browser(EventView),
    Inserted(bool),
}

impl View for Signal {
    type V = SignalView;

    open spec fn view(&self) -> SignalView {
        match self {
            Signal::SessionOpened(open) => SignalView::SessionOpened(*open),
            Signal::Browser(event) => SignalView::Browser(event@),
            Signal::Inserted(accepted) => SignalView::Inserted(*accepted),
        }
    }
}

/// What is to be done outside next.
#[derive(Clone, Debug, PartialEq, Eq)]
pub enum Command {
    /// Open the browser session; answered by [`Signal::SessionOpened`].
    OpenSession,
    /// Perform the action in the browser session; answered by
    /// [`Signal::Browser`].
    Browser(Action),
    /// Hand the record to the store; answered by [`Signal::Inserted`].
    Insert(NewTakeoff),
    /// Nothing: the signal was not the answer to the last command, which is
    /// still owed.
    Await,
}

/// The mathematical content of a [`Command`].
pub enum CommandView {
    OpenSession,
    Browser(ActionView),
    Insert(NewTakeoffView),
    Await,
}

impl View for Command {
    type V = CommandView;

    open spec fn view(&self) -> CommandView {
        match self {
            Command::OpenSession => CommandView::OpenSession,
            Command::Browser(action) => CommandView::Browser(action@),
            Command::Insert(takeoff) => CommandView::Insert(takeoff@),
            Command::Await => CommandView::Await,
        }
    }
}

/// A run over a list of addresses: each address is scraped and its record
/// stored before the next one is touched.
#[derive(Debug, PartialEq, Eq)]
pub struct Ingestion {
    urls: Vec<String>,
    cursor: usize,
    phase: Phase,
    ingested: usize,
    failed: usize,
}

/// The mathematical content of an [`Ingestion`].
pub struct IngestionView {
    /// The addresses to work through, in order.
    pub urls: Seq<Seq<char>>,
    /// How many addresses are done with; the current one is at this index.
    pub cursor: nat,
    pub phase: PhaseView,
    /// How many records the store accepted.
    pub ingested: nat,
    /// How many addresses failed.
    pub failed: nat,
}

impl View for Ingestion {
    type V = IngestionView;

    closed spec fn view(&self) -> IngestionView {
        IngestionView {
            urls: self.urls.deep_view(),
            cursor: self.cursor as nat,
            phase: self.phase@,
            ingested: self.ingested as nat,
            failed: self.failed as nat,
        }
    }
}

/// How a run goes on after a signal.
#[derive(Debug, PartialEq, Eq)]
pub enum Next {
    /// Perform `command` and hand its answer to [`Ingestion::advance`] of
    /// `ingestion`.
    Continue { ingestion: Ingestion, command: Command },
    /// Every address was dealt with.
    Done(Summary),
    /// The run cannot take place.
    Aborted(ScrapeError),
}

/// The mathematical content of a [`Next`].
pub enum NextView {
    Continue { ingestion: IngestionView, command: CommandView },
    Done(Summary),
    Aborted(ScrapeErrorView),
}

impl View for Next {
    type V = NextView;

    open spec fn view(&self) -> NextView {
        match self {
            Next::Continue { ingestion, command } => NextView::Continue {
                ingestion: ingestion@,
                command: command@,
            },
            Next::Done(summary) => NextView::Done(*summary),
            Next::Aborted(error) => NextView::Aborted(error@),
        }
    }
}

/// One step of a run: the failure to be logged, if the step ended an
/// address in failure, and how the run goes on.
#[derive(Debug, PartialEq, Eq)]
pub struct Turn {
    pub report: Option<ScrapeError>,
    pub next: Next,
}

/// The mathematical content of a [`Turn`].
pub struct TurnView {
    pub report: Option<ScrapeErrorView>,
    pub next: NextView,
}

impl View for Turn {
    type V = TurnView;

    open spec fn view(&self) -> TurnView {
        TurnView {
            report: report_view(self.report),
            next: self.next@,
        }
    }
}

impl IngestionView {
    /// Whether the counts and the phase fit the cursor: every address before
    /// the cursor was either stored or failed, and while an address is
    /// worked on, it is the one at the cursor.
    pub open spec fn wf(self) -> bool {
        &&& self.urls.len() <= usize::MAX
        &&& self.cursor <= self.urls.len()
        &&& self.ingested + self.failed == self.cursor
        &&& match self.phase {
            PhaseView::Opening => self.cursor == 0,
            PhaseView::Scraping(record) => self.cursor < self.urls.len() && record.url
                == self.urls[self.cursor as int],
            PhaseView::Storing => self.cursor < self.urls.len(),
        }
    }

    /// The counts of the run so far.
    pub open spec fn summary(self) -> Summary {
        Summary {
            novel: self.urls.len() as usize,
            ingested: self.ingested as usize,
            failed: self.failed as usize,
        }
    }

    /// The run after the current address gave a stored record.
    pub open spec fn stored(self) -> IngestionView {
        IngestionView { cursor: self.cursor + 1, ingested: self.ingested + 1, ..self }
    }

    /// The run after the current address failed.
    pub open spec fn skipped(self) -> IngestionView {
        IngestionView { cursor: self.cursor + 1, failed: self.failed + 1, ..self }
    }
}

/// A run over `urls` that has not begun.
pub open spec fn started(urls: Seq<Seq<char>>) -> IngestionView {
    IngestionView { urls, cursor: 0, phase: PhaseView::Opening, ingested: 0, failed: 0 }
}

/// The run `run` turns to the address at its cursor and begins its record
/// with the first action; with no address left, the run is done. `report`
/// is the failure that ended the address before, if it failed.
pub open spec fn enter(run: IngestionView, report: Option<ScrapeErrorView>) -> TurnView {
    if run.cursor < run.urls.len() {
        let record = fresh(run.urls[run.cursor as int]);
        TurnView {
            report,
            next: NextView::Continue {
                ingestion: IngestionView { phase: PhaseView::Scraping(record), ..run },
                command: CommandView::Browser(pending(record)),
            },
        }
    } else {
        TurnView { report, next: NextView::Done(run.summary()) }
    }
}

/// The step that the run takes on `signal`.
///
/// A session that did not open ends the run before any address is touched.
/// While a record is built, the answers of the browser session drive it: a
/// finished record is handed to the store at once, and a failed one is
/// reported and the next address entered. An accepted record counts as
/// ingested; a refused one is reported as a failure of its address. Either
/// way the next address is entered. A signal that does not answer the last
/// command changes nothing.
pub open spec fn ingest_of(run: IngestionView, signal: SignalView) -> TurnView {
    match (run.phase, signal) {
        (PhaseView::Opening, SignalView::SessionOpened(open)) => if open {
            enter(run, None)
        } else {
            TurnView { report: None, next: NextView::Aborted(ScrapeErrorView::Session) }
        },
        (PhaseView::Scraping(record), SignalView::Browser(event)) => match advance_of(
            record,
            event,
        ) {
            StepView::Continue { record: next, action } => TurnView {
                report: None,
                next: NextView::Continue {
                    ingestion: IngestionView { phase: PhaseView::Scraping(next), ..run },
                    command: CommandView::Browser(action),
                },
            },
            StepView::Built(takeoff) => TurnView {
                report: None,
                next: NextView::Continue {
                    ingestion: IngestionView { phase: PhaseView::Storing, ..run },
                    command: CommandView::Insert(takeoff),
                },
            },
            StepView::Failed(error) => enter(run.skipped(), Some(error)),
        },
        (PhaseView::Storing, SignalView::Inserted(accepted)) => if accepted {
            enter(run.stored(), None)
        } else {
            enter(
                run.skipped(),
                Some(ScrapeErrorView::Sink { url: run.urls[run.cursor as int] }),
            )
        },
        _ => TurnView {
            report: None,
            next: NextView::Continue { ingestion: run, command: CommandView::Await },
        },
    }
}

/// A run that has not begun is well-formed, and a step keeps it so. The
/// addresses stay as they are and the cursor never moves back: it stays, or
/// moves on by one. A record is handed to the store only when its
/// address, the one at the cursor, has just been scraped, and that address
/// is the source of the record; while the store is waited for, nothing more
/// is handed to it, and its answer moves the cursor on. A failure is
/// reported exactly when an address is left in failure, and the report
/// names that address. At the end, every address was either ingested or
/// failed.
pub proof fn lemma_turn_in_order(run: IngestionView, signal: SignalView)
    requires
        run.wf(),
    ensures
        run.urls.len() <= usize::MAX ==> started(run.urls).wf(),
        ingest_of(run, signal).report matches Some(error) ==> {
            &&& run.cursor < run.urls.len()
            &&& error.address() == Some(run.urls[run.cursor as int])
        },
        ingest_of(run, signal).next matches NextView::Continue { ingestion, command } ==> {
            &&& ingestion.wf()
            &&& ingestion.urls == run.urls
            &&& ingestion.cursor == run.cursor || ingestion.cursor == run.cursor + 1
            &&& ingestion.failed == run.failed + (if ingest_of(run, signal).report is Some {
                1nat
            } else {
                0nat
            })
            &&& command matches CommandView::Insert(takeoff) ==> {
                &&& run.phase is Scraping
                &&& ingestion.phase is Storing
                &&& ingestion.cursor == run.cursor
                &&& takeoff.source_url == Some(run.urls[run.cursor as int])
            }
            &&& run.phase is Storing && signal is Inserted ==> ingestion.cursor == run.cursor + 1
        },
        ingest_of(run, signal).next matches NextView::Done(summary) ==> {
            &&& summary.novel == run.urls.len()
            &&& summary.ingested + summary.failed == summary.novel
            &&& summary.failed == run.failed + (if ingest_of(run, signal).report is Some {
                1nat
            } else {
                0nat
            })
        },
        ingest_of(run, signal).next matches NextView::Aborted(error) ==> {
            &&& run.cursor == 0
            &&& error == ScrapeErrorView::Session
        },
{
}

/// Whether `signal` is an answer to the command that `run` waits on.
pub open spec fn is_answer(run: IngestionView, signal: SignalView) -> bool {
    match (run.phase, signal) {
        (PhaseView::Opening, SignalView::SessionOpened(open)) => true,
        (PhaseView::Scraping(record), SignalView::Browser(event)) => answers(record, event),
        (PhaseView::Storing, SignalView::Inserted(accepted)) => true,
        _ => false,
    }
}

/// The greatest number of answers that `run` can still take before it
/// ends.
pub open spec fn answers_left(run: IngestionView) -> nat {
    let later = 16 * (run.urls.len() - run.cursor);
    (match run.phase {
        PhaseView::Opening => later + 1,
        PhaseView::Scraping(record) => later - 15 + steps_left(record),
        PhaseView::Storing => later - 15,
    }) as nat
}

/// A run that is answered comes to its end: every answer either ends the
/// run or leaves fewer answers to take than before, and a run over `n`
/// addresses takes no more than `16 * n + 1` of them. A signal that is no
/// answer leaves the run as it is.
pub proof fn lemma_turn_makes_progress(run: IngestionView, signal: SignalView)
    requires
        run.wf(),
    ensures
        answers_left(started(run.urls)) == 16 * run.urls.len() + 1,
        answers_left(run) <= 16 * run.urls.len() + 1,
        is_answer(run, signal) ==> (ingest_of(run, signal).next matches NextView::Continue {
            ingestion,
            command,
        } ==> answers_left(ingestion) < answers_left(run)),
        !is_answer(run, signal) ==> (ingest_of(run, signal).next matches NextView::Continue {
            ingestion,
            command,
        } && ingestion == run),
{
    if let PhaseView::Scraping(record) = run.phase {
        if let SignalView::Browser(event) = signal {
            lemma_advance_makes_progress(record, event);
        }
    }
}

/// Scrape takeoffs and save them to the database.
///
/// Prepares a run over `urls`. The first command is to open the browser
/// session; the answer to each command is handed to
/// [`Ingestion::advance`], until the run is done or aborted. The run is
/// aborted only if the session does not open: every other failure is
/// reported and ends the work on one address only.
pub fn try_scrape_all(urls: Vec<String>) -> (turn: Turn)
    ensures
        turn@ == (TurnView {
            report: None,
            next: NextView::Continue {
                ingestion: started(urls.deep_view()),
                command: CommandView::OpenSession,
            },
        }),
{
    Turn {
        report: None,
        next: Next::Continue { ingestion: Ingestion::new(urls), command: Command::OpenSession },
    }
}

/// The run over `urls` after the signals `signals` were answered one after
/// the other, or `None` if the run ended before the last of them.
pub open spec fn run_after(urls: Seq<Seq<char>>, signals: Seq<SignalView>) -> Option<IngestionView>
    decreases signals.len(),
{
    if signals.len() == 0 {
        Some(started(urls))
    } else {
        match run_after(urls, signals.drop_last()) {
            Some(run) => match ingest_of(run, signals.last()).next {
                NextView::Continue { ingestion, command } => Some(ingestion),
                _ => None,
            },
            None => None,
        }
    }
}

/// The records that the run over `urls` handed to the store while the
/// signals `signals` were answered, each with the index of the address at
/// which it was handed over, in the order in which that happened.
pub open spec fn handed_over(urls: Seq<Seq<char>>, signals: Seq<SignalView>) -> Seq<
    (nat, NewTakeoffView),
>
    decreases signals.len(),
{
    if signals.len() == 0 {
        Seq::empty()
    } else {
        let before = handed_over(urls, signals.drop_last());
        match run_after(urls, signals.drop_last()) {
            Some(run) => match ingest_of(run, signals.last()).next {
                NextView::Continue { ingestion, command: CommandView::Insert(takeoff) } => before.push(
                    (run.cursor, takeoff),
                ),
                _ => before,
            },
            None => before,
        }
    }
}

/// Whatever the signals, the store is handed at most one record for each
/// address, and in the order of the addresses: the indices at which records
/// are handed over increase strictly. Each record has the address at its
/// index as its source.
pub proof fn lemma_one_record_per_address(urls: Seq<Seq<char>>, signals: Seq<SignalView>)
    requires
        urls.len() <= usize::MAX,
    ensures
        forall|i: int, j: int|
            0 <= i < j < handed_over(urls, signals).len() ==> (#[trigger] handed_over(
                urls,
                signals,
            )[i]).0 < (#[trigger] handed_over(urls, signals)[j]).0,
        forall|i: int|
            0 <= i < handed_over(urls, signals).len() ==> {
                let (index, takeoff) = #[trigger] handed_over(urls, signals)[i];
                index < urls.len() && takeoff.source_url == Some(urls[index as int])
            },
{
    lemma_handed_over(urls, signals);
}

/// The induction behind [`lemma_one_record_per_address`]: the run stays
/// well-formed, no record was handed over for an address after the cursor,
/// and one was handed over for the address at the cursor only if the store
/// is waited for.
proof fn lemma_handed_over(urls: Seq<Seq<char>>, signals: Seq<SignalView>)
    requires
        urls.len() <= usize::MAX,
    ensures
        run_after(urls, signals) matches Some(run) ==> {
            &&& run.wf()
            &&& run.urls == urls
            &&& forall|i: int|
                0 <= i < handed_over(urls, signals).len() ==> (#[trigger] handed_over(
                    urls,
                    signals,
                )[i]).0 <= run.cursor
            &&& !(run.phase is Storing) ==> forall|i: int|
                0 <= i < handed_over(urls, signals).len() ==> (#[trigger] handed_over(
                    urls,
                    signals,
                )[i]).0 < run.cursor
        },
        forall|i: int, j: int|
            0 <= i < j < handed_over(urls, signals).len() ==> (#[trigger] handed_over(
                urls,
                signals,
            )[i]).0 < (#[trigger] handed_over(urls, signals)[j]).0,
        forall|i: int|
            0 <= i < handed_over(urls, signals).len() ==> {
                let (index, takeoff) = #[trigger] handed_over(urls, signals)[i];
                index < urls.len() && takeoff.source_url == Some(urls[index as int])
            },
    decreases signals.len(),
{
    if signals.len() > 0 {
        let earlier = signals.drop_last();
        lemma_handed_over(urls, earlier);
        if let Some(run) = run_after(urls, earlier) {
            lemma_turn_in_order(run, signals.last());
        }
    }
}

impl Ingestion {
    #[verifier::type_invariant]
    spec fn valid(self) -> bool {
        self@.wf()
    }

    fn new(urls: Vec<String>) -> (ingestion: Ingestion)
        ensures
            ingestion@ == started(urls.deep_view()),
    {
        assert(urls.deep_view().len() == urls.len());
        Ingestion { urls, cursor: 0, phase: Phase::Opening, ingested: 0, failed: 0 }
    }

    /// The counts of the run so far.
    pub fn summary(&self) -> (summary: Summary)
        ensures
            summary == self@.summary(),
    {
        Summary { novel: self.urls.len(), ingested: self.ingested, failed: self.failed }
    }

    fn enter(self, report: Option<ScrapeError>) -> (turn: Turn)
        ensures
            turn@ == enter(self@, report_view(report)),
    {
        proof {
            use_type_invariant(&self);
        }
        if self.cursor < self.urls.len() {
            let record = CandidateRecord::new(self.urls[self.cursor].clone());
            let action = record.pending_action();
            let ingestion = Ingestion { phase: Phase::Scraping(record), ..self };
            Turn { report, next: Next::Continue { ingestion, command: Command::Browser(action) } }
        } else {
            Turn { report, next: Next::Done(self.summary()) }
        }
    }

    /// Leaves the current address, stored or failed, and enters the next.
    fn leave(self, accepted: bool, report: Option<ScrapeError>) -> (turn: Turn)
        requires
            self@.cursor < self@.urls.len(),
        ensures
            turn@ == enter(
                if accepted {
                    self@.stored()
                } else {
                    self@.skipped()
                },
                report_view(report),
            ),
    {
        proof {
            use_type_invariant(&self);
        }
        let cursor = self.cursor + 1;
        let ingested = if accepted {
            self.ingested + 1
        } else {
            self.ingested
        };
        let failed = if accepted {
            self.failed
        } else {
            self.failed + 1
        };
        if cursor < self.urls.len() {
            let record = CandidateRecord::new(self.urls[cursor].clone());
            let action = record.pending_action();
            let ingestion = Ingestion {
                urls: self.urls,
                cursor,
                phase: Phase::Scraping(record),
                ingested,
                failed,
            };
            Turn { report, next: Next::Continue { ingestion, command: Command::Browser(action) } }
        } else {
            Turn { report, next: Next::Done(Summary { novel: self.urls.len(), ingested, failed }) }
        }
    }

    /// Takes one step of the run: `signal` is the answer to the last
    /// command.
    pub fn advance(self, signal: Signal) -> (turn: Turn)
        ensures
            turn@ == ingest_of(self@, signal@),
    {
        proof {
            use_type_invariant(&self);
        }
        match self.phase {
            Phase::Opening => match signal {
                Signal::SessionOpened(open) => {
                    if open {
                        Ingestion { phase: Phase::Opening, ..self }.enter(None)
                    } else {
                        Turn { report: None, next: Next::Aborted(ScrapeError::Session) }
                    }
                },
                _ => Turn {
                    report: None,
                    next: Next::Continue {
                        ingestion: Ingestion { phase: Phase::Opening, ..self },
                        command: Command::Await,
                    },
                },
            },
            Phase::Scraping(record) => match signal {
                Signal::Browser(event) => match record.advance(event) {
                    Step::Continue { record: next, action } => Turn {
                        report: None,
                        next: Next::Continue {
                            ingestion: Ingestion { phase: Phase::Scraping(next), ..self },
                            command: Command::Browser(action),
                        },
                    },
                    Step::Built(takeoff) => Turn {
                        report: None,
                        next: Next::Continue {
                            ingestion: Ingestion { phase: Phase::Storing, ..self },
                            command: Command::Insert(takeoff),
                        },
                    },
                    Step::Failed(error) => Ingestion { phase: Phase::Storing, ..self }.leave(
                        false,
                        Some(error),
                    ),
                },
                _ => Turn {
                    report: None,
                    next: Next::Continue {
                        ingestion: Ingestion { phase: Phase::Scraping(record), ..self },
                        command: Command::Await,
                    },
                },
            },
            Phase::Storing => match signal {
                Signal::Inserted(accepted) => {
                    if accepted {
                        Ingestion { phase: Phase::Storing, ..self }.leave(true, None)
                    } else {
                        let url = self.urls[self.cursor].clone();
                        Ingestion { phase: Phase::Storing, ..self }.leave(
                            false,
                            Some(ScrapeError::Sink { url }),
                        )
                    }
                },
                _ => Turn {
                    report: None,
                    next: Next::Continue {
                        ingestion: Ingestion { phase: Phase::Storing, ..self },
                        command: Command::Await,
                    },
                },
            },
        }
    }
}

} // verus!
