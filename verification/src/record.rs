use crate::error::{Field, ParseError, ScrapeError, ScrapeErrorView};
use crate::models::{Degrees, NewTakeoff, NewTakeoffView};
use crate::page::{lookup, lookup_of, Lookup, LookupView};
use crate::parsers::{altitude_in, dms_to_dec, extract_altitude_info, position_in, wind_directions};
use crate::text::words;
use vstd::prelude::*;

verus! {

/// Seconds to wait before a page is requested.
pub const PAGE_BEFORE_DELAY: u64 = 2;

/// Seconds to wait after a page was requested, before anything is read
/// from it.
pub const PAGE_SCRAPE_DELAY: u64 = 2;

/// What came of looking for one field on the page.
#[derive(Clone, Debug, PartialEq, Eq)]
pub enum Outcome<T> {
    /// The element was found and read.
    Found(T),
    /// There is no such element, or it lacks what was to be read.
    Absent,
    /// The element was found, but reading it failed.
    Unreadable,
}

impl<T: DeepView> DeepView for Outcome<T> {
    type V = Outcome<T::V>;

    open spec fn deep_view(&self) -> Outcome<T::V> {
        match self {
            Outcome::Found(value) => Outcome::Found(value.deep_view()),
            Outcome::Absent => Outcome::Absent,
            Outcome::Unreadable => Outcome::Unreadable,
        }
    }
}

/// What the browser session reports back after an [`Action`].
#[derive(Clone, Debug, PartialEq, Eq)]
pub enum Event {
    /// The wait is over.
    Settled,
    /// The page was requested; `true` if it loaded.
    Navigated(bool),
    /// A text or an attribute was looked for.
    Text(Outcome<String>),
    /// An image was to be captured.
    Image(Outcome<Vec<u8>>),
}

/// The mathematical content of an [`Event`].
pub enum EventView {
    Settled,
    Navigated(bool),
    Text(Outcome<Seq<char>>),
    Image(Outcome<Seq<u8>>),
}

impl View for Event {
    type V = EventView;

    open spec fn view(&self) -> EventView {
        match self {
            Event::Settled => EventView::Settled,
            Event::Navigated(loaded) => EventView::Navigated(*loaded),
            Event::Text(outcome) => EventView::Text(outcome.deep_view()),
            Event::Image(outcome) => EventView::Image(outcome.deep_view()),
        }
    }
}

/// What the browser session is asked to do next.
#[derive(Clone, Debug, PartialEq, Eq)]
pub enum Action {
    /// Wait for `seconds` seconds; answered by [`Event::Settled`].
    Settle { seconds: u64 },
    /// Load the page at `url`; answered by [`Event::Navigated`].
    Navigate { url: String },
    /// Look for `field` as `lookup` says; answered by [`Event::Text`].
    Read { field: Field, lookup: Lookup },
    /// Open `url` in a new tab, capture the first image there and close the
    /// tab; answered by [`Event::Image`].
    Capture { url: String },
}

/// The mathematical content of an [`Action`].
pub enum ActionView {
    Settle { seconds: u64 },
    Navigate { url: Seq<char> },
    Read { field: Field, lookup: LookupView },
    Capture { url: Seq<char> },
}

impl View for Action {
    type V = ActionView;

    open spec fn view(&self) -> ActionView {
        match self {
            Action::Settle { seconds } => ActionView::Settle { seconds: *seconds },
            Action::Navigate { url } => ActionView::Navigate { url: url@ },
            Action::Read { field, lookup } => ActionView::Read { field: *field, lookup: lookup@ },
            Action::Capture { url } => ActionView::Capture { url: url@ },
        }
    }
}

/// How far the work on one page has come.
#[derive(Clone, Debug, PartialEq, Eq)]
pub enum Stage {
    /// Waiting before the page is requested.
    Settling,
    /// The page was requested.
    Navigating,
    /// Waiting for the page to render.
    Rendering,
    /// The given field is being looked for.
    Reading(Field),
    /// The image was found to link to `source`, which is being captured.
    Capturing { source: String },
}

/// The mathematical content of a [`Stage`].
pub enum StageView {
    Settling,
    Navigating,
    Rendering,
    Reading(Field),
    Capturing { source: Seq<char> },
}

impl View for Stage {
    type V = StageView;

    open spec fn view(&self) -> StageView {
        match self {
            Stage::Settling => StageView::Settling,
            Stage::Navigating => StageView::Navigating,
            Stage::Rendering => StageView::Rendering,
            Stage::Reading(field) => StageView::Reading(*field),
            Stage::Capturing { source } => StageView::Capturing { source: source@ },
        }
    }
}

/// One takeoff while it is put together, field by field, from the page at
/// `url`. The fields are filled in a fixed order; the texts of altitude and
/// coordinates are kept as found and parsed at the end.
#[derive(Clone, Debug, PartialEq, Eq)]
pub struct CandidateRecord {
    pub url: String,
    pub stage: Stage,
    pub name: Option<String>,
    pub description: Option<String>,
    pub region: Option<String>,
    pub altitude: Option<String>,
    pub coordinates: Option<String>,
    pub created: Option<String>,
    pub updated: Option<String>,
    pub image: Option<Vec<u8>>,
    pub wind_dirs: Vec<String>,
    pub info_url: Option<String>,
}

/// The mathematical content of a [`CandidateRecord`].
pub struct RecordView {
    pub url: Seq<char>,
    pub stage: StageView,
    pub name: Option<Seq<char>>,
    pub description: Option<Seq<char>>,
    pub region: Option<Seq<char>>,
    pub altitude: Option<Seq<char>>,
    pub coordinates: Option<Seq<char>>,
    pub created: Option<Seq<char>>,
    pub updated: Option<Seq<char>>,
    pub image: Option<Seq<u8>>,
    pub wind_dirs: Seq<Seq<char>>,
    pub info_url: Option<Seq<char>>,
}

impl View for CandidateRecord {
    type V = RecordView;

    open spec fn view(&self) -> RecordView {
        RecordView {
            url: self.url@,
            stage: self.stage@,
            name: self.name.deep_view(),
            description: self.description.deep_view(),
            region: self.region.deep_view(),
            altitude: self.altitude.deep_view(),
            coordinates: self.coordinates.deep_view(),
            created: self.created.deep_view(),
            updated: self.updated.deep_view(),
            image: self.image.deep_view(),
            wind_dirs: self.wind_dirs.deep_view(),
            info_url: self.info_url.deep_view(),
        }
    }
}

/// The result of one step of the work on a page.
#[derive(Clone, Debug, PartialEq, Eq)]
pub enum Step {
    /// The work goes on: perform `action` and hand its answer to
    /// [`CandidateRecord::advance`] of `record`.
    Continue { record: CandidateRecord, action: Action },
    /// The record is complete.
    Built(NewTakeoff),
    /// The record is given up; nothing of it remains.
    Failed(ScrapeError),
}

/// The mathematical content of a [`Step`].
pub enum StepView {
    Continue { record: RecordView, action: ActionView },
    Built(NewTakeoffView),
    Failed(ScrapeErrorView),
}

impl View for Step {
    type V = StepView;

    open spec fn view(&self) -> StepView {
        match self {
            Step::Continue { record, action } => StepView::Continue {
                record: record@,
                action: action@,
            },
            Step::Built(takeoff) => StepView::Built(takeoff@),
            Step::Failed(error) => StepView::Failed(error@),
        }
    }
}

/// The field that is looked for after `field`, if `field` is not the last.
pub open spec fn next_field(field: Field) -> Option<Field> {
    match field {
        Field::Name => Some(Field::Description),
        Field::Description => Some(Field::Region),
        Field::Region => Some(Field::Altitude),
        Field::Altitude => Some(Field::Coordinates),
        Field::Coordinates => Some(Field::Created),
        Field::Created => Some(Field::Updated),
        Field::Updated => Some(Field::Image),
        Field::Image => Some(Field::WindDirections),
        Field::WindDirections => Some(Field::InfoUrl),
        Field::InfoUrl => None,
    }
}

/// The action that a record waits on: what its stage asks of the browser
/// session.
pub open spec fn pending(record: RecordView) -> ActionView {
    match record.stage {
        StageView::Settling => ActionView::Settle { seconds: PAGE_BEFORE_DELAY },
        StageView::Navigating => ActionView::Navigate { url: record.url },
        StageView::Rendering => ActionView::Settle { seconds: PAGE_SCRAPE_DELAY },
        StageView::Reading(field) => ActionView::Read { field, lookup: lookup_of(field) },
        StageView::Capturing { source } => ActionView::Capture { url: source },
    }
}

/// The work goes on from `record`.
pub open spec fn proceed(record: RecordView) -> StepView {
    StepView::Continue { record, action: pending(record) }
}

/// `record` at the stage `stage`.
pub open spec fn at_stage(record: RecordView, stage: StageView) -> RecordView {
    RecordView { stage, ..record }
}

/// `record` with `text` as the text of the required field `field`.
pub open spec fn with_text(record: RecordView, field: Field, text: Seq<char>) -> RecordView {
    match field {
        Field::Name => RecordView { name: Some(text), ..record },
        Field::Description => RecordView { description: Some(text), ..record },
        Field::Region => RecordView { region: Some(text), ..record },
        Field::Altitude => RecordView { altitude: Some(text), ..record },
        Field::Coordinates => RecordView { coordinates: Some(text), ..record },
        Field::Created => RecordView { created: Some(text), ..record },
        Field::Updated => RecordView { updated: Some(text), ..record },
        _ => record,
    }
}

/// The first required field that `record` still lacks.
pub open spec fn missing(record: RecordView) -> Option<Field> {
    if record.name is None {
        Some(Field::Name)
    } else if record.description is None {
        Some(Field::Description)
    } else if record.region is None {
        Some(Field::Region)
    } else if record.altitude is None {
        Some(Field::Altitude)
    } else if record.coordinates is None {
        Some(Field::Coordinates)
    } else if record.created is None {
        Some(Field::Created)
    } else if record.updated is None {
        Some(Field::Updated)
    } else {
        None
    }
}

/// The takeoff that a complete record gives, with the parsed altitude
/// figures and position. Its source is the address of the page.
pub open spec fn takeoff_of(
    record: RecordView,
    altitude: (Option<i32>, Option<i32>),
    position: (Degrees, Degrees),
) -> NewTakeoffView {
    NewTakeoffView {
        name: record.name->0,
        description: record.description->0,
        image: record.image,
        region: record.region->0,
        altitude: altitude.0,
        altitude_diff: altitude.1,
        latitude: position.0,
        longitude: position.1,
        wind_dirs: record.wind_dirs,
        info_url: record.info_url,
        source_url: Some(record.url),
        created: record.created->0,
        updated: record.updated->0,
    }
}

/// What becomes of a record once all was read, given what parsing its
/// altitude text and its coordinates text gave. A record that lacks a
/// required field is given up for that field; else an altitude that did not
/// parse, or else coordinates that did not parse, give up the record for
/// that field and that cause; else the takeoff is built.
pub open spec fn assembled(
    record: RecordView,
    altitude: Result<(Option<i32>, Option<i32>), ParseError>,
    position: Result<(Degrees, Degrees), ParseError>,
) -> StepView {
    match missing(record) {
        Some(field) => StepView::Failed(
            ScrapeErrorView::IncompleteRecord { url: record.url, field },
        ),
        None => match altitude {
            Err(cause) => StepView::Failed(
                ScrapeErrorView::Parse { url: record.url, field: Field::Altitude, cause },
            ),
            Ok(figures) => match position {
                Err(cause) => StepView::Failed(
                    ScrapeErrorView::Parse { url: record.url, field: Field::Coordinates, cause },
                ),
                Ok(place) => StepView::Built(takeoff_of(record, figures, place)),
            },
        },
    }
}

/// What becomes of a record once all was read: its altitude text and its
/// coordinates text are parsed, and the record is assembled.
pub open spec fn finished(record: RecordView) -> StepView {
    assembled(record, altitude_in(record.altitude->0), position_in(record.coordinates->0))
}

/// The step after `field` was dealt with: on to the next field, or to the
/// end after the last.
pub open spec fn after_field(record: RecordView, field: Field) -> StepView {
    match next_field(field) {
        Some(next) => proceed(at_stage(record, StageView::Reading(next))),
        None => finished(record),
    }
}

/// The step taken when a text or attribute was looked for as `field`.
///
/// A required field that was found is stored. The alternative text of the
/// wind icon is split into directions, and a missing icon gives none. The
/// link to more information is stored if there is one. A required field that
/// is absent gives up the record as incomplete, and any field that could not
/// be read gives it up with a read error.
pub open spec fn on_text(record: RecordView, field: Field, outcome: Outcome<Seq<char>>) -> StepView {
    match outcome {
        Outcome::Unreadable => StepView::Failed(
            ScrapeErrorView::Read { url: record.url, field },
        ),
        Outcome::Absent => if field.is_required() {
            StepView::Failed(ScrapeErrorView::IncompleteRecord { url: record.url, field })
        } else if field is WindDirections {
            after_field(RecordView { wind_dirs: Seq::empty(), ..record }, field)
        } else {
            after_field(RecordView { info_url: None, ..record }, field)
        },
        Outcome::Found(text) => if field.is_required() {
            after_field(with_text(record, field, text), field)
        } else if field is WindDirections {
            after_field(RecordView { wind_dirs: words(text), ..record }, field)
        } else {
            after_field(RecordView { info_url: Some(text), ..record }, field)
        },
    }
}

/// The step taken when the linked image was looked for: if the image is
/// there and its parent links to a source, the source is captured next; in
/// every other case the record goes on without an image.
pub open spec fn on_image_link(record: RecordView, outcome: Outcome<Seq<char>>) -> StepView {
    match outcome {
        Outcome::Found(source) => proceed(at_stage(record, StageView::Capturing { source })),
        _ => after_field(RecordView { image: None, ..record }, Field::Image),
    }
}

/// The step taken when the image was to be captured: it is kept if it was
/// captured, and the record goes on without it in every other case.
pub open spec fn on_image(record: RecordView, outcome: Outcome<Seq<u8>>) -> StepView {
    let image = match outcome {
        Outcome::Found(bytes) => Some(bytes),
        _ => None,
    };
    after_field(RecordView { image, ..record }, Field::Image)
}

/// The step that `record` takes on `event`.
///
/// The stages follow one another: wait, load the page, wait, then read the
/// fields in their order, with the capture of the image after its source
/// was read. A page that did not load gives up the record. An
/// event that does not answer the pending action changes nothing: the same
/// action is asked for again.
pub open spec fn advance_of(record: RecordView, event: EventView) -> StepView {
    match (record.stage, event) {
        (StageView::Settling, EventView::Settled) => proceed(
            at_stage(record, StageView::Navigating),
        ),
        (StageView::Navigating, EventView::Navigated(loaded)) => if loaded {
            proceed(at_stage(record, StageView::Rendering))
        } else {
            StepView::Failed(ScrapeErrorView::Navigation { url: record.url })
        },
        (StageView::Rendering, EventView::Settled) => proceed(
            at_stage(record, StageView::Reading(Field::Name)),
        ),
        (StageView::Reading(field), EventView::Text(outcome)) => if field is Image {
            on_image_link(record, outcome)
        } else {
            on_text(record, field, outcome)
        },
        (StageView::Capturing { source }, EventView::Image(outcome)) => on_image(record, outcome),
        _ => proceed(record),
    }
}

/// The record of a page on which no work was done yet.
pub open spec fn fresh(url: Seq<char>) -> RecordView {
    RecordView {
        url,
        stage: StageView::Settling,
        name: None,
        description: None,
        region: None,
        altitude: None,
        coordinates: None,
        created: None,
        updated: None,
        image: None,
        wind_dirs: Seq::empty(),
        info_url: None,
    }
}

impl RecordView {
    /// Whether the fields were filled in their order: while a field is
    /// looked for, the record has every required field that is read before
    /// it.
    pub open spec fn in_order(self) -> bool {
        match self.stage {
            StageView::Reading(field) => match missing(self) {
                Some(lacking) => field.rank() <= lacking.rank(),
                None => true,
            },
            StageView::Capturing { source } => missing(self) is None,
            _ => true,
        }
    }
}

/// A record that has not begun is in order, and a step keeps a record in
/// order and at its address. Whenever a record is given up, the failure
/// names the address of its page. A record in order is given up as
/// incomplete only for the field that was just looked for and found absent.
pub proof fn lemma_advance_in_order(record: RecordView, event: EventView)
    requires
        record.in_order(),
    ensures
        fresh(record.url).in_order(),
        advance_of(record, event) matches StepView::Failed(error) ==> error.address() == Some(
            record.url,
        ),
        advance_of(record, event) matches StepView::Continue { record: next, action } ==> {
            &&& next.in_order()
            &&& next.url == record.url
            &&& action == pending(next)
        },
        advance_of(record, event) matches StepView::Failed(
            ScrapeErrorView::IncompleteRecord { url, field },
        ) ==> {
            &&& url == record.url
            &&& record.stage == StageView::Reading(field)
            &&& event == EventView::Text(Outcome::<Seq<char>>::Absent)
        },
{
}

/// Whether `event` is an answer to the action that `record` waits on.
pub open spec fn answers(record: RecordView, event: EventView) -> bool {
    match (record.stage, event) {
        (StageView::Settling, EventView::Settled) => true,
        (StageView::Navigating, EventView::Navigated(loaded)) => true,
        (StageView::Rendering, EventView::Settled) => true,
        (StageView::Reading(field), EventView::Text(outcome)) => true,
        (StageView::Capturing { source }, EventView::Image(outcome)) => true,
        _ => false,
    }
}

/// The greatest number of answers that `record` can still take before its
/// work ends.
pub open spec fn steps_left(record: RecordView) -> nat {
    match record.stage {
        StageView::Settling => 14,
        StageView::Navigating => 13,
        StageView::Rendering => 12,
        StageView::Reading(field) => if field.rank() <= Field::Image.rank() {
            (11 - field.rank()) as nat
        } else {
            (10 - field.rank()) as nat
        },
        StageView::Capturing { source } => 3,
    }
}

/// Every answer brings the work on a page closer to its end: the record is
/// finished or given up, or fewer steps are left than before. An event that
/// is no answer leaves the record as it is.
pub proof fn lemma_advance_makes_progress(record: RecordView, event: EventView)
    ensures
        steps_left(record) <= 14,
        answers(record, event) ==> (advance_of(record, event) matches StepView::Continue {
            record: next,
            action,
        } ==> steps_left(next) < steps_left(record)),
        !answers(record, event) ==> advance_of(record, event) == proceed(record),
{
}

/// A takeoff is built only in the last step of a record that has every
/// required field. It holds what the record holds, its source is the
/// address of the page, and its altitude figures and position are those
/// that parsing the texts of the record gave.
pub proof fn lemma_built_from_complete(record: RecordView, event: EventView)
    ensures
        advance_of(record, event) matches StepView::Built(takeoff) ==> {
            &&& record.stage == StageView::Reading(Field::InfoUrl)
            &&& missing(record) is None
            &&& takeoff.source_url == Some(record.url)
            &&& Some(takeoff.name) == record.name
            &&& Some(takeoff.description) == record.description
            &&& Some(takeoff.region) == record.region
            &&& Some(takeoff.created) == record.created
            &&& Some(takeoff.updated) == record.updated
            &&& takeoff.image == record.image
            &&& takeoff.wind_dirs == record.wind_dirs
            &&& altitude_in(record.altitude->0) == Ok::<(Option<i32>, Option<i32>), ParseError>(
                (takeoff.altitude, takeoff.altitude_diff),
            )
            &&& position_in(record.coordinates->0) == Ok::<(Degrees, Degrees), ParseError>(
                (takeoff.latitude, takeoff.longitude),
            )
        },
{
}

/// Tells the field that is looked for after `field`.
pub fn field_after(field: Field) -> (next: Option<Field>)
    ensures
        next == next_field(field),
{
    match field {
        Field::Name => Some(Field::Description),
        Field::Description => Some(Field::Region),
        Field::Region => Some(Field::Altitude),
        Field::Altitude => Some(Field::Coordinates),
        Field::Coordinates => Some(Field::Created),
        Field::Created => Some(Field::Updated),
        Field::Updated => Some(Field::Image),
        Field::Image => Some(Field::WindDirections),
        Field::WindDirections => Some(Field::InfoUrl),
        Field::InfoUrl => None,
    }
}

/// Scrape a takeoff.
///
/// Starts the work on the page at `url`. The first action is the wait
/// before the page is requested; the answer to each action is handed to
/// [`CandidateRecord::advance`], until a step other than
/// [`Step::Continue`] ends the work.
pub fn scrape_takeoff(url: &str) -> (step: Step)
    ensures
        step@ == proceed(fresh(url@)),
{
    CandidateRecord::new(url.to_owned()).proceed()
}

impl CandidateRecord {
    /// The record of the page at `url`, before any work on it.
    pub fn new(url: String) -> (record: CandidateRecord)
        ensures
            record@ == fresh(url@),
    {
        let wind_dirs: Vec<String> = Vec::new();
        assert(wind_dirs.deep_view() =~= Seq::<Seq<char>>::empty());
        CandidateRecord {
            url,
            stage: Stage::Settling,
            name: None,
            description: None,
            region: None,
            altitude: None,
            coordinates: None,
            created: None,
            updated: None,
            image: None,
            wind_dirs,
            info_url: None,
        }
    }

    /// The action that this record waits on.
    pub fn pending_action(&self) -> (action: Action)
        ensures
            action@ == pending(self@),
    {
        match &self.stage {
            Stage::Settling => Action::Settle { seconds: PAGE_BEFORE_DELAY },
            Stage::Navigating => Action::Navigate { url: self.url.clone() },
            Stage::Rendering => Action::Settle { seconds: PAGE_SCRAPE_DELAY },
            Stage::Reading(field) => Action::Read { field: *field, lookup: lookup(*field) },
            Stage::Capturing { source } => Action::Capture { url: source.clone() },
        }
    }

    fn proceed(self) -> (step: Step)
        ensures
            step@ == proceed(self@),
    {
        let action = self.pending_action();
        Step::Continue { record: self, action }
    }

    fn store(self, field: Field, text: String) -> (record: CandidateRecord)
        ensures
            record@ == with_text(self@, field, text@),
    {
        match field {
            Field::Name => CandidateRecord { name: Some(text), ..self },
            Field::Description => CandidateRecord { description: Some(text), ..self },
            Field::Region => CandidateRecord { region: Some(text), ..self },
            Field::Altitude => CandidateRecord { altitude: Some(text), ..self },
            Field::Coordinates => CandidateRecord { coordinates: Some(text), ..self },
            Field::Created => CandidateRecord { created: Some(text), ..self },
            Field::Updated => CandidateRecord { updated: Some(text), ..self },
            _ => self,
        }
    }

    /// Puts the record together once all was read, from what parsing its
    /// altitude text and its coordinates text gave.
    pub fn assemble(
        self,
        altitude: Result<(Option<i32>, Option<i32>), ParseError>,
        position: Result<(Degrees, Degrees), ParseError>,
    ) -> (step: Step)
        ensures
            step@ == assembled(self@, altitude, position),
    {
        let url = self.url;
        let name = match self.name {
            Some(text) => text,
            None => {
                return Step::Failed(ScrapeError::IncompleteRecord { url, field: Field::Name });
            },
        };
        let description = match self.description {
            Some(text) => text,
            None => {
                return Step::Failed(
                    ScrapeError::IncompleteRecord { url, field: Field::Description },
                );
            },
        };
        let region = match self.region {
            Some(text) => text,
            None => {
                return Step::Failed(ScrapeError::IncompleteRecord { url, field: Field::Region });
            },
        };
        if self.altitude.is_none() {
            return Step::Failed(ScrapeError::IncompleteRecord { url, field: Field::Altitude });
        }
        if self.coordinates.is_none() {
            return Step::Failed(ScrapeError::IncompleteRecord { url, field: Field::Coordinates });
        }
        let created = match self.created {
            Some(text) => text,
            None => {
                return Step::Failed(ScrapeError::IncompleteRecord { url, field: Field::Created });
            },
        };
        let updated = match self.updated {
            Some(text) => text,
            None => {
                return Step::Failed(ScrapeError::IncompleteRecord { url, field: Field::Updated });
            },
        };
        let figures = match altitude {
            Ok(figures) => figures,
            Err(cause) => {
                return Step::Failed(ScrapeError::Parse { url, field: Field::Altitude, cause });
            },
        };
        let place = match position {
            Ok(place) => place,
            Err(cause) => {
                return Step::Failed(ScrapeError::Parse { url, field: Field::Coordinates, cause });
            },
        };
        Step::Built(
            NewTakeoff {
                name,
                description,
                image: self.image,
                region,
                altitude: figures.0,
                altitude_diff: figures.1,
                latitude: place.0,
                longitude: place.1,
                wind_dirs: self.wind_dirs,
                info_url: self.info_url,
                source_url: Some(url),
                created,
                updated,
            },
        )
    }

    fn finish(self) -> (step: Step)
        ensures
            step@ == finished(self@),
    {
        let altitude = match &self.altitude {
            Some(text) => extract_altitude_info(text.as_str()),
            None => Err(ParseError::Format),
        };
        let position = match &self.coordinates {
            Some(text) => dms_to_dec(text.as_str()),
            None => Err(ParseError::Format),
        };
        self.assemble(altitude, position)
    }

    fn move_on(self, field: Field) -> (step: Step)
        ensures
            step@ == after_field(self@, field),
    {
        match field_after(field) {
            Some(next) => CandidateRecord { stage: Stage::Reading(next), ..self }.proceed(),
            None => self.finish(),
        }
    }

    /// Deals with the answer to the lookup of a text or an attribute.
    pub fn take_text(self, field: Field, outcome: Outcome<String>) -> (step: Step)
        ensures
            step@ == on_text(self@, field, outcome.deep_view()),
    {
        match outcome {
            Outcome::Unreadable => Step::Failed(ScrapeError::Read { url: self.url, field }),
            Outcome::Absent => {
                if field.required() {
                    Step::Failed(ScrapeError::IncompleteRecord { url: self.url, field })
                } else {
                    match field {
                        Field::WindDirections => {
                            let wind_dirs: Vec<String> = Vec::new();
                            assert(wind_dirs.deep_view() =~= Seq::<Seq<char>>::empty());
                            CandidateRecord { wind_dirs, ..self }.move_on(field)
                        },
                        _ => CandidateRecord { info_url: None, ..self }.move_on(field),
                    }
                }
            },
            Outcome::Found(text) => {
                if field.required() {
                    self.store(field, text).move_on(field)
                } else {
                    match field {
                        Field::WindDirections => CandidateRecord {
                            wind_dirs: wind_directions(text.as_str()),
                            ..self
                        }.move_on(field),
                        _ => CandidateRecord { info_url: Some(text), ..self }.move_on(field),
                    }
                }
            },
        }
    }

    /// Deals with the answer to the lookup of the linked image.
    pub fn take_image_link(self, outcome: Outcome<String>) -> (step: Step)
        ensures
            step@ == on_image_link(self@, outcome.deep_view()),
    {
        match outcome {
            Outcome::Found(source) => CandidateRecord {
                stage: Stage::Capturing { source },
                ..self
            }.proceed(),
            _ => CandidateRecord { image: None, ..self }.move_on(Field::Image),
        }
    }

    /// Deals with the answer to the capture of the image.
    pub fn take_image(self, outcome: Outcome<Vec<u8>>) -> (step: Step)
        ensures
            step@ == on_image(self@, outcome.deep_view()),
    {
        let image = match outcome {
            Outcome::Found(bytes) => Some(bytes),
            _ => None,
        };
        CandidateRecord { image, ..self }.move_on(Field::Image)
    }

    /// Takes one step of the work on the page: `event` is the answer of the
    /// browser session to the pending action.
    pub fn advance(self, event: Event) -> (step: Step)
        ensures
            step@ == advance_of(self@, event@),
    {
        match self.stage {
            Stage::Settling => match event {
                Event::Settled => CandidateRecord { stage: Stage::Navigating, ..self }.proceed(),
                _ => self.proceed(),
            },
            Stage::Navigating => match event {
                Event::Navigated(loaded) => {
                    if loaded {
                        CandidateRecord { stage: Stage::Rendering, ..self }.proceed()
                    } else {
                        Step::Failed(ScrapeError::Navigation { url: self.url })
                    }
                },
                _ => self.proceed(),
            },
            Stage::Rendering => match event {
                Event::Settled => CandidateRecord {
                    stage: Stage::Reading(Field::Name),
                    ..self
                }.proceed(),
                _ => self.proceed(),
            },
            Stage::Reading(field) => match event {
                Event::Text(outcome) => match field {
                    Field::Image => CandidateRecord {
                        stage: Stage::Reading(field),
                        ..self
                    }.take_image_link(outcome),
                    _ => CandidateRecord { stage: Stage::Reading(field), ..self }.take_text(
                        field,
                        outcome,
                    ),
                },
                _ => CandidateRecord { stage: Stage::Reading(field), ..self }.proceed(),
            },
            Stage::Capturing { source } => match event {
                Event::Image(outcome) => CandidateRecord {
                    stage: Stage::Capturing { source },
                    ..self
                }.take_image(outcome),
                _ => CandidateRecord { stage: Stage::Capturing { source }, ..self }.proceed(),
            },
        }
    }
}

} // verus!
