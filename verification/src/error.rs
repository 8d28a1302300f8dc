use vstd::prelude::*;

verus! {

/// The fields that are read from a detail page.
#[derive(Clone, Copy, Debug, PartialEq, Eq, Structural)]
pub enum Field {
    Name,
    Description,
    Region,
    Altitude,
    Coordinates,
    Created,
    Updated,
    Image,
    WindDirections,
    InfoUrl,
}

impl Field {
    /// Whether a record cannot be built without this field.
    pub open spec fn is_required(self) -> bool {
        !(self is Image || self is WindDirections || self is InfoUrl)
    }

    /// The place of this field in the order in which the fields are read,
    /// counted from zero.
    pub open spec fn rank(self) -> nat {
        match self {
            Field::Name => 0,
            Field::Description => 1,
            Field::Region => 2,
            Field::Altitude => 3,
            Field::Coordinates => 4,
            Field::Created => 5,
            Field::Updated => 6,
            Field::Image => 7,
            Field::WindDirections => 8,
            Field::InfoUrl => 9,
        }
    }

    /// Tests whether a record cannot be built without this field.
    pub fn required(&self) -> (r: bool)
        ensures
            r == self.is_required(),
    {
        match self {
            Field::Image | Field::WindDirections | Field::InfoUrl => false,
            _ => true,
        }
    }
}

/// Why a field parser could not read a text.
#[derive(Clone, Copy, Debug, PartialEq, Eq, Structural)]
pub enum ParseError {
    /// The pattern used for finding digit groups is malformed.
    Pattern,
    /// The text does not have the format that the parser expects.
    Format,
}

/// Why a step of the ingestion failed. Every failure of the work on a page
/// names the address of the page.
#[derive(Clone, Debug, PartialEq, Eq)]
pub enum ScrapeError {
    /// The pattern used for finding references is malformed.
    Pattern,
    /// The page at `url` could not be loaded.
    Navigation { url: String },
    /// The page at `url` lacks the required field `field`.
    IncompleteRecord { url: String, field: Field },
    /// The element of `field` was found on the page at `url`, but could not
    /// be read.
    Read { url: String, field: Field },
    /// The text of `field` on the page at `url` could not be parsed.
    Parse { url: String, field: Field, cause: ParseError },
    /// The record built from `url` was refused by the store.
    Sink { url: String },
    /// The browser session could not be opened.
    Session,
}

/// The mathematical content of a [`ScrapeError`].
pub enum ScrapeErrorView {
    Pattern,
    Navigation { url: Seq<char> },
    IncompleteRecord { url: Seq<char>, field: Field },
    Read { url: Seq<char>, field: Field },
    Parse { url: Seq<char>, field: Field, cause: ParseError },
    Sink { url: Seq<char> },
    Session,
}

impl ScrapeErrorView {
    /// The address of the page that the failure is about, if it is about
    /// one page.
    pub open spec fn address(self) -> Option<Seq<char>> {
        match self {
            ScrapeErrorView::Navigation { url } => Some(url),
            ScrapeErrorView::IncompleteRecord { url, field } => Some(url),
            ScrapeErrorView::Read { url, field } => Some(url),
            ScrapeErrorView::Parse { url, field, cause } => Some(url),
            ScrapeErrorView::Sink { url } => Some(url),
            ScrapeErrorView::Pattern => None,
            ScrapeErrorView::Session => None,
        }
    }
}

impl View for ScrapeError {
    type V = ScrapeErrorView;

    open spec fn view(&self) -> ScrapeErrorView {
        match self {
            ScrapeError::Pattern => ScrapeErrorView::Pattern,
            ScrapeError::Navigation { url } => ScrapeErrorView::Navigation { url: url@ },
            ScrapeError::IncompleteRecord { url, field } => ScrapeErrorView::IncompleteRecord {
                url: url@,
                field: *field,
            },
            ScrapeError::Read { url, field } => ScrapeErrorView::Read { url: url@, field: *field },
            ScrapeError::Parse { url, field, cause } => ScrapeErrorView::Parse {
                url: url@,
                field: *field,
                cause: *cause,
            },
            ScrapeError::Sink { url } => ScrapeErrorView::Sink { url: url@ },
            ScrapeError::Session => ScrapeErrorView::Session,
        }
    }
}

impl ScrapeError {
    /// The address of the page that the failure is about, if it is about
    /// one page.
    pub fn address(&self) -> (url: Option<&String>)
        ensures
            url.deep_view() == self@.address(),
    {
        match self {
            ScrapeError::Navigation { url } => Some(url),
            ScrapeError::IncompleteRecord { url, field } => Some(url),
            ScrapeError::Read { url, field } => Some(url),
            ScrapeError::Parse { url, field, cause } => Some(url),
            ScrapeError::Sink { url } => Some(url),
            ScrapeError::Pattern => None,
            ScrapeError::Session => None,
        }
    }
}

/// The mathematical content of an error that may be there.
pub open spec fn report_view(report: Option<ScrapeError>) -> Option<ScrapeErrorView> {
    match report {
        Some(error) => Some(error@),
        None => None,
    }
}

} // verus!
