use crate::error::Field;
use vstd::prelude::*;
use vstd::string::StringExecFns;

verus! {

/// The language in which a selector is written.
#[derive(Clone, Copy, Debug, PartialEq, Eq, Structural)]
pub enum SelectorKind {
    /// A fixed path through the document, as a CSS selector.
    Css,
    /// A search by content, as an XPath expression.
    XPath,
}

/// Where an element is searched.
#[derive(Clone, Copy, Debug, PartialEq, Eq, Structural)]
pub enum Scope {
    /// In the whole page.
    Page,
    /// Inside the element that holds the description.
    Description,
}

/// What is read from an element once it is found.
#[derive(Clone, Copy, Debug, PartialEq, Eq, Structural)]
pub enum Reading {
    /// Its text.
    Text,
    /// Its `alt` attribute.
    AltText,
    /// Its `href` attribute.
    Link,
    /// The `href` attribute of its parent.
    ParentLink,
}

/// How a field is found on a detail page and what is read from it.
#[derive(Clone, Debug, PartialEq, Eq)]
pub struct Lookup {
    pub scope: Scope,
    pub kind: SelectorKind,
    pub query: String,
    pub reading: Reading,
}

/// The mathematical content of a [`Lookup`].
pub struct LookupView {
    pub scope: Scope,
    pub kind: SelectorKind,
    pub query: Seq<char>,
    pub reading: Reading,
}

impl View for Lookup {
    type V = LookupView;

    open spec fn view(&self) -> LookupView {
        LookupView { scope: self.scope, kind: self.kind, query: self.query@, reading: self.reading }
    }
}

/// The fixed place of the name of the site in the document.
pub const NAME_PATH: &'static str =
    "body > div > table:nth-child(2) > tbody > tr:nth-child(2) > td > table > tbody > tr:nth-child(3) > td > span";

/// A linked image, seen from the description.
pub const LINKED_IMAGE_PATH: &'static str = "a > img";

/// Any image, seen from the description.
pub const ICON_PATH: &'static str = "img";

/// The start of the search for a table cell by the text of its label.
pub const LABEL_OPEN: &'static str = "//td[contains(.,'";

/// The end of the search for a table cell by the text of its label: the
/// cell wanted is the one that follows the label.
pub const LABEL_CLOSE: &'static str = "')]/following-sibling::td";

/// A link inside the cell found.
pub const LINK_STEP: &'static str = "/a";

pub const DESCRIPTION_LABEL: &'static str = "Description";

pub const REGION_LABEL: &'static str = "region";

pub const ALTITUDE_LABEL: &'static str = "Altitude";

pub const COORDINATES_LABEL: &'static str = "Coordinates";

pub const CREATED_LABEL: &'static str = "created";

pub const UPDATED_LABEL: &'static str = "Updated";

pub const INFO_LABEL: &'static str = "Link to more info";

/// The XPath expression for the table cell that follows the cell whose text
/// contains `label`.
pub open spec fn labelled_cell_of(label: Seq<char>) -> Seq<char> {
    LABEL_OPEN@ + label + LABEL_CLOSE@
}

/// The lookup of a field whose value is the text of the cell labelled
/// `label`.
pub open spec fn labelled_text(label: Seq<char>) -> LookupView {
    LookupView {
        scope: Scope::Page,
        kind: SelectorKind::XPath,
        query: labelled_cell_of(label),
        reading: Reading::Text,
    }
}

/// How each field is found and read.
pub open spec fn lookup_of(field: Field) -> LookupView {
    match field {
        Field::Name => LookupView {
            scope: Scope::Page,
            kind: SelectorKind::Css,
            query: NAME_PATH@,
            reading: Reading::Text,
        },
        Field::Description => labelled_text(DESCRIPTION_LABEL@),
        Field::Region => labelled_text(REGION_LABEL@),
        Field::Altitude => labelled_text(ALTITUDE_LABEL@),
        Field::Coordinates => labelled_text(COORDINATES_LABEL@),
        Field::Created => labelled_text(CREATED_LABEL@),
        Field::Updated => labelled_text(UPDATED_LABEL@),
        Field::Image => LookupView {
            scope: Scope::Description,
            kind: SelectorKind::Css,
            query: LINKED_IMAGE_PATH@,
            reading: Reading::ParentLink,
        },
        Field::WindDirections => LookupView {
            scope: Scope::Description,
            kind: SelectorKind::Css,
            query: ICON_PATH@,
            reading: Reading::AltText,
        },
        Field::InfoUrl => LookupView {
            scope: Scope::Page,
            kind: SelectorKind::XPath,
            query: labelled_cell_of(INFO_LABEL@) + LINK_STEP@,
            reading: Reading::Link,
        },
    }
}

/// Builds the XPath expression for the table cell that follows the cell
/// whose text contains `label`.
pub fn labelled_cell(label: &str) -> (query: String)
    ensures
        query@ == labelled_cell_of(label@),
{
    let mut query = String::from_str(LABEL_OPEN);
    query.append(label);
    query.append(LABEL_CLOSE);
    query
}

fn text_of_label(label: &str) -> (out: Lookup)
    ensures
        out@ == labelled_text(label@),
{
    Lookup {
        scope: Scope::Page,
        kind: SelectorKind::XPath,
        query: labelled_cell(label),
        reading: Reading::Text,
    }
}

/// Tells how `field` is found on a detail page and what is read from it.
pub fn lookup(field: Field) -> (out: Lookup)
    ensures
        out@ == lookup_of(field),
{
    match field {
        Field::Name => Lookup {
            scope: Scope::Page,
            kind: SelectorKind::Css,
            query: String::from_str(NAME_PATH),
            reading: Reading::Text,
        },
        Field::Description => text_of_label(DESCRIPTION_LABEL),
        Field::Region => text_of_label(REGION_LABEL),
        Field::Altitude => text_of_label(ALTITUDE_LABEL),
        Field::Coordinates => text_of_label(COORDINATES_LABEL),
        Field::Created => text_of_label(CREATED_LABEL),
        Field::Updated => text_of_label(UPDATED_LABEL),
        Field::Image => Lookup {
            scope: Scope::Description,
            kind: SelectorKind::Css,
            query: String::from_str(LINKED_IMAGE_PATH),
            reading: Reading::ParentLink,
        },
        Field::WindDirections => Lookup {
            scope: Scope::Description,
            kind: SelectorKind::Css,
            query: String::from_str(ICON_PATH),
            reading: Reading::AltText,
        },
        Field::InfoUrl => {
            let mut query = labelled_cell(INFO_LABEL);
            query.append(LINK_STEP);
            Lookup {
                scope: Scope::Page,
                kind: SelectorKind::XPath,
                query,
                reading: Reading::Link,
            }
        },
    }
}

} // verus!
