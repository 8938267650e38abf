//! Raw change events and their normalized `(kind, path)` form.

use vstd::prelude::*;
use vstd::string::*;
use crate::text::texts;

verus! {

/// The structural kind that the event source attaches to a notification.
///
/// `Any` is the source's catch-all for changes it cannot tell apart.
#[derive(Clone, Copy, Debug, PartialEq, Eq, Structural)]
pub enum RawKind {
    Any,
    Access,
    Create,
    Modify,
    Remove,
    Other,
}

/// The closed set of kinds that a normalized event can carry.
#[derive(Clone, Copy, Debug, PartialEq, Eq, Structural)]
pub enum EventKind {
    Access,
    Create,
    Modify,
    Remove,
    Other,
    Unknown,
}

/// One successful notification: what happened, and the paths it happened to,
/// each rendered as text, in the order in which the source reported them.
#[derive(Clone, Debug, PartialEq, Eq)]
pub struct RawEvent {
    pub kind: RawKind,
    pub paths: Vec<String>,
}

/// A change reduced to its kind and the first path it concerns.
#[derive(Clone, Debug, PartialEq, Eq)]
pub struct NormalizedEvent {
    pub kind: EventKind,
    pub path: String,
}

/// Why a notification was skipped.
#[derive(Clone, Debug, PartialEq, Eq)]
pub enum SourceError {
    /// The event source itself reported a failure, with this diagnostic.
    Backend(String),
    /// A successful notification arrived without any path.
    NoPath,
}

/// A raw event as a mathematical value.
pub struct RawEventModel {
    pub kind: RawKind,
    pub paths: Seq<Seq<char>>,
}

/// A normalized event as a mathematical value.
pub struct NormalizedModel {
    pub kind: EventKind,
    pub path: Seq<char>,
}

/// A source error as a mathematical value.
pub enum SourceErrorModel {
    Backend(Seq<char>),
    NoPath,
}

impl View for RawEvent {
    type V = RawEventModel;

    open spec fn view(&self) -> RawEventModel {
        RawEventModel { kind: self.kind, paths: texts(self.paths@) }
    }
}

impl View for NormalizedEvent {
    type V = NormalizedModel;

    open spec fn view(&self) -> NormalizedModel {
        NormalizedModel { kind: self.kind, path: self.path@ }
    }
}

impl View for SourceError {
    type V = SourceErrorModel;

    open spec fn view(&self) -> SourceErrorModel {
        match *self {
            SourceError::Backend(diagnostic) => SourceErrorModel::Backend(diagnostic@),
            SourceError::NoPath => SourceErrorModel::NoPath,
        }
    }
}

/// The normalized kind of a raw kind: the five specific kinds map to
/// themselves, everything else is `Unknown`.
pub open spec fn kind_of(raw: RawKind) -> EventKind {
    match raw {
        RawKind::Access => EventKind::Access,
        RawKind::Create => EventKind::Create,
        RawKind::Modify => EventKind::Modify,
        RawKind::Remove => EventKind::Remove,
        RawKind::Other => EventKind::Other,
        RawKind::Any => EventKind::Unknown,
    }
}

/// Whether `text` is one of the six kind labels.
pub open spec fn is_kind_label(text: Seq<char>) -> bool {
    ||| text == "Access"@
    ||| text == "Create"@
    ||| text == "Modify"@
    ||| text == "Remove"@
    ||| text == "Other"@
    ||| text == "Unknown"@
}

impl EventKind {
    /// The label under which this kind is reported.
    pub open spec fn label_text(self) -> Seq<char> {
        match self {
            EventKind::Access => "Access"@,
            EventKind::Create => "Create"@,
            EventKind::Modify => "Modify"@,
            EventKind::Remove => "Remove"@,
            EventKind::Other => "Other"@,
            EventKind::Unknown => "Unknown"@,
        }
    }

    /// Classifies a raw kind.
    pub fn from_raw(raw: RawKind) -> (kind: EventKind)
        ensures
            kind == kind_of(raw),
    {
        match raw {
            RawKind::Access => EventKind::Access,
            RawKind::Create => EventKind::Create,
            RawKind::Modify => EventKind::Modify,
            RawKind::Remove => EventKind::Remove,
            RawKind::Other => EventKind::Other,
            RawKind::Any => EventKind::Unknown,
        }
    }

    /// The label of this kind, as an owned string.
    pub fn label(&self) -> (text: String)
        ensures
            text@ == self.label_text(),
            is_kind_label(text@),
    {
        match self {
            EventKind::Access => String::from_str("Access"),
            EventKind::Create => String::from_str("Create"),
            EventKind::Modify => String::from_str("Modify"),
            EventKind::Remove => String::from_str("Remove"),
            EventKind::Other => String::from_str("Other"),
            EventKind::Unknown => String::from_str("Unknown"),
        }
    }
}

impl NormalizedEvent {
    /// The event as a pair of kind label and path.
    pub fn to_tuple(&self) -> (pair: (String, String))
        ensures
            pair.0@ == self.kind.label_text(),
            pair.1@ == self.path@,
    {
        (self.kind.label(), self.path.clone())
    }
}

impl SourceErrorModel {
    /// The text under which the error is reported.
    pub open spec fn message_text(self) -> Seq<char> {
        match self {
            SourceErrorModel::Backend(diagnostic) => diagnostic,
            SourceErrorModel::NoPath => "notification carries no path"@,
        }
    }
}

impl SourceError {
    /// The text under which the error is reported, as an owned string.
    pub fn message(&self) -> (text: String)
        ensures
            text@ == self@.message_text(),
    {
        match self {
            SourceError::Backend(diagnostic) => diagnostic.clone(),
            SourceError::NoPath => String::from_str("notification carries no path"),
        }
    }
}

/// The normalized form of a raw event: its kind classified, and the first
/// of its paths. An event without paths has none.
pub open spec fn normalized(event: RawEventModel) -> Result<NormalizedModel, SourceErrorModel> {
    if event.paths.len() == 0 {
        Err(SourceErrorModel::NoPath)
    } else {
        Ok(NormalizedModel { kind: kind_of(event.kind), path: event.paths[0] })
    }
}

/// The outcome of a classification as a mathematical value.
pub open spec fn classified(
    result: Result<NormalizedEvent, SourceError>,
) -> Result<NormalizedModel, SourceErrorModel> {
    match result {
        Ok(event) => Ok(event@),
        Err(error) => Err(error@),
    }
}

/// Normalizes a raw event: its kind is classified and its first path kept.
///
/// An event without paths cannot be normalized and is refused with
/// [`SourceError::NoPath`].
pub fn classify(event: &RawEvent) -> (result: Result<NormalizedEvent, SourceError>)
    ensures
        classified(result) == normalized(event@),
{
    if event.paths.len() == 0 {
        Err(SourceError::NoPath)
    } else {
        Ok(NormalizedEvent { kind: EventKind::from_raw(event.kind), path: event.paths[0].clone() })
    }
}

/// Normalizes a raw event into a pair of kind label and first path.
pub fn event_to_tuple(event: &RawEvent) -> (result: Result<(String, String), SourceError>)
    ensures
        match normalized(event@) {
            Ok(expected) => {
                &&& result matches Ok(pair)
                &&& pair.0@ == expected.kind.label_text()
                &&& pair.1@ == expected.path
            },
            Err(expected) => result matches Err(error) && error@ == expected,
        },
{
    match classify(event) {
        Ok(normalized) => Ok(normalized.to_tuple()),
        Err(error) => Err(error),
    }
}

/// The label of every kind is one of the six labels.
pub proof fn lemma_label_is_one_of_six(kind: EventKind)
    ensures
        is_kind_label(kind.label_text()),
{
}

/// The labels tell the kinds apart: two kinds with the same label are the
/// same kind.
pub proof fn lemma_labels_are_distinct(a: EventKind, b: EventKind)
    requires
        a.label_text() == b.label_text(),
    ensures
        a == b,
{
    reveal_strlit("Access");
    reveal_strlit("Create");
    reveal_strlit("Modify");
    reveal_strlit("Remove");
    reveal_strlit("Other");
    reveal_strlit("Unknown");
    assert("Access"@[0] == 'A' && "Create"@[0] == 'C' && "Modify"@[0] == 'M' && "Remove"@[0] == 'R');
    assert("Other"@.len() == 5 && "Unknown"@.len() == 7 && "Access"@.len() == 6);
    assert("Create"@.len() == 6 && "Modify"@.len() == 6 && "Remove"@.len() == 6);
}

/// A raw event with at least one path is normalized to the kind of its raw
/// kind and to its first path.
pub proof fn lemma_normalized_first_path(event: RawEventModel)
    requires
        event.paths.len() > 0,
    ensures
        normalized(event) == Ok::<NormalizedModel, SourceErrorModel>(
            NormalizedModel { kind: kind_of(event.kind), path: event.paths[0] },
        ),
        is_kind_label(kind_of(event.kind).label_text()),
{
}

} // verus!
