use crate::error::{Error, ErrorKind};
use crate::naming::same_text;
use vstd::prelude::*;

verus! {

/// What a multipart field is, by its declared name.
#[derive(Clone, Copy, Debug, PartialEq, Eq, Structural)]
pub enum FieldKind {
    /// The field named `metadata`.
    Metadata,
    /// The field named `image`.
    Image,
    /// Any other field. Its bytes are read and thrown away.
    Unrecognized,
}

/// How far a request has come.
#[derive(Clone, Copy, Debug, PartialEq, Eq, Structural)]
pub enum Phase {
    /// No field has been seen.
    Start,
    /// The stream has begun and no metadata has been parsed yet.
    AwaitingMetadata,
    /// The metadata is parsed and no image has been staged yet.
    AwaitingImage,
    /// Metadata and image are both in.
    Complete,
    /// The request has failed. Nothing leaves this phase.
    Failed,
}

/// What happens to a request, one thing after the other.
#[derive(Clone, Copy, Debug, PartialEq, Eq, Structural)]
pub enum Event {
    /// A field without a declared name begins.
    Unnamed,
    /// A field of the given kind begins.
    Named(FieldKind),
    /// The metadata field has been read to its end and parsed.
    MetadataParsed,
    /// The image field has been read to its end and written to staging.
    ImageStaged,
    /// Reading, parsing or writing has failed.
    Broken,
}

/// Why a stream of fields is rejected.
#[derive(Clone, Copy, Debug, PartialEq, Eq, Structural)]
pub enum Rejection {
    /// A field has no declared name.
    NoFieldName,
    /// The image field came before the metadata was parsed.
    ImageBeforeMetadata,
}

/// What is to be done about an event.
#[derive(Clone, Copy, Debug, PartialEq, Eq, Structural)]
pub enum Action {
    /// Read the field to its end and parse it as metadata.
    ParseMetadata,
    /// Read the field to its end and write it to the staging file.
    StageImage,
    /// Read the field to its end and throw its bytes away.
    Discard,
    /// Nothing: go on to the next field.
    Continue,
    /// Answer the request with a failure.
    Reject(Rejection),
    /// The request has failed already: do nothing more.
    Stop,
}

/// Message of the error for a field without a name.
pub const NO_NAME_MESSAGE: &'static str = "Cannot get name";

/// Message of the error for an image field that comes too early.
pub const ORDER_MESSAGE: &'static str = "image field before metadata field.";

/// Message of the error for a stream that ends before metadata and image
/// are both in.
pub const INCOMPLETE_MESSAGE: &'static str = "Could not save image";

/// The kind of the field with the given name. Names are compared as they
/// stand: letter case counts.
pub open spec fn kind_of_name(name: Seq<char>) -> FieldKind {
    if name == "metadata"@ {
        FieldKind::Metadata
    } else if name == "image"@ {
        FieldKind::Image
    } else {
        FieldKind::Unrecognized
    }
}

/// The event that the beginning of a field is, by its declared name.
pub open spec fn event_of_field(name: Option<&str>) -> Event {
    match name {
        None => Event::Unnamed,
        Some(name) => Event::Named(kind_of_name(name@)),
    }
}

/// The phase that follows `phase` on `event`, and what is to be done.
///
/// A field without a name, or an image field before the metadata, fails the
/// request. Of each recognised field the first one counts: a metadata field
/// after the metadata is parsed, and any recognised field after the request
/// is complete, is discarded. A complete request never goes back to an
/// earlier phase.
pub open spec fn next(phase: Phase, event: Event) -> (Phase, Action) {
    match phase {
        Phase::Failed => (Phase::Failed, Action::Stop),
        _ => match event {
            Event::Unnamed => (Phase::Failed, Action::Reject(Rejection::NoFieldName)),
            Event::Broken => (Phase::Failed, Action::Stop),
            Event::Named(FieldKind::Metadata) => match phase {
                Phase::Start | Phase::AwaitingMetadata => (
                    Phase::AwaitingMetadata,
                    Action::ParseMetadata,
                ),
                _ => (phase, Action::Discard),
            },
            Event::Named(FieldKind::Image) => match phase {
                Phase::Start | Phase::AwaitingMetadata => (
                    Phase::Failed,
                    Action::Reject(Rejection::ImageBeforeMetadata),
                ),
                Phase::AwaitingImage => (Phase::AwaitingImage, Action::StageImage),
                _ => (phase, Action::Discard),
            },
            Event::Named(FieldKind::Unrecognized) => match phase {
                Phase::Start => (Phase::AwaitingMetadata, Action::Discard),
                _ => (phase, Action::Discard),
            },
            Event::MetadataParsed => match phase {
                Phase::Start | Phase::AwaitingMetadata => (Phase::AwaitingImage, Action::Continue),
                _ => (phase, Action::Continue),
            },
            Event::ImageStaged => match phase {
                Phase::AwaitingImage => (Phase::Complete, Action::Continue),
                _ => (phase, Action::Continue),
            },
        },
    }
}

/// The kind of the field with the given name.
pub fn classify(name: &str) -> (kind: FieldKind)
    ensures
        kind == kind_of_name(name@),
{
    if same_text(name, "metadata") {
        FieldKind::Metadata
    } else if same_text(name, "image") {
        FieldKind::Image
    } else {
        FieldKind::Unrecognized
    }
}

/// The event that the beginning of a field is.
pub fn classify_field(name: Option<&str>) -> (event: Event)
    ensures
        event == event_of_field(name),
{
    match name {
        None => Event::Unnamed,
        Some(name) => Event::Named(classify(name)),
    }
}

/// One step of a request: the next phase and what is to be done.
pub fn step(phase: Phase, event: Event) -> (out: (Phase, Action))
    ensures
        out == next(phase, event),
{
    match phase {
        Phase::Failed => (Phase::Failed, Action::Stop),
        _ => match event {
            Event::Unnamed => (Phase::Failed, Action::Reject(Rejection::NoFieldName)),
            Event::Broken => (Phase::Failed, Action::Stop),
            Event::Named(FieldKind::Metadata) => match phase {
                Phase::Start | Phase::AwaitingMetadata => (
                    Phase::AwaitingMetadata,
                    Action::ParseMetadata,
                ),
                _ => (phase, Action::Discard),
            },
            Event::Named(FieldKind::Image) => match phase {
                Phase::Start | Phase::AwaitingMetadata => (
                    Phase::Failed,
                    Action::Reject(Rejection::ImageBeforeMetadata),
                ),
                Phase::AwaitingImage => (Phase::AwaitingImage, Action::StageImage),
                _ => (phase, Action::Discard),
            },
            Event::Named(FieldKind::Unrecognized) => match phase {
                Phase::Start => (Phase::AwaitingMetadata, Action::Discard),
                _ => (phase, Action::Discard),
            },
            Event::MetadataParsed => match phase {
                Phase::Start | Phase::AwaitingMetadata => (Phase::AwaitingImage, Action::Continue),
                _ => (phase, Action::Continue),
            },
            Event::ImageStaged => match phase {
                Phase::AwaitingImage => (Phase::Complete, Action::Continue),
                _ => (phase, Action::Continue),
            },
        },
    }
}

/// The error that a rejection is answered with.
pub fn rejection_error(why: Rejection) -> (e: Error)
    ensures
        e.kind == ErrorKind::Validation,
        e.message@ == (match why {
            Rejection::NoFieldName => NO_NAME_MESSAGE@,
            Rejection::ImageBeforeMetadata => ORDER_MESSAGE@,
        }),
{
    match why {
        Rejection::NoFieldName => Error::new(ErrorKind::Validation, NO_NAME_MESSAGE),
        Rejection::ImageBeforeMetadata => Error::new(ErrorKind::Validation, ORDER_MESSAGE),
    }
}

/// What the end of the stream means in `phase`: success if the request is
/// complete, a validation error if metadata or image is still missing.
pub fn finish(phase: Phase) -> (done: Result<(), Error>)
    ensures
        done is Ok <==> phase == Phase::Complete,
        done matches Err(e) ==> e.kind == ErrorKind::Validation && e.message@
            == INCOMPLETE_MESSAGE@,
{
    match phase {
        Phase::Complete => Ok(()),
        _ => Err(Error::new(ErrorKind::Validation, INCOMPLETE_MESSAGE)),
    }
}

/// The phase a request is in after `events`, one after the other, from the
/// start.
pub open spec fn phase_after(events: Seq<Event>) -> Phase
    decreases events.len(),
{
    if events.len() == 0 {
        Phase::Start
    } else {
        next(phase_after(events.drop_last()), events.last()).0
    }
}

/// What is done about the event at position `i` of `events`.
pub open spec fn action_at(events: Seq<Event>, i: int) -> Action {
    next(phase_after(events.take(i)), events[i]).1
}

/// Whether the metadata has been parsed somewhere in `events`.
pub open spec fn metadata_parsed_in(events: Seq<Event>) -> bool {
    exists|j: int| 0 <= j < events.len() && events[j] == Event::MetadataParsed
}

/// Whether an image has been staged somewhere in `events`.
pub open spec fn image_staged_in(events: Seq<Event>) -> bool {
    exists|j: int| 0 <= j < events.len() && events[j] == Event::ImageStaged
}

/// A request waits for its image, or is complete, only after its metadata
/// has been parsed, and is complete only after its image has been staged.
pub proof fn lemma_phase_needs_metadata(events: Seq<Event>)
    ensures
        phase_after(events) == Phase::AwaitingImage || phase_after(events) == Phase::Complete
            ==> metadata_parsed_in(events),
        phase_after(events) == Phase::Complete ==> image_staged_in(events),
    decreases events.len(),
{
    if events.len() > 0 {
        let before = events.drop_last();
        lemma_phase_needs_metadata(before);
        if metadata_parsed_in(before) {
            let j = choose|j: int| 0 <= j < before.len() && before[j] == Event::MetadataParsed;
            assert(events[j] == Event::MetadataParsed);
        }
        if image_staged_in(before) {
            let j = choose|j: int| 0 <= j < before.len() && before[j] == Event::ImageStaged;
            assert(events[j] == Event::ImageStaged);
        }
        if events.last() == Event::MetadataParsed {
            assert(events[events.len() - 1] == Event::MetadataParsed);
        }
        if events.last() == Event::ImageStaged {
            assert(events[events.len() - 1] == Event::ImageStaged);
        }
    }
}

/// No image is written to staging before the metadata is parsed: wherever
/// the action is to stage the image, an earlier event reports the parsed
/// metadata.
pub proof fn lemma_stage_needs_metadata(events: Seq<Event>, i: int)
    requires
        0 <= i < events.len(),
        action_at(events, i) == Action::StageImage,
    ensures
        exists|j: int| 0 <= j < i && events[j] == Event::MetadataParsed,
{
    let before = events.take(i);
    lemma_phase_needs_metadata(before);
    assert(phase_after(before) == Phase::AwaitingImage);
    let j = choose|j: int| 0 <= j < before.len() && before[j] == Event::MetadataParsed;
    assert(events[j] == Event::MetadataParsed);
}

/// A failed request stays failed, whatever follows.
pub proof fn lemma_failed_is_final(events: Seq<Event>, i: int)
    requires
        0 <= i <= events.len(),
        phase_after(events.take(i)) == Phase::Failed,
    ensures
        phase_after(events) == Phase::Failed,
        forall|k: int| i <= k < events.len() ==> action_at(events, k) == Action::Stop,
    decreases events.len() - i,
{
    if i == events.len() {
        assert(events.take(i) =~= events);
    } else {
        assert(events.take(i + 1).drop_last() =~= events.take(i));
        assert(events.take(i + 1).last() == events[i]);
        lemma_failed_is_final(events, i + 1);
        assert(action_at(events, i) == Action::Stop);
    }
}

/// An image field that begins before the metadata is parsed is rejected
/// there and then, and nothing is staged afterwards: no later action writes
/// a file.
pub proof fn lemma_image_before_metadata_is_rejected(events: Seq<Event>, i: int)
    requires
        0 <= i < events.len(),
        events[i] == Event::Named(FieldKind::Image),
        !metadata_parsed_in(events.take(i)),
    ensures
        action_at(events, i) == Action::Reject(Rejection::ImageBeforeMetadata) || action_at(
            events,
            i,
        ) == Action::Stop,
        phase_after(events) == Phase::Failed,
        forall|k: int| i <= k < events.len() ==> action_at(events, k) != Action::StageImage,
        forall|k: int| 0 <= k < i ==> action_at(events, k) != Action::StageImage,
{
    let before = events.take(i);
    lemma_phase_needs_metadata(before);
    assert(events.take(i + 1).drop_last() =~= before);
    assert(events.take(i + 1).last() == events[i]);
    assert(phase_after(events.take(i + 1)) == Phase::Failed);
    lemma_failed_is_final(events, i + 1);
    assert forall|k: int| 0 <= k < i implies action_at(events, k) != Action::StageImage by {
        if action_at(events, k) == Action::StageImage {
            lemma_stage_needs_metadata(events, k);
            let j = choose|j: int| 0 <= j < k && events[j] == Event::MetadataParsed;
            assert(before[j] == Event::MetadataParsed);
        }
    }
}

/// A complete request never goes back: after any further events it is
/// complete still, or failed.
pub proof fn lemma_complete_never_goes_back(events: Seq<Event>, i: int)
    requires
        0 <= i <= events.len(),
        phase_after(events.take(i)) == Phase::Complete,
    ensures
        phase_after(events) == Phase::Complete || phase_after(events) == Phase::Failed,
        forall|k: int|
            i <= k < events.len() ==> action_at(events, k) != Action::StageImage && action_at(
                events,
                k,
            ) != Action::ParseMetadata,
    decreases events.len() - i,
{
    if i == events.len() {
        assert(events.take(i) =~= events);
    } else {
        assert(events.take(i + 1).drop_last() =~= events.take(i));
        assert(events.take(i + 1).last() == events[i]);
        if phase_after(events.take(i + 1)) == Phase::Complete {
            lemma_complete_never_goes_back(events, i + 1);
        } else {
            lemma_failed_is_final(events, i + 1);
        }
    }
}

} // verus!
