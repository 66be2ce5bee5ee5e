use image_upload::demux::{
    classify, classify_field, finish, rejection_error, step, Action, Event, FieldKind, Phase,
    Rejection, INCOMPLETE_MESSAGE, NO_NAME_MESSAGE, ORDER_MESSAGE,
};
use image_upload::error::ErrorKind;

fn run(events: &[Event]) -> (Phase, Vec<Action>) {
    let mut phase = Phase::Start;
    let mut actions = Vec::new();
    for event in events {
        let (next, action) = step(phase, *event);
        phase = next;
        actions.push(action);
    }
    (phase, actions)
}

#[test]
fn fields_are_classified_by_name() {
    assert_eq!(classify("metadata"), FieldKind::Metadata);
    assert_eq!(classify("image"), FieldKind::Image);
    assert_eq!(classify("comment"), FieldKind::Unrecognized);
    assert_eq!(classify("Image"), FieldKind::Unrecognized);
    assert_eq!(classify(""), FieldKind::Unrecognized);
}

#[test]
fn field_without_a_name_is_its_own_event() {
    assert_eq!(classify_field(None), Event::Unnamed);
    assert_eq!(classify_field(Some("image")), Event::Named(FieldKind::Image));
    assert_eq!(classify_field(Some("metadata")), Event::Named(FieldKind::Metadata));
    assert_eq!(classify_field(Some("x")), Event::Named(FieldKind::Unrecognized));
}

#[test]
fn metadata_then_image_completes() {
    let (phase, actions) = run(&[
        Event::Named(FieldKind::Metadata),
        Event::MetadataParsed,
        Event::Named(FieldKind::Image),
        Event::ImageStaged,
    ]);
    assert_eq!(phase, Phase::Complete);
    assert_eq!(
        actions,
        vec![Action::ParseMetadata, Action::Continue, Action::StageImage, Action::Continue]
    );
    assert!(finish(phase).is_ok());
}

#[test]
fn image_before_metadata_is_rejected_and_nothing_is_staged() {
    let (phase, actions) = run(&[
        Event::Named(FieldKind::Image),
        Event::Named(FieldKind::Metadata),
        Event::MetadataParsed,
        Event::Named(FieldKind::Image),
        Event::ImageStaged,
    ]);
    assert_eq!(phase, Phase::Failed);
    assert_eq!(actions[0], Action::Reject(Rejection::ImageBeforeMetadata));
    for action in &actions[1..] {
        assert_eq!(*action, Action::Stop);
    }
    assert!(!actions.contains(&Action::StageImage));
}

#[test]
fn image_while_metadata_is_awaited_is_rejected() {
    let (phase, actions) = run(&[
        Event::Named(FieldKind::Unrecognized),
        Event::Named(FieldKind::Metadata),
        Event::Named(FieldKind::Image),
    ]);
    assert_eq!(phase, Phase::Failed);
    assert_eq!(
        actions,
        vec![
            Action::Discard,
            Action::ParseMetadata,
            Action::Reject(Rejection::ImageBeforeMetadata)
        ]
    );
}

#[test]
fn unrecognized_fields_are_discarded_in_every_phase() {
    assert_eq!(
        step(Phase::Start, Event::Named(FieldKind::Unrecognized)),
        (Phase::AwaitingMetadata, Action::Discard)
    );
    assert_eq!(
        step(Phase::AwaitingMetadata, Event::Named(FieldKind::Unrecognized)),
        (Phase::AwaitingMetadata, Action::Discard)
    );
    assert_eq!(
        step(Phase::AwaitingImage, Event::Named(FieldKind::Unrecognized)),
        (Phase::AwaitingImage, Action::Discard)
    );
    assert_eq!(
        step(Phase::Complete, Event::Named(FieldKind::Unrecognized)),
        (Phase::Complete, Action::Discard)
    );
}

#[test]
fn field_without_a_name_fails_the_request() {
    for phase in [Phase::Start, Phase::AwaitingMetadata, Phase::AwaitingImage, Phase::Complete] {
        assert_eq!(
            step(phase, Event::Unnamed),
            (Phase::Failed, Action::Reject(Rejection::NoFieldName))
        );
    }
}

#[test]
fn first_occurrence_of_each_field_wins() {
    let (phase, actions) = run(&[
        Event::Named(FieldKind::Metadata),
        Event::MetadataParsed,
        Event::Named(FieldKind::Metadata),
        Event::Named(FieldKind::Image),
        Event::ImageStaged,
        Event::Named(FieldKind::Image),
        Event::Named(FieldKind::Metadata),
    ]);
    assert_eq!(phase, Phase::Complete);
    assert_eq!(
        actions,
        vec![
            Action::ParseMetadata,
            Action::Continue,
            Action::Discard,
            Action::StageImage,
            Action::Continue,
            Action::Discard,
            Action::Discard
        ]
    );
}

#[test]
fn complete_request_never_goes_back() {
    for event in [
        Event::Named(FieldKind::Metadata),
        Event::Named(FieldKind::Image),
        Event::Named(FieldKind::Unrecognized),
        Event::MetadataParsed,
        Event::ImageStaged,
    ] {
        assert_eq!(step(Phase::Complete, event).0, Phase::Complete);
    }
    assert_eq!(step(Phase::Complete, Event::Broken), (Phase::Failed, Action::Stop));
}

#[test]
fn failed_request_stays_failed() {
    for event in [
        Event::Unnamed,
        Event::Named(FieldKind::Metadata),
        Event::Named(FieldKind::Image),
        Event::Named(FieldKind::Unrecognized),
        Event::MetadataParsed,
        Event::ImageStaged,
        Event::Broken,
    ] {
        assert_eq!(step(Phase::Failed, event), (Phase::Failed, Action::Stop));
    }
}

#[test]
fn failure_of_the_runner_fails_the_request() {
    for phase in [Phase::Start, Phase::AwaitingMetadata, Phase::AwaitingImage, Phase::Complete] {
        assert_eq!(step(phase, Event::Broken), (Phase::Failed, Action::Stop));
    }
}

#[test]
fn reports_out_of_turn_change_nothing() {
    assert_eq!(step(Phase::Start, Event::ImageStaged), (Phase::Start, Action::Continue));
    assert_eq!(
        step(Phase::AwaitingMetadata, Event::ImageStaged),
        (Phase::AwaitingMetadata, Action::Continue)
    );
    assert_eq!(
        step(Phase::AwaitingImage, Event::MetadataParsed),
        (Phase::AwaitingImage, Action::Continue)
    );
    assert_eq!(step(Phase::Start, Event::MetadataParsed), (Phase::AwaitingImage, Action::Continue));
}

#[test]
fn stream_that_ends_early_is_incomplete() {
    for phase in [Phase::Start, Phase::AwaitingMetadata, Phase::AwaitingImage, Phase::Failed] {
        let error = finish(phase).unwrap_err();
        assert_eq!(error.get_kind(), ErrorKind::Validation);
        assert_eq!(error.get_message(), INCOMPLETE_MESSAGE);
    }
    assert_eq!(INCOMPLETE_MESSAGE, "Could not save image");
}

#[test]
fn rejections_are_validation_errors() {
    let name = rejection_error(Rejection::NoFieldName);
    assert_eq!(name.get_kind(), ErrorKind::Validation);
    assert_eq!(name.get_message(), NO_NAME_MESSAGE);
    assert_eq!(NO_NAME_MESSAGE, "Cannot get name");
    let order = rejection_error(Rejection::ImageBeforeMetadata);
    assert_eq!(order.get_kind(), ErrorKind::Validation);
    assert_eq!(order.get_message(), ORDER_MESSAGE);
}
