use gui::graphics;
use gui::graphics::presentation::{
    Action, Event, Extent, Fault, LoopState, Outcome, Phase, Presenter, WindowEvent, WindowSize,
    FRAME_TIME_WINDOW,
};
use gui::graphics::RuntimeParams;

const QUIET: Action = Action::Housekeep { report_frame_time: false };

fn size(width: u32, height: u32) -> WindowSize {
    WindowSize {
        physical: Extent { width: 2 * width, height: 2 * height },
        logical: Extent { width, height },
    }
}

/// A loop that has set up and waits for the housekeeping of its first frame.
fn started() -> Presenter {
    let mut presenter = Presenter::new(size(800, 600));
    assert_eq!(presenter.step(Event::Start), Action::Setup);
    assert_eq!(presenter.step(Event::SetupDone), QUIET);
    presenter
}

/// A loop that waits for the outcome of an acquisition.
fn acquiring() -> Presenter {
    let mut presenter = started();
    assert_eq!(presenter.step(Event::Housekept), Action::Acquire);
    presenter
}

/// A loop that waits for the outcome of a submission.
fn submitting(image: usize) -> Presenter {
    let mut presenter = acquiring();
    presenter.step(Event::Acquired(image));
    presenter.step(Event::Produced);
    assert_eq!(presenter.step(Event::Uploaded), Action::Submit { image });
    presenter
}

/// A loop that waits for the outcome of a presentation.
fn presenting(image: usize) -> Presenter {
    let mut presenter = submitting(image);
    assert_eq!(presenter.step(Event::Submitted), Action::Present { image });
    presenter
}

/// A loop that waits for the outcome of a rebuild.
fn rebuilding() -> Presenter {
    let mut presenter = acquiring();
    presenter.step(Event::AcquireOutOfDate);
    presenter.step(Event::Housekept);
    presenter.step(Event::Size(Some(size(640, 480))));
    assert_eq!(presenter.state().phase, Phase::Rebuilding);
    presenter
}

fn every_event() -> Vec<Event> {
    vec![
        Event::Start,
        Event::SetupDone,
        Event::SetupFailed,
        Event::Housekept,
        Event::Size(None),
        Event::Size(Some(size(1, 1))),
        Event::Rebuilt,
        Event::RebuildUnsupported,
        Event::RebuildFailed,
        Event::Acquired(0),
        Event::AcquireOutOfDate,
        Event::AcquireFailed,
        Event::Produced,
        Event::Uploaded,
        Event::UploadFailed,
        Event::Submitted,
        Event::SubmitFailed,
        Event::SubmitLost,
        Event::Presented,
        Event::PresentOutOfDate,
        Event::PresentFailed,
        Event::PresentLost,
        Event::SyncReset,
        Event::Drained(vec![]),
    ]
}

#[test]
fn new_loop_has_not_started() {
    let presenter = graphics::new(Some(size(800, 600))).unwrap();
    assert_eq!(
        presenter.state(),
        LoopState {
            phase: Phase::Created,
            show_fps: false,
            resize_pending: false,
            in_flight: false,
            ticks: 0,
            size: size(800, 600),
            image: 0,
        }
    );
}

#[test]
fn no_loop_for_a_window_without_size() {
    assert_eq!(graphics::new(None).err(), Some(Fault::NoWindowDimensions));
}

#[test]
fn a_frame_runs_through_all_its_stages() {
    let mut presenter = started();
    assert_eq!(presenter.step(Event::Housekept), Action::Acquire);
    assert_eq!(
        presenter.step(Event::Acquired(1)),
        Action::Produce(RuntimeParams { window_width: 800, window_height: 600 })
    );
    assert_eq!(presenter.step(Event::Produced), Action::Upload);
    assert_eq!(presenter.step(Event::Uploaded), Action::Submit { image: 1 });
    assert_eq!(presenter.step(Event::Submitted), Action::Present { image: 1 });
    assert_eq!(presenter.step(Event::Presented), Action::DrainEvents);
    assert!(presenter.state().in_flight);
    assert_eq!(presenter.step(Event::Drained(vec![])), QUIET);
    assert_eq!(presenter.state().phase, Phase::Housekeeping);
    assert!(!presenter.state().resize_pending);
}

#[test]
fn stale_surface_at_acquisition_gives_the_frame_up() {
    let mut presenter = acquiring();
    let before = presenter.state();
    assert_eq!(presenter.step(Event::AcquireOutOfDate), QUIET);
    assert_eq!(
        presenter.state(),
        LoopState { phase: Phase::Housekeeping, resize_pending: true, ..before }
    );
    // The next frame rebuilds before it acquires.
    assert_eq!(presenter.step(Event::Housekept), Action::QuerySize);
}

#[test]
fn rejected_size_is_tried_again_with_the_size_of_the_next_frame() {
    let mut presenter = acquiring();
    presenter.step(Event::AcquireOutOfDate);
    assert_eq!(presenter.step(Event::Housekept), Action::QuerySize);
    let nothing = WindowSize {
        physical: Extent { width: 0, height: 0 },
        logical: Extent { width: 0, height: 0 },
    };
    assert_eq!(
        presenter.step(Event::Size(Some(nothing))),
        Action::Rebuild(Extent { width: 0, height: 0 })
    );
    assert_eq!(presenter.step(Event::RebuildUnsupported), QUIET);
    assert!(presenter.state().resize_pending);
    assert_eq!(presenter.step(Event::Housekept), Action::QuerySize);
    assert_eq!(
        presenter.step(Event::Size(Some(size(300, 200)))),
        Action::Rebuild(Extent { width: 600, height: 400 })
    );
    assert_eq!(presenter.step(Event::Rebuilt), Action::Acquire);
    assert!(!presenter.state().resize_pending);
    assert_eq!(
        presenter.step(Event::Acquired(0)),
        Action::Produce(RuntimeParams { window_width: 300, window_height: 200 })
    );
}

#[test]
fn rejected_size_is_tried_again_as_often_as_it_takes() {
    let mut presenter = rebuilding();
    for _ in 0..1000 {
        assert_eq!(presenter.step(Event::RebuildUnsupported), QUIET);
        assert_eq!(presenter.step(Event::Housekept), Action::QuerySize);
        presenter.step(Event::Size(Some(size(0, 0))));
    }
    assert_eq!(presenter.step(Event::Rebuilt), Action::Acquire);
}

#[test]
fn stale_surface_at_presentation_costs_the_frame_only() {
    let mut presenter = presenting(0);
    assert_eq!(
        presenter.step(Event::PresentOutOfDate),
        Action::ResetSync { report_failure: false }
    );
    assert!(presenter.state().resize_pending);
    assert!(!presenter.state().in_flight);
    assert_eq!(presenter.step(Event::SyncReset), Action::DrainEvents);
    assert_eq!(presenter.step(Event::Drained(vec![])), QUIET);
    assert_eq!(presenter.step(Event::Housekept), Action::QuerySize);
}

#[test]
fn failed_presentation_is_reported_and_the_loop_goes_on() {
    let mut presenter = presenting(2);
    presenter.step(Event::Presented);
    presenter.step(Event::Drained(vec![]));
    presenter.step(Event::Housekept);
    presenter.step(Event::Acquired(0));
    presenter.step(Event::Produced);
    presenter.step(Event::Uploaded);
    presenter.step(Event::Submitted);
    assert!(presenter.state().in_flight);
    assert_eq!(presenter.step(Event::PresentFailed), Action::ResetSync { report_failure: true });
    assert!(!presenter.state().in_flight);
    assert!(!presenter.state().resize_pending);
    assert_eq!(presenter.step(Event::SyncReset), Action::DrainEvents);
    assert_eq!(presenter.step(Event::Drained(vec![])), QUIET);
    assert_eq!(presenter.step(Event::Housekept), Action::Acquire);
}

#[test]
fn failed_submission_is_reported_and_the_loop_goes_on() {
    let mut presenter = presenting(2);
    presenter.step(Event::Presented);
    presenter.step(Event::Drained(vec![]));
    presenter.step(Event::Housekept);
    presenter.step(Event::Acquired(0));
    presenter.step(Event::Produced);
    presenter.step(Event::Uploaded);
    let before = presenter.state();
    assert!(before.in_flight);
    assert_eq!(presenter.step(Event::SubmitFailed), Action::ResetSync { report_failure: true });
    assert_eq!(
        presenter.state(),
        LoopState { phase: Phase::Resetting, in_flight: false, ..before }
    );
    assert_eq!(presenter.step(Event::SyncReset), Action::DrainEvents);
    assert_eq!(presenter.step(Event::Drained(vec![])), QUIET);
    // No resize came of it: the next frame acquires at once, and can be presented.
    assert_eq!(presenter.step(Event::Housekept), Action::Acquire);
    presenter.step(Event::Acquired(1));
    presenter.step(Event::Produced);
    presenter.step(Event::Uploaded);
    assert_eq!(presenter.step(Event::Submitted), Action::Present { image: 1 });
    assert_eq!(presenter.step(Event::Presented), Action::DrainEvents);
}

#[test]
fn failed_submission_keeps_a_pending_resize() {
    let mut presenter = presenting(0);
    presenter.step(Event::Presented);
    presenter.step(Event::Drained(vec![WindowEvent::Resized]));
    presenter.step(Event::Housekept);
    presenter.step(Event::Size(Some(size(640, 480))));
    presenter.step(Event::RebuildUnsupported);
    presenter.step(Event::Housekept);
    presenter.step(Event::Size(Some(size(640, 480))));
    presenter.step(Event::Rebuilt);
    presenter.step(Event::Acquired(0));
    presenter.step(Event::Produced);
    presenter.step(Event::Uploaded);
    assert!(!presenter.state().resize_pending);
    presenter.step(Event::SubmitFailed);
    assert!(!presenter.state().resize_pending);
}

#[test]
fn every_submission_may_fail_and_the_loop_still_goes_on() {
    let mut presenter = started();
    for _ in 0..300 {
        assert_eq!(presenter.step(Event::Housekept), Action::Acquire);
        presenter.step(Event::Acquired(0));
        presenter.step(Event::Produced);
        presenter.step(Event::Uploaded);
        assert_eq!(presenter.step(Event::SubmitFailed), Action::ResetSync { report_failure: true });
        assert_eq!(presenter.step(Event::SyncReset), Action::DrainEvents);
        assert_eq!(presenter.step(Event::Drained(vec![WindowEvent::Other])), QUIET);
    }
}

#[test]
fn lost_device_ends_the_loop() {
    let mut at_submission = submitting(0);
    assert_eq!(
        at_submission.step(Event::SubmitLost),
        Action::Stop(Outcome::Failed(Fault::Submit))
    );
    assert_eq!(
        at_submission.step(Event::SyncReset),
        Action::Stop(Outcome::Failed(Fault::Submit))
    );
    let mut at_presentation = presenting(0);
    assert_eq!(
        at_presentation.step(Event::PresentLost),
        Action::Stop(Outcome::Failed(Fault::Present))
    );
}

#[test]
fn close_request_ends_the_loop_after_the_frame() {
    let mut presenter = presenting(0);
    presenter.step(Event::Presented);
    let events = vec![WindowEvent::Other, WindowEvent::CloseRequested, WindowEvent::Other];
    assert_eq!(presenter.step(Event::Drained(events)), Action::Stop(Outcome::Closed));
    assert_eq!(presenter.state().phase, Phase::Stopped(Outcome::Closed));
}

#[test]
fn close_request_wins_over_a_resize() {
    let mut presenter = presenting(0);
    presenter.step(Event::Presented);
    let events = vec![WindowEvent::Resized, WindowEvent::CloseRequested];
    assert_eq!(presenter.step(Event::Drained(events)), Action::Stop(Outcome::Closed));
    assert!(presenter.state().resize_pending);
}

#[test]
fn resize_event_waits_for_the_next_frame() {
    let mut presenter = presenting(0);
    presenter.step(Event::Presented);
    let events = vec![WindowEvent::Other, WindowEvent::Resized, WindowEvent::Resized];
    assert_eq!(presenter.step(Event::Drained(events)), QUIET);
    assert!(presenter.state().resize_pending);
    assert_eq!(presenter.step(Event::Housekept), Action::QuerySize);
}

#[test]
fn other_window_events_change_nothing() {
    let mut presenter = presenting(0);
    presenter.step(Event::Presented);
    assert_eq!(presenter.step(Event::Drained(vec![WindowEvent::Other; 5])), QUIET);
    assert!(!presenter.state().resize_pending);
    assert_eq!(presenter.step(Event::Housekept), Action::Acquire);
}

#[test]
fn each_fault_ends_the_loop() {
    let failed = |mut presenter: Presenter, event: Event, fault: Fault| {
        assert_eq!(presenter.step(event), Action::Stop(Outcome::Failed(fault)));
        assert_eq!(presenter.state().phase, Phase::Stopped(Outcome::Failed(fault)));
    };
    let mut setting_up = Presenter::new(size(1, 1));
    setting_up.step(Event::Start);
    failed(setting_up, Event::SetupFailed, Fault::Setup);

    let mut querying = acquiring();
    querying.step(Event::AcquireOutOfDate);
    querying.step(Event::Housekept);
    failed(querying, Event::Size(None), Fault::NoWindowDimensions);

    failed(rebuilding(), Event::RebuildFailed, Fault::Rebuild);
    failed(acquiring(), Event::AcquireFailed, Fault::Acquire);

    let mut uploading = acquiring();
    uploading.step(Event::Acquired(0));
    uploading.step(Event::Produced);
    failed(uploading, Event::UploadFailed, Fault::Upload);

    failed(submitting(0), Event::SubmitLost, Fault::Submit);
    failed(presenting(0), Event::PresentLost, Fault::Present);

    failed(acquiring(), Event::Presented, Fault::OutOfTurn);
}

#[test]
fn stopped_loop_stays_stopped() {
    for event in every_event() {
        let mut presenter = acquiring();
        presenter.step(Event::AcquireFailed);
        let stopped = presenter.state();
        assert_eq!(presenter.step(event), Action::Stop(Outcome::Failed(Fault::Acquire)));
        assert_eq!(presenter.state(), stopped);
    }
}

#[test]
fn event_out_of_turn_ends_the_loop() {
    // In each phase exactly the events that belong to it are taken.
    let phases: Vec<(fn() -> Presenter, usize)> = vec![
        (|| Presenter::new(size(1, 1)), 1),
        (started, 1),
        (acquiring, 3),
        (rebuilding, 3),
        (|| submitting(0), 3),
        (|| presenting(0), 4),
    ];
    for (phase, expected) in phases {
        let mut taken = 0;
        for event in every_event() {
            let mut presenter = phase();
            if presenter.step(event) != Action::Stop(Outcome::Failed(Fault::OutOfTurn)) {
                taken += 1;
            }
        }
        assert_eq!(taken, expected);
    }
}

/// Takes a loop that waits for housekeeping up to the acquisition.
fn up_to_acquisition(presenter: &mut Presenter) {
    if presenter.step(Event::Housekept) == Action::QuerySize {
        presenter.step(Event::Size(Some(size(800, 600))));
        assert_eq!(presenter.step(Event::Rebuilt), Action::Acquire);
    }
}

#[test]
fn frame_time_is_reported_with_every_hundredth_frame() {
    assert_eq!(FRAME_TIME_WINDOW, 100);
    let mut presenter = Presenter::new(size(800, 600)).show_fps();
    presenter.step(Event::Start);
    let mut action = presenter.step(Event::SetupDone);
    for frame in 1..=350 {
        let report_frame_time = frame % 100 == 0;
        assert_eq!(action, Action::Housekeep { report_frame_time });
        up_to_acquisition(&mut presenter);
        // Frames that are given up count as well.
        action = if frame % 7 == 0 {
            presenter.step(Event::AcquireOutOfDate)
        } else {
            presenter.step(Event::Acquired(frame % 3));
            presenter.step(Event::Produced);
            presenter.step(Event::Uploaded);
            presenter.step(Event::Submitted);
            presenter.step(Event::Presented);
            presenter.step(Event::Drained(vec![]))
        };
    }
}

#[test]
fn frame_time_is_never_reported_unless_asked_for() {
    let mut presenter = started();
    for _ in 0..250 {
        up_to_acquisition(&mut presenter);
        assert_eq!(presenter.step(Event::AcquireOutOfDate), QUIET);
    }
    assert_eq!(presenter.state().ticks, 0);
}

#[test]
fn reports_do_not_change_the_course_of_the_loop() {
    let script = || {
        vec![
            Event::Start,
            Event::SetupDone,
            Event::Housekept,
            Event::AcquireOutOfDate,
            Event::Housekept,
            Event::Size(Some(size(10, 10))),
            Event::RebuildUnsupported,
            Event::Housekept,
            Event::Size(Some(size(20, 20))),
            Event::Rebuilt,
            Event::Acquired(1),
            Event::Produced,
            Event::Uploaded,
            Event::Submitted,
            Event::PresentFailed,
            Event::SyncReset,
            Event::Drained(vec![WindowEvent::Resized]),
            Event::Housekept,
        ]
    };
    let mut quiet = Presenter::new(size(800, 600));
    let mut reporting = Presenter::new(size(800, 600)).show_fps();
    for (a, b) in script().into_iter().zip(script()) {
        let plain = |action| match action {
            Action::Housekeep { .. } => QUIET,
            other => other,
        };
        assert_eq!(plain(quiet.step(a)), plain(reporting.step(b)));
        assert_eq!(
            LoopState { show_fps: false, ticks: 0, ..quiet.state() },
            LoopState { show_fps: false, ticks: 0, ..reporting.state() }
        );
    }
}

#[test]
fn the_acquired_image_is_the_one_presented() {
    for image in [0, 1, 2, 7] {
        let mut presenter = acquiring();
        presenter.step(Event::Acquired(image));
        presenter.step(Event::Produced);
        assert_eq!(presenter.step(Event::Uploaded), Action::Submit { image });
        assert_eq!(presenter.step(Event::Submitted), Action::Present { image });
    }
}

#[test]
fn size_is_remembered_even_when_it_is_rejected() {
    let mut presenter = acquiring();
    presenter.step(Event::AcquireOutOfDate);
    presenter.step(Event::Housekept);
    presenter.step(Event::Size(Some(size(123, 45))));
    presenter.step(Event::RebuildUnsupported);
    assert_eq!(presenter.state().size, size(123, 45));
}
