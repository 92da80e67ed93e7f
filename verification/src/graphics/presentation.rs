//! The control logic of the per-frame presentation loop.
//!
//! Presenting a frame alternates between work on the window and the GPU
//! and decisions about what to do next. The work belongs to a driver; the
//! decisions are made here. The driver performs the [`Action`] it is
//! handed, reports the outcome as an [`Event`], and is handed the next
//! action by [`Presenter::step`], until it is told to stop.
//!
//! One frame runs through housekeeping, an optional rebuild of everything
//! that depends on the size of the drawable area, the acquisition of an
//! image, the production and upload of the geometry, submission,
//! presentation, and the draining of window events. A stale surface and a
//! rejected size are expected while a window is being resized: they end the
//! frame early and leave a resize pending for the next one. A submission or
//! a presentation that fails for another reason costs one frame; the loop
//! ends only where the driver reports that something is gone for good.

use vstd::prelude::*;

use crate::graphics::RuntimeParams;

verus! {

/// The number of frames over which the driver averages the frame time when
/// it is asked to report it.
pub const FRAME_TIME_WINDOW: u32 = 100;

/// A width and a height in pixels.
#[derive(Debug, Clone, Copy, PartialEq, Eq, Structural)]
pub struct Extent {
    pub width: u32,
    pub height: u32,
}

/// The size of the window's drawable area, in device pixels and in logical
/// pixels. The two differ by the scale factor of the display.
#[derive(Debug, Clone, Copy, PartialEq, Eq, Structural)]
pub struct WindowSize {
    pub physical: Extent,
    pub logical: Extent,
}

/// A window event, as far as the loop cares.
#[derive(Debug, Clone, Copy, PartialEq, Eq, Structural)]
pub enum WindowEvent {
    CloseRequested,
    Resized,
    Other,
}

/// The step at which the loop failed for good.
#[derive(Debug, Clone, Copy, PartialEq, Eq, Structural)]
pub enum Fault {
    /// The window did not tell its size.
    NoWindowDimensions,
    /// The resources that depend on the size of the drawable area could
    /// not be built at start-up.
    Setup,
    /// The swapchain could not be rebuilt, for another reason than a
    /// rejected size.
    Rebuild,
    /// No image could be acquired, for another reason than a stale surface.
    Acquire,
    /// The geometry could not be copied into buffers.
    Upload,
    /// The device was lost when the commands were submitted.
    Submit,
    /// The device or the surface was lost when the image was presented.
    Present,
    /// The driver reported an event that the loop was not waiting for.
    OutOfTurn,
}

/// How the loop ended.
#[derive(Debug, Clone, Copy, PartialEq, Eq, Structural)]
pub enum Outcome {
    /// The window was asked to close.
    Closed,
    Failed(Fault),
}

/// What the driver is to do next.
#[derive(Debug, Clone, Copy, PartialEq, Eq, Structural)]
pub enum Action {
    /// Build what depends on the size of the drawable area, for the
    /// swapchain as it is.
    Setup,
    /// Reclaim what the completed frames held, without blocking. With
    /// `report_frame_time`, also log the average frame time since the last
    /// report, [`FRAME_TIME_WINDOW`] frames ago.
    Housekeep { report_frame_time: bool },
    /// Ask the window for its size.
    QuerySize,
    /// Replace the swapchain and all that depends on it by ones of the given
    /// size in device pixels.
    Rebuild(Extent),
    /// Acquire the next image to render into.
    Acquire,
    /// Ask the vertex producer for the geometry of this frame.
    Produce(RuntimeParams),
    /// Copy the geometry into buffers of exactly its size.
    Upload,
    /// Record the draw of the uploaded buffers into the image with the given
    /// index and submit it, to run after the previous frame's work and
    /// after the image has become available.
    Submit { image: usize },
    /// Present the image with the given index once the submitted work has
    /// completed.
    Present { image: usize },
    /// Forget the failed frame's work and go on from a state with no work
    /// pending. With `report_failure`, also log the failure.
    ResetSync { report_failure: bool },
    /// Drain the pending window events without blocking.
    DrainEvents,
    /// Leave the loop.
    Stop(Outcome),
}

/// What the driver reports.
#[derive(Debug)]
pub enum Event {
    /// The driver is ready to run the loop.
    Start,
    SetupDone,
    SetupFailed,
    Housekept,
    /// The window's size, or `None` where the window does not tell.
    Size(Option<WindowSize>),
    Rebuilt,
    /// The presentation engine rejected the size.
    RebuildUnsupported,
    RebuildFailed,
    /// The index of the acquired image.
    Acquired(usize),
    /// The surface no longer matches the window.
    AcquireOutOfDate,
    AcquireFailed,
    Produced,
    Uploaded,
    UploadFailed,
    Submitted,
    /// The commands could not be recorded or submitted; the device is still
    /// there.
    SubmitFailed,
    /// The device is gone.
    SubmitLost,
    Presented,
    /// The surface no longer matches the window.
    PresentOutOfDate,
    /// The image could not be presented; the device and the surface are
    /// still there.
    PresentFailed,
    /// The device or the surface is gone.
    PresentLost,
    SyncReset,
    /// The window events that were pending, oldest first.
    Drained(Vec<WindowEvent>),
}

/// The outcome that the loop is waiting for.
#[derive(Debug, Clone, Copy, PartialEq, Eq, Structural)]
pub enum Phase {
    Created,
    SettingUp,
    Housekeeping,
    QueryingSize,
    Rebuilding,
    Acquiring,
    Producing,
    Uploading,
    Submitting,
    Presenting,
    Resetting,
    Draining,
    Stopped(Outcome),
}

/// All that the loop remembers between two steps.
#[derive(Debug, Clone, Copy, PartialEq, Eq, Structural)]
pub struct LoopState {
    pub phase: Phase,
    /// Whether frame times are reported.
    pub show_fps: bool,
    /// Whether the swapchain must be rebuilt before the next image is
    /// acquired.
    pub resize_pending: bool,
    /// Whether the work of a presented frame may still be running.
    pub in_flight: bool,
    /// The frames begun since the last report of the frame time.
    pub ticks: u32,
    /// The size of the window when it was last asked.
    pub size: WindowSize,
    /// The index of the image acquired for the frame under way.
    pub image: usize,
}

/// Whether `events` holds a request to close the window.
pub open spec fn close_requested(events: Seq<WindowEvent>) -> bool {
    exists|i: int| 0 <= i < events.len() && events[i] == WindowEvent::CloseRequested
}

/// Whether `events` tells of a resize.
pub open spec fn resized(events: Seq<WindowEvent>) -> bool {
    exists|i: int| 0 <= i < events.len() && events[i] == WindowEvent::Resized
}

impl LoopState {
    /// The state of a loop that has not started, for a window of the given
    /// size.
    pub open spec fn initial(size: WindowSize) -> LoopState {
        LoopState {
            phase: Phase::Created,
            show_fps: false,
            resize_pending: false,
            in_flight: false,
            ticks: 0,
            size,
            image: 0,
        }
    }

    /// What the producer is told about the drawable area.
    pub open spec fn params(self) -> RuntimeParams {
        RuntimeParams {
            window_width: self.size.logical.width,
            window_height: self.size.logical.height,
        }
    }

    /// Whether the frame that begins now completes a window of frame times.
    pub open spec fn report_due(self) -> bool {
        self.show_fps && self.ticks + 1 >= FRAME_TIME_WINDOW
    }

    /// The beginning of a frame: housekeeping first.
    pub open spec fn begin_frame(self) -> (LoopState, Action) {
        let ticks = if !self.show_fps {
            self.ticks
        } else if self.report_due() {
            0u32
        } else {
            (self.ticks + 1) as u32
        };
        (
            LoopState { phase: Phase::Housekeeping, ticks, ..self },
            Action::Housekeep { report_frame_time: self.report_due() },
        )
    }

    /// The end of the loop.
    pub open spec fn stop(self, outcome: Outcome) -> (LoopState, Action) {
        (LoopState { phase: Phase::Stopped(outcome), ..self }, Action::Stop(outcome))
    }

    /// What holds of every state that a loop passes through: the count of
    /// frames stays within its window, the size is asked for and the
    /// swapchain rebuilt only while a resize is pending, and no work is in
    /// flight while the driver resets.
    pub open spec fn inv(self) -> bool {
        &&& self.ticks < FRAME_TIME_WINDOW
        &&& self.phase == Phase::QueryingSize || self.phase == Phase::Rebuilding
            ==> self.resize_pending
        &&& self.phase == Phase::Resetting ==> !self.in_flight
    }

    /// The state without what only serves the report of the frame time.
    pub open spec fn steering(self) -> LoopState {
        LoopState { show_fps: false, ticks: 0, ..self }
    }

    /// The end of the loop on an event that it was not waiting for.
    pub open spec fn out_of_turn(self) -> (LoopState, Action) {
        self.stop(Outcome::Failed(Fault::OutOfTurn))
    }

    /// Before the loop runs: the driver is asked to set up.
    pub open spec fn when_created(self, event: Event) -> (LoopState, Action) {
        match event {
            Event::Start => (LoopState { phase: Phase::SettingUp, ..self }, Action::Setup),
            _ => self.out_of_turn(),
        }
    }

    /// After set-up the first frame begins. A failed set-up is final.
    pub open spec fn when_setting_up(self, event: Event) -> (LoopState, Action) {
        match event {
            Event::SetupDone => self.begin_frame(),
            Event::SetupFailed => self.stop(Outcome::Failed(Fault::Setup)),
            _ => self.out_of_turn(),
        }
    }

    /// After housekeeping: a pending resize is dealt with before an image is
    /// acquired.
    pub open spec fn when_housekeeping(self, event: Event) -> (LoopState, Action) {
        match event {
            Event::Housekept => if self.resize_pending {
                (LoopState { phase: Phase::QueryingSize, ..self }, Action::QuerySize)
            } else {
                (LoopState { phase: Phase::Acquiring, ..self }, Action::Acquire)
            },
            _ => self.out_of_turn(),
        }
    }

    /// The size that the window tells is remembered and the swapchain is
    /// rebuilt for it. A window that does not tell its size is final.
    pub open spec fn when_querying_size(self, event: Event) -> (LoopState, Action) {
        match event {
            Event::Size(Some(size)) => (
                LoopState { phase: Phase::Rebuilding, size, ..self },
                Action::Rebuild(size.physical),
            ),
            Event::Size(None) => self.stop(Outcome::Failed(Fault::NoWindowDimensions)),
            _ => self.out_of_turn(),
        }
    }

    /// A rebuilt swapchain settles the resize. A rejected size ends the
    /// frame and leaves the resize pending. Any other failure is final.
    pub open spec fn when_rebuilding(self, event: Event) -> (LoopState, Action) {
        match event {
            Event::Rebuilt => (
                LoopState { phase: Phase::Acquiring, resize_pending: false, ..self },
                Action::Acquire,
            ),
            Event::RebuildUnsupported => (LoopState { resize_pending: true, ..self }).begin_frame(),
            Event::RebuildFailed => self.stop(Outcome::Failed(Fault::Rebuild)),
            _ => self.out_of_turn(),
        }
    }

    /// With an image acquired the geometry is asked for. A stale surface
    /// ends the frame and leaves a resize pending. Any other failure is
    /// final.
    pub open spec fn when_acquiring(self, event: Event) -> (LoopState, Action) {
        match event {
            Event::Acquired(image) => (
                LoopState { phase: Phase::Producing, image, ..self },
                Action::Produce(self.params()),
            ),
            Event::AcquireOutOfDate => (LoopState { resize_pending: true, ..self }).begin_frame(),
            Event::AcquireFailed => self.stop(Outcome::Failed(Fault::Acquire)),
            _ => self.out_of_turn(),
        }
    }

    /// The produced geometry is uploaded.
    pub open spec fn when_producing(self, event: Event) -> (LoopState, Action) {
        match event {
            Event::Produced => (LoopState { phase: Phase::Uploading, ..self }, Action::Upload),
            _ => self.out_of_turn(),
        }
    }

    /// The uploaded geometry is drawn into the acquired image. A failed
    /// upload is final.
    pub open spec fn when_uploading(self, event: Event) -> (LoopState, Action) {
        match event {
            Event::Uploaded => (
                LoopState { phase: Phase::Submitting, ..self },
                Action::Submit { image: self.image },
            ),
            Event::UploadFailed => self.stop(Outcome::Failed(Fault::Upload)),
            _ => self.out_of_turn(),
        }
    }

    /// The submitted image is presented. A failed submission costs the
    /// frame, not the loop: the driver starts over with no work pending, and
    /// whether a resize is pending stays as it was. Only a lost device is
    /// final.
    pub open spec fn when_submitting(self, event: Event) -> (LoopState, Action) {
        match event {
            Event::Submitted => (
                LoopState { phase: Phase::Presenting, ..self },
                Action::Present { image: self.image },
            ),
            Event::SubmitFailed => (
                LoopState { phase: Phase::Resetting, in_flight: false, ..self },
                Action::ResetSync { report_failure: true },
            ),
            Event::SubmitLost => self.stop(Outcome::Failed(Fault::Submit)),
            _ => self.out_of_turn(),
        }
    }

    /// A presented frame leaves its work in flight. A failed presentation
    /// costs the frame, not the loop: the driver starts over with no work
    /// pending, and a stale surface leaves a resize pending. Only a lost
    /// device or surface is final.
    pub open spec fn when_presenting(self, event: Event) -> (LoopState, Action) {
        match event {
            Event::Presented => (
                LoopState { phase: Phase::Draining, in_flight: true, ..self },
                Action::DrainEvents,
            ),
            Event::PresentOutOfDate => (
                LoopState {
                    phase: Phase::Resetting,
                    resize_pending: true,
                    in_flight: false,
                    ..self
                },
                Action::ResetSync { report_failure: false },
            ),
            Event::PresentFailed => (
                LoopState { phase: Phase::Resetting, in_flight: false, ..self },
                Action::ResetSync { report_failure: true },
            ),
            Event::PresentLost => self.stop(Outcome::Failed(Fault::Present)),
            _ => self.out_of_turn(),
        }
    }

    /// With the failed frame's work forgotten, the frame ends as any other.
    pub open spec fn when_resetting(self, event: Event) -> (LoopState, Action) {
        match event {
            Event::SyncReset => (LoopState { phase: Phase::Draining, ..self }, Action::DrainEvents),
            _ => self.out_of_turn(),
        }
    }

    /// A request to close ends the loop. A resize is left for the next
    /// frame, which begins at once.
    pub open spec fn when_draining(self, event: Event) -> (LoopState, Action) {
        match event {
            Event::Drained(events) => {
                let after = LoopState {
                    resize_pending: self.resize_pending || resized(events@),
                    ..self
                };
                if close_requested(events@) {
                    after.stop(Outcome::Closed)
                } else {
                    after.begin_frame()
                }
            },
            _ => self.out_of_turn(),
        }
    }

    /// The loop's reaction to an event: the state it moves to and the action
    /// it asks for. A loop that has stopped stays as it is.
    pub open spec fn next(self, event: Event) -> (LoopState, Action) {
        match self.phase {
            Phase::Created => self.when_created(event),
            Phase::SettingUp => self.when_setting_up(event),
            Phase::Housekeeping => self.when_housekeeping(event),
            Phase::QueryingSize => self.when_querying_size(event),
            Phase::Rebuilding => self.when_rebuilding(event),
            Phase::Acquiring => self.when_acquiring(event),
            Phase::Producing => self.when_producing(event),
            Phase::Uploading => self.when_uploading(event),
            Phase::Submitting => self.when_submitting(event),
            Phase::Presenting => self.when_presenting(event),
            Phase::Resetting => self.when_resetting(event),
            Phase::Draining => self.when_draining(event),
            Phase::Stopped(outcome) => (self, Action::Stop(outcome)),
        }
    }
}

impl Phase {
    /// The place of the phase in the course of the loop.
    pub open spec fn rank(self) -> nat {
        match self {
            Phase::Created => 0,
            Phase::SettingUp => 1,
            Phase::Housekeeping => 2,
            Phase::QueryingSize => 3,
            Phase::Rebuilding => 4,
            Phase::Acquiring => 5,
            Phase::Producing => 6,
            Phase::Uploading => 7,
            Phase::Submitting => 8,
            Phase::Presenting => 9,
            Phase::Resetting => 10,
            Phase::Draining => 11,
            Phase::Stopped(_) => 12,
        }
    }
}

impl Action {
    /// The action without the request to report the frame time.
    pub open spec fn steering(self) -> Action {
        match self {
            Action::Housekeep { .. } => Action::Housekeep { report_frame_time: false },
            _ => self,
        }
    }
}

/// Every state that a loop passes through keeps [`LoopState::inv`].
pub proof fn lemma_inv(s: LoopState, event: Event, size: WindowSize)
    ensures
        LoopState::initial(size).inv(),
        s.inv() ==> s.next(event).0.inv(),
{
}

/// A stale surface at acquisition presents nothing. The frame ends there and
/// the next one begins with housekeeping; of what the loop remembers nothing
/// changes but that a resize is now pending, and the count of frames for
/// the report of the frame time.
pub proof fn lemma_stale_acquire_abandons_frame(s: LoopState)
    requires
        s.phase == Phase::Acquiring,
    ensures
        s.next(Event::AcquireOutOfDate).1 is Housekeep,
        s.next(Event::AcquireOutOfDate).0.steering() == (LoopState {
            phase: Phase::Housekeeping,
            resize_pending: true,
            ..s.steering()
        }),
{
}

/// A rejected size does not end the loop. The frame is given up with the
/// resize still pending, and the next frame asks the window anew and
/// rebuilds the swapchain for the size that the window tells then.
pub proof fn lemma_rejected_size_is_retried(s: LoopState, fresh: WindowSize)
    requires
        s.phase == Phase::Rebuilding,
    ensures
        ({
            let (given_up, first) = s.next(Event::RebuildUnsupported);
            let (asking, second) = given_up.next(Event::Housekept);
            let (rebuilding, third) = asking.next(Event::Size(Some(fresh)));
            &&& first is Housekeep
            &&& given_up.resize_pending
            &&& second == Action::QuerySize
            &&& third == Action::Rebuild(fresh.physical)
            &&& rebuilding.size == fresh
            &&& rebuilding.resize_pending
        }),
{
}

/// A frame whose every stage succeeds is presented: from housekeeping with
/// no resize pending the loop asks for each stage in turn, presents the image
/// that was acquired, and, unless the window was asked to close, begins the
/// next frame with the presented frame's work in flight and with a resize
/// pending exactly if the window told of one.
pub proof fn lemma_frame_presents(s: LoopState, image: usize, drained: Vec<WindowEvent>)
    requires
        s.phase == Phase::Housekeeping,
        !s.resize_pending,
        !close_requested(drained@),
    ensures
        ({
            let (acquiring, first) = s.next(Event::Housekept);
            let (producing, second) = acquiring.next(Event::Acquired(image));
            let (uploading, third) = producing.next(Event::Produced);
            let (submitting, fourth) = uploading.next(Event::Uploaded);
            let (presenting, fifth) = submitting.next(Event::Submitted);
            let (draining, sixth) = presenting.next(Event::Presented);
            let (begun, seventh) = draining.next(Event::Drained(drained));
            &&& first == Action::Acquire
            &&& second == Action::Produce(s.params())
            &&& third == Action::Upload
            &&& fourth == (Action::Submit { image })
            &&& fifth == (Action::Present { image })
            &&& sixth == Action::DrainEvents
            &&& seventh is Housekeep
            &&& begun.steering() == (LoopState {
                in_flight: true,
                resize_pending: resized(drained@),
                image,
                ..s.steering()
            })
        }),
{
}

/// The failures that a resize brings with it never end the loop: a rejected
/// size and a stale surface, at acquisition or at presentation. Each of them
/// leaves a resize pending.
pub proof fn lemma_transient_failures_go_on(s: LoopState)
    ensures
        s.phase == Phase::Rebuilding ==> {
            let (given_up, begin) = s.next(Event::RebuildUnsupported);
            begin is Housekeep && given_up.resize_pending
        },
        s.phase == Phase::Acquiring ==> {
            let (given_up, begin) = s.next(Event::AcquireOutOfDate);
            begin is Housekeep && given_up.resize_pending
        },
        s.phase == Phase::Presenting ==> {
            let (stale, reset) = s.next(Event::PresentOutOfDate);
            &&& reset == Action::ResetSync { report_failure: false }
            &&& stale.resize_pending
            &&& !stale.in_flight
            &&& stale.next(Event::SyncReset).1 == Action::DrainEvents
        },
{
}

/// A submission or a presentation that fails while the device is still there
/// costs the frame and nothing else: the failure is logged, the driver
/// starts over with no work pending, whether a resize is pending stays as it
/// was, and the frame ends like any other, so that, unless the window was
/// asked to close, the next frame begins.
pub proof fn lemma_failed_frame_is_survived(s: LoopState, drained: Vec<WindowEvent>)
    requires
        s.phase == Phase::Submitting || s.phase == Phase::Presenting,
        !close_requested(drained@),
    ensures
        ({
            let failure = if s.phase == Phase::Submitting {
                Event::SubmitFailed
            } else {
                Event::PresentFailed
            };
            let (failed, reset) = s.next(failure);
            let (draining, drain) = failed.next(Event::SyncReset);
            let (begun, begin) = draining.next(Event::Drained(drained));
            &&& reset == Action::ResetSync { report_failure: true }
            &&& failed == (LoopState { phase: Phase::Resetting, in_flight: false, ..s })
            &&& drain == Action::DrainEvents
            &&& draining == (LoopState { phase: Phase::Draining, ..failed })
            &&& begin is Housekeep
            &&& begun.steering() == (LoopState {
                phase: Phase::Housekeeping,
                in_flight: false,
                resize_pending: s.resize_pending || resized(drained@),
                ..s.steering()
            })
        }),
{
}

/// A step ends the loop with a fault only where the driver reports that
/// something is gone for good or cannot be had: the set-up, the window's
/// size, the swapchain, an image, the buffers, the device or the surface.
/// Every other event that the loop is waiting for lets it go on.
pub proof fn lemma_faults_are_reported(s: LoopState, event: Event)
    requires
        !(s.phase is Stopped),
    ensures
        ({
            let after = s.next(event).0.phase;
            after matches Phase::Stopped(Outcome::Failed(fault)) ==> {
                ||| fault == Fault::OutOfTurn
                ||| fault == Fault::Setup && event is SetupFailed
                ||| fault == Fault::NoWindowDimensions && event == Event::Size(None)
                ||| fault == Fault::Rebuild && event is RebuildFailed
                ||| fault == Fault::Acquire && event is AcquireFailed
                ||| fault == Fault::Upload && event is UploadFailed
                ||| fault == Fault::Submit && event is SubmitLost
                ||| fault == Fault::Present && event is PresentLost
            }
        }),
{
}

/// Within one frame the loop only moves forward: a step leads to a later
/// phase of the same frame, to the beginning of the next frame, or to the
/// end of the loop. So each stage of a frame is run at most once, and in
/// order.
pub proof fn lemma_frame_moves_forward(s: LoopState, event: Event)
    ensures
        ({
            let after = s.next(event).0.phase;
            after is Stopped || after == Phase::Housekeeping || after.rank() > s.phase.rank()
        }),
{
}

/// Each stage from the production of the geometry on is asked for by one
/// step only: the one that reports the success of the stage before it. The
/// image that is drawn into and presented is the one that was acquired for
/// the frame.
pub proof fn lemma_stages_follow_success(s: LoopState, event: Event)
    ensures
        ({
            let (after, action) = s.next(event);
            &&& action is Produce ==> s.phase == Phase::Acquiring && event is Acquired
                && action == Action::Produce(s.params()) && after.image == event->Acquired_0
            &&& action is Upload ==> s.phase == Phase::Producing && event is Produced
            &&& action is Submit ==> s.phase == Phase::Uploading && event is Uploaded
                && action == (Action::Submit { image: s.image })
            &&& action is Present ==> s.phase == Phase::Submitting && event is Submitted
                && action == (Action::Present { image: s.image })
            &&& !(event is Acquired) ==> after.image == s.image
        }),
{
}

/// A resize is dealt with at the beginning of a frame and nowhere else: the
/// window is asked for its size right after housekeeping, the swapchain is
/// rebuilt for the size that the window told, and an image is acquired only
/// when no resize is pending. The geometry is produced for the size that the
/// window told last.
pub proof fn lemma_resize_before_acquisition(s: LoopState, event: Event)
    ensures
        ({
            let (after, action) = s.next(event);
            &&& action == Action::QuerySize ==> s.phase == Phase::Housekeeping && s.resize_pending
            &&& action is Rebuild ==> s.phase == Phase::QueryingSize && event is Size
                && event->Size_0 is Some && after.size == event->Size_0->Some_0
                && action == Action::Rebuild(after.size.physical)
            &&& action == Action::Acquire ==> !after.resize_pending
            &&& !(event is Size) ==> after.size == s.size
            &&& action is Produce ==> action == Action::Produce(after.params())
        }),
{
}

/// The loop ends on a request to close the window, drained at the end of a
/// frame, and on nothing else but a fault.
pub proof fn lemma_closes_on_request_only(s: LoopState, event: Event)
    requires
        !(s.phase is Stopped),
    ensures
        s.next(event).0.phase == Phase::Stopped(Outcome::Closed) <==> s.phase == Phase::Draining
            && event is Drained && close_requested(event->Drained_0@),
        s.next(event).1 == Action::Stop(Outcome::Closed) <==> s.next(event).0.phase
            == Phase::Stopped(Outcome::Closed),
{
}

/// Reporting the frame time has no effect on the course of the loop: two
/// loops that differ in nothing else react to an event in the same way, but
/// for the request to report.
pub proof fn lemma_reports_do_not_steer(s: LoopState, t: LoopState, event: Event)
    requires
        s.steering() == t.steering(),
    ensures
        s.next(event).0.steering() == t.next(event).0.steering(),
        s.next(event).1.steering() == t.next(event).1.steering(),
{
}

/// With reports switched on, the frame time is reported with every
/// [`FRAME_TIME_WINDOW`]th frame that begins; without, never.
pub proof fn lemma_report_cadence(s: LoopState)
    requires
        s.inv(),
    ensures
        ({
            let (began, action) = s.begin_frame();
            &&& began.inv()
            &&& action == (Action::Housekeep {
                report_frame_time: s.show_fps && s.ticks == FRAME_TIME_WINDOW - 1,
            })
            &&& s.show_fps ==> began.ticks == (s.ticks + 1) % (FRAME_TIME_WINDOW as int)
            &&& !s.show_fps ==> began.ticks == s.ticks
        }),
{
}

/// The decisions of one presentation loop.
pub struct Presenter {
    state: LoopState,
}

impl View for Presenter {
    type V = LoopState;

    closed spec fn view(&self) -> LoopState {
        self.state
    }
}

impl Presenter {
    #[verifier::type_invariant]
    spec fn consistent(self) -> bool {
        self.state.inv()
    }

    /// The loop for a window of the given size, not yet started and without
    /// reports of the frame time.
    pub fn new(size: WindowSize) -> (presenter: Self)
        ensures
            presenter@ == LoopState::initial(size),
    {
        Presenter {
            state: LoopState {
                phase: Phase::Created,
                show_fps: false,
                resize_pending: false,
                in_flight: false,
                ticks: 0,
                size,
                image: 0,
            },
        }
    }

    /// The same loop with reports of the frame time.
    pub fn show_fps(self) -> (presenter: Self)
        ensures
            presenter@ == (LoopState { show_fps: true, ..self@ }),
    {
        proof {
            use_type_invariant(&self);
        }
        Presenter { state: LoopState { show_fps: true, ..self.state } }
    }

    /// What the loop remembers. It keeps [`LoopState::inv`] at every step.
    pub fn state(&self) -> (state: LoopState)
        ensures
            state == self@,
            state.inv(),
    {
        proof {
            use_type_invariant(self);
        }
        self.state
    }

    /// Takes the driver's report of what happened and says what to do next.
    pub fn step(&mut self, event: Event) -> (action: Action)
        ensures
            (final(self)@, action) == old(self)@.next(event),
    {
        proof {
            use_type_invariant(&*self);
            lemma_inv(self.state, event, self.state.size);
        }
        let s = self.state;
        let (state, action) = match s.phase {
            Phase::Created => match event {
                Event::Start => (LoopState { phase: Phase::SettingUp, ..s }, Action::Setup),
                _ => halt(s, Outcome::Failed(Fault::OutOfTurn)),
            },
            Phase::SettingUp => match event {
                Event::SetupDone => start_frame(s),
                Event::SetupFailed => halt(s, Outcome::Failed(Fault::Setup)),
                _ => halt(s, Outcome::Failed(Fault::OutOfTurn)),
            },
            Phase::Housekeeping => match event {
                Event::Housekept => {
                    if s.resize_pending {
                        (LoopState { phase: Phase::QueryingSize, ..s }, Action::QuerySize)
                    } else {
                        (LoopState { phase: Phase::Acquiring, ..s }, Action::Acquire)
                    }
                },
                _ => halt(s, Outcome::Failed(Fault::OutOfTurn)),
            },
            Phase::QueryingSize => sized(s, event),
            Phase::Rebuilding => rebuilt(s, event),
            Phase::Acquiring => acquired(s, event),
            Phase::Producing => match event {
                Event::Produced => (LoopState { phase: Phase::Uploading, ..s }, Action::Upload),
                _ => halt(s, Outcome::Failed(Fault::OutOfTurn)),
            },
            Phase::Uploading => match event {
                Event::Uploaded => (
                    LoopState { phase: Phase::Submitting, ..s },
                    Action::Submit { image: s.image },
                ),
                Event::UploadFailed => halt(s, Outcome::Failed(Fault::Upload)),
                _ => halt(s, Outcome::Failed(Fault::OutOfTurn)),
            },
            Phase::Submitting => submitted(s, event),
            Phase::Presenting => presented(s, event),
            Phase::Resetting => match event {
                Event::SyncReset => (LoopState { phase: Phase::Draining, ..s }, Action::DrainEvents),
                _ => halt(s, Outcome::Failed(Fault::OutOfTurn)),
            },
            Phase::Draining => drained(s, event),
            Phase::Stopped(outcome) => (s, Action::Stop(outcome)),
        };
        self.state = state;
        action
    }
}

/// The reaction to the window's answer about its size.
fn sized(s: LoopState, event: Event) -> (r: (LoopState, Action))
    ensures
        r == s.when_querying_size(event),
{
    match event {
        Event::Size(Some(size)) => (
            LoopState { phase: Phase::Rebuilding, size, ..s },
            Action::Rebuild(size.physical),
        ),
        Event::Size(None) => halt(s, Outcome::Failed(Fault::NoWindowDimensions)),
        _ => halt(s, Outcome::Failed(Fault::OutOfTurn)),
    }
}

/// The reaction to the outcome of a rebuild.
fn rebuilt(s: LoopState, event: Event) -> (r: (LoopState, Action))
    ensures
        r == s.when_rebuilding(event),
{
    match event {
        Event::Rebuilt => (
            LoopState { phase: Phase::Acquiring, resize_pending: false, ..s },
            Action::Acquire,
        ),
        Event::RebuildUnsupported => start_frame(LoopState { resize_pending: true, ..s }),
        Event::RebuildFailed => halt(s, Outcome::Failed(Fault::Rebuild)),
        _ => halt(s, Outcome::Failed(Fault::OutOfTurn)),
    }
}

/// The reaction to the outcome of an acquisition.
fn acquired(s: LoopState, event: Event) -> (r: (LoopState, Action))
    ensures
        r == s.when_acquiring(event),
{
    match event {
        Event::Acquired(image) => (
            LoopState { phase: Phase::Producing, image, ..s },
            Action::Produce(
                RuntimeParams {
                    window_width: s.size.logical.width,
                    window_height: s.size.logical.height,
                },
            ),
        ),
        Event::AcquireOutOfDate => start_frame(LoopState { resize_pending: true, ..s }),
        Event::AcquireFailed => halt(s, Outcome::Failed(Fault::Acquire)),
        _ => halt(s, Outcome::Failed(Fault::OutOfTurn)),
    }
}

/// The reaction to the outcome of a submission.
fn submitted(s: LoopState, event: Event) -> (r: (LoopState, Action))
    ensures
        r == s.when_submitting(event),
{
    match event {
        Event::Submitted => (
            LoopState { phase: Phase::Presenting, ..s },
            Action::Present { image: s.image },
        ),
        Event::SubmitFailed => (
            LoopState { phase: Phase::Resetting, in_flight: false, ..s },
            Action::ResetSync { report_failure: true },
        ),
        Event::SubmitLost => halt(s, Outcome::Failed(Fault::Submit)),
        _ => halt(s, Outcome::Failed(Fault::OutOfTurn)),
    }
}

/// The reaction to the outcome of a presentation.
fn presented(s: LoopState, event: Event) -> (r: (LoopState, Action))
    ensures
        r == s.when_presenting(event),
{
    match event {
        Event::Presented => (
            LoopState { phase: Phase::Draining, in_flight: true, ..s },
            Action::DrainEvents,
        ),
        Event::PresentOutOfDate => (
            LoopState { phase: Phase::Resetting, resize_pending: true, in_flight: false, ..s },
            Action::ResetSync { report_failure: false },
        ),
        Event::PresentFailed => (
            LoopState { phase: Phase::Resetting, in_flight: false, ..s },
            Action::ResetSync { report_failure: true },
        ),
        Event::PresentLost => halt(s, Outcome::Failed(Fault::Present)),
        _ => halt(s, Outcome::Failed(Fault::OutOfTurn)),
    }
}

/// The reaction to the drained window events.
fn drained(s: LoopState, event: Event) -> (r: (LoopState, Action))
    ensures
        r == s.when_draining(event),
{
    match event {
        Event::Drained(events) => {
            let (close, resize) = scan(&events);
            let after = LoopState { resize_pending: s.resize_pending || resize, ..s };
            if close {
                halt(after, Outcome::Closed)
            } else {
                start_frame(after)
            }
        },
        _ => halt(s, Outcome::Failed(Fault::OutOfTurn)),
    }
}

/// Begins a frame.
fn start_frame(s: LoopState) -> (r: (LoopState, Action))
    ensures
        r == s.begin_frame(),
{
    if !s.show_fps {
        (LoopState { phase: Phase::Housekeeping, ..s }, Action::Housekeep { report_frame_time: false })
    } else if s.ticks >= FRAME_TIME_WINDOW - 1 {
        (
            LoopState { phase: Phase::Housekeeping, ticks: 0, ..s },
            Action::Housekeep { report_frame_time: true },
        )
    } else {
        (
            LoopState { phase: Phase::Housekeeping, ticks: s.ticks + 1, ..s },
            Action::Housekeep { report_frame_time: false },
        )
    }
}

/// Ends the loop.
fn halt(s: LoopState, outcome: Outcome) -> (r: (LoopState, Action))
    ensures
        r == s.stop(outcome),
{
    (LoopState { phase: Phase::Stopped(outcome), ..s }, Action::Stop(outcome))
}

/// Looks through drained window events for a request to close and for a
/// resize.
fn scan(events: &Vec<WindowEvent>) -> (found: (bool, bool))
    ensures
        found.0 == close_requested(events@),
        found.1 == resized(events@),
{
    let mut close = false;
    let mut resize = false;
    let mut i: usize = 0;
    while i < events.len()
        invariant
            i <= events@.len(),
            close == close_requested(events@.take(i as int)),
            resize == resized(events@.take(i as int)),
        decreases events@.len() - i,
    {
        let ghost before = events@.take(i as int);
        let ghost after = events@.take(i + 1);
        assert(forall|k: int| 0 <= k < i ==> before[k] == after[k]);
        assert(after[i as int] == events@[i as int]);
        match events[i] {
            WindowEvent::CloseRequested => {
                close = true;
            },
            WindowEvent::Resized => {
                resize = true;
            },
            WindowEvent::Other => {},
        }
        i += 1;
    }
    assert(events@.take(i as int) == events@);
    (close, resize)
}

} // verus!
