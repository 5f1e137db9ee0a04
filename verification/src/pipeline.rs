//! The frame loop as a state machine. The work on pictures that only a vision
//! library can do happens outside: the pipeline says which piece of work is
//! due, is told how it ended, and decides what comes next.

use crate::buffer::{recent, TemporalBuffer, WINDOW};
use crate::frame::Frame;
use crate::hue::{band_of, BoundPolicy, HueBand, HueSelector, SelectorView, FUDGE};
use crate::mask::{lemma_mask_of_wf, mask_frame, mask_of, Mask, MaskView};
use vstd::prelude::*;

verus! {

/// Strength of the noise filter.
pub const DENOISE_STRENGTH: u32 = 300;

/// Side of the patch that the noise filter compares, in pixels.
pub const TEMPLATE_WINDOW: usize = 7;

/// Side of the area in which the noise filter looks for patches, in pixels.
pub const SEARCH_WINDOW: usize = 7;

/// Value given to the pixels that the automatic threshold lets through.
pub const THRESHOLD_MAX: u8 = 255;

/// Brightness of every channel of the colour in which contours are drawn.
pub const CONTOUR_BRIGHTNESS: u8 = 255;

/// Thickness of the line in which contours are drawn.
pub const CONTOUR_THICKNESS: usize = 1;

/// How the masks of the full buffer are collapsed into one.
#[derive(Clone, Copy, Debug, PartialEq, Eq, Structural)]
pub struct DenoiseParams {
    /// Position in the buffer of the mask that is denoised.
    pub target: usize,
    /// Number of masks around the target that are taken into account.
    pub temporal_window: usize,
    /// Strength of the filter.
    pub strength: u32,
    /// Side of the patch that is compared, in pixels.
    pub template_window: usize,
    /// Side of the area that is searched, in pixels.
    pub search_window: usize,
}

impl DenoiseParams {
    /// The three windows are odd, and the masks around the target that the
    /// temporal window covers all lie in a sequence of `frames` masks.
    pub open spec fn fits(self, frames: nat) -> bool {
        &&& self.temporal_window % 2 == 1
        &&& self.template_window % 2 == 1
        &&& self.search_window % 2 == 1
        &&& self.target >= self.temporal_window / 2
        &&& self.target + self.temporal_window / 2 < frames
    }
}

/// The denoising parameters of the pipeline: target and temporal window are
/// both half the length of the buffer.
pub open spec fn denoise_setting() -> DenoiseParams {
    DenoiseParams {
        target: WINDOW / 2,
        temporal_window: WINDOW / 2,
        strength: DENOISE_STRENGTH,
        template_window: TEMPLATE_WINDOW,
        search_window: SEARCH_WINDOW,
    }
}

/// The denoising parameters of the pipeline. They fit a full buffer.
pub fn denoise_params() -> (params: DenoiseParams)
    ensures
        params == denoise_setting(),
        params.fits(WINDOW as nat),
{
    DenoiseParams {
        target: WINDOW / 2,
        temporal_window: WINDOW / 2,
        strength: DENOISE_STRENGTH,
        template_window: TEMPLATE_WINDOW,
        search_window: SEARCH_WINDOW,
    }
}

/// The key that a poll reported: a positive code is a key, anything else
/// means that none was pressed.
pub fn key_from_poll(code: i32) -> (key: Option<i32>)
    ensures
        key == if code > 0 {
            Some(code)
        } else {
            None
        },
{
    if code > 0 {
        Some(code)
    } else {
        None
    }
}

/// The piece of outside work that the pipeline waits for.
#[derive(Clone, Copy, Debug, PartialEq, Eq, Structural)]
pub enum Stage {
    /// A frame is being read from the source.
    Capture,
    /// The frame is being converted to hue, saturation and value.
    Mask,
    /// The buffered masks are being collapsed into one.
    Denoise,
    /// The denoised mask is being made binary.
    Threshold,
    /// The outlines in the binary mask are being extracted.
    Contour,
    /// A blank canvas is being made for the `contours` outlines found.
    Canvas { contours: usize },
    /// Outline `next` of `contours` is being drawn onto the canvas.
    Render { next: usize, contours: usize },
    /// The canvas is being shown.
    Display,
    /// The keyboard is being polled.
    Poll,
    /// The source has ended or a piece of work has failed.
    Stopped,
}

/// How a piece of outside work ended.
#[derive(Debug)]
pub enum Event {
    /// The source delivered a frame of this width.
    Frame { width: i32 },
    /// The source has no more frames.
    EndOfStream,
    /// The frame in hue, saturation and value.
    Hsv(Frame),
    /// The buffered masks were collapsed into one.
    Denoised,
    /// The denoised mask was made binary.
    Thresholded,
    /// This many outlines were found.
    Contours { count: usize },
    /// The blank canvas is there.
    CanvasReady,
    /// The outline was drawn.
    ContourDrawn,
    /// The canvas was shown.
    Displayed,
    /// The key that was pressed, if any. Any key moves the selector on to the
    /// next hue; no key ends the loop.
    Key(Option<i32>),
    /// The piece of work failed.
    Failed,
}

/// The piece of outside work that is due.
#[derive(Clone, Copy, Debug, PartialEq, Eq, Structural)]
pub enum Action {
    /// Read a frame from the source.
    Capture,
    /// Convert the frame to hue, saturation and value.
    ConvertToHsv,
    /// Collapse the buffered masks into one.
    Denoise(DenoiseParams),
    /// Make the denoised mask binary at a threshold chosen from the mask.
    Threshold,
    /// Extract all outlines of the binary mask as a flat list of polylines
    /// that hold their corner points only.
    FindContours,
    /// Make a canvas of this size with every pixel dark.
    BlankCanvas { width: usize, height: usize },
    /// Draw the outline with this position in the list onto the canvas.
    DrawContour { index: usize },
    /// Show the canvas.
    Display,
    /// Poll the keyboard without waiting.
    PollKey,
    /// Nothing more: leave the loop.
    Stop,
}

/// Why an event was refused.
#[derive(Clone, Copy, Debug, PartialEq, Eq, Structural)]
pub enum StepError {
    /// The pipeline has stopped and takes no more events.
    Stopped,
    /// The event does not end the piece of work that the pipeline waits for.
    Unexpected,
}

/// What a pipeline is: its stage, its hue selector, its policy for hue bounds
/// and the masks in its buffer, oldest first.
pub ghost struct PipelineView {
    pub stage: Stage,
    pub selector: SelectorView,
    pub policy: BoundPolicy,
    pub masks: Seq<MaskView>,
}

/// Whether `stage` lies between the buffer and the next capture, where the
/// buffered masks are processed and the result is shown.
pub open spec fn is_processing(stage: Stage) -> bool {
    !(stage is Capture || stage is Mask || stage is Stopped)
}

/// Whether `event` ends the piece of work that `stage` waits for. A failure
/// ends any of them.
pub open spec fn accepts(stage: Stage, event: Event) -> bool {
    match stage {
        Stage::Capture => event is Frame || event is EndOfStream || event is Failed,
        Stage::Mask => event is Hsv || event is Failed,
        Stage::Denoise => event is Denoised || event is Failed,
        Stage::Threshold => event is Thresholded || event is Failed,
        Stage::Contour => event is Contours || event is Failed,
        Stage::Canvas { .. } => event is CanvasReady || event is Failed,
        Stage::Render { .. } => event is ContourDrawn || event is Failed,
        Stage::Display => event is Displayed || event is Failed,
        Stage::Poll => event is Key || event is Failed,
        Stage::Stopped => false,
    }
}

/// The stage that follows the last outline drawn, or the canvas if there is
/// nothing to draw: outline `next` if there is one, else the display.
pub open spec fn render_or_display(next: usize, contours: usize) -> Stage {
    if next < contours {
        Stage::Render { next, contours }
    } else {
        Stage::Display
    }
}

impl PipelineView {
    /// The selector points at a candidate, the buffer holds at most `WINDOW`
    /// well-formed masks, it is full wherever masks are processed, and an
    /// outline that is being drawn is one of those found.
    pub open spec fn wf(self) -> bool {
        &&& self.selector.wf()
        &&& self.masks.len() <= WINDOW
        &&& forall|i: int| 0 <= i < self.masks.len() ==> (#[trigger] self.masks[i]).wf()
        &&& is_processing(self.stage) ==> self.masks.len() == WINDOW
        &&& self.stage matches Stage::Render { next, contours } ==> next < contours
    }

    /// The band around the selected hue.
    pub open spec fn band(self) -> HueBand {
        band_of(self.selector.hue(), FUDGE, self.policy)
    }

    /// The piece of outside work that is due in this state.
    pub open spec fn action(self) -> Action {
        match self.stage {
            Stage::Capture => Action::Capture,
            Stage::Mask => Action::ConvertToHsv,
            Stage::Denoise => Action::Denoise(denoise_setting()),
            Stage::Threshold => Action::Threshold,
            Stage::Contour => Action::FindContours,
            Stage::Canvas { .. } => Action::BlankCanvas {
                width: self.masks.last().width as usize,
                height: self.masks.last().height as usize,
            },
            Stage::Render { next, .. } => Action::DrawContour { index: next },
            Stage::Display => Action::Display,
            Stage::Poll => Action::PollKey,
            Stage::Stopped => Action::Stop,
        }
    }

    /// The state after an event that the stage accepts.
    pub open spec fn after(self, event: Event) -> PipelineView {
        match event {
            Event::Failed | Event::EndOfStream => PipelineView { stage: Stage::Stopped, ..self },
            Event::Frame { width } => PipelineView {
                stage: if width == 0 {
                    Stage::Capture
                } else {
                    Stage::Mask
                },
                ..self
            },
            Event::Hsv(frame) => {
                let masks = recent(self.masks.push(mask_of(frame@, self.band())));
                PipelineView {
                    stage: if masks.len() == WINDOW {
                        Stage::Denoise
                    } else {
                        Stage::Capture
                    },
                    masks,
                    ..self
                }
            },
            Event::Denoised => PipelineView { stage: Stage::Threshold, ..self },
            Event::Thresholded => PipelineView { stage: Stage::Contour, ..self },
            Event::Contours { count } => PipelineView {
                stage: Stage::Canvas { contours: count },
                ..self
            },
            Event::CanvasReady => PipelineView {
                stage: match self.stage {
                    Stage::Canvas { contours } => render_or_display(0, contours),
                    _ => self.stage,
                },
                ..self
            },
            Event::ContourDrawn => PipelineView {
                stage: match self.stage {
                    Stage::Render { next, contours } => render_or_display(
                        (next + 1) as usize,
                        contours,
                    ),
                    _ => self.stage,
                },
                ..self
            },
            Event::Displayed => PipelineView { stage: Stage::Poll, ..self },
            Event::Key(key) => PipelineView {
                stage: Stage::Capture,
                selector: if key is Some {
                    self.selector.advanced()
                } else {
                    self.selector
                },
                ..self
            },
        }
    }

    /// The state after `event`, whether the stage accepts it or not: a
    /// refused event changes nothing.
    pub open spec fn next(self, event: Event) -> PipelineView {
        if accepts(self.stage, event) {
            self.after(event)
        } else {
            self
        }
    }

    /// What a step answers to `event`: the work that is due in the next
    /// state, or why the event was refused.
    pub open spec fn outcome(self, event: Event) -> Result<Action, StepError> {
        if self.stage is Stopped {
            Err(StepError::Stopped)
        } else if !accepts(self.stage, event) {
            Err(StepError::Unexpected)
        } else {
            Ok(self.after(event).action())
        }
    }
}

/// The views of the masks of `masks`, in the same order.
pub open spec fn mask_views(masks: Seq<Mask>) -> Seq<MaskView> {
    Seq::new(masks.len(), |i: int| masks[i]@)
}

/// The state of the frame loop.
#[derive(Debug)]
pub struct Pipeline {
    stage: Stage,
    selector: HueSelector,
    policy: BoundPolicy,
    buffer: TemporalBuffer<Mask>,
}

impl View for Pipeline {
    type V = PipelineView;

    closed spec fn view(&self) -> PipelineView {
        PipelineView {
            stage: self.stage,
            selector: self.selector@,
            policy: self.policy,
            masks: mask_views(self.buffer@),
        }
    }
}

impl Pipeline {
    /// The state is well-formed.
    pub open spec fn wf(&self) -> bool {
        self@.wf()
    }

    /// A pipeline that waits for its first frame, with an empty buffer.
    pub fn new(selector: HueSelector, policy: BoundPolicy) -> (pipeline: Pipeline)
        requires
            selector.wf(),
        ensures
            pipeline.wf(),
            pipeline@ == (PipelineView {
                stage: Stage::Capture,
                selector: selector@,
                policy,
                masks: Seq::empty(),
            }),
    {
        let pipeline = Pipeline {
            stage: Stage::Capture,
            selector,
            policy,
            buffer: TemporalBuffer::new(),
        };
        assert(pipeline@.masks =~= Seq::empty());
        pipeline
    }

    /// The piece of outside work that the pipeline waits for.
    pub fn stage(&self) -> (stage: Stage)
        ensures
            stage == self@.stage,
    {
        self.stage
    }

    /// The hue selector.
    pub fn selector(&self) -> (selector: &HueSelector)
        ensures
            selector@ == self@.selector,
    {
        &self.selector
    }

    /// The policy for hue bounds that leave the range of a byte.
    pub fn policy(&self) -> (policy: BoundPolicy)
        ensures
            policy == self@.policy,
    {
        self.policy
    }

    /// The band around the selected hue, with which the next frame is masked.
    pub fn band(&self) -> (band: HueBand)
        requires
            self.wf(),
        ensures
            band == self@.band(),
    {
        self.selector.current_band(FUDGE, self.policy)
    }

    /// The buffered masks, oldest first.
    pub fn buffer(&self) -> (buffer: &TemporalBuffer<Mask>)
        ensures
            mask_views(buffer@) == self@.masks,
    {
        &self.buffer
    }

    /// The piece of outside work that is due.
    pub fn action(&self) -> (action: Action)
        requires
            self.wf(),
        ensures
            action == self@.action(),
    {
        match self.stage {
            Stage::Capture => Action::Capture,
            Stage::Mask => Action::ConvertToHsv,
            Stage::Denoise => Action::Denoise(denoise_params()),
            Stage::Threshold => Action::Threshold,
            Stage::Contour => Action::FindContours,
            Stage::Canvas { .. } => {
                let newest = self.buffer.get(WINDOW - 1);
                assert(self@.masks.last() == newest@);
                Action::BlankCanvas { width: newest.width(), height: newest.height() }
            },
            Stage::Render { next, .. } => Action::DrawContour { index: next },
            Stage::Display => Action::Display,
            Stage::Poll => Action::PollKey,
            Stage::Stopped => Action::Stop,
        }
    }

    /// Takes the end of a piece of outside work and answers with the one that
    /// is due next. An event that does not end the work that the pipeline
    /// waits for is refused and changes nothing.
    pub fn step(&mut self, event: Event) -> (outcome: Result<Action, StepError>)
        requires
            old(self).wf(),
            event matches Event::Hsv(frame) ==> frame.wf(),
        ensures
            final(self).wf(),
            final(self)@ == old(self)@.next(event),
            outcome == old(self)@.outcome(event),
    {
        let stage = self.stage;
        match (stage, event) {
            (Stage::Stopped, _) => {
                return Err(StepError::Stopped);
            },
            (_, Event::Failed) | (Stage::Capture, Event::EndOfStream) => {
                self.stage = Stage::Stopped;
            },
            (Stage::Capture, Event::Frame { width }) => {
                if width != 0 {
                    self.stage = Stage::Mask;
                }
            },
            (Stage::Mask, Event::Hsv(frame)) => {
                let band = self.band();
                let mask = mask_frame(&frame, &band);
                let ghost before = self.buffer@;
                self.buffer.push(mask);
                proof {
                    lemma_views_of_push(before, mask);
                }
                self.stage = if self.buffer.is_full() {
                    Stage::Denoise
                } else {
                    Stage::Capture
                };
            },
            (Stage::Denoise, Event::Denoised) => {
                self.stage = Stage::Threshold;
            },
            (Stage::Threshold, Event::Thresholded) => {
                self.stage = Stage::Contour;
            },
            (Stage::Contour, Event::Contours { count }) => {
                self.stage = Stage::Canvas { contours: count };
            },
            (Stage::Canvas { contours }, Event::CanvasReady) => {
                self.stage = if 0 < contours {
                    Stage::Render { next: 0, contours }
                } else {
                    Stage::Display
                };
            },
            (Stage::Render { next, contours }, Event::ContourDrawn) => {
                self.stage = if next + 1 < contours {
                    Stage::Render { next: next + 1, contours }
                } else {
                    Stage::Display
                };
            },
            (Stage::Display, Event::Displayed) => {
                self.stage = Stage::Poll;
            },
            (Stage::Poll, Event::Key(key)) => {
                if key.is_some() {
                    self.selector.advance();
                }
                self.stage = Stage::Capture;
            },
            _ => {
                return Err(StepError::Unexpected);
            },
        }
        Ok(self.action())
    }
}

/// Pushing a mask and taking views comes to the same as taking views and
/// pushing the mask's view.
proof fn lemma_views_of_push(masks: Seq<Mask>, mask: Mask)
    ensures
        mask_views(recent(masks.push(mask))) == recent(mask_views(masks).push(mask@)),
{
    assert(mask_views(recent(masks.push(mask))) =~= recent(mask_views(masks).push(mask@)));
}

/// Every step keeps the state well-formed: the buffer never holds more than
/// `WINDOW` masks, and it is full at every stage in which masks are
/// processed.
pub proof fn lemma_step_keeps_wf(state: PipelineView, event: Event)
    requires
        state.wf(),
    ensures
        state.next(event).wf(),
        is_processing(state.next(event).stage) ==> state.next(event).masks.len() == WINDOW,
{
    let next = state.next(event);
    if accepts(state.stage, event) {
        if let Event::Hsv(frame) = event {
            let mask = mask_of(frame@, state.band());
            assert forall|i: int| 0 <= i < next.masks.len() implies (#[trigger] next.masks[i]).wf(
            ) by {
                let pushed = state.masks.push(mask);
                let at = if pushed.len() <= WINDOW {
                    i
                } else {
                    i + pushed.len() - WINDOW
                };
                assert(next.masks[i] == pushed[at]);
                if at < state.masks.len() {
                    assert(state.masks[at].wf());
                } else {
                    lemma_mask_of_wf(frame@, state.band());
                }
            }
        }
    }
}

/// Once a frame has been masked and buffered, the masks are processed if and
/// only if the buffer is full: then denoising is due, otherwise the next
/// capture. Processing starts nowhere else.
pub proof fn lemma_processing_iff_full(state: PipelineView, event: Event)
    requires
        state.wf(),
    ensures
        state.stage is Mask && event is Hsv ==> {
            &&& state.next(event).stage is Denoise <==> state.next(event).masks.len() == WINDOW
            &&& state.next(event).stage is Capture <==> state.next(event).masks.len() < WINDOW
            &&& state.outcome(event) == if state.next(event).masks.len() == WINDOW {
                Ok::<Action, StepError>(Action::Denoise(denoise_setting()))
            } else {
                Ok::<Action, StepError>(Action::Capture)
            }
        },
        is_processing(state.next(event).stage) && !is_processing(state.stage) ==> {
            &&& state.stage is Mask
            &&& event is Hsv
            &&& state.next(event).stage is Denoise
        },
{
}

/// A frame that reports zero width is skipped: nothing enters the buffer,
/// the selector stays where it is, and the next capture is due.
pub proof fn lemma_unready_frame_is_skipped(state: PipelineView)
    ensures
        state.next(Event::Frame { width: 0 }) == state,
        state.next(Event::Frame { width: 0 }).masks == state.masks,
        state.next(Event::Frame { width: 0 }).selector == state.selector,
        state.stage is Capture ==> state.outcome(Event::Frame { width: 0 }) == Ok::<
            Action,
            StepError,
        >(Action::Capture),
{
}

/// The buffer changes only when a converted frame arrives at the mask stage,
/// the selector only when a poll reports a key, and the policy never.
pub proof fn lemma_what_a_step_changes(state: PipelineView, event: Event)
    ensures
        state.next(event).masks != state.masks ==> state.stage is Mask && event is Hsv,
        state.next(event).selector != state.selector ==> {
            &&& state.stage is Poll
            &&& event matches Event::Key(Some(_))
        },
        state.next(event).policy == state.policy,
        state.next(event).selector.candidates == state.selector.candidates,
{
}

/// The state after the canvas is there and `drawn` outlines were drawn.
pub open spec fn after_drawn(state: PipelineView, drawn: nat) -> PipelineView
    decreases drawn,
{
    if drawn == 0 {
        state.next(Event::CanvasReady)
    } else {
        after_drawn(state, (drawn - 1) as nat).next(Event::ContourDrawn)
    }
}

/// The outlines are drawn one by one in the order of the list: after `drawn`
/// of them outline `drawn` is due, and after the last one the display.
pub proof fn lemma_contours_drawn_in_order(state: PipelineView, contours: usize, drawn: nat)
    requires
        state.stage == (Stage::Canvas { contours }),
        drawn <= contours,
    ensures
        after_drawn(state, drawn).stage == render_or_display(drawn as usize, contours),
        after_drawn(state, drawn).action() == if drawn < contours {
            Action::DrawContour { index: drawn as usize }
        } else {
            Action::Display
        },
        after_drawn(state, drawn).masks == state.masks,
        after_drawn(state, drawn).selector == state.selector,
        after_drawn(state, drawn).policy == state.policy,
    decreases drawn,
{
    if drawn > 0 {
        lemma_contours_drawn_in_order(state, contours, (drawn - 1) as nat);
    }
}

/// The state after one pass through every stage: a frame of width `width`
/// is captured, converted and masked, the masks are processed, `contours`
/// outlines are found and drawn, the canvas is shown and the poll reports
/// `key`.
pub open spec fn after_iteration(
    state: PipelineView,
    width: i32,
    frame: Frame,
    contours: usize,
    key: Option<i32>,
) -> PipelineView {
    let buffered = state.next(Event::Frame { width }).next(Event::Hsv(frame));
    let found = buffered.next(Event::Denoised).next(Event::Thresholded).next(
        Event::Contours { count: contours },
    );
    after_drawn(found, contours as nat).next(Event::Displayed).next(Event::Key(key))
}

/// One pass through every stage, begun with a buffer that the new mask
/// fills, ends where it began: a capture is due again, the buffer holds the
/// new mask as its newest, and the selector has moved on by one exactly if a
/// key was pressed.
pub proof fn lemma_full_iteration(
    state: PipelineView,
    width: i32,
    frame: Frame,
    contours: usize,
    key: Option<i32>,
)
    requires
        state.wf(),
        state.stage is Capture,
        state.masks.len() + 1 >= WINDOW,
        width != 0,
    ensures
        after_iteration(state, width, frame, contours, key) == (PipelineView {
            stage: Stage::Capture,
            selector: if key is Some {
                state.selector.advanced()
            } else {
                state.selector
            },
            policy: state.policy,
            masks: recent(state.masks.push(mask_of(frame@, state.band()))),
        }),
{
    let buffered = state.next(Event::Frame { width }).next(Event::Hsv(frame));
    let found = buffered.next(Event::Denoised).next(Event::Thresholded).next(
        Event::Contours { count: contours },
    );
    lemma_contours_drawn_in_order(found, contours, contours as nat);
}

} // verus!
