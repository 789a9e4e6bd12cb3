//! The render session of one window: the handles of the drawing device that
//! belong to it, and the rules by which they are created, used and discarded.
//!
//! The session does no drawing and calls no device. It is told what happened
//! (an `Event`) and answers what to do next (an `Action`); the host performs
//! the action and reports its outcome as the next event. The handles are of
//! types that the host chooses: the session keeps and releases them and never
//! looks inside.

use crate::error::DeviceError;
use crate::geometry::{ClientRect, Color, SizeU};
use crate::scene::{brush_color, Brush, Scene};
use vstd::prelude::*;

verus! {

/// A render target with the size in pixels that it currently has.
#[derive(Debug, PartialEq, Eq)]
pub struct RenderTarget<T> {
    pub handle: T,
    pub pixel_size: SizeU,
}

/// The brushes of the scene. They are made from a render target and are of
/// no use without it.
#[derive(Debug, PartialEq, Eq)]
pub struct BrushSet<B> {
    pub light_slate_gray: B,
    pub cornflower_blue: B,
}

/// The outcome that a session is waiting for, with what it holds meanwhile.
#[derive(Debug, PartialEq, Eq)]
pub enum Pending<T, B> {
    /// No action is under way.
    Nothing,
    /// The client area of the window was asked for.
    ClientRect,
    /// A render target of this size was asked for.
    RenderTarget { pixel_size: SizeU },
    /// The render target is there; its first brush was asked for.
    LightSlateGrayBrush { render_target: RenderTarget<T> },
    /// The render target and the first brush are there; the second brush was
    /// asked for.
    CornflowerBlueBrush { render_target: RenderTarget<T>, light_slate_gray: B },
    /// The frame was handed out; the end of its draw batch is awaited.
    EndDraw,
    /// The render target was asked to take this size.
    Resize { pixel_size: SizeU },
}

/// What the host tells a session.
#[derive(Debug, PartialEq, Eq)]
pub enum Event<T, B> {
    /// The window must be painted.
    Paint,
    /// The client area of the window has a new size.
    Size { size: SizeU },
    /// The outcome of `Action::QueryClientRect`.
    ClientRect(Result<ClientRect, DeviceError>),
    /// The outcome of `Action::CreateRenderTarget`.
    RenderTarget(Result<T, DeviceError>),
    /// The outcome of `Action::CreateBrush`.
    Brush(Result<B, DeviceError>),
    /// The outcome of ending the draw batch of `Action::Draw`.
    EndDraw(Result<(), DeviceError>),
    /// The outcome of `Action::Resize`.
    Resized(Result<(), DeviceError>),
}

/// What a session asks of the host.
#[derive(Clone, Copy, Debug, PartialEq, Eq)]
pub enum Action {
    /// Ask the windowing system for the client area of window `hwnd`.
    QueryClientRect { hwnd: isize },
    /// Create a render target for window `hwnd`, of this size in pixels.
    CreateRenderTarget { hwnd: isize, pixel_size: SizeU },
    /// Create a solid brush of this color from the render target that is
    /// under construction.
    CreateBrush { brush: Brush, color: Color },
    /// Run the commands of this frame on the render target, in order, and
    /// report what ending the draw batch returned.
    Draw { scene: Scene },
    /// Resize the render target to this size in pixels.
    Resize { pixel_size: SizeU },
    /// Nothing more to do: the operation ended with this outcome.
    Done(Result<(), DeviceError>),
}

/// The state of a session as the contracts speak of it.
pub struct SessionView<F, T, B> {
    /// The window whose client area the session draws on.
    pub hwnd: isize,
    /// The factory of the drawing device, which outlives every render target.
    pub factory: F,
    /// The render target, where the device resources exist.
    pub render_target: Option<RenderTarget<T>>,
    /// The brushes, where the device resources exist.
    pub brush_set: Option<BrushSet<B>>,
    /// The outcome that the session is waiting for.
    pub pending: Pending<T, B>,
}

impl<F, T, B> SessionView<F, T, B> {
    /// The render target and the brushes exist together or not at all.
    pub open spec fn well_formed(self) -> bool {
        self.render_target is Some <==> self.brush_set is Some
    }

    /// This state without device resources.
    pub open spec fn discarded(self) -> Self {
        SessionView { render_target: None, brush_set: None, ..self }
    }

    /// This state with nothing pending.
    pub open spec fn idle(self) -> Self {
        SessionView { pending: Pending::Nothing, ..self }
    }

    /// This state waiting for something.
    pub open spec fn awaiting(self, pending: Pending<T, B>) -> Self {
        SessionView { pending, ..self }
    }

    /// Whether the session acts on an event. A message of the host is always
    /// acted on; an outcome only where it is the one that is pending.
    pub open spec fn accepts(self, event: Event<T, B>) -> bool {
        match event {
            Event::Paint => true,
            Event::Size { .. } => true,
            Event::ClientRect(_) => self.pending is ClientRect,
            Event::RenderTarget(_) => self.pending is RenderTarget,
            Event::Brush(_) => self.pending is LightSlateGrayBrush
                || self.pending is CornflowerBlueBrush,
            Event::EndDraw(_) => self.pending is EndDraw,
            Event::Resized(_) => self.pending is Resize,
        }
    }

    /// What the session hands out to be drawn: the frame for the render
    /// target as it is, where the render target and the brushes exist, and
    /// nothing where they do not.
    pub open spec fn draw(self) -> (Self, Action) {
        match self.render_target {
            Some(target) if self.brush_set is Some => (
                self.awaiting(Pending::EndDraw),
                Action::Draw { scene: Scene { surface: target.pixel_size } },
            ),
            _ => (self.idle(), Action::Done(Ok(()))),
        }
    }

    /// Painting starts by creating the device resources where there is no
    /// render target, and by drawing where there is one.
    pub open spec fn paint(self) -> (Self, Action) {
        if self.render_target is None {
            (self.awaiting(Pending::ClientRect), Action::QueryClientRect { hwnd: self.hwnd })
        } else {
            self.draw()
        }
    }

    /// A new client size is handed to the render target where there is one.
    pub open spec fn size(self, size: SizeU) -> (Self, Action) {
        if self.render_target is Some {
            (
                self.awaiting(Pending::Resize { pixel_size: size }),
                Action::Resize { pixel_size: size },
            )
        } else {
            (self.idle(), Action::Done(Ok(())))
        }
    }

    /// The state and the action that follow an outcome which the session
    /// accepts. The device resources are stored when the last of them is
    /// there, all at once; a failure on the way ends the operation with that
    /// failure and drops what was made so far. A failure at the end of the
    /// draw batch that calls for a new render target discards the device
    /// resources and ends the operation well. Of an outcome that the session
    /// does not accept this function says nothing of use.
    pub open spec fn resume(self, event: Event<T, B>) -> (Self, Action) {
        match (self.pending, event) {
            (Pending::ClientRect, Event::ClientRect(Ok(rect))) => (
                self.awaiting(Pending::RenderTarget { pixel_size: rect.pixel_size_spec() }),
                Action::CreateRenderTarget {
                    hwnd: self.hwnd,
                    pixel_size: rect.pixel_size_spec(),
                },
            ),
            (Pending::RenderTarget { pixel_size }, Event::RenderTarget(Ok(handle))) => (
                self.awaiting(
                    Pending::LightSlateGrayBrush {
                        render_target: RenderTarget { handle, pixel_size },
                    },
                ),
                Action::CreateBrush {
                    brush: Brush::LightSlateGray,
                    color: brush_color(Brush::LightSlateGray),
                },
            ),
            (Pending::LightSlateGrayBrush { render_target }, Event::Brush(Ok(brush))) => (
                self.awaiting(
                    Pending::CornflowerBlueBrush { render_target, light_slate_gray: brush },
                ),
                Action::CreateBrush {
                    brush: Brush::CornflowerBlue,
                    color: brush_color(Brush::CornflowerBlue),
                },
            ),
            (
                Pending::CornflowerBlueBrush { render_target, light_slate_gray },
                Event::Brush(Ok(brush)),
            ) => (SessionView {
                render_target: Some(render_target),
                brush_set: Some(BrushSet { light_slate_gray, cornflower_blue: brush }),
                ..self
            }).draw(),
            (Pending::EndDraw, Event::EndDraw(Ok(_))) => (self.idle(), Action::Done(Ok(()))),
            (Pending::EndDraw, Event::EndDraw(Err(DeviceError::RecreateTarget))) => (
                self.discarded().idle(),
                Action::Done(Ok(())),
            ),
            (Pending::Resize { pixel_size }, Event::Resized(Ok(_))) => (
                match self.render_target {
                    Some(target) => SessionView {
                        render_target: Some(RenderTarget { handle: target.handle, pixel_size }),
                        pending: Pending::Nothing,
                        ..self
                    },
                    None => self.idle(),
                },
                Action::Done(Ok(())),
            ),
            (_, Event::ClientRect(Err(error))) => (self.idle(), Action::Done(Err(error))),
            (_, Event::RenderTarget(Err(error))) => (self.idle(), Action::Done(Err(error))),
            (_, Event::Brush(Err(error))) => (self.idle(), Action::Done(Err(error))),
            (_, Event::EndDraw(Err(error))) => (self.idle(), Action::Done(Err(error))),
            (_, Event::Resized(Err(error))) => (self.idle(), Action::Done(Err(error))),
            _ => (self.idle(), Action::Done(Ok(()))),
        }
    }

    /// The state and the action that follow an event which the session
    /// accepts. A message of the host abandons what was pending.
    pub open spec fn next(self, event: Event<T, B>) -> (Self, Action) {
        match event {
            Event::Paint => self.idle().paint(),
            Event::Size { size } => self.idle().size(size),
            _ => self.resume(event),
        }
    }
}

/// The render session of one window.
pub struct MountainApp<F, T, B> {
    hwnd: isize,
    factory: F,
    render_target: Option<RenderTarget<T>>,
    brush_set: Option<BrushSet<B>>,
    pending: Pending<T, B>,
}

impl<F, T, B> View for MountainApp<F, T, B> {
    type V = SessionView<F, T, B>;

    closed spec fn view(&self) -> SessionView<F, T, B> {
        SessionView {
            hwnd: self.hwnd,
            factory: self.factory,
            render_target: self.render_target,
            brush_set: self.brush_set,
            pending: self.pending,
        }
    }
}

impl<F, T, B> MountainApp<F, T, B> {
    /// The render target and the brushes exist together or not at all.
    pub open spec fn well_formed(&self) -> bool {
        self@.well_formed()
    }

    /// Makes the session of window `hwnd` from the outcome of creating the
    /// factory of the drawing device. Without a factory there is no session.
    /// A new session has no device resources and waits for nothing.
    pub fn new(hwnd: isize, factory: Result<F, DeviceError>) -> (session: Result<
        Self,
        DeviceError,
    >)
        ensures
            match (factory, session) {
                (Ok(made), Ok(app)) => app.well_formed() && app@ == (SessionView::<F, T, B> {
                    hwnd,
                    factory: made,
                    render_target: None,
                    brush_set: None,
                    pending: Pending::Nothing,
                }),
                (Err(failure), Err(error)) => error == failure,
                _ => false,
            },
    {
        match factory {
            Ok(factory) => Ok(
                MountainApp {
                    hwnd,
                    factory,
                    render_target: None,
                    brush_set: None,
                    pending: Pending::Nothing,
                },
            ),
            Err(error) => Err(error),
        }
    }

    /// The window whose client area the session draws on.
    pub fn hwnd(&self) -> (hwnd: isize)
        ensures
            hwnd == self@.hwnd,
    {
        self.hwnd
    }

    /// The factory of the drawing device.
    pub fn factory(&self) -> (factory: &F)
        ensures
            *factory == self@.factory,
    {
        &self.factory
    }

    /// The render target, where the device resources exist.
    pub fn render_target(&self) -> (target: Option<&RenderTarget<T>>)
        ensures
            match target {
                Some(found) => self@.render_target == Some(*found),
                None => self@.render_target is None,
            },
    {
        self.render_target.as_ref()
    }

    /// The brushes, where the device resources exist.
    pub fn brush_set(&self) -> (brushes: Option<&BrushSet<B>>)
        ensures
            match brushes {
                Some(found) => self@.brush_set == Some(*found),
                None => self@.brush_set is None,
            },
    {
        self.brush_set.as_ref()
    }

    /// The render target that is under construction: the one from which the
    /// host creates the brush that `Action::CreateBrush` asks for.
    pub fn pending_render_target(&self) -> (target: Option<&RenderTarget<T>>)
        ensures
            match self@.pending {
                Pending::LightSlateGrayBrush { render_target } => target == Some(&render_target),
                Pending::CornflowerBlueBrush { render_target, .. } => target == Some(
                    &render_target,
                ),
                _ => target is None,
            },
    {
        match &self.pending {
            Pending::LightSlateGrayBrush { render_target } => Some(render_target),
            Pending::CornflowerBlueBrush { render_target, .. } => Some(render_target),
            _ => None,
        }
    }

    /// Whether the session waits for no outcome.
    pub fn is_idle(&self) -> (idle: bool)
        ensures
            idle == (self@.pending is Nothing),
    {
        match &self.pending {
            Pending::Nothing => true,
            _ => false,
        }
    }

    /// Releases the render target and the brushes, whether or not there are
    /// any. What is pending stays pending. Doing this twice is the same as
    /// doing it once.
    pub fn discard_device_resources(&mut self)
        ensures
            final(self)@ == old(self)@.discarded(),
            final(self)@.render_target is None,
            final(self)@.brush_set is None,
            final(self).well_formed(),
    {
        self.render_target = None;
        self.brush_set = None;
    }

    /// Starts the creation of the device resources unless they exist: asks
    /// for the client area, to which the render target will be sized. Where
    /// they exist nothing changes and nothing is asked.
    pub fn create_device_resources(&mut self) -> (action: Option<Action>)
        ensures
            old(self)@.render_target is Some ==> action is None && final(self)@ == old(self)@,
            old(self)@.render_target is None ==> action == Some(
                Action::QueryClientRect { hwnd: old(self)@.hwnd },
            ) && final(self)@ == old(self)@.awaiting(Pending::ClientRect),
    {
        if self.render_target.is_some() {
            None
        } else {
            self.pending = Pending::ClientRect;
            Some(Action::QueryClientRect { hwnd: self.hwnd })
        }
    }

    /// Hands out the frame for the render target as it is, or ends the
    /// operation where the device resources are not all there.
    fn draw(&mut self) -> (action: Action)
        ensures
            final(self)@ == old(self)@.draw().0,
            action == old(self)@.draw().1,
    {
        let surface = match (&self.render_target, &self.brush_set) {
            (Some(target), Some(_)) => Some(target.pixel_size),
            _ => None,
        };
        match surface {
            Some(surface) => {
                self.pending = Pending::EndDraw;
                Action::Draw { scene: Scene::new(surface) }
            },
            None => {
                self.pending = Pending::Nothing;
                Action::Done(Ok(()))
            },
        }
    }

    /// The window must be painted. Whatever was pending is abandoned. Where
    /// the device resources exist the frame is handed out at once; where they
    /// do not, their creation starts, and the frame follows it. A session
    /// that has a render target and no brushes draws nothing.
    pub fn on_paint(&mut self) -> (action: Action)
        ensures
            old(self).well_formed() ==> final(self).well_formed(),
            final(self)@ == old(self)@.next(Event::Paint).0,
            action == old(self)@.next(Event::Paint).1,
    {
        self.pending = Pending::Nothing;
        match self.create_device_resources() {
            Some(action) => action,
            None => self.draw(),
        }
    }

    /// The client area has a new size. Whatever was pending is abandoned.
    /// Where there is a render target it is asked to take the size; where
    /// there is none, nothing happens and the operation ends well.
    pub fn on_size(&mut self, size: SizeU) -> (action: Action)
        ensures
            old(self).well_formed() ==> final(self).well_formed(),
            final(self)@ == old(self)@.next(Event::Size { size }).0,
            action == old(self)@.next(Event::Size { size }).1,
    {
        if self.render_target.is_some() {
            self.pending = Pending::Resize { pixel_size: size };
            Action::Resize { pixel_size: size }
        } else {
            self.pending = Pending::Nothing;
            Action::Done(Ok(()))
        }
    }

    /// Takes an outcome that the host reports. Where it is the pending one,
    /// the session goes on from it; where it is not, the outcome is dropped
    /// and nothing changes.
    fn resume(&mut self, outcome: Event<T, B>) -> (action: Option<Action>)
        requires
            !(outcome is Paint),
            !(outcome is Size),
        ensures
            old(self).well_formed() ==> final(self).well_formed(),
            old(self)@.accepts(outcome) ==> action == Some(old(self)@.resume(outcome).1)
                && final(self)@ == old(self)@.resume(outcome).0,
            !old(self)@.accepts(outcome) ==> action is None && final(self)@ == old(self)@,
    {
        let mut pending = Pending::Nothing;
        core::mem::swap(&mut self.pending, &mut pending);
        match (pending, outcome) {
            (Pending::ClientRect, Event::ClientRect(Ok(rect))) => {
                let pixel_size = rect.pixel_size();
                self.pending = Pending::RenderTarget { pixel_size };
                Some(Action::CreateRenderTarget { hwnd: self.hwnd, pixel_size })
            },
            (Pending::ClientRect, Event::ClientRect(Err(error))) => Some(Action::Done(Err(error))),
            (Pending::RenderTarget { pixel_size }, Event::RenderTarget(Ok(handle))) => {
                self.pending =
                Pending::LightSlateGrayBrush { render_target: RenderTarget { handle, pixel_size } };
                Some(
                    Action::CreateBrush {
                        brush: Brush::LightSlateGray,
                        color: Brush::LightSlateGray.color(),
                    },
                )
            },
            (Pending::RenderTarget { .. }, Event::RenderTarget(Err(error))) => Some(
                Action::Done(Err(error)),
            ),
            (Pending::LightSlateGrayBrush { render_target }, Event::Brush(Ok(brush))) => {
                self.pending =
                Pending::CornflowerBlueBrush { render_target, light_slate_gray: brush };
                Some(
                    Action::CreateBrush {
                        brush: Brush::CornflowerBlue,
                        color: Brush::CornflowerBlue.color(),
                    },
                )
            },
            (Pending::LightSlateGrayBrush { .. }, Event::Brush(Err(error))) => Some(
                Action::Done(Err(error)),
            ),
            (
                Pending::CornflowerBlueBrush { render_target, light_slate_gray },
                Event::Brush(Ok(brush)),
            ) => {
                self.render_target = Some(render_target);
                self.brush_set = Some(BrushSet { light_slate_gray, cornflower_blue: brush });
                Some(self.draw())
            },
            (Pending::CornflowerBlueBrush { .. }, Event::Brush(Err(error))) => Some(
                Action::Done(Err(error)),
            ),
            (Pending::EndDraw, Event::EndDraw(Ok(_))) => Some(Action::Done(Ok(()))),
            (Pending::EndDraw, Event::EndDraw(Err(DeviceError::RecreateTarget))) => {
                self.discard_device_resources();
                Some(Action::Done(Ok(())))
            },
            (Pending::EndDraw, Event::EndDraw(Err(error))) => Some(Action::Done(Err(error))),
            (Pending::Resize { pixel_size }, Event::Resized(Ok(_))) => {
                match self.render_target.take() {
                    Some(target) => {
                        self.render_target =
                        Some(RenderTarget { handle: target.handle, pixel_size });
                    },
                    None => {},
                }
                Some(Action::Done(Ok(())))
            },
            (Pending::Resize { .. }, Event::Resized(Err(error))) => Some(
                Action::Done(Err(error)),
            ),
            (pending, _) => {
                self.pending = pending;
                None
            },
        }
    }

    /// Takes one event and answers with the action that follows it. A message
    /// of the host (`Paint`, `Size`) is always acted on. An outcome is acted
    /// on where it is the pending one; any other is dropped, nothing changes,
    /// and the answer is `None`.
    pub fn step(&mut self, event: Event<T, B>) -> (action: Option<Action>)
        ensures
            old(self).well_formed() ==> final(self).well_formed(),
            old(self)@.accepts(event) ==> action == Some(old(self)@.next(event).1) && final(self)@
                == old(self)@.next(event).0,
            !old(self)@.accepts(event) ==> action is None && final(self)@ == old(self)@,
    {
        match event {
            Event::Paint => Some(self.on_paint()),
            Event::Size { size } => Some(self.on_size(size)),
            outcome => self.resume(outcome),
        }
    }
}

/// Every step keeps the render target and the brushes together: after it they
/// both exist or neither does.
pub proof fn lemma_step_keeps_well_formed<F, T, B>(state: SessionView<F, T, B>, event: Event<T, B>)
    requires
        state.well_formed(),
    ensures
        state.next(event).0.well_formed(),
        state.discarded().well_formed(),
{
}

/// Discarding leaves neither a render target nor brushes, and discarding
/// again, any number of times, changes nothing more.
pub proof fn lemma_discard_is_idempotent<F, T, B>(state: SessionView<F, T, B>)
    ensures
        state.discarded().render_target is None,
        state.discarded().brush_set is None,
        state.discarded().discarded() == state.discarded(),
{
}

/// Painting after a discard creates the device resources exactly once and
/// then draws. The session asks, in this order, for the client area, for one
/// render target of the size of that area, for the two brushes, and then
/// hands out the frame for that size. Nothing is stored before the last of
/// them is there. The render target that is stored then has the size of the
/// client area, `right - left` by `bottom - top`.
pub proof fn lemma_paint_creates_once_then_draws<F, T, B>(
    before: SessionView<F, T, B>,
    rect: ClientRect,
    handle: T,
    gray: B,
    blue: B,
)
    requires
        rect.left <= rect.right,
        rect.top <= rect.bottom,
    ensures
        ({
            let state = before.discarded();
            let size = SizeU {
                width: (rect.right - rect.left) as u32,
                height: (rect.bottom - rect.top) as u32,
            };
            let asked = state.next(Event::Paint);
            let sized = asked.0.next(Event::ClientRect(Ok(rect)));
            let made = sized.0.next(Event::RenderTarget(Ok(handle)));
            let first = made.0.next(Event::Brush(Ok(gray)));
            let second = first.0.next(Event::Brush(Ok(blue)));
            &&& asked.1 == Action::QueryClientRect { hwnd: state.hwnd }
            &&& asked.0.accepts(Event::ClientRect(Ok(rect)))
            &&& sized.1 == Action::CreateRenderTarget { hwnd: state.hwnd, pixel_size: size }
            &&& sized.0.accepts(Event::RenderTarget(Ok(handle)))
            &&& made.1 == Action::CreateBrush {
                brush: Brush::LightSlateGray,
                color: brush_color(Brush::LightSlateGray),
            }
            &&& made.0.accepts(Event::Brush(Ok(gray)))
            &&& first.1 == Action::CreateBrush {
                brush: Brush::CornflowerBlue,
                color: brush_color(Brush::CornflowerBlue),
            }
            &&& first.0.accepts(Event::Brush(Ok(blue)))
            &&& second.1 == Action::Draw { scene: Scene { surface: size } }
            &&& second.0 == SessionView {
                render_target: Some(RenderTarget { handle, pixel_size: size }),
                brush_set: Some(BrushSet { light_slate_gray: gray, cornflower_blue: blue }),
                pending: Pending::EndDraw,
                ..state
            }
            &&& asked.0.render_target is None && asked.0.brush_set is None
            &&& sized.0.render_target is None && sized.0.brush_set is None
            &&& made.0.render_target is None && made.0.brush_set is None
            &&& first.0.render_target is None && first.0.brush_set is None
        }),
{
}

/// Painting with device resources creates nothing: the frame for the stored
/// render target is handed out at once.
pub proof fn lemma_paint_with_resources_draws<F, T, B>(state: SessionView<F, T, B>)
    requires
        state.well_formed(),
        state.render_target is Some,
    ensures
        state.next(Event::Paint).1 == (Action::Draw {
            scene: Scene { surface: state.render_target->0.pixel_size },
        }),
        state.next(Event::Paint).0 == state.awaiting(Pending::EndDraw),
{
}

/// A failure while the device resources are created ends the operation with
/// that failure and stores nothing: the session is as it was before the
/// operation, with nothing pending, and asks for no second attempt.
pub proof fn lemma_failed_creation_stores_nothing<F, T, B>(
    state: SessionView<F, T, B>,
    outcome: Event<T, B>,
    error: DeviceError,
)
    requires
        state.accepts(outcome),
        outcome == Event::<T, B>::ClientRect(Err(error)) || outcome == Event::<T, B>::RenderTarget(
            Err(error),
        ) || outcome == Event::<T, B>::Brush(Err(error)),
    ensures
        state.next(outcome).1 == Action::Done(Err(error)),
        state.next(outcome).0 == state.idle(),
        state.next(outcome).0.render_target == state.render_target,
        state.next(outcome).0.brush_set == state.brush_set,
{
}

/// What the end of the draw batch does to the session: a batch that ended
/// well changes nothing; one that asks for a new render target discards the
/// device resources and still ends well; any other failure is handed on and
/// changes nothing.
pub proof fn lemma_end_of_draw<F, T, B>(
    state: SessionView<F, T, B>,
    outcome: Result<(), DeviceError>,
)
    requires
        state.pending is EndDraw,
    ensures
        state.accepts(Event::EndDraw(outcome)),
        outcome is Ok ==> state.next(Event::EndDraw(outcome)) == (state.idle(), Action::Done(Ok(()))),
        outcome == Err::<(), DeviceError>(DeviceError::RecreateTarget) ==> state.next(
            Event::EndDraw(outcome),
        ) == (state.discarded().idle(), Action::Done(Ok(()))),
        outcome is Err && outcome != Err::<(), DeviceError>(DeviceError::RecreateTarget)
            ==> state.next(Event::EndDraw(outcome)) == (state.idle(), Action::Done(outcome)),
{
}

/// A new size without a render target does nothing and ends well. With a
/// render target, the target is asked to take the size, and takes it in the
/// session's books exactly if the device reports success.
pub proof fn lemma_resize<F, T, B>(
    state: SessionView<F, T, B>,
    size: SizeU,
    outcome: Result<(), DeviceError>,
)
    requires
        state.well_formed(),
    ensures
        state.render_target is None ==> state.next(Event::Size { size }) == (
            state.idle(),
            Action::Done(Ok(())),
        ),
        state.render_target is Some ==> ({
            let asked = state.next(Event::Size { size });
            let done = asked.0.next(Event::Resized(outcome));
            &&& asked.1 == Action::Resize { pixel_size: size }
            &&& asked.0.accepts(Event::Resized(outcome))
            &&& done.1 == Action::Done(outcome)
            &&& done.0.pending is Nothing
            &&& done.0.brush_set == state.brush_set
            &&& done.0.render_target->0.handle == state.render_target->0.handle
            &&& done.0.render_target->0.pixel_size == if outcome is Ok {
                size
            } else {
                state.render_target->0.pixel_size
            }
        }),
{
    match outcome {
        Ok(unit) => {
            assert(outcome == Ok::<(), DeviceError>(()));
        },
        Err(error) => {},
    }
}

} // verus!
