//! The display worker: one show, hold and fade cycle per request.
//!
//! The worker decides; the program around it acts. Each call of
//! [`DisplayWorker::step`] takes what the last action brought and answers with
//! the next action to perform. The worker owns the render cache, and runs one
//! cycle at a time from start to end.

use vstd::prelude::*;
use crate::cache::{byte_len, ImageModel, RenderCache, RenderedImage};
use crate::compositor::scaled_pixels;
use crate::config::AnimationConfig;
use crate::easing::{fade_alpha, fade_alpha_spec, Fraction};
use crate::placement::{place_overlay, placement_for, Placement, Rect};
use crate::session::{fits_pool, OverlaySession};

verus! {

/// Where the worker stands in its cycle.
#[derive(Clone, Copy, Debug, PartialEq, Eq, Structural)]
pub enum Phase {
    /// Waiting for a request.
    Idle,
    /// Waiting for the rasterizer: the text was not in the cache.
    Rendering,
    /// Waiting for the active window's rectangle.
    Positioning,
    /// The surface is being shown: first waiting for its configuration to be
    /// acknowledged, then (`configured`) for the opaque frame to be committed.
    Showing { configured: bool },
    /// The opaque frame stays up for the display duration.
    HoldingSteady,
    /// Fade step `step`: first waiting for its frame to be committed, then
    /// (`sleeping`) for the frame's time to pass.
    FadingOut { step: u32, sleeping: bool },
}

/// What the program reports back to the worker.
#[derive(Debug)]
pub enum Event {
    /// A display request was taken from the queue.
    Request(String),
    /// The rasterizer rendered the current text at full opacity.
    Rendered(RenderedImage),
    /// The rasterizer failed.
    RenderFailed,
    /// The window query answered; `None` where no window is active.
    Geometry(Option<Rect>),
    /// The surface was created and its configuration acknowledged.
    Configured,
    /// A frame was attached and committed.
    Committed,
    /// A sleep ended.
    Elapsed,
    /// The overlay service failed or closed the surface.
    SurfaceFailed,
}

/// What the worker asks the program to do next.
#[derive(Clone, Copy, Debug, PartialEq, Eq, Structural)]
pub enum Action {
    /// Block on the queue, then report `Request`.
    WaitForRequest,
    /// Render the current text at full opacity, then report `Rendered` or
    /// `RenderFailed`.
    Rasterize { width: u32, height: u32 },
    /// Ask for the active window's rectangle, then report `Geometry`.
    QueryGeometry,
    /// Create the surface with this size and placement, wait for the
    /// configuration to be acknowledged, then report `Configured`.
    BeginCycle { width: u32, height: u32, placement: Placement },
    /// Upload the pending frame, which has this opacity, and report
    /// `Committed`; with `wait`, only after the service's acknowledgment.
    Upload { alpha: Fraction, wait: bool },
    /// Sleep, then report `Elapsed`.
    Sleep { millis: u64 },
    /// Destroy the surface, then block on the queue and report `Request`.
    EndCycle,
    /// The event was not expected in this phase; nothing changed.
    Ignore,
}

/// What a [`DisplayWorker`] stands for.
pub struct WorkerModel {
    pub width: u32,
    pub height: u32,
    pub animation: AnimationConfig,
    pub cache: Map<Seq<char>, ImageModel>,
    pub phase: Phase,
    pub text: Seq<char>,
}

/// The opacity one.
pub open spec fn opaque() -> Fraction {
    Fraction { num: 1, den: 1 }
}

impl WorkerModel {
    /// Whether an image can stand for the overlay: it has the overlay's size
    /// and four bytes for each pixel.
    pub open spec fn accepts(self, image: ImageModel) -> bool {
        image.wf() && image.width == self.width && image.height == self.height
    }

    /// Whether a surface exists in this phase.
    pub open spec fn surface_alive(self) -> bool {
        self.phase is Showing || self.phase is HoldingSteady || self.phase is FadingOut
    }

    /// Whether a cycle for the current text is past rendering.
    pub open spec fn has_image(self) -> bool {
        self.phase is Positioning || self.surface_alive()
    }

    /// The opacity of the frame that waits to be uploaded, if one does.
    pub open spec fn pending_alpha(self) -> Option<Fraction> {
        match self.phase {
            Phase::Showing { configured: true } => Some(opaque()),
            Phase::FadingOut { step, sleeping: false } => Some(
                fade_alpha_spec(step, self.animation.fade_frames),
            ),
            _ => None,
        }
    }

    /// Every cached image fits the overlay, a cycle past rendering has its
    /// image, one that is rendering has none yet, and a fade step lies within
    /// the configured frames.
    pub open spec fn wf(self) -> bool {
        &&& forall|t: Seq<char>| #[trigger]
            self.cache.contains_key(t) ==> self.accepts(self.cache[t])
        &&& self.has_image() ==> self.cache.contains_key(self.text)
        &&& self.phase is Rendering ==> !self.cache.contains_key(self.text)
        &&& match self.phase {
            Phase::FadingOut { step, .. } => 1 <= step <= self.animation.fade_frames,
            _ => true,
        }
    }

    /// The worker in another phase.
    pub open spec fn at(self, phase: Phase) -> WorkerModel {
        WorkerModel { phase, ..self }
    }

    /// The worker after `event`.
    pub open spec fn step(self, event: Event) -> WorkerModel {
        match (self.phase, event) {
            (Phase::Idle, Event::Request(text)) => {
                let next = WorkerModel { text: text@, ..self };
                if self.cache.contains_key(text@) {
                    next.at(Phase::Positioning)
                } else {
                    next.at(Phase::Rendering)
                }
            },
            (Phase::Rendering, Event::Rendered(image)) => {
                if self.accepts(image@) {
                    WorkerModel {
                        cache: self.cache.insert(self.text, image@),
                        phase: Phase::Positioning,
                        ..self
                    }
                } else {
                    self.at(Phase::Idle)
                }
            },
            (Phase::Rendering, Event::RenderFailed) => self.at(Phase::Idle),
            (Phase::Positioning, Event::Geometry(_)) => self.at(
                Phase::Showing { configured: false },
            ),
            (Phase::Showing { configured: false }, Event::Configured) => self.at(
                Phase::Showing { configured: true },
            ),
            (Phase::Showing { configured: true }, Event::Committed) => self.at(
                Phase::HoldingSteady,
            ),
            (Phase::HoldingSteady, Event::Elapsed) => {
                if self.animation.fade_frames == 0 {
                    self.at(Phase::Idle)
                } else {
                    self.at(Phase::FadingOut { step: 1, sleeping: false })
                }
            },
            (Phase::FadingOut { step, sleeping: false }, Event::Committed) => self.at(
                Phase::FadingOut { step, sleeping: true },
            ),
            (Phase::FadingOut { step, sleeping: true }, Event::Elapsed) => {
                if step >= self.animation.fade_frames {
                    self.at(Phase::Idle)
                } else {
                    self.at(Phase::FadingOut { step: (step + 1) as u32, sleeping: false })
                }
            },
            (_, Event::SurfaceFailed) => {
                if self.surface_alive() {
                    self.at(Phase::Idle)
                } else {
                    self
                }
            },
            _ => self,
        }
    }

    /// What the worker asks for on `event`.
    pub open spec fn action(self, event: Event) -> Action {
        match (self.phase, event) {
            (Phase::Idle, Event::Request(text)) => {
                if self.cache.contains_key(text@) {
                    Action::QueryGeometry
                } else {
                    Action::Rasterize { width: self.width, height: self.height }
                }
            },
            (Phase::Rendering, Event::Rendered(image)) => {
                if self.accepts(image@) {
                    Action::QueryGeometry
                } else {
                    Action::WaitForRequest
                }
            },
            (Phase::Rendering, Event::RenderFailed) => Action::WaitForRequest,
            (Phase::Positioning, Event::Geometry(window)) => Action::BeginCycle {
                width: self.width,
                height: self.height,
                placement: placement_for(window, self.width, self.height),
            },
            (Phase::Showing { configured: false }, Event::Configured) => Action::Upload {
                alpha: opaque(),
                wait: true,
            },
            (Phase::Showing { configured: true }, Event::Committed) => Action::Sleep {
                millis: self.animation.display_duration_ms,
            },
            (Phase::HoldingSteady, Event::Elapsed) => {
                if self.animation.fade_frames == 0 {
                    Action::EndCycle
                } else {
                    Action::Upload {
                        alpha: fade_alpha_spec(1, self.animation.fade_frames),
                        wait: false,
                    }
                }
            },
            (Phase::FadingOut { step, sleeping: false }, Event::Committed) => Action::Sleep {
                millis: (self.animation.fade_duration_ms as int / self.animation.fade_frames as int) as u64,
            },
            (Phase::FadingOut { step, sleeping: true }, Event::Elapsed) => {
                if step >= self.animation.fade_frames {
                    Action::EndCycle
                } else {
                    Action::Upload {
                        alpha: fade_alpha_spec((step + 1) as u32, self.animation.fade_frames),
                        wait: false,
                    }
                }
            },
            (_, Event::SurfaceFailed) => {
                if self.surface_alive() {
                    Action::EndCycle
                } else {
                    Action::Ignore
                }
            },
            _ => Action::Ignore,
        }
    }
}

/// The worker after `rounds` frames of the fade: each frame is committed, then
/// its time passes.
pub open spec fn after_frames(m: WorkerModel, rounds: nat) -> WorkerModel
    decreases rounds,
{
    if rounds == 0 {
        m
    } else {
        after_frames(m.step(Event::Committed).step(Event::Elapsed), (rounds - 1) as nat)
    }
}

/// From fade step `step`, each frame leads to the next one while frames are
/// left, and the frame after the last one leads to idle.
pub proof fn lemma_fade_advances(m: WorkerModel, step: u32, rounds: nat)
    requires
        m.phase == (Phase::FadingOut { step, sleeping: false }),
        1 <= step <= m.animation.fade_frames,
        step + rounds <= m.animation.fade_frames + 1,
    ensures
        step + rounds <= m.animation.fade_frames ==> after_frames(m, rounds) == m.at(
            Phase::FadingOut { step: (step + rounds) as u32, sleeping: false },
        ),
        step + rounds == m.animation.fade_frames + 1 ==> after_frames(m, rounds) == m.at(
            Phase::Idle,
        ),
    decreases rounds,
{
    if rounds > 0 {
        let next = m.step(Event::Committed).step(Event::Elapsed);
        if step < m.animation.fade_frames {
            assert(next == m.at(Phase::FadingOut { step: (step + 1) as u32, sleeping: false }));
            lemma_fade_advances(next, (step + 1) as u32, (rounds - 1) as nat);
            assert(next.at(Phase::Idle) == m.at(Phase::Idle));
            if step + rounds <= m.animation.fade_frames {
                let reached = Phase::FadingOut { step: (step + rounds) as u32, sleeping: false };
                assert(next.at(reached) == m.at(reached));
            }
        } else {
            assert(rounds == 1);
            assert(next == m.at(Phase::Idle));
            assert(after_frames(next, 0) == next);
        }
    } else {
        assert(m.at(m.phase) == m);
    }
}

/// A fade shows every configured frame, in order, and then ends: once the
/// hold is over, frame `frame` is pending after `frame - 1` frames, with the
/// opacity of its step; the surface is destroyed when the last frame's time
/// has passed, and the worker is idle after exactly as many frames as are
/// configured.
pub proof fn lemma_fade_runs_every_frame(m: WorkerModel, frame: u32)
    requires
        m.phase == Phase::HoldingSteady,
        1 <= frame <= m.animation.fade_frames,
    ensures
        m.action(Event::Elapsed) == (Action::Upload {
            alpha: fade_alpha_spec(1, m.animation.fade_frames),
            wait: false,
        }),
        after_frames(m.step(Event::Elapsed), (frame - 1) as nat) == m.at(
            Phase::FadingOut { step: frame, sleeping: false },
        ),
        after_frames(m.step(Event::Elapsed), (frame - 1) as nat).pending_alpha() == Some(
            fade_alpha_spec(frame, m.animation.fade_frames),
        ),
        after_frames(m.step(Event::Elapsed), m.animation.fade_frames as nat) == m.at(Phase::Idle),
        after_frames(m.step(Event::Elapsed), (m.animation.fade_frames - 1) as nat).step(
            Event::Committed,
        ).action(Event::Elapsed) == Action::EndCycle,
{
    let start = m.step(Event::Elapsed);
    let frames = m.animation.fade_frames;
    assert(start == m.at(Phase::FadingOut { step: 1, sleeping: false }));
    lemma_fade_advances(start, 1, (frame - 1) as nat);
    lemma_fade_advances(start, 1, frames as nat);
    lemma_fade_advances(start, 1, (frames - 1) as nat);
    assert(start.at(Phase::Idle) == m.at(Phase::Idle));
    assert(start.at(Phase::FadingOut { step: frame, sleeping: false }) == m.at(
        Phase::FadingOut { step: frame, sleeping: false },
    ));
}

/// A step keeps the worker well formed.
pub proof fn lemma_step_preserves_wf(m: WorkerModel, event: Event)
    requires
        m.wf(),
    ensures
        m.step(event).wf(),
{
}

/// The cache only grows: whatever a step does, every cached text stays
/// cached, with the image it had.
pub proof fn lemma_cache_only_grows(m: WorkerModel, event: Event, text: Seq<char>)
    requires
        m.wf(),
        m.cache.contains_key(text),
    ensures
        m.step(event).cache.contains_key(text),
        m.step(event).cache[text] == m.cache[text],
{
}

/// An idle worker asks for the rasterizer exactly when the requested text is
/// not cached; a cached text goes straight to positioning, and the cache
/// stays as it was.
pub proof fn lemma_rasterize_only_on_miss(m: WorkerModel, text: String)
    requires
        m.phase is Idle,
    ensures
        m.action(Event::Request(text)) is Rasterize <==> !m.cache.contains_key(text@),
        m.cache.contains_key(text@) ==> m.action(Event::Request(text)) == Action::QueryGeometry
            && m.step(Event::Request(text)).phase == Phase::Positioning,
        m.step(Event::Request(text)).cache == m.cache,
{
}

/// Once the rasterizer has delivered a fitting image, the current text is
/// cached with that image.
pub proof fn lemma_rendered_text_is_cached(m: WorkerModel, image: RenderedImage)
    requires
        m.phase is Rendering,
        m.accepts(image@),
    ensures
        m.step(Event::Rendered(image)).cache.contains_key(m.text),
        m.step(Event::Rendered(image)).cache[m.text] == image@,
        m.step(Event::Rendered(image)).phase == Phase::Positioning,
{
}

/// A failed rasterizer sends the worker back to idle and leaves the cache as
/// it was.
pub proof fn lemma_render_failure_abandons(m: WorkerModel)
    requires
        m.phase is Rendering,
    ensures
        m.step(Event::RenderFailed).phase == Phase::Idle,
        m.step(Event::RenderFailed).cache == m.cache,
        m.action(Event::RenderFailed) == Action::WaitForRequest,
{
}

/// A failing surface ends the cycle that runs: the surface is released, the
/// worker is idle, the cache is as it was, and the next request is taken.
pub proof fn lemma_surface_failure_abandons(m: WorkerModel, next: String)
    requires
        m.surface_alive(),
    ensures
        m.step(Event::SurfaceFailed) == m.at(Phase::Idle),
        m.action(Event::SurfaceFailed) == Action::EndCycle,
        !(m.step(Event::SurfaceFailed).action(Event::Request(next)) is Ignore),
{
}

/// A cycle that runs is never preempted: a request that is handed to a
/// worker that is not idle changes nothing.
pub proof fn lemma_no_preemption(m: WorkerModel, text: String)
    requires
        !(m.phase is Idle),
    ensures
        m.step(Event::Request(text)) == m,
        m.action(Event::Request(text)) == Action::Ignore,
{
}

/// At most one surface lives at a time. A surface is created only where none
/// exists, destroyed only where one exists, and the worker is idle after that;
/// no other action changes whether one exists. A frame is uploaded only to a
/// configured surface, with the opacity that the next phase holds pending.
pub proof fn lemma_surface_lifecycle(m: WorkerModel, event: Event)
    requires
        m.wf(),
    ensures
        m.action(event) is BeginCycle ==> !m.surface_alive() && m.step(event).surface_alive(),
        m.action(event) is EndCycle ==> m.surface_alive() && m.step(event).phase == Phase::Idle,
        !(m.action(event) is BeginCycle) && !(m.action(event) is EndCycle) ==> m.step(
            event,
        ).surface_alive() == m.surface_alive(),
        m.action(event) is Upload ==> m.step(event).surface_alive() && m.step(
            event,
        ).pending_alpha() == Some(m.action(event)->alpha) && m.step(event).phase
            != (Phase::Showing { configured: false }),
{
}

/// A session that has a surface exactly when the worker's phase has one
/// accepts every surface that the worker asks for, as far as its buffer fits
/// the pool.
pub proof fn lemma_begin_cycle_is_accepted(m: WorkerModel, session: OverlaySession, event: Event)
    requires
        m.wf(),
        m.surface_alive() <==> session.surface is Some,
        m.action(event) is BeginCycle,
        fits_pool(m.width, m.height),
    ensures
        m.action(event)->BeginCycle_width == m.width,
        m.action(event)->BeginCycle_height == m.height,
        session.begin_result(m.width, m.height, m.action(event)->placement) is Ok,
{
}

/// Without a window the overlay is centred on the screen.
pub proof fn lemma_no_window_is_centered(m: WorkerModel)
    requires
        m.phase is Positioning,
    ensures
        m.action(Event::Geometry(None)) == (Action::BeginCycle {
            width: m.width,
            height: m.height,
            placement: Placement::Centered,
        }),
{
}

/// The worker: its configuration, its cache, and where it stands.
pub struct DisplayWorker {
    width: u32,
    height: u32,
    animation: AnimationConfig,
    cache: RenderCache,
    phase: Phase,
    current: String,
}

impl View for DisplayWorker {
    type V = WorkerModel;

    closed spec fn view(&self) -> WorkerModel {
        WorkerModel {
            width: self.width,
            height: self.height,
            animation: self.animation,
            cache: self.cache@,
            phase: self.phase,
            text: self.current@,
        }
    }
}

impl DisplayWorker {
    /// The cache and the model are both well formed.
    pub closed spec fn wf(&self) -> bool {
        self.cache.wf() && self@.wf()
    }

    /// An idle worker with an empty cache, for an overlay of the given size.
    pub fn new(width: u32, height: u32, animation: AnimationConfig) -> (r: DisplayWorker)
        ensures
            r.wf(),
            r@ == (WorkerModel {
                width,
                height,
                animation,
                cache: Map::empty(),
                phase: Phase::Idle,
                text: Seq::empty(),
            }),
    {
        DisplayWorker {
            width,
            height,
            animation,
            cache: RenderCache::new(),
            phase: Phase::Idle,
            current: String::new(),
        }
    }

    /// The phase the worker is in.
    pub fn phase(&self) -> (r: Phase)
        ensures
            r == self@.phase,
    {
        self.phase
    }

    /// The text of the cycle that runs, or of the last one.
    pub fn current_text(&self) -> (r: &String)
        ensures
            r@ == self@.text,
    {
        &self.current
    }

    /// The render cache.
    pub fn cache(&self) -> (r: &RenderCache)
        ensures
            r@ == self@.cache,
            self.wf() ==> r.wf(),
    {
        &self.cache
    }

    /// The frame that waits to be uploaded: the image of the current text
    /// scaled to the pending opacity. `None` where no upload is pending.
    pub fn pending_frame(&self) -> (r: Option<Vec<u8>>)
        requires
            self.wf(),
        ensures
            r is Some <==> self@.pending_alpha() is Some,
            r is Some ==> r->0@ == scaled_pixels(
                self@.cache[self@.text].pixels,
                self@.pending_alpha()->0,
            ),
            r is Some && self@.phase is Showing ==> r->0@ == self@.cache[self@.text].pixels,
            r is Some ==> r->0@.len() == byte_len(self@.width, self@.height),
    {
        proof {
            if self@.has_image() {
                self.cache.lemma_images_wf(self.current@);
            }
        }
        match self.phase {
            Phase::Showing { configured: true } => {
                let alpha = Fraction::one();
                self.cache.derive(self.current.as_str(), &alpha)
            },
            Phase::FadingOut { step, sleeping: false } => {
                let alpha = fade_alpha(step, self.animation.fade_frames);
                self.cache.derive(self.current.as_str(), &alpha)
            },
            _ => None,
        }
    }

    fn accepts_image(&self, image: &RenderedImage) -> (r: bool)
        ensures
            r == self@.accepts(image@),
    {
        image.is_well_formed() && image.width() == self.width && image.height() == self.height
    }

    /// Takes what the last action brought and answers with the next action.
    pub fn step(&mut self, event: Event) -> (action: Action)
        requires
            old(self).wf(),
        ensures
            final(self).wf(),
            final(self)@ == old(self)@.step(event),
            action == old(self)@.action(event),
    {
        let phase = self.phase;
        match event {
            Event::Request(text) => match phase {
                Phase::Idle => {
                    let hit = self.cache.contains(text.as_str());
                    self.current = text;
                    if hit {
                        self.phase = Phase::Positioning;
                        Action::QueryGeometry
                    } else {
                        self.phase = Phase::Rendering;
                        Action::Rasterize { width: self.width, height: self.height }
                    }
                },
                _ => Action::Ignore,
            },
            Event::Rendered(image) => match phase {
                Phase::Rendering => {
                    if self.accepts_image(&image) {
                        self.cache.store(self.current.as_str(), image);
                        self.phase = Phase::Positioning;
                        Action::QueryGeometry
                    } else {
                        self.phase = Phase::Idle;
                        Action::WaitForRequest
                    }
                },
                _ => Action::Ignore,
            },
            Event::RenderFailed => match phase {
                Phase::Rendering => {
                    self.phase = Phase::Idle;
                    Action::WaitForRequest
                },
                _ => Action::Ignore,
            },
            Event::Geometry(window) => match phase {
                Phase::Positioning => {
                    self.phase = Phase::Showing { configured: false };
                    Action::BeginCycle {
                        width: self.width,
                        height: self.height,
                        placement: place_overlay(window, self.width, self.height),
                    }
                },
                _ => Action::Ignore,
            },
            Event::Configured => match phase {
                Phase::Showing { configured: false } => {
                    self.phase = Phase::Showing { configured: true };
                    Action::Upload { alpha: Fraction::one(), wait: true }
                },
                _ => Action::Ignore,
            },
            Event::Committed => match phase {
                Phase::Showing { configured: true } => {
                    self.phase = Phase::HoldingSteady;
                    Action::Sleep { millis: self.animation.display_duration_ms }
                },
                Phase::FadingOut { step, sleeping: false } => {
                    self.phase = Phase::FadingOut { step, sleeping: true };
                    Action::Sleep {
                        millis: self.animation.fade_duration_ms / (self.animation.fade_frames as u64),
                    }
                },
                _ => Action::Ignore,
            },
            Event::Elapsed => match phase {
                Phase::HoldingSteady => {
                    if self.animation.fade_frames == 0 {
                        self.phase = Phase::Idle;
                        Action::EndCycle
                    } else {
                        self.phase = Phase::FadingOut { step: 1, sleeping: false };
                        Action::Upload {
                            alpha: fade_alpha(1, self.animation.fade_frames),
                            wait: false,
                        }
                    }
                },
                Phase::FadingOut { step, sleeping: true } => {
                    if step >= self.animation.fade_frames {
                        self.phase = Phase::Idle;
                        Action::EndCycle
                    } else {
                        let next: u32 = step + 1;
                        self.phase = Phase::FadingOut { step: next, sleeping: false };
                        Action::Upload {
                            alpha: fade_alpha(next, self.animation.fade_frames),
                            wait: false,
                        }
                    }
                },
                _ => Action::Ignore,
            },
            Event::SurfaceFailed => match phase {
                Phase::Showing { .. } | Phase::HoldingSteady | Phase::FadingOut { .. } => {
                    self.phase = Phase::Idle;
                    Action::EndCycle
                },
                _ => Action::Ignore,
            },
        }
    }
}

} // verus!
