//! The life of a windowed program: which framebuffer configuration it picks,
//! which kind of context it asks for, and who holds the context while the
//! window comes and goes.

use vstd::prelude::*;
use crate::cast::{as_signed, signed};
use crate::event::WindowEvent;

verus! {

/// What the picker reads of one framebuffer configuration.
#[derive(Clone, Copy, Debug, PartialEq, Eq)]
pub struct ConfigTraits {
    /// Whether a surface of this configuration can be transparent; `None`
    /// where the platform cannot tell.
    pub supports_transparency: Option<bool>,
    /// Samples per pixel.
    pub num_samples: u8,
}

impl ConfigTraits {
    /// The configuration is known to support transparency.
    pub open spec fn transparent(self) -> bool {
        self.supports_transparency == Some(true)
    }

    /// `self` takes the place of `accum`: it brings transparency where `accum`
    /// has none, or it has more samples.
    pub open spec fn replaces(self, accum: ConfigTraits) -> bool {
        (self.transparent() && !accum.transparent()) || self.num_samples > accum.num_samples
    }

    fn is_transparent(&self) -> (r: bool)
        ensures
            r == self.transparent(),
    {
        match self.supports_transparency {
            Some(t) => t,
            None => false,
        }
    }

    fn takes_over(&self, accum: &ConfigTraits) -> (r: bool)
        ensures
            r == self.replaces(*accum),
    {
        (self.is_transparent() && !accum.is_transparent()) || self.num_samples > accum.num_samples
    }
}

/// The position of the configuration that is held after the first `n` of
/// `configs` were seen in order: the first one, until one comes that replaces
/// the one held.
pub open spec fn held_after(configs: Seq<ConfigTraits>, n: nat) -> int
    decreases n,
{
    if n <= 1 {
        0
    } else {
        let held = held_after(configs, (n - 1) as nat);
        if configs[n - 1].replaces(configs[held]) {
            n - 1
        } else {
            held
        }
    }
}

/// The position held lies among the configurations seen.
pub proof fn lemma_held_in_range(configs: Seq<ConfigTraits>, n: nat)
    requires
        1 <= n,
    ensures
        0 <= held_after(configs, n) < n,
    decreases n,
{
    if n > 1 {
        lemma_held_in_range(configs, (n - 1) as nat);
    }
}

/// Among configurations of which none is known to support transparency, the
/// one held has the most samples, and is the earliest of those that have.
pub proof fn lemma_held_has_most_samples(configs: Seq<ConfigTraits>, n: nat)
    requires
        1 <= n <= configs.len(),
        forall|i: int| 0 <= i < n ==> !(#[trigger] configs[i]).transparent(),
    ensures
        forall|i: int|
            0 <= i < n ==> (#[trigger] configs[i]).num_samples <= configs[held_after(
                configs,
                n,
            )].num_samples,
        forall|i: int|
            0 <= i < held_after(configs, n) ==> (#[trigger] configs[i]).num_samples
                < configs[held_after(configs, n)].num_samples,
    decreases n,
{
    lemma_held_in_range(configs, n);
    if n > 1 {
        lemma_held_in_range(configs, (n - 1) as nat);
        lemma_held_has_most_samples(configs, (n - 1) as nat);
    }
}

/// A configuration that brings transparency always takes over from one that
/// has none, whatever their samples.
pub proof fn lemma_last_transparent_is_held(configs: Seq<ConfigTraits>, n: nat)
    requires
        2 <= n <= configs.len(),
        configs[n - 1].transparent(),
        !configs[held_after(configs, (n - 1) as nat)].transparent(),
    ensures
        held_after(configs, n) == n - 1,
{
}

/// Picks a framebuffer configuration: the position in `configs` of the one
/// that is held when all have been seen, or `None` where there is none to
/// pick from.
pub fn gl_config_picker(configs: &Vec<ConfigTraits>) -> (r: Option<usize>)
    ensures
        configs.len() == 0 <==> r is None,
        r matches Some(i) ==> i == held_after(configs@, configs@.len()) && i < configs.len(),
{
    if configs.len() == 0 {
        return None;
    }
    let mut held: usize = 0;
    let mut n: usize = 1;
    while n < configs.len()
        invariant
            1 <= n <= configs.len(),
            held == held_after(configs@, n as nat),
            held < n,
        decreases configs.len() - n,
    {
        if configs[n].takes_over(&configs[held]) {
            held = n;
        }
        n = n + 1;
    }
    Some(held)
}

/// The kind of context that is asked of the display.
#[derive(Clone, Copy, Debug, PartialEq, Eq)]
pub enum ContextRequest {
    /// The kind that the display prefers.
    Default,
    /// OpenGL ES, in any version.
    Gles,
    /// Desktop OpenGL in the given version.
    OpenGl { major: u8, minor: u8 },
}

impl ContextRequest {
    /// The requests in the order in which they are tried: the display's
    /// choice, then OpenGL ES for displays without a core context, then
    /// OpenGL 2.1 for old devices that have neither.
    pub open spec fn attempts() -> Seq<ContextRequest> {
        seq![
            ContextRequest::Default,
            ContextRequest::Gles,
            ContextRequest::OpenGl { major: 2, minor: 1 },
        ]
    }

    /// What is tried when `self` was refused.
    pub open spec fn spec_fallback(self) -> Option<ContextRequest> {
        match self {
            ContextRequest::Default => Some(ContextRequest::Gles),
            ContextRequest::Gles => Some(ContextRequest::OpenGl { major: 2, minor: 1 }),
            ContextRequest::OpenGl { .. } => None,
        }
    }

    /// The request to begin with.
    pub fn first() -> (r: Self)
        ensures
            r == Self::attempts()[0],
    {
        ContextRequest::Default
    }

    /// The request to go on with when `self` was refused, or `None` when
    /// nothing is left to try.
    #[verifier::when_used_as_spec(spec_fallback)]
    pub fn fallback(self) -> (r: Option<Self>)
        ensures
            r == self.spec_fallback(),
    {
        match self {
            ContextRequest::Default => Some(ContextRequest::Gles),
            ContextRequest::Gles => Some(ContextRequest::OpenGl { major: 2, minor: 1 }),
            ContextRequest::OpenGl { .. } => None,
        }
    }

    /// Going from each request to its fallback walks through `attempts` and
    /// ends behind its last entry.
    pub proof fn lemma_fallback_walks_attempts()
        ensures
            Self::attempts().len() == 3,
            forall|i: int|
                0 <= i < 2 ==> (#[trigger] Self::attempts()[i]).spec_fallback() == Some(
                    Self::attempts()[i + 1],
                ),
            Self::attempts()[2].spec_fallback() is None,
    {
    }
}

/// The part of a program that outlives its window.
///
/// `Ctx` is a context that is not current, `State` what exists only while
/// there is a window (the current context, its surface and the window),
/// `Failure` what the display reports when it cannot be built.
pub struct AppInternal<Ctx, State, Failure> {
    /// An error once the display could not be built.
    pub exit_state: Result<(), Failure>,
    /// The context that waits for the next window.
    pub not_current_gl_context: Option<Ctx>,
    /// What belongs to the window that is there.
    pub state: Option<State>,
}

impl<Ctx, State, Failure> AppInternal<Ctx, State, Failure> {
    /// The context has one holder at most: it waits for the next window, or
    /// it is part of the state of the window that is there.
    pub open spec fn wf(&self) -> bool {
        !(self.not_current_gl_context is Some && self.state is Some)
    }

    /// No window yet, no context, and no error.
    pub fn new() -> (r: Self)
        ensures
            r.exit_state is Ok,
            r.not_current_gl_context is None,
            r.state is None,
    {
        AppInternal { exit_state: Ok(()), not_current_gl_context: None, state: None }
    }

    /// The display could not be built: the error is kept for whoever started
    /// the program, and nothing else changes.
    pub fn display_failed(&mut self, error: Failure)
        ensures
            final(self).exit_state == Err::<(), Failure>(error),
            final(self).not_current_gl_context == old(self).not_current_gl_context,
            final(self).state == old(self).state,
    {
        self.exit_state = Err(error);
    }

    /// A window is about to come. Hands out the context that waited for it,
    /// so that it is used again; `None` tells the caller to ask the display
    /// for a new one, beginning with `ContextRequest::first()`.
    pub fn resumed(&mut self) -> (r: Option<Ctx>)
        ensures
            r == old(self).not_current_gl_context,
            final(self).not_current_gl_context is None,
            final(self).state == old(self).state,
            final(self).exit_state == old(self).exit_state,
            final(self).wf(),
    {
        self.not_current_gl_context.take()
    }

    /// The window is there and the context is current: keeps what belongs to
    /// the window. There must be no window already. Called after `resumed`,
    /// no context waits, and the context keeps its one holder.
    pub fn enter(&mut self, state: State)
        requires
            old(self).state is None,
        ensures
            final(self).state == Some(state),
            final(self).not_current_gl_context == old(self).not_current_gl_context,
            final(self).exit_state == old(self).exit_state,
            old(self).not_current_gl_context is None ==> final(self).wf(),
    {
        self.state = Some(state);
    }

    /// The window goes away. Hands out what belonged to it; the caller takes
    /// the context out of it, makes it not current and gives it to `park`.
    /// There must be a window.
    pub fn suspended(&mut self) -> (r: State)
        requires
            old(self).state is Some,
        ensures
            Some(r) == old(self).state,
            final(self).state is None,
            final(self).not_current_gl_context == old(self).not_current_gl_context,
            final(self).exit_state == old(self).exit_state,
            final(self).wf(),
    {
        self.state.take().unwrap()
    }

    /// Keeps a context that is not current, for the next window. No other
    /// context must wait already. Called after `suspended`, there is no
    /// window, and the context keeps its one holder.
    pub fn park(&mut self, context: Ctx)
        requires
            old(self).not_current_gl_context is None,
        ensures
            final(self).not_current_gl_context == Some(context),
            final(self).state == old(self).state,
            final(self).exit_state == old(self).exit_state,
            old(self).state is None ==> final(self).wf(),
    {
        self.not_current_gl_context = Some(context);
    }
}

/// What a window event asks of the surface and of the event loop.
#[derive(Clone, Copy, Debug, PartialEq, Eq)]
pub enum SurfaceAction {
    /// Nothing.
    Keep,
    /// Resize the surface to `width` by `height`, both above zero, and set
    /// the viewport to the same size, given there as the API takes it.
    Resize { width: u32, height: u32, viewport_width: i32, viewport_height: i32 },
    /// Leave the event loop.
    Exit,
}

/// What `event` asks for, with a window (`running`) or without: a resize to a
/// size with no side of zero goes to the surface if there is one; a request
/// to close, or the escape key, ends the loop; all else asks for nothing.
pub open spec fn surface_action_of(event: WindowEvent, running: bool) -> SurfaceAction {
    if event.spec_new_size() is Some {
        if running {
            let (width, height) = event.spec_new_size()->Some_0;
            SurfaceAction::Resize {
                width,
                height,
                viewport_width: signed(width) as i32,
                viewport_height: signed(height) as i32,
            }
        } else {
            SurfaceAction::Keep
        }
    } else if event.spec_asks_exit() {
        SurfaceAction::Exit
    } else {
        SurfaceAction::Keep
    }
}

/// Decides what `event` asks of the surface and of the event loop.
pub fn surface_action(event: &WindowEvent, running: bool) -> (r: SurfaceAction)
    ensures
        r == surface_action_of(*event, running),
{
    match event.new_size() {
        Some((width, height)) => {
            if running {
                SurfaceAction::Resize {
                    width,
                    height,
                    viewport_width: as_signed(width),
                    viewport_height: as_signed(height),
                }
            } else {
                SurfaceAction::Keep
            }
        },
        None => {
            if event.asks_exit() {
                SurfaceAction::Exit
            } else {
                SurfaceAction::Keep
            }
        },
    }
}

/// A program that draws with a renderer of its own.
pub struct App<Ctx, State, Failure, Rndr> {
    pub appi: AppInternal<Ctx, State, Failure>,
    /// Made when the first window comes, and kept from then on.
    pub renderer: Option<Rndr>,
}

impl<Ctx, State, Failure, Rndr> App<Ctx, State, Failure, Rndr> {
    /// While there is a window there is a renderer, and the context has one
    /// holder at most.
    pub open spec fn wf(&self) -> bool {
        &&& self.appi.wf()
        &&& self.appi.state is Some ==> self.renderer is Some
    }

    /// A program without window, context and renderer.
    pub fn new() -> (r: Self)
        ensures
            r.appi.exit_state is Ok,
            r.appi.not_current_gl_context is None,
            r.appi.state is None,
            r.renderer is None,
    {
        App { appi: AppInternal::new(), renderer: None }
    }

    /// A window has come and the context is current in `state`; there must
    /// be no window already. A renderer is made by the caller only where
    /// `self.renderer` is `None`, and handed in as `fresh`; one that exists is
    /// kept.
    pub fn resumed(&mut self, state: State, fresh: Option<Rndr>)
        requires
            old(self).appi.state is None,
        ensures
            final(self).appi.state == Some(state),
            final(self).appi.not_current_gl_context == old(self).appi.not_current_gl_context,
            final(self).appi.exit_state == old(self).appi.exit_state,
            final(self).renderer == if old(self).renderer is Some {
                old(self).renderer
            } else {
                fresh
            },
            old(self).appi.not_current_gl_context is None && (old(self).renderer is Some
                || fresh is Some) ==> final(self).wf(),
    {
        if self.renderer.is_none() {
            self.renderer = fresh;
        }
        self.appi.enter(state);
    }

    /// What `event` asks of the surface and of the event loop.
    pub fn window_event(&self, event: &WindowEvent) -> (r: SurfaceAction)
        ensures
            r == surface_action_of(*event, self.appi.state is Some),
    {
        surface_action(event, self.appi.state.is_some())
    }

    /// Whether a frame is drawn now: only while there is a window.
    pub fn about_to_wait(&self) -> (r: bool)
        ensures
            r == self.appi.state is Some,
    {
        self.appi.state.is_some()
    }
}

} // verus!
