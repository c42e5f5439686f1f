//! The render state manager: what is configured, what is drawn, and which
//! shader is active.
//!
//! The manager decides and records; it does not touch the GPU. Each
//! operation returns what the caller has to carry out (reconfigure the
//! surface, draw a frame), and takes as an argument what the GPU answered
//! (the pipeline that was built, or the compiler's diagnostic). The type `P`
//! stands for the GPU objects that are replaced together on a shader reload:
//! pipeline, uniform buffer and bind group.

use vstd::prelude::*;
use crate::camera::{Aspect, Camera};
use crate::ieee::{DOUBLE_ONE, DOUBLE_TENTH, DOUBLE_THREE_TENTHS, DOUBLE_TWO_TENTHS};
use crate::error::ShaderError;
use crate::shader::{is_blank, lemma_default_shader_not_blank, source_is_blank, DEFAULT_SHADER};
use crate::surface::SurfaceConfig;
use crate::vertex::{num_indices, INDICES};

verus! {

/// A colour with alpha; each channel is a double-precision bit pattern.
#[derive(Clone, Copy, Debug, PartialEq, Eq, Structural)]
pub struct Color {
    /// Red.
    pub r: u64,
    /// Green.
    pub g: u64,
    /// Blue.
    pub b: u64,
    /// Alpha.
    pub a: u64,
}

/// The background of a new session: (0.1, 0.2, 0.3), opaque.
pub open spec fn default_background() -> Color {
    Color { r: DOUBLE_TENTH, g: DOUBLE_TWO_TENTHS, b: DOUBLE_THREE_TENTHS, a: DOUBLE_ONE }
}

/// Width of the entries of an index buffer.
#[derive(Clone, Copy, Debug, PartialEq, Eq, Structural)]
pub enum IndexFormat {
    /// 16-bit indices.
    Uint16,
    /// 32-bit indices.
    Uint32,
}

/// One render pass: clear the target, bind the active pipeline, the vertex
/// buffer, the index buffer and the camera bind group, then draw the indexed
/// geometry once.
#[derive(Clone, Copy, Debug, PartialEq, Eq, Structural)]
pub struct DrawCall {
    /// The colour the target is cleared to.
    pub clear_color: Color,
    /// The slot the vertex buffer is bound to.
    pub vertex_slot: u32,
    /// Width of the entries of the index buffer.
    pub index_format: IndexFormat,
    /// The group the camera bind group is bound to.
    pub bind_group: u32,
    /// The draw covers the indices `0..index_count`.
    pub index_count: u32,
    /// The value added to each index before it selects a vertex.
    pub base_vertex: i32,
    /// The draw covers the instances `0..instance_count`.
    pub instance_count: u32,
}

/// What to do for the frame that was asked for.
#[derive(Clone, Copy, Debug, PartialEq, Eq, Structural)]
pub enum RenderAction {
    /// The surface is not configured: draw nothing, report success.
    Skip,
    /// Acquire the next frame, record and submit this pass, present.
    Draw(DrawCall),
}

/// What to do after a resize was asked for.
#[derive(Clone, Copy, Debug)]
pub enum ResizeAction {
    /// A dimension was zero: nothing changed, nothing to do.
    Ignore,
    /// Configure the surface at the new size and upload the matrix of the
    /// camera to the uniform buffer.
    Reconfigure {
        /// The new configuration of the surface.
        config: SurfaceConfig,
        /// The camera with its new aspect.
        camera: Camera,
    },
}

/// A key, as far as the manager tells keys apart.
#[derive(Clone, Copy, Debug, PartialEq, Eq, Structural)]
pub enum Key {
    /// The escape key.
    Escape,
    /// Any other key.
    Other,
}

/// What to do after a key event.
#[derive(Clone, Copy, Debug, PartialEq, Eq, Structural)]
pub enum KeyAction {
    /// Leave the event loop.
    Exit,
    /// Nothing.
    Ignore,
}

/// The render state as a mathematical value.
pub struct StateModel<P> {
    /// The colour each frame is cleared to.
    pub background_color: Color,
    /// The camera.
    pub camera: Camera,
    /// The configuration of the surface.
    pub config: SurfaceConfig,
    /// Whether the surface has been configured by a resize.
    pub surface_ready: bool,
    /// The active pipeline with its uniform buffer and bind group.
    pub pipeline: P,
    /// Number of indices of one draw.
    pub num_indices: u32,
    /// The source of the active pipeline's shader.
    pub current_shader: Seq<char>,
}

impl<P> StateModel<P> {
    /// What always holds of a render state: a surface that counts as
    /// configured has a valid size, the camera's aspect is that of the
    /// surface, and a draw covers the whole index list.
    pub open spec fn wf(self) -> bool {
        &&& self.surface_ready ==> self.config.is_valid()
        &&& self.camera.aspect == Aspect { width: self.config.width, height: self.config.height }
        &&& self.num_indices == INDICES@.len()
    }

    /// The state of a new session.
    pub open spec fn initial(config: SurfaceConfig, pipeline: P) -> Self {
        StateModel {
            background_color: default_background(),
            camera: Camera::placed(Aspect { width: config.width, height: config.height }),
            config,
            surface_ready: false,
            pipeline,
            num_indices: 6,
            current_shader: DEFAULT_SHADER@,
        }
    }

    /// The state after a resize to `width` x `height` was asked for.
    pub open spec fn resized(self, width: u32, height: u32) -> Self {
        if width > 0 && height > 0 {
            StateModel {
                config: SurfaceConfig { width, height },
                surface_ready: true,
                camera: self.camera.with_aspect(Aspect { width, height }),
                ..self
            }
        } else {
            self
        }
    }

    /// What the caller does after a resize to `width` x `height` was asked
    /// for.
    pub open spec fn resize_action(self, width: u32, height: u32) -> ResizeAction {
        if width > 0 && height > 0 {
            ResizeAction::Reconfigure {
                config: SurfaceConfig { width, height },
                camera: self.camera.with_aspect(Aspect { width, height }),
            }
        } else {
            ResizeAction::Ignore
        }
    }

    /// What the caller does for the next frame.
    pub open spec fn frame(self) -> RenderAction {
        if self.surface_ready {
            RenderAction::Draw(
                DrawCall {
                    clear_color: self.background_color,
                    vertex_slot: 0,
                    index_format: IndexFormat::Uint16,
                    bind_group: 0,
                    index_count: self.num_indices,
                    base_vertex: 0,
                    instance_count: 1,
                },
            )
        } else {
            RenderAction::Skip
        }
    }

    /// The state after a reload from `source` for which the pipeline builder
    /// answered `built`: the new pipeline and its source replace the old ones
    /// together if there is a source and it compiled, and nothing changes
    /// otherwise.
    pub open spec fn reloaded(self, source: Seq<char>, built: Result<P, String>) -> Self {
        if is_blank(source) {
            self
        } else {
            match built {
                Ok(pipeline) => StateModel { pipeline, current_shader: source, ..self },
                Err(_) => self,
            }
        }
    }
}

/// What a reload from `source` returns when the pipeline builder answered
/// `built`.
pub open spec fn reload_result<P>(source: Seq<char>, built: Result<P, String>) -> Result<
    (),
    ShaderError,
> {
    if is_blank(source) {
        Err(ShaderError::EmptySource)
    } else {
        match built {
            Ok(_) => Ok(()),
            Err(diagnostic) => Err(ShaderError::CompileFailed(diagnostic)),
        }
    }
}

/// What a key event leads to: escape, when pressed, ends the session.
pub open spec fn key_action(key: Key, is_pressed: bool) -> KeyAction {
    if key == Key::Escape && is_pressed {
        KeyAction::Exit
    } else {
        KeyAction::Ignore
    }
}

/// The render state of one session.
pub struct State<P> {
    background_color: Color,
    camera: Camera,
    config: SurfaceConfig,
    is_surface_configured: bool,
    pipeline: P,
    num_indices: u32,
    current_shader: String,
}

impl<P> View for State<P> {
    type V = StateModel<P>;

    closed spec fn view(&self) -> StateModel<P> {
        StateModel {
            background_color: self.background_color,
            camera: self.camera,
            config: self.config,
            surface_ready: self.is_surface_configured,
            pipeline: self.pipeline,
            num_indices: self.num_indices,
            current_shader: self.current_shader@,
        }
    }
}

impl<P> State<P> {
    /// The state is well formed.
    pub open spec fn wf(&self) -> bool {
        self@.wf()
    }

    /// Starts a session on a surface of the size `config` with `pipeline`,
    /// the pipeline built from the default shader. The surface does not count
    /// as configured until the first resize.
    pub fn new(config: SurfaceConfig, pipeline: P) -> (state: Self)
        ensures
            state@ == StateModel::initial(config, pipeline),
            state.wf(),
    {
        State {
            background_color: Color {
                r: DOUBLE_TENTH,
                g: DOUBLE_TWO_TENTHS,
                b: DOUBLE_THREE_TENTHS,
                a: DOUBLE_ONE,
            },
            camera: Camera::new(config.width, config.height),
            config,
            is_surface_configured: false,
            pipeline,
            num_indices: num_indices(),
            current_shader: DEFAULT_SHADER.to_owned(),
        }
    }

    /// Takes a new size of the window. With a dimension of zero nothing
    /// changes. Otherwise the configuration and the camera's aspect take the
    /// new size, the surface counts as configured, and the caller is told to
    /// reconfigure the surface and to upload the camera's matrix.
    pub fn resize(&mut self, width: u32, height: u32) -> (action: ResizeAction)
        ensures
            old(self).wf() ==> final(self).wf(),
            final(self)@ == old(self)@.resized(width, height),
            action == old(self)@.resize_action(width, height),
    {
        let config = SurfaceConfig { width, height };
        if config.check_valid() {
            self.config = config;
            self.is_surface_configured = true;
            self.camera.set_aspect(width, height);
            ResizeAction::Reconfigure { config: self.config, camera: self.camera }
        } else {
            ResizeAction::Ignore
        }
    }

    /// Takes a key event. Escape, when pressed, asks to leave the event loop;
    /// every other event is ignored. The state does not change.
    pub fn handle_key(&mut self, key: Key, is_pressed: bool) -> (action: KeyAction)
        ensures
            *final(self) == *old(self),
            action == key_action(key, is_pressed),
    {
        match (key, is_pressed) {
            (Key::Escape, true) => KeyAction::Exit,
            _ => KeyAction::Ignore,
        }
    }

    /// Decides what to do for the next frame: nothing while the surface is
    /// not configured, else one pass that clears to the background and draws
    /// the whole index list once with the active pipeline.
    pub fn render(&self) -> (action: RenderAction)
        ensures
            action == self@.frame(),
    {
        if !self.is_surface_configured {
            return RenderAction::Skip;
        }
        RenderAction::Draw(
            DrawCall {
                clear_color: self.background_color,
                vertex_slot: 0,
                index_format: IndexFormat::Uint16,
                bind_group: 0,
                index_count: self.num_indices,
                base_vertex: 0,
                instance_count: 1,
            },
        )
    }

    /// Advances the scene by one frame. There is nothing to advance yet.
    pub fn update(&mut self)
        ensures
            *final(self) == *old(self),
    {
    }

    /// Completes a reload from `source`, for which the pipeline builder
    /// answered `built`. An empty or white-space-only source is refused with
    /// `EmptySource`, whatever was built. A diagnostic is handed back as
    /// `CompileFailed`. In both cases the state is what it was. A pipeline
    /// that was built replaces the active one, and `source` is recorded as
    /// the current shader.
    pub fn load_shader(&mut self, source: &str, built: Result<P, String>) -> (loaded: Result<
        (),
        ShaderError,
    >)
        ensures
            old(self).wf() ==> final(self).wf(),
            final(self)@ == old(self)@.reloaded(source@, built),
            loaded == reload_result(source@, built),
    {
        if source_is_blank(source) {
            return Err(ShaderError::EmptySource);
        }
        match built {
            Err(diagnostic) => Err(ShaderError::CompileFailed(diagnostic)),
            Ok(pipeline) => {
                self.pipeline = pipeline;
                self.current_shader = source.to_owned();
                Ok(())
            },
        }
    }

    /// Completes a reload from the default shader, for which the pipeline
    /// builder answered `built`.
    pub fn reload_default_shader(&mut self, built: Result<P, String>) -> (loaded: Result<
        (),
        ShaderError,
    >)
        ensures
            old(self).wf() ==> final(self).wf(),
            final(self)@ == old(self)@.reloaded(DEFAULT_SHADER@, built),
            loaded == reload_result(DEFAULT_SHADER@, built),
    {
        self.load_shader(DEFAULT_SHADER, built)
    }

    /// The active pipeline with its uniform buffer and bind group.
    pub fn pipeline(&self) -> (pipeline: &P)
        ensures
            *pipeline == self@.pipeline,
    {
        &self.pipeline
    }

    /// The configuration of the surface.
    pub fn config(&self) -> (config: SurfaceConfig)
        ensures
            config == self@.config,
    {
        self.config
    }

    /// The camera.
    pub fn camera(&self) -> (camera: Camera)
        ensures
            camera == self@.camera,
    {
        self.camera
    }

    /// Whether the surface has been configured by a resize.
    pub fn is_surface_configured(&self) -> (ready: bool)
        ensures
            ready == self@.surface_ready,
    {
        self.is_surface_configured
    }

    /// The colour each frame is cleared to.
    pub fn background_color(&self) -> (color: Color)
        ensures
            color == self@.background_color,
    {
        self.background_color
    }

    /// Number of indices of one draw.
    pub fn num_indices(&self) -> (count: u32)
        ensures
            count == self@.num_indices,
    {
        self.num_indices
    }

    /// The source of the active pipeline's shader.
    pub fn current_shader(&self) -> (source: &str)
        ensures
            source@ == self@.current_shader,
    {
        self.current_shader.as_str()
    }
}

/// Every operation keeps a well-formed state well formed, and a new session
/// starts in one.
pub proof fn lemma_wf_is_invariant<P>(
    state: StateModel<P>,
    config: SurfaceConfig,
    pipeline: P,
    width: u32,
    height: u32,
    source: Seq<char>,
    built: Result<P, String>,
)
    requires
        state.wf(),
    ensures
        StateModel::initial(config, pipeline).wf(),
        state.resized(width, height).wf(),
        state.reloaded(source, built).wf(),
{
}

/// After a resize to a size with both dimensions positive, the surface is
/// configured at exactly that size, which is valid, and the next frame is
/// drawn, not skipped: it covers the whole index list with the pipeline that
/// was active before the resize.
pub proof fn lemma_resize_then_render<P>(state: StateModel<P>, width: u32, height: u32)
    requires
        state.wf(),
        width > 0,
        height > 0,
    ensures
        state.resized(width, height).surface_ready,
        state.resized(width, height).config == (SurfaceConfig { width, height }),
        state.resized(width, height).config.is_valid(),
        state.resized(width, height).camera.aspect.is_proper(),
        state.resized(width, height).pipeline == state.pipeline,
        state.resized(width, height).frame() == RenderAction::Draw(
            DrawCall {
                clear_color: state.background_color,
                vertex_slot: 0,
                index_format: IndexFormat::Uint16,
                bind_group: 0,
                index_count: 6,
                base_vertex: 0,
                instance_count: 1,
            },
        ),
{
}

/// A resize with a dimension of zero changes nothing: not the configuration,
/// not whether the surface counts as configured, nor anything else, and it
/// asks the caller for nothing.
pub proof fn lemma_resize_to_zero_is_ignored<P>(state: StateModel<P>, width: u32, height: u32)
    requires
        width == 0 || height == 0,
    ensures
        state.resized(width, height) == state,
        state.resize_action(width, height) is Ignore,
{
}

/// Resizing twice to the same size leaves the state that one resize leaves,
/// and asks the caller for the same both times.
pub proof fn lemma_resize_is_idempotent<P>(state: StateModel<P>, width: u32, height: u32)
    ensures
        state.resized(width, height).resized(width, height) == state.resized(width, height),
        state.resized(width, height).resize_action(width, height) == state.resize_action(
            width,
            height,
        ),
{
}

/// A reload from an empty or white-space-only source returns `EmptySource`
/// and leaves the state, and with it the active pipeline and its source, as
/// it was, whatever the pipeline builder answered.
pub proof fn lemma_blank_source_is_refused<P>(
    state: StateModel<P>,
    source: Seq<char>,
    built: Result<P, String>,
)
    requires
        is_blank(source),
    ensures
        reload_result(source, built) == Err::<(), ShaderError>(ShaderError::EmptySource),
        state.reloaded(source, built) == state,
{
}

/// A reload whose source did not compile returns `CompileFailed` with the
/// diagnostic and leaves the state as it was, so the next frame is drawn
/// exactly as it would have been without the reload, with the previous
/// pipeline.
pub proof fn lemma_failed_reload_keeps_rendering<P>(
    state: StateModel<P>,
    source: Seq<char>,
    diagnostic: String,
)
    requires
        !is_blank(source),
    ensures
        reload_result::<P>(source, Err(diagnostic)) == Err::<(), ShaderError>(
            ShaderError::CompileFailed(diagnostic),
        ),
        state.reloaded(source, Err(diagnostic)) == state,
        state.reloaded(source, Err(diagnostic)).frame() == state.frame(),
{
}

/// A reload whose source compiled succeeds, makes the new pipeline the active
/// one, records exactly the text that was passed in as the current shader,
/// and changes nothing else.
pub proof fn lemma_reload_records_source<P>(state: StateModel<P>, source: Seq<char>, pipeline: P)
    requires
        !is_blank(source),
    ensures
        reload_result(source, Ok::<P, String>(pipeline)) == Ok::<(), ShaderError>(()),
        state.reloaded(source, Ok(pipeline)).current_shader == source,
        state.reloaded(source, Ok(pipeline)).pipeline == pipeline,
        state.reloaded(source, Ok(pipeline)) == (StateModel {
            pipeline,
            current_shader: source,
            ..state
        }),
{
}

/// A new session runs the default shader, and so does any session after a
/// reload of the default shader that compiled, whichever shader was loaded
/// before.
pub proof fn lemma_default_shader_is_restored<P>(
    state: StateModel<P>,
    config: SurfaceConfig,
    first: P,
    rebuilt: P,
)
    ensures
        StateModel::initial(config, first).current_shader == DEFAULT_SHADER@,
        reload_result(DEFAULT_SHADER@, Ok::<P, String>(rebuilt)) == Ok::<(), ShaderError>(()),
        state.reloaded(DEFAULT_SHADER@, Ok(rebuilt)).current_shader == DEFAULT_SHADER@,
        state.reloaded(DEFAULT_SHADER@, Ok(rebuilt)).pipeline == rebuilt,
{
    lemma_default_shader_not_blank();
}

} // verus!
