use vstd::prelude::*;
use crate::geometry::{Material, Vertex, vertex_count};
use crate::pipeline::{PipelineDesc, pipeline_spec};
use crate::surface::{SurfaceConfig, SurfaceSetupError, is_preferred_format};

verus! {

#[verifier::external_type_specification]
pub struct ExSurfaceError(wgpu::SurfaceError);

/// A window notification, as far as the renderer cares.
#[derive(Clone, Copy, Debug, PartialEq, Eq, Structural)]
pub enum WindowInput {
    /// The window's drawable area changed to this size in pixels.
    Resized { width: u32, height: u32 },
    /// The pointer moved inside the window.
    PointerMoved,
    CloseRequested,
    RedrawRequested,
    Other,
}

/// What came of asking the surface for the next presentable image.
#[derive(Clone, Copy, Debug, PartialEq, Eq, Structural)]
pub enum AcquireOutcome {
    Acquired,
    Timeout,
    Outdated,
    Lost,
    OutOfMemory,
    Other,
}

/// What a render pass does with its color attachment first.
#[derive(Clone, Copy, Debug, PartialEq, Eq, Structural)]
pub enum LoadAction {
    /// Clear to the current clear color.
    ClearToClearColor,
    /// Keep the previous contents.
    Keep,
}

/// What a render pass does with what it drew.
#[derive(Clone, Copy, Debug, PartialEq, Eq, Structural)]
pub enum StoreAction {
    Store,
    Discard,
}

/// The pass that draws a frame: one color attachment, cleared to the clear
/// color and stored; no resolve target, no depth or stencil attachment.
pub open spec fn frame_pass() -> FrameCommand {
    FrameCommand::BeginPass {
        color_attachments: 1,
        load: LoadAction::ClearToClearColor,
        store: StoreAction::Store,
        resolve_target: false,
        depth_stencil: false,
    }
}

/// One thing for the window loop to do, in the order given.
#[derive(Clone, Copy, Debug)]
pub enum FrameCommand {
    /// Apply this configuration to the surface.
    Configure(SurfaceConfig),
    /// Ask the window for the next redraw notification.
    RequestRedraw,
    /// Ask the surface for the next presentable image and report the outcome.
    AcquireFrame,
    /// Begin the render pass with `color_attachments` color attachments, each
    /// a full view of the acquired image.
    BeginPass {
        color_attachments: u32,
        load: LoadAction,
        store: StoreAction,
        resolve_target: bool,
        depth_stencil: bool,
    },
    SetPipeline,
    /// Bind the material buffer's group at this index.
    SetMaterialBindGroup { index: u32 },
    /// Bind the vertex buffer at this slot.
    SetVertexBuffer { slot: u32 },
    /// Draw vertices `0..vertices`, instances `0..instances`, without indices.
    Draw { vertices: u32, instances: u32 },
    EndPass,
    /// Submit the recorded commands to the queue.
    Submit,
    /// Present the acquired image.
    Present,
    /// Set the clear color's red to the pointer's x divided by `width` and its
    /// green to the pointer's y divided by `height`; blue and alpha stay.
    SetClearColorFromPointer { width: u32, height: u32 },
    /// Acquisition timed out: warn and try again on the next frame.
    WarnTimeout,
    /// The surface failed for good: report it and stop the loop.
    Fatal,
    /// Stop the loop.
    Exit,
}

/// Why the renderer could not be set up.
#[derive(Clone, Copy, Debug, PartialEq, Eq, Structural)]
pub enum SetupError {
    Surface(SurfaceSetupError),
    /// More vertices than one draw call can cover.
    TooManyVertices,
}

pub open spec fn outcome_of_error(e: wgpu::SurfaceError) -> AcquireOutcome {
    match e {
        wgpu::SurfaceError::Timeout => AcquireOutcome::Timeout,
        wgpu::SurfaceError::Outdated => AcquireOutcome::Outdated,
        wgpu::SurfaceError::Lost => AcquireOutcome::Lost,
        wgpu::SurfaceError::OutOfMemory => AcquireOutcome::OutOfMemory,
        wgpu::SurfaceError::Other => AcquireOutcome::Other,
    }
}

/// The outcome that a failed acquisition stands for.
pub fn classify_surface_error(e: &wgpu::SurfaceError) -> (r: AcquireOutcome)
    ensures
        r == outcome_of_error(*e),
{
    match e {
        wgpu::SurfaceError::Timeout => AcquireOutcome::Timeout,
        wgpu::SurfaceError::Outdated => AcquireOutcome::Outdated,
        wgpu::SurfaceError::Lost => AcquireOutcome::Lost,
        wgpu::SurfaceError::OutOfMemory => AcquireOutcome::OutOfMemory,
        wgpu::SurfaceError::Other => AcquireOutcome::Other,
    }
}

/// The renderer once the window exists: the surface configuration, the
/// pipeline built for its format, and the number of vertices to draw.
pub struct State {
    config: SurfaceConfig,
    pipeline: PipelineDesc,
    num_vertices: u32,
}

impl State {
    #[verifier::type_invariant]
    spec fn inv(&self) -> bool {
        self.wf()
    }

    /// The surface has a nonzero size and the pipeline draws in its format.
    pub closed spec fn wf(&self) -> bool {
        self.config.wf() && self.pipeline.color_format == self.config.spec_format()
    }

    pub closed spec fn spec_config(&self) -> SurfaceConfig {
        self.config
    }

    pub closed spec fn spec_pipeline(&self) -> PipelineDesc {
        self.pipeline
    }

    pub closed spec fn spec_num_vertices(&self) -> u32 {
        self.num_vertices
    }

    /// The same state after the surface was resized to a nonzero size.
    pub closed spec fn with_config(&self, config: SurfaceConfig) -> State {
        State { config, ..*self }
    }

    /// What `wf` amounts to, and that a new configuration of the same format
    /// and nonzero size keeps it.
    pub proof fn lemma_wf(&self, config: SurfaceConfig)
        ensures
            self.wf() == (self.spec_config().wf() && self.spec_pipeline().color_format
                == self.spec_config().spec_format()),
            self.with_config(config).spec_config() == config,
            self.with_config(config).spec_pipeline() == self.spec_pipeline(),
            self.with_config(config).spec_num_vertices() == self.spec_num_vertices(),
            self.wf() && config.wf() && config.spec_format() == self.spec_config().spec_format()
                ==> self.with_config(config).wf(),
    {
    }

    /// Sets up the renderer for a window of the given size, from what the
    /// surface reports and the ingested scene.
    pub fn new(
        width: u32,
        height: u32,
        formats: &Vec<wgpu::TextureFormat>,
        present_modes: &Vec<wgpu::PresentMode>,
        alpha_modes: &Vec<wgpu::CompositeAlphaMode>,
        vertices: &Vec<Vertex>,
        materials: &Vec<Material>,
    ) -> (r: Result<State, SetupError>)
        ensures
            (r == Err::<State, _>(SetupError::Surface(SurfaceSetupError::ZeroSize))) == (width == 0
                || height == 0),
            (r == Err::<State, _>(SetupError::Surface(SurfaceSetupError::NoFormat))) == (width > 0
                && height > 0 && formats@.len() == 0),
            (r == Err::<State, _>(SetupError::Surface(SurfaceSetupError::NoPresentMode))) == (width
                > 0 && height > 0 && formats@.len() > 0 && present_modes@.len() == 0),
            (r == Err::<State, _>(SetupError::Surface(SurfaceSetupError::NoAlphaMode))) == (width
                > 0 && height > 0 && formats@.len() > 0 && present_modes@.len() > 0
                && alpha_modes@.len() == 0),
            (r == Err::<State, _>(SetupError::TooManyVertices)) == (width > 0 && height > 0
                && formats@.len() > 0 && present_modes@.len() > 0 && alpha_modes@.len() > 0
                && vertices@.len() > u32::MAX),
            r matches Ok(s) ==> {
                &&& s.wf()
                &&& s.spec_config().spec_width() == width
                &&& s.spec_config().spec_height() == height
                &&& is_preferred_format(formats@, s.spec_config().spec_format())
                &&& s.spec_config().spec_present_mode() == present_modes@[0]
                &&& s.spec_config().spec_alpha_mode() == alpha_modes@[0]
                &&& s.spec_pipeline() == pipeline_spec(s.spec_config().spec_format(), materials@.len() > 0)
                &&& s.spec_num_vertices() == vertices@.len()
            },
    {
        let config = match SurfaceConfig::new(width, height, formats, present_modes, alpha_modes) {
            Ok(c) => c,
            Err(e) => {
                return Err(SetupError::Surface(e));
            },
        };
        let num_vertices = match vertex_count(vertices) {
            Some(n) => n,
            None => {
                return Err(SetupError::TooManyVertices);
            },
        };
        let pipeline = PipelineDesc::new(config.format(), materials.len() > 0);
        Ok(State { config, pipeline, num_vertices })
    }

    pub fn config(&self) -> (r: SurfaceConfig)
        ensures
            r == self.spec_config(),
    {
        self.config
    }

    pub fn pipeline(&self) -> (r: PipelineDesc)
        ensures
            r == self.spec_pipeline(),
    {
        self.pipeline
    }

    pub fn num_vertices(&self) -> (r: u32)
        ensures
            r == self.spec_num_vertices(),
    {
        self.num_vertices
    }

    /// Handles a window size change: a size with a zero dimension changes
    /// nothing; another one is stored and the surface reconfigured.
    pub fn resize(&mut self, width: u32, height: u32) -> (r: Vec<FrameCommand>)
        ensures
            (*final(self), r@) == resize_response(*old(self), width, height),
    {
        proof {
            use_type_invariant(&*self);
        }
        let mut config = self.config;
        if config.resize(width, height) {
            self.config = config;
            vec![FrameCommand::Configure(config)]
        } else {
            Vec::new()
        }
    }

    /// Input handling: a pointer move is consumed and sets the clear color from
    /// the pointer's position over the surface size; other events are not.
    pub fn input(&self, event: &WindowInput) -> (r: Option<FrameCommand>)
        ensures
            r == input_response(*self, *event),
    {
        match event {
            WindowInput::PointerMoved => Some(
                FrameCommand::SetClearColorFromPointer {
                    width: self.config.width(),
                    height: self.config.height(),
                },
            ),
            _ => None,
        }
    }

    /// The commands that record, submit and present one frame.
    pub fn render(&self) -> (r: Vec<FrameCommand>)
        ensures
            r@ == draw_commands(*self),
    {
        let pass = FrameCommand::BeginPass {
            color_attachments: 1,
            load: LoadAction::ClearToClearColor,
            store: StoreAction::Store,
            resolve_target: false,
            depth_stencil: false,
        };
        let mut cmds: Vec<FrameCommand> = vec![pass, FrameCommand::SetPipeline];
        if self.pipeline.material_binding.is_some() {
            cmds.push(FrameCommand::SetMaterialBindGroup { index: 0 });
        }
        cmds.push(FrameCommand::SetVertexBuffer { slot: 0 });
        cmds.push(FrameCommand::Draw { vertices: self.num_vertices, instances: 1 });
        cmds.push(FrameCommand::EndPass);
        cmds.push(FrameCommand::Submit);
        cmds.push(FrameCommand::Present);
        assert(cmds@ =~= draw_commands(*self));
        cmds
    }

    /// What to do once the surface answered the request for the next image.
    pub fn frame_outcome(&mut self, outcome: AcquireOutcome) -> (r: Vec<FrameCommand>)
        ensures
            (*final(self), r@) == frame_response(*old(self), outcome),
    {
        proof {
            use_type_invariant(&*self);
        }
        match outcome {
            AcquireOutcome::Acquired => self.render(),
            AcquireOutcome::Lost | AcquireOutcome::Outdated => {
                let w = self.config.width();
                let h = self.config.height();
                proof {
                    self.config.lemma_resized(w, h);
                }
                self.resize(w, h)
            },
            AcquireOutcome::Timeout => vec![FrameCommand::WarnTimeout],
            AcquireOutcome::OutOfMemory | AcquireOutcome::Other => vec![FrameCommand::Fatal],
        }
    }
}

/// Resizing: a zero dimension is ignored; otherwise the size is stored and
/// the surface configured once with it.
pub open spec fn resize_response(s: State, width: u32, height: u32) -> (State, Seq<FrameCommand>) {
    if width > 0 && height > 0 {
        let c = s.spec_config().resized(width, height);
        (s.with_config(c), seq![FrameCommand::Configure(c)])
    } else {
        (s, Seq::empty())
    }
}

pub open spec fn input_response(s: State, event: WindowInput) -> Option<FrameCommand> {
    match event {
        WindowInput::PointerMoved => Some(
            FrameCommand::SetClearColorFromPointer {
                width: s.spec_config().spec_width(),
                height: s.spec_config().spec_height(),
            },
        ),
        _ => None,
    }
}

/// One render pass, one draw over every vertex, one submission, one present.
pub open spec fn draw_commands(s: State) -> Seq<FrameCommand> {
    seq![frame_pass(), FrameCommand::SetPipeline] + (if s.spec_pipeline().material_binding
        is Some {
        seq![FrameCommand::SetMaterialBindGroup { index: 0 }]
    } else {
        Seq::empty()
    }) + seq![
        FrameCommand::SetVertexBuffer { slot: 0 },
        FrameCommand::Draw { vertices: s.spec_num_vertices(), instances: 1 },
        FrameCommand::EndPass,
        FrameCommand::Submit,
        FrameCommand::Present,
    ]
}

/// After an acquisition: draw; reconfigure at the current size when the
/// surface was lost or outdated; warn on a timeout; stop on anything else.
pub open spec fn frame_response(s: State, outcome: AcquireOutcome) -> (State, Seq<FrameCommand>) {
    match outcome {
        AcquireOutcome::Acquired => (s, draw_commands(s)),
        AcquireOutcome::Lost | AcquireOutcome::Outdated => resize_response(
            s,
            s.spec_config().spec_width(),
            s.spec_config().spec_height(),
        ),
        AcquireOutcome::Timeout => (s, seq![FrameCommand::WarnTimeout]),
        AcquireOutcome::OutOfMemory | AcquireOutcome::Other => (s, seq![FrameCommand::Fatal]),
    }
}

/// The application's renderer: uninitialized until the window exists, then
/// ready. Before that, events are ignored (a close request still stops).
pub struct RayTracer {
    state: Option<State>,
}

impl Default for RayTracer {
    fn default() -> (r: RayTracer)
        ensures
            r.spec_state() is None,
    {
        RayTracer::new()
    }
}

/// The response of the renderer to a window notification.
pub open spec fn event_response(st: Option<State>, event: WindowInput) -> (Option<State>, Seq<FrameCommand>) {
    match st {
        None => (None, if event == WindowInput::CloseRequested {
            seq![FrameCommand::Exit]
        } else {
            Seq::empty()
        }),
        Some(s) => match input_response(s, event) {
            Some(c) => (st, seq![c]),
            None => match event {
                WindowInput::CloseRequested => (st, seq![FrameCommand::Exit]),
                WindowInput::RedrawRequested => (st, seq![FrameCommand::RequestRedraw, FrameCommand::AcquireFrame]),
                WindowInput::Resized { width, height } => {
                    let (t, cmds) = resize_response(s, width, height);
                    (Some(t), cmds)
                },
                _ => (st, Seq::empty()),
            },
        },
    }
}

/// The response of the renderer to the outcome of a frame acquisition.
pub open spec fn acquire_response(st: Option<State>, outcome: AcquireOutcome) -> (Option<State>, Seq<FrameCommand>) {
    match st {
        None => (None, Seq::empty()),
        Some(s) => {
            let (t, cmds) = frame_response(s, outcome);
            (Some(t), cmds)
        },
    }
}

impl RayTracer {
    pub closed spec fn spec_state(&self) -> Option<State> {
        self.state
    }

    /// A renderer that waits for its window.
    pub fn new() -> (r: RayTracer)
        ensures
            r.spec_state() is None,
    {
        RayTracer { state: None }
    }

    /// The window exists: an uninitialized renderer becomes ready with this
    /// state, and the surface is configured once. A ready renderer is created
    /// once only: it keeps its state and does nothing.
    pub fn resumed(&mut self, state: State) -> (r: Vec<FrameCommand>)
        ensures
            old(self).spec_state() is Some ==> final(self).spec_state() == old(self).spec_state()
                && r@.len() == 0,
            old(self).spec_state() is None ==> final(self).spec_state() == Some(state)
                && r@ == seq![FrameCommand::Configure(state.spec_config())],
    {
        if self.state.is_some() {
            return Vec::new();
        }
        let config = state.config();
        self.state = Some(state);
        vec![FrameCommand::Configure(config)]
    }

    /// Whether the window exists yet.
    pub fn is_ready(&self) -> (r: bool)
        ensures
            r == self.spec_state() is Some,
    {
        self.state.is_some()
    }

    /// The ready state, if any.
    pub fn get_state(&self) -> (r: Option<&State>)
        ensures
            r is None == self.spec_state() is None,
            r matches Some(s) ==> self.spec_state() == Some(*s),
    {
        self.state.as_ref()
    }

    /// Handles one window notification and says what the loop does next.
    pub fn window_event(&mut self, event: WindowInput) -> (r: Vec<FrameCommand>)
        ensures
            (final(self).spec_state(), r@) == event_response(old(self).spec_state(), event),
    {
        match &mut self.state {
            None => {
                if event == WindowInput::CloseRequested {
                    vec![FrameCommand::Exit]
                } else {
                    Vec::new()
                }
            },
            Some(state) => {
                match state.input(&event) {
                    Some(c) => vec![c],
                    None => match event {
                        WindowInput::CloseRequested => vec![FrameCommand::Exit],
                        WindowInput::RedrawRequested => vec![
                            FrameCommand::RequestRedraw,
                            FrameCommand::AcquireFrame,
                        ],
                        WindowInput::Resized { width, height } => state.resize(width, height),
                        _ => Vec::new(),
                    },
                }
            },
        }
    }

    /// Handles the outcome of the frame acquisition that `AcquireFrame` asked for.
    pub fn frame_acquired(&mut self, outcome: AcquireOutcome) -> (r: Vec<FrameCommand>)
        ensures
            (final(self).spec_state(), r@) == acquire_response(old(self).spec_state(), outcome),
    {
        match &mut self.state {
            None => Vec::new(),
            Some(state) => state.frame_outcome(outcome),
        }
    }
}

/// How many of the commands satisfy `p`.
pub open spec fn count_where(cs: Seq<FrameCommand>, p: spec_fn(FrameCommand) -> bool) -> nat
    decreases cs.len(),
{
    if cs.len() == 0 {
        0
    } else {
        count_where(cs.drop_last(), p) + if p(cs.last()) {
            1nat
        } else {
            0nat
        }
    }
}

pub open spec fn is_configure(c: FrameCommand) -> bool {
    c is Configure
}

pub open spec fn is_begin_pass(c: FrameCommand) -> bool {
    c is BeginPass
}

pub open spec fn is_draw(c: FrameCommand) -> bool {
    c is Draw
}

pub open spec fn is_submit(c: FrameCommand) -> bool {
    c is Submit
}

pub open spec fn is_present(c: FrameCommand) -> bool {
    c is Present
}

pub open spec fn is_fatal(c: FrameCommand) -> bool {
    c is Fatal
}

proof fn lemma_count_concat(a: Seq<FrameCommand>, b: Seq<FrameCommand>, p: spec_fn(FrameCommand) -> bool)
    ensures
        count_where(a + b, p) == count_where(a, p) + count_where(b, p),
    decreases b.len(),
{
    if b.len() == 0 {
        assert(a + b =~= a);
    } else {
        assert((a + b).drop_last() =~= a + b.drop_last());
        lemma_count_concat(a, b.drop_last(), p);
    }
}

proof fn lemma_count_single(c: FrameCommand, p: spec_fn(FrameCommand) -> bool)
    ensures
        count_where(seq![c], p) == if p(c) {
            1nat
        } else {
            0nat
        },
{
    assert(count_where(Seq::<FrameCommand>::empty(), p) == 0);
    assert(seq![c].drop_last() =~= Seq::<FrameCommand>::empty());
    assert(seq![c].last() == c);
}

proof fn lemma_count_draw_commands(s: State, p: spec_fn(FrameCommand) -> bool)
    ensures
        count_where(draw_commands(s), p) == (if p(frame_pass()) { 1nat } else { 0nat })
            + (if p(FrameCommand::SetPipeline) { 1nat } else { 0nat })
            + (if s.spec_pipeline().material_binding is Some && p(FrameCommand::SetMaterialBindGroup { index: 0 }) { 1nat } else { 0nat })
            + (if p(FrameCommand::SetVertexBuffer { slot: 0 }) { 1nat } else { 0nat })
            + (if p(FrameCommand::Draw { vertices: s.spec_num_vertices(), instances: 1 }) { 1nat } else { 0nat })
            + (if p(FrameCommand::EndPass) { 1nat } else { 0nat })
            + (if p(FrameCommand::Submit) { 1nat } else { 0nat })
            + (if p(FrameCommand::Present) { 1nat } else { 0nat }),
{
    let c0 = frame_pass();
    let c1 = FrameCommand::SetPipeline;
    let c2 = FrameCommand::SetMaterialBindGroup { index: 0 };
    let c3 = FrameCommand::SetVertexBuffer { slot: 0 };
    let c4 = FrameCommand::Draw { vertices: s.spec_num_vertices(), instances: 1 };
    let c5 = FrameCommand::EndPass;
    let c6 = FrameCommand::Submit;
    let c7 = FrameCommand::Present;
    let bind: Seq<FrameCommand> = if s.spec_pipeline().material_binding is Some {
        seq![c2]
    } else {
        Seq::empty()
    };
    assert(seq![c0, c1] =~= seq![c0] + seq![c1]);
    assert(seq![c3, c4, c5, c6, c7] =~= seq![c3] + seq![c4] + seq![c5] + seq![c6] + seq![c7]);
    assert(draw_commands(s) =~= seq![c0] + seq![c1] + bind + seq![c3] + seq![c4] + seq![c5] + seq![c6] + seq![c7]);
    lemma_count_single(c0, p);
    lemma_count_single(c1, p);
    lemma_count_single(c2, p);
    lemma_count_single(c3, p);
    lemma_count_single(c4, p);
    lemma_count_single(c5, p);
    lemma_count_single(c6, p);
    lemma_count_single(c7, p);
    assert(count_where(Seq::<FrameCommand>::empty(), p) == 0);
    lemma_count_concat(seq![c0], seq![c1], p);
    lemma_count_concat(seq![c0] + seq![c1], bind, p);
    lemma_count_concat(seq![c0] + seq![c1] + bind, seq![c3], p);
    lemma_count_concat(seq![c0] + seq![c1] + bind + seq![c3], seq![c4], p);
    lemma_count_concat(seq![c0] + seq![c1] + bind + seq![c3] + seq![c4], seq![c5], p);
    lemma_count_concat(seq![c0] + seq![c1] + bind + seq![c3] + seq![c4] + seq![c5], seq![c6], p);
    lemma_count_concat(seq![c0] + seq![c1] + bind + seq![c3] + seq![c4] + seq![c5] + seq![c6], seq![c7], p);
}

/// A resize to a size with no zero dimension stores exactly that size, keeps
/// format, presentation mode and alpha mode, and configures the surface exactly
/// once, with the new configuration.
pub proof fn lemma_accepted_resize(s: State, width: u32, height: u32)
    requires
        width > 0,
        height > 0,
    ensures
        ({
            let (st, cmds) = event_response(Some(s), WindowInput::Resized { width, height });
            &&& st matches Some(t) && {
                &&& t.spec_config().spec_width() == width
                &&& t.spec_config().spec_height() == height
                &&& t.spec_config().spec_format() == s.spec_config().spec_format()
                &&& t.spec_config().spec_present_mode() == s.spec_config().spec_present_mode()
                &&& t.spec_config().spec_alpha_mode() == s.spec_config().spec_alpha_mode()
                &&& cmds == seq![FrameCommand::Configure(t.spec_config())]
            }
            &&& count_where(cmds, |c: FrameCommand| is_configure(c)) == 1
        }),
{
    let c = s.spec_config().resized(width, height);
    s.spec_config().lemma_resized(width, height);
    s.lemma_wf(c);
    lemma_count_single(FrameCommand::Configure(c), |c: FrameCommand| is_configure(c));
}

/// A resize with a zero width or height changes nothing and configures nothing.
pub proof fn lemma_ignored_resize(s: State, width: u32, height: u32)
    requires
        width == 0 || height == 0,
    ensures
        event_response(Some(s), WindowInput::Resized { width, height }) == (Some(s), Seq::<FrameCommand>::empty()),
{
}

/// An acquired image is drawn with exactly one render pass, one draw call over
/// every vertex, one submission and one present, and no reconfiguration.
pub proof fn lemma_acquired_frame(s: State)
    ensures
        ({
            let (st, cmds) = acquire_response(Some(s), AcquireOutcome::Acquired);
            &&& st == Some(s)
            &&& count_where(cmds, |c: FrameCommand| is_begin_pass(c)) == 1
            &&& count_where(cmds, |c: FrameCommand| is_draw(c)) == 1
            &&& count_where(cmds, |c: FrameCommand| is_submit(c)) == 1
            &&& count_where(cmds, |c: FrameCommand| is_present(c)) == 1
            &&& count_where(cmds, |c: FrameCommand| is_configure(c)) == 0
            &&& cmds.contains(FrameCommand::Draw { vertices: s.spec_num_vertices(), instances: 1 })
            &&& cmds[0] == frame_pass()
        }),
{
    lemma_count_draw_commands(s, |c: FrameCommand| is_begin_pass(c));
    lemma_count_draw_commands(s, |c: FrameCommand| is_draw(c));
    lemma_count_draw_commands(s, |c: FrameCommand| is_submit(c));
    lemma_count_draw_commands(s, |c: FrameCommand| is_present(c));
    lemma_count_draw_commands(s, |c: FrameCommand| is_configure(c));
    let cmds = draw_commands(s);
    let k: int = if s.spec_pipeline().material_binding is Some { 4 } else { 3 };
    assert(cmds[k] == FrameCommand::Draw { vertices: s.spec_num_vertices(), instances: 1 });
}

/// A lost or outdated surface is reconfigured exactly once, at its current
/// size, and nothing is drawn or submitted in that iteration.
pub proof fn lemma_lost_surface(s: State, outcome: AcquireOutcome)
    requires
        s.wf(),
        outcome == AcquireOutcome::Lost || outcome == AcquireOutcome::Outdated,
    ensures
        ({
            let (st, cmds) = acquire_response(Some(s), outcome);
            &&& st == Some(s)
            &&& cmds == seq![FrameCommand::Configure(s.spec_config())]
            &&& count_where(cmds, |c: FrameCommand| is_configure(c)) == 1
            &&& count_where(cmds, |c: FrameCommand| is_draw(c)) == 0
            &&& count_where(cmds, |c: FrameCommand| is_submit(c)) == 0
        }),
{
    let c = s.spec_config();
    c.lemma_resized(c.spec_width(), c.spec_height());
    s.lemma_wf(c);
    assert(s.with_config(c) == s);
    lemma_count_single(FrameCommand::Configure(c), |c: FrameCommand| is_configure(c));
    lemma_count_single(FrameCommand::Configure(c), |c: FrameCommand| is_draw(c));
    lemma_count_single(FrameCommand::Configure(c), |c: FrameCommand| is_submit(c));
}

/// Running out of memory, or any other hard failure of the surface, draws and
/// submits nothing, reconfigures nothing, and signals a fatal stop.
pub proof fn lemma_fatal_surface(s: State, outcome: AcquireOutcome)
    requires
        outcome == AcquireOutcome::OutOfMemory || outcome == AcquireOutcome::Other,
    ensures
        ({
            let (st, cmds) = acquire_response(Some(s), outcome);
            &&& st == Some(s)
            &&& count_where(cmds, |c: FrameCommand| is_draw(c)) == 0
            &&& count_where(cmds, |c: FrameCommand| is_submit(c)) == 0
            &&& count_where(cmds, |c: FrameCommand| is_configure(c)) == 0
            &&& count_where(cmds, |c: FrameCommand| is_fatal(c)) == 1
        }),
{
    lemma_count_single(FrameCommand::Fatal, |c: FrameCommand| is_draw(c));
    lemma_count_single(FrameCommand::Fatal, |c: FrameCommand| is_submit(c));
    lemma_count_single(FrameCommand::Fatal, |c: FrameCommand| is_configure(c));
    lemma_count_single(FrameCommand::Fatal, |c: FrameCommand| is_fatal(c));
}

/// The pipeline's color format and the surface's format are one and the same
/// value in every ready state, and stay so through every window notification
/// and every acquisition outcome: acquiring a frame never meets a format that
/// differs from the pipeline's.
pub proof fn lemma_formats_stay_shared(s: State, event: WindowInput, outcome: AcquireOutcome)
    requires
        s.wf(),
    ensures
        s.spec_pipeline().color_format == s.spec_config().spec_format(),
        event_response(Some(s), event).0 matches Some(t) ==> t.wf() && t.spec_pipeline() == s.spec_pipeline()
            && t.spec_config().spec_format() == s.spec_config().spec_format(),
        acquire_response(Some(s), outcome).0 matches Some(t) ==> t.wf() && t.spec_pipeline() == s.spec_pipeline()
            && t.spec_config().spec_format() == s.spec_config().spec_format(),
{
    s.lemma_wf(s.spec_config());
    if let WindowInput::Resized { width, height } = event {
        let c = s.spec_config().resized(width, height);
        s.spec_config().lemma_resized(width, height);
        s.lemma_wf(c);
    }
    let c = s.spec_config();
    c.lemma_resized(c.spec_width(), c.spec_height());
    assert(s.with_config(c) == s);
}

} // verus!
