//! The device context: what the presentation surface is configured with, and
//! the start-up sequence that leads to it.
//!
//! Start-up talks to the graphics backend three times (adapter, logical
//! device, preferred surface format).  The host makes those requests; this
//! module decides what is requested next and what each answer means.

use crate::error::InitError;
use vstd::prelude::*;

verus! {

/// Texture formats a surface may report as preferred for presentation.
#[derive(Clone, Copy, Debug, PartialEq, Eq, Structural)]
pub enum SurfaceFormat {
    Bgra8UnormSrgb,
    Rgba8UnormSrgb,
    Bgra8Unorm,
    Rgba8Unorm,
}

/// How finished frames are handed to the display.
#[derive(Clone, Copy, Debug, PartialEq, Eq, Structural)]
pub enum PresentMode {
    /// Present at once, tearing allowed.
    Immediate,
    /// Keep only the newest frame for the next refresh.
    Mailbox,
    /// First in, first out, locked to the display's refresh.
    Fifo,
}

/// What a surface texture is used for.
#[derive(Clone, Copy, Debug, PartialEq, Eq, Structural)]
pub enum TextureUsage {
    CopySrc,
    CopyDst,
    TextureBinding,
    StorageBinding,
    RenderAttachment,
}

/// Which adapter is preferred when several qualify.
#[derive(Clone, Copy, Debug, PartialEq, Eq, Structural)]
pub enum PowerPreference {
    LowPower,
    HighPerformance,
}

/// The resource limits asked of a logical device.
#[derive(Clone, Copy, Debug, PartialEq, Eq, Structural)]
pub enum LimitsProfile {
    /// The backend's default limits.
    Default,
    /// The reduced limits that a WebGL2-class runtime can honour.
    DownlevelWebGl2,
}

/// A window's drawable size in physical pixels.
#[derive(Clone, Copy, Debug, PartialEq, Eq, Structural)]
pub struct PhysicalSize {
    pub width: u32,
    pub height: u32,
}

impl PhysicalSize {
    /// A size that a surface can be configured with: at least one pixel
    /// each way.
    pub open spec fn presentable(self) -> bool {
        self.width >= 1 && self.height >= 1
    }
}

/// What is asked of the backend when an adapter is selected.
#[derive(Clone, Copy, Debug, PartialEq, Eq, Structural)]
pub struct AdapterRequest {
    pub power_preference: PowerPreference,
    /// The adapter must be able to present to the window's surface.
    pub compatible_with_surface: bool,
    pub force_fallback_adapter: bool,
}

/// What is asked of the adapter when the logical device is opened.
#[derive(Clone, Copy, Debug, PartialEq, Eq, Structural)]
pub struct DeviceRequest {
    /// Bit set of optional features; zero asks for none.
    pub features: u64,
    pub limits: LimitsProfile,
}

/// What the surface is configured with.
#[derive(Clone, Copy, Debug, PartialEq, Eq, Structural)]
pub struct SurfaceConfiguration {
    pub usage: TextureUsage,
    pub format: SurfaceFormat,
    pub width: u32,
    pub height: u32,
    pub present_mode: PresentMode,
}

/// The one adapter request this core makes: default power preference, able
/// to present to the surface, no fallback adapter.
pub open spec fn spec_adapter_request() -> AdapterRequest {
    AdapterRequest {
        power_preference: PowerPreference::LowPower,
        compatible_with_surface: true,
        force_fallback_adapter: false,
    }
}

#[verifier::when_used_as_spec(spec_adapter_request)]
pub fn adapter_request() -> (request: AdapterRequest)
    ensures
        request == spec_adapter_request(),
{
    AdapterRequest {
        power_preference: PowerPreference::LowPower,
        compatible_with_surface: true,
        force_fallback_adapter: false,
    }
}

/// Reduced limits on a constrained runtime, default limits elsewhere.
pub open spec fn spec_limits_for(constrained: bool) -> LimitsProfile {
    if constrained {
        LimitsProfile::DownlevelWebGl2
    } else {
        LimitsProfile::Default
    }
}

#[verifier::when_used_as_spec(spec_limits_for)]
pub fn limits_for(constrained: bool) -> (limits: LimitsProfile)
    ensures
        limits == spec_limits_for(constrained),
{
    if constrained {
        LimitsProfile::DownlevelWebGl2
    } else {
        LimitsProfile::Default
    }
}

/// The device request for a runtime: no optional features, limits by
/// [`spec_limits_for`].
pub open spec fn spec_device_request(constrained: bool) -> DeviceRequest {
    DeviceRequest { features: 0, limits: spec_limits_for(constrained) }
}

#[verifier::when_used_as_spec(spec_device_request)]
pub fn device_request(constrained: bool) -> (request: DeviceRequest)
    ensures
        request == spec_device_request(constrained),
{
    DeviceRequest { features: 0, limits: limits_for(constrained) }
}

/// The surface configuration for a window of `size` whose surface prefers
/// `format`: render-attachment usage, the window's size, presentation locked
/// to the display's refresh.
pub open spec fn spec_surface_configuration(
    size: PhysicalSize,
    format: SurfaceFormat,
) -> SurfaceConfiguration {
    SurfaceConfiguration {
        usage: TextureUsage::RenderAttachment,
        format,
        width: size.width,
        height: size.height,
        present_mode: PresentMode::Fifo,
    }
}

#[verifier::when_used_as_spec(spec_surface_configuration)]
pub fn surface_configuration(size: PhysicalSize, format: SurfaceFormat) -> (config:
    SurfaceConfiguration)
    ensures
        config == spec_surface_configuration(size, format),
{
    SurfaceConfiguration {
        usage: TextureUsage::RenderAttachment,
        format,
        width: size.width,
        height: size.height,
        present_mode: PresentMode::Fifo,
    }
}

/// The mathematical content of a [`DeviceContext`].
pub struct DeviceContextModel {
    pub size: PhysicalSize,
    pub format: SurfaceFormat,
    pub limits: LimitsProfile,
}

impl DeviceContextModel {
    /// A context is fully configured or it does not exist: its size is
    /// presentable, and its configuration is derived from size and format.
    pub open spec fn wf(self) -> bool {
        self.size.presentable()
    }

    /// The configuration that the surface was bound to the device with.
    pub open spec fn config(self) -> SurfaceConfiguration {
        spec_surface_configuration(self.size, self.format)
    }
}

/// A surface bound to a logical device.  The backend handles (surface,
/// device, queue) stay with the host; this is what the core knows of them.
///
/// A value of this type exists only once start-up has succeeded, and is
/// never reconfigured.
#[derive(Clone, Copy, Debug, PartialEq, Eq)]
pub struct DeviceContext {
    size: PhysicalSize,
    format: SurfaceFormat,
    limits: LimitsProfile,
}

impl View for DeviceContext {
    type V = DeviceContextModel;

    closed spec fn view(&self) -> DeviceContextModel {
        DeviceContextModel { size: self.size, format: self.format, limits: self.limits }
    }
}

impl DeviceContext {
    #[verifier::type_invariant]
    pub open spec fn inv(self) -> bool {
        self@.wf()
    }

    /// The window size the surface was configured for.
    pub fn size(&self) -> (size: PhysicalSize)
        ensures
            size == self@.size,
            size.presentable(),
    {
        proof {
            use_type_invariant(self);
        }
        self.size
    }

    /// The presentation format.
    pub fn format(&self) -> (format: SurfaceFormat)
        ensures
            format == self@.format,
    {
        self.format
    }

    /// The limits the logical device was opened with.
    pub fn limits(&self) -> (limits: LimitsProfile)
        ensures
            limits == self@.limits,
    {
        self.limits
    }

    /// The configuration the surface was bound to the device with.
    pub fn config(&self) -> (config: SurfaceConfiguration)
        ensures
            config == self@.config(),
            self@.wf(),
    {
        proof {
            use_type_invariant(self);
        }
        surface_configuration(self.size, self.format)
    }
}

/// Where start-up stands.
#[derive(Clone, Copy, Debug, PartialEq, Eq, Structural)]
pub enum InitPhase {
    /// An adapter has been requested.
    AwaitingAdapter,
    /// The logical device has been requested.
    AwaitingDevice,
    /// The surface has been asked for its preferred format.
    AwaitingFormat,
    /// The surface is bound to the device with this format.
    Configured(SurfaceFormat),
    /// Start-up was abandoned.
    Failed(InitError),
}

/// An answer of the graphics backend.
#[derive(Clone, Copy, Debug, PartialEq, Eq, Structural)]
pub enum InitEvent {
    /// The adapter request completed; `true` if an adapter was found.
    Adapter(bool),
    /// The device request completed; `true` if a device was opened.
    Device(bool),
    /// The surface reported its preferred format, if it has one.
    PreferredFormat(Option<SurfaceFormat>),
}

/// What the host has to do next.
#[derive(Clone, Copy, Debug, PartialEq, Eq, Structural)]
pub enum InitAction {
    RequestAdapter(AdapterRequest),
    RequestDevice(DeviceRequest),
    QueryPreferredFormat,
    /// Bind the surface to the device with this configuration; start-up is
    /// complete.
    Configure(SurfaceConfiguration),
    /// Give up; start-up has failed for good.
    Abort(InitError),
    /// The event answers no outstanding request; nothing is to be done.
    Nothing,
}

/// The mathematical content of an [`InitState`].
pub struct InitModel {
    pub size: PhysicalSize,
    pub constrained: bool,
    pub phase: InitPhase,
}

impl InitModel {
    /// Start-up is always for a window that a surface can be configured
    /// for.
    pub open spec fn wf(self) -> bool {
        self.size.presentable()
    }

    /// Start-up begins by requesting an adapter.
    pub open spec fn start(size: PhysicalSize, constrained: bool) -> (InitModel, InitAction) {
        (
            InitModel { size, constrained, phase: InitPhase::AwaitingAdapter },
            InitAction::RequestAdapter(spec_adapter_request()),
        )
    }

    /// The same start-up in another phase.
    pub open spec fn at(self, phase: InitPhase) -> InitModel {
        InitModel { phase, ..self }
    }

    /// One answer of the backend: the state it leads to and what the host
    /// does next.  A missing adapter, device or format ends start-up; an
    /// answer that no request is waiting for changes nothing.
    pub open spec fn step(self, event: InitEvent) -> (InitModel, InitAction) {
        match (self.phase, event) {
            (InitPhase::AwaitingAdapter, InitEvent::Adapter(true)) => (
                self.at(InitPhase::AwaitingDevice),
                InitAction::RequestDevice(spec_device_request(self.constrained)),
            ),
            (InitPhase::AwaitingAdapter, InitEvent::Adapter(false)) => (
                self.at(InitPhase::Failed(InitError::NoAdapter)),
                InitAction::Abort(InitError::NoAdapter),
            ),
            (InitPhase::AwaitingDevice, InitEvent::Device(true)) => (
                self.at(InitPhase::AwaitingFormat),
                InitAction::QueryPreferredFormat,
            ),
            (InitPhase::AwaitingDevice, InitEvent::Device(false)) => (
                self.at(InitPhase::Failed(InitError::NoDevice)),
                InitAction::Abort(InitError::NoDevice),
            ),
            (InitPhase::AwaitingFormat, InitEvent::PreferredFormat(Some(format))) => (
                self.at(InitPhase::Configured(format)),
                InitAction::Configure(spec_surface_configuration(self.size, format)),
            ),
            (InitPhase::AwaitingFormat, InitEvent::PreferredFormat(None)) => (
                self.at(InitPhase::Failed(InitError::NoSurfaceFormat)),
                InitAction::Abort(InitError::NoSurfaceFormat),
            ),
            _ => (self, InitAction::Nothing),
        }
    }

    /// The state after a whole sequence of answers, taken in order.
    pub open spec fn run(self, events: Seq<InitEvent>) -> InitModel
        decreases events.len(),
    {
        if events.len() == 0 {
            self
        } else {
            self.run(events.drop_last()).step(events.last()).0
        }
    }

    /// The device context, which exists exactly when start-up has succeeded.
    pub open spec fn context(self) -> Option<DeviceContextModel> {
        match self.phase {
            InitPhase::Configured(format) => Some(
                DeviceContextModel {
                    size: self.size,
                    format,
                    limits: spec_limits_for(self.constrained),
                },
            ),
            _ => None,
        }
    }

    /// Start-up is over, one way or the other.
    pub open spec fn finished(self) -> bool {
        self.phase is Configured || self.phase is Failed
    }
}

/// The start-up sequence of a device context, driven by the host.
#[derive(Clone, Copy, Debug, PartialEq, Eq)]
pub struct InitState {
    size: PhysicalSize,
    constrained: bool,
    phase: InitPhase,
}

impl View for InitState {
    type V = InitModel;

    closed spec fn view(&self) -> InitModel {
        InitModel { size: self.size, constrained: self.constrained, phase: self.phase }
    }
}

impl InitState {
    #[verifier::type_invariant]
    pub open spec fn inv(self) -> bool {
        self@.wf()
    }

    /// Begins start-up for a window of the given size.  `constrained` says
    /// whether the runtime can only honour reduced device limits.
    pub fn start(width: u32, height: u32, constrained: bool) -> (begun: (InitState, InitAction))
        requires
            width >= 1,
            height >= 1,
        ensures
            (begun.0@, begun.1) == InitModel::start(PhysicalSize { width, height }, constrained),
    {
        (
            InitState {
                size: PhysicalSize { width, height },
                constrained,
                phase: InitPhase::AwaitingAdapter,
            },
            InitAction::RequestAdapter(adapter_request()),
        )
    }

    /// Takes one answer of the backend.
    pub fn step(self, event: InitEvent) -> (next: (InitState, InitAction))
        ensures
            (next.0@, next.1) == self@.step(event),
    {
        proof {
            use_type_invariant(&self);
        }
        let InitState { size, constrained, phase } = self;
        match (phase, event) {
            (InitPhase::AwaitingAdapter, InitEvent::Adapter(true)) => (
                InitState { size, constrained, phase: InitPhase::AwaitingDevice },
                InitAction::RequestDevice(device_request(constrained)),
            ),
            (InitPhase::AwaitingAdapter, InitEvent::Adapter(false)) => (
                InitState { size, constrained, phase: InitPhase::Failed(InitError::NoAdapter) },
                InitAction::Abort(InitError::NoAdapter),
            ),
            (InitPhase::AwaitingDevice, InitEvent::Device(true)) => (
                InitState { size, constrained, phase: InitPhase::AwaitingFormat },
                InitAction::QueryPreferredFormat,
            ),
            (InitPhase::AwaitingDevice, InitEvent::Device(false)) => (
                InitState { size, constrained, phase: InitPhase::Failed(InitError::NoDevice) },
                InitAction::Abort(InitError::NoDevice),
            ),
            (InitPhase::AwaitingFormat, InitEvent::PreferredFormat(Some(format))) => (
                InitState { size, constrained, phase: InitPhase::Configured(format) },
                InitAction::Configure(surface_configuration(size, format)),
            ),
            (InitPhase::AwaitingFormat, InitEvent::PreferredFormat(None)) => (
                InitState {
                    size,
                    constrained,
                    phase: InitPhase::Failed(InitError::NoSurfaceFormat),
                },
                InitAction::Abort(InitError::NoSurfaceFormat),
            ),
            _ => (InitState { size, constrained, phase }, InitAction::Nothing),
        }
    }

    /// Where start-up stands.
    pub fn phase(&self) -> (phase: InitPhase)
        ensures
            phase == self@.phase,
    {
        self.phase
    }

    /// The device context, once start-up has succeeded.
    pub fn context(&self) -> (context: Option<DeviceContext>)
        ensures
            match context {
                Some(ctx) => self@.context() == Some(ctx@),
                None => self@.context().is_none(),
            },
    {
        proof {
            use_type_invariant(self);
        }
        match self.phase {
            InitPhase::Configured(format) => Some(
                DeviceContext { size: self.size, format, limits: limits_for(self.constrained) },
            ),
            _ => None,
        }
    }
}

/// Start-up is all or nothing.  Whatever the backend answers, in whatever
/// order, to a start-up begun for a presentable window size:
/// a device context exists exactly in the `Configured` phase; it is then
/// fully configured for that very window size, with the limits the runtime
/// calls for; and a start-up that is over has either such a context or a
/// fatal error.
pub proof fn lemma_start_up_all_or_nothing(
    size: PhysicalSize,
    constrained: bool,
    events: Seq<InitEvent>,
)
    requires
        size.presentable(),
    ensures
        ({
            let end = InitModel::start(size, constrained).0.run(events);
            &&& end.wf()
            &&& end.size == size
            &&& end.constrained == constrained
            &&& end.context().is_some() <==> end.phase is Configured
            &&& end.context() matches Some(ctx) ==> {
                &&& ctx.wf()
                &&& ctx.size == size
                &&& ctx.limits == spec_limits_for(constrained)
                &&& ctx.config().width == size.width
                &&& ctx.config().height == size.height
                &&& ctx.config().usage == TextureUsage::RenderAttachment
                &&& ctx.config().present_mode == PresentMode::Fifo
                &&& end.phase == InitPhase::Configured(ctx.config().format)
            }
            &&& end.finished() ==> (end.context().is_some() || end.phase is Failed)
        }),
{
    lemma_run_keeps_window(InitModel::start(size, constrained).0, events);
}

/// Answers of the backend never change the window size or the runtime that
/// start-up was begun for.
pub proof fn lemma_run_keeps_window(state: InitModel, events: Seq<InitEvent>)
    ensures
        state.run(events).size == state.size,
        state.run(events).constrained == state.constrained,
    decreases events.len(),
{
    if events.len() > 0 {
        lemma_run_keeps_window(state, events.drop_last());
    }
}

/// Start-up that is over stays as it is: later answers change nothing and
/// ask nothing of the host.
pub proof fn lemma_finished_is_final(state: InitModel, event: InitEvent)
    requires
        state.finished(),
    ensures
        state.step(event) == (state, InitAction::Nothing),
{
}

/// An adapter found, then a device opened, then a format reported: these
/// three answers configure the context, for that format.
pub proof fn lemma_three_successes_configure(
    size: PhysicalSize,
    constrained: bool,
    format: SurfaceFormat,
)
    ensures
        InitModel::start(size, constrained).0.run(
            seq![
                InitEvent::Adapter(true),
                InitEvent::Device(true),
                InitEvent::PreferredFormat(Some(format)),
            ],
        ).phase == InitPhase::Configured(format),
{
    let begun = InitModel::start(size, constrained).0;
    let three = seq![
        InitEvent::Adapter(true),
        InitEvent::Device(true),
        InitEvent::PreferredFormat(Some(format)),
    ];
    let two = seq![InitEvent::Adapter(true), InitEvent::Device(true)];
    let one = seq![InitEvent::Adapter(true)];
    assert(three.drop_last() == two);
    assert(two.drop_last() == one);
    assert(one.drop_last().len() == 0);
    assert(begun.run(one.drop_last()) == begun);
    assert(begun.run(one).phase == InitPhase::AwaitingDevice);
    assert(begun.run(two).phase == InitPhase::AwaitingFormat);
}

/// The answers up to a point hold an adapter that was found.
pub open spec fn adapter_found(events: Seq<InitEvent>) -> bool {
    exists|i: int| 0 <= i < events.len() && #[trigger] events[i] == InitEvent::Adapter(true)
}

/// The answers hold an adapter that was found and, later, a device that
/// was opened.
pub open spec fn device_opened(events: Seq<InitEvent>) -> bool {
    exists|i: int, j: int|
        0 <= i < j < events.len() && #[trigger] events[i] == InitEvent::Adapter(true)
            && #[trigger] events[j] == InitEvent::Device(true)
}

/// The answers hold an adapter that was found, later a device that was
/// opened and, later still, `format` reported as preferred.
pub open spec fn format_reported(events: Seq<InitEvent>, format: SurfaceFormat) -> bool {
    exists|i: int, j: int, k: int|
        0 <= i < j < k < events.len() && #[trigger] events[i] == InitEvent::Adapter(true)
            && #[trigger] events[j] == InitEvent::Device(true) && #[trigger] events[k]
            == InitEvent::PreferredFormat(Some(format))
}

/// No phase is reached without the answers that lead to it.  In particular
/// a context exists only if the backend found an adapter, then opened a
/// device, then reported the very format the context presents with.
pub proof fn lemma_context_needs_every_answer(
    size: PhysicalSize,
    constrained: bool,
    events: Seq<InitEvent>,
)
    ensures
        ({
            let end = InitModel::start(size, constrained).0.run(events);
            &&& end.phase is AwaitingDevice ==> adapter_found(events)
            &&& end.phase is AwaitingFormat ==> device_opened(events)
            &&& end.phase matches InitPhase::Configured(format) ==> format_reported(
                events,
                format,
            )
            &&& end.context() matches Some(context) ==> format_reported(events, context.format)
        }),
    decreases events.len(),
{
    let begun = InitModel::start(size, constrained).0;
    if events.len() > 0 {
        let before = events.drop_last();
        let last = events.len() - 1;
        lemma_context_needs_every_answer(size, constrained, before);
        let middle = begun.run(before);
        let end = begun.run(events);
        assert(end == middle.step(events.last()).0);
        if adapter_found(before) {
            let i = choose|i: int|
                0 <= i < before.len() && #[trigger] before[i] == InitEvent::Adapter(true);
            assert(events[i] == InitEvent::Adapter(true));
        }
        if device_opened(before) {
            let (i, j) = choose|i: int, j: int|
                0 <= i < j < before.len() && #[trigger] before[i] == InitEvent::Adapter(true)
                    && #[trigger] before[j] == InitEvent::Device(true);
            assert(events[i] == InitEvent::Adapter(true));
            assert(events[j] == InitEvent::Device(true));
            match end.phase {
                InitPhase::Configured(format) => {
                    if !(middle.phase is Configured) {
                        assert(events[last] == InitEvent::PreferredFormat(Some(format)));
                    }
                },
                _ => {},
            }
        }
        match middle.phase {
            InitPhase::Configured(format) => {
                let (i, j, k) = choose|i: int, j: int, k: int|
                    0 <= i < j < k < before.len() && #[trigger] before[i] == InitEvent::Adapter(
                        true,
                    ) && #[trigger] before[j] == InitEvent::Device(true) && #[trigger] before[k]
                        == InitEvent::PreferredFormat(Some(format));
                assert(events[i] == InitEvent::Adapter(true));
                assert(events[j] == InitEvent::Device(true));
                assert(events[k] == InitEvent::PreferredFormat(Some(format)));
            },
            _ => {},
        }
        if end.phase is AwaitingDevice && !(middle.phase is AwaitingDevice) {
            assert(events[last] == InitEvent::Adapter(true));
        }
        if end.phase is AwaitingFormat && !(middle.phase is AwaitingFormat) {
            assert(events[last] == InitEvent::Device(true));
        }
    }
}

} // verus!
