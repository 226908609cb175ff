use vstd::prelude::*;

verus! {

/// Identifies one physical or virtual display known to the host platform.
pub type DisplayId = u32;

/// The state of the platform's hardware-synchronized timer, as the manager
/// tracks it.
pub ghost struct TimerView {
    /// The raw native handle value. The platform hands out a non-null handle
    /// on success; null (zero) stands for "no handle".
    pub raw: usize,
    /// The display the timer is bound to.
    pub display: DisplayId,
    /// Whether the timer is currently delivering ticks.
    pub running: bool,
    /// The trampoline context installed as the invocation target, if any:
    /// the address the native layer dereferences on every tick.
    pub target: Option<usize>,
}

/// The native timer bound to one display: the manager's record of the opaque
/// platform resource.
///
/// The platform's primitive has strict usage rules: it must never receive a
/// "start" while already started nor a "stop" while already stopped, and it
/// keeps invoking whatever target was installed until the target is replaced
/// or the timer torn down. Those rules are the `requires` of the methods
/// here, so every verified caller is proved to respect them. The unsafe
/// platform binding outside the library performs the matching native call
/// alongside each of these transitions.
pub struct NativeTimer {
    raw: usize,
    display: DisplayId,
    running: bool,
    target: Option<usize>,
}

impl View for NativeTimer {
    type V = TimerView;

    closed spec fn view(&self) -> TimerView {
        TimerView {
            raw: self.raw,
            display: self.display,
            running: self.running,
            target: self.target,
        }
    }
}

impl NativeTimer {
    /// A timer handle is valid while it is non-null.
    pub open spec fn wf(&self) -> bool {
        self@.raw != 0
    }

    /// Records a freshly created native timer. `raw` is the handle the
    /// platform's "create timer for display" primitive answered with; the
    /// platform creates the timer stopped and with no invocation target.
    pub fn new(display: DisplayId, raw: usize) -> (t: NativeTimer)
        requires
            raw != 0,
        ensures
            t@ == (TimerView { raw, display, running: false, target: None::<usize> }),
            t.wf(),
    {
        NativeTimer { raw, display, running: false, target: None }
    }

    /// Starts tick delivery. The platform primitive must never receive a
    /// start while the timer is already running.
    pub fn start(&mut self)
        requires
            !old(self)@.running,
        ensures
            final(self)@ == (TimerView { running: true, ..old(self)@ }),
    {
        self.running = true;
    }

    /// Stops tick delivery. The platform primitive must never receive a
    /// stop while the timer is already stopped.
    pub fn stop(&mut self)
        requires
            old(self)@.running,
        ensures
            final(self)@ == (TimerView { running: false, ..old(self)@ }),
    {
        self.running = false;
    }

    /// Installs `ctx` as the invocation target: from now on every tick
    /// dereferences `ctx`, and the previous target is never invoked again.
    /// The platform accepts this in any state.
    pub fn set_target(&mut self, ctx: usize)
        ensures
            final(self)@ == (TimerView { target: Some(ctx), ..old(self)@ }),
    {
        self.target = Some(ctx);
    }

    /// Whether the timer is currently delivering ticks.
    pub fn is_running(&self) -> (r: bool)
        ensures
            r == self@.running,
    {
        self.running
    }

    /// The invocation target currently installed, if any.
    pub fn target(&self) -> (r: Option<usize>)
        ensures
            r == self@.target,
    {
        self.target
    }

    /// The display this timer is bound to.
    pub fn display(&self) -> (d: DisplayId)
        ensures
            d == self@.display,
    {
        self.display
    }
}

} // verus!
