use vstd::prelude::*;

use crate::errors::LinkError;
use crate::timer::DisplayId;
use crate::timer::NativeTimer;
use crate::timer::TimerView;

verus! {

/// The storage of one registered callback: the stable address of the
/// heap-allocated callable that is handed to the native layer as the
/// trampoline context. The callable itself lives outside the library; the
/// manager tracks its storage so that the native layer is never left
/// targeting freed memory.
#[derive(Clone, Copy, Debug, PartialEq, Eq, Structural)]
pub struct CallbackHandle {
    ctx: usize,
}

impl View for CallbackHandle {
    type V = usize;

    closed spec fn view(&self) -> usize {
        self.ctx
    }
}

impl CallbackHandle {
    /// Wraps the address of a heap-allocated callable. Live storage is never
    /// at address zero.
    pub fn new(ctx: usize) -> (c: CallbackHandle)
        requires
            ctx != 0,
        ensures
            c@ == ctx,
    {
        CallbackHandle { ctx }
    }

    /// The address of the callable's storage.
    pub fn context(&self) -> (r: usize)
        ensures
            r == self@,
    {
        self.ctx
    }
}

/// The address held by an optional callback handle.
pub open spec fn callback_view(c: Option<CallbackHandle>) -> Option<usize> {
    match c {
        Some(h) => Some(h@),
        None => None,
    }
}

/// The state of a display link manager.
pub ghost struct LinkView {
    /// The native timer the manager owns.
    pub timer: TimerView,
    /// The storage of the callback the manager currently owns, if any.
    pub callback: Option<usize>,
    /// Whether delivery is paused. A fresh link starts paused.
    pub paused: bool,
}

/// The invariant every display link maintains:
/// - the native handle is non-null for the whole lifetime of the manager;
/// - `paused` always agrees with whether the native timer is running;
/// - the native layer's invocation target is exactly the callback storage
///   the manager currently owns and keeps alive, so a tick can never
///   dereference freed memory.
pub open spec fn link_inv(v: LinkView) -> bool {
    &&& v.timer.raw != 0
    &&& v.paused == !v.timer.running
    &&& v.timer.target == v.callback
}

/// Manages one native display timer: owns the handle and the registered
/// callback's storage, and exposes a pause/resume state machine that turns
/// misuse of the platform primitive into a clean, recoverable error.
pub struct DisplayLink {
    timer: NativeTimer,
    callback: Option<CallbackHandle>,
    is_paused: bool,
}

impl View for DisplayLink {
    type V = LinkView;

    closed spec fn view(&self) -> LinkView {
        LinkView {
            timer: self.timer@,
            callback: callback_view(self.callback),
            paused: self.is_paused,
        }
    }
}

/// What constructing a link on a display yields, given the handle the
/// platform's fallible "create timer" primitive answered with (zero when the
/// display was rejected).
pub open spec fn spec_on_display(display: DisplayId, raw: usize) -> Result<LinkView, LinkError> {
    if raw == 0 {
        Err(LinkError::CreationFailed { display_id: display })
    } else {
        Ok(
            LinkView {
                timer: TimerView { raw, display, running: false, target: None::<usize> },
                callback: None::<usize>,
                paused: true,
            },
        )
    }
}

/// The view of a construction result.
pub open spec fn link_result_view(r: Result<DisplayLink, LinkError>) -> Result<
    LinkView,
    LinkError,
> {
    match r {
        Ok(l) => Ok(l@),
        Err(e) => Err(e),
    }
}

/// The transition `resume` makes: from `Paused`, start the timer and report
/// success; from `Running`, change nothing and report `AlreadyRunning`.
pub open spec fn spec_resume(v: LinkView) -> (LinkView, Result<(), LinkError>) {
    if !v.paused {
        (v, Err(LinkError::AlreadyRunning))
    } else {
        (
            LinkView { timer: TimerView { running: true, ..v.timer }, paused: false, ..v },
            Ok(()),
        )
    }
}

/// The transition `pause` makes: from `Running`, stop the timer and report
/// success; from `Paused`, change nothing and report `AlreadyPaused`.
pub open spec fn spec_pause(v: LinkView) -> (LinkView, Result<(), LinkError>) {
    if v.paused {
        (v, Err(LinkError::AlreadyPaused))
    } else {
        (
            LinkView { timer: TimerView { running: false, ..v.timer }, paused: true, ..v },
            Ok(()),
        )
    }
}

/// The transition `set_callback` makes: the native layer's invocation target
/// becomes the new callback's storage, the manager owns the new callback, and
/// the previous one — handed back for release — is never targeted again.
/// Pause state is untouched.
pub open spec fn spec_set_callback(v: LinkView, ctx: usize) -> (LinkView, Option<usize>) {
    (
        LinkView { timer: TimerView { target: Some(ctx), ..v.timer }, callback: Some(ctx), ..v },
        v.callback,
    )
}

/// Construction law: for every display the platform accepts (it answered
/// with a handle), the new manager is paused, owns no callback, and the
/// native layer has no invocation target; for every display the platform
/// rejects (a null handle), the result is `CreationFailed` naming exactly
/// that display.
pub proof fn lemma_on_display(display: DisplayId, raw: usize)
    ensures
        raw != 0 ==> (spec_on_display(display, raw) matches Ok(v) && link_inv(v) && v.paused
            && v.callback is None && v.timer.target is None && !v.timer.running
            && v.timer.display == display),
        raw == 0 ==> spec_on_display(display, raw) == Err::<LinkView, LinkError>(
            LinkError::CreationFailed { display_id: display },
        ),
{
}

/// Double-start law: after any `resume`, a second `resume` reports
/// `AlreadyRunning` and leaves the link exactly as the first call left it,
/// still running.
pub proof fn lemma_resume_resume(v: LinkView)
    requires
        link_inv(v),
    ensures
        ({
            let (v1, r1) = spec_resume(v);
            let (v2, r2) = spec_resume(v1);
            &&& r2 == Err::<(), LinkError>(LinkError::AlreadyRunning)
            &&& v2 == v1
            &&& !v2.paused
        }),
{
}

/// Double-stop law: after any `pause`, a second `pause` reports
/// `AlreadyPaused` and leaves the link exactly as the first call left it,
/// still paused.
pub proof fn lemma_pause_pause(v: LinkView)
    requires
        link_inv(v),
    ensures
        ({
            let (v1, r1) = spec_pause(v);
            let (v2, r2) = spec_pause(v1);
            &&& r2 == Err::<(), LinkError>(LinkError::AlreadyPaused)
            &&& v2 == v1
            &&& v2.paused
        }),
{
}

/// Toggle law: from a paused link, `resume`, `pause`, `resume` each succeed,
/// and the pause flag reads false, true, false after the respective calls.
pub proof fn lemma_resume_pause_resume(v: LinkView)
    requires
        link_inv(v),
        v.paused,
    ensures
        ({
            let (v1, r1) = spec_resume(v);
            let (v2, r2) = spec_pause(v1);
            let (v3, r3) = spec_resume(v2);
            &&& r1 == Ok::<(), LinkError>(())
            &&& r2 == Ok::<(), LinkError>(())
            &&& r3 == Ok::<(), LinkError>(())
            &&& !v1.paused
            &&& v2.paused
            &&& !v3.paused
        }),
{
}

/// Replacement law: installing a new callback makes its storage the native
/// layer's one invocation target, hands the previous callback back for
/// release, and never leaves the old storage targeted — once replaced, the
/// old callback cannot be invoked again through the timer.
pub proof fn lemma_replace_supersedes(v: LinkView, new_ctx: usize, old_ctx: usize)
    requires
        link_inv(v),
    ensures
        ({
            let (v1, prev) = spec_set_callback(v, new_ctx);
            &&& link_inv(v1)
            &&& v1.timer.target == Some(new_ctx)
            &&& v1.callback == Some(new_ctx)
            &&& prev == v.callback
            &&& v1.paused == v.paused
            &&& v1.timer.running == v.timer.running
            &&& old_ctx != new_ctx ==> v1.timer.target != Some(old_ctx)
        }),
{
}

/// Ownership law: in a well-formed link the native layer's invocation target
/// is always storage the manager currently owns — a tick can never
/// dereference a callback that was released.
pub proof fn lemma_target_is_owned(v: LinkView, ctx: usize)
    requires
        link_inv(v),
        v.timer.target == Some(ctx),
    ensures
        v.callback == Some(ctx),
{
}

/// Invariant law: every transition of the state machine preserves the link
/// invariant — the handle stays non-null, the pause flag keeps agreeing with
/// whether the native timer runs, and the native target keeps pointing at
/// owned callback storage.
pub proof fn lemma_transitions_preserve_inv(v: LinkView, ctx: usize)
    requires
        link_inv(v),
    ensures
        link_inv(spec_resume(v).0),
        link_inv(spec_pause(v).0),
        link_inv(spec_set_callback(v, ctx).0),
{
}

impl DisplayLink {
    /// The manager's invariant; established at construction and preserved by
    /// every operation.
    pub open spec fn wf(&self) -> bool {
        link_inv(self@)
    }

    /// Binds a manager to `display`. `raw_handle` is the answer of the
    /// platform's "create timer for display" primitive: the native handle on
    /// success, null (zero) when the display was rejected. On success the
    /// manager starts paused with no registered callback; on failure the
    /// error names the display and nothing is constructed.
    pub fn on_display(display: DisplayId, raw_handle: usize) -> (r: Result<DisplayLink, LinkError>)
        ensures
            link_result_view(r) == spec_on_display(display, raw_handle),
            r matches Ok(l) ==> l.wf(),
    {
        if raw_handle == 0 {
            Err(LinkError::CreationFailed { display_id: display })
        } else {
            Ok(DisplayLink { timer: NativeTimer::new(display, raw_handle), callback: None, is_paused: true })
        }
    }

    /// Whether delivery is currently paused. Pure read, no side effects.
    pub fn is_paused(&self) -> (r: bool)
        ensures
            r == self@.paused,
    {
        self.is_paused
    }

    /// Starts tick delivery. Valid only while paused: resuming a running
    /// link reports `AlreadyRunning` and leaves the link exactly as it was.
    /// The state machine guarantees the native timer never receives a start
    /// while already started.
    pub fn resume(&mut self) -> (r: Result<(), LinkError>)
        requires
            old(self).wf(),
        ensures
            final(self).wf(),
            (final(self)@, r) == spec_resume(old(self)@),
    {
        if !self.is_paused {
            Err(LinkError::AlreadyRunning)
        } else {
            self.timer.start();
            self.is_paused = false;
            Ok(())
        }
    }

    /// Stops tick delivery. Valid only while running: pausing a paused link
    /// reports `AlreadyPaused` and leaves the link exactly as it was. The
    /// state machine guarantees the native timer never receives a stop while
    /// already stopped.
    pub fn pause(&mut self) -> (r: Result<(), LinkError>)
        requires
            old(self).wf(),
        ensures
            final(self).wf(),
            (final(self)@, r) == spec_pause(old(self)@),
    {
        if self.is_paused {
            Err(LinkError::AlreadyPaused)
        } else {
            self.timer.stop();
            self.is_paused = true;
            Ok(())
        }
    }

    /// Registers `callback` as the invocation target, replacing any previous
    /// registration, and returns the previous callback so its storage can be
    /// released — only after this call, when the native layer no longer
    /// references it. Pause state is unchanged; while running, the new
    /// callback takes effect for the very next tick.
    pub fn set_callback(&mut self, callback: CallbackHandle) -> (prev: Option<CallbackHandle>)
        requires
            old(self).wf(),
        ensures
            final(self).wf(),
            (final(self)@, callback_view(prev)) == spec_set_callback(old(self)@, callback@),
    {
        self.timer.set_target(callback.context());
        let prev = self.callback;
        self.callback = Some(callback);
        prev
    }

    /// Whether a callback is currently registered.
    pub fn has_callback(&self) -> (r: bool)
        ensures
            r == (self@.callback is Some),
    {
        self.callback.is_some()
    }

    /// The display this link is bound to.
    pub fn display(&self) -> (d: DisplayId)
        ensures
            d == self@.timer.display,
    {
        self.timer.display()
    }

    /// The invocation target currently installed at the native layer, if any:
    /// the storage address a tick would dereference.
    pub fn installed_context(&self) -> (r: Option<usize>)
        ensures
            r == self@.timer.target,
    {
        self.timer.target()
    }
}

} // verus!
