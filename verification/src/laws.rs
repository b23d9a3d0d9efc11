//! What holds of the state machine over whole runs of signals.

use vstd::prelude::*;
use crate::builder::{BuildOutcome, BuildStep};
use crate::bundle::Wgpu;
use crate::effect::{Availability, Callback, Effect};
use crate::event::{UserEvent, WindowEvent};
use crate::model::{Signal, State};
use crate::size::clamp_dimension;

verus! {

/// `signal` delivers a finished build.
pub open spec fn is_ready<W, C, G>(signal: Signal<W, C, G>) -> bool {
    signal matches Signal::User(UserEvent::WgpuReady(_))
}

/// A build completes at position `at` of `signals`, and no suspend signal
/// comes after it.
pub open spec fn completed_at<W, C, G>(signals: Seq<Signal<W, C, G>>, at: int) -> bool {
    &&& 0 <= at < signals.len()
    &&& is_ready(signals[at])
    &&& forall|later: int| at < later < signals.len() ==> !(#[trigger] signals[later] is Suspended)
}

/// Of the suspend signals and the completed builds in `signals`, the most
/// recent is a completed build.
pub open spec fn build_stands<W, C, G>(signals: Seq<Signal<W, C, G>>) -> bool {
    exists|at: int| #[trigger] completed_at(signals, at)
}

/// The number of suspend signals in `signals`.
pub open spec fn suspends<W, C, G>(signals: Seq<Signal<W, C, G>>) -> nat
    decreases signals.len(),
{
    if signals.len() == 0 {
        0
    } else {
        suspends(signals.drop_last()) + if signals.last() is Suspended {
            1nat
        } else {
            0nat
        }
    }
}

/// The number of resume signals in `signals` for which the host has to make
/// a window: those that find the window slot empty.
pub open spec fn windows_made<W, C, G>(signals: Seq<Signal<W, C, G>>) -> nat
    decreases signals.len(),
{
    if signals.len() == 0 {
        0
    } else {
        windows_made(signals.drop_last()) + if signals.last() is Resumed && State::<W, G>::init().run(
            signals.drop_last(),
        ).needs_window() {
            1nat
        } else {
            0nat
        }
    }
}

/// `effects` holds a dispatch of `callback`.
pub open spec fn dispatches(effects: Seq<Effect>, callback: Callback) -> bool {
    exists|at: int|
        0 <= at < effects.len() && (#[trigger] effects[at] matches Effect::Notify {
            callback: dispatched,
            ..
        } && dispatched == callback)
}

/// Every state that a run of admitted signals reaches is well formed: the
/// bundle is never there without its window.
pub proof fn law_bundle_implies_window<W, C, G>(signals: Seq<Signal<W, C, G>>)
    requires
        State::<W, G>::init().admits(signals),
    ensures
        State::<W, G>::init().run(signals).wf(),
    decreases signals.len(),
{
    if signals.len() > 0 {
        law_bundle_implies_window(signals.drop_last());
    }
}

/// After any run of signals the bundle is present if and only if a build
/// has completed and no suspend signal has come since.
pub proof fn law_bundle_presence<W, C, G>(signals: Seq<Signal<W, C, G>>)
    ensures
        State::<W, G>::init().run(signals).wgpu is Some <==> build_stands(signals),
    decreases signals.len(),
{
    if signals.len() == 0 {
        assert forall|at: int| !completed_at(signals, at) by {}
    } else {
        let prefix = signals.drop_last();
        let last = signals.last();
        let end = signals.len() - 1;
        law_bundle_presence(prefix);
        if is_ready(last) {
            assert(completed_at(signals, end));
        } else if last is Suspended {
            assert forall|at: int| !completed_at(signals, at) by {
                if 0 <= at < end {
                    assert(signals[end] is Suspended);
                }
            }
        } else {
            if build_stands(prefix) {
                let at = choose|at: int| completed_at(prefix, at);
                assert forall|later: int| at < later < signals.len() implies !(
                #[trigger] signals[later] is Suspended) by {
                    if later < end {
                        assert(prefix[later] == signals[later]);
                    }
                }
                assert(completed_at(signals, at));
            }
            if build_stands(signals) {
                let at = choose|at: int| completed_at(signals, at);
                assert forall|later: int| at < later < prefix.len() implies !(
                #[trigger] prefix[later] is Suspended) by {
                    assert(prefix[later] == signals[later]);
                }
                assert(completed_at(prefix, at));
            }
        }
    }
}

/// Before the first resume signal there is neither window nor bundle.
pub proof fn law_nothing_before_first_resume<W, C, G>(signals: Seq<Signal<W, C, G>>)
    requires
        State::<W, G>::init().admits(signals),
        forall|at: int| 0 <= at < signals.len() ==> !(#[trigger] signals[at] is Resumed),
    ensures
        State::<W, G>::init().run(signals).window is None,
        State::<W, G>::init().run(signals).wgpu is None,
    decreases signals.len(),
{
    if signals.len() > 0 {
        let prefix = signals.drop_last();
        assert forall|at: int| 0 <= at < prefix.len() implies !(#[trigger] prefix[at] is Resumed) by {
            assert(prefix[at] == signals[at]);
        }
        law_nothing_before_first_resume(prefix);
        assert(!(signals[signals.len() - 1] is Resumed));
    }
}

/// The suspend counter is the number of suspend signals handled: each one
/// raises it by exactly one, and nothing else moves it.
pub proof fn law_counter_counts_suspends<W, C, G>(signals: Seq<Signal<W, C, G>>)
    requires
        State::<W, G>::init().admits(signals),
    ensures
        State::<W, G>::init().run(signals).suspend_count == suspends(signals),
    decreases signals.len(),
{
    if signals.len() > 0 {
        law_counter_counts_suspends(signals.drop_last());
    }
}

/// The bundle that is built right after a suspend signal shows the raised
/// counter: the resume that follows launches the build under it, the
/// finished bundle carries it, and it is there once the bundle is installed.
pub proof fn law_counter_on_next_bundle<W, D, Q, A, S>(
    state: State<W, Wgpu<D, Q, A, S>>,
    created: Option<W>,
    device: D,
    queue: Q,
    adapter: A,
    surface: S,
)
    requires
        state.suspend_count < u64::MAX,
    ensures
        state.suspended().suspend_count == state.suspend_count + 1,
        state.suspended().resumed(created).resumed_effects() == (seq![
            Effect::LaunchBuild { suspend_count: state.suspended().suspend_count },
        ]),
        ({
            let wgpu = Wgpu {
                device,
                queue,
                adapter,
                surface,
                suspend_count: state.suspended().suspend_count,
            };
            let ready = state.suspended().resumed(created).installed(wgpu);
            &&& ready.wgpu == Some(wgpu)
            &&& ready.wgpu->0.suspend_count == state.suspend_count + 1
            &&& ready.suspend_count == state.suspend_count + 1
        }),
{
}

/// Of two finished builds the one that arrives last is the one installed,
/// whichever was asked for first.
pub proof fn law_last_ready_wins<W, G>(state: State<W, G>, earlier: G, later: G)
    ensures
        state.installed(earlier).installed(later) == state.installed(later),
        state.installed(earlier).installed(later).wgpu == Some(later),
{
}

/// Once there is a window it stays, whatever comes.
pub proof fn law_window_stays<W, C, G>(state: State<W, G>, signal: Signal<W, C, G>)
    requires
        state.window is Some,
    ensures
        state.step(signal).window == state.window,
{
}

/// A window is there if and only if a resume signal has been handled.
pub proof fn law_window_since_first_resume<W, C, G>(signals: Seq<Signal<W, C, G>>)
    requires
        State::<W, G>::init().admits(signals),
    ensures
        State::<W, G>::init().run(signals).needs_window() <==> forall|at: int|
            0 <= at < signals.len() ==> !(#[trigger] signals[at] is Resumed),
    decreases signals.len(),
{
    if signals.len() > 0 {
        let prefix = signals.drop_last();
        let end = signals.len() - 1;
        law_window_since_first_resume(prefix);
        if signals[end] is Resumed {
        } else if State::<W, G>::init().run(prefix).needs_window() {
            assert forall|at: int| 0 <= at < signals.len() implies !(
            #[trigger] signals[at] is Resumed) by {
                if at < end {
                    assert(prefix[at] == signals[at]);
                }
            }
        } else {
            let at = choose|at: int| 0 <= at < prefix.len() && (#[trigger] prefix[at] is Resumed);
            assert(signals[at] is Resumed);
        }
    }
}

/// However many resume signals come, the host has to make at most one
/// window: only the first resume finds the slot empty.
pub proof fn law_at_most_one_window<W, C, G>(signals: Seq<Signal<W, C, G>>)
    requires
        State::<W, G>::init().admits(signals),
    ensures
        windows_made(signals) <= 1,
        windows_made(signals) == 1 <==> State::<W, G>::init().run(signals).window is Some,
    decreases signals.len(),
{
    if signals.len() > 0 {
        law_at_most_one_window(signals.drop_last());
    }
}

/// A resize with a bundle installed configures the surface at the size asked
/// for, each dimension raised to at least one; without a bundle nothing is
/// configured.
pub proof fn law_configured_size<W, G>(state: State<W, G>, width: u32, height: u32)
    requires
        !state.exiting,
    ensures
        ({
            let effects = state.window_event_effects(WindowEvent::Resized { width, height });
            &&& state.wgpu is Some ==> effects[0] == Effect::ConfigureSurface {
                width: clamp_dimension(width),
                height: clamp_dimension(height),
            }
            &&& forall|at: int|
                0 <= at < effects.len() ==> (#[trigger] effects[at] matches Effect::ConfigureSurface {
                    width: w,
                    height: h,
                } ==> {
                    &&& state.wgpu is Some
                    &&& w >= 1
                    &&& h >= 1
                    &&& w >= width
                    &&& h >= height
                    &&& (width >= 1 ==> w == width)
                    &&& (height >= 1 ==> h == height)
                })
        }),
{
}

/// A redraw request reaches the redraw callback if and only if a bundle is
/// installed, and the window-event callback in any case, after it.
pub proof fn law_redraw_dispatch<W, G>(state: State<W, G>)
    requires
        !state.exiting,
    ensures
        dispatches(state.window_event_effects(WindowEvent::RedrawRequested), Callback::Redraw)
            <==> state.wgpu is Some,
        dispatches(state.window_event_effects(WindowEvent::RedrawRequested), Callback::WindowEvent),
        state.window_event_effects(WindowEvent::RedrawRequested).last() == state.notify(
            Callback::WindowEvent,
        ),
{
    let effects = state.window_event_effects(WindowEvent::RedrawRequested);
    let end = effects.len() - 1;
    assert(effects[end] == state.notify(Callback::WindowEvent));
    if state.wgpu is Some {
        assert(effects[0] == Effect::Notify {
            callback: Callback::Redraw,
            context: Availability { window: true, wgpu: true },
        });
    }
}

/// Every window event that is not ignored ends in the window-event callback,
/// whether a bundle is there or not.
pub proof fn law_window_event_forwarded<W, G>(state: State<W, G>, event: WindowEvent)
    requires
        !state.exiting,
    ensures
        state.window_event_effects(event).len() >= 1,
        state.window_event_effects(event).last() == state.notify(Callback::WindowEvent),
{
}

/// A build comes to `Finish` by one road only: probe, surface, adapter,
/// device and configuration, each having succeeded. No bundle is assembled
/// from less.
pub proof fn law_finish_is_complete(outcomes: Seq<BuildOutcome>)
    requires
        BuildStep::ProbeDefaultBackend.admits(outcomes),
    ensures
        BuildStep::ProbeDefaultBackend.after(outcomes) is Finish <==> ({
            &&& outcomes.len() == 5
            &&& outcomes[0] is Probed
            &&& outcomes[1] is SurfaceCreated
            &&& outcomes[2] is AdapterFound
            &&& outcomes[3] is DeviceCreated
            &&& outcomes[4] is Configured
        }),
{
    lemma_build_progress(outcomes);
    if outcomes.len() == 5 {
        let o4 = outcomes.drop_last();
        let o3 = o4.drop_last();
        let o2 = o3.drop_last();
        let o1 = o2.drop_last();
        lemma_build_progress(o4);
        lemma_build_progress(o3);
        lemma_build_progress(o2);
        lemma_build_progress(o1);
        assert(o4.last() == outcomes[3]);
        assert(o3.last() == outcomes[2]);
        assert(o2.last() == outcomes[1]);
        assert(o1.last() == outcomes[0]);
    }
}

/// Where a build stands after a given number of admitted outcomes.
proof fn lemma_build_progress(outcomes: Seq<BuildOutcome>)
    requires
        BuildStep::ProbeDefaultBackend.admits(outcomes),
    ensures
        BuildStep::ProbeDefaultBackend.admits(outcomes.drop_last()) || outcomes.len() == 0,
        outcomes.len() <= 5,
        ({
            let step = BuildStep::ProbeDefaultBackend.after(outcomes);
            &&& outcomes.len() == 0 ==> step is ProbeDefaultBackend
            &&& outcomes.len() == 1 ==> step is CreateSurface
            &&& outcomes.len() == 2 ==> step is RequestAdapter || step is Abort
            &&& outcomes.len() == 3 ==> step is RequestDevice || step is Abort
            &&& outcomes.len() == 4 ==> step is ConfigureSurface || step is Abort
            &&& outcomes.len() == 5 ==> step is Finish
        }),
    decreases outcomes.len(),
{
    if outcomes.len() > 0 {
        lemma_build_progress(outcomes.drop_last());
    }
}

} // verus!
