//! The protocol event router: the state machine that receives server
//! events and drives the pool, the renderer, and the surface session.

use vstd::prelude::*;
use crate::pool::BufferPool;
use crate::pool::PixelBuffer;
use crate::render::frame_bytes;
use crate::render::render;
use crate::session::SurfaceOp;
use crate::session::present;
use crate::session::presents;

verus! {

/// An inbound display-server notification, as the router sees it.
pub enum Event {
    /// An output was discovered, updated, or removed. The output was picked
    /// once at bootstrap and the choice is never revisited.
    Output,
    /// A compositor frame callback. Unused: redraws are driven by configure
    /// events alone.
    Frame,
    /// The server assigned the surface a new size.
    Configure { width: u32, height: u32 },
    /// The server closed the surface.
    Closed,
}

/// The surface-role lifecycle.
pub enum Phase {
    /// The initial commit is issued; no size has been accepted yet.
    AwaitingConfigure,
    /// The server has supplied an accepted (positive) size.
    Configured,
    /// The server closed the surface; terminal.
    Closed,
}

/// What the caller must do in response to one event.
pub enum Action {
    /// No outside work is required.
    Nothing,
    /// Grow the real shared-memory pool to the router's recorded capacity,
    /// copy `buffer.data` into a server-visible buffer of the same
    /// dimensions, and perform the surface operations in order.
    Present { buffer: PixelBuffer, ops: Vec<SurfaceOp> },
    /// Terminate with a success status.
    Exit,
}

/// The application state the router owns.
pub struct App {
    /// Current surface width, as most recently configured.
    pub width: u32,
    /// Current surface height, as most recently configured.
    pub height: u32,
    /// The dimming alpha, fixed at startup.
    pub alpha: u8,
    /// Where the surface stands in its lifecycle.
    pub phase: Phase,
    /// The buffer pool, created lazily on the first draw.
    pub pool: Option<BufferPool>,
}

impl App {
    /// The state right after bootstrap: no size yet, no pool, the initial
    /// commit issued and a configure awaited.
    pub fn new(alpha: u8) -> (s: App)
        ensures
            s == (App {
                width: 0,
                height: 0,
                alpha,
                phase: Phase::AwaitingConfigure,
                pool: None,
            }),
    {
        App {
            width: 0,
            height: 0,
            alpha,
            phase: Phase::AwaitingConfigure,
            pool: None,
        }
    }
}

/// Bytes a `width` by `height` frame needs: four per pixel.
pub open spec fn needed_bytes(width: u32, height: u32) -> int {
    4 * (width as int) * (height as int)
}

/// The machine-size bound every routed event satisfies: a configured
/// frame's bytes must fit in addressable memory.
pub open spec fn event_fits(e: Event) -> bool {
    e matches Event::Configure { width, height }
        ==> needed_bytes(width, height) <= usize::MAX
}

/// A configure that actually triggers a draw: both dimensions positive.
pub open spec fn is_draw_configure(e: Event) -> bool {
    e matches Event::Configure { width, height } && width != 0 && height != 0
}

/// The byte size the pool must reach for a configure event; zero for every
/// other event.
pub open spec fn configure_bytes(e: Event) -> int {
    match e {
        Event::Configure { width, height } => needed_bytes(width, height),
        _ => 0,
    }
}

/// The pool's byte capacity; zero while no pool exists yet.
pub open spec fn pool_capacity(pool: Option<BufferPool>) -> int {
    match pool {
        None => 0,
        Some(p) => p.capacity as int,
    }
}

/// The capacity the pool holds after a draw of the given size: the larger
/// of what it already holds and what the frame needs.
pub open spec fn grown_capacity(s: App, width: u32, height: u32) -> int {
    if pool_capacity(s.pool) >= needed_bytes(width, height) {
        pool_capacity(s.pool)
    } else {
        needed_bytes(width, height)
    }
}

/// The state after one event: outputs and frame callbacks change nothing,
/// a close is terminal, a configure stores the new size and — when both
/// dimensions are positive — grows the pool and accepts the size.
pub open spec fn next_state(s: App, e: Event) -> App {
    match e {
        Event::Output => s,
        Event::Frame => s,
        Event::Closed => App {
            width: s.width,
            height: s.height,
            alpha: s.alpha,
            phase: Phase::Closed,
            pool: s.pool,
        },
        Event::Configure { width, height } => {
            if width == 0 || height == 0 {
                App {
                    width,
                    height,
                    alpha: s.alpha,
                    phase: s.phase,
                    pool: s.pool,
                }
            } else {
                App {
                    width,
                    height,
                    alpha: s.alpha,
                    phase: Phase::Configured,
                    pool: Some(BufferPool {
                        capacity: grown_capacity(s, width, height) as usize,
                    }),
                }
            }
        },
    }
}

/// The pixel bytes drawn in response to an event from state `s`, if the
/// event draws at all.
pub open spec fn draw_of(s: App, e: Event) -> Option<Seq<u8>> {
    match e {
        Event::Configure { width, height } => if width != 0 && height != 0 {
            Some(frame_bytes(width as int, height as int, s.alpha))
        } else {
            None
        },
        _ => None,
    }
}

/// Route one event: mutate the state as `next_state` says and hand back
/// the outside work the event requires.
pub fn handle_event(app: &mut App, event: Event) -> (r: Action)
    requires
        event_fits(event),
    ensures
        *final(app) == next_state(*old(app), event),
        (r is Exit) <==> (event is Closed),
        (r is Present) <==> is_draw_configure(event),
        pool_capacity(final(app).pool) >= pool_capacity(old(app).pool),
        (event matches Event::Configure { width, height } && (width == 0 || height == 0))
            ==> (r is Nothing && final(app).pool == old(app).pool),
        (r matches Action::Present { buffer, ops } ==> {
            &&& buffer.wf()
            &&& buffer.width == final(app).width
            &&& buffer.height == final(app).height
            &&& Some(buffer.data@) == draw_of(*old(app), event)
            &&& presents(ops@, final(app).width, final(app).height)
            &&& pool_capacity(final(app).pool)
                >= needed_bytes(final(app).width, final(app).height)
        }),
{
    match event {
        Event::Output => Action::Nothing,
        Event::Frame => Action::Nothing,
        Event::Closed => {
            app.phase = Phase::Closed;
            Action::Exit
        },
        Event::Configure { width, height } => {
            app.width = width;
            app.height = height;
            if width == 0 || height == 0 {
                return Action::Nothing;
            }
            proof {
                assert(4 * (width as int) <= 4 * (width as int) * (height as int))
                    by (nonlinear_arith)
                    requires 1 <= height as int, 0 <= width as int;
            }
            let needed: usize = 4 * (width as usize) * (height as usize);
            let mut pool: BufferPool = match &app.pool {
                Some(p) => *p,
                None => BufferPool::new(needed),
            };
            pool.ensure_capacity(needed);
            app.pool = Some(pool);
            app.phase = Phase::Configured;
            let mut buffer = pool.allocate(width, height);
            render(&mut buffer, app.alpha);
            let ops = present(width, height);
            Action::Present { buffer, ops }
        },
    }
}

/// The state after a whole sequence of events, routed in order.
pub open spec fn run(s: App, events: Seq<Event>) -> App
    decreases events.len(),
{
    if events.len() == 0 {
        s
    } else {
        next_state(run(s, events.drop_last()), events.last())
    }
}

/// Every event of the sequence satisfies the machine-size bound.
pub open spec fn all_fit(events: Seq<Event>) -> bool {
    forall|i: int| 0 <= i < events.len() ==> event_fits(#[trigger] events[i])
}

/// Pool-capacity law, one step: no event shrinks the pool.
pub proof fn lemma_capacity_step_monotone(s: App, e: Event)
    requires
        event_fits(e),
    ensures
        pool_capacity(next_state(s, e).pool) >= pool_capacity(s.pool),
{
}

/// Pool-capacity law, monotone form: across any event sequence the pool's
/// capacity never decreases.
pub proof fn lemma_capacity_monotone(s: App, events: Seq<Event>)
    requires
        all_fit(events),
    ensures
        pool_capacity(run(s, events).pool) >= pool_capacity(s.pool),
    decreases events.len(),
{
    if events.len() > 0 {
        assert(all_fit(events.drop_last())) by {
            assert forall|i: int| 0 <= i < events.drop_last().len() implies
                event_fits(#[trigger] events.drop_last()[i]) by {
                assert(events.drop_last()[i] == events[i]);
            }
        }
        lemma_capacity_monotone(s, events.drop_last());
        lemma_capacity_step_monotone(run(s, events.drop_last()), events.last());
    }
}

/// Pool-capacity law: after any sequence of events, the pool's capacity
/// covers the bytes needed by every drawing configure that occurred, so it
/// is at least the largest frame ever requested.
pub proof fn lemma_capacity_covers(s: App, events: Seq<Event>, j: int)
    requires
        all_fit(events),
        0 <= j < events.len(),
        is_draw_configure(events[j]),
    ensures
        pool_capacity(run(s, events).pool) >= configure_bytes(events[j]),
    decreases events.len(),
{
    assert(all_fit(events.drop_last())) by {
        assert forall|i: int| 0 <= i < events.drop_last().len() implies
            event_fits(#[trigger] events.drop_last()[i]) by {
            assert(events.drop_last()[i] == events[i]);
        }
    }
    if j == events.len() - 1 {
        assert(event_fits(events[j]));
    } else {
        assert(events.drop_last()[j] == events[j]);
        lemma_capacity_covers(s, events.drop_last(), j);
        lemma_capacity_step_monotone(run(s, events.drop_last()), events.last());
    }
}

/// Idempotence law: two consecutive configure events carrying the same
/// size draw byte-identical frames — rendering depends only on the size
/// and the startup alpha, and no event changes the alpha.
pub proof fn lemma_identical_configures_draw_identically(s: App, width: u32, height: u32)
    ensures
        draw_of(
            next_state(s, Event::Configure { width, height }),
            Event::Configure { width, height },
        ) == draw_of(s, Event::Configure { width, height }),
{
}

} // verus!
