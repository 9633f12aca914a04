use dark_overlay::pool::BufferPool;
use dark_overlay::render::render;
use dark_overlay::router::handle_event;
use dark_overlay::router::Action;
use dark_overlay::router::App;
use dark_overlay::router::Event;
use dark_overlay::router::Phase;
use dark_overlay::session::SurfaceOp;

fn capacity_of(app: &App) -> usize {
    match &app.pool {
        Some(p) => p.capacity,
        None => 0,
    }
}

#[test]
fn configure_draws_exact_pixels() {
    // Alpha 76 is what an intensity of 0.3 maps to: 0x4C.
    let mut app = App::new(76);
    let r = handle_event(&mut app, Event::Configure { width: 2, height: 1 });
    assert_eq!(app.width, 2);
    assert_eq!(app.height, 1);
    assert!(matches!(app.phase, Phase::Configured));
    match r {
        Action::Present { buffer, ops } => {
            assert_eq!(buffer.width, 2);
            assert_eq!(buffer.height, 1);
            assert_eq!(buffer.stride, 8);
            assert!(buffer.data == vec![0, 0, 0, 0x4C, 0, 0, 0, 0x4C]);
            assert_eq!(ops.len(), 4);
        }
        _ => panic!("a positive configure must draw"),
    }
}

#[test]
fn zero_width_configure_draws_nothing() {
    let mut app = App::new(76);
    let r = handle_event(&mut app, Event::Configure { width: 0, height: 5 });
    assert!(matches!(r, Action::Nothing));
    assert!(app.pool.is_none());
    assert_eq!(app.width, 0);
    assert_eq!(app.height, 5);
}

#[test]
fn zero_height_configure_keeps_pool_unchanged() {
    let mut app = App::new(76);
    let r = handle_event(&mut app, Event::Configure { width: 3, height: 2 });
    assert!(matches!(r, Action::Present { .. }));
    let cap = capacity_of(&app);
    assert_eq!(cap, 24);
    let r = handle_event(&mut app, Event::Configure { width: 3, height: 0 });
    assert!(matches!(r, Action::Nothing));
    assert_eq!(capacity_of(&app), cap);
}

#[test]
fn pool_capacity_never_shrinks() {
    let mut app = App::new(128);
    handle_event(&mut app, Event::Configure { width: 2, height: 2 });
    assert_eq!(capacity_of(&app), 16);
    handle_event(&mut app, Event::Configure { width: 1, height: 1 });
    assert_eq!(capacity_of(&app), 16);
    handle_event(&mut app, Event::Configure { width: 3, height: 3 });
    assert_eq!(capacity_of(&app), 36);
    handle_event(&mut app, Event::Configure { width: 0, height: 0 });
    assert_eq!(capacity_of(&app), 36);
}

#[test]
fn identical_configures_draw_identical_frames() {
    let mut app = App::new(200);
    let first = handle_event(&mut app, Event::Configure { width: 4, height: 3 });
    let second = handle_event(&mut app, Event::Configure { width: 4, height: 3 });
    match (first, second) {
        (
            Action::Present { buffer: a, .. },
            Action::Present { buffer: b, .. },
        ) => {
            assert!(a.data == b.data);
            assert_eq!(a.data.len(), 48);
        }
        _ => panic!("both configures must draw"),
    }
}

#[test]
fn closed_exits_from_any_state() {
    let mut fresh = App::new(76);
    assert!(matches!(handle_event(&mut fresh, Event::Closed), Action::Exit));
    assert!(matches!(fresh.phase, Phase::Closed));

    let mut drawn = App::new(76);
    handle_event(&mut drawn, Event::Configure { width: 2, height: 2 });
    assert!(matches!(handle_event(&mut drawn, Event::Closed), Action::Exit));
    assert!(matches!(drawn.phase, Phase::Closed));
}

#[test]
fn every_commit_is_click_through() {
    let mut app = App::new(76);
    let r = handle_event(&mut app, Event::Configure { width: 4, height: 3 });
    let ops = match r {
        Action::Present { ops, .. } => ops,
        _ => panic!("a positive configure must draw"),
    };
    assert_eq!(ops.len(), 4);
    assert!(matches!(ops[0], SurfaceOp::Attach { x: 0, y: 0 }));
    assert!(matches!(
        ops[1],
        SurfaceOp::Damage { x: 0, y: 0, width: 4, height: 3 }
    ));
    match &ops[2] {
        SurfaceOp::SetInputRegion { region } => assert_eq!(region.rects.len(), 0),
        _ => panic!("the third operation must set the input region"),
    }
    assert!(matches!(ops[3], SurfaceOp::Commit));
}

#[test]
fn output_and_frame_events_change_nothing() {
    let mut app = App::new(76);
    handle_event(&mut app, Event::Configure { width: 2, height: 2 });
    let cap = capacity_of(&app);
    assert!(matches!(handle_event(&mut app, Event::Output), Action::Nothing));
    assert!(matches!(handle_event(&mut app, Event::Frame), Action::Nothing));
    assert_eq!(app.width, 2);
    assert_eq!(app.height, 2);
    assert_eq!(capacity_of(&app), cap);
    assert!(matches!(app.phase, Phase::Configured));
}

#[test]
fn render_alpha_extremes() {
    let pool = BufferPool::new(16);
    let mut buffer = pool.allocate(2, 2);
    render(&mut buffer, 0);
    assert!(buffer.data == vec![0u8; 16]);
    render(&mut buffer, 255);
    let expected: Vec<u8> = vec![
        0, 0, 0, 255, 0, 0, 0, 255, 0, 0, 0, 255, 0, 0, 0, 255,
    ];
    assert!(buffer.data == expected);
}

#[test]
fn ensure_capacity_grows_and_never_shrinks() {
    let mut pool = BufferPool::new(10);
    pool.ensure_capacity(4);
    assert_eq!(pool.capacity, 10);
    pool.ensure_capacity(20);
    assert_eq!(pool.capacity, 20);
    pool.ensure_capacity(20);
    assert_eq!(pool.capacity, 20);
}

#[test]
fn new_app_awaits_configure() {
    let app = App::new(42);
    assert_eq!(app.width, 0);
    assert_eq!(app.height, 0);
    assert_eq!(app.alpha, 42);
    assert!(matches!(app.phase, Phase::AwaitingConfigure));
    assert!(app.pool.is_none());
}
