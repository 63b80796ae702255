use wgpu::TextureFormat;
use xapp::context::{InputEvent, LoopAction, LoopEvent, LoopPhase, LoopPolicy, LoopStep};
use xapp::pipeline::PipelineDescriptor;
use xapp::render::{frame_commands, RenderCommand};
use xapp::surface::{SurfaceConfiguration, WindowSize};
use xapp::vertex::vertices;
use xapp::XApp;

fn config() -> SurfaceConfiguration {
    SurfaceConfiguration::new(TextureFormat::Bgra8UnormSrgb, WindowSize { width: 800, height: 600 })
}

fn desktop_debug() -> LoopPolicy {
    LoopPolicy::for_build(true, false)
}

fn mobile_release() -> LoopPolicy {
    LoopPolicy::for_build(false, true)
}

fn app_in(phase: LoopPhase, policy: LoopPolicy) -> XApp {
    let mut app = XApp::new(config(), policy);
    app.phase = phase;
    app
}

/// An application whose loop has opened the event queue.
fn running(policy: LoopPolicy) -> XApp {
    match XApp::new(config(), policy).run(LoopEvent::QueueOpened) {
        LoopStep::Continue(app, LoopAction::PollEvent) => app,
        other => panic!("the loop did not start: {:?}", other),
    }
}

const PHASES: [LoopPhase; 4] =
    [LoopPhase::Starting, LoopPhase::Polling, LoopPhase::Rendering, LoopPhase::Reacquiring];

/// Feeds the events to the loop one by one and collects what it asks for,
/// until the loop ends or the events run out.
fn drive(mut app: XApp, events: Vec<LoopEvent>) -> (Vec<LoopAction>, Option<Result<(), String>>) {
    let mut actions = Vec::new();
    for event in events {
        match app.run(event) {
            LoopStep::Continue(next, action) => {
                actions.push(action);
                app = next;
            }
            LoopStep::Exit(result) => return (actions, Some(result)),
        }
    }
    (actions, None)
}

#[test]
fn policy_follows_the_build() {
    assert_eq!(
        LoopPolicy::for_build(true, false),
        LoopPolicy { verbose_logging: true, supports_resume_reacquire: false, escape_key_quits: true }
    );
    assert_eq!(
        LoopPolicy::for_build(false, false),
        LoopPolicy {
            verbose_logging: false,
            supports_resume_reacquire: false,
            escape_key_quits: false
        }
    );
    assert_eq!(
        LoopPolicy::for_build(true, true),
        LoopPolicy { verbose_logging: true, supports_resume_reacquire: true, escape_key_quits: false }
    );
    assert_eq!(
        LoopPolicy::for_build(false, true),
        LoopPolicy { verbose_logging: false, supports_resume_reacquire: true, escape_key_quits: false }
    );
}

#[test]
fn new_application_agrees_with_its_configuration() {
    let app = XApp::new(config(), desktop_debug());
    assert_eq!(app.config, config());
    assert_eq!(app.surface_format, TextureFormat::Bgra8UnormSrgb);
    assert_eq!(app.window_width, 800);
    assert_eq!(app.window_height, 600);
    assert_eq!(app.pipeline, PipelineDescriptor::new(TextureFormat::Bgra8UnormSrgb));
    assert_eq!(app.vertex_buffer, vertices());
    assert_eq!(app.surface_binding, 0);
    assert_eq!(app.policy, desktop_debug());
    assert_eq!(app.phase, LoopPhase::Starting);
    assert_eq!(app.action(), LoopAction::OpenEventQueue);
}

#[test]
fn loop_polls_once_the_event_queue_is_open() {
    let step = XApp::new(config(), desktop_debug()).run(LoopEvent::QueueOpened);
    assert_eq!(
        step,
        LoopStep::Continue(app_in(LoopPhase::Polling, desktop_debug()), LoopAction::PollEvent)
    );
}

#[test]
fn loop_that_cannot_open_the_event_queue_fails() {
    let step = XApp::new(config(), desktop_debug()).run(LoopEvent::Failed("no events".to_string()));
    assert_eq!(step, LoopStep::Exit(Err("no events".to_string())));
}

#[test]
fn loop_waits_for_what_its_phase_says() {
    assert_eq!(app_in(LoopPhase::Starting, desktop_debug()).action(), LoopAction::OpenEventQueue);
    assert_eq!(app_in(LoopPhase::Polling, desktop_debug()).action(), LoopAction::PollEvent);
    assert_eq!(app_in(LoopPhase::Rendering, desktop_debug()).action(), LoopAction::Render);
    assert_eq!(
        app_in(LoopPhase::Reacquiring, desktop_debug()).action(),
        LoopAction::ReacquireSurface
    );
}

#[test]
fn quit_ends_the_loop_in_every_phase() {
    for phase in PHASES {
        for policy in [desktop_debug(), mobile_release(), LoopPolicy::for_build(false, false)] {
            let step = app_in(phase, policy).run(LoopEvent::Input(InputEvent::Quit));
            assert_eq!(step, LoopStep::Exit(Ok(())));
        }
    }
}

#[test]
fn no_frame_is_rendered_after_a_quit() {
    let events = vec![
        LoopEvent::Input(InputEvent::Other),
        LoopEvent::QueueEmpty,
        LoopEvent::FramePresented,
        LoopEvent::Input(InputEvent::Quit),
        LoopEvent::QueueEmpty,
        LoopEvent::FramePresented,
        LoopEvent::QueueEmpty,
    ];
    let (actions, result) = drive(running(desktop_debug()), events);
    assert_eq!(actions, vec![LoopAction::PollEvent, LoopAction::Render, LoopAction::PollEvent]);
    assert_eq!(result, Some(Ok(())));
}

#[test]
fn quit_before_the_first_frame_renders_nothing() {
    let events = vec![LoopEvent::Input(InputEvent::Quit), LoopEvent::QueueEmpty];
    let (actions, result) = drive(running(desktop_debug()), events);
    assert!(actions.is_empty());
    assert_eq!(result, Some(Ok(())));
}

#[test]
fn quit_among_pending_events_skips_the_frame() {
    let events = vec![
        LoopEvent::Input(InputEvent::Other),
        LoopEvent::Input(InputEvent::Other),
        LoopEvent::Input(InputEvent::Quit),
        LoopEvent::Input(InputEvent::Other),
        LoopEvent::QueueEmpty,
    ];
    let (actions, result) = drive(running(mobile_release()), events);
    assert_eq!(actions, vec![LoopAction::PollEvent, LoopAction::PollEvent]);
    assert!(!actions.contains(&LoopAction::Render));
    assert_eq!(result, Some(Ok(())));
}

#[test]
fn one_frame_is_rendered_when_no_input_is_pending() {
    let events = vec![
        LoopEvent::Input(InputEvent::Other),
        LoopEvent::Input(InputEvent::Other),
        LoopEvent::QueueEmpty,
        LoopEvent::FramePresented,
        LoopEvent::QueueEmpty,
        LoopEvent::FramePresented,
    ];
    let (actions, result) = drive(running(desktop_debug()), events);
    assert_eq!(
        actions,
        vec![
            LoopAction::PollEvent,
            LoopAction::PollEvent,
            LoopAction::Render,
            LoopAction::PollEvent,
            LoopAction::Render,
            LoopAction::PollEvent,
        ]
    );
    assert_eq!(result, None);
}

#[test]
fn escape_quits_where_the_policy_says_so() {
    let step = running(desktop_debug()).run(LoopEvent::Input(InputEvent::EscapeKeyDown));
    assert_eq!(step, LoopStep::Exit(Ok(())));
}

#[test]
fn escape_is_ignored_where_the_policy_says_so() {
    for policy in [mobile_release(), LoopPolicy::for_build(false, false)] {
        let step = running(policy).run(LoopEvent::Input(InputEvent::EscapeKeyDown));
        assert_eq!(step, LoopStep::Continue(running(policy), LoopAction::PollEvent));
    }
}

#[test]
fn escape_policy_can_be_set_by_hand() {
    let policy =
        LoopPolicy { verbose_logging: false, supports_resume_reacquire: false, escape_key_quits: true };
    let step = running(policy).run(LoopEvent::Input(InputEvent::EscapeKeyDown));
    assert_eq!(step, LoopStep::Exit(Ok(())));
}

#[test]
fn other_input_changes_nothing() {
    for phase in PHASES {
        let step = app_in(phase, desktop_debug()).run(LoopEvent::Input(InputEvent::Other));
        let same = app_in(phase, desktop_debug());
        let action = same.action();
        assert_eq!(step, LoopStep::Continue(same, action));
    }
}

#[test]
fn failed_frame_ends_the_loop_with_its_message() {
    for phase in PHASES {
        let step = app_in(phase, desktop_debug()).run(LoopEvent::Failed("Outdated".to_string()));
        assert_eq!(step, LoopStep::Exit(Err("Outdated".to_string())));
    }
}

#[test]
fn failed_frame_stops_further_frames() {
    let events = vec![
        LoopEvent::QueueEmpty,
        LoopEvent::FramePresented,
        LoopEvent::QueueEmpty,
        LoopEvent::Failed("Timeout".to_string()),
        LoopEvent::QueueEmpty,
    ];
    let (actions, result) = drive(running(desktop_debug()), events);
    assert_eq!(
        actions,
        vec![LoopAction::Render, LoopAction::PollEvent, LoopAction::Render]
    );
    assert_eq!(result, Some(Err("Timeout".to_string())));
}

#[test]
fn return_to_foreground_reacquires_the_surface_on_mobile() {
    let step = running(mobile_release()).run(LoopEvent::Input(InputEvent::AppWillEnterForeground));
    assert_eq!(
        step,
        LoopStep::Continue(
            app_in(LoopPhase::Reacquiring, mobile_release()),
            LoopAction::ReacquireSurface
        )
    );
}

#[test]
fn return_to_foreground_is_ignored_elsewhere() {
    let step = running(desktop_debug()).run(LoopEvent::Input(InputEvent::AppWillEnterForeground));
    assert_eq!(step, LoopStep::Continue(running(desktop_debug()), LoopAction::PollEvent));
}

#[test]
fn resume_keeps_pipeline_and_vertex_buffer() {
    let events = vec![
        LoopEvent::Input(InputEvent::AppWillEnterForeground),
        LoopEvent::SurfaceReacquired,
    ];
    let mut app = running(mobile_release());
    for event in events {
        app = match app.run(event) {
            LoopStep::Continue(next, _) => next,
            LoopStep::Exit(result) => panic!("the loop ended: {:?}", result),
        };
    }
    let before = XApp::new(config(), mobile_release());
    assert_eq!(app.pipeline, before.pipeline);
    assert_eq!(app.vertex_buffer, before.vertex_buffer);
    assert_eq!(app.config, before.config);
    assert_eq!(app.surface_format, before.surface_format);
    assert_ne!(app.surface_binding, before.surface_binding);
    assert_eq!(app.surface_binding, 1);
    assert_eq!(app.phase, LoopPhase::Polling);
}

#[test]
fn resume_does_not_end_the_loop() {
    let events = vec![
        LoopEvent::Input(InputEvent::AppWillEnterForeground),
        LoopEvent::SurfaceReacquired,
        LoopEvent::QueueEmpty,
    ];
    let (actions, result) = drive(running(mobile_release()), events);
    assert_eq!(
        actions,
        vec![LoopAction::ReacquireSurface, LoopAction::PollEvent, LoopAction::Render]
    );
    assert_eq!(result, None);
}

#[test]
fn failed_resume_ends_the_loop_with_its_message() {
    let events = vec![
        LoopEvent::Input(InputEvent::AppWillEnterForeground),
        LoopEvent::Failed("no surface".to_string()),
        LoopEvent::QueueEmpty,
    ];
    let (actions, result) = drive(running(mobile_release()), events);
    assert_eq!(actions, vec![LoopAction::ReacquireSurface]);
    assert_eq!(result, Some(Err("no surface".to_string())));
}

#[test]
fn handle_resume_gives_a_new_binding_each_time() {
    let app = XApp::new(config(), mobile_release());
    let once = app.handle_resume();
    assert_eq!(once.surface_binding, 1);
    let twice = once.handle_resume();
    assert_eq!(twice.surface_binding, 2);
    assert_eq!(twice.pipeline, PipelineDescriptor::new(TextureFormat::Bgra8UnormSrgb));
    assert_eq!(twice.vertex_buffer, vertices());
    assert_eq!(twice.phase, LoopPhase::Starting);
}

#[test]
fn binding_wraps_round_to_a_new_one() {
    let mut app = XApp::new(config(), mobile_release());
    app.surface_binding = u64::MAX;
    let resumed = app.handle_resume();
    assert_eq!(resumed.surface_binding, 0);
}

#[test]
fn reports_out_of_turn_change_nothing() {
    let cases = [
        (LoopPhase::Starting, LoopEvent::QueueEmpty),
        (LoopPhase::Starting, LoopEvent::FramePresented),
        (LoopPhase::Starting, LoopEvent::Input(InputEvent::AppWillEnterForeground)),
        (LoopPhase::Polling, LoopEvent::QueueOpened),
        (LoopPhase::Polling, LoopEvent::FramePresented),
        (LoopPhase::Polling, LoopEvent::SurfaceReacquired),
        (LoopPhase::Rendering, LoopEvent::QueueEmpty),
        (LoopPhase::Rendering, LoopEvent::SurfaceReacquired),
        (LoopPhase::Rendering, LoopEvent::Input(InputEvent::AppWillEnterForeground)),
        (LoopPhase::Reacquiring, LoopEvent::QueueEmpty),
        (LoopPhase::Reacquiring, LoopEvent::FramePresented),
    ];
    for (phase, event) in cases {
        let step = app_in(phase, mobile_release()).run(event);
        let same = app_in(phase, mobile_release());
        let action = same.action();
        assert_eq!(step, LoopStep::Continue(same, action));
    }
}

#[test]
fn render_lists_the_frame_when_an_image_was_acquired() {
    let app = XApp::new(config(), desktop_debug());
    assert_eq!(app.render(Ok(())), Ok(frame_commands(3)));
}

#[test]
fn render_submits_once_and_presents_once_in_that_order() {
    let app = XApp::new(config(), desktop_debug());
    let commands = app.render(Ok(())).unwrap();
    let submits: Vec<usize> =
        (0..commands.len()).filter(|&k| commands[k] == RenderCommand::Submit).collect();
    let presents: Vec<usize> =
        (0..commands.len()).filter(|&k| commands[k] == RenderCommand::Present).collect();
    assert_eq!(submits.len(), 1);
    assert_eq!(presents.len(), 1);
    assert!(submits[0] < presents[0]);
}

#[test]
fn render_draws_the_three_vertices_once() {
    let app = XApp::new(config(), desktop_debug());
    let commands = app.render(Ok(())).unwrap();
    let draws: Vec<&RenderCommand> = commands
        .iter()
        .filter(|command| matches!(command, RenderCommand::Draw { .. }))
        .collect();
    assert_eq!(
        draws,
        vec![&RenderCommand::Draw {
            first_vertex: 0,
            end_vertex: 3,
            first_instance: 0,
            end_instance: 1
        }]
    );
}

#[test]
fn render_hands_on_the_error_of_the_surface() {
    let app = XApp::new(config(), desktop_debug());
    assert_eq!(app.render(Err("Lost".to_string())), Err("Lost".to_string()));
}
