use rumato::app::app_timer::Status;
use rumato::app::{Settings, TemplateApp};
use rumato::instant::Instant;

fn at(secs: i64) -> Instant {
    Instant { secs, nanos: 0 }
}

#[test]
fn settings_are_moved_into_their_bounds() {
    let low = Settings::new(0, 0);
    assert_eq!((low.working_time(), low.rest_time()), (25, 5));
    let high = Settings::new(46, 16);
    assert_eq!((high.working_time(), high.rest_time()), (45, 15));
    let kept = Settings::new(30, 10);
    assert_eq!((kept.working_time(), kept.rest_time()), (30, 10));
    let edges = Settings::new(25, 15);
    assert_eq!((edges.working_time(), edges.rest_time()), (25, 15));
    let edges = Settings::new(45, 5);
    assert_eq!((edges.working_time(), edges.rest_time()), (45, 5));
    let mixed = Settings::new(u32::MAX, 4);
    assert_eq!((mixed.working_time(), mixed.rest_time()), (45, 5));
}

#[test]
fn default_host_has_the_shortest_lengths() {
    let app = TemplateApp::default();
    assert_eq!(app.working_time(), 25);
    assert_eq!(app.rest_time(), 5);
    assert_eq!(app.timer().status(), Status::Ready);
    assert_eq!(app.timer().working_time(), 0);
    assert_eq!(app.timer().time(), 0);
    assert_eq!(app.timer().started_at(), app.timer().finished_at());
}

#[test]
fn setup_hands_the_timer_seconds() {
    let mut app = TemplateApp::created_at(at(1_000));
    app.setup();
    assert_eq!(app.timer().working_time(), 1_500);
    assert_eq!(app.timer().rest_time(), 300);
    app.set_times(45, 15);
    assert_eq!(app.working_time(), 45);
    assert_eq!(app.rest_time(), 15);
    assert_eq!(app.timer().working_time(), 1_500);
    app.setup();
    assert_eq!(app.timer().working_time(), 2_700);
    assert_eq!(app.timer().rest_time(), 900);
    assert_eq!(app.timer().status(), Status::Ready);
}

#[test]
fn update_tells_what_to_draw() {
    let mut app = TemplateApp::created_at(at(1_000));
    app.setup();
    let ready = app.update_at(at(1_001));
    assert_eq!(ready.text, "Ready");
    assert_eq!((ready.minutes, ready.seconds), (25, 0));
    assert_eq!(ready.finish_time, None);

    app.set_times(30, 10);
    app.next_at(at(2_000));
    let working = app.update_at(at(2_061));
    assert_eq!(working.text, "Working");
    assert_eq!((working.minutes, working.seconds), (28, 59));
    assert_eq!(working.finish_time, Some(at(3_800)));

    let done = app.update_at(at(3_800));
    assert_eq!(done.text, "Working");
    assert_eq!((done.minutes, done.seconds), (0, 0));
    assert_eq!(done.finish_time, None);
    assert_eq!(app.timer().status(), Status::Finished);

    let finished = app.update_at(at(3_801));
    assert_eq!(finished.text, "Finished");
    assert_eq!((finished.minutes, finished.seconds), (0, 0));
    assert_eq!(finished.finish_time, None);

    app.next_at(at(4_000));
    let relaxing = app.update_at(at(4_001));
    assert_eq!(relaxing.text, "Relax");
    assert_eq!((relaxing.minutes, relaxing.seconds), (9, 59));
    assert_eq!(relaxing.finish_time, Some(at(4_600)));

    app.next_at(at(4_100));
    let again = app.update_at(at(4_101));
    assert_eq!(again.text, "Ready");
    assert_eq!((again.minutes, again.seconds), (30, 0));
    assert_eq!(again.finish_time, None);
}

#[test]
fn readout_repeats_without_a_tick() {
    let mut app = TemplateApp::created_at(at(0));
    app.next_at(at(10));
    let drawn = app.update_at(at(75));
    let again = app.readout();
    assert_eq!(again.text, drawn.text);
    assert_eq!((again.minutes, again.seconds), (23, 55));
    assert_eq!((drawn.minutes, drawn.seconds), (23, 55));
    assert_eq!(again.finish_time, Some(at(1_510)));
}

#[test]
fn clocked_host_runs_a_work_phase() {
    let mut app = TemplateApp::default();
    app.setup();
    let ready = app.update();
    assert_eq!(ready.text, "Ready");
    assert_eq!((ready.minutes, ready.seconds), (25, 0));
    app.next();
    let working = app.update();
    assert_eq!(working.text, "Working");
    assert_eq!(app.timer().status(), Status::Working);
    assert_eq!(working.finish_time, Some(app.timer().started_at().after_seconds(1_500)));
    assert!(working.minutes == 25 || working.minutes == 24);
}
