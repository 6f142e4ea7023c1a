use repo_browser::ui::App;
use repo_browser::ui::KeyInput;
use repo_browser::ui::LoopState;
use repo_browser::ui::TickTimer;

fn app_with(labels: &[&str]) -> App {
    let mut v: Vec<String> = Vec::new();
    for l in labels {
        v.push(l.to_string());
    }
    App::new(v)
}

#[test]
fn quit_key_moves_the_loop_to_exiting() {
    // Quit mid-session: the loop state becomes Exiting and the selection
    // is left as it was.
    let mut app = app_with(&["repo-a", "repo-b"]);
    app.items.next();
    let s = app.handle_key(KeyInput::Quit);
    assert_eq!(s, LoopState::Exiting);
    assert_eq!(app.items.selected(), Some(0));
}

#[test]
fn arrow_keys_navigate_and_keep_the_loop_running() {
    let mut app = app_with(&["repo-a", "repo-b", "repo-c"]);
    assert_eq!(app.handle_key(KeyInput::Down), LoopState::Running);
    assert_eq!(app.items.selected(), Some(0));
    assert_eq!(app.handle_key(KeyInput::Down), LoopState::Running);
    assert_eq!(app.items.selected(), Some(1));
    assert_eq!(app.handle_key(KeyInput::Up), LoopState::Running);
    assert_eq!(app.items.selected(), Some(0));
    assert_eq!(app.handle_key(KeyInput::Left), LoopState::Running);
    assert_eq!(app.items.selected(), None);
}

#[test]
fn other_keys_are_ignored() {
    let mut app = app_with(&["repo-a"]);
    app.items.next();
    assert_eq!(app.handle_key(KeyInput::Other), LoopState::Running);
    assert_eq!(app.items.selected(), Some(0));
}

#[test]
fn on_tick_leaves_the_state_unchanged() {
    let mut app = app_with(&["repo-a", "repo-b"]);
    app.items.next();
    app.on_tick();
    assert_eq!(app.items.selected(), Some(0));
    assert_eq!(app.items.len(), 2);
}

#[test]
fn poll_budget_counts_down_to_the_next_tick() {
    let timer = TickTimer::new(500, 0);
    assert_eq!(timer.poll_budget(0), 500);
    assert_eq!(timer.poll_budget(200), 300);
    assert_eq!(timer.poll_budget(500), 0);
    assert_eq!(timer.poll_budget(700), 0);
}

#[test]
fn tick_fires_only_when_a_full_interval_has_elapsed() {
    let mut timer = TickTimer::new(500, 0);
    assert!(!timer.try_tick(499));
    assert!(timer.try_tick(500));
    assert!(!timer.try_tick(999));
    assert!(timer.try_tick(1000));
}

#[test]
fn idle_session_ticks_twice_within_1200ms() {
    // Tick rate 500 ms, no input for 1200 ms of wall time: the loop polls
    // for the full budget each round, so ticks fire at 500 ms and 1000 ms —
    // at least twice and never zero times.
    let mut timer = TickTimer::new(500, 0);
    let mut app = app_with(&["repo-a"]);
    let mut now: u64 = 0;
    let mut ticks: u64 = 0;
    while now < 1200 {
        let budget = timer.poll_budget(now);
        // No input arrives, so the poll waits out its whole budget (a zero
        // budget still advances time to the next loop iteration).
        now += budget.max(1);
        if now > 1200 {
            break;
        }
        if timer.try_tick(now) {
            app.on_tick();
            ticks += 1;
        }
    }
    assert!(ticks >= 2);
    assert!(ticks <= 3);
    assert_eq!(ticks, 2);
}
