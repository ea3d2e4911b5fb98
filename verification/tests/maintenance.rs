use admission_gate::maintenance::TICKS_PER_CLEANUP;
use admission_gate::{TaskAction, TaskEvent, TaskState};

#[test]
fn task_starts_running_with_no_tick_counted() {
    assert_eq!(TaskState::start(), TaskState::Running { ticks: 0 });
    assert!(!TaskState::start().is_stopped());
    assert!(TaskState::Stopped.is_stopped());
    assert_eq!(TICKS_PER_CLEANUP, 10);
}

#[test]
fn every_tenth_tick_cleans() {
    let mut state = TaskState::start();
    for tick in 1..=35u32 {
        let (next, action) = state.step(TaskEvent::Tick);
        if tick % 10 == 0 {
            assert_eq!(action, TaskAction::Cleanup);
        } else {
            assert_eq!(action, TaskAction::Wait);
        }
        assert_eq!(
            next,
            TaskState::Running {
                ticks: (tick % 10) as u8
            }
        );
        state = next;
    }
}

#[test]
fn cancellation_stops_the_task() {
    for ticks in 0..10u8 {
        let (next, action) = TaskState::Running { ticks }.step(TaskEvent::Cancelled);
        assert_eq!(next, TaskState::Stopped);
        assert_eq!(action, TaskAction::Stop);
    }
}

#[test]
fn stopped_task_does_not_restart() {
    assert_eq!(
        TaskState::Stopped.step(TaskEvent::Tick),
        (TaskState::Stopped, TaskAction::Stop)
    );
    assert_eq!(
        TaskState::Stopped.step(TaskEvent::Cancelled),
        (TaskState::Stopped, TaskAction::Stop)
    );
}

#[test]
fn tick_count_out_of_range_comes_back_into_range() {
    assert_eq!(
        TaskState::Running { ticks: 255 }.step(TaskEvent::Tick),
        (TaskState::Running { ticks: 6 }, TaskAction::Wait)
    );
    assert_eq!(
        TaskState::Running { ticks: 19 }.step(TaskEvent::Tick),
        (TaskState::Running { ticks: 0 }, TaskAction::Cleanup)
    );
}
