use samp_timers::callback::{CallbackData, CallbackParam};
use samp_timers::error::TimerError;
use samp_timers::timer::{is_runaway, TaskAction, TaskEvent, Timer, TimerManager, MAX_TIMERS};

fn name(s: &str) -> String {
    s.to_string()
}

#[test]
fn ids_are_positive_and_strictly_increasing() {
    let mut m = TimerManager::new();
    let mut last = 0;
    for i in 0..50 {
        let id = m.create_timer(10 + i, i % 2 == 0, name("OnTick"), None, 0).unwrap();
        assert!(id > 0);
        assert!(id > last);
        last = id;
        if i % 3 == 0 {
            m.kill_timer(id).unwrap();
        }
    }
    // Killing does not free an id for reuse.
    let next = m.create_timer(5, false, name("OnTick"), None, 0).unwrap();
    assert_eq!(next, last + 1);
}

#[test]
fn creation_checks_come_in_order() {
    let mut m = TimerManager::new();
    assert!(matches!(
        m.create_timer(0, false, name("1bad"), None, 0),
        Err(TimerError::InvalidDelay(0))
    ));
    assert!(matches!(
        m.create_timer(-7, false, name("Ok"), None, 0),
        Err(TimerError::InvalidDelay(-7))
    ));
    let mut bad = CallbackData::new();
    bad.params.push(CallbackParam::Float(f32::NAN.to_bits()));
    assert!(matches!(
        m.create_timer(10, false, name("1bad"), Some(bad.clone()), 0),
        Err(TimerError::InvalidCallback(s)) if s == "1bad"
    ));
    assert!(matches!(
        m.create_timer(10, false, name("Good"), Some(bad), 0),
        Err(TimerError::ParameterValidation(_))
    ));
    assert_eq!(m.active_timer_count(), 0);
    assert!(m.create_timer(i32::MAX, true, name("Good"), None, 0).is_ok());
}

#[test]
fn ceiling_yields_resource_exhaustion_and_a_kill_frees_one_slot() {
    let mut m = TimerManager::new();
    let mut ids = Vec::new();
    for _ in 0..MAX_TIMERS {
        ids.push(m.create_timer(1000, true, name("OnTick"), None, 0).unwrap());
    }
    assert_eq!(m.active_timer_count(), 10000);
    let r = m.create_timer(1000, true, name("OnTick"), None, 0);
    assert!(matches!(r, Err(TimerError::ResourceExhaustion(_))));
    assert_eq!(r.unwrap_err().to_error_code(), -10);
    m.kill_timer(ids[17]).unwrap();
    assert_eq!(m.active_timer_count(), 9999);
    assert!(m.create_timer(1000, true, name("OnTick"), None, 0).is_ok());
    assert!(matches!(
        m.create_timer(1000, true, name("OnTick"), None, 0),
        Err(TimerError::ResourceExhaustion(_))
    ));
}

#[test]
fn kill_unknown_and_just_created() {
    let mut m = TimerManager::new();
    assert!(matches!(m.kill_timer(12345), Err(TimerError::TimerNotFound(12345))));
    let id = m.create_timer(100, false, name("OnTick"), None, 0).unwrap();
    let before = m.active_timer_count();
    assert!(m.kill_timer(id).is_ok());
    assert_eq!(m.active_timer_count(), before - 1);
    assert!(matches!(m.kill_timer(id), Err(TimerError::TimerNotFound(_))));
    assert!(m.get_timer_info(id, 0).is_none());
}

#[test]
fn one_shot_fires_once_then_is_gone() {
    let mut m = TimerManager::new();
    let id = m.create_timer(50, false, name("OnOnce"), None, 1000).unwrap();
    let mut runs = 0;
    let mut event = TaskEvent::Started;
    loop {
        match m.timer_step(id, event, 1050) {
            TaskAction::Sleep => event = TaskEvent::Woke,
            TaskAction::Dispatch => {
                runs += 1;
                event = TaskEvent::Ran(true);
            }
            TaskAction::Exit => break,
        }
    }
    assert_eq!(runs, 1);
    assert!(m.get_timer_info(id, 1100).is_none());
    assert_eq!(m.active_timer_count(), 0);
}

#[test]
fn failed_one_shot_also_ends() {
    let mut m = TimerManager::new();
    let id = m.create_timer(50, false, name("OnOnce"), None, 0).unwrap();
    assert_eq!(m.timer_step(id, TaskEvent::Started, 0), TaskAction::Sleep);
    assert_eq!(m.timer_step(id, TaskEvent::Woke, 50), TaskAction::Dispatch);
    assert_eq!(m.timer_step(id, TaskEvent::Ran(false), 50), TaskAction::Exit);
    assert_eq!(m.active_timer_count(), 0);
}

#[test]
fn repeating_timer_fires_repeatedly() {
    let mut m = TimerManager::new();
    let id = m.create_timer(10, true, name("OnRepeat"), None, 0).unwrap();
    let mut now = 0u64;
    let mut runs = 0;
    let mut last_count = 0;
    let mut event = TaskEvent::Started;
    while now < 100 {
        match m.timer_step(id, event, now) {
            TaskAction::Sleep => {
                now += 10;
                event = TaskEvent::Woke;
            }
            TaskAction::Dispatch => {
                runs += 1;
                event = TaskEvent::Ran(true);
            }
            TaskAction::Exit => panic!("a repeating timer must keep going"),
        }
        let count = m.execution_count(id).unwrap();
        assert!(count >= last_count);
        last_count = count;
    }
    assert!(runs > 1);
    assert_eq!(m.execution_count(id), Some(runs));
    // A failed run does not count and does not stop the timer.
    assert_eq!(m.timer_step(id, TaskEvent::Ran(false), now), TaskAction::Sleep);
    assert_eq!(m.execution_count(id), Some(runs));
}

#[test]
fn killed_timer_task_ends_without_running() {
    let mut m = TimerManager::new();
    let id = m.create_timer(10, true, name("OnRepeat"), None, 0).unwrap();
    assert_eq!(m.timer_step(id, TaskEvent::Started, 0), TaskAction::Sleep);
    m.kill_timer(id).unwrap();
    assert_eq!(m.timer_step(id, TaskEvent::Woke, 10), TaskAction::Exit);
    assert_eq!(m.active_timer_count(), 0);

    let id = m.create_timer(10, true, name("OnRepeat"), None, 0).unwrap();
    assert_eq!(m.timer_step(id, TaskEvent::Woke, 10), TaskAction::Dispatch);
    m.kill_timer(id).unwrap();
    assert_eq!(m.timer_step(id, TaskEvent::Ran(true), 10), TaskAction::Exit);
    assert_eq!(m.active_timer_count(), 0);
}

#[test]
fn timer_info_reports_elapsed_time() {
    let mut m = TimerManager::new();
    let id = m.create_timer(250, true, name("OnInfo"), None, 1000).unwrap();
    let (delay, repeat, cb, elapsed) = m.get_timer_info(id, 1600).unwrap();
    assert_eq!(delay, 250);
    assert!(repeat);
    assert_eq!(cb, "OnInfo");
    assert_eq!(elapsed, 600);
    assert_eq!(m.get_timer_info(id, 500).unwrap().3, 0);
    assert!(m.get_timer_info(id + 1, 1600).is_none());
    assert_eq!(m.execution_count(id), Some(0));
}

#[test]
fn shutdown_is_idempotent_and_final() {
    let mut m = TimerManager::new();
    for _ in 0..250 {
        m.create_timer(100, true, name("OnTick"), None, 0).unwrap();
    }
    m.shutdown();
    assert_eq!(m.active_timer_count(), 0);
    m.shutdown();
    assert_eq!(m.active_timer_count(), 0);
    assert!(matches!(
        m.create_timer(100, true, name("OnTick"), None, 0),
        Err(TimerError::SystemShutdown)
    ));
    assert!(m.begin_shutdown().is_none());
}

#[test]
fn shutdown_in_batches() {
    let mut m = TimerManager::new();
    let mut ids = Vec::new();
    for _ in 0..230 {
        ids.push(m.create_timer(100, false, name("OnTick"), None, 0).unwrap());
    }
    let listed = m.begin_shutdown().unwrap();
    assert_eq!(listed.len(), 230);
    assert!(matches!(
        m.create_timer(100, true, name("OnTick"), None, 0),
        Err(TimerError::SystemShutdown)
    ));
    // A task that wakes during a shutdown ends and cleans up after itself.
    assert_eq!(m.timer_step(ids[0], TaskEvent::Woke, 100), TaskAction::Exit);
    assert_eq!(m.active_timer_count(), 229);
    let mut drained = 0;
    for chunk in listed.chunks(100) {
        drained += m.drain_timers(&chunk.to_vec());
    }
    assert_eq!(drained, 229);
    assert_eq!(m.active_timer_count(), 0);
    m.complete_shutdown();
    assert_eq!(m.active_timer_count(), 0);
    assert!(m.begin_shutdown().is_none());
}

#[test]
fn attached_task_is_aborted_on_kill() {
    let rt = tokio::runtime::Builder::new_multi_thread()
        .worker_threads(1)
        .enable_all()
        .build()
        .unwrap();
    let mut m = TimerManager::new();
    let id = m.create_timer(100, true, name("OnTick"), None, 0).unwrap();
    let handle = rt.spawn(async {
        tokio::time::sleep(std::time::Duration::from_secs(3600)).await;
    });
    let watcher = handle.abort_handle();
    assert!(m.attach_task(id, handle));
    m.kill_timer(id).unwrap();
    rt.block_on(async { tokio::time::sleep(std::time::Duration::from_millis(50)).await });
    assert!(watcher.is_finished());
    let late = rt.spawn(async {});
    assert!(!m.attach_task(id, late));
}

#[test]
fn mark_execution_counts_and_stamps() {
    let mut t = Timer::new(3, 20, true, name("OnMark"), None, 7);
    assert_eq!(t.execution_count, 0);
    assert!(t.last_execution.is_none());
    t.mark_execution(30);
    t.mark_execution(50);
    assert_eq!(t.execution_count, 2);
    assert_eq!(t.last_execution, Some(50));
    assert_eq!(t.delay_ms, 20);
    assert_eq!(t.created_at, 7);
}

#[test]
fn runaway_threshold() {
    assert!(!is_runaway(1_000_000));
    assert!(is_runaway(1_000_001));
}
