use hibana_pico::choreography::protocol::TimerSleepUntil;
use hibana_pico::kernel::device::timer::{TimerError, TimerSleepTable};

#[test]
fn sleep_request_polls_when_tick_is_reached() {
    let mut timers: TimerSleepTable<2> = TimerSleepTable::new();
    let id = timers.request_sleep(TimerSleepUntil::new(10)).expect("schedule sleep");
    assert_eq!(id.raw(), 1);
    assert_eq!(timers.poll(9), None);
    assert_eq!(timers.poll(10).expect("sleep ready").tick(), TimerSleepUntil::new(10).tick());
    assert_eq!(timers.poll(11), None);
}

#[test]
fn sleep_table_rejects_when_full() {
    let mut timers: TimerSleepTable<1> = TimerSleepTable::new();
    timers.request_sleep(TimerSleepUntil::new(10)).expect("schedule first sleep");
    assert_eq!(timers.request_sleep(TimerSleepUntil::new(11)), Err(TimerError::TableFull));
}

#[test]
fn earliest_due_sleep_is_delivered_first_and_cancel_removes_a_sleep() {
    let mut timers: TimerSleepTable<3> = TimerSleepTable::new();
    let late = timers.request_sleep(TimerSleepUntil::new(30)).expect("late");
    timers.request_sleep(TimerSleepUntil::new(20)).expect("early");
    assert_eq!(timers.poll(40).expect("first").tick(), 20);
    timers.cancel(late).expect("cancel late");
    assert_eq!(timers.poll(40), None);
    assert_eq!(timers.cancel(late), Err(TimerError::UnknownSleepId));
}
