use nvim_api_helper::async_dispatch::{
    complete_work, get_dispatcher, init_dispatcher, report_signal, result_of, submit, take_work,
    Dispatcher, Error, Registry, Stage,
};
use std::cell::Cell;
use std::rc::Rc;

type Work = Box<dyn FnOnce() -> String>;

/// Runs one complete dispatch of `work`, the way the caller and the owner thread
/// take turns, and gives the caller's result.
fn round_trip(registry: &mut Registry<Dispatcher<Work, u32>>, work: Work) -> Result<String, Error> {
    submit(registry, work)?;
    report_signal(registry, true)?;
    let result = take_work(registry).map(|w| w());
    complete_work(registry);
    result_of(result)
}

#[test]
fn three_dispatches_each_get_their_own_result() {
    let mut registry: Registry<Dispatcher<Work, u32>> = Registry::new();
    assert!(init_dispatcher(&mut registry, 7));

    let running = Rc::new(Cell::new(0u32));
    let most = Rc::new(Cell::new(0u32));
    let runs = Rc::new(Cell::new(0u32));
    let mut results = Vec::new();
    for tag in ["a", "b", "c"] {
        let (running, most, runs) = (running.clone(), most.clone(), runs.clone());
        let work: Work = Box::new(move || {
            running.set(running.get() + 1);
            most.set(most.get().max(running.get()));
            running.set(running.get() - 1);
            runs.set(runs.get() + 1);
            tag.to_string()
        });
        results.push(round_trip(&mut registry, work));
    }
    assert_eq!(results, vec![Ok("a".to_string()), Ok("b".to_string()), Ok("c".to_string())]);
    assert_eq!(most.get(), 1);
    assert_eq!(runs.get(), 3);
    assert_eq!(get_dispatcher(&registry).unwrap().stage(), Stage::Idle);
}

#[test]
fn dispatch_before_init_fails_without_effect() {
    let mut registry: Registry<Dispatcher<Work, u32>> = Registry::new();
    let ran = Rc::new(Cell::new(false));
    let flag = ran.clone();
    let work: Work = Box::new(move || {
        flag.set(true);
        String::new()
    });
    assert_eq!(submit(&mut registry, work), Err(Error::NotInitialized));
    assert!(!registry.is_installed());
    assert!(take_work(&mut registry).is_none());
    assert!(!ran.get());
    assert!(matches!(get_dispatcher(&registry), Err(Error::NotInitialized)));
}

#[test]
fn first_init_wins() {
    let mut registry: Registry<Dispatcher<Work, u32>> = Registry::new();
    assert!(init_dispatcher(&mut registry, 1));
    assert!(!init_dispatcher(&mut registry, 2));
    assert!(!init_dispatcher(&mut registry, 3));
    assert_eq!(*get_dispatcher(&registry).unwrap().handle(), 1);

    let mut values = Registry::new();
    assert!(values.install("first"));
    assert!(!values.install("second"));
    assert_eq!(values.get(), Ok(&"first"));
}

#[test]
fn failed_signal_withdraws_the_work() {
    let mut registry: Registry<Dispatcher<Work, u32>> = Registry::new();
    init_dispatcher(&mut registry, 0);
    submit(&mut registry, Box::new(|| "x".to_string())).unwrap();
    assert_eq!(report_signal(&mut registry, false), Err(Error::SignalFailure));
    let d = get_dispatcher(&registry).unwrap();
    assert!(d.is_empty());
    assert_eq!(d.stage(), Stage::Idle);
    assert!(take_work(&mut registry).is_none());
    // The bridge takes the next dispatch.
    assert_eq!(round_trip(&mut registry, Box::new(|| "y".to_string())), Ok("y".to_string()));
}

#[test]
fn dropped_sender_cancels_the_result() {
    assert_eq!(result_of::<String>(None), Err(Error::ResultCanceled));
    assert_eq!(result_of(Some(5)), Ok(5));
}

#[test]
fn canceled_caller_still_runs_its_work() {
    let mut registry: Registry<Dispatcher<Work, u32>> = Registry::new();
    init_dispatcher(&mut registry, 0);
    submit(&mut registry, Box::new(|| "x".to_string())).unwrap();
    report_signal(&mut registry, true).unwrap();
    // The caller stops waiting; the owner thread still runs the work.
    let ran = take_work(&mut registry).map(|w| w());
    assert_eq!(ran, Some("x".to_string()));
    complete_work(&mut registry);
    let d = get_dispatcher(&registry).unwrap();
    assert!(d.is_empty());
    assert_eq!(d.stage(), Stage::Idle);
}

#[test]
fn no_second_work_while_one_runs() {
    let mut d: Dispatcher<u32, ()> = Dispatcher::new(());
    assert_eq!(d.store(1), Ok(()));
    assert_eq!(d.stage(), Stage::Pending);
    assert_eq!(d.store(2), Err(Error::SlotOccupied));
    assert_eq!(d.take(), Some(1));
    assert_eq!(d.stage(), Stage::Running);
    assert_eq!(d.take(), None);
    assert_eq!(d.store(3), Err(Error::SlotOccupied));
    assert_eq!(d.report_signal(false), Err(Error::SignalFailure));
    assert_eq!(d.stage(), Stage::Running);
    d.complete();
    assert_eq!(d.stage(), Stage::Idle);
    assert_eq!(d.store(4), Ok(()));
    assert_eq!(d.take(), Some(4));
}

#[test]
fn wake_without_work_finds_nothing() {
    let mut d: Dispatcher<u32, ()> = Dispatcher::new(());
    assert_eq!(d.take(), None);
    assert_eq!(d.stage(), Stage::Idle);
}
