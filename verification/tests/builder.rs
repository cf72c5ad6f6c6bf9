use simp_worker::SimpBuilder;
use std::cell::Cell;
use std::cell::RefCell;
use std::rc::Rc;

fn concat((left, right): (&str, &str)) -> String {
    format!("{left}{right}")
}

#[test]
fn register_keeps_the_limit_and_the_job() {
    let builder = SimpBuilder::register(5, concat);
    assert_eq!(builder.max_threads(), 5);
    assert_eq!(builder.run_job(("Hello", "There")), "HelloThere");
}

#[test]
fn without_a_hook_the_output_is_the_job_s() {
    let builder = SimpBuilder::register(1, |n: i64| -n);
    assert_eq!(builder.run_job(5), -5);
    assert_eq!(builder.run_job(-7), 7);
}

#[test]
fn a_read_only_hook_sees_each_output_and_changes_none() {
    let seen = Rc::new(RefCell::new(Vec::new()));
    let log = seen.clone();
    let builder = SimpBuilder::register(2, concat)
        .and_then(move |output: &String| log.borrow_mut().push(output.clone()));
    assert_eq!(builder.run_job(("Smay", "Ful")), "SmayFul");
    assert_eq!(builder.run_job(("John", "Birdwell")), "JohnBirdwell");
    assert_eq!(*seen.borrow(), vec!["SmayFul".to_string(), "JohnBirdwell".to_string()]);
    assert_eq!(builder.max_threads(), 2);
}

#[test]
fn a_mutable_hook_rewrites_the_output() {
    let builder = SimpBuilder::register(2, concat)
        .and_then_mut(|output: &mut String| output.push('!'));
    assert_eq!(builder.run_job(("Aeskul", "Styr")), "AeskulStyr!");
    assert_eq!(builder.max_threads(), 2);
}

#[test]
fn a_mutable_hook_replaces_a_read_only_hook() {
    let reads = Rc::new(Cell::new(0u32));
    let counter = reads.clone();
    let builder = SimpBuilder::register(3, |n: u32| n + 1)
        .and_then(move |_output: &u32| counter.set(counter.get() + 1))
        .and_then_mut(|output: &mut u32| *output *= 2);
    assert_eq!(builder.run_job(4), 10);
    assert_eq!(reads.get(), 0);
    assert_eq!(builder.max_threads(), 3);
}

#[test]
fn a_read_only_hook_replaces_a_mutable_hook() {
    let reads = Rc::new(Cell::new(0u32));
    let counter = reads.clone();
    let builder = SimpBuilder::register(3, |n: u32| n + 1)
        .and_then_mut(|output: &mut u32| *output *= 2)
        .and_then(move |_output: &u32| counter.set(counter.get() + 1));
    assert_eq!(builder.run_job(4), 5);
    assert_eq!(reads.get(), 1);
}

#[test]
fn the_later_of_two_hooks_of_one_kind_is_the_one_that_runs() {
    let builder = SimpBuilder::register(1, |n: u32| n)
        .and_then_mut(|output: &mut u32| *output += 1)
        .and_then_mut(|output: &mut u32| *output += 10);
    assert_eq!(builder.run_job(0), 10);

    let first = Rc::new(Cell::new(0u32));
    let second = Rc::new(Cell::new(0u32));
    let (a, b) = (first.clone(), second.clone());
    let builder = SimpBuilder::register(1, |n: u32| n)
        .and_then(move |_output: &u32| a.set(a.get() + 1))
        .and_then(move |_output: &u32| b.set(b.get() + 1));
    assert_eq!(builder.run_job(3), 3);
    assert_eq!((first.get(), second.get()), (0, 1));
}

#[test]
fn the_job_may_capture_its_surroundings() {
    let prefix = String::from("job-");
    let builder = SimpBuilder::register(1, move |n: u32| format!("{prefix}{n}"));
    assert_eq!(builder.run_job(1), "job-1");
    assert_eq!(builder.run_job(2), "job-2");
}
