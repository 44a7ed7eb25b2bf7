use std::cell::RefCell;

use process_graph::{Counter, Graph, GraphNode, Pipe};

#[test]
fn callable_node_returns_what_the_call_returns() {
    let mut square = |x: i64| x * x;
    for x in [-4i64, 0, 3, 1000] {
        assert_eq!(square.run(x), x * x);
    }
    let mut shout = |s: String| s.to_uppercase();
    assert_eq!(shout.run("node".to_string()), "NODE");
}

#[test]
fn pipe_doubles_then_stringifies() {
    let double = |x: i32| x * 2;
    let stringify = |x: i32| x.to_string();
    let mut g = double.pipe(stringify);
    assert_eq!(g.run(3), "6");
}

#[test]
fn graph_new_keeps_src_and_sink() {
    let mut g = Graph::new(|x: i32| x + 1, |x: i32| x * 10);
    assert_eq!(g.run(4), 50);
    assert_eq!((g.src)(0), 1);
    assert_eq!((g.sink)(2), 20);
}

#[test]
fn pipe_is_associative_in_output_and_order() {
    let log = RefCell::new(Vec::new());
    let a = |x: i32| {
        log.borrow_mut().push('a');
        x + 1
    };
    let b = |x: i32| {
        log.borrow_mut().push('b');
        x * 3
    };
    let c = |x: i32| {
        log.borrow_mut().push('c');
        x - 2
    };
    let mut left = a.pipe(b).pipe(c);
    let mut right = a.pipe(b.pipe(c));
    let l = left.run(5);
    let left_log: Vec<char> = log.borrow_mut().drain(..).collect();
    let r = right.run(5);
    let right_log: Vec<char> = log.borrow_mut().drain(..).collect();
    assert_eq!(l, 16);
    assert_eq!(r, 16);
    assert_eq!(left_log, vec!['a', 'b', 'c']);
    assert_eq!(right_log, vec!['a', 'b', 'c']);
}

#[test]
fn fan_out_increment_and_negate() {
    let increment = |x: i32| x + 1;
    let negate = |x: i32| -x;
    let mut group = (increment, negate);
    assert_eq!(group.run((2, 5)), (3, -5));
}

#[test]
fn fan_out_of_one_slot() {
    let mut group = (|x: u8| x as u32 + 1,);
    assert_eq!(group.run((255,)), (256,));
}

#[test]
fn fan_out_of_eight_slots_runs_left_to_right() {
    let log = RefCell::new(Vec::new());
    let slot = |i: u32| {
        let log = &log;
        move |x: i32| {
            log.borrow_mut().push(i);
            x * 10 + i as i32
        }
    };
    let mut group = (slot(1), slot(2), slot(3), slot(4), slot(5), slot(6), slot(7), slot(8));
    let out = group.run((1, 2, 3, 4, 5, 6, 7, 8));
    assert_eq!(out, (11, 22, 33, 44, 55, 66, 77, 88));
    assert_eq!(*log.borrow(), vec![1, 2, 3, 4, 5, 6, 7, 8]);
}

#[test]
fn fan_out_slots_of_mixed_types() {
    let mut group = (
        |x: i32| x.to_string(),
        |s: &str| s.len(),
        |b: bool| !b,
    );
    assert_eq!(group.run((7, "four", false)), ("7".to_string(), 4usize, true));
}

#[test]
fn chain_with_fan_out_matches_stage_by_stage() {
    let start = |x: i32| x + 1;
    let split = |x: i32| (x, x * 2);
    let left = |x: i32| x - 1;
    let right = |x: i32| x.to_string();
    let join = |(n, s): (i32, String)| format!("{n}:{s}");
    let mut chain = start.pipe(split).pipe((left, right)).pipe(join);
    let manual = {
        let (p, q) = split(start(4));
        join((left(p), right(q)))
    };
    assert_eq!(chain.run(4), manual);
    assert_eq!(chain.run(4), "4:10");
}

#[test]
fn three_stage_chain_parses_doubles_stringifies() {
    let parse_int = |s: &str| s.parse::<i32>().unwrap();
    let double = |x: i32| x * 2;
    let stringify = |x: i32| x.to_string();
    let mut chain = parse_int.pipe(double).pipe(stringify);
    assert_eq!(chain.run("21"), "42");
}

#[test]
fn counter_starts_at_zero() {
    let c = Counter::new();
    assert_eq!(c.count, 0);
}

#[test]
fn counter_in_chain_returns_successive_values() {
    let mut chain = Counter::new().pipe(|n: u64| n);
    assert_eq!(chain.run(()), 1);
    assert_eq!(chain.run(()), 2);
    assert_eq!(chain.src.count, 2);
    let mut fresh = Counter::new().pipe(|n: u64| n);
    assert_eq!(fresh.run(()), 1);
}

#[test]
fn counter_feeds_sink_each_count() {
    let mut chain = Counter::new().pipe(|n: u64| n * 100);
    assert_eq!(chain.run(()), 100);
    assert_eq!(chain.run(()), 200);
    assert_eq!(chain.run(()), 300);
}

#[test]
fn stateful_closure_keeps_state_in_chain() {
    let mut seen: u32 = 0;
    let counter = move |_: ()| {
        seen += 1;
        seen
    };
    let mut chain = counter.pipe(|n: u32| n);
    assert_eq!(chain.run(()), 1);
    assert_eq!(chain.run(()), 2);
}

#[test]
fn chains_from_equal_states_agree() {
    let build = || {
        Counter::new()
            .pipe(|n: u64| (n, n + 1))
            .pipe((|a: u64| a * 2, |b: u64| b * 3))
            .pipe(|(a, b): (u64, u64)| a + b)
    };
    let mut first = build();
    let mut second = build();
    assert_eq!(first.run(()), 8);
    assert_eq!(second.run(()), 8);
    assert_eq!(first.src.src.src.count, second.src.src.src.count);
}
