use hyper_scheduler::config::{check_deadline, parse_decimal, CallConfigRequest, ConfigError, FuncConfig};
use hyper_scheduler::page_size;
use hyper_scheduler::result::FuncResult;
use hyper_scheduler::runtime::{IdGen, StatusError, StatusTable};
use hyper_scheduler::runwasm::{RegisterError, Registry};
use hyper_scheduler::server::{RouteError, Server};
use hyper_scheduler::stack::StackSize;
use hyper_scheduler::task::{
    current, current_is_none, CoError, CoStatus, Coroutine, ResumeStep, SchedulerStatus, Scope,
    ThisThread,
};

fn request(name: &str, params: &[&str], exec: &str, deadline: &str) -> CallConfigRequest {
    CallConfigRequest {
        wasm_name: name.to_string(),
        task_unique_name: "fib_abcd0".to_string(),
        export_func: "fib_r".to_string(),
        param_type: "i32".to_string(),
        params: params.iter().map(|p| p.to_string()).collect(),
        results_length: "1".to_string(),
        expected_execution_time: exec.to_string(),
        expected_deadline: deadline.to_string(),
    }
}

fn stack() -> StackSize {
    StackSize::new(8192, 4096).unwrap()
}

/// Resumes `co`, expecting it to be entered; returns the scope.
fn enter(co: &mut Coroutine, thread: &mut ThisThread) -> Scope {
    match co.resume(thread) {
        Ok(ResumeStep::Enter(scope)) => scope,
        _ => panic!("coroutine was not entered"),
    }
}

#[test]
fn stack_size_rounds_up_to_pages() {
    assert_eq!(StackSize::new(1, 4096).unwrap().get_size(), 4096);
    assert_eq!(StackSize::new(4096, 4096).unwrap().get_size(), 4096);
    assert_eq!(StackSize::new(4097, 4096).unwrap().get_size(), 8192);
    assert_eq!(StackSize::new(10000, 4096).unwrap().get_size(), 12288);
    assert_eq!(StackSize::new(5, 3).unwrap().get_size(), 6);
}

#[test]
fn stack_size_refuses_empty_and_overflowing_requests() {
    assert!(StackSize::new(0, 4096).is_none());
    assert!(StackSize::new(usize::MAX, 4096).is_none());
    assert_eq!(
        StackSize::new(usize::MAX - 4095, 4096).unwrap().get_size(),
        usize::MAX - 4095
    );
}

#[test]
fn page_size_accepts_powers_of_two_only() {
    assert_eq!(page_size::get(4096), Some(4096));
    assert_eq!(page_size::get(1), Some(1));
    assert_eq!(page_size::get(-1), None);
    assert_eq!(page_size::get(0), None);
    assert_eq!(page_size::get(3000), None);
}

#[test]
fn coroutine_new_is_pending_or_ready() {
    let lazy = Coroutine::new(7, stack(), false, 100);
    assert_eq!(lazy.get_status(), CoStatus::PENDING);
    assert_eq!(lazy.get_co_id(), 7);
    assert_eq!(lazy.get_stack_size().get_size(), 8192);
    assert_eq!(lazy.get_schedule_status(), SchedulerStatus::new(100));
    let eager = Coroutine::new(8, stack(), true, 100);
    assert_eq!(eager.get_status(), CoStatus::READY);
}

#[test]
fn coroutine_init_only_once() {
    let mut co = Coroutine::new(1, stack(), false, 0);
    assert!(co.init());
    assert_eq!(co.get_status(), CoStatus::READY);
    assert!(!co.init());
    assert_eq!(co.get_status(), CoStatus::READY);
}

#[test]
fn coroutine_full_lifecycle() {
    let mut thread = ThisThread::new();
    let mut co = Coroutine::new(1, stack(), false, 0);
    assert_eq!(co.resume(&mut thread).err(), Some(CoError::NotReady));
    assert!(co.init());
    let scope = enter(&mut co, &mut thread);
    assert_eq!(co.get_status(), CoStatus::RUNNING);
    assert_eq!(current(&thread), Some(1));
    assert!(co.run());
    assert!(!co.run());
    assert!(co.suspend());
    assert_eq!(co.get_status(), CoStatus::SUSPENDED);
    assert_eq!(co.finish_resume(&mut thread, scope), true);
    assert!(current_is_none(&thread));
    let scope = enter(&mut co, &mut thread);
    assert_eq!(co.get_status(), CoStatus::RUNNING);
    assert_eq!(co.get_schedule_status().tick, 2);
    assert!(co.complete(None));
    assert_eq!(co.get_status(), CoStatus::COMPLETED);
    assert_eq!(co.finish_resume(&mut thread, scope), false);
    assert!(co.get_panic().is_none());
}

#[test]
fn resume_on_completed_reports_no_further_work_every_time() {
    let mut thread = ThisThread::new();
    let mut co = Coroutine::new(3, stack(), true, 0);
    let scope = enter(&mut co, &mut thread);
    assert!(co.run());
    assert!(co.complete(None));
    assert_eq!(co.finish_resume(&mut thread, scope), false);
    for _ in 0..3 {
        assert!(matches!(co.resume(&mut thread), Ok(ResumeStep::Finished)));
        assert_eq!(co.get_status(), CoStatus::COMPLETED);
        assert_eq!(co.get_schedule_status().tick, 1);
        assert!(current_is_none(&thread));
    }
}

#[test]
fn current_marker_shows_a_current_coroutine() {
    let mut thread = ThisThread::new();
    assert!(current_is_none(&thread));
    let mut first = Coroutine::new(1, stack(), true, 0);
    let second = Coroutine::new(2, stack(), true, 0);
    let scope = enter(&mut first, &mut thread);
    // A caller must refuse to resume `second` here: the marker is taken.
    assert!(!current_is_none(&thread));
    assert_eq!(current(&thread), Some(1));
    assert_eq!(second.get_status(), CoStatus::READY);
    assert_eq!(first.finish_resume(&mut thread, scope), true);
    assert!(current_is_none(&thread));
}

#[test]
fn resume_of_running_coroutine_is_refused() {
    let mut thread = ThisThread::new();
    let mut co = Coroutine::new(1, stack(), true, 0);
    let scope = enter(&mut co, &mut thread);
    let mut other = ThisThread::new();
    assert_eq!(co.resume(&mut other).err(), Some(CoError::AlreadyRunning));
    assert_eq!(co.finish_resume(&mut thread, scope), true);
}

#[test]
fn scope_enter_and_exit() {
    let mut thread = ThisThread::new();
    let scope = Scope::enter(&mut thread, 5);
    assert_eq!(current(&thread), Some(5));
    scope.exit(&mut thread);
    assert!(current_is_none(&thread));
}

#[test]
fn panicking_task_keeps_message_and_thread_stays_usable() {
    let mut thread = ThisThread::new();
    let mut bad = Coroutine::new(1, stack(), true, 0);
    let scope = enter(&mut bad, &mut thread);
    assert!(bad.run());
    assert!(bad.complete(Some("boom".to_string())));
    assert_eq!(bad.finish_resume(&mut thread, scope), false);
    assert_eq!(bad.get_panic(), Some("boom".to_string()));
    let mut next = Coroutine::new(2, stack(), true, 0);
    let scope = enter(&mut next, &mut thread);
    assert!(next.run());
    assert!(next.complete(None));
    assert_eq!(next.finish_resume(&mut thread, scope), false);
}

#[test]
fn lifecycle_moves_out_of_order_are_refused() {
    let mut co = Coroutine::new(1, stack(), true, 0);
    assert!(!co.run());
    assert!(!co.suspend());
    assert!(!co.complete(None));
    assert_eq!(co.get_status(), CoStatus::READY);
}

#[test]
fn scheduler_status_ticks_and_elapsed() {
    let mut s = SchedulerStatus::new(1000);
    s.add_tick();
    s.add_tick();
    assert_eq!(s.tick, 2);
    assert_eq!(s.elapsed(1500), 500);
    assert_eq!(s.elapsed(900), 0);
    let mut full = SchedulerStatus { tick: u32::MAX, create_time: 0 };
    full.add_tick();
    assert_eq!(full.tick, u32::MAX);
}

#[test]
fn admission_boundaries() {
    assert!(check_deadline(Some(40), 40));
    assert!(!check_deadline(Some(41), 40));
    assert!(check_deadline(Some(0), 0));
    assert!(!check_deadline(Some(1), 0));
    assert!(check_deadline(None, 0));
}

#[test]
fn decimal_parsing() {
    assert_eq!(parse_decimal("30"), Some(30));
    assert_eq!(parse_decimal("0"), Some(0));
    assert_eq!(parse_decimal("007"), Some(7));
    assert_eq!(parse_decimal("18446744073709551615"), Some(u64::MAX));
    assert_eq!(parse_decimal("18446744073709551616"), None);
    assert_eq!(parse_decimal(""), None);
    assert_eq!(parse_decimal("-1"), None);
    assert_eq!(parse_decimal("4a"), None);
    assert_eq!(parse_decimal(" 4"), None);
}

#[test]
fn func_config_validation() {
    let c = FuncConfig::new(request("fib.wasm", &["30"], "4", "40")).ok().unwrap();
    assert_eq!(c.get_relative_deadline(), 40);
    assert_eq!(c.expected_execution_time, 4);
    assert_eq!(c.results_length, 1);
    assert_eq!(c.params, vec!["30".to_string()]);
    let mut r = request("fib.wasm", &["30"], "4", "40");
    r.export_func = String::new();
    assert_eq!(FuncConfig::new(r).err(), Some(ConfigError::EmptyExport));
    let mut r = request("fib.wasm", &["30"], "4", "40");
    r.results_length = "one".to_string();
    assert_eq!(FuncConfig::new(r).err(), Some(ConfigError::ResultsLength));
    assert_eq!(
        FuncConfig::new(request("fib.wasm", &["30"], "x", "40")).err(),
        Some(ConfigError::ExecutionTime)
    );
    assert_eq!(
        FuncConfig::new(request("fib.wasm", &["30"], "4", "")).err(),
        Some(ConfigError::Deadline)
    );
    assert_eq!(ConfigError::Deadline.to_string(), "Invalid_expected_deadline");
}

#[test]
fn registry_refuses_duplicate_name() {
    let mut reg = Registry::new();
    assert_eq!(reg.register("fib.wasm".to_string(), "/tmp/fib.wasm".to_string()), Ok(0));
    reg.set_test_time(0, 12);
    assert_eq!(
        reg.register("fib.wasm".to_string(), "/tmp/other.wasm".to_string()),
        Err(RegisterError::DuplicateName)
    );
    assert_eq!(reg.len(), 1);
    assert_eq!(reg.find(&"fib.wasm".to_string()), Some(0));
    assert_eq!(reg.get_test_time(0), Some(12));
    assert_eq!(reg.register("add.wasm".to_string(), "/tmp/add.wasm".to_string()), Ok(1));
    assert_eq!(reg.find(&"add.wasm".to_string()), Some(1));
    assert_eq!(reg.find(&"mul.wasm".to_string()), None);
}

#[test]
fn server_scenario_register_calibrate_call() {
    let mut server = Server::new();
    assert_eq!(server.register("fib.wasm".to_string(), "/tmp/fib.wasm".to_string()), Ok(0));
    let (i, c) = server.call_func(request("fib.wasm", &["30"], "4", "40")).ok().unwrap();
    assert_eq!(i, 0);
    assert_eq!(c.export_func, "fib_r");
    let i = server.prepare_test(request("fib.wasm", &["30"], "4", "40")).ok().unwrap();
    assert_eq!(server.finish_test(i, 3), 4);
    assert_eq!(server.get_registry().get_test_time(0), Some(4));
    assert!(server.call_func(request("fib.wasm", &["30"], "4", "40")).is_ok());
    assert!(server.call_func(request("fib.wasm", &["30"], "4", "4")).is_ok());
    assert_eq!(
        server.call_func(request("fib.wasm", &["30"], "4", "3")).err(),
        Some(RouteError::DeadlineInfeasible)
    );
    assert_eq!(server.call_with_name(&"fib.wasm".to_string()), Ok(0));
}

#[test]
fn server_uncalibrated_call_is_admitted() {
    let mut server = Server::new();
    server.register("fib.wasm".to_string(), "/tmp/fib.wasm".to_string()).unwrap();
    assert!(server.call_func(request("fib.wasm", &["30"], "0", "0")).is_ok());
    assert_eq!(
        server.call_with_name(&"fib.wasm".to_string()),
        Err(RouteError::NotConfigured)
    );
}

#[test]
fn server_errors() {
    let mut server = Server::new();
    server.register("fib.wasm".to_string(), "/tmp/fib.wasm".to_string()).unwrap();
    assert_eq!(
        server.register("fib.wasm".to_string(), "/tmp/x.wasm".to_string()),
        Err(RegisterError::DuplicateName)
    );
    assert_eq!(
        server.call_func(request("nope.wasm", &["30"], "4", "40")).err(),
        Some(RouteError::InvalidWasmName)
    );
    assert_eq!(
        server.call_func(request("fib.wasm", &["30"], "4", "soon")).err(),
        Some(RouteError::Config(ConfigError::Deadline))
    );
    assert_eq!(
        server.prepare_test(request("nope.wasm", &["30"], "4", "40")),
        Err(RouteError::InvalidWasmName)
    );
    assert_eq!(server.call_with_name(&"nope.wasm".to_string()), Err(RouteError::InvalidWasmName));
    assert_eq!(server.finish_test(0, u64::MAX), u64::MAX);
}

#[test]
fn status_table_guards_live_duplicates() {
    let mut table = StatusTable::new();
    let s = SchedulerStatus::new(0);
    assert_eq!(table.register("t1".to_string(), 1, CoStatus::READY, s), Ok(()));
    assert_eq!(
        table.register("t1".to_string(), 2, CoStatus::READY, s),
        Err(StatusError::DuplicateTask)
    );
    assert!(table.update(1, CoStatus::COMPLETED, SchedulerStatus { tick: 3, create_time: 0 }));
    assert!(!table.update(9, CoStatus::RUNNING, s));
    assert_eq!(table.register("t1".to_string(), 2, CoStatus::READY, s), Ok(()));
    assert_eq!(table.len(), 2);
    let newest = table.status_of(&"t1".to_string()).unwrap();
    assert_eq!(newest.co_id, 2);
    assert_eq!(table.all_statuses()[0].sched.tick, 3);
    assert!(table.status_of(&"t2".to_string()).is_none());
}

#[test]
fn id_gen_counts_up() {
    let mut ids = IdGen::new();
    assert_eq!(ids.next_id(), Some(1));
    assert_eq!(ids.next_id(), Some(2));
}

#[test]
fn func_result_polls() {
    let mut r = FuncResult::new();
    assert_eq!(r.poll(), None);
    r.set_result("832040");
    assert_eq!(r.poll(), None);
    r.set_completed();
    assert!(r.is_completed());
    assert_eq!(r.poll(), Some(Ok("832040".to_string())));
    assert_eq!(r.poll(), Some(Ok("832040".to_string())));
}

#[test]
fn func_result_reports_failure() {
    let mut r = FuncResult::new();
    r.set_failure("boom");
    assert!(r.is_completed());
    assert_eq!(r.poll(), Some(Err("boom".to_string())));
}

#[test]
fn calibration_needs_no_deadline() {
    let mut server = Server::new();
    server.register("fib.wasm".to_string(), "/tmp/fib.wasm".to_string()).unwrap();
    let c = FuncConfig::for_test(request("fib.wasm", &["30"], "4", "")).ok().unwrap();
    assert_eq!(c.relative_deadline, u64::MAX);
    assert_eq!(c.expected_execution_time, 4);
    assert_eq!(c.params, vec!["30".to_string()]);
    assert_eq!(
        FuncConfig::for_test(request("fib.wasm", &["30"], "x", "")).err(),
        Some(ConfigError::ExecutionTime)
    );
    let i = server.prepare_test(request("fib.wasm", &["30"], "4", "")).ok().unwrap();
    assert_eq!(server.finish_test(i, 50), 51);
    assert_eq!(server.call_with_name(&"fib.wasm".to_string()), Ok(0));
}

#[test]
fn call_with_name_applies_the_deadline() {
    let mut server = Server::new();
    server.register("fib.wasm".to_string(), "/tmp/fib.wasm".to_string()).unwrap();
    let i = server.prepare_test(request("fib.wasm", &["30"], "4", "40")).ok().unwrap();
    let env = server.get_registry().environment(0).unwrap();
    let stored = env.func_config.as_ref().unwrap();
    assert_eq!(stored.relative_deadline, 40);
    assert_eq!(stored.task_unique_name, "fib_abcd0");
    assert_eq!(server.finish_test(i, 39), 40);
    assert_eq!(server.call_with_name(&"fib.wasm".to_string()), Ok(0));
    assert_eq!(server.finish_test(i, 40), 41);
    assert_eq!(
        server.call_with_name(&"fib.wasm".to_string()),
        Err(RouteError::DeadlineInfeasible)
    );
}

#[test]
fn registry_environment_lookup() {
    let mut reg = Registry::new();
    reg.register("fib.wasm".to_string(), "/tmp/fib.wasm".to_string()).unwrap();
    let env = reg.environment(0).unwrap();
    assert_eq!(env.wasm_name, "fib.wasm");
    assert_eq!(env.path, "/tmp/fib.wasm");
    assert!(env.func_config.is_none());
    assert!(env.test_time.is_none());
    assert!(reg.environment(1).is_none());
}
