use std::cell::{Cell, RefCell};
use std::rc::Rc;
use std::time::{Duration, Instant};

use winit::error::EventLoopError;
use winit::event::{DeviceEvent, DeviceId, WindowEvent};
use winit::window::WindowId;
use winit_ext::{
    Adapter, Application, ApplicationResumed, ApplicationSuspended, ApplicationUninitialized,
    EventLoopHandle, EventResumed, EventSuspended, Phase, Signal, StartCause,
};

/// A host loop that only counts what it is asked for.
struct FakeLoop {
    exits: Cell<u32>,
    windows: Cell<u32>,
}

impl FakeLoop {
    fn new() -> Self {
        FakeLoop { exits: Cell::new(0), windows: Cell::new(0) }
    }

    fn create_window(&self) -> FakeWindow {
        self.windows.set(self.windows.get() + 1);
        FakeWindow { serial: self.windows.get() }
    }
}

impl EventLoopHandle for FakeLoop {
    fn exit(&self) {
        self.exits.set(self.exits.get() + 1);
    }
}

#[derive(Debug, PartialEq)]
struct FakeWindow {
    serial: u32,
}

#[derive(Debug, Clone, Copy, PartialEq)]
enum Operation {
    Initialize,
    HandleResumed,
    Suspend,
    ExitResumed,
    HandleSuspended,
    Resume,
    ExitSuspended,
}

#[derive(Debug, Clone, PartialEq)]
struct Failure {
    operation: Operation,
    code: u32,
}

/// What the application keeps through all its phases.
#[derive(Debug, Clone)]
struct Config {
    title: String,
    context: u32,
    start: Instant,
    fail: Option<Failure>,
    calls: Rc<RefCell<Vec<Operation>>>,
    resumed_events: Rc<RefCell<Vec<EventResumed<u32>>>>,
    suspended_events: Rc<RefCell<Vec<EventSuspended<u32>>>>,
    elapsed: Rc<RefCell<Vec<Duration>>>,
}

impl Config {
    fn new(title: &str, context: u32) -> Self {
        Config {
            title: String::from(title),
            context,
            start: Instant::now(),
            fail: None,
            calls: Rc::new(RefCell::new(Vec::new())),
            resumed_events: Rc::new(RefCell::new(Vec::new())),
            suspended_events: Rc::new(RefCell::new(Vec::new())),
            elapsed: Rc::new(RefCell::new(Vec::new())),
        }
    }

    fn failing(title: &str, context: u32, operation: Operation, code: u32) -> Self {
        let mut config = Config::new(title, context);
        config.fail = Some(Failure { operation, code });
        config
    }

    fn call(&self, operation: Operation) -> Result<(), Failure> {
        self.calls.borrow_mut().push(operation);
        match &self.fail {
            Some(failure) if failure.operation == operation => Err(failure.clone()),
            _ => Ok(()),
        }
    }
}

enum Demo {}

struct Uninitialized {
    config: Config,
}

struct Resumed {
    config: Config,
    window: FakeWindow,
}

struct Suspended {
    config: Config,
}

#[derive(Debug)]
struct Exited {
    title: String,
    context: u32,
    start: Instant,
}

impl Application<u32> for Demo {
    type EventLoop = FakeLoop;
    type Uninitialized = Uninitialized;
    type Resumed = Resumed;
    type Suspended = Suspended;
    type Exited = Exited;
    type Error = Failure;
}

impl ApplicationUninitialized<u32> for Uninitialized {
    type Application = Demo;

    fn initialize(self, event_loop: &FakeLoop) -> Result<Resumed, Failure> {
        self.config.call(Operation::Initialize)?;
        let window = event_loop.create_window();
        Ok(Resumed { config: self.config, window })
    }
}

impl ApplicationResumed<u32> for Resumed {
    type Application = Demo;

    fn handle(self, _event_loop: &FakeLoop, event: EventResumed<u32>) -> Result<Self, Failure> {
        self.config.call(Operation::HandleResumed)?;
        if let EventResumed::WindowEvent { event: WindowEvent::RedrawRequested, .. } = &event {
            self.config.elapsed.borrow_mut().push(self.config.start.elapsed());
        }
        self.config.resumed_events.borrow_mut().push(event);
        Ok(self)
    }

    fn suspend(self, _event_loop: &FakeLoop) -> Result<Suspended, Failure> {
        self.config.call(Operation::Suspend)?;
        Ok(Suspended { config: self.config })
    }

    fn exit(self, _event_loop: &FakeLoop) -> Result<Exited, Failure> {
        self.config.call(Operation::ExitResumed)?;
        assert!(self.window.serial > 0);
        Ok(Exited {
            title: self.config.title,
            context: self.config.context,
            start: self.config.start,
        })
    }
}

impl ApplicationSuspended<u32> for Suspended {
    type Application = Demo;

    fn handle(self, _event_loop: &FakeLoop, event: EventSuspended<u32>) -> Result<Self, Failure> {
        self.config.call(Operation::HandleSuspended)?;
        self.config.suspended_events.borrow_mut().push(event);
        Ok(self)
    }

    fn resume(self, event_loop: &FakeLoop) -> Result<Resumed, Failure> {
        self.config.call(Operation::Resume)?;
        let window = event_loop.create_window();
        Ok(Resumed { config: self.config, window })
    }

    fn exit(self, _event_loop: &FakeLoop) -> Result<Exited, Failure> {
        self.config.call(Operation::ExitSuspended)?;
        Ok(Exited {
            title: self.config.title,
            context: self.config.context,
            start: self.config.start,
        })
    }
}

fn adapter_for(config: &Config) -> Adapter<Demo, u32> {
    Adapter::new(Uninitialized { config: config.clone() })
}

/// An adapter whose application has been started.
fn started(config: &Config, event_loop: &FakeLoop) -> Adapter<Demo, u32> {
    let mut adapter = adapter_for(config);
    adapter.new_events(event_loop, StartCause::Init);
    adapter
}

const SIGNALS: [Signal; 10] = [
    Signal::Start,
    Signal::NewEvents,
    Signal::WindowEvent,
    Signal::DeviceEvent,
    Signal::UserEvent,
    Signal::AboutToWait,
    Signal::MemoryWarning,
    Signal::Suspended,
    Signal::Resumed,
    Signal::Exiting,
];

/// Delivers the callback that stands for `signal`.
fn deliver(adapter: &mut Adapter<Demo, u32>, event_loop: &FakeLoop, signal: Signal) {
    match signal {
        Signal::Start => adapter.new_events(event_loop, StartCause::Init),
        Signal::NewEvents => adapter.new_events(event_loop, StartCause::Poll),
        Signal::WindowEvent => {
            adapter.window_event(event_loop, WindowId::dummy(), WindowEvent::RedrawRequested)
        }
        Signal::DeviceEvent => {
            adapter.device_event(event_loop, DeviceId::dummy(), DeviceEvent::Added)
        }
        Signal::UserEvent => adapter.user_event(event_loop, 11),
        Signal::AboutToWait => adapter.about_to_wait(event_loop),
        Signal::MemoryWarning => adapter.memory_warning(event_loop),
        Signal::Suspended => adapter.suspended(event_loop),
        Signal::Resumed => adapter.resumed(event_loop),
        Signal::Exiting => adapter.exiting(event_loop),
    }
}

#[test]
fn a_new_adapter_holds_an_uninitialized_application() {
    let config = Config::new("demo", 1);
    let adapter = adapter_for(&config);
    assert_eq!(adapter.phase(), Some(Phase::Uninitialized));
    assert!(!adapter.is_poisoned());
    assert!(!adapter.can_exit());
    assert!(config.calls.borrow().is_empty());
}

#[test]
fn the_start_of_the_loop_initializes_the_application() {
    let config = Config::new("demo", 1);
    let event_loop = FakeLoop::new();
    let mut adapter = adapter_for(&config);
    assert!(adapter.accepts(StartCause::Init.signal()));
    adapter.new_events(&event_loop, StartCause::Init);
    assert_eq!(adapter.phase(), Some(Phase::Resumed));
    assert_eq!(*config.calls.borrow(), vec![Operation::Initialize]);
    assert_eq!(event_loop.windows.get(), 1);
    assert_eq!(event_loop.exits.get(), 0);
}

#[test]
fn full_lifecycle_carries_the_configuration_to_the_end() {
    let config = Config::new("carried", 77);
    let event_loop = FakeLoop::new();
    let mut adapter = adapter_for(&config);

    adapter.new_events(&event_loop, StartCause::Init);
    assert_eq!(adapter.phase(), Some(Phase::Resumed));
    adapter.suspended(&event_loop);
    assert_eq!(adapter.phase(), Some(Phase::Suspended));
    adapter.resumed(&event_loop);
    assert_eq!(adapter.phase(), Some(Phase::Resumed));
    adapter.exiting(&event_loop);
    assert_eq!(adapter.phase(), Some(Phase::Exited));
    assert!(adapter.can_exit());

    let exited = adapter.exit().expect("no operation failed");
    assert_eq!(exited.title, "carried");
    assert_eq!(exited.context, 77);
    assert_eq!(exited.start, config.start);
    assert_eq!(
        *config.calls.borrow(),
        vec![
            Operation::Initialize,
            Operation::Suspend,
            Operation::Resume,
            Operation::ExitResumed
        ]
    );
    assert_eq!(event_loop.windows.get(), 2);
    assert_eq!(event_loop.exits.get(), 0);
}

#[test]
fn every_accepted_signal_leads_where_the_table_says() {
    let event_loop = FakeLoop::new();
    // Each entry leads the application into the phase that the inner loop starts from.
    let prefixes: [&[Signal]; 4] = [
        &[],
        &[Signal::Start],
        &[Signal::Start, Signal::Suspended],
        &[Signal::Start, Signal::Exiting],
    ];
    for prefix in prefixes {
        for signal in SIGNALS {
            let config = Config::new("table", 0);
            let mut adapter = adapter_for(&config);
            for step in prefix {
                deliver(&mut adapter, &event_loop, *step);
            }
            let before = adapter.phase().expect("no operation fails here");
            let row = before.next(signal);
            assert_eq!(adapter.accepts(signal), row.is_some(), "{:?} {:?}", before, signal);
            if row.is_some() {
                deliver(&mut adapter, &event_loop, signal);
                assert_eq!(adapter.phase(), row, "{:?} {:?}", before, signal);
            }
        }
    }
    assert_eq!(event_loop.exits.get(), 0);
}

#[test]
fn a_long_run_follows_the_table_at_every_step() {
    let config = Config::new("long", 0);
    let event_loop = FakeLoop::new();
    let mut adapter = adapter_for(&config);
    let run = [
        Signal::Start,
        Signal::Resumed,
        Signal::NewEvents,
        Signal::WindowEvent,
        Signal::UserEvent,
        Signal::AboutToWait,
        Signal::Suspended,
        Signal::Suspended,
        Signal::NewEvents,
        Signal::DeviceEvent,
        Signal::MemoryWarning,
        Signal::AboutToWait,
        Signal::Resumed,
        Signal::Start,
        Signal::WindowEvent,
        Signal::DeviceEvent,
        Signal::Suspended,
        Signal::Resumed,
        Signal::MemoryWarning,
        Signal::Exiting,
    ];
    let mut expected = Phase::Uninitialized;
    for signal in run {
        assert!(adapter.accepts(signal));
        deliver(&mut adapter, &event_loop, signal);
        expected = expected.next(signal).expect("the run is made of rows of the table");
        assert_eq!(adapter.phase(), Some(expected));
    }
    assert_eq!(expected, Phase::Exited);
    for signal in SIGNALS {
        assert!(!adapter.accepts(signal));
    }
    assert!(adapter.exit().is_ok());
}

#[test]
fn a_running_application_gets_each_event_with_its_payload() {
    let config = Config::new("events", 0);
    let event_loop = FakeLoop::new();
    let mut adapter = started(&config, &event_loop);
    let window_id = WindowId::from(9u64);

    adapter.new_events(&event_loop, StartCause::Poll);
    adapter.new_events(&event_loop, StartCause::Init);
    adapter.window_event(&event_loop, window_id, WindowEvent::CloseRequested);
    adapter.device_event(&event_loop, DeviceId::dummy(), DeviceEvent::Removed);
    adapter.user_event(&event_loop, 42);
    adapter.about_to_wait(&event_loop);
    adapter.memory_warning(&event_loop);

    assert_eq!(adapter.phase(), Some(Phase::Resumed));
    assert_eq!(
        *config.resumed_events.borrow(),
        vec![
            EventResumed::NewEvents(StartCause::Poll),
            EventResumed::NewEvents(StartCause::Init),
            EventResumed::WindowEvent { window_id, event: WindowEvent::CloseRequested },
            EventResumed::DeviceEvent { device_id: DeviceId::dummy(), event: DeviceEvent::Removed },
            EventResumed::UserEvent(42),
            EventResumed::AboutToWait,
            EventResumed::MemoryWarning,
        ]
    );
    assert!(config.suspended_events.borrow().is_empty());
    assert_eq!(event_loop.windows.get(), 1);
}

#[test]
fn a_suspended_application_gets_each_event_with_its_payload() {
    let config = Config::new("events", 0);
    let event_loop = FakeLoop::new();
    let mut adapter = started(&config, &event_loop);
    adapter.suspended(&event_loop);

    adapter.new_events(&event_loop, StartCause::Poll);
    adapter.new_events(&event_loop, StartCause::Init);
    adapter.device_event(&event_loop, DeviceId::dummy(), DeviceEvent::Added);
    adapter.user_event(&event_loop, 7);
    adapter.about_to_wait(&event_loop);
    adapter.memory_warning(&event_loop);

    assert_eq!(adapter.phase(), Some(Phase::Suspended));
    assert_eq!(
        *config.suspended_events.borrow(),
        vec![
            EventSuspended::NewEvents(StartCause::Poll),
            EventSuspended::NewEvents(StartCause::Init),
            EventSuspended::DeviceEvent { device_id: DeviceId::dummy(), event: DeviceEvent::Added },
            EventSuspended::UserEvent(7),
            EventSuspended::AboutToWait,
            EventSuspended::MemoryWarning,
        ]
    );
    assert!(config.resumed_events.borrow().is_empty());
}

#[test]
fn a_repeated_resume_or_suspend_calls_no_operation() {
    let config = Config::new("repeat", 0);
    let event_loop = FakeLoop::new();
    let mut adapter = started(&config, &event_loop);

    adapter.resumed(&event_loop);
    adapter.resumed(&event_loop);
    assert_eq!(adapter.phase(), Some(Phase::Resumed));
    assert_eq!(*config.calls.borrow(), vec![Operation::Initialize]);
    assert_eq!(event_loop.windows.get(), 1);

    adapter.suspended(&event_loop);
    adapter.suspended(&event_loop);
    adapter.suspended(&event_loop);
    assert_eq!(adapter.phase(), Some(Phase::Suspended));
    assert_eq!(*config.calls.borrow(), vec![Operation::Initialize, Operation::Suspend]);
    assert_eq!(event_loop.exits.get(), 0);
}

#[test]
fn a_window_event_is_not_accepted_while_suspended() {
    let config = Config::new("suspended", 0);
    let event_loop = FakeLoop::new();
    let mut adapter = started(&config, &event_loop);
    assert!(adapter.accepts(Signal::WindowEvent));
    adapter.suspended(&event_loop);
    assert_eq!(adapter.phase(), Some(Phase::Suspended));
    assert!(!adapter.accepts(Signal::WindowEvent));
    assert_eq!(Phase::Suspended.next(Signal::WindowEvent), None);
    // Every other event is still taken.
    assert!(adapter.accepts(Signal::DeviceEvent));
    assert!(adapter.accepts(Signal::UserEvent));
    assert!(adapter.accepts(Signal::NewEvents));
}

#[test]
fn an_application_that_was_never_started_cannot_exit() {
    let config = Config::new("never started", 0);
    let adapter = adapter_for(&config);
    assert!(!adapter.accepts(Signal::Exiting));
    assert!(!adapter.accepts(Signal::Suspended));
    assert!(!adapter.accepts(Signal::Resumed));
    assert!(!adapter.accepts(Signal::NewEvents));
    assert!(!adapter.accepts(StartCause::Poll.signal()));
    assert!(!adapter.can_exit());
    assert!(config.calls.borrow().is_empty());
}

#[test]
fn an_error_of_the_loop_is_handed_on_whatever_the_adapter_holds() {
    let config = Config::new("loop error", 0);
    let adapter = adapter_for(&config);
    let result = adapter.finish(Err(EventLoopError::ExitFailure(3)));
    assert!(matches!(result, Err(EventLoopError::ExitFailure(3))));

    let event_loop = FakeLoop::new();
    let adapter = started(&config, &event_loop);
    let result = adapter.finish(Err(EventLoopError::RecreationAttempt));
    assert!(matches!(result, Err(EventLoopError::RecreationAttempt)));
}

#[test]
fn finish_returns_what_the_run_left() {
    let config = Config::new("finished", 5);
    let event_loop = FakeLoop::new();
    let mut adapter = started(&config, &event_loop);
    adapter.suspended(&event_loop);
    adapter.exiting(&event_loop);
    let exited = adapter.finish(Ok(())).expect("the loop ended well").expect("nothing failed");
    assert_eq!(exited.context, 5);
    assert_eq!(exited.title, "finished");
    assert_eq!(config.calls.borrow().last(), Some(&Operation::ExitSuspended));
}

#[test]
fn finish_returns_the_error_of_a_failed_run() {
    let config = Config::failing("failed", 5, Operation::Initialize, 500);
    let event_loop = FakeLoop::new();
    let adapter = started(&config, &event_loop);
    let result = adapter.finish(Ok(())).expect("the loop ended well");
    assert_eq!(result.unwrap_err(), Failure { operation: Operation::Initialize, code: 500 });
}

/// Leads a new application up to the operation that fails, and looks at what the failure
/// leaves behind.
fn fails_at(operation: Operation, lead: &[Signal], calls: &[Operation]) {
    let config = Config::failing("failing", 0, operation, 404);
    let event_loop = FakeLoop::new();
    let mut adapter = adapter_for(&config);
    let (last, before) = lead.split_last().expect("a signal makes the call that fails");
    for signal in before {
        deliver(&mut adapter, &event_loop, *signal);
        assert!(adapter.phase().is_some());
        assert_eq!(event_loop.exits.get(), 0);
    }
    let windows = event_loop.windows.get();
    deliver(&mut adapter, &event_loop, *last);

    // The error is kept, and the loop was asked to exit, once.
    assert_eq!(adapter.phase(), None);
    assert!(!adapter.is_poisoned());
    assert!(adapter.can_exit());
    assert_eq!(event_loop.exits.get(), 1);
    assert_eq!(*config.calls.borrow(), calls);

    // Whatever comes now is ignored: no operation is called, no window is made, and the
    // loop is not asked again.
    for signal in SIGNALS {
        assert!(adapter.accepts(signal));
        deliver(&mut adapter, &event_loop, signal);
        assert_eq!(adapter.phase(), None);
    }
    assert_eq!(*config.calls.borrow(), calls);
    assert_eq!(event_loop.windows.get(), windows);
    assert_eq!(event_loop.exits.get(), 1);

    assert_eq!(adapter.exit().unwrap_err(), Failure { operation, code: 404 });
}

#[test]
fn a_failed_initialize_ends_the_run() {
    fails_at(Operation::Initialize, &[Signal::Start], &[Operation::Initialize]);
}

#[test]
fn a_failed_handle_while_resumed_ends_the_run() {
    fails_at(
        Operation::HandleResumed,
        &[Signal::Start, Signal::Resumed, Signal::WindowEvent],
        &[Operation::Initialize, Operation::HandleResumed],
    );
}

#[test]
fn a_failed_suspend_ends_the_run() {
    fails_at(
        Operation::Suspend,
        &[Signal::Start, Signal::Suspended],
        &[Operation::Initialize, Operation::Suspend],
    );
}

#[test]
fn a_failed_exit_while_resumed_ends_the_run() {
    fails_at(
        Operation::ExitResumed,
        &[Signal::Start, Signal::Exiting],
        &[Operation::Initialize, Operation::ExitResumed],
    );
}

#[test]
fn a_failed_handle_while_suspended_ends_the_run() {
    fails_at(
        Operation::HandleSuspended,
        &[Signal::Start, Signal::Suspended, Signal::UserEvent],
        &[Operation::Initialize, Operation::Suspend, Operation::HandleSuspended],
    );
}

#[test]
fn a_failed_resume_ends_the_run() {
    fails_at(
        Operation::Resume,
        &[Signal::Start, Signal::Suspended, Signal::Resumed],
        &[Operation::Initialize, Operation::Suspend, Operation::Resume],
    );
}

#[test]
fn a_failed_exit_while_suspended_ends_the_run() {
    fails_at(
        Operation::ExitSuspended,
        &[Signal::Start, Signal::Suspended, Signal::Exiting],
        &[Operation::Initialize, Operation::Suspend, Operation::ExitSuspended],
    );
}

#[test]
fn elapsed_time_goes_by_the_first_start_through_every_cycle() {
    let config = Config::new("clock", 0);
    let event_loop = FakeLoop::new();
    let mut adapter = started(&config, &event_loop);
    for _ in 0..5 {
        adapter.window_event(&event_loop, WindowId::dummy(), WindowEvent::RedrawRequested);
        adapter.suspended(&event_loop);
        adapter.about_to_wait(&event_loop);
        adapter.resumed(&event_loop);
        adapter.window_event(&event_loop, WindowId::dummy(), WindowEvent::RedrawRequested);
    }
    adapter.exiting(&event_loop);
    let exited = adapter.exit().expect("nothing failed");
    assert_eq!(exited.start, config.start);

    let elapsed = config.elapsed.borrow();
    assert_eq!(elapsed.len(), 10);
    for pair in elapsed.windows(2) {
        assert!(pair[0] <= pair[1]);
        assert!(pair[0].as_secs_f32() <= pair[1].as_secs_f32());
    }
    assert!(*elapsed.last().expect("ten redraws") <= config.start.elapsed());
}

#[test]
fn a_clone_of_an_event_equals_it() {
    let resumed = [
        EventResumed::NewEvents(StartCause::Init),
        EventResumed::WindowEvent { window_id: WindowId::from(3u64), event: WindowEvent::Destroyed },
        EventResumed::DeviceEvent { device_id: DeviceId::dummy(), event: DeviceEvent::Added },
        EventResumed::UserEvent(String::from("hello")),
        EventResumed::AboutToWait,
        EventResumed::MemoryWarning,
    ];
    for (index, event) in resumed.iter().enumerate() {
        assert_eq!(&event.clone(), event);
        for (other_index, other) in resumed.iter().enumerate() {
            assert_eq!(event == other, index == other_index);
        }
    }
    let suspended = [
        EventSuspended::NewEvents(StartCause::Poll),
        EventSuspended::DeviceEvent { device_id: DeviceId::dummy(), event: DeviceEvent::Removed },
        EventSuspended::UserEvent(String::from("hello")),
        EventSuspended::AboutToWait,
        EventSuspended::MemoryWarning,
    ];
    for (index, event) in suspended.iter().enumerate() {
        assert_eq!(&event.clone(), event);
        for (other_index, other) in suspended.iter().enumerate() {
            assert_eq!(event == other, index == other_index);
        }
    }
}
