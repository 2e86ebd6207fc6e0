use chunkwm::api::{HostCall, LogLevel, API};
use chunkwm::event::{Event, HandleEvent, Lifecycle, Outcome, RawData, Subscription};
use chunkwm::raw::{Handle, ProcessSerialNumber, RawApplication, RawObserver};
use chunkwm::ChunkWMError;
use std::cell::Cell;
use std::rc::Rc;

fn api() -> API {
    API {
        update_cvar: Handle::new(1),
        acquire_cvar: Handle::new(2),
        find_cvar: Handle::new(3),
        plugin_broadcast: Handle::new(4),
        log: Handle::new(5),
    }
}

fn raw_application() -> RawApplication {
    RawApplication {
        element: Handle::new(0x10),
        observer: RawObserver { observer: Handle::new(0x20), enabled: true, valid: true },
        name: Some("Mail".to_string()),
        pid: 77,
        process_serial_number: ProcessSerialNumber { high_long: 1, low_long: 2 },
    }
}

/// A plugin that writes down what it is handed and fails on request.
struct Recorder {
    api: API,
    seen: Vec<String>,
}

impl HandleEvent for Recorder {
    fn new(api: API) -> Self {
        Recorder { api, seen: Vec::new() }
    }

    fn subscribe() -> &'static [Subscription] {
        Subscription::all()
    }

    fn handle(&mut self, event: Event) -> Result<(), ChunkWMError> {
        self.seen.push(format!("{:?}", event));
        match event {
            Event::Other(tag) if tag == "fail" => Err(ChunkWMError::Internal("asked to fail")),
            Event::ApplicationLaunched(application) => application.get_name().map(|_| ()),
            _ => Ok(()),
        }
    }

    fn shutdown(&self) {}
}

fn seen(life: &Lifecycle<Recorder>) -> Vec<String> {
    match life {
        Lifecycle::Active(plugin) => plugin.seen.clone(),
        _ => panic!("the plugin is not active"),
    }
}

#[test]
fn new_is_uninitialized() {
    let life: Lifecycle<Recorder> = Lifecycle::new();
    assert!(matches!(life, Lifecycle::Uninitialized));
}

#[test]
fn dispatch_before_init_is_not_active() {
    let mut life: Lifecycle<Recorder> = Lifecycle::new();
    let outcome = life.dispatch("chunkwm_export_space_changed", &RawData::Nothing);
    assert_eq!(outcome, Outcome::NotActive);
    assert!(!outcome.success());
    assert!(matches!(life, Lifecycle::Uninitialized));
}

#[test]
fn init_makes_the_plugin_with_the_api() {
    let mut life: Lifecycle<Recorder> = Lifecycle::new();
    assert!(life.init(api()));
    match &life {
        Lifecycle::Active(plugin) => {
            assert_eq!(plugin.api, api());
            assert!(plugin.seen.is_empty());
        }
        _ => panic!("the plugin is not active"),
    }
}

#[test]
fn init_then_dispatch_reaches_the_handler() {
    let mut life: Lifecycle<Recorder> = Lifecycle::new();
    assert!(life.init(api()));
    let outcome = life.dispatch("chunkwm_export_space_changed", &RawData::Nothing);
    assert_eq!(outcome, Outcome::Handled);
    assert!(outcome.success());
    assert_eq!(seen(&life), vec!["SpaceChanged".to_string()]);
}

#[test]
fn dispatch_hands_over_events_in_order() {
    let mut life: Lifecycle<Recorder> = Lifecycle::new();
    life.init(api());
    life.dispatch("chunkwm_export_display_added", &RawData::Display(5));
    life.dispatch("some_future_event", &RawData::Nothing);
    life.dispatch("chunkwm_export_display_changed", &RawData::Nothing);
    assert_eq!(
        seen(&life),
        vec![
            "DisplayAdded(5)".to_string(),
            "Other(\"some_future_event\")".to_string(),
            "DisplayChanged".to_string()
        ]
    );
}

#[test]
fn handler_failure_becomes_the_outcome() {
    let mut life: Lifecycle<Recorder> = Lifecycle::new();
    life.init(api());
    let outcome = life.dispatch("fail", &RawData::Nothing);
    assert_eq!(outcome, Outcome::Failed(ChunkWMError::Internal("asked to fail")));
    assert!(!outcome.success());
    assert!(matches!(life, Lifecycle::Active(_)));
    assert_eq!(life.dispatch("chunkwm_export_space_changed", &RawData::Nothing), Outcome::Handled);
}

#[test]
fn accessor_failure_in_the_handler_becomes_the_outcome() {
    let mut life: Lifecycle<Recorder> = Lifecycle::new();
    life.init(api());
    let mut raw = raw_application();
    raw.element = Handle::new(0);
    let outcome =
        life.dispatch("chunkwm_export_application_launched", &RawData::Application(raw));
    assert_eq!(outcome, Outcome::Failed(ChunkWMError::NullPointer));
    let outcome = life
        .dispatch("chunkwm_export_application_launched", &RawData::Application(raw_application()));
    assert_eq!(outcome, Outcome::Handled);
}

#[test]
fn notification_that_cannot_be_decoded_does_not_reach_the_handler() {
    let mut life: Lifecycle<Recorder> = Lifecycle::new();
    life.init(api());
    let outcome = life.dispatch("chunkwm_export_window_focused", &RawData::Nothing);
    assert_eq!(outcome, Outcome::Failed(ChunkWMError::NullPointer));
    assert!(!outcome.success());
    assert!(seen(&life).is_empty());
}

#[test]
fn init_again_replaces_the_plugin() {
    let mut life: Lifecycle<Recorder> = Lifecycle::new();
    life.init(api());
    life.dispatch("chunkwm_export_space_changed", &RawData::Nothing);
    assert_eq!(seen(&life).len(), 1);
    assert!(life.init(api()));
    assert!(seen(&life).is_empty());
}

#[test]
fn deinit_shuts_the_plugin_down() {
    let mut life: Lifecycle<Recorder> = Lifecycle::new();
    life.init(api());
    life.deinit();
    assert!(matches!(life, Lifecycle::Shutdown));
    let outcome = life.dispatch("chunkwm_export_space_changed", &RawData::Nothing);
    assert_eq!(outcome, Outcome::NotActive);
    assert!(matches!(life, Lifecycle::Shutdown));
}

#[test]
fn shutdown_is_terminal() {
    let mut life: Lifecycle<Recorder> = Lifecycle::new();
    life.init(api());
    life.deinit();
    assert!(!life.init(api()));
    assert!(matches!(life, Lifecycle::Shutdown));
    life.deinit();
    assert!(matches!(life, Lifecycle::Shutdown));
}

#[test]
fn deinit_before_init_does_nothing() {
    let mut life: Lifecycle<Recorder> = Lifecycle::new();
    life.deinit();
    assert!(matches!(life, Lifecycle::Uninitialized));
    assert!(life.init(api()));
}

/// A plugin that counts how often it is shut down.
struct Counted {
    shutdowns: Rc<Cell<u32>>,
}

impl HandleEvent for Counted {
    fn new(_: API) -> Self {
        Counted { shutdowns: Rc::new(Cell::new(0)) }
    }

    fn subscribe() -> &'static [Subscription] {
        &[]
    }

    fn handle(&mut self, _: Event) -> Result<(), ChunkWMError> {
        Ok(())
    }

    fn shutdown(&self) {
        self.shutdowns.set(self.shutdowns.get() + 1);
    }
}

#[test]
fn shutdown_runs_once() {
    let mut life: Lifecycle<Counted> = Lifecycle::new();
    life.init(api());
    let shutdowns = match &life {
        Lifecycle::Active(plugin) => plugin.shutdowns.clone(),
        _ => panic!("the plugin is not active"),
    };
    assert_eq!(shutdowns.get(), 0);
    life.deinit();
    assert_eq!(shutdowns.get(), 1);
    life.deinit();
    life.deinit();
    assert_eq!(shutdowns.get(), 1);
}

#[test]
fn subscriptions_of_a_plugin_go_to_the_host_as_codes() {
    assert_eq!(Subscription::codes(Recorder::subscribe()).len(), 20);
    assert_eq!(Subscription::codes(Counted::subscribe()), Vec::<u32>::new());
}

#[test]
fn outcome_of_a_result() {
    assert_eq!(Outcome::of(Ok(())), Outcome::Handled);
    assert_eq!(
        Outcome::of(Err(ChunkWMError::ParseError("x"))),
        Outcome::Failed(ChunkWMError::ParseError("x"))
    );
}

#[test]
fn only_handled_is_success() {
    assert!(Outcome::Handled.success());
    assert!(!Outcome::Failed(ChunkWMError::NullPointer).success());
    assert!(!Outcome::NotActive.success());
}

#[test]
fn handled_is_not_reported() {
    assert_eq!(Outcome::Handled.report(&api()), None);
}

#[test]
fn failure_is_reported_as_an_error() {
    assert_eq!(
        Outcome::Failed(ChunkWMError::NullPointer).report(&api()),
        Some(HostCall::Log {
            level: LogLevel::Error,
            message: "Error: The raw pointer is outlived.\n".to_string()
        })
    );
    assert_eq!(
        Outcome::Failed(ChunkWMError::CVarNotFound("bsp_spawn_left")).report(&api()),
        Some(HostCall::Log {
            level: LogLevel::Error,
            message: "Error: A `CVar` cannot be found.: bsp_spawn_left\n".to_string()
        })
    );
    assert_eq!(
        Outcome::Failed(ChunkWMError::Internal("could not run set_size successfully"))
            .report(&api()),
        Some(HostCall::Log {
            level: LogLevel::Error,
            message:
                "Error: An error occured in a chunkwm function.: could not run set_size successfully\n"
                    .to_string()
        })
    );
}

#[test]
fn missing_plugin_is_reported_as_an_error() {
    assert_eq!(
        Outcome::NotActive.report(&api()),
        Some(HostCall::Log {
            level: LogLevel::Error,
            message: "Error: plugin was not initialised.\n".to_string()
        })
    );
}
