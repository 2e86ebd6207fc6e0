use chunkwm::event::{
    Carried, Event, RawData, Subscription, API_VERSION, DAEMON_COMMAND, MAGIC, WINDOW_FOCUSED,
};
use chunkwm::raw::{
    Handle, ProcessSerialNumber, RawApplication, RawObserver, RawPayload, RawWindow,
};
use chunkwm::window::WindowFlag;
use chunkwm::ChunkWMError;
use core_graphics::geometry::{CGPoint, CGSize};

fn raw_application() -> RawApplication {
    RawApplication {
        element: Handle::new(0x10),
        observer: RawObserver { observer: Handle::new(0x20), enabled: true, valid: true },
        name: Some("Safari".to_string()),
        pid: 501,
        process_serial_number: ProcessSerialNumber { high_long: 0, low_long: 123_456 },
    }
}

fn raw_window() -> RawWindow {
    RawWindow {
        element: Handle::new(0x30),
        main_role: Some("AXWindow".to_string()),
        sub_role: Some("AXStandardWindow".to_string()),
        owner: Some(raw_application()),
        id: 17,
        name: Some("Start Page".to_string()),
        flags: 6,
        level: 0,
        position: CGPoint::new(0.0, 23.0),
        size: CGSize::new(1280.0, 777.0),
    }
}

fn raw_payload() -> RawPayload {
    RawPayload { sock_fd: 9, command: Some("focus".to_string()), message: Some("east".to_string()) }
}

const TAGS: [(Subscription, &str, Carried); 20] = [
    (Subscription::ApplicationLaunched, "chunkwm_export_application_launched", Carried::Application),
    (
        Subscription::ApplicationTerminated,
        "chunkwm_export_application_terminated",
        Carried::Application,
    ),
    (Subscription::ApplicationActivated, "chunkwm_export_application_activated", Carried::Application),
    (
        Subscription::ApplicationDeactivated,
        "chunkwm_export_application_deactivated",
        Carried::Application,
    ),
    (Subscription::ApplicationHidden, "chunkwm_export_application_hidden", Carried::Application),
    (Subscription::ApplicationUnhidden, "chunkwm_export_application_unhidden", Carried::Application),
    (Subscription::SpaceChanged, "chunkwm_export_space_changed", Carried::Nothing),
    (Subscription::DisplayChanged, "chunkwm_export_display_changed", Carried::Nothing),
    (Subscription::DisplayAdded, "chunkwm_export_display_added", Carried::Display),
    (Subscription::DisplayRemoved, "chunkwm_export_display_removed", Carried::Display),
    (Subscription::DisplayMoved, "chunkwm_export_display_moved", Carried::Display),
    (Subscription::DisplayResized, "chunkwm_export_display_resized", Carried::Display),
    (Subscription::WindowCreated, "chunkwm_export_window_created", Carried::Window),
    (Subscription::WindowDestroyed, "chunkwm_export_window_destroyed", Carried::Window),
    (Subscription::WindowFocused, "chunkwm_export_window_focused", Carried::Window),
    (Subscription::WindowMoved, "chunkwm_export_window_moved", Carried::Window),
    (Subscription::WindowResized, "chunkwm_export_window_resized", Carried::Window),
    (Subscription::WindowMinimized, "chunkwm_export_window_minimized", Carried::Window),
    (Subscription::WindowDeminimized, "chunkwm_export_window_deminimized", Carried::Window),
    (Subscription::WindowTitleChanged, "chunkwm_export_window_title_changed", Carried::Window),
];

fn data_for(carried: Carried) -> RawData {
    match carried {
        Carried::Application => RawData::Application(raw_application()),
        Carried::Window => RawData::Window(raw_window()),
        Carried::Display => RawData::Display(42),
        Carried::Command => RawData::Command(raw_payload()),
        Carried::Nothing => RawData::Nothing,
    }
}

/// The name of the variant of an event.
fn variant(event: &Event) -> String {
    let text = format!("{:?}", event);
    text.split(|c: char| !c.is_alphanumeric()).next().unwrap().to_string()
}

#[test]
fn interface_constants() {
    assert_eq!(API_VERSION, 8);
    assert_eq!(MAGIC, "chwmpl");
    assert_eq!(MAGIC.len(), 6);
    assert_eq!(DAEMON_COMMAND, "chunkwm_daemon_command");
    assert_eq!(WINDOW_FOCUSED, "chunkwm_export_window_focused");
}

#[test]
fn all_lists_every_subscription_in_the_hosts_order() {
    let all = Subscription::all();
    assert_eq!(all.len(), 20);
    for (position, (subscription, _, _)) in TAGS.iter().enumerate() {
        assert_eq!(all[position], *subscription);
    }
    assert_eq!(all[0], Subscription::ApplicationLaunched);
    assert_eq!(all[6], Subscription::SpaceChanged);
    assert_eq!(all[7], Subscription::DisplayChanged);
    assert_eq!(all[19], Subscription::WindowTitleChanged);
}

#[test]
fn code_is_the_position_in_all() {
    for (position, subscription) in Subscription::all().iter().enumerate() {
        assert_eq!(subscription.code() as usize, position);
    }
    assert_eq!(Subscription::WindowFocused.code(), 14);
}

#[test]
fn codes_keep_the_order_of_the_list() {
    let list = [
        Subscription::WindowFocused,
        Subscription::ApplicationLaunched,
        Subscription::WindowFocused,
        Subscription::DisplayResized,
    ];
    assert_eq!(Subscription::codes(&list), vec![14, 0, 14, 11]);
    assert_eq!(Subscription::codes(&[]), Vec::<u32>::new());
    assert_eq!(Subscription::codes(Subscription::all()), (0..20).collect::<Vec<u32>>());
}

#[test]
fn tag_of_each_subscription() {
    for (subscription, tag, _) in TAGS.iter() {
        assert_eq!(subscription.tag(), *tag);
    }
}

#[test]
fn from_tag_is_the_inverse_of_tag() {
    for (subscription, tag, _) in TAGS.iter() {
        assert_eq!(Subscription::from_tag(tag), Some(*subscription));
        assert_eq!(Subscription::from_tag(subscription.tag()), Some(*subscription));
    }
}

#[test]
fn from_tag_of_other_tags_is_none() {
    for tag in [
        "",
        "some_future_event",
        "chunkwm_daemon_command",
        "chunkwm_export_window_sheet_created",
        "chunkwm_export_window_focused ",
        "CHUNKWM_EXPORT_WINDOW_FOCUSED",
        "chunkwm_export_window_focuse",
    ] {
        assert_eq!(Subscription::from_tag(tag), None);
    }
}

#[test]
fn carries_of_each_subscription() {
    for (subscription, _, carried) in TAGS.iter() {
        assert_eq!(subscription.carries(), *carried);
    }
}

#[test]
fn expects_of_each_tag() {
    for (_, tag, carried) in TAGS.iter() {
        assert_eq!(Event::expects(tag), *carried);
    }
    assert_eq!(Event::expects("chunkwm_daemon_command"), Carried::Command);
    assert_eq!(Event::expects("some_future_event"), Carried::Nothing);
    assert_eq!(Event::expects(""), Carried::Nothing);
}

#[test]
fn delivers_nothing_to_an_empty_list() {
    for (_, tag, _) in TAGS.iter() {
        assert!(!Subscription::delivers(&[], tag));
    }
    assert!(!Subscription::delivers(&[], "some_future_event"));
}

#[test]
fn delivers_everything_to_all() {
    for (_, tag, _) in TAGS.iter() {
        assert!(Subscription::delivers(Subscription::all(), tag));
    }
    assert!(!Subscription::delivers(Subscription::all(), "chunkwm_daemon_command"));
    assert!(!Subscription::delivers(Subscription::all(), "some_future_event"));
}

#[test]
fn delivers_what_is_on_the_list() {
    let list = [Subscription::WindowFocused, Subscription::ApplicationLaunched];
    assert!(Subscription::delivers(&list, "chunkwm_export_window_focused"));
    assert!(Subscription::delivers(&list, "chunkwm_export_application_launched"));
    assert!(!Subscription::delivers(&list, "chunkwm_export_window_moved"));
}

#[test]
fn window_focused_is_decoded_with_the_window() {
    let event = Event::decode("chunkwm_export_window_focused", &RawData::Window(raw_window()));
    match event {
        Ok(Event::WindowFocused(window)) => {
            assert_eq!(window.element(), Ok(Handle::new(0x30)));
            assert_eq!(window.id(), Ok(17));
            assert_eq!(window.name(), Ok("Start Page".to_string()));
            assert_eq!(window.main_role(), Ok("AXWindow".to_string()));
            assert_eq!(window.sub_role(), Ok("AXStandardWindow".to_string()));
            assert_eq!(window.level(), Ok(0));
            assert_eq!(window.flags(), Ok(vec![WindowFlag::Movable, WindowFlag::Resizable]));
            assert_eq!(window.position().unwrap().y, 23.0);
            assert_eq!(window.size().unwrap().width, 1280.0);
            let owner = window.owner().unwrap();
            assert_eq!(owner.get_name(), Ok("Safari".to_string()));
            assert_eq!(owner.get_pid(), Ok(501));
        }
        other => panic!("decoded to {:?}", other),
    }
}

#[test]
fn unknown_tag_is_decoded_to_other() {
    match Event::decode("some_future_event", &RawData::Nothing) {
        Ok(Event::Other(tag)) => assert_eq!(tag, "some_future_event"),
        other => panic!("decoded to {:?}", other),
    }
}

#[test]
fn unknown_tag_is_other_whatever_comes_with_it() {
    for data in [
        RawData::Application(raw_application()),
        RawData::Window(raw_window()),
        RawData::Display(1),
        RawData::Command(raw_payload()),
        RawData::Nothing,
    ] {
        match Event::decode("chunkwm_export_window_sheet_created", &data) {
            Ok(Event::Other(tag)) => assert_eq!(tag, "chunkwm_export_window_sheet_created"),
            other => panic!("decoded to {:?}", other),
        }
    }
    match Event::decode("", &RawData::Nothing) {
        Ok(Event::Other(tag)) => assert_eq!(tag, ""),
        other => panic!("decoded to {:?}", other),
    }
}

#[test]
fn every_tag_is_decoded_to_its_own_event() {
    for (subscription, tag, carried) in TAGS.iter() {
        let event = Event::decode(tag, &data_for(*carried)).unwrap();
        assert_eq!(variant(&event), format!("{:?}", subscription));
    }
}

#[test]
fn application_event_holds_the_application() {
    let data = RawData::Application(raw_application());
    match Event::decode("chunkwm_export_application_launched", &data) {
        Ok(Event::ApplicationLaunched(application)) => {
            assert_eq!(application.get_name(), Ok("Safari".to_string()));
            assert_eq!(application.get_pid(), Ok(501));
            assert_eq!(
                application.get_process_serial_number(),
                Ok(ProcessSerialNumber { high_long: 0, low_long: 123_456 })
            );
        }
        other => panic!("decoded to {:?}", other),
    }
    match Event::decode("chunkwm_export_application_unhidden", &data) {
        Ok(Event::ApplicationUnhidden(application)) => {
            assert_eq!(application.get_element(), Ok(Handle::new(0x10)))
        }
        other => panic!("decoded to {:?}", other),
    }
}

#[test]
fn display_event_holds_the_identifier() {
    match Event::decode("chunkwm_export_display_added", &RawData::Display(69_733_382)) {
        Ok(Event::DisplayAdded(id)) => assert_eq!(id, 69_733_382),
        other => panic!("decoded to {:?}", other),
    }
    match Event::decode("chunkwm_export_display_resized", &RawData::Display(0)) {
        Ok(Event::DisplayResized(id)) => assert_eq!(id, 0),
        other => panic!("decoded to {:?}", other),
    }
}

#[test]
fn bare_events_ignore_what_comes_with_them() {
    for data in [RawData::Nothing, RawData::Display(3), RawData::Window(raw_window())] {
        assert!(matches!(
            Event::decode("chunkwm_export_display_changed", &data),
            Ok(Event::DisplayChanged)
        ));
        assert!(matches!(
            Event::decode("chunkwm_export_space_changed", &data),
            Ok(Event::SpaceChanged)
        ));
    }
}

#[test]
fn daemon_command_holds_the_payload() {
    match Event::decode("chunkwm_daemon_command", &RawData::Command(raw_payload())) {
        Ok(Event::DaemonCommand(payload)) => {
            assert_eq!(payload.sock_fd(), Ok(9));
            assert_eq!(payload.command(), Ok("focus".to_string()));
            assert_eq!(payload.message(), Ok("east".to_string()));
        }
        other => panic!("decoded to {:?}", other),
    }
}

#[test]
fn known_tag_without_its_record_is_null_pointer() {
    for (_, tag, carried) in TAGS.iter() {
        if *carried != Carried::Nothing {
            assert_eq!(
                Event::decode(tag, &RawData::Nothing).err(),
                Some(ChunkWMError::NullPointer)
            );
        }
    }
    assert_eq!(
        Event::decode("chunkwm_daemon_command", &RawData::Nothing).err(),
        Some(ChunkWMError::NullPointer)
    );
}

#[test]
fn known_tag_with_a_record_of_another_kind_is_null_pointer() {
    assert_eq!(
        Event::decode("chunkwm_export_window_focused", &RawData::Application(raw_application()))
            .err(),
        Some(ChunkWMError::NullPointer)
    );
    assert_eq!(
        Event::decode("chunkwm_export_application_launched", &RawData::Window(raw_window())).err(),
        Some(ChunkWMError::NullPointer)
    );
    assert_eq!(
        Event::decode("chunkwm_export_display_added", &RawData::Command(raw_payload())).err(),
        Some(ChunkWMError::NullPointer)
    );
    assert_eq!(
        Event::decode("chunkwm_daemon_command", &RawData::Display(1)).err(),
        Some(ChunkWMError::NullPointer)
    );
}

#[test]
fn window_event_without_owner_is_null_pointer() {
    let mut raw = raw_window();
    raw.owner = None;
    assert_eq!(
        Event::decode("chunkwm_export_window_created", &RawData::Window(raw)).err(),
        Some(ChunkWMError::NullPointer)
    );
}
