//! Notifications: what the plugin subscribes to, the typed event that the
//! bridge makes of a notification, and the life of the plugin between the
//! host's calls.

use crate::api::{call_of, HostCall, HostCallView, LogLevel, API};
use crate::application::{Application, ApplicationView};
use crate::payload::{Payload, PayloadView};
use crate::raw::{RawApplication, RawPayload, RawWindow};
use crate::text::same_text;
use crate::window::{window_of, Window, WindowView};
use crate::{description_of, ChunkWMError};
use vstd::prelude::*;
use vstd::string::StringExecFns;

verus! {

/// The display identifier.
pub type DisplayID = u32;

/// The version of the interface between host and plugin that this bridge
/// speaks. The host turns away a plugin whose version it does not know.
pub const API_VERSION: u32 = 8;

/// The six characters by which the host knows the description of a plugin.
pub const MAGIC: &'static str = "chwmpl";

/// The tag of the notification `ApplicationLaunched`.
pub const APPLICATION_LAUNCHED: &'static str = "chunkwm_export_application_launched";

/// The tag of the notification `ApplicationTerminated`.
pub const APPLICATION_TERMINATED: &'static str = "chunkwm_export_application_terminated";

/// The tag of the notification `ApplicationActivated`.
pub const APPLICATION_ACTIVATED: &'static str = "chunkwm_export_application_activated";

/// The tag of the notification `ApplicationDeactivated`.
pub const APPLICATION_DEACTIVATED: &'static str = "chunkwm_export_application_deactivated";

/// The tag of the notification `ApplicationHidden`.
pub const APPLICATION_HIDDEN: &'static str = "chunkwm_export_application_hidden";

/// The tag of the notification `ApplicationUnhidden`.
pub const APPLICATION_UNHIDDEN: &'static str = "chunkwm_export_application_unhidden";

/// The tag of the notification `SpaceChanged`.
pub const SPACE_CHANGED: &'static str = "chunkwm_export_space_changed";

/// The tag of the notification `DisplayChanged`.
pub const DISPLAY_CHANGED: &'static str = "chunkwm_export_display_changed";

/// The tag of the notification `DisplayAdded`.
pub const DISPLAY_ADDED: &'static str = "chunkwm_export_display_added";

/// The tag of the notification `DisplayRemoved`.
pub const DISPLAY_REMOVED: &'static str = "chunkwm_export_display_removed";

/// The tag of the notification `DisplayMoved`.
pub const DISPLAY_MOVED: &'static str = "chunkwm_export_display_moved";

/// The tag of the notification `DisplayResized`.
pub const DISPLAY_RESIZED: &'static str = "chunkwm_export_display_resized";

/// The tag of the notification `WindowCreated`.
pub const WINDOW_CREATED: &'static str = "chunkwm_export_window_created";

/// The tag of the notification `WindowDestroyed`.
pub const WINDOW_DESTROYED: &'static str = "chunkwm_export_window_destroyed";

/// The tag of the notification `WindowFocused`.
pub const WINDOW_FOCUSED: &'static str = "chunkwm_export_window_focused";

/// The tag of the notification `WindowMoved`.
pub const WINDOW_MOVED: &'static str = "chunkwm_export_window_moved";

/// The tag of the notification `WindowResized`.
pub const WINDOW_RESIZED: &'static str = "chunkwm_export_window_resized";

/// The tag of the notification `WindowMinimized`.
pub const WINDOW_MINIMIZED: &'static str = "chunkwm_export_window_minimized";

/// The tag of the notification `WindowDeminimized`.
pub const WINDOW_DEMINIMIZED: &'static str = "chunkwm_export_window_deminimized";

/// The tag of the notification `WindowTitleChanged`.
pub const WINDOW_TITLE_CHANGED: &'static str = "chunkwm_export_window_title_changed";

/// The tag of a command that came in over the daemon's socket.
pub const DAEMON_COMMAND: &'static str = "chunkwm_daemon_command";

/// What a notification brings with it.
#[derive(Debug, Clone, Copy, PartialEq, Eq, Structural)]
pub enum Carried {
    /// The host's record of an application.
    Application,
    /// The host's record of a window.
    Window,
    /// The identifier of a display.
    Display,
    /// The host's record of a command.
    Command,
    /// Nothing that the bridge reads.
    Nothing,
}

/// A notification that a plugin can subscribe to. The host numbers the
/// notifications in the order in which they stand here.
#[derive(Debug, Clone, Copy, PartialEq, Eq, Hash, Structural)]
pub enum Subscription {
    /// An application was launched.
    ApplicationLaunched,
    /// An application was terminated.
    ApplicationTerminated,
    /// An application came to the front.
    ApplicationActivated,
    /// An application left the front.
    ApplicationDeactivated,
    /// An application was hidden.
    ApplicationHidden,
    /// An application was shown again.
    ApplicationUnhidden,
    /// The active space changed.
    SpaceChanged,
    /// The active display changed.
    DisplayChanged,
    /// A display was added.
    DisplayAdded,
    /// A display was removed.
    DisplayRemoved,
    /// A display was moved.
    DisplayMoved,
    /// A display was resized.
    DisplayResized,
    /// A window was created.
    WindowCreated,
    /// A window was destroyed.
    WindowDestroyed,
    /// A window got the focus.
    WindowFocused,
    /// A window was moved.
    WindowMoved,
    /// A window was resized.
    WindowResized,
    /// A window was minimized.
    WindowMinimized,
    /// A window was restored from the dock.
    WindowDeminimized,
    /// The title of a window changed.
    WindowTitleChanged,
}

/// Every notification, in the host's order.
pub open spec fn all_subscriptions() -> Seq<Subscription> {
    seq![
        Subscription::ApplicationLaunched,
        Subscription::ApplicationTerminated,
        Subscription::ApplicationActivated,
        Subscription::ApplicationDeactivated,
        Subscription::ApplicationHidden,
        Subscription::ApplicationUnhidden,
        Subscription::SpaceChanged,
        Subscription::DisplayChanged,
        Subscription::DisplayAdded,
        Subscription::DisplayRemoved,
        Subscription::DisplayMoved,
        Subscription::DisplayResized,
        Subscription::WindowCreated,
        Subscription::WindowDestroyed,
        Subscription::WindowFocused,
        Subscription::WindowMoved,
        Subscription::WindowResized,
        Subscription::WindowMinimized,
        Subscription::WindowDeminimized,
        Subscription::WindowTitleChanged,
    ]
}

/// The notification that has the given tag, if any.
pub open spec fn subscription_of(tag: Seq<char>) -> Option<Subscription> {
    if exists|s: Subscription| s.spec_tag() == tag {
        Some(choose|s: Subscription| s.spec_tag() == tag)
    } else {
        None
    }
}

/// Whether a plugin with the given subscriptions is sent the notification
/// with the given tag: the host sends what is on the list and nothing else.
pub open spec fn subscribed(list: Seq<Subscription>, tag: Seq<char>) -> bool {
    exists|i: int| 0 <= i < list.len() && list[i].spec_tag() == tag
}

/// What tells two tags apart: the length and the third character from the
/// end.
pub open spec fn mark(tag: Seq<char>) -> (nat, char) {
    (tag.len(), tag[tag.len() - 3])
}

impl Subscription {
    /// The number by which the host knows this notification.
    pub open spec fn spec_code(self) -> u32 {
        match self {
            Subscription::ApplicationLaunched => 0,
            Subscription::ApplicationTerminated => 1,
            Subscription::ApplicationActivated => 2,
            Subscription::ApplicationDeactivated => 3,
            Subscription::ApplicationHidden => 4,
            Subscription::ApplicationUnhidden => 5,
            Subscription::SpaceChanged => 6,
            Subscription::DisplayChanged => 7,
            Subscription::DisplayAdded => 8,
            Subscription::DisplayRemoved => 9,
            Subscription::DisplayMoved => 10,
            Subscription::DisplayResized => 11,
            Subscription::WindowCreated => 12,
            Subscription::WindowDestroyed => 13,
            Subscription::WindowFocused => 14,
            Subscription::WindowMoved => 15,
            Subscription::WindowResized => 16,
            Subscription::WindowMinimized => 17,
            Subscription::WindowDeminimized => 18,
            Subscription::WindowTitleChanged => 19,
        }
    }

    /// The tag under which the host sends this notification.
    pub open spec fn spec_tag(self) -> Seq<char> {
        match self {
            Subscription::ApplicationLaunched => APPLICATION_LAUNCHED@,
            Subscription::ApplicationTerminated => APPLICATION_TERMINATED@,
            Subscription::ApplicationActivated => APPLICATION_ACTIVATED@,
            Subscription::ApplicationDeactivated => APPLICATION_DEACTIVATED@,
            Subscription::ApplicationHidden => APPLICATION_HIDDEN@,
            Subscription::ApplicationUnhidden => APPLICATION_UNHIDDEN@,
            Subscription::SpaceChanged => SPACE_CHANGED@,
            Subscription::DisplayChanged => DISPLAY_CHANGED@,
            Subscription::DisplayAdded => DISPLAY_ADDED@,
            Subscription::DisplayRemoved => DISPLAY_REMOVED@,
            Subscription::DisplayMoved => DISPLAY_MOVED@,
            Subscription::DisplayResized => DISPLAY_RESIZED@,
            Subscription::WindowCreated => WINDOW_CREATED@,
            Subscription::WindowDestroyed => WINDOW_DESTROYED@,
            Subscription::WindowFocused => WINDOW_FOCUSED@,
            Subscription::WindowMoved => WINDOW_MOVED@,
            Subscription::WindowResized => WINDOW_RESIZED@,
            Subscription::WindowMinimized => WINDOW_MINIMIZED@,
            Subscription::WindowDeminimized => WINDOW_DEMINIMIZED@,
            Subscription::WindowTitleChanged => WINDOW_TITLE_CHANGED@,
        }
    }

    /// What this notification brings with it.
    pub open spec fn spec_carries(self) -> Carried {
        match self {
            Subscription::ApplicationLaunched => Carried::Application,
            Subscription::ApplicationTerminated => Carried::Application,
            Subscription::ApplicationActivated => Carried::Application,
            Subscription::ApplicationDeactivated => Carried::Application,
            Subscription::ApplicationHidden => Carried::Application,
            Subscription::ApplicationUnhidden => Carried::Application,
            Subscription::SpaceChanged => Carried::Nothing,
            Subscription::DisplayChanged => Carried::Nothing,
            Subscription::DisplayAdded => Carried::Display,
            Subscription::DisplayRemoved => Carried::Display,
            Subscription::DisplayMoved => Carried::Display,
            Subscription::DisplayResized => Carried::Display,
            Subscription::WindowCreated => Carried::Window,
            Subscription::WindowDestroyed => Carried::Window,
            Subscription::WindowFocused => Carried::Window,
            Subscription::WindowMoved => Carried::Window,
            Subscription::WindowResized => Carried::Window,
            Subscription::WindowMinimized => Carried::Window,
            Subscription::WindowDeminimized => Carried::Window,
            Subscription::WindowTitleChanged => Carried::Window,
        }
    }

    /// The number by which the host knows this notification.
    pub fn code(self) -> (code: u32)
        ensures
            code == self.spec_code(),
            code < 20,
    {
        match self {
            Subscription::ApplicationLaunched => 0,
            Subscription::ApplicationTerminated => 1,
            Subscription::ApplicationActivated => 2,
            Subscription::ApplicationDeactivated => 3,
            Subscription::ApplicationHidden => 4,
            Subscription::ApplicationUnhidden => 5,
            Subscription::SpaceChanged => 6,
            Subscription::DisplayChanged => 7,
            Subscription::DisplayAdded => 8,
            Subscription::DisplayRemoved => 9,
            Subscription::DisplayMoved => 10,
            Subscription::DisplayResized => 11,
            Subscription::WindowCreated => 12,
            Subscription::WindowDestroyed => 13,
            Subscription::WindowFocused => 14,
            Subscription::WindowMoved => 15,
            Subscription::WindowResized => 16,
            Subscription::WindowMinimized => 17,
            Subscription::WindowDeminimized => 18,
            Subscription::WindowTitleChanged => 19,
        }
    }

    /// The tag under which the host sends this notification.
    pub fn tag(self) -> (tag: &'static str)
        ensures
            tag@ == self.spec_tag(),
    {
        match self {
            Subscription::ApplicationLaunched => APPLICATION_LAUNCHED,
            Subscription::ApplicationTerminated => APPLICATION_TERMINATED,
            Subscription::ApplicationActivated => APPLICATION_ACTIVATED,
            Subscription::ApplicationDeactivated => APPLICATION_DEACTIVATED,
            Subscription::ApplicationHidden => APPLICATION_HIDDEN,
            Subscription::ApplicationUnhidden => APPLICATION_UNHIDDEN,
            Subscription::SpaceChanged => SPACE_CHANGED,
            Subscription::DisplayChanged => DISPLAY_CHANGED,
            Subscription::DisplayAdded => DISPLAY_ADDED,
            Subscription::DisplayRemoved => DISPLAY_REMOVED,
            Subscription::DisplayMoved => DISPLAY_MOVED,
            Subscription::DisplayResized => DISPLAY_RESIZED,
            Subscription::WindowCreated => WINDOW_CREATED,
            Subscription::WindowDestroyed => WINDOW_DESTROYED,
            Subscription::WindowFocused => WINDOW_FOCUSED,
            Subscription::WindowMoved => WINDOW_MOVED,
            Subscription::WindowResized => WINDOW_RESIZED,
            Subscription::WindowMinimized => WINDOW_MINIMIZED,
            Subscription::WindowDeminimized => WINDOW_DEMINIMIZED,
            Subscription::WindowTitleChanged => WINDOW_TITLE_CHANGED,
        }
    }

    /// What this notification brings with it.
    pub fn carries(self) -> (carried: Carried)
        ensures
            carried == self.spec_carries(),
            carried != Carried::Command,
    {
        match self {
            Subscription::ApplicationLaunched => Carried::Application,
            Subscription::ApplicationTerminated => Carried::Application,
            Subscription::ApplicationActivated => Carried::Application,
            Subscription::ApplicationDeactivated => Carried::Application,
            Subscription::ApplicationHidden => Carried::Application,
            Subscription::ApplicationUnhidden => Carried::Application,
            Subscription::SpaceChanged => Carried::Nothing,
            Subscription::DisplayChanged => Carried::Nothing,
            Subscription::DisplayAdded => Carried::Display,
            Subscription::DisplayRemoved => Carried::Display,
            Subscription::DisplayMoved => Carried::Display,
            Subscription::DisplayResized => Carried::Display,
            Subscription::WindowCreated => Carried::Window,
            Subscription::WindowDestroyed => Carried::Window,
            Subscription::WindowFocused => Carried::Window,
            Subscription::WindowMoved => Carried::Window,
            Subscription::WindowResized => Carried::Window,
            Subscription::WindowMinimized => Carried::Window,
            Subscription::WindowDeminimized => Carried::Window,
            Subscription::WindowTitleChanged => Carried::Window,
        }
    }

    /// Subscribe to all events: every notification, in the host's order.
    pub fn all() -> (list: &'static [Subscription])
        ensures
            list@ == all_subscriptions(),
            list@.len() == 20,
            forall|s: Subscription| #[trigger] list@[s.spec_code() as int] == s,
    {
        &[
            Subscription::ApplicationLaunched,
            Subscription::ApplicationTerminated,
            Subscription::ApplicationActivated,
            Subscription::ApplicationDeactivated,
            Subscription::ApplicationHidden,
            Subscription::ApplicationUnhidden,
            Subscription::SpaceChanged,
            Subscription::DisplayChanged,
            Subscription::DisplayAdded,
            Subscription::DisplayRemoved,
            Subscription::DisplayMoved,
            Subscription::DisplayResized,
            Subscription::WindowCreated,
            Subscription::WindowDestroyed,
            Subscription::WindowFocused,
            Subscription::WindowMoved,
            Subscription::WindowResized,
            Subscription::WindowMinimized,
            Subscription::WindowDeminimized,
            Subscription::WindowTitleChanged,
        ]
    }

    /// The notification that has the given tag; `None` for a tag that no
    /// notification has.
    pub fn from_tag(tag: &str) -> (found: Option<Subscription>)
        ensures
            found == subscription_of(tag@),
            match found {
                Some(s) => s.spec_tag() == tag@,
                None => forall|s: Subscription| s.spec_tag() != tag@,
            },
    {
        let list = Subscription::all();
        let mut i: usize = 0;
        while i < list.len()
            invariant
                i <= list.len(),
                list@ == all_subscriptions(),
                list@.len() == 20,
                forall|s: Subscription| #[trigger] list@[s.spec_code() as int] == s,
                forall|j: int| 0 <= j < i ==> list@[j].spec_tag() != tag@,
            decreases list.len() - i,
        {
            let candidate = list[i];
            if same_text(tag, candidate.tag()) {
                proof {
                    lemma_tags_differ(candidate, choose|s: Subscription| s.spec_tag() == tag@);
                }
                return Some(candidate);
            }
            i = i + 1;
        }
        proof {
            assert forall|s: Subscription| s.spec_tag() != tag@ by {
                assert(list@[s.spec_code() as int] == s);
            }
        }
        None
    }

    /// The numbers by which the host knows the notifications of a list, in the
    /// order of the list.
    pub fn codes(list: &[Subscription]) -> (codes: Vec<u32>)
        ensures
            codes@.len() == list@.len(),
            forall|i: int| 0 <= i < list@.len() ==> codes@[i] == list@[i].spec_code(),
    {
        let mut codes: Vec<u32> = Vec::new();
        let mut i: usize = 0;
        while i < list.len()
            invariant
                i <= list.len(),
                codes@.len() == i,
                forall|j: int| 0 <= j < i ==> codes@[j] == list@[j].spec_code(),
            decreases list.len() - i,
        {
            codes.push(list[i].code());
            i = i + 1;
        }
        codes
    }

    /// Whether a plugin with the given subscriptions is sent the notification
    /// with the given tag.
    pub fn delivers(list: &[Subscription], tag: &str) -> (sent: bool)
        ensures
            sent == subscribed(list@, tag@),
    {
        let mut i: usize = 0;
        while i < list.len()
            invariant
                i <= list.len(),
                forall|j: int| 0 <= j < i ==> list@[j].spec_tag() != tag@,
            decreases list.len() - i,
        {
            if same_text(tag, list[i].tag()) {
                return true;
            }
            i = i + 1;
        }
        false
    }
}

/// The mark of each tag.
pub proof fn lemma_marks()
    ensures
        mark(APPLICATION_LAUNCHED@) == (35nat, 'h'),
        mark(APPLICATION_TERMINATED@) == (37nat, 't'),
        mark(APPLICATION_ACTIVATED@) == (36nat, 't'),
        mark(APPLICATION_DEACTIVATED@) == (38nat, 't'),
        mark(APPLICATION_HIDDEN@) == (33nat, 'd'),
        mark(APPLICATION_UNHIDDEN@) == (35nat, 'd'),
        mark(SPACE_CHANGED@) == (28nat, 'g'),
        mark(DISPLAY_CHANGED@) == (30nat, 'g'),
        mark(DISPLAY_ADDED@) == (28nat, 'd'),
        mark(DISPLAY_REMOVED@) == (30nat, 'v'),
        mark(DISPLAY_MOVED@) == (28nat, 'v'),
        mark(DISPLAY_RESIZED@) == (30nat, 'z'),
        mark(WINDOW_CREATED@) == (29nat, 't'),
        mark(WINDOW_DESTROYED@) == (31nat, 'y'),
        mark(WINDOW_FOCUSED@) == (29nat, 's'),
        mark(WINDOW_MOVED@) == (27nat, 'v'),
        mark(WINDOW_RESIZED@) == (29nat, 'z'),
        mark(WINDOW_MINIMIZED@) == (31nat, 'z'),
        mark(WINDOW_DEMINIMIZED@) == (33nat, 'z'),
        mark(WINDOW_TITLE_CHANGED@) == (35nat, 'g'),
        mark(DAEMON_COMMAND@) == (22nat, 'a'),
{
    reveal_strlit("chunkwm_export_application_launched");
    reveal_strlit("chunkwm_export_application_terminated");
    reveal_strlit("chunkwm_export_application_activated");
    reveal_strlit("chunkwm_export_application_deactivated");
    reveal_strlit("chunkwm_export_application_hidden");
    reveal_strlit("chunkwm_export_application_unhidden");
    reveal_strlit("chunkwm_export_space_changed");
    reveal_strlit("chunkwm_export_display_changed");
    reveal_strlit("chunkwm_export_display_added");
    reveal_strlit("chunkwm_export_display_removed");
    reveal_strlit("chunkwm_export_display_moved");
    reveal_strlit("chunkwm_export_display_resized");
    reveal_strlit("chunkwm_export_window_created");
    reveal_strlit("chunkwm_export_window_destroyed");
    reveal_strlit("chunkwm_export_window_focused");
    reveal_strlit("chunkwm_export_window_moved");
    reveal_strlit("chunkwm_export_window_resized");
    reveal_strlit("chunkwm_export_window_minimized");
    reveal_strlit("chunkwm_export_window_deminimized");
    reveal_strlit("chunkwm_export_window_title_changed");
    reveal_strlit("chunkwm_daemon_command");
}

/// No two notifications have the same tag, and none has the tag of a command.
pub proof fn lemma_tags_differ(a: Subscription, b: Subscription)
    ensures
        a.spec_tag() == b.spec_tag() ==> a == b,
        a.spec_tag() != DAEMON_COMMAND@,
        subscription_of(a.spec_tag()) == Some(a),
        subscription_of(DAEMON_COMMAND@) == None::<Subscription>,
{
    lemma_marks();
    assert forall|s: Subscription| s.spec_tag() != DAEMON_COMMAND@ by {
        assert(mark(s.spec_tag()) != mark(DAEMON_COMMAND@));
    }
    assert forall|s: Subscription, t: Subscription| s.spec_tag() == t.spec_tag() implies s
        == t by {
        assert(mark(s.spec_tag()) == mark(t.spec_tag()));
    }
}

/// What the host hands over with a notification, copied out of its memory.
/// Which of these it is follows from the tag: see `Event::expects`.
#[derive(Debug)]
pub enum RawData {
    /// The host's record of an application.
    Application(RawApplication),
    /// The host's record of a window.
    Window(RawWindow),
    /// The identifier of a display.
    Display(DisplayID),
    /// The host's record of a command.
    Command(RawPayload),
    /// A null pointer, or a pointer that the bridge does not read.
    Nothing,
}

/// A notification of the host, as a typed value.
#[derive(Debug)]
pub enum Event {
    ApplicationLaunched(Application),
    ApplicationTerminated(Application),
    ApplicationActivated(Application),
    ApplicationDeactivated(Application),
    ApplicationHidden(Application),
    ApplicationUnhidden(Application),
    WindowCreated(Window),
    WindowDestroyed(Window),
    WindowFocused(Window),
    WindowMoved(Window),
    WindowResized(Window),
    WindowMinimized(Window),
    WindowDeminimized(Window),
    WindowTitleChanged(Window),
    DisplayAdded(DisplayID),
    DisplayRemoved(DisplayID),
    DisplayMoved(DisplayID),
    DisplayResized(DisplayID),
    DisplayChanged,
    SpaceChanged,
    DaemonCommand(Payload),
    /// A notification that the bridge does not know, with its tag.
    Other(String),
}

/// What an event is, to a contract.
pub enum EventView {
    /// A notification about an application.
    Application(Subscription, ApplicationView),
    /// A notification about a window.
    Window(Subscription, WindowView),
    /// A notification about a display.
    Display(Subscription, DisplayID),
    /// A notification that brings nothing with it.
    Bare(Subscription),
    /// A command from the daemon's socket.
    DaemonCommand(PayloadView),
    /// A notification that the bridge does not know, with its tag.
    Other(Seq<char>),
}

impl View for Event {
    type V = EventView;

    open spec fn view(&self) -> EventView {
        match *self {
            Event::ApplicationLaunched(a) => EventView::Application(Subscription::ApplicationLaunched, a@),
            Event::ApplicationTerminated(a) => EventView::Application(Subscription::ApplicationTerminated, a@),
            Event::ApplicationActivated(a) => EventView::Application(Subscription::ApplicationActivated, a@),
            Event::ApplicationDeactivated(a) => EventView::Application(Subscription::ApplicationDeactivated, a@),
            Event::ApplicationHidden(a) => EventView::Application(Subscription::ApplicationHidden, a@),
            Event::ApplicationUnhidden(a) => EventView::Application(Subscription::ApplicationUnhidden, a@),
            Event::SpaceChanged => EventView::Bare(Subscription::SpaceChanged),
            Event::DisplayChanged => EventView::Bare(Subscription::DisplayChanged),
            Event::DisplayAdded(id) => EventView::Display(Subscription::DisplayAdded, id),
            Event::DisplayRemoved(id) => EventView::Display(Subscription::DisplayRemoved, id),
            Event::DisplayMoved(id) => EventView::Display(Subscription::DisplayMoved, id),
            Event::DisplayResized(id) => EventView::Display(Subscription::DisplayResized, id),
            Event::WindowCreated(w) => EventView::Window(Subscription::WindowCreated, w@),
            Event::WindowDestroyed(w) => EventView::Window(Subscription::WindowDestroyed, w@),
            Event::WindowFocused(w) => EventView::Window(Subscription::WindowFocused, w@),
            Event::WindowMoved(w) => EventView::Window(Subscription::WindowMoved, w@),
            Event::WindowResized(w) => EventView::Window(Subscription::WindowResized, w@),
            Event::WindowMinimized(w) => EventView::Window(Subscription::WindowMinimized, w@),
            Event::WindowDeminimized(w) => EventView::Window(Subscription::WindowDeminimized, w@),
            Event::WindowTitleChanged(w) => EventView::Window(Subscription::WindowTitleChanged, w@),
            Event::DaemonCommand(p) => EventView::DaemonCommand(p@),
            Event::Other(tag) => EventView::Other(tag@),
        }
    }
}

/// What a notification with the given tag brings with it. A tag that the
/// bridge does not know brings nothing that it reads.
pub open spec fn expected(tag: Seq<char>) -> Carried {
    match subscription_of(tag) {
        Some(s) => s.spec_carries(),
        None => if tag == DAEMON_COMMAND@ {
            Carried::Command
        } else {
            Carried::Nothing
        },
    }
}

/// The event that a notification is decoded to; `None` where the notification
/// should bring a record and brings none, brings one of another kind, or
/// brings a window without an owner.
pub open spec fn decoded(tag: Seq<char>, data: RawData) -> Option<EventView> {
    match subscription_of(tag) {
        Some(s) => match s.spec_carries() {
            Carried::Application => match data {
                RawData::Application(a) => Some(EventView::Application(s, a@)),
                _ => None,
            },
            Carried::Window => match data {
                RawData::Window(w) => match w.owner {
                    Some(owner) => Some(EventView::Window(s, window_of(w, owner@))),
                    None => None,
                },
                _ => None,
            },
            Carried::Display => match data {
                RawData::Display(id) => Some(EventView::Display(s, id)),
                _ => None,
            },
            _ => Some(EventView::Bare(s)),
        },
        None => if tag == DAEMON_COMMAND@ {
            match data {
                RawData::Command(p) => Some(EventView::DaemonCommand(p@)),
                _ => None,
            }
        } else {
            Some(EventView::Other(tag))
        },
    }
}

impl Event {
    /// What the notification with the given tag brings with it: how the
    /// pointer that comes with the tag is to be read.
    pub fn expects(tag: &str) -> (carried: Carried)
        ensures
            carried == expected(tag@),
    {
        match Subscription::from_tag(tag) {
            Some(s) => s.carries(),
            None => {
                if same_text(tag, DAEMON_COMMAND) {
                    Carried::Command
                } else {
                    Carried::Nothing
                }
            },
        }
    }

    /// The event of a notification about an application.
    fn about_application(s: Subscription, application: Application) -> (event: Event)
        requires
            s.spec_carries() == Carried::Application,
        ensures
            event@ == EventView::Application(s, application@),
    {
        match s {
            Subscription::ApplicationLaunched => Event::ApplicationLaunched(application),
            Subscription::ApplicationTerminated => Event::ApplicationTerminated(application),
            Subscription::ApplicationActivated => Event::ApplicationActivated(application),
            Subscription::ApplicationDeactivated => Event::ApplicationDeactivated(application),
            Subscription::ApplicationHidden => Event::ApplicationHidden(application),
            _ => Event::ApplicationUnhidden(application),
        }
    }

    /// The event of a notification about a window.
    fn about_window(s: Subscription, window: Window) -> (event: Event)
        requires
            s.spec_carries() == Carried::Window,
        ensures
            event@ == EventView::Window(s, window@),
    {
        match s {
            Subscription::WindowCreated => Event::WindowCreated(window),
            Subscription::WindowDestroyed => Event::WindowDestroyed(window),
            Subscription::WindowFocused => Event::WindowFocused(window),
            Subscription::WindowMoved => Event::WindowMoved(window),
            Subscription::WindowResized => Event::WindowResized(window),
            Subscription::WindowMinimized => Event::WindowMinimized(window),
            Subscription::WindowDeminimized => Event::WindowDeminimized(window),
            _ => Event::WindowTitleChanged(window),
        }
    }

    /// The event of a notification about a display.
    fn about_display(s: Subscription, id: DisplayID) -> (event: Event)
        requires
            s.spec_carries() == Carried::Display,
        ensures
            event@ == EventView::Display(s, id),
    {
        match s {
            Subscription::DisplayAdded => Event::DisplayAdded(id),
            Subscription::DisplayRemoved => Event::DisplayRemoved(id),
            Subscription::DisplayMoved => Event::DisplayMoved(id),
            _ => Event::DisplayResized(id),
        }
    }

    /// The event of a notification that brings nothing with it.
    fn bare(s: Subscription) -> (event: Event)
        requires
            s.spec_carries() == Carried::Nothing,
        ensures
            event@ == EventView::Bare(s),
    {
        match s {
            Subscription::SpaceChanged => Event::SpaceChanged,
            _ => Event::DisplayChanged,
        }
    }

    /// Decodes a notification: the tag names the event, and what the host
    /// handed over with it is converted to the value that the event holds.
    ///
    /// A tag that the bridge does not know gives `Other` with the tag, never
    /// an error. A known tag fails with `NullPointer` where it should bring a
    /// record and brings none, brings one of another kind, or brings a window
    /// without an owner.
    pub fn decode(tag: &str, data: &RawData) -> (event: Result<Event, ChunkWMError>)
        ensures
            match decoded(tag@, *data) {
                Some(view) => event matches Ok(e) && e@ == view,
                None => event matches Err(error) && error == ChunkWMError::NullPointer,
            },
    {
        match Subscription::from_tag(tag) {
            Some(s) => match s.carries() {
                Carried::Application => match data {
                    RawData::Application(raw) => match Application::from_raw(Some(raw)) {
                        Ok(application) => Ok(Event::about_application(s, application)),
                        Err(error) => Err(error),
                    },
                    _ => Err(ChunkWMError::NullPointer),
                },
                Carried::Window => match data {
                    RawData::Window(raw) => match Window::from_raw(Some(raw)) {
                        Ok(window) => Ok(Event::about_window(s, window)),
                        Err(error) => Err(error),
                    },
                    _ => Err(ChunkWMError::NullPointer),
                },
                Carried::Display => match data {
                    RawData::Display(id) => Ok(Event::about_display(s, *id)),
                    _ => Err(ChunkWMError::NullPointer),
                },
                _ => Ok(Event::bare(s)),
            },
            None => {
                if same_text(tag, DAEMON_COMMAND) {
                    match data {
                        RawData::Command(raw) => match Payload::from_raw(Some(raw)) {
                            Ok(payload) => Ok(Event::DaemonCommand(payload)),
                            Err(error) => Err(error),
                        },
                        _ => Err(ChunkWMError::NullPointer),
                    }
                } else {
                    Ok(Event::Other(tag.to_owned()))
                }
            },
        }
    }
}

/// What a plugin implements: how it is made, what it subscribes to, how it
/// handles an event, and how it shuts down.
pub trait HandleEvent: Sized {
    /// Whether handling `event` can take the plugin from `self` to `after`
    /// with the given result. A plugin whose `handle` is verified says here
    /// what it does; any other plugin leaves this as it is.
    open spec fn handles(
        &self,
        event: EventView,
        after: Self,
        result: Result<(), ChunkWMError>,
    ) -> bool {
        true
    }

    /// Whether making a plugin with the host's interface `api` can give
    /// `plugin`. A plugin whose `new` is verified says here what it makes; any
    /// other plugin leaves this as it is.
    open spec fn made(api: API, plugin: Self) -> bool {
        true
    }

    /// Create a new instance of `Self`. This is run at the plugin's startup.
    fn new(api: API) -> (plugin: Self)
        ensures
            Self::made(api, plugin),
    ;

    /// Subscribe to events.
    fn subscribe() -> &'static [Subscription];

    /// Handle an `Event`.
    fn handle(&mut self, event: Event) -> (result: Result<(), ChunkWMError>)
        ensures
            old(self).handles(event@, *final(self), result),
    ;

    /// Is run when the plugin has been stopped.
    fn shutdown(&self);
}

/// What is logged for a notification that came while no plugin was active.
pub const NOT_INITIALISED: &'static str = "Error: plugin was not initialised.";

/// The text that is logged for an error: what kind of error it is, and the
/// detail that it carries, if any.
pub open spec fn error_text(error: ChunkWMError) -> Seq<char> {
    match error {
        ChunkWMError::NullPointer => "Error: "@ + description_of(error),
        ChunkWMError::CVarNotFound(detail) => "Error: "@ + description_of(error) + ": "@ + detail@,
        ChunkWMError::ParseError(detail) => "Error: "@ + description_of(error) + ": "@ + detail@,
        ChunkWMError::Internal(detail) => "Error: "@ + description_of(error) + ": "@ + detail@,
    }
}

/// What goes to the host's log for an outcome.
pub open spec fn report_of(outcome: Outcome) -> Option<HostCallView> {
    match outcome {
        Outcome::Handled => None,
        Outcome::Failed(error) => Some(
            HostCallView::Log { level: LogLevel::Error, message: error_text(error) + "\n"@ },
        ),
        Outcome::NotActive => Some(
            HostCallView::Log { level: LogLevel::Error, message: NOT_INITIALISED@ + "\n"@ },
        ),
    }
}

/// What became of a notification.
#[derive(Debug, Clone, Copy, PartialEq, Eq)]
pub enum Outcome {
    /// The plugin handled the event.
    Handled,
    /// The notification could not be decoded, or the plugin failed to handle
    /// the event. The error is for the host's log.
    Failed(ChunkWMError),
    /// There is no active plugin: it was never initialised, or it was shut
    /// down.
    NotActive,
}

impl Outcome {
    /// What the plugin's handler returned, for an outcome that came from it.
    pub open spec fn result(self) -> Result<(), ChunkWMError> {
        match self {
            Outcome::Failed(error) => Err(error),
            _ => Ok(()),
        }
    }

    /// The outcome of a notification that the plugin handled with the given
    /// result.
    pub fn of(result: Result<(), ChunkWMError>) -> (outcome: Outcome)
        ensures
            outcome == match result {
                Ok(_) => Outcome::Handled,
                Err(error) => Outcome::Failed(error),
            },
            outcome != Outcome::NotActive,
            outcome.result() == result,
    {
        match result {
            Ok(unit) => {
                assert(unit == ());
                Outcome::Handled
            },
            Err(error) => Outcome::Failed(error),
        }
    }

    /// What goes to the host's log for this outcome: nothing where the plugin
    /// handled the event, else an error with the reason.
    pub fn report(&self, api: &API) -> (call: Option<HostCall>)
        ensures
            call_of(call) == report_of(*self),
    {
        match self {
            Outcome::Handled => None,
            Outcome::Failed(error) => {
                let mut message = "Error: ".to_owned().concat(error.description());
                match error.detail() {
                    Some(detail) => {
                        message = message.concat(": ").concat(detail);
                    },
                    None => {},
                }
                Some(api.log(LogLevel::Error, message.as_str()))
            },
            Outcome::NotActive => Some(api.log(LogLevel::Error, NOT_INITIALISED)),
        }
    }

    /// What the host is told: true if the plugin handled the event, false
    /// otherwise.
    pub fn success(&self) -> (ok: bool)
        ensures
            ok == (*self == Outcome::Handled),
    {
        match self {
            Outcome::Handled => true,
            _ => false,
        }
    }
}

/// The life of a plugin between the host's calls: not yet initialised, active,
/// or shut down for good.
pub enum Lifecycle<P> {
    /// The host has not initialised the plugin.
    Uninitialized,
    /// The plugin is running.
    Active(P),
    /// The plugin was shut down. Nothing follows.
    Shutdown,
}

impl<P: HandleEvent> Lifecycle<P> {
    /// The state before the host's first call.
    pub fn new() -> (life: Self)
        ensures
            life is Uninitialized,
    {
        Lifecycle::Uninitialized
    }

    /// The host initialises the plugin: a new plugin is made with the host's
    /// interface and is active. A plugin that is active already is replaced. A
    /// plugin that was shut down stays so, and the host is told that
    /// initialising failed.
    pub fn init(&mut self, api: API) -> (ok: bool)
        ensures
            ok == !(*old(self) is Shutdown),
            *old(self) is Shutdown ==> *final(self) == *old(self),
            !(*old(self) is Shutdown) ==> (*final(self) matches Lifecycle::Active(plugin)
                && P::made(api, plugin)),
    {
        match self {
            Lifecycle::Shutdown => false,
            _ => {
                *self = Lifecycle::Active(P::new(api));
                true
            },
        }
    }

    /// The host delivers a notification. An active plugin is handed the
    /// decoded event, and the outcome is what it returns. A notification that
    /// cannot be decoded fails without reaching the plugin. Without an active
    /// plugin nothing happens.
    pub fn dispatch(&mut self, tag: &str, data: &RawData) -> (outcome: Outcome)
        ensures
            match *old(self) {
                Lifecycle::Active(plugin) => match decoded(tag@, *data) {
                    Some(event) => {
                        &&& outcome != Outcome::NotActive
                        &&& *final(self) matches Lifecycle::Active(after) && plugin.handles(
                            event,
                            after,
                            outcome.result(),
                        )
                    },
                    None => outcome == Outcome::Failed(ChunkWMError::NullPointer) && *final(self)
                        == *old(self),
                },
                _ => outcome == Outcome::NotActive && *final(self) == *old(self),
            },
    {
        match self {
            Lifecycle::Active(plugin) => match Event::decode(tag, data) {
                Ok(event) => Outcome::of(plugin.handle(event)),
                Err(error) => Outcome::Failed(error),
            },
            _ => Outcome::NotActive,
        }
    }

    /// The host shuts the plugin down: an active plugin runs its shutdown and
    /// is shut down for good. In any other state nothing happens.
    pub fn deinit(&mut self)
        ensures
            *old(self) is Active ==> *final(self) is Shutdown,
            !(*old(self) is Active) ==> *final(self) == *old(self),
    {
        match self {
            Lifecycle::Active(plugin) => {
                plugin.shutdown();
                *self = Lifecycle::Shutdown;
            },
            _ => {},
        }
    }
}

/// A plugin that subscribes to nothing is sent no notification.
pub proof fn law_nothing_subscribed(tag: Seq<char>)
    ensures
        !subscribed(Seq::<Subscription>::empty(), tag),
{
}

/// A plugin that subscribes to everything is sent every notification, and
/// each is decoded to its own event: the event of a notification names that
/// notification and holds what the host's record holds.
pub proof fn law_all_subscribed(s: Subscription, data: RawData)
    ensures
        subscribed(all_subscriptions(), s.spec_tag()),
        subscription_of(s.spec_tag()) == Some(s),
        match s.spec_carries() {
            Carried::Application => data matches RawData::Application(a) ==> decoded(
                s.spec_tag(),
                data,
            ) == Some(EventView::Application(s, a@)),
            Carried::Window => data matches RawData::Window(w) ==> w.owner matches Some(owner)
                ==> decoded(s.spec_tag(), data) == Some(
                EventView::Window(s, window_of(w, owner@)),
            ),
            Carried::Display => data matches RawData::Display(id) ==> decoded(s.spec_tag(), data)
                == Some(EventView::Display(s, id)),
            _ => decoded(s.spec_tag(), data) == Some(EventView::Bare(s)),
        },
{
    lemma_tags_differ(s, s);
    assert(all_subscriptions()[s.spec_code() as int] == s);
}

/// A tag that the bridge does not know is decoded to `Other` with the tag,
/// whatever comes with it.
pub proof fn law_unknown_tag(tag: Seq<char>, data: RawData)
    requires
        forall|s: Subscription| s.spec_tag() != tag,
        tag != DAEMON_COMMAND@,
    ensures
        decoded(tag, data) == Some(EventView::Other(tag)),
{
}

} // verus!
