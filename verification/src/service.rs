//! The records the panel works on: units, log records, unit properties, and
//! the fixed vocabularies (unit categories, time ranges, unit actions).

use vstd::prelude::*;
use vstd::string::*;
use crate::text::str_eq;

verus! {

/// The category of units listed at one time.
#[derive(Debug, Clone, Copy, PartialEq, Eq, Structural)]
pub enum UnitType {
    Service,
    Timer,
    Socket,
    Target,
    Path,
}

/// The categories in the order of the category picker.
pub const UNIT_TYPES: [UnitType; 5] = [
    UnitType::Service,
    UnitType::Timer,
    UnitType::Socket,
    UnitType::Target,
    UnitType::Path,
];

impl UnitType {
    /// Plural display name of the category.
    pub open spec fn label_text(self) -> Seq<char> {
        match self {
            UnitType::Service => "Services"@,
            UnitType::Timer => "Timers"@,
            UnitType::Socket => "Sockets"@,
            UnitType::Target => "Targets"@,
            UnitType::Path => "Paths"@,
        }
    }

    /// The word the service manager uses for the category.
    pub open spec fn systemctl_type_text(self) -> Seq<char> {
        match self {
            UnitType::Service => "service"@,
            UnitType::Timer => "timer"@,
            UnitType::Socket => "socket"@,
            UnitType::Target => "target"@,
            UnitType::Path => "path"@,
        }
    }

    /// The sub-states offered by the status picker for this category; entry 0
    /// stands for "no filter".
    pub open spec fn status_option_texts(self) -> Seq<Seq<char>> {
        match self {
            UnitType::Service => seq!["All"@, "running"@, "exited"@, "failed"@, "dead"@],
            UnitType::Timer => seq!["All"@, "waiting"@, "running"@, "elapsed"@],
            UnitType::Socket => seq!["All"@, "listening"@, "running"@, "failed"@],
            UnitType::Target => seq!["All"@, "active"@, "inactive"@],
            UnitType::Path => seq!["All"@, "waiting"@, "running"@, "failed"@],
        }
    }

    /// Plural display name of the category.
    pub fn label(&self) -> (r: &'static str)
        ensures
            r@ == self.label_text(),
    {
        match self {
            UnitType::Service => "Services",
            UnitType::Timer => "Timers",
            UnitType::Socket => "Sockets",
            UnitType::Target => "Targets",
            UnitType::Path => "Paths",
        }
    }

    /// The word the service manager uses for the category.
    pub fn systemctl_type(&self) -> (r: &'static str)
        ensures
            r@ == self.systemctl_type_text(),
    {
        match self {
            UnitType::Service => "service",
            UnitType::Timer => "timer",
            UnitType::Socket => "socket",
            UnitType::Target => "target",
            UnitType::Path => "path",
        }
    }

    /// The entries of the status picker for this category.
    pub fn status_options(&self) -> (r: &'static [&'static str])
        ensures
            r@.len() == self.status_option_texts().len(),
            forall|i: int| 0 <= i < r@.len() ==> (#[trigger] r@[i])@ == self.status_option_texts()[i],
    {
        match self {
            UnitType::Service => &["All", "running", "exited", "failed", "dead"],
            UnitType::Timer => &["All", "waiting", "running", "elapsed"],
            UnitType::Socket => &["All", "listening", "running", "failed"],
            UnitType::Target => &["All", "active", "inactive"],
            UnitType::Path => &["All", "waiting", "running", "failed"],
        }
    }
}

/// The position of a category in `UNIT_TYPES`.
pub open spec fn unit_type_index(t: UnitType) -> int {
    match t {
        UnitType::Service => 0,
        UnitType::Timer => 1,
        UnitType::Socket => 2,
        UnitType::Target => 3,
        UnitType::Path => 4,
    }
}

/// One record of a unit's log.
#[derive(Debug, Clone)]
pub struct LogEntry {
    pub timestamp: Option<i64>,
    pub priority: Option<u8>,
    pub pid: Option<String>,
    pub identifier: Option<String>,
    pub message: String,
    pub boot_id: Option<String>,
    pub invocation_id: Option<String>,
    pub cursor: Option<String>,
}

/// The mathematical content of a `LogEntry`.
pub struct LogRecord {
    pub timestamp: Option<i64>,
    pub priority: Option<u8>,
    pub pid: Option<Seq<char>>,
    pub identifier: Option<Seq<char>>,
    pub message: Seq<char>,
    pub boot_id: Option<Seq<char>>,
    pub invocation_id: Option<Seq<char>>,
    pub cursor: Option<Seq<char>>,
}

impl View for LogEntry {
    type V = LogRecord;

    open spec fn view(&self) -> LogRecord {
        LogRecord {
            timestamp: self.timestamp,
            priority: self.priority,
            pid: self.pid.deep_view(),
            identifier: self.identifier.deep_view(),
            message: self.message@,
            boot_id: self.boot_id.deep_view(),
            invocation_id: self.invocation_id.deep_view(),
            cursor: self.cursor.deep_view(),
        }
    }
}

impl DeepView for LogEntry {
    type V = LogRecord;

    open spec fn deep_view(&self) -> LogRecord {
        self@
    }
}

/// Names of the eight log severities, most severe first.
pub const PRIORITY_LABELS: [&'static str; 8] = [
    "emerg",
    "alert",
    "crit",
    "err",
    "warning",
    "notice",
    "info",
    "debug",
];

/// The name of severity `p`, or "unknown" above 7.
pub open spec fn priority_label_text(p: u8) -> Seq<char> {
    if p == 0 {
        "emerg"@
    } else if p == 1 {
        "alert"@
    } else if p == 2 {
        "crit"@
    } else if p == 3 {
        "err"@
    } else if p == 4 {
        "warning"@
    } else if p == 5 {
        "notice"@
    } else if p == 6 {
        "info"@
    } else if p == 7 {
        "debug"@
    } else {
        "unknown"@
    }
}

/// The name of severity `p`, or "unknown" above 7.
pub fn priority_label(p: u8) -> (r: &'static str)
    ensures
        r@ == priority_label_text(p),
{
    if p < 8 {
        PRIORITY_LABELS[p as usize]
    } else {
        "unknown"
    }
}

/// How far back the log of a unit is read.
#[derive(Debug, Clone, Copy, PartialEq, Eq, Structural)]
pub enum TimeRange {
    All,
    FifteenMinutes,
    OneHour,
    OneDay,
    SevenDays,
    Today,
}

impl TimeRange {
    /// Display name of the range.
    pub open spec fn label_text(self) -> Seq<char> {
        match self {
            TimeRange::All => "All"@,
            TimeRange::FifteenMinutes => "Last 15 minutes"@,
            TimeRange::OneHour => "Last 1 hour"@,
            TimeRange::OneDay => "Last 24 hours"@,
            TimeRange::SevenDays => "Last 7 days"@,
            TimeRange::Today => "Today"@,
        }
    }

    /// The lower time bound handed to the log daemon, none for `All`.
    pub open spec fn since_text(self) -> Option<Seq<char>> {
        match self {
            TimeRange::All => None,
            TimeRange::FifteenMinutes => Some("15 min ago"@),
            TimeRange::OneHour => Some("1 hour ago"@),
            TimeRange::OneDay => Some("1 day ago"@),
            TimeRange::SevenDays => Some("7 days ago"@),
            TimeRange::Today => Some("today"@),
        }
    }

    /// Display name of the range.
    pub fn label(&self) -> (r: &'static str)
        ensures
            r@ == self.label_text(),
    {
        match self {
            TimeRange::All => "All",
            TimeRange::FifteenMinutes => "Last 15 minutes",
            TimeRange::OneHour => "Last 1 hour",
            TimeRange::OneDay => "Last 24 hours",
            TimeRange::SevenDays => "Last 7 days",
            TimeRange::Today => "Today",
        }
    }

    /// The lower time bound handed to the log daemon, none for `All`.
    pub fn journalctl_since(&self) -> (r: Option<&'static str>)
        ensures
            r is Some == self.since_text() is Some,
            r matches Some(s) ==> s@ == self.since_text()->0,
    {
        match self {
            TimeRange::All => None,
            TimeRange::FifteenMinutes => Some("15 min ago"),
            TimeRange::OneHour => Some("1 hour ago"),
            TimeRange::OneDay => Some("1 day ago"),
            TimeRange::SevenDays => Some("7 days ago"),
            TimeRange::Today => Some("today"),
        }
    }
}

/// The ranges in the order of the time-range picker.
pub const TIME_RANGES: [TimeRange; 6] = [
    TimeRange::All,
    TimeRange::FifteenMinutes,
    TimeRange::OneHour,
    TimeRange::OneDay,
    TimeRange::SevenDays,
    TimeRange::Today,
];

/// The position of a range in `TIME_RANGES`.
pub open spec fn time_range_index(t: TimeRange) -> int {
    match t {
        TimeRange::All => 0,
        TimeRange::FifteenMinutes => 1,
        TimeRange::OneHour => 2,
        TimeRange::OneDay => 3,
        TimeRange::SevenDays => 4,
        TimeRange::Today => 5,
    }
}

/// A snapshot of one unit as the service manager lists it.
#[derive(Debug, Clone)]
pub struct SystemdUnit {
    pub unit: String,
    pub load: String,
    pub active: String,
    pub sub: String,
    pub description: String,
    pub detail: Option<String>,
    pub file_state: Option<String>,
}

/// The mathematical content of a `SystemdUnit`.
pub struct UnitView {
    pub unit: Seq<char>,
    pub load: Seq<char>,
    pub active: Seq<char>,
    pub sub: Seq<char>,
    pub description: Seq<char>,
    pub detail: Option<Seq<char>>,
    pub file_state: Option<Seq<char>>,
}

impl View for SystemdUnit {
    type V = UnitView;

    open spec fn view(&self) -> UnitView {
        UnitView {
            unit: self.unit@,
            load: self.load@,
            active: self.active@,
            sub: self.sub@,
            description: self.description@,
            detail: self.detail.deep_view(),
            file_state: self.file_state.deep_view(),
        }
    }
}

impl DeepView for SystemdUnit {
    type V = UnitView;

    open spec fn deep_view(&self) -> UnitView {
        self@
    }
}

impl SystemdUnit {
    /// The text shown in the status column: the unit's sub-state.
    pub fn status_display(&self) -> (r: &str)
        ensures
            r@ == self.sub@,
    {
        self.sub.as_str()
    }
}

/// The entries of the file-state picker; entry 0 stands for "no filter".
pub const FILE_STATE_OPTIONS: [&'static str; 6] = [
    "All",
    "enabled",
    "disabled",
    "static",
    "masked",
    "indirect",
];

/// The texts of the entries of the file-state picker.
pub open spec fn file_state_option_texts() -> Seq<Seq<char>> {
    seq!["All"@, "enabled"@, "disabled"@, "static"@, "masked"@, "indirect"@]
}

/// An operation an operator can ask of a unit, or of the manager itself.
#[derive(Debug, Clone, Copy, PartialEq, Eq, Structural)]
pub enum UnitAction {
    Start,
    Stop,
    Restart,
    Reload,
    Enable,
    Disable,
    DaemonReload,
}

/// Sub-states in which a unit counts as up: it can be stopped, restarted and
/// reloaded.
pub open spec fn sub_state_is_up(sub: Seq<char>) -> bool {
    sub == "running"@ || sub == "active"@ || sub == "listening"@ || sub == "waiting"@
}

/// Sub-states in which a unit counts as down: it can only be started.
pub open spec fn sub_state_is_down(sub: Seq<char>) -> bool {
    sub == "dead"@ || sub == "failed"@ || sub == "inactive"@ || sub == "exited"@
}

impl UnitAction {
    /// Display name of the action.
    pub open spec fn label_text(self) -> Seq<char> {
        match self {
            UnitAction::Start => "Start"@,
            UnitAction::Stop => "Stop"@,
            UnitAction::Restart => "Restart"@,
            UnitAction::Reload => "Reload"@,
            UnitAction::Enable => "Enable"@,
            UnitAction::Disable => "Disable"@,
            UnitAction::DaemonReload => "Daemon Reload"@,
        }
    }

    /// The key that picks the action in the action picker.
    pub open spec fn shortcut_char(self) -> char {
        match self {
            UnitAction::Start => 's',
            UnitAction::Stop => 't',
            UnitAction::Restart => 'r',
            UnitAction::Reload => 'l',
            UnitAction::Enable => 'e',
            UnitAction::Disable => 'd',
            UnitAction::DaemonReload => 'D',
        }
    }

    /// The verb handed to the service manager.
    pub open spec fn verb_text(self) -> Seq<char> {
        match self {
            UnitAction::Start => "start"@,
            UnitAction::Stop => "stop"@,
            UnitAction::Restart => "restart"@,
            UnitAction::Reload => "reload"@,
            UnitAction::Enable => "enable"@,
            UnitAction::Disable => "disable"@,
            UnitAction::DaemonReload => "daemon-reload"@,
        }
    }

    /// The text shown while the action runs.
    pub open spec fn progress_text(self) -> Seq<char> {
        match self {
            UnitAction::Start => "Starting..."@,
            UnitAction::Stop => "Stopping..."@,
            UnitAction::Restart => "Restarting..."@,
            UnitAction::Reload => "Reloading..."@,
            UnitAction::Enable => "Enabling..."@,
            UnitAction::Disable => "Disabling..."@,
            UnitAction::DaemonReload => "Reloading daemon..."@,
        }
    }

    /// The question put to the operator before the action runs.
    pub open spec fn confirmation_text(self, unit_name: Seq<char>) -> Seq<char> {
        match self {
            UnitAction::DaemonReload => "Reload systemd daemon configuration?"@,
            _ => self.label_text() + " "@ + unit_name + "?"@,
        }
    }

    /// The actions offered for a unit in sub-state `sub` with enablement
    /// `file_state`: what its run state allows, the opposite of its
    /// enablement, and the manager-wide reload last.
    pub open spec fn available_for(sub: Seq<char>, file_state: Option<Seq<char>>) -> Seq<
        UnitAction,
    > {
        let by_state = if sub_state_is_up(sub) {
            seq![UnitAction::Stop, UnitAction::Restart, UnitAction::Reload]
        } else if sub_state_is_down(sub) {
            seq![UnitAction::Start]
        } else {
            seq![UnitAction::Start, UnitAction::Stop]
        };
        let by_enablement = if file_state == Some("enabled"@) {
            seq![UnitAction::Disable]
        } else if file_state == Some("disabled"@) {
            seq![UnitAction::Enable]
        } else {
            Seq::<UnitAction>::empty()
        };
        by_state + by_enablement + seq![UnitAction::DaemonReload]
    }

    /// Display name of the action.
    pub fn label(&self) -> (r: &'static str)
        ensures
            r@ == self.label_text(),
    {
        match self {
            UnitAction::Start => "Start",
            UnitAction::Stop => "Stop",
            UnitAction::Restart => "Restart",
            UnitAction::Reload => "Reload",
            UnitAction::Enable => "Enable",
            UnitAction::Disable => "Disable",
            UnitAction::DaemonReload => "Daemon Reload",
        }
    }

    /// The key that picks the action in the action picker.
    pub fn shortcut(&self) -> (r: char)
        ensures
            r == self.shortcut_char(),
    {
        match self {
            UnitAction::Start => 's',
            UnitAction::Stop => 't',
            UnitAction::Restart => 'r',
            UnitAction::Reload => 'l',
            UnitAction::Enable => 'e',
            UnitAction::Disable => 'd',
            UnitAction::DaemonReload => 'D',
        }
    }

    /// The verb handed to the service manager.
    pub fn systemctl_verb(&self) -> (r: &'static str)
        ensures
            r@ == self.verb_text(),
    {
        match self {
            UnitAction::Start => "start",
            UnitAction::Stop => "stop",
            UnitAction::Restart => "restart",
            UnitAction::Reload => "reload",
            UnitAction::Enable => "enable",
            UnitAction::Disable => "disable",
            UnitAction::DaemonReload => "daemon-reload",
        }
    }

    /// The text shown while the action runs.
    pub fn progress_label(&self) -> (r: &'static str)
        ensures
            r@ == self.progress_text(),
    {
        match self {
            UnitAction::Start => "Starting...",
            UnitAction::Stop => "Stopping...",
            UnitAction::Restart => "Restarting...",
            UnitAction::Reload => "Reloading...",
            UnitAction::Enable => "Enabling...",
            UnitAction::Disable => "Disabling...",
            UnitAction::DaemonReload => "Reloading daemon...",
        }
    }

    /// The question put to the operator before the action runs.
    pub fn confirmation_message(&self, unit_name: &str) -> (r: String)
        ensures
            r@ == self.confirmation_text(unit_name@),
    {
        match self {
            UnitAction::DaemonReload => String::from_str("Reload systemd daemon configuration?"),
            _ => {
                let r = String::from_str(self.label()).concat(" ").concat(unit_name).concat("?");
                r
            },
        }
    }

    /// The actions offered for a unit in the given sub-state and enablement.
    pub fn available_actions(sub_state: &str, file_state: Option<&str>) -> (r: Vec<UnitAction>)
        ensures
            r@ == Self::available_for(
                sub_state@,
                match file_state {
                    Some(s) => Some(s@),
                    None => None,
                },
            ),
    {
        let mut actions: Vec<UnitAction> = Vec::new();
        if str_eq(sub_state, "running") || str_eq(sub_state, "active") || str_eq(
            sub_state,
            "listening",
        ) || str_eq(sub_state, "waiting") {
            actions.push(UnitAction::Stop);
            actions.push(UnitAction::Restart);
            actions.push(UnitAction::Reload);
        } else if str_eq(sub_state, "dead") || str_eq(sub_state, "failed") || str_eq(
            sub_state,
            "inactive",
        ) || str_eq(sub_state, "exited") {
            actions.push(UnitAction::Start);
        } else {
            actions.push(UnitAction::Start);
            actions.push(UnitAction::Stop);
        }
        match file_state {
            Some(s) => {
                if str_eq(s, "enabled") {
                    actions.push(UnitAction::Disable);
                } else if str_eq(s, "disabled") {
                    actions.push(UnitAction::Enable);
                }
            },
            None => {},
        }
        actions.push(UnitAction::DaemonReload);
        assert(actions@ =~= Self::available_for(
            sub_state@,
            match file_state {
                Some(s) => Some(s@),
                None => None,
            },
        ));
        actions
    }
}

/// The fact sheet of one unit, read on demand.
#[derive(Debug, Clone)]
pub struct UnitProperties {
    pub fragment_path: String,
    pub unit_file_state: String,
    pub active_state: String,
    pub active_enter_timestamp: String,
    pub sub_state: String,
    pub load_state: String,
    pub description: String,
    pub main_pid: u32,
    pub exec_main_start_timestamp: String,
    pub memory_current: Option<u64>,
    pub cpu_usage_nsec: Option<u64>,
    pub requires: Vec<String>,
    pub wants: Vec<String>,
    pub after: Vec<String>,
    pub before: Vec<String>,
    pub conflicts: Vec<String>,
    pub triggered_by: Vec<String>,
    pub triggers: Vec<String>,
    pub timers_calendar: Vec<String>,
    pub timers_monotonic: Vec<String>,
    pub last_trigger_usec: String,
    pub result: String,
    pub next_elapse_realtime: String,
    pub persistent: String,
    pub accuracy_usec: String,
    pub randomized_delay_usec: String,
    pub paths: String,
    pub listen: String,
    pub accept: String,
    pub n_connections: String,
    pub n_accepted: String,
}

/// The mathematical content of a `UnitProperties`.
pub struct PropertiesView {
    pub fragment_path: Seq<char>,
    pub unit_file_state: Seq<char>,
    pub active_state: Seq<char>,
    pub active_enter_timestamp: Seq<char>,
    pub sub_state: Seq<char>,
    pub load_state: Seq<char>,
    pub description: Seq<char>,
    pub main_pid: u32,
    pub exec_main_start_timestamp: Seq<char>,
    pub memory_current: Option<u64>,
    pub cpu_usage_nsec: Option<u64>,
    pub requires: Seq<Seq<char>>,
    pub wants: Seq<Seq<char>>,
    pub after: Seq<Seq<char>>,
    pub before: Seq<Seq<char>>,
    pub conflicts: Seq<Seq<char>>,
    pub triggered_by: Seq<Seq<char>>,
    pub triggers: Seq<Seq<char>>,
    pub timers_calendar: Seq<Seq<char>>,
    pub timers_monotonic: Seq<Seq<char>>,
    pub last_trigger_usec: Seq<char>,
    pub result: Seq<char>,
    pub next_elapse_realtime: Seq<char>,
    pub persistent: Seq<char>,
    pub accuracy_usec: Seq<char>,
    pub randomized_delay_usec: Seq<char>,
    pub paths: Seq<char>,
    pub listen: Seq<char>,
    pub accept: Seq<char>,
    pub n_connections: Seq<char>,
    pub n_accepted: Seq<char>,
}

impl View for UnitProperties {
    type V = PropertiesView;

    open spec fn view(&self) -> PropertiesView {
        PropertiesView {
            fragment_path: self.fragment_path@,
            unit_file_state: self.unit_file_state@,
            active_state: self.active_state@,
            active_enter_timestamp: self.active_enter_timestamp@,
            sub_state: self.sub_state@,
            load_state: self.load_state@,
            description: self.description@,
            main_pid: self.main_pid,
            exec_main_start_timestamp: self.exec_main_start_timestamp@,
            memory_current: self.memory_current,
            cpu_usage_nsec: self.cpu_usage_nsec,
            requires: self.requires.deep_view(),
            wants: self.wants.deep_view(),
            after: self.after.deep_view(),
            before: self.before.deep_view(),
            conflicts: self.conflicts.deep_view(),
            triggered_by: self.triggered_by.deep_view(),
            triggers: self.triggers.deep_view(),
            timers_calendar: self.timers_calendar.deep_view(),
            timers_monotonic: self.timers_monotonic.deep_view(),
            last_trigger_usec: self.last_trigger_usec@,
            result: self.result@,
            next_elapse_realtime: self.next_elapse_realtime@,
            persistent: self.persistent@,
            accuracy_usec: self.accuracy_usec@,
            randomized_delay_usec: self.randomized_delay_usec@,
            paths: self.paths@,
            listen: self.listen@,
            accept: self.accept@,
            n_connections: self.n_connections@,
            n_accepted: self.n_accepted@,
        }
    }
}

impl DeepView for UnitProperties {
    type V = PropertiesView;

    open spec fn deep_view(&self) -> PropertiesView {
        self@
    }
}

/// The fact sheet without any fact: empty texts and lists, no counters.
pub open spec fn empty_properties() -> PropertiesView {
    PropertiesView {
        fragment_path: Seq::empty(),
        unit_file_state: Seq::empty(),
        active_state: Seq::empty(),
        active_enter_timestamp: Seq::empty(),
        sub_state: Seq::empty(),
        load_state: Seq::empty(),
        description: Seq::empty(),
        main_pid: 0,
        exec_main_start_timestamp: Seq::empty(),
        memory_current: None,
        cpu_usage_nsec: None,
        requires: Seq::empty(),
        wants: Seq::empty(),
        after: Seq::empty(),
        before: Seq::empty(),
        conflicts: Seq::empty(),
        triggered_by: Seq::empty(),
        triggers: Seq::empty(),
        timers_calendar: Seq::empty(),
        timers_monotonic: Seq::empty(),
        last_trigger_usec: Seq::empty(),
        result: Seq::empty(),
        next_elapse_realtime: Seq::empty(),
        persistent: Seq::empty(),
        accuracy_usec: Seq::empty(),
        randomized_delay_usec: Seq::empty(),
        paths: Seq::empty(),
        listen: Seq::empty(),
        accept: Seq::empty(),
        n_connections: Seq::empty(),
        n_accepted: Seq::empty(),
    }
}

impl Default for UnitProperties {
    fn default() -> (r: Self)
        ensures
            r@ == empty_properties(),
    {
        let r = UnitProperties {
            fragment_path: String::new(),
            unit_file_state: String::new(),
            active_state: String::new(),
            active_enter_timestamp: String::new(),
            sub_state: String::new(),
            load_state: String::new(),
            description: String::new(),
            main_pid: 0,
            exec_main_start_timestamp: String::new(),
            memory_current: None,
            cpu_usage_nsec: None,
            requires: Vec::new(),
            wants: Vec::new(),
            after: Vec::new(),
            before: Vec::new(),
            conflicts: Vec::new(),
            triggered_by: Vec::new(),
            triggers: Vec::new(),
            timers_calendar: Vec::new(),
            timers_monotonic: Vec::new(),
            last_trigger_usec: String::new(),
            result: String::new(),
            next_elapse_realtime: String::new(),
            persistent: String::new(),
            accuracy_usec: String::new(),
            randomized_delay_usec: String::new(),
            paths: String::new(),
            listen: String::new(),
            accept: String::new(),
            n_connections: String::new(),
            n_accepted: String::new(),
        };
        assert(r.requires.deep_view() =~= Seq::<Seq<char>>::empty());
        assert(r.wants.deep_view() =~= Seq::<Seq<char>>::empty());
        assert(r.after.deep_view() =~= Seq::<Seq<char>>::empty());
        assert(r.before.deep_view() =~= Seq::<Seq<char>>::empty());
        assert(r.conflicts.deep_view() =~= Seq::<Seq<char>>::empty());
        assert(r.triggered_by.deep_view() =~= Seq::<Seq<char>>::empty());
        assert(r.triggers.deep_view() =~= Seq::<Seq<char>>::empty());
        assert(r.timers_calendar.deep_view() =~= Seq::<Seq<char>>::empty());
        assert(r.timers_monotonic.deep_view() =~= Seq::<Seq<char>>::empty());
        r
    }
}

/// A copy of a list of strings.
pub fn copy_strings(v: &Vec<String>) -> (r: Vec<String>)
    ensures
        r.deep_view() == v.deep_view(),
{
    let mut r: Vec<String> = Vec::new();
    let mut i: usize = 0;
    while i < v.len()
        invariant
            i <= v.len(),
            r.len() == i,
            forall|k: int| 0 <= k < i ==> (#[trigger] r[k])@ == v[k]@,
        decreases v.len() - i,
    {
        r.push(v[i].clone());
        i = i + 1;
    }
    assert(r.deep_view() =~= v.deep_view());
    r
}

impl UnitProperties {
    /// A copy of the fact sheet.
    pub fn duplicate(&self) -> (r: Self)
        ensures
            r@ == self@,
    {
        UnitProperties {
            fragment_path: self.fragment_path.clone(),
            unit_file_state: self.unit_file_state.clone(),
            active_state: self.active_state.clone(),
            active_enter_timestamp: self.active_enter_timestamp.clone(),
            sub_state: self.sub_state.clone(),
            load_state: self.load_state.clone(),
            description: self.description.clone(),
            main_pid: self.main_pid,
            exec_main_start_timestamp: self.exec_main_start_timestamp.clone(),
            memory_current: self.memory_current,
            cpu_usage_nsec: self.cpu_usage_nsec,
            requires: copy_strings(&self.requires),
            wants: copy_strings(&self.wants),
            after: copy_strings(&self.after),
            before: copy_strings(&self.before),
            conflicts: copy_strings(&self.conflicts),
            triggered_by: copy_strings(&self.triggered_by),
            triggers: copy_strings(&self.triggers),
            timers_calendar: copy_strings(&self.timers_calendar),
            timers_monotonic: copy_strings(&self.timers_monotonic),
            last_trigger_usec: self.last_trigger_usec.clone(),
            result: self.result.clone(),
            next_elapse_realtime: self.next_elapse_realtime.clone(),
            persistent: self.persistent.clone(),
            accuracy_usec: self.accuracy_usec.clone(),
            randomized_delay_usec: self.randomized_delay_usec.clone(),
            paths: self.paths.clone(),
            listen: self.listen.clone(),
            accept: self.accept.clone(),
            n_connections: self.n_connections.clone(),
            n_accepted: self.n_accepted.clone(),
        }
    }
}

} // verus!
