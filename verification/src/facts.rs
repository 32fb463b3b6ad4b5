//! What the details overlay says about a unit: the facts of its fact sheet,
//! in sections, each shown only where there is something to show.

use vstd::prelude::*;
use vstd::string::*;
use crate::palette::{file_state_color, file_state_color_of, load_color, load_color_of, Color};
use crate::scan::range_is;
use crate::service::{PropertiesView, UnitProperties};
use crate::text::{chars_of, decimal_string, decimal_text, str_eq};

verus! {

/// What a line of the details overlay is.
#[derive(Debug, Clone, Copy, PartialEq, Eq, Structural)]
pub enum DetailKind {
    /// The name of a section.
    Heading,
    /// A label and a value.
    Fact,
    /// One entry of a list that takes a line of its own.
    Item,
    /// An empty line.
    Blank,
}

/// One line of the details overlay.
#[derive(Debug, Clone, PartialEq, Eq)]
pub struct DetailLine {
    pub kind: DetailKind,
    pub label: String,
    pub value: String,
    /// The colour of the value.
    pub color: Color,
}

/// The mathematical content of a `DetailLine`.
pub struct DetailLineView {
    pub kind: DetailKind,
    pub label: Seq<char>,
    pub value: Seq<char>,
    pub color: Color,
}

impl View for DetailLine {
    type V = DetailLineView;

    open spec fn view(&self) -> DetailLineView {
        DetailLineView {
            kind: self.kind,
            label: self.label@,
            value: self.value@,
            color: self.color,
        }
    }
}

impl DeepView for DetailLine {
    type V = DetailLineView;

    open spec fn deep_view(&self) -> DetailLineView {
        self@
    }
}

/// The longest list of dependencies that is shown on one line.
pub const DEPENDENCIES_ON_ONE_LINE: usize = 50;

/// The line that names a section.
pub open spec fn heading_line(name: Seq<char>) -> DetailLineView {
    DetailLineView {
        kind: DetailKind::Heading,
        label: name,
        value: Seq::empty(),
        color: Color::White,
    }
}

/// The line for a fact whose value has a colour of its own.
pub open spec fn colored_line(label: Seq<char>, value: Seq<char>, color: Color) -> DetailLineView {
    DetailLineView { kind: DetailKind::Fact, label, value, color }
}

/// The line for a fact.
pub open spec fn fact_line(label: Seq<char>, value: Seq<char>) -> DetailLineView {
    colored_line(label, value, Color::White)
}

/// The line for one entry of a list.
pub open spec fn item_line(value: Seq<char>) -> DetailLineView {
    DetailLineView { kind: DetailKind::Item, label: "    "@, value, color: Color::White }
}

/// The empty line that ends a section.
pub open spec fn blank_line() -> DetailLineView {
    DetailLineView {
        kind: DetailKind::Blank,
        label: Seq::empty(),
        value: Seq::empty(),
        color: Color::White,
    }
}

/// The line for a fact that is shown only where it has a value.
pub open spec fn optional_fact(label: Seq<char>, value: Seq<char>) -> Seq<DetailLineView> {
    if value.len() > 0 {
        seq![fact_line(label, value)]
    } else {
        Seq::empty()
    }
}

/// The line for a count that is shown only where it is known and not zero.
pub open spec fn count_fact(label: Seq<char>, value: Seq<char>) -> Seq<DetailLineView> {
    if value.len() > 0 && value != "0"@ {
        seq![fact_line(label, value)]
    } else {
        Seq::empty()
    }
}

/// One line with the same label for each of the values.
pub open spec fn repeated_facts(label: Seq<char>, values: Seq<Seq<char>>) -> Seq<DetailLineView> {
    Seq::new(values.len(), |i: int| fact_line(label, values[i]))
}

/// The lines of what a unit triggers: the label on the first line only.
pub open spec fn trigger_lines(triggers: Seq<Seq<char>>) -> Seq<DetailLineView> {
    Seq::new(
        triggers.len(),
        |i: int|
            fact_line(
                if i == 0 {
                    "  Triggers:       "@
                } else {
                    "                  "@
                },
                triggers[i],
            ),
    )
}

/// `s` ends with `suffix`.
pub open spec fn has_suffix(s: Seq<char>, suffix: Seq<char>) -> bool {
    s.len() >= suffix.len() && s.subrange(s.len() - suffix.len(), s.len() as int) == suffix
}

/// The first `n` texts, with `", "` between them.
pub open spec fn joined(texts: Seq<Seq<char>>, n: int) -> Seq<char>
    decreases n,
{
    if n <= 0 {
        Seq::empty()
    } else if n == 1 {
        texts[0]
    } else {
        joined(texts, n - 1) + ", "@ + texts[n - 1]
    }
}

/// The section that every unit has.
pub open spec fn general_section(p: PropertiesView, name: Seq<char>) -> Seq<DetailLineView> {
    seq![
        heading_line("General"@),
        fact_line("  Name:           "@, name),
        fact_line("  Status:         "@, p.sub_state),
    ] + (if p.unit_file_state.len() > 0 {
        seq![
            colored_line(
                "  Enabled:        "@,
                p.unit_file_state,
                file_state_color_of(p.unit_file_state),
            ),
        ]
    } else {
        Seq::<DetailLineView>::empty()
    }) + seq![
        colored_line("  Load State:     "@, p.load_state, load_color_of(p.load_state)),
        fact_line("  Description:    "@, p.description),
        fact_line("  Active State:   "@, p.active_state),
    ] + optional_fact("  Active Since:   "@, p.active_enter_timestamp) + optional_fact(
        "  Unit File:      "@,
        p.fragment_path,
    ) + seq![blank_line()]
}

/// The timer fired before, as far as the fact sheet says.
pub open spec fn has_last_trigger(p: PropertiesView) -> bool {
    p.last_trigger_usec.len() > 0 && p.last_trigger_usec != "n/a"@
}

/// The fact sheet says something about the timer.
pub open spec fn has_timer_facts(p: PropertiesView) -> bool {
    p.timers_calendar.len() > 0 || p.timers_monotonic.len() > 0 || p.next_elapse_realtime.len()
        > 0 || has_last_trigger(p)
}

/// The section of a timer: its schedules, its next and last firing, how the
/// last run ended, and how it fires.
pub open spec fn timer_section(p: PropertiesView, name: Seq<char>) -> Seq<DetailLineView> {
    if has_suffix(name, ".timer"@) && has_timer_facts(p) {
        seq![heading_line("Timer"@)] + repeated_facts("  Schedule:       "@, p.timers_calendar)
            + repeated_facts("  Schedule:       "@, p.timers_monotonic) + optional_fact(
            "  Next Trigger:   "@,
            p.next_elapse_realtime,
        ) + (if has_last_trigger(p) {
            seq![fact_line("  Last Trigger:   "@, p.last_trigger_usec)]
        } else {
            Seq::<DetailLineView>::empty()
        }) + (if p.result.len() > 0 {
            seq![
                colored_line(
                    "  Result:         "@,
                    p.result,
                    if p.result == "success"@ {
                        Color::Green
                    } else {
                        Color::Red
                    },
                ),
            ]
        } else {
            Seq::<DetailLineView>::empty()
        }) + (if p.persistent == "yes"@ {
            seq![fact_line("  Persistent:     "@, p.persistent)]
        } else {
            Seq::<DetailLineView>::empty()
        }) + count_fact("  Accuracy:       "@, p.accuracy_usec) + count_fact(
            "  Random Delay:   "@,
            p.randomized_delay_usec,
        ) + seq![blank_line()]
    } else {
        Seq::empty()
    }
}

/// The section of a socket: what it listens on, its connections where it
/// accepts them itself, and what it triggers.
pub open spec fn socket_section(p: PropertiesView, name: Seq<char>) -> Seq<DetailLineView> {
    if has_suffix(name, ".socket"@) && p.listen.len() > 0 {
        seq![heading_line("Socket"@), fact_line("  Listen:         "@, p.listen)] + (if p.accept
            == "yes"@ {
            seq![fact_line("  Accept:         "@, "yes"@)] + count_fact(
                "  Accepted:       "@,
                p.n_accepted,
            ) + count_fact("  Connected:      "@, p.n_connections)
        } else {
            Seq::<DetailLineView>::empty()
        }) + trigger_lines(p.triggers) + seq![blank_line()]
    } else {
        Seq::empty()
    }
}

/// The section of a path unit: what it watches and what it triggers.
pub open spec fn path_section(p: PropertiesView, name: Seq<char>) -> Seq<DetailLineView> {
    if has_suffix(name, ".path"@) && (p.paths.len() > 0 || p.triggers.len() > 0) {
        seq![heading_line("Path"@)] + optional_fact("  Watch:          "@, p.paths)
            + trigger_lines(p.triggers) + seq![blank_line()]
    } else {
        Seq::empty()
    }
}

/// The section of the main process, where there is one.
pub open spec fn process_section(p: PropertiesView) -> Seq<DetailLineView> {
    if p.main_pid > 0 {
        seq![
            heading_line("Process"@),
            fact_line("  Main PID:       "@, decimal_text(p.main_pid as nat)),
        ] + optional_fact("  Started:        "@, p.exec_main_start_timestamp) + seq![blank_line()]
    } else {
        Seq::empty()
    }
}

/// The section of the resource counters that are known, given the text for
/// each.
pub open spec fn resources_section(
    p: PropertiesView,
    memory_text: Seq<char>,
    cpu_text: Seq<char>,
) -> Seq<DetailLineView> {
    if p.memory_current is Some || p.cpu_usage_nsec is Some {
        seq![heading_line("Resources"@)] + (if p.memory_current is Some {
            seq![fact_line("  Memory:         "@, memory_text)]
        } else {
            Seq::<DetailLineView>::empty()
        }) + (if p.cpu_usage_nsec is Some {
            seq![fact_line("  CPU Time:       "@, cpu_text)]
        } else {
            Seq::<DetailLineView>::empty()
        }) + seq![blank_line()]
    } else {
        Seq::empty()
    }
}

/// The lines of one kind of dependency: on one line behind the label where
/// the list is short, else the label and one line for each unit; nothing for
/// an empty list.
pub open spec fn dependency_lines(
    padded_label: Seq<char>,
    label: Seq<char>,
    units: Seq<Seq<char>>,
) -> Seq<DetailLineView> {
    if units.len() == 0 {
        Seq::empty()
    } else if joined(units, units.len() as int).len() <= DEPENDENCIES_ON_ONE_LINE {
        seq![fact_line(padded_label, joined(units, units.len() as int))]
    } else {
        seq![fact_line(label, Seq::empty())] + Seq::new(units.len(), |i: int| item_line(units[i]))
    }
}

/// The unit has dependencies of some kind.
pub open spec fn has_dependencies(p: PropertiesView) -> bool {
    p.requires.len() > 0 || p.wants.len() > 0 || p.after.len() > 0 || p.before.len() > 0
        || p.conflicts.len() > 0 || p.triggered_by.len() > 0 || p.triggers.len() > 0
}

/// The section of the dependencies, by kind.
pub open spec fn dependencies_section(p: PropertiesView) -> Seq<DetailLineView> {
    if has_dependencies(p) {
        seq![heading_line("Dependencies"@)] + dependency_lines(
            "  Requires:       "@,
            "  Requires:"@,
            p.requires,
        ) + dependency_lines("  Wants:          "@, "  Wants:"@, p.wants) + dependency_lines(
            "  After:          "@,
            "  After:"@,
            p.after,
        ) + dependency_lines("  Before:         "@, "  Before:"@, p.before) + dependency_lines(
            "  Conflicts:      "@,
            "  Conflicts:"@,
            p.conflicts,
        ) + dependency_lines("  TriggeredBy:    "@, "  TriggeredBy:"@, p.triggered_by)
            + dependency_lines("  Triggers:       "@, "  Triggers:"@, p.triggers)
    } else {
        Seq::empty()
    }
}

/// The lines of the details overlay for the unit `name` with the fact sheet
/// `p`, given the text for its memory and for its processor time.
pub open spec fn detail_lines_of(
    p: PropertiesView,
    name: Seq<char>,
    memory_text: Seq<char>,
    cpu_text: Seq<char>,
) -> Seq<DetailLineView> {
    general_section(p, name) + timer_section(p, name) + socket_section(p, name) + path_section(
        p,
        name,
    ) + process_section(p) + resources_section(p, memory_text, cpu_text) + dependencies_section(p)
}

fn line(kind: DetailKind, label: &str, value: String, color: Color) -> (r: DetailLine)
    ensures
        r@ == (DetailLineView { kind, label: label@, value: value@, color }),
{
    DetailLine { kind, label: String::from_str(label), value, color }
}

fn push_heading(lines: &mut Vec<DetailLine>, name: &str)
    ensures
        final(lines).deep_view() == old(lines).deep_view().push(heading_line(name@)),
{
    let ghost before = lines.deep_view();
    lines.push(line(DetailKind::Heading, name, String::new(), Color::White));
    assert(lines.deep_view() =~= before.push(heading_line(name@)));
}

fn push_blank(lines: &mut Vec<DetailLine>)
    ensures
        final(lines).deep_view() == old(lines).deep_view().push(blank_line()),
{
    let ghost before = lines.deep_view();
    lines.push(line(DetailKind::Blank, "", String::new(), Color::White));
    proof {
        reveal_strlit("");
        assert(""@ =~= Seq::<char>::empty());
        assert(lines.deep_view() =~= before.push(blank_line()));
    }
}

fn push_colored(lines: &mut Vec<DetailLine>, label: &str, value: &String, color: Color)
    ensures
        final(lines).deep_view() == old(lines).deep_view().push(
            colored_line(label@, value@, color),
        ),
{
    let ghost before = lines.deep_view();
    lines.push(line(DetailKind::Fact, label, value.clone(), color));
    assert(lines.deep_view() =~= before.push(colored_line(label@, value@, color)));
}

fn push_fact(lines: &mut Vec<DetailLine>, label: &str, value: &String)
    ensures
        final(lines).deep_view() == old(lines).deep_view().push(fact_line(label@, value@)),
{
    push_colored(lines, label, value, Color::White);
}

fn push_optional(lines: &mut Vec<DetailLine>, label: &str, value: &String)
    ensures
        final(lines).deep_view() == old(lines).deep_view() + optional_fact(label@, value@),
{
    let ghost before = lines.deep_view();
    if !value.as_str().is_empty() {
        push_fact(lines, label, value);
    }
    assert(lines.deep_view() =~= before + optional_fact(label@, value@));
}

fn push_count(lines: &mut Vec<DetailLine>, label: &str, value: &String)
    ensures
        final(lines).deep_view() == old(lines).deep_view() + count_fact(label@, value@),
{
    let ghost before = lines.deep_view();
    if !value.as_str().is_empty() && !str_eq(value.as_str(), "0") {
        push_fact(lines, label, value);
    }
    assert(lines.deep_view() =~= before + count_fact(label@, value@));
}

fn push_repeated(lines: &mut Vec<DetailLine>, label: &str, values: &Vec<String>)
    ensures
        final(lines).deep_view() == old(lines).deep_view() + repeated_facts(
            label@,
            values.deep_view(),
        ),
{
    let ghost before = lines.deep_view();
    let mut i: usize = 0;
    while i < values.len()
        invariant
            i <= values.len(),
            lines.deep_view() == before + repeated_facts(label@, values.deep_view()).take(
                i as int,
            ),
        decreases values.len() - i,
    {
        let ghost sofar = lines.deep_view();
        assert(values.deep_view()[i as int] == values@[i as int]@);
        push_fact(lines, label, &values[i]);
        assert(lines.deep_view() =~= before + repeated_facts(label@, values.deep_view()).take(
            i as int + 1,
        ));
        i = i + 1;
    }
    assert(repeated_facts(label@, values.deep_view()).take(i as int) =~= repeated_facts(
        label@,
        values.deep_view(),
    ));
}

fn push_triggers(lines: &mut Vec<DetailLine>, triggers: &Vec<String>)
    ensures
        final(lines).deep_view() == old(lines).deep_view() + trigger_lines(triggers.deep_view()),
{
    let ghost before = lines.deep_view();
    let mut i: usize = 0;
    while i < triggers.len()
        invariant
            i <= triggers.len(),
            lines.deep_view() == before + trigger_lines(triggers.deep_view()).take(i as int),
        decreases triggers.len() - i,
    {
        assert(triggers.deep_view()[i as int] == triggers@[i as int]@);
        push_fact(
            lines,
            if i == 0 {
                "  Triggers:       "
            } else {
                "                  "
            },
            &triggers[i],
        );
        assert(lines.deep_view() =~= before + trigger_lines(triggers.deep_view()).take(
            i as int + 1,
        ));
        i = i + 1;
    }
    assert(trigger_lines(triggers.deep_view()).take(i as int) =~= trigger_lines(
        triggers.deep_view(),
    ));
}

/// Whether `name` ends with `suffix`.
pub fn ends_with(name: &str, suffix: &str) -> (r: bool)
    ensures
        r == has_suffix(name@, suffix@),
{
    let text = chars_of(name);
    let tail = chars_of(suffix);
    if text.len() < tail.len() {
        return false;
    }
    range_is(&text, text.len() - tail.len(), text.len(), &tail)
}

/// The texts with `", "` between them.
pub fn join_with_commas(texts: &Vec<String>) -> (r: String)
    ensures
        r@ == joined(texts.deep_view(), texts.len() as int),
{
    let mut r = String::new();
    let mut i: usize = 0;
    while i < texts.len()
        invariant
            i <= texts.len(),
            r@ == joined(texts.deep_view(), i as int),
        decreases texts.len() - i,
    {
        assert(texts.deep_view()[i as int] == texts@[i as int]@);
        if i > 0 {
            r.append(", ");
        }
        r.append(texts[i].as_str());
        proof {
            if i == 0 {
                assert(r@ =~= texts.deep_view()[0]);
            }
        }
        i = i + 1;
    }
    r
}

fn push_dependencies(
    lines: &mut Vec<DetailLine>,
    padded_label: &str,
    label: &str,
    units: &Vec<String>,
)
    ensures
        final(lines).deep_view() == old(lines).deep_view() + dependency_lines(
            padded_label@,
            label@,
            units.deep_view(),
        ),
{
    let ghost before = lines.deep_view();
    if units.len() == 0 {
        assert(lines.deep_view() =~= before + Seq::<DetailLineView>::empty());
        return ;
    }
    let all = join_with_commas(units);
    if all.as_str().unicode_len() <= DEPENDENCIES_ON_ONE_LINE {
        push_fact(lines, padded_label, &all);
        assert(lines.deep_view() =~= before + seq![fact_line(padded_label@, all@)]);
        return ;
    }
    let empty = String::new();
    push_fact(lines, label, &empty);
    let ghost head = lines.deep_view();
    let ghost items = Seq::new(units.deep_view().len(), |i: int| item_line(units.deep_view()[i]));
    let mut i: usize = 0;
    assert(head =~= head + items.take(0));
    while i < units.len()
        invariant
            i <= units.len(),
            items == Seq::new(units.deep_view().len(), |i: int| item_line(units.deep_view()[i])),
            lines.deep_view() == head + items.take(i as int),
        decreases units.len() - i,
    {
        assert(units.deep_view()[i as int] == units@[i as int]@);
        let ghost sofar = lines.deep_view();
        lines.push(line(DetailKind::Item, "    ", units[i].clone(), Color::White));
        assert(lines.deep_view() =~= sofar.push(item_line(units.deep_view()[i as int])));
        assert(items.take(i as int + 1) =~= items.take(i as int).push(items[i as int]));
        assert(lines.deep_view() =~= head + items.take(i as int + 1));
        i = i + 1;
    }
    assert(items.take(i as int) =~= items);
    assert(head =~= before + seq![fact_line(label@, Seq::empty())]);
    assert(lines.deep_view() =~= before + (seq![fact_line(label@, Seq::empty())] + items));
}

fn general(p: &UnitProperties, name: &str) -> (r: Vec<DetailLine>)
    ensures
        r.deep_view() == general_section(p@, name@),
{
    let mut lines: Vec<DetailLine> = Vec::new();
    assert(lines.deep_view() =~= Seq::<DetailLineView>::empty());
    push_heading(&mut lines, "General");
    push_fact(&mut lines, "  Name:           ", &String::from_str(name));
    push_fact(&mut lines, "  Status:         ", &p.sub_state);
    if !p.unit_file_state.as_str().is_empty() {
        push_colored(
            &mut lines,
            "  Enabled:        ",
            &p.unit_file_state,
            file_state_color(p.unit_file_state.as_str()),
        );
    }
    push_colored(&mut lines, "  Load State:     ", &p.load_state, load_color(p.load_state.as_str()));
    push_fact(&mut lines, "  Description:    ", &p.description);
    push_fact(&mut lines, "  Active State:   ", &p.active_state);
    push_optional(&mut lines, "  Active Since:   ", &p.active_enter_timestamp);
    push_optional(&mut lines, "  Unit File:      ", &p.fragment_path);
    push_blank(&mut lines);
    assert(lines.deep_view() =~= general_section(p@, name@));
    lines
}

fn timer(p: &UnitProperties, name: &str) -> (r: Vec<DetailLine>)
    ensures
        r.deep_view() == timer_section(p@, name@),
{
    let mut lines: Vec<DetailLine> = Vec::new();
    assert(lines.deep_view() =~= Seq::<DetailLineView>::empty());
    let last_trigger = !p.last_trigger_usec.as_str().is_empty() && !str_eq(
        p.last_trigger_usec.as_str(),
        "n/a",
    );
    let any = p.timers_calendar.len() > 0 || p.timers_monotonic.len() > 0
        || !p.next_elapse_realtime.as_str().is_empty() || last_trigger;
    if !ends_with(name, ".timer") || !any {
        return lines;
    }
    push_heading(&mut lines, "Timer");
    push_repeated(&mut lines, "  Schedule:       ", &p.timers_calendar);
    push_repeated(&mut lines, "  Schedule:       ", &p.timers_monotonic);
    push_optional(&mut lines, "  Next Trigger:   ", &p.next_elapse_realtime);
    if last_trigger {
        push_fact(&mut lines, "  Last Trigger:   ", &p.last_trigger_usec);
    }
    if !p.result.as_str().is_empty() {
        let color = if str_eq(p.result.as_str(), "success") {
            Color::Green
        } else {
            Color::Red
        };
        push_colored(&mut lines, "  Result:         ", &p.result, color);
    }
    if str_eq(p.persistent.as_str(), "yes") {
        push_fact(&mut lines, "  Persistent:     ", &p.persistent);
    }
    push_count(&mut lines, "  Accuracy:       ", &p.accuracy_usec);
    push_count(&mut lines, "  Random Delay:   ", &p.randomized_delay_usec);
    push_blank(&mut lines);
    assert(lines.deep_view() =~= timer_section(p@, name@));
    lines
}

fn socket(p: &UnitProperties, name: &str) -> (r: Vec<DetailLine>)
    ensures
        r.deep_view() == socket_section(p@, name@),
{
    let mut lines: Vec<DetailLine> = Vec::new();
    assert(lines.deep_view() =~= Seq::<DetailLineView>::empty());
    if !ends_with(name, ".socket") || p.listen.as_str().is_empty() {
        return lines;
    }
    push_heading(&mut lines, "Socket");
    push_fact(&mut lines, "  Listen:         ", &p.listen);
    if str_eq(p.accept.as_str(), "yes") {
        push_fact(&mut lines, "  Accept:         ", &String::from_str("yes"));
        push_count(&mut lines, "  Accepted:       ", &p.n_accepted);
        push_count(&mut lines, "  Connected:      ", &p.n_connections);
    }
    push_triggers(&mut lines, &p.triggers);
    push_blank(&mut lines);
    assert(lines.deep_view() =~= socket_section(p@, name@));
    lines
}

fn path(p: &UnitProperties, name: &str) -> (r: Vec<DetailLine>)
    ensures
        r.deep_view() == path_section(p@, name@),
{
    let mut lines: Vec<DetailLine> = Vec::new();
    assert(lines.deep_view() =~= Seq::<DetailLineView>::empty());
    if !ends_with(name, ".path") || (p.paths.as_str().is_empty() && p.triggers.len() == 0) {
        return lines;
    }
    push_heading(&mut lines, "Path");
    push_optional(&mut lines, "  Watch:          ", &p.paths);
    push_triggers(&mut lines, &p.triggers);
    push_blank(&mut lines);
    assert(lines.deep_view() =~= path_section(p@, name@));
    lines
}

fn process(p: &UnitProperties) -> (r: Vec<DetailLine>)
    ensures
        r.deep_view() == process_section(p@),
{
    let mut lines: Vec<DetailLine> = Vec::new();
    assert(lines.deep_view() =~= Seq::<DetailLineView>::empty());
    if p.main_pid == 0 {
        return lines;
    }
    push_heading(&mut lines, "Process");
    push_fact(&mut lines, "  Main PID:       ", &decimal_string(p.main_pid as u64));
    push_optional(&mut lines, "  Started:        ", &p.exec_main_start_timestamp);
    push_blank(&mut lines);
    assert(lines.deep_view() =~= process_section(p@));
    lines
}

fn resources(p: &UnitProperties, memory_text: &str, cpu_text: &str) -> (r: Vec<DetailLine>)
    ensures
        r.deep_view() == resources_section(p@, memory_text@, cpu_text@),
{
    let mut lines: Vec<DetailLine> = Vec::new();
    assert(lines.deep_view() =~= Seq::<DetailLineView>::empty());
    if p.memory_current.is_none() && p.cpu_usage_nsec.is_none() {
        return lines;
    }
    push_heading(&mut lines, "Resources");
    if p.memory_current.is_some() {
        push_fact(&mut lines, "  Memory:         ", &String::from_str(memory_text));
    }
    if p.cpu_usage_nsec.is_some() {
        push_fact(&mut lines, "  CPU Time:       ", &String::from_str(cpu_text));
    }
    push_blank(&mut lines);
    assert(lines.deep_view() =~= resources_section(p@, memory_text@, cpu_text@));
    lines
}

fn dependencies(p: &UnitProperties) -> (r: Vec<DetailLine>)
    ensures
        r.deep_view() == dependencies_section(p@),
{
    let mut lines: Vec<DetailLine> = Vec::new();
    assert(lines.deep_view() =~= Seq::<DetailLineView>::empty());
    if p.requires.len() == 0 && p.wants.len() == 0 && p.after.len() == 0 && p.before.len() == 0
        && p.conflicts.len() == 0 && p.triggered_by.len() == 0 && p.triggers.len() == 0 {
        return lines;
    }
    push_heading(&mut lines, "Dependencies");
    push_dependencies(&mut lines, "  Requires:       ", "  Requires:", &p.requires);
    push_dependencies(&mut lines, "  Wants:          ", "  Wants:", &p.wants);
    push_dependencies(&mut lines, "  After:          ", "  After:", &p.after);
    push_dependencies(&mut lines, "  Before:         ", "  Before:", &p.before);
    push_dependencies(&mut lines, "  Conflicts:      ", "  Conflicts:", &p.conflicts);
    push_dependencies(&mut lines, "  TriggeredBy:    ", "  TriggeredBy:", &p.triggered_by);
    push_dependencies(&mut lines, "  Triggers:       ", "  Triggers:", &p.triggers);
    assert(lines.deep_view() =~= dependencies_section(p@));
    lines
}

fn append_lines(lines: &mut Vec<DetailLine>, more: Vec<DetailLine>)
    ensures
        final(lines).deep_view() == old(lines).deep_view() + more.deep_view(),
{
    let ghost before = lines.deep_view();
    let ghost added = more.deep_view();
    let mut more = more;
    lines.append(&mut more);
    assert(lines.deep_view() =~= before + added);
}

/// The lines of the details overlay for the unit `name` with the fact sheet
/// `p`, given the text for its memory and for its processor time, see
/// `detail_lines_of`.
pub fn detail_lines(p: &UnitProperties, name: &str, memory_text: &str, cpu_text: &str) -> (r: Vec<
    DetailLine,
>)
    ensures
        r.deep_view() == detail_lines_of(p@, name@, memory_text@, cpu_text@),
{
    let mut lines = general(p, name);
    append_lines(&mut lines, timer(p, name));
    append_lines(&mut lines, socket(p, name));
    append_lines(&mut lines, path(p, name));
    append_lines(&mut lines, process(p));
    append_lines(&mut lines, resources(p, memory_text, cpu_text));
    append_lines(&mut lines, dependencies(p));
    lines
}

} // verus!
