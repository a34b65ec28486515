//! Turns successive game-controller snapshots into flight commands.
//!
//! A command is produced on an *edge*: a button that was released in the
//! previous snapshot and is pressed in the new one, or a right-trigger value
//! that differs from the previous one. The Start button asks for feathering;
//! North, then West, then South arms the drone (Start); North, then East,
//! then South disarms it (Stop).

use vstd::prelude::*;

verus! {

/// Most commands that one snapshot can produce.
pub const MAX_COMMANDS: usize = 10;

/// A controller button as the radio link reports it.
#[derive(Clone, Copy, Debug, PartialEq, Eq, Structural)]
pub enum Button {
    Start,
    North,
    East,
    South,
    West,
    /// Any other button, by the link's number for it; no command uses it.
    Other(u8),
}

/// One field of a controller snapshot.
#[derive(Clone, Copy, Debug, PartialEq, Eq, Structural)]
pub enum ControllerField {
    /// Position of the right trigger.
    RightTrigger(i16),
    /// A button and whether it is held.
    Button(Button, bool),
    /// Any other axis, by the link's number for it; no command uses it.
    Other(u8, i16),
}

/// A flight command.
#[derive(Clone, Copy, Debug, PartialEq, Eq, Structural)]
pub enum Command {
    Throttle(u16),
    Start,
    Stop,
    Feather,
}

/// A controller snapshot: its fields in the order in which the link lists them.
#[derive(Clone, Debug)]
pub struct ControllerState {
    pub fields: Vec<ControllerField>,
}

impl View for ControllerState {
    type V = Seq<ControllerField>;

    open spec fn view(&self) -> Seq<ControllerField> {
        self.fields@
    }
}

impl ControllerState {
    /// The snapshot with no field: it reads as trigger 0 and every button released.
    pub fn new() -> (state: Self)
        ensures
            state@ == Seq::<ControllerField>::empty(),
    {
        ControllerState { fields: Vec::new() }
    }

    /// A snapshot with the given fields, in the given order.
    pub fn from_fields(fields: Vec<ControllerField>) -> (state: Self)
        ensures
            state@ == fields@,
    {
        ControllerState { fields }
    }

    /// Whether two snapshots list the same fields in the same order.
    pub fn same_as(&self, other: &ControllerState) -> (same: bool)
        ensures
            same == (self@ == other@),
    {
        let n = self.fields.len();
        if n != other.fields.len() {
            return false;
        }
        let mut i: usize = 0;
        while i < n
            invariant
                n == self@.len(),
                n == other@.len(),
                i <= n,
                forall|k: int| 0 <= k < i ==> self@[k] == other@[k],
            decreases n - i,
        {
            if self.fields[i] != other.fields[i] {
                return false;
            }
            i = i + 1;
        }
        assert(self@ =~= other@);
        true
    }
}

/// The values that the command logic reads from a snapshot.
#[derive(Clone, Copy, Debug, PartialEq, Eq, Structural)]
pub struct Snapshot {
    pub trigger: i16,
    pub start: bool,
    pub north: bool,
    pub east: bool,
    pub south: bool,
    pub west: bool,
}

/// Trigger at 0, every button released.
pub open spec fn released() -> Snapshot {
    Snapshot { trigger: 0, start: false, north: false, east: false, south: false, west: false }
}

/// What a snapshot reads as after one more field: the field overrides its value.
pub open spec fn read_field(s: Snapshot, field: ControllerField) -> Snapshot {
    match field {
        ControllerField::RightTrigger(v) => Snapshot { trigger: v, ..s },
        ControllerField::Button(Button::Start, v) => Snapshot { start: v, ..s },
        ControllerField::Button(Button::North, v) => Snapshot { north: v, ..s },
        ControllerField::Button(Button::East, v) => Snapshot { east: v, ..s },
        ControllerField::Button(Button::South, v) => Snapshot { south: v, ..s },
        ControllerField::Button(Button::West, v) => Snapshot { west: v, ..s },
        _ => s,
    }
}

/// The values that a field list reads as: the last field of each kind
/// counts; a kind that is absent reads as released (trigger 0).
pub open spec fn read_fields(fields: Seq<ControllerField>) -> Snapshot
    decreases fields.len(),
{
    if fields.len() == 0 {
        released()
    } else {
        read_field(read_fields(fields.drop_last()), fields.last())
    }
}

/// A command as the logic decides it; a throttle request carries the
/// trigger value, which the caller's conversion turns into a throttle.
pub enum Request {
    Throttle(i16),
    Start,
    Stop,
    Feather,
}

#[verifier::ext_equal]
/// Progress through the fields of a new snapshot: the requests so far and
/// the last step of a pending button sequence.
pub struct Scan {
    pub requests: Seq<Request>,
    pub previous: Option<Button>,
}

/// The effect of one field of the new snapshot, against the previous
/// snapshot's values `old`. Once `MAX_COMMANDS` requests are made, nothing
/// changes any more.
pub open spec fn scan_field(old: Snapshot, scan: Scan, field: ControllerField) -> Scan {
    if scan.requests.len() >= MAX_COMMANDS {
        scan
    } else {
        match field {
            ControllerField::Button(Button::Start, v) => if !old.start && v {
                Scan { requests: scan.requests.push(Request::Feather), ..scan }
            } else {
                scan
            },
            ControllerField::Button(Button::North, v) => if !old.north && v {
                Scan { previous: Some(Button::North), ..scan }
            } else {
                scan
            },
            ControllerField::Button(Button::East, v) => if !old.east && v && scan.previous is Some {
                Scan {
                    previous: if scan.previous == Some(Button::North) {
                        Some(Button::East)
                    } else {
                        None
                    },
                    ..scan
                }
            } else {
                scan
            },
            ControllerField::Button(Button::West, v) => if !old.west && v && scan.previous is Some {
                Scan {
                    previous: if scan.previous == Some(Button::North) {
                        Some(Button::West)
                    } else {
                        None
                    },
                    ..scan
                }
            } else {
                scan
            },
            ControllerField::Button(Button::South, v) => if !old.south && v && scan.previous is Some {
                if scan.previous == Some(Button::East) {
                    Scan { requests: scan.requests.push(Request::Stop), previous: None }
                } else if scan.previous == Some(Button::West) {
                    Scan { requests: scan.requests.push(Request::Start), previous: None }
                } else {
                    Scan { previous: None, ..scan }
                }
            } else {
                scan
            },
            ControllerField::RightTrigger(v) => if v != old.trigger {
                Scan { requests: scan.requests.push(Request::Throttle(v)), ..scan }
            } else {
                scan
            },
            _ => scan,
        }
    }
}

/// The effect of all the fields of a new snapshot, in order.
pub open spec fn scan_fields(old: Snapshot, start: Scan, fields: Seq<ControllerField>) -> Scan
    decreases fields.len(),
{
    if fields.len() == 0 {
        start
    } else {
        scan_field(old, scan_fields(old, start, fields.drop_last()), fields.last())
    }
}

/// `command` is what `request` becomes, the trigger value converted by `to_throttle`.
pub open spec fn command_for<F: Fn(i16) -> u16>(to_throttle: F, request: Request, command: Command) -> bool {
    match (request, command) {
        (Request::Throttle(v), Command::Throttle(t)) => to_throttle.ensures((v,), t),
        (Request::Start, Command::Start) => true,
        (Request::Stop, Command::Stop) => true,
        (Request::Feather, Command::Feather) => true,
        _ => false,
    }
}

/// The command list holds the requests in order, converted, then `None`.
pub open spec fn lists_requests<F: Fn(i16) -> u16>(
    to_throttle: F,
    requests: Seq<Request>,
    list: Seq<Option<Command>>,
) -> bool {
    &&& list.len() == MAX_COMMANDS
    &&& requests.len() <= MAX_COMMANDS
    &&& forall|k: int|
        0 <= k < requests.len() ==> (#[trigger] list[k] matches Some(c) && command_for(
            to_throttle,
            requests[k],
            c,
        ))
    &&& forall|k: int| requests.len() <= k < MAX_COMMANDS ==> #[trigger] list[k] is None
}

/// What a generator remembers between snapshots.
pub struct GeneratorView {
    /// The last snapshot that differed from its predecessor.
    pub last_state: Seq<ControllerField>,
    /// The last step of a pending button sequence.
    pub previous_button: Option<Button>,
}

/// The scan of a new snapshot's fields, from a generator's memory.
pub open spec fn scan_from(before: GeneratorView, fields: Seq<ControllerField>) -> Scan {
    scan_fields(
        read_fields(before.last_state),
        Scan { requests: Seq::empty(), previous: before.previous_button },
        fields,
    )
}

/// The requests that a snapshot makes: none if it equals the last one.
pub open spec fn requests_for(before: GeneratorView, fields: Seq<ControllerField>) -> Seq<Request> {
    if before.last_state == fields {
        Seq::empty()
    } else {
        scan_from(before, fields).requests
    }
}

/// What a generator remembers after a snapshot: unchanged if the snapshot
/// equals the last one; otherwise the snapshot and the pending sequence step.
pub open spec fn after_generate(before: GeneratorView, fields: Seq<ControllerField>) -> GeneratorView {
    if before.last_state == fields {
        before
    } else {
        GeneratorView { last_state: fields, previous_button: scan_from(before, fields).previous }
    }
}

pub struct CommandGenerator {
    old_controller_state: ControllerState,
    previous_button: Option<Button>,
}

impl View for CommandGenerator {
    type V = GeneratorView;

    closed spec fn view(&self) -> GeneratorView {
        GeneratorView {
            last_state: self.old_controller_state@,
            previous_button: self.previous_button,
        }
    }
}

/// Once a scan has made `MAX_COMMANDS` requests, further fields change nothing.
proof fn lemma_scan_full(old: Snapshot, start: Scan, fields: Seq<ControllerField>, i: int)
    requires
        0 <= i <= fields.len(),
        scan_fields(old, start, fields.take(i)).requests.len() >= MAX_COMMANDS,
    ensures
        scan_fields(old, start, fields) == scan_fields(old, start, fields.take(i)),
    decreases fields.len() - i,
{
    if i < fields.len() {
        let next = fields.take(i + 1);
        assert(next.drop_last() =~= fields.take(i));
        lemma_scan_full(old, start, fields, i + 1);
    } else {
        assert(fields.take(i) =~= fields);
    }
}

impl CommandGenerator {
    /// A generator that has seen only the empty snapshot and has no pending sequence.
    pub fn new() -> (generator: Self)
        ensures
            generator@.last_state == Seq::<ControllerField>::empty(),
            generator@.previous_button is None,
    {
        CommandGenerator { old_controller_state: ControllerState::new(), previous_button: None }
    }

    /// The commands that `controller_state` gives after the last snapshot,
    /// `to_throttle` turning a right-trigger position into a throttle.
    ///
    /// A snapshot equal to the last one gives no command and changes
    /// nothing. Otherwise the fields of the new snapshot are read in order
    /// against the values of the last one (`scan_fields`), the commands fill
    /// the list from its start, and the new snapshot becomes the last one.
    pub fn generate<F: Fn(i16) -> u16>(
        &mut self,
        controller_state: ControllerState,
        to_throttle: F,
    ) -> (commands: [Option<Command>; 10])
        requires
            forall|v: i16| to_throttle.requires((v,)),
        ensures
            final(self)@ == after_generate(old(self)@, controller_state@),
            lists_requests(to_throttle, requests_for(old(self)@, controller_state@), commands@),
    {
        let mut command_list: [Option<Command>; 10] = [None, None, None, None, None, None, None, None, None, None];
        if self.old_controller_state.same_as(&controller_state) {
            return command_list;
        }
        let ghost before = self@;
        // The values of the last snapshot.
        let old_fields = &self.old_controller_state.fields;
        let mut old_values = Snapshot {
            trigger: 0,
            start: false,
            north: false,
            east: false,
            south: false,
            west: false,
        };
        let n_old = old_fields.len();
        let mut i: usize = 0;
        while i < n_old
            invariant
                n_old == old_fields@.len(),
                i <= n_old,
                old_values == read_fields(old_fields@.take(i as int)),
            decreases n_old - i,
        {
            proof {
                assert(old_fields@.take(i + 1).drop_last() =~= old_fields@.take(i as int));
            }
            match old_fields[i] {
                ControllerField::RightTrigger(value) => old_values.trigger = value,
                ControllerField::Button(Button::Start, value) => old_values.start = value,
                ControllerField::Button(Button::North, value) => old_values.north = value,
                ControllerField::Button(Button::East, value) => old_values.east = value,
                ControllerField::Button(Button::South, value) => old_values.south = value,
                ControllerField::Button(Button::West, value) => old_values.west = value,
                _ => {},
            }
            i = i + 1;
        }
        proof {
            assert(old_fields@.take(n_old as int) =~= old_fields@);
        }
        let ghost old = old_values;
        let ghost start = Scan { requests: Seq::empty(), previous: before.previous_button };
        let new_fields = &controller_state.fields;
        let n_new = new_fields.len();
        let mut index: usize = 0;
        let mut j: usize = 0;
        let ghost mut requests: Seq<Request> = Seq::empty();
        while j < n_new && index < MAX_COMMANDS
            invariant
                n_new == new_fields@.len(),
                j <= n_new,
                old == read_fields(before.last_state),
                old_values == old,
                start == (Scan { requests: Seq::empty(), previous: before.previous_button }),
                scan_fields(old, start, new_fields@.take(j as int)) == (Scan {
                    requests,
                    previous: self.previous_button,
                }),
                index == requests.len(),
                index <= MAX_COMMANDS,
                forall|v: i16| to_throttle.requires((v,)),
                forall|k: int|
                    0 <= k < index ==> (#[trigger] command_list@[k] matches Some(c)
                        && command_for(to_throttle, requests[k], c)),
                forall|k: int| index <= k < MAX_COMMANDS ==> #[trigger] command_list@[k] is None,
                self.old_controller_state@ == before.last_state,
            decreases n_new - j,
        {
            proof {
                assert(new_fields@.take(j + 1).drop_last() =~= new_fields@.take(j as int));
                assert(new_fields@.take(j + 1).last() == new_fields@[j as int]);
            }
            match new_fields[j] {
                ControllerField::Button(Button::Start, new_value) => {
                    if !old_values.start && new_value {
                        command_list[index] = Some(Command::Feather);
                        proof {
                            requests = requests.push(Request::Feather);
                        }
                        index = index + 1;
                    }
                },
                ControllerField::Button(Button::North, new_value) => {
                    if !old_values.north && new_value {
                        self.previous_button = Some(Button::North);
                    }
                },
                ControllerField::Button(Button::East, new_value) => {
                    if !old_values.east && new_value {
                        match self.previous_button {
                            Some(Button::North) => self.previous_button = Some(Button::East),
                            Some(_) => self.previous_button = None,
                            None => {},
                        }
                    }
                },
                ControllerField::Button(Button::West, new_value) => {
                    if !old_values.west && new_value {
                        match self.previous_button {
                            Some(Button::North) => self.previous_button = Some(Button::West),
                            Some(_) => self.previous_button = None,
                            None => {},
                        }
                    }
                },
                ControllerField::Button(Button::South, new_value) => {
                    if !old_values.south && new_value {
                        match self.previous_button {
                            Some(Button::East) => {
                                self.previous_button = None;
                                command_list[index] = Some(Command::Stop);
                                proof {
                                    requests = requests.push(Request::Stop);
                                }
                                index = index + 1;
                            },
                            Some(Button::West) => {
                                self.previous_button = None;
                                command_list[index] = Some(Command::Start);
                                proof {
                                    requests = requests.push(Request::Start);
                                }
                                index = index + 1;
                            },
                            Some(_) => self.previous_button = None,
                            None => {},
                        }
                    }
                },
                ControllerField::RightTrigger(new_value) => {
                    if new_value != old_values.trigger {
                        let throttle = to_throttle(new_value);
                        command_list[index] = Some(Command::Throttle(throttle));
                        proof {
                            requests = requests.push(Request::Throttle(new_value));
                        }
                        index = index + 1;
                    }
                },
                _ => {},
            }
            j = j + 1;
        }
        proof {
            if j < n_new {
                lemma_scan_full(old, start, new_fields@, j as int);
            } else {
                assert(new_fields@.take(n_new as int) =~= new_fields@);
            }
        }
        self.old_controller_state = controller_state;
        command_list
    }
}

/// Handing the generator the same snapshot twice in a row: the second time
/// gives no command and changes nothing.
pub proof fn law_repeated_snapshot_is_silent(before: GeneratorView, fields: Seq<ControllerField>)
    ensures
        requests_for(after_generate(before, fields), fields) == Seq::<Request>::empty(),
        after_generate(after_generate(before, fields), fields) == after_generate(before, fields),
{
}

/// Commands come only from edges: new fields that all read as the last
/// snapshot's values make no request and leave the pending sequence alone.
pub proof fn law_no_edge_no_command(old: Snapshot, start: Scan, fields: Seq<ControllerField>)
    requires
        forall|k: int| 0 <= k < fields.len() ==> read_field(old, #[trigger] fields[k]) == old,
    ensures
        scan_fields(old, start, fields) == start,
    decreases fields.len(),
{
    if fields.len() > 0 {
        let rest = fields.drop_last();
        assert forall|k: int| 0 <= k < rest.len() implies read_field(old, #[trigger] rest[k]) == old by {
            assert(rest[k] == fields[k]);
        }
        law_no_edge_no_command(old, start, rest);
        assert(read_field(old, fields[fields.len() - 1]) == old);
    }
}

/// The two latest rising edges among the direction buttons (North, East,
/// South, West), the latest first.
pub struct DirHistory {
    pub last: Option<Button>,
    pub before: Option<Button>,
}

/// No direction edge seen yet.
pub open spec fn no_history() -> DirHistory {
    DirHistory { last: None, before: None }
}

/// The step of an arm or disarm sequence that a history leaves pending:
/// North after any edge; East or West right after North; nothing otherwise.
pub open spec fn pending(h: DirHistory) -> Option<Button> {
    if h.last == Some(Button::North) {
        Some(Button::North)
    } else if h.last == Some(Button::East) && h.before == Some(Button::North) {
        Some(Button::East)
    } else if h.last == Some(Button::West) && h.before == Some(Button::North) {
        Some(Button::West)
    } else {
        None
    }
}

/// Whether a button is one of the four direction buttons.
pub open spec fn is_direction(b: Button) -> bool {
    b == Button::North || b == Button::East || b == Button::South || b == Button::West
}

/// A direction button's value in a snapshot.
pub open spec fn direction_value(s: Snapshot, b: Button) -> bool {
    if b == Button::North {
        s.north
    } else if b == Button::East {
        s.east
    } else if b == Button::South {
        s.south
    } else {
        s.west
    }
}

/// The direction edges seen so far and the Start and Stop commands that
/// they give by the sequence rule.
pub struct EdgeTrace {
    pub history: DirHistory,
    pub commands: Seq<Request>,
}

/// One field under the sequence rule: a direction button pressed now and
/// released in the previous snapshot is an edge; a South edge whose two
/// latest earlier edges are North then East gives Stop, North then West
/// gives Start.
pub open spec fn trace_field(old: Snapshot, t: EdgeTrace, field: ControllerField) -> EdgeTrace {
    match field {
        ControllerField::Button(b, v) => if is_direction(b) && v && !direction_value(old, b) {
            EdgeTrace {
                history: DirHistory { last: Some(b), before: t.history.last },
                commands: if b == Button::South && t.history.last == Some(Button::East)
                    && t.history.before == Some(Button::North) {
                    t.commands.push(Request::Stop)
                } else if b == Button::South && t.history.last == Some(Button::West)
                    && t.history.before == Some(Button::North) {
                    t.commands.push(Request::Start)
                } else {
                    t.commands
                },
            }
        } else {
            t
        },
        _ => t,
    }
}

/// All the fields of a snapshot under the sequence rule, in order.
pub open spec fn trace_fields(old: Snapshot, t: EdgeTrace, fields: Seq<ControllerField>) -> EdgeTrace
    decreases fields.len(),
{
    if fields.len() == 0 {
        t
    } else {
        trace_field(old, trace_fields(old, t, fields.drop_last()), fields.last())
    }
}

/// The Start and Stop requests among `requests`, in order.
pub open spec fn arm_disarm(requests: Seq<Request>) -> Seq<Request>
    decreases requests.len(),
{
    if requests.len() == 0 {
        Seq::empty()
    } else {
        let rest = arm_disarm(requests.drop_last());
        match requests.last() {
            Request::Start => rest.push(Request::Start),
            Request::Stop => rest.push(Request::Stop),
            _ => rest,
        }
    }
}

/// One call under the sequence rule: a snapshot equal to the last one has
/// no edge; otherwise its fields are read against the last one.
pub open spec fn call_trace(before: GeneratorView, h: DirHistory, fields: Seq<ControllerField>) -> EdgeTrace {
    if before.last_state == fields {
        EdgeTrace { history: h, commands: Seq::empty() }
    } else {
        trace_fields(read_fields(before.last_state), EdgeTrace { history: h, commands: Seq::empty() }, fields)
    }
}

/// A generator's memory after a sequence of snapshots.
pub open spec fn generator_after(g: GeneratorView, calls: Seq<Seq<ControllerField>>) -> GeneratorView
    decreases calls.len(),
{
    if calls.len() == 0 {
        g
    } else {
        after_generate(generator_after(g, calls.drop_last()), calls.last())
    }
}

/// The direction-edge history after a sequence of snapshots.
pub open spec fn history_after(g: GeneratorView, h: DirHistory, calls: Seq<Seq<ControllerField>>) -> DirHistory
    decreases calls.len(),
{
    if calls.len() == 0 {
        h
    } else {
        call_trace(
            generator_after(g, calls.drop_last()),
            history_after(g, h, calls.drop_last()),
            calls.last(),
        ).history
    }
}

/// What `CommandGenerator::new` remembers.
pub open spec fn fresh_generator() -> GeneratorView {
    GeneratorView { last_state: Seq::empty(), previous_button: None }
}

/// Whether a field is a rising edge of a direction button against the
/// previous snapshot's values.
pub open spec fn is_direction_edge(old: Snapshot, field: ControllerField) -> bool {
    match field {
        ControllerField::Button(b, v) => is_direction(b) && v && !direction_value(old, b),
        _ => false,
    }
}

/// No direction rising edge of the snapshot comes after its command list
/// is full (fields after that are not read).
pub open spec fn skips_no_edge(old: Snapshot, start: Scan, fields: Seq<ControllerField>) -> bool {
    forall|i: int|
        0 <= i < fields.len() && scan_fields(old, start, fields.take(i)).requests.len() >= MAX_COMMANDS
            ==> !is_direction_edge(old, #[trigger] fields[i])
}

/// A call reads every direction rising edge of its snapshot: the snapshot
/// equals the previous one, or no such edge comes after its list is full.
pub open spec fn call_skips_no_edge(before: GeneratorView, fields: Seq<ControllerField>) -> bool {
    before.last_state == fields || skips_no_edge(
        read_fields(before.last_state),
        Scan { requests: Seq::empty(), previous: before.previous_button },
        fields,
    )
}

/// The scan of a snapshot's fields and the sequence rule agree, as long as
/// no direction edge comes after the command list is full.
proof fn lemma_scan_follows_trace(old: Snapshot, start: Scan, t: EdgeTrace, fields: Seq<ControllerField>)
    requires
        start.previous == pending(t.history),
        arm_disarm(start.requests) == t.commands,
        skips_no_edge(old, start, fields),
    ensures
        scan_fields(old, start, fields).previous == pending(trace_fields(old, t, fields).history),
        arm_disarm(scan_fields(old, start, fields).requests) == trace_fields(old, t, fields).commands,
    decreases fields.len(),
{
    if fields.len() > 0 {
        let rest = fields.drop_last();
        let n = fields.len() - 1;
        assert forall|i: int|
            0 <= i < rest.len() && scan_fields(old, start, rest.take(i)).requests.len() >= MAX_COMMANDS
                implies !is_direction_edge(old, #[trigger] rest[i]) by {
            assert(rest.take(i) =~= fields.take(i));
            assert(rest[i] == fields[i]);
        }
        lemma_scan_follows_trace(old, start, t, rest);
        let prev = scan_fields(old, start, rest);
        let f = fields.last();
        let next = scan_field(old, prev, f);
        if prev.requests.len() >= MAX_COMMANDS {
            assert(fields.take(n) =~= rest);
            assert(!is_direction_edge(old, fields[n]));
        } else if next.requests.len() > prev.requests.len() {
            assert(next.requests.drop_last() =~= prev.requests);
        } else {
            assert(next.requests =~= prev.requests);
        }
    }
}

/// The arm and disarm sequences across successive snapshots, from a new
/// generator: in the `k`-th call, the Start and Stop commands are exactly
/// those of its South rising edges whose two latest earlier direction edges
/// (over all calls so far, in call order and then field order) were North
/// then West (Start) or North then East (Stop). A rising edge is a button
/// pressed in the snapshot and released in the previous one; a snapshot
/// equal to the previous one has none. This holds as long as no call so
/// far had a direction rising edge after its list of `MAX_COMMANDS`
/// commands filled up, since fields after that are not read.
pub proof fn law_button_sequences(calls: Seq<Seq<ControllerField>>, k: int)
    requires
        0 <= k < calls.len(),
        forall|j: int|
            0 <= j <= k ==> #[trigger] call_skips_no_edge(
                generator_after(fresh_generator(), calls.take(j)),
                calls[j],
            ),
    ensures
        arm_disarm(requests_for(generator_after(fresh_generator(), calls.take(k)), calls[k]))
            == call_trace(
            generator_after(fresh_generator(), calls.take(k)),
            history_after(fresh_generator(), no_history(), calls.take(k)),
            calls[k],
        ).commands,
{
    lemma_pending_tracks_history(calls, k);
    assert(call_skips_no_edge(generator_after(fresh_generator(), calls.take(k)), calls[k]));
    lemma_call_follows_trace(
        generator_after(fresh_generator(), calls.take(k)),
        history_after(fresh_generator(), no_history(), calls.take(k)),
        calls[k],
    );
}

/// One call: the generator's requests and pending step agree with the
/// sequence rule, given that its pending step agrees before the call.
proof fn lemma_call_follows_trace(before: GeneratorView, h: DirHistory, fields: Seq<ControllerField>)
    requires
        before.previous_button == pending(h),
        call_skips_no_edge(before, fields),
    ensures
        arm_disarm(requests_for(before, fields)) == call_trace(before, h, fields).commands,
        after_generate(before, fields).previous_button == pending(call_trace(before, h, fields).history),
{
    if before.last_state != fields {
        lemma_scan_follows_trace(
            read_fields(before.last_state),
            Scan { requests: Seq::empty(), previous: before.previous_button },
            EdgeTrace { history: h, commands: Seq::empty() },
            fields,
        );
    }
}

/// Across the first `k` calls, the generator's pending step is the one that
/// the direction-edge history leaves.
proof fn lemma_pending_tracks_history(calls: Seq<Seq<ControllerField>>, k: int)
    requires
        0 <= k <= calls.len(),
        forall|j: int|
            0 <= j < k ==> #[trigger] call_skips_no_edge(
                generator_after(fresh_generator(), calls.take(j)),
                calls[j],
            ),
    ensures
        generator_after(fresh_generator(), calls.take(k)).previous_button == pending(
            history_after(fresh_generator(), no_history(), calls.take(k)),
        ),
    decreases k,
{
    if k > 0 {
        lemma_pending_tracks_history(calls, k - 1);
        let prefix = calls.take(k);
        assert(prefix.drop_last() =~= calls.take(k - 1));
        assert(prefix.last() == calls[k - 1]);
        assert(call_skips_no_edge(generator_after(fresh_generator(), calls.take(k - 1)), calls[k - 1]));
        lemma_call_follows_trace(
            generator_after(fresh_generator(), calls.take(k - 1)),
            history_after(fresh_generator(), no_history(), calls.take(k - 1)),
            calls[k - 1],
        );
    } else {
        assert(calls.take(0) =~= Seq::<Seq<ControllerField>>::empty());
    }
}

/// The slot of a snapshot that a field sets: 0 the trigger, 1 Start,
/// 2 North, 3 East, 4 South, 5 West; -1 for a field that sets none.
pub open spec fn field_slot(field: ControllerField) -> int {
    match field {
        ControllerField::RightTrigger(_) => 0,
        ControllerField::Button(Button::Start, _) => 1,
        ControllerField::Button(Button::North, _) => 2,
        ControllerField::Button(Button::East, _) => 3,
        ControllerField::Button(Button::South, _) => 4,
        ControllerField::Button(Button::West, _) => 5,
        _ => -1,
    }
}

/// The value a field carries: the trigger position, or 1 for a held button
/// and 0 for a released one.
pub open spec fn field_reading(field: ControllerField) -> int {
    match field {
        ControllerField::RightTrigger(v) => v as int,
        ControllerField::Button(_, true) => 1,
        _ => 0,
    }
}

/// The value of a snapshot's slot (see `field_slot`), a button as 1 or 0.
pub open spec fn slot_value(s: Snapshot, k: int) -> int {
    if k == 0 {
        s.trigger as int
    } else if k == 1 {
        if s.start { 1 } else { 0 }
    } else if k == 2 {
        if s.north { 1 } else { 0 }
    } else if k == 3 {
        if s.east { 1 } else { 0 }
    } else if k == 4 {
        if s.south { 1 } else { 0 }
    } else {
        if s.west { 1 } else { 0 }
    }
}

/// A field sets the one slot it belongs to, to its own value, and leaves
/// every other slot alone.
pub proof fn law_read_field_sets_its_slot(s: Snapshot, field: ControllerField, k: int)
    requires
        0 <= k < 6,
    ensures
        field_slot(field) == k ==> slot_value(read_field(s, field), k) == field_reading(field),
        field_slot(field) != k ==> slot_value(read_field(s, field), k) == slot_value(s, k),
{
}

/// What a snapshot reads as: each slot holds the value of the last field
/// for that slot, whatever other fields come before or after it; a slot
/// with no field reads as 0 (trigger at rest, button released).
pub proof fn law_read_fields_last_wins(fields: Seq<ControllerField>, k: int)
    requires
        0 <= k < 6,
    ensures
        (forall|i: int| 0 <= i < fields.len() ==> field_slot(#[trigger] fields[i]) != k) ==> slot_value(
            read_fields(fields),
            k,
        ) == 0,
        forall|i: int|
            0 <= i < fields.len() && field_slot(#[trigger] fields[i]) == k && (forall|j: int|
                i < j < fields.len() ==> field_slot(#[trigger] fields[j]) != k) ==> slot_value(
                read_fields(fields),
                k,
            ) == field_reading(fields[i]),
    decreases fields.len(),
{
    if fields.len() > 0 {
        let rest = fields.drop_last();
        let n = fields.len() - 1;
        law_read_fields_last_wins(rest, k);
        law_read_field_sets_its_slot(read_fields(rest), fields[n], k);
        assert forall|i: int| 0 <= i < rest.len() implies rest[i] == fields[i] by {}
        assert forall|i: int|
            0 <= i < fields.len() && field_slot(#[trigger] fields[i]) == k && (forall|j: int|
                i < j < fields.len() ==> field_slot(#[trigger] fields[j]) != k) implies slot_value(
                read_fields(fields),
                k,
            ) == field_reading(fields[i]) by {
            if i < n {
                assert(field_slot(fields[n]) != k);
                assert(rest[i] == fields[i]);
                assert forall|j: int| i < j < rest.len() implies field_slot(#[trigger] rest[j]) != k by {
                    assert(rest[j] == fields[j]);
                }
            }
        }
        if forall|i: int| 0 <= i < fields.len() ==> field_slot(#[trigger] fields[i]) != k {
            assert(field_slot(fields[n]) != k);
            assert forall|i: int| 0 <= i < rest.len() implies field_slot(#[trigger] rest[i]) != k by {
                assert(rest[i] == fields[i]);
            }
        }
    } else {
        assert(read_fields(fields) == released());
    }
}

/// The effect of each field on a scan with room for one more command,
/// against the last snapshot's values `old`:
/// - a Start press (released before) adds Feather, whatever the trigger;
/// - a trigger position that differs from the last one adds a throttle
///   request for the new position, and leaves the pending step alone;
/// - a North press leaves North pending;
/// - an East or West press after a pending North leaves it pending,
///   otherwise clears the pending step;
/// - a South press after a pending East adds Stop, after a pending West
///   adds Start, and clears the pending step;
/// - a button held before, a released button, an unchanged trigger, another
///   button or another field change nothing.
/// With the list full, no field changes anything.
pub proof fn law_scan_field_effects(old: Snapshot, scan: Scan, field: ControllerField)
    ensures
        scan.requests.len() >= MAX_COMMANDS ==> scan_field(old, scan, field) == scan,
        scan.requests.len() < MAX_COMMANDS && field == ControllerField::Button(Button::Start, true)
            && !old.start ==> scan_field(old, scan, field) == (Scan {
            requests: scan.requests.push(Request::Feather),
            previous: scan.previous,
        }),
        scan.requests.len() < MAX_COMMANDS ==> (field matches ControllerField::RightTrigger(v) ==> (
        if v != old.trigger {
            scan_field(old, scan, field) == (Scan {
                requests: scan.requests.push(Request::Throttle(v)),
                previous: scan.previous,
            })
        } else {
            scan_field(old, scan, field) == scan
        })),
        scan.requests.len() < MAX_COMMANDS && field == ControllerField::Button(Button::North, true)
            && !old.north ==> scan_field(old, scan, field) == (Scan {
            requests: scan.requests,
            previous: Some(Button::North),
        }),
        scan.requests.len() < MAX_COMMANDS && field == ControllerField::Button(Button::East, true)
            && !old.east ==> scan_field(old, scan, field) == (Scan {
            requests: scan.requests,
            previous: if scan.previous == Some(Button::North) {
                Some(Button::East)
            } else {
                None
            },
        }),
        scan.requests.len() < MAX_COMMANDS && field == ControllerField::Button(Button::West, true)
            && !old.west ==> scan_field(old, scan, field) == (Scan {
            requests: scan.requests,
            previous: if scan.previous == Some(Button::North) {
                Some(Button::West)
            } else {
                None
            },
        }),
        scan.requests.len() < MAX_COMMANDS && field == ControllerField::Button(Button::South, true)
            && !old.south ==> scan_field(old, scan, field) == (Scan {
            requests: if scan.previous == Some(Button::East) {
                scan.requests.push(Request::Stop)
            } else if scan.previous == Some(Button::West) {
                scan.requests.push(Request::Start)
            } else {
                scan.requests
            },
            previous: None,
        }),
        field == ControllerField::Button(Button::Start, false) || (field == ControllerField::Button(
            Button::Start,
            true,
        ) && old.start) ==> scan_field(old, scan, field) == scan,
        field == ControllerField::Button(Button::North, false) || (field == ControllerField::Button(
            Button::North,
            true,
        ) && old.north) ==> scan_field(old, scan, field) == scan,
        field == ControllerField::Button(Button::East, false) || (field == ControllerField::Button(
            Button::East,
            true,
        ) && old.east) ==> scan_field(old, scan, field) == scan,
        field == ControllerField::Button(Button::South, false) || (field == ControllerField::Button(
            Button::South,
            true,
        ) && old.south) ==> scan_field(old, scan, field) == scan,
        field == ControllerField::Button(Button::West, false) || (field == ControllerField::Button(
            Button::West,
            true,
        ) && old.west) ==> scan_field(old, scan, field) == scan,
        field matches ControllerField::Button(Button::Other(_), _) ==> scan_field(old, scan, field) == scan,
        field matches ControllerField::Other(_, _) ==> scan_field(old, scan, field) == scan,
{
}

/// A request becomes the command of the same kind; a throttle request
/// becomes a throttle command with what the conversion gives for its
/// trigger value.
pub proof fn law_command_for_kind<F: Fn(i16) -> u16>(to_throttle: F, c: Command, v: i16)
    ensures
        command_for(to_throttle, Request::Start, c) <==> c == Command::Start,
        command_for(to_throttle, Request::Stop, c) <==> c == Command::Stop,
        command_for(to_throttle, Request::Feather, c) <==> c == Command::Feather,
        command_for(to_throttle, Request::Throttle(v), c) <==> (c matches Command::Throttle(t)
            && to_throttle.ensures((v,), t)),
{
}

/// After any snapshot, the generator remembers exactly that snapshot; a
/// snapshot equal to the remembered one makes no request and keeps the
/// pending step; a different one is read against the remembered one from
/// an empty request list.
pub proof fn law_generate_memory(before: GeneratorView, fields: Seq<ControllerField>)
    ensures
        after_generate(before, fields).last_state == fields,
        before.last_state == fields ==> requests_for(before, fields) == Seq::<Request>::empty()
            && after_generate(before, fields).previous_button == before.previous_button,
        before.last_state != fields ==> requests_for(before, fields) == scan_fields(
            read_fields(before.last_state),
            Scan { requests: Seq::empty(), previous: before.previous_button },
            fields,
        ).requests && after_generate(before, fields).previous_button == scan_fields(
            read_fields(before.last_state),
            Scan { requests: Seq::empty(), previous: before.previous_button },
            fields,
        ).previous,
        scan_fields(read_fields(before.last_state), Scan { requests: Seq::empty(), previous: before.previous_button }, Seq::empty())
            == (Scan { requests: Seq::empty(), previous: before.previous_button }),
        forall|f: ControllerField|
            scan_fields(
                read_fields(before.last_state),
                Scan { requests: Seq::empty(), previous: before.previous_button },
                fields.push(f),
            ) == scan_field(
                read_fields(before.last_state),
                scan_fields(
                    read_fields(before.last_state),
                    Scan { requests: Seq::empty(), previous: before.previous_button },
                    fields,
                ),
                f,
            ),
{
    assert forall|f: ControllerField| #[trigger] fields.push(f).drop_last() == fields by {
        assert(fields.push(f).drop_last() =~= fields);
    }
}

} // verus!
