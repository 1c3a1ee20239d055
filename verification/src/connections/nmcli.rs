use vstd::prelude::*;
use super::error::{Error, ErrorView};
use crate::log::{entries, warn, warned, Entry, EntryView};
use crate::text::{
    chars_of, contains, equal, has, lines, lines_of, lowercase, split, split_chars, string_of,
    strings, texts, to_lowercase,
};

verus! {

/// The kind of device that a connection runs on.
#[derive(Debug, Clone, Copy, PartialEq, Eq, Structural)]
pub enum Type {
    Loopback,
    Wifi,
    Ethernet,
    Unknown,
}

/// A connection that the connection manager knows.
#[derive(Debug, PartialEq, Eq)]
pub struct Connection {
    pub name: String,
    pub kind: Type,
    pub active: bool,
}

/// The mathematical value of a [`Connection`].
pub struct ConnectionView {
    pub name: Seq<char>,
    pub kind: Type,
    pub active: bool,
}

impl View for Connection {
    type V = ConnectionView;

    open spec fn view(&self) -> ConnectionView {
        ConnectionView { name: self.name@, kind: self.kind, active: self.active }
    }
}

/// A command for the connection manager.
#[derive(Debug, PartialEq, Eq)]
pub enum Command {
    /// List the connections, one per line: name, type, active and device, with colons
    /// between them.
    Show,
    /// Take the connection of this name down.
    Down(String),
    /// Bring the connection of this name up.
    Up(String),
    /// Switch the wifi radio on.
    WifiOn,
}

/// The mathematical value of a [`Command`].
pub enum CommandView {
    Show,
    Down(Seq<char>),
    Up(Seq<char>),
    WifiOn,
}

impl View for Command {
    type V = CommandView;

    open spec fn view(&self) -> CommandView {
        match self {
            Command::Show => CommandView::Show,
            Command::Down(name) => CommandView::Down(name@),
            Command::Up(name) => CommandView::Up(name@),
            Command::WifiOn => CommandView::WifiOn,
        }
    }
}

impl CommandView {
    /// The arguments that the command is run with.
    pub open spec fn arguments(self) -> Seq<Seq<char>> {
        match self {
            CommandView::Show => seq![
                "-t"@,
                "-f"@,
                "NAME,TYPE,ACTIVE,DEVICE"@,
                "connection"@,
                "show"@,
            ],
            CommandView::Down(name) => seq!["connection"@, "down"@, name],
            CommandView::Up(name) => seq!["connection"@, "up"@, name],
            CommandView::WifiOn => seq!["radio"@, "wifi"@, "on"@],
        }
    }
}

/// What a list of connections holds.
pub open spec fn connections(list: Seq<Connection>) -> Seq<ConnectionView> {
    list.map_values(|connection: Connection| connection@)
}

/// What a list of commands holds.
pub open spec fn commands(list: Seq<Command>) -> Seq<CommandView> {
    list.map_values(|command: Command| command@)
}

impl Command {
    /// The arguments that the command is run with.
    pub fn arguments(&self) -> (list: Vec<String>)
        ensures
            strings(list@) == self@.arguments(),
    {
        let mut list: Vec<String> = Vec::new();
        match self {
            Command::Show => {
                list.push("-t".to_owned());
                list.push("-f".to_owned());
                list.push("NAME,TYPE,ACTIVE,DEVICE".to_owned());
                list.push("connection".to_owned());
                list.push("show".to_owned());
            },
            Command::Down(name) => {
                list.push("connection".to_owned());
                list.push("down".to_owned());
                list.push(name.clone());
            },
            Command::Up(name) => {
                list.push("connection".to_owned());
                list.push("up".to_owned());
                list.push(name.clone());
            },
            Command::WifiOn => {
                list.push("radio".to_owned());
                list.push("wifi".to_owned());
                list.push("on".to_owned());
            },
        }
        assert(strings(list@) =~= self@.arguments());
        list
    }
}

/// The kind of device that a type field names: the first of ethernet, wireless and
/// loopback whose name stands in the field.
pub open spec fn network_type(field: Seq<char>) -> Type {
    if has(field, "ethernet"@) {
        Type::Ethernet
    } else if has(field, "wireless"@) {
        Type::Wifi
    } else if has(field, "loopback"@) {
        Type::Loopback
    } else {
        Type::Unknown
    }
}

/// The connection that a line of the list describes. Colons cut the line into fields:
/// the name, the type, then `yes` where the connection is active. A line with fewer
/// than three fields describes none.
pub open spec fn connection_of(line: Seq<char>) -> Option<ConnectionView> {
    let fields = split(line, ':');
    if fields.len() < 3 {
        None
    } else {
        Some(
            ConnectionView {
                name: fields[0],
                kind: network_type(fields[1]),
                active: fields[2] == "yes"@,
            },
        )
    }
}

/// [`connection_of`] as a function value.
pub open spec fn described() -> spec_fn(Seq<char>) -> Option<ConnectionView> {
    |line: Seq<char>| connection_of(line)
}

/// The line itself where it describes no connection.
pub open spec fn undescribed() -> spec_fn(Seq<char>) -> Option<Seq<char>> {
    |line: Seq<char>|
        if connection_of(line) is None {
            Some(line)
        } else {
            None
        }
}

/// What the list of connections says: the connections that its lines describe, in the
/// order of the lines, and the lines that describe none.
#[derive(Debug, PartialEq, Eq)]
pub struct Listing {
    pub connections: Vec<Connection>,
    pub skipped: Vec<String>,
}

/// The warning that a line of the list was skipped.
pub open spec fn skipped_warning() -> spec_fn(Seq<char>) -> EntryView {
    |line: Seq<char>| warned("Skipping invalid connection line: "@ + line)
}

impl Listing {
    /// The warnings for the log: one for each line that was skipped.
    pub fn warnings(&self) -> (list: Vec<Entry>)
        ensures
            entries(list@) == strings(self.skipped@).map_values(skipped_warning()),
    {
        let mut list: Vec<Entry> = Vec::new();
        let mut i: usize = 0;
        while i < self.skipped.len()
            invariant
                i <= self.skipped.len(),
                entries(list@) == strings(self.skipped@).take(i as int).map_values(
                    skipped_warning(),
                ),
            decreases self.skipped.len() - i,
        {
            let mut message = "Skipping invalid connection line: ".to_owned();
            message.append(self.skipped[i].as_str());
            let ghost before = entries(list@);
            list.push(warn(message.as_str()));
            assert(entries(list@) == before.push(skipped_warning()(self.skipped[i as int]@)));
            i += 1;
            assert(strings(self.skipped@).take(i as int).map_values(skipped_warning())
                == strings(self.skipped@).take(i - 1).map_values(skipped_warning()).push(
                skipped_warning()(self.skipped[i - 1]@),
            ));
        }
        assert(strings(self.skipped@).take(i as int) == strings(self.skipped@));
        list
    }
}

/// Whether the connection goes by this name. Upper and lower case are not told apart.
pub open spec fn named(connection: ConnectionView, name: Seq<char>) -> bool {
    lowercase(connection.name) == lowercase(name)
}

/// The index of the first connection that is `wanted`; the length of the list where
/// none is.
pub open spec fn first_index(
    list: Seq<ConnectionView>,
    wanted: spec_fn(ConnectionView) -> bool,
) -> int
    decreases list.len(),
{
    if list.len() == 0 || wanted(list[0]) {
        0
    } else {
        1 + first_index(list.drop_first(), wanted)
    }
}

/// The last connection of this name, if there is one.
pub open spec fn last_named(list: Seq<ConnectionView>, name: Seq<char>) -> Option<ConnectionView>
    decreases list.len(),
{
    if list.len() == 0 {
        None
    } else if named(list.last(), name) {
        Some(list.last())
    } else {
        last_named(list.drop_last(), name)
    }
}

/// Active connections of this kind.
pub open spec fn active_of(kind: Type) -> spec_fn(ConnectionView) -> bool {
    |connection: ConnectionView| connection.active && connection.kind == kind
}

/// Connections of this name.
pub open spec fn of_name(name: Seq<char>) -> spec_fn(ConnectionView) -> bool {
    |connection: ConnectionView| named(connection, name)
}

/// Active connections of this name.
pub open spec fn active_of_name(name: Seq<char>) -> spec_fn(ConnectionView) -> bool {
    |connection: ConnectionView| connection.active && named(connection, name)
}

/// The command that takes the connection down where it is active.
pub open spec fn down_if_active() -> spec_fn(ConnectionView) -> Option<CommandView> {
    |connection: ConnectionView|
        if connection.active {
            Some(CommandView::Down(connection.name))
        } else {
            None
        }
}

/// The name of the active connection: that of the first active ethernet connection,
/// or else that of the first active wifi connection.
pub open spec fn active_name(list: Seq<ConnectionView>) -> Option<Seq<char>> {
    let wired = first_index(list, active_of(Type::Ethernet));
    let wireless = first_index(list, active_of(Type::Wifi));
    if wired < list.len() {
        Some(list[wired].name)
    } else if wireless < list.len() {
        Some(list[wireless].name)
    } else {
        None
    }
}

/// Whether the first connection of this name is active; false where there is none.
pub open spec fn connected(list: Seq<ConnectionView>, name: Seq<char>) -> bool {
    let i = first_index(list, of_name(name));
    i < list.len() && list[i].active
}

/// Commands to run one after another, and how the operation ends once each of them has
/// succeeded. A command that fails ends the operation with its own failure, and the
/// commands behind it are not run.
#[derive(Debug, PartialEq, Eq)]
pub struct Plan {
    pub commands: Vec<Command>,
    pub outcome: Result<(), Error>,
}

/// The mathematical value of a [`Plan`].
pub struct PlanView {
    pub commands: Seq<CommandView>,
    pub outcome: Result<(), ErrorView>,
}

impl View for Plan {
    type V = PlanView;

    open spec fn view(&self) -> PlanView {
        PlanView {
            commands: commands(self.commands@),
            outcome: match self.outcome {
                Ok(()) => Ok(()),
                Err(e) => Err(e@),
            },
        }
    }
}

/// How to connect to `name`. The list is gone through up to the first active
/// connection of that name: where there is one the operation fails as already active.
/// Every active connection met on the way is taken down. Then, with no connection of
/// that name, the operation fails as unavailable; else the last connection of that name
/// is brought up, after the wifi radio was switched on where it is a wifi connection.
pub open spec fn connect_plan(list: Seq<ConnectionView>, name: Seq<char>) -> PlanView {
    let stop = first_index(list, active_of_name(name));
    let downs = list.take(stop).filter_map(down_if_active());
    if stop < list.len() {
        PlanView { commands: downs, outcome: Err(ErrorView::AlreadyActive) }
    } else {
        match last_named(list, name) {
            None => PlanView { commands: downs, outcome: Err(ErrorView::Unavailable) },
            Some(connection) => PlanView {
                commands: if connection.kind == Type::Wifi {
                    downs.push(CommandView::WifiOn).push(CommandView::Up(connection.name))
                } else {
                    downs.push(CommandView::Up(connection.name))
                },
                outcome: Ok(()),
            },
        }
    }
}

/// How to disconnect from `name`: the first connection of that name is taken down;
/// with no connection of that name the operation fails as unavailable.
pub open spec fn disconnect_plan(list: Seq<ConnectionView>, name: Seq<char>) -> PlanView {
    let i = first_index(list, of_name(name));
    if i < list.len() {
        PlanView { commands: seq![CommandView::Down(list[i].name)], outcome: Ok(()) }
    } else {
        PlanView { commands: Seq::empty(), outcome: Err(ErrorView::Unavailable) }
    }
}

/// Where nothing before `to` is wanted, the first index is that of what follows,
/// counted from `to`.
pub proof fn lemma_first_index_to(
    list: Seq<ConnectionView>,
    wanted: spec_fn(ConnectionView) -> bool,
    to: int,
)
    requires
        0 <= to <= list.len(),
        forall|k: int| 0 <= k < to ==> !wanted(#[trigger] list[k]),
    ensures
        first_index(list, wanted) == to + first_index(list.skip(to), wanted),
    decreases to,
{
    if to == 0 {
        assert(list.skip(0) == list);
    } else {
        assert(!wanted(list[0]));
        let rest = list.drop_first();
        assert forall|k: int| 0 <= k < to - 1 implies !wanted(#[trigger] rest[k]) by {
            assert(rest[k] == list[k + 1]);
        }
        lemma_first_index_to(rest, wanted, to - 1);
        assert(rest.skip(to - 1) == list.skip(to));
    }
}

/// The kind of device that a type field names.
fn kind_of(field: &Vec<char>) -> (kind: Type)
    ensures
        kind == network_type(field@),
{
    if contains(field, &chars_of("ethernet")) {
        Type::Ethernet
    } else if contains(field, &chars_of("wireless")) {
        Type::Wifi
    } else if contains(field, &chars_of("loopback")) {
        Type::Loopback
    } else {
        Type::Unknown
    }
}

/// The connection that a line of the list describes.
fn parse_line(line: &Vec<char>) -> (connection: Option<Connection>)
    ensures
        connection.is_some() == connection_of(line@).is_some(),
        connection matches Some(c) ==> connection_of(line@) == Some(c@),
{
    let fields = split_chars(line, ':');
    if fields.len() < 3 {
        None
    } else {
        assert(fields[0]@ == texts(fields@)[0]);
        assert(fields[1]@ == texts(fields@)[1]);
        assert(fields[2]@ == texts(fields@)[2]);
        let name = string_of(&fields[0], 0, fields[0].len());
        assert(name@ == fields[0]@);
        Some(
            Connection {
                name,
                kind: kind_of(&fields[1]),
                active: equal(&fields[2], &chars_of("yes")),
            },
        )
    }
}

/// The index of the first active connection of this kind; the length of the list where
/// there is none.
fn first_active(list: &Vec<Connection>, kind: Type) -> (i: usize)
    ensures
        i == first_index(connections(list@), active_of(kind)),
        i <= list.len(),
{
    let ghost views = connections(list@);
    let mut i: usize = 0;
    while i < list.len()
        invariant
            i <= list.len(),
            views == connections(list@),
            forall|k: int| 0 <= k < i ==> !active_of(kind)(#[trigger] views[k]),
        decreases list.len() - i,
    {
        if list[i].active && list[i].kind == kind {
            proof {
                lemma_first_index_to(views, active_of(kind), i as int);
                assert(views.skip(i as int)[0] == views[i as int]);
            }
            return i;
        }
        i += 1;
    }
    proof {
        lemma_first_index_to(views, active_of(kind), i as int);
    }
    i
}

/// The index of the first connection of the name whose lowercase form is given; the
/// length of the list where there is none.
fn first_named(list: &Vec<Connection>, lower: &String, name: Ghost<Seq<char>>) -> (i: usize)
    requires
        lower@ == lowercase(name@),
    ensures
        i == first_index(connections(list@), of_name(name@)),
        i <= list.len(),
{
    let ghost views = connections(list@);
    let mut i: usize = 0;
    while i < list.len()
        invariant
            i <= list.len(),
            views == connections(list@),
            lower@ == lowercase(name@),
            forall|k: int| 0 <= k < i ==> !of_name(name@)(#[trigger] views[k]),
        decreases list.len() - i,
    {
        if to_lowercase(list[i].name.as_str()) == *lower {
            proof {
                lemma_first_index_to(views, of_name(name@), i as int);
                assert(views.skip(i as int)[0] == views[i as int]);
            }
            return i;
        }
        i += 1;
    }
    proof {
        lemma_first_index_to(views, of_name(name@), i as int);
    }
    i
}

/// The connection manager `nmcli` as far as it can be reasoned about: how its list of
/// connections reads, and which commands an operation takes. Running the commands is up
/// to the host.
#[derive(Debug, Clone, Copy)]
pub struct Nmcli {}

impl Nmcli {
    /// The connection manager; it has no state of its own.
    pub fn new() -> Self {
        Nmcli {  }
    }

    /// The kind of device that a type field names.
    pub fn parse_network_type(type_str: &str) -> (kind: Type)
        ensures
            kind == network_type(type_str@),
    {
        kind_of(&chars_of(type_str))
    }

    /// Reads the output of [`Command::Show`].
    pub fn connections(&self, output: &str) -> (listing: Listing)
        ensures
            connections(listing.connections@) == lines(output@).filter_map(described()),
            strings(listing.skipped@) == lines(output@).filter_map(undescribed()),
    {
        let all = lines_of(&chars_of(output));
        let ghost given = lines(output@);
        let mut found: Vec<Connection> = Vec::new();
        let mut skipped: Vec<String> = Vec::new();
        let mut i: usize = 0;
        while i < all.len()
            invariant
                i <= all.len(),
                texts(all@) == given,
                connections(found@) == given.take(i as int).filter_map(described()),
                strings(skipped@) == given.take(i as int).filter_map(undescribed()),
            decreases all.len() - i,
        {
            let line = &all[i];
            proof {
                assert(line@ == given[i as int]);
                assert(given.take(i + 1).drop_last() == given.take(i as int));
                assert(given.take(i + 1).last() == given[i as int]);
            }
            let ghost old_found = found@;
            let ghost old_skipped = skipped@;
            match parse_line(line) {
                Some(connection) => {
                    found.push(connection);
                    proof {
                        assert(connections(found@) == connections(old_found).push(connection@));
                        assert(connections(old_found).push(connection@) == connections(old_found)
                            + seq![connection@]);
                    }
                },
                None => {
                    let text = string_of(line, 0, line.len());
                    assert(text@ == line@);
                    skipped.push(text);
                    proof {
                        assert(strings(skipped@) == strings(old_skipped).push(text@));
                        assert(strings(old_skipped).push(text@) == strings(old_skipped)
                            + seq![text@]);
                    }
                },
            }
            i += 1;
        }
        assert(given.take(i as int) == given);
        Listing { connections: found, skipped }
    }

    /// The name of the active connection among those listed.
    pub fn active(&self, list: &Vec<Connection>) -> (name: Option<String>)
        ensures
            name.is_some() == active_name(connections(list@)).is_some(),
            name matches Some(n) ==> active_name(connections(list@)) == Some(n@),
    {
        let wired = first_active(list, Type::Ethernet);
        if wired < list.len() {
            assert(connections(list@)[wired as int] == list[wired as int]@);
            return Some(list[wired].name.clone());
        }
        let wireless = first_active(list, Type::Wifi);
        if wireless < list.len() {
            assert(connections(list@)[wireless as int] == list[wireless as int]@);
            return Some(list[wireless].name.clone());
        }
        None
    }

    /// Whether the connection of this name is up, going by the list.
    pub fn is_connected(&self, list: &Vec<Connection>, name: &str) -> (up: bool)
        ensures
            up == connected(connections(list@), name@),
    {
        let lower = to_lowercase(name);
        let i = first_named(list, &lower, Ghost(name@));
        if i < list.len() {
            assert(connections(list@)[i as int] == list[i as int]@);
            list[i].active
        } else {
            false
        }
    }

    /// How to disconnect from the connection of this name, going by the list.
    pub fn disconnect(&self, list: &Vec<Connection>, connection: &str) -> (plan: Plan)
        ensures
            plan@ == disconnect_plan(connections(list@), connection@),
    {
        let lower = to_lowercase(connection);
        let i = first_named(list, &lower, Ghost(connection@));
        let mut steps: Vec<Command> = Vec::new();
        if i < list.len() {
            assert(connections(list@)[i as int] == list[i as int]@);
            steps.push(Command::Down(list[i].name.clone()));
            assert(commands(steps@) == seq![CommandView::Down(list[i as int]@.name)]);
            Plan { commands: steps, outcome: Ok(()) }
        } else {
            assert(commands(steps@) == Seq::<CommandView>::empty());
            Plan { commands: steps, outcome: Err(Error::Unavailable) }
        }
    }

    /// How to connect to the connection of this name, going by the list.
    pub fn connect(&self, list: &Vec<Connection>, connection: &str) -> (plan: Plan)
        ensures
            plan@ == connect_plan(connections(list@), connection@),
    {
        let ghost views = connections(list@);
        let ghost name = connection@;
        let lower = to_lowercase(connection);
        let mut steps: Vec<Command> = Vec::new();
        let mut found: Option<usize> = None;
        let mut i: usize = 0;
        while i < list.len()
            invariant
                i <= list.len(),
                views == connections(list@),
                name == connection@,
                lower@ == lowercase(name),
                forall|k: int| 0 <= k < i ==> !active_of_name(name)(#[trigger] views[k]),
                commands(steps@) == views.take(i as int).filter_map(down_if_active()),
                match found {
                    Some(j) => j < i && last_named(views.take(i as int), name) == Some(
                        views[j as int],
                    ),
                    None => last_named(views.take(i as int), name).is_none(),
                },
            decreases list.len() - i,
        {
            let current = &list[i];
            proof {
                assert(current@ == views[i as int]);
                assert(views.take(i + 1).drop_last() == views.take(i as int));
                assert(views.take(i + 1).last() == views[i as int]);
            }
            if to_lowercase(current.name.as_str()) == lower {
                if current.active {
                    proof {
                        lemma_first_index_to(views, active_of_name(name), i as int);
                        assert(views.skip(i as int)[0] == views[i as int]);
                    }
                    return Plan { commands: steps, outcome: Err(Error::AlreadyActive) };
                }
                found = Some(i);
            } else if current.active {
                let ghost old_steps = steps@;
                steps.push(Command::Down(current.name.clone()));
                proof {
                    let down = CommandView::Down(current@.name);
                    assert(commands(steps@) == commands(old_steps).push(down));
                    assert(commands(old_steps).push(down) == commands(old_steps) + seq![down]);
                }
            }
            i += 1;
        }
        proof {
            lemma_first_index_to(views, active_of_name(name), i as int);
            assert(views.take(i as int) == views);
        }
        match found {
            None => Plan { commands: steps, outcome: Err(Error::Unavailable) },
            Some(j) => {
                let chosen = &list[j];
                assert(chosen@ == views[j as int]);
                let ghost downs = commands(steps@);
                if chosen.kind == Type::Wifi {
                    steps.push(Command::WifiOn);
                    assert(commands(steps@) == downs.push(CommandView::WifiOn));
                }
                let ghost before = commands(steps@);
                steps.push(Command::Up(chosen.name.clone()));
                assert(commands(steps@) == before.push(CommandView::Up(chosen@.name)));
                Plan { commands: steps, outcome: Ok(()) }
            },
        }
    }

    /// The failure of a command that ended badly, made of what it wrote to its error
    /// output.
    pub fn failure(stderr: &str) -> (error: Error)
        ensures
            error@ == ErrorView::Custom("nmcli command failed: "@ + stderr@),
    {
        let mut message = "nmcli command failed: ".to_owned();
        message.append(stderr);
        Error::Custom(message)
    }
}

} // verus!
