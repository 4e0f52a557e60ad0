//! The configuration file: its settings, its ordered list of commands, and
//! how both are read out of a parsed TOML document.

use vstd::prelude::*;
use vstd::string::*;
use tracing_subscriber::filter::LevelFilter;
use crate::document::{
    node_field, toml_flag, toml_get, toml_integer, toml_list, toml_node, toml_parse,
    toml_parsed, toml_real, toml_text, Node,
};
use crate::flags::{flag_of, FlagSpec};
use crate::hotkey::{ascii_lower_text, hotkey_of, is_key_code, Hotkey};
use crate::radial::{radial_views, RadialMenu, RadialMenuView};
use crate::text::same_text;

verus! {

/// How much the log lets through, from nothing to everything.
#[derive(Clone, Copy, Debug, PartialEq, Eq, Structural)]
pub enum LogLevel {
    Off,
    Error,
    Warn,
    Info,
    Debug,
    Trace,
}

/// The position of a level in the order from `Off` to `Trace`.
pub open spec fn level_rank(level: LogLevel) -> nat {
    match level {
        LogLevel::Off => 0,
        LogLevel::Error => 1,
        LogLevel::Warn => 2,
        LogLevel::Info => 3,
        LogLevel::Debug => 4,
        LogLevel::Trace => 5,
    }
}

/// What the logging library makes of a level name: the level, or its
/// complaint where it rejects the name.
pub uninterp spec fn parsed_level(text: Seq<char>) -> Result<LogLevel, Seq<char>>;

/// The level that one of the six level names stands for, letters in
/// either case.
pub open spec fn known_level(text: Seq<char>) -> Option<LogLevel> {
    let name = ascii_lower_text(text);
    if name == "off"@ {
        Some(LogLevel::Off)
    } else if name == "error"@ {
        Some(LogLevel::Error)
    } else if name == "warn"@ {
        Some(LogLevel::Warn)
    } else if name == "info"@ {
        Some(LogLevel::Info)
    } else if name == "debug"@ {
        Some(LogLevel::Debug)
    } else if name == "trace"@ {
        Some(LogLevel::Trace)
    } else {
        None
    }
}

/// What a level name is read as: the level of one of the six names, and
/// for every other text what the logging library makes of it.
pub open spec fn level_of(text: Seq<char>) -> Result<LogLevel, Seq<char>> {
    match known_level(text) {
        Some(level) => Ok(level),
        None => parsed_level(text),
    }
}

/// `LevelFilter::from_str` of the logging library, reached through
/// `str::parse`, with its six filters told apart and its error rendered
/// with its `Display` form. The outcome is a function of the name alone,
/// and each of the names `off`, `error`, `warn`, `info`, `debug` and `trace`,
/// compared without regard to ASCII case, gives its level.
#[verifier::external_body]
fn parse_level(text: &str) -> (level: Result<LogLevel, String>)
    ensures
        match (level, parsed_level(text@)) {
            (Ok(got), Ok(expected)) => got == expected,
            (Err(message), Err(expected)) => message@ == expected,
            _ => false,
        },
        match known_level(text@) {
            Some(named) => level == Ok::<LogLevel, String>(named),
            None => true,
        },
{
    match text.parse::<LevelFilter>() {
        Err(e) => Err(e.to_string()),
        Ok(f) if f == LevelFilter::OFF => Ok(LogLevel::Off),
        Ok(f) if f == LevelFilter::ERROR => Ok(LogLevel::Error),
        Ok(f) if f == LevelFilter::WARN => Ok(LogLevel::Warn),
        Ok(f) if f == LevelFilter::INFO => Ok(LogLevel::Info),
        Ok(f) if f == LevelFilter::DEBUG => Ok(LogLevel::Debug),
        Ok(_) => Ok(LogLevel::Trace),
    }
}

/// The message for a level name that is not understood.
pub open spec fn level_error_text(complaint: Seq<char>) -> Seq<char> {
    "Couldn't parse log level filter: "@ + complaint
}

impl LogLevel {
    /// The position of this level in the order from `Off` to `Trace`.
    pub fn rank(&self) -> (r: u8)
        ensures
            r == level_rank(*self),
    {
        match self {
            LogLevel::Off => 0,
            LogLevel::Error => 1,
            LogLevel::Warn => 2,
            LogLevel::Info => 3,
            LogLevel::Debug => 4,
            LogLevel::Trace => 5,
        }
    }

    /// Reads a level name as the logging library does.
    pub fn try_from(value: &str) -> (level: Result<LogLevel, String>)
        ensures
            match (level, level_of(value@)) {
                (Ok(got), Ok(expected)) => got == expected,
                (Err(message), Err(complaint)) => message@ == level_error_text(complaint),
                _ => false,
            },
    {
        match parse_level(value) {
            Ok(level) => Ok(level),
            Err(complaint) => {
                let mut message = String::new();
                message.append("Couldn't parse log level filter: ");
                message.append(complaint.as_str());
                assert(message@ =~= level_error_text(complaint@));
                Err(message)
            },
        }
    }
}

/// Which in-game menu an `open_menu` command opens.
#[derive(Clone, Copy, Debug, PartialEq, Eq, Structural)]
pub enum OpenMenuKind {
    Travel,
    Attune,
}

/// The menu kind that a configuration name stands for.
pub open spec fn menu_kind_of(name: Seq<char>) -> Option<OpenMenuKind> {
    if name == "travel"@ {
        Some(OpenMenuKind::Travel)
    } else if name == "attune"@ {
        Some(OpenMenuKind::Attune)
    } else {
        None
    }
}

/// A number of the configuration: a whole number as written, or a
/// floating-point number by the bits of its 64-bit encoding.
#[derive(Clone, Copy, Debug, PartialEq, Eq, Structural)]
pub enum Number {
    Whole(i64),
    Real(u64),
}

/// The number that a document value holds, if it is one.
pub open spec fn number_of(node: Node) -> Option<Number> {
    match node {
        Node::Integer(i) => if i64::MIN <= i <= i64::MAX {
            Some(Number::Whole(i as i64))
        } else {
            None
        },
        Node::Real(bits) => Some(Number::Real(bits)),
        _ => None,
    }
}

/// What went wrong while reading a configuration.
#[derive(Clone, Copy, Debug, PartialEq, Eq, Structural)]
pub enum ErrorKind {
    /// The text is not a TOML document; the detail is the parser's message.
    Syntax,
    /// A required key is absent; the detail is the key.
    Missing,
    /// A key holds a value of the wrong kind; the detail is the key.
    WrongType,
    /// A `flag` names no flag of the catalogue; the detail is the name.
    UnknownFlag,
    /// A hotkey text names no key; the detail is the text.
    BadHotkey,
    /// The log level is not understood; the detail is the logging
    /// library's complaint.
    BadLogLevel,
    /// An `open_menu` names no menu; the detail is the name.
    BadMenuKind,
    /// A command table holds none of the keys that tell the commands
    /// apart; the detail is empty.
    UnknownCommand,
}

/// An error of the configuration reader.
#[derive(Debug)]
pub struct ConfigError {
    pub kind: ErrorKind,
    pub detail: String,
}

/// The mathematical form of a [`ConfigError`].
pub ghost struct ConfigErrorView {
    pub kind: ErrorKind,
    pub detail: Seq<char>,
}

impl View for ConfigError {
    type V = ConfigErrorView;

    open spec fn view(&self) -> ConfigErrorView {
        ConfigErrorView { kind: self.kind, detail: self.detail@ }
    }
}

/// The error of kind `kind` about `detail`.
pub open spec fn fault(kind: ErrorKind, detail: Seq<char>) -> ConfigErrorView {
    ConfigErrorView { kind, detail }
}

/// The sentence that describes an error.
pub open spec fn error_text(e: ConfigErrorView) -> Seq<char> {
    match e.kind {
        ErrorKind::Syntax => e.detail,
        ErrorKind::Missing => "missing field `"@ + e.detail + "`"@,
        ErrorKind::WrongType => "invalid type for `"@ + e.detail + "`"@,
        ErrorKind::UnknownFlag => "\""@ + e.detail + "\" is not a valid flag specifier"@,
        ErrorKind::BadHotkey => "\""@ + e.detail + "\" is not a valid hotkey"@,
        ErrorKind::BadLogLevel => "Couldn't parse log level filter: "@ + e.detail,
        ErrorKind::BadMenuKind => "\""@ + e.detail + "\" is not a valid menu"@,
        ErrorKind::UnknownCommand => "data did not match any command"@,
    }
}

impl ConfigError {
    /// The error of kind `kind` about `detail`.
    pub fn new(kind: ErrorKind, detail: &str) -> (e: ConfigError)
        ensures
            e@ == fault(kind, detail@),
    {
        ConfigError { kind, detail: String::from_str(detail) }
    }

    /// The sentence that describes this error.
    pub fn message(&self) -> (text: String)
        ensures
            text@ == error_text(self@),
    {
        let mut text = String::new();
        match self.kind {
            ErrorKind::Syntax => {
                text.append(self.detail.as_str());
            },
            ErrorKind::Missing => {
                text.append("missing field `");
                text.append(self.detail.as_str());
                text.append("`");
            },
            ErrorKind::WrongType => {
                text.append("invalid type for `");
                text.append(self.detail.as_str());
                text.append("`");
            },
            ErrorKind::UnknownFlag => {
                text.append("\"");
                text.append(self.detail.as_str());
                text.append("\" is not a valid flag specifier");
            },
            ErrorKind::BadHotkey => {
                text.append("\"");
                text.append(self.detail.as_str());
                text.append("\" is not a valid hotkey");
            },
            ErrorKind::BadLogLevel => {
                text.append("Couldn't parse log level filter: ");
                text.append(self.detail.as_str());
            },
            ErrorKind::BadMenuKind => {
                text.append("\"");
                text.append(self.detail.as_str());
                text.append("\" is not a valid menu");
            },
            ErrorKind::UnknownCommand => {
                text.append("data did not match any command");
            },
        }
        assert(text@ =~= error_text(self@));
        text
    }
}

/// The `settings` table of a configuration.
#[derive(Clone, Copy, Debug, PartialEq, Eq, Structural)]
pub struct Settings {
    pub log_level: LogLevel,
    pub display: Hotkey,
    pub show_console: bool,
}

/// One entry of the `commands` list.
#[derive(Debug)]
#[allow(inconsistent_fields)]
pub enum CfgCommand {
    SavefileManager { hotkey_load: Hotkey, hotkey_open: Option<Hotkey> },
    ItemSpawner { hotkey_load: Hotkey },
    Flag { flag: FlagSpec, hotkey: Option<Hotkey> },
    Position { hotkey: Hotkey, modifier: Hotkey },
    CycleSpeed { cycle_speed: Vec<Number>, hotkey: Hotkey },
    CharacterStats { hotkey_open: Hotkey },
    Souls { amount: u32, hotkey: Hotkey },
    OpenMenu { kind: OpenMenuKind, hotkey: Option<Hotkey> },
    Quitout { hotkey: Hotkey },
    Target { hotkey: Hotkey },
    NudgePosition { nudge: Number, nudge_up: Hotkey, nudge_down: Hotkey },
    Group { label: String, commands: Vec<CfgCommand> },
}

/// The mathematical form of a [`CfgCommand`].
#[allow(inconsistent_fields)]
pub ghost enum CommandView {
    SavefileManager { hotkey_load: Hotkey, hotkey_open: Option<Hotkey> },
    ItemSpawner { hotkey_load: Hotkey },
    Flag { flag: FlagSpec, hotkey: Option<Hotkey> },
    Position { hotkey: Hotkey, modifier: Hotkey },
    CycleSpeed { cycle_speed: Seq<Number>, hotkey: Hotkey },
    CharacterStats { hotkey_open: Hotkey },
    Souls { amount: u32, hotkey: Hotkey },
    OpenMenu { kind: OpenMenuKind, hotkey: Option<Hotkey> },
    Quitout { hotkey: Hotkey },
    Target { hotkey: Hotkey },
    NudgePosition { nudge: Number, nudge_up: Hotkey, nudge_down: Hotkey },
    Group { label: Seq<char>, commands: Seq<CommandView> },
}

/// The mathematical form of a command.
pub open spec fn command_view(c: CfgCommand) -> CommandView
    decreases c,
{
    match c {
        CfgCommand::SavefileManager { hotkey_load, hotkey_open } => CommandView::SavefileManager {
            hotkey_load,
            hotkey_open,
        },
        CfgCommand::ItemSpawner { hotkey_load } => CommandView::ItemSpawner { hotkey_load },
        CfgCommand::Flag { flag, hotkey } => CommandView::Flag { flag, hotkey },
        CfgCommand::Position { hotkey, modifier } => CommandView::Position { hotkey, modifier },
        CfgCommand::CycleSpeed { cycle_speed, hotkey } => CommandView::CycleSpeed {
            cycle_speed: cycle_speed@,
            hotkey,
        },
        CfgCommand::CharacterStats { hotkey_open } => CommandView::CharacterStats { hotkey_open },
        CfgCommand::Souls { amount, hotkey } => CommandView::Souls { amount, hotkey },
        CfgCommand::OpenMenu { kind, hotkey } => CommandView::OpenMenu { kind, hotkey },
        CfgCommand::Quitout { hotkey } => CommandView::Quitout { hotkey },
        CfgCommand::Target { hotkey } => CommandView::Target { hotkey },
        CfgCommand::NudgePosition { nudge, nudge_up, nudge_down } => CommandView::NudgePosition {
            nudge,
            nudge_up,
            nudge_down,
        },
        CfgCommand::Group { label, commands } => CommandView::Group {
            label: label@,
            commands: command_views(commands@),
        },
    }
}

/// The mathematical form of a list of commands.
pub open spec fn command_views(cs: Seq<CfgCommand>) -> Seq<CommandView>
    decreases cs,
{
    if cs.len() == 0 {
        Seq::empty()
    } else {
        command_views(cs.drop_last()).push(command_view(cs.last()))
    }
}

impl View for CfgCommand {
    type V = CommandView;

    open spec fn view(&self) -> CommandView {
        command_view(*self)
    }
}

/// A whole configuration.
#[derive(Debug)]
pub struct Config {
    pub settings: Settings,
    pub commands: Vec<CfgCommand>,
    pub radial_menu: Vec<RadialMenu>,
}

/// The mathematical form of a [`Config`].
pub ghost struct ConfigView {
    pub settings: Settings,
    pub commands: Seq<CommandView>,
    pub radial_menu: Seq<RadialMenuView>,
}

impl View for Config {
    type V = ConfigView;

    open spec fn view(&self) -> ConfigView {
        ConfigView {
            settings: self.settings,
            commands: command_views(self.commands@),
            radial_menu: radial_views(self.radial_menu@),
        }
    }
}

/// Whether an exec outcome is the outcome the model asks for.
pub open spec fn same_outcome<T>(got: Result<T, ConfigError>, want: Result<T, ConfigErrorView>) -> bool {
    match (got, want) {
        (Ok(a), Ok(b)) => a == b,
        (Err(e), Err(f)) => e@ == f,
        _ => false,
    }
}

/// The text under a required key.
pub open spec fn text_at(node: Node, key: Seq<char>) -> Result<Seq<char>, ConfigErrorView> {
    match node_field(node, key) {
        None => Err(fault(ErrorKind::Missing, key)),
        Some(Node::Text(t)) => Ok(t),
        Some(_) => Err(fault(ErrorKind::WrongType, key)),
    }
}

/// The hotkey under a required key.
pub open spec fn hotkey_at(node: Node, key: Seq<char>) -> Result<Hotkey, ConfigErrorView> {
    match text_at(node, key) {
        Err(e) => Err(e),
        Ok(t) => match hotkey_of(t) {
            Some(h) => Ok(h),
            None => Err(fault(ErrorKind::BadHotkey, t)),
        },
    }
}

/// The hotkey under a key that may be absent.
pub open spec fn optional_hotkey_at(node: Node, key: Seq<char>) -> Result<
    Option<Hotkey>,
    ConfigErrorView,
> {
    if node_field(node, key) is None {
        Ok(None)
    } else {
        match hotkey_at(node, key) {
            Ok(h) => Ok(Some(h)),
            Err(e) => Err(e),
        }
    }
}

/// The number under a required key.
pub open spec fn number_at(node: Node, key: Seq<char>) -> Result<Number, ConfigErrorView> {
    match node_field(node, key) {
        None => Err(fault(ErrorKind::Missing, key)),
        Some(inner) => match number_of(inner) {
            Some(n) => Ok(n),
            None => Err(fault(ErrorKind::WrongType, key)),
        },
    }
}

/// The numbers of a list, or `None` where an item is no number.
pub open spec fn numbers_of(items: Seq<Node>) -> Option<Seq<Number>>
    decreases items.len(),
{
    if items.len() == 0 {
        Some(Seq::empty())
    } else {
        match (numbers_of(items.drop_last()), number_of(items.last())) {
            (Some(before), Some(n)) => Some(before.push(n)),
            _ => None,
        }
    }
}

/// The list of numbers under a required key.
pub open spec fn numbers_at(node: Node, key: Seq<char>) -> Result<Seq<Number>, ConfigErrorView> {
    match node_field(node, key) {
        None => Err(fault(ErrorKind::Missing, key)),
        Some(Node::List(items)) => match numbers_of(items) {
            Some(ns) => Ok(ns),
            None => Err(fault(ErrorKind::WrongType, key)),
        },
        Some(_) => Err(fault(ErrorKind::WrongType, key)),
    }
}

/// The 32-bit amount under a required key.
pub open spec fn amount_at(node: Node, key: Seq<char>) -> Result<u32, ConfigErrorView> {
    match node_field(node, key) {
        None => Err(fault(ErrorKind::Missing, key)),
        Some(Node::Integer(i)) => if 0 <= i <= u32::MAX {
            Ok(i as u32)
        } else {
            Err(fault(ErrorKind::WrongType, key))
        },
        Some(_) => Err(fault(ErrorKind::WrongType, key)),
    }
}

/// The flag under a required key.
pub open spec fn flag_at(node: Node, key: Seq<char>) -> Result<FlagSpec, ConfigErrorView> {
    match text_at(node, key) {
        Err(e) => Err(e),
        Ok(t) => match flag_of(t) {
            Some(f) => Ok(f),
            None => Err(fault(ErrorKind::UnknownFlag, t)),
        },
    }
}

/// The menu kind under a required key.
pub open spec fn menu_kind_at(node: Node, key: Seq<char>) -> Result<OpenMenuKind, ConfigErrorView> {
    match text_at(node, key) {
        Err(e) => Err(e),
        Ok(t) => match menu_kind_of(t) {
            Some(k) => Ok(k),
            None => Err(fault(ErrorKind::BadMenuKind, t)),
        },
    }
}

/// The boolean under a key that may be absent, where absence means `false`.
pub open spec fn switch_at(node: Node, key: Seq<char>) -> Result<bool, ConfigErrorView> {
    match node_field(node, key) {
        None => Ok(false),
        Some(Node::Flag(b)) => Ok(b),
        Some(_) => Err(fault(ErrorKind::WrongType, key)),
    }
}

/// The log level under a required key.
pub open spec fn level_at(node: Node, key: Seq<char>) -> Result<LogLevel, ConfigErrorView> {
    match text_at(node, key) {
        Err(e) => Err(e),
        Ok(t) => match level_of(t) {
            Ok(l) => Ok(l),
            Err(complaint) => Err(fault(ErrorKind::BadLogLevel, complaint)),
        },
    }
}

/// Both outcomes, or the first error.
pub open spec fn both<A, B>(a: Result<A, ConfigErrorView>, b: Result<B, ConfigErrorView>) -> Result<
    (A, B),
    ConfigErrorView,
> {
    match a {
        Err(e) => Err(e),
        Ok(x) => match b {
            Err(e) => Err(e),
            Ok(y) => Ok((x, y)),
        },
    }
}

/// The command that a table of the `commands` list denotes. The first key
/// present, in the order below, tells which command it is; that command's
/// fields are then read, and the first one that is missing or malformed is
/// the error.
pub open spec fn command_of(node: Node) -> Result<CommandView, ConfigErrorView>
    decreases node, 1nat,
{
    if node_field(node, "savefile_manager"@) is Some {
        match both(hotkey_at(node, "savefile_manager"@), optional_hotkey_at(node, "hotkey_open"@)) {
            Err(e) => Err(e),
            Ok((hotkey_load, hotkey_open)) => Ok(
                CommandView::SavefileManager { hotkey_load, hotkey_open },
            ),
        }
    } else if node_field(node, "item_spawner"@) is Some {
        match hotkey_at(node, "item_spawner"@) {
            Err(e) => Err(e),
            Ok(hotkey_load) => Ok(CommandView::ItemSpawner { hotkey_load }),
        }
    } else if node_field(node, "flag"@) is Some {
        match both(flag_at(node, "flag"@), optional_hotkey_at(node, "hotkey"@)) {
            Err(e) => Err(e),
            Ok((flag, hotkey)) => Ok(CommandView::Flag { flag, hotkey }),
        }
    } else if node_field(node, "position"@) is Some {
        match both(hotkey_at(node, "position"@), hotkey_at(node, "modifier"@)) {
            Err(e) => Err(e),
            Ok((hotkey, modifier)) => Ok(CommandView::Position { hotkey, modifier }),
        }
    } else if node_field(node, "cycle_speed"@) is Some {
        match both(numbers_at(node, "cycle_speed"@), hotkey_at(node, "hotkey"@)) {
            Err(e) => Err(e),
            Ok((cycle_speed, hotkey)) => Ok(CommandView::CycleSpeed { cycle_speed, hotkey }),
        }
    } else if node_field(node, "character_stats"@) is Some {
        match hotkey_at(node, "character_stats"@) {
            Err(e) => Err(e),
            Ok(hotkey_open) => Ok(CommandView::CharacterStats { hotkey_open }),
        }
    } else if node_field(node, "souls"@) is Some {
        match both(amount_at(node, "souls"@), hotkey_at(node, "hotkey"@)) {
            Err(e) => Err(e),
            Ok((amount, hotkey)) => Ok(CommandView::Souls { amount, hotkey }),
        }
    } else if node_field(node, "open_menu"@) is Some {
        match both(menu_kind_at(node, "open_menu"@), optional_hotkey_at(node, "hotkey"@)) {
            Err(e) => Err(e),
            Ok((kind, hotkey)) => Ok(CommandView::OpenMenu { kind, hotkey }),
        }
    } else if node_field(node, "quitout"@) is Some {
        match hotkey_at(node, "quitout"@) {
            Err(e) => Err(e),
            Ok(hotkey) => Ok(CommandView::Quitout { hotkey }),
        }
    } else if node_field(node, "target"@) is Some {
        match hotkey_at(node, "target"@) {
            Err(e) => Err(e),
            Ok(hotkey) => Ok(CommandView::Target { hotkey }),
        }
    } else if node_field(node, "nudge"@) is Some {
        match both(
            number_at(node, "nudge"@),
            both(hotkey_at(node, "nudge_up"@), hotkey_at(node, "nudge_down"@)),
        ) {
            Err(e) => Err(e),
            Ok((nudge, (nudge_up, nudge_down))) => Ok(
                CommandView::NudgePosition { nudge, nudge_up, nudge_down },
            ),
        }
    } else if node_field(node, "group"@) is Some {
        match text_at(node, "group"@) {
            Err(e) => Err(e),
            Ok(label) => match command_list_at(node, "commands"@) {
                Err(e) => Err(e),
                Ok(commands) => Ok(CommandView::Group { label, commands }),
            },
        }
    } else {
        Err(fault(ErrorKind::UnknownCommand, Seq::empty()))
    }
}

/// The commands under a required key that must hold a list of tables.
pub open spec fn command_list_at(node: Node, key: Seq<char>) -> Result<
    Seq<CommandView>,
    ConfigErrorView,
>
    decreases node, 0nat,
{
    match node_field(node, key) {
        None => Err(fault(ErrorKind::Missing, key)),
        Some(Node::List(items)) => commands_of(items),
        Some(_) => Err(fault(ErrorKind::WrongType, key)),
    }
}

/// The commands that a list of tables denotes, in order; the first table
/// that denotes none makes the whole list an error.
pub open spec fn commands_of(items: Seq<Node>) -> Result<Seq<CommandView>, ConfigErrorView>
    decreases items, 0nat,
{
    if items.len() == 0 {
        Ok(Seq::empty())
    } else {
        match commands_of(items.drop_last()) {
            Err(e) => Err(e),
            Ok(before) => match command_of(items.last()) {
                Err(e) => Err(e),
                Ok(c) => Ok(before.push(c)),
            },
        }
    }
}

/// The settings that a `settings` table denotes.
pub open spec fn settings_of(node: Node) -> Result<Settings, ConfigErrorView> {
    match both(
        level_at(node, "log_level"@),
        both(hotkey_at(node, "display"@), switch_at(node, "show_console"@)),
    ) {
        Err(e) => Err(e),
        Ok((log_level, (display, show_console))) => Ok(
            Settings { log_level, display, show_console },
        ),
    }
}

/// The entry of the radial menu that a table denotes: its `key`, a
/// hotkey, and its `label`.
pub open spec fn radial_entry_of(node: Node) -> Result<RadialMenuView, ConfigErrorView> {
    match both(hotkey_at(node, "key"@), text_at(node, "label"@)) {
        Err(e) => Err(e),
        Ok((key, label)) => Ok(RadialMenuView { key, label }),
    }
}

/// The entries that a list of tables denotes, in order; the first table
/// that denotes none makes the whole list an error.
pub open spec fn radial_entries_of(items: Seq<Node>) -> Result<Seq<RadialMenuView>, ConfigErrorView>
    decreases items.len(),
{
    if items.len() == 0 {
        Ok(Seq::empty())
    } else {
        match radial_entries_of(items.drop_last()) {
            Err(e) => Err(e),
            Ok(before) => match radial_entry_of(items.last()) {
                Err(e) => Err(e),
                Ok(entry) => Ok(before.push(entry)),
            },
        }
    }
}

/// The radial menu of a document: the entries under `radial_menu`, or no
/// entries where the document has no such key.
pub open spec fn radial_menu_of(root: Node) -> Result<Seq<RadialMenuView>, ConfigErrorView> {
    match node_field(root, "radial_menu"@) {
        None => Ok(Seq::empty()),
        Some(Node::List(items)) => radial_entries_of(items),
        Some(_) => Err(fault(ErrorKind::WrongType, "radial_menu"@)),
    }
}

/// The configuration that a document denotes: its `settings` table and its
/// `commands` list, both required, and the entries of its radial menu, if
/// it lists any.
pub open spec fn config_of(root: Node) -> Result<ConfigView, ConfigErrorView> {
    match node_field(root, "settings"@) {
        None => Err(fault(ErrorKind::Missing, "settings"@)),
        Some(table) => match both(
            settings_of(table),
            both(command_list_at(root, "commands"@), radial_menu_of(root)),
        ) {
            Err(e) => Err(e),
            Ok((settings, (commands, radial_menu))) => Ok(
                ConfigView { settings, commands, radial_menu },
            ),
        },
    }
}

/// The configuration that a text denotes.
pub open spec fn config_of_text(text: Seq<char>) -> Result<ConfigView, ConfigErrorView> {
    match toml_parsed(text) {
        Err(message) => Err(fault(ErrorKind::Syntax, message)),
        Ok(root) => config_of(root),
    }
}

/// The nodes that a list of parsed values holds, item by item.
pub open spec fn list_nodes(list: Seq<toml::Value>) -> Seq<Node> {
    Seq::new(list.len(), |i: int| toml_node(list[i]))
}

/// Whether a command outcome is the one the model asks for.
pub open spec fn same_command(
    got: Result<CfgCommand, ConfigError>,
    want: Result<CommandView, ConfigErrorView>,
) -> bool {
    match (got, want) {
        (Ok(a), Ok(b)) => a@ == b,
        (Err(e), Err(f)) => e@ == f,
        _ => false,
    }
}

/// Whether a command list outcome is the one the model asks for.
pub open spec fn same_commands(
    got: Result<Vec<CfgCommand>, ConfigError>,
    want: Result<Seq<CommandView>, ConfigErrorView>,
) -> bool {
    match (got, want) {
        (Ok(a), Ok(b)) => command_views(a@) == b,
        (Err(e), Err(f)) => e@ == f,
        _ => false,
    }
}

/// Whether a configuration outcome is the one the model asks for.
pub open spec fn same_config(
    got: Result<Config, ConfigError>,
    want: Result<ConfigView, ConfigErrorView>,
) -> bool {
    match (got, want) {
        (Ok(a), Ok(b)) => a@ == b,
        (Err(e), Err(f)) => e@ == f,
        _ => false,
    }
}

proof fn lemma_numbers_none_sticks(items: Seq<Node>, k: int)
    requires
        0 <= k <= items.len(),
        numbers_of(items.subrange(0, k)) is None,
    ensures
        numbers_of(items) is None,
    decreases items.len() - k,
{
    if k < items.len() {
        assert(items.subrange(0, k + 1).drop_last() =~= items.subrange(0, k));
        lemma_numbers_none_sticks(items, k + 1);
    } else {
        assert(items.subrange(0, k) =~= items);
    }
}

proof fn lemma_commands_error_sticks(items: Seq<Node>, k: int)
    requires
        0 <= k <= items.len(),
        commands_of(items.subrange(0, k)) is Err,
    ensures
        commands_of(items) == commands_of(items.subrange(0, k)),
    decreases items.len() - k,
{
    if k < items.len() {
        assert(items.subrange(0, k + 1).drop_last() =~= items.subrange(0, k));
        lemma_commands_error_sticks(items, k + 1);
    } else {
        assert(items.subrange(0, k) =~= items);
    }
}

fn read_text<'a>(table: &'a toml::Value, key: &str) -> (r: Result<&'a str, ConfigError>)
    ensures
        match (r, text_at(toml_node(*table), key@)) {
            (Ok(s), Ok(t)) => s@ == t,
            (Err(e), Err(f)) => e@ == f,
            _ => false,
        },
{
    match toml_get(table, key) {
        None => Err(ConfigError::new(ErrorKind::Missing, key)),
        Some(inner) => match toml_text(inner) {
            Some(s) => Ok(s),
            None => Err(ConfigError::new(ErrorKind::WrongType, key)),
        },
    }
}

fn read_hotkey(table: &toml::Value, key: &str) -> (r: Result<Hotkey, ConfigError>)
    ensures
        same_outcome(r, hotkey_at(toml_node(*table), key@)),
{
    match read_text(table, key) {
        Err(e) => Err(e),
        Ok(s) => match Hotkey::parse(s) {
            Some(h) => Ok(h),
            None => Err(ConfigError::new(ErrorKind::BadHotkey, s)),
        },
    }
}

fn read_optional_hotkey(table: &toml::Value, key: &str) -> (r: Result<Option<Hotkey>, ConfigError>)
    ensures
        same_outcome(r, optional_hotkey_at(toml_node(*table), key@)),
{
    match toml_get(table, key) {
        None => Ok(None),
        Some(_) => match read_hotkey(table, key) {
            Ok(h) => Ok(Some(h)),
            Err(e) => Err(e),
        },
    }
}

fn read_number_value(value: &toml::Value) -> (n: Option<Number>)
    ensures
        n == number_of(toml_node(*value)),
{
    match toml_integer(value) {
        Some(i) => Some(Number::Whole(i)),
        None => match toml_real(value) {
            Some(bits) => Some(Number::Real(bits)),
            None => None,
        },
    }
}

fn read_number(table: &toml::Value, key: &str) -> (r: Result<Number, ConfigError>)
    ensures
        same_outcome(r, number_at(toml_node(*table), key@)),
{
    match toml_get(table, key) {
        None => Err(ConfigError::new(ErrorKind::Missing, key)),
        Some(inner) => match read_number_value(inner) {
            Some(n) => Ok(n),
            None => Err(ConfigError::new(ErrorKind::WrongType, key)),
        },
    }
}

fn read_numbers(table: &toml::Value, key: &str) -> (r: Result<Vec<Number>, ConfigError>)
    ensures
        match (r, numbers_at(toml_node(*table), key@)) {
            (Ok(a), Ok(b)) => a@ == b,
            (Err(e), Err(f)) => e@ == f,
            _ => false,
        },
{
    match toml_get(table, key) {
        None => Err(ConfigError::new(ErrorKind::Missing, key)),
        Some(inner) => match toml_list(inner) {
            None => Err(ConfigError::new(ErrorKind::WrongType, key)),
            Some(list) => {
                let ghost nodes = list_nodes(list@);
                assert(toml_node(*inner) == Node::List(nodes)) by {
                    assert(toml_node(*inner)->List_0 =~= nodes);
                }
                let mut out: Vec<Number> = Vec::new();
                let mut i: usize = 0;
                assert(nodes.subrange(0, 0) =~= Seq::<Node>::empty());
                while i < list.len()
                    invariant
                        i <= list.len(),
                        nodes == list_nodes(list@),
                        node_field(toml_node(*table), key@) == Some(Node::List(nodes)),
                        numbers_of(nodes.subrange(0, i as int)) == Some(out@),
                    decreases list.len() - i,
                {
                    proof {
                        assert(nodes.subrange(0, i + 1).drop_last() =~= nodes.subrange(0, i as int));
                    }
                    match read_number_value(&list[i]) {
                        Some(n) => {
                            out.push(n);
                        },
                        None => {
                            proof {
                                lemma_numbers_none_sticks(nodes, i + 1);
                            }
                            return Err(ConfigError::new(ErrorKind::WrongType, key));
                        },
                    }
                    i = i + 1;
                }
                assert(nodes.subrange(0, list.len() as int) =~= nodes);
                Ok(out)
            },
        },
    }
}

fn read_amount(table: &toml::Value, key: &str) -> (r: Result<u32, ConfigError>)
    ensures
        same_outcome(r, amount_at(toml_node(*table), key@)),
{
    match toml_get(table, key) {
        None => Err(ConfigError::new(ErrorKind::Missing, key)),
        Some(inner) => match toml_integer(inner) {
            Some(i) => if 0 <= i && i <= 0xffff_ffff {
                Ok(i as u32)
            } else {
                Err(ConfigError::new(ErrorKind::WrongType, key))
            },
            None => Err(ConfigError::new(ErrorKind::WrongType, key)),
        },
    }
}

fn read_flag(table: &toml::Value, key: &str) -> (r: Result<FlagSpec, ConfigError>)
    ensures
        same_outcome(r, flag_at(toml_node(*table), key@)),
{
    match read_text(table, key) {
        Err(e) => Err(e),
        Ok(s) => match FlagSpec::lookup(s) {
            Some(f) => Ok(f),
            None => Err(ConfigError::new(ErrorKind::UnknownFlag, s)),
        },
    }
}

fn read_menu_kind(table: &toml::Value, key: &str) -> (r: Result<OpenMenuKind, ConfigError>)
    ensures
        same_outcome(r, menu_kind_at(toml_node(*table), key@)),
{
    match read_text(table, key) {
        Err(e) => Err(e),
        Ok(s) => if same_text(s, "travel") {
            Ok(OpenMenuKind::Travel)
        } else if same_text(s, "attune") {
            Ok(OpenMenuKind::Attune)
        } else {
            Err(ConfigError::new(ErrorKind::BadMenuKind, s))
        },
    }
}

fn read_switch(table: &toml::Value, key: &str) -> (r: Result<bool, ConfigError>)
    ensures
        same_outcome(r, switch_at(toml_node(*table), key@)),
{
    match toml_get(table, key) {
        None => Ok(false),
        Some(inner) => match toml_flag(inner) {
            Some(b) => Ok(b),
            None => Err(ConfigError::new(ErrorKind::WrongType, key)),
        },
    }
}

fn read_level(table: &toml::Value, key: &str) -> (r: Result<LogLevel, ConfigError>)
    ensures
        same_outcome(r, level_at(toml_node(*table), key@)),
{
    match read_text(table, key) {
        Err(e) => Err(e),
        Ok(s) => match parse_level(s) {
            Ok(l) => Ok(l),
            Err(complaint) => Err(ConfigError::new(ErrorKind::BadLogLevel, complaint.as_str())),
        },
    }
}

fn has_key(table: &toml::Value, key: &str) -> (has: bool)
    ensures
        has == (node_field(toml_node(*table), key@) is Some),
{
    toml_get(table, key).is_some()
}

fn read_command(table: &toml::Value) -> (r: Result<CfgCommand, ConfigError>)
    ensures
        same_command(r, command_of(toml_node(*table))),
    decreases toml_node(*table), 1nat,
{
    if has_key(table, "savefile_manager") {
        let hotkey_load = match read_hotkey(table, "savefile_manager") {
            Ok(h) => h,
            Err(e) => return Err(e),
        };
        let hotkey_open = match read_optional_hotkey(table, "hotkey_open") {
            Ok(h) => h,
            Err(e) => return Err(e),
        };
        Ok(CfgCommand::SavefileManager { hotkey_load, hotkey_open })
    } else if has_key(table, "item_spawner") {
        match read_hotkey(table, "item_spawner") {
            Ok(hotkey_load) => Ok(CfgCommand::ItemSpawner { hotkey_load }),
            Err(e) => Err(e),
        }
    } else if has_key(table, "flag") {
        let flag = match read_flag(table, "flag") {
            Ok(f) => f,
            Err(e) => return Err(e),
        };
        let hotkey = match read_optional_hotkey(table, "hotkey") {
            Ok(h) => h,
            Err(e) => return Err(e),
        };
        Ok(CfgCommand::Flag { flag, hotkey })
    } else if has_key(table, "position") {
        let hotkey = match read_hotkey(table, "position") {
            Ok(h) => h,
            Err(e) => return Err(e),
        };
        let modifier = match read_hotkey(table, "modifier") {
            Ok(h) => h,
            Err(e) => return Err(e),
        };
        Ok(CfgCommand::Position { hotkey, modifier })
    } else if has_key(table, "cycle_speed") {
        let cycle_speed = match read_numbers(table, "cycle_speed") {
            Ok(ns) => ns,
            Err(e) => return Err(e),
        };
        let hotkey = match read_hotkey(table, "hotkey") {
            Ok(h) => h,
            Err(e) => return Err(e),
        };
        Ok(CfgCommand::CycleSpeed { cycle_speed, hotkey })
    } else if has_key(table, "character_stats") {
        match read_hotkey(table, "character_stats") {
            Ok(hotkey_open) => Ok(CfgCommand::CharacterStats { hotkey_open }),
            Err(e) => Err(e),
        }
    } else if has_key(table, "souls") {
        let amount = match read_amount(table, "souls") {
            Ok(a) => a,
            Err(e) => return Err(e),
        };
        let hotkey = match read_hotkey(table, "hotkey") {
            Ok(h) => h,
            Err(e) => return Err(e),
        };
        Ok(CfgCommand::Souls { amount, hotkey })
    } else if has_key(table, "open_menu") {
        let kind = match read_menu_kind(table, "open_menu") {
            Ok(k) => k,
            Err(e) => return Err(e),
        };
        let hotkey = match read_optional_hotkey(table, "hotkey") {
            Ok(h) => h,
            Err(e) => return Err(e),
        };
        Ok(CfgCommand::OpenMenu { kind, hotkey })
    } else if has_key(table, "quitout") {
        match read_hotkey(table, "quitout") {
            Ok(hotkey) => Ok(CfgCommand::Quitout { hotkey }),
            Err(e) => Err(e),
        }
    } else if has_key(table, "target") {
        match read_hotkey(table, "target") {
            Ok(hotkey) => Ok(CfgCommand::Target { hotkey }),
            Err(e) => Err(e),
        }
    } else if has_key(table, "nudge") {
        let nudge = match read_number(table, "nudge") {
            Ok(n) => n,
            Err(e) => return Err(e),
        };
        let nudge_up = match read_hotkey(table, "nudge_up") {
            Ok(h) => h,
            Err(e) => return Err(e),
        };
        let nudge_down = match read_hotkey(table, "nudge_down") {
            Ok(h) => h,
            Err(e) => return Err(e),
        };
        Ok(CfgCommand::NudgePosition { nudge, nudge_up, nudge_down })
    } else if has_key(table, "group") {
        let label = match read_text(table, "group") {
            Ok(s) => String::from_str(s),
            Err(e) => return Err(e),
        };
        let commands = match read_command_list(table, "commands") {
            Ok(cs) => cs,
            Err(e) => return Err(e),
        };
        Ok(CfgCommand::Group { label, commands })
    } else {
        proof {
            reveal_strlit("");
            assert(""@ =~= Seq::<char>::empty());
        }
        Err(ConfigError::new(ErrorKind::UnknownCommand, ""))
    }
}

fn read_command_list(table: &toml::Value, key: &str) -> (r: Result<Vec<CfgCommand>, ConfigError>)
    ensures
        same_commands(r, command_list_at(toml_node(*table), key@)),
    decreases toml_node(*table), 0nat,
{
    match toml_get(table, key) {
        None => Err(ConfigError::new(ErrorKind::Missing, key)),
        Some(inner) => match toml_list(inner) {
            None => Err(ConfigError::new(ErrorKind::WrongType, key)),
            Some(list) => {
                assert(toml_node(*inner) == Node::List(list_nodes(list@))) by {
                    assert(toml_node(*inner)->List_0 =~= list_nodes(list@));
                }
                read_commands(list)
            },
        },
    }
}

fn read_commands(list: &Vec<toml::Value>) -> (r: Result<Vec<CfgCommand>, ConfigError>)
    ensures
        same_commands(r, commands_of(list_nodes(list@))),
    decreases list_nodes(list@), 0nat,
{
    let ghost nodes = list_nodes(list@);
    let mut out: Vec<CfgCommand> = Vec::new();
    let mut i: usize = 0;
    assert(nodes.subrange(0, 0) =~= Seq::<Node>::empty());
    assert(command_views(out@) =~= Seq::<CommandView>::empty());
    while i < list.len()
        invariant
            i <= list.len(),
            nodes == list_nodes(list@),
            commands_of(nodes.subrange(0, i as int)) == Ok::<Seq<CommandView>, ConfigErrorView>(
                command_views(out@),
            ),
        decreases list.len() - i,
    {
        proof {
            assert(nodes.subrange(0, i + 1).drop_last() =~= nodes.subrange(0, i as int));
            assert(nodes.subrange(0, i + 1).last() == toml_node(list@[i as int]));
            assert(nodes[i as int] == toml_node(list@[i as int]));
        }
        match read_command(&list[i]) {
            Ok(c) => {
                proof {
                    assert(out@.push(c).drop_last() =~= out@);
                }
                out.push(c);
            },
            Err(e) => {
                proof {
                    let upto = nodes.subrange(0, i + 1);
                    assert(command_of(upto.last()) is Err);
                    assert(commands_of(upto.drop_last()) is Ok);
                    assert(commands_of(upto) == Err::<Seq<CommandView>, ConfigErrorView>(e@));
                    lemma_commands_error_sticks(nodes, i + 1);
                }
                return Err(e);
            },
        }
        i = i + 1;
    }
    assert(nodes.subrange(0, list.len() as int) =~= nodes);
    Ok(out)
}

proof fn lemma_radial_error_sticks(items: Seq<Node>, k: int)
    requires
        0 <= k <= items.len(),
        radial_entries_of(items.subrange(0, k)) is Err,
    ensures
        radial_entries_of(items) == radial_entries_of(items.subrange(0, k)),
    decreases items.len() - k,
{
    if k < items.len() {
        assert(items.subrange(0, k + 1).drop_last() =~= items.subrange(0, k));
        lemma_radial_error_sticks(items, k + 1);
    } else {
        assert(items.subrange(0, k) =~= items);
    }
}

fn read_radial_entry(table: &toml::Value) -> (r: Result<RadialMenu, ConfigError>)
    ensures
        match (r, radial_entry_of(toml_node(*table))) {
            (Ok(a), Ok(b)) => a@ == b,
            (Err(e), Err(f)) => e@ == f,
            _ => false,
        },
{
    let key = match read_hotkey(table, "key") {
        Ok(h) => h,
        Err(e) => return Err(e),
    };
    match read_text(table, "label") {
        Ok(s) => Ok(RadialMenu { key, label: String::from_str(s) }),
        Err(e) => Err(e),
    }
}

fn read_radial_menu(root: &toml::Value) -> (r: Result<Vec<RadialMenu>, ConfigError>)
    ensures
        match (r, radial_menu_of(toml_node(*root))) {
            (Ok(a), Ok(b)) => radial_views(a@) == b,
            (Err(e), Err(f)) => e@ == f,
            _ => false,
        },
{
    let list = match toml_get(root, "radial_menu") {
        None => {
            let none: Vec<RadialMenu> = Vec::new();
            assert(radial_views(none@) =~= Seq::<RadialMenuView>::empty());
            return Ok(none);
        },
        Some(inner) => match toml_list(inner) {
            None => return Err(ConfigError::new(ErrorKind::WrongType, "radial_menu")),
            Some(list) => {
                assert(toml_node(*inner) == Node::List(list_nodes(list@))) by {
                    assert(toml_node(*inner)->List_0 =~= list_nodes(list@));
                }
                list
            },
        },
    };
    let ghost nodes = list_nodes(list@);
    let mut out: Vec<RadialMenu> = Vec::new();
    let mut i: usize = 0;
    assert(nodes.subrange(0, 0) =~= Seq::<Node>::empty());
    assert(radial_views(out@) =~= Seq::<RadialMenuView>::empty());
    while i < list.len()
        invariant
            i <= list.len(),
            nodes == list_nodes(list@),
            radial_menu_of(toml_node(*root)) == radial_entries_of(nodes),
            radial_entries_of(nodes.subrange(0, i as int)) == Ok::<
                Seq<RadialMenuView>,
                ConfigErrorView,
            >(radial_views(out@)),
        decreases list.len() - i,
    {
        proof {
            assert(nodes.subrange(0, i + 1).drop_last() =~= nodes.subrange(0, i as int));
            assert(nodes.subrange(0, i + 1).last() == toml_node(list@[i as int]));
        }
        match read_radial_entry(&list[i]) {
            Ok(entry) => {
                let ghost before = radial_views(out@);
                out.push(entry);
                assert(radial_views(out@) =~= before.push(entry@));
            },
            Err(e) => {
                proof {
                    let upto = nodes.subrange(0, i + 1);
                    assert(radial_entries_of(upto) == Err::<Seq<RadialMenuView>, ConfigErrorView>(e@));
                    lemma_radial_error_sticks(nodes, i + 1);
                }
                return Err(e);
            },
        }
        i = i + 1;
    }
    assert(nodes.subrange(0, list.len() as int) =~= nodes);
    Ok(out)
}

fn read_settings(table: &toml::Value) -> (r: Result<Settings, ConfigError>)
    ensures
        same_outcome(r, settings_of(toml_node(*table))),
{
    let log_level = match read_level(table, "log_level") {
        Ok(l) => l,
        Err(e) => return Err(e),
    };
    let display = match read_hotkey(table, "display") {
        Ok(h) => h,
        Err(e) => return Err(e),
    };
    let show_console = match read_switch(table, "show_console") {
        Ok(b) => b,
        Err(e) => return Err(e),
    };
    Ok(Settings { log_level, display, show_console })
}

/// The prefix of every message that [`Config::parse`] hands out.
pub open spec fn parse_error_text(e: ConfigErrorView) -> Seq<char> {
    "TOML configuration parse error: "@ + error_text(e)
}

impl Config {
    /// Reads a configuration out of a parsed document.
    pub fn from_document(root: &toml::Value) -> (r: Result<Config, ConfigError>)
        ensures
            same_config(r, config_of(toml_node(*root))),
    {
        match toml_get(root, "settings") {
            None => Err(ConfigError::new(ErrorKind::Missing, "settings")),
            Some(table) => {
                let settings = match read_settings(table) {
                    Ok(s) => s,
                    Err(e) => return Err(e),
                };
                let commands = match read_command_list(root, "commands") {
                    Ok(cs) => cs,
                    Err(e) => return Err(e),
                };
                let radial_menu = match read_radial_menu(root) {
                    Ok(entries) => entries,
                    Err(e) => return Err(e),
                };
                Ok(Config { settings, commands, radial_menu })
            },
        }
    }

    /// Parses a configuration text, keeping the structured error.
    pub fn parse_checked(cfg: &str) -> (r: Result<Config, ConfigError>)
        ensures
            same_config(r, config_of_text(cfg@)),
    {
        match toml_parse(cfg) {
            Err(message) => Err(ConfigError::new(ErrorKind::Syntax, message.as_str())),
            Ok(root) => Config::from_document(&root),
        }
    }

    /// Parses a configuration text; an error is handed out as a sentence.
    pub fn parse(cfg: &str) -> (r: Result<Config, String>)
        ensures
            match (r, config_of_text(cfg@)) {
                (Ok(c), Ok(v)) => c@ == v,
                (Err(message), Err(e)) => message@ == parse_error_text(e),
                _ => false,
            },
    {
        match Config::parse_checked(cfg) {
            Ok(c) => Ok(c),
            Err(e) => {
                let mut message = String::new();
                message.append("TOML configuration parse error: ");
                message.append(e.message().as_str());
                assert(message@ =~= parse_error_text(e@));
                Err(message)
            },
        }
    }
}

/// The settings used when no configuration can be loaded: debug logging,
/// the `0` key for the display, no console.
pub open spec fn default_settings() -> Settings {
    Settings {
        log_level: LogLevel::Debug,
        display: Hotkey { key: 0x30, modifier: None },
        show_console: false,
    }
}

impl Default for Config {
    fn default() -> (c: Config)
        ensures
            c.settings == default_settings(),
            c.commands@.len() == 0,
            c.radial_menu@.len() == 0,
    {
        Config {
            settings: Settings {
                log_level: LogLevel::Debug,
                display: Hotkey::new(0x30, None),
                show_console: false,
            },
            commands: Vec::new(),
            radial_menu: Vec::new(),
        }
    }
}

} // verus!
