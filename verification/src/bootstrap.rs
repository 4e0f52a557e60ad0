//! What the overlay decides while it attaches to the host: whether to
//! start at all, which configuration to run with, whether the console
//! stays, which font is used, and what becomes of the one game parameter
//! it adjusts.

use vstd::prelude::*;
use vstd::string::*;
use crate::config::{default_settings, level_rank, Config, LogLevel, Settings};
use crate::packager::{join_path, joined};

verus! {

/// The reason code the loader passes when the library is attached to a
/// process.
pub const DLL_PROCESS_ATTACH: u32 = 1;

/// The id of the game item whose icon is adjusted.
pub const DARKSIGN_ID: u32 = 117;

/// The icon the item gets on attach.
pub const ATTACH_ICON: u16 = 116;

/// The icon the item gets on eject.
pub const EJECT_ICON: u16 = 5;

/// The name of the configuration file, beside the library.
pub open spec fn config_file_name() -> Seq<char> {
    "jdsd_dsiii_practice_tool.toml"@
}

/// The name of the log file, beside the library.
pub open spec fn log_file_name() -> Seq<char> {
    "jdsd_dsiii_practice_tool.log"@
}

/// Whether the entry point starts the overlay: only when the library is
/// being attached to the process.
pub fn attach_requested(reason: u32) -> (start: bool)
    ensures
        start == (reason == DLL_PROCESS_ATTACH),
{
    reason == DLL_PROCESS_ATTACH
}

/// The path of the configuration file, given the directory of the library.
pub fn config_path(library_dir: &str) -> (path: String)
    ensures
        path@ == joined(library_dir@, config_file_name()),
{
    join_path(library_dir, "jdsd_dsiii_practice_tool.toml")
}

/// The path of the log file, given the directory of the library.
pub fn log_path(library_dir: &str) -> (path: String)
    ensures
        path@ == joined(library_dir@, log_file_name()),
{
    join_path(library_dir, "jdsd_dsiii_practice_tool.log")
}

/// The configuration to run with: the loaded one, or the default together
/// with the reason the loading failed, to be logged once logging is up.
pub fn choose_config(loaded: Result<Config, String>) -> (chosen: (Config, Option<String>))
    ensures
        match loaded {
            Ok(config) => chosen.0 == config && chosen.1 is None,
            Err(reason) => chosen.0.settings == default_settings()
                && chosen.0.commands@.len() == 0 && chosen.0.radial_menu@.len() == 0 && chosen.1
                == Some(reason),
        },
{
    match loaded {
        Ok(config) => (config, None),
        Err(reason) => (Config::default(), Some(reason)),
    }
}

/// Whether the console stays open: only where it is asked for and the log
/// level lets debug messages through.
pub open spec fn console_stays(settings: Settings) -> bool {
    settings.show_console && level_rank(settings.log_level) >= level_rank(LogLevel::Debug)
}

/// Decides whether the console allocated at attach is kept.
pub fn keeps_console(settings: &Settings) -> (stays: bool)
    ensures
        stays == console_stays(*settings),
{
    settings.show_console && settings.log_level.rank() >= 4
}

/// What follows the attempt to install the graphics hook.
#[derive(Clone, Copy, Debug, PartialEq, Eq, Structural)]
pub enum BootAction {
    /// The hook is in: the frame loop takes over.
    Run,
    /// The hook could not be installed: log, and unload the library without
    /// touching the host.
    Eject,
}

/// Decides what follows the attempt to install the graphics hook.
pub fn after_install(installed: bool) -> (action: BootAction)
    ensures
        action == (if installed {
            BootAction::Run
        } else {
            BootAction::Eject
        }),
{
    if installed {
        BootAction::Run
    } else {
        BootAction::Eject
    }
}

/// One row of the goods parameter table, as far as the overlay reads it:
/// the id, and the icon where the row has its data loaded.
#[derive(Clone, Copy, Debug, PartialEq, Eq, Structural)]
pub struct GoodsRow {
    pub id: u32,
    pub icon_id: Option<u16>,
}

/// The index of the first row with the id `id`, or the length where there
/// is none.
pub open spec fn first_row(rows: Seq<GoodsRow>, id: u32, from: int) -> int
    decreases rows.len() - from,
{
    if from < 0 || from >= rows.len() {
        rows.len() as int
    } else if rows[from].id == id {
        from
    } else {
        first_row(rows, id, from + 1)
    }
}

/// The table after the icon of item `id` has been set: only the first row
/// with that id is looked at, and it is changed only where its data is
/// loaded.
pub open spec fn with_icon(rows: Seq<GoodsRow>, id: u32, icon: u16) -> Seq<GoodsRow> {
    let at = first_row(rows, id, 0);
    if at < rows.len() && rows[at].icon_id is Some {
        rows.update(at, GoodsRow { id, icon_id: Some(icon) })
    } else {
        rows
    }
}

/// Sets the icon of the item `id`. The overlay does this for the item
/// [`DARKSIGN_ID`], with [`ATTACH_ICON`] when it attaches and with
/// [`EJECT_ICON`] when it is ejected from the menu.
pub fn set_goods_icon(rows: &mut Vec<GoodsRow>, id: u32, icon: u16) -> (changed: bool)
    ensures
        final(rows)@ == with_icon(old(rows)@, id, icon),
        changed == (first_row(old(rows)@, id, 0) < old(rows)@.len() && old(rows)@[first_row(
            old(rows)@,
            id,
            0,
        )].icon_id is Some),
{
    let mut i: usize = 0;
    while i < rows.len()
        invariant
            i <= rows.len(),
            rows@ == old(rows)@,
            first_row(rows@, id, 0) == first_row(rows@, id, i as int),
        decreases rows.len() - i,
    {
        if rows[i].id == id {
            if rows[i].icon_id.is_some() {
                rows.set(i, GoodsRow { id, icon_id: Some(icon) });
                return true;
            }
            return false;
        }
        i = i + 1;
    }
    false
}

/// The three sizes the interface font is loaded in.
#[derive(Clone, Copy, Debug, PartialEq, Eq, Structural)]
pub enum FontSize {
    Small,
    Normal,
    Big,
}

/// The size in pixels of each font.
pub open spec fn font_pixels(size: FontSize) -> u32 {
    match size {
        FontSize::Small => 11,
        FontSize::Normal => 18,
        FontSize::Big => 24,
    }
}

/// The font for a display of the given width: the big one above 2000
/// pixels, the normal one above 1200, else the small one.
pub open spec fn font_for(width: u32) -> FontSize {
    if width > 2000 {
        FontSize::Big
    } else if width > 1200 {
        FontSize::Normal
    } else {
        FontSize::Small
    }
}

impl FontSize {
    /// The size of this font in pixels.
    pub fn pixels(&self) -> (px: u32)
        ensures
            px == font_pixels(*self),
    {
        match self {
            FontSize::Small => 11,
            FontSize::Normal => 18,
            FontSize::Big => 24,
        }
    }
}

/// Picks the font for a display width given in whole pixels, rounded up.
pub fn set_font(width: u32) -> (size: FontSize)
    ensures
        size == font_for(width),
{
    if width > 2000 {
        FontSize::Big
    } else if width > 1200 {
        FontSize::Normal
    } else {
        FontSize::Small
    }
}

/// How many font files are tried.
pub const FONT_CANDIDATES: usize = 7;

/// The file name of the font tried at position `i`.
pub open spec fn font_file(i: int) -> Seq<char> {
    if i == 0 {
        "dengb.ttf"@
    } else if i == 1 {
        "deng.ttf"@
    } else if i == 2 {
        "msyh.ttc"@
    } else if i == 3 {
        "msjhbd.ttc"@
    } else if i == 4 {
        "msjh.ttc"@
    } else if i == 5 {
        "simsun.ttc"@
    } else {
        "mingliub.ttc"@
    }
}

/// The file name of the font tried at position `i`.
pub fn font_candidate(i: usize) -> (name: &'static str)
    requires
        i < FONT_CANDIDATES,
    ensures
        name@ == font_file(i as int),
{
    if i == 0 {
        "dengb.ttf"
    } else if i == 1 {
        "deng.ttf"
    } else if i == 2 {
        "msyh.ttc"
    } else if i == 3 {
        "msjhbd.ttc"
    } else if i == 4 {
        "msjh.ttc"
    } else if i == 5 {
        "simsun.ttc"
    } else {
        "mingliub.ttc"
    }
}

/// The directory the fonts are looked for in: `Fonts` under the system
/// directory where that is known and the directory exists, else the usual
/// place.
pub fn font_directory(system_dir: Option<&str>, fonts_dir_exists: bool) -> (dir: String)
    ensures
        dir@ == match system_dir {
            Some(root) => if fonts_dir_exists {
                joined(root@, "Fonts"@)
            } else {
                "C:\\Windows\\Fonts"@
            },
            None => "C:\\Windows\\Fonts"@,
        },
{
    match system_dir {
        Some(root) => if fonts_dir_exists {
            join_path(root, "Fonts")
        } else {
            String::from_str("C:\\Windows\\Fonts")
        },
        None => String::from_str("C:\\Windows\\Fonts"),
    }
}

/// The index of the first file that could be read, or the length where
/// none could.
pub open spec fn first_readable(readable: Seq<bool>, from: int) -> int
    decreases readable.len() - from,
{
    if from < 0 || from >= readable.len() {
        readable.len() as int
    } else if readable[from] {
        from
    } else {
        first_readable(readable, from + 1)
    }
}

/// Picks the font file to load: the first candidate that could be read.
pub fn first_loaded(readable: &Vec<bool>) -> (pick: Option<usize>)
    ensures
        match pick {
            Some(i) => i == first_readable(readable@, 0) && i < readable@.len(),
            None => first_readable(readable@, 0) == readable@.len(),
        },
{
    let mut i: usize = 0;
    while i < readable.len()
        invariant
            i <= readable.len(),
            first_readable(readable@, 0) == first_readable(readable@, i as int),
        decreases readable.len() - i,
    {
        if readable[i] {
            return Some(i);
        }
        i = i + 1;
    }
    None
}

} // verus!
