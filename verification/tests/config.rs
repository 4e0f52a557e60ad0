use practice_tool::config::{CfgCommand, Config, ConfigError, ErrorKind, LogLevel, Number, OpenMenuKind};
use practice_tool::flags::FlagSpec;
use practice_tool::hotkey::{Hotkey, Modifier};

const SAMPLE: &str = r#"
[settings]
log_level = "INFO"
display = "0"
show_console = true

[[commands]]
savefile_manager = "ctrl+s"
hotkey_open = "f1"

[[commands]]
item_spawner = "i"

[[commands]]
flag = "all_no_damage"
hotkey = "1"

[[commands]]
flag = "deathcam"

[[commands]]
position = "7"
modifier = "shift+7"

[[commands]]
cycle_speed = [1.0, 2, 0.5]
hotkey = "4"

[[commands]]
character_stats = "8"

[[commands]]
souls = 10000
hotkey = "5"

[[commands]]
open_menu = "travel"

[[commands]]
quitout = "p"

[[commands]]
target = "t"

[[commands]]
nudge = 0.1
nudge_up = "f5"
nudge_down = "f6"

[[commands]]
group = "Render"
commands = [
  { flag = "rend_chr", hotkey = "f7" },
  { group = "Inner", commands = [ { flag = "gravity" } ] },
]
"#;

fn key(code: u8) -> Hotkey {
    Hotkey { key: code, modifier: None }
}

#[test]
fn test_parse() {
    println!("{:#?}", toml::from_str::<toml::Value>(SAMPLE));
    let parsed = Config::parse(SAMPLE);
    println!("{:#?}", parsed);
    let config = parsed.expect("the sample parses");
    assert_eq!(config.settings.log_level, LogLevel::Info);
    assert_eq!(config.settings.display, key(0x30));
    assert!(config.settings.show_console);
    assert_eq!(config.commands.len(), 13);
    match &config.commands[0] {
        CfgCommand::SavefileManager { hotkey_load, hotkey_open } => {
            assert_eq!(*hotkey_load, Hotkey { key: 0x53, modifier: Some(Modifier::Ctrl) });
            assert_eq!(*hotkey_open, Some(key(0x70)));
        },
        other => panic!("unexpected {:?}", other),
    }
    assert!(matches!(&config.commands[1], CfgCommand::ItemSpawner { hotkey_load } if *hotkey_load == key(0x49)));
    assert!(matches!(&config.commands[3], CfgCommand::Flag { flag: FlagSpec::Deathcam, hotkey: None }));
    match &config.commands[5] {
        CfgCommand::CycleSpeed { cycle_speed, hotkey } => {
            assert_eq!(
                cycle_speed,
                &vec![
                    Number::Real(1.0f64.to_bits()),
                    Number::Whole(2),
                    Number::Real(0.5f64.to_bits())
                ]
            );
            assert_eq!(*hotkey, key(0x34));
        },
        other => panic!("unexpected {:?}", other),
    }
    assert!(matches!(&config.commands[7], CfgCommand::Souls { amount: 10000, hotkey } if *hotkey == key(0x35)));
    assert!(matches!(&config.commands[8], CfgCommand::OpenMenu { kind: OpenMenuKind::Travel, hotkey: None }));
    match &config.commands[11] {
        CfgCommand::NudgePosition { nudge, nudge_up, nudge_down } => {
            assert_eq!(*nudge, Number::Real(0.1f64.to_bits()));
            assert_eq!(*nudge_up, key(0x74));
            assert_eq!(*nudge_down, key(0x75));
        },
        other => panic!("unexpected {:?}", other),
    }
    match &config.commands[12] {
        CfgCommand::Group { label, commands } => {
            assert_eq!(label, "Render");
            assert_eq!(commands.len(), 2);
            assert!(matches!(&commands[0], CfgCommand::Flag { flag: FlagSpec::RendChr, hotkey: Some(h) } if *h == key(0x76)));
            match &commands[1] {
                CfgCommand::Group { label, commands } => {
                    assert_eq!(label, "Inner");
                    assert!(matches!(&commands[0], CfgCommand::Flag { flag: FlagSpec::Gravity, hotkey: None }));
                },
                other => panic!("unexpected {:?}", other),
            }
        },
        other => panic!("unexpected {:?}", other),
    }
}

#[test]
fn test_parse_errors() {
    let parsed = Config::parse(
        r#"commands = [ { boh = 3 } ]
                [settings]
                log_level = "DEBUG"
                "#,
    );
    println!("{:#?}", parsed);
    assert_eq!(
        parsed.unwrap_err(),
        "TOML configuration parse error: missing field `display`"
    );
}

#[test]
fn parses_single_flag_command() {
    let text = "[settings]\nlog_level=\"DEBUG\"\ndisplay=\"0\"\n[[commands]]\nflag=\"gravity\"\nhotkey=\"g\"\n";
    let config = Config::parse(text).unwrap();
    assert_eq!(config.settings.log_level, LogLevel::Debug);
    assert_eq!(config.settings.display, Hotkey::parse("0").unwrap());
    assert!(!config.settings.show_console);
    assert_eq!(config.commands.len(), 1);
    match &config.commands[0] {
        CfgCommand::Flag { flag, hotkey } => {
            assert_eq!(*flag, FlagSpec::Gravity);
            assert_eq!(*hotkey, Hotkey::parse("g"));
            assert_eq!(*hotkey, Some(key(0x47)));
        },
        other => panic!("unexpected {:?}", other),
    }
}

#[test]
fn rejects_unknown_flag_by_name() {
    let text = "[settings]\nlog_level=\"DEBUG\"\ndisplay=\"0\"\n[[commands]]\nflag = \"nonesuch\"\n";
    let message = Config::parse(text).unwrap_err();
    assert!(message.contains("\"nonesuch\""));
    assert_eq!(
        message,
        "TOML configuration parse error: \"nonesuch\" is not a valid flag specifier"
    );
    let e: ConfigError = Config::parse_checked(text).unwrap_err();
    assert_eq!(e.kind, ErrorKind::UnknownFlag);
    assert_eq!(e.detail, "nonesuch");
}

#[test]
fn reports_each_error_kind() {
    let kind = |text: &str| Config::parse_checked(text).unwrap_err().kind;
    let head = "[settings]\nlog_level=\"DEBUG\"\ndisplay=\"0\"\n";
    assert_eq!(kind("[settings"), ErrorKind::Syntax);
    assert_eq!(kind("commands = []"), ErrorKind::Missing);
    assert_eq!(kind(head), ErrorKind::Missing);
    assert_eq!(kind("commands = 3\n[settings]\nlog_level=\"DEBUG\"\ndisplay=\"0\"\n"), ErrorKind::WrongType);
    assert_eq!(kind("commands = []\n[settings]\nlog_level=\"DEBUG\"\ndisplay=\"0\"\nshow_console=1\n"), ErrorKind::WrongType);
    assert_eq!(kind(&format!("{head}[[commands]]\nflag=\"x\"\n")), ErrorKind::UnknownFlag);
    assert_eq!(kind(&format!("{head}[[commands]]\nquitout=\"f13\"\n")), ErrorKind::BadHotkey);
    assert_eq!(kind("commands = []\n[settings]\nlog_level=\"LOUD\"\ndisplay=\"0\"\n"), ErrorKind::BadLogLevel);
    assert_eq!(kind(&format!("{head}[[commands]]\nopen_menu=\"shop\"\n")), ErrorKind::BadMenuKind);
    assert_eq!(kind(&format!("{head}[[commands]]\nboh=3\n")), ErrorKind::UnknownCommand);
    assert_eq!(kind(&format!("{head}[[commands]]\nsouls=-1\nhotkey=\"1\"\n")), ErrorKind::WrongType);
    assert_eq!(kind(&format!("{head}[[commands]]\nsouls=4294967296\nhotkey=\"1\"\n")), ErrorKind::WrongType);
    assert_eq!(kind(&format!("{head}[[commands]]\ncycle_speed=[1.0, \"x\"]\nhotkey=\"1\"\n")), ErrorKind::WrongType);
}

#[test]
fn first_key_in_catalogue_order_names_the_command() {
    let head = "[settings]\nlog_level=\"DEBUG\"\ndisplay=\"0\"\n";
    let config = Config::parse(&format!("{head}[[commands]]\ntarget=\"t\"\nquitout=\"q\"\n")).unwrap();
    assert!(matches!(&config.commands[0], CfgCommand::Quitout { hotkey } if *hotkey == key(0x51)));
}

#[test]
fn error_messages_are_sentences() {
    let e = ConfigError { kind: ErrorKind::Missing, detail: "display".to_string() };
    assert_eq!(e.message(), "missing field `display`");
    let e = ConfigError { kind: ErrorKind::WrongType, detail: "souls".to_string() };
    assert_eq!(e.message(), "invalid type for `souls`");
    let e = ConfigError { kind: ErrorKind::BadHotkey, detail: "f13".to_string() };
    assert_eq!(e.message(), "\"f13\" is not a valid hotkey");
    let e = ConfigError { kind: ErrorKind::BadLogLevel, detail: "no such level".to_string() };
    assert_eq!(e.message(), "Couldn't parse log level filter: no such level");
    let e = ConfigError { kind: ErrorKind::BadMenuKind, detail: "shop".to_string() };
    assert_eq!(e.message(), "\"shop\" is not a valid menu");
    let e = ConfigError { kind: ErrorKind::UnknownCommand, detail: String::new() };
    assert_eq!(e.message(), "data did not match any command");
    let e = ConfigError { kind: ErrorKind::Syntax, detail: "bad".to_string() };
    assert_eq!(e.message(), "bad");
}

#[test]
fn log_levels_follow_the_logging_library() {
    assert_eq!(LogLevel::try_from("TRACE"), Ok(LogLevel::Trace));
    assert_eq!(LogLevel::try_from("DEBUG"), Ok(LogLevel::Debug));
    assert_eq!(LogLevel::try_from("INFO"), Ok(LogLevel::Info));
    assert_eq!(LogLevel::try_from("WARN"), Ok(LogLevel::Warn));
    assert_eq!(LogLevel::try_from("ERROR"), Ok(LogLevel::Error));
    assert_eq!(LogLevel::try_from("OFF"), Ok(LogLevel::Off));
    assert_eq!(LogLevel::try_from("debug"), Ok(LogLevel::Debug));
    assert_eq!(LogLevel::try_from("Trace"), Ok(LogLevel::Trace));
    assert_eq!(LogLevel::try_from("wArN"), Ok(LogLevel::Warn));
    assert_eq!(LogLevel::try_from("off"), Ok(LogLevel::Off));
    assert_eq!(LogLevel::try_from("info"), Ok(LogLevel::Info));
    assert_eq!(LogLevel::try_from("Error"), Ok(LogLevel::Error));
    assert_eq!(LogLevel::try_from("3"), Ok(LogLevel::Info));
    assert!(LogLevel::try_from("debug ").is_err());
    assert!(LogLevel::try_from("deBug\u{212A}").is_err());
    let complaint = "verbose".parse::<tracing_subscriber::filter::LevelFilter>().unwrap_err().to_string();
    assert_eq!(
        LogLevel::try_from("verbose"),
        Err(format!("Couldn't parse log level filter: {complaint}"))
    );
    assert!(LogLevel::Off.rank() < LogLevel::Error.rank());
    assert!(LogLevel::Info.rank() < LogLevel::Debug.rank());
    assert_eq!(LogLevel::Trace.rank(), 5);
}

#[test]
fn a_bad_log_level_is_reported_in_the_librarys_words() {
    let text = "commands = []\n[settings]\nlog_level=\"LOUD\"\ndisplay=\"0\"\n";
    let complaint = "LOUD".parse::<tracing_subscriber::filter::LevelFilter>().unwrap_err().to_string();
    assert_eq!(
        Config::parse(text).unwrap_err(),
        format!("TOML configuration parse error: Couldn't parse log level filter: {complaint}")
    );
}

#[test]
fn default_config_shows_on_zero() {
    let config = Config::default();
    assert_eq!(config.settings.log_level, LogLevel::Debug);
    assert_eq!(config.settings.display, key(0x30));
    assert!(!config.settings.show_console);
    assert!(config.commands.is_empty());
}

#[test]
fn reads_a_document_parsed_elsewhere() {
    let doc: toml::Value = toml::from_str("commands = []\n[settings]\nlog_level=\"WARN\"\ndisplay=\"alt+f12\"\n").unwrap();
    let config = Config::from_document(&doc).unwrap();
    assert_eq!(config.settings.log_level, LogLevel::Warn);
    assert_eq!(config.settings.display, Hotkey { key: 0x7B, modifier: Some(Modifier::Alt) });
}

#[test]
fn flag_names_and_labels() {
    let names = [
        "all_no_damage", "inf_stamina", "inf_focus", "inf_consumables", "deathcam", "no_death", "one_shot",
        "evt_draw", "evt_disable", "ai_disable", "rend_chr", "rend_obj", "rend_map", "rend_mesh_hi",
        "rend_mesh_lo", "rend_mesh_hit", "debug_draw", "hurtbox", "all_draw_hit", "ik_foot_ray",
        "debug_sphere_1", "debug_sphere_2", "gravity",
    ];
    let labels = [
        "全体无伤害", "精力无消耗", "专注值无消耗", "物品使用无消耗", "死亡视角", "不会死亡", "一击必杀", "事件绘制",
        "事件禁止", "不计算AI", "绘制角色", "绘制物件", "绘制地图", "碰撞检测 (高)", "碰撞检测 (低)", "命中碰撞检测",
        "调试绘制", "伤害区域显示 (需要调试绘制)", "绘制所有角色碰撞", "足部IK追踪", "调试球体1", "调试球体2", "无重力",
    ];
    for (name, label) in names.iter().zip(labels) {
        let flag = FlagSpec::try_from(name).unwrap();
        assert_eq!(FlagSpec::lookup(name), Some(flag));
        assert_eq!(flag.name(), *name);
        assert_eq!(flag.label(), label);
    }
    assert_eq!(FlagSpec::lookup("Gravity"), None);
    assert_eq!(FlagSpec::try_from("nonesuch"), Err("\"nonesuch\" is not a valid flag specifier".to_string()));
}

#[test]
fn the_radial_menu_is_optional_and_ordered() {
    let head = "[settings]\nlog_level=\"DEBUG\"\ndisplay=\"0\"\n";
    let none = Config::parse(&format!("commands = []\n{head}")).unwrap();
    assert!(none.radial_menu.is_empty());
    let empty = Config::parse(&format!("commands = []\nradial_menu = []\n{head}")).unwrap();
    assert!(empty.radial_menu.is_empty());
    let two = Config::parse(&format!(
        "commands = []\n{head}[[radial_menu]]\nkey=\"f5\"\nlabel=\"Quit\"\n[[radial_menu]]\nlabel=\"无重力\"\nkey=\"shift+g\"\n"
    ))
    .unwrap();
    let menu: Vec<(Hotkey, &str)> = two.radial_menu.iter().map(|e| (e.key, e.label.as_str())).collect();
    assert_eq!(
        menu,
        vec![(key(0x74), "Quit"), (Hotkey { key: 0x47, modifier: Some(Modifier::Shift) }, "无重力")]
    );
    assert!(Config::default().radial_menu.is_empty());
}

#[test]
fn a_malformed_radial_menu_is_an_error() {
    let head = "[settings]\nlog_level=\"DEBUG\"\ndisplay=\"0\"\n";
    let error = |tail: &str| {
        let e = Config::parse_checked(&format!("commands = []\n{tail}{head}")).unwrap_err();
        (e.kind, e.detail)
    };
    assert_eq!(error("radial_menu = 3\n"), (ErrorKind::WrongType, "radial_menu".to_string()));
    assert_eq!(error("radial_menu = [ { label = \"x\" } ]\n"), (ErrorKind::Missing, "key".to_string()));
    assert_eq!(error("radial_menu = [ { key = \"g\" } ]\n"), (ErrorKind::Missing, "label".to_string()));
    assert_eq!(
        error("radial_menu = [ { key = \"g\", label = \"ok\" }, { key = \"f99\", label = \"x\" } ]\n"),
        (ErrorKind::BadHotkey, "f99".to_string())
    );
    assert_eq!(
        error("radial_menu = [ { key = \"g\", label = 1 } ]\n"),
        (ErrorKind::WrongType, "label".to_string())
    );
}
