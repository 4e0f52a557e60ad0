use practice_tool::bootstrap::{
    after_install, attach_requested, choose_config, config_path, first_loaded, font_candidate,
    font_directory, keeps_console, log_path, set_font, set_goods_icon, BootAction, FontSize,
    GoodsRow, ATTACH_ICON, DARKSIGN_ID, EJECT_ICON, FONT_CANDIDATES,
};
use practice_tool::config::{Config, LogLevel, Settings};
use practice_tool::hotkey::Hotkey;

#[test]
fn only_attach_starts_the_overlay() {
    assert!(attach_requested(1));
    for reason in [0, 2, 3, u32::MAX] {
        assert!(!attach_requested(reason));
    }
    assert_eq!(after_install(true), BootAction::Run);
    assert_eq!(after_install(false), BootAction::Eject);
}

#[test]
fn files_sit_beside_the_library() {
    assert_eq!(config_path("C:\\game"), "C:\\game/jdsd_dsiii_practice_tool.toml");
    assert_eq!(log_path("C:\\game\\"), "C:\\game\\jdsd_dsiii_practice_tool.log");
}

#[test]
fn a_bad_config_falls_back_to_the_default_and_keeps_the_reason() {
    let text = "[settings]\nlog_level=\"DEBUG\"\ndisplay=\"0\"\n[[commands]]\nflag = \"nonesuch\"\n";
    let (config, reason) = choose_config(Config::parse(text));
    assert_eq!(config.settings, Config::default().settings);
    assert!(config.commands.is_empty());
    assert!(reason.unwrap().contains("\"nonesuch\""));
    let good = "commands = []\n[settings]\nlog_level=\"ERROR\"\ndisplay=\"f1\"\n";
    let (config, reason) = choose_config(Config::parse(good));
    assert_eq!(config.settings.log_level, LogLevel::Error);
    assert_eq!(reason, None);
}

#[test]
fn console_stays_only_when_asked_for_and_debugging() {
    let settings = |log_level, show_console| Settings {
        log_level,
        display: Hotkey { key: 0x30, modifier: None },
        show_console,
    };
    assert!(keeps_console(&settings(LogLevel::Debug, true)));
    assert!(keeps_console(&settings(LogLevel::Trace, true)));
    assert!(!keeps_console(&settings(LogLevel::Info, true)));
    assert!(!keeps_console(&settings(LogLevel::Off, true)));
    assert!(!keeps_console(&settings(LogLevel::Debug, false)));
    assert!(!keeps_console(&settings(LogLevel::Trace, false)));
}

#[test]
fn the_icon_of_the_first_matching_row_is_set() {
    assert_eq!((DARKSIGN_ID, ATTACH_ICON, EJECT_ICON), (117, 116, 5));
    let mut rows = vec![
        GoodsRow { id: 100, icon_id: Some(1) },
        GoodsRow { id: 117, icon_id: Some(5) },
        GoodsRow { id: 117, icon_id: Some(7) },
    ];
    assert!(set_goods_icon(&mut rows, DARKSIGN_ID, ATTACH_ICON));
    assert_eq!(
        rows,
        vec![
            GoodsRow { id: 100, icon_id: Some(1) },
            GoodsRow { id: 117, icon_id: Some(116) },
            GoodsRow { id: 117, icon_id: Some(7) },
        ]
    );
    assert!(set_goods_icon(&mut rows, DARKSIGN_ID, EJECT_ICON));
    assert_eq!(rows[1].icon_id, Some(5));
    let mut unloaded = vec![GoodsRow { id: 117, icon_id: None }, GoodsRow { id: 117, icon_id: Some(7) }];
    assert!(!set_goods_icon(&mut unloaded, DARKSIGN_ID, ATTACH_ICON));
    assert_eq!(unloaded[1].icon_id, Some(7));
    let mut none = vec![GoodsRow { id: 1, icon_id: Some(7) }];
    assert!(!set_goods_icon(&mut none, DARKSIGN_ID, ATTACH_ICON));
    assert_eq!(none, vec![GoodsRow { id: 1, icon_id: Some(7) }]);
}

#[test]
fn font_follows_the_display_width() {
    assert_eq!(set_font(0), FontSize::Small);
    assert_eq!(set_font(1200), FontSize::Small);
    assert_eq!(set_font(1201), FontSize::Normal);
    assert_eq!(set_font(2000), FontSize::Normal);
    assert_eq!(set_font(2001), FontSize::Big);
    assert_eq!(
        (FontSize::Small.pixels(), FontSize::Normal.pixels(), FontSize::Big.pixels()),
        (11, 18, 24)
    );
}

#[test]
fn fonts_are_tried_in_order() {
    let names: Vec<&str> = (0..FONT_CANDIDATES).map(font_candidate).collect();
    assert_eq!(
        names,
        vec!["dengb.ttf", "deng.ttf", "msyh.ttc", "msjhbd.ttc", "msjh.ttc", "simsun.ttc", "mingliub.ttc"]
    );
    assert_eq!(first_loaded(&vec![false, false, true, true]), Some(2));
    assert_eq!(first_loaded(&vec![true]), Some(0));
    assert_eq!(first_loaded(&vec![false, false]), None);
    assert_eq!(first_loaded(&vec![]), None);
    assert_eq!(font_directory(Some("D:\\Win"), true), "D:\\Win/Fonts");
    assert_eq!(font_directory(Some("D:\\Win"), false), "C:\\Windows\\Fonts");
    assert_eq!(font_directory(None, true), "C:\\Windows\\Fonts");
}
