use rfc::menu::{rom_list, rom_name, sort_by_keys, Menu, RomEntry};
use std::path::PathBuf;

#[test]
fn menu_navigation() {
    let roms = vec![
        RomEntry { name: "Game A".into(), path: PathBuf::from("a.nes") },
        RomEntry { name: "Game B".into(), path: PathBuf::from("b.nes") },
        RomEntry { name: "Game C".into(), path: PathBuf::from("c.nes") },
    ];
    let mut menu = Menu::new(roms);

    assert_eq!(menu.selected, 0);
    menu.move_down();
    assert_eq!(menu.selected, 1);
    menu.move_down();
    assert_eq!(menu.selected, 2);
    menu.move_down(); // Should clamp
    assert_eq!(menu.selected, 2);
    menu.move_up();
    assert_eq!(menu.selected, 1);
    menu.move_up();
    assert_eq!(menu.selected, 0);
    menu.move_up(); // Should clamp
    assert_eq!(menu.selected, 0);
}

#[test]
fn selected_rom_returns_correct_entry() {
    let roms = vec![
        RomEntry { name: "A".into(), path: PathBuf::from("a.nes") },
        RomEntry { name: "B".into(), path: PathBuf::from("b.nes") },
    ];
    let mut menu = Menu::new(roms);
    assert_eq!(menu.selected_rom().unwrap().name, "A");
    menu.move_down();
    assert_eq!(menu.selected_rom().unwrap().name, "B");
}

#[test]
fn empty_menu_selects_nothing() {
    let mut menu = Menu::new(Vec::new());
    menu.move_down();
    menu.move_up();
    assert_eq!(menu.selected, 0);
    assert!(menu.selected_rom().is_none());
}

#[test]
fn rom_names_need_a_nes_extension() {
    assert_eq!(rom_name("Zelda.nes"), Some("Zelda".to_string()));
    assert_eq!(rom_name("Metroid.NeS"), Some("Metroid".to_string()));
    assert_eq!(rom_name("a.b.nes"), Some("a.b".to_string()));
    assert_eq!(rom_name(".nes"), None);
    assert_eq!(rom_name("notes.txt"), None);
    assert_eq!(rom_name("nes"), None);
    assert_eq!(rom_name("game.nes."), None);
    assert_eq!(rom_name("game.ness"), None);
}

#[test]
fn rom_list_filters_and_sorts_case_insensitively() {
    let files = vec![
        ("zelda.nes".to_string(), PathBuf::from("/r/zelda.nes")),
        ("readme.txt".to_string(), PathBuf::from("/r/readme.txt")),
        ("Contra.NES".to_string(), PathBuf::from("/r/Contra.NES")),
        ("b.nes".to_string(), PathBuf::from("/r/b.nes")),
        ("B.nes".to_string(), PathBuf::from("/r/B.nes")),
        ("ábc.nes".to_string(), PathBuf::from("/r/ábc.nes")),
    ];
    let list = rom_list(files);
    let names: Vec<&str> = list.iter().map(|e| e.name.as_str()).collect();
    assert_eq!(names, vec!["b", "B", "Contra", "zelda", "ábc"]);
    assert_eq!(list[0].path, PathBuf::from("/r/b.nes"));
    assert_eq!(list[1].path, PathBuf::from("/r/B.nes"));
}

fn entries(names: &[&str]) -> Vec<RomEntry> {
    names
        .iter()
        .map(|n| RomEntry { name: n.to_string(), path: PathBuf::from(format!("{n}.nes")) })
        .collect()
}

#[test]
fn empty_menu_texts_explain_what_to_do() {
    let menu = Menu::new(Vec::new());
    let texts = menu.render_texts();
    let lines: Vec<(&str, usize, usize)> =
        texts.iter().map(|t| (t.text.as_str(), t.x, t.y)).collect();
    assert_eq!(
        lines,
        vec![
            ("RFC - NES EMULATOR", 40, 16),
            ("NO ROMS FOUND", 64, 100),
            ("PUT .NES FILES IN", 48, 120),
            ("THE ROMS DIRECTORY", 44, 132),
            ("UP/DOWN:SELECT ENTER:PLAY", 16, 226),
        ]
    );
    assert_eq!(texts[0].color, [236, 238, 236]);
    assert_eq!(texts[1].color, [152, 150, 152]);
    assert_eq!(texts[4].color, [76, 154, 236]);
}

#[test]
fn menu_texts_mark_selection_and_scroll() {
    let names: Vec<String> = (0..20).map(|i| format!("Game {i}")).collect();
    let refs: Vec<&str> = names.iter().map(|s| s.as_str()).collect();
    let mut menu = Menu::new(entries(&refs));
    let texts = menu.render_texts();
    assert_eq!(texts.len(), 1 + 18 + 1);
    assert_eq!(texts[1].text, "> Game 0");
    assert_eq!(texts[1].color, [236, 238, 236]);
    assert_eq!(texts[2].text, "  Game 1");
    assert_eq!(texts[2].y, 46);
    for _ in 0..19 {
        menu.move_down();
    }
    let texts = menu.render_texts();
    assert_eq!(texts.len(), 1 + 18 + 1);
    assert_eq!(texts[1].text, "  Game 2");
    assert_eq!(texts[18].text, "> Game 19");
    assert_eq!(texts[18].y, 36 + 17 * 10);
}

#[test]
fn long_names_are_cut_to_28_bytes() {
    let long = "A Very Long Game Title That Does Not Fit";
    let menu = Menu::new(entries(&[long, "éééééééééééééééééé"]));
    let texts = menu.render_texts();
    assert_eq!(texts[1].text, format!("> {}", &long[..28]));
    assert_eq!(texts[2].text, format!("  {}", "é".repeat(14)));
}

#[test]
fn sort_by_keys_orders_by_given_keys_and_keeps_ties() {
    let e = |n: &str| RomEntry { name: n.to_string(), path: PathBuf::from(n) };
    let sorted = sort_by_keys(vec![
        (e("x"), "m".to_string()),
        (e("y"), "b".to_string()),
        (e("z"), "m".to_string()),
        (e("w"), "a".to_string()),
        (e("v"), "ab".to_string()),
    ]);
    let names: Vec<&str> = sorted.iter().map(|r| r.name.as_str()).collect();
    assert_eq!(names, vec!["w", "v", "y", "x", "z"]);
}

#[test]
fn menu_render_does_not_panic() {
    let roms = vec![RomEntry { name: "Test ROM".into(), path: PathBuf::from("test.nes") }];
    let mut menu = Menu::new(roms);
    let buf = menu.render();
    assert_eq!(buf.len(), 256 * 240 * 4);
}

#[test]
fn menu_empty_render() {
    let mut menu = Menu::new(Vec::new());
    let buf = menu.render();
    assert_eq!(buf.len(), 256 * 240 * 4);
}

#[test]
fn render_paints_dark_blue_background() {
    let mut menu = Menu::new(Vec::new());
    let buf = menu.render();
    assert_eq!(&buf[0..8], &[0, 0, 40, 255, 0, 0, 40, 255]);
    assert!(buf.chunks(4).all(|p| p == [0, 0, 40, 255]));
}
