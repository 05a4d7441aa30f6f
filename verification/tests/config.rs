use vivid::config::{Config, Program, VideoMode};

fn program(exe_name: &str, vibrance: u8, fullscreen_only: Option<bool>) -> Program {
    Program { exe_name: exe_name.to_string(), vibrance, fullscreen_only, resolution: None }
}

fn code_config() -> Config {
    Config::new(50, None, vec![program("Code.exe", 90, None)])
}

#[test]
fn lookup_finds_the_configured_program() {
    let config = code_config();
    assert_eq!(config.vibrance_for_program("Code.exe"), Some((90, false)));
    assert_eq!(config.policy("Code.exe"), (90, false));
}

#[test]
fn lookup_falls_back_to_the_desktop() {
    let config = code_config();
    assert_eq!(config.vibrance_for_program("explorer.exe"), None);
    assert_eq!(config.policy("explorer.exe"), (50, false));
    assert_eq!(config.default_vibrance(), 50);
}

#[test]
fn first_of_two_entries_with_one_name_wins() {
    let config = Config::new(
        40,
        None,
        vec![
            program("other.exe", 10, None),
            program("game.exe", 70, Some(true)),
            program("game.exe", 20, Some(false)),
        ],
    );
    assert_eq!(config.vibrance_for_program("game.exe"), Some((70, true)));
    assert_eq!(config.vibrance_for_program("other.exe"), Some((10, false)));
}

#[test]
fn names_are_compared_with_their_case() {
    let config = code_config();
    assert_eq!(config.vibrance_for_program("code.exe"), None);
    assert_eq!(config.vibrance_for_program("CODE.EXE"), None);
    assert_eq!(config.vibrance_for_program("Code.exe "), None);
    assert_eq!(config.vibrance_for_program("Code"), None);
    assert_eq!(config.vibrance_for_program(""), None);
}

#[test]
fn fullscreen_only_defaults_to_false() {
    let config = Config::new(
        0,
        None,
        vec![program("a", 1, None), program("b", 2, Some(false)), program("c", 3, Some(true))],
    );
    assert_eq!(config.vibrance_for_program("a"), Some((1, false)));
    assert_eq!(config.vibrance_for_program("b"), Some((2, false)));
    assert_eq!(config.vibrance_for_program("c"), Some((3, true)));
}

#[test]
fn the_desktop_is_never_restricted_to_fullscreen() {
    let config = Config::new(33, None, vec![program("c", 3, Some(true))]);
    assert_eq!(config.policy("anything.exe"), (33, false));
    assert_eq!(config.policy("c"), (3, true));
}

#[test]
fn an_empty_configuration_knows_no_program() {
    let config = Config::new(12, None, Vec::new());
    assert_eq!(config.vibrance_for_program("Code.exe"), None);
    assert_eq!(config.policy("Code.exe"), (12, false));
}

#[test]
fn the_default_configuration() {
    let config = Config::default();
    assert_eq!(config.default_vibrance(), 50);
    assert_eq!(config.resolution(), None);
    assert_eq!(config.vibrance_for_program("sample_program.exe"), None);
    assert_eq!(config, Config::new(50, None, Vec::new()));
}

#[test]
fn the_sample_configuration_keeps_the_current_vibrance() {
    let config = Config::sample(64);
    assert_eq!(config.default_vibrance(), 64);
    assert_eq!(config.resolution(), None);
    assert_eq!(config.vibrance_for_program("sample_program.exe"), Some((64, false)));
    assert_eq!(
        config,
        Config::new(
            64,
            None,
            vec![Program {
                exe_name: "sample_program.exe".to_string(),
                vibrance: 64,
                fullscreen_only: Some(false),
                resolution: None,
            }]
        )
    );
}

#[test]
fn a_configuration_keeps_its_resolution() {
    let mode = VideoMode { width: 1920, height: 1080, freq: 144 };
    let config = Config::new(50, Some(mode), Vec::new());
    assert_eq!(config.resolution(), Some(mode));
}

#[test]
fn a_configuration_keeps_its_programs_in_order() {
    let programs = vec![program("b.exe", 2, Some(true)), program("a.exe", 1, None)];
    let config = Config::new(7, None, programs.clone());
    assert_eq!(config.program_settings(), &programs);
    assert_eq!(Config::default().program_settings(), &Vec::new());
}
