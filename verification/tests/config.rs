use gl_text_pipe::config::{gl_config_picker, ConfigTraits};

fn cfg(supports_transparency: Option<bool>, num_samples: u8) -> ConfigTraits {
    ConfigTraits { supports_transparency, num_samples }
}

#[test]
fn single_config_is_picked() {
    assert_eq!(gl_config_picker(&vec![cfg(None, 0)]), 0);
}

#[test]
fn more_samples_win() {
    let configs = vec![cfg(Some(false), 0), cfg(Some(false), 4), cfg(Some(false), 2)];
    assert_eq!(gl_config_picker(&configs), 1);
}

#[test]
fn equal_configs_keep_the_first() {
    let configs = vec![cfg(Some(true), 4), cfg(Some(true), 4), cfg(Some(true), 4)];
    assert_eq!(gl_config_picker(&configs), 0);
}

#[test]
fn transparency_wins_over_more_samples() {
    let configs = vec![cfg(Some(false), 8), cfg(Some(true), 0)];
    assert_eq!(gl_config_picker(&configs), 1);
}

#[test]
fn more_samples_win_over_held_transparency() {
    let configs = vec![cfg(Some(true), 0), cfg(Some(false), 8)];
    assert_eq!(gl_config_picker(&configs), 1);
}

#[test]
fn unknown_transparency_counts_as_none() {
    let configs = vec![cfg(Some(false), 2), cfg(None, 2)];
    assert_eq!(gl_config_picker(&configs), 0);
    let configs = vec![cfg(None, 2), cfg(Some(true), 0)];
    assert_eq!(gl_config_picker(&configs), 1);
    let configs = vec![cfg(Some(true), 2), cfg(None, 2)];
    assert_eq!(gl_config_picker(&configs), 0);
}

#[test]
fn pick_depends_on_the_order() {
    let a = cfg(Some(true), 0);
    let b = cfg(Some(false), 8);
    let c = cfg(Some(true), 4);
    assert_eq!(gl_config_picker(&vec![a, b, c]), 2);
    assert_eq!(gl_config_picker(&vec![c, b, a]), 2);
    assert_eq!(gl_config_picker(&vec![b, c, a]), 1);
    assert_eq!(gl_config_picker(&vec![b, a, c]), 2);
}

#[test]
fn later_config_is_never_preferred_to_the_pick() {
    let configs = vec![
        cfg(None, 0),
        cfg(Some(false), 2),
        cfg(Some(true), 1),
        cfg(Some(true), 16),
        cfg(None, 16),
        cfg(Some(false), 4),
    ];
    let choice = gl_config_picker(&configs);
    assert_eq!(choice, 3);
    let held = configs[choice];
    for candidate in &configs[choice + 1..] {
        let gains = candidate.supports_transparency == Some(true)
            && held.supports_transparency != Some(true);
        assert!(!(gains || candidate.num_samples > held.num_samples));
    }
}
