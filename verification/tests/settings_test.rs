use monad_quad::data::one_shot::OneShot;
use monad_quad::settings::{resolution, Settings, RESOLUTION_COUNT};

#[test]
fn absent_settings_fall_back_to_the_default() {
    let settings = Settings::read_or_default(None);
    assert!(!settings.is_fullscreen);
    assert_eq!(settings.selected_size, 0);
}

#[test]
fn parsed_settings_are_taken_as_they_are() {
    let loaded = Settings { is_fullscreen: true, selected_size: 2 };
    assert_eq!(Settings::read_or_default(Some(loaded)), loaded);
}

#[test]
fn out_of_table_selection_falls_back_to_the_default() {
    let loaded = Settings { is_fullscreen: true, selected_size: 99 };
    let settings = Settings::read_or_default(Some(loaded));
    assert_eq!(settings, Settings { is_fullscreen: false, selected_size: 0 });
}

#[test]
fn applying_unchanged_settings_saves_nothing() {
    let mut settings = Settings { is_fullscreen: false, selected_size: 1 };
    let action = settings.apply_new_settings(Settings { is_fullscreen: false, selected_size: 1 });
    assert!(!action.save);
    assert_eq!(action.resize_to, None);
}

#[test]
fn changing_the_resolution_resizes_and_saves() {
    let mut settings = Settings { is_fullscreen: false, selected_size: 0 };
    let action = settings.apply_new_settings(Settings { is_fullscreen: false, selected_size: 1 });
    assert!(action.save);
    assert_eq!(action.resize_to, Some((1_920_000_000, 1_080_000_000)));
    assert_eq!(settings.selected_size, 1);
}

#[test]
fn toggling_fullscreen_saves_without_resizing() {
    let mut settings = Settings { is_fullscreen: false, selected_size: 0 };
    let action = settings.apply_new_settings(Settings { is_fullscreen: true, selected_size: 0 });
    assert!(action.save);
    assert_eq!(action.resize_to, None);
    assert!(settings.is_fullscreen);
}

#[test]
fn the_resolution_table_is_fixed() {
    assert_eq!(RESOLUTION_COUNT, 5);
    let ((w, h), name) = resolution(0);
    assert_eq!((w, h), (1_280_000_000, 720_000_000));
    assert_eq!(name, "1280 x 720 (720p)");
    let ((w4, h4), _) = resolution(3);
    assert_eq!((w4, h4), (3_840_000_000, 2_160_000_000));
}

#[test]
fn current_settings_name_their_window_size() {
    let settings = Settings { is_fullscreen: false, selected_size: 4 };
    assert_eq!(settings.apply_current_settings(), (7_680_000_000, 4_320_000_000));
}

#[test]
fn one_shot_hands_its_value_out_once() {
    let mut slot = OneShot::new_from(5i64);
    assert!(slot.has_data());
    assert_eq!(slot.peak(), Some(&5));
    assert_eq!(slot.get_data(), Some(5));
    assert!(!slot.has_data());
    assert_eq!(slot.get_data(), None);

    slot.set_data(9);
    let mut other = OneShot::new();
    other.merge_from(slot);
    assert_eq!(other.get_data(), Some(9));
}
