use retrovert_core::services::SBool;
use retrovert_core::services::SInteger;
use retrovert_core::services::SettingsResult;
use retrovert_core::settings::Setting;
use retrovert_core::settings::SettingValue;
use retrovert_core::settings::Settings;

fn integer(id: &str, value: i32) -> Setting {
    Setting {
        widget_id: id.to_string(),
        value: SettingValue::Integer(SInteger { value, start_range: 0, end_range: 100 }),
    }
}

fn boolean(id: &str, value: bool) -> Setting {
    Setting { widget_id: id.to_string(), value: SettingValue::Boolean(SBool { value }) }
}

fn text(id: &str, value: &str) -> Setting {
    Setting { widget_id: id.to_string(), value: SettingValue::Text(value.to_string()) }
}

fn sample() -> Settings {
    let mut settings = Settings::new();
    let table = vec![integer("volume", 7), boolean("loop", true), text("skin", "dark")];
    let r = settings.reg("modplayer", table);
    assert!(matches!(r, SettingsResult::Okay));
    settings
}

#[test]
fn registered_values_read_back_typed() {
    let mut settings = sample();
    let volume = settings.get_int("modplayer", "", "volume");
    assert!(matches!(volume.result, SettingsResult::Okay));
    assert_eq!(volume.value, 7);
    let looped = settings.get_bool("modplayer", "", "loop");
    assert!(matches!(looped.result, SettingsResult::Okay));
    assert!(looped.value);
    let skin = settings.get_string("modplayer", "", "skin");
    assert!(matches!(skin.result, SettingsResult::Okay));
    assert_eq!(skin.value, "dark");
}

#[test]
fn a_read_of_the_wrong_type_is_refused() {
    let mut settings = sample();
    let r = settings.get_int("modplayer", "", "loop");
    assert!(matches!(r.result, SettingsResult::WrongType));
    assert_eq!(r.value, 0);
    let r = settings.get_bool("modplayer", "", "skin");
    assert!(matches!(r.result, SettingsResult::WrongType));
    assert!(!r.value);
    let r = settings.get_string("modplayer", "", "volume");
    assert!(matches!(r.result, SettingsResult::WrongType));
    assert_eq!(r.value, "");
}

#[test]
fn missing_ids_and_names_answer_not_found() {
    let mut settings = sample();
    let r = settings.get_int("modplayer", "", "balance");
    assert!(matches!(r.result, SettingsResult::NotFound));
    let r = settings.get_int("otherplugin", "", "volume");
    assert!(matches!(r.result, SettingsResult::NotFound));
    let r = settings.get_string("otherplugin", "", "skin");
    assert!(matches!(r.result, SettingsResult::NotFound));
    assert_eq!(r.value, "");
}

#[test]
fn a_name_registers_once() {
    let mut settings = sample();
    let r = settings.reg("modplayer", vec![integer("volume", 9)]);
    assert!(matches!(r, SettingsResult::DuplicatedId));
    // the first registration stands
    let volume = settings.get_int("modplayer", "", "volume");
    assert_eq!(volume.value, 7);
    // another name is free
    let r = settings.reg("wavplayer", vec![integer("gain", 3)]);
    assert!(matches!(r, SettingsResult::Okay));
    assert_eq!(settings.get_int("wavplayer", "", "gain").value, 3);
}

#[test]
fn the_first_setting_with_an_id_wins() {
    let mut settings = Settings::new();
    let table = vec![integer("volume", 1), integer("volume", 2)];
    let _ = settings.reg("p", table);
    assert_eq!(settings.get_int("p", "", "volume").value, 1);
}
