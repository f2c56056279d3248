use mossd::config_json::{ConfigDocument, ConfigJson, FanCurveJson, FanModeJson, GpuJson, NvidiaConfigJson, ProfileJson};
use mossd::config_manager::{ConfigError, ConfigManager, ConfigMessage, ConfigMessageAnswer, ProfileData};
use mossd::fan_curve::{FanCurveInfo, FanMode};
use mossd::gpu_device::{GpuConfig, NvidiaConfig};

fn s(v: &str) -> String {
    v.to_string()
}

fn empty_document() -> ConfigDocument {
    ConfigDocument { gpus: vec![], profiles: vec![], fan_curves: vec![], configs: vec![] }
}

fn mode_json(auto: Option<bool>, curve: Option<bool>, manual: Option<bool>, speed: Option<u8>) -> FanModeJson {
    FanModeJson { auto, curve, manual, manual_speed: speed }
}

fn profile_json(name: &str, mode: FanModeJson, curve: Option<&str>, config: Option<&str>, interval: Option<u64>) -> ProfileJson {
    ProfileJson {
        name: s(name),
        fan_mode: mode,
        fan_curve: curve.map(s),
        config: config.map(s),
        update_interval_ms: interval,
    }
}

#[test]
fn manual_speed_is_clamped_when_stored() {
    let mut cm = ConfigManager::new(s("config.json"));
    assert!(cm.set_profile_fan_mode(s("loud"), FanMode::Manual(250)).is_ok());
    cm.assign_profile(s("GPU-1"), s("loud"));
    assert_eq!(cm.get_fan_mode(&s("GPU-1")), FanMode::Manual(100));
}

#[test]
fn default_profile_is_protected() {
    let mut cm = ConfigManager::new(s("config.json"));
    let r = cm.set_profile_fan_mode(s("default"), FanMode::Curve);
    assert!(matches!(r, Err(ConfigError::Modify { .. })));
    let r = cm.set_profile_fan_mode(s("default"), FanMode::Auto);
    assert!(matches!(r, Err(ConfigError::Modify { .. })));
    assert!(matches!(cm.set_profile_fan_curve(s("default"), Some(s("c"))), Err(ConfigError::Modify { .. })));
    assert!(matches!(cm.set_profile_update_interval(s("default"), 5), Err(ConfigError::Modify { .. })));
    assert!(matches!(cm.set_profile_config(s("default"), None), Err(ConfigError::Modify { .. })));
    assert_eq!(cm.get_fan_mode(&s("any")), FanMode::Auto);
    assert_eq!(cm.get_fan_update_interval(&s("any")), Some(3000));
    assert!(cm.get_fan_curve(&s("any")).is_none());
    assert!(cm.get_config(&s("any")).is_none());
}

#[test]
fn save_omits_default_profile() {
    let mut cm = ConfigManager::new(s("config.json"));
    cm.load_document(&empty_document());
    let doc = cm.to_document();
    assert!(doc.profiles.iter().all(|p| p.name != "default"));
    assert!(doc.profiles.is_empty());
    assert!(doc.gpus.is_empty());
    assert!(doc.fan_curves.is_empty());
    assert!(doc.configs.is_empty());
}

#[test]
fn resolution_falls_back_to_default() {
    let mut cm = ConfigManager::new(s("config.json"));
    cm.assign_profile(s("GPU-1"), s("missing"));
    let p = cm.get_profile(&s("GPU-1")).unwrap();
    assert_eq!(p.fan_mode, FanMode::Auto);
    assert_eq!(p.update_interval_ms, 3000);
    let p = cm.get_profile(&s("GPU-unknown")).unwrap();
    assert!(p.fan_curve.is_none());
}

#[test]
fn resolution_follows_names() {
    let mut cm = ConfigManager::new(s("config.json"));
    cm.set_fan_curve(s("quiet"), FanCurveInfo { points: vec![(30, 20), (80, 90)], lower_threshold: Some(2), upper_threshold: None });
    let cfg = GpuConfig { nvidia_config: NvidiaConfig { core_clock_offset: Some(100), mem_clock_offset: None }, power_limit: Some(200000) };
    cm.set_config(s("oc"), cfg);
    assert!(cm.set_profile_fan_mode(s("p"), FanMode::Curve).is_ok());
    assert!(cm.set_profile_fan_curve(s("p"), Some(s("quiet"))).is_ok());
    assert!(cm.set_profile_config(s("p"), Some(s("oc"))).is_ok());
    assert!(cm.set_profile_update_interval(s("p"), 1500).is_ok());
    cm.assign_profile(s("GPU-1"), s("p"));
    assert_eq!(cm.get_fan_mode(&s("GPU-1")), FanMode::Curve);
    let c = cm.get_fan_curve(&s("GPU-1")).unwrap();
    assert_eq!(c.points, vec![(30, 20), (80, 90)]);
    assert_eq!(c.lower_threshold, Some(2));
    assert_eq!(c.upper_threshold, None);
    assert_eq!(cm.get_config(&s("GPU-1")), Some(cfg));
    assert_eq!(cm.get_fan_update_interval(&s("GPU-1")), Some(1500));
    assert!(cm.set_profile_fan_curve(s("p"), Some(s("nothing"))).is_ok());
    assert!(cm.get_fan_curve(&s("GPU-1")).is_none());
}

#[test]
fn new_profile_starts_from_defaults() {
    let mut cm = ConfigManager::new(s("config.json"));
    assert!(cm.set_profile_fan_curve(s("fresh"), Some(s("c"))).is_ok());
    cm.assign_profile(s("GPU-2"), s("fresh"));
    assert_eq!(cm.get_fan_mode(&s("GPU-2")), FanMode::Auto);
    assert_eq!(cm.get_fan_update_interval(&s("GPU-2")), Some(3000));
}

#[test]
fn get_messages_are_answered() {
    let mut cm = ConfigManager::new(s("config.json"));
    assert!(cm.handle_set_message(ConfigMessage::SetProfileFanMode { profile: s("p"), mode: FanMode::Manual(30) }).is_ok());
    assert!(cm.handle_set_message(ConfigMessage::AssignProfile { uuid: s("GPU-1"), profile: s("p") }).is_ok());
    match cm.handle_get_message(&ConfigMessage::GetFanMode { uuid: s("GPU-1") }) {
        Ok(ConfigMessageAnswer::FanMode(m)) => assert_eq!(m, FanMode::Manual(30)),
        other => panic!("unexpected answer {:?}", other),
    }
    match cm.handle_get_message(&ConfigMessage::GetFanUpdateInterval { uuid: s("GPU-1") }) {
        Ok(ConfigMessageAnswer::FanUpdateInterval(v)) => assert_eq!(v, Some(3000)),
        other => panic!("unexpected answer {:?}", other),
    }
    let r = cm.handle_get_message(&ConfigMessage::AssignProfile { uuid: s("x"), profile: s("y") });
    assert!(matches!(r, Err(ConfigError::Get { .. })));
    let r = cm.handle_set_message(ConfigMessage::GetConfig { uuid: s("x") });
    assert!(matches!(r, Err(ConfigError::Modify { .. })));
    let r = cm.handle_set_message(ConfigMessage::SetProfileFanMode { profile: s("default"), mode: FanMode::Curve });
    assert!(matches!(r, Err(ConfigError::Modify { .. })));
}

#[test]
fn fan_mode_records() {
    assert_eq!(mode_json(Some(true), None, None, None).to_fan_mode().unwrap(), FanMode::Auto);
    assert_eq!(mode_json(Some(false), Some(true), None, None).to_fan_mode().unwrap(), FanMode::Curve);
    assert_eq!(mode_json(None, None, Some(true), Some(40)).to_fan_mode().unwrap(), FanMode::Manual(40));
    assert_eq!(mode_json(None, None, Some(true), Some(140)).to_fan_mode().unwrap(), FanMode::Manual(100));
    assert!(matches!(mode_json(None, None, Some(true), None).to_fan_mode(), Err(ConfigError::Json { .. })));
    assert!(matches!(mode_json(Some(true), Some(true), None, None).to_fan_mode(), Err(ConfigError::Json { .. })));
    assert!(matches!(mode_json(None, None, None, None).to_fan_mode(), Err(ConfigError::Json { .. })));
    assert_eq!(FanModeJson::from_fan_mode(FanMode::Manual(20)), mode_json(None, None, Some(true), Some(20)));
}

#[test]
fn load_keeps_first_definition() {
    let doc = ConfigDocument {
        gpus: vec![
            GpuJson { uuid: s("GPU-1"), profile: s("a") },
            GpuJson { uuid: s("GPU-1"), profile: s("b") },
        ],
        profiles: vec![
            profile_json("default", mode_json(None, Some(true), None, None), None, None, None),
            profile_json("a", mode_json(None, None, Some(true), Some(55)), Some("c1"), None, Some(2000)),
            profile_json("a", mode_json(Some(true), None, None, None), None, None, None),
            profile_json("bad", mode_json(Some(true), Some(true), None, None), None, None, None),
        ],
        fan_curves: vec![
            FanCurveJson { name: s("c1"), points: vec![(20, 10)], hysteresis_up: Some(4), hysteresis_down: Some(1) },
            FanCurveJson { name: s("c1"), points: vec![(90, 90)], hysteresis_up: None, hysteresis_down: None },
        ],
        configs: vec![
            ConfigJson { name: s("k"), power_limit: None, nvidia: None },
        ],
    };
    let mut cm = ConfigManager::new(s("config.json"));
    cm.load_document(&doc);
    assert_eq!(cm.get_fan_mode(&s("GPU-1")), FanMode::Manual(55));
    assert_eq!(cm.get_fan_update_interval(&s("GPU-1")), Some(2000));
    let c = cm.get_fan_curve(&s("GPU-1")).unwrap();
    assert_eq!(c.points, vec![(20, 10)]);
    assert_eq!(c.lower_threshold, Some(1));
    assert_eq!(c.upper_threshold, Some(4));
    assert_eq!(cm.get_fan_mode(&s("GPU-other")), FanMode::Auto);
    cm.assign_profile(s("GPU-3"), s("bad"));
    assert_eq!(cm.get_fan_mode(&s("GPU-3")), FanMode::Auto);
    let out = cm.to_document();
    assert_eq!(out.gpus.len(), 2);
    assert_eq!(out.profiles.len(), 1);
    assert_eq!(out.fan_curves.len(), 1);
    assert_eq!(out.configs.len(), 1);
    assert_eq!(out.configs[0].nvidia, Some(NvidiaConfigJson { core_offset: None, mem_offset: None }));
}

#[test]
fn save_then_load_gives_the_same_configuration() {
    let mut cm = ConfigManager::new(s("config.json"));
    assert!(cm.set_profile_fan_mode(s("p"), FanMode::Manual(70)).is_ok());
    assert!(cm.set_profile_fan_curve(s("p"), Some(s("c"))).is_ok());
    assert!(cm.set_profile_config(s("p"), Some(s("k"))).is_ok());
    assert!(cm.set_profile_update_interval(s("p"), 2500).is_ok());
    assert!(cm.set_profile_fan_mode(s("q"), FanMode::Curve).is_ok());
    cm.set_fan_curve(s("c"), FanCurveInfo { points: vec![(10, 5), (95, 100)], lower_threshold: None, upper_threshold: Some(3) });
    let cfg = GpuConfig { nvidia_config: NvidiaConfig { core_clock_offset: Some(-50), mem_clock_offset: Some(300) }, power_limit: None };
    cm.set_config(s("k"), cfg);
    cm.assign_profile(s("GPU-1"), s("p"));
    cm.assign_profile(s("GPU-2"), s("q"));
    let doc = cm.to_document();
    let mut back = ConfigManager::new(s("other.json"));
    back.load_document(&doc);
    for uuid in ["GPU-1", "GPU-2", "GPU-3"] {
        let u = s(uuid);
        assert_eq!(back.get_fan_mode(&u), cm.get_fan_mode(&u));
        assert_eq!(back.get_fan_update_interval(&u), cm.get_fan_update_interval(&u));
        assert_eq!(back.get_config(&u), cm.get_config(&u));
        let a = back.get_fan_curve(&u).map(|c| (c.points, c.lower_threshold, c.upper_threshold));
        let b = cm.get_fan_curve(&u).map(|c| (c.points, c.lower_threshold, c.upper_threshold));
        assert_eq!(a, b);
    }
    assert_eq!(back.to_document().profiles.len(), 2);
}

#[test]
fn profile_records_convert_both_ways() {
    let p = ProfileData::from_json(&profile_json("x", mode_json(None, Some(true), None, None), Some("c"), None, None)).unwrap();
    assert_eq!(p.fan_mode, FanMode::Curve);
    assert_eq!(p.fan_curve, Some(s("c")));
    assert_eq!(p.update_interval_ms, 3000);
    let j = p.to_json(&s("x"));
    assert_eq!(j.name, "x");
    assert_eq!(j.update_interval_ms, Some(3000));
    assert_eq!(j.fan_mode, mode_json(None, Some(true), None, None));
    assert!(matches!(
        ProfileData::from_json(&profile_json("y", mode_json(None, None, None, None), None, None, None)),
        Err(ConfigError::Json { .. })
    ));
}

#[test]
fn config_path_is_kept() {
    let cm = ConfigManager::new(s("/etc/moss/config.json"));
    assert_eq!(cm.config_path(), "/etc/moss/config.json");
}
