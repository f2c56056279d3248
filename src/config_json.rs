use vstd::prelude::*;

use crate::config_manager::{default_name, ConfigModel, ProfileView, opt_view};
use crate::fan_curve::{clamp_percent, clamp_speed, FanMode};
use crate::gpu_device::{GpuConfig, NvidiaConfig, DEFAULT_FAN_UPDATE_INTERVAL_MS};
use crate::named_table::{all_present, first_wins, seq_map, unique_names, unwrap_values};

verus! {

/// A device binding of the configuration document.
#[derive(Debug, Clone)]
pub struct GpuJson {
    pub uuid: String,
    pub profile: String,
}

/// The fan mode of a profile record: exactly one flag must be set, and a
/// manual mode needs a speed.
#[derive(Debug, Clone, Copy, PartialEq, Eq, Structural)]
pub struct FanModeJson {
    pub auto: Option<bool>,
    pub curve: Option<bool>,
    pub manual: Option<bool>,
    pub manual_speed: Option<u8>,
}

/// A profile record of the configuration document.
#[derive(Debug)]
pub struct ProfileJson {
    pub name: String,
    pub fan_mode: FanModeJson,
    pub fan_curve: Option<String>,
    pub config: Option<String>,
    /// Interval between two fan updates, in ms.
    pub update_interval_ms: Option<u64>,
}

/// A fan-curve record of the configuration document.
#[derive(Debug)]
pub struct FanCurveJson {
    pub name: String,
    pub points: Vec<(i32, u8)>,
    pub hysteresis_up: Option<u32>,
    pub hysteresis_down: Option<u32>,
}

/// The vendor part of a configuration record.
#[derive(Debug, Clone, Copy, PartialEq, Eq, Structural)]
pub struct NvidiaConfigJson {
    pub core_offset: Option<i32>,
    pub mem_offset: Option<i32>,
}

/// A configuration record of the configuration document.
#[derive(Debug)]
pub struct ConfigJson {
    pub name: String,
    pub power_limit: Option<u32>,
    pub nvidia: Option<NvidiaConfigJson>,
}

/// The configuration document: four lists of records.
#[derive(Debug)]
pub struct ConfigDocument {
    pub gpus: Vec<GpuJson>,
    pub profiles: Vec<ProfileJson>,
    pub fan_curves: Vec<FanCurveJson>,
    pub configs: Vec<ConfigJson>,
}

pub open spec fn flag(b: Option<bool>) -> bool {
    match b {
        Some(v) => v,
        None => false,
    }
}

/// The fan mode a record describes, if it is valid.
pub open spec fn fan_mode_of(j: FanModeJson) -> Option<FanMode> {
    let (a, c, m) = (flag(j.auto), flag(j.curve), flag(j.manual));
    if a && !c && !m {
        Some(FanMode::Auto)
    } else if !a && c && !m {
        Some(FanMode::Curve)
    } else if !a && !c && m {
        match j.manual_speed {
            Some(s) => Some(FanMode::Manual(clamp_percent(s as int) as u8)),
            None => None,
        }
    } else {
        None
    }
}

/// The record of a fan mode: its one flag set, the others absent.
pub open spec fn fan_mode_json_of(m: FanMode) -> FanModeJson {
    match m {
        FanMode::Auto => FanModeJson { auto: Some(true), curve: None, manual: None, manual_speed: None },
        FanMode::Curve => FanModeJson { auto: None, curve: Some(true), manual: None, manual_speed: None },
        FanMode::Manual(s) => FanModeJson { auto: None, curve: None, manual: Some(true), manual_speed: Some(s) },
    }
}

impl FanModeJson {
    /// Reads the fan mode of a record; a manual speed is clamped.
    pub fn to_fan_mode(&self) -> (r: Result<FanMode, crate::config_manager::ConfigError>)
        ensures
            r is Ok <==> fan_mode_of(*self) is Some,
            r is Ok ==> r->Ok_0 == fan_mode_of(*self).unwrap() && r->Ok_0.wf(),
            r is Err ==> r->Err_0 is Json,
    {
        let auto = match self.auto {
            Some(v) => v,
            None => false,
        };
        let curve = match self.curve {
            Some(v) => v,
            None => false,
        };
        let manual = match self.manual {
            Some(v) => v,
            None => false,
        };
        if auto && !curve && !manual {
            Ok(FanMode::Auto)
        } else if !auto && curve && !manual {
            Ok(FanMode::Curve)
        } else if !auto && !curve && manual {
            match self.manual_speed {
                Some(s) => Ok(FanMode::Manual(clamp_speed(s))),
                None => Err(crate::config_manager::ConfigError::Json {
                    reason: "Invalid fan mode: no fan speed for manual mode".to_owned(),
                }),
            }
        } else {
            Err(crate::config_manager::ConfigError::Json { reason: "Invalid fan mode".to_owned() })
        }
    }

    /// The record of a fan mode.
    pub fn from_fan_mode(mode: FanMode) -> (r: FanModeJson)
        ensures
            r == fan_mode_json_of(mode),
    {
        match mode {
            FanMode::Auto => FanModeJson { auto: Some(true), curve: None, manual: None, manual_speed: None },
            FanMode::Curve => FanModeJson { auto: None, curve: Some(true), manual: None, manual_speed: None },
            FanMode::Manual(s) => FanModeJson { auto: None, curve: None, manual: Some(true), manual_speed: Some(s) },
        }
    }
}

pub open spec fn gpu_entry(j: GpuJson) -> (Seq<char>, Option<Seq<char>>) {
    (j.uuid@, Some(j.profile@))
}

pub open spec fn profile_entry(j: ProfileJson) -> (Seq<char>, Option<ProfileView>) {
    (j.name@, match fan_mode_of(j.fan_mode) {
        Some(mode) => Some(ProfileView {
            fan_mode: mode,
            fan_curve: opt_view(j.fan_curve),
            config: opt_view(j.config),
            update_interval_ms: match j.update_interval_ms {
                Some(v) => v,
                None => DEFAULT_FAN_UPDATE_INTERVAL_MS,
            },
        }),
        None => None,
    })
}

pub open spec fn fan_curve_entry(j: FanCurveJson) -> (Seq<char>, Option<(Seq<(i32, u8)>, Option<u32>, Option<u32>)>) {
    (j.name@, Some((j.points@, j.hysteresis_down, j.hysteresis_up)))
}

pub open spec fn config_of(j: ConfigJson) -> GpuConfig {
    GpuConfig {
        nvidia_config: match j.nvidia {
            Some(n) => NvidiaConfig { core_clock_offset: n.core_offset, mem_clock_offset: n.mem_offset },
            None => NvidiaConfig { core_clock_offset: None, mem_clock_offset: None },
        },
        power_limit: j.power_limit,
    }
}

pub open spec fn config_entry(j: ConfigJson) -> (Seq<char>, Option<GpuConfig>) {
    (j.name@, Some(config_of(j)))
}

pub open spec fn gpu_entries(d: ConfigDocument) -> Seq<(Seq<char>, Option<Seq<char>>)> {
    d.gpus@.map_values(|j: GpuJson| gpu_entry(j))
}

pub open spec fn profile_entries(d: ConfigDocument) -> Seq<(Seq<char>, Option<ProfileView>)> {
    d.profiles@.map_values(|j: ProfileJson| profile_entry(j))
}

pub open spec fn fan_curve_entries(d: ConfigDocument) -> Seq<(Seq<char>, Option<(Seq<(i32, u8)>, Option<u32>, Option<u32>)>)> {
    d.fan_curves@.map_values(|j: FanCurveJson| fan_curve_entry(j))
}

pub open spec fn config_entries(d: ConfigDocument) -> Seq<(Seq<char>, Option<GpuConfig>)> {
    d.configs@.map_values(|j: ConfigJson| config_entry(j))
}

/// The configuration after reading a document into `m`: in each list the
/// first record of a name wins over later ones and over what `m` already
/// holds, and a profile whose fan mode is invalid is dropped.
pub open spec fn loaded_model(m: ConfigModel, d: ConfigDocument) -> ConfigModel {
    ConfigModel {
        gpus: first_wins(m.gpus, gpu_entries(d)),
        profiles: first_wins(m.profiles, profile_entries(d)),
        fan_curves: first_wins(m.fan_curves, fan_curve_entries(d)),
        configs: first_wins(m.configs, config_entries(d)),
    }
}

/// The records hold exactly the map: one readable record per name.
pub open spec fn describes<T>(entries: Seq<(Seq<char>, Option<T>)>, m: Map<Seq<char>, T>) -> bool {
    &&& all_present(entries)
    &&& unique_names(entries)
    &&& seq_map(unwrap_values(entries)) == m
}

/// A document that a configuration is saved as: every binding, curve and
/// configuration, and every profile but the default one.
pub open spec fn saves(m: ConfigModel, d: ConfigDocument) -> bool {
    &&& describes(gpu_entries(d), m.gpus)
    &&& describes(profile_entries(d), m.profiles.remove(default_name()))
    &&& describes(fan_curve_entries(d), m.fan_curves)
    &&& describes(config_entries(d), m.configs)
}

/// A valid fan mode reads back from its record unchanged.
pub proof fn lemma_fan_mode_json_round_trip(m: FanMode)
    requires
        m.wf(),
    ensures
        fan_mode_of(fan_mode_json_of(m)) == Some(m),
{
}

/// Saving a valid configuration and reading the saved document into a
/// fresh manager, which holds only the default profile, gives back the
/// same configuration.
pub proof fn lemma_save_load_round_trip(m: ConfigModel, d: ConfigDocument)
    requires
        crate::config_manager::valid_model(m),
        saves(m, d),
    ensures
        loaded_model(crate::config_manager::initial_model(), d) == m,
{
    let m0 = crate::config_manager::initial_model();
    crate::named_table::lemma_first_wins_fresh(m0.gpus, gpu_entries(d));
    assert(m0.gpus.union_prefer_right(m.gpus) =~= m.gpus);
    crate::named_table::lemma_first_wins_fresh(m0.fan_curves, fan_curve_entries(d));
    assert(m0.fan_curves.union_prefer_right(m.fan_curves) =~= m.fan_curves);
    crate::named_table::lemma_first_wins_fresh(m0.configs, config_entries(d));
    assert(m0.configs.union_prefer_right(m.configs) =~= m.configs);
    let pe = profile_entries(d);
    assert forall|i: int| 0 <= i < pe.len() implies !m0.profiles.contains_key(#[trigger] pe[i].0) by {
        let u = unwrap_values(pe);
        crate::named_table::lemma_seq_map_at(u, i);
        assert(u[i].0 == pe[i].0);
    }
    crate::named_table::lemma_first_wins_fresh(m0.profiles, pe);
    assert(m0.profiles.union_prefer_right(m.profiles.remove(default_name())) =~= m.profiles);
    assert(loaded_model(m0, d) =~= m);
}

} // verus!
