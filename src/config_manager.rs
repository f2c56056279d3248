use vstd::prelude::*;

use crate::fan_curve::{FanCurveInfo, FanMode};
use crate::gpu_device::{GpuConfig, DEFAULT_FAN_UPDATE_INTERVAL_MS};
use crate::config_json::{
    config_entries, config_entry, describes, fan_curve_entries, fan_curve_entry, gpu_entries,
    gpu_entry, lemma_fan_mode_json_round_trip, loaded_model, profile_entries, profile_entry,
    saves, ConfigDocument, ConfigJson, FanCurveJson, FanModeJson, GpuJson, NvidiaConfigJson,
    ProfileJson,
};
use crate::fan_curve::copy_points;
use crate::gpu_device::NvidiaConfig;
use crate::named_table::{
    has_name, lemma_seq_map_at, lemma_seq_map_empty, lemma_seq_map_push, seq_map, unwrap_values,
    NamedTable,
};

verus! {

/// The name of the profile that always exists and cannot be changed.
pub const DEFAULT_PROFILE_NAME: &'static str = "default";

pub open spec fn default_name() -> Seq<char> {
    seq!['d', 'e', 'f', 'a', 'u', 'l', 't']
}

/// The default profile's name as an owned string.
pub fn default_profile_name() -> (r: String)
    ensures
        r@ == default_name(),
{
    proof {
        reveal_strlit("default");
    }
    let r = DEFAULT_PROFILE_NAME.to_owned();
    assert(r@ =~= default_name());
    r
}

/// A failure of a configuration operation.
#[derive(Debug, Clone)]
pub enum ConfigError {
    IO { file: String, reason: String },
    Json { reason: String },
    Modify { reason: String },
    Get { reason: String },
    TxError { reason: String },
}

/// The fan settings a profile bundles.
#[derive(Debug)]
pub struct ProfileData {
    pub fan_mode: FanMode,
    pub fan_curve: Option<String>,
    pub config: Option<String>,
    /// Interval between two fan updates, in ms.
    pub update_interval_ms: u64,
}

pub open spec fn opt_view(o: Option<String>) -> Option<Seq<char>> {
    match o {
        Some(s) => Some(s@),
        None => None,
    }
}

/// Copies an optional name.
pub fn copy_name(o: &Option<String>) -> (r: Option<String>)
    ensures
        opt_view(r) == opt_view(*o),
{
    match o {
        Some(s) => Some(s.clone()),
        None => None,
    }
}

/// The value of a profile.
pub struct ProfileView {
    pub fan_mode: FanMode,
    pub fan_curve: Option<Seq<char>>,
    pub config: Option<Seq<char>>,
    pub update_interval_ms: u64,
}

impl View for ProfileData {
    type V = ProfileView;

    open spec fn view(&self) -> ProfileView {
        ProfileView {
            fan_mode: self.fan_mode,
            fan_curve: opt_view(self.fan_curve),
            config: opt_view(self.config),
            update_interval_ms: self.update_interval_ms,
        }
    }
}

/// The settings of a profile that does not say otherwise: automatic fan
/// mode, no curve, no configuration, the default update interval.
pub open spec fn default_profile_view() -> ProfileView {
    ProfileView {
        fan_mode: FanMode::Auto,
        fan_curve: None,
        config: None,
        update_interval_ms: DEFAULT_FAN_UPDATE_INTERVAL_MS,
    }
}

impl ProfileData {
    pub fn default_profile() -> (r: ProfileData)
        ensures
            r@ == default_profile_view(),
    {
        ProfileData {
            fan_mode: FanMode::Auto,
            fan_curve: None,
            config: None,
            update_interval_ms: DEFAULT_FAN_UPDATE_INTERVAL_MS,
        }
    }

    pub fn duplicate(&self) -> (r: ProfileData)
        ensures
            r@ == self@,
    {
        ProfileData {
            fan_mode: self.fan_mode,
            fan_curve: copy_name(&self.fan_curve),
            config: copy_name(&self.config),
            update_interval_ms: self.update_interval_ms,
        }
    }
}

/// The configuration as four maps: device to profile name, and profiles,
/// curve descriptions and configurations by name.
pub struct ConfigModel {
    pub gpus: Map<Seq<char>, Seq<char>>,
    pub profiles: Map<Seq<char>, ProfileView>,
    pub fan_curves: Map<Seq<char>, (Seq<(i32, u8)>, Option<u32>, Option<u32>)>,
    pub configs: Map<Seq<char>, GpuConfig>,
}

/// The configuration before anything is loaded: only the default profile.
pub open spec fn initial_model() -> ConfigModel {
    ConfigModel {
        gpus: Map::empty(),
        profiles: Map::empty().insert(default_name(), default_profile_view()),
        fan_curves: Map::empty(),
        configs: Map::empty(),
    }
}

/// A configuration is valid when the default profile is there, unchanged,
/// and every manual speed is at most 100.
pub open spec fn valid_model(m: ConfigModel) -> bool {
    &&& m.profiles.contains_key(default_name())
    &&& m.profiles[default_name()] == default_profile_view()
    &&& forall|n: Seq<char>| #[trigger] m.profiles.contains_key(n) ==> m.profiles[n].fan_mode.wf()
}

/// The name of the profile that applies to a device: its assigned profile
/// when that exists, the default profile otherwise.
pub open spec fn resolved_name(m: ConfigModel, uuid: Seq<char>) -> Seq<char> {
    if m.gpus.contains_key(uuid) && m.profiles.contains_key(m.gpus[uuid]) {
        m.gpus[uuid]
    } else {
        default_name()
    }
}

pub open spec fn resolve(m: ConfigModel, uuid: Seq<char>) -> ProfileView {
    m.profiles[resolved_name(m, uuid)]
}

/// The curve description named by the device's profile, if it names one
/// that exists.
pub open spec fn resolved_curve(m: ConfigModel, uuid: Seq<char>) -> Option<(Seq<(i32, u8)>, Option<u32>, Option<u32>)> {
    match resolve(m, uuid).fan_curve {
        Some(n) => if m.fan_curves.contains_key(n) {
            Some(m.fan_curves[n])
        } else {
            None
        },
        None => None,
    }
}

/// The configuration named by the device's profile, if it names one that
/// exists.
pub open spec fn resolved_config(m: ConfigModel, uuid: Seq<char>) -> Option<GpuConfig> {
    match resolve(m, uuid).config {
        Some(n) => if m.configs.contains_key(n) {
            Some(m.configs[n])
        } else {
            None
        },
        None => None,
    }
}

/// The profile after a change made through `edit`: the stored profile, or
/// a default one where there is none.
pub open spec fn edited_profile(m: ConfigModel, name: Seq<char>, edit: spec_fn(ProfileView) -> ProfileView) -> ConfigModel {
    let base = if m.profiles.contains_key(name) {
        m.profiles[name]
    } else {
        default_profile_view()
    };
    ConfigModel { profiles: m.profiles.insert(name, edit(base)), ..m }
}

pub open spec fn opt_curve_view(o: Option<FanCurveInfo>) -> Option<(Seq<(i32, u8)>, Option<u32>, Option<u32>)> {
    match o {
        Some(c) => Some(c@),
        None => None,
    }
}

/// The answer to a configuration request.
#[derive(Debug)]
pub enum ConfigMessageAnswer {
    FanMode(FanMode),
    FanCurve(Option<FanCurveInfo>),
    FanUpdateInterval(Option<u64>),
    Config(Option<GpuConfig>),
}

/// A configuration request or change.
#[derive(Debug)]
pub enum ConfigMessage {
    GetFanMode { uuid: String },
    GetFanCurve { uuid: String },
    GetConfig { uuid: String },
    GetFanUpdateInterval { uuid: String },
    AssignProfile { uuid: String, profile: String },
    SetProfileFanMode { profile: String, mode: FanMode },
    SetProfileFanCurve { profile: String, curve_name: Option<String> },
    SetFanUpdateInterval { profile: String, update_interval_ms: u64 },
    SetProfileConfig { profile: String, config_name: Option<String> },
    SetFanCurve { curve_name: String, curve: FanCurveInfo },
    SetConfig { config_name: String, config: GpuConfig },
}

/// The stored configuration of the daemon.
pub struct ConfigManager {
    config_path: String,
    gpu_datas: NamedTable<String>,
    profile_datas: NamedTable<ProfileData>,
    fan_curve_datas: NamedTable<FanCurveInfo>,
    config_datas: NamedTable<GpuConfig>,
}

impl ConfigManager {
    pub closed spec fn view(&self) -> ConfigModel {
        ConfigModel {
            gpus: self.gpu_datas.view(),
            profiles: self.profile_datas.view(),
            fan_curves: self.fan_curve_datas.view(),
            configs: self.config_datas.view(),
        }
    }

    pub closed spec fn wf(&self) -> bool {
        &&& self.gpu_datas.wf()
        &&& self.profile_datas.wf()
        &&& self.fan_curve_datas.wf()
        &&& self.config_datas.wf()
        &&& valid_model(self.view())
    }

    pub closed spec fn path(&self) -> Seq<char> {
        self.config_path@
    }

    /// A manager for the configuration file at `config_path`, holding only
    /// the default profile.
    pub fn new(config_path: String) -> (r: ConfigManager)
        ensures
            r.wf(),
            r.view() == initial_model(),
            r.path() == config_path@,
    {
        let mut profile_datas = NamedTable::new();
        profile_datas.insert(default_profile_name(), ProfileData::default_profile());
        let r = ConfigManager {
            config_path,
            gpu_datas: NamedTable::new(),
            profile_datas,
            fan_curve_datas: NamedTable::new(),
            config_datas: NamedTable::new(),
        };
        assert(r.view().profiles =~= Map::empty().insert(default_name(), default_profile_view()));
        r
    }

    /// The path of the configuration file.
    pub fn config_path(&self) -> (r: &String)
        ensures
            r@ == self.path(),
    {
        &self.config_path
    }

    /// The profile that applies to the device.
    pub fn get_profile(&self, uuid: &String) -> (r: Result<&ProfileData, ConfigError>)
        requires
            self.wf(),
        ensures
            r is Ok,
            r.unwrap()@ == resolve(self.view(), uuid@),
    {
        let fallback = default_profile_name();
        match self.gpu_datas.get(uuid) {
            Some(name) => match self.profile_datas.get(name) {
                Some(p) => Ok(p),
                None => match self.profile_datas.get(&fallback) {
                    Some(p) => Ok(p),
                    None => Err(ConfigError::Get { reason: "Failed to fetch default profile".to_owned() }),
                },
            },
            None => match self.profile_datas.get(&fallback) {
                Some(p) => Ok(p),
                None => Err(ConfigError::Get { reason: "Failed to fetch default profile".to_owned() }),
            },
        }
    }

    /// The fan mode of the device's profile.
    pub fn get_fan_mode(&self, uuid: &String) -> (r: FanMode)
        requires
            self.wf(),
        ensures
            r == resolve(self.view(), uuid@).fan_mode,
            r.wf(),
    {
        let p = self.get_profile(uuid).unwrap();
        p.fan_mode
    }

    /// The fan update interval of the device's profile, in ms.
    pub fn get_fan_update_interval(&self, uuid: &String) -> (r: Option<u64>)
        requires
            self.wf(),
        ensures
            r == Some(resolve(self.view(), uuid@).update_interval_ms),
    {
        let p = self.get_profile(uuid).unwrap();
        Some(p.update_interval_ms)
    }

    /// The curve description named by the device's profile.
    pub fn get_fan_curve(&self, uuid: &String) -> (r: Option<FanCurveInfo>)
        requires
            self.wf(),
        ensures
            opt_curve_view(r) == resolved_curve(self.view(), uuid@),
    {
        let p = self.get_profile(uuid).unwrap();
        match &p.fan_curve {
            Some(name) => match self.fan_curve_datas.get(name) {
                Some(c) => Some(c.duplicate()),
                None => None,
            },
            None => None,
        }
    }

    /// The configuration named by the device's profile.
    pub fn get_config(&self, uuid: &String) -> (r: Option<GpuConfig>)
        requires
            self.wf(),
        ensures
            r == resolved_config(self.view(), uuid@),
    {
        let p = self.get_profile(uuid).unwrap();
        match &p.config {
            Some(name) => match self.config_datas.get(name) {
                Some(c) => Some(*c),
                None => None,
            },
            None => None,
        }
    }

    /// Binds the device to the profile.
    pub fn assign_profile(&mut self, uuid: String, profile: String)
        requires
            old(self).wf(),
        ensures
            final(self).wf(),
            final(self).view() == (ConfigModel { gpus: old(self).view().gpus.insert(uuid@, profile@), ..old(self).view() }),
            final(self).path() == old(self).path(),
    {
        self.gpu_datas.insert(uuid, profile);
    }

    /// The stored profile under the name, or a default one.
    fn profile_or_default(&self, name: &String) -> (r: ProfileData)
        requires
            self.wf(),
        ensures
            r@ == (if self.view().profiles.contains_key(name@) {
                self.view().profiles[name@]
            } else {
                default_profile_view()
            }),
            r.fan_mode.wf(),
    {
        match self.profile_datas.get(name) {
            Some(p) => p.duplicate(),
            None => ProfileData::default_profile(),
        }
    }

    /// Stores a profile under a name that is not the default one.
    fn store_profile(&mut self, name: String, profile: ProfileData)
        requires
            old(self).wf(),
            name@ != default_name(),
            profile.fan_mode.wf(),
        ensures
            final(self).wf(),
            final(self).view() == (ConfigModel { profiles: old(self).view().profiles.insert(name@, profile@), ..old(self).view() }),
            final(self).path() == old(self).path(),
    {
        self.profile_datas.insert(name, profile);
    }

    fn check_not_default(profile: &String) -> (r: Result<(), ConfigError>)
        ensures
            r is Err <==> profile@ == default_name(),
            r is Err ==> r->Err_0 is Modify,
    {
        if *profile == default_profile_name() {
            Err(ConfigError::Modify { reason: "Can't modify default profile".to_owned() })
        } else {
            Ok(())
        }
    }

    /// Sets the fan mode of a profile, creating the profile if needed; a
    /// manual speed is clamped to `[0, 100]`. The default profile cannot be
    /// changed.
    pub fn set_profile_fan_mode(&mut self, profile: String, mode: FanMode) -> (r: Result<(), ConfigError>)
        requires
            old(self).wf(),
        ensures
            final(self).wf(),
            final(self).path() == old(self).path(),
            r is Err <==> profile@ == default_name(),
            r is Err ==> r->Err_0 is Modify && final(self).view() == old(self).view(),
            r is Ok ==> final(self).view() == edited_profile(old(self).view(), profile@,
                |p: ProfileView| ProfileView { fan_mode: mode.clamped(), ..p }),
    {
        Self::check_not_default(&profile)?;
        let mut p = self.profile_or_default(&profile);
        p.fan_mode = mode.clamp();
        self.store_profile(profile, p);
        Ok(())
    }

    /// Sets the curve name of a profile, creating the profile if needed.
    pub fn set_profile_fan_curve(&mut self, profile: String, curve_name: Option<String>) -> (r: Result<(), ConfigError>)
        requires
            old(self).wf(),
        ensures
            final(self).wf(),
            final(self).path() == old(self).path(),
            r is Err <==> profile@ == default_name(),
            r is Err ==> r->Err_0 is Modify && final(self).view() == old(self).view(),
            r is Ok ==> final(self).view() == edited_profile(old(self).view(), profile@,
                |p: ProfileView| ProfileView { fan_curve: opt_view(curve_name), ..p }),
    {
        Self::check_not_default(&profile)?;
        let mut p = self.profile_or_default(&profile);
        p.fan_curve = curve_name;
        self.store_profile(profile, p);
        Ok(())
    }

    /// Sets the fan update interval of a profile, creating the profile if
    /// needed.
    pub fn set_profile_update_interval(&mut self, profile: String, update_interval_ms: u64) -> (r: Result<(), ConfigError>)
        requires
            old(self).wf(),
        ensures
            final(self).wf(),
            final(self).path() == old(self).path(),
            r is Err <==> profile@ == default_name(),
            r is Err ==> r->Err_0 is Modify && final(self).view() == old(self).view(),
            r is Ok ==> final(self).view() == edited_profile(old(self).view(), profile@,
                |p: ProfileView| ProfileView { update_interval_ms, ..p }),
    {
        Self::check_not_default(&profile)?;
        let mut p = self.profile_or_default(&profile);
        p.update_interval_ms = update_interval_ms;
        self.store_profile(profile, p);
        Ok(())
    }

    /// Sets the configuration name of a profile, creating the profile if
    /// needed.
    pub fn set_profile_config(&mut self, profile: String, config_name: Option<String>) -> (r: Result<(), ConfigError>)
        requires
            old(self).wf(),
        ensures
            final(self).wf(),
            final(self).path() == old(self).path(),
            r is Err <==> profile@ == default_name(),
            r is Err ==> r->Err_0 is Modify && final(self).view() == old(self).view(),
            r is Ok ==> final(self).view() == edited_profile(old(self).view(), profile@,
                |p: ProfileView| ProfileView { config: opt_view(config_name), ..p }),
    {
        Self::check_not_default(&profile)?;
        let mut p = self.profile_or_default(&profile);
        p.config = config_name;
        self.store_profile(profile, p);
        Ok(())
    }

    /// Stores a curve description under the name, replacing any earlier one.
    pub fn set_fan_curve(&mut self, curve_name: String, curve: FanCurveInfo)
        requires
            old(self).wf(),
        ensures
            final(self).wf(),
            final(self).path() == old(self).path(),
            final(self).view() == (ConfigModel { fan_curves: old(self).view().fan_curves.insert(curve_name@, curve@), ..old(self).view() }),
    {
        self.fan_curve_datas.insert(curve_name, curve);
    }

    /// Stores a configuration under the name, replacing any earlier one.
    pub fn set_config(&mut self, config_name: String, config: GpuConfig)
        requires
            old(self).wf(),
        ensures
            final(self).wf(),
            final(self).path() == old(self).path(),
            final(self).view() == (ConfigModel { configs: old(self).view().configs.insert(config_name@, config), ..old(self).view() }),
    {
        self.config_datas.insert(config_name, config);
    }
}

impl ProfileData {
    /// Reads a profile record; a missing interval is the default one.
    pub fn from_json(j: &ProfileJson) -> (r: Result<ProfileData, ConfigError>)
        ensures
            r is Ok <==> profile_entry(*j).1 is Some,
            r is Ok ==> r->Ok_0@ == profile_entry(*j).1.unwrap() && r->Ok_0.fan_mode.wf(),
            r is Err ==> r->Err_0 is Json,
    {
        let fan_mode = j.fan_mode.to_fan_mode()?;
        let update_interval_ms = match j.update_interval_ms {
            Some(v) => v,
            None => DEFAULT_FAN_UPDATE_INTERVAL_MS,
        };
        Ok(ProfileData {
            fan_mode,
            fan_curve: copy_name(&j.fan_curve),
            config: copy_name(&j.config),
            update_interval_ms,
        })
    }

    /// The record of a profile under the given name.
    pub fn to_json(&self, name: &String) -> (r: ProfileJson)
        requires
            self.fan_mode.wf(),
        ensures
            profile_entry(r) == (name@, Some(self@)),
    {
        proof {
            lemma_fan_mode_json_round_trip(self.fan_mode);
        }
        ProfileJson {
            name: name.clone(),
            fan_mode: FanModeJson::from_fan_mode(self.fan_mode),
            fan_curve: copy_name(&self.fan_curve),
            config: copy_name(&self.config),
            update_interval_ms: Some(self.update_interval_ms),
        }
    }
}

impl FanCurveInfo {
    /// Reads a fan-curve record.
    pub fn from_json(j: &FanCurveJson) -> (r: FanCurveInfo)
        ensures
            r@ == fan_curve_entry(*j).1.unwrap(),
    {
        FanCurveInfo {
            points: copy_points(&j.points),
            lower_threshold: j.hysteresis_down,
            upper_threshold: j.hysteresis_up,
        }
    }

    /// The record of a curve description under the given name.
    pub fn to_json(&self, name: &String) -> (r: FanCurveJson)
        ensures
            fan_curve_entry(r) == (name@, Some(self@)),
    {
        FanCurveJson {
            name: name.clone(),
            points: copy_points(&self.points),
            hysteresis_up: self.upper_threshold,
            hysteresis_down: self.lower_threshold,
        }
    }
}

impl GpuConfig {
    /// Reads a configuration record; a missing vendor part sets nothing.
    pub fn from_json(j: &ConfigJson) -> (r: GpuConfig)
        ensures
            r == config_entry(*j).1.unwrap(),
    {
        let nvidia_config = match j.nvidia {
            Some(n) => NvidiaConfig { core_clock_offset: n.core_offset, mem_clock_offset: n.mem_offset },
            None => NvidiaConfig { core_clock_offset: None, mem_clock_offset: None },
        };
        GpuConfig { nvidia_config, power_limit: j.power_limit }
    }

    /// The record of a configuration under the given name.
    pub fn to_json(&self, name: &String) -> (r: ConfigJson)
        ensures
            config_entry(r) == (name@, Some(*self)),
    {
        ConfigJson {
            name: name.clone(),
            power_limit: self.power_limit,
            nvidia: Some(NvidiaConfigJson {
                core_offset: self.nvidia_config.core_clock_offset,
                mem_offset: self.nvidia_config.mem_clock_offset,
            }),
        }
    }
}

impl ConfigManager {
    /// Reads a configuration document: in each list the first record of a
    /// name wins, over later records and over what is already stored (so a
    /// record of the default profile is dropped), and a profile with an
    /// invalid fan mode is dropped.
    pub fn load_document(&mut self, doc: &ConfigDocument)
        requires
            old(self).wf(),
        ensures
            final(self).wf(),
            final(self).path() == old(self).path(),
            final(self).view() == loaded_model(old(self).view(), *doc),
    {
        let ghost m0 = self.view();
        let ghost ge = gpu_entries(*doc);
        let mut i: usize = 0;
        while i < doc.gpus.len()
            invariant
                self.wf(),
                self.path() == old(self).path(),
                i <= doc.gpus.len(),
                ge == gpu_entries(*doc),
                self.view() == (ConfigModel { gpus: crate::named_table::first_wins(m0.gpus, ge.subrange(0, i as int)), ..m0 }),
            decreases doc.gpus.len() - i,
        {
            let g = &doc.gpus[i];
            if !self.gpu_datas.contains(&g.uuid) {
                self.gpu_datas.insert(g.uuid.clone(), g.profile.clone());
            }
            assert(ge.subrange(0, i + 1).drop_last() =~= ge.subrange(0, i as int));
            i = i + 1;
        }
        assert(ge.subrange(0, doc.gpus.len() as int) =~= ge);
        let ghost m1 = self.view();
        let ghost pe = profile_entries(*doc);
        let mut i: usize = 0;
        while i < doc.profiles.len()
            invariant
                self.wf(),
                self.path() == old(self).path(),
                i <= doc.profiles.len(),
                pe == profile_entries(*doc),
                self.view() == (ConfigModel { profiles: crate::named_table::first_wins(m1.profiles, pe.subrange(0, i as int)), ..m1 }),
            decreases doc.profiles.len() - i,
        {
            let j = &doc.profiles[i];
            if !self.profile_datas.contains(&j.name) {
                match ProfileData::from_json(j) {
                    Ok(p) => {
                        self.profile_datas.insert(j.name.clone(), p);
                    },
                    Err(_) => {},
                }
            }
            assert(pe.subrange(0, i + 1).drop_last() =~= pe.subrange(0, i as int));
            i = i + 1;
        }
        assert(pe.subrange(0, doc.profiles.len() as int) =~= pe);
        let ghost m2 = self.view();
        let ghost ce = fan_curve_entries(*doc);
        let mut i: usize = 0;
        while i < doc.fan_curves.len()
            invariant
                self.wf(),
                self.path() == old(self).path(),
                i <= doc.fan_curves.len(),
                ce == fan_curve_entries(*doc),
                self.view() == (ConfigModel { fan_curves: crate::named_table::first_wins(m2.fan_curves, ce.subrange(0, i as int)), ..m2 }),
            decreases doc.fan_curves.len() - i,
        {
            let j = &doc.fan_curves[i];
            if !self.fan_curve_datas.contains(&j.name) {
                self.fan_curve_datas.insert(j.name.clone(), FanCurveInfo::from_json(j));
            }
            assert(ce.subrange(0, i + 1).drop_last() =~= ce.subrange(0, i as int));
            i = i + 1;
        }
        assert(ce.subrange(0, doc.fan_curves.len() as int) =~= ce);
        let ghost m3 = self.view();
        let ghost ke = config_entries(*doc);
        let mut i: usize = 0;
        while i < doc.configs.len()
            invariant
                self.wf(),
                self.path() == old(self).path(),
                i <= doc.configs.len(),
                ke == config_entries(*doc),
                self.view() == (ConfigModel { configs: crate::named_table::first_wins(m3.configs, ke.subrange(0, i as int)), ..m3 }),
            decreases doc.configs.len() - i,
        {
            let j = &doc.configs[i];
            if !self.config_datas.contains(&j.name) {
                self.config_datas.insert(j.name.clone(), GpuConfig::from_json(j));
            }
            assert(ke.subrange(0, i + 1).drop_last() =~= ke.subrange(0, i as int));
            i = i + 1;
        }
        assert(ke.subrange(0, doc.configs.len() as int) =~= ke);
        assert(self.view() =~= loaded_model(m0, *doc));
    }

    /// The document the configuration is saved as: every binding, curve
    /// description and configuration, and every profile but the default one.
    pub fn to_document(&self) -> (r: ConfigDocument)
        requires
            self.wf(),
        ensures
            saves(self.view(), r),
    {
        let ghost m = self.view();
        let mut gpus: Vec<GpuJson> = Vec::new();
        let mut i: usize = 0;
        while i < self.gpu_datas.len()
            invariant
                self.wf(),
                i <= self.gpu_datas.entries_view().len(),
                gpus@.len() == i,
                forall|j: int| 0 <= j < i ==> gpu_entry(#[trigger] gpus@[j]) == (self.gpu_datas.entries_view()[j].0, Some(self.gpu_datas.entries_view()[j].1)),
            decreases self.gpu_datas.entries_view().len() - i,
        {
            let (k, v) = self.gpu_datas.entry(i);
            gpus.push(GpuJson { uuid: k.clone(), profile: v.clone() });
            i = i + 1;
        }
        let mut fan_curves: Vec<FanCurveJson> = Vec::new();
        let mut i: usize = 0;
        while i < self.fan_curve_datas.len()
            invariant
                self.wf(),
                i <= self.fan_curve_datas.entries_view().len(),
                fan_curves@.len() == i,
                forall|j: int| 0 <= j < i ==> fan_curve_entry(#[trigger] fan_curves@[j]) == (self.fan_curve_datas.entries_view()[j].0, Some(self.fan_curve_datas.entries_view()[j].1)),
            decreases self.fan_curve_datas.entries_view().len() - i,
        {
            let (k, v) = self.fan_curve_datas.entry(i);
            fan_curves.push(v.to_json(k));
            i = i + 1;
        }
        let mut configs: Vec<ConfigJson> = Vec::new();
        let mut i: usize = 0;
        while i < self.config_datas.len()
            invariant
                self.wf(),
                i <= self.config_datas.entries_view().len(),
                configs@.len() == i,
                forall|j: int| 0 <= j < i ==> config_entry(#[trigger] configs@[j]) == (self.config_datas.entries_view()[j].0, Some(self.config_datas.entries_view()[j].1)),
            decreases self.config_datas.entries_view().len() - i,
        {
            let (k, v) = self.config_datas.entry(i);
            configs.push(v.to_json(k));
            i = i + 1;
        }
        let ghost ev = self.profile_datas.entries_view();
        let skipped = default_profile_name();
        let mut profiles: Vec<ProfileJson> = Vec::new();
        let mut i: usize = 0;
        assert(ev.subrange(0, 0) =~= Seq::empty());
        proof {
            lemma_seq_map_empty::<ProfileView>();
            assert(profiles@.map_values(|j: ProfileJson| profile_entry(j)) =~= Seq::empty());
            assert(unwrap_values(Seq::<(Seq<char>, Option<ProfileView>)>::empty()) =~= Seq::empty());
            assert(Map::<Seq<char>, ProfileView>::empty().remove(default_name()) =~= Map::empty());
        }
        while i < self.profile_datas.len()
            invariant
                self.wf(),
                ev == self.profile_datas.entries_view(),
                skipped@ == default_name(),
                i <= ev.len(),
                describes(profiles@.map_values(|j: ProfileJson| profile_entry(j)), seq_map(ev.subrange(0, i as int)).remove(default_name())),
            decreases ev.len() - i,
        {
            let (k, v) = self.profile_datas.entry(i);
            let ghost x = ev[i as int];
            let ghost pre = ev.subrange(0, i as int);
            let ghost old_out = profiles@.map_values(|j: ProfileJson| profile_entry(j));
            proof {
                assert(ev.subrange(0, i + 1) =~= pre.push(x));
                assert(!has_name(pre, x.0)) by {
                    if has_name(pre, x.0) {
                        let j = choose|j: int| 0 <= j < pre.len() && pre[j].0 == x.0;
                        assert(ev[j].0 == ev[i as int].0);
                    }
                }
                assert(crate::named_table::unique_names(pre));
                lemma_seq_map_push(pre, x);
            }
            if *k != skipped {
                proof {
                    lemma_seq_map_at(ev, i as int);
                }
                let rec = v.to_json(k);
                profiles.push(rec);
                proof {
                    let out = profiles@.map_values(|j: ProfileJson| profile_entry(j));
                    assert(out =~= old_out.push((x.0, Some(x.1))));
                    let u_old = unwrap_values(old_out);
                    assert(unwrap_values(out) =~= u_old.push(x));
                    assert(!has_name(u_old, x.0)) by {
                        if has_name(u_old, x.0) {
                            let j = choose|j: int| 0 <= j < u_old.len() && u_old[j].0 == x.0;
                            lemma_seq_map_at(u_old, j);
                            assert(seq_map(pre).contains_key(x.0));
                        }
                    }
                    lemma_seq_map_push(u_old, x);
                    assert(crate::named_table::unique_names(out)) by {
                        assert forall|a: int, b: int| 0 <= a < out.len() && 0 <= b < out.len() && a != b implies out[a].0 != out[b].0 by {
                            assert(unwrap_values(out)[a].0 == out[a].0);
                            assert(unwrap_values(out)[b].0 == out[b].0);
                        }
                    }
                    assert(seq_map(pre.push(x)).remove(default_name()) =~= seq_map(pre).remove(default_name()).insert(x.0, x.1));
                }
            } else {
                proof {
                    assert(seq_map(pre.push(x)).remove(default_name()) =~= seq_map(pre).remove(default_name()));
                }
            }
            i = i + 1;
        }
        assert(ev.subrange(0, ev.len() as int) =~= ev);
        let r = ConfigDocument { gpus, profiles, fan_curves, configs };
        proof {
            let g = gpu_entries(r);
            assert(unwrap_values(g) =~= self.gpu_datas.entries_view());
            assert(crate::named_table::unique_names(g)) by {
                assert forall|a: int, b: int| 0 <= a < g.len() && 0 <= b < g.len() && a != b implies g[a].0 != g[b].0 by {
                    assert(unwrap_values(g)[a].0 == g[a].0);
                    assert(unwrap_values(g)[b].0 == g[b].0);
                }
            }
            let c = fan_curve_entries(r);
            assert(unwrap_values(c) =~= self.fan_curve_datas.entries_view());
            assert(crate::named_table::unique_names(c)) by {
                assert forall|a: int, b: int| 0 <= a < c.len() && 0 <= b < c.len() && a != b implies c[a].0 != c[b].0 by {
                    assert(unwrap_values(c)[a].0 == c[a].0);
                    assert(unwrap_values(c)[b].0 == c[b].0);
                }
            }
            let k = config_entries(r);
            assert(unwrap_values(k) =~= self.config_datas.entries_view());
            assert(crate::named_table::unique_names(k)) by {
                assert forall|a: int, b: int| 0 <= a < k.len() && 0 <= b < k.len() && a != b implies k[a].0 != k[b].0 by {
                    assert(unwrap_values(k)[a].0 == k[a].0);
                    assert(unwrap_values(k)[b].0 == k[b].0);
                }
            }
        }
        r
    }
}

/// What a configuration request answers, on a valid configuration.
pub open spec fn answers(m: ConfigModel, msg: ConfigMessage, r: Result<ConfigMessageAnswer, ConfigError>) -> bool {
    match msg {
        ConfigMessage::GetFanMode { uuid } => r == Ok::<ConfigMessageAnswer, ConfigError>(
            ConfigMessageAnswer::FanMode(resolve(m, uuid@).fan_mode),
        ),
        ConfigMessage::GetFanCurve { uuid } => match r {
            Ok(ConfigMessageAnswer::FanCurve(c)) => opt_curve_view(c) == resolved_curve(m, uuid@),
            _ => false,
        },
        ConfigMessage::GetConfig { uuid } => r == Ok::<ConfigMessageAnswer, ConfigError>(
            ConfigMessageAnswer::Config(resolved_config(m, uuid@)),
        ),
        ConfigMessage::GetFanUpdateInterval { uuid } => r == Ok::<ConfigMessageAnswer, ConfigError>(
            ConfigMessageAnswer::FanUpdateInterval(Some(resolve(m, uuid@).update_interval_ms)),
        ),
        _ => r is Err && r->Err_0 is Get,
    }
}

/// What a configuration change does, on a valid configuration; `None` when
/// it is refused (a change of the default profile, or a request).
pub open spec fn changed(m: ConfigModel, msg: ConfigMessage) -> Option<ConfigModel> {
    match msg {
        ConfigMessage::AssignProfile { uuid, profile } => Some(
            ConfigModel { gpus: m.gpus.insert(uuid@, profile@), ..m },
        ),
        ConfigMessage::SetProfileFanMode { profile, mode } => if profile@ == default_name() {
            None
        } else {
            Some(edited_profile(m, profile@, |p: ProfileView| ProfileView { fan_mode: mode.clamped(), ..p }))
        },
        ConfigMessage::SetProfileFanCurve { profile, curve_name } => if profile@ == default_name() {
            None
        } else {
            Some(edited_profile(m, profile@, |p: ProfileView| ProfileView { fan_curve: opt_view(curve_name), ..p }))
        },
        ConfigMessage::SetFanUpdateInterval { profile, update_interval_ms } => if profile@ == default_name() {
            None
        } else {
            Some(edited_profile(m, profile@, |p: ProfileView| ProfileView { update_interval_ms, ..p }))
        },
        ConfigMessage::SetProfileConfig { profile, config_name } => if profile@ == default_name() {
            None
        } else {
            Some(edited_profile(m, profile@, |p: ProfileView| ProfileView { config: opt_view(config_name), ..p }))
        },
        ConfigMessage::SetFanCurve { curve_name, curve } => Some(
            ConfigModel { fan_curves: m.fan_curves.insert(curve_name@, curve@), ..m },
        ),
        ConfigMessage::SetConfig { config_name, config } => Some(
            ConfigModel { configs: m.configs.insert(config_name@, config), ..m },
        ),
        _ => None,
    }
}

impl ConfigManager {
    /// Answers a request from the stored configuration.
    pub fn handle_get_message(&self, msg: &ConfigMessage) -> (r: Result<ConfigMessageAnswer, ConfigError>)
        requires
            self.wf(),
        ensures
            answers(self.view(), *msg, r),
    {
        match msg {
            ConfigMessage::GetFanCurve { uuid } => Ok(ConfigMessageAnswer::FanCurve(self.get_fan_curve(uuid))),
            ConfigMessage::GetFanMode { uuid } => Ok(ConfigMessageAnswer::FanMode(self.get_fan_mode(uuid))),
            ConfigMessage::GetFanUpdateInterval { uuid } => Ok(
                ConfigMessageAnswer::FanUpdateInterval(self.get_fan_update_interval(uuid)),
            ),
            ConfigMessage::GetConfig { uuid } => Ok(ConfigMessageAnswer::Config(self.get_config(uuid))),
            _ => Err(ConfigError::Get { reason: "Trying to parse unknown get message".to_owned() }),
        }
    }

    /// Applies a change to the stored configuration; a refused change
    /// leaves it as it was.
    pub fn handle_set_message(&mut self, msg: ConfigMessage) -> (r: Result<(), ConfigError>)
        requires
            old(self).wf(),
        ensures
            final(self).wf(),
            final(self).path() == old(self).path(),
            r is Ok <==> changed(old(self).view(), msg) is Some,
            r is Ok ==> final(self).view() == changed(old(self).view(), msg).unwrap(),
            r is Err ==> final(self).view() == old(self).view() && r->Err_0 is Modify,
    {
        match msg {
            ConfigMessage::AssignProfile { uuid, profile } => {
                self.assign_profile(uuid, profile);
                Ok(())
            },
            ConfigMessage::SetProfileFanMode { profile, mode } => self.set_profile_fan_mode(profile, mode),
            ConfigMessage::SetProfileFanCurve { profile, curve_name } => self.set_profile_fan_curve(profile, curve_name),
            ConfigMessage::SetFanUpdateInterval { profile, update_interval_ms } => self.set_profile_update_interval(
                profile,
                update_interval_ms,
            ),
            ConfigMessage::SetProfileConfig { profile, config_name } => self.set_profile_config(profile, config_name),
            ConfigMessage::SetFanCurve { curve_name, curve } => {
                self.set_fan_curve(curve_name, curve);
                Ok(())
            },
            ConfigMessage::SetConfig { config_name, config } => {
                self.set_config(config_name, config);
                Ok(())
            },
            _ => Err(ConfigError::Modify { reason: "Trying to parse unknown set message".to_owned() }),
        }
    }
}

/// Every device resolves to a profile: the one it is bound to when that
/// exists, else the default profile, which a valid configuration holds.
pub proof fn lemma_resolution_total(m: ConfigModel, uuid: Seq<char>)
    requires
        valid_model(m),
    ensures
        m.profiles.contains_key(resolved_name(m, uuid)),
        !m.gpus.contains_key(uuid) ==> resolve(m, uuid) == default_profile_view(),
{
}

} // verus!
