//! The settings service.
//!
//! Plugins register a table of settings under their plugin name; the
//! engine and the plugins read typed values back by widget id. A name
//! registers once — later attempts are refused — and a read finds the
//! first setting with the asked id. A read of the wrong type answers
//! `WrongType`, a miss answers `NotFound`, with a zero value either way.
//! Persisting settings to disk is outside the library.

use crate::services::SBool;
use crate::services::SBoolResult;
use crate::services::SInteger;
use crate::services::SIntResult;
use crate::services::SettingsResult;
use vstd::prelude::*;
use vstd::string::StrSliceExecFns;

verus! {

/// One value a setting can hold.
#[derive(Debug)]
pub enum SettingValue {
    Integer(SInteger),
    Boolean(SBool),
    Text(String),
}

/// One registered setting: its widget id and its value.
#[derive(Debug)]
pub struct Setting {
    pub widget_id: String,
    pub value: SettingValue,
}

/// The settings one plugin registered.
#[derive(Debug)]
pub struct NativeSettings {
    pub stored_settings: Vec<Setting>,
}

/// A plugin's registration under its name.
#[derive(Debug)]
pub struct Registration {
    pub plugin_name: String,
    pub settings: NativeSettings,
}

/// A string read from the settings, with the outcome of the lookup.
#[derive(Debug)]
pub struct SStringResult {
    pub result: SettingsResult,
    pub value: String,
}

/// The settings service: the registrations, in registration order.
pub struct Settings {
    pub settings: Vec<Registration>,
}

/// The registration a name finds: the first with that name.
pub open spec fn spec_find_reg(regs: Seq<Registration>, name: Seq<char>) -> Option<Registration>
    decreases regs.len(),
{
    if regs.len() == 0 {
        None
    } else if regs[0].plugin_name@ == name {
        Some(regs[0])
    } else {
        spec_find_reg(regs.skip(1), name)
    }
}

/// The setting an id finds in a table: the first with that id.
pub open spec fn spec_find_setting(settings: Seq<Setting>, id: Seq<char>) -> Option<Setting>
    decreases settings.len(),
{
    if settings.len() == 0 {
        None
    } else if settings[0].widget_id@ == id {
        Some(settings[0])
    } else {
        spec_find_setting(settings.skip(1), id)
    }
}

/// What an integer read answers.
pub open spec fn spec_get_int(
    regs: Seq<Registration>,
    reg_id: Seq<char>,
    id: Seq<char>,
) -> SIntResult {
    match spec_find_reg(regs, reg_id) {
        None => SIntResult { result: SettingsResult::NotFound, value: 0 },
        Some(reg) => match spec_find_setting(reg.settings.stored_settings@, id) {
            None => SIntResult { result: SettingsResult::NotFound, value: 0 },
            Some(s) => match s.value {
                SettingValue::Integer(v) => SIntResult {
                    result: SettingsResult::Okay,
                    value: v.value,
                },
                _ => SIntResult { result: SettingsResult::WrongType, value: 0 },
            },
        },
    }
}

/// What a boolean read answers.
pub open spec fn spec_get_bool(
    regs: Seq<Registration>,
    reg_id: Seq<char>,
    id: Seq<char>,
) -> SBoolResult {
    match spec_find_reg(regs, reg_id) {
        None => SBoolResult { result: SettingsResult::NotFound, value: false },
        Some(reg) => match spec_find_setting(reg.settings.stored_settings@, id) {
            None => SBoolResult { result: SettingsResult::NotFound, value: false },
            Some(s) => match s.value {
                SettingValue::Boolean(v) => SBoolResult {
                    result: SettingsResult::Okay,
                    value: v.value,
                },
                _ => SBoolResult { result: SettingsResult::WrongType, value: false },
            },
        },
    }
}

/// Whether two strings hold the same characters.
fn str_eq(a: &str, b: &str) -> (r: bool)
    ensures
        r <==> a@ == b@,
{
    let na = a.unicode_len();
    let nb = b.unicode_len();
    if na != nb {
        return false;
    }
    let mut i: usize = 0;
    while i < na
        invariant
            i <= na,
            na == a@.len(),
            na == b@.len(),
            forall|j: int| 0 <= j < i ==> a@[j] == b@[j],
        decreases na - i,
    {
        if a.get_char(i) != b.get_char(i) {
            return false;
        }
        i = i + 1;
    }
    proof {
        assert(a@ =~= b@);
    }
    true
}

/// The first setting of a table with the given widget id.
fn find_setting_index(settings: &Vec<Setting>, id: &str) -> (r: Option<usize>)
    ensures
        r matches Some(j) ==> j < settings@.len() && spec_find_setting(settings@, id@) == Some(
            settings@[j as int],
        ),
        r is None ==> spec_find_setting(settings@, id@) is None,
{
    let mut j: usize = 0;
    proof {
        assert(settings@.skip(0) =~= settings@);
    }
    while j < settings.len()
        invariant
            j <= settings@.len(),
            spec_find_setting(settings@, id@) == spec_find_setting(
                settings@.skip(j as int),
                id@,
            ),
        decreases settings@.len() - j,
    {
        if str_eq(settings[j].widget_id.as_str(), id) {
            proof {
                assert(settings@.skip(j as int)[0] == settings@[j as int]);
            }
            return Some(j);
        }
        proof {
            assert(settings@.skip(j as int)[0] == settings@[j as int]);
            assert(settings@.skip(j as int).skip(1) =~= settings@.skip(j as int + 1));
        }
        j = j + 1;
    }
    None
}

impl Settings {
    /// An empty settings service.
    pub fn new() -> (r: Settings)
        ensures
            r.settings@ == Seq::<Registration>::empty(),
    {
        Settings { settings: Vec::new() }
    }

    /// Register a plugin's settings table under its name. A name
    /// registers once: a second attempt is refused and changes nothing.
    pub fn reg(&mut self, name: &str, settings: Vec<Setting>) -> (r: SettingsResult)
        ensures
            spec_find_reg(old(self).settings@, name@) is Some ==> r
                == SettingsResult::DuplicatedId && final(self).settings@ == old(self).settings@,
            spec_find_reg(old(self).settings@, name@) is None ==> {
                &&& r == SettingsResult::Okay
                &&& final(self).settings@.len() == old(self).settings@.len() + 1
                &&& final(self).settings@.subrange(0, old(self).settings@.len() as int) == old(
                    self,
                ).settings@
                &&& final(self).settings@.last().plugin_name@ == name@
                &&& final(self).settings@.last().settings.stored_settings@ == settings@
            },
    {
        match self.find_reg_index(name) {
            Some(_) => SettingsResult::DuplicatedId,
            None => {
                let reg = Registration {
                    plugin_name: name.to_owned(),
                    settings: NativeSettings { stored_settings: settings },
                };
                self.settings.push(reg);
                proof {
                    assert(self.settings@.subrange(0, old(self).settings@.len() as int)
                        =~= old(self).settings@);
                }
                SettingsResult::Okay
            },
        }
    }

    /// Read an integer setting.
    pub fn get_int(&mut self, reg_id: &str, _ext: &str, id: &str) -> (r: SIntResult)
        ensures
            r == spec_get_int(old(self).settings@, reg_id@, id@),
            *final(self) == *old(self),
    {
        let i = match self.find_reg_index(reg_id) {
            None => {
                return SIntResult { result: SettingsResult::NotFound, value: 0 };
            },
            Some(i) => i,
        };
        let j = match find_setting_index(&self.settings[i].settings.stored_settings, id) {
            None => {
                return SIntResult { result: SettingsResult::NotFound, value: 0 };
            },
            Some(j) => j,
        };
        match &self.settings[i].settings.stored_settings[j].value {
            SettingValue::Integer(v) => SIntResult { result: SettingsResult::Okay, value: v.value },
            _ => SIntResult { result: SettingsResult::WrongType, value: 0 },
        }
    }

    /// Read a boolean setting.
    pub fn get_bool(&mut self, reg_id: &str, _ext: &str, id: &str) -> (r: SBoolResult)
        ensures
            r == spec_get_bool(old(self).settings@, reg_id@, id@),
            *final(self) == *old(self),
    {
        let i = match self.find_reg_index(reg_id) {
            None => {
                return SBoolResult { result: SettingsResult::NotFound, value: false };
            },
            Some(i) => i,
        };
        let j = match find_setting_index(&self.settings[i].settings.stored_settings, id) {
            None => {
                return SBoolResult { result: SettingsResult::NotFound, value: false };
            },
            Some(j) => j,
        };
        match &self.settings[i].settings.stored_settings[j].value {
            SettingValue::Boolean(v) => SBoolResult {
                result: SettingsResult::Okay,
                value: v.value,
            },
            _ => SBoolResult { result: SettingsResult::WrongType, value: false },
        }
    }

    /// Read a string setting. The outcome travels with an owned copy of
    /// the value, empty on a miss or a type mismatch.
    pub fn get_string(&mut self, reg_id: &str, _ext: &str, id: &str) -> (r: SStringResult)
        ensures
            *final(self) == *old(self),
            spec_find_reg(old(self).settings@, reg_id@) is None ==> r.result
                == SettingsResult::NotFound && r.value@ == Seq::<char>::empty(),
            spec_find_reg(old(self).settings@, reg_id@) matches Some(reg) ==> {
                &&& spec_find_setting(reg.settings.stored_settings@, id@) is None ==> r.result
                    == SettingsResult::NotFound && r.value@ == Seq::<char>::empty()
                &&& spec_find_setting(reg.settings.stored_settings@, id@) matches Some(s) ==> {
                    &&& s.value matches SettingValue::Text(v) ==> r.result
                        == SettingsResult::Okay && r.value@ == v@
                    &&& !(s.value matches SettingValue::Text(_)) ==> r.result
                        == SettingsResult::WrongType && r.value@ == Seq::<char>::empty()
                }
            },
    {
        let i = match self.find_reg_index(reg_id) {
            None => {
                return SStringResult { result: SettingsResult::NotFound, value: String::new() };
            },
            Some(i) => i,
        };
        let j = match find_setting_index(&self.settings[i].settings.stored_settings, id) {
            None => {
                return SStringResult { result: SettingsResult::NotFound, value: String::new() };
            },
            Some(j) => j,
        };
        match &self.settings[i].settings.stored_settings[j].value {
            SettingValue::Text(v) => SStringResult {
                result: SettingsResult::Okay,
                value: v.clone(),
            },
            _ => SStringResult { result: SettingsResult::WrongType, value: String::new() },
        }
    }

    /// The first registration with the given name.
    fn find_reg_index(&self, reg_id: &str) -> (r: Option<usize>)
        ensures
            r matches Some(i) ==> i < self.settings@.len() && spec_find_reg(
                self.settings@,
                reg_id@,
            ) == Some(self.settings@[i as int]),
            r is None ==> spec_find_reg(self.settings@, reg_id@) is None,
    {
        let mut i: usize = 0;
        proof {
            assert(self.settings@.skip(0) =~= self.settings@);
        }
        while i < self.settings.len()
            invariant
                i <= self.settings@.len(),
                spec_find_reg(self.settings@, reg_id@) == spec_find_reg(
                    self.settings@.skip(i as int),
                    reg_id@,
                ),
            decreases self.settings@.len() - i,
        {
            if str_eq(self.settings[i].plugin_name.as_str(), reg_id) {
                proof {
                    assert(self.settings@.skip(i as int)[0] == self.settings@[i as int]);
                }
                return Some(i);
            }
            proof {
                assert(self.settings@.skip(i as int)[0] == self.settings@[i as int]);
                assert(self.settings@.skip(i as int).skip(1) =~= self.settings@.skip(i as int + 1));
            }
            i = i + 1;
        }
        None
    }
}

} // verus!
