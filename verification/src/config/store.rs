//! The loaded configuration: the directory it came from, the merged files and the device
//! configuration built from them.

use vstd::prelude::*;
use vstd::string::*;
use crate::config::adapter::{LoadedConfigs, MotorLimits, build_printer_config, merged_config};
use crate::config::config_protocol::{validate_config, spec_validate_config};
use crate::config::printer_config::{PrinterJsonConfig, TemperaturePresetConfig};

verus! {

/// The message of a request that needs a loaded configuration.
pub open spec fn not_loaded_message() -> Seq<char> {
    "Configuration not loaded. Call load() first."@
}

fn not_loaded() -> (r: String)
    ensures
        r@ == not_loaded_message(),
{
    String::from_str("Configuration not loaded. Call load() first.")
}

/// The configuration store.
pub struct ConfigStore {
    printer_config: Option<PrinterJsonConfig>,
    loaded_configs: Option<LoadedConfigs>,
    config_dir: String,
}

impl ConfigStore {
    pub closed spec fn config_of(&self) -> Option<PrinterJsonConfig> {
        self.printer_config
    }

    pub closed spec fn files_of(&self) -> Option<LoadedConfigs> {
        self.loaded_configs
    }

    pub closed spec fn dir_of(&self) -> Seq<char> {
        self.config_dir@
    }

    /// Nothing loaded, no directory.
    pub fn new() -> (r: Self)
        ensures
            r.config_of() is None,
            r.files_of() is None,
            r.dir_of().len() == 0,
    {
        ConfigStore { printer_config: None, loaded_configs: None, config_dir: String::new() }
    }

    /// Takes the files read from `config_dir`: builds their device configuration (with the
    /// motors' integer limits `limits`) and, where it validates, keeps the directory, the
    /// files and the configuration. Where it does not, the validation message is returned and
    /// the store is unchanged.
    pub fn commit_load(&mut self, config_dir: &str, configs: LoadedConfigs, limits: &Vec<MotorLimits>) -> (r: Result<(), String>)
        requires
            limits@.len() == configs.hardware.motor@.len(),
        ensures
            match r {
                Ok(()) => {
                    &&& final(self).config_of() matches Some(c) && merged_config(c, configs, limits@)
                        && spec_validate_config(c) is Ok
                    &&& final(self).files_of() == Some(configs)
                    &&& final(self).dir_of() == config_dir@
                },
                Err(e) => {
                    &&& exists|c: PrinterJsonConfig| merged_config(c, configs, limits@)
                        && spec_validate_config(c) == Err::<(), Seq<char>>(e@)
                    &&& *final(self) == *old(self)
                },
            },
    {
        let printer_config = build_printer_config(&configs, limits);
        match validate_config(&printer_config) {
            Err(e) => Err(e),
            Ok(()) => {
                self.config_dir = String::from_str(config_dir);
                self.printer_config = Some(printer_config);
                self.loaded_configs = Some(configs);
                Ok(())
            },
        }
    }

    /// The directory to reload from, refused while nothing was loaded.
    pub fn reload_dir(&self) -> (r: Result<&str, String>)
        ensures
            self.dir_of().len() == 0 ==> (r matches Err(e) && e@ == not_loaded_message()),
            self.dir_of().len() > 0 ==> (r matches Ok(d) && d@ == self.dir_of()),
    {
        if self.config_dir.as_str().unicode_len() == 0 {
            Err(not_loaded())
        } else {
            Ok(self.config_dir.as_str())
        }
    }

    /// Replaces the files and the configuration after a reload; the directory stays.
    pub fn replace(&mut self, printer_config: PrinterJsonConfig, configs: LoadedConfigs)
        ensures
            final(self).config_of() == Some(printer_config),
            final(self).files_of() == Some(configs),
            final(self).dir_of() == old(self).dir_of(),
    {
        self.printer_config = Some(printer_config);
        self.loaded_configs = Some(configs);
    }

    /// Replaces the configuration after it was saved; files and directory stay.
    pub fn set_config(&mut self, printer_config: PrinterJsonConfig)
        ensures
            final(self).config_of() == Some(printer_config),
            final(self).files_of() == old(self).files_of(),
            final(self).dir_of() == old(self).dir_of(),
    {
        self.printer_config = Some(printer_config);
    }

    /// The configuration, refused while nothing was loaded.
    pub fn get_config(&self) -> (r: Result<&PrinterJsonConfig, String>)
        ensures
            match self.config_of() {
                Some(c) => r matches Ok(x) && *x == c,
                None => r matches Err(e) && e@ == not_loaded_message(),
            },
    {
        match &self.printer_config {
            Some(c) => Ok(c),
            None => Err(not_loaded()),
        }
    }

    /// The merged files, refused while nothing was loaded.
    pub fn get_loaded(&self) -> (r: Result<&LoadedConfigs, String>)
        ensures
            match self.files_of() {
                Some(c) => r matches Ok(x) && *x == c,
                None => r matches Err(e) && e@ == not_loaded_message(),
            },
    {
        match &self.loaded_configs {
            Some(c) => Ok(c),
            None => Err(not_loaded()),
        }
    }

    pub fn get_config_dir(&self) -> (r: &str)
        ensures
            r@ == self.dir_of(),
    {
        self.config_dir.as_str()
    }

    /// Whether a configuration is held.
    pub fn is_loaded(&self) -> (r: bool)
        ensures
            r == self.config_of() is Some,
    {
        self.printer_config.is_some()
    }

    /// `config` with its temperature presets replaced by `presets`.
    pub fn with_presets(config: PrinterJsonConfig, presets: Vec<TemperaturePresetConfig>) -> (r: PrinterJsonConfig)
        ensures
            r == (PrinterJsonConfig { temperature_presets: presets, ..config }),
    {
        let mut c = config;
        c.temperature_presets = presets;
        c
    }
}

} // verus!
