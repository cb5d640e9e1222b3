//! Host-specific configuration mappings.
//!
//! A mapping resolves a catalog value to an opaque host string (a GRUB
//! menu-entry name, a display device identifier, a display-switch
//! argument) and back, through the shared configs properties store under
//! composite keys `"{code}.{attribute}"`.  A missing entry or an unknown
//! opaque string is a fatal misconfiguration: the message names what is
//! missing and which host's configure step must be run.

use vstd::prelude::*;
use vstd::string::*;

use core::marker::PhantomData;

use crate::errors::{CoreError, ErrorCategory};
use crate::options_types::{Display, OperatingSystem, OptionType};
use crate::properties::Properties;
use crate::string_map::index_of_key;
use crate::text::str_eq;

verus! {

/// The properties key an option's attribute is stored under:
/// `"{code}.{attribute}"`.
pub open spec fn spec_key_for<O: OptionType>(o: O, attribute: Seq<char>) -> Seq<char> {
    o.spec_code() + seq!['.'] + attribute
}

/// The full text of a fatal configuration error: the problem, then which
/// host's configure step to run.
pub open spec fn spec_configuration_error(message: Seq<char>, os: OperatingSystem) -> Seq<char> {
    message + ". Execute 'my-reboot configure' no "@ + os.spec_display_name()
}

/// The message for a configuration key that is absent.
pub open spec fn missing_key_message(k: Seq<char>) -> Seq<char> {
    "Configuração '"@ + k + "' não encontrada"@
}

/// The message for an opaque value no catalog value maps to.
pub open spec fn missing_value_message(raw: Seq<char>) -> Seq<char> {
    "Configuração com valor "@ + raw + " não encontrada"@
}

/// What resolving an opaque string against a catalog yields: the first
/// value whose mapped string matches, or the first absent key, or
/// nothing.
pub enum Resolution<O> {
    Found(O),
    MissingKey(Seq<char>),
    NoMatch,
}

/// Walks the catalog values in order: each one's key must be present
/// (an absent key is fatal before anything else is tried), and the first
/// whose mapped string equals `raw` wins.
pub open spec fn spec_resolve<O: OptionType>(
    vs: Seq<O>,
    attribute: Seq<char>,
    m: Map<Seq<char>, Seq<char>>,
    raw: Seq<char>,
) -> Resolution<O>
    decreases vs.len(),
{
    if vs.len() == 0 {
        Resolution::NoMatch
    } else {
        let k = spec_key_for(vs[0], attribute);
        if !m.contains_key(k) {
            Resolution::MissingKey(k)
        } else if m[k] == raw {
            Resolution::Found(vs[0])
        } else {
            spec_resolve(vs.drop_first(), attribute, m, raw)
        }
    }
}

/// Builds the text of a fatal configuration error.
pub fn configuration_error(message: &str, config_provider_os: OperatingSystem) -> (r: String)
    ensures
        r@ == spec_configuration_error(message@, config_provider_os),
{
    let mut out = String::from_str(message);
    out.append(". Execute 'my-reboot configure' no ");
    out.append(config_provider_os.display_name());
    out
}

fn missing_key_error(key: &str, os: OperatingSystem) -> (r: CoreError)
    ensures
        r.category == ErrorCategory::Integrity,
        r.message@ == spec_configuration_error(missing_key_message(key@), os),
{
    let mut msg = String::from_str("Configuração '");
    msg.append(key);
    msg.append("' não encontrada");
    CoreError::integrity(configuration_error(msg.as_str(), os))
}

fn missing_value_error(raw: &str, os: OperatingSystem) -> (r: CoreError)
    ensures
        r.category == ErrorCategory::Integrity,
        r.message@ == spec_configuration_error(missing_value_message(raw@), os),
{
    let mut msg = String::from_str("Configuração com valor ");
    msg.append(raw);
    msg.append(" não encontrada");
    CoreError::integrity(configuration_error(msg.as_str(), os))
}

/// One attribute of one catalog over the shared properties store.  The
/// handler holds only the attribute name and which host's configure step
/// populates it; the data always lives in the store passed in.
pub struct ConfigHandler<O: OptionType> {
    attribute: &'static str,
    config_provider_os: OperatingSystem,
    option_type: PhantomData<O>,
}

impl<O: OptionType> ConfigHandler<O> {
    pub closed spec fn spec_attribute(self) -> Seq<char> {
        self.attribute@
    }

    pub closed spec fn spec_provider_os(self) -> OperatingSystem {
        self.config_provider_os
    }

    pub fn new(attribute: &'static str, config_provider_os: OperatingSystem) -> (r: Self)
        ensures
            r.spec_attribute() == attribute@,
            r.spec_provider_os() == config_provider_os,
    {
        ConfigHandler { attribute, config_provider_os, option_type: PhantomData }
    }

    /// The composite properties key for one option value.
    pub fn key_for(&self, object: O) -> (r: String)
        ensures
            r@ == spec_key_for(object, self.spec_attribute()),
    {
        let mut out = String::from_str(object.to_option_string());
        out.append(".");
        out.append(self.attribute);
        proof {
            reveal_strlit(".");
            assert("."@ =~= seq!['.']);
            assert(out@ =~= spec_key_for(object, self.spec_attribute()));
        }
        out
    }

    /// The opaque string an option value maps to; its absence is a fatal
    /// misconfiguration naming the key.
    pub fn get_value(&self, object: O, props: &Properties) -> (r: Result<String, CoreError>)
        requires
            props.wf(),
        ensures
            ({
                let k = spec_key_for(object, self.spec_attribute());
                match r {
                    Ok(v) => props@.contains_key(k) && v@ == props@[k],
                    Err(e) => {
                        &&& !props@.contains_key(k)
                        &&& e.category == ErrorCategory::Integrity
                        &&& e.message@ == spec_configuration_error(
                            missing_key_message(k),
                            self.spec_provider_os(),
                        )
                    },
                }
            }),
    {
        let key = self.key_for(object);
        match props.get(key.as_str()) {
            Some(v) => Ok(v.clone()),
            None => Err(missing_key_error(key.as_str(), self.config_provider_os)),
        }
    }

    /// Writes the opaque string for an option value; the caller persists
    /// the store separately.
    pub fn set_value(&self, object: O, value: &str, props: &mut Properties)
        requires
            old(props).wf(),
        ensures
            final(props).wf(),
            final(props)@ == old(props)@.insert(
                spec_key_for(object, self.spec_attribute()),
                value@,
            ),
            final(props).entries_seq() == {
                let s = old(props).entries_seq();
                let k = spec_key_for(object, self.spec_attribute());
                let i = index_of_key(s, k);
                if i == -1 {
                    s.push((k, value@))
                } else {
                    s.update(i, (k, value@))
                }
            },
    {
        let key = self.key_for(object);
        props.set(key.as_str(), value);
    }

    /// The first catalog value whose mapped string equals `raw`.  An
    /// absent key, or no match at all, is a fatal misconfiguration.
    pub fn get_object_by_value(&self, raw: &str, props: &Properties) -> (r: Result<O, CoreError>)
        requires
            props.wf(),
        ensures
            ({
                let outcome = spec_resolve(
                    O::spec_values(),
                    self.spec_attribute(),
                    props@,
                    raw@,
                );
                match r {
                    Ok(o) => outcome == Resolution::<O>::Found(o),
                    Err(e) => {
                        &&& e.category == ErrorCategory::Integrity
                        &&& match outcome {
                            Resolution::Found(_) => false,
                            Resolution::MissingKey(k) => e.message@ == spec_configuration_error(
                                missing_key_message(k),
                                self.spec_provider_os(),
                            ),
                            Resolution::NoMatch => e.message@ == spec_configuration_error(
                                missing_value_message(raw@),
                                self.spec_provider_os(),
                            ),
                        }
                    },
                }
            }),
    {
        let ghost vs = O::spec_values();
        let ghost outcome = spec_resolve(vs, self.spec_attribute(), props@, raw@);
        let values = O::values();
        let n = values.len();
        let mut i: usize = 0;
        proof {
            assert(vs.skip(0) =~= vs);
        }
        while i < n
            invariant
                props.wf(),
                values@ == vs,
                vs == O::spec_values(),
                n == vs.len(),
                i <= n,
                outcome == spec_resolve(vs, self.spec_attribute(), props@, raw@),
                spec_resolve(vs.skip(i as int), self.spec_attribute(), props@, raw@) == outcome,
            decreases n - i,
        {
            let ghost t = vs.skip(i as int);
            proof {
                assert(t[0] == vs[i as int]);
                assert(t.drop_first() =~= vs.skip(i as int + 1));
            }
            let v = match self.get_value(values[i], props) {
                Ok(v) => v,
                Err(e) => {
                    return Err(e);
                },
            };
            if str_eq(v.as_str(), raw) {
                return Ok(values[i]);
            }
            i += 1;
        }
        proof {
            assert(vs.skip(n as int) =~= Seq::<O>::empty());
        }
        Err(missing_value_error(raw, self.config_provider_os))
    }
}

/// The read view of the configuration mappings: one shared properties
/// store and one handler per attribute.
pub struct Configs {
    props: Properties,
    grub_entry_handler: ConfigHandler<OperatingSystem>,
    device_id_handler: ConfigHandler<Display>,
    display_switch_arg_handler: ConfigHandler<Display>,
}

impl View for Configs {
    type V = Map<Seq<char>, Seq<char>>;

    closed spec fn view(&self) -> Map<Seq<char>, Seq<char>> {
        self.props@
    }
}

impl Configs {
    pub closed spec fn wf(self) -> bool {
        &&& self.props.wf()
        &&& self.grub_entry_handler.spec_attribute() == "grubEntry"@
        &&& self.grub_entry_handler.spec_provider_os() == OperatingSystem::Linux
        &&& self.device_id_handler.spec_attribute() == "deviceId"@
        &&& self.device_id_handler.spec_provider_os() == OperatingSystem::Windows
        &&& self.display_switch_arg_handler.spec_attribute() == "displaySwitchArg"@
        &&& self.display_switch_arg_handler.spec_provider_os() == OperatingSystem::Windows
    }

    /// The stored entries, in order.
    pub closed spec fn entries_seq(self) -> Seq<(Seq<char>, Seq<char>)> {
        self.props.entries_seq()
    }

    /// Builds the mappings around an already-loaded properties store.
    pub fn load(props: Properties) -> (r: Configs)
        requires
            props.wf(),
        ensures
            r.wf(),
            r@ == props@,
            r.entries_seq() == props.entries_seq(),
    {
        Configs {
            props,
            grub_entry_handler: ConfigHandler::new("grubEntry", OperatingSystem::Linux),
            device_id_handler: ConfigHandler::new("deviceId", OperatingSystem::Windows),
            display_switch_arg_handler: ConfigHandler::new(
                "displaySwitchArg",
                OperatingSystem::Windows,
            ),
        }
    }

    /// The operating system a stored GRUB menu-entry name belongs to.
    pub fn get_operating_system_by_grub_entry(&self, grub_entry: &str) -> (r: Result<
        OperatingSystem,
        CoreError,
    >)
        requires
            self.wf(),
        ensures
            ({
                let outcome = spec_resolve(
                    OperatingSystem::spec_values(),
                    "grubEntry"@,
                    self@,
                    grub_entry@,
                );
                match r {
                    Ok(o) => outcome == Resolution::<OperatingSystem>::Found(o),
                    Err(e) => {
                        &&& e.category == ErrorCategory::Integrity
                        &&& !(outcome is Found)
                    },
                }
            }),
    {
        self.grub_entry_handler.get_object_by_value(grub_entry, &self.props)
    }

    /// The GRUB menu-entry name an operating system boots through.
    pub fn get_grub_entry(&self, os: OperatingSystem) -> (r: Result<String, CoreError>)
        requires
            self.wf(),
        ensures
            ({
                let k = spec_key_for(os, "grubEntry"@);
                match r {
                    Ok(v) => self@.contains_key(k) && v@ == self@[k],
                    Err(e) => !self@.contains_key(k) && e.category == ErrorCategory::Integrity,
                }
            }),
    {
        self.grub_entry_handler.get_value(os, &self.props)
    }

    /// The display a stored device identifier belongs to.
    pub fn get_display_by_device_id(&self, device_id: &str) -> (r: Result<Display, CoreError>)
        requires
            self.wf(),
        ensures
            ({
                let outcome = spec_resolve(Display::spec_values(), "deviceId"@, self@, device_id@);
                match r {
                    Ok(d) => outcome == Resolution::<Display>::Found(d),
                    Err(e) => {
                        &&& e.category == ErrorCategory::Integrity
                        &&& !(outcome is Found)
                    },
                }
            }),
    {
        self.device_id_handler.get_object_by_value(device_id, &self.props)
    }

    /// The display-switch command argument for a display.
    pub fn get_display_switch_arg(&self, display: Display) -> (r: Result<String, CoreError>)
        requires
            self.wf(),
        ensures
            ({
                let k = spec_key_for(display, "displaySwitchArg"@);
                match r {
                    Ok(v) => self@.contains_key(k) && v@ == self@[k],
                    Err(e) => !self@.contains_key(k) && e.category == ErrorCategory::Integrity,
                }
            }),
    {
        self.display_switch_arg_handler.get_value(display, &self.props)
    }
}

/// The write side of the configuration mappings, used by the one-time
/// configure step.
pub struct ConfigsWriter {
    configs: Configs,
}

impl View for ConfigsWriter {
    type V = Map<Seq<char>, Seq<char>>;

    closed spec fn view(&self) -> Map<Seq<char>, Seq<char>> {
        self.configs@
    }
}

impl ConfigsWriter {
    pub closed spec fn wf(self) -> bool {
        self.configs.wf()
    }

    /// The stored entries, in order.
    pub closed spec fn entries_seq(self) -> Seq<(Seq<char>, Seq<char>)> {
        self.configs.entries_seq()
    }

    pub fn load(props: Properties) -> (r: ConfigsWriter)
        requires
            props.wf(),
        ensures
            r.wf(),
            r@ == props@,
    {
        ConfigsWriter { configs: Configs::load(props) }
    }

    /// Records the GRUB menu-entry name for an operating system.
    pub fn set_grub_entry(&mut self, os: OperatingSystem, value: &str)
        requires
            old(self).wf(),
        ensures
            final(self).wf(),
            final(self)@ == old(self)@.insert(spec_key_for(os, "grubEntry"@), value@),
    {
        let handler = ConfigHandler::<OperatingSystem>::new("grubEntry", OperatingSystem::Linux);
        handler.set_value(os, value, &mut self.configs.props);
    }

    /// Records the device identifier for a display.
    pub fn set_device_id(&mut self, display: Display, value: &str)
        requires
            old(self).wf(),
        ensures
            final(self).wf(),
            final(self)@ == old(self)@.insert(spec_key_for(display, "deviceId"@), value@),
    {
        let handler = ConfigHandler::<Display>::new("deviceId", OperatingSystem::Windows);
        handler.set_value(display, value, &mut self.configs.props);
    }

    /// Records the display-switch argument for a display.
    pub fn set_display_switch_arg(&mut self, display: Display, value: &str)
        requires
            old(self).wf(),
        ensures
            final(self).wf(),
            final(self)@ == old(self)@.insert(spec_key_for(display, "displaySwitchArg"@), value@),
    {
        let handler = ConfigHandler::<Display>::new("displaySwitchArg", OperatingSystem::Windows);
        handler.set_value(display, value, &mut self.configs.props);
    }

    /// The exact file text to persist the mappings with.
    pub fn save(&self) -> (r: String)
        requires
            self.wf(),
        ensures
            r@ == crate::file_content_as_hash_map::spec_serialize(
                crate::properties::escaped_entries(self.entries_seq()),
            ),
    {
        self.configs.props.to_file_content()
    }
}

} // verus!
