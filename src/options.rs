//! The run's settings, the texts shown to the operator, and the reboot form.
use vstd::prelude::*;
use crate::counts::{ErrorCount, Thresholds};
use crate::decimal::{decimal_digits, decimal_text, decimal_value, parse_u64};

verus! {

/// The path, relative to the modem's address, that accepts the reboot form.
pub const REBOOT_PATH: &'static str = "goform/RgConfiguration.pl";

pub const DEFAULT_MODEM: &'static str = "http://192.168.100.1/";

pub const DEFAULT_HOMESERVER: &'static str = "https://synapse.hdonnay.net/";

pub const DEFAULT_CORRECTABLE_THRESHOLD: u64 = 100000;

pub const DEFAULT_UNCORRECTABLE_THRESHOLD: u64 = 1000;

/// Whether `text` is an absolute URL, as `url::Url::parse` judges it.
pub uninterp spec fn parses_as_url(text: Seq<char>) -> bool;

/// Relies on `url::Url::parse` (re-exported by reqwest) to accept or refuse
/// an address.
#[verifier::external_body]
fn url_parses(text: &str) -> (r: bool)
    ensures
        r == parses_as_url(text@),
{
    reqwest::Url::parse(text).is_ok()
}

/// Where chat notifications go.
#[derive(Debug)]
pub struct NotificationOpts {
    pub homeserver: String,
}

impl Default for NotificationOpts {
    fn default() -> (r: NotificationOpts)
        ensures
            r.homeserver@ == DEFAULT_HOMESERVER@,
    {
        NotificationOpts { homeserver: String::from_str(DEFAULT_HOMESERVER) }
    }
}

/// The settings of one run.
#[derive(Debug)]
pub struct Opts {
    pub addr: String,
    pub dry_run: bool,
    pub reset: bool,
    pub notify: bool,
    pub correctable_threshold: u64,
    pub uncorrectable_threshold: u64,
    pub notification: NotificationOpts,
}

/// Why the command-line values could not make settings.
#[derive(Clone, Copy, Debug, PartialEq, Eq, Structural)]
pub enum ConfigError {
    BadModemAddress,
    BadUncorrectableThreshold,
    BadCorrectableThreshold,
    BadHomeserver,
}

/// The command-line values, as given.
pub struct Args<'a> {
    pub modem: Option<&'a str>,
    pub uthreshold: Option<&'a str>,
    pub cthreshold: Option<&'a str>,
    pub homeserver: Option<&'a str>,
    pub dry_run: bool,
    pub dry_run_notify: bool,
    pub reset: bool,
}

pub open spec fn notification_text(c: nat, u: nat, reset: bool, dry_run: bool) -> Seq<char> {
    "Rebooting"@ + (if reset {
        " and resetting"@
    } else {
        ""@
    }) + " modem shortly: found "@ + decimal_digits(c) + " correctable, "@ + decimal_digits(u)
        + " uncorrectable errors"@ + (if dry_run {
        " (jk this is a dry run)"@
    } else {
        ""@
    }) + "."@
}

pub open spec fn action_text(reset: bool, dry_run: bool) -> Seq<char> {
    if dry_run {
        "would issue modem reboot"@
    } else {
        "issuing modem reboot"@ + (if reset {
            " and reset"@
        } else {
            ""@
        })
    }
}

pub open spec fn reset_value(reset: bool) -> Seq<char> {
    if reset {
        "1"@
    } else {
        "0"@
    }
}

/// The form-encoded body of the reboot request.
pub open spec fn form_text(reset: bool) -> Seq<char> {
    "Rebooting=1&RestoreFactoryDefault="@ + reset_value(reset)
}

impl Default for Opts {
    fn default() -> (r: Opts)
        ensures
            r.addr@ == DEFAULT_MODEM@,
            !r.dry_run,
            !r.reset,
            r.notify,
            r.correctable_threshold == DEFAULT_CORRECTABLE_THRESHOLD,
            r.uncorrectable_threshold == DEFAULT_UNCORRECTABLE_THRESHOLD,
            r.notification.homeserver@ == DEFAULT_HOMESERVER@,
    {
        Opts {
            addr: String::from_str(DEFAULT_MODEM),
            dry_run: false,
            reset: false,
            notify: true,
            correctable_threshold: DEFAULT_CORRECTABLE_THRESHOLD,
            uncorrectable_threshold: DEFAULT_UNCORRECTABLE_THRESHOLD,
            notification: NotificationOpts::default(),
        }
    }
}

impl Opts {
    /// The limits that trigger a reboot.
    pub fn thresholds(&self) -> (r: Thresholds)
        ensures
            r.correctable_threshold == self.correctable_threshold,
            r.uncorrectable_threshold == self.uncorrectable_threshold,
    {
        Thresholds {
            correctable_threshold: self.correctable_threshold,
            uncorrectable_threshold: self.uncorrectable_threshold,
        }
    }

    /// The line printed just before the reboot is (or would be) issued.
    pub fn message(&self) -> (r: String)
        ensures
            r@ == action_text(self.reset, self.dry_run),
    {
        if self.dry_run {
            String::from_str("would issue modem reboot")
        } else {
            let mut s = String::from_str("issuing modem reboot");
            proof {
                reveal_strlit("");
            }
            if self.reset {
                s.append(" and reset");
            } else {
                assert(s@ =~= s@ + ""@);
            }
            s
        }
    }

    /// The chat message that announces the reboot.
    pub fn notification_message(&self, ct: &ErrorCount) -> (r: String)
        ensures
            r@ == notification_text(
                ct.correctable as nat,
                ct.uncorrectable as nat,
                self.reset,
                self.dry_run,
            ),
    {
        proof {
            reveal_strlit("");
        }
        let mut s = String::from_str("Rebooting");
        if self.reset {
            s.append(" and resetting");
        } else {
            assert(s@ =~= s@ + ""@);
        }
        s.append(" modem shortly: found ");
        let c = decimal_text(ct.correctable);
        s.append(c.as_str());
        s.append(" correctable, ");
        let u = decimal_text(ct.uncorrectable);
        s.append(u.as_str());
        s.append(" uncorrectable errors");
        if self.dry_run {
            s.append(" (jk this is a dry run)");
        } else {
            assert(s@ =~= s@ + ""@);
        }
        s.append(".");
        assert(s@ =~= notification_text(
            ct.correctable as nat,
            ct.uncorrectable as nat,
            self.reset,
            self.dry_run,
        ));
        s
    }

    /// The form field that asks for a factory reset, or declines it.
    pub fn reset_arg(&self) -> (r: (&'static str, &'static str))
        ensures
            r.0@ == "RestoreFactoryDefault"@,
            r.1@ == reset_value(self.reset),
    {
        ("RestoreFactoryDefault", if self.reset { "1" } else { "0" })
    }

    /// The fields of the reboot form, in order.
    pub fn reboot_form(&self) -> (r: Vec<(&'static str, &'static str)>)
        ensures
            r.len() == 2,
            r[0].0@ == "Rebooting"@,
            r[0].1@ == "1"@,
            r[1].0@ == "RestoreFactoryDefault"@,
            r[1].1@ == reset_value(self.reset),
    {
        vec![("Rebooting", "1"), self.reset_arg()]
    }

    /// The reboot form, encoded as `application/x-www-form-urlencoded`.
    pub fn form_body(&self) -> (r: String)
        ensures
            r@ == form_text(self.reset),
    {
        let mut s = String::from_str("Rebooting=1&RestoreFactoryDefault=");
        s.append(self.reset_arg().1);
        s
    }

    /// Builds the settings from the command-line values; a value that is
    /// absent keeps its default. `-n` is a dry run without notifications,
    /// `-N` a dry run that still notifies.
    pub fn try_from(m: &Args) -> (r: Result<Opts, ConfigError>)
        ensures
            r matches Ok(o) ==> {
                &&& o.addr@ == (if m.modem is Some {
                    m.modem->0@
                } else {
                    DEFAULT_MODEM@
                })
                &&& o.notification.homeserver@ == (if m.homeserver is Some {
                    m.homeserver->0@
                } else {
                    DEFAULT_HOMESERVER@
                })
                &&& o.uncorrectable_threshold == (if m.uthreshold is Some {
                    decimal_value(m.uthreshold->0@)->0
                } else {
                    DEFAULT_UNCORRECTABLE_THRESHOLD as nat
                })
                &&& o.correctable_threshold == (if m.cthreshold is Some {
                    decimal_value(m.cthreshold->0@)->0
                } else {
                    DEFAULT_CORRECTABLE_THRESHOLD as nat
                })
                &&& o.dry_run == (m.dry_run || m.dry_run_notify)
                &&& o.notify == !(m.dry_run && !m.dry_run_notify)
                &&& o.reset == m.reset
            },
            r matches Err(ConfigError::BadModemAddress) <==> m.modem is Some && !parses_as_url(
                m.modem->0@,
            ),
            r matches Err(ConfigError::BadUncorrectableThreshold) <==> (m.modem is Some
                ==> parses_as_url(m.modem->0@)) && m.uthreshold is Some && decimal_value(
                m.uthreshold->0@,
            ) is None,
            r matches Err(ConfigError::BadCorrectableThreshold) <==> (m.modem is Some
                ==> parses_as_url(m.modem->0@)) && (m.uthreshold is Some ==> decimal_value(
                m.uthreshold->0@,
            ) is Some) && m.cthreshold is Some && decimal_value(m.cthreshold->0@) is None,
            r matches Err(ConfigError::BadHomeserver) <==> (m.modem is Some ==> parses_as_url(
                m.modem->0@,
            )) && (m.uthreshold is Some ==> decimal_value(m.uthreshold->0@) is Some) && (
            m.cthreshold is Some ==> decimal_value(m.cthreshold->0@) is Some) && m.homeserver is Some
                && !parses_as_url(m.homeserver->0@),
    {
        let mut opts = Opts::default();
        if let Some(v) = m.modem {
            if !url_parses(v) {
                return Err(ConfigError::BadModemAddress);
            }
            opts.addr = String::from_str(v);
        }
        if let Some(v) = m.uthreshold {
            match parse_u64(v) {
                Some(t) => opts.uncorrectable_threshold = t,
                None => return Err(ConfigError::BadUncorrectableThreshold),
            }
        }
        if let Some(v) = m.cthreshold {
            match parse_u64(v) {
                Some(t) => opts.correctable_threshold = t,
                None => return Err(ConfigError::BadCorrectableThreshold),
            }
        }
        opts.dry_run = m.dry_run || m.dry_run_notify;
        if m.dry_run && !m.dry_run_notify {
            opts.notify = false;
        }
        opts.reset = m.reset;
        if let Some(v) = m.homeserver {
            if !url_parses(v) {
                return Err(ConfigError::BadHomeserver);
            }
            opts.notification.homeserver = String::from_str(v);
        }
        Ok(opts)
    }
}

} // verus!
