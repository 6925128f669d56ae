//! What the configuration file, the command line and the defaults come to.

use std::path::PathBuf;
use vstd::prelude::*;

use crate::binary64::Binary64;
use crate::cli::Args;
use crate::config::{CoreConfig, Mode, SpeedStep};
use crate::device_discovery::{DeviceInfo, MatchCriteria};
use crate::digits;
use crate::digits::{decimal_text, hex4, parse_hex_id, parse_u32};
use crate::errors::DaemonError;
use crate::foreground::config::{ForegroundConfig, ForegroundFileConfig, ForegroundSettings};
use crate::paths;
use crate::paths::{join_path, name_of, parent_of};
use crate::text;
use crate::text::same;

verus! {

/// The directory name under the user's configuration directory. Lowercase by
/// convention.
pub const APP_DIR: &'static str = "scrollock";

/// The capitalised directory of early releases, kept for one-shot migration.
pub const LEGACY_APP_DIR: &'static str = "Scrollock";

/// A configuration file.
#[derive(Debug)]
pub struct DaemonFileConfig {
    pub device: Option<PathBuf>,
    pub device_match: Option<DeviceMatchConfig>,
    pub grab: Option<bool>,
    pub dry_run: Option<bool>,
    pub safety_timeout_seconds: Option<u64>,
    pub foreground: Option<ForegroundFileConfig>,
    pub core: CoreFileConfig,
}

/// On-disk representation of a stable mouse identifier. Survives reboots and
/// USB renumbering because it does not embed `/dev/input/eventXX`.
#[derive(Debug)]
pub struct DeviceMatchConfig {
    /// USB vendor id as a 4-digit lowercase hexadecimal string (e.g. "046d").
    pub vendor_id: String,
    /// USB product id as a 4-digit lowercase hexadecimal string (e.g. "c539").
    pub product_id: String,
    /// Optional device name reported by the kernel; use to disambiguate two
    /// identical mice plugged into the same machine.
    pub name: Option<String>,
    /// Optional physical path (`EVIOCGPHYS`) to pin the match to a specific
    /// USB port topology.
    pub phys: Option<String>,
}

/// A [`DeviceMatchConfig`] whose ids were read.
#[derive(Debug)]
pub struct ParsedDeviceMatch {
    pub vendor_id: u16,
    pub product_id: u16,
    pub name: Option<String>,
    pub phys: Option<String>,
}

/// The engine's settings, as far as a configuration file gives them.
#[derive(Debug)]
pub struct CoreFileConfig {
    pub mode: Option<Mode>,
    pub hold_threshold_ms: Option<u64>,
    pub deadzone_units: Option<i32>,
    pub full_speed_units: Option<i32>,
    pub max_offset_units: Option<i32>,
    pub min_speed_detents_per_second: Option<Binary64>,
    pub max_speed_detents_per_second: Option<Binary64>,
    pub acceleration_exponent: Option<Binary64>,
    pub scroll_speed_steps: Option<Vec<SpeedStep>>,
    pub tick_hz: Option<u32>,
    pub invert_vertical: Option<bool>,
    pub invert_horizontal: Option<bool>,
    pub suppress_motion_while_pending: Option<bool>,
    pub suppress_motion_while_scrolling: Option<bool>,
    pub replay_pending_motion_on_click: Option<bool>,
    pub emit_hires_wheel: Option<bool>,
    pub emit_legacy_wheel: Option<bool>,
    pub min_hires_units_per_event: Option<i32>,
    pub horizontal_scroll: Option<bool>,
    pub max_detents_per_tick: Option<i32>,
}

/// What the daemon runs with.
#[derive(Debug)]
pub struct ResolvedConfig {
    pub core: CoreConfig,
    pub device: Option<PathBuf>,
    pub device_match: Option<ParsedDeviceMatch>,
    pub grab: bool,
    pub dry_run: bool,
    pub safety_timeout_seconds: Option<u64>,
    pub foreground: ForegroundConfig,
}

/// The given value, or else the other one.
pub open spec fn given_or<T>(value: Option<T>, other: T) -> T {
    match value {
        Some(value) => value,
        None => other,
    }
}

fn cloned_text(value: &Option<String>) -> (r: Option<String>)
    ensures
        r == *value,
{
    match value {
        Some(value) => Some(value.clone()),
        None => None,
    }
}

pub(crate) fn text_ref<'a>(value: &'a Option<String>) -> (r: Option<&'a str>)
    ensures
        match r {
            Some(s) => text::text_of(*value) == Some(s@),
            None => *value is None,
        },
{
    match value {
        Some(value) => Some(value.as_str()),
        None => None,
    }
}

/// Two ids with a colon between them.
pub open spec fn id_pair(vendor_id: u16, product_id: u16) -> Seq<char> {
    digits::four_digits(vendor_id) + ":"@ + digits::four_digits(product_id)
}

/// The ids of a device, as people write them.
pub fn human_id(vendor_id: u16, product_id: u16) -> (r: String)
    ensures
        r@ == id_pair(vendor_id, product_id),
{
    let mut out: String = hex4(vendor_id);
    out.append(":");
    out.append(hex4(product_id).as_str());
    out
}

impl DeviceMatchConfig {
    /// Whether the block is the one for a device: its ids in four digits each,
    /// its name where it has one, and its port where that is pinned.
    pub open spec fn stands_for(self, device: DeviceInfo, pin_port: bool) -> bool {
        &&& self.vendor_id@ == digits::four_digits(device.vendor_id)
        &&& self.product_id@ == digits::four_digits(device.product_id)
        &&& self.name == (if device.name@.len() == 0 { None } else { Some(device.name) })
        &&& self.phys == (if pin_port { device.phys } else { None })
    }

    /// Builds a stable match block from a probed device. `phys` (the USB port
    /// topology) is only written when `pin_port` is set, so by default the
    /// mouse is matched by USB id and keeps working on any port.
    pub fn from_device(device: &DeviceInfo, pin_port: bool) -> (r: DeviceMatchConfig)
        ensures
            r.stands_for(*device, pin_port),
    {
        DeviceMatchConfig {
            vendor_id: device.vendor_hex(),
            product_id: device.product_hex(),
            name: if device.name.as_str().is_empty() {
                None
            } else {
                Some(device.name.clone())
            },
            phys: if pin_port {
                cloned_text(&device.phys)
            } else {
                None
            },
        }
    }

    /// What the block comes to.
    pub open spec fn parsed(self, m: ParsedDeviceMatch) -> bool {
        &&& digits::usb_id(self.vendor_id@) == Some(m.vendor_id as int)
        &&& digits::usb_id(self.product_id@) == Some(m.product_id as int)
        &&& m.name == self.name
        &&& m.phys == self.phys
    }

    /// What is wrong with the block: the field and its value, the vendor id
    /// first.
    pub open spec fn fault(self) -> Option<(Seq<char>, Seq<char>)> {
        if digits::usb_id(self.vendor_id@) is None {
            Some(("vendor_id"@, self.vendor_id@))
        } else if digits::usb_id(self.product_id@) is None {
            Some(("product_id"@, self.product_id@))
        } else {
            None
        }
    }

    /// Reads the ids.
    pub fn parse(&self) -> (r: Result<ParsedDeviceMatch, DaemonError>)
        ensures
            match r {
                Ok(m) => self.fault() is None && self.parsed(m),
                Err(e) => e matches DaemonError::DeviceMatchInvalid { field, value }
                    && self.fault() == Some((field@, value@)),
            },
    {
        let vendor_id: u16 = match parse_hex_id(self.vendor_id.as_str()) {
            Some(id) => id,
            None => {
                return Err(
                    DaemonError::DeviceMatchInvalid {
                        field: "vendor_id".to_owned(),
                        value: self.vendor_id.clone(),
                    },
                );
            },
        };
        let product_id: u16 = match parse_hex_id(self.product_id.as_str()) {
            Some(id) => id,
            None => {
                return Err(
                    DaemonError::DeviceMatchInvalid {
                        field: "product_id".to_owned(),
                        value: self.product_id.clone(),
                    },
                );
            },
        };
        Ok(
            ParsedDeviceMatch {
                vendor_id,
                product_id,
                name: cloned_text(&self.name),
                phys: cloned_text(&self.phys),
            },
        )
    }
}

impl ParsedDeviceMatch {
    /// Whether the criteria are these.
    pub open spec fn asks_for(self, criteria: MatchCriteria) -> bool {
        &&& criteria.vendor_id == self.vendor_id
        &&& criteria.product_id == self.product_id
        &&& match criteria.name {
            Some(s) => text::text_of(self.name) == Some(s@),
            None => self.name is None,
        }
        &&& match criteria.phys {
            Some(s) => text::text_of(self.phys) == Some(s@),
            None => self.phys is None,
        }
    }

    pub fn as_criteria(&self) -> (r: MatchCriteria<'_>)
        ensures
            self.asks_for(r),
    {
        MatchCriteria {
            vendor_id: self.vendor_id,
            product_id: self.product_id,
            name: text_ref(&self.name),
            phys: text_ref(&self.phys),
        }
    }

    /// A copy.
    pub(crate) fn copied(&self) -> (r: ParsedDeviceMatch)
        ensures
            r == *self,
    {
        ParsedDeviceMatch {
            vendor_id: self.vendor_id,
            product_id: self.product_id,
            name: cloned_text(&self.name),
            phys: cloned_text(&self.phys),
        }
    }

    pub fn human_id(&self) -> (r: String)
        ensures
            r@ == id_pair(self.vendor_id, self.product_id),
    {
        human_id(self.vendor_id, self.product_id)
    }
}

impl CoreFileConfig {
    /// The file's settings on top of others.
    pub open spec fn over(self, base: CoreConfig) -> CoreConfig {
        CoreConfig {
            mode: given_or(self.mode, base.mode),
            hold_threshold_ms: given_or(self.hold_threshold_ms, base.hold_threshold_ms),
            deadzone_units: given_or(self.deadzone_units, base.deadzone_units),
            full_speed_units: given_or(self.full_speed_units, base.full_speed_units),
            max_offset_units: given_or(self.max_offset_units, base.max_offset_units),
            min_speed_detents_per_second: given_or(
                self.min_speed_detents_per_second,
                base.min_speed_detents_per_second,
            ),
            max_speed_detents_per_second: given_or(
                self.max_speed_detents_per_second,
                base.max_speed_detents_per_second,
            ),
            acceleration_exponent: given_or(
                self.acceleration_exponent,
                base.acceleration_exponent,
            ),
            scroll_speed_steps: given_or(self.scroll_speed_steps, base.scroll_speed_steps),
            tick_hz: given_or(self.tick_hz, base.tick_hz),
            invert_vertical: given_or(self.invert_vertical, base.invert_vertical),
            invert_horizontal: given_or(self.invert_horizontal, base.invert_horizontal),
            suppress_motion_while_pending: given_or(
                self.suppress_motion_while_pending,
                base.suppress_motion_while_pending,
            ),
            suppress_motion_while_scrolling: given_or(
                self.suppress_motion_while_scrolling,
                base.suppress_motion_while_scrolling,
            ),
            replay_pending_motion_on_click: given_or(
                self.replay_pending_motion_on_click,
                base.replay_pending_motion_on_click,
            ),
            emit_hires_wheel: given_or(self.emit_hires_wheel, base.emit_hires_wheel),
            emit_legacy_wheel: given_or(self.emit_legacy_wheel, base.emit_legacy_wheel),
            min_hires_units_per_event: given_or(
                self.min_hires_units_per_event,
                base.min_hires_units_per_event,
            ),
            horizontal_scroll: given_or(self.horizontal_scroll, base.horizontal_scroll),
            max_detents_per_tick: given_or(self.max_detents_per_tick, base.max_detents_per_tick),
        }
    }

    /// No settings at all.
    pub open spec fn nothing() -> CoreFileConfig {
        CoreFileConfig {
            mode: None,
            hold_threshold_ms: None,
            deadzone_units: None,
            full_speed_units: None,
            max_offset_units: None,
            min_speed_detents_per_second: None,
            max_speed_detents_per_second: None,
            acceleration_exponent: None,
            scroll_speed_steps: None,
            tick_hz: None,
            invert_vertical: None,
            invert_horizontal: None,
            suppress_motion_while_pending: None,
            suppress_motion_while_scrolling: None,
            replay_pending_motion_on_click: None,
            emit_hires_wheel: None,
            emit_legacy_wheel: None,
            min_hires_units_per_event: None,
            horizontal_scroll: None,
            max_detents_per_tick: None,
        }
    }

    /// The file's settings on top of `base`.
    pub fn into_core(self, base: CoreConfig) -> (r: CoreConfig)
        ensures
            r == self.over(base),
    {
        CoreConfig {
            mode: self.mode.unwrap_or(base.mode),
            hold_threshold_ms: self.hold_threshold_ms.unwrap_or(base.hold_threshold_ms),
            deadzone_units: self.deadzone_units.unwrap_or(base.deadzone_units),
            full_speed_units: self.full_speed_units.unwrap_or(base.full_speed_units),
            max_offset_units: self.max_offset_units.unwrap_or(base.max_offset_units),
            min_speed_detents_per_second: self.min_speed_detents_per_second.unwrap_or(base.min_speed_detents_per_second),
            max_speed_detents_per_second: self.max_speed_detents_per_second.unwrap_or(base.max_speed_detents_per_second),
            acceleration_exponent: self.acceleration_exponent.unwrap_or(base.acceleration_exponent),
            scroll_speed_steps: self.scroll_speed_steps.unwrap_or(base.scroll_speed_steps),
            tick_hz: self.tick_hz.unwrap_or(base.tick_hz),
            invert_vertical: self.invert_vertical.unwrap_or(base.invert_vertical),
            invert_horizontal: self.invert_horizontal.unwrap_or(base.invert_horizontal),
            suppress_motion_while_pending: self.suppress_motion_while_pending.unwrap_or(base.suppress_motion_while_pending),
            suppress_motion_while_scrolling: self.suppress_motion_while_scrolling.unwrap_or(base.suppress_motion_while_scrolling),
            replay_pending_motion_on_click: self.replay_pending_motion_on_click.unwrap_or(base.replay_pending_motion_on_click),
            emit_hires_wheel: self.emit_hires_wheel.unwrap_or(base.emit_hires_wheel),
            emit_legacy_wheel: self.emit_legacy_wheel.unwrap_or(base.emit_legacy_wheel),
            min_hires_units_per_event: self.min_hires_units_per_event.unwrap_or(base.min_hires_units_per_event),
            horizontal_scroll: self.horizontal_scroll.unwrap_or(base.horizontal_scroll),
            max_detents_per_tick: self.max_detents_per_tick.unwrap_or(base.max_detents_per_tick),
        }
    }
}

impl Default for CoreFileConfig {
    fn default() -> (r: CoreFileConfig)
        ensures
            r == CoreFileConfig::nothing(),
    {
        CoreFileConfig {
            mode: None,
            hold_threshold_ms: None,
            deadzone_units: None,
            full_speed_units: None,
            max_offset_units: None,
            min_speed_detents_per_second: None,
            max_speed_detents_per_second: None,
            acceleration_exponent: None,
            scroll_speed_steps: None,
            tick_hz: None,
            invert_vertical: None,
            invert_horizontal: None,
            suppress_motion_while_pending: None,
            suppress_motion_while_scrolling: None,
            replay_pending_motion_on_click: None,
            emit_hires_wheel: None,
            emit_legacy_wheel: None,
            min_hires_units_per_event: None,
            horizontal_scroll: None,
            max_detents_per_tick: None,
        }
    }
}

impl DaemonFileConfig {
    /// A file that says nothing.
    pub open spec fn nothing() -> DaemonFileConfig {
        DaemonFileConfig {
            device: None,
            device_match: None,
            grab: None,
            dry_run: None,
            safety_timeout_seconds: None,
            foreground: None,
            core: CoreFileConfig::nothing(),
        }
    }
}

impl Default for DaemonFileConfig {
    fn default() -> (r: DaemonFileConfig)
        ensures
            r == DaemonFileConfig::nothing(),
    {
        DaemonFileConfig {
            device: None,
            device_match: None,
            grab: None,
            dry_run: None,
            safety_timeout_seconds: None,
            foreground: None,
            core: CoreFileConfig::default(),
        }
    }
}

/// What is wrong with the ids in a configuration file.
pub open spec fn file_fault(file: Option<DaemonFileConfig>) -> Option<(Seq<char>, Seq<char>)> {
    match file {
        Some(file) => match file.device_match {
            Some(block) => block.fault(),
            None => None,
        },
        None => None,
    }
}

/// The engine's settings: the file's on top of the defaults.
pub open spec fn core_settings(file: Option<DaemonFileConfig>, defaults: CoreConfig) -> CoreConfig {
    match file {
        Some(file) => file.core.over(defaults),
        None => defaults,
    }
}

/// A setting of the file.
pub open spec fn file_setting<T>(
    file: Option<DaemonFileConfig>,
    setting: spec_fn(DaemonFileConfig) -> Option<T>,
) -> Option<T> {
    match file {
        Some(file) => setting(file),
        None => None,
    }
}

/// Whether a configuration is what the command line and the file come to. The
/// command line goes first: a device given there takes the place of both forms
/// in the file, of which the stable one goes before the plain path.
pub open spec fn resolved(args: Args, file: Option<DaemonFileConfig>, r: ResolvedConfig) -> bool {
    let block = file_setting(file, |f: DaemonFileConfig| f.device_match);
    let path = file_setting(file, |f: DaemonFileConfig| f.device);
    let foreground = file_setting(file, |f: DaemonFileConfig| f.foreground);
    &&& exists|defaults: CoreConfig| #[trigger]
        defaults.is_default() && r.core == core_settings(file, defaults)
    &&& r.device == (if args.device is Some {
        args.device
    } else if block is Some {
        None
    } else {
        path
    })
    &&& match r.device_match {
        Some(m) => args.device is None && block is Some && block->0.parsed(m),
        None => args.device is Some || block is None,
    }
    &&& r.grab == (!args.no_grab && given_or(file_setting(file, |f: DaemonFileConfig| f.grab), true))
    &&& r.dry_run == (args.dry_run || given_or(
        file_setting(file, |f: DaemonFileConfig| f.dry_run),
        false,
    ))
    &&& r.safety_timeout_seconds == (if args.safety_timeout_seconds is Some {
        args.safety_timeout_seconds
    } else {
        file_setting(file, |f: DaemonFileConfig| f.safety_timeout_seconds)
    })
    &&& r.foreground@ == (match foreground {
        Some(table) => table.resolved(),
        None => ForegroundSettings::defaults(),
    })
}

/// Resolves the command line and the configuration file, where there is one.
/// Ids that are none are complained of first, settings that make no sense
/// after that.
pub fn resolve(args: &Args, file: Option<DaemonFileConfig>) -> (r: Result<
    ResolvedConfig,
    DaemonError,
>)
    ensures
        match r {
            Ok(cfg) => file_fault(file) is None && resolved(*args, file, cfg) && cfg.core.valid(),
            Err(DaemonError::DeviceMatchInvalid { field, value }) => file_fault(file) == Some(
                (field@, value@),
            ),
            Err(DaemonError::ConfigInvalid(e)) => file_fault(file) is None && exists|
                defaults: CoreConfig,
            | #[trigger]
                defaults.is_default() && !core_settings(file, defaults).valid() && core_settings(
                    file,
                    defaults,
                ).complaint(e),
            Err(_) => false,
        },
{
    let mut core: CoreConfig = CoreConfig::default();
    let ghost defaults = core;
    assert(defaults.is_default());
    let mut device: Option<PathBuf> = None;
    let mut device_match: Option<ParsedDeviceMatch> = None;
    let mut grab: bool = true;
    let mut dry_run: bool = false;
    let mut safety_timeout_seconds: Option<u64> = None;
    let mut foreground: ForegroundConfig = ForegroundConfig::default();
    if let Some(file) = file {
        core = file.core.into_core(core);
        if let Some(block) = file.device_match {
            match block.parse() {
                Ok(parsed) => {
                    device_match = Some(parsed);
                },
                Err(e) => {
                    return Err(e);
                },
            }
        }
        if device_match.is_none() {
            device = file.device;
        }
        if let Some(v) = file.grab {
            grab = v;
        }
        if let Some(v) = file.dry_run {
            dry_run = v;
        }
        safety_timeout_seconds = file.safety_timeout_seconds;
        if let Some(table) = file.foreground {
            foreground = table.into_resolved();
        }
    }
    if let Some(path) = &args.device {
        device = Some(path.clone());
        device_match = None;
    }
    if args.no_grab {
        grab = false;
    }
    if args.dry_run {
        dry_run = true;
    }
    if args.safety_timeout_seconds.is_some() {
        safety_timeout_seconds = args.safety_timeout_seconds;
    }
    match core.validate() {
        Ok(()) => {},
        Err(e) => {
            return Err(DaemonError::ConfigInvalid(e));
        },
    }
    Ok(
        ResolvedConfig {
            core,
            device,
            device_match,
            grab,
            dry_run,
            safety_timeout_seconds,
            foreground,
        },
    )
}

/// Whether the file holds both forms of a device, of which the plain path
/// counts for nothing.
pub fn shadows_plain_path(file: &DaemonFileConfig) -> (r: bool)
    ensures
        r == (file.device is Some && file.device_match is Some),
{
    file.device.is_some() && file.device_match.is_some()
}

/// Whether a file is what another comes to when a device is saved to it: the
/// stable form where the device could be probed, else the plain path;
/// everything else is kept.
pub open spec fn saved(
    file: DaemonFileConfig,
    device: PathBuf,
    probed: Option<DeviceInfo>,
    pin_port: bool,
    r: DaemonFileConfig,
) -> bool {
    &&& r == (DaemonFileConfig { device: r.device, device_match: r.device_match, ..file })
    &&& match probed {
        Some(info) => r.device is None && r.device_match is Some && r.device_match->0.stands_for(
            info,
            pin_port,
        ),
        None => r.device == Some(device) && r.device_match is None,
    }
}

/// The settings of a file after a device was saved to it.
pub fn with_saved_device(
    file: DaemonFileConfig,
    device: PathBuf,
    probed: Option<&DeviceInfo>,
    pin_port: bool,
) -> (r: DaemonFileConfig)
    ensures
        match probed {
            Some(info) => saved(file, device, Some(*info), pin_port, r),
            None => saved(file, device, None, pin_port, r),
        },
{
    match probed {
        Some(info) => DaemonFileConfig {
            device: None,
            device_match: Some(DeviceMatchConfig::from_device(info, pin_port)),
            grab: file.grab,
            dry_run: file.dry_run,
            safety_timeout_seconds: file.safety_timeout_seconds,
            foreground: file.foreground,
            core: file.core,
        },
        None => DaemonFileConfig {
            device: Some(device),
            device_match: None,
            grab: file.grab,
            dry_run: file.dry_run,
            safety_timeout_seconds: file.safety_timeout_seconds,
            foreground: file.foreground,
            core: file.core,
        },
    }
}

/// A device that was probed and saved is found again by the next start that
/// names no other: the file's ids are in order, and what they come to is met by
/// the device, under whatever path it then has. Where the port was not pinned
/// it is met on every port.
pub proof fn law_saved_device_is_found_again(
    args: Args,
    before: DaemonFileConfig,
    path: PathBuf,
    device: DeviceInfo,
    pin_port: bool,
    after: DaemonFileConfig,
    cfg: ResolvedConfig,
    criteria: MatchCriteria,
    later: DeviceInfo,
)
    requires
        saved(before, path, Some(device), pin_port, after),
        args.device is None,
        resolved(args, Some(after), cfg),
        cfg.device_match matches Some(m) ==> m.asks_for(criteria),
        later == (DeviceInfo { path: later.path, phys: later.phys, ..device }),
        pin_port ==> later.phys == device.phys,
    ensures
        file_fault(Some(after)) is None,
        cfg.device is None,
        cfg.device_match is Some,
        criteria.met_by(later),
{
    digits::law_usb_ids_read_back(device.vendor_id);
    digits::law_usb_ids_read_back(device.product_id);
}

/// What the command line says goes before what the file says.
pub proof fn law_command_line_goes_first(
    args: Args,
    file: Option<DaemonFileConfig>,
    r: ResolvedConfig,
)
    requires
        resolved(args, file, r),
    ensures
        args.device is Some ==> r.device == args.device && r.device_match is None,
        args.no_grab ==> !r.grab,
        args.dry_run ==> r.dry_run,
        args.safety_timeout_seconds is Some ==> r.safety_timeout_seconds
            == args.safety_timeout_seconds,
        r.device is None || r.device_match is None,
{
}

/// Without a file and without options the defaults apply.
pub proof fn law_defaults_apply(args: Args, r: ResolvedConfig)
    requires
        resolved(args, None, r),
        args.device is None,
        !args.no_grab,
        !args.dry_run,
        args.safety_timeout_seconds is None,
    ensures
        r.core.is_default(),
        r.device is None,
        r.device_match is None,
        r.grab,
        !r.dry_run,
        r.safety_timeout_seconds is None,
        r.foreground@ == ForegroundSettings::defaults(),
{
}

/// The places where a configuration file may be.
#[derive(Debug)]
pub struct ConfigPlaces {
    /// That of the user who called `sudo`.
    pub sudo_user: Option<PathBuf>,
    /// That of the user.
    pub default: Option<PathBuf>,
}

/// What is on disk at the chosen place, and at its capitalised sibling.
#[derive(Debug)]
pub struct ConfigOnDisk {
    pub preferred_exists: bool,
    pub legacy: Option<PathBuf>,
    pub legacy_exists: bool,
}

/// The place of the configuration file: the one that was given, else that of
/// the user who called `sudo`, else that of the user.
pub open spec fn preferred(args: Args, places: ConfigPlaces) -> Option<PathBuf> {
    if args.config is Some {
        args.config
    } else if places.sudo_user is Some {
        places.sudo_user
    } else {
        places.default
    }
}

/// A file that exists only under the capitalised name is used under that name.
pub open spec fn migrated(preferred: PathBuf, disk: ConfigOnDisk) -> PathBuf {
    if !disk.preferred_exists && disk.legacy is Some && disk.legacy_exists {
        disk.legacy->0
    } else {
        preferred
    }
}

/// The place of the configuration file, whatever is on disk: settings are saved
/// there.
pub fn preferred_config_path(args: &Args, places: ConfigPlaces) -> (r: Option<PathBuf>)
    ensures
        r == preferred(*args, places),
{
    match &args.config {
        Some(path) => Some(path.clone()),
        None => {
            if places.sudo_user.is_some() {
                places.sudo_user
            } else {
                places.default
            }
        },
    }
}

/// The configuration file to read, where there is a place for one.
pub fn effective_config_path(args: &Args, places: ConfigPlaces, disk: ConfigOnDisk) -> (r: Option<
    PathBuf,
>)
    ensures
        r == (match preferred(*args, places) {
            Some(path) => Some(migrated(path, disk)),
            None => None,
        }),
{
    match preferred_config_path(args, places) {
        Some(path) => Some(migrate_legacy_path(path, disk)),
        None => None,
    }
}

/// If only the capitalised directory exists, its file is read so existing users
/// do not silently lose their configuration. The next save writes to the
/// new location.
pub fn migrate_legacy_path(preferred: PathBuf, disk: ConfigOnDisk) -> (r: PathBuf)
    ensures
        r == migrated(preferred, disk),
{
    if disk.preferred_exists {
        return preferred;
    }
    match disk.legacy {
        Some(legacy) => {
            if disk.legacy_exists {
                legacy
            } else {
                preferred
            }
        },
        None => preferred,
    }
}

/// Settings are read back from where they were saved: once a file is at the
/// preferred place, its capitalised sibling counts for nothing.
pub proof fn law_saved_file_is_read(args: Args, places: ConfigPlaces, disk: ConfigOnDisk)
    requires
        disk.preferred_exists,
    ensures
        preferred(args, places) matches Some(path) ==> migrated(path, disk) == path,
{
}

/// The same file under the capitalised directory name.
pub open spec fn capitalised(path: Seq<char>) -> Option<Seq<char>> {
    match paths::parent_path(path) {
        Some(parent) => if paths::path_name(parent) == Some(APP_DIR@) {
            match (paths::parent_path(parent), paths::path_name(path)) {
                (Some(grandparent), Some(name)) => Some(
                    paths::joined_path(
                        paths::joined_path(grandparent, LEGACY_APP_DIR@),
                        name,
                    ),
                ),
                _ => None,
            }
        } else {
            None
        },
        None => None,
    }
}

/// The same file under the capitalised directory name; none for a file that is
/// not in the application's directory.
pub fn legacy_sibling(path: &str) -> (r: Option<String>)
    ensures
        text::text_of(r) == capitalised(path@),
{
    let parent: String = match parent_of(path) {
        Some(parent) => parent,
        None => {
            return None;
        },
    };
    match name_of(parent.as_str()) {
        Some(name) => {
            if !same(name.as_str(), APP_DIR) {
                return None;
            }
        },
        None => {
            return None;
        },
    }
    match (parent_of(parent.as_str()), name_of(path)) {
        (Some(grandparent), Some(name)) => Some(
            sibling_path(grandparent.as_str(), name.as_str()),
        ),
        _ => None,
    }
}

/// A file in the capitalised directory.
pub fn sibling_path(grandparent: &str, name: &str) -> (r: String)
    ensures
        r@ == paths::joined_path(paths::joined_path(grandparent@, LEGACY_APP_DIR@), name@),
{
    join_path(join_path(grandparent, LEGACY_APP_DIR).as_str(), name)
}

/// The user who called `sudo`; `root` and nobody do not count.
pub fn sudo_user_name<'a>(sudo_user: Option<&'a str>) -> (r: Option<&'a str>)
    ensures
        r matches Some(name) ==> sudo_user == Some(name) && name@.len() > 0 && name@ != "root"@,
        r is None ==> sudo_user is None || sudo_user->0@.len() == 0 || sudo_user->0@ == "root"@,
        r == (match sudo_user {
            Some(name) => if name@.len() == 0 || name@ == "root"@ {
                None
            } else {
                Some(name)
            },
            None => None,
        }),
{
    match sudo_user {
        Some(name) => {
            if name.is_empty() || same(name, "root") {
                None
            } else {
                Some(name)
            }
        },
        None => None,
    }
}

/// The number that a variable holds.
pub open spec fn id_of(value: Option<&str>) -> Option<int> {
    match value {
        Some(value) => digits::number_up_to(value@, 10, u32::MAX as int),
        None => None,
    }
}

/// The ids of the user who called `sudo`, where both are known.
pub fn sudo_owner(uid: Option<&str>, gid: Option<&str>) -> (r: Option<(u32, u32)>)
    ensures
        match r {
            Some((u, g)) => id_of(uid) == Some(u as int) && id_of(gid) == Some(g as int),
            None => id_of(uid) is None || id_of(gid) is None,
        },
{
    let u: Option<u32> = match uid {
        Some(value) => parse_u32(value),
        None => None,
    };
    let g: Option<u32> = match gid {
        Some(value) => parse_u32(value),
        None => None,
    };
    match (u, g) {
        (Some(u), Some(g)) => Some((u, g)),
        _ => None,
    }
}

/// Whose a written configuration file shall be: that of the user who called
/// `sudo`, unless the file was chosen explicitly.
pub fn file_owner(args: &Args, owner: Option<(u32, u32)>) -> (r: Option<(u32, u32)>)
    ensures
        args.config is Some ==> r is None,
        args.config is None ==> r == owner,
        r == (if args.config is None { owner } else { None }),
{
    if args.config.is_none() {
        owner
    } else {
        None
    }
}

/// Whose the directory of a written configuration file shall be: it changes
/// hands only where it was made for the file.
pub fn directory_owner(owner: Option<(u32, u32)>, existed: bool) -> (r: Option<(u32, u32)>)
    ensures
        existed ==> r is None,
        !existed ==> r == owner,
        r == (if existed { None } else { owner }),
{
    if existed {
        None
    } else {
        owner
    }
}

/// What a component of a path is.
#[derive(Debug, Clone, Copy, PartialEq, Eq, Structural)]
pub enum PathState {
    Missing,
    Plain,
    Symlink,
    Unreadable,
}

/// Whether a component stands in the way of writing.
pub open spec fn objectionable(state: PathState) -> bool {
    state == PathState::Symlink || state == PathState::Unreadable
}

/// The first component that stands in the way of writing: a symbolic link, or
/// one that cannot be looked at. Components that do not exist yet do not.
pub fn first_objection(states: &Vec<PathState>) -> (r: Option<usize>)
    ensures
        match r {
            Some(i) => {
                &&& i < states@.len()
                &&& objectionable(states@[i as int])
                &&& forall|j: int| 0 <= j < i ==> !objectionable(#[trigger] states@[j])
            },
            None => forall|j: int|
                0 <= j < states@.len() ==> !objectionable(#[trigger] states@[j]),
        },
{
    let mut i: usize = 0;
    while i < states.len()
        invariant
            i <= states@.len(),
            forall|j: int| 0 <= j < i ==> !objectionable(#[trigger] states@[j]),
        decreases states@.len() - i,
    {
        match states[i] {
            PathState::Symlink | PathState::Unreadable => {
                return Some(i);
            },
            _ => {},
        }
        i += 1;
    }
    None
}

/// The name of the file that is written first and then put in place.
pub fn temporary_name(file_name: &str, nonce: u128) -> (r: String)
    ensures
        r@ == "."@ + file_name@ + "."@ + digits::decimal(nonce as nat) + ".tmp"@,
{
    let mut out: String = String::new();
    out.append(".");
    out.append(file_name);
    out.append(".");
    out.append(decimal_text(nonce).as_str());
    out.append(".tmp");
    assert(out@ =~= "."@ + file_name@ + "."@ + digits::decimal(nonce as nat) + ".tmp"@);
    out
}

/// Every setting of a file reaches the field of its name and no other: a field
/// that the file sets has the file's value, and one that it does not set keeps
/// the value from before.
pub proof fn law_settings_reach_their_fields(file: CoreFileConfig, base: CoreConfig)
    ensures
        file.mode matches Some(v) ==> file.over(base).mode == v,
        file.hold_threshold_ms matches Some(v) ==> file.over(base).hold_threshold_ms == v,
        file.deadzone_units matches Some(v) ==> file.over(base).deadzone_units == v,
        file.full_speed_units matches Some(v) ==> file.over(base).full_speed_units == v,
        file.max_offset_units matches Some(v) ==> file.over(base).max_offset_units == v,
        file.min_speed_detents_per_second matches Some(v) ==> file.over(base).min_speed_detents_per_second == v,
        file.max_speed_detents_per_second matches Some(v) ==> file.over(base).max_speed_detents_per_second == v,
        file.acceleration_exponent matches Some(v) ==> file.over(base).acceleration_exponent == v,
        file.scroll_speed_steps matches Some(v) ==> file.over(base).scroll_speed_steps == v,
        file.tick_hz matches Some(v) ==> file.over(base).tick_hz == v,
        file.invert_vertical matches Some(v) ==> file.over(base).invert_vertical == v,
        file.invert_horizontal matches Some(v) ==> file.over(base).invert_horizontal == v,
        file.suppress_motion_while_pending matches Some(v) ==> file.over(base).suppress_motion_while_pending == v,
        file.suppress_motion_while_scrolling matches Some(v) ==> file.over(base).suppress_motion_while_scrolling == v,
        file.replay_pending_motion_on_click matches Some(v) ==> file.over(base).replay_pending_motion_on_click == v,
        file.emit_hires_wheel matches Some(v) ==> file.over(base).emit_hires_wheel == v,
        file.emit_legacy_wheel matches Some(v) ==> file.over(base).emit_legacy_wheel == v,
        file.min_hires_units_per_event matches Some(v) ==> file.over(base).min_hires_units_per_event == v,
        file.horizontal_scroll matches Some(v) ==> file.over(base).horizontal_scroll == v,
        file.max_detents_per_tick matches Some(v) ==> file.over(base).max_detents_per_tick == v,
        file.mode is None ==> file.over(base).mode == base.mode,
        file.hold_threshold_ms is None ==> file.over(base).hold_threshold_ms == base.hold_threshold_ms,
        file.deadzone_units is None ==> file.over(base).deadzone_units == base.deadzone_units,
        file.full_speed_units is None ==> file.over(base).full_speed_units == base.full_speed_units,
        file.max_offset_units is None ==> file.over(base).max_offset_units == base.max_offset_units,
        file.min_speed_detents_per_second is None ==> file.over(base).min_speed_detents_per_second == base.min_speed_detents_per_second,
        file.max_speed_detents_per_second is None ==> file.over(base).max_speed_detents_per_second == base.max_speed_detents_per_second,
        file.acceleration_exponent is None ==> file.over(base).acceleration_exponent == base.acceleration_exponent,
        file.scroll_speed_steps is None ==> file.over(base).scroll_speed_steps == base.scroll_speed_steps,
        file.tick_hz is None ==> file.over(base).tick_hz == base.tick_hz,
        file.invert_vertical is None ==> file.over(base).invert_vertical == base.invert_vertical,
        file.invert_horizontal is None ==> file.over(base).invert_horizontal == base.invert_horizontal,
        file.suppress_motion_while_pending is None ==> file.over(base).suppress_motion_while_pending == base.suppress_motion_while_pending,
        file.suppress_motion_while_scrolling is None ==> file.over(base).suppress_motion_while_scrolling == base.suppress_motion_while_scrolling,
        file.replay_pending_motion_on_click is None ==> file.over(base).replay_pending_motion_on_click == base.replay_pending_motion_on_click,
        file.emit_hires_wheel is None ==> file.over(base).emit_hires_wheel == base.emit_hires_wheel,
        file.emit_legacy_wheel is None ==> file.over(base).emit_legacy_wheel == base.emit_legacy_wheel,
        file.min_hires_units_per_event is None ==> file.over(base).min_hires_units_per_event == base.min_hires_units_per_event,
        file.horizontal_scroll is None ==> file.over(base).horizontal_scroll == base.horizontal_scroll,
        file.max_detents_per_tick is None ==> file.over(base).max_detents_per_tick == base.max_detents_per_tick,
{
}

/// What a configuration file says of the engine is what the engine runs with,
/// setting by setting, and what it does not say is as by default.
pub proof fn law_file_sets_the_engine(args: Args, file: DaemonFileConfig, r: ResolvedConfig)
    requires
        resolved(args, Some(file), r),
    ensures
        file.core.mode matches Some(v) ==> r.core.mode == v,
        file.core.hold_threshold_ms matches Some(v) ==> r.core.hold_threshold_ms == v,
        file.core.deadzone_units matches Some(v) ==> r.core.deadzone_units == v,
        file.core.full_speed_units matches Some(v) ==> r.core.full_speed_units == v,
        file.core.max_offset_units matches Some(v) ==> r.core.max_offset_units == v,
        file.core.min_speed_detents_per_second matches Some(v) ==> r.core.min_speed_detents_per_second == v,
        file.core.max_speed_detents_per_second matches Some(v) ==> r.core.max_speed_detents_per_second == v,
        file.core.acceleration_exponent matches Some(v) ==> r.core.acceleration_exponent == v,
        file.core.scroll_speed_steps matches Some(v) ==> r.core.scroll_speed_steps == v,
        file.core.tick_hz matches Some(v) ==> r.core.tick_hz == v,
        file.core.invert_vertical matches Some(v) ==> r.core.invert_vertical == v,
        file.core.invert_horizontal matches Some(v) ==> r.core.invert_horizontal == v,
        file.core.suppress_motion_while_pending matches Some(v) ==> r.core.suppress_motion_while_pending == v,
        file.core.suppress_motion_while_scrolling matches Some(v) ==> r.core.suppress_motion_while_scrolling == v,
        file.core.replay_pending_motion_on_click matches Some(v) ==> r.core.replay_pending_motion_on_click == v,
        file.core.emit_hires_wheel matches Some(v) ==> r.core.emit_hires_wheel == v,
        file.core.emit_legacy_wheel matches Some(v) ==> r.core.emit_legacy_wheel == v,
        file.core.min_hires_units_per_event matches Some(v) ==> r.core.min_hires_units_per_event == v,
        file.core.horizontal_scroll matches Some(v) ==> r.core.horizontal_scroll == v,
        file.core.max_detents_per_tick matches Some(v) ==> r.core.max_detents_per_tick == v,
        file.core.mode is None ==> r.core.mode == Mode::Toggle,
        file.core.hold_threshold_ms is None ==> r.core.hold_threshold_ms == 155,
        file.core.deadzone_units is None ==> r.core.deadzone_units == 10,
        file.core.full_speed_units is None ==> r.core.full_speed_units == 120,
        file.core.max_offset_units is None ==> r.core.max_offset_units == 240,
        file.core.min_speed_detents_per_second is None ==> r.core.min_speed_detents_per_second.bits == 0x3ff8_0000_0000_0000,
        file.core.max_speed_detents_per_second is None ==> r.core.max_speed_detents_per_second.bits == 0x4040_0000_0000_0000,
        file.core.acceleration_exponent is None ==> r.core.acceleration_exponent.bits == 0x3ff9_9999_9999_999a,
        file.core.scroll_speed_steps is None ==> r.core.scroll_speed_steps@.len() == 0,
        file.core.tick_hz is None ==> r.core.tick_hz == 120,
        file.core.invert_vertical is None ==> !r.core.invert_vertical,
        file.core.invert_horizontal is None ==> !r.core.invert_horizontal,
        file.core.suppress_motion_while_pending is None ==> r.core.suppress_motion_while_pending,
        file.core.suppress_motion_while_scrolling is None ==> r.core.suppress_motion_while_scrolling,
        file.core.replay_pending_motion_on_click is None ==> !r.core.replay_pending_motion_on_click,
        file.core.emit_hires_wheel is None ==> r.core.emit_hires_wheel,
        file.core.emit_legacy_wheel is None ==> r.core.emit_legacy_wheel,
        file.core.min_hires_units_per_event is None ==> r.core.min_hires_units_per_event == 15,
        file.core.horizontal_scroll is None ==> r.core.horizontal_scroll,
        file.core.max_detents_per_tick is None ==> r.core.max_detents_per_tick == 4,
{
    let defaults = choose|defaults: CoreConfig| #[trigger]
        defaults.is_default() && r.core == core_settings(Some(file), defaults);
    assert(defaults.is_default());
}

/// What a configuration file says of the device, the grab, the dry run and the
/// safety timeout holds where the command line does not say otherwise; the
/// stable form of a device goes before the plain path.
pub proof fn law_file_sets_the_daemon(args: Args, file: DaemonFileConfig, r: ResolvedConfig)
    requires
        resolved(args, Some(file), r),
    ensures
        r.grab <==> !args.no_grab && (file.grab is None || file.grab->0),
        r.dry_run <==> args.dry_run || file.dry_run is Some && file.dry_run->0,
        args.safety_timeout_seconds is None ==> r.safety_timeout_seconds
            == file.safety_timeout_seconds,
        args.device is None && file.device_match is None ==> r.device == file.device
            && r.device_match is None,
        args.device is None && file.device_match is Some ==> r.device is None
            && r.device_match is Some,
        r.device_match matches Some(m) ==> {
            &&& file.device_match matches Some(block)
            &&& digits::usb_id(block.vendor_id@) == Some(m.vendor_id as int)
            &&& digits::usb_id(block.product_id@) == Some(m.product_id as int)
            &&& m.name == block.name
            &&& m.phys == block.phys
        },
        file.foreground is None ==> r.foreground@ == ForegroundSettings::defaults(),
        file.foreground matches Some(table) ==> r.foreground@ == table.resolved(),
{
}

/// Only a block whose ids are both in order is accepted; a complaint names the
/// vendor id where that is at fault, and else the product id, as it was written.
pub proof fn law_bad_ids_are_named(file: DaemonFileConfig)
    ensures
        file.device_match is None ==> file_fault(Some(file)) is None,
        file.device_match matches Some(block) ==> {
            let vendor = digits::usb_id(block.vendor_id@);
            let product = digits::usb_id(block.product_id@);
            &&& file_fault(Some(file)) is None <==> vendor is Some && product is Some
            &&& vendor is None ==> file_fault(Some(file)) == Some(("vendor_id"@, block.vendor_id@))
            &&& vendor is Some && product is None ==> file_fault(Some(file)) == Some(
                ("product_id"@, block.product_id@),
            )
        },
{
}

/// The search for a device goes by the ids, the name and the port of its block.
pub proof fn law_block_gives_the_criteria(m: ParsedDeviceMatch, criteria: MatchCriteria)
    requires
        m.asks_for(criteria),
    ensures
        criteria.vendor_id == m.vendor_id,
        criteria.product_id == m.product_id,
        criteria.name is Some <==> m.name is Some,
        m.name matches Some(name) ==> criteria.name->0@ == name@,
        criteria.phys is Some <==> m.phys is Some,
        m.phys matches Some(phys) ==> criteria.phys->0@ == phys@,
{
}

/// Saving a device changes nothing of a file but how it names the device. One
/// that could be probed is named by what was found: both ids, which read back as
/// they are, the name where it has one, and the port exactly where it is pinned.
/// One that could not be probed is named by its path.
pub proof fn law_saving_touches_the_device_only(
    file: DaemonFileConfig,
    device: PathBuf,
    probed: Option<DeviceInfo>,
    pin_port: bool,
    r: DaemonFileConfig,
)
    requires
        saved(file, device, probed, pin_port, r),
    ensures
        r.grab == file.grab,
        r.dry_run == file.dry_run,
        r.safety_timeout_seconds == file.safety_timeout_seconds,
        r.foreground == file.foreground,
        r.core == file.core,
        probed is None ==> r.device == Some(device) && r.device_match is None,
        probed matches Some(info) ==> {
            &&& r.device is None
            &&& r.device_match matches Some(block)
            &&& digits::usb_id(block.vendor_id@) == Some(info.vendor_id as int)
            &&& digits::usb_id(block.product_id@) == Some(info.product_id as int)
            &&& block.vendor_id@.len() == 4
            &&& block.product_id@.len() == 4
            &&& info.name@.len() > 0 ==> block.name == Some(info.name)
            &&& info.name@.len() == 0 ==> block.name is None
            &&& pin_port ==> block.phys == info.phys
            &&& !pin_port ==> block.phys is None
        },
{
    if let Some(info) = probed {
        digits::law_usb_ids_read_back(info.vendor_id);
        digits::law_usb_ids_read_back(info.product_id);
    }
}

/// The file that was given on the command line goes before that of the user who
/// called `sudo`, and that before the user's own; and wherever a file is, it is
/// read there. Only where there is none, the one under the capitalised name is
/// read, where that is there.
pub proof fn law_places_of_the_file(args: Args, places: ConfigPlaces, disk: ConfigOnDisk)
    ensures
        args.config is Some ==> preferred(args, places) == args.config,
        args.config is None && places.sudo_user is Some ==> preferred(args, places)
            == places.sudo_user,
        args.config is None && places.sudo_user is None ==> preferred(args, places)
            == places.default,
        preferred(args, places) matches Some(path) ==> {
            &&& disk.preferred_exists ==> migrated(path, disk) == path
            &&& !disk.legacy_exists ==> migrated(path, disk) == path
            &&& disk.legacy is None ==> migrated(path, disk) == path
            &&& !disk.preferred_exists && disk.legacy_exists ==> (disk.legacy matches Some(legacy)
                ==> migrated(path, disk) == legacy)
        },
{
}

/// Symbolic links and what cannot be looked at stand in the way of writing; what
/// is not there yet, and what is plain, does not.
pub proof fn law_what_stands_in_the_way(state: PathState)
    ensures
        state == PathState::Symlink ==> objectionable(state),
        state == PathState::Unreadable ==> objectionable(state),
        state == PathState::Missing ==> !objectionable(state),
        state == PathState::Plain ==> !objectionable(state),
{
}

/// Only a file in a directory `scrollock` has a capitalised sibling: the file of
/// the same name in a directory `Scrollock` beside that one.
pub proof fn law_capitalised_sibling(path: Seq<char>)
    ensures
        capitalised(path) matches Some(sibling) ==> {
            &&& paths::parent_path(path) is Some
            &&& paths::path_name(paths::parent_path(path)->0) == Some("scrollock"@)
            &&& paths::parent_path(paths::parent_path(path)->0) is Some
            &&& paths::path_name(path) is Some
            &&& sibling == paths::joined_path(
                paths::joined_path(
                    paths::parent_path(paths::parent_path(path)->0)->0,
                    "Scrollock"@,
                ),
                paths::path_name(path)->0,
            )
        },
        capitalised(path) is None ==> {
            ||| paths::parent_path(path) is None
            ||| paths::path_name(paths::parent_path(path)->0) != Some("scrollock"@)
            ||| paths::parent_path(paths::parent_path(path)->0) is None
            ||| paths::path_name(path) is None
        },
{
}

/// Two ids that are written together are written in four digits each, the
/// vendor's first, with a colon in between.
pub proof fn law_pairs_of_ids_read_back(vendor_id: u16, product_id: u16)
    ensures
        ({
            let pair = id_pair(vendor_id, product_id);
            &&& pair.len() == 9
            &&& pair[4] == ':'
            &&& digits::number_of(pair.take(4), 16) == Some(vendor_id as int)
            &&& digits::number_of(pair.skip(5), 16) == Some(product_id as int)
        }),
{
    let pair = id_pair(vendor_id, product_id);
    reveal_strlit(":");
    digits::law_ids_are_written_in_four_small_digits(vendor_id);
    digits::law_ids_are_written_in_four_small_digits(product_id);
    assert(pair.take(4) =~= digits::four_digits(vendor_id));
    assert(pair.skip(5) =~= digits::four_digits(product_id));
    assert(pair[4] == ":"@[0]);
}

/// A file that says nothing changes nothing: what comes of it is what comes of no
/// file at all.
pub proof fn law_empty_file_is_no_file(args: Args, base: CoreConfig, r: ResolvedConfig)
    ensures
        CoreFileConfig::nothing().over(base) == base,
        file_fault(Some(DaemonFileConfig::nothing())) is None,
        resolved(args, Some(DaemonFileConfig::nothing()), r) <==> resolved(args, None, r),
{
    assert forall|defaults: CoreConfig| core_settings(
        Some(DaemonFileConfig::nothing()),
        defaults,
    ) == #[trigger] core_settings(None, defaults) by {}
    if resolved(args, Some(DaemonFileConfig::nothing()), r) {
        let defaults = choose|defaults: CoreConfig| #[trigger]
            defaults.is_default() && r.core == core_settings(
                Some(DaemonFileConfig::nothing()),
                defaults,
            );
        assert(defaults.is_default() && r.core == core_settings(None, defaults));
    }
    if resolved(args, None, r) {
        let defaults = choose|defaults: CoreConfig| #[trigger]
            defaults.is_default() && r.core == core_settings(None, defaults);
        assert(defaults.is_default() && r.core == core_settings(
            Some(DaemonFileConfig::nothing()),
            defaults,
        ));
    }
}

/// The id of a user or of a group is a decimal number of 32 bits; any other
/// value, and none, is no id.
pub proof fn law_ids_of_users(value: Option<&str>)
    ensures
        value is None ==> id_of(value) is None,
        value matches Some(s) ==> match digits::signed_number_of(s@, 10) {
            Some(n) => if n < 0x1_0000_0000 {
                id_of(value) == Some(n)
            } else {
                id_of(value) is None
            },
            None => id_of(value) is None,
        },
{
}

} // verus!
