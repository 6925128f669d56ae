//! What a call of the program comes to, and which mouse it is about.

use std::path::PathBuf;
use vstd::prelude::*;

use crate::cli::Args;
use crate::config_loader::ResolvedConfig;
use crate::device_discovery::DeviceInfo;
use crate::digits;
use crate::digits::{decimal_text, parse_usize};
use crate::errors::DaemonError;
use crate::service::{requested_action, ServiceAction};
use crate::text;
use crate::text::trim;

verus! {

/// What comes first.
#[derive(Debug, Clone, Copy, PartialEq, Eq, Structural)]
pub enum FirstTask {
    /// Only see to the service.
    Service(ServiceAction),
    /// Only remove the udev rule.
    RemoveUdevRule,
    /// Only list the devices.
    ListDevices,
    /// Resolve the configuration; a udev rule can only be installed by root,
    /// which is better found out before.
    Resolve { needs_root: bool },
}

/// What comes first.
pub open spec fn first_of(args: Args) -> FirstTask {
    if args.start {
        FirstTask::Service(ServiceAction::Start)
    } else if args.stop {
        FirstTask::Service(ServiceAction::Stop)
    } else if args.restart {
        FirstTask::Service(ServiceAction::Restart)
    } else if args.remove_service {
        FirstTask::Service(ServiceAction::Remove)
    } else if args.remove_udev_rule {
        FirstTask::RemoveUdevRule
    } else if args.list_devices {
        FirstTask::ListDevices
    } else {
        FirstTask::Resolve { needs_root: args.install_udev_rule }
    }
}

/// What comes first.
pub fn first_task(args: &Args) -> (r: FirstTask)
    ensures
        r == first_of(*args),
{
    match requested_action(args) {
        Some(action) => FirstTask::Service(action),
        None => {
            if args.remove_udev_rule {
                FirstTask::RemoveUdevRule
            } else if args.list_devices {
                FirstTask::ListDevices
            } else {
                FirstTask::Resolve { needs_root: args.install_udev_rule }
            }
        },
    }
}

/// What comes once the configuration is resolved.
#[derive(Debug)]
pub enum ResolvedTask {
    /// Only show what is in front.
    DetectForeground,
    /// Save this device.
    SaveGiven(PathBuf),
    /// Choose a device and save it.
    SaveChosen,
    /// Find the configured device.
    UseConfigured,
}

/// Whether a device has to be saved: on request, where none is configured, and
/// where one was given for something that lasts.
pub open spec fn saves_device(args: Args, resolved: ResolvedConfig) -> bool {
    ||| args.setup
    ||| resolved.device is None && resolved.device_match is None
    ||| args.device is Some && (args.install_service || args.install_udev_rule)
}

/// What comes once the configuration is resolved.
pub open spec fn task_once_resolved(args: Args, resolved: ResolvedConfig) -> ResolvedTask {
    if args.detect_foreground {
        ResolvedTask::DetectForeground
    } else if !saves_device(args, resolved) {
        ResolvedTask::UseConfigured
    } else {
        match args.device {
            Some(path) => ResolvedTask::SaveGiven(path),
            None => ResolvedTask::SaveChosen,
        }
    }
}

/// What comes once the configuration is resolved.
pub fn resolved_task(args: &Args, resolved: &ResolvedConfig) -> (r: ResolvedTask)
    ensures
        r == task_once_resolved(*args, *resolved),
        r == (if args.detect_foreground {
            ResolvedTask::DetectForeground
        } else if !saves_device(*args, *resolved) {
            ResolvedTask::UseConfigured
        } else {
            match args.device {
                Some(path) => ResolvedTask::SaveGiven(path),
                None => ResolvedTask::SaveChosen,
            }
        }),
{
    if args.detect_foreground {
        return ResolvedTask::DetectForeground;
    }
    let has_configured_device: bool = resolved.device.is_some() || resolved.device_match.is_some();
    let should_save_device: bool = args.setup || !has_configured_device || (args.install_service
        && args.device.is_some()) || (args.install_udev_rule && args.device.is_some());
    if !should_save_device {
        return ResolvedTask::UseConfigured;
    }
    match &args.device {
        Some(path) => ResolvedTask::SaveGiven(path.clone()),
        None => ResolvedTask::SaveChosen,
    }
}

/// What comes last.
#[derive(Debug, Clone, Copy, PartialEq, Eq, Structural)]
pub enum LastTask {
    Nothing,
    InstallUdevRule,
    InstallService,
    RunDaemon,
}

/// What comes last.
pub open spec fn last_of(args: Args, saved: bool) -> LastTask {
    if args.install_udev_rule {
        LastTask::InstallUdevRule
    } else if args.install_service {
        LastTask::InstallService
    } else if saved && args.setup {
        LastTask::Nothing
    } else {
        LastTask::RunDaemon
    }
}

/// What comes last, after the device is known; `saved` tells whether it was
/// saved. A setup on its own ends there.
pub fn last_task(args: &Args, saved: bool) -> (r: LastTask)
    ensures
        r == last_of(*args, saved),
        r == (if args.install_udev_rule {
            LastTask::InstallUdevRule
        } else if args.install_service {
            LastTask::InstallService
        } else if saved && args.setup {
            LastTask::Nothing
        } else {
            LastTask::RunDaemon
        }),
{
    if saved && args.setup && !args.install_service && !args.install_udev_rule {
        LastTask::Nothing
    } else if args.install_udev_rule {
        LastTask::InstallUdevRule
    } else if args.install_service {
        LastTask::InstallService
    } else {
        LastTask::RunDaemon
    }
}

/// Where the device is to be found.
#[derive(Debug)]
pub enum DeviceSource {
    /// At this path, which was given on the command line.
    Given(PathBuf),
    /// By its USB ids; a service waits for it for as long as it takes.
    Match { wait_forever: bool },
    /// At this path from the configuration, which may change across reboots.
    Plain(PathBuf),
}

/// Where the device is to be found.
pub open spec fn source_of(args: Args, resolved: ResolvedConfig) -> Option<DeviceSource> {
    match (args.device, resolved.device_match, resolved.device) {
        (Some(path), _, _) => Some(DeviceSource::Given(path)),
        (None, Some(_), _) => Some(DeviceSource::Match { wait_forever: args.no_interactive }),
        (None, None, Some(path)) => Some(DeviceSource::Plain(path)),
        (None, None, None) => None,
    }
}

/// Where the device is to be found: as the command line says, else by the
/// configured ids, else at the configured path.
pub fn resolve_device_path(args: &Args, resolved: &ResolvedConfig) -> (r: Result<
    DeviceSource,
    DaemonError,
>)
    ensures
        match (args.device, resolved.device_match, resolved.device) {
            (Some(path), _, _) => r == Ok::<DeviceSource, DaemonError>(DeviceSource::Given(path)),
            (None, Some(_), _) => r == Ok::<DeviceSource, DaemonError>(
                DeviceSource::Match { wait_forever: args.no_interactive },
            ),
            (None, None, Some(path)) => r == Ok::<DeviceSource, DaemonError>(
                DeviceSource::Plain(path),
            ),
            (None, None, None) => r == Err::<DeviceSource, DaemonError>(DaemonError::NoDevice),
        },
        match r {
            Ok(source) => source_of(*args, *resolved) == Some(source),
            Err(e) => source_of(*args, *resolved) is None && e == DaemonError::NoDevice,
        },
{
    if let Some(path) = &args.device {
        return Ok(DeviceSource::Given(path.clone()));
    }
    if resolved.device_match.is_some() {
        return Ok(DeviceSource::Match { wait_forever: args.no_interactive });
    }
    match &resolved.device {
        Some(path) => Ok(DeviceSource::Plain(path.clone())),
        None => Err(DaemonError::NoDevice),
    }
}

/// How a device is chosen.
#[derive(Debug)]
pub enum DeviceChoice {
    /// There is only this one.
    Only(PathBuf),
    /// Somebody has to be asked.
    Ask,
}

/// Whether devices have to be looked for at all: where nobody may be asked, a
/// device has to be configured.
pub fn may_select(args: &Args) -> (r: Result<(), DaemonError>)
    ensures
        r == (if args.no_interactive {
            Err::<(), DaemonError>(DaemonError::NoDevice)
        } else {
            Ok::<(), DaemonError>(())
        }),
{
    if args.no_interactive {
        Err(DaemonError::NoDevice)
    } else {
        Ok(())
    }
}

/// The choice among some devices.
pub open spec fn choice_among(devices: Seq<DeviceInfo>, can_ask: bool) -> Result<
    DeviceChoice,
    DaemonError,
> {
    if devices.len() == 0 {
        Err(DaemonError::NoMiceFound)
    } else if devices.len() == 1 {
        Ok(DeviceChoice::Only(devices[0].path))
    } else if !can_ask {
        Err(DaemonError::NonInteractiveDeviceChoice)
    } else {
        Ok(DeviceChoice::Ask)
    }
}

/// How to choose among the devices that were found.
pub fn select_device(devices: &Vec<DeviceInfo>, can_ask: bool) -> (r: Result<
    DeviceChoice,
    DaemonError,
>)
    ensures
        r == (if devices@.len() == 0 {
            Err::<DeviceChoice, DaemonError>(DaemonError::NoMiceFound)
        } else if devices@.len() == 1 {
            Ok::<DeviceChoice, DaemonError>(DeviceChoice::Only(devices@[0].path))
        } else if !can_ask {
            Err::<DeviceChoice, DaemonError>(DaemonError::NonInteractiveDeviceChoice)
        } else {
            Ok::<DeviceChoice, DaemonError>(DeviceChoice::Ask)
        }),
        r == choice_among(devices@, can_ask),
{
    if devices.len() == 0 {
        Err(DaemonError::NoMiceFound)
    } else if devices.len() == 1 {
        Ok(DeviceChoice::Only(devices[0].path.clone()))
    } else if !can_ask {
        Err(DaemonError::NonInteractiveDeviceChoice)
    } else {
        Ok(DeviceChoice::Ask)
    }
}

/// The position that an answer stands for, counted from one.
pub open spec fn answer(line: Seq<char>, count: int) -> Option<int> {
    match digits::number_up_to(text::trimmed(line), 10, usize::MAX as int) {
        Some(choice) => if 1 <= choice <= count {
            Some(choice - 1)
        } else {
            None
        },
        None => None,
    }
}

/// The device that an answer stands for, as a position in the list; none for an
/// answer that is no number or not on the list.
pub fn parse_selection(line: &str, count: usize) -> (r: Option<usize>)
    ensures
        match r {
            Some(i) => answer(line@, count as int) == Some(i as int) && i < count,
            None => answer(line@, count as int) is None,
        },
{
    match parse_usize(trim(line)) {
        Some(choice) => {
            if 1 <= choice && choice <= count {
                Some(choice - 1)
            } else {
                None
            }
        },
        None => None,
    }
}

/// The question for a choice among `count` devices.
pub fn selection_prompt(count: usize) -> (r: String)
    ensures
        r@ == "Select a device [1-"@ + digits::decimal(count as nat) + "]: "@,
{
    let mut out: String = String::new();
    out.append("Select a device [1-");
    out.append(decimal_text(count as u128).as_str());
    out.append("]: ");
    assert(out@ =~= "Select a device [1-"@ + digits::decimal(count as nat) + "]: "@);
    out
}

/// The complaint about an answer that is none.
pub fn selection_complaint(count: usize) -> (r: String)
    ensures
        r@ == "Invalid selection; enter a number between 1 and "@ + digits::decimal(count as nat)
            + "."@,
{
    let mut out: String = String::new();
    out.append("Invalid selection; enter a number between 1 and ");
    out.append(decimal_text(count as u128).as_str());
    out.append(".");
    assert(out@ =~= "Invalid selection; enter a number between 1 and "@ + digits::decimal(
        count as nat,
    ) + "."@);
    out
}

/// Every position on the list can be chosen by its number.
pub proof fn law_every_device_can_be_chosen(i: int, count: int)
    requires
        0 <= i < count <= usize::MAX,
    ensures
        answer(digits::decimal((i + 1) as nat), count) == Some(i),
{
    let line = digits::decimal((i + 1) as nat);
    digits::law_decimals_read_back((i + 1) as nat);
    lemma_digits_have_no_space((i + 1) as nat);
    assert(text::trimmed(line) == line);
}

proof fn lemma_digits_have_no_space(n: nat)
    ensures
        digits::decimal(n).len() > 0,
        !text::whitespace(digits::decimal(n)[0]),
        !text::whitespace(digits::decimal(n).last()),
    decreases n,
{
    if n >= 10 {
        lemma_digits_have_no_space(n / 10);
        assert(digits::decimal(n)[0] == digits::decimal(n / 10)[0]);
    }
}

/// The service goes before the udev rule, and that before the list of devices;
/// of what can be asked of the service, starting goes first, then stopping, then
/// restarting, then removing. Only where none of these is asked for, the
/// configuration is resolved, and root is needed only to install a udev rule.
pub proof fn law_first_things_first(args: Args)
    ensures
        ({
            let task = first_of(args);
            let service = args.start || args.stop || args.restart || args.remove_service;
            &&& task is Service <==> service
            &&& task == FirstTask::Service(ServiceAction::Start) <==> args.start
            &&& task == FirstTask::Service(ServiceAction::Stop) <==> !args.start && args.stop
            &&& task == FirstTask::Service(ServiceAction::Restart) <==> !args.start && !args.stop
                && args.restart
            &&& task == FirstTask::Service(ServiceAction::Remove) <==> !args.start && !args.stop
                && !args.restart && args.remove_service
            &&& task == FirstTask::RemoveUdevRule <==> !service && args.remove_udev_rule
            &&& task == FirstTask::ListDevices <==> !service && !args.remove_udev_rule
                && args.list_devices
            &&& task matches FirstTask::Resolve { needs_root } ==> needs_root
                == args.install_udev_rule
        }),
{
}

/// A device is saved on request, where none is configured at all, and where one
/// was given to install a service or a rule for. The one that was given is saved
/// where there is one; else somebody chooses. Detection comes before all that.
pub proof fn law_devices_are_saved(args: Args, resolved: ResolvedConfig)
    ensures
        ({
            let task = task_once_resolved(args, resolved);
            let configured = resolved.device is Some || resolved.device_match is Some;
            let lasting = args.device is Some && (args.install_service || args.install_udev_rule);
            &&& task is DetectForeground <==> args.detect_foreground
            &&& task is UseConfigured <==> !args.detect_foreground && !args.setup && configured
                && !lasting
            &&& task is SaveGiven ==> args.device is Some && task == ResolvedTask::SaveGiven(
                args.device->0,
            )
            &&& task is SaveChosen ==> args.device is None
        }),
{
}

/// A udev rule that is to be installed goes before a service, and both before the
/// daemon, which does not run after a setup on its own.
pub proof fn law_last_things_last(args: Args, saved: bool)
    ensures
        ({
            let task = last_of(args, saved);
            let installs = args.install_udev_rule || args.install_service;
            &&& task == LastTask::InstallUdevRule <==> args.install_udev_rule
            &&& task == LastTask::InstallService <==> !args.install_udev_rule
                && args.install_service
            &&& task == LastTask::Nothing <==> !installs && saved && args.setup
            &&& task == LastTask::RunDaemon <==> !installs && !(saved && args.setup)
        }),
{
}

/// A device on the command line goes before configured ids, and those before a
/// configured path; only a call without questions waits for its mouse for as long
/// as it takes.
pub proof fn law_places_of_the_device(args: Args, resolved: ResolvedConfig)
    ensures
        ({
            let source = source_of(args, resolved);
            &&& args.device matches Some(path) ==> source == Some(DeviceSource::Given(path))
            &&& args.device is None && resolved.device_match is Some ==> source == Some(
                DeviceSource::Match { wait_forever: args.no_interactive },
            )
            &&& args.device is None && resolved.device_match is None ==> {
                &&& resolved.device matches Some(path) ==> source == Some(DeviceSource::Plain(path))
                &&& resolved.device is None ==> source is None
            }
        }),
{
}

/// A single mouse is taken without asking, whoever is there to answer. Among
/// several somebody has to choose, and it is an error where nobody can; so it is
/// where there is no mouse.
pub proof fn law_choices(devices: Seq<DeviceInfo>, can_ask: bool)
    ensures
        devices.len() == 0 <==> choice_among(devices, can_ask) == Err::<DeviceChoice, DaemonError>(
            DaemonError::NoMiceFound,
        ),
        devices.len() == 1 ==> choice_among(devices, can_ask) == Ok::<DeviceChoice, DaemonError>(
            DeviceChoice::Only(devices[0].path),
        ),
        devices.len() > 1 && can_ask ==> choice_among(devices, can_ask) == Ok::<
            DeviceChoice,
            DaemonError,
        >(DeviceChoice::Ask),
        devices.len() > 1 && !can_ask ==> choice_among(devices, can_ask) == Err::<
            DeviceChoice,
            DaemonError,
        >(DaemonError::NonInteractiveDeviceChoice),
{
}

/// An answer stands for a position on the list, counted from one, and an answer
/// that is no number, or no number on the list, stands for none.
pub proof fn law_answers_are_on_the_list(line: Seq<char>, count: int)
    requires
        0 <= count <= usize::MAX,
    ensures
        ({
            let number = digits::signed_number_of(text::trimmed(line), 10);
            &&& answer(line, count) matches Some(i) ==> 0 <= i < count && number == Some(i + 1)
            &&& answer(line, count) is None ==> (number matches Some(n) ==> n < 1 || n > count)
        }),
{
}

} // verus!
