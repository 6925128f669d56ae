//! Which input devices are mice, and which of them is the configured one.

use std::path::PathBuf;
use vstd::prelude::*;

use crate::digits;
use crate::digits::{decimal_text, hex4};
use crate::record::{BTN_LEFT, REL_X, REL_Y};
use crate::text;
use crate::text::same;
use crate::virtual_mouse::{supported_axes, supported_buttons, VIRTUAL_MOUSE_NAME};

verus! {

/// A mouse-like device.
#[derive(Debug, Clone)]
pub struct DeviceInfo {
    pub path: PathBuf,
    pub name: String,
    pub phys: Option<String>,
    pub unique_name: Option<String>,
    pub vendor_id: u16,
    pub product_id: u16,
    pub bus_type: u16,
    /// The codes of the mouse buttons that it has.
    pub keys: Vec<u16>,
    /// The codes of the mouse axes that it has.
    pub axes: Vec<u16>,
}

/// What an input device says of itself.
#[derive(Debug)]
pub struct DeviceProbe {
    pub path: PathBuf,
    pub name: Option<String>,
    pub phys: Option<String>,
    pub unique_name: Option<String>,
    pub vendor_id: u16,
    pub product_id: u16,
    pub bus_type: u16,
    /// The codes of all its keys; none for a device without keys.
    pub keys: Option<Vec<u16>>,
    /// The codes of all its relative axes; none for a device without any.
    pub axes: Option<Vec<u16>>,
}

/// Criteria for matching a physical device across reboots. `vendor_id` and
/// `product_id` are mandatory; `name` and `phys` further narrow the match
/// when several devices share the same USB IDs (e.g. two identical mice).
#[derive(Debug, Clone)]
pub struct MatchCriteria<'a> {
    pub vendor_id: u16,
    pub product_id: u16,
    pub name: Option<&'a str>,
    pub phys: Option<&'a str>,
}

impl<'a> MatchCriteria<'a> {
    /// Whether a device meets the criteria.
    pub open spec fn met_by(self, dev: DeviceInfo) -> bool {
        &&& dev.vendor_id == self.vendor_id
        &&& dev.product_id == self.product_id
        &&& self.name matches Some(name) ==> dev.name@ == name@
        &&& self.phys matches Some(phys) ==> text::text_of(dev.phys) == Some(phys@)
    }

    /// Returns a copy of the criteria with `phys` cleared, so the match no
    /// longer depends on the USB port topology. Used as a fallback for
    /// configurations that pinned a port: the mouse is then found on any port.
    #[must_use]
    pub fn without_phys(&self) -> (r: MatchCriteria<'a>)
        ensures
            r == (MatchCriteria { phys: None, ..*self }),
    {
        MatchCriteria {
            vendor_id: self.vendor_id,
            product_id: self.product_id,
            name: self.name,
            phys: None,
        }
    }
}

impl DeviceInfo {
    pub fn vendor_hex(&self) -> (r: String)
        ensures
            r@ == digits::four_digits(self.vendor_id),
    {
        hex4(self.vendor_id)
    }

    pub fn product_hex(&self) -> (r: String)
        ensures
            r@ == digits::four_digits(self.product_id),
    {
        hex4(self.product_id)
    }
}

/// The first device that meets the criteria.
pub open spec fn first_met(devices: Seq<DeviceInfo>, criteria: MatchCriteria) -> Option<int>
    decreases devices.len(),
{
    if devices.len() == 0 {
        None
    } else {
        match first_met(devices.drop_last(), criteria) {
            Some(i) => Some(i),
            None => if criteria.met_by(devices.last()) {
                Some(devices.len() - 1)
            } else {
                None
            },
        }
    }
}

/// The device to use: one that meets the criteria, else one that meets them on
/// another port.
pub open spec fn best_match(devices: Seq<DeviceInfo>, criteria: MatchCriteria) -> Option<int> {
    match first_met(devices, criteria) {
        Some(i) => Some(i),
        None => if criteria.phys is Some {
            first_met(devices, MatchCriteria { phys: None, ..criteria })
        } else {
            None
        },
    }
}

/// Whether the codes are those of a mouse: a left button and both axes.
pub open spec fn mouse_like(keys: Option<Seq<u16>>, axes: Option<Seq<u16>>) -> bool {
    &&& keys matches Some(keys) && keys.contains(BTN_LEFT)
    &&& axes matches Some(axes) && axes.contains(REL_X) && axes.contains(REL_Y)
}

/// The codes of an optional list.
pub open spec fn codes(list: Option<Vec<u16>>) -> Option<Seq<u16>> {
    match list {
        Some(list) => Some(list@),
        None => None,
    }
}

/// Those of the wanted codes that are there, in the order of the wanted ones.
pub open spec fn kept(wanted: Seq<u16>, there: Seq<u16>) -> Seq<u16>
    decreases wanted.len(),
{
    if wanted.len() == 0 {
        seq![]
    } else if there.contains(wanted.last()) {
        kept(wanted.drop_last(), there).push(wanted.last())
    } else {
        kept(wanted.drop_last(), there)
    }
}

impl DeviceProbe {
    /// The name; a device without one has an empty name.
    pub open spec fn spec_name(self) -> Seq<char> {
        match self.name {
            Some(name) => name@,
            None => seq![],
        }
    }

    /// Whether this is a mouse, and not the daemon's own.
    pub open spec fn candidate(self) -> bool {
        self.spec_name() != VIRTUAL_MOUSE_NAME@ && mouse_like(codes(self.keys), codes(self.axes))
    }
}

/// Returns the first mouse-like device whose attributes match the given
/// criteria. Stable across reboots as long as the USB device is plugged in,
/// regardless of which `/dev/input/eventXX` number the kernel assigns.
pub fn find_match<'d>(devices: &'d Vec<DeviceInfo>, criteria: &MatchCriteria<'_>) -> (r: Option<
    &'d DeviceInfo,
>)
    ensures
        match r {
            Some(device) => first_met(devices@, *criteria) matches Some(i) && *device
                == devices@[i],
            None => first_met(devices@, *criteria) is None,
        },
{
    match position(devices, criteria) {
        Some(i) => Some(&devices[i]),
        None => None,
    }
}

fn position(devices: &Vec<DeviceInfo>, criteria: &MatchCriteria<'_>) -> (r: Option<usize>)
    ensures
        match r {
            Some(i) => i < devices@.len() && first_met(devices@, *criteria) == Some(i as int),
            None => first_met(devices@, *criteria) is None,
        },
{
    let mut found: Option<usize> = None;
    let mut i: usize = 0;
    while i < devices.len()
        invariant
            i <= devices@.len(),
            match found {
                Some(j) => j < i && first_met(devices@.take(i as int), *criteria) == Some(j as int),
                None => first_met(devices@.take(i as int), *criteria) is None,
            },
        decreases devices@.len() - i,
    {
        assert(devices@.take(i + 1).drop_last() =~= devices@.take(i as int));
        if found.is_none() && matches(&devices[i], criteria) {
            found = Some(i);
        }
        i += 1;
    }
    assert(devices@.take(i as int) =~= devices@);
    found
}

/// Tries a strict match first (honouring `phys` when configured), then a
/// relaxed match that ignores `phys`. The relaxed pass lets configurations that
/// pinned a USB port keep working when the mouse is moved to another port: the
/// device is still found by USB id, just on a different node.
pub fn try_match<'d>(devices: &'d Vec<DeviceInfo>, criteria: &MatchCriteria<'_>) -> (r: Option<
    &'d DeviceInfo,
>)
    ensures
        match r {
            Some(device) => best_match(devices@, *criteria) matches Some(i) && *device
                == devices@[i],
            None => best_match(devices@, *criteria) is None,
        },
{
    match find_match(devices, criteria) {
        Some(found) => Some(found),
        None => {
            if criteria.phys.is_some() {
                find_match(devices, &criteria.without_phys())
            } else {
                None
            }
        },
    }
}

/// Whether a device meets the criteria.
pub fn matches(dev: &DeviceInfo, criteria: &MatchCriteria<'_>) -> (r: bool)
    ensures
        r == criteria.met_by(*dev),
{
    if dev.vendor_id != criteria.vendor_id || dev.product_id != criteria.product_id {
        return false;
    }
    match criteria.name {
        Some(expected) => {
            if !same(dev.name.as_str(), expected) {
                return false;
            }
        },
        None => {},
    }
    match criteria.phys {
        Some(expected) => match &dev.phys {
            Some(phys) => same(phys.as_str(), expected),
            None => false,
        },
        None => true,
    }
}

fn has_code(list: &Vec<u16>, code: u16) -> (r: bool)
    ensures
        r == list@.contains(code),
{
    let mut i: usize = 0;
    while i < list.len()
        invariant
            i <= list@.len(),
            forall|j: int| 0 <= j < i ==> list@[j] != code,
        decreases list@.len() - i,
    {
        if list[i] == code {
            return true;
        }
        i += 1;
    }
    false
}

/// Whether the codes of a device are those of a mouse.
pub fn looks_like_mouse(keys: &Option<Vec<u16>>, axes: &Option<Vec<u16>>) -> (r: bool)
    ensures
        r == mouse_like(codes(*keys), codes(*axes)),
{
    let has_btn_left: bool = match keys {
        Some(keys) => has_code(keys, BTN_LEFT),
        None => false,
    };
    let has_rel_xy: bool = match axes {
        Some(axes) => has_code(axes, REL_X) && has_code(axes, REL_Y),
        None => false,
    };
    has_btn_left && has_rel_xy
}

fn keep_codes(wanted: &Vec<u16>, there: &Vec<u16>) -> (r: Vec<u16>)
    ensures
        r@ == kept(wanted@, there@),
{
    let mut out: Vec<u16> = Vec::new();
    let mut i: usize = 0;
    while i < wanted.len()
        invariant
            i <= wanted@.len(),
            out@ == kept(wanted@.take(i as int), there@),
        decreases wanted@.len() - i,
    {
        assert(wanted@.take(i + 1).drop_last() =~= wanted@.take(i as int));
        if has_code(there, wanted[i]) {
            out.push(wanted[i]);
        }
        i += 1;
    }
    assert(wanted@.take(i as int) =~= wanted@);
    out
}

/// The device, where it is a mouse: one with a left button and both axes, that
/// is not the daemon's own virtual mouse.
pub fn inspect(probe: DeviceProbe) -> (r: Option<DeviceInfo>)
    ensures
        r is Some <==> probe.candidate(),
        r matches Some(info) ==> {
            &&& info.path == probe.path
            &&& info.name@ == probe.spec_name()
            &&& info.phys == probe.phys
            &&& info.unique_name == probe.unique_name
            &&& info.vendor_id == probe.vendor_id
            &&& info.product_id == probe.product_id
            &&& info.bus_type == probe.bus_type
            &&& info.keys@ == kept(crate::virtual_mouse::all_buttons(), probe.keys->0@)
            &&& info.axes@ == kept(crate::virtual_mouse::all_axes(), probe.axes->0@)
        },
{
    let name: String = match probe.name {
        Some(name) => name,
        None => String::new(),
    };
    if same(name.as_str(), VIRTUAL_MOUSE_NAME) {
        return None;
    }
    if !looks_like_mouse(&probe.keys, &probe.axes) {
        return None;
    }
    match (probe.keys, probe.axes) {
        (Some(keys), Some(axes)) => Some(
            DeviceInfo {
                path: probe.path,
                name,
                phys: probe.phys,
                unique_name: probe.unique_name,
                vendor_id: probe.vendor_id,
                product_id: probe.product_id,
                bus_type: probe.bus_type,
                keys: keep_codes(&supported_buttons(), &keys),
                axes: keep_codes(&supported_axes(), &axes),
            },
        ),
        _ => None,
    }
}

/// What `evdev::BusType` calls a bus.
pub uninterp spec fn bus_name(bus_type: u16) -> Seq<char>;

/// What `evdev::KeyCode` calls a key.
pub uninterp spec fn key_name(code: u16) -> Seq<char>;

/// What `evdev::RelativeAxisCode` calls an axis.
pub uninterp spec fn axis_name(code: u16) -> Seq<char>;

/// The `Display` text of `evdev::BusType`: the name of the bus.
#[verifier::external_body]
fn name_of_bus(bus_type: u16) -> (r: String)
    ensures
        r@ == bus_name(bus_type),
{
    evdev::BusType(bus_type).to_string()
}

/// The `Debug` text of `evdev::KeyCode`: the name of the key.
#[verifier::external_body]
fn name_of_key(code: u16) -> (r: String)
    ensures
        r@ == key_name(code),
{
    format!("{:?}", evdev::KeyCode(code))
}

/// The `Debug` text of `evdev::RelativeAxisCode`: the name of the axis.
#[verifier::external_body]
fn name_of_axis(code: u16) -> (r: String)
    ensures
        r@ == axis_name(code),
{
    format!("{:?}", evdev::RelativeAxisCode(code))
}

/// A device and its path as it is shown.
#[derive(Debug)]
pub struct Listed<'a> {
    pub shown_path: &'a str,
    pub device: &'a DeviceInfo,
}

/// A line with a label in front of a text; nothing where there is no text.
pub open spec fn labelled(label: Seq<char>, value: Option<Seq<char>>) -> Seq<char> {
    match value {
        Some(value) => label + value + "\n"@,
        None => seq![],
    }
}

/// Texts with a space between each two.
pub open spec fn spaced(names: Seq<Seq<char>>) -> Seq<char>
    decreases names.len(),
{
    if names.len() == 0 {
        seq![]
    } else if names.len() == 1 {
        names[0]
    } else {
        spaced(names.drop_last()) + " "@ + names.last()
    }
}

/// A line with names; nothing where there are none.
pub open spec fn named(label: Seq<char>, names: Seq<Seq<char>>) -> Seq<char> {
    if names.len() == 0 {
        seq![]
    } else {
        label + spaced(names) + "\n"@
    }
}

/// The part of the listing about the device at position `i`.
pub open spec fn device_text(i: int, path: Seq<char>, dev: DeviceInfo) -> Seq<char> {
    "["@ + digits::decimal((i + 1) as nat) + "] "@ + path + "\n    name: "@ + dev.name@
        + "\n    usb-id: "@ + digits::four_digits(dev.vendor_id) + ":"@ + digits::four_digits(
        dev.product_id,
    ) + " (bus: "@ + bus_name(dev.bus_type) + ")\n"@ + labelled(
        "    phys: "@,
        text::text_of(dev.phys),
    ) + labelled("    unique: "@, text::text_of(dev.unique_name)) + "    supports:\n"@ + named(
        "      EV_KEY: "@,
        dev.keys@.map_values(|code: u16| key_name(code)),
    ) + named("      EV_REL: "@, dev.axes@.map_values(|code: u16| axis_name(code))) + "\n"@
}

/// The parts of the listing about all devices.
pub open spec fn device_texts(devices: Seq<Listed>) -> Seq<char>
    decreases devices.len(),
{
    if devices.len() == 0 {
        seq![]
    } else {
        device_texts(devices.drop_last()) + device_text(
            devices.len() - 1,
            devices.last().shown_path@,
            *devices.last().device,
        )
    }
}

/// The listing of the mice that were found.
pub open spec fn listing(devices: Seq<Listed>) -> Seq<char> {
    if devices.len() == 0 {
        "No mouse-like input devices found under /dev/input/.\nHint: you may need to run this with elevated privileges.\n"@
    } else {
        "Candidate mice:\n\n"@ + device_texts(devices)
    }
}

/// The listing of the mice that were found.
pub fn render_listing(devices: &Vec<Listed<'_>>) -> (r: String)
    ensures
        r@ == listing(devices@),
{
    let mut out: String = String::new();
    if devices.len() == 0 {
        out.append(
            "No mouse-like input devices found under /dev/input/.\nHint: you may need to run this with elevated privileges.\n",
        );
        assert(out@ =~= listing(devices@));
        return out;
    }
    out.append("Candidate mice:\n\n");
    let ghost header = "Candidate mice:\n\n"@;
    assert(out@ =~= header);
    let mut i: usize = 0;
    assert(out@ =~= header + device_texts(devices@.take(0)));
    while i < devices.len()
        invariant
            i <= devices@.len(),
            out@ == header + device_texts(devices@.take(i as int)),
        decreases devices@.len() - i,
    {
        assert(devices@.take(i + 1).drop_last() =~= devices@.take(i as int));
        out.append(
            render_device(i, devices[i].shown_path, devices[i].device).as_str(),
        );
        i += 1;
        assert(out@ =~= header + device_texts(devices@.take(i as int)));
    }
    assert(devices@.take(i as int) =~= devices@);
    out
}

fn render_device(i: usize, shown_path: &str, dev: &DeviceInfo) -> (r: String)
    ensures
        r@ == device_text(i as int, shown_path@, *dev),
{
    let mut out: String = String::new();
    out.append("[");
    out.append(decimal_text(i as u128 + 1).as_str());
    out.append("] ");
    out.append(shown_path);
    out.append("\n    name: ");
    out.append(dev.name.as_str());
    out.append("\n    usb-id: ");
    out.append(dev.vendor_hex().as_str());
    out.append(":");
    out.append(dev.product_hex().as_str());
    out.append(" (bus: ");
    out.append(name_of_bus(dev.bus_type).as_str());
    out.append(")\n");
    append_labelled("    phys: ", &dev.phys, &mut out);
    append_labelled("    unique: ", &dev.unique_name, &mut out);
    out.append("    supports:\n");
    let mut keys: Vec<String> = Vec::new();
    let mut k: usize = 0;
    while k < dev.keys.len()
        invariant
            k <= dev.keys@.len(),
            keys@.len() == k,
            forall|j: int| 0 <= j < k ==> (#[trigger] keys@[j])@ == key_name(dev.keys@[j]),
        decreases dev.keys@.len() - k,
    {
        keys.push(name_of_key(dev.keys[k]));
        k += 1;
    }
    assert(text::texts(keys@) =~= dev.keys@.map_values(|code: u16| key_name(code)));
    append_named("      EV_KEY: ", &keys, &mut out);
    let mut axes: Vec<String> = Vec::new();
    let mut a: usize = 0;
    while a < dev.axes.len()
        invariant
            a <= dev.axes@.len(),
            axes@.len() == a,
            forall|j: int| 0 <= j < a ==> (#[trigger] axes@[j])@ == axis_name(dev.axes@[j]),
        decreases dev.axes@.len() - a,
    {
        axes.push(name_of_axis(dev.axes[a]));
        a += 1;
    }
    assert(text::texts(axes@) =~= dev.axes@.map_values(|code: u16| axis_name(code)));
    append_named("      EV_REL: ", &axes, &mut out);
    out.append("\n");
    assert(out@ =~= device_text(i as int, shown_path@, *dev));
    out
}

fn append_labelled(label: &str, value: &Option<String>, out: &mut String)
    ensures
        final(out)@ == old(out)@ + labelled(label@, text::text_of(*value)),
{
    match value {
        Some(value) => {
            out.append(label);
            out.append(value.as_str());
            out.append("\n");
        },
        None => {},
    }
    assert(out@ =~= old(out)@ + labelled(label@, text::text_of(*value)));
}

fn append_named(label: &str, names: &Vec<String>, out: &mut String)
    ensures
        final(out)@ == old(out)@ + named(label@, text::texts(names@)),
{
    let ghost all = text::texts(names@);
    if names.len() == 0 {
        assert(out@ =~= old(out)@ + named(label@, all));
        return ;
    }
    out.append(label);
    out.append(names[0].as_str());
    let ghost before = old(out)@ + label@;
    assert(all.take(1).len() == 1 && all.take(1)[0] == names@[0]@);
    assert(out@ =~= before + spaced(all.take(1)));
    let mut i: usize = 1;
    while i < names.len()
        invariant
            1 <= i <= names@.len(),
            all == text::texts(names@),
            out@ == before + spaced(all.take(i as int)),
        decreases names@.len() - i,
    {
        out.append(" ");
        out.append(names[i].as_str());
        assert(all.take(i + 1).drop_last() =~= all.take(i as int));
        assert(all.take(i + 1).last() == names@[i as int]@);
        assert(out@ =~= before + spaced(all.take(i + 1)));
        i += 1;
    }
    assert(all.take(i as int) =~= all);
    out.append("\n");
    assert(out@ =~= old(out)@ + named(label@, all));
}

/// A pinned port is a preference, not a condition: a mouse with the right ids
/// and name is found on any port.
pub proof fn law_mouse_is_found_on_any_port(
    devices: Seq<DeviceInfo>,
    criteria: MatchCriteria,
    i: int,
)
    requires
        0 <= i < devices.len(),
        (MatchCriteria { phys: None, ..criteria }).met_by(devices[i]),
    ensures
        best_match(devices, criteria) matches Some(j) && 0 <= j < devices.len() && (MatchCriteria {
            phys: None,
            ..criteria
        }).met_by(devices[j]),
{
    let relaxed = MatchCriteria { phys: None, ..criteria };
    lemma_first_met(devices, criteria);
    lemma_first_met(devices, relaxed);
    if criteria.phys is None {
        assert(relaxed == criteria);
    }
}

/// The first device that meets the criteria meets them, none before it does,
/// and where there is none no device does.
pub proof fn lemma_first_met(devices: Seq<DeviceInfo>, criteria: MatchCriteria)
    ensures
        match first_met(devices, criteria) {
            Some(i) => {
                &&& 0 <= i < devices.len()
                &&& criteria.met_by(devices[i])
                &&& forall|j: int| 0 <= j < i ==> !criteria.met_by(#[trigger] devices[j])
            },
            None => forall|j: int|
                0 <= j < devices.len() ==> !criteria.met_by(#[trigger] devices[j]),
        },
    decreases devices.len(),
{
    if devices.len() > 0 {
        lemma_first_met(devices.drop_last(), criteria);
        let shorter = devices.drop_last();
        assert(forall|j: int| 0 <= j < shorter.len() ==> shorter[j] == devices[j]);
    }
}

/// What the criteria ask of a device: both of its USB ids, and its name and its
/// port where they are given. Nothing else counts.
pub proof fn law_criteria_ask_for_ids_name_and_port(criteria: MatchCriteria, dev: DeviceInfo)
    ensures
        criteria.met_by(dev) <==> {
            &&& dev.vendor_id == criteria.vendor_id
            &&& dev.product_id == criteria.product_id
            &&& criteria.name is None || dev.name@ == criteria.name->0@
            &&& criteria.phys is None || dev.phys is Some && dev.phys->0@ == criteria.phys->0@
        },
{
}

/// Whether a device has the USB ids that are asked for, and the name where one
/// is.
pub open spec fn is_the_model(criteria: MatchCriteria, dev: DeviceInfo) -> bool {
    &&& dev.vendor_id == criteria.vendor_id
    &&& dev.product_id == criteria.product_id
    &&& criteria.name is None || dev.name@ == criteria.name->0@
}

/// Whether a device is on the port that is asked for, where one is.
pub open spec fn on_the_port(criteria: MatchCriteria, dev: DeviceInfo) -> bool {
    criteria.phys is None || dev.phys is Some && dev.phys->0@ == criteria.phys->0@
}

/// The device that is found has the USB ids that were asked for, and the name
/// where one was; it is on the port that was asked for unless no such device is;
/// and it is the first of its kind. None is found only where no device has those
/// ids and that name.
pub proof fn law_found_device_is_the_right_one(devices: Seq<DeviceInfo>, criteria: MatchCriteria)
    ensures
        best_match(devices, criteria) matches Some(i) ==> {
            &&& 0 <= i < devices.len()
            &&& devices[i].vendor_id == criteria.vendor_id
            &&& devices[i].product_id == criteria.product_id
            &&& criteria.name matches Some(name) ==> devices[i].name@ == name@
            &&& forall|j: int|
                0 <= j < devices.len() && is_the_model(criteria, #[trigger] devices[j])
                    && on_the_port(criteria, devices[j]) ==> on_the_port(criteria, devices[i]) && i
                    <= j
            &&& forall|j: int|
                0 <= j < i && is_the_model(criteria, #[trigger] devices[j]) ==> on_the_port(
                    criteria,
                    devices[i],
                ) && !on_the_port(criteria, devices[j])
        },
        best_match(devices, criteria) is None ==> forall|j: int|
            0 <= j < devices.len() ==> !is_the_model(criteria, #[trigger] devices[j]),
{
    lemma_first_met(devices, criteria);
    lemma_first_met(devices, MatchCriteria { phys: None, ..criteria });
}

/// A strict search gives the first device that has the USB ids, the name and the
/// port that were asked for, and none only where there is no such device.
pub proof fn law_strict_search_is_exact(devices: Seq<DeviceInfo>, criteria: MatchCriteria)
    ensures
        first_met(devices, criteria) matches Some(i) ==> {
            &&& 0 <= i < devices.len()
            &&& is_the_model(criteria, devices[i]) && on_the_port(criteria, devices[i])
            &&& forall|j: int|
                0 <= j < i ==> !is_the_model(criteria, #[trigger] devices[j]) || !on_the_port(
                    criteria,
                    devices[j],
                )
        },
        first_met(devices, criteria) is None ==> forall|j: int|
            0 <= j < devices.len() ==> !is_the_model(criteria, #[trigger] devices[j])
                || !on_the_port(criteria, devices[j]),
{
    lemma_first_met(devices, criteria);
}

/// A device is a candidate exactly where it has a left button and reports
/// movement both ways, and does not bear the name of the virtual mouse.
pub proof fn law_candidates_are_mice(probe: DeviceProbe)
    ensures
        probe.candidate() <==> {
            &&& probe.keys matches Some(keys) && keys@.contains(0x110)
            &&& probe.axes matches Some(axes) && axes@.contains(0) && axes@.contains(1)
            &&& probe.name matches Some(name) ==> name@ != "Scrollock virtual mouse"@
        },
{
    reveal_strlit("Scrollock virtual mouse");
    assert(VIRTUAL_MOUSE_NAME@ == "Scrollock virtual mouse"@);
    if probe.name is None {
        assert(probe.spec_name().len() == 0);
    }
}

/// Of the codes of a device those are kept that are wanted, in the order in
/// which they are wanted.
pub proof fn law_wanted_codes_are_kept(wanted: Seq<u16>, there: Seq<u16>)
    ensures
        kept(wanted, there) == wanted.filter(|code: u16| there.contains(code)),
        forall|code: u16| #[trigger] kept(wanted, there).contains(code) <==> wanted.contains(code)
            && there.contains(code),
    decreases wanted.len(),
{
    reveal(Seq::filter);
    if wanted.len() > 0 {
        law_wanted_codes_are_kept(wanted.drop_last(), there);
        let before = kept(wanted.drop_last(), there);
        assert forall|code: u16| #[trigger] kept(wanted, there).contains(code) <==> wanted.contains(
            code,
        ) && there.contains(code) by {
            assert(before.contains(code) <==> wanted.drop_last().contains(code) && there.contains(
                code,
            ));
            if wanted.contains(code) {
                let i = choose|i: int| 0 <= i < wanted.len() && wanted[i] == code;
                if i < wanted.len() - 1 {
                    assert(wanted.drop_last()[i] == code);
                }
            }
            if wanted.drop_last().contains(code) {
                let i = choose|i: int|
                    0 <= i < wanted.drop_last().len() && wanted.drop_last()[i] == code;
                assert(wanted[i] == code);
            }
            assert(wanted[wanted.len() - 1] == wanted.last());
            if there.contains(wanted.last()) {
                let pushed = before.push(wanted.last());
                assert(pushed[before.len() as int] == wanted.last());
                if before.contains(code) {
                    let i = choose|i: int| 0 <= i < before.len() && before[i] == code;
                    assert(pushed[i] == code);
                }
                if pushed.contains(code) && code != wanted.last() {
                    let i = choose|i: int| 0 <= i < pushed.len() && pushed[i] == code;
                    assert(before[i] == code);
                }
            }
        }
    }
}

/// The listing goes device by device, in order, each under its number, counted
/// from one, and with its own path, name and ids; the port and the unique name
/// have a line each where they are known, and none where they are not.
pub proof fn law_listing_goes_device_by_device(
    devices: Seq<Listed>,
    device: Listed,
    i: int,
    path: Seq<char>,
    dev: DeviceInfo,
)
    ensures
        device_texts(devices.push(device)) == device_texts(devices) + device_text(
            devices.len() as int,
            device.shown_path@,
            *device.device,
        ),
        ("["@ + digits::decimal((i + 1) as nat) + "] "@ + path + "\n    name: "@ + dev.name@
            + "\n    usb-id: "@ + digits::four_digits(dev.vendor_id) + ":"@ + digits::four_digits(
            dev.product_id,
        ) + " (bus: "@ + bus_name(dev.bus_type) + ")\n"@ + (match dev.phys {
            Some(phys) => "    phys: "@ + phys@ + "\n"@,
            None => Seq::<char>::empty(),
        }) + (match dev.unique_name {
            Some(unique_name) => "    unique: "@ + unique_name@ + "\n"@,
            None => Seq::<char>::empty(),
        })).is_prefix_of(device_text(i, path, dev)),
{
    assert(devices.push(device).drop_last() =~= devices);
    let start = "["@ + digits::decimal((i + 1) as nat) + "] "@ + path + "\n    name: "@ + dev.name@
        + "\n    usb-id: "@ + digits::four_digits(dev.vendor_id) + ":"@ + digits::four_digits(
        dev.product_id,
    ) + " (bus: "@ + bus_name(dev.bus_type) + ")\n"@ + labelled(
        "    phys: "@,
        text::text_of(dev.phys),
    ) + labelled("    unique: "@, text::text_of(dev.unique_name));
    assert(device_text(i, path, dev).take(start.len() as int) =~= start);
}

/// Names that are listed together stand one after another, a space between each
/// two.
pub proof fn law_names_are_spaced(names: Seq<Seq<char>>, name: Seq<char>)
    ensures
        spaced(Seq::<Seq<char>>::empty()).len() == 0,
        names.len() == 0 ==> spaced(names.push(name)) == name,
        names.len() > 0 ==> spaced(names.push(name)) == spaced(names) + " "@ + name,
{
    assert(names.push(name).drop_last() =~= names);
}

/// Where mice were found, the listing has a heading and then the devices; where
/// none was, it has a hint and no heading.
pub proof fn law_listing_has_a_heading(devices: Seq<Listed>)
    ensures
        devices.len() > 0 ==> listing(devices) == "Candidate mice:\n\n"@ + device_texts(devices),
        devices.len() == 0 ==> listing(devices)
            == "No mouse-like input devices found under /dev/input/.\nHint: you may need to run this with elevated privileges.\n"@,
{
}

} // verus!
