//! Device descriptions and installation configuration.
//!
//! A `Device` records what enumeration reported about one USB device; the
//! same value later selects which devices to install against, so equality
//! is by all fields.  An `InstallConfig` is the immutable per-session
//! installation configuration.

use vstd::prelude::*;

verus! {

/// Mathematical value of a `Device`: the same fields with strings as
/// character sequences.
pub ghost struct DeviceView {
    pub vid: u16,
    pub pid: u16,
    pub is_composite: bool,
    pub mi: Option<u8>,
    pub driver_version: Option<u64>,
    pub desc: Seq<char>,
    pub driver: Option<Seq<char>>,
    pub device_id: Option<Seq<char>>,
    pub hardware_id: Option<Seq<char>>,
    pub compatible_id: Option<Seq<char>>,
    pub upper_filter: Option<Seq<char>>,
}

/// Description of one USB device: identification, composite/interface
/// information, the currently bound driver (if any) and optional platform
/// identifiers.
#[derive(Clone, Debug)]
pub struct Device {
    pub vid: u16,
    pub pid: u16,
    pub is_composite: bool,
    /// Interface index for composite devices; never zero when present.
    pub mi: Option<u8>,
    /// Packed version of the currently bound driver; never zero when present.
    pub driver_version: Option<u64>,
    pub desc: String,
    pub driver: Option<String>,
    pub device_id: Option<String>,
    pub hardware_id: Option<String>,
    pub compatible_id: Option<String>,
    pub upper_filter: Option<String>,
}

pub open spec fn view_of_opt_string(s: Option<String>) -> Option<Seq<char>> {
    match s {
        Some(v) => Some(v@),
        None => None,
    }
}

impl View for Device {
    type V = DeviceView;

    open spec fn view(&self) -> DeviceView {
        DeviceView {
            vid: self.vid,
            pid: self.pid,
            is_composite: self.is_composite,
            mi: self.mi,
            driver_version: self.driver_version,
            desc: self.desc@,
            driver: view_of_opt_string(self.driver),
            device_id: view_of_opt_string(self.device_id),
            hardware_id: view_of_opt_string(self.hardware_id),
            compatible_id: view_of_opt_string(self.compatible_id),
            upper_filter: view_of_opt_string(self.upper_filter),
        }
    }
}

/// Interface index and driver version come from non-zero-valued platform
/// fields, so zero never stands there; the wire codec rejects it as
/// malformed.
pub open spec fn spec_device_wf(d: DeviceView) -> bool {
    &&& (d.mi matches Some(v) ==> v != 0)
    &&& (d.driver_version matches Some(v) ==> v != 0)
}

impl Device {
    /// The non-zero invariant of the optional platform fields.
    pub open spec fn wf(&self) -> bool {
        spec_device_wf(self@)
    }
}

/// Installation configuration, immutable once sent to the worker.
#[derive(Clone, Debug)]
pub struct InstallConfig {
    /// Name shown as the device's "Manufacturer" property.
    pub vendor: String,
    /// Directory where the driver files are generated.
    pub driver_path: String,
    /// Name of the generated descriptor file, extension included.
    pub inf_name: String,
}

/// Mathematical value of an `InstallConfig`.
pub ghost struct InstallConfigView {
    pub vendor: Seq<char>,
    pub driver_path: Seq<char>,
    pub inf_name: Seq<char>,
}

impl View for InstallConfig {
    type V = InstallConfigView;

    open spec fn view(&self) -> InstallConfigView {
        InstallConfigView {
            vendor: self.vendor@,
            driver_path: self.driver_path@,
            inf_name: self.inf_name@,
        }
    }
}

/// Opaque handle of a native window able to receive relayed log text,
/// carried across the process boundary as a plain integer.
#[derive(Clone, Copy, PartialEq, Eq, Structural)]
pub struct Window(pub i64);

/// ASCII lower-casing of one character; anything outside `'A'..='Z'` is
/// left alone.
pub open spec fn lower_char(c: char) -> char {
    if 65 <= c as u32 && c as u32 <= 90 {
        ((c as u32) + 32) as char
    } else {
        c
    }
}

/// ASCII lower-casing of a character sequence.
pub open spec fn lower_chars(s: Seq<char>) -> Seq<char> {
    s.map_values(|c: char| lower_char(c))
}

pub open spec fn spec_opt_string_eq(a: Option<String>, b: Option<String>) -> bool {
    match (a, b) {
        (Some(x), Some(y)) => x@ == y@,
        (None, None) => true,
        _ => false,
    }
}

/// Field-wise equality of two device descriptions, strings compared by
/// content.
pub open spec fn spec_device_eq(a: &Device, b: &Device) -> bool {
    &&& a.vid == b.vid
    &&& a.pid == b.pid
    &&& a.is_composite == b.is_composite
    &&& a.mi == b.mi
    &&& a.driver_version == b.driver_version
    &&& a.desc@ == b.desc@
    &&& spec_opt_string_eq(a.driver, b.driver)
    &&& spec_opt_string_eq(a.device_id, b.device_id)
    &&& spec_opt_string_eq(a.hardware_id, b.hardware_id)
    &&& spec_opt_string_eq(a.compatible_id, b.compatible_id)
    &&& spec_opt_string_eq(a.upper_filter, b.upper_filter)
}

fn opt_string_eq(a: &Option<String>, b: &Option<String>) -> (r: bool)
    ensures
        r == spec_opt_string_eq(*a, *b),
{
    match (a, b) {
        (Some(x), Some(y)) => x.eq(y),
        (None, None) => true,
        _ => false,
    }
}

impl Device {
    /// Whether the currently bound driver is WinUSB, compared without
    /// regard to ASCII letter case.
    pub open spec fn spec_has_winusb(&self) -> bool {
        match self@.driver {
            Some(s) => lower_chars(s) == "winusb"@,
            None => false,
        }
    }

    /// Convenience method for checking if the device has the WinUSB
    /// driver installed.
    pub fn has_winusb(&self) -> (r: bool)
        ensures
            r == self.spec_has_winusb(),
    {
        proof {
            reveal_strlit("winusb");
        }
        match &self.driver {
            None => false,
            Some(s) => {
                let target = "winusb";
                proof {
                    assert(target@.len() == 6);
                }
                let n = s.as_str().unicode_len();
                if n != 6 {
                    proof {
                        assert(lower_chars(s@).len() == s@.len());
                    }
                    return false;
                }
                let mut i: usize = 0;
                while i < 6
                    invariant
                        i <= 6,
                        s@.len() == 6,
                        self@.driver == Some(s@),
                        target@ == "winusb"@,
                        "winusb"@.len() == 6,
                        forall|j: int| 0 <= j < i ==> lower_char(s@[j]) == "winusb"@[j],
                    decreases 6 - i,
                {
                    let c = s.as_str().get_char(i);
                    let cl = char_to_lower(c);
                    if cl != target.get_char(i) {
                        proof {
                            assert(lower_chars(s@)[i as int] == lower_char(s@[i as int]));
                            assert(lower_chars(s@) != "winusb"@);
                        }
                        return false;
                    }
                    i += 1;
                }
                proof {
                    assert(forall|j: int|
                        0 <= j < 6 ==> lower_chars(s@)[j] == lower_char(s@[j]));
                    assert(lower_chars(s@) =~= "winusb"@);
                }
                true
            },
        }
    }

    /// Structural equality with strings compared by content.
    pub fn same_device(&self, other: &Device) -> (r: bool)
        ensures
            r == spec_device_eq(self, other),
    {
        self.vid == other.vid && self.pid == other.pid && self.is_composite == other.is_composite
            && opt_u8_eq(&self.mi, &other.mi) && opt_u64_eq(
            &self.driver_version,
            &other.driver_version,
        ) && self.desc == other.desc && opt_string_eq(&self.driver, &other.driver)
            && opt_string_eq(&self.device_id, &other.device_id) && opt_string_eq(
            &self.hardware_id,
            &other.hardware_id,
        ) && opt_string_eq(&self.compatible_id, &other.compatible_id) && opt_string_eq(
            &self.upper_filter,
            &other.upper_filter,
        )
    }
}

impl PartialEq for Device {
    fn eq(&self, other: &Device) -> (r: bool) {
        self.same_device(other)
    }
}

impl Eq for Device {

}

impl vstd::std_specs::cmp::PartialEqSpecImpl for Device {
    open spec fn obeys_eq_spec() -> bool {
        true
    }

    open spec fn eq_spec(&self, other: &Device) -> bool {
        spec_device_eq(self, other)
    }
}

fn opt_u8_eq(a: &Option<u8>, b: &Option<u8>) -> (r: bool)
    ensures
        r == (*a == *b),
{
    match (a, b) {
        (Some(x), Some(y)) => x == y,
        (None, None) => true,
        _ => false,
    }
}

fn opt_u64_eq(a: &Option<u64>, b: &Option<u64>) -> (r: bool)
    ensures
        r == (*a == *b),
{
    match (a, b) {
        (Some(x), Some(y)) => x == y,
        (None, None) => true,
        _ => false,
    }
}

/// ASCII lower-casing of one character.
fn char_to_lower(c: char) -> (r: char)
    ensures
        r == lower_char(c),
{
    let u = c as u32;
    if 65 <= u && u <= 90 {
        ((u + 32) as u8) as char
    } else {
        c
    }
}

} // verus!
