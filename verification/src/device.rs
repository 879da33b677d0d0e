//! Selecting the matching device out of a HID enumeration and formatting
//! its human-readable description.
//!
//! The surrounding program enumerates the attached HID devices and hands the
//! fields the monitor reads over as plain values, one [`DeviceRecord`] per
//! device. The logic here picks the first record with the sought vendor
//! identifier and formats its description: product name (with a default when
//! absent), a serial line only when the serial is present and non-empty, and
//! the vendor and product identifiers as four hexadecimal digits each.
use vstd::prelude::*;
use crate::YUBICO_VENDOR_ID;

verus! {

/// What the monitor reads of one enumerated HID device.
pub struct DeviceRecord {
    pub vendor_id: u16,
    pub product_id: u16,
    pub product: Option<String>,
    pub serial: Option<String>,
}

/// One hexadecimal digit, lower case.
pub open spec fn hex_digit(n: u16) -> char {
    if n == 0 {
        '0'
    } else if n == 1 {
        '1'
    } else if n == 2 {
        '2'
    } else if n == 3 {
        '3'
    } else if n == 4 {
        '4'
    } else if n == 5 {
        '5'
    } else if n == 6 {
        '6'
    } else if n == 7 {
        '7'
    } else if n == 8 {
        '8'
    } else if n == 9 {
        '9'
    } else if n == 10 {
        'a'
    } else if n == 11 {
        'b'
    } else if n == 12 {
        'c'
    } else if n == 13 {
        'd'
    } else if n == 14 {
        'e'
    } else {
        'f'
    }
}

/// A 16-bit identifier as exactly four lower-case hexadecimal digits.
pub open spec fn spec_hex4(v: u16) -> Seq<char> {
    seq![
        hex_digit((v >> 12) & 0xf),
        hex_digit((v >> 8) & 0xf),
        hex_digit((v >> 4) & 0xf),
        hex_digit(v & 0xf),
    ]
}

/// The product name shown for a device: its product string, or a fixed
/// default when the enumeration gave none.
pub open spec fn spec_product_name(d: DeviceRecord) -> Seq<char> {
    match d.product {
        Some(p) => p@,
        None => "Unknown Device"@,
    }
}

/// Whether the description carries a serial line: only for a present,
/// non-empty serial number.
pub open spec fn spec_has_serial(d: DeviceRecord) -> bool {
    match d.serial {
        Some(s) => s@.len() > 0,
        None => false,
    }
}

/// The serial line of the description, empty when there is none.
pub open spec fn spec_serial_part(d: DeviceRecord) -> Seq<char> {
    if spec_has_serial(d) {
        "S/N: "@ + (d.serial->0)@ + "\n"@
    } else {
        Seq::<char>::empty()
    }
}

/// The full description of a matching device.
pub open spec fn spec_format_device(d: DeviceRecord) -> Seq<char> {
    spec_product_name(d) + "\n"@ + spec_serial_part(d) + "ID: "@ + spec_hex4(d.vendor_id)
        + ":"@ + spec_hex4(d.product_id)
}

/// What a scan of the given enumeration yields: the description of the
/// first record with the sought vendor identifier, or absence.
pub open spec fn spec_scan(devices: Seq<DeviceRecord>) -> Option<Seq<char>>
    decreases devices.len(),
{
    if devices.len() == 0 {
        None
    } else if devices.first().vendor_id == YUBICO_VENDOR_ID {
        Some(spec_format_device(devices.first()))
    } else {
        spec_scan(devices.drop_first())
    }
}

fn hex_digit_str(n: u16) -> (s: &'static str)
    requires
        n < 16,
    ensures
        s@ == seq![hex_digit(n)],
{
    proof {
        reveal_strlit("0");
        reveal_strlit("1");
        reveal_strlit("2");
        reveal_strlit("3");
        reveal_strlit("4");
        reveal_strlit("5");
        reveal_strlit("6");
        reveal_strlit("7");
        reveal_strlit("8");
        reveal_strlit("9");
        reveal_strlit("a");
        reveal_strlit("b");
        reveal_strlit("c");
        reveal_strlit("d");
        reveal_strlit("e");
        reveal_strlit("f");
        assert("0"@ =~= seq!['0']);
        assert("1"@ =~= seq!['1']);
        assert("2"@ =~= seq!['2']);
        assert("3"@ =~= seq!['3']);
        assert("4"@ =~= seq!['4']);
        assert("5"@ =~= seq!['5']);
        assert("6"@ =~= seq!['6']);
        assert("7"@ =~= seq!['7']);
        assert("8"@ =~= seq!['8']);
        assert("9"@ =~= seq!['9']);
        assert("a"@ =~= seq!['a']);
        assert("b"@ =~= seq!['b']);
        assert("c"@ =~= seq!['c']);
        assert("d"@ =~= seq!['d']);
        assert("e"@ =~= seq!['e']);
        assert("f"@ =~= seq!['f']);
    }
    if n == 0 {
        "0"
    } else if n == 1 {
        "1"
    } else if n == 2 {
        "2"
    } else if n == 3 {
        "3"
    } else if n == 4 {
        "4"
    } else if n == 5 {
        "5"
    } else if n == 6 {
        "6"
    } else if n == 7 {
        "7"
    } else if n == 8 {
        "8"
    } else if n == 9 {
        "9"
    } else if n == 10 {
        "a"
    } else if n == 11 {
        "b"
    } else if n == 12 {
        "c"
    } else if n == 13 {
        "d"
    } else if n == 14 {
        "e"
    } else {
        "f"
    }
}

fn push_hex4(out: &mut String, v: u16)
    ensures
        final(out)@ == old(out)@ + spec_hex4(v),
{
    proof {
        assert((v >> 12) & 0xf < 16) by (bit_vector);
        assert((v >> 8) & 0xf < 16) by (bit_vector);
        assert((v >> 4) & 0xf < 16) by (bit_vector);
        assert(v & 0xf < 16) by (bit_vector);
    }
    out.append(hex_digit_str((v >> 12) & 0xf));
    out.append(hex_digit_str((v >> 8) & 0xf));
    out.append(hex_digit_str((v >> 4) & 0xf));
    out.append(hex_digit_str(v & 0xf));
    proof {
        assert(out@ =~= old(out)@ + spec_hex4(v));
    }
}

/// The human-readable description of a device: product name, the serial
/// line only when a non-empty serial is present, and the identifiers in hex.
pub fn format_device_info(d: &DeviceRecord) -> (r: String)
    ensures
        r@ == spec_format_device(*d),
{
    let mut out = String::new();
    match &d.product {
        Some(p) => {
            out.append(p.as_str());
        },
        None => {
            out.append("Unknown Device");
        },
    }
    out.append("\n");
    match &d.serial {
        Some(s) => {
            if !s.as_str().is_empty() {
                out.append("S/N: ");
                out.append(s.as_str());
                out.append("\n");
            }
        },
        None => {},
    }
    out.append("ID: ");
    push_hex4(&mut out, d.vendor_id);
    out.append(":");
    push_hex4(&mut out, d.product_id);
    proof {
        assert(out@ =~= spec_format_device(*d));
    }
    out
}

/// A present, non-empty serial number appears verbatim in the description;
/// an absent or empty one leaves the description without any serial part.
pub proof fn lemma_serial_in_description(d: DeviceRecord)
    ensures
        !spec_has_serial(d) ==> spec_format_device(d) == spec_product_name(d) + "\n"@ + "ID: "@
            + spec_hex4(d.vendor_id) + ":"@ + spec_hex4(d.product_id),
        spec_has_serial(d) ==> spec_format_device(d).subrange(
            spec_product_name(d).len() as int + 6,
            spec_product_name(d).len() as int + 6 + (d.serial->0)@.len() as int,
        ) == (d.serial->0)@,
{
    reveal_strlit("\n");
    reveal_strlit("S/N: ");
    if spec_has_serial(d) {
        assert(spec_format_device(d).subrange(
            spec_product_name(d).len() as int + 6,
            spec_product_name(d).len() as int + 6 + (d.serial->0)@.len() as int,
        ) =~= (d.serial->0)@);
    } else {
        assert(spec_format_device(d) =~= spec_product_name(d) + "\n"@ + "ID: "@ + spec_hex4(
            d.vendor_id,
        ) + ":"@ + spec_hex4(d.product_id));
    }
}

proof fn lemma_scan_unseen_prefix(devices: Seq<DeviceRecord>, i: int)
    requires
        0 <= i <= devices.len(),
        forall|j: int| 0 <= j < i ==> devices[j].vendor_id != YUBICO_VENDOR_ID,
    ensures
        spec_scan(devices) == spec_scan(devices.subrange(i, devices.len() as int)),
    decreases i,
{
    if i == 0 {
        assert(devices.subrange(0, devices.len() as int) =~= devices);
    } else {
        lemma_scan_unseen_prefix(devices.drop_first(), i - 1);
        assert(devices.drop_first().subrange(i - 1, devices.drop_first().len() as int)
            =~= devices.subrange(i, devices.len() as int));
    }
}

/// A scan over an enumeration where no record carries the sought vendor
/// identifier yields absence.
pub proof fn lemma_scan_absent(devices: Seq<DeviceRecord>)
    requires
        forall|i: int| 0 <= i < devices.len() ==> devices[i].vendor_id != YUBICO_VENDOR_ID,
    ensures
        spec_scan(devices) is None,
{
    lemma_scan_unseen_prefix(devices, devices.len() as int);
}

/// Scan an enumeration for the first device with the sought vendor
/// identifier; absence when there is none. Enumeration failure is the
/// empty enumeration, so it yields absence too.
pub fn scan(devices: &Vec<DeviceRecord>) -> (r: Option<String>)
    ensures
        match r {
            Some(desc) => spec_scan(devices@) == Some(desc@),
            None => spec_scan(devices@) is None,
        },
        r is Some <==> exists|i: int|
            0 <= i < devices@.len() && (#[trigger] devices@[i].vendor_id) == YUBICO_VENDOR_ID,
        (forall|i: int|
            0 <= i < devices@.len() ==> (#[trigger] devices@[i].vendor_id)
                != YUBICO_VENDOR_ID) ==> r is None,
{
    let n = devices.len();
    let mut idx: usize = 0;
    while idx < n
        invariant
            0 <= idx <= n,
            n == devices@.len(),
            forall|j: int| 0 <= j < idx ==> (#[trigger] devices@[j].vendor_id)
                != YUBICO_VENDOR_ID,
        decreases n - idx,
    {
        if devices[idx].vendor_id == YUBICO_VENDOR_ID {
            proof {
                lemma_scan_unseen_prefix(devices@, idx as int);
                assert(devices@.subrange(idx as int, n as int).first() == devices@[idx as int]);
            }
            return Some(format_device_info(&devices[idx]));
        }
        idx = idx + 1;
    }
    proof {
        lemma_scan_unseen_prefix(devices@, n as int);
        assert(devices@.subrange(n as int, n as int).len() == 0);
    }
    None
}

} // verus!
