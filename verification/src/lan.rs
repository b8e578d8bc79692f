//! Verdicts on what the local network reports: private addresses, the
//! captive portal check, and the reachability check through the proxy.

use crate::effect::Platform;
use crate::text::{contains_bytes, lossy, lossy_text, occurs, text_of, trim_text, trimmed};
use crate::vpn::{SpawnDescriptor, SpawnDescriptorView};
use vstd::prelude::*;
use vstd::slice::slice_subrange;
use vstd::string::StringExecFns;
use vstd::string::StringSliceAdditionalSpecFns;

verus! {

/// The address to which a captive portal check is sent when the portal
/// names no other.
pub open spec fn default_captive_url() -> Seq<char> {
    "http://captive.oneoh.cloud"@
}

/// Where the scan of a dotted address stands: the fields that were closed
/// by a dot, and the value of the field being read, if a digit of it was.
pub struct Scan {
    pub valid: bool,
    pub fields: Seq<nat>,
    pub current: Option<nat>,
}

pub open spec fn scan_start() -> Scan {
    Scan { valid: true, fields: Seq::empty(), current: None }
}

/// The scan after one more byte. A digit extends the field, which must
/// stay under 256; a dot closes a field that has a digit; any other byte,
/// and a fifth field, make the text invalid.
pub open spec fn scan_byte(scan: Scan, byte: u8) -> Scan {
    if !scan.valid {
        scan
    } else if 48 <= byte <= 57 {
        let digit = (byte - 48) as nat;
        let value = match scan.current {
            Some(value) => value * 10 + digit,
            None => digit,
        };
        Scan { valid: value <= 255, fields: scan.fields, current: Some(value) }
    } else if byte == 46 {
        match scan.current {
            Some(value) => Scan {
                valid: scan.fields.len() < 3,
                fields: scan.fields.push(value),
                current: None,
            },
            None => Scan { valid: false, ..scan },
        }
    } else {
        Scan { valid: false, ..scan }
    }
}

/// The scan of a whole text.
pub open spec fn scanned(bytes: Seq<u8>) -> Scan
    decreases bytes.len(),
{
    if bytes.len() == 0 {
        scan_start()
    } else {
        scan_byte(scanned(bytes.drop_last()), bytes.last())
    }
}

/// The four fields of a dotted IPv4 address, if the text is one: four
/// decimal fields, each at most 255, separated by dots.
pub open spec fn ipv4_fields(bytes: Seq<u8>) -> Option<Seq<nat>> {
    let scan = scanned(bytes);
    if scan.valid && scan.fields.len() == 3 && scan.current.is_some() {
        Some(scan.fields.push(scan.current.unwrap()))
    } else {
        None
    }
}

/// Whether four fields lie in one of the ranges set aside for private
/// networks: 10.0.0.0/8, 172.16.0.0/12 or 192.168.0.0/16.
pub open spec fn private_fields(fields: Seq<nat>) -> bool {
    &&& fields.len() == 4
    &&& {
        ||| fields[0] == 10
        ||| fields[0] == 172 && 16 <= fields[1] <= 31
        ||| fields[0] == 192 && fields[1] == 168
    }
}

/// Whether a text is a dotted IPv4 address of a private network.
pub open spec fn private_address(bytes: Seq<u8>) -> bool {
    match ipv4_fields(bytes) {
        Some(fields) => private_fields(fields),
        None => false,
    }
}

/// The scan that goes on from `scan` over `bytes`.
pub open spec fn scan_over(scan: Scan, bytes: Seq<u8>) -> Scan
    decreases bytes.len(),
{
    if bytes.len() == 0 {
        scan
    } else {
        scan_byte(scan_over(scan, bytes.drop_last()), bytes.last())
    }
}

/// The decimal digits of a field, without leading zeros.
pub open spec fn decimal(value: nat) -> Seq<u8> {
    if value < 10 {
        seq![(48 + value) as u8]
    } else if value < 100 {
        seq![(48 + value / 10) as u8, (48 + value % 10) as u8]
    } else {
        seq![(48 + value / 100) as u8, (48 + (value / 10) % 10) as u8, (48 + value % 10) as u8]
    }
}

/// The dotted text of four fields.
pub open spec fn dotted(a: nat, b: nat, c: nat, d: nat) -> Seq<u8> {
    decimal(a) + seq![46u8] + decimal(b) + seq![46u8] + decimal(c) + seq![46u8] + decimal(d)
}

proof fn lemma_scan_over_start(bytes: Seq<u8>)
    ensures
        scanned(bytes) == scan_over(scan_start(), bytes),
    decreases bytes.len(),
{
    if bytes.len() > 0 {
        lemma_scan_over_start(bytes.drop_last());
    }
}

proof fn lemma_scan_over_concat(scan: Scan, head: Seq<u8>, tail: Seq<u8>)
    ensures
        scan_over(scan, head + tail) == scan_over(scan_over(scan, head), tail),
    decreases tail.len(),
{
    if tail.len() == 0 {
        assert(head + tail =~= head);
    } else {
        assert((head + tail).drop_last() =~= head + tail.drop_last());
        assert((head + tail).last() == tail.last());
        lemma_scan_over_concat(scan, head, tail.drop_last());
    }
}

proof fn lemma_scan_over_decimal(scan: Scan, value: nat)
    requires
        scan.valid,
        scan.current.is_none(),
        value <= 255,
    ensures
        scan_over(scan, decimal(value)) == (Scan { current: Some(value), ..scan }),
{
    reveal_with_fuel(scan_over, 4);
    let digits = decimal(value);
    if value < 10 {
        assert(digits.drop_last() =~= Seq::<u8>::empty());
    } else if value < 100 {
        assert(digits.drop_last() =~= seq![(48 + value / 10) as u8]);
        assert(digits.drop_last().drop_last() =~= Seq::<u8>::empty());
    } else {
        let two = seq![(48 + value / 100) as u8, (48 + (value / 10) % 10) as u8];
        assert(digits.drop_last() =~= two);
        assert(two.drop_last() =~= seq![(48 + value / 100) as u8]);
        assert(two.drop_last().drop_last() =~= Seq::<u8>::empty());
    }
}

proof fn lemma_scan_over_dot(scan: Scan)
    requires
        scan.valid,
        scan.current.is_some(),
        scan.fields.len() < 3,
    ensures
        scan_over(scan, seq![46u8]) == (Scan {
            valid: true,
            fields: scan.fields.push(scan.current.unwrap()),
            current: None,
        }),
{
    reveal_with_fuel(scan_over, 2);
    assert(seq![46u8].drop_last() =~= Seq::<u8>::empty());
}

/// Every dotted text of four fields, each at most 255 and written without
/// leading zeros, is read as those four fields.
pub proof fn lemma_dotted_is_read(a: nat, b: nat, c: nat, d: nat)
    requires
        a <= 255,
        b <= 255,
        c <= 255,
        d <= 255,
    ensures
        ipv4_fields(dotted(a, b, c, d)) == Some(seq![a, b, c, d]),
        private_address(dotted(a, b, c, d)) == private_fields(seq![a, b, c, d]),
{
    let dot = seq![46u8];
    let t1 = decimal(a);
    let t2 = t1 + dot;
    let t3 = t2 + decimal(b);
    let t4 = t3 + dot;
    let t5 = t4 + decimal(c);
    let t6 = t5 + dot;
    let t7 = t6 + decimal(d);
    let s0 = scan_start();
    lemma_scan_over_start(t7);
    lemma_scan_over_decimal(s0, a);
    let s1 = scan_over(s0, t1);
    lemma_scan_over_concat(s0, t1, dot);
    lemma_scan_over_dot(s1);
    let s2 = scan_over(s0, t2);
    lemma_scan_over_concat(s0, t2, decimal(b));
    lemma_scan_over_decimal(s2, b);
    let s3 = scan_over(s0, t3);
    lemma_scan_over_concat(s0, t3, dot);
    lemma_scan_over_dot(s3);
    let s4 = scan_over(s0, t4);
    lemma_scan_over_concat(s0, t4, decimal(c));
    lemma_scan_over_decimal(s4, c);
    let s5 = scan_over(s0, t5);
    lemma_scan_over_concat(s0, t5, dot);
    lemma_scan_over_dot(s5);
    let s6 = scan_over(s0, t6);
    lemma_scan_over_concat(s0, t6, decimal(d));
    lemma_scan_over_decimal(s6, d);
    let s7 = scan_over(s0, t7);
    assert(s7.fields =~= seq![a, b, c]);
    assert(s7.fields.push(d) =~= seq![a, b, c, d]);
}

/// Whether `ip` is a dotted IPv4 address of a private network. A text
/// that is no such address is not private.
pub fn is_private_ip(ip: &str) -> (private: bool)
    ensures
        private == private_address(ip.spec_bytes()),
{
    let bytes = ip.as_bytes();
    let mut valid = true;
    let mut closed: usize = 0;
    let mut first: u16 = 0;
    let mut second: u16 = 0;
    let mut current: Option<u16> = None;
    let mut i: usize = 0;
    while i < bytes.len()
        invariant
            i <= bytes.len(),
            bytes@ == ip.spec_bytes(),
            valid == scanned(bytes@.take(i as int)).valid,
            valid ==> {
                let scan = scanned(bytes@.take(i as int));
                &&& closed == scan.fields.len()
                &&& closed <= 3
                &&& closed >= 1 ==> first == scan.fields[0]
                &&& closed >= 2 ==> second == scan.fields[1]
                &&& match current {
                    Some(value) => scan.current == Some(value as nat) && value <= 255,
                    None => scan.current.is_none(),
                }
            },
        decreases bytes.len() - i,
    {
        let byte = bytes[i];
        proof {
            assert(bytes@.take(i + 1).drop_last() =~= bytes@.take(i as int));
            assert(bytes@.take(i + 1).last() == byte);
        }
        if valid {
            if 48 <= byte && byte <= 57 {
                let digit = (byte - 48) as u16;
                let value = match current {
                    Some(value) => value * 10 + digit,
                    None => digit,
                };
                current = Some(value);
                valid = value <= 255;
            } else if byte == 46 {
                match current {
                    Some(value) => {
                        if closed == 0 {
                            first = value;
                        } else if closed == 1 {
                            second = value;
                        }
                        valid = closed < 3;
                        if valid {
                            closed = closed + 1;
                        }
                        current = None;
                    },
                    None => {
                        valid = false;
                    },
                }
            } else {
                valid = false;
            }
        }
        i = i + 1;
    }
    proof {
        assert(bytes@.take(bytes.len() as int) =~= bytes@);
    }
    if valid && closed == 3 && current.is_some() {
        first == 10 || (first == 172 && 16 <= second && second <= 31) || (first == 192 && second
            == 168)
    } else {
        false
    }
}

/// What the captive portal check found, as the number the interface
/// expects: 0 where the network is open (the check was answered with 204),
/// 1 where a portal asks for authentication (a redirection), and -1 where
/// the check failed or was answered otherwise.
pub open spec fn portal_status(response: Option<u16>) -> int {
    match response {
        Some(status) => if status == 204 {
            0
        } else if 300 <= status <= 399 {
            1
        } else {
            -1
        },
        None => -1,
    }
}

/// Reads the answer to the captive portal check; `response` is the status
/// of the answer, or `None` where the request failed.
pub fn check_captive_portal_status(response: Option<u16>) -> (verdict: i8)
    ensures
        verdict == portal_status(response),
{
    match response {
        Some(status) => {
            if status == 204 {
                0
            } else if 300 <= status && status <= 399 {
                1
            } else {
                -1
            }
        },
        None => -1,
    }
}

/// The address of the portal: the location that a redirection names, and
/// the default address in every other case.
pub open spec fn redirect_url(response: Option<(u16, Option<Seq<char>>)>) -> Seq<char> {
    match response {
        Some((status, Some(location))) => if 300 <= status <= 399 {
            location
        } else {
            default_captive_url()
        },
        _ => default_captive_url(),
    }
}

/// Reads the answer to the request for the portal's address; `status` and
/// `location` are those of the answer, `None` where there was none.
pub fn get_captive_redirect_url(status: Option<u16>, location: Option<String>) -> (url: String)
    ensures
        url@ == redirect_url(
            match status {
                Some(code) => Some((code, text_of(location))),
                None => None,
            },
        ),
{
    match status {
        Some(code) => {
            if 300 <= code && code <= 399 {
                match location {
                    Some(target) => target,
                    None => String::from_str("http://captive.oneoh.cloud"),
                }
            } else {
                String::from_str("http://captive.oneoh.cloud")
            }
        },
        None => String::from_str("http://captive.oneoh.cloud"),
    }
}

/// Whether the request sent through the proxy was answered with success;
/// `status` is `None` where it failed.
pub fn ping_google(status: Option<u16>) -> (reachable: bool)
    ensures
        reachable == match status {
            Some(code) => 200 <= code <= 299,
            None => false,
        },
{
    match status {
        Some(code) => 200 <= code && code <= 299,
        None => false,
    }
}

/// How many bytes stand between `from` and the first `byte` at or after
/// it and before `to`; all that are left, where there is none.
pub open spec fn gap(bytes: Seq<u8>, byte: u8, from: int, to: int) -> nat
    decreases to - from,
{
    if from >= to || bytes[from] == byte {
        0
    } else {
        1 + gap(bytes, byte, from + 1, to)
    }
}

/// The position of the first `byte` at or after `from` and before `to`, or
/// `to` where there is none.
pub open spec fn first_index(bytes: Seq<u8>, byte: u8, from: int, to: int) -> int {
    from + gap(bytes, byte, from, to)
}

/// Whether a line of the interface listing names an IPv4 address that is
/// neither link-local nor of the carrier's address space.
pub open spec fn usable_line(line: Seq<u8>) -> bool {
    &&& occurs(line, "IPv4".spec_bytes())
    &&& !occurs(line, "169.254.".spec_bytes())
    &&& !occurs(line, "100.127.".spec_bytes())
}

/// Where the second of the fields that colons separate stands in the line
/// from `from` to `to`, if the line has a colon.
pub open spec fn second_field(bytes: Seq<u8>, from: int, to: int) -> Option<(int, int)> {
    let colon = first_index(bytes, 58, from, to);
    if colon >= to {
        None
    } else {
        Some((colon + 1, first_index(bytes, 58, colon + 1, to)))
    }
}

/// Where the address stands in an interface listing read from `from` on:
/// the second field of the first usable line that has one.
pub open spec fn address_field(bytes: Seq<u8>, from: int) -> Option<(int, int)>
    decreases bytes.len() - from,
{
    if from < 0 || from >= bytes.len() {
        None
    } else {
        let end = first_index(bytes, 10, from, bytes.len() as int);
        let field = if usable_line(bytes.subrange(from, end)) {
            second_field(bytes, from, end)
        } else {
            None
        };
        match field {
            Some(range) => Some(range),
            None => if from <= end < bytes.len() {
                address_field(bytes, end + 1)
            } else {
                None
            },
        }
    }
}

/// The address of the local network, read from what the platform's
/// listing of its interfaces printed. Where the listing is made by a shell
/// pipeline its output is the address; the listing of Windows is searched
/// for the address field. Either is trimmed.
pub open spec fn lan_ip(platform: Platform, output: Seq<u8>) -> Result<Seq<char>, Seq<char>> {
    if platform.posix() {
        Ok(trimmed(lossy(output)))
    } else {
        match address_field(output, 0) {
            Some((from, to)) => Ok(trimmed(lossy(output.subrange(from, to)))),
            None => Err("unknown"@),
        }
    }
}

fn find_byte(bytes: &[u8], byte: u8, from: usize, to: usize) -> (at: usize)
    requires
        from <= to <= bytes@.len(),
    ensures
        at == first_index(bytes@, byte, from as int, to as int),
        from <= at <= to,
{
    let mut i: usize = from;
    while i < to
        invariant
            from <= i <= to,
            to <= bytes@.len(),
            first_index(bytes@, byte, from as int, to as int) == first_index(
                bytes@,
                byte,
                i as int,
                to as int,
            ),
        decreases to - i,
    {
        if bytes[i] == byte {
            return i;
        }
        i = i + 1;
    }
    i
}

fn is_usable_line(line: &[u8]) -> (usable: bool)
    ensures
        usable == usable_line(line@),
{
    contains_bytes(line, "IPv4".as_bytes()) && !contains_bytes(line, "169.254.".as_bytes())
        && !contains_bytes(line, "100.127.".as_bytes())
}

/// Finds where the address stands in an interface listing.
pub fn find_address_field(bytes: &[u8]) -> (range: Option<(usize, usize)>)
    ensures
        match range {
            Some((from, to)) => address_field(bytes@, 0) == Some((from as int, to as int)) && from
                <= to <= bytes@.len(),
            None => address_field(bytes@, 0).is_none(),
        },
{
    let total: usize = bytes.len();
    let mut from: usize = 0;
    while from < total
        invariant
            from <= total,
            total == bytes@.len(),
            address_field(bytes@, 0) == address_field(bytes@, from as int),
        decreases total - from,
    {
        let end = find_byte(bytes, 10, from, total);
        let line = slice_subrange(bytes, from, end);
        if is_usable_line(line) {
            let colon = find_byte(bytes, 58, from, end);
            if colon < end {
                let stop = find_byte(bytes, 58, colon + 1, end);
                return Some((colon + 1, stop));
            }
        }
        if end == total {
            return None;
        }
        from = end + 1;
    }
    None
}

/// The view of an address or of the report that none was found.
pub open spec fn lan_ip_view(found: Result<String, String>) -> Result<Seq<char>, Seq<char>> {
    match found {
        Ok(address) => Ok(address@),
        Err(message) => Err(message@),
    }
}

/// Reads the address of the local network from what the platform's
/// listing of its interfaces printed.
pub fn get_lan_ip(platform: Platform, output: &[u8]) -> (found: Result<String, String>)
    ensures
        lan_ip_view(found) == lan_ip(platform, output@),
{
    if platform.is_posix() {
        let text = lossy_text(output);
        Ok(trim_text(text.as_str()))
    } else {
        match find_address_field(output) {
            Some((from, to)) => {
                let text = lossy_text(slice_subrange(output, from, to));
                Ok(trim_text(text.as_str()))
            },
            None => Err(String::from_str("unknown")),
        }
    }
}

/// The pipeline that lists the interfaces of Linux and prints the first
/// address that is not a loopback address.
pub open spec fn linux_listing() -> Seq<char> {
    "ip -4 addr show | awk '/inet /{print $2}' | cut -d/ -f1 | grep -v '^127\\.' | head -n 1"@
}

/// The pipeline that asks each interface of macOS for its address.
pub open spec fn macos_listing() -> Seq<char> {
    "ifconfig | grep 'flags=' | cut -d: -f1 | xargs -I {} ipconfig getifaddr {} 2>/dev/null"@
}

/// The command that lists the interfaces of `platform`.
pub fn lan_ip_command(platform: Platform) -> (descriptor: SpawnDescriptor)
    ensures
        descriptor@ == match platform {
            Platform::Windows => SpawnDescriptorView { program: "ipconfig"@, args: Seq::empty() },
            Platform::Linux => SpawnDescriptorView {
                program: "bash"@,
                args: seq!["-c"@, linux_listing()],
            },
            Platform::MacOs => SpawnDescriptorView {
                program: "bash"@,
                args: seq!["-c"@, macos_listing()],
            },
        },
{
    let mut args: Vec<String> = Vec::new();
    match platform {
        Platform::Windows => {
            let descriptor = SpawnDescriptor { program: String::from_str("ipconfig"), args };
            proof {
                assert(descriptor@.args =~= Seq::empty());
            }
            descriptor
        },
        Platform::Linux => {
            args.push(String::from_str("-c"));
            args.push(
                String::from_str(
                    "ip -4 addr show | awk '/inet /{print $2}' | cut -d/ -f1 | grep -v '^127\\.' | head -n 1",
                ),
            );
            let descriptor = SpawnDescriptor { program: String::from_str("bash"), args };
            proof {
                assert(descriptor@.args =~= seq!["-c"@, linux_listing()]);
            }
            descriptor
        },
        Platform::MacOs => {
            args.push(String::from_str("-c"));
            args.push(
                String::from_str(
                    "ifconfig | grep 'flags=' | cut -d: -f1 | xargs -I {} ipconfig getifaddr {} 2>/dev/null",
                ),
            );
            let descriptor = SpawnDescriptor { program: String::from_str("bash"), args };
            proof {
                assert(descriptor@.args =~= seq!["-c"@, macos_listing()]);
            }
            descriptor
        },
    }
}

} // verus!
