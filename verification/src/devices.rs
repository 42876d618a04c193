//! Device records parsed from the tabular output of `adb devices`, and the
//! classification of a device identifier as a USB or a network connection.

use vstd::prelude::*;
use crate::text::{
    split_lines, split_tokens, lines_of, tokens_of, find_newline_from, lemma_find_newline_from,
};

verus! {

/// How a device is connected to the host: over USB, or over the network
/// (wireless debugging).
#[derive(Clone, Copy, Debug, PartialEq, Eq, Structural)]
pub enum DeviceConnectionType {
    Usb,
    Wifi,
}

/// One device reported by `adb devices`: its identifier (a serial number, or
/// `host:port` for a network device), its status text (`device`, `offline`,
/// `unauthorized`, ...), and the derived connection kind.
#[derive(Clone, Debug)]
pub struct Device {
    pub id: String,
    pub status: String,
    pub connection_type: DeviceConnectionType,
}

/// The mathematical content of a [`Device`].
pub struct DeviceModel {
    pub id: Seq<char>,
    pub status: Seq<char>,
    pub connection_type: DeviceConnectionType,
}

impl View for Device {
    type V = DeviceModel;

    open spec fn view(&self) -> DeviceModel {
        DeviceModel { id: self.id@, status: self.status@, connection_type: self.connection_type }
    }
}

/// The multicast-DNS service-type suffix that wireless-debugging devices
/// advertise; an identifier ending in it names a network device.
pub open spec fn mdns_suffix() -> Seq<char> {
    "._adb-tls-connect._tcp"@
}

/// Whether the identifier contains a `:` (the `host:port` form).
pub open spec fn has_colon(id: Seq<char>) -> bool {
    exists|i: int| 0 <= i < id.len() && id[i] == ':'
}

/// Whether the identifier ends with the mDNS service-type suffix.
pub open spec fn has_mdns_suffix(id: Seq<char>) -> bool {
    id.len() >= mdns_suffix().len() && id.skip(id.len() - mdns_suffix().len()) == mdns_suffix()
}

/// A device identifier names a network connection exactly when it contains a
/// `:` or ends with the mDNS service-type suffix; anything else is USB.
pub open spec fn classify_id(id: Seq<char>) -> DeviceConnectionType {
    if has_colon(id) || has_mdns_suffix(id) {
        DeviceConnectionType::Wifi
    } else {
        DeviceConnectionType::Usb
    }
}

/// The record a single output line yields: its first two tokens as identifier
/// and status, or nothing when the line has fewer than two tokens.
pub open spec fn line_device(line: Seq<char>) -> Option<DeviceModel> {
    let ts = split_tokens(line);
    if ts.len() >= 2 {
        Some(
            DeviceModel {
                id: ts[0],
                status: ts[1],
                connection_type: classify_id(ts[0]),
            },
        )
    } else {
        None
    }
}

/// The records of a sequence of lines, in order, skipping the lines that
/// yield none.
pub open spec fn devices_of_lines(ls: Seq<Seq<char>>) -> Seq<DeviceModel>
    decreases ls.len(),
{
    if ls.len() == 0 {
        Seq::empty()
    } else {
        match line_device(ls[0]) {
            Some(d) => seq![d].add(devices_of_lines(ls.drop_first())),
            None => devices_of_lines(ls.drop_first()),
        }
    }
}

/// The records of a whole `adb devices` output: its first line (the header)
/// is discarded unconditionally, and every later line contributes through
/// [`line_device`].
pub open spec fn devices_of_output(out: Seq<char>) -> Seq<DeviceModel> {
    let ls = split_lines(out);
    if ls.len() <= 1 {
        Seq::empty()
    } else {
        devices_of_lines(ls.skip(1))
    }
}

/// The models of a sequence of device records.
pub open spec fn models_of(ds: Seq<Device>) -> Seq<DeviceModel> {
    ds.map_values(|d: Device| d@)
}

/// Decides whether `id` contains a `:`.
fn contains_colon(id: &str) -> (r: bool)
    ensures
        r == has_colon(id@),
{
    let n = id.unicode_len();
    let mut i: usize = 0;
    while i < n
        invariant
            i <= n,
            n == id@.len(),
            forall|j: int| 0 <= j < i ==> id@[j] != ':',
        decreases n - i,
    {
        if id.get_char(i) == ':' {
            return true;
        }
        i = i + 1;
    }
    false
}

/// Decides whether `id` ends with the mDNS service-type suffix.
fn ends_with_mdns_suffix(id: &str) -> (r: bool)
    ensures
        r == has_mdns_suffix(id@),
{
    proof {
        reveal_strlit("._adb-tls-connect._tcp");
    }
    let n = id.unicode_len();
    if n < 22 {
        return false;
    }
    let tail = id.substring_char(n - 22, n).to_owned();
    let suffix = String::from_str("._adb-tls-connect._tcp");
    let r = tail == suffix;
    proof {
        assert(tail@ == id@.skip(id@.len() - mdns_suffix().len()));
    }
    r
}

/// Derives the connection kind of a device identifier, as [`classify_id`]
/// describes.
pub fn classify_identifier(id: &str) -> (r: DeviceConnectionType)
    ensures
        r == classify_id(id@),
{
    if contains_colon(id) {
        DeviceConnectionType::Wifi
    } else if ends_with_mdns_suffix(id) {
        DeviceConnectionType::Wifi
    } else {
        DeviceConnectionType::Usb
    }
}

/// Parses one line of `adb devices` output, as [`line_device`] describes: a
/// line with at least two tokens yields a record, any other line yields none.
pub fn parse_device_line(line: &str) -> (r: Option<Device>)
    ensures
        match r {
            Some(d) => line_device(line@) == Some(d@),
            None => line_device(line@) is None,
        },
{
    let toks = tokens_of(line);
    if toks.len() >= 2 {
        let id = toks[0].clone();
        let status = toks[1].clone();
        let connection_type = classify_identifier(id.as_str());
        Some(Device { id, status, connection_type })
    } else {
        None
    }
}

/// Parses a whole `adb devices` output into device records, as
/// [`devices_of_output`] describes: the header line is discarded, malformed
/// lines are skipped, and the order of the records matches the order of the
/// input lines.
pub fn parse_devices(output: &str) -> (r: Vec<Device>)
    ensures
        models_of(r@) == devices_of_output(output@),
{
    let lines = lines_of(output);
    let ghost lseq = split_lines(output@);
    let mut r: Vec<Device> = Vec::new();
    let mut i: usize = 1;
    proof {
        assert(models_of(r@) =~= Seq::empty());
        if lseq.len() > 1 {
            assert(devices_of_lines(lseq.skip(1)) =~= Seq::empty().add(
                devices_of_lines(lseq.skip(1))));
        }
    }
    while i < lines.len()
        invariant
            1 <= i <= lines.len(),
            lines@.len() == lseq.len(),
            forall|j: int| 0 <= j < lseq.len() ==> (#[trigger] lines@[j])@ == lseq[j],
            lseq.len() > 1 ==> devices_of_lines(lseq.skip(1)) == models_of(r@).add(
                devices_of_lines(lseq.skip(i as int))),
            lseq.len() <= 1 ==> models_of(r@) == Seq::<DeviceModel>::empty(),
        decreases lines.len() - i,
    {
        let ghost r_old = r@;
        let d = parse_device_line(lines[i].as_str());
        proof {
            assert(lseq.skip(i as int)[0] == lseq[i as int]);
            assert(lseq.skip(i as int).drop_first() =~= lseq.skip(i as int + 1));
        }
        match d {
            Some(dev) => {
                r.push(dev);
                proof {
                    assert(models_of(r@) =~= models_of(r_old).push(dev@));
                    assert(devices_of_lines(lseq.skip(i as int)) == seq![dev@].add(
                        devices_of_lines(lseq.skip(i as int + 1))));
                    assert(models_of(r_old).add(devices_of_lines(lseq.skip(i as int)))
                        =~= models_of(r@).add(devices_of_lines(lseq.skip(i as int + 1))));
                }
            },
            None => {
                proof {
                    assert(devices_of_lines(lseq.skip(i as int)) == devices_of_lines(
                        lseq.skip(i as int + 1)));
                }
            },
        }
        i = i + 1;
    }
    proof {
        if lseq.len() > 1 {
            assert(lseq.skip(lines@.len() as int) =~= Seq::empty());
            assert(devices_of_lines(lseq.skip(lines@.len() as int)) =~= Seq::empty());
            assert(models_of(r@).add(Seq::empty()) =~= models_of(r@));
        } else {
            assert(models_of(r@) =~= devices_of_output(output@));
        }
    }
    r
}

/// Law: an identifier that contains a `:` is classified as a network
/// connection.
pub proof fn lemma_colon_is_network(id: Seq<char>)
    requires
        has_colon(id),
    ensures
        classify_id(id) == DeviceConnectionType::Wifi,
{
}

/// Law: an identifier that ends with the mDNS service-type suffix is
/// classified as a network connection.
pub proof fn lemma_mdns_suffix_is_network(id: Seq<char>)
    requires
        has_mdns_suffix(id),
    ensures
        classify_id(id) == DeviceConnectionType::Wifi,
{
}

/// Law: a line that splits into at least two tokens yields exactly one
/// record, whose identifier is the first token, whose status is the second,
/// and whose connection kind is derived from the identifier.
pub proof fn lemma_two_token_line_parses(line: Seq<char>)
    requires
        split_tokens(line).len() >= 2,
    ensures
        line_device(line) == Some(
            DeviceModel {
                id: split_tokens(line)[0],
                status: split_tokens(line)[1],
                connection_type: classify_id(split_tokens(line)[0]),
            },
        ),
{
}

/// Law: a line with fewer than two tokens yields no record.
pub proof fn lemma_short_line_skipped(line: Seq<char>)
    requires
        split_tokens(line).len() < 2,
    ensures
        line_device(line) is None,
{
}

/// Law: removing a line with fewer than two tokens does not change the
/// records of a sequence of lines: such a line is skipped, and parsing
/// continues with the lines around it.
pub proof fn lemma_skipped_line_removed(ls: Seq<Seq<char>>, i: int)
    requires
        0 <= i < ls.len(),
        split_tokens(ls[i]).len() < 2,
    ensures
        devices_of_lines(ls) == devices_of_lines(ls.remove(i)),
    decreases ls.len(),
{
    if i == 0 {
        assert(line_device(ls[0]) is None);
        assert(ls.remove(0) =~= ls.drop_first());
    } else {
        lemma_skipped_line_removed(ls.drop_first(), i - 1);
        assert(ls.remove(i).drop_first() =~= ls.drop_first().remove(i - 1));
        assert(ls.remove(i)[0] == ls[0]);
        match line_device(ls[0]) {
            Some(d) => {
                assert(devices_of_lines(ls) == seq![d].add(devices_of_lines(ls.drop_first())));
                assert(devices_of_lines(ls.remove(i)) == seq![d].add(
                    devices_of_lines(ls.remove(i).drop_first())));
            },
            None => {},
        }
    }
}

/// Law: an output without a newline is a single line, the header, and yields
/// no records; in particular an empty output yields none.
pub proof fn lemma_header_only_output_empty(out: Seq<char>)
    requires
        forall|i: int| 0 <= i < out.len() ==> out[i] != '\n',
    ensures
        devices_of_output(out) == Seq::<DeviceModel>::empty(),
{
    lemma_find_newline_from(out, 0);
    if find_newline_from(out, 0) != -1 {
        assert(out[find_newline_from(out, 0)] == '\n');
    }
    assert(split_lines(out) == seq![out]);
}

/// Lines that all have fewer than two tokens yield no records.
proof fn lemma_all_short_lines_no_records(ls: Seq<Seq<char>>)
    requires
        forall|i: int| 0 <= i < ls.len() ==> split_tokens(#[trigger] ls[i]).len() < 2,
    ensures
        devices_of_lines(ls) == Seq::<DeviceModel>::empty(),
    decreases ls.len(),
{
    if ls.len() > 0 {
        assert(forall|i: int| 0 <= i < ls.drop_first().len() ==> split_tokens(
            #[trigger] ls.drop_first()[i]).len() < 2);
        lemma_all_short_lines_no_records(ls.drop_first());
    }
}

/// Law: an output with no device line — the header alone, nothing at all, or
/// the header followed only by lines of fewer than two tokens — yields no
/// records.
pub proof fn lemma_no_device_line_output_empty(out: Seq<char>)
    requires
        forall|i: int| 1 <= i < split_lines(out).len() ==> split_tokens(
            #[trigger] split_lines(out)[i]).len() < 2,
    ensures
        devices_of_output(out) == Seq::<DeviceModel>::empty(),
{
    let ls = split_lines(out);
    if ls.len() > 1 {
        assert(forall|i: int| 0 <= i < ls.skip(1).len() ==> split_tokens(
            #[trigger] ls.skip(1)[i]).len() < 2);
        lemma_all_short_lines_no_records(ls.skip(1));
    }
}

} // verus!
