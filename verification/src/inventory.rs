//! Reading the host inventory out of the text that the platform utilities
//! print: `Key=value` lists, one entry per line.
//!
//! Every reader is total. Where the text holds nothing that matches, or a
//! listing could not be had, the field falls back to a sentinel value; no
//! reader fails.

use vstd::prelude::*;
use vstd::string::StringExecFns;
use crate::system_info::{
    views, DriveInfo, DriveInfoView, Monitor, MonitorView, NetworkInfo, NetworkInfoView,
    PciDevice, PciDeviceView, ProcessorInfo, ProcessorInfoView, UsbDevice, UsbDeviceView,
    VideoCard, VideoCardView,
};
use crate::text::{
    after, before, begins_with, chars_of, code_after, code_after_marker, contains, holds, lines,
    lines_of, lowercase, optional, parse_u64, parse_unsigned, rows, same_text, second_field,
    second_field_of, starts_with, string_of, strip_all, text_after, text_before, to_lowercase,
    trim, trimmed, without,
};

verus! {

/// What `pick` takes from the first line that it takes anything from.
pub open spec fn first_pick<T>(
    lines: Seq<Seq<char>>,
    pick: spec_fn(Seq<char>) -> Option<T>,
) -> Option<T>
    decreases lines.len(),
{
    if lines.len() == 0 {
        None
    } else {
        match pick(lines[0]) {
            Some(found) => Some(found),
            None => first_pick(lines.drop_first(), pick),
        }
    }
}

/// What `pick` takes from the last line that it takes anything from.
pub open spec fn last_pick<T>(
    lines: Seq<Seq<char>>,
    pick: spec_fn(Seq<char>) -> Option<T>,
) -> Option<T>
    decreases lines.len(),
{
    if lines.len() == 0 {
        None
    } else {
        match pick(lines.last()) {
            Some(found) => Some(found),
            None => last_pick(lines.drop_last(), pick),
        }
    }
}

/// What `pick` takes from the lines, in order.
pub open spec fn picks<T>(lines: Seq<Seq<char>>, pick: spec_fn(Seq<char>) -> Option<T>) -> Seq<T>
    decreases lines.len(),
{
    if lines.len() == 0 {
        Seq::empty()
    } else {
        match pick(lines.last()) {
            Some(found) => picks(lines.drop_last(), pick).push(found),
            None => picks(lines.drop_last(), pick),
        }
    }
}

/// The value of a `Key=value` line: what stands between the first equals
/// sign and the second, or `default` where the line holds no equals sign.
pub open spec fn value_or(line: Seq<char>, default: Seq<char>) -> Seq<char> {
    match second_field(line, '=') {
        Some(value) => value,
        None => default,
    }
}

/// The value of `line` where it begins with `key`.
pub open spec fn keyed_value(line: Seq<char>, key: Seq<char>, default: Seq<char>) -> Option<
    Seq<char>,
> {
    if starts_with(line, key) {
        Some(value_or(line, default))
    } else {
        None
    }
}

/// Takes the value of each line that begins with `key`.
pub open spec fn keyed(key: Seq<char>, default: Seq<char>) -> spec_fn(Seq<char>) -> Option<
    Seq<char>,
> {
    |line: Seq<char>| keyed_value(line, key, default)
}

/// `text`, or the empty text where there is none.
pub open spec fn or_empty(text: Option<Seq<char>>) -> Seq<char> {
    match text {
        Some(found) => found,
        None => Seq::empty(),
    }
}

fn value_of(line: &Vec<char>, default: &str) -> (value: Vec<char>)
    ensures
        value@ == value_or(line@, default@),
{
    match second_field_of(line, '=') {
        Some(value) => value,
        None => chars_of(default),
    }
}

fn last_value(lines: &Vec<Vec<char>>, key: &str, default: &str) -> (found: Option<Vec<char>>)
    ensures
        optional(found) == last_pick(rows(lines@), keyed(key@, default@)),
{
    let key_chars = chars_of(key);
    let mut found: Option<Vec<char>> = None;
    let mut i: usize = 0;
    while i < lines.len()
        invariant
            i <= lines.len(),
            key_chars@ == key@,
            optional(found) == last_pick(rows(lines@).take(i as int), keyed(key@, default@)),
        decreases lines.len() - i,
    {
        let ghost upto = rows(lines@).take(i + 1);
        assert(upto.last() == lines@[i as int]@);
        assert(upto.drop_last() =~= rows(lines@).take(i as int));
        if begins_with(&lines[i], &key_chars) {
            found = Some(value_of(&lines[i], default));
        }
        i += 1;
    }
    assert(rows(lines@).take(lines.len() as int) =~= rows(lines@));
    found
}

fn first_value(lines: &Vec<Vec<char>>, key: &str, default: &str) -> (found: Option<Vec<char>>)
    ensures
        optional(found) == first_pick(rows(lines@), keyed(key@, default@)),
{
    let key_chars = chars_of(key);
    let mut i: usize = 0;
    assert(rows(lines@).skip(0) =~= rows(lines@));
    while i < lines.len()
        invariant
            i <= lines.len(),
            key_chars@ == key@,
            first_pick(rows(lines@), keyed(key@, default@)) == first_pick(
                rows(lines@).skip(i as int),
                keyed(key@, default@),
            ),
        decreases lines.len() - i,
    {
        let ghost rest = rows(lines@).skip(i as int);
        assert(rest[0] == lines@[i as int]@);
        assert(rest.drop_first() =~= rows(lines@).skip(i + 1));
        if begins_with(&lines[i], &key_chars) {
            return Some(value_of(&lines[i], default));
        }
        i += 1;
    }
    None
}

/// The drive that a line of the disk listing names: the trimmed serial
/// number, where the line gives one that is neither empty nor `(null)`.
pub open spec fn drive_of(line: Seq<char>) -> Option<DriveInfoView> {
    if starts_with(line, "SerialNumber="@) && trim(value_or(line, ""@)).len() > 0 && trim(
        value_or(line, ""@),
    ) != "(null)"@ {
        Some(DriveInfoView { serial: trim(value_or(line, ""@)) })
    } else {
        None
    }
}

/// Takes the drive of each line that names one.
pub open spec fn drive_picker() -> spec_fn(Seq<char>) -> Option<DriveInfoView> {
    |line: Seq<char>| drive_of(line)
}

/// The drives that the disk listing names, or one drive of unknown serial
/// where it names none.
pub open spec fn drives_in(text: Seq<char>) -> Seq<DriveInfoView> {
    if picks(lines(text), drive_picker()).len() == 0 {
        seq![DriveInfoView { serial: "Unknown"@ }]
    } else {
        picks(lines(text), drive_picker())
    }
}

/// Reads the serial numbers of the physical drives.
pub fn get_drive_info(output: &str) -> (drives: Vec<DriveInfo>)
    ensures
        views(drives@) == drives_in(output@),
{
    let text = chars_of(output);
    let lines = lines_of(&text);
    let key = chars_of("SerialNumber=");
    let null = chars_of("(null)");
    let mut drives: Vec<DriveInfo> = Vec::new();
    let mut i: usize = 0;
    assert(views(drives@) =~= picks(rows(lines@).take(0), drive_picker()));
    while i < lines.len()
        invariant
            i <= lines.len(),
            key@ == "SerialNumber="@,
            null@ == "(null)"@,
            views(drives@) == picks(rows(lines@).take(i as int), drive_picker()),
        decreases lines.len() - i,
    {
        let ghost upto = rows(lines@).take(i + 1);
        assert(upto.last() == lines@[i as int]@);
        assert(upto.drop_last() =~= rows(lines@).take(i as int));
        if begins_with(&lines[i], &key) {
            let serial = trimmed(&value_of(&lines[i], ""));
            if serial.len() > 0 && !same_text(&serial, &null) {
                let ghost before = views(drives@);
                drives.push(DriveInfo { serial: string_of(&serial) });
                assert(views(drives@) =~= before.push(DriveInfoView { serial: serial@ }));
            }
        }
        i += 1;
    }
    assert(rows(lines@).take(lines.len() as int) =~= rows(lines@));
    if drives.len() == 0 {
        drives.push(DriveInfo { serial: String::from_str("Unknown") });
        assert(views(drives@) =~= seq![DriveInfoView { serial: "Unknown"@ }]);
    }
    drives
}

/// `text`, or `default` where `text` is empty.
pub open spec fn or_default(text: Seq<char>, default: Seq<char>) -> Seq<char> {
    if text.len() == 0 {
        default
    } else {
        text
    }
}

fn text_or(found: Option<Vec<char>>, default: &str) -> (text: String)
    ensures
        text@ == or_default(or_empty(optional(found)), default@),
{
    match found {
        Some(chars) => if chars.len() == 0 {
            String::from_str(default)
        } else {
            string_of(&chars)
        },
        None => String::from_str(default),
    }
}

/// The version of the operating system: the value of the last `Version=`
/// line, or `Unknown`.
pub open spec fn os_version_in(text: Seq<char>) -> Seq<char> {
    or_default(or_empty(last_pick(lines(text), keyed("Version="@, ""@))), "Unknown"@)
}

/// The caption of the operating system: the value of the last `Caption=`
/// line, or `Unknown Windows`.
pub open spec fn os_caption_in(text: Seq<char>) -> Seq<char> {
    or_default(or_empty(last_pick(lines(text), keyed("Caption="@, ""@))), "Unknown Windows"@)
}

/// Reads the version and the caption of the operating system.
pub fn get_os_info(output: &str) -> (os: (String, String))
    ensures
        os.0@ == os_version_in(output@),
        os.1@ == os_caption_in(output@),
{
    let text = chars_of(output);
    let lines = lines_of(&text);
    let version = text_or(last_value(&lines, "Version=", ""), "Unknown");
    let caption = text_or(last_value(&lines, "Caption=", ""), "Unknown Windows");
    (version, caption)
}

/// The hardware description: manufacturer, model and BIOS serial number,
/// each empty where the listings do not give it, with a space between.
pub open spec fn physical_model_in(computer_system: Seq<char>, bios: Seq<char>) -> Seq<char> {
    or_empty(last_pick(lines(computer_system), keyed("Manufacturer="@, ""@))) + " "@ + or_empty(
        last_pick(lines(computer_system), keyed("Model="@, ""@)),
    ) + " "@ + or_empty(first_pick(lines(bios), keyed("SerialNumber="@, ""@)))
}

fn append_found(out: &mut String, found: Option<Vec<char>>)
    ensures
        final(out)@ == old(out)@ + or_empty(optional(found)),
{
    match found {
        Some(chars) => {
            let text = string_of(&chars);
            out.append(text.as_str());
        },
        None => {
            assert(out@ =~= out@ + Seq::<char>::empty());
        },
    }
}

/// Reads manufacturer, model and BIOS serial number into one description.
pub fn get_physical_hardware_info(computer_system: &str, bios: &str) -> (model: String)
    ensures
        model@ == physical_model_in(computer_system@, bios@),
{
    let system_lines = lines_of(&chars_of(computer_system));
    let bios_lines = lines_of(&chars_of(bios));
    let mut model = String::new();
    append_found(&mut model, last_value(&system_lines, "Manufacturer=", ""));
    assert(model@ =~= or_empty(
        last_pick(lines(computer_system@), keyed("Manufacturer="@, ""@)),
    ));
    model.append(" ");
    append_found(&mut model, last_value(&system_lines, "Model=", ""));
    model.append(" ");
    append_found(&mut model, first_value(&bios_lines, "SerialNumber=", ""));
    model
}

/// The number that a line gives under `key`, where it is a numeral of at
/// most `max`.
pub open spec fn number_of(line: Seq<char>, key: Seq<char>, default: Seq<char>, max: nat) -> Option<
    nat,
> {
    if starts_with(line, key) {
        parse_unsigned(value_or(line, default), max)
    } else {
        None
    }
}

/// Takes the number of each line that gives one under `key`.
pub open spec fn numbered(key: Seq<char>, default: Seq<char>, max: nat) -> spec_fn(
    Seq<char>,
) -> Option<nat> {
    |line: Seq<char>| number_of(line, key, default, max)
}

fn first_number(lines: &Vec<Vec<char>>, key: &str, default: &str, max: u64) -> (found: Option<u64>)
    ensures
        match found {
            Some(number) => first_pick(rows(lines@), numbered(key@, default@, max as nat))
                == Some(number as nat),
            None => first_pick(rows(lines@), numbered(key@, default@, max as nat)).is_none(),
        },
{
    let key_chars = chars_of(key);
    let mut i: usize = 0;
    assert(rows(lines@).skip(0) =~= rows(lines@));
    while i < lines.len()
        invariant
            i <= lines.len(),
            key_chars@ == key@,
            first_pick(rows(lines@), numbered(key@, default@, max as nat)) == first_pick(
                rows(lines@).skip(i as int),
                numbered(key@, default@, max as nat),
            ),
        decreases lines.len() - i,
    {
        let ghost rest = rows(lines@).skip(i as int);
        assert(rest[0] == lines@[i as int]@);
        assert(rest.drop_first() =~= rows(lines@).skip(i + 1));
        if begins_with(&lines[i], &key_chars) {
            match parse_u64(&value_of(&lines[i], default)) {
                Some(number) => if number <= max {
                    return Some(number);
                },
                None => {},
            }
        }
        i += 1;
    }
    None
}

/// The processor that the listings describe: the value of the last `Name=`
/// line of the first, and the first numeral under
/// `NumberOfLogicalProcessors=` in the second; an empty model and no cores
/// where they give none.
pub open spec fn processor_in(cpu: Seq<char>, cores: Seq<char>) -> ProcessorInfoView {
    ProcessorInfoView {
        cpu_model: or_empty(last_pick(lines(cpu), keyed("Name="@, ""@))),
        cpu_cores: match first_pick(
            lines(cores),
            numbered("NumberOfLogicalProcessors="@, "0"@, u32::MAX as nat),
        ) {
            Some(count) => count as u32,
            None => 0,
        },
    }
}

/// Reads the processor's model name and its number of logical cores.
pub fn get_processor_info(cpu: &str, cores: &str) -> (processor: ProcessorInfo)
    ensures
        processor@ == processor_in(cpu@, cores@),
{
    let cpu_lines = lines_of(&chars_of(cpu));
    let core_lines = lines_of(&chars_of(cores));
    let mut cpu_model = String::new();
    append_found(&mut cpu_model, last_value(&cpu_lines, "Name=", ""));
    assert(cpu_model@ =~= or_empty(last_pick(lines(cpu@), keyed("Name="@, ""@))));
    let cpu_cores: u32 = match first_number(
        &core_lines,
        "NumberOfLogicalProcessors=",
        "0",
        0xFFFF_FFFF,
    ) {
        Some(count) => count as u32,
        None => 0,
    };
    ProcessorInfo { cpu_model, cpu_cores }
}

/// The memory size that stands where nothing reports one, in megabytes.
pub const DEFAULT_MEMORY_MB: u64 = 16004;

/// What a text or a failure is, as plain values.
pub open spec fn outcome(output: Result<String, String>) -> Result<Seq<char>, Seq<char>> {
    match output {
        Ok(text) => Ok(text@),
        Err(message) => Err(message@),
    }
}

/// The memory size in megabytes that the first listing reports: the first
/// numeral of bytes under `TotalPhysicalMemory=`, in whole megabytes.
pub open spec fn reported_memory_mb(text: Seq<char>) -> Option<nat> {
    match first_pick(lines(text), numbered("TotalPhysicalMemory="@, "0"@, u64::MAX as nat)) {
        Some(bytes) => Some(bytes / 1024 / 1024),
        None => None,
    }
}

/// The memory size that a line of the system summary gives: the numeral
/// after the colon of a `Total Physical Memory:` line, without its commas
/// and its unit.
pub open spec fn summary_memory_of(line: Seq<char>) -> Option<nat> {
    if contains(line, "Total Physical Memory:"@) {
        match second_field(line, ':') {
            Some(part) => parse_unsigned(
                without(without(trim(part), ","@), " MB"@),
                u64::MAX as nat,
            ),
            None => None,
        }
    } else {
        None
    }
}

/// Takes the memory size of each line of the system summary that gives one.
pub open spec fn summary_memory_picker() -> spec_fn(Seq<char>) -> Option<nat> {
    |line: Seq<char>| summary_memory_of(line)
}

/// The memory size in megabytes: what the first listing reports; else what
/// the system summary gives; the default where neither gives one, or where
/// the summary was needed and could not be had.
pub open spec fn memory_in(text: Seq<char>, summary: Result<Seq<char>, Seq<char>>) -> nat {
    match reported_memory_mb(text) {
        Some(megabytes) => megabytes,
        None => match summary {
            Ok(summary_text) => match first_pick(lines(summary_text), summary_memory_picker()) {
                Some(megabytes) => megabytes,
                None => DEFAULT_MEMORY_MB as nat,
            },
            Err(_) => DEFAULT_MEMORY_MB as nat,
        },
    }
}

fn summary_memory(lines: &Vec<Vec<char>>) -> (found: Option<u64>)
    ensures
        match found {
            Some(number) => first_pick(rows(lines@), summary_memory_picker()) == Some(
                number as nat,
            ),
            None => first_pick(rows(lines@), summary_memory_picker()).is_none(),
        },
{
    let key = chars_of("Total Physical Memory:");
    let comma = chars_of(",");
    let unit = chars_of(" MB");
    let mut i: usize = 0;
    assert(rows(lines@).skip(0) =~= rows(lines@));
    while i < lines.len()
        invariant
            i <= lines.len(),
            key@ == "Total Physical Memory:"@,
            comma@ == ","@,
            unit@ == " MB"@,
            first_pick(rows(lines@), summary_memory_picker()) == first_pick(
                rows(lines@).skip(i as int),
                summary_memory_picker(),
            ),
        decreases lines.len() - i,
    {
        let ghost rest = rows(lines@).skip(i as int);
        assert(rest[0] == lines@[i as int]@);
        assert(rest.drop_first() =~= rows(lines@).skip(i + 1));
        if holds(&lines[i], &key) {
            match second_field_of(&lines[i], ':') {
                Some(part) => {
                    let digits = strip_all(&strip_all(&trimmed(&part), &comma), &unit);
                    match parse_u64(&digits) {
                        Some(number) => {
                            return Some(number);
                        },
                        None => {},
                    }
                },
                None => {},
            }
        }
        i += 1;
    }
    None
}

/// Whether the system summary has to be had for the memory size: the first
/// listing does not report one.
pub fn needs_system_summary(output: &str) -> (needed: bool)
    ensures
        needed == reported_memory_mb(output@).is_none(),
        !needed ==> forall|summary: Result<Seq<char>, Seq<char>>|
            #[trigger] memory_in(output@, summary) == reported_memory_mb(output@).unwrap(),
{
    let listed = lines_of(&chars_of(output));
    first_number(&listed, "TotalPhysicalMemory=", "0", u64::MAX).is_none()
}

/// Reads the size of the physical memory in megabytes. A summary that was
/// needed and could not be had leaves the default.
pub fn get_memory_info(output: &str, summary: &Result<String, String>) -> (megabytes: u64)
    ensures
        megabytes == memory_in(output@, outcome(*summary)),
{
    let listed = lines_of(&chars_of(output));
    match first_number(&listed, "TotalPhysicalMemory=", "0", u64::MAX) {
        Some(bytes) => bytes / 1024 / 1024,
        None => match summary {
            Ok(summary_text) => {
                let summary_lines = lines_of(&chars_of(summary_text.as_str()));
                match summary_memory(&summary_lines) {
                    Some(megabytes) => megabytes,
                    None => DEFAULT_MEMORY_MB,
                }
            },
            Err(_) => DEFAULT_MEMORY_MB,
        },
    }
}

/// The machine id that a line gives: the trimmed value of a `UUID=` line,
/// where it is neither empty nor `(null)`.
pub open spec fn uuid_of(line: Seq<char>) -> Option<Seq<char>> {
    if starts_with(line, "UUID="@) && trim(value_or(line, ""@)).len() > 0 && trim(
        value_or(line, ""@),
    ) != "(null)"@ {
        Some(trim(value_or(line, ""@)))
    } else {
        None
    }
}

/// Takes the machine id of each line that gives one.
pub open spec fn uuid_picker() -> spec_fn(Seq<char>) -> Option<Seq<char>> {
    |line: Seq<char>| uuid_of(line)
}

/// The machine signature: the first machine id in braces, or a placeholder
/// where the listing gives none.
pub open spec fn machine_signature_in(text: Seq<char>) -> Seq<char> {
    match first_pick(lines(text), uuid_picker()) {
        Some(uuid) => "{"@ + uuid + "}"@,
        None => "{Unknown-Machine-ID}"@,
    }
}

/// Reads the machine signature.
pub fn get_machine_signature(output: &str) -> (signature: String)
    ensures
        signature@ == machine_signature_in(output@),
{
    let listed = lines_of(&chars_of(output));
    let key = chars_of("UUID=");
    let null = chars_of("(null)");
    let mut i: usize = 0;
    assert(rows(listed@).skip(0) =~= rows(listed@));
    while i < listed.len()
        invariant
            i <= listed.len(),
            key@ == "UUID="@,
            null@ == "(null)"@,
            rows(listed@) == lines(output@),
            first_pick(rows(listed@), uuid_picker()) == first_pick(
                rows(listed@).skip(i as int),
                uuid_picker(),
            ),
        decreases listed.len() - i,
    {
        let ghost rest = rows(listed@).skip(i as int);
        assert(rest[0] == listed@[i as int]@);
        assert(rest.drop_first() =~= rows(listed@).skip(i + 1));
        if begins_with(&listed[i], &key) {
            let uuid = trimmed(&value_of(&listed[i], ""));
            if uuid.len() > 0 && !same_text(&uuid, &null) {
                let mut signature = String::from_str("{");
                signature.append(string_of(&uuid).as_str());
                signature.append("}");
                return signature;
            }
        }
        i += 1;
    }
    String::from_str("{Unknown-Machine-ID}")
}

/// The current user: the trimmed text, or a placeholder where it is empty.
pub open spec fn user_in(text: Seq<char>) -> Seq<char> {
    or_default(trim(text), "Unknown@UNKNOWN"@)
}

/// Reads the name of the current user.
pub fn get_user_info(output: &str) -> (user: String)
    ensures
        user@ == user_in(output@),
{
    text_or(Some(trimmed(&chars_of(output))), "Unknown@UNKNOWN")
}

/// The local address that a line gives: the trimmed text after the colon of
/// an `IPv4 Address` line, unless it is a loopback or link-local address.
pub open spec fn local_ip_of(line: Seq<char>) -> Option<Seq<char>> {
    if contains(line, "IPv4 Address"@) {
        match second_field(line, ':') {
            Some(part) => if !starts_with(trim(part), "127."@) && !starts_with(
                trim(part),
                "169.254."@,
            ) {
                Some(trim(part))
            } else {
                None
            },
            None => None,
        }
    } else {
        None
    }
}

/// Takes the local address of each line that gives one.
pub open spec fn local_ip_picker() -> spec_fn(Seq<char>) -> Option<Seq<char>> {
    |line: Seq<char>| local_ip_of(line)
}

/// The public address that a line of the resolver's answer gives: the
/// trimmed text after the colon of an `Address:` line without a `#`.
pub open spec fn public_ip_of(line: Seq<char>) -> Option<Seq<char>> {
    if starts_with(line, "Address:"@) && !contains(line, "#"@) {
        match second_field(line, ':') {
            Some(part) => Some(trim(part)),
            None => None,
        }
    } else {
        None
    }
}

/// Takes the public address of each line that gives one.
pub open spec fn public_ip_picker() -> spec_fn(Seq<char>) -> Option<Seq<char>> {
    |line: Seq<char>| public_ip_of(line)
}

/// The addresses of the host: the first local address of the interface
/// listing and the first address of the resolver's answer, each `Unknown`
/// where none is found or the resolver could not be asked.
pub open spec fn network_in(
    interfaces: Seq<char>,
    resolver: Result<Seq<char>, Seq<char>>,
) -> NetworkInfoView {
    NetworkInfoView {
        local_ip: match first_pick(lines(interfaces), local_ip_picker()) {
            Some(ip) => ip,
            None => "Unknown"@,
        },
        public_ip: match resolver {
            Ok(answer) => match first_pick(lines(answer), public_ip_picker()) {
                Some(ip) => ip,
                None => "Unknown"@,
            },
            Err(_) => "Unknown"@,
        },
    }
}

fn local_ip(lines: &Vec<Vec<char>>) -> (found: Option<Vec<char>>)
    ensures
        optional(found) == first_pick(rows(lines@), local_ip_picker()),
{
    let key = chars_of("IPv4 Address");
    let loopback = chars_of("127.");
    let link_local = chars_of("169.254.");
    let mut i: usize = 0;
    assert(rows(lines@).skip(0) =~= rows(lines@));
    while i < lines.len()
        invariant
            i <= lines.len(),
            key@ == "IPv4 Address"@,
            loopback@ == "127."@,
            link_local@ == "169.254."@,
            first_pick(rows(lines@), local_ip_picker()) == first_pick(
                rows(lines@).skip(i as int),
                local_ip_picker(),
            ),
        decreases lines.len() - i,
    {
        let ghost rest = rows(lines@).skip(i as int);
        assert(rest[0] == lines@[i as int]@);
        assert(rest.drop_first() =~= rows(lines@).skip(i + 1));
        if holds(&lines[i], &key) {
            match second_field_of(&lines[i], ':') {
                Some(part) => {
                    let ip = trimmed(&part);
                    if !begins_with(&ip, &loopback) && !begins_with(&ip, &link_local) {
                        return Some(ip);
                    }
                },
                None => {},
            }
        }
        i += 1;
    }
    None
}

fn public_ip(lines: &Vec<Vec<char>>) -> (found: Option<Vec<char>>)
    ensures
        optional(found) == first_pick(rows(lines@), public_ip_picker()),
{
    let key = chars_of("Address:");
    let hash = chars_of("#");
    let mut i: usize = 0;
    assert(rows(lines@).skip(0) =~= rows(lines@));
    while i < lines.len()
        invariant
            i <= lines.len(),
            key@ == "Address:"@,
            hash@ == "#"@,
            first_pick(rows(lines@), public_ip_picker()) == first_pick(
                rows(lines@).skip(i as int),
                public_ip_picker(),
            ),
        decreases lines.len() - i,
    {
        let ghost rest = rows(lines@).skip(i as int);
        assert(rest[0] == lines@[i as int]@);
        assert(rest.drop_first() =~= rows(lines@).skip(i + 1));
        if begins_with(&lines[i], &key) && !holds(&lines[i], &hash) {
            match second_field_of(&lines[i], ':') {
                Some(part) => {
                    return Some(trimmed(&part));
                },
                None => {},
            }
        }
        i += 1;
    }
    None
}

fn found_or(found: Option<Vec<char>>, default: &str) -> (text: String)
    ensures
        text@ == match optional(found) {
            Some(chars) => chars,
            None => default@,
        },
{
    match found {
        Some(chars) => string_of(&chars),
        None => String::from_str(default),
    }
}

/// Reads the local and the public address of the host.
pub fn get_network_info(interfaces: &str, resolver: &Result<String, String>) -> (network:
    NetworkInfo)
    ensures
        network@ == network_in(interfaces@, outcome(*resolver)),
{
    let interface_lines = lines_of(&chars_of(interfaces));
    let local = found_or(local_ip(&interface_lines), "Unknown");
    let public = match resolver {
        Ok(answer) => {
            let answer_lines = lines_of(&chars_of(answer.as_str()));
            found_or(public_ip(&answer_lines), "Unknown")
        },
        Err(_) => String::from_str("Unknown"),
    };
    NetworkInfo { local_ip: local, public_ip: public }
}

/// How far a reading of the video controller listing has come: the cards
/// found, and the name and driver version read since the last of them.
pub struct CardScan {
    pub cards: Seq<VideoCardView>,
    pub name: Seq<char>,
    pub driver_version: Seq<char>,
}

/// The reading after one more line. A `Name=` line sets the name. A
/// `DriverVersion=` line completes a card where a name was read before it,
/// and is kept for the card to come where none was.
pub open spec fn card_step(scan: CardScan, line: Seq<char>) -> CardScan {
    if starts_with(line, "DriverVersion="@) {
        if scan.name.len() > 0 {
            CardScan {
                cards: scan.cards.push(
                    VideoCardView { name: scan.name, driver_version: value_or(line, ""@) },
                ),
                name: Seq::empty(),
                driver_version: Seq::empty(),
            }
        } else {
            CardScan { driver_version: value_or(line, ""@), ..scan }
        }
    } else if starts_with(line, "Name="@) {
        CardScan { name: value_or(line, ""@), ..scan }
    } else {
        scan
    }
}

/// The reading after all of `lines`.
pub open spec fn card_scan(lines: Seq<Seq<char>>) -> CardScan
    decreases lines.len(),
{
    if lines.len() == 0 {
        CardScan { cards: Seq::empty(), name: Seq::empty(), driver_version: Seq::empty() }
    } else {
        card_step(card_scan(lines.drop_last()), lines.last())
    }
}

/// The video cards of the listing: those completed by a driver version,
/// and the one named last where no driver version followed its name.
pub open spec fn video_cards_in(text: Seq<char>) -> Seq<VideoCardView> {
    if card_scan(lines(text)).name.len() > 0 {
        card_scan(lines(text)).cards.push(
            VideoCardView {
                name: card_scan(lines(text)).name,
                driver_version: card_scan(lines(text)).driver_version,
            },
        )
    } else {
        card_scan(lines(text)).cards
    }
}

/// Reads the video cards and the versions of their drivers.
pub fn get_video_cards(output: &str) -> (cards: Vec<VideoCard>)
    ensures
        views(cards@) == video_cards_in(output@),
{
    let listed = lines_of(&chars_of(output));
    let driver_key = chars_of("DriverVersion=");
    let name_key = chars_of("Name=");
    let mut cards: Vec<VideoCard> = Vec::new();
    let mut name: Vec<char> = Vec::new();
    let mut driver_version: Vec<char> = Vec::new();
    let mut i: usize = 0;
    assert(views(cards@) =~= Seq::<VideoCardView>::empty());
    assert(rows(listed@).take(0) =~= Seq::<Seq<char>>::empty());
    while i < listed.len()
        invariant
            i <= listed.len(),
            driver_key@ == "DriverVersion="@,
            name_key@ == "Name="@,
            card_scan(rows(listed@).take(i as int)) == (CardScan {
                cards: views(cards@),
                name: name@,
                driver_version: driver_version@,
            }),
        decreases listed.len() - i,
    {
        let ghost upto = rows(listed@).take(i + 1);
        assert(upto.last() == listed@[i as int]@);
        assert(upto.drop_last() =~= rows(listed@).take(i as int));
        if begins_with(&listed[i], &driver_key) {
            let version = value_of(&listed[i], "");
            if name.len() > 0 {
                let ghost before = views(cards@);
                cards.push(VideoCard { name: string_of(&name), driver_version: string_of(&version) });
                assert(views(cards@) =~= before.push(
                    VideoCardView { name: name@, driver_version: version@ },
                ));
                name = Vec::new();
                driver_version = Vec::new();
            } else {
                driver_version = version;
            }
        } else if begins_with(&listed[i], &name_key) {
            name = value_of(&listed[i], "");
        }
        i += 1;
    }
    assert(rows(listed@).take(listed.len() as int) =~= rows(listed@));
    if name.len() > 0 {
        let ghost before = views(cards@);
        cards.push(VideoCard { name: string_of(&name), driver_version: string_of(&driver_version) });
        assert(views(cards@) =~= before.push(
            VideoCardView { name: name@, driver_version: driver_version@ },
        ));
    }
    cards
}

/// The value of `line` where it begins with `key` and the value is not
/// empty.
pub open spec fn filled_value(line: Seq<char>, key: Seq<char>, default: Seq<char>) -> Option<
    Seq<char>,
> {
    if starts_with(line, key) && value_or(line, default).len() > 0 {
        Some(value_or(line, default))
    } else {
        None
    }
}

/// Takes the value of each line that begins with `key` and has one.
pub open spec fn filled(key: Seq<char>, default: Seq<char>) -> spec_fn(Seq<char>) -> Option<
    Seq<char>,
> {
    |line: Seq<char>| filled_value(line, key, default)
}

fn filled_values(listed: &Vec<Vec<char>>, key: &str, default: &str) -> (values: Vec<Vec<char>>)
    ensures
        rows(values@) == picks(rows(listed@), filled(key@, default@)),
{
    let key_chars = chars_of(key);
    let mut values: Vec<Vec<char>> = Vec::new();
    let mut i: usize = 0;
    assert(rows(values@) =~= Seq::<Seq<char>>::empty());
    assert(rows(listed@).take(0) =~= Seq::<Seq<char>>::empty());
    while i < listed.len()
        invariant
            i <= listed.len(),
            key_chars@ == key@,
            rows(values@) == picks(rows(listed@).take(i as int), filled(key@, default@)),
        decreases listed.len() - i,
    {
        let ghost upto = rows(listed@).take(i + 1);
        assert(upto.last() == listed@[i as int]@);
        assert(upto.drop_last() =~= rows(listed@).take(i as int));
        if begins_with(&listed[i], &key_chars) {
            let value = value_of(&listed[i], default);
            if value.len() > 0 {
                let ghost before = rows(values@);
                values.push(value);
                assert(rows(values@) =~= before.push(value@));
            }
        }
        i += 1;
    }
    assert(rows(listed@).take(listed.len() as int) =~= rows(listed@));
    values
}

/// The monitors named `names`, the first of them with the serial numbers
/// `serials` in order, the others with an unknown serial number.
pub open spec fn monitors_named(names: Seq<Seq<char>>, serials: Seq<Seq<char>>) -> Seq<
    MonitorView,
> {
    Seq::new(
        names.len(),
        |k: int|
            MonitorView {
                name: names[k],
                serial: if k < serials.len() {
                    serials[k]
                } else {
                    "Unknown"@
                },
            },
    )
}

/// The monitors of the listing: one for each `Name=` line with a value,
/// with the values of the `SerialNumberID=` lines of the second listing as
/// their serial numbers, in order; one primary display of unknown serial
/// number where the listing names none. A second listing that could not be
/// had gives no serial numbers.
pub open spec fn monitors_in(text: Seq<char>, serials: Result<Seq<char>, Seq<char>>) -> Seq<
    MonitorView,
> {
    if picks(lines(text), filled("Name="@, "Unknown Monitor"@)).len() == 0 {
        seq![MonitorView { name: "Primary Display"@, serial: "Unknown"@ }]
    } else {
        monitors_named(
            picks(lines(text), filled("Name="@, "Unknown Monitor"@)),
            match serials {
                Ok(listing) => picks(lines(listing), filled("SerialNumberID="@, ""@)),
                Err(_) => Seq::empty(),
            },
        )
    }
}

/// Reads the monitors and their serial numbers.
pub fn get_monitors(output: &str, serials: &Result<String, String>) -> (monitors: Vec<Monitor>)
    ensures
        views(monitors@) == monitors_in(output@, outcome(*serials)),
{
    let listed = lines_of(&chars_of(output));
    let names = filled_values(&listed, "Name=", "Unknown Monitor");
    let numbers: Vec<Vec<char>> = match serials {
        Ok(listing) => {
            let serial_lines = lines_of(&chars_of(listing.as_str()));
            filled_values(&serial_lines, "SerialNumberID=", "")
        },
        Err(_) => {
            let none: Vec<Vec<char>> = Vec::new();
            assert(rows(none@) =~= Seq::<Seq<char>>::empty());
            none
        },
    };
    let mut monitors: Vec<Monitor> = Vec::new();
    if names.len() == 0 {
        monitors.push(
            Monitor { name: String::from_str("Primary Display"), serial: String::from_str("Unknown") },
        );
        assert(views(monitors@) =~= seq![
            MonitorView { name: "Primary Display"@, serial: "Unknown"@ },
        ]);
        return monitors;
    }
    let mut k: usize = 0;
    while k < names.len()
        invariant
            k <= names.len(),
            monitors.len() == k,
            forall|j: int|
                0 <= j < k ==> (#[trigger] monitors@[j])@ == monitors_named(
                    rows(names@),
                    rows(numbers@),
                )[j],
        decreases names.len() - k,
    {
        let serial = if k < numbers.len() {
            string_of(&numbers[k])
        } else {
            String::from_str("Unknown")
        };
        monitors.push(Monitor { name: string_of(&names[k]), serial });
        k += 1;
    }
    assert(views(monitors@) =~= monitors_named(rows(names@), rows(numbers@)));
    monitors
}

/// The USB device that a line of the controller listing names: a
/// `Dependent=` line that mentions `USB`, whose value holds both a vendor
/// and a product marker, gives a device with the codes after the two.
pub open spec fn usb_device_of(line: Seq<char>) -> Option<UsbDeviceView> {
    if starts_with(line, "Dependent="@) && contains(line, "USB"@) {
        match second_field(line, '=') {
            Some(path) => if contains(path, "VID_"@) && contains(path, "PID_"@) {
                Some(
                    UsbDeviceView {
                        name: "USB Device"@,
                        vendor_id: code_after(path, "VID_"@),
                        product_id: code_after(path, "PID_"@),
                    },
                )
            } else {
                None
            },
            None => None,
        }
    } else {
        None
    }
}

/// Takes the USB device of each line that names one.
pub open spec fn usb_picker() -> spec_fn(Seq<char>) -> Option<UsbDeviceView> {
    |line: Seq<char>| usb_device_of(line)
}

fn controller_devices(listed: &Vec<Vec<char>>) -> (devices: Vec<UsbDevice>)
    ensures
        views(devices@) == picks(rows(listed@), usb_picker()),
{
    let key = chars_of("Dependent=");
    let usb = chars_of("USB");
    let vendor_marker = chars_of("VID_");
    let product_marker = chars_of("PID_");
    let mut devices: Vec<UsbDevice> = Vec::new();
    let mut i: usize = 0;
    assert(views(devices@) =~= Seq::<UsbDeviceView>::empty());
    assert(rows(listed@).take(0) =~= Seq::<Seq<char>>::empty());
    while i < listed.len()
        invariant
            i <= listed.len(),
            key@ == "Dependent="@,
            usb@ == "USB"@,
            vendor_marker@ == "VID_"@,
            product_marker@ == "PID_"@,
            views(devices@) == picks(rows(listed@).take(i as int), usb_picker()),
        decreases listed.len() - i,
    {
        let ghost upto = rows(listed@).take(i + 1);
        assert(upto.last() == listed@[i as int]@);
        assert(upto.drop_last() =~= rows(listed@).take(i as int));
        if begins_with(&listed[i], &key) && holds(&listed[i], &usb) {
            match second_field_of(&listed[i], '=') {
                Some(path) => {
                    if holds(&path, &vendor_marker) && holds(&path, &product_marker) {
                        let vendor = code_after_marker(&path, &vendor_marker);
                        let product = code_after_marker(&path, &product_marker);
                        let ghost before = views(devices@);
                        devices.push(
                            UsbDevice {
                                name: String::from_str("USB Device"),
                                vendor_id: string_of(&vendor),
                                product_id: string_of(&product),
                            },
                        );
                        assert(views(devices@) =~= before.push(
                            UsbDeviceView {
                                name: "USB Device"@,
                                vendor_id: vendor@,
                                product_id: product@,
                            },
                        ));
                    }
                },
                None => {},
            }
        }
        i += 1;
    }
    assert(rows(listed@).take(listed.len() as int) =~= rows(listed@));
    devices
}

/// How far a reading of the plug-and-play listing has come: the devices
/// found, and what was read of the next one.
pub struct UsbScan {
    pub devices: Seq<UsbDeviceView>,
    pub vendor_id: Seq<char>,
    pub product_id: Seq<char>,
}

/// The reading after one more line. A `DeviceID=` line that mentions a
/// vendor marker sets the codes that its value gives. A `Name=` line
/// completes a device where a vendor code was read before it, and starts
/// afresh either way.
pub open spec fn usb_step(scan: UsbScan, line: Seq<char>) -> UsbScan {
    if starts_with(line, "DeviceID="@) && contains(line, "VID_"@) {
        UsbScan {
            devices: scan.devices,
            vendor_id: if contains(value_or(line, ""@), "VID_"@) {
                code_after(value_or(line, ""@), "VID_"@)
            } else {
                scan.vendor_id
            },
            product_id: if contains(value_or(line, ""@), "PID_"@) {
                code_after(value_or(line, ""@), "PID_"@)
            } else {
                scan.product_id
            },
        }
    } else if starts_with(line, "Name="@) {
        UsbScan {
            devices: if scan.vendor_id.len() > 0 {
                scan.devices.push(
                    UsbDeviceView {
                        name: value_or(line, "USB Device"@),
                        vendor_id: scan.vendor_id,
                        product_id: scan.product_id,
                    },
                )
            } else {
                scan.devices
            },
            vendor_id: Seq::empty(),
            product_id: Seq::empty(),
        }
    } else {
        scan
    }
}

/// The reading after all of `lines`.
pub open spec fn usb_scan(lines: Seq<Seq<char>>) -> UsbScan
    decreases lines.len(),
{
    if lines.len() == 0 {
        UsbScan { devices: Seq::empty(), vendor_id: Seq::empty(), product_id: Seq::empty() }
    } else {
        usb_step(usb_scan(lines.drop_last()), lines.last())
    }
}

fn plug_and_play_devices(listed: &Vec<Vec<char>>) -> (devices: Vec<UsbDevice>)
    ensures
        views(devices@) == usb_scan(rows(listed@)).devices,
{
    let device_key = chars_of("DeviceID=");
    let name_key = chars_of("Name=");
    let vendor_marker = chars_of("VID_");
    let product_marker = chars_of("PID_");
    let mut devices: Vec<UsbDevice> = Vec::new();
    let mut vendor: Vec<char> = Vec::new();
    let mut product: Vec<char> = Vec::new();
    let mut i: usize = 0;
    assert(views(devices@) =~= Seq::<UsbDeviceView>::empty());
    assert(rows(listed@).take(0) =~= Seq::<Seq<char>>::empty());
    while i < listed.len()
        invariant
            i <= listed.len(),
            device_key@ == "DeviceID="@,
            name_key@ == "Name="@,
            vendor_marker@ == "VID_"@,
            product_marker@ == "PID_"@,
            usb_scan(rows(listed@).take(i as int)) == (UsbScan {
                devices: views(devices@),
                vendor_id: vendor@,
                product_id: product@,
            }),
        decreases listed.len() - i,
    {
        let ghost upto = rows(listed@).take(i + 1);
        assert(upto.last() == listed@[i as int]@);
        assert(upto.drop_last() =~= rows(listed@).take(i as int));
        if begins_with(&listed[i], &device_key) && holds(&listed[i], &vendor_marker) {
            let id = value_of(&listed[i], "");
            if holds(&id, &vendor_marker) {
                vendor = code_after_marker(&id, &vendor_marker);
            }
            if holds(&id, &product_marker) {
                product = code_after_marker(&id, &product_marker);
            }
        } else if begins_with(&listed[i], &name_key) {
            if vendor.len() > 0 {
                let name = value_of(&listed[i], "USB Device");
                let ghost before = views(devices@);
                devices.push(
                    UsbDevice {
                        name: string_of(&name),
                        vendor_id: string_of(&vendor),
                        product_id: string_of(&product),
                    },
                );
                assert(views(devices@) =~= before.push(
                    UsbDeviceView { name: name@, vendor_id: vendor@, product_id: product@ },
                ));
            }
            vendor = Vec::new();
            product = Vec::new();
        }
        i += 1;
    }
    assert(rows(listed@).take(listed.len() as int) =~= rows(listed@));
    devices
}

/// The USB input devices: those of the controller listing; where it names
/// none, those of the plug-and-play listing, and none where that listing
/// could not be had.
pub open spec fn usb_devices_in(
    controllers: Seq<char>,
    plug_and_play: Result<Seq<char>, Seq<char>>,
) -> Seq<UsbDeviceView> {
    if picks(lines(controllers), usb_picker()).len() > 0 {
        picks(lines(controllers), usb_picker())
    } else {
        match plug_and_play {
            Ok(listing) => usb_scan(lines(listing)).devices,
            Err(_) => Seq::empty(),
        }
    }
}

/// Whether the plug-and-play listing has to be had for the USB devices:
/// the controller listing names none.
pub fn needs_plug_and_play(controllers: &str) -> (needed: bool)
    ensures
        needed == (picks(lines(controllers@), usb_picker()).len() == 0),
        !needed ==> forall|listing: Result<Seq<char>, Seq<char>>|
            #[trigger] usb_devices_in(controllers@, listing) == picks(
                lines(controllers@),
                usb_picker(),
            ),
{
    let listed = lines_of(&chars_of(controllers));
    controller_devices(&listed).len() == 0
}

/// Reads the USB input devices with their vendor and product ids. A
/// plug-and-play listing that was needed and could not be had leaves the
/// list empty.
pub fn get_usb_devices(controllers: &str, plug_and_play: &Result<String, String>) -> (devices:
    Vec<UsbDevice>)
    ensures
        views(devices@) == usb_devices_in(controllers@, outcome(*plug_and_play)),
{
    let listed = lines_of(&chars_of(controllers));
    let devices = controller_devices(&listed);
    if devices.len() > 0 {
        return devices;
    }
    match plug_and_play {
        Ok(listing) => {
            let entries = lines_of(&chars_of(listing.as_str()));
            plug_and_play_devices(&entries)
        },
        Err(_) => {
            let none: Vec<UsbDevice> = Vec::new();
            assert(views(none@) =~= Seq::<UsbDeviceView>::empty());
            none
        },
    }
}

/// The class of a PCI device, from the lowercase form of its device id.
pub open spec fn pci_device_type(lowered: Seq<char>) -> Seq<char> {
    if contains(lowered, "display"@) || contains(lowered, "vga"@) {
        "display"@
    } else if contains(lowered, "network"@) || contains(lowered, "ethernet"@) {
        "network"@
    } else if contains(lowered, "storage"@) || contains(lowered, "ide"@) || contains(
        lowered,
        "sata"@,
    ) {
        "storage"@
    } else {
        "unknown"@
    }
}

/// Says which class of device the lowercase form of a device id names.
pub fn device_type_of(lowered: &str) -> (class: String)
    ensures
        class@ == pci_device_type(lowered@),
{
    let text = chars_of(lowered);
    if holds(&text, &chars_of("display")) || holds(&text, &chars_of("vga")) {
        String::from_str("display")
    } else if holds(&text, &chars_of("network")) || holds(&text, &chars_of("ethernet")) {
        String::from_str("network")
    } else if holds(&text, &chars_of("storage")) || holds(&text, &chars_of("ide")) || holds(
        &text,
        &chars_of("sata"),
    ) {
        String::from_str("storage")
    } else {
        String::from_str("unknown")
    }
}

/// The first of the parts into which `delimiter` divides `s` that begins
/// with `prefix`.
pub open spec fn part_with_prefix(s: Seq<char>, delimiter: char, prefix: Seq<char>) -> Option<
    Seq<char>,
>
    decreases s.len(),
{
    if starts_with(before(s, delimiter), prefix) {
        Some(before(s, delimiter))
    } else {
        match after(s, delimiter) {
            Some(rest) => part_with_prefix(rest, delimiter, prefix),
            None => None,
        }
    }
}

fn find_part(s: &Vec<char>, delimiter: char, prefix: &Vec<char>) -> (part: Option<Vec<char>>)
    ensures
        optional(part) == part_with_prefix(s@, delimiter, prefix@),
{
    let mut rest = text_before(s, delimiter);
    let mut remaining = text_after(s, delimiter);
    let ghost mut current = s@;
    loop
        invariant
            rest@ == before(current, delimiter),
            optional(remaining) == after(current, delimiter),
            part_with_prefix(s@, delimiter, prefix@) == part_with_prefix(
                current,
                delimiter,
                prefix@,
            ),
        decreases current.len(),
    {
        if begins_with(&rest, prefix) {
            return Some(rest);
        }
        match remaining {
            Some(tail) => {
                proof {
                    current = tail@;
                }
                rest = text_before(&tail, delimiter);
                remaining = text_after(&tail, delimiter);
            },
            None => {
                return None;
            },
        }
    }
}

/// The PCI device that a line names: a `DeviceID=` line that mentions
/// `PCI`, whose value has a part that begins with the vendor marker and
/// gives both a vendor and a device code.
pub open spec fn pci_device_of(line: Seq<char>) -> Option<PciDeviceView> {
    if starts_with(line, "DeviceID="@) && contains(line, "PCI"@) {
        match second_field(line, '=') {
            Some(device_id) => match part_with_prefix(device_id, '\\', "VEN_"@) {
                Some(part) => if code_after(part, "VEN_"@).len() > 0 && code_after(
                    part,
                    "DEV_"@,
                ).len() > 0 {
                    Some(
                        PciDeviceView {
                            id: code_after(part, "VEN_"@) + "-"@ + code_after(part, "DEV_"@),
                            device_type: pci_device_type(lowercase(device_id)),
                        },
                    )
                } else {
                    None
                },
                None => None,
            },
            None => None,
        }
    } else {
        None
    }
}

/// Takes the PCI device of each line that names one.
pub open spec fn pci_picker() -> spec_fn(Seq<char>) -> Option<PciDeviceView> {
    |line: Seq<char>| pci_device_of(line)
}

/// The PCI devices of the listing, or one unknown device where it names
/// none.
pub open spec fn pci_devices_in(text: Seq<char>) -> Seq<PciDeviceView> {
    if picks(lines(text), pci_picker()).len() == 0 {
        seq![PciDeviceView { id: "Unknown"@, device_type: "unknown"@ }]
    } else {
        picks(lines(text), pci_picker())
    }
}

/// Reads the PCI devices with their ids and classes.
pub fn get_pci_devices(output: &str) -> (devices: Vec<PciDevice>)
    ensures
        views(devices@) == pci_devices_in(output@),
{
    let listed = lines_of(&chars_of(output));
    let key = chars_of("DeviceID=");
    let pci = chars_of("PCI");
    let vendor_marker = chars_of("VEN_");
    let device_marker = chars_of("DEV_");
    let mut devices: Vec<PciDevice> = Vec::new();
    let mut i: usize = 0;
    assert(views(devices@) =~= Seq::<PciDeviceView>::empty());
    assert(rows(listed@).take(0) =~= Seq::<Seq<char>>::empty());
    while i < listed.len()
        invariant
            i <= listed.len(),
            key@ == "DeviceID="@,
            pci@ == "PCI"@,
            vendor_marker@ == "VEN_"@,
            device_marker@ == "DEV_"@,
            rows(listed@) == lines(output@),
            views(devices@) == picks(rows(listed@).take(i as int), pci_picker()),
        decreases listed.len() - i,
    {
        let ghost upto = rows(listed@).take(i + 1);
        assert(upto.last() == listed@[i as int]@);
        assert(upto.drop_last() =~= rows(listed@).take(i as int));
        if begins_with(&listed[i], &key) && holds(&listed[i], &pci) {
            match second_field_of(&listed[i], '=') {
                Some(device_id) => match find_part(&device_id, '\\', &vendor_marker) {
                    Some(part) => {
                        let vendor = code_after_marker(&part, &vendor_marker);
                        let device = code_after_marker(&part, &device_marker);
                        if vendor.len() > 0 && device.len() > 0 {
                            let lowered = to_lowercase(string_of(&device_id).as_str());
                            let mut id = string_of(&vendor);
                            id.append("-");
                            id.append(string_of(&device).as_str());
                            let ghost before = views(devices@);
                            let found = PciDevice {
                                id,
                                device_type: device_type_of(lowered.as_str()),
                            };
                            devices.push(found);
                            assert(views(devices@) =~= before.push(found@));
                        }
                    },
                    None => {},
                },
                None => {},
            }
        }
        i += 1;
    }
    assert(rows(listed@).take(listed.len() as int) =~= rows(listed@));
    if devices.len() == 0 {
        devices.push(
            PciDevice { id: String::from_str("Unknown"), device_type: String::from_str("unknown") },
        );
        assert(views(devices@) =~= seq![PciDeviceView { id: "Unknown"@, device_type: "unknown"@ }]);
    }
    devices
}

} // verus!
