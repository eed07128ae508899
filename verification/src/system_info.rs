//! The host snapshot: one point-in-time record of what the machine is made
//! of, as the inventory provider reports it.

use vstd::prelude::*;
use vstd::string::StringExecFns;
use crate::clock::utc_timestamp;
use crate::text::{lines, trim};
use crate::inventory::{
    DEFAULT_MEMORY_MB, drives_in, get_drive_info, get_machine_signature, get_memory_info, get_monitors,
    get_network_info, get_os_info, get_pci_devices, get_physical_hardware_info,
    get_processor_info, get_usb_devices, get_user_info, get_video_cards, machine_signature_in,
    memory_in, monitors_in, network_in, os_caption_in, os_version_in, outcome, pci_devices_in,
    physical_model_in, processor_in, usb_devices_in, user_in, video_cards_in,
};

verus! {

/// One PCI device: vendor and device id joined by a hyphen, and its class.
#[derive(Debug, Clone)]
pub struct PciDevice {
    pub id: String,
    pub device_type: String,
}

/// What a `PciDevice` is, as plain values.
pub struct PciDeviceView {
    pub id: Seq<char>,
    pub device_type: Seq<char>,
}

impl View for PciDevice {
    type V = PciDeviceView;

    open spec fn view(&self) -> PciDeviceView {
        PciDeviceView { id: self.id@, device_type: self.device_type@ }
    }
}

/// The processor: its model name and the number of logical cores.
#[derive(Debug, Clone)]
pub struct ProcessorInfo {
    pub cpu_model: String,
    pub cpu_cores: u32,
}

/// What a `ProcessorInfo` is, as plain values.
pub struct ProcessorInfoView {
    pub cpu_model: Seq<char>,
    pub cpu_cores: u32,
}

impl View for ProcessorInfo {
    type V = ProcessorInfoView;

    open spec fn view(&self) -> ProcessorInfoView {
        ProcessorInfoView { cpu_model: self.cpu_model@, cpu_cores: self.cpu_cores }
    }
}

/// One disk drive, known by its serial number.
#[derive(Debug, Clone)]
pub struct DriveInfo {
    pub serial: String,
}

/// What a `DriveInfo` is, as plain values.
pub struct DriveInfoView {
    pub serial: Seq<char>,
}

impl View for DriveInfo {
    type V = DriveInfoView;

    open spec fn view(&self) -> DriveInfoView {
        DriveInfoView { serial: self.serial@ }
    }
}

/// The addresses under which the host is reachable.
#[derive(Debug, Clone)]
pub struct NetworkInfo {
    pub local_ip: String,
    pub public_ip: String,
}

/// What a `NetworkInfo` is, as plain values.
pub struct NetworkInfoView {
    pub local_ip: Seq<char>,
    pub public_ip: Seq<char>,
}

impl View for NetworkInfo {
    type V = NetworkInfoView;

    open spec fn view(&self) -> NetworkInfoView {
        NetworkInfoView { local_ip: self.local_ip@, public_ip: self.public_ip@ }
    }
}

/// One video card and the version of its driver.
#[derive(Debug, Clone)]
pub struct VideoCard {
    pub name: String,
    pub driver_version: String,
}

/// What a `VideoCard` is, as plain values.
pub struct VideoCardView {
    pub name: Seq<char>,
    pub driver_version: Seq<char>,
}

impl View for VideoCard {
    type V = VideoCardView;

    open spec fn view(&self) -> VideoCardView {
        VideoCardView { name: self.name@, driver_version: self.driver_version@ }
    }
}

/// One monitor and its serial number.
#[derive(Debug, Clone)]
pub struct Monitor {
    pub name: String,
    pub serial: String,
}

/// What a `Monitor` is, as plain values.
pub struct MonitorView {
    pub name: Seq<char>,
    pub serial: Seq<char>,
}

impl View for Monitor {
    type V = MonitorView;

    open spec fn view(&self) -> MonitorView {
        MonitorView { name: self.name@, serial: self.serial@ }
    }
}

/// One USB input device with its vendor and product ids.
#[derive(Debug, Clone)]
pub struct UsbDevice {
    pub name: String,
    pub vendor_id: String,
    pub product_id: String,
}

/// What a `UsbDevice` is, as plain values.
pub struct UsbDeviceView {
    pub name: Seq<char>,
    pub vendor_id: Seq<char>,
    pub product_id: Seq<char>,
}

impl View for UsbDevice {
    type V = UsbDeviceView;

    open spec fn view(&self) -> UsbDeviceView {
        UsbDeviceView { name: self.name@, vendor_id: self.vendor_id@, product_id: self.product_id@ }
    }
}

/// The identity of the host: operating system, memory, hardware model,
/// machine signature, current user, and when monitoring began.
#[derive(Debug, Clone)]
pub struct SystemInfoCore {
    pub directx_version: String,
    pub os_version: String,
    pub real_os: String,
    pub memory_mb: u64,
    pub physical_model: String,
    pub machine_signature: String,
    pub user: String,
    pub monitor_start_time: String,
}

/// What a `SystemInfoCore` is, as plain values.
pub struct SystemInfoCoreView {
    pub directx_version: Seq<char>,
    pub os_version: Seq<char>,
    pub real_os: Seq<char>,
    pub memory_mb: u64,
    pub physical_model: Seq<char>,
    pub machine_signature: Seq<char>,
    pub user: Seq<char>,
    pub monitor_start_time: Seq<char>,
}

impl View for SystemInfoCore {
    type V = SystemInfoCoreView;

    open spec fn view(&self) -> SystemInfoCoreView {
        SystemInfoCoreView {
            directx_version: self.directx_version@,
            os_version: self.os_version@,
            real_os: self.real_os@,
            memory_mb: self.memory_mb,
            physical_model: self.physical_model@,
            machine_signature: self.machine_signature@,
            user: self.user@,
            monitor_start_time: self.monitor_start_time@,
        }
    }
}

/// The views of the items of `items`, in order.
pub open spec fn views<T: View>(items: Seq<T>) -> Seq<T::V> {
    items.map_values(|item: T| item@)
}

/// One complete snapshot of the host.
#[derive(Debug, Clone)]
pub struct SystemInfo {
    pub system_info: SystemInfoCore,
    pub pci_devices: Vec<PciDevice>,
    pub drives: Vec<DriveInfo>,
    pub network_info: NetworkInfo,
    pub video_cards: Vec<VideoCard>,
    pub monitors: Vec<Monitor>,
    pub usb_input_devices: Vec<UsbDevice>,
    pub processor_info: ProcessorInfo,
}

/// What a `SystemInfo` is, as plain values.
pub struct SystemInfoView {
    pub system_info: SystemInfoCoreView,
    pub pci_devices: Seq<PciDeviceView>,
    pub drives: Seq<DriveInfoView>,
    pub network_info: NetworkInfoView,
    pub video_cards: Seq<VideoCardView>,
    pub monitors: Seq<MonitorView>,
    pub usb_input_devices: Seq<UsbDeviceView>,
    pub processor_info: ProcessorInfoView,
}

impl View for SystemInfo {
    type V = SystemInfoView;

    open spec fn view(&self) -> SystemInfoView {
        SystemInfoView {
            system_info: self.system_info@,
            pci_devices: views(self.pci_devices@),
            drives: views(self.drives@),
            network_info: self.network_info@,
            video_cards: views(self.video_cards@),
            monitors: views(self.monitors@),
            usb_input_devices: views(self.usb_input_devices@),
            processor_info: self.processor_info@,
        }
    }
}

/// What each platform utility printed, or why it could not be run or read.
/// An output that could not be had counts as empty text: the fields that
/// are read from it take their sentinel values.
#[derive(Debug)]
pub struct CommandOutputs {
    /// The DirectX diagnosis. Only its success is looked at.
    pub directx: Result<String, String>,
    /// The plug-and-play entities on the PCI bus, with their device ids.
    pub pci_devices: Result<String, String>,
    /// The total physical memory in bytes.
    pub memory: Result<String, String>,
    /// The system summary, read for the memory size where `memory` gives none.
    pub system_summary: Result<String, String>,
    /// Manufacturer and model of the computer.
    pub computer_system: Result<String, String>,
    /// The serial number of the BIOS.
    pub bios: Result<String, String>,
    /// The serial numbers of the disk drives.
    pub disk_drives: Result<String, String>,
    /// The network interfaces with their addresses.
    pub interfaces: Result<String, String>,
    /// The resolver's answer that holds the public address.
    pub resolver: Result<String, String>,
    /// The video controllers with their driver versions.
    pub video_controllers: Result<String, String>,
    /// The desktop monitors.
    pub monitors: Result<String, String>,
    /// The serial numbers of the desktop monitors.
    pub monitor_serials: Result<String, String>,
    /// The devices on the USB controllers.
    pub usb_controllers: Result<String, String>,
    /// The plug-and-play entities on USB, read where `usb_controllers` names
    /// no device.
    pub plug_and_play: Result<String, String>,
    /// The processor's name.
    pub processor: Result<String, String>,
    /// The processor's number of logical cores.
    pub processor_cores: Result<String, String>,
    /// Version and caption of the operating system.
    pub operating_system: Result<String, String>,
    /// The machine's UUID.
    pub product: Result<String, String>,
    /// The name of the current user.
    pub user: Result<String, String>,
}

/// The DirectX version that a snapshot reports where the diagnosis ran.
pub const DIRECTX_VERSION: &'static str = "DirectX 12";

/// The DirectX version that a snapshot reports where the diagnosis could
/// not be run.
pub const UNKNOWN_DIRECTX_VERSION: &'static str = "Unknown";

/// The text of an output, empty where there is none.
pub open spec fn text_of(output: Result<String, String>) -> Seq<char> {
    match output {
        Ok(text) => text@,
        Err(_) => Seq::empty(),
    }
}

/// The DirectX version by the outcome of the diagnosis.
pub open spec fn directx_version_in(diagnosis: Result<String, String>) -> Seq<char> {
    if diagnosis is Ok {
        DIRECTX_VERSION@
    } else {
        UNKNOWN_DIRECTX_VERSION@
    }
}

/// The snapshot that the outputs describe; `started` is the time at which
/// it was taken. Each field is read from its own output, so an output that
/// could not be had touches no field but its own.
pub open spec fn snapshot_in(outputs: CommandOutputs, started: Seq<char>) -> SystemInfoView {
    SystemInfoView {
        system_info: SystemInfoCoreView {
            directx_version: directx_version_in(outputs.directx),
            os_version: os_version_in(text_of(outputs.operating_system)),
            real_os: os_caption_in(text_of(outputs.operating_system)),
            memory_mb: memory_in(
                text_of(outputs.memory),
                outcome(outputs.system_summary),
            ) as u64,
            physical_model: physical_model_in(
                text_of(outputs.computer_system),
                text_of(outputs.bios),
            ),
            machine_signature: machine_signature_in(text_of(outputs.product)),
            user: user_in(text_of(outputs.user)),
            monitor_start_time: started,
        },
        pci_devices: pci_devices_in(text_of(outputs.pci_devices)),
        drives: drives_in(text_of(outputs.disk_drives)),
        network_info: network_in(text_of(outputs.interfaces), outcome(outputs.resolver)),
        video_cards: video_cards_in(text_of(outputs.video_controllers)),
        monitors: monitors_in(text_of(outputs.monitors), outcome(outputs.monitor_serials)),
        usb_input_devices: usb_devices_in(
            text_of(outputs.usb_controllers),
            outcome(outputs.plug_and_play),
        ),
        processor_info: processor_in(
            text_of(outputs.processor),
            text_of(outputs.processor_cores),
        ),
    }
}

fn listing(output: &Result<String, String>) -> (text: &str)
    ensures
        text@ == text_of(*output),
{
    match output {
        Ok(found) => found.as_str(),
        Err(_) => {
            proof {
                reveal_strlit("");
            }
            assert(""@ =~= Seq::<char>::empty());
            ""
        },
    }
}

impl SystemInfo {
    /// Reads a snapshot out of what the platform utilities printed, taken
    /// at `started`. The collection never fails: an output that could not
    /// be had, like text that holds nothing of use, leaves the fields that
    /// are read from it at their sentinel values and touches no other.
    pub fn collect_at(outputs: &CommandOutputs, started: String) -> (snapshot: Result<
        SystemInfo,
        String,
    >)
        ensures
            snapshot is Ok,
            snapshot->Ok_0@ == snapshot_in(*outputs, started@),
    {
        let directx_version = match &outputs.directx {
            Ok(_) => String::from_str(DIRECTX_VERSION),
            Err(_) => String::from_str(UNKNOWN_DIRECTX_VERSION),
        };
        let pci_devices = get_pci_devices(listing(&outputs.pci_devices));
        let memory_mb = get_memory_info(listing(&outputs.memory), &outputs.system_summary);
        let physical_model = get_physical_hardware_info(
            listing(&outputs.computer_system),
            listing(&outputs.bios),
        );
        let drives = get_drive_info(listing(&outputs.disk_drives));
        let network_info = get_network_info(listing(&outputs.interfaces), &outputs.resolver);
        let video_cards = get_video_cards(listing(&outputs.video_controllers));
        let monitors = get_monitors(listing(&outputs.monitors), &outputs.monitor_serials);
        let usb_input_devices = get_usb_devices(
            listing(&outputs.usb_controllers),
            &outputs.plug_and_play,
        );
        let processor_info = get_processor_info(
            listing(&outputs.processor),
            listing(&outputs.processor_cores),
        );
        let (os_version, real_os) = get_os_info(listing(&outputs.operating_system));
        let machine_signature = get_machine_signature(listing(&outputs.product));
        let user = get_user_info(listing(&outputs.user));
        Ok(
            SystemInfo {
                system_info: SystemInfoCore {
                    directx_version,
                    os_version,
                    real_os,
                    memory_mb,
                    physical_model,
                    machine_signature,
                    user,
                    monitor_start_time: started,
                },
                pci_devices,
                drives,
                network_info,
                video_cards,
                monitors,
                usb_input_devices,
                processor_info,
            },
        )
    }

    /// Reads a snapshot out of what the platform utilities printed, taken
    /// now: its start time is the UTC time of the call. The collection
    /// never fails.
    pub fn collect(outputs: &CommandOutputs) -> (snapshot: Result<SystemInfo, String>)
        ensures
            snapshot is Ok,
            snapshot->Ok_0@ == snapshot_in(
                *outputs,
                snapshot->Ok_0@.system_info.monitor_start_time,
            ),
    {
        SystemInfo::collect_at(outputs, utc_timestamp())
    }
}

/// The lines of no text are none.
proof fn no_text_has_no_lines()
    ensures
        lines(Seq::<char>::empty()) == Seq::<Seq<char>>::empty(),
        trim(Seq::<char>::empty()) == Seq::<char>::empty(),
{
}

/// A field whose outputs could not be had holds its sentinel value, whatever
/// became of the other outputs.
pub proof fn missing_outputs_give_sentinels(outputs: CommandOutputs, started: Seq<char>)
    ensures
        outputs.directx is Err ==> snapshot_in(outputs, started).system_info.directx_version
            == "Unknown"@,
        outputs.operating_system is Err ==> snapshot_in(outputs, started).system_info.os_version
            == "Unknown"@ && snapshot_in(outputs, started).system_info.real_os
            == "Unknown Windows"@,
        outputs.memory is Err && outputs.system_summary is Err ==> snapshot_in(
            outputs,
            started,
        ).system_info.memory_mb == DEFAULT_MEMORY_MB,
        outputs.computer_system is Err && outputs.bios is Err ==> snapshot_in(
            outputs,
            started,
        ).system_info.physical_model == " "@ + " "@,
        outputs.product is Err ==> snapshot_in(outputs, started).system_info.machine_signature
            == "{Unknown-Machine-ID}"@,
        outputs.user is Err ==> snapshot_in(outputs, started).system_info.user
            == "Unknown@UNKNOWN"@,
        outputs.pci_devices is Err ==> snapshot_in(outputs, started).pci_devices == seq![
            PciDeviceView { id: "Unknown"@, device_type: "unknown"@ },
        ],
        outputs.disk_drives is Err ==> snapshot_in(outputs, started).drives == seq![
            DriveInfoView { serial: "Unknown"@ },
        ],
        outputs.interfaces is Err ==> snapshot_in(outputs, started).network_info.local_ip
            == "Unknown"@,
        outputs.resolver is Err ==> snapshot_in(outputs, started).network_info.public_ip
            == "Unknown"@,
        outputs.video_controllers is Err ==> snapshot_in(outputs, started).video_cards
            == Seq::<VideoCardView>::empty(),
        outputs.monitors is Err ==> snapshot_in(outputs, started).monitors == seq![
            MonitorView { name: "Primary Display"@, serial: "Unknown"@ },
        ],
        outputs.usb_controllers is Err && outputs.plug_and_play is Err ==> snapshot_in(
            outputs,
            started,
        ).usb_input_devices == Seq::<UsbDeviceView>::empty(),
        outputs.processor is Err && outputs.processor_cores is Err ==> snapshot_in(
            outputs,
            started,
        ).processor_info == (ProcessorInfoView { cpu_model: Seq::empty(), cpu_cores: 0 }),
{
    no_text_has_no_lines();
    let none = Seq::<char>::empty();
    if outputs.computer_system is Err && outputs.bios is Err {
        assert(physical_model_in(none, none) =~= " "@ + " "@);
    }
}

} // verus!
