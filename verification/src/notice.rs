//! The shapes of what clients are told: the status report of a device and
//! the notices about devices of a group.

use vstd::prelude::*;

use crate::device::DeviceRecord;
use crate::group::GroupId;

verus! {

/// One sample of the local node's hardware utilisation.
#[derive(Clone, Copy, Debug, PartialEq, Eq, Structural)]
pub struct Metrics {
    pub cpu: u32,
    pub memory: u32,
    pub swap: u32,
    pub disk: u32,
    pub cpu_p: u16,
    pub memory_p: u16,
    pub swap_p: u16,
    pub disk_p: u16,
}

/// The status of a device: its hardware utilisation and its uptime.
#[derive(Clone, Copy, Debug, PartialEq, Eq, Structural)]
pub struct StatusReport {
    pub cpu: u32,
    pub memory: u32,
    pub swap: u32,
    pub disk: u32,
    pub cpu_p: u16,
    pub memory_p: u16,
    pub swap_p: u16,
    pub disk_p: u16,
    pub uptime: u32,
}

/// The sample that stands for metrics that could not be taken: all zero.
pub open spec fn no_metrics() -> Metrics {
    Metrics { cpu: 0, memory: 0, swap: 0, disk: 0, cpu_p: 0, memory_p: 0, swap_p: 0, disk_p: 0 }
}

/// The report made of a sample and an uptime; a missing sample counts as
/// all zero.
pub open spec fn report_of(sample: Option<Metrics>, uptime: u32) -> StatusReport {
    let metrics = match sample {
        Some(metrics) => metrics,
        None => no_metrics(),
    };
    StatusReport {
        cpu: metrics.cpu,
        memory: metrics.memory,
        swap: metrics.swap,
        disk: metrics.disk,
        cpu_p: metrics.cpu_p,
        memory_p: metrics.memory_p,
        swap_p: metrics.swap_p,
        disk_p: metrics.disk_p,
        uptime,
    }
}

/// The status report of the local node, from a sample of its metrics and
/// the uptime of the group. Where the metrics source gave no sample, the
/// figures are zero.
pub fn status_report(sample: Option<Metrics>, uptime: u32) -> (report: StatusReport)
    ensures
        report == report_of(sample, uptime),
{
    let metrics = match sample {
        Some(metrics) => metrics,
        None => Metrics {
            cpu: 0,
            memory: 0,
            swap: 0,
            disk: 0,
            cpu_p: 0,
            memory_p: 0,
            swap_p: 0,
            disk_p: 0,
        },
    };
    StatusReport {
        cpu: metrics.cpu,
        memory: metrics.memory,
        swap: metrics.swap,
        disk: metrics.disk,
        cpu_p: metrics.cpu_p,
        memory_p: metrics.memory_p,
        swap_p: metrics.swap_p,
        disk_p: metrics.disk_p,
        uptime,
    }
}

/// What a notice tells.
#[derive(Clone, Copy, Debug, PartialEq, Eq, Structural)]
pub enum NoticeKind {
    /// A device was created.
    Create,
    /// A device was removed.
    Remove,
    /// A device came online.
    Online,
    /// A device went offline.
    Offline,
    /// The status of a device.
    Status,
}

impl NoticeKind {
    /// The method name under which clients receive the notice.
    pub open spec fn method_name(self) -> Seq<char> {
        match self {
            NoticeKind::Create => "device-create"@,
            NoticeKind::Remove => "device-remove"@,
            NoticeKind::Online => "device-online"@,
            NoticeKind::Offline => "device-offline"@,
            NoticeKind::Status => "device-status"@,
        }
    }

    /// The method name under which clients receive the notice.
    pub fn method(self) -> (name: &'static str)
        ensures
            name@ == self.method_name(),
    {
        match self {
            NoticeKind::Create => "device-create",
            NoticeKind::Remove => "device-remove",
            NoticeKind::Online => "device-online",
            NoticeKind::Offline => "device-offline",
            NoticeKind::Status => "device-status",
        }
    }
}

/// What a notice carries.
#[derive(Debug, PartialEq, Eq)]
pub enum NoticeBody {
    /// A device record.
    Device(DeviceRecord),
    /// The identifier of a device record.
    Record(i64),
    /// A status report.
    Status(StatusReport),
}

/// A notice to the clients of a group. Notices answer no request, so
/// their request identifier is zero.
#[derive(Debug, PartialEq, Eq)]
pub struct Notice {
    /// The request identifier: always zero.
    pub id: u64,
    /// What the notice tells.
    pub kind: NoticeKind,
    /// What the notice carries.
    pub body: NoticeBody,
    /// The group that the notice is about.
    pub group: GroupId,
}

/// The notice that a device was created.
pub fn device_create(mgid: GroupId, device: &DeviceRecord) -> (notice: Notice)
    ensures
        notice == (Notice {
            id: 0,
            kind: NoticeKind::Create,
            body: NoticeBody::Device(*device),
            group: mgid,
        }),
{
    Notice { id: 0, kind: NoticeKind::Create, body: NoticeBody::Device(device.clone()), group: mgid }
}

/// The notice that the device with this record identifier was removed.
pub fn device_remove(mgid: GroupId, id: i64) -> (notice: Notice)
    ensures
        notice == (Notice {
            id: 0,
            kind: NoticeKind::Remove,
            body: NoticeBody::Record(id),
            group: mgid,
        }),
{
    Notice { id: 0, kind: NoticeKind::Remove, body: NoticeBody::Record(id), group: mgid }
}

/// The notice that the device with this record identifier came online.
pub fn device_online(mgid: GroupId, id: i64) -> (notice: Notice)
    ensures
        notice == (Notice {
            id: 0,
            kind: NoticeKind::Online,
            body: NoticeBody::Record(id),
            group: mgid,
        }),
{
    Notice { id: 0, kind: NoticeKind::Online, body: NoticeBody::Record(id), group: mgid }
}

/// The notice that the device with this record identifier went offline.
pub fn device_offline(mgid: GroupId, id: i64) -> (notice: Notice)
    ensures
        notice == (Notice {
            id: 0,
            kind: NoticeKind::Offline,
            body: NoticeBody::Record(id),
            group: mgid,
        }),
{
    Notice { id: 0, kind: NoticeKind::Offline, body: NoticeBody::Record(id), group: mgid }
}

/// The notice of a device's status, with the figures in the order in
/// which clients read them.
pub fn device_status(
    mgid: GroupId,
    cpu: u32,
    memory: u32,
    swap: u32,
    disk: u32,
    cpu_p: u16,
    memory_p: u16,
    swap_p: u16,
    disk_p: u16,
    uptime: u32,
) -> (notice: Notice)
    ensures
        notice == (Notice {
            id: 0,
            kind: NoticeKind::Status,
            body: NoticeBody::Status(
                StatusReport { cpu, memory, swap, disk, cpu_p, memory_p, swap_p, disk_p, uptime },
            ),
            group: mgid,
        }),
{
    Notice {
        id: 0,
        kind: NoticeKind::Status,
        body: NoticeBody::Status(
            StatusReport { cpu, memory, swap, disk, cpu_p, memory_p, swap_p, disk_p, uptime },
        ),
        group: mgid,
    }
}

} // verus!
