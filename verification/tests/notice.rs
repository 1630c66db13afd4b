use device_routing::address::PeerAddress;
use device_routing::device::DeviceRecord;
use device_routing::group::GroupId;
use device_routing::notice::{
    device_create, device_offline, device_online, device_remove, device_status, status_report,
    Metrics, Notice, NoticeBody, NoticeKind, StatusReport,
};

fn gid(tag: u8) -> GroupId {
    GroupId::from_bytes([tag; 32])
}

fn device() -> DeviceRecord {
    DeviceRecord {
        id: 5,
        address: PeerAddress::from_bytes([9u8; 32]),
        name: String::from("laptop"),
        class: String::from("desktop"),
        registered: 1_650_000_000,
    }
}

#[test]
fn create_notice_carries_the_device() {
    let notice = device_create(gid(1), &device());
    assert_eq!(
        notice,
        Notice {
            id: 0,
            kind: NoticeKind::Create,
            body: NoticeBody::Device(device()),
            group: gid(1),
        }
    );
}

#[test]
fn remove_notice_carries_the_identifier() {
    assert_eq!(
        device_remove(gid(2), 17),
        Notice { id: 0, kind: NoticeKind::Remove, body: NoticeBody::Record(17), group: gid(2) }
    );
}

#[test]
fn online_notice_carries_the_identifier() {
    assert_eq!(
        device_online(gid(2), 18),
        Notice { id: 0, kind: NoticeKind::Online, body: NoticeBody::Record(18), group: gid(2) }
    );
}

#[test]
fn offline_notice_carries_the_identifier() {
    assert_eq!(
        device_offline(gid(3), -4),
        Notice { id: 0, kind: NoticeKind::Offline, body: NoticeBody::Record(-4), group: gid(3) }
    );
}

#[test]
fn status_notice_keeps_the_order_of_the_figures() {
    let notice = device_status(gid(4), 1, 2, 3, 4, 5, 6, 7, 8, 9);
    assert_eq!(
        notice,
        Notice {
            id: 0,
            kind: NoticeKind::Status,
            body: NoticeBody::Status(StatusReport {
                cpu: 1,
                memory: 2,
                swap: 3,
                disk: 4,
                cpu_p: 5,
                memory_p: 6,
                swap_p: 7,
                disk_p: 8,
                uptime: 9,
            }),
            group: gid(4),
        }
    );
}

#[test]
fn status_notice_takes_the_largest_figures() {
    let notice = device_status(
        gid(4),
        u32::MAX,
        u32::MAX,
        u32::MAX,
        u32::MAX,
        u16::MAX,
        u16::MAX,
        u16::MAX,
        u16::MAX,
        u32::MAX,
    );
    match notice.body {
        NoticeBody::Status(report) => {
            assert_eq!(report.cpu, u32::MAX);
            assert_eq!(report.disk_p, u16::MAX);
            assert_eq!(report.uptime, u32::MAX);
        }
        other => panic!("unexpected body {:?}", other),
    }
}

#[test]
fn missing_metrics_count_as_zero() {
    assert_eq!(
        status_report(None, 77),
        StatusReport {
            cpu: 0,
            memory: 0,
            swap: 0,
            disk: 0,
            cpu_p: 0,
            memory_p: 0,
            swap_p: 0,
            disk_p: 0,
            uptime: 77,
        }
    );
}

#[test]
fn sampled_metrics_are_reported_as_they_are() {
    let sample = Metrics {
        cpu: 4,
        memory: 8,
        swap: 15,
        disk: 16,
        cpu_p: 23,
        memory_p: 42,
        swap_p: 1,
        disk_p: 2,
    };
    let report = status_report(Some(sample), 0);
    assert_eq!(
        (report.cpu, report.memory, report.swap, report.disk),
        (4, 8, 15, 16)
    );
    assert_eq!(
        (report.cpu_p, report.memory_p, report.swap_p, report.disk_p),
        (23, 42, 1, 2)
    );
    assert_eq!(report.uptime, 0);
}

#[test]
fn notices_have_their_method_names() {
    assert_eq!(NoticeKind::Create.method(), "device-create");
    assert_eq!(NoticeKind::Remove.method(), "device-remove");
    assert_eq!(NoticeKind::Online.method(), "device-online");
    assert_eq!(NoticeKind::Offline.method(), "device-offline");
    assert_eq!(NoticeKind::Status.method(), "device-status");
}
