use rtlsdr::devices::{BusDevice, DeviceScan, Probe, UsbIds};
use rtlsdr::error::RtlsdrError;
use rtlsdr::{DeviceDescriptor, DeviceDescriptors};

fn ids(product_id: u16) -> UsbIds {
    UsbIds { vendor_id: 0x0bda, product_id }
}

fn radio(product_id: u16, serial: &str) -> BusDevice {
    BusDevice {
        ids: Some(ids(product_id)),
        known: true,
        probe: Some(Probe {
            ids: ids(product_id),
            manufacturer: Some("Realtek".to_string()),
            product: None,
            serial: Some(serial.to_string()),
        }),
    }
}

fn unopened() -> BusDevice {
    BusDevice { ids: Some(ids(1)), known: true, probe: None }
}

fn other() -> BusDevice {
    BusDevice { ids: Some(ids(2)), known: false, probe: None }
}

fn unreadable() -> BusDevice {
    BusDevice { ids: None, known: false, probe: None }
}

#[test]
fn index_counts_radios_that_could_not_be_opened() {
    let bus = DeviceDescriptors::new(vec![
        other(),
        radio(0x2838, "A"),
        unreadable(),
        unopened(),
        radio(0x2832, "B"),
        other(),
    ]);
    let found = bus.iter();
    assert_eq!(
        found,
        vec![
            DeviceDescriptor {
                index: 0,
                vendor_id: 0x0bda,
                product_id: 0x2838,
                manufacturer: "Realtek".to_string(),
                product: String::new(),
                serial: "A".to_string(),
            },
            DeviceDescriptor {
                index: 2,
                vendor_id: 0x0bda,
                product_id: 0x2832,
                manufacturer: "Realtek".to_string(),
                product: String::new(),
                serial: "B".to_string(),
            },
        ]
    );
}

#[test]
fn info_by_index() {
    let bus = DeviceDescriptors::new(vec![unopened(), radio(1, "A"), radio(2, "B"), radio(3, "C")]);
    assert_eq!(bus.info(1).unwrap().serial, "A");
    assert_eq!(bus.info(2).unwrap().serial, "B");
    assert_eq!(bus.info(3).unwrap().product_id, 3);
    for (index, text) in [
        (0, "No device found at index 0"),
        (4, "No device found at index 4"),
        (1050, "No device found at index 1050"),
    ] {
        match bus.info(index) {
            Err(RtlsdrError::RtlsdrErr(message)) => assert_eq!(message, text),
            other => panic!("{:?}", other),
        }
    }
}

#[test]
fn scan_gives_indices_to_radios_only() {
    let mut scan = DeviceScan::new();
    assert_eq!(scan.give_index(Some(ids(1)), false), None);
    assert_eq!(scan.give_index(None, true), None);
    assert_eq!(scan.give_index(Some(ids(1)), true), Some(0));
    assert_eq!(scan.give_index(Some(ids(1)), true), Some(1));
    assert!(DeviceScan::describe(1, &None).is_none());
    assert_eq!(DeviceScan::describe(7, &radio(1, "A").probe).unwrap().index, 7);
}

#[test]
fn descriptor_takes_the_ids_that_were_read_last() {
    let mut device = radio(1, "A");
    device.ids = Some(ids(9));
    let found = DeviceDescriptors::new(vec![device]).iter();
    assert_eq!(found[0].product_id, 1);
}

#[test]
fn empty_bus() {
    assert!(DeviceDescriptors::new(Vec::new()).iter().is_empty());
}

#[test]
fn shorter_walk_finds_the_same_first() {
    let all = DeviceDescriptors::new(vec![other(), unopened(), radio(1, "A"), radio(2, "B")]);
    let some = DeviceDescriptors::new(vec![other(), unopened(), radio(1, "A")]);
    assert_eq!(all.iter()[0], some.iter()[0]);
}
