use feed_me_bits::DeviceManager;
use feed_me_bits::ProbeOutcome;
use feed_me_bits::QrngDevice;
use feed_me_bits::QrngError;
use feed_me_bits::TransferOutcome;

fn target_device(handle: u64) -> QrngDevice {
    QrngDevice::new(handle, 0x0403, 0x6001)
}

#[test]
fn test_device_manager() {
    let mut manager = DeviceManager::new();
    let devices = vec![target_device(1), target_device(2)];

    // Add all devices to the manager.
    let mut serials = Vec::new();
    for (i, device) in devices.into_iter().enumerate() {
        let serial = manager
            .add_device(device, Ok(format!("QRNG-{}", i)))
            .expect("Failed to add device");
        serials.push(serial);
    }

    // List devices.
    let device_list = manager.list_devices();
    assert_eq!(device_list.len(), serials.len());
    for serial in &serials {
        assert!(device_list.contains(serial));
    }

    // Initialize each device.
    for serial in &serials {
        manager
            .initialize_device(serial, Ok(()))
            .expect("Failed to initialize device");
    }

    // Read entropy from each device.
    for serial in &serials {
        let entropy = manager
            .read_entropy(serial, 32, TransferOutcome::Data(vec![7u8; 32]))
            .expect("Failed to read entropy");
        assert_eq!(entropy.len(), 32);
    }

    // Larger reads against every device.
    for serial in &serials {
        let entropy = manager
            .read_entropy(serial, 128, TransferOutcome::Data(vec![9u8; 128]))
            .expect("Failed to read entropy");
        assert_eq!(entropy.len(), 128);
    }

    // Status from each device.
    for serial in &serials {
        let status = manager
            .get_device_status(serial, ProbeOutcome::Sample(40, 33))
            .expect("Failed to get device status");
        assert!(status.initialized);
    }

    // Remove the devices.
    for serial in &serials {
        manager.remove_device(serial).expect("Failed to remove device");
    }

    // Verify the devices are gone.
    let device_list = manager.list_devices();
    assert!(device_list.is_empty());
}

#[test]
fn test_device_manager_error_handling() {
    let mut manager = DeviceManager::new();
    let missing = String::from("non-existent");

    let result = manager.get_device(&missing);
    assert!(result.is_err());
    assert!(matches!(result.unwrap_err(), QrngError::DeviceNotFound(_)));

    let result = manager.remove_device(&missing);
    assert!(result.is_err());
    assert!(matches!(result.unwrap_err(), QrngError::DeviceNotFound(_)));

    let result = manager.initialize_device(&missing, Ok(()));
    assert!(result.is_err());
    assert!(matches!(result.unwrap_err(), QrngError::DeviceNotFound(_)));

    let result = manager.read_entropy(&missing, 32, TransferOutcome::Data(vec![0u8; 32]));
    assert!(result.is_err());
    assert!(matches!(result.unwrap_err(), QrngError::DeviceNotFound(_)));

    let result = manager.get_device_status(&missing, ProbeOutcome::ProbeFailed);
    assert!(result.is_err());
    assert!(matches!(result.unwrap_err(), QrngError::DeviceNotFound(_)));
}

#[test]
fn test_add_get_round_trip() {
    let mut manager = DeviceManager::new();
    let device = target_device(11);
    let serial = manager
        .add_device(device, Ok(String::from("SN-0042")))
        .expect("Failed to add device");
    assert_eq!(serial, "SN-0042");

    let found = manager.get_device(&serial).expect("Device should be registered");
    assert_eq!(found.handle(), 11);
    assert_eq!(found.vendor_id(), 0x0403);
    assert_eq!(found.product_id(), 0x6001);

    manager.remove_device(&serial).expect("Failed to remove device");
    let result = manager.get_device(&serial);
    assert!(matches!(result.unwrap_err(), QrngError::DeviceNotFound(_)));
}

#[test]
fn test_add_device_overwrites_same_serial() {
    let mut manager = DeviceManager::new();
    let serial = String::from("SN-DUP");
    manager
        .add_device(target_device(1), Ok(serial.clone()))
        .expect("Failed to add device");
    manager
        .add_device(target_device(2), Ok(serial.clone()))
        .expect("Failed to add device");

    let device_list = manager.list_devices();
    assert_eq!(device_list.len(), 1);
    let found = manager.get_device(&serial).expect("Device should be registered");
    assert_eq!(found.handle(), 2);
}

#[test]
fn test_add_device_serial_read_failure() {
    let mut manager = DeviceManager::new();
    let result = manager.add_device(target_device(1), Err(String::from("pipe error")));
    match result {
        Err(QrngError::UsbError(msg)) => assert_eq!(msg, "pipe error"),
        other => panic!("expected UsbError, got {:?}", other),
    }
    assert!(manager.list_devices().is_empty());
}

#[test]
fn test_initialize_failure_leaves_device_unarmed() {
    let mut manager = DeviceManager::new();
    let serial = manager
        .add_device(target_device(5), Ok(String::from("SN-5")))
        .expect("Failed to add device");

    let result = manager.initialize_device(&serial, Err(String::from("reset failed")));
    match result {
        Err(QrngError::UsbError(msg)) => assert_eq!(msg, "reset failed"),
        other => panic!("expected UsbError, got {:?}", other),
    }

    // The device stayed uninitialized: reads refuse, status reports it.
    let result = manager.read_entropy(&serial, 32, TransferOutcome::Data(vec![0u8; 32]));
    assert!(matches!(result.unwrap_err(), QrngError::DeviceNotInitialized));
    let status = manager
        .get_device_status(&serial, ProbeOutcome::ProbeFailed)
        .expect("Status is best-effort");
    assert!(!status.initialized);
}
