use garage_backup_sensor::a121::rss::{AccHAL, HalRecord, MAX_SPI_TRANSFER_SIZE};

#[test]
fn hal_without_transfer_is_refused() {
    assert!(AccHAL::new(false, false, false).is_none());
    assert!(AccHAL::new(false, true, true).is_none());
}

#[test]
fn hal_record_fixed_parts() {
    let hal = AccHAL::new(true, false, false).unwrap();
    let record = hal.register();
    assert_eq!(
        record,
        HalRecord {
            max_spi_transfer_size: 65535,
            mem_alloc: true,
            mem_free: true,
            transfer: true,
            log: false,
            transfer16: false,
        }
    );
    assert_eq!(MAX_SPI_TRANSFER_SIZE, 65535);
}

#[test]
fn hal_record_optional_callbacks() {
    let record = AccHAL::new(true, true, true).unwrap().register();
    assert!(record.transfer16);
    assert!(record.log);
    let record = AccHAL::new(true, true, false).unwrap().register();
    assert!(record.transfer16);
    assert!(!record.log);
}
