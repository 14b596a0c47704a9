use filament_dryer::temp_sensor::checksum;
use filament_dryer::temp_sensor::SHTAddr;
use filament_dryer::temp_sensor::TempSensor;

#[test]
fn checksum_known_vectors() {
    assert_eq!(checksum(&[0x19, 0x2E]), 0xB5);
    // The sensor datasheet's worked example.
    assert_eq!(checksum(&[0xBE, 0xEF]), 0x92);
    assert_eq!(checksum(&[]), 0xFF);
    assert_eq!(checksum(&[0xAB]), 0xBA);
    assert_eq!(checksum(&[0x00, 0x00]), 0x81);
    assert_eq!(checksum(&[0xFF, 0xFF]), 0xAC);
}

#[test]
fn crc_validates_own_checksum() {
    let data = [0x19u8, 0x2E];
    assert!(TempSensor::crc(&data, checksum(&data)));
    let more = [0x61u8, 0x29, 0x00, 0x7F];
    assert!(TempSensor::crc(&more, checksum(&more)));
}

#[test]
fn crc_rejects_wrong_checksum() {
    assert!(!TempSensor::crc(&[0x19, 0x2E], 0xB4));
    assert!(!TempSensor::crc(&[0x19, 0x2E], 0x00));
}

#[test]
fn crc_detects_single_bit_corruption() {
    let data = [0x19u8, 0x2E];
    let good = checksum(&data);
    // Flip each bit of each data byte.
    for byte in 0..2 {
        for bit in 0..8 {
            let mut corrupted = data;
            corrupted[byte] ^= 1 << bit;
            assert!(!TempSensor::crc(&corrupted, good));
        }
    }
    // Flip each bit of the checksum byte.
    for bit in 0..8 {
        assert!(!TempSensor::crc(&data, good ^ (1 << bit)));
    }
}

#[test]
fn decode_extracts_words_and_validates() {
    // 0x192E reads 6446, checksum 0xB5; 0x6129 reads 24873, checksum 0x2E.
    let buf = [0x19u8, 0x2E, 0xB5, 0x61, 0x29, 0x2E];
    let r = TempSensor::decode(&buf);
    assert_eq!(r.temp_raw, 0x192E);
    assert_eq!(r.hum_raw, 0x6129);
    assert!(r.temp_crc_ok);
    assert!(r.hum_crc_ok);
}

#[test]
fn decode_keeps_values_on_bad_checksum() {
    // Corrupted checksum bytes: the flags drop but the words still decode,
    // since a mismatch is deliberately non-fatal.
    let buf = [0x19u8, 0x2E, 0xB4, 0x61, 0x29, 0x2F];
    let r = TempSensor::decode(&buf);
    assert_eq!(r.temp_raw, 0x192E);
    assert_eq!(r.hum_raw, 0x6129);
    assert!(!r.temp_crc_ok);
    assert!(!r.hum_crc_ok);
}

#[test]
fn measure_command_bytes() {
    assert_eq!(TempSensor::measure_command(), vec![0x24u8, 0x00]);
}

#[test]
fn sensor_addresses() {
    assert_eq!(TempSensor::new(SHTAddr::Default).addr, 0x44);
    assert_eq!(TempSensor::new(SHTAddr::Alternate).addr, 0x45);
}
