use ds_driver::{
    DsData, Error, Peripheral, PeripheralClockControl, DS_C_LEN, DS_IV_LEN, MAX_RSA_LENGTH,
};

fn payload() -> [u8; DS_C_LEN] {
    let mut c = [0u8; DS_C_LEN];
    for (i, byte) in c.iter_mut().enumerate() {
        *byte = (i % 251) as u8;
    }
    c
}

#[test]
fn block_sizes_are_fixed() {
    assert_eq!(DS_IV_LEN, 16);
    assert_eq!(DS_C_LEN, 1584);
    assert_eq!(DS_C_LEN * 8, 12672);
    assert_eq!(MAX_RSA_LENGTH, 127);
}

#[test]
fn block_keeps_its_parts() {
    let iv = [7u8; DS_IV_LEN];
    let c = payload();
    let data = DsData::new(63, iv, c);
    assert_eq!(data.rsa_length(), 63);
    assert_eq!(data.iv(), &iv);
    assert_eq!(data.c(), &c);
    assert_eq!(data.c()[250], 250);
    assert_eq!(data.c()[251], 0);
}

#[test]
fn length_hint_range() {
    assert!(DsData::new(0, [0; DS_IV_LEN], payload()).is_well_formed());
    assert!(DsData::new(127, [0; DS_IV_LEN], payload()).is_well_formed());
    assert!(!DsData::new(128, [0; DS_IV_LEN], payload()).is_well_formed());
    assert!(!DsData::new(usize::MAX, [0; DS_IV_LEN], payload()).is_well_formed());
}

#[test]
fn operand_bits_counts_32_per_word() {
    assert_eq!(DsData::new(0, [0; DS_IV_LEN], payload()).operand_bits(), 32);
    assert_eq!(DsData::new(63, [0; DS_IV_LEN], payload()).operand_bits(), 2048);
    assert_eq!(DsData::new(95, [0; DS_IV_LEN], payload()).operand_bits(), 3072);
    assert_eq!(DsData::new(127, [0; DS_IV_LEN], payload()).operand_bits(), 4096);
}

#[test]
fn keyed_hash_error_converts_into_hmac_variant() {
    let e: Error<u8> = Error::from(9u8);
    assert_eq!(e, Error::Hmac(9));
    let e: Error<&str> = "purpose mismatch".into();
    assert_eq!(e, Error::Hmac("purpose mismatch"));
}

#[test]
fn clock_requests_are_kept_in_order() {
    let mut clocks = PeripheralClockControl::new();
    assert!(clocks.requested().is_empty());
    clocks.enable(Peripheral::Ds);
    clocks.enable(Peripheral::Sha);
    clocks.enable(Peripheral::Ds);
    assert_eq!(
        clocks.requested(),
        &vec![Peripheral::Ds, Peripheral::Sha, Peripheral::Ds]
    );
}
