use una_core::tools::{msat_to_sat, sat_to_msat};

#[test]
fn satoshis_become_millisatoshis() {
    assert_eq!(sat_to_msat(&21), 21_000);
    assert_eq!(sat_to_msat(&0), 0);
    assert_eq!(sat_to_msat(&18_446_744_073_709_551), 18_446_744_073_709_551_000);
}

#[test]
fn millisatoshis_lose_their_remainder() {
    assert_eq!(msat_to_sat(&21_999), 21);
    assert_eq!(msat_to_sat(&999), 0);
    assert_eq!(msat_to_sat(&u64::MAX), 18_446_744_073_709_551);
}
