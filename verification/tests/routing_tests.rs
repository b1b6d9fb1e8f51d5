use ttbench::calculate_bucket_id;

#[test]
fn bucket_id_is_deterministic_and_idempotent() {
    let a = calculate_bucket_id("account-17", 3000);
    let b = calculate_bucket_id("account-17", 3000);
    let c = calculate_bucket_id("account-17", 3000);
    assert_eq!(a, b);
    assert_eq!(b, c);
}

#[test]
fn bucket_id_stays_in_range() {
    let keys = ["", "0", "1", "12345", "hello", "account-17", "e4b3", "a-very-long-key-string"];
    for key in keys {
        for count in [1u32, 2, 3, 100, 3000, 30000] {
            let bucket = calculate_bucket_id(key, count);
            assert!(1 <= bucket && bucket <= count);
        }
    }
}

#[test]
fn bucket_id_golden_value() {
    // The checksum of "12345" under the router's variant is 0x340ac5e3,
    // so the bucket over 3000 is 873121251 % 3000 + 1.
    assert_eq!(calculate_bucket_id("12345", 3000), 1252);
}

#[test]
fn bucket_id_more_golden_values() {
    assert_eq!(calculate_bucket_id("", 3000), 2296);
    assert_eq!(calculate_bucket_id("0", 30000), 17087);
    assert_eq!(calculate_bucket_id("hello", 100), 26);
}

#[test]
fn bucket_id_single_bucket() {
    assert_eq!(calculate_bucket_id("anything", 1), 1);
    assert_eq!(calculate_bucket_id("", 1), 1);
}
