use rcli::process_genpass;

const UPPER: &[u8] = b"ABCDEFGHJKLMNPQRSTUVWXYZ";
const LOWER: &[u8] = b"abcdefghijkmnopqrstuvwxyz";
const NUMBER: &[u8] = b"123456789";
const SYMBOL: &[u8] = b"!@#$%^&*_";

#[test]
fn test_genpass_length() {
    let password = process_genpass(16, true, true, true, true);
    assert_eq!(password.len(), 16);
    let password = process_genpass(32, true, true, true, true);
    assert_eq!(password.len(), 32);
    let password = process_genpass(4, true, true, true, true);
    assert_eq!(password.len(), 4);
}

#[test]
fn test_genpass_has_one_of_each_enabled_class() {
    let password = process_genpass(16, true, true, true, true);
    assert!(password.iter().any(|b| UPPER.contains(b)));
    assert!(password.iter().any(|b| LOWER.contains(b)));
    assert!(password.iter().any(|b| NUMBER.contains(b)));
    assert!(password.iter().any(|b| SYMBOL.contains(b)));
}

#[test]
fn test_genpass_draws_only_from_enabled_classes() {
    let password = process_genpass(64, false, false, true, false);
    assert_eq!(password.len(), 64);
    assert!(password.iter().all(|b| NUMBER.contains(b)));

    let password = process_genpass(64, true, false, false, true);
    assert!(password
        .iter()
        .all(|b| UPPER.contains(b) || SYMBOL.contains(b)));
    assert!(password.iter().any(|b| UPPER.contains(b)));
    assert!(password.iter().any(|b| SYMBOL.contains(b)));
}

#[test]
fn test_genpass_empty() {
    let password = process_genpass(0, false, false, false, false);
    assert!(password.is_empty());
}
