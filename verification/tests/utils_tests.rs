use rustfuscator::utils::{find_package_version, generate_obf_suffix, MIN_SUFF_VALUE, MAX_SUFF_VALUE};
use rustfuscator::strutil::{u32_to_string, parse_u32};

fn get_suffix_len() -> usize {
    let len_1 = MIN_SUFF_VALUE.to_string().len();
    let len_2 = MAX_SUFF_VALUE.to_string().len();
    if len_1 != len_2 {
        panic!(
            "
            The lengths of the boundary values are no longer the same!
            Change one of the values or change the test."
        );
    }
    len_1
}

#[test]
fn check_generate_obf_suffix() {
    let suf = generate_obf_suffix();

    let expected_suff_len = get_suffix_len();

    assert_eq!(
        suf.to_string().len(),
        expected_suff_len,
        "Generated suffix must be {} digits long, received {}",
        expected_suff_len.to_string(),
        suf.to_string()
    );
    assert!(
        (MIN_SUFF_VALUE..=MAX_SUFF_VALUE).contains(&suf),
        "Numeric value must be between {} and {}, received {}",
        MIN_SUFF_VALUE,
        MAX_SUFF_VALUE,
        suf
    );
}

#[test]
fn package_version_lookup_takes_the_first_match() {
    let packages = vec![
        ("serde".to_string(), "1.0.0".to_string()),
        ("toml".to_string(), "0.8.0".to_string()),
        ("serde".to_string(), "2.0.0".to_string()),
    ];
    assert_eq!(find_package_version(&packages, "toml"), Some("0.8.0".to_string()));
    assert_eq!(find_package_version(&packages, "serde"), Some("1.0.0".to_string()));
    assert_eq!(find_package_version(&packages, "clap"), None);
    assert_eq!(find_package_version(&Vec::new(), "serde"), None);
}

#[test]
fn decimal_rendering_matches_std() {
    for n in [0u32, 7, 10, 999, 1000, 43210, u32::MAX] {
        assert_eq!(u32_to_string(n), n.to_string());
    }
}

#[test]
fn parse_u32_accepts_digits_and_rejects_the_rest() {
    assert_eq!(parse_u32("0"), Some(0));
    assert_eq!(parse_u32("1234"), Some(1234));
    assert_eq!(parse_u32("4294967295"), Some(u32::MAX));
    assert_eq!(parse_u32("4294967296"), None);
    assert_eq!(parse_u32(""), None);
    assert_eq!(parse_u32("12a4"), None);
    assert_eq!(parse_u32("-3"), None);
}
