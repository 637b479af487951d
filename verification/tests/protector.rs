use openhcl_reseal::protector::{
    parse_hardware_key_protector, validated_policy, HardwareKeyProtector,
    HardwareKeyProtectorHeader, HardwareKeyProtectorHeaderV3, HardwareKeyProtectorV3,
    HwKeyProtector, InvalidProtectorSize, KeyDerivationPolicy, KeyDerivationSvn,
};

#[test]
fn wrong_sizes_are_no_protectors() {
    for size in [0, 1, 103, 105, 127, 129] {
        assert_eq!(
            parse_hardware_key_protector(&vec![0; size]),
            Err(InvalidProtectorSize { size })
        );
    }
}

#[test]
fn legacy_fields_lie_where_they_are_expected() {
    let protector = HardwareKeyProtector {
        header: HardwareKeyProtectorHeader::new(2, 104, 0x0807_0605_0403_0201, 1),
        iv: [0x11; 16],
        ciphertext: [0x22; 32],
        hmac: [0x33; 32],
    };
    let bytes = protector.as_bytes();
    let mut expected = vec![2, 0, 0, 0, 104, 0, 0, 0, 1, 2, 3, 4, 5, 6, 7, 8, 1];
    expected.extend_from_slice(&[0; 7]);
    expected.extend_from_slice(&[0x11; 16]);
    expected.extend_from_slice(&[0x22; 32]);
    expected.extend_from_slice(&[0x33; 32]);
    assert_eq!(bytes, expected);
    let parsed = parse_hardware_key_protector(&bytes).unwrap();
    assert_eq!(parsed, HwKeyProtector::Legacy(protector));
    assert_eq!(
        validated_policy(&parsed),
        Some(KeyDerivationPolicy {
            svn: KeyDerivationSvn::Snp {
                tcb_version: 0x0807_0605_0403_0201
            },
            mix_measurement: true,
        })
    );
}

#[test]
fn sealed_headers_validate_to_their_policy() {
    for policy in [
        KeyDerivationPolicy {
            svn: KeyDerivationSvn::Snp {
                tcb_version: u64::MAX,
            },
            mix_measurement: false,
        },
        KeyDerivationPolicy {
            svn: KeyDerivationSvn::Tdx {
                tee_tcb_svn: [1; 16],
                cpu_svn: [2; 16],
            },
            mix_measurement: true,
        },
    ] {
        let protector = HardwareKeyProtectorV3 {
            header: HardwareKeyProtectorHeaderV3::new(policy),
            iv: [7; 16],
            ciphertext: [8; 32],
            hmac: [9; 32],
        };
        assert_eq!(protector.header.version, 3);
        assert_eq!(protector.header.length, 128);
        let parsed = parse_hardware_key_protector(&protector.as_bytes()).unwrap();
        assert_eq!(parsed, HwKeyProtector::V3(protector));
        assert_eq!(parsed.version(), 3);
        assert_eq!(validated_policy(&parsed), Some(policy));
    }
}
