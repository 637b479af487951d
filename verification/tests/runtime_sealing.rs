use aes::cipher::{BlockDecryptMut, BlockEncryptMut, KeyIvInit};
use hmac::{Hmac, Mac};
use openhcl_reseal::protector::{
    parse_hardware_key_protector, validated_policy, HardwareKeyProtector,
    HardwareKeyProtectorHeader, HardwareKeyProtectorV3, HwKeyProtector, KeyDerivationPolicy,
    KeyDerivationSvn, TeeType, HW_KEY_PROTECTOR_HMAC_OFFSET, HW_KEY_PROTECTOR_SIZE,
    HW_KEY_PROTECTOR_V3_HMAC_OFFSET, HW_KEY_PROTECTOR_V3_SIZE, HW_KEY_PROTECTOR_VERSION_1,
    HW_KEY_PROTECTOR_VERSION_2, HW_KEY_PROTECTOR_VERSION_3,
};
use openhcl_reseal::runtime_sealing::{
    self, Error, ErrorInner, HardwareSealingPolicy, MatchStep, SealedDek, Tee, UnsealError,
};
use std::cell::RefCell;
use std::fmt;

const DEK: [u8; 32] = [0xab; 32];
const SNP_SVN: KeyDerivationSvn = KeyDerivationSvn::Snp { tcb_version: 7 };
const TDX_SVN: KeyDerivationSvn = KeyDerivationSvn::Tdx {
    tee_tcb_svn: [3; 16],
    cpu_svn: [5; 16],
};

#[derive(Debug)]
enum TeeError {
    AllZeroKey,
    KeyDerivationSvnMismatch,
}

#[derive(Debug)]
enum HardwareDerivedKeysError {
    InitializeHardwareSecret(TeeError),
}

enum Source {
    Tee(TeeError),
    Keys(HardwareDerivedKeysError),
}

impl fmt::Debug for Source {
    fn fmt(&self, f: &mut fmt::Formatter<'_>) -> fmt::Result {
        match self {
            Source::Tee(error) => error.fmt(f),
            Source::Keys(error) => error.fmt(f),
        }
    }
}

struct HardwareState {
    secret: [u8; 32],
    report_svn: Option<KeyDerivationSvn>,
    unavailable_svn: Option<KeyDerivationSvn>,
    fail_report: bool,
    fail_derivation: bool,
    report_calls: usize,
    derivations: Vec<KeyDerivationPolicy>,
}

struct MutableTee {
    tee_type: TeeType,
    supports_derivation: bool,
    state: RefCell<HardwareState>,
}

impl MutableTee {
    fn new(svn: KeyDerivationSvn) -> Self {
        Self {
            tee_type: match svn {
                KeyDerivationSvn::Snp { .. } => TeeType::Snp,
                KeyDerivationSvn::Tdx { .. } => TeeType::Tdx,
            },
            supports_derivation: true,
            state: RefCell::new(HardwareState {
                secret: [0x42; 32],
                report_svn: Some(svn),
                unavailable_svn: None,
                fail_report: false,
                fail_derivation: false,
                report_calls: 0,
                derivations: Vec::new(),
            }),
        }
    }

    fn tee(&self) -> Tee {
        Tee {
            tee_type: self.tee_type,
            supports_derived_key: self.supports_derivation,
        }
    }

    fn get_attestation_report(
        &self,
        report_data: &[u8; 64],
    ) -> Result<Option<KeyDerivationSvn>, TeeError> {
        assert_eq!(report_data, &[0; 64]);
        let mut state = self.state.borrow_mut();
        state.report_calls += 1;
        if state.fail_report {
            return Err(TeeError::AllZeroKey);
        }
        Ok(state.report_svn)
    }

    fn get_derived_key(&self, policy: KeyDerivationPolicy) -> Result<[u8; 32], TeeError> {
        let mut state = self.state.borrow_mut();
        state.derivations.push(policy);
        if !runtime_sealing::svn_matches_tee(policy.svn, self.tee_type) {
            return Err(TeeError::KeyDerivationSvnMismatch);
        }
        if state.fail_derivation
            || state
                .unavailable_svn
                .is_some_and(|svn| svn_bytes(svn) == svn_bytes(policy.svn))
        {
            return Err(TeeError::AllZeroKey);
        }
        let mut context = svn_bytes(policy.svn).to_vec();
        context.push(u8::from(policy.mix_measurement));
        // Model independently changing hardware identity with unchanged SVN and
        // measurement. Do not derive the secret solely from the requested SVN.
        Ok(hmac_sha_256(&state.secret, &context))
    }
}

fn svn_bytes(svn: KeyDerivationSvn) -> [u8; 33] {
    let mut bytes = [0; 33];
    match svn {
        KeyDerivationSvn::Snp { tcb_version } => {
            bytes[1..9].copy_from_slice(&tcb_version.to_le_bytes());
        }
        KeyDerivationSvn::Tdx {
            tee_tcb_svn,
            cpu_svn,
        } => {
            bytes[0] = 1;
            bytes[1..17].copy_from_slice(&tee_tcb_svn);
            bytes[17..].copy_from_slice(&cpu_svn);
        }
    }
    bytes
}

#[derive(Debug)]
enum TpmVersion {
    V138,
}

/// The configuration that sealing keys are bound to, by its `Debug` text.
#[derive(Debug)]
#[allow(dead_code)]
struct Config {
    current_time: Option<i64>,
    root_cert_thumbprint: String,
    console_enabled: bool,
    interactive_console_enabled: bool,
    secure_boot: bool,
    tpm_enabled: bool,
    tpm_version: TpmVersion,
    tpm_persisted: bool,
    hardware_sealing_policy: HardwareSealingPolicy,
    filtered_vpci_devices_allowed: bool,
    vm_unique_id: String,
    vmgs_provisioner: Option<String>,
}

fn config(hardware_sealing_policy: HardwareSealingPolicy) -> Config {
    Config {
        current_time: None,
        root_cert_thumbprint: String::new(),
        console_enabled: false,
        interactive_console_enabled: false,
        secure_boot: false,
        tpm_enabled: false,
        tpm_version: TpmVersion::V138,
        tpm_persisted: false,
        hardware_sealing_policy,
        filtered_vpci_devices_allowed: true,
        vm_unique_id: String::new(),
        vmgs_provisioner: None,
    }
}

fn hmac_sha_256(key: &[u8], data: &[u8]) -> [u8; 32] {
    let mut mac = Hmac::<sha2::Sha256>::new_from_slice(key).unwrap();
    mac.update(data);
    mac.finalize().into_bytes().into()
}

/// An AES key and an HMAC key, bound to the whole configuration.
struct Keys {
    aes: [u8; 32],
    hmac: [u8; 32],
}

fn expand(secret: &[u8; 32], config: &Config) -> Keys {
    let block = |counter: u32| {
        let mut input = counter.to_be_bytes().to_vec();
        input.extend_from_slice(b"ISOHWKEY");
        input.push(0);
        input.extend_from_slice(format!("{config:?}").as_bytes());
        input.extend_from_slice(&512u32.to_be_bytes());
        hmac_sha_256(secret, &input)
    };
    Keys {
        aes: block(1),
        hmac: block(2),
    }
}

fn derive(tee: &MutableTee, config: &Config, policy: KeyDerivationPolicy) -> Result<Keys, Source> {
    let secret = tee
        .get_derived_key(policy)
        .map_err(|err| Source::Keys(HardwareDerivedKeysError::InitializeHardwareSecret(err)))?;
    Ok(expand(&secret, config))
}

fn unseal(keys: &Keys, protector: &HwKeyProtector) -> Result<[u8; 32], UnsealError<Source>> {
    let (bytes, hmac_offset, iv, ciphertext, hmac) = match protector {
        HwKeyProtector::Legacy(p) => (
            p.as_bytes(),
            HW_KEY_PROTECTOR_HMAC_OFFSET,
            p.iv,
            p.ciphertext,
            p.hmac,
        ),
        HwKeyProtector::V3(p) => (
            p.as_bytes(),
            HW_KEY_PROTECTOR_V3_HMAC_OFFSET,
            p.iv,
            p.ciphertext,
            p.hmac,
        ),
    };
    if hmac_sha_256(&keys.hmac, &bytes[..hmac_offset]) != hmac {
        return Err(UnsealError::HmacVerificationFailed);
    }
    let mut key = ciphertext;
    let mut cipher = cbc::Decryptor::<aes::Aes256>::new(&keys.aes.into(), &iv.into());
    for block in key.chunks_mut(16) {
        cipher.decrypt_block_mut(aes::Block::from_mut_slice(block));
    }
    Ok(key)
}

fn create_protector(
    tee: &MutableTee,
    config: &Config,
    dek: &[u8; 32],
) -> Result<Vec<u8>, Error<Source>> {
    let report =
        runtime_sealing::create_protector(tee.tee(), config.hardware_sealing_policy, dek)?;
    let svn = tee
        .get_attestation_report(&report.report_data)
        .map_err(Source::Tee);
    let derivation = report.reported(svn)?;
    let (keys, derived) = match derive(tee, config, derivation.policy) {
        Ok(keys) => (Some(keys), Ok(())),
        Err(err) => (None, Err(err)),
    };
    let seal = derivation.derived(derived)?;
    let keys = keys.unwrap();

    let mut iv = [0; 16];
    getrandom::fill(&mut iv).unwrap();
    let mut ciphertext = seal.dek;
    let mut cipher = cbc::Encryptor::<aes::Aes256>::new(&keys.aes.into(), &iv.into());
    for block in ciphertext.chunks_mut(16) {
        cipher.encrypt_block_mut(aes::Block::from_mut_slice(block));
    }
    let unauthenticated = HardwareKeyProtectorV3 {
        header: seal.header,
        iv,
        ciphertext,
        hmac: [0; 32],
    };
    let hmac = hmac_sha_256(
        &keys.hmac,
        &unauthenticated.as_bytes()[..HW_KEY_PROTECTOR_V3_HMAC_OFFSET],
    );
    seal.sealed(Ok(SealedDek {
        iv,
        ciphertext,
        hmac,
    }))
}

fn protector_matches(
    tee: &MutableTee,
    config: &Config,
    protector_bytes: &[u8],
    dek: &[u8; 32],
) -> Result<bool, Error<Source>> {
    let derivation = match runtime_sealing::protector_matches(
        tee.tee(),
        config.hardware_sealing_policy,
        protector_bytes,
        dek,
    ) {
        MatchStep::Done(answer) => return answer,
        MatchStep::Derive(derivation) => derivation,
    };
    let (keys, derived) = match derive(tee, config, derivation.policy) {
        Ok(keys) => (Some(keys), Ok(())),
        Err(err) => (None, Err(err)),
    };
    let unsealing = derivation.derived(derived)?;
    let key = unseal(&keys.unwrap(), &unsealing.protector);
    unsealing.unsealed(key)
}

fn migration_reseals_unchanged_dek(svn: KeyDerivationSvn, policy: HardwareSealingPolicy) {
    let tee = MutableTee::new(svn);
    let config = config(policy);
    let source = create_protector(&tee, &config, &DEK).unwrap();
    assert!(protector_matches(&tee, &config, &source, &DEK).unwrap());
    assert!(!protector_matches(&tee, &config, &source, &[0xcd; 32]).unwrap());

    // Same object, same SVN, same policy, but a new destination hardware secret.
    tee.state.borrow_mut().secret = [0x73; 32];
    assert!(!protector_matches(&tee, &config, &source, &DEK).unwrap());
    let destination = create_protector(&tee, &config, &DEK).unwrap();
    assert!(protector_matches(&tee, &config, &destination, &DEK).unwrap());
    assert!(!protector_matches(&tee, &config, &destination, &[0xcd; 32]).unwrap());
    let protector = parse_hardware_key_protector(&destination).unwrap();
    assert_eq!(protector.version(), HW_KEY_PROTECTOR_VERSION_3);
    assert_eq!(destination.len(), HW_KEY_PROTECTOR_V3_SIZE);
    assert_eq!(
        svn_bytes(validated_policy(&protector).unwrap().svn),
        svn_bytes(svn)
    );

    tee.state.borrow_mut().secret = [0x42; 32];
    assert!(!protector_matches(&tee, &config, &destination, &DEK).unwrap());
    assert!(protector_matches(&tee, &config, &source, &DEK).unwrap());
}

#[test]
fn snp_hash_migration_reseals_unchanged_dek() {
    migration_reseals_unchanged_dek(SNP_SVN, HardwareSealingPolicy::Hash);
}

#[test]
fn snp_signer_migration_reseals_unchanged_dek() {
    migration_reseals_unchanged_dek(SNP_SVN, HardwareSealingPolicy::Signer);
}

#[test]
fn tdx_hash_migration_reseals_unchanged_dek() {
    migration_reseals_unchanged_dek(TDX_SVN, HardwareSealingPolicy::Hash);
}

#[test]
fn verification_rederives_stored_svn_and_creation_fetches_current_svn() {
    for (source_svn, destination_svn) in [
        (SNP_SVN, KeyDerivationSvn::Snp { tcb_version: 9 }),
        (
            TDX_SVN,
            KeyDerivationSvn::Tdx {
                tee_tcb_svn: [4; 16],
                cpu_svn: [6; 16],
            },
        ),
    ] {
        let tee = MutableTee::new(source_svn);
        let config = config(HardwareSealingPolicy::Hash);
        let source = create_protector(&tee, &config, &DEK).unwrap();
        {
            let mut state = tee.state.borrow_mut();
            state.report_svn = Some(destination_svn);
            state.fail_report = true;
        }
        for _ in 0..3 {
            assert!(protector_matches(&tee, &config, &source, &DEK).unwrap());
        }
        {
            let state = tee.state.borrow();
            assert_eq!(state.report_calls, 1);
            assert_eq!(state.derivations.len(), 4);
            assert!(state.derivations.iter().all(|policy| {
                svn_bytes(policy.svn) == svn_bytes(source_svn) && policy.mix_measurement
            }));
        }
        assert!(matches!(
            create_protector(&tee, &config, &DEK),
            Err(Error(ErrorInner::Report(_)))
        ));
        tee.state.borrow_mut().fail_report = false;
        let destination = create_protector(&tee, &config, &DEK).unwrap();
        let protector = parse_hardware_key_protector(&destination).unwrap();
        assert_eq!(
            svn_bytes(validated_policy(&protector).unwrap().svn),
            svn_bytes(destination_svn)
        );
        assert!(protector_matches(&tee, &config, &destination, &DEK).unwrap());
        assert_eq!(tee.state.borrow().report_calls, 3);
    }
}

#[test]
fn unavailable_source_svn_is_error_but_current_svn_can_reseal() {
    for (source_svn, destination_svn) in [
        (SNP_SVN, KeyDerivationSvn::Snp { tcb_version: 6 }),
        (
            TDX_SVN,
            KeyDerivationSvn::Tdx {
                tee_tcb_svn: [2; 16],
                cpu_svn: [4; 16],
            },
        ),
    ] {
        let tee = MutableTee::new(source_svn);
        let config = config(HardwareSealingPolicy::Hash);
        let source = create_protector(&tee, &config, &DEK).unwrap();
        {
            let mut state = tee.state.borrow_mut();
            state.secret = [0x73; 32];
            state.report_svn = Some(destination_svn);
            state.unavailable_svn = Some(source_svn);
        }
        assert!(matches!(
            protector_matches(&tee, &config, &source, &DEK),
            Err(Error(ErrorInner::Derive(Source::Keys(
                HardwareDerivedKeysError::InitializeHardwareSecret(_)
            ))))
        ));
        let destination = create_protector(&tee, &config, &DEK).unwrap();
        assert!(protector_matches(&tee, &config, &destination, &DEK).unwrap());
    }
}

#[test]
fn missing_or_incompatible_report_svn_is_error() {
    for svn in [SNP_SVN, TDX_SVN] {
        let tee = MutableTee::new(svn);
        let config = config(HardwareSealingPolicy::Hash);
        tee.state.borrow_mut().report_svn = None;
        assert!(matches!(
            create_protector(&tee, &config, &DEK),
            Err(Error(ErrorInner::MissingKeyDerivationSvn))
        ));
        tee.state.borrow_mut().report_svn = Some(match svn {
            KeyDerivationSvn::Snp { .. } => TDX_SVN,
            KeyDerivationSvn::Tdx { .. } => SNP_SVN,
        });
        assert!(matches!(
            create_protector(&tee, &config, &DEK),
            Err(Error(ErrorInner::ReportSvnMismatch))
        ));
        assert!(tee.state.borrow().derivations.is_empty());
    }
}

#[test]
fn transient_derivation_failure_is_error_on_both_paths() {
    let tee = MutableTee::new(SNP_SVN);
    let config = config(HardwareSealingPolicy::Hash);
    let protector = create_protector(&tee, &config, &DEK).unwrap();
    tee.state.borrow_mut().fail_derivation = true;
    assert!(matches!(
        protector_matches(&tee, &config, &protector, &DEK),
        Err(Error(ErrorInner::Derive(_)))
    ));
    assert!(matches!(
        create_protector(&tee, &config, &DEK),
        Err(Error(ErrorInner::Derive(_)))
    ));
    tee.state.borrow_mut().fail_derivation = false;
    assert!(protector_matches(&tee, &config, &protector, &DEK).unwrap());
}

#[test]
fn unsupported_policy_and_tee_are_rejected_without_hardware_calls() {
    let mut cases = Vec::new();
    for svn in [SNP_SVN, TDX_SVN] {
        cases.push((MutableTee::new(svn), HardwareSealingPolicy::Disabled));
        let mut tee = MutableTee::new(svn);
        tee.supports_derivation = false;
        cases.push((tee, HardwareSealingPolicy::Hash));
    }
    cases.push((MutableTee::new(TDX_SVN), HardwareSealingPolicy::Signer));
    for tee_type in [TeeType::Cca, TeeType::Vbs] {
        let mut tee = MutableTee::new(SNP_SVN);
        tee.tee_type = tee_type;
        cases.push((tee, HardwareSealingPolicy::Hash));
    }
    for (tee, policy) in cases {
        let config = config(policy);
        let check_error = |err: Error<Source>| {
            assert!(matches!(
                err,
                Error(
                    ErrorInner::DisabledPolicy
                        | ErrorInner::TdxSignerPolicyUnsupported
                        | ErrorInner::UnsupportedTee
                )
            ));
        };
        check_error(create_protector(&tee, &config, &DEK).unwrap_err());
        check_error(protector_matches(&tee, &config, &[], &DEK).unwrap_err());
        let state = tee.state.borrow();
        assert_eq!(state.report_calls, 0);
        assert!(state.derivations.is_empty());
    }
}

fn v3(bytes: &[u8]) -> HardwareKeyProtectorV3 {
    match parse_hardware_key_protector(bytes).unwrap() {
        HwKeyProtector::V3(p) => p,
        HwKeyProtector::Legacy(_) => panic!("not a version 3 protector"),
    }
}

#[test]
fn malformed_and_unknown_v3_formats_do_not_reach_hardware() {
    for svn in [SNP_SVN, TDX_SVN] {
        let tee = MutableTee::new(svn);
        let config = config(HardwareSealingPolicy::Hash);
        let valid = create_protector(&tee, &config, &DEK).unwrap();
        let mut invalid = vec![Vec::new(), vec![0; HW_KEY_PROTECTOR_SIZE]];
        for size in 1..valid.len() {
            invalid.push(valid[..size].to_vec());
        }
        let mut oversized = valid.clone();
        oversized.push(0);
        invalid.push(oversized);
        for version in [0, 1, 2, 4, u32::MAX] {
            let mut p = v3(&valid);
            p.header.version = version;
            invalid.push(p.as_bytes());
        }
        for length in [0, 1, HW_KEY_PROTECTOR_SIZE as u32, u32::MAX] {
            let mut p = v3(&valid);
            p.header.length = length;
            invalid.push(p.as_bytes());
        }
        let mut p = v3(&valid);
        p.header.tee_type = u32::MAX;
        invalid.push(p.as_bytes());
        let mut p = v3(&valid);
        p.header.mix_measurement = 2;
        invalid.push(p.as_bytes());
        let mut p = v3(&valid);
        p.header._reserved[0] = 1;
        invalid.push(p.as_bytes());
        if matches!(svn, KeyDerivationSvn::Snp { .. }) {
            let mut p = v3(&valid);
            p.header.svn[8] = 1;
            invalid.push(p.as_bytes());
        }
        for bytes in invalid {
            assert!(!protector_matches(&tee, &config, &bytes, &DEK).unwrap());
        }
        assert_eq!(tee.state.borrow().derivations.len(), 1);
    }
}

#[test]
fn corrupted_authenticated_bytes_are_mismatches() {
    for svn in [SNP_SVN, TDX_SVN] {
        let tee = MutableTee::new(svn);
        let config = config(HardwareSealingPolicy::Hash);
        let valid = create_protector(&tee, &config, &DEK).unwrap();
        // The SVN, the IV, the ciphertext and the HMAC.
        for offset in [16, 48, 64, 96] {
            let mut corrupted = valid.clone();
            corrupted[offset] ^= 1;
            assert!(!protector_matches(&tee, &config, &corrupted, &DEK).unwrap());
        }
        assert_eq!(tee.state.borrow().derivations.len(), 5);
    }
}

#[test]
fn stored_tee_or_policy_mismatch_does_not_derive() {
    let snp = MutableTee::new(SNP_SVN);
    let tdx = MutableTee::new(TDX_SVN);
    let hash = config(HardwareSealingPolicy::Hash);
    let signer = config(HardwareSealingPolicy::Signer);
    let snp_hash = create_protector(&snp, &hash, &DEK).unwrap();
    let snp_signer = create_protector(&snp, &signer, &DEK).unwrap();
    let tdx_hash = create_protector(&tdx, &hash, &DEK).unwrap();
    assert!(!protector_matches(&snp, &hash, &tdx_hash, &DEK).unwrap());
    assert!(!protector_matches(&tdx, &hash, &snp_hash, &DEK).unwrap());
    assert!(!protector_matches(&snp, &hash, &snp_signer, &DEK).unwrap());
    assert!(!protector_matches(&snp, &signer, &snp_hash, &DEK).unwrap());
    assert_eq!(snp.state.borrow().derivations.len(), 2);
    assert_eq!(tdx.state.borrow().derivations.len(), 1);
}

#[test]
fn changed_vm_configuration_is_mismatch() {
    let tee = MutableTee::new(SNP_SVN);
    let mut config = config(HardwareSealingPolicy::Hash);
    let protector = create_protector(&tee, &config, &DEK).unwrap();
    config.secure_boot = !config.secure_boot;
    assert!(!protector_matches(&tee, &config, &protector, &DEK).unwrap());
}

/// Build a legacy fixture using the same keys and ciphertext as v3, but an
/// independently authenticated v2 header. Production only creates v3 blobs.
fn legacy_protector(tee: &MutableTee, config: &Config) -> HardwareKeyProtector {
    let bytes = create_protector(tee, config, &DEK).unwrap();
    let v3 = v3(&bytes);
    let policy = validated_policy(&parse_hardware_key_protector(&bytes).unwrap()).unwrap();
    let KeyDerivationSvn::Snp { tcb_version } = policy.svn else {
        panic!("legacy protectors are SNP-only");
    };
    let keys = expand(&tee.get_derived_key(policy).unwrap(), config);
    let mut legacy = HardwareKeyProtector {
        header: HardwareKeyProtectorHeader::new(
            HW_KEY_PROTECTOR_VERSION_2,
            HW_KEY_PROTECTOR_SIZE as u32,
            tcb_version,
            u8::from(policy.mix_measurement),
        ),
        iv: v3.iv,
        ciphertext: v3.ciphertext,
        hmac: [0; 32],
    };
    legacy.hmac = hmac_sha_256(
        &keys.hmac,
        &legacy.as_bytes()[..HW_KEY_PROTECTOR_HMAC_OFFSET],
    );
    legacy
}

#[test]
fn legacy_v2_snp_verifies_and_recreates_as_v3() {
    for policy in [HardwareSealingPolicy::Hash, HardwareSealingPolicy::Signer] {
        let tee = MutableTee::new(SNP_SVN);
        let config = config(policy);
        let mut legacy = legacy_protector(&tee, &config);
        assert!(protector_matches(&tee, &config, &legacy.as_bytes(), &DEK).unwrap());
        assert!(!protector_matches(&tee, &config, &legacy.as_bytes(), &[0xcd; 32]).unwrap());
        legacy.hmac[0] ^= 1;
        assert!(!protector_matches(&tee, &config, &legacy.as_bytes(), &DEK).unwrap());
        legacy.hmac[0] ^= 1;
        tee.state.borrow_mut().secret = [0x73; 32];
        assert!(!protector_matches(&tee, &config, &legacy.as_bytes(), &DEK).unwrap());
        let replacement = create_protector(&tee, &config, &DEK).unwrap();
        assert!(matches!(
            parse_hardware_key_protector(&replacement).unwrap(),
            HwKeyProtector::V3(_)
        ));
        assert!(protector_matches(&tee, &config, &replacement, &DEK).unwrap());
    }
}

#[test]
fn legacy_v1_unknown_malformed_or_cross_tee_protectors_do_not_derive() {
    let tee = MutableTee::new(SNP_SVN);
    let config = config(HardwareSealingPolicy::Hash);
    let mut legacy = legacy_protector(&tee, &config);
    let tdx = MutableTee::new(TDX_SVN);
    assert!(!protector_matches(&tdx, &config, &legacy.as_bytes(), &DEK).unwrap());
    assert!(tdx.state.borrow().derivations.is_empty());
    let calls = tee.state.borrow().derivations.len();
    for version in [0, HW_KEY_PROTECTOR_VERSION_1, 3, u32::MAX] {
        legacy.header.version = version;
        assert!(!protector_matches(&tee, &config, &legacy.as_bytes(), &DEK).unwrap());
    }
    legacy.header.version = HW_KEY_PROTECTOR_VERSION_2;
    legacy.header.length = HW_KEY_PROTECTOR_V3_SIZE as u32;
    assert!(!protector_matches(&tee, &config, &legacy.as_bytes(), &DEK).unwrap());
    legacy.header.length = HW_KEY_PROTECTOR_SIZE as u32;
    legacy.header.mix_measurement = 2;
    assert!(!protector_matches(&tee, &config, &legacy.as_bytes(), &DEK).unwrap());
    legacy.header.mix_measurement = 1;
    legacy.header._reserved[0] = 1;
    assert!(!protector_matches(&tee, &config, &legacy.as_bytes(), &DEK).unwrap());
    assert_eq!(tee.state.borrow().derivations.len(), calls);
}

#[test]
fn derivation_error_names_its_source_and_no_key_material() {
    let tee = MutableTee::new(SNP_SVN);
    let config = config(HardwareSealingPolicy::Hash);
    tee.state.borrow_mut().fail_derivation = true;
    let err = create_protector(&tee, &config, &DEK).unwrap_err();
    assert_eq!(
        format!("{err:?}"),
        "Error(Derive(InitializeHardwareSecret(AllZeroKey)))"
    );
    assert_eq!(
        err.message(),
        "failed to freshly derive hardware sealing keys"
    );
}

#[test]
fn each_refusal_has_its_error_and_message() {
    let tee = |tee_type, supports_derived_key| Tee {
        tee_type,
        supports_derived_key,
    };
    let refusal = |tee, policy| {
        runtime_sealing::sealing_context::<()>(tee, policy)
            .unwrap_err()
            .message()
    };
    assert_eq!(
        refusal(tee(TeeType::Snp, true), HardwareSealingPolicy::Disabled),
        "hardware sealing policy is disabled"
    );
    assert_eq!(
        refusal(tee(TeeType::Tdx, false), HardwareSealingPolicy::Signer),
        "TDX signer-based hardware sealing is unsupported"
    );
    assert_eq!(
        refusal(tee(TeeType::Vbs, true), HardwareSealingPolicy::Hash),
        "TEE does not support hardware sealing"
    );
    assert_eq!(
        refusal(tee(TeeType::Snp, false), HardwareSealingPolicy::Signer),
        "TEE does not support hardware sealing"
    );
    assert!(
        runtime_sealing::sealing_context::<()>(tee(TeeType::Snp, true), HardwareSealingPolicy::Hash)
            .unwrap()
    );
    assert!(!runtime_sealing::sealing_context::<()>(
        tee(TeeType::Snp, true),
        HardwareSealingPolicy::Signer
    )
    .unwrap());
    let messages = [
        (ErrorInner::Report(()), "failed to obtain a local TEE report"),
        (
            ErrorInner::MissingKeyDerivationSvn,
            "local TEE report has no key derivation SVN",
        ),
        (
            ErrorInner::ReportSvnMismatch,
            "local report key derivation SVN does not match the TEE",
        ),
        (
            ErrorInner::Unseal(()),
            "failed to unseal the hardware protector",
        ),
        (ErrorInner::Seal(()), "failed to seal the active DEK"),
    ];
    for (inner, message) in messages {
        assert_eq!(Error(inner).message(), message);
    }
}

#[test]
fn cipher_failures_are_errors_not_mismatches() {
    let tee = MutableTee::new(SNP_SVN);
    let config = config(HardwareSealingPolicy::Hash);
    let bytes = create_protector(&tee, &config, &DEK).unwrap();
    let MatchStep::Derive(derivation) =
        runtime_sealing::protector_matches::<()>(tee.tee(), HardwareSealingPolicy::Hash, &bytes, &DEK)
    else {
        panic!("the protector was just created");
    };
    assert_eq!(derivation.policy.svn, SNP_SVN);
    let unsealing = derivation.derived::<()>(Ok(())).unwrap();
    assert!(matches!(
        unsealing.unsealed(Err(UnsealError::Other(()))),
        Err(Error(ErrorInner::Unseal(())))
    ));

    let report =
        runtime_sealing::create_protector::<()>(tee.tee(), HardwareSealingPolicy::Hash, &DEK)
            .unwrap();
    let seal = report
        .reported::<()>(Ok(Some(SNP_SVN)))
        .unwrap()
        .derived::<()>(Ok(()))
        .unwrap();
    assert_eq!(seal.dek, DEK);
    assert!(matches!(
        seal.sealed(Err(())),
        Err(Error(ErrorInner::Seal(())))
    ));
}
