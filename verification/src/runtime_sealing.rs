//! Verification and recreation of the local hardware protector.
//!
//! These operations neither access VMGS nor reach out of the guest. The caller
//! supplies the active disk encryption key (DEK), performs the hardware and
//! cipher work that a step asks for, and persists a replacement protector.
//! Every operation asks for a fresh hardware derivation: derived keys must not
//! be cached across migration, even when the SVN is unchanged.

use crate::protector::{
    law_encoding_is_injective, law_sealed_header_validates, law_stored_policy_is_unique,
    lemma_encoded_len, parse_hardware_key_protector, validated_policy, HardwareKeyProtectorHeaderV3,
    HardwareKeyProtectorV3, HwKeyProtector, KeyDerivationPolicy, KeyDerivationSvn, TeeType,
    HW_KEY_PROTECTOR_V3_SIZE,
};
use vstd::prelude::*;

verus! {

/// Size of the user data that goes into an attestation report.
pub const REPORT_DATA_SIZE: usize = 64;

/// How the VM is configured to seal its DEK to the hardware.
#[derive(Clone, Copy, Debug, PartialEq, Eq, Structural)]
pub enum HardwareSealingPolicy {
    /// Sealing is disabled.
    Disabled,
    /// Seal to the launch measurement.
    Hash,
    /// Seal to the signer of the launch image.
    Signer,
}

/// What the policy check needs to know of the TEE.
#[derive(Clone, Copy, Debug, PartialEq, Eq)]
pub struct Tee {
    pub tee_type: TeeType,
    /// Whether the TEE can derive sealing keys at all.
    pub supports_derived_key: bool,
}

/// A local sealing failure, as distinct from a stale or invalid protector.
/// It holds a reason and, at most, the failure `S` of the hardware or cipher
/// call behind it: no DEK, hardware secret or derived key.
#[derive(Debug)]
pub struct Error<S>(pub ErrorInner<S>);

/// The reason of an [`Error`].
#[derive(Debug)]
pub enum ErrorInner<S> {
    DisabledPolicy,
    TdxSignerPolicyUnsupported,
    UnsupportedTee,
    Report(S),
    MissingKeyDerivationSvn,
    ReportSvnMismatch,
    Derive(S),
    Unseal(S),
    Seal(S),
}

impl<S> Error<S> {
    /// The words of the message.
    pub open spec fn spec_message(self) -> Seq<char> {
        match self.0 {
            ErrorInner::DisabledPolicy => "hardware sealing policy is disabled"@,
            ErrorInner::TdxSignerPolicyUnsupported =>
                "TDX signer-based hardware sealing is unsupported"@,
            ErrorInner::UnsupportedTee => "TEE does not support hardware sealing"@,
            ErrorInner::Report(_) => "failed to obtain a local TEE report"@,
            ErrorInner::MissingKeyDerivationSvn =>
                "local TEE report has no key derivation SVN"@,
            ErrorInner::ReportSvnMismatch =>
                "local report key derivation SVN does not match the TEE"@,
            ErrorInner::Derive(_) => "failed to freshly derive hardware sealing keys"@,
            ErrorInner::Unseal(_) => "failed to unseal the hardware protector"@,
            ErrorInner::Seal(_) => "failed to seal the active DEK"@,
        }
    }

    /// What to tell a person.
    pub fn message(&self) -> (message: &'static str)
        ensures
            message@ == self.spec_message(),
    {
        match &self.0 {
            ErrorInner::DisabledPolicy => "hardware sealing policy is disabled",
            ErrorInner::TdxSignerPolicyUnsupported =>
                "TDX signer-based hardware sealing is unsupported",
            ErrorInner::UnsupportedTee => "TEE does not support hardware sealing",
            ErrorInner::Report(_) => "failed to obtain a local TEE report",
            ErrorInner::MissingKeyDerivationSvn => "local TEE report has no key derivation SVN",
            ErrorInner::ReportSvnMismatch =>
                "local report key derivation SVN does not match the TEE",
            ErrorInner::Derive(_) => "failed to freshly derive hardware sealing keys",
            ErrorInner::Unseal(_) => "failed to unseal the hardware protector",
            ErrorInner::Seal(_) => "failed to seal the active DEK",
        }
    }
}

/// What the configured policy asks of `tee`: whether to mix the measurement
/// into the key, or why sealing is refused.
pub open spec fn spec_sealing_context<S>(tee: Tee, policy: HardwareSealingPolicy) -> Result<
    bool,
    Error<S>,
> {
    if policy == HardwareSealingPolicy::Disabled {
        Err(Error(ErrorInner::DisabledPolicy))
    } else if tee.tee_type == TeeType::Tdx && policy == HardwareSealingPolicy::Signer {
        Err(Error(ErrorInner::TdxSignerPolicyUnsupported))
    } else if (tee.tee_type == TeeType::Snp || tee.tee_type == TeeType::Tdx)
        && tee.supports_derived_key {
        Ok(policy == HardwareSealingPolicy::Hash)
    } else {
        Err(Error(ErrorInner::UnsupportedTee))
    }
}

/// Validates the configured policy before any hardware call is made. In
/// particular, disabled sealing and TDX signer sealing never turn into `Hash`.
pub fn sealing_context<S>(tee: Tee, policy: HardwareSealingPolicy) -> (context: Result<
    bool,
    Error<S>,
>)
    ensures
        context == spec_sealing_context::<S>(tee, policy),
{
    let mix_measurement = match policy {
        HardwareSealingPolicy::Disabled => return Err(Error(ErrorInner::DisabledPolicy)),
        HardwareSealingPolicy::Hash => true,
        HardwareSealingPolicy::Signer => false,
    };
    match tee.tee_type {
        TeeType::Snp => {},
        TeeType::Tdx => {
            if !mix_measurement {
                return Err(Error(ErrorInner::TdxSignerPolicyUnsupported));
            }
        },
        _ => return Err(Error(ErrorInner::UnsupportedTee)),
    }
    if !tee.supports_derived_key {
        return Err(Error(ErrorInner::UnsupportedTee));
    }
    Ok(mix_measurement)
}

/// Whether `svn` is an SVN of a TEE of this type.
pub open spec fn spec_svn_matches_tee(svn: KeyDerivationSvn, tee_type: TeeType) -> bool {
    match svn {
        KeyDerivationSvn::Snp { .. } => tee_type == TeeType::Snp,
        KeyDerivationSvn::Tdx { .. } => tee_type == TeeType::Tdx,
    }
}

/// Whether `svn` is an SVN of a TEE of this type.
pub fn svn_matches_tee(svn: KeyDerivationSvn, tee_type: TeeType) -> (matching: bool)
    ensures
        matching == spec_svn_matches_tee(svn, tee_type),
{
    match svn {
        KeyDerivationSvn::Snp { .. } => tee_type == TeeType::Snp,
        KeyDerivationSvn::Tdx { .. } => tee_type == TeeType::Tdx,
    }
}

/// The first step of checking a stored protector. The steps hold the DEK, so
/// none of them has `Debug`.
pub enum MatchStep<S> {
    /// The answer is known and no hardware was involved.
    Done(Result<bool, Error<S>>),
    /// Derive keys for the policy of the request.
    Derive(DeriveToMatch),
}

/// A stored protector that is worth a hardware derivation.
pub struct DeriveToMatch {
    /// The **stored** policy and SVN: derive keys for exactly these.
    pub policy: KeyDerivationPolicy,
    pub protector: HwKeyProtector,
    pub dek: [u8; 32],
}

/// A stored protector whose keys have been derived.
pub struct UnsealToMatch {
    /// Unseal this with the keys that were just derived.
    pub protector: HwKeyProtector,
    pub dek: [u8; 32],
}

/// Why a protector did not unseal.
#[derive(Debug)]
pub enum UnsealError<S> {
    /// The protector was not authenticated by the derived keys.
    HmacVerificationFailed,
    /// The cipher itself failed.
    Other(S),
}

/// Whether `protector` is one that this hardware, under this configuration,
/// should be able to unseal with keys derived for `policy`.
pub open spec fn derivable(
    tee: Tee,
    mix_measurement: bool,
    protector: HwKeyProtector,
    policy: KeyDerivationPolicy,
) -> bool {
    &&& protector.canonical()
    &&& protector.stores(policy)
    &&& policy.mix_measurement == mix_measurement
    &&& spec_svn_matches_tee(policy.svn, tee.tee_type)
}

/// Whether the blob holds such a protector at all.
pub open spec fn worth_deriving(tee: Tee, mix_measurement: bool, protector_bytes: Seq<u8>) -> bool {
    exists|protector: HwKeyProtector, policy: KeyDerivationPolicy|
        protector.encoded() == protector_bytes && #[trigger] derivable(
            tee,
            mix_measurement,
            protector,
            policy,
        )
}

/// Checks whether the stored protector authenticates and unseals to the active
/// DEK on the current hardware, using its **stored** policy and SVN.
///
/// The answer is `Ok(false)` for malformed, incompatible, policy-mismatched or
/// unauthenticated protectors, and for a different DEK. Failures of the
/// hardware derivation or of the cipher are errors, not mismatches. An
/// unavailable source SVN is a derivation error: the caller may retry by
/// creating a protector with the destination's current SVN.
pub fn protector_matches<S>(
    tee: Tee,
    policy: HardwareSealingPolicy,
    protector_bytes: &[u8],
    dek: &[u8; 32],
) -> (step: MatchStep<S>)
    ensures
        match spec_sealing_context::<S>(tee, policy) {
            Err(error) => step == MatchStep::Done(Err(error)),
            Ok(mix_measurement) => match step {
                MatchStep::Done(answer) => answer == Ok::<bool, Error<S>>(false)
                    && !worth_deriving(tee, mix_measurement, protector_bytes@),
                MatchStep::Derive(request) => request.dek == *dek && request.protector.encoded()
                    == protector_bytes@ && derivable(
                    tee,
                    mix_measurement,
                    request.protector,
                    request.policy,
                ),
            },
        },
{
    let mix_measurement = match sealing_context::<S>(tee, policy) {
        Ok(mix_measurement) => mix_measurement,
        Err(error) => return MatchStep::Done(Err(error)),
    };
    let protector = match parse_hardware_key_protector(protector_bytes) {
        Ok(protector) => protector,
        Err(_) => {
            proof {
                assert forall|other: HwKeyProtector| #[trigger]
                    other.encoded() != protector_bytes@ by {
                    lemma_encoded_len(other);
                }
            }
            return MatchStep::Done(Ok(false));
        },
    };
    proof {
        assert forall|other: HwKeyProtector| #[trigger]
            other.encoded() == protector_bytes@ implies other == protector by {
            law_encoding_is_injective(other, protector);
        }
    }
    let stored = match validated_policy(&protector) {
        Some(stored) => stored,
        None => {
            return MatchStep::Done(Ok(false));
        },
    };
    if stored.mix_measurement != mix_measurement || !svn_matches_tee(stored.svn, tee.tee_type) {
        proof {
            assert forall|other: KeyDerivationPolicy| #[trigger]
                protector.stores(other) implies other == stored by {
                law_stored_policy_is_unique(protector, other, stored);
            }
        }
        return MatchStep::Done(Ok(false));
    }
    MatchStep::Derive(DeriveToMatch { policy: stored, protector, dek: *dek })
}

impl DeriveToMatch {
    /// What follows from the derivation.
    pub open spec fn spec_derived<S>(self, derivation: Result<(), S>) -> Result<
        UnsealToMatch,
        Error<S>,
    > {
        match derivation {
            Ok(_) => Ok(UnsealToMatch { protector: self.protector, dek: self.dek }),
            Err(error) => Err(Error(ErrorInner::Derive(error))),
        }
    }

    /// Goes on once the derivation that was asked for has ended.
    pub fn derived<S>(self, derivation: Result<(), S>) -> (next: Result<UnsealToMatch, Error<S>>)
        ensures
            next == self.spec_derived(derivation),
    {
        match derivation {
            Ok(_) => Ok(UnsealToMatch { protector: self.protector, dek: self.dek }),
            Err(error) => Err(Error(ErrorInner::Derive(error))),
        }
    }
}

impl UnsealToMatch {
    /// What follows from unsealing.
    pub open spec fn spec_unsealed<S>(
        self,
        unsealing: Result<[u8; 32], UnsealError<S>>,
    ) -> Result<bool, Error<S>> {
        match unsealing {
            Ok(key) => Ok(key == self.dek),
            Err(UnsealError::HmacVerificationFailed) => Ok(false),
            Err(UnsealError::Other(error)) => Err(Error(ErrorInner::Unseal(error))),
        }
    }

    /// The answer, once unsealing has ended. An unauthenticated protector is a
    /// mismatch; a failing cipher is an error.
    pub fn unsealed<S>(self, unsealing: Result<[u8; 32], UnsealError<S>>) -> (answer: Result<
        bool,
        Error<S>,
    >)
        ensures
            answer == self.spec_unsealed(unsealing),
    {
        match unsealing {
            Ok(key) => {
                let same = constant_time_eq::constant_time_eq_32(&key, &self.dek);
                assert(key@ == self.dek@ ==> key =~= self.dek);
                Ok(same)
            },
            Err(UnsealError::HmacVerificationFailed) => Ok(false),
            Err(UnsealError::Other(error)) => Err(Error(ErrorInner::Unseal(error))),
        }
    }
}

/// Creating a protector: a fresh local report is needed.
pub struct ReportToSeal {
    /// The user data of the report; all zero.
    pub report_data: [u8; REPORT_DATA_SIZE],
    pub tee_type: TeeType,
    pub mix_measurement: bool,
    pub dek: [u8; 32],
}

/// Creating a protector: keys are needed.
pub struct DeriveToSeal {
    /// The report's SVN and the configured policy: derive keys for these.
    pub policy: KeyDerivationPolicy,
    pub dek: [u8; 32],
}

/// Creating a protector: the DEK is to be sealed.
pub struct Seal {
    /// The header of the new protector, which the HMAC covers too.
    pub header: HardwareKeyProtectorHeaderV3,
    /// The unchanged active DEK.
    pub dek: [u8; 32],
}

/// What sealing a DEK produces.
#[derive(Clone, Copy, Debug)]
pub struct SealedDek {
    pub iv: [u8; 16],
    pub ciphertext: [u8; 32],
    pub hmac: [u8; 32],
}

/// Starts sealing the unchanged active DEK into a new version 3 protector,
/// using a fresh local report's SVN and the configured policy.
///
/// Disabled sealing, unsupported TEEs and TDX signer policy are refused before
/// any hardware is involved. No fallback policy is attempted.
pub fn create_protector<S>(tee: Tee, policy: HardwareSealingPolicy, dek: &[u8; 32]) -> (step:
    Result<ReportToSeal, Error<S>>)
    ensures
        match spec_sealing_context::<S>(tee, policy) {
            Err(error) => step == Err::<ReportToSeal, Error<S>>(error),
            Ok(mix_measurement) => step is Ok && step->Ok_0.report_data@ == Seq::new(
                64,
                |i: int| 0u8,
            ) && step->Ok_0.tee_type == tee.tee_type && step->Ok_0.mix_measurement
                == mix_measurement && step->Ok_0.dek == *dek,
        },
{
    let mix_measurement = match sealing_context::<S>(tee, policy) {
        Ok(mix_measurement) => mix_measurement,
        Err(error) => return Err(error),
    };
    let report_data: [u8; REPORT_DATA_SIZE] = [0u8; REPORT_DATA_SIZE];
    assert(report_data@ =~= Seq::new(64, |i: int| 0u8));
    Ok(ReportToSeal { report_data, tee_type: tee.tee_type, mix_measurement, dek: *dek })
}

impl ReportToSeal {
    /// What follows from the report, which names the current SVN or none.
    pub open spec fn spec_reported<S>(self, report: Result<Option<KeyDerivationSvn>, S>) -> Result<
        DeriveToSeal,
        Error<S>,
    > {
        match report {
            Err(error) => Err(Error(ErrorInner::Report(error))),
            Ok(None) => Err(Error(ErrorInner::MissingKeyDerivationSvn)),
            Ok(Some(svn)) => if spec_svn_matches_tee(svn, self.tee_type) {
                Ok(
                    DeriveToSeal {
                        policy: KeyDerivationPolicy { svn, mix_measurement: self.mix_measurement },
                        dek: self.dek,
                    },
                )
            } else {
                Err(Error(ErrorInner::ReportSvnMismatch))
            },
        }
    }

    /// Goes on once the report has been asked for.
    pub fn reported<S>(self, report: Result<Option<KeyDerivationSvn>, S>) -> (next: Result<
        DeriveToSeal,
        Error<S>,
    >)
        ensures
            next == self.spec_reported(report),
    {
        let svn = match report {
            Err(error) => return Err(Error(ErrorInner::Report(error))),
            Ok(None) => return Err(Error(ErrorInner::MissingKeyDerivationSvn)),
            Ok(Some(svn)) => svn,
        };
        if !svn_matches_tee(svn, self.tee_type) {
            return Err(Error(ErrorInner::ReportSvnMismatch));
        }
        Ok(
            DeriveToSeal {
                policy: KeyDerivationPolicy { svn, mix_measurement: self.mix_measurement },
                dek: self.dek,
            },
        )
    }
}

impl DeriveToSeal {
    /// Goes on once the derivation that was asked for has ended.
    pub fn derived<S>(self, derivation: Result<(), S>) -> (next: Result<Seal, Error<S>>)
        ensures
            match derivation {
                Ok(_) => next is Ok && next->Ok_0.dek == self.dek && next->Ok_0.header.records(
                    self.policy,
                ),
                Err(error) => next == Err::<Seal, Error<S>>(Error(ErrorInner::Derive(error))),
            },
    {
        match derivation {
            Ok(_) => Ok(
                Seal { header: HardwareKeyProtectorHeaderV3::new(self.policy), dek: self.dek },
            ),
            Err(error) => Err(Error(ErrorInner::Derive(error))),
        }
    }
}

impl Seal {
    /// The protector that a sealed DEK completes.
    pub open spec fn protector(self, sealed: SealedDek) -> HardwareKeyProtectorV3 {
        HardwareKeyProtectorV3 {
            header: self.header,
            iv: sealed.iv,
            ciphertext: sealed.ciphertext,
            hmac: sealed.hmac,
        }
    }

    /// The stored form of the new protector, once sealing has ended.
    pub fn sealed<S>(self, sealing: Result<SealedDek, S>) -> (created: Result<Vec<u8>, Error<S>>)
        ensures
            match sealing {
                Ok(sealed) => created is Ok && created->Ok_0@ == self.protector(sealed).encoded()
                    && created->Ok_0@.len() == HW_KEY_PROTECTOR_V3_SIZE,
                Err(error) => created == Err::<Vec<u8>, Error<S>>(Error(ErrorInner::Seal(error))),
            },
    {
        match sealing {
            Ok(sealed) => {
                let protector = HardwareKeyProtectorV3 {
                    header: self.header,
                    iv: sealed.iv,
                    ciphertext: sealed.ciphertext,
                    hmac: sealed.hmac,
                };
                Ok(protector.as_bytes())
            },
            Err(error) => Err(Error(ErrorInner::Seal(error))),
        }
    }
}

/// A created protector is worth checking on the TEE that created it, and the
/// check asks for the very policy it was sealed under: the report's SVN and
/// the configured policy.
pub proof fn law_created_protector_is_checked_under_its_own_policy(
    tee: Tee,
    policy: HardwareSealingPolicy,
    svn: KeyDerivationSvn,
    seal: Seal,
    sealed: SealedDek,
    request: DeriveToMatch,
)
    requires
        spec_sealing_context::<()>(tee, policy) is Ok,
        spec_svn_matches_tee(svn, tee.tee_type),
        seal.header.records(
            KeyDerivationPolicy {
                svn,
                mix_measurement: spec_sealing_context::<()>(tee, policy)->Ok_0,
            },
        ),
    ensures
        worth_deriving(
            tee,
            spec_sealing_context::<()>(tee, policy)->Ok_0,
            seal.protector(sealed).encoded(),
        ),
        request.protector.encoded() == seal.protector(sealed).encoded() && derivable(
            tee,
            spec_sealing_context::<()>(tee, policy)->Ok_0,
            request.protector,
            request.policy,
        ) ==> request.protector == HwKeyProtector::V3(seal.protector(sealed)) && request.policy
            == (KeyDerivationPolicy {
            svn,
            mix_measurement: spec_sealing_context::<()>(tee, policy)->Ok_0,
        }),
{
    let mix_measurement = spec_sealing_context::<()>(tee, policy)->Ok_0;
    let recorded = KeyDerivationPolicy { svn, mix_measurement };
    let protector = HwKeyProtector::V3(seal.protector(sealed));
    law_sealed_header_validates(seal.protector(sealed), recorded);
    assert(derivable(tee, mix_measurement, protector, recorded));
    assert(protector.encoded() == seal.protector(sealed).encoded());
    if request.protector.encoded() == seal.protector(sealed).encoded() && derivable(
        tee,
        mix_measurement,
        request.protector,
        request.policy,
    ) {
        law_encoding_is_injective(request.protector, protector);
        law_stored_policy_is_unique(protector, request.policy, recorded);
    }
}

/// Where unsealing gives back what was sealed, a created protector matches
/// the DEK it was created for and no other.
pub proof fn law_created_protector_matches_its_dek_only(
    tee: Tee,
    policy: HardwareSealingPolicy,
    svn: KeyDerivationSvn,
    seal: Seal,
    sealed: SealedDek,
    request: DeriveToMatch,
)
    requires
        spec_sealing_context::<()>(tee, policy) is Ok,
        spec_svn_matches_tee(svn, tee.tee_type),
        seal.header.records(
            KeyDerivationPolicy {
                svn,
                mix_measurement: spec_sealing_context::<()>(tee, policy)->Ok_0,
            },
        ),
        request.protector.encoded() == seal.protector(sealed).encoded(),
        derivable(
            tee,
            spec_sealing_context::<()>(tee, policy)->Ok_0,
            request.protector,
            request.policy,
        ),
    ensures
        request.spec_derived::<()>(Ok(())) is Ok,
        request.spec_derived::<()>(Ok(()))->Ok_0.protector == HwKeyProtector::V3(
            seal.protector(sealed),
        ),
        request.spec_derived::<()>(Ok(()))->Ok_0.spec_unsealed::<()>(Ok(seal.dek)) == Ok::<
            bool,
            Error<()>,
        >(seal.dek == request.dek),
{
    law_encoding_is_injective(request.protector, HwKeyProtector::V3(seal.protector(sealed)));
}

/// A protector never crosses over to a configuration with the other policy or
/// to a TEE of the other type: no derivation is asked for.
pub proof fn law_policy_and_tee_are_bound(
    tee: Tee,
    other_tee: Tee,
    mix_measurement: bool,
    other_mix_measurement: bool,
    protector_bytes: Seq<u8>,
)
    requires
        worth_deriving(tee, mix_measurement, protector_bytes),
        tee.tee_type != other_tee.tee_type || mix_measurement != other_mix_measurement,
    ensures
        !worth_deriving(other_tee, other_mix_measurement, protector_bytes),
{
    let (protector, policy) = choose|protector: HwKeyProtector, policy: KeyDerivationPolicy|
        protector.encoded() == protector_bytes && #[trigger] derivable(
            tee,
            mix_measurement,
            protector,
            policy,
        );
    assert forall|other: HwKeyProtector, other_policy: KeyDerivationPolicy|
        other.encoded() == protector_bytes implies !#[trigger] derivable(
        other_tee,
        other_mix_measurement,
        other,
        other_policy,
    ) by {
        law_encoding_is_injective(other, protector);
        if protector.stores(other_policy) {
            law_stored_policy_is_unique(protector, other_policy, policy);
        }
    }
}

} // verus!
