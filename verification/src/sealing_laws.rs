//! What the sealing operations do, told by the bytes and fields that go in and
//! come out: the layout of a protector, the policy it stores, and what becomes
//! of the disk key, the report's SVN and the schedule from step to step.

use crate::bytes::{le_bytes, le_value, lemma_le_bytes_len, lemma_le_value_of_bytes, lemma_le_spans};
use crate::client::VmgsClientError;
use crate::hardware_reseal::{
    one_more_failure, retry_delay, spec_key_fetched, CreateProtector, HardwareReseal, Instant,
    MigrationNotification, Publish, RequestsPoll, ResealError, ResealPoll, RestoreError, RunPhase,
    Schedule, StateReply, StateRequest, VerifyCreated, VerifyStored, WorkerAction, WorkerInput,
};
use crate::protector::{
    law_encoding_is_injective, law_sealed_header_validates, law_stored_policy_is_unique,
    lemma_legacy_fields, lemma_v3_fields, HardwareKeyProtector, HardwareKeyProtectorHeaderV3,
    HardwareKeyProtectorV3, HwKeyProtector, KeyDerivationPolicy, KeyDerivationSvn, TeeType,
};
use crate::runtime_sealing::{
    derivable, spec_sealing_context, spec_svn_matches_tee, worth_deriving, DeriveToMatch,
    DeriveToSeal, Error, ErrorInner, HardwareSealingPolicy, ReportToSeal, Seal, SealedDek, Tee,
    UnsealError, UnsealToMatch,
};
use vstd::arithmetic::power::pow;
use vstd::prelude::*;

verus! {

/// The number that four bytes from `at` on spell, least significant first.
pub open spec fn word_at(bytes: Seq<u8>, at: int) -> int {
    bytes[at] + 0x100 * bytes[at + 1] + 0x1_0000 * bytes[at + 2] + 0x100_0000 * bytes[at + 3]
}

/// The number that eight bytes from `at` on spell, least significant first.
pub open spec fn long_at(bytes: Seq<u8>, at: int) -> int {
    word_at(bytes, at) + 0x1_0000_0000 * word_at(bytes, at + 4)
}

proof fn lemma_word(bytes: Seq<u8>, at: int)
    requires
        0 <= at,
        at + 4 <= bytes.len(),
    ensures
        le_value(bytes.subrange(at, at + 4)) == word_at(bytes, at),
{
    let s = bytes.subrange(at, at + 4);
    let s1 = s.drop_first();
    let s2 = s1.drop_first();
    let s3 = s2.drop_first();
    let s4 = s3.drop_first();
    assert(le_value(s4) == 0);
    assert(le_value(s3) == s3[0] as nat + 256 * le_value(s4));
    assert(le_value(s2) == s2[0] as nat + 256 * le_value(s3));
    assert(le_value(s1) == s1[0] as nat + 256 * le_value(s2));
}

proof fn lemma_long(bytes: Seq<u8>, at: int)
    requires
        0 <= at,
        at + 8 <= bytes.len(),
    ensures
        le_value(bytes.subrange(at, at + 8)) == long_at(bytes, at),
{
    let s = bytes.subrange(at, at + 8);
    let s1 = s.drop_first();
    let s2 = s1.drop_first();
    let s3 = s2.drop_first();
    let s4 = s3.drop_first();
    assert(s4 =~= bytes.subrange(at + 4, at + 8));
    lemma_word(bytes, at + 4);
    assert(le_value(s3) == s3[0] as nat + 256 * le_value(s4));
    assert(le_value(s2) == s2[0] as nat + 256 * le_value(s3));
    assert(le_value(s1) == s1[0] as nat + 256 * le_value(s2));
}

/// The bytes of a number are its digits to the base 256, least significant
/// first.
pub proof fn law_number_bytes_are_its_digits(value: nat, len: nat, i: nat)
    requires
        i < len,
    ensures
        le_bytes(value, len).len() == len,
        le_bytes(value, len)[i as int] as int == (value as int / pow(256, i)) % 256,
    decreases i,
{
    broadcast use vstd::arithmetic::power::lemma_pow_positive;

    lemma_le_bytes_len(value, len);
    lemma_le_bytes_len(value / 256, (len - 1) as nat);
    reveal(pow);
    if i > 0 {
        law_number_bytes_are_its_digits(value / 256, (len - 1) as nat, (i - 1) as nat);
        vstd::arithmetic::div_mod::lemma_div_denominator(
            value as int,
            256,
            pow(256, (i - 1) as nat),
        );
    }
}

/// Every byte of a stored legacy protector has its meaning.
pub proof fn law_legacy_bytes_have_their_places(p: HardwareKeyProtector)
    ensures
        ({
            let bytes = HwKeyProtector::Legacy(p).encoded();
            &&& bytes.len() == 104
            &&& p.header.version == word_at(bytes, 0)
            &&& p.header.length == word_at(bytes, 4)
            &&& p.header.tcb_version == long_at(bytes, 8)
            &&& p.header.mix_measurement == bytes[16]
            &&& forall|i: int| 0 <= i < 7 ==> #[trigger] p.header._reserved@[i] == bytes[17 + i]
            &&& forall|i: int| 0 <= i < 16 ==> #[trigger] p.iv@[i] == bytes[24 + i]
            &&& forall|i: int| 0 <= i < 32 ==> #[trigger] p.ciphertext@[i] == bytes[40 + i]
            &&& forall|i: int| 0 <= i < 32 ==> #[trigger] p.hmac@[i] == bytes[72 + i]
        }),
{
    lemma_legacy_fields(p);
    let bytes = p.encoded();
    crate::protector::lemma_encoded_len(HwKeyProtector::Legacy(p));
    lemma_word(bytes, 0);
    lemma_word(bytes, 4);
    lemma_long(bytes, 8);
}

/// Every byte of a stored version 3 protector has its meaning.
pub proof fn law_v3_bytes_have_their_places(p: HardwareKeyProtectorV3)
    ensures
        ({
            let bytes = HwKeyProtector::V3(p).encoded();
            &&& bytes.len() == 128
            &&& p.header.version == word_at(bytes, 0)
            &&& p.header.length == word_at(bytes, 4)
            &&& p.header.tee_type == word_at(bytes, 8)
            &&& p.header.mix_measurement == bytes[12]
            &&& forall|i: int| 0 <= i < 3 ==> #[trigger] p.header._reserved@[i] == bytes[13 + i]
            &&& forall|i: int| 0 <= i < 32 ==> #[trigger] p.header.svn@[i] == bytes[16 + i]
            &&& forall|i: int| 0 <= i < 16 ==> #[trigger] p.iv@[i] == bytes[48 + i]
            &&& forall|i: int| 0 <= i < 32 ==> #[trigger] p.ciphertext@[i] == bytes[64 + i]
            &&& forall|i: int| 0 <= i < 32 ==> #[trigger] p.hmac@[i] == bytes[96 + i]
        }),
{
    lemma_v3_fields(p);
    let bytes = p.encoded();
    crate::protector::lemma_encoded_len(HwKeyProtector::V3(p));
    lemma_word(bytes, 0);
    lemma_word(bytes, 4);
    lemma_word(bytes, 8);
}

/// Legacy headers are accepted exactly if they are of version 2, of their own
/// length, with a flag of zero or one and nothing in the reserved bytes.
pub proof fn law_canonical_legacy_headers(p: HardwareKeyProtector)
    ensures
        HwKeyProtector::Legacy(p).names_known_tee(),
        HwKeyProtector::Legacy(p).canonical() <==> p.header.version == 2 && p.header.length == 104
            && (p.header.mix_measurement == 0 || p.header.mix_measurement == 1) && (forall|i: int|
            0 <= i < 7 ==> #[trigger] p.header._reserved@[i] == 0),
{
}

/// Version 3 headers are accepted exactly if they are of that version and
/// length, name one of the two TEEs, have a flag of zero or one, nothing in the
/// reserved bytes and, for SNP, nothing behind the eight bytes of the SVN.
pub proof fn law_canonical_v3_headers(p: HardwareKeyProtectorV3)
    ensures
        HwKeyProtector::V3(p).canonical() && HwKeyProtector::V3(p).names_known_tee() <==> (
        p.header.version == 3 && p.header.length == 128 && (p.header.tee_type == 1
            || p.header.tee_type == 2) && (p.header.mix_measurement == 0 || p.header.mix_measurement
            == 1) && (forall|i: int| 0 <= i < 3 ==> #[trigger] p.header._reserved@[i] == 0) && (
        p.header.tee_type == 1 ==> (forall|i: int|
            8 <= i < 32 ==> #[trigger] p.header.svn@[i] == 0))),
{
    let tail = p.header.svn@.subrange(8, 32);
    assert(forall|i: int| 8 <= i < 32 ==> #[trigger] p.header.svn@[i] == tail[i - 8]);
    assert(forall|i: int| 0 <= i < 24 ==> #[trigger] tail[i] == p.header.svn@[i + 8]);
}

/// The policy of a legacy protector is its SNP version, all bits of it, and its
/// flag.
pub proof fn law_legacy_policy_is_in_the_header(p: HardwareKeyProtector, policy: KeyDerivationPolicy)
    requires
        HwKeyProtector::Legacy(p).stores(policy),
    ensures
        policy.svn matches KeyDerivationSvn::Snp { tcb_version } && tcb_version
            == p.header.tcb_version,
        policy.mix_measurement <==> p.header.mix_measurement != 0,
{
}

/// The policy of a version 3 protector is spelled by the bytes of its SVN field
/// and by its flag: nothing of them is left out.
pub proof fn law_v3_policy_is_in_the_header(p: HardwareKeyProtectorV3, policy: KeyDerivationPolicy)
    requires
        HwKeyProtector::V3(p).stores(policy),
    ensures
        policy.mix_measurement <==> p.header.mix_measurement != 0,
        match policy.svn {
            KeyDerivationSvn::Snp { tcb_version } => p.header.tee_type == 1 && tcb_version
                == long_at(p.header.svn@, 0),
            KeyDerivationSvn::Tdx { tee_tcb_svn, cpu_svn } => p.header.tee_type == 2 && (forall|
                i: int,
            |
                0 <= i < 16 ==> #[trigger] tee_tcb_svn@[i] == p.header.svn@[i]) && (forall|i: int|
                0 <= i < 16 ==> #[trigger] cpu_svn@[i] == p.header.svn@[16 + i]),
        },
{
    lemma_long(p.header.svn@, 0);
}

/// A header that is made for a policy spells that policy, all of it.
pub proof fn law_new_header_spells_its_policy(
    header: HardwareKeyProtectorHeaderV3,
    policy: KeyDerivationPolicy,
)
    requires
        header.records(policy),
    ensures
        header.version == 3,
        header.length == 128,
        header.mix_measurement == 1 <==> policy.mix_measurement,
        header.mix_measurement == 0 <==> !policy.mix_measurement,
        forall|i: int| 0 <= i < 3 ==> #[trigger] header._reserved@[i] == 0,
        match policy.svn {
            KeyDerivationSvn::Snp { tcb_version } => header.tee_type == 1 && tcb_version == long_at(
                header.svn@,
                0,
            ) && (forall|i: int| 8 <= i < 32 ==> #[trigger] header.svn@[i] == 0),
            KeyDerivationSvn::Tdx { tee_tcb_svn, cpu_svn } => header.tee_type == 2 && (forall|
                i: int,
            |
                0 <= i < 16 ==> header.svn@[i] == #[trigger] tee_tcb_svn@[i]) && (forall|i: int|
                0 <= i < 16 ==> header.svn@[16 + i] == #[trigger] cpu_svn@[i]),
        },
{
    if let KeyDerivationSvn::Snp { tcb_version } = policy.svn {
        lemma_le_spans();
        lemma_le_value_of_bytes(tcb_version as nat, 8);
        lemma_long(header.svn@, 0);
        let tail = header.svn@.subrange(8, 32);
        assert(forall|i: int| 8 <= i < 32 ==> #[trigger] header.svn@[i] == tail[i - 8]);
    }
}

/// Sealing is possible exactly on a TEE that derives keys, is SNP or TDX, and
/// under a policy that is enabled and, on TDX, is `Hash`. The measurement is
/// mixed in exactly for `Hash`: no other policy ever turns into it.
pub proof fn law_sealing_policies<S>(tee: Tee, policy: HardwareSealingPolicy)
    ensures
        spec_sealing_context::<S>(tee, policy) is Ok <==> tee.supports_derived_key && ((
        tee.tee_type == TeeType::Snp && policy != HardwareSealingPolicy::Disabled) || (tee.tee_type
            == TeeType::Tdx && policy == HardwareSealingPolicy::Hash)),
        spec_sealing_context::<S>(tee, policy) == Ok::<bool, Error<S>>(true) ==> policy
            == HardwareSealingPolicy::Hash,
        spec_sealing_context::<S>(tee, policy) == Ok::<bool, Error<S>>(false) ==> policy
            == HardwareSealingPolicy::Signer,
        policy == HardwareSealingPolicy::Disabled ==> spec_sealing_context::<S>(tee, policy)->Err_0.0
            is DisabledPolicy,
        policy == HardwareSealingPolicy::Signer && tee.tee_type == TeeType::Tdx
            ==> spec_sealing_context::<S>(tee, policy)->Err_0.0 is TdxSignerPolicyUnsupported,
        spec_sealing_context::<S>(tee, policy) matches Err(error) ==> policy
            != HardwareSealingPolicy::Disabled && !(policy == HardwareSealingPolicy::Signer
            && tee.tee_type == TeeType::Tdx) ==> error.0 is UnsupportedTee,
{
}

/// An SVN belongs to the TEE of its own type and to no other.
pub proof fn law_svn_belongs_to_its_tee(svn: KeyDerivationSvn, tee_type: TeeType)
    ensures
        spec_svn_matches_tee(svn, tee_type) <==> (svn is Snp && tee_type == TeeType::Snp) || (svn
            is Tdx && tee_type == TeeType::Tdx),
{
}

/// Keys are derived for exactly the SVN that the report names, whatever its
/// value, under the configured policy and for the unchanged DEK. They are if
/// and only if that SVN is of the TEE's own type.
pub proof fn law_keys_are_derived_for_the_reported_svn<S>(step: ReportToSeal, svn: KeyDerivationSvn)
    ensures
        step.spec_reported::<S>(Ok(Some(svn))) is Ok <==> (svn is Snp && step.tee_type
            == TeeType::Snp) || (svn is Tdx && step.tee_type == TeeType::Tdx),
        step.spec_reported::<S>(Ok(Some(svn))) matches Ok(next) ==> next.policy.svn == svn
            && next.policy.mix_measurement == step.mix_measurement && next.dek == step.dek,
        step.spec_reported::<S>(Ok(Some(svn))) matches Err(error) ==> error.0 is ReportSvnMismatch,
{
}

/// Without an SVN nothing is sealed, and a failing report is told with its own
/// failure.
pub proof fn law_no_report_no_protector<S>(step: ReportToSeal, failure: S)
    ensures
        step.spec_reported::<S>(Ok(None)) matches Err(error) && error.0 is MissingKeyDerivationSvn,
        step.spec_reported::<S>(Err(failure)) matches Err(error) && error.0 == ErrorInner::Report(
            failure,
        ),
{
}

/// What a created protector stores is the SVN that the report named and the
/// configured policy, and no other policy can be read from its bytes.
pub proof fn law_created_protector_stores_the_reported_svn<S>(
    step: ReportToSeal,
    svn: KeyDerivationSvn,
    next: DeriveToSeal,
    seal: Seal,
    sealed: SealedDek,
    read: KeyDerivationPolicy,
)
    requires
        step.spec_reported::<S>(Ok(Some(svn))) == Ok::<DeriveToSeal, Error<S>>(next),
        seal.header.records(next.policy),
        HwKeyProtector::V3(seal.protector(sealed)).stores(read),
    ensures
        read.svn == svn,
        read.mix_measurement == step.mix_measurement,
{
    let p = seal.protector(sealed);
    law_keys_are_derived_for_the_reported_svn::<S>(step, svn);
    law_sealed_header_validates(p, next.policy);
    law_stored_policy_is_unique(HwKeyProtector::V3(p), read, next.policy);
}

/// A created protector holds what the cipher produced, byte for byte, behind
/// the header that was made for the policy.
pub proof fn law_created_protector_holds_what_was_sealed(seal: Seal, sealed: SealedDek)
    ensures
        ({
            let bytes = seal.protector(sealed).encoded();
            &&& bytes.len() == 128
            &&& forall|i: int| 0 <= i < 32 ==> bytes[16 + i] == #[trigger] seal.header.svn@[i]
            &&& forall|i: int| 0 <= i < 16 ==> bytes[48 + i] == #[trigger] sealed.iv@[i]
            &&& forall|i: int| 0 <= i < 32 ==> bytes[64 + i] == #[trigger] sealed.ciphertext@[i]
            &&& forall|i: int| 0 <= i < 32 ==> bytes[96 + i] == #[trigger] sealed.hmac@[i]
            &&& word_at(bytes, 0) == seal.header.version
            &&& word_at(bytes, 4) == seal.header.length
            &&& word_at(bytes, 8) == seal.header.tee_type
            &&& bytes[12] == seal.header.mix_measurement
        }),
{
    let p = seal.protector(sealed);
    law_v3_bytes_have_their_places(p);
    assert(p.iv == sealed.iv && p.ciphertext == sealed.ciphertext && p.hmac == sealed.hmac);
}

/// A derivation is asked for exactly when the protector is accepted, the policy
/// is the one it stores, the measurement is mixed in as configured, and the SVN
/// is of the TEE's own type.
pub proof fn law_derivation_is_for_the_stored_policy(
    tee: Tee,
    mix_measurement: bool,
    protector: HwKeyProtector,
    policy: KeyDerivationPolicy,
)
    ensures
        derivable(tee, mix_measurement, protector, policy) <==> protector.canonical()
            && protector.stores(policy) && policy.mix_measurement == mix_measurement && ((policy.svn
            is Snp && tee.tee_type == TeeType::Snp) || (policy.svn is Tdx && tee.tee_type
            == TeeType::Tdx)),
{
}

/// Every accepted protector of either layout that stores a policy for this TEE
/// and this configuration is worth a derivation, and nothing else is.
pub proof fn law_accepted_protectors_are_worth_deriving(
    tee: Tee,
    mix_measurement: bool,
    protector: HwKeyProtector,
    policy: KeyDerivationPolicy,
)
    requires
        protector.stores(policy),
    ensures
        worth_deriving(tee, mix_measurement, protector.encoded()) <==> protector.canonical()
            && policy.mix_measurement == mix_measurement && ((policy.svn is Snp && tee.tee_type
            == TeeType::Snp) || (policy.svn is Tdx && tee.tee_type == TeeType::Tdx)),
{
    assert forall|other: HwKeyProtector, other_policy: KeyDerivationPolicy|
        other.encoded() == protector.encoded() && #[trigger] derivable(
            tee,
            mix_measurement,
            other,
            other_policy,
        ) implies other == protector && other_policy == policy by {
        law_encoding_is_injective(other, protector);
        law_stored_policy_is_unique(protector, other_policy, policy);
    }
    if derivable(tee, mix_measurement, protector, policy) {
        assert(worth_deriving(tee, mix_measurement, protector.encoded()));
    }
}

/// Deriving keys changes neither the protector nor the DEK that are compared,
/// and its failure is told as it is.
pub proof fn law_derivation_keeps_what_is_compared<S>(request: DeriveToMatch, failure: S)
    ensures
        request.spec_derived::<S>(Ok(())) matches Ok(next) && next.protector == request.protector
            && next.dek == request.dek,
        request.spec_derived::<S>(Err(failure)) matches Err(error) && error.0 == ErrorInner::Derive(
            failure,
        ),
{
}

/// A protector matches exactly if what it unseals to equals the DEK in each of
/// its bytes. One that does not authenticate is a mismatch, and a failing
/// cipher is told as it is.
pub proof fn law_match_means_every_byte_is_equal<S>(
    request: UnsealToMatch,
    key: [u8; 32],
    failure: S,
)
    ensures
        request.spec_unsealed::<S>(Ok(key)) matches Ok(same) && (same <==> (forall|i: int|
            0 <= i < 32 ==> #[trigger] key@[i] == request.dek@[i])),
        request.spec_unsealed::<S>(Err(UnsealError::HmacVerificationFailed)) == Ok::<
            bool,
            Error<S>,
        >(false),
        request.spec_unsealed::<S>(Err(UnsealError::Other(failure))) matches Err(error) && error.0
            == ErrorInner::Unseal(failure),
{
    if forall|i: int| 0 <= i < 32 ==> #[trigger] key@[i] == request.dek@[i] {
        assert(key =~= request.dek);
    }
}

/// However an attempt ends, it leaves whether the worker runs as it was. A
/// success clears what is pending and rests for a second; the deadline stays.
/// A failure counts one more and sets both instants to the end of the wait.
pub proof fn law_attempt_changes_only_what_it_must(
    schedule: Schedule,
    now: Instant,
    success: bool,
    jitter: u8,
)
    requires
        now.nanos + schedule.wait_after(success, jitter) <= u64::MAX,
    ensures
        ({
            let after = schedule.spec_completed(now, success, jitter);
            &&& after.running == schedule.running
            &&& after.force_reseal == !success
            &&& success ==> after.failures == 0 && after.deadline == schedule.deadline
                && after.not_before.nanos == now.nanos + 1_000_000_000
            &&& !success ==> after.failures >= schedule.failures && after.failures > 0
                && after.failures <= schedule.failures + 1 && (schedule.failures < u32::MAX
                ==> after.failures == schedule.failures + 1) && after.deadline == after.not_before
                && after.not_before.nanos == now.nanos + retry_delay(after.failures as nat, jitter)
        }),
{
}

/// A worker that waits can be polled, one that applies a request learns it, and
/// one that attempts learns the end of its attempt, unless the clock could not
/// count the longest wait after it.
pub proof fn law_worker_learns_what_it_waits_for(
    worker: HardwareReseal,
    requests: RequestsPoll,
    request: StateRequest,
    now: Instant,
    success: bool,
)
    ensures
        worker.spec_accepts(WorkerInput::Poll { requests, now }) <==> worker.phase
            == RunPhase::Waiting,
        worker.spec_accepts(WorkerInput::Request(request)) <==> worker.phase == RunPhase::Applying,
        worker.spec_accepts(WorkerInput::AttemptEnded { now, success }) ==> worker.phase
            == RunPhase::Attempting,
        worker.phase == RunPhase::Attempting && success ==> (worker.spec_accepts(
            WorkerInput::AttemptEnded { now, success },
        ) <==> now.nanos + 1_000_000_000 <= u64::MAX),
        worker.phase == RunPhase::Attempting && !success && worker.schedule.failures < u32::MAX ==> (
        worker.spec_accepts(WorkerInput::AttemptEnded { now, success }) <==> now.nanos
            + retry_delay((worker.schedule.failures + 1) as nat, 255) <= u64::MAX),
        worker.phase == RunPhase::Attempting && now.nanos + 60_000_000_000 <= u64::MAX
            ==> worker.spec_accepts(WorkerInput::AttemptEnded { now, success }),
{
}

/// The wait after a first failure is a second, each of the next five failures
/// doubles it, from the seventh on it is a minute, and the jitter adds four
/// milliseconds a step up to that minute.
pub proof fn law_retry_delay_doubles(failures: nat, jitter: u8)
    requires
        failures > 0,
    ensures
        retry_delay(1, 0) == 1_000_000_000,
        failures < 6 ==> retry_delay(failures + 1, 0) == 2 * retry_delay(failures, 0),
        failures >= 7 ==> retry_delay(failures, jitter) == 60_000_000_000,
        failures < 7 ==> retry_delay(failures, jitter) == (if retry_delay(failures, 0) + 4_000_000
            * jitter <= 60_000_000_000 {
            retry_delay(failures, 0) + 4_000_000 * jitter
        } else {
            60_000_000_000
        }),
{
    vstd::arithmetic::power2::lemma2_to64();
}

/// Failures are counted one by one until the counter is full.
pub proof fn law_failures_are_counted(failures: u32)
    ensures
        failures < u32::MAX ==> one_more_failure(failures) == failures + 1,
        one_more_failure(u32::MAX) == u32::MAX,
{
}

/// A notification asks for work from its instant on, and changes nothing else.
pub proof fn law_notification_sets_the_deadline(schedule: Schedule, now: Instant)
    ensures
        schedule.spec_notified(now).force_reseal,
        schedule.spec_notified(now).deadline == now,
        schedule.spec_notified(now).running == schedule.running,
        schedule.spec_notified(now).failures == schedule.failures,
        schedule.spec_notified(now).not_before == schedule.not_before,
{
}

/// Work is due at the deadline, but not before the wait is over.
pub proof fn law_due_is_the_later_instant(schedule: Schedule)
    ensures
        schedule.spec_due().nanos >= schedule.deadline.nanos,
        schedule.spec_due().nanos >= schedule.not_before.nanos,
        schedule.spec_due() == schedule.deadline || schedule.spec_due() == schedule.not_before,
{
}

/// A notification latches one event; taking it clears the latch and registers
/// the taker.
pub proof fn law_latch(notification: MigrationNotification)
    ensures
        notification.spec_notify().pending,
        !notification.spec_notify().waiting,
        !notification.spec_take().pending,
        notification.spec_take().waiting,
        notification.spec_wakes() == notification.waiting,
{
}

/// What a poll decides and does, by what it finds. It never changes whether the
/// worker runs, how often it failed or when it may try again.
pub proof fn law_poll_decides_by_what_it_finds(
    worker: HardwareReseal,
    notification: MigrationNotification,
    requests: RequestsPoll,
    now: Instant,
)
    ensures
        ({
            let next = worker.spec_poll(notification, requests, now);
            let after = worker.spec_polled(notification, requests, now);
            let latch = worker.spec_polled_latch(notification, requests);
            let looks = requests == RequestsPoll::Pending && worker.schedule.running;
            let wanted = worker.schedule.force_reseal || notification.pending;
            let wait_over = now.nanos >= worker.schedule.not_before.nanos;
            let deadline_over = notification.pending || now.nanos >= worker.schedule.deadline.nanos;
            &&& next == ResealPoll::State <==> requests == RequestsPoll::Ready
            &&& next == ResealPoll::Return <==> requests == RequestsPoll::Closed
            &&& next == ResealPoll::Attempt <==> looks && wanted && wait_over && deadline_over
            &&& next is WaitUntil <==> looks && wanted && !(wait_over && deadline_over)
            &&& next is WaitUntil ==> next->WaitUntil_0 == after.schedule.spec_due()
            &&& after.schedule.running == worker.schedule.running
            &&& after.schedule.failures == worker.schedule.failures
            &&& after.schedule.not_before == worker.schedule.not_before
            &&& after.vmgs == worker.vmgs
            &&& after.phase == worker.phase
            &&& after.schedule.force_reseal == (if looks {
                wanted
            } else {
                worker.schedule.force_reseal
            })
            &&& after.schedule.deadline == (if looks && notification.pending {
                now
            } else {
                worker.schedule.deadline
            })
            &&& looks ==> !latch.pending && latch.waiting
            &&& !looks ==> latch == notification
        }),
{
}

/// A start and a stop change whether the worker runs, a reset makes work
/// pending, and that is all that any request changes.
pub proof fn law_requests_change_only_what_they_name(worker: HardwareReseal, request: StateRequest)
    ensures
        ({
            let after = worker.spec_apply(request);
            &&& after.schedule.running == (request is Start || (worker.schedule.running && !(request
                is Stop)))
            &&& after.schedule.force_reseal == (request is Reset || worker.schedule.force_reseal)
            &&& after.schedule.failures == worker.schedule.failures
            &&& after.schedule.deadline == worker.schedule.deadline
            &&& after.schedule.not_before == worker.schedule.not_before
            &&& after.vmgs == worker.vmgs
            &&& after.phase == worker.phase
        }),
        match worker.spec_reply(request) {
            StateReply::Done => request is Start || request is Stop || request is Reset,
            StateReply::Saved(saved) => request is Save && saved is None,
            StateReply::Restored(restored) => request is Restore && restored == Err::<
                (),
                RestoreError,
            >(RestoreError::SavedStateNotSupported),
            StateReply::Inspected(shown) => request is Inspect && shown.running
                == worker.schedule.running && shown.force_reseal == worker.schedule.force_reseal
                && shown.failures == worker.schedule.failures,
        },
{
}

/// From input to input a run moves between its phases and nowhere else: to a
/// request it found, to an attempt that it asked for, to its end when the
/// requests are closed, and from the first two back to waiting.
pub proof fn law_run_moves_between_its_phases(
    worker: HardwareReseal,
    notification: MigrationNotification,
    input: WorkerInput,
    jitter: u8,
)
    requires
        worker.spec_accepts(input),
    ensures
        ({
            let after = worker.spec_run(notification, input, jitter);
            let action = worker.spec_action(notification, input);
            &&& after.vmgs == worker.vmgs
            &&& match input {
                WorkerInput::Poll { requests, now } => {
                    &&& worker.phase == RunPhase::Waiting
                    &&& action == WorkerAction::Next(worker.spec_poll(notification, requests, now))
                    &&& after.schedule == worker.spec_polled(notification, requests, now).schedule
                    &&& after.phase == RunPhase::Applying <==> requests == RequestsPoll::Ready
                    &&& after.phase == RunPhase::Returned <==> requests == RequestsPoll::Closed
                    &&& after.phase == RunPhase::Attempting <==> action == WorkerAction::Next(
                        ResealPoll::Attempt,
                    )
                },
                WorkerInput::Request(request) => {
                    &&& worker.phase == RunPhase::Applying
                    &&& after.phase == RunPhase::Waiting
                    &&& after.schedule == worker.spec_apply(request).schedule
                    &&& action == WorkerAction::Reply(worker.spec_reply(request))
                    &&& worker.spec_run_latch(notification, input) == notification
                },
                WorkerInput::AttemptEnded { now, success } => {
                    &&& worker.phase == RunPhase::Attempting
                    &&& after.phase == RunPhase::Waiting
                    &&& after.schedule == worker.schedule.spec_completed(now, success, jitter)
                    &&& after.schedule.running == worker.schedule.running
                    &&& action is Poll
                    &&& worker.spec_run_latch(notification, input) == notification
                },
            }
        }),
{
}

/// An attempt carries the fetched key and the created protector unchanged
/// through all of its steps.
pub proof fn law_attempt_carries_key_and_protector<S>(key: [u8; 32], protector: Vec<u8>)
    ensures
        spec_key_fetched::<S>(Ok(key)) matches Ok(create) && create.key == key,
        (CreateProtector { key }).spec_created::<S>(Ok(protector)) matches Ok(verify) && verify.key
            == key && verify.protector == protector,
        (VerifyCreated { protector, key }).spec_verified::<S>(Ok(true)) matches Ok(publish)
            && publish.key == key && publish.protector == protector,
        (Publish { protector, key }).spec_published::<S>(Ok(true)) matches Ok(verify) && verify.key
            == key && verify.protector == protector,
        (VerifyStored { protector, key }).spec_verified::<S>(Ok(true)) is Ok,
{
}

/// Each step of an attempt fails with the failure it met, and with a reason of
/// its own where the key or the hardware has changed.
pub proof fn law_attempt_fails_for_its_reason<S>(
    key: [u8; 32],
    protector: Vec<u8>,
    vmgs: VmgsClientError,
    sealing: Error<S>,
)
    ensures
        spec_key_fetched::<S>(Err(vmgs)) == Err::<CreateProtector, ResealError<S>>(
            ResealError::Vmgs(vmgs),
        ),
        (CreateProtector { key }).spec_created(Err(sealing)) == Err::<VerifyCreated, ResealError<S>>(
            ResealError::Sealing(sealing),
        ),
        (VerifyCreated { protector, key }).spec_verified(Err(sealing)) == Err::<
            Publish,
            ResealError<S>,
        >(ResealError::Sealing(sealing)),
        (VerifyCreated { protector, key }).spec_verified::<S>(Ok(false)) == Err::<
            Publish,
            ResealError<S>,
        >(ResealError::HardwareChangedWhileConstructing),
        (Publish { protector, key }).spec_published::<S>(Err(vmgs)) == Err::<
            VerifyStored,
            ResealError<S>,
        >(ResealError::Vmgs(vmgs)),
        (Publish { protector, key }).spec_published::<S>(Ok(false)) == Err::<
            VerifyStored,
            ResealError<S>,
        >(ResealError::KeyChanged),
        (VerifyStored { protector, key }).spec_verified(Err(sealing)) == Err::<(), ResealError<S>>(
            ResealError::Sealing(sealing),
        ),
        (VerifyStored { protector, key }).spec_verified::<S>(Ok(false)) == Err::<
            (),
            ResealError<S>,
        >(ResealError::HardwareChangedWhilePersisting),
{
}

} // verus!
