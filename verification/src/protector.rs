//! The hardware key protector: the VMGS blob that carries the disk encryption
//! key sealed to the hardware.
//!
//! Two layouts exist. The legacy one is specific to SNP; version 3 names the
//! TEE and stores its security version number (SVN) in a fixed-size field.

use crate::bytes::{
    all_zero, fill_from, is_zero_from, le_bytes, le_value, lemma_le_bytes_len,
    lemma_le_bytes_of_value, lemma_le_spans, lemma_le_value_bound, lemma_le_value_of_bytes,
    push_all, push_le, read_le,
};
use vstd::prelude::*;

verus! {

/// The first legacy version, which no longer unseals.
pub const HW_KEY_PROTECTOR_VERSION_1: u32 = 1;

/// The legacy version that is still accepted.
pub const HW_KEY_PROTECTOR_VERSION_2: u32 = 2;

/// The version that is written today.
pub const HW_KEY_PROTECTOR_VERSION_3: u32 = 3;

/// Size of a legacy protector.
pub const HW_KEY_PROTECTOR_SIZE: usize = 104;

/// Size of a version 3 protector.
pub const HW_KEY_PROTECTOR_V3_SIZE: usize = 128;

/// Where the HMAC of a legacy protector starts; it authenticates all before it.
pub const HW_KEY_PROTECTOR_HMAC_OFFSET: usize = 72;

/// Where the HMAC of a version 3 protector starts; it authenticates all before it.
pub const HW_KEY_PROTECTOR_V3_HMAC_OFFSET: usize = 96;

/// `tee_type` of an SNP protector.
pub const HW_KEY_PROTECTOR_TEE_TYPE_SNP: u32 = 1;

/// `tee_type` of a TDX protector.
pub const HW_KEY_PROTECTOR_TEE_TYPE_TDX: u32 = 2;

/// The TEE a guest runs in.
#[derive(Clone, Copy, Debug, PartialEq, Eq, Structural)]
pub enum TeeType {
    Snp,
    Tdx,
    Cca,
    Vbs,
}

/// The security version number a hardware key is derived for.
#[derive(Clone, Copy, Debug, PartialEq, Eq)]
pub enum KeyDerivationSvn {
    Snp { tcb_version: u64 },
    Tdx { tee_tcb_svn: [u8; 16], cpu_svn: [u8; 16] },
}

/// What a hardware key is derived from.
#[derive(Clone, Copy, Debug, PartialEq, Eq)]
pub struct KeyDerivationPolicy {
    pub svn: KeyDerivationSvn,
    /// Whether the launch measurement is mixed into the key.
    pub mix_measurement: bool,
}

/// Header of a legacy protector.
#[derive(Clone, Copy, Debug, PartialEq, Eq)]
pub struct HardwareKeyProtectorHeader {
    pub version: u32,
    pub length: u32,
    pub tcb_version: u64,
    pub mix_measurement: u8,
    pub _reserved: [u8; 7],
}

/// A legacy protector.
#[derive(Clone, Copy, Debug, PartialEq, Eq)]
pub struct HardwareKeyProtector {
    pub header: HardwareKeyProtectorHeader,
    pub iv: [u8; 16],
    pub ciphertext: [u8; 32],
    pub hmac: [u8; 32],
}

/// Header of a version 3 protector.
#[derive(Clone, Copy, Debug, PartialEq, Eq)]
pub struct HardwareKeyProtectorHeaderV3 {
    pub version: u32,
    pub length: u32,
    pub tee_type: u32,
    pub mix_measurement: u8,
    pub _reserved: [u8; 3],
    pub svn: [u8; 32],
}

/// A version 3 protector.
#[derive(Clone, Copy, Debug, PartialEq, Eq)]
pub struct HardwareKeyProtectorV3 {
    pub header: HardwareKeyProtectorHeaderV3,
    pub iv: [u8; 16],
    pub ciphertext: [u8; 32],
    pub hmac: [u8; 32],
}

/// A protector of either layout.
#[derive(Clone, Copy, Debug, PartialEq, Eq)]
pub enum HwKeyProtector {
    Legacy(HardwareKeyProtector),
    V3(HardwareKeyProtectorV3),
}

/// The blob has the size of no protector.
#[derive(Clone, Copy, Debug, PartialEq, Eq)]
pub struct InvalidProtectorSize {
    pub size: usize,
}

impl HardwareKeyProtectorHeader {
    /// The bytes of the header.
    pub open spec fn encoded(self) -> Seq<u8> {
        le_bytes(self.version as nat, 4) + le_bytes(self.length as nat, 4) + le_bytes(
            self.tcb_version as nat,
            8,
        ) + seq![self.mix_measurement] + self._reserved@
    }

    /// A header with zero reserved bytes.
    pub fn new(version: u32, length: u32, tcb_version: u64, mix_measurement: u8) -> (header: Self)
        ensures
            header.version == version,
            header.length == length,
            header.tcb_version == tcb_version,
            header.mix_measurement == mix_measurement,
            all_zero(header._reserved@),
    {
        HardwareKeyProtectorHeader {
            version,
            length,
            tcb_version,
            mix_measurement,
            _reserved: [0u8; 7],
        }
    }
}

impl HardwareKeyProtector {
    /// The bytes of the protector.
    pub open spec fn encoded(self) -> Seq<u8> {
        self.header.encoded() + self.iv@ + self.ciphertext@ + self.hmac@
    }

    /// The bytes of the protector, as stored.
    pub fn as_bytes(&self) -> (bytes: Vec<u8>)
        ensures
            bytes@ == self.encoded(),
            bytes@.len() == HW_KEY_PROTECTOR_SIZE,
    {
        let mut bytes: Vec<u8> = Vec::new();
        push_le(&mut bytes, self.header.version as u64, 4);
        push_le(&mut bytes, self.header.length as u64, 4);
        push_le(&mut bytes, self.header.tcb_version, 8);
        bytes.push(self.header.mix_measurement);
        push_all(&mut bytes, &self.header._reserved);
        push_all(&mut bytes, &self.iv);
        push_all(&mut bytes, &self.ciphertext);
        push_all(&mut bytes, &self.hmac);
        assert(bytes@ =~= self.encoded());
        proof {
            lemma_legacy_len(*self);
        }
        bytes
    }
}

impl HardwareKeyProtectorHeaderV3 {
    /// The bytes of the header.
    pub open spec fn encoded(self) -> Seq<u8> {
        le_bytes(self.version as nat, 4) + le_bytes(self.length as nat, 4) + le_bytes(
            self.tee_type as nat,
            4,
        ) + seq![self.mix_measurement] + self._reserved@ + self.svn@
    }

    /// The header that records `policy`.
    pub open spec fn records(self, policy: KeyDerivationPolicy) -> bool {
        &&& self.version == HW_KEY_PROTECTOR_VERSION_3
        &&& self.length == HW_KEY_PROTECTOR_V3_SIZE
        &&& self.mix_measurement == (if policy.mix_measurement {
            1u8
        } else {
            0u8
        })
        &&& all_zero(self._reserved@)
        &&& match policy.svn {
            KeyDerivationSvn::Snp { tcb_version } => {
                &&& self.tee_type == HW_KEY_PROTECTOR_TEE_TYPE_SNP
                &&& self.svn@.subrange(0, 8) == le_bytes(tcb_version as nat, 8)
                &&& all_zero(self.svn@.subrange(8, 32))
            },
            KeyDerivationSvn::Tdx { tee_tcb_svn, cpu_svn } => {
                &&& self.tee_type == HW_KEY_PROTECTOR_TEE_TYPE_TDX
                &&& self.svn@ == tee_tcb_svn@ + cpu_svn@
            },
        }
    }

    /// The canonical header of a protector that is sealed under `policy`.
    pub fn new(policy: KeyDerivationPolicy) -> (header: Self)
        ensures
            header.records(policy),
    {
        let mut encoded: Vec<u8> = Vec::new();
        let tee_type: u32 = match policy.svn {
            KeyDerivationSvn::Snp { tcb_version } => {
                push_le(&mut encoded, tcb_version, 8);
                proof {
                    lemma_le_bytes_len(tcb_version as nat, 8);
                }
                push_all(&mut encoded, &[0u8; 24]);
                HW_KEY_PROTECTOR_TEE_TYPE_SNP
            },
            KeyDerivationSvn::Tdx { tee_tcb_svn, cpu_svn } => {
                push_all(&mut encoded, &tee_tcb_svn);
                push_all(&mut encoded, &cpu_svn);
                HW_KEY_PROTECTOR_TEE_TYPE_TDX
            },
        };
        assert(encoded@.len() == 32);
        let mut svn: [u8; 32] = [0u8; 32];
        fill_from(&mut svn, encoded.as_slice(), 0);
        assert(svn@ =~= encoded@);
        let header = HardwareKeyProtectorHeaderV3 {
            version: HW_KEY_PROTECTOR_VERSION_3,
            length: 128,
            tee_type,
            mix_measurement: if policy.mix_measurement {
                1
            } else {
                0
            },
            _reserved: [0u8; 3],
            svn,
        };
        proof {
            if let KeyDerivationSvn::Snp { tcb_version } = policy.svn {
                assert(svn@.subrange(0, 8) =~= le_bytes(tcb_version as nat, 8));
            } else if let KeyDerivationSvn::Tdx { tee_tcb_svn, cpu_svn } = policy.svn {
                assert(svn@ =~= tee_tcb_svn@ + cpu_svn@);
            }
        }
        header
    }
}

impl HardwareKeyProtectorV3 {
    /// The bytes of the protector.
    pub open spec fn encoded(self) -> Seq<u8> {
        self.header.encoded() + self.iv@ + self.ciphertext@ + self.hmac@
    }

    /// The bytes of the protector, as stored.
    pub fn as_bytes(&self) -> (bytes: Vec<u8>)
        ensures
            bytes@ == self.encoded(),
            bytes@.len() == HW_KEY_PROTECTOR_V3_SIZE,
    {
        let mut bytes: Vec<u8> = Vec::new();
        push_le(&mut bytes, self.header.version as u64, 4);
        push_le(&mut bytes, self.header.length as u64, 4);
        push_le(&mut bytes, self.header.tee_type as u64, 4);
        bytes.push(self.header.mix_measurement);
        push_all(&mut bytes, &self.header._reserved);
        push_all(&mut bytes, &self.header.svn);
        push_all(&mut bytes, &self.iv);
        push_all(&mut bytes, &self.ciphertext);
        push_all(&mut bytes, &self.hmac);
        assert(bytes@ =~= self.encoded());
        proof {
            lemma_v3_len(*self);
        }
        bytes
    }
}

impl HwKeyProtector {
    /// The bytes of the protector.
    pub open spec fn encoded(self) -> Seq<u8> {
        match self {
            HwKeyProtector::Legacy(p) => p.encoded(),
            HwKeyProtector::V3(p) => p.encoded(),
        }
    }

    /// The version that the header claims.
    pub fn version(&self) -> (version: u32)
        ensures
            version == (match *self {
                HwKeyProtector::Legacy(p) => p.header.version,
                HwKeyProtector::V3(p) => p.header.version,
            }),
    {
        match self {
            HwKeyProtector::Legacy(p) => p.header.version,
            HwKeyProtector::V3(p) => p.header.version,
        }
    }

    /// Whether the header is one that some version writes: its version and
    /// length fit the layout, the flag is a truth value and unused bytes are
    /// zero.
    pub open spec fn canonical(self) -> bool {
        match self {
            HwKeyProtector::Legacy(p) => {
                &&& p.header.version == HW_KEY_PROTECTOR_VERSION_2
                &&& p.header.length == HW_KEY_PROTECTOR_SIZE
                &&& p.header.mix_measurement <= 1
                &&& all_zero(p.header._reserved@)
            },
            HwKeyProtector::V3(p) => {
                &&& p.header.version == HW_KEY_PROTECTOR_VERSION_3
                &&& p.header.length == HW_KEY_PROTECTOR_V3_SIZE
                &&& p.header.mix_measurement <= 1
                &&& all_zero(p.header._reserved@)
                &&& p.header.tee_type == HW_KEY_PROTECTOR_TEE_TYPE_SNP ==> all_zero(
                    p.header.svn@.subrange(8, 32),
                )
            },
        }
    }

    /// Whether `policy` is the one that the protector records.
    pub open spec fn stores(self, policy: KeyDerivationPolicy) -> bool {
        match self {
            HwKeyProtector::Legacy(p) => {
                &&& policy.svn == (KeyDerivationSvn::Snp { tcb_version: p.header.tcb_version })
                &&& policy.mix_measurement == (p.header.mix_measurement != 0)
            },
            HwKeyProtector::V3(p) => {
                &&& policy.mix_measurement == (p.header.mix_measurement != 0)
                &&& match policy.svn {
                    KeyDerivationSvn::Snp { tcb_version } => {
                        &&& p.header.tee_type == HW_KEY_PROTECTOR_TEE_TYPE_SNP
                        &&& tcb_version == le_value(p.header.svn@.subrange(0, 8))
                    },
                    KeyDerivationSvn::Tdx { tee_tcb_svn, cpu_svn } => {
                        &&& p.header.tee_type == HW_KEY_PROTECTOR_TEE_TYPE_TDX
                        &&& tee_tcb_svn@ == p.header.svn@.subrange(0, 16)
                        &&& cpu_svn@ == p.header.svn@.subrange(16, 32)
                    },
                }
            },
        }
    }

    /// Whether the protector names a TEE that seals keys.
    pub open spec fn names_known_tee(self) -> bool {
        match self {
            HwKeyProtector::Legacy(_) => true,
            HwKeyProtector::V3(p) => p.header.tee_type == HW_KEY_PROTECTOR_TEE_TYPE_SNP
                || p.header.tee_type == HW_KEY_PROTECTOR_TEE_TYPE_TDX,
        }
    }

    /// The policy that the protector records, or `None` for an unknown TEE.
    pub fn key_derivation_policy(&self) -> (policy: Option<KeyDerivationPolicy>)
        ensures
            policy is Some <==> self.names_known_tee(),
            policy is Some ==> self.stores(policy->0),
    {
        match self {
            HwKeyProtector::Legacy(p) => Some(
                KeyDerivationPolicy {
                    svn: KeyDerivationSvn::Snp { tcb_version: p.header.tcb_version },
                    mix_measurement: p.header.mix_measurement != 0,
                },
            ),
            HwKeyProtector::V3(p) => {
                let mix_measurement = p.header.mix_measurement != 0;
                if p.header.tee_type == HW_KEY_PROTECTOR_TEE_TYPE_SNP {
                    let tcb_version: u64 = read_le(&p.header.svn, 0, 8);
                    Some(
                        KeyDerivationPolicy {
                            svn: KeyDerivationSvn::Snp { tcb_version },
                            mix_measurement,
                        },
                    )
                } else if p.header.tee_type == HW_KEY_PROTECTOR_TEE_TYPE_TDX {
                    let mut tee_tcb_svn: [u8; 16] = [0u8; 16];
                    let mut cpu_svn: [u8; 16] = [0u8; 16];
                    fill_from(&mut tee_tcb_svn, &p.header.svn, 0);
                    fill_from(&mut cpu_svn, &p.header.svn, 16);
                    Some(
                        KeyDerivationPolicy {
                            svn: KeyDerivationSvn::Tdx { tee_tcb_svn, cpu_svn },
                            mix_measurement,
                        },
                    )
                } else {
                    None
                }
            },
        }
    }
}

/// Reads a protector. The size of the blob alone decides its layout.
pub fn parse_hardware_key_protector(bytes: &[u8]) -> (parsed: Result<
    HwKeyProtector,
    InvalidProtectorSize,
>)
    ensures
        match parsed {
            Ok(protector) => protector.encoded() == bytes@ && (protector is Legacy <==> bytes@.len()
                == HW_KEY_PROTECTOR_SIZE) && (protector is V3 <==> bytes@.len()
                == HW_KEY_PROTECTOR_V3_SIZE),
            Err(error) => error.size == bytes@.len() && bytes@.len() != HW_KEY_PROTECTOR_SIZE
                && bytes@.len() != HW_KEY_PROTECTOR_V3_SIZE,
        },
{
    if bytes.len() == HW_KEY_PROTECTOR_SIZE {
        Ok(HwKeyProtector::Legacy(parse_legacy(bytes)))
    } else if bytes.len() == HW_KEY_PROTECTOR_V3_SIZE {
        Ok(HwKeyProtector::V3(parse_v3(bytes)))
    } else {
        Err(InvalidProtectorSize { size: bytes.len() })
    }
}

fn parse_legacy(bytes: &[u8]) -> (protector: HardwareKeyProtector)
    requires
        bytes@.len() == HW_KEY_PROTECTOR_SIZE,
    ensures
        protector.encoded() == bytes@,
{
    let version: u64 = read_le(bytes, 0, 4);
    let length: u64 = read_le(bytes, 4, 4);
    let tcb_version: u64 = read_le(bytes, 8, 8);
    let mut reserved: [u8; 7] = [0u8; 7];
    let mut iv: [u8; 16] = [0u8; 16];
    let mut ciphertext: [u8; 32] = [0u8; 32];
    let mut hmac: [u8; 32] = [0u8; 32];
    fill_from(&mut reserved, bytes, 17);
    fill_from(&mut iv, bytes, 24);
    fill_from(&mut ciphertext, bytes, 40);
    fill_from(&mut hmac, bytes, 72);
    proof {
        lemma_le_spans();
        lemma_le_value_bound(bytes@.subrange(0, 4));
        lemma_le_value_bound(bytes@.subrange(4, 8));
        lemma_le_bytes_of_value(bytes@.subrange(0, 4));
        lemma_le_bytes_of_value(bytes@.subrange(4, 8));
        lemma_le_bytes_of_value(bytes@.subrange(8, 16));
    }
    let protector = HardwareKeyProtector {
        header: HardwareKeyProtectorHeader {
            version: version as u32,
            length: length as u32,
            tcb_version,
            mix_measurement: bytes[16],
            _reserved: reserved,
        },
        iv,
        ciphertext,
        hmac,
    };
    assert(protector.encoded() =~= bytes@);
    protector
}

fn parse_v3(bytes: &[u8]) -> (protector: HardwareKeyProtectorV3)
    requires
        bytes@.len() == HW_KEY_PROTECTOR_V3_SIZE,
    ensures
        protector.encoded() == bytes@,
{
    let version: u64 = read_le(bytes, 0, 4);
    let length: u64 = read_le(bytes, 4, 4);
    let tee_type: u64 = read_le(bytes, 8, 4);
    let mut reserved: [u8; 3] = [0u8; 3];
    let mut svn: [u8; 32] = [0u8; 32];
    let mut iv: [u8; 16] = [0u8; 16];
    let mut ciphertext: [u8; 32] = [0u8; 32];
    let mut hmac: [u8; 32] = [0u8; 32];
    fill_from(&mut reserved, bytes, 13);
    fill_from(&mut svn, bytes, 16);
    fill_from(&mut iv, bytes, 48);
    fill_from(&mut ciphertext, bytes, 64);
    fill_from(&mut hmac, bytes, 96);
    proof {
        lemma_le_spans();
        lemma_le_value_bound(bytes@.subrange(0, 4));
        lemma_le_value_bound(bytes@.subrange(4, 8));
        lemma_le_value_bound(bytes@.subrange(8, 12));
        lemma_le_bytes_of_value(bytes@.subrange(0, 4));
        lemma_le_bytes_of_value(bytes@.subrange(4, 8));
        lemma_le_bytes_of_value(bytes@.subrange(8, 12));
    }
    let protector = HardwareKeyProtectorV3 {
        header: HardwareKeyProtectorHeaderV3 {
            version: version as u32,
            length: length as u32,
            tee_type: tee_type as u32,
            mix_measurement: bytes[12],
            _reserved: reserved,
            svn,
        },
        iv,
        ciphertext,
        hmac,
    };
    assert(protector.encoded() =~= bytes@);
    protector
}

/// Reject unknown formats and noncanonical headers before the SVN or policy
/// bytes are interpreted.
pub fn validated_policy(protector: &HwKeyProtector) -> (policy: Option<KeyDerivationPolicy>)
    ensures
        policy is Some <==> protector.canonical() && protector.names_known_tee(),
        policy is Some ==> protector.stores(policy->0),
{
    match protector {
        HwKeyProtector::Legacy(p) => {
            assert(p.header._reserved@.subrange(0, 7) =~= p.header._reserved@);
            if p.header.version != HW_KEY_PROTECTOR_VERSION_2 || p.header.length as usize
                != HW_KEY_PROTECTOR_SIZE || p.header.mix_measurement > 1 || !is_zero_from(
                &p.header._reserved,
                0,
            ) {
                return None;
            }
        },
        HwKeyProtector::V3(p) => {
            assert(p.header._reserved@.subrange(0, 3) =~= p.header._reserved@);
            if p.header.version != HW_KEY_PROTECTOR_VERSION_3 || p.header.length as usize
                != HW_KEY_PROTECTOR_V3_SIZE || p.header.mix_measurement > 1 || !is_zero_from(
                &p.header._reserved,
                0,
            ) {
                return None;
            }
            if p.header.tee_type == HW_KEY_PROTECTOR_TEE_TYPE_SNP && !is_zero_from(
                &p.header.svn,
                8,
            ) {
                return None;
            }
        },
    }
    protector.key_derivation_policy()
}

proof fn lemma_legacy_len(p: HardwareKeyProtector)
    ensures
        p.header.encoded().len() == 24,
        p.encoded().len() == HW_KEY_PROTECTOR_SIZE,
{
    lemma_le_bytes_len(p.header.version as nat, 4);
    lemma_le_bytes_len(p.header.length as nat, 4);
    lemma_le_bytes_len(p.header.tcb_version as nat, 8);
}

proof fn lemma_v3_len(p: HardwareKeyProtectorV3)
    ensures
        p.header.encoded().len() == 48,
        p.encoded().len() == HW_KEY_PROTECTOR_V3_SIZE,
{
    lemma_le_bytes_len(p.header.version as nat, 4);
    lemma_le_bytes_len(p.header.length as nat, 4);
    lemma_le_bytes_len(p.header.tee_type as nat, 4);
}

/// Where the fields of a legacy protector lie in its bytes.
pub proof fn lemma_legacy_fields(p: HardwareKeyProtector)
    ensures
        p.header.version == le_value(p.encoded().subrange(0, 4)),
        p.header.length == le_value(p.encoded().subrange(4, 8)),
        p.header.tcb_version == le_value(p.encoded().subrange(8, 16)),
        p.header.mix_measurement == p.encoded()[16],
        p.header._reserved@ == p.encoded().subrange(17, 24),
        p.iv@ == p.encoded().subrange(24, 40),
        p.ciphertext@ == p.encoded().subrange(40, 72),
        p.hmac@ == p.encoded().subrange(72, 104),
{
    lemma_legacy_len(p);
    lemma_le_spans();
    lemma_le_bytes_len(p.header.version as nat, 4);
    lemma_le_bytes_len(p.header.length as nat, 4);
    lemma_le_bytes_len(p.header.tcb_version as nat, 8);
    lemma_le_value_of_bytes(p.header.version as nat, 4);
    lemma_le_value_of_bytes(p.header.length as nat, 4);
    lemma_le_value_of_bytes(p.header.tcb_version as nat, 8);
    assert(p.encoded().subrange(0, 4) =~= le_bytes(p.header.version as nat, 4));
    assert(p.encoded().subrange(4, 8) =~= le_bytes(p.header.length as nat, 4));
    assert(p.encoded().subrange(8, 16) =~= le_bytes(p.header.tcb_version as nat, 8));
    assert(p.encoded().subrange(17, 24) =~= p.header._reserved@);
    assert(p.encoded().subrange(24, 40) =~= p.iv@);
    assert(p.encoded().subrange(40, 72) =~= p.ciphertext@);
    assert(p.encoded().subrange(72, 104) =~= p.hmac@);
}

/// Where the fields of a version 3 protector lie in its bytes.
pub proof fn lemma_v3_fields(p: HardwareKeyProtectorV3)
    ensures
        p.header.version == le_value(p.encoded().subrange(0, 4)),
        p.header.length == le_value(p.encoded().subrange(4, 8)),
        p.header.tee_type == le_value(p.encoded().subrange(8, 12)),
        p.header.mix_measurement == p.encoded()[12],
        p.header._reserved@ == p.encoded().subrange(13, 16),
        p.header.svn@ == p.encoded().subrange(16, 48),
        p.iv@ == p.encoded().subrange(48, 64),
        p.ciphertext@ == p.encoded().subrange(64, 96),
        p.hmac@ == p.encoded().subrange(96, 128),
{
    lemma_v3_len(p);
    lemma_le_spans();
    lemma_le_bytes_len(p.header.version as nat, 4);
    lemma_le_bytes_len(p.header.length as nat, 4);
    lemma_le_bytes_len(p.header.tee_type as nat, 4);
    lemma_le_value_of_bytes(p.header.version as nat, 4);
    lemma_le_value_of_bytes(p.header.length as nat, 4);
    lemma_le_value_of_bytes(p.header.tee_type as nat, 4);
    assert(p.encoded().subrange(0, 4) =~= le_bytes(p.header.version as nat, 4));
    assert(p.encoded().subrange(4, 8) =~= le_bytes(p.header.length as nat, 4));
    assert(p.encoded().subrange(8, 12) =~= le_bytes(p.header.tee_type as nat, 4));
    assert(p.encoded().subrange(13, 16) =~= p.header._reserved@);
    assert(p.encoded().subrange(16, 48) =~= p.header.svn@);
    assert(p.encoded().subrange(48, 64) =~= p.iv@);
    assert(p.encoded().subrange(64, 96) =~= p.ciphertext@);
    assert(p.encoded().subrange(96, 128) =~= p.hmac@);
}

/// The two layouts have different sizes.
pub proof fn lemma_encoded_len(p: HwKeyProtector)
    ensures
        p.encoded().len() == (match p {
            HwKeyProtector::Legacy(_) => HW_KEY_PROTECTOR_SIZE,
            HwKeyProtector::V3(_) => HW_KEY_PROTECTOR_V3_SIZE,
        }),
{
    match p {
        HwKeyProtector::Legacy(q) => lemma_legacy_len(q),
        HwKeyProtector::V3(q) => lemma_v3_len(q),
    }
}

/// Stored bytes belong to one protector only, so reading back what was
/// written gives the protector that was written.
pub proof fn law_encoding_is_injective(p: HwKeyProtector, q: HwKeyProtector)
    requires
        p.encoded() == q.encoded(),
    ensures
        p == q,
{
    lemma_encoded_len(p);
    lemma_encoded_len(q);
    match (p, q) {
        (HwKeyProtector::Legacy(a), HwKeyProtector::Legacy(b)) => {
            lemma_legacy_fields(a);
            lemma_legacy_fields(b);
            assert(a.header._reserved =~= b.header._reserved);
            assert(a.iv =~= b.iv);
            assert(a.ciphertext =~= b.ciphertext);
            assert(a.hmac =~= b.hmac);
        },
        (HwKeyProtector::V3(a), HwKeyProtector::V3(b)) => {
            lemma_v3_fields(a);
            lemma_v3_fields(b);
            assert(a.header._reserved =~= b.header._reserved);
            assert(a.header.svn =~= b.header.svn);
            assert(a.iv =~= b.iv);
            assert(a.ciphertext =~= b.ciphertext);
            assert(a.hmac =~= b.hmac);
        },
        _ => {},
    }
}

/// A protector records one policy only.
pub proof fn law_stored_policy_is_unique(
    p: HwKeyProtector,
    a: KeyDerivationPolicy,
    b: KeyDerivationPolicy,
)
    requires
        p.stores(a),
        p.stores(b),
    ensures
        a == b,
{
    match (a.svn, b.svn) {
        (
            KeyDerivationSvn::Tdx { tee_tcb_svn: x, cpu_svn: y },
            KeyDerivationSvn::Tdx { tee_tcb_svn: z, cpu_svn: w },
        ) => {
            assert(x =~= z);
            assert(y =~= w);
        },
        _ => {},
    }
}

/// A protector sealed under a policy validates to exactly that policy.
pub proof fn law_sealed_header_validates(p: HardwareKeyProtectorV3, policy: KeyDerivationPolicy)
    requires
        p.header.records(policy),
    ensures
        HwKeyProtector::V3(p).canonical(),
        HwKeyProtector::V3(p).names_known_tee(),
        HwKeyProtector::V3(p).stores(policy),
{
    match policy.svn {
        KeyDerivationSvn::Snp { tcb_version } => {
            lemma_le_spans();
            lemma_le_value_of_bytes(tcb_version as nat, 8);
        },
        KeyDerivationSvn::Tdx { tee_tcb_svn, cpu_svn } => {
            assert(p.header.svn@.subrange(0, 16) =~= tee_tcb_svn@);
            assert(p.header.svn@.subrange(16, 32) =~= cpu_svn@);
        },
    }
}

} // verus!
