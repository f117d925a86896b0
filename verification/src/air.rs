//! The AIR identifier registry: a stable, ordered enumeration of chip
//! kinds, with the distinguished core subset that is active in every
//! non-precompile shard, and the identifier-to-name mapping.
use vstd::prelude::*;

verus! {

/// A MIPS AIR identifier: one entry per chip in the prover.
#[derive(Clone, Copy, Debug, PartialEq, Eq, Structural, Hash, PartialOrd, Ord)]
pub enum MipsAirId {
    /// The CPU chip.
    Cpu,
    /// The program chip.
    Program,
    /// The SHA-256 extend chip.
    ShaExtend,
    /// The SHA-256 compress chip.
    ShaCompress,
    /// The Edwards add assign chip.
    EdAddAssign,
    /// The Edwards decompress chip.
    EdDecompress,
    /// The secp256k1 decompress chip.
    Secp256k1Decompress,
    /// The secp256k1 add assign chip.
    Secp256k1AddAssign,
    /// The secp256k1 double assign chip.
    Secp256k1DoubleAssign,
    /// The secp256r1 decompress chip.
    Secp256r1Decompress,
    /// The secp256r1 add assign chip.
    Secp256r1AddAssign,
    /// The secp256r1 double assign chip.
    Secp256r1DoubleAssign,
    /// The Keccak sponge chip.
    KeccakSponge,
    /// The bn254 add assign chip.
    Bn254AddAssign,
    /// The bn254 double assign chip.
    Bn254DoubleAssign,
    /// The bls12-381 add assign chip.
    Bls12381AddAssign,
    /// The bls12-381 double assign chip.
    Bls12381DoubleAssign,
    /// The uint256 mul mod chip.
    Uint256MulMod,
    /// The u256 x u2048 mul chip.
    U256XU2048Mul,
    /// The bls12-381 fp op assign chip.
    Bls12381FpOpAssign,
    /// The bls12-831 fp2 add sub assign chip.
    Bls12831Fp2AddSubAssign,
    /// The bls12-831 fp2 mul assign chip.
    Bls12831Fp2MulAssign,
    /// The bn254 fp op assign chip.
    Bn254FpOpAssign,
    /// The bn254 fp2 add sub assign chip.
    Bn254Fp2AddSubAssign,
    /// The bn254 fp2 mul assign chip.
    Bn254Fp2MulAssign,
    /// The bls12-381 decompress chip.
    Bls12381Decompress,
    /// The syscall core chip.
    SyscallCore,
    /// The syscall precompile chip.
    SyscallPrecompile,
    /// The div rem chip.
    DivRem,
    /// The add sub chip.
    AddSub,
    /// The bitwise chip.
    Bitwise,
    /// The mul chip.
    Mul,
    /// The shift right chip.
    ShiftRight,
    /// The shift left chip.
    ShiftLeft,
    /// The lt chip.
    Lt,
    /// The count-leading-bits chip.
    CloClz,
    /// The branch chip.
    Branch,
    /// The jump chip.
    Jump,
    /// The syscall instruction chip.
    SyscallInstrs,
    /// The memory instruction chip.
    MemoryInstrs,
    /// The misc instruction chip.
    MiscInstrs,
    /// The memory global init chip.
    MemoryGlobalInit,
    /// The memory global finalize chip.
    MemoryGlobalFinalize,
    /// The memory local chip.
    MemoryLocal,
    /// The global chip.
    Global,
    /// The byte chip.
    Byte,
}

/// Relies on the `PartialEq` implementation of `str`: two string slices
/// compare equal exactly when they hold the same characters.
#[verifier::external_body]
fn str_eq(a: &str, b: &str) -> (r: bool)
    ensures
        r == (a@ == b@),
{
    a == b
}

impl MipsAirId {
    /// The name of the chip, as a sequence of characters.
    pub open spec fn spec_name(self) -> Seq<char> {
        match self {
            MipsAirId::Cpu => "Cpu"@,
            MipsAirId::Program => "Program"@,
            MipsAirId::ShaExtend => "ShaExtend"@,
            MipsAirId::ShaCompress => "ShaCompress"@,
            MipsAirId::EdAddAssign => "EdAddAssign"@,
            MipsAirId::EdDecompress => "EdDecompress"@,
            MipsAirId::Secp256k1Decompress => "Secp256k1Decompress"@,
            MipsAirId::Secp256k1AddAssign => "Secp256k1AddAssign"@,
            MipsAirId::Secp256k1DoubleAssign => "Secp256k1DoubleAssign"@,
            MipsAirId::Secp256r1Decompress => "Secp256r1Decompress"@,
            MipsAirId::Secp256r1AddAssign => "Secp256r1AddAssign"@,
            MipsAirId::Secp256r1DoubleAssign => "Secp256r1DoubleAssign"@,
            MipsAirId::KeccakSponge => "KeccakSponge"@,
            MipsAirId::Bn254AddAssign => "Bn254AddAssign"@,
            MipsAirId::Bn254DoubleAssign => "Bn254DoubleAssign"@,
            MipsAirId::Bls12381AddAssign => "Bls12381AddAssign"@,
            MipsAirId::Bls12381DoubleAssign => "Bls12381DoubleAssign"@,
            MipsAirId::Uint256MulMod => "Uint256MulMod"@,
            MipsAirId::U256XU2048Mul => "U256XU2048Mul"@,
            MipsAirId::Bls12381FpOpAssign => "Bls12381FpOpAssign"@,
            MipsAirId::Bls12831Fp2AddSubAssign => "Bls12831Fp2AddSubAssign"@,
            MipsAirId::Bls12831Fp2MulAssign => "Bls12831Fp2MulAssign"@,
            MipsAirId::Bn254FpOpAssign => "Bn254FpOpAssign"@,
            MipsAirId::Bn254Fp2AddSubAssign => "Bn254Fp2AddSubAssign"@,
            MipsAirId::Bn254Fp2MulAssign => "Bn254Fp2MulAssign"@,
            MipsAirId::Bls12381Decompress => "Bls12381Decompress"@,
            MipsAirId::SyscallCore => "SyscallCore"@,
            MipsAirId::SyscallPrecompile => "SyscallPrecompile"@,
            MipsAirId::DivRem => "DivRem"@,
            MipsAirId::AddSub => "AddSub"@,
            MipsAirId::Bitwise => "Bitwise"@,
            MipsAirId::Mul => "Mul"@,
            MipsAirId::ShiftRight => "ShiftRight"@,
            MipsAirId::ShiftLeft => "ShiftLeft"@,
            MipsAirId::Lt => "Lt"@,
            MipsAirId::CloClz => "CloClz"@,
            MipsAirId::Branch => "Branch"@,
            MipsAirId::Jump => "Jump"@,
            MipsAirId::SyscallInstrs => "SyscallInstrs"@,
            MipsAirId::MemoryInstrs => "MemoryInstrs"@,
            MipsAirId::MiscInstrs => "MiscInstrs"@,
            MipsAirId::MemoryGlobalInit => "MemoryGlobalInit"@,
            MipsAirId::MemoryGlobalFinalize => "MemoryGlobalFinalize"@,
            MipsAirId::MemoryLocal => "MemoryLocal"@,
            MipsAirId::Global => "Global"@,
            MipsAirId::Byte => "Byte"@,
        }
    }

    /// Returns the string representation of the AIR.
    pub fn as_str(&self) -> (r: &'static str)
        ensures
            r@ == self.spec_name(),
    {
        match self {
            MipsAirId::Cpu => "Cpu",
            MipsAirId::Program => "Program",
            MipsAirId::ShaExtend => "ShaExtend",
            MipsAirId::ShaCompress => "ShaCompress",
            MipsAirId::EdAddAssign => "EdAddAssign",
            MipsAirId::EdDecompress => "EdDecompress",
            MipsAirId::Secp256k1Decompress => "Secp256k1Decompress",
            MipsAirId::Secp256k1AddAssign => "Secp256k1AddAssign",
            MipsAirId::Secp256k1DoubleAssign => "Secp256k1DoubleAssign",
            MipsAirId::Secp256r1Decompress => "Secp256r1Decompress",
            MipsAirId::Secp256r1AddAssign => "Secp256r1AddAssign",
            MipsAirId::Secp256r1DoubleAssign => "Secp256r1DoubleAssign",
            MipsAirId::KeccakSponge => "KeccakSponge",
            MipsAirId::Bn254AddAssign => "Bn254AddAssign",
            MipsAirId::Bn254DoubleAssign => "Bn254DoubleAssign",
            MipsAirId::Bls12381AddAssign => "Bls12381AddAssign",
            MipsAirId::Bls12381DoubleAssign => "Bls12381DoubleAssign",
            MipsAirId::Uint256MulMod => "Uint256MulMod",
            MipsAirId::U256XU2048Mul => "U256XU2048Mul",
            MipsAirId::Bls12381FpOpAssign => "Bls12381FpOpAssign",
            MipsAirId::Bls12831Fp2AddSubAssign => "Bls12831Fp2AddSubAssign",
            MipsAirId::Bls12831Fp2MulAssign => "Bls12831Fp2MulAssign",
            MipsAirId::Bn254FpOpAssign => "Bn254FpOpAssign",
            MipsAirId::Bn254Fp2AddSubAssign => "Bn254Fp2AddSubAssign",
            MipsAirId::Bn254Fp2MulAssign => "Bn254Fp2MulAssign",
            MipsAirId::Bls12381Decompress => "Bls12381Decompress",
            MipsAirId::SyscallCore => "SyscallCore",
            MipsAirId::SyscallPrecompile => "SyscallPrecompile",
            MipsAirId::DivRem => "DivRem",
            MipsAirId::AddSub => "AddSub",
            MipsAirId::Bitwise => "Bitwise",
            MipsAirId::Mul => "Mul",
            MipsAirId::ShiftRight => "ShiftRight",
            MipsAirId::ShiftLeft => "ShiftLeft",
            MipsAirId::Lt => "Lt",
            MipsAirId::CloClz => "CloClz",
            MipsAirId::Branch => "Branch",
            MipsAirId::Jump => "Jump",
            MipsAirId::SyscallInstrs => "SyscallInstrs",
            MipsAirId::MemoryInstrs => "MemoryInstrs",
            MipsAirId::MiscInstrs => "MiscInstrs",
            MipsAirId::MemoryGlobalInit => "MemoryGlobalInit",
            MipsAirId::MemoryGlobalFinalize => "MemoryGlobalFinalize",
            MipsAirId::MemoryLocal => "MemoryLocal",
            MipsAirId::Global => "Global",
            MipsAirId::Byte => "Byte",
        }
    }

    /// Every identifier, in registry order.
    pub open spec fn spec_all_ids() -> Seq<MipsAirId> {
        seq![
            MipsAirId::Cpu,
            MipsAirId::Program,
            MipsAirId::ShaExtend,
            MipsAirId::ShaCompress,
            MipsAirId::EdAddAssign,
            MipsAirId::EdDecompress,
            MipsAirId::Secp256k1Decompress,
            MipsAirId::Secp256k1AddAssign,
            MipsAirId::Secp256k1DoubleAssign,
            MipsAirId::Secp256r1Decompress,
            MipsAirId::Secp256r1AddAssign,
            MipsAirId::Secp256r1DoubleAssign,
            MipsAirId::KeccakSponge,
            MipsAirId::Bn254AddAssign,
            MipsAirId::Bn254DoubleAssign,
            MipsAirId::Bls12381AddAssign,
            MipsAirId::Bls12381DoubleAssign,
            MipsAirId::Uint256MulMod,
            MipsAirId::U256XU2048Mul,
            MipsAirId::Bls12381FpOpAssign,
            MipsAirId::Bls12831Fp2AddSubAssign,
            MipsAirId::Bls12831Fp2MulAssign,
            MipsAirId::Bn254FpOpAssign,
            MipsAirId::Bn254Fp2AddSubAssign,
            MipsAirId::Bn254Fp2MulAssign,
            MipsAirId::Bls12381Decompress,
            MipsAirId::SyscallCore,
            MipsAirId::SyscallPrecompile,
            MipsAirId::DivRem,
            MipsAirId::AddSub,
            MipsAirId::Bitwise,
            MipsAirId::Mul,
            MipsAirId::ShiftRight,
            MipsAirId::ShiftLeft,
            MipsAirId::Lt,
            MipsAirId::CloClz,
            MipsAirId::Branch,
            MipsAirId::Jump,
            MipsAirId::SyscallInstrs,
            MipsAirId::MemoryInstrs,
            MipsAirId::MiscInstrs,
            MipsAirId::MemoryGlobalInit,
            MipsAirId::MemoryGlobalFinalize,
            MipsAirId::MemoryLocal,
            MipsAirId::Global,
            MipsAirId::Byte,
        ]
    }

    /// Returns every identifier, in registry order.
    pub fn all() -> (r: Vec<MipsAirId>)
        ensures
            r@ == MipsAirId::spec_all_ids(),
    {
        let ids: Vec<MipsAirId> = vec![
            MipsAirId::Cpu,
            MipsAirId::Program,
            MipsAirId::ShaExtend,
            MipsAirId::ShaCompress,
            MipsAirId::EdAddAssign,
            MipsAirId::EdDecompress,
            MipsAirId::Secp256k1Decompress,
            MipsAirId::Secp256k1AddAssign,
            MipsAirId::Secp256k1DoubleAssign,
            MipsAirId::Secp256r1Decompress,
            MipsAirId::Secp256r1AddAssign,
            MipsAirId::Secp256r1DoubleAssign,
            MipsAirId::KeccakSponge,
            MipsAirId::Bn254AddAssign,
            MipsAirId::Bn254DoubleAssign,
            MipsAirId::Bls12381AddAssign,
            MipsAirId::Bls12381DoubleAssign,
            MipsAirId::Uint256MulMod,
            MipsAirId::U256XU2048Mul,
            MipsAirId::Bls12381FpOpAssign,
            MipsAirId::Bls12831Fp2AddSubAssign,
            MipsAirId::Bls12831Fp2MulAssign,
            MipsAirId::Bn254FpOpAssign,
            MipsAirId::Bn254Fp2AddSubAssign,
            MipsAirId::Bn254Fp2MulAssign,
            MipsAirId::Bls12381Decompress,
            MipsAirId::SyscallCore,
            MipsAirId::SyscallPrecompile,
            MipsAirId::DivRem,
            MipsAirId::AddSub,
            MipsAirId::Bitwise,
            MipsAirId::Mul,
            MipsAirId::ShiftRight,
            MipsAirId::ShiftLeft,
            MipsAirId::Lt,
            MipsAirId::CloClz,
            MipsAirId::Branch,
            MipsAirId::Jump,
            MipsAirId::SyscallInstrs,
            MipsAirId::MemoryInstrs,
            MipsAirId::MiscInstrs,
            MipsAirId::MemoryGlobalInit,
            MipsAirId::MemoryGlobalFinalize,
            MipsAirId::MemoryLocal,
            MipsAirId::Global,
            MipsAirId::Byte,
        ];
        proof {
            assert(ids@ =~= MipsAirId::spec_all_ids());
        }
        ids
    }

    /// The core subset: the chips active in any non-precompile shard,
    /// leaving out the program and byte chips.
    pub open spec fn spec_core_ids() -> Seq<MipsAirId> {
        seq![
            MipsAirId::Cpu,
            MipsAirId::AddSub,
            MipsAirId::Mul,
            MipsAirId::Bitwise,
            MipsAirId::ShiftLeft,
            MipsAirId::ShiftRight,
            MipsAirId::DivRem,
            MipsAirId::MemoryLocal,
            MipsAirId::Branch,
            MipsAirId::Jump,
            MipsAirId::MemoryInstrs,
            MipsAirId::SyscallInstrs,
            MipsAirId::MiscInstrs,
            MipsAirId::SyscallCore,
            MipsAirId::Global,
        ]
    }

    /// Returns the AIRs that are not part of precompile shards and not the
    /// program or byte AIR.
    pub fn core_ids() -> (r: Vec<MipsAirId>)
        ensures
            r@ == MipsAirId::spec_core_ids(),
    {
        let ids: Vec<MipsAirId> = vec![
            MipsAirId::Cpu,
            MipsAirId::AddSub,
            MipsAirId::Mul,
            MipsAirId::Bitwise,
            MipsAirId::ShiftLeft,
            MipsAirId::ShiftRight,
            MipsAirId::DivRem,
            MipsAirId::MemoryLocal,
            MipsAirId::Branch,
            MipsAirId::Jump,
            MipsAirId::MemoryInstrs,
            MipsAirId::SyscallInstrs,
            MipsAirId::MiscInstrs,
            MipsAirId::SyscallCore,
            MipsAirId::Global,
        ];
        proof {
            assert(ids@ =~= MipsAirId::spec_core_ids());
        }
        ids
    }

    /// Every identifier appears in the registry order.
    pub proof fn lemma_all_ids_complete(id: MipsAirId)
        ensures
            MipsAirId::spec_all_ids().contains(id),
    {
        match id {
            MipsAirId::Cpu => { assert(MipsAirId::spec_all_ids()[0] == id); },
            MipsAirId::Program => { assert(MipsAirId::spec_all_ids()[1] == id); },
            MipsAirId::ShaExtend => { assert(MipsAirId::spec_all_ids()[2] == id); },
            MipsAirId::ShaCompress => { assert(MipsAirId::spec_all_ids()[3] == id); },
            MipsAirId::EdAddAssign => { assert(MipsAirId::spec_all_ids()[4] == id); },
            MipsAirId::EdDecompress => { assert(MipsAirId::spec_all_ids()[5] == id); },
            MipsAirId::Secp256k1Decompress => { assert(MipsAirId::spec_all_ids()[6] == id); },
            MipsAirId::Secp256k1AddAssign => { assert(MipsAirId::spec_all_ids()[7] == id); },
            MipsAirId::Secp256k1DoubleAssign => { assert(MipsAirId::spec_all_ids()[8] == id); },
            MipsAirId::Secp256r1Decompress => { assert(MipsAirId::spec_all_ids()[9] == id); },
            MipsAirId::Secp256r1AddAssign => { assert(MipsAirId::spec_all_ids()[10] == id); },
            MipsAirId::Secp256r1DoubleAssign => { assert(MipsAirId::spec_all_ids()[11] == id); },
            MipsAirId::KeccakSponge => { assert(MipsAirId::spec_all_ids()[12] == id); },
            MipsAirId::Bn254AddAssign => { assert(MipsAirId::spec_all_ids()[13] == id); },
            MipsAirId::Bn254DoubleAssign => { assert(MipsAirId::spec_all_ids()[14] == id); },
            MipsAirId::Bls12381AddAssign => { assert(MipsAirId::spec_all_ids()[15] == id); },
            MipsAirId::Bls12381DoubleAssign => { assert(MipsAirId::spec_all_ids()[16] == id); },
            MipsAirId::Uint256MulMod => { assert(MipsAirId::spec_all_ids()[17] == id); },
            MipsAirId::U256XU2048Mul => { assert(MipsAirId::spec_all_ids()[18] == id); },
            MipsAirId::Bls12381FpOpAssign => { assert(MipsAirId::spec_all_ids()[19] == id); },
            MipsAirId::Bls12831Fp2AddSubAssign => { assert(MipsAirId::spec_all_ids()[20] == id); },
            MipsAirId::Bls12831Fp2MulAssign => { assert(MipsAirId::spec_all_ids()[21] == id); },
            MipsAirId::Bn254FpOpAssign => { assert(MipsAirId::spec_all_ids()[22] == id); },
            MipsAirId::Bn254Fp2AddSubAssign => { assert(MipsAirId::spec_all_ids()[23] == id); },
            MipsAirId::Bn254Fp2MulAssign => { assert(MipsAirId::spec_all_ids()[24] == id); },
            MipsAirId::Bls12381Decompress => { assert(MipsAirId::spec_all_ids()[25] == id); },
            MipsAirId::SyscallCore => { assert(MipsAirId::spec_all_ids()[26] == id); },
            MipsAirId::SyscallPrecompile => { assert(MipsAirId::spec_all_ids()[27] == id); },
            MipsAirId::DivRem => { assert(MipsAirId::spec_all_ids()[28] == id); },
            MipsAirId::AddSub => { assert(MipsAirId::spec_all_ids()[29] == id); },
            MipsAirId::Bitwise => { assert(MipsAirId::spec_all_ids()[30] == id); },
            MipsAirId::Mul => { assert(MipsAirId::spec_all_ids()[31] == id); },
            MipsAirId::ShiftRight => { assert(MipsAirId::spec_all_ids()[32] == id); },
            MipsAirId::ShiftLeft => { assert(MipsAirId::spec_all_ids()[33] == id); },
            MipsAirId::Lt => { assert(MipsAirId::spec_all_ids()[34] == id); },
            MipsAirId::CloClz => { assert(MipsAirId::spec_all_ids()[35] == id); },
            MipsAirId::Branch => { assert(MipsAirId::spec_all_ids()[36] == id); },
            MipsAirId::Jump => { assert(MipsAirId::spec_all_ids()[37] == id); },
            MipsAirId::SyscallInstrs => { assert(MipsAirId::spec_all_ids()[38] == id); },
            MipsAirId::MemoryInstrs => { assert(MipsAirId::spec_all_ids()[39] == id); },
            MipsAirId::MiscInstrs => { assert(MipsAirId::spec_all_ids()[40] == id); },
            MipsAirId::MemoryGlobalInit => { assert(MipsAirId::spec_all_ids()[41] == id); },
            MipsAirId::MemoryGlobalFinalize => { assert(MipsAirId::spec_all_ids()[42] == id); },
            MipsAirId::MemoryLocal => { assert(MipsAirId::spec_all_ids()[43] == id); },
            MipsAirId::Global => { assert(MipsAirId::spec_all_ids()[44] == id); },
            MipsAirId::Byte => { assert(MipsAirId::spec_all_ids()[45] == id); },
        }
    }
}


/// Builds the error text for an unrecognized chip name.
fn invalid_name_error(s: &str) -> (r: String)
    ensures
        r@ == "Invalid MIPS Air: "@ + s@,
{
    let mut msg = String::from_str("Invalid MIPS Air: ");
    msg.append(s);
    msg
}

impl MipsAirId {
    /// Parses an identifier from its name. An unrecognized name fails with a
    /// descriptive error.
    #[verifier::loop_isolation(false)]
    pub fn from_name(s: &str) -> (r: Result<MipsAirId, String>)
        ensures
            match r {
                Ok(id) => id.spec_name() == s@,
                Err(e) => {
                    &&& forall|id: MipsAirId| (#[trigger] id.spec_name()) != s@
                    &&& e@ == "Invalid MIPS Air: "@ + s@
                },
            },
    {
        let ids = MipsAirId::all();
        let n = ids.len();
        let mut i: usize = 0;
        while i < n
            invariant
                0 <= i <= n,
                forall|j: int| 0 <= j < i ==> (#[trigger] ids@[j]).spec_name() != s@,
            decreases n - i,
        {
            let id = ids[i];
            if str_eq(s, id.as_str()) {
                return Ok(id);
            }
            i += 1;
        }
        proof {
            assert forall|id: MipsAirId| (#[trigger] id.spec_name()) != s@ by {
                MipsAirId::lemma_all_ids_complete(id);
                let j = choose|j: int|
                    0 <= j < MipsAirId::spec_all_ids().len() && MipsAirId::spec_all_ids()[j] == id;
                assert(ids@[j].spec_name() != s@);
            }
        }
        Err(invalid_name_error(s))
    }

    /// Law: the identifier-to-name mapping is injective, so converting an
    /// identifier to its name and parsing the name back yields the original
    /// identifier.
    #[verifier::rlimit(100)]
    pub proof fn lemma_names_injective(x: MipsAirId, y: MipsAirId)
        requires
            x.spec_name() == y.spec_name(),
        ensures
            x == y,
    {
        broadcast use vstd::string::group_string_axioms;

        reveal_strlit("Cpu");
        reveal_strlit("Program");
        reveal_strlit("ShaExtend");
        reveal_strlit("ShaCompress");
        reveal_strlit("EdAddAssign");
        reveal_strlit("EdDecompress");
        reveal_strlit("Secp256k1Decompress");
        reveal_strlit("Secp256k1AddAssign");
        reveal_strlit("Secp256k1DoubleAssign");
        reveal_strlit("Secp256r1Decompress");
        reveal_strlit("Secp256r1AddAssign");
        reveal_strlit("Secp256r1DoubleAssign");
        reveal_strlit("KeccakSponge");
        reveal_strlit("Bn254AddAssign");
        reveal_strlit("Bn254DoubleAssign");
        reveal_strlit("Bls12381AddAssign");
        reveal_strlit("Bls12381DoubleAssign");
        reveal_strlit("Uint256MulMod");
        reveal_strlit("U256XU2048Mul");
        reveal_strlit("Bls12381FpOpAssign");
        reveal_strlit("Bls12831Fp2AddSubAssign");
        reveal_strlit("Bls12831Fp2MulAssign");
        reveal_strlit("Bn254FpOpAssign");
        reveal_strlit("Bn254Fp2AddSubAssign");
        reveal_strlit("Bn254Fp2MulAssign");
        reveal_strlit("Bls12381Decompress");
        reveal_strlit("SyscallCore");
        reveal_strlit("SyscallPrecompile");
        reveal_strlit("DivRem");
        reveal_strlit("AddSub");
        reveal_strlit("Bitwise");
        reveal_strlit("Mul");
        reveal_strlit("ShiftRight");
        reveal_strlit("ShiftLeft");
        reveal_strlit("Lt");
        reveal_strlit("CloClz");
        reveal_strlit("Branch");
        reveal_strlit("Jump");
        reveal_strlit("SyscallInstrs");
        reveal_strlit("MemoryInstrs");
        reveal_strlit("MiscInstrs");
        reveal_strlit("MemoryGlobalInit");
        reveal_strlit("MemoryGlobalFinalize");
        reveal_strlit("MemoryLocal");
        reveal_strlit("Global");
        reveal_strlit("Byte");
        assert("Cpu"@.len() == 3);
        assert("Program"@.len() == 7);
        assert("ShaExtend"@.len() == 9);
        assert("ShaCompress"@.len() == 11);
        assert("EdAddAssign"@.len() == 11);
        assert("EdDecompress"@.len() == 12);
        assert("Secp256k1Decompress"@.len() == 19);
        assert("Secp256k1AddAssign"@.len() == 18);
        assert("Secp256k1DoubleAssign"@.len() == 21);
        assert("Secp256r1Decompress"@.len() == 19);
        assert("Secp256r1AddAssign"@.len() == 18);
        assert("Secp256r1DoubleAssign"@.len() == 21);
        assert("KeccakSponge"@.len() == 12);
        assert("Bn254AddAssign"@.len() == 14);
        assert("Bn254DoubleAssign"@.len() == 17);
        assert("Bls12381AddAssign"@.len() == 17);
        assert("Bls12381DoubleAssign"@.len() == 20);
        assert("Uint256MulMod"@.len() == 13);
        assert("U256XU2048Mul"@.len() == 13);
        assert("Bls12381FpOpAssign"@.len() == 18);
        assert("Bls12831Fp2AddSubAssign"@.len() == 23);
        assert("Bls12831Fp2MulAssign"@.len() == 20);
        assert("Bn254FpOpAssign"@.len() == 15);
        assert("Bn254Fp2AddSubAssign"@.len() == 20);
        assert("Bn254Fp2MulAssign"@.len() == 17);
        assert("Bls12381Decompress"@.len() == 18);
        assert("SyscallCore"@.len() == 11);
        assert("SyscallPrecompile"@.len() == 17);
        assert("DivRem"@.len() == 6);
        assert("AddSub"@.len() == 6);
        assert("Bitwise"@.len() == 7);
        assert("Mul"@.len() == 3);
        assert("ShiftRight"@.len() == 10);
        assert("ShiftLeft"@.len() == 9);
        assert("Lt"@.len() == 2);
        assert("CloClz"@.len() == 6);
        assert("Branch"@.len() == 6);
        assert("Jump"@.len() == 4);
        assert("SyscallInstrs"@.len() == 13);
        assert("MemoryInstrs"@.len() == 12);
        assert("MiscInstrs"@.len() == 10);
        assert("MemoryGlobalInit"@.len() == 16);
        assert("MemoryGlobalFinalize"@.len() == 20);
        assert("MemoryLocal"@.len() == 11);
        assert("Global"@.len() == 6);
        assert("Byte"@.len() == 4);
        assert("Cpu"@[0] == 'C');
        assert("Mul"@[0] == 'M');
        assert("Program"@[0] == 'P');
        assert("Bitwise"@[0] == 'B');
        assert("ShaExtend"@[2] == 'a');
        assert("ShiftLeft"@[2] == 'i');
        assert("ShaCompress"@[0] == 'S');
        assert("EdAddAssign"@[0] == 'E');
        assert("ShaCompress"@[1] == 'h');
        assert("SyscallCore"@[1] == 'y');
        assert("MemoryLocal"@[0] == 'M');
        assert("SyscallCore"@[0] == 'S');
        assert("EdDecompress"@[0] == 'E');
        assert("KeccakSponge"@[0] == 'K');
        assert("MemoryInstrs"@[0] == 'M');
        assert("Secp256k1Decompress"@[7] == 'k');
        assert("Secp256r1Decompress"@[7] == 'r');
        assert("Secp256k1AddAssign"@[7] == 'k');
        assert("Secp256r1AddAssign"@[7] == 'r');
        assert("Secp256k1AddAssign"@[0] == 'S');
        assert("Bls12381FpOpAssign"@[0] == 'B');
        assert("Bls12381Decompress"@[0] == 'B');
        assert("Secp256r1AddAssign"@[0] == 'S');
        assert("Bls12381FpOpAssign"@[8] == 'F');
        assert("Bls12381Decompress"@[8] == 'D');
        assert("Secp256k1DoubleAssign"@[7] == 'k');
        assert("Secp256r1DoubleAssign"@[7] == 'r');
        assert("Bn254DoubleAssign"@[1] == 'n');
        assert("Bls12381AddAssign"@[1] == 'l');
        assert("Bn254DoubleAssign"@[5] == 'D');
        assert("Bn254Fp2MulAssign"@[5] == 'F');
        assert("Bn254DoubleAssign"@[0] == 'B');
        assert("SyscallPrecompile"@[0] == 'S');
        assert("Bn254Fp2MulAssign"@[1] == 'n');
        assert("Bls12381AddAssign"@[0] == 'B');
        assert("Bn254Fp2MulAssign"@[0] == 'B');
        assert("Bls12381DoubleAssign"@[5] == '3');
        assert("Bls12831Fp2MulAssign"@[5] == '8');
        assert("Bls12381DoubleAssign"@[1] == 'l');
        assert("Bn254Fp2AddSubAssign"@[1] == 'n');
        assert("Bls12381DoubleAssign"@[0] == 'B');
        assert("MemoryGlobalFinalize"@[0] == 'M');
        assert("Bls12831Fp2MulAssign"@[1] == 'l');
        assert("Bls12831Fp2MulAssign"@[0] == 'B');
        assert("Bn254Fp2AddSubAssign"@[0] == 'B');
        assert("Uint256MulMod"@[1] == 'i');
        assert("U256XU2048Mul"@[1] == '2');
        assert("Uint256MulMod"@[0] == 'U');
        assert("SyscallInstrs"@[0] == 'S');
        assert("U256XU2048Mul"@[0] == 'U');
        assert("DivRem"@[0] == 'D');
        assert("AddSub"@[0] == 'A');
        assert("CloClz"@[0] == 'C');
        assert("Branch"@[0] == 'B');
        assert("Global"@[0] == 'G');
        assert("ShiftRight"@[0] == 'S');
        assert("MiscInstrs"@[0] == 'M');
        assert("Jump"@[0] == 'J');
        assert("Byte"@[0] == 'B');
    }
}


impl core::str::FromStr for MipsAirId {
    type Err = String;

    fn from_str(s: &str) -> Result<MipsAirId, String> {
        MipsAirId::from_name(s)
    }
}

} // verus!
