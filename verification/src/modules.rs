//! The nine optional lute standard-library modules.
//!
//! Each module owns one reserved bit at a stable offset and one fixed global
//! name under which its binding appears in the host's top-level namespace
//! once attached. The table here fixes the stable attachment order.

use vstd::prelude::*;
use crate::flags::LuteStdLib;

verus! {

/// One optional lute standard-library module.
#[derive(Copy, Clone, Debug, PartialEq, Eq, Structural, Hash)]
pub enum LuteModule {
    Crypto,
    Fs,
    Luau,
    Net,
    Process,
    Task,
    Vm,
    System,
    Time,
}

impl LuteModule {
    /// The single bit this module owns in a flag set, at its stable,
    /// reserved offset (crypto at offset 0 up to time at offset 8).
    pub open spec fn spec_bit(self) -> u32 {
        match self {
            LuteModule::Crypto => 0x1,
            LuteModule::Fs => 0x2,
            LuteModule::Luau => 0x4,
            LuteModule::Net => 0x8,
            LuteModule::Process => 0x10,
            LuteModule::Task => 0x20,
            LuteModule::Vm => 0x40,
            LuteModule::System => 0x80,
            LuteModule::Time => 0x100,
        }
    }

    /// The fixed global name the module's binding is published under.
    pub open spec fn spec_global_name(self) -> Seq<char> {
        match self {
            LuteModule::Crypto => "crypto"@,
            LuteModule::Fs => "fs"@,
            LuteModule::Luau => "luau"@,
            LuteModule::Net => "net"@,
            LuteModule::Process => "process"@,
            LuteModule::Task => "task"@,
            LuteModule::Vm => "vm"@,
            LuteModule::System => "system"@,
            LuteModule::Time => "time"@,
        }
    }

    /// The module's bit, as a value.
    pub fn bit(self) -> (r: u32)
        ensures
            r == self.spec_bit(),
    {
        match self {
            LuteModule::Crypto => 0x1,
            LuteModule::Fs => 0x2,
            LuteModule::Luau => 0x4,
            LuteModule::Net => 0x8,
            LuteModule::Process => 0x10,
            LuteModule::Task => 0x20,
            LuteModule::Vm => 0x40,
            LuteModule::System => 0x80,
            LuteModule::Time => 0x100,
        }
    }

    /// The module's fixed global name, as a value.
    pub fn global_name(self) -> (r: &'static str)
        ensures
            r@ == self.spec_global_name(),
    {
        match self {
            LuteModule::Crypto => "crypto",
            LuteModule::Fs => "fs",
            LuteModule::Luau => "luau",
            LuteModule::Net => "net",
            LuteModule::Process => "process",
            LuteModule::Task => "task",
            LuteModule::Vm => "vm",
            LuteModule::System => "system",
            LuteModule::Time => "time",
        }
    }
}

/// Single module bits overlap exactly when they are equal.
proof fn lemma_single_bits_overlap(x: u32, y: u32)
    by (bit_vector)
    requires
        x == 0x1u32 || x == 0x2u32 || x == 0x4u32 || x == 0x8u32 || x == 0x10u32 || x == 0x20u32
            || x == 0x40u32 || x == 0x80u32 || x == 0x100u32,
        y == 0x1u32 || y == 0x2u32 || y == 0x4u32 || y == 0x8u32 || y == 0x10u32 || y == 0x20u32
            || y == 0x40u32 || y == 0x80u32 || y == 0x100u32,
    ensures
        ((x & y) != 0u32) <==> x == y,
{
}

/// No two distinct modules share a bit: the single-module selection for `m1`
/// contains the one for `m2` exactly when `m1` and `m2` are the same module.
/// In particular every single-module selection contains itself, and two
/// distinct single-module selections never contain each other.
pub proof fn lemma_module_membership(m1: LuteModule, m2: LuteModule)
    ensures
        ((m1.spec_bit() & m2.spec_bit()) != 0u32) <==> m1 == m2,
{
    lemma_single_bits_overlap(m1.spec_bit(), m2.spec_bit());
}

/// The fixed, stable order in which modules are considered for attachment.
pub open spec fn spec_module_order() -> Seq<LuteModule> {
    seq![
        LuteModule::Crypto,
        LuteModule::Fs,
        LuteModule::Luau,
        LuteModule::Net,
        LuteModule::Process,
        LuteModule::Task,
        LuteModule::Vm,
        LuteModule::System,
        LuteModule::Time,
    ]
}

/// All nine modules in the fixed attachment order.
pub fn module_order() -> (r: Vec<LuteModule>)
    ensures
        r@ == spec_module_order(),
{
    let mut v: Vec<LuteModule> = Vec::new();
    v.push(LuteModule::Crypto);
    v.push(LuteModule::Fs);
    v.push(LuteModule::Luau);
    v.push(LuteModule::Net);
    v.push(LuteModule::Process);
    v.push(LuteModule::Task);
    v.push(LuteModule::Vm);
    v.push(LuteModule::System);
    v.push(LuteModule::Time);
    proof {
        assert(v@ =~= spec_module_order());
    }
    v
}

/// `seq![m]` when `m`'s bit is set in `bits`, the empty sequence otherwise.
pub open spec fn spec_pick(bits: u32, m: LuteModule) -> Seq<LuteModule> {
    if bits & m.spec_bit() != 0u32 {
        seq![m]
    } else {
        Seq::empty()
    }
}

/// The modules a selection picks, in the fixed attachment order.
pub open spec fn spec_selected(bits: u32) -> Seq<LuteModule> {
    spec_pick(bits, LuteModule::Crypto) + spec_pick(bits, LuteModule::Fs)
        + spec_pick(bits, LuteModule::Luau) + spec_pick(bits, LuteModule::Net)
        + spec_pick(bits, LuteModule::Process) + spec_pick(bits, LuteModule::Task)
        + spec_pick(bits, LuteModule::Vm) + spec_pick(bits, LuteModule::System)
        + spec_pick(bits, LuteModule::Time)
}

/// Appends `m` to the plan when its bit is set in `libs`.
fn push_selected(v: &mut Vec<LuteModule>, libs: LuteStdLib, m: LuteModule)
    ensures
        final(v)@ == old(v)@ + spec_pick(libs@, m),
{
    if libs.contains(LuteStdLib::module(m)) {
        v.push(m);
    }
    proof {
        assert(v@ =~= old(v)@ + spec_pick(libs@, m));
    }
}

/// The attachment plan for a selection: exactly the modules whose bit is set
/// in `libs`, in the fixed attachment order. This is the decision the loader
/// hands to the host boundary, which attaches the listed modules one by one.
pub fn selected_modules(libs: LuteStdLib) -> (r: Vec<LuteModule>)
    ensures
        r@ == spec_selected(libs@),
{
    let mut v: Vec<LuteModule> = Vec::new();
    push_selected(&mut v, libs, LuteModule::Crypto);
    push_selected(&mut v, libs, LuteModule::Fs);
    push_selected(&mut v, libs, LuteModule::Luau);
    push_selected(&mut v, libs, LuteModule::Net);
    push_selected(&mut v, libs, LuteModule::Process);
    push_selected(&mut v, libs, LuteModule::Task);
    push_selected(&mut v, libs, LuteModule::Vm);
    push_selected(&mut v, libs, LuteModule::System);
    push_selected(&mut v, libs, LuteModule::Time);
    proof {
        assert(v@ =~= spec_selected(libs@));
    }
    v
}

} // verus!
