//! Lifecycle controller for the auxiliary lute runtime of a host VM instance.
//!
//! A host VM instance ([`Lua`]) carries the observable state this layer
//! governs: whether the auxiliary runtime (and its internal data VM) is
//! attached, and which module bindings have been published into the host's
//! top-level namespace. The state machine has two states, unloaded and
//! loaded; `setup_lute_runtime` moves unloaded to loaded,
//! `destroy_lute_runtime` moves loaded to unloaded, and module loading is
//! legal only in the loaded state. Attaching while already loaded and
//! destroying while unloaded are left to the external runtime primitives and
//! unspecified, so the corresponding operations require the right state.
//!
//! The host executes attachments one by one at its boundary and may fault
//! partway; [`Lua::record_attachments`] takes the number of attachments that
//! completed and updates the bindings accordingly, so the controller is
//! verified for every outcome the boundary can report.

use vstd::prelude::*;
use crate::flags::LuteStdLib;
use crate::flags::LUTE_MODULE_MASK;
use crate::modules::LuteModule;

verus! {

/// Failure of a lifecycle or loading operation.
#[derive(Copy, Clone, Debug, PartialEq, Eq, Structural)]
pub enum LuteError {
    /// The auxiliary runtime is not loaded; set it up first.
    NotLoaded,
    /// A fault surfaced at the host VM boundary; the host's execution stack
    /// has been restored to its pre-call depth.
    HostBoundaryFault,
}

/// A host VM instance, as far as this layer observes it: the lute-runtime
/// lifecycle flag and the set of module globals currently bound.
pub struct Lua {
    lute_loaded: bool,
    lute_globals: u32,
}

/// The combined bit pattern of a prefix of an attachment plan.
pub open spec fn spec_plan_bits(plan: Seq<LuteModule>) -> u32
    decreases plan.len(),
{
    if plan.len() == 0 {
        0u32
    } else {
        spec_plan_bits(plan.drop_last()) | plan.last().spec_bit()
    }
}

/// Plan bits split over concatenation.
proof fn lemma_plan_bits_concat(s1: Seq<LuteModule>, s2: Seq<LuteModule>)
    ensures
        spec_plan_bits(s1 + s2) == (spec_plan_bits(s1) | spec_plan_bits(s2)),
    decreases s2.len(),
{
    if s2.len() == 0 {
        assert(s1 + s2 =~= s1);
        let a = spec_plan_bits(s1);
        assert((a | 0u32) == a) by (bit_vector);
    } else {
        lemma_plan_bits_concat(s1, s2.drop_last());
        assert((s1 + s2).drop_last() =~= s1 + s2.drop_last());
        let a = spec_plan_bits(s1);
        let b = spec_plan_bits(s2.drop_last());
        let c = s2.last().spec_bit();
        assert(((a | b) | c) == (a | (b | c))) by (bit_vector);
    }
}

/// The plan bits of a one-module pick are that module's bit when selected,
/// and nothing otherwise.
proof fn lemma_pick_bits(l: u32, m: LuteModule)
    ensures
        spec_plan_bits(crate::modules::spec_pick(l, m)) == (if l & m.spec_bit() != 0u32 {
            m.spec_bit()
        } else {
            0u32
        }),
{
    assert(spec_plan_bits(Seq::<LuteModule>::empty()) == 0u32);
    if l & m.spec_bit() != 0u32 {
        let s = seq![m];
        assert(s.drop_last() =~= Seq::<LuteModule>::empty());
        assert(s.last() == m);
        let c = m.spec_bit();
        assert(spec_plan_bits(s) == (0u32 | c));
        assert((0u32 | c) == c) by (bit_vector);
    }
}

/// Running an attachment plan to completion has the same outcome as loading
/// the selection directly: the bits bound by the full plan for `libs` are
/// exactly `libs`' assigned module bits, whatever order-independent way the
/// selection was put together.
pub proof fn lemma_selected_plan_bits(libs: LuteStdLib)
    ensures
        spec_plan_bits(crate::modules::spec_selected(libs@)) == (libs@ & LUTE_MODULE_MASK),
{
    let l = libs@;
    let p1 = crate::modules::spec_pick(l, LuteModule::Crypto);
    let p2 = crate::modules::spec_pick(l, LuteModule::Fs);
    let p3 = crate::modules::spec_pick(l, LuteModule::Luau);
    let p4 = crate::modules::spec_pick(l, LuteModule::Net);
    let p5 = crate::modules::spec_pick(l, LuteModule::Process);
    let p6 = crate::modules::spec_pick(l, LuteModule::Task);
    let p7 = crate::modules::spec_pick(l, LuteModule::Vm);
    let p8 = crate::modules::spec_pick(l, LuteModule::System);
    let p9 = crate::modules::spec_pick(l, LuteModule::Time);
    lemma_plan_bits_concat(p1, p2);
    lemma_plan_bits_concat(p1 + p2, p3);
    lemma_plan_bits_concat(p1 + p2 + p3, p4);
    lemma_plan_bits_concat(p1 + p2 + p3 + p4, p5);
    lemma_plan_bits_concat(p1 + p2 + p3 + p4 + p5, p6);
    lemma_plan_bits_concat(p1 + p2 + p3 + p4 + p5 + p6, p7);
    lemma_plan_bits_concat(p1 + p2 + p3 + p4 + p5 + p6 + p7, p8);
    lemma_plan_bits_concat(p1 + p2 + p3 + p4 + p5 + p6 + p7 + p8, p9);
    lemma_pick_bits(l, LuteModule::Crypto);
    lemma_pick_bits(l, LuteModule::Fs);
    lemma_pick_bits(l, LuteModule::Luau);
    lemma_pick_bits(l, LuteModule::Net);
    lemma_pick_bits(l, LuteModule::Process);
    lemma_pick_bits(l, LuteModule::Task);
    lemma_pick_bits(l, LuteModule::Vm);
    lemma_pick_bits(l, LuteModule::System);
    lemma_pick_bits(l, LuteModule::Time);
    let c1 = spec_plan_bits(p1);
    let c2 = spec_plan_bits(p2);
    let c3 = spec_plan_bits(p3);
    let c4 = spec_plan_bits(p4);
    let c5 = spec_plan_bits(p5);
    let c6 = spec_plan_bits(p6);
    let c7 = spec_plan_bits(p7);
    let c8 = spec_plan_bits(p8);
    let c9 = spec_plan_bits(p9);
    assert(((((((((c1 | c2) | c3) | c4) | c5) | c6) | c7) | c8) | c9) == (l & LUTE_MODULE_MASK))
        by (bit_vector)
        requires
            c1 == (if l & 0x1u32 != 0u32 { 0x1u32 } else { 0u32 }),
            c2 == (if l & 0x2u32 != 0u32 { 0x2u32 } else { 0u32 }),
            c3 == (if l & 0x4u32 != 0u32 { 0x4u32 } else { 0u32 }),
            c4 == (if l & 0x8u32 != 0u32 { 0x8u32 } else { 0u32 }),
            c5 == (if l & 0x10u32 != 0u32 { 0x10u32 } else { 0u32 }),
            c6 == (if l & 0x20u32 != 0u32 { 0x20u32 } else { 0u32 }),
            c7 == (if l & 0x40u32 != 0u32 { 0x40u32 } else { 0u32 }),
            c8 == (if l & 0x80u32 != 0u32 { 0x80u32 } else { 0u32 }),
            c9 == (if l & 0x100u32 != 0u32 { 0x100u32 } else { 0u32 }),
    ;
}

impl Lua {
    /// Whether the auxiliary lute runtime is currently attached.
    pub closed spec fn loaded(self) -> bool {
        self.lute_loaded
    }

    /// The bits of the modules whose global bindings are currently
    /// published in the host's top-level namespace.
    pub closed spec fn globals(self) -> u32 {
        self.lute_globals
    }

    /// A fresh host VM instance: runtime unloaded, no module globals bound.
    pub fn new() -> (r: Lua)
        ensures
            !r.loaded(),
            r.globals() == 0u32,
    {
        Lua { lute_loaded: false, lute_globals: 0 }
    }

    /// Queries whether a lute runtime is loaded into this instance.
    ///
    /// A pure query: it never changes host state, and repeated calls return
    /// the same answer for the same state.
    pub fn is_lute_loaded(&self) -> (r: Result<bool, LuteError>)
        ensures
            r == Ok::<bool, LuteError>(self.loaded()),
    {
        Ok(self.lute_loaded)
    }

    /// Sets up a lute runtime on this instance, creating the auxiliary data
    /// VM alongside it. The external setup primitive's behaviour when a
    /// runtime is already loaded is unspecified, so the caller must not
    /// double-attach.
    pub fn setup_lute_runtime(&mut self) -> (r: Result<(), LuteError>)
        requires
            !old(self).loaded(),
        ensures
            r == Ok::<(), LuteError>(()),
            final(self).loaded(),
            final(self).globals() == old(self).globals(),
    {
        self.lute_loaded = true;
        Ok(())
    }

    /// Destroys the lute runtime on this instance, releasing the auxiliary
    /// data VM. The external destroy primitive's behaviour when no runtime
    /// is loaded is unspecified, so the caller must only destroy a loaded
    /// runtime. Globals already bound stay bound.
    pub fn destroy_lute_runtime(&mut self) -> (r: Result<(), LuteError>)
        requires
            old(self).loaded(),
        ensures
            r == Ok::<(), LuteError>(()),
            !final(self).loaded(),
            final(self).globals() == old(self).globals(),
    {
        self.lute_loaded = false;
        Ok(())
    }

    /// Attaches one module: the host pushes the module's binding value and
    /// publishes it under the module's fixed global name.
    fn attach_module(&mut self, m: LuteModule)
        ensures
            final(self).loaded() == old(self).loaded(),
            final(self).globals() == (old(self).globals() | m.spec_bit()),
    {
        self.lute_globals = self.lute_globals | m.bit();
    }

    /// Whether module `m`'s fixed global name is currently bound in the
    /// host's top-level namespace.
    pub fn global_is_bound(&self, m: LuteModule) -> (r: bool)
        ensures
            r == ((self.globals() & m.spec_bit()) != 0u32),
    {
        (self.lute_globals & m.bit()) != 0
    }

    /// Records the outcome of running an attachment plan at the host
    /// boundary. The host attaches the planned modules one by one, in plan
    /// order, and stops at the first fault; `completed` says how many
    /// attachments finished. The modules attached before the fault stay
    /// bound — no rollback — and a fault surfaces as `HostBoundaryFault`.
    pub fn record_attachments(
        &mut self,
        plan: &Vec<LuteModule>,
        completed: usize,
    ) -> (r: Result<(), LuteError>)
        requires
            completed <= plan@.len(),
            old(self).loaded(),
        ensures
            final(self).loaded(),
            final(self).globals() == (old(self).globals() | spec_plan_bits(
                plan@.take(completed as int),
            )),
            completed == plan@.len() ==> r == Ok::<(), LuteError>(()),
            completed < plan@.len() ==> r == Err::<(), LuteError>(LuteError::HostBoundaryFault),
    {
        let ghost orig: Lua = *self;
        proof {
            assert(plan@.take(0) =~= Seq::<LuteModule>::empty());
            let a = orig.globals();
            assert(a | 0u32 == a) by (bit_vector);
        }
        let mut i: usize = 0;
        while i < completed
            invariant
                i <= completed,
                completed <= plan@.len(),
                self.loaded() == orig.loaded(),
                self.globals() == (orig.globals() | spec_plan_bits(plan@.take(i as int))),
            decreases completed - i,
        {
            self.attach_module(plan[i]);
            proof {
                let taken = plan@.take(i + 1 as int);
                assert(taken.drop_last() =~= plan@.take(i as int));
                assert(taken.last() == plan@[i as int]);
                let a = orig.globals();
                let b = spec_plan_bits(plan@.take(i as int));
                let c = plan@[i as int].spec_bit();
                assert((a | b) | c == a | (b | c)) by (bit_vector);
            }
            i = i + 1;
        }
        if completed == plan.len() {
            Ok(())
        } else {
            Err(LuteError::HostBoundaryFault)
        }
    }

    /// Loads the selected lute standard-library modules into this instance,
    /// binding each selected module under its fixed global name.
    ///
    /// Errors with `NotLoaded`, before touching any binding, exactly when no
    /// runtime is loaded; otherwise it succeeds and binds exactly the
    /// selected modules (bits outside the nine assigned offsets select
    /// nothing), leaving previously bound globals in place.
    #[allow(non_snake_case)]
    pub fn load_lute_LuteStdLib(&mut self, libs: LuteStdLib) -> (r: Result<(), LuteError>)
        ensures
            !old(self).loaded() ==> r == Err::<(), LuteError>(LuteError::NotLoaded)
                && *final(self) == *old(self),
            old(self).loaded() ==> r == Ok::<(), LuteError>(())
                && final(self).loaded()
                && final(self).globals() == (old(self).globals() | (libs@ & LUTE_MODULE_MASK)),
    {
        let loaded = match self.is_lute_loaded() {
            Ok(b) => b,
            Err(e) => {
                return Err(e);
            },
        };
        if !loaded {
            return Err(LuteError::NotLoaded);
        }
        let ghost l: u32 = libs@;
        let ghost g0: u32 = self.lute_globals;
        if libs.contains(LuteStdLib::module(LuteModule::Crypto)) {
            self.attach_module(LuteModule::Crypto);
        }
        let ghost g1: u32 = self.lute_globals;
        if libs.contains(LuteStdLib::module(LuteModule::Fs)) {
            self.attach_module(LuteModule::Fs);
        }
        let ghost g2: u32 = self.lute_globals;
        if libs.contains(LuteStdLib::module(LuteModule::Luau)) {
            self.attach_module(LuteModule::Luau);
        }
        let ghost g3: u32 = self.lute_globals;
        if libs.contains(LuteStdLib::module(LuteModule::Net)) {
            self.attach_module(LuteModule::Net);
        }
        let ghost g4: u32 = self.lute_globals;
        if libs.contains(LuteStdLib::module(LuteModule::Process)) {
            self.attach_module(LuteModule::Process);
        }
        let ghost g5: u32 = self.lute_globals;
        if libs.contains(LuteStdLib::module(LuteModule::Task)) {
            self.attach_module(LuteModule::Task);
        }
        let ghost g6: u32 = self.lute_globals;
        if libs.contains(LuteStdLib::module(LuteModule::Vm)) {
            self.attach_module(LuteModule::Vm);
        }
        let ghost g7: u32 = self.lute_globals;
        if libs.contains(LuteStdLib::module(LuteModule::System)) {
            self.attach_module(LuteModule::System);
        }
        let ghost g8: u32 = self.lute_globals;
        if libs.contains(LuteStdLib::module(LuteModule::Time)) {
            self.attach_module(LuteModule::Time);
        }
        let ghost g9: u32 = self.lute_globals;
        proof {
            assert(g9 == (g0 | (l & LUTE_MODULE_MASK))) by (bit_vector)
                requires
                    g1 == (if l & 0x1u32 != 0u32 { g0 | 0x1u32 } else { g0 }),
                    g2 == (if l & 0x2u32 != 0u32 { g1 | 0x2u32 } else { g1 }),
                    g3 == (if l & 0x4u32 != 0u32 { g2 | 0x4u32 } else { g2 }),
                    g4 == (if l & 0x8u32 != 0u32 { g3 | 0x8u32 } else { g3 }),
                    g5 == (if l & 0x10u32 != 0u32 { g4 | 0x10u32 } else { g4 }),
                    g6 == (if l & 0x20u32 != 0u32 { g5 | 0x20u32 } else { g5 }),
                    g7 == (if l & 0x40u32 != 0u32 { g6 | 0x40u32 } else { g6 }),
                    g8 == (if l & 0x80u32 != 0u32 { g7 | 0x80u32 } else { g7 }),
                    g9 == (if l & 0x100u32 != 0u32 { g8 | 0x100u32 } else { g8 }),
            ;
        }
        Ok(())
    }
}

} // verus!
