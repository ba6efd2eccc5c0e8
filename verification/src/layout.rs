//! Where the tracked quantities live in each build of the game.
//!
//! A build is recognised by the image size of its main module. The table of
//! a build holds offsets from the modules' load addresses. Binding it to the
//! addresses at which the modules of one process were mapped gives the
//! absolute addresses that are sampled for as long as that process lives.

use std::collections::HashMap;
use vstd::prelude::*;

verus! {

/// Image size of the main module in the first legacy build.
pub const LEGACY_SIZE_A: u32 = 1662976;

/// Image size of the main module in the second legacy build.
pub const LEGACY_SIZE_B: u32 = 1613824;

/// Image size of the main module in the third legacy build.
pub const LEGACY_SIZE_C: u32 = 1597440;

/// Width of the pointers that a chain follows.
#[derive(Clone, Copy, Debug, PartialEq, Eq, Structural)]
pub enum PointerWidth {
    Bit32,
    Bit64,
}

/// Load addresses of the four modules that hold tracked quantities.
#[derive(Clone, Copy, Debug)]
pub struct ModuleBases {
    /// The main executable.
    pub main: u64,
    /// The networking module.
    pub net_server: u64,
    /// The game-logic module.
    pub game: u64,
    /// The engine core module.
    pub core: u64,
}

/// The offsets of one build.
#[derive(Clone, Copy, Debug)]
pub struct AddressLayout {
    /// Load flag, from the networking module.
    pub load: u32,
    /// Control-lock flag, from the game-logic module.
    pub no_control: u32,
    /// Pause flag, from the main module.
    pub is_paused: u32,
    /// Sync value, from the main module.
    pub sync: u32,
    /// Chain to the level number, from the core module.
    pub level: [i32; 7],
    /// Chain to the end text, from the main module.
    pub end: [i32; 8],
}

/// An `AddressLayout` with its chains as sequences.
pub struct LayoutView {
    pub load: u32,
    pub no_control: u32,
    pub is_paused: u32,
    pub sync: u32,
    pub level: Seq<i32>,
    pub end: Seq<i32>,
}

impl View for AddressLayout {
    type V = LayoutView;

    open spec fn view(&self) -> LayoutView {
        LayoutView {
            load: self.load,
            no_control: self.no_control,
            is_paused: self.is_paused,
            sync: self.sync,
            level: self.level@,
            end: self.end@,
        }
    }
}

/// The main-module image sizes of the legacy builds.
pub open spec fn legacy_sizes() -> Set<u32> {
    set![LEGACY_SIZE_A, LEGACY_SIZE_B, LEGACY_SIZE_C]
}

/// The table of the legacy builds.
pub open spec fn legacy_layout() -> LayoutView {
    LayoutView {
        load: 0xFAC4,
        no_control: 0x54C2F9,
        is_paused: 0x1047C0,
        sync: 0x104928,
        level: seq![0xBA040i32, 0x4i32, 0x0i32, 0x40i32, 0x8i32, 0x20i32, 0x14i32],
        end: seq![0x1048BCi32, 0x54i32, 0x14i32, 0x0i32, 0x0i32, 0x44i32, 0xCi32, 0x12i32],
    }
}

/// The table of the patched build.
pub open spec fn patched_layout() -> LayoutView {
    LayoutView {
        load: 0x13E84,
        no_control: 0x560668,
        is_paused: 0x10BCD0,
        sync: 0x10BE80,
        level: seq![0xBF368i32, 0x4i32, 0x0i32, 0x40i32, 0x8i32, 0x28i32, 0x4i32],
        end: seq![0x10BDB0i32, 0x3Ci32, 0x10i32, 0x0i32, 0x0i32, 0x44i32, 0xCi32, 0x12i32],
    }
}

/// The table for a main module of the given image size: the legacy one for
/// the three legacy sizes, the patched one for every other size. A size that
/// no known build has is not told apart from the patched build.
pub open spec fn resolve_spec(image_size: u32) -> LayoutView {
    if legacy_sizes().contains(image_size) {
        legacy_layout()
    } else {
        patched_layout()
    }
}

/// Whether `image_size` is the size of a legacy build.
pub fn is_legacy(image_size: u32) -> (b: bool)
    ensures
        b == legacy_sizes().contains(image_size),
{
    image_size == LEGACY_SIZE_A || image_size == LEGACY_SIZE_B || image_size == LEGACY_SIZE_C
}

/// Picks the table of the build whose main module has this image size.
pub fn resolve(image_size: u32) -> (layout: AddressLayout)
    ensures
        layout@ == resolve_spec(image_size),
{
    if is_legacy(image_size) {
        let layout = AddressLayout {
            load: 0xFAC4,
            no_control: 0x54C2F9,
            is_paused: 0x1047C0,
            sync: 0x104928,
            level: [0xBA040, 0x4, 0x0, 0x40, 0x8, 0x20, 0x14],
            end: [0x1048BC, 0x54, 0x14, 0x0, 0x0, 0x44, 0xC, 0x12],
        };
        assert(layout.level@ =~= legacy_layout().level);
        assert(layout.end@ =~= legacy_layout().end);
        layout
    } else {
        let layout = AddressLayout {
            load: 0x13E84,
            no_control: 0x560668,
            is_paused: 0x10BCD0,
            sync: 0x10BE80,
            level: [0xBF368, 0x4, 0x0, 0x40, 0x8, 0x28, 0x4],
            end: [0x10BDB0, 0x3C, 0x10, 0x0, 0x0, 0x44, 0xC, 0x12],
        };
        assert(layout.level@ =~= patched_layout().level);
        assert(layout.end@ =~= patched_layout().end);
        layout
    }
}

/// The address `offset` bytes from `addr`, where the address space holds it.
pub open spec fn offset_address(addr: u64, offset: i32) -> Option<u64> {
    if 0 <= addr + offset <= u64::MAX {
        Some((addr + offset) as u64)
    } else {
        None
    }
}

/// Moves an address by a signed offset; `None` where the result would lie
/// below zero or beyond the last address.
pub fn shift(addr: u64, offset: i32) -> (r: Option<u64>)
    ensures
        r == offset_address(addr, offset),
{
    if offset >= 0 {
        let up: u64 = offset as u64;
        if addr <= u64::MAX - up {
            Some(addr + up)
        } else {
            None
        }
    } else {
        let down: u64 = (-(offset as i64)) as u64;
        if addr >= down {
            Some(addr - down)
        } else {
            None
        }
    }
}

/// What the host does next while it follows a chain.
#[derive(Clone, Copy, Debug, PartialEq, Eq, Structural)]
pub enum ChainStep {
    /// Read a pointer at this address and take the next step from it.
    Follow(u64),
    /// The chain ends here: read the tracked value at this address.
    Read(u64),
    /// The chain leaves the address space, which counts as a failed read.
    Fail,
}

/// Step `index` of a chain with these offsets, taken from address `from`:
/// the offset is added, and every sum but the last is a pointer to follow.
pub open spec fn step_spec(offsets: Seq<i32>, index: int, from: u64) -> ChainStep {
    if 0 <= index < offsets.len() {
        match offset_address(from, offsets[index]) {
            Some(a) => if index + 1 == offsets.len() {
                ChainStep::Read(a)
            } else {
                ChainStep::Follow(a)
            },
            None => ChainStep::Fail,
        }
    } else {
        ChainStep::Fail
    }
}

/// The address at which a chain ends in a memory that holds the pointer
/// `pointers[a]` at each address `a` of its domain, and cannot be read
/// elsewhere. `None` where the walk meets an unreadable pointer or leaves
/// the address space.
pub open spec fn chain_target(
    offsets: Seq<i32>,
    index: int,
    from: u64,
    pointers: Map<u64, u64>,
) -> Option<u64>
    decreases offsets.len() - index,
{
    match step_spec(offsets, index, from) {
        ChainStep::Read(a) => Some(a),
        ChainStep::Follow(a) => if pointers.contains_key(a) {
            chain_target(offsets, index + 1, pointers[a], pointers)
        } else {
            None
        },
        ChainStep::Fail => None,
    }
}

/// A base address and the offsets that lead from it to a tracked value.
#[derive(Clone, Copy, Debug)]
pub struct PointerChain<const N: usize> {
    pub base: u64,
    pub width: PointerWidth,
    pub offsets: [i32; N],
}

impl<const N: usize> PointerChain<N> {
    /// Step `index` of the walk. `from` is the base for step 0 and the
    /// pointer that the step before asked for otherwise. The host starts
    /// with step 0 and goes on while the answer is `Follow`.
    pub fn step(&self, index: usize, from: u64) -> (s: ChainStep)
        ensures
            s == step_spec(self.offsets@, index as int, from),
    {
        if index >= N {
            return ChainStep::Fail;
        }
        match shift(from, self.offsets[index]) {
            Some(a) => if index + 1 == N {
                ChainStep::Read(a)
            } else {
                ChainStep::Follow(a)
            },
            None => ChainStep::Fail,
        }
    }

    /// Walks the whole chain through a snapshot of the pointers it may
    /// meet, and gives the address of the tracked value.
    pub fn target_in(&self, pointers: &HashMap<u64, u64>) -> (r: Option<u64>)
        ensures
            r == chain_target(self.offsets@, 0, self.base, pointers@),
    {
        let mut index: usize = 0;
        let mut from: u64 = self.base;
        loop
            invariant
                index <= N,
                chain_target(self.offsets@, index as int, from, pointers@) == chain_target(
                    self.offsets@,
                    0,
                    self.base,
                    pointers@,
                ),
            decreases N - index,
        {
            match self.step(index, from) {
                ChainStep::Read(a) => {
                    return Some(a);
                },
                ChainStep::Fail => {
                    return None;
                },
                ChainStep::Follow(a) => match pointers.get(&a) {
                    Some(p) => {
                        from = *p;
                        index += 1;
                    },
                    None => {
                        return None;
                    },
                },
            }
        }
    }
}

/// The absolute addresses sampled in one process.
#[derive(Clone, Copy, Debug)]
pub struct Memory {
    pub load: u64,
    pub no_control: u64,
    pub is_paused: u64,
    pub sync: u64,
    pub level: PointerChain<7>,
    pub end: PointerChain<8>,
}

impl Memory {
    /// Every direct address of `layout` lies inside the address space once
    /// the modules are mapped at `modules`.
    pub open spec fn fits(modules: ModuleBases, layout: LayoutView) -> bool {
        &&& modules.net_server + layout.load <= u64::MAX
        &&& modules.game + layout.no_control <= u64::MAX
        &&& modules.main + layout.is_paused <= u64::MAX
        &&& modules.main + layout.sync <= u64::MAX
    }

    /// `self` is `layout` bound to `modules`: each direct address is its
    /// module's base plus its offset, the level chain starts at the core
    /// module, the end chain at the main module, both over 32-bit pointers.
    pub open spec fn bound_to(self, modules: ModuleBases, layout: LayoutView) -> bool {
        &&& self.load == modules.net_server + layout.load
        &&& self.no_control == modules.game + layout.no_control
        &&& self.is_paused == modules.main + layout.is_paused
        &&& self.sync == modules.main + layout.sync
        &&& self.level.base == modules.core
        &&& self.level.width == PointerWidth::Bit32
        &&& self.level.offsets@ == layout.level
        &&& self.end.base == modules.main
        &&& self.end.width == PointerWidth::Bit32
        &&& self.end.offsets@ == layout.end
    }

    /// The addresses to sample in a process whose main module has the given
    /// image size and whose modules are mapped at `modules`. `None` exactly
    /// where one of them would lie beyond the address space.
    pub fn init(modules: &ModuleBases, image_size: u32) -> (r: Option<Memory>)
        ensures
            r is Some <==> Self::fits(*modules, resolve_spec(image_size)),
            r is Some ==> r->Some_0.bound_to(*modules, resolve_spec(image_size)),
    {
        let layout = resolve(image_size);
        let load = modules.net_server.checked_add(layout.load as u64);
        let no_control = modules.game.checked_add(layout.no_control as u64);
        let is_paused = modules.main.checked_add(layout.is_paused as u64);
        let sync = modules.main.checked_add(layout.sync as u64);
        match (load, no_control, is_paused, sync) {
            (Some(load), Some(no_control), Some(is_paused), Some(sync)) => Some(
                Memory {
                    load,
                    no_control,
                    is_paused,
                    sync,
                    level: PointerChain {
                        base: modules.core,
                        width: PointerWidth::Bit32,
                        offsets: layout.level,
                    },
                    end: PointerChain {
                        base: modules.main,
                        width: PointerWidth::Bit32,
                        offsets: layout.end,
                    },
                },
            ),
            _ => None,
        }
    }
}

} // verus!
