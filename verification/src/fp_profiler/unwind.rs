//! Frame-pointer stack unwinder.
//!
//! Walks the chain of saved frame pointers. On x86_64 and on aarch64 alike the
//! word at the frame pointer is the caller's frame pointer, and the word above
//! it is the return address. Every read goes through a load that answers
//! [`SAFE_LOAD_FAULT`] where memory cannot be read, so that a corrupted chain
//! ends the walk.

use vstd::prelude::*;

use crate::fp_profiler::context::MachineContext;
use crate::fp_profiler::SAFE_LOAD_FAULT;

verus! {

/// The most frames that one walk captures.
pub const MAX_FRAMES: usize = 256;

/// Addresses closer than this to either end of the address space are never
/// return addresses.
pub const DEAD_ZONE: usize = 0x1000;

/// The most by which the frame pointer advances in one plausible frame.
pub const MAX_FRAME_SIZE: usize = 0x40000;

/// How far above the stack pointer a frame may lie.
pub const STACK_WINDOW: usize = 0x80_0000;

/// One captured frame: its return address.
#[derive(Copy, Clone, Debug, PartialEq, Eq, Structural)]
pub struct Frame {
    pub pc: usize,
}

/// The supported processor architectures.
#[derive(Copy, Clone, Debug, PartialEq, Eq, Structural)]
pub enum Arch {
    X86_64,
    Aarch64,
}

/// The size of a machine word in bytes.
pub open spec fn word() -> int {
    usize::BITS as int / 8
}

/// The address without pointer authentication bits: its lower 48 bits on
/// aarch64, all of it elsewhere.
pub open spec fn stripped(arch: Arch, addr: usize) -> usize {
    match arch {
        Arch::X86_64 => addr,
        Arch::Aarch64 => (addr as int % 0x1_0000_0000_0000) as usize,
    }
}

/// The frame pointer lies in the stack window of `sp` and is aligned.
pub open spec fn readable_frame(fp: usize, sp: usize) -> bool {
    sp <= fp && fp < sp + STACK_WINDOW && fp < usize::MAX && fp as int % word() == 0
}

/// The address of the return address of the frame at `fp`.
pub open spec fn return_slot(fp: usize) -> usize {
    if fp + word() > usize::MAX {
        (fp + word() - usize::MAX - 1) as usize
    } else {
        (fp + word()) as usize
    }
}

/// The two words of the frame at `fp` look like a frame: the return address is
/// outside the dead zones and the frame pointer advances, but not too far.
pub open spec fn plausible(fp: usize, saved_fp: usize, ret_addr: usize) -> bool {
    &&& DEAD_ZONE <= ret_addr <= usize::MAX - DEAD_ZONE
    &&& fp < saved_fp <= fp + MAX_FRAME_SIZE
}

/// `pcs` are the return addresses of a walk that starts at `fp` and captures
/// at most `room` of them, where `load` answers the reads.
pub open spec fn walked<L: Fn(usize) -> usize>(
    arch: Arch,
    load: L,
    fp: usize,
    sp: usize,
    room: nat,
    pcs: Seq<usize>,
) -> bool
    decreases room,
{
    if room == 0 || !readable_frame(fp, sp) {
        pcs.len() == 0
    } else {
        exists|saved_fp: usize|
            {
                &&& #[trigger] call_ensures(load, (fp,), saved_fp)
                &&& if saved_fp == SAFE_LOAD_FAULT {
                    pcs.len() == 0
                } else {
                    exists|raw: usize|
                        {
                            &&& #[trigger] call_ensures(load, (return_slot(fp),), raw)
                            &&& if plausible(fp, saved_fp, stripped(arch, raw)) {
                                &&& pcs.len() > 0
                                &&& pcs[0] == stripped(arch, raw)
                                &&& walked(
                                    arch,
                                    load,
                                    saved_fp,
                                    sp,
                                    (room - 1) as nat,
                                    pcs.drop_first(),
                                )
                            } else {
                                pcs.len() == 0
                            }
                        }
                }
            }
    }
}

/// The number of frames that fit a buffer of `len` frames.
pub open spec fn frame_limit(len: nat) -> nat {
    if len < MAX_FRAMES {
        len
    } else {
        MAX_FRAMES as nat
    }
}

/// The return addresses of `frames`.
pub open spec fn pcs_of(frames: Seq<Frame>) -> Seq<usize> {
    frames.map_values(|f: Frame| f.pc)
}

/// Strips pointer authentication bits from a return address. On x86_64 there
/// are none.
pub fn strip_pac(arch: Arch, addr: usize) -> (plain: usize)
    ensures
        plain == stripped(arch, addr),
{
    match arch {
        Arch::X86_64 => addr,
        Arch::Aarch64 => {
            let wide = addr as u64;
            assert(wide & 0x0000_FFFF_FFFF_FFFF == wide % 0x1_0000_0000_0000) by (bit_vector);
            (wide & 0x0000_FFFF_FFFF_FFFF) as usize
        },
    }
}

/// Walks the frame-pointer chain that starts at `fp`, writes the captured
/// frames into `out` and returns their number. Frame 0 is the interrupted `pc`
/// itself.
pub fn unwind<L: Fn(usize) -> usize>(
    arch: Arch,
    load: &L,
    pc: usize,
    fp: usize,
    sp: usize,
    out: &mut [Frame],
) -> (count: usize)
    requires
        forall|addr: usize| #[trigger] call_requires(load, (addr,)),
    ensures
        count <= frame_limit(old(out)@.len()),
        final(out)@.len() == old(out)@.len(),
        final(out)@.skip(count as int) == old(out)@.skip(count as int),
        count == 0 <==> old(out)@.len() == 0,
        count > 0 ==> final(out)@[0].pc == pc && walked(
            arch,
            *load,
            fp,
            sp,
            (frame_limit(old(out)@.len()) - 1) as nat,
            pcs_of(final(out)@.subrange(1, count as int)),
        ),
{
    let limit: usize = if out.len() < MAX_FRAMES {
        out.len()
    } else {
        MAX_FRAMES
    };
    if limit == 0 {
        return 0;
    }
    out[0] = Frame { pc };
    let mut count: usize = 1;
    let mut fp_at: usize = fp;
    let stack_hi: usize = sp.saturating_add(STACK_WINDOW);
    let word_size: usize = (usize::BITS / 8) as usize;
    let ghost room = (limit - 1) as nat;
    proof {
        assert(pcs_of(out@.subrange(1, 1)) =~= Seq::empty());
        assert(room == 0 ==> walked(arch, *load, fp, sp, room, pcs_of(out@.subrange(1, 1))));
        assert forall|tail: Seq<usize>| #[trigger]
            walked(arch, *load, fp, sp, room, tail) implies walked(
            arch,
            *load,
            fp,
            sp,
            room,
            pcs_of(out@.subrange(1, 1)) + tail,
        ) by {
            assert(pcs_of(out@.subrange(1, 1)) + tail =~= tail);
        }
    }
    while count < limit
        invariant_except_break
            count == limit ==> walked(
                arch,
                *load,
                fp,
                sp,
                room,
                pcs_of(out@.subrange(1, count as int)),
            ),
            forall|tail: Seq<usize>| #[trigger]
                walked(arch, *load, fp_at, sp, (limit - count) as nat, tail) ==> walked(
                    arch,
                    *load,
                    fp,
                    sp,
                    room,
                    pcs_of(out@.subrange(1, count as int)) + tail,
                ),
        invariant
            limit == frame_limit(old(out)@.len()),
            1 <= count <= limit,
            room == limit - 1,
            word_size == word(),
            word_size == 4 || word_size == 8,
            stack_hi == (if sp + STACK_WINDOW > usize::MAX {
                usize::MAX as int
            } else {
                sp + STACK_WINDOW
            }),
            out@.len() == old(out)@.len(),
            out@[0].pc == pc,
            out@.skip(count as int) == old(out)@.skip(count as int),
            forall|addr: usize| #[trigger] call_requires(load, (addr,)),
        ensures
            walked(arch, *load, fp, sp, room, pcs_of(out@.subrange(1, count as int))),
        decreases limit - count,
    {
        let ghost seen = pcs_of(out@.subrange(1, count as int));
        let ghost left = (limit - count) as nat;
        let ghost none = Seq::<usize>::empty();
        proof {
            assert(seen + none =~= seen);
        }
        if fp_at < sp || fp_at >= stack_hi {
            assert(walked(arch, *load, fp_at, sp, left, none));
            break ;
        }
        if fp_at % word_size != 0 {
            assert(walked(arch, *load, fp_at, sp, left, none));
            break ;
        }
        let saved_fp: usize = load(fp_at);
        if saved_fp == SAFE_LOAD_FAULT {
            assert(walked(arch, *load, fp_at, sp, left, none));
            break ;
        }
        let slot: usize = fp_at.wrapping_add(word_size);
        assert(slot == return_slot(fp_at));
        let raw: usize = load(slot);
        assert(call_ensures(*load, (return_slot(fp_at),), raw));
        let ret_addr: usize = strip_pac(arch, raw);
        if ret_addr == SAFE_LOAD_FAULT {
            assert(walked(arch, *load, fp_at, sp, left, none));
            break ;
        }
        if ret_addr < DEAD_ZONE || ret_addr > usize::MAX - DEAD_ZONE {
            assert(walked(arch, *load, fp_at, sp, left, none));
            break ;
        }
        if saved_fp <= fp_at || saved_fp - fp_at > MAX_FRAME_SIZE {
            assert(walked(arch, *load, fp_at, sp, left, none));
            break ;
        }
        let ghost before = out@;
        out[count] = Frame { pc: ret_addr };
        let ghost now = pcs_of(out@.subrange(1, count + 1));
        proof {
            assert(now =~= seen.push(ret_addr));
            assert forall|tail: Seq<usize>| #[trigger]
                walked(arch, *load, saved_fp, sp, (left - 1) as nat, tail) implies walked(
                arch,
                *load,
                fp,
                sp,
                room,
                now + tail,
            ) by {
                let longer = seq![ret_addr] + tail;
                assert(longer.drop_first() =~= tail);
                assert(walked(arch, *load, fp_at, sp, left, longer));
                assert(seen + longer =~= now + tail);
            }
            if left == 1 {
                assert(walked(arch, *load, saved_fp, sp, 0, none));
                assert(now + none =~= now);
            }
            assert(out@.skip(count + 1) =~= before.skip(count as int).skip(1));
            assert(old(out)@.skip(count + 1) =~= old(out)@.skip(count as int).skip(1));
        }
        count = count + 1;
        fp_at = saved_fp;
        assert(pcs_of(out@.subrange(1, count as int)) == now);
        assert((limit - count) as nat == (left - 1) as nat);
    }
    count
}

/// Walks the stack of the thread that a signal interrupted.
pub fn unwind_from_ucontext<L: Fn(usize) -> usize>(
    context: &MachineContext,
    load: &L,
    out: &mut [Frame],
) -> (count: usize)
    requires
        forall|addr: usize| #[trigger] call_requires(load, (addr,)),
    ensures
        count <= frame_limit(old(out)@.len()),
        final(out)@.len() == old(out)@.len(),
        final(out)@.skip(count as int) == old(out)@.skip(count as int),
        count == 0 <==> old(out)@.len() == 0,
        count > 0 ==> final(out)@[0].pc == context.pc() && walked(
            context.arch(),
            *load,
            context.fp(),
            context.sp(),
            (frame_limit(old(out)@.len()) - 1) as nat,
            pcs_of(final(out)@.subrange(1, count as int)),
        ),
{
    let (pc, fp, sp) = context.read_pc_fp_sp();
    unwind(context.get_arch(), load, pc, fp, sp, out)
}

/// The return addresses of a walk over memory that answers each read with
/// `mem`.
pub open spec fn walk(
    arch: Arch,
    mem: spec_fn(usize) -> usize,
    fp: usize,
    sp: usize,
    room: nat,
) -> Seq<usize>
    decreases room,
{
    let saved_fp = mem(fp);
    let ret_addr = stripped(arch, mem(return_slot(fp)));
    if room == 0 || !readable_frame(fp, sp) || saved_fp == SAFE_LOAD_FAULT || !plausible(
        fp,
        saved_fp,
        ret_addr,
    ) {
        Seq::empty()
    } else {
        seq![ret_addr] + walk(arch, mem, saved_fp, sp, (room - 1) as nat)
    }
}

/// Where memory holds still, so that each address always reads the same, the
/// walk is determined by what memory holds.
pub proof fn law_walk_of_still_memory<L: Fn(usize) -> usize>(
    arch: Arch,
    load: L,
    mem: spec_fn(usize) -> usize,
    fp: usize,
    sp: usize,
    room: nat,
    pcs: Seq<usize>,
)
    requires
        walked(arch, load, fp, sp, room, pcs),
        forall|addr: usize, value: usize| #[trigger]
            call_ensures(load, (addr,), value) ==> value == mem(addr),
    ensures
        pcs == walk(arch, mem, fp, sp, room),
    decreases room,
{
    if room > 0 && readable_frame(fp, sp) {
        let saved_fp = mem(fp);
        if saved_fp != SAFE_LOAD_FAULT && plausible(
            fp,
            saved_fp,
            stripped(arch, mem(return_slot(fp))),
        ) {
            law_walk_of_still_memory(
                arch,
                load,
                mem,
                saved_fp,
                sp,
                (room - 1) as nat,
                pcs.drop_first(),
            );
            assert(pcs =~= seq![pcs[0]] + pcs.drop_first());
        }
    }
    assert(pcs =~= walk(arch, mem, fp, sp, room));
}

/// A walk captures no more return addresses than there is room for, and none
/// in a dead zone.
pub proof fn law_return_addresses_are_plausible<L: Fn(usize) -> usize>(
    arch: Arch,
    load: L,
    fp: usize,
    sp: usize,
    room: nat,
    pcs: Seq<usize>,
)
    requires
        walked(arch, load, fp, sp, room, pcs),
    ensures
        pcs.len() <= room,
        forall|i: int|
            0 <= i < pcs.len() ==> DEAD_ZONE <= #[trigger] pcs[i] <= usize::MAX - DEAD_ZONE,
    decreases room,
{
    if room > 0 && readable_frame(fp, sp) && pcs.len() > 0 {
        let saved_fp = choose|saved_fp: usize|
            {
                &&& #[trigger] call_ensures(load, (fp,), saved_fp)
                &&& saved_fp != SAFE_LOAD_FAULT
                &&& exists|raw: usize|
                    {
                        &&& #[trigger] call_ensures(load, (return_slot(fp),), raw)
                        &&& plausible(fp, saved_fp, stripped(arch, raw))
                        &&& pcs[0] == stripped(arch, raw)
                        &&& walked(arch, load, saved_fp, sp, (room - 1) as nat, pcs.drop_first())
                    }
            };
        law_return_addresses_are_plausible(
            arch,
            load,
            saved_fp,
            sp,
            (room - 1) as nat,
            pcs.drop_first(),
        );
        assert forall|i: int| 0 <= i < pcs.len() implies DEAD_ZONE <= #[trigger] pcs[i]
            <= usize::MAX - DEAD_ZONE by {
            if i > 0 {
                assert(pcs.drop_first()[i - 1] == pcs[i]);
            }
        }
    }
}

/// Stripping leaves an address alone that carries no authentication bits, so
/// that it can be done whether or not the machine signs return addresses.
pub proof fn law_stripping_keeps_plain_addresses(arch: Arch, addr: usize)
    requires
        addr < 0x1_0000_0000_0000,
    ensures
        stripped(arch, addr) == addr,
{
}

/// A walk ends where memory cannot be read or the chain does not go on upwards.
pub proof fn law_broken_chain_ends_the_walk(
    arch: Arch,
    mem: spec_fn(usize) -> usize,
    fp: usize,
    sp: usize,
    room: nat,
)
    requires
        mem(fp) == SAFE_LOAD_FAULT || mem(return_slot(fp)) == SAFE_LOAD_FAULT || mem(fp) <= fp,
    ensures
        walk(arch, mem, fp, sp, room).len() == 0,
{
}

/// The word at `fp` is the frame pointer `caller_fp` of the caller and the word
/// above it is the return address `ret_addr`: the frame lies aligned in the 8
/// MiB above `sp`, the caller's frame starts at most 256 KiB further up, and the
/// return address, without what signs it on aarch64, is no closer than 4 KiB
/// to either end of the address space.
pub open spec fn holds_frame(
    arch: Arch,
    mem: spec_fn(usize) -> usize,
    sp: usize,
    fp: usize,
    caller_fp: usize,
    ret_addr: usize,
) -> bool {
    let w = usize::BITS as int / 8;
    &&& sp <= fp < sp + 0x80_0000
    &&& fp as int % w == 0
    &&& fp + w <= usize::MAX
    &&& mem(fp) == caller_fp
    &&& fp < caller_fp <= fp + 0x40000
    &&& ret_addr as int == match arch {
        Arch::X86_64 => mem((fp + w) as usize) as int,
        Arch::Aarch64 => mem((fp + w) as usize) as int % 0x1_0000_0000_0000,
    }
    &&& 0x1000 <= ret_addr <= usize::MAX - 0x1000
}

/// Each of the frame pointers but the last starts a frame, with the return
/// address at the same place and with the next frame pointer for its caller.
pub open spec fn holds_chain(
    arch: Arch,
    mem: spec_fn(usize) -> usize,
    sp: usize,
    fps: Seq<usize>,
    rets: Seq<usize>,
) -> bool {
    &&& fps.len() == rets.len() + 1
    &&& forall|k: int|
        0 <= k < rets.len() ==> holds_frame(
            arch,
            mem,
            sp,
            fps[k],
            fps[k + 1],
            #[trigger] rets[k],
        )
}

/// A walk is complete: where memory holds still and holds a chain of frames,
/// the walk captures the return address of each, in their order and as far as
/// there is room. Where the last frame pointer of the chain starts no further
/// frame, it captures nothing else.
pub proof fn law_walk_captures_the_chain<L: Fn(usize) -> usize>(
    arch: Arch,
    load: L,
    mem: spec_fn(usize) -> usize,
    sp: usize,
    fps: Seq<usize>,
    rets: Seq<usize>,
    room: nat,
    pcs: Seq<usize>,
)
    requires
        walked(arch, load, fps[0], sp, room, pcs),
        forall|addr: usize, value: usize| #[trigger]
            call_ensures(load, (addr,), value) ==> value == mem(addr),
        holds_chain(arch, mem, sp, fps, rets),
    ensures
        rets.len() >= room ==> pcs == rets.take(room as int),
        rets.len() < room ==> pcs.len() >= rets.len() && pcs.take(rets.len() as int) == rets,
        rets.len() < room && fps.last() + usize::BITS as int / 8 <= usize::MAX && (forall|
            caller_fp: usize,
            ret_addr: usize,
        |
            !holds_frame(arch, mem, sp, fps.last(), caller_fp, ret_addr)) ==> pcs == rets,
    decreases rets.len(),
{
    let fp = fps[0];
    if room == 0 {
        assert(pcs =~= rets.take(0));
    } else if rets.len() == 0 {
        assert(pcs.take(0) =~= rets);
        if pcs.len() > 0 && fp + usize::BITS as int / 8 <= usize::MAX {
            law_walk_of_still_memory(arch, load, mem, fp, sp, room, pcs);
            let ret_addr = stripped(arch, mem(return_slot(fp)));
            assert(holds_frame(arch, mem, sp, fp, mem(fp), ret_addr));
        }
        if pcs.len() == 0 {
            assert(pcs =~= rets);
        }
    } else {
        assert(holds_frame(arch, mem, sp, fps[0], fps[1], rets[0]));
        let tail = fps.drop_first();
        let rest = rets.drop_first();
        assert(pcs.len() > 0 && pcs[0] == rets[0] && walked(
            arch,
            load,
            fps[1],
            sp,
            (room - 1) as nat,
            pcs.drop_first(),
        ));
        assert forall|k: int| 0 <= k < rest.len() implies holds_frame(
            arch,
            mem,
            sp,
            tail[k],
            tail[k + 1],
            #[trigger] rest[k],
        ) by {
            assert(rest[k] == rets[k + 1]);
        }
        law_walk_captures_the_chain(
            arch,
            load,
            mem,
            sp,
            tail,
            rest,
            (room - 1) as nat,
            pcs.drop_first(),
        );
        assert(tail.last() == fps.last());
        assert(pcs =~= seq![pcs[0]] + pcs.drop_first());
        assert(rets =~= seq![rets[0]] + rest);
        if rets.len() >= room {
            assert(pcs =~= rets.take(room as int));
        } else {
            assert(pcs.take(rets.len() as int) =~= seq![pcs[0]] + pcs.drop_first().take(
                rest.len() as int,
            ));
        }
    }
}

/// A buffer that a walk filled holds the interrupted instruction and then the
/// chain of return addresses, as far as the buffer goes and 256 frames at most.
pub proof fn law_unwound_frames_are_the_chain<L: Fn(usize) -> usize>(
    arch: Arch,
    load: L,
    mem: spec_fn(usize) -> usize,
    sp: usize,
    fps: Seq<usize>,
    rets: Seq<usize>,
    out: Seq<Frame>,
    count: nat,
)
    requires
        0 < count <= out.len(),
        walked(
            arch,
            load,
            fps[0],
            sp,
            (frame_limit(out.len()) - 1) as nat,
            pcs_of(out.subrange(1, count as int)),
        ),
        forall|addr: usize, value: usize| #[trigger]
            call_ensures(load, (addr,), value) ==> value == mem(addr),
        holds_chain(arch, mem, sp, fps, rets),
    ensures
        forall|k: int|
            0 <= k < rets.len() && k + 1 < out.len() && k + 1 < 256 ==> k + 1 < count && out[k
                + 1].pc == #[trigger] rets[k],
        rets.len() < out.len() && rets.len() < 256 ==> count > rets.len(),
        rets.len() + 1 >= 256 && out.len() >= 256 ==> count == 256,
        rets.len() + 1 >= out.len() && out.len() <= 256 ==> count == out.len(),
        fps.last() + usize::BITS as int / 8 <= usize::MAX && (forall|
            caller_fp: usize,
            ret_addr: usize,
        |
            !holds_frame(arch, mem, sp, fps.last(), caller_fp, ret_addr)) ==> count <= rets.len()
            + 1,
{
    let room = (frame_limit(out.len()) - 1) as nat;
    let pcs = pcs_of(out.subrange(1, count as int));
    law_walk_captures_the_chain(arch, load, mem, sp, fps, rets, room, pcs);
    law_return_addresses_are_plausible(arch, load, fps[0], sp, room, pcs);
    assert forall|k: int|
        0 <= k < rets.len() && k + 1 < out.len() && k + 1 < 256 implies k + 1 < count && out[k
        + 1].pc == #[trigger] rets[k] by {
        if rets.len() >= room {
            assert(rets.take(room as int)[k] == rets[k]);
        } else {
            assert(pcs.take(rets.len() as int)[k] == pcs[k]);
        }
        assert(pcs[k] == out[k + 1].pc);
    }
}

/// Every captured return address is one that memory held: the walk visits
/// frames that form a chain from `fp` on, and captures what they hold.
pub proof fn law_captured_addresses_were_in_memory(
    arch: Arch,
    mem: spec_fn(usize) -> usize,
    fp: usize,
    sp: usize,
    room: nat,
) -> (fps: Seq<usize>)
    requires
        sp + 0x80_0000 + usize::BITS as int / 8 <= usize::MAX,
    ensures
        fps.len() > 0,
        fps[0] == fp,
        holds_chain(arch, mem, sp, fps, walk(arch, mem, fp, sp, room)),
    decreases room,
{
    let saved_fp = mem(fp);
    let ret_addr = stripped(arch, mem(return_slot(fp)));
    let all = walk(arch, mem, fp, sp, room);
    if room == 0 || !readable_frame(fp, sp) || saved_fp == SAFE_LOAD_FAULT || !plausible(
        fp,
        saved_fp,
        ret_addr,
    ) {
        seq![fp]
    } else {
        let rest = law_captured_addresses_were_in_memory(
            arch,
            mem,
            saved_fp,
            sp,
            (room - 1) as nat,
        );
        let fps = seq![fp] + rest;
        let tail = walk(arch, mem, saved_fp, sp, (room - 1) as nat);
        assert forall|k: int| 0 <= k < all.len() implies holds_frame(
            arch,
            mem,
            sp,
            fps[k],
            fps[k + 1],
            #[trigger] all[k],
        ) by {
            if k > 0 {
                assert(all[k] == tail[k - 1]);
                assert(fps[k] == rest[k - 1]);
                assert(fps[k + 1] == rest[k]);
            } else {
                assert(fps[1] == rest[0]);
            }
        }
        fps
    }
}

} // verus!
