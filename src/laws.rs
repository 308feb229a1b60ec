//! Properties that relate the instructions to one another or hold for all
//! operand values, proved from the step function.
use vstd::prelude::*;

use crate::display::{
    blank_screen, draw_collides, pixel_cleared, sprite_bit, sprite_covers, SCREEN_HEIGHT, SCREEN_WIDTH,
};
use crate::instruction::Instruction;
use crate::machine::{MachineState, MEMORY_SIZE, STACK_LIMIT};
use crate::semantics::{exec_spec, sub_wrapping, ExecError};

verus! {

/// Adding register `y` into register `x` leaves `(a + b) mod 256` in `x`
/// and sets the flag register to 1 exactly when `a + b > 255`, where `a` and
/// `b` are the two registers beforehand. (With `x` the flag register itself
/// the flag overwrites the sum.)
pub proof fn lemma_add_sets_carry(s: MachineState, x: u8, y: u8, rnd: u8)
    requires
        s.wf(),
        x < 15,
        y < 16,
    ensures
        ({
            let (a, b) = (s.v[x as int], s.v[y as int]);
            exec_spec(s, Instruction::AddYtoX(x, y), rnd) matches Ok(t) && t.v[x as int] == (a + b) % 256 && t.v[15]
                == (if a + b > 255 { 1u8 } else { 0u8 })
        }),
{
}

/// Subtracting one register from another, in either order, leaves the
/// difference modulo 256 and sets the flag register to 0 exactly when the
/// subtraction borrows, else to 1.
pub proof fn lemma_sub_sets_borrow(s: MachineState, x: u8, y: u8, rnd: u8)
    requires
        s.wf(),
        x < 15,
        y < 16,
    ensures
        ({
            let (a, b) = (s.v[x as int], s.v[y as int]);
            &&& exec_spec(s, Instruction::SubYfromX(x, y), rnd) matches Ok(t) && t.v[x as int] == (a - b) % 256
                && t.v[15] == (if a < b { 0u8 } else { 1u8 })
            &&& exec_spec(s, Instruction::SetXtoYMinusX(x, y), rnd) matches Ok(t) && t.v[x as int] == (b - a) % 256
                && t.v[15] == (if b < a { 0u8 } else { 1u8 })
        }),
{
    let (a, b) = (s.v[x as int], s.v[y as int]);
    assert(sub_wrapping(a, b) == (a - b) % 256);
    assert(sub_wrapping(b, a) == (b - a) % 256);
}

/// Shifting right puts bit 0 of the source register in the flag register
/// and the source shifted right by one in the destination; shifting left
/// puts bit 7 in the flag register and the source shifted left by one,
/// truncated to a byte, in the destination. (With the flag register as
/// destination, the flag is what remains.)
pub proof fn lemma_shift_flags(s: MachineState, x: u8, y: u8, rnd: u8)
    requires
        s.wf(),
        x < 16,
        y < 16,
    ensures
        ({
            let src = s.v[y as int];
            &&& exec_spec(s, Instruction::SetXtoYshiftRightOnce(x, y), rnd) matches Ok(t) && t.v[15] == src & 1
                && (x != 15 ==> t.v[x as int] == src >> 1)
            &&& exec_spec(s, Instruction::SetXtoYshiftLeftOnce(x, y), rnd) matches Ok(t) && t.v[15] == (src >> 7) & 1
                && (x != 15 ==> t.v[x as int] == src << 1)
        }),
{
    let src = s.v[y as int];
    assert(src & 1 == src % 2) by (bit_vector);
    assert(src >> 1 == src / 2) by (bit_vector);
    assert((src >> 7) & 1 == src / 128) by (bit_vector);
    assert(src << 1 == (src * 2) % 256) by (bit_vector);
}

/// A byte other than zero has a lit pixel among its eight.
proof fn lemma_nonzero_byte_has_lit_bit(b: u8)
    requires
        b != 0,
    ensures
        exists|col: int| 0 <= col < 8 && #[trigger] sprite_bit(b, col),
{
    assert(sprite_bit(b, 0) || sprite_bit(b, 1) || sprite_bit(b, 2) || sprite_bit(b, 3) || sprite_bit(b, 4)
        || sprite_bit(b, 5) || sprite_bit(b, 6) || sprite_bit(b, 7)) by (bit_vector)
        requires
            b != 0,
    ;
}

/// Drawing a 15-row sprite at the top-left corner of a blank framebuffer,
/// and then drawing it again at the same place, leaves the framebuffer blank
/// and the flag register at 1, provided the sprite has a lit pixel (a sprite
/// of zero bytes collides with nothing).
pub proof fn lemma_draw_twice_clears(s: MachineState, x: u8, y: u8, rnd: u8)
    requires
        s.wf(),
        x < 16,
        y < 16,
        s.screen == blank_screen(),
        s.v[x as int] % 64 == 0,
        s.v[y as int] % 32 == 0,
        s.i + 15 <= MEMORY_SIZE,
        exists|a: int| s.i <= a < s.i + 15 && #[trigger] s.ram[a] != 0,
    ensures
        exec_spec(s, Instruction::DrawSprite(x, y, 15), rnd) matches Ok(t1) && exec_spec(
            t1,
            Instruction::DrawSprite(x, y, 15),
            rnd,
        ) matches Ok(t2) && t2.screen == blank_screen() && t2.v[15] == 1,
{
    let ins = Instruction::DrawSprite(x, y, 15);
    let sprite = s.ram.subrange(s.i as int, s.i + 15);
    let t1 = exec_spec(s, ins, rnd)->Ok_0;
    assert(!draw_collides(s.screen, 0, 0, sprite));
    assert(t1.v[15] == 0);
    assert(t1.v[x as int] % 64 == 0 && t1.v[y as int] % 32 == 0);
    let t2 = exec_spec(t1, ins, rnd)->Ok_0;
    assert(t2.screen =~~= blank_screen());
    let a = choose|a: int| s.i <= a < s.i + 15 && #[trigger] s.ram[a] != 0;
    let k = a - s.i;
    assert(sprite[k] == s.ram[a]);
    lemma_nonzero_byte_has_lit_bit(sprite[k]);
    let col = choose|col: int| 0 <= col < 8 && #[trigger] sprite_bit(sprite[k], col);
    assert(sprite_covers(0, 0, sprite, k, col));
    assert(t1.screen[k][col]);
    assert(pixel_cleared(t1.screen, 0, 0, sprite, k, col));
}

/// A sprite is clipped at the edges of the grid: pixels left of or above its
/// origin, and pixels outside its 8 by `n` rectangle, are left alone (so
/// nothing wraps round), each pixel inside it is XORed with the sprite's, and
/// the flag register is 1 exactly when a lit pixel on the grid was cleared.
pub proof fn lemma_draw_clips(s: MachineState, x: u8, y: u8, n: u8, rnd: u8)
    requires
        s.wf(),
        x < 16,
        y < 16,
        n < 16,
        s.i + n <= MEMORY_SIZE,
    ensures
        ({
            let x0 = s.v[x as int] as int % 64;
            let y0 = s.v[y as int] as int % 32;
            let sprite = s.ram.subrange(s.i as int, s.i + n);
            exec_spec(s, Instruction::DrawSprite(x, y, n), rnd) matches Ok(t) && {
                &&& forall|r: int, c: int|
                    0 <= r < SCREEN_HEIGHT && 0 <= c < SCREEN_WIDTH && !(y0 <= r < y0 + n && x0 <= c < x0 + 8)
                        ==> #[trigger] t.screen[r][c] == s.screen[r][c]
                &&& forall|r: int, c: int|
                    0 <= r < SCREEN_HEIGHT && 0 <= c < SCREEN_WIDTH && y0 <= r < y0 + n && x0 <= c < x0 + 8
                        ==> #[trigger] t.screen[r][c] == (s.screen[r][c] != sprite_bit(sprite[r - y0], c - x0))
                &&& (t.v[15] == 1) == exists|r: int, c: int|
                    0 <= r < SCREEN_HEIGHT && 0 <= c < SCREEN_WIDTH && #[trigger] s.screen[r][c]
                        && sprite_covers(x0, y0, sprite, r, c)
                &&& t.v[15] <= 1
            }
        }),
{
    let x0 = s.v[x as int] as int % 64;
    let y0 = s.v[y as int] as int % 32;
    let sprite = s.ram.subrange(s.i as int, s.i + n);
    let collided = draw_collides(s.screen, x0, y0, sprite);
    if collided {
        let (r, c) = choose|r: int, c: int| #[trigger] pixel_cleared(s.screen, x0, y0, sprite, r, c);
        assert(s.screen[r][c] && sprite_covers(x0, y0, sprite, r, c));
    }
    if exists|r: int, c: int|
        0 <= r < SCREEN_HEIGHT && 0 <= c < SCREEN_WIDTH && #[trigger] s.screen[r][c] && sprite_covers(x0, y0, sprite, r, c) {
        let (r, c) = choose|r: int, c: int|
            0 <= r < SCREEN_HEIGHT && 0 <= c < SCREEN_WIDTH && #[trigger] s.screen[r][c] && sprite_covers(x0, y0, sprite, r, c);
        assert(pixel_cleared(s.screen, x0, y0, sprite, r, c));
    }
}

/// Storing registers 0 to `n` at the index register, pointing the index
/// register back at the same base, and loading registers 0 to `n` from it
/// gives back every register as it was.
pub proof fn lemma_store_fill_round_trip(s: MachineState, n: u8, rnd: u8)
    requires
        s.wf(),
        n < 16,
        s.i + n + 1 <= MEMORY_SIZE,
    ensures
        exec_spec(s, Instruction::StoreRegistersInMemory(n), rnd) matches Ok(t1) && exec_spec(
            t1,
            Instruction::LoadIndexRegister(s.i),
            rnd,
        ) matches Ok(t2) && exec_spec(t2, Instruction::FillRegisters(n), rnd) matches Ok(t3) && t3.v == s.v,
{
    let t1 = exec_spec(s, Instruction::StoreRegistersInMemory(n), rnd)->Ok_0;
    let t2 = exec_spec(t1, Instruction::LoadIndexRegister(s.i), rnd)->Ok_0;
    let t3 = exec_spec(t2, Instruction::FillRegisters(n), rnd)->Ok_0;
    assert(t3.v =~= s.v);
}

/// The machine after a call to each of `targets` in turn (a call that fails
/// leaves it as it was).
pub open spec fn after_calls(s: MachineState, targets: Seq<u16>) -> MachineState
    decreases targets.len(),
{
    if targets.len() == 0 {
        s
    } else {
        let before = after_calls(s, targets.drop_last());
        match exec_spec(before, Instruction::SubRoutine(targets.last()), 0) {
            Ok(t) => t,
            Err(_) => before,
        }
    }
}

/// The machine after `n` returns (a return that fails leaves it as it was).
pub open spec fn after_returns(s: MachineState, n: nat) -> MachineState
    decreases n,
{
    if n == 0 {
        s
    } else {
        let before = after_returns(s, (n - 1) as nat);
        match exec_spec(before, Instruction::Return, 0) {
            Ok(t) => t,
            Err(_) => before,
        }
    }
}

/// Calls only move the program counter and push on the stack: after `k`
/// calls the stack has grown by `k`, each call succeeded, and the state is
/// well formed.
proof fn lemma_calls_push(s: MachineState, targets: Seq<u16>, k: int)
    requires
        s.wf(),
        s.stack.len() + targets.len() <= STACK_LIMIT,
        forall|j: int| 0 <= j < targets.len() ==> #[trigger] targets[j] < 4096,
        0 <= k <= targets.len(),
    ensures
        after_calls(s, targets.take(k)).wf(),
        after_calls(s, targets.take(k)).stack.len() == s.stack.len() + k,
        k < targets.len() ==> exec_spec(after_calls(s, targets.take(k)), Instruction::SubRoutine(targets[k]), 0) is Ok,
        k < targets.len() ==> after_calls(s, targets.take(k + 1)) == exec_spec(
            after_calls(s, targets.take(k)),
            Instruction::SubRoutine(targets[k]),
            0,
        )->Ok_0,
    decreases k,
{
    if k > 0 {
        lemma_calls_push(s, targets, k - 1);
        assert(targets.take(k).drop_last() =~= targets.take(k - 1));
    }
    if k < targets.len() {
        assert(targets.take(k + 1).drop_last() =~= targets.take(k));
        assert(targets.take(k + 1).last() == targets[k]);
        let a = after_calls(s, targets.take(k));
        let b = exec_spec(a, Instruction::SubRoutine(targets[k]), 0)->Ok_0;
        assert(b.stack =~= a.stack.push(a.pc));
    }
}

/// Calls and returns are balanced: after `targets.len()` nested calls, each
/// of the following returns succeeds, and the `j`-th of them leaves the
/// machine (program counter and stack included) as it was before the last
/// `j` calls were made, unwinding them in reverse order.
pub proof fn lemma_calls_unwind(s: MachineState, targets: Seq<u16>)
    requires
        s.wf(),
        s.stack.len() + targets.len() <= STACK_LIMIT,
        forall|j: int| 0 <= j < targets.len() ==> #[trigger] targets[j] < 4096,
    ensures
        forall|k: int| 0 <= k < targets.len() ==> exec_spec(
            #[trigger] after_calls(s, targets.take(k)),
            Instruction::SubRoutine(targets[k]),
            0,
        ) is Ok,
        forall|j: nat| j <= targets.len() ==> #[trigger] after_returns(after_calls(s, targets), j) == after_calls(
            s,
            targets.take(targets.len() - j),
        ),
        forall|j: nat| j < targets.len() ==> exec_spec(
            #[trigger] after_returns(after_calls(s, targets), j),
            Instruction::Return,
            0,
        ) is Ok,
{
    let len = targets.len() as int;
    assert forall|k: int| 0 <= k < len implies exec_spec(
        #[trigger] after_calls(s, targets.take(k)),
        Instruction::SubRoutine(targets[k]),
        0,
    ) is Ok by {
        lemma_calls_push(s, targets, k);
    }
    assert(targets.take(len) =~= targets);
    assert forall|j: nat| j <= len implies #[trigger] after_returns(after_calls(s, targets), j) == after_calls(
        s,
        targets.take(len - j),
    ) by {
        lemma_returns_unwind(s, targets, j);
    }
    assert forall|j: nat| j < len implies exec_spec(
        #[trigger] after_returns(after_calls(s, targets), j),
        Instruction::Return,
        0,
    ) is Ok by {
        lemma_returns_unwind(s, targets, j);
        lemma_calls_push(s, targets, len - j);
    }
}

/// The induction behind `lemma_calls_unwind`: `j` returns undo the last `j`
/// calls.
#[verifier::spinoff_prover]
proof fn lemma_returns_unwind(s: MachineState, targets: Seq<u16>, j: nat)
    requires
        s.wf(),
        s.stack.len() + targets.len() <= STACK_LIMIT,
        forall|k: int| 0 <= k < targets.len() ==> #[trigger] targets[k] < 4096,
        j <= targets.len(),
    ensures
        after_returns(after_calls(s, targets), j) == after_calls(s, targets.take(targets.len() - j)),
    decreases j,
{
    let len = targets.len() as int;
    assert(targets.take(len) =~= targets);
    if j > 0 {
        lemma_returns_unwind(s, targets, (j - 1) as nat);
        let k = len - j;
        lemma_calls_push(s, targets, k);
        lemma_return_undoes_call(after_calls(s, targets.take(k)), targets[k]);
    }
}

/// A return right after a call gives back the machine as it was before the
/// call.
proof fn lemma_return_undoes_call(a: MachineState, target: u16)
    requires
        a.wf(),
        a.stack.len() < STACK_LIMIT,
    ensures
        exec_spec(exec_spec(a, Instruction::SubRoutine(target), 0)->Ok_0, Instruction::Return, 0) == Ok::<
            MachineState,
            ExecError,
        >(a),
{
    let b = exec_spec(a, Instruction::SubRoutine(target), 0)->Ok_0;
    assert(b.stack.drop_last() =~= a.stack);
    assert(exec_spec(b, Instruction::Return, 0)->Ok_0 =~= a);
}

} // verus!
