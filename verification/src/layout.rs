//! How the slots lie in the arena: slot `i` of an arena of slots of `size`
//! bytes is the bytes from `i * size` up to `(i + 1) * size`.

use vstd::prelude::*;

verus! {

/// The offset into the arena at which slot `i` starts. Slot `i` ends where
/// slot `i + 1` starts.
pub open spec fn slot_start(i: int, size: int) -> int {
    i * size
}

/// The bytes of slot `i` in `arena`.
pub open spec fn slot_bytes(arena: Seq<u8>, i: int, size: int) -> Seq<u8> {
    arena.subrange(slot_start(i, size), slot_start(i + 1, size))
}

/// Every part has `size` bytes.
pub open spec fn uniform(parts: Seq<Seq<u8>>, size: int) -> bool {
    forall|k: int| 0 <= k < parts.len() ==> (#[trigger] parts[k]).len() == size
}

/// Slot `i` lies inside an arena of `count` slots, and has `size` bytes.
pub proof fn lemma_slot_inside(i: int, count: int, size: int)
    requires
        0 <= i < count,
        0 <= size,
    ensures
        0 <= slot_start(i, size),
        slot_start(i, size) + size == slot_start(i + 1, size),
        slot_start(i + 1, size) <= count * size,
{
    assert(i * size + size == (i + 1) * size) by (nonlinear_arith);
    assert(0 <= i * size) by (nonlinear_arith)
        requires
            0 <= i,
            0 <= size,
    ;
    assert((i + 1) * size <= count * size) by (nonlinear_arith)
        requires
            i + 1 <= count,
            0 <= size,
    ;
}

/// Two slots share no byte: the earlier one ends before the later one
/// starts.
pub proof fn lemma_slots_apart(i: int, j: int, size: int)
    requires
        0 <= i < j,
        0 <= size,
    ensures
        slot_start(i + 1, size) <= slot_start(j, size),
{
    assert((i + 1) * size <= j * size) by (nonlinear_arith)
        requires
            i + 1 <= j,
            0 <= size,
    ;
}

/// Parts of equal size laid end to end make an arena in which part `i` is
/// slot `i`.
pub proof fn lemma_joined_slots(parts: Seq<Seq<u8>>, size: int)
    requires
        0 <= size,
        uniform(parts, size),
    ensures
        parts.flatten().len() == parts.len() * size,
        forall|i: int|
            0 <= i < parts.len() ==> #[trigger] slot_bytes(parts.flatten(), i, size) == parts[i],
    decreases parts.len(),
{
    if parts.len() == 0 {
        assert(parts.flatten().len() == 0);
        assert(parts.len() * size == 0) by (nonlinear_arith)
            requires
                parts.len() == 0,
        ;
    } else {
        let front = parts.drop_last();
        let last = parts.last();
        let count = parts.len() as int;
        lemma_joined_slots(front, size);
        front.lemma_flatten_push(last);
        assert(parts == front.push(last));
        assert(parts.flatten() == front.flatten() + last);
        lemma_slot_inside(count - 1, count, size);
        assert(front.flatten().len() == slot_start(count - 1, size));
        assert forall|i: int| 0 <= i < parts.len() implies #[trigger] slot_bytes(
            parts.flatten(),
            i,
            size,
        ) == parts[i] by {
            lemma_slot_inside(i, count, size);
            if i < count - 1 {
                lemma_slot_inside(i, count - 1, size);
                assert(slot_bytes(parts.flatten(), i, size) =~= slot_bytes(
                    front.flatten(),
                    i,
                    size,
                ));
                assert(front[i] == parts[i]);
            } else {
                assert(slot_bytes(parts.flatten(), i, size) =~= last);
            }
        }
    }
}

/// What is written to one slot is read back from it, and shows in no other
/// slot: when part `i` of the arena is replaced, slot `i` holds the new
/// bytes, every other slot holds what it held, and the arena keeps its size.
pub proof fn lemma_write_stays_in_slot(parts: Seq<Seq<u8>>, size: int, i: int, written: Seq<u8>)
    requires
        0 <= size,
        uniform(parts, size),
        0 <= i < parts.len(),
        written.len() == size,
    ensures
        parts.update(i, written).flatten().len() == parts.flatten().len(),
        slot_bytes(parts.update(i, written).flatten(), i, size) == written,
        forall|j: int|
            0 <= j < parts.len() && j != i ==> #[trigger] slot_bytes(
                parts.update(i, written).flatten(),
                j,
                size,
            ) == slot_bytes(parts.flatten(), j, size),
{
    let after = parts.update(i, written);
    lemma_joined_slots(parts, size);
    lemma_joined_slots(after, size);
    assert(slot_bytes(after.flatten(), i, size) == after[i]);
    assert forall|j: int| 0 <= j < parts.len() && j != i implies #[trigger] slot_bytes(
        after.flatten(),
        j,
        size,
    ) == slot_bytes(parts.flatten(), j, size) by {
        assert(after[j] == parts[j]);
    }
}

} // verus!
