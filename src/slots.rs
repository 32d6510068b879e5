use vstd::prelude::*;

verus! {

/// The `len` entries of a ring of slots that start at `head`, in order.
pub open spec fn ring_view<T>(slots: Seq<T>, head: int, len: nat) -> Seq<T> {
    Seq::new(len, |i: int| slots[(head + i) % (slots.len() as int)])
}

/// Writing `x` into the slot after the last of the `len` entries appends it.
pub proof fn lemma_ring_push<T>(slots: Seq<T>, head: int, len: nat, x: T)
    requires
        0 <= head < slots.len(),
        len < slots.len(),
    ensures
        ring_view(slots.update((head + len) % (slots.len() as int), x), head, len + 1)
            == ring_view(slots, head, len).push(x),
{
    let n = slots.len() as int;
    let idx = (head + len) % n;
    let s2 = slots.update(idx, x);
    assert forall|i: int| 0 <= i < len + 1 implies #[trigger] ring_view(s2, head, len + 1)[i]
        == ring_view(slots, head, len).push(x)[i] by {
        lemma_mod_wrap(head + i, n);
        lemma_mod_wrap(head + len, n);
    }
    assert(ring_view(s2, head, len + 1) =~= ring_view(slots, head, len).push(x));
}


/// Retiring the oldest of `len` entries moves `head` one slot on.
pub proof fn lemma_ring_pop<T>(slots: Seq<T>, head: int, len: nat)
    requires
        0 <= head < slots.len(),
        0 < len <= slots.len(),
    ensures
        ring_view(slots, (head + 1) % (slots.len() as int), (len - 1) as nat)
            == ring_view(slots, head, len).drop_first(),
{
    let n = slots.len() as int;
    lemma_mod_wrap(head + 1, n);
    let h2 = (head + 1) % n;
    assert forall|i: int| 0 <= i < len - 1 implies #[trigger] ring_view(slots, h2, (len - 1) as nat)[i]
        == ring_view(slots, head, len).drop_first()[i] by {
        lemma_mod_wrap(h2 + i, n);
        lemma_mod_wrap(head + i + 1, n);
    }
    assert(ring_view(slots, h2, (len - 1) as nat) =~= ring_view(slots, head, len).drop_first());
}

/// An index below twice the modulus wraps at most once.
pub proof fn lemma_mod_wrap(a: int, n: int)
    requires
        0 <= a < 2 * n,
    ensures
        a < n ==> a % n == a,
        a >= n ==> a % n == a - n,
{
    if a < n {
        assert(a % n == a) by (nonlinear_arith)
            requires 0 <= a < n;
    } else {
        assert(a % n == a - n) by (nonlinear_arith)
            requires n <= a < 2 * n;
    }
}

} // verus!
