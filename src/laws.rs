use vstd::prelude::*;

use crate::card::Side;
use crate::deck::DeckModel;

verus! {

/// After `n` advances the cursor stands `n` places further on, counted
/// round the deck; the deck keeps its size.
pub proof fn lemma_advanced_times(d: DeckModel, n: nat)
    requires
        d.wf(),
    ensures
        d.advanced_times(n).wf(),
        d.advanced_times(n).cards.len() == d.cards.len(),
        d.advanced_times(n).index == (d.index + n) % (d.cards.len() as int),
    decreases n,
{
    let len = d.cards.len() as int;
    if n == 0 {
        vstd::arithmetic::div_mod::lemma_small_mod(d.index as nat, len as nat);
    } else {
        lemma_advanced_times(d, (n - 1) as nat);
        let prev = d.advanced_times((n - 1) as nat);
        let r = prev.index;
        vstd::arithmetic::div_mod::lemma_add_mod_noop_right(1, d.index + n - 1, len);
        if r + 1 < len {
            vstd::arithmetic::div_mod::lemma_small_mod((r + 1) as nat, len as nat);
        } else {
            vstd::arithmetic::div_mod::lemma_mod_self_0(len);
        }
    }
}

/// Advancing as many times as the deck has cards brings the cursor back to
/// where it started.
pub proof fn lemma_full_cycle(d: DeckModel)
    requires
        d.wf(),
    ensures
        d.advanced_times(d.cards.len()).index == d.index,
{
    let len = d.cards.len() as int;
    lemma_advanced_times(d, d.cards.len());
    vstd::arithmetic::div_mod::lemma_mod_add_multiples_vanish(d.index, len);
    vstd::arithmetic::div_mod::lemma_small_mod(d.index as nat, len as nat);
}

/// Retreating after an advance puts the cursor back where it was. The whole
/// deck is as it was when both the card under the cursor and the next one
/// were showing their fronts: moving shows the front of the card moved to.
pub proof fn lemma_retreat_undoes_advance(d: DeckModel)
    requires
        d.wf(),
    ensures
        d.advanced().retreated().index == d.index,
        d.advanced().retreated().wf(),
        d.current().side == Side::Front && d.cards[d.next_index()].side == Side::Front
            ==> d.advanced().retreated() == d,
{
    let a = d.advanced();
    let b = a.retreated();
    if d.current().side == Side::Front && d.cards[d.next_index()].side == Side::Front {
        assert(d.cards[d.next_index()].to_front() == d.cards[d.next_index()]);
        assert(a.cards =~= d.cards);
        assert(d.current().to_front() == d.current());
        assert(b.cards =~= d.cards);
    }
}

/// Turning the current card over twice restores the deck; one turn changes
/// no card but the current one, and does not move the cursor.
pub proof fn lemma_flip_twice(d: DeckModel)
    requires
        d.wf(),
    ensures
        d.flipped().flipped() == d,
        d.flipped().index == d.index,
        forall|j: int| 0 <= j < d.cards.len() && j != d.index ==> d.flipped().cards[j] == d.cards[j],
{
    assert(d.current().flipped().flipped() == d.current());
    assert(d.flipped().flipped().cards =~= d.cards);
}

} // verus!
