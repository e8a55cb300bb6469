//! Stable orders: the positions of a list, arranged so that the keys
//! ascend and equal keys keep the order in which they came.
//!
//! Keys are instants or texts. Texts compare as in a dictionary, character
//! by character, which is how strings compare.

use crate::text::{lex_less, less_than, views};
use vstd::prelude::*;

verus! {

/// No text comes before itself.
pub proof fn lemma_lex_irreflexive(a: Seq<char>)
    ensures
        !lex_less(a, a),
    decreases a.len(),
{
    if a.len() > 0 {
        lemma_lex_irreflexive(a.drop_first());
    }
}

/// Of two different texts one comes before the other.
pub proof fn lemma_lex_total(a: Seq<char>, b: Seq<char>)
    ensures
        lex_less(a, b) || lex_less(b, a) || a == b,
    decreases a.len(),
{
    if a.len() == 0 || b.len() == 0 {
        if a.len() == 0 && b.len() == 0 {
            assert(a =~= b);
        }
    } else if a[0] == b[0] {
        lemma_lex_total(a.drop_first(), b.drop_first());
        if a.drop_first() == b.drop_first() {
            assert(a =~= seq![a[0]] + a.drop_first());
            assert(b =~= seq![b[0]] + b.drop_first());
        }
    }
}

/// What comes before a text comes before all that the text comes before.
pub proof fn lemma_lex_transitive(a: Seq<char>, b: Seq<char>, c: Seq<char>)
    requires
        lex_less(a, b),
        lex_less(b, c),
    ensures
        lex_less(a, c),
    decreases a.len(),
{
    if a.len() > 0 && a[0] == b[0] && b[0] == c[0] {
        lemma_lex_transitive(a.drop_first(), b.drop_first(), c.drop_first());
    }
}

/// Whether `order` holds the position `p`.
pub open spec fn holds(order: Seq<usize>, p: int) -> bool {
    exists|a: int| 0 <= a < order.len() && #[trigger] order[a] == p
}

/// The items at the positions that `order` holds, one after the other.
pub open spec fn arranged<T>(items: Seq<T>, order: Seq<usize>) -> Seq<T> {
    Seq::new(order.len(), |a: int| items[order[a] as int])
}

/// Whether the text at position `i` of `keys` is arranged before the text
/// at position `j`: it comes first in the dictionary, or the two are equal
/// and `i` is the earlier position.
pub open spec fn text_before(keys: Seq<Seq<char>>, i: int, j: int) -> bool {
    lex_less(keys[i], keys[j]) || (keys[i] == keys[j] && i < j)
}

/// Whether `order` arranges the positions of `keys` so that the texts
/// ascend and equal texts keep their order. Such an order holds every
/// position once.
pub open spec fn is_text_order(keys: Seq<Seq<char>>, order: Seq<usize>) -> bool {
    &&& order.len() == keys.len()
    &&& forall|a: int| 0 <= a < order.len() ==> (#[trigger] order[a]) < keys.len()
    &&& forall|p: int| 0 <= p < keys.len() ==> #[trigger] holds(order, p)
    &&& forall|a: int, b: int|
        0 <= a < b < order.len() ==> text_before(keys, #[trigger] order[a] as int, #[trigger] order[b] as int)
}

/// An arrangement of texts holds no position twice.
pub proof fn lemma_text_order_is_distinct(keys: Seq<Seq<char>>, order: Seq<usize>)
    requires
        is_text_order(keys, order),
    ensures
        forall|a: int, b: int| 0 <= a < b < order.len() ==> order[a] != order[b],
{
    assert forall|a: int, b: int| 0 <= a < b < order.len() implies order[a] != order[b] by {
        assert(text_before(keys, order[a] as int, order[b] as int));
        lemma_lex_irreflexive(keys[order[a] as int]);
    }
}

/// Arranges the positions of `keys` so that the texts ascend and equal
/// texts keep their order.
pub fn text_order(keys: &Vec<Vec<char>>) -> (order: Vec<usize>)
    ensures
        is_text_order(views(keys@), order@),
{
    let ghost texts = views(keys@);
    let mut order: Vec<usize> = Vec::new();
    let mut i: usize = 0;
    while i < keys.len()
        invariant
            texts == views(keys@),
            i <= keys@.len(),
            order@.len() == i,
            forall|a: int| 0 <= a < order@.len() ==> (#[trigger] order@[a]) < i,
            forall|p: int| 0 <= p < i ==> #[trigger] holds(order@, p),
            forall|a: int, b: int|
                0 <= a < b < order@.len() ==> text_before(
                    texts,
                    #[trigger] order@[a] as int,
                    #[trigger] order@[b] as int,
                ),
        decreases keys@.len() - i,
    {
        let mut at: usize = order.len();
        while at > 0 && less_than(&keys[i], &keys[order[at - 1]])
            invariant
                texts == views(keys@),
                i < keys@.len(),
                at <= order@.len(),
                forall|a: int| 0 <= a < order@.len() ==> (#[trigger] order@[a]) < i,
                forall|b: int|
                    at <= b < order@.len() ==> lex_less(texts[i as int], texts[#[trigger] order@[b] as int]),
            decreases at,
        {
            at -= 1;
        }
        let ghost old_order = order@;
        proof {
            if at > 0 {
                let last = old_order[at - 1] as int;
                lemma_lex_total(texts[last], texts[i as int]);
                assert forall|a: int| 0 <= a < at implies text_before(
                    texts,
                    #[trigger] old_order[a] as int,
                    i as int,
                ) by {
                    if a < at - 1 {
                        assert(text_before(texts, old_order[a] as int, old_order[at - 1] as int));
                        if lex_less(texts[old_order[a] as int], texts[last]) && lex_less(
                            texts[last],
                            texts[i as int],
                        ) {
                            lemma_lex_transitive(
                                texts[old_order[a] as int],
                                texts[last],
                                texts[i as int],
                            );
                        }
                    }
                }
            }
        }
        order.insert(at, i);
        proof {
            assert forall|a: int, b: int| 0 <= a < b < order@.len() implies text_before(
                texts,
                #[trigger] order@[a] as int,
                #[trigger] order@[b] as int,
            ) by {
                if b < at {
                    assert(order@[a] == old_order[a] && order@[b] == old_order[b]);
                } else if b == at {
                    assert(order@[a] == old_order[a]);
                } else if a < at {
                    assert(order@[a] == old_order[a] && order@[b] == old_order[b - 1]);
                } else if a == at {
                    assert(order@[b] == old_order[b - 1]);
                } else {
                    assert(order@[a] == old_order[a - 1] && order@[b] == old_order[b - 1]);
                }
            }
            assert forall|a: int| 0 <= a < order@.len() implies (#[trigger] order@[a]) < i + 1 by {
                if a < at {
                    assert(order@[a] == old_order[a]);
                } else if a > at {
                    assert(order@[a] == old_order[a - 1]);
                }
            }
            assert forall|p: int| 0 <= p < i + 1 implies #[trigger] holds(order@, p) by {
                if p == i {
                    assert(order@[at as int] == p);
                } else {
                    assert(holds(old_order, p));
                    let a = choose|a: int| 0 <= a < old_order.len() && old_order[a] == p;
                    if a < at {
                        assert(order@[a] == p);
                    } else {
                        assert(order@[a + 1] == p);
                    }
                }
            }
        }
        i += 1;
    }
    order
}

/// Whether the instant at position `i` of `keys` is arranged before the
/// instant at position `j`: it is earlier, or the two are equal and `i` is
/// the earlier position.
pub open spec fn instant_before(keys: Seq<i64>, i: int, j: int) -> bool {
    keys[i] < keys[j] || (keys[i] == keys[j] && i < j)
}

/// Whether `order` arranges the positions of `keys` so that the instants
/// ascend and equal instants keep their order. Such an order holds every
/// position once.
pub open spec fn is_instant_order(keys: Seq<i64>, order: Seq<usize>) -> bool {
    &&& order.len() == keys.len()
    &&& forall|a: int| 0 <= a < order.len() ==> (#[trigger] order[a]) < keys.len()
    &&& forall|p: int| 0 <= p < keys.len() ==> #[trigger] holds(order, p)
    &&& forall|a: int, b: int|
        0 <= a < b < order.len() ==> instant_before(
            keys,
            #[trigger] order[a] as int,
            #[trigger] order[b] as int,
        )
}

/// Arranges the positions of `keys` so that the instants ascend and equal
/// instants keep their order.
pub fn instant_order(keys: &Vec<i64>) -> (order: Vec<usize>)
    ensures
        is_instant_order(keys@, order@),
{
    let mut order: Vec<usize> = Vec::new();
    let mut i: usize = 0;
    while i < keys.len()
        invariant
            i <= keys@.len(),
            order@.len() == i,
            forall|a: int| 0 <= a < order@.len() ==> (#[trigger] order@[a]) < i,
            forall|p: int| 0 <= p < i ==> #[trigger] holds(order@, p),
            forall|a: int, b: int|
                0 <= a < b < order@.len() ==> instant_before(
                    keys@,
                    #[trigger] order@[a] as int,
                    #[trigger] order@[b] as int,
                ),
        decreases keys@.len() - i,
    {
        let mut at: usize = order.len();
        while at > 0 && keys[i] < keys[order[at - 1]]
            invariant
                i < keys@.len(),
                at <= order@.len(),
                forall|a: int| 0 <= a < order@.len() ==> (#[trigger] order@[a]) < i,
                forall|b: int| at <= b < order@.len() ==> keys@[i as int] < keys@[#[trigger] order@[b] as int],
            decreases at,
        {
            at -= 1;
        }
        let ghost old_order = order@;
        proof {
            assert forall|a: int| 0 <= a < at implies instant_before(
                keys@,
                #[trigger] old_order[a] as int,
                i as int,
            ) by {
                if a < at - 1 {
                    assert(instant_before(keys@, old_order[a] as int, old_order[at - 1] as int));
                }
            }
        }
        order.insert(at, i);
        proof {
            assert forall|a: int, b: int| 0 <= a < b < order@.len() implies instant_before(
                keys@,
                #[trigger] order@[a] as int,
                #[trigger] order@[b] as int,
            ) by {
                if b < at {
                    assert(order@[a] == old_order[a] && order@[b] == old_order[b]);
                } else if b == at {
                    assert(order@[a] == old_order[a]);
                } else if a < at {
                    assert(order@[a] == old_order[a] && order@[b] == old_order[b - 1]);
                } else if a == at {
                    assert(order@[b] == old_order[b - 1]);
                } else {
                    assert(order@[a] == old_order[a - 1] && order@[b] == old_order[b - 1]);
                }
            }
            assert forall|a: int| 0 <= a < order@.len() implies (#[trigger] order@[a]) < i + 1 by {
                if a < at {
                    assert(order@[a] == old_order[a]);
                } else if a > at {
                    assert(order@[a] == old_order[a - 1]);
                }
            }
            assert forall|p: int| 0 <= p < i + 1 implies #[trigger] holds(order@, p) by {
                if p == i {
                    assert(order@[at as int] == p);
                } else {
                    assert(holds(old_order, p));
                    let a = choose|a: int| 0 <= a < old_order.len() && old_order[a] == p;
                    if a < at {
                        assert(order@[a] == p);
                    } else {
                        assert(order@[a + 1] == p);
                    }
                }
            }
        }
        i += 1;
    }
    order
}

} // verus!
