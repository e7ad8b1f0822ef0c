//! Where activated worldbook entries go among the chat messages: each entry is
//! inserted as a system message `depth` messages from the end (at the start when its
//! depth is 0 or reaches past the first message), entries at the same place in
//! activation order (lower `order` first, ties in the order they were activated).

use vstd::prelude::*;

verus! {

/// An activated entry, as far as placing it goes.
#[derive(Debug, Clone, Copy, PartialEq, Eq, Structural)]
pub struct Activation {
    pub order: i64,
    pub depth: usize,
}

/// One place in the assembled list: an original message or an activated entry, each
/// by its index.
#[derive(Debug, Clone, Copy, PartialEq, Eq, Structural)]
pub enum Slot {
    Message(usize),
    Entry(usize),
}

/// The index among `len` messages before which an entry of `depth` goes.
pub open spec fn insert_pos(depth: usize, len: nat) -> nat {
    if depth == 0 || depth >= len {
        0
    } else {
        (len - depth) as nat
    }
}

/// Entry `j` is activated before entry `k`: lower order, or the same order and
/// earlier in the list.
pub open spec fn act_before(e: Seq<Activation>, j: int, k: int) -> bool {
    e[j].order < e[k].order || (e[j].order == e[k].order && j < k)
}

/// `perm` lists every entry index once, in activation order.
pub open spec fn is_activation_order(e: Seq<Activation>, perm: Seq<usize>) -> bool {
    &&& perm.len() == e.len()
    &&& forall|i: int| 0 <= i < perm.len() ==> #[trigger] perm[i] < e.len()
    &&& forall|j: int| 0 <= j < e.len() ==> #[trigger] perm.contains(j as usize)
    &&& forall|a: int, b: int| 0 <= a < b < perm.len() ==> act_before(e, #[trigger] perm[a] as int, #[trigger] perm[b] as int)
}

/// The entries of `order` (a prefix of an activation order) that go before message
/// `p` of `len`, in that order.
pub open spec fn group(e: Seq<Activation>, order: Seq<usize>, len: nat, p: nat) -> Seq<Slot>
    decreases order.len(),
{
    if order.len() == 0 {
        Seq::empty()
    } else {
        let j = order.last();
        group(e, order.drop_last(), len, p) + if insert_pos(e[j as int].depth, len) == p {
            seq![Slot::Entry(j)]
        } else {
            Seq::empty()
        }
    }
}

/// The assembled list up to (not including) place `p`: for each message index below
/// `p`, the entries that go before it, then the message itself.
pub open spec fn layout_upto(e: Seq<Activation>, perm: Seq<usize>, len: nat, p: nat) -> Seq<Slot>
    decreases p,
{
    if p == 0 {
        Seq::empty()
    } else {
        let q = (p - 1) as nat;
        layout_upto(e, perm, len, q) + group(e, perm, len, q) + if q < len {
            seq![Slot::Message(q as usize)]
        } else {
            Seq::empty()
        }
    }
}

/// The whole assembled list (with no messages, all entries go at place 0).
pub open spec fn layout(e: Seq<Activation>, perm: Seq<usize>, len: nat) -> Seq<Slot> {
    layout_upto(e, perm, len, if len == 0 { 1 } else { len })
}

proof fn lemma_order_unique_step(e: Seq<Activation>, p1: Seq<usize>, p2: Seq<usize>, i: int)
    requires
        is_activation_order(e, p1),
        is_activation_order(e, p2),
        0 <= i < p1.len(),
        forall|k: int| 0 <= k < i ==> p1[k] == p2[k],
    ensures
        p1[i] == p2[i],
{
    let a = p1[i];
    let b = p2[i];
    if a != b {
        assert(p1.contains((b as int) as usize));
        let k = choose|k: int| 0 <= k < p1.len() && p1[k] == b;
        if k < i {
            assert(p2[k] == b);
            assert(act_before(e, p2[k] as int, p2[i] as int));
        }
        assert(k > i);
        assert(act_before(e, a as int, b as int));
        assert(p2.contains((a as int) as usize));
        let k2 = choose|k2: int| 0 <= k2 < p2.len() && p2[k2] == a;
        if k2 < i {
            assert(p1[k2] == a);
            assert(act_before(e, p1[k2] as int, p1[i] as int));
        }
        assert(k2 > i);
        assert(act_before(e, b as int, a as int));
    }
}

/// There is only one activation order.
pub proof fn lemma_activation_order_unique(e: Seq<Activation>, p1: Seq<usize>, p2: Seq<usize>)
    requires
        is_activation_order(e, p1),
        is_activation_order(e, p2),
    ensures
        p1 == p2,
{
    assert forall|i: int| 0 <= i < p1.len() implies p1[i] == p2[i] by {
        lemma_prefix_equal(e, p1, p2, i);
    }
    assert(p1 =~= p2);
}

proof fn lemma_prefix_equal(e: Seq<Activation>, p1: Seq<usize>, p2: Seq<usize>, i: int)
    requires
        is_activation_order(e, p1),
        is_activation_order(e, p2),
        0 <= i < p1.len(),
    ensures
        forall|k: int| 0 <= k <= i ==> p1[k] == p2[k],
    decreases i,
{
    if i > 0 {
        lemma_prefix_equal(e, p1, p2, i - 1);
    }
    lemma_order_unique_step(e, p1, p2, i);
}

/// The entry indices in activation order.
pub fn activation_order(e: &Vec<Activation>) -> (perm: Vec<usize>)
    ensures
        is_activation_order(e@, perm@),
{
    let mut perm: Vec<usize> = Vec::new();
    let mut j: usize = 0;
    while j < e.len()
        invariant
            j <= e.len(),
            perm@.len() == j,
            forall|i: int| 0 <= i < perm@.len() ==> #[trigger] perm@[i] < j,
            forall|k: int| 0 <= k < j ==> #[trigger] perm@.contains(k as usize),
            forall|a: int, b: int| 0 <= a < b < perm@.len() ==> act_before(e@, #[trigger] perm@[a] as int, #[trigger] perm@[b] as int),
        decreases e.len() - j,
    {
        let oj = e[j].order;
        let mut q: usize = 0;
        while q < perm.len() && e[perm[q]].order <= oj
            invariant
                q <= perm@.len(),
                perm@.len() == j,
                j < e@.len(),
                oj == e@[j as int].order,
                forall|i: int| 0 <= i < perm@.len() ==> #[trigger] perm@[i] < j,
                forall|i: int| 0 <= i < q ==> e@[#[trigger] perm@[i] as int].order <= oj,
            decreases perm@.len() - q,
        {
            q = q + 1;
        }
        let ghost old_perm = perm@;
        proof {
            // everything from q on is activated after j
            assert forall|i: int| q <= i < old_perm.len() implies e@[#[trigger] old_perm[i] as int].order > oj by {
                if i > q {
                    assert(act_before(e@, old_perm[q as int] as int, old_perm[i] as int));
                }
            }
        }
        perm.insert(q, j);
        proof {
            assert forall|a: int, b: int| 0 <= a < b < perm@.len() implies act_before(e@, #[trigger] perm@[a] as int, #[trigger] perm@[b] as int) by {
                if b < q {
                    assert(perm@[a] == old_perm[a] && perm@[b] == old_perm[b]);
                } else if b == q {
                    assert(perm@[a] == old_perm[a]);
                } else if a < q {
                    assert(perm@[a] == old_perm[a] && perm@[b] == old_perm[b - 1]);
                } else if a == q {
                    assert(perm@[b] == old_perm[b - 1]);
                } else {
                    assert(perm@[a] == old_perm[a - 1] && perm@[b] == old_perm[b - 1]);
                }
            }
            assert forall|k: int| 0 <= k < j + 1 implies #[trigger] perm@.contains(k as usize) by {
                if k == j {
                    assert(perm@[q as int] == j);
                } else {
                    assert(old_perm.contains(k as usize));
                    let i = choose|i: int| 0 <= i < old_perm.len() && old_perm[i] == k as usize;
                    if i < q {
                        assert(perm@[i] == k as usize);
                    } else {
                        assert(perm@[i + 1] == k as usize);
                    }
                }
            }
            assert forall|i: int| 0 <= i < perm@.len() implies #[trigger] perm@[i] < j + 1 by {
                if i < q {
                    assert(perm@[i] == old_perm[i]);
                } else if i > q {
                    assert(perm@[i] == old_perm[i - 1]);
                }
            }
        }
        j = j + 1;
    }
    perm
}

/// The assembled list: the places of the `len` messages and of the activated entries
/// `e` among them.
pub fn injection_layout(len: usize, e: &Vec<Activation>) -> (out: Vec<Slot>)
    ensures
        forall|perm: Seq<usize>| is_activation_order(e@, perm) ==> out@ == layout(e@, perm, len as nat),
{
    let perm = activation_order(e);
    let places: usize = if len == 0 { 1 } else { len };
    let mut out: Vec<Slot> = Vec::new();
    let mut p: usize = 0;
    while p < places
        invariant
            p <= places,
            places == (if len == 0 { 1 } else { len }),
            is_activation_order(e@, perm@),
            out@ == layout_upto(e@, perm@, len as nat, p as nat),
        decreases places - p,
    {
        let mut i: usize = 0;
        while i < perm.len()
            invariant
                i <= perm@.len(),
                p < places,
                is_activation_order(e@, perm@),
                out@ == layout_upto(e@, perm@, len as nat, p as nat) + group(e@, perm@.take(i as int), len as nat, p as nat),
            decreases perm@.len() - i,
        {
            let j = perm[i];
            let d = e[j].depth;
            let pos: usize = if d == 0 || d >= len { 0 } else { len - d };
            proof {
                assert(perm@.take(i + 1).drop_last() =~= perm@.take(i as int));
            }
            if pos == p {
                out.push(Slot::Entry(j));
            }
            assert(out@ =~= layout_upto(e@, perm@, len as nat, p as nat) + group(e@, perm@.take(i + 1), len as nat, p as nat));
            i = i + 1;
        }
        assert(perm@.take(perm@.len() as int) =~= perm@);
        if p < len {
            out.push(Slot::Message(p));
        }
        assert(out@ =~= layout_upto(e@, perm@, len as nat, (p + 1) as nat));
        p = p + 1;
    }
    proof {
        assert forall|p2: Seq<usize>| is_activation_order(e@, p2) implies out@ == layout(e@, p2, len as nat) by {
            lemma_activation_order_unique(e@, perm@, p2);
        }
    }
    out
}

} // verus!

verus! {

/// The number of original messages in a stretch of the assembled list.
pub open spec fn count_messages(s: Seq<Slot>) -> nat
    decreases s.len(),
{
    if s.len() == 0 {
        0
    } else {
        count_messages(s.drop_last()) + if s.last() is Message { 1nat } else { 0nat }
    }
}

proof fn lemma_count_concat(a: Seq<Slot>, b: Seq<Slot>)
    ensures
        count_messages(a + b) == count_messages(a) + count_messages(b),
    decreases b.len(),
{
    if b.len() > 0 {
        assert((a + b).drop_last() =~= a + b.drop_last());
        lemma_count_concat(a, b.drop_last());
    } else {
        assert(a + b =~= a);
    }
}

proof fn lemma_group_has_no_messages(e: Seq<Activation>, order: Seq<usize>, len: nat, p: nat)
    ensures
        count_messages(group(e, order, len, p)) == 0,
        forall|i: int| 0 <= i < group(e, order, len, p).len() ==> #[trigger] group(e, order, len, p)[i] is Entry,
    decreases order.len(),
{
    if order.len() > 0 {
        let j = order.last();
        let tail = if insert_pos(e[j as int].depth, len) == p { seq![Slot::Entry(j)] } else { Seq::<Slot>::empty() };
        lemma_group_has_no_messages(e, order.drop_last(), len, p);
        lemma_count_concat(group(e, order.drop_last(), len, p), tail);
        reveal_with_fuel(count_messages, 2);
    }
}

proof fn lemma_group_contains(e: Seq<Activation>, order: Seq<usize>, len: nat, j: usize)
    requires
        order.contains(j),
    ensures
        group(e, order, len, insert_pos(e[j as int].depth, len)).contains(Slot::Entry(j)),
    decreases order.len(),
{
    let p = insert_pos(e[j as int].depth, len);
    let last = order.last();
    let tail = if insert_pos(e[last as int].depth, len) == p { seq![Slot::Entry(last)] } else { Seq::<Slot>::empty() };
    let g = group(e, order, len, p);
    if last == j {
        assert(g[g.len() - 1] == Slot::Entry(j));
    } else {
        let i = choose|i: int| 0 <= i < order.len() && order[i] == j;
        assert(order.drop_last()[i] == j);
        lemma_group_contains(e, order.drop_last(), len, j);
        let g0 = group(e, order.drop_last(), len, p);
        let k = choose|k: int| 0 <= k < g0.len() && g0[k] == Slot::Entry(j);
        assert(g[k] == Slot::Entry(j));
    }
}

proof fn lemma_layout_prefix(e: Seq<Activation>, perm: Seq<usize>, len: nat, q: nat, big: nat)
    requires
        q <= big,
    ensures
        layout_upto(e, perm, len, big).len() >= layout_upto(e, perm, len, q).len(),
        layout_upto(e, perm, len, big) =~= layout_upto(e, perm, len, q) + layout_upto(e, perm, len, big).skip(layout_upto(e, perm, len, q).len() as int),
        count_messages(layout_upto(e, perm, len, big)) == (if big < len { big } else { len }),
    decreases big,
{
    if big > 0 {
        let b1 = (big - 1) as nat;
        if q < big {
            lemma_layout_prefix(e, perm, len, q, b1);
        } else {
            lemma_layout_prefix(e, perm, len, b1, b1);
        }
        let m = if b1 < len { seq![Slot::Message(b1 as usize)] } else { Seq::<Slot>::empty() };
        lemma_group_has_no_messages(e, perm, len, b1);
        lemma_count_concat(layout_upto(e, perm, len, b1), group(e, perm, len, b1));
        lemma_count_concat(layout_upto(e, perm, len, b1) + group(e, perm, len, b1), m);
        reveal_with_fuel(count_messages, 2);
    }
}

/// Each activated entry appears in the assembled list, and exactly `depth` original
/// messages follow it when `0 < depth < len`; otherwise it comes before every message.
pub proof fn law_entry_lands_at_depth(e: Seq<Activation>, perm: Seq<usize>, len: nat, j: int)
    requires
        is_activation_order(e, perm),
        e.len() <= usize::MAX,
        0 <= j < e.len(),
    ensures
        exists|k: int| #![trigger layout(e, perm, len)[k]]
            0 <= k < layout(e, perm, len).len()
            && layout(e, perm, len)[k] == Slot::Entry(j as usize)
            && count_messages(layout(e, perm, len).skip(k + 1)) == (if 0 < e[j].depth < len {
                e[j].depth as nat
            } else {
                len
            }),
{
    let ju = j as usize;
    let places: nat = if len == 0 { 1 } else { len };
    let q = insert_pos(e[j].depth, len);
    assert(perm.contains((j as int) as usize));
    lemma_group_contains(e, perm, len, ju);
    let a = layout_upto(e, perm, len, q);
    let g = group(e, perm, len, q);
    let m = if q < len { seq![Slot::Message(q as usize)] } else { Seq::<Slot>::empty() };
    let whole = layout(e, perm, len);
    lemma_layout_prefix(e, perm, len, q + 1, places);
    lemma_layout_prefix(e, perm, len, q + 1, q + 1);
    let x = whole.skip(layout_upto(e, perm, len, q + 1).len() as int);
    assert(layout_upto(e, perm, len, q + 1) == a + g + m);
    let gi = choose|gi: int| 0 <= gi < g.len() && g[gi] == Slot::Entry(ju);
    let k = a.len() + gi;
    assert(whole =~= a + g + m + x);
    assert((a + g)[k] == g[gi]);
    assert((a + g + m)[k] == (a + g)[k]);
    assert((a + g + m + x)[k] == (a + g + m)[k]);
    assert(whole[k] == Slot::Entry(ju));
    assert forall|i: int| 0 <= i < whole.skip(k + 1).len() implies #[trigger] whole.skip(k + 1)[i] == (g.skip(gi + 1) + m + x)[i] by {
        let t = k + 1 + i;
        if t < a.len() + g.len() {
            assert((a + g)[t] == g[t - a.len()]);
            assert((a + g + m)[t] == (a + g)[t]);
        } else if t < a.len() + g.len() + m.len() {
            assert((a + g + m)[t] == m[t - a.len() - g.len()]);
        }
    }
    assert(whole.skip(k + 1) =~= g.skip(gi + 1) + m + x);
    lemma_group_has_no_messages(e, perm, len, q);
    assert(count_messages(g.skip(gi + 1)) == 0) by {
        lemma_count_concat(g.take(gi + 1), g.skip(gi + 1));
        assert(g =~= g.take(gi + 1) + g.skip(gi + 1));
        lemma_count_concat(layout_upto(e, perm, len, q) , g.take(gi + 1));
    }
    lemma_count_concat(g.skip(gi + 1), m);
    lemma_count_concat(g.skip(gi + 1) + m, x);
    lemma_count_concat(a + g + m, x);
    reveal_with_fuel(count_messages, 2);
    assert(count_messages(m) == (if q < len { 1nat } else { 0nat }));
}


/// Total number of entries going before the first `p` places.
pub open spec fn groups_len(e: Seq<Activation>, order: Seq<usize>, len: nat, p: nat) -> nat
    decreases p,
{
    if p == 0 {
        0
    } else {
        groups_len(e, order, len, (p - 1) as nat) + group(e, order, len, (p - 1) as nat).len()
    }
}

/// Number of entries of `order` placed before place `p`.
pub open spec fn placed_below(e: Seq<Activation>, order: Seq<usize>, len: nat, p: nat) -> nat
    decreases order.len(),
{
    if order.len() == 0 {
        0
    } else {
        placed_below(e, order.drop_last(), len, p) + if insert_pos(e[order.last() as int].depth, len) < p {
            1nat
        } else {
            0nat
        }
    }
}

proof fn lemma_groups_len_split(e: Seq<Activation>, order: Seq<usize>, len: nat, p: nat)
    requires
        order.len() > 0,
    ensures
        groups_len(e, order, len, p) == groups_len(e, order.drop_last(), len, p) + if insert_pos(
            e[order.last() as int].depth,
            len,
        ) < p {
            1nat
        } else {
            0nat
        },
    decreases p,
{
    if p > 0 {
        lemma_groups_len_split(e, order, len, (p - 1) as nat);
    }
}

proof fn lemma_groups_len_counts(e: Seq<Activation>, order: Seq<usize>, len: nat, p: nat)
    ensures
        groups_len(e, order, len, p) == placed_below(e, order, len, p),
    decreases order.len(),
{
    if order.len() == 0 {
        lemma_groups_len_empty(e, order, len, p);
    } else {
        lemma_groups_len_split(e, order, len, p);
        lemma_groups_len_counts(e, order.drop_last(), len, p);
    }
}

proof fn lemma_groups_len_empty(e: Seq<Activation>, order: Seq<usize>, len: nat, p: nat)
    requires
        order.len() == 0,
    ensures
        groups_len(e, order, len, p) == 0,
    decreases p,
{
    if p > 0 {
        lemma_groups_len_empty(e, order, len, (p - 1) as nat);
    }
}

proof fn lemma_all_placed_below(e: Seq<Activation>, order: Seq<usize>, len: nat, p: nat)
    requires
        forall|i: int| 0 <= i < order.len() ==> insert_pos(e[#[trigger] order[i] as int].depth, len) < p,
    ensures
        placed_below(e, order, len, p) == order.len(),
    decreases order.len(),
{
    if order.len() > 0 {
        let d = order.drop_last();
        assert forall|i: int| 0 <= i < d.len() implies insert_pos(e[#[trigger] d[i] as int].depth, len) < p by {
            assert(d[i] == order[i]);
        }
        lemma_all_placed_below(e, d, len, p);
        assert(order.last() == order[order.len() - 1]);
    }
}

proof fn lemma_layout_upto_len(e: Seq<Activation>, perm: Seq<usize>, len: nat, p: nat)
    ensures
        layout_upto(e, perm, len, p).len() == groups_len(e, perm, len, p) + (if p < len { p } else { len }),
    decreases p,
{
    if p > 0 {
        lemma_layout_upto_len(e, perm, len, (p - 1) as nat);
    }
}

/// Nothing is lost or added: the assembled list holds every message and every
/// activated entry, once each.
pub proof fn law_layout_length(e: Seq<Activation>, perm: Seq<usize>, len: nat)
    requires
        is_activation_order(e, perm),
    ensures
        layout(e, perm, len).len() == len + e.len(),
        count_messages(layout(e, perm, len)) == len,
{
    let places: nat = if len == 0 { 1 } else { len };
    assert forall|i: int| 0 <= i < perm.len() implies insert_pos(e[#[trigger] perm[i] as int].depth, len) < places by {
    }
    lemma_all_placed_below(e, perm, len, places);
    lemma_groups_len_counts(e, perm, len, places);
    lemma_layout_upto_len(e, perm, len, places);
    lemma_layout_prefix(e, perm, len, places, places);
}


/// The indices of the original messages in `s`, in the order they appear.
pub open spec fn message_ids(s: Seq<Slot>) -> Seq<usize>
    decreases s.len(),
{
    if s.len() == 0 {
        Seq::empty()
    } else {
        message_ids(s.drop_last()) + match s.last() {
            Slot::Message(m) => seq![m],
            Slot::Entry(_) => Seq::<usize>::empty(),
        }
    }
}

proof fn lemma_message_ids_concat(a: Seq<Slot>, b: Seq<Slot>)
    ensures
        message_ids(a + b) == message_ids(a) + message_ids(b),
    decreases b.len(),
{
    if b.len() > 0 {
        assert((a + b).drop_last() =~= a + b.drop_last());
        lemma_message_ids_concat(a, b.drop_last());
        assert(message_ids(a + b) =~= message_ids(a) + message_ids(b));
    } else {
        assert(a + b =~= a);
        assert(message_ids(a) + message_ids(b) =~= message_ids(a));
    }
}

proof fn lemma_group_message_ids(e: Seq<Activation>, order: Seq<usize>, len: nat, p: nat)
    ensures
        message_ids(group(e, order, len, p)) == Seq::<usize>::empty(),
    decreases order.len(),
{
    if order.len() > 0 {
        let j = order.last();
        let tail = if insert_pos(e[j as int].depth, len) == p { seq![Slot::Entry(j)] } else { Seq::<Slot>::empty() };
        lemma_group_message_ids(e, order.drop_last(), len, p);
        lemma_message_ids_concat(group(e, order.drop_last(), len, p), tail);
        if insert_pos(e[j as int].depth, len) == p {
            assert(tail.drop_last() =~= Seq::<Slot>::empty());
            assert(message_ids(Seq::<Slot>::empty()) == Seq::<usize>::empty());
            assert(tail.last() == Slot::Entry(j));
            assert(message_ids(tail) =~= Seq::<usize>::empty());
        }
    }
}

proof fn lemma_layout_message_ids(e: Seq<Activation>, perm: Seq<usize>, len: nat, p: nat)
    ensures
        message_ids(layout_upto(e, perm, len, p)) == Seq::new(
            if p < len { p } else { len },
            |i: int| i as usize,
        ),
    decreases p,
{
    if p == 0 {
        assert(message_ids(layout_upto(e, perm, len, 0)) =~= Seq::new(0, |i: int| i as usize));
    } else {
        let q = (p - 1) as nat;
        lemma_layout_message_ids(e, perm, len, q);
        let a = layout_upto(e, perm, len, q);
        let g = group(e, perm, len, q);
        let m = if q < len { seq![Slot::Message(q as usize)] } else { Seq::<Slot>::empty() };
        lemma_message_ids_concat(a, g);
        lemma_message_ids_concat(a + g, m);
        lemma_group_message_ids(e, perm, len, q);
        if q < len {
            assert(m.drop_last() =~= Seq::<Slot>::empty());
            assert(message_ids(Seq::<Slot>::empty()) == Seq::<usize>::empty());
            assert(m.last() == Slot::Message(q as usize));
            assert(message_ids(m) =~= seq![q as usize]);
            assert(message_ids(a) + Seq::<usize>::empty() + seq![q as usize] =~= Seq::new(
                p,
                |i: int| i as usize,
            ));
        } else {
            assert(message_ids(m) =~= Seq::<usize>::empty());
            assert(message_ids(a) + Seq::<usize>::empty() + Seq::<usize>::empty() =~= Seq::new(
                len,
                |i: int| i as usize,
            ));
        }
    }
}

/// The original messages keep their order: read without the entries, the assembled
/// list is the messages `0, 1, ..., len - 1`.
pub proof fn law_messages_keep_order(e: Seq<Activation>, perm: Seq<usize>, len: nat)
    ensures
        message_ids(layout(e, perm, len)) == Seq::new(len, |i: int| i as usize),
{
    let places: nat = if len == 0 { 1 } else { len };
    lemma_layout_message_ids(e, perm, len, places);
}

} // verus!
