use vstd::prelude::*;

verus! {

/// The sum of `s`.
pub open spec fn total(s: Seq<u64>) -> int
    decreases s.len(),
{
    if s.len() == 0 {
        0
    } else {
        total(s.drop_last()) + s.last()
    }
}

/// A sum of non-negative numbers does not shrink as numbers are added.
proof fn lemma_total_prefix_monotone(s: Seq<u64>, i: int)
    requires
        0 <= i <= s.len(),
    ensures
        total(s.take(i)) <= total(s),
    decreases s.len() - i,
{
    if i < s.len() {
        lemma_total_prefix_monotone(s, i + 1);
        assert(s.take(i + 1).drop_last() =~= s.take(i));
    } else {
        assert(s.take(i) =~= s);
    }
}

/// The bytes moved by all network interfaces together since the last
/// refresh, given each interface's count; `None` when the total does not fit
/// in 64 bits.
pub fn total_traffic(per_interface: &Vec<u64>) -> (res: Option<u64>)
    ensures
        res is Some <==> total(per_interface@) <= u64::MAX,
        res matches Some(t) ==> t == total(per_interface@),
{
    let mut sum: u64 = 0;
    let mut i: usize = 0;
    while i < per_interface.len()
        invariant
            i <= per_interface.len(),
            sum == total(per_interface@.take(i as int)),
        decreases per_interface.len() - i,
    {
        assert(per_interface@.take(i + 1).drop_last() =~= per_interface@.take(i as int));
        match sum.checked_add(per_interface[i]) {
            Some(next) => {
                sum = next;
            },
            None => {
                proof {
                    lemma_total_prefix_monotone(per_interface@, i + 1);
                }
                return None;
            },
        }
        i = i + 1;
    }
    assert(per_interface@.take(i as int) =~= per_interface@);
    Some(sum)
}

/// The total counts every number once: nothing for no numbers, and adding a
/// number at the end adds exactly that number; so does adding it at the front.
pub proof fn law_total_counts_every_number(s: Seq<u64>, x: u64)
    ensures
        total(Seq::<u64>::empty()) == 0,
        total(s.push(x)) == total(s) + x,
        total(seq![x] + s) == x + total(s),
    decreases s.len(),
{
    assert(s.push(x).drop_last() =~= s);
    if s.len() > 0 {
        law_total_counts_every_number(s.drop_last(), x);
        assert((seq![x] + s).drop_last() =~= seq![x] + s.drop_last());
        assert((seq![x] + s).last() == s.last());
    } else {
        assert(seq![x] + s =~= Seq::<u64>::empty().push(x));
        assert(Seq::<u64>::empty().push(x).drop_last() =~= Seq::<u64>::empty());
    }
}

} // verus!
