use vstd::prelude::*;
use vstd::string::StringExecFns;

verus! {

/// The number of cells in a core's usage bar.
pub const BAR_WIDTH: usize = 10;

/// `n` copies of `c`.
pub open spec fn repeated(c: char, n: nat) -> Seq<char> {
    Seq::new(n, |_i: int| c)
}

/// The usage bar of a core: `filled` full cells, then empty cells up to
/// `BAR_WIDTH`.
pub fn usage_bar(filled: usize) -> (res: String)
    requires
        filled <= BAR_WIDTH,
    ensures
        res@ == repeated('█', filled as nat) + repeated('░', (BAR_WIDTH - filled) as nat),
{
    let mut bar = String::new();
    let mut i: usize = 0;
    while i < filled
        invariant
            i <= filled <= BAR_WIDTH,
            bar@ == repeated('█', i as nat),
        decreases filled - i,
    {
        proof {
            reveal_strlit("█");
        }
        bar.append("█");
        assert(bar@ =~= repeated('█', (i + 1) as nat));
        i = i + 1;
    }
    while i < BAR_WIDTH
        invariant
            filled <= i <= BAR_WIDTH,
            bar@ == repeated('█', filled as nat) + repeated('░', (i - filled) as nat),
        decreases BAR_WIDTH - i,
    {
        proof {
            reveal_strlit("░");
        }
        bar.append("░");
        assert(bar@ =~= repeated('█', filled as nat) + repeated('░', (i + 1 - filled) as nat));
        i = i + 1;
    }
    bar
}

} // verus!
