//! What keyboard navigation can select: grids and the players in them.
use vstd::prelude::*;

verus! {

/// The places of one grid that can be selected: the grid itself unless it
/// holds exactly one player, then each of its players in order.
pub open spec fn grid_selectables(grid: u64, players: usize) -> Seq<(u64, Option<usize>)> {
    let each = Seq::new(players as nat, |i: int| (grid, Some(i as usize)));
    if players != 1 {
        seq![(grid, None::<usize>)] + each
    } else {
        each
    }
}

/// The places of all grids that can be selected, grid by grid.
pub open spec fn selectables_of(grids: Seq<(u64, usize)>) -> Seq<(u64, Option<usize>)>
    decreases grids.len(),
{
    if grids.len() == 0 {
        Seq::<(u64, Option<usize>)>::empty()
    } else {
        selectables_of(grids.drop_last()) + grid_selectables(grids.last().0, grids.last().1)
    }
}

/// The places that can be selected, given each grid (by its number) with
/// the number of players it holds; players are numbered from zero.
pub fn selectables(grids: &Vec<(u64, usize)>) -> (res: Vec<(u64, Option<usize>)>)
    ensures
        res@ == selectables_of(grids@),
{
    let mut out: Vec<(u64, Option<usize>)> = Vec::new();
    let mut i: usize = 0;
    while i < grids.len()
        invariant
            i <= grids.len(),
            out@ == selectables_of(grids@.subrange(0, i as int)),
        decreases grids.len() - i,
    {
        let (grid, players) = grids[i];
        let ghost before = out@;
        if players != 1 {
            out.push((grid, None));
        }
        let ghost start = out@;
        let mut p: usize = 0;
        while p < players
            invariant
                p <= players,
                out@ == start + Seq::new(p as nat, |k: int| (grid, Some(k as usize))),
            decreases players - p,
        {
            out.push((grid, Some(p)));
            assert(out@ =~= start + Seq::new((p + 1) as nat, |k: int| (grid, Some(k as usize))));
            p += 1;
        }
        let ghost next = grids@.subrange(0, i + 1);
        assert(next.drop_last() =~= grids@.subrange(0, i as int));
        assert(next.last() == (grid, players));
        assert(out@ =~= before + grid_selectables(grid, players));
        i += 1;
    }
    assert(grids@.subrange(0, grids.len() as int) =~= grids@);
    out
}

/// Every player of every grid can be selected, and so can every grid that
/// does not hold exactly one player.
pub proof fn law_selectables_reach_everything(grids: Seq<(u64, usize)>, k: int)
    requires
        0 <= k < grids.len(),
    ensures
        forall|p: int|
            0 <= p < grids[k].1 ==> #[trigger] selectables_of(grids).contains(
                (grids[k].0, Some(p as usize)),
            ),
        grids[k].1 != 1 ==> selectables_of(grids).contains((grids[k].0, None::<usize>)),
    decreases grids.len(),
{
    let rest = grids.drop_last();
    let (g, n) = grids.last();
    let before = selectables_of(rest);
    let mine = grid_selectables(g, n);
    assert(selectables_of(grids) == before + mine);
    if k < grids.len() - 1 {
        law_selectables_reach_everything(rest, k);
        assert(rest[k] == grids[k]);
        assert forall|p: int| 0 <= p < grids[k].1 implies #[trigger] selectables_of(grids).contains(
            (grids[k].0, Some(p as usize)),
        ) by {
            let x = (grids[k].0, Some(p as usize));
            assert(before.contains(x));
            let j = choose|j: int| 0 <= j < before.len() && before[j] == x;
            assert((before + mine)[j] == x);
        }
        if grids[k].1 != 1 {
            let x = (grids[k].0, None::<usize>);
            assert(before.contains(x));
            let j = choose|j: int| 0 <= j < before.len() && before[j] == x;
            assert((before + mine)[j] == x);
        }
    } else {
        let off: int = if n != 1 { 1 } else { 0 };
        assert forall|p: int| 0 <= p < grids[k].1 implies #[trigger] selectables_of(grids).contains(
            (grids[k].0, Some(p as usize)),
        ) by {
            assert(mine[off + p] == (g, Some(p as usize)));
            assert((before + mine)[before.len() + off + p] == (g, Some(p as usize)));
        }
        if n != 1 {
            assert(mine[0] == (g, None::<usize>));
            assert((before + mine)[before.len() as int] == (g, None::<usize>));
        }
    }
}

} // verus!
