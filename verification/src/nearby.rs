//! The hint that goes with a Bitcoin height at which no tenure started.

use crate::chain::{BlockSnapshot, Lookup};
use crate::text::{decimal, decimal_text, joined};
use vstd::prelude::*;

verus! {

/// How far below and above a rejected height the hint looks.
pub const SEARCH_RADIUS: u64 = 10;

/// The lowest height that the hint for `start_height` looks at.
pub open spec fn search_start(start_height: u64) -> u64 {
    if start_height < SEARCH_RADIUS {
        0
    } else {
        (start_height - SEARCH_RADIUS) as u64
    }
}

/// The highest height that the hint for `start_height` looks at.
pub open spec fn search_end(start_height: u64) -> u64 {
    if start_height + SEARCH_RADIUS > u64::MAX {
        u64::MAX
    } else {
        (start_height + SEARCH_RADIUS) as u64
    }
}

/// Whether a tenure other than at `start_height` itself started at `height`,
/// within the search. `found` holds what the search met, from its lowest height
/// up; a height that could not be read does not count.
pub open spec fn is_nearby_start(
    start_height: u64,
    found: Seq<Lookup<BlockSnapshot>>,
    height: u64,
) -> bool {
    let i = height - search_start(start_height);
    &&& height != start_height
    &&& height <= search_end(start_height)
    &&& 0 <= i < found.len()
    &&& found[i] matches Ok(Some(snapshot))
    &&& snapshot.sortition
}

/// The heights of the search, from the lowest up.
pub open spec fn searched_heights(start_height: u64) -> Seq<u64> {
    Seq::new(
        (search_end(start_height) - search_start(start_height) + 1) as nat,
        |i: int| (search_start(start_height) + i) as u64,
    )
}

/// The heights near `start_height` at which another tenure started, from the
/// lowest up.
pub open spec fn nearby_starts(start_height: u64, found: Seq<Lookup<BlockSnapshot>>) -> Seq<u64> {
    searched_heights(start_height).filter(|h: u64| is_nearby_start(start_height, found, h))
}

/// The message for a `start_height` at which no tenure started.
pub open spec fn no_tenure_start_text(
    start_height: u64,
    found: Seq<Lookup<BlockSnapshot>>,
) -> Seq<char> {
    let starts = nearby_starts(start_height, found);
    let hint = if starts.len() == 0 {
        Seq::empty()
    } else {
        "\n  Nearby tenure starts: "@ + joined(
            starts.map_values(|h: u64| decimal_text(h as nat)),
            ", "@,
        )
    };
    "Bitcoin height "@ + decimal_text(start_height as nat)
        + " did not start a Nakamoto tenure (sortition=false)."@ + hint
}

/// The lowest and the highest Bitcoin height that the hint looks at: ten below
/// and ten above `start_height`, as far as there are such heights.
pub fn nearby_search_range(start_height: u64) -> (range: (u64, u64))
    ensures
        range.0 == search_start(start_height),
        range.1 == search_end(start_height),
{
    (start_height.saturating_sub(SEARCH_RADIUS), start_height.saturating_add(SEARCH_RADIUS))
}

/// Collects the heights near `start_height` at which another tenure started.
fn nearby_tenure_starts(start_height: u64, found: &Vec<Lookup<BlockSnapshot>>) -> (starts: Vec<u64>)
    ensures
        starts@ == nearby_starts(start_height, found@),
{
    let ghost picks = |h: u64| is_nearby_start(start_height, found@, h);
    let ghost heights = searched_heights(start_height);
    let (from, to) = nearby_search_range(start_height);
    let count: u64 = to - from + 1;
    let mut starts: Vec<u64> = Vec::new();
    let mut i: u64 = 0;
    while i < count
        invariant
            from == search_start(start_height),
            to == search_end(start_height),
            count == to - from + 1,
            heights == searched_heights(start_height),
            picks == (|h: u64| is_nearby_start(start_height, found@, h)),
            count <= 2 * SEARCH_RADIUS + 1,
            i <= count,
            starts@ == heights.take(i as int).filter(picks),
        decreases count - i,
    {
        let height: u64 = from + i;
        let at: usize = i as usize;
        let is_start = if height == start_height || at >= found.len() {
            false
        } else {
            match &found[at] {
                Ok(Some(snapshot)) => snapshot.sortition,
                _ => false,
            }
        };
        proof {
            let seen = heights.take(i as int);
            assert(heights.take(i + 1) =~= seen.push(height));
            assert(seen.push(height).drop_last() =~= seen);
            reveal_with_fuel(Seq::filter, 2);
        }
        if is_start {
            starts.push(height);
        }
        i = i + 1;
    }
    proof {
        assert(heights.take(i as int) =~= heights);
    }
    starts
}

/// Writes `heights` in decimal, separated by commas.
fn comma_separated(heights: &Vec<u64>) -> (s: String)
    ensures
        s@ == joined(heights@.map_values(|h: u64| decimal_text(h as nat)), ", "@),
{
    let ghost render = |h: u64| decimal_text(h as nat);
    let ghost texts = heights@.map_values(render);
    let mut s = String::new();
    let mut i: usize = 0;
    while i < heights.len()
        invariant
            i <= heights@.len(),
            render == (|h: u64| decimal_text(h as nat)),
            texts == heights@.map_values(render),
            s@ == joined(texts.take(i as int), ", "@),
        decreases heights@.len() - i,
    {
        let height: u64 = heights[i];
        if i > 0 {
            s.append(", ");
        }
        s.append(decimal(height).as_str());
        proof {
            assert(texts.take(i + 1).drop_last() =~= texts.take(i as int));
            assert(texts.take(i + 1).last() == decimal_text(height as nat));
            assert(s@ =~= joined(texts.take(i + 1), ", "@));
        }
        i = i + 1;
    }
    proof {
        assert(texts.take(i as int) =~= texts);
    }
    s
}

/// Builds the message for a Bitcoin height that did not start a Nakamoto
/// tenure, listing the tenure starts nearby. `found` holds the canonical
/// sortitions at the heights of [`nearby_search_range`], from the lowest up.
pub fn format_no_tenure_start_error(start_height: u64, found: &Vec<Lookup<BlockSnapshot>>) -> (s:
    String)
    ensures
        s@ == no_tenure_start_text(start_height, found@),
{
    let starts = nearby_tenure_starts(start_height, found);
    let hint = if starts.len() == 0 {
        String::new()
    } else {
        String::from_str("\n  Nearby tenure starts: ").concat(comma_separated(&starts).as_str())
    };
    String::from_str("Bitcoin height ").concat(decimal(start_height).as_str()).concat(
        " did not start a Nakamoto tenure (sortition=false).",
    ).concat(hint.as_str())
}

/// The hint lists each height within ten of the rejected one at which another
/// tenure started, and no other height. What was found is counted from the
/// lowest height of the search, which is ten below the rejected one, or zero.
pub proof fn hint_lists_the_nearby_starts(
    start_height: u64,
    found: Seq<Lookup<BlockSnapshot>>,
    height: u64,
)
    ensures
        search_start(start_height) == if start_height < 10 {
            0
        } else {
            start_height - 10
        },
        search_end(start_height) == if start_height > 0xffff_ffff_ffff_ffff - 10 {
            0xffff_ffff_ffff_ffff
        } else {
            start_height + 10
        },
        nearby_starts(start_height, found).contains(height) <==> {
            let i = height - (if start_height < 10 {
                0
            } else {
                start_height - 10
            });
            &&& height != start_height
            &&& start_height - 10 <= height <= start_height + 10
            &&& i < found.len()
            &&& found[i] matches Ok(Some(snapshot))
            &&& snapshot.sortition
        },
        nearby_starts(start_height, found).contains(height) <==> is_nearby_start(
            start_height,
            found,
            height,
        ),
{
    let picks = |h: u64| is_nearby_start(start_height, found, h);
    let heights = searched_heights(start_height);
    let starts = nearby_starts(start_height, found);
    if starts.contains(height) {
        let i = choose|i: int| 0 <= i < starts.len() && starts[i] == height;
        heights.lemma_filter_pred(picks, i);
    }
    if is_nearby_start(start_height, found, height) {
        let i = height - search_start(start_height);
        assert(heights[i] == height);
        heights.lemma_filter_contains(picks, i);
    }
}

/// The message is the same words around the rejected height, whatever that is;
/// where other tenures started nearby, further fixed words and the list of them
/// follow, and where none did, nothing follows.
pub proof fn refusal_quotes_the_height_and_the_hint() -> (words: (
    Seq<char>,
    Seq<char>,
    Seq<char>,
    Seq<char>,
))
    ensures
        forall|height: u64, found: Seq<Lookup<BlockSnapshot>>| #[trigger]
            no_tenure_start_text(height, found) == if nearby_starts(height, found).len() == 0 {
                words.0 + decimal_text(height as nat) + words.1
            } else {
                words.0 + decimal_text(height as nat) + words.1 + words.2 + joined(
                    nearby_starts(height, found).map_values(|h: u64| decimal_text(h as nat)),
                    words.3,
                )
            },
{
    let words = (
        "Bitcoin height "@,
        " did not start a Nakamoto tenure (sortition=false)."@,
        "\n  Nearby tenure starts: "@,
        ", "@,
    );
    assert forall|height: u64, found: Seq<Lookup<BlockSnapshot>>| #[trigger]
        no_tenure_start_text(height, found) == if nearby_starts(height, found).len() == 0 {
            words.0 + decimal_text(height as nat) + words.1
        } else {
            words.0 + decimal_text(height as nat) + words.1 + words.2 + joined(
                nearby_starts(height, found).map_values(|h: u64| decimal_text(h as nat)),
                words.3,
            )
        } by {
        let text = no_tenure_start_text(height, found);
        if nearby_starts(height, found).len() == 0 {
            assert(text =~= words.0 + decimal_text(height as nat) + words.1);
        } else {
            assert(text =~= words.0 + decimal_text(height as nat) + words.1 + words.2 + joined(
                nearby_starts(height, found).map_values(|h: u64| decimal_text(h as nat)),
                words.3,
            ));
        }
    }
    words
}

/// The hint lists the heights in rising order, each of them once.
pub proof fn hint_is_in_rising_order(start_height: u64, found: Seq<Lookup<BlockSnapshot>>)
    ensures
        forall|i: int, j: int|
            0 <= i < j < nearby_starts(start_height, found).len() ==> nearby_starts(
                start_height,
                found,
            )[i] < nearby_starts(start_height, found)[j],
{
    rising_stays_rising(
        searched_heights(start_height),
        |h: u64| is_nearby_start(start_height, found, h),
    );
}

proof fn rising_stays_rising(heights: Seq<u64>, picks: spec_fn(u64) -> bool)
    requires
        forall|i: int, j: int| 0 <= i < j < heights.len() ==> heights[i] < heights[j],
    ensures
        forall|i: int, j: int|
            0 <= i < j < heights.filter(picks).len() ==> heights.filter(picks)[i] < heights.filter(
                picks,
            )[j],
        forall|i: int|
            0 <= i < heights.filter(picks).len() ==> heights.contains(
                #[trigger] heights.filter(picks)[i],
            ),
    decreases heights.len(),
{
    reveal_with_fuel(Seq::filter, 1);
    if heights.len() > 0 {
        let before = heights.drop_last();
        rising_stays_rising(before, picks);
        let kept = before.filter(picks);
        assert forall|i: int| 0 <= i < kept.len() implies heights.contains(#[trigger] kept[i])
            && kept[i] < heights.last() by {
            assert(before.contains(kept[i]));
            let k = choose|k: int| 0 <= k < before.len() && before[k] == kept[i];
            assert(heights[k] == kept[i]);
        }
        assert(heights.contains(heights.last()));
    }
}

} // verus!
