//! Planning of column-width assignments: turning caller-supplied pairs of
//! column selector and width into the per-column assignments the workbook
//! engine applies, validating each width and expanding each selector.

use vstd::prelude::*;

use crate::codec::expand_column_selector;
use crate::codec::selector_columns;
use crate::codec::selector_error;
use crate::codec::selector_valid;
use crate::errors::AddressError;
use crate::validate::validate_width;
use crate::validate::width_bits_valid;

verus! {

/// Failure of width planning: either a selector or a width is bad.
#[derive(Clone, Copy, Debug, PartialEq, Eq, Structural)]
pub enum SelectorWidthError {
    /// A column selector failed to parse.
    Address(AddressError),
    /// A width is not a finite value in (0, 255].
    Width,
}

/// What planning returns for given pairs of selector and width: the pairs
/// are taken in order; a bad width is reported before its selector is
/// looked at; a valid pair contributes one assignment per column of its
/// expanded selector.
pub open spec fn width_plan(pairs: Seq<(Seq<char>, u64)>) -> Result<
    Seq<(Seq<char>, u64)>,
    SelectorWidthError,
>
    decreases pairs.len(),
{
    if pairs.len() == 0 {
        Ok(Seq::empty())
    } else {
        let p = pairs[0];
        if !width_bits_valid(p.1) {
            Err(SelectorWidthError::Width)
        } else if !selector_valid(p.0) {
            Err(SelectorWidthError::Address(selector_error(p.0)))
        } else {
            match width_plan(pairs.drop_first()) {
                Ok(rest) => Ok(selector_columns(p.0).map_values(|c: Seq<char>| (c, p.1)) + rest),
                Err(e) => Err(e),
            }
        }
    }
}

/// The view of caller-supplied pairs of selector text and width bits.
pub open spec fn pairs_view(pairs: Seq<(String, u64)>) -> Seq<(Seq<char>, u64)> {
    pairs.map_values(|p: (String, u64)| (p.0@, p.1))
}

/// Turns pairs of column selector and width (given as `f64::to_bits`
/// patterns) into the ordered list of single-column width assignments:
/// each width validated, each selector expanded. The first bad pair, in
/// order, decides the error.
pub fn plan_column_widths(pairs: &Vec<(String, u64)>) -> (r: Result<
    Vec<(String, u64)>,
    SelectorWidthError,
>)
    ensures
        match r {
            Ok(plan) => width_plan(pairs_view(pairs@)) == Ok::<_, SelectorWidthError>(
                pairs_view(plan@),
            ),
            Err(e) => width_plan(pairs_view(pairs@)) == Err::<Seq<(Seq<char>, u64)>, _>(e),
        },
{
    let ghost full = pairs_view(pairs@);
    let mut plan: Vec<(String, u64)> = Vec::new();
    let mut k: usize = 0;
    proof {
        assert(full.skip(0) =~= full);
    }
    while k < pairs.len()
        invariant
            full == pairs_view(pairs@),
            0 <= k <= pairs@.len(),
            match width_plan(full.skip(k as int)) {
                Ok(rest) => width_plan(full) == Ok::<_, SelectorWidthError>(
                    pairs_view(plan@) + rest,
                ),
                Err(e) => width_plan(full) == Err::<Seq<(Seq<char>, u64)>, _>(e),
            },
        decreases pairs@.len() - k,
    {
        proof {
            assert(full[k as int] == (pairs@[k as int].0@, pairs@[k as int].1));
            assert(full.skip(k as int)[0] == full[k as int]);
            assert(full.skip(k as int).drop_first() =~= full.skip(k + 1));
        }
        let width = pairs[k].1;
        if let Err(_) = validate_width(width) {
            return Err(SelectorWidthError::Width);
        }
        let cols = match expand_column_selector(pairs[k].0.as_str()) {
            Ok(cols) => cols,
            Err(e) => {
                return Err(SelectorWidthError::Address(e));
            },
        };
        let ghost seen = selector_columns(full[k as int].0).map_values(
            |c: Seq<char>| (c, full[k as int].1),
        );
        let ghost plan_before = pairs_view(plan@);
        let mut j: usize = 0;
        proof {
            assert(cols@.map_values(|c: String| c@) =~= selector_columns(full[k as int].0));
            assert(pairs_view(plan@) + seen.subrange(0, 0) =~= pairs_view(plan@));
        }
        while j < cols.len()
            invariant
                0 <= j <= cols@.len(),
                seen.len() == cols@.len(),
                width == full[k as int].1,
                forall|i: int|
                    0 <= i < cols@.len() ==> seen[i] == ((#[trigger] cols@[i])@, width),
                pairs_view(plan@) == plan_before + seen.subrange(0, j as int),
            decreases cols@.len() - j,
        {
            let ghost before = plan@;
            let col = cols[j].clone();
            plan.push((col, width));
            proof {
                assert(plan@.drop_last() == before);
                assert(pairs_view(plan@) =~= pairs_view(before).push(
                    (plan@.last().0@, plan@.last().1),
                ));
                assert(seen.subrange(0, j + 1).drop_last() =~= seen.subrange(0, j as int));
                assert(pairs_view(plan@) =~= plan_before + seen.subrange(0, j + 1));
            }
            j = j + 1;
        }
        proof {
            assert(seen.subrange(0, seen.len() as int) =~= seen);
            assert(pairs_view(plan@) =~= plan_before + seen);
            match width_plan(full.skip(k + 1)) {
                Ok(rest) => {
                    assert((plan_before + seen) + rest =~= plan_before + (seen + rest));
                },
                Err(e) => {},
            }
        }
        k = k + 1;
    }
    proof {
        assert(full.skip(pairs@.len() as int) =~= Seq::<(Seq<char>, u64)>::empty());
        assert(pairs_view(plan@) + Seq::<(Seq<char>, u64)>::empty() =~= pairs_view(plan@));
    }
    Ok(plan)
}

} // verus!
