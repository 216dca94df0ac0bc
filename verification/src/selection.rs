//! Parsing of the user's selections: the comma-separated account list and
//! the contact-type choice.

use vstd::prelude::*;
use vstd::string::StringExecFns;

use crate::text::{str_eq, trim, trim_spec};

verus! {

/// The selectors of a comma-separated list, scanned left to right with
/// `cur` the piece read so far: each piece between commas is trimmed, and
/// pieces that are empty after trimming are dropped.
pub open spec fn split_selectors(s: Seq<char>, cur: Seq<char>) -> Seq<Seq<char>>
    decreases s.len(),
{
    if s.len() == 0 {
        if trim_spec(cur).len() > 0 {
            seq![trim_spec(cur)]
        } else {
            seq![]
        }
    } else if s[0] == ',' {
        (if trim_spec(cur).len() > 0 {
            seq![trim_spec(cur)]
        } else {
            seq![]
        }) + split_selectors(s.drop_first(), Seq::empty())
    } else {
        split_selectors(s.drop_first(), cur.push(s[0]))
    }
}

/// The account ids named by a comma-separated list: trimmed, empties
/// dropped, input order kept.
pub open spec fn parse_selectors_spec(s: Seq<char>) -> Seq<Seq<char>> {
    split_selectors(s, Seq::empty())
}

/// Splits a comma-separated account list into trimmed, non-empty ids.
pub fn parse_account_list(raw: &str) -> (r: Vec<String>)
    ensures
        r@.len() == parse_selectors_spec(raw@).len(),
        forall|i: int| 0 <= i < r@.len() ==> (#[trigger] r@[i])@ == parse_selectors_spec(raw@)[i],
{
    let n = raw.unicode_len();
    let mut out: Vec<String> = Vec::new();
    let mut piece_start: usize = 0;
    let mut i: usize = 0;
    proof {
        assert(raw@.subrange(0, n as int) =~= raw@);
        assert(raw@.subrange(0, 0) =~= Seq::<char>::empty());
    }
    while i < n
        invariant
            n == raw@.len(),
            piece_start <= i <= n,
            parse_selectors_spec(raw@) == out@.map_values(|x: String| x@) + split_selectors(
                raw@.subrange(i as int, n as int),
                raw@.subrange(piece_start as int, i as int),
            ),
        decreases n - i,
    {
        let c = raw.get_char(i);
        if c == ',' {
            let piece = trim(raw.substring_char(piece_start, i));
            let ghost old_out = out@;
            if piece.unicode_len() > 0 {
                out.push(piece.to_owned());
            }
            proof {
                if trim_spec(raw@.subrange(piece_start as int, i as int)).len() > 0 {
                    assert(out@.map_values(|x: String| x@) =~= old_out.map_values(|x: String| x@)
                        + seq![trim_spec(raw@.subrange(piece_start as int, i as int))]);
                } else {
                    assert(out@.map_values(|x: String| x@) =~= old_out.map_values(
                        |x: String| x@,
                    ));
                }
                assert(raw@.subrange(i as int, n as int).drop_first() =~= raw@.subrange(
                    i as int + 1,
                    n as int,
                ));
                assert(raw@.subrange(i as int + 1, i as int + 1) =~= Seq::<char>::empty());
            }
            i = i + 1;
            piece_start = i;
        } else {
            proof {
                assert(raw@.subrange(i as int, n as int).drop_first() =~= raw@.subrange(
                    i as int + 1,
                    n as int,
                ));
                assert(raw@.subrange(piece_start as int, i as int).push(raw@[i as int]) =~= raw@
                    .subrange(piece_start as int, i as int + 1));
            }
            i = i + 1;
        }
    }
    let piece = trim(raw.substring_char(piece_start, n));
    let ghost old_out = out@;
    if piece.unicode_len() > 0 {
        out.push(piece.to_owned());
    }
    proof {
        assert(raw@.subrange(n as int, n as int) =~= Seq::<char>::empty());
        if trim_spec(raw@.subrange(piece_start as int, n as int)).len() > 0 {
            assert(out@.map_values(|x: String| x@) =~= old_out.map_values(|x: String| x@) + seq![
                trim_spec(raw@.subrange(piece_start as int, n as int)),
            ]);
        } else {
            assert(out@.map_values(|x: String| x@) =~= old_out.map_values(|x: String| x@));
        }
        assert(parse_selectors_spec(raw@) =~= out@.map_values(|x: String| x@));
    }
    out
}

/// Expands the contact-type choice: "All" selects the three kinds in
/// their fixed order, anything else selects itself alone.
pub fn contact_types_for_selection(selection: &str) -> (r: Vec<String>)
    ensures
        selection@ == "All"@ ==> r@.len() == 3 && r@[0]@ == "Billing"@ && r@[1]@ == "Operations"@
            && r@[2]@ == "Security"@,
        selection@ != "All"@ ==> r@.len() == 1 && r@[0]@ == selection@,
{
    let mut r: Vec<String> = Vec::new();
    if str_eq(selection, "All") {
        r.push(String::from_str("Billing"));
        r.push(String::from_str("Operations"));
        r.push(String::from_str("Security"));
    } else {
        r.push(selection.to_owned());
    }
    r
}

} // verus!
