//! Where a week's note lives and what a new one holds.

use vstd::prelude::*;
use crate::render::{decimal, decimal_string};

verus! {

/// The directory, under the home directory, that holds all notes.
pub const NOTES_DIR: &'static str = "TEST";

/// The decimal form of `n`, with a minus sign when negative.
pub open spec fn signed_decimal(n: int) -> Seq<char> {
    if n < 0 {
        seq!['-'] + decimal((-n) as nat)
    } else {
        decimal(n as nat)
    }
}

/// The decimal form of `n`.
pub fn int_string(n: i32) -> (r: String)
    ensures
        r@ == signed_decimal(n as int),
{
    if n < 0 {
        proof {
            reveal_strlit("-");
        }
        let mut r = String::from_str("-");
        let digits = decimal_string((-(n as i64)) as u64);
        r.append(digits.as_str());
        assert(r@ =~= signed_decimal(n as int));
        r
    } else {
        decimal_string(n as u64)
    }
}

/// The path of the note of ISO week `week` of `year`, below the home
/// directory, one component after the other.
pub open spec fn note_path_spec(exe_name: Seq<char>, year: int, week: nat) -> Seq<Seq<char>> {
    seq![NOTES_DIR@, exe_name, signed_decimal(year), decimal(week) + ".md"@]
}

/// The path of the note of ISO week `week` of `year`, below the home
/// directory, one component after the other.
pub fn note_path_parts(exe_name: &String, year: i32, week: u32) -> (r: Vec<String>)
    ensures
        r@.map_values(|s: String| s@) == note_path_spec(exe_name@, year as int, week as nat),
{
    let mut file = decimal_string(week as u64);
    file.append(".md");
    let mut r: Vec<String> = Vec::new();
    r.push(String::from_str(NOTES_DIR));
    r.push(exe_name.clone());
    r.push(int_string(year));
    r.push(file);
    assert(r@.map_values(|s: String| s@) =~= note_path_spec(exe_name@, year as int, week as nat));
    r
}

/// One section per day title, in order.
pub open spec fn day_sections(titles: Seq<Seq<char>>) -> Seq<char>
    decreases titles.len(),
{
    if titles.len() == 0 {
        Seq::empty()
    } else {
        day_sections(titles.drop_last()) + "## "@ + titles.last() + "\n\n"@
    }
}

/// A new note: a title naming the week, a rule, and an empty section for
/// each day.
pub open spec fn template_spec(week: nat, year: int, titles: Seq<Seq<char>>) -> Seq<char> {
    "# Week "@ + decimal(week) + ", "@ + signed_decimal(year) + "\n---\n\n"@ + day_sections(titles)
}

/// The text of a new note for ISO week `week` of `year`, with a section for
/// each of `day_titles`.
pub fn note_template(week: u32, year: i32, day_titles: &Vec<String>) -> (r: String)
    ensures
        r@ == template_spec(week as nat, year as int, day_titles@.map_values(|s: String| s@)),
{
    let ghost titles = day_titles@.map_values(|s: String| s@);
    let mut r = String::from_str("# Week ");
    let w = decimal_string(week as u64);
    r.append(w.as_str());
    r.append(", ");
    let y = int_string(year);
    r.append(y.as_str());
    r.append("\n---\n\n");
    let ghost head = r@;
    assert(head == template_spec(week as nat, year as int, Seq::empty()));
    let mut i: usize = 0;
    while i < day_titles.len()
        invariant
            i <= day_titles.len(),
            titles == day_titles@.map_values(|s: String| s@),
            head == template_spec(week as nat, year as int, Seq::empty()),
            r@ == head + day_sections(titles.take(i as int)),
        decreases day_titles.len() - i,
    {
        let ghost before = r@;
        r.append("## ");
        r.append(day_titles[i].as_str());
        r.append("\n\n");
        proof {
            assert(titles.take(i + 1).drop_last() =~= titles.take(i as int));
            assert(titles.take(i + 1).last() == day_titles@[i as int]@);
            assert(r@ =~= head + day_sections(titles.take(i + 1)));
        }
        i += 1;
    }
    proof {
        assert(titles.take(i as int) =~= titles);
        assert(template_spec(week as nat, year as int, titles) =~= head + day_sections(titles));
    }
    r
}

} // verus!
