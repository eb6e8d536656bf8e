use vstd::prelude::*;

verus! {

/// Index of the row above the selected one in a table view: one up, stopping at the top.
pub fn get_table_up_index(index: Option<usize>) -> (r: usize)
    ensures
        r == match index {
            Some(i) => if i > 0 { (i - 1) as usize } else { 0 },
            None => 0,
        },
{
    if let Some(i) = index {
        if i > 0 {
            i - 1
        } else {
            0
        }
    } else {
        0
    }
}


/// Index of the row below the selected one in a table view of `len` rows: one down, stopping at
/// the last row; the first row when nothing is selected.
pub fn get_table_down_index(index: Option<usize>, len: usize) -> (r: usize)
    requires
        index is Some ==> len > 0,
    ensures
        r == match index {
            Some(i) => if i < len - 1 { (i + 1) as usize } else { (len - 1) as usize },
            None => 0,
        },
{
    if let Some(i) = index {
        if i < len - 1 {
            i + 1
        } else {
            len - 1
        }
    } else {
        0
    }
}

/// Moving up or down keeps a selection inside a table of `len` rows; moving down from a row
/// above the last and then up returns to it.
pub proof fn lemma_moves_stay_in_table(i: usize, len: usize)
    requires
        i < len,
    ensures
        (if i > 0 { i - 1 } else { 0 }) < len,
        (if i < len - 1 { i + 1 } else { len - 1 }) < len,
        i < len - 1 ==> (i + 1) - 1 == i,
{
}

} // verus!
