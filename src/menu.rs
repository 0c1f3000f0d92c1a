//! The key legend's filter: which key presses reach the active view.
use vstd::prelude::*;

verus! {

/// A key press is taken when it is one of the legend's keys, a space or
/// Return, and the legend is not empty; others are dropped and the terminal is
/// read again.
pub open spec fn menu_accepts_spec(keys: Seq<char>, key: char) -> bool {
    keys.len() > 0 && (keys.contains(key) || key == ' ' || key == '\n')
}

pub fn menu_accepts(keys: &Vec<char>, key: char) -> (r: bool)
    ensures
        r == menu_accepts_spec(keys@, key),
{
    if keys.len() == 0 {
        return false;
    }
    if key == ' ' || key == '\n' {
        return true;
    }
    let mut i: usize = 0;
    while i < keys.len()
        invariant
            i <= keys.len(),
            forall|j: int| 0 <= j < i ==> keys@[j] != key,
        decreases keys.len() - i,
    {
        if keys[i] == key {
            assert(keys@[i as int] == key);
            return true;
        }
        i = i + 1;
    }
    false
}

} // verus!
