//! The `delfin` command: a random line of the dolphin list, the file that
//! the configuration names (`Config::dolphin_path`, read from `DOLPHIN_PATH`).

use vstd::prelude::*;
use crate::errors::NoDolphinError;
use crate::random::random_index;

verus! {

/// The line at position `i`.
pub fn take_line<T>(lines: Vec<T>, i: usize) -> (r: T)
    requires
        i < lines@.len(),
    ensures
        r == lines@[i as int],
{
    let mut lines = lines;
    lines.remove(i)
}

/// One of the lines, drawn at random: an error exactly when there is none.
pub fn pick_dolphin<T>(lines: Vec<T>) -> (r: Result<T, NoDolphinError>)
    ensures
        (r is Err) <==> lines@.len() == 0,
        r matches Ok(line) ==> lines@.contains(line),
{
    match random_index(lines.len()) {
        Some(i) => {
            let ghost all = lines@;
            let line = take_line(lines, i);
            assert(all[i as int] == line);
            Ok(line)
        },
        None => Err(NoDolphinError),
    }
}

} // verus!
