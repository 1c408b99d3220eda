//! The notes of the piano.
use vstd::prelude::*;

verus! {

/// The frequencies of the keys of the piano, in hertz: three octaves of
/// twelve keys, from the A above middle C.
pub open spec fn pitches() -> Seq<u32> {
    seq![
        440u32, 466, 493, 523, 554, 587, 622, 659, 698, 739, 783, 830,
        880, 932, 987, 1046, 1108, 1174, 1244, 1318, 1396, 1479, 1567, 1661,
        1760, 1864, 1975, 2093, 2217, 2349, 2489, 2637, 2793, 2959, 3135, 3322,
    ]
}

/// The frequencies of the keys of the piano.
pub fn notes() -> (notes: Vec<u32>)
    ensures
        notes@ == pitches(),
{
    let notes = vec![
        440u32, 466, 493, 523, 554, 587, 622, 659, 698, 739, 783, 830,
        880, 932, 987, 1046, 1108, 1174, 1244, 1318, 1396, 1479, 1567, 1661,
        1760, 1864, 1975, 2093, 2217, 2349, 2489, 2637, 2793, 2959, 3135, 3322,
    ];
    assert(notes@ =~= pitches());
    notes
}

/// The key that a write of `value` to the piano presses: the key of that
/// number, or none where the piano has no such key.
pub fn key(value: u64) -> (key: Option<usize>)
    ensures
        key == if value < pitches().len() {
            Some(value as usize)
        } else {
            None
        },
{
    assert(pitches().len() == 36);
    if value < 36 {
        Some(value as usize)
    } else {
        None
    }
}

} // verus!
