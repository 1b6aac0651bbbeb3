//! The overlap table of the measurement model.
use vstd::prelude::*;

verus! {

/// `cos^2(pi * t / 128)` scaled to `u16::MAX` (truncated), for each of the
/// 128 phase steps `t` of a half turn: the probability that the measurement
/// gives the prepared state.
pub open spec fn overlap_table() -> Seq<u16> {
    seq![
        65535u16, 65495u16, 65377u16, 65180u16, 64905u16, 64552u16, 64124u16, 63619u16,
        63040u16, 62388u16, 61665u16, 60873u16, 60012u16, 59086u16, 58097u16, 57046u16,
        55937u16, 54772u16, 53554u16, 52287u16, 50972u16, 49613u16, 48213u16, 46777u16,
        45307u16, 43806u16, 42279u16, 40729u16, 39160u16, 37575u16, 35979u16, 34375u16,
        32767u16, 31159u16, 29555u16, 27959u16, 26374u16, 24805u16, 23255u16, 21728u16,
        20227u16, 18757u16, 17321u16, 15921u16, 14562u16, 13247u16, 11980u16, 10762u16,
        9597u16, 8488u16, 7437u16, 6448u16, 5522u16, 4661u16, 3869u16, 3146u16,
        2494u16, 1915u16, 1410u16, 982u16, 629u16, 354u16, 157u16, 39u16,
        0u16, 39u16, 157u16, 354u16, 629u16, 982u16, 1410u16, 1915u16,
        2494u16, 3146u16, 3869u16, 4661u16, 5522u16, 6448u16, 7437u16, 8488u16,
        9597u16, 10762u16, 11980u16, 13247u16, 14562u16, 15921u16, 17321u16, 18757u16,
        20227u16, 21728u16, 23255u16, 24805u16, 26374u16, 27959u16, 29555u16, 31159u16,
        32767u16, 34375u16, 35979u16, 37575u16, 39160u16, 40729u16, 42279u16, 43806u16,
        45307u16, 46777u16, 48213u16, 49613u16, 50972u16, 52287u16, 53554u16, 54772u16,
        55937u16, 57046u16, 58097u16, 59086u16, 60012u16, 60873u16, 61665u16, 62388u16,
        63040u16, 63619u16, 64124u16, 64552u16, 64905u16, 65180u16, 65377u16, 65495u16,
    ]
}

/// The overlap table as an array.
pub fn overlap_probabilities() -> (table: [u16; 128])
    ensures
        table@ == overlap_table(),
{
    let table: [u16; 128] = [
        65535u16, 65495u16, 65377u16, 65180u16, 64905u16, 64552u16, 64124u16, 63619u16,
        63040u16, 62388u16, 61665u16, 60873u16, 60012u16, 59086u16, 58097u16, 57046u16,
        55937u16, 54772u16, 53554u16, 52287u16, 50972u16, 49613u16, 48213u16, 46777u16,
        45307u16, 43806u16, 42279u16, 40729u16, 39160u16, 37575u16, 35979u16, 34375u16,
        32767u16, 31159u16, 29555u16, 27959u16, 26374u16, 24805u16, 23255u16, 21728u16,
        20227u16, 18757u16, 17321u16, 15921u16, 14562u16, 13247u16, 11980u16, 10762u16,
        9597u16, 8488u16, 7437u16, 6448u16, 5522u16, 4661u16, 3869u16, 3146u16,
        2494u16, 1915u16, 1410u16, 982u16, 629u16, 354u16, 157u16, 39u16,
        0u16, 39u16, 157u16, 354u16, 629u16, 982u16, 1410u16, 1915u16,
        2494u16, 3146u16, 3869u16, 4661u16, 5522u16, 6448u16, 7437u16, 8488u16,
        9597u16, 10762u16, 11980u16, 13247u16, 14562u16, 15921u16, 17321u16, 18757u16,
        20227u16, 21728u16, 23255u16, 24805u16, 26374u16, 27959u16, 29555u16, 31159u16,
        32767u16, 34375u16, 35979u16, 37575u16, 39160u16, 40729u16, 42279u16, 43806u16,
        45307u16, 46777u16, 48213u16, 49613u16, 50972u16, 52287u16, 53554u16, 54772u16,
        55937u16, 57046u16, 58097u16, 59086u16, 60012u16, 60873u16, 61665u16, 62388u16,
        63040u16, 63619u16, 64124u16, 64552u16, 64905u16, 65180u16, 65377u16, 65495u16,
    ];
    assert(table@ =~= overlap_table());
    table
}

} // verus!
