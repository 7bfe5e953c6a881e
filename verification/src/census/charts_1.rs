//! Charts of atlas words 16 to 31 matched to the first charts of their classes.
use vstd::prelude::*;
use crate::atlas::{atlas_signatures, chart_signature, lemma_charts_agree_through};
use crate::permutations::heap_table;
use super::{class_rep, lemma_census_words, lemma_heap_entries, meets_class_below, lemma_codes_of_word_2, lemma_codes_of_word_3, lemma_codes_of_word_4, lemma_codes_of_word_5, lemma_codes_of_word_6, lemma_codes_of_word_7, lemma_codes_of_word_16, lemma_codes_of_word_17, lemma_codes_of_word_18, lemma_codes_of_word_19, lemma_codes_of_word_20, lemma_codes_of_word_21, lemma_codes_of_word_22, lemma_codes_of_word_23, lemma_codes_of_word_24, lemma_codes_of_word_25, lemma_codes_of_word_26, lemma_codes_of_word_27, lemma_codes_of_word_28, lemma_codes_of_word_29, lemma_codes_of_word_30, lemma_codes_of_word_31};

verus! {

proof fn lemma_chart_385()
    ensures
        chart_signature([(0, 1), (0, 3), (0, 2)], heap_table(1)) == chart_signature([(0, 1), (0, 3), (0, 2)], heap_table(0)),
{
    lemma_heap_entries();
    lemma_codes_of_word_16(heap_table(1));
    lemma_codes_of_word_16(heap_table(0));
    lemma_charts_agree_through([(0, 1), (0, 3), (0, 2)], heap_table(0), [(0, 1), (0, 3), (0, 2)], heap_table(1), 1, (1, 0, 4, 5, 2, 3, 7, 6));
}

proof fn lemma_chart_387()
    ensures
        chart_signature([(0, 1), (0, 3), (0, 2)], heap_table(3)) == chart_signature([(0, 1), (0, 3), (0, 2)], heap_table(2)),
{
    lemma_heap_entries();
    lemma_codes_of_word_16(heap_table(3));
    lemma_codes_of_word_16(heap_table(2));
    lemma_charts_agree_through([(0, 1), (0, 3), (0, 2)], heap_table(2), [(0, 1), (0, 3), (0, 2)], heap_table(3), 1, (1, 0, 4, 5, 2, 3, 7, 6));
}

proof fn lemma_chart_389()
    ensures
        chart_signature([(0, 1), (0, 3), (0, 2)], heap_table(5)) == chart_signature([(0, 1), (0, 3), (0, 2)], heap_table(4)),
{
    lemma_heap_entries();
    lemma_codes_of_word_16(heap_table(5));
    lemma_codes_of_word_16(heap_table(4));
    lemma_charts_agree_through([(0, 1), (0, 3), (0, 2)], heap_table(4), [(0, 1), (0, 3), (0, 2)], heap_table(5), 1, (1, 0, 4, 5, 2, 3, 7, 6));
}

proof fn lemma_chart_391()
    ensures
        chart_signature([(0, 1), (0, 3), (0, 2)], heap_table(7)) == chart_signature([(0, 1), (0, 3), (0, 2)], heap_table(6)),
{
    lemma_heap_entries();
    lemma_codes_of_word_16(heap_table(7));
    lemma_codes_of_word_16(heap_table(6));
    lemma_charts_agree_through([(0, 1), (0, 3), (0, 2)], heap_table(6), [(0, 1), (0, 3), (0, 2)], heap_table(7), 1, (1, 0, 4, 5, 2, 3, 7, 6));
}

proof fn lemma_chart_393()
    ensures
        chart_signature([(0, 1), (0, 3), (0, 2)], heap_table(9)) == chart_signature([(0, 1), (0, 3), (0, 2)], heap_table(8)),
{
    lemma_heap_entries();
    lemma_codes_of_word_16(heap_table(9));
    lemma_codes_of_word_16(heap_table(8));
    lemma_charts_agree_through([(0, 1), (0, 3), (0, 2)], heap_table(8), [(0, 1), (0, 3), (0, 2)], heap_table(9), 1, (1, 0, 4, 5, 2, 3, 7, 6));
}

proof fn lemma_chart_395()
    ensures
        chart_signature([(0, 1), (0, 3), (0, 2)], heap_table(11)) == chart_signature([(0, 1), (0, 3), (0, 2)], heap_table(10)),
{
    lemma_heap_entries();
    lemma_codes_of_word_16(heap_table(11));
    lemma_codes_of_word_16(heap_table(10));
    lemma_charts_agree_through([(0, 1), (0, 3), (0, 2)], heap_table(10), [(0, 1), (0, 3), (0, 2)], heap_table(11), 1, (1, 0, 4, 5, 2, 3, 7, 6));
}

proof fn lemma_chart_397()
    ensures
        chart_signature([(0, 1), (0, 3), (0, 2)], heap_table(13)) == chart_signature([(0, 1), (0, 3), (0, 2)], heap_table(12)),
{
    lemma_heap_entries();
    lemma_codes_of_word_16(heap_table(13));
    lemma_codes_of_word_16(heap_table(12));
    lemma_charts_agree_through([(0, 1), (0, 3), (0, 2)], heap_table(12), [(0, 1), (0, 3), (0, 2)], heap_table(13), 1, (1, 0, 4, 5, 2, 3, 7, 6));
}

proof fn lemma_chart_399()
    ensures
        chart_signature([(0, 1), (0, 3), (0, 2)], heap_table(15)) == chart_signature([(0, 1), (0, 3), (0, 2)], heap_table(14)),
{
    lemma_heap_entries();
    lemma_codes_of_word_16(heap_table(15));
    lemma_codes_of_word_16(heap_table(14));
    lemma_charts_agree_through([(0, 1), (0, 3), (0, 2)], heap_table(14), [(0, 1), (0, 3), (0, 2)], heap_table(15), 1, (1, 0, 4, 5, 2, 3, 7, 6));
}

proof fn lemma_chart_401()
    ensures
        chart_signature([(0, 1), (0, 3), (0, 2)], heap_table(17)) == chart_signature([(0, 1), (0, 3), (0, 2)], heap_table(16)),
{
    lemma_heap_entries();
    lemma_codes_of_word_16(heap_table(17));
    lemma_codes_of_word_16(heap_table(16));
    lemma_charts_agree_through([(0, 1), (0, 3), (0, 2)], heap_table(16), [(0, 1), (0, 3), (0, 2)], heap_table(17), 1, (1, 0, 4, 5, 2, 3, 7, 6));
}

proof fn lemma_chart_403()
    ensures
        chart_signature([(0, 1), (0, 3), (0, 2)], heap_table(19)) == chart_signature([(0, 1), (0, 3), (0, 2)], heap_table(18)),
{
    lemma_heap_entries();
    lemma_codes_of_word_16(heap_table(19));
    lemma_codes_of_word_16(heap_table(18));
    lemma_charts_agree_through([(0, 1), (0, 3), (0, 2)], heap_table(18), [(0, 1), (0, 3), (0, 2)], heap_table(19), 1, (1, 0, 4, 5, 2, 3, 7, 6));
}

proof fn lemma_chart_405()
    ensures
        chart_signature([(0, 1), (0, 3), (0, 2)], heap_table(21)) == chart_signature([(0, 1), (0, 3), (0, 2)], heap_table(20)),
{
    lemma_heap_entries();
    lemma_codes_of_word_16(heap_table(21));
    lemma_codes_of_word_16(heap_table(20));
    lemma_charts_agree_through([(0, 1), (0, 3), (0, 2)], heap_table(20), [(0, 1), (0, 3), (0, 2)], heap_table(21), 1, (1, 0, 4, 5, 2, 3, 7, 6));
}

proof fn lemma_chart_407()
    ensures
        chart_signature([(0, 1), (0, 3), (0, 2)], heap_table(23)) == chart_signature([(0, 1), (0, 3), (0, 2)], heap_table(22)),
{
    lemma_heap_entries();
    lemma_codes_of_word_16(heap_table(23));
    lemma_codes_of_word_16(heap_table(22));
    lemma_charts_agree_through([(0, 1), (0, 3), (0, 2)], heap_table(22), [(0, 1), (0, 3), (0, 2)], heap_table(23), 1, (1, 0, 4, 5, 2, 3, 7, 6));
}

/// Every chart of atlas word 16 shares its signature with the first chart
/// of a class below 216.
pub proof fn lemma_charts_of_word_16()
    ensures
        forall|t: int| 384 <= t < 408 ==> #[trigger] meets_class_below(t, 216),
{
    lemma_census_words();
    assert forall|t: int| 384 <= t < 408 implies #[trigger] meets_class_below(t, 216) by {
        if t == 384 { assert(atlas_signatures()[class_rep(102)] == atlas_signatures()[384]); }
        else if t == 385 { lemma_chart_385(); assert(atlas_signatures()[class_rep(102)] == atlas_signatures()[385]); }
        else if t == 386 { assert(atlas_signatures()[class_rep(103)] == atlas_signatures()[386]); }
        else if t == 387 { lemma_chart_387(); assert(atlas_signatures()[class_rep(103)] == atlas_signatures()[387]); }
        else if t == 388 { assert(atlas_signatures()[class_rep(104)] == atlas_signatures()[388]); }
        else if t == 389 { lemma_chart_389(); assert(atlas_signatures()[class_rep(104)] == atlas_signatures()[389]); }
        else if t == 390 { assert(atlas_signatures()[class_rep(105)] == atlas_signatures()[390]); }
        else if t == 391 { lemma_chart_391(); assert(atlas_signatures()[class_rep(105)] == atlas_signatures()[391]); }
        else if t == 392 { assert(atlas_signatures()[class_rep(106)] == atlas_signatures()[392]); }
        else if t == 393 { lemma_chart_393(); assert(atlas_signatures()[class_rep(106)] == atlas_signatures()[393]); }
        else if t == 394 { assert(atlas_signatures()[class_rep(107)] == atlas_signatures()[394]); }
        else if t == 395 { lemma_chart_395(); assert(atlas_signatures()[class_rep(107)] == atlas_signatures()[395]); }
        else if t == 396 { assert(atlas_signatures()[class_rep(108)] == atlas_signatures()[396]); }
        else if t == 397 { lemma_chart_397(); assert(atlas_signatures()[class_rep(108)] == atlas_signatures()[397]); }
        else if t == 398 { assert(atlas_signatures()[class_rep(109)] == atlas_signatures()[398]); }
        else if t == 399 { lemma_chart_399(); assert(atlas_signatures()[class_rep(109)] == atlas_signatures()[399]); }
        else if t == 400 { assert(atlas_signatures()[class_rep(110)] == atlas_signatures()[400]); }
        else if t == 401 { lemma_chart_401(); assert(atlas_signatures()[class_rep(110)] == atlas_signatures()[401]); }
        else if t == 402 { assert(atlas_signatures()[class_rep(111)] == atlas_signatures()[402]); }
        else if t == 403 { lemma_chart_403(); assert(atlas_signatures()[class_rep(111)] == atlas_signatures()[403]); }
        else if t == 404 { assert(atlas_signatures()[class_rep(112)] == atlas_signatures()[404]); }
        else if t == 405 { lemma_chart_405(); assert(atlas_signatures()[class_rep(112)] == atlas_signatures()[405]); }
        else if t == 406 { assert(atlas_signatures()[class_rep(113)] == atlas_signatures()[406]); }
        else { lemma_chart_407(); assert(atlas_signatures()[class_rep(113)] == atlas_signatures()[407]); }
    }
}

proof fn lemma_chart_408()
    ensures
        chart_signature([(0, 1), (1, 2), (0, 3)], heap_table(0)) == chart_signature([(0, 2), (0, 3), (1, 2)], heap_table(3)),
{
    lemma_heap_entries();
    lemma_codes_of_word_17(heap_table(0));
    lemma_codes_of_word_3(heap_table(3));
    lemma_charts_agree_through([(0, 2), (0, 3), (1, 2)], heap_table(3), [(0, 1), (1, 2), (0, 3)], heap_table(0), 12, (3, 5, 0, 6, 1, 7, 2, 4));
}

proof fn lemma_chart_409()
    ensures
        chart_signature([(0, 1), (1, 2), (0, 3)], heap_table(1)) == chart_signature([(0, 2), (0, 3), (1, 2)], heap_table(3)),
{
    lemma_heap_entries();
    lemma_codes_of_word_17(heap_table(1));
    lemma_codes_of_word_3(heap_table(3));
    lemma_charts_agree_through([(0, 2), (0, 3), (1, 2)], heap_table(3), [(0, 1), (1, 2), (0, 3)], heap_table(1), 13, (5, 3, 1, 7, 0, 6, 4, 2));
}

proof fn lemma_chart_410()
    ensures
        chart_signature([(0, 1), (1, 2), (0, 3)], heap_table(2)) == chart_signature([(0, 2), (0, 3), (1, 2)], heap_table(0)),
{
    lemma_heap_entries();
    lemma_codes_of_word_17(heap_table(2));
    lemma_codes_of_word_3(heap_table(0));
    lemma_charts_agree_through([(0, 2), (0, 3), (1, 2)], heap_table(0), [(0, 1), (1, 2), (0, 3)], heap_table(2), 13, (5, 3, 1, 7, 0, 6, 4, 2));
}

proof fn lemma_chart_411()
    ensures
        chart_signature([(0, 1), (1, 2), (0, 3)], heap_table(3)) == chart_signature([(0, 2), (0, 3), (1, 2)], heap_table(0)),
{
    lemma_heap_entries();
    lemma_codes_of_word_17(heap_table(3));
    lemma_codes_of_word_3(heap_table(0));
    lemma_charts_agree_through([(0, 2), (0, 3), (1, 2)], heap_table(0), [(0, 1), (1, 2), (0, 3)], heap_table(3), 12, (3, 5, 0, 6, 1, 7, 2, 4));
}

proof fn lemma_chart_412()
    ensures
        chart_signature([(0, 1), (1, 2), (0, 3)], heap_table(4)) == chart_signature([(0, 2), (0, 3), (1, 2)], heap_table(1)),
{
    lemma_heap_entries();
    lemma_codes_of_word_17(heap_table(4));
    lemma_codes_of_word_3(heap_table(1));
    lemma_charts_agree_through([(0, 2), (0, 3), (1, 2)], heap_table(1), [(0, 1), (1, 2), (0, 3)], heap_table(4), 12, (3, 5, 0, 6, 1, 7, 2, 4));
}

proof fn lemma_chart_413()
    ensures
        chart_signature([(0, 1), (1, 2), (0, 3)], heap_table(5)) == chart_signature([(0, 2), (0, 3), (1, 2)], heap_table(1)),
{
    lemma_heap_entries();
    lemma_codes_of_word_17(heap_table(5));
    lemma_codes_of_word_3(heap_table(1));
    lemma_charts_agree_through([(0, 2), (0, 3), (1, 2)], heap_table(1), [(0, 1), (1, 2), (0, 3)], heap_table(5), 13, (5, 3, 1, 7, 0, 6, 4, 2));
}

proof fn lemma_chart_414()
    ensures
        chart_signature([(0, 1), (1, 2), (0, 3)], heap_table(6)) == chart_signature([(0, 2), (0, 3), (1, 2)], heap_table(9)),
{
    lemma_heap_entries();
    lemma_codes_of_word_17(heap_table(6));
    lemma_codes_of_word_3(heap_table(9));
    lemma_charts_agree_through([(0, 2), (0, 3), (1, 2)], heap_table(9), [(0, 1), (1, 2), (0, 3)], heap_table(6), 12, (3, 5, 0, 6, 1, 7, 2, 4));
}

proof fn lemma_chart_415()
    ensures
        chart_signature([(0, 1), (1, 2), (0, 3)], heap_table(7)) == chart_signature([(0, 2), (0, 3), (1, 2)], heap_table(9)),
{
    lemma_heap_entries();
    lemma_codes_of_word_17(heap_table(7));
    lemma_codes_of_word_3(heap_table(9));
    lemma_charts_agree_through([(0, 2), (0, 3), (1, 2)], heap_table(9), [(0, 1), (1, 2), (0, 3)], heap_table(7), 13, (5, 3, 1, 7, 0, 6, 4, 2));
}

proof fn lemma_chart_416()
    ensures
        chart_signature([(0, 1), (1, 2), (0, 3)], heap_table(8)) == chart_signature([(0, 2), (0, 3), (1, 2)], heap_table(6)),
{
    lemma_heap_entries();
    lemma_codes_of_word_17(heap_table(8));
    lemma_codes_of_word_3(heap_table(6));
    lemma_charts_agree_through([(0, 2), (0, 3), (1, 2)], heap_table(6), [(0, 1), (1, 2), (0, 3)], heap_table(8), 13, (5, 3, 1, 7, 0, 6, 4, 2));
}

proof fn lemma_chart_417()
    ensures
        chart_signature([(0, 1), (1, 2), (0, 3)], heap_table(9)) == chart_signature([(0, 2), (0, 3), (1, 2)], heap_table(6)),
{
    lemma_heap_entries();
    lemma_codes_of_word_17(heap_table(9));
    lemma_codes_of_word_3(heap_table(6));
    lemma_charts_agree_through([(0, 2), (0, 3), (1, 2)], heap_table(6), [(0, 1), (1, 2), (0, 3)], heap_table(9), 12, (3, 5, 0, 6, 1, 7, 2, 4));
}

proof fn lemma_chart_418()
    ensures
        chart_signature([(0, 1), (1, 2), (0, 3)], heap_table(10)) == chart_signature([(0, 2), (0, 3), (1, 2)], heap_table(7)),
{
    lemma_heap_entries();
    lemma_codes_of_word_17(heap_table(10));
    lemma_codes_of_word_3(heap_table(7));
    lemma_charts_agree_through([(0, 2), (0, 3), (1, 2)], heap_table(7), [(0, 1), (1, 2), (0, 3)], heap_table(10), 12, (3, 5, 0, 6, 1, 7, 2, 4));
}

proof fn lemma_chart_419()
    ensures
        chart_signature([(0, 1), (1, 2), (0, 3)], heap_table(11)) == chart_signature([(0, 2), (0, 3), (1, 2)], heap_table(7)),
{
    lemma_heap_entries();
    lemma_codes_of_word_17(heap_table(11));
    lemma_codes_of_word_3(heap_table(7));
    lemma_charts_agree_through([(0, 2), (0, 3), (1, 2)], heap_table(7), [(0, 1), (1, 2), (0, 3)], heap_table(11), 13, (5, 3, 1, 7, 0, 6, 4, 2));
}

proof fn lemma_chart_420()
    ensures
        chart_signature([(0, 1), (1, 2), (0, 3)], heap_table(12)) == chart_signature([(0, 2), (0, 3), (1, 2)], heap_table(15)),
{
    lemma_heap_entries();
    lemma_codes_of_word_17(heap_table(12));
    lemma_codes_of_word_3(heap_table(15));
    lemma_charts_agree_through([(0, 2), (0, 3), (1, 2)], heap_table(15), [(0, 1), (1, 2), (0, 3)], heap_table(12), 12, (3, 5, 0, 6, 1, 7, 2, 4));
}

proof fn lemma_chart_421()
    ensures
        chart_signature([(0, 1), (1, 2), (0, 3)], heap_table(13)) == chart_signature([(0, 2), (0, 3), (1, 2)], heap_table(15)),
{
    lemma_heap_entries();
    lemma_codes_of_word_17(heap_table(13));
    lemma_codes_of_word_3(heap_table(15));
    lemma_charts_agree_through([(0, 2), (0, 3), (1, 2)], heap_table(15), [(0, 1), (1, 2), (0, 3)], heap_table(13), 13, (5, 3, 1, 7, 0, 6, 4, 2));
}

proof fn lemma_chart_422()
    ensures
        chart_signature([(0, 1), (1, 2), (0, 3)], heap_table(14)) == chart_signature([(0, 2), (0, 3), (1, 2)], heap_table(12)),
{
    lemma_heap_entries();
    lemma_codes_of_word_17(heap_table(14));
    lemma_codes_of_word_3(heap_table(12));
    lemma_charts_agree_through([(0, 2), (0, 3), (1, 2)], heap_table(12), [(0, 1), (1, 2), (0, 3)], heap_table(14), 13, (5, 3, 1, 7, 0, 6, 4, 2));
}

proof fn lemma_chart_423()
    ensures
        chart_signature([(0, 1), (1, 2), (0, 3)], heap_table(15)) == chart_signature([(0, 2), (0, 3), (1, 2)], heap_table(12)),
{
    lemma_heap_entries();
    lemma_codes_of_word_17(heap_table(15));
    lemma_codes_of_word_3(heap_table(12));
    lemma_charts_agree_through([(0, 2), (0, 3), (1, 2)], heap_table(12), [(0, 1), (1, 2), (0, 3)], heap_table(15), 12, (3, 5, 0, 6, 1, 7, 2, 4));
}

proof fn lemma_chart_424()
    ensures
        chart_signature([(0, 1), (1, 2), (0, 3)], heap_table(16)) == chart_signature([(0, 2), (0, 3), (1, 2)], heap_table(13)),
{
    lemma_heap_entries();
    lemma_codes_of_word_17(heap_table(16));
    lemma_codes_of_word_3(heap_table(13));
    lemma_charts_agree_through([(0, 2), (0, 3), (1, 2)], heap_table(13), [(0, 1), (1, 2), (0, 3)], heap_table(16), 12, (3, 5, 0, 6, 1, 7, 2, 4));
}

proof fn lemma_chart_425()
    ensures
        chart_signature([(0, 1), (1, 2), (0, 3)], heap_table(17)) == chart_signature([(0, 2), (0, 3), (1, 2)], heap_table(13)),
{
    lemma_heap_entries();
    lemma_codes_of_word_17(heap_table(17));
    lemma_codes_of_word_3(heap_table(13));
    lemma_charts_agree_through([(0, 2), (0, 3), (1, 2)], heap_table(13), [(0, 1), (1, 2), (0, 3)], heap_table(17), 13, (5, 3, 1, 7, 0, 6, 4, 2));
}

proof fn lemma_chart_426()
    ensures
        chart_signature([(0, 1), (1, 2), (0, 3)], heap_table(18)) == chart_signature([(0, 2), (0, 3), (1, 2)], heap_table(21)),
{
    lemma_heap_entries();
    lemma_codes_of_word_17(heap_table(18));
    lemma_codes_of_word_3(heap_table(21));
    lemma_charts_agree_through([(0, 2), (0, 3), (1, 2)], heap_table(21), [(0, 1), (1, 2), (0, 3)], heap_table(18), 12, (3, 5, 0, 6, 1, 7, 2, 4));
}

proof fn lemma_chart_427()
    ensures
        chart_signature([(0, 1), (1, 2), (0, 3)], heap_table(19)) == chart_signature([(0, 2), (0, 3), (1, 2)], heap_table(21)),
{
    lemma_heap_entries();
    lemma_codes_of_word_17(heap_table(19));
    lemma_codes_of_word_3(heap_table(21));
    lemma_charts_agree_through([(0, 2), (0, 3), (1, 2)], heap_table(21), [(0, 1), (1, 2), (0, 3)], heap_table(19), 13, (5, 3, 1, 7, 0, 6, 4, 2));
}

proof fn lemma_chart_428()
    ensures
        chart_signature([(0, 1), (1, 2), (0, 3)], heap_table(20)) == chart_signature([(0, 2), (0, 3), (1, 2)], heap_table(18)),
{
    lemma_heap_entries();
    lemma_codes_of_word_17(heap_table(20));
    lemma_codes_of_word_3(heap_table(18));
    lemma_charts_agree_through([(0, 2), (0, 3), (1, 2)], heap_table(18), [(0, 1), (1, 2), (0, 3)], heap_table(20), 13, (5, 3, 1, 7, 0, 6, 4, 2));
}

proof fn lemma_chart_429()
    ensures
        chart_signature([(0, 1), (1, 2), (0, 3)], heap_table(21)) == chart_signature([(0, 2), (0, 3), (1, 2)], heap_table(18)),
{
    lemma_heap_entries();
    lemma_codes_of_word_17(heap_table(21));
    lemma_codes_of_word_3(heap_table(18));
    lemma_charts_agree_through([(0, 2), (0, 3), (1, 2)], heap_table(18), [(0, 1), (1, 2), (0, 3)], heap_table(21), 12, (3, 5, 0, 6, 1, 7, 2, 4));
}

proof fn lemma_chart_430()
    ensures
        chart_signature([(0, 1), (1, 2), (0, 3)], heap_table(22)) == chart_signature([(0, 2), (0, 3), (1, 2)], heap_table(19)),
{
    lemma_heap_entries();
    lemma_codes_of_word_17(heap_table(22));
    lemma_codes_of_word_3(heap_table(19));
    lemma_charts_agree_through([(0, 2), (0, 3), (1, 2)], heap_table(19), [(0, 1), (1, 2), (0, 3)], heap_table(22), 12, (3, 5, 0, 6, 1, 7, 2, 4));
}

proof fn lemma_chart_431()
    ensures
        chart_signature([(0, 1), (1, 2), (0, 3)], heap_table(23)) == chart_signature([(0, 2), (0, 3), (1, 2)], heap_table(19)),
{
    lemma_heap_entries();
    lemma_codes_of_word_17(heap_table(23));
    lemma_codes_of_word_3(heap_table(19));
    lemma_charts_agree_through([(0, 2), (0, 3), (1, 2)], heap_table(19), [(0, 1), (1, 2), (0, 3)], heap_table(23), 13, (5, 3, 1, 7, 0, 6, 4, 2));
}

/// Every chart of atlas word 17 shares its signature with the first chart
/// of a class below 216.
pub proof fn lemma_charts_of_word_17()
    ensures
        forall|t: int| 408 <= t < 432 ==> #[trigger] meets_class_below(t, 216),
{
    lemma_census_words();
    assert forall|t: int| 408 <= t < 432 implies #[trigger] meets_class_below(t, 216) by {
        if t == 408 { lemma_chart_408(); assert(atlas_signatures()[class_rep(38)] == atlas_signatures()[408]); }
        else if t == 409 { lemma_chart_409(); assert(atlas_signatures()[class_rep(38)] == atlas_signatures()[409]); }
        else if t == 410 { lemma_chart_410(); assert(atlas_signatures()[class_rep(36)] == atlas_signatures()[410]); }
        else if t == 411 { lemma_chart_411(); assert(atlas_signatures()[class_rep(36)] == atlas_signatures()[411]); }
        else if t == 412 { lemma_chart_412(); assert(atlas_signatures()[class_rep(37)] == atlas_signatures()[412]); }
        else if t == 413 { lemma_chart_413(); assert(atlas_signatures()[class_rep(37)] == atlas_signatures()[413]); }
        else if t == 414 { lemma_chart_414(); assert(atlas_signatures()[class_rep(41)] == atlas_signatures()[414]); }
        else if t == 415 { lemma_chart_415(); assert(atlas_signatures()[class_rep(41)] == atlas_signatures()[415]); }
        else if t == 416 { lemma_chart_416(); assert(atlas_signatures()[class_rep(39)] == atlas_signatures()[416]); }
        else if t == 417 { lemma_chart_417(); assert(atlas_signatures()[class_rep(39)] == atlas_signatures()[417]); }
        else if t == 418 { lemma_chart_418(); assert(atlas_signatures()[class_rep(40)] == atlas_signatures()[418]); }
        else if t == 419 { lemma_chart_419(); assert(atlas_signatures()[class_rep(40)] == atlas_signatures()[419]); }
        else if t == 420 { lemma_chart_420(); assert(atlas_signatures()[class_rep(44)] == atlas_signatures()[420]); }
        else if t == 421 { lemma_chart_421(); assert(atlas_signatures()[class_rep(44)] == atlas_signatures()[421]); }
        else if t == 422 { lemma_chart_422(); assert(atlas_signatures()[class_rep(42)] == atlas_signatures()[422]); }
        else if t == 423 { lemma_chart_423(); assert(atlas_signatures()[class_rep(42)] == atlas_signatures()[423]); }
        else if t == 424 { lemma_chart_424(); assert(atlas_signatures()[class_rep(43)] == atlas_signatures()[424]); }
        else if t == 425 { lemma_chart_425(); assert(atlas_signatures()[class_rep(43)] == atlas_signatures()[425]); }
        else if t == 426 { lemma_chart_426(); assert(atlas_signatures()[class_rep(47)] == atlas_signatures()[426]); }
        else if t == 427 { lemma_chart_427(); assert(atlas_signatures()[class_rep(47)] == atlas_signatures()[427]); }
        else if t == 428 { lemma_chart_428(); assert(atlas_signatures()[class_rep(45)] == atlas_signatures()[428]); }
        else if t == 429 { lemma_chart_429(); assert(atlas_signatures()[class_rep(45)] == atlas_signatures()[429]); }
        else if t == 430 { lemma_chart_430(); assert(atlas_signatures()[class_rep(46)] == atlas_signatures()[430]); }
        else { lemma_chart_431(); assert(atlas_signatures()[class_rep(46)] == atlas_signatures()[431]); }
    }
}

proof fn lemma_chart_432()
    ensures
        chart_signature([(0, 1), (1, 3), (0, 2)], heap_table(0)) == chart_signature([(0, 1), (0, 2), (1, 3)], heap_table(0)),
{
    lemma_heap_entries();
    lemma_codes_of_word_18(heap_table(0));
    lemma_codes_of_word_7(heap_table(0));
    lemma_charts_agree_through([(0, 1), (0, 2), (1, 3)], heap_table(0), [(0, 1), (1, 3), (0, 2)], heap_table(0), 8, (0, 1, 3, 2, 5, 4, 6, 7));
}

proof fn lemma_chart_433()
    ensures
        chart_signature([(0, 1), (1, 3), (0, 2)], heap_table(1)) == chart_signature([(0, 1), (0, 2), (1, 3)], heap_table(0)),
{
    lemma_heap_entries();
    lemma_codes_of_word_18(heap_table(1));
    lemma_codes_of_word_7(heap_table(0));
    lemma_charts_agree_through([(0, 1), (0, 2), (1, 3)], heap_table(0), [(0, 1), (1, 3), (0, 2)], heap_table(1), 9, (1, 0, 5, 4, 3, 2, 7, 6));
}

proof fn lemma_chart_434()
    ensures
        chart_signature([(0, 1), (1, 3), (0, 2)], heap_table(2)) == chart_signature([(0, 1), (0, 2), (1, 3)], heap_table(2)),
{
    lemma_heap_entries();
    lemma_codes_of_word_18(heap_table(2));
    lemma_codes_of_word_7(heap_table(2));
    lemma_charts_agree_through([(0, 1), (0, 2), (1, 3)], heap_table(2), [(0, 1), (1, 3), (0, 2)], heap_table(2), 8, (0, 1, 3, 2, 5, 4, 6, 7));
}

proof fn lemma_chart_435()
    ensures
        chart_signature([(0, 1), (1, 3), (0, 2)], heap_table(3)) == chart_signature([(0, 1), (0, 2), (1, 3)], heap_table(2)),
{
    lemma_heap_entries();
    lemma_codes_of_word_18(heap_table(3));
    lemma_codes_of_word_7(heap_table(2));
    lemma_charts_agree_through([(0, 1), (0, 2), (1, 3)], heap_table(2), [(0, 1), (1, 3), (0, 2)], heap_table(3), 9, (1, 0, 5, 4, 3, 2, 7, 6));
}

proof fn lemma_chart_436()
    ensures
        chart_signature([(0, 1), (1, 3), (0, 2)], heap_table(4)) == chart_signature([(0, 1), (0, 2), (1, 3)], heap_table(4)),
{
    lemma_heap_entries();
    lemma_codes_of_word_18(heap_table(4));
    lemma_codes_of_word_7(heap_table(4));
    lemma_charts_agree_through([(0, 1), (0, 2), (1, 3)], heap_table(4), [(0, 1), (1, 3), (0, 2)], heap_table(4), 8, (0, 1, 3, 2, 5, 4, 6, 7));
}

proof fn lemma_chart_437()
    ensures
        chart_signature([(0, 1), (1, 3), (0, 2)], heap_table(5)) == chart_signature([(0, 1), (0, 2), (1, 3)], heap_table(4)),
{
    lemma_heap_entries();
    lemma_codes_of_word_18(heap_table(5));
    lemma_codes_of_word_7(heap_table(4));
    lemma_charts_agree_through([(0, 1), (0, 2), (1, 3)], heap_table(4), [(0, 1), (1, 3), (0, 2)], heap_table(5), 9, (1, 0, 5, 4, 3, 2, 7, 6));
}

proof fn lemma_chart_438()
    ensures
        chart_signature([(0, 1), (1, 3), (0, 2)], heap_table(6)) == chart_signature([(0, 1), (0, 2), (1, 3)], heap_table(6)),
{
    lemma_heap_entries();
    lemma_codes_of_word_18(heap_table(6));
    lemma_codes_of_word_7(heap_table(6));
    lemma_charts_agree_through([(0, 1), (0, 2), (1, 3)], heap_table(6), [(0, 1), (1, 3), (0, 2)], heap_table(6), 8, (0, 1, 3, 2, 5, 4, 6, 7));
}

proof fn lemma_chart_439()
    ensures
        chart_signature([(0, 1), (1, 3), (0, 2)], heap_table(7)) == chart_signature([(0, 1), (0, 2), (1, 3)], heap_table(6)),
{
    lemma_heap_entries();
    lemma_codes_of_word_18(heap_table(7));
    lemma_codes_of_word_7(heap_table(6));
    lemma_charts_agree_through([(0, 1), (0, 2), (1, 3)], heap_table(6), [(0, 1), (1, 3), (0, 2)], heap_table(7), 9, (1, 0, 5, 4, 3, 2, 7, 6));
}

proof fn lemma_chart_440()
    ensures
        chart_signature([(0, 1), (1, 3), (0, 2)], heap_table(8)) == chart_signature([(0, 1), (0, 2), (1, 3)], heap_table(8)),
{
    lemma_heap_entries();
    lemma_codes_of_word_18(heap_table(8));
    lemma_codes_of_word_7(heap_table(8));
    lemma_charts_agree_through([(0, 1), (0, 2), (1, 3)], heap_table(8), [(0, 1), (1, 3), (0, 2)], heap_table(8), 8, (0, 1, 3, 2, 5, 4, 6, 7));
}

proof fn lemma_chart_441()
    ensures
        chart_signature([(0, 1), (1, 3), (0, 2)], heap_table(9)) == chart_signature([(0, 1), (0, 2), (1, 3)], heap_table(8)),
{
    lemma_heap_entries();
    lemma_codes_of_word_18(heap_table(9));
    lemma_codes_of_word_7(heap_table(8));
    lemma_charts_agree_through([(0, 1), (0, 2), (1, 3)], heap_table(8), [(0, 1), (1, 3), (0, 2)], heap_table(9), 9, (1, 0, 5, 4, 3, 2, 7, 6));
}

proof fn lemma_chart_442()
    ensures
        chart_signature([(0, 1), (1, 3), (0, 2)], heap_table(10)) == chart_signature([(0, 1), (0, 2), (1, 3)], heap_table(10)),
{
    lemma_heap_entries();
    lemma_codes_of_word_18(heap_table(10));
    lemma_codes_of_word_7(heap_table(10));
    lemma_charts_agree_through([(0, 1), (0, 2), (1, 3)], heap_table(10), [(0, 1), (1, 3), (0, 2)], heap_table(10), 8, (0, 1, 3, 2, 5, 4, 6, 7));
}

proof fn lemma_chart_443()
    ensures
        chart_signature([(0, 1), (1, 3), (0, 2)], heap_table(11)) == chart_signature([(0, 1), (0, 2), (1, 3)], heap_table(10)),
{
    lemma_heap_entries();
    lemma_codes_of_word_18(heap_table(11));
    lemma_codes_of_word_7(heap_table(10));
    lemma_charts_agree_through([(0, 1), (0, 2), (1, 3)], heap_table(10), [(0, 1), (1, 3), (0, 2)], heap_table(11), 9, (1, 0, 5, 4, 3, 2, 7, 6));
}

proof fn lemma_chart_444()
    ensures
        chart_signature([(0, 1), (1, 3), (0, 2)], heap_table(12)) == chart_signature([(0, 1), (0, 2), (1, 3)], heap_table(12)),
{
    lemma_heap_entries();
    lemma_codes_of_word_18(heap_table(12));
    lemma_codes_of_word_7(heap_table(12));
    lemma_charts_agree_through([(0, 1), (0, 2), (1, 3)], heap_table(12), [(0, 1), (1, 3), (0, 2)], heap_table(12), 8, (0, 1, 3, 2, 5, 4, 6, 7));
}

proof fn lemma_chart_445()
    ensures
        chart_signature([(0, 1), (1, 3), (0, 2)], heap_table(13)) == chart_signature([(0, 1), (0, 2), (1, 3)], heap_table(12)),
{
    lemma_heap_entries();
    lemma_codes_of_word_18(heap_table(13));
    lemma_codes_of_word_7(heap_table(12));
    lemma_charts_agree_through([(0, 1), (0, 2), (1, 3)], heap_table(12), [(0, 1), (1, 3), (0, 2)], heap_table(13), 9, (1, 0, 5, 4, 3, 2, 7, 6));
}

proof fn lemma_chart_446()
    ensures
        chart_signature([(0, 1), (1, 3), (0, 2)], heap_table(14)) == chart_signature([(0, 1), (0, 2), (1, 3)], heap_table(14)),
{
    lemma_heap_entries();
    lemma_codes_of_word_18(heap_table(14));
    lemma_codes_of_word_7(heap_table(14));
    lemma_charts_agree_through([(0, 1), (0, 2), (1, 3)], heap_table(14), [(0, 1), (1, 3), (0, 2)], heap_table(14), 8, (0, 1, 3, 2, 5, 4, 6, 7));
}

proof fn lemma_chart_447()
    ensures
        chart_signature([(0, 1), (1, 3), (0, 2)], heap_table(15)) == chart_signature([(0, 1), (0, 2), (1, 3)], heap_table(14)),
{
    lemma_heap_entries();
    lemma_codes_of_word_18(heap_table(15));
    lemma_codes_of_word_7(heap_table(14));
    lemma_charts_agree_through([(0, 1), (0, 2), (1, 3)], heap_table(14), [(0, 1), (1, 3), (0, 2)], heap_table(15), 9, (1, 0, 5, 4, 3, 2, 7, 6));
}

proof fn lemma_chart_448()
    ensures
        chart_signature([(0, 1), (1, 3), (0, 2)], heap_table(16)) == chart_signature([(0, 1), (0, 2), (1, 3)], heap_table(16)),
{
    lemma_heap_entries();
    lemma_codes_of_word_18(heap_table(16));
    lemma_codes_of_word_7(heap_table(16));
    lemma_charts_agree_through([(0, 1), (0, 2), (1, 3)], heap_table(16), [(0, 1), (1, 3), (0, 2)], heap_table(16), 8, (0, 1, 3, 2, 5, 4, 6, 7));
}

proof fn lemma_chart_449()
    ensures
        chart_signature([(0, 1), (1, 3), (0, 2)], heap_table(17)) == chart_signature([(0, 1), (0, 2), (1, 3)], heap_table(16)),
{
    lemma_heap_entries();
    lemma_codes_of_word_18(heap_table(17));
    lemma_codes_of_word_7(heap_table(16));
    lemma_charts_agree_through([(0, 1), (0, 2), (1, 3)], heap_table(16), [(0, 1), (1, 3), (0, 2)], heap_table(17), 9, (1, 0, 5, 4, 3, 2, 7, 6));
}

proof fn lemma_chart_450()
    ensures
        chart_signature([(0, 1), (1, 3), (0, 2)], heap_table(18)) == chart_signature([(0, 1), (0, 2), (1, 3)], heap_table(18)),
{
    lemma_heap_entries();
    lemma_codes_of_word_18(heap_table(18));
    lemma_codes_of_word_7(heap_table(18));
    lemma_charts_agree_through([(0, 1), (0, 2), (1, 3)], heap_table(18), [(0, 1), (1, 3), (0, 2)], heap_table(18), 8, (0, 1, 3, 2, 5, 4, 6, 7));
}

proof fn lemma_chart_451()
    ensures
        chart_signature([(0, 1), (1, 3), (0, 2)], heap_table(19)) == chart_signature([(0, 1), (0, 2), (1, 3)], heap_table(18)),
{
    lemma_heap_entries();
    lemma_codes_of_word_18(heap_table(19));
    lemma_codes_of_word_7(heap_table(18));
    lemma_charts_agree_through([(0, 1), (0, 2), (1, 3)], heap_table(18), [(0, 1), (1, 3), (0, 2)], heap_table(19), 9, (1, 0, 5, 4, 3, 2, 7, 6));
}

proof fn lemma_chart_452()
    ensures
        chart_signature([(0, 1), (1, 3), (0, 2)], heap_table(20)) == chart_signature([(0, 1), (0, 2), (1, 3)], heap_table(20)),
{
    lemma_heap_entries();
    lemma_codes_of_word_18(heap_table(20));
    lemma_codes_of_word_7(heap_table(20));
    lemma_charts_agree_through([(0, 1), (0, 2), (1, 3)], heap_table(20), [(0, 1), (1, 3), (0, 2)], heap_table(20), 8, (0, 1, 3, 2, 5, 4, 6, 7));
}

proof fn lemma_chart_453()
    ensures
        chart_signature([(0, 1), (1, 3), (0, 2)], heap_table(21)) == chart_signature([(0, 1), (0, 2), (1, 3)], heap_table(20)),
{
    lemma_heap_entries();
    lemma_codes_of_word_18(heap_table(21));
    lemma_codes_of_word_7(heap_table(20));
    lemma_charts_agree_through([(0, 1), (0, 2), (1, 3)], heap_table(20), [(0, 1), (1, 3), (0, 2)], heap_table(21), 9, (1, 0, 5, 4, 3, 2, 7, 6));
}

proof fn lemma_chart_454()
    ensures
        chart_signature([(0, 1), (1, 3), (0, 2)], heap_table(22)) == chart_signature([(0, 1), (0, 2), (1, 3)], heap_table(22)),
{
    lemma_heap_entries();
    lemma_codes_of_word_18(heap_table(22));
    lemma_codes_of_word_7(heap_table(22));
    lemma_charts_agree_through([(0, 1), (0, 2), (1, 3)], heap_table(22), [(0, 1), (1, 3), (0, 2)], heap_table(22), 8, (0, 1, 3, 2, 5, 4, 6, 7));
}

proof fn lemma_chart_455()
    ensures
        chart_signature([(0, 1), (1, 3), (0, 2)], heap_table(23)) == chart_signature([(0, 1), (0, 2), (1, 3)], heap_table(22)),
{
    lemma_heap_entries();
    lemma_codes_of_word_18(heap_table(23));
    lemma_codes_of_word_7(heap_table(22));
    lemma_charts_agree_through([(0, 1), (0, 2), (1, 3)], heap_table(22), [(0, 1), (1, 3), (0, 2)], heap_table(23), 9, (1, 0, 5, 4, 3, 2, 7, 6));
}

/// Every chart of atlas word 18 shares its signature with the first chart
/// of a class below 216.
pub proof fn lemma_charts_of_word_18()
    ensures
        forall|t: int| 432 <= t < 456 ==> #[trigger] meets_class_below(t, 216),
{
    lemma_census_words();
    assert forall|t: int| 432 <= t < 456 implies #[trigger] meets_class_below(t, 216) by {
        if t == 432 { lemma_chart_432(); assert(atlas_signatures()[class_rep(72)] == atlas_signatures()[432]); }
        else if t == 433 { lemma_chart_433(); assert(atlas_signatures()[class_rep(72)] == atlas_signatures()[433]); }
        else if t == 434 { lemma_chart_434(); assert(atlas_signatures()[class_rep(73)] == atlas_signatures()[434]); }
        else if t == 435 { lemma_chart_435(); assert(atlas_signatures()[class_rep(73)] == atlas_signatures()[435]); }
        else if t == 436 { lemma_chart_436(); assert(atlas_signatures()[class_rep(74)] == atlas_signatures()[436]); }
        else if t == 437 { lemma_chart_437(); assert(atlas_signatures()[class_rep(74)] == atlas_signatures()[437]); }
        else if t == 438 { lemma_chart_438(); assert(atlas_signatures()[class_rep(75)] == atlas_signatures()[438]); }
        else if t == 439 { lemma_chart_439(); assert(atlas_signatures()[class_rep(75)] == atlas_signatures()[439]); }
        else if t == 440 { lemma_chart_440(); assert(atlas_signatures()[class_rep(76)] == atlas_signatures()[440]); }
        else if t == 441 { lemma_chart_441(); assert(atlas_signatures()[class_rep(76)] == atlas_signatures()[441]); }
        else if t == 442 { lemma_chart_442(); assert(atlas_signatures()[class_rep(77)] == atlas_signatures()[442]); }
        else if t == 443 { lemma_chart_443(); assert(atlas_signatures()[class_rep(77)] == atlas_signatures()[443]); }
        else if t == 444 { lemma_chart_444(); assert(atlas_signatures()[class_rep(78)] == atlas_signatures()[444]); }
        else if t == 445 { lemma_chart_445(); assert(atlas_signatures()[class_rep(78)] == atlas_signatures()[445]); }
        else if t == 446 { lemma_chart_446(); assert(atlas_signatures()[class_rep(79)] == atlas_signatures()[446]); }
        else if t == 447 { lemma_chart_447(); assert(atlas_signatures()[class_rep(79)] == atlas_signatures()[447]); }
        else if t == 448 { lemma_chart_448(); assert(atlas_signatures()[class_rep(80)] == atlas_signatures()[448]); }
        else if t == 449 { lemma_chart_449(); assert(atlas_signatures()[class_rep(80)] == atlas_signatures()[449]); }
        else if t == 450 { lemma_chart_450(); assert(atlas_signatures()[class_rep(81)] == atlas_signatures()[450]); }
        else if t == 451 { lemma_chart_451(); assert(atlas_signatures()[class_rep(81)] == atlas_signatures()[451]); }
        else if t == 452 { lemma_chart_452(); assert(atlas_signatures()[class_rep(82)] == atlas_signatures()[452]); }
        else if t == 453 { lemma_chart_453(); assert(atlas_signatures()[class_rep(82)] == atlas_signatures()[453]); }
        else if t == 454 { lemma_chart_454(); assert(atlas_signatures()[class_rep(83)] == atlas_signatures()[454]); }
        else { lemma_chart_455(); assert(atlas_signatures()[class_rep(83)] == atlas_signatures()[455]); }
    }
}

proof fn lemma_chart_457()
    ensures
        chart_signature([(0, 1), (1, 3), (1, 2)], heap_table(1)) == chart_signature([(0, 1), (1, 3), (1, 2)], heap_table(0)),
{
    lemma_heap_entries();
    lemma_codes_of_word_19(heap_table(1));
    lemma_codes_of_word_19(heap_table(0));
    lemma_charts_agree_through([(0, 1), (1, 3), (1, 2)], heap_table(0), [(0, 1), (1, 3), (1, 2)], heap_table(1), 1, (1, 0, 4, 5, 2, 3, 7, 6));
}

proof fn lemma_chart_459()
    ensures
        chart_signature([(0, 1), (1, 3), (1, 2)], heap_table(3)) == chart_signature([(0, 1), (1, 3), (1, 2)], heap_table(2)),
{
    lemma_heap_entries();
    lemma_codes_of_word_19(heap_table(3));
    lemma_codes_of_word_19(heap_table(2));
    lemma_charts_agree_through([(0, 1), (1, 3), (1, 2)], heap_table(2), [(0, 1), (1, 3), (1, 2)], heap_table(3), 1, (1, 0, 4, 5, 2, 3, 7, 6));
}

proof fn lemma_chart_461()
    ensures
        chart_signature([(0, 1), (1, 3), (1, 2)], heap_table(5)) == chart_signature([(0, 1), (1, 3), (1, 2)], heap_table(4)),
{
    lemma_heap_entries();
    lemma_codes_of_word_19(heap_table(5));
    lemma_codes_of_word_19(heap_table(4));
    lemma_charts_agree_through([(0, 1), (1, 3), (1, 2)], heap_table(4), [(0, 1), (1, 3), (1, 2)], heap_table(5), 1, (1, 0, 4, 5, 2, 3, 7, 6));
}

proof fn lemma_chart_463()
    ensures
        chart_signature([(0, 1), (1, 3), (1, 2)], heap_table(7)) == chart_signature([(0, 1), (1, 3), (1, 2)], heap_table(6)),
{
    lemma_heap_entries();
    lemma_codes_of_word_19(heap_table(7));
    lemma_codes_of_word_19(heap_table(6));
    lemma_charts_agree_through([(0, 1), (1, 3), (1, 2)], heap_table(6), [(0, 1), (1, 3), (1, 2)], heap_table(7), 1, (1, 0, 4, 5, 2, 3, 7, 6));
}

proof fn lemma_chart_465()
    ensures
        chart_signature([(0, 1), (1, 3), (1, 2)], heap_table(9)) == chart_signature([(0, 1), (1, 3), (1, 2)], heap_table(8)),
{
    lemma_heap_entries();
    lemma_codes_of_word_19(heap_table(9));
    lemma_codes_of_word_19(heap_table(8));
    lemma_charts_agree_through([(0, 1), (1, 3), (1, 2)], heap_table(8), [(0, 1), (1, 3), (1, 2)], heap_table(9), 1, (1, 0, 4, 5, 2, 3, 7, 6));
}

proof fn lemma_chart_467()
    ensures
        chart_signature([(0, 1), (1, 3), (1, 2)], heap_table(11)) == chart_signature([(0, 1), (1, 3), (1, 2)], heap_table(10)),
{
    lemma_heap_entries();
    lemma_codes_of_word_19(heap_table(11));
    lemma_codes_of_word_19(heap_table(10));
    lemma_charts_agree_through([(0, 1), (1, 3), (1, 2)], heap_table(10), [(0, 1), (1, 3), (1, 2)], heap_table(11), 1, (1, 0, 4, 5, 2, 3, 7, 6));
}

proof fn lemma_chart_469()
    ensures
        chart_signature([(0, 1), (1, 3), (1, 2)], heap_table(13)) == chart_signature([(0, 1), (1, 3), (1, 2)], heap_table(12)),
{
    lemma_heap_entries();
    lemma_codes_of_word_19(heap_table(13));
    lemma_codes_of_word_19(heap_table(12));
    lemma_charts_agree_through([(0, 1), (1, 3), (1, 2)], heap_table(12), [(0, 1), (1, 3), (1, 2)], heap_table(13), 1, (1, 0, 4, 5, 2, 3, 7, 6));
}

proof fn lemma_chart_471()
    ensures
        chart_signature([(0, 1), (1, 3), (1, 2)], heap_table(15)) == chart_signature([(0, 1), (1, 3), (1, 2)], heap_table(14)),
{
    lemma_heap_entries();
    lemma_codes_of_word_19(heap_table(15));
    lemma_codes_of_word_19(heap_table(14));
    lemma_charts_agree_through([(0, 1), (1, 3), (1, 2)], heap_table(14), [(0, 1), (1, 3), (1, 2)], heap_table(15), 1, (1, 0, 4, 5, 2, 3, 7, 6));
}

proof fn lemma_chart_473()
    ensures
        chart_signature([(0, 1), (1, 3), (1, 2)], heap_table(17)) == chart_signature([(0, 1), (1, 3), (1, 2)], heap_table(16)),
{
    lemma_heap_entries();
    lemma_codes_of_word_19(heap_table(17));
    lemma_codes_of_word_19(heap_table(16));
    lemma_charts_agree_through([(0, 1), (1, 3), (1, 2)], heap_table(16), [(0, 1), (1, 3), (1, 2)], heap_table(17), 1, (1, 0, 4, 5, 2, 3, 7, 6));
}

proof fn lemma_chart_475()
    ensures
        chart_signature([(0, 1), (1, 3), (1, 2)], heap_table(19)) == chart_signature([(0, 1), (1, 3), (1, 2)], heap_table(18)),
{
    lemma_heap_entries();
    lemma_codes_of_word_19(heap_table(19));
    lemma_codes_of_word_19(heap_table(18));
    lemma_charts_agree_through([(0, 1), (1, 3), (1, 2)], heap_table(18), [(0, 1), (1, 3), (1, 2)], heap_table(19), 1, (1, 0, 4, 5, 2, 3, 7, 6));
}

proof fn lemma_chart_477()
    ensures
        chart_signature([(0, 1), (1, 3), (1, 2)], heap_table(21)) == chart_signature([(0, 1), (1, 3), (1, 2)], heap_table(20)),
{
    lemma_heap_entries();
    lemma_codes_of_word_19(heap_table(21));
    lemma_codes_of_word_19(heap_table(20));
    lemma_charts_agree_through([(0, 1), (1, 3), (1, 2)], heap_table(20), [(0, 1), (1, 3), (1, 2)], heap_table(21), 1, (1, 0, 4, 5, 2, 3, 7, 6));
}

proof fn lemma_chart_479()
    ensures
        chart_signature([(0, 1), (1, 3), (1, 2)], heap_table(23)) == chart_signature([(0, 1), (1, 3), (1, 2)], heap_table(22)),
{
    lemma_heap_entries();
    lemma_codes_of_word_19(heap_table(23));
    lemma_codes_of_word_19(heap_table(22));
    lemma_charts_agree_through([(0, 1), (1, 3), (1, 2)], heap_table(22), [(0, 1), (1, 3), (1, 2)], heap_table(23), 1, (1, 0, 4, 5, 2, 3, 7, 6));
}

/// Every chart of atlas word 19 shares its signature with the first chart
/// of a class below 216.
pub proof fn lemma_charts_of_word_19()
    ensures
        forall|t: int| 456 <= t < 480 ==> #[trigger] meets_class_below(t, 216),
{
    lemma_census_words();
    assert forall|t: int| 456 <= t < 480 implies #[trigger] meets_class_below(t, 216) by {
        if t == 456 { assert(atlas_signatures()[class_rep(114)] == atlas_signatures()[456]); }
        else if t == 457 { lemma_chart_457(); assert(atlas_signatures()[class_rep(114)] == atlas_signatures()[457]); }
        else if t == 458 { assert(atlas_signatures()[class_rep(115)] == atlas_signatures()[458]); }
        else if t == 459 { lemma_chart_459(); assert(atlas_signatures()[class_rep(115)] == atlas_signatures()[459]); }
        else if t == 460 { assert(atlas_signatures()[class_rep(116)] == atlas_signatures()[460]); }
        else if t == 461 { lemma_chart_461(); assert(atlas_signatures()[class_rep(116)] == atlas_signatures()[461]); }
        else if t == 462 { assert(atlas_signatures()[class_rep(117)] == atlas_signatures()[462]); }
        else if t == 463 { lemma_chart_463(); assert(atlas_signatures()[class_rep(117)] == atlas_signatures()[463]); }
        else if t == 464 { assert(atlas_signatures()[class_rep(118)] == atlas_signatures()[464]); }
        else if t == 465 { lemma_chart_465(); assert(atlas_signatures()[class_rep(118)] == atlas_signatures()[465]); }
        else if t == 466 { assert(atlas_signatures()[class_rep(119)] == atlas_signatures()[466]); }
        else if t == 467 { lemma_chart_467(); assert(atlas_signatures()[class_rep(119)] == atlas_signatures()[467]); }
        else if t == 468 { assert(atlas_signatures()[class_rep(120)] == atlas_signatures()[468]); }
        else if t == 469 { lemma_chart_469(); assert(atlas_signatures()[class_rep(120)] == atlas_signatures()[469]); }
        else if t == 470 { assert(atlas_signatures()[class_rep(121)] == atlas_signatures()[470]); }
        else if t == 471 { lemma_chart_471(); assert(atlas_signatures()[class_rep(121)] == atlas_signatures()[471]); }
        else if t == 472 { assert(atlas_signatures()[class_rep(122)] == atlas_signatures()[472]); }
        else if t == 473 { lemma_chart_473(); assert(atlas_signatures()[class_rep(122)] == atlas_signatures()[473]); }
        else if t == 474 { assert(atlas_signatures()[class_rep(123)] == atlas_signatures()[474]); }
        else if t == 475 { lemma_chart_475(); assert(atlas_signatures()[class_rep(123)] == atlas_signatures()[475]); }
        else if t == 476 { assert(atlas_signatures()[class_rep(124)] == atlas_signatures()[476]); }
        else if t == 477 { lemma_chart_477(); assert(atlas_signatures()[class_rep(124)] == atlas_signatures()[477]); }
        else if t == 478 { assert(atlas_signatures()[class_rep(125)] == atlas_signatures()[478]); }
        else { lemma_chart_479(); assert(atlas_signatures()[class_rep(125)] == atlas_signatures()[479]); }
    }
}

proof fn lemma_chart_481()
    ensures
        chart_signature([(0, 1), (2, 3), (0, 2)], heap_table(1)) == chart_signature([(0, 1), (2, 3), (0, 2)], heap_table(0)),
{
    lemma_heap_entries();
    lemma_codes_of_word_20(heap_table(1));
    lemma_codes_of_word_20(heap_table(0));
    lemma_charts_agree_through([(0, 1), (2, 3), (0, 2)], heap_table(0), [(0, 1), (2, 3), (0, 2)], heap_table(1), 1, (1, 0, 4, 5, 2, 3, 7, 6));
}

proof fn lemma_chart_483()
    ensures
        chart_signature([(0, 1), (2, 3), (0, 2)], heap_table(3)) == chart_signature([(0, 1), (2, 3), (0, 2)], heap_table(2)),
{
    lemma_heap_entries();
    lemma_codes_of_word_20(heap_table(3));
    lemma_codes_of_word_20(heap_table(2));
    lemma_charts_agree_through([(0, 1), (2, 3), (0, 2)], heap_table(2), [(0, 1), (2, 3), (0, 2)], heap_table(3), 1, (1, 0, 4, 5, 2, 3, 7, 6));
}

proof fn lemma_chart_485()
    ensures
        chart_signature([(0, 1), (2, 3), (0, 2)], heap_table(5)) == chart_signature([(0, 1), (2, 3), (0, 2)], heap_table(4)),
{
    lemma_heap_entries();
    lemma_codes_of_word_20(heap_table(5));
    lemma_codes_of_word_20(heap_table(4));
    lemma_charts_agree_through([(0, 1), (2, 3), (0, 2)], heap_table(4), [(0, 1), (2, 3), (0, 2)], heap_table(5), 1, (1, 0, 4, 5, 2, 3, 7, 6));
}

proof fn lemma_chart_487()
    ensures
        chart_signature([(0, 1), (2, 3), (0, 2)], heap_table(7)) == chart_signature([(0, 1), (2, 3), (0, 2)], heap_table(6)),
{
    lemma_heap_entries();
    lemma_codes_of_word_20(heap_table(7));
    lemma_codes_of_word_20(heap_table(6));
    lemma_charts_agree_through([(0, 1), (2, 3), (0, 2)], heap_table(6), [(0, 1), (2, 3), (0, 2)], heap_table(7), 1, (1, 0, 4, 5, 2, 3, 7, 6));
}

proof fn lemma_chart_489()
    ensures
        chart_signature([(0, 1), (2, 3), (0, 2)], heap_table(9)) == chart_signature([(0, 1), (2, 3), (0, 2)], heap_table(8)),
{
    lemma_heap_entries();
    lemma_codes_of_word_20(heap_table(9));
    lemma_codes_of_word_20(heap_table(8));
    lemma_charts_agree_through([(0, 1), (2, 3), (0, 2)], heap_table(8), [(0, 1), (2, 3), (0, 2)], heap_table(9), 1, (1, 0, 4, 5, 2, 3, 7, 6));
}

proof fn lemma_chart_490()
    ensures
        chart_signature([(0, 1), (2, 3), (0, 2)], heap_table(10)) == chart_signature([(0, 1), (2, 3), (0, 2)], heap_table(4)),
{
    lemma_heap_entries();
    lemma_codes_of_word_20(heap_table(10));
    lemma_codes_of_word_20(heap_table(4));
    lemma_charts_agree_through([(0, 1), (2, 3), (0, 2)], heap_table(4), [(0, 1), (2, 3), (0, 2)], heap_table(10), 2, (2, 4, 0, 6, 1, 7, 3, 5));
}

proof fn lemma_chart_491()
    ensures
        chart_signature([(0, 1), (2, 3), (0, 2)], heap_table(11)) == chart_signature([(0, 1), (2, 3), (0, 2)], heap_table(4)),
{
    lemma_heap_entries();
    lemma_codes_of_word_20(heap_table(11));
    lemma_codes_of_word_20(heap_table(4));
    lemma_charts_agree_through([(0, 1), (2, 3), (0, 2)], heap_table(4), [(0, 1), (2, 3), (0, 2)], heap_table(11), 3, (4, 2, 1, 7, 0, 6, 5, 3));
}

proof fn lemma_chart_493()
    ensures
        chart_signature([(0, 1), (2, 3), (0, 2)], heap_table(13)) == chart_signature([(0, 1), (2, 3), (0, 2)], heap_table(12)),
{
    lemma_heap_entries();
    lemma_codes_of_word_20(heap_table(13));
    lemma_codes_of_word_20(heap_table(12));
    lemma_charts_agree_through([(0, 1), (2, 3), (0, 2)], heap_table(12), [(0, 1), (2, 3), (0, 2)], heap_table(13), 1, (1, 0, 4, 5, 2, 3, 7, 6));
}

proof fn lemma_chart_494()
    ensures
        chart_signature([(0, 1), (2, 3), (0, 2)], heap_table(14)) == chart_signature([(0, 1), (2, 3), (0, 2)], heap_table(8)),
{
    lemma_heap_entries();
    lemma_codes_of_word_20(heap_table(14));
    lemma_codes_of_word_20(heap_table(8));
    lemma_charts_agree_through([(0, 1), (2, 3), (0, 2)], heap_table(8), [(0, 1), (2, 3), (0, 2)], heap_table(14), 2, (2, 4, 0, 6, 1, 7, 3, 5));
}

proof fn lemma_chart_495()
    ensures
        chart_signature([(0, 1), (2, 3), (0, 2)], heap_table(15)) == chart_signature([(0, 1), (2, 3), (0, 2)], heap_table(8)),
{
    lemma_heap_entries();
    lemma_codes_of_word_20(heap_table(15));
    lemma_codes_of_word_20(heap_table(8));
    lemma_charts_agree_through([(0, 1), (2, 3), (0, 2)], heap_table(8), [(0, 1), (2, 3), (0, 2)], heap_table(15), 3, (4, 2, 1, 7, 0, 6, 5, 3));
}

proof fn lemma_chart_496()
    ensures
        chart_signature([(0, 1), (2, 3), (0, 2)], heap_table(16)) == chart_signature([(0, 1), (2, 3), (0, 2)], heap_table(2)),
{
    lemma_heap_entries();
    lemma_codes_of_word_20(heap_table(16));
    lemma_codes_of_word_20(heap_table(2));
    lemma_charts_agree_through([(0, 1), (2, 3), (0, 2)], heap_table(2), [(0, 1), (2, 3), (0, 2)], heap_table(16), 3, (4, 2, 1, 7, 0, 6, 5, 3));
}

proof fn lemma_chart_497()
    ensures
        chart_signature([(0, 1), (2, 3), (0, 2)], heap_table(17)) == chart_signature([(0, 1), (2, 3), (0, 2)], heap_table(2)),
{
    lemma_heap_entries();
    lemma_codes_of_word_20(heap_table(17));
    lemma_codes_of_word_20(heap_table(2));
    lemma_charts_agree_through([(0, 1), (2, 3), (0, 2)], heap_table(2), [(0, 1), (2, 3), (0, 2)], heap_table(17), 2, (2, 4, 0, 6, 1, 7, 3, 5));
}

proof fn lemma_chart_498()
    ensures
        chart_signature([(0, 1), (2, 3), (0, 2)], heap_table(18)) == chart_signature([(0, 1), (2, 3), (0, 2)], heap_table(12)),
{
    lemma_heap_entries();
    lemma_codes_of_word_20(heap_table(18));
    lemma_codes_of_word_20(heap_table(12));
    lemma_charts_agree_through([(0, 1), (2, 3), (0, 2)], heap_table(12), [(0, 1), (2, 3), (0, 2)], heap_table(18), 2, (2, 4, 0, 6, 1, 7, 3, 5));
}

proof fn lemma_chart_499()
    ensures
        chart_signature([(0, 1), (2, 3), (0, 2)], heap_table(19)) == chart_signature([(0, 1), (2, 3), (0, 2)], heap_table(12)),
{
    lemma_heap_entries();
    lemma_codes_of_word_20(heap_table(19));
    lemma_codes_of_word_20(heap_table(12));
    lemma_charts_agree_through([(0, 1), (2, 3), (0, 2)], heap_table(12), [(0, 1), (2, 3), (0, 2)], heap_table(19), 3, (4, 2, 1, 7, 0, 6, 5, 3));
}

proof fn lemma_chart_500()
    ensures
        chart_signature([(0, 1), (2, 3), (0, 2)], heap_table(20)) == chart_signature([(0, 1), (2, 3), (0, 2)], heap_table(6)),
{
    lemma_heap_entries();
    lemma_codes_of_word_20(heap_table(20));
    lemma_codes_of_word_20(heap_table(6));
    lemma_charts_agree_through([(0, 1), (2, 3), (0, 2)], heap_table(6), [(0, 1), (2, 3), (0, 2)], heap_table(20), 3, (4, 2, 1, 7, 0, 6, 5, 3));
}

proof fn lemma_chart_501()
    ensures
        chart_signature([(0, 1), (2, 3), (0, 2)], heap_table(21)) == chart_signature([(0, 1), (2, 3), (0, 2)], heap_table(6)),
{
    lemma_heap_entries();
    lemma_codes_of_word_20(heap_table(21));
    lemma_codes_of_word_20(heap_table(6));
    lemma_charts_agree_through([(0, 1), (2, 3), (0, 2)], heap_table(6), [(0, 1), (2, 3), (0, 2)], heap_table(21), 2, (2, 4, 0, 6, 1, 7, 3, 5));
}

proof fn lemma_chart_502()
    ensures
        chart_signature([(0, 1), (2, 3), (0, 2)], heap_table(22)) == chart_signature([(0, 1), (2, 3), (0, 2)], heap_table(0)),
{
    lemma_heap_entries();
    lemma_codes_of_word_20(heap_table(22));
    lemma_codes_of_word_20(heap_table(0));
    lemma_charts_agree_through([(0, 1), (2, 3), (0, 2)], heap_table(0), [(0, 1), (2, 3), (0, 2)], heap_table(22), 2, (2, 4, 0, 6, 1, 7, 3, 5));
}

proof fn lemma_chart_503()
    ensures
        chart_signature([(0, 1), (2, 3), (0, 2)], heap_table(23)) == chart_signature([(0, 1), (2, 3), (0, 2)], heap_table(0)),
{
    lemma_heap_entries();
    lemma_codes_of_word_20(heap_table(23));
    lemma_codes_of_word_20(heap_table(0));
    lemma_charts_agree_through([(0, 1), (2, 3), (0, 2)], heap_table(0), [(0, 1), (2, 3), (0, 2)], heap_table(23), 3, (4, 2, 1, 7, 0, 6, 5, 3));
}

/// Every chart of atlas word 20 shares its signature with the first chart
/// of a class below 216.
pub proof fn lemma_charts_of_word_20()
    ensures
        forall|t: int| 480 <= t < 504 ==> #[trigger] meets_class_below(t, 216),
{
    lemma_census_words();
    assert forall|t: int| 480 <= t < 504 implies #[trigger] meets_class_below(t, 216) by {
        if t == 480 { assert(atlas_signatures()[class_rep(126)] == atlas_signatures()[480]); }
        else if t == 481 { lemma_chart_481(); assert(atlas_signatures()[class_rep(126)] == atlas_signatures()[481]); }
        else if t == 482 { assert(atlas_signatures()[class_rep(127)] == atlas_signatures()[482]); }
        else if t == 483 { lemma_chart_483(); assert(atlas_signatures()[class_rep(127)] == atlas_signatures()[483]); }
        else if t == 484 { assert(atlas_signatures()[class_rep(128)] == atlas_signatures()[484]); }
        else if t == 485 { lemma_chart_485(); assert(atlas_signatures()[class_rep(128)] == atlas_signatures()[485]); }
        else if t == 486 { assert(atlas_signatures()[class_rep(129)] == atlas_signatures()[486]); }
        else if t == 487 { lemma_chart_487(); assert(atlas_signatures()[class_rep(129)] == atlas_signatures()[487]); }
        else if t == 488 { assert(atlas_signatures()[class_rep(130)] == atlas_signatures()[488]); }
        else if t == 489 { lemma_chart_489(); assert(atlas_signatures()[class_rep(130)] == atlas_signatures()[489]); }
        else if t == 490 { lemma_chart_490(); assert(atlas_signatures()[class_rep(128)] == atlas_signatures()[490]); }
        else if t == 491 { lemma_chart_491(); assert(atlas_signatures()[class_rep(128)] == atlas_signatures()[491]); }
        else if t == 492 { assert(atlas_signatures()[class_rep(131)] == atlas_signatures()[492]); }
        else if t == 493 { lemma_chart_493(); assert(atlas_signatures()[class_rep(131)] == atlas_signatures()[493]); }
        else if t == 494 { lemma_chart_494(); assert(atlas_signatures()[class_rep(130)] == atlas_signatures()[494]); }
        else if t == 495 { lemma_chart_495(); assert(atlas_signatures()[class_rep(130)] == atlas_signatures()[495]); }
        else if t == 496 { lemma_chart_496(); assert(atlas_signatures()[class_rep(127)] == atlas_signatures()[496]); }
        else if t == 497 { lemma_chart_497(); assert(atlas_signatures()[class_rep(127)] == atlas_signatures()[497]); }
        else if t == 498 { lemma_chart_498(); assert(atlas_signatures()[class_rep(131)] == atlas_signatures()[498]); }
        else if t == 499 { lemma_chart_499(); assert(atlas_signatures()[class_rep(131)] == atlas_signatures()[499]); }
        else if t == 500 { lemma_chart_500(); assert(atlas_signatures()[class_rep(129)] == atlas_signatures()[500]); }
        else if t == 501 { lemma_chart_501(); assert(atlas_signatures()[class_rep(129)] == atlas_signatures()[501]); }
        else if t == 502 { lemma_chart_502(); assert(atlas_signatures()[class_rep(126)] == atlas_signatures()[502]); }
        else { lemma_chart_503(); assert(atlas_signatures()[class_rep(126)] == atlas_signatures()[503]); }
    }
}

proof fn lemma_chart_505()
    ensures
        chart_signature([(0, 1), (2, 3), (0, 3)], heap_table(1)) == chart_signature([(0, 1), (2, 3), (0, 3)], heap_table(0)),
{
    lemma_heap_entries();
    lemma_codes_of_word_21(heap_table(1));
    lemma_codes_of_word_21(heap_table(0));
    lemma_charts_agree_through([(0, 1), (2, 3), (0, 3)], heap_table(0), [(0, 1), (2, 3), (0, 3)], heap_table(1), 1, (1, 0, 4, 5, 2, 3, 7, 6));
}

proof fn lemma_chart_507()
    ensures
        chart_signature([(0, 1), (2, 3), (0, 3)], heap_table(3)) == chart_signature([(0, 1), (2, 3), (0, 3)], heap_table(2)),
{
    lemma_heap_entries();
    lemma_codes_of_word_21(heap_table(3));
    lemma_codes_of_word_21(heap_table(2));
    lemma_charts_agree_through([(0, 1), (2, 3), (0, 3)], heap_table(2), [(0, 1), (2, 3), (0, 3)], heap_table(3), 1, (1, 0, 4, 5, 2, 3, 7, 6));
}

proof fn lemma_chart_509()
    ensures
        chart_signature([(0, 1), (2, 3), (0, 3)], heap_table(5)) == chart_signature([(0, 1), (2, 3), (0, 3)], heap_table(4)),
{
    lemma_heap_entries();
    lemma_codes_of_word_21(heap_table(5));
    lemma_codes_of_word_21(heap_table(4));
    lemma_charts_agree_through([(0, 1), (2, 3), (0, 3)], heap_table(4), [(0, 1), (2, 3), (0, 3)], heap_table(5), 1, (1, 0, 4, 5, 2, 3, 7, 6));
}

proof fn lemma_chart_511()
    ensures
        chart_signature([(0, 1), (2, 3), (0, 3)], heap_table(7)) == chart_signature([(0, 1), (2, 3), (0, 3)], heap_table(6)),
{
    lemma_heap_entries();
    lemma_codes_of_word_21(heap_table(7));
    lemma_codes_of_word_21(heap_table(6));
    lemma_charts_agree_through([(0, 1), (2, 3), (0, 3)], heap_table(6), [(0, 1), (2, 3), (0, 3)], heap_table(7), 1, (1, 0, 4, 5, 2, 3, 7, 6));
}

proof fn lemma_chart_513()
    ensures
        chart_signature([(0, 1), (2, 3), (0, 3)], heap_table(9)) == chart_signature([(0, 1), (2, 3), (0, 3)], heap_table(8)),
{
    lemma_heap_entries();
    lemma_codes_of_word_21(heap_table(9));
    lemma_codes_of_word_21(heap_table(8));
    lemma_charts_agree_through([(0, 1), (2, 3), (0, 3)], heap_table(8), [(0, 1), (2, 3), (0, 3)], heap_table(9), 1, (1, 0, 4, 5, 2, 3, 7, 6));
}

proof fn lemma_chart_514()
    ensures
        chart_signature([(0, 1), (2, 3), (0, 3)], heap_table(10)) == chart_signature([(0, 1), (2, 3), (0, 3)], heap_table(4)),
{
    lemma_heap_entries();
    lemma_codes_of_word_21(heap_table(10));
    lemma_codes_of_word_21(heap_table(4));
    lemma_charts_agree_through([(0, 1), (2, 3), (0, 3)], heap_table(4), [(0, 1), (2, 3), (0, 3)], heap_table(10), 2, (2, 4, 0, 6, 1, 7, 3, 5));
}

proof fn lemma_chart_515()
    ensures
        chart_signature([(0, 1), (2, 3), (0, 3)], heap_table(11)) == chart_signature([(0, 1), (2, 3), (0, 3)], heap_table(4)),
{
    lemma_heap_entries();
    lemma_codes_of_word_21(heap_table(11));
    lemma_codes_of_word_21(heap_table(4));
    lemma_charts_agree_through([(0, 1), (2, 3), (0, 3)], heap_table(4), [(0, 1), (2, 3), (0, 3)], heap_table(11), 3, (4, 2, 1, 7, 0, 6, 5, 3));
}

proof fn lemma_chart_517()
    ensures
        chart_signature([(0, 1), (2, 3), (0, 3)], heap_table(13)) == chart_signature([(0, 1), (2, 3), (0, 3)], heap_table(12)),
{
    lemma_heap_entries();
    lemma_codes_of_word_21(heap_table(13));
    lemma_codes_of_word_21(heap_table(12));
    lemma_charts_agree_through([(0, 1), (2, 3), (0, 3)], heap_table(12), [(0, 1), (2, 3), (0, 3)], heap_table(13), 1, (1, 0, 4, 5, 2, 3, 7, 6));
}

proof fn lemma_chart_518()
    ensures
        chart_signature([(0, 1), (2, 3), (0, 3)], heap_table(14)) == chart_signature([(0, 1), (2, 3), (0, 3)], heap_table(8)),
{
    lemma_heap_entries();
    lemma_codes_of_word_21(heap_table(14));
    lemma_codes_of_word_21(heap_table(8));
    lemma_charts_agree_through([(0, 1), (2, 3), (0, 3)], heap_table(8), [(0, 1), (2, 3), (0, 3)], heap_table(14), 2, (2, 4, 0, 6, 1, 7, 3, 5));
}

proof fn lemma_chart_519()
    ensures
        chart_signature([(0, 1), (2, 3), (0, 3)], heap_table(15)) == chart_signature([(0, 1), (2, 3), (0, 3)], heap_table(8)),
{
    lemma_heap_entries();
    lemma_codes_of_word_21(heap_table(15));
    lemma_codes_of_word_21(heap_table(8));
    lemma_charts_agree_through([(0, 1), (2, 3), (0, 3)], heap_table(8), [(0, 1), (2, 3), (0, 3)], heap_table(15), 3, (4, 2, 1, 7, 0, 6, 5, 3));
}

proof fn lemma_chart_520()
    ensures
        chart_signature([(0, 1), (2, 3), (0, 3)], heap_table(16)) == chart_signature([(0, 1), (2, 3), (0, 3)], heap_table(2)),
{
    lemma_heap_entries();
    lemma_codes_of_word_21(heap_table(16));
    lemma_codes_of_word_21(heap_table(2));
    lemma_charts_agree_through([(0, 1), (2, 3), (0, 3)], heap_table(2), [(0, 1), (2, 3), (0, 3)], heap_table(16), 3, (4, 2, 1, 7, 0, 6, 5, 3));
}

proof fn lemma_chart_521()
    ensures
        chart_signature([(0, 1), (2, 3), (0, 3)], heap_table(17)) == chart_signature([(0, 1), (2, 3), (0, 3)], heap_table(2)),
{
    lemma_heap_entries();
    lemma_codes_of_word_21(heap_table(17));
    lemma_codes_of_word_21(heap_table(2));
    lemma_charts_agree_through([(0, 1), (2, 3), (0, 3)], heap_table(2), [(0, 1), (2, 3), (0, 3)], heap_table(17), 2, (2, 4, 0, 6, 1, 7, 3, 5));
}

proof fn lemma_chart_522()
    ensures
        chart_signature([(0, 1), (2, 3), (0, 3)], heap_table(18)) == chart_signature([(0, 1), (2, 3), (0, 3)], heap_table(12)),
{
    lemma_heap_entries();
    lemma_codes_of_word_21(heap_table(18));
    lemma_codes_of_word_21(heap_table(12));
    lemma_charts_agree_through([(0, 1), (2, 3), (0, 3)], heap_table(12), [(0, 1), (2, 3), (0, 3)], heap_table(18), 2, (2, 4, 0, 6, 1, 7, 3, 5));
}

proof fn lemma_chart_523()
    ensures
        chart_signature([(0, 1), (2, 3), (0, 3)], heap_table(19)) == chart_signature([(0, 1), (2, 3), (0, 3)], heap_table(12)),
{
    lemma_heap_entries();
    lemma_codes_of_word_21(heap_table(19));
    lemma_codes_of_word_21(heap_table(12));
    lemma_charts_agree_through([(0, 1), (2, 3), (0, 3)], heap_table(12), [(0, 1), (2, 3), (0, 3)], heap_table(19), 3, (4, 2, 1, 7, 0, 6, 5, 3));
}

proof fn lemma_chart_524()
    ensures
        chart_signature([(0, 1), (2, 3), (0, 3)], heap_table(20)) == chart_signature([(0, 1), (2, 3), (0, 3)], heap_table(6)),
{
    lemma_heap_entries();
    lemma_codes_of_word_21(heap_table(20));
    lemma_codes_of_word_21(heap_table(6));
    lemma_charts_agree_through([(0, 1), (2, 3), (0, 3)], heap_table(6), [(0, 1), (2, 3), (0, 3)], heap_table(20), 3, (4, 2, 1, 7, 0, 6, 5, 3));
}

proof fn lemma_chart_525()
    ensures
        chart_signature([(0, 1), (2, 3), (0, 3)], heap_table(21)) == chart_signature([(0, 1), (2, 3), (0, 3)], heap_table(6)),
{
    lemma_heap_entries();
    lemma_codes_of_word_21(heap_table(21));
    lemma_codes_of_word_21(heap_table(6));
    lemma_charts_agree_through([(0, 1), (2, 3), (0, 3)], heap_table(6), [(0, 1), (2, 3), (0, 3)], heap_table(21), 2, (2, 4, 0, 6, 1, 7, 3, 5));
}

proof fn lemma_chart_526()
    ensures
        chart_signature([(0, 1), (2, 3), (0, 3)], heap_table(22)) == chart_signature([(0, 1), (2, 3), (0, 3)], heap_table(0)),
{
    lemma_heap_entries();
    lemma_codes_of_word_21(heap_table(22));
    lemma_codes_of_word_21(heap_table(0));
    lemma_charts_agree_through([(0, 1), (2, 3), (0, 3)], heap_table(0), [(0, 1), (2, 3), (0, 3)], heap_table(22), 2, (2, 4, 0, 6, 1, 7, 3, 5));
}

proof fn lemma_chart_527()
    ensures
        chart_signature([(0, 1), (2, 3), (0, 3)], heap_table(23)) == chart_signature([(0, 1), (2, 3), (0, 3)], heap_table(0)),
{
    lemma_heap_entries();
    lemma_codes_of_word_21(heap_table(23));
    lemma_codes_of_word_21(heap_table(0));
    lemma_charts_agree_through([(0, 1), (2, 3), (0, 3)], heap_table(0), [(0, 1), (2, 3), (0, 3)], heap_table(23), 3, (4, 2, 1, 7, 0, 6, 5, 3));
}

/// Every chart of atlas word 21 shares its signature with the first chart
/// of a class below 216.
pub proof fn lemma_charts_of_word_21()
    ensures
        forall|t: int| 504 <= t < 528 ==> #[trigger] meets_class_below(t, 216),
{
    lemma_census_words();
    assert forall|t: int| 504 <= t < 528 implies #[trigger] meets_class_below(t, 216) by {
        if t == 504 { assert(atlas_signatures()[class_rep(132)] == atlas_signatures()[504]); }
        else if t == 505 { lemma_chart_505(); assert(atlas_signatures()[class_rep(132)] == atlas_signatures()[505]); }
        else if t == 506 { assert(atlas_signatures()[class_rep(133)] == atlas_signatures()[506]); }
        else if t == 507 { lemma_chart_507(); assert(atlas_signatures()[class_rep(133)] == atlas_signatures()[507]); }
        else if t == 508 { assert(atlas_signatures()[class_rep(134)] == atlas_signatures()[508]); }
        else if t == 509 { lemma_chart_509(); assert(atlas_signatures()[class_rep(134)] == atlas_signatures()[509]); }
        else if t == 510 { assert(atlas_signatures()[class_rep(135)] == atlas_signatures()[510]); }
        else if t == 511 { lemma_chart_511(); assert(atlas_signatures()[class_rep(135)] == atlas_signatures()[511]); }
        else if t == 512 { assert(atlas_signatures()[class_rep(136)] == atlas_signatures()[512]); }
        else if t == 513 { lemma_chart_513(); assert(atlas_signatures()[class_rep(136)] == atlas_signatures()[513]); }
        else if t == 514 { lemma_chart_514(); assert(atlas_signatures()[class_rep(134)] == atlas_signatures()[514]); }
        else if t == 515 { lemma_chart_515(); assert(atlas_signatures()[class_rep(134)] == atlas_signatures()[515]); }
        else if t == 516 { assert(atlas_signatures()[class_rep(137)] == atlas_signatures()[516]); }
        else if t == 517 { lemma_chart_517(); assert(atlas_signatures()[class_rep(137)] == atlas_signatures()[517]); }
        else if t == 518 { lemma_chart_518(); assert(atlas_signatures()[class_rep(136)] == atlas_signatures()[518]); }
        else if t == 519 { lemma_chart_519(); assert(atlas_signatures()[class_rep(136)] == atlas_signatures()[519]); }
        else if t == 520 { lemma_chart_520(); assert(atlas_signatures()[class_rep(133)] == atlas_signatures()[520]); }
        else if t == 521 { lemma_chart_521(); assert(atlas_signatures()[class_rep(133)] == atlas_signatures()[521]); }
        else if t == 522 { lemma_chart_522(); assert(atlas_signatures()[class_rep(137)] == atlas_signatures()[522]); }
        else if t == 523 { lemma_chart_523(); assert(atlas_signatures()[class_rep(137)] == atlas_signatures()[523]); }
        else if t == 524 { lemma_chart_524(); assert(atlas_signatures()[class_rep(135)] == atlas_signatures()[524]); }
        else if t == 525 { lemma_chart_525(); assert(atlas_signatures()[class_rep(135)] == atlas_signatures()[525]); }
        else if t == 526 { lemma_chart_526(); assert(atlas_signatures()[class_rep(132)] == atlas_signatures()[526]); }
        else { lemma_chart_527(); assert(atlas_signatures()[class_rep(132)] == atlas_signatures()[527]); }
    }
}

proof fn lemma_chart_528()
    ensures
        chart_signature([(0, 1), (2, 3), (1, 2)], heap_table(0)) == chart_signature([(0, 2), (1, 3), (1, 2)], heap_table(3)),
{
    lemma_heap_entries();
    lemma_codes_of_word_22(heap_table(0));
    lemma_codes_of_word_4(heap_table(3));
    lemma_charts_agree_through([(0, 2), (1, 3), (1, 2)], heap_table(3), [(0, 1), (2, 3), (1, 2)], heap_table(0), 4, (3, 5, 6, 0, 7, 1, 2, 4));
}

proof fn lemma_chart_529()
    ensures
        chart_signature([(0, 1), (2, 3), (1, 2)], heap_table(1)) == chart_signature([(0, 2), (1, 3), (1, 2)], heap_table(3)),
{
    lemma_heap_entries();
    lemma_codes_of_word_22(heap_table(1));
    lemma_codes_of_word_4(heap_table(3));
    lemma_charts_agree_through([(0, 2), (1, 3), (1, 2)], heap_table(3), [(0, 1), (2, 3), (1, 2)], heap_table(1), 5, (5, 3, 7, 1, 6, 0, 4, 2));
}

proof fn lemma_chart_530()
    ensures
        chart_signature([(0, 1), (2, 3), (1, 2)], heap_table(2)) == chart_signature([(0, 2), (1, 3), (1, 2)], heap_table(0)),
{
    lemma_heap_entries();
    lemma_codes_of_word_22(heap_table(2));
    lemma_codes_of_word_4(heap_table(0));
    lemma_charts_agree_through([(0, 2), (1, 3), (1, 2)], heap_table(0), [(0, 1), (2, 3), (1, 2)], heap_table(2), 5, (5, 3, 7, 1, 6, 0, 4, 2));
}

proof fn lemma_chart_531()
    ensures
        chart_signature([(0, 1), (2, 3), (1, 2)], heap_table(3)) == chart_signature([(0, 2), (1, 3), (1, 2)], heap_table(0)),
{
    lemma_heap_entries();
    lemma_codes_of_word_22(heap_table(3));
    lemma_codes_of_word_4(heap_table(0));
    lemma_charts_agree_through([(0, 2), (1, 3), (1, 2)], heap_table(0), [(0, 1), (2, 3), (1, 2)], heap_table(3), 4, (3, 5, 6, 0, 7, 1, 2, 4));
}

proof fn lemma_chart_532()
    ensures
        chart_signature([(0, 1), (2, 3), (1, 2)], heap_table(4)) == chart_signature([(0, 2), (1, 3), (1, 2)], heap_table(1)),
{
    lemma_heap_entries();
    lemma_codes_of_word_22(heap_table(4));
    lemma_codes_of_word_4(heap_table(1));
    lemma_charts_agree_through([(0, 2), (1, 3), (1, 2)], heap_table(1), [(0, 1), (2, 3), (1, 2)], heap_table(4), 4, (3, 5, 6, 0, 7, 1, 2, 4));
}

proof fn lemma_chart_533()
    ensures
        chart_signature([(0, 1), (2, 3), (1, 2)], heap_table(5)) == chart_signature([(0, 2), (1, 3), (1, 2)], heap_table(1)),
{
    lemma_heap_entries();
    lemma_codes_of_word_22(heap_table(5));
    lemma_codes_of_word_4(heap_table(1));
    lemma_charts_agree_through([(0, 2), (1, 3), (1, 2)], heap_table(1), [(0, 1), (2, 3), (1, 2)], heap_table(5), 5, (5, 3, 7, 1, 6, 0, 4, 2));
}

proof fn lemma_chart_534()
    ensures
        chart_signature([(0, 1), (2, 3), (1, 2)], heap_table(6)) == chart_signature([(0, 2), (1, 3), (1, 2)], heap_table(9)),
{
    lemma_heap_entries();
    lemma_codes_of_word_22(heap_table(6));
    lemma_codes_of_word_4(heap_table(9));
    lemma_charts_agree_through([(0, 2), (1, 3), (1, 2)], heap_table(9), [(0, 1), (2, 3), (1, 2)], heap_table(6), 4, (3, 5, 6, 0, 7, 1, 2, 4));
}

proof fn lemma_chart_535()
    ensures
        chart_signature([(0, 1), (2, 3), (1, 2)], heap_table(7)) == chart_signature([(0, 2), (1, 3), (1, 2)], heap_table(9)),
{
    lemma_heap_entries();
    lemma_codes_of_word_22(heap_table(7));
    lemma_codes_of_word_4(heap_table(9));
    lemma_charts_agree_through([(0, 2), (1, 3), (1, 2)], heap_table(9), [(0, 1), (2, 3), (1, 2)], heap_table(7), 5, (5, 3, 7, 1, 6, 0, 4, 2));
}

proof fn lemma_chart_536()
    ensures
        chart_signature([(0, 1), (2, 3), (1, 2)], heap_table(8)) == chart_signature([(0, 2), (1, 3), (1, 2)], heap_table(6)),
{
    lemma_heap_entries();
    lemma_codes_of_word_22(heap_table(8));
    lemma_codes_of_word_4(heap_table(6));
    lemma_charts_agree_through([(0, 2), (1, 3), (1, 2)], heap_table(6), [(0, 1), (2, 3), (1, 2)], heap_table(8), 5, (5, 3, 7, 1, 6, 0, 4, 2));
}

proof fn lemma_chart_537()
    ensures
        chart_signature([(0, 1), (2, 3), (1, 2)], heap_table(9)) == chart_signature([(0, 2), (1, 3), (1, 2)], heap_table(6)),
{
    lemma_heap_entries();
    lemma_codes_of_word_22(heap_table(9));
    lemma_codes_of_word_4(heap_table(6));
    lemma_charts_agree_through([(0, 2), (1, 3), (1, 2)], heap_table(6), [(0, 1), (2, 3), (1, 2)], heap_table(9), 4, (3, 5, 6, 0, 7, 1, 2, 4));
}

proof fn lemma_chart_538()
    ensures
        chart_signature([(0, 1), (2, 3), (1, 2)], heap_table(10)) == chart_signature([(0, 2), (1, 3), (1, 2)], heap_table(1)),
{
    lemma_heap_entries();
    lemma_codes_of_word_22(heap_table(10));
    lemma_codes_of_word_4(heap_table(1));
    lemma_charts_agree_through([(0, 2), (1, 3), (1, 2)], heap_table(1), [(0, 1), (2, 3), (1, 2)], heap_table(10), 6, (6, 7, 3, 2, 5, 4, 0, 1));
}

proof fn lemma_chart_539()
    ensures
        chart_signature([(0, 1), (2, 3), (1, 2)], heap_table(11)) == chart_signature([(0, 2), (1, 3), (1, 2)], heap_table(1)),
{
    lemma_heap_entries();
    lemma_codes_of_word_22(heap_table(11));
    lemma_codes_of_word_4(heap_table(1));
    lemma_charts_agree_through([(0, 2), (1, 3), (1, 2)], heap_table(1), [(0, 1), (2, 3), (1, 2)], heap_table(11), 7, (7, 6, 5, 4, 3, 2, 1, 0));
}

proof fn lemma_chart_540()
    ensures
        chart_signature([(0, 1), (2, 3), (1, 2)], heap_table(12)) == chart_signature([(0, 2), (1, 3), (1, 2)], heap_table(15)),
{
    lemma_heap_entries();
    lemma_codes_of_word_22(heap_table(12));
    lemma_codes_of_word_4(heap_table(15));
    lemma_charts_agree_through([(0, 2), (1, 3), (1, 2)], heap_table(15), [(0, 1), (2, 3), (1, 2)], heap_table(12), 4, (3, 5, 6, 0, 7, 1, 2, 4));
}

proof fn lemma_chart_541()
    ensures
        chart_signature([(0, 1), (2, 3), (1, 2)], heap_table(13)) == chart_signature([(0, 2), (1, 3), (1, 2)], heap_table(15)),
{
    lemma_heap_entries();
    lemma_codes_of_word_22(heap_table(13));
    lemma_codes_of_word_4(heap_table(15));
    lemma_charts_agree_through([(0, 2), (1, 3), (1, 2)], heap_table(15), [(0, 1), (2, 3), (1, 2)], heap_table(13), 5, (5, 3, 7, 1, 6, 0, 4, 2));
}

proof fn lemma_chart_542()
    ensures
        chart_signature([(0, 1), (2, 3), (1, 2)], heap_table(14)) == chart_signature([(0, 2), (1, 3), (1, 2)], heap_table(6)),
{
    lemma_heap_entries();
    lemma_codes_of_word_22(heap_table(14));
    lemma_codes_of_word_4(heap_table(6));
    lemma_charts_agree_through([(0, 2), (1, 3), (1, 2)], heap_table(6), [(0, 1), (2, 3), (1, 2)], heap_table(14), 7, (7, 6, 5, 4, 3, 2, 1, 0));
}

proof fn lemma_chart_543()
    ensures
        chart_signature([(0, 1), (2, 3), (1, 2)], heap_table(15)) == chart_signature([(0, 2), (1, 3), (1, 2)], heap_table(6)),
{
    lemma_heap_entries();
    lemma_codes_of_word_22(heap_table(15));
    lemma_codes_of_word_4(heap_table(6));
    lemma_charts_agree_through([(0, 2), (1, 3), (1, 2)], heap_table(6), [(0, 1), (2, 3), (1, 2)], heap_table(15), 6, (6, 7, 3, 2, 5, 4, 0, 1));
}

proof fn lemma_chart_544()
    ensures
        chart_signature([(0, 1), (2, 3), (1, 2)], heap_table(16)) == chart_signature([(0, 2), (1, 3), (1, 2)], heap_table(0)),
{
    lemma_heap_entries();
    lemma_codes_of_word_22(heap_table(16));
    lemma_codes_of_word_4(heap_table(0));
    lemma_charts_agree_through([(0, 2), (1, 3), (1, 2)], heap_table(0), [(0, 1), (2, 3), (1, 2)], heap_table(16), 6, (6, 7, 3, 2, 5, 4, 0, 1));
}

proof fn lemma_chart_545()
    ensures
        chart_signature([(0, 1), (2, 3), (1, 2)], heap_table(17)) == chart_signature([(0, 2), (1, 3), (1, 2)], heap_table(0)),
{
    lemma_heap_entries();
    lemma_codes_of_word_22(heap_table(17));
    lemma_codes_of_word_4(heap_table(0));
    lemma_charts_agree_through([(0, 2), (1, 3), (1, 2)], heap_table(0), [(0, 1), (2, 3), (1, 2)], heap_table(17), 7, (7, 6, 5, 4, 3, 2, 1, 0));
}

proof fn lemma_chart_546()
    ensures
        chart_signature([(0, 1), (2, 3), (1, 2)], heap_table(18)) == chart_signature([(0, 2), (1, 3), (1, 2)], heap_table(15)),
{
    lemma_heap_entries();
    lemma_codes_of_word_22(heap_table(18));
    lemma_codes_of_word_4(heap_table(15));
    lemma_charts_agree_through([(0, 2), (1, 3), (1, 2)], heap_table(15), [(0, 1), (2, 3), (1, 2)], heap_table(18), 6, (6, 7, 3, 2, 5, 4, 0, 1));
}

proof fn lemma_chart_547()
    ensures
        chart_signature([(0, 1), (2, 3), (1, 2)], heap_table(19)) == chart_signature([(0, 2), (1, 3), (1, 2)], heap_table(15)),
{
    lemma_heap_entries();
    lemma_codes_of_word_22(heap_table(19));
    lemma_codes_of_word_4(heap_table(15));
    lemma_charts_agree_through([(0, 2), (1, 3), (1, 2)], heap_table(15), [(0, 1), (2, 3), (1, 2)], heap_table(19), 7, (7, 6, 5, 4, 3, 2, 1, 0));
}

proof fn lemma_chart_548()
    ensures
        chart_signature([(0, 1), (2, 3), (1, 2)], heap_table(20)) == chart_signature([(0, 2), (1, 3), (1, 2)], heap_table(9)),
{
    lemma_heap_entries();
    lemma_codes_of_word_22(heap_table(20));
    lemma_codes_of_word_4(heap_table(9));
    lemma_charts_agree_through([(0, 2), (1, 3), (1, 2)], heap_table(9), [(0, 1), (2, 3), (1, 2)], heap_table(20), 7, (7, 6, 5, 4, 3, 2, 1, 0));
}

proof fn lemma_chart_549()
    ensures
        chart_signature([(0, 1), (2, 3), (1, 2)], heap_table(21)) == chart_signature([(0, 2), (1, 3), (1, 2)], heap_table(9)),
{
    lemma_heap_entries();
    lemma_codes_of_word_22(heap_table(21));
    lemma_codes_of_word_4(heap_table(9));
    lemma_charts_agree_through([(0, 2), (1, 3), (1, 2)], heap_table(9), [(0, 1), (2, 3), (1, 2)], heap_table(21), 6, (6, 7, 3, 2, 5, 4, 0, 1));
}

proof fn lemma_chart_550()
    ensures
        chart_signature([(0, 1), (2, 3), (1, 2)], heap_table(22)) == chart_signature([(0, 2), (1, 3), (1, 2)], heap_table(3)),
{
    lemma_heap_entries();
    lemma_codes_of_word_22(heap_table(22));
    lemma_codes_of_word_4(heap_table(3));
    lemma_charts_agree_through([(0, 2), (1, 3), (1, 2)], heap_table(3), [(0, 1), (2, 3), (1, 2)], heap_table(22), 6, (6, 7, 3, 2, 5, 4, 0, 1));
}

proof fn lemma_chart_551()
    ensures
        chart_signature([(0, 1), (2, 3), (1, 2)], heap_table(23)) == chart_signature([(0, 2), (1, 3), (1, 2)], heap_table(3)),
{
    lemma_heap_entries();
    lemma_codes_of_word_22(heap_table(23));
    lemma_codes_of_word_4(heap_table(3));
    lemma_charts_agree_through([(0, 2), (1, 3), (1, 2)], heap_table(3), [(0, 1), (2, 3), (1, 2)], heap_table(23), 7, (7, 6, 5, 4, 3, 2, 1, 0));
}

/// Every chart of atlas word 22 shares its signature with the first chart
/// of a class below 216.
pub proof fn lemma_charts_of_word_22()
    ensures
        forall|t: int| 528 <= t < 552 ==> #[trigger] meets_class_below(t, 216),
{
    lemma_census_words();
    assert forall|t: int| 528 <= t < 552 implies #[trigger] meets_class_below(t, 216) by {
        if t == 528 { lemma_chart_528(); assert(atlas_signatures()[class_rep(50)] == atlas_signatures()[528]); }
        else if t == 529 { lemma_chart_529(); assert(atlas_signatures()[class_rep(50)] == atlas_signatures()[529]); }
        else if t == 530 { lemma_chart_530(); assert(atlas_signatures()[class_rep(48)] == atlas_signatures()[530]); }
        else if t == 531 { lemma_chart_531(); assert(atlas_signatures()[class_rep(48)] == atlas_signatures()[531]); }
        else if t == 532 { lemma_chart_532(); assert(atlas_signatures()[class_rep(49)] == atlas_signatures()[532]); }
        else if t == 533 { lemma_chart_533(); assert(atlas_signatures()[class_rep(49)] == atlas_signatures()[533]); }
        else if t == 534 { lemma_chart_534(); assert(atlas_signatures()[class_rep(52)] == atlas_signatures()[534]); }
        else if t == 535 { lemma_chart_535(); assert(atlas_signatures()[class_rep(52)] == atlas_signatures()[535]); }
        else if t == 536 { lemma_chart_536(); assert(atlas_signatures()[class_rep(51)] == atlas_signatures()[536]); }
        else if t == 537 { lemma_chart_537(); assert(atlas_signatures()[class_rep(51)] == atlas_signatures()[537]); }
        else if t == 538 { lemma_chart_538(); assert(atlas_signatures()[class_rep(49)] == atlas_signatures()[538]); }
        else if t == 539 { lemma_chart_539(); assert(atlas_signatures()[class_rep(49)] == atlas_signatures()[539]); }
        else if t == 540 { lemma_chart_540(); assert(atlas_signatures()[class_rep(53)] == atlas_signatures()[540]); }
        else if t == 541 { lemma_chart_541(); assert(atlas_signatures()[class_rep(53)] == atlas_signatures()[541]); }
        else if t == 542 { lemma_chart_542(); assert(atlas_signatures()[class_rep(51)] == atlas_signatures()[542]); }
        else if t == 543 { lemma_chart_543(); assert(atlas_signatures()[class_rep(51)] == atlas_signatures()[543]); }
        else if t == 544 { lemma_chart_544(); assert(atlas_signatures()[class_rep(48)] == atlas_signatures()[544]); }
        else if t == 545 { lemma_chart_545(); assert(atlas_signatures()[class_rep(48)] == atlas_signatures()[545]); }
        else if t == 546 { lemma_chart_546(); assert(atlas_signatures()[class_rep(53)] == atlas_signatures()[546]); }
        else if t == 547 { lemma_chart_547(); assert(atlas_signatures()[class_rep(53)] == atlas_signatures()[547]); }
        else if t == 548 { lemma_chart_548(); assert(atlas_signatures()[class_rep(52)] == atlas_signatures()[548]); }
        else if t == 549 { lemma_chart_549(); assert(atlas_signatures()[class_rep(52)] == atlas_signatures()[549]); }
        else if t == 550 { lemma_chart_550(); assert(atlas_signatures()[class_rep(50)] == atlas_signatures()[550]); }
        else { lemma_chart_551(); assert(atlas_signatures()[class_rep(50)] == atlas_signatures()[551]); }
    }
}

proof fn lemma_chart_552()
    ensures
        chart_signature([(0, 1), (2, 3), (1, 3)], heap_table(0)) == chart_signature([(0, 3), (1, 2), (1, 3)], heap_table(7)),
{
    lemma_heap_entries();
    lemma_codes_of_word_23(heap_table(0));
    lemma_codes_of_word_5(heap_table(7));
    lemma_charts_agree_through([(0, 3), (1, 2), (1, 3)], heap_table(7), [(0, 1), (2, 3), (1, 3)], heap_table(0), 5, (5, 3, 7, 1, 6, 0, 4, 2));
}

proof fn lemma_chart_553()
    ensures
        chart_signature([(0, 1), (2, 3), (1, 3)], heap_table(1)) == chart_signature([(0, 3), (1, 2), (1, 3)], heap_table(7)),
{
    lemma_heap_entries();
    lemma_codes_of_word_23(heap_table(1));
    lemma_codes_of_word_5(heap_table(7));
    lemma_charts_agree_through([(0, 3), (1, 2), (1, 3)], heap_table(7), [(0, 1), (2, 3), (1, 3)], heap_table(1), 4, (3, 5, 6, 0, 7, 1, 2, 4));
}

proof fn lemma_chart_554()
    ensures
        chart_signature([(0, 1), (2, 3), (1, 3)], heap_table(2)) == chart_signature([(0, 3), (1, 2), (1, 3)], heap_table(8)),
{
    lemma_heap_entries();
    lemma_codes_of_word_23(heap_table(2));
    lemma_codes_of_word_5(heap_table(8));
    lemma_charts_agree_through([(0, 3), (1, 2), (1, 3)], heap_table(8), [(0, 1), (2, 3), (1, 3)], heap_table(2), 4, (3, 5, 6, 0, 7, 1, 2, 4));
}

proof fn lemma_chart_555()
    ensures
        chart_signature([(0, 1), (2, 3), (1, 3)], heap_table(3)) == chart_signature([(0, 3), (1, 2), (1, 3)], heap_table(8)),
{
    lemma_heap_entries();
    lemma_codes_of_word_23(heap_table(3));
    lemma_codes_of_word_5(heap_table(8));
    lemma_charts_agree_through([(0, 3), (1, 2), (1, 3)], heap_table(8), [(0, 1), (2, 3), (1, 3)], heap_table(3), 5, (5, 3, 7, 1, 6, 0, 4, 2));
}

proof fn lemma_chart_556()
    ensures
        chart_signature([(0, 1), (2, 3), (1, 3)], heap_table(4)) == chart_signature([(0, 3), (1, 2), (1, 3)], heap_table(14)),
{
    lemma_heap_entries();
    lemma_codes_of_word_23(heap_table(4));
    lemma_codes_of_word_5(heap_table(14));
    lemma_charts_agree_through([(0, 3), (1, 2), (1, 3)], heap_table(14), [(0, 1), (2, 3), (1, 3)], heap_table(4), 5, (5, 3, 7, 1, 6, 0, 4, 2));
}

proof fn lemma_chart_557()
    ensures
        chart_signature([(0, 1), (2, 3), (1, 3)], heap_table(5)) == chart_signature([(0, 3), (1, 2), (1, 3)], heap_table(14)),
{
    lemma_heap_entries();
    lemma_codes_of_word_23(heap_table(5));
    lemma_codes_of_word_5(heap_table(14));
    lemma_charts_agree_through([(0, 3), (1, 2), (1, 3)], heap_table(14), [(0, 1), (2, 3), (1, 3)], heap_table(5), 4, (3, 5, 6, 0, 7, 1, 2, 4));
}

proof fn lemma_chart_558()
    ensures
        chart_signature([(0, 1), (2, 3), (1, 3)], heap_table(6)) == chart_signature([(0, 3), (1, 2), (1, 3)], heap_table(1)),
{
    lemma_heap_entries();
    lemma_codes_of_word_23(heap_table(6));
    lemma_codes_of_word_5(heap_table(1));
    lemma_charts_agree_through([(0, 3), (1, 2), (1, 3)], heap_table(1), [(0, 1), (2, 3), (1, 3)], heap_table(6), 5, (5, 3, 7, 1, 6, 0, 4, 2));
}

proof fn lemma_chart_559()
    ensures
        chart_signature([(0, 1), (2, 3), (1, 3)], heap_table(7)) == chart_signature([(0, 3), (1, 2), (1, 3)], heap_table(1)),
{
    lemma_heap_entries();
    lemma_codes_of_word_23(heap_table(7));
    lemma_codes_of_word_5(heap_table(1));
    lemma_charts_agree_through([(0, 3), (1, 2), (1, 3)], heap_table(1), [(0, 1), (2, 3), (1, 3)], heap_table(7), 4, (3, 5, 6, 0, 7, 1, 2, 4));
}

proof fn lemma_chart_560()
    ensures
        chart_signature([(0, 1), (2, 3), (1, 3)], heap_table(8)) == chart_signature([(0, 3), (1, 2), (1, 3)], heap_table(2)),
{
    lemma_heap_entries();
    lemma_codes_of_word_23(heap_table(8));
    lemma_codes_of_word_5(heap_table(2));
    lemma_charts_agree_through([(0, 3), (1, 2), (1, 3)], heap_table(2), [(0, 1), (2, 3), (1, 3)], heap_table(8), 4, (3, 5, 6, 0, 7, 1, 2, 4));
}

proof fn lemma_chart_561()
    ensures
        chart_signature([(0, 1), (2, 3), (1, 3)], heap_table(9)) == chart_signature([(0, 3), (1, 2), (1, 3)], heap_table(2)),
{
    lemma_heap_entries();
    lemma_codes_of_word_23(heap_table(9));
    lemma_codes_of_word_5(heap_table(2));
    lemma_charts_agree_through([(0, 3), (1, 2), (1, 3)], heap_table(2), [(0, 1), (2, 3), (1, 3)], heap_table(9), 5, (5, 3, 7, 1, 6, 0, 4, 2));
}

proof fn lemma_chart_562()
    ensures
        chart_signature([(0, 1), (2, 3), (1, 3)], heap_table(10)) == chart_signature([(0, 3), (1, 2), (1, 3)], heap_table(14)),
{
    lemma_heap_entries();
    lemma_codes_of_word_23(heap_table(10));
    lemma_codes_of_word_5(heap_table(14));
    lemma_charts_agree_through([(0, 3), (1, 2), (1, 3)], heap_table(14), [(0, 1), (2, 3), (1, 3)], heap_table(10), 7, (7, 6, 5, 4, 3, 2, 1, 0));
}

proof fn lemma_chart_563()
    ensures
        chart_signature([(0, 1), (2, 3), (1, 3)], heap_table(11)) == chart_signature([(0, 3), (1, 2), (1, 3)], heap_table(14)),
{
    lemma_heap_entries();
    lemma_codes_of_word_23(heap_table(11));
    lemma_codes_of_word_5(heap_table(14));
    lemma_charts_agree_through([(0, 3), (1, 2), (1, 3)], heap_table(14), [(0, 1), (2, 3), (1, 3)], heap_table(11), 6, (6, 7, 3, 2, 5, 4, 0, 1));
}

proof fn lemma_chart_564()
    ensures
        chart_signature([(0, 1), (2, 3), (1, 3)], heap_table(12)) == chart_signature([(0, 3), (1, 2), (1, 3)], heap_table(0)),
{
    lemma_heap_entries();
    lemma_codes_of_word_23(heap_table(12));
    lemma_codes_of_word_5(heap_table(0));
    lemma_charts_agree_through([(0, 3), (1, 2), (1, 3)], heap_table(0), [(0, 1), (2, 3), (1, 3)], heap_table(12), 5, (5, 3, 7, 1, 6, 0, 4, 2));
}

proof fn lemma_chart_565()
    ensures
        chart_signature([(0, 1), (2, 3), (1, 3)], heap_table(13)) == chart_signature([(0, 3), (1, 2), (1, 3)], heap_table(0)),
{
    lemma_heap_entries();
    lemma_codes_of_word_23(heap_table(13));
    lemma_codes_of_word_5(heap_table(0));
    lemma_charts_agree_through([(0, 3), (1, 2), (1, 3)], heap_table(0), [(0, 1), (2, 3), (1, 3)], heap_table(13), 4, (3, 5, 6, 0, 7, 1, 2, 4));
}

proof fn lemma_chart_566()
    ensures
        chart_signature([(0, 1), (2, 3), (1, 3)], heap_table(14)) == chart_signature([(0, 3), (1, 2), (1, 3)], heap_table(2)),
{
    lemma_heap_entries();
    lemma_codes_of_word_23(heap_table(14));
    lemma_codes_of_word_5(heap_table(2));
    lemma_charts_agree_through([(0, 3), (1, 2), (1, 3)], heap_table(2), [(0, 1), (2, 3), (1, 3)], heap_table(14), 6, (6, 7, 3, 2, 5, 4, 0, 1));
}

proof fn lemma_chart_567()
    ensures
        chart_signature([(0, 1), (2, 3), (1, 3)], heap_table(15)) == chart_signature([(0, 3), (1, 2), (1, 3)], heap_table(2)),
{
    lemma_heap_entries();
    lemma_codes_of_word_23(heap_table(15));
    lemma_codes_of_word_5(heap_table(2));
    lemma_charts_agree_through([(0, 3), (1, 2), (1, 3)], heap_table(2), [(0, 1), (2, 3), (1, 3)], heap_table(15), 7, (7, 6, 5, 4, 3, 2, 1, 0));
}

proof fn lemma_chart_568()
    ensures
        chart_signature([(0, 1), (2, 3), (1, 3)], heap_table(16)) == chart_signature([(0, 3), (1, 2), (1, 3)], heap_table(8)),
{
    lemma_heap_entries();
    lemma_codes_of_word_23(heap_table(16));
    lemma_codes_of_word_5(heap_table(8));
    lemma_charts_agree_through([(0, 3), (1, 2), (1, 3)], heap_table(8), [(0, 1), (2, 3), (1, 3)], heap_table(16), 7, (7, 6, 5, 4, 3, 2, 1, 0));
}

proof fn lemma_chart_569()
    ensures
        chart_signature([(0, 1), (2, 3), (1, 3)], heap_table(17)) == chart_signature([(0, 3), (1, 2), (1, 3)], heap_table(8)),
{
    lemma_heap_entries();
    lemma_codes_of_word_23(heap_table(17));
    lemma_codes_of_word_5(heap_table(8));
    lemma_charts_agree_through([(0, 3), (1, 2), (1, 3)], heap_table(8), [(0, 1), (2, 3), (1, 3)], heap_table(17), 6, (6, 7, 3, 2, 5, 4, 0, 1));
}

proof fn lemma_chart_570()
    ensures
        chart_signature([(0, 1), (2, 3), (1, 3)], heap_table(18)) == chart_signature([(0, 3), (1, 2), (1, 3)], heap_table(0)),
{
    lemma_heap_entries();
    lemma_codes_of_word_23(heap_table(18));
    lemma_codes_of_word_5(heap_table(0));
    lemma_charts_agree_through([(0, 3), (1, 2), (1, 3)], heap_table(0), [(0, 1), (2, 3), (1, 3)], heap_table(18), 7, (7, 6, 5, 4, 3, 2, 1, 0));
}

proof fn lemma_chart_571()
    ensures
        chart_signature([(0, 1), (2, 3), (1, 3)], heap_table(19)) == chart_signature([(0, 3), (1, 2), (1, 3)], heap_table(0)),
{
    lemma_heap_entries();
    lemma_codes_of_word_23(heap_table(19));
    lemma_codes_of_word_5(heap_table(0));
    lemma_charts_agree_through([(0, 3), (1, 2), (1, 3)], heap_table(0), [(0, 1), (2, 3), (1, 3)], heap_table(19), 6, (6, 7, 3, 2, 5, 4, 0, 1));
}

proof fn lemma_chart_572()
    ensures
        chart_signature([(0, 1), (2, 3), (1, 3)], heap_table(20)) == chart_signature([(0, 3), (1, 2), (1, 3)], heap_table(1)),
{
    lemma_heap_entries();
    lemma_codes_of_word_23(heap_table(20));
    lemma_codes_of_word_5(heap_table(1));
    lemma_charts_agree_through([(0, 3), (1, 2), (1, 3)], heap_table(1), [(0, 1), (2, 3), (1, 3)], heap_table(20), 6, (6, 7, 3, 2, 5, 4, 0, 1));
}

proof fn lemma_chart_573()
    ensures
        chart_signature([(0, 1), (2, 3), (1, 3)], heap_table(21)) == chart_signature([(0, 3), (1, 2), (1, 3)], heap_table(1)),
{
    lemma_heap_entries();
    lemma_codes_of_word_23(heap_table(21));
    lemma_codes_of_word_5(heap_table(1));
    lemma_charts_agree_through([(0, 3), (1, 2), (1, 3)], heap_table(1), [(0, 1), (2, 3), (1, 3)], heap_table(21), 7, (7, 6, 5, 4, 3, 2, 1, 0));
}

proof fn lemma_chart_574()
    ensures
        chart_signature([(0, 1), (2, 3), (1, 3)], heap_table(22)) == chart_signature([(0, 3), (1, 2), (1, 3)], heap_table(7)),
{
    lemma_heap_entries();
    lemma_codes_of_word_23(heap_table(22));
    lemma_codes_of_word_5(heap_table(7));
    lemma_charts_agree_through([(0, 3), (1, 2), (1, 3)], heap_table(7), [(0, 1), (2, 3), (1, 3)], heap_table(22), 7, (7, 6, 5, 4, 3, 2, 1, 0));
}

proof fn lemma_chart_575()
    ensures
        chart_signature([(0, 1), (2, 3), (1, 3)], heap_table(23)) == chart_signature([(0, 3), (1, 2), (1, 3)], heap_table(7)),
{
    lemma_heap_entries();
    lemma_codes_of_word_23(heap_table(23));
    lemma_codes_of_word_5(heap_table(7));
    lemma_charts_agree_through([(0, 3), (1, 2), (1, 3)], heap_table(7), [(0, 1), (2, 3), (1, 3)], heap_table(23), 6, (6, 7, 3, 2, 5, 4, 0, 1));
}

/// Every chart of atlas word 23 shares its signature with the first chart
/// of a class below 216.
pub proof fn lemma_charts_of_word_23()
    ensures
        forall|t: int| 552 <= t < 576 ==> #[trigger] meets_class_below(t, 216),
{
    lemma_census_words();
    assert forall|t: int| 552 <= t < 576 implies #[trigger] meets_class_below(t, 216) by {
        if t == 552 { lemma_chart_552(); assert(atlas_signatures()[class_rep(57)] == atlas_signatures()[552]); }
        else if t == 553 { lemma_chart_553(); assert(atlas_signatures()[class_rep(57)] == atlas_signatures()[553]); }
        else if t == 554 { lemma_chart_554(); assert(atlas_signatures()[class_rep(58)] == atlas_signatures()[554]); }
        else if t == 555 { lemma_chart_555(); assert(atlas_signatures()[class_rep(58)] == atlas_signatures()[555]); }
        else if t == 556 { lemma_chart_556(); assert(atlas_signatures()[class_rep(59)] == atlas_signatures()[556]); }
        else if t == 557 { lemma_chart_557(); assert(atlas_signatures()[class_rep(59)] == atlas_signatures()[557]); }
        else if t == 558 { lemma_chart_558(); assert(atlas_signatures()[class_rep(55)] == atlas_signatures()[558]); }
        else if t == 559 { lemma_chart_559(); assert(atlas_signatures()[class_rep(55)] == atlas_signatures()[559]); }
        else if t == 560 { lemma_chart_560(); assert(atlas_signatures()[class_rep(56)] == atlas_signatures()[560]); }
        else if t == 561 { lemma_chart_561(); assert(atlas_signatures()[class_rep(56)] == atlas_signatures()[561]); }
        else if t == 562 { lemma_chart_562(); assert(atlas_signatures()[class_rep(59)] == atlas_signatures()[562]); }
        else if t == 563 { lemma_chart_563(); assert(atlas_signatures()[class_rep(59)] == atlas_signatures()[563]); }
        else if t == 564 { lemma_chart_564(); assert(atlas_signatures()[class_rep(54)] == atlas_signatures()[564]); }
        else if t == 565 { lemma_chart_565(); assert(atlas_signatures()[class_rep(54)] == atlas_signatures()[565]); }
        else if t == 566 { lemma_chart_566(); assert(atlas_signatures()[class_rep(56)] == atlas_signatures()[566]); }
        else if t == 567 { lemma_chart_567(); assert(atlas_signatures()[class_rep(56)] == atlas_signatures()[567]); }
        else if t == 568 { lemma_chart_568(); assert(atlas_signatures()[class_rep(58)] == atlas_signatures()[568]); }
        else if t == 569 { lemma_chart_569(); assert(atlas_signatures()[class_rep(58)] == atlas_signatures()[569]); }
        else if t == 570 { lemma_chart_570(); assert(atlas_signatures()[class_rep(54)] == atlas_signatures()[570]); }
        else if t == 571 { lemma_chart_571(); assert(atlas_signatures()[class_rep(54)] == atlas_signatures()[571]); }
        else if t == 572 { lemma_chart_572(); assert(atlas_signatures()[class_rep(55)] == atlas_signatures()[572]); }
        else if t == 573 { lemma_chart_573(); assert(atlas_signatures()[class_rep(55)] == atlas_signatures()[573]); }
        else if t == 574 { lemma_chart_574(); assert(atlas_signatures()[class_rep(57)] == atlas_signatures()[574]); }
        else { lemma_chart_575(); assert(atlas_signatures()[class_rep(57)] == atlas_signatures()[575]); }
    }
}

proof fn lemma_chart_578()
    ensures
        chart_signature([(0, 2), (0, 1), (0, 3)], heap_table(2)) == chart_signature([(0, 2), (0, 1), (0, 3)], heap_table(1)),
{
    lemma_heap_entries();
    lemma_codes_of_word_24(heap_table(2));
    lemma_codes_of_word_24(heap_table(1));
    lemma_charts_agree_through([(0, 2), (0, 1), (0, 3)], heap_table(1), [(0, 2), (0, 1), (0, 3)], heap_table(2), 1, (1, 0, 4, 5, 2, 3, 7, 6));
}

proof fn lemma_chart_580()
    ensures
        chart_signature([(0, 2), (0, 1), (0, 3)], heap_table(4)) == chart_signature([(0, 2), (0, 1), (0, 3)], heap_table(3)),
{
    lemma_heap_entries();
    lemma_codes_of_word_24(heap_table(4));
    lemma_codes_of_word_24(heap_table(3));
    lemma_charts_agree_through([(0, 2), (0, 1), (0, 3)], heap_table(3), [(0, 2), (0, 1), (0, 3)], heap_table(4), 1, (1, 0, 4, 5, 2, 3, 7, 6));
}

proof fn lemma_chart_581()
    ensures
        chart_signature([(0, 2), (0, 1), (0, 3)], heap_table(5)) == chart_signature([(0, 2), (0, 1), (0, 3)], heap_table(0)),
{
    lemma_heap_entries();
    lemma_codes_of_word_24(heap_table(5));
    lemma_codes_of_word_24(heap_table(0));
    lemma_charts_agree_through([(0, 2), (0, 1), (0, 3)], heap_table(0), [(0, 2), (0, 1), (0, 3)], heap_table(5), 1, (1, 0, 4, 5, 2, 3, 7, 6));
}

proof fn lemma_chart_584()
    ensures
        chart_signature([(0, 2), (0, 1), (0, 3)], heap_table(8)) == chart_signature([(0, 2), (0, 1), (0, 3)], heap_table(7)),
{
    lemma_heap_entries();
    lemma_codes_of_word_24(heap_table(8));
    lemma_codes_of_word_24(heap_table(7));
    lemma_charts_agree_through([(0, 2), (0, 1), (0, 3)], heap_table(7), [(0, 2), (0, 1), (0, 3)], heap_table(8), 1, (1, 0, 4, 5, 2, 3, 7, 6));
}

proof fn lemma_chart_586()
    ensures
        chart_signature([(0, 2), (0, 1), (0, 3)], heap_table(10)) == chart_signature([(0, 2), (0, 1), (0, 3)], heap_table(9)),
{
    lemma_heap_entries();
    lemma_codes_of_word_24(heap_table(10));
    lemma_codes_of_word_24(heap_table(9));
    lemma_charts_agree_through([(0, 2), (0, 1), (0, 3)], heap_table(9), [(0, 2), (0, 1), (0, 3)], heap_table(10), 1, (1, 0, 4, 5, 2, 3, 7, 6));
}

proof fn lemma_chart_587()
    ensures
        chart_signature([(0, 2), (0, 1), (0, 3)], heap_table(11)) == chart_signature([(0, 2), (0, 1), (0, 3)], heap_table(6)),
{
    lemma_heap_entries();
    lemma_codes_of_word_24(heap_table(11));
    lemma_codes_of_word_24(heap_table(6));
    lemma_charts_agree_through([(0, 2), (0, 1), (0, 3)], heap_table(6), [(0, 2), (0, 1), (0, 3)], heap_table(11), 1, (1, 0, 4, 5, 2, 3, 7, 6));
}

proof fn lemma_chart_590()
    ensures
        chart_signature([(0, 2), (0, 1), (0, 3)], heap_table(14)) == chart_signature([(0, 2), (0, 1), (0, 3)], heap_table(13)),
{
    lemma_heap_entries();
    lemma_codes_of_word_24(heap_table(14));
    lemma_codes_of_word_24(heap_table(13));
    lemma_charts_agree_through([(0, 2), (0, 1), (0, 3)], heap_table(13), [(0, 2), (0, 1), (0, 3)], heap_table(14), 1, (1, 0, 4, 5, 2, 3, 7, 6));
}

proof fn lemma_chart_592()
    ensures
        chart_signature([(0, 2), (0, 1), (0, 3)], heap_table(16)) == chart_signature([(0, 2), (0, 1), (0, 3)], heap_table(15)),
{
    lemma_heap_entries();
    lemma_codes_of_word_24(heap_table(16));
    lemma_codes_of_word_24(heap_table(15));
    lemma_charts_agree_through([(0, 2), (0, 1), (0, 3)], heap_table(15), [(0, 2), (0, 1), (0, 3)], heap_table(16), 1, (1, 0, 4, 5, 2, 3, 7, 6));
}

proof fn lemma_chart_593()
    ensures
        chart_signature([(0, 2), (0, 1), (0, 3)], heap_table(17)) == chart_signature([(0, 2), (0, 1), (0, 3)], heap_table(12)),
{
    lemma_heap_entries();
    lemma_codes_of_word_24(heap_table(17));
    lemma_codes_of_word_24(heap_table(12));
    lemma_charts_agree_through([(0, 2), (0, 1), (0, 3)], heap_table(12), [(0, 2), (0, 1), (0, 3)], heap_table(17), 1, (1, 0, 4, 5, 2, 3, 7, 6));
}

proof fn lemma_chart_596()
    ensures
        chart_signature([(0, 2), (0, 1), (0, 3)], heap_table(20)) == chart_signature([(0, 2), (0, 1), (0, 3)], heap_table(19)),
{
    lemma_heap_entries();
    lemma_codes_of_word_24(heap_table(20));
    lemma_codes_of_word_24(heap_table(19));
    lemma_charts_agree_through([(0, 2), (0, 1), (0, 3)], heap_table(19), [(0, 2), (0, 1), (0, 3)], heap_table(20), 1, (1, 0, 4, 5, 2, 3, 7, 6));
}

proof fn lemma_chart_598()
    ensures
        chart_signature([(0, 2), (0, 1), (0, 3)], heap_table(22)) == chart_signature([(0, 2), (0, 1), (0, 3)], heap_table(21)),
{
    lemma_heap_entries();
    lemma_codes_of_word_24(heap_table(22));
    lemma_codes_of_word_24(heap_table(21));
    lemma_charts_agree_through([(0, 2), (0, 1), (0, 3)], heap_table(21), [(0, 2), (0, 1), (0, 3)], heap_table(22), 1, (1, 0, 4, 5, 2, 3, 7, 6));
}

proof fn lemma_chart_599()
    ensures
        chart_signature([(0, 2), (0, 1), (0, 3)], heap_table(23)) == chart_signature([(0, 2), (0, 1), (0, 3)], heap_table(18)),
{
    lemma_heap_entries();
    lemma_codes_of_word_24(heap_table(23));
    lemma_codes_of_word_24(heap_table(18));
    lemma_charts_agree_through([(0, 2), (0, 1), (0, 3)], heap_table(18), [(0, 2), (0, 1), (0, 3)], heap_table(23), 1, (1, 0, 4, 5, 2, 3, 7, 6));
}

/// Every chart of atlas word 24 shares its signature with the first chart
/// of a class below 216.
pub proof fn lemma_charts_of_word_24()
    ensures
        forall|t: int| 576 <= t < 600 ==> #[trigger] meets_class_below(t, 216),
{
    lemma_census_words();
    assert forall|t: int| 576 <= t < 600 implies #[trigger] meets_class_below(t, 216) by {
        if t == 576 { assert(atlas_signatures()[class_rep(138)] == atlas_signatures()[576]); }
        else if t == 577 { assert(atlas_signatures()[class_rep(139)] == atlas_signatures()[577]); }
        else if t == 578 { lemma_chart_578(); assert(atlas_signatures()[class_rep(139)] == atlas_signatures()[578]); }
        else if t == 579 { assert(atlas_signatures()[class_rep(140)] == atlas_signatures()[579]); }
        else if t == 580 { lemma_chart_580(); assert(atlas_signatures()[class_rep(140)] == atlas_signatures()[580]); }
        else if t == 581 { lemma_chart_581(); assert(atlas_signatures()[class_rep(138)] == atlas_signatures()[581]); }
        else if t == 582 { assert(atlas_signatures()[class_rep(141)] == atlas_signatures()[582]); }
        else if t == 583 { assert(atlas_signatures()[class_rep(142)] == atlas_signatures()[583]); }
        else if t == 584 { lemma_chart_584(); assert(atlas_signatures()[class_rep(142)] == atlas_signatures()[584]); }
        else if t == 585 { assert(atlas_signatures()[class_rep(143)] == atlas_signatures()[585]); }
        else if t == 586 { lemma_chart_586(); assert(atlas_signatures()[class_rep(143)] == atlas_signatures()[586]); }
        else if t == 587 { lemma_chart_587(); assert(atlas_signatures()[class_rep(141)] == atlas_signatures()[587]); }
        else if t == 588 { assert(atlas_signatures()[class_rep(144)] == atlas_signatures()[588]); }
        else if t == 589 { assert(atlas_signatures()[class_rep(145)] == atlas_signatures()[589]); }
        else if t == 590 { lemma_chart_590(); assert(atlas_signatures()[class_rep(145)] == atlas_signatures()[590]); }
        else if t == 591 { assert(atlas_signatures()[class_rep(146)] == atlas_signatures()[591]); }
        else if t == 592 { lemma_chart_592(); assert(atlas_signatures()[class_rep(146)] == atlas_signatures()[592]); }
        else if t == 593 { lemma_chart_593(); assert(atlas_signatures()[class_rep(144)] == atlas_signatures()[593]); }
        else if t == 594 { assert(atlas_signatures()[class_rep(147)] == atlas_signatures()[594]); }
        else if t == 595 { assert(atlas_signatures()[class_rep(148)] == atlas_signatures()[595]); }
        else if t == 596 { lemma_chart_596(); assert(atlas_signatures()[class_rep(148)] == atlas_signatures()[596]); }
        else if t == 597 { assert(atlas_signatures()[class_rep(149)] == atlas_signatures()[597]); }
        else if t == 598 { lemma_chart_598(); assert(atlas_signatures()[class_rep(149)] == atlas_signatures()[598]); }
        else { lemma_chart_599(); assert(atlas_signatures()[class_rep(147)] == atlas_signatures()[599]); }
    }
}

proof fn lemma_chart_600()
    ensures
        chart_signature([(0, 2), (0, 1), (1, 3)], heap_table(0)) == chart_signature([(0, 2), (0, 3), (1, 3)], heap_table(13)),
{
    lemma_heap_entries();
    lemma_codes_of_word_25(heap_table(0));
    lemma_codes_of_word_6(heap_table(13));
    lemma_charts_agree_through([(0, 2), (0, 3), (1, 3)], heap_table(13), [(0, 2), (0, 1), (1, 3)], heap_table(0), 4, (3, 5, 6, 0, 7, 1, 2, 4));
}

proof fn lemma_chart_601()
    ensures
        chart_signature([(0, 2), (0, 1), (1, 3)], heap_table(1)) == chart_signature([(0, 2), (0, 3), (1, 3)], heap_table(7)),
{
    lemma_heap_entries();
    lemma_codes_of_word_25(heap_table(1));
    lemma_codes_of_word_6(heap_table(7));
    lemma_charts_agree_through([(0, 2), (0, 3), (1, 3)], heap_table(7), [(0, 2), (0, 1), (1, 3)], heap_table(1), 4, (3, 5, 6, 0, 7, 1, 2, 4));
}

proof fn lemma_chart_602()
    ensures
        chart_signature([(0, 2), (0, 1), (1, 3)], heap_table(2)) == chart_signature([(0, 2), (0, 3), (1, 3)], heap_table(7)),
{
    lemma_heap_entries();
    lemma_codes_of_word_25(heap_table(2));
    lemma_codes_of_word_6(heap_table(7));
    lemma_charts_agree_through([(0, 2), (0, 3), (1, 3)], heap_table(7), [(0, 2), (0, 1), (1, 3)], heap_table(2), 5, (5, 3, 7, 1, 6, 0, 4, 2));
}

proof fn lemma_chart_603()
    ensures
        chart_signature([(0, 2), (0, 1), (1, 3)], heap_table(3)) == chart_signature([(0, 2), (0, 3), (1, 3)], heap_table(19)),
{
    lemma_heap_entries();
    lemma_codes_of_word_25(heap_table(3));
    lemma_codes_of_word_6(heap_table(19));
    lemma_charts_agree_through([(0, 2), (0, 3), (1, 3)], heap_table(19), [(0, 2), (0, 1), (1, 3)], heap_table(3), 4, (3, 5, 6, 0, 7, 1, 2, 4));
}

proof fn lemma_chart_604()
    ensures
        chart_signature([(0, 2), (0, 1), (1, 3)], heap_table(4)) == chart_signature([(0, 2), (0, 3), (1, 3)], heap_table(19)),
{
    lemma_heap_entries();
    lemma_codes_of_word_25(heap_table(4));
    lemma_codes_of_word_6(heap_table(19));
    lemma_charts_agree_through([(0, 2), (0, 3), (1, 3)], heap_table(19), [(0, 2), (0, 1), (1, 3)], heap_table(4), 5, (5, 3, 7, 1, 6, 0, 4, 2));
}

proof fn lemma_chart_605()
    ensures
        chart_signature([(0, 2), (0, 1), (1, 3)], heap_table(5)) == chart_signature([(0, 2), (0, 3), (1, 3)], heap_table(13)),
{
    lemma_heap_entries();
    lemma_codes_of_word_25(heap_table(5));
    lemma_codes_of_word_6(heap_table(13));
    lemma_charts_agree_through([(0, 2), (0, 3), (1, 3)], heap_table(13), [(0, 2), (0, 1), (1, 3)], heap_table(5), 5, (5, 3, 7, 1, 6, 0, 4, 2));
}

proof fn lemma_chart_606()
    ensures
        chart_signature([(0, 2), (0, 1), (1, 3)], heap_table(6)) == chart_signature([(0, 2), (0, 3), (1, 3)], heap_table(12)),
{
    lemma_heap_entries();
    lemma_codes_of_word_25(heap_table(6));
    lemma_codes_of_word_6(heap_table(12));
    lemma_charts_agree_through([(0, 2), (0, 3), (1, 3)], heap_table(12), [(0, 2), (0, 1), (1, 3)], heap_table(6), 4, (3, 5, 6, 0, 7, 1, 2, 4));
}

proof fn lemma_chart_607()
    ensures
        chart_signature([(0, 2), (0, 1), (1, 3)], heap_table(7)) == chart_signature([(0, 2), (0, 3), (1, 3)], heap_table(1)),
{
    lemma_heap_entries();
    lemma_codes_of_word_25(heap_table(7));
    lemma_codes_of_word_6(heap_table(1));
    lemma_charts_agree_through([(0, 2), (0, 3), (1, 3)], heap_table(1), [(0, 2), (0, 1), (1, 3)], heap_table(7), 4, (3, 5, 6, 0, 7, 1, 2, 4));
}

proof fn lemma_chart_608()
    ensures
        chart_signature([(0, 2), (0, 1), (1, 3)], heap_table(8)) == chart_signature([(0, 2), (0, 3), (1, 3)], heap_table(1)),
{
    lemma_heap_entries();
    lemma_codes_of_word_25(heap_table(8));
    lemma_codes_of_word_6(heap_table(1));
    lemma_charts_agree_through([(0, 2), (0, 3), (1, 3)], heap_table(1), [(0, 2), (0, 1), (1, 3)], heap_table(8), 5, (5, 3, 7, 1, 6, 0, 4, 2));
}

proof fn lemma_chart_609()
    ensures
        chart_signature([(0, 2), (0, 1), (1, 3)], heap_table(9)) == chart_signature([(0, 2), (0, 3), (1, 3)], heap_table(18)),
{
    lemma_heap_entries();
    lemma_codes_of_word_25(heap_table(9));
    lemma_codes_of_word_6(heap_table(18));
    lemma_charts_agree_through([(0, 2), (0, 3), (1, 3)], heap_table(18), [(0, 2), (0, 1), (1, 3)], heap_table(9), 4, (3, 5, 6, 0, 7, 1, 2, 4));
}

proof fn lemma_chart_610()
    ensures
        chart_signature([(0, 2), (0, 1), (1, 3)], heap_table(10)) == chart_signature([(0, 2), (0, 3), (1, 3)], heap_table(18)),
{
    lemma_heap_entries();
    lemma_codes_of_word_25(heap_table(10));
    lemma_codes_of_word_6(heap_table(18));
    lemma_charts_agree_through([(0, 2), (0, 3), (1, 3)], heap_table(18), [(0, 2), (0, 1), (1, 3)], heap_table(10), 5, (5, 3, 7, 1, 6, 0, 4, 2));
}

proof fn lemma_chart_611()
    ensures
        chart_signature([(0, 2), (0, 1), (1, 3)], heap_table(11)) == chart_signature([(0, 2), (0, 3), (1, 3)], heap_table(12)),
{
    lemma_heap_entries();
    lemma_codes_of_word_25(heap_table(11));
    lemma_codes_of_word_6(heap_table(12));
    lemma_charts_agree_through([(0, 2), (0, 3), (1, 3)], heap_table(12), [(0, 2), (0, 1), (1, 3)], heap_table(11), 5, (5, 3, 7, 1, 6, 0, 4, 2));
}

proof fn lemma_chart_612()
    ensures
        chart_signature([(0, 2), (0, 1), (1, 3)], heap_table(12)) == chart_signature([(0, 2), (0, 3), (1, 3)], heap_table(6)),
{
    lemma_heap_entries();
    lemma_codes_of_word_25(heap_table(12));
    lemma_codes_of_word_6(heap_table(6));
    lemma_charts_agree_through([(0, 2), (0, 3), (1, 3)], heap_table(6), [(0, 2), (0, 1), (1, 3)], heap_table(12), 4, (3, 5, 6, 0, 7, 1, 2, 4));
}

proof fn lemma_chart_613()
    ensures
        chart_signature([(0, 2), (0, 1), (1, 3)], heap_table(13)) == chart_signature([(0, 2), (0, 3), (1, 3)], heap_table(0)),
{
    lemma_heap_entries();
    lemma_codes_of_word_25(heap_table(13));
    lemma_codes_of_word_6(heap_table(0));
    lemma_charts_agree_through([(0, 2), (0, 3), (1, 3)], heap_table(0), [(0, 2), (0, 1), (1, 3)], heap_table(13), 4, (3, 5, 6, 0, 7, 1, 2, 4));
}

proof fn lemma_chart_614()
    ensures
        chart_signature([(0, 2), (0, 1), (1, 3)], heap_table(14)) == chart_signature([(0, 2), (0, 3), (1, 3)], heap_table(0)),
{
    lemma_heap_entries();
    lemma_codes_of_word_25(heap_table(14));
    lemma_codes_of_word_6(heap_table(0));
    lemma_charts_agree_through([(0, 2), (0, 3), (1, 3)], heap_table(0), [(0, 2), (0, 1), (1, 3)], heap_table(14), 5, (5, 3, 7, 1, 6, 0, 4, 2));
}

proof fn lemma_chart_615()
    ensures
        chart_signature([(0, 2), (0, 1), (1, 3)], heap_table(15)) == chart_signature([(0, 2), (0, 3), (1, 3)], heap_table(21)),
{
    lemma_heap_entries();
    lemma_codes_of_word_25(heap_table(15));
    lemma_codes_of_word_6(heap_table(21));
    lemma_charts_agree_through([(0, 2), (0, 3), (1, 3)], heap_table(21), [(0, 2), (0, 1), (1, 3)], heap_table(15), 4, (3, 5, 6, 0, 7, 1, 2, 4));
}

proof fn lemma_chart_616()
    ensures
        chart_signature([(0, 2), (0, 1), (1, 3)], heap_table(16)) == chart_signature([(0, 2), (0, 3), (1, 3)], heap_table(21)),
{
    lemma_heap_entries();
    lemma_codes_of_word_25(heap_table(16));
    lemma_codes_of_word_6(heap_table(21));
    lemma_charts_agree_through([(0, 2), (0, 3), (1, 3)], heap_table(21), [(0, 2), (0, 1), (1, 3)], heap_table(16), 5, (5, 3, 7, 1, 6, 0, 4, 2));
}

proof fn lemma_chart_617()
    ensures
        chart_signature([(0, 2), (0, 1), (1, 3)], heap_table(17)) == chart_signature([(0, 2), (0, 3), (1, 3)], heap_table(6)),
{
    lemma_heap_entries();
    lemma_codes_of_word_25(heap_table(17));
    lemma_codes_of_word_6(heap_table(6));
    lemma_charts_agree_through([(0, 2), (0, 3), (1, 3)], heap_table(6), [(0, 2), (0, 1), (1, 3)], heap_table(17), 5, (5, 3, 7, 1, 6, 0, 4, 2));
}

proof fn lemma_chart_618()
    ensures
        chart_signature([(0, 2), (0, 1), (1, 3)], heap_table(18)) == chart_signature([(0, 2), (0, 3), (1, 3)], heap_table(9)),
{
    lemma_heap_entries();
    lemma_codes_of_word_25(heap_table(18));
    lemma_codes_of_word_6(heap_table(9));
    lemma_charts_agree_through([(0, 2), (0, 3), (1, 3)], heap_table(9), [(0, 2), (0, 1), (1, 3)], heap_table(18), 4, (3, 5, 6, 0, 7, 1, 2, 4));
}

proof fn lemma_chart_619()
    ensures
        chart_signature([(0, 2), (0, 1), (1, 3)], heap_table(19)) == chart_signature([(0, 2), (0, 3), (1, 3)], heap_table(3)),
{
    lemma_heap_entries();
    lemma_codes_of_word_25(heap_table(19));
    lemma_codes_of_word_6(heap_table(3));
    lemma_charts_agree_through([(0, 2), (0, 3), (1, 3)], heap_table(3), [(0, 2), (0, 1), (1, 3)], heap_table(19), 4, (3, 5, 6, 0, 7, 1, 2, 4));
}

proof fn lemma_chart_620()
    ensures
        chart_signature([(0, 2), (0, 1), (1, 3)], heap_table(20)) == chart_signature([(0, 2), (0, 3), (1, 3)], heap_table(3)),
{
    lemma_heap_entries();
    lemma_codes_of_word_25(heap_table(20));
    lemma_codes_of_word_6(heap_table(3));
    lemma_charts_agree_through([(0, 2), (0, 3), (1, 3)], heap_table(3), [(0, 2), (0, 1), (1, 3)], heap_table(20), 5, (5, 3, 7, 1, 6, 0, 4, 2));
}

proof fn lemma_chart_621()
    ensures
        chart_signature([(0, 2), (0, 1), (1, 3)], heap_table(21)) == chart_signature([(0, 2), (0, 3), (1, 3)], heap_table(15)),
{
    lemma_heap_entries();
    lemma_codes_of_word_25(heap_table(21));
    lemma_codes_of_word_6(heap_table(15));
    lemma_charts_agree_through([(0, 2), (0, 3), (1, 3)], heap_table(15), [(0, 2), (0, 1), (1, 3)], heap_table(21), 4, (3, 5, 6, 0, 7, 1, 2, 4));
}

proof fn lemma_chart_622()
    ensures
        chart_signature([(0, 2), (0, 1), (1, 3)], heap_table(22)) == chart_signature([(0, 2), (0, 3), (1, 3)], heap_table(15)),
{
    lemma_heap_entries();
    lemma_codes_of_word_25(heap_table(22));
    lemma_codes_of_word_6(heap_table(15));
    lemma_charts_agree_through([(0, 2), (0, 3), (1, 3)], heap_table(15), [(0, 2), (0, 1), (1, 3)], heap_table(22), 5, (5, 3, 7, 1, 6, 0, 4, 2));
}

proof fn lemma_chart_623()
    ensures
        chart_signature([(0, 2), (0, 1), (1, 3)], heap_table(23)) == chart_signature([(0, 2), (0, 3), (1, 3)], heap_table(9)),
{
    lemma_heap_entries();
    lemma_codes_of_word_25(heap_table(23));
    lemma_codes_of_word_6(heap_table(9));
    lemma_charts_agree_through([(0, 2), (0, 3), (1, 3)], heap_table(9), [(0, 2), (0, 1), (1, 3)], heap_table(23), 5, (5, 3, 7, 1, 6, 0, 4, 2));
}

/// Every chart of atlas word 25 shares its signature with the first chart
/// of a class below 216.
pub proof fn lemma_charts_of_word_25()
    ensures
        forall|t: int| 600 <= t < 624 ==> #[trigger] meets_class_below(t, 216),
{
    lemma_census_words();
    assert forall|t: int| 600 <= t < 624 implies #[trigger] meets_class_below(t, 216) by {
        if t == 600 { lemma_chart_600(); assert(atlas_signatures()[class_rep(67)] == atlas_signatures()[600]); }
        else if t == 601 { lemma_chart_601(); assert(atlas_signatures()[class_rep(64)] == atlas_signatures()[601]); }
        else if t == 602 { lemma_chart_602(); assert(atlas_signatures()[class_rep(64)] == atlas_signatures()[602]); }
        else if t == 603 { lemma_chart_603(); assert(atlas_signatures()[class_rep(70)] == atlas_signatures()[603]); }
        else if t == 604 { lemma_chart_604(); assert(atlas_signatures()[class_rep(70)] == atlas_signatures()[604]); }
        else if t == 605 { lemma_chart_605(); assert(atlas_signatures()[class_rep(67)] == atlas_signatures()[605]); }
        else if t == 606 { lemma_chart_606(); assert(atlas_signatures()[class_rep(66)] == atlas_signatures()[606]); }
        else if t == 607 { lemma_chart_607(); assert(atlas_signatures()[class_rep(61)] == atlas_signatures()[607]); }
        else if t == 608 { lemma_chart_608(); assert(atlas_signatures()[class_rep(61)] == atlas_signatures()[608]); }
        else if t == 609 { lemma_chart_609(); assert(atlas_signatures()[class_rep(69)] == atlas_signatures()[609]); }
        else if t == 610 { lemma_chart_610(); assert(atlas_signatures()[class_rep(69)] == atlas_signatures()[610]); }
        else if t == 611 { lemma_chart_611(); assert(atlas_signatures()[class_rep(66)] == atlas_signatures()[611]); }
        else if t == 612 { lemma_chart_612(); assert(atlas_signatures()[class_rep(63)] == atlas_signatures()[612]); }
        else if t == 613 { lemma_chart_613(); assert(atlas_signatures()[class_rep(60)] == atlas_signatures()[613]); }
        else if t == 614 { lemma_chart_614(); assert(atlas_signatures()[class_rep(60)] == atlas_signatures()[614]); }
        else if t == 615 { lemma_chart_615(); assert(atlas_signatures()[class_rep(71)] == atlas_signatures()[615]); }
        else if t == 616 { lemma_chart_616(); assert(atlas_signatures()[class_rep(71)] == atlas_signatures()[616]); }
        else if t == 617 { lemma_chart_617(); assert(atlas_signatures()[class_rep(63)] == atlas_signatures()[617]); }
        else if t == 618 { lemma_chart_618(); assert(atlas_signatures()[class_rep(65)] == atlas_signatures()[618]); }
        else if t == 619 { lemma_chart_619(); assert(atlas_signatures()[class_rep(62)] == atlas_signatures()[619]); }
        else if t == 620 { lemma_chart_620(); assert(atlas_signatures()[class_rep(62)] == atlas_signatures()[620]); }
        else if t == 621 { lemma_chart_621(); assert(atlas_signatures()[class_rep(68)] == atlas_signatures()[621]); }
        else if t == 622 { lemma_chart_622(); assert(atlas_signatures()[class_rep(68)] == atlas_signatures()[622]); }
        else { lemma_chart_623(); assert(atlas_signatures()[class_rep(65)] == atlas_signatures()[623]); }
    }
}

proof fn lemma_chart_626()
    ensures
        chart_signature([(0, 2), (0, 1), (2, 3)], heap_table(2)) == chart_signature([(0, 2), (0, 1), (2, 3)], heap_table(1)),
{
    lemma_heap_entries();
    lemma_codes_of_word_26(heap_table(2));
    lemma_codes_of_word_26(heap_table(1));
    lemma_charts_agree_through([(0, 2), (0, 1), (2, 3)], heap_table(1), [(0, 2), (0, 1), (2, 3)], heap_table(2), 1, (1, 0, 4, 5, 2, 3, 7, 6));
}

proof fn lemma_chart_628()
    ensures
        chart_signature([(0, 2), (0, 1), (2, 3)], heap_table(4)) == chart_signature([(0, 2), (0, 1), (2, 3)], heap_table(3)),
{
    lemma_heap_entries();
    lemma_codes_of_word_26(heap_table(4));
    lemma_codes_of_word_26(heap_table(3));
    lemma_charts_agree_through([(0, 2), (0, 1), (2, 3)], heap_table(3), [(0, 2), (0, 1), (2, 3)], heap_table(4), 1, (1, 0, 4, 5, 2, 3, 7, 6));
}

proof fn lemma_chart_629()
    ensures
        chart_signature([(0, 2), (0, 1), (2, 3)], heap_table(5)) == chart_signature([(0, 2), (0, 1), (2, 3)], heap_table(0)),
{
    lemma_heap_entries();
    lemma_codes_of_word_26(heap_table(5));
    lemma_codes_of_word_26(heap_table(0));
    lemma_charts_agree_through([(0, 2), (0, 1), (2, 3)], heap_table(0), [(0, 2), (0, 1), (2, 3)], heap_table(5), 1, (1, 0, 4, 5, 2, 3, 7, 6));
}

proof fn lemma_chart_632()
    ensures
        chart_signature([(0, 2), (0, 1), (2, 3)], heap_table(8)) == chart_signature([(0, 2), (0, 1), (2, 3)], heap_table(7)),
{
    lemma_heap_entries();
    lemma_codes_of_word_26(heap_table(8));
    lemma_codes_of_word_26(heap_table(7));
    lemma_charts_agree_through([(0, 2), (0, 1), (2, 3)], heap_table(7), [(0, 2), (0, 1), (2, 3)], heap_table(8), 1, (1, 0, 4, 5, 2, 3, 7, 6));
}

proof fn lemma_chart_634()
    ensures
        chart_signature([(0, 2), (0, 1), (2, 3)], heap_table(10)) == chart_signature([(0, 2), (0, 1), (2, 3)], heap_table(9)),
{
    lemma_heap_entries();
    lemma_codes_of_word_26(heap_table(10));
    lemma_codes_of_word_26(heap_table(9));
    lemma_charts_agree_through([(0, 2), (0, 1), (2, 3)], heap_table(9), [(0, 2), (0, 1), (2, 3)], heap_table(10), 1, (1, 0, 4, 5, 2, 3, 7, 6));
}

proof fn lemma_chart_635()
    ensures
        chart_signature([(0, 2), (0, 1), (2, 3)], heap_table(11)) == chart_signature([(0, 2), (0, 1), (2, 3)], heap_table(6)),
{
    lemma_heap_entries();
    lemma_codes_of_word_26(heap_table(11));
    lemma_codes_of_word_26(heap_table(6));
    lemma_charts_agree_through([(0, 2), (0, 1), (2, 3)], heap_table(6), [(0, 2), (0, 1), (2, 3)], heap_table(11), 1, (1, 0, 4, 5, 2, 3, 7, 6));
}

proof fn lemma_chart_638()
    ensures
        chart_signature([(0, 2), (0, 1), (2, 3)], heap_table(14)) == chart_signature([(0, 2), (0, 1), (2, 3)], heap_table(13)),
{
    lemma_heap_entries();
    lemma_codes_of_word_26(heap_table(14));
    lemma_codes_of_word_26(heap_table(13));
    lemma_charts_agree_through([(0, 2), (0, 1), (2, 3)], heap_table(13), [(0, 2), (0, 1), (2, 3)], heap_table(14), 1, (1, 0, 4, 5, 2, 3, 7, 6));
}

proof fn lemma_chart_640()
    ensures
        chart_signature([(0, 2), (0, 1), (2, 3)], heap_table(16)) == chart_signature([(0, 2), (0, 1), (2, 3)], heap_table(15)),
{
    lemma_heap_entries();
    lemma_codes_of_word_26(heap_table(16));
    lemma_codes_of_word_26(heap_table(15));
    lemma_charts_agree_through([(0, 2), (0, 1), (2, 3)], heap_table(15), [(0, 2), (0, 1), (2, 3)], heap_table(16), 1, (1, 0, 4, 5, 2, 3, 7, 6));
}

proof fn lemma_chart_641()
    ensures
        chart_signature([(0, 2), (0, 1), (2, 3)], heap_table(17)) == chart_signature([(0, 2), (0, 1), (2, 3)], heap_table(12)),
{
    lemma_heap_entries();
    lemma_codes_of_word_26(heap_table(17));
    lemma_codes_of_word_26(heap_table(12));
    lemma_charts_agree_through([(0, 2), (0, 1), (2, 3)], heap_table(12), [(0, 2), (0, 1), (2, 3)], heap_table(17), 1, (1, 0, 4, 5, 2, 3, 7, 6));
}

proof fn lemma_chart_644()
    ensures
        chart_signature([(0, 2), (0, 1), (2, 3)], heap_table(20)) == chart_signature([(0, 2), (0, 1), (2, 3)], heap_table(19)),
{
    lemma_heap_entries();
    lemma_codes_of_word_26(heap_table(20));
    lemma_codes_of_word_26(heap_table(19));
    lemma_charts_agree_through([(0, 2), (0, 1), (2, 3)], heap_table(19), [(0, 2), (0, 1), (2, 3)], heap_table(20), 1, (1, 0, 4, 5, 2, 3, 7, 6));
}

proof fn lemma_chart_646()
    ensures
        chart_signature([(0, 2), (0, 1), (2, 3)], heap_table(22)) == chart_signature([(0, 2), (0, 1), (2, 3)], heap_table(21)),
{
    lemma_heap_entries();
    lemma_codes_of_word_26(heap_table(22));
    lemma_codes_of_word_26(heap_table(21));
    lemma_charts_agree_through([(0, 2), (0, 1), (2, 3)], heap_table(21), [(0, 2), (0, 1), (2, 3)], heap_table(22), 1, (1, 0, 4, 5, 2, 3, 7, 6));
}

proof fn lemma_chart_647()
    ensures
        chart_signature([(0, 2), (0, 1), (2, 3)], heap_table(23)) == chart_signature([(0, 2), (0, 1), (2, 3)], heap_table(18)),
{
    lemma_heap_entries();
    lemma_codes_of_word_26(heap_table(23));
    lemma_codes_of_word_26(heap_table(18));
    lemma_charts_agree_through([(0, 2), (0, 1), (2, 3)], heap_table(18), [(0, 2), (0, 1), (2, 3)], heap_table(23), 1, (1, 0, 4, 5, 2, 3, 7, 6));
}

/// Every chart of atlas word 26 shares its signature with the first chart
/// of a class below 216.
pub proof fn lemma_charts_of_word_26()
    ensures
        forall|t: int| 624 <= t < 648 ==> #[trigger] meets_class_below(t, 216),
{
    lemma_census_words();
    assert forall|t: int| 624 <= t < 648 implies #[trigger] meets_class_below(t, 216) by {
        if t == 624 { assert(atlas_signatures()[class_rep(150)] == atlas_signatures()[624]); }
        else if t == 625 { assert(atlas_signatures()[class_rep(151)] == atlas_signatures()[625]); }
        else if t == 626 { lemma_chart_626(); assert(atlas_signatures()[class_rep(151)] == atlas_signatures()[626]); }
        else if t == 627 { assert(atlas_signatures()[class_rep(152)] == atlas_signatures()[627]); }
        else if t == 628 { lemma_chart_628(); assert(atlas_signatures()[class_rep(152)] == atlas_signatures()[628]); }
        else if t == 629 { lemma_chart_629(); assert(atlas_signatures()[class_rep(150)] == atlas_signatures()[629]); }
        else if t == 630 { assert(atlas_signatures()[class_rep(153)] == atlas_signatures()[630]); }
        else if t == 631 { assert(atlas_signatures()[class_rep(154)] == atlas_signatures()[631]); }
        else if t == 632 { lemma_chart_632(); assert(atlas_signatures()[class_rep(154)] == atlas_signatures()[632]); }
        else if t == 633 { assert(atlas_signatures()[class_rep(155)] == atlas_signatures()[633]); }
        else if t == 634 { lemma_chart_634(); assert(atlas_signatures()[class_rep(155)] == atlas_signatures()[634]); }
        else if t == 635 { lemma_chart_635(); assert(atlas_signatures()[class_rep(153)] == atlas_signatures()[635]); }
        else if t == 636 { assert(atlas_signatures()[class_rep(156)] == atlas_signatures()[636]); }
        else if t == 637 { assert(atlas_signatures()[class_rep(157)] == atlas_signatures()[637]); }
        else if t == 638 { lemma_chart_638(); assert(atlas_signatures()[class_rep(157)] == atlas_signatures()[638]); }
        else if t == 639 { assert(atlas_signatures()[class_rep(158)] == atlas_signatures()[639]); }
        else if t == 640 { lemma_chart_640(); assert(atlas_signatures()[class_rep(158)] == atlas_signatures()[640]); }
        else if t == 641 { lemma_chart_641(); assert(atlas_signatures()[class_rep(156)] == atlas_signatures()[641]); }
        else if t == 642 { assert(atlas_signatures()[class_rep(159)] == atlas_signatures()[642]); }
        else if t == 643 { assert(atlas_signatures()[class_rep(160)] == atlas_signatures()[643]); }
        else if t == 644 { lemma_chart_644(); assert(atlas_signatures()[class_rep(160)] == atlas_signatures()[644]); }
        else if t == 645 { assert(atlas_signatures()[class_rep(161)] == atlas_signatures()[645]); }
        else if t == 646 { lemma_chart_646(); assert(atlas_signatures()[class_rep(161)] == atlas_signatures()[646]); }
        else { lemma_chart_647(); assert(atlas_signatures()[class_rep(159)] == atlas_signatures()[647]); }
    }
}

proof fn lemma_chart_650()
    ensures
        chart_signature([(0, 2), (0, 3), (0, 1)], heap_table(2)) == chart_signature([(0, 2), (0, 3), (0, 1)], heap_table(1)),
{
    lemma_heap_entries();
    lemma_codes_of_word_27(heap_table(2));
    lemma_codes_of_word_27(heap_table(1));
    lemma_charts_agree_through([(0, 2), (0, 3), (0, 1)], heap_table(1), [(0, 2), (0, 3), (0, 1)], heap_table(2), 1, (1, 0, 4, 5, 2, 3, 7, 6));
}

proof fn lemma_chart_652()
    ensures
        chart_signature([(0, 2), (0, 3), (0, 1)], heap_table(4)) == chart_signature([(0, 2), (0, 3), (0, 1)], heap_table(3)),
{
    lemma_heap_entries();
    lemma_codes_of_word_27(heap_table(4));
    lemma_codes_of_word_27(heap_table(3));
    lemma_charts_agree_through([(0, 2), (0, 3), (0, 1)], heap_table(3), [(0, 2), (0, 3), (0, 1)], heap_table(4), 1, (1, 0, 4, 5, 2, 3, 7, 6));
}

proof fn lemma_chart_653()
    ensures
        chart_signature([(0, 2), (0, 3), (0, 1)], heap_table(5)) == chart_signature([(0, 2), (0, 3), (0, 1)], heap_table(0)),
{
    lemma_heap_entries();
    lemma_codes_of_word_27(heap_table(5));
    lemma_codes_of_word_27(heap_table(0));
    lemma_charts_agree_through([(0, 2), (0, 3), (0, 1)], heap_table(0), [(0, 2), (0, 3), (0, 1)], heap_table(5), 1, (1, 0, 4, 5, 2, 3, 7, 6));
}

proof fn lemma_chart_656()
    ensures
        chart_signature([(0, 2), (0, 3), (0, 1)], heap_table(8)) == chart_signature([(0, 2), (0, 3), (0, 1)], heap_table(7)),
{
    lemma_heap_entries();
    lemma_codes_of_word_27(heap_table(8));
    lemma_codes_of_word_27(heap_table(7));
    lemma_charts_agree_through([(0, 2), (0, 3), (0, 1)], heap_table(7), [(0, 2), (0, 3), (0, 1)], heap_table(8), 1, (1, 0, 4, 5, 2, 3, 7, 6));
}

proof fn lemma_chart_658()
    ensures
        chart_signature([(0, 2), (0, 3), (0, 1)], heap_table(10)) == chart_signature([(0, 2), (0, 3), (0, 1)], heap_table(9)),
{
    lemma_heap_entries();
    lemma_codes_of_word_27(heap_table(10));
    lemma_codes_of_word_27(heap_table(9));
    lemma_charts_agree_through([(0, 2), (0, 3), (0, 1)], heap_table(9), [(0, 2), (0, 3), (0, 1)], heap_table(10), 1, (1, 0, 4, 5, 2, 3, 7, 6));
}

proof fn lemma_chart_659()
    ensures
        chart_signature([(0, 2), (0, 3), (0, 1)], heap_table(11)) == chart_signature([(0, 2), (0, 3), (0, 1)], heap_table(6)),
{
    lemma_heap_entries();
    lemma_codes_of_word_27(heap_table(11));
    lemma_codes_of_word_27(heap_table(6));
    lemma_charts_agree_through([(0, 2), (0, 3), (0, 1)], heap_table(6), [(0, 2), (0, 3), (0, 1)], heap_table(11), 1, (1, 0, 4, 5, 2, 3, 7, 6));
}

proof fn lemma_chart_662()
    ensures
        chart_signature([(0, 2), (0, 3), (0, 1)], heap_table(14)) == chart_signature([(0, 2), (0, 3), (0, 1)], heap_table(13)),
{
    lemma_heap_entries();
    lemma_codes_of_word_27(heap_table(14));
    lemma_codes_of_word_27(heap_table(13));
    lemma_charts_agree_through([(0, 2), (0, 3), (0, 1)], heap_table(13), [(0, 2), (0, 3), (0, 1)], heap_table(14), 1, (1, 0, 4, 5, 2, 3, 7, 6));
}

proof fn lemma_chart_664()
    ensures
        chart_signature([(0, 2), (0, 3), (0, 1)], heap_table(16)) == chart_signature([(0, 2), (0, 3), (0, 1)], heap_table(15)),
{
    lemma_heap_entries();
    lemma_codes_of_word_27(heap_table(16));
    lemma_codes_of_word_27(heap_table(15));
    lemma_charts_agree_through([(0, 2), (0, 3), (0, 1)], heap_table(15), [(0, 2), (0, 3), (0, 1)], heap_table(16), 1, (1, 0, 4, 5, 2, 3, 7, 6));
}

proof fn lemma_chart_665()
    ensures
        chart_signature([(0, 2), (0, 3), (0, 1)], heap_table(17)) == chart_signature([(0, 2), (0, 3), (0, 1)], heap_table(12)),
{
    lemma_heap_entries();
    lemma_codes_of_word_27(heap_table(17));
    lemma_codes_of_word_27(heap_table(12));
    lemma_charts_agree_through([(0, 2), (0, 3), (0, 1)], heap_table(12), [(0, 2), (0, 3), (0, 1)], heap_table(17), 1, (1, 0, 4, 5, 2, 3, 7, 6));
}

proof fn lemma_chart_668()
    ensures
        chart_signature([(0, 2), (0, 3), (0, 1)], heap_table(20)) == chart_signature([(0, 2), (0, 3), (0, 1)], heap_table(19)),
{
    lemma_heap_entries();
    lemma_codes_of_word_27(heap_table(20));
    lemma_codes_of_word_27(heap_table(19));
    lemma_charts_agree_through([(0, 2), (0, 3), (0, 1)], heap_table(19), [(0, 2), (0, 3), (0, 1)], heap_table(20), 1, (1, 0, 4, 5, 2, 3, 7, 6));
}

proof fn lemma_chart_670()
    ensures
        chart_signature([(0, 2), (0, 3), (0, 1)], heap_table(22)) == chart_signature([(0, 2), (0, 3), (0, 1)], heap_table(21)),
{
    lemma_heap_entries();
    lemma_codes_of_word_27(heap_table(22));
    lemma_codes_of_word_27(heap_table(21));
    lemma_charts_agree_through([(0, 2), (0, 3), (0, 1)], heap_table(21), [(0, 2), (0, 3), (0, 1)], heap_table(22), 1, (1, 0, 4, 5, 2, 3, 7, 6));
}

proof fn lemma_chart_671()
    ensures
        chart_signature([(0, 2), (0, 3), (0, 1)], heap_table(23)) == chart_signature([(0, 2), (0, 3), (0, 1)], heap_table(18)),
{
    lemma_heap_entries();
    lemma_codes_of_word_27(heap_table(23));
    lemma_codes_of_word_27(heap_table(18));
    lemma_charts_agree_through([(0, 2), (0, 3), (0, 1)], heap_table(18), [(0, 2), (0, 3), (0, 1)], heap_table(23), 1, (1, 0, 4, 5, 2, 3, 7, 6));
}

/// Every chart of atlas word 27 shares its signature with the first chart
/// of a class below 216.
pub proof fn lemma_charts_of_word_27()
    ensures
        forall|t: int| 648 <= t < 672 ==> #[trigger] meets_class_below(t, 216),
{
    lemma_census_words();
    assert forall|t: int| 648 <= t < 672 implies #[trigger] meets_class_below(t, 216) by {
        if t == 648 { assert(atlas_signatures()[class_rep(162)] == atlas_signatures()[648]); }
        else if t == 649 { assert(atlas_signatures()[class_rep(163)] == atlas_signatures()[649]); }
        else if t == 650 { lemma_chart_650(); assert(atlas_signatures()[class_rep(163)] == atlas_signatures()[650]); }
        else if t == 651 { assert(atlas_signatures()[class_rep(164)] == atlas_signatures()[651]); }
        else if t == 652 { lemma_chart_652(); assert(atlas_signatures()[class_rep(164)] == atlas_signatures()[652]); }
        else if t == 653 { lemma_chart_653(); assert(atlas_signatures()[class_rep(162)] == atlas_signatures()[653]); }
        else if t == 654 { assert(atlas_signatures()[class_rep(165)] == atlas_signatures()[654]); }
        else if t == 655 { assert(atlas_signatures()[class_rep(166)] == atlas_signatures()[655]); }
        else if t == 656 { lemma_chart_656(); assert(atlas_signatures()[class_rep(166)] == atlas_signatures()[656]); }
        else if t == 657 { assert(atlas_signatures()[class_rep(167)] == atlas_signatures()[657]); }
        else if t == 658 { lemma_chart_658(); assert(atlas_signatures()[class_rep(167)] == atlas_signatures()[658]); }
        else if t == 659 { lemma_chart_659(); assert(atlas_signatures()[class_rep(165)] == atlas_signatures()[659]); }
        else if t == 660 { assert(atlas_signatures()[class_rep(168)] == atlas_signatures()[660]); }
        else if t == 661 { assert(atlas_signatures()[class_rep(169)] == atlas_signatures()[661]); }
        else if t == 662 { lemma_chart_662(); assert(atlas_signatures()[class_rep(169)] == atlas_signatures()[662]); }
        else if t == 663 { assert(atlas_signatures()[class_rep(170)] == atlas_signatures()[663]); }
        else if t == 664 { lemma_chart_664(); assert(atlas_signatures()[class_rep(170)] == atlas_signatures()[664]); }
        else if t == 665 { lemma_chart_665(); assert(atlas_signatures()[class_rep(168)] == atlas_signatures()[665]); }
        else if t == 666 { assert(atlas_signatures()[class_rep(171)] == atlas_signatures()[666]); }
        else if t == 667 { assert(atlas_signatures()[class_rep(172)] == atlas_signatures()[667]); }
        else if t == 668 { lemma_chart_668(); assert(atlas_signatures()[class_rep(172)] == atlas_signatures()[668]); }
        else if t == 669 { assert(atlas_signatures()[class_rep(173)] == atlas_signatures()[669]); }
        else if t == 670 { lemma_chart_670(); assert(atlas_signatures()[class_rep(173)] == atlas_signatures()[670]); }
        else { lemma_chart_671(); assert(atlas_signatures()[class_rep(171)] == atlas_signatures()[671]); }
    }
}

proof fn lemma_chart_672()
    ensures
        chart_signature([(0, 2), (1, 2), (0, 3)], heap_table(0)) == chart_signature([(0, 2), (0, 3), (1, 2)], heap_table(0)),
{
    lemma_heap_entries();
    lemma_codes_of_word_28(heap_table(0));
    lemma_codes_of_word_3(heap_table(0));
    lemma_charts_agree_through([(0, 2), (0, 3), (1, 2)], heap_table(0), [(0, 2), (1, 2), (0, 3)], heap_table(0), 8, (0, 1, 3, 2, 5, 4, 6, 7));
}

proof fn lemma_chart_673()
    ensures
        chart_signature([(0, 2), (1, 2), (0, 3)], heap_table(1)) == chart_signature([(0, 2), (0, 3), (1, 2)], heap_table(1)),
{
    lemma_heap_entries();
    lemma_codes_of_word_28(heap_table(1));
    lemma_codes_of_word_3(heap_table(1));
    lemma_charts_agree_through([(0, 2), (0, 3), (1, 2)], heap_table(1), [(0, 2), (1, 2), (0, 3)], heap_table(1), 8, (0, 1, 3, 2, 5, 4, 6, 7));
}

proof fn lemma_chart_674()
    ensures
        chart_signature([(0, 2), (1, 2), (0, 3)], heap_table(2)) == chart_signature([(0, 2), (0, 3), (1, 2)], heap_table(1)),
{
    lemma_heap_entries();
    lemma_codes_of_word_28(heap_table(2));
    lemma_codes_of_word_3(heap_table(1));
    lemma_charts_agree_through([(0, 2), (0, 3), (1, 2)], heap_table(1), [(0, 2), (1, 2), (0, 3)], heap_table(2), 9, (1, 0, 5, 4, 3, 2, 7, 6));
}

proof fn lemma_chart_675()
    ensures
        chart_signature([(0, 2), (1, 2), (0, 3)], heap_table(3)) == chart_signature([(0, 2), (0, 3), (1, 2)], heap_table(3)),
{
    lemma_heap_entries();
    lemma_codes_of_word_28(heap_table(3));
    lemma_codes_of_word_3(heap_table(3));
    lemma_charts_agree_through([(0, 2), (0, 3), (1, 2)], heap_table(3), [(0, 2), (1, 2), (0, 3)], heap_table(3), 8, (0, 1, 3, 2, 5, 4, 6, 7));
}

proof fn lemma_chart_676()
    ensures
        chart_signature([(0, 2), (1, 2), (0, 3)], heap_table(4)) == chart_signature([(0, 2), (0, 3), (1, 2)], heap_table(3)),
{
    lemma_heap_entries();
    lemma_codes_of_word_28(heap_table(4));
    lemma_codes_of_word_3(heap_table(3));
    lemma_charts_agree_through([(0, 2), (0, 3), (1, 2)], heap_table(3), [(0, 2), (1, 2), (0, 3)], heap_table(4), 9, (1, 0, 5, 4, 3, 2, 7, 6));
}

proof fn lemma_chart_677()
    ensures
        chart_signature([(0, 2), (1, 2), (0, 3)], heap_table(5)) == chart_signature([(0, 2), (0, 3), (1, 2)], heap_table(0)),
{
    lemma_heap_entries();
    lemma_codes_of_word_28(heap_table(5));
    lemma_codes_of_word_3(heap_table(0));
    lemma_charts_agree_through([(0, 2), (0, 3), (1, 2)], heap_table(0), [(0, 2), (1, 2), (0, 3)], heap_table(5), 9, (1, 0, 5, 4, 3, 2, 7, 6));
}

proof fn lemma_chart_678()
    ensures
        chart_signature([(0, 2), (1, 2), (0, 3)], heap_table(6)) == chart_signature([(0, 2), (0, 3), (1, 2)], heap_table(6)),
{
    lemma_heap_entries();
    lemma_codes_of_word_28(heap_table(6));
    lemma_codes_of_word_3(heap_table(6));
    lemma_charts_agree_through([(0, 2), (0, 3), (1, 2)], heap_table(6), [(0, 2), (1, 2), (0, 3)], heap_table(6), 8, (0, 1, 3, 2, 5, 4, 6, 7));
}

proof fn lemma_chart_679()
    ensures
        chart_signature([(0, 2), (1, 2), (0, 3)], heap_table(7)) == chart_signature([(0, 2), (0, 3), (1, 2)], heap_table(7)),
{
    lemma_heap_entries();
    lemma_codes_of_word_28(heap_table(7));
    lemma_codes_of_word_3(heap_table(7));
    lemma_charts_agree_through([(0, 2), (0, 3), (1, 2)], heap_table(7), [(0, 2), (1, 2), (0, 3)], heap_table(7), 8, (0, 1, 3, 2, 5, 4, 6, 7));
}

proof fn lemma_chart_680()
    ensures
        chart_signature([(0, 2), (1, 2), (0, 3)], heap_table(8)) == chart_signature([(0, 2), (0, 3), (1, 2)], heap_table(7)),
{
    lemma_heap_entries();
    lemma_codes_of_word_28(heap_table(8));
    lemma_codes_of_word_3(heap_table(7));
    lemma_charts_agree_through([(0, 2), (0, 3), (1, 2)], heap_table(7), [(0, 2), (1, 2), (0, 3)], heap_table(8), 9, (1, 0, 5, 4, 3, 2, 7, 6));
}

proof fn lemma_chart_681()
    ensures
        chart_signature([(0, 2), (1, 2), (0, 3)], heap_table(9)) == chart_signature([(0, 2), (0, 3), (1, 2)], heap_table(9)),
{
    lemma_heap_entries();
    lemma_codes_of_word_28(heap_table(9));
    lemma_codes_of_word_3(heap_table(9));
    lemma_charts_agree_through([(0, 2), (0, 3), (1, 2)], heap_table(9), [(0, 2), (1, 2), (0, 3)], heap_table(9), 8, (0, 1, 3, 2, 5, 4, 6, 7));
}

proof fn lemma_chart_682()
    ensures
        chart_signature([(0, 2), (1, 2), (0, 3)], heap_table(10)) == chart_signature([(0, 2), (0, 3), (1, 2)], heap_table(9)),
{
    lemma_heap_entries();
    lemma_codes_of_word_28(heap_table(10));
    lemma_codes_of_word_3(heap_table(9));
    lemma_charts_agree_through([(0, 2), (0, 3), (1, 2)], heap_table(9), [(0, 2), (1, 2), (0, 3)], heap_table(10), 9, (1, 0, 5, 4, 3, 2, 7, 6));
}

proof fn lemma_chart_683()
    ensures
        chart_signature([(0, 2), (1, 2), (0, 3)], heap_table(11)) == chart_signature([(0, 2), (0, 3), (1, 2)], heap_table(6)),
{
    lemma_heap_entries();
    lemma_codes_of_word_28(heap_table(11));
    lemma_codes_of_word_3(heap_table(6));
    lemma_charts_agree_through([(0, 2), (0, 3), (1, 2)], heap_table(6), [(0, 2), (1, 2), (0, 3)], heap_table(11), 9, (1, 0, 5, 4, 3, 2, 7, 6));
}

proof fn lemma_chart_684()
    ensures
        chart_signature([(0, 2), (1, 2), (0, 3)], heap_table(12)) == chart_signature([(0, 2), (0, 3), (1, 2)], heap_table(12)),
{
    lemma_heap_entries();
    lemma_codes_of_word_28(heap_table(12));
    lemma_codes_of_word_3(heap_table(12));
    lemma_charts_agree_through([(0, 2), (0, 3), (1, 2)], heap_table(12), [(0, 2), (1, 2), (0, 3)], heap_table(12), 8, (0, 1, 3, 2, 5, 4, 6, 7));
}

proof fn lemma_chart_685()
    ensures
        chart_signature([(0, 2), (1, 2), (0, 3)], heap_table(13)) == chart_signature([(0, 2), (0, 3), (1, 2)], heap_table(13)),
{
    lemma_heap_entries();
    lemma_codes_of_word_28(heap_table(13));
    lemma_codes_of_word_3(heap_table(13));
    lemma_charts_agree_through([(0, 2), (0, 3), (1, 2)], heap_table(13), [(0, 2), (1, 2), (0, 3)], heap_table(13), 8, (0, 1, 3, 2, 5, 4, 6, 7));
}

proof fn lemma_chart_686()
    ensures
        chart_signature([(0, 2), (1, 2), (0, 3)], heap_table(14)) == chart_signature([(0, 2), (0, 3), (1, 2)], heap_table(13)),
{
    lemma_heap_entries();
    lemma_codes_of_word_28(heap_table(14));
    lemma_codes_of_word_3(heap_table(13));
    lemma_charts_agree_through([(0, 2), (0, 3), (1, 2)], heap_table(13), [(0, 2), (1, 2), (0, 3)], heap_table(14), 9, (1, 0, 5, 4, 3, 2, 7, 6));
}

proof fn lemma_chart_687()
    ensures
        chart_signature([(0, 2), (1, 2), (0, 3)], heap_table(15)) == chart_signature([(0, 2), (0, 3), (1, 2)], heap_table(15)),
{
    lemma_heap_entries();
    lemma_codes_of_word_28(heap_table(15));
    lemma_codes_of_word_3(heap_table(15));
    lemma_charts_agree_through([(0, 2), (0, 3), (1, 2)], heap_table(15), [(0, 2), (1, 2), (0, 3)], heap_table(15), 8, (0, 1, 3, 2, 5, 4, 6, 7));
}

proof fn lemma_chart_688()
    ensures
        chart_signature([(0, 2), (1, 2), (0, 3)], heap_table(16)) == chart_signature([(0, 2), (0, 3), (1, 2)], heap_table(15)),
{
    lemma_heap_entries();
    lemma_codes_of_word_28(heap_table(16));
    lemma_codes_of_word_3(heap_table(15));
    lemma_charts_agree_through([(0, 2), (0, 3), (1, 2)], heap_table(15), [(0, 2), (1, 2), (0, 3)], heap_table(16), 9, (1, 0, 5, 4, 3, 2, 7, 6));
}

proof fn lemma_chart_689()
    ensures
        chart_signature([(0, 2), (1, 2), (0, 3)], heap_table(17)) == chart_signature([(0, 2), (0, 3), (1, 2)], heap_table(12)),
{
    lemma_heap_entries();
    lemma_codes_of_word_28(heap_table(17));
    lemma_codes_of_word_3(heap_table(12));
    lemma_charts_agree_through([(0, 2), (0, 3), (1, 2)], heap_table(12), [(0, 2), (1, 2), (0, 3)], heap_table(17), 9, (1, 0, 5, 4, 3, 2, 7, 6));
}

proof fn lemma_chart_690()
    ensures
        chart_signature([(0, 2), (1, 2), (0, 3)], heap_table(18)) == chart_signature([(0, 2), (0, 3), (1, 2)], heap_table(18)),
{
    lemma_heap_entries();
    lemma_codes_of_word_28(heap_table(18));
    lemma_codes_of_word_3(heap_table(18));
    lemma_charts_agree_through([(0, 2), (0, 3), (1, 2)], heap_table(18), [(0, 2), (1, 2), (0, 3)], heap_table(18), 8, (0, 1, 3, 2, 5, 4, 6, 7));
}

proof fn lemma_chart_691()
    ensures
        chart_signature([(0, 2), (1, 2), (0, 3)], heap_table(19)) == chart_signature([(0, 2), (0, 3), (1, 2)], heap_table(19)),
{
    lemma_heap_entries();
    lemma_codes_of_word_28(heap_table(19));
    lemma_codes_of_word_3(heap_table(19));
    lemma_charts_agree_through([(0, 2), (0, 3), (1, 2)], heap_table(19), [(0, 2), (1, 2), (0, 3)], heap_table(19), 8, (0, 1, 3, 2, 5, 4, 6, 7));
}

proof fn lemma_chart_692()
    ensures
        chart_signature([(0, 2), (1, 2), (0, 3)], heap_table(20)) == chart_signature([(0, 2), (0, 3), (1, 2)], heap_table(19)),
{
    lemma_heap_entries();
    lemma_codes_of_word_28(heap_table(20));
    lemma_codes_of_word_3(heap_table(19));
    lemma_charts_agree_through([(0, 2), (0, 3), (1, 2)], heap_table(19), [(0, 2), (1, 2), (0, 3)], heap_table(20), 9, (1, 0, 5, 4, 3, 2, 7, 6));
}

proof fn lemma_chart_693()
    ensures
        chart_signature([(0, 2), (1, 2), (0, 3)], heap_table(21)) == chart_signature([(0, 2), (0, 3), (1, 2)], heap_table(21)),
{
    lemma_heap_entries();
    lemma_codes_of_word_28(heap_table(21));
    lemma_codes_of_word_3(heap_table(21));
    lemma_charts_agree_through([(0, 2), (0, 3), (1, 2)], heap_table(21), [(0, 2), (1, 2), (0, 3)], heap_table(21), 8, (0, 1, 3, 2, 5, 4, 6, 7));
}

proof fn lemma_chart_694()
    ensures
        chart_signature([(0, 2), (1, 2), (0, 3)], heap_table(22)) == chart_signature([(0, 2), (0, 3), (1, 2)], heap_table(21)),
{
    lemma_heap_entries();
    lemma_codes_of_word_28(heap_table(22));
    lemma_codes_of_word_3(heap_table(21));
    lemma_charts_agree_through([(0, 2), (0, 3), (1, 2)], heap_table(21), [(0, 2), (1, 2), (0, 3)], heap_table(22), 9, (1, 0, 5, 4, 3, 2, 7, 6));
}

proof fn lemma_chart_695()
    ensures
        chart_signature([(0, 2), (1, 2), (0, 3)], heap_table(23)) == chart_signature([(0, 2), (0, 3), (1, 2)], heap_table(18)),
{
    lemma_heap_entries();
    lemma_codes_of_word_28(heap_table(23));
    lemma_codes_of_word_3(heap_table(18));
    lemma_charts_agree_through([(0, 2), (0, 3), (1, 2)], heap_table(18), [(0, 2), (1, 2), (0, 3)], heap_table(23), 9, (1, 0, 5, 4, 3, 2, 7, 6));
}

/// Every chart of atlas word 28 shares its signature with the first chart
/// of a class below 216.
pub proof fn lemma_charts_of_word_28()
    ensures
        forall|t: int| 672 <= t < 696 ==> #[trigger] meets_class_below(t, 216),
{
    lemma_census_words();
    assert forall|t: int| 672 <= t < 696 implies #[trigger] meets_class_below(t, 216) by {
        if t == 672 { lemma_chart_672(); assert(atlas_signatures()[class_rep(36)] == atlas_signatures()[672]); }
        else if t == 673 { lemma_chart_673(); assert(atlas_signatures()[class_rep(37)] == atlas_signatures()[673]); }
        else if t == 674 { lemma_chart_674(); assert(atlas_signatures()[class_rep(37)] == atlas_signatures()[674]); }
        else if t == 675 { lemma_chart_675(); assert(atlas_signatures()[class_rep(38)] == atlas_signatures()[675]); }
        else if t == 676 { lemma_chart_676(); assert(atlas_signatures()[class_rep(38)] == atlas_signatures()[676]); }
        else if t == 677 { lemma_chart_677(); assert(atlas_signatures()[class_rep(36)] == atlas_signatures()[677]); }
        else if t == 678 { lemma_chart_678(); assert(atlas_signatures()[class_rep(39)] == atlas_signatures()[678]); }
        else if t == 679 { lemma_chart_679(); assert(atlas_signatures()[class_rep(40)] == atlas_signatures()[679]); }
        else if t == 680 { lemma_chart_680(); assert(atlas_signatures()[class_rep(40)] == atlas_signatures()[680]); }
        else if t == 681 { lemma_chart_681(); assert(atlas_signatures()[class_rep(41)] == atlas_signatures()[681]); }
        else if t == 682 { lemma_chart_682(); assert(atlas_signatures()[class_rep(41)] == atlas_signatures()[682]); }
        else if t == 683 { lemma_chart_683(); assert(atlas_signatures()[class_rep(39)] == atlas_signatures()[683]); }
        else if t == 684 { lemma_chart_684(); assert(atlas_signatures()[class_rep(42)] == atlas_signatures()[684]); }
        else if t == 685 { lemma_chart_685(); assert(atlas_signatures()[class_rep(43)] == atlas_signatures()[685]); }
        else if t == 686 { lemma_chart_686(); assert(atlas_signatures()[class_rep(43)] == atlas_signatures()[686]); }
        else if t == 687 { lemma_chart_687(); assert(atlas_signatures()[class_rep(44)] == atlas_signatures()[687]); }
        else if t == 688 { lemma_chart_688(); assert(atlas_signatures()[class_rep(44)] == atlas_signatures()[688]); }
        else if t == 689 { lemma_chart_689(); assert(atlas_signatures()[class_rep(42)] == atlas_signatures()[689]); }
        else if t == 690 { lemma_chart_690(); assert(atlas_signatures()[class_rep(45)] == atlas_signatures()[690]); }
        else if t == 691 { lemma_chart_691(); assert(atlas_signatures()[class_rep(46)] == atlas_signatures()[691]); }
        else if t == 692 { lemma_chart_692(); assert(atlas_signatures()[class_rep(46)] == atlas_signatures()[692]); }
        else if t == 693 { lemma_chart_693(); assert(atlas_signatures()[class_rep(47)] == atlas_signatures()[693]); }
        else if t == 694 { lemma_chart_694(); assert(atlas_signatures()[class_rep(47)] == atlas_signatures()[694]); }
        else { lemma_chart_695(); assert(atlas_signatures()[class_rep(45)] == atlas_signatures()[695]); }
    }
}

proof fn lemma_chart_696()
    ensures
        chart_signature([(0, 2), (1, 2), (1, 3)], heap_table(0)) == chart_signature([(0, 1), (1, 2), (1, 3)], heap_table(2)),
{
    lemma_heap_entries();
    lemma_codes_of_word_29(heap_table(0));
    lemma_codes_of_word_2(heap_table(2));
    lemma_charts_agree_through([(0, 1), (1, 2), (1, 3)], heap_table(2), [(0, 2), (1, 2), (1, 3)], heap_table(0), 3, (4, 2, 1, 7, 0, 6, 5, 3));
}

proof fn lemma_chart_697()
    ensures
        chart_signature([(0, 2), (1, 2), (1, 3)], heap_table(1)) == chart_signature([(0, 1), (1, 2), (1, 3)], heap_table(4)),
{
    lemma_heap_entries();
    lemma_codes_of_word_29(heap_table(1));
    lemma_codes_of_word_2(heap_table(4));
    lemma_charts_agree_through([(0, 1), (1, 2), (1, 3)], heap_table(4), [(0, 2), (1, 2), (1, 3)], heap_table(1), 2, (2, 4, 0, 6, 1, 7, 3, 5));
}

proof fn lemma_chart_698()
    ensures
        chart_signature([(0, 2), (1, 2), (1, 3)], heap_table(2)) == chart_signature([(0, 1), (1, 2), (1, 3)], heap_table(4)),
{
    lemma_heap_entries();
    lemma_codes_of_word_29(heap_table(2));
    lemma_codes_of_word_2(heap_table(4));
    lemma_charts_agree_through([(0, 1), (1, 2), (1, 3)], heap_table(4), [(0, 2), (1, 2), (1, 3)], heap_table(2), 3, (4, 2, 1, 7, 0, 6, 5, 3));
}

proof fn lemma_chart_699()
    ensures
        chart_signature([(0, 2), (1, 2), (1, 3)], heap_table(3)) == chart_signature([(0, 1), (1, 2), (1, 3)], heap_table(0)),
{
    lemma_heap_entries();
    lemma_codes_of_word_29(heap_table(3));
    lemma_codes_of_word_2(heap_table(0));
    lemma_charts_agree_through([(0, 1), (1, 2), (1, 3)], heap_table(0), [(0, 2), (1, 2), (1, 3)], heap_table(3), 2, (2, 4, 0, 6, 1, 7, 3, 5));
}

proof fn lemma_chart_700()
    ensures
        chart_signature([(0, 2), (1, 2), (1, 3)], heap_table(4)) == chart_signature([(0, 1), (1, 2), (1, 3)], heap_table(0)),
{
    lemma_heap_entries();
    lemma_codes_of_word_29(heap_table(4));
    lemma_codes_of_word_2(heap_table(0));
    lemma_charts_agree_through([(0, 1), (1, 2), (1, 3)], heap_table(0), [(0, 2), (1, 2), (1, 3)], heap_table(4), 3, (4, 2, 1, 7, 0, 6, 5, 3));
}

proof fn lemma_chart_701()
    ensures
        chart_signature([(0, 2), (1, 2), (1, 3)], heap_table(5)) == chart_signature([(0, 1), (1, 2), (1, 3)], heap_table(2)),
{
    lemma_heap_entries();
    lemma_codes_of_word_29(heap_table(5));
    lemma_codes_of_word_2(heap_table(2));
    lemma_charts_agree_through([(0, 1), (1, 2), (1, 3)], heap_table(2), [(0, 2), (1, 2), (1, 3)], heap_table(5), 2, (2, 4, 0, 6, 1, 7, 3, 5));
}

proof fn lemma_chart_702()
    ensures
        chart_signature([(0, 2), (1, 2), (1, 3)], heap_table(6)) == chart_signature([(0, 1), (1, 2), (1, 3)], heap_table(8)),
{
    lemma_heap_entries();
    lemma_codes_of_word_29(heap_table(6));
    lemma_codes_of_word_2(heap_table(8));
    lemma_charts_agree_through([(0, 1), (1, 2), (1, 3)], heap_table(8), [(0, 2), (1, 2), (1, 3)], heap_table(6), 3, (4, 2, 1, 7, 0, 6, 5, 3));
}

proof fn lemma_chart_703()
    ensures
        chart_signature([(0, 2), (1, 2), (1, 3)], heap_table(7)) == chart_signature([(0, 1), (1, 2), (1, 3)], heap_table(10)),
{
    lemma_heap_entries();
    lemma_codes_of_word_29(heap_table(7));
    lemma_codes_of_word_2(heap_table(10));
    lemma_charts_agree_through([(0, 1), (1, 2), (1, 3)], heap_table(10), [(0, 2), (1, 2), (1, 3)], heap_table(7), 2, (2, 4, 0, 6, 1, 7, 3, 5));
}

proof fn lemma_chart_704()
    ensures
        chart_signature([(0, 2), (1, 2), (1, 3)], heap_table(8)) == chart_signature([(0, 1), (1, 2), (1, 3)], heap_table(10)),
{
    lemma_heap_entries();
    lemma_codes_of_word_29(heap_table(8));
    lemma_codes_of_word_2(heap_table(10));
    lemma_charts_agree_through([(0, 1), (1, 2), (1, 3)], heap_table(10), [(0, 2), (1, 2), (1, 3)], heap_table(8), 3, (4, 2, 1, 7, 0, 6, 5, 3));
}

proof fn lemma_chart_705()
    ensures
        chart_signature([(0, 2), (1, 2), (1, 3)], heap_table(9)) == chart_signature([(0, 1), (1, 2), (1, 3)], heap_table(6)),
{
    lemma_heap_entries();
    lemma_codes_of_word_29(heap_table(9));
    lemma_codes_of_word_2(heap_table(6));
    lemma_charts_agree_through([(0, 1), (1, 2), (1, 3)], heap_table(6), [(0, 2), (1, 2), (1, 3)], heap_table(9), 2, (2, 4, 0, 6, 1, 7, 3, 5));
}

proof fn lemma_chart_706()
    ensures
        chart_signature([(0, 2), (1, 2), (1, 3)], heap_table(10)) == chart_signature([(0, 1), (1, 2), (1, 3)], heap_table(6)),
{
    lemma_heap_entries();
    lemma_codes_of_word_29(heap_table(10));
    lemma_codes_of_word_2(heap_table(6));
    lemma_charts_agree_through([(0, 1), (1, 2), (1, 3)], heap_table(6), [(0, 2), (1, 2), (1, 3)], heap_table(10), 3, (4, 2, 1, 7, 0, 6, 5, 3));
}

proof fn lemma_chart_707()
    ensures
        chart_signature([(0, 2), (1, 2), (1, 3)], heap_table(11)) == chart_signature([(0, 1), (1, 2), (1, 3)], heap_table(8)),
{
    lemma_heap_entries();
    lemma_codes_of_word_29(heap_table(11));
    lemma_codes_of_word_2(heap_table(8));
    lemma_charts_agree_through([(0, 1), (1, 2), (1, 3)], heap_table(8), [(0, 2), (1, 2), (1, 3)], heap_table(11), 2, (2, 4, 0, 6, 1, 7, 3, 5));
}

proof fn lemma_chart_708()
    ensures
        chart_signature([(0, 2), (1, 2), (1, 3)], heap_table(12)) == chart_signature([(0, 1), (1, 2), (1, 3)], heap_table(14)),
{
    lemma_heap_entries();
    lemma_codes_of_word_29(heap_table(12));
    lemma_codes_of_word_2(heap_table(14));
    lemma_charts_agree_through([(0, 1), (1, 2), (1, 3)], heap_table(14), [(0, 2), (1, 2), (1, 3)], heap_table(12), 3, (4, 2, 1, 7, 0, 6, 5, 3));
}

proof fn lemma_chart_709()
    ensures
        chart_signature([(0, 2), (1, 2), (1, 3)], heap_table(13)) == chart_signature([(0, 1), (1, 2), (1, 3)], heap_table(16)),
{
    lemma_heap_entries();
    lemma_codes_of_word_29(heap_table(13));
    lemma_codes_of_word_2(heap_table(16));
    lemma_charts_agree_through([(0, 1), (1, 2), (1, 3)], heap_table(16), [(0, 2), (1, 2), (1, 3)], heap_table(13), 2, (2, 4, 0, 6, 1, 7, 3, 5));
}

proof fn lemma_chart_710()
    ensures
        chart_signature([(0, 2), (1, 2), (1, 3)], heap_table(14)) == chart_signature([(0, 1), (1, 2), (1, 3)], heap_table(16)),
{
    lemma_heap_entries();
    lemma_codes_of_word_29(heap_table(14));
    lemma_codes_of_word_2(heap_table(16));
    lemma_charts_agree_through([(0, 1), (1, 2), (1, 3)], heap_table(16), [(0, 2), (1, 2), (1, 3)], heap_table(14), 3, (4, 2, 1, 7, 0, 6, 5, 3));
}

proof fn lemma_chart_711()
    ensures
        chart_signature([(0, 2), (1, 2), (1, 3)], heap_table(15)) == chart_signature([(0, 1), (1, 2), (1, 3)], heap_table(12)),
{
    lemma_heap_entries();
    lemma_codes_of_word_29(heap_table(15));
    lemma_codes_of_word_2(heap_table(12));
    lemma_charts_agree_through([(0, 1), (1, 2), (1, 3)], heap_table(12), [(0, 2), (1, 2), (1, 3)], heap_table(15), 2, (2, 4, 0, 6, 1, 7, 3, 5));
}

proof fn lemma_chart_712()
    ensures
        chart_signature([(0, 2), (1, 2), (1, 3)], heap_table(16)) == chart_signature([(0, 1), (1, 2), (1, 3)], heap_table(12)),
{
    lemma_heap_entries();
    lemma_codes_of_word_29(heap_table(16));
    lemma_codes_of_word_2(heap_table(12));
    lemma_charts_agree_through([(0, 1), (1, 2), (1, 3)], heap_table(12), [(0, 2), (1, 2), (1, 3)], heap_table(16), 3, (4, 2, 1, 7, 0, 6, 5, 3));
}

proof fn lemma_chart_713()
    ensures
        chart_signature([(0, 2), (1, 2), (1, 3)], heap_table(17)) == chart_signature([(0, 1), (1, 2), (1, 3)], heap_table(14)),
{
    lemma_heap_entries();
    lemma_codes_of_word_29(heap_table(17));
    lemma_codes_of_word_2(heap_table(14));
    lemma_charts_agree_through([(0, 1), (1, 2), (1, 3)], heap_table(14), [(0, 2), (1, 2), (1, 3)], heap_table(17), 2, (2, 4, 0, 6, 1, 7, 3, 5));
}

proof fn lemma_chart_714()
    ensures
        chart_signature([(0, 2), (1, 2), (1, 3)], heap_table(18)) == chart_signature([(0, 1), (1, 2), (1, 3)], heap_table(20)),
{
    lemma_heap_entries();
    lemma_codes_of_word_29(heap_table(18));
    lemma_codes_of_word_2(heap_table(20));
    lemma_charts_agree_through([(0, 1), (1, 2), (1, 3)], heap_table(20), [(0, 2), (1, 2), (1, 3)], heap_table(18), 3, (4, 2, 1, 7, 0, 6, 5, 3));
}

proof fn lemma_chart_715()
    ensures
        chart_signature([(0, 2), (1, 2), (1, 3)], heap_table(19)) == chart_signature([(0, 1), (1, 2), (1, 3)], heap_table(22)),
{
    lemma_heap_entries();
    lemma_codes_of_word_29(heap_table(19));
    lemma_codes_of_word_2(heap_table(22));
    lemma_charts_agree_through([(0, 1), (1, 2), (1, 3)], heap_table(22), [(0, 2), (1, 2), (1, 3)], heap_table(19), 2, (2, 4, 0, 6, 1, 7, 3, 5));
}

proof fn lemma_chart_716()
    ensures
        chart_signature([(0, 2), (1, 2), (1, 3)], heap_table(20)) == chart_signature([(0, 1), (1, 2), (1, 3)], heap_table(22)),
{
    lemma_heap_entries();
    lemma_codes_of_word_29(heap_table(20));
    lemma_codes_of_word_2(heap_table(22));
    lemma_charts_agree_through([(0, 1), (1, 2), (1, 3)], heap_table(22), [(0, 2), (1, 2), (1, 3)], heap_table(20), 3, (4, 2, 1, 7, 0, 6, 5, 3));
}

proof fn lemma_chart_717()
    ensures
        chart_signature([(0, 2), (1, 2), (1, 3)], heap_table(21)) == chart_signature([(0, 1), (1, 2), (1, 3)], heap_table(18)),
{
    lemma_heap_entries();
    lemma_codes_of_word_29(heap_table(21));
    lemma_codes_of_word_2(heap_table(18));
    lemma_charts_agree_through([(0, 1), (1, 2), (1, 3)], heap_table(18), [(0, 2), (1, 2), (1, 3)], heap_table(21), 2, (2, 4, 0, 6, 1, 7, 3, 5));
}

proof fn lemma_chart_718()
    ensures
        chart_signature([(0, 2), (1, 2), (1, 3)], heap_table(22)) == chart_signature([(0, 1), (1, 2), (1, 3)], heap_table(18)),
{
    lemma_heap_entries();
    lemma_codes_of_word_29(heap_table(22));
    lemma_codes_of_word_2(heap_table(18));
    lemma_charts_agree_through([(0, 1), (1, 2), (1, 3)], heap_table(18), [(0, 2), (1, 2), (1, 3)], heap_table(22), 3, (4, 2, 1, 7, 0, 6, 5, 3));
}

proof fn lemma_chart_719()
    ensures
        chart_signature([(0, 2), (1, 2), (1, 3)], heap_table(23)) == chart_signature([(0, 1), (1, 2), (1, 3)], heap_table(20)),
{
    lemma_heap_entries();
    lemma_codes_of_word_29(heap_table(23));
    lemma_codes_of_word_2(heap_table(20));
    lemma_charts_agree_through([(0, 1), (1, 2), (1, 3)], heap_table(20), [(0, 2), (1, 2), (1, 3)], heap_table(23), 2, (2, 4, 0, 6, 1, 7, 3, 5));
}

/// Every chart of atlas word 29 shares its signature with the first chart
/// of a class below 216.
pub proof fn lemma_charts_of_word_29()
    ensures
        forall|t: int| 696 <= t < 720 ==> #[trigger] meets_class_below(t, 216),
{
    lemma_census_words();
    assert forall|t: int| 696 <= t < 720 implies #[trigger] meets_class_below(t, 216) by {
        if t == 696 { lemma_chart_696(); assert(atlas_signatures()[class_rep(25)] == atlas_signatures()[696]); }
        else if t == 697 { lemma_chart_697(); assert(atlas_signatures()[class_rep(26)] == atlas_signatures()[697]); }
        else if t == 698 { lemma_chart_698(); assert(atlas_signatures()[class_rep(26)] == atlas_signatures()[698]); }
        else if t == 699 { lemma_chart_699(); assert(atlas_signatures()[class_rep(24)] == atlas_signatures()[699]); }
        else if t == 700 { lemma_chart_700(); assert(atlas_signatures()[class_rep(24)] == atlas_signatures()[700]); }
        else if t == 701 { lemma_chart_701(); assert(atlas_signatures()[class_rep(25)] == atlas_signatures()[701]); }
        else if t == 702 { lemma_chart_702(); assert(atlas_signatures()[class_rep(28)] == atlas_signatures()[702]); }
        else if t == 703 { lemma_chart_703(); assert(atlas_signatures()[class_rep(29)] == atlas_signatures()[703]); }
        else if t == 704 { lemma_chart_704(); assert(atlas_signatures()[class_rep(29)] == atlas_signatures()[704]); }
        else if t == 705 { lemma_chart_705(); assert(atlas_signatures()[class_rep(27)] == atlas_signatures()[705]); }
        else if t == 706 { lemma_chart_706(); assert(atlas_signatures()[class_rep(27)] == atlas_signatures()[706]); }
        else if t == 707 { lemma_chart_707(); assert(atlas_signatures()[class_rep(28)] == atlas_signatures()[707]); }
        else if t == 708 { lemma_chart_708(); assert(atlas_signatures()[class_rep(31)] == atlas_signatures()[708]); }
        else if t == 709 { lemma_chart_709(); assert(atlas_signatures()[class_rep(32)] == atlas_signatures()[709]); }
        else if t == 710 { lemma_chart_710(); assert(atlas_signatures()[class_rep(32)] == atlas_signatures()[710]); }
        else if t == 711 { lemma_chart_711(); assert(atlas_signatures()[class_rep(30)] == atlas_signatures()[711]); }
        else if t == 712 { lemma_chart_712(); assert(atlas_signatures()[class_rep(30)] == atlas_signatures()[712]); }
        else if t == 713 { lemma_chart_713(); assert(atlas_signatures()[class_rep(31)] == atlas_signatures()[713]); }
        else if t == 714 { lemma_chart_714(); assert(atlas_signatures()[class_rep(34)] == atlas_signatures()[714]); }
        else if t == 715 { lemma_chart_715(); assert(atlas_signatures()[class_rep(35)] == atlas_signatures()[715]); }
        else if t == 716 { lemma_chart_716(); assert(atlas_signatures()[class_rep(35)] == atlas_signatures()[716]); }
        else if t == 717 { lemma_chart_717(); assert(atlas_signatures()[class_rep(33)] == atlas_signatures()[717]); }
        else if t == 718 { lemma_chart_718(); assert(atlas_signatures()[class_rep(33)] == atlas_signatures()[718]); }
        else { lemma_chart_719(); assert(atlas_signatures()[class_rep(34)] == atlas_signatures()[719]); }
    }
}

proof fn lemma_chart_722()
    ensures
        chart_signature([(0, 2), (1, 3), (0, 1)], heap_table(2)) == chart_signature([(0, 2), (1, 3), (0, 1)], heap_table(1)),
{
    lemma_heap_entries();
    lemma_codes_of_word_30(heap_table(2));
    lemma_codes_of_word_30(heap_table(1));
    lemma_charts_agree_through([(0, 2), (1, 3), (0, 1)], heap_table(1), [(0, 2), (1, 3), (0, 1)], heap_table(2), 1, (1, 0, 4, 5, 2, 3, 7, 6));
}

proof fn lemma_chart_724()
    ensures
        chart_signature([(0, 2), (1, 3), (0, 1)], heap_table(4)) == chart_signature([(0, 2), (1, 3), (0, 1)], heap_table(3)),
{
    lemma_heap_entries();
    lemma_codes_of_word_30(heap_table(4));
    lemma_codes_of_word_30(heap_table(3));
    lemma_charts_agree_through([(0, 2), (1, 3), (0, 1)], heap_table(3), [(0, 2), (1, 3), (0, 1)], heap_table(4), 1, (1, 0, 4, 5, 2, 3, 7, 6));
}

proof fn lemma_chart_725()
    ensures
        chart_signature([(0, 2), (1, 3), (0, 1)], heap_table(5)) == chart_signature([(0, 2), (1, 3), (0, 1)], heap_table(0)),
{
    lemma_heap_entries();
    lemma_codes_of_word_30(heap_table(5));
    lemma_codes_of_word_30(heap_table(0));
    lemma_charts_agree_through([(0, 2), (1, 3), (0, 1)], heap_table(0), [(0, 2), (1, 3), (0, 1)], heap_table(5), 1, (1, 0, 4, 5, 2, 3, 7, 6));
}

proof fn lemma_chart_727()
    ensures
        chart_signature([(0, 2), (1, 3), (0, 1)], heap_table(7)) == chart_signature([(0, 2), (1, 3), (0, 1)], heap_table(1)),
{
    lemma_heap_entries();
    lemma_codes_of_word_30(heap_table(7));
    lemma_codes_of_word_30(heap_table(1));
    lemma_charts_agree_through([(0, 2), (1, 3), (0, 1)], heap_table(1), [(0, 2), (1, 3), (0, 1)], heap_table(7), 2, (2, 4, 0, 6, 1, 7, 3, 5));
}

proof fn lemma_chart_728()
    ensures
        chart_signature([(0, 2), (1, 3), (0, 1)], heap_table(8)) == chart_signature([(0, 2), (1, 3), (0, 1)], heap_table(1)),
{
    lemma_heap_entries();
    lemma_codes_of_word_30(heap_table(8));
    lemma_codes_of_word_30(heap_table(1));
    lemma_charts_agree_through([(0, 2), (1, 3), (0, 1)], heap_table(1), [(0, 2), (1, 3), (0, 1)], heap_table(8), 3, (4, 2, 1, 7, 0, 6, 5, 3));
}

proof fn lemma_chart_730()
    ensures
        chart_signature([(0, 2), (1, 3), (0, 1)], heap_table(10)) == chart_signature([(0, 2), (1, 3), (0, 1)], heap_table(9)),
{
    lemma_heap_entries();
    lemma_codes_of_word_30(heap_table(10));
    lemma_codes_of_word_30(heap_table(9));
    lemma_charts_agree_through([(0, 2), (1, 3), (0, 1)], heap_table(9), [(0, 2), (1, 3), (0, 1)], heap_table(10), 1, (1, 0, 4, 5, 2, 3, 7, 6));
}

proof fn lemma_chart_731()
    ensures
        chart_signature([(0, 2), (1, 3), (0, 1)], heap_table(11)) == chart_signature([(0, 2), (1, 3), (0, 1)], heap_table(6)),
{
    lemma_heap_entries();
    lemma_codes_of_word_30(heap_table(11));
    lemma_codes_of_word_30(heap_table(6));
    lemma_charts_agree_through([(0, 2), (1, 3), (0, 1)], heap_table(6), [(0, 2), (1, 3), (0, 1)], heap_table(11), 1, (1, 0, 4, 5, 2, 3, 7, 6));
}

proof fn lemma_chart_732()
    ensures
        chart_signature([(0, 2), (1, 3), (0, 1)], heap_table(12)) == chart_signature([(0, 2), (1, 3), (0, 1)], heap_table(6)),
{
    lemma_heap_entries();
    lemma_codes_of_word_30(heap_table(12));
    lemma_codes_of_word_30(heap_table(6));
    lemma_charts_agree_through([(0, 2), (1, 3), (0, 1)], heap_table(6), [(0, 2), (1, 3), (0, 1)], heap_table(12), 2, (2, 4, 0, 6, 1, 7, 3, 5));
}

proof fn lemma_chart_733()
    ensures
        chart_signature([(0, 2), (1, 3), (0, 1)], heap_table(13)) == chart_signature([(0, 2), (1, 3), (0, 1)], heap_table(0)),
{
    lemma_heap_entries();
    lemma_codes_of_word_30(heap_table(13));
    lemma_codes_of_word_30(heap_table(0));
    lemma_charts_agree_through([(0, 2), (1, 3), (0, 1)], heap_table(0), [(0, 2), (1, 3), (0, 1)], heap_table(13), 2, (2, 4, 0, 6, 1, 7, 3, 5));
}

proof fn lemma_chart_734()
    ensures
        chart_signature([(0, 2), (1, 3), (0, 1)], heap_table(14)) == chart_signature([(0, 2), (1, 3), (0, 1)], heap_table(0)),
{
    lemma_heap_entries();
    lemma_codes_of_word_30(heap_table(14));
    lemma_codes_of_word_30(heap_table(0));
    lemma_charts_agree_through([(0, 2), (1, 3), (0, 1)], heap_table(0), [(0, 2), (1, 3), (0, 1)], heap_table(14), 3, (4, 2, 1, 7, 0, 6, 5, 3));
}

proof fn lemma_chart_736()
    ensures
        chart_signature([(0, 2), (1, 3), (0, 1)], heap_table(16)) == chart_signature([(0, 2), (1, 3), (0, 1)], heap_table(15)),
{
    lemma_heap_entries();
    lemma_codes_of_word_30(heap_table(16));
    lemma_codes_of_word_30(heap_table(15));
    lemma_charts_agree_through([(0, 2), (1, 3), (0, 1)], heap_table(15), [(0, 2), (1, 3), (0, 1)], heap_table(16), 1, (1, 0, 4, 5, 2, 3, 7, 6));
}

proof fn lemma_chart_737()
    ensures
        chart_signature([(0, 2), (1, 3), (0, 1)], heap_table(17)) == chart_signature([(0, 2), (1, 3), (0, 1)], heap_table(6)),
{
    lemma_heap_entries();
    lemma_codes_of_word_30(heap_table(17));
    lemma_codes_of_word_30(heap_table(6));
    lemma_charts_agree_through([(0, 2), (1, 3), (0, 1)], heap_table(6), [(0, 2), (1, 3), (0, 1)], heap_table(17), 3, (4, 2, 1, 7, 0, 6, 5, 3));
}

proof fn lemma_chart_738()
    ensures
        chart_signature([(0, 2), (1, 3), (0, 1)], heap_table(18)) == chart_signature([(0, 2), (1, 3), (0, 1)], heap_table(9)),
{
    lemma_heap_entries();
    lemma_codes_of_word_30(heap_table(18));
    lemma_codes_of_word_30(heap_table(9));
    lemma_charts_agree_through([(0, 2), (1, 3), (0, 1)], heap_table(9), [(0, 2), (1, 3), (0, 1)], heap_table(18), 2, (2, 4, 0, 6, 1, 7, 3, 5));
}

proof fn lemma_chart_739()
    ensures
        chart_signature([(0, 2), (1, 3), (0, 1)], heap_table(19)) == chart_signature([(0, 2), (1, 3), (0, 1)], heap_table(3)),
{
    lemma_heap_entries();
    lemma_codes_of_word_30(heap_table(19));
    lemma_codes_of_word_30(heap_table(3));
    lemma_charts_agree_through([(0, 2), (1, 3), (0, 1)], heap_table(3), [(0, 2), (1, 3), (0, 1)], heap_table(19), 2, (2, 4, 0, 6, 1, 7, 3, 5));
}

proof fn lemma_chart_740()
    ensures
        chart_signature([(0, 2), (1, 3), (0, 1)], heap_table(20)) == chart_signature([(0, 2), (1, 3), (0, 1)], heap_table(3)),
{
    lemma_heap_entries();
    lemma_codes_of_word_30(heap_table(20));
    lemma_codes_of_word_30(heap_table(3));
    lemma_charts_agree_through([(0, 2), (1, 3), (0, 1)], heap_table(3), [(0, 2), (1, 3), (0, 1)], heap_table(20), 3, (4, 2, 1, 7, 0, 6, 5, 3));
}

proof fn lemma_chart_741()
    ensures
        chart_signature([(0, 2), (1, 3), (0, 1)], heap_table(21)) == chart_signature([(0, 2), (1, 3), (0, 1)], heap_table(15)),
{
    lemma_heap_entries();
    lemma_codes_of_word_30(heap_table(21));
    lemma_codes_of_word_30(heap_table(15));
    lemma_charts_agree_through([(0, 2), (1, 3), (0, 1)], heap_table(15), [(0, 2), (1, 3), (0, 1)], heap_table(21), 2, (2, 4, 0, 6, 1, 7, 3, 5));
}

proof fn lemma_chart_742()
    ensures
        chart_signature([(0, 2), (1, 3), (0, 1)], heap_table(22)) == chart_signature([(0, 2), (1, 3), (0, 1)], heap_table(15)),
{
    lemma_heap_entries();
    lemma_codes_of_word_30(heap_table(22));
    lemma_codes_of_word_30(heap_table(15));
    lemma_charts_agree_through([(0, 2), (1, 3), (0, 1)], heap_table(15), [(0, 2), (1, 3), (0, 1)], heap_table(22), 3, (4, 2, 1, 7, 0, 6, 5, 3));
}

proof fn lemma_chart_743()
    ensures
        chart_signature([(0, 2), (1, 3), (0, 1)], heap_table(23)) == chart_signature([(0, 2), (1, 3), (0, 1)], heap_table(9)),
{
    lemma_heap_entries();
    lemma_codes_of_word_30(heap_table(23));
    lemma_codes_of_word_30(heap_table(9));
    lemma_charts_agree_through([(0, 2), (1, 3), (0, 1)], heap_table(9), [(0, 2), (1, 3), (0, 1)], heap_table(23), 3, (4, 2, 1, 7, 0, 6, 5, 3));
}

/// Every chart of atlas word 30 shares its signature with the first chart
/// of a class below 216.
pub proof fn lemma_charts_of_word_30()
    ensures
        forall|t: int| 720 <= t < 744 ==> #[trigger] meets_class_below(t, 216),
{
    lemma_census_words();
    assert forall|t: int| 720 <= t < 744 implies #[trigger] meets_class_below(t, 216) by {
        if t == 720 { assert(atlas_signatures()[class_rep(174)] == atlas_signatures()[720]); }
        else if t == 721 { assert(atlas_signatures()[class_rep(175)] == atlas_signatures()[721]); }
        else if t == 722 { lemma_chart_722(); assert(atlas_signatures()[class_rep(175)] == atlas_signatures()[722]); }
        else if t == 723 { assert(atlas_signatures()[class_rep(176)] == atlas_signatures()[723]); }
        else if t == 724 { lemma_chart_724(); assert(atlas_signatures()[class_rep(176)] == atlas_signatures()[724]); }
        else if t == 725 { lemma_chart_725(); assert(atlas_signatures()[class_rep(174)] == atlas_signatures()[725]); }
        else if t == 726 { assert(atlas_signatures()[class_rep(177)] == atlas_signatures()[726]); }
        else if t == 727 { lemma_chart_727(); assert(atlas_signatures()[class_rep(175)] == atlas_signatures()[727]); }
        else if t == 728 { lemma_chart_728(); assert(atlas_signatures()[class_rep(175)] == atlas_signatures()[728]); }
        else if t == 729 { assert(atlas_signatures()[class_rep(178)] == atlas_signatures()[729]); }
        else if t == 730 { lemma_chart_730(); assert(atlas_signatures()[class_rep(178)] == atlas_signatures()[730]); }
        else if t == 731 { lemma_chart_731(); assert(atlas_signatures()[class_rep(177)] == atlas_signatures()[731]); }
        else if t == 732 { lemma_chart_732(); assert(atlas_signatures()[class_rep(177)] == atlas_signatures()[732]); }
        else if t == 733 { lemma_chart_733(); assert(atlas_signatures()[class_rep(174)] == atlas_signatures()[733]); }
        else if t == 734 { lemma_chart_734(); assert(atlas_signatures()[class_rep(174)] == atlas_signatures()[734]); }
        else if t == 735 { assert(atlas_signatures()[class_rep(179)] == atlas_signatures()[735]); }
        else if t == 736 { lemma_chart_736(); assert(atlas_signatures()[class_rep(179)] == atlas_signatures()[736]); }
        else if t == 737 { lemma_chart_737(); assert(atlas_signatures()[class_rep(177)] == atlas_signatures()[737]); }
        else if t == 738 { lemma_chart_738(); assert(atlas_signatures()[class_rep(178)] == atlas_signatures()[738]); }
        else if t == 739 { lemma_chart_739(); assert(atlas_signatures()[class_rep(176)] == atlas_signatures()[739]); }
        else if t == 740 { lemma_chart_740(); assert(atlas_signatures()[class_rep(176)] == atlas_signatures()[740]); }
        else if t == 741 { lemma_chart_741(); assert(atlas_signatures()[class_rep(179)] == atlas_signatures()[741]); }
        else if t == 742 { lemma_chart_742(); assert(atlas_signatures()[class_rep(179)] == atlas_signatures()[742]); }
        else { lemma_chart_743(); assert(atlas_signatures()[class_rep(178)] == atlas_signatures()[743]); }
    }
}

proof fn lemma_chart_744()
    ensures
        chart_signature([(0, 2), (1, 3), (0, 3)], heap_table(0)) == chart_signature([(0, 1), (2, 3), (0, 3)], heap_table(6)),
{
    lemma_heap_entries();
    lemma_codes_of_word_31(heap_table(0));
    lemma_codes_of_word_21(heap_table(6));
    lemma_charts_agree_through([(0, 1), (2, 3), (0, 3)], heap_table(6), [(0, 2), (1, 3), (0, 3)], heap_table(0), 20, (3, 6, 5, 0, 7, 2, 1, 4));
}

proof fn lemma_chart_745()
    ensures
        chart_signature([(0, 2), (1, 3), (0, 3)], heap_table(1)) == chart_signature([(0, 1), (2, 3), (0, 3)], heap_table(12)),
{
    lemma_heap_entries();
    lemma_codes_of_word_31(heap_table(1));
    lemma_codes_of_word_21(heap_table(12));
    lemma_charts_agree_through([(0, 1), (2, 3), (0, 3)], heap_table(12), [(0, 2), (1, 3), (0, 3)], heap_table(1), 20, (3, 6, 5, 0, 7, 2, 1, 4));
}

proof fn lemma_chart_746()
    ensures
        chart_signature([(0, 2), (1, 3), (0, 3)], heap_table(2)) == chart_signature([(0, 1), (2, 3), (0, 3)], heap_table(12)),
{
    lemma_heap_entries();
    lemma_codes_of_word_31(heap_table(2));
    lemma_codes_of_word_21(heap_table(12));
    lemma_charts_agree_through([(0, 1), (2, 3), (0, 3)], heap_table(12), [(0, 2), (1, 3), (0, 3)], heap_table(2), 22, (6, 3, 7, 2, 5, 0, 4, 1));
}

proof fn lemma_chart_747()
    ensures
        chart_signature([(0, 2), (1, 3), (0, 3)], heap_table(3)) == chart_signature([(0, 1), (2, 3), (0, 3)], heap_table(8)),
{
    lemma_heap_entries();
    lemma_codes_of_word_31(heap_table(3));
    lemma_codes_of_word_21(heap_table(8));
    lemma_charts_agree_through([(0, 1), (2, 3), (0, 3)], heap_table(8), [(0, 2), (1, 3), (0, 3)], heap_table(3), 21, (5, 7, 3, 1, 6, 4, 0, 2));
}

proof fn lemma_chart_748()
    ensures
        chart_signature([(0, 2), (1, 3), (0, 3)], heap_table(4)) == chart_signature([(0, 1), (2, 3), (0, 3)], heap_table(8)),
{
    lemma_heap_entries();
    lemma_codes_of_word_31(heap_table(4));
    lemma_codes_of_word_21(heap_table(8));
    lemma_charts_agree_through([(0, 1), (2, 3), (0, 3)], heap_table(8), [(0, 2), (1, 3), (0, 3)], heap_table(4), 23, (7, 5, 6, 4, 3, 1, 2, 0));
}

proof fn lemma_chart_749()
    ensures
        chart_signature([(0, 2), (1, 3), (0, 3)], heap_table(5)) == chart_signature([(0, 1), (2, 3), (0, 3)], heap_table(6)),
{
    lemma_heap_entries();
    lemma_codes_of_word_31(heap_table(5));
    lemma_codes_of_word_21(heap_table(6));
    lemma_charts_agree_through([(0, 1), (2, 3), (0, 3)], heap_table(6), [(0, 2), (1, 3), (0, 3)], heap_table(5), 22, (6, 3, 7, 2, 5, 0, 4, 1));
}

proof fn lemma_chart_750()
    ensures
        chart_signature([(0, 2), (1, 3), (0, 3)], heap_table(6)) == chart_signature([(0, 1), (2, 3), (0, 3)], heap_table(0)),
{
    lemma_heap_entries();
    lemma_codes_of_word_31(heap_table(6));
    lemma_codes_of_word_21(heap_table(0));
    lemma_charts_agree_through([(0, 1), (2, 3), (0, 3)], heap_table(0), [(0, 2), (1, 3), (0, 3)], heap_table(6), 20, (3, 6, 5, 0, 7, 2, 1, 4));
}

proof fn lemma_chart_751()
    ensures
        chart_signature([(0, 2), (1, 3), (0, 3)], heap_table(7)) == chart_signature([(0, 1), (2, 3), (0, 3)], heap_table(12)),
{
    lemma_heap_entries();
    lemma_codes_of_word_31(heap_table(7));
    lemma_codes_of_word_21(heap_table(12));
    lemma_charts_agree_through([(0, 1), (2, 3), (0, 3)], heap_table(12), [(0, 2), (1, 3), (0, 3)], heap_table(7), 21, (5, 7, 3, 1, 6, 4, 0, 2));
}

proof fn lemma_chart_752()
    ensures
        chart_signature([(0, 2), (1, 3), (0, 3)], heap_table(8)) == chart_signature([(0, 1), (2, 3), (0, 3)], heap_table(12)),
{
    lemma_heap_entries();
    lemma_codes_of_word_31(heap_table(8));
    lemma_codes_of_word_21(heap_table(12));
    lemma_charts_agree_through([(0, 1), (2, 3), (0, 3)], heap_table(12), [(0, 2), (1, 3), (0, 3)], heap_table(8), 23, (7, 5, 6, 4, 3, 1, 2, 0));
}

proof fn lemma_chart_753()
    ensures
        chart_signature([(0, 2), (1, 3), (0, 3)], heap_table(9)) == chart_signature([(0, 1), (2, 3), (0, 3)], heap_table(2)),
{
    lemma_heap_entries();
    lemma_codes_of_word_31(heap_table(9));
    lemma_codes_of_word_21(heap_table(2));
    lemma_charts_agree_through([(0, 1), (2, 3), (0, 3)], heap_table(2), [(0, 2), (1, 3), (0, 3)], heap_table(9), 21, (5, 7, 3, 1, 6, 4, 0, 2));
}

proof fn lemma_chart_754()
    ensures
        chart_signature([(0, 2), (1, 3), (0, 3)], heap_table(10)) == chart_signature([(0, 1), (2, 3), (0, 3)], heap_table(2)),
{
    lemma_heap_entries();
    lemma_codes_of_word_31(heap_table(10));
    lemma_codes_of_word_21(heap_table(2));
    lemma_charts_agree_through([(0, 1), (2, 3), (0, 3)], heap_table(2), [(0, 2), (1, 3), (0, 3)], heap_table(10), 23, (7, 5, 6, 4, 3, 1, 2, 0));
}

proof fn lemma_chart_755()
    ensures
        chart_signature([(0, 2), (1, 3), (0, 3)], heap_table(11)) == chart_signature([(0, 1), (2, 3), (0, 3)], heap_table(0)),
{
    lemma_heap_entries();
    lemma_codes_of_word_31(heap_table(11));
    lemma_codes_of_word_21(heap_table(0));
    lemma_charts_agree_through([(0, 1), (2, 3), (0, 3)], heap_table(0), [(0, 2), (1, 3), (0, 3)], heap_table(11), 22, (6, 3, 7, 2, 5, 0, 4, 1));
}

proof fn lemma_chart_756()
    ensures
        chart_signature([(0, 2), (1, 3), (0, 3)], heap_table(12)) == chart_signature([(0, 1), (2, 3), (0, 3)], heap_table(0)),
{
    lemma_heap_entries();
    lemma_codes_of_word_31(heap_table(12));
    lemma_codes_of_word_21(heap_table(0));
    lemma_charts_agree_through([(0, 1), (2, 3), (0, 3)], heap_table(0), [(0, 2), (1, 3), (0, 3)], heap_table(12), 21, (5, 7, 3, 1, 6, 4, 0, 2));
}

proof fn lemma_chart_757()
    ensures
        chart_signature([(0, 2), (1, 3), (0, 3)], heap_table(13)) == chart_signature([(0, 1), (2, 3), (0, 3)], heap_table(6)),
{
    lemma_heap_entries();
    lemma_codes_of_word_31(heap_table(13));
    lemma_codes_of_word_21(heap_table(6));
    lemma_charts_agree_through([(0, 1), (2, 3), (0, 3)], heap_table(6), [(0, 2), (1, 3), (0, 3)], heap_table(13), 21, (5, 7, 3, 1, 6, 4, 0, 2));
}

proof fn lemma_chart_758()
    ensures
        chart_signature([(0, 2), (1, 3), (0, 3)], heap_table(14)) == chart_signature([(0, 1), (2, 3), (0, 3)], heap_table(6)),
{
    lemma_heap_entries();
    lemma_codes_of_word_31(heap_table(14));
    lemma_codes_of_word_21(heap_table(6));
    lemma_charts_agree_through([(0, 1), (2, 3), (0, 3)], heap_table(6), [(0, 2), (1, 3), (0, 3)], heap_table(14), 23, (7, 5, 6, 4, 3, 1, 2, 0));
}

proof fn lemma_chart_759()
    ensures
        chart_signature([(0, 2), (1, 3), (0, 3)], heap_table(15)) == chart_signature([(0, 1), (2, 3), (0, 3)], heap_table(4)),
{
    lemma_heap_entries();
    lemma_codes_of_word_31(heap_table(15));
    lemma_codes_of_word_21(heap_table(4));
    lemma_charts_agree_through([(0, 1), (2, 3), (0, 3)], heap_table(4), [(0, 2), (1, 3), (0, 3)], heap_table(15), 20, (3, 6, 5, 0, 7, 2, 1, 4));
}

proof fn lemma_chart_760()
    ensures
        chart_signature([(0, 2), (1, 3), (0, 3)], heap_table(16)) == chart_signature([(0, 1), (2, 3), (0, 3)], heap_table(4)),
{
    lemma_heap_entries();
    lemma_codes_of_word_31(heap_table(16));
    lemma_codes_of_word_21(heap_table(4));
    lemma_charts_agree_through([(0, 1), (2, 3), (0, 3)], heap_table(4), [(0, 2), (1, 3), (0, 3)], heap_table(16), 22, (6, 3, 7, 2, 5, 0, 4, 1));
}

proof fn lemma_chart_761()
    ensures
        chart_signature([(0, 2), (1, 3), (0, 3)], heap_table(17)) == chart_signature([(0, 1), (2, 3), (0, 3)], heap_table(0)),
{
    lemma_heap_entries();
    lemma_codes_of_word_31(heap_table(17));
    lemma_codes_of_word_21(heap_table(0));
    lemma_charts_agree_through([(0, 1), (2, 3), (0, 3)], heap_table(0), [(0, 2), (1, 3), (0, 3)], heap_table(17), 23, (7, 5, 6, 4, 3, 1, 2, 0));
}

proof fn lemma_chart_762()
    ensures
        chart_signature([(0, 2), (1, 3), (0, 3)], heap_table(18)) == chart_signature([(0, 1), (2, 3), (0, 3)], heap_table(2)),
{
    lemma_heap_entries();
    lemma_codes_of_word_31(heap_table(18));
    lemma_codes_of_word_21(heap_table(2));
    lemma_charts_agree_through([(0, 1), (2, 3), (0, 3)], heap_table(2), [(0, 2), (1, 3), (0, 3)], heap_table(18), 20, (3, 6, 5, 0, 7, 2, 1, 4));
}

proof fn lemma_chart_763()
    ensures
        chart_signature([(0, 2), (1, 3), (0, 3)], heap_table(19)) == chart_signature([(0, 1), (2, 3), (0, 3)], heap_table(8)),
{
    lemma_heap_entries();
    lemma_codes_of_word_31(heap_table(19));
    lemma_codes_of_word_21(heap_table(8));
    lemma_charts_agree_through([(0, 1), (2, 3), (0, 3)], heap_table(8), [(0, 2), (1, 3), (0, 3)], heap_table(19), 20, (3, 6, 5, 0, 7, 2, 1, 4));
}

proof fn lemma_chart_764()
    ensures
        chart_signature([(0, 2), (1, 3), (0, 3)], heap_table(20)) == chart_signature([(0, 1), (2, 3), (0, 3)], heap_table(8)),
{
    lemma_heap_entries();
    lemma_codes_of_word_31(heap_table(20));
    lemma_codes_of_word_21(heap_table(8));
    lemma_charts_agree_through([(0, 1), (2, 3), (0, 3)], heap_table(8), [(0, 2), (1, 3), (0, 3)], heap_table(20), 22, (6, 3, 7, 2, 5, 0, 4, 1));
}

proof fn lemma_chart_765()
    ensures
        chart_signature([(0, 2), (1, 3), (0, 3)], heap_table(21)) == chart_signature([(0, 1), (2, 3), (0, 3)], heap_table(4)),
{
    lemma_heap_entries();
    lemma_codes_of_word_31(heap_table(21));
    lemma_codes_of_word_21(heap_table(4));
    lemma_charts_agree_through([(0, 1), (2, 3), (0, 3)], heap_table(4), [(0, 2), (1, 3), (0, 3)], heap_table(21), 21, (5, 7, 3, 1, 6, 4, 0, 2));
}

proof fn lemma_chart_766()
    ensures
        chart_signature([(0, 2), (1, 3), (0, 3)], heap_table(22)) == chart_signature([(0, 1), (2, 3), (0, 3)], heap_table(4)),
{
    lemma_heap_entries();
    lemma_codes_of_word_31(heap_table(22));
    lemma_codes_of_word_21(heap_table(4));
    lemma_charts_agree_through([(0, 1), (2, 3), (0, 3)], heap_table(4), [(0, 2), (1, 3), (0, 3)], heap_table(22), 23, (7, 5, 6, 4, 3, 1, 2, 0));
}

proof fn lemma_chart_767()
    ensures
        chart_signature([(0, 2), (1, 3), (0, 3)], heap_table(23)) == chart_signature([(0, 1), (2, 3), (0, 3)], heap_table(2)),
{
    lemma_heap_entries();
    lemma_codes_of_word_31(heap_table(23));
    lemma_codes_of_word_21(heap_table(2));
    lemma_charts_agree_through([(0, 1), (2, 3), (0, 3)], heap_table(2), [(0, 2), (1, 3), (0, 3)], heap_table(23), 22, (6, 3, 7, 2, 5, 0, 4, 1));
}

/// Every chart of atlas word 31 shares its signature with the first chart
/// of a class below 216.
pub proof fn lemma_charts_of_word_31()
    ensures
        forall|t: int| 744 <= t < 768 ==> #[trigger] meets_class_below(t, 216),
{
    lemma_census_words();
    assert forall|t: int| 744 <= t < 768 implies #[trigger] meets_class_below(t, 216) by {
        if t == 744 { lemma_chart_744(); assert(atlas_signatures()[class_rep(135)] == atlas_signatures()[744]); }
        else if t == 745 { lemma_chart_745(); assert(atlas_signatures()[class_rep(137)] == atlas_signatures()[745]); }
        else if t == 746 { lemma_chart_746(); assert(atlas_signatures()[class_rep(137)] == atlas_signatures()[746]); }
        else if t == 747 { lemma_chart_747(); assert(atlas_signatures()[class_rep(136)] == atlas_signatures()[747]); }
        else if t == 748 { lemma_chart_748(); assert(atlas_signatures()[class_rep(136)] == atlas_signatures()[748]); }
        else if t == 749 { lemma_chart_749(); assert(atlas_signatures()[class_rep(135)] == atlas_signatures()[749]); }
        else if t == 750 { lemma_chart_750(); assert(atlas_signatures()[class_rep(132)] == atlas_signatures()[750]); }
        else if t == 751 { lemma_chart_751(); assert(atlas_signatures()[class_rep(137)] == atlas_signatures()[751]); }
        else if t == 752 { lemma_chart_752(); assert(atlas_signatures()[class_rep(137)] == atlas_signatures()[752]); }
        else if t == 753 { lemma_chart_753(); assert(atlas_signatures()[class_rep(133)] == atlas_signatures()[753]); }
        else if t == 754 { lemma_chart_754(); assert(atlas_signatures()[class_rep(133)] == atlas_signatures()[754]); }
        else if t == 755 { lemma_chart_755(); assert(atlas_signatures()[class_rep(132)] == atlas_signatures()[755]); }
        else if t == 756 { lemma_chart_756(); assert(atlas_signatures()[class_rep(132)] == atlas_signatures()[756]); }
        else if t == 757 { lemma_chart_757(); assert(atlas_signatures()[class_rep(135)] == atlas_signatures()[757]); }
        else if t == 758 { lemma_chart_758(); assert(atlas_signatures()[class_rep(135)] == atlas_signatures()[758]); }
        else if t == 759 { lemma_chart_759(); assert(atlas_signatures()[class_rep(134)] == atlas_signatures()[759]); }
        else if t == 760 { lemma_chart_760(); assert(atlas_signatures()[class_rep(134)] == atlas_signatures()[760]); }
        else if t == 761 { lemma_chart_761(); assert(atlas_signatures()[class_rep(132)] == atlas_signatures()[761]); }
        else if t == 762 { lemma_chart_762(); assert(atlas_signatures()[class_rep(133)] == atlas_signatures()[762]); }
        else if t == 763 { lemma_chart_763(); assert(atlas_signatures()[class_rep(136)] == atlas_signatures()[763]); }
        else if t == 764 { lemma_chart_764(); assert(atlas_signatures()[class_rep(136)] == atlas_signatures()[764]); }
        else if t == 765 { lemma_chart_765(); assert(atlas_signatures()[class_rep(134)] == atlas_signatures()[765]); }
        else if t == 766 { lemma_chart_766(); assert(atlas_signatures()[class_rep(134)] == atlas_signatures()[766]); }
        else { lemma_chart_767(); assert(atlas_signatures()[class_rep(133)] == atlas_signatures()[767]); }
    }
}

} // verus!
