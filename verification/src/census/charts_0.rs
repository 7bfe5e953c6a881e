//! Charts of atlas words 0 to 15 matched to the first charts of their classes.
use vstd::prelude::*;
use crate::atlas::{atlas_signatures, chart_signature, lemma_charts_agree_through};
use crate::permutations::heap_table;
use super::{class_rep, lemma_census_words, lemma_heap_entries, meets_class_below, lemma_codes_of_word_0, lemma_codes_of_word_1, lemma_codes_of_word_2, lemma_codes_of_word_3, lemma_codes_of_word_4, lemma_codes_of_word_5, lemma_codes_of_word_6, lemma_codes_of_word_7, lemma_codes_of_word_8, lemma_codes_of_word_9, lemma_codes_of_word_10, lemma_codes_of_word_11, lemma_codes_of_word_12, lemma_codes_of_word_13, lemma_codes_of_word_14, lemma_codes_of_word_15};

verus! {

proof fn lemma_chart_1()
    ensures
        chart_signature([(0, 1), (1, 2), (2, 3)], heap_table(1)) == chart_signature([(0, 1), (1, 2), (2, 3)], heap_table(0)),
{
    lemma_heap_entries();
    lemma_codes_of_word_0(heap_table(1));
    lemma_codes_of_word_0(heap_table(0));
    lemma_charts_agree_through([(0, 1), (1, 2), (2, 3)], heap_table(0), [(0, 1), (1, 2), (2, 3)], heap_table(1), 1, (1, 0, 4, 5, 2, 3, 7, 6));
}

proof fn lemma_chart_3()
    ensures
        chart_signature([(0, 1), (1, 2), (2, 3)], heap_table(3)) == chart_signature([(0, 1), (1, 2), (2, 3)], heap_table(2)),
{
    lemma_heap_entries();
    lemma_codes_of_word_0(heap_table(3));
    lemma_codes_of_word_0(heap_table(2));
    lemma_charts_agree_through([(0, 1), (1, 2), (2, 3)], heap_table(2), [(0, 1), (1, 2), (2, 3)], heap_table(3), 1, (1, 0, 4, 5, 2, 3, 7, 6));
}

proof fn lemma_chart_5()
    ensures
        chart_signature([(0, 1), (1, 2), (2, 3)], heap_table(5)) == chart_signature([(0, 1), (1, 2), (2, 3)], heap_table(4)),
{
    lemma_heap_entries();
    lemma_codes_of_word_0(heap_table(5));
    lemma_codes_of_word_0(heap_table(4));
    lemma_charts_agree_through([(0, 1), (1, 2), (2, 3)], heap_table(4), [(0, 1), (1, 2), (2, 3)], heap_table(5), 1, (1, 0, 4, 5, 2, 3, 7, 6));
}

proof fn lemma_chart_7()
    ensures
        chart_signature([(0, 1), (1, 2), (2, 3)], heap_table(7)) == chart_signature([(0, 1), (1, 2), (2, 3)], heap_table(6)),
{
    lemma_heap_entries();
    lemma_codes_of_word_0(heap_table(7));
    lemma_codes_of_word_0(heap_table(6));
    lemma_charts_agree_through([(0, 1), (1, 2), (2, 3)], heap_table(6), [(0, 1), (1, 2), (2, 3)], heap_table(7), 1, (1, 0, 4, 5, 2, 3, 7, 6));
}

proof fn lemma_chart_9()
    ensures
        chart_signature([(0, 1), (1, 2), (2, 3)], heap_table(9)) == chart_signature([(0, 1), (1, 2), (2, 3)], heap_table(8)),
{
    lemma_heap_entries();
    lemma_codes_of_word_0(heap_table(9));
    lemma_codes_of_word_0(heap_table(8));
    lemma_charts_agree_through([(0, 1), (1, 2), (2, 3)], heap_table(8), [(0, 1), (1, 2), (2, 3)], heap_table(9), 1, (1, 0, 4, 5, 2, 3, 7, 6));
}

proof fn lemma_chart_11()
    ensures
        chart_signature([(0, 1), (1, 2), (2, 3)], heap_table(11)) == chart_signature([(0, 1), (1, 2), (2, 3)], heap_table(10)),
{
    lemma_heap_entries();
    lemma_codes_of_word_0(heap_table(11));
    lemma_codes_of_word_0(heap_table(10));
    lemma_charts_agree_through([(0, 1), (1, 2), (2, 3)], heap_table(10), [(0, 1), (1, 2), (2, 3)], heap_table(11), 1, (1, 0, 4, 5, 2, 3, 7, 6));
}

proof fn lemma_chart_13()
    ensures
        chart_signature([(0, 1), (1, 2), (2, 3)], heap_table(13)) == chart_signature([(0, 1), (1, 2), (2, 3)], heap_table(12)),
{
    lemma_heap_entries();
    lemma_codes_of_word_0(heap_table(13));
    lemma_codes_of_word_0(heap_table(12));
    lemma_charts_agree_through([(0, 1), (1, 2), (2, 3)], heap_table(12), [(0, 1), (1, 2), (2, 3)], heap_table(13), 1, (1, 0, 4, 5, 2, 3, 7, 6));
}

proof fn lemma_chart_15()
    ensures
        chart_signature([(0, 1), (1, 2), (2, 3)], heap_table(15)) == chart_signature([(0, 1), (1, 2), (2, 3)], heap_table(14)),
{
    lemma_heap_entries();
    lemma_codes_of_word_0(heap_table(15));
    lemma_codes_of_word_0(heap_table(14));
    lemma_charts_agree_through([(0, 1), (1, 2), (2, 3)], heap_table(14), [(0, 1), (1, 2), (2, 3)], heap_table(15), 1, (1, 0, 4, 5, 2, 3, 7, 6));
}

proof fn lemma_chart_17()
    ensures
        chart_signature([(0, 1), (1, 2), (2, 3)], heap_table(17)) == chart_signature([(0, 1), (1, 2), (2, 3)], heap_table(16)),
{
    lemma_heap_entries();
    lemma_codes_of_word_0(heap_table(17));
    lemma_codes_of_word_0(heap_table(16));
    lemma_charts_agree_through([(0, 1), (1, 2), (2, 3)], heap_table(16), [(0, 1), (1, 2), (2, 3)], heap_table(17), 1, (1, 0, 4, 5, 2, 3, 7, 6));
}

proof fn lemma_chart_19()
    ensures
        chart_signature([(0, 1), (1, 2), (2, 3)], heap_table(19)) == chart_signature([(0, 1), (1, 2), (2, 3)], heap_table(18)),
{
    lemma_heap_entries();
    lemma_codes_of_word_0(heap_table(19));
    lemma_codes_of_word_0(heap_table(18));
    lemma_charts_agree_through([(0, 1), (1, 2), (2, 3)], heap_table(18), [(0, 1), (1, 2), (2, 3)], heap_table(19), 1, (1, 0, 4, 5, 2, 3, 7, 6));
}

proof fn lemma_chart_21()
    ensures
        chart_signature([(0, 1), (1, 2), (2, 3)], heap_table(21)) == chart_signature([(0, 1), (1, 2), (2, 3)], heap_table(20)),
{
    lemma_heap_entries();
    lemma_codes_of_word_0(heap_table(21));
    lemma_codes_of_word_0(heap_table(20));
    lemma_charts_agree_through([(0, 1), (1, 2), (2, 3)], heap_table(20), [(0, 1), (1, 2), (2, 3)], heap_table(21), 1, (1, 0, 4, 5, 2, 3, 7, 6));
}

proof fn lemma_chart_23()
    ensures
        chart_signature([(0, 1), (1, 2), (2, 3)], heap_table(23)) == chart_signature([(0, 1), (1, 2), (2, 3)], heap_table(22)),
{
    lemma_heap_entries();
    lemma_codes_of_word_0(heap_table(23));
    lemma_codes_of_word_0(heap_table(22));
    lemma_charts_agree_through([(0, 1), (1, 2), (2, 3)], heap_table(22), [(0, 1), (1, 2), (2, 3)], heap_table(23), 1, (1, 0, 4, 5, 2, 3, 7, 6));
}

/// Every chart of atlas word 0 shares its signature with the first chart
/// of a class below 102.
pub proof fn lemma_charts_of_word_0()
    ensures
        forall|t: int| 0 <= t < 24 ==> #[trigger] meets_class_below(t, 102),
{
    lemma_census_words();
    assert forall|t: int| 0 <= t < 24 implies #[trigger] meets_class_below(t, 102) by {
        if t == 0 { assert(atlas_signatures()[class_rep(0)] == atlas_signatures()[0]); }
        else if t == 1 { lemma_chart_1(); assert(atlas_signatures()[class_rep(0)] == atlas_signatures()[1]); }
        else if t == 2 { assert(atlas_signatures()[class_rep(1)] == atlas_signatures()[2]); }
        else if t == 3 { lemma_chart_3(); assert(atlas_signatures()[class_rep(1)] == atlas_signatures()[3]); }
        else if t == 4 { assert(atlas_signatures()[class_rep(2)] == atlas_signatures()[4]); }
        else if t == 5 { lemma_chart_5(); assert(atlas_signatures()[class_rep(2)] == atlas_signatures()[5]); }
        else if t == 6 { assert(atlas_signatures()[class_rep(3)] == atlas_signatures()[6]); }
        else if t == 7 { lemma_chart_7(); assert(atlas_signatures()[class_rep(3)] == atlas_signatures()[7]); }
        else if t == 8 { assert(atlas_signatures()[class_rep(4)] == atlas_signatures()[8]); }
        else if t == 9 { lemma_chart_9(); assert(atlas_signatures()[class_rep(4)] == atlas_signatures()[9]); }
        else if t == 10 { assert(atlas_signatures()[class_rep(5)] == atlas_signatures()[10]); }
        else if t == 11 { lemma_chart_11(); assert(atlas_signatures()[class_rep(5)] == atlas_signatures()[11]); }
        else if t == 12 { assert(atlas_signatures()[class_rep(6)] == atlas_signatures()[12]); }
        else if t == 13 { lemma_chart_13(); assert(atlas_signatures()[class_rep(6)] == atlas_signatures()[13]); }
        else if t == 14 { assert(atlas_signatures()[class_rep(7)] == atlas_signatures()[14]); }
        else if t == 15 { lemma_chart_15(); assert(atlas_signatures()[class_rep(7)] == atlas_signatures()[15]); }
        else if t == 16 { assert(atlas_signatures()[class_rep(8)] == atlas_signatures()[16]); }
        else if t == 17 { lemma_chart_17(); assert(atlas_signatures()[class_rep(8)] == atlas_signatures()[17]); }
        else if t == 18 { assert(atlas_signatures()[class_rep(9)] == atlas_signatures()[18]); }
        else if t == 19 { lemma_chart_19(); assert(atlas_signatures()[class_rep(9)] == atlas_signatures()[19]); }
        else if t == 20 { assert(atlas_signatures()[class_rep(10)] == atlas_signatures()[20]); }
        else if t == 21 { lemma_chart_21(); assert(atlas_signatures()[class_rep(10)] == atlas_signatures()[21]); }
        else if t == 22 { assert(atlas_signatures()[class_rep(11)] == atlas_signatures()[22]); }
        else { lemma_chart_23(); assert(atlas_signatures()[class_rep(11)] == atlas_signatures()[23]); }
    }
}

proof fn lemma_chart_25()
    ensures
        chart_signature([(0, 1), (0, 2), (0, 3)], heap_table(1)) == chart_signature([(0, 1), (0, 2), (0, 3)], heap_table(0)),
{
    lemma_heap_entries();
    lemma_codes_of_word_1(heap_table(1));
    lemma_codes_of_word_1(heap_table(0));
    lemma_charts_agree_through([(0, 1), (0, 2), (0, 3)], heap_table(0), [(0, 1), (0, 2), (0, 3)], heap_table(1), 1, (1, 0, 4, 5, 2, 3, 7, 6));
}

proof fn lemma_chart_27()
    ensures
        chart_signature([(0, 1), (0, 2), (0, 3)], heap_table(3)) == chart_signature([(0, 1), (0, 2), (0, 3)], heap_table(2)),
{
    lemma_heap_entries();
    lemma_codes_of_word_1(heap_table(3));
    lemma_codes_of_word_1(heap_table(2));
    lemma_charts_agree_through([(0, 1), (0, 2), (0, 3)], heap_table(2), [(0, 1), (0, 2), (0, 3)], heap_table(3), 1, (1, 0, 4, 5, 2, 3, 7, 6));
}

proof fn lemma_chart_29()
    ensures
        chart_signature([(0, 1), (0, 2), (0, 3)], heap_table(5)) == chart_signature([(0, 1), (0, 2), (0, 3)], heap_table(4)),
{
    lemma_heap_entries();
    lemma_codes_of_word_1(heap_table(5));
    lemma_codes_of_word_1(heap_table(4));
    lemma_charts_agree_through([(0, 1), (0, 2), (0, 3)], heap_table(4), [(0, 1), (0, 2), (0, 3)], heap_table(5), 1, (1, 0, 4, 5, 2, 3, 7, 6));
}

proof fn lemma_chart_31()
    ensures
        chart_signature([(0, 1), (0, 2), (0, 3)], heap_table(7)) == chart_signature([(0, 1), (0, 2), (0, 3)], heap_table(6)),
{
    lemma_heap_entries();
    lemma_codes_of_word_1(heap_table(7));
    lemma_codes_of_word_1(heap_table(6));
    lemma_charts_agree_through([(0, 1), (0, 2), (0, 3)], heap_table(6), [(0, 1), (0, 2), (0, 3)], heap_table(7), 1, (1, 0, 4, 5, 2, 3, 7, 6));
}

proof fn lemma_chart_33()
    ensures
        chart_signature([(0, 1), (0, 2), (0, 3)], heap_table(9)) == chart_signature([(0, 1), (0, 2), (0, 3)], heap_table(8)),
{
    lemma_heap_entries();
    lemma_codes_of_word_1(heap_table(9));
    lemma_codes_of_word_1(heap_table(8));
    lemma_charts_agree_through([(0, 1), (0, 2), (0, 3)], heap_table(8), [(0, 1), (0, 2), (0, 3)], heap_table(9), 1, (1, 0, 4, 5, 2, 3, 7, 6));
}

proof fn lemma_chart_35()
    ensures
        chart_signature([(0, 1), (0, 2), (0, 3)], heap_table(11)) == chart_signature([(0, 1), (0, 2), (0, 3)], heap_table(10)),
{
    lemma_heap_entries();
    lemma_codes_of_word_1(heap_table(11));
    lemma_codes_of_word_1(heap_table(10));
    lemma_charts_agree_through([(0, 1), (0, 2), (0, 3)], heap_table(10), [(0, 1), (0, 2), (0, 3)], heap_table(11), 1, (1, 0, 4, 5, 2, 3, 7, 6));
}

proof fn lemma_chart_37()
    ensures
        chart_signature([(0, 1), (0, 2), (0, 3)], heap_table(13)) == chart_signature([(0, 1), (0, 2), (0, 3)], heap_table(12)),
{
    lemma_heap_entries();
    lemma_codes_of_word_1(heap_table(13));
    lemma_codes_of_word_1(heap_table(12));
    lemma_charts_agree_through([(0, 1), (0, 2), (0, 3)], heap_table(12), [(0, 1), (0, 2), (0, 3)], heap_table(13), 1, (1, 0, 4, 5, 2, 3, 7, 6));
}

proof fn lemma_chart_39()
    ensures
        chart_signature([(0, 1), (0, 2), (0, 3)], heap_table(15)) == chart_signature([(0, 1), (0, 2), (0, 3)], heap_table(14)),
{
    lemma_heap_entries();
    lemma_codes_of_word_1(heap_table(15));
    lemma_codes_of_word_1(heap_table(14));
    lemma_charts_agree_through([(0, 1), (0, 2), (0, 3)], heap_table(14), [(0, 1), (0, 2), (0, 3)], heap_table(15), 1, (1, 0, 4, 5, 2, 3, 7, 6));
}

proof fn lemma_chart_41()
    ensures
        chart_signature([(0, 1), (0, 2), (0, 3)], heap_table(17)) == chart_signature([(0, 1), (0, 2), (0, 3)], heap_table(16)),
{
    lemma_heap_entries();
    lemma_codes_of_word_1(heap_table(17));
    lemma_codes_of_word_1(heap_table(16));
    lemma_charts_agree_through([(0, 1), (0, 2), (0, 3)], heap_table(16), [(0, 1), (0, 2), (0, 3)], heap_table(17), 1, (1, 0, 4, 5, 2, 3, 7, 6));
}

proof fn lemma_chart_43()
    ensures
        chart_signature([(0, 1), (0, 2), (0, 3)], heap_table(19)) == chart_signature([(0, 1), (0, 2), (0, 3)], heap_table(18)),
{
    lemma_heap_entries();
    lemma_codes_of_word_1(heap_table(19));
    lemma_codes_of_word_1(heap_table(18));
    lemma_charts_agree_through([(0, 1), (0, 2), (0, 3)], heap_table(18), [(0, 1), (0, 2), (0, 3)], heap_table(19), 1, (1, 0, 4, 5, 2, 3, 7, 6));
}

proof fn lemma_chart_45()
    ensures
        chart_signature([(0, 1), (0, 2), (0, 3)], heap_table(21)) == chart_signature([(0, 1), (0, 2), (0, 3)], heap_table(20)),
{
    lemma_heap_entries();
    lemma_codes_of_word_1(heap_table(21));
    lemma_codes_of_word_1(heap_table(20));
    lemma_charts_agree_through([(0, 1), (0, 2), (0, 3)], heap_table(20), [(0, 1), (0, 2), (0, 3)], heap_table(21), 1, (1, 0, 4, 5, 2, 3, 7, 6));
}

proof fn lemma_chart_47()
    ensures
        chart_signature([(0, 1), (0, 2), (0, 3)], heap_table(23)) == chart_signature([(0, 1), (0, 2), (0, 3)], heap_table(22)),
{
    lemma_heap_entries();
    lemma_codes_of_word_1(heap_table(23));
    lemma_codes_of_word_1(heap_table(22));
    lemma_charts_agree_through([(0, 1), (0, 2), (0, 3)], heap_table(22), [(0, 1), (0, 2), (0, 3)], heap_table(23), 1, (1, 0, 4, 5, 2, 3, 7, 6));
}

/// Every chart of atlas word 1 shares its signature with the first chart
/// of a class below 102.
pub proof fn lemma_charts_of_word_1()
    ensures
        forall|t: int| 24 <= t < 48 ==> #[trigger] meets_class_below(t, 102),
{
    lemma_census_words();
    assert forall|t: int| 24 <= t < 48 implies #[trigger] meets_class_below(t, 102) by {
        if t == 24 { assert(atlas_signatures()[class_rep(12)] == atlas_signatures()[24]); }
        else if t == 25 { lemma_chart_25(); assert(atlas_signatures()[class_rep(12)] == atlas_signatures()[25]); }
        else if t == 26 { assert(atlas_signatures()[class_rep(13)] == atlas_signatures()[26]); }
        else if t == 27 { lemma_chart_27(); assert(atlas_signatures()[class_rep(13)] == atlas_signatures()[27]); }
        else if t == 28 { assert(atlas_signatures()[class_rep(14)] == atlas_signatures()[28]); }
        else if t == 29 { lemma_chart_29(); assert(atlas_signatures()[class_rep(14)] == atlas_signatures()[29]); }
        else if t == 30 { assert(atlas_signatures()[class_rep(15)] == atlas_signatures()[30]); }
        else if t == 31 { lemma_chart_31(); assert(atlas_signatures()[class_rep(15)] == atlas_signatures()[31]); }
        else if t == 32 { assert(atlas_signatures()[class_rep(16)] == atlas_signatures()[32]); }
        else if t == 33 { lemma_chart_33(); assert(atlas_signatures()[class_rep(16)] == atlas_signatures()[33]); }
        else if t == 34 { assert(atlas_signatures()[class_rep(17)] == atlas_signatures()[34]); }
        else if t == 35 { lemma_chart_35(); assert(atlas_signatures()[class_rep(17)] == atlas_signatures()[35]); }
        else if t == 36 { assert(atlas_signatures()[class_rep(18)] == atlas_signatures()[36]); }
        else if t == 37 { lemma_chart_37(); assert(atlas_signatures()[class_rep(18)] == atlas_signatures()[37]); }
        else if t == 38 { assert(atlas_signatures()[class_rep(19)] == atlas_signatures()[38]); }
        else if t == 39 { lemma_chart_39(); assert(atlas_signatures()[class_rep(19)] == atlas_signatures()[39]); }
        else if t == 40 { assert(atlas_signatures()[class_rep(20)] == atlas_signatures()[40]); }
        else if t == 41 { lemma_chart_41(); assert(atlas_signatures()[class_rep(20)] == atlas_signatures()[41]); }
        else if t == 42 { assert(atlas_signatures()[class_rep(21)] == atlas_signatures()[42]); }
        else if t == 43 { lemma_chart_43(); assert(atlas_signatures()[class_rep(21)] == atlas_signatures()[43]); }
        else if t == 44 { assert(atlas_signatures()[class_rep(22)] == atlas_signatures()[44]); }
        else if t == 45 { lemma_chart_45(); assert(atlas_signatures()[class_rep(22)] == atlas_signatures()[45]); }
        else if t == 46 { assert(atlas_signatures()[class_rep(23)] == atlas_signatures()[46]); }
        else { lemma_chart_47(); assert(atlas_signatures()[class_rep(23)] == atlas_signatures()[47]); }
    }
}

proof fn lemma_chart_49()
    ensures
        chart_signature([(0, 1), (1, 2), (1, 3)], heap_table(1)) == chart_signature([(0, 1), (1, 2), (1, 3)], heap_table(0)),
{
    lemma_heap_entries();
    lemma_codes_of_word_2(heap_table(1));
    lemma_codes_of_word_2(heap_table(0));
    lemma_charts_agree_through([(0, 1), (1, 2), (1, 3)], heap_table(0), [(0, 1), (1, 2), (1, 3)], heap_table(1), 1, (1, 0, 4, 5, 2, 3, 7, 6));
}

proof fn lemma_chart_51()
    ensures
        chart_signature([(0, 1), (1, 2), (1, 3)], heap_table(3)) == chart_signature([(0, 1), (1, 2), (1, 3)], heap_table(2)),
{
    lemma_heap_entries();
    lemma_codes_of_word_2(heap_table(3));
    lemma_codes_of_word_2(heap_table(2));
    lemma_charts_agree_through([(0, 1), (1, 2), (1, 3)], heap_table(2), [(0, 1), (1, 2), (1, 3)], heap_table(3), 1, (1, 0, 4, 5, 2, 3, 7, 6));
}

proof fn lemma_chart_53()
    ensures
        chart_signature([(0, 1), (1, 2), (1, 3)], heap_table(5)) == chart_signature([(0, 1), (1, 2), (1, 3)], heap_table(4)),
{
    lemma_heap_entries();
    lemma_codes_of_word_2(heap_table(5));
    lemma_codes_of_word_2(heap_table(4));
    lemma_charts_agree_through([(0, 1), (1, 2), (1, 3)], heap_table(4), [(0, 1), (1, 2), (1, 3)], heap_table(5), 1, (1, 0, 4, 5, 2, 3, 7, 6));
}

proof fn lemma_chart_55()
    ensures
        chart_signature([(0, 1), (1, 2), (1, 3)], heap_table(7)) == chart_signature([(0, 1), (1, 2), (1, 3)], heap_table(6)),
{
    lemma_heap_entries();
    lemma_codes_of_word_2(heap_table(7));
    lemma_codes_of_word_2(heap_table(6));
    lemma_charts_agree_through([(0, 1), (1, 2), (1, 3)], heap_table(6), [(0, 1), (1, 2), (1, 3)], heap_table(7), 1, (1, 0, 4, 5, 2, 3, 7, 6));
}

proof fn lemma_chart_57()
    ensures
        chart_signature([(0, 1), (1, 2), (1, 3)], heap_table(9)) == chart_signature([(0, 1), (1, 2), (1, 3)], heap_table(8)),
{
    lemma_heap_entries();
    lemma_codes_of_word_2(heap_table(9));
    lemma_codes_of_word_2(heap_table(8));
    lemma_charts_agree_through([(0, 1), (1, 2), (1, 3)], heap_table(8), [(0, 1), (1, 2), (1, 3)], heap_table(9), 1, (1, 0, 4, 5, 2, 3, 7, 6));
}

proof fn lemma_chart_59()
    ensures
        chart_signature([(0, 1), (1, 2), (1, 3)], heap_table(11)) == chart_signature([(0, 1), (1, 2), (1, 3)], heap_table(10)),
{
    lemma_heap_entries();
    lemma_codes_of_word_2(heap_table(11));
    lemma_codes_of_word_2(heap_table(10));
    lemma_charts_agree_through([(0, 1), (1, 2), (1, 3)], heap_table(10), [(0, 1), (1, 2), (1, 3)], heap_table(11), 1, (1, 0, 4, 5, 2, 3, 7, 6));
}

proof fn lemma_chart_61()
    ensures
        chart_signature([(0, 1), (1, 2), (1, 3)], heap_table(13)) == chart_signature([(0, 1), (1, 2), (1, 3)], heap_table(12)),
{
    lemma_heap_entries();
    lemma_codes_of_word_2(heap_table(13));
    lemma_codes_of_word_2(heap_table(12));
    lemma_charts_agree_through([(0, 1), (1, 2), (1, 3)], heap_table(12), [(0, 1), (1, 2), (1, 3)], heap_table(13), 1, (1, 0, 4, 5, 2, 3, 7, 6));
}

proof fn lemma_chart_63()
    ensures
        chart_signature([(0, 1), (1, 2), (1, 3)], heap_table(15)) == chart_signature([(0, 1), (1, 2), (1, 3)], heap_table(14)),
{
    lemma_heap_entries();
    lemma_codes_of_word_2(heap_table(15));
    lemma_codes_of_word_2(heap_table(14));
    lemma_charts_agree_through([(0, 1), (1, 2), (1, 3)], heap_table(14), [(0, 1), (1, 2), (1, 3)], heap_table(15), 1, (1, 0, 4, 5, 2, 3, 7, 6));
}

proof fn lemma_chart_65()
    ensures
        chart_signature([(0, 1), (1, 2), (1, 3)], heap_table(17)) == chart_signature([(0, 1), (1, 2), (1, 3)], heap_table(16)),
{
    lemma_heap_entries();
    lemma_codes_of_word_2(heap_table(17));
    lemma_codes_of_word_2(heap_table(16));
    lemma_charts_agree_through([(0, 1), (1, 2), (1, 3)], heap_table(16), [(0, 1), (1, 2), (1, 3)], heap_table(17), 1, (1, 0, 4, 5, 2, 3, 7, 6));
}

proof fn lemma_chart_67()
    ensures
        chart_signature([(0, 1), (1, 2), (1, 3)], heap_table(19)) == chart_signature([(0, 1), (1, 2), (1, 3)], heap_table(18)),
{
    lemma_heap_entries();
    lemma_codes_of_word_2(heap_table(19));
    lemma_codes_of_word_2(heap_table(18));
    lemma_charts_agree_through([(0, 1), (1, 2), (1, 3)], heap_table(18), [(0, 1), (1, 2), (1, 3)], heap_table(19), 1, (1, 0, 4, 5, 2, 3, 7, 6));
}

proof fn lemma_chart_69()
    ensures
        chart_signature([(0, 1), (1, 2), (1, 3)], heap_table(21)) == chart_signature([(0, 1), (1, 2), (1, 3)], heap_table(20)),
{
    lemma_heap_entries();
    lemma_codes_of_word_2(heap_table(21));
    lemma_codes_of_word_2(heap_table(20));
    lemma_charts_agree_through([(0, 1), (1, 2), (1, 3)], heap_table(20), [(0, 1), (1, 2), (1, 3)], heap_table(21), 1, (1, 0, 4, 5, 2, 3, 7, 6));
}

proof fn lemma_chart_71()
    ensures
        chart_signature([(0, 1), (1, 2), (1, 3)], heap_table(23)) == chart_signature([(0, 1), (1, 2), (1, 3)], heap_table(22)),
{
    lemma_heap_entries();
    lemma_codes_of_word_2(heap_table(23));
    lemma_codes_of_word_2(heap_table(22));
    lemma_charts_agree_through([(0, 1), (1, 2), (1, 3)], heap_table(22), [(0, 1), (1, 2), (1, 3)], heap_table(23), 1, (1, 0, 4, 5, 2, 3, 7, 6));
}

/// Every chart of atlas word 2 shares its signature with the first chart
/// of a class below 102.
pub proof fn lemma_charts_of_word_2()
    ensures
        forall|t: int| 48 <= t < 72 ==> #[trigger] meets_class_below(t, 102),
{
    lemma_census_words();
    assert forall|t: int| 48 <= t < 72 implies #[trigger] meets_class_below(t, 102) by {
        if t == 48 { assert(atlas_signatures()[class_rep(24)] == atlas_signatures()[48]); }
        else if t == 49 { lemma_chart_49(); assert(atlas_signatures()[class_rep(24)] == atlas_signatures()[49]); }
        else if t == 50 { assert(atlas_signatures()[class_rep(25)] == atlas_signatures()[50]); }
        else if t == 51 { lemma_chart_51(); assert(atlas_signatures()[class_rep(25)] == atlas_signatures()[51]); }
        else if t == 52 { assert(atlas_signatures()[class_rep(26)] == atlas_signatures()[52]); }
        else if t == 53 { lemma_chart_53(); assert(atlas_signatures()[class_rep(26)] == atlas_signatures()[53]); }
        else if t == 54 { assert(atlas_signatures()[class_rep(27)] == atlas_signatures()[54]); }
        else if t == 55 { lemma_chart_55(); assert(atlas_signatures()[class_rep(27)] == atlas_signatures()[55]); }
        else if t == 56 { assert(atlas_signatures()[class_rep(28)] == atlas_signatures()[56]); }
        else if t == 57 { lemma_chart_57(); assert(atlas_signatures()[class_rep(28)] == atlas_signatures()[57]); }
        else if t == 58 { assert(atlas_signatures()[class_rep(29)] == atlas_signatures()[58]); }
        else if t == 59 { lemma_chart_59(); assert(atlas_signatures()[class_rep(29)] == atlas_signatures()[59]); }
        else if t == 60 { assert(atlas_signatures()[class_rep(30)] == atlas_signatures()[60]); }
        else if t == 61 { lemma_chart_61(); assert(atlas_signatures()[class_rep(30)] == atlas_signatures()[61]); }
        else if t == 62 { assert(atlas_signatures()[class_rep(31)] == atlas_signatures()[62]); }
        else if t == 63 { lemma_chart_63(); assert(atlas_signatures()[class_rep(31)] == atlas_signatures()[63]); }
        else if t == 64 { assert(atlas_signatures()[class_rep(32)] == atlas_signatures()[64]); }
        else if t == 65 { lemma_chart_65(); assert(atlas_signatures()[class_rep(32)] == atlas_signatures()[65]); }
        else if t == 66 { assert(atlas_signatures()[class_rep(33)] == atlas_signatures()[66]); }
        else if t == 67 { lemma_chart_67(); assert(atlas_signatures()[class_rep(33)] == atlas_signatures()[67]); }
        else if t == 68 { assert(atlas_signatures()[class_rep(34)] == atlas_signatures()[68]); }
        else if t == 69 { lemma_chart_69(); assert(atlas_signatures()[class_rep(34)] == atlas_signatures()[69]); }
        else if t == 70 { assert(atlas_signatures()[class_rep(35)] == atlas_signatures()[70]); }
        else { lemma_chart_71(); assert(atlas_signatures()[class_rep(35)] == atlas_signatures()[71]); }
    }
}

proof fn lemma_chart_74()
    ensures
        chart_signature([(0, 2), (0, 3), (1, 2)], heap_table(2)) == chart_signature([(0, 2), (0, 3), (1, 2)], heap_table(1)),
{
    lemma_heap_entries();
    lemma_codes_of_word_3(heap_table(2));
    lemma_codes_of_word_3(heap_table(1));
    lemma_charts_agree_through([(0, 2), (0, 3), (1, 2)], heap_table(1), [(0, 2), (0, 3), (1, 2)], heap_table(2), 1, (1, 0, 4, 5, 2, 3, 7, 6));
}

proof fn lemma_chart_76()
    ensures
        chart_signature([(0, 2), (0, 3), (1, 2)], heap_table(4)) == chart_signature([(0, 2), (0, 3), (1, 2)], heap_table(3)),
{
    lemma_heap_entries();
    lemma_codes_of_word_3(heap_table(4));
    lemma_codes_of_word_3(heap_table(3));
    lemma_charts_agree_through([(0, 2), (0, 3), (1, 2)], heap_table(3), [(0, 2), (0, 3), (1, 2)], heap_table(4), 1, (1, 0, 4, 5, 2, 3, 7, 6));
}

proof fn lemma_chart_77()
    ensures
        chart_signature([(0, 2), (0, 3), (1, 2)], heap_table(5)) == chart_signature([(0, 2), (0, 3), (1, 2)], heap_table(0)),
{
    lemma_heap_entries();
    lemma_codes_of_word_3(heap_table(5));
    lemma_codes_of_word_3(heap_table(0));
    lemma_charts_agree_through([(0, 2), (0, 3), (1, 2)], heap_table(0), [(0, 2), (0, 3), (1, 2)], heap_table(5), 1, (1, 0, 4, 5, 2, 3, 7, 6));
}

proof fn lemma_chart_80()
    ensures
        chart_signature([(0, 2), (0, 3), (1, 2)], heap_table(8)) == chart_signature([(0, 2), (0, 3), (1, 2)], heap_table(7)),
{
    lemma_heap_entries();
    lemma_codes_of_word_3(heap_table(8));
    lemma_codes_of_word_3(heap_table(7));
    lemma_charts_agree_through([(0, 2), (0, 3), (1, 2)], heap_table(7), [(0, 2), (0, 3), (1, 2)], heap_table(8), 1, (1, 0, 4, 5, 2, 3, 7, 6));
}

proof fn lemma_chart_82()
    ensures
        chart_signature([(0, 2), (0, 3), (1, 2)], heap_table(10)) == chart_signature([(0, 2), (0, 3), (1, 2)], heap_table(9)),
{
    lemma_heap_entries();
    lemma_codes_of_word_3(heap_table(10));
    lemma_codes_of_word_3(heap_table(9));
    lemma_charts_agree_through([(0, 2), (0, 3), (1, 2)], heap_table(9), [(0, 2), (0, 3), (1, 2)], heap_table(10), 1, (1, 0, 4, 5, 2, 3, 7, 6));
}

proof fn lemma_chart_83()
    ensures
        chart_signature([(0, 2), (0, 3), (1, 2)], heap_table(11)) == chart_signature([(0, 2), (0, 3), (1, 2)], heap_table(6)),
{
    lemma_heap_entries();
    lemma_codes_of_word_3(heap_table(11));
    lemma_codes_of_word_3(heap_table(6));
    lemma_charts_agree_through([(0, 2), (0, 3), (1, 2)], heap_table(6), [(0, 2), (0, 3), (1, 2)], heap_table(11), 1, (1, 0, 4, 5, 2, 3, 7, 6));
}

proof fn lemma_chart_86()
    ensures
        chart_signature([(0, 2), (0, 3), (1, 2)], heap_table(14)) == chart_signature([(0, 2), (0, 3), (1, 2)], heap_table(13)),
{
    lemma_heap_entries();
    lemma_codes_of_word_3(heap_table(14));
    lemma_codes_of_word_3(heap_table(13));
    lemma_charts_agree_through([(0, 2), (0, 3), (1, 2)], heap_table(13), [(0, 2), (0, 3), (1, 2)], heap_table(14), 1, (1, 0, 4, 5, 2, 3, 7, 6));
}

proof fn lemma_chart_88()
    ensures
        chart_signature([(0, 2), (0, 3), (1, 2)], heap_table(16)) == chart_signature([(0, 2), (0, 3), (1, 2)], heap_table(15)),
{
    lemma_heap_entries();
    lemma_codes_of_word_3(heap_table(16));
    lemma_codes_of_word_3(heap_table(15));
    lemma_charts_agree_through([(0, 2), (0, 3), (1, 2)], heap_table(15), [(0, 2), (0, 3), (1, 2)], heap_table(16), 1, (1, 0, 4, 5, 2, 3, 7, 6));
}

proof fn lemma_chart_89()
    ensures
        chart_signature([(0, 2), (0, 3), (1, 2)], heap_table(17)) == chart_signature([(0, 2), (0, 3), (1, 2)], heap_table(12)),
{
    lemma_heap_entries();
    lemma_codes_of_word_3(heap_table(17));
    lemma_codes_of_word_3(heap_table(12));
    lemma_charts_agree_through([(0, 2), (0, 3), (1, 2)], heap_table(12), [(0, 2), (0, 3), (1, 2)], heap_table(17), 1, (1, 0, 4, 5, 2, 3, 7, 6));
}

proof fn lemma_chart_92()
    ensures
        chart_signature([(0, 2), (0, 3), (1, 2)], heap_table(20)) == chart_signature([(0, 2), (0, 3), (1, 2)], heap_table(19)),
{
    lemma_heap_entries();
    lemma_codes_of_word_3(heap_table(20));
    lemma_codes_of_word_3(heap_table(19));
    lemma_charts_agree_through([(0, 2), (0, 3), (1, 2)], heap_table(19), [(0, 2), (0, 3), (1, 2)], heap_table(20), 1, (1, 0, 4, 5, 2, 3, 7, 6));
}

proof fn lemma_chart_94()
    ensures
        chart_signature([(0, 2), (0, 3), (1, 2)], heap_table(22)) == chart_signature([(0, 2), (0, 3), (1, 2)], heap_table(21)),
{
    lemma_heap_entries();
    lemma_codes_of_word_3(heap_table(22));
    lemma_codes_of_word_3(heap_table(21));
    lemma_charts_agree_through([(0, 2), (0, 3), (1, 2)], heap_table(21), [(0, 2), (0, 3), (1, 2)], heap_table(22), 1, (1, 0, 4, 5, 2, 3, 7, 6));
}

proof fn lemma_chart_95()
    ensures
        chart_signature([(0, 2), (0, 3), (1, 2)], heap_table(23)) == chart_signature([(0, 2), (0, 3), (1, 2)], heap_table(18)),
{
    lemma_heap_entries();
    lemma_codes_of_word_3(heap_table(23));
    lemma_codes_of_word_3(heap_table(18));
    lemma_charts_agree_through([(0, 2), (0, 3), (1, 2)], heap_table(18), [(0, 2), (0, 3), (1, 2)], heap_table(23), 1, (1, 0, 4, 5, 2, 3, 7, 6));
}

/// Every chart of atlas word 3 shares its signature with the first chart
/// of a class below 102.
pub proof fn lemma_charts_of_word_3()
    ensures
        forall|t: int| 72 <= t < 96 ==> #[trigger] meets_class_below(t, 102),
{
    lemma_census_words();
    assert forall|t: int| 72 <= t < 96 implies #[trigger] meets_class_below(t, 102) by {
        if t == 72 { assert(atlas_signatures()[class_rep(36)] == atlas_signatures()[72]); }
        else if t == 73 { assert(atlas_signatures()[class_rep(37)] == atlas_signatures()[73]); }
        else if t == 74 { lemma_chart_74(); assert(atlas_signatures()[class_rep(37)] == atlas_signatures()[74]); }
        else if t == 75 { assert(atlas_signatures()[class_rep(38)] == atlas_signatures()[75]); }
        else if t == 76 { lemma_chart_76(); assert(atlas_signatures()[class_rep(38)] == atlas_signatures()[76]); }
        else if t == 77 { lemma_chart_77(); assert(atlas_signatures()[class_rep(36)] == atlas_signatures()[77]); }
        else if t == 78 { assert(atlas_signatures()[class_rep(39)] == atlas_signatures()[78]); }
        else if t == 79 { assert(atlas_signatures()[class_rep(40)] == atlas_signatures()[79]); }
        else if t == 80 { lemma_chart_80(); assert(atlas_signatures()[class_rep(40)] == atlas_signatures()[80]); }
        else if t == 81 { assert(atlas_signatures()[class_rep(41)] == atlas_signatures()[81]); }
        else if t == 82 { lemma_chart_82(); assert(atlas_signatures()[class_rep(41)] == atlas_signatures()[82]); }
        else if t == 83 { lemma_chart_83(); assert(atlas_signatures()[class_rep(39)] == atlas_signatures()[83]); }
        else if t == 84 { assert(atlas_signatures()[class_rep(42)] == atlas_signatures()[84]); }
        else if t == 85 { assert(atlas_signatures()[class_rep(43)] == atlas_signatures()[85]); }
        else if t == 86 { lemma_chart_86(); assert(atlas_signatures()[class_rep(43)] == atlas_signatures()[86]); }
        else if t == 87 { assert(atlas_signatures()[class_rep(44)] == atlas_signatures()[87]); }
        else if t == 88 { lemma_chart_88(); assert(atlas_signatures()[class_rep(44)] == atlas_signatures()[88]); }
        else if t == 89 { lemma_chart_89(); assert(atlas_signatures()[class_rep(42)] == atlas_signatures()[89]); }
        else if t == 90 { assert(atlas_signatures()[class_rep(45)] == atlas_signatures()[90]); }
        else if t == 91 { assert(atlas_signatures()[class_rep(46)] == atlas_signatures()[91]); }
        else if t == 92 { lemma_chart_92(); assert(atlas_signatures()[class_rep(46)] == atlas_signatures()[92]); }
        else if t == 93 { assert(atlas_signatures()[class_rep(47)] == atlas_signatures()[93]); }
        else if t == 94 { lemma_chart_94(); assert(atlas_signatures()[class_rep(47)] == atlas_signatures()[94]); }
        else { lemma_chart_95(); assert(atlas_signatures()[class_rep(45)] == atlas_signatures()[95]); }
    }
}

proof fn lemma_chart_98()
    ensures
        chart_signature([(0, 2), (1, 3), (1, 2)], heap_table(2)) == chart_signature([(0, 2), (1, 3), (1, 2)], heap_table(1)),
{
    lemma_heap_entries();
    lemma_codes_of_word_4(heap_table(2));
    lemma_codes_of_word_4(heap_table(1));
    lemma_charts_agree_through([(0, 2), (1, 3), (1, 2)], heap_table(1), [(0, 2), (1, 3), (1, 2)], heap_table(2), 1, (1, 0, 4, 5, 2, 3, 7, 6));
}

proof fn lemma_chart_100()
    ensures
        chart_signature([(0, 2), (1, 3), (1, 2)], heap_table(4)) == chart_signature([(0, 2), (1, 3), (1, 2)], heap_table(3)),
{
    lemma_heap_entries();
    lemma_codes_of_word_4(heap_table(4));
    lemma_codes_of_word_4(heap_table(3));
    lemma_charts_agree_through([(0, 2), (1, 3), (1, 2)], heap_table(3), [(0, 2), (1, 3), (1, 2)], heap_table(4), 1, (1, 0, 4, 5, 2, 3, 7, 6));
}

proof fn lemma_chart_101()
    ensures
        chart_signature([(0, 2), (1, 3), (1, 2)], heap_table(5)) == chart_signature([(0, 2), (1, 3), (1, 2)], heap_table(0)),
{
    lemma_heap_entries();
    lemma_codes_of_word_4(heap_table(5));
    lemma_codes_of_word_4(heap_table(0));
    lemma_charts_agree_through([(0, 2), (1, 3), (1, 2)], heap_table(0), [(0, 2), (1, 3), (1, 2)], heap_table(5), 1, (1, 0, 4, 5, 2, 3, 7, 6));
}

proof fn lemma_chart_103()
    ensures
        chart_signature([(0, 2), (1, 3), (1, 2)], heap_table(7)) == chart_signature([(0, 2), (1, 3), (1, 2)], heap_table(1)),
{
    lemma_heap_entries();
    lemma_codes_of_word_4(heap_table(7));
    lemma_codes_of_word_4(heap_table(1));
    lemma_charts_agree_through([(0, 2), (1, 3), (1, 2)], heap_table(1), [(0, 2), (1, 3), (1, 2)], heap_table(7), 2, (2, 4, 0, 6, 1, 7, 3, 5));
}

proof fn lemma_chart_104()
    ensures
        chart_signature([(0, 2), (1, 3), (1, 2)], heap_table(8)) == chart_signature([(0, 2), (1, 3), (1, 2)], heap_table(1)),
{
    lemma_heap_entries();
    lemma_codes_of_word_4(heap_table(8));
    lemma_codes_of_word_4(heap_table(1));
    lemma_charts_agree_through([(0, 2), (1, 3), (1, 2)], heap_table(1), [(0, 2), (1, 3), (1, 2)], heap_table(8), 3, (4, 2, 1, 7, 0, 6, 5, 3));
}

proof fn lemma_chart_106()
    ensures
        chart_signature([(0, 2), (1, 3), (1, 2)], heap_table(10)) == chart_signature([(0, 2), (1, 3), (1, 2)], heap_table(9)),
{
    lemma_heap_entries();
    lemma_codes_of_word_4(heap_table(10));
    lemma_codes_of_word_4(heap_table(9));
    lemma_charts_agree_through([(0, 2), (1, 3), (1, 2)], heap_table(9), [(0, 2), (1, 3), (1, 2)], heap_table(10), 1, (1, 0, 4, 5, 2, 3, 7, 6));
}

proof fn lemma_chart_107()
    ensures
        chart_signature([(0, 2), (1, 3), (1, 2)], heap_table(11)) == chart_signature([(0, 2), (1, 3), (1, 2)], heap_table(6)),
{
    lemma_heap_entries();
    lemma_codes_of_word_4(heap_table(11));
    lemma_codes_of_word_4(heap_table(6));
    lemma_charts_agree_through([(0, 2), (1, 3), (1, 2)], heap_table(6), [(0, 2), (1, 3), (1, 2)], heap_table(11), 1, (1, 0, 4, 5, 2, 3, 7, 6));
}

proof fn lemma_chart_108()
    ensures
        chart_signature([(0, 2), (1, 3), (1, 2)], heap_table(12)) == chart_signature([(0, 2), (1, 3), (1, 2)], heap_table(6)),
{
    lemma_heap_entries();
    lemma_codes_of_word_4(heap_table(12));
    lemma_codes_of_word_4(heap_table(6));
    lemma_charts_agree_through([(0, 2), (1, 3), (1, 2)], heap_table(6), [(0, 2), (1, 3), (1, 2)], heap_table(12), 2, (2, 4, 0, 6, 1, 7, 3, 5));
}

proof fn lemma_chart_109()
    ensures
        chart_signature([(0, 2), (1, 3), (1, 2)], heap_table(13)) == chart_signature([(0, 2), (1, 3), (1, 2)], heap_table(0)),
{
    lemma_heap_entries();
    lemma_codes_of_word_4(heap_table(13));
    lemma_codes_of_word_4(heap_table(0));
    lemma_charts_agree_through([(0, 2), (1, 3), (1, 2)], heap_table(0), [(0, 2), (1, 3), (1, 2)], heap_table(13), 2, (2, 4, 0, 6, 1, 7, 3, 5));
}

proof fn lemma_chart_110()
    ensures
        chart_signature([(0, 2), (1, 3), (1, 2)], heap_table(14)) == chart_signature([(0, 2), (1, 3), (1, 2)], heap_table(0)),
{
    lemma_heap_entries();
    lemma_codes_of_word_4(heap_table(14));
    lemma_codes_of_word_4(heap_table(0));
    lemma_charts_agree_through([(0, 2), (1, 3), (1, 2)], heap_table(0), [(0, 2), (1, 3), (1, 2)], heap_table(14), 3, (4, 2, 1, 7, 0, 6, 5, 3));
}

proof fn lemma_chart_112()
    ensures
        chart_signature([(0, 2), (1, 3), (1, 2)], heap_table(16)) == chart_signature([(0, 2), (1, 3), (1, 2)], heap_table(15)),
{
    lemma_heap_entries();
    lemma_codes_of_word_4(heap_table(16));
    lemma_codes_of_word_4(heap_table(15));
    lemma_charts_agree_through([(0, 2), (1, 3), (1, 2)], heap_table(15), [(0, 2), (1, 3), (1, 2)], heap_table(16), 1, (1, 0, 4, 5, 2, 3, 7, 6));
}

proof fn lemma_chart_113()
    ensures
        chart_signature([(0, 2), (1, 3), (1, 2)], heap_table(17)) == chart_signature([(0, 2), (1, 3), (1, 2)], heap_table(6)),
{
    lemma_heap_entries();
    lemma_codes_of_word_4(heap_table(17));
    lemma_codes_of_word_4(heap_table(6));
    lemma_charts_agree_through([(0, 2), (1, 3), (1, 2)], heap_table(6), [(0, 2), (1, 3), (1, 2)], heap_table(17), 3, (4, 2, 1, 7, 0, 6, 5, 3));
}

proof fn lemma_chart_114()
    ensures
        chart_signature([(0, 2), (1, 3), (1, 2)], heap_table(18)) == chart_signature([(0, 2), (1, 3), (1, 2)], heap_table(9)),
{
    lemma_heap_entries();
    lemma_codes_of_word_4(heap_table(18));
    lemma_codes_of_word_4(heap_table(9));
    lemma_charts_agree_through([(0, 2), (1, 3), (1, 2)], heap_table(9), [(0, 2), (1, 3), (1, 2)], heap_table(18), 2, (2, 4, 0, 6, 1, 7, 3, 5));
}

proof fn lemma_chart_115()
    ensures
        chart_signature([(0, 2), (1, 3), (1, 2)], heap_table(19)) == chart_signature([(0, 2), (1, 3), (1, 2)], heap_table(3)),
{
    lemma_heap_entries();
    lemma_codes_of_word_4(heap_table(19));
    lemma_codes_of_word_4(heap_table(3));
    lemma_charts_agree_through([(0, 2), (1, 3), (1, 2)], heap_table(3), [(0, 2), (1, 3), (1, 2)], heap_table(19), 2, (2, 4, 0, 6, 1, 7, 3, 5));
}

proof fn lemma_chart_116()
    ensures
        chart_signature([(0, 2), (1, 3), (1, 2)], heap_table(20)) == chart_signature([(0, 2), (1, 3), (1, 2)], heap_table(3)),
{
    lemma_heap_entries();
    lemma_codes_of_word_4(heap_table(20));
    lemma_codes_of_word_4(heap_table(3));
    lemma_charts_agree_through([(0, 2), (1, 3), (1, 2)], heap_table(3), [(0, 2), (1, 3), (1, 2)], heap_table(20), 3, (4, 2, 1, 7, 0, 6, 5, 3));
}

proof fn lemma_chart_117()
    ensures
        chart_signature([(0, 2), (1, 3), (1, 2)], heap_table(21)) == chart_signature([(0, 2), (1, 3), (1, 2)], heap_table(15)),
{
    lemma_heap_entries();
    lemma_codes_of_word_4(heap_table(21));
    lemma_codes_of_word_4(heap_table(15));
    lemma_charts_agree_through([(0, 2), (1, 3), (1, 2)], heap_table(15), [(0, 2), (1, 3), (1, 2)], heap_table(21), 2, (2, 4, 0, 6, 1, 7, 3, 5));
}

proof fn lemma_chart_118()
    ensures
        chart_signature([(0, 2), (1, 3), (1, 2)], heap_table(22)) == chart_signature([(0, 2), (1, 3), (1, 2)], heap_table(15)),
{
    lemma_heap_entries();
    lemma_codes_of_word_4(heap_table(22));
    lemma_codes_of_word_4(heap_table(15));
    lemma_charts_agree_through([(0, 2), (1, 3), (1, 2)], heap_table(15), [(0, 2), (1, 3), (1, 2)], heap_table(22), 3, (4, 2, 1, 7, 0, 6, 5, 3));
}

proof fn lemma_chart_119()
    ensures
        chart_signature([(0, 2), (1, 3), (1, 2)], heap_table(23)) == chart_signature([(0, 2), (1, 3), (1, 2)], heap_table(9)),
{
    lemma_heap_entries();
    lemma_codes_of_word_4(heap_table(23));
    lemma_codes_of_word_4(heap_table(9));
    lemma_charts_agree_through([(0, 2), (1, 3), (1, 2)], heap_table(9), [(0, 2), (1, 3), (1, 2)], heap_table(23), 3, (4, 2, 1, 7, 0, 6, 5, 3));
}

/// Every chart of atlas word 4 shares its signature with the first chart
/// of a class below 102.
pub proof fn lemma_charts_of_word_4()
    ensures
        forall|t: int| 96 <= t < 120 ==> #[trigger] meets_class_below(t, 102),
{
    lemma_census_words();
    assert forall|t: int| 96 <= t < 120 implies #[trigger] meets_class_below(t, 102) by {
        if t == 96 { assert(atlas_signatures()[class_rep(48)] == atlas_signatures()[96]); }
        else if t == 97 { assert(atlas_signatures()[class_rep(49)] == atlas_signatures()[97]); }
        else if t == 98 { lemma_chart_98(); assert(atlas_signatures()[class_rep(49)] == atlas_signatures()[98]); }
        else if t == 99 { assert(atlas_signatures()[class_rep(50)] == atlas_signatures()[99]); }
        else if t == 100 { lemma_chart_100(); assert(atlas_signatures()[class_rep(50)] == atlas_signatures()[100]); }
        else if t == 101 { lemma_chart_101(); assert(atlas_signatures()[class_rep(48)] == atlas_signatures()[101]); }
        else if t == 102 { assert(atlas_signatures()[class_rep(51)] == atlas_signatures()[102]); }
        else if t == 103 { lemma_chart_103(); assert(atlas_signatures()[class_rep(49)] == atlas_signatures()[103]); }
        else if t == 104 { lemma_chart_104(); assert(atlas_signatures()[class_rep(49)] == atlas_signatures()[104]); }
        else if t == 105 { assert(atlas_signatures()[class_rep(52)] == atlas_signatures()[105]); }
        else if t == 106 { lemma_chart_106(); assert(atlas_signatures()[class_rep(52)] == atlas_signatures()[106]); }
        else if t == 107 { lemma_chart_107(); assert(atlas_signatures()[class_rep(51)] == atlas_signatures()[107]); }
        else if t == 108 { lemma_chart_108(); assert(atlas_signatures()[class_rep(51)] == atlas_signatures()[108]); }
        else if t == 109 { lemma_chart_109(); assert(atlas_signatures()[class_rep(48)] == atlas_signatures()[109]); }
        else if t == 110 { lemma_chart_110(); assert(atlas_signatures()[class_rep(48)] == atlas_signatures()[110]); }
        else if t == 111 { assert(atlas_signatures()[class_rep(53)] == atlas_signatures()[111]); }
        else if t == 112 { lemma_chart_112(); assert(atlas_signatures()[class_rep(53)] == atlas_signatures()[112]); }
        else if t == 113 { lemma_chart_113(); assert(atlas_signatures()[class_rep(51)] == atlas_signatures()[113]); }
        else if t == 114 { lemma_chart_114(); assert(atlas_signatures()[class_rep(52)] == atlas_signatures()[114]); }
        else if t == 115 { lemma_chart_115(); assert(atlas_signatures()[class_rep(50)] == atlas_signatures()[115]); }
        else if t == 116 { lemma_chart_116(); assert(atlas_signatures()[class_rep(50)] == atlas_signatures()[116]); }
        else if t == 117 { lemma_chart_117(); assert(atlas_signatures()[class_rep(53)] == atlas_signatures()[117]); }
        else if t == 118 { lemma_chart_118(); assert(atlas_signatures()[class_rep(53)] == atlas_signatures()[118]); }
        else { lemma_chart_119(); assert(atlas_signatures()[class_rep(52)] == atlas_signatures()[119]); }
    }
}

proof fn lemma_chart_123()
    ensures
        chart_signature([(0, 3), (1, 2), (1, 3)], heap_table(3)) == chart_signature([(0, 3), (1, 2), (1, 3)], heap_table(0)),
{
    lemma_heap_entries();
    lemma_codes_of_word_5(heap_table(3));
    lemma_codes_of_word_5(heap_table(0));
    lemma_charts_agree_through([(0, 3), (1, 2), (1, 3)], heap_table(0), [(0, 3), (1, 2), (1, 3)], heap_table(3), 2, (2, 4, 0, 6, 1, 7, 3, 5));
}

proof fn lemma_chart_124()
    ensures
        chart_signature([(0, 3), (1, 2), (1, 3)], heap_table(4)) == chart_signature([(0, 3), (1, 2), (1, 3)], heap_table(1)),
{
    lemma_heap_entries();
    lemma_codes_of_word_5(heap_table(4));
    lemma_codes_of_word_5(heap_table(1));
    lemma_charts_agree_through([(0, 3), (1, 2), (1, 3)], heap_table(1), [(0, 3), (1, 2), (1, 3)], heap_table(4), 2, (2, 4, 0, 6, 1, 7, 3, 5));
}

proof fn lemma_chart_125()
    ensures
        chart_signature([(0, 3), (1, 2), (1, 3)], heap_table(5)) == chart_signature([(0, 3), (1, 2), (1, 3)], heap_table(2)),
{
    lemma_heap_entries();
    lemma_codes_of_word_5(heap_table(5));
    lemma_codes_of_word_5(heap_table(2));
    lemma_charts_agree_through([(0, 3), (1, 2), (1, 3)], heap_table(2), [(0, 3), (1, 2), (1, 3)], heap_table(5), 2, (2, 4, 0, 6, 1, 7, 3, 5));
}

proof fn lemma_chart_126()
    ensures
        chart_signature([(0, 3), (1, 2), (1, 3)], heap_table(6)) == chart_signature([(0, 3), (1, 2), (1, 3)], heap_table(0)),
{
    lemma_heap_entries();
    lemma_codes_of_word_5(heap_table(6));
    lemma_codes_of_word_5(heap_table(0));
    lemma_charts_agree_through([(0, 3), (1, 2), (1, 3)], heap_table(0), [(0, 3), (1, 2), (1, 3)], heap_table(6), 1, (1, 0, 4, 5, 2, 3, 7, 6));
}

proof fn lemma_chart_129()
    ensures
        chart_signature([(0, 3), (1, 2), (1, 3)], heap_table(9)) == chart_signature([(0, 3), (1, 2), (1, 3)], heap_table(0)),
{
    lemma_heap_entries();
    lemma_codes_of_word_5(heap_table(9));
    lemma_codes_of_word_5(heap_table(0));
    lemma_charts_agree_through([(0, 3), (1, 2), (1, 3)], heap_table(0), [(0, 3), (1, 2), (1, 3)], heap_table(9), 3, (4, 2, 1, 7, 0, 6, 5, 3));
}

proof fn lemma_chart_130()
    ensures
        chart_signature([(0, 3), (1, 2), (1, 3)], heap_table(10)) == chart_signature([(0, 3), (1, 2), (1, 3)], heap_table(7)),
{
    lemma_heap_entries();
    lemma_codes_of_word_5(heap_table(10));
    lemma_codes_of_word_5(heap_table(7));
    lemma_charts_agree_through([(0, 3), (1, 2), (1, 3)], heap_table(7), [(0, 3), (1, 2), (1, 3)], heap_table(10), 2, (2, 4, 0, 6, 1, 7, 3, 5));
}

proof fn lemma_chart_131()
    ensures
        chart_signature([(0, 3), (1, 2), (1, 3)], heap_table(11)) == chart_signature([(0, 3), (1, 2), (1, 3)], heap_table(8)),
{
    lemma_heap_entries();
    lemma_codes_of_word_5(heap_table(11));
    lemma_codes_of_word_5(heap_table(8));
    lemma_charts_agree_through([(0, 3), (1, 2), (1, 3)], heap_table(8), [(0, 3), (1, 2), (1, 3)], heap_table(11), 2, (2, 4, 0, 6, 1, 7, 3, 5));
}

proof fn lemma_chart_132()
    ensures
        chart_signature([(0, 3), (1, 2), (1, 3)], heap_table(12)) == chart_signature([(0, 3), (1, 2), (1, 3)], heap_table(1)),
{
    lemma_heap_entries();
    lemma_codes_of_word_5(heap_table(12));
    lemma_codes_of_word_5(heap_table(1));
    lemma_charts_agree_through([(0, 3), (1, 2), (1, 3)], heap_table(1), [(0, 3), (1, 2), (1, 3)], heap_table(12), 1, (1, 0, 4, 5, 2, 3, 7, 6));
}

proof fn lemma_chart_133()
    ensures
        chart_signature([(0, 3), (1, 2), (1, 3)], heap_table(13)) == chart_signature([(0, 3), (1, 2), (1, 3)], heap_table(7)),
{
    lemma_heap_entries();
    lemma_codes_of_word_5(heap_table(13));
    lemma_codes_of_word_5(heap_table(7));
    lemma_charts_agree_through([(0, 3), (1, 2), (1, 3)], heap_table(7), [(0, 3), (1, 2), (1, 3)], heap_table(13), 1, (1, 0, 4, 5, 2, 3, 7, 6));
}

proof fn lemma_chart_135()
    ensures
        chart_signature([(0, 3), (1, 2), (1, 3)], heap_table(15)) == chart_signature([(0, 3), (1, 2), (1, 3)], heap_table(1)),
{
    lemma_heap_entries();
    lemma_codes_of_word_5(heap_table(15));
    lemma_codes_of_word_5(heap_table(1));
    lemma_charts_agree_through([(0, 3), (1, 2), (1, 3)], heap_table(1), [(0, 3), (1, 2), (1, 3)], heap_table(15), 3, (4, 2, 1, 7, 0, 6, 5, 3));
}

proof fn lemma_chart_136()
    ensures
        chart_signature([(0, 3), (1, 2), (1, 3)], heap_table(16)) == chart_signature([(0, 3), (1, 2), (1, 3)], heap_table(7)),
{
    lemma_heap_entries();
    lemma_codes_of_word_5(heap_table(16));
    lemma_codes_of_word_5(heap_table(7));
    lemma_charts_agree_through([(0, 3), (1, 2), (1, 3)], heap_table(7), [(0, 3), (1, 2), (1, 3)], heap_table(16), 3, (4, 2, 1, 7, 0, 6, 5, 3));
}

proof fn lemma_chart_137()
    ensures
        chart_signature([(0, 3), (1, 2), (1, 3)], heap_table(17)) == chart_signature([(0, 3), (1, 2), (1, 3)], heap_table(14)),
{
    lemma_heap_entries();
    lemma_codes_of_word_5(heap_table(17));
    lemma_codes_of_word_5(heap_table(14));
    lemma_charts_agree_through([(0, 3), (1, 2), (1, 3)], heap_table(14), [(0, 3), (1, 2), (1, 3)], heap_table(17), 2, (2, 4, 0, 6, 1, 7, 3, 5));
}

proof fn lemma_chart_138()
    ensures
        chart_signature([(0, 3), (1, 2), (1, 3)], heap_table(18)) == chart_signature([(0, 3), (1, 2), (1, 3)], heap_table(2)),
{
    lemma_heap_entries();
    lemma_codes_of_word_5(heap_table(18));
    lemma_codes_of_word_5(heap_table(2));
    lemma_charts_agree_through([(0, 3), (1, 2), (1, 3)], heap_table(2), [(0, 3), (1, 2), (1, 3)], heap_table(18), 1, (1, 0, 4, 5, 2, 3, 7, 6));
}

proof fn lemma_chart_139()
    ensures
        chart_signature([(0, 3), (1, 2), (1, 3)], heap_table(19)) == chart_signature([(0, 3), (1, 2), (1, 3)], heap_table(8)),
{
    lemma_heap_entries();
    lemma_codes_of_word_5(heap_table(19));
    lemma_codes_of_word_5(heap_table(8));
    lemma_charts_agree_through([(0, 3), (1, 2), (1, 3)], heap_table(8), [(0, 3), (1, 2), (1, 3)], heap_table(19), 1, (1, 0, 4, 5, 2, 3, 7, 6));
}

proof fn lemma_chart_140()
    ensures
        chart_signature([(0, 3), (1, 2), (1, 3)], heap_table(20)) == chart_signature([(0, 3), (1, 2), (1, 3)], heap_table(14)),
{
    lemma_heap_entries();
    lemma_codes_of_word_5(heap_table(20));
    lemma_codes_of_word_5(heap_table(14));
    lemma_charts_agree_through([(0, 3), (1, 2), (1, 3)], heap_table(14), [(0, 3), (1, 2), (1, 3)], heap_table(20), 1, (1, 0, 4, 5, 2, 3, 7, 6));
}

proof fn lemma_chart_141()
    ensures
        chart_signature([(0, 3), (1, 2), (1, 3)], heap_table(21)) == chart_signature([(0, 3), (1, 2), (1, 3)], heap_table(2)),
{
    lemma_heap_entries();
    lemma_codes_of_word_5(heap_table(21));
    lemma_codes_of_word_5(heap_table(2));
    lemma_charts_agree_through([(0, 3), (1, 2), (1, 3)], heap_table(2), [(0, 3), (1, 2), (1, 3)], heap_table(21), 3, (4, 2, 1, 7, 0, 6, 5, 3));
}

proof fn lemma_chart_142()
    ensures
        chart_signature([(0, 3), (1, 2), (1, 3)], heap_table(22)) == chart_signature([(0, 3), (1, 2), (1, 3)], heap_table(8)),
{
    lemma_heap_entries();
    lemma_codes_of_word_5(heap_table(22));
    lemma_codes_of_word_5(heap_table(8));
    lemma_charts_agree_through([(0, 3), (1, 2), (1, 3)], heap_table(8), [(0, 3), (1, 2), (1, 3)], heap_table(22), 3, (4, 2, 1, 7, 0, 6, 5, 3));
}

proof fn lemma_chart_143()
    ensures
        chart_signature([(0, 3), (1, 2), (1, 3)], heap_table(23)) == chart_signature([(0, 3), (1, 2), (1, 3)], heap_table(14)),
{
    lemma_heap_entries();
    lemma_codes_of_word_5(heap_table(23));
    lemma_codes_of_word_5(heap_table(14));
    lemma_charts_agree_through([(0, 3), (1, 2), (1, 3)], heap_table(14), [(0, 3), (1, 2), (1, 3)], heap_table(23), 3, (4, 2, 1, 7, 0, 6, 5, 3));
}

/// Every chart of atlas word 5 shares its signature with the first chart
/// of a class below 102.
pub proof fn lemma_charts_of_word_5()
    ensures
        forall|t: int| 120 <= t < 144 ==> #[trigger] meets_class_below(t, 102),
{
    lemma_census_words();
    assert forall|t: int| 120 <= t < 144 implies #[trigger] meets_class_below(t, 102) by {
        if t == 120 { assert(atlas_signatures()[class_rep(54)] == atlas_signatures()[120]); }
        else if t == 121 { assert(atlas_signatures()[class_rep(55)] == atlas_signatures()[121]); }
        else if t == 122 { assert(atlas_signatures()[class_rep(56)] == atlas_signatures()[122]); }
        else if t == 123 { lemma_chart_123(); assert(atlas_signatures()[class_rep(54)] == atlas_signatures()[123]); }
        else if t == 124 { lemma_chart_124(); assert(atlas_signatures()[class_rep(55)] == atlas_signatures()[124]); }
        else if t == 125 { lemma_chart_125(); assert(atlas_signatures()[class_rep(56)] == atlas_signatures()[125]); }
        else if t == 126 { lemma_chart_126(); assert(atlas_signatures()[class_rep(54)] == atlas_signatures()[126]); }
        else if t == 127 { assert(atlas_signatures()[class_rep(57)] == atlas_signatures()[127]); }
        else if t == 128 { assert(atlas_signatures()[class_rep(58)] == atlas_signatures()[128]); }
        else if t == 129 { lemma_chart_129(); assert(atlas_signatures()[class_rep(54)] == atlas_signatures()[129]); }
        else if t == 130 { lemma_chart_130(); assert(atlas_signatures()[class_rep(57)] == atlas_signatures()[130]); }
        else if t == 131 { lemma_chart_131(); assert(atlas_signatures()[class_rep(58)] == atlas_signatures()[131]); }
        else if t == 132 { lemma_chart_132(); assert(atlas_signatures()[class_rep(55)] == atlas_signatures()[132]); }
        else if t == 133 { lemma_chart_133(); assert(atlas_signatures()[class_rep(57)] == atlas_signatures()[133]); }
        else if t == 134 { assert(atlas_signatures()[class_rep(59)] == atlas_signatures()[134]); }
        else if t == 135 { lemma_chart_135(); assert(atlas_signatures()[class_rep(55)] == atlas_signatures()[135]); }
        else if t == 136 { lemma_chart_136(); assert(atlas_signatures()[class_rep(57)] == atlas_signatures()[136]); }
        else if t == 137 { lemma_chart_137(); assert(atlas_signatures()[class_rep(59)] == atlas_signatures()[137]); }
        else if t == 138 { lemma_chart_138(); assert(atlas_signatures()[class_rep(56)] == atlas_signatures()[138]); }
        else if t == 139 { lemma_chart_139(); assert(atlas_signatures()[class_rep(58)] == atlas_signatures()[139]); }
        else if t == 140 { lemma_chart_140(); assert(atlas_signatures()[class_rep(59)] == atlas_signatures()[140]); }
        else if t == 141 { lemma_chart_141(); assert(atlas_signatures()[class_rep(56)] == atlas_signatures()[141]); }
        else if t == 142 { lemma_chart_142(); assert(atlas_signatures()[class_rep(58)] == atlas_signatures()[142]); }
        else { lemma_chart_143(); assert(atlas_signatures()[class_rep(59)] == atlas_signatures()[143]); }
    }
}

proof fn lemma_chart_146()
    ensures
        chart_signature([(0, 2), (0, 3), (1, 3)], heap_table(2)) == chart_signature([(0, 2), (0, 3), (1, 3)], heap_table(1)),
{
    lemma_heap_entries();
    lemma_codes_of_word_6(heap_table(2));
    lemma_codes_of_word_6(heap_table(1));
    lemma_charts_agree_through([(0, 2), (0, 3), (1, 3)], heap_table(1), [(0, 2), (0, 3), (1, 3)], heap_table(2), 1, (1, 0, 4, 5, 2, 3, 7, 6));
}

proof fn lemma_chart_148()
    ensures
        chart_signature([(0, 2), (0, 3), (1, 3)], heap_table(4)) == chart_signature([(0, 2), (0, 3), (1, 3)], heap_table(3)),
{
    lemma_heap_entries();
    lemma_codes_of_word_6(heap_table(4));
    lemma_codes_of_word_6(heap_table(3));
    lemma_charts_agree_through([(0, 2), (0, 3), (1, 3)], heap_table(3), [(0, 2), (0, 3), (1, 3)], heap_table(4), 1, (1, 0, 4, 5, 2, 3, 7, 6));
}

proof fn lemma_chart_149()
    ensures
        chart_signature([(0, 2), (0, 3), (1, 3)], heap_table(5)) == chart_signature([(0, 2), (0, 3), (1, 3)], heap_table(0)),
{
    lemma_heap_entries();
    lemma_codes_of_word_6(heap_table(5));
    lemma_codes_of_word_6(heap_table(0));
    lemma_charts_agree_through([(0, 2), (0, 3), (1, 3)], heap_table(0), [(0, 2), (0, 3), (1, 3)], heap_table(5), 1, (1, 0, 4, 5, 2, 3, 7, 6));
}

proof fn lemma_chart_152()
    ensures
        chart_signature([(0, 2), (0, 3), (1, 3)], heap_table(8)) == chart_signature([(0, 2), (0, 3), (1, 3)], heap_table(7)),
{
    lemma_heap_entries();
    lemma_codes_of_word_6(heap_table(8));
    lemma_codes_of_word_6(heap_table(7));
    lemma_charts_agree_through([(0, 2), (0, 3), (1, 3)], heap_table(7), [(0, 2), (0, 3), (1, 3)], heap_table(8), 1, (1, 0, 4, 5, 2, 3, 7, 6));
}

proof fn lemma_chart_154()
    ensures
        chart_signature([(0, 2), (0, 3), (1, 3)], heap_table(10)) == chart_signature([(0, 2), (0, 3), (1, 3)], heap_table(9)),
{
    lemma_heap_entries();
    lemma_codes_of_word_6(heap_table(10));
    lemma_codes_of_word_6(heap_table(9));
    lemma_charts_agree_through([(0, 2), (0, 3), (1, 3)], heap_table(9), [(0, 2), (0, 3), (1, 3)], heap_table(10), 1, (1, 0, 4, 5, 2, 3, 7, 6));
}

proof fn lemma_chart_155()
    ensures
        chart_signature([(0, 2), (0, 3), (1, 3)], heap_table(11)) == chart_signature([(0, 2), (0, 3), (1, 3)], heap_table(6)),
{
    lemma_heap_entries();
    lemma_codes_of_word_6(heap_table(11));
    lemma_codes_of_word_6(heap_table(6));
    lemma_charts_agree_through([(0, 2), (0, 3), (1, 3)], heap_table(6), [(0, 2), (0, 3), (1, 3)], heap_table(11), 1, (1, 0, 4, 5, 2, 3, 7, 6));
}

proof fn lemma_chart_158()
    ensures
        chart_signature([(0, 2), (0, 3), (1, 3)], heap_table(14)) == chart_signature([(0, 2), (0, 3), (1, 3)], heap_table(13)),
{
    lemma_heap_entries();
    lemma_codes_of_word_6(heap_table(14));
    lemma_codes_of_word_6(heap_table(13));
    lemma_charts_agree_through([(0, 2), (0, 3), (1, 3)], heap_table(13), [(0, 2), (0, 3), (1, 3)], heap_table(14), 1, (1, 0, 4, 5, 2, 3, 7, 6));
}

proof fn lemma_chart_160()
    ensures
        chart_signature([(0, 2), (0, 3), (1, 3)], heap_table(16)) == chart_signature([(0, 2), (0, 3), (1, 3)], heap_table(15)),
{
    lemma_heap_entries();
    lemma_codes_of_word_6(heap_table(16));
    lemma_codes_of_word_6(heap_table(15));
    lemma_charts_agree_through([(0, 2), (0, 3), (1, 3)], heap_table(15), [(0, 2), (0, 3), (1, 3)], heap_table(16), 1, (1, 0, 4, 5, 2, 3, 7, 6));
}

proof fn lemma_chart_161()
    ensures
        chart_signature([(0, 2), (0, 3), (1, 3)], heap_table(17)) == chart_signature([(0, 2), (0, 3), (1, 3)], heap_table(12)),
{
    lemma_heap_entries();
    lemma_codes_of_word_6(heap_table(17));
    lemma_codes_of_word_6(heap_table(12));
    lemma_charts_agree_through([(0, 2), (0, 3), (1, 3)], heap_table(12), [(0, 2), (0, 3), (1, 3)], heap_table(17), 1, (1, 0, 4, 5, 2, 3, 7, 6));
}

proof fn lemma_chart_164()
    ensures
        chart_signature([(0, 2), (0, 3), (1, 3)], heap_table(20)) == chart_signature([(0, 2), (0, 3), (1, 3)], heap_table(19)),
{
    lemma_heap_entries();
    lemma_codes_of_word_6(heap_table(20));
    lemma_codes_of_word_6(heap_table(19));
    lemma_charts_agree_through([(0, 2), (0, 3), (1, 3)], heap_table(19), [(0, 2), (0, 3), (1, 3)], heap_table(20), 1, (1, 0, 4, 5, 2, 3, 7, 6));
}

proof fn lemma_chart_166()
    ensures
        chart_signature([(0, 2), (0, 3), (1, 3)], heap_table(22)) == chart_signature([(0, 2), (0, 3), (1, 3)], heap_table(21)),
{
    lemma_heap_entries();
    lemma_codes_of_word_6(heap_table(22));
    lemma_codes_of_word_6(heap_table(21));
    lemma_charts_agree_through([(0, 2), (0, 3), (1, 3)], heap_table(21), [(0, 2), (0, 3), (1, 3)], heap_table(22), 1, (1, 0, 4, 5, 2, 3, 7, 6));
}

proof fn lemma_chart_167()
    ensures
        chart_signature([(0, 2), (0, 3), (1, 3)], heap_table(23)) == chart_signature([(0, 2), (0, 3), (1, 3)], heap_table(18)),
{
    lemma_heap_entries();
    lemma_codes_of_word_6(heap_table(23));
    lemma_codes_of_word_6(heap_table(18));
    lemma_charts_agree_through([(0, 2), (0, 3), (1, 3)], heap_table(18), [(0, 2), (0, 3), (1, 3)], heap_table(23), 1, (1, 0, 4, 5, 2, 3, 7, 6));
}

/// Every chart of atlas word 6 shares its signature with the first chart
/// of a class below 102.
pub proof fn lemma_charts_of_word_6()
    ensures
        forall|t: int| 144 <= t < 168 ==> #[trigger] meets_class_below(t, 102),
{
    lemma_census_words();
    assert forall|t: int| 144 <= t < 168 implies #[trigger] meets_class_below(t, 102) by {
        if t == 144 { assert(atlas_signatures()[class_rep(60)] == atlas_signatures()[144]); }
        else if t == 145 { assert(atlas_signatures()[class_rep(61)] == atlas_signatures()[145]); }
        else if t == 146 { lemma_chart_146(); assert(atlas_signatures()[class_rep(61)] == atlas_signatures()[146]); }
        else if t == 147 { assert(atlas_signatures()[class_rep(62)] == atlas_signatures()[147]); }
        else if t == 148 { lemma_chart_148(); assert(atlas_signatures()[class_rep(62)] == atlas_signatures()[148]); }
        else if t == 149 { lemma_chart_149(); assert(atlas_signatures()[class_rep(60)] == atlas_signatures()[149]); }
        else if t == 150 { assert(atlas_signatures()[class_rep(63)] == atlas_signatures()[150]); }
        else if t == 151 { assert(atlas_signatures()[class_rep(64)] == atlas_signatures()[151]); }
        else if t == 152 { lemma_chart_152(); assert(atlas_signatures()[class_rep(64)] == atlas_signatures()[152]); }
        else if t == 153 { assert(atlas_signatures()[class_rep(65)] == atlas_signatures()[153]); }
        else if t == 154 { lemma_chart_154(); assert(atlas_signatures()[class_rep(65)] == atlas_signatures()[154]); }
        else if t == 155 { lemma_chart_155(); assert(atlas_signatures()[class_rep(63)] == atlas_signatures()[155]); }
        else if t == 156 { assert(atlas_signatures()[class_rep(66)] == atlas_signatures()[156]); }
        else if t == 157 { assert(atlas_signatures()[class_rep(67)] == atlas_signatures()[157]); }
        else if t == 158 { lemma_chart_158(); assert(atlas_signatures()[class_rep(67)] == atlas_signatures()[158]); }
        else if t == 159 { assert(atlas_signatures()[class_rep(68)] == atlas_signatures()[159]); }
        else if t == 160 { lemma_chart_160(); assert(atlas_signatures()[class_rep(68)] == atlas_signatures()[160]); }
        else if t == 161 { lemma_chart_161(); assert(atlas_signatures()[class_rep(66)] == atlas_signatures()[161]); }
        else if t == 162 { assert(atlas_signatures()[class_rep(69)] == atlas_signatures()[162]); }
        else if t == 163 { assert(atlas_signatures()[class_rep(70)] == atlas_signatures()[163]); }
        else if t == 164 { lemma_chart_164(); assert(atlas_signatures()[class_rep(70)] == atlas_signatures()[164]); }
        else if t == 165 { assert(atlas_signatures()[class_rep(71)] == atlas_signatures()[165]); }
        else if t == 166 { lemma_chart_166(); assert(atlas_signatures()[class_rep(71)] == atlas_signatures()[166]); }
        else { lemma_chart_167(); assert(atlas_signatures()[class_rep(69)] == atlas_signatures()[167]); }
    }
}

proof fn lemma_chart_169()
    ensures
        chart_signature([(0, 1), (0, 2), (1, 3)], heap_table(1)) == chart_signature([(0, 1), (0, 2), (1, 3)], heap_table(0)),
{
    lemma_heap_entries();
    lemma_codes_of_word_7(heap_table(1));
    lemma_codes_of_word_7(heap_table(0));
    lemma_charts_agree_through([(0, 1), (0, 2), (1, 3)], heap_table(0), [(0, 1), (0, 2), (1, 3)], heap_table(1), 1, (1, 0, 4, 5, 2, 3, 7, 6));
}

proof fn lemma_chart_171()
    ensures
        chart_signature([(0, 1), (0, 2), (1, 3)], heap_table(3)) == chart_signature([(0, 1), (0, 2), (1, 3)], heap_table(2)),
{
    lemma_heap_entries();
    lemma_codes_of_word_7(heap_table(3));
    lemma_codes_of_word_7(heap_table(2));
    lemma_charts_agree_through([(0, 1), (0, 2), (1, 3)], heap_table(2), [(0, 1), (0, 2), (1, 3)], heap_table(3), 1, (1, 0, 4, 5, 2, 3, 7, 6));
}

proof fn lemma_chart_173()
    ensures
        chart_signature([(0, 1), (0, 2), (1, 3)], heap_table(5)) == chart_signature([(0, 1), (0, 2), (1, 3)], heap_table(4)),
{
    lemma_heap_entries();
    lemma_codes_of_word_7(heap_table(5));
    lemma_codes_of_word_7(heap_table(4));
    lemma_charts_agree_through([(0, 1), (0, 2), (1, 3)], heap_table(4), [(0, 1), (0, 2), (1, 3)], heap_table(5), 1, (1, 0, 4, 5, 2, 3, 7, 6));
}

proof fn lemma_chart_175()
    ensures
        chart_signature([(0, 1), (0, 2), (1, 3)], heap_table(7)) == chart_signature([(0, 1), (0, 2), (1, 3)], heap_table(6)),
{
    lemma_heap_entries();
    lemma_codes_of_word_7(heap_table(7));
    lemma_codes_of_word_7(heap_table(6));
    lemma_charts_agree_through([(0, 1), (0, 2), (1, 3)], heap_table(6), [(0, 1), (0, 2), (1, 3)], heap_table(7), 1, (1, 0, 4, 5, 2, 3, 7, 6));
}

proof fn lemma_chart_177()
    ensures
        chart_signature([(0, 1), (0, 2), (1, 3)], heap_table(9)) == chart_signature([(0, 1), (0, 2), (1, 3)], heap_table(8)),
{
    lemma_heap_entries();
    lemma_codes_of_word_7(heap_table(9));
    lemma_codes_of_word_7(heap_table(8));
    lemma_charts_agree_through([(0, 1), (0, 2), (1, 3)], heap_table(8), [(0, 1), (0, 2), (1, 3)], heap_table(9), 1, (1, 0, 4, 5, 2, 3, 7, 6));
}

proof fn lemma_chart_179()
    ensures
        chart_signature([(0, 1), (0, 2), (1, 3)], heap_table(11)) == chart_signature([(0, 1), (0, 2), (1, 3)], heap_table(10)),
{
    lemma_heap_entries();
    lemma_codes_of_word_7(heap_table(11));
    lemma_codes_of_word_7(heap_table(10));
    lemma_charts_agree_through([(0, 1), (0, 2), (1, 3)], heap_table(10), [(0, 1), (0, 2), (1, 3)], heap_table(11), 1, (1, 0, 4, 5, 2, 3, 7, 6));
}

proof fn lemma_chart_181()
    ensures
        chart_signature([(0, 1), (0, 2), (1, 3)], heap_table(13)) == chart_signature([(0, 1), (0, 2), (1, 3)], heap_table(12)),
{
    lemma_heap_entries();
    lemma_codes_of_word_7(heap_table(13));
    lemma_codes_of_word_7(heap_table(12));
    lemma_charts_agree_through([(0, 1), (0, 2), (1, 3)], heap_table(12), [(0, 1), (0, 2), (1, 3)], heap_table(13), 1, (1, 0, 4, 5, 2, 3, 7, 6));
}

proof fn lemma_chart_183()
    ensures
        chart_signature([(0, 1), (0, 2), (1, 3)], heap_table(15)) == chart_signature([(0, 1), (0, 2), (1, 3)], heap_table(14)),
{
    lemma_heap_entries();
    lemma_codes_of_word_7(heap_table(15));
    lemma_codes_of_word_7(heap_table(14));
    lemma_charts_agree_through([(0, 1), (0, 2), (1, 3)], heap_table(14), [(0, 1), (0, 2), (1, 3)], heap_table(15), 1, (1, 0, 4, 5, 2, 3, 7, 6));
}

proof fn lemma_chart_185()
    ensures
        chart_signature([(0, 1), (0, 2), (1, 3)], heap_table(17)) == chart_signature([(0, 1), (0, 2), (1, 3)], heap_table(16)),
{
    lemma_heap_entries();
    lemma_codes_of_word_7(heap_table(17));
    lemma_codes_of_word_7(heap_table(16));
    lemma_charts_agree_through([(0, 1), (0, 2), (1, 3)], heap_table(16), [(0, 1), (0, 2), (1, 3)], heap_table(17), 1, (1, 0, 4, 5, 2, 3, 7, 6));
}

proof fn lemma_chart_187()
    ensures
        chart_signature([(0, 1), (0, 2), (1, 3)], heap_table(19)) == chart_signature([(0, 1), (0, 2), (1, 3)], heap_table(18)),
{
    lemma_heap_entries();
    lemma_codes_of_word_7(heap_table(19));
    lemma_codes_of_word_7(heap_table(18));
    lemma_charts_agree_through([(0, 1), (0, 2), (1, 3)], heap_table(18), [(0, 1), (0, 2), (1, 3)], heap_table(19), 1, (1, 0, 4, 5, 2, 3, 7, 6));
}

proof fn lemma_chart_189()
    ensures
        chart_signature([(0, 1), (0, 2), (1, 3)], heap_table(21)) == chart_signature([(0, 1), (0, 2), (1, 3)], heap_table(20)),
{
    lemma_heap_entries();
    lemma_codes_of_word_7(heap_table(21));
    lemma_codes_of_word_7(heap_table(20));
    lemma_charts_agree_through([(0, 1), (0, 2), (1, 3)], heap_table(20), [(0, 1), (0, 2), (1, 3)], heap_table(21), 1, (1, 0, 4, 5, 2, 3, 7, 6));
}

proof fn lemma_chart_191()
    ensures
        chart_signature([(0, 1), (0, 2), (1, 3)], heap_table(23)) == chart_signature([(0, 1), (0, 2), (1, 3)], heap_table(22)),
{
    lemma_heap_entries();
    lemma_codes_of_word_7(heap_table(23));
    lemma_codes_of_word_7(heap_table(22));
    lemma_charts_agree_through([(0, 1), (0, 2), (1, 3)], heap_table(22), [(0, 1), (0, 2), (1, 3)], heap_table(23), 1, (1, 0, 4, 5, 2, 3, 7, 6));
}

/// Every chart of atlas word 7 shares its signature with the first chart
/// of a class below 102.
pub proof fn lemma_charts_of_word_7()
    ensures
        forall|t: int| 168 <= t < 192 ==> #[trigger] meets_class_below(t, 102),
{
    lemma_census_words();
    assert forall|t: int| 168 <= t < 192 implies #[trigger] meets_class_below(t, 102) by {
        if t == 168 { assert(atlas_signatures()[class_rep(72)] == atlas_signatures()[168]); }
        else if t == 169 { lemma_chart_169(); assert(atlas_signatures()[class_rep(72)] == atlas_signatures()[169]); }
        else if t == 170 { assert(atlas_signatures()[class_rep(73)] == atlas_signatures()[170]); }
        else if t == 171 { lemma_chart_171(); assert(atlas_signatures()[class_rep(73)] == atlas_signatures()[171]); }
        else if t == 172 { assert(atlas_signatures()[class_rep(74)] == atlas_signatures()[172]); }
        else if t == 173 { lemma_chart_173(); assert(atlas_signatures()[class_rep(74)] == atlas_signatures()[173]); }
        else if t == 174 { assert(atlas_signatures()[class_rep(75)] == atlas_signatures()[174]); }
        else if t == 175 { lemma_chart_175(); assert(atlas_signatures()[class_rep(75)] == atlas_signatures()[175]); }
        else if t == 176 { assert(atlas_signatures()[class_rep(76)] == atlas_signatures()[176]); }
        else if t == 177 { lemma_chart_177(); assert(atlas_signatures()[class_rep(76)] == atlas_signatures()[177]); }
        else if t == 178 { assert(atlas_signatures()[class_rep(77)] == atlas_signatures()[178]); }
        else if t == 179 { lemma_chart_179(); assert(atlas_signatures()[class_rep(77)] == atlas_signatures()[179]); }
        else if t == 180 { assert(atlas_signatures()[class_rep(78)] == atlas_signatures()[180]); }
        else if t == 181 { lemma_chart_181(); assert(atlas_signatures()[class_rep(78)] == atlas_signatures()[181]); }
        else if t == 182 { assert(atlas_signatures()[class_rep(79)] == atlas_signatures()[182]); }
        else if t == 183 { lemma_chart_183(); assert(atlas_signatures()[class_rep(79)] == atlas_signatures()[183]); }
        else if t == 184 { assert(atlas_signatures()[class_rep(80)] == atlas_signatures()[184]); }
        else if t == 185 { lemma_chart_185(); assert(atlas_signatures()[class_rep(80)] == atlas_signatures()[185]); }
        else if t == 186 { assert(atlas_signatures()[class_rep(81)] == atlas_signatures()[186]); }
        else if t == 187 { lemma_chart_187(); assert(atlas_signatures()[class_rep(81)] == atlas_signatures()[187]); }
        else if t == 188 { assert(atlas_signatures()[class_rep(82)] == atlas_signatures()[188]); }
        else if t == 189 { lemma_chart_189(); assert(atlas_signatures()[class_rep(82)] == atlas_signatures()[189]); }
        else if t == 190 { assert(atlas_signatures()[class_rep(83)] == atlas_signatures()[190]); }
        else { lemma_chart_191(); assert(atlas_signatures()[class_rep(83)] == atlas_signatures()[191]); }
    }
}

proof fn lemma_chart_193()
    ensures
        chart_signature([(0, 1), (0, 2), (2, 3)], heap_table(1)) == chart_signature([(0, 1), (0, 2), (2, 3)], heap_table(0)),
{
    lemma_heap_entries();
    lemma_codes_of_word_8(heap_table(1));
    lemma_codes_of_word_8(heap_table(0));
    lemma_charts_agree_through([(0, 1), (0, 2), (2, 3)], heap_table(0), [(0, 1), (0, 2), (2, 3)], heap_table(1), 1, (1, 0, 4, 5, 2, 3, 7, 6));
}

proof fn lemma_chart_195()
    ensures
        chart_signature([(0, 1), (0, 2), (2, 3)], heap_table(3)) == chart_signature([(0, 1), (0, 2), (2, 3)], heap_table(2)),
{
    lemma_heap_entries();
    lemma_codes_of_word_8(heap_table(3));
    lemma_codes_of_word_8(heap_table(2));
    lemma_charts_agree_through([(0, 1), (0, 2), (2, 3)], heap_table(2), [(0, 1), (0, 2), (2, 3)], heap_table(3), 1, (1, 0, 4, 5, 2, 3, 7, 6));
}

proof fn lemma_chart_197()
    ensures
        chart_signature([(0, 1), (0, 2), (2, 3)], heap_table(5)) == chart_signature([(0, 1), (0, 2), (2, 3)], heap_table(4)),
{
    lemma_heap_entries();
    lemma_codes_of_word_8(heap_table(5));
    lemma_codes_of_word_8(heap_table(4));
    lemma_charts_agree_through([(0, 1), (0, 2), (2, 3)], heap_table(4), [(0, 1), (0, 2), (2, 3)], heap_table(5), 1, (1, 0, 4, 5, 2, 3, 7, 6));
}

proof fn lemma_chart_199()
    ensures
        chart_signature([(0, 1), (0, 2), (2, 3)], heap_table(7)) == chart_signature([(0, 1), (0, 2), (2, 3)], heap_table(6)),
{
    lemma_heap_entries();
    lemma_codes_of_word_8(heap_table(7));
    lemma_codes_of_word_8(heap_table(6));
    lemma_charts_agree_through([(0, 1), (0, 2), (2, 3)], heap_table(6), [(0, 1), (0, 2), (2, 3)], heap_table(7), 1, (1, 0, 4, 5, 2, 3, 7, 6));
}

proof fn lemma_chart_201()
    ensures
        chart_signature([(0, 1), (0, 2), (2, 3)], heap_table(9)) == chart_signature([(0, 1), (0, 2), (2, 3)], heap_table(8)),
{
    lemma_heap_entries();
    lemma_codes_of_word_8(heap_table(9));
    lemma_codes_of_word_8(heap_table(8));
    lemma_charts_agree_through([(0, 1), (0, 2), (2, 3)], heap_table(8), [(0, 1), (0, 2), (2, 3)], heap_table(9), 1, (1, 0, 4, 5, 2, 3, 7, 6));
}

proof fn lemma_chart_203()
    ensures
        chart_signature([(0, 1), (0, 2), (2, 3)], heap_table(11)) == chart_signature([(0, 1), (0, 2), (2, 3)], heap_table(10)),
{
    lemma_heap_entries();
    lemma_codes_of_word_8(heap_table(11));
    lemma_codes_of_word_8(heap_table(10));
    lemma_charts_agree_through([(0, 1), (0, 2), (2, 3)], heap_table(10), [(0, 1), (0, 2), (2, 3)], heap_table(11), 1, (1, 0, 4, 5, 2, 3, 7, 6));
}

proof fn lemma_chart_205()
    ensures
        chart_signature([(0, 1), (0, 2), (2, 3)], heap_table(13)) == chart_signature([(0, 1), (0, 2), (2, 3)], heap_table(12)),
{
    lemma_heap_entries();
    lemma_codes_of_word_8(heap_table(13));
    lemma_codes_of_word_8(heap_table(12));
    lemma_charts_agree_through([(0, 1), (0, 2), (2, 3)], heap_table(12), [(0, 1), (0, 2), (2, 3)], heap_table(13), 1, (1, 0, 4, 5, 2, 3, 7, 6));
}

proof fn lemma_chart_207()
    ensures
        chart_signature([(0, 1), (0, 2), (2, 3)], heap_table(15)) == chart_signature([(0, 1), (0, 2), (2, 3)], heap_table(14)),
{
    lemma_heap_entries();
    lemma_codes_of_word_8(heap_table(15));
    lemma_codes_of_word_8(heap_table(14));
    lemma_charts_agree_through([(0, 1), (0, 2), (2, 3)], heap_table(14), [(0, 1), (0, 2), (2, 3)], heap_table(15), 1, (1, 0, 4, 5, 2, 3, 7, 6));
}

proof fn lemma_chart_209()
    ensures
        chart_signature([(0, 1), (0, 2), (2, 3)], heap_table(17)) == chart_signature([(0, 1), (0, 2), (2, 3)], heap_table(16)),
{
    lemma_heap_entries();
    lemma_codes_of_word_8(heap_table(17));
    lemma_codes_of_word_8(heap_table(16));
    lemma_charts_agree_through([(0, 1), (0, 2), (2, 3)], heap_table(16), [(0, 1), (0, 2), (2, 3)], heap_table(17), 1, (1, 0, 4, 5, 2, 3, 7, 6));
}

proof fn lemma_chart_211()
    ensures
        chart_signature([(0, 1), (0, 2), (2, 3)], heap_table(19)) == chart_signature([(0, 1), (0, 2), (2, 3)], heap_table(18)),
{
    lemma_heap_entries();
    lemma_codes_of_word_8(heap_table(19));
    lemma_codes_of_word_8(heap_table(18));
    lemma_charts_agree_through([(0, 1), (0, 2), (2, 3)], heap_table(18), [(0, 1), (0, 2), (2, 3)], heap_table(19), 1, (1, 0, 4, 5, 2, 3, 7, 6));
}

proof fn lemma_chart_213()
    ensures
        chart_signature([(0, 1), (0, 2), (2, 3)], heap_table(21)) == chart_signature([(0, 1), (0, 2), (2, 3)], heap_table(20)),
{
    lemma_heap_entries();
    lemma_codes_of_word_8(heap_table(21));
    lemma_codes_of_word_8(heap_table(20));
    lemma_charts_agree_through([(0, 1), (0, 2), (2, 3)], heap_table(20), [(0, 1), (0, 2), (2, 3)], heap_table(21), 1, (1, 0, 4, 5, 2, 3, 7, 6));
}

proof fn lemma_chart_215()
    ensures
        chart_signature([(0, 1), (0, 2), (2, 3)], heap_table(23)) == chart_signature([(0, 1), (0, 2), (2, 3)], heap_table(22)),
{
    lemma_heap_entries();
    lemma_codes_of_word_8(heap_table(23));
    lemma_codes_of_word_8(heap_table(22));
    lemma_charts_agree_through([(0, 1), (0, 2), (2, 3)], heap_table(22), [(0, 1), (0, 2), (2, 3)], heap_table(23), 1, (1, 0, 4, 5, 2, 3, 7, 6));
}

/// Every chart of atlas word 8 shares its signature with the first chart
/// of a class below 102.
pub proof fn lemma_charts_of_word_8()
    ensures
        forall|t: int| 192 <= t < 216 ==> #[trigger] meets_class_below(t, 102),
{
    lemma_census_words();
    assert forall|t: int| 192 <= t < 216 implies #[trigger] meets_class_below(t, 102) by {
        if t == 192 { assert(atlas_signatures()[class_rep(84)] == atlas_signatures()[192]); }
        else if t == 193 { lemma_chart_193(); assert(atlas_signatures()[class_rep(84)] == atlas_signatures()[193]); }
        else if t == 194 { assert(atlas_signatures()[class_rep(85)] == atlas_signatures()[194]); }
        else if t == 195 { lemma_chart_195(); assert(atlas_signatures()[class_rep(85)] == atlas_signatures()[195]); }
        else if t == 196 { assert(atlas_signatures()[class_rep(86)] == atlas_signatures()[196]); }
        else if t == 197 { lemma_chart_197(); assert(atlas_signatures()[class_rep(86)] == atlas_signatures()[197]); }
        else if t == 198 { assert(atlas_signatures()[class_rep(87)] == atlas_signatures()[198]); }
        else if t == 199 { lemma_chart_199(); assert(atlas_signatures()[class_rep(87)] == atlas_signatures()[199]); }
        else if t == 200 { assert(atlas_signatures()[class_rep(88)] == atlas_signatures()[200]); }
        else if t == 201 { lemma_chart_201(); assert(atlas_signatures()[class_rep(88)] == atlas_signatures()[201]); }
        else if t == 202 { assert(atlas_signatures()[class_rep(89)] == atlas_signatures()[202]); }
        else if t == 203 { lemma_chart_203(); assert(atlas_signatures()[class_rep(89)] == atlas_signatures()[203]); }
        else if t == 204 { assert(atlas_signatures()[class_rep(90)] == atlas_signatures()[204]); }
        else if t == 205 { lemma_chart_205(); assert(atlas_signatures()[class_rep(90)] == atlas_signatures()[205]); }
        else if t == 206 { assert(atlas_signatures()[class_rep(91)] == atlas_signatures()[206]); }
        else if t == 207 { lemma_chart_207(); assert(atlas_signatures()[class_rep(91)] == atlas_signatures()[207]); }
        else if t == 208 { assert(atlas_signatures()[class_rep(92)] == atlas_signatures()[208]); }
        else if t == 209 { lemma_chart_209(); assert(atlas_signatures()[class_rep(92)] == atlas_signatures()[209]); }
        else if t == 210 { assert(atlas_signatures()[class_rep(93)] == atlas_signatures()[210]); }
        else if t == 211 { lemma_chart_211(); assert(atlas_signatures()[class_rep(93)] == atlas_signatures()[211]); }
        else if t == 212 { assert(atlas_signatures()[class_rep(94)] == atlas_signatures()[212]); }
        else if t == 213 { lemma_chart_213(); assert(atlas_signatures()[class_rep(94)] == atlas_signatures()[213]); }
        else if t == 214 { assert(atlas_signatures()[class_rep(95)] == atlas_signatures()[214]); }
        else { lemma_chart_215(); assert(atlas_signatures()[class_rep(95)] == atlas_signatures()[215]); }
    }
}

proof fn lemma_chart_216()
    ensures
        chart_signature([(0, 1), (0, 3), (1, 2)], heap_table(0)) == chart_signature([(0, 2), (0, 3), (1, 2)], heap_table(3)),
{
    lemma_heap_entries();
    lemma_codes_of_word_9(heap_table(0));
    lemma_codes_of_word_3(heap_table(3));
    lemma_charts_agree_through([(0, 2), (0, 3), (1, 2)], heap_table(3), [(0, 1), (0, 3), (1, 2)], heap_table(0), 4, (3, 5, 6, 0, 7, 1, 2, 4));
}

proof fn lemma_chart_217()
    ensures
        chart_signature([(0, 1), (0, 3), (1, 2)], heap_table(1)) == chart_signature([(0, 2), (0, 3), (1, 2)], heap_table(3)),
{
    lemma_heap_entries();
    lemma_codes_of_word_9(heap_table(1));
    lemma_codes_of_word_3(heap_table(3));
    lemma_charts_agree_through([(0, 2), (0, 3), (1, 2)], heap_table(3), [(0, 1), (0, 3), (1, 2)], heap_table(1), 5, (5, 3, 7, 1, 6, 0, 4, 2));
}

proof fn lemma_chart_218()
    ensures
        chart_signature([(0, 1), (0, 3), (1, 2)], heap_table(2)) == chart_signature([(0, 2), (0, 3), (1, 2)], heap_table(0)),
{
    lemma_heap_entries();
    lemma_codes_of_word_9(heap_table(2));
    lemma_codes_of_word_3(heap_table(0));
    lemma_charts_agree_through([(0, 2), (0, 3), (1, 2)], heap_table(0), [(0, 1), (0, 3), (1, 2)], heap_table(2), 5, (5, 3, 7, 1, 6, 0, 4, 2));
}

proof fn lemma_chart_219()
    ensures
        chart_signature([(0, 1), (0, 3), (1, 2)], heap_table(3)) == chart_signature([(0, 2), (0, 3), (1, 2)], heap_table(0)),
{
    lemma_heap_entries();
    lemma_codes_of_word_9(heap_table(3));
    lemma_codes_of_word_3(heap_table(0));
    lemma_charts_agree_through([(0, 2), (0, 3), (1, 2)], heap_table(0), [(0, 1), (0, 3), (1, 2)], heap_table(3), 4, (3, 5, 6, 0, 7, 1, 2, 4));
}

proof fn lemma_chart_220()
    ensures
        chart_signature([(0, 1), (0, 3), (1, 2)], heap_table(4)) == chart_signature([(0, 2), (0, 3), (1, 2)], heap_table(1)),
{
    lemma_heap_entries();
    lemma_codes_of_word_9(heap_table(4));
    lemma_codes_of_word_3(heap_table(1));
    lemma_charts_agree_through([(0, 2), (0, 3), (1, 2)], heap_table(1), [(0, 1), (0, 3), (1, 2)], heap_table(4), 4, (3, 5, 6, 0, 7, 1, 2, 4));
}

proof fn lemma_chart_221()
    ensures
        chart_signature([(0, 1), (0, 3), (1, 2)], heap_table(5)) == chart_signature([(0, 2), (0, 3), (1, 2)], heap_table(1)),
{
    lemma_heap_entries();
    lemma_codes_of_word_9(heap_table(5));
    lemma_codes_of_word_3(heap_table(1));
    lemma_charts_agree_through([(0, 2), (0, 3), (1, 2)], heap_table(1), [(0, 1), (0, 3), (1, 2)], heap_table(5), 5, (5, 3, 7, 1, 6, 0, 4, 2));
}

proof fn lemma_chart_222()
    ensures
        chart_signature([(0, 1), (0, 3), (1, 2)], heap_table(6)) == chart_signature([(0, 2), (0, 3), (1, 2)], heap_table(9)),
{
    lemma_heap_entries();
    lemma_codes_of_word_9(heap_table(6));
    lemma_codes_of_word_3(heap_table(9));
    lemma_charts_agree_through([(0, 2), (0, 3), (1, 2)], heap_table(9), [(0, 1), (0, 3), (1, 2)], heap_table(6), 4, (3, 5, 6, 0, 7, 1, 2, 4));
}

proof fn lemma_chart_223()
    ensures
        chart_signature([(0, 1), (0, 3), (1, 2)], heap_table(7)) == chart_signature([(0, 2), (0, 3), (1, 2)], heap_table(9)),
{
    lemma_heap_entries();
    lemma_codes_of_word_9(heap_table(7));
    lemma_codes_of_word_3(heap_table(9));
    lemma_charts_agree_through([(0, 2), (0, 3), (1, 2)], heap_table(9), [(0, 1), (0, 3), (1, 2)], heap_table(7), 5, (5, 3, 7, 1, 6, 0, 4, 2));
}

proof fn lemma_chart_224()
    ensures
        chart_signature([(0, 1), (0, 3), (1, 2)], heap_table(8)) == chart_signature([(0, 2), (0, 3), (1, 2)], heap_table(6)),
{
    lemma_heap_entries();
    lemma_codes_of_word_9(heap_table(8));
    lemma_codes_of_word_3(heap_table(6));
    lemma_charts_agree_through([(0, 2), (0, 3), (1, 2)], heap_table(6), [(0, 1), (0, 3), (1, 2)], heap_table(8), 5, (5, 3, 7, 1, 6, 0, 4, 2));
}

proof fn lemma_chart_225()
    ensures
        chart_signature([(0, 1), (0, 3), (1, 2)], heap_table(9)) == chart_signature([(0, 2), (0, 3), (1, 2)], heap_table(6)),
{
    lemma_heap_entries();
    lemma_codes_of_word_9(heap_table(9));
    lemma_codes_of_word_3(heap_table(6));
    lemma_charts_agree_through([(0, 2), (0, 3), (1, 2)], heap_table(6), [(0, 1), (0, 3), (1, 2)], heap_table(9), 4, (3, 5, 6, 0, 7, 1, 2, 4));
}

proof fn lemma_chart_226()
    ensures
        chart_signature([(0, 1), (0, 3), (1, 2)], heap_table(10)) == chart_signature([(0, 2), (0, 3), (1, 2)], heap_table(7)),
{
    lemma_heap_entries();
    lemma_codes_of_word_9(heap_table(10));
    lemma_codes_of_word_3(heap_table(7));
    lemma_charts_agree_through([(0, 2), (0, 3), (1, 2)], heap_table(7), [(0, 1), (0, 3), (1, 2)], heap_table(10), 4, (3, 5, 6, 0, 7, 1, 2, 4));
}

proof fn lemma_chart_227()
    ensures
        chart_signature([(0, 1), (0, 3), (1, 2)], heap_table(11)) == chart_signature([(0, 2), (0, 3), (1, 2)], heap_table(7)),
{
    lemma_heap_entries();
    lemma_codes_of_word_9(heap_table(11));
    lemma_codes_of_word_3(heap_table(7));
    lemma_charts_agree_through([(0, 2), (0, 3), (1, 2)], heap_table(7), [(0, 1), (0, 3), (1, 2)], heap_table(11), 5, (5, 3, 7, 1, 6, 0, 4, 2));
}

proof fn lemma_chart_228()
    ensures
        chart_signature([(0, 1), (0, 3), (1, 2)], heap_table(12)) == chart_signature([(0, 2), (0, 3), (1, 2)], heap_table(15)),
{
    lemma_heap_entries();
    lemma_codes_of_word_9(heap_table(12));
    lemma_codes_of_word_3(heap_table(15));
    lemma_charts_agree_through([(0, 2), (0, 3), (1, 2)], heap_table(15), [(0, 1), (0, 3), (1, 2)], heap_table(12), 4, (3, 5, 6, 0, 7, 1, 2, 4));
}

proof fn lemma_chart_229()
    ensures
        chart_signature([(0, 1), (0, 3), (1, 2)], heap_table(13)) == chart_signature([(0, 2), (0, 3), (1, 2)], heap_table(15)),
{
    lemma_heap_entries();
    lemma_codes_of_word_9(heap_table(13));
    lemma_codes_of_word_3(heap_table(15));
    lemma_charts_agree_through([(0, 2), (0, 3), (1, 2)], heap_table(15), [(0, 1), (0, 3), (1, 2)], heap_table(13), 5, (5, 3, 7, 1, 6, 0, 4, 2));
}

proof fn lemma_chart_230()
    ensures
        chart_signature([(0, 1), (0, 3), (1, 2)], heap_table(14)) == chart_signature([(0, 2), (0, 3), (1, 2)], heap_table(12)),
{
    lemma_heap_entries();
    lemma_codes_of_word_9(heap_table(14));
    lemma_codes_of_word_3(heap_table(12));
    lemma_charts_agree_through([(0, 2), (0, 3), (1, 2)], heap_table(12), [(0, 1), (0, 3), (1, 2)], heap_table(14), 5, (5, 3, 7, 1, 6, 0, 4, 2));
}

proof fn lemma_chart_231()
    ensures
        chart_signature([(0, 1), (0, 3), (1, 2)], heap_table(15)) == chart_signature([(0, 2), (0, 3), (1, 2)], heap_table(12)),
{
    lemma_heap_entries();
    lemma_codes_of_word_9(heap_table(15));
    lemma_codes_of_word_3(heap_table(12));
    lemma_charts_agree_through([(0, 2), (0, 3), (1, 2)], heap_table(12), [(0, 1), (0, 3), (1, 2)], heap_table(15), 4, (3, 5, 6, 0, 7, 1, 2, 4));
}

proof fn lemma_chart_232()
    ensures
        chart_signature([(0, 1), (0, 3), (1, 2)], heap_table(16)) == chart_signature([(0, 2), (0, 3), (1, 2)], heap_table(13)),
{
    lemma_heap_entries();
    lemma_codes_of_word_9(heap_table(16));
    lemma_codes_of_word_3(heap_table(13));
    lemma_charts_agree_through([(0, 2), (0, 3), (1, 2)], heap_table(13), [(0, 1), (0, 3), (1, 2)], heap_table(16), 4, (3, 5, 6, 0, 7, 1, 2, 4));
}

proof fn lemma_chart_233()
    ensures
        chart_signature([(0, 1), (0, 3), (1, 2)], heap_table(17)) == chart_signature([(0, 2), (0, 3), (1, 2)], heap_table(13)),
{
    lemma_heap_entries();
    lemma_codes_of_word_9(heap_table(17));
    lemma_codes_of_word_3(heap_table(13));
    lemma_charts_agree_through([(0, 2), (0, 3), (1, 2)], heap_table(13), [(0, 1), (0, 3), (1, 2)], heap_table(17), 5, (5, 3, 7, 1, 6, 0, 4, 2));
}

proof fn lemma_chart_234()
    ensures
        chart_signature([(0, 1), (0, 3), (1, 2)], heap_table(18)) == chart_signature([(0, 2), (0, 3), (1, 2)], heap_table(21)),
{
    lemma_heap_entries();
    lemma_codes_of_word_9(heap_table(18));
    lemma_codes_of_word_3(heap_table(21));
    lemma_charts_agree_through([(0, 2), (0, 3), (1, 2)], heap_table(21), [(0, 1), (0, 3), (1, 2)], heap_table(18), 4, (3, 5, 6, 0, 7, 1, 2, 4));
}

proof fn lemma_chart_235()
    ensures
        chart_signature([(0, 1), (0, 3), (1, 2)], heap_table(19)) == chart_signature([(0, 2), (0, 3), (1, 2)], heap_table(21)),
{
    lemma_heap_entries();
    lemma_codes_of_word_9(heap_table(19));
    lemma_codes_of_word_3(heap_table(21));
    lemma_charts_agree_through([(0, 2), (0, 3), (1, 2)], heap_table(21), [(0, 1), (0, 3), (1, 2)], heap_table(19), 5, (5, 3, 7, 1, 6, 0, 4, 2));
}

proof fn lemma_chart_236()
    ensures
        chart_signature([(0, 1), (0, 3), (1, 2)], heap_table(20)) == chart_signature([(0, 2), (0, 3), (1, 2)], heap_table(18)),
{
    lemma_heap_entries();
    lemma_codes_of_word_9(heap_table(20));
    lemma_codes_of_word_3(heap_table(18));
    lemma_charts_agree_through([(0, 2), (0, 3), (1, 2)], heap_table(18), [(0, 1), (0, 3), (1, 2)], heap_table(20), 5, (5, 3, 7, 1, 6, 0, 4, 2));
}

proof fn lemma_chart_237()
    ensures
        chart_signature([(0, 1), (0, 3), (1, 2)], heap_table(21)) == chart_signature([(0, 2), (0, 3), (1, 2)], heap_table(18)),
{
    lemma_heap_entries();
    lemma_codes_of_word_9(heap_table(21));
    lemma_codes_of_word_3(heap_table(18));
    lemma_charts_agree_through([(0, 2), (0, 3), (1, 2)], heap_table(18), [(0, 1), (0, 3), (1, 2)], heap_table(21), 4, (3, 5, 6, 0, 7, 1, 2, 4));
}

proof fn lemma_chart_238()
    ensures
        chart_signature([(0, 1), (0, 3), (1, 2)], heap_table(22)) == chart_signature([(0, 2), (0, 3), (1, 2)], heap_table(19)),
{
    lemma_heap_entries();
    lemma_codes_of_word_9(heap_table(22));
    lemma_codes_of_word_3(heap_table(19));
    lemma_charts_agree_through([(0, 2), (0, 3), (1, 2)], heap_table(19), [(0, 1), (0, 3), (1, 2)], heap_table(22), 4, (3, 5, 6, 0, 7, 1, 2, 4));
}

proof fn lemma_chart_239()
    ensures
        chart_signature([(0, 1), (0, 3), (1, 2)], heap_table(23)) == chart_signature([(0, 2), (0, 3), (1, 2)], heap_table(19)),
{
    lemma_heap_entries();
    lemma_codes_of_word_9(heap_table(23));
    lemma_codes_of_word_3(heap_table(19));
    lemma_charts_agree_through([(0, 2), (0, 3), (1, 2)], heap_table(19), [(0, 1), (0, 3), (1, 2)], heap_table(23), 5, (5, 3, 7, 1, 6, 0, 4, 2));
}

/// Every chart of atlas word 9 shares its signature with the first chart
/// of a class below 102.
pub proof fn lemma_charts_of_word_9()
    ensures
        forall|t: int| 216 <= t < 240 ==> #[trigger] meets_class_below(t, 102),
{
    lemma_census_words();
    assert forall|t: int| 216 <= t < 240 implies #[trigger] meets_class_below(t, 102) by {
        if t == 216 { lemma_chart_216(); assert(atlas_signatures()[class_rep(38)] == atlas_signatures()[216]); }
        else if t == 217 { lemma_chart_217(); assert(atlas_signatures()[class_rep(38)] == atlas_signatures()[217]); }
        else if t == 218 { lemma_chart_218(); assert(atlas_signatures()[class_rep(36)] == atlas_signatures()[218]); }
        else if t == 219 { lemma_chart_219(); assert(atlas_signatures()[class_rep(36)] == atlas_signatures()[219]); }
        else if t == 220 { lemma_chart_220(); assert(atlas_signatures()[class_rep(37)] == atlas_signatures()[220]); }
        else if t == 221 { lemma_chart_221(); assert(atlas_signatures()[class_rep(37)] == atlas_signatures()[221]); }
        else if t == 222 { lemma_chart_222(); assert(atlas_signatures()[class_rep(41)] == atlas_signatures()[222]); }
        else if t == 223 { lemma_chart_223(); assert(atlas_signatures()[class_rep(41)] == atlas_signatures()[223]); }
        else if t == 224 { lemma_chart_224(); assert(atlas_signatures()[class_rep(39)] == atlas_signatures()[224]); }
        else if t == 225 { lemma_chart_225(); assert(atlas_signatures()[class_rep(39)] == atlas_signatures()[225]); }
        else if t == 226 { lemma_chart_226(); assert(atlas_signatures()[class_rep(40)] == atlas_signatures()[226]); }
        else if t == 227 { lemma_chart_227(); assert(atlas_signatures()[class_rep(40)] == atlas_signatures()[227]); }
        else if t == 228 { lemma_chart_228(); assert(atlas_signatures()[class_rep(44)] == atlas_signatures()[228]); }
        else if t == 229 { lemma_chart_229(); assert(atlas_signatures()[class_rep(44)] == atlas_signatures()[229]); }
        else if t == 230 { lemma_chart_230(); assert(atlas_signatures()[class_rep(42)] == atlas_signatures()[230]); }
        else if t == 231 { lemma_chart_231(); assert(atlas_signatures()[class_rep(42)] == atlas_signatures()[231]); }
        else if t == 232 { lemma_chart_232(); assert(atlas_signatures()[class_rep(43)] == atlas_signatures()[232]); }
        else if t == 233 { lemma_chart_233(); assert(atlas_signatures()[class_rep(43)] == atlas_signatures()[233]); }
        else if t == 234 { lemma_chart_234(); assert(atlas_signatures()[class_rep(47)] == atlas_signatures()[234]); }
        else if t == 235 { lemma_chart_235(); assert(atlas_signatures()[class_rep(47)] == atlas_signatures()[235]); }
        else if t == 236 { lemma_chart_236(); assert(atlas_signatures()[class_rep(45)] == atlas_signatures()[236]); }
        else if t == 237 { lemma_chart_237(); assert(atlas_signatures()[class_rep(45)] == atlas_signatures()[237]); }
        else if t == 238 { lemma_chart_238(); assert(atlas_signatures()[class_rep(46)] == atlas_signatures()[238]); }
        else { lemma_chart_239(); assert(atlas_signatures()[class_rep(46)] == atlas_signatures()[239]); }
    }
}

proof fn lemma_chart_240()
    ensures
        chart_signature([(0, 1), (0, 3), (2, 3)], heap_table(0)) == chart_signature([(0, 1), (0, 2), (2, 3)], heap_table(22)),
{
    lemma_heap_entries();
    lemma_codes_of_word_10(heap_table(0));
    lemma_codes_of_word_8(heap_table(22));
    lemma_charts_agree_through([(0, 1), (0, 2), (2, 3)], heap_table(22), [(0, 1), (0, 3), (2, 3)], heap_table(0), 4, (3, 5, 6, 0, 7, 1, 2, 4));
}

proof fn lemma_chart_241()
    ensures
        chart_signature([(0, 1), (0, 3), (2, 3)], heap_table(1)) == chart_signature([(0, 1), (0, 2), (2, 3)], heap_table(22)),
{
    lemma_heap_entries();
    lemma_codes_of_word_10(heap_table(1));
    lemma_codes_of_word_8(heap_table(22));
    lemma_charts_agree_through([(0, 1), (0, 2), (2, 3)], heap_table(22), [(0, 1), (0, 3), (2, 3)], heap_table(1), 5, (5, 3, 7, 1, 6, 0, 4, 2));
}

proof fn lemma_chart_242()
    ensures
        chart_signature([(0, 1), (0, 3), (2, 3)], heap_table(2)) == chart_signature([(0, 1), (0, 2), (2, 3)], heap_table(16)),
{
    lemma_heap_entries();
    lemma_codes_of_word_10(heap_table(2));
    lemma_codes_of_word_8(heap_table(16));
    lemma_charts_agree_through([(0, 1), (0, 2), (2, 3)], heap_table(16), [(0, 1), (0, 3), (2, 3)], heap_table(2), 5, (5, 3, 7, 1, 6, 0, 4, 2));
}

proof fn lemma_chart_243()
    ensures
        chart_signature([(0, 1), (0, 3), (2, 3)], heap_table(3)) == chart_signature([(0, 1), (0, 2), (2, 3)], heap_table(16)),
{
    lemma_heap_entries();
    lemma_codes_of_word_10(heap_table(3));
    lemma_codes_of_word_8(heap_table(16));
    lemma_charts_agree_through([(0, 1), (0, 2), (2, 3)], heap_table(16), [(0, 1), (0, 3), (2, 3)], heap_table(3), 4, (3, 5, 6, 0, 7, 1, 2, 4));
}

proof fn lemma_chart_244()
    ensures
        chart_signature([(0, 1), (0, 3), (2, 3)], heap_table(4)) == chart_signature([(0, 1), (0, 2), (2, 3)], heap_table(10)),
{
    lemma_heap_entries();
    lemma_codes_of_word_10(heap_table(4));
    lemma_codes_of_word_8(heap_table(10));
    lemma_charts_agree_through([(0, 1), (0, 2), (2, 3)], heap_table(10), [(0, 1), (0, 3), (2, 3)], heap_table(4), 4, (3, 5, 6, 0, 7, 1, 2, 4));
}

proof fn lemma_chart_245()
    ensures
        chart_signature([(0, 1), (0, 3), (2, 3)], heap_table(5)) == chart_signature([(0, 1), (0, 2), (2, 3)], heap_table(10)),
{
    lemma_heap_entries();
    lemma_codes_of_word_10(heap_table(5));
    lemma_codes_of_word_8(heap_table(10));
    lemma_charts_agree_through([(0, 1), (0, 2), (2, 3)], heap_table(10), [(0, 1), (0, 3), (2, 3)], heap_table(5), 5, (5, 3, 7, 1, 6, 0, 4, 2));
}

proof fn lemma_chart_246()
    ensures
        chart_signature([(0, 1), (0, 3), (2, 3)], heap_table(6)) == chart_signature([(0, 1), (0, 2), (2, 3)], heap_table(20)),
{
    lemma_heap_entries();
    lemma_codes_of_word_10(heap_table(6));
    lemma_codes_of_word_8(heap_table(20));
    lemma_charts_agree_through([(0, 1), (0, 2), (2, 3)], heap_table(20), [(0, 1), (0, 3), (2, 3)], heap_table(6), 5, (5, 3, 7, 1, 6, 0, 4, 2));
}

proof fn lemma_chart_247()
    ensures
        chart_signature([(0, 1), (0, 3), (2, 3)], heap_table(7)) == chart_signature([(0, 1), (0, 2), (2, 3)], heap_table(20)),
{
    lemma_heap_entries();
    lemma_codes_of_word_10(heap_table(7));
    lemma_codes_of_word_8(heap_table(20));
    lemma_charts_agree_through([(0, 1), (0, 2), (2, 3)], heap_table(20), [(0, 1), (0, 3), (2, 3)], heap_table(7), 4, (3, 5, 6, 0, 7, 1, 2, 4));
}

proof fn lemma_chart_248()
    ensures
        chart_signature([(0, 1), (0, 3), (2, 3)], heap_table(8)) == chart_signature([(0, 1), (0, 2), (2, 3)], heap_table(14)),
{
    lemma_heap_entries();
    lemma_codes_of_word_10(heap_table(8));
    lemma_codes_of_word_8(heap_table(14));
    lemma_charts_agree_through([(0, 1), (0, 2), (2, 3)], heap_table(14), [(0, 1), (0, 3), (2, 3)], heap_table(8), 4, (3, 5, 6, 0, 7, 1, 2, 4));
}

proof fn lemma_chart_249()
    ensures
        chart_signature([(0, 1), (0, 3), (2, 3)], heap_table(9)) == chart_signature([(0, 1), (0, 2), (2, 3)], heap_table(14)),
{
    lemma_heap_entries();
    lemma_codes_of_word_10(heap_table(9));
    lemma_codes_of_word_8(heap_table(14));
    lemma_charts_agree_through([(0, 1), (0, 2), (2, 3)], heap_table(14), [(0, 1), (0, 3), (2, 3)], heap_table(9), 5, (5, 3, 7, 1, 6, 0, 4, 2));
}

proof fn lemma_chart_250()
    ensures
        chart_signature([(0, 1), (0, 3), (2, 3)], heap_table(10)) == chart_signature([(0, 1), (0, 2), (2, 3)], heap_table(4)),
{
    lemma_heap_entries();
    lemma_codes_of_word_10(heap_table(10));
    lemma_codes_of_word_8(heap_table(4));
    lemma_charts_agree_through([(0, 1), (0, 2), (2, 3)], heap_table(4), [(0, 1), (0, 3), (2, 3)], heap_table(10), 4, (3, 5, 6, 0, 7, 1, 2, 4));
}

proof fn lemma_chart_251()
    ensures
        chart_signature([(0, 1), (0, 3), (2, 3)], heap_table(11)) == chart_signature([(0, 1), (0, 2), (2, 3)], heap_table(4)),
{
    lemma_heap_entries();
    lemma_codes_of_word_10(heap_table(11));
    lemma_codes_of_word_8(heap_table(4));
    lemma_charts_agree_through([(0, 1), (0, 2), (2, 3)], heap_table(4), [(0, 1), (0, 3), (2, 3)], heap_table(11), 5, (5, 3, 7, 1, 6, 0, 4, 2));
}

proof fn lemma_chart_252()
    ensures
        chart_signature([(0, 1), (0, 3), (2, 3)], heap_table(12)) == chart_signature([(0, 1), (0, 2), (2, 3)], heap_table(18)),
{
    lemma_heap_entries();
    lemma_codes_of_word_10(heap_table(12));
    lemma_codes_of_word_8(heap_table(18));
    lemma_charts_agree_through([(0, 1), (0, 2), (2, 3)], heap_table(18), [(0, 1), (0, 3), (2, 3)], heap_table(12), 4, (3, 5, 6, 0, 7, 1, 2, 4));
}

proof fn lemma_chart_253()
    ensures
        chart_signature([(0, 1), (0, 3), (2, 3)], heap_table(13)) == chart_signature([(0, 1), (0, 2), (2, 3)], heap_table(18)),
{
    lemma_heap_entries();
    lemma_codes_of_word_10(heap_table(13));
    lemma_codes_of_word_8(heap_table(18));
    lemma_charts_agree_through([(0, 1), (0, 2), (2, 3)], heap_table(18), [(0, 1), (0, 3), (2, 3)], heap_table(13), 5, (5, 3, 7, 1, 6, 0, 4, 2));
}

proof fn lemma_chart_254()
    ensures
        chart_signature([(0, 1), (0, 3), (2, 3)], heap_table(14)) == chart_signature([(0, 1), (0, 2), (2, 3)], heap_table(8)),
{
    lemma_heap_entries();
    lemma_codes_of_word_10(heap_table(14));
    lemma_codes_of_word_8(heap_table(8));
    lemma_charts_agree_through([(0, 1), (0, 2), (2, 3)], heap_table(8), [(0, 1), (0, 3), (2, 3)], heap_table(14), 4, (3, 5, 6, 0, 7, 1, 2, 4));
}

proof fn lemma_chart_255()
    ensures
        chart_signature([(0, 1), (0, 3), (2, 3)], heap_table(15)) == chart_signature([(0, 1), (0, 2), (2, 3)], heap_table(8)),
{
    lemma_heap_entries();
    lemma_codes_of_word_10(heap_table(15));
    lemma_codes_of_word_8(heap_table(8));
    lemma_charts_agree_through([(0, 1), (0, 2), (2, 3)], heap_table(8), [(0, 1), (0, 3), (2, 3)], heap_table(15), 5, (5, 3, 7, 1, 6, 0, 4, 2));
}

proof fn lemma_chart_256()
    ensures
        chart_signature([(0, 1), (0, 3), (2, 3)], heap_table(16)) == chart_signature([(0, 1), (0, 2), (2, 3)], heap_table(2)),
{
    lemma_heap_entries();
    lemma_codes_of_word_10(heap_table(16));
    lemma_codes_of_word_8(heap_table(2));
    lemma_charts_agree_through([(0, 1), (0, 2), (2, 3)], heap_table(2), [(0, 1), (0, 3), (2, 3)], heap_table(16), 5, (5, 3, 7, 1, 6, 0, 4, 2));
}

proof fn lemma_chart_257()
    ensures
        chart_signature([(0, 1), (0, 3), (2, 3)], heap_table(17)) == chart_signature([(0, 1), (0, 2), (2, 3)], heap_table(2)),
{
    lemma_heap_entries();
    lemma_codes_of_word_10(heap_table(17));
    lemma_codes_of_word_8(heap_table(2));
    lemma_charts_agree_through([(0, 1), (0, 2), (2, 3)], heap_table(2), [(0, 1), (0, 3), (2, 3)], heap_table(17), 4, (3, 5, 6, 0, 7, 1, 2, 4));
}

proof fn lemma_chart_258()
    ensures
        chart_signature([(0, 1), (0, 3), (2, 3)], heap_table(18)) == chart_signature([(0, 1), (0, 2), (2, 3)], heap_table(12)),
{
    lemma_heap_entries();
    lemma_codes_of_word_10(heap_table(18));
    lemma_codes_of_word_8(heap_table(12));
    lemma_charts_agree_through([(0, 1), (0, 2), (2, 3)], heap_table(12), [(0, 1), (0, 3), (2, 3)], heap_table(18), 4, (3, 5, 6, 0, 7, 1, 2, 4));
}

proof fn lemma_chart_259()
    ensures
        chart_signature([(0, 1), (0, 3), (2, 3)], heap_table(19)) == chart_signature([(0, 1), (0, 2), (2, 3)], heap_table(12)),
{
    lemma_heap_entries();
    lemma_codes_of_word_10(heap_table(19));
    lemma_codes_of_word_8(heap_table(12));
    lemma_charts_agree_through([(0, 1), (0, 2), (2, 3)], heap_table(12), [(0, 1), (0, 3), (2, 3)], heap_table(19), 5, (5, 3, 7, 1, 6, 0, 4, 2));
}

proof fn lemma_chart_260()
    ensures
        chart_signature([(0, 1), (0, 3), (2, 3)], heap_table(20)) == chart_signature([(0, 1), (0, 2), (2, 3)], heap_table(6)),
{
    lemma_heap_entries();
    lemma_codes_of_word_10(heap_table(20));
    lemma_codes_of_word_8(heap_table(6));
    lemma_charts_agree_through([(0, 1), (0, 2), (2, 3)], heap_table(6), [(0, 1), (0, 3), (2, 3)], heap_table(20), 5, (5, 3, 7, 1, 6, 0, 4, 2));
}

proof fn lemma_chart_261()
    ensures
        chart_signature([(0, 1), (0, 3), (2, 3)], heap_table(21)) == chart_signature([(0, 1), (0, 2), (2, 3)], heap_table(6)),
{
    lemma_heap_entries();
    lemma_codes_of_word_10(heap_table(21));
    lemma_codes_of_word_8(heap_table(6));
    lemma_charts_agree_through([(0, 1), (0, 2), (2, 3)], heap_table(6), [(0, 1), (0, 3), (2, 3)], heap_table(21), 4, (3, 5, 6, 0, 7, 1, 2, 4));
}

proof fn lemma_chart_262()
    ensures
        chart_signature([(0, 1), (0, 3), (2, 3)], heap_table(22)) == chart_signature([(0, 1), (0, 2), (2, 3)], heap_table(0)),
{
    lemma_heap_entries();
    lemma_codes_of_word_10(heap_table(22));
    lemma_codes_of_word_8(heap_table(0));
    lemma_charts_agree_through([(0, 1), (0, 2), (2, 3)], heap_table(0), [(0, 1), (0, 3), (2, 3)], heap_table(22), 4, (3, 5, 6, 0, 7, 1, 2, 4));
}

proof fn lemma_chart_263()
    ensures
        chart_signature([(0, 1), (0, 3), (2, 3)], heap_table(23)) == chart_signature([(0, 1), (0, 2), (2, 3)], heap_table(0)),
{
    lemma_heap_entries();
    lemma_codes_of_word_10(heap_table(23));
    lemma_codes_of_word_8(heap_table(0));
    lemma_charts_agree_through([(0, 1), (0, 2), (2, 3)], heap_table(0), [(0, 1), (0, 3), (2, 3)], heap_table(23), 5, (5, 3, 7, 1, 6, 0, 4, 2));
}

/// Every chart of atlas word 10 shares its signature with the first chart
/// of a class below 102.
pub proof fn lemma_charts_of_word_10()
    ensures
        forall|t: int| 240 <= t < 264 ==> #[trigger] meets_class_below(t, 102),
{
    lemma_census_words();
    assert forall|t: int| 240 <= t < 264 implies #[trigger] meets_class_below(t, 102) by {
        if t == 240 { lemma_chart_240(); assert(atlas_signatures()[class_rep(95)] == atlas_signatures()[240]); }
        else if t == 241 { lemma_chart_241(); assert(atlas_signatures()[class_rep(95)] == atlas_signatures()[241]); }
        else if t == 242 { lemma_chart_242(); assert(atlas_signatures()[class_rep(92)] == atlas_signatures()[242]); }
        else if t == 243 { lemma_chart_243(); assert(atlas_signatures()[class_rep(92)] == atlas_signatures()[243]); }
        else if t == 244 { lemma_chart_244(); assert(atlas_signatures()[class_rep(89)] == atlas_signatures()[244]); }
        else if t == 245 { lemma_chart_245(); assert(atlas_signatures()[class_rep(89)] == atlas_signatures()[245]); }
        else if t == 246 { lemma_chart_246(); assert(atlas_signatures()[class_rep(94)] == atlas_signatures()[246]); }
        else if t == 247 { lemma_chart_247(); assert(atlas_signatures()[class_rep(94)] == atlas_signatures()[247]); }
        else if t == 248 { lemma_chart_248(); assert(atlas_signatures()[class_rep(91)] == atlas_signatures()[248]); }
        else if t == 249 { lemma_chart_249(); assert(atlas_signatures()[class_rep(91)] == atlas_signatures()[249]); }
        else if t == 250 { lemma_chart_250(); assert(atlas_signatures()[class_rep(86)] == atlas_signatures()[250]); }
        else if t == 251 { lemma_chart_251(); assert(atlas_signatures()[class_rep(86)] == atlas_signatures()[251]); }
        else if t == 252 { lemma_chart_252(); assert(atlas_signatures()[class_rep(93)] == atlas_signatures()[252]); }
        else if t == 253 { lemma_chart_253(); assert(atlas_signatures()[class_rep(93)] == atlas_signatures()[253]); }
        else if t == 254 { lemma_chart_254(); assert(atlas_signatures()[class_rep(88)] == atlas_signatures()[254]); }
        else if t == 255 { lemma_chart_255(); assert(atlas_signatures()[class_rep(88)] == atlas_signatures()[255]); }
        else if t == 256 { lemma_chart_256(); assert(atlas_signatures()[class_rep(85)] == atlas_signatures()[256]); }
        else if t == 257 { lemma_chart_257(); assert(atlas_signatures()[class_rep(85)] == atlas_signatures()[257]); }
        else if t == 258 { lemma_chart_258(); assert(atlas_signatures()[class_rep(90)] == atlas_signatures()[258]); }
        else if t == 259 { lemma_chart_259(); assert(atlas_signatures()[class_rep(90)] == atlas_signatures()[259]); }
        else if t == 260 { lemma_chart_260(); assert(atlas_signatures()[class_rep(87)] == atlas_signatures()[260]); }
        else if t == 261 { lemma_chart_261(); assert(atlas_signatures()[class_rep(87)] == atlas_signatures()[261]); }
        else if t == 262 { lemma_chart_262(); assert(atlas_signatures()[class_rep(84)] == atlas_signatures()[262]); }
        else { lemma_chart_263(); assert(atlas_signatures()[class_rep(84)] == atlas_signatures()[263]); }
    }
}

proof fn lemma_chart_264()
    ensures
        chart_signature([(0, 1), (1, 3), (2, 3)], heap_table(0)) == chart_signature([(0, 1), (1, 2), (2, 3)], heap_table(22)),
{
    lemma_heap_entries();
    lemma_codes_of_word_11(heap_table(0));
    lemma_codes_of_word_0(heap_table(22));
    lemma_charts_agree_through([(0, 1), (1, 2), (2, 3)], heap_table(22), [(0, 1), (1, 3), (2, 3)], heap_table(0), 4, (3, 5, 6, 0, 7, 1, 2, 4));
}

proof fn lemma_chart_265()
    ensures
        chart_signature([(0, 1), (1, 3), (2, 3)], heap_table(1)) == chart_signature([(0, 1), (1, 2), (2, 3)], heap_table(22)),
{
    lemma_heap_entries();
    lemma_codes_of_word_11(heap_table(1));
    lemma_codes_of_word_0(heap_table(22));
    lemma_charts_agree_through([(0, 1), (1, 2), (2, 3)], heap_table(22), [(0, 1), (1, 3), (2, 3)], heap_table(1), 5, (5, 3, 7, 1, 6, 0, 4, 2));
}

proof fn lemma_chart_266()
    ensures
        chart_signature([(0, 1), (1, 3), (2, 3)], heap_table(2)) == chart_signature([(0, 1), (1, 2), (2, 3)], heap_table(16)),
{
    lemma_heap_entries();
    lemma_codes_of_word_11(heap_table(2));
    lemma_codes_of_word_0(heap_table(16));
    lemma_charts_agree_through([(0, 1), (1, 2), (2, 3)], heap_table(16), [(0, 1), (1, 3), (2, 3)], heap_table(2), 5, (5, 3, 7, 1, 6, 0, 4, 2));
}

proof fn lemma_chart_267()
    ensures
        chart_signature([(0, 1), (1, 3), (2, 3)], heap_table(3)) == chart_signature([(0, 1), (1, 2), (2, 3)], heap_table(16)),
{
    lemma_heap_entries();
    lemma_codes_of_word_11(heap_table(3));
    lemma_codes_of_word_0(heap_table(16));
    lemma_charts_agree_through([(0, 1), (1, 2), (2, 3)], heap_table(16), [(0, 1), (1, 3), (2, 3)], heap_table(3), 4, (3, 5, 6, 0, 7, 1, 2, 4));
}

proof fn lemma_chart_268()
    ensures
        chart_signature([(0, 1), (1, 3), (2, 3)], heap_table(4)) == chart_signature([(0, 1), (1, 2), (2, 3)], heap_table(10)),
{
    lemma_heap_entries();
    lemma_codes_of_word_11(heap_table(4));
    lemma_codes_of_word_0(heap_table(10));
    lemma_charts_agree_through([(0, 1), (1, 2), (2, 3)], heap_table(10), [(0, 1), (1, 3), (2, 3)], heap_table(4), 4, (3, 5, 6, 0, 7, 1, 2, 4));
}

proof fn lemma_chart_269()
    ensures
        chart_signature([(0, 1), (1, 3), (2, 3)], heap_table(5)) == chart_signature([(0, 1), (1, 2), (2, 3)], heap_table(10)),
{
    lemma_heap_entries();
    lemma_codes_of_word_11(heap_table(5));
    lemma_codes_of_word_0(heap_table(10));
    lemma_charts_agree_through([(0, 1), (1, 2), (2, 3)], heap_table(10), [(0, 1), (1, 3), (2, 3)], heap_table(5), 5, (5, 3, 7, 1, 6, 0, 4, 2));
}

proof fn lemma_chart_270()
    ensures
        chart_signature([(0, 1), (1, 3), (2, 3)], heap_table(6)) == chart_signature([(0, 1), (1, 2), (2, 3)], heap_table(20)),
{
    lemma_heap_entries();
    lemma_codes_of_word_11(heap_table(6));
    lemma_codes_of_word_0(heap_table(20));
    lemma_charts_agree_through([(0, 1), (1, 2), (2, 3)], heap_table(20), [(0, 1), (1, 3), (2, 3)], heap_table(6), 5, (5, 3, 7, 1, 6, 0, 4, 2));
}

proof fn lemma_chart_271()
    ensures
        chart_signature([(0, 1), (1, 3), (2, 3)], heap_table(7)) == chart_signature([(0, 1), (1, 2), (2, 3)], heap_table(20)),
{
    lemma_heap_entries();
    lemma_codes_of_word_11(heap_table(7));
    lemma_codes_of_word_0(heap_table(20));
    lemma_charts_agree_through([(0, 1), (1, 2), (2, 3)], heap_table(20), [(0, 1), (1, 3), (2, 3)], heap_table(7), 4, (3, 5, 6, 0, 7, 1, 2, 4));
}

proof fn lemma_chart_272()
    ensures
        chart_signature([(0, 1), (1, 3), (2, 3)], heap_table(8)) == chart_signature([(0, 1), (1, 2), (2, 3)], heap_table(14)),
{
    lemma_heap_entries();
    lemma_codes_of_word_11(heap_table(8));
    lemma_codes_of_word_0(heap_table(14));
    lemma_charts_agree_through([(0, 1), (1, 2), (2, 3)], heap_table(14), [(0, 1), (1, 3), (2, 3)], heap_table(8), 4, (3, 5, 6, 0, 7, 1, 2, 4));
}

proof fn lemma_chart_273()
    ensures
        chart_signature([(0, 1), (1, 3), (2, 3)], heap_table(9)) == chart_signature([(0, 1), (1, 2), (2, 3)], heap_table(14)),
{
    lemma_heap_entries();
    lemma_codes_of_word_11(heap_table(9));
    lemma_codes_of_word_0(heap_table(14));
    lemma_charts_agree_through([(0, 1), (1, 2), (2, 3)], heap_table(14), [(0, 1), (1, 3), (2, 3)], heap_table(9), 5, (5, 3, 7, 1, 6, 0, 4, 2));
}

proof fn lemma_chart_274()
    ensures
        chart_signature([(0, 1), (1, 3), (2, 3)], heap_table(10)) == chart_signature([(0, 1), (1, 2), (2, 3)], heap_table(4)),
{
    lemma_heap_entries();
    lemma_codes_of_word_11(heap_table(10));
    lemma_codes_of_word_0(heap_table(4));
    lemma_charts_agree_through([(0, 1), (1, 2), (2, 3)], heap_table(4), [(0, 1), (1, 3), (2, 3)], heap_table(10), 4, (3, 5, 6, 0, 7, 1, 2, 4));
}

proof fn lemma_chart_275()
    ensures
        chart_signature([(0, 1), (1, 3), (2, 3)], heap_table(11)) == chart_signature([(0, 1), (1, 2), (2, 3)], heap_table(4)),
{
    lemma_heap_entries();
    lemma_codes_of_word_11(heap_table(11));
    lemma_codes_of_word_0(heap_table(4));
    lemma_charts_agree_through([(0, 1), (1, 2), (2, 3)], heap_table(4), [(0, 1), (1, 3), (2, 3)], heap_table(11), 5, (5, 3, 7, 1, 6, 0, 4, 2));
}

proof fn lemma_chart_276()
    ensures
        chart_signature([(0, 1), (1, 3), (2, 3)], heap_table(12)) == chart_signature([(0, 1), (1, 2), (2, 3)], heap_table(18)),
{
    lemma_heap_entries();
    lemma_codes_of_word_11(heap_table(12));
    lemma_codes_of_word_0(heap_table(18));
    lemma_charts_agree_through([(0, 1), (1, 2), (2, 3)], heap_table(18), [(0, 1), (1, 3), (2, 3)], heap_table(12), 4, (3, 5, 6, 0, 7, 1, 2, 4));
}

proof fn lemma_chart_277()
    ensures
        chart_signature([(0, 1), (1, 3), (2, 3)], heap_table(13)) == chart_signature([(0, 1), (1, 2), (2, 3)], heap_table(18)),
{
    lemma_heap_entries();
    lemma_codes_of_word_11(heap_table(13));
    lemma_codes_of_word_0(heap_table(18));
    lemma_charts_agree_through([(0, 1), (1, 2), (2, 3)], heap_table(18), [(0, 1), (1, 3), (2, 3)], heap_table(13), 5, (5, 3, 7, 1, 6, 0, 4, 2));
}

proof fn lemma_chart_278()
    ensures
        chart_signature([(0, 1), (1, 3), (2, 3)], heap_table(14)) == chart_signature([(0, 1), (1, 2), (2, 3)], heap_table(8)),
{
    lemma_heap_entries();
    lemma_codes_of_word_11(heap_table(14));
    lemma_codes_of_word_0(heap_table(8));
    lemma_charts_agree_through([(0, 1), (1, 2), (2, 3)], heap_table(8), [(0, 1), (1, 3), (2, 3)], heap_table(14), 4, (3, 5, 6, 0, 7, 1, 2, 4));
}

proof fn lemma_chart_279()
    ensures
        chart_signature([(0, 1), (1, 3), (2, 3)], heap_table(15)) == chart_signature([(0, 1), (1, 2), (2, 3)], heap_table(8)),
{
    lemma_heap_entries();
    lemma_codes_of_word_11(heap_table(15));
    lemma_codes_of_word_0(heap_table(8));
    lemma_charts_agree_through([(0, 1), (1, 2), (2, 3)], heap_table(8), [(0, 1), (1, 3), (2, 3)], heap_table(15), 5, (5, 3, 7, 1, 6, 0, 4, 2));
}

proof fn lemma_chart_280()
    ensures
        chart_signature([(0, 1), (1, 3), (2, 3)], heap_table(16)) == chart_signature([(0, 1), (1, 2), (2, 3)], heap_table(2)),
{
    lemma_heap_entries();
    lemma_codes_of_word_11(heap_table(16));
    lemma_codes_of_word_0(heap_table(2));
    lemma_charts_agree_through([(0, 1), (1, 2), (2, 3)], heap_table(2), [(0, 1), (1, 3), (2, 3)], heap_table(16), 5, (5, 3, 7, 1, 6, 0, 4, 2));
}

proof fn lemma_chart_281()
    ensures
        chart_signature([(0, 1), (1, 3), (2, 3)], heap_table(17)) == chart_signature([(0, 1), (1, 2), (2, 3)], heap_table(2)),
{
    lemma_heap_entries();
    lemma_codes_of_word_11(heap_table(17));
    lemma_codes_of_word_0(heap_table(2));
    lemma_charts_agree_through([(0, 1), (1, 2), (2, 3)], heap_table(2), [(0, 1), (1, 3), (2, 3)], heap_table(17), 4, (3, 5, 6, 0, 7, 1, 2, 4));
}

proof fn lemma_chart_282()
    ensures
        chart_signature([(0, 1), (1, 3), (2, 3)], heap_table(18)) == chart_signature([(0, 1), (1, 2), (2, 3)], heap_table(12)),
{
    lemma_heap_entries();
    lemma_codes_of_word_11(heap_table(18));
    lemma_codes_of_word_0(heap_table(12));
    lemma_charts_agree_through([(0, 1), (1, 2), (2, 3)], heap_table(12), [(0, 1), (1, 3), (2, 3)], heap_table(18), 4, (3, 5, 6, 0, 7, 1, 2, 4));
}

proof fn lemma_chart_283()
    ensures
        chart_signature([(0, 1), (1, 3), (2, 3)], heap_table(19)) == chart_signature([(0, 1), (1, 2), (2, 3)], heap_table(12)),
{
    lemma_heap_entries();
    lemma_codes_of_word_11(heap_table(19));
    lemma_codes_of_word_0(heap_table(12));
    lemma_charts_agree_through([(0, 1), (1, 2), (2, 3)], heap_table(12), [(0, 1), (1, 3), (2, 3)], heap_table(19), 5, (5, 3, 7, 1, 6, 0, 4, 2));
}

proof fn lemma_chart_284()
    ensures
        chart_signature([(0, 1), (1, 3), (2, 3)], heap_table(20)) == chart_signature([(0, 1), (1, 2), (2, 3)], heap_table(6)),
{
    lemma_heap_entries();
    lemma_codes_of_word_11(heap_table(20));
    lemma_codes_of_word_0(heap_table(6));
    lemma_charts_agree_through([(0, 1), (1, 2), (2, 3)], heap_table(6), [(0, 1), (1, 3), (2, 3)], heap_table(20), 5, (5, 3, 7, 1, 6, 0, 4, 2));
}

proof fn lemma_chart_285()
    ensures
        chart_signature([(0, 1), (1, 3), (2, 3)], heap_table(21)) == chart_signature([(0, 1), (1, 2), (2, 3)], heap_table(6)),
{
    lemma_heap_entries();
    lemma_codes_of_word_11(heap_table(21));
    lemma_codes_of_word_0(heap_table(6));
    lemma_charts_agree_through([(0, 1), (1, 2), (2, 3)], heap_table(6), [(0, 1), (1, 3), (2, 3)], heap_table(21), 4, (3, 5, 6, 0, 7, 1, 2, 4));
}

proof fn lemma_chart_286()
    ensures
        chart_signature([(0, 1), (1, 3), (2, 3)], heap_table(22)) == chart_signature([(0, 1), (1, 2), (2, 3)], heap_table(0)),
{
    lemma_heap_entries();
    lemma_codes_of_word_11(heap_table(22));
    lemma_codes_of_word_0(heap_table(0));
    lemma_charts_agree_through([(0, 1), (1, 2), (2, 3)], heap_table(0), [(0, 1), (1, 3), (2, 3)], heap_table(22), 4, (3, 5, 6, 0, 7, 1, 2, 4));
}

proof fn lemma_chart_287()
    ensures
        chart_signature([(0, 1), (1, 3), (2, 3)], heap_table(23)) == chart_signature([(0, 1), (1, 2), (2, 3)], heap_table(0)),
{
    lemma_heap_entries();
    lemma_codes_of_word_11(heap_table(23));
    lemma_codes_of_word_0(heap_table(0));
    lemma_charts_agree_through([(0, 1), (1, 2), (2, 3)], heap_table(0), [(0, 1), (1, 3), (2, 3)], heap_table(23), 5, (5, 3, 7, 1, 6, 0, 4, 2));
}

/// Every chart of atlas word 11 shares its signature with the first chart
/// of a class below 102.
pub proof fn lemma_charts_of_word_11()
    ensures
        forall|t: int| 264 <= t < 288 ==> #[trigger] meets_class_below(t, 102),
{
    lemma_census_words();
    assert forall|t: int| 264 <= t < 288 implies #[trigger] meets_class_below(t, 102) by {
        if t == 264 { lemma_chart_264(); assert(atlas_signatures()[class_rep(11)] == atlas_signatures()[264]); }
        else if t == 265 { lemma_chart_265(); assert(atlas_signatures()[class_rep(11)] == atlas_signatures()[265]); }
        else if t == 266 { lemma_chart_266(); assert(atlas_signatures()[class_rep(8)] == atlas_signatures()[266]); }
        else if t == 267 { lemma_chart_267(); assert(atlas_signatures()[class_rep(8)] == atlas_signatures()[267]); }
        else if t == 268 { lemma_chart_268(); assert(atlas_signatures()[class_rep(5)] == atlas_signatures()[268]); }
        else if t == 269 { lemma_chart_269(); assert(atlas_signatures()[class_rep(5)] == atlas_signatures()[269]); }
        else if t == 270 { lemma_chart_270(); assert(atlas_signatures()[class_rep(10)] == atlas_signatures()[270]); }
        else if t == 271 { lemma_chart_271(); assert(atlas_signatures()[class_rep(10)] == atlas_signatures()[271]); }
        else if t == 272 { lemma_chart_272(); assert(atlas_signatures()[class_rep(7)] == atlas_signatures()[272]); }
        else if t == 273 { lemma_chart_273(); assert(atlas_signatures()[class_rep(7)] == atlas_signatures()[273]); }
        else if t == 274 { lemma_chart_274(); assert(atlas_signatures()[class_rep(2)] == atlas_signatures()[274]); }
        else if t == 275 { lemma_chart_275(); assert(atlas_signatures()[class_rep(2)] == atlas_signatures()[275]); }
        else if t == 276 { lemma_chart_276(); assert(atlas_signatures()[class_rep(9)] == atlas_signatures()[276]); }
        else if t == 277 { lemma_chart_277(); assert(atlas_signatures()[class_rep(9)] == atlas_signatures()[277]); }
        else if t == 278 { lemma_chart_278(); assert(atlas_signatures()[class_rep(4)] == atlas_signatures()[278]); }
        else if t == 279 { lemma_chart_279(); assert(atlas_signatures()[class_rep(4)] == atlas_signatures()[279]); }
        else if t == 280 { lemma_chart_280(); assert(atlas_signatures()[class_rep(1)] == atlas_signatures()[280]); }
        else if t == 281 { lemma_chart_281(); assert(atlas_signatures()[class_rep(1)] == atlas_signatures()[281]); }
        else if t == 282 { lemma_chart_282(); assert(atlas_signatures()[class_rep(6)] == atlas_signatures()[282]); }
        else if t == 283 { lemma_chart_283(); assert(atlas_signatures()[class_rep(6)] == atlas_signatures()[283]); }
        else if t == 284 { lemma_chart_284(); assert(atlas_signatures()[class_rep(3)] == atlas_signatures()[284]); }
        else if t == 285 { lemma_chart_285(); assert(atlas_signatures()[class_rep(3)] == atlas_signatures()[285]); }
        else if t == 286 { lemma_chart_286(); assert(atlas_signatures()[class_rep(0)] == atlas_signatures()[286]); }
        else { lemma_chart_287(); assert(atlas_signatures()[class_rep(0)] == atlas_signatures()[287]); }
    }
}

proof fn lemma_chart_288()
    ensures
        chart_signature([(0, 2), (1, 2), (2, 3)], heap_table(0)) == chart_signature([(0, 1), (1, 2), (2, 3)], heap_table(2)),
{
    lemma_heap_entries();
    lemma_codes_of_word_12(heap_table(0));
    lemma_codes_of_word_0(heap_table(2));
    lemma_charts_agree_through([(0, 1), (1, 2), (2, 3)], heap_table(2), [(0, 2), (1, 2), (2, 3)], heap_table(0), 3, (4, 2, 1, 7, 0, 6, 5, 3));
}

proof fn lemma_chart_289()
    ensures
        chart_signature([(0, 2), (1, 2), (2, 3)], heap_table(1)) == chart_signature([(0, 1), (1, 2), (2, 3)], heap_table(4)),
{
    lemma_heap_entries();
    lemma_codes_of_word_12(heap_table(1));
    lemma_codes_of_word_0(heap_table(4));
    lemma_charts_agree_through([(0, 1), (1, 2), (2, 3)], heap_table(4), [(0, 2), (1, 2), (2, 3)], heap_table(1), 2, (2, 4, 0, 6, 1, 7, 3, 5));
}

proof fn lemma_chart_290()
    ensures
        chart_signature([(0, 2), (1, 2), (2, 3)], heap_table(2)) == chart_signature([(0, 1), (1, 2), (2, 3)], heap_table(4)),
{
    lemma_heap_entries();
    lemma_codes_of_word_12(heap_table(2));
    lemma_codes_of_word_0(heap_table(4));
    lemma_charts_agree_through([(0, 1), (1, 2), (2, 3)], heap_table(4), [(0, 2), (1, 2), (2, 3)], heap_table(2), 3, (4, 2, 1, 7, 0, 6, 5, 3));
}

proof fn lemma_chart_291()
    ensures
        chart_signature([(0, 2), (1, 2), (2, 3)], heap_table(3)) == chart_signature([(0, 1), (1, 2), (2, 3)], heap_table(0)),
{
    lemma_heap_entries();
    lemma_codes_of_word_12(heap_table(3));
    lemma_codes_of_word_0(heap_table(0));
    lemma_charts_agree_through([(0, 1), (1, 2), (2, 3)], heap_table(0), [(0, 2), (1, 2), (2, 3)], heap_table(3), 2, (2, 4, 0, 6, 1, 7, 3, 5));
}

proof fn lemma_chart_292()
    ensures
        chart_signature([(0, 2), (1, 2), (2, 3)], heap_table(4)) == chart_signature([(0, 1), (1, 2), (2, 3)], heap_table(0)),
{
    lemma_heap_entries();
    lemma_codes_of_word_12(heap_table(4));
    lemma_codes_of_word_0(heap_table(0));
    lemma_charts_agree_through([(0, 1), (1, 2), (2, 3)], heap_table(0), [(0, 2), (1, 2), (2, 3)], heap_table(4), 3, (4, 2, 1, 7, 0, 6, 5, 3));
}

proof fn lemma_chart_293()
    ensures
        chart_signature([(0, 2), (1, 2), (2, 3)], heap_table(5)) == chart_signature([(0, 1), (1, 2), (2, 3)], heap_table(2)),
{
    lemma_heap_entries();
    lemma_codes_of_word_12(heap_table(5));
    lemma_codes_of_word_0(heap_table(2));
    lemma_charts_agree_through([(0, 1), (1, 2), (2, 3)], heap_table(2), [(0, 2), (1, 2), (2, 3)], heap_table(5), 2, (2, 4, 0, 6, 1, 7, 3, 5));
}

proof fn lemma_chart_294()
    ensures
        chart_signature([(0, 2), (1, 2), (2, 3)], heap_table(6)) == chart_signature([(0, 1), (1, 2), (2, 3)], heap_table(8)),
{
    lemma_heap_entries();
    lemma_codes_of_word_12(heap_table(6));
    lemma_codes_of_word_0(heap_table(8));
    lemma_charts_agree_through([(0, 1), (1, 2), (2, 3)], heap_table(8), [(0, 2), (1, 2), (2, 3)], heap_table(6), 3, (4, 2, 1, 7, 0, 6, 5, 3));
}

proof fn lemma_chart_295()
    ensures
        chart_signature([(0, 2), (1, 2), (2, 3)], heap_table(7)) == chart_signature([(0, 1), (1, 2), (2, 3)], heap_table(10)),
{
    lemma_heap_entries();
    lemma_codes_of_word_12(heap_table(7));
    lemma_codes_of_word_0(heap_table(10));
    lemma_charts_agree_through([(0, 1), (1, 2), (2, 3)], heap_table(10), [(0, 2), (1, 2), (2, 3)], heap_table(7), 2, (2, 4, 0, 6, 1, 7, 3, 5));
}

proof fn lemma_chart_296()
    ensures
        chart_signature([(0, 2), (1, 2), (2, 3)], heap_table(8)) == chart_signature([(0, 1), (1, 2), (2, 3)], heap_table(10)),
{
    lemma_heap_entries();
    lemma_codes_of_word_12(heap_table(8));
    lemma_codes_of_word_0(heap_table(10));
    lemma_charts_agree_through([(0, 1), (1, 2), (2, 3)], heap_table(10), [(0, 2), (1, 2), (2, 3)], heap_table(8), 3, (4, 2, 1, 7, 0, 6, 5, 3));
}

proof fn lemma_chart_297()
    ensures
        chart_signature([(0, 2), (1, 2), (2, 3)], heap_table(9)) == chart_signature([(0, 1), (1, 2), (2, 3)], heap_table(6)),
{
    lemma_heap_entries();
    lemma_codes_of_word_12(heap_table(9));
    lemma_codes_of_word_0(heap_table(6));
    lemma_charts_agree_through([(0, 1), (1, 2), (2, 3)], heap_table(6), [(0, 2), (1, 2), (2, 3)], heap_table(9), 2, (2, 4, 0, 6, 1, 7, 3, 5));
}

proof fn lemma_chart_298()
    ensures
        chart_signature([(0, 2), (1, 2), (2, 3)], heap_table(10)) == chart_signature([(0, 1), (1, 2), (2, 3)], heap_table(6)),
{
    lemma_heap_entries();
    lemma_codes_of_word_12(heap_table(10));
    lemma_codes_of_word_0(heap_table(6));
    lemma_charts_agree_through([(0, 1), (1, 2), (2, 3)], heap_table(6), [(0, 2), (1, 2), (2, 3)], heap_table(10), 3, (4, 2, 1, 7, 0, 6, 5, 3));
}

proof fn lemma_chart_299()
    ensures
        chart_signature([(0, 2), (1, 2), (2, 3)], heap_table(11)) == chart_signature([(0, 1), (1, 2), (2, 3)], heap_table(8)),
{
    lemma_heap_entries();
    lemma_codes_of_word_12(heap_table(11));
    lemma_codes_of_word_0(heap_table(8));
    lemma_charts_agree_through([(0, 1), (1, 2), (2, 3)], heap_table(8), [(0, 2), (1, 2), (2, 3)], heap_table(11), 2, (2, 4, 0, 6, 1, 7, 3, 5));
}

proof fn lemma_chart_300()
    ensures
        chart_signature([(0, 2), (1, 2), (2, 3)], heap_table(12)) == chart_signature([(0, 1), (1, 2), (2, 3)], heap_table(14)),
{
    lemma_heap_entries();
    lemma_codes_of_word_12(heap_table(12));
    lemma_codes_of_word_0(heap_table(14));
    lemma_charts_agree_through([(0, 1), (1, 2), (2, 3)], heap_table(14), [(0, 2), (1, 2), (2, 3)], heap_table(12), 3, (4, 2, 1, 7, 0, 6, 5, 3));
}

proof fn lemma_chart_301()
    ensures
        chart_signature([(0, 2), (1, 2), (2, 3)], heap_table(13)) == chart_signature([(0, 1), (1, 2), (2, 3)], heap_table(16)),
{
    lemma_heap_entries();
    lemma_codes_of_word_12(heap_table(13));
    lemma_codes_of_word_0(heap_table(16));
    lemma_charts_agree_through([(0, 1), (1, 2), (2, 3)], heap_table(16), [(0, 2), (1, 2), (2, 3)], heap_table(13), 2, (2, 4, 0, 6, 1, 7, 3, 5));
}

proof fn lemma_chart_302()
    ensures
        chart_signature([(0, 2), (1, 2), (2, 3)], heap_table(14)) == chart_signature([(0, 1), (1, 2), (2, 3)], heap_table(16)),
{
    lemma_heap_entries();
    lemma_codes_of_word_12(heap_table(14));
    lemma_codes_of_word_0(heap_table(16));
    lemma_charts_agree_through([(0, 1), (1, 2), (2, 3)], heap_table(16), [(0, 2), (1, 2), (2, 3)], heap_table(14), 3, (4, 2, 1, 7, 0, 6, 5, 3));
}

proof fn lemma_chart_303()
    ensures
        chart_signature([(0, 2), (1, 2), (2, 3)], heap_table(15)) == chart_signature([(0, 1), (1, 2), (2, 3)], heap_table(12)),
{
    lemma_heap_entries();
    lemma_codes_of_word_12(heap_table(15));
    lemma_codes_of_word_0(heap_table(12));
    lemma_charts_agree_through([(0, 1), (1, 2), (2, 3)], heap_table(12), [(0, 2), (1, 2), (2, 3)], heap_table(15), 2, (2, 4, 0, 6, 1, 7, 3, 5));
}

proof fn lemma_chart_304()
    ensures
        chart_signature([(0, 2), (1, 2), (2, 3)], heap_table(16)) == chart_signature([(0, 1), (1, 2), (2, 3)], heap_table(12)),
{
    lemma_heap_entries();
    lemma_codes_of_word_12(heap_table(16));
    lemma_codes_of_word_0(heap_table(12));
    lemma_charts_agree_through([(0, 1), (1, 2), (2, 3)], heap_table(12), [(0, 2), (1, 2), (2, 3)], heap_table(16), 3, (4, 2, 1, 7, 0, 6, 5, 3));
}

proof fn lemma_chart_305()
    ensures
        chart_signature([(0, 2), (1, 2), (2, 3)], heap_table(17)) == chart_signature([(0, 1), (1, 2), (2, 3)], heap_table(14)),
{
    lemma_heap_entries();
    lemma_codes_of_word_12(heap_table(17));
    lemma_codes_of_word_0(heap_table(14));
    lemma_charts_agree_through([(0, 1), (1, 2), (2, 3)], heap_table(14), [(0, 2), (1, 2), (2, 3)], heap_table(17), 2, (2, 4, 0, 6, 1, 7, 3, 5));
}

proof fn lemma_chart_306()
    ensures
        chart_signature([(0, 2), (1, 2), (2, 3)], heap_table(18)) == chart_signature([(0, 1), (1, 2), (2, 3)], heap_table(20)),
{
    lemma_heap_entries();
    lemma_codes_of_word_12(heap_table(18));
    lemma_codes_of_word_0(heap_table(20));
    lemma_charts_agree_through([(0, 1), (1, 2), (2, 3)], heap_table(20), [(0, 2), (1, 2), (2, 3)], heap_table(18), 3, (4, 2, 1, 7, 0, 6, 5, 3));
}

proof fn lemma_chart_307()
    ensures
        chart_signature([(0, 2), (1, 2), (2, 3)], heap_table(19)) == chart_signature([(0, 1), (1, 2), (2, 3)], heap_table(22)),
{
    lemma_heap_entries();
    lemma_codes_of_word_12(heap_table(19));
    lemma_codes_of_word_0(heap_table(22));
    lemma_charts_agree_through([(0, 1), (1, 2), (2, 3)], heap_table(22), [(0, 2), (1, 2), (2, 3)], heap_table(19), 2, (2, 4, 0, 6, 1, 7, 3, 5));
}

proof fn lemma_chart_308()
    ensures
        chart_signature([(0, 2), (1, 2), (2, 3)], heap_table(20)) == chart_signature([(0, 1), (1, 2), (2, 3)], heap_table(22)),
{
    lemma_heap_entries();
    lemma_codes_of_word_12(heap_table(20));
    lemma_codes_of_word_0(heap_table(22));
    lemma_charts_agree_through([(0, 1), (1, 2), (2, 3)], heap_table(22), [(0, 2), (1, 2), (2, 3)], heap_table(20), 3, (4, 2, 1, 7, 0, 6, 5, 3));
}

proof fn lemma_chart_309()
    ensures
        chart_signature([(0, 2), (1, 2), (2, 3)], heap_table(21)) == chart_signature([(0, 1), (1, 2), (2, 3)], heap_table(18)),
{
    lemma_heap_entries();
    lemma_codes_of_word_12(heap_table(21));
    lemma_codes_of_word_0(heap_table(18));
    lemma_charts_agree_through([(0, 1), (1, 2), (2, 3)], heap_table(18), [(0, 2), (1, 2), (2, 3)], heap_table(21), 2, (2, 4, 0, 6, 1, 7, 3, 5));
}

proof fn lemma_chart_310()
    ensures
        chart_signature([(0, 2), (1, 2), (2, 3)], heap_table(22)) == chart_signature([(0, 1), (1, 2), (2, 3)], heap_table(18)),
{
    lemma_heap_entries();
    lemma_codes_of_word_12(heap_table(22));
    lemma_codes_of_word_0(heap_table(18));
    lemma_charts_agree_through([(0, 1), (1, 2), (2, 3)], heap_table(18), [(0, 2), (1, 2), (2, 3)], heap_table(22), 3, (4, 2, 1, 7, 0, 6, 5, 3));
}

proof fn lemma_chart_311()
    ensures
        chart_signature([(0, 2), (1, 2), (2, 3)], heap_table(23)) == chart_signature([(0, 1), (1, 2), (2, 3)], heap_table(20)),
{
    lemma_heap_entries();
    lemma_codes_of_word_12(heap_table(23));
    lemma_codes_of_word_0(heap_table(20));
    lemma_charts_agree_through([(0, 1), (1, 2), (2, 3)], heap_table(20), [(0, 2), (1, 2), (2, 3)], heap_table(23), 2, (2, 4, 0, 6, 1, 7, 3, 5));
}

/// Every chart of atlas word 12 shares its signature with the first chart
/// of a class below 102.
pub proof fn lemma_charts_of_word_12()
    ensures
        forall|t: int| 288 <= t < 312 ==> #[trigger] meets_class_below(t, 102),
{
    lemma_census_words();
    assert forall|t: int| 288 <= t < 312 implies #[trigger] meets_class_below(t, 102) by {
        if t == 288 { lemma_chart_288(); assert(atlas_signatures()[class_rep(1)] == atlas_signatures()[288]); }
        else if t == 289 { lemma_chart_289(); assert(atlas_signatures()[class_rep(2)] == atlas_signatures()[289]); }
        else if t == 290 { lemma_chart_290(); assert(atlas_signatures()[class_rep(2)] == atlas_signatures()[290]); }
        else if t == 291 { lemma_chart_291(); assert(atlas_signatures()[class_rep(0)] == atlas_signatures()[291]); }
        else if t == 292 { lemma_chart_292(); assert(atlas_signatures()[class_rep(0)] == atlas_signatures()[292]); }
        else if t == 293 { lemma_chart_293(); assert(atlas_signatures()[class_rep(1)] == atlas_signatures()[293]); }
        else if t == 294 { lemma_chart_294(); assert(atlas_signatures()[class_rep(4)] == atlas_signatures()[294]); }
        else if t == 295 { lemma_chart_295(); assert(atlas_signatures()[class_rep(5)] == atlas_signatures()[295]); }
        else if t == 296 { lemma_chart_296(); assert(atlas_signatures()[class_rep(5)] == atlas_signatures()[296]); }
        else if t == 297 { lemma_chart_297(); assert(atlas_signatures()[class_rep(3)] == atlas_signatures()[297]); }
        else if t == 298 { lemma_chart_298(); assert(atlas_signatures()[class_rep(3)] == atlas_signatures()[298]); }
        else if t == 299 { lemma_chart_299(); assert(atlas_signatures()[class_rep(4)] == atlas_signatures()[299]); }
        else if t == 300 { lemma_chart_300(); assert(atlas_signatures()[class_rep(7)] == atlas_signatures()[300]); }
        else if t == 301 { lemma_chart_301(); assert(atlas_signatures()[class_rep(8)] == atlas_signatures()[301]); }
        else if t == 302 { lemma_chart_302(); assert(atlas_signatures()[class_rep(8)] == atlas_signatures()[302]); }
        else if t == 303 { lemma_chart_303(); assert(atlas_signatures()[class_rep(6)] == atlas_signatures()[303]); }
        else if t == 304 { lemma_chart_304(); assert(atlas_signatures()[class_rep(6)] == atlas_signatures()[304]); }
        else if t == 305 { lemma_chart_305(); assert(atlas_signatures()[class_rep(7)] == atlas_signatures()[305]); }
        else if t == 306 { lemma_chart_306(); assert(atlas_signatures()[class_rep(10)] == atlas_signatures()[306]); }
        else if t == 307 { lemma_chart_307(); assert(atlas_signatures()[class_rep(11)] == atlas_signatures()[307]); }
        else if t == 308 { lemma_chart_308(); assert(atlas_signatures()[class_rep(11)] == atlas_signatures()[308]); }
        else if t == 309 { lemma_chart_309(); assert(atlas_signatures()[class_rep(9)] == atlas_signatures()[309]); }
        else if t == 310 { lemma_chart_310(); assert(atlas_signatures()[class_rep(9)] == atlas_signatures()[310]); }
        else { lemma_chart_311(); assert(atlas_signatures()[class_rep(10)] == atlas_signatures()[311]); }
    }
}

proof fn lemma_chart_314()
    ensures
        chart_signature([(0, 2), (1, 3), (2, 3)], heap_table(2)) == chart_signature([(0, 2), (1, 3), (2, 3)], heap_table(1)),
{
    lemma_heap_entries();
    lemma_codes_of_word_13(heap_table(2));
    lemma_codes_of_word_13(heap_table(1));
    lemma_charts_agree_through([(0, 2), (1, 3), (2, 3)], heap_table(1), [(0, 2), (1, 3), (2, 3)], heap_table(2), 1, (1, 0, 4, 5, 2, 3, 7, 6));
}

proof fn lemma_chart_316()
    ensures
        chart_signature([(0, 2), (1, 3), (2, 3)], heap_table(4)) == chart_signature([(0, 2), (1, 3), (2, 3)], heap_table(3)),
{
    lemma_heap_entries();
    lemma_codes_of_word_13(heap_table(4));
    lemma_codes_of_word_13(heap_table(3));
    lemma_charts_agree_through([(0, 2), (1, 3), (2, 3)], heap_table(3), [(0, 2), (1, 3), (2, 3)], heap_table(4), 1, (1, 0, 4, 5, 2, 3, 7, 6));
}

proof fn lemma_chart_317()
    ensures
        chart_signature([(0, 2), (1, 3), (2, 3)], heap_table(5)) == chart_signature([(0, 2), (1, 3), (2, 3)], heap_table(0)),
{
    lemma_heap_entries();
    lemma_codes_of_word_13(heap_table(5));
    lemma_codes_of_word_13(heap_table(0));
    lemma_charts_agree_through([(0, 2), (1, 3), (2, 3)], heap_table(0), [(0, 2), (1, 3), (2, 3)], heap_table(5), 1, (1, 0, 4, 5, 2, 3, 7, 6));
}

proof fn lemma_chart_319()
    ensures
        chart_signature([(0, 2), (1, 3), (2, 3)], heap_table(7)) == chart_signature([(0, 2), (1, 3), (2, 3)], heap_table(1)),
{
    lemma_heap_entries();
    lemma_codes_of_word_13(heap_table(7));
    lemma_codes_of_word_13(heap_table(1));
    lemma_charts_agree_through([(0, 2), (1, 3), (2, 3)], heap_table(1), [(0, 2), (1, 3), (2, 3)], heap_table(7), 2, (2, 4, 0, 6, 1, 7, 3, 5));
}

proof fn lemma_chart_320()
    ensures
        chart_signature([(0, 2), (1, 3), (2, 3)], heap_table(8)) == chart_signature([(0, 2), (1, 3), (2, 3)], heap_table(1)),
{
    lemma_heap_entries();
    lemma_codes_of_word_13(heap_table(8));
    lemma_codes_of_word_13(heap_table(1));
    lemma_charts_agree_through([(0, 2), (1, 3), (2, 3)], heap_table(1), [(0, 2), (1, 3), (2, 3)], heap_table(8), 3, (4, 2, 1, 7, 0, 6, 5, 3));
}

proof fn lemma_chart_322()
    ensures
        chart_signature([(0, 2), (1, 3), (2, 3)], heap_table(10)) == chart_signature([(0, 2), (1, 3), (2, 3)], heap_table(9)),
{
    lemma_heap_entries();
    lemma_codes_of_word_13(heap_table(10));
    lemma_codes_of_word_13(heap_table(9));
    lemma_charts_agree_through([(0, 2), (1, 3), (2, 3)], heap_table(9), [(0, 2), (1, 3), (2, 3)], heap_table(10), 1, (1, 0, 4, 5, 2, 3, 7, 6));
}

proof fn lemma_chart_323()
    ensures
        chart_signature([(0, 2), (1, 3), (2, 3)], heap_table(11)) == chart_signature([(0, 2), (1, 3), (2, 3)], heap_table(6)),
{
    lemma_heap_entries();
    lemma_codes_of_word_13(heap_table(11));
    lemma_codes_of_word_13(heap_table(6));
    lemma_charts_agree_through([(0, 2), (1, 3), (2, 3)], heap_table(6), [(0, 2), (1, 3), (2, 3)], heap_table(11), 1, (1, 0, 4, 5, 2, 3, 7, 6));
}

proof fn lemma_chart_324()
    ensures
        chart_signature([(0, 2), (1, 3), (2, 3)], heap_table(12)) == chart_signature([(0, 2), (1, 3), (2, 3)], heap_table(6)),
{
    lemma_heap_entries();
    lemma_codes_of_word_13(heap_table(12));
    lemma_codes_of_word_13(heap_table(6));
    lemma_charts_agree_through([(0, 2), (1, 3), (2, 3)], heap_table(6), [(0, 2), (1, 3), (2, 3)], heap_table(12), 2, (2, 4, 0, 6, 1, 7, 3, 5));
}

proof fn lemma_chart_325()
    ensures
        chart_signature([(0, 2), (1, 3), (2, 3)], heap_table(13)) == chart_signature([(0, 2), (1, 3), (2, 3)], heap_table(0)),
{
    lemma_heap_entries();
    lemma_codes_of_word_13(heap_table(13));
    lemma_codes_of_word_13(heap_table(0));
    lemma_charts_agree_through([(0, 2), (1, 3), (2, 3)], heap_table(0), [(0, 2), (1, 3), (2, 3)], heap_table(13), 2, (2, 4, 0, 6, 1, 7, 3, 5));
}

proof fn lemma_chart_326()
    ensures
        chart_signature([(0, 2), (1, 3), (2, 3)], heap_table(14)) == chart_signature([(0, 2), (1, 3), (2, 3)], heap_table(0)),
{
    lemma_heap_entries();
    lemma_codes_of_word_13(heap_table(14));
    lemma_codes_of_word_13(heap_table(0));
    lemma_charts_agree_through([(0, 2), (1, 3), (2, 3)], heap_table(0), [(0, 2), (1, 3), (2, 3)], heap_table(14), 3, (4, 2, 1, 7, 0, 6, 5, 3));
}

proof fn lemma_chart_328()
    ensures
        chart_signature([(0, 2), (1, 3), (2, 3)], heap_table(16)) == chart_signature([(0, 2), (1, 3), (2, 3)], heap_table(15)),
{
    lemma_heap_entries();
    lemma_codes_of_word_13(heap_table(16));
    lemma_codes_of_word_13(heap_table(15));
    lemma_charts_agree_through([(0, 2), (1, 3), (2, 3)], heap_table(15), [(0, 2), (1, 3), (2, 3)], heap_table(16), 1, (1, 0, 4, 5, 2, 3, 7, 6));
}

proof fn lemma_chart_329()
    ensures
        chart_signature([(0, 2), (1, 3), (2, 3)], heap_table(17)) == chart_signature([(0, 2), (1, 3), (2, 3)], heap_table(6)),
{
    lemma_heap_entries();
    lemma_codes_of_word_13(heap_table(17));
    lemma_codes_of_word_13(heap_table(6));
    lemma_charts_agree_through([(0, 2), (1, 3), (2, 3)], heap_table(6), [(0, 2), (1, 3), (2, 3)], heap_table(17), 3, (4, 2, 1, 7, 0, 6, 5, 3));
}

proof fn lemma_chart_330()
    ensures
        chart_signature([(0, 2), (1, 3), (2, 3)], heap_table(18)) == chart_signature([(0, 2), (1, 3), (2, 3)], heap_table(9)),
{
    lemma_heap_entries();
    lemma_codes_of_word_13(heap_table(18));
    lemma_codes_of_word_13(heap_table(9));
    lemma_charts_agree_through([(0, 2), (1, 3), (2, 3)], heap_table(9), [(0, 2), (1, 3), (2, 3)], heap_table(18), 2, (2, 4, 0, 6, 1, 7, 3, 5));
}

proof fn lemma_chart_331()
    ensures
        chart_signature([(0, 2), (1, 3), (2, 3)], heap_table(19)) == chart_signature([(0, 2), (1, 3), (2, 3)], heap_table(3)),
{
    lemma_heap_entries();
    lemma_codes_of_word_13(heap_table(19));
    lemma_codes_of_word_13(heap_table(3));
    lemma_charts_agree_through([(0, 2), (1, 3), (2, 3)], heap_table(3), [(0, 2), (1, 3), (2, 3)], heap_table(19), 2, (2, 4, 0, 6, 1, 7, 3, 5));
}

proof fn lemma_chart_332()
    ensures
        chart_signature([(0, 2), (1, 3), (2, 3)], heap_table(20)) == chart_signature([(0, 2), (1, 3), (2, 3)], heap_table(3)),
{
    lemma_heap_entries();
    lemma_codes_of_word_13(heap_table(20));
    lemma_codes_of_word_13(heap_table(3));
    lemma_charts_agree_through([(0, 2), (1, 3), (2, 3)], heap_table(3), [(0, 2), (1, 3), (2, 3)], heap_table(20), 3, (4, 2, 1, 7, 0, 6, 5, 3));
}

proof fn lemma_chart_333()
    ensures
        chart_signature([(0, 2), (1, 3), (2, 3)], heap_table(21)) == chart_signature([(0, 2), (1, 3), (2, 3)], heap_table(15)),
{
    lemma_heap_entries();
    lemma_codes_of_word_13(heap_table(21));
    lemma_codes_of_word_13(heap_table(15));
    lemma_charts_agree_through([(0, 2), (1, 3), (2, 3)], heap_table(15), [(0, 2), (1, 3), (2, 3)], heap_table(21), 2, (2, 4, 0, 6, 1, 7, 3, 5));
}

proof fn lemma_chart_334()
    ensures
        chart_signature([(0, 2), (1, 3), (2, 3)], heap_table(22)) == chart_signature([(0, 2), (1, 3), (2, 3)], heap_table(15)),
{
    lemma_heap_entries();
    lemma_codes_of_word_13(heap_table(22));
    lemma_codes_of_word_13(heap_table(15));
    lemma_charts_agree_through([(0, 2), (1, 3), (2, 3)], heap_table(15), [(0, 2), (1, 3), (2, 3)], heap_table(22), 3, (4, 2, 1, 7, 0, 6, 5, 3));
}

proof fn lemma_chart_335()
    ensures
        chart_signature([(0, 2), (1, 3), (2, 3)], heap_table(23)) == chart_signature([(0, 2), (1, 3), (2, 3)], heap_table(9)),
{
    lemma_heap_entries();
    lemma_codes_of_word_13(heap_table(23));
    lemma_codes_of_word_13(heap_table(9));
    lemma_charts_agree_through([(0, 2), (1, 3), (2, 3)], heap_table(9), [(0, 2), (1, 3), (2, 3)], heap_table(23), 3, (4, 2, 1, 7, 0, 6, 5, 3));
}

/// Every chart of atlas word 13 shares its signature with the first chart
/// of a class below 102.
pub proof fn lemma_charts_of_word_13()
    ensures
        forall|t: int| 312 <= t < 336 ==> #[trigger] meets_class_below(t, 102),
{
    lemma_census_words();
    assert forall|t: int| 312 <= t < 336 implies #[trigger] meets_class_below(t, 102) by {
        if t == 312 { assert(atlas_signatures()[class_rep(96)] == atlas_signatures()[312]); }
        else if t == 313 { assert(atlas_signatures()[class_rep(97)] == atlas_signatures()[313]); }
        else if t == 314 { lemma_chart_314(); assert(atlas_signatures()[class_rep(97)] == atlas_signatures()[314]); }
        else if t == 315 { assert(atlas_signatures()[class_rep(98)] == atlas_signatures()[315]); }
        else if t == 316 { lemma_chart_316(); assert(atlas_signatures()[class_rep(98)] == atlas_signatures()[316]); }
        else if t == 317 { lemma_chart_317(); assert(atlas_signatures()[class_rep(96)] == atlas_signatures()[317]); }
        else if t == 318 { assert(atlas_signatures()[class_rep(99)] == atlas_signatures()[318]); }
        else if t == 319 { lemma_chart_319(); assert(atlas_signatures()[class_rep(97)] == atlas_signatures()[319]); }
        else if t == 320 { lemma_chart_320(); assert(atlas_signatures()[class_rep(97)] == atlas_signatures()[320]); }
        else if t == 321 { assert(atlas_signatures()[class_rep(100)] == atlas_signatures()[321]); }
        else if t == 322 { lemma_chart_322(); assert(atlas_signatures()[class_rep(100)] == atlas_signatures()[322]); }
        else if t == 323 { lemma_chart_323(); assert(atlas_signatures()[class_rep(99)] == atlas_signatures()[323]); }
        else if t == 324 { lemma_chart_324(); assert(atlas_signatures()[class_rep(99)] == atlas_signatures()[324]); }
        else if t == 325 { lemma_chart_325(); assert(atlas_signatures()[class_rep(96)] == atlas_signatures()[325]); }
        else if t == 326 { lemma_chart_326(); assert(atlas_signatures()[class_rep(96)] == atlas_signatures()[326]); }
        else if t == 327 { assert(atlas_signatures()[class_rep(101)] == atlas_signatures()[327]); }
        else if t == 328 { lemma_chart_328(); assert(atlas_signatures()[class_rep(101)] == atlas_signatures()[328]); }
        else if t == 329 { lemma_chart_329(); assert(atlas_signatures()[class_rep(99)] == atlas_signatures()[329]); }
        else if t == 330 { lemma_chart_330(); assert(atlas_signatures()[class_rep(100)] == atlas_signatures()[330]); }
        else if t == 331 { lemma_chart_331(); assert(atlas_signatures()[class_rep(98)] == atlas_signatures()[331]); }
        else if t == 332 { lemma_chart_332(); assert(atlas_signatures()[class_rep(98)] == atlas_signatures()[332]); }
        else if t == 333 { lemma_chart_333(); assert(atlas_signatures()[class_rep(101)] == atlas_signatures()[333]); }
        else if t == 334 { lemma_chart_334(); assert(atlas_signatures()[class_rep(101)] == atlas_signatures()[334]); }
        else { lemma_chart_335(); assert(atlas_signatures()[class_rep(100)] == atlas_signatures()[335]); }
    }
}

proof fn lemma_chart_336()
    ensures
        chart_signature([(0, 3), (1, 2), (2, 3)], heap_table(0)) == chart_signature([(0, 2), (1, 3), (2, 3)], heap_table(15)),
{
    lemma_heap_entries();
    lemma_codes_of_word_14(heap_table(0));
    lemma_codes_of_word_13(heap_table(15));
    lemma_charts_agree_through([(0, 2), (1, 3), (2, 3)], heap_table(15), [(0, 3), (1, 2), (2, 3)], heap_table(0), 7, (7, 6, 5, 4, 3, 2, 1, 0));
}

proof fn lemma_chart_337()
    ensures
        chart_signature([(0, 3), (1, 2), (2, 3)], heap_table(1)) == chart_signature([(0, 2), (1, 3), (2, 3)], heap_table(9)),
{
    lemma_heap_entries();
    lemma_codes_of_word_14(heap_table(1));
    lemma_codes_of_word_13(heap_table(9));
    lemma_charts_agree_through([(0, 2), (1, 3), (2, 3)], heap_table(9), [(0, 3), (1, 2), (2, 3)], heap_table(1), 7, (7, 6, 5, 4, 3, 2, 1, 0));
}

proof fn lemma_chart_338()
    ensures
        chart_signature([(0, 3), (1, 2), (2, 3)], heap_table(2)) == chart_signature([(0, 2), (1, 3), (2, 3)], heap_table(6)),
{
    lemma_heap_entries();
    lemma_codes_of_word_14(heap_table(2));
    lemma_codes_of_word_13(heap_table(6));
    lemma_charts_agree_through([(0, 2), (1, 3), (2, 3)], heap_table(6), [(0, 3), (1, 2), (2, 3)], heap_table(2), 7, (7, 6, 5, 4, 3, 2, 1, 0));
}

proof fn lemma_chart_339()
    ensures
        chart_signature([(0, 3), (1, 2), (2, 3)], heap_table(3)) == chart_signature([(0, 2), (1, 3), (2, 3)], heap_table(15)),
{
    lemma_heap_entries();
    lemma_codes_of_word_14(heap_table(3));
    lemma_codes_of_word_13(heap_table(15));
    lemma_charts_agree_through([(0, 2), (1, 3), (2, 3)], heap_table(15), [(0, 3), (1, 2), (2, 3)], heap_table(3), 5, (5, 3, 7, 1, 6, 0, 4, 2));
}

proof fn lemma_chart_340()
    ensures
        chart_signature([(0, 3), (1, 2), (2, 3)], heap_table(4)) == chart_signature([(0, 2), (1, 3), (2, 3)], heap_table(9)),
{
    lemma_heap_entries();
    lemma_codes_of_word_14(heap_table(4));
    lemma_codes_of_word_13(heap_table(9));
    lemma_charts_agree_through([(0, 2), (1, 3), (2, 3)], heap_table(9), [(0, 3), (1, 2), (2, 3)], heap_table(4), 5, (5, 3, 7, 1, 6, 0, 4, 2));
}

proof fn lemma_chart_341()
    ensures
        chart_signature([(0, 3), (1, 2), (2, 3)], heap_table(5)) == chart_signature([(0, 2), (1, 3), (2, 3)], heap_table(6)),
{
    lemma_heap_entries();
    lemma_codes_of_word_14(heap_table(5));
    lemma_codes_of_word_13(heap_table(6));
    lemma_charts_agree_through([(0, 2), (1, 3), (2, 3)], heap_table(6), [(0, 3), (1, 2), (2, 3)], heap_table(5), 5, (5, 3, 7, 1, 6, 0, 4, 2));
}

proof fn lemma_chart_342()
    ensures
        chart_signature([(0, 3), (1, 2), (2, 3)], heap_table(6)) == chart_signature([(0, 2), (1, 3), (2, 3)], heap_table(15)),
{
    lemma_heap_entries();
    lemma_codes_of_word_14(heap_table(6));
    lemma_codes_of_word_13(heap_table(15));
    lemma_charts_agree_through([(0, 2), (1, 3), (2, 3)], heap_table(15), [(0, 3), (1, 2), (2, 3)], heap_table(6), 6, (6, 7, 3, 2, 5, 4, 0, 1));
}

proof fn lemma_chart_343()
    ensures
        chart_signature([(0, 3), (1, 2), (2, 3)], heap_table(7)) == chart_signature([(0, 2), (1, 3), (2, 3)], heap_table(3)),
{
    lemma_heap_entries();
    lemma_codes_of_word_14(heap_table(7));
    lemma_codes_of_word_13(heap_table(3));
    lemma_charts_agree_through([(0, 2), (1, 3), (2, 3)], heap_table(3), [(0, 3), (1, 2), (2, 3)], heap_table(7), 7, (7, 6, 5, 4, 3, 2, 1, 0));
}

proof fn lemma_chart_344()
    ensures
        chart_signature([(0, 3), (1, 2), (2, 3)], heap_table(8)) == chart_signature([(0, 2), (1, 3), (2, 3)], heap_table(0)),
{
    lemma_heap_entries();
    lemma_codes_of_word_14(heap_table(8));
    lemma_codes_of_word_13(heap_table(0));
    lemma_charts_agree_through([(0, 2), (1, 3), (2, 3)], heap_table(0), [(0, 3), (1, 2), (2, 3)], heap_table(8), 7, (7, 6, 5, 4, 3, 2, 1, 0));
}

proof fn lemma_chart_345()
    ensures
        chart_signature([(0, 3), (1, 2), (2, 3)], heap_table(9)) == chart_signature([(0, 2), (1, 3), (2, 3)], heap_table(15)),
{
    lemma_heap_entries();
    lemma_codes_of_word_14(heap_table(9));
    lemma_codes_of_word_13(heap_table(15));
    lemma_charts_agree_through([(0, 2), (1, 3), (2, 3)], heap_table(15), [(0, 3), (1, 2), (2, 3)], heap_table(9), 4, (3, 5, 6, 0, 7, 1, 2, 4));
}

proof fn lemma_chart_346()
    ensures
        chart_signature([(0, 3), (1, 2), (2, 3)], heap_table(10)) == chart_signature([(0, 2), (1, 3), (2, 3)], heap_table(3)),
{
    lemma_heap_entries();
    lemma_codes_of_word_14(heap_table(10));
    lemma_codes_of_word_13(heap_table(3));
    lemma_charts_agree_through([(0, 2), (1, 3), (2, 3)], heap_table(3), [(0, 3), (1, 2), (2, 3)], heap_table(10), 5, (5, 3, 7, 1, 6, 0, 4, 2));
}

proof fn lemma_chart_347()
    ensures
        chart_signature([(0, 3), (1, 2), (2, 3)], heap_table(11)) == chart_signature([(0, 2), (1, 3), (2, 3)], heap_table(0)),
{
    lemma_heap_entries();
    lemma_codes_of_word_14(heap_table(11));
    lemma_codes_of_word_13(heap_table(0));
    lemma_charts_agree_through([(0, 2), (1, 3), (2, 3)], heap_table(0), [(0, 3), (1, 2), (2, 3)], heap_table(11), 5, (5, 3, 7, 1, 6, 0, 4, 2));
}

proof fn lemma_chart_348()
    ensures
        chart_signature([(0, 3), (1, 2), (2, 3)], heap_table(12)) == chart_signature([(0, 2), (1, 3), (2, 3)], heap_table(9)),
{
    lemma_heap_entries();
    lemma_codes_of_word_14(heap_table(12));
    lemma_codes_of_word_13(heap_table(9));
    lemma_charts_agree_through([(0, 2), (1, 3), (2, 3)], heap_table(9), [(0, 3), (1, 2), (2, 3)], heap_table(12), 6, (6, 7, 3, 2, 5, 4, 0, 1));
}

proof fn lemma_chart_349()
    ensures
        chart_signature([(0, 3), (1, 2), (2, 3)], heap_table(13)) == chart_signature([(0, 2), (1, 3), (2, 3)], heap_table(3)),
{
    lemma_heap_entries();
    lemma_codes_of_word_14(heap_table(13));
    lemma_codes_of_word_13(heap_table(3));
    lemma_charts_agree_through([(0, 2), (1, 3), (2, 3)], heap_table(3), [(0, 3), (1, 2), (2, 3)], heap_table(13), 6, (6, 7, 3, 2, 5, 4, 0, 1));
}

proof fn lemma_chart_350()
    ensures
        chart_signature([(0, 3), (1, 2), (2, 3)], heap_table(14)) == chart_signature([(0, 2), (1, 3), (2, 3)], heap_table(1)),
{
    lemma_heap_entries();
    lemma_codes_of_word_14(heap_table(14));
    lemma_codes_of_word_13(heap_table(1));
    lemma_charts_agree_through([(0, 2), (1, 3), (2, 3)], heap_table(1), [(0, 3), (1, 2), (2, 3)], heap_table(14), 7, (7, 6, 5, 4, 3, 2, 1, 0));
}

proof fn lemma_chart_351()
    ensures
        chart_signature([(0, 3), (1, 2), (2, 3)], heap_table(15)) == chart_signature([(0, 2), (1, 3), (2, 3)], heap_table(9)),
{
    lemma_heap_entries();
    lemma_codes_of_word_14(heap_table(15));
    lemma_codes_of_word_13(heap_table(9));
    lemma_charts_agree_through([(0, 2), (1, 3), (2, 3)], heap_table(9), [(0, 3), (1, 2), (2, 3)], heap_table(15), 4, (3, 5, 6, 0, 7, 1, 2, 4));
}

proof fn lemma_chart_352()
    ensures
        chart_signature([(0, 3), (1, 2), (2, 3)], heap_table(16)) == chart_signature([(0, 2), (1, 3), (2, 3)], heap_table(3)),
{
    lemma_heap_entries();
    lemma_codes_of_word_14(heap_table(16));
    lemma_codes_of_word_13(heap_table(3));
    lemma_charts_agree_through([(0, 2), (1, 3), (2, 3)], heap_table(3), [(0, 3), (1, 2), (2, 3)], heap_table(16), 4, (3, 5, 6, 0, 7, 1, 2, 4));
}

proof fn lemma_chart_353()
    ensures
        chart_signature([(0, 3), (1, 2), (2, 3)], heap_table(17)) == chart_signature([(0, 2), (1, 3), (2, 3)], heap_table(1)),
{
    lemma_heap_entries();
    lemma_codes_of_word_14(heap_table(17));
    lemma_codes_of_word_13(heap_table(1));
    lemma_charts_agree_through([(0, 2), (1, 3), (2, 3)], heap_table(1), [(0, 3), (1, 2), (2, 3)], heap_table(17), 5, (5, 3, 7, 1, 6, 0, 4, 2));
}

proof fn lemma_chart_354()
    ensures
        chart_signature([(0, 3), (1, 2), (2, 3)], heap_table(18)) == chart_signature([(0, 2), (1, 3), (2, 3)], heap_table(6)),
{
    lemma_heap_entries();
    lemma_codes_of_word_14(heap_table(18));
    lemma_codes_of_word_13(heap_table(6));
    lemma_charts_agree_through([(0, 2), (1, 3), (2, 3)], heap_table(6), [(0, 3), (1, 2), (2, 3)], heap_table(18), 6, (6, 7, 3, 2, 5, 4, 0, 1));
}

proof fn lemma_chart_355()
    ensures
        chart_signature([(0, 3), (1, 2), (2, 3)], heap_table(19)) == chart_signature([(0, 2), (1, 3), (2, 3)], heap_table(0)),
{
    lemma_heap_entries();
    lemma_codes_of_word_14(heap_table(19));
    lemma_codes_of_word_13(heap_table(0));
    lemma_charts_agree_through([(0, 2), (1, 3), (2, 3)], heap_table(0), [(0, 3), (1, 2), (2, 3)], heap_table(19), 6, (6, 7, 3, 2, 5, 4, 0, 1));
}

proof fn lemma_chart_356()
    ensures
        chart_signature([(0, 3), (1, 2), (2, 3)], heap_table(20)) == chart_signature([(0, 2), (1, 3), (2, 3)], heap_table(1)),
{
    lemma_heap_entries();
    lemma_codes_of_word_14(heap_table(20));
    lemma_codes_of_word_13(heap_table(1));
    lemma_charts_agree_through([(0, 2), (1, 3), (2, 3)], heap_table(1), [(0, 3), (1, 2), (2, 3)], heap_table(20), 6, (6, 7, 3, 2, 5, 4, 0, 1));
}

proof fn lemma_chart_357()
    ensures
        chart_signature([(0, 3), (1, 2), (2, 3)], heap_table(21)) == chart_signature([(0, 2), (1, 3), (2, 3)], heap_table(6)),
{
    lemma_heap_entries();
    lemma_codes_of_word_14(heap_table(21));
    lemma_codes_of_word_13(heap_table(6));
    lemma_charts_agree_through([(0, 2), (1, 3), (2, 3)], heap_table(6), [(0, 3), (1, 2), (2, 3)], heap_table(21), 4, (3, 5, 6, 0, 7, 1, 2, 4));
}

proof fn lemma_chart_358()
    ensures
        chart_signature([(0, 3), (1, 2), (2, 3)], heap_table(22)) == chart_signature([(0, 2), (1, 3), (2, 3)], heap_table(0)),
{
    lemma_heap_entries();
    lemma_codes_of_word_14(heap_table(22));
    lemma_codes_of_word_13(heap_table(0));
    lemma_charts_agree_through([(0, 2), (1, 3), (2, 3)], heap_table(0), [(0, 3), (1, 2), (2, 3)], heap_table(22), 4, (3, 5, 6, 0, 7, 1, 2, 4));
}

proof fn lemma_chart_359()
    ensures
        chart_signature([(0, 3), (1, 2), (2, 3)], heap_table(23)) == chart_signature([(0, 2), (1, 3), (2, 3)], heap_table(1)),
{
    lemma_heap_entries();
    lemma_codes_of_word_14(heap_table(23));
    lemma_codes_of_word_13(heap_table(1));
    lemma_charts_agree_through([(0, 2), (1, 3), (2, 3)], heap_table(1), [(0, 3), (1, 2), (2, 3)], heap_table(23), 4, (3, 5, 6, 0, 7, 1, 2, 4));
}

/// Every chart of atlas word 14 shares its signature with the first chart
/// of a class below 102.
pub proof fn lemma_charts_of_word_14()
    ensures
        forall|t: int| 336 <= t < 360 ==> #[trigger] meets_class_below(t, 102),
{
    lemma_census_words();
    assert forall|t: int| 336 <= t < 360 implies #[trigger] meets_class_below(t, 102) by {
        if t == 336 { lemma_chart_336(); assert(atlas_signatures()[class_rep(101)] == atlas_signatures()[336]); }
        else if t == 337 { lemma_chart_337(); assert(atlas_signatures()[class_rep(100)] == atlas_signatures()[337]); }
        else if t == 338 { lemma_chart_338(); assert(atlas_signatures()[class_rep(99)] == atlas_signatures()[338]); }
        else if t == 339 { lemma_chart_339(); assert(atlas_signatures()[class_rep(101)] == atlas_signatures()[339]); }
        else if t == 340 { lemma_chart_340(); assert(atlas_signatures()[class_rep(100)] == atlas_signatures()[340]); }
        else if t == 341 { lemma_chart_341(); assert(atlas_signatures()[class_rep(99)] == atlas_signatures()[341]); }
        else if t == 342 { lemma_chart_342(); assert(atlas_signatures()[class_rep(101)] == atlas_signatures()[342]); }
        else if t == 343 { lemma_chart_343(); assert(atlas_signatures()[class_rep(98)] == atlas_signatures()[343]); }
        else if t == 344 { lemma_chart_344(); assert(atlas_signatures()[class_rep(96)] == atlas_signatures()[344]); }
        else if t == 345 { lemma_chart_345(); assert(atlas_signatures()[class_rep(101)] == atlas_signatures()[345]); }
        else if t == 346 { lemma_chart_346(); assert(atlas_signatures()[class_rep(98)] == atlas_signatures()[346]); }
        else if t == 347 { lemma_chart_347(); assert(atlas_signatures()[class_rep(96)] == atlas_signatures()[347]); }
        else if t == 348 { lemma_chart_348(); assert(atlas_signatures()[class_rep(100)] == atlas_signatures()[348]); }
        else if t == 349 { lemma_chart_349(); assert(atlas_signatures()[class_rep(98)] == atlas_signatures()[349]); }
        else if t == 350 { lemma_chart_350(); assert(atlas_signatures()[class_rep(97)] == atlas_signatures()[350]); }
        else if t == 351 { lemma_chart_351(); assert(atlas_signatures()[class_rep(100)] == atlas_signatures()[351]); }
        else if t == 352 { lemma_chart_352(); assert(atlas_signatures()[class_rep(98)] == atlas_signatures()[352]); }
        else if t == 353 { lemma_chart_353(); assert(atlas_signatures()[class_rep(97)] == atlas_signatures()[353]); }
        else if t == 354 { lemma_chart_354(); assert(atlas_signatures()[class_rep(99)] == atlas_signatures()[354]); }
        else if t == 355 { lemma_chart_355(); assert(atlas_signatures()[class_rep(96)] == atlas_signatures()[355]); }
        else if t == 356 { lemma_chart_356(); assert(atlas_signatures()[class_rep(97)] == atlas_signatures()[356]); }
        else if t == 357 { lemma_chart_357(); assert(atlas_signatures()[class_rep(99)] == atlas_signatures()[357]); }
        else if t == 358 { lemma_chart_358(); assert(atlas_signatures()[class_rep(96)] == atlas_signatures()[358]); }
        else { lemma_chart_359(); assert(atlas_signatures()[class_rep(97)] == atlas_signatures()[359]); }
    }
}

proof fn lemma_chart_360()
    ensures
        chart_signature([(0, 3), (1, 3), (2, 3)], heap_table(0)) == chart_signature([(0, 1), (1, 2), (2, 3)], heap_table(18)),
{
    lemma_heap_entries();
    lemma_codes_of_word_15(heap_table(0));
    lemma_codes_of_word_0(heap_table(18));
    lemma_charts_agree_through([(0, 1), (1, 2), (2, 3)], heap_table(18), [(0, 3), (1, 3), (2, 3)], heap_table(0), 7, (7, 6, 5, 4, 3, 2, 1, 0));
}

proof fn lemma_chart_361()
    ensures
        chart_signature([(0, 3), (1, 3), (2, 3)], heap_table(1)) == chart_signature([(0, 1), (1, 2), (2, 3)], heap_table(20)),
{
    lemma_heap_entries();
    lemma_codes_of_word_15(heap_table(1));
    lemma_codes_of_word_0(heap_table(20));
    lemma_charts_agree_through([(0, 1), (1, 2), (2, 3)], heap_table(20), [(0, 3), (1, 3), (2, 3)], heap_table(1), 6, (6, 7, 3, 2, 5, 4, 0, 1));
}

proof fn lemma_chart_362()
    ensures
        chart_signature([(0, 3), (1, 3), (2, 3)], heap_table(2)) == chart_signature([(0, 1), (1, 2), (2, 3)], heap_table(14)),
{
    lemma_heap_entries();
    lemma_codes_of_word_15(heap_table(2));
    lemma_codes_of_word_0(heap_table(14));
    lemma_charts_agree_through([(0, 1), (1, 2), (2, 3)], heap_table(14), [(0, 3), (1, 3), (2, 3)], heap_table(2), 6, (6, 7, 3, 2, 5, 4, 0, 1));
}

proof fn lemma_chart_363()
    ensures
        chart_signature([(0, 3), (1, 3), (2, 3)], heap_table(3)) == chart_signature([(0, 1), (1, 2), (2, 3)], heap_table(12)),
{
    lemma_heap_entries();
    lemma_codes_of_word_15(heap_table(3));
    lemma_codes_of_word_0(heap_table(12));
    lemma_charts_agree_through([(0, 1), (1, 2), (2, 3)], heap_table(12), [(0, 3), (1, 3), (2, 3)], heap_table(3), 7, (7, 6, 5, 4, 3, 2, 1, 0));
}

proof fn lemma_chart_364()
    ensures
        chart_signature([(0, 3), (1, 3), (2, 3)], heap_table(4)) == chart_signature([(0, 1), (1, 2), (2, 3)], heap_table(6)),
{
    lemma_heap_entries();
    lemma_codes_of_word_15(heap_table(4));
    lemma_codes_of_word_0(heap_table(6));
    lemma_charts_agree_through([(0, 1), (1, 2), (2, 3)], heap_table(6), [(0, 3), (1, 3), (2, 3)], heap_table(4), 7, (7, 6, 5, 4, 3, 2, 1, 0));
}

proof fn lemma_chart_365()
    ensures
        chart_signature([(0, 3), (1, 3), (2, 3)], heap_table(5)) == chart_signature([(0, 1), (1, 2), (2, 3)], heap_table(8)),
{
    lemma_heap_entries();
    lemma_codes_of_word_15(heap_table(5));
    lemma_codes_of_word_0(heap_table(8));
    lemma_charts_agree_through([(0, 1), (1, 2), (2, 3)], heap_table(8), [(0, 3), (1, 3), (2, 3)], heap_table(5), 6, (6, 7, 3, 2, 5, 4, 0, 1));
}

proof fn lemma_chart_366()
    ensures
        chart_signature([(0, 3), (1, 3), (2, 3)], heap_table(6)) == chart_signature([(0, 1), (1, 2), (2, 3)], heap_table(18)),
{
    lemma_heap_entries();
    lemma_codes_of_word_15(heap_table(6));
    lemma_codes_of_word_0(heap_table(18));
    lemma_charts_agree_through([(0, 1), (1, 2), (2, 3)], heap_table(18), [(0, 3), (1, 3), (2, 3)], heap_table(6), 6, (6, 7, 3, 2, 5, 4, 0, 1));
}

proof fn lemma_chart_367()
    ensures
        chart_signature([(0, 3), (1, 3), (2, 3)], heap_table(7)) == chart_signature([(0, 1), (1, 2), (2, 3)], heap_table(22)),
{
    lemma_heap_entries();
    lemma_codes_of_word_15(heap_table(7));
    lemma_codes_of_word_0(heap_table(22));
    lemma_charts_agree_through([(0, 1), (1, 2), (2, 3)], heap_table(22), [(0, 3), (1, 3), (2, 3)], heap_table(7), 7, (7, 6, 5, 4, 3, 2, 1, 0));
}

proof fn lemma_chart_368()
    ensures
        chart_signature([(0, 3), (1, 3), (2, 3)], heap_table(8)) == chart_signature([(0, 1), (1, 2), (2, 3)], heap_table(16)),
{
    lemma_heap_entries();
    lemma_codes_of_word_15(heap_table(8));
    lemma_codes_of_word_0(heap_table(16));
    lemma_charts_agree_through([(0, 1), (1, 2), (2, 3)], heap_table(16), [(0, 3), (1, 3), (2, 3)], heap_table(8), 7, (7, 6, 5, 4, 3, 2, 1, 0));
}

proof fn lemma_chart_369()
    ensures
        chart_signature([(0, 3), (1, 3), (2, 3)], heap_table(9)) == chart_signature([(0, 1), (1, 2), (2, 3)], heap_table(12)),
{
    lemma_heap_entries();
    lemma_codes_of_word_15(heap_table(9));
    lemma_codes_of_word_0(heap_table(12));
    lemma_charts_agree_through([(0, 1), (1, 2), (2, 3)], heap_table(12), [(0, 3), (1, 3), (2, 3)], heap_table(9), 6, (6, 7, 3, 2, 5, 4, 0, 1));
}

proof fn lemma_chart_370()
    ensures
        chart_signature([(0, 3), (1, 3), (2, 3)], heap_table(10)) == chart_signature([(0, 1), (1, 2), (2, 3)], heap_table(0)),
{
    lemma_heap_entries();
    lemma_codes_of_word_15(heap_table(10));
    lemma_codes_of_word_0(heap_table(0));
    lemma_charts_agree_through([(0, 1), (1, 2), (2, 3)], heap_table(0), [(0, 3), (1, 3), (2, 3)], heap_table(10), 7, (7, 6, 5, 4, 3, 2, 1, 0));
}

proof fn lemma_chart_371()
    ensures
        chart_signature([(0, 3), (1, 3), (2, 3)], heap_table(11)) == chart_signature([(0, 1), (1, 2), (2, 3)], heap_table(2)),
{
    lemma_heap_entries();
    lemma_codes_of_word_15(heap_table(11));
    lemma_codes_of_word_0(heap_table(2));
    lemma_charts_agree_through([(0, 1), (1, 2), (2, 3)], heap_table(2), [(0, 3), (1, 3), (2, 3)], heap_table(11), 6, (6, 7, 3, 2, 5, 4, 0, 1));
}

proof fn lemma_chart_372()
    ensures
        chart_signature([(0, 3), (1, 3), (2, 3)], heap_table(12)) == chart_signature([(0, 1), (1, 2), (2, 3)], heap_table(20)),
{
    lemma_heap_entries();
    lemma_codes_of_word_15(heap_table(12));
    lemma_codes_of_word_0(heap_table(20));
    lemma_charts_agree_through([(0, 1), (1, 2), (2, 3)], heap_table(20), [(0, 3), (1, 3), (2, 3)], heap_table(12), 7, (7, 6, 5, 4, 3, 2, 1, 0));
}

proof fn lemma_chart_373()
    ensures
        chart_signature([(0, 3), (1, 3), (2, 3)], heap_table(13)) == chart_signature([(0, 1), (1, 2), (2, 3)], heap_table(22)),
{
    lemma_heap_entries();
    lemma_codes_of_word_15(heap_table(13));
    lemma_codes_of_word_0(heap_table(22));
    lemma_charts_agree_through([(0, 1), (1, 2), (2, 3)], heap_table(22), [(0, 3), (1, 3), (2, 3)], heap_table(13), 6, (6, 7, 3, 2, 5, 4, 0, 1));
}

proof fn lemma_chart_374()
    ensures
        chart_signature([(0, 3), (1, 3), (2, 3)], heap_table(14)) == chart_signature([(0, 1), (1, 2), (2, 3)], heap_table(10)),
{
    lemma_heap_entries();
    lemma_codes_of_word_15(heap_table(14));
    lemma_codes_of_word_0(heap_table(10));
    lemma_charts_agree_through([(0, 1), (1, 2), (2, 3)], heap_table(10), [(0, 3), (1, 3), (2, 3)], heap_table(14), 7, (7, 6, 5, 4, 3, 2, 1, 0));
}

proof fn lemma_chart_375()
    ensures
        chart_signature([(0, 3), (1, 3), (2, 3)], heap_table(15)) == chart_signature([(0, 1), (1, 2), (2, 3)], heap_table(6)),
{
    lemma_heap_entries();
    lemma_codes_of_word_15(heap_table(15));
    lemma_codes_of_word_0(heap_table(6));
    lemma_charts_agree_through([(0, 1), (1, 2), (2, 3)], heap_table(6), [(0, 3), (1, 3), (2, 3)], heap_table(15), 6, (6, 7, 3, 2, 5, 4, 0, 1));
}

proof fn lemma_chart_376()
    ensures
        chart_signature([(0, 3), (1, 3), (2, 3)], heap_table(16)) == chart_signature([(0, 1), (1, 2), (2, 3)], heap_table(0)),
{
    lemma_heap_entries();
    lemma_codes_of_word_15(heap_table(16));
    lemma_codes_of_word_0(heap_table(0));
    lemma_charts_agree_through([(0, 1), (1, 2), (2, 3)], heap_table(0), [(0, 3), (1, 3), (2, 3)], heap_table(16), 6, (6, 7, 3, 2, 5, 4, 0, 1));
}

proof fn lemma_chart_377()
    ensures
        chart_signature([(0, 3), (1, 3), (2, 3)], heap_table(17)) == chart_signature([(0, 1), (1, 2), (2, 3)], heap_table(4)),
{
    lemma_heap_entries();
    lemma_codes_of_word_15(heap_table(17));
    lemma_codes_of_word_0(heap_table(4));
    lemma_charts_agree_through([(0, 1), (1, 2), (2, 3)], heap_table(4), [(0, 3), (1, 3), (2, 3)], heap_table(17), 7, (7, 6, 5, 4, 3, 2, 1, 0));
}

proof fn lemma_chart_378()
    ensures
        chart_signature([(0, 3), (1, 3), (2, 3)], heap_table(18)) == chart_signature([(0, 1), (1, 2), (2, 3)], heap_table(14)),
{
    lemma_heap_entries();
    lemma_codes_of_word_15(heap_table(18));
    lemma_codes_of_word_0(heap_table(14));
    lemma_charts_agree_through([(0, 1), (1, 2), (2, 3)], heap_table(14), [(0, 3), (1, 3), (2, 3)], heap_table(18), 7, (7, 6, 5, 4, 3, 2, 1, 0));
}

proof fn lemma_chart_379()
    ensures
        chart_signature([(0, 3), (1, 3), (2, 3)], heap_table(19)) == chart_signature([(0, 1), (1, 2), (2, 3)], heap_table(16)),
{
    lemma_heap_entries();
    lemma_codes_of_word_15(heap_table(19));
    lemma_codes_of_word_0(heap_table(16));
    lemma_charts_agree_through([(0, 1), (1, 2), (2, 3)], heap_table(16), [(0, 3), (1, 3), (2, 3)], heap_table(19), 6, (6, 7, 3, 2, 5, 4, 0, 1));
}

proof fn lemma_chart_380()
    ensures
        chart_signature([(0, 3), (1, 3), (2, 3)], heap_table(20)) == chart_signature([(0, 1), (1, 2), (2, 3)], heap_table(10)),
{
    lemma_heap_entries();
    lemma_codes_of_word_15(heap_table(20));
    lemma_codes_of_word_0(heap_table(10));
    lemma_charts_agree_through([(0, 1), (1, 2), (2, 3)], heap_table(10), [(0, 3), (1, 3), (2, 3)], heap_table(20), 6, (6, 7, 3, 2, 5, 4, 0, 1));
}

proof fn lemma_chart_381()
    ensures
        chart_signature([(0, 3), (1, 3), (2, 3)], heap_table(21)) == chart_signature([(0, 1), (1, 2), (2, 3)], heap_table(8)),
{
    lemma_heap_entries();
    lemma_codes_of_word_15(heap_table(21));
    lemma_codes_of_word_0(heap_table(8));
    lemma_charts_agree_through([(0, 1), (1, 2), (2, 3)], heap_table(8), [(0, 3), (1, 3), (2, 3)], heap_table(21), 7, (7, 6, 5, 4, 3, 2, 1, 0));
}

proof fn lemma_chart_382()
    ensures
        chart_signature([(0, 3), (1, 3), (2, 3)], heap_table(22)) == chart_signature([(0, 1), (1, 2), (2, 3)], heap_table(2)),
{
    lemma_heap_entries();
    lemma_codes_of_word_15(heap_table(22));
    lemma_codes_of_word_0(heap_table(2));
    lemma_charts_agree_through([(0, 1), (1, 2), (2, 3)], heap_table(2), [(0, 3), (1, 3), (2, 3)], heap_table(22), 7, (7, 6, 5, 4, 3, 2, 1, 0));
}

proof fn lemma_chart_383()
    ensures
        chart_signature([(0, 3), (1, 3), (2, 3)], heap_table(23)) == chart_signature([(0, 1), (1, 2), (2, 3)], heap_table(4)),
{
    lemma_heap_entries();
    lemma_codes_of_word_15(heap_table(23));
    lemma_codes_of_word_0(heap_table(4));
    lemma_charts_agree_through([(0, 1), (1, 2), (2, 3)], heap_table(4), [(0, 3), (1, 3), (2, 3)], heap_table(23), 6, (6, 7, 3, 2, 5, 4, 0, 1));
}

/// Every chart of atlas word 15 shares its signature with the first chart
/// of a class below 102.
pub proof fn lemma_charts_of_word_15()
    ensures
        forall|t: int| 360 <= t < 384 ==> #[trigger] meets_class_below(t, 102),
{
    lemma_census_words();
    assert forall|t: int| 360 <= t < 384 implies #[trigger] meets_class_below(t, 102) by {
        if t == 360 { lemma_chart_360(); assert(atlas_signatures()[class_rep(9)] == atlas_signatures()[360]); }
        else if t == 361 { lemma_chart_361(); assert(atlas_signatures()[class_rep(10)] == atlas_signatures()[361]); }
        else if t == 362 { lemma_chart_362(); assert(atlas_signatures()[class_rep(7)] == atlas_signatures()[362]); }
        else if t == 363 { lemma_chart_363(); assert(atlas_signatures()[class_rep(6)] == atlas_signatures()[363]); }
        else if t == 364 { lemma_chart_364(); assert(atlas_signatures()[class_rep(3)] == atlas_signatures()[364]); }
        else if t == 365 { lemma_chart_365(); assert(atlas_signatures()[class_rep(4)] == atlas_signatures()[365]); }
        else if t == 366 { lemma_chart_366(); assert(atlas_signatures()[class_rep(9)] == atlas_signatures()[366]); }
        else if t == 367 { lemma_chart_367(); assert(atlas_signatures()[class_rep(11)] == atlas_signatures()[367]); }
        else if t == 368 { lemma_chart_368(); assert(atlas_signatures()[class_rep(8)] == atlas_signatures()[368]); }
        else if t == 369 { lemma_chart_369(); assert(atlas_signatures()[class_rep(6)] == atlas_signatures()[369]); }
        else if t == 370 { lemma_chart_370(); assert(atlas_signatures()[class_rep(0)] == atlas_signatures()[370]); }
        else if t == 371 { lemma_chart_371(); assert(atlas_signatures()[class_rep(1)] == atlas_signatures()[371]); }
        else if t == 372 { lemma_chart_372(); assert(atlas_signatures()[class_rep(10)] == atlas_signatures()[372]); }
        else if t == 373 { lemma_chart_373(); assert(atlas_signatures()[class_rep(11)] == atlas_signatures()[373]); }
        else if t == 374 { lemma_chart_374(); assert(atlas_signatures()[class_rep(5)] == atlas_signatures()[374]); }
        else if t == 375 { lemma_chart_375(); assert(atlas_signatures()[class_rep(3)] == atlas_signatures()[375]); }
        else if t == 376 { lemma_chart_376(); assert(atlas_signatures()[class_rep(0)] == atlas_signatures()[376]); }
        else if t == 377 { lemma_chart_377(); assert(atlas_signatures()[class_rep(2)] == atlas_signatures()[377]); }
        else if t == 378 { lemma_chart_378(); assert(atlas_signatures()[class_rep(7)] == atlas_signatures()[378]); }
        else if t == 379 { lemma_chart_379(); assert(atlas_signatures()[class_rep(8)] == atlas_signatures()[379]); }
        else if t == 380 { lemma_chart_380(); assert(atlas_signatures()[class_rep(5)] == atlas_signatures()[380]); }
        else if t == 381 { lemma_chart_381(); assert(atlas_signatures()[class_rep(4)] == atlas_signatures()[381]); }
        else if t == 382 { lemma_chart_382(); assert(atlas_signatures()[class_rep(1)] == atlas_signatures()[382]); }
        else { lemma_chart_383(); assert(atlas_signatures()[class_rep(2)] == atlas_signatures()[383]); }
    }
}

} // verus!
