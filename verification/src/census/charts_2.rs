//! Charts of atlas words 32 to 47 matched to the first charts of their classes.
use vstd::prelude::*;
use crate::atlas::{atlas_signatures, chart_signature, lemma_charts_agree_through};
use crate::permutations::heap_table;
use super::{class_rep, lemma_census_words, lemma_heap_entries, meets_class_below, lemma_codes_of_word_2, lemma_codes_of_word_7, lemma_codes_of_word_19, lemma_codes_of_word_20, lemma_codes_of_word_26, lemma_codes_of_word_30, lemma_codes_of_word_32, lemma_codes_of_word_33, lemma_codes_of_word_34, lemma_codes_of_word_35, lemma_codes_of_word_36, lemma_codes_of_word_37, lemma_codes_of_word_38, lemma_codes_of_word_39, lemma_codes_of_word_40, lemma_codes_of_word_41, lemma_codes_of_word_42, lemma_codes_of_word_43, lemma_codes_of_word_44, lemma_codes_of_word_45, lemma_codes_of_word_46, lemma_codes_of_word_47};

verus! {

proof fn lemma_chart_768()
    ensures
        chart_signature([(0, 2), (2, 3), (0, 1)], heap_table(0)) == chart_signature([(0, 2), (0, 1), (2, 3)], heap_table(0)),
{
    lemma_heap_entries();
    lemma_codes_of_word_32(heap_table(0));
    lemma_codes_of_word_26(heap_table(0));
    lemma_charts_agree_through([(0, 2), (0, 1), (2, 3)], heap_table(0), [(0, 2), (2, 3), (0, 1)], heap_table(0), 8, (0, 1, 3, 2, 5, 4, 6, 7));
}

proof fn lemma_chart_769()
    ensures
        chart_signature([(0, 2), (2, 3), (0, 1)], heap_table(1)) == chart_signature([(0, 2), (0, 1), (2, 3)], heap_table(1)),
{
    lemma_heap_entries();
    lemma_codes_of_word_32(heap_table(1));
    lemma_codes_of_word_26(heap_table(1));
    lemma_charts_agree_through([(0, 2), (0, 1), (2, 3)], heap_table(1), [(0, 2), (2, 3), (0, 1)], heap_table(1), 8, (0, 1, 3, 2, 5, 4, 6, 7));
}

proof fn lemma_chart_770()
    ensures
        chart_signature([(0, 2), (2, 3), (0, 1)], heap_table(2)) == chart_signature([(0, 2), (0, 1), (2, 3)], heap_table(1)),
{
    lemma_heap_entries();
    lemma_codes_of_word_32(heap_table(2));
    lemma_codes_of_word_26(heap_table(1));
    lemma_charts_agree_through([(0, 2), (0, 1), (2, 3)], heap_table(1), [(0, 2), (2, 3), (0, 1)], heap_table(2), 9, (1, 0, 5, 4, 3, 2, 7, 6));
}

proof fn lemma_chart_771()
    ensures
        chart_signature([(0, 2), (2, 3), (0, 1)], heap_table(3)) == chart_signature([(0, 2), (0, 1), (2, 3)], heap_table(3)),
{
    lemma_heap_entries();
    lemma_codes_of_word_32(heap_table(3));
    lemma_codes_of_word_26(heap_table(3));
    lemma_charts_agree_through([(0, 2), (0, 1), (2, 3)], heap_table(3), [(0, 2), (2, 3), (0, 1)], heap_table(3), 8, (0, 1, 3, 2, 5, 4, 6, 7));
}

proof fn lemma_chart_772()
    ensures
        chart_signature([(0, 2), (2, 3), (0, 1)], heap_table(4)) == chart_signature([(0, 2), (0, 1), (2, 3)], heap_table(3)),
{
    lemma_heap_entries();
    lemma_codes_of_word_32(heap_table(4));
    lemma_codes_of_word_26(heap_table(3));
    lemma_charts_agree_through([(0, 2), (0, 1), (2, 3)], heap_table(3), [(0, 2), (2, 3), (0, 1)], heap_table(4), 9, (1, 0, 5, 4, 3, 2, 7, 6));
}

proof fn lemma_chart_773()
    ensures
        chart_signature([(0, 2), (2, 3), (0, 1)], heap_table(5)) == chart_signature([(0, 2), (0, 1), (2, 3)], heap_table(0)),
{
    lemma_heap_entries();
    lemma_codes_of_word_32(heap_table(5));
    lemma_codes_of_word_26(heap_table(0));
    lemma_charts_agree_through([(0, 2), (0, 1), (2, 3)], heap_table(0), [(0, 2), (2, 3), (0, 1)], heap_table(5), 9, (1, 0, 5, 4, 3, 2, 7, 6));
}

proof fn lemma_chart_774()
    ensures
        chart_signature([(0, 2), (2, 3), (0, 1)], heap_table(6)) == chart_signature([(0, 2), (0, 1), (2, 3)], heap_table(6)),
{
    lemma_heap_entries();
    lemma_codes_of_word_32(heap_table(6));
    lemma_codes_of_word_26(heap_table(6));
    lemma_charts_agree_through([(0, 2), (0, 1), (2, 3)], heap_table(6), [(0, 2), (2, 3), (0, 1)], heap_table(6), 8, (0, 1, 3, 2, 5, 4, 6, 7));
}

proof fn lemma_chart_775()
    ensures
        chart_signature([(0, 2), (2, 3), (0, 1)], heap_table(7)) == chart_signature([(0, 2), (0, 1), (2, 3)], heap_table(7)),
{
    lemma_heap_entries();
    lemma_codes_of_word_32(heap_table(7));
    lemma_codes_of_word_26(heap_table(7));
    lemma_charts_agree_through([(0, 2), (0, 1), (2, 3)], heap_table(7), [(0, 2), (2, 3), (0, 1)], heap_table(7), 8, (0, 1, 3, 2, 5, 4, 6, 7));
}

proof fn lemma_chart_776()
    ensures
        chart_signature([(0, 2), (2, 3), (0, 1)], heap_table(8)) == chart_signature([(0, 2), (0, 1), (2, 3)], heap_table(7)),
{
    lemma_heap_entries();
    lemma_codes_of_word_32(heap_table(8));
    lemma_codes_of_word_26(heap_table(7));
    lemma_charts_agree_through([(0, 2), (0, 1), (2, 3)], heap_table(7), [(0, 2), (2, 3), (0, 1)], heap_table(8), 9, (1, 0, 5, 4, 3, 2, 7, 6));
}

proof fn lemma_chart_777()
    ensures
        chart_signature([(0, 2), (2, 3), (0, 1)], heap_table(9)) == chart_signature([(0, 2), (0, 1), (2, 3)], heap_table(9)),
{
    lemma_heap_entries();
    lemma_codes_of_word_32(heap_table(9));
    lemma_codes_of_word_26(heap_table(9));
    lemma_charts_agree_through([(0, 2), (0, 1), (2, 3)], heap_table(9), [(0, 2), (2, 3), (0, 1)], heap_table(9), 8, (0, 1, 3, 2, 5, 4, 6, 7));
}

proof fn lemma_chart_778()
    ensures
        chart_signature([(0, 2), (2, 3), (0, 1)], heap_table(10)) == chart_signature([(0, 2), (0, 1), (2, 3)], heap_table(9)),
{
    lemma_heap_entries();
    lemma_codes_of_word_32(heap_table(10));
    lemma_codes_of_word_26(heap_table(9));
    lemma_charts_agree_through([(0, 2), (0, 1), (2, 3)], heap_table(9), [(0, 2), (2, 3), (0, 1)], heap_table(10), 9, (1, 0, 5, 4, 3, 2, 7, 6));
}

proof fn lemma_chart_779()
    ensures
        chart_signature([(0, 2), (2, 3), (0, 1)], heap_table(11)) == chart_signature([(0, 2), (0, 1), (2, 3)], heap_table(6)),
{
    lemma_heap_entries();
    lemma_codes_of_word_32(heap_table(11));
    lemma_codes_of_word_26(heap_table(6));
    lemma_charts_agree_through([(0, 2), (0, 1), (2, 3)], heap_table(6), [(0, 2), (2, 3), (0, 1)], heap_table(11), 9, (1, 0, 5, 4, 3, 2, 7, 6));
}

proof fn lemma_chart_780()
    ensures
        chart_signature([(0, 2), (2, 3), (0, 1)], heap_table(12)) == chart_signature([(0, 2), (0, 1), (2, 3)], heap_table(12)),
{
    lemma_heap_entries();
    lemma_codes_of_word_32(heap_table(12));
    lemma_codes_of_word_26(heap_table(12));
    lemma_charts_agree_through([(0, 2), (0, 1), (2, 3)], heap_table(12), [(0, 2), (2, 3), (0, 1)], heap_table(12), 8, (0, 1, 3, 2, 5, 4, 6, 7));
}

proof fn lemma_chart_781()
    ensures
        chart_signature([(0, 2), (2, 3), (0, 1)], heap_table(13)) == chart_signature([(0, 2), (0, 1), (2, 3)], heap_table(13)),
{
    lemma_heap_entries();
    lemma_codes_of_word_32(heap_table(13));
    lemma_codes_of_word_26(heap_table(13));
    lemma_charts_agree_through([(0, 2), (0, 1), (2, 3)], heap_table(13), [(0, 2), (2, 3), (0, 1)], heap_table(13), 8, (0, 1, 3, 2, 5, 4, 6, 7));
}

proof fn lemma_chart_782()
    ensures
        chart_signature([(0, 2), (2, 3), (0, 1)], heap_table(14)) == chart_signature([(0, 2), (0, 1), (2, 3)], heap_table(13)),
{
    lemma_heap_entries();
    lemma_codes_of_word_32(heap_table(14));
    lemma_codes_of_word_26(heap_table(13));
    lemma_charts_agree_through([(0, 2), (0, 1), (2, 3)], heap_table(13), [(0, 2), (2, 3), (0, 1)], heap_table(14), 9, (1, 0, 5, 4, 3, 2, 7, 6));
}

proof fn lemma_chart_783()
    ensures
        chart_signature([(0, 2), (2, 3), (0, 1)], heap_table(15)) == chart_signature([(0, 2), (0, 1), (2, 3)], heap_table(15)),
{
    lemma_heap_entries();
    lemma_codes_of_word_32(heap_table(15));
    lemma_codes_of_word_26(heap_table(15));
    lemma_charts_agree_through([(0, 2), (0, 1), (2, 3)], heap_table(15), [(0, 2), (2, 3), (0, 1)], heap_table(15), 8, (0, 1, 3, 2, 5, 4, 6, 7));
}

proof fn lemma_chart_784()
    ensures
        chart_signature([(0, 2), (2, 3), (0, 1)], heap_table(16)) == chart_signature([(0, 2), (0, 1), (2, 3)], heap_table(15)),
{
    lemma_heap_entries();
    lemma_codes_of_word_32(heap_table(16));
    lemma_codes_of_word_26(heap_table(15));
    lemma_charts_agree_through([(0, 2), (0, 1), (2, 3)], heap_table(15), [(0, 2), (2, 3), (0, 1)], heap_table(16), 9, (1, 0, 5, 4, 3, 2, 7, 6));
}

proof fn lemma_chart_785()
    ensures
        chart_signature([(0, 2), (2, 3), (0, 1)], heap_table(17)) == chart_signature([(0, 2), (0, 1), (2, 3)], heap_table(12)),
{
    lemma_heap_entries();
    lemma_codes_of_word_32(heap_table(17));
    lemma_codes_of_word_26(heap_table(12));
    lemma_charts_agree_through([(0, 2), (0, 1), (2, 3)], heap_table(12), [(0, 2), (2, 3), (0, 1)], heap_table(17), 9, (1, 0, 5, 4, 3, 2, 7, 6));
}

proof fn lemma_chart_786()
    ensures
        chart_signature([(0, 2), (2, 3), (0, 1)], heap_table(18)) == chart_signature([(0, 2), (0, 1), (2, 3)], heap_table(18)),
{
    lemma_heap_entries();
    lemma_codes_of_word_32(heap_table(18));
    lemma_codes_of_word_26(heap_table(18));
    lemma_charts_agree_through([(0, 2), (0, 1), (2, 3)], heap_table(18), [(0, 2), (2, 3), (0, 1)], heap_table(18), 8, (0, 1, 3, 2, 5, 4, 6, 7));
}

proof fn lemma_chart_787()
    ensures
        chart_signature([(0, 2), (2, 3), (0, 1)], heap_table(19)) == chart_signature([(0, 2), (0, 1), (2, 3)], heap_table(19)),
{
    lemma_heap_entries();
    lemma_codes_of_word_32(heap_table(19));
    lemma_codes_of_word_26(heap_table(19));
    lemma_charts_agree_through([(0, 2), (0, 1), (2, 3)], heap_table(19), [(0, 2), (2, 3), (0, 1)], heap_table(19), 8, (0, 1, 3, 2, 5, 4, 6, 7));
}

proof fn lemma_chart_788()
    ensures
        chart_signature([(0, 2), (2, 3), (0, 1)], heap_table(20)) == chart_signature([(0, 2), (0, 1), (2, 3)], heap_table(19)),
{
    lemma_heap_entries();
    lemma_codes_of_word_32(heap_table(20));
    lemma_codes_of_word_26(heap_table(19));
    lemma_charts_agree_through([(0, 2), (0, 1), (2, 3)], heap_table(19), [(0, 2), (2, 3), (0, 1)], heap_table(20), 9, (1, 0, 5, 4, 3, 2, 7, 6));
}

proof fn lemma_chart_789()
    ensures
        chart_signature([(0, 2), (2, 3), (0, 1)], heap_table(21)) == chart_signature([(0, 2), (0, 1), (2, 3)], heap_table(21)),
{
    lemma_heap_entries();
    lemma_codes_of_word_32(heap_table(21));
    lemma_codes_of_word_26(heap_table(21));
    lemma_charts_agree_through([(0, 2), (0, 1), (2, 3)], heap_table(21), [(0, 2), (2, 3), (0, 1)], heap_table(21), 8, (0, 1, 3, 2, 5, 4, 6, 7));
}

proof fn lemma_chart_790()
    ensures
        chart_signature([(0, 2), (2, 3), (0, 1)], heap_table(22)) == chart_signature([(0, 2), (0, 1), (2, 3)], heap_table(21)),
{
    lemma_heap_entries();
    lemma_codes_of_word_32(heap_table(22));
    lemma_codes_of_word_26(heap_table(21));
    lemma_charts_agree_through([(0, 2), (0, 1), (2, 3)], heap_table(21), [(0, 2), (2, 3), (0, 1)], heap_table(22), 9, (1, 0, 5, 4, 3, 2, 7, 6));
}

proof fn lemma_chart_791()
    ensures
        chart_signature([(0, 2), (2, 3), (0, 1)], heap_table(23)) == chart_signature([(0, 2), (0, 1), (2, 3)], heap_table(18)),
{
    lemma_heap_entries();
    lemma_codes_of_word_32(heap_table(23));
    lemma_codes_of_word_26(heap_table(18));
    lemma_charts_agree_through([(0, 2), (0, 1), (2, 3)], heap_table(18), [(0, 2), (2, 3), (0, 1)], heap_table(23), 9, (1, 0, 5, 4, 3, 2, 7, 6));
}

/// Every chart of atlas word 32 shares its signature with the first chart
/// of a class below 216.
pub proof fn lemma_charts_of_word_32()
    ensures
        forall|t: int| 768 <= t < 792 ==> #[trigger] meets_class_below(t, 216),
{
    lemma_census_words();
    assert forall|t: int| 768 <= t < 792 implies #[trigger] meets_class_below(t, 216) by {
        if t == 768 { lemma_chart_768(); assert(atlas_signatures()[class_rep(150)] == atlas_signatures()[768]); }
        else if t == 769 { lemma_chart_769(); assert(atlas_signatures()[class_rep(151)] == atlas_signatures()[769]); }
        else if t == 770 { lemma_chart_770(); assert(atlas_signatures()[class_rep(151)] == atlas_signatures()[770]); }
        else if t == 771 { lemma_chart_771(); assert(atlas_signatures()[class_rep(152)] == atlas_signatures()[771]); }
        else if t == 772 { lemma_chart_772(); assert(atlas_signatures()[class_rep(152)] == atlas_signatures()[772]); }
        else if t == 773 { lemma_chart_773(); assert(atlas_signatures()[class_rep(150)] == atlas_signatures()[773]); }
        else if t == 774 { lemma_chart_774(); assert(atlas_signatures()[class_rep(153)] == atlas_signatures()[774]); }
        else if t == 775 { lemma_chart_775(); assert(atlas_signatures()[class_rep(154)] == atlas_signatures()[775]); }
        else if t == 776 { lemma_chart_776(); assert(atlas_signatures()[class_rep(154)] == atlas_signatures()[776]); }
        else if t == 777 { lemma_chart_777(); assert(atlas_signatures()[class_rep(155)] == atlas_signatures()[777]); }
        else if t == 778 { lemma_chart_778(); assert(atlas_signatures()[class_rep(155)] == atlas_signatures()[778]); }
        else if t == 779 { lemma_chart_779(); assert(atlas_signatures()[class_rep(153)] == atlas_signatures()[779]); }
        else if t == 780 { lemma_chart_780(); assert(atlas_signatures()[class_rep(156)] == atlas_signatures()[780]); }
        else if t == 781 { lemma_chart_781(); assert(atlas_signatures()[class_rep(157)] == atlas_signatures()[781]); }
        else if t == 782 { lemma_chart_782(); assert(atlas_signatures()[class_rep(157)] == atlas_signatures()[782]); }
        else if t == 783 { lemma_chart_783(); assert(atlas_signatures()[class_rep(158)] == atlas_signatures()[783]); }
        else if t == 784 { lemma_chart_784(); assert(atlas_signatures()[class_rep(158)] == atlas_signatures()[784]); }
        else if t == 785 { lemma_chart_785(); assert(atlas_signatures()[class_rep(156)] == atlas_signatures()[785]); }
        else if t == 786 { lemma_chart_786(); assert(atlas_signatures()[class_rep(159)] == atlas_signatures()[786]); }
        else if t == 787 { lemma_chart_787(); assert(atlas_signatures()[class_rep(160)] == atlas_signatures()[787]); }
        else if t == 788 { lemma_chart_788(); assert(atlas_signatures()[class_rep(160)] == atlas_signatures()[788]); }
        else if t == 789 { lemma_chart_789(); assert(atlas_signatures()[class_rep(161)] == atlas_signatures()[789]); }
        else if t == 790 { lemma_chart_790(); assert(atlas_signatures()[class_rep(161)] == atlas_signatures()[790]); }
        else { lemma_chart_791(); assert(atlas_signatures()[class_rep(159)] == atlas_signatures()[791]); }
    }
}

proof fn lemma_chart_792()
    ensures
        chart_signature([(0, 2), (2, 3), (1, 2)], heap_table(0)) == chart_signature([(0, 1), (1, 3), (1, 2)], heap_table(2)),
{
    lemma_heap_entries();
    lemma_codes_of_word_33(heap_table(0));
    lemma_codes_of_word_19(heap_table(2));
    lemma_charts_agree_through([(0, 1), (1, 3), (1, 2)], heap_table(2), [(0, 2), (2, 3), (1, 2)], heap_table(0), 5, (5, 3, 7, 1, 6, 0, 4, 2));
}

proof fn lemma_chart_793()
    ensures
        chart_signature([(0, 2), (2, 3), (1, 2)], heap_table(1)) == chart_signature([(0, 1), (1, 3), (1, 2)], heap_table(4)),
{
    lemma_heap_entries();
    lemma_codes_of_word_33(heap_table(1));
    lemma_codes_of_word_19(heap_table(4));
    lemma_charts_agree_through([(0, 1), (1, 3), (1, 2)], heap_table(4), [(0, 2), (2, 3), (1, 2)], heap_table(1), 4, (3, 5, 6, 0, 7, 1, 2, 4));
}

proof fn lemma_chart_794()
    ensures
        chart_signature([(0, 2), (2, 3), (1, 2)], heap_table(2)) == chart_signature([(0, 1), (1, 3), (1, 2)], heap_table(4)),
{
    lemma_heap_entries();
    lemma_codes_of_word_33(heap_table(2));
    lemma_codes_of_word_19(heap_table(4));
    lemma_charts_agree_through([(0, 1), (1, 3), (1, 2)], heap_table(4), [(0, 2), (2, 3), (1, 2)], heap_table(2), 5, (5, 3, 7, 1, 6, 0, 4, 2));
}

proof fn lemma_chart_795()
    ensures
        chart_signature([(0, 2), (2, 3), (1, 2)], heap_table(3)) == chart_signature([(0, 1), (1, 3), (1, 2)], heap_table(0)),
{
    lemma_heap_entries();
    lemma_codes_of_word_33(heap_table(3));
    lemma_codes_of_word_19(heap_table(0));
    lemma_charts_agree_through([(0, 1), (1, 3), (1, 2)], heap_table(0), [(0, 2), (2, 3), (1, 2)], heap_table(3), 4, (3, 5, 6, 0, 7, 1, 2, 4));
}

proof fn lemma_chart_796()
    ensures
        chart_signature([(0, 2), (2, 3), (1, 2)], heap_table(4)) == chart_signature([(0, 1), (1, 3), (1, 2)], heap_table(0)),
{
    lemma_heap_entries();
    lemma_codes_of_word_33(heap_table(4));
    lemma_codes_of_word_19(heap_table(0));
    lemma_charts_agree_through([(0, 1), (1, 3), (1, 2)], heap_table(0), [(0, 2), (2, 3), (1, 2)], heap_table(4), 5, (5, 3, 7, 1, 6, 0, 4, 2));
}

proof fn lemma_chart_797()
    ensures
        chart_signature([(0, 2), (2, 3), (1, 2)], heap_table(5)) == chart_signature([(0, 1), (1, 3), (1, 2)], heap_table(2)),
{
    lemma_heap_entries();
    lemma_codes_of_word_33(heap_table(5));
    lemma_codes_of_word_19(heap_table(2));
    lemma_charts_agree_through([(0, 1), (1, 3), (1, 2)], heap_table(2), [(0, 2), (2, 3), (1, 2)], heap_table(5), 4, (3, 5, 6, 0, 7, 1, 2, 4));
}

proof fn lemma_chart_798()
    ensures
        chart_signature([(0, 2), (2, 3), (1, 2)], heap_table(6)) == chart_signature([(0, 1), (1, 3), (1, 2)], heap_table(8)),
{
    lemma_heap_entries();
    lemma_codes_of_word_33(heap_table(6));
    lemma_codes_of_word_19(heap_table(8));
    lemma_charts_agree_through([(0, 1), (1, 3), (1, 2)], heap_table(8), [(0, 2), (2, 3), (1, 2)], heap_table(6), 5, (5, 3, 7, 1, 6, 0, 4, 2));
}

proof fn lemma_chart_799()
    ensures
        chart_signature([(0, 2), (2, 3), (1, 2)], heap_table(7)) == chart_signature([(0, 1), (1, 3), (1, 2)], heap_table(10)),
{
    lemma_heap_entries();
    lemma_codes_of_word_33(heap_table(7));
    lemma_codes_of_word_19(heap_table(10));
    lemma_charts_agree_through([(0, 1), (1, 3), (1, 2)], heap_table(10), [(0, 2), (2, 3), (1, 2)], heap_table(7), 4, (3, 5, 6, 0, 7, 1, 2, 4));
}

proof fn lemma_chart_800()
    ensures
        chart_signature([(0, 2), (2, 3), (1, 2)], heap_table(8)) == chart_signature([(0, 1), (1, 3), (1, 2)], heap_table(10)),
{
    lemma_heap_entries();
    lemma_codes_of_word_33(heap_table(8));
    lemma_codes_of_word_19(heap_table(10));
    lemma_charts_agree_through([(0, 1), (1, 3), (1, 2)], heap_table(10), [(0, 2), (2, 3), (1, 2)], heap_table(8), 5, (5, 3, 7, 1, 6, 0, 4, 2));
}

proof fn lemma_chart_801()
    ensures
        chart_signature([(0, 2), (2, 3), (1, 2)], heap_table(9)) == chart_signature([(0, 1), (1, 3), (1, 2)], heap_table(6)),
{
    lemma_heap_entries();
    lemma_codes_of_word_33(heap_table(9));
    lemma_codes_of_word_19(heap_table(6));
    lemma_charts_agree_through([(0, 1), (1, 3), (1, 2)], heap_table(6), [(0, 2), (2, 3), (1, 2)], heap_table(9), 4, (3, 5, 6, 0, 7, 1, 2, 4));
}

proof fn lemma_chart_802()
    ensures
        chart_signature([(0, 2), (2, 3), (1, 2)], heap_table(10)) == chart_signature([(0, 1), (1, 3), (1, 2)], heap_table(6)),
{
    lemma_heap_entries();
    lemma_codes_of_word_33(heap_table(10));
    lemma_codes_of_word_19(heap_table(6));
    lemma_charts_agree_through([(0, 1), (1, 3), (1, 2)], heap_table(6), [(0, 2), (2, 3), (1, 2)], heap_table(10), 5, (5, 3, 7, 1, 6, 0, 4, 2));
}

proof fn lemma_chart_803()
    ensures
        chart_signature([(0, 2), (2, 3), (1, 2)], heap_table(11)) == chart_signature([(0, 1), (1, 3), (1, 2)], heap_table(8)),
{
    lemma_heap_entries();
    lemma_codes_of_word_33(heap_table(11));
    lemma_codes_of_word_19(heap_table(8));
    lemma_charts_agree_through([(0, 1), (1, 3), (1, 2)], heap_table(8), [(0, 2), (2, 3), (1, 2)], heap_table(11), 4, (3, 5, 6, 0, 7, 1, 2, 4));
}

proof fn lemma_chart_804()
    ensures
        chart_signature([(0, 2), (2, 3), (1, 2)], heap_table(12)) == chart_signature([(0, 1), (1, 3), (1, 2)], heap_table(14)),
{
    lemma_heap_entries();
    lemma_codes_of_word_33(heap_table(12));
    lemma_codes_of_word_19(heap_table(14));
    lemma_charts_agree_through([(0, 1), (1, 3), (1, 2)], heap_table(14), [(0, 2), (2, 3), (1, 2)], heap_table(12), 5, (5, 3, 7, 1, 6, 0, 4, 2));
}

proof fn lemma_chart_805()
    ensures
        chart_signature([(0, 2), (2, 3), (1, 2)], heap_table(13)) == chart_signature([(0, 1), (1, 3), (1, 2)], heap_table(16)),
{
    lemma_heap_entries();
    lemma_codes_of_word_33(heap_table(13));
    lemma_codes_of_word_19(heap_table(16));
    lemma_charts_agree_through([(0, 1), (1, 3), (1, 2)], heap_table(16), [(0, 2), (2, 3), (1, 2)], heap_table(13), 4, (3, 5, 6, 0, 7, 1, 2, 4));
}

proof fn lemma_chart_806()
    ensures
        chart_signature([(0, 2), (2, 3), (1, 2)], heap_table(14)) == chart_signature([(0, 1), (1, 3), (1, 2)], heap_table(16)),
{
    lemma_heap_entries();
    lemma_codes_of_word_33(heap_table(14));
    lemma_codes_of_word_19(heap_table(16));
    lemma_charts_agree_through([(0, 1), (1, 3), (1, 2)], heap_table(16), [(0, 2), (2, 3), (1, 2)], heap_table(14), 5, (5, 3, 7, 1, 6, 0, 4, 2));
}

proof fn lemma_chart_807()
    ensures
        chart_signature([(0, 2), (2, 3), (1, 2)], heap_table(15)) == chart_signature([(0, 1), (1, 3), (1, 2)], heap_table(12)),
{
    lemma_heap_entries();
    lemma_codes_of_word_33(heap_table(15));
    lemma_codes_of_word_19(heap_table(12));
    lemma_charts_agree_through([(0, 1), (1, 3), (1, 2)], heap_table(12), [(0, 2), (2, 3), (1, 2)], heap_table(15), 4, (3, 5, 6, 0, 7, 1, 2, 4));
}

proof fn lemma_chart_808()
    ensures
        chart_signature([(0, 2), (2, 3), (1, 2)], heap_table(16)) == chart_signature([(0, 1), (1, 3), (1, 2)], heap_table(12)),
{
    lemma_heap_entries();
    lemma_codes_of_word_33(heap_table(16));
    lemma_codes_of_word_19(heap_table(12));
    lemma_charts_agree_through([(0, 1), (1, 3), (1, 2)], heap_table(12), [(0, 2), (2, 3), (1, 2)], heap_table(16), 5, (5, 3, 7, 1, 6, 0, 4, 2));
}

proof fn lemma_chart_809()
    ensures
        chart_signature([(0, 2), (2, 3), (1, 2)], heap_table(17)) == chart_signature([(0, 1), (1, 3), (1, 2)], heap_table(14)),
{
    lemma_heap_entries();
    lemma_codes_of_word_33(heap_table(17));
    lemma_codes_of_word_19(heap_table(14));
    lemma_charts_agree_through([(0, 1), (1, 3), (1, 2)], heap_table(14), [(0, 2), (2, 3), (1, 2)], heap_table(17), 4, (3, 5, 6, 0, 7, 1, 2, 4));
}

proof fn lemma_chart_810()
    ensures
        chart_signature([(0, 2), (2, 3), (1, 2)], heap_table(18)) == chart_signature([(0, 1), (1, 3), (1, 2)], heap_table(20)),
{
    lemma_heap_entries();
    lemma_codes_of_word_33(heap_table(18));
    lemma_codes_of_word_19(heap_table(20));
    lemma_charts_agree_through([(0, 1), (1, 3), (1, 2)], heap_table(20), [(0, 2), (2, 3), (1, 2)], heap_table(18), 5, (5, 3, 7, 1, 6, 0, 4, 2));
}

proof fn lemma_chart_811()
    ensures
        chart_signature([(0, 2), (2, 3), (1, 2)], heap_table(19)) == chart_signature([(0, 1), (1, 3), (1, 2)], heap_table(22)),
{
    lemma_heap_entries();
    lemma_codes_of_word_33(heap_table(19));
    lemma_codes_of_word_19(heap_table(22));
    lemma_charts_agree_through([(0, 1), (1, 3), (1, 2)], heap_table(22), [(0, 2), (2, 3), (1, 2)], heap_table(19), 4, (3, 5, 6, 0, 7, 1, 2, 4));
}

proof fn lemma_chart_812()
    ensures
        chart_signature([(0, 2), (2, 3), (1, 2)], heap_table(20)) == chart_signature([(0, 1), (1, 3), (1, 2)], heap_table(22)),
{
    lemma_heap_entries();
    lemma_codes_of_word_33(heap_table(20));
    lemma_codes_of_word_19(heap_table(22));
    lemma_charts_agree_through([(0, 1), (1, 3), (1, 2)], heap_table(22), [(0, 2), (2, 3), (1, 2)], heap_table(20), 5, (5, 3, 7, 1, 6, 0, 4, 2));
}

proof fn lemma_chart_813()
    ensures
        chart_signature([(0, 2), (2, 3), (1, 2)], heap_table(21)) == chart_signature([(0, 1), (1, 3), (1, 2)], heap_table(18)),
{
    lemma_heap_entries();
    lemma_codes_of_word_33(heap_table(21));
    lemma_codes_of_word_19(heap_table(18));
    lemma_charts_agree_through([(0, 1), (1, 3), (1, 2)], heap_table(18), [(0, 2), (2, 3), (1, 2)], heap_table(21), 4, (3, 5, 6, 0, 7, 1, 2, 4));
}

proof fn lemma_chart_814()
    ensures
        chart_signature([(0, 2), (2, 3), (1, 2)], heap_table(22)) == chart_signature([(0, 1), (1, 3), (1, 2)], heap_table(18)),
{
    lemma_heap_entries();
    lemma_codes_of_word_33(heap_table(22));
    lemma_codes_of_word_19(heap_table(18));
    lemma_charts_agree_through([(0, 1), (1, 3), (1, 2)], heap_table(18), [(0, 2), (2, 3), (1, 2)], heap_table(22), 5, (5, 3, 7, 1, 6, 0, 4, 2));
}

proof fn lemma_chart_815()
    ensures
        chart_signature([(0, 2), (2, 3), (1, 2)], heap_table(23)) == chart_signature([(0, 1), (1, 3), (1, 2)], heap_table(20)),
{
    lemma_heap_entries();
    lemma_codes_of_word_33(heap_table(23));
    lemma_codes_of_word_19(heap_table(20));
    lemma_charts_agree_through([(0, 1), (1, 3), (1, 2)], heap_table(20), [(0, 2), (2, 3), (1, 2)], heap_table(23), 4, (3, 5, 6, 0, 7, 1, 2, 4));
}

/// Every chart of atlas word 33 shares its signature with the first chart
/// of a class below 216.
pub proof fn lemma_charts_of_word_33()
    ensures
        forall|t: int| 792 <= t < 816 ==> #[trigger] meets_class_below(t, 216),
{
    lemma_census_words();
    assert forall|t: int| 792 <= t < 816 implies #[trigger] meets_class_below(t, 216) by {
        if t == 792 { lemma_chart_792(); assert(atlas_signatures()[class_rep(115)] == atlas_signatures()[792]); }
        else if t == 793 { lemma_chart_793(); assert(atlas_signatures()[class_rep(116)] == atlas_signatures()[793]); }
        else if t == 794 { lemma_chart_794(); assert(atlas_signatures()[class_rep(116)] == atlas_signatures()[794]); }
        else if t == 795 { lemma_chart_795(); assert(atlas_signatures()[class_rep(114)] == atlas_signatures()[795]); }
        else if t == 796 { lemma_chart_796(); assert(atlas_signatures()[class_rep(114)] == atlas_signatures()[796]); }
        else if t == 797 { lemma_chart_797(); assert(atlas_signatures()[class_rep(115)] == atlas_signatures()[797]); }
        else if t == 798 { lemma_chart_798(); assert(atlas_signatures()[class_rep(118)] == atlas_signatures()[798]); }
        else if t == 799 { lemma_chart_799(); assert(atlas_signatures()[class_rep(119)] == atlas_signatures()[799]); }
        else if t == 800 { lemma_chart_800(); assert(atlas_signatures()[class_rep(119)] == atlas_signatures()[800]); }
        else if t == 801 { lemma_chart_801(); assert(atlas_signatures()[class_rep(117)] == atlas_signatures()[801]); }
        else if t == 802 { lemma_chart_802(); assert(atlas_signatures()[class_rep(117)] == atlas_signatures()[802]); }
        else if t == 803 { lemma_chart_803(); assert(atlas_signatures()[class_rep(118)] == atlas_signatures()[803]); }
        else if t == 804 { lemma_chart_804(); assert(atlas_signatures()[class_rep(121)] == atlas_signatures()[804]); }
        else if t == 805 { lemma_chart_805(); assert(atlas_signatures()[class_rep(122)] == atlas_signatures()[805]); }
        else if t == 806 { lemma_chart_806(); assert(atlas_signatures()[class_rep(122)] == atlas_signatures()[806]); }
        else if t == 807 { lemma_chart_807(); assert(atlas_signatures()[class_rep(120)] == atlas_signatures()[807]); }
        else if t == 808 { lemma_chart_808(); assert(atlas_signatures()[class_rep(120)] == atlas_signatures()[808]); }
        else if t == 809 { lemma_chart_809(); assert(atlas_signatures()[class_rep(121)] == atlas_signatures()[809]); }
        else if t == 810 { lemma_chart_810(); assert(atlas_signatures()[class_rep(124)] == atlas_signatures()[810]); }
        else if t == 811 { lemma_chart_811(); assert(atlas_signatures()[class_rep(125)] == atlas_signatures()[811]); }
        else if t == 812 { lemma_chart_812(); assert(atlas_signatures()[class_rep(125)] == atlas_signatures()[812]); }
        else if t == 813 { lemma_chart_813(); assert(atlas_signatures()[class_rep(123)] == atlas_signatures()[813]); }
        else if t == 814 { lemma_chart_814(); assert(atlas_signatures()[class_rep(123)] == atlas_signatures()[814]); }
        else { lemma_chart_815(); assert(atlas_signatures()[class_rep(124)] == atlas_signatures()[815]); }
    }
}

proof fn lemma_chart_816()
    ensures
        chart_signature([(0, 2), (2, 3), (1, 3)], heap_table(0)) == chart_signature([(0, 1), (1, 2), (1, 3)], heap_table(16)),
{
    lemma_heap_entries();
    lemma_codes_of_word_34(heap_table(0));
    lemma_codes_of_word_2(heap_table(16));
    lemma_charts_agree_through([(0, 1), (1, 2), (1, 3)], heap_table(16), [(0, 2), (2, 3), (1, 3)], heap_table(0), 6, (6, 7, 3, 2, 5, 4, 0, 1));
}

proof fn lemma_chart_817()
    ensures
        chart_signature([(0, 2), (2, 3), (1, 3)], heap_table(1)) == chart_signature([(0, 1), (1, 2), (1, 3)], heap_table(10)),
{
    lemma_heap_entries();
    lemma_codes_of_word_34(heap_table(1));
    lemma_codes_of_word_2(heap_table(10));
    lemma_charts_agree_through([(0, 1), (1, 2), (1, 3)], heap_table(10), [(0, 2), (2, 3), (1, 3)], heap_table(1), 6, (6, 7, 3, 2, 5, 4, 0, 1));
}

proof fn lemma_chart_818()
    ensures
        chart_signature([(0, 2), (2, 3), (1, 3)], heap_table(2)) == chart_signature([(0, 1), (1, 2), (1, 3)], heap_table(10)),
{
    lemma_heap_entries();
    lemma_codes_of_word_34(heap_table(2));
    lemma_codes_of_word_2(heap_table(10));
    lemma_charts_agree_through([(0, 1), (1, 2), (1, 3)], heap_table(10), [(0, 2), (2, 3), (1, 3)], heap_table(2), 7, (7, 6, 5, 4, 3, 2, 1, 0));
}

proof fn lemma_chart_819()
    ensures
        chart_signature([(0, 2), (2, 3), (1, 3)], heap_table(3)) == chart_signature([(0, 1), (1, 2), (1, 3)], heap_table(22)),
{
    lemma_heap_entries();
    lemma_codes_of_word_34(heap_table(3));
    lemma_codes_of_word_2(heap_table(22));
    lemma_charts_agree_through([(0, 1), (1, 2), (1, 3)], heap_table(22), [(0, 2), (2, 3), (1, 3)], heap_table(3), 6, (6, 7, 3, 2, 5, 4, 0, 1));
}

proof fn lemma_chart_820()
    ensures
        chart_signature([(0, 2), (2, 3), (1, 3)], heap_table(4)) == chart_signature([(0, 1), (1, 2), (1, 3)], heap_table(22)),
{
    lemma_heap_entries();
    lemma_codes_of_word_34(heap_table(4));
    lemma_codes_of_word_2(heap_table(22));
    lemma_charts_agree_through([(0, 1), (1, 2), (1, 3)], heap_table(22), [(0, 2), (2, 3), (1, 3)], heap_table(4), 7, (7, 6, 5, 4, 3, 2, 1, 0));
}

proof fn lemma_chart_821()
    ensures
        chart_signature([(0, 2), (2, 3), (1, 3)], heap_table(5)) == chart_signature([(0, 1), (1, 2), (1, 3)], heap_table(16)),
{
    lemma_heap_entries();
    lemma_codes_of_word_34(heap_table(5));
    lemma_codes_of_word_2(heap_table(16));
    lemma_charts_agree_through([(0, 1), (1, 2), (1, 3)], heap_table(16), [(0, 2), (2, 3), (1, 3)], heap_table(5), 7, (7, 6, 5, 4, 3, 2, 1, 0));
}

proof fn lemma_chart_822()
    ensures
        chart_signature([(0, 2), (2, 3), (1, 3)], heap_table(6)) == chart_signature([(0, 1), (1, 2), (1, 3)], heap_table(14)),
{
    lemma_heap_entries();
    lemma_codes_of_word_34(heap_table(6));
    lemma_codes_of_word_2(heap_table(14));
    lemma_charts_agree_through([(0, 1), (1, 2), (1, 3)], heap_table(14), [(0, 2), (2, 3), (1, 3)], heap_table(6), 7, (7, 6, 5, 4, 3, 2, 1, 0));
}

proof fn lemma_chart_823()
    ensures
        chart_signature([(0, 2), (2, 3), (1, 3)], heap_table(7)) == chart_signature([(0, 1), (1, 2), (1, 3)], heap_table(4)),
{
    lemma_heap_entries();
    lemma_codes_of_word_34(heap_table(7));
    lemma_codes_of_word_2(heap_table(4));
    lemma_charts_agree_through([(0, 1), (1, 2), (1, 3)], heap_table(4), [(0, 2), (2, 3), (1, 3)], heap_table(7), 6, (6, 7, 3, 2, 5, 4, 0, 1));
}

proof fn lemma_chart_824()
    ensures
        chart_signature([(0, 2), (2, 3), (1, 3)], heap_table(8)) == chart_signature([(0, 1), (1, 2), (1, 3)], heap_table(4)),
{
    lemma_heap_entries();
    lemma_codes_of_word_34(heap_table(8));
    lemma_codes_of_word_2(heap_table(4));
    lemma_charts_agree_through([(0, 1), (1, 2), (1, 3)], heap_table(4), [(0, 2), (2, 3), (1, 3)], heap_table(8), 7, (7, 6, 5, 4, 3, 2, 1, 0));
}

proof fn lemma_chart_825()
    ensures
        chart_signature([(0, 2), (2, 3), (1, 3)], heap_table(9)) == chart_signature([(0, 1), (1, 2), (1, 3)], heap_table(20)),
{
    lemma_heap_entries();
    lemma_codes_of_word_34(heap_table(9));
    lemma_codes_of_word_2(heap_table(20));
    lemma_charts_agree_through([(0, 1), (1, 2), (1, 3)], heap_table(20), [(0, 2), (2, 3), (1, 3)], heap_table(9), 7, (7, 6, 5, 4, 3, 2, 1, 0));
}

proof fn lemma_chart_826()
    ensures
        chart_signature([(0, 2), (2, 3), (1, 3)], heap_table(10)) == chart_signature([(0, 1), (1, 2), (1, 3)], heap_table(20)),
{
    lemma_heap_entries();
    lemma_codes_of_word_34(heap_table(10));
    lemma_codes_of_word_2(heap_table(20));
    lemma_charts_agree_through([(0, 1), (1, 2), (1, 3)], heap_table(20), [(0, 2), (2, 3), (1, 3)], heap_table(10), 6, (6, 7, 3, 2, 5, 4, 0, 1));
}

proof fn lemma_chart_827()
    ensures
        chart_signature([(0, 2), (2, 3), (1, 3)], heap_table(11)) == chart_signature([(0, 1), (1, 2), (1, 3)], heap_table(14)),
{
    lemma_heap_entries();
    lemma_codes_of_word_34(heap_table(11));
    lemma_codes_of_word_2(heap_table(14));
    lemma_charts_agree_through([(0, 1), (1, 2), (1, 3)], heap_table(14), [(0, 2), (2, 3), (1, 3)], heap_table(11), 6, (6, 7, 3, 2, 5, 4, 0, 1));
}

proof fn lemma_chart_828()
    ensures
        chart_signature([(0, 2), (2, 3), (1, 3)], heap_table(12)) == chart_signature([(0, 1), (1, 2), (1, 3)], heap_table(8)),
{
    lemma_heap_entries();
    lemma_codes_of_word_34(heap_table(12));
    lemma_codes_of_word_2(heap_table(8));
    lemma_charts_agree_through([(0, 1), (1, 2), (1, 3)], heap_table(8), [(0, 2), (2, 3), (1, 3)], heap_table(12), 7, (7, 6, 5, 4, 3, 2, 1, 0));
}

proof fn lemma_chart_829()
    ensures
        chart_signature([(0, 2), (2, 3), (1, 3)], heap_table(13)) == chart_signature([(0, 1), (1, 2), (1, 3)], heap_table(2)),
{
    lemma_heap_entries();
    lemma_codes_of_word_34(heap_table(13));
    lemma_codes_of_word_2(heap_table(2));
    lemma_charts_agree_through([(0, 1), (1, 2), (1, 3)], heap_table(2), [(0, 2), (2, 3), (1, 3)], heap_table(13), 7, (7, 6, 5, 4, 3, 2, 1, 0));
}

proof fn lemma_chart_830()
    ensures
        chart_signature([(0, 2), (2, 3), (1, 3)], heap_table(14)) == chart_signature([(0, 1), (1, 2), (1, 3)], heap_table(2)),
{
    lemma_heap_entries();
    lemma_codes_of_word_34(heap_table(14));
    lemma_codes_of_word_2(heap_table(2));
    lemma_charts_agree_through([(0, 1), (1, 2), (1, 3)], heap_table(2), [(0, 2), (2, 3), (1, 3)], heap_table(14), 6, (6, 7, 3, 2, 5, 4, 0, 1));
}

proof fn lemma_chart_831()
    ensures
        chart_signature([(0, 2), (2, 3), (1, 3)], heap_table(15)) == chart_signature([(0, 1), (1, 2), (1, 3)], heap_table(18)),
{
    lemma_heap_entries();
    lemma_codes_of_word_34(heap_table(15));
    lemma_codes_of_word_2(heap_table(18));
    lemma_charts_agree_through([(0, 1), (1, 2), (1, 3)], heap_table(18), [(0, 2), (2, 3), (1, 3)], heap_table(15), 6, (6, 7, 3, 2, 5, 4, 0, 1));
}

proof fn lemma_chart_832()
    ensures
        chart_signature([(0, 2), (2, 3), (1, 3)], heap_table(16)) == chart_signature([(0, 1), (1, 2), (1, 3)], heap_table(18)),
{
    lemma_heap_entries();
    lemma_codes_of_word_34(heap_table(16));
    lemma_codes_of_word_2(heap_table(18));
    lemma_charts_agree_through([(0, 1), (1, 2), (1, 3)], heap_table(18), [(0, 2), (2, 3), (1, 3)], heap_table(16), 7, (7, 6, 5, 4, 3, 2, 1, 0));
}

proof fn lemma_chart_833()
    ensures
        chart_signature([(0, 2), (2, 3), (1, 3)], heap_table(17)) == chart_signature([(0, 1), (1, 2), (1, 3)], heap_table(8)),
{
    lemma_heap_entries();
    lemma_codes_of_word_34(heap_table(17));
    lemma_codes_of_word_2(heap_table(8));
    lemma_charts_agree_through([(0, 1), (1, 2), (1, 3)], heap_table(8), [(0, 2), (2, 3), (1, 3)], heap_table(17), 6, (6, 7, 3, 2, 5, 4, 0, 1));
}

proof fn lemma_chart_834()
    ensures
        chart_signature([(0, 2), (2, 3), (1, 3)], heap_table(18)) == chart_signature([(0, 1), (1, 2), (1, 3)], heap_table(6)),
{
    lemma_heap_entries();
    lemma_codes_of_word_34(heap_table(18));
    lemma_codes_of_word_2(heap_table(6));
    lemma_charts_agree_through([(0, 1), (1, 2), (1, 3)], heap_table(6), [(0, 2), (2, 3), (1, 3)], heap_table(18), 6, (6, 7, 3, 2, 5, 4, 0, 1));
}

proof fn lemma_chart_835()
    ensures
        chart_signature([(0, 2), (2, 3), (1, 3)], heap_table(19)) == chart_signature([(0, 1), (1, 2), (1, 3)], heap_table(0)),
{
    lemma_heap_entries();
    lemma_codes_of_word_34(heap_table(19));
    lemma_codes_of_word_2(heap_table(0));
    lemma_charts_agree_through([(0, 1), (1, 2), (1, 3)], heap_table(0), [(0, 2), (2, 3), (1, 3)], heap_table(19), 6, (6, 7, 3, 2, 5, 4, 0, 1));
}

proof fn lemma_chart_836()
    ensures
        chart_signature([(0, 2), (2, 3), (1, 3)], heap_table(20)) == chart_signature([(0, 1), (1, 2), (1, 3)], heap_table(0)),
{
    lemma_heap_entries();
    lemma_codes_of_word_34(heap_table(20));
    lemma_codes_of_word_2(heap_table(0));
    lemma_charts_agree_through([(0, 1), (1, 2), (1, 3)], heap_table(0), [(0, 2), (2, 3), (1, 3)], heap_table(20), 7, (7, 6, 5, 4, 3, 2, 1, 0));
}

proof fn lemma_chart_837()
    ensures
        chart_signature([(0, 2), (2, 3), (1, 3)], heap_table(21)) == chart_signature([(0, 1), (1, 2), (1, 3)], heap_table(12)),
{
    lemma_heap_entries();
    lemma_codes_of_word_34(heap_table(21));
    lemma_codes_of_word_2(heap_table(12));
    lemma_charts_agree_through([(0, 1), (1, 2), (1, 3)], heap_table(12), [(0, 2), (2, 3), (1, 3)], heap_table(21), 6, (6, 7, 3, 2, 5, 4, 0, 1));
}

proof fn lemma_chart_838()
    ensures
        chart_signature([(0, 2), (2, 3), (1, 3)], heap_table(22)) == chart_signature([(0, 1), (1, 2), (1, 3)], heap_table(12)),
{
    lemma_heap_entries();
    lemma_codes_of_word_34(heap_table(22));
    lemma_codes_of_word_2(heap_table(12));
    lemma_charts_agree_through([(0, 1), (1, 2), (1, 3)], heap_table(12), [(0, 2), (2, 3), (1, 3)], heap_table(22), 7, (7, 6, 5, 4, 3, 2, 1, 0));
}

proof fn lemma_chart_839()
    ensures
        chart_signature([(0, 2), (2, 3), (1, 3)], heap_table(23)) == chart_signature([(0, 1), (1, 2), (1, 3)], heap_table(6)),
{
    lemma_heap_entries();
    lemma_codes_of_word_34(heap_table(23));
    lemma_codes_of_word_2(heap_table(6));
    lemma_charts_agree_through([(0, 1), (1, 2), (1, 3)], heap_table(6), [(0, 2), (2, 3), (1, 3)], heap_table(23), 7, (7, 6, 5, 4, 3, 2, 1, 0));
}

/// Every chart of atlas word 34 shares its signature with the first chart
/// of a class below 216.
pub proof fn lemma_charts_of_word_34()
    ensures
        forall|t: int| 816 <= t < 840 ==> #[trigger] meets_class_below(t, 216),
{
    lemma_census_words();
    assert forall|t: int| 816 <= t < 840 implies #[trigger] meets_class_below(t, 216) by {
        if t == 816 { lemma_chart_816(); assert(atlas_signatures()[class_rep(32)] == atlas_signatures()[816]); }
        else if t == 817 { lemma_chart_817(); assert(atlas_signatures()[class_rep(29)] == atlas_signatures()[817]); }
        else if t == 818 { lemma_chart_818(); assert(atlas_signatures()[class_rep(29)] == atlas_signatures()[818]); }
        else if t == 819 { lemma_chart_819(); assert(atlas_signatures()[class_rep(35)] == atlas_signatures()[819]); }
        else if t == 820 { lemma_chart_820(); assert(atlas_signatures()[class_rep(35)] == atlas_signatures()[820]); }
        else if t == 821 { lemma_chart_821(); assert(atlas_signatures()[class_rep(32)] == atlas_signatures()[821]); }
        else if t == 822 { lemma_chart_822(); assert(atlas_signatures()[class_rep(31)] == atlas_signatures()[822]); }
        else if t == 823 { lemma_chart_823(); assert(atlas_signatures()[class_rep(26)] == atlas_signatures()[823]); }
        else if t == 824 { lemma_chart_824(); assert(atlas_signatures()[class_rep(26)] == atlas_signatures()[824]); }
        else if t == 825 { lemma_chart_825(); assert(atlas_signatures()[class_rep(34)] == atlas_signatures()[825]); }
        else if t == 826 { lemma_chart_826(); assert(atlas_signatures()[class_rep(34)] == atlas_signatures()[826]); }
        else if t == 827 { lemma_chart_827(); assert(atlas_signatures()[class_rep(31)] == atlas_signatures()[827]); }
        else if t == 828 { lemma_chart_828(); assert(atlas_signatures()[class_rep(28)] == atlas_signatures()[828]); }
        else if t == 829 { lemma_chart_829(); assert(atlas_signatures()[class_rep(25)] == atlas_signatures()[829]); }
        else if t == 830 { lemma_chart_830(); assert(atlas_signatures()[class_rep(25)] == atlas_signatures()[830]); }
        else if t == 831 { lemma_chart_831(); assert(atlas_signatures()[class_rep(33)] == atlas_signatures()[831]); }
        else if t == 832 { lemma_chart_832(); assert(atlas_signatures()[class_rep(33)] == atlas_signatures()[832]); }
        else if t == 833 { lemma_chart_833(); assert(atlas_signatures()[class_rep(28)] == atlas_signatures()[833]); }
        else if t == 834 { lemma_chart_834(); assert(atlas_signatures()[class_rep(27)] == atlas_signatures()[834]); }
        else if t == 835 { lemma_chart_835(); assert(atlas_signatures()[class_rep(24)] == atlas_signatures()[835]); }
        else if t == 836 { lemma_chart_836(); assert(atlas_signatures()[class_rep(24)] == atlas_signatures()[836]); }
        else if t == 837 { lemma_chart_837(); assert(atlas_signatures()[class_rep(30)] == atlas_signatures()[837]); }
        else if t == 838 { lemma_chart_838(); assert(atlas_signatures()[class_rep(30)] == atlas_signatures()[838]); }
        else { lemma_chart_839(); assert(atlas_signatures()[class_rep(27)] == atlas_signatures()[839]); }
    }
}

proof fn lemma_chart_846()
    ensures
        chart_signature([(0, 3), (0, 1), (0, 2)], heap_table(6)) == chart_signature([(0, 3), (0, 1), (0, 2)], heap_table(0)),
{
    lemma_heap_entries();
    lemma_codes_of_word_35(heap_table(6));
    lemma_codes_of_word_35(heap_table(0));
    lemma_charts_agree_through([(0, 3), (0, 1), (0, 2)], heap_table(0), [(0, 3), (0, 1), (0, 2)], heap_table(6), 1, (1, 0, 4, 5, 2, 3, 7, 6));
}

proof fn lemma_chart_849()
    ensures
        chart_signature([(0, 3), (0, 1), (0, 2)], heap_table(9)) == chart_signature([(0, 3), (0, 1), (0, 2)], heap_table(3)),
{
    lemma_heap_entries();
    lemma_codes_of_word_35(heap_table(9));
    lemma_codes_of_word_35(heap_table(3));
    lemma_charts_agree_through([(0, 3), (0, 1), (0, 2)], heap_table(3), [(0, 3), (0, 1), (0, 2)], heap_table(9), 1, (1, 0, 4, 5, 2, 3, 7, 6));
}

proof fn lemma_chart_852()
    ensures
        chart_signature([(0, 3), (0, 1), (0, 2)], heap_table(12)) == chart_signature([(0, 3), (0, 1), (0, 2)], heap_table(1)),
{
    lemma_heap_entries();
    lemma_codes_of_word_35(heap_table(12));
    lemma_codes_of_word_35(heap_table(1));
    lemma_charts_agree_through([(0, 3), (0, 1), (0, 2)], heap_table(1), [(0, 3), (0, 1), (0, 2)], heap_table(12), 1, (1, 0, 4, 5, 2, 3, 7, 6));
}

proof fn lemma_chart_853()
    ensures
        chart_signature([(0, 3), (0, 1), (0, 2)], heap_table(13)) == chart_signature([(0, 3), (0, 1), (0, 2)], heap_table(7)),
{
    lemma_heap_entries();
    lemma_codes_of_word_35(heap_table(13));
    lemma_codes_of_word_35(heap_table(7));
    lemma_charts_agree_through([(0, 3), (0, 1), (0, 2)], heap_table(7), [(0, 3), (0, 1), (0, 2)], heap_table(13), 1, (1, 0, 4, 5, 2, 3, 7, 6));
}

proof fn lemma_chart_855()
    ensures
        chart_signature([(0, 3), (0, 1), (0, 2)], heap_table(15)) == chart_signature([(0, 3), (0, 1), (0, 2)], heap_table(4)),
{
    lemma_heap_entries();
    lemma_codes_of_word_35(heap_table(15));
    lemma_codes_of_word_35(heap_table(4));
    lemma_charts_agree_through([(0, 3), (0, 1), (0, 2)], heap_table(4), [(0, 3), (0, 1), (0, 2)], heap_table(15), 1, (1, 0, 4, 5, 2, 3, 7, 6));
}

proof fn lemma_chart_856()
    ensures
        chart_signature([(0, 3), (0, 1), (0, 2)], heap_table(16)) == chart_signature([(0, 3), (0, 1), (0, 2)], heap_table(10)),
{
    lemma_heap_entries();
    lemma_codes_of_word_35(heap_table(16));
    lemma_codes_of_word_35(heap_table(10));
    lemma_charts_agree_through([(0, 3), (0, 1), (0, 2)], heap_table(10), [(0, 3), (0, 1), (0, 2)], heap_table(16), 1, (1, 0, 4, 5, 2, 3, 7, 6));
}

proof fn lemma_chart_858()
    ensures
        chart_signature([(0, 3), (0, 1), (0, 2)], heap_table(18)) == chart_signature([(0, 3), (0, 1), (0, 2)], heap_table(2)),
{
    lemma_heap_entries();
    lemma_codes_of_word_35(heap_table(18));
    lemma_codes_of_word_35(heap_table(2));
    lemma_charts_agree_through([(0, 3), (0, 1), (0, 2)], heap_table(2), [(0, 3), (0, 1), (0, 2)], heap_table(18), 1, (1, 0, 4, 5, 2, 3, 7, 6));
}

proof fn lemma_chart_859()
    ensures
        chart_signature([(0, 3), (0, 1), (0, 2)], heap_table(19)) == chart_signature([(0, 3), (0, 1), (0, 2)], heap_table(8)),
{
    lemma_heap_entries();
    lemma_codes_of_word_35(heap_table(19));
    lemma_codes_of_word_35(heap_table(8));
    lemma_charts_agree_through([(0, 3), (0, 1), (0, 2)], heap_table(8), [(0, 3), (0, 1), (0, 2)], heap_table(19), 1, (1, 0, 4, 5, 2, 3, 7, 6));
}

proof fn lemma_chart_860()
    ensures
        chart_signature([(0, 3), (0, 1), (0, 2)], heap_table(20)) == chart_signature([(0, 3), (0, 1), (0, 2)], heap_table(14)),
{
    lemma_heap_entries();
    lemma_codes_of_word_35(heap_table(20));
    lemma_codes_of_word_35(heap_table(14));
    lemma_charts_agree_through([(0, 3), (0, 1), (0, 2)], heap_table(14), [(0, 3), (0, 1), (0, 2)], heap_table(20), 1, (1, 0, 4, 5, 2, 3, 7, 6));
}

proof fn lemma_chart_861()
    ensures
        chart_signature([(0, 3), (0, 1), (0, 2)], heap_table(21)) == chart_signature([(0, 3), (0, 1), (0, 2)], heap_table(5)),
{
    lemma_heap_entries();
    lemma_codes_of_word_35(heap_table(21));
    lemma_codes_of_word_35(heap_table(5));
    lemma_charts_agree_through([(0, 3), (0, 1), (0, 2)], heap_table(5), [(0, 3), (0, 1), (0, 2)], heap_table(21), 1, (1, 0, 4, 5, 2, 3, 7, 6));
}

proof fn lemma_chart_862()
    ensures
        chart_signature([(0, 3), (0, 1), (0, 2)], heap_table(22)) == chart_signature([(0, 3), (0, 1), (0, 2)], heap_table(11)),
{
    lemma_heap_entries();
    lemma_codes_of_word_35(heap_table(22));
    lemma_codes_of_word_35(heap_table(11));
    lemma_charts_agree_through([(0, 3), (0, 1), (0, 2)], heap_table(11), [(0, 3), (0, 1), (0, 2)], heap_table(22), 1, (1, 0, 4, 5, 2, 3, 7, 6));
}

proof fn lemma_chart_863()
    ensures
        chart_signature([(0, 3), (0, 1), (0, 2)], heap_table(23)) == chart_signature([(0, 3), (0, 1), (0, 2)], heap_table(17)),
{
    lemma_heap_entries();
    lemma_codes_of_word_35(heap_table(23));
    lemma_codes_of_word_35(heap_table(17));
    lemma_charts_agree_through([(0, 3), (0, 1), (0, 2)], heap_table(17), [(0, 3), (0, 1), (0, 2)], heap_table(23), 1, (1, 0, 4, 5, 2, 3, 7, 6));
}

/// Every chart of atlas word 35 shares its signature with the first chart
/// of a class below 216.
pub proof fn lemma_charts_of_word_35()
    ensures
        forall|t: int| 840 <= t < 864 ==> #[trigger] meets_class_below(t, 216),
{
    lemma_census_words();
    assert forall|t: int| 840 <= t < 864 implies #[trigger] meets_class_below(t, 216) by {
        if t == 840 { assert(atlas_signatures()[class_rep(180)] == atlas_signatures()[840]); }
        else if t == 841 { assert(atlas_signatures()[class_rep(181)] == atlas_signatures()[841]); }
        else if t == 842 { assert(atlas_signatures()[class_rep(182)] == atlas_signatures()[842]); }
        else if t == 843 { assert(atlas_signatures()[class_rep(183)] == atlas_signatures()[843]); }
        else if t == 844 { assert(atlas_signatures()[class_rep(184)] == atlas_signatures()[844]); }
        else if t == 845 { assert(atlas_signatures()[class_rep(185)] == atlas_signatures()[845]); }
        else if t == 846 { lemma_chart_846(); assert(atlas_signatures()[class_rep(180)] == atlas_signatures()[846]); }
        else if t == 847 { assert(atlas_signatures()[class_rep(186)] == atlas_signatures()[847]); }
        else if t == 848 { assert(atlas_signatures()[class_rep(187)] == atlas_signatures()[848]); }
        else if t == 849 { lemma_chart_849(); assert(atlas_signatures()[class_rep(183)] == atlas_signatures()[849]); }
        else if t == 850 { assert(atlas_signatures()[class_rep(188)] == atlas_signatures()[850]); }
        else if t == 851 { assert(atlas_signatures()[class_rep(189)] == atlas_signatures()[851]); }
        else if t == 852 { lemma_chart_852(); assert(atlas_signatures()[class_rep(181)] == atlas_signatures()[852]); }
        else if t == 853 { lemma_chart_853(); assert(atlas_signatures()[class_rep(186)] == atlas_signatures()[853]); }
        else if t == 854 { assert(atlas_signatures()[class_rep(190)] == atlas_signatures()[854]); }
        else if t == 855 { lemma_chart_855(); assert(atlas_signatures()[class_rep(184)] == atlas_signatures()[855]); }
        else if t == 856 { lemma_chart_856(); assert(atlas_signatures()[class_rep(188)] == atlas_signatures()[856]); }
        else if t == 857 { assert(atlas_signatures()[class_rep(191)] == atlas_signatures()[857]); }
        else if t == 858 { lemma_chart_858(); assert(atlas_signatures()[class_rep(182)] == atlas_signatures()[858]); }
        else if t == 859 { lemma_chart_859(); assert(atlas_signatures()[class_rep(187)] == atlas_signatures()[859]); }
        else if t == 860 { lemma_chart_860(); assert(atlas_signatures()[class_rep(190)] == atlas_signatures()[860]); }
        else if t == 861 { lemma_chart_861(); assert(atlas_signatures()[class_rep(185)] == atlas_signatures()[861]); }
        else if t == 862 { lemma_chart_862(); assert(atlas_signatures()[class_rep(189)] == atlas_signatures()[862]); }
        else { lemma_chart_863(); assert(atlas_signatures()[class_rep(191)] == atlas_signatures()[863]); }
    }
}

proof fn lemma_chart_870()
    ensures
        chart_signature([(0, 3), (0, 1), (1, 2)], heap_table(6)) == chart_signature([(0, 3), (0, 1), (1, 2)], heap_table(0)),
{
    lemma_heap_entries();
    lemma_codes_of_word_36(heap_table(6));
    lemma_codes_of_word_36(heap_table(0));
    lemma_charts_agree_through([(0, 3), (0, 1), (1, 2)], heap_table(0), [(0, 3), (0, 1), (1, 2)], heap_table(6), 1, (1, 0, 4, 5, 2, 3, 7, 6));
}

proof fn lemma_chart_873()
    ensures
        chart_signature([(0, 3), (0, 1), (1, 2)], heap_table(9)) == chart_signature([(0, 3), (0, 1), (1, 2)], heap_table(3)),
{
    lemma_heap_entries();
    lemma_codes_of_word_36(heap_table(9));
    lemma_codes_of_word_36(heap_table(3));
    lemma_charts_agree_through([(0, 3), (0, 1), (1, 2)], heap_table(3), [(0, 3), (0, 1), (1, 2)], heap_table(9), 1, (1, 0, 4, 5, 2, 3, 7, 6));
}

proof fn lemma_chart_876()
    ensures
        chart_signature([(0, 3), (0, 1), (1, 2)], heap_table(12)) == chart_signature([(0, 3), (0, 1), (1, 2)], heap_table(1)),
{
    lemma_heap_entries();
    lemma_codes_of_word_36(heap_table(12));
    lemma_codes_of_word_36(heap_table(1));
    lemma_charts_agree_through([(0, 3), (0, 1), (1, 2)], heap_table(1), [(0, 3), (0, 1), (1, 2)], heap_table(12), 1, (1, 0, 4, 5, 2, 3, 7, 6));
}

proof fn lemma_chart_877()
    ensures
        chart_signature([(0, 3), (0, 1), (1, 2)], heap_table(13)) == chart_signature([(0, 3), (0, 1), (1, 2)], heap_table(7)),
{
    lemma_heap_entries();
    lemma_codes_of_word_36(heap_table(13));
    lemma_codes_of_word_36(heap_table(7));
    lemma_charts_agree_through([(0, 3), (0, 1), (1, 2)], heap_table(7), [(0, 3), (0, 1), (1, 2)], heap_table(13), 1, (1, 0, 4, 5, 2, 3, 7, 6));
}

proof fn lemma_chart_879()
    ensures
        chart_signature([(0, 3), (0, 1), (1, 2)], heap_table(15)) == chart_signature([(0, 3), (0, 1), (1, 2)], heap_table(4)),
{
    lemma_heap_entries();
    lemma_codes_of_word_36(heap_table(15));
    lemma_codes_of_word_36(heap_table(4));
    lemma_charts_agree_through([(0, 3), (0, 1), (1, 2)], heap_table(4), [(0, 3), (0, 1), (1, 2)], heap_table(15), 1, (1, 0, 4, 5, 2, 3, 7, 6));
}

proof fn lemma_chart_880()
    ensures
        chart_signature([(0, 3), (0, 1), (1, 2)], heap_table(16)) == chart_signature([(0, 3), (0, 1), (1, 2)], heap_table(10)),
{
    lemma_heap_entries();
    lemma_codes_of_word_36(heap_table(16));
    lemma_codes_of_word_36(heap_table(10));
    lemma_charts_agree_through([(0, 3), (0, 1), (1, 2)], heap_table(10), [(0, 3), (0, 1), (1, 2)], heap_table(16), 1, (1, 0, 4, 5, 2, 3, 7, 6));
}

proof fn lemma_chart_882()
    ensures
        chart_signature([(0, 3), (0, 1), (1, 2)], heap_table(18)) == chart_signature([(0, 3), (0, 1), (1, 2)], heap_table(2)),
{
    lemma_heap_entries();
    lemma_codes_of_word_36(heap_table(18));
    lemma_codes_of_word_36(heap_table(2));
    lemma_charts_agree_through([(0, 3), (0, 1), (1, 2)], heap_table(2), [(0, 3), (0, 1), (1, 2)], heap_table(18), 1, (1, 0, 4, 5, 2, 3, 7, 6));
}

proof fn lemma_chart_883()
    ensures
        chart_signature([(0, 3), (0, 1), (1, 2)], heap_table(19)) == chart_signature([(0, 3), (0, 1), (1, 2)], heap_table(8)),
{
    lemma_heap_entries();
    lemma_codes_of_word_36(heap_table(19));
    lemma_codes_of_word_36(heap_table(8));
    lemma_charts_agree_through([(0, 3), (0, 1), (1, 2)], heap_table(8), [(0, 3), (0, 1), (1, 2)], heap_table(19), 1, (1, 0, 4, 5, 2, 3, 7, 6));
}

proof fn lemma_chart_884()
    ensures
        chart_signature([(0, 3), (0, 1), (1, 2)], heap_table(20)) == chart_signature([(0, 3), (0, 1), (1, 2)], heap_table(14)),
{
    lemma_heap_entries();
    lemma_codes_of_word_36(heap_table(20));
    lemma_codes_of_word_36(heap_table(14));
    lemma_charts_agree_through([(0, 3), (0, 1), (1, 2)], heap_table(14), [(0, 3), (0, 1), (1, 2)], heap_table(20), 1, (1, 0, 4, 5, 2, 3, 7, 6));
}

proof fn lemma_chart_885()
    ensures
        chart_signature([(0, 3), (0, 1), (1, 2)], heap_table(21)) == chart_signature([(0, 3), (0, 1), (1, 2)], heap_table(5)),
{
    lemma_heap_entries();
    lemma_codes_of_word_36(heap_table(21));
    lemma_codes_of_word_36(heap_table(5));
    lemma_charts_agree_through([(0, 3), (0, 1), (1, 2)], heap_table(5), [(0, 3), (0, 1), (1, 2)], heap_table(21), 1, (1, 0, 4, 5, 2, 3, 7, 6));
}

proof fn lemma_chart_886()
    ensures
        chart_signature([(0, 3), (0, 1), (1, 2)], heap_table(22)) == chart_signature([(0, 3), (0, 1), (1, 2)], heap_table(11)),
{
    lemma_heap_entries();
    lemma_codes_of_word_36(heap_table(22));
    lemma_codes_of_word_36(heap_table(11));
    lemma_charts_agree_through([(0, 3), (0, 1), (1, 2)], heap_table(11), [(0, 3), (0, 1), (1, 2)], heap_table(22), 1, (1, 0, 4, 5, 2, 3, 7, 6));
}

proof fn lemma_chart_887()
    ensures
        chart_signature([(0, 3), (0, 1), (1, 2)], heap_table(23)) == chart_signature([(0, 3), (0, 1), (1, 2)], heap_table(17)),
{
    lemma_heap_entries();
    lemma_codes_of_word_36(heap_table(23));
    lemma_codes_of_word_36(heap_table(17));
    lemma_charts_agree_through([(0, 3), (0, 1), (1, 2)], heap_table(17), [(0, 3), (0, 1), (1, 2)], heap_table(23), 1, (1, 0, 4, 5, 2, 3, 7, 6));
}

/// Every chart of atlas word 36 shares its signature with the first chart
/// of a class below 216.
pub proof fn lemma_charts_of_word_36()
    ensures
        forall|t: int| 864 <= t < 888 ==> #[trigger] meets_class_below(t, 216),
{
    lemma_census_words();
    assert forall|t: int| 864 <= t < 888 implies #[trigger] meets_class_below(t, 216) by {
        if t == 864 { assert(atlas_signatures()[class_rep(192)] == atlas_signatures()[864]); }
        else if t == 865 { assert(atlas_signatures()[class_rep(193)] == atlas_signatures()[865]); }
        else if t == 866 { assert(atlas_signatures()[class_rep(194)] == atlas_signatures()[866]); }
        else if t == 867 { assert(atlas_signatures()[class_rep(195)] == atlas_signatures()[867]); }
        else if t == 868 { assert(atlas_signatures()[class_rep(196)] == atlas_signatures()[868]); }
        else if t == 869 { assert(atlas_signatures()[class_rep(197)] == atlas_signatures()[869]); }
        else if t == 870 { lemma_chart_870(); assert(atlas_signatures()[class_rep(192)] == atlas_signatures()[870]); }
        else if t == 871 { assert(atlas_signatures()[class_rep(198)] == atlas_signatures()[871]); }
        else if t == 872 { assert(atlas_signatures()[class_rep(199)] == atlas_signatures()[872]); }
        else if t == 873 { lemma_chart_873(); assert(atlas_signatures()[class_rep(195)] == atlas_signatures()[873]); }
        else if t == 874 { assert(atlas_signatures()[class_rep(200)] == atlas_signatures()[874]); }
        else if t == 875 { assert(atlas_signatures()[class_rep(201)] == atlas_signatures()[875]); }
        else if t == 876 { lemma_chart_876(); assert(atlas_signatures()[class_rep(193)] == atlas_signatures()[876]); }
        else if t == 877 { lemma_chart_877(); assert(atlas_signatures()[class_rep(198)] == atlas_signatures()[877]); }
        else if t == 878 { assert(atlas_signatures()[class_rep(202)] == atlas_signatures()[878]); }
        else if t == 879 { lemma_chart_879(); assert(atlas_signatures()[class_rep(196)] == atlas_signatures()[879]); }
        else if t == 880 { lemma_chart_880(); assert(atlas_signatures()[class_rep(200)] == atlas_signatures()[880]); }
        else if t == 881 { assert(atlas_signatures()[class_rep(203)] == atlas_signatures()[881]); }
        else if t == 882 { lemma_chart_882(); assert(atlas_signatures()[class_rep(194)] == atlas_signatures()[882]); }
        else if t == 883 { lemma_chart_883(); assert(atlas_signatures()[class_rep(199)] == atlas_signatures()[883]); }
        else if t == 884 { lemma_chart_884(); assert(atlas_signatures()[class_rep(202)] == atlas_signatures()[884]); }
        else if t == 885 { lemma_chart_885(); assert(atlas_signatures()[class_rep(197)] == atlas_signatures()[885]); }
        else if t == 886 { lemma_chart_886(); assert(atlas_signatures()[class_rep(201)] == atlas_signatures()[886]); }
        else { lemma_chart_887(); assert(atlas_signatures()[class_rep(203)] == atlas_signatures()[887]); }
    }
}

proof fn lemma_chart_888()
    ensures
        chart_signature([(0, 3), (0, 1), (2, 3)], heap_table(0)) == chart_signature([(0, 2), (0, 1), (2, 3)], heap_table(21)),
{
    lemma_heap_entries();
    lemma_codes_of_word_37(heap_table(0));
    lemma_codes_of_word_26(heap_table(21));
    lemma_charts_agree_through([(0, 2), (0, 1), (2, 3)], heap_table(21), [(0, 3), (0, 1), (2, 3)], heap_table(0), 5, (5, 3, 7, 1, 6, 0, 4, 2));
}

proof fn lemma_chart_889()
    ensures
        chart_signature([(0, 3), (0, 1), (2, 3)], heap_table(1)) == chart_signature([(0, 2), (0, 1), (2, 3)], heap_table(18)),
{
    lemma_heap_entries();
    lemma_codes_of_word_37(heap_table(1));
    lemma_codes_of_word_26(heap_table(18));
    lemma_charts_agree_through([(0, 2), (0, 1), (2, 3)], heap_table(18), [(0, 3), (0, 1), (2, 3)], heap_table(1), 5, (5, 3, 7, 1, 6, 0, 4, 2));
}

proof fn lemma_chart_890()
    ensures
        chart_signature([(0, 3), (0, 1), (2, 3)], heap_table(2)) == chart_signature([(0, 2), (0, 1), (2, 3)], heap_table(12)),
{
    lemma_heap_entries();
    lemma_codes_of_word_37(heap_table(2));
    lemma_codes_of_word_26(heap_table(12));
    lemma_charts_agree_through([(0, 2), (0, 1), (2, 3)], heap_table(12), [(0, 3), (0, 1), (2, 3)], heap_table(2), 5, (5, 3, 7, 1, 6, 0, 4, 2));
}

proof fn lemma_chart_891()
    ensures
        chart_signature([(0, 3), (0, 1), (2, 3)], heap_table(3)) == chart_signature([(0, 2), (0, 1), (2, 3)], heap_table(15)),
{
    lemma_heap_entries();
    lemma_codes_of_word_37(heap_table(3));
    lemma_codes_of_word_26(heap_table(15));
    lemma_charts_agree_through([(0, 2), (0, 1), (2, 3)], heap_table(15), [(0, 3), (0, 1), (2, 3)], heap_table(3), 5, (5, 3, 7, 1, 6, 0, 4, 2));
}

proof fn lemma_chart_892()
    ensures
        chart_signature([(0, 3), (0, 1), (2, 3)], heap_table(4)) == chart_signature([(0, 2), (0, 1), (2, 3)], heap_table(9)),
{
    lemma_heap_entries();
    lemma_codes_of_word_37(heap_table(4));
    lemma_codes_of_word_26(heap_table(9));
    lemma_charts_agree_through([(0, 2), (0, 1), (2, 3)], heap_table(9), [(0, 3), (0, 1), (2, 3)], heap_table(4), 5, (5, 3, 7, 1, 6, 0, 4, 2));
}

proof fn lemma_chart_893()
    ensures
        chart_signature([(0, 3), (0, 1), (2, 3)], heap_table(5)) == chart_signature([(0, 2), (0, 1), (2, 3)], heap_table(6)),
{
    lemma_heap_entries();
    lemma_codes_of_word_37(heap_table(5));
    lemma_codes_of_word_26(heap_table(6));
    lemma_charts_agree_through([(0, 2), (0, 1), (2, 3)], heap_table(6), [(0, 3), (0, 1), (2, 3)], heap_table(5), 5, (5, 3, 7, 1, 6, 0, 4, 2));
}

proof fn lemma_chart_894()
    ensures
        chart_signature([(0, 3), (0, 1), (2, 3)], heap_table(6)) == chart_signature([(0, 2), (0, 1), (2, 3)], heap_table(21)),
{
    lemma_heap_entries();
    lemma_codes_of_word_37(heap_table(6));
    lemma_codes_of_word_26(heap_table(21));
    lemma_charts_agree_through([(0, 2), (0, 1), (2, 3)], heap_table(21), [(0, 3), (0, 1), (2, 3)], heap_table(6), 4, (3, 5, 6, 0, 7, 1, 2, 4));
}

proof fn lemma_chart_895()
    ensures
        chart_signature([(0, 3), (0, 1), (2, 3)], heap_table(7)) == chart_signature([(0, 2), (0, 1), (2, 3)], heap_table(19)),
{
    lemma_heap_entries();
    lemma_codes_of_word_37(heap_table(7));
    lemma_codes_of_word_26(heap_table(19));
    lemma_charts_agree_through([(0, 2), (0, 1), (2, 3)], heap_table(19), [(0, 3), (0, 1), (2, 3)], heap_table(7), 5, (5, 3, 7, 1, 6, 0, 4, 2));
}

proof fn lemma_chart_896()
    ensures
        chart_signature([(0, 3), (0, 1), (2, 3)], heap_table(8)) == chart_signature([(0, 2), (0, 1), (2, 3)], heap_table(13)),
{
    lemma_heap_entries();
    lemma_codes_of_word_37(heap_table(8));
    lemma_codes_of_word_26(heap_table(13));
    lemma_charts_agree_through([(0, 2), (0, 1), (2, 3)], heap_table(13), [(0, 3), (0, 1), (2, 3)], heap_table(8), 5, (5, 3, 7, 1, 6, 0, 4, 2));
}

proof fn lemma_chart_897()
    ensures
        chart_signature([(0, 3), (0, 1), (2, 3)], heap_table(9)) == chart_signature([(0, 2), (0, 1), (2, 3)], heap_table(15)),
{
    lemma_heap_entries();
    lemma_codes_of_word_37(heap_table(9));
    lemma_codes_of_word_26(heap_table(15));
    lemma_charts_agree_through([(0, 2), (0, 1), (2, 3)], heap_table(15), [(0, 3), (0, 1), (2, 3)], heap_table(9), 4, (3, 5, 6, 0, 7, 1, 2, 4));
}

proof fn lemma_chart_898()
    ensures
        chart_signature([(0, 3), (0, 1), (2, 3)], heap_table(10)) == chart_signature([(0, 2), (0, 1), (2, 3)], heap_table(3)),
{
    lemma_heap_entries();
    lemma_codes_of_word_37(heap_table(10));
    lemma_codes_of_word_26(heap_table(3));
    lemma_charts_agree_through([(0, 2), (0, 1), (2, 3)], heap_table(3), [(0, 3), (0, 1), (2, 3)], heap_table(10), 5, (5, 3, 7, 1, 6, 0, 4, 2));
}

proof fn lemma_chart_899()
    ensures
        chart_signature([(0, 3), (0, 1), (2, 3)], heap_table(11)) == chart_signature([(0, 2), (0, 1), (2, 3)], heap_table(0)),
{
    lemma_heap_entries();
    lemma_codes_of_word_37(heap_table(11));
    lemma_codes_of_word_26(heap_table(0));
    lemma_charts_agree_through([(0, 2), (0, 1), (2, 3)], heap_table(0), [(0, 3), (0, 1), (2, 3)], heap_table(11), 5, (5, 3, 7, 1, 6, 0, 4, 2));
}

proof fn lemma_chart_900()
    ensures
        chart_signature([(0, 3), (0, 1), (2, 3)], heap_table(12)) == chart_signature([(0, 2), (0, 1), (2, 3)], heap_table(18)),
{
    lemma_heap_entries();
    lemma_codes_of_word_37(heap_table(12));
    lemma_codes_of_word_26(heap_table(18));
    lemma_charts_agree_through([(0, 2), (0, 1), (2, 3)], heap_table(18), [(0, 3), (0, 1), (2, 3)], heap_table(12), 4, (3, 5, 6, 0, 7, 1, 2, 4));
}

proof fn lemma_chart_901()
    ensures
        chart_signature([(0, 3), (0, 1), (2, 3)], heap_table(13)) == chart_signature([(0, 2), (0, 1), (2, 3)], heap_table(19)),
{
    lemma_heap_entries();
    lemma_codes_of_word_37(heap_table(13));
    lemma_codes_of_word_26(heap_table(19));
    lemma_charts_agree_through([(0, 2), (0, 1), (2, 3)], heap_table(19), [(0, 3), (0, 1), (2, 3)], heap_table(13), 4, (3, 5, 6, 0, 7, 1, 2, 4));
}

proof fn lemma_chart_902()
    ensures
        chart_signature([(0, 3), (0, 1), (2, 3)], heap_table(14)) == chart_signature([(0, 2), (0, 1), (2, 3)], heap_table(7)),
{
    lemma_heap_entries();
    lemma_codes_of_word_37(heap_table(14));
    lemma_codes_of_word_26(heap_table(7));
    lemma_charts_agree_through([(0, 2), (0, 1), (2, 3)], heap_table(7), [(0, 3), (0, 1), (2, 3)], heap_table(14), 5, (5, 3, 7, 1, 6, 0, 4, 2));
}

proof fn lemma_chart_903()
    ensures
        chart_signature([(0, 3), (0, 1), (2, 3)], heap_table(15)) == chart_signature([(0, 2), (0, 1), (2, 3)], heap_table(9)),
{
    lemma_heap_entries();
    lemma_codes_of_word_37(heap_table(15));
    lemma_codes_of_word_26(heap_table(9));
    lemma_charts_agree_through([(0, 2), (0, 1), (2, 3)], heap_table(9), [(0, 3), (0, 1), (2, 3)], heap_table(15), 4, (3, 5, 6, 0, 7, 1, 2, 4));
}

proof fn lemma_chart_904()
    ensures
        chart_signature([(0, 3), (0, 1), (2, 3)], heap_table(16)) == chart_signature([(0, 2), (0, 1), (2, 3)], heap_table(3)),
{
    lemma_heap_entries();
    lemma_codes_of_word_37(heap_table(16));
    lemma_codes_of_word_26(heap_table(3));
    lemma_charts_agree_through([(0, 2), (0, 1), (2, 3)], heap_table(3), [(0, 3), (0, 1), (2, 3)], heap_table(16), 4, (3, 5, 6, 0, 7, 1, 2, 4));
}

proof fn lemma_chart_905()
    ensures
        chart_signature([(0, 3), (0, 1), (2, 3)], heap_table(17)) == chart_signature([(0, 2), (0, 1), (2, 3)], heap_table(1)),
{
    lemma_heap_entries();
    lemma_codes_of_word_37(heap_table(17));
    lemma_codes_of_word_26(heap_table(1));
    lemma_charts_agree_through([(0, 2), (0, 1), (2, 3)], heap_table(1), [(0, 3), (0, 1), (2, 3)], heap_table(17), 5, (5, 3, 7, 1, 6, 0, 4, 2));
}

proof fn lemma_chart_906()
    ensures
        chart_signature([(0, 3), (0, 1), (2, 3)], heap_table(18)) == chart_signature([(0, 2), (0, 1), (2, 3)], heap_table(12)),
{
    lemma_heap_entries();
    lemma_codes_of_word_37(heap_table(18));
    lemma_codes_of_word_26(heap_table(12));
    lemma_charts_agree_through([(0, 2), (0, 1), (2, 3)], heap_table(12), [(0, 3), (0, 1), (2, 3)], heap_table(18), 4, (3, 5, 6, 0, 7, 1, 2, 4));
}

proof fn lemma_chart_907()
    ensures
        chart_signature([(0, 3), (0, 1), (2, 3)], heap_table(19)) == chart_signature([(0, 2), (0, 1), (2, 3)], heap_table(13)),
{
    lemma_heap_entries();
    lemma_codes_of_word_37(heap_table(19));
    lemma_codes_of_word_26(heap_table(13));
    lemma_charts_agree_through([(0, 2), (0, 1), (2, 3)], heap_table(13), [(0, 3), (0, 1), (2, 3)], heap_table(19), 4, (3, 5, 6, 0, 7, 1, 2, 4));
}

proof fn lemma_chart_908()
    ensures
        chart_signature([(0, 3), (0, 1), (2, 3)], heap_table(20)) == chart_signature([(0, 2), (0, 1), (2, 3)], heap_table(7)),
{
    lemma_heap_entries();
    lemma_codes_of_word_37(heap_table(20));
    lemma_codes_of_word_26(heap_table(7));
    lemma_charts_agree_through([(0, 2), (0, 1), (2, 3)], heap_table(7), [(0, 3), (0, 1), (2, 3)], heap_table(20), 4, (3, 5, 6, 0, 7, 1, 2, 4));
}

proof fn lemma_chart_909()
    ensures
        chart_signature([(0, 3), (0, 1), (2, 3)], heap_table(21)) == chart_signature([(0, 2), (0, 1), (2, 3)], heap_table(6)),
{
    lemma_heap_entries();
    lemma_codes_of_word_37(heap_table(21));
    lemma_codes_of_word_26(heap_table(6));
    lemma_charts_agree_through([(0, 2), (0, 1), (2, 3)], heap_table(6), [(0, 3), (0, 1), (2, 3)], heap_table(21), 4, (3, 5, 6, 0, 7, 1, 2, 4));
}

proof fn lemma_chart_910()
    ensures
        chart_signature([(0, 3), (0, 1), (2, 3)], heap_table(22)) == chart_signature([(0, 2), (0, 1), (2, 3)], heap_table(0)),
{
    lemma_heap_entries();
    lemma_codes_of_word_37(heap_table(22));
    lemma_codes_of_word_26(heap_table(0));
    lemma_charts_agree_through([(0, 2), (0, 1), (2, 3)], heap_table(0), [(0, 3), (0, 1), (2, 3)], heap_table(22), 4, (3, 5, 6, 0, 7, 1, 2, 4));
}

proof fn lemma_chart_911()
    ensures
        chart_signature([(0, 3), (0, 1), (2, 3)], heap_table(23)) == chart_signature([(0, 2), (0, 1), (2, 3)], heap_table(1)),
{
    lemma_heap_entries();
    lemma_codes_of_word_37(heap_table(23));
    lemma_codes_of_word_26(heap_table(1));
    lemma_charts_agree_through([(0, 2), (0, 1), (2, 3)], heap_table(1), [(0, 3), (0, 1), (2, 3)], heap_table(23), 4, (3, 5, 6, 0, 7, 1, 2, 4));
}

/// Every chart of atlas word 37 shares its signature with the first chart
/// of a class below 216.
pub proof fn lemma_charts_of_word_37()
    ensures
        forall|t: int| 888 <= t < 912 ==> #[trigger] meets_class_below(t, 216),
{
    lemma_census_words();
    assert forall|t: int| 888 <= t < 912 implies #[trigger] meets_class_below(t, 216) by {
        if t == 888 { lemma_chart_888(); assert(atlas_signatures()[class_rep(161)] == atlas_signatures()[888]); }
        else if t == 889 { lemma_chart_889(); assert(atlas_signatures()[class_rep(159)] == atlas_signatures()[889]); }
        else if t == 890 { lemma_chart_890(); assert(atlas_signatures()[class_rep(156)] == atlas_signatures()[890]); }
        else if t == 891 { lemma_chart_891(); assert(atlas_signatures()[class_rep(158)] == atlas_signatures()[891]); }
        else if t == 892 { lemma_chart_892(); assert(atlas_signatures()[class_rep(155)] == atlas_signatures()[892]); }
        else if t == 893 { lemma_chart_893(); assert(atlas_signatures()[class_rep(153)] == atlas_signatures()[893]); }
        else if t == 894 { lemma_chart_894(); assert(atlas_signatures()[class_rep(161)] == atlas_signatures()[894]); }
        else if t == 895 { lemma_chart_895(); assert(atlas_signatures()[class_rep(160)] == atlas_signatures()[895]); }
        else if t == 896 { lemma_chart_896(); assert(atlas_signatures()[class_rep(157)] == atlas_signatures()[896]); }
        else if t == 897 { lemma_chart_897(); assert(atlas_signatures()[class_rep(158)] == atlas_signatures()[897]); }
        else if t == 898 { lemma_chart_898(); assert(atlas_signatures()[class_rep(152)] == atlas_signatures()[898]); }
        else if t == 899 { lemma_chart_899(); assert(atlas_signatures()[class_rep(150)] == atlas_signatures()[899]); }
        else if t == 900 { lemma_chart_900(); assert(atlas_signatures()[class_rep(159)] == atlas_signatures()[900]); }
        else if t == 901 { lemma_chart_901(); assert(atlas_signatures()[class_rep(160)] == atlas_signatures()[901]); }
        else if t == 902 { lemma_chart_902(); assert(atlas_signatures()[class_rep(154)] == atlas_signatures()[902]); }
        else if t == 903 { lemma_chart_903(); assert(atlas_signatures()[class_rep(155)] == atlas_signatures()[903]); }
        else if t == 904 { lemma_chart_904(); assert(atlas_signatures()[class_rep(152)] == atlas_signatures()[904]); }
        else if t == 905 { lemma_chart_905(); assert(atlas_signatures()[class_rep(151)] == atlas_signatures()[905]); }
        else if t == 906 { lemma_chart_906(); assert(atlas_signatures()[class_rep(156)] == atlas_signatures()[906]); }
        else if t == 907 { lemma_chart_907(); assert(atlas_signatures()[class_rep(157)] == atlas_signatures()[907]); }
        else if t == 908 { lemma_chart_908(); assert(atlas_signatures()[class_rep(154)] == atlas_signatures()[908]); }
        else if t == 909 { lemma_chart_909(); assert(atlas_signatures()[class_rep(153)] == atlas_signatures()[909]); }
        else if t == 910 { lemma_chart_910(); assert(atlas_signatures()[class_rep(150)] == atlas_signatures()[910]); }
        else { lemma_chart_911(); assert(atlas_signatures()[class_rep(151)] == atlas_signatures()[911]); }
    }
}

proof fn lemma_chart_918()
    ensures
        chart_signature([(0, 3), (0, 2), (0, 1)], heap_table(6)) == chart_signature([(0, 3), (0, 2), (0, 1)], heap_table(0)),
{
    lemma_heap_entries();
    lemma_codes_of_word_38(heap_table(6));
    lemma_codes_of_word_38(heap_table(0));
    lemma_charts_agree_through([(0, 3), (0, 2), (0, 1)], heap_table(0), [(0, 3), (0, 2), (0, 1)], heap_table(6), 1, (1, 0, 4, 5, 2, 3, 7, 6));
}

proof fn lemma_chart_921()
    ensures
        chart_signature([(0, 3), (0, 2), (0, 1)], heap_table(9)) == chart_signature([(0, 3), (0, 2), (0, 1)], heap_table(3)),
{
    lemma_heap_entries();
    lemma_codes_of_word_38(heap_table(9));
    lemma_codes_of_word_38(heap_table(3));
    lemma_charts_agree_through([(0, 3), (0, 2), (0, 1)], heap_table(3), [(0, 3), (0, 2), (0, 1)], heap_table(9), 1, (1, 0, 4, 5, 2, 3, 7, 6));
}

proof fn lemma_chart_924()
    ensures
        chart_signature([(0, 3), (0, 2), (0, 1)], heap_table(12)) == chart_signature([(0, 3), (0, 2), (0, 1)], heap_table(1)),
{
    lemma_heap_entries();
    lemma_codes_of_word_38(heap_table(12));
    lemma_codes_of_word_38(heap_table(1));
    lemma_charts_agree_through([(0, 3), (0, 2), (0, 1)], heap_table(1), [(0, 3), (0, 2), (0, 1)], heap_table(12), 1, (1, 0, 4, 5, 2, 3, 7, 6));
}

proof fn lemma_chart_925()
    ensures
        chart_signature([(0, 3), (0, 2), (0, 1)], heap_table(13)) == chart_signature([(0, 3), (0, 2), (0, 1)], heap_table(7)),
{
    lemma_heap_entries();
    lemma_codes_of_word_38(heap_table(13));
    lemma_codes_of_word_38(heap_table(7));
    lemma_charts_agree_through([(0, 3), (0, 2), (0, 1)], heap_table(7), [(0, 3), (0, 2), (0, 1)], heap_table(13), 1, (1, 0, 4, 5, 2, 3, 7, 6));
}

proof fn lemma_chart_927()
    ensures
        chart_signature([(0, 3), (0, 2), (0, 1)], heap_table(15)) == chart_signature([(0, 3), (0, 2), (0, 1)], heap_table(4)),
{
    lemma_heap_entries();
    lemma_codes_of_word_38(heap_table(15));
    lemma_codes_of_word_38(heap_table(4));
    lemma_charts_agree_through([(0, 3), (0, 2), (0, 1)], heap_table(4), [(0, 3), (0, 2), (0, 1)], heap_table(15), 1, (1, 0, 4, 5, 2, 3, 7, 6));
}

proof fn lemma_chart_928()
    ensures
        chart_signature([(0, 3), (0, 2), (0, 1)], heap_table(16)) == chart_signature([(0, 3), (0, 2), (0, 1)], heap_table(10)),
{
    lemma_heap_entries();
    lemma_codes_of_word_38(heap_table(16));
    lemma_codes_of_word_38(heap_table(10));
    lemma_charts_agree_through([(0, 3), (0, 2), (0, 1)], heap_table(10), [(0, 3), (0, 2), (0, 1)], heap_table(16), 1, (1, 0, 4, 5, 2, 3, 7, 6));
}

proof fn lemma_chart_930()
    ensures
        chart_signature([(0, 3), (0, 2), (0, 1)], heap_table(18)) == chart_signature([(0, 3), (0, 2), (0, 1)], heap_table(2)),
{
    lemma_heap_entries();
    lemma_codes_of_word_38(heap_table(18));
    lemma_codes_of_word_38(heap_table(2));
    lemma_charts_agree_through([(0, 3), (0, 2), (0, 1)], heap_table(2), [(0, 3), (0, 2), (0, 1)], heap_table(18), 1, (1, 0, 4, 5, 2, 3, 7, 6));
}

proof fn lemma_chart_931()
    ensures
        chart_signature([(0, 3), (0, 2), (0, 1)], heap_table(19)) == chart_signature([(0, 3), (0, 2), (0, 1)], heap_table(8)),
{
    lemma_heap_entries();
    lemma_codes_of_word_38(heap_table(19));
    lemma_codes_of_word_38(heap_table(8));
    lemma_charts_agree_through([(0, 3), (0, 2), (0, 1)], heap_table(8), [(0, 3), (0, 2), (0, 1)], heap_table(19), 1, (1, 0, 4, 5, 2, 3, 7, 6));
}

proof fn lemma_chart_932()
    ensures
        chart_signature([(0, 3), (0, 2), (0, 1)], heap_table(20)) == chart_signature([(0, 3), (0, 2), (0, 1)], heap_table(14)),
{
    lemma_heap_entries();
    lemma_codes_of_word_38(heap_table(20));
    lemma_codes_of_word_38(heap_table(14));
    lemma_charts_agree_through([(0, 3), (0, 2), (0, 1)], heap_table(14), [(0, 3), (0, 2), (0, 1)], heap_table(20), 1, (1, 0, 4, 5, 2, 3, 7, 6));
}

proof fn lemma_chart_933()
    ensures
        chart_signature([(0, 3), (0, 2), (0, 1)], heap_table(21)) == chart_signature([(0, 3), (0, 2), (0, 1)], heap_table(5)),
{
    lemma_heap_entries();
    lemma_codes_of_word_38(heap_table(21));
    lemma_codes_of_word_38(heap_table(5));
    lemma_charts_agree_through([(0, 3), (0, 2), (0, 1)], heap_table(5), [(0, 3), (0, 2), (0, 1)], heap_table(21), 1, (1, 0, 4, 5, 2, 3, 7, 6));
}

proof fn lemma_chart_934()
    ensures
        chart_signature([(0, 3), (0, 2), (0, 1)], heap_table(22)) == chart_signature([(0, 3), (0, 2), (0, 1)], heap_table(11)),
{
    lemma_heap_entries();
    lemma_codes_of_word_38(heap_table(22));
    lemma_codes_of_word_38(heap_table(11));
    lemma_charts_agree_through([(0, 3), (0, 2), (0, 1)], heap_table(11), [(0, 3), (0, 2), (0, 1)], heap_table(22), 1, (1, 0, 4, 5, 2, 3, 7, 6));
}

proof fn lemma_chart_935()
    ensures
        chart_signature([(0, 3), (0, 2), (0, 1)], heap_table(23)) == chart_signature([(0, 3), (0, 2), (0, 1)], heap_table(17)),
{
    lemma_heap_entries();
    lemma_codes_of_word_38(heap_table(23));
    lemma_codes_of_word_38(heap_table(17));
    lemma_charts_agree_through([(0, 3), (0, 2), (0, 1)], heap_table(17), [(0, 3), (0, 2), (0, 1)], heap_table(23), 1, (1, 0, 4, 5, 2, 3, 7, 6));
}

/// Every chart of atlas word 38 shares its signature with the first chart
/// of a class below 216.
pub proof fn lemma_charts_of_word_38()
    ensures
        forall|t: int| 912 <= t < 936 ==> #[trigger] meets_class_below(t, 216),
{
    lemma_census_words();
    assert forall|t: int| 912 <= t < 936 implies #[trigger] meets_class_below(t, 216) by {
        if t == 912 { assert(atlas_signatures()[class_rep(204)] == atlas_signatures()[912]); }
        else if t == 913 { assert(atlas_signatures()[class_rep(205)] == atlas_signatures()[913]); }
        else if t == 914 { assert(atlas_signatures()[class_rep(206)] == atlas_signatures()[914]); }
        else if t == 915 { assert(atlas_signatures()[class_rep(207)] == atlas_signatures()[915]); }
        else if t == 916 { assert(atlas_signatures()[class_rep(208)] == atlas_signatures()[916]); }
        else if t == 917 { assert(atlas_signatures()[class_rep(209)] == atlas_signatures()[917]); }
        else if t == 918 { lemma_chart_918(); assert(atlas_signatures()[class_rep(204)] == atlas_signatures()[918]); }
        else if t == 919 { assert(atlas_signatures()[class_rep(210)] == atlas_signatures()[919]); }
        else if t == 920 { assert(atlas_signatures()[class_rep(211)] == atlas_signatures()[920]); }
        else if t == 921 { lemma_chart_921(); assert(atlas_signatures()[class_rep(207)] == atlas_signatures()[921]); }
        else if t == 922 { assert(atlas_signatures()[class_rep(212)] == atlas_signatures()[922]); }
        else if t == 923 { assert(atlas_signatures()[class_rep(213)] == atlas_signatures()[923]); }
        else if t == 924 { lemma_chart_924(); assert(atlas_signatures()[class_rep(205)] == atlas_signatures()[924]); }
        else if t == 925 { lemma_chart_925(); assert(atlas_signatures()[class_rep(210)] == atlas_signatures()[925]); }
        else if t == 926 { assert(atlas_signatures()[class_rep(214)] == atlas_signatures()[926]); }
        else if t == 927 { lemma_chart_927(); assert(atlas_signatures()[class_rep(208)] == atlas_signatures()[927]); }
        else if t == 928 { lemma_chart_928(); assert(atlas_signatures()[class_rep(212)] == atlas_signatures()[928]); }
        else if t == 929 { assert(atlas_signatures()[class_rep(215)] == atlas_signatures()[929]); }
        else if t == 930 { lemma_chart_930(); assert(atlas_signatures()[class_rep(206)] == atlas_signatures()[930]); }
        else if t == 931 { lemma_chart_931(); assert(atlas_signatures()[class_rep(211)] == atlas_signatures()[931]); }
        else if t == 932 { lemma_chart_932(); assert(atlas_signatures()[class_rep(214)] == atlas_signatures()[932]); }
        else if t == 933 { lemma_chart_933(); assert(atlas_signatures()[class_rep(209)] == atlas_signatures()[933]); }
        else if t == 934 { lemma_chart_934(); assert(atlas_signatures()[class_rep(213)] == atlas_signatures()[934]); }
        else { lemma_chart_935(); assert(atlas_signatures()[class_rep(215)] == atlas_signatures()[935]); }
    }
}

proof fn lemma_chart_936()
    ensures
        chart_signature([(0, 3), (0, 2), (1, 2)], heap_table(0)) == chart_signature([(0, 3), (0, 1), (1, 2)], heap_table(3)),
{
    lemma_heap_entries();
    lemma_codes_of_word_39(heap_table(0));
    lemma_codes_of_word_36(heap_table(3));
    lemma_charts_agree_through([(0, 3), (0, 1), (1, 2)], heap_table(3), [(0, 3), (0, 2), (1, 2)], heap_table(0), 4, (3, 5, 6, 0, 7, 1, 2, 4));
}

proof fn lemma_chart_937()
    ensures
        chart_signature([(0, 3), (0, 2), (1, 2)], heap_table(1)) == chart_signature([(0, 3), (0, 1), (1, 2)], heap_table(4)),
{
    lemma_heap_entries();
    lemma_codes_of_word_39(heap_table(1));
    lemma_codes_of_word_36(heap_table(4));
    lemma_charts_agree_through([(0, 3), (0, 1), (1, 2)], heap_table(4), [(0, 3), (0, 2), (1, 2)], heap_table(1), 4, (3, 5, 6, 0, 7, 1, 2, 4));
}

proof fn lemma_chart_938()
    ensures
        chart_signature([(0, 3), (0, 2), (1, 2)], heap_table(2)) == chart_signature([(0, 3), (0, 1), (1, 2)], heap_table(5)),
{
    lemma_heap_entries();
    lemma_codes_of_word_39(heap_table(2));
    lemma_codes_of_word_36(heap_table(5));
    lemma_charts_agree_through([(0, 3), (0, 1), (1, 2)], heap_table(5), [(0, 3), (0, 2), (1, 2)], heap_table(2), 4, (3, 5, 6, 0, 7, 1, 2, 4));
}

proof fn lemma_chart_939()
    ensures
        chart_signature([(0, 3), (0, 2), (1, 2)], heap_table(3)) == chart_signature([(0, 3), (0, 1), (1, 2)], heap_table(0)),
{
    lemma_heap_entries();
    lemma_codes_of_word_39(heap_table(3));
    lemma_codes_of_word_36(heap_table(0));
    lemma_charts_agree_through([(0, 3), (0, 1), (1, 2)], heap_table(0), [(0, 3), (0, 2), (1, 2)], heap_table(3), 4, (3, 5, 6, 0, 7, 1, 2, 4));
}

proof fn lemma_chart_940()
    ensures
        chart_signature([(0, 3), (0, 2), (1, 2)], heap_table(4)) == chart_signature([(0, 3), (0, 1), (1, 2)], heap_table(1)),
{
    lemma_heap_entries();
    lemma_codes_of_word_39(heap_table(4));
    lemma_codes_of_word_36(heap_table(1));
    lemma_charts_agree_through([(0, 3), (0, 1), (1, 2)], heap_table(1), [(0, 3), (0, 2), (1, 2)], heap_table(4), 4, (3, 5, 6, 0, 7, 1, 2, 4));
}

proof fn lemma_chart_941()
    ensures
        chart_signature([(0, 3), (0, 2), (1, 2)], heap_table(5)) == chart_signature([(0, 3), (0, 1), (1, 2)], heap_table(2)),
{
    lemma_heap_entries();
    lemma_codes_of_word_39(heap_table(5));
    lemma_codes_of_word_36(heap_table(2));
    lemma_charts_agree_through([(0, 3), (0, 1), (1, 2)], heap_table(2), [(0, 3), (0, 2), (1, 2)], heap_table(5), 4, (3, 5, 6, 0, 7, 1, 2, 4));
}

proof fn lemma_chart_942()
    ensures
        chart_signature([(0, 3), (0, 2), (1, 2)], heap_table(6)) == chart_signature([(0, 3), (0, 1), (1, 2)], heap_table(3)),
{
    lemma_heap_entries();
    lemma_codes_of_word_39(heap_table(6));
    lemma_codes_of_word_36(heap_table(3));
    lemma_charts_agree_through([(0, 3), (0, 1), (1, 2)], heap_table(3), [(0, 3), (0, 2), (1, 2)], heap_table(6), 5, (5, 3, 7, 1, 6, 0, 4, 2));
}

proof fn lemma_chart_943()
    ensures
        chart_signature([(0, 3), (0, 2), (1, 2)], heap_table(7)) == chart_signature([(0, 3), (0, 1), (1, 2)], heap_table(10)),
{
    lemma_heap_entries();
    lemma_codes_of_word_39(heap_table(7));
    lemma_codes_of_word_36(heap_table(10));
    lemma_charts_agree_through([(0, 3), (0, 1), (1, 2)], heap_table(10), [(0, 3), (0, 2), (1, 2)], heap_table(7), 4, (3, 5, 6, 0, 7, 1, 2, 4));
}

proof fn lemma_chart_944()
    ensures
        chart_signature([(0, 3), (0, 2), (1, 2)], heap_table(8)) == chart_signature([(0, 3), (0, 1), (1, 2)], heap_table(11)),
{
    lemma_heap_entries();
    lemma_codes_of_word_39(heap_table(8));
    lemma_codes_of_word_36(heap_table(11));
    lemma_charts_agree_through([(0, 3), (0, 1), (1, 2)], heap_table(11), [(0, 3), (0, 2), (1, 2)], heap_table(8), 4, (3, 5, 6, 0, 7, 1, 2, 4));
}

proof fn lemma_chart_945()
    ensures
        chart_signature([(0, 3), (0, 2), (1, 2)], heap_table(9)) == chart_signature([(0, 3), (0, 1), (1, 2)], heap_table(0)),
{
    lemma_heap_entries();
    lemma_codes_of_word_39(heap_table(9));
    lemma_codes_of_word_36(heap_table(0));
    lemma_charts_agree_through([(0, 3), (0, 1), (1, 2)], heap_table(0), [(0, 3), (0, 2), (1, 2)], heap_table(9), 5, (5, 3, 7, 1, 6, 0, 4, 2));
}

proof fn lemma_chart_946()
    ensures
        chart_signature([(0, 3), (0, 2), (1, 2)], heap_table(10)) == chart_signature([(0, 3), (0, 1), (1, 2)], heap_table(7)),
{
    lemma_heap_entries();
    lemma_codes_of_word_39(heap_table(10));
    lemma_codes_of_word_36(heap_table(7));
    lemma_charts_agree_through([(0, 3), (0, 1), (1, 2)], heap_table(7), [(0, 3), (0, 2), (1, 2)], heap_table(10), 4, (3, 5, 6, 0, 7, 1, 2, 4));
}

proof fn lemma_chart_947()
    ensures
        chart_signature([(0, 3), (0, 2), (1, 2)], heap_table(11)) == chart_signature([(0, 3), (0, 1), (1, 2)], heap_table(8)),
{
    lemma_heap_entries();
    lemma_codes_of_word_39(heap_table(11));
    lemma_codes_of_word_36(heap_table(8));
    lemma_charts_agree_through([(0, 3), (0, 1), (1, 2)], heap_table(8), [(0, 3), (0, 2), (1, 2)], heap_table(11), 4, (3, 5, 6, 0, 7, 1, 2, 4));
}

proof fn lemma_chart_948()
    ensures
        chart_signature([(0, 3), (0, 2), (1, 2)], heap_table(12)) == chart_signature([(0, 3), (0, 1), (1, 2)], heap_table(4)),
{
    lemma_heap_entries();
    lemma_codes_of_word_39(heap_table(12));
    lemma_codes_of_word_36(heap_table(4));
    lemma_charts_agree_through([(0, 3), (0, 1), (1, 2)], heap_table(4), [(0, 3), (0, 2), (1, 2)], heap_table(12), 5, (5, 3, 7, 1, 6, 0, 4, 2));
}

proof fn lemma_chart_949()
    ensures
        chart_signature([(0, 3), (0, 2), (1, 2)], heap_table(13)) == chart_signature([(0, 3), (0, 1), (1, 2)], heap_table(10)),
{
    lemma_heap_entries();
    lemma_codes_of_word_39(heap_table(13));
    lemma_codes_of_word_36(heap_table(10));
    lemma_charts_agree_through([(0, 3), (0, 1), (1, 2)], heap_table(10), [(0, 3), (0, 2), (1, 2)], heap_table(13), 5, (5, 3, 7, 1, 6, 0, 4, 2));
}

proof fn lemma_chart_950()
    ensures
        chart_signature([(0, 3), (0, 2), (1, 2)], heap_table(14)) == chart_signature([(0, 3), (0, 1), (1, 2)], heap_table(17)),
{
    lemma_heap_entries();
    lemma_codes_of_word_39(heap_table(14));
    lemma_codes_of_word_36(heap_table(17));
    lemma_charts_agree_through([(0, 3), (0, 1), (1, 2)], heap_table(17), [(0, 3), (0, 2), (1, 2)], heap_table(14), 4, (3, 5, 6, 0, 7, 1, 2, 4));
}

proof fn lemma_chart_951()
    ensures
        chart_signature([(0, 3), (0, 2), (1, 2)], heap_table(15)) == chart_signature([(0, 3), (0, 1), (1, 2)], heap_table(1)),
{
    lemma_heap_entries();
    lemma_codes_of_word_39(heap_table(15));
    lemma_codes_of_word_36(heap_table(1));
    lemma_charts_agree_through([(0, 3), (0, 1), (1, 2)], heap_table(1), [(0, 3), (0, 2), (1, 2)], heap_table(15), 5, (5, 3, 7, 1, 6, 0, 4, 2));
}

proof fn lemma_chart_952()
    ensures
        chart_signature([(0, 3), (0, 2), (1, 2)], heap_table(16)) == chart_signature([(0, 3), (0, 1), (1, 2)], heap_table(7)),
{
    lemma_heap_entries();
    lemma_codes_of_word_39(heap_table(16));
    lemma_codes_of_word_36(heap_table(7));
    lemma_charts_agree_through([(0, 3), (0, 1), (1, 2)], heap_table(7), [(0, 3), (0, 2), (1, 2)], heap_table(16), 5, (5, 3, 7, 1, 6, 0, 4, 2));
}

proof fn lemma_chart_953()
    ensures
        chart_signature([(0, 3), (0, 2), (1, 2)], heap_table(17)) == chart_signature([(0, 3), (0, 1), (1, 2)], heap_table(14)),
{
    lemma_heap_entries();
    lemma_codes_of_word_39(heap_table(17));
    lemma_codes_of_word_36(heap_table(14));
    lemma_charts_agree_through([(0, 3), (0, 1), (1, 2)], heap_table(14), [(0, 3), (0, 2), (1, 2)], heap_table(17), 4, (3, 5, 6, 0, 7, 1, 2, 4));
}

proof fn lemma_chart_954()
    ensures
        chart_signature([(0, 3), (0, 2), (1, 2)], heap_table(18)) == chart_signature([(0, 3), (0, 1), (1, 2)], heap_table(5)),
{
    lemma_heap_entries();
    lemma_codes_of_word_39(heap_table(18));
    lemma_codes_of_word_36(heap_table(5));
    lemma_charts_agree_through([(0, 3), (0, 1), (1, 2)], heap_table(5), [(0, 3), (0, 2), (1, 2)], heap_table(18), 5, (5, 3, 7, 1, 6, 0, 4, 2));
}

proof fn lemma_chart_955()
    ensures
        chart_signature([(0, 3), (0, 2), (1, 2)], heap_table(19)) == chart_signature([(0, 3), (0, 1), (1, 2)], heap_table(11)),
{
    lemma_heap_entries();
    lemma_codes_of_word_39(heap_table(19));
    lemma_codes_of_word_36(heap_table(11));
    lemma_charts_agree_through([(0, 3), (0, 1), (1, 2)], heap_table(11), [(0, 3), (0, 2), (1, 2)], heap_table(19), 5, (5, 3, 7, 1, 6, 0, 4, 2));
}

proof fn lemma_chart_956()
    ensures
        chart_signature([(0, 3), (0, 2), (1, 2)], heap_table(20)) == chart_signature([(0, 3), (0, 1), (1, 2)], heap_table(17)),
{
    lemma_heap_entries();
    lemma_codes_of_word_39(heap_table(20));
    lemma_codes_of_word_36(heap_table(17));
    lemma_charts_agree_through([(0, 3), (0, 1), (1, 2)], heap_table(17), [(0, 3), (0, 2), (1, 2)], heap_table(20), 5, (5, 3, 7, 1, 6, 0, 4, 2));
}

proof fn lemma_chart_957()
    ensures
        chart_signature([(0, 3), (0, 2), (1, 2)], heap_table(21)) == chart_signature([(0, 3), (0, 1), (1, 2)], heap_table(2)),
{
    lemma_heap_entries();
    lemma_codes_of_word_39(heap_table(21));
    lemma_codes_of_word_36(heap_table(2));
    lemma_charts_agree_through([(0, 3), (0, 1), (1, 2)], heap_table(2), [(0, 3), (0, 2), (1, 2)], heap_table(21), 5, (5, 3, 7, 1, 6, 0, 4, 2));
}

proof fn lemma_chart_958()
    ensures
        chart_signature([(0, 3), (0, 2), (1, 2)], heap_table(22)) == chart_signature([(0, 3), (0, 1), (1, 2)], heap_table(8)),
{
    lemma_heap_entries();
    lemma_codes_of_word_39(heap_table(22));
    lemma_codes_of_word_36(heap_table(8));
    lemma_charts_agree_through([(0, 3), (0, 1), (1, 2)], heap_table(8), [(0, 3), (0, 2), (1, 2)], heap_table(22), 5, (5, 3, 7, 1, 6, 0, 4, 2));
}

proof fn lemma_chart_959()
    ensures
        chart_signature([(0, 3), (0, 2), (1, 2)], heap_table(23)) == chart_signature([(0, 3), (0, 1), (1, 2)], heap_table(14)),
{
    lemma_heap_entries();
    lemma_codes_of_word_39(heap_table(23));
    lemma_codes_of_word_36(heap_table(14));
    lemma_charts_agree_through([(0, 3), (0, 1), (1, 2)], heap_table(14), [(0, 3), (0, 2), (1, 2)], heap_table(23), 5, (5, 3, 7, 1, 6, 0, 4, 2));
}

/// Every chart of atlas word 39 shares its signature with the first chart
/// of a class below 216.
pub proof fn lemma_charts_of_word_39()
    ensures
        forall|t: int| 936 <= t < 960 ==> #[trigger] meets_class_below(t, 216),
{
    lemma_census_words();
    assert forall|t: int| 936 <= t < 960 implies #[trigger] meets_class_below(t, 216) by {
        if t == 936 { lemma_chart_936(); assert(atlas_signatures()[class_rep(195)] == atlas_signatures()[936]); }
        else if t == 937 { lemma_chart_937(); assert(atlas_signatures()[class_rep(196)] == atlas_signatures()[937]); }
        else if t == 938 { lemma_chart_938(); assert(atlas_signatures()[class_rep(197)] == atlas_signatures()[938]); }
        else if t == 939 { lemma_chart_939(); assert(atlas_signatures()[class_rep(192)] == atlas_signatures()[939]); }
        else if t == 940 { lemma_chart_940(); assert(atlas_signatures()[class_rep(193)] == atlas_signatures()[940]); }
        else if t == 941 { lemma_chart_941(); assert(atlas_signatures()[class_rep(194)] == atlas_signatures()[941]); }
        else if t == 942 { lemma_chart_942(); assert(atlas_signatures()[class_rep(195)] == atlas_signatures()[942]); }
        else if t == 943 { lemma_chart_943(); assert(atlas_signatures()[class_rep(200)] == atlas_signatures()[943]); }
        else if t == 944 { lemma_chart_944(); assert(atlas_signatures()[class_rep(201)] == atlas_signatures()[944]); }
        else if t == 945 { lemma_chart_945(); assert(atlas_signatures()[class_rep(192)] == atlas_signatures()[945]); }
        else if t == 946 { lemma_chart_946(); assert(atlas_signatures()[class_rep(198)] == atlas_signatures()[946]); }
        else if t == 947 { lemma_chart_947(); assert(atlas_signatures()[class_rep(199)] == atlas_signatures()[947]); }
        else if t == 948 { lemma_chart_948(); assert(atlas_signatures()[class_rep(196)] == atlas_signatures()[948]); }
        else if t == 949 { lemma_chart_949(); assert(atlas_signatures()[class_rep(200)] == atlas_signatures()[949]); }
        else if t == 950 { lemma_chart_950(); assert(atlas_signatures()[class_rep(203)] == atlas_signatures()[950]); }
        else if t == 951 { lemma_chart_951(); assert(atlas_signatures()[class_rep(193)] == atlas_signatures()[951]); }
        else if t == 952 { lemma_chart_952(); assert(atlas_signatures()[class_rep(198)] == atlas_signatures()[952]); }
        else if t == 953 { lemma_chart_953(); assert(atlas_signatures()[class_rep(202)] == atlas_signatures()[953]); }
        else if t == 954 { lemma_chart_954(); assert(atlas_signatures()[class_rep(197)] == atlas_signatures()[954]); }
        else if t == 955 { lemma_chart_955(); assert(atlas_signatures()[class_rep(201)] == atlas_signatures()[955]); }
        else if t == 956 { lemma_chart_956(); assert(atlas_signatures()[class_rep(203)] == atlas_signatures()[956]); }
        else if t == 957 { lemma_chart_957(); assert(atlas_signatures()[class_rep(194)] == atlas_signatures()[957]); }
        else if t == 958 { lemma_chart_958(); assert(atlas_signatures()[class_rep(199)] == atlas_signatures()[958]); }
        else { lemma_chart_959(); assert(atlas_signatures()[class_rep(202)] == atlas_signatures()[959]); }
    }
}

proof fn lemma_chart_960()
    ensures
        chart_signature([(0, 3), (0, 2), (1, 3)], heap_table(0)) == chart_signature([(0, 1), (0, 2), (1, 3)], heap_table(12)),
{
    lemma_heap_entries();
    lemma_codes_of_word_40(heap_table(0));
    lemma_codes_of_word_7(heap_table(12));
    lemma_charts_agree_through([(0, 1), (0, 2), (1, 3)], heap_table(12), [(0, 3), (0, 2), (1, 3)], heap_table(0), 5, (5, 3, 7, 1, 6, 0, 4, 2));
}

proof fn lemma_chart_961()
    ensures
        chart_signature([(0, 3), (0, 2), (1, 3)], heap_table(1)) == chart_signature([(0, 1), (0, 2), (1, 3)], heap_table(6)),
{
    lemma_heap_entries();
    lemma_codes_of_word_40(heap_table(1));
    lemma_codes_of_word_7(heap_table(6));
    lemma_charts_agree_through([(0, 1), (0, 2), (1, 3)], heap_table(6), [(0, 3), (0, 2), (1, 3)], heap_table(1), 5, (5, 3, 7, 1, 6, 0, 4, 2));
}

proof fn lemma_chart_962()
    ensures
        chart_signature([(0, 3), (0, 2), (1, 3)], heap_table(2)) == chart_signature([(0, 1), (0, 2), (1, 3)], heap_table(8)),
{
    lemma_heap_entries();
    lemma_codes_of_word_40(heap_table(2));
    lemma_codes_of_word_7(heap_table(8));
    lemma_charts_agree_through([(0, 1), (0, 2), (1, 3)], heap_table(8), [(0, 3), (0, 2), (1, 3)], heap_table(2), 4, (3, 5, 6, 0, 7, 1, 2, 4));
}

proof fn lemma_chart_963()
    ensures
        chart_signature([(0, 3), (0, 2), (1, 3)], heap_table(3)) == chart_signature([(0, 1), (0, 2), (1, 3)], heap_table(18)),
{
    lemma_heap_entries();
    lemma_codes_of_word_40(heap_table(3));
    lemma_codes_of_word_7(heap_table(18));
    lemma_charts_agree_through([(0, 1), (0, 2), (1, 3)], heap_table(18), [(0, 3), (0, 2), (1, 3)], heap_table(3), 5, (5, 3, 7, 1, 6, 0, 4, 2));
}

proof fn lemma_chart_964()
    ensures
        chart_signature([(0, 3), (0, 2), (1, 3)], heap_table(4)) == chart_signature([(0, 1), (0, 2), (1, 3)], heap_table(20)),
{
    lemma_heap_entries();
    lemma_codes_of_word_40(heap_table(4));
    lemma_codes_of_word_7(heap_table(20));
    lemma_charts_agree_through([(0, 1), (0, 2), (1, 3)], heap_table(20), [(0, 3), (0, 2), (1, 3)], heap_table(4), 4, (3, 5, 6, 0, 7, 1, 2, 4));
}

proof fn lemma_chart_965()
    ensures
        chart_signature([(0, 3), (0, 2), (1, 3)], heap_table(5)) == chart_signature([(0, 1), (0, 2), (1, 3)], heap_table(14)),
{
    lemma_heap_entries();
    lemma_codes_of_word_40(heap_table(5));
    lemma_codes_of_word_7(heap_table(14));
    lemma_charts_agree_through([(0, 1), (0, 2), (1, 3)], heap_table(14), [(0, 3), (0, 2), (1, 3)], heap_table(5), 4, (3, 5, 6, 0, 7, 1, 2, 4));
}

proof fn lemma_chart_966()
    ensures
        chart_signature([(0, 3), (0, 2), (1, 3)], heap_table(6)) == chart_signature([(0, 1), (0, 2), (1, 3)], heap_table(12)),
{
    lemma_heap_entries();
    lemma_codes_of_word_40(heap_table(6));
    lemma_codes_of_word_7(heap_table(12));
    lemma_charts_agree_through([(0, 1), (0, 2), (1, 3)], heap_table(12), [(0, 3), (0, 2), (1, 3)], heap_table(6), 4, (3, 5, 6, 0, 7, 1, 2, 4));
}

proof fn lemma_chart_967()
    ensures
        chart_signature([(0, 3), (0, 2), (1, 3)], heap_table(7)) == chart_signature([(0, 1), (0, 2), (1, 3)], heap_table(0)),
{
    lemma_heap_entries();
    lemma_codes_of_word_40(heap_table(7));
    lemma_codes_of_word_7(heap_table(0));
    lemma_charts_agree_through([(0, 1), (0, 2), (1, 3)], heap_table(0), [(0, 3), (0, 2), (1, 3)], heap_table(7), 5, (5, 3, 7, 1, 6, 0, 4, 2));
}

proof fn lemma_chart_968()
    ensures
        chart_signature([(0, 3), (0, 2), (1, 3)], heap_table(8)) == chart_signature([(0, 1), (0, 2), (1, 3)], heap_table(2)),
{
    lemma_heap_entries();
    lemma_codes_of_word_40(heap_table(8));
    lemma_codes_of_word_7(heap_table(2));
    lemma_charts_agree_through([(0, 1), (0, 2), (1, 3)], heap_table(2), [(0, 3), (0, 2), (1, 3)], heap_table(8), 4, (3, 5, 6, 0, 7, 1, 2, 4));
}

proof fn lemma_chart_969()
    ensures
        chart_signature([(0, 3), (0, 2), (1, 3)], heap_table(9)) == chart_signature([(0, 1), (0, 2), (1, 3)], heap_table(18)),
{
    lemma_heap_entries();
    lemma_codes_of_word_40(heap_table(9));
    lemma_codes_of_word_7(heap_table(18));
    lemma_charts_agree_through([(0, 1), (0, 2), (1, 3)], heap_table(18), [(0, 3), (0, 2), (1, 3)], heap_table(9), 4, (3, 5, 6, 0, 7, 1, 2, 4));
}

proof fn lemma_chart_970()
    ensures
        chart_signature([(0, 3), (0, 2), (1, 3)], heap_table(10)) == chart_signature([(0, 1), (0, 2), (1, 3)], heap_table(22)),
{
    lemma_heap_entries();
    lemma_codes_of_word_40(heap_table(10));
    lemma_codes_of_word_7(heap_table(22));
    lemma_charts_agree_through([(0, 1), (0, 2), (1, 3)], heap_table(22), [(0, 3), (0, 2), (1, 3)], heap_table(10), 5, (5, 3, 7, 1, 6, 0, 4, 2));
}

proof fn lemma_chart_971()
    ensures
        chart_signature([(0, 3), (0, 2), (1, 3)], heap_table(11)) == chart_signature([(0, 1), (0, 2), (1, 3)], heap_table(16)),
{
    lemma_heap_entries();
    lemma_codes_of_word_40(heap_table(11));
    lemma_codes_of_word_7(heap_table(16));
    lemma_charts_agree_through([(0, 1), (0, 2), (1, 3)], heap_table(16), [(0, 3), (0, 2), (1, 3)], heap_table(11), 5, (5, 3, 7, 1, 6, 0, 4, 2));
}

proof fn lemma_chart_972()
    ensures
        chart_signature([(0, 3), (0, 2), (1, 3)], heap_table(12)) == chart_signature([(0, 1), (0, 2), (1, 3)], heap_table(6)),
{
    lemma_heap_entries();
    lemma_codes_of_word_40(heap_table(12));
    lemma_codes_of_word_7(heap_table(6));
    lemma_charts_agree_through([(0, 1), (0, 2), (1, 3)], heap_table(6), [(0, 3), (0, 2), (1, 3)], heap_table(12), 4, (3, 5, 6, 0, 7, 1, 2, 4));
}

proof fn lemma_chart_973()
    ensures
        chart_signature([(0, 3), (0, 2), (1, 3)], heap_table(13)) == chart_signature([(0, 1), (0, 2), (1, 3)], heap_table(0)),
{
    lemma_heap_entries();
    lemma_codes_of_word_40(heap_table(13));
    lemma_codes_of_word_7(heap_table(0));
    lemma_charts_agree_through([(0, 1), (0, 2), (1, 3)], heap_table(0), [(0, 3), (0, 2), (1, 3)], heap_table(13), 4, (3, 5, 6, 0, 7, 1, 2, 4));
}

proof fn lemma_chart_974()
    ensures
        chart_signature([(0, 3), (0, 2), (1, 3)], heap_table(14)) == chart_signature([(0, 1), (0, 2), (1, 3)], heap_table(4)),
{
    lemma_heap_entries();
    lemma_codes_of_word_40(heap_table(14));
    lemma_codes_of_word_7(heap_table(4));
    lemma_charts_agree_through([(0, 1), (0, 2), (1, 3)], heap_table(4), [(0, 3), (0, 2), (1, 3)], heap_table(14), 5, (5, 3, 7, 1, 6, 0, 4, 2));
}

proof fn lemma_chart_975()
    ensures
        chart_signature([(0, 3), (0, 2), (1, 3)], heap_table(15)) == chart_signature([(0, 1), (0, 2), (1, 3)], heap_table(20)),
{
    lemma_heap_entries();
    lemma_codes_of_word_40(heap_table(15));
    lemma_codes_of_word_7(heap_table(20));
    lemma_charts_agree_through([(0, 1), (0, 2), (1, 3)], heap_table(20), [(0, 3), (0, 2), (1, 3)], heap_table(15), 5, (5, 3, 7, 1, 6, 0, 4, 2));
}

proof fn lemma_chart_976()
    ensures
        chart_signature([(0, 3), (0, 2), (1, 3)], heap_table(16)) == chart_signature([(0, 1), (0, 2), (1, 3)], heap_table(22)),
{
    lemma_heap_entries();
    lemma_codes_of_word_40(heap_table(16));
    lemma_codes_of_word_7(heap_table(22));
    lemma_charts_agree_through([(0, 1), (0, 2), (1, 3)], heap_table(22), [(0, 3), (0, 2), (1, 3)], heap_table(16), 4, (3, 5, 6, 0, 7, 1, 2, 4));
}

proof fn lemma_chart_977()
    ensures
        chart_signature([(0, 3), (0, 2), (1, 3)], heap_table(17)) == chart_signature([(0, 1), (0, 2), (1, 3)], heap_table(10)),
{
    lemma_heap_entries();
    lemma_codes_of_word_40(heap_table(17));
    lemma_codes_of_word_7(heap_table(10));
    lemma_charts_agree_through([(0, 1), (0, 2), (1, 3)], heap_table(10), [(0, 3), (0, 2), (1, 3)], heap_table(17), 5, (5, 3, 7, 1, 6, 0, 4, 2));
}

proof fn lemma_chart_978()
    ensures
        chart_signature([(0, 3), (0, 2), (1, 3)], heap_table(18)) == chart_signature([(0, 1), (0, 2), (1, 3)], heap_table(8)),
{
    lemma_heap_entries();
    lemma_codes_of_word_40(heap_table(18));
    lemma_codes_of_word_7(heap_table(8));
    lemma_charts_agree_through([(0, 1), (0, 2), (1, 3)], heap_table(8), [(0, 3), (0, 2), (1, 3)], heap_table(18), 5, (5, 3, 7, 1, 6, 0, 4, 2));
}

proof fn lemma_chart_979()
    ensures
        chart_signature([(0, 3), (0, 2), (1, 3)], heap_table(19)) == chart_signature([(0, 1), (0, 2), (1, 3)], heap_table(2)),
{
    lemma_heap_entries();
    lemma_codes_of_word_40(heap_table(19));
    lemma_codes_of_word_7(heap_table(2));
    lemma_charts_agree_through([(0, 1), (0, 2), (1, 3)], heap_table(2), [(0, 3), (0, 2), (1, 3)], heap_table(19), 5, (5, 3, 7, 1, 6, 0, 4, 2));
}

proof fn lemma_chart_980()
    ensures
        chart_signature([(0, 3), (0, 2), (1, 3)], heap_table(20)) == chart_signature([(0, 1), (0, 2), (1, 3)], heap_table(4)),
{
    lemma_heap_entries();
    lemma_codes_of_word_40(heap_table(20));
    lemma_codes_of_word_7(heap_table(4));
    lemma_charts_agree_through([(0, 1), (0, 2), (1, 3)], heap_table(4), [(0, 3), (0, 2), (1, 3)], heap_table(20), 4, (3, 5, 6, 0, 7, 1, 2, 4));
}

proof fn lemma_chart_981()
    ensures
        chart_signature([(0, 3), (0, 2), (1, 3)], heap_table(21)) == chart_signature([(0, 1), (0, 2), (1, 3)], heap_table(14)),
{
    lemma_heap_entries();
    lemma_codes_of_word_40(heap_table(21));
    lemma_codes_of_word_7(heap_table(14));
    lemma_charts_agree_through([(0, 1), (0, 2), (1, 3)], heap_table(14), [(0, 3), (0, 2), (1, 3)], heap_table(21), 5, (5, 3, 7, 1, 6, 0, 4, 2));
}

proof fn lemma_chart_982()
    ensures
        chart_signature([(0, 3), (0, 2), (1, 3)], heap_table(22)) == chart_signature([(0, 1), (0, 2), (1, 3)], heap_table(16)),
{
    lemma_heap_entries();
    lemma_codes_of_word_40(heap_table(22));
    lemma_codes_of_word_7(heap_table(16));
    lemma_charts_agree_through([(0, 1), (0, 2), (1, 3)], heap_table(16), [(0, 3), (0, 2), (1, 3)], heap_table(22), 4, (3, 5, 6, 0, 7, 1, 2, 4));
}

proof fn lemma_chart_983()
    ensures
        chart_signature([(0, 3), (0, 2), (1, 3)], heap_table(23)) == chart_signature([(0, 1), (0, 2), (1, 3)], heap_table(10)),
{
    lemma_heap_entries();
    lemma_codes_of_word_40(heap_table(23));
    lemma_codes_of_word_7(heap_table(10));
    lemma_charts_agree_through([(0, 1), (0, 2), (1, 3)], heap_table(10), [(0, 3), (0, 2), (1, 3)], heap_table(23), 4, (3, 5, 6, 0, 7, 1, 2, 4));
}

/// Every chart of atlas word 40 shares its signature with the first chart
/// of a class below 216.
pub proof fn lemma_charts_of_word_40()
    ensures
        forall|t: int| 960 <= t < 984 ==> #[trigger] meets_class_below(t, 216),
{
    lemma_census_words();
    assert forall|t: int| 960 <= t < 984 implies #[trigger] meets_class_below(t, 216) by {
        if t == 960 { lemma_chart_960(); assert(atlas_signatures()[class_rep(78)] == atlas_signatures()[960]); }
        else if t == 961 { lemma_chart_961(); assert(atlas_signatures()[class_rep(75)] == atlas_signatures()[961]); }
        else if t == 962 { lemma_chart_962(); assert(atlas_signatures()[class_rep(76)] == atlas_signatures()[962]); }
        else if t == 963 { lemma_chart_963(); assert(atlas_signatures()[class_rep(81)] == atlas_signatures()[963]); }
        else if t == 964 { lemma_chart_964(); assert(atlas_signatures()[class_rep(82)] == atlas_signatures()[964]); }
        else if t == 965 { lemma_chart_965(); assert(atlas_signatures()[class_rep(79)] == atlas_signatures()[965]); }
        else if t == 966 { lemma_chart_966(); assert(atlas_signatures()[class_rep(78)] == atlas_signatures()[966]); }
        else if t == 967 { lemma_chart_967(); assert(atlas_signatures()[class_rep(72)] == atlas_signatures()[967]); }
        else if t == 968 { lemma_chart_968(); assert(atlas_signatures()[class_rep(73)] == atlas_signatures()[968]); }
        else if t == 969 { lemma_chart_969(); assert(atlas_signatures()[class_rep(81)] == atlas_signatures()[969]); }
        else if t == 970 { lemma_chart_970(); assert(atlas_signatures()[class_rep(83)] == atlas_signatures()[970]); }
        else if t == 971 { lemma_chart_971(); assert(atlas_signatures()[class_rep(80)] == atlas_signatures()[971]); }
        else if t == 972 { lemma_chart_972(); assert(atlas_signatures()[class_rep(75)] == atlas_signatures()[972]); }
        else if t == 973 { lemma_chart_973(); assert(atlas_signatures()[class_rep(72)] == atlas_signatures()[973]); }
        else if t == 974 { lemma_chart_974(); assert(atlas_signatures()[class_rep(74)] == atlas_signatures()[974]); }
        else if t == 975 { lemma_chart_975(); assert(atlas_signatures()[class_rep(82)] == atlas_signatures()[975]); }
        else if t == 976 { lemma_chart_976(); assert(atlas_signatures()[class_rep(83)] == atlas_signatures()[976]); }
        else if t == 977 { lemma_chart_977(); assert(atlas_signatures()[class_rep(77)] == atlas_signatures()[977]); }
        else if t == 978 { lemma_chart_978(); assert(atlas_signatures()[class_rep(76)] == atlas_signatures()[978]); }
        else if t == 979 { lemma_chart_979(); assert(atlas_signatures()[class_rep(73)] == atlas_signatures()[979]); }
        else if t == 980 { lemma_chart_980(); assert(atlas_signatures()[class_rep(74)] == atlas_signatures()[980]); }
        else if t == 981 { lemma_chart_981(); assert(atlas_signatures()[class_rep(79)] == atlas_signatures()[981]); }
        else if t == 982 { lemma_chart_982(); assert(atlas_signatures()[class_rep(80)] == atlas_signatures()[982]); }
        else { lemma_chart_983(); assert(atlas_signatures()[class_rep(77)] == atlas_signatures()[983]); }
    }
}

proof fn lemma_chart_984()
    ensures
        chart_signature([(0, 3), (1, 2), (0, 1)], heap_table(0)) == chart_signature([(0, 2), (1, 3), (0, 1)], heap_table(1)),
{
    lemma_heap_entries();
    lemma_codes_of_word_41(heap_table(0));
    lemma_codes_of_word_30(heap_table(1));
    lemma_charts_agree_through([(0, 2), (1, 3), (0, 1)], heap_table(1), [(0, 3), (1, 2), (0, 1)], heap_table(0), 20, (3, 6, 5, 0, 7, 2, 1, 4));
}

proof fn lemma_chart_985()
    ensures
        chart_signature([(0, 3), (1, 2), (0, 1)], heap_table(1)) == chart_signature([(0, 2), (1, 3), (0, 1)], heap_table(0)),
{
    lemma_heap_entries();
    lemma_codes_of_word_41(heap_table(1));
    lemma_codes_of_word_30(heap_table(0));
    lemma_charts_agree_through([(0, 2), (1, 3), (0, 1)], heap_table(0), [(0, 3), (1, 2), (0, 1)], heap_table(1), 20, (3, 6, 5, 0, 7, 2, 1, 4));
}

proof fn lemma_chart_986()
    ensures
        chart_signature([(0, 3), (1, 2), (0, 1)], heap_table(2)) == chart_signature([(0, 2), (1, 3), (0, 1)], heap_table(3)),
{
    lemma_heap_entries();
    lemma_codes_of_word_41(heap_table(2));
    lemma_codes_of_word_30(heap_table(3));
    lemma_charts_agree_through([(0, 2), (1, 3), (0, 1)], heap_table(3), [(0, 3), (1, 2), (0, 1)], heap_table(2), 20, (3, 6, 5, 0, 7, 2, 1, 4));
}

proof fn lemma_chart_987()
    ensures
        chart_signature([(0, 3), (1, 2), (0, 1)], heap_table(3)) == chart_signature([(0, 2), (1, 3), (0, 1)], heap_table(1)),
{
    lemma_heap_entries();
    lemma_codes_of_word_41(heap_table(3));
    lemma_codes_of_word_30(heap_table(1));
    lemma_charts_agree_through([(0, 2), (1, 3), (0, 1)], heap_table(1), [(0, 3), (1, 2), (0, 1)], heap_table(3), 21, (5, 7, 3, 1, 6, 4, 0, 2));
}

proof fn lemma_chart_988()
    ensures
        chart_signature([(0, 3), (1, 2), (0, 1)], heap_table(4)) == chart_signature([(0, 2), (1, 3), (0, 1)], heap_table(0)),
{
    lemma_heap_entries();
    lemma_codes_of_word_41(heap_table(4));
    lemma_codes_of_word_30(heap_table(0));
    lemma_charts_agree_through([(0, 2), (1, 3), (0, 1)], heap_table(0), [(0, 3), (1, 2), (0, 1)], heap_table(4), 21, (5, 7, 3, 1, 6, 4, 0, 2));
}

proof fn lemma_chart_989()
    ensures
        chart_signature([(0, 3), (1, 2), (0, 1)], heap_table(5)) == chart_signature([(0, 2), (1, 3), (0, 1)], heap_table(3)),
{
    lemma_heap_entries();
    lemma_codes_of_word_41(heap_table(5));
    lemma_codes_of_word_30(heap_table(3));
    lemma_charts_agree_through([(0, 2), (1, 3), (0, 1)], heap_table(3), [(0, 3), (1, 2), (0, 1)], heap_table(5), 21, (5, 7, 3, 1, 6, 4, 0, 2));
}

proof fn lemma_chart_990()
    ensures
        chart_signature([(0, 3), (1, 2), (0, 1)], heap_table(6)) == chart_signature([(0, 2), (1, 3), (0, 1)], heap_table(1)),
{
    lemma_heap_entries();
    lemma_codes_of_word_41(heap_table(6));
    lemma_codes_of_word_30(heap_table(1));
    lemma_charts_agree_through([(0, 2), (1, 3), (0, 1)], heap_table(1), [(0, 3), (1, 2), (0, 1)], heap_table(6), 22, (6, 3, 7, 2, 5, 0, 4, 1));
}

proof fn lemma_chart_991()
    ensures
        chart_signature([(0, 3), (1, 2), (0, 1)], heap_table(7)) == chart_signature([(0, 2), (1, 3), (0, 1)], heap_table(6)),
{
    lemma_heap_entries();
    lemma_codes_of_word_41(heap_table(7));
    lemma_codes_of_word_30(heap_table(6));
    lemma_charts_agree_through([(0, 2), (1, 3), (0, 1)], heap_table(6), [(0, 3), (1, 2), (0, 1)], heap_table(7), 20, (3, 6, 5, 0, 7, 2, 1, 4));
}

proof fn lemma_chart_992()
    ensures
        chart_signature([(0, 3), (1, 2), (0, 1)], heap_table(8)) == chart_signature([(0, 2), (1, 3), (0, 1)], heap_table(9)),
{
    lemma_heap_entries();
    lemma_codes_of_word_41(heap_table(8));
    lemma_codes_of_word_30(heap_table(9));
    lemma_charts_agree_through([(0, 2), (1, 3), (0, 1)], heap_table(9), [(0, 3), (1, 2), (0, 1)], heap_table(8), 20, (3, 6, 5, 0, 7, 2, 1, 4));
}

proof fn lemma_chart_993()
    ensures
        chart_signature([(0, 3), (1, 2), (0, 1)], heap_table(9)) == chart_signature([(0, 2), (1, 3), (0, 1)], heap_table(1)),
{
    lemma_heap_entries();
    lemma_codes_of_word_41(heap_table(9));
    lemma_codes_of_word_30(heap_table(1));
    lemma_charts_agree_through([(0, 2), (1, 3), (0, 1)], heap_table(1), [(0, 3), (1, 2), (0, 1)], heap_table(9), 23, (7, 5, 6, 4, 3, 1, 2, 0));
}

proof fn lemma_chart_994()
    ensures
        chart_signature([(0, 3), (1, 2), (0, 1)], heap_table(10)) == chart_signature([(0, 2), (1, 3), (0, 1)], heap_table(6)),
{
    lemma_heap_entries();
    lemma_codes_of_word_41(heap_table(10));
    lemma_codes_of_word_30(heap_table(6));
    lemma_charts_agree_through([(0, 2), (1, 3), (0, 1)], heap_table(6), [(0, 3), (1, 2), (0, 1)], heap_table(10), 21, (5, 7, 3, 1, 6, 4, 0, 2));
}

proof fn lemma_chart_995()
    ensures
        chart_signature([(0, 3), (1, 2), (0, 1)], heap_table(11)) == chart_signature([(0, 2), (1, 3), (0, 1)], heap_table(9)),
{
    lemma_heap_entries();
    lemma_codes_of_word_41(heap_table(11));
    lemma_codes_of_word_30(heap_table(9));
    lemma_charts_agree_through([(0, 2), (1, 3), (0, 1)], heap_table(9), [(0, 3), (1, 2), (0, 1)], heap_table(11), 21, (5, 7, 3, 1, 6, 4, 0, 2));
}

proof fn lemma_chart_996()
    ensures
        chart_signature([(0, 3), (1, 2), (0, 1)], heap_table(12)) == chart_signature([(0, 2), (1, 3), (0, 1)], heap_table(0)),
{
    lemma_heap_entries();
    lemma_codes_of_word_41(heap_table(12));
    lemma_codes_of_word_30(heap_table(0));
    lemma_charts_agree_through([(0, 2), (1, 3), (0, 1)], heap_table(0), [(0, 3), (1, 2), (0, 1)], heap_table(12), 22, (6, 3, 7, 2, 5, 0, 4, 1));
}

proof fn lemma_chart_997()
    ensures
        chart_signature([(0, 3), (1, 2), (0, 1)], heap_table(13)) == chart_signature([(0, 2), (1, 3), (0, 1)], heap_table(6)),
{
    lemma_heap_entries();
    lemma_codes_of_word_41(heap_table(13));
    lemma_codes_of_word_30(heap_table(6));
    lemma_charts_agree_through([(0, 2), (1, 3), (0, 1)], heap_table(6), [(0, 3), (1, 2), (0, 1)], heap_table(13), 22, (6, 3, 7, 2, 5, 0, 4, 1));
}

proof fn lemma_chart_998()
    ensures
        chart_signature([(0, 3), (1, 2), (0, 1)], heap_table(14)) == chart_signature([(0, 2), (1, 3), (0, 1)], heap_table(15)),
{
    lemma_heap_entries();
    lemma_codes_of_word_41(heap_table(14));
    lemma_codes_of_word_30(heap_table(15));
    lemma_charts_agree_through([(0, 2), (1, 3), (0, 1)], heap_table(15), [(0, 3), (1, 2), (0, 1)], heap_table(14), 20, (3, 6, 5, 0, 7, 2, 1, 4));
}

proof fn lemma_chart_999()
    ensures
        chart_signature([(0, 3), (1, 2), (0, 1)], heap_table(15)) == chart_signature([(0, 2), (1, 3), (0, 1)], heap_table(0)),
{
    lemma_heap_entries();
    lemma_codes_of_word_41(heap_table(15));
    lemma_codes_of_word_30(heap_table(0));
    lemma_charts_agree_through([(0, 2), (1, 3), (0, 1)], heap_table(0), [(0, 3), (1, 2), (0, 1)], heap_table(15), 23, (7, 5, 6, 4, 3, 1, 2, 0));
}

proof fn lemma_chart_1000()
    ensures
        chart_signature([(0, 3), (1, 2), (0, 1)], heap_table(16)) == chart_signature([(0, 2), (1, 3), (0, 1)], heap_table(6)),
{
    lemma_heap_entries();
    lemma_codes_of_word_41(heap_table(16));
    lemma_codes_of_word_30(heap_table(6));
    lemma_charts_agree_through([(0, 2), (1, 3), (0, 1)], heap_table(6), [(0, 3), (1, 2), (0, 1)], heap_table(16), 23, (7, 5, 6, 4, 3, 1, 2, 0));
}

proof fn lemma_chart_1001()
    ensures
        chart_signature([(0, 3), (1, 2), (0, 1)], heap_table(17)) == chart_signature([(0, 2), (1, 3), (0, 1)], heap_table(15)),
{
    lemma_heap_entries();
    lemma_codes_of_word_41(heap_table(17));
    lemma_codes_of_word_30(heap_table(15));
    lemma_charts_agree_through([(0, 2), (1, 3), (0, 1)], heap_table(15), [(0, 3), (1, 2), (0, 1)], heap_table(17), 21, (5, 7, 3, 1, 6, 4, 0, 2));
}

proof fn lemma_chart_1002()
    ensures
        chart_signature([(0, 3), (1, 2), (0, 1)], heap_table(18)) == chart_signature([(0, 2), (1, 3), (0, 1)], heap_table(3)),
{
    lemma_heap_entries();
    lemma_codes_of_word_41(heap_table(18));
    lemma_codes_of_word_30(heap_table(3));
    lemma_charts_agree_through([(0, 2), (1, 3), (0, 1)], heap_table(3), [(0, 3), (1, 2), (0, 1)], heap_table(18), 22, (6, 3, 7, 2, 5, 0, 4, 1));
}

proof fn lemma_chart_1003()
    ensures
        chart_signature([(0, 3), (1, 2), (0, 1)], heap_table(19)) == chart_signature([(0, 2), (1, 3), (0, 1)], heap_table(9)),
{
    lemma_heap_entries();
    lemma_codes_of_word_41(heap_table(19));
    lemma_codes_of_word_30(heap_table(9));
    lemma_charts_agree_through([(0, 2), (1, 3), (0, 1)], heap_table(9), [(0, 3), (1, 2), (0, 1)], heap_table(19), 22, (6, 3, 7, 2, 5, 0, 4, 1));
}

proof fn lemma_chart_1004()
    ensures
        chart_signature([(0, 3), (1, 2), (0, 1)], heap_table(20)) == chart_signature([(0, 2), (1, 3), (0, 1)], heap_table(15)),
{
    lemma_heap_entries();
    lemma_codes_of_word_41(heap_table(20));
    lemma_codes_of_word_30(heap_table(15));
    lemma_charts_agree_through([(0, 2), (1, 3), (0, 1)], heap_table(15), [(0, 3), (1, 2), (0, 1)], heap_table(20), 22, (6, 3, 7, 2, 5, 0, 4, 1));
}

proof fn lemma_chart_1005()
    ensures
        chart_signature([(0, 3), (1, 2), (0, 1)], heap_table(21)) == chart_signature([(0, 2), (1, 3), (0, 1)], heap_table(3)),
{
    lemma_heap_entries();
    lemma_codes_of_word_41(heap_table(21));
    lemma_codes_of_word_30(heap_table(3));
    lemma_charts_agree_through([(0, 2), (1, 3), (0, 1)], heap_table(3), [(0, 3), (1, 2), (0, 1)], heap_table(21), 23, (7, 5, 6, 4, 3, 1, 2, 0));
}

proof fn lemma_chart_1006()
    ensures
        chart_signature([(0, 3), (1, 2), (0, 1)], heap_table(22)) == chart_signature([(0, 2), (1, 3), (0, 1)], heap_table(9)),
{
    lemma_heap_entries();
    lemma_codes_of_word_41(heap_table(22));
    lemma_codes_of_word_30(heap_table(9));
    lemma_charts_agree_through([(0, 2), (1, 3), (0, 1)], heap_table(9), [(0, 3), (1, 2), (0, 1)], heap_table(22), 23, (7, 5, 6, 4, 3, 1, 2, 0));
}

proof fn lemma_chart_1007()
    ensures
        chart_signature([(0, 3), (1, 2), (0, 1)], heap_table(23)) == chart_signature([(0, 2), (1, 3), (0, 1)], heap_table(15)),
{
    lemma_heap_entries();
    lemma_codes_of_word_41(heap_table(23));
    lemma_codes_of_word_30(heap_table(15));
    lemma_charts_agree_through([(0, 2), (1, 3), (0, 1)], heap_table(15), [(0, 3), (1, 2), (0, 1)], heap_table(23), 23, (7, 5, 6, 4, 3, 1, 2, 0));
}

/// Every chart of atlas word 41 shares its signature with the first chart
/// of a class below 216.
pub proof fn lemma_charts_of_word_41()
    ensures
        forall|t: int| 984 <= t < 1008 ==> #[trigger] meets_class_below(t, 216),
{
    lemma_census_words();
    assert forall|t: int| 984 <= t < 1008 implies #[trigger] meets_class_below(t, 216) by {
        if t == 984 { lemma_chart_984(); assert(atlas_signatures()[class_rep(175)] == atlas_signatures()[984]); }
        else if t == 985 { lemma_chart_985(); assert(atlas_signatures()[class_rep(174)] == atlas_signatures()[985]); }
        else if t == 986 { lemma_chart_986(); assert(atlas_signatures()[class_rep(176)] == atlas_signatures()[986]); }
        else if t == 987 { lemma_chart_987(); assert(atlas_signatures()[class_rep(175)] == atlas_signatures()[987]); }
        else if t == 988 { lemma_chart_988(); assert(atlas_signatures()[class_rep(174)] == atlas_signatures()[988]); }
        else if t == 989 { lemma_chart_989(); assert(atlas_signatures()[class_rep(176)] == atlas_signatures()[989]); }
        else if t == 990 { lemma_chart_990(); assert(atlas_signatures()[class_rep(175)] == atlas_signatures()[990]); }
        else if t == 991 { lemma_chart_991(); assert(atlas_signatures()[class_rep(177)] == atlas_signatures()[991]); }
        else if t == 992 { lemma_chart_992(); assert(atlas_signatures()[class_rep(178)] == atlas_signatures()[992]); }
        else if t == 993 { lemma_chart_993(); assert(atlas_signatures()[class_rep(175)] == atlas_signatures()[993]); }
        else if t == 994 { lemma_chart_994(); assert(atlas_signatures()[class_rep(177)] == atlas_signatures()[994]); }
        else if t == 995 { lemma_chart_995(); assert(atlas_signatures()[class_rep(178)] == atlas_signatures()[995]); }
        else if t == 996 { lemma_chart_996(); assert(atlas_signatures()[class_rep(174)] == atlas_signatures()[996]); }
        else if t == 997 { lemma_chart_997(); assert(atlas_signatures()[class_rep(177)] == atlas_signatures()[997]); }
        else if t == 998 { lemma_chart_998(); assert(atlas_signatures()[class_rep(179)] == atlas_signatures()[998]); }
        else if t == 999 { lemma_chart_999(); assert(atlas_signatures()[class_rep(174)] == atlas_signatures()[999]); }
        else if t == 1000 { lemma_chart_1000(); assert(atlas_signatures()[class_rep(177)] == atlas_signatures()[1000]); }
        else if t == 1001 { lemma_chart_1001(); assert(atlas_signatures()[class_rep(179)] == atlas_signatures()[1001]); }
        else if t == 1002 { lemma_chart_1002(); assert(atlas_signatures()[class_rep(176)] == atlas_signatures()[1002]); }
        else if t == 1003 { lemma_chart_1003(); assert(atlas_signatures()[class_rep(178)] == atlas_signatures()[1003]); }
        else if t == 1004 { lemma_chart_1004(); assert(atlas_signatures()[class_rep(179)] == atlas_signatures()[1004]); }
        else if t == 1005 { lemma_chart_1005(); assert(atlas_signatures()[class_rep(176)] == atlas_signatures()[1005]); }
        else if t == 1006 { lemma_chart_1006(); assert(atlas_signatures()[class_rep(178)] == atlas_signatures()[1006]); }
        else { lemma_chart_1007(); assert(atlas_signatures()[class_rep(179)] == atlas_signatures()[1007]); }
    }
}

proof fn lemma_chart_1008()
    ensures
        chart_signature([(0, 3), (1, 2), (0, 2)], heap_table(0)) == chart_signature([(0, 1), (2, 3), (0, 2)], heap_table(4)),
{
    lemma_heap_entries();
    lemma_codes_of_word_42(heap_table(0));
    lemma_codes_of_word_20(heap_table(4));
    lemma_charts_agree_through([(0, 1), (2, 3), (0, 2)], heap_table(4), [(0, 3), (1, 2), (0, 2)], heap_table(0), 21, (5, 7, 3, 1, 6, 4, 0, 2));
}

proof fn lemma_chart_1009()
    ensures
        chart_signature([(0, 3), (1, 2), (0, 2)], heap_table(1)) == chart_signature([(0, 1), (2, 3), (0, 2)], heap_table(2)),
{
    lemma_heap_entries();
    lemma_codes_of_word_42(heap_table(1));
    lemma_codes_of_word_20(heap_table(2));
    lemma_charts_agree_through([(0, 1), (2, 3), (0, 2)], heap_table(2), [(0, 3), (1, 2), (0, 2)], heap_table(1), 20, (3, 6, 5, 0, 7, 2, 1, 4));
}

proof fn lemma_chart_1010()
    ensures
        chart_signature([(0, 3), (1, 2), (0, 2)], heap_table(2)) == chart_signature([(0, 1), (2, 3), (0, 2)], heap_table(0)),
{
    lemma_heap_entries();
    lemma_codes_of_word_42(heap_table(2));
    lemma_codes_of_word_20(heap_table(0));
    lemma_charts_agree_through([(0, 1), (2, 3), (0, 2)], heap_table(0), [(0, 3), (1, 2), (0, 2)], heap_table(2), 21, (5, 7, 3, 1, 6, 4, 0, 2));
}

proof fn lemma_chart_1011()
    ensures
        chart_signature([(0, 3), (1, 2), (0, 2)], heap_table(3)) == chart_signature([(0, 1), (2, 3), (0, 2)], heap_table(4)),
{
    lemma_heap_entries();
    lemma_codes_of_word_42(heap_table(3));
    lemma_codes_of_word_20(heap_table(4));
    lemma_charts_agree_through([(0, 1), (2, 3), (0, 2)], heap_table(4), [(0, 3), (1, 2), (0, 2)], heap_table(3), 20, (3, 6, 5, 0, 7, 2, 1, 4));
}

proof fn lemma_chart_1012()
    ensures
        chart_signature([(0, 3), (1, 2), (0, 2)], heap_table(4)) == chart_signature([(0, 1), (2, 3), (0, 2)], heap_table(2)),
{
    lemma_heap_entries();
    lemma_codes_of_word_42(heap_table(4));
    lemma_codes_of_word_20(heap_table(2));
    lemma_charts_agree_through([(0, 1), (2, 3), (0, 2)], heap_table(2), [(0, 3), (1, 2), (0, 2)], heap_table(4), 21, (5, 7, 3, 1, 6, 4, 0, 2));
}

proof fn lemma_chart_1013()
    ensures
        chart_signature([(0, 3), (1, 2), (0, 2)], heap_table(5)) == chart_signature([(0, 1), (2, 3), (0, 2)], heap_table(0)),
{
    lemma_heap_entries();
    lemma_codes_of_word_42(heap_table(5));
    lemma_codes_of_word_20(heap_table(0));
    lemma_charts_agree_through([(0, 1), (2, 3), (0, 2)], heap_table(0), [(0, 3), (1, 2), (0, 2)], heap_table(5), 20, (3, 6, 5, 0, 7, 2, 1, 4));
}

proof fn lemma_chart_1014()
    ensures
        chart_signature([(0, 3), (1, 2), (0, 2)], heap_table(6)) == chart_signature([(0, 1), (2, 3), (0, 2)], heap_table(4)),
{
    lemma_heap_entries();
    lemma_codes_of_word_42(heap_table(6));
    lemma_codes_of_word_20(heap_table(4));
    lemma_charts_agree_through([(0, 1), (2, 3), (0, 2)], heap_table(4), [(0, 3), (1, 2), (0, 2)], heap_table(6), 23, (7, 5, 6, 4, 3, 1, 2, 0));
}

proof fn lemma_chart_1015()
    ensures
        chart_signature([(0, 3), (1, 2), (0, 2)], heap_table(7)) == chart_signature([(0, 1), (2, 3), (0, 2)], heap_table(8)),
{
    lemma_heap_entries();
    lemma_codes_of_word_42(heap_table(7));
    lemma_codes_of_word_20(heap_table(8));
    lemma_charts_agree_through([(0, 1), (2, 3), (0, 2)], heap_table(8), [(0, 3), (1, 2), (0, 2)], heap_table(7), 20, (3, 6, 5, 0, 7, 2, 1, 4));
}

proof fn lemma_chart_1016()
    ensures
        chart_signature([(0, 3), (1, 2), (0, 2)], heap_table(8)) == chart_signature([(0, 1), (2, 3), (0, 2)], heap_table(6)),
{
    lemma_heap_entries();
    lemma_codes_of_word_42(heap_table(8));
    lemma_codes_of_word_20(heap_table(6));
    lemma_charts_agree_through([(0, 1), (2, 3), (0, 2)], heap_table(6), [(0, 3), (1, 2), (0, 2)], heap_table(8), 21, (5, 7, 3, 1, 6, 4, 0, 2));
}

proof fn lemma_chart_1017()
    ensures
        chart_signature([(0, 3), (1, 2), (0, 2)], heap_table(9)) == chart_signature([(0, 1), (2, 3), (0, 2)], heap_table(4)),
{
    lemma_heap_entries();
    lemma_codes_of_word_42(heap_table(9));
    lemma_codes_of_word_20(heap_table(4));
    lemma_charts_agree_through([(0, 1), (2, 3), (0, 2)], heap_table(4), [(0, 3), (1, 2), (0, 2)], heap_table(9), 22, (6, 3, 7, 2, 5, 0, 4, 1));
}

proof fn lemma_chart_1018()
    ensures
        chart_signature([(0, 3), (1, 2), (0, 2)], heap_table(10)) == chart_signature([(0, 1), (2, 3), (0, 2)], heap_table(8)),
{
    lemma_heap_entries();
    lemma_codes_of_word_42(heap_table(10));
    lemma_codes_of_word_20(heap_table(8));
    lemma_charts_agree_through([(0, 1), (2, 3), (0, 2)], heap_table(8), [(0, 3), (1, 2), (0, 2)], heap_table(10), 21, (5, 7, 3, 1, 6, 4, 0, 2));
}

proof fn lemma_chart_1019()
    ensures
        chart_signature([(0, 3), (1, 2), (0, 2)], heap_table(11)) == chart_signature([(0, 1), (2, 3), (0, 2)], heap_table(6)),
{
    lemma_heap_entries();
    lemma_codes_of_word_42(heap_table(11));
    lemma_codes_of_word_20(heap_table(6));
    lemma_charts_agree_through([(0, 1), (2, 3), (0, 2)], heap_table(6), [(0, 3), (1, 2), (0, 2)], heap_table(11), 20, (3, 6, 5, 0, 7, 2, 1, 4));
}

proof fn lemma_chart_1020()
    ensures
        chart_signature([(0, 3), (1, 2), (0, 2)], heap_table(12)) == chart_signature([(0, 1), (2, 3), (0, 2)], heap_table(2)),
{
    lemma_heap_entries();
    lemma_codes_of_word_42(heap_table(12));
    lemma_codes_of_word_20(heap_table(2));
    lemma_charts_agree_through([(0, 1), (2, 3), (0, 2)], heap_table(2), [(0, 3), (1, 2), (0, 2)], heap_table(12), 22, (6, 3, 7, 2, 5, 0, 4, 1));
}

proof fn lemma_chart_1021()
    ensures
        chart_signature([(0, 3), (1, 2), (0, 2)], heap_table(13)) == chart_signature([(0, 1), (2, 3), (0, 2)], heap_table(8)),
{
    lemma_heap_entries();
    lemma_codes_of_word_42(heap_table(13));
    lemma_codes_of_word_20(heap_table(8));
    lemma_charts_agree_through([(0, 1), (2, 3), (0, 2)], heap_table(8), [(0, 3), (1, 2), (0, 2)], heap_table(13), 22, (6, 3, 7, 2, 5, 0, 4, 1));
}

proof fn lemma_chart_1022()
    ensures
        chart_signature([(0, 3), (1, 2), (0, 2)], heap_table(14)) == chart_signature([(0, 1), (2, 3), (0, 2)], heap_table(12)),
{
    lemma_heap_entries();
    lemma_codes_of_word_42(heap_table(14));
    lemma_codes_of_word_20(heap_table(12));
    lemma_charts_agree_through([(0, 1), (2, 3), (0, 2)], heap_table(12), [(0, 3), (1, 2), (0, 2)], heap_table(14), 21, (5, 7, 3, 1, 6, 4, 0, 2));
}

proof fn lemma_chart_1023()
    ensures
        chart_signature([(0, 3), (1, 2), (0, 2)], heap_table(15)) == chart_signature([(0, 1), (2, 3), (0, 2)], heap_table(2)),
{
    lemma_heap_entries();
    lemma_codes_of_word_42(heap_table(15));
    lemma_codes_of_word_20(heap_table(2));
    lemma_charts_agree_through([(0, 1), (2, 3), (0, 2)], heap_table(2), [(0, 3), (1, 2), (0, 2)], heap_table(15), 23, (7, 5, 6, 4, 3, 1, 2, 0));
}

proof fn lemma_chart_1024()
    ensures
        chart_signature([(0, 3), (1, 2), (0, 2)], heap_table(16)) == chart_signature([(0, 1), (2, 3), (0, 2)], heap_table(8)),
{
    lemma_heap_entries();
    lemma_codes_of_word_42(heap_table(16));
    lemma_codes_of_word_20(heap_table(8));
    lemma_charts_agree_through([(0, 1), (2, 3), (0, 2)], heap_table(8), [(0, 3), (1, 2), (0, 2)], heap_table(16), 23, (7, 5, 6, 4, 3, 1, 2, 0));
}

proof fn lemma_chart_1025()
    ensures
        chart_signature([(0, 3), (1, 2), (0, 2)], heap_table(17)) == chart_signature([(0, 1), (2, 3), (0, 2)], heap_table(12)),
{
    lemma_heap_entries();
    lemma_codes_of_word_42(heap_table(17));
    lemma_codes_of_word_20(heap_table(12));
    lemma_charts_agree_through([(0, 1), (2, 3), (0, 2)], heap_table(12), [(0, 3), (1, 2), (0, 2)], heap_table(17), 20, (3, 6, 5, 0, 7, 2, 1, 4));
}

proof fn lemma_chart_1026()
    ensures
        chart_signature([(0, 3), (1, 2), (0, 2)], heap_table(18)) == chart_signature([(0, 1), (2, 3), (0, 2)], heap_table(0)),
{
    lemma_heap_entries();
    lemma_codes_of_word_42(heap_table(18));
    lemma_codes_of_word_20(heap_table(0));
    lemma_charts_agree_through([(0, 1), (2, 3), (0, 2)], heap_table(0), [(0, 3), (1, 2), (0, 2)], heap_table(18), 23, (7, 5, 6, 4, 3, 1, 2, 0));
}

proof fn lemma_chart_1027()
    ensures
        chart_signature([(0, 3), (1, 2), (0, 2)], heap_table(19)) == chart_signature([(0, 1), (2, 3), (0, 2)], heap_table(6)),
{
    lemma_heap_entries();
    lemma_codes_of_word_42(heap_table(19));
    lemma_codes_of_word_20(heap_table(6));
    lemma_charts_agree_through([(0, 1), (2, 3), (0, 2)], heap_table(6), [(0, 3), (1, 2), (0, 2)], heap_table(19), 23, (7, 5, 6, 4, 3, 1, 2, 0));
}

proof fn lemma_chart_1028()
    ensures
        chart_signature([(0, 3), (1, 2), (0, 2)], heap_table(20)) == chart_signature([(0, 1), (2, 3), (0, 2)], heap_table(12)),
{
    lemma_heap_entries();
    lemma_codes_of_word_42(heap_table(20));
    lemma_codes_of_word_20(heap_table(12));
    lemma_charts_agree_through([(0, 1), (2, 3), (0, 2)], heap_table(12), [(0, 3), (1, 2), (0, 2)], heap_table(20), 23, (7, 5, 6, 4, 3, 1, 2, 0));
}

proof fn lemma_chart_1029()
    ensures
        chart_signature([(0, 3), (1, 2), (0, 2)], heap_table(21)) == chart_signature([(0, 1), (2, 3), (0, 2)], heap_table(0)),
{
    lemma_heap_entries();
    lemma_codes_of_word_42(heap_table(21));
    lemma_codes_of_word_20(heap_table(0));
    lemma_charts_agree_through([(0, 1), (2, 3), (0, 2)], heap_table(0), [(0, 3), (1, 2), (0, 2)], heap_table(21), 22, (6, 3, 7, 2, 5, 0, 4, 1));
}

proof fn lemma_chart_1030()
    ensures
        chart_signature([(0, 3), (1, 2), (0, 2)], heap_table(22)) == chart_signature([(0, 1), (2, 3), (0, 2)], heap_table(6)),
{
    lemma_heap_entries();
    lemma_codes_of_word_42(heap_table(22));
    lemma_codes_of_word_20(heap_table(6));
    lemma_charts_agree_through([(0, 1), (2, 3), (0, 2)], heap_table(6), [(0, 3), (1, 2), (0, 2)], heap_table(22), 22, (6, 3, 7, 2, 5, 0, 4, 1));
}

proof fn lemma_chart_1031()
    ensures
        chart_signature([(0, 3), (1, 2), (0, 2)], heap_table(23)) == chart_signature([(0, 1), (2, 3), (0, 2)], heap_table(12)),
{
    lemma_heap_entries();
    lemma_codes_of_word_42(heap_table(23));
    lemma_codes_of_word_20(heap_table(12));
    lemma_charts_agree_through([(0, 1), (2, 3), (0, 2)], heap_table(12), [(0, 3), (1, 2), (0, 2)], heap_table(23), 22, (6, 3, 7, 2, 5, 0, 4, 1));
}

/// Every chart of atlas word 42 shares its signature with the first chart
/// of a class below 216.
pub proof fn lemma_charts_of_word_42()
    ensures
        forall|t: int| 1008 <= t < 1032 ==> #[trigger] meets_class_below(t, 216),
{
    lemma_census_words();
    assert forall|t: int| 1008 <= t < 1032 implies #[trigger] meets_class_below(t, 216) by {
        if t == 1008 { lemma_chart_1008(); assert(atlas_signatures()[class_rep(128)] == atlas_signatures()[1008]); }
        else if t == 1009 { lemma_chart_1009(); assert(atlas_signatures()[class_rep(127)] == atlas_signatures()[1009]); }
        else if t == 1010 { lemma_chart_1010(); assert(atlas_signatures()[class_rep(126)] == atlas_signatures()[1010]); }
        else if t == 1011 { lemma_chart_1011(); assert(atlas_signatures()[class_rep(128)] == atlas_signatures()[1011]); }
        else if t == 1012 { lemma_chart_1012(); assert(atlas_signatures()[class_rep(127)] == atlas_signatures()[1012]); }
        else if t == 1013 { lemma_chart_1013(); assert(atlas_signatures()[class_rep(126)] == atlas_signatures()[1013]); }
        else if t == 1014 { lemma_chart_1014(); assert(atlas_signatures()[class_rep(128)] == atlas_signatures()[1014]); }
        else if t == 1015 { lemma_chart_1015(); assert(atlas_signatures()[class_rep(130)] == atlas_signatures()[1015]); }
        else if t == 1016 { lemma_chart_1016(); assert(atlas_signatures()[class_rep(129)] == atlas_signatures()[1016]); }
        else if t == 1017 { lemma_chart_1017(); assert(atlas_signatures()[class_rep(128)] == atlas_signatures()[1017]); }
        else if t == 1018 { lemma_chart_1018(); assert(atlas_signatures()[class_rep(130)] == atlas_signatures()[1018]); }
        else if t == 1019 { lemma_chart_1019(); assert(atlas_signatures()[class_rep(129)] == atlas_signatures()[1019]); }
        else if t == 1020 { lemma_chart_1020(); assert(atlas_signatures()[class_rep(127)] == atlas_signatures()[1020]); }
        else if t == 1021 { lemma_chart_1021(); assert(atlas_signatures()[class_rep(130)] == atlas_signatures()[1021]); }
        else if t == 1022 { lemma_chart_1022(); assert(atlas_signatures()[class_rep(131)] == atlas_signatures()[1022]); }
        else if t == 1023 { lemma_chart_1023(); assert(atlas_signatures()[class_rep(127)] == atlas_signatures()[1023]); }
        else if t == 1024 { lemma_chart_1024(); assert(atlas_signatures()[class_rep(130)] == atlas_signatures()[1024]); }
        else if t == 1025 { lemma_chart_1025(); assert(atlas_signatures()[class_rep(131)] == atlas_signatures()[1025]); }
        else if t == 1026 { lemma_chart_1026(); assert(atlas_signatures()[class_rep(126)] == atlas_signatures()[1026]); }
        else if t == 1027 { lemma_chart_1027(); assert(atlas_signatures()[class_rep(129)] == atlas_signatures()[1027]); }
        else if t == 1028 { lemma_chart_1028(); assert(atlas_signatures()[class_rep(131)] == atlas_signatures()[1028]); }
        else if t == 1029 { lemma_chart_1029(); assert(atlas_signatures()[class_rep(126)] == atlas_signatures()[1029]); }
        else if t == 1030 { lemma_chart_1030(); assert(atlas_signatures()[class_rep(129)] == atlas_signatures()[1030]); }
        else { lemma_chart_1031(); assert(atlas_signatures()[class_rep(131)] == atlas_signatures()[1031]); }
    }
}

proof fn lemma_chart_1032()
    ensures
        chart_signature([(0, 3), (1, 3), (0, 2)], heap_table(0)) == chart_signature([(0, 1), (0, 2), (1, 3)], heap_table(12)),
{
    lemma_heap_entries();
    lemma_codes_of_word_43(heap_table(0));
    lemma_codes_of_word_7(heap_table(12));
    lemma_charts_agree_through([(0, 1), (0, 2), (1, 3)], heap_table(12), [(0, 3), (1, 3), (0, 2)], heap_table(0), 13, (5, 3, 1, 7, 0, 6, 4, 2));
}

proof fn lemma_chart_1033()
    ensures
        chart_signature([(0, 3), (1, 3), (0, 2)], heap_table(1)) == chart_signature([(0, 1), (0, 2), (1, 3)], heap_table(6)),
{
    lemma_heap_entries();
    lemma_codes_of_word_43(heap_table(1));
    lemma_codes_of_word_7(heap_table(6));
    lemma_charts_agree_through([(0, 1), (0, 2), (1, 3)], heap_table(6), [(0, 3), (1, 3), (0, 2)], heap_table(1), 13, (5, 3, 1, 7, 0, 6, 4, 2));
}

proof fn lemma_chart_1034()
    ensures
        chart_signature([(0, 3), (1, 3), (0, 2)], heap_table(2)) == chart_signature([(0, 1), (0, 2), (1, 3)], heap_table(8)),
{
    lemma_heap_entries();
    lemma_codes_of_word_43(heap_table(2));
    lemma_codes_of_word_7(heap_table(8));
    lemma_charts_agree_through([(0, 1), (0, 2), (1, 3)], heap_table(8), [(0, 3), (1, 3), (0, 2)], heap_table(2), 12, (3, 5, 0, 6, 1, 7, 2, 4));
}

proof fn lemma_chart_1035()
    ensures
        chart_signature([(0, 3), (1, 3), (0, 2)], heap_table(3)) == chart_signature([(0, 1), (0, 2), (1, 3)], heap_table(18)),
{
    lemma_heap_entries();
    lemma_codes_of_word_43(heap_table(3));
    lemma_codes_of_word_7(heap_table(18));
    lemma_charts_agree_through([(0, 1), (0, 2), (1, 3)], heap_table(18), [(0, 3), (1, 3), (0, 2)], heap_table(3), 13, (5, 3, 1, 7, 0, 6, 4, 2));
}

proof fn lemma_chart_1036()
    ensures
        chart_signature([(0, 3), (1, 3), (0, 2)], heap_table(4)) == chart_signature([(0, 1), (0, 2), (1, 3)], heap_table(20)),
{
    lemma_heap_entries();
    lemma_codes_of_word_43(heap_table(4));
    lemma_codes_of_word_7(heap_table(20));
    lemma_charts_agree_through([(0, 1), (0, 2), (1, 3)], heap_table(20), [(0, 3), (1, 3), (0, 2)], heap_table(4), 12, (3, 5, 0, 6, 1, 7, 2, 4));
}

proof fn lemma_chart_1037()
    ensures
        chart_signature([(0, 3), (1, 3), (0, 2)], heap_table(5)) == chart_signature([(0, 1), (0, 2), (1, 3)], heap_table(14)),
{
    lemma_heap_entries();
    lemma_codes_of_word_43(heap_table(5));
    lemma_codes_of_word_7(heap_table(14));
    lemma_charts_agree_through([(0, 1), (0, 2), (1, 3)], heap_table(14), [(0, 3), (1, 3), (0, 2)], heap_table(5), 12, (3, 5, 0, 6, 1, 7, 2, 4));
}

proof fn lemma_chart_1038()
    ensures
        chart_signature([(0, 3), (1, 3), (0, 2)], heap_table(6)) == chart_signature([(0, 1), (0, 2), (1, 3)], heap_table(12)),
{
    lemma_heap_entries();
    lemma_codes_of_word_43(heap_table(6));
    lemma_codes_of_word_7(heap_table(12));
    lemma_charts_agree_through([(0, 1), (0, 2), (1, 3)], heap_table(12), [(0, 3), (1, 3), (0, 2)], heap_table(6), 12, (3, 5, 0, 6, 1, 7, 2, 4));
}

proof fn lemma_chart_1039()
    ensures
        chart_signature([(0, 3), (1, 3), (0, 2)], heap_table(7)) == chart_signature([(0, 1), (0, 2), (1, 3)], heap_table(0)),
{
    lemma_heap_entries();
    lemma_codes_of_word_43(heap_table(7));
    lemma_codes_of_word_7(heap_table(0));
    lemma_charts_agree_through([(0, 1), (0, 2), (1, 3)], heap_table(0), [(0, 3), (1, 3), (0, 2)], heap_table(7), 13, (5, 3, 1, 7, 0, 6, 4, 2));
}

proof fn lemma_chart_1040()
    ensures
        chart_signature([(0, 3), (1, 3), (0, 2)], heap_table(8)) == chart_signature([(0, 1), (0, 2), (1, 3)], heap_table(2)),
{
    lemma_heap_entries();
    lemma_codes_of_word_43(heap_table(8));
    lemma_codes_of_word_7(heap_table(2));
    lemma_charts_agree_through([(0, 1), (0, 2), (1, 3)], heap_table(2), [(0, 3), (1, 3), (0, 2)], heap_table(8), 12, (3, 5, 0, 6, 1, 7, 2, 4));
}

proof fn lemma_chart_1041()
    ensures
        chart_signature([(0, 3), (1, 3), (0, 2)], heap_table(9)) == chart_signature([(0, 1), (0, 2), (1, 3)], heap_table(18)),
{
    lemma_heap_entries();
    lemma_codes_of_word_43(heap_table(9));
    lemma_codes_of_word_7(heap_table(18));
    lemma_charts_agree_through([(0, 1), (0, 2), (1, 3)], heap_table(18), [(0, 3), (1, 3), (0, 2)], heap_table(9), 12, (3, 5, 0, 6, 1, 7, 2, 4));
}

proof fn lemma_chart_1042()
    ensures
        chart_signature([(0, 3), (1, 3), (0, 2)], heap_table(10)) == chart_signature([(0, 1), (0, 2), (1, 3)], heap_table(22)),
{
    lemma_heap_entries();
    lemma_codes_of_word_43(heap_table(10));
    lemma_codes_of_word_7(heap_table(22));
    lemma_charts_agree_through([(0, 1), (0, 2), (1, 3)], heap_table(22), [(0, 3), (1, 3), (0, 2)], heap_table(10), 13, (5, 3, 1, 7, 0, 6, 4, 2));
}

proof fn lemma_chart_1043()
    ensures
        chart_signature([(0, 3), (1, 3), (0, 2)], heap_table(11)) == chart_signature([(0, 1), (0, 2), (1, 3)], heap_table(16)),
{
    lemma_heap_entries();
    lemma_codes_of_word_43(heap_table(11));
    lemma_codes_of_word_7(heap_table(16));
    lemma_charts_agree_through([(0, 1), (0, 2), (1, 3)], heap_table(16), [(0, 3), (1, 3), (0, 2)], heap_table(11), 13, (5, 3, 1, 7, 0, 6, 4, 2));
}

proof fn lemma_chart_1044()
    ensures
        chart_signature([(0, 3), (1, 3), (0, 2)], heap_table(12)) == chart_signature([(0, 1), (0, 2), (1, 3)], heap_table(6)),
{
    lemma_heap_entries();
    lemma_codes_of_word_43(heap_table(12));
    lemma_codes_of_word_7(heap_table(6));
    lemma_charts_agree_through([(0, 1), (0, 2), (1, 3)], heap_table(6), [(0, 3), (1, 3), (0, 2)], heap_table(12), 12, (3, 5, 0, 6, 1, 7, 2, 4));
}

proof fn lemma_chart_1045()
    ensures
        chart_signature([(0, 3), (1, 3), (0, 2)], heap_table(13)) == chart_signature([(0, 1), (0, 2), (1, 3)], heap_table(0)),
{
    lemma_heap_entries();
    lemma_codes_of_word_43(heap_table(13));
    lemma_codes_of_word_7(heap_table(0));
    lemma_charts_agree_through([(0, 1), (0, 2), (1, 3)], heap_table(0), [(0, 3), (1, 3), (0, 2)], heap_table(13), 12, (3, 5, 0, 6, 1, 7, 2, 4));
}

proof fn lemma_chart_1046()
    ensures
        chart_signature([(0, 3), (1, 3), (0, 2)], heap_table(14)) == chart_signature([(0, 1), (0, 2), (1, 3)], heap_table(4)),
{
    lemma_heap_entries();
    lemma_codes_of_word_43(heap_table(14));
    lemma_codes_of_word_7(heap_table(4));
    lemma_charts_agree_through([(0, 1), (0, 2), (1, 3)], heap_table(4), [(0, 3), (1, 3), (0, 2)], heap_table(14), 13, (5, 3, 1, 7, 0, 6, 4, 2));
}

proof fn lemma_chart_1047()
    ensures
        chart_signature([(0, 3), (1, 3), (0, 2)], heap_table(15)) == chart_signature([(0, 1), (0, 2), (1, 3)], heap_table(20)),
{
    lemma_heap_entries();
    lemma_codes_of_word_43(heap_table(15));
    lemma_codes_of_word_7(heap_table(20));
    lemma_charts_agree_through([(0, 1), (0, 2), (1, 3)], heap_table(20), [(0, 3), (1, 3), (0, 2)], heap_table(15), 13, (5, 3, 1, 7, 0, 6, 4, 2));
}

proof fn lemma_chart_1048()
    ensures
        chart_signature([(0, 3), (1, 3), (0, 2)], heap_table(16)) == chart_signature([(0, 1), (0, 2), (1, 3)], heap_table(22)),
{
    lemma_heap_entries();
    lemma_codes_of_word_43(heap_table(16));
    lemma_codes_of_word_7(heap_table(22));
    lemma_charts_agree_through([(0, 1), (0, 2), (1, 3)], heap_table(22), [(0, 3), (1, 3), (0, 2)], heap_table(16), 12, (3, 5, 0, 6, 1, 7, 2, 4));
}

proof fn lemma_chart_1049()
    ensures
        chart_signature([(0, 3), (1, 3), (0, 2)], heap_table(17)) == chart_signature([(0, 1), (0, 2), (1, 3)], heap_table(10)),
{
    lemma_heap_entries();
    lemma_codes_of_word_43(heap_table(17));
    lemma_codes_of_word_7(heap_table(10));
    lemma_charts_agree_through([(0, 1), (0, 2), (1, 3)], heap_table(10), [(0, 3), (1, 3), (0, 2)], heap_table(17), 13, (5, 3, 1, 7, 0, 6, 4, 2));
}

proof fn lemma_chart_1050()
    ensures
        chart_signature([(0, 3), (1, 3), (0, 2)], heap_table(18)) == chart_signature([(0, 1), (0, 2), (1, 3)], heap_table(8)),
{
    lemma_heap_entries();
    lemma_codes_of_word_43(heap_table(18));
    lemma_codes_of_word_7(heap_table(8));
    lemma_charts_agree_through([(0, 1), (0, 2), (1, 3)], heap_table(8), [(0, 3), (1, 3), (0, 2)], heap_table(18), 13, (5, 3, 1, 7, 0, 6, 4, 2));
}

proof fn lemma_chart_1051()
    ensures
        chart_signature([(0, 3), (1, 3), (0, 2)], heap_table(19)) == chart_signature([(0, 1), (0, 2), (1, 3)], heap_table(2)),
{
    lemma_heap_entries();
    lemma_codes_of_word_43(heap_table(19));
    lemma_codes_of_word_7(heap_table(2));
    lemma_charts_agree_through([(0, 1), (0, 2), (1, 3)], heap_table(2), [(0, 3), (1, 3), (0, 2)], heap_table(19), 13, (5, 3, 1, 7, 0, 6, 4, 2));
}

proof fn lemma_chart_1052()
    ensures
        chart_signature([(0, 3), (1, 3), (0, 2)], heap_table(20)) == chart_signature([(0, 1), (0, 2), (1, 3)], heap_table(4)),
{
    lemma_heap_entries();
    lemma_codes_of_word_43(heap_table(20));
    lemma_codes_of_word_7(heap_table(4));
    lemma_charts_agree_through([(0, 1), (0, 2), (1, 3)], heap_table(4), [(0, 3), (1, 3), (0, 2)], heap_table(20), 12, (3, 5, 0, 6, 1, 7, 2, 4));
}

proof fn lemma_chart_1053()
    ensures
        chart_signature([(0, 3), (1, 3), (0, 2)], heap_table(21)) == chart_signature([(0, 1), (0, 2), (1, 3)], heap_table(14)),
{
    lemma_heap_entries();
    lemma_codes_of_word_43(heap_table(21));
    lemma_codes_of_word_7(heap_table(14));
    lemma_charts_agree_through([(0, 1), (0, 2), (1, 3)], heap_table(14), [(0, 3), (1, 3), (0, 2)], heap_table(21), 13, (5, 3, 1, 7, 0, 6, 4, 2));
}

proof fn lemma_chart_1054()
    ensures
        chart_signature([(0, 3), (1, 3), (0, 2)], heap_table(22)) == chart_signature([(0, 1), (0, 2), (1, 3)], heap_table(16)),
{
    lemma_heap_entries();
    lemma_codes_of_word_43(heap_table(22));
    lemma_codes_of_word_7(heap_table(16));
    lemma_charts_agree_through([(0, 1), (0, 2), (1, 3)], heap_table(16), [(0, 3), (1, 3), (0, 2)], heap_table(22), 12, (3, 5, 0, 6, 1, 7, 2, 4));
}

proof fn lemma_chart_1055()
    ensures
        chart_signature([(0, 3), (1, 3), (0, 2)], heap_table(23)) == chart_signature([(0, 1), (0, 2), (1, 3)], heap_table(10)),
{
    lemma_heap_entries();
    lemma_codes_of_word_43(heap_table(23));
    lemma_codes_of_word_7(heap_table(10));
    lemma_charts_agree_through([(0, 1), (0, 2), (1, 3)], heap_table(10), [(0, 3), (1, 3), (0, 2)], heap_table(23), 12, (3, 5, 0, 6, 1, 7, 2, 4));
}

/// Every chart of atlas word 43 shares its signature with the first chart
/// of a class below 216.
pub proof fn lemma_charts_of_word_43()
    ensures
        forall|t: int| 1032 <= t < 1056 ==> #[trigger] meets_class_below(t, 216),
{
    lemma_census_words();
    assert forall|t: int| 1032 <= t < 1056 implies #[trigger] meets_class_below(t, 216) by {
        if t == 1032 { lemma_chart_1032(); assert(atlas_signatures()[class_rep(78)] == atlas_signatures()[1032]); }
        else if t == 1033 { lemma_chart_1033(); assert(atlas_signatures()[class_rep(75)] == atlas_signatures()[1033]); }
        else if t == 1034 { lemma_chart_1034(); assert(atlas_signatures()[class_rep(76)] == atlas_signatures()[1034]); }
        else if t == 1035 { lemma_chart_1035(); assert(atlas_signatures()[class_rep(81)] == atlas_signatures()[1035]); }
        else if t == 1036 { lemma_chart_1036(); assert(atlas_signatures()[class_rep(82)] == atlas_signatures()[1036]); }
        else if t == 1037 { lemma_chart_1037(); assert(atlas_signatures()[class_rep(79)] == atlas_signatures()[1037]); }
        else if t == 1038 { lemma_chart_1038(); assert(atlas_signatures()[class_rep(78)] == atlas_signatures()[1038]); }
        else if t == 1039 { lemma_chart_1039(); assert(atlas_signatures()[class_rep(72)] == atlas_signatures()[1039]); }
        else if t == 1040 { lemma_chart_1040(); assert(atlas_signatures()[class_rep(73)] == atlas_signatures()[1040]); }
        else if t == 1041 { lemma_chart_1041(); assert(atlas_signatures()[class_rep(81)] == atlas_signatures()[1041]); }
        else if t == 1042 { lemma_chart_1042(); assert(atlas_signatures()[class_rep(83)] == atlas_signatures()[1042]); }
        else if t == 1043 { lemma_chart_1043(); assert(atlas_signatures()[class_rep(80)] == atlas_signatures()[1043]); }
        else if t == 1044 { lemma_chart_1044(); assert(atlas_signatures()[class_rep(75)] == atlas_signatures()[1044]); }
        else if t == 1045 { lemma_chart_1045(); assert(atlas_signatures()[class_rep(72)] == atlas_signatures()[1045]); }
        else if t == 1046 { lemma_chart_1046(); assert(atlas_signatures()[class_rep(74)] == atlas_signatures()[1046]); }
        else if t == 1047 { lemma_chart_1047(); assert(atlas_signatures()[class_rep(82)] == atlas_signatures()[1047]); }
        else if t == 1048 { lemma_chart_1048(); assert(atlas_signatures()[class_rep(83)] == atlas_signatures()[1048]); }
        else if t == 1049 { lemma_chart_1049(); assert(atlas_signatures()[class_rep(77)] == atlas_signatures()[1049]); }
        else if t == 1050 { lemma_chart_1050(); assert(atlas_signatures()[class_rep(76)] == atlas_signatures()[1050]); }
        else if t == 1051 { lemma_chart_1051(); assert(atlas_signatures()[class_rep(73)] == atlas_signatures()[1051]); }
        else if t == 1052 { lemma_chart_1052(); assert(atlas_signatures()[class_rep(74)] == atlas_signatures()[1052]); }
        else if t == 1053 { lemma_chart_1053(); assert(atlas_signatures()[class_rep(79)] == atlas_signatures()[1053]); }
        else if t == 1054 { lemma_chart_1054(); assert(atlas_signatures()[class_rep(80)] == atlas_signatures()[1054]); }
        else { lemma_chart_1055(); assert(atlas_signatures()[class_rep(77)] == atlas_signatures()[1055]); }
    }
}

proof fn lemma_chart_1056()
    ensures
        chart_signature([(0, 3), (1, 3), (1, 2)], heap_table(0)) == chart_signature([(0, 1), (1, 3), (1, 2)], heap_table(12)),
{
    lemma_heap_entries();
    lemma_codes_of_word_44(heap_table(0));
    lemma_codes_of_word_19(heap_table(12));
    lemma_charts_agree_through([(0, 1), (1, 3), (1, 2)], heap_table(12), [(0, 3), (1, 3), (1, 2)], heap_table(0), 3, (4, 2, 1, 7, 0, 6, 5, 3));
}

proof fn lemma_chart_1057()
    ensures
        chart_signature([(0, 3), (1, 3), (1, 2)], heap_table(1)) == chart_signature([(0, 1), (1, 3), (1, 2)], heap_table(6)),
{
    lemma_heap_entries();
    lemma_codes_of_word_44(heap_table(1));
    lemma_codes_of_word_19(heap_table(6));
    lemma_charts_agree_through([(0, 1), (1, 3), (1, 2)], heap_table(6), [(0, 3), (1, 3), (1, 2)], heap_table(1), 3, (4, 2, 1, 7, 0, 6, 5, 3));
}

proof fn lemma_chart_1058()
    ensures
        chart_signature([(0, 3), (1, 3), (1, 2)], heap_table(2)) == chart_signature([(0, 1), (1, 3), (1, 2)], heap_table(8)),
{
    lemma_heap_entries();
    lemma_codes_of_word_44(heap_table(2));
    lemma_codes_of_word_19(heap_table(8));
    lemma_charts_agree_through([(0, 1), (1, 3), (1, 2)], heap_table(8), [(0, 3), (1, 3), (1, 2)], heap_table(2), 2, (2, 4, 0, 6, 1, 7, 3, 5));
}

proof fn lemma_chart_1059()
    ensures
        chart_signature([(0, 3), (1, 3), (1, 2)], heap_table(3)) == chart_signature([(0, 1), (1, 3), (1, 2)], heap_table(18)),
{
    lemma_heap_entries();
    lemma_codes_of_word_44(heap_table(3));
    lemma_codes_of_word_19(heap_table(18));
    lemma_charts_agree_through([(0, 1), (1, 3), (1, 2)], heap_table(18), [(0, 3), (1, 3), (1, 2)], heap_table(3), 3, (4, 2, 1, 7, 0, 6, 5, 3));
}

proof fn lemma_chart_1060()
    ensures
        chart_signature([(0, 3), (1, 3), (1, 2)], heap_table(4)) == chart_signature([(0, 1), (1, 3), (1, 2)], heap_table(20)),
{
    lemma_heap_entries();
    lemma_codes_of_word_44(heap_table(4));
    lemma_codes_of_word_19(heap_table(20));
    lemma_charts_agree_through([(0, 1), (1, 3), (1, 2)], heap_table(20), [(0, 3), (1, 3), (1, 2)], heap_table(4), 2, (2, 4, 0, 6, 1, 7, 3, 5));
}

proof fn lemma_chart_1061()
    ensures
        chart_signature([(0, 3), (1, 3), (1, 2)], heap_table(5)) == chart_signature([(0, 1), (1, 3), (1, 2)], heap_table(14)),
{
    lemma_heap_entries();
    lemma_codes_of_word_44(heap_table(5));
    lemma_codes_of_word_19(heap_table(14));
    lemma_charts_agree_through([(0, 1), (1, 3), (1, 2)], heap_table(14), [(0, 3), (1, 3), (1, 2)], heap_table(5), 2, (2, 4, 0, 6, 1, 7, 3, 5));
}

proof fn lemma_chart_1062()
    ensures
        chart_signature([(0, 3), (1, 3), (1, 2)], heap_table(6)) == chart_signature([(0, 1), (1, 3), (1, 2)], heap_table(12)),
{
    lemma_heap_entries();
    lemma_codes_of_word_44(heap_table(6));
    lemma_codes_of_word_19(heap_table(12));
    lemma_charts_agree_through([(0, 1), (1, 3), (1, 2)], heap_table(12), [(0, 3), (1, 3), (1, 2)], heap_table(6), 2, (2, 4, 0, 6, 1, 7, 3, 5));
}

proof fn lemma_chart_1063()
    ensures
        chart_signature([(0, 3), (1, 3), (1, 2)], heap_table(7)) == chart_signature([(0, 1), (1, 3), (1, 2)], heap_table(0)),
{
    lemma_heap_entries();
    lemma_codes_of_word_44(heap_table(7));
    lemma_codes_of_word_19(heap_table(0));
    lemma_charts_agree_through([(0, 1), (1, 3), (1, 2)], heap_table(0), [(0, 3), (1, 3), (1, 2)], heap_table(7), 3, (4, 2, 1, 7, 0, 6, 5, 3));
}

proof fn lemma_chart_1064()
    ensures
        chart_signature([(0, 3), (1, 3), (1, 2)], heap_table(8)) == chart_signature([(0, 1), (1, 3), (1, 2)], heap_table(2)),
{
    lemma_heap_entries();
    lemma_codes_of_word_44(heap_table(8));
    lemma_codes_of_word_19(heap_table(2));
    lemma_charts_agree_through([(0, 1), (1, 3), (1, 2)], heap_table(2), [(0, 3), (1, 3), (1, 2)], heap_table(8), 2, (2, 4, 0, 6, 1, 7, 3, 5));
}

proof fn lemma_chart_1065()
    ensures
        chart_signature([(0, 3), (1, 3), (1, 2)], heap_table(9)) == chart_signature([(0, 1), (1, 3), (1, 2)], heap_table(18)),
{
    lemma_heap_entries();
    lemma_codes_of_word_44(heap_table(9));
    lemma_codes_of_word_19(heap_table(18));
    lemma_charts_agree_through([(0, 1), (1, 3), (1, 2)], heap_table(18), [(0, 3), (1, 3), (1, 2)], heap_table(9), 2, (2, 4, 0, 6, 1, 7, 3, 5));
}

proof fn lemma_chart_1066()
    ensures
        chart_signature([(0, 3), (1, 3), (1, 2)], heap_table(10)) == chart_signature([(0, 1), (1, 3), (1, 2)], heap_table(22)),
{
    lemma_heap_entries();
    lemma_codes_of_word_44(heap_table(10));
    lemma_codes_of_word_19(heap_table(22));
    lemma_charts_agree_through([(0, 1), (1, 3), (1, 2)], heap_table(22), [(0, 3), (1, 3), (1, 2)], heap_table(10), 3, (4, 2, 1, 7, 0, 6, 5, 3));
}

proof fn lemma_chart_1067()
    ensures
        chart_signature([(0, 3), (1, 3), (1, 2)], heap_table(11)) == chart_signature([(0, 1), (1, 3), (1, 2)], heap_table(16)),
{
    lemma_heap_entries();
    lemma_codes_of_word_44(heap_table(11));
    lemma_codes_of_word_19(heap_table(16));
    lemma_charts_agree_through([(0, 1), (1, 3), (1, 2)], heap_table(16), [(0, 3), (1, 3), (1, 2)], heap_table(11), 3, (4, 2, 1, 7, 0, 6, 5, 3));
}

proof fn lemma_chart_1068()
    ensures
        chart_signature([(0, 3), (1, 3), (1, 2)], heap_table(12)) == chart_signature([(0, 1), (1, 3), (1, 2)], heap_table(6)),
{
    lemma_heap_entries();
    lemma_codes_of_word_44(heap_table(12));
    lemma_codes_of_word_19(heap_table(6));
    lemma_charts_agree_through([(0, 1), (1, 3), (1, 2)], heap_table(6), [(0, 3), (1, 3), (1, 2)], heap_table(12), 2, (2, 4, 0, 6, 1, 7, 3, 5));
}

proof fn lemma_chart_1069()
    ensures
        chart_signature([(0, 3), (1, 3), (1, 2)], heap_table(13)) == chart_signature([(0, 1), (1, 3), (1, 2)], heap_table(0)),
{
    lemma_heap_entries();
    lemma_codes_of_word_44(heap_table(13));
    lemma_codes_of_word_19(heap_table(0));
    lemma_charts_agree_through([(0, 1), (1, 3), (1, 2)], heap_table(0), [(0, 3), (1, 3), (1, 2)], heap_table(13), 2, (2, 4, 0, 6, 1, 7, 3, 5));
}

proof fn lemma_chart_1070()
    ensures
        chart_signature([(0, 3), (1, 3), (1, 2)], heap_table(14)) == chart_signature([(0, 1), (1, 3), (1, 2)], heap_table(4)),
{
    lemma_heap_entries();
    lemma_codes_of_word_44(heap_table(14));
    lemma_codes_of_word_19(heap_table(4));
    lemma_charts_agree_through([(0, 1), (1, 3), (1, 2)], heap_table(4), [(0, 3), (1, 3), (1, 2)], heap_table(14), 3, (4, 2, 1, 7, 0, 6, 5, 3));
}

proof fn lemma_chart_1071()
    ensures
        chart_signature([(0, 3), (1, 3), (1, 2)], heap_table(15)) == chart_signature([(0, 1), (1, 3), (1, 2)], heap_table(20)),
{
    lemma_heap_entries();
    lemma_codes_of_word_44(heap_table(15));
    lemma_codes_of_word_19(heap_table(20));
    lemma_charts_agree_through([(0, 1), (1, 3), (1, 2)], heap_table(20), [(0, 3), (1, 3), (1, 2)], heap_table(15), 3, (4, 2, 1, 7, 0, 6, 5, 3));
}

proof fn lemma_chart_1072()
    ensures
        chart_signature([(0, 3), (1, 3), (1, 2)], heap_table(16)) == chart_signature([(0, 1), (1, 3), (1, 2)], heap_table(22)),
{
    lemma_heap_entries();
    lemma_codes_of_word_44(heap_table(16));
    lemma_codes_of_word_19(heap_table(22));
    lemma_charts_agree_through([(0, 1), (1, 3), (1, 2)], heap_table(22), [(0, 3), (1, 3), (1, 2)], heap_table(16), 2, (2, 4, 0, 6, 1, 7, 3, 5));
}

proof fn lemma_chart_1073()
    ensures
        chart_signature([(0, 3), (1, 3), (1, 2)], heap_table(17)) == chart_signature([(0, 1), (1, 3), (1, 2)], heap_table(10)),
{
    lemma_heap_entries();
    lemma_codes_of_word_44(heap_table(17));
    lemma_codes_of_word_19(heap_table(10));
    lemma_charts_agree_through([(0, 1), (1, 3), (1, 2)], heap_table(10), [(0, 3), (1, 3), (1, 2)], heap_table(17), 3, (4, 2, 1, 7, 0, 6, 5, 3));
}

proof fn lemma_chart_1074()
    ensures
        chart_signature([(0, 3), (1, 3), (1, 2)], heap_table(18)) == chart_signature([(0, 1), (1, 3), (1, 2)], heap_table(8)),
{
    lemma_heap_entries();
    lemma_codes_of_word_44(heap_table(18));
    lemma_codes_of_word_19(heap_table(8));
    lemma_charts_agree_through([(0, 1), (1, 3), (1, 2)], heap_table(8), [(0, 3), (1, 3), (1, 2)], heap_table(18), 3, (4, 2, 1, 7, 0, 6, 5, 3));
}

proof fn lemma_chart_1075()
    ensures
        chart_signature([(0, 3), (1, 3), (1, 2)], heap_table(19)) == chart_signature([(0, 1), (1, 3), (1, 2)], heap_table(2)),
{
    lemma_heap_entries();
    lemma_codes_of_word_44(heap_table(19));
    lemma_codes_of_word_19(heap_table(2));
    lemma_charts_agree_through([(0, 1), (1, 3), (1, 2)], heap_table(2), [(0, 3), (1, 3), (1, 2)], heap_table(19), 3, (4, 2, 1, 7, 0, 6, 5, 3));
}

proof fn lemma_chart_1076()
    ensures
        chart_signature([(0, 3), (1, 3), (1, 2)], heap_table(20)) == chart_signature([(0, 1), (1, 3), (1, 2)], heap_table(4)),
{
    lemma_heap_entries();
    lemma_codes_of_word_44(heap_table(20));
    lemma_codes_of_word_19(heap_table(4));
    lemma_charts_agree_through([(0, 1), (1, 3), (1, 2)], heap_table(4), [(0, 3), (1, 3), (1, 2)], heap_table(20), 2, (2, 4, 0, 6, 1, 7, 3, 5));
}

proof fn lemma_chart_1077()
    ensures
        chart_signature([(0, 3), (1, 3), (1, 2)], heap_table(21)) == chart_signature([(0, 1), (1, 3), (1, 2)], heap_table(14)),
{
    lemma_heap_entries();
    lemma_codes_of_word_44(heap_table(21));
    lemma_codes_of_word_19(heap_table(14));
    lemma_charts_agree_through([(0, 1), (1, 3), (1, 2)], heap_table(14), [(0, 3), (1, 3), (1, 2)], heap_table(21), 3, (4, 2, 1, 7, 0, 6, 5, 3));
}

proof fn lemma_chart_1078()
    ensures
        chart_signature([(0, 3), (1, 3), (1, 2)], heap_table(22)) == chart_signature([(0, 1), (1, 3), (1, 2)], heap_table(16)),
{
    lemma_heap_entries();
    lemma_codes_of_word_44(heap_table(22));
    lemma_codes_of_word_19(heap_table(16));
    lemma_charts_agree_through([(0, 1), (1, 3), (1, 2)], heap_table(16), [(0, 3), (1, 3), (1, 2)], heap_table(22), 2, (2, 4, 0, 6, 1, 7, 3, 5));
}

proof fn lemma_chart_1079()
    ensures
        chart_signature([(0, 3), (1, 3), (1, 2)], heap_table(23)) == chart_signature([(0, 1), (1, 3), (1, 2)], heap_table(10)),
{
    lemma_heap_entries();
    lemma_codes_of_word_44(heap_table(23));
    lemma_codes_of_word_19(heap_table(10));
    lemma_charts_agree_through([(0, 1), (1, 3), (1, 2)], heap_table(10), [(0, 3), (1, 3), (1, 2)], heap_table(23), 2, (2, 4, 0, 6, 1, 7, 3, 5));
}

/// Every chart of atlas word 44 shares its signature with the first chart
/// of a class below 216.
pub proof fn lemma_charts_of_word_44()
    ensures
        forall|t: int| 1056 <= t < 1080 ==> #[trigger] meets_class_below(t, 216),
{
    lemma_census_words();
    assert forall|t: int| 1056 <= t < 1080 implies #[trigger] meets_class_below(t, 216) by {
        if t == 1056 { lemma_chart_1056(); assert(atlas_signatures()[class_rep(120)] == atlas_signatures()[1056]); }
        else if t == 1057 { lemma_chart_1057(); assert(atlas_signatures()[class_rep(117)] == atlas_signatures()[1057]); }
        else if t == 1058 { lemma_chart_1058(); assert(atlas_signatures()[class_rep(118)] == atlas_signatures()[1058]); }
        else if t == 1059 { lemma_chart_1059(); assert(atlas_signatures()[class_rep(123)] == atlas_signatures()[1059]); }
        else if t == 1060 { lemma_chart_1060(); assert(atlas_signatures()[class_rep(124)] == atlas_signatures()[1060]); }
        else if t == 1061 { lemma_chart_1061(); assert(atlas_signatures()[class_rep(121)] == atlas_signatures()[1061]); }
        else if t == 1062 { lemma_chart_1062(); assert(atlas_signatures()[class_rep(120)] == atlas_signatures()[1062]); }
        else if t == 1063 { lemma_chart_1063(); assert(atlas_signatures()[class_rep(114)] == atlas_signatures()[1063]); }
        else if t == 1064 { lemma_chart_1064(); assert(atlas_signatures()[class_rep(115)] == atlas_signatures()[1064]); }
        else if t == 1065 { lemma_chart_1065(); assert(atlas_signatures()[class_rep(123)] == atlas_signatures()[1065]); }
        else if t == 1066 { lemma_chart_1066(); assert(atlas_signatures()[class_rep(125)] == atlas_signatures()[1066]); }
        else if t == 1067 { lemma_chart_1067(); assert(atlas_signatures()[class_rep(122)] == atlas_signatures()[1067]); }
        else if t == 1068 { lemma_chart_1068(); assert(atlas_signatures()[class_rep(117)] == atlas_signatures()[1068]); }
        else if t == 1069 { lemma_chart_1069(); assert(atlas_signatures()[class_rep(114)] == atlas_signatures()[1069]); }
        else if t == 1070 { lemma_chart_1070(); assert(atlas_signatures()[class_rep(116)] == atlas_signatures()[1070]); }
        else if t == 1071 { lemma_chart_1071(); assert(atlas_signatures()[class_rep(124)] == atlas_signatures()[1071]); }
        else if t == 1072 { lemma_chart_1072(); assert(atlas_signatures()[class_rep(125)] == atlas_signatures()[1072]); }
        else if t == 1073 { lemma_chart_1073(); assert(atlas_signatures()[class_rep(119)] == atlas_signatures()[1073]); }
        else if t == 1074 { lemma_chart_1074(); assert(atlas_signatures()[class_rep(118)] == atlas_signatures()[1074]); }
        else if t == 1075 { lemma_chart_1075(); assert(atlas_signatures()[class_rep(115)] == atlas_signatures()[1075]); }
        else if t == 1076 { lemma_chart_1076(); assert(atlas_signatures()[class_rep(116)] == atlas_signatures()[1076]); }
        else if t == 1077 { lemma_chart_1077(); assert(atlas_signatures()[class_rep(121)] == atlas_signatures()[1077]); }
        else if t == 1078 { lemma_chart_1078(); assert(atlas_signatures()[class_rep(122)] == atlas_signatures()[1078]); }
        else { lemma_chart_1079(); assert(atlas_signatures()[class_rep(119)] == atlas_signatures()[1079]); }
    }
}

proof fn lemma_chart_1080()
    ensures
        chart_signature([(0, 3), (2, 3), (0, 1)], heap_table(0)) == chart_signature([(0, 2), (0, 1), (2, 3)], heap_table(21)),
{
    lemma_heap_entries();
    lemma_codes_of_word_45(heap_table(0));
    lemma_codes_of_word_26(heap_table(21));
    lemma_charts_agree_through([(0, 2), (0, 1), (2, 3)], heap_table(21), [(0, 3), (2, 3), (0, 1)], heap_table(0), 13, (5, 3, 1, 7, 0, 6, 4, 2));
}

proof fn lemma_chart_1081()
    ensures
        chart_signature([(0, 3), (2, 3), (0, 1)], heap_table(1)) == chart_signature([(0, 2), (0, 1), (2, 3)], heap_table(18)),
{
    lemma_heap_entries();
    lemma_codes_of_word_45(heap_table(1));
    lemma_codes_of_word_26(heap_table(18));
    lemma_charts_agree_through([(0, 2), (0, 1), (2, 3)], heap_table(18), [(0, 3), (2, 3), (0, 1)], heap_table(1), 13, (5, 3, 1, 7, 0, 6, 4, 2));
}

proof fn lemma_chart_1082()
    ensures
        chart_signature([(0, 3), (2, 3), (0, 1)], heap_table(2)) == chart_signature([(0, 2), (0, 1), (2, 3)], heap_table(12)),
{
    lemma_heap_entries();
    lemma_codes_of_word_45(heap_table(2));
    lemma_codes_of_word_26(heap_table(12));
    lemma_charts_agree_through([(0, 2), (0, 1), (2, 3)], heap_table(12), [(0, 3), (2, 3), (0, 1)], heap_table(2), 13, (5, 3, 1, 7, 0, 6, 4, 2));
}

proof fn lemma_chart_1083()
    ensures
        chart_signature([(0, 3), (2, 3), (0, 1)], heap_table(3)) == chart_signature([(0, 2), (0, 1), (2, 3)], heap_table(15)),
{
    lemma_heap_entries();
    lemma_codes_of_word_45(heap_table(3));
    lemma_codes_of_word_26(heap_table(15));
    lemma_charts_agree_through([(0, 2), (0, 1), (2, 3)], heap_table(15), [(0, 3), (2, 3), (0, 1)], heap_table(3), 13, (5, 3, 1, 7, 0, 6, 4, 2));
}

proof fn lemma_chart_1084()
    ensures
        chart_signature([(0, 3), (2, 3), (0, 1)], heap_table(4)) == chart_signature([(0, 2), (0, 1), (2, 3)], heap_table(9)),
{
    lemma_heap_entries();
    lemma_codes_of_word_45(heap_table(4));
    lemma_codes_of_word_26(heap_table(9));
    lemma_charts_agree_through([(0, 2), (0, 1), (2, 3)], heap_table(9), [(0, 3), (2, 3), (0, 1)], heap_table(4), 13, (5, 3, 1, 7, 0, 6, 4, 2));
}

proof fn lemma_chart_1085()
    ensures
        chart_signature([(0, 3), (2, 3), (0, 1)], heap_table(5)) == chart_signature([(0, 2), (0, 1), (2, 3)], heap_table(6)),
{
    lemma_heap_entries();
    lemma_codes_of_word_45(heap_table(5));
    lemma_codes_of_word_26(heap_table(6));
    lemma_charts_agree_through([(0, 2), (0, 1), (2, 3)], heap_table(6), [(0, 3), (2, 3), (0, 1)], heap_table(5), 13, (5, 3, 1, 7, 0, 6, 4, 2));
}

proof fn lemma_chart_1086()
    ensures
        chart_signature([(0, 3), (2, 3), (0, 1)], heap_table(6)) == chart_signature([(0, 2), (0, 1), (2, 3)], heap_table(21)),
{
    lemma_heap_entries();
    lemma_codes_of_word_45(heap_table(6));
    lemma_codes_of_word_26(heap_table(21));
    lemma_charts_agree_through([(0, 2), (0, 1), (2, 3)], heap_table(21), [(0, 3), (2, 3), (0, 1)], heap_table(6), 12, (3, 5, 0, 6, 1, 7, 2, 4));
}

proof fn lemma_chart_1087()
    ensures
        chart_signature([(0, 3), (2, 3), (0, 1)], heap_table(7)) == chart_signature([(0, 2), (0, 1), (2, 3)], heap_table(19)),
{
    lemma_heap_entries();
    lemma_codes_of_word_45(heap_table(7));
    lemma_codes_of_word_26(heap_table(19));
    lemma_charts_agree_through([(0, 2), (0, 1), (2, 3)], heap_table(19), [(0, 3), (2, 3), (0, 1)], heap_table(7), 13, (5, 3, 1, 7, 0, 6, 4, 2));
}

proof fn lemma_chart_1088()
    ensures
        chart_signature([(0, 3), (2, 3), (0, 1)], heap_table(8)) == chart_signature([(0, 2), (0, 1), (2, 3)], heap_table(13)),
{
    lemma_heap_entries();
    lemma_codes_of_word_45(heap_table(8));
    lemma_codes_of_word_26(heap_table(13));
    lemma_charts_agree_through([(0, 2), (0, 1), (2, 3)], heap_table(13), [(0, 3), (2, 3), (0, 1)], heap_table(8), 13, (5, 3, 1, 7, 0, 6, 4, 2));
}

proof fn lemma_chart_1089()
    ensures
        chart_signature([(0, 3), (2, 3), (0, 1)], heap_table(9)) == chart_signature([(0, 2), (0, 1), (2, 3)], heap_table(15)),
{
    lemma_heap_entries();
    lemma_codes_of_word_45(heap_table(9));
    lemma_codes_of_word_26(heap_table(15));
    lemma_charts_agree_through([(0, 2), (0, 1), (2, 3)], heap_table(15), [(0, 3), (2, 3), (0, 1)], heap_table(9), 12, (3, 5, 0, 6, 1, 7, 2, 4));
}

proof fn lemma_chart_1090()
    ensures
        chart_signature([(0, 3), (2, 3), (0, 1)], heap_table(10)) == chart_signature([(0, 2), (0, 1), (2, 3)], heap_table(3)),
{
    lemma_heap_entries();
    lemma_codes_of_word_45(heap_table(10));
    lemma_codes_of_word_26(heap_table(3));
    lemma_charts_agree_through([(0, 2), (0, 1), (2, 3)], heap_table(3), [(0, 3), (2, 3), (0, 1)], heap_table(10), 13, (5, 3, 1, 7, 0, 6, 4, 2));
}

proof fn lemma_chart_1091()
    ensures
        chart_signature([(0, 3), (2, 3), (0, 1)], heap_table(11)) == chart_signature([(0, 2), (0, 1), (2, 3)], heap_table(0)),
{
    lemma_heap_entries();
    lemma_codes_of_word_45(heap_table(11));
    lemma_codes_of_word_26(heap_table(0));
    lemma_charts_agree_through([(0, 2), (0, 1), (2, 3)], heap_table(0), [(0, 3), (2, 3), (0, 1)], heap_table(11), 13, (5, 3, 1, 7, 0, 6, 4, 2));
}

proof fn lemma_chart_1092()
    ensures
        chart_signature([(0, 3), (2, 3), (0, 1)], heap_table(12)) == chart_signature([(0, 2), (0, 1), (2, 3)], heap_table(18)),
{
    lemma_heap_entries();
    lemma_codes_of_word_45(heap_table(12));
    lemma_codes_of_word_26(heap_table(18));
    lemma_charts_agree_through([(0, 2), (0, 1), (2, 3)], heap_table(18), [(0, 3), (2, 3), (0, 1)], heap_table(12), 12, (3, 5, 0, 6, 1, 7, 2, 4));
}

proof fn lemma_chart_1093()
    ensures
        chart_signature([(0, 3), (2, 3), (0, 1)], heap_table(13)) == chart_signature([(0, 2), (0, 1), (2, 3)], heap_table(19)),
{
    lemma_heap_entries();
    lemma_codes_of_word_45(heap_table(13));
    lemma_codes_of_word_26(heap_table(19));
    lemma_charts_agree_through([(0, 2), (0, 1), (2, 3)], heap_table(19), [(0, 3), (2, 3), (0, 1)], heap_table(13), 12, (3, 5, 0, 6, 1, 7, 2, 4));
}

proof fn lemma_chart_1094()
    ensures
        chart_signature([(0, 3), (2, 3), (0, 1)], heap_table(14)) == chart_signature([(0, 2), (0, 1), (2, 3)], heap_table(7)),
{
    lemma_heap_entries();
    lemma_codes_of_word_45(heap_table(14));
    lemma_codes_of_word_26(heap_table(7));
    lemma_charts_agree_through([(0, 2), (0, 1), (2, 3)], heap_table(7), [(0, 3), (2, 3), (0, 1)], heap_table(14), 13, (5, 3, 1, 7, 0, 6, 4, 2));
}

proof fn lemma_chart_1095()
    ensures
        chart_signature([(0, 3), (2, 3), (0, 1)], heap_table(15)) == chart_signature([(0, 2), (0, 1), (2, 3)], heap_table(9)),
{
    lemma_heap_entries();
    lemma_codes_of_word_45(heap_table(15));
    lemma_codes_of_word_26(heap_table(9));
    lemma_charts_agree_through([(0, 2), (0, 1), (2, 3)], heap_table(9), [(0, 3), (2, 3), (0, 1)], heap_table(15), 12, (3, 5, 0, 6, 1, 7, 2, 4));
}

proof fn lemma_chart_1096()
    ensures
        chart_signature([(0, 3), (2, 3), (0, 1)], heap_table(16)) == chart_signature([(0, 2), (0, 1), (2, 3)], heap_table(3)),
{
    lemma_heap_entries();
    lemma_codes_of_word_45(heap_table(16));
    lemma_codes_of_word_26(heap_table(3));
    lemma_charts_agree_through([(0, 2), (0, 1), (2, 3)], heap_table(3), [(0, 3), (2, 3), (0, 1)], heap_table(16), 12, (3, 5, 0, 6, 1, 7, 2, 4));
}

proof fn lemma_chart_1097()
    ensures
        chart_signature([(0, 3), (2, 3), (0, 1)], heap_table(17)) == chart_signature([(0, 2), (0, 1), (2, 3)], heap_table(1)),
{
    lemma_heap_entries();
    lemma_codes_of_word_45(heap_table(17));
    lemma_codes_of_word_26(heap_table(1));
    lemma_charts_agree_through([(0, 2), (0, 1), (2, 3)], heap_table(1), [(0, 3), (2, 3), (0, 1)], heap_table(17), 13, (5, 3, 1, 7, 0, 6, 4, 2));
}

proof fn lemma_chart_1098()
    ensures
        chart_signature([(0, 3), (2, 3), (0, 1)], heap_table(18)) == chart_signature([(0, 2), (0, 1), (2, 3)], heap_table(12)),
{
    lemma_heap_entries();
    lemma_codes_of_word_45(heap_table(18));
    lemma_codes_of_word_26(heap_table(12));
    lemma_charts_agree_through([(0, 2), (0, 1), (2, 3)], heap_table(12), [(0, 3), (2, 3), (0, 1)], heap_table(18), 12, (3, 5, 0, 6, 1, 7, 2, 4));
}

proof fn lemma_chart_1099()
    ensures
        chart_signature([(0, 3), (2, 3), (0, 1)], heap_table(19)) == chart_signature([(0, 2), (0, 1), (2, 3)], heap_table(13)),
{
    lemma_heap_entries();
    lemma_codes_of_word_45(heap_table(19));
    lemma_codes_of_word_26(heap_table(13));
    lemma_charts_agree_through([(0, 2), (0, 1), (2, 3)], heap_table(13), [(0, 3), (2, 3), (0, 1)], heap_table(19), 12, (3, 5, 0, 6, 1, 7, 2, 4));
}

proof fn lemma_chart_1100()
    ensures
        chart_signature([(0, 3), (2, 3), (0, 1)], heap_table(20)) == chart_signature([(0, 2), (0, 1), (2, 3)], heap_table(7)),
{
    lemma_heap_entries();
    lemma_codes_of_word_45(heap_table(20));
    lemma_codes_of_word_26(heap_table(7));
    lemma_charts_agree_through([(0, 2), (0, 1), (2, 3)], heap_table(7), [(0, 3), (2, 3), (0, 1)], heap_table(20), 12, (3, 5, 0, 6, 1, 7, 2, 4));
}

proof fn lemma_chart_1101()
    ensures
        chart_signature([(0, 3), (2, 3), (0, 1)], heap_table(21)) == chart_signature([(0, 2), (0, 1), (2, 3)], heap_table(6)),
{
    lemma_heap_entries();
    lemma_codes_of_word_45(heap_table(21));
    lemma_codes_of_word_26(heap_table(6));
    lemma_charts_agree_through([(0, 2), (0, 1), (2, 3)], heap_table(6), [(0, 3), (2, 3), (0, 1)], heap_table(21), 12, (3, 5, 0, 6, 1, 7, 2, 4));
}

proof fn lemma_chart_1102()
    ensures
        chart_signature([(0, 3), (2, 3), (0, 1)], heap_table(22)) == chart_signature([(0, 2), (0, 1), (2, 3)], heap_table(0)),
{
    lemma_heap_entries();
    lemma_codes_of_word_45(heap_table(22));
    lemma_codes_of_word_26(heap_table(0));
    lemma_charts_agree_through([(0, 2), (0, 1), (2, 3)], heap_table(0), [(0, 3), (2, 3), (0, 1)], heap_table(22), 12, (3, 5, 0, 6, 1, 7, 2, 4));
}

proof fn lemma_chart_1103()
    ensures
        chart_signature([(0, 3), (2, 3), (0, 1)], heap_table(23)) == chart_signature([(0, 2), (0, 1), (2, 3)], heap_table(1)),
{
    lemma_heap_entries();
    lemma_codes_of_word_45(heap_table(23));
    lemma_codes_of_word_26(heap_table(1));
    lemma_charts_agree_through([(0, 2), (0, 1), (2, 3)], heap_table(1), [(0, 3), (2, 3), (0, 1)], heap_table(23), 12, (3, 5, 0, 6, 1, 7, 2, 4));
}

/// Every chart of atlas word 45 shares its signature with the first chart
/// of a class below 216.
pub proof fn lemma_charts_of_word_45()
    ensures
        forall|t: int| 1080 <= t < 1104 ==> #[trigger] meets_class_below(t, 216),
{
    lemma_census_words();
    assert forall|t: int| 1080 <= t < 1104 implies #[trigger] meets_class_below(t, 216) by {
        if t == 1080 { lemma_chart_1080(); assert(atlas_signatures()[class_rep(161)] == atlas_signatures()[1080]); }
        else if t == 1081 { lemma_chart_1081(); assert(atlas_signatures()[class_rep(159)] == atlas_signatures()[1081]); }
        else if t == 1082 { lemma_chart_1082(); assert(atlas_signatures()[class_rep(156)] == atlas_signatures()[1082]); }
        else if t == 1083 { lemma_chart_1083(); assert(atlas_signatures()[class_rep(158)] == atlas_signatures()[1083]); }
        else if t == 1084 { lemma_chart_1084(); assert(atlas_signatures()[class_rep(155)] == atlas_signatures()[1084]); }
        else if t == 1085 { lemma_chart_1085(); assert(atlas_signatures()[class_rep(153)] == atlas_signatures()[1085]); }
        else if t == 1086 { lemma_chart_1086(); assert(atlas_signatures()[class_rep(161)] == atlas_signatures()[1086]); }
        else if t == 1087 { lemma_chart_1087(); assert(atlas_signatures()[class_rep(160)] == atlas_signatures()[1087]); }
        else if t == 1088 { lemma_chart_1088(); assert(atlas_signatures()[class_rep(157)] == atlas_signatures()[1088]); }
        else if t == 1089 { lemma_chart_1089(); assert(atlas_signatures()[class_rep(158)] == atlas_signatures()[1089]); }
        else if t == 1090 { lemma_chart_1090(); assert(atlas_signatures()[class_rep(152)] == atlas_signatures()[1090]); }
        else if t == 1091 { lemma_chart_1091(); assert(atlas_signatures()[class_rep(150)] == atlas_signatures()[1091]); }
        else if t == 1092 { lemma_chart_1092(); assert(atlas_signatures()[class_rep(159)] == atlas_signatures()[1092]); }
        else if t == 1093 { lemma_chart_1093(); assert(atlas_signatures()[class_rep(160)] == atlas_signatures()[1093]); }
        else if t == 1094 { lemma_chart_1094(); assert(atlas_signatures()[class_rep(154)] == atlas_signatures()[1094]); }
        else if t == 1095 { lemma_chart_1095(); assert(atlas_signatures()[class_rep(155)] == atlas_signatures()[1095]); }
        else if t == 1096 { lemma_chart_1096(); assert(atlas_signatures()[class_rep(152)] == atlas_signatures()[1096]); }
        else if t == 1097 { lemma_chart_1097(); assert(atlas_signatures()[class_rep(151)] == atlas_signatures()[1097]); }
        else if t == 1098 { lemma_chart_1098(); assert(atlas_signatures()[class_rep(156)] == atlas_signatures()[1098]); }
        else if t == 1099 { lemma_chart_1099(); assert(atlas_signatures()[class_rep(157)] == atlas_signatures()[1099]); }
        else if t == 1100 { lemma_chart_1100(); assert(atlas_signatures()[class_rep(154)] == atlas_signatures()[1100]); }
        else if t == 1101 { lemma_chart_1101(); assert(atlas_signatures()[class_rep(153)] == atlas_signatures()[1101]); }
        else if t == 1102 { lemma_chart_1102(); assert(atlas_signatures()[class_rep(150)] == atlas_signatures()[1102]); }
        else { lemma_chart_1103(); assert(atlas_signatures()[class_rep(151)] == atlas_signatures()[1103]); }
    }
}

proof fn lemma_chart_1104()
    ensures
        chart_signature([(0, 3), (2, 3), (1, 2)], heap_table(0)) == chart_signature([(0, 1), (1, 3), (1, 2)], heap_table(18)),
{
    lemma_heap_entries();
    lemma_codes_of_word_46(heap_table(0));
    lemma_codes_of_word_19(heap_table(18));
    lemma_charts_agree_through([(0, 1), (1, 3), (1, 2)], heap_table(18), [(0, 3), (2, 3), (1, 2)], heap_table(0), 7, (7, 6, 5, 4, 3, 2, 1, 0));
}

proof fn lemma_chart_1105()
    ensures
        chart_signature([(0, 3), (2, 3), (1, 2)], heap_table(1)) == chart_signature([(0, 1), (1, 3), (1, 2)], heap_table(20)),
{
    lemma_heap_entries();
    lemma_codes_of_word_46(heap_table(1));
    lemma_codes_of_word_19(heap_table(20));
    lemma_charts_agree_through([(0, 1), (1, 3), (1, 2)], heap_table(20), [(0, 3), (2, 3), (1, 2)], heap_table(1), 6, (6, 7, 3, 2, 5, 4, 0, 1));
}

proof fn lemma_chart_1106()
    ensures
        chart_signature([(0, 3), (2, 3), (1, 2)], heap_table(2)) == chart_signature([(0, 1), (1, 3), (1, 2)], heap_table(14)),
{
    lemma_heap_entries();
    lemma_codes_of_word_46(heap_table(2));
    lemma_codes_of_word_19(heap_table(14));
    lemma_charts_agree_through([(0, 1), (1, 3), (1, 2)], heap_table(14), [(0, 3), (2, 3), (1, 2)], heap_table(2), 6, (6, 7, 3, 2, 5, 4, 0, 1));
}

proof fn lemma_chart_1107()
    ensures
        chart_signature([(0, 3), (2, 3), (1, 2)], heap_table(3)) == chart_signature([(0, 1), (1, 3), (1, 2)], heap_table(12)),
{
    lemma_heap_entries();
    lemma_codes_of_word_46(heap_table(3));
    lemma_codes_of_word_19(heap_table(12));
    lemma_charts_agree_through([(0, 1), (1, 3), (1, 2)], heap_table(12), [(0, 3), (2, 3), (1, 2)], heap_table(3), 7, (7, 6, 5, 4, 3, 2, 1, 0));
}

proof fn lemma_chart_1108()
    ensures
        chart_signature([(0, 3), (2, 3), (1, 2)], heap_table(4)) == chart_signature([(0, 1), (1, 3), (1, 2)], heap_table(6)),
{
    lemma_heap_entries();
    lemma_codes_of_word_46(heap_table(4));
    lemma_codes_of_word_19(heap_table(6));
    lemma_charts_agree_through([(0, 1), (1, 3), (1, 2)], heap_table(6), [(0, 3), (2, 3), (1, 2)], heap_table(4), 7, (7, 6, 5, 4, 3, 2, 1, 0));
}

proof fn lemma_chart_1109()
    ensures
        chart_signature([(0, 3), (2, 3), (1, 2)], heap_table(5)) == chart_signature([(0, 1), (1, 3), (1, 2)], heap_table(8)),
{
    lemma_heap_entries();
    lemma_codes_of_word_46(heap_table(5));
    lemma_codes_of_word_19(heap_table(8));
    lemma_charts_agree_through([(0, 1), (1, 3), (1, 2)], heap_table(8), [(0, 3), (2, 3), (1, 2)], heap_table(5), 6, (6, 7, 3, 2, 5, 4, 0, 1));
}

proof fn lemma_chart_1110()
    ensures
        chart_signature([(0, 3), (2, 3), (1, 2)], heap_table(6)) == chart_signature([(0, 1), (1, 3), (1, 2)], heap_table(18)),
{
    lemma_heap_entries();
    lemma_codes_of_word_46(heap_table(6));
    lemma_codes_of_word_19(heap_table(18));
    lemma_charts_agree_through([(0, 1), (1, 3), (1, 2)], heap_table(18), [(0, 3), (2, 3), (1, 2)], heap_table(6), 6, (6, 7, 3, 2, 5, 4, 0, 1));
}

proof fn lemma_chart_1111()
    ensures
        chart_signature([(0, 3), (2, 3), (1, 2)], heap_table(7)) == chart_signature([(0, 1), (1, 3), (1, 2)], heap_table(22)),
{
    lemma_heap_entries();
    lemma_codes_of_word_46(heap_table(7));
    lemma_codes_of_word_19(heap_table(22));
    lemma_charts_agree_through([(0, 1), (1, 3), (1, 2)], heap_table(22), [(0, 3), (2, 3), (1, 2)], heap_table(7), 7, (7, 6, 5, 4, 3, 2, 1, 0));
}

proof fn lemma_chart_1112()
    ensures
        chart_signature([(0, 3), (2, 3), (1, 2)], heap_table(8)) == chart_signature([(0, 1), (1, 3), (1, 2)], heap_table(16)),
{
    lemma_heap_entries();
    lemma_codes_of_word_46(heap_table(8));
    lemma_codes_of_word_19(heap_table(16));
    lemma_charts_agree_through([(0, 1), (1, 3), (1, 2)], heap_table(16), [(0, 3), (2, 3), (1, 2)], heap_table(8), 7, (7, 6, 5, 4, 3, 2, 1, 0));
}

proof fn lemma_chart_1113()
    ensures
        chart_signature([(0, 3), (2, 3), (1, 2)], heap_table(9)) == chart_signature([(0, 1), (1, 3), (1, 2)], heap_table(12)),
{
    lemma_heap_entries();
    lemma_codes_of_word_46(heap_table(9));
    lemma_codes_of_word_19(heap_table(12));
    lemma_charts_agree_through([(0, 1), (1, 3), (1, 2)], heap_table(12), [(0, 3), (2, 3), (1, 2)], heap_table(9), 6, (6, 7, 3, 2, 5, 4, 0, 1));
}

proof fn lemma_chart_1114()
    ensures
        chart_signature([(0, 3), (2, 3), (1, 2)], heap_table(10)) == chart_signature([(0, 1), (1, 3), (1, 2)], heap_table(0)),
{
    lemma_heap_entries();
    lemma_codes_of_word_46(heap_table(10));
    lemma_codes_of_word_19(heap_table(0));
    lemma_charts_agree_through([(0, 1), (1, 3), (1, 2)], heap_table(0), [(0, 3), (2, 3), (1, 2)], heap_table(10), 7, (7, 6, 5, 4, 3, 2, 1, 0));
}

proof fn lemma_chart_1115()
    ensures
        chart_signature([(0, 3), (2, 3), (1, 2)], heap_table(11)) == chart_signature([(0, 1), (1, 3), (1, 2)], heap_table(2)),
{
    lemma_heap_entries();
    lemma_codes_of_word_46(heap_table(11));
    lemma_codes_of_word_19(heap_table(2));
    lemma_charts_agree_through([(0, 1), (1, 3), (1, 2)], heap_table(2), [(0, 3), (2, 3), (1, 2)], heap_table(11), 6, (6, 7, 3, 2, 5, 4, 0, 1));
}

proof fn lemma_chart_1116()
    ensures
        chart_signature([(0, 3), (2, 3), (1, 2)], heap_table(12)) == chart_signature([(0, 1), (1, 3), (1, 2)], heap_table(20)),
{
    lemma_heap_entries();
    lemma_codes_of_word_46(heap_table(12));
    lemma_codes_of_word_19(heap_table(20));
    lemma_charts_agree_through([(0, 1), (1, 3), (1, 2)], heap_table(20), [(0, 3), (2, 3), (1, 2)], heap_table(12), 7, (7, 6, 5, 4, 3, 2, 1, 0));
}

proof fn lemma_chart_1117()
    ensures
        chart_signature([(0, 3), (2, 3), (1, 2)], heap_table(13)) == chart_signature([(0, 1), (1, 3), (1, 2)], heap_table(22)),
{
    lemma_heap_entries();
    lemma_codes_of_word_46(heap_table(13));
    lemma_codes_of_word_19(heap_table(22));
    lemma_charts_agree_through([(0, 1), (1, 3), (1, 2)], heap_table(22), [(0, 3), (2, 3), (1, 2)], heap_table(13), 6, (6, 7, 3, 2, 5, 4, 0, 1));
}

proof fn lemma_chart_1118()
    ensures
        chart_signature([(0, 3), (2, 3), (1, 2)], heap_table(14)) == chart_signature([(0, 1), (1, 3), (1, 2)], heap_table(10)),
{
    lemma_heap_entries();
    lemma_codes_of_word_46(heap_table(14));
    lemma_codes_of_word_19(heap_table(10));
    lemma_charts_agree_through([(0, 1), (1, 3), (1, 2)], heap_table(10), [(0, 3), (2, 3), (1, 2)], heap_table(14), 7, (7, 6, 5, 4, 3, 2, 1, 0));
}

proof fn lemma_chart_1119()
    ensures
        chart_signature([(0, 3), (2, 3), (1, 2)], heap_table(15)) == chart_signature([(0, 1), (1, 3), (1, 2)], heap_table(6)),
{
    lemma_heap_entries();
    lemma_codes_of_word_46(heap_table(15));
    lemma_codes_of_word_19(heap_table(6));
    lemma_charts_agree_through([(0, 1), (1, 3), (1, 2)], heap_table(6), [(0, 3), (2, 3), (1, 2)], heap_table(15), 6, (6, 7, 3, 2, 5, 4, 0, 1));
}

proof fn lemma_chart_1120()
    ensures
        chart_signature([(0, 3), (2, 3), (1, 2)], heap_table(16)) == chart_signature([(0, 1), (1, 3), (1, 2)], heap_table(0)),
{
    lemma_heap_entries();
    lemma_codes_of_word_46(heap_table(16));
    lemma_codes_of_word_19(heap_table(0));
    lemma_charts_agree_through([(0, 1), (1, 3), (1, 2)], heap_table(0), [(0, 3), (2, 3), (1, 2)], heap_table(16), 6, (6, 7, 3, 2, 5, 4, 0, 1));
}

proof fn lemma_chart_1121()
    ensures
        chart_signature([(0, 3), (2, 3), (1, 2)], heap_table(17)) == chart_signature([(0, 1), (1, 3), (1, 2)], heap_table(4)),
{
    lemma_heap_entries();
    lemma_codes_of_word_46(heap_table(17));
    lemma_codes_of_word_19(heap_table(4));
    lemma_charts_agree_through([(0, 1), (1, 3), (1, 2)], heap_table(4), [(0, 3), (2, 3), (1, 2)], heap_table(17), 7, (7, 6, 5, 4, 3, 2, 1, 0));
}

proof fn lemma_chart_1122()
    ensures
        chart_signature([(0, 3), (2, 3), (1, 2)], heap_table(18)) == chart_signature([(0, 1), (1, 3), (1, 2)], heap_table(14)),
{
    lemma_heap_entries();
    lemma_codes_of_word_46(heap_table(18));
    lemma_codes_of_word_19(heap_table(14));
    lemma_charts_agree_through([(0, 1), (1, 3), (1, 2)], heap_table(14), [(0, 3), (2, 3), (1, 2)], heap_table(18), 7, (7, 6, 5, 4, 3, 2, 1, 0));
}

proof fn lemma_chart_1123()
    ensures
        chart_signature([(0, 3), (2, 3), (1, 2)], heap_table(19)) == chart_signature([(0, 1), (1, 3), (1, 2)], heap_table(16)),
{
    lemma_heap_entries();
    lemma_codes_of_word_46(heap_table(19));
    lemma_codes_of_word_19(heap_table(16));
    lemma_charts_agree_through([(0, 1), (1, 3), (1, 2)], heap_table(16), [(0, 3), (2, 3), (1, 2)], heap_table(19), 6, (6, 7, 3, 2, 5, 4, 0, 1));
}

proof fn lemma_chart_1124()
    ensures
        chart_signature([(0, 3), (2, 3), (1, 2)], heap_table(20)) == chart_signature([(0, 1), (1, 3), (1, 2)], heap_table(10)),
{
    lemma_heap_entries();
    lemma_codes_of_word_46(heap_table(20));
    lemma_codes_of_word_19(heap_table(10));
    lemma_charts_agree_through([(0, 1), (1, 3), (1, 2)], heap_table(10), [(0, 3), (2, 3), (1, 2)], heap_table(20), 6, (6, 7, 3, 2, 5, 4, 0, 1));
}

proof fn lemma_chart_1125()
    ensures
        chart_signature([(0, 3), (2, 3), (1, 2)], heap_table(21)) == chart_signature([(0, 1), (1, 3), (1, 2)], heap_table(8)),
{
    lemma_heap_entries();
    lemma_codes_of_word_46(heap_table(21));
    lemma_codes_of_word_19(heap_table(8));
    lemma_charts_agree_through([(0, 1), (1, 3), (1, 2)], heap_table(8), [(0, 3), (2, 3), (1, 2)], heap_table(21), 7, (7, 6, 5, 4, 3, 2, 1, 0));
}

proof fn lemma_chart_1126()
    ensures
        chart_signature([(0, 3), (2, 3), (1, 2)], heap_table(22)) == chart_signature([(0, 1), (1, 3), (1, 2)], heap_table(2)),
{
    lemma_heap_entries();
    lemma_codes_of_word_46(heap_table(22));
    lemma_codes_of_word_19(heap_table(2));
    lemma_charts_agree_through([(0, 1), (1, 3), (1, 2)], heap_table(2), [(0, 3), (2, 3), (1, 2)], heap_table(22), 7, (7, 6, 5, 4, 3, 2, 1, 0));
}

proof fn lemma_chart_1127()
    ensures
        chart_signature([(0, 3), (2, 3), (1, 2)], heap_table(23)) == chart_signature([(0, 1), (1, 3), (1, 2)], heap_table(4)),
{
    lemma_heap_entries();
    lemma_codes_of_word_46(heap_table(23));
    lemma_codes_of_word_19(heap_table(4));
    lemma_charts_agree_through([(0, 1), (1, 3), (1, 2)], heap_table(4), [(0, 3), (2, 3), (1, 2)], heap_table(23), 6, (6, 7, 3, 2, 5, 4, 0, 1));
}

/// Every chart of atlas word 46 shares its signature with the first chart
/// of a class below 216.
pub proof fn lemma_charts_of_word_46()
    ensures
        forall|t: int| 1104 <= t < 1128 ==> #[trigger] meets_class_below(t, 216),
{
    lemma_census_words();
    assert forall|t: int| 1104 <= t < 1128 implies #[trigger] meets_class_below(t, 216) by {
        if t == 1104 { lemma_chart_1104(); assert(atlas_signatures()[class_rep(123)] == atlas_signatures()[1104]); }
        else if t == 1105 { lemma_chart_1105(); assert(atlas_signatures()[class_rep(124)] == atlas_signatures()[1105]); }
        else if t == 1106 { lemma_chart_1106(); assert(atlas_signatures()[class_rep(121)] == atlas_signatures()[1106]); }
        else if t == 1107 { lemma_chart_1107(); assert(atlas_signatures()[class_rep(120)] == atlas_signatures()[1107]); }
        else if t == 1108 { lemma_chart_1108(); assert(atlas_signatures()[class_rep(117)] == atlas_signatures()[1108]); }
        else if t == 1109 { lemma_chart_1109(); assert(atlas_signatures()[class_rep(118)] == atlas_signatures()[1109]); }
        else if t == 1110 { lemma_chart_1110(); assert(atlas_signatures()[class_rep(123)] == atlas_signatures()[1110]); }
        else if t == 1111 { lemma_chart_1111(); assert(atlas_signatures()[class_rep(125)] == atlas_signatures()[1111]); }
        else if t == 1112 { lemma_chart_1112(); assert(atlas_signatures()[class_rep(122)] == atlas_signatures()[1112]); }
        else if t == 1113 { lemma_chart_1113(); assert(atlas_signatures()[class_rep(120)] == atlas_signatures()[1113]); }
        else if t == 1114 { lemma_chart_1114(); assert(atlas_signatures()[class_rep(114)] == atlas_signatures()[1114]); }
        else if t == 1115 { lemma_chart_1115(); assert(atlas_signatures()[class_rep(115)] == atlas_signatures()[1115]); }
        else if t == 1116 { lemma_chart_1116(); assert(atlas_signatures()[class_rep(124)] == atlas_signatures()[1116]); }
        else if t == 1117 { lemma_chart_1117(); assert(atlas_signatures()[class_rep(125)] == atlas_signatures()[1117]); }
        else if t == 1118 { lemma_chart_1118(); assert(atlas_signatures()[class_rep(119)] == atlas_signatures()[1118]); }
        else if t == 1119 { lemma_chart_1119(); assert(atlas_signatures()[class_rep(117)] == atlas_signatures()[1119]); }
        else if t == 1120 { lemma_chart_1120(); assert(atlas_signatures()[class_rep(114)] == atlas_signatures()[1120]); }
        else if t == 1121 { lemma_chart_1121(); assert(atlas_signatures()[class_rep(116)] == atlas_signatures()[1121]); }
        else if t == 1122 { lemma_chart_1122(); assert(atlas_signatures()[class_rep(121)] == atlas_signatures()[1122]); }
        else if t == 1123 { lemma_chart_1123(); assert(atlas_signatures()[class_rep(122)] == atlas_signatures()[1123]); }
        else if t == 1124 { lemma_chart_1124(); assert(atlas_signatures()[class_rep(119)] == atlas_signatures()[1124]); }
        else if t == 1125 { lemma_chart_1125(); assert(atlas_signatures()[class_rep(118)] == atlas_signatures()[1125]); }
        else if t == 1126 { lemma_chart_1126(); assert(atlas_signatures()[class_rep(115)] == atlas_signatures()[1126]); }
        else { lemma_chart_1127(); assert(atlas_signatures()[class_rep(116)] == atlas_signatures()[1127]); }
    }
}

proof fn lemma_chart_1128()
    ensures
        chart_signature([(0, 3), (2, 3), (1, 3)], heap_table(0)) == chart_signature([(0, 1), (1, 2), (1, 3)], heap_table(12)),
{
    lemma_heap_entries();
    lemma_codes_of_word_47(heap_table(0));
    lemma_codes_of_word_2(heap_table(12));
    lemma_charts_agree_through([(0, 1), (1, 2), (1, 3)], heap_table(12), [(0, 3), (2, 3), (1, 3)], heap_table(0), 5, (5, 3, 7, 1, 6, 0, 4, 2));
}

proof fn lemma_chart_1129()
    ensures
        chart_signature([(0, 3), (2, 3), (1, 3)], heap_table(1)) == chart_signature([(0, 1), (1, 2), (1, 3)], heap_table(6)),
{
    lemma_heap_entries();
    lemma_codes_of_word_47(heap_table(1));
    lemma_codes_of_word_2(heap_table(6));
    lemma_charts_agree_through([(0, 1), (1, 2), (1, 3)], heap_table(6), [(0, 3), (2, 3), (1, 3)], heap_table(1), 5, (5, 3, 7, 1, 6, 0, 4, 2));
}

proof fn lemma_chart_1130()
    ensures
        chart_signature([(0, 3), (2, 3), (1, 3)], heap_table(2)) == chart_signature([(0, 1), (1, 2), (1, 3)], heap_table(8)),
{
    lemma_heap_entries();
    lemma_codes_of_word_47(heap_table(2));
    lemma_codes_of_word_2(heap_table(8));
    lemma_charts_agree_through([(0, 1), (1, 2), (1, 3)], heap_table(8), [(0, 3), (2, 3), (1, 3)], heap_table(2), 4, (3, 5, 6, 0, 7, 1, 2, 4));
}

proof fn lemma_chart_1131()
    ensures
        chart_signature([(0, 3), (2, 3), (1, 3)], heap_table(3)) == chart_signature([(0, 1), (1, 2), (1, 3)], heap_table(18)),
{
    lemma_heap_entries();
    lemma_codes_of_word_47(heap_table(3));
    lemma_codes_of_word_2(heap_table(18));
    lemma_charts_agree_through([(0, 1), (1, 2), (1, 3)], heap_table(18), [(0, 3), (2, 3), (1, 3)], heap_table(3), 5, (5, 3, 7, 1, 6, 0, 4, 2));
}

proof fn lemma_chart_1132()
    ensures
        chart_signature([(0, 3), (2, 3), (1, 3)], heap_table(4)) == chart_signature([(0, 1), (1, 2), (1, 3)], heap_table(20)),
{
    lemma_heap_entries();
    lemma_codes_of_word_47(heap_table(4));
    lemma_codes_of_word_2(heap_table(20));
    lemma_charts_agree_through([(0, 1), (1, 2), (1, 3)], heap_table(20), [(0, 3), (2, 3), (1, 3)], heap_table(4), 4, (3, 5, 6, 0, 7, 1, 2, 4));
}

proof fn lemma_chart_1133()
    ensures
        chart_signature([(0, 3), (2, 3), (1, 3)], heap_table(5)) == chart_signature([(0, 1), (1, 2), (1, 3)], heap_table(14)),
{
    lemma_heap_entries();
    lemma_codes_of_word_47(heap_table(5));
    lemma_codes_of_word_2(heap_table(14));
    lemma_charts_agree_through([(0, 1), (1, 2), (1, 3)], heap_table(14), [(0, 3), (2, 3), (1, 3)], heap_table(5), 4, (3, 5, 6, 0, 7, 1, 2, 4));
}

proof fn lemma_chart_1134()
    ensures
        chart_signature([(0, 3), (2, 3), (1, 3)], heap_table(6)) == chart_signature([(0, 1), (1, 2), (1, 3)], heap_table(12)),
{
    lemma_heap_entries();
    lemma_codes_of_word_47(heap_table(6));
    lemma_codes_of_word_2(heap_table(12));
    lemma_charts_agree_through([(0, 1), (1, 2), (1, 3)], heap_table(12), [(0, 3), (2, 3), (1, 3)], heap_table(6), 4, (3, 5, 6, 0, 7, 1, 2, 4));
}

proof fn lemma_chart_1135()
    ensures
        chart_signature([(0, 3), (2, 3), (1, 3)], heap_table(7)) == chart_signature([(0, 1), (1, 2), (1, 3)], heap_table(0)),
{
    lemma_heap_entries();
    lemma_codes_of_word_47(heap_table(7));
    lemma_codes_of_word_2(heap_table(0));
    lemma_charts_agree_through([(0, 1), (1, 2), (1, 3)], heap_table(0), [(0, 3), (2, 3), (1, 3)], heap_table(7), 5, (5, 3, 7, 1, 6, 0, 4, 2));
}

proof fn lemma_chart_1136()
    ensures
        chart_signature([(0, 3), (2, 3), (1, 3)], heap_table(8)) == chart_signature([(0, 1), (1, 2), (1, 3)], heap_table(2)),
{
    lemma_heap_entries();
    lemma_codes_of_word_47(heap_table(8));
    lemma_codes_of_word_2(heap_table(2));
    lemma_charts_agree_through([(0, 1), (1, 2), (1, 3)], heap_table(2), [(0, 3), (2, 3), (1, 3)], heap_table(8), 4, (3, 5, 6, 0, 7, 1, 2, 4));
}

proof fn lemma_chart_1137()
    ensures
        chart_signature([(0, 3), (2, 3), (1, 3)], heap_table(9)) == chart_signature([(0, 1), (1, 2), (1, 3)], heap_table(18)),
{
    lemma_heap_entries();
    lemma_codes_of_word_47(heap_table(9));
    lemma_codes_of_word_2(heap_table(18));
    lemma_charts_agree_through([(0, 1), (1, 2), (1, 3)], heap_table(18), [(0, 3), (2, 3), (1, 3)], heap_table(9), 4, (3, 5, 6, 0, 7, 1, 2, 4));
}

proof fn lemma_chart_1138()
    ensures
        chart_signature([(0, 3), (2, 3), (1, 3)], heap_table(10)) == chart_signature([(0, 1), (1, 2), (1, 3)], heap_table(22)),
{
    lemma_heap_entries();
    lemma_codes_of_word_47(heap_table(10));
    lemma_codes_of_word_2(heap_table(22));
    lemma_charts_agree_through([(0, 1), (1, 2), (1, 3)], heap_table(22), [(0, 3), (2, 3), (1, 3)], heap_table(10), 5, (5, 3, 7, 1, 6, 0, 4, 2));
}

proof fn lemma_chart_1139()
    ensures
        chart_signature([(0, 3), (2, 3), (1, 3)], heap_table(11)) == chart_signature([(0, 1), (1, 2), (1, 3)], heap_table(16)),
{
    lemma_heap_entries();
    lemma_codes_of_word_47(heap_table(11));
    lemma_codes_of_word_2(heap_table(16));
    lemma_charts_agree_through([(0, 1), (1, 2), (1, 3)], heap_table(16), [(0, 3), (2, 3), (1, 3)], heap_table(11), 5, (5, 3, 7, 1, 6, 0, 4, 2));
}

proof fn lemma_chart_1140()
    ensures
        chart_signature([(0, 3), (2, 3), (1, 3)], heap_table(12)) == chart_signature([(0, 1), (1, 2), (1, 3)], heap_table(6)),
{
    lemma_heap_entries();
    lemma_codes_of_word_47(heap_table(12));
    lemma_codes_of_word_2(heap_table(6));
    lemma_charts_agree_through([(0, 1), (1, 2), (1, 3)], heap_table(6), [(0, 3), (2, 3), (1, 3)], heap_table(12), 4, (3, 5, 6, 0, 7, 1, 2, 4));
}

proof fn lemma_chart_1141()
    ensures
        chart_signature([(0, 3), (2, 3), (1, 3)], heap_table(13)) == chart_signature([(0, 1), (1, 2), (1, 3)], heap_table(0)),
{
    lemma_heap_entries();
    lemma_codes_of_word_47(heap_table(13));
    lemma_codes_of_word_2(heap_table(0));
    lemma_charts_agree_through([(0, 1), (1, 2), (1, 3)], heap_table(0), [(0, 3), (2, 3), (1, 3)], heap_table(13), 4, (3, 5, 6, 0, 7, 1, 2, 4));
}

proof fn lemma_chart_1142()
    ensures
        chart_signature([(0, 3), (2, 3), (1, 3)], heap_table(14)) == chart_signature([(0, 1), (1, 2), (1, 3)], heap_table(4)),
{
    lemma_heap_entries();
    lemma_codes_of_word_47(heap_table(14));
    lemma_codes_of_word_2(heap_table(4));
    lemma_charts_agree_through([(0, 1), (1, 2), (1, 3)], heap_table(4), [(0, 3), (2, 3), (1, 3)], heap_table(14), 5, (5, 3, 7, 1, 6, 0, 4, 2));
}

proof fn lemma_chart_1143()
    ensures
        chart_signature([(0, 3), (2, 3), (1, 3)], heap_table(15)) == chart_signature([(0, 1), (1, 2), (1, 3)], heap_table(20)),
{
    lemma_heap_entries();
    lemma_codes_of_word_47(heap_table(15));
    lemma_codes_of_word_2(heap_table(20));
    lemma_charts_agree_through([(0, 1), (1, 2), (1, 3)], heap_table(20), [(0, 3), (2, 3), (1, 3)], heap_table(15), 5, (5, 3, 7, 1, 6, 0, 4, 2));
}

proof fn lemma_chart_1144()
    ensures
        chart_signature([(0, 3), (2, 3), (1, 3)], heap_table(16)) == chart_signature([(0, 1), (1, 2), (1, 3)], heap_table(22)),
{
    lemma_heap_entries();
    lemma_codes_of_word_47(heap_table(16));
    lemma_codes_of_word_2(heap_table(22));
    lemma_charts_agree_through([(0, 1), (1, 2), (1, 3)], heap_table(22), [(0, 3), (2, 3), (1, 3)], heap_table(16), 4, (3, 5, 6, 0, 7, 1, 2, 4));
}

proof fn lemma_chart_1145()
    ensures
        chart_signature([(0, 3), (2, 3), (1, 3)], heap_table(17)) == chart_signature([(0, 1), (1, 2), (1, 3)], heap_table(10)),
{
    lemma_heap_entries();
    lemma_codes_of_word_47(heap_table(17));
    lemma_codes_of_word_2(heap_table(10));
    lemma_charts_agree_through([(0, 1), (1, 2), (1, 3)], heap_table(10), [(0, 3), (2, 3), (1, 3)], heap_table(17), 5, (5, 3, 7, 1, 6, 0, 4, 2));
}

proof fn lemma_chart_1146()
    ensures
        chart_signature([(0, 3), (2, 3), (1, 3)], heap_table(18)) == chart_signature([(0, 1), (1, 2), (1, 3)], heap_table(8)),
{
    lemma_heap_entries();
    lemma_codes_of_word_47(heap_table(18));
    lemma_codes_of_word_2(heap_table(8));
    lemma_charts_agree_through([(0, 1), (1, 2), (1, 3)], heap_table(8), [(0, 3), (2, 3), (1, 3)], heap_table(18), 5, (5, 3, 7, 1, 6, 0, 4, 2));
}

proof fn lemma_chart_1147()
    ensures
        chart_signature([(0, 3), (2, 3), (1, 3)], heap_table(19)) == chart_signature([(0, 1), (1, 2), (1, 3)], heap_table(2)),
{
    lemma_heap_entries();
    lemma_codes_of_word_47(heap_table(19));
    lemma_codes_of_word_2(heap_table(2));
    lemma_charts_agree_through([(0, 1), (1, 2), (1, 3)], heap_table(2), [(0, 3), (2, 3), (1, 3)], heap_table(19), 5, (5, 3, 7, 1, 6, 0, 4, 2));
}

proof fn lemma_chart_1148()
    ensures
        chart_signature([(0, 3), (2, 3), (1, 3)], heap_table(20)) == chart_signature([(0, 1), (1, 2), (1, 3)], heap_table(4)),
{
    lemma_heap_entries();
    lemma_codes_of_word_47(heap_table(20));
    lemma_codes_of_word_2(heap_table(4));
    lemma_charts_agree_through([(0, 1), (1, 2), (1, 3)], heap_table(4), [(0, 3), (2, 3), (1, 3)], heap_table(20), 4, (3, 5, 6, 0, 7, 1, 2, 4));
}

proof fn lemma_chart_1149()
    ensures
        chart_signature([(0, 3), (2, 3), (1, 3)], heap_table(21)) == chart_signature([(0, 1), (1, 2), (1, 3)], heap_table(14)),
{
    lemma_heap_entries();
    lemma_codes_of_word_47(heap_table(21));
    lemma_codes_of_word_2(heap_table(14));
    lemma_charts_agree_through([(0, 1), (1, 2), (1, 3)], heap_table(14), [(0, 3), (2, 3), (1, 3)], heap_table(21), 5, (5, 3, 7, 1, 6, 0, 4, 2));
}

proof fn lemma_chart_1150()
    ensures
        chart_signature([(0, 3), (2, 3), (1, 3)], heap_table(22)) == chart_signature([(0, 1), (1, 2), (1, 3)], heap_table(16)),
{
    lemma_heap_entries();
    lemma_codes_of_word_47(heap_table(22));
    lemma_codes_of_word_2(heap_table(16));
    lemma_charts_agree_through([(0, 1), (1, 2), (1, 3)], heap_table(16), [(0, 3), (2, 3), (1, 3)], heap_table(22), 4, (3, 5, 6, 0, 7, 1, 2, 4));
}

proof fn lemma_chart_1151()
    ensures
        chart_signature([(0, 3), (2, 3), (1, 3)], heap_table(23)) == chart_signature([(0, 1), (1, 2), (1, 3)], heap_table(10)),
{
    lemma_heap_entries();
    lemma_codes_of_word_47(heap_table(23));
    lemma_codes_of_word_2(heap_table(10));
    lemma_charts_agree_through([(0, 1), (1, 2), (1, 3)], heap_table(10), [(0, 3), (2, 3), (1, 3)], heap_table(23), 4, (3, 5, 6, 0, 7, 1, 2, 4));
}

/// Every chart of atlas word 47 shares its signature with the first chart
/// of a class below 216.
pub proof fn lemma_charts_of_word_47()
    ensures
        forall|t: int| 1128 <= t < 1152 ==> #[trigger] meets_class_below(t, 216),
{
    lemma_census_words();
    assert forall|t: int| 1128 <= t < 1152 implies #[trigger] meets_class_below(t, 216) by {
        if t == 1128 { lemma_chart_1128(); assert(atlas_signatures()[class_rep(30)] == atlas_signatures()[1128]); }
        else if t == 1129 { lemma_chart_1129(); assert(atlas_signatures()[class_rep(27)] == atlas_signatures()[1129]); }
        else if t == 1130 { lemma_chart_1130(); assert(atlas_signatures()[class_rep(28)] == atlas_signatures()[1130]); }
        else if t == 1131 { lemma_chart_1131(); assert(atlas_signatures()[class_rep(33)] == atlas_signatures()[1131]); }
        else if t == 1132 { lemma_chart_1132(); assert(atlas_signatures()[class_rep(34)] == atlas_signatures()[1132]); }
        else if t == 1133 { lemma_chart_1133(); assert(atlas_signatures()[class_rep(31)] == atlas_signatures()[1133]); }
        else if t == 1134 { lemma_chart_1134(); assert(atlas_signatures()[class_rep(30)] == atlas_signatures()[1134]); }
        else if t == 1135 { lemma_chart_1135(); assert(atlas_signatures()[class_rep(24)] == atlas_signatures()[1135]); }
        else if t == 1136 { lemma_chart_1136(); assert(atlas_signatures()[class_rep(25)] == atlas_signatures()[1136]); }
        else if t == 1137 { lemma_chart_1137(); assert(atlas_signatures()[class_rep(33)] == atlas_signatures()[1137]); }
        else if t == 1138 { lemma_chart_1138(); assert(atlas_signatures()[class_rep(35)] == atlas_signatures()[1138]); }
        else if t == 1139 { lemma_chart_1139(); assert(atlas_signatures()[class_rep(32)] == atlas_signatures()[1139]); }
        else if t == 1140 { lemma_chart_1140(); assert(atlas_signatures()[class_rep(27)] == atlas_signatures()[1140]); }
        else if t == 1141 { lemma_chart_1141(); assert(atlas_signatures()[class_rep(24)] == atlas_signatures()[1141]); }
        else if t == 1142 { lemma_chart_1142(); assert(atlas_signatures()[class_rep(26)] == atlas_signatures()[1142]); }
        else if t == 1143 { lemma_chart_1143(); assert(atlas_signatures()[class_rep(34)] == atlas_signatures()[1143]); }
        else if t == 1144 { lemma_chart_1144(); assert(atlas_signatures()[class_rep(35)] == atlas_signatures()[1144]); }
        else if t == 1145 { lemma_chart_1145(); assert(atlas_signatures()[class_rep(29)] == atlas_signatures()[1145]); }
        else if t == 1146 { lemma_chart_1146(); assert(atlas_signatures()[class_rep(28)] == atlas_signatures()[1146]); }
        else if t == 1147 { lemma_chart_1147(); assert(atlas_signatures()[class_rep(25)] == atlas_signatures()[1147]); }
        else if t == 1148 { lemma_chart_1148(); assert(atlas_signatures()[class_rep(26)] == atlas_signatures()[1148]); }
        else if t == 1149 { lemma_chart_1149(); assert(atlas_signatures()[class_rep(31)] == atlas_signatures()[1149]); }
        else if t == 1150 { lemma_chart_1150(); assert(atlas_signatures()[class_rep(32)] == atlas_signatures()[1150]); }
        else { lemma_chart_1151(); assert(atlas_signatures()[class_rep(29)] == atlas_signatures()[1151]); }
    }
}

} // verus!
