//! Charts of atlas words 48 to 63 matched to the first charts of their classes.
use vstd::prelude::*;
use crate::atlas::{atlas_signatures, chart_signature, lemma_charts_agree_through};
use crate::permutations::heap_table;
use super::{class_rep, lemma_census_words, lemma_heap_entries, meets_class_below, lemma_codes_of_word_1, lemma_codes_of_word_5, lemma_codes_of_word_6, lemma_codes_of_word_7, lemma_codes_of_word_8, lemma_codes_of_word_13, lemma_codes_of_word_16, lemma_codes_of_word_20, lemma_codes_of_word_24, lemma_codes_of_word_26, lemma_codes_of_word_27, lemma_codes_of_word_30, lemma_codes_of_word_48, lemma_codes_of_word_49, lemma_codes_of_word_50, lemma_codes_of_word_51, lemma_codes_of_word_52, lemma_codes_of_word_53, lemma_codes_of_word_54, lemma_codes_of_word_55, lemma_codes_of_word_56, lemma_codes_of_word_57, lemma_codes_of_word_58, lemma_codes_of_word_59, lemma_codes_of_word_60, lemma_codes_of_word_61, lemma_codes_of_word_62, lemma_codes_of_word_63};

verus! {

proof fn lemma_chart_1152()
    ensures
        chart_signature([(1, 2), (0, 1), (0, 3)], heap_table(0)) == chart_signature([(0, 2), (0, 1), (0, 3)], heap_table(1)),
{
    lemma_heap_entries();
    lemma_codes_of_word_48(heap_table(0));
    lemma_codes_of_word_24(heap_table(1));
    lemma_charts_agree_through([(0, 2), (0, 1), (0, 3)], heap_table(1), [(1, 2), (0, 1), (0, 3)], heap_table(0), 2, (2, 4, 0, 6, 1, 7, 3, 5));
}

proof fn lemma_chart_1153()
    ensures
        chart_signature([(1, 2), (0, 1), (0, 3)], heap_table(1)) == chart_signature([(0, 2), (0, 1), (0, 3)], heap_table(0)),
{
    lemma_heap_entries();
    lemma_codes_of_word_48(heap_table(1));
    lemma_codes_of_word_24(heap_table(0));
    lemma_charts_agree_through([(0, 2), (0, 1), (0, 3)], heap_table(0), [(1, 2), (0, 1), (0, 3)], heap_table(1), 2, (2, 4, 0, 6, 1, 7, 3, 5));
}

proof fn lemma_chart_1154()
    ensures
        chart_signature([(1, 2), (0, 1), (0, 3)], heap_table(2)) == chart_signature([(0, 2), (0, 1), (0, 3)], heap_table(3)),
{
    lemma_heap_entries();
    lemma_codes_of_word_48(heap_table(2));
    lemma_codes_of_word_24(heap_table(3));
    lemma_charts_agree_through([(0, 2), (0, 1), (0, 3)], heap_table(3), [(1, 2), (0, 1), (0, 3)], heap_table(2), 2, (2, 4, 0, 6, 1, 7, 3, 5));
}

proof fn lemma_chart_1155()
    ensures
        chart_signature([(1, 2), (0, 1), (0, 3)], heap_table(3)) == chart_signature([(0, 2), (0, 1), (0, 3)], heap_table(1)),
{
    lemma_heap_entries();
    lemma_codes_of_word_48(heap_table(3));
    lemma_codes_of_word_24(heap_table(1));
    lemma_charts_agree_through([(0, 2), (0, 1), (0, 3)], heap_table(1), [(1, 2), (0, 1), (0, 3)], heap_table(3), 3, (4, 2, 1, 7, 0, 6, 5, 3));
}

proof fn lemma_chart_1156()
    ensures
        chart_signature([(1, 2), (0, 1), (0, 3)], heap_table(4)) == chart_signature([(0, 2), (0, 1), (0, 3)], heap_table(0)),
{
    lemma_heap_entries();
    lemma_codes_of_word_48(heap_table(4));
    lemma_codes_of_word_24(heap_table(0));
    lemma_charts_agree_through([(0, 2), (0, 1), (0, 3)], heap_table(0), [(1, 2), (0, 1), (0, 3)], heap_table(4), 3, (4, 2, 1, 7, 0, 6, 5, 3));
}

proof fn lemma_chart_1157()
    ensures
        chart_signature([(1, 2), (0, 1), (0, 3)], heap_table(5)) == chart_signature([(0, 2), (0, 1), (0, 3)], heap_table(3)),
{
    lemma_heap_entries();
    lemma_codes_of_word_48(heap_table(5));
    lemma_codes_of_word_24(heap_table(3));
    lemma_charts_agree_through([(0, 2), (0, 1), (0, 3)], heap_table(3), [(1, 2), (0, 1), (0, 3)], heap_table(5), 3, (4, 2, 1, 7, 0, 6, 5, 3));
}

proof fn lemma_chart_1158()
    ensures
        chart_signature([(1, 2), (0, 1), (0, 3)], heap_table(6)) == chart_signature([(0, 2), (0, 1), (0, 3)], heap_table(7)),
{
    lemma_heap_entries();
    lemma_codes_of_word_48(heap_table(6));
    lemma_codes_of_word_24(heap_table(7));
    lemma_charts_agree_through([(0, 2), (0, 1), (0, 3)], heap_table(7), [(1, 2), (0, 1), (0, 3)], heap_table(6), 2, (2, 4, 0, 6, 1, 7, 3, 5));
}

proof fn lemma_chart_1159()
    ensures
        chart_signature([(1, 2), (0, 1), (0, 3)], heap_table(7)) == chart_signature([(0, 2), (0, 1), (0, 3)], heap_table(6)),
{
    lemma_heap_entries();
    lemma_codes_of_word_48(heap_table(7));
    lemma_codes_of_word_24(heap_table(6));
    lemma_charts_agree_through([(0, 2), (0, 1), (0, 3)], heap_table(6), [(1, 2), (0, 1), (0, 3)], heap_table(7), 2, (2, 4, 0, 6, 1, 7, 3, 5));
}

proof fn lemma_chart_1160()
    ensures
        chart_signature([(1, 2), (0, 1), (0, 3)], heap_table(8)) == chart_signature([(0, 2), (0, 1), (0, 3)], heap_table(9)),
{
    lemma_heap_entries();
    lemma_codes_of_word_48(heap_table(8));
    lemma_codes_of_word_24(heap_table(9));
    lemma_charts_agree_through([(0, 2), (0, 1), (0, 3)], heap_table(9), [(1, 2), (0, 1), (0, 3)], heap_table(8), 2, (2, 4, 0, 6, 1, 7, 3, 5));
}

proof fn lemma_chart_1161()
    ensures
        chart_signature([(1, 2), (0, 1), (0, 3)], heap_table(9)) == chart_signature([(0, 2), (0, 1), (0, 3)], heap_table(7)),
{
    lemma_heap_entries();
    lemma_codes_of_word_48(heap_table(9));
    lemma_codes_of_word_24(heap_table(7));
    lemma_charts_agree_through([(0, 2), (0, 1), (0, 3)], heap_table(7), [(1, 2), (0, 1), (0, 3)], heap_table(9), 3, (4, 2, 1, 7, 0, 6, 5, 3));
}

proof fn lemma_chart_1162()
    ensures
        chart_signature([(1, 2), (0, 1), (0, 3)], heap_table(10)) == chart_signature([(0, 2), (0, 1), (0, 3)], heap_table(6)),
{
    lemma_heap_entries();
    lemma_codes_of_word_48(heap_table(10));
    lemma_codes_of_word_24(heap_table(6));
    lemma_charts_agree_through([(0, 2), (0, 1), (0, 3)], heap_table(6), [(1, 2), (0, 1), (0, 3)], heap_table(10), 3, (4, 2, 1, 7, 0, 6, 5, 3));
}

proof fn lemma_chart_1163()
    ensures
        chart_signature([(1, 2), (0, 1), (0, 3)], heap_table(11)) == chart_signature([(0, 2), (0, 1), (0, 3)], heap_table(9)),
{
    lemma_heap_entries();
    lemma_codes_of_word_48(heap_table(11));
    lemma_codes_of_word_24(heap_table(9));
    lemma_charts_agree_through([(0, 2), (0, 1), (0, 3)], heap_table(9), [(1, 2), (0, 1), (0, 3)], heap_table(11), 3, (4, 2, 1, 7, 0, 6, 5, 3));
}

proof fn lemma_chart_1164()
    ensures
        chart_signature([(1, 2), (0, 1), (0, 3)], heap_table(12)) == chart_signature([(0, 2), (0, 1), (0, 3)], heap_table(13)),
{
    lemma_heap_entries();
    lemma_codes_of_word_48(heap_table(12));
    lemma_codes_of_word_24(heap_table(13));
    lemma_charts_agree_through([(0, 2), (0, 1), (0, 3)], heap_table(13), [(1, 2), (0, 1), (0, 3)], heap_table(12), 2, (2, 4, 0, 6, 1, 7, 3, 5));
}

proof fn lemma_chart_1165()
    ensures
        chart_signature([(1, 2), (0, 1), (0, 3)], heap_table(13)) == chart_signature([(0, 2), (0, 1), (0, 3)], heap_table(12)),
{
    lemma_heap_entries();
    lemma_codes_of_word_48(heap_table(13));
    lemma_codes_of_word_24(heap_table(12));
    lemma_charts_agree_through([(0, 2), (0, 1), (0, 3)], heap_table(12), [(1, 2), (0, 1), (0, 3)], heap_table(13), 2, (2, 4, 0, 6, 1, 7, 3, 5));
}

proof fn lemma_chart_1166()
    ensures
        chart_signature([(1, 2), (0, 1), (0, 3)], heap_table(14)) == chart_signature([(0, 2), (0, 1), (0, 3)], heap_table(15)),
{
    lemma_heap_entries();
    lemma_codes_of_word_48(heap_table(14));
    lemma_codes_of_word_24(heap_table(15));
    lemma_charts_agree_through([(0, 2), (0, 1), (0, 3)], heap_table(15), [(1, 2), (0, 1), (0, 3)], heap_table(14), 2, (2, 4, 0, 6, 1, 7, 3, 5));
}

proof fn lemma_chart_1167()
    ensures
        chart_signature([(1, 2), (0, 1), (0, 3)], heap_table(15)) == chart_signature([(0, 2), (0, 1), (0, 3)], heap_table(13)),
{
    lemma_heap_entries();
    lemma_codes_of_word_48(heap_table(15));
    lemma_codes_of_word_24(heap_table(13));
    lemma_charts_agree_through([(0, 2), (0, 1), (0, 3)], heap_table(13), [(1, 2), (0, 1), (0, 3)], heap_table(15), 3, (4, 2, 1, 7, 0, 6, 5, 3));
}

proof fn lemma_chart_1168()
    ensures
        chart_signature([(1, 2), (0, 1), (0, 3)], heap_table(16)) == chart_signature([(0, 2), (0, 1), (0, 3)], heap_table(12)),
{
    lemma_heap_entries();
    lemma_codes_of_word_48(heap_table(16));
    lemma_codes_of_word_24(heap_table(12));
    lemma_charts_agree_through([(0, 2), (0, 1), (0, 3)], heap_table(12), [(1, 2), (0, 1), (0, 3)], heap_table(16), 3, (4, 2, 1, 7, 0, 6, 5, 3));
}

proof fn lemma_chart_1169()
    ensures
        chart_signature([(1, 2), (0, 1), (0, 3)], heap_table(17)) == chart_signature([(0, 2), (0, 1), (0, 3)], heap_table(15)),
{
    lemma_heap_entries();
    lemma_codes_of_word_48(heap_table(17));
    lemma_codes_of_word_24(heap_table(15));
    lemma_charts_agree_through([(0, 2), (0, 1), (0, 3)], heap_table(15), [(1, 2), (0, 1), (0, 3)], heap_table(17), 3, (4, 2, 1, 7, 0, 6, 5, 3));
}

proof fn lemma_chart_1170()
    ensures
        chart_signature([(1, 2), (0, 1), (0, 3)], heap_table(18)) == chart_signature([(0, 2), (0, 1), (0, 3)], heap_table(19)),
{
    lemma_heap_entries();
    lemma_codes_of_word_48(heap_table(18));
    lemma_codes_of_word_24(heap_table(19));
    lemma_charts_agree_through([(0, 2), (0, 1), (0, 3)], heap_table(19), [(1, 2), (0, 1), (0, 3)], heap_table(18), 2, (2, 4, 0, 6, 1, 7, 3, 5));
}

proof fn lemma_chart_1171()
    ensures
        chart_signature([(1, 2), (0, 1), (0, 3)], heap_table(19)) == chart_signature([(0, 2), (0, 1), (0, 3)], heap_table(18)),
{
    lemma_heap_entries();
    lemma_codes_of_word_48(heap_table(19));
    lemma_codes_of_word_24(heap_table(18));
    lemma_charts_agree_through([(0, 2), (0, 1), (0, 3)], heap_table(18), [(1, 2), (0, 1), (0, 3)], heap_table(19), 2, (2, 4, 0, 6, 1, 7, 3, 5));
}

proof fn lemma_chart_1172()
    ensures
        chart_signature([(1, 2), (0, 1), (0, 3)], heap_table(20)) == chart_signature([(0, 2), (0, 1), (0, 3)], heap_table(21)),
{
    lemma_heap_entries();
    lemma_codes_of_word_48(heap_table(20));
    lemma_codes_of_word_24(heap_table(21));
    lemma_charts_agree_through([(0, 2), (0, 1), (0, 3)], heap_table(21), [(1, 2), (0, 1), (0, 3)], heap_table(20), 2, (2, 4, 0, 6, 1, 7, 3, 5));
}

proof fn lemma_chart_1173()
    ensures
        chart_signature([(1, 2), (0, 1), (0, 3)], heap_table(21)) == chart_signature([(0, 2), (0, 1), (0, 3)], heap_table(19)),
{
    lemma_heap_entries();
    lemma_codes_of_word_48(heap_table(21));
    lemma_codes_of_word_24(heap_table(19));
    lemma_charts_agree_through([(0, 2), (0, 1), (0, 3)], heap_table(19), [(1, 2), (0, 1), (0, 3)], heap_table(21), 3, (4, 2, 1, 7, 0, 6, 5, 3));
}

proof fn lemma_chart_1174()
    ensures
        chart_signature([(1, 2), (0, 1), (0, 3)], heap_table(22)) == chart_signature([(0, 2), (0, 1), (0, 3)], heap_table(18)),
{
    lemma_heap_entries();
    lemma_codes_of_word_48(heap_table(22));
    lemma_codes_of_word_24(heap_table(18));
    lemma_charts_agree_through([(0, 2), (0, 1), (0, 3)], heap_table(18), [(1, 2), (0, 1), (0, 3)], heap_table(22), 3, (4, 2, 1, 7, 0, 6, 5, 3));
}

proof fn lemma_chart_1175()
    ensures
        chart_signature([(1, 2), (0, 1), (0, 3)], heap_table(23)) == chart_signature([(0, 2), (0, 1), (0, 3)], heap_table(21)),
{
    lemma_heap_entries();
    lemma_codes_of_word_48(heap_table(23));
    lemma_codes_of_word_24(heap_table(21));
    lemma_charts_agree_through([(0, 2), (0, 1), (0, 3)], heap_table(21), [(1, 2), (0, 1), (0, 3)], heap_table(23), 3, (4, 2, 1, 7, 0, 6, 5, 3));
}

/// Every chart of atlas word 48 shares its signature with the first chart
/// of a class below 216.
pub proof fn lemma_charts_of_word_48()
    ensures
        forall|t: int| 1152 <= t < 1176 ==> #[trigger] meets_class_below(t, 216),
{
    lemma_census_words();
    assert forall|t: int| 1152 <= t < 1176 implies #[trigger] meets_class_below(t, 216) by {
        if t == 1152 { lemma_chart_1152(); assert(atlas_signatures()[class_rep(139)] == atlas_signatures()[1152]); }
        else if t == 1153 { lemma_chart_1153(); assert(atlas_signatures()[class_rep(138)] == atlas_signatures()[1153]); }
        else if t == 1154 { lemma_chart_1154(); assert(atlas_signatures()[class_rep(140)] == atlas_signatures()[1154]); }
        else if t == 1155 { lemma_chart_1155(); assert(atlas_signatures()[class_rep(139)] == atlas_signatures()[1155]); }
        else if t == 1156 { lemma_chart_1156(); assert(atlas_signatures()[class_rep(138)] == atlas_signatures()[1156]); }
        else if t == 1157 { lemma_chart_1157(); assert(atlas_signatures()[class_rep(140)] == atlas_signatures()[1157]); }
        else if t == 1158 { lemma_chart_1158(); assert(atlas_signatures()[class_rep(142)] == atlas_signatures()[1158]); }
        else if t == 1159 { lemma_chart_1159(); assert(atlas_signatures()[class_rep(141)] == atlas_signatures()[1159]); }
        else if t == 1160 { lemma_chart_1160(); assert(atlas_signatures()[class_rep(143)] == atlas_signatures()[1160]); }
        else if t == 1161 { lemma_chart_1161(); assert(atlas_signatures()[class_rep(142)] == atlas_signatures()[1161]); }
        else if t == 1162 { lemma_chart_1162(); assert(atlas_signatures()[class_rep(141)] == atlas_signatures()[1162]); }
        else if t == 1163 { lemma_chart_1163(); assert(atlas_signatures()[class_rep(143)] == atlas_signatures()[1163]); }
        else if t == 1164 { lemma_chart_1164(); assert(atlas_signatures()[class_rep(145)] == atlas_signatures()[1164]); }
        else if t == 1165 { lemma_chart_1165(); assert(atlas_signatures()[class_rep(144)] == atlas_signatures()[1165]); }
        else if t == 1166 { lemma_chart_1166(); assert(atlas_signatures()[class_rep(146)] == atlas_signatures()[1166]); }
        else if t == 1167 { lemma_chart_1167(); assert(atlas_signatures()[class_rep(145)] == atlas_signatures()[1167]); }
        else if t == 1168 { lemma_chart_1168(); assert(atlas_signatures()[class_rep(144)] == atlas_signatures()[1168]); }
        else if t == 1169 { lemma_chart_1169(); assert(atlas_signatures()[class_rep(146)] == atlas_signatures()[1169]); }
        else if t == 1170 { lemma_chart_1170(); assert(atlas_signatures()[class_rep(148)] == atlas_signatures()[1170]); }
        else if t == 1171 { lemma_chart_1171(); assert(atlas_signatures()[class_rep(147)] == atlas_signatures()[1171]); }
        else if t == 1172 { lemma_chart_1172(); assert(atlas_signatures()[class_rep(149)] == atlas_signatures()[1172]); }
        else if t == 1173 { lemma_chart_1173(); assert(atlas_signatures()[class_rep(148)] == atlas_signatures()[1173]); }
        else if t == 1174 { lemma_chart_1174(); assert(atlas_signatures()[class_rep(147)] == atlas_signatures()[1174]); }
        else { lemma_chart_1175(); assert(atlas_signatures()[class_rep(149)] == atlas_signatures()[1175]); }
    }
}

proof fn lemma_chart_1176()
    ensures
        chart_signature([(1, 2), (0, 1), (1, 3)], heap_table(0)) == chart_signature([(0, 2), (0, 3), (1, 3)], heap_table(7)),
{
    lemma_heap_entries();
    lemma_codes_of_word_49(heap_table(0));
    lemma_codes_of_word_6(heap_table(7));
    lemma_charts_agree_through([(0, 2), (0, 3), (1, 3)], heap_table(7), [(1, 2), (0, 1), (1, 3)], heap_table(0), 6, (6, 7, 3, 2, 5, 4, 0, 1));
}

proof fn lemma_chart_1177()
    ensures
        chart_signature([(1, 2), (0, 1), (1, 3)], heap_table(1)) == chart_signature([(0, 2), (0, 3), (1, 3)], heap_table(13)),
{
    lemma_heap_entries();
    lemma_codes_of_word_49(heap_table(1));
    lemma_codes_of_word_6(heap_table(13));
    lemma_charts_agree_through([(0, 2), (0, 3), (1, 3)], heap_table(13), [(1, 2), (0, 1), (1, 3)], heap_table(1), 6, (6, 7, 3, 2, 5, 4, 0, 1));
}

proof fn lemma_chart_1178()
    ensures
        chart_signature([(1, 2), (0, 1), (1, 3)], heap_table(2)) == chart_signature([(0, 2), (0, 3), (1, 3)], heap_table(19)),
{
    lemma_heap_entries();
    lemma_codes_of_word_49(heap_table(2));
    lemma_codes_of_word_6(heap_table(19));
    lemma_charts_agree_through([(0, 2), (0, 3), (1, 3)], heap_table(19), [(1, 2), (0, 1), (1, 3)], heap_table(2), 6, (6, 7, 3, 2, 5, 4, 0, 1));
}

proof fn lemma_chart_1179()
    ensures
        chart_signature([(1, 2), (0, 1), (1, 3)], heap_table(3)) == chart_signature([(0, 2), (0, 3), (1, 3)], heap_table(7)),
{
    lemma_heap_entries();
    lemma_codes_of_word_49(heap_table(3));
    lemma_codes_of_word_6(heap_table(7));
    lemma_charts_agree_through([(0, 2), (0, 3), (1, 3)], heap_table(7), [(1, 2), (0, 1), (1, 3)], heap_table(3), 7, (7, 6, 5, 4, 3, 2, 1, 0));
}

proof fn lemma_chart_1180()
    ensures
        chart_signature([(1, 2), (0, 1), (1, 3)], heap_table(4)) == chart_signature([(0, 2), (0, 3), (1, 3)], heap_table(13)),
{
    lemma_heap_entries();
    lemma_codes_of_word_49(heap_table(4));
    lemma_codes_of_word_6(heap_table(13));
    lemma_charts_agree_through([(0, 2), (0, 3), (1, 3)], heap_table(13), [(1, 2), (0, 1), (1, 3)], heap_table(4), 7, (7, 6, 5, 4, 3, 2, 1, 0));
}

proof fn lemma_chart_1181()
    ensures
        chart_signature([(1, 2), (0, 1), (1, 3)], heap_table(5)) == chart_signature([(0, 2), (0, 3), (1, 3)], heap_table(19)),
{
    lemma_heap_entries();
    lemma_codes_of_word_49(heap_table(5));
    lemma_codes_of_word_6(heap_table(19));
    lemma_charts_agree_through([(0, 2), (0, 3), (1, 3)], heap_table(19), [(1, 2), (0, 1), (1, 3)], heap_table(5), 7, (7, 6, 5, 4, 3, 2, 1, 0));
}

proof fn lemma_chart_1182()
    ensures
        chart_signature([(1, 2), (0, 1), (1, 3)], heap_table(6)) == chart_signature([(0, 2), (0, 3), (1, 3)], heap_table(1)),
{
    lemma_heap_entries();
    lemma_codes_of_word_49(heap_table(6));
    lemma_codes_of_word_6(heap_table(1));
    lemma_charts_agree_through([(0, 2), (0, 3), (1, 3)], heap_table(1), [(1, 2), (0, 1), (1, 3)], heap_table(6), 6, (6, 7, 3, 2, 5, 4, 0, 1));
}

proof fn lemma_chart_1183()
    ensures
        chart_signature([(1, 2), (0, 1), (1, 3)], heap_table(7)) == chart_signature([(0, 2), (0, 3), (1, 3)], heap_table(12)),
{
    lemma_heap_entries();
    lemma_codes_of_word_49(heap_table(7));
    lemma_codes_of_word_6(heap_table(12));
    lemma_charts_agree_through([(0, 2), (0, 3), (1, 3)], heap_table(12), [(1, 2), (0, 1), (1, 3)], heap_table(7), 6, (6, 7, 3, 2, 5, 4, 0, 1));
}

proof fn lemma_chart_1184()
    ensures
        chart_signature([(1, 2), (0, 1), (1, 3)], heap_table(8)) == chart_signature([(0, 2), (0, 3), (1, 3)], heap_table(18)),
{
    lemma_heap_entries();
    lemma_codes_of_word_49(heap_table(8));
    lemma_codes_of_word_6(heap_table(18));
    lemma_charts_agree_through([(0, 2), (0, 3), (1, 3)], heap_table(18), [(1, 2), (0, 1), (1, 3)], heap_table(8), 6, (6, 7, 3, 2, 5, 4, 0, 1));
}

proof fn lemma_chart_1185()
    ensures
        chart_signature([(1, 2), (0, 1), (1, 3)], heap_table(9)) == chart_signature([(0, 2), (0, 3), (1, 3)], heap_table(1)),
{
    lemma_heap_entries();
    lemma_codes_of_word_49(heap_table(9));
    lemma_codes_of_word_6(heap_table(1));
    lemma_charts_agree_through([(0, 2), (0, 3), (1, 3)], heap_table(1), [(1, 2), (0, 1), (1, 3)], heap_table(9), 7, (7, 6, 5, 4, 3, 2, 1, 0));
}

proof fn lemma_chart_1186()
    ensures
        chart_signature([(1, 2), (0, 1), (1, 3)], heap_table(10)) == chart_signature([(0, 2), (0, 3), (1, 3)], heap_table(12)),
{
    lemma_heap_entries();
    lemma_codes_of_word_49(heap_table(10));
    lemma_codes_of_word_6(heap_table(12));
    lemma_charts_agree_through([(0, 2), (0, 3), (1, 3)], heap_table(12), [(1, 2), (0, 1), (1, 3)], heap_table(10), 7, (7, 6, 5, 4, 3, 2, 1, 0));
}

proof fn lemma_chart_1187()
    ensures
        chart_signature([(1, 2), (0, 1), (1, 3)], heap_table(11)) == chart_signature([(0, 2), (0, 3), (1, 3)], heap_table(18)),
{
    lemma_heap_entries();
    lemma_codes_of_word_49(heap_table(11));
    lemma_codes_of_word_6(heap_table(18));
    lemma_charts_agree_through([(0, 2), (0, 3), (1, 3)], heap_table(18), [(1, 2), (0, 1), (1, 3)], heap_table(11), 7, (7, 6, 5, 4, 3, 2, 1, 0));
}

proof fn lemma_chart_1188()
    ensures
        chart_signature([(1, 2), (0, 1), (1, 3)], heap_table(12)) == chart_signature([(0, 2), (0, 3), (1, 3)], heap_table(0)),
{
    lemma_heap_entries();
    lemma_codes_of_word_49(heap_table(12));
    lemma_codes_of_word_6(heap_table(0));
    lemma_charts_agree_through([(0, 2), (0, 3), (1, 3)], heap_table(0), [(1, 2), (0, 1), (1, 3)], heap_table(12), 6, (6, 7, 3, 2, 5, 4, 0, 1));
}

proof fn lemma_chart_1189()
    ensures
        chart_signature([(1, 2), (0, 1), (1, 3)], heap_table(13)) == chart_signature([(0, 2), (0, 3), (1, 3)], heap_table(6)),
{
    lemma_heap_entries();
    lemma_codes_of_word_49(heap_table(13));
    lemma_codes_of_word_6(heap_table(6));
    lemma_charts_agree_through([(0, 2), (0, 3), (1, 3)], heap_table(6), [(1, 2), (0, 1), (1, 3)], heap_table(13), 6, (6, 7, 3, 2, 5, 4, 0, 1));
}

proof fn lemma_chart_1190()
    ensures
        chart_signature([(1, 2), (0, 1), (1, 3)], heap_table(14)) == chart_signature([(0, 2), (0, 3), (1, 3)], heap_table(21)),
{
    lemma_heap_entries();
    lemma_codes_of_word_49(heap_table(14));
    lemma_codes_of_word_6(heap_table(21));
    lemma_charts_agree_through([(0, 2), (0, 3), (1, 3)], heap_table(21), [(1, 2), (0, 1), (1, 3)], heap_table(14), 6, (6, 7, 3, 2, 5, 4, 0, 1));
}

proof fn lemma_chart_1191()
    ensures
        chart_signature([(1, 2), (0, 1), (1, 3)], heap_table(15)) == chart_signature([(0, 2), (0, 3), (1, 3)], heap_table(0)),
{
    lemma_heap_entries();
    lemma_codes_of_word_49(heap_table(15));
    lemma_codes_of_word_6(heap_table(0));
    lemma_charts_agree_through([(0, 2), (0, 3), (1, 3)], heap_table(0), [(1, 2), (0, 1), (1, 3)], heap_table(15), 7, (7, 6, 5, 4, 3, 2, 1, 0));
}

proof fn lemma_chart_1192()
    ensures
        chart_signature([(1, 2), (0, 1), (1, 3)], heap_table(16)) == chart_signature([(0, 2), (0, 3), (1, 3)], heap_table(6)),
{
    lemma_heap_entries();
    lemma_codes_of_word_49(heap_table(16));
    lemma_codes_of_word_6(heap_table(6));
    lemma_charts_agree_through([(0, 2), (0, 3), (1, 3)], heap_table(6), [(1, 2), (0, 1), (1, 3)], heap_table(16), 7, (7, 6, 5, 4, 3, 2, 1, 0));
}

proof fn lemma_chart_1193()
    ensures
        chart_signature([(1, 2), (0, 1), (1, 3)], heap_table(17)) == chart_signature([(0, 2), (0, 3), (1, 3)], heap_table(21)),
{
    lemma_heap_entries();
    lemma_codes_of_word_49(heap_table(17));
    lemma_codes_of_word_6(heap_table(21));
    lemma_charts_agree_through([(0, 2), (0, 3), (1, 3)], heap_table(21), [(1, 2), (0, 1), (1, 3)], heap_table(17), 7, (7, 6, 5, 4, 3, 2, 1, 0));
}

proof fn lemma_chart_1194()
    ensures
        chart_signature([(1, 2), (0, 1), (1, 3)], heap_table(18)) == chart_signature([(0, 2), (0, 3), (1, 3)], heap_table(3)),
{
    lemma_heap_entries();
    lemma_codes_of_word_49(heap_table(18));
    lemma_codes_of_word_6(heap_table(3));
    lemma_charts_agree_through([(0, 2), (0, 3), (1, 3)], heap_table(3), [(1, 2), (0, 1), (1, 3)], heap_table(18), 6, (6, 7, 3, 2, 5, 4, 0, 1));
}

proof fn lemma_chart_1195()
    ensures
        chart_signature([(1, 2), (0, 1), (1, 3)], heap_table(19)) == chart_signature([(0, 2), (0, 3), (1, 3)], heap_table(9)),
{
    lemma_heap_entries();
    lemma_codes_of_word_49(heap_table(19));
    lemma_codes_of_word_6(heap_table(9));
    lemma_charts_agree_through([(0, 2), (0, 3), (1, 3)], heap_table(9), [(1, 2), (0, 1), (1, 3)], heap_table(19), 6, (6, 7, 3, 2, 5, 4, 0, 1));
}

proof fn lemma_chart_1196()
    ensures
        chart_signature([(1, 2), (0, 1), (1, 3)], heap_table(20)) == chart_signature([(0, 2), (0, 3), (1, 3)], heap_table(15)),
{
    lemma_heap_entries();
    lemma_codes_of_word_49(heap_table(20));
    lemma_codes_of_word_6(heap_table(15));
    lemma_charts_agree_through([(0, 2), (0, 3), (1, 3)], heap_table(15), [(1, 2), (0, 1), (1, 3)], heap_table(20), 6, (6, 7, 3, 2, 5, 4, 0, 1));
}

proof fn lemma_chart_1197()
    ensures
        chart_signature([(1, 2), (0, 1), (1, 3)], heap_table(21)) == chart_signature([(0, 2), (0, 3), (1, 3)], heap_table(3)),
{
    lemma_heap_entries();
    lemma_codes_of_word_49(heap_table(21));
    lemma_codes_of_word_6(heap_table(3));
    lemma_charts_agree_through([(0, 2), (0, 3), (1, 3)], heap_table(3), [(1, 2), (0, 1), (1, 3)], heap_table(21), 7, (7, 6, 5, 4, 3, 2, 1, 0));
}

proof fn lemma_chart_1198()
    ensures
        chart_signature([(1, 2), (0, 1), (1, 3)], heap_table(22)) == chart_signature([(0, 2), (0, 3), (1, 3)], heap_table(9)),
{
    lemma_heap_entries();
    lemma_codes_of_word_49(heap_table(22));
    lemma_codes_of_word_6(heap_table(9));
    lemma_charts_agree_through([(0, 2), (0, 3), (1, 3)], heap_table(9), [(1, 2), (0, 1), (1, 3)], heap_table(22), 7, (7, 6, 5, 4, 3, 2, 1, 0));
}

proof fn lemma_chart_1199()
    ensures
        chart_signature([(1, 2), (0, 1), (1, 3)], heap_table(23)) == chart_signature([(0, 2), (0, 3), (1, 3)], heap_table(15)),
{
    lemma_heap_entries();
    lemma_codes_of_word_49(heap_table(23));
    lemma_codes_of_word_6(heap_table(15));
    lemma_charts_agree_through([(0, 2), (0, 3), (1, 3)], heap_table(15), [(1, 2), (0, 1), (1, 3)], heap_table(23), 7, (7, 6, 5, 4, 3, 2, 1, 0));
}

/// Every chart of atlas word 49 shares its signature with the first chart
/// of a class below 216.
pub proof fn lemma_charts_of_word_49()
    ensures
        forall|t: int| 1176 <= t < 1200 ==> #[trigger] meets_class_below(t, 216),
{
    lemma_census_words();
    assert forall|t: int| 1176 <= t < 1200 implies #[trigger] meets_class_below(t, 216) by {
        if t == 1176 { lemma_chart_1176(); assert(atlas_signatures()[class_rep(64)] == atlas_signatures()[1176]); }
        else if t == 1177 { lemma_chart_1177(); assert(atlas_signatures()[class_rep(67)] == atlas_signatures()[1177]); }
        else if t == 1178 { lemma_chart_1178(); assert(atlas_signatures()[class_rep(70)] == atlas_signatures()[1178]); }
        else if t == 1179 { lemma_chart_1179(); assert(atlas_signatures()[class_rep(64)] == atlas_signatures()[1179]); }
        else if t == 1180 { lemma_chart_1180(); assert(atlas_signatures()[class_rep(67)] == atlas_signatures()[1180]); }
        else if t == 1181 { lemma_chart_1181(); assert(atlas_signatures()[class_rep(70)] == atlas_signatures()[1181]); }
        else if t == 1182 { lemma_chart_1182(); assert(atlas_signatures()[class_rep(61)] == atlas_signatures()[1182]); }
        else if t == 1183 { lemma_chart_1183(); assert(atlas_signatures()[class_rep(66)] == atlas_signatures()[1183]); }
        else if t == 1184 { lemma_chart_1184(); assert(atlas_signatures()[class_rep(69)] == atlas_signatures()[1184]); }
        else if t == 1185 { lemma_chart_1185(); assert(atlas_signatures()[class_rep(61)] == atlas_signatures()[1185]); }
        else if t == 1186 { lemma_chart_1186(); assert(atlas_signatures()[class_rep(66)] == atlas_signatures()[1186]); }
        else if t == 1187 { lemma_chart_1187(); assert(atlas_signatures()[class_rep(69)] == atlas_signatures()[1187]); }
        else if t == 1188 { lemma_chart_1188(); assert(atlas_signatures()[class_rep(60)] == atlas_signatures()[1188]); }
        else if t == 1189 { lemma_chart_1189(); assert(atlas_signatures()[class_rep(63)] == atlas_signatures()[1189]); }
        else if t == 1190 { lemma_chart_1190(); assert(atlas_signatures()[class_rep(71)] == atlas_signatures()[1190]); }
        else if t == 1191 { lemma_chart_1191(); assert(atlas_signatures()[class_rep(60)] == atlas_signatures()[1191]); }
        else if t == 1192 { lemma_chart_1192(); assert(atlas_signatures()[class_rep(63)] == atlas_signatures()[1192]); }
        else if t == 1193 { lemma_chart_1193(); assert(atlas_signatures()[class_rep(71)] == atlas_signatures()[1193]); }
        else if t == 1194 { lemma_chart_1194(); assert(atlas_signatures()[class_rep(62)] == atlas_signatures()[1194]); }
        else if t == 1195 { lemma_chart_1195(); assert(atlas_signatures()[class_rep(65)] == atlas_signatures()[1195]); }
        else if t == 1196 { lemma_chart_1196(); assert(atlas_signatures()[class_rep(68)] == atlas_signatures()[1196]); }
        else if t == 1197 { lemma_chart_1197(); assert(atlas_signatures()[class_rep(62)] == atlas_signatures()[1197]); }
        else if t == 1198 { lemma_chart_1198(); assert(atlas_signatures()[class_rep(65)] == atlas_signatures()[1198]); }
        else { lemma_chart_1199(); assert(atlas_signatures()[class_rep(68)] == atlas_signatures()[1199]); }
    }
}

proof fn lemma_chart_1200()
    ensures
        chart_signature([(1, 2), (0, 1), (2, 3)], heap_table(0)) == chart_signature([(0, 2), (0, 1), (2, 3)], heap_table(1)),
{
    lemma_heap_entries();
    lemma_codes_of_word_50(heap_table(0));
    lemma_codes_of_word_26(heap_table(1));
    lemma_charts_agree_through([(0, 2), (0, 1), (2, 3)], heap_table(1), [(1, 2), (0, 1), (2, 3)], heap_table(0), 2, (2, 4, 0, 6, 1, 7, 3, 5));
}

proof fn lemma_chart_1201()
    ensures
        chart_signature([(1, 2), (0, 1), (2, 3)], heap_table(1)) == chart_signature([(0, 2), (0, 1), (2, 3)], heap_table(0)),
{
    lemma_heap_entries();
    lemma_codes_of_word_50(heap_table(1));
    lemma_codes_of_word_26(heap_table(0));
    lemma_charts_agree_through([(0, 2), (0, 1), (2, 3)], heap_table(0), [(1, 2), (0, 1), (2, 3)], heap_table(1), 2, (2, 4, 0, 6, 1, 7, 3, 5));
}

proof fn lemma_chart_1202()
    ensures
        chart_signature([(1, 2), (0, 1), (2, 3)], heap_table(2)) == chart_signature([(0, 2), (0, 1), (2, 3)], heap_table(3)),
{
    lemma_heap_entries();
    lemma_codes_of_word_50(heap_table(2));
    lemma_codes_of_word_26(heap_table(3));
    lemma_charts_agree_through([(0, 2), (0, 1), (2, 3)], heap_table(3), [(1, 2), (0, 1), (2, 3)], heap_table(2), 2, (2, 4, 0, 6, 1, 7, 3, 5));
}

proof fn lemma_chart_1203()
    ensures
        chart_signature([(1, 2), (0, 1), (2, 3)], heap_table(3)) == chart_signature([(0, 2), (0, 1), (2, 3)], heap_table(1)),
{
    lemma_heap_entries();
    lemma_codes_of_word_50(heap_table(3));
    lemma_codes_of_word_26(heap_table(1));
    lemma_charts_agree_through([(0, 2), (0, 1), (2, 3)], heap_table(1), [(1, 2), (0, 1), (2, 3)], heap_table(3), 3, (4, 2, 1, 7, 0, 6, 5, 3));
}

proof fn lemma_chart_1204()
    ensures
        chart_signature([(1, 2), (0, 1), (2, 3)], heap_table(4)) == chart_signature([(0, 2), (0, 1), (2, 3)], heap_table(0)),
{
    lemma_heap_entries();
    lemma_codes_of_word_50(heap_table(4));
    lemma_codes_of_word_26(heap_table(0));
    lemma_charts_agree_through([(0, 2), (0, 1), (2, 3)], heap_table(0), [(1, 2), (0, 1), (2, 3)], heap_table(4), 3, (4, 2, 1, 7, 0, 6, 5, 3));
}

proof fn lemma_chart_1205()
    ensures
        chart_signature([(1, 2), (0, 1), (2, 3)], heap_table(5)) == chart_signature([(0, 2), (0, 1), (2, 3)], heap_table(3)),
{
    lemma_heap_entries();
    lemma_codes_of_word_50(heap_table(5));
    lemma_codes_of_word_26(heap_table(3));
    lemma_charts_agree_through([(0, 2), (0, 1), (2, 3)], heap_table(3), [(1, 2), (0, 1), (2, 3)], heap_table(5), 3, (4, 2, 1, 7, 0, 6, 5, 3));
}

proof fn lemma_chart_1206()
    ensures
        chart_signature([(1, 2), (0, 1), (2, 3)], heap_table(6)) == chart_signature([(0, 2), (0, 1), (2, 3)], heap_table(7)),
{
    lemma_heap_entries();
    lemma_codes_of_word_50(heap_table(6));
    lemma_codes_of_word_26(heap_table(7));
    lemma_charts_agree_through([(0, 2), (0, 1), (2, 3)], heap_table(7), [(1, 2), (0, 1), (2, 3)], heap_table(6), 2, (2, 4, 0, 6, 1, 7, 3, 5));
}

proof fn lemma_chart_1207()
    ensures
        chart_signature([(1, 2), (0, 1), (2, 3)], heap_table(7)) == chart_signature([(0, 2), (0, 1), (2, 3)], heap_table(6)),
{
    lemma_heap_entries();
    lemma_codes_of_word_50(heap_table(7));
    lemma_codes_of_word_26(heap_table(6));
    lemma_charts_agree_through([(0, 2), (0, 1), (2, 3)], heap_table(6), [(1, 2), (0, 1), (2, 3)], heap_table(7), 2, (2, 4, 0, 6, 1, 7, 3, 5));
}

proof fn lemma_chart_1208()
    ensures
        chart_signature([(1, 2), (0, 1), (2, 3)], heap_table(8)) == chart_signature([(0, 2), (0, 1), (2, 3)], heap_table(9)),
{
    lemma_heap_entries();
    lemma_codes_of_word_50(heap_table(8));
    lemma_codes_of_word_26(heap_table(9));
    lemma_charts_agree_through([(0, 2), (0, 1), (2, 3)], heap_table(9), [(1, 2), (0, 1), (2, 3)], heap_table(8), 2, (2, 4, 0, 6, 1, 7, 3, 5));
}

proof fn lemma_chart_1209()
    ensures
        chart_signature([(1, 2), (0, 1), (2, 3)], heap_table(9)) == chart_signature([(0, 2), (0, 1), (2, 3)], heap_table(7)),
{
    lemma_heap_entries();
    lemma_codes_of_word_50(heap_table(9));
    lemma_codes_of_word_26(heap_table(7));
    lemma_charts_agree_through([(0, 2), (0, 1), (2, 3)], heap_table(7), [(1, 2), (0, 1), (2, 3)], heap_table(9), 3, (4, 2, 1, 7, 0, 6, 5, 3));
}

proof fn lemma_chart_1210()
    ensures
        chart_signature([(1, 2), (0, 1), (2, 3)], heap_table(10)) == chart_signature([(0, 2), (0, 1), (2, 3)], heap_table(6)),
{
    lemma_heap_entries();
    lemma_codes_of_word_50(heap_table(10));
    lemma_codes_of_word_26(heap_table(6));
    lemma_charts_agree_through([(0, 2), (0, 1), (2, 3)], heap_table(6), [(1, 2), (0, 1), (2, 3)], heap_table(10), 3, (4, 2, 1, 7, 0, 6, 5, 3));
}

proof fn lemma_chart_1211()
    ensures
        chart_signature([(1, 2), (0, 1), (2, 3)], heap_table(11)) == chart_signature([(0, 2), (0, 1), (2, 3)], heap_table(9)),
{
    lemma_heap_entries();
    lemma_codes_of_word_50(heap_table(11));
    lemma_codes_of_word_26(heap_table(9));
    lemma_charts_agree_through([(0, 2), (0, 1), (2, 3)], heap_table(9), [(1, 2), (0, 1), (2, 3)], heap_table(11), 3, (4, 2, 1, 7, 0, 6, 5, 3));
}

proof fn lemma_chart_1212()
    ensures
        chart_signature([(1, 2), (0, 1), (2, 3)], heap_table(12)) == chart_signature([(0, 2), (0, 1), (2, 3)], heap_table(13)),
{
    lemma_heap_entries();
    lemma_codes_of_word_50(heap_table(12));
    lemma_codes_of_word_26(heap_table(13));
    lemma_charts_agree_through([(0, 2), (0, 1), (2, 3)], heap_table(13), [(1, 2), (0, 1), (2, 3)], heap_table(12), 2, (2, 4, 0, 6, 1, 7, 3, 5));
}

proof fn lemma_chart_1213()
    ensures
        chart_signature([(1, 2), (0, 1), (2, 3)], heap_table(13)) == chart_signature([(0, 2), (0, 1), (2, 3)], heap_table(12)),
{
    lemma_heap_entries();
    lemma_codes_of_word_50(heap_table(13));
    lemma_codes_of_word_26(heap_table(12));
    lemma_charts_agree_through([(0, 2), (0, 1), (2, 3)], heap_table(12), [(1, 2), (0, 1), (2, 3)], heap_table(13), 2, (2, 4, 0, 6, 1, 7, 3, 5));
}

proof fn lemma_chart_1214()
    ensures
        chart_signature([(1, 2), (0, 1), (2, 3)], heap_table(14)) == chart_signature([(0, 2), (0, 1), (2, 3)], heap_table(15)),
{
    lemma_heap_entries();
    lemma_codes_of_word_50(heap_table(14));
    lemma_codes_of_word_26(heap_table(15));
    lemma_charts_agree_through([(0, 2), (0, 1), (2, 3)], heap_table(15), [(1, 2), (0, 1), (2, 3)], heap_table(14), 2, (2, 4, 0, 6, 1, 7, 3, 5));
}

proof fn lemma_chart_1215()
    ensures
        chart_signature([(1, 2), (0, 1), (2, 3)], heap_table(15)) == chart_signature([(0, 2), (0, 1), (2, 3)], heap_table(13)),
{
    lemma_heap_entries();
    lemma_codes_of_word_50(heap_table(15));
    lemma_codes_of_word_26(heap_table(13));
    lemma_charts_agree_through([(0, 2), (0, 1), (2, 3)], heap_table(13), [(1, 2), (0, 1), (2, 3)], heap_table(15), 3, (4, 2, 1, 7, 0, 6, 5, 3));
}

proof fn lemma_chart_1216()
    ensures
        chart_signature([(1, 2), (0, 1), (2, 3)], heap_table(16)) == chart_signature([(0, 2), (0, 1), (2, 3)], heap_table(12)),
{
    lemma_heap_entries();
    lemma_codes_of_word_50(heap_table(16));
    lemma_codes_of_word_26(heap_table(12));
    lemma_charts_agree_through([(0, 2), (0, 1), (2, 3)], heap_table(12), [(1, 2), (0, 1), (2, 3)], heap_table(16), 3, (4, 2, 1, 7, 0, 6, 5, 3));
}

proof fn lemma_chart_1217()
    ensures
        chart_signature([(1, 2), (0, 1), (2, 3)], heap_table(17)) == chart_signature([(0, 2), (0, 1), (2, 3)], heap_table(15)),
{
    lemma_heap_entries();
    lemma_codes_of_word_50(heap_table(17));
    lemma_codes_of_word_26(heap_table(15));
    lemma_charts_agree_through([(0, 2), (0, 1), (2, 3)], heap_table(15), [(1, 2), (0, 1), (2, 3)], heap_table(17), 3, (4, 2, 1, 7, 0, 6, 5, 3));
}

proof fn lemma_chart_1218()
    ensures
        chart_signature([(1, 2), (0, 1), (2, 3)], heap_table(18)) == chart_signature([(0, 2), (0, 1), (2, 3)], heap_table(19)),
{
    lemma_heap_entries();
    lemma_codes_of_word_50(heap_table(18));
    lemma_codes_of_word_26(heap_table(19));
    lemma_charts_agree_through([(0, 2), (0, 1), (2, 3)], heap_table(19), [(1, 2), (0, 1), (2, 3)], heap_table(18), 2, (2, 4, 0, 6, 1, 7, 3, 5));
}

proof fn lemma_chart_1219()
    ensures
        chart_signature([(1, 2), (0, 1), (2, 3)], heap_table(19)) == chart_signature([(0, 2), (0, 1), (2, 3)], heap_table(18)),
{
    lemma_heap_entries();
    lemma_codes_of_word_50(heap_table(19));
    lemma_codes_of_word_26(heap_table(18));
    lemma_charts_agree_through([(0, 2), (0, 1), (2, 3)], heap_table(18), [(1, 2), (0, 1), (2, 3)], heap_table(19), 2, (2, 4, 0, 6, 1, 7, 3, 5));
}

proof fn lemma_chart_1220()
    ensures
        chart_signature([(1, 2), (0, 1), (2, 3)], heap_table(20)) == chart_signature([(0, 2), (0, 1), (2, 3)], heap_table(21)),
{
    lemma_heap_entries();
    lemma_codes_of_word_50(heap_table(20));
    lemma_codes_of_word_26(heap_table(21));
    lemma_charts_agree_through([(0, 2), (0, 1), (2, 3)], heap_table(21), [(1, 2), (0, 1), (2, 3)], heap_table(20), 2, (2, 4, 0, 6, 1, 7, 3, 5));
}

proof fn lemma_chart_1221()
    ensures
        chart_signature([(1, 2), (0, 1), (2, 3)], heap_table(21)) == chart_signature([(0, 2), (0, 1), (2, 3)], heap_table(19)),
{
    lemma_heap_entries();
    lemma_codes_of_word_50(heap_table(21));
    lemma_codes_of_word_26(heap_table(19));
    lemma_charts_agree_through([(0, 2), (0, 1), (2, 3)], heap_table(19), [(1, 2), (0, 1), (2, 3)], heap_table(21), 3, (4, 2, 1, 7, 0, 6, 5, 3));
}

proof fn lemma_chart_1222()
    ensures
        chart_signature([(1, 2), (0, 1), (2, 3)], heap_table(22)) == chart_signature([(0, 2), (0, 1), (2, 3)], heap_table(18)),
{
    lemma_heap_entries();
    lemma_codes_of_word_50(heap_table(22));
    lemma_codes_of_word_26(heap_table(18));
    lemma_charts_agree_through([(0, 2), (0, 1), (2, 3)], heap_table(18), [(1, 2), (0, 1), (2, 3)], heap_table(22), 3, (4, 2, 1, 7, 0, 6, 5, 3));
}

proof fn lemma_chart_1223()
    ensures
        chart_signature([(1, 2), (0, 1), (2, 3)], heap_table(23)) == chart_signature([(0, 2), (0, 1), (2, 3)], heap_table(21)),
{
    lemma_heap_entries();
    lemma_codes_of_word_50(heap_table(23));
    lemma_codes_of_word_26(heap_table(21));
    lemma_charts_agree_through([(0, 2), (0, 1), (2, 3)], heap_table(21), [(1, 2), (0, 1), (2, 3)], heap_table(23), 3, (4, 2, 1, 7, 0, 6, 5, 3));
}

/// Every chart of atlas word 50 shares its signature with the first chart
/// of a class below 216.
pub proof fn lemma_charts_of_word_50()
    ensures
        forall|t: int| 1200 <= t < 1224 ==> #[trigger] meets_class_below(t, 216),
{
    lemma_census_words();
    assert forall|t: int| 1200 <= t < 1224 implies #[trigger] meets_class_below(t, 216) by {
        if t == 1200 { lemma_chart_1200(); assert(atlas_signatures()[class_rep(151)] == atlas_signatures()[1200]); }
        else if t == 1201 { lemma_chart_1201(); assert(atlas_signatures()[class_rep(150)] == atlas_signatures()[1201]); }
        else if t == 1202 { lemma_chart_1202(); assert(atlas_signatures()[class_rep(152)] == atlas_signatures()[1202]); }
        else if t == 1203 { lemma_chart_1203(); assert(atlas_signatures()[class_rep(151)] == atlas_signatures()[1203]); }
        else if t == 1204 { lemma_chart_1204(); assert(atlas_signatures()[class_rep(150)] == atlas_signatures()[1204]); }
        else if t == 1205 { lemma_chart_1205(); assert(atlas_signatures()[class_rep(152)] == atlas_signatures()[1205]); }
        else if t == 1206 { lemma_chart_1206(); assert(atlas_signatures()[class_rep(154)] == atlas_signatures()[1206]); }
        else if t == 1207 { lemma_chart_1207(); assert(atlas_signatures()[class_rep(153)] == atlas_signatures()[1207]); }
        else if t == 1208 { lemma_chart_1208(); assert(atlas_signatures()[class_rep(155)] == atlas_signatures()[1208]); }
        else if t == 1209 { lemma_chart_1209(); assert(atlas_signatures()[class_rep(154)] == atlas_signatures()[1209]); }
        else if t == 1210 { lemma_chart_1210(); assert(atlas_signatures()[class_rep(153)] == atlas_signatures()[1210]); }
        else if t == 1211 { lemma_chart_1211(); assert(atlas_signatures()[class_rep(155)] == atlas_signatures()[1211]); }
        else if t == 1212 { lemma_chart_1212(); assert(atlas_signatures()[class_rep(157)] == atlas_signatures()[1212]); }
        else if t == 1213 { lemma_chart_1213(); assert(atlas_signatures()[class_rep(156)] == atlas_signatures()[1213]); }
        else if t == 1214 { lemma_chart_1214(); assert(atlas_signatures()[class_rep(158)] == atlas_signatures()[1214]); }
        else if t == 1215 { lemma_chart_1215(); assert(atlas_signatures()[class_rep(157)] == atlas_signatures()[1215]); }
        else if t == 1216 { lemma_chart_1216(); assert(atlas_signatures()[class_rep(156)] == atlas_signatures()[1216]); }
        else if t == 1217 { lemma_chart_1217(); assert(atlas_signatures()[class_rep(158)] == atlas_signatures()[1217]); }
        else if t == 1218 { lemma_chart_1218(); assert(atlas_signatures()[class_rep(160)] == atlas_signatures()[1218]); }
        else if t == 1219 { lemma_chart_1219(); assert(atlas_signatures()[class_rep(159)] == atlas_signatures()[1219]); }
        else if t == 1220 { lemma_chart_1220(); assert(atlas_signatures()[class_rep(161)] == atlas_signatures()[1220]); }
        else if t == 1221 { lemma_chart_1221(); assert(atlas_signatures()[class_rep(160)] == atlas_signatures()[1221]); }
        else if t == 1222 { lemma_chart_1222(); assert(atlas_signatures()[class_rep(159)] == atlas_signatures()[1222]); }
        else { lemma_chart_1223(); assert(atlas_signatures()[class_rep(161)] == atlas_signatures()[1223]); }
    }
}

proof fn lemma_chart_1224()
    ensures
        chart_signature([(1, 2), (0, 2), (0, 3)], heap_table(0)) == chart_signature([(0, 1), (0, 2), (0, 3)], heap_table(4)),
{
    lemma_heap_entries();
    lemma_codes_of_word_51(heap_table(0));
    lemma_codes_of_word_1(heap_table(4));
    lemma_charts_agree_through([(0, 1), (0, 2), (0, 3)], heap_table(4), [(1, 2), (0, 2), (0, 3)], heap_table(0), 3, (4, 2, 1, 7, 0, 6, 5, 3));
}

proof fn lemma_chart_1225()
    ensures
        chart_signature([(1, 2), (0, 2), (0, 3)], heap_table(1)) == chart_signature([(0, 1), (0, 2), (0, 3)], heap_table(2)),
{
    lemma_heap_entries();
    lemma_codes_of_word_51(heap_table(1));
    lemma_codes_of_word_1(heap_table(2));
    lemma_charts_agree_through([(0, 1), (0, 2), (0, 3)], heap_table(2), [(1, 2), (0, 2), (0, 3)], heap_table(1), 2, (2, 4, 0, 6, 1, 7, 3, 5));
}

proof fn lemma_chart_1226()
    ensures
        chart_signature([(1, 2), (0, 2), (0, 3)], heap_table(2)) == chart_signature([(0, 1), (0, 2), (0, 3)], heap_table(0)),
{
    lemma_heap_entries();
    lemma_codes_of_word_51(heap_table(2));
    lemma_codes_of_word_1(heap_table(0));
    lemma_charts_agree_through([(0, 1), (0, 2), (0, 3)], heap_table(0), [(1, 2), (0, 2), (0, 3)], heap_table(2), 3, (4, 2, 1, 7, 0, 6, 5, 3));
}

proof fn lemma_chart_1227()
    ensures
        chart_signature([(1, 2), (0, 2), (0, 3)], heap_table(3)) == chart_signature([(0, 1), (0, 2), (0, 3)], heap_table(4)),
{
    lemma_heap_entries();
    lemma_codes_of_word_51(heap_table(3));
    lemma_codes_of_word_1(heap_table(4));
    lemma_charts_agree_through([(0, 1), (0, 2), (0, 3)], heap_table(4), [(1, 2), (0, 2), (0, 3)], heap_table(3), 2, (2, 4, 0, 6, 1, 7, 3, 5));
}

proof fn lemma_chart_1228()
    ensures
        chart_signature([(1, 2), (0, 2), (0, 3)], heap_table(4)) == chart_signature([(0, 1), (0, 2), (0, 3)], heap_table(2)),
{
    lemma_heap_entries();
    lemma_codes_of_word_51(heap_table(4));
    lemma_codes_of_word_1(heap_table(2));
    lemma_charts_agree_through([(0, 1), (0, 2), (0, 3)], heap_table(2), [(1, 2), (0, 2), (0, 3)], heap_table(4), 3, (4, 2, 1, 7, 0, 6, 5, 3));
}

proof fn lemma_chart_1229()
    ensures
        chart_signature([(1, 2), (0, 2), (0, 3)], heap_table(5)) == chart_signature([(0, 1), (0, 2), (0, 3)], heap_table(0)),
{
    lemma_heap_entries();
    lemma_codes_of_word_51(heap_table(5));
    lemma_codes_of_word_1(heap_table(0));
    lemma_charts_agree_through([(0, 1), (0, 2), (0, 3)], heap_table(0), [(1, 2), (0, 2), (0, 3)], heap_table(5), 2, (2, 4, 0, 6, 1, 7, 3, 5));
}

proof fn lemma_chart_1230()
    ensures
        chart_signature([(1, 2), (0, 2), (0, 3)], heap_table(6)) == chart_signature([(0, 1), (0, 2), (0, 3)], heap_table(10)),
{
    lemma_heap_entries();
    lemma_codes_of_word_51(heap_table(6));
    lemma_codes_of_word_1(heap_table(10));
    lemma_charts_agree_through([(0, 1), (0, 2), (0, 3)], heap_table(10), [(1, 2), (0, 2), (0, 3)], heap_table(6), 3, (4, 2, 1, 7, 0, 6, 5, 3));
}

proof fn lemma_chart_1231()
    ensures
        chart_signature([(1, 2), (0, 2), (0, 3)], heap_table(7)) == chart_signature([(0, 1), (0, 2), (0, 3)], heap_table(8)),
{
    lemma_heap_entries();
    lemma_codes_of_word_51(heap_table(7));
    lemma_codes_of_word_1(heap_table(8));
    lemma_charts_agree_through([(0, 1), (0, 2), (0, 3)], heap_table(8), [(1, 2), (0, 2), (0, 3)], heap_table(7), 2, (2, 4, 0, 6, 1, 7, 3, 5));
}

proof fn lemma_chart_1232()
    ensures
        chart_signature([(1, 2), (0, 2), (0, 3)], heap_table(8)) == chart_signature([(0, 1), (0, 2), (0, 3)], heap_table(6)),
{
    lemma_heap_entries();
    lemma_codes_of_word_51(heap_table(8));
    lemma_codes_of_word_1(heap_table(6));
    lemma_charts_agree_through([(0, 1), (0, 2), (0, 3)], heap_table(6), [(1, 2), (0, 2), (0, 3)], heap_table(8), 3, (4, 2, 1, 7, 0, 6, 5, 3));
}

proof fn lemma_chart_1233()
    ensures
        chart_signature([(1, 2), (0, 2), (0, 3)], heap_table(9)) == chart_signature([(0, 1), (0, 2), (0, 3)], heap_table(10)),
{
    lemma_heap_entries();
    lemma_codes_of_word_51(heap_table(9));
    lemma_codes_of_word_1(heap_table(10));
    lemma_charts_agree_through([(0, 1), (0, 2), (0, 3)], heap_table(10), [(1, 2), (0, 2), (0, 3)], heap_table(9), 2, (2, 4, 0, 6, 1, 7, 3, 5));
}

proof fn lemma_chart_1234()
    ensures
        chart_signature([(1, 2), (0, 2), (0, 3)], heap_table(10)) == chart_signature([(0, 1), (0, 2), (0, 3)], heap_table(8)),
{
    lemma_heap_entries();
    lemma_codes_of_word_51(heap_table(10));
    lemma_codes_of_word_1(heap_table(8));
    lemma_charts_agree_through([(0, 1), (0, 2), (0, 3)], heap_table(8), [(1, 2), (0, 2), (0, 3)], heap_table(10), 3, (4, 2, 1, 7, 0, 6, 5, 3));
}

proof fn lemma_chart_1235()
    ensures
        chart_signature([(1, 2), (0, 2), (0, 3)], heap_table(11)) == chart_signature([(0, 1), (0, 2), (0, 3)], heap_table(6)),
{
    lemma_heap_entries();
    lemma_codes_of_word_51(heap_table(11));
    lemma_codes_of_word_1(heap_table(6));
    lemma_charts_agree_through([(0, 1), (0, 2), (0, 3)], heap_table(6), [(1, 2), (0, 2), (0, 3)], heap_table(11), 2, (2, 4, 0, 6, 1, 7, 3, 5));
}

proof fn lemma_chart_1236()
    ensures
        chart_signature([(1, 2), (0, 2), (0, 3)], heap_table(12)) == chart_signature([(0, 1), (0, 2), (0, 3)], heap_table(16)),
{
    lemma_heap_entries();
    lemma_codes_of_word_51(heap_table(12));
    lemma_codes_of_word_1(heap_table(16));
    lemma_charts_agree_through([(0, 1), (0, 2), (0, 3)], heap_table(16), [(1, 2), (0, 2), (0, 3)], heap_table(12), 3, (4, 2, 1, 7, 0, 6, 5, 3));
}

proof fn lemma_chart_1237()
    ensures
        chart_signature([(1, 2), (0, 2), (0, 3)], heap_table(13)) == chart_signature([(0, 1), (0, 2), (0, 3)], heap_table(14)),
{
    lemma_heap_entries();
    lemma_codes_of_word_51(heap_table(13));
    lemma_codes_of_word_1(heap_table(14));
    lemma_charts_agree_through([(0, 1), (0, 2), (0, 3)], heap_table(14), [(1, 2), (0, 2), (0, 3)], heap_table(13), 2, (2, 4, 0, 6, 1, 7, 3, 5));
}

proof fn lemma_chart_1238()
    ensures
        chart_signature([(1, 2), (0, 2), (0, 3)], heap_table(14)) == chart_signature([(0, 1), (0, 2), (0, 3)], heap_table(12)),
{
    lemma_heap_entries();
    lemma_codes_of_word_51(heap_table(14));
    lemma_codes_of_word_1(heap_table(12));
    lemma_charts_agree_through([(0, 1), (0, 2), (0, 3)], heap_table(12), [(1, 2), (0, 2), (0, 3)], heap_table(14), 3, (4, 2, 1, 7, 0, 6, 5, 3));
}

proof fn lemma_chart_1239()
    ensures
        chart_signature([(1, 2), (0, 2), (0, 3)], heap_table(15)) == chart_signature([(0, 1), (0, 2), (0, 3)], heap_table(16)),
{
    lemma_heap_entries();
    lemma_codes_of_word_51(heap_table(15));
    lemma_codes_of_word_1(heap_table(16));
    lemma_charts_agree_through([(0, 1), (0, 2), (0, 3)], heap_table(16), [(1, 2), (0, 2), (0, 3)], heap_table(15), 2, (2, 4, 0, 6, 1, 7, 3, 5));
}

proof fn lemma_chart_1240()
    ensures
        chart_signature([(1, 2), (0, 2), (0, 3)], heap_table(16)) == chart_signature([(0, 1), (0, 2), (0, 3)], heap_table(14)),
{
    lemma_heap_entries();
    lemma_codes_of_word_51(heap_table(16));
    lemma_codes_of_word_1(heap_table(14));
    lemma_charts_agree_through([(0, 1), (0, 2), (0, 3)], heap_table(14), [(1, 2), (0, 2), (0, 3)], heap_table(16), 3, (4, 2, 1, 7, 0, 6, 5, 3));
}

proof fn lemma_chart_1241()
    ensures
        chart_signature([(1, 2), (0, 2), (0, 3)], heap_table(17)) == chart_signature([(0, 1), (0, 2), (0, 3)], heap_table(12)),
{
    lemma_heap_entries();
    lemma_codes_of_word_51(heap_table(17));
    lemma_codes_of_word_1(heap_table(12));
    lemma_charts_agree_through([(0, 1), (0, 2), (0, 3)], heap_table(12), [(1, 2), (0, 2), (0, 3)], heap_table(17), 2, (2, 4, 0, 6, 1, 7, 3, 5));
}

proof fn lemma_chart_1242()
    ensures
        chart_signature([(1, 2), (0, 2), (0, 3)], heap_table(18)) == chart_signature([(0, 1), (0, 2), (0, 3)], heap_table(22)),
{
    lemma_heap_entries();
    lemma_codes_of_word_51(heap_table(18));
    lemma_codes_of_word_1(heap_table(22));
    lemma_charts_agree_through([(0, 1), (0, 2), (0, 3)], heap_table(22), [(1, 2), (0, 2), (0, 3)], heap_table(18), 3, (4, 2, 1, 7, 0, 6, 5, 3));
}

proof fn lemma_chart_1243()
    ensures
        chart_signature([(1, 2), (0, 2), (0, 3)], heap_table(19)) == chart_signature([(0, 1), (0, 2), (0, 3)], heap_table(20)),
{
    lemma_heap_entries();
    lemma_codes_of_word_51(heap_table(19));
    lemma_codes_of_word_1(heap_table(20));
    lemma_charts_agree_through([(0, 1), (0, 2), (0, 3)], heap_table(20), [(1, 2), (0, 2), (0, 3)], heap_table(19), 2, (2, 4, 0, 6, 1, 7, 3, 5));
}

proof fn lemma_chart_1244()
    ensures
        chart_signature([(1, 2), (0, 2), (0, 3)], heap_table(20)) == chart_signature([(0, 1), (0, 2), (0, 3)], heap_table(18)),
{
    lemma_heap_entries();
    lemma_codes_of_word_51(heap_table(20));
    lemma_codes_of_word_1(heap_table(18));
    lemma_charts_agree_through([(0, 1), (0, 2), (0, 3)], heap_table(18), [(1, 2), (0, 2), (0, 3)], heap_table(20), 3, (4, 2, 1, 7, 0, 6, 5, 3));
}

proof fn lemma_chart_1245()
    ensures
        chart_signature([(1, 2), (0, 2), (0, 3)], heap_table(21)) == chart_signature([(0, 1), (0, 2), (0, 3)], heap_table(22)),
{
    lemma_heap_entries();
    lemma_codes_of_word_51(heap_table(21));
    lemma_codes_of_word_1(heap_table(22));
    lemma_charts_agree_through([(0, 1), (0, 2), (0, 3)], heap_table(22), [(1, 2), (0, 2), (0, 3)], heap_table(21), 2, (2, 4, 0, 6, 1, 7, 3, 5));
}

proof fn lemma_chart_1246()
    ensures
        chart_signature([(1, 2), (0, 2), (0, 3)], heap_table(22)) == chart_signature([(0, 1), (0, 2), (0, 3)], heap_table(20)),
{
    lemma_heap_entries();
    lemma_codes_of_word_51(heap_table(22));
    lemma_codes_of_word_1(heap_table(20));
    lemma_charts_agree_through([(0, 1), (0, 2), (0, 3)], heap_table(20), [(1, 2), (0, 2), (0, 3)], heap_table(22), 3, (4, 2, 1, 7, 0, 6, 5, 3));
}

proof fn lemma_chart_1247()
    ensures
        chart_signature([(1, 2), (0, 2), (0, 3)], heap_table(23)) == chart_signature([(0, 1), (0, 2), (0, 3)], heap_table(18)),
{
    lemma_heap_entries();
    lemma_codes_of_word_51(heap_table(23));
    lemma_codes_of_word_1(heap_table(18));
    lemma_charts_agree_through([(0, 1), (0, 2), (0, 3)], heap_table(18), [(1, 2), (0, 2), (0, 3)], heap_table(23), 2, (2, 4, 0, 6, 1, 7, 3, 5));
}

/// Every chart of atlas word 51 shares its signature with the first chart
/// of a class below 216.
pub proof fn lemma_charts_of_word_51()
    ensures
        forall|t: int| 1224 <= t < 1248 ==> #[trigger] meets_class_below(t, 216),
{
    lemma_census_words();
    assert forall|t: int| 1224 <= t < 1248 implies #[trigger] meets_class_below(t, 216) by {
        if t == 1224 { lemma_chart_1224(); assert(atlas_signatures()[class_rep(14)] == atlas_signatures()[1224]); }
        else if t == 1225 { lemma_chart_1225(); assert(atlas_signatures()[class_rep(13)] == atlas_signatures()[1225]); }
        else if t == 1226 { lemma_chart_1226(); assert(atlas_signatures()[class_rep(12)] == atlas_signatures()[1226]); }
        else if t == 1227 { lemma_chart_1227(); assert(atlas_signatures()[class_rep(14)] == atlas_signatures()[1227]); }
        else if t == 1228 { lemma_chart_1228(); assert(atlas_signatures()[class_rep(13)] == atlas_signatures()[1228]); }
        else if t == 1229 { lemma_chart_1229(); assert(atlas_signatures()[class_rep(12)] == atlas_signatures()[1229]); }
        else if t == 1230 { lemma_chart_1230(); assert(atlas_signatures()[class_rep(17)] == atlas_signatures()[1230]); }
        else if t == 1231 { lemma_chart_1231(); assert(atlas_signatures()[class_rep(16)] == atlas_signatures()[1231]); }
        else if t == 1232 { lemma_chart_1232(); assert(atlas_signatures()[class_rep(15)] == atlas_signatures()[1232]); }
        else if t == 1233 { lemma_chart_1233(); assert(atlas_signatures()[class_rep(17)] == atlas_signatures()[1233]); }
        else if t == 1234 { lemma_chart_1234(); assert(atlas_signatures()[class_rep(16)] == atlas_signatures()[1234]); }
        else if t == 1235 { lemma_chart_1235(); assert(atlas_signatures()[class_rep(15)] == atlas_signatures()[1235]); }
        else if t == 1236 { lemma_chart_1236(); assert(atlas_signatures()[class_rep(20)] == atlas_signatures()[1236]); }
        else if t == 1237 { lemma_chart_1237(); assert(atlas_signatures()[class_rep(19)] == atlas_signatures()[1237]); }
        else if t == 1238 { lemma_chart_1238(); assert(atlas_signatures()[class_rep(18)] == atlas_signatures()[1238]); }
        else if t == 1239 { lemma_chart_1239(); assert(atlas_signatures()[class_rep(20)] == atlas_signatures()[1239]); }
        else if t == 1240 { lemma_chart_1240(); assert(atlas_signatures()[class_rep(19)] == atlas_signatures()[1240]); }
        else if t == 1241 { lemma_chart_1241(); assert(atlas_signatures()[class_rep(18)] == atlas_signatures()[1241]); }
        else if t == 1242 { lemma_chart_1242(); assert(atlas_signatures()[class_rep(23)] == atlas_signatures()[1242]); }
        else if t == 1243 { lemma_chart_1243(); assert(atlas_signatures()[class_rep(22)] == atlas_signatures()[1243]); }
        else if t == 1244 { lemma_chart_1244(); assert(atlas_signatures()[class_rep(21)] == atlas_signatures()[1244]); }
        else if t == 1245 { lemma_chart_1245(); assert(atlas_signatures()[class_rep(23)] == atlas_signatures()[1245]); }
        else if t == 1246 { lemma_chart_1246(); assert(atlas_signatures()[class_rep(22)] == atlas_signatures()[1246]); }
        else { lemma_chart_1247(); assert(atlas_signatures()[class_rep(21)] == atlas_signatures()[1247]); }
    }
}

proof fn lemma_chart_1248()
    ensures
        chart_signature([(1, 2), (0, 2), (1, 3)], heap_table(0)) == chart_signature([(0, 1), (0, 2), (1, 3)], heap_table(4)),
{
    lemma_heap_entries();
    lemma_codes_of_word_52(heap_table(0));
    lemma_codes_of_word_7(heap_table(4));
    lemma_charts_agree_through([(0, 1), (0, 2), (1, 3)], heap_table(4), [(1, 2), (0, 2), (1, 3)], heap_table(0), 3, (4, 2, 1, 7, 0, 6, 5, 3));
}

proof fn lemma_chart_1249()
    ensures
        chart_signature([(1, 2), (0, 2), (1, 3)], heap_table(1)) == chart_signature([(0, 1), (0, 2), (1, 3)], heap_table(2)),
{
    lemma_heap_entries();
    lemma_codes_of_word_52(heap_table(1));
    lemma_codes_of_word_7(heap_table(2));
    lemma_charts_agree_through([(0, 1), (0, 2), (1, 3)], heap_table(2), [(1, 2), (0, 2), (1, 3)], heap_table(1), 2, (2, 4, 0, 6, 1, 7, 3, 5));
}

proof fn lemma_chart_1250()
    ensures
        chart_signature([(1, 2), (0, 2), (1, 3)], heap_table(2)) == chart_signature([(0, 1), (0, 2), (1, 3)], heap_table(0)),
{
    lemma_heap_entries();
    lemma_codes_of_word_52(heap_table(2));
    lemma_codes_of_word_7(heap_table(0));
    lemma_charts_agree_through([(0, 1), (0, 2), (1, 3)], heap_table(0), [(1, 2), (0, 2), (1, 3)], heap_table(2), 3, (4, 2, 1, 7, 0, 6, 5, 3));
}

proof fn lemma_chart_1251()
    ensures
        chart_signature([(1, 2), (0, 2), (1, 3)], heap_table(3)) == chart_signature([(0, 1), (0, 2), (1, 3)], heap_table(4)),
{
    lemma_heap_entries();
    lemma_codes_of_word_52(heap_table(3));
    lemma_codes_of_word_7(heap_table(4));
    lemma_charts_agree_through([(0, 1), (0, 2), (1, 3)], heap_table(4), [(1, 2), (0, 2), (1, 3)], heap_table(3), 2, (2, 4, 0, 6, 1, 7, 3, 5));
}

proof fn lemma_chart_1252()
    ensures
        chart_signature([(1, 2), (0, 2), (1, 3)], heap_table(4)) == chart_signature([(0, 1), (0, 2), (1, 3)], heap_table(2)),
{
    lemma_heap_entries();
    lemma_codes_of_word_52(heap_table(4));
    lemma_codes_of_word_7(heap_table(2));
    lemma_charts_agree_through([(0, 1), (0, 2), (1, 3)], heap_table(2), [(1, 2), (0, 2), (1, 3)], heap_table(4), 3, (4, 2, 1, 7, 0, 6, 5, 3));
}

proof fn lemma_chart_1253()
    ensures
        chart_signature([(1, 2), (0, 2), (1, 3)], heap_table(5)) == chart_signature([(0, 1), (0, 2), (1, 3)], heap_table(0)),
{
    lemma_heap_entries();
    lemma_codes_of_word_52(heap_table(5));
    lemma_codes_of_word_7(heap_table(0));
    lemma_charts_agree_through([(0, 1), (0, 2), (1, 3)], heap_table(0), [(1, 2), (0, 2), (1, 3)], heap_table(5), 2, (2, 4, 0, 6, 1, 7, 3, 5));
}

proof fn lemma_chart_1254()
    ensures
        chart_signature([(1, 2), (0, 2), (1, 3)], heap_table(6)) == chart_signature([(0, 1), (0, 2), (1, 3)], heap_table(10)),
{
    lemma_heap_entries();
    lemma_codes_of_word_52(heap_table(6));
    lemma_codes_of_word_7(heap_table(10));
    lemma_charts_agree_through([(0, 1), (0, 2), (1, 3)], heap_table(10), [(1, 2), (0, 2), (1, 3)], heap_table(6), 3, (4, 2, 1, 7, 0, 6, 5, 3));
}

proof fn lemma_chart_1255()
    ensures
        chart_signature([(1, 2), (0, 2), (1, 3)], heap_table(7)) == chart_signature([(0, 1), (0, 2), (1, 3)], heap_table(8)),
{
    lemma_heap_entries();
    lemma_codes_of_word_52(heap_table(7));
    lemma_codes_of_word_7(heap_table(8));
    lemma_charts_agree_through([(0, 1), (0, 2), (1, 3)], heap_table(8), [(1, 2), (0, 2), (1, 3)], heap_table(7), 2, (2, 4, 0, 6, 1, 7, 3, 5));
}

proof fn lemma_chart_1256()
    ensures
        chart_signature([(1, 2), (0, 2), (1, 3)], heap_table(8)) == chart_signature([(0, 1), (0, 2), (1, 3)], heap_table(6)),
{
    lemma_heap_entries();
    lemma_codes_of_word_52(heap_table(8));
    lemma_codes_of_word_7(heap_table(6));
    lemma_charts_agree_through([(0, 1), (0, 2), (1, 3)], heap_table(6), [(1, 2), (0, 2), (1, 3)], heap_table(8), 3, (4, 2, 1, 7, 0, 6, 5, 3));
}

proof fn lemma_chart_1257()
    ensures
        chart_signature([(1, 2), (0, 2), (1, 3)], heap_table(9)) == chart_signature([(0, 1), (0, 2), (1, 3)], heap_table(10)),
{
    lemma_heap_entries();
    lemma_codes_of_word_52(heap_table(9));
    lemma_codes_of_word_7(heap_table(10));
    lemma_charts_agree_through([(0, 1), (0, 2), (1, 3)], heap_table(10), [(1, 2), (0, 2), (1, 3)], heap_table(9), 2, (2, 4, 0, 6, 1, 7, 3, 5));
}

proof fn lemma_chart_1258()
    ensures
        chart_signature([(1, 2), (0, 2), (1, 3)], heap_table(10)) == chart_signature([(0, 1), (0, 2), (1, 3)], heap_table(8)),
{
    lemma_heap_entries();
    lemma_codes_of_word_52(heap_table(10));
    lemma_codes_of_word_7(heap_table(8));
    lemma_charts_agree_through([(0, 1), (0, 2), (1, 3)], heap_table(8), [(1, 2), (0, 2), (1, 3)], heap_table(10), 3, (4, 2, 1, 7, 0, 6, 5, 3));
}

proof fn lemma_chart_1259()
    ensures
        chart_signature([(1, 2), (0, 2), (1, 3)], heap_table(11)) == chart_signature([(0, 1), (0, 2), (1, 3)], heap_table(6)),
{
    lemma_heap_entries();
    lemma_codes_of_word_52(heap_table(11));
    lemma_codes_of_word_7(heap_table(6));
    lemma_charts_agree_through([(0, 1), (0, 2), (1, 3)], heap_table(6), [(1, 2), (0, 2), (1, 3)], heap_table(11), 2, (2, 4, 0, 6, 1, 7, 3, 5));
}

proof fn lemma_chart_1260()
    ensures
        chart_signature([(1, 2), (0, 2), (1, 3)], heap_table(12)) == chart_signature([(0, 1), (0, 2), (1, 3)], heap_table(16)),
{
    lemma_heap_entries();
    lemma_codes_of_word_52(heap_table(12));
    lemma_codes_of_word_7(heap_table(16));
    lemma_charts_agree_through([(0, 1), (0, 2), (1, 3)], heap_table(16), [(1, 2), (0, 2), (1, 3)], heap_table(12), 3, (4, 2, 1, 7, 0, 6, 5, 3));
}

proof fn lemma_chart_1261()
    ensures
        chart_signature([(1, 2), (0, 2), (1, 3)], heap_table(13)) == chart_signature([(0, 1), (0, 2), (1, 3)], heap_table(14)),
{
    lemma_heap_entries();
    lemma_codes_of_word_52(heap_table(13));
    lemma_codes_of_word_7(heap_table(14));
    lemma_charts_agree_through([(0, 1), (0, 2), (1, 3)], heap_table(14), [(1, 2), (0, 2), (1, 3)], heap_table(13), 2, (2, 4, 0, 6, 1, 7, 3, 5));
}

proof fn lemma_chart_1262()
    ensures
        chart_signature([(1, 2), (0, 2), (1, 3)], heap_table(14)) == chart_signature([(0, 1), (0, 2), (1, 3)], heap_table(12)),
{
    lemma_heap_entries();
    lemma_codes_of_word_52(heap_table(14));
    lemma_codes_of_word_7(heap_table(12));
    lemma_charts_agree_through([(0, 1), (0, 2), (1, 3)], heap_table(12), [(1, 2), (0, 2), (1, 3)], heap_table(14), 3, (4, 2, 1, 7, 0, 6, 5, 3));
}

proof fn lemma_chart_1263()
    ensures
        chart_signature([(1, 2), (0, 2), (1, 3)], heap_table(15)) == chart_signature([(0, 1), (0, 2), (1, 3)], heap_table(16)),
{
    lemma_heap_entries();
    lemma_codes_of_word_52(heap_table(15));
    lemma_codes_of_word_7(heap_table(16));
    lemma_charts_agree_through([(0, 1), (0, 2), (1, 3)], heap_table(16), [(1, 2), (0, 2), (1, 3)], heap_table(15), 2, (2, 4, 0, 6, 1, 7, 3, 5));
}

proof fn lemma_chart_1264()
    ensures
        chart_signature([(1, 2), (0, 2), (1, 3)], heap_table(16)) == chart_signature([(0, 1), (0, 2), (1, 3)], heap_table(14)),
{
    lemma_heap_entries();
    lemma_codes_of_word_52(heap_table(16));
    lemma_codes_of_word_7(heap_table(14));
    lemma_charts_agree_through([(0, 1), (0, 2), (1, 3)], heap_table(14), [(1, 2), (0, 2), (1, 3)], heap_table(16), 3, (4, 2, 1, 7, 0, 6, 5, 3));
}

proof fn lemma_chart_1265()
    ensures
        chart_signature([(1, 2), (0, 2), (1, 3)], heap_table(17)) == chart_signature([(0, 1), (0, 2), (1, 3)], heap_table(12)),
{
    lemma_heap_entries();
    lemma_codes_of_word_52(heap_table(17));
    lemma_codes_of_word_7(heap_table(12));
    lemma_charts_agree_through([(0, 1), (0, 2), (1, 3)], heap_table(12), [(1, 2), (0, 2), (1, 3)], heap_table(17), 2, (2, 4, 0, 6, 1, 7, 3, 5));
}

proof fn lemma_chart_1266()
    ensures
        chart_signature([(1, 2), (0, 2), (1, 3)], heap_table(18)) == chart_signature([(0, 1), (0, 2), (1, 3)], heap_table(22)),
{
    lemma_heap_entries();
    lemma_codes_of_word_52(heap_table(18));
    lemma_codes_of_word_7(heap_table(22));
    lemma_charts_agree_through([(0, 1), (0, 2), (1, 3)], heap_table(22), [(1, 2), (0, 2), (1, 3)], heap_table(18), 3, (4, 2, 1, 7, 0, 6, 5, 3));
}

proof fn lemma_chart_1267()
    ensures
        chart_signature([(1, 2), (0, 2), (1, 3)], heap_table(19)) == chart_signature([(0, 1), (0, 2), (1, 3)], heap_table(20)),
{
    lemma_heap_entries();
    lemma_codes_of_word_52(heap_table(19));
    lemma_codes_of_word_7(heap_table(20));
    lemma_charts_agree_through([(0, 1), (0, 2), (1, 3)], heap_table(20), [(1, 2), (0, 2), (1, 3)], heap_table(19), 2, (2, 4, 0, 6, 1, 7, 3, 5));
}

proof fn lemma_chart_1268()
    ensures
        chart_signature([(1, 2), (0, 2), (1, 3)], heap_table(20)) == chart_signature([(0, 1), (0, 2), (1, 3)], heap_table(18)),
{
    lemma_heap_entries();
    lemma_codes_of_word_52(heap_table(20));
    lemma_codes_of_word_7(heap_table(18));
    lemma_charts_agree_through([(0, 1), (0, 2), (1, 3)], heap_table(18), [(1, 2), (0, 2), (1, 3)], heap_table(20), 3, (4, 2, 1, 7, 0, 6, 5, 3));
}

proof fn lemma_chart_1269()
    ensures
        chart_signature([(1, 2), (0, 2), (1, 3)], heap_table(21)) == chart_signature([(0, 1), (0, 2), (1, 3)], heap_table(22)),
{
    lemma_heap_entries();
    lemma_codes_of_word_52(heap_table(21));
    lemma_codes_of_word_7(heap_table(22));
    lemma_charts_agree_through([(0, 1), (0, 2), (1, 3)], heap_table(22), [(1, 2), (0, 2), (1, 3)], heap_table(21), 2, (2, 4, 0, 6, 1, 7, 3, 5));
}

proof fn lemma_chart_1270()
    ensures
        chart_signature([(1, 2), (0, 2), (1, 3)], heap_table(22)) == chart_signature([(0, 1), (0, 2), (1, 3)], heap_table(20)),
{
    lemma_heap_entries();
    lemma_codes_of_word_52(heap_table(22));
    lemma_codes_of_word_7(heap_table(20));
    lemma_charts_agree_through([(0, 1), (0, 2), (1, 3)], heap_table(20), [(1, 2), (0, 2), (1, 3)], heap_table(22), 3, (4, 2, 1, 7, 0, 6, 5, 3));
}

proof fn lemma_chart_1271()
    ensures
        chart_signature([(1, 2), (0, 2), (1, 3)], heap_table(23)) == chart_signature([(0, 1), (0, 2), (1, 3)], heap_table(18)),
{
    lemma_heap_entries();
    lemma_codes_of_word_52(heap_table(23));
    lemma_codes_of_word_7(heap_table(18));
    lemma_charts_agree_through([(0, 1), (0, 2), (1, 3)], heap_table(18), [(1, 2), (0, 2), (1, 3)], heap_table(23), 2, (2, 4, 0, 6, 1, 7, 3, 5));
}

/// Every chart of atlas word 52 shares its signature with the first chart
/// of a class below 216.
pub proof fn lemma_charts_of_word_52()
    ensures
        forall|t: int| 1248 <= t < 1272 ==> #[trigger] meets_class_below(t, 216),
{
    lemma_census_words();
    assert forall|t: int| 1248 <= t < 1272 implies #[trigger] meets_class_below(t, 216) by {
        if t == 1248 { lemma_chart_1248(); assert(atlas_signatures()[class_rep(74)] == atlas_signatures()[1248]); }
        else if t == 1249 { lemma_chart_1249(); assert(atlas_signatures()[class_rep(73)] == atlas_signatures()[1249]); }
        else if t == 1250 { lemma_chart_1250(); assert(atlas_signatures()[class_rep(72)] == atlas_signatures()[1250]); }
        else if t == 1251 { lemma_chart_1251(); assert(atlas_signatures()[class_rep(74)] == atlas_signatures()[1251]); }
        else if t == 1252 { lemma_chart_1252(); assert(atlas_signatures()[class_rep(73)] == atlas_signatures()[1252]); }
        else if t == 1253 { lemma_chart_1253(); assert(atlas_signatures()[class_rep(72)] == atlas_signatures()[1253]); }
        else if t == 1254 { lemma_chart_1254(); assert(atlas_signatures()[class_rep(77)] == atlas_signatures()[1254]); }
        else if t == 1255 { lemma_chart_1255(); assert(atlas_signatures()[class_rep(76)] == atlas_signatures()[1255]); }
        else if t == 1256 { lemma_chart_1256(); assert(atlas_signatures()[class_rep(75)] == atlas_signatures()[1256]); }
        else if t == 1257 { lemma_chart_1257(); assert(atlas_signatures()[class_rep(77)] == atlas_signatures()[1257]); }
        else if t == 1258 { lemma_chart_1258(); assert(atlas_signatures()[class_rep(76)] == atlas_signatures()[1258]); }
        else if t == 1259 { lemma_chart_1259(); assert(atlas_signatures()[class_rep(75)] == atlas_signatures()[1259]); }
        else if t == 1260 { lemma_chart_1260(); assert(atlas_signatures()[class_rep(80)] == atlas_signatures()[1260]); }
        else if t == 1261 { lemma_chart_1261(); assert(atlas_signatures()[class_rep(79)] == atlas_signatures()[1261]); }
        else if t == 1262 { lemma_chart_1262(); assert(atlas_signatures()[class_rep(78)] == atlas_signatures()[1262]); }
        else if t == 1263 { lemma_chart_1263(); assert(atlas_signatures()[class_rep(80)] == atlas_signatures()[1263]); }
        else if t == 1264 { lemma_chart_1264(); assert(atlas_signatures()[class_rep(79)] == atlas_signatures()[1264]); }
        else if t == 1265 { lemma_chart_1265(); assert(atlas_signatures()[class_rep(78)] == atlas_signatures()[1265]); }
        else if t == 1266 { lemma_chart_1266(); assert(atlas_signatures()[class_rep(83)] == atlas_signatures()[1266]); }
        else if t == 1267 { lemma_chart_1267(); assert(atlas_signatures()[class_rep(82)] == atlas_signatures()[1267]); }
        else if t == 1268 { lemma_chart_1268(); assert(atlas_signatures()[class_rep(81)] == atlas_signatures()[1268]); }
        else if t == 1269 { lemma_chart_1269(); assert(atlas_signatures()[class_rep(83)] == atlas_signatures()[1269]); }
        else if t == 1270 { lemma_chart_1270(); assert(atlas_signatures()[class_rep(82)] == atlas_signatures()[1270]); }
        else { lemma_chart_1271(); assert(atlas_signatures()[class_rep(81)] == atlas_signatures()[1271]); }
    }
}

proof fn lemma_chart_1272()
    ensures
        chart_signature([(1, 2), (0, 2), (2, 3)], heap_table(0)) == chart_signature([(0, 1), (0, 2), (2, 3)], heap_table(4)),
{
    lemma_heap_entries();
    lemma_codes_of_word_53(heap_table(0));
    lemma_codes_of_word_8(heap_table(4));
    lemma_charts_agree_through([(0, 1), (0, 2), (2, 3)], heap_table(4), [(1, 2), (0, 2), (2, 3)], heap_table(0), 3, (4, 2, 1, 7, 0, 6, 5, 3));
}

proof fn lemma_chart_1273()
    ensures
        chart_signature([(1, 2), (0, 2), (2, 3)], heap_table(1)) == chart_signature([(0, 1), (0, 2), (2, 3)], heap_table(2)),
{
    lemma_heap_entries();
    lemma_codes_of_word_53(heap_table(1));
    lemma_codes_of_word_8(heap_table(2));
    lemma_charts_agree_through([(0, 1), (0, 2), (2, 3)], heap_table(2), [(1, 2), (0, 2), (2, 3)], heap_table(1), 2, (2, 4, 0, 6, 1, 7, 3, 5));
}

proof fn lemma_chart_1274()
    ensures
        chart_signature([(1, 2), (0, 2), (2, 3)], heap_table(2)) == chart_signature([(0, 1), (0, 2), (2, 3)], heap_table(0)),
{
    lemma_heap_entries();
    lemma_codes_of_word_53(heap_table(2));
    lemma_codes_of_word_8(heap_table(0));
    lemma_charts_agree_through([(0, 1), (0, 2), (2, 3)], heap_table(0), [(1, 2), (0, 2), (2, 3)], heap_table(2), 3, (4, 2, 1, 7, 0, 6, 5, 3));
}

proof fn lemma_chart_1275()
    ensures
        chart_signature([(1, 2), (0, 2), (2, 3)], heap_table(3)) == chart_signature([(0, 1), (0, 2), (2, 3)], heap_table(4)),
{
    lemma_heap_entries();
    lemma_codes_of_word_53(heap_table(3));
    lemma_codes_of_word_8(heap_table(4));
    lemma_charts_agree_through([(0, 1), (0, 2), (2, 3)], heap_table(4), [(1, 2), (0, 2), (2, 3)], heap_table(3), 2, (2, 4, 0, 6, 1, 7, 3, 5));
}

proof fn lemma_chart_1276()
    ensures
        chart_signature([(1, 2), (0, 2), (2, 3)], heap_table(4)) == chart_signature([(0, 1), (0, 2), (2, 3)], heap_table(2)),
{
    lemma_heap_entries();
    lemma_codes_of_word_53(heap_table(4));
    lemma_codes_of_word_8(heap_table(2));
    lemma_charts_agree_through([(0, 1), (0, 2), (2, 3)], heap_table(2), [(1, 2), (0, 2), (2, 3)], heap_table(4), 3, (4, 2, 1, 7, 0, 6, 5, 3));
}

proof fn lemma_chart_1277()
    ensures
        chart_signature([(1, 2), (0, 2), (2, 3)], heap_table(5)) == chart_signature([(0, 1), (0, 2), (2, 3)], heap_table(0)),
{
    lemma_heap_entries();
    lemma_codes_of_word_53(heap_table(5));
    lemma_codes_of_word_8(heap_table(0));
    lemma_charts_agree_through([(0, 1), (0, 2), (2, 3)], heap_table(0), [(1, 2), (0, 2), (2, 3)], heap_table(5), 2, (2, 4, 0, 6, 1, 7, 3, 5));
}

proof fn lemma_chart_1278()
    ensures
        chart_signature([(1, 2), (0, 2), (2, 3)], heap_table(6)) == chart_signature([(0, 1), (0, 2), (2, 3)], heap_table(10)),
{
    lemma_heap_entries();
    lemma_codes_of_word_53(heap_table(6));
    lemma_codes_of_word_8(heap_table(10));
    lemma_charts_agree_through([(0, 1), (0, 2), (2, 3)], heap_table(10), [(1, 2), (0, 2), (2, 3)], heap_table(6), 3, (4, 2, 1, 7, 0, 6, 5, 3));
}

proof fn lemma_chart_1279()
    ensures
        chart_signature([(1, 2), (0, 2), (2, 3)], heap_table(7)) == chart_signature([(0, 1), (0, 2), (2, 3)], heap_table(8)),
{
    lemma_heap_entries();
    lemma_codes_of_word_53(heap_table(7));
    lemma_codes_of_word_8(heap_table(8));
    lemma_charts_agree_through([(0, 1), (0, 2), (2, 3)], heap_table(8), [(1, 2), (0, 2), (2, 3)], heap_table(7), 2, (2, 4, 0, 6, 1, 7, 3, 5));
}

proof fn lemma_chart_1280()
    ensures
        chart_signature([(1, 2), (0, 2), (2, 3)], heap_table(8)) == chart_signature([(0, 1), (0, 2), (2, 3)], heap_table(6)),
{
    lemma_heap_entries();
    lemma_codes_of_word_53(heap_table(8));
    lemma_codes_of_word_8(heap_table(6));
    lemma_charts_agree_through([(0, 1), (0, 2), (2, 3)], heap_table(6), [(1, 2), (0, 2), (2, 3)], heap_table(8), 3, (4, 2, 1, 7, 0, 6, 5, 3));
}

proof fn lemma_chart_1281()
    ensures
        chart_signature([(1, 2), (0, 2), (2, 3)], heap_table(9)) == chart_signature([(0, 1), (0, 2), (2, 3)], heap_table(10)),
{
    lemma_heap_entries();
    lemma_codes_of_word_53(heap_table(9));
    lemma_codes_of_word_8(heap_table(10));
    lemma_charts_agree_through([(0, 1), (0, 2), (2, 3)], heap_table(10), [(1, 2), (0, 2), (2, 3)], heap_table(9), 2, (2, 4, 0, 6, 1, 7, 3, 5));
}

proof fn lemma_chart_1282()
    ensures
        chart_signature([(1, 2), (0, 2), (2, 3)], heap_table(10)) == chart_signature([(0, 1), (0, 2), (2, 3)], heap_table(8)),
{
    lemma_heap_entries();
    lemma_codes_of_word_53(heap_table(10));
    lemma_codes_of_word_8(heap_table(8));
    lemma_charts_agree_through([(0, 1), (0, 2), (2, 3)], heap_table(8), [(1, 2), (0, 2), (2, 3)], heap_table(10), 3, (4, 2, 1, 7, 0, 6, 5, 3));
}

proof fn lemma_chart_1283()
    ensures
        chart_signature([(1, 2), (0, 2), (2, 3)], heap_table(11)) == chart_signature([(0, 1), (0, 2), (2, 3)], heap_table(6)),
{
    lemma_heap_entries();
    lemma_codes_of_word_53(heap_table(11));
    lemma_codes_of_word_8(heap_table(6));
    lemma_charts_agree_through([(0, 1), (0, 2), (2, 3)], heap_table(6), [(1, 2), (0, 2), (2, 3)], heap_table(11), 2, (2, 4, 0, 6, 1, 7, 3, 5));
}

proof fn lemma_chart_1284()
    ensures
        chart_signature([(1, 2), (0, 2), (2, 3)], heap_table(12)) == chart_signature([(0, 1), (0, 2), (2, 3)], heap_table(16)),
{
    lemma_heap_entries();
    lemma_codes_of_word_53(heap_table(12));
    lemma_codes_of_word_8(heap_table(16));
    lemma_charts_agree_through([(0, 1), (0, 2), (2, 3)], heap_table(16), [(1, 2), (0, 2), (2, 3)], heap_table(12), 3, (4, 2, 1, 7, 0, 6, 5, 3));
}

proof fn lemma_chart_1285()
    ensures
        chart_signature([(1, 2), (0, 2), (2, 3)], heap_table(13)) == chart_signature([(0, 1), (0, 2), (2, 3)], heap_table(14)),
{
    lemma_heap_entries();
    lemma_codes_of_word_53(heap_table(13));
    lemma_codes_of_word_8(heap_table(14));
    lemma_charts_agree_through([(0, 1), (0, 2), (2, 3)], heap_table(14), [(1, 2), (0, 2), (2, 3)], heap_table(13), 2, (2, 4, 0, 6, 1, 7, 3, 5));
}

proof fn lemma_chart_1286()
    ensures
        chart_signature([(1, 2), (0, 2), (2, 3)], heap_table(14)) == chart_signature([(0, 1), (0, 2), (2, 3)], heap_table(12)),
{
    lemma_heap_entries();
    lemma_codes_of_word_53(heap_table(14));
    lemma_codes_of_word_8(heap_table(12));
    lemma_charts_agree_through([(0, 1), (0, 2), (2, 3)], heap_table(12), [(1, 2), (0, 2), (2, 3)], heap_table(14), 3, (4, 2, 1, 7, 0, 6, 5, 3));
}

proof fn lemma_chart_1287()
    ensures
        chart_signature([(1, 2), (0, 2), (2, 3)], heap_table(15)) == chart_signature([(0, 1), (0, 2), (2, 3)], heap_table(16)),
{
    lemma_heap_entries();
    lemma_codes_of_word_53(heap_table(15));
    lemma_codes_of_word_8(heap_table(16));
    lemma_charts_agree_through([(0, 1), (0, 2), (2, 3)], heap_table(16), [(1, 2), (0, 2), (2, 3)], heap_table(15), 2, (2, 4, 0, 6, 1, 7, 3, 5));
}

proof fn lemma_chart_1288()
    ensures
        chart_signature([(1, 2), (0, 2), (2, 3)], heap_table(16)) == chart_signature([(0, 1), (0, 2), (2, 3)], heap_table(14)),
{
    lemma_heap_entries();
    lemma_codes_of_word_53(heap_table(16));
    lemma_codes_of_word_8(heap_table(14));
    lemma_charts_agree_through([(0, 1), (0, 2), (2, 3)], heap_table(14), [(1, 2), (0, 2), (2, 3)], heap_table(16), 3, (4, 2, 1, 7, 0, 6, 5, 3));
}

proof fn lemma_chart_1289()
    ensures
        chart_signature([(1, 2), (0, 2), (2, 3)], heap_table(17)) == chart_signature([(0, 1), (0, 2), (2, 3)], heap_table(12)),
{
    lemma_heap_entries();
    lemma_codes_of_word_53(heap_table(17));
    lemma_codes_of_word_8(heap_table(12));
    lemma_charts_agree_through([(0, 1), (0, 2), (2, 3)], heap_table(12), [(1, 2), (0, 2), (2, 3)], heap_table(17), 2, (2, 4, 0, 6, 1, 7, 3, 5));
}

proof fn lemma_chart_1290()
    ensures
        chart_signature([(1, 2), (0, 2), (2, 3)], heap_table(18)) == chart_signature([(0, 1), (0, 2), (2, 3)], heap_table(22)),
{
    lemma_heap_entries();
    lemma_codes_of_word_53(heap_table(18));
    lemma_codes_of_word_8(heap_table(22));
    lemma_charts_agree_through([(0, 1), (0, 2), (2, 3)], heap_table(22), [(1, 2), (0, 2), (2, 3)], heap_table(18), 3, (4, 2, 1, 7, 0, 6, 5, 3));
}

proof fn lemma_chart_1291()
    ensures
        chart_signature([(1, 2), (0, 2), (2, 3)], heap_table(19)) == chart_signature([(0, 1), (0, 2), (2, 3)], heap_table(20)),
{
    lemma_heap_entries();
    lemma_codes_of_word_53(heap_table(19));
    lemma_codes_of_word_8(heap_table(20));
    lemma_charts_agree_through([(0, 1), (0, 2), (2, 3)], heap_table(20), [(1, 2), (0, 2), (2, 3)], heap_table(19), 2, (2, 4, 0, 6, 1, 7, 3, 5));
}

proof fn lemma_chart_1292()
    ensures
        chart_signature([(1, 2), (0, 2), (2, 3)], heap_table(20)) == chart_signature([(0, 1), (0, 2), (2, 3)], heap_table(18)),
{
    lemma_heap_entries();
    lemma_codes_of_word_53(heap_table(20));
    lemma_codes_of_word_8(heap_table(18));
    lemma_charts_agree_through([(0, 1), (0, 2), (2, 3)], heap_table(18), [(1, 2), (0, 2), (2, 3)], heap_table(20), 3, (4, 2, 1, 7, 0, 6, 5, 3));
}

proof fn lemma_chart_1293()
    ensures
        chart_signature([(1, 2), (0, 2), (2, 3)], heap_table(21)) == chart_signature([(0, 1), (0, 2), (2, 3)], heap_table(22)),
{
    lemma_heap_entries();
    lemma_codes_of_word_53(heap_table(21));
    lemma_codes_of_word_8(heap_table(22));
    lemma_charts_agree_through([(0, 1), (0, 2), (2, 3)], heap_table(22), [(1, 2), (0, 2), (2, 3)], heap_table(21), 2, (2, 4, 0, 6, 1, 7, 3, 5));
}

proof fn lemma_chart_1294()
    ensures
        chart_signature([(1, 2), (0, 2), (2, 3)], heap_table(22)) == chart_signature([(0, 1), (0, 2), (2, 3)], heap_table(20)),
{
    lemma_heap_entries();
    lemma_codes_of_word_53(heap_table(22));
    lemma_codes_of_word_8(heap_table(20));
    lemma_charts_agree_through([(0, 1), (0, 2), (2, 3)], heap_table(20), [(1, 2), (0, 2), (2, 3)], heap_table(22), 3, (4, 2, 1, 7, 0, 6, 5, 3));
}

proof fn lemma_chart_1295()
    ensures
        chart_signature([(1, 2), (0, 2), (2, 3)], heap_table(23)) == chart_signature([(0, 1), (0, 2), (2, 3)], heap_table(18)),
{
    lemma_heap_entries();
    lemma_codes_of_word_53(heap_table(23));
    lemma_codes_of_word_8(heap_table(18));
    lemma_charts_agree_through([(0, 1), (0, 2), (2, 3)], heap_table(18), [(1, 2), (0, 2), (2, 3)], heap_table(23), 2, (2, 4, 0, 6, 1, 7, 3, 5));
}

/// Every chart of atlas word 53 shares its signature with the first chart
/// of a class below 216.
pub proof fn lemma_charts_of_word_53()
    ensures
        forall|t: int| 1272 <= t < 1296 ==> #[trigger] meets_class_below(t, 216),
{
    lemma_census_words();
    assert forall|t: int| 1272 <= t < 1296 implies #[trigger] meets_class_below(t, 216) by {
        if t == 1272 { lemma_chart_1272(); assert(atlas_signatures()[class_rep(86)] == atlas_signatures()[1272]); }
        else if t == 1273 { lemma_chart_1273(); assert(atlas_signatures()[class_rep(85)] == atlas_signatures()[1273]); }
        else if t == 1274 { lemma_chart_1274(); assert(atlas_signatures()[class_rep(84)] == atlas_signatures()[1274]); }
        else if t == 1275 { lemma_chart_1275(); assert(atlas_signatures()[class_rep(86)] == atlas_signatures()[1275]); }
        else if t == 1276 { lemma_chart_1276(); assert(atlas_signatures()[class_rep(85)] == atlas_signatures()[1276]); }
        else if t == 1277 { lemma_chart_1277(); assert(atlas_signatures()[class_rep(84)] == atlas_signatures()[1277]); }
        else if t == 1278 { lemma_chart_1278(); assert(atlas_signatures()[class_rep(89)] == atlas_signatures()[1278]); }
        else if t == 1279 { lemma_chart_1279(); assert(atlas_signatures()[class_rep(88)] == atlas_signatures()[1279]); }
        else if t == 1280 { lemma_chart_1280(); assert(atlas_signatures()[class_rep(87)] == atlas_signatures()[1280]); }
        else if t == 1281 { lemma_chart_1281(); assert(atlas_signatures()[class_rep(89)] == atlas_signatures()[1281]); }
        else if t == 1282 { lemma_chart_1282(); assert(atlas_signatures()[class_rep(88)] == atlas_signatures()[1282]); }
        else if t == 1283 { lemma_chart_1283(); assert(atlas_signatures()[class_rep(87)] == atlas_signatures()[1283]); }
        else if t == 1284 { lemma_chart_1284(); assert(atlas_signatures()[class_rep(92)] == atlas_signatures()[1284]); }
        else if t == 1285 { lemma_chart_1285(); assert(atlas_signatures()[class_rep(91)] == atlas_signatures()[1285]); }
        else if t == 1286 { lemma_chart_1286(); assert(atlas_signatures()[class_rep(90)] == atlas_signatures()[1286]); }
        else if t == 1287 { lemma_chart_1287(); assert(atlas_signatures()[class_rep(92)] == atlas_signatures()[1287]); }
        else if t == 1288 { lemma_chart_1288(); assert(atlas_signatures()[class_rep(91)] == atlas_signatures()[1288]); }
        else if t == 1289 { lemma_chart_1289(); assert(atlas_signatures()[class_rep(90)] == atlas_signatures()[1289]); }
        else if t == 1290 { lemma_chart_1290(); assert(atlas_signatures()[class_rep(95)] == atlas_signatures()[1290]); }
        else if t == 1291 { lemma_chart_1291(); assert(atlas_signatures()[class_rep(94)] == atlas_signatures()[1291]); }
        else if t == 1292 { lemma_chart_1292(); assert(atlas_signatures()[class_rep(93)] == atlas_signatures()[1292]); }
        else if t == 1293 { lemma_chart_1293(); assert(atlas_signatures()[class_rep(95)] == atlas_signatures()[1293]); }
        else if t == 1294 { lemma_chart_1294(); assert(atlas_signatures()[class_rep(94)] == atlas_signatures()[1294]); }
        else { lemma_chart_1295(); assert(atlas_signatures()[class_rep(93)] == atlas_signatures()[1295]); }
    }
}

proof fn lemma_chart_1296()
    ensures
        chart_signature([(1, 2), (0, 3), (0, 1)], heap_table(0)) == chart_signature([(0, 2), (1, 3), (0, 1)], heap_table(1)),
{
    lemma_heap_entries();
    lemma_codes_of_word_54(heap_table(0));
    lemma_codes_of_word_30(heap_table(1));
    lemma_charts_agree_through([(0, 2), (1, 3), (0, 1)], heap_table(1), [(1, 2), (0, 3), (0, 1)], heap_table(0), 4, (3, 5, 6, 0, 7, 1, 2, 4));
}

proof fn lemma_chart_1297()
    ensures
        chart_signature([(1, 2), (0, 3), (0, 1)], heap_table(1)) == chart_signature([(0, 2), (1, 3), (0, 1)], heap_table(0)),
{
    lemma_heap_entries();
    lemma_codes_of_word_54(heap_table(1));
    lemma_codes_of_word_30(heap_table(0));
    lemma_charts_agree_through([(0, 2), (1, 3), (0, 1)], heap_table(0), [(1, 2), (0, 3), (0, 1)], heap_table(1), 4, (3, 5, 6, 0, 7, 1, 2, 4));
}

proof fn lemma_chart_1298()
    ensures
        chart_signature([(1, 2), (0, 3), (0, 1)], heap_table(2)) == chart_signature([(0, 2), (1, 3), (0, 1)], heap_table(3)),
{
    lemma_heap_entries();
    lemma_codes_of_word_54(heap_table(2));
    lemma_codes_of_word_30(heap_table(3));
    lemma_charts_agree_through([(0, 2), (1, 3), (0, 1)], heap_table(3), [(1, 2), (0, 3), (0, 1)], heap_table(2), 4, (3, 5, 6, 0, 7, 1, 2, 4));
}

proof fn lemma_chart_1299()
    ensures
        chart_signature([(1, 2), (0, 3), (0, 1)], heap_table(3)) == chart_signature([(0, 2), (1, 3), (0, 1)], heap_table(1)),
{
    lemma_heap_entries();
    lemma_codes_of_word_54(heap_table(3));
    lemma_codes_of_word_30(heap_table(1));
    lemma_charts_agree_through([(0, 2), (1, 3), (0, 1)], heap_table(1), [(1, 2), (0, 3), (0, 1)], heap_table(3), 5, (5, 3, 7, 1, 6, 0, 4, 2));
}

proof fn lemma_chart_1300()
    ensures
        chart_signature([(1, 2), (0, 3), (0, 1)], heap_table(4)) == chart_signature([(0, 2), (1, 3), (0, 1)], heap_table(0)),
{
    lemma_heap_entries();
    lemma_codes_of_word_54(heap_table(4));
    lemma_codes_of_word_30(heap_table(0));
    lemma_charts_agree_through([(0, 2), (1, 3), (0, 1)], heap_table(0), [(1, 2), (0, 3), (0, 1)], heap_table(4), 5, (5, 3, 7, 1, 6, 0, 4, 2));
}

proof fn lemma_chart_1301()
    ensures
        chart_signature([(1, 2), (0, 3), (0, 1)], heap_table(5)) == chart_signature([(0, 2), (1, 3), (0, 1)], heap_table(3)),
{
    lemma_heap_entries();
    lemma_codes_of_word_54(heap_table(5));
    lemma_codes_of_word_30(heap_table(3));
    lemma_charts_agree_through([(0, 2), (1, 3), (0, 1)], heap_table(3), [(1, 2), (0, 3), (0, 1)], heap_table(5), 5, (5, 3, 7, 1, 6, 0, 4, 2));
}

proof fn lemma_chart_1302()
    ensures
        chart_signature([(1, 2), (0, 3), (0, 1)], heap_table(6)) == chart_signature([(0, 2), (1, 3), (0, 1)], heap_table(1)),
{
    lemma_heap_entries();
    lemma_codes_of_word_54(heap_table(6));
    lemma_codes_of_word_30(heap_table(1));
    lemma_charts_agree_through([(0, 2), (1, 3), (0, 1)], heap_table(1), [(1, 2), (0, 3), (0, 1)], heap_table(6), 6, (6, 7, 3, 2, 5, 4, 0, 1));
}

proof fn lemma_chart_1303()
    ensures
        chart_signature([(1, 2), (0, 3), (0, 1)], heap_table(7)) == chart_signature([(0, 2), (1, 3), (0, 1)], heap_table(6)),
{
    lemma_heap_entries();
    lemma_codes_of_word_54(heap_table(7));
    lemma_codes_of_word_30(heap_table(6));
    lemma_charts_agree_through([(0, 2), (1, 3), (0, 1)], heap_table(6), [(1, 2), (0, 3), (0, 1)], heap_table(7), 4, (3, 5, 6, 0, 7, 1, 2, 4));
}

proof fn lemma_chart_1304()
    ensures
        chart_signature([(1, 2), (0, 3), (0, 1)], heap_table(8)) == chart_signature([(0, 2), (1, 3), (0, 1)], heap_table(9)),
{
    lemma_heap_entries();
    lemma_codes_of_word_54(heap_table(8));
    lemma_codes_of_word_30(heap_table(9));
    lemma_charts_agree_through([(0, 2), (1, 3), (0, 1)], heap_table(9), [(1, 2), (0, 3), (0, 1)], heap_table(8), 4, (3, 5, 6, 0, 7, 1, 2, 4));
}

proof fn lemma_chart_1305()
    ensures
        chart_signature([(1, 2), (0, 3), (0, 1)], heap_table(9)) == chart_signature([(0, 2), (1, 3), (0, 1)], heap_table(1)),
{
    lemma_heap_entries();
    lemma_codes_of_word_54(heap_table(9));
    lemma_codes_of_word_30(heap_table(1));
    lemma_charts_agree_through([(0, 2), (1, 3), (0, 1)], heap_table(1), [(1, 2), (0, 3), (0, 1)], heap_table(9), 7, (7, 6, 5, 4, 3, 2, 1, 0));
}

proof fn lemma_chart_1306()
    ensures
        chart_signature([(1, 2), (0, 3), (0, 1)], heap_table(10)) == chart_signature([(0, 2), (1, 3), (0, 1)], heap_table(6)),
{
    lemma_heap_entries();
    lemma_codes_of_word_54(heap_table(10));
    lemma_codes_of_word_30(heap_table(6));
    lemma_charts_agree_through([(0, 2), (1, 3), (0, 1)], heap_table(6), [(1, 2), (0, 3), (0, 1)], heap_table(10), 5, (5, 3, 7, 1, 6, 0, 4, 2));
}

proof fn lemma_chart_1307()
    ensures
        chart_signature([(1, 2), (0, 3), (0, 1)], heap_table(11)) == chart_signature([(0, 2), (1, 3), (0, 1)], heap_table(9)),
{
    lemma_heap_entries();
    lemma_codes_of_word_54(heap_table(11));
    lemma_codes_of_word_30(heap_table(9));
    lemma_charts_agree_through([(0, 2), (1, 3), (0, 1)], heap_table(9), [(1, 2), (0, 3), (0, 1)], heap_table(11), 5, (5, 3, 7, 1, 6, 0, 4, 2));
}

proof fn lemma_chart_1308()
    ensures
        chart_signature([(1, 2), (0, 3), (0, 1)], heap_table(12)) == chart_signature([(0, 2), (1, 3), (0, 1)], heap_table(0)),
{
    lemma_heap_entries();
    lemma_codes_of_word_54(heap_table(12));
    lemma_codes_of_word_30(heap_table(0));
    lemma_charts_agree_through([(0, 2), (1, 3), (0, 1)], heap_table(0), [(1, 2), (0, 3), (0, 1)], heap_table(12), 6, (6, 7, 3, 2, 5, 4, 0, 1));
}

proof fn lemma_chart_1309()
    ensures
        chart_signature([(1, 2), (0, 3), (0, 1)], heap_table(13)) == chart_signature([(0, 2), (1, 3), (0, 1)], heap_table(6)),
{
    lemma_heap_entries();
    lemma_codes_of_word_54(heap_table(13));
    lemma_codes_of_word_30(heap_table(6));
    lemma_charts_agree_through([(0, 2), (1, 3), (0, 1)], heap_table(6), [(1, 2), (0, 3), (0, 1)], heap_table(13), 6, (6, 7, 3, 2, 5, 4, 0, 1));
}

proof fn lemma_chart_1310()
    ensures
        chart_signature([(1, 2), (0, 3), (0, 1)], heap_table(14)) == chart_signature([(0, 2), (1, 3), (0, 1)], heap_table(15)),
{
    lemma_heap_entries();
    lemma_codes_of_word_54(heap_table(14));
    lemma_codes_of_word_30(heap_table(15));
    lemma_charts_agree_through([(0, 2), (1, 3), (0, 1)], heap_table(15), [(1, 2), (0, 3), (0, 1)], heap_table(14), 4, (3, 5, 6, 0, 7, 1, 2, 4));
}

proof fn lemma_chart_1311()
    ensures
        chart_signature([(1, 2), (0, 3), (0, 1)], heap_table(15)) == chart_signature([(0, 2), (1, 3), (0, 1)], heap_table(0)),
{
    lemma_heap_entries();
    lemma_codes_of_word_54(heap_table(15));
    lemma_codes_of_word_30(heap_table(0));
    lemma_charts_agree_through([(0, 2), (1, 3), (0, 1)], heap_table(0), [(1, 2), (0, 3), (0, 1)], heap_table(15), 7, (7, 6, 5, 4, 3, 2, 1, 0));
}

proof fn lemma_chart_1312()
    ensures
        chart_signature([(1, 2), (0, 3), (0, 1)], heap_table(16)) == chart_signature([(0, 2), (1, 3), (0, 1)], heap_table(6)),
{
    lemma_heap_entries();
    lemma_codes_of_word_54(heap_table(16));
    lemma_codes_of_word_30(heap_table(6));
    lemma_charts_agree_through([(0, 2), (1, 3), (0, 1)], heap_table(6), [(1, 2), (0, 3), (0, 1)], heap_table(16), 7, (7, 6, 5, 4, 3, 2, 1, 0));
}

proof fn lemma_chart_1313()
    ensures
        chart_signature([(1, 2), (0, 3), (0, 1)], heap_table(17)) == chart_signature([(0, 2), (1, 3), (0, 1)], heap_table(15)),
{
    lemma_heap_entries();
    lemma_codes_of_word_54(heap_table(17));
    lemma_codes_of_word_30(heap_table(15));
    lemma_charts_agree_through([(0, 2), (1, 3), (0, 1)], heap_table(15), [(1, 2), (0, 3), (0, 1)], heap_table(17), 5, (5, 3, 7, 1, 6, 0, 4, 2));
}

proof fn lemma_chart_1314()
    ensures
        chart_signature([(1, 2), (0, 3), (0, 1)], heap_table(18)) == chart_signature([(0, 2), (1, 3), (0, 1)], heap_table(3)),
{
    lemma_heap_entries();
    lemma_codes_of_word_54(heap_table(18));
    lemma_codes_of_word_30(heap_table(3));
    lemma_charts_agree_through([(0, 2), (1, 3), (0, 1)], heap_table(3), [(1, 2), (0, 3), (0, 1)], heap_table(18), 6, (6, 7, 3, 2, 5, 4, 0, 1));
}

proof fn lemma_chart_1315()
    ensures
        chart_signature([(1, 2), (0, 3), (0, 1)], heap_table(19)) == chart_signature([(0, 2), (1, 3), (0, 1)], heap_table(9)),
{
    lemma_heap_entries();
    lemma_codes_of_word_54(heap_table(19));
    lemma_codes_of_word_30(heap_table(9));
    lemma_charts_agree_through([(0, 2), (1, 3), (0, 1)], heap_table(9), [(1, 2), (0, 3), (0, 1)], heap_table(19), 6, (6, 7, 3, 2, 5, 4, 0, 1));
}

proof fn lemma_chart_1316()
    ensures
        chart_signature([(1, 2), (0, 3), (0, 1)], heap_table(20)) == chart_signature([(0, 2), (1, 3), (0, 1)], heap_table(15)),
{
    lemma_heap_entries();
    lemma_codes_of_word_54(heap_table(20));
    lemma_codes_of_word_30(heap_table(15));
    lemma_charts_agree_through([(0, 2), (1, 3), (0, 1)], heap_table(15), [(1, 2), (0, 3), (0, 1)], heap_table(20), 6, (6, 7, 3, 2, 5, 4, 0, 1));
}

proof fn lemma_chart_1317()
    ensures
        chart_signature([(1, 2), (0, 3), (0, 1)], heap_table(21)) == chart_signature([(0, 2), (1, 3), (0, 1)], heap_table(3)),
{
    lemma_heap_entries();
    lemma_codes_of_word_54(heap_table(21));
    lemma_codes_of_word_30(heap_table(3));
    lemma_charts_agree_through([(0, 2), (1, 3), (0, 1)], heap_table(3), [(1, 2), (0, 3), (0, 1)], heap_table(21), 7, (7, 6, 5, 4, 3, 2, 1, 0));
}

proof fn lemma_chart_1318()
    ensures
        chart_signature([(1, 2), (0, 3), (0, 1)], heap_table(22)) == chart_signature([(0, 2), (1, 3), (0, 1)], heap_table(9)),
{
    lemma_heap_entries();
    lemma_codes_of_word_54(heap_table(22));
    lemma_codes_of_word_30(heap_table(9));
    lemma_charts_agree_through([(0, 2), (1, 3), (0, 1)], heap_table(9), [(1, 2), (0, 3), (0, 1)], heap_table(22), 7, (7, 6, 5, 4, 3, 2, 1, 0));
}

proof fn lemma_chart_1319()
    ensures
        chart_signature([(1, 2), (0, 3), (0, 1)], heap_table(23)) == chart_signature([(0, 2), (1, 3), (0, 1)], heap_table(15)),
{
    lemma_heap_entries();
    lemma_codes_of_word_54(heap_table(23));
    lemma_codes_of_word_30(heap_table(15));
    lemma_charts_agree_through([(0, 2), (1, 3), (0, 1)], heap_table(15), [(1, 2), (0, 3), (0, 1)], heap_table(23), 7, (7, 6, 5, 4, 3, 2, 1, 0));
}

/// Every chart of atlas word 54 shares its signature with the first chart
/// of a class below 216.
pub proof fn lemma_charts_of_word_54()
    ensures
        forall|t: int| 1296 <= t < 1320 ==> #[trigger] meets_class_below(t, 216),
{
    lemma_census_words();
    assert forall|t: int| 1296 <= t < 1320 implies #[trigger] meets_class_below(t, 216) by {
        if t == 1296 { lemma_chart_1296(); assert(atlas_signatures()[class_rep(175)] == atlas_signatures()[1296]); }
        else if t == 1297 { lemma_chart_1297(); assert(atlas_signatures()[class_rep(174)] == atlas_signatures()[1297]); }
        else if t == 1298 { lemma_chart_1298(); assert(atlas_signatures()[class_rep(176)] == atlas_signatures()[1298]); }
        else if t == 1299 { lemma_chart_1299(); assert(atlas_signatures()[class_rep(175)] == atlas_signatures()[1299]); }
        else if t == 1300 { lemma_chart_1300(); assert(atlas_signatures()[class_rep(174)] == atlas_signatures()[1300]); }
        else if t == 1301 { lemma_chart_1301(); assert(atlas_signatures()[class_rep(176)] == atlas_signatures()[1301]); }
        else if t == 1302 { lemma_chart_1302(); assert(atlas_signatures()[class_rep(175)] == atlas_signatures()[1302]); }
        else if t == 1303 { lemma_chart_1303(); assert(atlas_signatures()[class_rep(177)] == atlas_signatures()[1303]); }
        else if t == 1304 { lemma_chart_1304(); assert(atlas_signatures()[class_rep(178)] == atlas_signatures()[1304]); }
        else if t == 1305 { lemma_chart_1305(); assert(atlas_signatures()[class_rep(175)] == atlas_signatures()[1305]); }
        else if t == 1306 { lemma_chart_1306(); assert(atlas_signatures()[class_rep(177)] == atlas_signatures()[1306]); }
        else if t == 1307 { lemma_chart_1307(); assert(atlas_signatures()[class_rep(178)] == atlas_signatures()[1307]); }
        else if t == 1308 { lemma_chart_1308(); assert(atlas_signatures()[class_rep(174)] == atlas_signatures()[1308]); }
        else if t == 1309 { lemma_chart_1309(); assert(atlas_signatures()[class_rep(177)] == atlas_signatures()[1309]); }
        else if t == 1310 { lemma_chart_1310(); assert(atlas_signatures()[class_rep(179)] == atlas_signatures()[1310]); }
        else if t == 1311 { lemma_chart_1311(); assert(atlas_signatures()[class_rep(174)] == atlas_signatures()[1311]); }
        else if t == 1312 { lemma_chart_1312(); assert(atlas_signatures()[class_rep(177)] == atlas_signatures()[1312]); }
        else if t == 1313 { lemma_chart_1313(); assert(atlas_signatures()[class_rep(179)] == atlas_signatures()[1313]); }
        else if t == 1314 { lemma_chart_1314(); assert(atlas_signatures()[class_rep(176)] == atlas_signatures()[1314]); }
        else if t == 1315 { lemma_chart_1315(); assert(atlas_signatures()[class_rep(178)] == atlas_signatures()[1315]); }
        else if t == 1316 { lemma_chart_1316(); assert(atlas_signatures()[class_rep(179)] == atlas_signatures()[1316]); }
        else if t == 1317 { lemma_chart_1317(); assert(atlas_signatures()[class_rep(176)] == atlas_signatures()[1317]); }
        else if t == 1318 { lemma_chart_1318(); assert(atlas_signatures()[class_rep(178)] == atlas_signatures()[1318]); }
        else { lemma_chart_1319(); assert(atlas_signatures()[class_rep(179)] == atlas_signatures()[1319]); }
    }
}

proof fn lemma_chart_1320()
    ensures
        chart_signature([(1, 2), (0, 3), (0, 2)], heap_table(0)) == chart_signature([(0, 1), (2, 3), (0, 2)], heap_table(4)),
{
    lemma_heap_entries();
    lemma_codes_of_word_55(heap_table(0));
    lemma_codes_of_word_20(heap_table(4));
    lemma_charts_agree_through([(0, 1), (2, 3), (0, 2)], heap_table(4), [(1, 2), (0, 3), (0, 2)], heap_table(0), 5, (5, 3, 7, 1, 6, 0, 4, 2));
}

proof fn lemma_chart_1321()
    ensures
        chart_signature([(1, 2), (0, 3), (0, 2)], heap_table(1)) == chart_signature([(0, 1), (2, 3), (0, 2)], heap_table(2)),
{
    lemma_heap_entries();
    lemma_codes_of_word_55(heap_table(1));
    lemma_codes_of_word_20(heap_table(2));
    lemma_charts_agree_through([(0, 1), (2, 3), (0, 2)], heap_table(2), [(1, 2), (0, 3), (0, 2)], heap_table(1), 4, (3, 5, 6, 0, 7, 1, 2, 4));
}

proof fn lemma_chart_1322()
    ensures
        chart_signature([(1, 2), (0, 3), (0, 2)], heap_table(2)) == chart_signature([(0, 1), (2, 3), (0, 2)], heap_table(0)),
{
    lemma_heap_entries();
    lemma_codes_of_word_55(heap_table(2));
    lemma_codes_of_word_20(heap_table(0));
    lemma_charts_agree_through([(0, 1), (2, 3), (0, 2)], heap_table(0), [(1, 2), (0, 3), (0, 2)], heap_table(2), 5, (5, 3, 7, 1, 6, 0, 4, 2));
}

proof fn lemma_chart_1323()
    ensures
        chart_signature([(1, 2), (0, 3), (0, 2)], heap_table(3)) == chart_signature([(0, 1), (2, 3), (0, 2)], heap_table(4)),
{
    lemma_heap_entries();
    lemma_codes_of_word_55(heap_table(3));
    lemma_codes_of_word_20(heap_table(4));
    lemma_charts_agree_through([(0, 1), (2, 3), (0, 2)], heap_table(4), [(1, 2), (0, 3), (0, 2)], heap_table(3), 4, (3, 5, 6, 0, 7, 1, 2, 4));
}

proof fn lemma_chart_1324()
    ensures
        chart_signature([(1, 2), (0, 3), (0, 2)], heap_table(4)) == chart_signature([(0, 1), (2, 3), (0, 2)], heap_table(2)),
{
    lemma_heap_entries();
    lemma_codes_of_word_55(heap_table(4));
    lemma_codes_of_word_20(heap_table(2));
    lemma_charts_agree_through([(0, 1), (2, 3), (0, 2)], heap_table(2), [(1, 2), (0, 3), (0, 2)], heap_table(4), 5, (5, 3, 7, 1, 6, 0, 4, 2));
}

proof fn lemma_chart_1325()
    ensures
        chart_signature([(1, 2), (0, 3), (0, 2)], heap_table(5)) == chart_signature([(0, 1), (2, 3), (0, 2)], heap_table(0)),
{
    lemma_heap_entries();
    lemma_codes_of_word_55(heap_table(5));
    lemma_codes_of_word_20(heap_table(0));
    lemma_charts_agree_through([(0, 1), (2, 3), (0, 2)], heap_table(0), [(1, 2), (0, 3), (0, 2)], heap_table(5), 4, (3, 5, 6, 0, 7, 1, 2, 4));
}

proof fn lemma_chart_1326()
    ensures
        chart_signature([(1, 2), (0, 3), (0, 2)], heap_table(6)) == chart_signature([(0, 1), (2, 3), (0, 2)], heap_table(4)),
{
    lemma_heap_entries();
    lemma_codes_of_word_55(heap_table(6));
    lemma_codes_of_word_20(heap_table(4));
    lemma_charts_agree_through([(0, 1), (2, 3), (0, 2)], heap_table(4), [(1, 2), (0, 3), (0, 2)], heap_table(6), 7, (7, 6, 5, 4, 3, 2, 1, 0));
}

proof fn lemma_chart_1327()
    ensures
        chart_signature([(1, 2), (0, 3), (0, 2)], heap_table(7)) == chart_signature([(0, 1), (2, 3), (0, 2)], heap_table(8)),
{
    lemma_heap_entries();
    lemma_codes_of_word_55(heap_table(7));
    lemma_codes_of_word_20(heap_table(8));
    lemma_charts_agree_through([(0, 1), (2, 3), (0, 2)], heap_table(8), [(1, 2), (0, 3), (0, 2)], heap_table(7), 4, (3, 5, 6, 0, 7, 1, 2, 4));
}

proof fn lemma_chart_1328()
    ensures
        chart_signature([(1, 2), (0, 3), (0, 2)], heap_table(8)) == chart_signature([(0, 1), (2, 3), (0, 2)], heap_table(6)),
{
    lemma_heap_entries();
    lemma_codes_of_word_55(heap_table(8));
    lemma_codes_of_word_20(heap_table(6));
    lemma_charts_agree_through([(0, 1), (2, 3), (0, 2)], heap_table(6), [(1, 2), (0, 3), (0, 2)], heap_table(8), 5, (5, 3, 7, 1, 6, 0, 4, 2));
}

proof fn lemma_chart_1329()
    ensures
        chart_signature([(1, 2), (0, 3), (0, 2)], heap_table(9)) == chart_signature([(0, 1), (2, 3), (0, 2)], heap_table(4)),
{
    lemma_heap_entries();
    lemma_codes_of_word_55(heap_table(9));
    lemma_codes_of_word_20(heap_table(4));
    lemma_charts_agree_through([(0, 1), (2, 3), (0, 2)], heap_table(4), [(1, 2), (0, 3), (0, 2)], heap_table(9), 6, (6, 7, 3, 2, 5, 4, 0, 1));
}

proof fn lemma_chart_1330()
    ensures
        chart_signature([(1, 2), (0, 3), (0, 2)], heap_table(10)) == chart_signature([(0, 1), (2, 3), (0, 2)], heap_table(8)),
{
    lemma_heap_entries();
    lemma_codes_of_word_55(heap_table(10));
    lemma_codes_of_word_20(heap_table(8));
    lemma_charts_agree_through([(0, 1), (2, 3), (0, 2)], heap_table(8), [(1, 2), (0, 3), (0, 2)], heap_table(10), 5, (5, 3, 7, 1, 6, 0, 4, 2));
}

proof fn lemma_chart_1331()
    ensures
        chart_signature([(1, 2), (0, 3), (0, 2)], heap_table(11)) == chart_signature([(0, 1), (2, 3), (0, 2)], heap_table(6)),
{
    lemma_heap_entries();
    lemma_codes_of_word_55(heap_table(11));
    lemma_codes_of_word_20(heap_table(6));
    lemma_charts_agree_through([(0, 1), (2, 3), (0, 2)], heap_table(6), [(1, 2), (0, 3), (0, 2)], heap_table(11), 4, (3, 5, 6, 0, 7, 1, 2, 4));
}

proof fn lemma_chart_1332()
    ensures
        chart_signature([(1, 2), (0, 3), (0, 2)], heap_table(12)) == chart_signature([(0, 1), (2, 3), (0, 2)], heap_table(2)),
{
    lemma_heap_entries();
    lemma_codes_of_word_55(heap_table(12));
    lemma_codes_of_word_20(heap_table(2));
    lemma_charts_agree_through([(0, 1), (2, 3), (0, 2)], heap_table(2), [(1, 2), (0, 3), (0, 2)], heap_table(12), 6, (6, 7, 3, 2, 5, 4, 0, 1));
}

proof fn lemma_chart_1333()
    ensures
        chart_signature([(1, 2), (0, 3), (0, 2)], heap_table(13)) == chart_signature([(0, 1), (2, 3), (0, 2)], heap_table(8)),
{
    lemma_heap_entries();
    lemma_codes_of_word_55(heap_table(13));
    lemma_codes_of_word_20(heap_table(8));
    lemma_charts_agree_through([(0, 1), (2, 3), (0, 2)], heap_table(8), [(1, 2), (0, 3), (0, 2)], heap_table(13), 6, (6, 7, 3, 2, 5, 4, 0, 1));
}

proof fn lemma_chart_1334()
    ensures
        chart_signature([(1, 2), (0, 3), (0, 2)], heap_table(14)) == chart_signature([(0, 1), (2, 3), (0, 2)], heap_table(12)),
{
    lemma_heap_entries();
    lemma_codes_of_word_55(heap_table(14));
    lemma_codes_of_word_20(heap_table(12));
    lemma_charts_agree_through([(0, 1), (2, 3), (0, 2)], heap_table(12), [(1, 2), (0, 3), (0, 2)], heap_table(14), 5, (5, 3, 7, 1, 6, 0, 4, 2));
}

proof fn lemma_chart_1335()
    ensures
        chart_signature([(1, 2), (0, 3), (0, 2)], heap_table(15)) == chart_signature([(0, 1), (2, 3), (0, 2)], heap_table(2)),
{
    lemma_heap_entries();
    lemma_codes_of_word_55(heap_table(15));
    lemma_codes_of_word_20(heap_table(2));
    lemma_charts_agree_through([(0, 1), (2, 3), (0, 2)], heap_table(2), [(1, 2), (0, 3), (0, 2)], heap_table(15), 7, (7, 6, 5, 4, 3, 2, 1, 0));
}

proof fn lemma_chart_1336()
    ensures
        chart_signature([(1, 2), (0, 3), (0, 2)], heap_table(16)) == chart_signature([(0, 1), (2, 3), (0, 2)], heap_table(8)),
{
    lemma_heap_entries();
    lemma_codes_of_word_55(heap_table(16));
    lemma_codes_of_word_20(heap_table(8));
    lemma_charts_agree_through([(0, 1), (2, 3), (0, 2)], heap_table(8), [(1, 2), (0, 3), (0, 2)], heap_table(16), 7, (7, 6, 5, 4, 3, 2, 1, 0));
}

proof fn lemma_chart_1337()
    ensures
        chart_signature([(1, 2), (0, 3), (0, 2)], heap_table(17)) == chart_signature([(0, 1), (2, 3), (0, 2)], heap_table(12)),
{
    lemma_heap_entries();
    lemma_codes_of_word_55(heap_table(17));
    lemma_codes_of_word_20(heap_table(12));
    lemma_charts_agree_through([(0, 1), (2, 3), (0, 2)], heap_table(12), [(1, 2), (0, 3), (0, 2)], heap_table(17), 4, (3, 5, 6, 0, 7, 1, 2, 4));
}

proof fn lemma_chart_1338()
    ensures
        chart_signature([(1, 2), (0, 3), (0, 2)], heap_table(18)) == chart_signature([(0, 1), (2, 3), (0, 2)], heap_table(0)),
{
    lemma_heap_entries();
    lemma_codes_of_word_55(heap_table(18));
    lemma_codes_of_word_20(heap_table(0));
    lemma_charts_agree_through([(0, 1), (2, 3), (0, 2)], heap_table(0), [(1, 2), (0, 3), (0, 2)], heap_table(18), 7, (7, 6, 5, 4, 3, 2, 1, 0));
}

proof fn lemma_chart_1339()
    ensures
        chart_signature([(1, 2), (0, 3), (0, 2)], heap_table(19)) == chart_signature([(0, 1), (2, 3), (0, 2)], heap_table(6)),
{
    lemma_heap_entries();
    lemma_codes_of_word_55(heap_table(19));
    lemma_codes_of_word_20(heap_table(6));
    lemma_charts_agree_through([(0, 1), (2, 3), (0, 2)], heap_table(6), [(1, 2), (0, 3), (0, 2)], heap_table(19), 7, (7, 6, 5, 4, 3, 2, 1, 0));
}

proof fn lemma_chart_1340()
    ensures
        chart_signature([(1, 2), (0, 3), (0, 2)], heap_table(20)) == chart_signature([(0, 1), (2, 3), (0, 2)], heap_table(12)),
{
    lemma_heap_entries();
    lemma_codes_of_word_55(heap_table(20));
    lemma_codes_of_word_20(heap_table(12));
    lemma_charts_agree_through([(0, 1), (2, 3), (0, 2)], heap_table(12), [(1, 2), (0, 3), (0, 2)], heap_table(20), 7, (7, 6, 5, 4, 3, 2, 1, 0));
}

proof fn lemma_chart_1341()
    ensures
        chart_signature([(1, 2), (0, 3), (0, 2)], heap_table(21)) == chart_signature([(0, 1), (2, 3), (0, 2)], heap_table(0)),
{
    lemma_heap_entries();
    lemma_codes_of_word_55(heap_table(21));
    lemma_codes_of_word_20(heap_table(0));
    lemma_charts_agree_through([(0, 1), (2, 3), (0, 2)], heap_table(0), [(1, 2), (0, 3), (0, 2)], heap_table(21), 6, (6, 7, 3, 2, 5, 4, 0, 1));
}

proof fn lemma_chart_1342()
    ensures
        chart_signature([(1, 2), (0, 3), (0, 2)], heap_table(22)) == chart_signature([(0, 1), (2, 3), (0, 2)], heap_table(6)),
{
    lemma_heap_entries();
    lemma_codes_of_word_55(heap_table(22));
    lemma_codes_of_word_20(heap_table(6));
    lemma_charts_agree_through([(0, 1), (2, 3), (0, 2)], heap_table(6), [(1, 2), (0, 3), (0, 2)], heap_table(22), 6, (6, 7, 3, 2, 5, 4, 0, 1));
}

proof fn lemma_chart_1343()
    ensures
        chart_signature([(1, 2), (0, 3), (0, 2)], heap_table(23)) == chart_signature([(0, 1), (2, 3), (0, 2)], heap_table(12)),
{
    lemma_heap_entries();
    lemma_codes_of_word_55(heap_table(23));
    lemma_codes_of_word_20(heap_table(12));
    lemma_charts_agree_through([(0, 1), (2, 3), (0, 2)], heap_table(12), [(1, 2), (0, 3), (0, 2)], heap_table(23), 6, (6, 7, 3, 2, 5, 4, 0, 1));
}

/// Every chart of atlas word 55 shares its signature with the first chart
/// of a class below 216.
pub proof fn lemma_charts_of_word_55()
    ensures
        forall|t: int| 1320 <= t < 1344 ==> #[trigger] meets_class_below(t, 216),
{
    lemma_census_words();
    assert forall|t: int| 1320 <= t < 1344 implies #[trigger] meets_class_below(t, 216) by {
        if t == 1320 { lemma_chart_1320(); assert(atlas_signatures()[class_rep(128)] == atlas_signatures()[1320]); }
        else if t == 1321 { lemma_chart_1321(); assert(atlas_signatures()[class_rep(127)] == atlas_signatures()[1321]); }
        else if t == 1322 { lemma_chart_1322(); assert(atlas_signatures()[class_rep(126)] == atlas_signatures()[1322]); }
        else if t == 1323 { lemma_chart_1323(); assert(atlas_signatures()[class_rep(128)] == atlas_signatures()[1323]); }
        else if t == 1324 { lemma_chart_1324(); assert(atlas_signatures()[class_rep(127)] == atlas_signatures()[1324]); }
        else if t == 1325 { lemma_chart_1325(); assert(atlas_signatures()[class_rep(126)] == atlas_signatures()[1325]); }
        else if t == 1326 { lemma_chart_1326(); assert(atlas_signatures()[class_rep(128)] == atlas_signatures()[1326]); }
        else if t == 1327 { lemma_chart_1327(); assert(atlas_signatures()[class_rep(130)] == atlas_signatures()[1327]); }
        else if t == 1328 { lemma_chart_1328(); assert(atlas_signatures()[class_rep(129)] == atlas_signatures()[1328]); }
        else if t == 1329 { lemma_chart_1329(); assert(atlas_signatures()[class_rep(128)] == atlas_signatures()[1329]); }
        else if t == 1330 { lemma_chart_1330(); assert(atlas_signatures()[class_rep(130)] == atlas_signatures()[1330]); }
        else if t == 1331 { lemma_chart_1331(); assert(atlas_signatures()[class_rep(129)] == atlas_signatures()[1331]); }
        else if t == 1332 { lemma_chart_1332(); assert(atlas_signatures()[class_rep(127)] == atlas_signatures()[1332]); }
        else if t == 1333 { lemma_chart_1333(); assert(atlas_signatures()[class_rep(130)] == atlas_signatures()[1333]); }
        else if t == 1334 { lemma_chart_1334(); assert(atlas_signatures()[class_rep(131)] == atlas_signatures()[1334]); }
        else if t == 1335 { lemma_chart_1335(); assert(atlas_signatures()[class_rep(127)] == atlas_signatures()[1335]); }
        else if t == 1336 { lemma_chart_1336(); assert(atlas_signatures()[class_rep(130)] == atlas_signatures()[1336]); }
        else if t == 1337 { lemma_chart_1337(); assert(atlas_signatures()[class_rep(131)] == atlas_signatures()[1337]); }
        else if t == 1338 { lemma_chart_1338(); assert(atlas_signatures()[class_rep(126)] == atlas_signatures()[1338]); }
        else if t == 1339 { lemma_chart_1339(); assert(atlas_signatures()[class_rep(129)] == atlas_signatures()[1339]); }
        else if t == 1340 { lemma_chart_1340(); assert(atlas_signatures()[class_rep(131)] == atlas_signatures()[1340]); }
        else if t == 1341 { lemma_chart_1341(); assert(atlas_signatures()[class_rep(126)] == atlas_signatures()[1341]); }
        else if t == 1342 { lemma_chart_1342(); assert(atlas_signatures()[class_rep(129)] == atlas_signatures()[1342]); }
        else { lemma_chart_1343(); assert(atlas_signatures()[class_rep(131)] == atlas_signatures()[1343]); }
    }
}

proof fn lemma_chart_1344()
    ensures
        chart_signature([(1, 2), (0, 3), (1, 3)], heap_table(0)) == chart_signature([(0, 3), (1, 2), (1, 3)], heap_table(0)),
{
    lemma_heap_entries();
    lemma_codes_of_word_56(heap_table(0));
    lemma_codes_of_word_5(heap_table(0));
    lemma_charts_agree_through([(0, 3), (1, 2), (1, 3)], heap_table(0), [(1, 2), (0, 3), (1, 3)], heap_table(0), 16, (0, 2, 1, 3, 4, 6, 5, 7));
}

proof fn lemma_chart_1345()
    ensures
        chart_signature([(1, 2), (0, 3), (1, 3)], heap_table(1)) == chart_signature([(0, 3), (1, 2), (1, 3)], heap_table(1)),
{
    lemma_heap_entries();
    lemma_codes_of_word_56(heap_table(1));
    lemma_codes_of_word_5(heap_table(1));
    lemma_charts_agree_through([(0, 3), (1, 2), (1, 3)], heap_table(1), [(1, 2), (0, 3), (1, 3)], heap_table(1), 16, (0, 2, 1, 3, 4, 6, 5, 7));
}

proof fn lemma_chart_1346()
    ensures
        chart_signature([(1, 2), (0, 3), (1, 3)], heap_table(2)) == chart_signature([(0, 3), (1, 2), (1, 3)], heap_table(2)),
{
    lemma_heap_entries();
    lemma_codes_of_word_56(heap_table(2));
    lemma_codes_of_word_5(heap_table(2));
    lemma_charts_agree_through([(0, 3), (1, 2), (1, 3)], heap_table(2), [(1, 2), (0, 3), (1, 3)], heap_table(2), 16, (0, 2, 1, 3, 4, 6, 5, 7));
}

proof fn lemma_chart_1347()
    ensures
        chart_signature([(1, 2), (0, 3), (1, 3)], heap_table(3)) == chart_signature([(0, 3), (1, 2), (1, 3)], heap_table(0)),
{
    lemma_heap_entries();
    lemma_codes_of_word_56(heap_table(3));
    lemma_codes_of_word_5(heap_table(0));
    lemma_charts_agree_through([(0, 3), (1, 2), (1, 3)], heap_table(0), [(1, 2), (0, 3), (1, 3)], heap_table(3), 18, (2, 0, 4, 6, 1, 3, 7, 5));
}

proof fn lemma_chart_1348()
    ensures
        chart_signature([(1, 2), (0, 3), (1, 3)], heap_table(4)) == chart_signature([(0, 3), (1, 2), (1, 3)], heap_table(1)),
{
    lemma_heap_entries();
    lemma_codes_of_word_56(heap_table(4));
    lemma_codes_of_word_5(heap_table(1));
    lemma_charts_agree_through([(0, 3), (1, 2), (1, 3)], heap_table(1), [(1, 2), (0, 3), (1, 3)], heap_table(4), 18, (2, 0, 4, 6, 1, 3, 7, 5));
}

proof fn lemma_chart_1349()
    ensures
        chart_signature([(1, 2), (0, 3), (1, 3)], heap_table(5)) == chart_signature([(0, 3), (1, 2), (1, 3)], heap_table(2)),
{
    lemma_heap_entries();
    lemma_codes_of_word_56(heap_table(5));
    lemma_codes_of_word_5(heap_table(2));
    lemma_charts_agree_through([(0, 3), (1, 2), (1, 3)], heap_table(2), [(1, 2), (0, 3), (1, 3)], heap_table(5), 18, (2, 0, 4, 6, 1, 3, 7, 5));
}

proof fn lemma_chart_1350()
    ensures
        chart_signature([(1, 2), (0, 3), (1, 3)], heap_table(6)) == chart_signature([(0, 3), (1, 2), (1, 3)], heap_table(0)),
{
    lemma_heap_entries();
    lemma_codes_of_word_56(heap_table(6));
    lemma_codes_of_word_5(heap_table(0));
    lemma_charts_agree_through([(0, 3), (1, 2), (1, 3)], heap_table(0), [(1, 2), (0, 3), (1, 3)], heap_table(6), 17, (1, 4, 0, 5, 2, 7, 3, 6));
}

proof fn lemma_chart_1351()
    ensures
        chart_signature([(1, 2), (0, 3), (1, 3)], heap_table(7)) == chart_signature([(0, 3), (1, 2), (1, 3)], heap_table(7)),
{
    lemma_heap_entries();
    lemma_codes_of_word_56(heap_table(7));
    lemma_codes_of_word_5(heap_table(7));
    lemma_charts_agree_through([(0, 3), (1, 2), (1, 3)], heap_table(7), [(1, 2), (0, 3), (1, 3)], heap_table(7), 16, (0, 2, 1, 3, 4, 6, 5, 7));
}

proof fn lemma_chart_1352()
    ensures
        chart_signature([(1, 2), (0, 3), (1, 3)], heap_table(8)) == chart_signature([(0, 3), (1, 2), (1, 3)], heap_table(8)),
{
    lemma_heap_entries();
    lemma_codes_of_word_56(heap_table(8));
    lemma_codes_of_word_5(heap_table(8));
    lemma_charts_agree_through([(0, 3), (1, 2), (1, 3)], heap_table(8), [(1, 2), (0, 3), (1, 3)], heap_table(8), 16, (0, 2, 1, 3, 4, 6, 5, 7));
}

proof fn lemma_chart_1353()
    ensures
        chart_signature([(1, 2), (0, 3), (1, 3)], heap_table(9)) == chart_signature([(0, 3), (1, 2), (1, 3)], heap_table(0)),
{
    lemma_heap_entries();
    lemma_codes_of_word_56(heap_table(9));
    lemma_codes_of_word_5(heap_table(0));
    lemma_charts_agree_through([(0, 3), (1, 2), (1, 3)], heap_table(0), [(1, 2), (0, 3), (1, 3)], heap_table(9), 19, (4, 1, 2, 7, 0, 5, 6, 3));
}

proof fn lemma_chart_1354()
    ensures
        chart_signature([(1, 2), (0, 3), (1, 3)], heap_table(10)) == chart_signature([(0, 3), (1, 2), (1, 3)], heap_table(7)),
{
    lemma_heap_entries();
    lemma_codes_of_word_56(heap_table(10));
    lemma_codes_of_word_5(heap_table(7));
    lemma_charts_agree_through([(0, 3), (1, 2), (1, 3)], heap_table(7), [(1, 2), (0, 3), (1, 3)], heap_table(10), 18, (2, 0, 4, 6, 1, 3, 7, 5));
}

proof fn lemma_chart_1355()
    ensures
        chart_signature([(1, 2), (0, 3), (1, 3)], heap_table(11)) == chart_signature([(0, 3), (1, 2), (1, 3)], heap_table(8)),
{
    lemma_heap_entries();
    lemma_codes_of_word_56(heap_table(11));
    lemma_codes_of_word_5(heap_table(8));
    lemma_charts_agree_through([(0, 3), (1, 2), (1, 3)], heap_table(8), [(1, 2), (0, 3), (1, 3)], heap_table(11), 18, (2, 0, 4, 6, 1, 3, 7, 5));
}

proof fn lemma_chart_1356()
    ensures
        chart_signature([(1, 2), (0, 3), (1, 3)], heap_table(12)) == chart_signature([(0, 3), (1, 2), (1, 3)], heap_table(1)),
{
    lemma_heap_entries();
    lemma_codes_of_word_56(heap_table(12));
    lemma_codes_of_word_5(heap_table(1));
    lemma_charts_agree_through([(0, 3), (1, 2), (1, 3)], heap_table(1), [(1, 2), (0, 3), (1, 3)], heap_table(12), 17, (1, 4, 0, 5, 2, 7, 3, 6));
}

proof fn lemma_chart_1357()
    ensures
        chart_signature([(1, 2), (0, 3), (1, 3)], heap_table(13)) == chart_signature([(0, 3), (1, 2), (1, 3)], heap_table(7)),
{
    lemma_heap_entries();
    lemma_codes_of_word_56(heap_table(13));
    lemma_codes_of_word_5(heap_table(7));
    lemma_charts_agree_through([(0, 3), (1, 2), (1, 3)], heap_table(7), [(1, 2), (0, 3), (1, 3)], heap_table(13), 17, (1, 4, 0, 5, 2, 7, 3, 6));
}

proof fn lemma_chart_1358()
    ensures
        chart_signature([(1, 2), (0, 3), (1, 3)], heap_table(14)) == chart_signature([(0, 3), (1, 2), (1, 3)], heap_table(14)),
{
    lemma_heap_entries();
    lemma_codes_of_word_56(heap_table(14));
    lemma_codes_of_word_5(heap_table(14));
    lemma_charts_agree_through([(0, 3), (1, 2), (1, 3)], heap_table(14), [(1, 2), (0, 3), (1, 3)], heap_table(14), 16, (0, 2, 1, 3, 4, 6, 5, 7));
}

proof fn lemma_chart_1359()
    ensures
        chart_signature([(1, 2), (0, 3), (1, 3)], heap_table(15)) == chart_signature([(0, 3), (1, 2), (1, 3)], heap_table(1)),
{
    lemma_heap_entries();
    lemma_codes_of_word_56(heap_table(15));
    lemma_codes_of_word_5(heap_table(1));
    lemma_charts_agree_through([(0, 3), (1, 2), (1, 3)], heap_table(1), [(1, 2), (0, 3), (1, 3)], heap_table(15), 19, (4, 1, 2, 7, 0, 5, 6, 3));
}

proof fn lemma_chart_1360()
    ensures
        chart_signature([(1, 2), (0, 3), (1, 3)], heap_table(16)) == chart_signature([(0, 3), (1, 2), (1, 3)], heap_table(7)),
{
    lemma_heap_entries();
    lemma_codes_of_word_56(heap_table(16));
    lemma_codes_of_word_5(heap_table(7));
    lemma_charts_agree_through([(0, 3), (1, 2), (1, 3)], heap_table(7), [(1, 2), (0, 3), (1, 3)], heap_table(16), 19, (4, 1, 2, 7, 0, 5, 6, 3));
}

proof fn lemma_chart_1361()
    ensures
        chart_signature([(1, 2), (0, 3), (1, 3)], heap_table(17)) == chart_signature([(0, 3), (1, 2), (1, 3)], heap_table(14)),
{
    lemma_heap_entries();
    lemma_codes_of_word_56(heap_table(17));
    lemma_codes_of_word_5(heap_table(14));
    lemma_charts_agree_through([(0, 3), (1, 2), (1, 3)], heap_table(14), [(1, 2), (0, 3), (1, 3)], heap_table(17), 18, (2, 0, 4, 6, 1, 3, 7, 5));
}

proof fn lemma_chart_1362()
    ensures
        chart_signature([(1, 2), (0, 3), (1, 3)], heap_table(18)) == chart_signature([(0, 3), (1, 2), (1, 3)], heap_table(2)),
{
    lemma_heap_entries();
    lemma_codes_of_word_56(heap_table(18));
    lemma_codes_of_word_5(heap_table(2));
    lemma_charts_agree_through([(0, 3), (1, 2), (1, 3)], heap_table(2), [(1, 2), (0, 3), (1, 3)], heap_table(18), 17, (1, 4, 0, 5, 2, 7, 3, 6));
}

proof fn lemma_chart_1363()
    ensures
        chart_signature([(1, 2), (0, 3), (1, 3)], heap_table(19)) == chart_signature([(0, 3), (1, 2), (1, 3)], heap_table(8)),
{
    lemma_heap_entries();
    lemma_codes_of_word_56(heap_table(19));
    lemma_codes_of_word_5(heap_table(8));
    lemma_charts_agree_through([(0, 3), (1, 2), (1, 3)], heap_table(8), [(1, 2), (0, 3), (1, 3)], heap_table(19), 17, (1, 4, 0, 5, 2, 7, 3, 6));
}

proof fn lemma_chart_1364()
    ensures
        chart_signature([(1, 2), (0, 3), (1, 3)], heap_table(20)) == chart_signature([(0, 3), (1, 2), (1, 3)], heap_table(14)),
{
    lemma_heap_entries();
    lemma_codes_of_word_56(heap_table(20));
    lemma_codes_of_word_5(heap_table(14));
    lemma_charts_agree_through([(0, 3), (1, 2), (1, 3)], heap_table(14), [(1, 2), (0, 3), (1, 3)], heap_table(20), 17, (1, 4, 0, 5, 2, 7, 3, 6));
}

proof fn lemma_chart_1365()
    ensures
        chart_signature([(1, 2), (0, 3), (1, 3)], heap_table(21)) == chart_signature([(0, 3), (1, 2), (1, 3)], heap_table(2)),
{
    lemma_heap_entries();
    lemma_codes_of_word_56(heap_table(21));
    lemma_codes_of_word_5(heap_table(2));
    lemma_charts_agree_through([(0, 3), (1, 2), (1, 3)], heap_table(2), [(1, 2), (0, 3), (1, 3)], heap_table(21), 19, (4, 1, 2, 7, 0, 5, 6, 3));
}

proof fn lemma_chart_1366()
    ensures
        chart_signature([(1, 2), (0, 3), (1, 3)], heap_table(22)) == chart_signature([(0, 3), (1, 2), (1, 3)], heap_table(8)),
{
    lemma_heap_entries();
    lemma_codes_of_word_56(heap_table(22));
    lemma_codes_of_word_5(heap_table(8));
    lemma_charts_agree_through([(0, 3), (1, 2), (1, 3)], heap_table(8), [(1, 2), (0, 3), (1, 3)], heap_table(22), 19, (4, 1, 2, 7, 0, 5, 6, 3));
}

proof fn lemma_chart_1367()
    ensures
        chart_signature([(1, 2), (0, 3), (1, 3)], heap_table(23)) == chart_signature([(0, 3), (1, 2), (1, 3)], heap_table(14)),
{
    lemma_heap_entries();
    lemma_codes_of_word_56(heap_table(23));
    lemma_codes_of_word_5(heap_table(14));
    lemma_charts_agree_through([(0, 3), (1, 2), (1, 3)], heap_table(14), [(1, 2), (0, 3), (1, 3)], heap_table(23), 19, (4, 1, 2, 7, 0, 5, 6, 3));
}

/// Every chart of atlas word 56 shares its signature with the first chart
/// of a class below 216.
pub proof fn lemma_charts_of_word_56()
    ensures
        forall|t: int| 1344 <= t < 1368 ==> #[trigger] meets_class_below(t, 216),
{
    lemma_census_words();
    assert forall|t: int| 1344 <= t < 1368 implies #[trigger] meets_class_below(t, 216) by {
        if t == 1344 { lemma_chart_1344(); assert(atlas_signatures()[class_rep(54)] == atlas_signatures()[1344]); }
        else if t == 1345 { lemma_chart_1345(); assert(atlas_signatures()[class_rep(55)] == atlas_signatures()[1345]); }
        else if t == 1346 { lemma_chart_1346(); assert(atlas_signatures()[class_rep(56)] == atlas_signatures()[1346]); }
        else if t == 1347 { lemma_chart_1347(); assert(atlas_signatures()[class_rep(54)] == atlas_signatures()[1347]); }
        else if t == 1348 { lemma_chart_1348(); assert(atlas_signatures()[class_rep(55)] == atlas_signatures()[1348]); }
        else if t == 1349 { lemma_chart_1349(); assert(atlas_signatures()[class_rep(56)] == atlas_signatures()[1349]); }
        else if t == 1350 { lemma_chart_1350(); assert(atlas_signatures()[class_rep(54)] == atlas_signatures()[1350]); }
        else if t == 1351 { lemma_chart_1351(); assert(atlas_signatures()[class_rep(57)] == atlas_signatures()[1351]); }
        else if t == 1352 { lemma_chart_1352(); assert(atlas_signatures()[class_rep(58)] == atlas_signatures()[1352]); }
        else if t == 1353 { lemma_chart_1353(); assert(atlas_signatures()[class_rep(54)] == atlas_signatures()[1353]); }
        else if t == 1354 { lemma_chart_1354(); assert(atlas_signatures()[class_rep(57)] == atlas_signatures()[1354]); }
        else if t == 1355 { lemma_chart_1355(); assert(atlas_signatures()[class_rep(58)] == atlas_signatures()[1355]); }
        else if t == 1356 { lemma_chart_1356(); assert(atlas_signatures()[class_rep(55)] == atlas_signatures()[1356]); }
        else if t == 1357 { lemma_chart_1357(); assert(atlas_signatures()[class_rep(57)] == atlas_signatures()[1357]); }
        else if t == 1358 { lemma_chart_1358(); assert(atlas_signatures()[class_rep(59)] == atlas_signatures()[1358]); }
        else if t == 1359 { lemma_chart_1359(); assert(atlas_signatures()[class_rep(55)] == atlas_signatures()[1359]); }
        else if t == 1360 { lemma_chart_1360(); assert(atlas_signatures()[class_rep(57)] == atlas_signatures()[1360]); }
        else if t == 1361 { lemma_chart_1361(); assert(atlas_signatures()[class_rep(59)] == atlas_signatures()[1361]); }
        else if t == 1362 { lemma_chart_1362(); assert(atlas_signatures()[class_rep(56)] == atlas_signatures()[1362]); }
        else if t == 1363 { lemma_chart_1363(); assert(atlas_signatures()[class_rep(58)] == atlas_signatures()[1363]); }
        else if t == 1364 { lemma_chart_1364(); assert(atlas_signatures()[class_rep(59)] == atlas_signatures()[1364]); }
        else if t == 1365 { lemma_chart_1365(); assert(atlas_signatures()[class_rep(56)] == atlas_signatures()[1365]); }
        else if t == 1366 { lemma_chart_1366(); assert(atlas_signatures()[class_rep(58)] == atlas_signatures()[1366]); }
        else { lemma_chart_1367(); assert(atlas_signatures()[class_rep(59)] == atlas_signatures()[1367]); }
    }
}

proof fn lemma_chart_1368()
    ensures
        chart_signature([(1, 2), (0, 3), (2, 3)], heap_table(0)) == chart_signature([(0, 2), (1, 3), (2, 3)], heap_table(15)),
{
    lemma_heap_entries();
    lemma_codes_of_word_57(heap_table(0));
    lemma_codes_of_word_13(heap_table(15));
    lemma_charts_agree_through([(0, 2), (1, 3), (2, 3)], heap_table(15), [(1, 2), (0, 3), (2, 3)], heap_table(0), 23, (7, 5, 6, 4, 3, 1, 2, 0));
}

proof fn lemma_chart_1369()
    ensures
        chart_signature([(1, 2), (0, 3), (2, 3)], heap_table(1)) == chart_signature([(0, 2), (1, 3), (2, 3)], heap_table(9)),
{
    lemma_heap_entries();
    lemma_codes_of_word_57(heap_table(1));
    lemma_codes_of_word_13(heap_table(9));
    lemma_charts_agree_through([(0, 2), (1, 3), (2, 3)], heap_table(9), [(1, 2), (0, 3), (2, 3)], heap_table(1), 23, (7, 5, 6, 4, 3, 1, 2, 0));
}

proof fn lemma_chart_1370()
    ensures
        chart_signature([(1, 2), (0, 3), (2, 3)], heap_table(2)) == chart_signature([(0, 2), (1, 3), (2, 3)], heap_table(6)),
{
    lemma_heap_entries();
    lemma_codes_of_word_57(heap_table(2));
    lemma_codes_of_word_13(heap_table(6));
    lemma_charts_agree_through([(0, 2), (1, 3), (2, 3)], heap_table(6), [(1, 2), (0, 3), (2, 3)], heap_table(2), 23, (7, 5, 6, 4, 3, 1, 2, 0));
}

proof fn lemma_chart_1371()
    ensures
        chart_signature([(1, 2), (0, 3), (2, 3)], heap_table(3)) == chart_signature([(0, 2), (1, 3), (2, 3)], heap_table(15)),
{
    lemma_heap_entries();
    lemma_codes_of_word_57(heap_table(3));
    lemma_codes_of_word_13(heap_table(15));
    lemma_charts_agree_through([(0, 2), (1, 3), (2, 3)], heap_table(15), [(1, 2), (0, 3), (2, 3)], heap_table(3), 21, (5, 7, 3, 1, 6, 4, 0, 2));
}

proof fn lemma_chart_1372()
    ensures
        chart_signature([(1, 2), (0, 3), (2, 3)], heap_table(4)) == chart_signature([(0, 2), (1, 3), (2, 3)], heap_table(9)),
{
    lemma_heap_entries();
    lemma_codes_of_word_57(heap_table(4));
    lemma_codes_of_word_13(heap_table(9));
    lemma_charts_agree_through([(0, 2), (1, 3), (2, 3)], heap_table(9), [(1, 2), (0, 3), (2, 3)], heap_table(4), 21, (5, 7, 3, 1, 6, 4, 0, 2));
}

proof fn lemma_chart_1373()
    ensures
        chart_signature([(1, 2), (0, 3), (2, 3)], heap_table(5)) == chart_signature([(0, 2), (1, 3), (2, 3)], heap_table(6)),
{
    lemma_heap_entries();
    lemma_codes_of_word_57(heap_table(5));
    lemma_codes_of_word_13(heap_table(6));
    lemma_charts_agree_through([(0, 2), (1, 3), (2, 3)], heap_table(6), [(1, 2), (0, 3), (2, 3)], heap_table(5), 21, (5, 7, 3, 1, 6, 4, 0, 2));
}

proof fn lemma_chart_1374()
    ensures
        chart_signature([(1, 2), (0, 3), (2, 3)], heap_table(6)) == chart_signature([(0, 2), (1, 3), (2, 3)], heap_table(15)),
{
    lemma_heap_entries();
    lemma_codes_of_word_57(heap_table(6));
    lemma_codes_of_word_13(heap_table(15));
    lemma_charts_agree_through([(0, 2), (1, 3), (2, 3)], heap_table(15), [(1, 2), (0, 3), (2, 3)], heap_table(6), 22, (6, 3, 7, 2, 5, 0, 4, 1));
}

proof fn lemma_chart_1375()
    ensures
        chart_signature([(1, 2), (0, 3), (2, 3)], heap_table(7)) == chart_signature([(0, 2), (1, 3), (2, 3)], heap_table(3)),
{
    lemma_heap_entries();
    lemma_codes_of_word_57(heap_table(7));
    lemma_codes_of_word_13(heap_table(3));
    lemma_charts_agree_through([(0, 2), (1, 3), (2, 3)], heap_table(3), [(1, 2), (0, 3), (2, 3)], heap_table(7), 23, (7, 5, 6, 4, 3, 1, 2, 0));
}

proof fn lemma_chart_1376()
    ensures
        chart_signature([(1, 2), (0, 3), (2, 3)], heap_table(8)) == chart_signature([(0, 2), (1, 3), (2, 3)], heap_table(0)),
{
    lemma_heap_entries();
    lemma_codes_of_word_57(heap_table(8));
    lemma_codes_of_word_13(heap_table(0));
    lemma_charts_agree_through([(0, 2), (1, 3), (2, 3)], heap_table(0), [(1, 2), (0, 3), (2, 3)], heap_table(8), 23, (7, 5, 6, 4, 3, 1, 2, 0));
}

proof fn lemma_chart_1377()
    ensures
        chart_signature([(1, 2), (0, 3), (2, 3)], heap_table(9)) == chart_signature([(0, 2), (1, 3), (2, 3)], heap_table(15)),
{
    lemma_heap_entries();
    lemma_codes_of_word_57(heap_table(9));
    lemma_codes_of_word_13(heap_table(15));
    lemma_charts_agree_through([(0, 2), (1, 3), (2, 3)], heap_table(15), [(1, 2), (0, 3), (2, 3)], heap_table(9), 20, (3, 6, 5, 0, 7, 2, 1, 4));
}

proof fn lemma_chart_1378()
    ensures
        chart_signature([(1, 2), (0, 3), (2, 3)], heap_table(10)) == chart_signature([(0, 2), (1, 3), (2, 3)], heap_table(3)),
{
    lemma_heap_entries();
    lemma_codes_of_word_57(heap_table(10));
    lemma_codes_of_word_13(heap_table(3));
    lemma_charts_agree_through([(0, 2), (1, 3), (2, 3)], heap_table(3), [(1, 2), (0, 3), (2, 3)], heap_table(10), 21, (5, 7, 3, 1, 6, 4, 0, 2));
}

proof fn lemma_chart_1379()
    ensures
        chart_signature([(1, 2), (0, 3), (2, 3)], heap_table(11)) == chart_signature([(0, 2), (1, 3), (2, 3)], heap_table(0)),
{
    lemma_heap_entries();
    lemma_codes_of_word_57(heap_table(11));
    lemma_codes_of_word_13(heap_table(0));
    lemma_charts_agree_through([(0, 2), (1, 3), (2, 3)], heap_table(0), [(1, 2), (0, 3), (2, 3)], heap_table(11), 21, (5, 7, 3, 1, 6, 4, 0, 2));
}

proof fn lemma_chart_1380()
    ensures
        chart_signature([(1, 2), (0, 3), (2, 3)], heap_table(12)) == chart_signature([(0, 2), (1, 3), (2, 3)], heap_table(9)),
{
    lemma_heap_entries();
    lemma_codes_of_word_57(heap_table(12));
    lemma_codes_of_word_13(heap_table(9));
    lemma_charts_agree_through([(0, 2), (1, 3), (2, 3)], heap_table(9), [(1, 2), (0, 3), (2, 3)], heap_table(12), 22, (6, 3, 7, 2, 5, 0, 4, 1));
}

proof fn lemma_chart_1381()
    ensures
        chart_signature([(1, 2), (0, 3), (2, 3)], heap_table(13)) == chart_signature([(0, 2), (1, 3), (2, 3)], heap_table(3)),
{
    lemma_heap_entries();
    lemma_codes_of_word_57(heap_table(13));
    lemma_codes_of_word_13(heap_table(3));
    lemma_charts_agree_through([(0, 2), (1, 3), (2, 3)], heap_table(3), [(1, 2), (0, 3), (2, 3)], heap_table(13), 22, (6, 3, 7, 2, 5, 0, 4, 1));
}

proof fn lemma_chart_1382()
    ensures
        chart_signature([(1, 2), (0, 3), (2, 3)], heap_table(14)) == chart_signature([(0, 2), (1, 3), (2, 3)], heap_table(1)),
{
    lemma_heap_entries();
    lemma_codes_of_word_57(heap_table(14));
    lemma_codes_of_word_13(heap_table(1));
    lemma_charts_agree_through([(0, 2), (1, 3), (2, 3)], heap_table(1), [(1, 2), (0, 3), (2, 3)], heap_table(14), 23, (7, 5, 6, 4, 3, 1, 2, 0));
}

proof fn lemma_chart_1383()
    ensures
        chart_signature([(1, 2), (0, 3), (2, 3)], heap_table(15)) == chart_signature([(0, 2), (1, 3), (2, 3)], heap_table(9)),
{
    lemma_heap_entries();
    lemma_codes_of_word_57(heap_table(15));
    lemma_codes_of_word_13(heap_table(9));
    lemma_charts_agree_through([(0, 2), (1, 3), (2, 3)], heap_table(9), [(1, 2), (0, 3), (2, 3)], heap_table(15), 20, (3, 6, 5, 0, 7, 2, 1, 4));
}

proof fn lemma_chart_1384()
    ensures
        chart_signature([(1, 2), (0, 3), (2, 3)], heap_table(16)) == chart_signature([(0, 2), (1, 3), (2, 3)], heap_table(3)),
{
    lemma_heap_entries();
    lemma_codes_of_word_57(heap_table(16));
    lemma_codes_of_word_13(heap_table(3));
    lemma_charts_agree_through([(0, 2), (1, 3), (2, 3)], heap_table(3), [(1, 2), (0, 3), (2, 3)], heap_table(16), 20, (3, 6, 5, 0, 7, 2, 1, 4));
}

proof fn lemma_chart_1385()
    ensures
        chart_signature([(1, 2), (0, 3), (2, 3)], heap_table(17)) == chart_signature([(0, 2), (1, 3), (2, 3)], heap_table(1)),
{
    lemma_heap_entries();
    lemma_codes_of_word_57(heap_table(17));
    lemma_codes_of_word_13(heap_table(1));
    lemma_charts_agree_through([(0, 2), (1, 3), (2, 3)], heap_table(1), [(1, 2), (0, 3), (2, 3)], heap_table(17), 21, (5, 7, 3, 1, 6, 4, 0, 2));
}

proof fn lemma_chart_1386()
    ensures
        chart_signature([(1, 2), (0, 3), (2, 3)], heap_table(18)) == chart_signature([(0, 2), (1, 3), (2, 3)], heap_table(6)),
{
    lemma_heap_entries();
    lemma_codes_of_word_57(heap_table(18));
    lemma_codes_of_word_13(heap_table(6));
    lemma_charts_agree_through([(0, 2), (1, 3), (2, 3)], heap_table(6), [(1, 2), (0, 3), (2, 3)], heap_table(18), 22, (6, 3, 7, 2, 5, 0, 4, 1));
}

proof fn lemma_chart_1387()
    ensures
        chart_signature([(1, 2), (0, 3), (2, 3)], heap_table(19)) == chart_signature([(0, 2), (1, 3), (2, 3)], heap_table(0)),
{
    lemma_heap_entries();
    lemma_codes_of_word_57(heap_table(19));
    lemma_codes_of_word_13(heap_table(0));
    lemma_charts_agree_through([(0, 2), (1, 3), (2, 3)], heap_table(0), [(1, 2), (0, 3), (2, 3)], heap_table(19), 22, (6, 3, 7, 2, 5, 0, 4, 1));
}

proof fn lemma_chart_1388()
    ensures
        chart_signature([(1, 2), (0, 3), (2, 3)], heap_table(20)) == chart_signature([(0, 2), (1, 3), (2, 3)], heap_table(1)),
{
    lemma_heap_entries();
    lemma_codes_of_word_57(heap_table(20));
    lemma_codes_of_word_13(heap_table(1));
    lemma_charts_agree_through([(0, 2), (1, 3), (2, 3)], heap_table(1), [(1, 2), (0, 3), (2, 3)], heap_table(20), 22, (6, 3, 7, 2, 5, 0, 4, 1));
}

proof fn lemma_chart_1389()
    ensures
        chart_signature([(1, 2), (0, 3), (2, 3)], heap_table(21)) == chart_signature([(0, 2), (1, 3), (2, 3)], heap_table(6)),
{
    lemma_heap_entries();
    lemma_codes_of_word_57(heap_table(21));
    lemma_codes_of_word_13(heap_table(6));
    lemma_charts_agree_through([(0, 2), (1, 3), (2, 3)], heap_table(6), [(1, 2), (0, 3), (2, 3)], heap_table(21), 20, (3, 6, 5, 0, 7, 2, 1, 4));
}

proof fn lemma_chart_1390()
    ensures
        chart_signature([(1, 2), (0, 3), (2, 3)], heap_table(22)) == chart_signature([(0, 2), (1, 3), (2, 3)], heap_table(0)),
{
    lemma_heap_entries();
    lemma_codes_of_word_57(heap_table(22));
    lemma_codes_of_word_13(heap_table(0));
    lemma_charts_agree_through([(0, 2), (1, 3), (2, 3)], heap_table(0), [(1, 2), (0, 3), (2, 3)], heap_table(22), 20, (3, 6, 5, 0, 7, 2, 1, 4));
}

proof fn lemma_chart_1391()
    ensures
        chart_signature([(1, 2), (0, 3), (2, 3)], heap_table(23)) == chart_signature([(0, 2), (1, 3), (2, 3)], heap_table(1)),
{
    lemma_heap_entries();
    lemma_codes_of_word_57(heap_table(23));
    lemma_codes_of_word_13(heap_table(1));
    lemma_charts_agree_through([(0, 2), (1, 3), (2, 3)], heap_table(1), [(1, 2), (0, 3), (2, 3)], heap_table(23), 20, (3, 6, 5, 0, 7, 2, 1, 4));
}

/// Every chart of atlas word 57 shares its signature with the first chart
/// of a class below 216.
pub proof fn lemma_charts_of_word_57()
    ensures
        forall|t: int| 1368 <= t < 1392 ==> #[trigger] meets_class_below(t, 216),
{
    lemma_census_words();
    assert forall|t: int| 1368 <= t < 1392 implies #[trigger] meets_class_below(t, 216) by {
        if t == 1368 { lemma_chart_1368(); assert(atlas_signatures()[class_rep(101)] == atlas_signatures()[1368]); }
        else if t == 1369 { lemma_chart_1369(); assert(atlas_signatures()[class_rep(100)] == atlas_signatures()[1369]); }
        else if t == 1370 { lemma_chart_1370(); assert(atlas_signatures()[class_rep(99)] == atlas_signatures()[1370]); }
        else if t == 1371 { lemma_chart_1371(); assert(atlas_signatures()[class_rep(101)] == atlas_signatures()[1371]); }
        else if t == 1372 { lemma_chart_1372(); assert(atlas_signatures()[class_rep(100)] == atlas_signatures()[1372]); }
        else if t == 1373 { lemma_chart_1373(); assert(atlas_signatures()[class_rep(99)] == atlas_signatures()[1373]); }
        else if t == 1374 { lemma_chart_1374(); assert(atlas_signatures()[class_rep(101)] == atlas_signatures()[1374]); }
        else if t == 1375 { lemma_chart_1375(); assert(atlas_signatures()[class_rep(98)] == atlas_signatures()[1375]); }
        else if t == 1376 { lemma_chart_1376(); assert(atlas_signatures()[class_rep(96)] == atlas_signatures()[1376]); }
        else if t == 1377 { lemma_chart_1377(); assert(atlas_signatures()[class_rep(101)] == atlas_signatures()[1377]); }
        else if t == 1378 { lemma_chart_1378(); assert(atlas_signatures()[class_rep(98)] == atlas_signatures()[1378]); }
        else if t == 1379 { lemma_chart_1379(); assert(atlas_signatures()[class_rep(96)] == atlas_signatures()[1379]); }
        else if t == 1380 { lemma_chart_1380(); assert(atlas_signatures()[class_rep(100)] == atlas_signatures()[1380]); }
        else if t == 1381 { lemma_chart_1381(); assert(atlas_signatures()[class_rep(98)] == atlas_signatures()[1381]); }
        else if t == 1382 { lemma_chart_1382(); assert(atlas_signatures()[class_rep(97)] == atlas_signatures()[1382]); }
        else if t == 1383 { lemma_chart_1383(); assert(atlas_signatures()[class_rep(100)] == atlas_signatures()[1383]); }
        else if t == 1384 { lemma_chart_1384(); assert(atlas_signatures()[class_rep(98)] == atlas_signatures()[1384]); }
        else if t == 1385 { lemma_chart_1385(); assert(atlas_signatures()[class_rep(97)] == atlas_signatures()[1385]); }
        else if t == 1386 { lemma_chart_1386(); assert(atlas_signatures()[class_rep(99)] == atlas_signatures()[1386]); }
        else if t == 1387 { lemma_chart_1387(); assert(atlas_signatures()[class_rep(96)] == atlas_signatures()[1387]); }
        else if t == 1388 { lemma_chart_1388(); assert(atlas_signatures()[class_rep(97)] == atlas_signatures()[1388]); }
        else if t == 1389 { lemma_chart_1389(); assert(atlas_signatures()[class_rep(99)] == atlas_signatures()[1389]); }
        else if t == 1390 { lemma_chart_1390(); assert(atlas_signatures()[class_rep(96)] == atlas_signatures()[1390]); }
        else { lemma_chart_1391(); assert(atlas_signatures()[class_rep(97)] == atlas_signatures()[1391]); }
    }
}

proof fn lemma_chart_1392()
    ensures
        chart_signature([(1, 2), (1, 3), (0, 1)], heap_table(0)) == chart_signature([(0, 2), (0, 3), (0, 1)], heap_table(1)),
{
    lemma_heap_entries();
    lemma_codes_of_word_58(heap_table(0));
    lemma_codes_of_word_27(heap_table(1));
    lemma_charts_agree_through([(0, 2), (0, 3), (0, 1)], heap_table(1), [(1, 2), (1, 3), (0, 1)], heap_table(0), 4, (3, 5, 6, 0, 7, 1, 2, 4));
}

proof fn lemma_chart_1393()
    ensures
        chart_signature([(1, 2), (1, 3), (0, 1)], heap_table(1)) == chart_signature([(0, 2), (0, 3), (0, 1)], heap_table(0)),
{
    lemma_heap_entries();
    lemma_codes_of_word_58(heap_table(1));
    lemma_codes_of_word_27(heap_table(0));
    lemma_charts_agree_through([(0, 2), (0, 3), (0, 1)], heap_table(0), [(1, 2), (1, 3), (0, 1)], heap_table(1), 4, (3, 5, 6, 0, 7, 1, 2, 4));
}

proof fn lemma_chart_1394()
    ensures
        chart_signature([(1, 2), (1, 3), (0, 1)], heap_table(2)) == chart_signature([(0, 2), (0, 3), (0, 1)], heap_table(3)),
{
    lemma_heap_entries();
    lemma_codes_of_word_58(heap_table(2));
    lemma_codes_of_word_27(heap_table(3));
    lemma_charts_agree_through([(0, 2), (0, 3), (0, 1)], heap_table(3), [(1, 2), (1, 3), (0, 1)], heap_table(2), 4, (3, 5, 6, 0, 7, 1, 2, 4));
}

proof fn lemma_chart_1395()
    ensures
        chart_signature([(1, 2), (1, 3), (0, 1)], heap_table(3)) == chart_signature([(0, 2), (0, 3), (0, 1)], heap_table(1)),
{
    lemma_heap_entries();
    lemma_codes_of_word_58(heap_table(3));
    lemma_codes_of_word_27(heap_table(1));
    lemma_charts_agree_through([(0, 2), (0, 3), (0, 1)], heap_table(1), [(1, 2), (1, 3), (0, 1)], heap_table(3), 5, (5, 3, 7, 1, 6, 0, 4, 2));
}

proof fn lemma_chart_1396()
    ensures
        chart_signature([(1, 2), (1, 3), (0, 1)], heap_table(4)) == chart_signature([(0, 2), (0, 3), (0, 1)], heap_table(0)),
{
    lemma_heap_entries();
    lemma_codes_of_word_58(heap_table(4));
    lemma_codes_of_word_27(heap_table(0));
    lemma_charts_agree_through([(0, 2), (0, 3), (0, 1)], heap_table(0), [(1, 2), (1, 3), (0, 1)], heap_table(4), 5, (5, 3, 7, 1, 6, 0, 4, 2));
}

proof fn lemma_chart_1397()
    ensures
        chart_signature([(1, 2), (1, 3), (0, 1)], heap_table(5)) == chart_signature([(0, 2), (0, 3), (0, 1)], heap_table(3)),
{
    lemma_heap_entries();
    lemma_codes_of_word_58(heap_table(5));
    lemma_codes_of_word_27(heap_table(3));
    lemma_charts_agree_through([(0, 2), (0, 3), (0, 1)], heap_table(3), [(1, 2), (1, 3), (0, 1)], heap_table(5), 5, (5, 3, 7, 1, 6, 0, 4, 2));
}

proof fn lemma_chart_1398()
    ensures
        chart_signature([(1, 2), (1, 3), (0, 1)], heap_table(6)) == chart_signature([(0, 2), (0, 3), (0, 1)], heap_table(7)),
{
    lemma_heap_entries();
    lemma_codes_of_word_58(heap_table(6));
    lemma_codes_of_word_27(heap_table(7));
    lemma_charts_agree_through([(0, 2), (0, 3), (0, 1)], heap_table(7), [(1, 2), (1, 3), (0, 1)], heap_table(6), 4, (3, 5, 6, 0, 7, 1, 2, 4));
}

proof fn lemma_chart_1399()
    ensures
        chart_signature([(1, 2), (1, 3), (0, 1)], heap_table(7)) == chart_signature([(0, 2), (0, 3), (0, 1)], heap_table(6)),
{
    lemma_heap_entries();
    lemma_codes_of_word_58(heap_table(7));
    lemma_codes_of_word_27(heap_table(6));
    lemma_charts_agree_through([(0, 2), (0, 3), (0, 1)], heap_table(6), [(1, 2), (1, 3), (0, 1)], heap_table(7), 4, (3, 5, 6, 0, 7, 1, 2, 4));
}

proof fn lemma_chart_1400()
    ensures
        chart_signature([(1, 2), (1, 3), (0, 1)], heap_table(8)) == chart_signature([(0, 2), (0, 3), (0, 1)], heap_table(9)),
{
    lemma_heap_entries();
    lemma_codes_of_word_58(heap_table(8));
    lemma_codes_of_word_27(heap_table(9));
    lemma_charts_agree_through([(0, 2), (0, 3), (0, 1)], heap_table(9), [(1, 2), (1, 3), (0, 1)], heap_table(8), 4, (3, 5, 6, 0, 7, 1, 2, 4));
}

proof fn lemma_chart_1401()
    ensures
        chart_signature([(1, 2), (1, 3), (0, 1)], heap_table(9)) == chart_signature([(0, 2), (0, 3), (0, 1)], heap_table(7)),
{
    lemma_heap_entries();
    lemma_codes_of_word_58(heap_table(9));
    lemma_codes_of_word_27(heap_table(7));
    lemma_charts_agree_through([(0, 2), (0, 3), (0, 1)], heap_table(7), [(1, 2), (1, 3), (0, 1)], heap_table(9), 5, (5, 3, 7, 1, 6, 0, 4, 2));
}

proof fn lemma_chart_1402()
    ensures
        chart_signature([(1, 2), (1, 3), (0, 1)], heap_table(10)) == chart_signature([(0, 2), (0, 3), (0, 1)], heap_table(6)),
{
    lemma_heap_entries();
    lemma_codes_of_word_58(heap_table(10));
    lemma_codes_of_word_27(heap_table(6));
    lemma_charts_agree_through([(0, 2), (0, 3), (0, 1)], heap_table(6), [(1, 2), (1, 3), (0, 1)], heap_table(10), 5, (5, 3, 7, 1, 6, 0, 4, 2));
}

proof fn lemma_chart_1403()
    ensures
        chart_signature([(1, 2), (1, 3), (0, 1)], heap_table(11)) == chart_signature([(0, 2), (0, 3), (0, 1)], heap_table(9)),
{
    lemma_heap_entries();
    lemma_codes_of_word_58(heap_table(11));
    lemma_codes_of_word_27(heap_table(9));
    lemma_charts_agree_through([(0, 2), (0, 3), (0, 1)], heap_table(9), [(1, 2), (1, 3), (0, 1)], heap_table(11), 5, (5, 3, 7, 1, 6, 0, 4, 2));
}

proof fn lemma_chart_1404()
    ensures
        chart_signature([(1, 2), (1, 3), (0, 1)], heap_table(12)) == chart_signature([(0, 2), (0, 3), (0, 1)], heap_table(13)),
{
    lemma_heap_entries();
    lemma_codes_of_word_58(heap_table(12));
    lemma_codes_of_word_27(heap_table(13));
    lemma_charts_agree_through([(0, 2), (0, 3), (0, 1)], heap_table(13), [(1, 2), (1, 3), (0, 1)], heap_table(12), 4, (3, 5, 6, 0, 7, 1, 2, 4));
}

proof fn lemma_chart_1405()
    ensures
        chart_signature([(1, 2), (1, 3), (0, 1)], heap_table(13)) == chart_signature([(0, 2), (0, 3), (0, 1)], heap_table(12)),
{
    lemma_heap_entries();
    lemma_codes_of_word_58(heap_table(13));
    lemma_codes_of_word_27(heap_table(12));
    lemma_charts_agree_through([(0, 2), (0, 3), (0, 1)], heap_table(12), [(1, 2), (1, 3), (0, 1)], heap_table(13), 4, (3, 5, 6, 0, 7, 1, 2, 4));
}

proof fn lemma_chart_1406()
    ensures
        chart_signature([(1, 2), (1, 3), (0, 1)], heap_table(14)) == chart_signature([(0, 2), (0, 3), (0, 1)], heap_table(15)),
{
    lemma_heap_entries();
    lemma_codes_of_word_58(heap_table(14));
    lemma_codes_of_word_27(heap_table(15));
    lemma_charts_agree_through([(0, 2), (0, 3), (0, 1)], heap_table(15), [(1, 2), (1, 3), (0, 1)], heap_table(14), 4, (3, 5, 6, 0, 7, 1, 2, 4));
}

proof fn lemma_chart_1407()
    ensures
        chart_signature([(1, 2), (1, 3), (0, 1)], heap_table(15)) == chart_signature([(0, 2), (0, 3), (0, 1)], heap_table(13)),
{
    lemma_heap_entries();
    lemma_codes_of_word_58(heap_table(15));
    lemma_codes_of_word_27(heap_table(13));
    lemma_charts_agree_through([(0, 2), (0, 3), (0, 1)], heap_table(13), [(1, 2), (1, 3), (0, 1)], heap_table(15), 5, (5, 3, 7, 1, 6, 0, 4, 2));
}

proof fn lemma_chart_1408()
    ensures
        chart_signature([(1, 2), (1, 3), (0, 1)], heap_table(16)) == chart_signature([(0, 2), (0, 3), (0, 1)], heap_table(12)),
{
    lemma_heap_entries();
    lemma_codes_of_word_58(heap_table(16));
    lemma_codes_of_word_27(heap_table(12));
    lemma_charts_agree_through([(0, 2), (0, 3), (0, 1)], heap_table(12), [(1, 2), (1, 3), (0, 1)], heap_table(16), 5, (5, 3, 7, 1, 6, 0, 4, 2));
}

proof fn lemma_chart_1409()
    ensures
        chart_signature([(1, 2), (1, 3), (0, 1)], heap_table(17)) == chart_signature([(0, 2), (0, 3), (0, 1)], heap_table(15)),
{
    lemma_heap_entries();
    lemma_codes_of_word_58(heap_table(17));
    lemma_codes_of_word_27(heap_table(15));
    lemma_charts_agree_through([(0, 2), (0, 3), (0, 1)], heap_table(15), [(1, 2), (1, 3), (0, 1)], heap_table(17), 5, (5, 3, 7, 1, 6, 0, 4, 2));
}

proof fn lemma_chart_1410()
    ensures
        chart_signature([(1, 2), (1, 3), (0, 1)], heap_table(18)) == chart_signature([(0, 2), (0, 3), (0, 1)], heap_table(19)),
{
    lemma_heap_entries();
    lemma_codes_of_word_58(heap_table(18));
    lemma_codes_of_word_27(heap_table(19));
    lemma_charts_agree_through([(0, 2), (0, 3), (0, 1)], heap_table(19), [(1, 2), (1, 3), (0, 1)], heap_table(18), 4, (3, 5, 6, 0, 7, 1, 2, 4));
}

proof fn lemma_chart_1411()
    ensures
        chart_signature([(1, 2), (1, 3), (0, 1)], heap_table(19)) == chart_signature([(0, 2), (0, 3), (0, 1)], heap_table(18)),
{
    lemma_heap_entries();
    lemma_codes_of_word_58(heap_table(19));
    lemma_codes_of_word_27(heap_table(18));
    lemma_charts_agree_through([(0, 2), (0, 3), (0, 1)], heap_table(18), [(1, 2), (1, 3), (0, 1)], heap_table(19), 4, (3, 5, 6, 0, 7, 1, 2, 4));
}

proof fn lemma_chart_1412()
    ensures
        chart_signature([(1, 2), (1, 3), (0, 1)], heap_table(20)) == chart_signature([(0, 2), (0, 3), (0, 1)], heap_table(21)),
{
    lemma_heap_entries();
    lemma_codes_of_word_58(heap_table(20));
    lemma_codes_of_word_27(heap_table(21));
    lemma_charts_agree_through([(0, 2), (0, 3), (0, 1)], heap_table(21), [(1, 2), (1, 3), (0, 1)], heap_table(20), 4, (3, 5, 6, 0, 7, 1, 2, 4));
}

proof fn lemma_chart_1413()
    ensures
        chart_signature([(1, 2), (1, 3), (0, 1)], heap_table(21)) == chart_signature([(0, 2), (0, 3), (0, 1)], heap_table(19)),
{
    lemma_heap_entries();
    lemma_codes_of_word_58(heap_table(21));
    lemma_codes_of_word_27(heap_table(19));
    lemma_charts_agree_through([(0, 2), (0, 3), (0, 1)], heap_table(19), [(1, 2), (1, 3), (0, 1)], heap_table(21), 5, (5, 3, 7, 1, 6, 0, 4, 2));
}

proof fn lemma_chart_1414()
    ensures
        chart_signature([(1, 2), (1, 3), (0, 1)], heap_table(22)) == chart_signature([(0, 2), (0, 3), (0, 1)], heap_table(18)),
{
    lemma_heap_entries();
    lemma_codes_of_word_58(heap_table(22));
    lemma_codes_of_word_27(heap_table(18));
    lemma_charts_agree_through([(0, 2), (0, 3), (0, 1)], heap_table(18), [(1, 2), (1, 3), (0, 1)], heap_table(22), 5, (5, 3, 7, 1, 6, 0, 4, 2));
}

proof fn lemma_chart_1415()
    ensures
        chart_signature([(1, 2), (1, 3), (0, 1)], heap_table(23)) == chart_signature([(0, 2), (0, 3), (0, 1)], heap_table(21)),
{
    lemma_heap_entries();
    lemma_codes_of_word_58(heap_table(23));
    lemma_codes_of_word_27(heap_table(21));
    lemma_charts_agree_through([(0, 2), (0, 3), (0, 1)], heap_table(21), [(1, 2), (1, 3), (0, 1)], heap_table(23), 5, (5, 3, 7, 1, 6, 0, 4, 2));
}

/// Every chart of atlas word 58 shares its signature with the first chart
/// of a class below 216.
pub proof fn lemma_charts_of_word_58()
    ensures
        forall|t: int| 1392 <= t < 1416 ==> #[trigger] meets_class_below(t, 216),
{
    lemma_census_words();
    assert forall|t: int| 1392 <= t < 1416 implies #[trigger] meets_class_below(t, 216) by {
        if t == 1392 { lemma_chart_1392(); assert(atlas_signatures()[class_rep(163)] == atlas_signatures()[1392]); }
        else if t == 1393 { lemma_chart_1393(); assert(atlas_signatures()[class_rep(162)] == atlas_signatures()[1393]); }
        else if t == 1394 { lemma_chart_1394(); assert(atlas_signatures()[class_rep(164)] == atlas_signatures()[1394]); }
        else if t == 1395 { lemma_chart_1395(); assert(atlas_signatures()[class_rep(163)] == atlas_signatures()[1395]); }
        else if t == 1396 { lemma_chart_1396(); assert(atlas_signatures()[class_rep(162)] == atlas_signatures()[1396]); }
        else if t == 1397 { lemma_chart_1397(); assert(atlas_signatures()[class_rep(164)] == atlas_signatures()[1397]); }
        else if t == 1398 { lemma_chart_1398(); assert(atlas_signatures()[class_rep(166)] == atlas_signatures()[1398]); }
        else if t == 1399 { lemma_chart_1399(); assert(atlas_signatures()[class_rep(165)] == atlas_signatures()[1399]); }
        else if t == 1400 { lemma_chart_1400(); assert(atlas_signatures()[class_rep(167)] == atlas_signatures()[1400]); }
        else if t == 1401 { lemma_chart_1401(); assert(atlas_signatures()[class_rep(166)] == atlas_signatures()[1401]); }
        else if t == 1402 { lemma_chart_1402(); assert(atlas_signatures()[class_rep(165)] == atlas_signatures()[1402]); }
        else if t == 1403 { lemma_chart_1403(); assert(atlas_signatures()[class_rep(167)] == atlas_signatures()[1403]); }
        else if t == 1404 { lemma_chart_1404(); assert(atlas_signatures()[class_rep(169)] == atlas_signatures()[1404]); }
        else if t == 1405 { lemma_chart_1405(); assert(atlas_signatures()[class_rep(168)] == atlas_signatures()[1405]); }
        else if t == 1406 { lemma_chart_1406(); assert(atlas_signatures()[class_rep(170)] == atlas_signatures()[1406]); }
        else if t == 1407 { lemma_chart_1407(); assert(atlas_signatures()[class_rep(169)] == atlas_signatures()[1407]); }
        else if t == 1408 { lemma_chart_1408(); assert(atlas_signatures()[class_rep(168)] == atlas_signatures()[1408]); }
        else if t == 1409 { lemma_chart_1409(); assert(atlas_signatures()[class_rep(170)] == atlas_signatures()[1409]); }
        else if t == 1410 { lemma_chart_1410(); assert(atlas_signatures()[class_rep(172)] == atlas_signatures()[1410]); }
        else if t == 1411 { lemma_chart_1411(); assert(atlas_signatures()[class_rep(171)] == atlas_signatures()[1411]); }
        else if t == 1412 { lemma_chart_1412(); assert(atlas_signatures()[class_rep(173)] == atlas_signatures()[1412]); }
        else if t == 1413 { lemma_chart_1413(); assert(atlas_signatures()[class_rep(172)] == atlas_signatures()[1413]); }
        else if t == 1414 { lemma_chart_1414(); assert(atlas_signatures()[class_rep(171)] == atlas_signatures()[1414]); }
        else { lemma_chart_1415(); assert(atlas_signatures()[class_rep(173)] == atlas_signatures()[1415]); }
    }
}

proof fn lemma_chart_1416()
    ensures
        chart_signature([(1, 2), (1, 3), (0, 2)], heap_table(0)) == chart_signature([(0, 1), (0, 2), (1, 3)], heap_table(4)),
{
    lemma_heap_entries();
    lemma_codes_of_word_59(heap_table(0));
    lemma_codes_of_word_7(heap_table(4));
    lemma_charts_agree_through([(0, 1), (0, 2), (1, 3)], heap_table(4), [(1, 2), (1, 3), (0, 2)], heap_table(0), 11, (4, 2, 7, 1, 6, 0, 5, 3));
}

proof fn lemma_chart_1417()
    ensures
        chart_signature([(1, 2), (1, 3), (0, 2)], heap_table(1)) == chart_signature([(0, 1), (0, 2), (1, 3)], heap_table(2)),
{
    lemma_heap_entries();
    lemma_codes_of_word_59(heap_table(1));
    lemma_codes_of_word_7(heap_table(2));
    lemma_charts_agree_through([(0, 1), (0, 2), (1, 3)], heap_table(2), [(1, 2), (1, 3), (0, 2)], heap_table(1), 10, (2, 4, 6, 0, 7, 1, 3, 5));
}

proof fn lemma_chart_1418()
    ensures
        chart_signature([(1, 2), (1, 3), (0, 2)], heap_table(2)) == chart_signature([(0, 1), (0, 2), (1, 3)], heap_table(0)),
{
    lemma_heap_entries();
    lemma_codes_of_word_59(heap_table(2));
    lemma_codes_of_word_7(heap_table(0));
    lemma_charts_agree_through([(0, 1), (0, 2), (1, 3)], heap_table(0), [(1, 2), (1, 3), (0, 2)], heap_table(2), 11, (4, 2, 7, 1, 6, 0, 5, 3));
}

proof fn lemma_chart_1419()
    ensures
        chart_signature([(1, 2), (1, 3), (0, 2)], heap_table(3)) == chart_signature([(0, 1), (0, 2), (1, 3)], heap_table(4)),
{
    lemma_heap_entries();
    lemma_codes_of_word_59(heap_table(3));
    lemma_codes_of_word_7(heap_table(4));
    lemma_charts_agree_through([(0, 1), (0, 2), (1, 3)], heap_table(4), [(1, 2), (1, 3), (0, 2)], heap_table(3), 10, (2, 4, 6, 0, 7, 1, 3, 5));
}

proof fn lemma_chart_1420()
    ensures
        chart_signature([(1, 2), (1, 3), (0, 2)], heap_table(4)) == chart_signature([(0, 1), (0, 2), (1, 3)], heap_table(2)),
{
    lemma_heap_entries();
    lemma_codes_of_word_59(heap_table(4));
    lemma_codes_of_word_7(heap_table(2));
    lemma_charts_agree_through([(0, 1), (0, 2), (1, 3)], heap_table(2), [(1, 2), (1, 3), (0, 2)], heap_table(4), 11, (4, 2, 7, 1, 6, 0, 5, 3));
}

proof fn lemma_chart_1421()
    ensures
        chart_signature([(1, 2), (1, 3), (0, 2)], heap_table(5)) == chart_signature([(0, 1), (0, 2), (1, 3)], heap_table(0)),
{
    lemma_heap_entries();
    lemma_codes_of_word_59(heap_table(5));
    lemma_codes_of_word_7(heap_table(0));
    lemma_charts_agree_through([(0, 1), (0, 2), (1, 3)], heap_table(0), [(1, 2), (1, 3), (0, 2)], heap_table(5), 10, (2, 4, 6, 0, 7, 1, 3, 5));
}

proof fn lemma_chart_1422()
    ensures
        chart_signature([(1, 2), (1, 3), (0, 2)], heap_table(6)) == chart_signature([(0, 1), (0, 2), (1, 3)], heap_table(10)),
{
    lemma_heap_entries();
    lemma_codes_of_word_59(heap_table(6));
    lemma_codes_of_word_7(heap_table(10));
    lemma_charts_agree_through([(0, 1), (0, 2), (1, 3)], heap_table(10), [(1, 2), (1, 3), (0, 2)], heap_table(6), 11, (4, 2, 7, 1, 6, 0, 5, 3));
}

proof fn lemma_chart_1423()
    ensures
        chart_signature([(1, 2), (1, 3), (0, 2)], heap_table(7)) == chart_signature([(0, 1), (0, 2), (1, 3)], heap_table(8)),
{
    lemma_heap_entries();
    lemma_codes_of_word_59(heap_table(7));
    lemma_codes_of_word_7(heap_table(8));
    lemma_charts_agree_through([(0, 1), (0, 2), (1, 3)], heap_table(8), [(1, 2), (1, 3), (0, 2)], heap_table(7), 10, (2, 4, 6, 0, 7, 1, 3, 5));
}

proof fn lemma_chart_1424()
    ensures
        chart_signature([(1, 2), (1, 3), (0, 2)], heap_table(8)) == chart_signature([(0, 1), (0, 2), (1, 3)], heap_table(6)),
{
    lemma_heap_entries();
    lemma_codes_of_word_59(heap_table(8));
    lemma_codes_of_word_7(heap_table(6));
    lemma_charts_agree_through([(0, 1), (0, 2), (1, 3)], heap_table(6), [(1, 2), (1, 3), (0, 2)], heap_table(8), 11, (4, 2, 7, 1, 6, 0, 5, 3));
}

proof fn lemma_chart_1425()
    ensures
        chart_signature([(1, 2), (1, 3), (0, 2)], heap_table(9)) == chart_signature([(0, 1), (0, 2), (1, 3)], heap_table(10)),
{
    lemma_heap_entries();
    lemma_codes_of_word_59(heap_table(9));
    lemma_codes_of_word_7(heap_table(10));
    lemma_charts_agree_through([(0, 1), (0, 2), (1, 3)], heap_table(10), [(1, 2), (1, 3), (0, 2)], heap_table(9), 10, (2, 4, 6, 0, 7, 1, 3, 5));
}

proof fn lemma_chart_1426()
    ensures
        chart_signature([(1, 2), (1, 3), (0, 2)], heap_table(10)) == chart_signature([(0, 1), (0, 2), (1, 3)], heap_table(8)),
{
    lemma_heap_entries();
    lemma_codes_of_word_59(heap_table(10));
    lemma_codes_of_word_7(heap_table(8));
    lemma_charts_agree_through([(0, 1), (0, 2), (1, 3)], heap_table(8), [(1, 2), (1, 3), (0, 2)], heap_table(10), 11, (4, 2, 7, 1, 6, 0, 5, 3));
}

proof fn lemma_chart_1427()
    ensures
        chart_signature([(1, 2), (1, 3), (0, 2)], heap_table(11)) == chart_signature([(0, 1), (0, 2), (1, 3)], heap_table(6)),
{
    lemma_heap_entries();
    lemma_codes_of_word_59(heap_table(11));
    lemma_codes_of_word_7(heap_table(6));
    lemma_charts_agree_through([(0, 1), (0, 2), (1, 3)], heap_table(6), [(1, 2), (1, 3), (0, 2)], heap_table(11), 10, (2, 4, 6, 0, 7, 1, 3, 5));
}

proof fn lemma_chart_1428()
    ensures
        chart_signature([(1, 2), (1, 3), (0, 2)], heap_table(12)) == chart_signature([(0, 1), (0, 2), (1, 3)], heap_table(16)),
{
    lemma_heap_entries();
    lemma_codes_of_word_59(heap_table(12));
    lemma_codes_of_word_7(heap_table(16));
    lemma_charts_agree_through([(0, 1), (0, 2), (1, 3)], heap_table(16), [(1, 2), (1, 3), (0, 2)], heap_table(12), 11, (4, 2, 7, 1, 6, 0, 5, 3));
}

proof fn lemma_chart_1429()
    ensures
        chart_signature([(1, 2), (1, 3), (0, 2)], heap_table(13)) == chart_signature([(0, 1), (0, 2), (1, 3)], heap_table(14)),
{
    lemma_heap_entries();
    lemma_codes_of_word_59(heap_table(13));
    lemma_codes_of_word_7(heap_table(14));
    lemma_charts_agree_through([(0, 1), (0, 2), (1, 3)], heap_table(14), [(1, 2), (1, 3), (0, 2)], heap_table(13), 10, (2, 4, 6, 0, 7, 1, 3, 5));
}

proof fn lemma_chart_1430()
    ensures
        chart_signature([(1, 2), (1, 3), (0, 2)], heap_table(14)) == chart_signature([(0, 1), (0, 2), (1, 3)], heap_table(12)),
{
    lemma_heap_entries();
    lemma_codes_of_word_59(heap_table(14));
    lemma_codes_of_word_7(heap_table(12));
    lemma_charts_agree_through([(0, 1), (0, 2), (1, 3)], heap_table(12), [(1, 2), (1, 3), (0, 2)], heap_table(14), 11, (4, 2, 7, 1, 6, 0, 5, 3));
}

proof fn lemma_chart_1431()
    ensures
        chart_signature([(1, 2), (1, 3), (0, 2)], heap_table(15)) == chart_signature([(0, 1), (0, 2), (1, 3)], heap_table(16)),
{
    lemma_heap_entries();
    lemma_codes_of_word_59(heap_table(15));
    lemma_codes_of_word_7(heap_table(16));
    lemma_charts_agree_through([(0, 1), (0, 2), (1, 3)], heap_table(16), [(1, 2), (1, 3), (0, 2)], heap_table(15), 10, (2, 4, 6, 0, 7, 1, 3, 5));
}

proof fn lemma_chart_1432()
    ensures
        chart_signature([(1, 2), (1, 3), (0, 2)], heap_table(16)) == chart_signature([(0, 1), (0, 2), (1, 3)], heap_table(14)),
{
    lemma_heap_entries();
    lemma_codes_of_word_59(heap_table(16));
    lemma_codes_of_word_7(heap_table(14));
    lemma_charts_agree_through([(0, 1), (0, 2), (1, 3)], heap_table(14), [(1, 2), (1, 3), (0, 2)], heap_table(16), 11, (4, 2, 7, 1, 6, 0, 5, 3));
}

proof fn lemma_chart_1433()
    ensures
        chart_signature([(1, 2), (1, 3), (0, 2)], heap_table(17)) == chart_signature([(0, 1), (0, 2), (1, 3)], heap_table(12)),
{
    lemma_heap_entries();
    lemma_codes_of_word_59(heap_table(17));
    lemma_codes_of_word_7(heap_table(12));
    lemma_charts_agree_through([(0, 1), (0, 2), (1, 3)], heap_table(12), [(1, 2), (1, 3), (0, 2)], heap_table(17), 10, (2, 4, 6, 0, 7, 1, 3, 5));
}

proof fn lemma_chart_1434()
    ensures
        chart_signature([(1, 2), (1, 3), (0, 2)], heap_table(18)) == chart_signature([(0, 1), (0, 2), (1, 3)], heap_table(22)),
{
    lemma_heap_entries();
    lemma_codes_of_word_59(heap_table(18));
    lemma_codes_of_word_7(heap_table(22));
    lemma_charts_agree_through([(0, 1), (0, 2), (1, 3)], heap_table(22), [(1, 2), (1, 3), (0, 2)], heap_table(18), 11, (4, 2, 7, 1, 6, 0, 5, 3));
}

proof fn lemma_chart_1435()
    ensures
        chart_signature([(1, 2), (1, 3), (0, 2)], heap_table(19)) == chart_signature([(0, 1), (0, 2), (1, 3)], heap_table(20)),
{
    lemma_heap_entries();
    lemma_codes_of_word_59(heap_table(19));
    lemma_codes_of_word_7(heap_table(20));
    lemma_charts_agree_through([(0, 1), (0, 2), (1, 3)], heap_table(20), [(1, 2), (1, 3), (0, 2)], heap_table(19), 10, (2, 4, 6, 0, 7, 1, 3, 5));
}

proof fn lemma_chart_1436()
    ensures
        chart_signature([(1, 2), (1, 3), (0, 2)], heap_table(20)) == chart_signature([(0, 1), (0, 2), (1, 3)], heap_table(18)),
{
    lemma_heap_entries();
    lemma_codes_of_word_59(heap_table(20));
    lemma_codes_of_word_7(heap_table(18));
    lemma_charts_agree_through([(0, 1), (0, 2), (1, 3)], heap_table(18), [(1, 2), (1, 3), (0, 2)], heap_table(20), 11, (4, 2, 7, 1, 6, 0, 5, 3));
}

proof fn lemma_chart_1437()
    ensures
        chart_signature([(1, 2), (1, 3), (0, 2)], heap_table(21)) == chart_signature([(0, 1), (0, 2), (1, 3)], heap_table(22)),
{
    lemma_heap_entries();
    lemma_codes_of_word_59(heap_table(21));
    lemma_codes_of_word_7(heap_table(22));
    lemma_charts_agree_through([(0, 1), (0, 2), (1, 3)], heap_table(22), [(1, 2), (1, 3), (0, 2)], heap_table(21), 10, (2, 4, 6, 0, 7, 1, 3, 5));
}

proof fn lemma_chart_1438()
    ensures
        chart_signature([(1, 2), (1, 3), (0, 2)], heap_table(22)) == chart_signature([(0, 1), (0, 2), (1, 3)], heap_table(20)),
{
    lemma_heap_entries();
    lemma_codes_of_word_59(heap_table(22));
    lemma_codes_of_word_7(heap_table(20));
    lemma_charts_agree_through([(0, 1), (0, 2), (1, 3)], heap_table(20), [(1, 2), (1, 3), (0, 2)], heap_table(22), 11, (4, 2, 7, 1, 6, 0, 5, 3));
}

proof fn lemma_chart_1439()
    ensures
        chart_signature([(1, 2), (1, 3), (0, 2)], heap_table(23)) == chart_signature([(0, 1), (0, 2), (1, 3)], heap_table(18)),
{
    lemma_heap_entries();
    lemma_codes_of_word_59(heap_table(23));
    lemma_codes_of_word_7(heap_table(18));
    lemma_charts_agree_through([(0, 1), (0, 2), (1, 3)], heap_table(18), [(1, 2), (1, 3), (0, 2)], heap_table(23), 10, (2, 4, 6, 0, 7, 1, 3, 5));
}

/// Every chart of atlas word 59 shares its signature with the first chart
/// of a class below 216.
pub proof fn lemma_charts_of_word_59()
    ensures
        forall|t: int| 1416 <= t < 1440 ==> #[trigger] meets_class_below(t, 216),
{
    lemma_census_words();
    assert forall|t: int| 1416 <= t < 1440 implies #[trigger] meets_class_below(t, 216) by {
        if t == 1416 { lemma_chart_1416(); assert(atlas_signatures()[class_rep(74)] == atlas_signatures()[1416]); }
        else if t == 1417 { lemma_chart_1417(); assert(atlas_signatures()[class_rep(73)] == atlas_signatures()[1417]); }
        else if t == 1418 { lemma_chart_1418(); assert(atlas_signatures()[class_rep(72)] == atlas_signatures()[1418]); }
        else if t == 1419 { lemma_chart_1419(); assert(atlas_signatures()[class_rep(74)] == atlas_signatures()[1419]); }
        else if t == 1420 { lemma_chart_1420(); assert(atlas_signatures()[class_rep(73)] == atlas_signatures()[1420]); }
        else if t == 1421 { lemma_chart_1421(); assert(atlas_signatures()[class_rep(72)] == atlas_signatures()[1421]); }
        else if t == 1422 { lemma_chart_1422(); assert(atlas_signatures()[class_rep(77)] == atlas_signatures()[1422]); }
        else if t == 1423 { lemma_chart_1423(); assert(atlas_signatures()[class_rep(76)] == atlas_signatures()[1423]); }
        else if t == 1424 { lemma_chart_1424(); assert(atlas_signatures()[class_rep(75)] == atlas_signatures()[1424]); }
        else if t == 1425 { lemma_chart_1425(); assert(atlas_signatures()[class_rep(77)] == atlas_signatures()[1425]); }
        else if t == 1426 { lemma_chart_1426(); assert(atlas_signatures()[class_rep(76)] == atlas_signatures()[1426]); }
        else if t == 1427 { lemma_chart_1427(); assert(atlas_signatures()[class_rep(75)] == atlas_signatures()[1427]); }
        else if t == 1428 { lemma_chart_1428(); assert(atlas_signatures()[class_rep(80)] == atlas_signatures()[1428]); }
        else if t == 1429 { lemma_chart_1429(); assert(atlas_signatures()[class_rep(79)] == atlas_signatures()[1429]); }
        else if t == 1430 { lemma_chart_1430(); assert(atlas_signatures()[class_rep(78)] == atlas_signatures()[1430]); }
        else if t == 1431 { lemma_chart_1431(); assert(atlas_signatures()[class_rep(80)] == atlas_signatures()[1431]); }
        else if t == 1432 { lemma_chart_1432(); assert(atlas_signatures()[class_rep(79)] == atlas_signatures()[1432]); }
        else if t == 1433 { lemma_chart_1433(); assert(atlas_signatures()[class_rep(78)] == atlas_signatures()[1433]); }
        else if t == 1434 { lemma_chart_1434(); assert(atlas_signatures()[class_rep(83)] == atlas_signatures()[1434]); }
        else if t == 1435 { lemma_chart_1435(); assert(atlas_signatures()[class_rep(82)] == atlas_signatures()[1435]); }
        else if t == 1436 { lemma_chart_1436(); assert(atlas_signatures()[class_rep(81)] == atlas_signatures()[1436]); }
        else if t == 1437 { lemma_chart_1437(); assert(atlas_signatures()[class_rep(83)] == atlas_signatures()[1437]); }
        else if t == 1438 { lemma_chart_1438(); assert(atlas_signatures()[class_rep(82)] == atlas_signatures()[1438]); }
        else { lemma_chart_1439(); assert(atlas_signatures()[class_rep(81)] == atlas_signatures()[1439]); }
    }
}

proof fn lemma_chart_1440()
    ensures
        chart_signature([(1, 2), (1, 3), (0, 3)], heap_table(0)) == chart_signature([(0, 2), (0, 1), (0, 3)], heap_table(7)),
{
    lemma_heap_entries();
    lemma_codes_of_word_60(heap_table(0));
    lemma_codes_of_word_24(heap_table(7));
    lemma_charts_agree_through([(0, 2), (0, 1), (0, 3)], heap_table(7), [(1, 2), (1, 3), (0, 3)], heap_table(0), 6, (6, 7, 3, 2, 5, 4, 0, 1));
}

proof fn lemma_chart_1441()
    ensures
        chart_signature([(1, 2), (1, 3), (0, 3)], heap_table(1)) == chart_signature([(0, 2), (0, 1), (0, 3)], heap_table(13)),
{
    lemma_heap_entries();
    lemma_codes_of_word_60(heap_table(1));
    lemma_codes_of_word_24(heap_table(13));
    lemma_charts_agree_through([(0, 2), (0, 1), (0, 3)], heap_table(13), [(1, 2), (1, 3), (0, 3)], heap_table(1), 6, (6, 7, 3, 2, 5, 4, 0, 1));
}

proof fn lemma_chart_1442()
    ensures
        chart_signature([(1, 2), (1, 3), (0, 3)], heap_table(2)) == chart_signature([(0, 2), (0, 1), (0, 3)], heap_table(19)),
{
    lemma_heap_entries();
    lemma_codes_of_word_60(heap_table(2));
    lemma_codes_of_word_24(heap_table(19));
    lemma_charts_agree_through([(0, 2), (0, 1), (0, 3)], heap_table(19), [(1, 2), (1, 3), (0, 3)], heap_table(2), 6, (6, 7, 3, 2, 5, 4, 0, 1));
}

proof fn lemma_chart_1443()
    ensures
        chart_signature([(1, 2), (1, 3), (0, 3)], heap_table(3)) == chart_signature([(0, 2), (0, 1), (0, 3)], heap_table(7)),
{
    lemma_heap_entries();
    lemma_codes_of_word_60(heap_table(3));
    lemma_codes_of_word_24(heap_table(7));
    lemma_charts_agree_through([(0, 2), (0, 1), (0, 3)], heap_table(7), [(1, 2), (1, 3), (0, 3)], heap_table(3), 7, (7, 6, 5, 4, 3, 2, 1, 0));
}

proof fn lemma_chart_1444()
    ensures
        chart_signature([(1, 2), (1, 3), (0, 3)], heap_table(4)) == chart_signature([(0, 2), (0, 1), (0, 3)], heap_table(13)),
{
    lemma_heap_entries();
    lemma_codes_of_word_60(heap_table(4));
    lemma_codes_of_word_24(heap_table(13));
    lemma_charts_agree_through([(0, 2), (0, 1), (0, 3)], heap_table(13), [(1, 2), (1, 3), (0, 3)], heap_table(4), 7, (7, 6, 5, 4, 3, 2, 1, 0));
}

proof fn lemma_chart_1445()
    ensures
        chart_signature([(1, 2), (1, 3), (0, 3)], heap_table(5)) == chart_signature([(0, 2), (0, 1), (0, 3)], heap_table(19)),
{
    lemma_heap_entries();
    lemma_codes_of_word_60(heap_table(5));
    lemma_codes_of_word_24(heap_table(19));
    lemma_charts_agree_through([(0, 2), (0, 1), (0, 3)], heap_table(19), [(1, 2), (1, 3), (0, 3)], heap_table(5), 7, (7, 6, 5, 4, 3, 2, 1, 0));
}

proof fn lemma_chart_1446()
    ensures
        chart_signature([(1, 2), (1, 3), (0, 3)], heap_table(6)) == chart_signature([(0, 2), (0, 1), (0, 3)], heap_table(1)),
{
    lemma_heap_entries();
    lemma_codes_of_word_60(heap_table(6));
    lemma_codes_of_word_24(heap_table(1));
    lemma_charts_agree_through([(0, 2), (0, 1), (0, 3)], heap_table(1), [(1, 2), (1, 3), (0, 3)], heap_table(6), 6, (6, 7, 3, 2, 5, 4, 0, 1));
}

proof fn lemma_chart_1447()
    ensures
        chart_signature([(1, 2), (1, 3), (0, 3)], heap_table(7)) == chart_signature([(0, 2), (0, 1), (0, 3)], heap_table(12)),
{
    lemma_heap_entries();
    lemma_codes_of_word_60(heap_table(7));
    lemma_codes_of_word_24(heap_table(12));
    lemma_charts_agree_through([(0, 2), (0, 1), (0, 3)], heap_table(12), [(1, 2), (1, 3), (0, 3)], heap_table(7), 6, (6, 7, 3, 2, 5, 4, 0, 1));
}

proof fn lemma_chart_1448()
    ensures
        chart_signature([(1, 2), (1, 3), (0, 3)], heap_table(8)) == chart_signature([(0, 2), (0, 1), (0, 3)], heap_table(18)),
{
    lemma_heap_entries();
    lemma_codes_of_word_60(heap_table(8));
    lemma_codes_of_word_24(heap_table(18));
    lemma_charts_agree_through([(0, 2), (0, 1), (0, 3)], heap_table(18), [(1, 2), (1, 3), (0, 3)], heap_table(8), 6, (6, 7, 3, 2, 5, 4, 0, 1));
}

proof fn lemma_chart_1449()
    ensures
        chart_signature([(1, 2), (1, 3), (0, 3)], heap_table(9)) == chart_signature([(0, 2), (0, 1), (0, 3)], heap_table(1)),
{
    lemma_heap_entries();
    lemma_codes_of_word_60(heap_table(9));
    lemma_codes_of_word_24(heap_table(1));
    lemma_charts_agree_through([(0, 2), (0, 1), (0, 3)], heap_table(1), [(1, 2), (1, 3), (0, 3)], heap_table(9), 7, (7, 6, 5, 4, 3, 2, 1, 0));
}

proof fn lemma_chart_1450()
    ensures
        chart_signature([(1, 2), (1, 3), (0, 3)], heap_table(10)) == chart_signature([(0, 2), (0, 1), (0, 3)], heap_table(12)),
{
    lemma_heap_entries();
    lemma_codes_of_word_60(heap_table(10));
    lemma_codes_of_word_24(heap_table(12));
    lemma_charts_agree_through([(0, 2), (0, 1), (0, 3)], heap_table(12), [(1, 2), (1, 3), (0, 3)], heap_table(10), 7, (7, 6, 5, 4, 3, 2, 1, 0));
}

proof fn lemma_chart_1451()
    ensures
        chart_signature([(1, 2), (1, 3), (0, 3)], heap_table(11)) == chart_signature([(0, 2), (0, 1), (0, 3)], heap_table(18)),
{
    lemma_heap_entries();
    lemma_codes_of_word_60(heap_table(11));
    lemma_codes_of_word_24(heap_table(18));
    lemma_charts_agree_through([(0, 2), (0, 1), (0, 3)], heap_table(18), [(1, 2), (1, 3), (0, 3)], heap_table(11), 7, (7, 6, 5, 4, 3, 2, 1, 0));
}

proof fn lemma_chart_1452()
    ensures
        chart_signature([(1, 2), (1, 3), (0, 3)], heap_table(12)) == chart_signature([(0, 2), (0, 1), (0, 3)], heap_table(0)),
{
    lemma_heap_entries();
    lemma_codes_of_word_60(heap_table(12));
    lemma_codes_of_word_24(heap_table(0));
    lemma_charts_agree_through([(0, 2), (0, 1), (0, 3)], heap_table(0), [(1, 2), (1, 3), (0, 3)], heap_table(12), 6, (6, 7, 3, 2, 5, 4, 0, 1));
}

proof fn lemma_chart_1453()
    ensures
        chart_signature([(1, 2), (1, 3), (0, 3)], heap_table(13)) == chart_signature([(0, 2), (0, 1), (0, 3)], heap_table(6)),
{
    lemma_heap_entries();
    lemma_codes_of_word_60(heap_table(13));
    lemma_codes_of_word_24(heap_table(6));
    lemma_charts_agree_through([(0, 2), (0, 1), (0, 3)], heap_table(6), [(1, 2), (1, 3), (0, 3)], heap_table(13), 6, (6, 7, 3, 2, 5, 4, 0, 1));
}

proof fn lemma_chart_1454()
    ensures
        chart_signature([(1, 2), (1, 3), (0, 3)], heap_table(14)) == chart_signature([(0, 2), (0, 1), (0, 3)], heap_table(21)),
{
    lemma_heap_entries();
    lemma_codes_of_word_60(heap_table(14));
    lemma_codes_of_word_24(heap_table(21));
    lemma_charts_agree_through([(0, 2), (0, 1), (0, 3)], heap_table(21), [(1, 2), (1, 3), (0, 3)], heap_table(14), 6, (6, 7, 3, 2, 5, 4, 0, 1));
}

proof fn lemma_chart_1455()
    ensures
        chart_signature([(1, 2), (1, 3), (0, 3)], heap_table(15)) == chart_signature([(0, 2), (0, 1), (0, 3)], heap_table(0)),
{
    lemma_heap_entries();
    lemma_codes_of_word_60(heap_table(15));
    lemma_codes_of_word_24(heap_table(0));
    lemma_charts_agree_through([(0, 2), (0, 1), (0, 3)], heap_table(0), [(1, 2), (1, 3), (0, 3)], heap_table(15), 7, (7, 6, 5, 4, 3, 2, 1, 0));
}

proof fn lemma_chart_1456()
    ensures
        chart_signature([(1, 2), (1, 3), (0, 3)], heap_table(16)) == chart_signature([(0, 2), (0, 1), (0, 3)], heap_table(6)),
{
    lemma_heap_entries();
    lemma_codes_of_word_60(heap_table(16));
    lemma_codes_of_word_24(heap_table(6));
    lemma_charts_agree_through([(0, 2), (0, 1), (0, 3)], heap_table(6), [(1, 2), (1, 3), (0, 3)], heap_table(16), 7, (7, 6, 5, 4, 3, 2, 1, 0));
}

proof fn lemma_chart_1457()
    ensures
        chart_signature([(1, 2), (1, 3), (0, 3)], heap_table(17)) == chart_signature([(0, 2), (0, 1), (0, 3)], heap_table(21)),
{
    lemma_heap_entries();
    lemma_codes_of_word_60(heap_table(17));
    lemma_codes_of_word_24(heap_table(21));
    lemma_charts_agree_through([(0, 2), (0, 1), (0, 3)], heap_table(21), [(1, 2), (1, 3), (0, 3)], heap_table(17), 7, (7, 6, 5, 4, 3, 2, 1, 0));
}

proof fn lemma_chart_1458()
    ensures
        chart_signature([(1, 2), (1, 3), (0, 3)], heap_table(18)) == chart_signature([(0, 2), (0, 1), (0, 3)], heap_table(3)),
{
    lemma_heap_entries();
    lemma_codes_of_word_60(heap_table(18));
    lemma_codes_of_word_24(heap_table(3));
    lemma_charts_agree_through([(0, 2), (0, 1), (0, 3)], heap_table(3), [(1, 2), (1, 3), (0, 3)], heap_table(18), 6, (6, 7, 3, 2, 5, 4, 0, 1));
}

proof fn lemma_chart_1459()
    ensures
        chart_signature([(1, 2), (1, 3), (0, 3)], heap_table(19)) == chart_signature([(0, 2), (0, 1), (0, 3)], heap_table(9)),
{
    lemma_heap_entries();
    lemma_codes_of_word_60(heap_table(19));
    lemma_codes_of_word_24(heap_table(9));
    lemma_charts_agree_through([(0, 2), (0, 1), (0, 3)], heap_table(9), [(1, 2), (1, 3), (0, 3)], heap_table(19), 6, (6, 7, 3, 2, 5, 4, 0, 1));
}

proof fn lemma_chart_1460()
    ensures
        chart_signature([(1, 2), (1, 3), (0, 3)], heap_table(20)) == chart_signature([(0, 2), (0, 1), (0, 3)], heap_table(15)),
{
    lemma_heap_entries();
    lemma_codes_of_word_60(heap_table(20));
    lemma_codes_of_word_24(heap_table(15));
    lemma_charts_agree_through([(0, 2), (0, 1), (0, 3)], heap_table(15), [(1, 2), (1, 3), (0, 3)], heap_table(20), 6, (6, 7, 3, 2, 5, 4, 0, 1));
}

proof fn lemma_chart_1461()
    ensures
        chart_signature([(1, 2), (1, 3), (0, 3)], heap_table(21)) == chart_signature([(0, 2), (0, 1), (0, 3)], heap_table(3)),
{
    lemma_heap_entries();
    lemma_codes_of_word_60(heap_table(21));
    lemma_codes_of_word_24(heap_table(3));
    lemma_charts_agree_through([(0, 2), (0, 1), (0, 3)], heap_table(3), [(1, 2), (1, 3), (0, 3)], heap_table(21), 7, (7, 6, 5, 4, 3, 2, 1, 0));
}

proof fn lemma_chart_1462()
    ensures
        chart_signature([(1, 2), (1, 3), (0, 3)], heap_table(22)) == chart_signature([(0, 2), (0, 1), (0, 3)], heap_table(9)),
{
    lemma_heap_entries();
    lemma_codes_of_word_60(heap_table(22));
    lemma_codes_of_word_24(heap_table(9));
    lemma_charts_agree_through([(0, 2), (0, 1), (0, 3)], heap_table(9), [(1, 2), (1, 3), (0, 3)], heap_table(22), 7, (7, 6, 5, 4, 3, 2, 1, 0));
}

proof fn lemma_chart_1463()
    ensures
        chart_signature([(1, 2), (1, 3), (0, 3)], heap_table(23)) == chart_signature([(0, 2), (0, 1), (0, 3)], heap_table(15)),
{
    lemma_heap_entries();
    lemma_codes_of_word_60(heap_table(23));
    lemma_codes_of_word_24(heap_table(15));
    lemma_charts_agree_through([(0, 2), (0, 1), (0, 3)], heap_table(15), [(1, 2), (1, 3), (0, 3)], heap_table(23), 7, (7, 6, 5, 4, 3, 2, 1, 0));
}

/// Every chart of atlas word 60 shares its signature with the first chart
/// of a class below 216.
pub proof fn lemma_charts_of_word_60()
    ensures
        forall|t: int| 1440 <= t < 1464 ==> #[trigger] meets_class_below(t, 216),
{
    lemma_census_words();
    assert forall|t: int| 1440 <= t < 1464 implies #[trigger] meets_class_below(t, 216) by {
        if t == 1440 { lemma_chart_1440(); assert(atlas_signatures()[class_rep(142)] == atlas_signatures()[1440]); }
        else if t == 1441 { lemma_chart_1441(); assert(atlas_signatures()[class_rep(145)] == atlas_signatures()[1441]); }
        else if t == 1442 { lemma_chart_1442(); assert(atlas_signatures()[class_rep(148)] == atlas_signatures()[1442]); }
        else if t == 1443 { lemma_chart_1443(); assert(atlas_signatures()[class_rep(142)] == atlas_signatures()[1443]); }
        else if t == 1444 { lemma_chart_1444(); assert(atlas_signatures()[class_rep(145)] == atlas_signatures()[1444]); }
        else if t == 1445 { lemma_chart_1445(); assert(atlas_signatures()[class_rep(148)] == atlas_signatures()[1445]); }
        else if t == 1446 { lemma_chart_1446(); assert(atlas_signatures()[class_rep(139)] == atlas_signatures()[1446]); }
        else if t == 1447 { lemma_chart_1447(); assert(atlas_signatures()[class_rep(144)] == atlas_signatures()[1447]); }
        else if t == 1448 { lemma_chart_1448(); assert(atlas_signatures()[class_rep(147)] == atlas_signatures()[1448]); }
        else if t == 1449 { lemma_chart_1449(); assert(atlas_signatures()[class_rep(139)] == atlas_signatures()[1449]); }
        else if t == 1450 { lemma_chart_1450(); assert(atlas_signatures()[class_rep(144)] == atlas_signatures()[1450]); }
        else if t == 1451 { lemma_chart_1451(); assert(atlas_signatures()[class_rep(147)] == atlas_signatures()[1451]); }
        else if t == 1452 { lemma_chart_1452(); assert(atlas_signatures()[class_rep(138)] == atlas_signatures()[1452]); }
        else if t == 1453 { lemma_chart_1453(); assert(atlas_signatures()[class_rep(141)] == atlas_signatures()[1453]); }
        else if t == 1454 { lemma_chart_1454(); assert(atlas_signatures()[class_rep(149)] == atlas_signatures()[1454]); }
        else if t == 1455 { lemma_chart_1455(); assert(atlas_signatures()[class_rep(138)] == atlas_signatures()[1455]); }
        else if t == 1456 { lemma_chart_1456(); assert(atlas_signatures()[class_rep(141)] == atlas_signatures()[1456]); }
        else if t == 1457 { lemma_chart_1457(); assert(atlas_signatures()[class_rep(149)] == atlas_signatures()[1457]); }
        else if t == 1458 { lemma_chart_1458(); assert(atlas_signatures()[class_rep(140)] == atlas_signatures()[1458]); }
        else if t == 1459 { lemma_chart_1459(); assert(atlas_signatures()[class_rep(143)] == atlas_signatures()[1459]); }
        else if t == 1460 { lemma_chart_1460(); assert(atlas_signatures()[class_rep(146)] == atlas_signatures()[1460]); }
        else if t == 1461 { lemma_chart_1461(); assert(atlas_signatures()[class_rep(140)] == atlas_signatures()[1461]); }
        else if t == 1462 { lemma_chart_1462(); assert(atlas_signatures()[class_rep(143)] == atlas_signatures()[1462]); }
        else { lemma_chart_1463(); assert(atlas_signatures()[class_rep(146)] == atlas_signatures()[1463]); }
    }
}

proof fn lemma_chart_1464()
    ensures
        chart_signature([(1, 2), (2, 3), (0, 1)], heap_table(0)) == chart_signature([(0, 2), (0, 1), (2, 3)], heap_table(1)),
{
    lemma_heap_entries();
    lemma_codes_of_word_61(heap_table(0));
    lemma_codes_of_word_26(heap_table(1));
    lemma_charts_agree_through([(0, 2), (0, 1), (2, 3)], heap_table(1), [(1, 2), (2, 3), (0, 1)], heap_table(0), 10, (2, 4, 6, 0, 7, 1, 3, 5));
}

proof fn lemma_chart_1465()
    ensures
        chart_signature([(1, 2), (2, 3), (0, 1)], heap_table(1)) == chart_signature([(0, 2), (0, 1), (2, 3)], heap_table(0)),
{
    lemma_heap_entries();
    lemma_codes_of_word_61(heap_table(1));
    lemma_codes_of_word_26(heap_table(0));
    lemma_charts_agree_through([(0, 2), (0, 1), (2, 3)], heap_table(0), [(1, 2), (2, 3), (0, 1)], heap_table(1), 10, (2, 4, 6, 0, 7, 1, 3, 5));
}

proof fn lemma_chart_1466()
    ensures
        chart_signature([(1, 2), (2, 3), (0, 1)], heap_table(2)) == chart_signature([(0, 2), (0, 1), (2, 3)], heap_table(3)),
{
    lemma_heap_entries();
    lemma_codes_of_word_61(heap_table(2));
    lemma_codes_of_word_26(heap_table(3));
    lemma_charts_agree_through([(0, 2), (0, 1), (2, 3)], heap_table(3), [(1, 2), (2, 3), (0, 1)], heap_table(2), 10, (2, 4, 6, 0, 7, 1, 3, 5));
}

proof fn lemma_chart_1467()
    ensures
        chart_signature([(1, 2), (2, 3), (0, 1)], heap_table(3)) == chart_signature([(0, 2), (0, 1), (2, 3)], heap_table(1)),
{
    lemma_heap_entries();
    lemma_codes_of_word_61(heap_table(3));
    lemma_codes_of_word_26(heap_table(1));
    lemma_charts_agree_through([(0, 2), (0, 1), (2, 3)], heap_table(1), [(1, 2), (2, 3), (0, 1)], heap_table(3), 11, (4, 2, 7, 1, 6, 0, 5, 3));
}

proof fn lemma_chart_1468()
    ensures
        chart_signature([(1, 2), (2, 3), (0, 1)], heap_table(4)) == chart_signature([(0, 2), (0, 1), (2, 3)], heap_table(0)),
{
    lemma_heap_entries();
    lemma_codes_of_word_61(heap_table(4));
    lemma_codes_of_word_26(heap_table(0));
    lemma_charts_agree_through([(0, 2), (0, 1), (2, 3)], heap_table(0), [(1, 2), (2, 3), (0, 1)], heap_table(4), 11, (4, 2, 7, 1, 6, 0, 5, 3));
}

proof fn lemma_chart_1469()
    ensures
        chart_signature([(1, 2), (2, 3), (0, 1)], heap_table(5)) == chart_signature([(0, 2), (0, 1), (2, 3)], heap_table(3)),
{
    lemma_heap_entries();
    lemma_codes_of_word_61(heap_table(5));
    lemma_codes_of_word_26(heap_table(3));
    lemma_charts_agree_through([(0, 2), (0, 1), (2, 3)], heap_table(3), [(1, 2), (2, 3), (0, 1)], heap_table(5), 11, (4, 2, 7, 1, 6, 0, 5, 3));
}

proof fn lemma_chart_1470()
    ensures
        chart_signature([(1, 2), (2, 3), (0, 1)], heap_table(6)) == chart_signature([(0, 2), (0, 1), (2, 3)], heap_table(7)),
{
    lemma_heap_entries();
    lemma_codes_of_word_61(heap_table(6));
    lemma_codes_of_word_26(heap_table(7));
    lemma_charts_agree_through([(0, 2), (0, 1), (2, 3)], heap_table(7), [(1, 2), (2, 3), (0, 1)], heap_table(6), 10, (2, 4, 6, 0, 7, 1, 3, 5));
}

proof fn lemma_chart_1471()
    ensures
        chart_signature([(1, 2), (2, 3), (0, 1)], heap_table(7)) == chart_signature([(0, 2), (0, 1), (2, 3)], heap_table(6)),
{
    lemma_heap_entries();
    lemma_codes_of_word_61(heap_table(7));
    lemma_codes_of_word_26(heap_table(6));
    lemma_charts_agree_through([(0, 2), (0, 1), (2, 3)], heap_table(6), [(1, 2), (2, 3), (0, 1)], heap_table(7), 10, (2, 4, 6, 0, 7, 1, 3, 5));
}

proof fn lemma_chart_1472()
    ensures
        chart_signature([(1, 2), (2, 3), (0, 1)], heap_table(8)) == chart_signature([(0, 2), (0, 1), (2, 3)], heap_table(9)),
{
    lemma_heap_entries();
    lemma_codes_of_word_61(heap_table(8));
    lemma_codes_of_word_26(heap_table(9));
    lemma_charts_agree_through([(0, 2), (0, 1), (2, 3)], heap_table(9), [(1, 2), (2, 3), (0, 1)], heap_table(8), 10, (2, 4, 6, 0, 7, 1, 3, 5));
}

proof fn lemma_chart_1473()
    ensures
        chart_signature([(1, 2), (2, 3), (0, 1)], heap_table(9)) == chart_signature([(0, 2), (0, 1), (2, 3)], heap_table(7)),
{
    lemma_heap_entries();
    lemma_codes_of_word_61(heap_table(9));
    lemma_codes_of_word_26(heap_table(7));
    lemma_charts_agree_through([(0, 2), (0, 1), (2, 3)], heap_table(7), [(1, 2), (2, 3), (0, 1)], heap_table(9), 11, (4, 2, 7, 1, 6, 0, 5, 3));
}

proof fn lemma_chart_1474()
    ensures
        chart_signature([(1, 2), (2, 3), (0, 1)], heap_table(10)) == chart_signature([(0, 2), (0, 1), (2, 3)], heap_table(6)),
{
    lemma_heap_entries();
    lemma_codes_of_word_61(heap_table(10));
    lemma_codes_of_word_26(heap_table(6));
    lemma_charts_agree_through([(0, 2), (0, 1), (2, 3)], heap_table(6), [(1, 2), (2, 3), (0, 1)], heap_table(10), 11, (4, 2, 7, 1, 6, 0, 5, 3));
}

proof fn lemma_chart_1475()
    ensures
        chart_signature([(1, 2), (2, 3), (0, 1)], heap_table(11)) == chart_signature([(0, 2), (0, 1), (2, 3)], heap_table(9)),
{
    lemma_heap_entries();
    lemma_codes_of_word_61(heap_table(11));
    lemma_codes_of_word_26(heap_table(9));
    lemma_charts_agree_through([(0, 2), (0, 1), (2, 3)], heap_table(9), [(1, 2), (2, 3), (0, 1)], heap_table(11), 11, (4, 2, 7, 1, 6, 0, 5, 3));
}

proof fn lemma_chart_1476()
    ensures
        chart_signature([(1, 2), (2, 3), (0, 1)], heap_table(12)) == chart_signature([(0, 2), (0, 1), (2, 3)], heap_table(13)),
{
    lemma_heap_entries();
    lemma_codes_of_word_61(heap_table(12));
    lemma_codes_of_word_26(heap_table(13));
    lemma_charts_agree_through([(0, 2), (0, 1), (2, 3)], heap_table(13), [(1, 2), (2, 3), (0, 1)], heap_table(12), 10, (2, 4, 6, 0, 7, 1, 3, 5));
}

proof fn lemma_chart_1477()
    ensures
        chart_signature([(1, 2), (2, 3), (0, 1)], heap_table(13)) == chart_signature([(0, 2), (0, 1), (2, 3)], heap_table(12)),
{
    lemma_heap_entries();
    lemma_codes_of_word_61(heap_table(13));
    lemma_codes_of_word_26(heap_table(12));
    lemma_charts_agree_through([(0, 2), (0, 1), (2, 3)], heap_table(12), [(1, 2), (2, 3), (0, 1)], heap_table(13), 10, (2, 4, 6, 0, 7, 1, 3, 5));
}

proof fn lemma_chart_1478()
    ensures
        chart_signature([(1, 2), (2, 3), (0, 1)], heap_table(14)) == chart_signature([(0, 2), (0, 1), (2, 3)], heap_table(15)),
{
    lemma_heap_entries();
    lemma_codes_of_word_61(heap_table(14));
    lemma_codes_of_word_26(heap_table(15));
    lemma_charts_agree_through([(0, 2), (0, 1), (2, 3)], heap_table(15), [(1, 2), (2, 3), (0, 1)], heap_table(14), 10, (2, 4, 6, 0, 7, 1, 3, 5));
}

proof fn lemma_chart_1479()
    ensures
        chart_signature([(1, 2), (2, 3), (0, 1)], heap_table(15)) == chart_signature([(0, 2), (0, 1), (2, 3)], heap_table(13)),
{
    lemma_heap_entries();
    lemma_codes_of_word_61(heap_table(15));
    lemma_codes_of_word_26(heap_table(13));
    lemma_charts_agree_through([(0, 2), (0, 1), (2, 3)], heap_table(13), [(1, 2), (2, 3), (0, 1)], heap_table(15), 11, (4, 2, 7, 1, 6, 0, 5, 3));
}

proof fn lemma_chart_1480()
    ensures
        chart_signature([(1, 2), (2, 3), (0, 1)], heap_table(16)) == chart_signature([(0, 2), (0, 1), (2, 3)], heap_table(12)),
{
    lemma_heap_entries();
    lemma_codes_of_word_61(heap_table(16));
    lemma_codes_of_word_26(heap_table(12));
    lemma_charts_agree_through([(0, 2), (0, 1), (2, 3)], heap_table(12), [(1, 2), (2, 3), (0, 1)], heap_table(16), 11, (4, 2, 7, 1, 6, 0, 5, 3));
}

proof fn lemma_chart_1481()
    ensures
        chart_signature([(1, 2), (2, 3), (0, 1)], heap_table(17)) == chart_signature([(0, 2), (0, 1), (2, 3)], heap_table(15)),
{
    lemma_heap_entries();
    lemma_codes_of_word_61(heap_table(17));
    lemma_codes_of_word_26(heap_table(15));
    lemma_charts_agree_through([(0, 2), (0, 1), (2, 3)], heap_table(15), [(1, 2), (2, 3), (0, 1)], heap_table(17), 11, (4, 2, 7, 1, 6, 0, 5, 3));
}

proof fn lemma_chart_1482()
    ensures
        chart_signature([(1, 2), (2, 3), (0, 1)], heap_table(18)) == chart_signature([(0, 2), (0, 1), (2, 3)], heap_table(19)),
{
    lemma_heap_entries();
    lemma_codes_of_word_61(heap_table(18));
    lemma_codes_of_word_26(heap_table(19));
    lemma_charts_agree_through([(0, 2), (0, 1), (2, 3)], heap_table(19), [(1, 2), (2, 3), (0, 1)], heap_table(18), 10, (2, 4, 6, 0, 7, 1, 3, 5));
}

proof fn lemma_chart_1483()
    ensures
        chart_signature([(1, 2), (2, 3), (0, 1)], heap_table(19)) == chart_signature([(0, 2), (0, 1), (2, 3)], heap_table(18)),
{
    lemma_heap_entries();
    lemma_codes_of_word_61(heap_table(19));
    lemma_codes_of_word_26(heap_table(18));
    lemma_charts_agree_through([(0, 2), (0, 1), (2, 3)], heap_table(18), [(1, 2), (2, 3), (0, 1)], heap_table(19), 10, (2, 4, 6, 0, 7, 1, 3, 5));
}

proof fn lemma_chart_1484()
    ensures
        chart_signature([(1, 2), (2, 3), (0, 1)], heap_table(20)) == chart_signature([(0, 2), (0, 1), (2, 3)], heap_table(21)),
{
    lemma_heap_entries();
    lemma_codes_of_word_61(heap_table(20));
    lemma_codes_of_word_26(heap_table(21));
    lemma_charts_agree_through([(0, 2), (0, 1), (2, 3)], heap_table(21), [(1, 2), (2, 3), (0, 1)], heap_table(20), 10, (2, 4, 6, 0, 7, 1, 3, 5));
}

proof fn lemma_chart_1485()
    ensures
        chart_signature([(1, 2), (2, 3), (0, 1)], heap_table(21)) == chart_signature([(0, 2), (0, 1), (2, 3)], heap_table(19)),
{
    lemma_heap_entries();
    lemma_codes_of_word_61(heap_table(21));
    lemma_codes_of_word_26(heap_table(19));
    lemma_charts_agree_through([(0, 2), (0, 1), (2, 3)], heap_table(19), [(1, 2), (2, 3), (0, 1)], heap_table(21), 11, (4, 2, 7, 1, 6, 0, 5, 3));
}

proof fn lemma_chart_1486()
    ensures
        chart_signature([(1, 2), (2, 3), (0, 1)], heap_table(22)) == chart_signature([(0, 2), (0, 1), (2, 3)], heap_table(18)),
{
    lemma_heap_entries();
    lemma_codes_of_word_61(heap_table(22));
    lemma_codes_of_word_26(heap_table(18));
    lemma_charts_agree_through([(0, 2), (0, 1), (2, 3)], heap_table(18), [(1, 2), (2, 3), (0, 1)], heap_table(22), 11, (4, 2, 7, 1, 6, 0, 5, 3));
}

proof fn lemma_chart_1487()
    ensures
        chart_signature([(1, 2), (2, 3), (0, 1)], heap_table(23)) == chart_signature([(0, 2), (0, 1), (2, 3)], heap_table(21)),
{
    lemma_heap_entries();
    lemma_codes_of_word_61(heap_table(23));
    lemma_codes_of_word_26(heap_table(21));
    lemma_charts_agree_through([(0, 2), (0, 1), (2, 3)], heap_table(21), [(1, 2), (2, 3), (0, 1)], heap_table(23), 11, (4, 2, 7, 1, 6, 0, 5, 3));
}

/// Every chart of atlas word 61 shares its signature with the first chart
/// of a class below 216.
pub proof fn lemma_charts_of_word_61()
    ensures
        forall|t: int| 1464 <= t < 1488 ==> #[trigger] meets_class_below(t, 216),
{
    lemma_census_words();
    assert forall|t: int| 1464 <= t < 1488 implies #[trigger] meets_class_below(t, 216) by {
        if t == 1464 { lemma_chart_1464(); assert(atlas_signatures()[class_rep(151)] == atlas_signatures()[1464]); }
        else if t == 1465 { lemma_chart_1465(); assert(atlas_signatures()[class_rep(150)] == atlas_signatures()[1465]); }
        else if t == 1466 { lemma_chart_1466(); assert(atlas_signatures()[class_rep(152)] == atlas_signatures()[1466]); }
        else if t == 1467 { lemma_chart_1467(); assert(atlas_signatures()[class_rep(151)] == atlas_signatures()[1467]); }
        else if t == 1468 { lemma_chart_1468(); assert(atlas_signatures()[class_rep(150)] == atlas_signatures()[1468]); }
        else if t == 1469 { lemma_chart_1469(); assert(atlas_signatures()[class_rep(152)] == atlas_signatures()[1469]); }
        else if t == 1470 { lemma_chart_1470(); assert(atlas_signatures()[class_rep(154)] == atlas_signatures()[1470]); }
        else if t == 1471 { lemma_chart_1471(); assert(atlas_signatures()[class_rep(153)] == atlas_signatures()[1471]); }
        else if t == 1472 { lemma_chart_1472(); assert(atlas_signatures()[class_rep(155)] == atlas_signatures()[1472]); }
        else if t == 1473 { lemma_chart_1473(); assert(atlas_signatures()[class_rep(154)] == atlas_signatures()[1473]); }
        else if t == 1474 { lemma_chart_1474(); assert(atlas_signatures()[class_rep(153)] == atlas_signatures()[1474]); }
        else if t == 1475 { lemma_chart_1475(); assert(atlas_signatures()[class_rep(155)] == atlas_signatures()[1475]); }
        else if t == 1476 { lemma_chart_1476(); assert(atlas_signatures()[class_rep(157)] == atlas_signatures()[1476]); }
        else if t == 1477 { lemma_chart_1477(); assert(atlas_signatures()[class_rep(156)] == atlas_signatures()[1477]); }
        else if t == 1478 { lemma_chart_1478(); assert(atlas_signatures()[class_rep(158)] == atlas_signatures()[1478]); }
        else if t == 1479 { lemma_chart_1479(); assert(atlas_signatures()[class_rep(157)] == atlas_signatures()[1479]); }
        else if t == 1480 { lemma_chart_1480(); assert(atlas_signatures()[class_rep(156)] == atlas_signatures()[1480]); }
        else if t == 1481 { lemma_chart_1481(); assert(atlas_signatures()[class_rep(158)] == atlas_signatures()[1481]); }
        else if t == 1482 { lemma_chart_1482(); assert(atlas_signatures()[class_rep(160)] == atlas_signatures()[1482]); }
        else if t == 1483 { lemma_chart_1483(); assert(atlas_signatures()[class_rep(159)] == atlas_signatures()[1483]); }
        else if t == 1484 { lemma_chart_1484(); assert(atlas_signatures()[class_rep(161)] == atlas_signatures()[1484]); }
        else if t == 1485 { lemma_chart_1485(); assert(atlas_signatures()[class_rep(160)] == atlas_signatures()[1485]); }
        else if t == 1486 { lemma_chart_1486(); assert(atlas_signatures()[class_rep(159)] == atlas_signatures()[1486]); }
        else { lemma_chart_1487(); assert(atlas_signatures()[class_rep(161)] == atlas_signatures()[1487]); }
    }
}

proof fn lemma_chart_1488()
    ensures
        chart_signature([(1, 2), (2, 3), (0, 2)], heap_table(0)) == chart_signature([(0, 1), (0, 3), (0, 2)], heap_table(4)),
{
    lemma_heap_entries();
    lemma_codes_of_word_62(heap_table(0));
    lemma_codes_of_word_16(heap_table(4));
    lemma_charts_agree_through([(0, 1), (0, 3), (0, 2)], heap_table(4), [(1, 2), (2, 3), (0, 2)], heap_table(0), 5, (5, 3, 7, 1, 6, 0, 4, 2));
}

proof fn lemma_chart_1489()
    ensures
        chart_signature([(1, 2), (2, 3), (0, 2)], heap_table(1)) == chart_signature([(0, 1), (0, 3), (0, 2)], heap_table(2)),
{
    lemma_heap_entries();
    lemma_codes_of_word_62(heap_table(1));
    lemma_codes_of_word_16(heap_table(2));
    lemma_charts_agree_through([(0, 1), (0, 3), (0, 2)], heap_table(2), [(1, 2), (2, 3), (0, 2)], heap_table(1), 4, (3, 5, 6, 0, 7, 1, 2, 4));
}

proof fn lemma_chart_1490()
    ensures
        chart_signature([(1, 2), (2, 3), (0, 2)], heap_table(2)) == chart_signature([(0, 1), (0, 3), (0, 2)], heap_table(0)),
{
    lemma_heap_entries();
    lemma_codes_of_word_62(heap_table(2));
    lemma_codes_of_word_16(heap_table(0));
    lemma_charts_agree_through([(0, 1), (0, 3), (0, 2)], heap_table(0), [(1, 2), (2, 3), (0, 2)], heap_table(2), 5, (5, 3, 7, 1, 6, 0, 4, 2));
}

proof fn lemma_chart_1491()
    ensures
        chart_signature([(1, 2), (2, 3), (0, 2)], heap_table(3)) == chart_signature([(0, 1), (0, 3), (0, 2)], heap_table(4)),
{
    lemma_heap_entries();
    lemma_codes_of_word_62(heap_table(3));
    lemma_codes_of_word_16(heap_table(4));
    lemma_charts_agree_through([(0, 1), (0, 3), (0, 2)], heap_table(4), [(1, 2), (2, 3), (0, 2)], heap_table(3), 4, (3, 5, 6, 0, 7, 1, 2, 4));
}

proof fn lemma_chart_1492()
    ensures
        chart_signature([(1, 2), (2, 3), (0, 2)], heap_table(4)) == chart_signature([(0, 1), (0, 3), (0, 2)], heap_table(2)),
{
    lemma_heap_entries();
    lemma_codes_of_word_62(heap_table(4));
    lemma_codes_of_word_16(heap_table(2));
    lemma_charts_agree_through([(0, 1), (0, 3), (0, 2)], heap_table(2), [(1, 2), (2, 3), (0, 2)], heap_table(4), 5, (5, 3, 7, 1, 6, 0, 4, 2));
}

proof fn lemma_chart_1493()
    ensures
        chart_signature([(1, 2), (2, 3), (0, 2)], heap_table(5)) == chart_signature([(0, 1), (0, 3), (0, 2)], heap_table(0)),
{
    lemma_heap_entries();
    lemma_codes_of_word_62(heap_table(5));
    lemma_codes_of_word_16(heap_table(0));
    lemma_charts_agree_through([(0, 1), (0, 3), (0, 2)], heap_table(0), [(1, 2), (2, 3), (0, 2)], heap_table(5), 4, (3, 5, 6, 0, 7, 1, 2, 4));
}

proof fn lemma_chart_1494()
    ensures
        chart_signature([(1, 2), (2, 3), (0, 2)], heap_table(6)) == chart_signature([(0, 1), (0, 3), (0, 2)], heap_table(10)),
{
    lemma_heap_entries();
    lemma_codes_of_word_62(heap_table(6));
    lemma_codes_of_word_16(heap_table(10));
    lemma_charts_agree_through([(0, 1), (0, 3), (0, 2)], heap_table(10), [(1, 2), (2, 3), (0, 2)], heap_table(6), 5, (5, 3, 7, 1, 6, 0, 4, 2));
}

proof fn lemma_chart_1495()
    ensures
        chart_signature([(1, 2), (2, 3), (0, 2)], heap_table(7)) == chart_signature([(0, 1), (0, 3), (0, 2)], heap_table(8)),
{
    lemma_heap_entries();
    lemma_codes_of_word_62(heap_table(7));
    lemma_codes_of_word_16(heap_table(8));
    lemma_charts_agree_through([(0, 1), (0, 3), (0, 2)], heap_table(8), [(1, 2), (2, 3), (0, 2)], heap_table(7), 4, (3, 5, 6, 0, 7, 1, 2, 4));
}

proof fn lemma_chart_1496()
    ensures
        chart_signature([(1, 2), (2, 3), (0, 2)], heap_table(8)) == chart_signature([(0, 1), (0, 3), (0, 2)], heap_table(6)),
{
    lemma_heap_entries();
    lemma_codes_of_word_62(heap_table(8));
    lemma_codes_of_word_16(heap_table(6));
    lemma_charts_agree_through([(0, 1), (0, 3), (0, 2)], heap_table(6), [(1, 2), (2, 3), (0, 2)], heap_table(8), 5, (5, 3, 7, 1, 6, 0, 4, 2));
}

proof fn lemma_chart_1497()
    ensures
        chart_signature([(1, 2), (2, 3), (0, 2)], heap_table(9)) == chart_signature([(0, 1), (0, 3), (0, 2)], heap_table(10)),
{
    lemma_heap_entries();
    lemma_codes_of_word_62(heap_table(9));
    lemma_codes_of_word_16(heap_table(10));
    lemma_charts_agree_through([(0, 1), (0, 3), (0, 2)], heap_table(10), [(1, 2), (2, 3), (0, 2)], heap_table(9), 4, (3, 5, 6, 0, 7, 1, 2, 4));
}

proof fn lemma_chart_1498()
    ensures
        chart_signature([(1, 2), (2, 3), (0, 2)], heap_table(10)) == chart_signature([(0, 1), (0, 3), (0, 2)], heap_table(8)),
{
    lemma_heap_entries();
    lemma_codes_of_word_62(heap_table(10));
    lemma_codes_of_word_16(heap_table(8));
    lemma_charts_agree_through([(0, 1), (0, 3), (0, 2)], heap_table(8), [(1, 2), (2, 3), (0, 2)], heap_table(10), 5, (5, 3, 7, 1, 6, 0, 4, 2));
}

proof fn lemma_chart_1499()
    ensures
        chart_signature([(1, 2), (2, 3), (0, 2)], heap_table(11)) == chart_signature([(0, 1), (0, 3), (0, 2)], heap_table(6)),
{
    lemma_heap_entries();
    lemma_codes_of_word_62(heap_table(11));
    lemma_codes_of_word_16(heap_table(6));
    lemma_charts_agree_through([(0, 1), (0, 3), (0, 2)], heap_table(6), [(1, 2), (2, 3), (0, 2)], heap_table(11), 4, (3, 5, 6, 0, 7, 1, 2, 4));
}

proof fn lemma_chart_1500()
    ensures
        chart_signature([(1, 2), (2, 3), (0, 2)], heap_table(12)) == chart_signature([(0, 1), (0, 3), (0, 2)], heap_table(16)),
{
    lemma_heap_entries();
    lemma_codes_of_word_62(heap_table(12));
    lemma_codes_of_word_16(heap_table(16));
    lemma_charts_agree_through([(0, 1), (0, 3), (0, 2)], heap_table(16), [(1, 2), (2, 3), (0, 2)], heap_table(12), 5, (5, 3, 7, 1, 6, 0, 4, 2));
}

proof fn lemma_chart_1501()
    ensures
        chart_signature([(1, 2), (2, 3), (0, 2)], heap_table(13)) == chart_signature([(0, 1), (0, 3), (0, 2)], heap_table(14)),
{
    lemma_heap_entries();
    lemma_codes_of_word_62(heap_table(13));
    lemma_codes_of_word_16(heap_table(14));
    lemma_charts_agree_through([(0, 1), (0, 3), (0, 2)], heap_table(14), [(1, 2), (2, 3), (0, 2)], heap_table(13), 4, (3, 5, 6, 0, 7, 1, 2, 4));
}

proof fn lemma_chart_1502()
    ensures
        chart_signature([(1, 2), (2, 3), (0, 2)], heap_table(14)) == chart_signature([(0, 1), (0, 3), (0, 2)], heap_table(12)),
{
    lemma_heap_entries();
    lemma_codes_of_word_62(heap_table(14));
    lemma_codes_of_word_16(heap_table(12));
    lemma_charts_agree_through([(0, 1), (0, 3), (0, 2)], heap_table(12), [(1, 2), (2, 3), (0, 2)], heap_table(14), 5, (5, 3, 7, 1, 6, 0, 4, 2));
}

proof fn lemma_chart_1503()
    ensures
        chart_signature([(1, 2), (2, 3), (0, 2)], heap_table(15)) == chart_signature([(0, 1), (0, 3), (0, 2)], heap_table(16)),
{
    lemma_heap_entries();
    lemma_codes_of_word_62(heap_table(15));
    lemma_codes_of_word_16(heap_table(16));
    lemma_charts_agree_through([(0, 1), (0, 3), (0, 2)], heap_table(16), [(1, 2), (2, 3), (0, 2)], heap_table(15), 4, (3, 5, 6, 0, 7, 1, 2, 4));
}

proof fn lemma_chart_1504()
    ensures
        chart_signature([(1, 2), (2, 3), (0, 2)], heap_table(16)) == chart_signature([(0, 1), (0, 3), (0, 2)], heap_table(14)),
{
    lemma_heap_entries();
    lemma_codes_of_word_62(heap_table(16));
    lemma_codes_of_word_16(heap_table(14));
    lemma_charts_agree_through([(0, 1), (0, 3), (0, 2)], heap_table(14), [(1, 2), (2, 3), (0, 2)], heap_table(16), 5, (5, 3, 7, 1, 6, 0, 4, 2));
}

proof fn lemma_chart_1505()
    ensures
        chart_signature([(1, 2), (2, 3), (0, 2)], heap_table(17)) == chart_signature([(0, 1), (0, 3), (0, 2)], heap_table(12)),
{
    lemma_heap_entries();
    lemma_codes_of_word_62(heap_table(17));
    lemma_codes_of_word_16(heap_table(12));
    lemma_charts_agree_through([(0, 1), (0, 3), (0, 2)], heap_table(12), [(1, 2), (2, 3), (0, 2)], heap_table(17), 4, (3, 5, 6, 0, 7, 1, 2, 4));
}

proof fn lemma_chart_1506()
    ensures
        chart_signature([(1, 2), (2, 3), (0, 2)], heap_table(18)) == chart_signature([(0, 1), (0, 3), (0, 2)], heap_table(22)),
{
    lemma_heap_entries();
    lemma_codes_of_word_62(heap_table(18));
    lemma_codes_of_word_16(heap_table(22));
    lemma_charts_agree_through([(0, 1), (0, 3), (0, 2)], heap_table(22), [(1, 2), (2, 3), (0, 2)], heap_table(18), 5, (5, 3, 7, 1, 6, 0, 4, 2));
}

proof fn lemma_chart_1507()
    ensures
        chart_signature([(1, 2), (2, 3), (0, 2)], heap_table(19)) == chart_signature([(0, 1), (0, 3), (0, 2)], heap_table(20)),
{
    lemma_heap_entries();
    lemma_codes_of_word_62(heap_table(19));
    lemma_codes_of_word_16(heap_table(20));
    lemma_charts_agree_through([(0, 1), (0, 3), (0, 2)], heap_table(20), [(1, 2), (2, 3), (0, 2)], heap_table(19), 4, (3, 5, 6, 0, 7, 1, 2, 4));
}

proof fn lemma_chart_1508()
    ensures
        chart_signature([(1, 2), (2, 3), (0, 2)], heap_table(20)) == chart_signature([(0, 1), (0, 3), (0, 2)], heap_table(18)),
{
    lemma_heap_entries();
    lemma_codes_of_word_62(heap_table(20));
    lemma_codes_of_word_16(heap_table(18));
    lemma_charts_agree_through([(0, 1), (0, 3), (0, 2)], heap_table(18), [(1, 2), (2, 3), (0, 2)], heap_table(20), 5, (5, 3, 7, 1, 6, 0, 4, 2));
}

proof fn lemma_chart_1509()
    ensures
        chart_signature([(1, 2), (2, 3), (0, 2)], heap_table(21)) == chart_signature([(0, 1), (0, 3), (0, 2)], heap_table(22)),
{
    lemma_heap_entries();
    lemma_codes_of_word_62(heap_table(21));
    lemma_codes_of_word_16(heap_table(22));
    lemma_charts_agree_through([(0, 1), (0, 3), (0, 2)], heap_table(22), [(1, 2), (2, 3), (0, 2)], heap_table(21), 4, (3, 5, 6, 0, 7, 1, 2, 4));
}

proof fn lemma_chart_1510()
    ensures
        chart_signature([(1, 2), (2, 3), (0, 2)], heap_table(22)) == chart_signature([(0, 1), (0, 3), (0, 2)], heap_table(20)),
{
    lemma_heap_entries();
    lemma_codes_of_word_62(heap_table(22));
    lemma_codes_of_word_16(heap_table(20));
    lemma_charts_agree_through([(0, 1), (0, 3), (0, 2)], heap_table(20), [(1, 2), (2, 3), (0, 2)], heap_table(22), 5, (5, 3, 7, 1, 6, 0, 4, 2));
}

proof fn lemma_chart_1511()
    ensures
        chart_signature([(1, 2), (2, 3), (0, 2)], heap_table(23)) == chart_signature([(0, 1), (0, 3), (0, 2)], heap_table(18)),
{
    lemma_heap_entries();
    lemma_codes_of_word_62(heap_table(23));
    lemma_codes_of_word_16(heap_table(18));
    lemma_charts_agree_through([(0, 1), (0, 3), (0, 2)], heap_table(18), [(1, 2), (2, 3), (0, 2)], heap_table(23), 4, (3, 5, 6, 0, 7, 1, 2, 4));
}

/// Every chart of atlas word 62 shares its signature with the first chart
/// of a class below 216.
pub proof fn lemma_charts_of_word_62()
    ensures
        forall|t: int| 1488 <= t < 1512 ==> #[trigger] meets_class_below(t, 216),
{
    lemma_census_words();
    assert forall|t: int| 1488 <= t < 1512 implies #[trigger] meets_class_below(t, 216) by {
        if t == 1488 { lemma_chart_1488(); assert(atlas_signatures()[class_rep(104)] == atlas_signatures()[1488]); }
        else if t == 1489 { lemma_chart_1489(); assert(atlas_signatures()[class_rep(103)] == atlas_signatures()[1489]); }
        else if t == 1490 { lemma_chart_1490(); assert(atlas_signatures()[class_rep(102)] == atlas_signatures()[1490]); }
        else if t == 1491 { lemma_chart_1491(); assert(atlas_signatures()[class_rep(104)] == atlas_signatures()[1491]); }
        else if t == 1492 { lemma_chart_1492(); assert(atlas_signatures()[class_rep(103)] == atlas_signatures()[1492]); }
        else if t == 1493 { lemma_chart_1493(); assert(atlas_signatures()[class_rep(102)] == atlas_signatures()[1493]); }
        else if t == 1494 { lemma_chart_1494(); assert(atlas_signatures()[class_rep(107)] == atlas_signatures()[1494]); }
        else if t == 1495 { lemma_chart_1495(); assert(atlas_signatures()[class_rep(106)] == atlas_signatures()[1495]); }
        else if t == 1496 { lemma_chart_1496(); assert(atlas_signatures()[class_rep(105)] == atlas_signatures()[1496]); }
        else if t == 1497 { lemma_chart_1497(); assert(atlas_signatures()[class_rep(107)] == atlas_signatures()[1497]); }
        else if t == 1498 { lemma_chart_1498(); assert(atlas_signatures()[class_rep(106)] == atlas_signatures()[1498]); }
        else if t == 1499 { lemma_chart_1499(); assert(atlas_signatures()[class_rep(105)] == atlas_signatures()[1499]); }
        else if t == 1500 { lemma_chart_1500(); assert(atlas_signatures()[class_rep(110)] == atlas_signatures()[1500]); }
        else if t == 1501 { lemma_chart_1501(); assert(atlas_signatures()[class_rep(109)] == atlas_signatures()[1501]); }
        else if t == 1502 { lemma_chart_1502(); assert(atlas_signatures()[class_rep(108)] == atlas_signatures()[1502]); }
        else if t == 1503 { lemma_chart_1503(); assert(atlas_signatures()[class_rep(110)] == atlas_signatures()[1503]); }
        else if t == 1504 { lemma_chart_1504(); assert(atlas_signatures()[class_rep(109)] == atlas_signatures()[1504]); }
        else if t == 1505 { lemma_chart_1505(); assert(atlas_signatures()[class_rep(108)] == atlas_signatures()[1505]); }
        else if t == 1506 { lemma_chart_1506(); assert(atlas_signatures()[class_rep(113)] == atlas_signatures()[1506]); }
        else if t == 1507 { lemma_chart_1507(); assert(atlas_signatures()[class_rep(112)] == atlas_signatures()[1507]); }
        else if t == 1508 { lemma_chart_1508(); assert(atlas_signatures()[class_rep(111)] == atlas_signatures()[1508]); }
        else if t == 1509 { lemma_chart_1509(); assert(atlas_signatures()[class_rep(113)] == atlas_signatures()[1509]); }
        else if t == 1510 { lemma_chart_1510(); assert(atlas_signatures()[class_rep(112)] == atlas_signatures()[1510]); }
        else { lemma_chart_1511(); assert(atlas_signatures()[class_rep(111)] == atlas_signatures()[1511]); }
    }
}

proof fn lemma_chart_1512()
    ensures
        chart_signature([(1, 2), (2, 3), (0, 3)], heap_table(0)) == chart_signature([(0, 1), (0, 2), (0, 3)], heap_table(10)),
{
    lemma_heap_entries();
    lemma_codes_of_word_63(heap_table(0));
    lemma_codes_of_word_1(heap_table(10));
    lemma_charts_agree_through([(0, 1), (0, 2), (0, 3)], heap_table(10), [(1, 2), (2, 3), (0, 3)], heap_table(0), 7, (7, 6, 5, 4, 3, 2, 1, 0));
}

proof fn lemma_chart_1513()
    ensures
        chart_signature([(1, 2), (2, 3), (0, 3)], heap_table(1)) == chart_signature([(0, 1), (0, 2), (0, 3)], heap_table(16)),
{
    lemma_heap_entries();
    lemma_codes_of_word_63(heap_table(1));
    lemma_codes_of_word_1(heap_table(16));
    lemma_charts_agree_through([(0, 1), (0, 2), (0, 3)], heap_table(16), [(1, 2), (2, 3), (0, 3)], heap_table(1), 7, (7, 6, 5, 4, 3, 2, 1, 0));
}

proof fn lemma_chart_1514()
    ensures
        chart_signature([(1, 2), (2, 3), (0, 3)], heap_table(2)) == chart_signature([(0, 1), (0, 2), (0, 3)], heap_table(22)),
{
    lemma_heap_entries();
    lemma_codes_of_word_63(heap_table(2));
    lemma_codes_of_word_1(heap_table(22));
    lemma_charts_agree_through([(0, 1), (0, 2), (0, 3)], heap_table(22), [(1, 2), (2, 3), (0, 3)], heap_table(2), 7, (7, 6, 5, 4, 3, 2, 1, 0));
}

proof fn lemma_chart_1515()
    ensures
        chart_signature([(1, 2), (2, 3), (0, 3)], heap_table(3)) == chart_signature([(0, 1), (0, 2), (0, 3)], heap_table(10)),
{
    lemma_heap_entries();
    lemma_codes_of_word_63(heap_table(3));
    lemma_codes_of_word_1(heap_table(10));
    lemma_charts_agree_through([(0, 1), (0, 2), (0, 3)], heap_table(10), [(1, 2), (2, 3), (0, 3)], heap_table(3), 6, (6, 7, 3, 2, 5, 4, 0, 1));
}

proof fn lemma_chart_1516()
    ensures
        chart_signature([(1, 2), (2, 3), (0, 3)], heap_table(4)) == chart_signature([(0, 1), (0, 2), (0, 3)], heap_table(16)),
{
    lemma_heap_entries();
    lemma_codes_of_word_63(heap_table(4));
    lemma_codes_of_word_1(heap_table(16));
    lemma_charts_agree_through([(0, 1), (0, 2), (0, 3)], heap_table(16), [(1, 2), (2, 3), (0, 3)], heap_table(4), 6, (6, 7, 3, 2, 5, 4, 0, 1));
}

proof fn lemma_chart_1517()
    ensures
        chart_signature([(1, 2), (2, 3), (0, 3)], heap_table(5)) == chart_signature([(0, 1), (0, 2), (0, 3)], heap_table(22)),
{
    lemma_heap_entries();
    lemma_codes_of_word_63(heap_table(5));
    lemma_codes_of_word_1(heap_table(22));
    lemma_charts_agree_through([(0, 1), (0, 2), (0, 3)], heap_table(22), [(1, 2), (2, 3), (0, 3)], heap_table(5), 6, (6, 7, 3, 2, 5, 4, 0, 1));
}

proof fn lemma_chart_1518()
    ensures
        chart_signature([(1, 2), (2, 3), (0, 3)], heap_table(6)) == chart_signature([(0, 1), (0, 2), (0, 3)], heap_table(4)),
{
    lemma_heap_entries();
    lemma_codes_of_word_63(heap_table(6));
    lemma_codes_of_word_1(heap_table(4));
    lemma_charts_agree_through([(0, 1), (0, 2), (0, 3)], heap_table(4), [(1, 2), (2, 3), (0, 3)], heap_table(6), 7, (7, 6, 5, 4, 3, 2, 1, 0));
}

proof fn lemma_chart_1519()
    ensures
        chart_signature([(1, 2), (2, 3), (0, 3)], heap_table(7)) == chart_signature([(0, 1), (0, 2), (0, 3)], heap_table(14)),
{
    lemma_heap_entries();
    lemma_codes_of_word_63(heap_table(7));
    lemma_codes_of_word_1(heap_table(14));
    lemma_charts_agree_through([(0, 1), (0, 2), (0, 3)], heap_table(14), [(1, 2), (2, 3), (0, 3)], heap_table(7), 6, (6, 7, 3, 2, 5, 4, 0, 1));
}

proof fn lemma_chart_1520()
    ensures
        chart_signature([(1, 2), (2, 3), (0, 3)], heap_table(8)) == chart_signature([(0, 1), (0, 2), (0, 3)], heap_table(20)),
{
    lemma_heap_entries();
    lemma_codes_of_word_63(heap_table(8));
    lemma_codes_of_word_1(heap_table(20));
    lemma_charts_agree_through([(0, 1), (0, 2), (0, 3)], heap_table(20), [(1, 2), (2, 3), (0, 3)], heap_table(8), 6, (6, 7, 3, 2, 5, 4, 0, 1));
}

proof fn lemma_chart_1521()
    ensures
        chart_signature([(1, 2), (2, 3), (0, 3)], heap_table(9)) == chart_signature([(0, 1), (0, 2), (0, 3)], heap_table(4)),
{
    lemma_heap_entries();
    lemma_codes_of_word_63(heap_table(9));
    lemma_codes_of_word_1(heap_table(4));
    lemma_charts_agree_through([(0, 1), (0, 2), (0, 3)], heap_table(4), [(1, 2), (2, 3), (0, 3)], heap_table(9), 6, (6, 7, 3, 2, 5, 4, 0, 1));
}

proof fn lemma_chart_1522()
    ensures
        chart_signature([(1, 2), (2, 3), (0, 3)], heap_table(10)) == chart_signature([(0, 1), (0, 2), (0, 3)], heap_table(14)),
{
    lemma_heap_entries();
    lemma_codes_of_word_63(heap_table(10));
    lemma_codes_of_word_1(heap_table(14));
    lemma_charts_agree_through([(0, 1), (0, 2), (0, 3)], heap_table(14), [(1, 2), (2, 3), (0, 3)], heap_table(10), 7, (7, 6, 5, 4, 3, 2, 1, 0));
}

proof fn lemma_chart_1523()
    ensures
        chart_signature([(1, 2), (2, 3), (0, 3)], heap_table(11)) == chart_signature([(0, 1), (0, 2), (0, 3)], heap_table(20)),
{
    lemma_heap_entries();
    lemma_codes_of_word_63(heap_table(11));
    lemma_codes_of_word_1(heap_table(20));
    lemma_charts_agree_through([(0, 1), (0, 2), (0, 3)], heap_table(20), [(1, 2), (2, 3), (0, 3)], heap_table(11), 7, (7, 6, 5, 4, 3, 2, 1, 0));
}

proof fn lemma_chart_1524()
    ensures
        chart_signature([(1, 2), (2, 3), (0, 3)], heap_table(12)) == chart_signature([(0, 1), (0, 2), (0, 3)], heap_table(2)),
{
    lemma_heap_entries();
    lemma_codes_of_word_63(heap_table(12));
    lemma_codes_of_word_1(heap_table(2));
    lemma_charts_agree_through([(0, 1), (0, 2), (0, 3)], heap_table(2), [(1, 2), (2, 3), (0, 3)], heap_table(12), 6, (6, 7, 3, 2, 5, 4, 0, 1));
}

proof fn lemma_chart_1525()
    ensures
        chart_signature([(1, 2), (2, 3), (0, 3)], heap_table(13)) == chart_signature([(0, 1), (0, 2), (0, 3)], heap_table(8)),
{
    lemma_heap_entries();
    lemma_codes_of_word_63(heap_table(13));
    lemma_codes_of_word_1(heap_table(8));
    lemma_charts_agree_through([(0, 1), (0, 2), (0, 3)], heap_table(8), [(1, 2), (2, 3), (0, 3)], heap_table(13), 6, (6, 7, 3, 2, 5, 4, 0, 1));
}

proof fn lemma_chart_1526()
    ensures
        chart_signature([(1, 2), (2, 3), (0, 3)], heap_table(14)) == chart_signature([(0, 1), (0, 2), (0, 3)], heap_table(18)),
{
    lemma_heap_entries();
    lemma_codes_of_word_63(heap_table(14));
    lemma_codes_of_word_1(heap_table(18));
    lemma_charts_agree_through([(0, 1), (0, 2), (0, 3)], heap_table(18), [(1, 2), (2, 3), (0, 3)], heap_table(14), 7, (7, 6, 5, 4, 3, 2, 1, 0));
}

proof fn lemma_chart_1527()
    ensures
        chart_signature([(1, 2), (2, 3), (0, 3)], heap_table(15)) == chart_signature([(0, 1), (0, 2), (0, 3)], heap_table(2)),
{
    lemma_heap_entries();
    lemma_codes_of_word_63(heap_table(15));
    lemma_codes_of_word_1(heap_table(2));
    lemma_charts_agree_through([(0, 1), (0, 2), (0, 3)], heap_table(2), [(1, 2), (2, 3), (0, 3)], heap_table(15), 7, (7, 6, 5, 4, 3, 2, 1, 0));
}

proof fn lemma_chart_1528()
    ensures
        chart_signature([(1, 2), (2, 3), (0, 3)], heap_table(16)) == chart_signature([(0, 1), (0, 2), (0, 3)], heap_table(8)),
{
    lemma_heap_entries();
    lemma_codes_of_word_63(heap_table(16));
    lemma_codes_of_word_1(heap_table(8));
    lemma_charts_agree_through([(0, 1), (0, 2), (0, 3)], heap_table(8), [(1, 2), (2, 3), (0, 3)], heap_table(16), 7, (7, 6, 5, 4, 3, 2, 1, 0));
}

proof fn lemma_chart_1529()
    ensures
        chart_signature([(1, 2), (2, 3), (0, 3)], heap_table(17)) == chart_signature([(0, 1), (0, 2), (0, 3)], heap_table(18)),
{
    lemma_heap_entries();
    lemma_codes_of_word_63(heap_table(17));
    lemma_codes_of_word_1(heap_table(18));
    lemma_charts_agree_through([(0, 1), (0, 2), (0, 3)], heap_table(18), [(1, 2), (2, 3), (0, 3)], heap_table(17), 6, (6, 7, 3, 2, 5, 4, 0, 1));
}

proof fn lemma_chart_1530()
    ensures
        chart_signature([(1, 2), (2, 3), (0, 3)], heap_table(18)) == chart_signature([(0, 1), (0, 2), (0, 3)], heap_table(0)),
{
    lemma_heap_entries();
    lemma_codes_of_word_63(heap_table(18));
    lemma_codes_of_word_1(heap_table(0));
    lemma_charts_agree_through([(0, 1), (0, 2), (0, 3)], heap_table(0), [(1, 2), (2, 3), (0, 3)], heap_table(18), 7, (7, 6, 5, 4, 3, 2, 1, 0));
}

proof fn lemma_chart_1531()
    ensures
        chart_signature([(1, 2), (2, 3), (0, 3)], heap_table(19)) == chart_signature([(0, 1), (0, 2), (0, 3)], heap_table(6)),
{
    lemma_heap_entries();
    lemma_codes_of_word_63(heap_table(19));
    lemma_codes_of_word_1(heap_table(6));
    lemma_charts_agree_through([(0, 1), (0, 2), (0, 3)], heap_table(6), [(1, 2), (2, 3), (0, 3)], heap_table(19), 7, (7, 6, 5, 4, 3, 2, 1, 0));
}

proof fn lemma_chart_1532()
    ensures
        chart_signature([(1, 2), (2, 3), (0, 3)], heap_table(20)) == chart_signature([(0, 1), (0, 2), (0, 3)], heap_table(12)),
{
    lemma_heap_entries();
    lemma_codes_of_word_63(heap_table(20));
    lemma_codes_of_word_1(heap_table(12));
    lemma_charts_agree_through([(0, 1), (0, 2), (0, 3)], heap_table(12), [(1, 2), (2, 3), (0, 3)], heap_table(20), 7, (7, 6, 5, 4, 3, 2, 1, 0));
}

proof fn lemma_chart_1533()
    ensures
        chart_signature([(1, 2), (2, 3), (0, 3)], heap_table(21)) == chart_signature([(0, 1), (0, 2), (0, 3)], heap_table(0)),
{
    lemma_heap_entries();
    lemma_codes_of_word_63(heap_table(21));
    lemma_codes_of_word_1(heap_table(0));
    lemma_charts_agree_through([(0, 1), (0, 2), (0, 3)], heap_table(0), [(1, 2), (2, 3), (0, 3)], heap_table(21), 6, (6, 7, 3, 2, 5, 4, 0, 1));
}

proof fn lemma_chart_1534()
    ensures
        chart_signature([(1, 2), (2, 3), (0, 3)], heap_table(22)) == chart_signature([(0, 1), (0, 2), (0, 3)], heap_table(6)),
{
    lemma_heap_entries();
    lemma_codes_of_word_63(heap_table(22));
    lemma_codes_of_word_1(heap_table(6));
    lemma_charts_agree_through([(0, 1), (0, 2), (0, 3)], heap_table(6), [(1, 2), (2, 3), (0, 3)], heap_table(22), 6, (6, 7, 3, 2, 5, 4, 0, 1));
}

proof fn lemma_chart_1535()
    ensures
        chart_signature([(1, 2), (2, 3), (0, 3)], heap_table(23)) == chart_signature([(0, 1), (0, 2), (0, 3)], heap_table(12)),
{
    lemma_heap_entries();
    lemma_codes_of_word_63(heap_table(23));
    lemma_codes_of_word_1(heap_table(12));
    lemma_charts_agree_through([(0, 1), (0, 2), (0, 3)], heap_table(12), [(1, 2), (2, 3), (0, 3)], heap_table(23), 6, (6, 7, 3, 2, 5, 4, 0, 1));
}

/// Every chart of atlas word 63 shares its signature with the first chart
/// of a class below 216.
pub proof fn lemma_charts_of_word_63()
    ensures
        forall|t: int| 1512 <= t < 1536 ==> #[trigger] meets_class_below(t, 216),
{
    lemma_census_words();
    assert forall|t: int| 1512 <= t < 1536 implies #[trigger] meets_class_below(t, 216) by {
        if t == 1512 { lemma_chart_1512(); assert(atlas_signatures()[class_rep(17)] == atlas_signatures()[1512]); }
        else if t == 1513 { lemma_chart_1513(); assert(atlas_signatures()[class_rep(20)] == atlas_signatures()[1513]); }
        else if t == 1514 { lemma_chart_1514(); assert(atlas_signatures()[class_rep(23)] == atlas_signatures()[1514]); }
        else if t == 1515 { lemma_chart_1515(); assert(atlas_signatures()[class_rep(17)] == atlas_signatures()[1515]); }
        else if t == 1516 { lemma_chart_1516(); assert(atlas_signatures()[class_rep(20)] == atlas_signatures()[1516]); }
        else if t == 1517 { lemma_chart_1517(); assert(atlas_signatures()[class_rep(23)] == atlas_signatures()[1517]); }
        else if t == 1518 { lemma_chart_1518(); assert(atlas_signatures()[class_rep(14)] == atlas_signatures()[1518]); }
        else if t == 1519 { lemma_chart_1519(); assert(atlas_signatures()[class_rep(19)] == atlas_signatures()[1519]); }
        else if t == 1520 { lemma_chart_1520(); assert(atlas_signatures()[class_rep(22)] == atlas_signatures()[1520]); }
        else if t == 1521 { lemma_chart_1521(); assert(atlas_signatures()[class_rep(14)] == atlas_signatures()[1521]); }
        else if t == 1522 { lemma_chart_1522(); assert(atlas_signatures()[class_rep(19)] == atlas_signatures()[1522]); }
        else if t == 1523 { lemma_chart_1523(); assert(atlas_signatures()[class_rep(22)] == atlas_signatures()[1523]); }
        else if t == 1524 { lemma_chart_1524(); assert(atlas_signatures()[class_rep(13)] == atlas_signatures()[1524]); }
        else if t == 1525 { lemma_chart_1525(); assert(atlas_signatures()[class_rep(16)] == atlas_signatures()[1525]); }
        else if t == 1526 { lemma_chart_1526(); assert(atlas_signatures()[class_rep(21)] == atlas_signatures()[1526]); }
        else if t == 1527 { lemma_chart_1527(); assert(atlas_signatures()[class_rep(13)] == atlas_signatures()[1527]); }
        else if t == 1528 { lemma_chart_1528(); assert(atlas_signatures()[class_rep(16)] == atlas_signatures()[1528]); }
        else if t == 1529 { lemma_chart_1529(); assert(atlas_signatures()[class_rep(21)] == atlas_signatures()[1529]); }
        else if t == 1530 { lemma_chart_1530(); assert(atlas_signatures()[class_rep(12)] == atlas_signatures()[1530]); }
        else if t == 1531 { lemma_chart_1531(); assert(atlas_signatures()[class_rep(15)] == atlas_signatures()[1531]); }
        else if t == 1532 { lemma_chart_1532(); assert(atlas_signatures()[class_rep(18)] == atlas_signatures()[1532]); }
        else if t == 1533 { lemma_chart_1533(); assert(atlas_signatures()[class_rep(12)] == atlas_signatures()[1533]); }
        else if t == 1534 { lemma_chart_1534(); assert(atlas_signatures()[class_rep(15)] == atlas_signatures()[1534]); }
        else { lemma_chart_1535(); assert(atlas_signatures()[class_rep(18)] == atlas_signatures()[1535]); }
    }
}

} // verus!
