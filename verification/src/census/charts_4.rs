//! Charts of atlas words 64 to 79 matched to the first charts of their classes.
use vstd::prelude::*;
use crate::atlas::{atlas_signatures, chart_signature, lemma_charts_agree_through};
use crate::permutations::heap_table;
use super::{class_rep, lemma_census_words, lemma_heap_entries, meets_class_below, lemma_codes_of_word_1, lemma_codes_of_word_3, lemma_codes_of_word_4, lemma_codes_of_word_8, lemma_codes_of_word_13, lemma_codes_of_word_16, lemma_codes_of_word_21, lemma_codes_of_word_26, lemma_codes_of_word_30, lemma_codes_of_word_35, lemma_codes_of_word_36, lemma_codes_of_word_38, lemma_codes_of_word_64, lemma_codes_of_word_65, lemma_codes_of_word_66, lemma_codes_of_word_67, lemma_codes_of_word_68, lemma_codes_of_word_69, lemma_codes_of_word_70, lemma_codes_of_word_71, lemma_codes_of_word_72, lemma_codes_of_word_73, lemma_codes_of_word_74, lemma_codes_of_word_75, lemma_codes_of_word_76, lemma_codes_of_word_77, lemma_codes_of_word_78, lemma_codes_of_word_79};

verus! {

proof fn lemma_chart_1536()
    ensures
        chart_signature([(1, 3), (0, 1), (0, 2)], heap_table(0)) == chart_signature([(0, 3), (0, 1), (0, 2)], heap_table(1)),
{
    lemma_heap_entries();
    lemma_codes_of_word_64(heap_table(0));
    lemma_codes_of_word_35(heap_table(1));
    lemma_charts_agree_through([(0, 3), (0, 1), (0, 2)], heap_table(1), [(1, 3), (0, 1), (0, 2)], heap_table(0), 2, (2, 4, 0, 6, 1, 7, 3, 5));
}

proof fn lemma_chart_1537()
    ensures
        chart_signature([(1, 3), (0, 1), (0, 2)], heap_table(1)) == chart_signature([(0, 3), (0, 1), (0, 2)], heap_table(0)),
{
    lemma_heap_entries();
    lemma_codes_of_word_64(heap_table(1));
    lemma_codes_of_word_35(heap_table(0));
    lemma_charts_agree_through([(0, 3), (0, 1), (0, 2)], heap_table(0), [(1, 3), (0, 1), (0, 2)], heap_table(1), 2, (2, 4, 0, 6, 1, 7, 3, 5));
}

proof fn lemma_chart_1538()
    ensures
        chart_signature([(1, 3), (0, 1), (0, 2)], heap_table(2)) == chart_signature([(0, 3), (0, 1), (0, 2)], heap_table(3)),
{
    lemma_heap_entries();
    lemma_codes_of_word_64(heap_table(2));
    lemma_codes_of_word_35(heap_table(3));
    lemma_charts_agree_through([(0, 3), (0, 1), (0, 2)], heap_table(3), [(1, 3), (0, 1), (0, 2)], heap_table(2), 2, (2, 4, 0, 6, 1, 7, 3, 5));
}

proof fn lemma_chart_1539()
    ensures
        chart_signature([(1, 3), (0, 1), (0, 2)], heap_table(3)) == chart_signature([(0, 3), (0, 1), (0, 2)], heap_table(2)),
{
    lemma_heap_entries();
    lemma_codes_of_word_64(heap_table(3));
    lemma_codes_of_word_35(heap_table(2));
    lemma_charts_agree_through([(0, 3), (0, 1), (0, 2)], heap_table(2), [(1, 3), (0, 1), (0, 2)], heap_table(3), 2, (2, 4, 0, 6, 1, 7, 3, 5));
}

proof fn lemma_chart_1540()
    ensures
        chart_signature([(1, 3), (0, 1), (0, 2)], heap_table(4)) == chart_signature([(0, 3), (0, 1), (0, 2)], heap_table(5)),
{
    lemma_heap_entries();
    lemma_codes_of_word_64(heap_table(4));
    lemma_codes_of_word_35(heap_table(5));
    lemma_charts_agree_through([(0, 3), (0, 1), (0, 2)], heap_table(5), [(1, 3), (0, 1), (0, 2)], heap_table(4), 2, (2, 4, 0, 6, 1, 7, 3, 5));
}

proof fn lemma_chart_1541()
    ensures
        chart_signature([(1, 3), (0, 1), (0, 2)], heap_table(5)) == chart_signature([(0, 3), (0, 1), (0, 2)], heap_table(4)),
{
    lemma_heap_entries();
    lemma_codes_of_word_64(heap_table(5));
    lemma_codes_of_word_35(heap_table(4));
    lemma_charts_agree_through([(0, 3), (0, 1), (0, 2)], heap_table(4), [(1, 3), (0, 1), (0, 2)], heap_table(5), 2, (2, 4, 0, 6, 1, 7, 3, 5));
}

proof fn lemma_chart_1542()
    ensures
        chart_signature([(1, 3), (0, 1), (0, 2)], heap_table(6)) == chart_signature([(0, 3), (0, 1), (0, 2)], heap_table(7)),
{
    lemma_heap_entries();
    lemma_codes_of_word_64(heap_table(6));
    lemma_codes_of_word_35(heap_table(7));
    lemma_charts_agree_through([(0, 3), (0, 1), (0, 2)], heap_table(7), [(1, 3), (0, 1), (0, 2)], heap_table(6), 2, (2, 4, 0, 6, 1, 7, 3, 5));
}

proof fn lemma_chart_1543()
    ensures
        chart_signature([(1, 3), (0, 1), (0, 2)], heap_table(7)) == chart_signature([(0, 3), (0, 1), (0, 2)], heap_table(0)),
{
    lemma_heap_entries();
    lemma_codes_of_word_64(heap_table(7));
    lemma_codes_of_word_35(heap_table(0));
    lemma_charts_agree_through([(0, 3), (0, 1), (0, 2)], heap_table(0), [(1, 3), (0, 1), (0, 2)], heap_table(7), 3, (4, 2, 1, 7, 0, 6, 5, 3));
}

proof fn lemma_chart_1544()
    ensures
        chart_signature([(1, 3), (0, 1), (0, 2)], heap_table(8)) == chart_signature([(0, 3), (0, 1), (0, 2)], heap_table(3)),
{
    lemma_heap_entries();
    lemma_codes_of_word_64(heap_table(8));
    lemma_codes_of_word_35(heap_table(3));
    lemma_charts_agree_through([(0, 3), (0, 1), (0, 2)], heap_table(3), [(1, 3), (0, 1), (0, 2)], heap_table(8), 3, (4, 2, 1, 7, 0, 6, 5, 3));
}

proof fn lemma_chart_1545()
    ensures
        chart_signature([(1, 3), (0, 1), (0, 2)], heap_table(9)) == chart_signature([(0, 3), (0, 1), (0, 2)], heap_table(8)),
{
    lemma_heap_entries();
    lemma_codes_of_word_64(heap_table(9));
    lemma_codes_of_word_35(heap_table(8));
    lemma_charts_agree_through([(0, 3), (0, 1), (0, 2)], heap_table(8), [(1, 3), (0, 1), (0, 2)], heap_table(9), 2, (2, 4, 0, 6, 1, 7, 3, 5));
}

proof fn lemma_chart_1546()
    ensures
        chart_signature([(1, 3), (0, 1), (0, 2)], heap_table(10)) == chart_signature([(0, 3), (0, 1), (0, 2)], heap_table(11)),
{
    lemma_heap_entries();
    lemma_codes_of_word_64(heap_table(10));
    lemma_codes_of_word_35(heap_table(11));
    lemma_charts_agree_through([(0, 3), (0, 1), (0, 2)], heap_table(11), [(1, 3), (0, 1), (0, 2)], heap_table(10), 2, (2, 4, 0, 6, 1, 7, 3, 5));
}

proof fn lemma_chart_1547()
    ensures
        chart_signature([(1, 3), (0, 1), (0, 2)], heap_table(11)) == chart_signature([(0, 3), (0, 1), (0, 2)], heap_table(10)),
{
    lemma_heap_entries();
    lemma_codes_of_word_64(heap_table(11));
    lemma_codes_of_word_35(heap_table(10));
    lemma_charts_agree_through([(0, 3), (0, 1), (0, 2)], heap_table(10), [(1, 3), (0, 1), (0, 2)], heap_table(11), 2, (2, 4, 0, 6, 1, 7, 3, 5));
}

proof fn lemma_chart_1548()
    ensures
        chart_signature([(1, 3), (0, 1), (0, 2)], heap_table(12)) == chart_signature([(0, 3), (0, 1), (0, 2)], heap_table(7)),
{
    lemma_heap_entries();
    lemma_codes_of_word_64(heap_table(12));
    lemma_codes_of_word_35(heap_table(7));
    lemma_charts_agree_through([(0, 3), (0, 1), (0, 2)], heap_table(7), [(1, 3), (0, 1), (0, 2)], heap_table(12), 3, (4, 2, 1, 7, 0, 6, 5, 3));
}

proof fn lemma_chart_1549()
    ensures
        chart_signature([(1, 3), (0, 1), (0, 2)], heap_table(13)) == chart_signature([(0, 3), (0, 1), (0, 2)], heap_table(1)),
{
    lemma_heap_entries();
    lemma_codes_of_word_64(heap_table(13));
    lemma_codes_of_word_35(heap_table(1));
    lemma_charts_agree_through([(0, 3), (0, 1), (0, 2)], heap_table(1), [(1, 3), (0, 1), (0, 2)], heap_table(13), 3, (4, 2, 1, 7, 0, 6, 5, 3));
}

proof fn lemma_chart_1550()
    ensures
        chart_signature([(1, 3), (0, 1), (0, 2)], heap_table(14)) == chart_signature([(0, 3), (0, 1), (0, 2)], heap_table(4)),
{
    lemma_heap_entries();
    lemma_codes_of_word_64(heap_table(14));
    lemma_codes_of_word_35(heap_table(4));
    lemma_charts_agree_through([(0, 3), (0, 1), (0, 2)], heap_table(4), [(1, 3), (0, 1), (0, 2)], heap_table(14), 3, (4, 2, 1, 7, 0, 6, 5, 3));
}

proof fn lemma_chart_1551()
    ensures
        chart_signature([(1, 3), (0, 1), (0, 2)], heap_table(15)) == chart_signature([(0, 3), (0, 1), (0, 2)], heap_table(14)),
{
    lemma_heap_entries();
    lemma_codes_of_word_64(heap_table(15));
    lemma_codes_of_word_35(heap_table(14));
    lemma_charts_agree_through([(0, 3), (0, 1), (0, 2)], heap_table(14), [(1, 3), (0, 1), (0, 2)], heap_table(15), 2, (2, 4, 0, 6, 1, 7, 3, 5));
}

proof fn lemma_chart_1552()
    ensures
        chart_signature([(1, 3), (0, 1), (0, 2)], heap_table(16)) == chart_signature([(0, 3), (0, 1), (0, 2)], heap_table(17)),
{
    lemma_heap_entries();
    lemma_codes_of_word_64(heap_table(16));
    lemma_codes_of_word_35(heap_table(17));
    lemma_charts_agree_through([(0, 3), (0, 1), (0, 2)], heap_table(17), [(1, 3), (0, 1), (0, 2)], heap_table(16), 2, (2, 4, 0, 6, 1, 7, 3, 5));
}

proof fn lemma_chart_1553()
    ensures
        chart_signature([(1, 3), (0, 1), (0, 2)], heap_table(17)) == chart_signature([(0, 3), (0, 1), (0, 2)], heap_table(10)),
{
    lemma_heap_entries();
    lemma_codes_of_word_64(heap_table(17));
    lemma_codes_of_word_35(heap_table(10));
    lemma_charts_agree_through([(0, 3), (0, 1), (0, 2)], heap_table(10), [(1, 3), (0, 1), (0, 2)], heap_table(17), 3, (4, 2, 1, 7, 0, 6, 5, 3));
}

proof fn lemma_chart_1554()
    ensures
        chart_signature([(1, 3), (0, 1), (0, 2)], heap_table(18)) == chart_signature([(0, 3), (0, 1), (0, 2)], heap_table(8)),
{
    lemma_heap_entries();
    lemma_codes_of_word_64(heap_table(18));
    lemma_codes_of_word_35(heap_table(8));
    lemma_charts_agree_through([(0, 3), (0, 1), (0, 2)], heap_table(8), [(1, 3), (0, 1), (0, 2)], heap_table(18), 3, (4, 2, 1, 7, 0, 6, 5, 3));
}

proof fn lemma_chart_1555()
    ensures
        chart_signature([(1, 3), (0, 1), (0, 2)], heap_table(19)) == chart_signature([(0, 3), (0, 1), (0, 2)], heap_table(2)),
{
    lemma_heap_entries();
    lemma_codes_of_word_64(heap_table(19));
    lemma_codes_of_word_35(heap_table(2));
    lemma_charts_agree_through([(0, 3), (0, 1), (0, 2)], heap_table(2), [(1, 3), (0, 1), (0, 2)], heap_table(19), 3, (4, 2, 1, 7, 0, 6, 5, 3));
}

proof fn lemma_chart_1556()
    ensures
        chart_signature([(1, 3), (0, 1), (0, 2)], heap_table(20)) == chart_signature([(0, 3), (0, 1), (0, 2)], heap_table(5)),
{
    lemma_heap_entries();
    lemma_codes_of_word_64(heap_table(20));
    lemma_codes_of_word_35(heap_table(5));
    lemma_charts_agree_through([(0, 3), (0, 1), (0, 2)], heap_table(5), [(1, 3), (0, 1), (0, 2)], heap_table(20), 3, (4, 2, 1, 7, 0, 6, 5, 3));
}

proof fn lemma_chart_1557()
    ensures
        chart_signature([(1, 3), (0, 1), (0, 2)], heap_table(21)) == chart_signature([(0, 3), (0, 1), (0, 2)], heap_table(14)),
{
    lemma_heap_entries();
    lemma_codes_of_word_64(heap_table(21));
    lemma_codes_of_word_35(heap_table(14));
    lemma_charts_agree_through([(0, 3), (0, 1), (0, 2)], heap_table(14), [(1, 3), (0, 1), (0, 2)], heap_table(21), 3, (4, 2, 1, 7, 0, 6, 5, 3));
}

proof fn lemma_chart_1558()
    ensures
        chart_signature([(1, 3), (0, 1), (0, 2)], heap_table(22)) == chart_signature([(0, 3), (0, 1), (0, 2)], heap_table(17)),
{
    lemma_heap_entries();
    lemma_codes_of_word_64(heap_table(22));
    lemma_codes_of_word_35(heap_table(17));
    lemma_charts_agree_through([(0, 3), (0, 1), (0, 2)], heap_table(17), [(1, 3), (0, 1), (0, 2)], heap_table(22), 3, (4, 2, 1, 7, 0, 6, 5, 3));
}

proof fn lemma_chart_1559()
    ensures
        chart_signature([(1, 3), (0, 1), (0, 2)], heap_table(23)) == chart_signature([(0, 3), (0, 1), (0, 2)], heap_table(11)),
{
    lemma_heap_entries();
    lemma_codes_of_word_64(heap_table(23));
    lemma_codes_of_word_35(heap_table(11));
    lemma_charts_agree_through([(0, 3), (0, 1), (0, 2)], heap_table(11), [(1, 3), (0, 1), (0, 2)], heap_table(23), 3, (4, 2, 1, 7, 0, 6, 5, 3));
}

/// Every chart of atlas word 64 shares its signature with the first chart
/// of a class below 216.
pub proof fn lemma_charts_of_word_64()
    ensures
        forall|t: int| 1536 <= t < 1560 ==> #[trigger] meets_class_below(t, 216),
{
    lemma_census_words();
    assert forall|t: int| 1536 <= t < 1560 implies #[trigger] meets_class_below(t, 216) by {
        if t == 1536 { lemma_chart_1536(); assert(atlas_signatures()[class_rep(181)] == atlas_signatures()[1536]); }
        else if t == 1537 { lemma_chart_1537(); assert(atlas_signatures()[class_rep(180)] == atlas_signatures()[1537]); }
        else if t == 1538 { lemma_chart_1538(); assert(atlas_signatures()[class_rep(183)] == atlas_signatures()[1538]); }
        else if t == 1539 { lemma_chart_1539(); assert(atlas_signatures()[class_rep(182)] == atlas_signatures()[1539]); }
        else if t == 1540 { lemma_chart_1540(); assert(atlas_signatures()[class_rep(185)] == atlas_signatures()[1540]); }
        else if t == 1541 { lemma_chart_1541(); assert(atlas_signatures()[class_rep(184)] == atlas_signatures()[1541]); }
        else if t == 1542 { lemma_chart_1542(); assert(atlas_signatures()[class_rep(186)] == atlas_signatures()[1542]); }
        else if t == 1543 { lemma_chart_1543(); assert(atlas_signatures()[class_rep(180)] == atlas_signatures()[1543]); }
        else if t == 1544 { lemma_chart_1544(); assert(atlas_signatures()[class_rep(183)] == atlas_signatures()[1544]); }
        else if t == 1545 { lemma_chart_1545(); assert(atlas_signatures()[class_rep(187)] == atlas_signatures()[1545]); }
        else if t == 1546 { lemma_chart_1546(); assert(atlas_signatures()[class_rep(189)] == atlas_signatures()[1546]); }
        else if t == 1547 { lemma_chart_1547(); assert(atlas_signatures()[class_rep(188)] == atlas_signatures()[1547]); }
        else if t == 1548 { lemma_chart_1548(); assert(atlas_signatures()[class_rep(186)] == atlas_signatures()[1548]); }
        else if t == 1549 { lemma_chart_1549(); assert(atlas_signatures()[class_rep(181)] == atlas_signatures()[1549]); }
        else if t == 1550 { lemma_chart_1550(); assert(atlas_signatures()[class_rep(184)] == atlas_signatures()[1550]); }
        else if t == 1551 { lemma_chart_1551(); assert(atlas_signatures()[class_rep(190)] == atlas_signatures()[1551]); }
        else if t == 1552 { lemma_chart_1552(); assert(atlas_signatures()[class_rep(191)] == atlas_signatures()[1552]); }
        else if t == 1553 { lemma_chart_1553(); assert(atlas_signatures()[class_rep(188)] == atlas_signatures()[1553]); }
        else if t == 1554 { lemma_chart_1554(); assert(atlas_signatures()[class_rep(187)] == atlas_signatures()[1554]); }
        else if t == 1555 { lemma_chart_1555(); assert(atlas_signatures()[class_rep(182)] == atlas_signatures()[1555]); }
        else if t == 1556 { lemma_chart_1556(); assert(atlas_signatures()[class_rep(185)] == atlas_signatures()[1556]); }
        else if t == 1557 { lemma_chart_1557(); assert(atlas_signatures()[class_rep(190)] == atlas_signatures()[1557]); }
        else if t == 1558 { lemma_chart_1558(); assert(atlas_signatures()[class_rep(191)] == atlas_signatures()[1558]); }
        else { lemma_chart_1559(); assert(atlas_signatures()[class_rep(189)] == atlas_signatures()[1559]); }
    }
}

proof fn lemma_chart_1560()
    ensures
        chart_signature([(1, 3), (0, 1), (1, 2)], heap_table(0)) == chart_signature([(0, 3), (0, 1), (1, 2)], heap_table(1)),
{
    lemma_heap_entries();
    lemma_codes_of_word_65(heap_table(0));
    lemma_codes_of_word_36(heap_table(1));
    lemma_charts_agree_through([(0, 3), (0, 1), (1, 2)], heap_table(1), [(1, 3), (0, 1), (1, 2)], heap_table(0), 2, (2, 4, 0, 6, 1, 7, 3, 5));
}

proof fn lemma_chart_1561()
    ensures
        chart_signature([(1, 3), (0, 1), (1, 2)], heap_table(1)) == chart_signature([(0, 3), (0, 1), (1, 2)], heap_table(0)),
{
    lemma_heap_entries();
    lemma_codes_of_word_65(heap_table(1));
    lemma_codes_of_word_36(heap_table(0));
    lemma_charts_agree_through([(0, 3), (0, 1), (1, 2)], heap_table(0), [(1, 3), (0, 1), (1, 2)], heap_table(1), 2, (2, 4, 0, 6, 1, 7, 3, 5));
}

proof fn lemma_chart_1562()
    ensures
        chart_signature([(1, 3), (0, 1), (1, 2)], heap_table(2)) == chart_signature([(0, 3), (0, 1), (1, 2)], heap_table(3)),
{
    lemma_heap_entries();
    lemma_codes_of_word_65(heap_table(2));
    lemma_codes_of_word_36(heap_table(3));
    lemma_charts_agree_through([(0, 3), (0, 1), (1, 2)], heap_table(3), [(1, 3), (0, 1), (1, 2)], heap_table(2), 2, (2, 4, 0, 6, 1, 7, 3, 5));
}

proof fn lemma_chart_1563()
    ensures
        chart_signature([(1, 3), (0, 1), (1, 2)], heap_table(3)) == chart_signature([(0, 3), (0, 1), (1, 2)], heap_table(2)),
{
    lemma_heap_entries();
    lemma_codes_of_word_65(heap_table(3));
    lemma_codes_of_word_36(heap_table(2));
    lemma_charts_agree_through([(0, 3), (0, 1), (1, 2)], heap_table(2), [(1, 3), (0, 1), (1, 2)], heap_table(3), 2, (2, 4, 0, 6, 1, 7, 3, 5));
}

proof fn lemma_chart_1564()
    ensures
        chart_signature([(1, 3), (0, 1), (1, 2)], heap_table(4)) == chart_signature([(0, 3), (0, 1), (1, 2)], heap_table(5)),
{
    lemma_heap_entries();
    lemma_codes_of_word_65(heap_table(4));
    lemma_codes_of_word_36(heap_table(5));
    lemma_charts_agree_through([(0, 3), (0, 1), (1, 2)], heap_table(5), [(1, 3), (0, 1), (1, 2)], heap_table(4), 2, (2, 4, 0, 6, 1, 7, 3, 5));
}

proof fn lemma_chart_1565()
    ensures
        chart_signature([(1, 3), (0, 1), (1, 2)], heap_table(5)) == chart_signature([(0, 3), (0, 1), (1, 2)], heap_table(4)),
{
    lemma_heap_entries();
    lemma_codes_of_word_65(heap_table(5));
    lemma_codes_of_word_36(heap_table(4));
    lemma_charts_agree_through([(0, 3), (0, 1), (1, 2)], heap_table(4), [(1, 3), (0, 1), (1, 2)], heap_table(5), 2, (2, 4, 0, 6, 1, 7, 3, 5));
}

proof fn lemma_chart_1566()
    ensures
        chart_signature([(1, 3), (0, 1), (1, 2)], heap_table(6)) == chart_signature([(0, 3), (0, 1), (1, 2)], heap_table(7)),
{
    lemma_heap_entries();
    lemma_codes_of_word_65(heap_table(6));
    lemma_codes_of_word_36(heap_table(7));
    lemma_charts_agree_through([(0, 3), (0, 1), (1, 2)], heap_table(7), [(1, 3), (0, 1), (1, 2)], heap_table(6), 2, (2, 4, 0, 6, 1, 7, 3, 5));
}

proof fn lemma_chart_1567()
    ensures
        chart_signature([(1, 3), (0, 1), (1, 2)], heap_table(7)) == chart_signature([(0, 3), (0, 1), (1, 2)], heap_table(0)),
{
    lemma_heap_entries();
    lemma_codes_of_word_65(heap_table(7));
    lemma_codes_of_word_36(heap_table(0));
    lemma_charts_agree_through([(0, 3), (0, 1), (1, 2)], heap_table(0), [(1, 3), (0, 1), (1, 2)], heap_table(7), 3, (4, 2, 1, 7, 0, 6, 5, 3));
}

proof fn lemma_chart_1568()
    ensures
        chart_signature([(1, 3), (0, 1), (1, 2)], heap_table(8)) == chart_signature([(0, 3), (0, 1), (1, 2)], heap_table(3)),
{
    lemma_heap_entries();
    lemma_codes_of_word_65(heap_table(8));
    lemma_codes_of_word_36(heap_table(3));
    lemma_charts_agree_through([(0, 3), (0, 1), (1, 2)], heap_table(3), [(1, 3), (0, 1), (1, 2)], heap_table(8), 3, (4, 2, 1, 7, 0, 6, 5, 3));
}

proof fn lemma_chart_1569()
    ensures
        chart_signature([(1, 3), (0, 1), (1, 2)], heap_table(9)) == chart_signature([(0, 3), (0, 1), (1, 2)], heap_table(8)),
{
    lemma_heap_entries();
    lemma_codes_of_word_65(heap_table(9));
    lemma_codes_of_word_36(heap_table(8));
    lemma_charts_agree_through([(0, 3), (0, 1), (1, 2)], heap_table(8), [(1, 3), (0, 1), (1, 2)], heap_table(9), 2, (2, 4, 0, 6, 1, 7, 3, 5));
}

proof fn lemma_chart_1570()
    ensures
        chart_signature([(1, 3), (0, 1), (1, 2)], heap_table(10)) == chart_signature([(0, 3), (0, 1), (1, 2)], heap_table(11)),
{
    lemma_heap_entries();
    lemma_codes_of_word_65(heap_table(10));
    lemma_codes_of_word_36(heap_table(11));
    lemma_charts_agree_through([(0, 3), (0, 1), (1, 2)], heap_table(11), [(1, 3), (0, 1), (1, 2)], heap_table(10), 2, (2, 4, 0, 6, 1, 7, 3, 5));
}

proof fn lemma_chart_1571()
    ensures
        chart_signature([(1, 3), (0, 1), (1, 2)], heap_table(11)) == chart_signature([(0, 3), (0, 1), (1, 2)], heap_table(10)),
{
    lemma_heap_entries();
    lemma_codes_of_word_65(heap_table(11));
    lemma_codes_of_word_36(heap_table(10));
    lemma_charts_agree_through([(0, 3), (0, 1), (1, 2)], heap_table(10), [(1, 3), (0, 1), (1, 2)], heap_table(11), 2, (2, 4, 0, 6, 1, 7, 3, 5));
}

proof fn lemma_chart_1572()
    ensures
        chart_signature([(1, 3), (0, 1), (1, 2)], heap_table(12)) == chart_signature([(0, 3), (0, 1), (1, 2)], heap_table(7)),
{
    lemma_heap_entries();
    lemma_codes_of_word_65(heap_table(12));
    lemma_codes_of_word_36(heap_table(7));
    lemma_charts_agree_through([(0, 3), (0, 1), (1, 2)], heap_table(7), [(1, 3), (0, 1), (1, 2)], heap_table(12), 3, (4, 2, 1, 7, 0, 6, 5, 3));
}

proof fn lemma_chart_1573()
    ensures
        chart_signature([(1, 3), (0, 1), (1, 2)], heap_table(13)) == chart_signature([(0, 3), (0, 1), (1, 2)], heap_table(1)),
{
    lemma_heap_entries();
    lemma_codes_of_word_65(heap_table(13));
    lemma_codes_of_word_36(heap_table(1));
    lemma_charts_agree_through([(0, 3), (0, 1), (1, 2)], heap_table(1), [(1, 3), (0, 1), (1, 2)], heap_table(13), 3, (4, 2, 1, 7, 0, 6, 5, 3));
}

proof fn lemma_chart_1574()
    ensures
        chart_signature([(1, 3), (0, 1), (1, 2)], heap_table(14)) == chart_signature([(0, 3), (0, 1), (1, 2)], heap_table(4)),
{
    lemma_heap_entries();
    lemma_codes_of_word_65(heap_table(14));
    lemma_codes_of_word_36(heap_table(4));
    lemma_charts_agree_through([(0, 3), (0, 1), (1, 2)], heap_table(4), [(1, 3), (0, 1), (1, 2)], heap_table(14), 3, (4, 2, 1, 7, 0, 6, 5, 3));
}

proof fn lemma_chart_1575()
    ensures
        chart_signature([(1, 3), (0, 1), (1, 2)], heap_table(15)) == chart_signature([(0, 3), (0, 1), (1, 2)], heap_table(14)),
{
    lemma_heap_entries();
    lemma_codes_of_word_65(heap_table(15));
    lemma_codes_of_word_36(heap_table(14));
    lemma_charts_agree_through([(0, 3), (0, 1), (1, 2)], heap_table(14), [(1, 3), (0, 1), (1, 2)], heap_table(15), 2, (2, 4, 0, 6, 1, 7, 3, 5));
}

proof fn lemma_chart_1576()
    ensures
        chart_signature([(1, 3), (0, 1), (1, 2)], heap_table(16)) == chart_signature([(0, 3), (0, 1), (1, 2)], heap_table(17)),
{
    lemma_heap_entries();
    lemma_codes_of_word_65(heap_table(16));
    lemma_codes_of_word_36(heap_table(17));
    lemma_charts_agree_through([(0, 3), (0, 1), (1, 2)], heap_table(17), [(1, 3), (0, 1), (1, 2)], heap_table(16), 2, (2, 4, 0, 6, 1, 7, 3, 5));
}

proof fn lemma_chart_1577()
    ensures
        chart_signature([(1, 3), (0, 1), (1, 2)], heap_table(17)) == chart_signature([(0, 3), (0, 1), (1, 2)], heap_table(10)),
{
    lemma_heap_entries();
    lemma_codes_of_word_65(heap_table(17));
    lemma_codes_of_word_36(heap_table(10));
    lemma_charts_agree_through([(0, 3), (0, 1), (1, 2)], heap_table(10), [(1, 3), (0, 1), (1, 2)], heap_table(17), 3, (4, 2, 1, 7, 0, 6, 5, 3));
}

proof fn lemma_chart_1578()
    ensures
        chart_signature([(1, 3), (0, 1), (1, 2)], heap_table(18)) == chart_signature([(0, 3), (0, 1), (1, 2)], heap_table(8)),
{
    lemma_heap_entries();
    lemma_codes_of_word_65(heap_table(18));
    lemma_codes_of_word_36(heap_table(8));
    lemma_charts_agree_through([(0, 3), (0, 1), (1, 2)], heap_table(8), [(1, 3), (0, 1), (1, 2)], heap_table(18), 3, (4, 2, 1, 7, 0, 6, 5, 3));
}

proof fn lemma_chart_1579()
    ensures
        chart_signature([(1, 3), (0, 1), (1, 2)], heap_table(19)) == chart_signature([(0, 3), (0, 1), (1, 2)], heap_table(2)),
{
    lemma_heap_entries();
    lemma_codes_of_word_65(heap_table(19));
    lemma_codes_of_word_36(heap_table(2));
    lemma_charts_agree_through([(0, 3), (0, 1), (1, 2)], heap_table(2), [(1, 3), (0, 1), (1, 2)], heap_table(19), 3, (4, 2, 1, 7, 0, 6, 5, 3));
}

proof fn lemma_chart_1580()
    ensures
        chart_signature([(1, 3), (0, 1), (1, 2)], heap_table(20)) == chart_signature([(0, 3), (0, 1), (1, 2)], heap_table(5)),
{
    lemma_heap_entries();
    lemma_codes_of_word_65(heap_table(20));
    lemma_codes_of_word_36(heap_table(5));
    lemma_charts_agree_through([(0, 3), (0, 1), (1, 2)], heap_table(5), [(1, 3), (0, 1), (1, 2)], heap_table(20), 3, (4, 2, 1, 7, 0, 6, 5, 3));
}

proof fn lemma_chart_1581()
    ensures
        chart_signature([(1, 3), (0, 1), (1, 2)], heap_table(21)) == chart_signature([(0, 3), (0, 1), (1, 2)], heap_table(14)),
{
    lemma_heap_entries();
    lemma_codes_of_word_65(heap_table(21));
    lemma_codes_of_word_36(heap_table(14));
    lemma_charts_agree_through([(0, 3), (0, 1), (1, 2)], heap_table(14), [(1, 3), (0, 1), (1, 2)], heap_table(21), 3, (4, 2, 1, 7, 0, 6, 5, 3));
}

proof fn lemma_chart_1582()
    ensures
        chart_signature([(1, 3), (0, 1), (1, 2)], heap_table(22)) == chart_signature([(0, 3), (0, 1), (1, 2)], heap_table(17)),
{
    lemma_heap_entries();
    lemma_codes_of_word_65(heap_table(22));
    lemma_codes_of_word_36(heap_table(17));
    lemma_charts_agree_through([(0, 3), (0, 1), (1, 2)], heap_table(17), [(1, 3), (0, 1), (1, 2)], heap_table(22), 3, (4, 2, 1, 7, 0, 6, 5, 3));
}

proof fn lemma_chart_1583()
    ensures
        chart_signature([(1, 3), (0, 1), (1, 2)], heap_table(23)) == chart_signature([(0, 3), (0, 1), (1, 2)], heap_table(11)),
{
    lemma_heap_entries();
    lemma_codes_of_word_65(heap_table(23));
    lemma_codes_of_word_36(heap_table(11));
    lemma_charts_agree_through([(0, 3), (0, 1), (1, 2)], heap_table(11), [(1, 3), (0, 1), (1, 2)], heap_table(23), 3, (4, 2, 1, 7, 0, 6, 5, 3));
}

/// Every chart of atlas word 65 shares its signature with the first chart
/// of a class below 216.
pub proof fn lemma_charts_of_word_65()
    ensures
        forall|t: int| 1560 <= t < 1584 ==> #[trigger] meets_class_below(t, 216),
{
    lemma_census_words();
    assert forall|t: int| 1560 <= t < 1584 implies #[trigger] meets_class_below(t, 216) by {
        if t == 1560 { lemma_chart_1560(); assert(atlas_signatures()[class_rep(193)] == atlas_signatures()[1560]); }
        else if t == 1561 { lemma_chart_1561(); assert(atlas_signatures()[class_rep(192)] == atlas_signatures()[1561]); }
        else if t == 1562 { lemma_chart_1562(); assert(atlas_signatures()[class_rep(195)] == atlas_signatures()[1562]); }
        else if t == 1563 { lemma_chart_1563(); assert(atlas_signatures()[class_rep(194)] == atlas_signatures()[1563]); }
        else if t == 1564 { lemma_chart_1564(); assert(atlas_signatures()[class_rep(197)] == atlas_signatures()[1564]); }
        else if t == 1565 { lemma_chart_1565(); assert(atlas_signatures()[class_rep(196)] == atlas_signatures()[1565]); }
        else if t == 1566 { lemma_chart_1566(); assert(atlas_signatures()[class_rep(198)] == atlas_signatures()[1566]); }
        else if t == 1567 { lemma_chart_1567(); assert(atlas_signatures()[class_rep(192)] == atlas_signatures()[1567]); }
        else if t == 1568 { lemma_chart_1568(); assert(atlas_signatures()[class_rep(195)] == atlas_signatures()[1568]); }
        else if t == 1569 { lemma_chart_1569(); assert(atlas_signatures()[class_rep(199)] == atlas_signatures()[1569]); }
        else if t == 1570 { lemma_chart_1570(); assert(atlas_signatures()[class_rep(201)] == atlas_signatures()[1570]); }
        else if t == 1571 { lemma_chart_1571(); assert(atlas_signatures()[class_rep(200)] == atlas_signatures()[1571]); }
        else if t == 1572 { lemma_chart_1572(); assert(atlas_signatures()[class_rep(198)] == atlas_signatures()[1572]); }
        else if t == 1573 { lemma_chart_1573(); assert(atlas_signatures()[class_rep(193)] == atlas_signatures()[1573]); }
        else if t == 1574 { lemma_chart_1574(); assert(atlas_signatures()[class_rep(196)] == atlas_signatures()[1574]); }
        else if t == 1575 { lemma_chart_1575(); assert(atlas_signatures()[class_rep(202)] == atlas_signatures()[1575]); }
        else if t == 1576 { lemma_chart_1576(); assert(atlas_signatures()[class_rep(203)] == atlas_signatures()[1576]); }
        else if t == 1577 { lemma_chart_1577(); assert(atlas_signatures()[class_rep(200)] == atlas_signatures()[1577]); }
        else if t == 1578 { lemma_chart_1578(); assert(atlas_signatures()[class_rep(199)] == atlas_signatures()[1578]); }
        else if t == 1579 { lemma_chart_1579(); assert(atlas_signatures()[class_rep(194)] == atlas_signatures()[1579]); }
        else if t == 1580 { lemma_chart_1580(); assert(atlas_signatures()[class_rep(197)] == atlas_signatures()[1580]); }
        else if t == 1581 { lemma_chart_1581(); assert(atlas_signatures()[class_rep(202)] == atlas_signatures()[1581]); }
        else if t == 1582 { lemma_chart_1582(); assert(atlas_signatures()[class_rep(203)] == atlas_signatures()[1582]); }
        else { lemma_chart_1583(); assert(atlas_signatures()[class_rep(201)] == atlas_signatures()[1583]); }
    }
}

proof fn lemma_chart_1584()
    ensures
        chart_signature([(1, 3), (0, 1), (2, 3)], heap_table(0)) == chart_signature([(0, 2), (0, 1), (2, 3)], heap_table(18)),
{
    lemma_heap_entries();
    lemma_codes_of_word_66(heap_table(0));
    lemma_codes_of_word_26(heap_table(18));
    lemma_charts_agree_through([(0, 2), (0, 1), (2, 3)], heap_table(18), [(1, 3), (0, 1), (2, 3)], heap_table(0), 7, (7, 6, 5, 4, 3, 2, 1, 0));
}

proof fn lemma_chart_1585()
    ensures
        chart_signature([(1, 3), (0, 1), (2, 3)], heap_table(1)) == chart_signature([(0, 2), (0, 1), (2, 3)], heap_table(21)),
{
    lemma_heap_entries();
    lemma_codes_of_word_66(heap_table(1));
    lemma_codes_of_word_26(heap_table(21));
    lemma_charts_agree_through([(0, 2), (0, 1), (2, 3)], heap_table(21), [(1, 3), (0, 1), (2, 3)], heap_table(1), 7, (7, 6, 5, 4, 3, 2, 1, 0));
}

proof fn lemma_chart_1586()
    ensures
        chart_signature([(1, 3), (0, 1), (2, 3)], heap_table(2)) == chart_signature([(0, 2), (0, 1), (2, 3)], heap_table(15)),
{
    lemma_heap_entries();
    lemma_codes_of_word_66(heap_table(2));
    lemma_codes_of_word_26(heap_table(15));
    lemma_charts_agree_through([(0, 2), (0, 1), (2, 3)], heap_table(15), [(1, 3), (0, 1), (2, 3)], heap_table(2), 7, (7, 6, 5, 4, 3, 2, 1, 0));
}

proof fn lemma_chart_1587()
    ensures
        chart_signature([(1, 3), (0, 1), (2, 3)], heap_table(3)) == chart_signature([(0, 2), (0, 1), (2, 3)], heap_table(12)),
{
    lemma_heap_entries();
    lemma_codes_of_word_66(heap_table(3));
    lemma_codes_of_word_26(heap_table(12));
    lemma_charts_agree_through([(0, 2), (0, 1), (2, 3)], heap_table(12), [(1, 3), (0, 1), (2, 3)], heap_table(3), 7, (7, 6, 5, 4, 3, 2, 1, 0));
}

proof fn lemma_chart_1588()
    ensures
        chart_signature([(1, 3), (0, 1), (2, 3)], heap_table(4)) == chart_signature([(0, 2), (0, 1), (2, 3)], heap_table(6)),
{
    lemma_heap_entries();
    lemma_codes_of_word_66(heap_table(4));
    lemma_codes_of_word_26(heap_table(6));
    lemma_charts_agree_through([(0, 2), (0, 1), (2, 3)], heap_table(6), [(1, 3), (0, 1), (2, 3)], heap_table(4), 7, (7, 6, 5, 4, 3, 2, 1, 0));
}

proof fn lemma_chart_1589()
    ensures
        chart_signature([(1, 3), (0, 1), (2, 3)], heap_table(5)) == chart_signature([(0, 2), (0, 1), (2, 3)], heap_table(9)),
{
    lemma_heap_entries();
    lemma_codes_of_word_66(heap_table(5));
    lemma_codes_of_word_26(heap_table(9));
    lemma_charts_agree_through([(0, 2), (0, 1), (2, 3)], heap_table(9), [(1, 3), (0, 1), (2, 3)], heap_table(5), 7, (7, 6, 5, 4, 3, 2, 1, 0));
}

proof fn lemma_chart_1590()
    ensures
        chart_signature([(1, 3), (0, 1), (2, 3)], heap_table(6)) == chart_signature([(0, 2), (0, 1), (2, 3)], heap_table(19)),
{
    lemma_heap_entries();
    lemma_codes_of_word_66(heap_table(6));
    lemma_codes_of_word_26(heap_table(19));
    lemma_charts_agree_through([(0, 2), (0, 1), (2, 3)], heap_table(19), [(1, 3), (0, 1), (2, 3)], heap_table(6), 7, (7, 6, 5, 4, 3, 2, 1, 0));
}

proof fn lemma_chart_1591()
    ensures
        chart_signature([(1, 3), (0, 1), (2, 3)], heap_table(7)) == chart_signature([(0, 2), (0, 1), (2, 3)], heap_table(21)),
{
    lemma_heap_entries();
    lemma_codes_of_word_66(heap_table(7));
    lemma_codes_of_word_26(heap_table(21));
    lemma_charts_agree_through([(0, 2), (0, 1), (2, 3)], heap_table(21), [(1, 3), (0, 1), (2, 3)], heap_table(7), 6, (6, 7, 3, 2, 5, 4, 0, 1));
}

proof fn lemma_chart_1592()
    ensures
        chart_signature([(1, 3), (0, 1), (2, 3)], heap_table(8)) == chart_signature([(0, 2), (0, 1), (2, 3)], heap_table(15)),
{
    lemma_heap_entries();
    lemma_codes_of_word_66(heap_table(8));
    lemma_codes_of_word_26(heap_table(15));
    lemma_charts_agree_through([(0, 2), (0, 1), (2, 3)], heap_table(15), [(1, 3), (0, 1), (2, 3)], heap_table(8), 6, (6, 7, 3, 2, 5, 4, 0, 1));
}

proof fn lemma_chart_1593()
    ensures
        chart_signature([(1, 3), (0, 1), (2, 3)], heap_table(9)) == chart_signature([(0, 2), (0, 1), (2, 3)], heap_table(13)),
{
    lemma_heap_entries();
    lemma_codes_of_word_66(heap_table(9));
    lemma_codes_of_word_26(heap_table(13));
    lemma_charts_agree_through([(0, 2), (0, 1), (2, 3)], heap_table(13), [(1, 3), (0, 1), (2, 3)], heap_table(9), 7, (7, 6, 5, 4, 3, 2, 1, 0));
}

proof fn lemma_chart_1594()
    ensures
        chart_signature([(1, 3), (0, 1), (2, 3)], heap_table(10)) == chart_signature([(0, 2), (0, 1), (2, 3)], heap_table(0)),
{
    lemma_heap_entries();
    lemma_codes_of_word_66(heap_table(10));
    lemma_codes_of_word_26(heap_table(0));
    lemma_charts_agree_through([(0, 2), (0, 1), (2, 3)], heap_table(0), [(1, 3), (0, 1), (2, 3)], heap_table(10), 7, (7, 6, 5, 4, 3, 2, 1, 0));
}

proof fn lemma_chart_1595()
    ensures
        chart_signature([(1, 3), (0, 1), (2, 3)], heap_table(11)) == chart_signature([(0, 2), (0, 1), (2, 3)], heap_table(3)),
{
    lemma_heap_entries();
    lemma_codes_of_word_66(heap_table(11));
    lemma_codes_of_word_26(heap_table(3));
    lemma_charts_agree_through([(0, 2), (0, 1), (2, 3)], heap_table(3), [(1, 3), (0, 1), (2, 3)], heap_table(11), 7, (7, 6, 5, 4, 3, 2, 1, 0));
}

proof fn lemma_chart_1596()
    ensures
        chart_signature([(1, 3), (0, 1), (2, 3)], heap_table(12)) == chart_signature([(0, 2), (0, 1), (2, 3)], heap_table(19)),
{
    lemma_heap_entries();
    lemma_codes_of_word_66(heap_table(12));
    lemma_codes_of_word_26(heap_table(19));
    lemma_charts_agree_through([(0, 2), (0, 1), (2, 3)], heap_table(19), [(1, 3), (0, 1), (2, 3)], heap_table(12), 6, (6, 7, 3, 2, 5, 4, 0, 1));
}

proof fn lemma_chart_1597()
    ensures
        chart_signature([(1, 3), (0, 1), (2, 3)], heap_table(13)) == chart_signature([(0, 2), (0, 1), (2, 3)], heap_table(18)),
{
    lemma_heap_entries();
    lemma_codes_of_word_66(heap_table(13));
    lemma_codes_of_word_26(heap_table(18));
    lemma_charts_agree_through([(0, 2), (0, 1), (2, 3)], heap_table(18), [(1, 3), (0, 1), (2, 3)], heap_table(13), 6, (6, 7, 3, 2, 5, 4, 0, 1));
}

proof fn lemma_chart_1598()
    ensures
        chart_signature([(1, 3), (0, 1), (2, 3)], heap_table(14)) == chart_signature([(0, 2), (0, 1), (2, 3)], heap_table(9)),
{
    lemma_heap_entries();
    lemma_codes_of_word_66(heap_table(14));
    lemma_codes_of_word_26(heap_table(9));
    lemma_charts_agree_through([(0, 2), (0, 1), (2, 3)], heap_table(9), [(1, 3), (0, 1), (2, 3)], heap_table(14), 6, (6, 7, 3, 2, 5, 4, 0, 1));
}

proof fn lemma_chart_1599()
    ensures
        chart_signature([(1, 3), (0, 1), (2, 3)], heap_table(15)) == chart_signature([(0, 2), (0, 1), (2, 3)], heap_table(7)),
{
    lemma_heap_entries();
    lemma_codes_of_word_66(heap_table(15));
    lemma_codes_of_word_26(heap_table(7));
    lemma_charts_agree_through([(0, 2), (0, 1), (2, 3)], heap_table(7), [(1, 3), (0, 1), (2, 3)], heap_table(15), 7, (7, 6, 5, 4, 3, 2, 1, 0));
}

proof fn lemma_chart_1600()
    ensures
        chart_signature([(1, 3), (0, 1), (2, 3)], heap_table(16)) == chart_signature([(0, 2), (0, 1), (2, 3)], heap_table(1)),
{
    lemma_heap_entries();
    lemma_codes_of_word_66(heap_table(16));
    lemma_codes_of_word_26(heap_table(1));
    lemma_charts_agree_through([(0, 2), (0, 1), (2, 3)], heap_table(1), [(1, 3), (0, 1), (2, 3)], heap_table(16), 7, (7, 6, 5, 4, 3, 2, 1, 0));
}

proof fn lemma_chart_1601()
    ensures
        chart_signature([(1, 3), (0, 1), (2, 3)], heap_table(17)) == chart_signature([(0, 2), (0, 1), (2, 3)], heap_table(3)),
{
    lemma_heap_entries();
    lemma_codes_of_word_66(heap_table(17));
    lemma_codes_of_word_26(heap_table(3));
    lemma_charts_agree_through([(0, 2), (0, 1), (2, 3)], heap_table(3), [(1, 3), (0, 1), (2, 3)], heap_table(17), 6, (6, 7, 3, 2, 5, 4, 0, 1));
}

proof fn lemma_chart_1602()
    ensures
        chart_signature([(1, 3), (0, 1), (2, 3)], heap_table(18)) == chart_signature([(0, 2), (0, 1), (2, 3)], heap_table(13)),
{
    lemma_heap_entries();
    lemma_codes_of_word_66(heap_table(18));
    lemma_codes_of_word_26(heap_table(13));
    lemma_charts_agree_through([(0, 2), (0, 1), (2, 3)], heap_table(13), [(1, 3), (0, 1), (2, 3)], heap_table(18), 6, (6, 7, 3, 2, 5, 4, 0, 1));
}

proof fn lemma_chart_1603()
    ensures
        chart_signature([(1, 3), (0, 1), (2, 3)], heap_table(19)) == chart_signature([(0, 2), (0, 1), (2, 3)], heap_table(12)),
{
    lemma_heap_entries();
    lemma_codes_of_word_66(heap_table(19));
    lemma_codes_of_word_26(heap_table(12));
    lemma_charts_agree_through([(0, 2), (0, 1), (2, 3)], heap_table(12), [(1, 3), (0, 1), (2, 3)], heap_table(19), 6, (6, 7, 3, 2, 5, 4, 0, 1));
}

proof fn lemma_chart_1604()
    ensures
        chart_signature([(1, 3), (0, 1), (2, 3)], heap_table(20)) == chart_signature([(0, 2), (0, 1), (2, 3)], heap_table(6)),
{
    lemma_heap_entries();
    lemma_codes_of_word_66(heap_table(20));
    lemma_codes_of_word_26(heap_table(6));
    lemma_charts_agree_through([(0, 2), (0, 1), (2, 3)], heap_table(6), [(1, 3), (0, 1), (2, 3)], heap_table(20), 6, (6, 7, 3, 2, 5, 4, 0, 1));
}

proof fn lemma_chart_1605()
    ensures
        chart_signature([(1, 3), (0, 1), (2, 3)], heap_table(21)) == chart_signature([(0, 2), (0, 1), (2, 3)], heap_table(7)),
{
    lemma_heap_entries();
    lemma_codes_of_word_66(heap_table(21));
    lemma_codes_of_word_26(heap_table(7));
    lemma_charts_agree_through([(0, 2), (0, 1), (2, 3)], heap_table(7), [(1, 3), (0, 1), (2, 3)], heap_table(21), 6, (6, 7, 3, 2, 5, 4, 0, 1));
}

proof fn lemma_chart_1606()
    ensures
        chart_signature([(1, 3), (0, 1), (2, 3)], heap_table(22)) == chart_signature([(0, 2), (0, 1), (2, 3)], heap_table(1)),
{
    lemma_heap_entries();
    lemma_codes_of_word_66(heap_table(22));
    lemma_codes_of_word_26(heap_table(1));
    lemma_charts_agree_through([(0, 2), (0, 1), (2, 3)], heap_table(1), [(1, 3), (0, 1), (2, 3)], heap_table(22), 6, (6, 7, 3, 2, 5, 4, 0, 1));
}

proof fn lemma_chart_1607()
    ensures
        chart_signature([(1, 3), (0, 1), (2, 3)], heap_table(23)) == chart_signature([(0, 2), (0, 1), (2, 3)], heap_table(0)),
{
    lemma_heap_entries();
    lemma_codes_of_word_66(heap_table(23));
    lemma_codes_of_word_26(heap_table(0));
    lemma_charts_agree_through([(0, 2), (0, 1), (2, 3)], heap_table(0), [(1, 3), (0, 1), (2, 3)], heap_table(23), 6, (6, 7, 3, 2, 5, 4, 0, 1));
}

/// Every chart of atlas word 66 shares its signature with the first chart
/// of a class below 216.
pub proof fn lemma_charts_of_word_66()
    ensures
        forall|t: int| 1584 <= t < 1608 ==> #[trigger] meets_class_below(t, 216),
{
    lemma_census_words();
    assert forall|t: int| 1584 <= t < 1608 implies #[trigger] meets_class_below(t, 216) by {
        if t == 1584 { lemma_chart_1584(); assert(atlas_signatures()[class_rep(159)] == atlas_signatures()[1584]); }
        else if t == 1585 { lemma_chart_1585(); assert(atlas_signatures()[class_rep(161)] == atlas_signatures()[1585]); }
        else if t == 1586 { lemma_chart_1586(); assert(atlas_signatures()[class_rep(158)] == atlas_signatures()[1586]); }
        else if t == 1587 { lemma_chart_1587(); assert(atlas_signatures()[class_rep(156)] == atlas_signatures()[1587]); }
        else if t == 1588 { lemma_chart_1588(); assert(atlas_signatures()[class_rep(153)] == atlas_signatures()[1588]); }
        else if t == 1589 { lemma_chart_1589(); assert(atlas_signatures()[class_rep(155)] == atlas_signatures()[1589]); }
        else if t == 1590 { lemma_chart_1590(); assert(atlas_signatures()[class_rep(160)] == atlas_signatures()[1590]); }
        else if t == 1591 { lemma_chart_1591(); assert(atlas_signatures()[class_rep(161)] == atlas_signatures()[1591]); }
        else if t == 1592 { lemma_chart_1592(); assert(atlas_signatures()[class_rep(158)] == atlas_signatures()[1592]); }
        else if t == 1593 { lemma_chart_1593(); assert(atlas_signatures()[class_rep(157)] == atlas_signatures()[1593]); }
        else if t == 1594 { lemma_chart_1594(); assert(atlas_signatures()[class_rep(150)] == atlas_signatures()[1594]); }
        else if t == 1595 { lemma_chart_1595(); assert(atlas_signatures()[class_rep(152)] == atlas_signatures()[1595]); }
        else if t == 1596 { lemma_chart_1596(); assert(atlas_signatures()[class_rep(160)] == atlas_signatures()[1596]); }
        else if t == 1597 { lemma_chart_1597(); assert(atlas_signatures()[class_rep(159)] == atlas_signatures()[1597]); }
        else if t == 1598 { lemma_chart_1598(); assert(atlas_signatures()[class_rep(155)] == atlas_signatures()[1598]); }
        else if t == 1599 { lemma_chart_1599(); assert(atlas_signatures()[class_rep(154)] == atlas_signatures()[1599]); }
        else if t == 1600 { lemma_chart_1600(); assert(atlas_signatures()[class_rep(151)] == atlas_signatures()[1600]); }
        else if t == 1601 { lemma_chart_1601(); assert(atlas_signatures()[class_rep(152)] == atlas_signatures()[1601]); }
        else if t == 1602 { lemma_chart_1602(); assert(atlas_signatures()[class_rep(157)] == atlas_signatures()[1602]); }
        else if t == 1603 { lemma_chart_1603(); assert(atlas_signatures()[class_rep(156)] == atlas_signatures()[1603]); }
        else if t == 1604 { lemma_chart_1604(); assert(atlas_signatures()[class_rep(153)] == atlas_signatures()[1604]); }
        else if t == 1605 { lemma_chart_1605(); assert(atlas_signatures()[class_rep(154)] == atlas_signatures()[1605]); }
        else if t == 1606 { lemma_chart_1606(); assert(atlas_signatures()[class_rep(151)] == atlas_signatures()[1606]); }
        else { lemma_chart_1607(); assert(atlas_signatures()[class_rep(150)] == atlas_signatures()[1607]); }
    }
}

proof fn lemma_chart_1608()
    ensures
        chart_signature([(1, 3), (0, 2), (0, 1)], heap_table(0)) == chart_signature([(0, 2), (1, 3), (0, 1)], heap_table(0)),
{
    lemma_heap_entries();
    lemma_codes_of_word_67(heap_table(0));
    lemma_codes_of_word_30(heap_table(0));
    lemma_charts_agree_through([(0, 2), (1, 3), (0, 1)], heap_table(0), [(1, 3), (0, 2), (0, 1)], heap_table(0), 16, (0, 2, 1, 3, 4, 6, 5, 7));
}

proof fn lemma_chart_1609()
    ensures
        chart_signature([(1, 3), (0, 2), (0, 1)], heap_table(1)) == chart_signature([(0, 2), (1, 3), (0, 1)], heap_table(1)),
{
    lemma_heap_entries();
    lemma_codes_of_word_67(heap_table(1));
    lemma_codes_of_word_30(heap_table(1));
    lemma_charts_agree_through([(0, 2), (1, 3), (0, 1)], heap_table(1), [(1, 3), (0, 2), (0, 1)], heap_table(1), 16, (0, 2, 1, 3, 4, 6, 5, 7));
}

proof fn lemma_chart_1610()
    ensures
        chart_signature([(1, 3), (0, 2), (0, 1)], heap_table(2)) == chart_signature([(0, 2), (1, 3), (0, 1)], heap_table(1)),
{
    lemma_heap_entries();
    lemma_codes_of_word_67(heap_table(2));
    lemma_codes_of_word_30(heap_table(1));
    lemma_charts_agree_through([(0, 2), (1, 3), (0, 1)], heap_table(1), [(1, 3), (0, 2), (0, 1)], heap_table(2), 17, (1, 4, 0, 5, 2, 7, 3, 6));
}

proof fn lemma_chart_1611()
    ensures
        chart_signature([(1, 3), (0, 2), (0, 1)], heap_table(3)) == chart_signature([(0, 2), (1, 3), (0, 1)], heap_table(3)),
{
    lemma_heap_entries();
    lemma_codes_of_word_67(heap_table(3));
    lemma_codes_of_word_30(heap_table(3));
    lemma_charts_agree_through([(0, 2), (1, 3), (0, 1)], heap_table(3), [(1, 3), (0, 2), (0, 1)], heap_table(3), 16, (0, 2, 1, 3, 4, 6, 5, 7));
}

proof fn lemma_chart_1612()
    ensures
        chart_signature([(1, 3), (0, 2), (0, 1)], heap_table(4)) == chart_signature([(0, 2), (1, 3), (0, 1)], heap_table(3)),
{
    lemma_heap_entries();
    lemma_codes_of_word_67(heap_table(4));
    lemma_codes_of_word_30(heap_table(3));
    lemma_charts_agree_through([(0, 2), (1, 3), (0, 1)], heap_table(3), [(1, 3), (0, 2), (0, 1)], heap_table(4), 17, (1, 4, 0, 5, 2, 7, 3, 6));
}

proof fn lemma_chart_1613()
    ensures
        chart_signature([(1, 3), (0, 2), (0, 1)], heap_table(5)) == chart_signature([(0, 2), (1, 3), (0, 1)], heap_table(0)),
{
    lemma_heap_entries();
    lemma_codes_of_word_67(heap_table(5));
    lemma_codes_of_word_30(heap_table(0));
    lemma_charts_agree_through([(0, 2), (1, 3), (0, 1)], heap_table(0), [(1, 3), (0, 2), (0, 1)], heap_table(5), 17, (1, 4, 0, 5, 2, 7, 3, 6));
}

proof fn lemma_chart_1614()
    ensures
        chart_signature([(1, 3), (0, 2), (0, 1)], heap_table(6)) == chart_signature([(0, 2), (1, 3), (0, 1)], heap_table(6)),
{
    lemma_heap_entries();
    lemma_codes_of_word_67(heap_table(6));
    lemma_codes_of_word_30(heap_table(6));
    lemma_charts_agree_through([(0, 2), (1, 3), (0, 1)], heap_table(6), [(1, 3), (0, 2), (0, 1)], heap_table(6), 16, (0, 2, 1, 3, 4, 6, 5, 7));
}

proof fn lemma_chart_1615()
    ensures
        chart_signature([(1, 3), (0, 2), (0, 1)], heap_table(7)) == chart_signature([(0, 2), (1, 3), (0, 1)], heap_table(1)),
{
    lemma_heap_entries();
    lemma_codes_of_word_67(heap_table(7));
    lemma_codes_of_word_30(heap_table(1));
    lemma_charts_agree_through([(0, 2), (1, 3), (0, 1)], heap_table(1), [(1, 3), (0, 2), (0, 1)], heap_table(7), 18, (2, 0, 4, 6, 1, 3, 7, 5));
}

proof fn lemma_chart_1616()
    ensures
        chart_signature([(1, 3), (0, 2), (0, 1)], heap_table(8)) == chart_signature([(0, 2), (1, 3), (0, 1)], heap_table(1)),
{
    lemma_heap_entries();
    lemma_codes_of_word_67(heap_table(8));
    lemma_codes_of_word_30(heap_table(1));
    lemma_charts_agree_through([(0, 2), (1, 3), (0, 1)], heap_table(1), [(1, 3), (0, 2), (0, 1)], heap_table(8), 19, (4, 1, 2, 7, 0, 5, 6, 3));
}

proof fn lemma_chart_1617()
    ensures
        chart_signature([(1, 3), (0, 2), (0, 1)], heap_table(9)) == chart_signature([(0, 2), (1, 3), (0, 1)], heap_table(9)),
{
    lemma_heap_entries();
    lemma_codes_of_word_67(heap_table(9));
    lemma_codes_of_word_30(heap_table(9));
    lemma_charts_agree_through([(0, 2), (1, 3), (0, 1)], heap_table(9), [(1, 3), (0, 2), (0, 1)], heap_table(9), 16, (0, 2, 1, 3, 4, 6, 5, 7));
}

proof fn lemma_chart_1618()
    ensures
        chart_signature([(1, 3), (0, 2), (0, 1)], heap_table(10)) == chart_signature([(0, 2), (1, 3), (0, 1)], heap_table(9)),
{
    lemma_heap_entries();
    lemma_codes_of_word_67(heap_table(10));
    lemma_codes_of_word_30(heap_table(9));
    lemma_charts_agree_through([(0, 2), (1, 3), (0, 1)], heap_table(9), [(1, 3), (0, 2), (0, 1)], heap_table(10), 17, (1, 4, 0, 5, 2, 7, 3, 6));
}

proof fn lemma_chart_1619()
    ensures
        chart_signature([(1, 3), (0, 2), (0, 1)], heap_table(11)) == chart_signature([(0, 2), (1, 3), (0, 1)], heap_table(6)),
{
    lemma_heap_entries();
    lemma_codes_of_word_67(heap_table(11));
    lemma_codes_of_word_30(heap_table(6));
    lemma_charts_agree_through([(0, 2), (1, 3), (0, 1)], heap_table(6), [(1, 3), (0, 2), (0, 1)], heap_table(11), 17, (1, 4, 0, 5, 2, 7, 3, 6));
}

proof fn lemma_chart_1620()
    ensures
        chart_signature([(1, 3), (0, 2), (0, 1)], heap_table(12)) == chart_signature([(0, 2), (1, 3), (0, 1)], heap_table(6)),
{
    lemma_heap_entries();
    lemma_codes_of_word_67(heap_table(12));
    lemma_codes_of_word_30(heap_table(6));
    lemma_charts_agree_through([(0, 2), (1, 3), (0, 1)], heap_table(6), [(1, 3), (0, 2), (0, 1)], heap_table(12), 18, (2, 0, 4, 6, 1, 3, 7, 5));
}

proof fn lemma_chart_1621()
    ensures
        chart_signature([(1, 3), (0, 2), (0, 1)], heap_table(13)) == chart_signature([(0, 2), (1, 3), (0, 1)], heap_table(0)),
{
    lemma_heap_entries();
    lemma_codes_of_word_67(heap_table(13));
    lemma_codes_of_word_30(heap_table(0));
    lemma_charts_agree_through([(0, 2), (1, 3), (0, 1)], heap_table(0), [(1, 3), (0, 2), (0, 1)], heap_table(13), 18, (2, 0, 4, 6, 1, 3, 7, 5));
}

proof fn lemma_chart_1622()
    ensures
        chart_signature([(1, 3), (0, 2), (0, 1)], heap_table(14)) == chart_signature([(0, 2), (1, 3), (0, 1)], heap_table(0)),
{
    lemma_heap_entries();
    lemma_codes_of_word_67(heap_table(14));
    lemma_codes_of_word_30(heap_table(0));
    lemma_charts_agree_through([(0, 2), (1, 3), (0, 1)], heap_table(0), [(1, 3), (0, 2), (0, 1)], heap_table(14), 19, (4, 1, 2, 7, 0, 5, 6, 3));
}

proof fn lemma_chart_1623()
    ensures
        chart_signature([(1, 3), (0, 2), (0, 1)], heap_table(15)) == chart_signature([(0, 2), (1, 3), (0, 1)], heap_table(15)),
{
    lemma_heap_entries();
    lemma_codes_of_word_67(heap_table(15));
    lemma_codes_of_word_30(heap_table(15));
    lemma_charts_agree_through([(0, 2), (1, 3), (0, 1)], heap_table(15), [(1, 3), (0, 2), (0, 1)], heap_table(15), 16, (0, 2, 1, 3, 4, 6, 5, 7));
}

proof fn lemma_chart_1624()
    ensures
        chart_signature([(1, 3), (0, 2), (0, 1)], heap_table(16)) == chart_signature([(0, 2), (1, 3), (0, 1)], heap_table(15)),
{
    lemma_heap_entries();
    lemma_codes_of_word_67(heap_table(16));
    lemma_codes_of_word_30(heap_table(15));
    lemma_charts_agree_through([(0, 2), (1, 3), (0, 1)], heap_table(15), [(1, 3), (0, 2), (0, 1)], heap_table(16), 17, (1, 4, 0, 5, 2, 7, 3, 6));
}

proof fn lemma_chart_1625()
    ensures
        chart_signature([(1, 3), (0, 2), (0, 1)], heap_table(17)) == chart_signature([(0, 2), (1, 3), (0, 1)], heap_table(6)),
{
    lemma_heap_entries();
    lemma_codes_of_word_67(heap_table(17));
    lemma_codes_of_word_30(heap_table(6));
    lemma_charts_agree_through([(0, 2), (1, 3), (0, 1)], heap_table(6), [(1, 3), (0, 2), (0, 1)], heap_table(17), 19, (4, 1, 2, 7, 0, 5, 6, 3));
}

proof fn lemma_chart_1626()
    ensures
        chart_signature([(1, 3), (0, 2), (0, 1)], heap_table(18)) == chart_signature([(0, 2), (1, 3), (0, 1)], heap_table(9)),
{
    lemma_heap_entries();
    lemma_codes_of_word_67(heap_table(18));
    lemma_codes_of_word_30(heap_table(9));
    lemma_charts_agree_through([(0, 2), (1, 3), (0, 1)], heap_table(9), [(1, 3), (0, 2), (0, 1)], heap_table(18), 18, (2, 0, 4, 6, 1, 3, 7, 5));
}

proof fn lemma_chart_1627()
    ensures
        chart_signature([(1, 3), (0, 2), (0, 1)], heap_table(19)) == chart_signature([(0, 2), (1, 3), (0, 1)], heap_table(3)),
{
    lemma_heap_entries();
    lemma_codes_of_word_67(heap_table(19));
    lemma_codes_of_word_30(heap_table(3));
    lemma_charts_agree_through([(0, 2), (1, 3), (0, 1)], heap_table(3), [(1, 3), (0, 2), (0, 1)], heap_table(19), 18, (2, 0, 4, 6, 1, 3, 7, 5));
}

proof fn lemma_chart_1628()
    ensures
        chart_signature([(1, 3), (0, 2), (0, 1)], heap_table(20)) == chart_signature([(0, 2), (1, 3), (0, 1)], heap_table(3)),
{
    lemma_heap_entries();
    lemma_codes_of_word_67(heap_table(20));
    lemma_codes_of_word_30(heap_table(3));
    lemma_charts_agree_through([(0, 2), (1, 3), (0, 1)], heap_table(3), [(1, 3), (0, 2), (0, 1)], heap_table(20), 19, (4, 1, 2, 7, 0, 5, 6, 3));
}

proof fn lemma_chart_1629()
    ensures
        chart_signature([(1, 3), (0, 2), (0, 1)], heap_table(21)) == chart_signature([(0, 2), (1, 3), (0, 1)], heap_table(15)),
{
    lemma_heap_entries();
    lemma_codes_of_word_67(heap_table(21));
    lemma_codes_of_word_30(heap_table(15));
    lemma_charts_agree_through([(0, 2), (1, 3), (0, 1)], heap_table(15), [(1, 3), (0, 2), (0, 1)], heap_table(21), 18, (2, 0, 4, 6, 1, 3, 7, 5));
}

proof fn lemma_chart_1630()
    ensures
        chart_signature([(1, 3), (0, 2), (0, 1)], heap_table(22)) == chart_signature([(0, 2), (1, 3), (0, 1)], heap_table(15)),
{
    lemma_heap_entries();
    lemma_codes_of_word_67(heap_table(22));
    lemma_codes_of_word_30(heap_table(15));
    lemma_charts_agree_through([(0, 2), (1, 3), (0, 1)], heap_table(15), [(1, 3), (0, 2), (0, 1)], heap_table(22), 19, (4, 1, 2, 7, 0, 5, 6, 3));
}

proof fn lemma_chart_1631()
    ensures
        chart_signature([(1, 3), (0, 2), (0, 1)], heap_table(23)) == chart_signature([(0, 2), (1, 3), (0, 1)], heap_table(9)),
{
    lemma_heap_entries();
    lemma_codes_of_word_67(heap_table(23));
    lemma_codes_of_word_30(heap_table(9));
    lemma_charts_agree_through([(0, 2), (1, 3), (0, 1)], heap_table(9), [(1, 3), (0, 2), (0, 1)], heap_table(23), 19, (4, 1, 2, 7, 0, 5, 6, 3));
}

/// Every chart of atlas word 67 shares its signature with the first chart
/// of a class below 216.
pub proof fn lemma_charts_of_word_67()
    ensures
        forall|t: int| 1608 <= t < 1632 ==> #[trigger] meets_class_below(t, 216),
{
    lemma_census_words();
    assert forall|t: int| 1608 <= t < 1632 implies #[trigger] meets_class_below(t, 216) by {
        if t == 1608 { lemma_chart_1608(); assert(atlas_signatures()[class_rep(174)] == atlas_signatures()[1608]); }
        else if t == 1609 { lemma_chart_1609(); assert(atlas_signatures()[class_rep(175)] == atlas_signatures()[1609]); }
        else if t == 1610 { lemma_chart_1610(); assert(atlas_signatures()[class_rep(175)] == atlas_signatures()[1610]); }
        else if t == 1611 { lemma_chart_1611(); assert(atlas_signatures()[class_rep(176)] == atlas_signatures()[1611]); }
        else if t == 1612 { lemma_chart_1612(); assert(atlas_signatures()[class_rep(176)] == atlas_signatures()[1612]); }
        else if t == 1613 { lemma_chart_1613(); assert(atlas_signatures()[class_rep(174)] == atlas_signatures()[1613]); }
        else if t == 1614 { lemma_chart_1614(); assert(atlas_signatures()[class_rep(177)] == atlas_signatures()[1614]); }
        else if t == 1615 { lemma_chart_1615(); assert(atlas_signatures()[class_rep(175)] == atlas_signatures()[1615]); }
        else if t == 1616 { lemma_chart_1616(); assert(atlas_signatures()[class_rep(175)] == atlas_signatures()[1616]); }
        else if t == 1617 { lemma_chart_1617(); assert(atlas_signatures()[class_rep(178)] == atlas_signatures()[1617]); }
        else if t == 1618 { lemma_chart_1618(); assert(atlas_signatures()[class_rep(178)] == atlas_signatures()[1618]); }
        else if t == 1619 { lemma_chart_1619(); assert(atlas_signatures()[class_rep(177)] == atlas_signatures()[1619]); }
        else if t == 1620 { lemma_chart_1620(); assert(atlas_signatures()[class_rep(177)] == atlas_signatures()[1620]); }
        else if t == 1621 { lemma_chart_1621(); assert(atlas_signatures()[class_rep(174)] == atlas_signatures()[1621]); }
        else if t == 1622 { lemma_chart_1622(); assert(atlas_signatures()[class_rep(174)] == atlas_signatures()[1622]); }
        else if t == 1623 { lemma_chart_1623(); assert(atlas_signatures()[class_rep(179)] == atlas_signatures()[1623]); }
        else if t == 1624 { lemma_chart_1624(); assert(atlas_signatures()[class_rep(179)] == atlas_signatures()[1624]); }
        else if t == 1625 { lemma_chart_1625(); assert(atlas_signatures()[class_rep(177)] == atlas_signatures()[1625]); }
        else if t == 1626 { lemma_chart_1626(); assert(atlas_signatures()[class_rep(178)] == atlas_signatures()[1626]); }
        else if t == 1627 { lemma_chart_1627(); assert(atlas_signatures()[class_rep(176)] == atlas_signatures()[1627]); }
        else if t == 1628 { lemma_chart_1628(); assert(atlas_signatures()[class_rep(176)] == atlas_signatures()[1628]); }
        else if t == 1629 { lemma_chart_1629(); assert(atlas_signatures()[class_rep(179)] == atlas_signatures()[1629]); }
        else if t == 1630 { lemma_chart_1630(); assert(atlas_signatures()[class_rep(179)] == atlas_signatures()[1630]); }
        else { lemma_chart_1631(); assert(atlas_signatures()[class_rep(178)] == atlas_signatures()[1631]); }
    }
}

proof fn lemma_chart_1632()
    ensures
        chart_signature([(1, 3), (0, 2), (0, 3)], heap_table(0)) == chart_signature([(0, 1), (2, 3), (0, 3)], heap_table(6)),
{
    lemma_heap_entries();
    lemma_codes_of_word_68(heap_table(0));
    lemma_codes_of_word_21(heap_table(6));
    lemma_charts_agree_through([(0, 1), (2, 3), (0, 3)], heap_table(6), [(1, 3), (0, 2), (0, 3)], heap_table(0), 4, (3, 5, 6, 0, 7, 1, 2, 4));
}

proof fn lemma_chart_1633()
    ensures
        chart_signature([(1, 3), (0, 2), (0, 3)], heap_table(1)) == chart_signature([(0, 1), (2, 3), (0, 3)], heap_table(12)),
{
    lemma_heap_entries();
    lemma_codes_of_word_68(heap_table(1));
    lemma_codes_of_word_21(heap_table(12));
    lemma_charts_agree_through([(0, 1), (2, 3), (0, 3)], heap_table(12), [(1, 3), (0, 2), (0, 3)], heap_table(1), 4, (3, 5, 6, 0, 7, 1, 2, 4));
}

proof fn lemma_chart_1634()
    ensures
        chart_signature([(1, 3), (0, 2), (0, 3)], heap_table(2)) == chart_signature([(0, 1), (2, 3), (0, 3)], heap_table(12)),
{
    lemma_heap_entries();
    lemma_codes_of_word_68(heap_table(2));
    lemma_codes_of_word_21(heap_table(12));
    lemma_charts_agree_through([(0, 1), (2, 3), (0, 3)], heap_table(12), [(1, 3), (0, 2), (0, 3)], heap_table(2), 6, (6, 7, 3, 2, 5, 4, 0, 1));
}

proof fn lemma_chart_1635()
    ensures
        chart_signature([(1, 3), (0, 2), (0, 3)], heap_table(3)) == chart_signature([(0, 1), (2, 3), (0, 3)], heap_table(8)),
{
    lemma_heap_entries();
    lemma_codes_of_word_68(heap_table(3));
    lemma_codes_of_word_21(heap_table(8));
    lemma_charts_agree_through([(0, 1), (2, 3), (0, 3)], heap_table(8), [(1, 3), (0, 2), (0, 3)], heap_table(3), 5, (5, 3, 7, 1, 6, 0, 4, 2));
}

proof fn lemma_chart_1636()
    ensures
        chart_signature([(1, 3), (0, 2), (0, 3)], heap_table(4)) == chart_signature([(0, 1), (2, 3), (0, 3)], heap_table(8)),
{
    lemma_heap_entries();
    lemma_codes_of_word_68(heap_table(4));
    lemma_codes_of_word_21(heap_table(8));
    lemma_charts_agree_through([(0, 1), (2, 3), (0, 3)], heap_table(8), [(1, 3), (0, 2), (0, 3)], heap_table(4), 7, (7, 6, 5, 4, 3, 2, 1, 0));
}

proof fn lemma_chart_1637()
    ensures
        chart_signature([(1, 3), (0, 2), (0, 3)], heap_table(5)) == chart_signature([(0, 1), (2, 3), (0, 3)], heap_table(6)),
{
    lemma_heap_entries();
    lemma_codes_of_word_68(heap_table(5));
    lemma_codes_of_word_21(heap_table(6));
    lemma_charts_agree_through([(0, 1), (2, 3), (0, 3)], heap_table(6), [(1, 3), (0, 2), (0, 3)], heap_table(5), 6, (6, 7, 3, 2, 5, 4, 0, 1));
}

proof fn lemma_chart_1638()
    ensures
        chart_signature([(1, 3), (0, 2), (0, 3)], heap_table(6)) == chart_signature([(0, 1), (2, 3), (0, 3)], heap_table(0)),
{
    lemma_heap_entries();
    lemma_codes_of_word_68(heap_table(6));
    lemma_codes_of_word_21(heap_table(0));
    lemma_charts_agree_through([(0, 1), (2, 3), (0, 3)], heap_table(0), [(1, 3), (0, 2), (0, 3)], heap_table(6), 4, (3, 5, 6, 0, 7, 1, 2, 4));
}

proof fn lemma_chart_1639()
    ensures
        chart_signature([(1, 3), (0, 2), (0, 3)], heap_table(7)) == chart_signature([(0, 1), (2, 3), (0, 3)], heap_table(12)),
{
    lemma_heap_entries();
    lemma_codes_of_word_68(heap_table(7));
    lemma_codes_of_word_21(heap_table(12));
    lemma_charts_agree_through([(0, 1), (2, 3), (0, 3)], heap_table(12), [(1, 3), (0, 2), (0, 3)], heap_table(7), 5, (5, 3, 7, 1, 6, 0, 4, 2));
}

proof fn lemma_chart_1640()
    ensures
        chart_signature([(1, 3), (0, 2), (0, 3)], heap_table(8)) == chart_signature([(0, 1), (2, 3), (0, 3)], heap_table(12)),
{
    lemma_heap_entries();
    lemma_codes_of_word_68(heap_table(8));
    lemma_codes_of_word_21(heap_table(12));
    lemma_charts_agree_through([(0, 1), (2, 3), (0, 3)], heap_table(12), [(1, 3), (0, 2), (0, 3)], heap_table(8), 7, (7, 6, 5, 4, 3, 2, 1, 0));
}

proof fn lemma_chart_1641()
    ensures
        chart_signature([(1, 3), (0, 2), (0, 3)], heap_table(9)) == chart_signature([(0, 1), (2, 3), (0, 3)], heap_table(2)),
{
    lemma_heap_entries();
    lemma_codes_of_word_68(heap_table(9));
    lemma_codes_of_word_21(heap_table(2));
    lemma_charts_agree_through([(0, 1), (2, 3), (0, 3)], heap_table(2), [(1, 3), (0, 2), (0, 3)], heap_table(9), 5, (5, 3, 7, 1, 6, 0, 4, 2));
}

proof fn lemma_chart_1642()
    ensures
        chart_signature([(1, 3), (0, 2), (0, 3)], heap_table(10)) == chart_signature([(0, 1), (2, 3), (0, 3)], heap_table(2)),
{
    lemma_heap_entries();
    lemma_codes_of_word_68(heap_table(10));
    lemma_codes_of_word_21(heap_table(2));
    lemma_charts_agree_through([(0, 1), (2, 3), (0, 3)], heap_table(2), [(1, 3), (0, 2), (0, 3)], heap_table(10), 7, (7, 6, 5, 4, 3, 2, 1, 0));
}

proof fn lemma_chart_1643()
    ensures
        chart_signature([(1, 3), (0, 2), (0, 3)], heap_table(11)) == chart_signature([(0, 1), (2, 3), (0, 3)], heap_table(0)),
{
    lemma_heap_entries();
    lemma_codes_of_word_68(heap_table(11));
    lemma_codes_of_word_21(heap_table(0));
    lemma_charts_agree_through([(0, 1), (2, 3), (0, 3)], heap_table(0), [(1, 3), (0, 2), (0, 3)], heap_table(11), 6, (6, 7, 3, 2, 5, 4, 0, 1));
}

proof fn lemma_chart_1644()
    ensures
        chart_signature([(1, 3), (0, 2), (0, 3)], heap_table(12)) == chart_signature([(0, 1), (2, 3), (0, 3)], heap_table(0)),
{
    lemma_heap_entries();
    lemma_codes_of_word_68(heap_table(12));
    lemma_codes_of_word_21(heap_table(0));
    lemma_charts_agree_through([(0, 1), (2, 3), (0, 3)], heap_table(0), [(1, 3), (0, 2), (0, 3)], heap_table(12), 5, (5, 3, 7, 1, 6, 0, 4, 2));
}

proof fn lemma_chart_1645()
    ensures
        chart_signature([(1, 3), (0, 2), (0, 3)], heap_table(13)) == chart_signature([(0, 1), (2, 3), (0, 3)], heap_table(6)),
{
    lemma_heap_entries();
    lemma_codes_of_word_68(heap_table(13));
    lemma_codes_of_word_21(heap_table(6));
    lemma_charts_agree_through([(0, 1), (2, 3), (0, 3)], heap_table(6), [(1, 3), (0, 2), (0, 3)], heap_table(13), 5, (5, 3, 7, 1, 6, 0, 4, 2));
}

proof fn lemma_chart_1646()
    ensures
        chart_signature([(1, 3), (0, 2), (0, 3)], heap_table(14)) == chart_signature([(0, 1), (2, 3), (0, 3)], heap_table(6)),
{
    lemma_heap_entries();
    lemma_codes_of_word_68(heap_table(14));
    lemma_codes_of_word_21(heap_table(6));
    lemma_charts_agree_through([(0, 1), (2, 3), (0, 3)], heap_table(6), [(1, 3), (0, 2), (0, 3)], heap_table(14), 7, (7, 6, 5, 4, 3, 2, 1, 0));
}

proof fn lemma_chart_1647()
    ensures
        chart_signature([(1, 3), (0, 2), (0, 3)], heap_table(15)) == chart_signature([(0, 1), (2, 3), (0, 3)], heap_table(4)),
{
    lemma_heap_entries();
    lemma_codes_of_word_68(heap_table(15));
    lemma_codes_of_word_21(heap_table(4));
    lemma_charts_agree_through([(0, 1), (2, 3), (0, 3)], heap_table(4), [(1, 3), (0, 2), (0, 3)], heap_table(15), 4, (3, 5, 6, 0, 7, 1, 2, 4));
}

proof fn lemma_chart_1648()
    ensures
        chart_signature([(1, 3), (0, 2), (0, 3)], heap_table(16)) == chart_signature([(0, 1), (2, 3), (0, 3)], heap_table(4)),
{
    lemma_heap_entries();
    lemma_codes_of_word_68(heap_table(16));
    lemma_codes_of_word_21(heap_table(4));
    lemma_charts_agree_through([(0, 1), (2, 3), (0, 3)], heap_table(4), [(1, 3), (0, 2), (0, 3)], heap_table(16), 6, (6, 7, 3, 2, 5, 4, 0, 1));
}

proof fn lemma_chart_1649()
    ensures
        chart_signature([(1, 3), (0, 2), (0, 3)], heap_table(17)) == chart_signature([(0, 1), (2, 3), (0, 3)], heap_table(0)),
{
    lemma_heap_entries();
    lemma_codes_of_word_68(heap_table(17));
    lemma_codes_of_word_21(heap_table(0));
    lemma_charts_agree_through([(0, 1), (2, 3), (0, 3)], heap_table(0), [(1, 3), (0, 2), (0, 3)], heap_table(17), 7, (7, 6, 5, 4, 3, 2, 1, 0));
}

proof fn lemma_chart_1650()
    ensures
        chart_signature([(1, 3), (0, 2), (0, 3)], heap_table(18)) == chart_signature([(0, 1), (2, 3), (0, 3)], heap_table(2)),
{
    lemma_heap_entries();
    lemma_codes_of_word_68(heap_table(18));
    lemma_codes_of_word_21(heap_table(2));
    lemma_charts_agree_through([(0, 1), (2, 3), (0, 3)], heap_table(2), [(1, 3), (0, 2), (0, 3)], heap_table(18), 4, (3, 5, 6, 0, 7, 1, 2, 4));
}

proof fn lemma_chart_1651()
    ensures
        chart_signature([(1, 3), (0, 2), (0, 3)], heap_table(19)) == chart_signature([(0, 1), (2, 3), (0, 3)], heap_table(8)),
{
    lemma_heap_entries();
    lemma_codes_of_word_68(heap_table(19));
    lemma_codes_of_word_21(heap_table(8));
    lemma_charts_agree_through([(0, 1), (2, 3), (0, 3)], heap_table(8), [(1, 3), (0, 2), (0, 3)], heap_table(19), 4, (3, 5, 6, 0, 7, 1, 2, 4));
}

proof fn lemma_chart_1652()
    ensures
        chart_signature([(1, 3), (0, 2), (0, 3)], heap_table(20)) == chart_signature([(0, 1), (2, 3), (0, 3)], heap_table(8)),
{
    lemma_heap_entries();
    lemma_codes_of_word_68(heap_table(20));
    lemma_codes_of_word_21(heap_table(8));
    lemma_charts_agree_through([(0, 1), (2, 3), (0, 3)], heap_table(8), [(1, 3), (0, 2), (0, 3)], heap_table(20), 6, (6, 7, 3, 2, 5, 4, 0, 1));
}

proof fn lemma_chart_1653()
    ensures
        chart_signature([(1, 3), (0, 2), (0, 3)], heap_table(21)) == chart_signature([(0, 1), (2, 3), (0, 3)], heap_table(4)),
{
    lemma_heap_entries();
    lemma_codes_of_word_68(heap_table(21));
    lemma_codes_of_word_21(heap_table(4));
    lemma_charts_agree_through([(0, 1), (2, 3), (0, 3)], heap_table(4), [(1, 3), (0, 2), (0, 3)], heap_table(21), 5, (5, 3, 7, 1, 6, 0, 4, 2));
}

proof fn lemma_chart_1654()
    ensures
        chart_signature([(1, 3), (0, 2), (0, 3)], heap_table(22)) == chart_signature([(0, 1), (2, 3), (0, 3)], heap_table(4)),
{
    lemma_heap_entries();
    lemma_codes_of_word_68(heap_table(22));
    lemma_codes_of_word_21(heap_table(4));
    lemma_charts_agree_through([(0, 1), (2, 3), (0, 3)], heap_table(4), [(1, 3), (0, 2), (0, 3)], heap_table(22), 7, (7, 6, 5, 4, 3, 2, 1, 0));
}

proof fn lemma_chart_1655()
    ensures
        chart_signature([(1, 3), (0, 2), (0, 3)], heap_table(23)) == chart_signature([(0, 1), (2, 3), (0, 3)], heap_table(2)),
{
    lemma_heap_entries();
    lemma_codes_of_word_68(heap_table(23));
    lemma_codes_of_word_21(heap_table(2));
    lemma_charts_agree_through([(0, 1), (2, 3), (0, 3)], heap_table(2), [(1, 3), (0, 2), (0, 3)], heap_table(23), 6, (6, 7, 3, 2, 5, 4, 0, 1));
}

/// Every chart of atlas word 68 shares its signature with the first chart
/// of a class below 216.
pub proof fn lemma_charts_of_word_68()
    ensures
        forall|t: int| 1632 <= t < 1656 ==> #[trigger] meets_class_below(t, 216),
{
    lemma_census_words();
    assert forall|t: int| 1632 <= t < 1656 implies #[trigger] meets_class_below(t, 216) by {
        if t == 1632 { lemma_chart_1632(); assert(atlas_signatures()[class_rep(135)] == atlas_signatures()[1632]); }
        else if t == 1633 { lemma_chart_1633(); assert(atlas_signatures()[class_rep(137)] == atlas_signatures()[1633]); }
        else if t == 1634 { lemma_chart_1634(); assert(atlas_signatures()[class_rep(137)] == atlas_signatures()[1634]); }
        else if t == 1635 { lemma_chart_1635(); assert(atlas_signatures()[class_rep(136)] == atlas_signatures()[1635]); }
        else if t == 1636 { lemma_chart_1636(); assert(atlas_signatures()[class_rep(136)] == atlas_signatures()[1636]); }
        else if t == 1637 { lemma_chart_1637(); assert(atlas_signatures()[class_rep(135)] == atlas_signatures()[1637]); }
        else if t == 1638 { lemma_chart_1638(); assert(atlas_signatures()[class_rep(132)] == atlas_signatures()[1638]); }
        else if t == 1639 { lemma_chart_1639(); assert(atlas_signatures()[class_rep(137)] == atlas_signatures()[1639]); }
        else if t == 1640 { lemma_chart_1640(); assert(atlas_signatures()[class_rep(137)] == atlas_signatures()[1640]); }
        else if t == 1641 { lemma_chart_1641(); assert(atlas_signatures()[class_rep(133)] == atlas_signatures()[1641]); }
        else if t == 1642 { lemma_chart_1642(); assert(atlas_signatures()[class_rep(133)] == atlas_signatures()[1642]); }
        else if t == 1643 { lemma_chart_1643(); assert(atlas_signatures()[class_rep(132)] == atlas_signatures()[1643]); }
        else if t == 1644 { lemma_chart_1644(); assert(atlas_signatures()[class_rep(132)] == atlas_signatures()[1644]); }
        else if t == 1645 { lemma_chart_1645(); assert(atlas_signatures()[class_rep(135)] == atlas_signatures()[1645]); }
        else if t == 1646 { lemma_chart_1646(); assert(atlas_signatures()[class_rep(135)] == atlas_signatures()[1646]); }
        else if t == 1647 { lemma_chart_1647(); assert(atlas_signatures()[class_rep(134)] == atlas_signatures()[1647]); }
        else if t == 1648 { lemma_chart_1648(); assert(atlas_signatures()[class_rep(134)] == atlas_signatures()[1648]); }
        else if t == 1649 { lemma_chart_1649(); assert(atlas_signatures()[class_rep(132)] == atlas_signatures()[1649]); }
        else if t == 1650 { lemma_chart_1650(); assert(atlas_signatures()[class_rep(133)] == atlas_signatures()[1650]); }
        else if t == 1651 { lemma_chart_1651(); assert(atlas_signatures()[class_rep(136)] == atlas_signatures()[1651]); }
        else if t == 1652 { lemma_chart_1652(); assert(atlas_signatures()[class_rep(136)] == atlas_signatures()[1652]); }
        else if t == 1653 { lemma_chart_1653(); assert(atlas_signatures()[class_rep(134)] == atlas_signatures()[1653]); }
        else if t == 1654 { lemma_chart_1654(); assert(atlas_signatures()[class_rep(134)] == atlas_signatures()[1654]); }
        else { lemma_chart_1655(); assert(atlas_signatures()[class_rep(133)] == atlas_signatures()[1655]); }
    }
}

proof fn lemma_chart_1656()
    ensures
        chart_signature([(1, 3), (0, 2), (1, 2)], heap_table(0)) == chart_signature([(0, 2), (1, 3), (1, 2)], heap_table(0)),
{
    lemma_heap_entries();
    lemma_codes_of_word_69(heap_table(0));
    lemma_codes_of_word_4(heap_table(0));
    lemma_charts_agree_through([(0, 2), (1, 3), (1, 2)], heap_table(0), [(1, 3), (0, 2), (1, 2)], heap_table(0), 16, (0, 2, 1, 3, 4, 6, 5, 7));
}

proof fn lemma_chart_1657()
    ensures
        chart_signature([(1, 3), (0, 2), (1, 2)], heap_table(1)) == chart_signature([(0, 2), (1, 3), (1, 2)], heap_table(1)),
{
    lemma_heap_entries();
    lemma_codes_of_word_69(heap_table(1));
    lemma_codes_of_word_4(heap_table(1));
    lemma_charts_agree_through([(0, 2), (1, 3), (1, 2)], heap_table(1), [(1, 3), (0, 2), (1, 2)], heap_table(1), 16, (0, 2, 1, 3, 4, 6, 5, 7));
}

proof fn lemma_chart_1658()
    ensures
        chart_signature([(1, 3), (0, 2), (1, 2)], heap_table(2)) == chart_signature([(0, 2), (1, 3), (1, 2)], heap_table(1)),
{
    lemma_heap_entries();
    lemma_codes_of_word_69(heap_table(2));
    lemma_codes_of_word_4(heap_table(1));
    lemma_charts_agree_through([(0, 2), (1, 3), (1, 2)], heap_table(1), [(1, 3), (0, 2), (1, 2)], heap_table(2), 17, (1, 4, 0, 5, 2, 7, 3, 6));
}

proof fn lemma_chart_1659()
    ensures
        chart_signature([(1, 3), (0, 2), (1, 2)], heap_table(3)) == chart_signature([(0, 2), (1, 3), (1, 2)], heap_table(3)),
{
    lemma_heap_entries();
    lemma_codes_of_word_69(heap_table(3));
    lemma_codes_of_word_4(heap_table(3));
    lemma_charts_agree_through([(0, 2), (1, 3), (1, 2)], heap_table(3), [(1, 3), (0, 2), (1, 2)], heap_table(3), 16, (0, 2, 1, 3, 4, 6, 5, 7));
}

proof fn lemma_chart_1660()
    ensures
        chart_signature([(1, 3), (0, 2), (1, 2)], heap_table(4)) == chart_signature([(0, 2), (1, 3), (1, 2)], heap_table(3)),
{
    lemma_heap_entries();
    lemma_codes_of_word_69(heap_table(4));
    lemma_codes_of_word_4(heap_table(3));
    lemma_charts_agree_through([(0, 2), (1, 3), (1, 2)], heap_table(3), [(1, 3), (0, 2), (1, 2)], heap_table(4), 17, (1, 4, 0, 5, 2, 7, 3, 6));
}

proof fn lemma_chart_1661()
    ensures
        chart_signature([(1, 3), (0, 2), (1, 2)], heap_table(5)) == chart_signature([(0, 2), (1, 3), (1, 2)], heap_table(0)),
{
    lemma_heap_entries();
    lemma_codes_of_word_69(heap_table(5));
    lemma_codes_of_word_4(heap_table(0));
    lemma_charts_agree_through([(0, 2), (1, 3), (1, 2)], heap_table(0), [(1, 3), (0, 2), (1, 2)], heap_table(5), 17, (1, 4, 0, 5, 2, 7, 3, 6));
}

proof fn lemma_chart_1662()
    ensures
        chart_signature([(1, 3), (0, 2), (1, 2)], heap_table(6)) == chart_signature([(0, 2), (1, 3), (1, 2)], heap_table(6)),
{
    lemma_heap_entries();
    lemma_codes_of_word_69(heap_table(6));
    lemma_codes_of_word_4(heap_table(6));
    lemma_charts_agree_through([(0, 2), (1, 3), (1, 2)], heap_table(6), [(1, 3), (0, 2), (1, 2)], heap_table(6), 16, (0, 2, 1, 3, 4, 6, 5, 7));
}

proof fn lemma_chart_1663()
    ensures
        chart_signature([(1, 3), (0, 2), (1, 2)], heap_table(7)) == chart_signature([(0, 2), (1, 3), (1, 2)], heap_table(1)),
{
    lemma_heap_entries();
    lemma_codes_of_word_69(heap_table(7));
    lemma_codes_of_word_4(heap_table(1));
    lemma_charts_agree_through([(0, 2), (1, 3), (1, 2)], heap_table(1), [(1, 3), (0, 2), (1, 2)], heap_table(7), 18, (2, 0, 4, 6, 1, 3, 7, 5));
}

proof fn lemma_chart_1664()
    ensures
        chart_signature([(1, 3), (0, 2), (1, 2)], heap_table(8)) == chart_signature([(0, 2), (1, 3), (1, 2)], heap_table(1)),
{
    lemma_heap_entries();
    lemma_codes_of_word_69(heap_table(8));
    lemma_codes_of_word_4(heap_table(1));
    lemma_charts_agree_through([(0, 2), (1, 3), (1, 2)], heap_table(1), [(1, 3), (0, 2), (1, 2)], heap_table(8), 19, (4, 1, 2, 7, 0, 5, 6, 3));
}

proof fn lemma_chart_1665()
    ensures
        chart_signature([(1, 3), (0, 2), (1, 2)], heap_table(9)) == chart_signature([(0, 2), (1, 3), (1, 2)], heap_table(9)),
{
    lemma_heap_entries();
    lemma_codes_of_word_69(heap_table(9));
    lemma_codes_of_word_4(heap_table(9));
    lemma_charts_agree_through([(0, 2), (1, 3), (1, 2)], heap_table(9), [(1, 3), (0, 2), (1, 2)], heap_table(9), 16, (0, 2, 1, 3, 4, 6, 5, 7));
}

proof fn lemma_chart_1666()
    ensures
        chart_signature([(1, 3), (0, 2), (1, 2)], heap_table(10)) == chart_signature([(0, 2), (1, 3), (1, 2)], heap_table(9)),
{
    lemma_heap_entries();
    lemma_codes_of_word_69(heap_table(10));
    lemma_codes_of_word_4(heap_table(9));
    lemma_charts_agree_through([(0, 2), (1, 3), (1, 2)], heap_table(9), [(1, 3), (0, 2), (1, 2)], heap_table(10), 17, (1, 4, 0, 5, 2, 7, 3, 6));
}

proof fn lemma_chart_1667()
    ensures
        chart_signature([(1, 3), (0, 2), (1, 2)], heap_table(11)) == chart_signature([(0, 2), (1, 3), (1, 2)], heap_table(6)),
{
    lemma_heap_entries();
    lemma_codes_of_word_69(heap_table(11));
    lemma_codes_of_word_4(heap_table(6));
    lemma_charts_agree_through([(0, 2), (1, 3), (1, 2)], heap_table(6), [(1, 3), (0, 2), (1, 2)], heap_table(11), 17, (1, 4, 0, 5, 2, 7, 3, 6));
}

proof fn lemma_chart_1668()
    ensures
        chart_signature([(1, 3), (0, 2), (1, 2)], heap_table(12)) == chart_signature([(0, 2), (1, 3), (1, 2)], heap_table(6)),
{
    lemma_heap_entries();
    lemma_codes_of_word_69(heap_table(12));
    lemma_codes_of_word_4(heap_table(6));
    lemma_charts_agree_through([(0, 2), (1, 3), (1, 2)], heap_table(6), [(1, 3), (0, 2), (1, 2)], heap_table(12), 18, (2, 0, 4, 6, 1, 3, 7, 5));
}

proof fn lemma_chart_1669()
    ensures
        chart_signature([(1, 3), (0, 2), (1, 2)], heap_table(13)) == chart_signature([(0, 2), (1, 3), (1, 2)], heap_table(0)),
{
    lemma_heap_entries();
    lemma_codes_of_word_69(heap_table(13));
    lemma_codes_of_word_4(heap_table(0));
    lemma_charts_agree_through([(0, 2), (1, 3), (1, 2)], heap_table(0), [(1, 3), (0, 2), (1, 2)], heap_table(13), 18, (2, 0, 4, 6, 1, 3, 7, 5));
}

proof fn lemma_chart_1670()
    ensures
        chart_signature([(1, 3), (0, 2), (1, 2)], heap_table(14)) == chart_signature([(0, 2), (1, 3), (1, 2)], heap_table(0)),
{
    lemma_heap_entries();
    lemma_codes_of_word_69(heap_table(14));
    lemma_codes_of_word_4(heap_table(0));
    lemma_charts_agree_through([(0, 2), (1, 3), (1, 2)], heap_table(0), [(1, 3), (0, 2), (1, 2)], heap_table(14), 19, (4, 1, 2, 7, 0, 5, 6, 3));
}

proof fn lemma_chart_1671()
    ensures
        chart_signature([(1, 3), (0, 2), (1, 2)], heap_table(15)) == chart_signature([(0, 2), (1, 3), (1, 2)], heap_table(15)),
{
    lemma_heap_entries();
    lemma_codes_of_word_69(heap_table(15));
    lemma_codes_of_word_4(heap_table(15));
    lemma_charts_agree_through([(0, 2), (1, 3), (1, 2)], heap_table(15), [(1, 3), (0, 2), (1, 2)], heap_table(15), 16, (0, 2, 1, 3, 4, 6, 5, 7));
}

proof fn lemma_chart_1672()
    ensures
        chart_signature([(1, 3), (0, 2), (1, 2)], heap_table(16)) == chart_signature([(0, 2), (1, 3), (1, 2)], heap_table(15)),
{
    lemma_heap_entries();
    lemma_codes_of_word_69(heap_table(16));
    lemma_codes_of_word_4(heap_table(15));
    lemma_charts_agree_through([(0, 2), (1, 3), (1, 2)], heap_table(15), [(1, 3), (0, 2), (1, 2)], heap_table(16), 17, (1, 4, 0, 5, 2, 7, 3, 6));
}

proof fn lemma_chart_1673()
    ensures
        chart_signature([(1, 3), (0, 2), (1, 2)], heap_table(17)) == chart_signature([(0, 2), (1, 3), (1, 2)], heap_table(6)),
{
    lemma_heap_entries();
    lemma_codes_of_word_69(heap_table(17));
    lemma_codes_of_word_4(heap_table(6));
    lemma_charts_agree_through([(0, 2), (1, 3), (1, 2)], heap_table(6), [(1, 3), (0, 2), (1, 2)], heap_table(17), 19, (4, 1, 2, 7, 0, 5, 6, 3));
}

proof fn lemma_chart_1674()
    ensures
        chart_signature([(1, 3), (0, 2), (1, 2)], heap_table(18)) == chart_signature([(0, 2), (1, 3), (1, 2)], heap_table(9)),
{
    lemma_heap_entries();
    lemma_codes_of_word_69(heap_table(18));
    lemma_codes_of_word_4(heap_table(9));
    lemma_charts_agree_through([(0, 2), (1, 3), (1, 2)], heap_table(9), [(1, 3), (0, 2), (1, 2)], heap_table(18), 18, (2, 0, 4, 6, 1, 3, 7, 5));
}

proof fn lemma_chart_1675()
    ensures
        chart_signature([(1, 3), (0, 2), (1, 2)], heap_table(19)) == chart_signature([(0, 2), (1, 3), (1, 2)], heap_table(3)),
{
    lemma_heap_entries();
    lemma_codes_of_word_69(heap_table(19));
    lemma_codes_of_word_4(heap_table(3));
    lemma_charts_agree_through([(0, 2), (1, 3), (1, 2)], heap_table(3), [(1, 3), (0, 2), (1, 2)], heap_table(19), 18, (2, 0, 4, 6, 1, 3, 7, 5));
}

proof fn lemma_chart_1676()
    ensures
        chart_signature([(1, 3), (0, 2), (1, 2)], heap_table(20)) == chart_signature([(0, 2), (1, 3), (1, 2)], heap_table(3)),
{
    lemma_heap_entries();
    lemma_codes_of_word_69(heap_table(20));
    lemma_codes_of_word_4(heap_table(3));
    lemma_charts_agree_through([(0, 2), (1, 3), (1, 2)], heap_table(3), [(1, 3), (0, 2), (1, 2)], heap_table(20), 19, (4, 1, 2, 7, 0, 5, 6, 3));
}

proof fn lemma_chart_1677()
    ensures
        chart_signature([(1, 3), (0, 2), (1, 2)], heap_table(21)) == chart_signature([(0, 2), (1, 3), (1, 2)], heap_table(15)),
{
    lemma_heap_entries();
    lemma_codes_of_word_69(heap_table(21));
    lemma_codes_of_word_4(heap_table(15));
    lemma_charts_agree_through([(0, 2), (1, 3), (1, 2)], heap_table(15), [(1, 3), (0, 2), (1, 2)], heap_table(21), 18, (2, 0, 4, 6, 1, 3, 7, 5));
}

proof fn lemma_chart_1678()
    ensures
        chart_signature([(1, 3), (0, 2), (1, 2)], heap_table(22)) == chart_signature([(0, 2), (1, 3), (1, 2)], heap_table(15)),
{
    lemma_heap_entries();
    lemma_codes_of_word_69(heap_table(22));
    lemma_codes_of_word_4(heap_table(15));
    lemma_charts_agree_through([(0, 2), (1, 3), (1, 2)], heap_table(15), [(1, 3), (0, 2), (1, 2)], heap_table(22), 19, (4, 1, 2, 7, 0, 5, 6, 3));
}

proof fn lemma_chart_1679()
    ensures
        chart_signature([(1, 3), (0, 2), (1, 2)], heap_table(23)) == chart_signature([(0, 2), (1, 3), (1, 2)], heap_table(9)),
{
    lemma_heap_entries();
    lemma_codes_of_word_69(heap_table(23));
    lemma_codes_of_word_4(heap_table(9));
    lemma_charts_agree_through([(0, 2), (1, 3), (1, 2)], heap_table(9), [(1, 3), (0, 2), (1, 2)], heap_table(23), 19, (4, 1, 2, 7, 0, 5, 6, 3));
}

/// Every chart of atlas word 69 shares its signature with the first chart
/// of a class below 216.
pub proof fn lemma_charts_of_word_69()
    ensures
        forall|t: int| 1656 <= t < 1680 ==> #[trigger] meets_class_below(t, 216),
{
    lemma_census_words();
    assert forall|t: int| 1656 <= t < 1680 implies #[trigger] meets_class_below(t, 216) by {
        if t == 1656 { lemma_chart_1656(); assert(atlas_signatures()[class_rep(48)] == atlas_signatures()[1656]); }
        else if t == 1657 { lemma_chart_1657(); assert(atlas_signatures()[class_rep(49)] == atlas_signatures()[1657]); }
        else if t == 1658 { lemma_chart_1658(); assert(atlas_signatures()[class_rep(49)] == atlas_signatures()[1658]); }
        else if t == 1659 { lemma_chart_1659(); assert(atlas_signatures()[class_rep(50)] == atlas_signatures()[1659]); }
        else if t == 1660 { lemma_chart_1660(); assert(atlas_signatures()[class_rep(50)] == atlas_signatures()[1660]); }
        else if t == 1661 { lemma_chart_1661(); assert(atlas_signatures()[class_rep(48)] == atlas_signatures()[1661]); }
        else if t == 1662 { lemma_chart_1662(); assert(atlas_signatures()[class_rep(51)] == atlas_signatures()[1662]); }
        else if t == 1663 { lemma_chart_1663(); assert(atlas_signatures()[class_rep(49)] == atlas_signatures()[1663]); }
        else if t == 1664 { lemma_chart_1664(); assert(atlas_signatures()[class_rep(49)] == atlas_signatures()[1664]); }
        else if t == 1665 { lemma_chart_1665(); assert(atlas_signatures()[class_rep(52)] == atlas_signatures()[1665]); }
        else if t == 1666 { lemma_chart_1666(); assert(atlas_signatures()[class_rep(52)] == atlas_signatures()[1666]); }
        else if t == 1667 { lemma_chart_1667(); assert(atlas_signatures()[class_rep(51)] == atlas_signatures()[1667]); }
        else if t == 1668 { lemma_chart_1668(); assert(atlas_signatures()[class_rep(51)] == atlas_signatures()[1668]); }
        else if t == 1669 { lemma_chart_1669(); assert(atlas_signatures()[class_rep(48)] == atlas_signatures()[1669]); }
        else if t == 1670 { lemma_chart_1670(); assert(atlas_signatures()[class_rep(48)] == atlas_signatures()[1670]); }
        else if t == 1671 { lemma_chart_1671(); assert(atlas_signatures()[class_rep(53)] == atlas_signatures()[1671]); }
        else if t == 1672 { lemma_chart_1672(); assert(atlas_signatures()[class_rep(53)] == atlas_signatures()[1672]); }
        else if t == 1673 { lemma_chart_1673(); assert(atlas_signatures()[class_rep(51)] == atlas_signatures()[1673]); }
        else if t == 1674 { lemma_chart_1674(); assert(atlas_signatures()[class_rep(52)] == atlas_signatures()[1674]); }
        else if t == 1675 { lemma_chart_1675(); assert(atlas_signatures()[class_rep(50)] == atlas_signatures()[1675]); }
        else if t == 1676 { lemma_chart_1676(); assert(atlas_signatures()[class_rep(50)] == atlas_signatures()[1676]); }
        else if t == 1677 { lemma_chart_1677(); assert(atlas_signatures()[class_rep(53)] == atlas_signatures()[1677]); }
        else if t == 1678 { lemma_chart_1678(); assert(atlas_signatures()[class_rep(53)] == atlas_signatures()[1678]); }
        else { lemma_chart_1679(); assert(atlas_signatures()[class_rep(52)] == atlas_signatures()[1679]); }
    }
}

proof fn lemma_chart_1680()
    ensures
        chart_signature([(1, 3), (0, 2), (2, 3)], heap_table(0)) == chart_signature([(0, 2), (1, 3), (2, 3)], heap_table(0)),
{
    lemma_heap_entries();
    lemma_codes_of_word_70(heap_table(0));
    lemma_codes_of_word_13(heap_table(0));
    lemma_charts_agree_through([(0, 2), (1, 3), (2, 3)], heap_table(0), [(1, 3), (0, 2), (2, 3)], heap_table(0), 16, (0, 2, 1, 3, 4, 6, 5, 7));
}

proof fn lemma_chart_1681()
    ensures
        chart_signature([(1, 3), (0, 2), (2, 3)], heap_table(1)) == chart_signature([(0, 2), (1, 3), (2, 3)], heap_table(1)),
{
    lemma_heap_entries();
    lemma_codes_of_word_70(heap_table(1));
    lemma_codes_of_word_13(heap_table(1));
    lemma_charts_agree_through([(0, 2), (1, 3), (2, 3)], heap_table(1), [(1, 3), (0, 2), (2, 3)], heap_table(1), 16, (0, 2, 1, 3, 4, 6, 5, 7));
}

proof fn lemma_chart_1682()
    ensures
        chart_signature([(1, 3), (0, 2), (2, 3)], heap_table(2)) == chart_signature([(0, 2), (1, 3), (2, 3)], heap_table(1)),
{
    lemma_heap_entries();
    lemma_codes_of_word_70(heap_table(2));
    lemma_codes_of_word_13(heap_table(1));
    lemma_charts_agree_through([(0, 2), (1, 3), (2, 3)], heap_table(1), [(1, 3), (0, 2), (2, 3)], heap_table(2), 17, (1, 4, 0, 5, 2, 7, 3, 6));
}

proof fn lemma_chart_1683()
    ensures
        chart_signature([(1, 3), (0, 2), (2, 3)], heap_table(3)) == chart_signature([(0, 2), (1, 3), (2, 3)], heap_table(3)),
{
    lemma_heap_entries();
    lemma_codes_of_word_70(heap_table(3));
    lemma_codes_of_word_13(heap_table(3));
    lemma_charts_agree_through([(0, 2), (1, 3), (2, 3)], heap_table(3), [(1, 3), (0, 2), (2, 3)], heap_table(3), 16, (0, 2, 1, 3, 4, 6, 5, 7));
}

proof fn lemma_chart_1684()
    ensures
        chart_signature([(1, 3), (0, 2), (2, 3)], heap_table(4)) == chart_signature([(0, 2), (1, 3), (2, 3)], heap_table(3)),
{
    lemma_heap_entries();
    lemma_codes_of_word_70(heap_table(4));
    lemma_codes_of_word_13(heap_table(3));
    lemma_charts_agree_through([(0, 2), (1, 3), (2, 3)], heap_table(3), [(1, 3), (0, 2), (2, 3)], heap_table(4), 17, (1, 4, 0, 5, 2, 7, 3, 6));
}

proof fn lemma_chart_1685()
    ensures
        chart_signature([(1, 3), (0, 2), (2, 3)], heap_table(5)) == chart_signature([(0, 2), (1, 3), (2, 3)], heap_table(0)),
{
    lemma_heap_entries();
    lemma_codes_of_word_70(heap_table(5));
    lemma_codes_of_word_13(heap_table(0));
    lemma_charts_agree_through([(0, 2), (1, 3), (2, 3)], heap_table(0), [(1, 3), (0, 2), (2, 3)], heap_table(5), 17, (1, 4, 0, 5, 2, 7, 3, 6));
}

proof fn lemma_chart_1686()
    ensures
        chart_signature([(1, 3), (0, 2), (2, 3)], heap_table(6)) == chart_signature([(0, 2), (1, 3), (2, 3)], heap_table(6)),
{
    lemma_heap_entries();
    lemma_codes_of_word_70(heap_table(6));
    lemma_codes_of_word_13(heap_table(6));
    lemma_charts_agree_through([(0, 2), (1, 3), (2, 3)], heap_table(6), [(1, 3), (0, 2), (2, 3)], heap_table(6), 16, (0, 2, 1, 3, 4, 6, 5, 7));
}

proof fn lemma_chart_1687()
    ensures
        chart_signature([(1, 3), (0, 2), (2, 3)], heap_table(7)) == chart_signature([(0, 2), (1, 3), (2, 3)], heap_table(1)),
{
    lemma_heap_entries();
    lemma_codes_of_word_70(heap_table(7));
    lemma_codes_of_word_13(heap_table(1));
    lemma_charts_agree_through([(0, 2), (1, 3), (2, 3)], heap_table(1), [(1, 3), (0, 2), (2, 3)], heap_table(7), 18, (2, 0, 4, 6, 1, 3, 7, 5));
}

proof fn lemma_chart_1688()
    ensures
        chart_signature([(1, 3), (0, 2), (2, 3)], heap_table(8)) == chart_signature([(0, 2), (1, 3), (2, 3)], heap_table(1)),
{
    lemma_heap_entries();
    lemma_codes_of_word_70(heap_table(8));
    lemma_codes_of_word_13(heap_table(1));
    lemma_charts_agree_through([(0, 2), (1, 3), (2, 3)], heap_table(1), [(1, 3), (0, 2), (2, 3)], heap_table(8), 19, (4, 1, 2, 7, 0, 5, 6, 3));
}

proof fn lemma_chart_1689()
    ensures
        chart_signature([(1, 3), (0, 2), (2, 3)], heap_table(9)) == chart_signature([(0, 2), (1, 3), (2, 3)], heap_table(9)),
{
    lemma_heap_entries();
    lemma_codes_of_word_70(heap_table(9));
    lemma_codes_of_word_13(heap_table(9));
    lemma_charts_agree_through([(0, 2), (1, 3), (2, 3)], heap_table(9), [(1, 3), (0, 2), (2, 3)], heap_table(9), 16, (0, 2, 1, 3, 4, 6, 5, 7));
}

proof fn lemma_chart_1690()
    ensures
        chart_signature([(1, 3), (0, 2), (2, 3)], heap_table(10)) == chart_signature([(0, 2), (1, 3), (2, 3)], heap_table(9)),
{
    lemma_heap_entries();
    lemma_codes_of_word_70(heap_table(10));
    lemma_codes_of_word_13(heap_table(9));
    lemma_charts_agree_through([(0, 2), (1, 3), (2, 3)], heap_table(9), [(1, 3), (0, 2), (2, 3)], heap_table(10), 17, (1, 4, 0, 5, 2, 7, 3, 6));
}

proof fn lemma_chart_1691()
    ensures
        chart_signature([(1, 3), (0, 2), (2, 3)], heap_table(11)) == chart_signature([(0, 2), (1, 3), (2, 3)], heap_table(6)),
{
    lemma_heap_entries();
    lemma_codes_of_word_70(heap_table(11));
    lemma_codes_of_word_13(heap_table(6));
    lemma_charts_agree_through([(0, 2), (1, 3), (2, 3)], heap_table(6), [(1, 3), (0, 2), (2, 3)], heap_table(11), 17, (1, 4, 0, 5, 2, 7, 3, 6));
}

proof fn lemma_chart_1692()
    ensures
        chart_signature([(1, 3), (0, 2), (2, 3)], heap_table(12)) == chart_signature([(0, 2), (1, 3), (2, 3)], heap_table(6)),
{
    lemma_heap_entries();
    lemma_codes_of_word_70(heap_table(12));
    lemma_codes_of_word_13(heap_table(6));
    lemma_charts_agree_through([(0, 2), (1, 3), (2, 3)], heap_table(6), [(1, 3), (0, 2), (2, 3)], heap_table(12), 18, (2, 0, 4, 6, 1, 3, 7, 5));
}

proof fn lemma_chart_1693()
    ensures
        chart_signature([(1, 3), (0, 2), (2, 3)], heap_table(13)) == chart_signature([(0, 2), (1, 3), (2, 3)], heap_table(0)),
{
    lemma_heap_entries();
    lemma_codes_of_word_70(heap_table(13));
    lemma_codes_of_word_13(heap_table(0));
    lemma_charts_agree_through([(0, 2), (1, 3), (2, 3)], heap_table(0), [(1, 3), (0, 2), (2, 3)], heap_table(13), 18, (2, 0, 4, 6, 1, 3, 7, 5));
}

proof fn lemma_chart_1694()
    ensures
        chart_signature([(1, 3), (0, 2), (2, 3)], heap_table(14)) == chart_signature([(0, 2), (1, 3), (2, 3)], heap_table(0)),
{
    lemma_heap_entries();
    lemma_codes_of_word_70(heap_table(14));
    lemma_codes_of_word_13(heap_table(0));
    lemma_charts_agree_through([(0, 2), (1, 3), (2, 3)], heap_table(0), [(1, 3), (0, 2), (2, 3)], heap_table(14), 19, (4, 1, 2, 7, 0, 5, 6, 3));
}

proof fn lemma_chart_1695()
    ensures
        chart_signature([(1, 3), (0, 2), (2, 3)], heap_table(15)) == chart_signature([(0, 2), (1, 3), (2, 3)], heap_table(15)),
{
    lemma_heap_entries();
    lemma_codes_of_word_70(heap_table(15));
    lemma_codes_of_word_13(heap_table(15));
    lemma_charts_agree_through([(0, 2), (1, 3), (2, 3)], heap_table(15), [(1, 3), (0, 2), (2, 3)], heap_table(15), 16, (0, 2, 1, 3, 4, 6, 5, 7));
}

proof fn lemma_chart_1696()
    ensures
        chart_signature([(1, 3), (0, 2), (2, 3)], heap_table(16)) == chart_signature([(0, 2), (1, 3), (2, 3)], heap_table(15)),
{
    lemma_heap_entries();
    lemma_codes_of_word_70(heap_table(16));
    lemma_codes_of_word_13(heap_table(15));
    lemma_charts_agree_through([(0, 2), (1, 3), (2, 3)], heap_table(15), [(1, 3), (0, 2), (2, 3)], heap_table(16), 17, (1, 4, 0, 5, 2, 7, 3, 6));
}

proof fn lemma_chart_1697()
    ensures
        chart_signature([(1, 3), (0, 2), (2, 3)], heap_table(17)) == chart_signature([(0, 2), (1, 3), (2, 3)], heap_table(6)),
{
    lemma_heap_entries();
    lemma_codes_of_word_70(heap_table(17));
    lemma_codes_of_word_13(heap_table(6));
    lemma_charts_agree_through([(0, 2), (1, 3), (2, 3)], heap_table(6), [(1, 3), (0, 2), (2, 3)], heap_table(17), 19, (4, 1, 2, 7, 0, 5, 6, 3));
}

proof fn lemma_chart_1698()
    ensures
        chart_signature([(1, 3), (0, 2), (2, 3)], heap_table(18)) == chart_signature([(0, 2), (1, 3), (2, 3)], heap_table(9)),
{
    lemma_heap_entries();
    lemma_codes_of_word_70(heap_table(18));
    lemma_codes_of_word_13(heap_table(9));
    lemma_charts_agree_through([(0, 2), (1, 3), (2, 3)], heap_table(9), [(1, 3), (0, 2), (2, 3)], heap_table(18), 18, (2, 0, 4, 6, 1, 3, 7, 5));
}

proof fn lemma_chart_1699()
    ensures
        chart_signature([(1, 3), (0, 2), (2, 3)], heap_table(19)) == chart_signature([(0, 2), (1, 3), (2, 3)], heap_table(3)),
{
    lemma_heap_entries();
    lemma_codes_of_word_70(heap_table(19));
    lemma_codes_of_word_13(heap_table(3));
    lemma_charts_agree_through([(0, 2), (1, 3), (2, 3)], heap_table(3), [(1, 3), (0, 2), (2, 3)], heap_table(19), 18, (2, 0, 4, 6, 1, 3, 7, 5));
}

proof fn lemma_chart_1700()
    ensures
        chart_signature([(1, 3), (0, 2), (2, 3)], heap_table(20)) == chart_signature([(0, 2), (1, 3), (2, 3)], heap_table(3)),
{
    lemma_heap_entries();
    lemma_codes_of_word_70(heap_table(20));
    lemma_codes_of_word_13(heap_table(3));
    lemma_charts_agree_through([(0, 2), (1, 3), (2, 3)], heap_table(3), [(1, 3), (0, 2), (2, 3)], heap_table(20), 19, (4, 1, 2, 7, 0, 5, 6, 3));
}

proof fn lemma_chart_1701()
    ensures
        chart_signature([(1, 3), (0, 2), (2, 3)], heap_table(21)) == chart_signature([(0, 2), (1, 3), (2, 3)], heap_table(15)),
{
    lemma_heap_entries();
    lemma_codes_of_word_70(heap_table(21));
    lemma_codes_of_word_13(heap_table(15));
    lemma_charts_agree_through([(0, 2), (1, 3), (2, 3)], heap_table(15), [(1, 3), (0, 2), (2, 3)], heap_table(21), 18, (2, 0, 4, 6, 1, 3, 7, 5));
}

proof fn lemma_chart_1702()
    ensures
        chart_signature([(1, 3), (0, 2), (2, 3)], heap_table(22)) == chart_signature([(0, 2), (1, 3), (2, 3)], heap_table(15)),
{
    lemma_heap_entries();
    lemma_codes_of_word_70(heap_table(22));
    lemma_codes_of_word_13(heap_table(15));
    lemma_charts_agree_through([(0, 2), (1, 3), (2, 3)], heap_table(15), [(1, 3), (0, 2), (2, 3)], heap_table(22), 19, (4, 1, 2, 7, 0, 5, 6, 3));
}

proof fn lemma_chart_1703()
    ensures
        chart_signature([(1, 3), (0, 2), (2, 3)], heap_table(23)) == chart_signature([(0, 2), (1, 3), (2, 3)], heap_table(9)),
{
    lemma_heap_entries();
    lemma_codes_of_word_70(heap_table(23));
    lemma_codes_of_word_13(heap_table(9));
    lemma_charts_agree_through([(0, 2), (1, 3), (2, 3)], heap_table(9), [(1, 3), (0, 2), (2, 3)], heap_table(23), 19, (4, 1, 2, 7, 0, 5, 6, 3));
}

/// Every chart of atlas word 70 shares its signature with the first chart
/// of a class below 216.
pub proof fn lemma_charts_of_word_70()
    ensures
        forall|t: int| 1680 <= t < 1704 ==> #[trigger] meets_class_below(t, 216),
{
    lemma_census_words();
    assert forall|t: int| 1680 <= t < 1704 implies #[trigger] meets_class_below(t, 216) by {
        if t == 1680 { lemma_chart_1680(); assert(atlas_signatures()[class_rep(96)] == atlas_signatures()[1680]); }
        else if t == 1681 { lemma_chart_1681(); assert(atlas_signatures()[class_rep(97)] == atlas_signatures()[1681]); }
        else if t == 1682 { lemma_chart_1682(); assert(atlas_signatures()[class_rep(97)] == atlas_signatures()[1682]); }
        else if t == 1683 { lemma_chart_1683(); assert(atlas_signatures()[class_rep(98)] == atlas_signatures()[1683]); }
        else if t == 1684 { lemma_chart_1684(); assert(atlas_signatures()[class_rep(98)] == atlas_signatures()[1684]); }
        else if t == 1685 { lemma_chart_1685(); assert(atlas_signatures()[class_rep(96)] == atlas_signatures()[1685]); }
        else if t == 1686 { lemma_chart_1686(); assert(atlas_signatures()[class_rep(99)] == atlas_signatures()[1686]); }
        else if t == 1687 { lemma_chart_1687(); assert(atlas_signatures()[class_rep(97)] == atlas_signatures()[1687]); }
        else if t == 1688 { lemma_chart_1688(); assert(atlas_signatures()[class_rep(97)] == atlas_signatures()[1688]); }
        else if t == 1689 { lemma_chart_1689(); assert(atlas_signatures()[class_rep(100)] == atlas_signatures()[1689]); }
        else if t == 1690 { lemma_chart_1690(); assert(atlas_signatures()[class_rep(100)] == atlas_signatures()[1690]); }
        else if t == 1691 { lemma_chart_1691(); assert(atlas_signatures()[class_rep(99)] == atlas_signatures()[1691]); }
        else if t == 1692 { lemma_chart_1692(); assert(atlas_signatures()[class_rep(99)] == atlas_signatures()[1692]); }
        else if t == 1693 { lemma_chart_1693(); assert(atlas_signatures()[class_rep(96)] == atlas_signatures()[1693]); }
        else if t == 1694 { lemma_chart_1694(); assert(atlas_signatures()[class_rep(96)] == atlas_signatures()[1694]); }
        else if t == 1695 { lemma_chart_1695(); assert(atlas_signatures()[class_rep(101)] == atlas_signatures()[1695]); }
        else if t == 1696 { lemma_chart_1696(); assert(atlas_signatures()[class_rep(101)] == atlas_signatures()[1696]); }
        else if t == 1697 { lemma_chart_1697(); assert(atlas_signatures()[class_rep(99)] == atlas_signatures()[1697]); }
        else if t == 1698 { lemma_chart_1698(); assert(atlas_signatures()[class_rep(100)] == atlas_signatures()[1698]); }
        else if t == 1699 { lemma_chart_1699(); assert(atlas_signatures()[class_rep(98)] == atlas_signatures()[1699]); }
        else if t == 1700 { lemma_chart_1700(); assert(atlas_signatures()[class_rep(98)] == atlas_signatures()[1700]); }
        else if t == 1701 { lemma_chart_1701(); assert(atlas_signatures()[class_rep(101)] == atlas_signatures()[1701]); }
        else if t == 1702 { lemma_chart_1702(); assert(atlas_signatures()[class_rep(101)] == atlas_signatures()[1702]); }
        else { lemma_chart_1703(); assert(atlas_signatures()[class_rep(100)] == atlas_signatures()[1703]); }
    }
}

proof fn lemma_chart_1704()
    ensures
        chart_signature([(1, 3), (0, 3), (0, 2)], heap_table(0)) == chart_signature([(0, 1), (0, 3), (0, 2)], heap_table(6)),
{
    lemma_heap_entries();
    lemma_codes_of_word_71(heap_table(0));
    lemma_codes_of_word_16(heap_table(6));
    lemma_charts_agree_through([(0, 1), (0, 3), (0, 2)], heap_table(6), [(1, 3), (0, 3), (0, 2)], heap_table(0), 2, (2, 4, 0, 6, 1, 7, 3, 5));
}

proof fn lemma_chart_1705()
    ensures
        chart_signature([(1, 3), (0, 3), (0, 2)], heap_table(1)) == chart_signature([(0, 1), (0, 3), (0, 2)], heap_table(12)),
{
    lemma_heap_entries();
    lemma_codes_of_word_71(heap_table(1));
    lemma_codes_of_word_16(heap_table(12));
    lemma_charts_agree_through([(0, 1), (0, 3), (0, 2)], heap_table(12), [(1, 3), (0, 3), (0, 2)], heap_table(1), 2, (2, 4, 0, 6, 1, 7, 3, 5));
}

proof fn lemma_chart_1706()
    ensures
        chart_signature([(1, 3), (0, 3), (0, 2)], heap_table(2)) == chart_signature([(0, 1), (0, 3), (0, 2)], heap_table(18)),
{
    lemma_heap_entries();
    lemma_codes_of_word_71(heap_table(2));
    lemma_codes_of_word_16(heap_table(18));
    lemma_charts_agree_through([(0, 1), (0, 3), (0, 2)], heap_table(18), [(1, 3), (0, 3), (0, 2)], heap_table(2), 2, (2, 4, 0, 6, 1, 7, 3, 5));
}

proof fn lemma_chart_1707()
    ensures
        chart_signature([(1, 3), (0, 3), (0, 2)], heap_table(3)) == chart_signature([(0, 1), (0, 3), (0, 2)], heap_table(8)),
{
    lemma_heap_entries();
    lemma_codes_of_word_71(heap_table(3));
    lemma_codes_of_word_16(heap_table(8));
    lemma_charts_agree_through([(0, 1), (0, 3), (0, 2)], heap_table(8), [(1, 3), (0, 3), (0, 2)], heap_table(3), 3, (4, 2, 1, 7, 0, 6, 5, 3));
}

proof fn lemma_chart_1708()
    ensures
        chart_signature([(1, 3), (0, 3), (0, 2)], heap_table(4)) == chart_signature([(0, 1), (0, 3), (0, 2)], heap_table(14)),
{
    lemma_heap_entries();
    lemma_codes_of_word_71(heap_table(4));
    lemma_codes_of_word_16(heap_table(14));
    lemma_charts_agree_through([(0, 1), (0, 3), (0, 2)], heap_table(14), [(1, 3), (0, 3), (0, 2)], heap_table(4), 3, (4, 2, 1, 7, 0, 6, 5, 3));
}

proof fn lemma_chart_1709()
    ensures
        chart_signature([(1, 3), (0, 3), (0, 2)], heap_table(5)) == chart_signature([(0, 1), (0, 3), (0, 2)], heap_table(20)),
{
    lemma_heap_entries();
    lemma_codes_of_word_71(heap_table(5));
    lemma_codes_of_word_16(heap_table(20));
    lemma_charts_agree_through([(0, 1), (0, 3), (0, 2)], heap_table(20), [(1, 3), (0, 3), (0, 2)], heap_table(5), 3, (4, 2, 1, 7, 0, 6, 5, 3));
}

proof fn lemma_chart_1710()
    ensures
        chart_signature([(1, 3), (0, 3), (0, 2)], heap_table(6)) == chart_signature([(0, 1), (0, 3), (0, 2)], heap_table(0)),
{
    lemma_heap_entries();
    lemma_codes_of_word_71(heap_table(6));
    lemma_codes_of_word_16(heap_table(0));
    lemma_charts_agree_through([(0, 1), (0, 3), (0, 2)], heap_table(0), [(1, 3), (0, 3), (0, 2)], heap_table(6), 2, (2, 4, 0, 6, 1, 7, 3, 5));
}

proof fn lemma_chart_1711()
    ensures
        chart_signature([(1, 3), (0, 3), (0, 2)], heap_table(7)) == chart_signature([(0, 1), (0, 3), (0, 2)], heap_table(12)),
{
    lemma_heap_entries();
    lemma_codes_of_word_71(heap_table(7));
    lemma_codes_of_word_16(heap_table(12));
    lemma_charts_agree_through([(0, 1), (0, 3), (0, 2)], heap_table(12), [(1, 3), (0, 3), (0, 2)], heap_table(7), 3, (4, 2, 1, 7, 0, 6, 5, 3));
}

proof fn lemma_chart_1712()
    ensures
        chart_signature([(1, 3), (0, 3), (0, 2)], heap_table(8)) == chart_signature([(0, 1), (0, 3), (0, 2)], heap_table(18)),
{
    lemma_heap_entries();
    lemma_codes_of_word_71(heap_table(8));
    lemma_codes_of_word_16(heap_table(18));
    lemma_charts_agree_through([(0, 1), (0, 3), (0, 2)], heap_table(18), [(1, 3), (0, 3), (0, 2)], heap_table(8), 3, (4, 2, 1, 7, 0, 6, 5, 3));
}

proof fn lemma_chart_1713()
    ensures
        chart_signature([(1, 3), (0, 3), (0, 2)], heap_table(9)) == chart_signature([(0, 1), (0, 3), (0, 2)], heap_table(2)),
{
    lemma_heap_entries();
    lemma_codes_of_word_71(heap_table(9));
    lemma_codes_of_word_16(heap_table(2));
    lemma_charts_agree_through([(0, 1), (0, 3), (0, 2)], heap_table(2), [(1, 3), (0, 3), (0, 2)], heap_table(9), 3, (4, 2, 1, 7, 0, 6, 5, 3));
}

proof fn lemma_chart_1714()
    ensures
        chart_signature([(1, 3), (0, 3), (0, 2)], heap_table(10)) == chart_signature([(0, 1), (0, 3), (0, 2)], heap_table(16)),
{
    lemma_heap_entries();
    lemma_codes_of_word_71(heap_table(10));
    lemma_codes_of_word_16(heap_table(16));
    lemma_charts_agree_through([(0, 1), (0, 3), (0, 2)], heap_table(16), [(1, 3), (0, 3), (0, 2)], heap_table(10), 2, (2, 4, 0, 6, 1, 7, 3, 5));
}

proof fn lemma_chart_1715()
    ensures
        chart_signature([(1, 3), (0, 3), (0, 2)], heap_table(11)) == chart_signature([(0, 1), (0, 3), (0, 2)], heap_table(22)),
{
    lemma_heap_entries();
    lemma_codes_of_word_71(heap_table(11));
    lemma_codes_of_word_16(heap_table(22));
    lemma_charts_agree_through([(0, 1), (0, 3), (0, 2)], heap_table(22), [(1, 3), (0, 3), (0, 2)], heap_table(11), 2, (2, 4, 0, 6, 1, 7, 3, 5));
}

proof fn lemma_chart_1716()
    ensures
        chart_signature([(1, 3), (0, 3), (0, 2)], heap_table(12)) == chart_signature([(0, 1), (0, 3), (0, 2)], heap_table(0)),
{
    lemma_heap_entries();
    lemma_codes_of_word_71(heap_table(12));
    lemma_codes_of_word_16(heap_table(0));
    lemma_charts_agree_through([(0, 1), (0, 3), (0, 2)], heap_table(0), [(1, 3), (0, 3), (0, 2)], heap_table(12), 3, (4, 2, 1, 7, 0, 6, 5, 3));
}

proof fn lemma_chart_1717()
    ensures
        chart_signature([(1, 3), (0, 3), (0, 2)], heap_table(13)) == chart_signature([(0, 1), (0, 3), (0, 2)], heap_table(6)),
{
    lemma_heap_entries();
    lemma_codes_of_word_71(heap_table(13));
    lemma_codes_of_word_16(heap_table(6));
    lemma_charts_agree_through([(0, 1), (0, 3), (0, 2)], heap_table(6), [(1, 3), (0, 3), (0, 2)], heap_table(13), 3, (4, 2, 1, 7, 0, 6, 5, 3));
}

proof fn lemma_chart_1718()
    ensures
        chart_signature([(1, 3), (0, 3), (0, 2)], heap_table(14)) == chart_signature([(0, 1), (0, 3), (0, 2)], heap_table(20)),
{
    lemma_heap_entries();
    lemma_codes_of_word_71(heap_table(14));
    lemma_codes_of_word_16(heap_table(20));
    lemma_charts_agree_through([(0, 1), (0, 3), (0, 2)], heap_table(20), [(1, 3), (0, 3), (0, 2)], heap_table(14), 2, (2, 4, 0, 6, 1, 7, 3, 5));
}

proof fn lemma_chart_1719()
    ensures
        chart_signature([(1, 3), (0, 3), (0, 2)], heap_table(15)) == chart_signature([(0, 1), (0, 3), (0, 2)], heap_table(4)),
{
    lemma_heap_entries();
    lemma_codes_of_word_71(heap_table(15));
    lemma_codes_of_word_16(heap_table(4));
    lemma_charts_agree_through([(0, 1), (0, 3), (0, 2)], heap_table(4), [(1, 3), (0, 3), (0, 2)], heap_table(15), 2, (2, 4, 0, 6, 1, 7, 3, 5));
}

proof fn lemma_chart_1720()
    ensures
        chart_signature([(1, 3), (0, 3), (0, 2)], heap_table(16)) == chart_signature([(0, 1), (0, 3), (0, 2)], heap_table(10)),
{
    lemma_heap_entries();
    lemma_codes_of_word_71(heap_table(16));
    lemma_codes_of_word_16(heap_table(10));
    lemma_charts_agree_through([(0, 1), (0, 3), (0, 2)], heap_table(10), [(1, 3), (0, 3), (0, 2)], heap_table(16), 2, (2, 4, 0, 6, 1, 7, 3, 5));
}

proof fn lemma_chart_1721()
    ensures
        chart_signature([(1, 3), (0, 3), (0, 2)], heap_table(17)) == chart_signature([(0, 1), (0, 3), (0, 2)], heap_table(22)),
{
    lemma_heap_entries();
    lemma_codes_of_word_71(heap_table(17));
    lemma_codes_of_word_16(heap_table(22));
    lemma_charts_agree_through([(0, 1), (0, 3), (0, 2)], heap_table(22), [(1, 3), (0, 3), (0, 2)], heap_table(17), 3, (4, 2, 1, 7, 0, 6, 5, 3));
}

proof fn lemma_chart_1722()
    ensures
        chart_signature([(1, 3), (0, 3), (0, 2)], heap_table(18)) == chart_signature([(0, 1), (0, 3), (0, 2)], heap_table(2)),
{
    lemma_heap_entries();
    lemma_codes_of_word_71(heap_table(18));
    lemma_codes_of_word_16(heap_table(2));
    lemma_charts_agree_through([(0, 1), (0, 3), (0, 2)], heap_table(2), [(1, 3), (0, 3), (0, 2)], heap_table(18), 2, (2, 4, 0, 6, 1, 7, 3, 5));
}

proof fn lemma_chart_1723()
    ensures
        chart_signature([(1, 3), (0, 3), (0, 2)], heap_table(19)) == chart_signature([(0, 1), (0, 3), (0, 2)], heap_table(8)),
{
    lemma_heap_entries();
    lemma_codes_of_word_71(heap_table(19));
    lemma_codes_of_word_16(heap_table(8));
    lemma_charts_agree_through([(0, 1), (0, 3), (0, 2)], heap_table(8), [(1, 3), (0, 3), (0, 2)], heap_table(19), 2, (2, 4, 0, 6, 1, 7, 3, 5));
}

proof fn lemma_chart_1724()
    ensures
        chart_signature([(1, 3), (0, 3), (0, 2)], heap_table(20)) == chart_signature([(0, 1), (0, 3), (0, 2)], heap_table(14)),
{
    lemma_heap_entries();
    lemma_codes_of_word_71(heap_table(20));
    lemma_codes_of_word_16(heap_table(14));
    lemma_charts_agree_through([(0, 1), (0, 3), (0, 2)], heap_table(14), [(1, 3), (0, 3), (0, 2)], heap_table(20), 2, (2, 4, 0, 6, 1, 7, 3, 5));
}

proof fn lemma_chart_1725()
    ensures
        chart_signature([(1, 3), (0, 3), (0, 2)], heap_table(21)) == chart_signature([(0, 1), (0, 3), (0, 2)], heap_table(4)),
{
    lemma_heap_entries();
    lemma_codes_of_word_71(heap_table(21));
    lemma_codes_of_word_16(heap_table(4));
    lemma_charts_agree_through([(0, 1), (0, 3), (0, 2)], heap_table(4), [(1, 3), (0, 3), (0, 2)], heap_table(21), 3, (4, 2, 1, 7, 0, 6, 5, 3));
}

proof fn lemma_chart_1726()
    ensures
        chart_signature([(1, 3), (0, 3), (0, 2)], heap_table(22)) == chart_signature([(0, 1), (0, 3), (0, 2)], heap_table(10)),
{
    lemma_heap_entries();
    lemma_codes_of_word_71(heap_table(22));
    lemma_codes_of_word_16(heap_table(10));
    lemma_charts_agree_through([(0, 1), (0, 3), (0, 2)], heap_table(10), [(1, 3), (0, 3), (0, 2)], heap_table(22), 3, (4, 2, 1, 7, 0, 6, 5, 3));
}

proof fn lemma_chart_1727()
    ensures
        chart_signature([(1, 3), (0, 3), (0, 2)], heap_table(23)) == chart_signature([(0, 1), (0, 3), (0, 2)], heap_table(16)),
{
    lemma_heap_entries();
    lemma_codes_of_word_71(heap_table(23));
    lemma_codes_of_word_16(heap_table(16));
    lemma_charts_agree_through([(0, 1), (0, 3), (0, 2)], heap_table(16), [(1, 3), (0, 3), (0, 2)], heap_table(23), 3, (4, 2, 1, 7, 0, 6, 5, 3));
}

/// Every chart of atlas word 71 shares its signature with the first chart
/// of a class below 216.
pub proof fn lemma_charts_of_word_71()
    ensures
        forall|t: int| 1704 <= t < 1728 ==> #[trigger] meets_class_below(t, 216),
{
    lemma_census_words();
    assert forall|t: int| 1704 <= t < 1728 implies #[trigger] meets_class_below(t, 216) by {
        if t == 1704 { lemma_chart_1704(); assert(atlas_signatures()[class_rep(105)] == atlas_signatures()[1704]); }
        else if t == 1705 { lemma_chart_1705(); assert(atlas_signatures()[class_rep(108)] == atlas_signatures()[1705]); }
        else if t == 1706 { lemma_chart_1706(); assert(atlas_signatures()[class_rep(111)] == atlas_signatures()[1706]); }
        else if t == 1707 { lemma_chart_1707(); assert(atlas_signatures()[class_rep(106)] == atlas_signatures()[1707]); }
        else if t == 1708 { lemma_chart_1708(); assert(atlas_signatures()[class_rep(109)] == atlas_signatures()[1708]); }
        else if t == 1709 { lemma_chart_1709(); assert(atlas_signatures()[class_rep(112)] == atlas_signatures()[1709]); }
        else if t == 1710 { lemma_chart_1710(); assert(atlas_signatures()[class_rep(102)] == atlas_signatures()[1710]); }
        else if t == 1711 { lemma_chart_1711(); assert(atlas_signatures()[class_rep(108)] == atlas_signatures()[1711]); }
        else if t == 1712 { lemma_chart_1712(); assert(atlas_signatures()[class_rep(111)] == atlas_signatures()[1712]); }
        else if t == 1713 { lemma_chart_1713(); assert(atlas_signatures()[class_rep(103)] == atlas_signatures()[1713]); }
        else if t == 1714 { lemma_chart_1714(); assert(atlas_signatures()[class_rep(110)] == atlas_signatures()[1714]); }
        else if t == 1715 { lemma_chart_1715(); assert(atlas_signatures()[class_rep(113)] == atlas_signatures()[1715]); }
        else if t == 1716 { lemma_chart_1716(); assert(atlas_signatures()[class_rep(102)] == atlas_signatures()[1716]); }
        else if t == 1717 { lemma_chart_1717(); assert(atlas_signatures()[class_rep(105)] == atlas_signatures()[1717]); }
        else if t == 1718 { lemma_chart_1718(); assert(atlas_signatures()[class_rep(112)] == atlas_signatures()[1718]); }
        else if t == 1719 { lemma_chart_1719(); assert(atlas_signatures()[class_rep(104)] == atlas_signatures()[1719]); }
        else if t == 1720 { lemma_chart_1720(); assert(atlas_signatures()[class_rep(107)] == atlas_signatures()[1720]); }
        else if t == 1721 { lemma_chart_1721(); assert(atlas_signatures()[class_rep(113)] == atlas_signatures()[1721]); }
        else if t == 1722 { lemma_chart_1722(); assert(atlas_signatures()[class_rep(103)] == atlas_signatures()[1722]); }
        else if t == 1723 { lemma_chart_1723(); assert(atlas_signatures()[class_rep(106)] == atlas_signatures()[1723]); }
        else if t == 1724 { lemma_chart_1724(); assert(atlas_signatures()[class_rep(109)] == atlas_signatures()[1724]); }
        else if t == 1725 { lemma_chart_1725(); assert(atlas_signatures()[class_rep(104)] == atlas_signatures()[1725]); }
        else if t == 1726 { lemma_chart_1726(); assert(atlas_signatures()[class_rep(107)] == atlas_signatures()[1726]); }
        else { lemma_chart_1727(); assert(atlas_signatures()[class_rep(110)] == atlas_signatures()[1727]); }
    }
}

proof fn lemma_chart_1728()
    ensures
        chart_signature([(1, 3), (0, 3), (1, 2)], heap_table(0)) == chart_signature([(0, 2), (0, 3), (1, 2)], heap_table(9)),
{
    lemma_heap_entries();
    lemma_codes_of_word_72(heap_table(0));
    lemma_codes_of_word_3(heap_table(9));
    lemma_charts_agree_through([(0, 2), (0, 3), (1, 2)], heap_table(9), [(1, 3), (0, 3), (1, 2)], heap_table(0), 6, (6, 7, 3, 2, 5, 4, 0, 1));
}

proof fn lemma_chart_1729()
    ensures
        chart_signature([(1, 3), (0, 3), (1, 2)], heap_table(1)) == chart_signature([(0, 2), (0, 3), (1, 2)], heap_table(15)),
{
    lemma_heap_entries();
    lemma_codes_of_word_72(heap_table(1));
    lemma_codes_of_word_3(heap_table(15));
    lemma_charts_agree_through([(0, 2), (0, 3), (1, 2)], heap_table(15), [(1, 3), (0, 3), (1, 2)], heap_table(1), 6, (6, 7, 3, 2, 5, 4, 0, 1));
}

proof fn lemma_chart_1730()
    ensures
        chart_signature([(1, 3), (0, 3), (1, 2)], heap_table(2)) == chart_signature([(0, 2), (0, 3), (1, 2)], heap_table(21)),
{
    lemma_heap_entries();
    lemma_codes_of_word_72(heap_table(2));
    lemma_codes_of_word_3(heap_table(21));
    lemma_charts_agree_through([(0, 2), (0, 3), (1, 2)], heap_table(21), [(1, 3), (0, 3), (1, 2)], heap_table(2), 6, (6, 7, 3, 2, 5, 4, 0, 1));
}

proof fn lemma_chart_1731()
    ensures
        chart_signature([(1, 3), (0, 3), (1, 2)], heap_table(3)) == chart_signature([(0, 2), (0, 3), (1, 2)], heap_table(6)),
{
    lemma_heap_entries();
    lemma_codes_of_word_72(heap_table(3));
    lemma_codes_of_word_3(heap_table(6));
    lemma_charts_agree_through([(0, 2), (0, 3), (1, 2)], heap_table(6), [(1, 3), (0, 3), (1, 2)], heap_table(3), 6, (6, 7, 3, 2, 5, 4, 0, 1));
}

proof fn lemma_chart_1732()
    ensures
        chart_signature([(1, 3), (0, 3), (1, 2)], heap_table(4)) == chart_signature([(0, 2), (0, 3), (1, 2)], heap_table(12)),
{
    lemma_heap_entries();
    lemma_codes_of_word_72(heap_table(4));
    lemma_codes_of_word_3(heap_table(12));
    lemma_charts_agree_through([(0, 2), (0, 3), (1, 2)], heap_table(12), [(1, 3), (0, 3), (1, 2)], heap_table(4), 6, (6, 7, 3, 2, 5, 4, 0, 1));
}

proof fn lemma_chart_1733()
    ensures
        chart_signature([(1, 3), (0, 3), (1, 2)], heap_table(5)) == chart_signature([(0, 2), (0, 3), (1, 2)], heap_table(18)),
{
    lemma_heap_entries();
    lemma_codes_of_word_72(heap_table(5));
    lemma_codes_of_word_3(heap_table(18));
    lemma_charts_agree_through([(0, 2), (0, 3), (1, 2)], heap_table(18), [(1, 3), (0, 3), (1, 2)], heap_table(5), 6, (6, 7, 3, 2, 5, 4, 0, 1));
}

proof fn lemma_chart_1734()
    ensures
        chart_signature([(1, 3), (0, 3), (1, 2)], heap_table(6)) == chart_signature([(0, 2), (0, 3), (1, 2)], heap_table(3)),
{
    lemma_heap_entries();
    lemma_codes_of_word_72(heap_table(6));
    lemma_codes_of_word_3(heap_table(3));
    lemma_charts_agree_through([(0, 2), (0, 3), (1, 2)], heap_table(3), [(1, 3), (0, 3), (1, 2)], heap_table(6), 6, (6, 7, 3, 2, 5, 4, 0, 1));
}

proof fn lemma_chart_1735()
    ensures
        chart_signature([(1, 3), (0, 3), (1, 2)], heap_table(7)) == chart_signature([(0, 2), (0, 3), (1, 2)], heap_table(15)),
{
    lemma_heap_entries();
    lemma_codes_of_word_72(heap_table(7));
    lemma_codes_of_word_3(heap_table(15));
    lemma_charts_agree_through([(0, 2), (0, 3), (1, 2)], heap_table(15), [(1, 3), (0, 3), (1, 2)], heap_table(7), 7, (7, 6, 5, 4, 3, 2, 1, 0));
}

proof fn lemma_chart_1736()
    ensures
        chart_signature([(1, 3), (0, 3), (1, 2)], heap_table(8)) == chart_signature([(0, 2), (0, 3), (1, 2)], heap_table(21)),
{
    lemma_heap_entries();
    lemma_codes_of_word_72(heap_table(8));
    lemma_codes_of_word_3(heap_table(21));
    lemma_charts_agree_through([(0, 2), (0, 3), (1, 2)], heap_table(21), [(1, 3), (0, 3), (1, 2)], heap_table(8), 7, (7, 6, 5, 4, 3, 2, 1, 0));
}

proof fn lemma_chart_1737()
    ensures
        chart_signature([(1, 3), (0, 3), (1, 2)], heap_table(9)) == chart_signature([(0, 2), (0, 3), (1, 2)], heap_table(0)),
{
    lemma_heap_entries();
    lemma_codes_of_word_72(heap_table(9));
    lemma_codes_of_word_3(heap_table(0));
    lemma_charts_agree_through([(0, 2), (0, 3), (1, 2)], heap_table(0), [(1, 3), (0, 3), (1, 2)], heap_table(9), 6, (6, 7, 3, 2, 5, 4, 0, 1));
}

proof fn lemma_chart_1738()
    ensures
        chart_signature([(1, 3), (0, 3), (1, 2)], heap_table(10)) == chart_signature([(0, 2), (0, 3), (1, 2)], heap_table(13)),
{
    lemma_heap_entries();
    lemma_codes_of_word_72(heap_table(10));
    lemma_codes_of_word_3(heap_table(13));
    lemma_charts_agree_through([(0, 2), (0, 3), (1, 2)], heap_table(13), [(1, 3), (0, 3), (1, 2)], heap_table(10), 6, (6, 7, 3, 2, 5, 4, 0, 1));
}

proof fn lemma_chart_1739()
    ensures
        chart_signature([(1, 3), (0, 3), (1, 2)], heap_table(11)) == chart_signature([(0, 2), (0, 3), (1, 2)], heap_table(19)),
{
    lemma_heap_entries();
    lemma_codes_of_word_72(heap_table(11));
    lemma_codes_of_word_3(heap_table(19));
    lemma_charts_agree_through([(0, 2), (0, 3), (1, 2)], heap_table(19), [(1, 3), (0, 3), (1, 2)], heap_table(11), 6, (6, 7, 3, 2, 5, 4, 0, 1));
}

proof fn lemma_chart_1740()
    ensures
        chart_signature([(1, 3), (0, 3), (1, 2)], heap_table(12)) == chart_signature([(0, 2), (0, 3), (1, 2)], heap_table(3)),
{
    lemma_heap_entries();
    lemma_codes_of_word_72(heap_table(12));
    lemma_codes_of_word_3(heap_table(3));
    lemma_charts_agree_through([(0, 2), (0, 3), (1, 2)], heap_table(3), [(1, 3), (0, 3), (1, 2)], heap_table(12), 7, (7, 6, 5, 4, 3, 2, 1, 0));
}

proof fn lemma_chart_1741()
    ensures
        chart_signature([(1, 3), (0, 3), (1, 2)], heap_table(13)) == chart_signature([(0, 2), (0, 3), (1, 2)], heap_table(9)),
{
    lemma_heap_entries();
    lemma_codes_of_word_72(heap_table(13));
    lemma_codes_of_word_3(heap_table(9));
    lemma_charts_agree_through([(0, 2), (0, 3), (1, 2)], heap_table(9), [(1, 3), (0, 3), (1, 2)], heap_table(13), 7, (7, 6, 5, 4, 3, 2, 1, 0));
}

proof fn lemma_chart_1742()
    ensures
        chart_signature([(1, 3), (0, 3), (1, 2)], heap_table(14)) == chart_signature([(0, 2), (0, 3), (1, 2)], heap_table(18)),
{
    lemma_heap_entries();
    lemma_codes_of_word_72(heap_table(14));
    lemma_codes_of_word_3(heap_table(18));
    lemma_charts_agree_through([(0, 2), (0, 3), (1, 2)], heap_table(18), [(1, 3), (0, 3), (1, 2)], heap_table(14), 7, (7, 6, 5, 4, 3, 2, 1, 0));
}

proof fn lemma_chart_1743()
    ensures
        chart_signature([(1, 3), (0, 3), (1, 2)], heap_table(15)) == chart_signature([(0, 2), (0, 3), (1, 2)], heap_table(1)),
{
    lemma_heap_entries();
    lemma_codes_of_word_72(heap_table(15));
    lemma_codes_of_word_3(heap_table(1));
    lemma_charts_agree_through([(0, 2), (0, 3), (1, 2)], heap_table(1), [(1, 3), (0, 3), (1, 2)], heap_table(15), 6, (6, 7, 3, 2, 5, 4, 0, 1));
}

proof fn lemma_chart_1744()
    ensures
        chart_signature([(1, 3), (0, 3), (1, 2)], heap_table(16)) == chart_signature([(0, 2), (0, 3), (1, 2)], heap_table(7)),
{
    lemma_heap_entries();
    lemma_codes_of_word_72(heap_table(16));
    lemma_codes_of_word_3(heap_table(7));
    lemma_charts_agree_through([(0, 2), (0, 3), (1, 2)], heap_table(7), [(1, 3), (0, 3), (1, 2)], heap_table(16), 6, (6, 7, 3, 2, 5, 4, 0, 1));
}

proof fn lemma_chart_1745()
    ensures
        chart_signature([(1, 3), (0, 3), (1, 2)], heap_table(17)) == chart_signature([(0, 2), (0, 3), (1, 2)], heap_table(19)),
{
    lemma_heap_entries();
    lemma_codes_of_word_72(heap_table(17));
    lemma_codes_of_word_3(heap_table(19));
    lemma_charts_agree_through([(0, 2), (0, 3), (1, 2)], heap_table(19), [(1, 3), (0, 3), (1, 2)], heap_table(17), 7, (7, 6, 5, 4, 3, 2, 1, 0));
}

proof fn lemma_chart_1746()
    ensures
        chart_signature([(1, 3), (0, 3), (1, 2)], heap_table(18)) == chart_signature([(0, 2), (0, 3), (1, 2)], heap_table(0)),
{
    lemma_heap_entries();
    lemma_codes_of_word_72(heap_table(18));
    lemma_codes_of_word_3(heap_table(0));
    lemma_charts_agree_through([(0, 2), (0, 3), (1, 2)], heap_table(0), [(1, 3), (0, 3), (1, 2)], heap_table(18), 7, (7, 6, 5, 4, 3, 2, 1, 0));
}

proof fn lemma_chart_1747()
    ensures
        chart_signature([(1, 3), (0, 3), (1, 2)], heap_table(19)) == chart_signature([(0, 2), (0, 3), (1, 2)], heap_table(6)),
{
    lemma_heap_entries();
    lemma_codes_of_word_72(heap_table(19));
    lemma_codes_of_word_3(heap_table(6));
    lemma_charts_agree_through([(0, 2), (0, 3), (1, 2)], heap_table(6), [(1, 3), (0, 3), (1, 2)], heap_table(19), 7, (7, 6, 5, 4, 3, 2, 1, 0));
}

proof fn lemma_chart_1748()
    ensures
        chart_signature([(1, 3), (0, 3), (1, 2)], heap_table(20)) == chart_signature([(0, 2), (0, 3), (1, 2)], heap_table(12)),
{
    lemma_heap_entries();
    lemma_codes_of_word_72(heap_table(20));
    lemma_codes_of_word_3(heap_table(12));
    lemma_charts_agree_through([(0, 2), (0, 3), (1, 2)], heap_table(12), [(1, 3), (0, 3), (1, 2)], heap_table(20), 7, (7, 6, 5, 4, 3, 2, 1, 0));
}

proof fn lemma_chart_1749()
    ensures
        chart_signature([(1, 3), (0, 3), (1, 2)], heap_table(21)) == chart_signature([(0, 2), (0, 3), (1, 2)], heap_table(1)),
{
    lemma_heap_entries();
    lemma_codes_of_word_72(heap_table(21));
    lemma_codes_of_word_3(heap_table(1));
    lemma_charts_agree_through([(0, 2), (0, 3), (1, 2)], heap_table(1), [(1, 3), (0, 3), (1, 2)], heap_table(21), 7, (7, 6, 5, 4, 3, 2, 1, 0));
}

proof fn lemma_chart_1750()
    ensures
        chart_signature([(1, 3), (0, 3), (1, 2)], heap_table(22)) == chart_signature([(0, 2), (0, 3), (1, 2)], heap_table(7)),
{
    lemma_heap_entries();
    lemma_codes_of_word_72(heap_table(22));
    lemma_codes_of_word_3(heap_table(7));
    lemma_charts_agree_through([(0, 2), (0, 3), (1, 2)], heap_table(7), [(1, 3), (0, 3), (1, 2)], heap_table(22), 7, (7, 6, 5, 4, 3, 2, 1, 0));
}

proof fn lemma_chart_1751()
    ensures
        chart_signature([(1, 3), (0, 3), (1, 2)], heap_table(23)) == chart_signature([(0, 2), (0, 3), (1, 2)], heap_table(13)),
{
    lemma_heap_entries();
    lemma_codes_of_word_72(heap_table(23));
    lemma_codes_of_word_3(heap_table(13));
    lemma_charts_agree_through([(0, 2), (0, 3), (1, 2)], heap_table(13), [(1, 3), (0, 3), (1, 2)], heap_table(23), 7, (7, 6, 5, 4, 3, 2, 1, 0));
}

/// Every chart of atlas word 72 shares its signature with the first chart
/// of a class below 216.
pub proof fn lemma_charts_of_word_72()
    ensures
        forall|t: int| 1728 <= t < 1752 ==> #[trigger] meets_class_below(t, 216),
{
    lemma_census_words();
    assert forall|t: int| 1728 <= t < 1752 implies #[trigger] meets_class_below(t, 216) by {
        if t == 1728 { lemma_chart_1728(); assert(atlas_signatures()[class_rep(41)] == atlas_signatures()[1728]); }
        else if t == 1729 { lemma_chart_1729(); assert(atlas_signatures()[class_rep(44)] == atlas_signatures()[1729]); }
        else if t == 1730 { lemma_chart_1730(); assert(atlas_signatures()[class_rep(47)] == atlas_signatures()[1730]); }
        else if t == 1731 { lemma_chart_1731(); assert(atlas_signatures()[class_rep(39)] == atlas_signatures()[1731]); }
        else if t == 1732 { lemma_chart_1732(); assert(atlas_signatures()[class_rep(42)] == atlas_signatures()[1732]); }
        else if t == 1733 { lemma_chart_1733(); assert(atlas_signatures()[class_rep(45)] == atlas_signatures()[1733]); }
        else if t == 1734 { lemma_chart_1734(); assert(atlas_signatures()[class_rep(38)] == atlas_signatures()[1734]); }
        else if t == 1735 { lemma_chart_1735(); assert(atlas_signatures()[class_rep(44)] == atlas_signatures()[1735]); }
        else if t == 1736 { lemma_chart_1736(); assert(atlas_signatures()[class_rep(47)] == atlas_signatures()[1736]); }
        else if t == 1737 { lemma_chart_1737(); assert(atlas_signatures()[class_rep(36)] == atlas_signatures()[1737]); }
        else if t == 1738 { lemma_chart_1738(); assert(atlas_signatures()[class_rep(43)] == atlas_signatures()[1738]); }
        else if t == 1739 { lemma_chart_1739(); assert(atlas_signatures()[class_rep(46)] == atlas_signatures()[1739]); }
        else if t == 1740 { lemma_chart_1740(); assert(atlas_signatures()[class_rep(38)] == atlas_signatures()[1740]); }
        else if t == 1741 { lemma_chart_1741(); assert(atlas_signatures()[class_rep(41)] == atlas_signatures()[1741]); }
        else if t == 1742 { lemma_chart_1742(); assert(atlas_signatures()[class_rep(45)] == atlas_signatures()[1742]); }
        else if t == 1743 { lemma_chart_1743(); assert(atlas_signatures()[class_rep(37)] == atlas_signatures()[1743]); }
        else if t == 1744 { lemma_chart_1744(); assert(atlas_signatures()[class_rep(40)] == atlas_signatures()[1744]); }
        else if t == 1745 { lemma_chart_1745(); assert(atlas_signatures()[class_rep(46)] == atlas_signatures()[1745]); }
        else if t == 1746 { lemma_chart_1746(); assert(atlas_signatures()[class_rep(36)] == atlas_signatures()[1746]); }
        else if t == 1747 { lemma_chart_1747(); assert(atlas_signatures()[class_rep(39)] == atlas_signatures()[1747]); }
        else if t == 1748 { lemma_chart_1748(); assert(atlas_signatures()[class_rep(42)] == atlas_signatures()[1748]); }
        else if t == 1749 { lemma_chart_1749(); assert(atlas_signatures()[class_rep(37)] == atlas_signatures()[1749]); }
        else if t == 1750 { lemma_chart_1750(); assert(atlas_signatures()[class_rep(40)] == atlas_signatures()[1750]); }
        else { lemma_chart_1751(); assert(atlas_signatures()[class_rep(43)] == atlas_signatures()[1751]); }
    }
}

proof fn lemma_chart_1752()
    ensures
        chart_signature([(1, 3), (0, 3), (2, 3)], heap_table(0)) == chart_signature([(0, 1), (0, 2), (2, 3)], heap_table(20)),
{
    lemma_heap_entries();
    lemma_codes_of_word_73(heap_table(0));
    lemma_codes_of_word_8(heap_table(20));
    lemma_charts_agree_through([(0, 1), (0, 2), (2, 3)], heap_table(20), [(1, 3), (0, 3), (2, 3)], heap_table(0), 7, (7, 6, 5, 4, 3, 2, 1, 0));
}

proof fn lemma_chart_1753()
    ensures
        chart_signature([(1, 3), (0, 3), (2, 3)], heap_table(1)) == chart_signature([(0, 1), (0, 2), (2, 3)], heap_table(18)),
{
    lemma_heap_entries();
    lemma_codes_of_word_73(heap_table(1));
    lemma_codes_of_word_8(heap_table(18));
    lemma_charts_agree_through([(0, 1), (0, 2), (2, 3)], heap_table(18), [(1, 3), (0, 3), (2, 3)], heap_table(1), 6, (6, 7, 3, 2, 5, 4, 0, 1));
}

proof fn lemma_chart_1754()
    ensures
        chart_signature([(1, 3), (0, 3), (2, 3)], heap_table(2)) == chart_signature([(0, 1), (0, 2), (2, 3)], heap_table(12)),
{
    lemma_heap_entries();
    lemma_codes_of_word_73(heap_table(2));
    lemma_codes_of_word_8(heap_table(12));
    lemma_charts_agree_through([(0, 1), (0, 2), (2, 3)], heap_table(12), [(1, 3), (0, 3), (2, 3)], heap_table(2), 6, (6, 7, 3, 2, 5, 4, 0, 1));
}

proof fn lemma_chart_1755()
    ensures
        chart_signature([(1, 3), (0, 3), (2, 3)], heap_table(3)) == chart_signature([(0, 1), (0, 2), (2, 3)], heap_table(14)),
{
    lemma_heap_entries();
    lemma_codes_of_word_73(heap_table(3));
    lemma_codes_of_word_8(heap_table(14));
    lemma_charts_agree_through([(0, 1), (0, 2), (2, 3)], heap_table(14), [(1, 3), (0, 3), (2, 3)], heap_table(3), 7, (7, 6, 5, 4, 3, 2, 1, 0));
}

proof fn lemma_chart_1756()
    ensures
        chart_signature([(1, 3), (0, 3), (2, 3)], heap_table(4)) == chart_signature([(0, 1), (0, 2), (2, 3)], heap_table(8)),
{
    lemma_heap_entries();
    lemma_codes_of_word_73(heap_table(4));
    lemma_codes_of_word_8(heap_table(8));
    lemma_charts_agree_through([(0, 1), (0, 2), (2, 3)], heap_table(8), [(1, 3), (0, 3), (2, 3)], heap_table(4), 7, (7, 6, 5, 4, 3, 2, 1, 0));
}

proof fn lemma_chart_1757()
    ensures
        chart_signature([(1, 3), (0, 3), (2, 3)], heap_table(5)) == chart_signature([(0, 1), (0, 2), (2, 3)], heap_table(6)),
{
    lemma_heap_entries();
    lemma_codes_of_word_73(heap_table(5));
    lemma_codes_of_word_8(heap_table(6));
    lemma_charts_agree_through([(0, 1), (0, 2), (2, 3)], heap_table(6), [(1, 3), (0, 3), (2, 3)], heap_table(5), 6, (6, 7, 3, 2, 5, 4, 0, 1));
}

proof fn lemma_chart_1758()
    ensures
        chart_signature([(1, 3), (0, 3), (2, 3)], heap_table(6)) == chart_signature([(0, 1), (0, 2), (2, 3)], heap_table(22)),
{
    lemma_heap_entries();
    lemma_codes_of_word_73(heap_table(6));
    lemma_codes_of_word_8(heap_table(22));
    lemma_charts_agree_through([(0, 1), (0, 2), (2, 3)], heap_table(22), [(1, 3), (0, 3), (2, 3)], heap_table(6), 6, (6, 7, 3, 2, 5, 4, 0, 1));
}

proof fn lemma_chart_1759()
    ensures
        chart_signature([(1, 3), (0, 3), (2, 3)], heap_table(7)) == chart_signature([(0, 1), (0, 2), (2, 3)], heap_table(18)),
{
    lemma_heap_entries();
    lemma_codes_of_word_73(heap_table(7));
    lemma_codes_of_word_8(heap_table(18));
    lemma_charts_agree_through([(0, 1), (0, 2), (2, 3)], heap_table(18), [(1, 3), (0, 3), (2, 3)], heap_table(7), 7, (7, 6, 5, 4, 3, 2, 1, 0));
}

proof fn lemma_chart_1760()
    ensures
        chart_signature([(1, 3), (0, 3), (2, 3)], heap_table(8)) == chart_signature([(0, 1), (0, 2), (2, 3)], heap_table(12)),
{
    lemma_heap_entries();
    lemma_codes_of_word_73(heap_table(8));
    lemma_codes_of_word_8(heap_table(12));
    lemma_charts_agree_through([(0, 1), (0, 2), (2, 3)], heap_table(12), [(1, 3), (0, 3), (2, 3)], heap_table(8), 7, (7, 6, 5, 4, 3, 2, 1, 0));
}

proof fn lemma_chart_1761()
    ensures
        chart_signature([(1, 3), (0, 3), (2, 3)], heap_table(9)) == chart_signature([(0, 1), (0, 2), (2, 3)], heap_table(16)),
{
    lemma_heap_entries();
    lemma_codes_of_word_73(heap_table(9));
    lemma_codes_of_word_8(heap_table(16));
    lemma_charts_agree_through([(0, 1), (0, 2), (2, 3)], heap_table(16), [(1, 3), (0, 3), (2, 3)], heap_table(9), 6, (6, 7, 3, 2, 5, 4, 0, 1));
}

proof fn lemma_chart_1762()
    ensures
        chart_signature([(1, 3), (0, 3), (2, 3)], heap_table(10)) == chart_signature([(0, 1), (0, 2), (2, 3)], heap_table(2)),
{
    lemma_heap_entries();
    lemma_codes_of_word_73(heap_table(10));
    lemma_codes_of_word_8(heap_table(2));
    lemma_charts_agree_through([(0, 1), (0, 2), (2, 3)], heap_table(2), [(1, 3), (0, 3), (2, 3)], heap_table(10), 7, (7, 6, 5, 4, 3, 2, 1, 0));
}

proof fn lemma_chart_1763()
    ensures
        chart_signature([(1, 3), (0, 3), (2, 3)], heap_table(11)) == chart_signature([(0, 1), (0, 2), (2, 3)], heap_table(0)),
{
    lemma_heap_entries();
    lemma_codes_of_word_73(heap_table(11));
    lemma_codes_of_word_8(heap_table(0));
    lemma_charts_agree_through([(0, 1), (0, 2), (2, 3)], heap_table(0), [(1, 3), (0, 3), (2, 3)], heap_table(11), 6, (6, 7, 3, 2, 5, 4, 0, 1));
}

proof fn lemma_chart_1764()
    ensures
        chart_signature([(1, 3), (0, 3), (2, 3)], heap_table(12)) == chart_signature([(0, 1), (0, 2), (2, 3)], heap_table(22)),
{
    lemma_heap_entries();
    lemma_codes_of_word_73(heap_table(12));
    lemma_codes_of_word_8(heap_table(22));
    lemma_charts_agree_through([(0, 1), (0, 2), (2, 3)], heap_table(22), [(1, 3), (0, 3), (2, 3)], heap_table(12), 7, (7, 6, 5, 4, 3, 2, 1, 0));
}

proof fn lemma_chart_1765()
    ensures
        chart_signature([(1, 3), (0, 3), (2, 3)], heap_table(13)) == chart_signature([(0, 1), (0, 2), (2, 3)], heap_table(20)),
{
    lemma_heap_entries();
    lemma_codes_of_word_73(heap_table(13));
    lemma_codes_of_word_8(heap_table(20));
    lemma_charts_agree_through([(0, 1), (0, 2), (2, 3)], heap_table(20), [(1, 3), (0, 3), (2, 3)], heap_table(13), 6, (6, 7, 3, 2, 5, 4, 0, 1));
}

proof fn lemma_chart_1766()
    ensures
        chart_signature([(1, 3), (0, 3), (2, 3)], heap_table(14)) == chart_signature([(0, 1), (0, 2), (2, 3)], heap_table(6)),
{
    lemma_heap_entries();
    lemma_codes_of_word_73(heap_table(14));
    lemma_codes_of_word_8(heap_table(6));
    lemma_charts_agree_through([(0, 1), (0, 2), (2, 3)], heap_table(6), [(1, 3), (0, 3), (2, 3)], heap_table(14), 7, (7, 6, 5, 4, 3, 2, 1, 0));
}

proof fn lemma_chart_1767()
    ensures
        chart_signature([(1, 3), (0, 3), (2, 3)], heap_table(15)) == chart_signature([(0, 1), (0, 2), (2, 3)], heap_table(10)),
{
    lemma_heap_entries();
    lemma_codes_of_word_73(heap_table(15));
    lemma_codes_of_word_8(heap_table(10));
    lemma_charts_agree_through([(0, 1), (0, 2), (2, 3)], heap_table(10), [(1, 3), (0, 3), (2, 3)], heap_table(15), 6, (6, 7, 3, 2, 5, 4, 0, 1));
}

proof fn lemma_chart_1768()
    ensures
        chart_signature([(1, 3), (0, 3), (2, 3)], heap_table(16)) == chart_signature([(0, 1), (0, 2), (2, 3)], heap_table(4)),
{
    lemma_heap_entries();
    lemma_codes_of_word_73(heap_table(16));
    lemma_codes_of_word_8(heap_table(4));
    lemma_charts_agree_through([(0, 1), (0, 2), (2, 3)], heap_table(4), [(1, 3), (0, 3), (2, 3)], heap_table(16), 6, (6, 7, 3, 2, 5, 4, 0, 1));
}

proof fn lemma_chart_1769()
    ensures
        chart_signature([(1, 3), (0, 3), (2, 3)], heap_table(17)) == chart_signature([(0, 1), (0, 2), (2, 3)], heap_table(0)),
{
    lemma_heap_entries();
    lemma_codes_of_word_73(heap_table(17));
    lemma_codes_of_word_8(heap_table(0));
    lemma_charts_agree_through([(0, 1), (0, 2), (2, 3)], heap_table(0), [(1, 3), (0, 3), (2, 3)], heap_table(17), 7, (7, 6, 5, 4, 3, 2, 1, 0));
}

proof fn lemma_chart_1770()
    ensures
        chart_signature([(1, 3), (0, 3), (2, 3)], heap_table(18)) == chart_signature([(0, 1), (0, 2), (2, 3)], heap_table(16)),
{
    lemma_heap_entries();
    lemma_codes_of_word_73(heap_table(18));
    lemma_codes_of_word_8(heap_table(16));
    lemma_charts_agree_through([(0, 1), (0, 2), (2, 3)], heap_table(16), [(1, 3), (0, 3), (2, 3)], heap_table(18), 7, (7, 6, 5, 4, 3, 2, 1, 0));
}

proof fn lemma_chart_1771()
    ensures
        chart_signature([(1, 3), (0, 3), (2, 3)], heap_table(19)) == chart_signature([(0, 1), (0, 2), (2, 3)], heap_table(14)),
{
    lemma_heap_entries();
    lemma_codes_of_word_73(heap_table(19));
    lemma_codes_of_word_8(heap_table(14));
    lemma_charts_agree_through([(0, 1), (0, 2), (2, 3)], heap_table(14), [(1, 3), (0, 3), (2, 3)], heap_table(19), 6, (6, 7, 3, 2, 5, 4, 0, 1));
}

proof fn lemma_chart_1772()
    ensures
        chart_signature([(1, 3), (0, 3), (2, 3)], heap_table(20)) == chart_signature([(0, 1), (0, 2), (2, 3)], heap_table(8)),
{
    lemma_heap_entries();
    lemma_codes_of_word_73(heap_table(20));
    lemma_codes_of_word_8(heap_table(8));
    lemma_charts_agree_through([(0, 1), (0, 2), (2, 3)], heap_table(8), [(1, 3), (0, 3), (2, 3)], heap_table(20), 6, (6, 7, 3, 2, 5, 4, 0, 1));
}

proof fn lemma_chart_1773()
    ensures
        chart_signature([(1, 3), (0, 3), (2, 3)], heap_table(21)) == chart_signature([(0, 1), (0, 2), (2, 3)], heap_table(10)),
{
    lemma_heap_entries();
    lemma_codes_of_word_73(heap_table(21));
    lemma_codes_of_word_8(heap_table(10));
    lemma_charts_agree_through([(0, 1), (0, 2), (2, 3)], heap_table(10), [(1, 3), (0, 3), (2, 3)], heap_table(21), 7, (7, 6, 5, 4, 3, 2, 1, 0));
}

proof fn lemma_chart_1774()
    ensures
        chart_signature([(1, 3), (0, 3), (2, 3)], heap_table(22)) == chart_signature([(0, 1), (0, 2), (2, 3)], heap_table(4)),
{
    lemma_heap_entries();
    lemma_codes_of_word_73(heap_table(22));
    lemma_codes_of_word_8(heap_table(4));
    lemma_charts_agree_through([(0, 1), (0, 2), (2, 3)], heap_table(4), [(1, 3), (0, 3), (2, 3)], heap_table(22), 7, (7, 6, 5, 4, 3, 2, 1, 0));
}

proof fn lemma_chart_1775()
    ensures
        chart_signature([(1, 3), (0, 3), (2, 3)], heap_table(23)) == chart_signature([(0, 1), (0, 2), (2, 3)], heap_table(2)),
{
    lemma_heap_entries();
    lemma_codes_of_word_73(heap_table(23));
    lemma_codes_of_word_8(heap_table(2));
    lemma_charts_agree_through([(0, 1), (0, 2), (2, 3)], heap_table(2), [(1, 3), (0, 3), (2, 3)], heap_table(23), 6, (6, 7, 3, 2, 5, 4, 0, 1));
}

/// Every chart of atlas word 73 shares its signature with the first chart
/// of a class below 216.
pub proof fn lemma_charts_of_word_73()
    ensures
        forall|t: int| 1752 <= t < 1776 ==> #[trigger] meets_class_below(t, 216),
{
    lemma_census_words();
    assert forall|t: int| 1752 <= t < 1776 implies #[trigger] meets_class_below(t, 216) by {
        if t == 1752 { lemma_chart_1752(); assert(atlas_signatures()[class_rep(94)] == atlas_signatures()[1752]); }
        else if t == 1753 { lemma_chart_1753(); assert(atlas_signatures()[class_rep(93)] == atlas_signatures()[1753]); }
        else if t == 1754 { lemma_chart_1754(); assert(atlas_signatures()[class_rep(90)] == atlas_signatures()[1754]); }
        else if t == 1755 { lemma_chart_1755(); assert(atlas_signatures()[class_rep(91)] == atlas_signatures()[1755]); }
        else if t == 1756 { lemma_chart_1756(); assert(atlas_signatures()[class_rep(88)] == atlas_signatures()[1756]); }
        else if t == 1757 { lemma_chart_1757(); assert(atlas_signatures()[class_rep(87)] == atlas_signatures()[1757]); }
        else if t == 1758 { lemma_chart_1758(); assert(atlas_signatures()[class_rep(95)] == atlas_signatures()[1758]); }
        else if t == 1759 { lemma_chart_1759(); assert(atlas_signatures()[class_rep(93)] == atlas_signatures()[1759]); }
        else if t == 1760 { lemma_chart_1760(); assert(atlas_signatures()[class_rep(90)] == atlas_signatures()[1760]); }
        else if t == 1761 { lemma_chart_1761(); assert(atlas_signatures()[class_rep(92)] == atlas_signatures()[1761]); }
        else if t == 1762 { lemma_chart_1762(); assert(atlas_signatures()[class_rep(85)] == atlas_signatures()[1762]); }
        else if t == 1763 { lemma_chart_1763(); assert(atlas_signatures()[class_rep(84)] == atlas_signatures()[1763]); }
        else if t == 1764 { lemma_chart_1764(); assert(atlas_signatures()[class_rep(95)] == atlas_signatures()[1764]); }
        else if t == 1765 { lemma_chart_1765(); assert(atlas_signatures()[class_rep(94)] == atlas_signatures()[1765]); }
        else if t == 1766 { lemma_chart_1766(); assert(atlas_signatures()[class_rep(87)] == atlas_signatures()[1766]); }
        else if t == 1767 { lemma_chart_1767(); assert(atlas_signatures()[class_rep(89)] == atlas_signatures()[1767]); }
        else if t == 1768 { lemma_chart_1768(); assert(atlas_signatures()[class_rep(86)] == atlas_signatures()[1768]); }
        else if t == 1769 { lemma_chart_1769(); assert(atlas_signatures()[class_rep(84)] == atlas_signatures()[1769]); }
        else if t == 1770 { lemma_chart_1770(); assert(atlas_signatures()[class_rep(92)] == atlas_signatures()[1770]); }
        else if t == 1771 { lemma_chart_1771(); assert(atlas_signatures()[class_rep(91)] == atlas_signatures()[1771]); }
        else if t == 1772 { lemma_chart_1772(); assert(atlas_signatures()[class_rep(88)] == atlas_signatures()[1772]); }
        else if t == 1773 { lemma_chart_1773(); assert(atlas_signatures()[class_rep(89)] == atlas_signatures()[1773]); }
        else if t == 1774 { lemma_chart_1774(); assert(atlas_signatures()[class_rep(86)] == atlas_signatures()[1774]); }
        else { lemma_chart_1775(); assert(atlas_signatures()[class_rep(85)] == atlas_signatures()[1775]); }
    }
}

proof fn lemma_chart_1776()
    ensures
        chart_signature([(1, 3), (1, 2), (0, 1)], heap_table(0)) == chart_signature([(0, 3), (0, 2), (0, 1)], heap_table(1)),
{
    lemma_heap_entries();
    lemma_codes_of_word_74(heap_table(0));
    lemma_codes_of_word_38(heap_table(1));
    lemma_charts_agree_through([(0, 3), (0, 2), (0, 1)], heap_table(1), [(1, 3), (1, 2), (0, 1)], heap_table(0), 4, (3, 5, 6, 0, 7, 1, 2, 4));
}

proof fn lemma_chart_1777()
    ensures
        chart_signature([(1, 3), (1, 2), (0, 1)], heap_table(1)) == chart_signature([(0, 3), (0, 2), (0, 1)], heap_table(0)),
{
    lemma_heap_entries();
    lemma_codes_of_word_74(heap_table(1));
    lemma_codes_of_word_38(heap_table(0));
    lemma_charts_agree_through([(0, 3), (0, 2), (0, 1)], heap_table(0), [(1, 3), (1, 2), (0, 1)], heap_table(1), 4, (3, 5, 6, 0, 7, 1, 2, 4));
}

proof fn lemma_chart_1778()
    ensures
        chart_signature([(1, 3), (1, 2), (0, 1)], heap_table(2)) == chart_signature([(0, 3), (0, 2), (0, 1)], heap_table(3)),
{
    lemma_heap_entries();
    lemma_codes_of_word_74(heap_table(2));
    lemma_codes_of_word_38(heap_table(3));
    lemma_charts_agree_through([(0, 3), (0, 2), (0, 1)], heap_table(3), [(1, 3), (1, 2), (0, 1)], heap_table(2), 4, (3, 5, 6, 0, 7, 1, 2, 4));
}

proof fn lemma_chart_1779()
    ensures
        chart_signature([(1, 3), (1, 2), (0, 1)], heap_table(3)) == chart_signature([(0, 3), (0, 2), (0, 1)], heap_table(2)),
{
    lemma_heap_entries();
    lemma_codes_of_word_74(heap_table(3));
    lemma_codes_of_word_38(heap_table(2));
    lemma_charts_agree_through([(0, 3), (0, 2), (0, 1)], heap_table(2), [(1, 3), (1, 2), (0, 1)], heap_table(3), 4, (3, 5, 6, 0, 7, 1, 2, 4));
}

proof fn lemma_chart_1780()
    ensures
        chart_signature([(1, 3), (1, 2), (0, 1)], heap_table(4)) == chart_signature([(0, 3), (0, 2), (0, 1)], heap_table(5)),
{
    lemma_heap_entries();
    lemma_codes_of_word_74(heap_table(4));
    lemma_codes_of_word_38(heap_table(5));
    lemma_charts_agree_through([(0, 3), (0, 2), (0, 1)], heap_table(5), [(1, 3), (1, 2), (0, 1)], heap_table(4), 4, (3, 5, 6, 0, 7, 1, 2, 4));
}

proof fn lemma_chart_1781()
    ensures
        chart_signature([(1, 3), (1, 2), (0, 1)], heap_table(5)) == chart_signature([(0, 3), (0, 2), (0, 1)], heap_table(4)),
{
    lemma_heap_entries();
    lemma_codes_of_word_74(heap_table(5));
    lemma_codes_of_word_38(heap_table(4));
    lemma_charts_agree_through([(0, 3), (0, 2), (0, 1)], heap_table(4), [(1, 3), (1, 2), (0, 1)], heap_table(5), 4, (3, 5, 6, 0, 7, 1, 2, 4));
}

proof fn lemma_chart_1782()
    ensures
        chart_signature([(1, 3), (1, 2), (0, 1)], heap_table(6)) == chart_signature([(0, 3), (0, 2), (0, 1)], heap_table(7)),
{
    lemma_heap_entries();
    lemma_codes_of_word_74(heap_table(6));
    lemma_codes_of_word_38(heap_table(7));
    lemma_charts_agree_through([(0, 3), (0, 2), (0, 1)], heap_table(7), [(1, 3), (1, 2), (0, 1)], heap_table(6), 4, (3, 5, 6, 0, 7, 1, 2, 4));
}

proof fn lemma_chart_1783()
    ensures
        chart_signature([(1, 3), (1, 2), (0, 1)], heap_table(7)) == chart_signature([(0, 3), (0, 2), (0, 1)], heap_table(0)),
{
    lemma_heap_entries();
    lemma_codes_of_word_74(heap_table(7));
    lemma_codes_of_word_38(heap_table(0));
    lemma_charts_agree_through([(0, 3), (0, 2), (0, 1)], heap_table(0), [(1, 3), (1, 2), (0, 1)], heap_table(7), 5, (5, 3, 7, 1, 6, 0, 4, 2));
}

proof fn lemma_chart_1784()
    ensures
        chart_signature([(1, 3), (1, 2), (0, 1)], heap_table(8)) == chart_signature([(0, 3), (0, 2), (0, 1)], heap_table(3)),
{
    lemma_heap_entries();
    lemma_codes_of_word_74(heap_table(8));
    lemma_codes_of_word_38(heap_table(3));
    lemma_charts_agree_through([(0, 3), (0, 2), (0, 1)], heap_table(3), [(1, 3), (1, 2), (0, 1)], heap_table(8), 5, (5, 3, 7, 1, 6, 0, 4, 2));
}

proof fn lemma_chart_1785()
    ensures
        chart_signature([(1, 3), (1, 2), (0, 1)], heap_table(9)) == chart_signature([(0, 3), (0, 2), (0, 1)], heap_table(8)),
{
    lemma_heap_entries();
    lemma_codes_of_word_74(heap_table(9));
    lemma_codes_of_word_38(heap_table(8));
    lemma_charts_agree_through([(0, 3), (0, 2), (0, 1)], heap_table(8), [(1, 3), (1, 2), (0, 1)], heap_table(9), 4, (3, 5, 6, 0, 7, 1, 2, 4));
}

proof fn lemma_chart_1786()
    ensures
        chart_signature([(1, 3), (1, 2), (0, 1)], heap_table(10)) == chart_signature([(0, 3), (0, 2), (0, 1)], heap_table(11)),
{
    lemma_heap_entries();
    lemma_codes_of_word_74(heap_table(10));
    lemma_codes_of_word_38(heap_table(11));
    lemma_charts_agree_through([(0, 3), (0, 2), (0, 1)], heap_table(11), [(1, 3), (1, 2), (0, 1)], heap_table(10), 4, (3, 5, 6, 0, 7, 1, 2, 4));
}

proof fn lemma_chart_1787()
    ensures
        chart_signature([(1, 3), (1, 2), (0, 1)], heap_table(11)) == chart_signature([(0, 3), (0, 2), (0, 1)], heap_table(10)),
{
    lemma_heap_entries();
    lemma_codes_of_word_74(heap_table(11));
    lemma_codes_of_word_38(heap_table(10));
    lemma_charts_agree_through([(0, 3), (0, 2), (0, 1)], heap_table(10), [(1, 3), (1, 2), (0, 1)], heap_table(11), 4, (3, 5, 6, 0, 7, 1, 2, 4));
}

proof fn lemma_chart_1788()
    ensures
        chart_signature([(1, 3), (1, 2), (0, 1)], heap_table(12)) == chart_signature([(0, 3), (0, 2), (0, 1)], heap_table(7)),
{
    lemma_heap_entries();
    lemma_codes_of_word_74(heap_table(12));
    lemma_codes_of_word_38(heap_table(7));
    lemma_charts_agree_through([(0, 3), (0, 2), (0, 1)], heap_table(7), [(1, 3), (1, 2), (0, 1)], heap_table(12), 5, (5, 3, 7, 1, 6, 0, 4, 2));
}

proof fn lemma_chart_1789()
    ensures
        chart_signature([(1, 3), (1, 2), (0, 1)], heap_table(13)) == chart_signature([(0, 3), (0, 2), (0, 1)], heap_table(1)),
{
    lemma_heap_entries();
    lemma_codes_of_word_74(heap_table(13));
    lemma_codes_of_word_38(heap_table(1));
    lemma_charts_agree_through([(0, 3), (0, 2), (0, 1)], heap_table(1), [(1, 3), (1, 2), (0, 1)], heap_table(13), 5, (5, 3, 7, 1, 6, 0, 4, 2));
}

proof fn lemma_chart_1790()
    ensures
        chart_signature([(1, 3), (1, 2), (0, 1)], heap_table(14)) == chart_signature([(0, 3), (0, 2), (0, 1)], heap_table(4)),
{
    lemma_heap_entries();
    lemma_codes_of_word_74(heap_table(14));
    lemma_codes_of_word_38(heap_table(4));
    lemma_charts_agree_through([(0, 3), (0, 2), (0, 1)], heap_table(4), [(1, 3), (1, 2), (0, 1)], heap_table(14), 5, (5, 3, 7, 1, 6, 0, 4, 2));
}

proof fn lemma_chart_1791()
    ensures
        chart_signature([(1, 3), (1, 2), (0, 1)], heap_table(15)) == chart_signature([(0, 3), (0, 2), (0, 1)], heap_table(14)),
{
    lemma_heap_entries();
    lemma_codes_of_word_74(heap_table(15));
    lemma_codes_of_word_38(heap_table(14));
    lemma_charts_agree_through([(0, 3), (0, 2), (0, 1)], heap_table(14), [(1, 3), (1, 2), (0, 1)], heap_table(15), 4, (3, 5, 6, 0, 7, 1, 2, 4));
}

proof fn lemma_chart_1792()
    ensures
        chart_signature([(1, 3), (1, 2), (0, 1)], heap_table(16)) == chart_signature([(0, 3), (0, 2), (0, 1)], heap_table(17)),
{
    lemma_heap_entries();
    lemma_codes_of_word_74(heap_table(16));
    lemma_codes_of_word_38(heap_table(17));
    lemma_charts_agree_through([(0, 3), (0, 2), (0, 1)], heap_table(17), [(1, 3), (1, 2), (0, 1)], heap_table(16), 4, (3, 5, 6, 0, 7, 1, 2, 4));
}

proof fn lemma_chart_1793()
    ensures
        chart_signature([(1, 3), (1, 2), (0, 1)], heap_table(17)) == chart_signature([(0, 3), (0, 2), (0, 1)], heap_table(10)),
{
    lemma_heap_entries();
    lemma_codes_of_word_74(heap_table(17));
    lemma_codes_of_word_38(heap_table(10));
    lemma_charts_agree_through([(0, 3), (0, 2), (0, 1)], heap_table(10), [(1, 3), (1, 2), (0, 1)], heap_table(17), 5, (5, 3, 7, 1, 6, 0, 4, 2));
}

proof fn lemma_chart_1794()
    ensures
        chart_signature([(1, 3), (1, 2), (0, 1)], heap_table(18)) == chart_signature([(0, 3), (0, 2), (0, 1)], heap_table(8)),
{
    lemma_heap_entries();
    lemma_codes_of_word_74(heap_table(18));
    lemma_codes_of_word_38(heap_table(8));
    lemma_charts_agree_through([(0, 3), (0, 2), (0, 1)], heap_table(8), [(1, 3), (1, 2), (0, 1)], heap_table(18), 5, (5, 3, 7, 1, 6, 0, 4, 2));
}

proof fn lemma_chart_1795()
    ensures
        chart_signature([(1, 3), (1, 2), (0, 1)], heap_table(19)) == chart_signature([(0, 3), (0, 2), (0, 1)], heap_table(2)),
{
    lemma_heap_entries();
    lemma_codes_of_word_74(heap_table(19));
    lemma_codes_of_word_38(heap_table(2));
    lemma_charts_agree_through([(0, 3), (0, 2), (0, 1)], heap_table(2), [(1, 3), (1, 2), (0, 1)], heap_table(19), 5, (5, 3, 7, 1, 6, 0, 4, 2));
}

proof fn lemma_chart_1796()
    ensures
        chart_signature([(1, 3), (1, 2), (0, 1)], heap_table(20)) == chart_signature([(0, 3), (0, 2), (0, 1)], heap_table(5)),
{
    lemma_heap_entries();
    lemma_codes_of_word_74(heap_table(20));
    lemma_codes_of_word_38(heap_table(5));
    lemma_charts_agree_through([(0, 3), (0, 2), (0, 1)], heap_table(5), [(1, 3), (1, 2), (0, 1)], heap_table(20), 5, (5, 3, 7, 1, 6, 0, 4, 2));
}

proof fn lemma_chart_1797()
    ensures
        chart_signature([(1, 3), (1, 2), (0, 1)], heap_table(21)) == chart_signature([(0, 3), (0, 2), (0, 1)], heap_table(14)),
{
    lemma_heap_entries();
    lemma_codes_of_word_74(heap_table(21));
    lemma_codes_of_word_38(heap_table(14));
    lemma_charts_agree_through([(0, 3), (0, 2), (0, 1)], heap_table(14), [(1, 3), (1, 2), (0, 1)], heap_table(21), 5, (5, 3, 7, 1, 6, 0, 4, 2));
}

proof fn lemma_chart_1798()
    ensures
        chart_signature([(1, 3), (1, 2), (0, 1)], heap_table(22)) == chart_signature([(0, 3), (0, 2), (0, 1)], heap_table(17)),
{
    lemma_heap_entries();
    lemma_codes_of_word_74(heap_table(22));
    lemma_codes_of_word_38(heap_table(17));
    lemma_charts_agree_through([(0, 3), (0, 2), (0, 1)], heap_table(17), [(1, 3), (1, 2), (0, 1)], heap_table(22), 5, (5, 3, 7, 1, 6, 0, 4, 2));
}

proof fn lemma_chart_1799()
    ensures
        chart_signature([(1, 3), (1, 2), (0, 1)], heap_table(23)) == chart_signature([(0, 3), (0, 2), (0, 1)], heap_table(11)),
{
    lemma_heap_entries();
    lemma_codes_of_word_74(heap_table(23));
    lemma_codes_of_word_38(heap_table(11));
    lemma_charts_agree_through([(0, 3), (0, 2), (0, 1)], heap_table(11), [(1, 3), (1, 2), (0, 1)], heap_table(23), 5, (5, 3, 7, 1, 6, 0, 4, 2));
}

/// Every chart of atlas word 74 shares its signature with the first chart
/// of a class below 216.
pub proof fn lemma_charts_of_word_74()
    ensures
        forall|t: int| 1776 <= t < 1800 ==> #[trigger] meets_class_below(t, 216),
{
    lemma_census_words();
    assert forall|t: int| 1776 <= t < 1800 implies #[trigger] meets_class_below(t, 216) by {
        if t == 1776 { lemma_chart_1776(); assert(atlas_signatures()[class_rep(205)] == atlas_signatures()[1776]); }
        else if t == 1777 { lemma_chart_1777(); assert(atlas_signatures()[class_rep(204)] == atlas_signatures()[1777]); }
        else if t == 1778 { lemma_chart_1778(); assert(atlas_signatures()[class_rep(207)] == atlas_signatures()[1778]); }
        else if t == 1779 { lemma_chart_1779(); assert(atlas_signatures()[class_rep(206)] == atlas_signatures()[1779]); }
        else if t == 1780 { lemma_chart_1780(); assert(atlas_signatures()[class_rep(209)] == atlas_signatures()[1780]); }
        else if t == 1781 { lemma_chart_1781(); assert(atlas_signatures()[class_rep(208)] == atlas_signatures()[1781]); }
        else if t == 1782 { lemma_chart_1782(); assert(atlas_signatures()[class_rep(210)] == atlas_signatures()[1782]); }
        else if t == 1783 { lemma_chart_1783(); assert(atlas_signatures()[class_rep(204)] == atlas_signatures()[1783]); }
        else if t == 1784 { lemma_chart_1784(); assert(atlas_signatures()[class_rep(207)] == atlas_signatures()[1784]); }
        else if t == 1785 { lemma_chart_1785(); assert(atlas_signatures()[class_rep(211)] == atlas_signatures()[1785]); }
        else if t == 1786 { lemma_chart_1786(); assert(atlas_signatures()[class_rep(213)] == atlas_signatures()[1786]); }
        else if t == 1787 { lemma_chart_1787(); assert(atlas_signatures()[class_rep(212)] == atlas_signatures()[1787]); }
        else if t == 1788 { lemma_chart_1788(); assert(atlas_signatures()[class_rep(210)] == atlas_signatures()[1788]); }
        else if t == 1789 { lemma_chart_1789(); assert(atlas_signatures()[class_rep(205)] == atlas_signatures()[1789]); }
        else if t == 1790 { lemma_chart_1790(); assert(atlas_signatures()[class_rep(208)] == atlas_signatures()[1790]); }
        else if t == 1791 { lemma_chart_1791(); assert(atlas_signatures()[class_rep(214)] == atlas_signatures()[1791]); }
        else if t == 1792 { lemma_chart_1792(); assert(atlas_signatures()[class_rep(215)] == atlas_signatures()[1792]); }
        else if t == 1793 { lemma_chart_1793(); assert(atlas_signatures()[class_rep(212)] == atlas_signatures()[1793]); }
        else if t == 1794 { lemma_chart_1794(); assert(atlas_signatures()[class_rep(211)] == atlas_signatures()[1794]); }
        else if t == 1795 { lemma_chart_1795(); assert(atlas_signatures()[class_rep(206)] == atlas_signatures()[1795]); }
        else if t == 1796 { lemma_chart_1796(); assert(atlas_signatures()[class_rep(209)] == atlas_signatures()[1796]); }
        else if t == 1797 { lemma_chart_1797(); assert(atlas_signatures()[class_rep(214)] == atlas_signatures()[1797]); }
        else if t == 1798 { lemma_chart_1798(); assert(atlas_signatures()[class_rep(215)] == atlas_signatures()[1798]); }
        else { lemma_chart_1799(); assert(atlas_signatures()[class_rep(213)] == atlas_signatures()[1799]); }
    }
}

proof fn lemma_chart_1800()
    ensures
        chart_signature([(1, 3), (1, 2), (0, 2)], heap_table(0)) == chart_signature([(0, 3), (0, 1), (0, 2)], heap_table(4)),
{
    lemma_heap_entries();
    lemma_codes_of_word_75(heap_table(0));
    lemma_codes_of_word_35(heap_table(4));
    lemma_charts_agree_through([(0, 3), (0, 1), (0, 2)], heap_table(4), [(1, 3), (1, 2), (0, 2)], heap_table(0), 6, (6, 7, 3, 2, 5, 4, 0, 1));
}

proof fn lemma_chart_1801()
    ensures
        chart_signature([(1, 3), (1, 2), (0, 2)], heap_table(1)) == chart_signature([(0, 3), (0, 1), (0, 2)], heap_table(3)),
{
    lemma_heap_entries();
    lemma_codes_of_word_75(heap_table(1));
    lemma_codes_of_word_35(heap_table(3));
    lemma_charts_agree_through([(0, 3), (0, 1), (0, 2)], heap_table(3), [(1, 3), (1, 2), (0, 2)], heap_table(1), 6, (6, 7, 3, 2, 5, 4, 0, 1));
}

proof fn lemma_chart_1802()
    ensures
        chart_signature([(1, 3), (1, 2), (0, 2)], heap_table(2)) == chart_signature([(0, 3), (0, 1), (0, 2)], heap_table(0)),
{
    lemma_heap_entries();
    lemma_codes_of_word_75(heap_table(2));
    lemma_codes_of_word_35(heap_table(0));
    lemma_charts_agree_through([(0, 3), (0, 1), (0, 2)], heap_table(0), [(1, 3), (1, 2), (0, 2)], heap_table(2), 6, (6, 7, 3, 2, 5, 4, 0, 1));
}

proof fn lemma_chart_1803()
    ensures
        chart_signature([(1, 3), (1, 2), (0, 2)], heap_table(3)) == chart_signature([(0, 3), (0, 1), (0, 2)], heap_table(5)),
{
    lemma_heap_entries();
    lemma_codes_of_word_75(heap_table(3));
    lemma_codes_of_word_35(heap_table(5));
    lemma_charts_agree_through([(0, 3), (0, 1), (0, 2)], heap_table(5), [(1, 3), (1, 2), (0, 2)], heap_table(3), 6, (6, 7, 3, 2, 5, 4, 0, 1));
}

proof fn lemma_chart_1804()
    ensures
        chart_signature([(1, 3), (1, 2), (0, 2)], heap_table(4)) == chart_signature([(0, 3), (0, 1), (0, 2)], heap_table(2)),
{
    lemma_heap_entries();
    lemma_codes_of_word_75(heap_table(4));
    lemma_codes_of_word_35(heap_table(2));
    lemma_charts_agree_through([(0, 3), (0, 1), (0, 2)], heap_table(2), [(1, 3), (1, 2), (0, 2)], heap_table(4), 6, (6, 7, 3, 2, 5, 4, 0, 1));
}

proof fn lemma_chart_1805()
    ensures
        chart_signature([(1, 3), (1, 2), (0, 2)], heap_table(5)) == chart_signature([(0, 3), (0, 1), (0, 2)], heap_table(1)),
{
    lemma_heap_entries();
    lemma_codes_of_word_75(heap_table(5));
    lemma_codes_of_word_35(heap_table(1));
    lemma_charts_agree_through([(0, 3), (0, 1), (0, 2)], heap_table(1), [(1, 3), (1, 2), (0, 2)], heap_table(5), 6, (6, 7, 3, 2, 5, 4, 0, 1));
}

proof fn lemma_chart_1806()
    ensures
        chart_signature([(1, 3), (1, 2), (0, 2)], heap_table(6)) == chart_signature([(0, 3), (0, 1), (0, 2)], heap_table(10)),
{
    lemma_heap_entries();
    lemma_codes_of_word_75(heap_table(6));
    lemma_codes_of_word_35(heap_table(10));
    lemma_charts_agree_through([(0, 3), (0, 1), (0, 2)], heap_table(10), [(1, 3), (1, 2), (0, 2)], heap_table(6), 6, (6, 7, 3, 2, 5, 4, 0, 1));
}

proof fn lemma_chart_1807()
    ensures
        chart_signature([(1, 3), (1, 2), (0, 2)], heap_table(7)) == chart_signature([(0, 3), (0, 1), (0, 2)], heap_table(3)),
{
    lemma_heap_entries();
    lemma_codes_of_word_75(heap_table(7));
    lemma_codes_of_word_35(heap_table(3));
    lemma_charts_agree_through([(0, 3), (0, 1), (0, 2)], heap_table(3), [(1, 3), (1, 2), (0, 2)], heap_table(7), 7, (7, 6, 5, 4, 3, 2, 1, 0));
}

proof fn lemma_chart_1808()
    ensures
        chart_signature([(1, 3), (1, 2), (0, 2)], heap_table(8)) == chart_signature([(0, 3), (0, 1), (0, 2)], heap_table(0)),
{
    lemma_heap_entries();
    lemma_codes_of_word_75(heap_table(8));
    lemma_codes_of_word_35(heap_table(0));
    lemma_charts_agree_through([(0, 3), (0, 1), (0, 2)], heap_table(0), [(1, 3), (1, 2), (0, 2)], heap_table(8), 7, (7, 6, 5, 4, 3, 2, 1, 0));
}

proof fn lemma_chart_1809()
    ensures
        chart_signature([(1, 3), (1, 2), (0, 2)], heap_table(9)) == chart_signature([(0, 3), (0, 1), (0, 2)], heap_table(11)),
{
    lemma_heap_entries();
    lemma_codes_of_word_75(heap_table(9));
    lemma_codes_of_word_35(heap_table(11));
    lemma_charts_agree_through([(0, 3), (0, 1), (0, 2)], heap_table(11), [(1, 3), (1, 2), (0, 2)], heap_table(9), 6, (6, 7, 3, 2, 5, 4, 0, 1));
}

proof fn lemma_chart_1810()
    ensures
        chart_signature([(1, 3), (1, 2), (0, 2)], heap_table(10)) == chart_signature([(0, 3), (0, 1), (0, 2)], heap_table(8)),
{
    lemma_heap_entries();
    lemma_codes_of_word_75(heap_table(10));
    lemma_codes_of_word_35(heap_table(8));
    lemma_charts_agree_through([(0, 3), (0, 1), (0, 2)], heap_table(8), [(1, 3), (1, 2), (0, 2)], heap_table(10), 6, (6, 7, 3, 2, 5, 4, 0, 1));
}

proof fn lemma_chart_1811()
    ensures
        chart_signature([(1, 3), (1, 2), (0, 2)], heap_table(11)) == chart_signature([(0, 3), (0, 1), (0, 2)], heap_table(7)),
{
    lemma_heap_entries();
    lemma_codes_of_word_75(heap_table(11));
    lemma_codes_of_word_35(heap_table(7));
    lemma_charts_agree_through([(0, 3), (0, 1), (0, 2)], heap_table(7), [(1, 3), (1, 2), (0, 2)], heap_table(11), 6, (6, 7, 3, 2, 5, 4, 0, 1));
}

proof fn lemma_chart_1812()
    ensures
        chart_signature([(1, 3), (1, 2), (0, 2)], heap_table(12)) == chart_signature([(0, 3), (0, 1), (0, 2)], heap_table(10)),
{
    lemma_heap_entries();
    lemma_codes_of_word_75(heap_table(12));
    lemma_codes_of_word_35(heap_table(10));
    lemma_charts_agree_through([(0, 3), (0, 1), (0, 2)], heap_table(10), [(1, 3), (1, 2), (0, 2)], heap_table(12), 7, (7, 6, 5, 4, 3, 2, 1, 0));
}

proof fn lemma_chart_1813()
    ensures
        chart_signature([(1, 3), (1, 2), (0, 2)], heap_table(13)) == chart_signature([(0, 3), (0, 1), (0, 2)], heap_table(4)),
{
    lemma_heap_entries();
    lemma_codes_of_word_75(heap_table(13));
    lemma_codes_of_word_35(heap_table(4));
    lemma_charts_agree_through([(0, 3), (0, 1), (0, 2)], heap_table(4), [(1, 3), (1, 2), (0, 2)], heap_table(13), 7, (7, 6, 5, 4, 3, 2, 1, 0));
}

proof fn lemma_chart_1814()
    ensures
        chart_signature([(1, 3), (1, 2), (0, 2)], heap_table(14)) == chart_signature([(0, 3), (0, 1), (0, 2)], heap_table(1)),
{
    lemma_heap_entries();
    lemma_codes_of_word_75(heap_table(14));
    lemma_codes_of_word_35(heap_table(1));
    lemma_charts_agree_through([(0, 3), (0, 1), (0, 2)], heap_table(1), [(1, 3), (1, 2), (0, 2)], heap_table(14), 7, (7, 6, 5, 4, 3, 2, 1, 0));
}

proof fn lemma_chart_1815()
    ensures
        chart_signature([(1, 3), (1, 2), (0, 2)], heap_table(15)) == chart_signature([(0, 3), (0, 1), (0, 2)], heap_table(17)),
{
    lemma_heap_entries();
    lemma_codes_of_word_75(heap_table(15));
    lemma_codes_of_word_35(heap_table(17));
    lemma_charts_agree_through([(0, 3), (0, 1), (0, 2)], heap_table(17), [(1, 3), (1, 2), (0, 2)], heap_table(15), 6, (6, 7, 3, 2, 5, 4, 0, 1));
}

proof fn lemma_chart_1816()
    ensures
        chart_signature([(1, 3), (1, 2), (0, 2)], heap_table(16)) == chart_signature([(0, 3), (0, 1), (0, 2)], heap_table(14)),
{
    lemma_heap_entries();
    lemma_codes_of_word_75(heap_table(16));
    lemma_codes_of_word_35(heap_table(14));
    lemma_charts_agree_through([(0, 3), (0, 1), (0, 2)], heap_table(14), [(1, 3), (1, 2), (0, 2)], heap_table(16), 6, (6, 7, 3, 2, 5, 4, 0, 1));
}

proof fn lemma_chart_1817()
    ensures
        chart_signature([(1, 3), (1, 2), (0, 2)], heap_table(17)) == chart_signature([(0, 3), (0, 1), (0, 2)], heap_table(7)),
{
    lemma_heap_entries();
    lemma_codes_of_word_75(heap_table(17));
    lemma_codes_of_word_35(heap_table(7));
    lemma_charts_agree_through([(0, 3), (0, 1), (0, 2)], heap_table(7), [(1, 3), (1, 2), (0, 2)], heap_table(17), 7, (7, 6, 5, 4, 3, 2, 1, 0));
}

proof fn lemma_chart_1818()
    ensures
        chart_signature([(1, 3), (1, 2), (0, 2)], heap_table(18)) == chart_signature([(0, 3), (0, 1), (0, 2)], heap_table(11)),
{
    lemma_heap_entries();
    lemma_codes_of_word_75(heap_table(18));
    lemma_codes_of_word_35(heap_table(11));
    lemma_charts_agree_through([(0, 3), (0, 1), (0, 2)], heap_table(11), [(1, 3), (1, 2), (0, 2)], heap_table(18), 7, (7, 6, 5, 4, 3, 2, 1, 0));
}

proof fn lemma_chart_1819()
    ensures
        chart_signature([(1, 3), (1, 2), (0, 2)], heap_table(19)) == chart_signature([(0, 3), (0, 1), (0, 2)], heap_table(5)),
{
    lemma_heap_entries();
    lemma_codes_of_word_75(heap_table(19));
    lemma_codes_of_word_35(heap_table(5));
    lemma_charts_agree_through([(0, 3), (0, 1), (0, 2)], heap_table(5), [(1, 3), (1, 2), (0, 2)], heap_table(19), 7, (7, 6, 5, 4, 3, 2, 1, 0));
}

proof fn lemma_chart_1820()
    ensures
        chart_signature([(1, 3), (1, 2), (0, 2)], heap_table(20)) == chart_signature([(0, 3), (0, 1), (0, 2)], heap_table(2)),
{
    lemma_heap_entries();
    lemma_codes_of_word_75(heap_table(20));
    lemma_codes_of_word_35(heap_table(2));
    lemma_charts_agree_through([(0, 3), (0, 1), (0, 2)], heap_table(2), [(1, 3), (1, 2), (0, 2)], heap_table(20), 7, (7, 6, 5, 4, 3, 2, 1, 0));
}

proof fn lemma_chart_1821()
    ensures
        chart_signature([(1, 3), (1, 2), (0, 2)], heap_table(21)) == chart_signature([(0, 3), (0, 1), (0, 2)], heap_table(17)),
{
    lemma_heap_entries();
    lemma_codes_of_word_75(heap_table(21));
    lemma_codes_of_word_35(heap_table(17));
    lemma_charts_agree_through([(0, 3), (0, 1), (0, 2)], heap_table(17), [(1, 3), (1, 2), (0, 2)], heap_table(21), 7, (7, 6, 5, 4, 3, 2, 1, 0));
}

proof fn lemma_chart_1822()
    ensures
        chart_signature([(1, 3), (1, 2), (0, 2)], heap_table(22)) == chart_signature([(0, 3), (0, 1), (0, 2)], heap_table(14)),
{
    lemma_heap_entries();
    lemma_codes_of_word_75(heap_table(22));
    lemma_codes_of_word_35(heap_table(14));
    lemma_charts_agree_through([(0, 3), (0, 1), (0, 2)], heap_table(14), [(1, 3), (1, 2), (0, 2)], heap_table(22), 7, (7, 6, 5, 4, 3, 2, 1, 0));
}

proof fn lemma_chart_1823()
    ensures
        chart_signature([(1, 3), (1, 2), (0, 2)], heap_table(23)) == chart_signature([(0, 3), (0, 1), (0, 2)], heap_table(8)),
{
    lemma_heap_entries();
    lemma_codes_of_word_75(heap_table(23));
    lemma_codes_of_word_35(heap_table(8));
    lemma_charts_agree_through([(0, 3), (0, 1), (0, 2)], heap_table(8), [(1, 3), (1, 2), (0, 2)], heap_table(23), 7, (7, 6, 5, 4, 3, 2, 1, 0));
}

/// Every chart of atlas word 75 shares its signature with the first chart
/// of a class below 216.
pub proof fn lemma_charts_of_word_75()
    ensures
        forall|t: int| 1800 <= t < 1824 ==> #[trigger] meets_class_below(t, 216),
{
    lemma_census_words();
    assert forall|t: int| 1800 <= t < 1824 implies #[trigger] meets_class_below(t, 216) by {
        if t == 1800 { lemma_chart_1800(); assert(atlas_signatures()[class_rep(184)] == atlas_signatures()[1800]); }
        else if t == 1801 { lemma_chart_1801(); assert(atlas_signatures()[class_rep(183)] == atlas_signatures()[1801]); }
        else if t == 1802 { lemma_chart_1802(); assert(atlas_signatures()[class_rep(180)] == atlas_signatures()[1802]); }
        else if t == 1803 { lemma_chart_1803(); assert(atlas_signatures()[class_rep(185)] == atlas_signatures()[1803]); }
        else if t == 1804 { lemma_chart_1804(); assert(atlas_signatures()[class_rep(182)] == atlas_signatures()[1804]); }
        else if t == 1805 { lemma_chart_1805(); assert(atlas_signatures()[class_rep(181)] == atlas_signatures()[1805]); }
        else if t == 1806 { lemma_chart_1806(); assert(atlas_signatures()[class_rep(188)] == atlas_signatures()[1806]); }
        else if t == 1807 { lemma_chart_1807(); assert(atlas_signatures()[class_rep(183)] == atlas_signatures()[1807]); }
        else if t == 1808 { lemma_chart_1808(); assert(atlas_signatures()[class_rep(180)] == atlas_signatures()[1808]); }
        else if t == 1809 { lemma_chart_1809(); assert(atlas_signatures()[class_rep(189)] == atlas_signatures()[1809]); }
        else if t == 1810 { lemma_chart_1810(); assert(atlas_signatures()[class_rep(187)] == atlas_signatures()[1810]); }
        else if t == 1811 { lemma_chart_1811(); assert(atlas_signatures()[class_rep(186)] == atlas_signatures()[1811]); }
        else if t == 1812 { lemma_chart_1812(); assert(atlas_signatures()[class_rep(188)] == atlas_signatures()[1812]); }
        else if t == 1813 { lemma_chart_1813(); assert(atlas_signatures()[class_rep(184)] == atlas_signatures()[1813]); }
        else if t == 1814 { lemma_chart_1814(); assert(atlas_signatures()[class_rep(181)] == atlas_signatures()[1814]); }
        else if t == 1815 { lemma_chart_1815(); assert(atlas_signatures()[class_rep(191)] == atlas_signatures()[1815]); }
        else if t == 1816 { lemma_chart_1816(); assert(atlas_signatures()[class_rep(190)] == atlas_signatures()[1816]); }
        else if t == 1817 { lemma_chart_1817(); assert(atlas_signatures()[class_rep(186)] == atlas_signatures()[1817]); }
        else if t == 1818 { lemma_chart_1818(); assert(atlas_signatures()[class_rep(189)] == atlas_signatures()[1818]); }
        else if t == 1819 { lemma_chart_1819(); assert(atlas_signatures()[class_rep(185)] == atlas_signatures()[1819]); }
        else if t == 1820 { lemma_chart_1820(); assert(atlas_signatures()[class_rep(182)] == atlas_signatures()[1820]); }
        else if t == 1821 { lemma_chart_1821(); assert(atlas_signatures()[class_rep(191)] == atlas_signatures()[1821]); }
        else if t == 1822 { lemma_chart_1822(); assert(atlas_signatures()[class_rep(190)] == atlas_signatures()[1822]); }
        else { lemma_chart_1823(); assert(atlas_signatures()[class_rep(187)] == atlas_signatures()[1823]); }
    }
}

proof fn lemma_chart_1824()
    ensures
        chart_signature([(1, 3), (1, 2), (0, 3)], heap_table(0)) == chart_signature([(0, 2), (0, 3), (1, 2)], heap_table(9)),
{
    lemma_heap_entries();
    lemma_codes_of_word_76(heap_table(0));
    lemma_codes_of_word_3(heap_table(9));
    lemma_charts_agree_through([(0, 2), (0, 3), (1, 2)], heap_table(9), [(1, 3), (1, 2), (0, 3)], heap_table(0), 14, (6, 7, 2, 3, 4, 5, 0, 1));
}

proof fn lemma_chart_1825()
    ensures
        chart_signature([(1, 3), (1, 2), (0, 3)], heap_table(1)) == chart_signature([(0, 2), (0, 3), (1, 2)], heap_table(15)),
{
    lemma_heap_entries();
    lemma_codes_of_word_76(heap_table(1));
    lemma_codes_of_word_3(heap_table(15));
    lemma_charts_agree_through([(0, 2), (0, 3), (1, 2)], heap_table(15), [(1, 3), (1, 2), (0, 3)], heap_table(1), 14, (6, 7, 2, 3, 4, 5, 0, 1));
}

proof fn lemma_chart_1826()
    ensures
        chart_signature([(1, 3), (1, 2), (0, 3)], heap_table(2)) == chart_signature([(0, 2), (0, 3), (1, 2)], heap_table(21)),
{
    lemma_heap_entries();
    lemma_codes_of_word_76(heap_table(2));
    lemma_codes_of_word_3(heap_table(21));
    lemma_charts_agree_through([(0, 2), (0, 3), (1, 2)], heap_table(21), [(1, 3), (1, 2), (0, 3)], heap_table(2), 14, (6, 7, 2, 3, 4, 5, 0, 1));
}

proof fn lemma_chart_1827()
    ensures
        chart_signature([(1, 3), (1, 2), (0, 3)], heap_table(3)) == chart_signature([(0, 2), (0, 3), (1, 2)], heap_table(6)),
{
    lemma_heap_entries();
    lemma_codes_of_word_76(heap_table(3));
    lemma_codes_of_word_3(heap_table(6));
    lemma_charts_agree_through([(0, 2), (0, 3), (1, 2)], heap_table(6), [(1, 3), (1, 2), (0, 3)], heap_table(3), 14, (6, 7, 2, 3, 4, 5, 0, 1));
}

proof fn lemma_chart_1828()
    ensures
        chart_signature([(1, 3), (1, 2), (0, 3)], heap_table(4)) == chart_signature([(0, 2), (0, 3), (1, 2)], heap_table(12)),
{
    lemma_heap_entries();
    lemma_codes_of_word_76(heap_table(4));
    lemma_codes_of_word_3(heap_table(12));
    lemma_charts_agree_through([(0, 2), (0, 3), (1, 2)], heap_table(12), [(1, 3), (1, 2), (0, 3)], heap_table(4), 14, (6, 7, 2, 3, 4, 5, 0, 1));
}

proof fn lemma_chart_1829()
    ensures
        chart_signature([(1, 3), (1, 2), (0, 3)], heap_table(5)) == chart_signature([(0, 2), (0, 3), (1, 2)], heap_table(18)),
{
    lemma_heap_entries();
    lemma_codes_of_word_76(heap_table(5));
    lemma_codes_of_word_3(heap_table(18));
    lemma_charts_agree_through([(0, 2), (0, 3), (1, 2)], heap_table(18), [(1, 3), (1, 2), (0, 3)], heap_table(5), 14, (6, 7, 2, 3, 4, 5, 0, 1));
}

proof fn lemma_chart_1830()
    ensures
        chart_signature([(1, 3), (1, 2), (0, 3)], heap_table(6)) == chart_signature([(0, 2), (0, 3), (1, 2)], heap_table(3)),
{
    lemma_heap_entries();
    lemma_codes_of_word_76(heap_table(6));
    lemma_codes_of_word_3(heap_table(3));
    lemma_charts_agree_through([(0, 2), (0, 3), (1, 2)], heap_table(3), [(1, 3), (1, 2), (0, 3)], heap_table(6), 14, (6, 7, 2, 3, 4, 5, 0, 1));
}

proof fn lemma_chart_1831()
    ensures
        chart_signature([(1, 3), (1, 2), (0, 3)], heap_table(7)) == chart_signature([(0, 2), (0, 3), (1, 2)], heap_table(15)),
{
    lemma_heap_entries();
    lemma_codes_of_word_76(heap_table(7));
    lemma_codes_of_word_3(heap_table(15));
    lemma_charts_agree_through([(0, 2), (0, 3), (1, 2)], heap_table(15), [(1, 3), (1, 2), (0, 3)], heap_table(7), 15, (7, 6, 4, 5, 2, 3, 1, 0));
}

proof fn lemma_chart_1832()
    ensures
        chart_signature([(1, 3), (1, 2), (0, 3)], heap_table(8)) == chart_signature([(0, 2), (0, 3), (1, 2)], heap_table(21)),
{
    lemma_heap_entries();
    lemma_codes_of_word_76(heap_table(8));
    lemma_codes_of_word_3(heap_table(21));
    lemma_charts_agree_through([(0, 2), (0, 3), (1, 2)], heap_table(21), [(1, 3), (1, 2), (0, 3)], heap_table(8), 15, (7, 6, 4, 5, 2, 3, 1, 0));
}

proof fn lemma_chart_1833()
    ensures
        chart_signature([(1, 3), (1, 2), (0, 3)], heap_table(9)) == chart_signature([(0, 2), (0, 3), (1, 2)], heap_table(0)),
{
    lemma_heap_entries();
    lemma_codes_of_word_76(heap_table(9));
    lemma_codes_of_word_3(heap_table(0));
    lemma_charts_agree_through([(0, 2), (0, 3), (1, 2)], heap_table(0), [(1, 3), (1, 2), (0, 3)], heap_table(9), 14, (6, 7, 2, 3, 4, 5, 0, 1));
}

proof fn lemma_chart_1834()
    ensures
        chart_signature([(1, 3), (1, 2), (0, 3)], heap_table(10)) == chart_signature([(0, 2), (0, 3), (1, 2)], heap_table(13)),
{
    lemma_heap_entries();
    lemma_codes_of_word_76(heap_table(10));
    lemma_codes_of_word_3(heap_table(13));
    lemma_charts_agree_through([(0, 2), (0, 3), (1, 2)], heap_table(13), [(1, 3), (1, 2), (0, 3)], heap_table(10), 14, (6, 7, 2, 3, 4, 5, 0, 1));
}

proof fn lemma_chart_1835()
    ensures
        chart_signature([(1, 3), (1, 2), (0, 3)], heap_table(11)) == chart_signature([(0, 2), (0, 3), (1, 2)], heap_table(19)),
{
    lemma_heap_entries();
    lemma_codes_of_word_76(heap_table(11));
    lemma_codes_of_word_3(heap_table(19));
    lemma_charts_agree_through([(0, 2), (0, 3), (1, 2)], heap_table(19), [(1, 3), (1, 2), (0, 3)], heap_table(11), 14, (6, 7, 2, 3, 4, 5, 0, 1));
}

proof fn lemma_chart_1836()
    ensures
        chart_signature([(1, 3), (1, 2), (0, 3)], heap_table(12)) == chart_signature([(0, 2), (0, 3), (1, 2)], heap_table(3)),
{
    lemma_heap_entries();
    lemma_codes_of_word_76(heap_table(12));
    lemma_codes_of_word_3(heap_table(3));
    lemma_charts_agree_through([(0, 2), (0, 3), (1, 2)], heap_table(3), [(1, 3), (1, 2), (0, 3)], heap_table(12), 15, (7, 6, 4, 5, 2, 3, 1, 0));
}

proof fn lemma_chart_1837()
    ensures
        chart_signature([(1, 3), (1, 2), (0, 3)], heap_table(13)) == chart_signature([(0, 2), (0, 3), (1, 2)], heap_table(9)),
{
    lemma_heap_entries();
    lemma_codes_of_word_76(heap_table(13));
    lemma_codes_of_word_3(heap_table(9));
    lemma_charts_agree_through([(0, 2), (0, 3), (1, 2)], heap_table(9), [(1, 3), (1, 2), (0, 3)], heap_table(13), 15, (7, 6, 4, 5, 2, 3, 1, 0));
}

proof fn lemma_chart_1838()
    ensures
        chart_signature([(1, 3), (1, 2), (0, 3)], heap_table(14)) == chart_signature([(0, 2), (0, 3), (1, 2)], heap_table(18)),
{
    lemma_heap_entries();
    lemma_codes_of_word_76(heap_table(14));
    lemma_codes_of_word_3(heap_table(18));
    lemma_charts_agree_through([(0, 2), (0, 3), (1, 2)], heap_table(18), [(1, 3), (1, 2), (0, 3)], heap_table(14), 15, (7, 6, 4, 5, 2, 3, 1, 0));
}

proof fn lemma_chart_1839()
    ensures
        chart_signature([(1, 3), (1, 2), (0, 3)], heap_table(15)) == chart_signature([(0, 2), (0, 3), (1, 2)], heap_table(1)),
{
    lemma_heap_entries();
    lemma_codes_of_word_76(heap_table(15));
    lemma_codes_of_word_3(heap_table(1));
    lemma_charts_agree_through([(0, 2), (0, 3), (1, 2)], heap_table(1), [(1, 3), (1, 2), (0, 3)], heap_table(15), 14, (6, 7, 2, 3, 4, 5, 0, 1));
}

proof fn lemma_chart_1840()
    ensures
        chart_signature([(1, 3), (1, 2), (0, 3)], heap_table(16)) == chart_signature([(0, 2), (0, 3), (1, 2)], heap_table(7)),
{
    lemma_heap_entries();
    lemma_codes_of_word_76(heap_table(16));
    lemma_codes_of_word_3(heap_table(7));
    lemma_charts_agree_through([(0, 2), (0, 3), (1, 2)], heap_table(7), [(1, 3), (1, 2), (0, 3)], heap_table(16), 14, (6, 7, 2, 3, 4, 5, 0, 1));
}

proof fn lemma_chart_1841()
    ensures
        chart_signature([(1, 3), (1, 2), (0, 3)], heap_table(17)) == chart_signature([(0, 2), (0, 3), (1, 2)], heap_table(19)),
{
    lemma_heap_entries();
    lemma_codes_of_word_76(heap_table(17));
    lemma_codes_of_word_3(heap_table(19));
    lemma_charts_agree_through([(0, 2), (0, 3), (1, 2)], heap_table(19), [(1, 3), (1, 2), (0, 3)], heap_table(17), 15, (7, 6, 4, 5, 2, 3, 1, 0));
}

proof fn lemma_chart_1842()
    ensures
        chart_signature([(1, 3), (1, 2), (0, 3)], heap_table(18)) == chart_signature([(0, 2), (0, 3), (1, 2)], heap_table(0)),
{
    lemma_heap_entries();
    lemma_codes_of_word_76(heap_table(18));
    lemma_codes_of_word_3(heap_table(0));
    lemma_charts_agree_through([(0, 2), (0, 3), (1, 2)], heap_table(0), [(1, 3), (1, 2), (0, 3)], heap_table(18), 15, (7, 6, 4, 5, 2, 3, 1, 0));
}

proof fn lemma_chart_1843()
    ensures
        chart_signature([(1, 3), (1, 2), (0, 3)], heap_table(19)) == chart_signature([(0, 2), (0, 3), (1, 2)], heap_table(6)),
{
    lemma_heap_entries();
    lemma_codes_of_word_76(heap_table(19));
    lemma_codes_of_word_3(heap_table(6));
    lemma_charts_agree_through([(0, 2), (0, 3), (1, 2)], heap_table(6), [(1, 3), (1, 2), (0, 3)], heap_table(19), 15, (7, 6, 4, 5, 2, 3, 1, 0));
}

proof fn lemma_chart_1844()
    ensures
        chart_signature([(1, 3), (1, 2), (0, 3)], heap_table(20)) == chart_signature([(0, 2), (0, 3), (1, 2)], heap_table(12)),
{
    lemma_heap_entries();
    lemma_codes_of_word_76(heap_table(20));
    lemma_codes_of_word_3(heap_table(12));
    lemma_charts_agree_through([(0, 2), (0, 3), (1, 2)], heap_table(12), [(1, 3), (1, 2), (0, 3)], heap_table(20), 15, (7, 6, 4, 5, 2, 3, 1, 0));
}

proof fn lemma_chart_1845()
    ensures
        chart_signature([(1, 3), (1, 2), (0, 3)], heap_table(21)) == chart_signature([(0, 2), (0, 3), (1, 2)], heap_table(1)),
{
    lemma_heap_entries();
    lemma_codes_of_word_76(heap_table(21));
    lemma_codes_of_word_3(heap_table(1));
    lemma_charts_agree_through([(0, 2), (0, 3), (1, 2)], heap_table(1), [(1, 3), (1, 2), (0, 3)], heap_table(21), 15, (7, 6, 4, 5, 2, 3, 1, 0));
}

proof fn lemma_chart_1846()
    ensures
        chart_signature([(1, 3), (1, 2), (0, 3)], heap_table(22)) == chart_signature([(0, 2), (0, 3), (1, 2)], heap_table(7)),
{
    lemma_heap_entries();
    lemma_codes_of_word_76(heap_table(22));
    lemma_codes_of_word_3(heap_table(7));
    lemma_charts_agree_through([(0, 2), (0, 3), (1, 2)], heap_table(7), [(1, 3), (1, 2), (0, 3)], heap_table(22), 15, (7, 6, 4, 5, 2, 3, 1, 0));
}

proof fn lemma_chart_1847()
    ensures
        chart_signature([(1, 3), (1, 2), (0, 3)], heap_table(23)) == chart_signature([(0, 2), (0, 3), (1, 2)], heap_table(13)),
{
    lemma_heap_entries();
    lemma_codes_of_word_76(heap_table(23));
    lemma_codes_of_word_3(heap_table(13));
    lemma_charts_agree_through([(0, 2), (0, 3), (1, 2)], heap_table(13), [(1, 3), (1, 2), (0, 3)], heap_table(23), 15, (7, 6, 4, 5, 2, 3, 1, 0));
}

/// Every chart of atlas word 76 shares its signature with the first chart
/// of a class below 216.
pub proof fn lemma_charts_of_word_76()
    ensures
        forall|t: int| 1824 <= t < 1848 ==> #[trigger] meets_class_below(t, 216),
{
    lemma_census_words();
    assert forall|t: int| 1824 <= t < 1848 implies #[trigger] meets_class_below(t, 216) by {
        if t == 1824 { lemma_chart_1824(); assert(atlas_signatures()[class_rep(41)] == atlas_signatures()[1824]); }
        else if t == 1825 { lemma_chart_1825(); assert(atlas_signatures()[class_rep(44)] == atlas_signatures()[1825]); }
        else if t == 1826 { lemma_chart_1826(); assert(atlas_signatures()[class_rep(47)] == atlas_signatures()[1826]); }
        else if t == 1827 { lemma_chart_1827(); assert(atlas_signatures()[class_rep(39)] == atlas_signatures()[1827]); }
        else if t == 1828 { lemma_chart_1828(); assert(atlas_signatures()[class_rep(42)] == atlas_signatures()[1828]); }
        else if t == 1829 { lemma_chart_1829(); assert(atlas_signatures()[class_rep(45)] == atlas_signatures()[1829]); }
        else if t == 1830 { lemma_chart_1830(); assert(atlas_signatures()[class_rep(38)] == atlas_signatures()[1830]); }
        else if t == 1831 { lemma_chart_1831(); assert(atlas_signatures()[class_rep(44)] == atlas_signatures()[1831]); }
        else if t == 1832 { lemma_chart_1832(); assert(atlas_signatures()[class_rep(47)] == atlas_signatures()[1832]); }
        else if t == 1833 { lemma_chart_1833(); assert(atlas_signatures()[class_rep(36)] == atlas_signatures()[1833]); }
        else if t == 1834 { lemma_chart_1834(); assert(atlas_signatures()[class_rep(43)] == atlas_signatures()[1834]); }
        else if t == 1835 { lemma_chart_1835(); assert(atlas_signatures()[class_rep(46)] == atlas_signatures()[1835]); }
        else if t == 1836 { lemma_chart_1836(); assert(atlas_signatures()[class_rep(38)] == atlas_signatures()[1836]); }
        else if t == 1837 { lemma_chart_1837(); assert(atlas_signatures()[class_rep(41)] == atlas_signatures()[1837]); }
        else if t == 1838 { lemma_chart_1838(); assert(atlas_signatures()[class_rep(45)] == atlas_signatures()[1838]); }
        else if t == 1839 { lemma_chart_1839(); assert(atlas_signatures()[class_rep(37)] == atlas_signatures()[1839]); }
        else if t == 1840 { lemma_chart_1840(); assert(atlas_signatures()[class_rep(40)] == atlas_signatures()[1840]); }
        else if t == 1841 { lemma_chart_1841(); assert(atlas_signatures()[class_rep(46)] == atlas_signatures()[1841]); }
        else if t == 1842 { lemma_chart_1842(); assert(atlas_signatures()[class_rep(36)] == atlas_signatures()[1842]); }
        else if t == 1843 { lemma_chart_1843(); assert(atlas_signatures()[class_rep(39)] == atlas_signatures()[1843]); }
        else if t == 1844 { lemma_chart_1844(); assert(atlas_signatures()[class_rep(42)] == atlas_signatures()[1844]); }
        else if t == 1845 { lemma_chart_1845(); assert(atlas_signatures()[class_rep(37)] == atlas_signatures()[1845]); }
        else if t == 1846 { lemma_chart_1846(); assert(atlas_signatures()[class_rep(40)] == atlas_signatures()[1846]); }
        else { lemma_chart_1847(); assert(atlas_signatures()[class_rep(43)] == atlas_signatures()[1847]); }
    }
}

proof fn lemma_chart_1848()
    ensures
        chart_signature([(1, 3), (2, 3), (0, 1)], heap_table(0)) == chart_signature([(0, 2), (0, 1), (2, 3)], heap_table(18)),
{
    lemma_heap_entries();
    lemma_codes_of_word_77(heap_table(0));
    lemma_codes_of_word_26(heap_table(18));
    lemma_charts_agree_through([(0, 2), (0, 1), (2, 3)], heap_table(18), [(1, 3), (2, 3), (0, 1)], heap_table(0), 15, (7, 6, 4, 5, 2, 3, 1, 0));
}

proof fn lemma_chart_1849()
    ensures
        chart_signature([(1, 3), (2, 3), (0, 1)], heap_table(1)) == chart_signature([(0, 2), (0, 1), (2, 3)], heap_table(21)),
{
    lemma_heap_entries();
    lemma_codes_of_word_77(heap_table(1));
    lemma_codes_of_word_26(heap_table(21));
    lemma_charts_agree_through([(0, 2), (0, 1), (2, 3)], heap_table(21), [(1, 3), (2, 3), (0, 1)], heap_table(1), 15, (7, 6, 4, 5, 2, 3, 1, 0));
}

proof fn lemma_chart_1850()
    ensures
        chart_signature([(1, 3), (2, 3), (0, 1)], heap_table(2)) == chart_signature([(0, 2), (0, 1), (2, 3)], heap_table(15)),
{
    lemma_heap_entries();
    lemma_codes_of_word_77(heap_table(2));
    lemma_codes_of_word_26(heap_table(15));
    lemma_charts_agree_through([(0, 2), (0, 1), (2, 3)], heap_table(15), [(1, 3), (2, 3), (0, 1)], heap_table(2), 15, (7, 6, 4, 5, 2, 3, 1, 0));
}

proof fn lemma_chart_1851()
    ensures
        chart_signature([(1, 3), (2, 3), (0, 1)], heap_table(3)) == chart_signature([(0, 2), (0, 1), (2, 3)], heap_table(12)),
{
    lemma_heap_entries();
    lemma_codes_of_word_77(heap_table(3));
    lemma_codes_of_word_26(heap_table(12));
    lemma_charts_agree_through([(0, 2), (0, 1), (2, 3)], heap_table(12), [(1, 3), (2, 3), (0, 1)], heap_table(3), 15, (7, 6, 4, 5, 2, 3, 1, 0));
}

proof fn lemma_chart_1852()
    ensures
        chart_signature([(1, 3), (2, 3), (0, 1)], heap_table(4)) == chart_signature([(0, 2), (0, 1), (2, 3)], heap_table(6)),
{
    lemma_heap_entries();
    lemma_codes_of_word_77(heap_table(4));
    lemma_codes_of_word_26(heap_table(6));
    lemma_charts_agree_through([(0, 2), (0, 1), (2, 3)], heap_table(6), [(1, 3), (2, 3), (0, 1)], heap_table(4), 15, (7, 6, 4, 5, 2, 3, 1, 0));
}

proof fn lemma_chart_1853()
    ensures
        chart_signature([(1, 3), (2, 3), (0, 1)], heap_table(5)) == chart_signature([(0, 2), (0, 1), (2, 3)], heap_table(9)),
{
    lemma_heap_entries();
    lemma_codes_of_word_77(heap_table(5));
    lemma_codes_of_word_26(heap_table(9));
    lemma_charts_agree_through([(0, 2), (0, 1), (2, 3)], heap_table(9), [(1, 3), (2, 3), (0, 1)], heap_table(5), 15, (7, 6, 4, 5, 2, 3, 1, 0));
}

proof fn lemma_chart_1854()
    ensures
        chart_signature([(1, 3), (2, 3), (0, 1)], heap_table(6)) == chart_signature([(0, 2), (0, 1), (2, 3)], heap_table(19)),
{
    lemma_heap_entries();
    lemma_codes_of_word_77(heap_table(6));
    lemma_codes_of_word_26(heap_table(19));
    lemma_charts_agree_through([(0, 2), (0, 1), (2, 3)], heap_table(19), [(1, 3), (2, 3), (0, 1)], heap_table(6), 15, (7, 6, 4, 5, 2, 3, 1, 0));
}

proof fn lemma_chart_1855()
    ensures
        chart_signature([(1, 3), (2, 3), (0, 1)], heap_table(7)) == chart_signature([(0, 2), (0, 1), (2, 3)], heap_table(21)),
{
    lemma_heap_entries();
    lemma_codes_of_word_77(heap_table(7));
    lemma_codes_of_word_26(heap_table(21));
    lemma_charts_agree_through([(0, 2), (0, 1), (2, 3)], heap_table(21), [(1, 3), (2, 3), (0, 1)], heap_table(7), 14, (6, 7, 2, 3, 4, 5, 0, 1));
}

proof fn lemma_chart_1856()
    ensures
        chart_signature([(1, 3), (2, 3), (0, 1)], heap_table(8)) == chart_signature([(0, 2), (0, 1), (2, 3)], heap_table(15)),
{
    lemma_heap_entries();
    lemma_codes_of_word_77(heap_table(8));
    lemma_codes_of_word_26(heap_table(15));
    lemma_charts_agree_through([(0, 2), (0, 1), (2, 3)], heap_table(15), [(1, 3), (2, 3), (0, 1)], heap_table(8), 14, (6, 7, 2, 3, 4, 5, 0, 1));
}

proof fn lemma_chart_1857()
    ensures
        chart_signature([(1, 3), (2, 3), (0, 1)], heap_table(9)) == chart_signature([(0, 2), (0, 1), (2, 3)], heap_table(13)),
{
    lemma_heap_entries();
    lemma_codes_of_word_77(heap_table(9));
    lemma_codes_of_word_26(heap_table(13));
    lemma_charts_agree_through([(0, 2), (0, 1), (2, 3)], heap_table(13), [(1, 3), (2, 3), (0, 1)], heap_table(9), 15, (7, 6, 4, 5, 2, 3, 1, 0));
}

proof fn lemma_chart_1858()
    ensures
        chart_signature([(1, 3), (2, 3), (0, 1)], heap_table(10)) == chart_signature([(0, 2), (0, 1), (2, 3)], heap_table(0)),
{
    lemma_heap_entries();
    lemma_codes_of_word_77(heap_table(10));
    lemma_codes_of_word_26(heap_table(0));
    lemma_charts_agree_through([(0, 2), (0, 1), (2, 3)], heap_table(0), [(1, 3), (2, 3), (0, 1)], heap_table(10), 15, (7, 6, 4, 5, 2, 3, 1, 0));
}

proof fn lemma_chart_1859()
    ensures
        chart_signature([(1, 3), (2, 3), (0, 1)], heap_table(11)) == chart_signature([(0, 2), (0, 1), (2, 3)], heap_table(3)),
{
    lemma_heap_entries();
    lemma_codes_of_word_77(heap_table(11));
    lemma_codes_of_word_26(heap_table(3));
    lemma_charts_agree_through([(0, 2), (0, 1), (2, 3)], heap_table(3), [(1, 3), (2, 3), (0, 1)], heap_table(11), 15, (7, 6, 4, 5, 2, 3, 1, 0));
}

proof fn lemma_chart_1860()
    ensures
        chart_signature([(1, 3), (2, 3), (0, 1)], heap_table(12)) == chart_signature([(0, 2), (0, 1), (2, 3)], heap_table(19)),
{
    lemma_heap_entries();
    lemma_codes_of_word_77(heap_table(12));
    lemma_codes_of_word_26(heap_table(19));
    lemma_charts_agree_through([(0, 2), (0, 1), (2, 3)], heap_table(19), [(1, 3), (2, 3), (0, 1)], heap_table(12), 14, (6, 7, 2, 3, 4, 5, 0, 1));
}

proof fn lemma_chart_1861()
    ensures
        chart_signature([(1, 3), (2, 3), (0, 1)], heap_table(13)) == chart_signature([(0, 2), (0, 1), (2, 3)], heap_table(18)),
{
    lemma_heap_entries();
    lemma_codes_of_word_77(heap_table(13));
    lemma_codes_of_word_26(heap_table(18));
    lemma_charts_agree_through([(0, 2), (0, 1), (2, 3)], heap_table(18), [(1, 3), (2, 3), (0, 1)], heap_table(13), 14, (6, 7, 2, 3, 4, 5, 0, 1));
}

proof fn lemma_chart_1862()
    ensures
        chart_signature([(1, 3), (2, 3), (0, 1)], heap_table(14)) == chart_signature([(0, 2), (0, 1), (2, 3)], heap_table(9)),
{
    lemma_heap_entries();
    lemma_codes_of_word_77(heap_table(14));
    lemma_codes_of_word_26(heap_table(9));
    lemma_charts_agree_through([(0, 2), (0, 1), (2, 3)], heap_table(9), [(1, 3), (2, 3), (0, 1)], heap_table(14), 14, (6, 7, 2, 3, 4, 5, 0, 1));
}

proof fn lemma_chart_1863()
    ensures
        chart_signature([(1, 3), (2, 3), (0, 1)], heap_table(15)) == chart_signature([(0, 2), (0, 1), (2, 3)], heap_table(7)),
{
    lemma_heap_entries();
    lemma_codes_of_word_77(heap_table(15));
    lemma_codes_of_word_26(heap_table(7));
    lemma_charts_agree_through([(0, 2), (0, 1), (2, 3)], heap_table(7), [(1, 3), (2, 3), (0, 1)], heap_table(15), 15, (7, 6, 4, 5, 2, 3, 1, 0));
}

proof fn lemma_chart_1864()
    ensures
        chart_signature([(1, 3), (2, 3), (0, 1)], heap_table(16)) == chart_signature([(0, 2), (0, 1), (2, 3)], heap_table(1)),
{
    lemma_heap_entries();
    lemma_codes_of_word_77(heap_table(16));
    lemma_codes_of_word_26(heap_table(1));
    lemma_charts_agree_through([(0, 2), (0, 1), (2, 3)], heap_table(1), [(1, 3), (2, 3), (0, 1)], heap_table(16), 15, (7, 6, 4, 5, 2, 3, 1, 0));
}

proof fn lemma_chart_1865()
    ensures
        chart_signature([(1, 3), (2, 3), (0, 1)], heap_table(17)) == chart_signature([(0, 2), (0, 1), (2, 3)], heap_table(3)),
{
    lemma_heap_entries();
    lemma_codes_of_word_77(heap_table(17));
    lemma_codes_of_word_26(heap_table(3));
    lemma_charts_agree_through([(0, 2), (0, 1), (2, 3)], heap_table(3), [(1, 3), (2, 3), (0, 1)], heap_table(17), 14, (6, 7, 2, 3, 4, 5, 0, 1));
}

proof fn lemma_chart_1866()
    ensures
        chart_signature([(1, 3), (2, 3), (0, 1)], heap_table(18)) == chart_signature([(0, 2), (0, 1), (2, 3)], heap_table(13)),
{
    lemma_heap_entries();
    lemma_codes_of_word_77(heap_table(18));
    lemma_codes_of_word_26(heap_table(13));
    lemma_charts_agree_through([(0, 2), (0, 1), (2, 3)], heap_table(13), [(1, 3), (2, 3), (0, 1)], heap_table(18), 14, (6, 7, 2, 3, 4, 5, 0, 1));
}

proof fn lemma_chart_1867()
    ensures
        chart_signature([(1, 3), (2, 3), (0, 1)], heap_table(19)) == chart_signature([(0, 2), (0, 1), (2, 3)], heap_table(12)),
{
    lemma_heap_entries();
    lemma_codes_of_word_77(heap_table(19));
    lemma_codes_of_word_26(heap_table(12));
    lemma_charts_agree_through([(0, 2), (0, 1), (2, 3)], heap_table(12), [(1, 3), (2, 3), (0, 1)], heap_table(19), 14, (6, 7, 2, 3, 4, 5, 0, 1));
}

proof fn lemma_chart_1868()
    ensures
        chart_signature([(1, 3), (2, 3), (0, 1)], heap_table(20)) == chart_signature([(0, 2), (0, 1), (2, 3)], heap_table(6)),
{
    lemma_heap_entries();
    lemma_codes_of_word_77(heap_table(20));
    lemma_codes_of_word_26(heap_table(6));
    lemma_charts_agree_through([(0, 2), (0, 1), (2, 3)], heap_table(6), [(1, 3), (2, 3), (0, 1)], heap_table(20), 14, (6, 7, 2, 3, 4, 5, 0, 1));
}

proof fn lemma_chart_1869()
    ensures
        chart_signature([(1, 3), (2, 3), (0, 1)], heap_table(21)) == chart_signature([(0, 2), (0, 1), (2, 3)], heap_table(7)),
{
    lemma_heap_entries();
    lemma_codes_of_word_77(heap_table(21));
    lemma_codes_of_word_26(heap_table(7));
    lemma_charts_agree_through([(0, 2), (0, 1), (2, 3)], heap_table(7), [(1, 3), (2, 3), (0, 1)], heap_table(21), 14, (6, 7, 2, 3, 4, 5, 0, 1));
}

proof fn lemma_chart_1870()
    ensures
        chart_signature([(1, 3), (2, 3), (0, 1)], heap_table(22)) == chart_signature([(0, 2), (0, 1), (2, 3)], heap_table(1)),
{
    lemma_heap_entries();
    lemma_codes_of_word_77(heap_table(22));
    lemma_codes_of_word_26(heap_table(1));
    lemma_charts_agree_through([(0, 2), (0, 1), (2, 3)], heap_table(1), [(1, 3), (2, 3), (0, 1)], heap_table(22), 14, (6, 7, 2, 3, 4, 5, 0, 1));
}

proof fn lemma_chart_1871()
    ensures
        chart_signature([(1, 3), (2, 3), (0, 1)], heap_table(23)) == chart_signature([(0, 2), (0, 1), (2, 3)], heap_table(0)),
{
    lemma_heap_entries();
    lemma_codes_of_word_77(heap_table(23));
    lemma_codes_of_word_26(heap_table(0));
    lemma_charts_agree_through([(0, 2), (0, 1), (2, 3)], heap_table(0), [(1, 3), (2, 3), (0, 1)], heap_table(23), 14, (6, 7, 2, 3, 4, 5, 0, 1));
}

/// Every chart of atlas word 77 shares its signature with the first chart
/// of a class below 216.
pub proof fn lemma_charts_of_word_77()
    ensures
        forall|t: int| 1848 <= t < 1872 ==> #[trigger] meets_class_below(t, 216),
{
    lemma_census_words();
    assert forall|t: int| 1848 <= t < 1872 implies #[trigger] meets_class_below(t, 216) by {
        if t == 1848 { lemma_chart_1848(); assert(atlas_signatures()[class_rep(159)] == atlas_signatures()[1848]); }
        else if t == 1849 { lemma_chart_1849(); assert(atlas_signatures()[class_rep(161)] == atlas_signatures()[1849]); }
        else if t == 1850 { lemma_chart_1850(); assert(atlas_signatures()[class_rep(158)] == atlas_signatures()[1850]); }
        else if t == 1851 { lemma_chart_1851(); assert(atlas_signatures()[class_rep(156)] == atlas_signatures()[1851]); }
        else if t == 1852 { lemma_chart_1852(); assert(atlas_signatures()[class_rep(153)] == atlas_signatures()[1852]); }
        else if t == 1853 { lemma_chart_1853(); assert(atlas_signatures()[class_rep(155)] == atlas_signatures()[1853]); }
        else if t == 1854 { lemma_chart_1854(); assert(atlas_signatures()[class_rep(160)] == atlas_signatures()[1854]); }
        else if t == 1855 { lemma_chart_1855(); assert(atlas_signatures()[class_rep(161)] == atlas_signatures()[1855]); }
        else if t == 1856 { lemma_chart_1856(); assert(atlas_signatures()[class_rep(158)] == atlas_signatures()[1856]); }
        else if t == 1857 { lemma_chart_1857(); assert(atlas_signatures()[class_rep(157)] == atlas_signatures()[1857]); }
        else if t == 1858 { lemma_chart_1858(); assert(atlas_signatures()[class_rep(150)] == atlas_signatures()[1858]); }
        else if t == 1859 { lemma_chart_1859(); assert(atlas_signatures()[class_rep(152)] == atlas_signatures()[1859]); }
        else if t == 1860 { lemma_chart_1860(); assert(atlas_signatures()[class_rep(160)] == atlas_signatures()[1860]); }
        else if t == 1861 { lemma_chart_1861(); assert(atlas_signatures()[class_rep(159)] == atlas_signatures()[1861]); }
        else if t == 1862 { lemma_chart_1862(); assert(atlas_signatures()[class_rep(155)] == atlas_signatures()[1862]); }
        else if t == 1863 { lemma_chart_1863(); assert(atlas_signatures()[class_rep(154)] == atlas_signatures()[1863]); }
        else if t == 1864 { lemma_chart_1864(); assert(atlas_signatures()[class_rep(151)] == atlas_signatures()[1864]); }
        else if t == 1865 { lemma_chart_1865(); assert(atlas_signatures()[class_rep(152)] == atlas_signatures()[1865]); }
        else if t == 1866 { lemma_chart_1866(); assert(atlas_signatures()[class_rep(157)] == atlas_signatures()[1866]); }
        else if t == 1867 { lemma_chart_1867(); assert(atlas_signatures()[class_rep(156)] == atlas_signatures()[1867]); }
        else if t == 1868 { lemma_chart_1868(); assert(atlas_signatures()[class_rep(153)] == atlas_signatures()[1868]); }
        else if t == 1869 { lemma_chart_1869(); assert(atlas_signatures()[class_rep(154)] == atlas_signatures()[1869]); }
        else if t == 1870 { lemma_chart_1870(); assert(atlas_signatures()[class_rep(151)] == atlas_signatures()[1870]); }
        else { lemma_chart_1871(); assert(atlas_signatures()[class_rep(150)] == atlas_signatures()[1871]); }
    }
}

proof fn lemma_chart_1872()
    ensures
        chart_signature([(1, 3), (2, 3), (0, 2)], heap_table(0)) == chart_signature([(0, 1), (0, 3), (0, 2)], heap_table(20)),
{
    lemma_heap_entries();
    lemma_codes_of_word_78(heap_table(0));
    lemma_codes_of_word_16(heap_table(20));
    lemma_charts_agree_through([(0, 1), (0, 3), (0, 2)], heap_table(20), [(1, 3), (2, 3), (0, 2)], heap_table(0), 7, (7, 6, 5, 4, 3, 2, 1, 0));
}

proof fn lemma_chart_1873()
    ensures
        chart_signature([(1, 3), (2, 3), (0, 2)], heap_table(1)) == chart_signature([(0, 1), (0, 3), (0, 2)], heap_table(18)),
{
    lemma_heap_entries();
    lemma_codes_of_word_78(heap_table(1));
    lemma_codes_of_word_16(heap_table(18));
    lemma_charts_agree_through([(0, 1), (0, 3), (0, 2)], heap_table(18), [(1, 3), (2, 3), (0, 2)], heap_table(1), 6, (6, 7, 3, 2, 5, 4, 0, 1));
}

proof fn lemma_chart_1874()
    ensures
        chart_signature([(1, 3), (2, 3), (0, 2)], heap_table(2)) == chart_signature([(0, 1), (0, 3), (0, 2)], heap_table(12)),
{
    lemma_heap_entries();
    lemma_codes_of_word_78(heap_table(2));
    lemma_codes_of_word_16(heap_table(12));
    lemma_charts_agree_through([(0, 1), (0, 3), (0, 2)], heap_table(12), [(1, 3), (2, 3), (0, 2)], heap_table(2), 6, (6, 7, 3, 2, 5, 4, 0, 1));
}

proof fn lemma_chart_1875()
    ensures
        chart_signature([(1, 3), (2, 3), (0, 2)], heap_table(3)) == chart_signature([(0, 1), (0, 3), (0, 2)], heap_table(14)),
{
    lemma_heap_entries();
    lemma_codes_of_word_78(heap_table(3));
    lemma_codes_of_word_16(heap_table(14));
    lemma_charts_agree_through([(0, 1), (0, 3), (0, 2)], heap_table(14), [(1, 3), (2, 3), (0, 2)], heap_table(3), 7, (7, 6, 5, 4, 3, 2, 1, 0));
}

proof fn lemma_chart_1876()
    ensures
        chart_signature([(1, 3), (2, 3), (0, 2)], heap_table(4)) == chart_signature([(0, 1), (0, 3), (0, 2)], heap_table(8)),
{
    lemma_heap_entries();
    lemma_codes_of_word_78(heap_table(4));
    lemma_codes_of_word_16(heap_table(8));
    lemma_charts_agree_through([(0, 1), (0, 3), (0, 2)], heap_table(8), [(1, 3), (2, 3), (0, 2)], heap_table(4), 7, (7, 6, 5, 4, 3, 2, 1, 0));
}

proof fn lemma_chart_1877()
    ensures
        chart_signature([(1, 3), (2, 3), (0, 2)], heap_table(5)) == chart_signature([(0, 1), (0, 3), (0, 2)], heap_table(6)),
{
    lemma_heap_entries();
    lemma_codes_of_word_78(heap_table(5));
    lemma_codes_of_word_16(heap_table(6));
    lemma_charts_agree_through([(0, 1), (0, 3), (0, 2)], heap_table(6), [(1, 3), (2, 3), (0, 2)], heap_table(5), 6, (6, 7, 3, 2, 5, 4, 0, 1));
}

proof fn lemma_chart_1878()
    ensures
        chart_signature([(1, 3), (2, 3), (0, 2)], heap_table(6)) == chart_signature([(0, 1), (0, 3), (0, 2)], heap_table(22)),
{
    lemma_heap_entries();
    lemma_codes_of_word_78(heap_table(6));
    lemma_codes_of_word_16(heap_table(22));
    lemma_charts_agree_through([(0, 1), (0, 3), (0, 2)], heap_table(22), [(1, 3), (2, 3), (0, 2)], heap_table(6), 6, (6, 7, 3, 2, 5, 4, 0, 1));
}

proof fn lemma_chart_1879()
    ensures
        chart_signature([(1, 3), (2, 3), (0, 2)], heap_table(7)) == chart_signature([(0, 1), (0, 3), (0, 2)], heap_table(18)),
{
    lemma_heap_entries();
    lemma_codes_of_word_78(heap_table(7));
    lemma_codes_of_word_16(heap_table(18));
    lemma_charts_agree_through([(0, 1), (0, 3), (0, 2)], heap_table(18), [(1, 3), (2, 3), (0, 2)], heap_table(7), 7, (7, 6, 5, 4, 3, 2, 1, 0));
}

proof fn lemma_chart_1880()
    ensures
        chart_signature([(1, 3), (2, 3), (0, 2)], heap_table(8)) == chart_signature([(0, 1), (0, 3), (0, 2)], heap_table(12)),
{
    lemma_heap_entries();
    lemma_codes_of_word_78(heap_table(8));
    lemma_codes_of_word_16(heap_table(12));
    lemma_charts_agree_through([(0, 1), (0, 3), (0, 2)], heap_table(12), [(1, 3), (2, 3), (0, 2)], heap_table(8), 7, (7, 6, 5, 4, 3, 2, 1, 0));
}

proof fn lemma_chart_1881()
    ensures
        chart_signature([(1, 3), (2, 3), (0, 2)], heap_table(9)) == chart_signature([(0, 1), (0, 3), (0, 2)], heap_table(16)),
{
    lemma_heap_entries();
    lemma_codes_of_word_78(heap_table(9));
    lemma_codes_of_word_16(heap_table(16));
    lemma_charts_agree_through([(0, 1), (0, 3), (0, 2)], heap_table(16), [(1, 3), (2, 3), (0, 2)], heap_table(9), 6, (6, 7, 3, 2, 5, 4, 0, 1));
}

proof fn lemma_chart_1882()
    ensures
        chart_signature([(1, 3), (2, 3), (0, 2)], heap_table(10)) == chart_signature([(0, 1), (0, 3), (0, 2)], heap_table(2)),
{
    lemma_heap_entries();
    lemma_codes_of_word_78(heap_table(10));
    lemma_codes_of_word_16(heap_table(2));
    lemma_charts_agree_through([(0, 1), (0, 3), (0, 2)], heap_table(2), [(1, 3), (2, 3), (0, 2)], heap_table(10), 7, (7, 6, 5, 4, 3, 2, 1, 0));
}

proof fn lemma_chart_1883()
    ensures
        chart_signature([(1, 3), (2, 3), (0, 2)], heap_table(11)) == chart_signature([(0, 1), (0, 3), (0, 2)], heap_table(0)),
{
    lemma_heap_entries();
    lemma_codes_of_word_78(heap_table(11));
    lemma_codes_of_word_16(heap_table(0));
    lemma_charts_agree_through([(0, 1), (0, 3), (0, 2)], heap_table(0), [(1, 3), (2, 3), (0, 2)], heap_table(11), 6, (6, 7, 3, 2, 5, 4, 0, 1));
}

proof fn lemma_chart_1884()
    ensures
        chart_signature([(1, 3), (2, 3), (0, 2)], heap_table(12)) == chart_signature([(0, 1), (0, 3), (0, 2)], heap_table(22)),
{
    lemma_heap_entries();
    lemma_codes_of_word_78(heap_table(12));
    lemma_codes_of_word_16(heap_table(22));
    lemma_charts_agree_through([(0, 1), (0, 3), (0, 2)], heap_table(22), [(1, 3), (2, 3), (0, 2)], heap_table(12), 7, (7, 6, 5, 4, 3, 2, 1, 0));
}

proof fn lemma_chart_1885()
    ensures
        chart_signature([(1, 3), (2, 3), (0, 2)], heap_table(13)) == chart_signature([(0, 1), (0, 3), (0, 2)], heap_table(20)),
{
    lemma_heap_entries();
    lemma_codes_of_word_78(heap_table(13));
    lemma_codes_of_word_16(heap_table(20));
    lemma_charts_agree_through([(0, 1), (0, 3), (0, 2)], heap_table(20), [(1, 3), (2, 3), (0, 2)], heap_table(13), 6, (6, 7, 3, 2, 5, 4, 0, 1));
}

proof fn lemma_chart_1886()
    ensures
        chart_signature([(1, 3), (2, 3), (0, 2)], heap_table(14)) == chart_signature([(0, 1), (0, 3), (0, 2)], heap_table(6)),
{
    lemma_heap_entries();
    lemma_codes_of_word_78(heap_table(14));
    lemma_codes_of_word_16(heap_table(6));
    lemma_charts_agree_through([(0, 1), (0, 3), (0, 2)], heap_table(6), [(1, 3), (2, 3), (0, 2)], heap_table(14), 7, (7, 6, 5, 4, 3, 2, 1, 0));
}

proof fn lemma_chart_1887()
    ensures
        chart_signature([(1, 3), (2, 3), (0, 2)], heap_table(15)) == chart_signature([(0, 1), (0, 3), (0, 2)], heap_table(10)),
{
    lemma_heap_entries();
    lemma_codes_of_word_78(heap_table(15));
    lemma_codes_of_word_16(heap_table(10));
    lemma_charts_agree_through([(0, 1), (0, 3), (0, 2)], heap_table(10), [(1, 3), (2, 3), (0, 2)], heap_table(15), 6, (6, 7, 3, 2, 5, 4, 0, 1));
}

proof fn lemma_chart_1888()
    ensures
        chart_signature([(1, 3), (2, 3), (0, 2)], heap_table(16)) == chart_signature([(0, 1), (0, 3), (0, 2)], heap_table(4)),
{
    lemma_heap_entries();
    lemma_codes_of_word_78(heap_table(16));
    lemma_codes_of_word_16(heap_table(4));
    lemma_charts_agree_through([(0, 1), (0, 3), (0, 2)], heap_table(4), [(1, 3), (2, 3), (0, 2)], heap_table(16), 6, (6, 7, 3, 2, 5, 4, 0, 1));
}

proof fn lemma_chart_1889()
    ensures
        chart_signature([(1, 3), (2, 3), (0, 2)], heap_table(17)) == chart_signature([(0, 1), (0, 3), (0, 2)], heap_table(0)),
{
    lemma_heap_entries();
    lemma_codes_of_word_78(heap_table(17));
    lemma_codes_of_word_16(heap_table(0));
    lemma_charts_agree_through([(0, 1), (0, 3), (0, 2)], heap_table(0), [(1, 3), (2, 3), (0, 2)], heap_table(17), 7, (7, 6, 5, 4, 3, 2, 1, 0));
}

proof fn lemma_chart_1890()
    ensures
        chart_signature([(1, 3), (2, 3), (0, 2)], heap_table(18)) == chart_signature([(0, 1), (0, 3), (0, 2)], heap_table(16)),
{
    lemma_heap_entries();
    lemma_codes_of_word_78(heap_table(18));
    lemma_codes_of_word_16(heap_table(16));
    lemma_charts_agree_through([(0, 1), (0, 3), (0, 2)], heap_table(16), [(1, 3), (2, 3), (0, 2)], heap_table(18), 7, (7, 6, 5, 4, 3, 2, 1, 0));
}

proof fn lemma_chart_1891()
    ensures
        chart_signature([(1, 3), (2, 3), (0, 2)], heap_table(19)) == chart_signature([(0, 1), (0, 3), (0, 2)], heap_table(14)),
{
    lemma_heap_entries();
    lemma_codes_of_word_78(heap_table(19));
    lemma_codes_of_word_16(heap_table(14));
    lemma_charts_agree_through([(0, 1), (0, 3), (0, 2)], heap_table(14), [(1, 3), (2, 3), (0, 2)], heap_table(19), 6, (6, 7, 3, 2, 5, 4, 0, 1));
}

proof fn lemma_chart_1892()
    ensures
        chart_signature([(1, 3), (2, 3), (0, 2)], heap_table(20)) == chart_signature([(0, 1), (0, 3), (0, 2)], heap_table(8)),
{
    lemma_heap_entries();
    lemma_codes_of_word_78(heap_table(20));
    lemma_codes_of_word_16(heap_table(8));
    lemma_charts_agree_through([(0, 1), (0, 3), (0, 2)], heap_table(8), [(1, 3), (2, 3), (0, 2)], heap_table(20), 6, (6, 7, 3, 2, 5, 4, 0, 1));
}

proof fn lemma_chart_1893()
    ensures
        chart_signature([(1, 3), (2, 3), (0, 2)], heap_table(21)) == chart_signature([(0, 1), (0, 3), (0, 2)], heap_table(10)),
{
    lemma_heap_entries();
    lemma_codes_of_word_78(heap_table(21));
    lemma_codes_of_word_16(heap_table(10));
    lemma_charts_agree_through([(0, 1), (0, 3), (0, 2)], heap_table(10), [(1, 3), (2, 3), (0, 2)], heap_table(21), 7, (7, 6, 5, 4, 3, 2, 1, 0));
}

proof fn lemma_chart_1894()
    ensures
        chart_signature([(1, 3), (2, 3), (0, 2)], heap_table(22)) == chart_signature([(0, 1), (0, 3), (0, 2)], heap_table(4)),
{
    lemma_heap_entries();
    lemma_codes_of_word_78(heap_table(22));
    lemma_codes_of_word_16(heap_table(4));
    lemma_charts_agree_through([(0, 1), (0, 3), (0, 2)], heap_table(4), [(1, 3), (2, 3), (0, 2)], heap_table(22), 7, (7, 6, 5, 4, 3, 2, 1, 0));
}

proof fn lemma_chart_1895()
    ensures
        chart_signature([(1, 3), (2, 3), (0, 2)], heap_table(23)) == chart_signature([(0, 1), (0, 3), (0, 2)], heap_table(2)),
{
    lemma_heap_entries();
    lemma_codes_of_word_78(heap_table(23));
    lemma_codes_of_word_16(heap_table(2));
    lemma_charts_agree_through([(0, 1), (0, 3), (0, 2)], heap_table(2), [(1, 3), (2, 3), (0, 2)], heap_table(23), 6, (6, 7, 3, 2, 5, 4, 0, 1));
}

/// Every chart of atlas word 78 shares its signature with the first chart
/// of a class below 216.
pub proof fn lemma_charts_of_word_78()
    ensures
        forall|t: int| 1872 <= t < 1896 ==> #[trigger] meets_class_below(t, 216),
{
    lemma_census_words();
    assert forall|t: int| 1872 <= t < 1896 implies #[trigger] meets_class_below(t, 216) by {
        if t == 1872 { lemma_chart_1872(); assert(atlas_signatures()[class_rep(112)] == atlas_signatures()[1872]); }
        else if t == 1873 { lemma_chart_1873(); assert(atlas_signatures()[class_rep(111)] == atlas_signatures()[1873]); }
        else if t == 1874 { lemma_chart_1874(); assert(atlas_signatures()[class_rep(108)] == atlas_signatures()[1874]); }
        else if t == 1875 { lemma_chart_1875(); assert(atlas_signatures()[class_rep(109)] == atlas_signatures()[1875]); }
        else if t == 1876 { lemma_chart_1876(); assert(atlas_signatures()[class_rep(106)] == atlas_signatures()[1876]); }
        else if t == 1877 { lemma_chart_1877(); assert(atlas_signatures()[class_rep(105)] == atlas_signatures()[1877]); }
        else if t == 1878 { lemma_chart_1878(); assert(atlas_signatures()[class_rep(113)] == atlas_signatures()[1878]); }
        else if t == 1879 { lemma_chart_1879(); assert(atlas_signatures()[class_rep(111)] == atlas_signatures()[1879]); }
        else if t == 1880 { lemma_chart_1880(); assert(atlas_signatures()[class_rep(108)] == atlas_signatures()[1880]); }
        else if t == 1881 { lemma_chart_1881(); assert(atlas_signatures()[class_rep(110)] == atlas_signatures()[1881]); }
        else if t == 1882 { lemma_chart_1882(); assert(atlas_signatures()[class_rep(103)] == atlas_signatures()[1882]); }
        else if t == 1883 { lemma_chart_1883(); assert(atlas_signatures()[class_rep(102)] == atlas_signatures()[1883]); }
        else if t == 1884 { lemma_chart_1884(); assert(atlas_signatures()[class_rep(113)] == atlas_signatures()[1884]); }
        else if t == 1885 { lemma_chart_1885(); assert(atlas_signatures()[class_rep(112)] == atlas_signatures()[1885]); }
        else if t == 1886 { lemma_chart_1886(); assert(atlas_signatures()[class_rep(105)] == atlas_signatures()[1886]); }
        else if t == 1887 { lemma_chart_1887(); assert(atlas_signatures()[class_rep(107)] == atlas_signatures()[1887]); }
        else if t == 1888 { lemma_chart_1888(); assert(atlas_signatures()[class_rep(104)] == atlas_signatures()[1888]); }
        else if t == 1889 { lemma_chart_1889(); assert(atlas_signatures()[class_rep(102)] == atlas_signatures()[1889]); }
        else if t == 1890 { lemma_chart_1890(); assert(atlas_signatures()[class_rep(110)] == atlas_signatures()[1890]); }
        else if t == 1891 { lemma_chart_1891(); assert(atlas_signatures()[class_rep(109)] == atlas_signatures()[1891]); }
        else if t == 1892 { lemma_chart_1892(); assert(atlas_signatures()[class_rep(106)] == atlas_signatures()[1892]); }
        else if t == 1893 { lemma_chart_1893(); assert(atlas_signatures()[class_rep(107)] == atlas_signatures()[1893]); }
        else if t == 1894 { lemma_chart_1894(); assert(atlas_signatures()[class_rep(104)] == atlas_signatures()[1894]); }
        else { lemma_chart_1895(); assert(atlas_signatures()[class_rep(103)] == atlas_signatures()[1895]); }
    }
}

proof fn lemma_chart_1896()
    ensures
        chart_signature([(1, 3), (2, 3), (0, 3)], heap_table(0)) == chart_signature([(0, 1), (0, 2), (0, 3)], heap_table(6)),
{
    lemma_heap_entries();
    lemma_codes_of_word_79(heap_table(0));
    lemma_codes_of_word_1(heap_table(6));
    lemma_charts_agree_through([(0, 1), (0, 2), (0, 3)], heap_table(6), [(1, 3), (2, 3), (0, 3)], heap_table(0), 4, (3, 5, 6, 0, 7, 1, 2, 4));
}

proof fn lemma_chart_1897()
    ensures
        chart_signature([(1, 3), (2, 3), (0, 3)], heap_table(1)) == chart_signature([(0, 1), (0, 2), (0, 3)], heap_table(12)),
{
    lemma_heap_entries();
    lemma_codes_of_word_79(heap_table(1));
    lemma_codes_of_word_1(heap_table(12));
    lemma_charts_agree_through([(0, 1), (0, 2), (0, 3)], heap_table(12), [(1, 3), (2, 3), (0, 3)], heap_table(1), 4, (3, 5, 6, 0, 7, 1, 2, 4));
}

proof fn lemma_chart_1898()
    ensures
        chart_signature([(1, 3), (2, 3), (0, 3)], heap_table(2)) == chart_signature([(0, 1), (0, 2), (0, 3)], heap_table(18)),
{
    lemma_heap_entries();
    lemma_codes_of_word_79(heap_table(2));
    lemma_codes_of_word_1(heap_table(18));
    lemma_charts_agree_through([(0, 1), (0, 2), (0, 3)], heap_table(18), [(1, 3), (2, 3), (0, 3)], heap_table(2), 4, (3, 5, 6, 0, 7, 1, 2, 4));
}

proof fn lemma_chart_1899()
    ensures
        chart_signature([(1, 3), (2, 3), (0, 3)], heap_table(3)) == chart_signature([(0, 1), (0, 2), (0, 3)], heap_table(8)),
{
    lemma_heap_entries();
    lemma_codes_of_word_79(heap_table(3));
    lemma_codes_of_word_1(heap_table(8));
    lemma_charts_agree_through([(0, 1), (0, 2), (0, 3)], heap_table(8), [(1, 3), (2, 3), (0, 3)], heap_table(3), 5, (5, 3, 7, 1, 6, 0, 4, 2));
}

proof fn lemma_chart_1900()
    ensures
        chart_signature([(1, 3), (2, 3), (0, 3)], heap_table(4)) == chart_signature([(0, 1), (0, 2), (0, 3)], heap_table(14)),
{
    lemma_heap_entries();
    lemma_codes_of_word_79(heap_table(4));
    lemma_codes_of_word_1(heap_table(14));
    lemma_charts_agree_through([(0, 1), (0, 2), (0, 3)], heap_table(14), [(1, 3), (2, 3), (0, 3)], heap_table(4), 5, (5, 3, 7, 1, 6, 0, 4, 2));
}

proof fn lemma_chart_1901()
    ensures
        chart_signature([(1, 3), (2, 3), (0, 3)], heap_table(5)) == chart_signature([(0, 1), (0, 2), (0, 3)], heap_table(20)),
{
    lemma_heap_entries();
    lemma_codes_of_word_79(heap_table(5));
    lemma_codes_of_word_1(heap_table(20));
    lemma_charts_agree_through([(0, 1), (0, 2), (0, 3)], heap_table(20), [(1, 3), (2, 3), (0, 3)], heap_table(5), 5, (5, 3, 7, 1, 6, 0, 4, 2));
}

proof fn lemma_chart_1902()
    ensures
        chart_signature([(1, 3), (2, 3), (0, 3)], heap_table(6)) == chart_signature([(0, 1), (0, 2), (0, 3)], heap_table(0)),
{
    lemma_heap_entries();
    lemma_codes_of_word_79(heap_table(6));
    lemma_codes_of_word_1(heap_table(0));
    lemma_charts_agree_through([(0, 1), (0, 2), (0, 3)], heap_table(0), [(1, 3), (2, 3), (0, 3)], heap_table(6), 4, (3, 5, 6, 0, 7, 1, 2, 4));
}

proof fn lemma_chart_1903()
    ensures
        chart_signature([(1, 3), (2, 3), (0, 3)], heap_table(7)) == chart_signature([(0, 1), (0, 2), (0, 3)], heap_table(12)),
{
    lemma_heap_entries();
    lemma_codes_of_word_79(heap_table(7));
    lemma_codes_of_word_1(heap_table(12));
    lemma_charts_agree_through([(0, 1), (0, 2), (0, 3)], heap_table(12), [(1, 3), (2, 3), (0, 3)], heap_table(7), 5, (5, 3, 7, 1, 6, 0, 4, 2));
}

proof fn lemma_chart_1904()
    ensures
        chart_signature([(1, 3), (2, 3), (0, 3)], heap_table(8)) == chart_signature([(0, 1), (0, 2), (0, 3)], heap_table(18)),
{
    lemma_heap_entries();
    lemma_codes_of_word_79(heap_table(8));
    lemma_codes_of_word_1(heap_table(18));
    lemma_charts_agree_through([(0, 1), (0, 2), (0, 3)], heap_table(18), [(1, 3), (2, 3), (0, 3)], heap_table(8), 5, (5, 3, 7, 1, 6, 0, 4, 2));
}

proof fn lemma_chart_1905()
    ensures
        chart_signature([(1, 3), (2, 3), (0, 3)], heap_table(9)) == chart_signature([(0, 1), (0, 2), (0, 3)], heap_table(2)),
{
    lemma_heap_entries();
    lemma_codes_of_word_79(heap_table(9));
    lemma_codes_of_word_1(heap_table(2));
    lemma_charts_agree_through([(0, 1), (0, 2), (0, 3)], heap_table(2), [(1, 3), (2, 3), (0, 3)], heap_table(9), 5, (5, 3, 7, 1, 6, 0, 4, 2));
}

proof fn lemma_chart_1906()
    ensures
        chart_signature([(1, 3), (2, 3), (0, 3)], heap_table(10)) == chart_signature([(0, 1), (0, 2), (0, 3)], heap_table(16)),
{
    lemma_heap_entries();
    lemma_codes_of_word_79(heap_table(10));
    lemma_codes_of_word_1(heap_table(16));
    lemma_charts_agree_through([(0, 1), (0, 2), (0, 3)], heap_table(16), [(1, 3), (2, 3), (0, 3)], heap_table(10), 4, (3, 5, 6, 0, 7, 1, 2, 4));
}

proof fn lemma_chart_1907()
    ensures
        chart_signature([(1, 3), (2, 3), (0, 3)], heap_table(11)) == chart_signature([(0, 1), (0, 2), (0, 3)], heap_table(22)),
{
    lemma_heap_entries();
    lemma_codes_of_word_79(heap_table(11));
    lemma_codes_of_word_1(heap_table(22));
    lemma_charts_agree_through([(0, 1), (0, 2), (0, 3)], heap_table(22), [(1, 3), (2, 3), (0, 3)], heap_table(11), 4, (3, 5, 6, 0, 7, 1, 2, 4));
}

proof fn lemma_chart_1908()
    ensures
        chart_signature([(1, 3), (2, 3), (0, 3)], heap_table(12)) == chart_signature([(0, 1), (0, 2), (0, 3)], heap_table(0)),
{
    lemma_heap_entries();
    lemma_codes_of_word_79(heap_table(12));
    lemma_codes_of_word_1(heap_table(0));
    lemma_charts_agree_through([(0, 1), (0, 2), (0, 3)], heap_table(0), [(1, 3), (2, 3), (0, 3)], heap_table(12), 5, (5, 3, 7, 1, 6, 0, 4, 2));
}

proof fn lemma_chart_1909()
    ensures
        chart_signature([(1, 3), (2, 3), (0, 3)], heap_table(13)) == chart_signature([(0, 1), (0, 2), (0, 3)], heap_table(6)),
{
    lemma_heap_entries();
    lemma_codes_of_word_79(heap_table(13));
    lemma_codes_of_word_1(heap_table(6));
    lemma_charts_agree_through([(0, 1), (0, 2), (0, 3)], heap_table(6), [(1, 3), (2, 3), (0, 3)], heap_table(13), 5, (5, 3, 7, 1, 6, 0, 4, 2));
}

proof fn lemma_chart_1910()
    ensures
        chart_signature([(1, 3), (2, 3), (0, 3)], heap_table(14)) == chart_signature([(0, 1), (0, 2), (0, 3)], heap_table(20)),
{
    lemma_heap_entries();
    lemma_codes_of_word_79(heap_table(14));
    lemma_codes_of_word_1(heap_table(20));
    lemma_charts_agree_through([(0, 1), (0, 2), (0, 3)], heap_table(20), [(1, 3), (2, 3), (0, 3)], heap_table(14), 4, (3, 5, 6, 0, 7, 1, 2, 4));
}

proof fn lemma_chart_1911()
    ensures
        chart_signature([(1, 3), (2, 3), (0, 3)], heap_table(15)) == chart_signature([(0, 1), (0, 2), (0, 3)], heap_table(4)),
{
    lemma_heap_entries();
    lemma_codes_of_word_79(heap_table(15));
    lemma_codes_of_word_1(heap_table(4));
    lemma_charts_agree_through([(0, 1), (0, 2), (0, 3)], heap_table(4), [(1, 3), (2, 3), (0, 3)], heap_table(15), 4, (3, 5, 6, 0, 7, 1, 2, 4));
}

proof fn lemma_chart_1912()
    ensures
        chart_signature([(1, 3), (2, 3), (0, 3)], heap_table(16)) == chart_signature([(0, 1), (0, 2), (0, 3)], heap_table(10)),
{
    lemma_heap_entries();
    lemma_codes_of_word_79(heap_table(16));
    lemma_codes_of_word_1(heap_table(10));
    lemma_charts_agree_through([(0, 1), (0, 2), (0, 3)], heap_table(10), [(1, 3), (2, 3), (0, 3)], heap_table(16), 4, (3, 5, 6, 0, 7, 1, 2, 4));
}

proof fn lemma_chart_1913()
    ensures
        chart_signature([(1, 3), (2, 3), (0, 3)], heap_table(17)) == chart_signature([(0, 1), (0, 2), (0, 3)], heap_table(22)),
{
    lemma_heap_entries();
    lemma_codes_of_word_79(heap_table(17));
    lemma_codes_of_word_1(heap_table(22));
    lemma_charts_agree_through([(0, 1), (0, 2), (0, 3)], heap_table(22), [(1, 3), (2, 3), (0, 3)], heap_table(17), 5, (5, 3, 7, 1, 6, 0, 4, 2));
}

proof fn lemma_chart_1914()
    ensures
        chart_signature([(1, 3), (2, 3), (0, 3)], heap_table(18)) == chart_signature([(0, 1), (0, 2), (0, 3)], heap_table(2)),
{
    lemma_heap_entries();
    lemma_codes_of_word_79(heap_table(18));
    lemma_codes_of_word_1(heap_table(2));
    lemma_charts_agree_through([(0, 1), (0, 2), (0, 3)], heap_table(2), [(1, 3), (2, 3), (0, 3)], heap_table(18), 4, (3, 5, 6, 0, 7, 1, 2, 4));
}

proof fn lemma_chart_1915()
    ensures
        chart_signature([(1, 3), (2, 3), (0, 3)], heap_table(19)) == chart_signature([(0, 1), (0, 2), (0, 3)], heap_table(8)),
{
    lemma_heap_entries();
    lemma_codes_of_word_79(heap_table(19));
    lemma_codes_of_word_1(heap_table(8));
    lemma_charts_agree_through([(0, 1), (0, 2), (0, 3)], heap_table(8), [(1, 3), (2, 3), (0, 3)], heap_table(19), 4, (3, 5, 6, 0, 7, 1, 2, 4));
}

proof fn lemma_chart_1916()
    ensures
        chart_signature([(1, 3), (2, 3), (0, 3)], heap_table(20)) == chart_signature([(0, 1), (0, 2), (0, 3)], heap_table(14)),
{
    lemma_heap_entries();
    lemma_codes_of_word_79(heap_table(20));
    lemma_codes_of_word_1(heap_table(14));
    lemma_charts_agree_through([(0, 1), (0, 2), (0, 3)], heap_table(14), [(1, 3), (2, 3), (0, 3)], heap_table(20), 4, (3, 5, 6, 0, 7, 1, 2, 4));
}

proof fn lemma_chart_1917()
    ensures
        chart_signature([(1, 3), (2, 3), (0, 3)], heap_table(21)) == chart_signature([(0, 1), (0, 2), (0, 3)], heap_table(4)),
{
    lemma_heap_entries();
    lemma_codes_of_word_79(heap_table(21));
    lemma_codes_of_word_1(heap_table(4));
    lemma_charts_agree_through([(0, 1), (0, 2), (0, 3)], heap_table(4), [(1, 3), (2, 3), (0, 3)], heap_table(21), 5, (5, 3, 7, 1, 6, 0, 4, 2));
}

proof fn lemma_chart_1918()
    ensures
        chart_signature([(1, 3), (2, 3), (0, 3)], heap_table(22)) == chart_signature([(0, 1), (0, 2), (0, 3)], heap_table(10)),
{
    lemma_heap_entries();
    lemma_codes_of_word_79(heap_table(22));
    lemma_codes_of_word_1(heap_table(10));
    lemma_charts_agree_through([(0, 1), (0, 2), (0, 3)], heap_table(10), [(1, 3), (2, 3), (0, 3)], heap_table(22), 5, (5, 3, 7, 1, 6, 0, 4, 2));
}

proof fn lemma_chart_1919()
    ensures
        chart_signature([(1, 3), (2, 3), (0, 3)], heap_table(23)) == chart_signature([(0, 1), (0, 2), (0, 3)], heap_table(16)),
{
    lemma_heap_entries();
    lemma_codes_of_word_79(heap_table(23));
    lemma_codes_of_word_1(heap_table(16));
    lemma_charts_agree_through([(0, 1), (0, 2), (0, 3)], heap_table(16), [(1, 3), (2, 3), (0, 3)], heap_table(23), 5, (5, 3, 7, 1, 6, 0, 4, 2));
}

/// Every chart of atlas word 79 shares its signature with the first chart
/// of a class below 216.
pub proof fn lemma_charts_of_word_79()
    ensures
        forall|t: int| 1896 <= t < 1920 ==> #[trigger] meets_class_below(t, 216),
{
    lemma_census_words();
    assert forall|t: int| 1896 <= t < 1920 implies #[trigger] meets_class_below(t, 216) by {
        if t == 1896 { lemma_chart_1896(); assert(atlas_signatures()[class_rep(15)] == atlas_signatures()[1896]); }
        else if t == 1897 { lemma_chart_1897(); assert(atlas_signatures()[class_rep(18)] == atlas_signatures()[1897]); }
        else if t == 1898 { lemma_chart_1898(); assert(atlas_signatures()[class_rep(21)] == atlas_signatures()[1898]); }
        else if t == 1899 { lemma_chart_1899(); assert(atlas_signatures()[class_rep(16)] == atlas_signatures()[1899]); }
        else if t == 1900 { lemma_chart_1900(); assert(atlas_signatures()[class_rep(19)] == atlas_signatures()[1900]); }
        else if t == 1901 { lemma_chart_1901(); assert(atlas_signatures()[class_rep(22)] == atlas_signatures()[1901]); }
        else if t == 1902 { lemma_chart_1902(); assert(atlas_signatures()[class_rep(12)] == atlas_signatures()[1902]); }
        else if t == 1903 { lemma_chart_1903(); assert(atlas_signatures()[class_rep(18)] == atlas_signatures()[1903]); }
        else if t == 1904 { lemma_chart_1904(); assert(atlas_signatures()[class_rep(21)] == atlas_signatures()[1904]); }
        else if t == 1905 { lemma_chart_1905(); assert(atlas_signatures()[class_rep(13)] == atlas_signatures()[1905]); }
        else if t == 1906 { lemma_chart_1906(); assert(atlas_signatures()[class_rep(20)] == atlas_signatures()[1906]); }
        else if t == 1907 { lemma_chart_1907(); assert(atlas_signatures()[class_rep(23)] == atlas_signatures()[1907]); }
        else if t == 1908 { lemma_chart_1908(); assert(atlas_signatures()[class_rep(12)] == atlas_signatures()[1908]); }
        else if t == 1909 { lemma_chart_1909(); assert(atlas_signatures()[class_rep(15)] == atlas_signatures()[1909]); }
        else if t == 1910 { lemma_chart_1910(); assert(atlas_signatures()[class_rep(22)] == atlas_signatures()[1910]); }
        else if t == 1911 { lemma_chart_1911(); assert(atlas_signatures()[class_rep(14)] == atlas_signatures()[1911]); }
        else if t == 1912 { lemma_chart_1912(); assert(atlas_signatures()[class_rep(17)] == atlas_signatures()[1912]); }
        else if t == 1913 { lemma_chart_1913(); assert(atlas_signatures()[class_rep(23)] == atlas_signatures()[1913]); }
        else if t == 1914 { lemma_chart_1914(); assert(atlas_signatures()[class_rep(13)] == atlas_signatures()[1914]); }
        else if t == 1915 { lemma_chart_1915(); assert(atlas_signatures()[class_rep(16)] == atlas_signatures()[1915]); }
        else if t == 1916 { lemma_chart_1916(); assert(atlas_signatures()[class_rep(19)] == atlas_signatures()[1916]); }
        else if t == 1917 { lemma_chart_1917(); assert(atlas_signatures()[class_rep(14)] == atlas_signatures()[1917]); }
        else if t == 1918 { lemma_chart_1918(); assert(atlas_signatures()[class_rep(17)] == atlas_signatures()[1918]); }
        else { lemma_chart_1919(); assert(atlas_signatures()[class_rep(20)] == atlas_signatures()[1919]); }
    }
}

} // verus!
