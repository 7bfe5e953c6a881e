//! Charts of atlas words 80 to 95 matched to the first charts of their classes.
use vstd::prelude::*;
use crate::atlas::{atlas_signatures, chart_signature, lemma_charts_agree_through};
use crate::permutations::heap_table;
use super::{class_rep, lemma_census_words, lemma_heap_entries, meets_class_below, lemma_codes_of_word_3, lemma_codes_of_word_4, lemma_codes_of_word_5, lemma_codes_of_word_6, lemma_codes_of_word_7, lemma_codes_of_word_20, lemma_codes_of_word_21, lemma_codes_of_word_24, lemma_codes_of_word_27, lemma_codes_of_word_35, lemma_codes_of_word_36, lemma_codes_of_word_38, lemma_codes_of_word_80, lemma_codes_of_word_81, lemma_codes_of_word_82, lemma_codes_of_word_83, lemma_codes_of_word_84, lemma_codes_of_word_85, lemma_codes_of_word_86, lemma_codes_of_word_87, lemma_codes_of_word_88, lemma_codes_of_word_89, lemma_codes_of_word_90, lemma_codes_of_word_91, lemma_codes_of_word_92, lemma_codes_of_word_93, lemma_codes_of_word_94, lemma_codes_of_word_95};

verus! {

proof fn lemma_chart_1920()
    ensures
        chart_signature([(2, 3), (0, 1), (0, 2)], heap_table(0)) == chart_signature([(0, 1), (2, 3), (0, 2)], heap_table(0)),
{
    lemma_heap_entries();
    lemma_codes_of_word_80(heap_table(0));
    lemma_codes_of_word_20(heap_table(0));
    lemma_charts_agree_through([(0, 1), (2, 3), (0, 2)], heap_table(0), [(2, 3), (0, 1), (0, 2)], heap_table(0), 16, (0, 2, 1, 3, 4, 6, 5, 7));
}

proof fn lemma_chart_1921()
    ensures
        chart_signature([(2, 3), (0, 1), (0, 2)], heap_table(1)) == chart_signature([(0, 1), (2, 3), (0, 2)], heap_table(0)),
{
    lemma_heap_entries();
    lemma_codes_of_word_80(heap_table(1));
    lemma_codes_of_word_20(heap_table(0));
    lemma_charts_agree_through([(0, 1), (2, 3), (0, 2)], heap_table(0), [(2, 3), (0, 1), (0, 2)], heap_table(1), 17, (1, 4, 0, 5, 2, 7, 3, 6));
}

proof fn lemma_chart_1922()
    ensures
        chart_signature([(2, 3), (0, 1), (0, 2)], heap_table(2)) == chart_signature([(0, 1), (2, 3), (0, 2)], heap_table(2)),
{
    lemma_heap_entries();
    lemma_codes_of_word_80(heap_table(2));
    lemma_codes_of_word_20(heap_table(2));
    lemma_charts_agree_through([(0, 1), (2, 3), (0, 2)], heap_table(2), [(2, 3), (0, 1), (0, 2)], heap_table(2), 16, (0, 2, 1, 3, 4, 6, 5, 7));
}

proof fn lemma_chart_1923()
    ensures
        chart_signature([(2, 3), (0, 1), (0, 2)], heap_table(3)) == chart_signature([(0, 1), (2, 3), (0, 2)], heap_table(2)),
{
    lemma_heap_entries();
    lemma_codes_of_word_80(heap_table(3));
    lemma_codes_of_word_20(heap_table(2));
    lemma_charts_agree_through([(0, 1), (2, 3), (0, 2)], heap_table(2), [(2, 3), (0, 1), (0, 2)], heap_table(3), 17, (1, 4, 0, 5, 2, 7, 3, 6));
}

proof fn lemma_chart_1924()
    ensures
        chart_signature([(2, 3), (0, 1), (0, 2)], heap_table(4)) == chart_signature([(0, 1), (2, 3), (0, 2)], heap_table(4)),
{
    lemma_heap_entries();
    lemma_codes_of_word_80(heap_table(4));
    lemma_codes_of_word_20(heap_table(4));
    lemma_charts_agree_through([(0, 1), (2, 3), (0, 2)], heap_table(4), [(2, 3), (0, 1), (0, 2)], heap_table(4), 16, (0, 2, 1, 3, 4, 6, 5, 7));
}

proof fn lemma_chart_1925()
    ensures
        chart_signature([(2, 3), (0, 1), (0, 2)], heap_table(5)) == chart_signature([(0, 1), (2, 3), (0, 2)], heap_table(4)),
{
    lemma_heap_entries();
    lemma_codes_of_word_80(heap_table(5));
    lemma_codes_of_word_20(heap_table(4));
    lemma_charts_agree_through([(0, 1), (2, 3), (0, 2)], heap_table(4), [(2, 3), (0, 1), (0, 2)], heap_table(5), 17, (1, 4, 0, 5, 2, 7, 3, 6));
}

proof fn lemma_chart_1926()
    ensures
        chart_signature([(2, 3), (0, 1), (0, 2)], heap_table(6)) == chart_signature([(0, 1), (2, 3), (0, 2)], heap_table(6)),
{
    lemma_heap_entries();
    lemma_codes_of_word_80(heap_table(6));
    lemma_codes_of_word_20(heap_table(6));
    lemma_charts_agree_through([(0, 1), (2, 3), (0, 2)], heap_table(6), [(2, 3), (0, 1), (0, 2)], heap_table(6), 16, (0, 2, 1, 3, 4, 6, 5, 7));
}

proof fn lemma_chart_1927()
    ensures
        chart_signature([(2, 3), (0, 1), (0, 2)], heap_table(7)) == chart_signature([(0, 1), (2, 3), (0, 2)], heap_table(6)),
{
    lemma_heap_entries();
    lemma_codes_of_word_80(heap_table(7));
    lemma_codes_of_word_20(heap_table(6));
    lemma_charts_agree_through([(0, 1), (2, 3), (0, 2)], heap_table(6), [(2, 3), (0, 1), (0, 2)], heap_table(7), 17, (1, 4, 0, 5, 2, 7, 3, 6));
}

proof fn lemma_chart_1928()
    ensures
        chart_signature([(2, 3), (0, 1), (0, 2)], heap_table(8)) == chart_signature([(0, 1), (2, 3), (0, 2)], heap_table(8)),
{
    lemma_heap_entries();
    lemma_codes_of_word_80(heap_table(8));
    lemma_codes_of_word_20(heap_table(8));
    lemma_charts_agree_through([(0, 1), (2, 3), (0, 2)], heap_table(8), [(2, 3), (0, 1), (0, 2)], heap_table(8), 16, (0, 2, 1, 3, 4, 6, 5, 7));
}

proof fn lemma_chart_1929()
    ensures
        chart_signature([(2, 3), (0, 1), (0, 2)], heap_table(9)) == chart_signature([(0, 1), (2, 3), (0, 2)], heap_table(8)),
{
    lemma_heap_entries();
    lemma_codes_of_word_80(heap_table(9));
    lemma_codes_of_word_20(heap_table(8));
    lemma_charts_agree_through([(0, 1), (2, 3), (0, 2)], heap_table(8), [(2, 3), (0, 1), (0, 2)], heap_table(9), 17, (1, 4, 0, 5, 2, 7, 3, 6));
}

proof fn lemma_chart_1930()
    ensures
        chart_signature([(2, 3), (0, 1), (0, 2)], heap_table(10)) == chart_signature([(0, 1), (2, 3), (0, 2)], heap_table(4)),
{
    lemma_heap_entries();
    lemma_codes_of_word_80(heap_table(10));
    lemma_codes_of_word_20(heap_table(4));
    lemma_charts_agree_through([(0, 1), (2, 3), (0, 2)], heap_table(4), [(2, 3), (0, 1), (0, 2)], heap_table(10), 18, (2, 0, 4, 6, 1, 3, 7, 5));
}

proof fn lemma_chart_1931()
    ensures
        chart_signature([(2, 3), (0, 1), (0, 2)], heap_table(11)) == chart_signature([(0, 1), (2, 3), (0, 2)], heap_table(4)),
{
    lemma_heap_entries();
    lemma_codes_of_word_80(heap_table(11));
    lemma_codes_of_word_20(heap_table(4));
    lemma_charts_agree_through([(0, 1), (2, 3), (0, 2)], heap_table(4), [(2, 3), (0, 1), (0, 2)], heap_table(11), 19, (4, 1, 2, 7, 0, 5, 6, 3));
}

proof fn lemma_chart_1932()
    ensures
        chart_signature([(2, 3), (0, 1), (0, 2)], heap_table(12)) == chart_signature([(0, 1), (2, 3), (0, 2)], heap_table(12)),
{
    lemma_heap_entries();
    lemma_codes_of_word_80(heap_table(12));
    lemma_codes_of_word_20(heap_table(12));
    lemma_charts_agree_through([(0, 1), (2, 3), (0, 2)], heap_table(12), [(2, 3), (0, 1), (0, 2)], heap_table(12), 16, (0, 2, 1, 3, 4, 6, 5, 7));
}

proof fn lemma_chart_1933()
    ensures
        chart_signature([(2, 3), (0, 1), (0, 2)], heap_table(13)) == chart_signature([(0, 1), (2, 3), (0, 2)], heap_table(12)),
{
    lemma_heap_entries();
    lemma_codes_of_word_80(heap_table(13));
    lemma_codes_of_word_20(heap_table(12));
    lemma_charts_agree_through([(0, 1), (2, 3), (0, 2)], heap_table(12), [(2, 3), (0, 1), (0, 2)], heap_table(13), 17, (1, 4, 0, 5, 2, 7, 3, 6));
}

proof fn lemma_chart_1934()
    ensures
        chart_signature([(2, 3), (0, 1), (0, 2)], heap_table(14)) == chart_signature([(0, 1), (2, 3), (0, 2)], heap_table(8)),
{
    lemma_heap_entries();
    lemma_codes_of_word_80(heap_table(14));
    lemma_codes_of_word_20(heap_table(8));
    lemma_charts_agree_through([(0, 1), (2, 3), (0, 2)], heap_table(8), [(2, 3), (0, 1), (0, 2)], heap_table(14), 18, (2, 0, 4, 6, 1, 3, 7, 5));
}

proof fn lemma_chart_1935()
    ensures
        chart_signature([(2, 3), (0, 1), (0, 2)], heap_table(15)) == chart_signature([(0, 1), (2, 3), (0, 2)], heap_table(8)),
{
    lemma_heap_entries();
    lemma_codes_of_word_80(heap_table(15));
    lemma_codes_of_word_20(heap_table(8));
    lemma_charts_agree_through([(0, 1), (2, 3), (0, 2)], heap_table(8), [(2, 3), (0, 1), (0, 2)], heap_table(15), 19, (4, 1, 2, 7, 0, 5, 6, 3));
}

proof fn lemma_chart_1936()
    ensures
        chart_signature([(2, 3), (0, 1), (0, 2)], heap_table(16)) == chart_signature([(0, 1), (2, 3), (0, 2)], heap_table(2)),
{
    lemma_heap_entries();
    lemma_codes_of_word_80(heap_table(16));
    lemma_codes_of_word_20(heap_table(2));
    lemma_charts_agree_through([(0, 1), (2, 3), (0, 2)], heap_table(2), [(2, 3), (0, 1), (0, 2)], heap_table(16), 19, (4, 1, 2, 7, 0, 5, 6, 3));
}

proof fn lemma_chart_1937()
    ensures
        chart_signature([(2, 3), (0, 1), (0, 2)], heap_table(17)) == chart_signature([(0, 1), (2, 3), (0, 2)], heap_table(2)),
{
    lemma_heap_entries();
    lemma_codes_of_word_80(heap_table(17));
    lemma_codes_of_word_20(heap_table(2));
    lemma_charts_agree_through([(0, 1), (2, 3), (0, 2)], heap_table(2), [(2, 3), (0, 1), (0, 2)], heap_table(17), 18, (2, 0, 4, 6, 1, 3, 7, 5));
}

proof fn lemma_chart_1938()
    ensures
        chart_signature([(2, 3), (0, 1), (0, 2)], heap_table(18)) == chart_signature([(0, 1), (2, 3), (0, 2)], heap_table(12)),
{
    lemma_heap_entries();
    lemma_codes_of_word_80(heap_table(18));
    lemma_codes_of_word_20(heap_table(12));
    lemma_charts_agree_through([(0, 1), (2, 3), (0, 2)], heap_table(12), [(2, 3), (0, 1), (0, 2)], heap_table(18), 18, (2, 0, 4, 6, 1, 3, 7, 5));
}

proof fn lemma_chart_1939()
    ensures
        chart_signature([(2, 3), (0, 1), (0, 2)], heap_table(19)) == chart_signature([(0, 1), (2, 3), (0, 2)], heap_table(12)),
{
    lemma_heap_entries();
    lemma_codes_of_word_80(heap_table(19));
    lemma_codes_of_word_20(heap_table(12));
    lemma_charts_agree_through([(0, 1), (2, 3), (0, 2)], heap_table(12), [(2, 3), (0, 1), (0, 2)], heap_table(19), 19, (4, 1, 2, 7, 0, 5, 6, 3));
}

proof fn lemma_chart_1940()
    ensures
        chart_signature([(2, 3), (0, 1), (0, 2)], heap_table(20)) == chart_signature([(0, 1), (2, 3), (0, 2)], heap_table(6)),
{
    lemma_heap_entries();
    lemma_codes_of_word_80(heap_table(20));
    lemma_codes_of_word_20(heap_table(6));
    lemma_charts_agree_through([(0, 1), (2, 3), (0, 2)], heap_table(6), [(2, 3), (0, 1), (0, 2)], heap_table(20), 19, (4, 1, 2, 7, 0, 5, 6, 3));
}

proof fn lemma_chart_1941()
    ensures
        chart_signature([(2, 3), (0, 1), (0, 2)], heap_table(21)) == chart_signature([(0, 1), (2, 3), (0, 2)], heap_table(6)),
{
    lemma_heap_entries();
    lemma_codes_of_word_80(heap_table(21));
    lemma_codes_of_word_20(heap_table(6));
    lemma_charts_agree_through([(0, 1), (2, 3), (0, 2)], heap_table(6), [(2, 3), (0, 1), (0, 2)], heap_table(21), 18, (2, 0, 4, 6, 1, 3, 7, 5));
}

proof fn lemma_chart_1942()
    ensures
        chart_signature([(2, 3), (0, 1), (0, 2)], heap_table(22)) == chart_signature([(0, 1), (2, 3), (0, 2)], heap_table(0)),
{
    lemma_heap_entries();
    lemma_codes_of_word_80(heap_table(22));
    lemma_codes_of_word_20(heap_table(0));
    lemma_charts_agree_through([(0, 1), (2, 3), (0, 2)], heap_table(0), [(2, 3), (0, 1), (0, 2)], heap_table(22), 18, (2, 0, 4, 6, 1, 3, 7, 5));
}

proof fn lemma_chart_1943()
    ensures
        chart_signature([(2, 3), (0, 1), (0, 2)], heap_table(23)) == chart_signature([(0, 1), (2, 3), (0, 2)], heap_table(0)),
{
    lemma_heap_entries();
    lemma_codes_of_word_80(heap_table(23));
    lemma_codes_of_word_20(heap_table(0));
    lemma_charts_agree_through([(0, 1), (2, 3), (0, 2)], heap_table(0), [(2, 3), (0, 1), (0, 2)], heap_table(23), 19, (4, 1, 2, 7, 0, 5, 6, 3));
}

/// Every chart of atlas word 80 shares its signature with the first chart
/// of a class below 216.
pub proof fn lemma_charts_of_word_80()
    ensures
        forall|t: int| 1920 <= t < 1944 ==> #[trigger] meets_class_below(t, 216),
{
    lemma_census_words();
    assert forall|t: int| 1920 <= t < 1944 implies #[trigger] meets_class_below(t, 216) by {
        if t == 1920 { lemma_chart_1920(); assert(atlas_signatures()[class_rep(126)] == atlas_signatures()[1920]); }
        else if t == 1921 { lemma_chart_1921(); assert(atlas_signatures()[class_rep(126)] == atlas_signatures()[1921]); }
        else if t == 1922 { lemma_chart_1922(); assert(atlas_signatures()[class_rep(127)] == atlas_signatures()[1922]); }
        else if t == 1923 { lemma_chart_1923(); assert(atlas_signatures()[class_rep(127)] == atlas_signatures()[1923]); }
        else if t == 1924 { lemma_chart_1924(); assert(atlas_signatures()[class_rep(128)] == atlas_signatures()[1924]); }
        else if t == 1925 { lemma_chart_1925(); assert(atlas_signatures()[class_rep(128)] == atlas_signatures()[1925]); }
        else if t == 1926 { lemma_chart_1926(); assert(atlas_signatures()[class_rep(129)] == atlas_signatures()[1926]); }
        else if t == 1927 { lemma_chart_1927(); assert(atlas_signatures()[class_rep(129)] == atlas_signatures()[1927]); }
        else if t == 1928 { lemma_chart_1928(); assert(atlas_signatures()[class_rep(130)] == atlas_signatures()[1928]); }
        else if t == 1929 { lemma_chart_1929(); assert(atlas_signatures()[class_rep(130)] == atlas_signatures()[1929]); }
        else if t == 1930 { lemma_chart_1930(); assert(atlas_signatures()[class_rep(128)] == atlas_signatures()[1930]); }
        else if t == 1931 { lemma_chart_1931(); assert(atlas_signatures()[class_rep(128)] == atlas_signatures()[1931]); }
        else if t == 1932 { lemma_chart_1932(); assert(atlas_signatures()[class_rep(131)] == atlas_signatures()[1932]); }
        else if t == 1933 { lemma_chart_1933(); assert(atlas_signatures()[class_rep(131)] == atlas_signatures()[1933]); }
        else if t == 1934 { lemma_chart_1934(); assert(atlas_signatures()[class_rep(130)] == atlas_signatures()[1934]); }
        else if t == 1935 { lemma_chart_1935(); assert(atlas_signatures()[class_rep(130)] == atlas_signatures()[1935]); }
        else if t == 1936 { lemma_chart_1936(); assert(atlas_signatures()[class_rep(127)] == atlas_signatures()[1936]); }
        else if t == 1937 { lemma_chart_1937(); assert(atlas_signatures()[class_rep(127)] == atlas_signatures()[1937]); }
        else if t == 1938 { lemma_chart_1938(); assert(atlas_signatures()[class_rep(131)] == atlas_signatures()[1938]); }
        else if t == 1939 { lemma_chart_1939(); assert(atlas_signatures()[class_rep(131)] == atlas_signatures()[1939]); }
        else if t == 1940 { lemma_chart_1940(); assert(atlas_signatures()[class_rep(129)] == atlas_signatures()[1940]); }
        else if t == 1941 { lemma_chart_1941(); assert(atlas_signatures()[class_rep(129)] == atlas_signatures()[1941]); }
        else if t == 1942 { lemma_chart_1942(); assert(atlas_signatures()[class_rep(126)] == atlas_signatures()[1942]); }
        else { lemma_chart_1943(); assert(atlas_signatures()[class_rep(126)] == atlas_signatures()[1943]); }
    }
}

proof fn lemma_chart_1944()
    ensures
        chart_signature([(2, 3), (0, 1), (0, 3)], heap_table(0)) == chart_signature([(0, 1), (2, 3), (0, 3)], heap_table(0)),
{
    lemma_heap_entries();
    lemma_codes_of_word_81(heap_table(0));
    lemma_codes_of_word_21(heap_table(0));
    lemma_charts_agree_through([(0, 1), (2, 3), (0, 3)], heap_table(0), [(2, 3), (0, 1), (0, 3)], heap_table(0), 16, (0, 2, 1, 3, 4, 6, 5, 7));
}

proof fn lemma_chart_1945()
    ensures
        chart_signature([(2, 3), (0, 1), (0, 3)], heap_table(1)) == chart_signature([(0, 1), (2, 3), (0, 3)], heap_table(0)),
{
    lemma_heap_entries();
    lemma_codes_of_word_81(heap_table(1));
    lemma_codes_of_word_21(heap_table(0));
    lemma_charts_agree_through([(0, 1), (2, 3), (0, 3)], heap_table(0), [(2, 3), (0, 1), (0, 3)], heap_table(1), 17, (1, 4, 0, 5, 2, 7, 3, 6));
}

proof fn lemma_chart_1946()
    ensures
        chart_signature([(2, 3), (0, 1), (0, 3)], heap_table(2)) == chart_signature([(0, 1), (2, 3), (0, 3)], heap_table(2)),
{
    lemma_heap_entries();
    lemma_codes_of_word_81(heap_table(2));
    lemma_codes_of_word_21(heap_table(2));
    lemma_charts_agree_through([(0, 1), (2, 3), (0, 3)], heap_table(2), [(2, 3), (0, 1), (0, 3)], heap_table(2), 16, (0, 2, 1, 3, 4, 6, 5, 7));
}

proof fn lemma_chart_1947()
    ensures
        chart_signature([(2, 3), (0, 1), (0, 3)], heap_table(3)) == chart_signature([(0, 1), (2, 3), (0, 3)], heap_table(2)),
{
    lemma_heap_entries();
    lemma_codes_of_word_81(heap_table(3));
    lemma_codes_of_word_21(heap_table(2));
    lemma_charts_agree_through([(0, 1), (2, 3), (0, 3)], heap_table(2), [(2, 3), (0, 1), (0, 3)], heap_table(3), 17, (1, 4, 0, 5, 2, 7, 3, 6));
}

proof fn lemma_chart_1948()
    ensures
        chart_signature([(2, 3), (0, 1), (0, 3)], heap_table(4)) == chart_signature([(0, 1), (2, 3), (0, 3)], heap_table(4)),
{
    lemma_heap_entries();
    lemma_codes_of_word_81(heap_table(4));
    lemma_codes_of_word_21(heap_table(4));
    lemma_charts_agree_through([(0, 1), (2, 3), (0, 3)], heap_table(4), [(2, 3), (0, 1), (0, 3)], heap_table(4), 16, (0, 2, 1, 3, 4, 6, 5, 7));
}

proof fn lemma_chart_1949()
    ensures
        chart_signature([(2, 3), (0, 1), (0, 3)], heap_table(5)) == chart_signature([(0, 1), (2, 3), (0, 3)], heap_table(4)),
{
    lemma_heap_entries();
    lemma_codes_of_word_81(heap_table(5));
    lemma_codes_of_word_21(heap_table(4));
    lemma_charts_agree_through([(0, 1), (2, 3), (0, 3)], heap_table(4), [(2, 3), (0, 1), (0, 3)], heap_table(5), 17, (1, 4, 0, 5, 2, 7, 3, 6));
}

proof fn lemma_chart_1950()
    ensures
        chart_signature([(2, 3), (0, 1), (0, 3)], heap_table(6)) == chart_signature([(0, 1), (2, 3), (0, 3)], heap_table(6)),
{
    lemma_heap_entries();
    lemma_codes_of_word_81(heap_table(6));
    lemma_codes_of_word_21(heap_table(6));
    lemma_charts_agree_through([(0, 1), (2, 3), (0, 3)], heap_table(6), [(2, 3), (0, 1), (0, 3)], heap_table(6), 16, (0, 2, 1, 3, 4, 6, 5, 7));
}

proof fn lemma_chart_1951()
    ensures
        chart_signature([(2, 3), (0, 1), (0, 3)], heap_table(7)) == chart_signature([(0, 1), (2, 3), (0, 3)], heap_table(6)),
{
    lemma_heap_entries();
    lemma_codes_of_word_81(heap_table(7));
    lemma_codes_of_word_21(heap_table(6));
    lemma_charts_agree_through([(0, 1), (2, 3), (0, 3)], heap_table(6), [(2, 3), (0, 1), (0, 3)], heap_table(7), 17, (1, 4, 0, 5, 2, 7, 3, 6));
}

proof fn lemma_chart_1952()
    ensures
        chart_signature([(2, 3), (0, 1), (0, 3)], heap_table(8)) == chart_signature([(0, 1), (2, 3), (0, 3)], heap_table(8)),
{
    lemma_heap_entries();
    lemma_codes_of_word_81(heap_table(8));
    lemma_codes_of_word_21(heap_table(8));
    lemma_charts_agree_through([(0, 1), (2, 3), (0, 3)], heap_table(8), [(2, 3), (0, 1), (0, 3)], heap_table(8), 16, (0, 2, 1, 3, 4, 6, 5, 7));
}

proof fn lemma_chart_1953()
    ensures
        chart_signature([(2, 3), (0, 1), (0, 3)], heap_table(9)) == chart_signature([(0, 1), (2, 3), (0, 3)], heap_table(8)),
{
    lemma_heap_entries();
    lemma_codes_of_word_81(heap_table(9));
    lemma_codes_of_word_21(heap_table(8));
    lemma_charts_agree_through([(0, 1), (2, 3), (0, 3)], heap_table(8), [(2, 3), (0, 1), (0, 3)], heap_table(9), 17, (1, 4, 0, 5, 2, 7, 3, 6));
}

proof fn lemma_chart_1954()
    ensures
        chart_signature([(2, 3), (0, 1), (0, 3)], heap_table(10)) == chart_signature([(0, 1), (2, 3), (0, 3)], heap_table(4)),
{
    lemma_heap_entries();
    lemma_codes_of_word_81(heap_table(10));
    lemma_codes_of_word_21(heap_table(4));
    lemma_charts_agree_through([(0, 1), (2, 3), (0, 3)], heap_table(4), [(2, 3), (0, 1), (0, 3)], heap_table(10), 18, (2, 0, 4, 6, 1, 3, 7, 5));
}

proof fn lemma_chart_1955()
    ensures
        chart_signature([(2, 3), (0, 1), (0, 3)], heap_table(11)) == chart_signature([(0, 1), (2, 3), (0, 3)], heap_table(4)),
{
    lemma_heap_entries();
    lemma_codes_of_word_81(heap_table(11));
    lemma_codes_of_word_21(heap_table(4));
    lemma_charts_agree_through([(0, 1), (2, 3), (0, 3)], heap_table(4), [(2, 3), (0, 1), (0, 3)], heap_table(11), 19, (4, 1, 2, 7, 0, 5, 6, 3));
}

proof fn lemma_chart_1956()
    ensures
        chart_signature([(2, 3), (0, 1), (0, 3)], heap_table(12)) == chart_signature([(0, 1), (2, 3), (0, 3)], heap_table(12)),
{
    lemma_heap_entries();
    lemma_codes_of_word_81(heap_table(12));
    lemma_codes_of_word_21(heap_table(12));
    lemma_charts_agree_through([(0, 1), (2, 3), (0, 3)], heap_table(12), [(2, 3), (0, 1), (0, 3)], heap_table(12), 16, (0, 2, 1, 3, 4, 6, 5, 7));
}

proof fn lemma_chart_1957()
    ensures
        chart_signature([(2, 3), (0, 1), (0, 3)], heap_table(13)) == chart_signature([(0, 1), (2, 3), (0, 3)], heap_table(12)),
{
    lemma_heap_entries();
    lemma_codes_of_word_81(heap_table(13));
    lemma_codes_of_word_21(heap_table(12));
    lemma_charts_agree_through([(0, 1), (2, 3), (0, 3)], heap_table(12), [(2, 3), (0, 1), (0, 3)], heap_table(13), 17, (1, 4, 0, 5, 2, 7, 3, 6));
}

proof fn lemma_chart_1958()
    ensures
        chart_signature([(2, 3), (0, 1), (0, 3)], heap_table(14)) == chart_signature([(0, 1), (2, 3), (0, 3)], heap_table(8)),
{
    lemma_heap_entries();
    lemma_codes_of_word_81(heap_table(14));
    lemma_codes_of_word_21(heap_table(8));
    lemma_charts_agree_through([(0, 1), (2, 3), (0, 3)], heap_table(8), [(2, 3), (0, 1), (0, 3)], heap_table(14), 18, (2, 0, 4, 6, 1, 3, 7, 5));
}

proof fn lemma_chart_1959()
    ensures
        chart_signature([(2, 3), (0, 1), (0, 3)], heap_table(15)) == chart_signature([(0, 1), (2, 3), (0, 3)], heap_table(8)),
{
    lemma_heap_entries();
    lemma_codes_of_word_81(heap_table(15));
    lemma_codes_of_word_21(heap_table(8));
    lemma_charts_agree_through([(0, 1), (2, 3), (0, 3)], heap_table(8), [(2, 3), (0, 1), (0, 3)], heap_table(15), 19, (4, 1, 2, 7, 0, 5, 6, 3));
}

proof fn lemma_chart_1960()
    ensures
        chart_signature([(2, 3), (0, 1), (0, 3)], heap_table(16)) == chart_signature([(0, 1), (2, 3), (0, 3)], heap_table(2)),
{
    lemma_heap_entries();
    lemma_codes_of_word_81(heap_table(16));
    lemma_codes_of_word_21(heap_table(2));
    lemma_charts_agree_through([(0, 1), (2, 3), (0, 3)], heap_table(2), [(2, 3), (0, 1), (0, 3)], heap_table(16), 19, (4, 1, 2, 7, 0, 5, 6, 3));
}

proof fn lemma_chart_1961()
    ensures
        chart_signature([(2, 3), (0, 1), (0, 3)], heap_table(17)) == chart_signature([(0, 1), (2, 3), (0, 3)], heap_table(2)),
{
    lemma_heap_entries();
    lemma_codes_of_word_81(heap_table(17));
    lemma_codes_of_word_21(heap_table(2));
    lemma_charts_agree_through([(0, 1), (2, 3), (0, 3)], heap_table(2), [(2, 3), (0, 1), (0, 3)], heap_table(17), 18, (2, 0, 4, 6, 1, 3, 7, 5));
}

proof fn lemma_chart_1962()
    ensures
        chart_signature([(2, 3), (0, 1), (0, 3)], heap_table(18)) == chart_signature([(0, 1), (2, 3), (0, 3)], heap_table(12)),
{
    lemma_heap_entries();
    lemma_codes_of_word_81(heap_table(18));
    lemma_codes_of_word_21(heap_table(12));
    lemma_charts_agree_through([(0, 1), (2, 3), (0, 3)], heap_table(12), [(2, 3), (0, 1), (0, 3)], heap_table(18), 18, (2, 0, 4, 6, 1, 3, 7, 5));
}

proof fn lemma_chart_1963()
    ensures
        chart_signature([(2, 3), (0, 1), (0, 3)], heap_table(19)) == chart_signature([(0, 1), (2, 3), (0, 3)], heap_table(12)),
{
    lemma_heap_entries();
    lemma_codes_of_word_81(heap_table(19));
    lemma_codes_of_word_21(heap_table(12));
    lemma_charts_agree_through([(0, 1), (2, 3), (0, 3)], heap_table(12), [(2, 3), (0, 1), (0, 3)], heap_table(19), 19, (4, 1, 2, 7, 0, 5, 6, 3));
}

proof fn lemma_chart_1964()
    ensures
        chart_signature([(2, 3), (0, 1), (0, 3)], heap_table(20)) == chart_signature([(0, 1), (2, 3), (0, 3)], heap_table(6)),
{
    lemma_heap_entries();
    lemma_codes_of_word_81(heap_table(20));
    lemma_codes_of_word_21(heap_table(6));
    lemma_charts_agree_through([(0, 1), (2, 3), (0, 3)], heap_table(6), [(2, 3), (0, 1), (0, 3)], heap_table(20), 19, (4, 1, 2, 7, 0, 5, 6, 3));
}

proof fn lemma_chart_1965()
    ensures
        chart_signature([(2, 3), (0, 1), (0, 3)], heap_table(21)) == chart_signature([(0, 1), (2, 3), (0, 3)], heap_table(6)),
{
    lemma_heap_entries();
    lemma_codes_of_word_81(heap_table(21));
    lemma_codes_of_word_21(heap_table(6));
    lemma_charts_agree_through([(0, 1), (2, 3), (0, 3)], heap_table(6), [(2, 3), (0, 1), (0, 3)], heap_table(21), 18, (2, 0, 4, 6, 1, 3, 7, 5));
}

proof fn lemma_chart_1966()
    ensures
        chart_signature([(2, 3), (0, 1), (0, 3)], heap_table(22)) == chart_signature([(0, 1), (2, 3), (0, 3)], heap_table(0)),
{
    lemma_heap_entries();
    lemma_codes_of_word_81(heap_table(22));
    lemma_codes_of_word_21(heap_table(0));
    lemma_charts_agree_through([(0, 1), (2, 3), (0, 3)], heap_table(0), [(2, 3), (0, 1), (0, 3)], heap_table(22), 18, (2, 0, 4, 6, 1, 3, 7, 5));
}

proof fn lemma_chart_1967()
    ensures
        chart_signature([(2, 3), (0, 1), (0, 3)], heap_table(23)) == chart_signature([(0, 1), (2, 3), (0, 3)], heap_table(0)),
{
    lemma_heap_entries();
    lemma_codes_of_word_81(heap_table(23));
    lemma_codes_of_word_21(heap_table(0));
    lemma_charts_agree_through([(0, 1), (2, 3), (0, 3)], heap_table(0), [(2, 3), (0, 1), (0, 3)], heap_table(23), 19, (4, 1, 2, 7, 0, 5, 6, 3));
}

/// Every chart of atlas word 81 shares its signature with the first chart
/// of a class below 216.
pub proof fn lemma_charts_of_word_81()
    ensures
        forall|t: int| 1944 <= t < 1968 ==> #[trigger] meets_class_below(t, 216),
{
    lemma_census_words();
    assert forall|t: int| 1944 <= t < 1968 implies #[trigger] meets_class_below(t, 216) by {
        if t == 1944 { lemma_chart_1944(); assert(atlas_signatures()[class_rep(132)] == atlas_signatures()[1944]); }
        else if t == 1945 { lemma_chart_1945(); assert(atlas_signatures()[class_rep(132)] == atlas_signatures()[1945]); }
        else if t == 1946 { lemma_chart_1946(); assert(atlas_signatures()[class_rep(133)] == atlas_signatures()[1946]); }
        else if t == 1947 { lemma_chart_1947(); assert(atlas_signatures()[class_rep(133)] == atlas_signatures()[1947]); }
        else if t == 1948 { lemma_chart_1948(); assert(atlas_signatures()[class_rep(134)] == atlas_signatures()[1948]); }
        else if t == 1949 { lemma_chart_1949(); assert(atlas_signatures()[class_rep(134)] == atlas_signatures()[1949]); }
        else if t == 1950 { lemma_chart_1950(); assert(atlas_signatures()[class_rep(135)] == atlas_signatures()[1950]); }
        else if t == 1951 { lemma_chart_1951(); assert(atlas_signatures()[class_rep(135)] == atlas_signatures()[1951]); }
        else if t == 1952 { lemma_chart_1952(); assert(atlas_signatures()[class_rep(136)] == atlas_signatures()[1952]); }
        else if t == 1953 { lemma_chart_1953(); assert(atlas_signatures()[class_rep(136)] == atlas_signatures()[1953]); }
        else if t == 1954 { lemma_chart_1954(); assert(atlas_signatures()[class_rep(134)] == atlas_signatures()[1954]); }
        else if t == 1955 { lemma_chart_1955(); assert(atlas_signatures()[class_rep(134)] == atlas_signatures()[1955]); }
        else if t == 1956 { lemma_chart_1956(); assert(atlas_signatures()[class_rep(137)] == atlas_signatures()[1956]); }
        else if t == 1957 { lemma_chart_1957(); assert(atlas_signatures()[class_rep(137)] == atlas_signatures()[1957]); }
        else if t == 1958 { lemma_chart_1958(); assert(atlas_signatures()[class_rep(136)] == atlas_signatures()[1958]); }
        else if t == 1959 { lemma_chart_1959(); assert(atlas_signatures()[class_rep(136)] == atlas_signatures()[1959]); }
        else if t == 1960 { lemma_chart_1960(); assert(atlas_signatures()[class_rep(133)] == atlas_signatures()[1960]); }
        else if t == 1961 { lemma_chart_1961(); assert(atlas_signatures()[class_rep(133)] == atlas_signatures()[1961]); }
        else if t == 1962 { lemma_chart_1962(); assert(atlas_signatures()[class_rep(137)] == atlas_signatures()[1962]); }
        else if t == 1963 { lemma_chart_1963(); assert(atlas_signatures()[class_rep(137)] == atlas_signatures()[1963]); }
        else if t == 1964 { lemma_chart_1964(); assert(atlas_signatures()[class_rep(135)] == atlas_signatures()[1964]); }
        else if t == 1965 { lemma_chart_1965(); assert(atlas_signatures()[class_rep(135)] == atlas_signatures()[1965]); }
        else if t == 1966 { lemma_chart_1966(); assert(atlas_signatures()[class_rep(132)] == atlas_signatures()[1966]); }
        else { lemma_chart_1967(); assert(atlas_signatures()[class_rep(132)] == atlas_signatures()[1967]); }
    }
}

proof fn lemma_chart_1968()
    ensures
        chart_signature([(2, 3), (0, 1), (1, 2)], heap_table(0)) == chart_signature([(0, 2), (1, 3), (1, 2)], heap_table(3)),
{
    lemma_heap_entries();
    lemma_codes_of_word_82(heap_table(0));
    lemma_codes_of_word_4(heap_table(3));
    lemma_charts_agree_through([(0, 2), (1, 3), (1, 2)], heap_table(3), [(2, 3), (0, 1), (1, 2)], heap_table(0), 20, (3, 6, 5, 0, 7, 2, 1, 4));
}

proof fn lemma_chart_1969()
    ensures
        chart_signature([(2, 3), (0, 1), (1, 2)], heap_table(1)) == chart_signature([(0, 2), (1, 3), (1, 2)], heap_table(3)),
{
    lemma_heap_entries();
    lemma_codes_of_word_82(heap_table(1));
    lemma_codes_of_word_4(heap_table(3));
    lemma_charts_agree_through([(0, 2), (1, 3), (1, 2)], heap_table(3), [(2, 3), (0, 1), (1, 2)], heap_table(1), 21, (5, 7, 3, 1, 6, 4, 0, 2));
}

proof fn lemma_chart_1970()
    ensures
        chart_signature([(2, 3), (0, 1), (1, 2)], heap_table(2)) == chart_signature([(0, 2), (1, 3), (1, 2)], heap_table(0)),
{
    lemma_heap_entries();
    lemma_codes_of_word_82(heap_table(2));
    lemma_codes_of_word_4(heap_table(0));
    lemma_charts_agree_through([(0, 2), (1, 3), (1, 2)], heap_table(0), [(2, 3), (0, 1), (1, 2)], heap_table(2), 21, (5, 7, 3, 1, 6, 4, 0, 2));
}

proof fn lemma_chart_1971()
    ensures
        chart_signature([(2, 3), (0, 1), (1, 2)], heap_table(3)) == chart_signature([(0, 2), (1, 3), (1, 2)], heap_table(0)),
{
    lemma_heap_entries();
    lemma_codes_of_word_82(heap_table(3));
    lemma_codes_of_word_4(heap_table(0));
    lemma_charts_agree_through([(0, 2), (1, 3), (1, 2)], heap_table(0), [(2, 3), (0, 1), (1, 2)], heap_table(3), 20, (3, 6, 5, 0, 7, 2, 1, 4));
}

proof fn lemma_chart_1972()
    ensures
        chart_signature([(2, 3), (0, 1), (1, 2)], heap_table(4)) == chart_signature([(0, 2), (1, 3), (1, 2)], heap_table(1)),
{
    lemma_heap_entries();
    lemma_codes_of_word_82(heap_table(4));
    lemma_codes_of_word_4(heap_table(1));
    lemma_charts_agree_through([(0, 2), (1, 3), (1, 2)], heap_table(1), [(2, 3), (0, 1), (1, 2)], heap_table(4), 20, (3, 6, 5, 0, 7, 2, 1, 4));
}

proof fn lemma_chart_1973()
    ensures
        chart_signature([(2, 3), (0, 1), (1, 2)], heap_table(5)) == chart_signature([(0, 2), (1, 3), (1, 2)], heap_table(1)),
{
    lemma_heap_entries();
    lemma_codes_of_word_82(heap_table(5));
    lemma_codes_of_word_4(heap_table(1));
    lemma_charts_agree_through([(0, 2), (1, 3), (1, 2)], heap_table(1), [(2, 3), (0, 1), (1, 2)], heap_table(5), 21, (5, 7, 3, 1, 6, 4, 0, 2));
}

proof fn lemma_chart_1974()
    ensures
        chart_signature([(2, 3), (0, 1), (1, 2)], heap_table(6)) == chart_signature([(0, 2), (1, 3), (1, 2)], heap_table(9)),
{
    lemma_heap_entries();
    lemma_codes_of_word_82(heap_table(6));
    lemma_codes_of_word_4(heap_table(9));
    lemma_charts_agree_through([(0, 2), (1, 3), (1, 2)], heap_table(9), [(2, 3), (0, 1), (1, 2)], heap_table(6), 20, (3, 6, 5, 0, 7, 2, 1, 4));
}

proof fn lemma_chart_1975()
    ensures
        chart_signature([(2, 3), (0, 1), (1, 2)], heap_table(7)) == chart_signature([(0, 2), (1, 3), (1, 2)], heap_table(9)),
{
    lemma_heap_entries();
    lemma_codes_of_word_82(heap_table(7));
    lemma_codes_of_word_4(heap_table(9));
    lemma_charts_agree_through([(0, 2), (1, 3), (1, 2)], heap_table(9), [(2, 3), (0, 1), (1, 2)], heap_table(7), 21, (5, 7, 3, 1, 6, 4, 0, 2));
}

proof fn lemma_chart_1976()
    ensures
        chart_signature([(2, 3), (0, 1), (1, 2)], heap_table(8)) == chart_signature([(0, 2), (1, 3), (1, 2)], heap_table(6)),
{
    lemma_heap_entries();
    lemma_codes_of_word_82(heap_table(8));
    lemma_codes_of_word_4(heap_table(6));
    lemma_charts_agree_through([(0, 2), (1, 3), (1, 2)], heap_table(6), [(2, 3), (0, 1), (1, 2)], heap_table(8), 21, (5, 7, 3, 1, 6, 4, 0, 2));
}

proof fn lemma_chart_1977()
    ensures
        chart_signature([(2, 3), (0, 1), (1, 2)], heap_table(9)) == chart_signature([(0, 2), (1, 3), (1, 2)], heap_table(6)),
{
    lemma_heap_entries();
    lemma_codes_of_word_82(heap_table(9));
    lemma_codes_of_word_4(heap_table(6));
    lemma_charts_agree_through([(0, 2), (1, 3), (1, 2)], heap_table(6), [(2, 3), (0, 1), (1, 2)], heap_table(9), 20, (3, 6, 5, 0, 7, 2, 1, 4));
}

proof fn lemma_chart_1978()
    ensures
        chart_signature([(2, 3), (0, 1), (1, 2)], heap_table(10)) == chart_signature([(0, 2), (1, 3), (1, 2)], heap_table(1)),
{
    lemma_heap_entries();
    lemma_codes_of_word_82(heap_table(10));
    lemma_codes_of_word_4(heap_table(1));
    lemma_charts_agree_through([(0, 2), (1, 3), (1, 2)], heap_table(1), [(2, 3), (0, 1), (1, 2)], heap_table(10), 22, (6, 3, 7, 2, 5, 0, 4, 1));
}

proof fn lemma_chart_1979()
    ensures
        chart_signature([(2, 3), (0, 1), (1, 2)], heap_table(11)) == chart_signature([(0, 2), (1, 3), (1, 2)], heap_table(1)),
{
    lemma_heap_entries();
    lemma_codes_of_word_82(heap_table(11));
    lemma_codes_of_word_4(heap_table(1));
    lemma_charts_agree_through([(0, 2), (1, 3), (1, 2)], heap_table(1), [(2, 3), (0, 1), (1, 2)], heap_table(11), 23, (7, 5, 6, 4, 3, 1, 2, 0));
}

proof fn lemma_chart_1980()
    ensures
        chart_signature([(2, 3), (0, 1), (1, 2)], heap_table(12)) == chart_signature([(0, 2), (1, 3), (1, 2)], heap_table(15)),
{
    lemma_heap_entries();
    lemma_codes_of_word_82(heap_table(12));
    lemma_codes_of_word_4(heap_table(15));
    lemma_charts_agree_through([(0, 2), (1, 3), (1, 2)], heap_table(15), [(2, 3), (0, 1), (1, 2)], heap_table(12), 20, (3, 6, 5, 0, 7, 2, 1, 4));
}

proof fn lemma_chart_1981()
    ensures
        chart_signature([(2, 3), (0, 1), (1, 2)], heap_table(13)) == chart_signature([(0, 2), (1, 3), (1, 2)], heap_table(15)),
{
    lemma_heap_entries();
    lemma_codes_of_word_82(heap_table(13));
    lemma_codes_of_word_4(heap_table(15));
    lemma_charts_agree_through([(0, 2), (1, 3), (1, 2)], heap_table(15), [(2, 3), (0, 1), (1, 2)], heap_table(13), 21, (5, 7, 3, 1, 6, 4, 0, 2));
}

proof fn lemma_chart_1982()
    ensures
        chart_signature([(2, 3), (0, 1), (1, 2)], heap_table(14)) == chart_signature([(0, 2), (1, 3), (1, 2)], heap_table(6)),
{
    lemma_heap_entries();
    lemma_codes_of_word_82(heap_table(14));
    lemma_codes_of_word_4(heap_table(6));
    lemma_charts_agree_through([(0, 2), (1, 3), (1, 2)], heap_table(6), [(2, 3), (0, 1), (1, 2)], heap_table(14), 23, (7, 5, 6, 4, 3, 1, 2, 0));
}

proof fn lemma_chart_1983()
    ensures
        chart_signature([(2, 3), (0, 1), (1, 2)], heap_table(15)) == chart_signature([(0, 2), (1, 3), (1, 2)], heap_table(6)),
{
    lemma_heap_entries();
    lemma_codes_of_word_82(heap_table(15));
    lemma_codes_of_word_4(heap_table(6));
    lemma_charts_agree_through([(0, 2), (1, 3), (1, 2)], heap_table(6), [(2, 3), (0, 1), (1, 2)], heap_table(15), 22, (6, 3, 7, 2, 5, 0, 4, 1));
}

proof fn lemma_chart_1984()
    ensures
        chart_signature([(2, 3), (0, 1), (1, 2)], heap_table(16)) == chart_signature([(0, 2), (1, 3), (1, 2)], heap_table(0)),
{
    lemma_heap_entries();
    lemma_codes_of_word_82(heap_table(16));
    lemma_codes_of_word_4(heap_table(0));
    lemma_charts_agree_through([(0, 2), (1, 3), (1, 2)], heap_table(0), [(2, 3), (0, 1), (1, 2)], heap_table(16), 22, (6, 3, 7, 2, 5, 0, 4, 1));
}

proof fn lemma_chart_1985()
    ensures
        chart_signature([(2, 3), (0, 1), (1, 2)], heap_table(17)) == chart_signature([(0, 2), (1, 3), (1, 2)], heap_table(0)),
{
    lemma_heap_entries();
    lemma_codes_of_word_82(heap_table(17));
    lemma_codes_of_word_4(heap_table(0));
    lemma_charts_agree_through([(0, 2), (1, 3), (1, 2)], heap_table(0), [(2, 3), (0, 1), (1, 2)], heap_table(17), 23, (7, 5, 6, 4, 3, 1, 2, 0));
}

proof fn lemma_chart_1986()
    ensures
        chart_signature([(2, 3), (0, 1), (1, 2)], heap_table(18)) == chart_signature([(0, 2), (1, 3), (1, 2)], heap_table(15)),
{
    lemma_heap_entries();
    lemma_codes_of_word_82(heap_table(18));
    lemma_codes_of_word_4(heap_table(15));
    lemma_charts_agree_through([(0, 2), (1, 3), (1, 2)], heap_table(15), [(2, 3), (0, 1), (1, 2)], heap_table(18), 22, (6, 3, 7, 2, 5, 0, 4, 1));
}

proof fn lemma_chart_1987()
    ensures
        chart_signature([(2, 3), (0, 1), (1, 2)], heap_table(19)) == chart_signature([(0, 2), (1, 3), (1, 2)], heap_table(15)),
{
    lemma_heap_entries();
    lemma_codes_of_word_82(heap_table(19));
    lemma_codes_of_word_4(heap_table(15));
    lemma_charts_agree_through([(0, 2), (1, 3), (1, 2)], heap_table(15), [(2, 3), (0, 1), (1, 2)], heap_table(19), 23, (7, 5, 6, 4, 3, 1, 2, 0));
}

proof fn lemma_chart_1988()
    ensures
        chart_signature([(2, 3), (0, 1), (1, 2)], heap_table(20)) == chart_signature([(0, 2), (1, 3), (1, 2)], heap_table(9)),
{
    lemma_heap_entries();
    lemma_codes_of_word_82(heap_table(20));
    lemma_codes_of_word_4(heap_table(9));
    lemma_charts_agree_through([(0, 2), (1, 3), (1, 2)], heap_table(9), [(2, 3), (0, 1), (1, 2)], heap_table(20), 23, (7, 5, 6, 4, 3, 1, 2, 0));
}

proof fn lemma_chart_1989()
    ensures
        chart_signature([(2, 3), (0, 1), (1, 2)], heap_table(21)) == chart_signature([(0, 2), (1, 3), (1, 2)], heap_table(9)),
{
    lemma_heap_entries();
    lemma_codes_of_word_82(heap_table(21));
    lemma_codes_of_word_4(heap_table(9));
    lemma_charts_agree_through([(0, 2), (1, 3), (1, 2)], heap_table(9), [(2, 3), (0, 1), (1, 2)], heap_table(21), 22, (6, 3, 7, 2, 5, 0, 4, 1));
}

proof fn lemma_chart_1990()
    ensures
        chart_signature([(2, 3), (0, 1), (1, 2)], heap_table(22)) == chart_signature([(0, 2), (1, 3), (1, 2)], heap_table(3)),
{
    lemma_heap_entries();
    lemma_codes_of_word_82(heap_table(22));
    lemma_codes_of_word_4(heap_table(3));
    lemma_charts_agree_through([(0, 2), (1, 3), (1, 2)], heap_table(3), [(2, 3), (0, 1), (1, 2)], heap_table(22), 22, (6, 3, 7, 2, 5, 0, 4, 1));
}

proof fn lemma_chart_1991()
    ensures
        chart_signature([(2, 3), (0, 1), (1, 2)], heap_table(23)) == chart_signature([(0, 2), (1, 3), (1, 2)], heap_table(3)),
{
    lemma_heap_entries();
    lemma_codes_of_word_82(heap_table(23));
    lemma_codes_of_word_4(heap_table(3));
    lemma_charts_agree_through([(0, 2), (1, 3), (1, 2)], heap_table(3), [(2, 3), (0, 1), (1, 2)], heap_table(23), 23, (7, 5, 6, 4, 3, 1, 2, 0));
}

/// Every chart of atlas word 82 shares its signature with the first chart
/// of a class below 216.
pub proof fn lemma_charts_of_word_82()
    ensures
        forall|t: int| 1968 <= t < 1992 ==> #[trigger] meets_class_below(t, 216),
{
    lemma_census_words();
    assert forall|t: int| 1968 <= t < 1992 implies #[trigger] meets_class_below(t, 216) by {
        if t == 1968 { lemma_chart_1968(); assert(atlas_signatures()[class_rep(50)] == atlas_signatures()[1968]); }
        else if t == 1969 { lemma_chart_1969(); assert(atlas_signatures()[class_rep(50)] == atlas_signatures()[1969]); }
        else if t == 1970 { lemma_chart_1970(); assert(atlas_signatures()[class_rep(48)] == atlas_signatures()[1970]); }
        else if t == 1971 { lemma_chart_1971(); assert(atlas_signatures()[class_rep(48)] == atlas_signatures()[1971]); }
        else if t == 1972 { lemma_chart_1972(); assert(atlas_signatures()[class_rep(49)] == atlas_signatures()[1972]); }
        else if t == 1973 { lemma_chart_1973(); assert(atlas_signatures()[class_rep(49)] == atlas_signatures()[1973]); }
        else if t == 1974 { lemma_chart_1974(); assert(atlas_signatures()[class_rep(52)] == atlas_signatures()[1974]); }
        else if t == 1975 { lemma_chart_1975(); assert(atlas_signatures()[class_rep(52)] == atlas_signatures()[1975]); }
        else if t == 1976 { lemma_chart_1976(); assert(atlas_signatures()[class_rep(51)] == atlas_signatures()[1976]); }
        else if t == 1977 { lemma_chart_1977(); assert(atlas_signatures()[class_rep(51)] == atlas_signatures()[1977]); }
        else if t == 1978 { lemma_chart_1978(); assert(atlas_signatures()[class_rep(49)] == atlas_signatures()[1978]); }
        else if t == 1979 { lemma_chart_1979(); assert(atlas_signatures()[class_rep(49)] == atlas_signatures()[1979]); }
        else if t == 1980 { lemma_chart_1980(); assert(atlas_signatures()[class_rep(53)] == atlas_signatures()[1980]); }
        else if t == 1981 { lemma_chart_1981(); assert(atlas_signatures()[class_rep(53)] == atlas_signatures()[1981]); }
        else if t == 1982 { lemma_chart_1982(); assert(atlas_signatures()[class_rep(51)] == atlas_signatures()[1982]); }
        else if t == 1983 { lemma_chart_1983(); assert(atlas_signatures()[class_rep(51)] == atlas_signatures()[1983]); }
        else if t == 1984 { lemma_chart_1984(); assert(atlas_signatures()[class_rep(48)] == atlas_signatures()[1984]); }
        else if t == 1985 { lemma_chart_1985(); assert(atlas_signatures()[class_rep(48)] == atlas_signatures()[1985]); }
        else if t == 1986 { lemma_chart_1986(); assert(atlas_signatures()[class_rep(53)] == atlas_signatures()[1986]); }
        else if t == 1987 { lemma_chart_1987(); assert(atlas_signatures()[class_rep(53)] == atlas_signatures()[1987]); }
        else if t == 1988 { lemma_chart_1988(); assert(atlas_signatures()[class_rep(52)] == atlas_signatures()[1988]); }
        else if t == 1989 { lemma_chart_1989(); assert(atlas_signatures()[class_rep(52)] == atlas_signatures()[1989]); }
        else if t == 1990 { lemma_chart_1990(); assert(atlas_signatures()[class_rep(50)] == atlas_signatures()[1990]); }
        else { lemma_chart_1991(); assert(atlas_signatures()[class_rep(50)] == atlas_signatures()[1991]); }
    }
}

proof fn lemma_chart_1992()
    ensures
        chart_signature([(2, 3), (0, 1), (1, 3)], heap_table(0)) == chart_signature([(0, 3), (1, 2), (1, 3)], heap_table(7)),
{
    lemma_heap_entries();
    lemma_codes_of_word_83(heap_table(0));
    lemma_codes_of_word_5(heap_table(7));
    lemma_charts_agree_through([(0, 3), (1, 2), (1, 3)], heap_table(7), [(2, 3), (0, 1), (1, 3)], heap_table(0), 21, (5, 7, 3, 1, 6, 4, 0, 2));
}

proof fn lemma_chart_1993()
    ensures
        chart_signature([(2, 3), (0, 1), (1, 3)], heap_table(1)) == chart_signature([(0, 3), (1, 2), (1, 3)], heap_table(7)),
{
    lemma_heap_entries();
    lemma_codes_of_word_83(heap_table(1));
    lemma_codes_of_word_5(heap_table(7));
    lemma_charts_agree_through([(0, 3), (1, 2), (1, 3)], heap_table(7), [(2, 3), (0, 1), (1, 3)], heap_table(1), 20, (3, 6, 5, 0, 7, 2, 1, 4));
}

proof fn lemma_chart_1994()
    ensures
        chart_signature([(2, 3), (0, 1), (1, 3)], heap_table(2)) == chart_signature([(0, 3), (1, 2), (1, 3)], heap_table(8)),
{
    lemma_heap_entries();
    lemma_codes_of_word_83(heap_table(2));
    lemma_codes_of_word_5(heap_table(8));
    lemma_charts_agree_through([(0, 3), (1, 2), (1, 3)], heap_table(8), [(2, 3), (0, 1), (1, 3)], heap_table(2), 20, (3, 6, 5, 0, 7, 2, 1, 4));
}

proof fn lemma_chart_1995()
    ensures
        chart_signature([(2, 3), (0, 1), (1, 3)], heap_table(3)) == chart_signature([(0, 3), (1, 2), (1, 3)], heap_table(8)),
{
    lemma_heap_entries();
    lemma_codes_of_word_83(heap_table(3));
    lemma_codes_of_word_5(heap_table(8));
    lemma_charts_agree_through([(0, 3), (1, 2), (1, 3)], heap_table(8), [(2, 3), (0, 1), (1, 3)], heap_table(3), 21, (5, 7, 3, 1, 6, 4, 0, 2));
}

proof fn lemma_chart_1996()
    ensures
        chart_signature([(2, 3), (0, 1), (1, 3)], heap_table(4)) == chart_signature([(0, 3), (1, 2), (1, 3)], heap_table(14)),
{
    lemma_heap_entries();
    lemma_codes_of_word_83(heap_table(4));
    lemma_codes_of_word_5(heap_table(14));
    lemma_charts_agree_through([(0, 3), (1, 2), (1, 3)], heap_table(14), [(2, 3), (0, 1), (1, 3)], heap_table(4), 21, (5, 7, 3, 1, 6, 4, 0, 2));
}

proof fn lemma_chart_1997()
    ensures
        chart_signature([(2, 3), (0, 1), (1, 3)], heap_table(5)) == chart_signature([(0, 3), (1, 2), (1, 3)], heap_table(14)),
{
    lemma_heap_entries();
    lemma_codes_of_word_83(heap_table(5));
    lemma_codes_of_word_5(heap_table(14));
    lemma_charts_agree_through([(0, 3), (1, 2), (1, 3)], heap_table(14), [(2, 3), (0, 1), (1, 3)], heap_table(5), 20, (3, 6, 5, 0, 7, 2, 1, 4));
}

proof fn lemma_chart_1998()
    ensures
        chart_signature([(2, 3), (0, 1), (1, 3)], heap_table(6)) == chart_signature([(0, 3), (1, 2), (1, 3)], heap_table(1)),
{
    lemma_heap_entries();
    lemma_codes_of_word_83(heap_table(6));
    lemma_codes_of_word_5(heap_table(1));
    lemma_charts_agree_through([(0, 3), (1, 2), (1, 3)], heap_table(1), [(2, 3), (0, 1), (1, 3)], heap_table(6), 21, (5, 7, 3, 1, 6, 4, 0, 2));
}

proof fn lemma_chart_1999()
    ensures
        chart_signature([(2, 3), (0, 1), (1, 3)], heap_table(7)) == chart_signature([(0, 3), (1, 2), (1, 3)], heap_table(1)),
{
    lemma_heap_entries();
    lemma_codes_of_word_83(heap_table(7));
    lemma_codes_of_word_5(heap_table(1));
    lemma_charts_agree_through([(0, 3), (1, 2), (1, 3)], heap_table(1), [(2, 3), (0, 1), (1, 3)], heap_table(7), 20, (3, 6, 5, 0, 7, 2, 1, 4));
}

proof fn lemma_chart_2000()
    ensures
        chart_signature([(2, 3), (0, 1), (1, 3)], heap_table(8)) == chart_signature([(0, 3), (1, 2), (1, 3)], heap_table(2)),
{
    lemma_heap_entries();
    lemma_codes_of_word_83(heap_table(8));
    lemma_codes_of_word_5(heap_table(2));
    lemma_charts_agree_through([(0, 3), (1, 2), (1, 3)], heap_table(2), [(2, 3), (0, 1), (1, 3)], heap_table(8), 20, (3, 6, 5, 0, 7, 2, 1, 4));
}

proof fn lemma_chart_2001()
    ensures
        chart_signature([(2, 3), (0, 1), (1, 3)], heap_table(9)) == chart_signature([(0, 3), (1, 2), (1, 3)], heap_table(2)),
{
    lemma_heap_entries();
    lemma_codes_of_word_83(heap_table(9));
    lemma_codes_of_word_5(heap_table(2));
    lemma_charts_agree_through([(0, 3), (1, 2), (1, 3)], heap_table(2), [(2, 3), (0, 1), (1, 3)], heap_table(9), 21, (5, 7, 3, 1, 6, 4, 0, 2));
}

proof fn lemma_chart_2002()
    ensures
        chart_signature([(2, 3), (0, 1), (1, 3)], heap_table(10)) == chart_signature([(0, 3), (1, 2), (1, 3)], heap_table(14)),
{
    lemma_heap_entries();
    lemma_codes_of_word_83(heap_table(10));
    lemma_codes_of_word_5(heap_table(14));
    lemma_charts_agree_through([(0, 3), (1, 2), (1, 3)], heap_table(14), [(2, 3), (0, 1), (1, 3)], heap_table(10), 23, (7, 5, 6, 4, 3, 1, 2, 0));
}

proof fn lemma_chart_2003()
    ensures
        chart_signature([(2, 3), (0, 1), (1, 3)], heap_table(11)) == chart_signature([(0, 3), (1, 2), (1, 3)], heap_table(14)),
{
    lemma_heap_entries();
    lemma_codes_of_word_83(heap_table(11));
    lemma_codes_of_word_5(heap_table(14));
    lemma_charts_agree_through([(0, 3), (1, 2), (1, 3)], heap_table(14), [(2, 3), (0, 1), (1, 3)], heap_table(11), 22, (6, 3, 7, 2, 5, 0, 4, 1));
}

proof fn lemma_chart_2004()
    ensures
        chart_signature([(2, 3), (0, 1), (1, 3)], heap_table(12)) == chart_signature([(0, 3), (1, 2), (1, 3)], heap_table(0)),
{
    lemma_heap_entries();
    lemma_codes_of_word_83(heap_table(12));
    lemma_codes_of_word_5(heap_table(0));
    lemma_charts_agree_through([(0, 3), (1, 2), (1, 3)], heap_table(0), [(2, 3), (0, 1), (1, 3)], heap_table(12), 21, (5, 7, 3, 1, 6, 4, 0, 2));
}

proof fn lemma_chart_2005()
    ensures
        chart_signature([(2, 3), (0, 1), (1, 3)], heap_table(13)) == chart_signature([(0, 3), (1, 2), (1, 3)], heap_table(0)),
{
    lemma_heap_entries();
    lemma_codes_of_word_83(heap_table(13));
    lemma_codes_of_word_5(heap_table(0));
    lemma_charts_agree_through([(0, 3), (1, 2), (1, 3)], heap_table(0), [(2, 3), (0, 1), (1, 3)], heap_table(13), 20, (3, 6, 5, 0, 7, 2, 1, 4));
}

proof fn lemma_chart_2006()
    ensures
        chart_signature([(2, 3), (0, 1), (1, 3)], heap_table(14)) == chart_signature([(0, 3), (1, 2), (1, 3)], heap_table(2)),
{
    lemma_heap_entries();
    lemma_codes_of_word_83(heap_table(14));
    lemma_codes_of_word_5(heap_table(2));
    lemma_charts_agree_through([(0, 3), (1, 2), (1, 3)], heap_table(2), [(2, 3), (0, 1), (1, 3)], heap_table(14), 22, (6, 3, 7, 2, 5, 0, 4, 1));
}

proof fn lemma_chart_2007()
    ensures
        chart_signature([(2, 3), (0, 1), (1, 3)], heap_table(15)) == chart_signature([(0, 3), (1, 2), (1, 3)], heap_table(2)),
{
    lemma_heap_entries();
    lemma_codes_of_word_83(heap_table(15));
    lemma_codes_of_word_5(heap_table(2));
    lemma_charts_agree_through([(0, 3), (1, 2), (1, 3)], heap_table(2), [(2, 3), (0, 1), (1, 3)], heap_table(15), 23, (7, 5, 6, 4, 3, 1, 2, 0));
}

proof fn lemma_chart_2008()
    ensures
        chart_signature([(2, 3), (0, 1), (1, 3)], heap_table(16)) == chart_signature([(0, 3), (1, 2), (1, 3)], heap_table(8)),
{
    lemma_heap_entries();
    lemma_codes_of_word_83(heap_table(16));
    lemma_codes_of_word_5(heap_table(8));
    lemma_charts_agree_through([(0, 3), (1, 2), (1, 3)], heap_table(8), [(2, 3), (0, 1), (1, 3)], heap_table(16), 23, (7, 5, 6, 4, 3, 1, 2, 0));
}

proof fn lemma_chart_2009()
    ensures
        chart_signature([(2, 3), (0, 1), (1, 3)], heap_table(17)) == chart_signature([(0, 3), (1, 2), (1, 3)], heap_table(8)),
{
    lemma_heap_entries();
    lemma_codes_of_word_83(heap_table(17));
    lemma_codes_of_word_5(heap_table(8));
    lemma_charts_agree_through([(0, 3), (1, 2), (1, 3)], heap_table(8), [(2, 3), (0, 1), (1, 3)], heap_table(17), 22, (6, 3, 7, 2, 5, 0, 4, 1));
}

proof fn lemma_chart_2010()
    ensures
        chart_signature([(2, 3), (0, 1), (1, 3)], heap_table(18)) == chart_signature([(0, 3), (1, 2), (1, 3)], heap_table(0)),
{
    lemma_heap_entries();
    lemma_codes_of_word_83(heap_table(18));
    lemma_codes_of_word_5(heap_table(0));
    lemma_charts_agree_through([(0, 3), (1, 2), (1, 3)], heap_table(0), [(2, 3), (0, 1), (1, 3)], heap_table(18), 23, (7, 5, 6, 4, 3, 1, 2, 0));
}

proof fn lemma_chart_2011()
    ensures
        chart_signature([(2, 3), (0, 1), (1, 3)], heap_table(19)) == chart_signature([(0, 3), (1, 2), (1, 3)], heap_table(0)),
{
    lemma_heap_entries();
    lemma_codes_of_word_83(heap_table(19));
    lemma_codes_of_word_5(heap_table(0));
    lemma_charts_agree_through([(0, 3), (1, 2), (1, 3)], heap_table(0), [(2, 3), (0, 1), (1, 3)], heap_table(19), 22, (6, 3, 7, 2, 5, 0, 4, 1));
}

proof fn lemma_chart_2012()
    ensures
        chart_signature([(2, 3), (0, 1), (1, 3)], heap_table(20)) == chart_signature([(0, 3), (1, 2), (1, 3)], heap_table(1)),
{
    lemma_heap_entries();
    lemma_codes_of_word_83(heap_table(20));
    lemma_codes_of_word_5(heap_table(1));
    lemma_charts_agree_through([(0, 3), (1, 2), (1, 3)], heap_table(1), [(2, 3), (0, 1), (1, 3)], heap_table(20), 22, (6, 3, 7, 2, 5, 0, 4, 1));
}

proof fn lemma_chart_2013()
    ensures
        chart_signature([(2, 3), (0, 1), (1, 3)], heap_table(21)) == chart_signature([(0, 3), (1, 2), (1, 3)], heap_table(1)),
{
    lemma_heap_entries();
    lemma_codes_of_word_83(heap_table(21));
    lemma_codes_of_word_5(heap_table(1));
    lemma_charts_agree_through([(0, 3), (1, 2), (1, 3)], heap_table(1), [(2, 3), (0, 1), (1, 3)], heap_table(21), 23, (7, 5, 6, 4, 3, 1, 2, 0));
}

proof fn lemma_chart_2014()
    ensures
        chart_signature([(2, 3), (0, 1), (1, 3)], heap_table(22)) == chart_signature([(0, 3), (1, 2), (1, 3)], heap_table(7)),
{
    lemma_heap_entries();
    lemma_codes_of_word_83(heap_table(22));
    lemma_codes_of_word_5(heap_table(7));
    lemma_charts_agree_through([(0, 3), (1, 2), (1, 3)], heap_table(7), [(2, 3), (0, 1), (1, 3)], heap_table(22), 23, (7, 5, 6, 4, 3, 1, 2, 0));
}

proof fn lemma_chart_2015()
    ensures
        chart_signature([(2, 3), (0, 1), (1, 3)], heap_table(23)) == chart_signature([(0, 3), (1, 2), (1, 3)], heap_table(7)),
{
    lemma_heap_entries();
    lemma_codes_of_word_83(heap_table(23));
    lemma_codes_of_word_5(heap_table(7));
    lemma_charts_agree_through([(0, 3), (1, 2), (1, 3)], heap_table(7), [(2, 3), (0, 1), (1, 3)], heap_table(23), 22, (6, 3, 7, 2, 5, 0, 4, 1));
}

/// Every chart of atlas word 83 shares its signature with the first chart
/// of a class below 216.
pub proof fn lemma_charts_of_word_83()
    ensures
        forall|t: int| 1992 <= t < 2016 ==> #[trigger] meets_class_below(t, 216),
{
    lemma_census_words();
    assert forall|t: int| 1992 <= t < 2016 implies #[trigger] meets_class_below(t, 216) by {
        if t == 1992 { lemma_chart_1992(); assert(atlas_signatures()[class_rep(57)] == atlas_signatures()[1992]); }
        else if t == 1993 { lemma_chart_1993(); assert(atlas_signatures()[class_rep(57)] == atlas_signatures()[1993]); }
        else if t == 1994 { lemma_chart_1994(); assert(atlas_signatures()[class_rep(58)] == atlas_signatures()[1994]); }
        else if t == 1995 { lemma_chart_1995(); assert(atlas_signatures()[class_rep(58)] == atlas_signatures()[1995]); }
        else if t == 1996 { lemma_chart_1996(); assert(atlas_signatures()[class_rep(59)] == atlas_signatures()[1996]); }
        else if t == 1997 { lemma_chart_1997(); assert(atlas_signatures()[class_rep(59)] == atlas_signatures()[1997]); }
        else if t == 1998 { lemma_chart_1998(); assert(atlas_signatures()[class_rep(55)] == atlas_signatures()[1998]); }
        else if t == 1999 { lemma_chart_1999(); assert(atlas_signatures()[class_rep(55)] == atlas_signatures()[1999]); }
        else if t == 2000 { lemma_chart_2000(); assert(atlas_signatures()[class_rep(56)] == atlas_signatures()[2000]); }
        else if t == 2001 { lemma_chart_2001(); assert(atlas_signatures()[class_rep(56)] == atlas_signatures()[2001]); }
        else if t == 2002 { lemma_chart_2002(); assert(atlas_signatures()[class_rep(59)] == atlas_signatures()[2002]); }
        else if t == 2003 { lemma_chart_2003(); assert(atlas_signatures()[class_rep(59)] == atlas_signatures()[2003]); }
        else if t == 2004 { lemma_chart_2004(); assert(atlas_signatures()[class_rep(54)] == atlas_signatures()[2004]); }
        else if t == 2005 { lemma_chart_2005(); assert(atlas_signatures()[class_rep(54)] == atlas_signatures()[2005]); }
        else if t == 2006 { lemma_chart_2006(); assert(atlas_signatures()[class_rep(56)] == atlas_signatures()[2006]); }
        else if t == 2007 { lemma_chart_2007(); assert(atlas_signatures()[class_rep(56)] == atlas_signatures()[2007]); }
        else if t == 2008 { lemma_chart_2008(); assert(atlas_signatures()[class_rep(58)] == atlas_signatures()[2008]); }
        else if t == 2009 { lemma_chart_2009(); assert(atlas_signatures()[class_rep(58)] == atlas_signatures()[2009]); }
        else if t == 2010 { lemma_chart_2010(); assert(atlas_signatures()[class_rep(54)] == atlas_signatures()[2010]); }
        else if t == 2011 { lemma_chart_2011(); assert(atlas_signatures()[class_rep(54)] == atlas_signatures()[2011]); }
        else if t == 2012 { lemma_chart_2012(); assert(atlas_signatures()[class_rep(55)] == atlas_signatures()[2012]); }
        else if t == 2013 { lemma_chart_2013(); assert(atlas_signatures()[class_rep(55)] == atlas_signatures()[2013]); }
        else if t == 2014 { lemma_chart_2014(); assert(atlas_signatures()[class_rep(57)] == atlas_signatures()[2014]); }
        else { lemma_chart_2015(); assert(atlas_signatures()[class_rep(57)] == atlas_signatures()[2015]); }
    }
}

proof fn lemma_chart_2016()
    ensures
        chart_signature([(2, 3), (0, 2), (0, 1)], heap_table(0)) == chart_signature([(0, 3), (0, 2), (0, 1)], heap_table(5)),
{
    lemma_heap_entries();
    lemma_codes_of_word_84(heap_table(0));
    lemma_codes_of_word_38(heap_table(5));
    lemma_charts_agree_through([(0, 3), (0, 2), (0, 1)], heap_table(5), [(2, 3), (0, 2), (0, 1)], heap_table(0), 2, (2, 4, 0, 6, 1, 7, 3, 5));
}

proof fn lemma_chart_2017()
    ensures
        chart_signature([(2, 3), (0, 2), (0, 1)], heap_table(1)) == chart_signature([(0, 3), (0, 2), (0, 1)], heap_table(2)),
{
    lemma_heap_entries();
    lemma_codes_of_word_84(heap_table(1));
    lemma_codes_of_word_38(heap_table(2));
    lemma_charts_agree_through([(0, 3), (0, 2), (0, 1)], heap_table(2), [(2, 3), (0, 2), (0, 1)], heap_table(1), 2, (2, 4, 0, 6, 1, 7, 3, 5));
}

proof fn lemma_chart_2018()
    ensures
        chart_signature([(2, 3), (0, 2), (0, 1)], heap_table(2)) == chart_signature([(0, 3), (0, 2), (0, 1)], heap_table(1)),
{
    lemma_heap_entries();
    lemma_codes_of_word_84(heap_table(2));
    lemma_codes_of_word_38(heap_table(1));
    lemma_charts_agree_through([(0, 3), (0, 2), (0, 1)], heap_table(1), [(2, 3), (0, 2), (0, 1)], heap_table(2), 2, (2, 4, 0, 6, 1, 7, 3, 5));
}

proof fn lemma_chart_2019()
    ensures
        chart_signature([(2, 3), (0, 2), (0, 1)], heap_table(3)) == chart_signature([(0, 3), (0, 2), (0, 1)], heap_table(4)),
{
    lemma_heap_entries();
    lemma_codes_of_word_84(heap_table(3));
    lemma_codes_of_word_38(heap_table(4));
    lemma_charts_agree_through([(0, 3), (0, 2), (0, 1)], heap_table(4), [(2, 3), (0, 2), (0, 1)], heap_table(3), 2, (2, 4, 0, 6, 1, 7, 3, 5));
}

proof fn lemma_chart_2020()
    ensures
        chart_signature([(2, 3), (0, 2), (0, 1)], heap_table(4)) == chart_signature([(0, 3), (0, 2), (0, 1)], heap_table(3)),
{
    lemma_heap_entries();
    lemma_codes_of_word_84(heap_table(4));
    lemma_codes_of_word_38(heap_table(3));
    lemma_charts_agree_through([(0, 3), (0, 2), (0, 1)], heap_table(3), [(2, 3), (0, 2), (0, 1)], heap_table(4), 2, (2, 4, 0, 6, 1, 7, 3, 5));
}

proof fn lemma_chart_2021()
    ensures
        chart_signature([(2, 3), (0, 2), (0, 1)], heap_table(5)) == chart_signature([(0, 3), (0, 2), (0, 1)], heap_table(0)),
{
    lemma_heap_entries();
    lemma_codes_of_word_84(heap_table(5));
    lemma_codes_of_word_38(heap_table(0));
    lemma_charts_agree_through([(0, 3), (0, 2), (0, 1)], heap_table(0), [(2, 3), (0, 2), (0, 1)], heap_table(5), 2, (2, 4, 0, 6, 1, 7, 3, 5));
}

proof fn lemma_chart_2022()
    ensures
        chart_signature([(2, 3), (0, 2), (0, 1)], heap_table(6)) == chart_signature([(0, 3), (0, 2), (0, 1)], heap_table(11)),
{
    lemma_heap_entries();
    lemma_codes_of_word_84(heap_table(6));
    lemma_codes_of_word_38(heap_table(11));
    lemma_charts_agree_through([(0, 3), (0, 2), (0, 1)], heap_table(11), [(2, 3), (0, 2), (0, 1)], heap_table(6), 2, (2, 4, 0, 6, 1, 7, 3, 5));
}

proof fn lemma_chart_2023()
    ensures
        chart_signature([(2, 3), (0, 2), (0, 1)], heap_table(7)) == chart_signature([(0, 3), (0, 2), (0, 1)], heap_table(8)),
{
    lemma_heap_entries();
    lemma_codes_of_word_84(heap_table(7));
    lemma_codes_of_word_38(heap_table(8));
    lemma_charts_agree_through([(0, 3), (0, 2), (0, 1)], heap_table(8), [(2, 3), (0, 2), (0, 1)], heap_table(7), 2, (2, 4, 0, 6, 1, 7, 3, 5));
}

proof fn lemma_chart_2024()
    ensures
        chart_signature([(2, 3), (0, 2), (0, 1)], heap_table(8)) == chart_signature([(0, 3), (0, 2), (0, 1)], heap_table(7)),
{
    lemma_heap_entries();
    lemma_codes_of_word_84(heap_table(8));
    lemma_codes_of_word_38(heap_table(7));
    lemma_charts_agree_through([(0, 3), (0, 2), (0, 1)], heap_table(7), [(2, 3), (0, 2), (0, 1)], heap_table(8), 2, (2, 4, 0, 6, 1, 7, 3, 5));
}

proof fn lemma_chart_2025()
    ensures
        chart_signature([(2, 3), (0, 2), (0, 1)], heap_table(9)) == chart_signature([(0, 3), (0, 2), (0, 1)], heap_table(10)),
{
    lemma_heap_entries();
    lemma_codes_of_word_84(heap_table(9));
    lemma_codes_of_word_38(heap_table(10));
    lemma_charts_agree_through([(0, 3), (0, 2), (0, 1)], heap_table(10), [(2, 3), (0, 2), (0, 1)], heap_table(9), 2, (2, 4, 0, 6, 1, 7, 3, 5));
}

proof fn lemma_chart_2026()
    ensures
        chart_signature([(2, 3), (0, 2), (0, 1)], heap_table(10)) == chart_signature([(0, 3), (0, 2), (0, 1)], heap_table(3)),
{
    lemma_heap_entries();
    lemma_codes_of_word_84(heap_table(10));
    lemma_codes_of_word_38(heap_table(3));
    lemma_charts_agree_through([(0, 3), (0, 2), (0, 1)], heap_table(3), [(2, 3), (0, 2), (0, 1)], heap_table(10), 3, (4, 2, 1, 7, 0, 6, 5, 3));
}

proof fn lemma_chart_2027()
    ensures
        chart_signature([(2, 3), (0, 2), (0, 1)], heap_table(11)) == chart_signature([(0, 3), (0, 2), (0, 1)], heap_table(0)),
{
    lemma_heap_entries();
    lemma_codes_of_word_84(heap_table(11));
    lemma_codes_of_word_38(heap_table(0));
    lemma_charts_agree_through([(0, 3), (0, 2), (0, 1)], heap_table(0), [(2, 3), (0, 2), (0, 1)], heap_table(11), 3, (4, 2, 1, 7, 0, 6, 5, 3));
}

proof fn lemma_chart_2028()
    ensures
        chart_signature([(2, 3), (0, 2), (0, 1)], heap_table(12)) == chart_signature([(0, 3), (0, 2), (0, 1)], heap_table(17)),
{
    lemma_heap_entries();
    lemma_codes_of_word_84(heap_table(12));
    lemma_codes_of_word_38(heap_table(17));
    lemma_charts_agree_through([(0, 3), (0, 2), (0, 1)], heap_table(17), [(2, 3), (0, 2), (0, 1)], heap_table(12), 2, (2, 4, 0, 6, 1, 7, 3, 5));
}

proof fn lemma_chart_2029()
    ensures
        chart_signature([(2, 3), (0, 2), (0, 1)], heap_table(13)) == chart_signature([(0, 3), (0, 2), (0, 1)], heap_table(14)),
{
    lemma_heap_entries();
    lemma_codes_of_word_84(heap_table(13));
    lemma_codes_of_word_38(heap_table(14));
    lemma_charts_agree_through([(0, 3), (0, 2), (0, 1)], heap_table(14), [(2, 3), (0, 2), (0, 1)], heap_table(13), 2, (2, 4, 0, 6, 1, 7, 3, 5));
}

proof fn lemma_chart_2030()
    ensures
        chart_signature([(2, 3), (0, 2), (0, 1)], heap_table(14)) == chart_signature([(0, 3), (0, 2), (0, 1)], heap_table(7)),
{
    lemma_heap_entries();
    lemma_codes_of_word_84(heap_table(14));
    lemma_codes_of_word_38(heap_table(7));
    lemma_charts_agree_through([(0, 3), (0, 2), (0, 1)], heap_table(7), [(2, 3), (0, 2), (0, 1)], heap_table(14), 3, (4, 2, 1, 7, 0, 6, 5, 3));
}

proof fn lemma_chart_2031()
    ensures
        chart_signature([(2, 3), (0, 2), (0, 1)], heap_table(15)) == chart_signature([(0, 3), (0, 2), (0, 1)], heap_table(10)),
{
    lemma_heap_entries();
    lemma_codes_of_word_84(heap_table(15));
    lemma_codes_of_word_38(heap_table(10));
    lemma_charts_agree_through([(0, 3), (0, 2), (0, 1)], heap_table(10), [(2, 3), (0, 2), (0, 1)], heap_table(15), 3, (4, 2, 1, 7, 0, 6, 5, 3));
}

proof fn lemma_chart_2032()
    ensures
        chart_signature([(2, 3), (0, 2), (0, 1)], heap_table(16)) == chart_signature([(0, 3), (0, 2), (0, 1)], heap_table(4)),
{
    lemma_heap_entries();
    lemma_codes_of_word_84(heap_table(16));
    lemma_codes_of_word_38(heap_table(4));
    lemma_charts_agree_through([(0, 3), (0, 2), (0, 1)], heap_table(4), [(2, 3), (0, 2), (0, 1)], heap_table(16), 3, (4, 2, 1, 7, 0, 6, 5, 3));
}

proof fn lemma_chart_2033()
    ensures
        chart_signature([(2, 3), (0, 2), (0, 1)], heap_table(17)) == chart_signature([(0, 3), (0, 2), (0, 1)], heap_table(1)),
{
    lemma_heap_entries();
    lemma_codes_of_word_84(heap_table(17));
    lemma_codes_of_word_38(heap_table(1));
    lemma_charts_agree_through([(0, 3), (0, 2), (0, 1)], heap_table(1), [(2, 3), (0, 2), (0, 1)], heap_table(17), 3, (4, 2, 1, 7, 0, 6, 5, 3));
}

proof fn lemma_chart_2034()
    ensures
        chart_signature([(2, 3), (0, 2), (0, 1)], heap_table(18)) == chart_signature([(0, 3), (0, 2), (0, 1)], heap_table(17)),
{
    lemma_heap_entries();
    lemma_codes_of_word_84(heap_table(18));
    lemma_codes_of_word_38(heap_table(17));
    lemma_charts_agree_through([(0, 3), (0, 2), (0, 1)], heap_table(17), [(2, 3), (0, 2), (0, 1)], heap_table(18), 3, (4, 2, 1, 7, 0, 6, 5, 3));
}

proof fn lemma_chart_2035()
    ensures
        chart_signature([(2, 3), (0, 2), (0, 1)], heap_table(19)) == chart_signature([(0, 3), (0, 2), (0, 1)], heap_table(14)),
{
    lemma_heap_entries();
    lemma_codes_of_word_84(heap_table(19));
    lemma_codes_of_word_38(heap_table(14));
    lemma_charts_agree_through([(0, 3), (0, 2), (0, 1)], heap_table(14), [(2, 3), (0, 2), (0, 1)], heap_table(19), 3, (4, 2, 1, 7, 0, 6, 5, 3));
}

proof fn lemma_chart_2036()
    ensures
        chart_signature([(2, 3), (0, 2), (0, 1)], heap_table(20)) == chart_signature([(0, 3), (0, 2), (0, 1)], heap_table(8)),
{
    lemma_heap_entries();
    lemma_codes_of_word_84(heap_table(20));
    lemma_codes_of_word_38(heap_table(8));
    lemma_charts_agree_through([(0, 3), (0, 2), (0, 1)], heap_table(8), [(2, 3), (0, 2), (0, 1)], heap_table(20), 3, (4, 2, 1, 7, 0, 6, 5, 3));
}

proof fn lemma_chart_2037()
    ensures
        chart_signature([(2, 3), (0, 2), (0, 1)], heap_table(21)) == chart_signature([(0, 3), (0, 2), (0, 1)], heap_table(11)),
{
    lemma_heap_entries();
    lemma_codes_of_word_84(heap_table(21));
    lemma_codes_of_word_38(heap_table(11));
    lemma_charts_agree_through([(0, 3), (0, 2), (0, 1)], heap_table(11), [(2, 3), (0, 2), (0, 1)], heap_table(21), 3, (4, 2, 1, 7, 0, 6, 5, 3));
}

proof fn lemma_chart_2038()
    ensures
        chart_signature([(2, 3), (0, 2), (0, 1)], heap_table(22)) == chart_signature([(0, 3), (0, 2), (0, 1)], heap_table(5)),
{
    lemma_heap_entries();
    lemma_codes_of_word_84(heap_table(22));
    lemma_codes_of_word_38(heap_table(5));
    lemma_charts_agree_through([(0, 3), (0, 2), (0, 1)], heap_table(5), [(2, 3), (0, 2), (0, 1)], heap_table(22), 3, (4, 2, 1, 7, 0, 6, 5, 3));
}

proof fn lemma_chart_2039()
    ensures
        chart_signature([(2, 3), (0, 2), (0, 1)], heap_table(23)) == chart_signature([(0, 3), (0, 2), (0, 1)], heap_table(2)),
{
    lemma_heap_entries();
    lemma_codes_of_word_84(heap_table(23));
    lemma_codes_of_word_38(heap_table(2));
    lemma_charts_agree_through([(0, 3), (0, 2), (0, 1)], heap_table(2), [(2, 3), (0, 2), (0, 1)], heap_table(23), 3, (4, 2, 1, 7, 0, 6, 5, 3));
}

/// Every chart of atlas word 84 shares its signature with the first chart
/// of a class below 216.
pub proof fn lemma_charts_of_word_84()
    ensures
        forall|t: int| 2016 <= t < 2040 ==> #[trigger] meets_class_below(t, 216),
{
    lemma_census_words();
    assert forall|t: int| 2016 <= t < 2040 implies #[trigger] meets_class_below(t, 216) by {
        if t == 2016 { lemma_chart_2016(); assert(atlas_signatures()[class_rep(209)] == atlas_signatures()[2016]); }
        else if t == 2017 { lemma_chart_2017(); assert(atlas_signatures()[class_rep(206)] == atlas_signatures()[2017]); }
        else if t == 2018 { lemma_chart_2018(); assert(atlas_signatures()[class_rep(205)] == atlas_signatures()[2018]); }
        else if t == 2019 { lemma_chart_2019(); assert(atlas_signatures()[class_rep(208)] == atlas_signatures()[2019]); }
        else if t == 2020 { lemma_chart_2020(); assert(atlas_signatures()[class_rep(207)] == atlas_signatures()[2020]); }
        else if t == 2021 { lemma_chart_2021(); assert(atlas_signatures()[class_rep(204)] == atlas_signatures()[2021]); }
        else if t == 2022 { lemma_chart_2022(); assert(atlas_signatures()[class_rep(213)] == atlas_signatures()[2022]); }
        else if t == 2023 { lemma_chart_2023(); assert(atlas_signatures()[class_rep(211)] == atlas_signatures()[2023]); }
        else if t == 2024 { lemma_chart_2024(); assert(atlas_signatures()[class_rep(210)] == atlas_signatures()[2024]); }
        else if t == 2025 { lemma_chart_2025(); assert(atlas_signatures()[class_rep(212)] == atlas_signatures()[2025]); }
        else if t == 2026 { lemma_chart_2026(); assert(atlas_signatures()[class_rep(207)] == atlas_signatures()[2026]); }
        else if t == 2027 { lemma_chart_2027(); assert(atlas_signatures()[class_rep(204)] == atlas_signatures()[2027]); }
        else if t == 2028 { lemma_chart_2028(); assert(atlas_signatures()[class_rep(215)] == atlas_signatures()[2028]); }
        else if t == 2029 { lemma_chart_2029(); assert(atlas_signatures()[class_rep(214)] == atlas_signatures()[2029]); }
        else if t == 2030 { lemma_chart_2030(); assert(atlas_signatures()[class_rep(210)] == atlas_signatures()[2030]); }
        else if t == 2031 { lemma_chart_2031(); assert(atlas_signatures()[class_rep(212)] == atlas_signatures()[2031]); }
        else if t == 2032 { lemma_chart_2032(); assert(atlas_signatures()[class_rep(208)] == atlas_signatures()[2032]); }
        else if t == 2033 { lemma_chart_2033(); assert(atlas_signatures()[class_rep(205)] == atlas_signatures()[2033]); }
        else if t == 2034 { lemma_chart_2034(); assert(atlas_signatures()[class_rep(215)] == atlas_signatures()[2034]); }
        else if t == 2035 { lemma_chart_2035(); assert(atlas_signatures()[class_rep(214)] == atlas_signatures()[2035]); }
        else if t == 2036 { lemma_chart_2036(); assert(atlas_signatures()[class_rep(211)] == atlas_signatures()[2036]); }
        else if t == 2037 { lemma_chart_2037(); assert(atlas_signatures()[class_rep(213)] == atlas_signatures()[2037]); }
        else if t == 2038 { lemma_chart_2038(); assert(atlas_signatures()[class_rep(209)] == atlas_signatures()[2038]); }
        else { lemma_chart_2039(); assert(atlas_signatures()[class_rep(206)] == atlas_signatures()[2039]); }
    }
}

proof fn lemma_chart_2040()
    ensures
        chart_signature([(2, 3), (0, 2), (1, 2)], heap_table(0)) == chart_signature([(0, 3), (0, 1), (1, 2)], heap_table(2)),
{
    lemma_heap_entries();
    lemma_codes_of_word_85(heap_table(0));
    lemma_codes_of_word_36(heap_table(2));
    lemma_charts_agree_through([(0, 3), (0, 1), (1, 2)], heap_table(2), [(2, 3), (0, 2), (1, 2)], heap_table(0), 6, (6, 7, 3, 2, 5, 4, 0, 1));
}

proof fn lemma_chart_2041()
    ensures
        chart_signature([(2, 3), (0, 2), (1, 2)], heap_table(1)) == chart_signature([(0, 3), (0, 1), (1, 2)], heap_table(5)),
{
    lemma_heap_entries();
    lemma_codes_of_word_85(heap_table(1));
    lemma_codes_of_word_36(heap_table(5));
    lemma_charts_agree_through([(0, 3), (0, 1), (1, 2)], heap_table(5), [(2, 3), (0, 2), (1, 2)], heap_table(1), 6, (6, 7, 3, 2, 5, 4, 0, 1));
}

proof fn lemma_chart_2042()
    ensures
        chart_signature([(2, 3), (0, 2), (1, 2)], heap_table(2)) == chart_signature([(0, 3), (0, 1), (1, 2)], heap_table(4)),
{
    lemma_heap_entries();
    lemma_codes_of_word_85(heap_table(2));
    lemma_codes_of_word_36(heap_table(4));
    lemma_charts_agree_through([(0, 3), (0, 1), (1, 2)], heap_table(4), [(2, 3), (0, 2), (1, 2)], heap_table(2), 6, (6, 7, 3, 2, 5, 4, 0, 1));
}

proof fn lemma_chart_2043()
    ensures
        chart_signature([(2, 3), (0, 2), (1, 2)], heap_table(3)) == chart_signature([(0, 3), (0, 1), (1, 2)], heap_table(1)),
{
    lemma_heap_entries();
    lemma_codes_of_word_85(heap_table(3));
    lemma_codes_of_word_36(heap_table(1));
    lemma_charts_agree_through([(0, 3), (0, 1), (1, 2)], heap_table(1), [(2, 3), (0, 2), (1, 2)], heap_table(3), 6, (6, 7, 3, 2, 5, 4, 0, 1));
}

proof fn lemma_chart_2044()
    ensures
        chart_signature([(2, 3), (0, 2), (1, 2)], heap_table(4)) == chart_signature([(0, 3), (0, 1), (1, 2)], heap_table(0)),
{
    lemma_heap_entries();
    lemma_codes_of_word_85(heap_table(4));
    lemma_codes_of_word_36(heap_table(0));
    lemma_charts_agree_through([(0, 3), (0, 1), (1, 2)], heap_table(0), [(2, 3), (0, 2), (1, 2)], heap_table(4), 6, (6, 7, 3, 2, 5, 4, 0, 1));
}

proof fn lemma_chart_2045()
    ensures
        chart_signature([(2, 3), (0, 2), (1, 2)], heap_table(5)) == chart_signature([(0, 3), (0, 1), (1, 2)], heap_table(3)),
{
    lemma_heap_entries();
    lemma_codes_of_word_85(heap_table(5));
    lemma_codes_of_word_36(heap_table(3));
    lemma_charts_agree_through([(0, 3), (0, 1), (1, 2)], heap_table(3), [(2, 3), (0, 2), (1, 2)], heap_table(5), 6, (6, 7, 3, 2, 5, 4, 0, 1));
}

proof fn lemma_chart_2046()
    ensures
        chart_signature([(2, 3), (0, 2), (1, 2)], heap_table(6)) == chart_signature([(0, 3), (0, 1), (1, 2)], heap_table(8)),
{
    lemma_heap_entries();
    lemma_codes_of_word_85(heap_table(6));
    lemma_codes_of_word_36(heap_table(8));
    lemma_charts_agree_through([(0, 3), (0, 1), (1, 2)], heap_table(8), [(2, 3), (0, 2), (1, 2)], heap_table(6), 6, (6, 7, 3, 2, 5, 4, 0, 1));
}

proof fn lemma_chart_2047()
    ensures
        chart_signature([(2, 3), (0, 2), (1, 2)], heap_table(7)) == chart_signature([(0, 3), (0, 1), (1, 2)], heap_table(11)),
{
    lemma_heap_entries();
    lemma_codes_of_word_85(heap_table(7));
    lemma_codes_of_word_36(heap_table(11));
    lemma_charts_agree_through([(0, 3), (0, 1), (1, 2)], heap_table(11), [(2, 3), (0, 2), (1, 2)], heap_table(7), 6, (6, 7, 3, 2, 5, 4, 0, 1));
}

proof fn lemma_chart_2048()
    ensures
        chart_signature([(2, 3), (0, 2), (1, 2)], heap_table(8)) == chart_signature([(0, 3), (0, 1), (1, 2)], heap_table(10)),
{
    lemma_heap_entries();
    lemma_codes_of_word_85(heap_table(8));
    lemma_codes_of_word_36(heap_table(10));
    lemma_charts_agree_through([(0, 3), (0, 1), (1, 2)], heap_table(10), [(2, 3), (0, 2), (1, 2)], heap_table(8), 6, (6, 7, 3, 2, 5, 4, 0, 1));
}

proof fn lemma_chart_2049()
    ensures
        chart_signature([(2, 3), (0, 2), (1, 2)], heap_table(9)) == chart_signature([(0, 3), (0, 1), (1, 2)], heap_table(7)),
{
    lemma_heap_entries();
    lemma_codes_of_word_85(heap_table(9));
    lemma_codes_of_word_36(heap_table(7));
    lemma_charts_agree_through([(0, 3), (0, 1), (1, 2)], heap_table(7), [(2, 3), (0, 2), (1, 2)], heap_table(9), 6, (6, 7, 3, 2, 5, 4, 0, 1));
}

proof fn lemma_chart_2050()
    ensures
        chart_signature([(2, 3), (0, 2), (1, 2)], heap_table(10)) == chart_signature([(0, 3), (0, 1), (1, 2)], heap_table(0)),
{
    lemma_heap_entries();
    lemma_codes_of_word_85(heap_table(10));
    lemma_codes_of_word_36(heap_table(0));
    lemma_charts_agree_through([(0, 3), (0, 1), (1, 2)], heap_table(0), [(2, 3), (0, 2), (1, 2)], heap_table(10), 7, (7, 6, 5, 4, 3, 2, 1, 0));
}

proof fn lemma_chart_2051()
    ensures
        chart_signature([(2, 3), (0, 2), (1, 2)], heap_table(11)) == chart_signature([(0, 3), (0, 1), (1, 2)], heap_table(3)),
{
    lemma_heap_entries();
    lemma_codes_of_word_85(heap_table(11));
    lemma_codes_of_word_36(heap_table(3));
    lemma_charts_agree_through([(0, 3), (0, 1), (1, 2)], heap_table(3), [(2, 3), (0, 2), (1, 2)], heap_table(11), 7, (7, 6, 5, 4, 3, 2, 1, 0));
}

proof fn lemma_chart_2052()
    ensures
        chart_signature([(2, 3), (0, 2), (1, 2)], heap_table(12)) == chart_signature([(0, 3), (0, 1), (1, 2)], heap_table(14)),
{
    lemma_heap_entries();
    lemma_codes_of_word_85(heap_table(12));
    lemma_codes_of_word_36(heap_table(14));
    lemma_charts_agree_through([(0, 3), (0, 1), (1, 2)], heap_table(14), [(2, 3), (0, 2), (1, 2)], heap_table(12), 6, (6, 7, 3, 2, 5, 4, 0, 1));
}

proof fn lemma_chart_2053()
    ensures
        chart_signature([(2, 3), (0, 2), (1, 2)], heap_table(13)) == chart_signature([(0, 3), (0, 1), (1, 2)], heap_table(17)),
{
    lemma_heap_entries();
    lemma_codes_of_word_85(heap_table(13));
    lemma_codes_of_word_36(heap_table(17));
    lemma_charts_agree_through([(0, 3), (0, 1), (1, 2)], heap_table(17), [(2, 3), (0, 2), (1, 2)], heap_table(13), 6, (6, 7, 3, 2, 5, 4, 0, 1));
}

proof fn lemma_chart_2054()
    ensures
        chart_signature([(2, 3), (0, 2), (1, 2)], heap_table(14)) == chart_signature([(0, 3), (0, 1), (1, 2)], heap_table(10)),
{
    lemma_heap_entries();
    lemma_codes_of_word_85(heap_table(14));
    lemma_codes_of_word_36(heap_table(10));
    lemma_charts_agree_through([(0, 3), (0, 1), (1, 2)], heap_table(10), [(2, 3), (0, 2), (1, 2)], heap_table(14), 7, (7, 6, 5, 4, 3, 2, 1, 0));
}

proof fn lemma_chart_2055()
    ensures
        chart_signature([(2, 3), (0, 2), (1, 2)], heap_table(15)) == chart_signature([(0, 3), (0, 1), (1, 2)], heap_table(7)),
{
    lemma_heap_entries();
    lemma_codes_of_word_85(heap_table(15));
    lemma_codes_of_word_36(heap_table(7));
    lemma_charts_agree_through([(0, 3), (0, 1), (1, 2)], heap_table(7), [(2, 3), (0, 2), (1, 2)], heap_table(15), 7, (7, 6, 5, 4, 3, 2, 1, 0));
}

proof fn lemma_chart_2056()
    ensures
        chart_signature([(2, 3), (0, 2), (1, 2)], heap_table(16)) == chart_signature([(0, 3), (0, 1), (1, 2)], heap_table(1)),
{
    lemma_heap_entries();
    lemma_codes_of_word_85(heap_table(16));
    lemma_codes_of_word_36(heap_table(1));
    lemma_charts_agree_through([(0, 3), (0, 1), (1, 2)], heap_table(1), [(2, 3), (0, 2), (1, 2)], heap_table(16), 7, (7, 6, 5, 4, 3, 2, 1, 0));
}

proof fn lemma_chart_2057()
    ensures
        chart_signature([(2, 3), (0, 2), (1, 2)], heap_table(17)) == chart_signature([(0, 3), (0, 1), (1, 2)], heap_table(4)),
{
    lemma_heap_entries();
    lemma_codes_of_word_85(heap_table(17));
    lemma_codes_of_word_36(heap_table(4));
    lemma_charts_agree_through([(0, 3), (0, 1), (1, 2)], heap_table(4), [(2, 3), (0, 2), (1, 2)], heap_table(17), 7, (7, 6, 5, 4, 3, 2, 1, 0));
}

proof fn lemma_chart_2058()
    ensures
        chart_signature([(2, 3), (0, 2), (1, 2)], heap_table(18)) == chart_signature([(0, 3), (0, 1), (1, 2)], heap_table(14)),
{
    lemma_heap_entries();
    lemma_codes_of_word_85(heap_table(18));
    lemma_codes_of_word_36(heap_table(14));
    lemma_charts_agree_through([(0, 3), (0, 1), (1, 2)], heap_table(14), [(2, 3), (0, 2), (1, 2)], heap_table(18), 7, (7, 6, 5, 4, 3, 2, 1, 0));
}

proof fn lemma_chart_2059()
    ensures
        chart_signature([(2, 3), (0, 2), (1, 2)], heap_table(19)) == chart_signature([(0, 3), (0, 1), (1, 2)], heap_table(17)),
{
    lemma_heap_entries();
    lemma_codes_of_word_85(heap_table(19));
    lemma_codes_of_word_36(heap_table(17));
    lemma_charts_agree_through([(0, 3), (0, 1), (1, 2)], heap_table(17), [(2, 3), (0, 2), (1, 2)], heap_table(19), 7, (7, 6, 5, 4, 3, 2, 1, 0));
}

proof fn lemma_chart_2060()
    ensures
        chart_signature([(2, 3), (0, 2), (1, 2)], heap_table(20)) == chart_signature([(0, 3), (0, 1), (1, 2)], heap_table(11)),
{
    lemma_heap_entries();
    lemma_codes_of_word_85(heap_table(20));
    lemma_codes_of_word_36(heap_table(11));
    lemma_charts_agree_through([(0, 3), (0, 1), (1, 2)], heap_table(11), [(2, 3), (0, 2), (1, 2)], heap_table(20), 7, (7, 6, 5, 4, 3, 2, 1, 0));
}

proof fn lemma_chart_2061()
    ensures
        chart_signature([(2, 3), (0, 2), (1, 2)], heap_table(21)) == chart_signature([(0, 3), (0, 1), (1, 2)], heap_table(8)),
{
    lemma_heap_entries();
    lemma_codes_of_word_85(heap_table(21));
    lemma_codes_of_word_36(heap_table(8));
    lemma_charts_agree_through([(0, 3), (0, 1), (1, 2)], heap_table(8), [(2, 3), (0, 2), (1, 2)], heap_table(21), 7, (7, 6, 5, 4, 3, 2, 1, 0));
}

proof fn lemma_chart_2062()
    ensures
        chart_signature([(2, 3), (0, 2), (1, 2)], heap_table(22)) == chart_signature([(0, 3), (0, 1), (1, 2)], heap_table(2)),
{
    lemma_heap_entries();
    lemma_codes_of_word_85(heap_table(22));
    lemma_codes_of_word_36(heap_table(2));
    lemma_charts_agree_through([(0, 3), (0, 1), (1, 2)], heap_table(2), [(2, 3), (0, 2), (1, 2)], heap_table(22), 7, (7, 6, 5, 4, 3, 2, 1, 0));
}

proof fn lemma_chart_2063()
    ensures
        chart_signature([(2, 3), (0, 2), (1, 2)], heap_table(23)) == chart_signature([(0, 3), (0, 1), (1, 2)], heap_table(5)),
{
    lemma_heap_entries();
    lemma_codes_of_word_85(heap_table(23));
    lemma_codes_of_word_36(heap_table(5));
    lemma_charts_agree_through([(0, 3), (0, 1), (1, 2)], heap_table(5), [(2, 3), (0, 2), (1, 2)], heap_table(23), 7, (7, 6, 5, 4, 3, 2, 1, 0));
}

/// Every chart of atlas word 85 shares its signature with the first chart
/// of a class below 216.
pub proof fn lemma_charts_of_word_85()
    ensures
        forall|t: int| 2040 <= t < 2064 ==> #[trigger] meets_class_below(t, 216),
{
    lemma_census_words();
    assert forall|t: int| 2040 <= t < 2064 implies #[trigger] meets_class_below(t, 216) by {
        if t == 2040 { lemma_chart_2040(); assert(atlas_signatures()[class_rep(194)] == atlas_signatures()[2040]); }
        else if t == 2041 { lemma_chart_2041(); assert(atlas_signatures()[class_rep(197)] == atlas_signatures()[2041]); }
        else if t == 2042 { lemma_chart_2042(); assert(atlas_signatures()[class_rep(196)] == atlas_signatures()[2042]); }
        else if t == 2043 { lemma_chart_2043(); assert(atlas_signatures()[class_rep(193)] == atlas_signatures()[2043]); }
        else if t == 2044 { lemma_chart_2044(); assert(atlas_signatures()[class_rep(192)] == atlas_signatures()[2044]); }
        else if t == 2045 { lemma_chart_2045(); assert(atlas_signatures()[class_rep(195)] == atlas_signatures()[2045]); }
        else if t == 2046 { lemma_chart_2046(); assert(atlas_signatures()[class_rep(199)] == atlas_signatures()[2046]); }
        else if t == 2047 { lemma_chart_2047(); assert(atlas_signatures()[class_rep(201)] == atlas_signatures()[2047]); }
        else if t == 2048 { lemma_chart_2048(); assert(atlas_signatures()[class_rep(200)] == atlas_signatures()[2048]); }
        else if t == 2049 { lemma_chart_2049(); assert(atlas_signatures()[class_rep(198)] == atlas_signatures()[2049]); }
        else if t == 2050 { lemma_chart_2050(); assert(atlas_signatures()[class_rep(192)] == atlas_signatures()[2050]); }
        else if t == 2051 { lemma_chart_2051(); assert(atlas_signatures()[class_rep(195)] == atlas_signatures()[2051]); }
        else if t == 2052 { lemma_chart_2052(); assert(atlas_signatures()[class_rep(202)] == atlas_signatures()[2052]); }
        else if t == 2053 { lemma_chart_2053(); assert(atlas_signatures()[class_rep(203)] == atlas_signatures()[2053]); }
        else if t == 2054 { lemma_chart_2054(); assert(atlas_signatures()[class_rep(200)] == atlas_signatures()[2054]); }
        else if t == 2055 { lemma_chart_2055(); assert(atlas_signatures()[class_rep(198)] == atlas_signatures()[2055]); }
        else if t == 2056 { lemma_chart_2056(); assert(atlas_signatures()[class_rep(193)] == atlas_signatures()[2056]); }
        else if t == 2057 { lemma_chart_2057(); assert(atlas_signatures()[class_rep(196)] == atlas_signatures()[2057]); }
        else if t == 2058 { lemma_chart_2058(); assert(atlas_signatures()[class_rep(202)] == atlas_signatures()[2058]); }
        else if t == 2059 { lemma_chart_2059(); assert(atlas_signatures()[class_rep(203)] == atlas_signatures()[2059]); }
        else if t == 2060 { lemma_chart_2060(); assert(atlas_signatures()[class_rep(201)] == atlas_signatures()[2060]); }
        else if t == 2061 { lemma_chart_2061(); assert(atlas_signatures()[class_rep(199)] == atlas_signatures()[2061]); }
        else if t == 2062 { lemma_chart_2062(); assert(atlas_signatures()[class_rep(194)] == atlas_signatures()[2062]); }
        else { lemma_chart_2063(); assert(atlas_signatures()[class_rep(197)] == atlas_signatures()[2063]); }
    }
}

proof fn lemma_chart_2064()
    ensures
        chart_signature([(2, 3), (0, 2), (1, 3)], heap_table(0)) == chart_signature([(0, 1), (0, 2), (1, 3)], heap_table(14)),
{
    lemma_heap_entries();
    lemma_codes_of_word_86(heap_table(0));
    lemma_codes_of_word_7(heap_table(14));
    lemma_charts_agree_through([(0, 1), (0, 2), (1, 3)], heap_table(14), [(2, 3), (0, 2), (1, 3)], heap_table(0), 6, (6, 7, 3, 2, 5, 4, 0, 1));
}

proof fn lemma_chart_2065()
    ensures
        chart_signature([(2, 3), (0, 2), (1, 3)], heap_table(1)) == chart_signature([(0, 1), (0, 2), (1, 3)], heap_table(8)),
{
    lemma_heap_entries();
    lemma_codes_of_word_86(heap_table(1));
    lemma_codes_of_word_7(heap_table(8));
    lemma_charts_agree_through([(0, 1), (0, 2), (1, 3)], heap_table(8), [(2, 3), (0, 2), (1, 3)], heap_table(1), 6, (6, 7, 3, 2, 5, 4, 0, 1));
}

proof fn lemma_chart_2066()
    ensures
        chart_signature([(2, 3), (0, 2), (1, 3)], heap_table(2)) == chart_signature([(0, 1), (0, 2), (1, 3)], heap_table(6)),
{
    lemma_heap_entries();
    lemma_codes_of_word_86(heap_table(2));
    lemma_codes_of_word_7(heap_table(6));
    lemma_charts_agree_through([(0, 1), (0, 2), (1, 3)], heap_table(6), [(2, 3), (0, 2), (1, 3)], heap_table(2), 7, (7, 6, 5, 4, 3, 2, 1, 0));
}

proof fn lemma_chart_2067()
    ensures
        chart_signature([(2, 3), (0, 2), (1, 3)], heap_table(3)) == chart_signature([(0, 1), (0, 2), (1, 3)], heap_table(20)),
{
    lemma_heap_entries();
    lemma_codes_of_word_86(heap_table(3));
    lemma_codes_of_word_7(heap_table(20));
    lemma_charts_agree_through([(0, 1), (0, 2), (1, 3)], heap_table(20), [(2, 3), (0, 2), (1, 3)], heap_table(3), 6, (6, 7, 3, 2, 5, 4, 0, 1));
}

proof fn lemma_chart_2068()
    ensures
        chart_signature([(2, 3), (0, 2), (1, 3)], heap_table(4)) == chart_signature([(0, 1), (0, 2), (1, 3)], heap_table(18)),
{
    lemma_heap_entries();
    lemma_codes_of_word_86(heap_table(4));
    lemma_codes_of_word_7(heap_table(18));
    lemma_charts_agree_through([(0, 1), (0, 2), (1, 3)], heap_table(18), [(2, 3), (0, 2), (1, 3)], heap_table(4), 7, (7, 6, 5, 4, 3, 2, 1, 0));
}

proof fn lemma_chart_2069()
    ensures
        chart_signature([(2, 3), (0, 2), (1, 3)], heap_table(5)) == chart_signature([(0, 1), (0, 2), (1, 3)], heap_table(12)),
{
    lemma_heap_entries();
    lemma_codes_of_word_86(heap_table(5));
    lemma_codes_of_word_7(heap_table(12));
    lemma_charts_agree_through([(0, 1), (0, 2), (1, 3)], heap_table(12), [(2, 3), (0, 2), (1, 3)], heap_table(5), 7, (7, 6, 5, 4, 3, 2, 1, 0));
}

proof fn lemma_chart_2070()
    ensures
        chart_signature([(2, 3), (0, 2), (1, 3)], heap_table(6)) == chart_signature([(0, 1), (0, 2), (1, 3)], heap_table(16)),
{
    lemma_heap_entries();
    lemma_codes_of_word_86(heap_table(6));
    lemma_codes_of_word_7(heap_table(16));
    lemma_charts_agree_through([(0, 1), (0, 2), (1, 3)], heap_table(16), [(2, 3), (0, 2), (1, 3)], heap_table(6), 7, (7, 6, 5, 4, 3, 2, 1, 0));
}

proof fn lemma_chart_2071()
    ensures
        chart_signature([(2, 3), (0, 2), (1, 3)], heap_table(7)) == chart_signature([(0, 1), (0, 2), (1, 3)], heap_table(2)),
{
    lemma_heap_entries();
    lemma_codes_of_word_86(heap_table(7));
    lemma_codes_of_word_7(heap_table(2));
    lemma_charts_agree_through([(0, 1), (0, 2), (1, 3)], heap_table(2), [(2, 3), (0, 2), (1, 3)], heap_table(7), 6, (6, 7, 3, 2, 5, 4, 0, 1));
}

proof fn lemma_chart_2072()
    ensures
        chart_signature([(2, 3), (0, 2), (1, 3)], heap_table(8)) == chart_signature([(0, 1), (0, 2), (1, 3)], heap_table(0)),
{
    lemma_heap_entries();
    lemma_codes_of_word_86(heap_table(8));
    lemma_codes_of_word_7(heap_table(0));
    lemma_charts_agree_through([(0, 1), (0, 2), (1, 3)], heap_table(0), [(2, 3), (0, 2), (1, 3)], heap_table(8), 7, (7, 6, 5, 4, 3, 2, 1, 0));
}

proof fn lemma_chart_2073()
    ensures
        chart_signature([(2, 3), (0, 2), (1, 3)], heap_table(9)) == chart_signature([(0, 1), (0, 2), (1, 3)], heap_table(22)),
{
    lemma_heap_entries();
    lemma_codes_of_word_86(heap_table(9));
    lemma_codes_of_word_7(heap_table(22));
    lemma_charts_agree_through([(0, 1), (0, 2), (1, 3)], heap_table(22), [(2, 3), (0, 2), (1, 3)], heap_table(9), 7, (7, 6, 5, 4, 3, 2, 1, 0));
}

proof fn lemma_chart_2074()
    ensures
        chart_signature([(2, 3), (0, 2), (1, 3)], heap_table(10)) == chart_signature([(0, 1), (0, 2), (1, 3)], heap_table(18)),
{
    lemma_heap_entries();
    lemma_codes_of_word_86(heap_table(10));
    lemma_codes_of_word_7(heap_table(18));
    lemma_charts_agree_through([(0, 1), (0, 2), (1, 3)], heap_table(18), [(2, 3), (0, 2), (1, 3)], heap_table(10), 6, (6, 7, 3, 2, 5, 4, 0, 1));
}

proof fn lemma_chart_2075()
    ensures
        chart_signature([(2, 3), (0, 2), (1, 3)], heap_table(11)) == chart_signature([(0, 1), (0, 2), (1, 3)], heap_table(12)),
{
    lemma_heap_entries();
    lemma_codes_of_word_86(heap_table(11));
    lemma_codes_of_word_7(heap_table(12));
    lemma_charts_agree_through([(0, 1), (0, 2), (1, 3)], heap_table(12), [(2, 3), (0, 2), (1, 3)], heap_table(11), 6, (6, 7, 3, 2, 5, 4, 0, 1));
}

proof fn lemma_chart_2076()
    ensures
        chart_signature([(2, 3), (0, 2), (1, 3)], heap_table(12)) == chart_signature([(0, 1), (0, 2), (1, 3)], heap_table(10)),
{
    lemma_heap_entries();
    lemma_codes_of_word_86(heap_table(12));
    lemma_codes_of_word_7(heap_table(10));
    lemma_charts_agree_through([(0, 1), (0, 2), (1, 3)], heap_table(10), [(2, 3), (0, 2), (1, 3)], heap_table(12), 7, (7, 6, 5, 4, 3, 2, 1, 0));
}

proof fn lemma_chart_2077()
    ensures
        chart_signature([(2, 3), (0, 2), (1, 3)], heap_table(13)) == chart_signature([(0, 1), (0, 2), (1, 3)], heap_table(4)),
{
    lemma_heap_entries();
    lemma_codes_of_word_86(heap_table(13));
    lemma_codes_of_word_7(heap_table(4));
    lemma_charts_agree_through([(0, 1), (0, 2), (1, 3)], heap_table(4), [(2, 3), (0, 2), (1, 3)], heap_table(13), 7, (7, 6, 5, 4, 3, 2, 1, 0));
}

proof fn lemma_chart_2078()
    ensures
        chart_signature([(2, 3), (0, 2), (1, 3)], heap_table(14)) == chart_signature([(0, 1), (0, 2), (1, 3)], heap_table(0)),
{
    lemma_heap_entries();
    lemma_codes_of_word_86(heap_table(14));
    lemma_codes_of_word_7(heap_table(0));
    lemma_charts_agree_through([(0, 1), (0, 2), (1, 3)], heap_table(0), [(2, 3), (0, 2), (1, 3)], heap_table(14), 6, (6, 7, 3, 2, 5, 4, 0, 1));
}

proof fn lemma_chart_2079()
    ensures
        chart_signature([(2, 3), (0, 2), (1, 3)], heap_table(15)) == chart_signature([(0, 1), (0, 2), (1, 3)], heap_table(22)),
{
    lemma_heap_entries();
    lemma_codes_of_word_86(heap_table(15));
    lemma_codes_of_word_7(heap_table(22));
    lemma_charts_agree_through([(0, 1), (0, 2), (1, 3)], heap_table(22), [(2, 3), (0, 2), (1, 3)], heap_table(15), 6, (6, 7, 3, 2, 5, 4, 0, 1));
}

proof fn lemma_chart_2080()
    ensures
        chart_signature([(2, 3), (0, 2), (1, 3)], heap_table(16)) == chart_signature([(0, 1), (0, 2), (1, 3)], heap_table(20)),
{
    lemma_heap_entries();
    lemma_codes_of_word_86(heap_table(16));
    lemma_codes_of_word_7(heap_table(20));
    lemma_charts_agree_through([(0, 1), (0, 2), (1, 3)], heap_table(20), [(2, 3), (0, 2), (1, 3)], heap_table(16), 7, (7, 6, 5, 4, 3, 2, 1, 0));
}

proof fn lemma_chart_2081()
    ensures
        chart_signature([(2, 3), (0, 2), (1, 3)], heap_table(17)) == chart_signature([(0, 1), (0, 2), (1, 3)], heap_table(6)),
{
    lemma_heap_entries();
    lemma_codes_of_word_86(heap_table(17));
    lemma_codes_of_word_7(heap_table(6));
    lemma_charts_agree_through([(0, 1), (0, 2), (1, 3)], heap_table(6), [(2, 3), (0, 2), (1, 3)], heap_table(17), 6, (6, 7, 3, 2, 5, 4, 0, 1));
}

proof fn lemma_chart_2082()
    ensures
        chart_signature([(2, 3), (0, 2), (1, 3)], heap_table(18)) == chart_signature([(0, 1), (0, 2), (1, 3)], heap_table(10)),
{
    lemma_heap_entries();
    lemma_codes_of_word_86(heap_table(18));
    lemma_codes_of_word_7(heap_table(10));
    lemma_charts_agree_through([(0, 1), (0, 2), (1, 3)], heap_table(10), [(2, 3), (0, 2), (1, 3)], heap_table(18), 6, (6, 7, 3, 2, 5, 4, 0, 1));
}

proof fn lemma_chart_2083()
    ensures
        chart_signature([(2, 3), (0, 2), (1, 3)], heap_table(19)) == chart_signature([(0, 1), (0, 2), (1, 3)], heap_table(4)),
{
    lemma_heap_entries();
    lemma_codes_of_word_86(heap_table(19));
    lemma_codes_of_word_7(heap_table(4));
    lemma_charts_agree_through([(0, 1), (0, 2), (1, 3)], heap_table(4), [(2, 3), (0, 2), (1, 3)], heap_table(19), 6, (6, 7, 3, 2, 5, 4, 0, 1));
}

proof fn lemma_chart_2084()
    ensures
        chart_signature([(2, 3), (0, 2), (1, 3)], heap_table(20)) == chart_signature([(0, 1), (0, 2), (1, 3)], heap_table(2)),
{
    lemma_heap_entries();
    lemma_codes_of_word_86(heap_table(20));
    lemma_codes_of_word_7(heap_table(2));
    lemma_charts_agree_through([(0, 1), (0, 2), (1, 3)], heap_table(2), [(2, 3), (0, 2), (1, 3)], heap_table(20), 7, (7, 6, 5, 4, 3, 2, 1, 0));
}

proof fn lemma_chart_2085()
    ensures
        chart_signature([(2, 3), (0, 2), (1, 3)], heap_table(21)) == chart_signature([(0, 1), (0, 2), (1, 3)], heap_table(16)),
{
    lemma_heap_entries();
    lemma_codes_of_word_86(heap_table(21));
    lemma_codes_of_word_7(heap_table(16));
    lemma_charts_agree_through([(0, 1), (0, 2), (1, 3)], heap_table(16), [(2, 3), (0, 2), (1, 3)], heap_table(21), 6, (6, 7, 3, 2, 5, 4, 0, 1));
}

proof fn lemma_chart_2086()
    ensures
        chart_signature([(2, 3), (0, 2), (1, 3)], heap_table(22)) == chart_signature([(0, 1), (0, 2), (1, 3)], heap_table(14)),
{
    lemma_heap_entries();
    lemma_codes_of_word_86(heap_table(22));
    lemma_codes_of_word_7(heap_table(14));
    lemma_charts_agree_through([(0, 1), (0, 2), (1, 3)], heap_table(14), [(2, 3), (0, 2), (1, 3)], heap_table(22), 7, (7, 6, 5, 4, 3, 2, 1, 0));
}

proof fn lemma_chart_2087()
    ensures
        chart_signature([(2, 3), (0, 2), (1, 3)], heap_table(23)) == chart_signature([(0, 1), (0, 2), (1, 3)], heap_table(8)),
{
    lemma_heap_entries();
    lemma_codes_of_word_86(heap_table(23));
    lemma_codes_of_word_7(heap_table(8));
    lemma_charts_agree_through([(0, 1), (0, 2), (1, 3)], heap_table(8), [(2, 3), (0, 2), (1, 3)], heap_table(23), 7, (7, 6, 5, 4, 3, 2, 1, 0));
}

/// Every chart of atlas word 86 shares its signature with the first chart
/// of a class below 216.
pub proof fn lemma_charts_of_word_86()
    ensures
        forall|t: int| 2064 <= t < 2088 ==> #[trigger] meets_class_below(t, 216),
{
    lemma_census_words();
    assert forall|t: int| 2064 <= t < 2088 implies #[trigger] meets_class_below(t, 216) by {
        if t == 2064 { lemma_chart_2064(); assert(atlas_signatures()[class_rep(79)] == atlas_signatures()[2064]); }
        else if t == 2065 { lemma_chart_2065(); assert(atlas_signatures()[class_rep(76)] == atlas_signatures()[2065]); }
        else if t == 2066 { lemma_chart_2066(); assert(atlas_signatures()[class_rep(75)] == atlas_signatures()[2066]); }
        else if t == 2067 { lemma_chart_2067(); assert(atlas_signatures()[class_rep(82)] == atlas_signatures()[2067]); }
        else if t == 2068 { lemma_chart_2068(); assert(atlas_signatures()[class_rep(81)] == atlas_signatures()[2068]); }
        else if t == 2069 { lemma_chart_2069(); assert(atlas_signatures()[class_rep(78)] == atlas_signatures()[2069]); }
        else if t == 2070 { lemma_chart_2070(); assert(atlas_signatures()[class_rep(80)] == atlas_signatures()[2070]); }
        else if t == 2071 { lemma_chart_2071(); assert(atlas_signatures()[class_rep(73)] == atlas_signatures()[2071]); }
        else if t == 2072 { lemma_chart_2072(); assert(atlas_signatures()[class_rep(72)] == atlas_signatures()[2072]); }
        else if t == 2073 { lemma_chart_2073(); assert(atlas_signatures()[class_rep(83)] == atlas_signatures()[2073]); }
        else if t == 2074 { lemma_chart_2074(); assert(atlas_signatures()[class_rep(81)] == atlas_signatures()[2074]); }
        else if t == 2075 { lemma_chart_2075(); assert(atlas_signatures()[class_rep(78)] == atlas_signatures()[2075]); }
        else if t == 2076 { lemma_chart_2076(); assert(atlas_signatures()[class_rep(77)] == atlas_signatures()[2076]); }
        else if t == 2077 { lemma_chart_2077(); assert(atlas_signatures()[class_rep(74)] == atlas_signatures()[2077]); }
        else if t == 2078 { lemma_chart_2078(); assert(atlas_signatures()[class_rep(72)] == atlas_signatures()[2078]); }
        else if t == 2079 { lemma_chart_2079(); assert(atlas_signatures()[class_rep(83)] == atlas_signatures()[2079]); }
        else if t == 2080 { lemma_chart_2080(); assert(atlas_signatures()[class_rep(82)] == atlas_signatures()[2080]); }
        else if t == 2081 { lemma_chart_2081(); assert(atlas_signatures()[class_rep(75)] == atlas_signatures()[2081]); }
        else if t == 2082 { lemma_chart_2082(); assert(atlas_signatures()[class_rep(77)] == atlas_signatures()[2082]); }
        else if t == 2083 { lemma_chart_2083(); assert(atlas_signatures()[class_rep(74)] == atlas_signatures()[2083]); }
        else if t == 2084 { lemma_chart_2084(); assert(atlas_signatures()[class_rep(73)] == atlas_signatures()[2084]); }
        else if t == 2085 { lemma_chart_2085(); assert(atlas_signatures()[class_rep(80)] == atlas_signatures()[2085]); }
        else if t == 2086 { lemma_chart_2086(); assert(atlas_signatures()[class_rep(79)] == atlas_signatures()[2086]); }
        else { lemma_chart_2087(); assert(atlas_signatures()[class_rep(76)] == atlas_signatures()[2087]); }
    }
}

proof fn lemma_chart_2088()
    ensures
        chart_signature([(2, 3), (0, 3), (0, 1)], heap_table(0)) == chart_signature([(0, 2), (0, 3), (0, 1)], heap_table(6)),
{
    lemma_heap_entries();
    lemma_codes_of_word_87(heap_table(0));
    lemma_codes_of_word_27(heap_table(6));
    lemma_charts_agree_through([(0, 2), (0, 3), (0, 1)], heap_table(6), [(2, 3), (0, 3), (0, 1)], heap_table(0), 2, (2, 4, 0, 6, 1, 7, 3, 5));
}

proof fn lemma_chart_2089()
    ensures
        chart_signature([(2, 3), (0, 3), (0, 1)], heap_table(1)) == chart_signature([(0, 2), (0, 3), (0, 1)], heap_table(12)),
{
    lemma_heap_entries();
    lemma_codes_of_word_87(heap_table(1));
    lemma_codes_of_word_27(heap_table(12));
    lemma_charts_agree_through([(0, 2), (0, 3), (0, 1)], heap_table(12), [(2, 3), (0, 3), (0, 1)], heap_table(1), 2, (2, 4, 0, 6, 1, 7, 3, 5));
}

proof fn lemma_chart_2090()
    ensures
        chart_signature([(2, 3), (0, 3), (0, 1)], heap_table(2)) == chart_signature([(0, 2), (0, 3), (0, 1)], heap_table(18)),
{
    lemma_heap_entries();
    lemma_codes_of_word_87(heap_table(2));
    lemma_codes_of_word_27(heap_table(18));
    lemma_charts_agree_through([(0, 2), (0, 3), (0, 1)], heap_table(18), [(2, 3), (0, 3), (0, 1)], heap_table(2), 2, (2, 4, 0, 6, 1, 7, 3, 5));
}

proof fn lemma_chart_2091()
    ensures
        chart_signature([(2, 3), (0, 3), (0, 1)], heap_table(3)) == chart_signature([(0, 2), (0, 3), (0, 1)], heap_table(9)),
{
    lemma_heap_entries();
    lemma_codes_of_word_87(heap_table(3));
    lemma_codes_of_word_27(heap_table(9));
    lemma_charts_agree_through([(0, 2), (0, 3), (0, 1)], heap_table(9), [(2, 3), (0, 3), (0, 1)], heap_table(3), 2, (2, 4, 0, 6, 1, 7, 3, 5));
}

proof fn lemma_chart_2092()
    ensures
        chart_signature([(2, 3), (0, 3), (0, 1)], heap_table(4)) == chart_signature([(0, 2), (0, 3), (0, 1)], heap_table(15)),
{
    lemma_heap_entries();
    lemma_codes_of_word_87(heap_table(4));
    lemma_codes_of_word_27(heap_table(15));
    lemma_charts_agree_through([(0, 2), (0, 3), (0, 1)], heap_table(15), [(2, 3), (0, 3), (0, 1)], heap_table(4), 2, (2, 4, 0, 6, 1, 7, 3, 5));
}

proof fn lemma_chart_2093()
    ensures
        chart_signature([(2, 3), (0, 3), (0, 1)], heap_table(5)) == chart_signature([(0, 2), (0, 3), (0, 1)], heap_table(21)),
{
    lemma_heap_entries();
    lemma_codes_of_word_87(heap_table(5));
    lemma_codes_of_word_27(heap_table(21));
    lemma_charts_agree_through([(0, 2), (0, 3), (0, 1)], heap_table(21), [(2, 3), (0, 3), (0, 1)], heap_table(5), 2, (2, 4, 0, 6, 1, 7, 3, 5));
}

proof fn lemma_chart_2094()
    ensures
        chart_signature([(2, 3), (0, 3), (0, 1)], heap_table(6)) == chart_signature([(0, 2), (0, 3), (0, 1)], heap_table(0)),
{
    lemma_heap_entries();
    lemma_codes_of_word_87(heap_table(6));
    lemma_codes_of_word_27(heap_table(0));
    lemma_charts_agree_through([(0, 2), (0, 3), (0, 1)], heap_table(0), [(2, 3), (0, 3), (0, 1)], heap_table(6), 2, (2, 4, 0, 6, 1, 7, 3, 5));
}

proof fn lemma_chart_2095()
    ensures
        chart_signature([(2, 3), (0, 3), (0, 1)], heap_table(7)) == chart_signature([(0, 2), (0, 3), (0, 1)], heap_table(13)),
{
    lemma_heap_entries();
    lemma_codes_of_word_87(heap_table(7));
    lemma_codes_of_word_27(heap_table(13));
    lemma_charts_agree_through([(0, 2), (0, 3), (0, 1)], heap_table(13), [(2, 3), (0, 3), (0, 1)], heap_table(7), 2, (2, 4, 0, 6, 1, 7, 3, 5));
}

proof fn lemma_chart_2096()
    ensures
        chart_signature([(2, 3), (0, 3), (0, 1)], heap_table(8)) == chart_signature([(0, 2), (0, 3), (0, 1)], heap_table(19)),
{
    lemma_heap_entries();
    lemma_codes_of_word_87(heap_table(8));
    lemma_codes_of_word_27(heap_table(19));
    lemma_charts_agree_through([(0, 2), (0, 3), (0, 1)], heap_table(19), [(2, 3), (0, 3), (0, 1)], heap_table(8), 2, (2, 4, 0, 6, 1, 7, 3, 5));
}

proof fn lemma_chart_2097()
    ensures
        chart_signature([(2, 3), (0, 3), (0, 1)], heap_table(9)) == chart_signature([(0, 2), (0, 3), (0, 1)], heap_table(3)),
{
    lemma_heap_entries();
    lemma_codes_of_word_87(heap_table(9));
    lemma_codes_of_word_27(heap_table(3));
    lemma_charts_agree_through([(0, 2), (0, 3), (0, 1)], heap_table(3), [(2, 3), (0, 3), (0, 1)], heap_table(9), 2, (2, 4, 0, 6, 1, 7, 3, 5));
}

proof fn lemma_chart_2098()
    ensures
        chart_signature([(2, 3), (0, 3), (0, 1)], heap_table(10)) == chart_signature([(0, 2), (0, 3), (0, 1)], heap_table(15)),
{
    lemma_heap_entries();
    lemma_codes_of_word_87(heap_table(10));
    lemma_codes_of_word_27(heap_table(15));
    lemma_charts_agree_through([(0, 2), (0, 3), (0, 1)], heap_table(15), [(2, 3), (0, 3), (0, 1)], heap_table(10), 3, (4, 2, 1, 7, 0, 6, 5, 3));
}

proof fn lemma_chart_2099()
    ensures
        chart_signature([(2, 3), (0, 3), (0, 1)], heap_table(11)) == chart_signature([(0, 2), (0, 3), (0, 1)], heap_table(21)),
{
    lemma_heap_entries();
    lemma_codes_of_word_87(heap_table(11));
    lemma_codes_of_word_27(heap_table(21));
    lemma_charts_agree_through([(0, 2), (0, 3), (0, 1)], heap_table(21), [(2, 3), (0, 3), (0, 1)], heap_table(11), 3, (4, 2, 1, 7, 0, 6, 5, 3));
}

proof fn lemma_chart_2100()
    ensures
        chart_signature([(2, 3), (0, 3), (0, 1)], heap_table(12)) == chart_signature([(0, 2), (0, 3), (0, 1)], heap_table(1)),
{
    lemma_heap_entries();
    lemma_codes_of_word_87(heap_table(12));
    lemma_codes_of_word_27(heap_table(1));
    lemma_charts_agree_through([(0, 2), (0, 3), (0, 1)], heap_table(1), [(2, 3), (0, 3), (0, 1)], heap_table(12), 2, (2, 4, 0, 6, 1, 7, 3, 5));
}

proof fn lemma_chart_2101()
    ensures
        chart_signature([(2, 3), (0, 3), (0, 1)], heap_table(13)) == chart_signature([(0, 2), (0, 3), (0, 1)], heap_table(7)),
{
    lemma_heap_entries();
    lemma_codes_of_word_87(heap_table(13));
    lemma_codes_of_word_27(heap_table(7));
    lemma_charts_agree_through([(0, 2), (0, 3), (0, 1)], heap_table(7), [(2, 3), (0, 3), (0, 1)], heap_table(13), 2, (2, 4, 0, 6, 1, 7, 3, 5));
}

proof fn lemma_chart_2102()
    ensures
        chart_signature([(2, 3), (0, 3), (0, 1)], heap_table(14)) == chart_signature([(0, 2), (0, 3), (0, 1)], heap_table(19)),
{
    lemma_heap_entries();
    lemma_codes_of_word_87(heap_table(14));
    lemma_codes_of_word_27(heap_table(19));
    lemma_charts_agree_through([(0, 2), (0, 3), (0, 1)], heap_table(19), [(2, 3), (0, 3), (0, 1)], heap_table(14), 3, (4, 2, 1, 7, 0, 6, 5, 3));
}

proof fn lemma_chart_2103()
    ensures
        chart_signature([(2, 3), (0, 3), (0, 1)], heap_table(15)) == chart_signature([(0, 2), (0, 3), (0, 1)], heap_table(3)),
{
    lemma_heap_entries();
    lemma_codes_of_word_87(heap_table(15));
    lemma_codes_of_word_27(heap_table(3));
    lemma_charts_agree_through([(0, 2), (0, 3), (0, 1)], heap_table(3), [(2, 3), (0, 3), (0, 1)], heap_table(15), 3, (4, 2, 1, 7, 0, 6, 5, 3));
}

proof fn lemma_chart_2104()
    ensures
        chart_signature([(2, 3), (0, 3), (0, 1)], heap_table(16)) == chart_signature([(0, 2), (0, 3), (0, 1)], heap_table(9)),
{
    lemma_heap_entries();
    lemma_codes_of_word_87(heap_table(16));
    lemma_codes_of_word_27(heap_table(9));
    lemma_charts_agree_through([(0, 2), (0, 3), (0, 1)], heap_table(9), [(2, 3), (0, 3), (0, 1)], heap_table(16), 3, (4, 2, 1, 7, 0, 6, 5, 3));
}

proof fn lemma_chart_2105()
    ensures
        chart_signature([(2, 3), (0, 3), (0, 1)], heap_table(17)) == chart_signature([(0, 2), (0, 3), (0, 1)], heap_table(18)),
{
    lemma_heap_entries();
    lemma_codes_of_word_87(heap_table(17));
    lemma_codes_of_word_27(heap_table(18));
    lemma_charts_agree_through([(0, 2), (0, 3), (0, 1)], heap_table(18), [(2, 3), (0, 3), (0, 1)], heap_table(17), 3, (4, 2, 1, 7, 0, 6, 5, 3));
}

proof fn lemma_chart_2106()
    ensures
        chart_signature([(2, 3), (0, 3), (0, 1)], heap_table(18)) == chart_signature([(0, 2), (0, 3), (0, 1)], heap_table(1)),
{
    lemma_heap_entries();
    lemma_codes_of_word_87(heap_table(18));
    lemma_codes_of_word_27(heap_table(1));
    lemma_charts_agree_through([(0, 2), (0, 3), (0, 1)], heap_table(1), [(2, 3), (0, 3), (0, 1)], heap_table(18), 3, (4, 2, 1, 7, 0, 6, 5, 3));
}

proof fn lemma_chart_2107()
    ensures
        chart_signature([(2, 3), (0, 3), (0, 1)], heap_table(19)) == chart_signature([(0, 2), (0, 3), (0, 1)], heap_table(7)),
{
    lemma_heap_entries();
    lemma_codes_of_word_87(heap_table(19));
    lemma_codes_of_word_27(heap_table(7));
    lemma_charts_agree_through([(0, 2), (0, 3), (0, 1)], heap_table(7), [(2, 3), (0, 3), (0, 1)], heap_table(19), 3, (4, 2, 1, 7, 0, 6, 5, 3));
}

proof fn lemma_chart_2108()
    ensures
        chart_signature([(2, 3), (0, 3), (0, 1)], heap_table(20)) == chart_signature([(0, 2), (0, 3), (0, 1)], heap_table(13)),
{
    lemma_heap_entries();
    lemma_codes_of_word_87(heap_table(20));
    lemma_codes_of_word_27(heap_table(13));
    lemma_charts_agree_through([(0, 2), (0, 3), (0, 1)], heap_table(13), [(2, 3), (0, 3), (0, 1)], heap_table(20), 3, (4, 2, 1, 7, 0, 6, 5, 3));
}

proof fn lemma_chart_2109()
    ensures
        chart_signature([(2, 3), (0, 3), (0, 1)], heap_table(21)) == chart_signature([(0, 2), (0, 3), (0, 1)], heap_table(0)),
{
    lemma_heap_entries();
    lemma_codes_of_word_87(heap_table(21));
    lemma_codes_of_word_27(heap_table(0));
    lemma_charts_agree_through([(0, 2), (0, 3), (0, 1)], heap_table(0), [(2, 3), (0, 3), (0, 1)], heap_table(21), 3, (4, 2, 1, 7, 0, 6, 5, 3));
}

proof fn lemma_chart_2110()
    ensures
        chart_signature([(2, 3), (0, 3), (0, 1)], heap_table(22)) == chart_signature([(0, 2), (0, 3), (0, 1)], heap_table(6)),
{
    lemma_heap_entries();
    lemma_codes_of_word_87(heap_table(22));
    lemma_codes_of_word_27(heap_table(6));
    lemma_charts_agree_through([(0, 2), (0, 3), (0, 1)], heap_table(6), [(2, 3), (0, 3), (0, 1)], heap_table(22), 3, (4, 2, 1, 7, 0, 6, 5, 3));
}

proof fn lemma_chart_2111()
    ensures
        chart_signature([(2, 3), (0, 3), (0, 1)], heap_table(23)) == chart_signature([(0, 2), (0, 3), (0, 1)], heap_table(12)),
{
    lemma_heap_entries();
    lemma_codes_of_word_87(heap_table(23));
    lemma_codes_of_word_27(heap_table(12));
    lemma_charts_agree_through([(0, 2), (0, 3), (0, 1)], heap_table(12), [(2, 3), (0, 3), (0, 1)], heap_table(23), 3, (4, 2, 1, 7, 0, 6, 5, 3));
}

/// Every chart of atlas word 87 shares its signature with the first chart
/// of a class below 216.
pub proof fn lemma_charts_of_word_87()
    ensures
        forall|t: int| 2088 <= t < 2112 ==> #[trigger] meets_class_below(t, 216),
{
    lemma_census_words();
    assert forall|t: int| 2088 <= t < 2112 implies #[trigger] meets_class_below(t, 216) by {
        if t == 2088 { lemma_chart_2088(); assert(atlas_signatures()[class_rep(165)] == atlas_signatures()[2088]); }
        else if t == 2089 { lemma_chart_2089(); assert(atlas_signatures()[class_rep(168)] == atlas_signatures()[2089]); }
        else if t == 2090 { lemma_chart_2090(); assert(atlas_signatures()[class_rep(171)] == atlas_signatures()[2090]); }
        else if t == 2091 { lemma_chart_2091(); assert(atlas_signatures()[class_rep(167)] == atlas_signatures()[2091]); }
        else if t == 2092 { lemma_chart_2092(); assert(atlas_signatures()[class_rep(170)] == atlas_signatures()[2092]); }
        else if t == 2093 { lemma_chart_2093(); assert(atlas_signatures()[class_rep(173)] == atlas_signatures()[2093]); }
        else if t == 2094 { lemma_chart_2094(); assert(atlas_signatures()[class_rep(162)] == atlas_signatures()[2094]); }
        else if t == 2095 { lemma_chart_2095(); assert(atlas_signatures()[class_rep(169)] == atlas_signatures()[2095]); }
        else if t == 2096 { lemma_chart_2096(); assert(atlas_signatures()[class_rep(172)] == atlas_signatures()[2096]); }
        else if t == 2097 { lemma_chart_2097(); assert(atlas_signatures()[class_rep(164)] == atlas_signatures()[2097]); }
        else if t == 2098 { lemma_chart_2098(); assert(atlas_signatures()[class_rep(170)] == atlas_signatures()[2098]); }
        else if t == 2099 { lemma_chart_2099(); assert(atlas_signatures()[class_rep(173)] == atlas_signatures()[2099]); }
        else if t == 2100 { lemma_chart_2100(); assert(atlas_signatures()[class_rep(163)] == atlas_signatures()[2100]); }
        else if t == 2101 { lemma_chart_2101(); assert(atlas_signatures()[class_rep(166)] == atlas_signatures()[2101]); }
        else if t == 2102 { lemma_chart_2102(); assert(atlas_signatures()[class_rep(172)] == atlas_signatures()[2102]); }
        else if t == 2103 { lemma_chart_2103(); assert(atlas_signatures()[class_rep(164)] == atlas_signatures()[2103]); }
        else if t == 2104 { lemma_chart_2104(); assert(atlas_signatures()[class_rep(167)] == atlas_signatures()[2104]); }
        else if t == 2105 { lemma_chart_2105(); assert(atlas_signatures()[class_rep(171)] == atlas_signatures()[2105]); }
        else if t == 2106 { lemma_chart_2106(); assert(atlas_signatures()[class_rep(163)] == atlas_signatures()[2106]); }
        else if t == 2107 { lemma_chart_2107(); assert(atlas_signatures()[class_rep(166)] == atlas_signatures()[2107]); }
        else if t == 2108 { lemma_chart_2108(); assert(atlas_signatures()[class_rep(169)] == atlas_signatures()[2108]); }
        else if t == 2109 { lemma_chart_2109(); assert(atlas_signatures()[class_rep(162)] == atlas_signatures()[2109]); }
        else if t == 2110 { lemma_chart_2110(); assert(atlas_signatures()[class_rep(165)] == atlas_signatures()[2110]); }
        else { lemma_chart_2111(); assert(atlas_signatures()[class_rep(168)] == atlas_signatures()[2111]); }
    }
}

proof fn lemma_chart_2112()
    ensures
        chart_signature([(2, 3), (0, 3), (1, 2)], heap_table(0)) == chart_signature([(0, 2), (0, 3), (1, 2)], heap_table(6)),
{
    lemma_heap_entries();
    lemma_codes_of_word_88(heap_table(0));
    lemma_codes_of_word_3(heap_table(6));
    lemma_charts_agree_through([(0, 2), (0, 3), (1, 2)], heap_table(6), [(2, 3), (0, 3), (1, 2)], heap_table(0), 2, (2, 4, 0, 6, 1, 7, 3, 5));
}

proof fn lemma_chart_2113()
    ensures
        chart_signature([(2, 3), (0, 3), (1, 2)], heap_table(1)) == chart_signature([(0, 2), (0, 3), (1, 2)], heap_table(12)),
{
    lemma_heap_entries();
    lemma_codes_of_word_88(heap_table(1));
    lemma_codes_of_word_3(heap_table(12));
    lemma_charts_agree_through([(0, 2), (0, 3), (1, 2)], heap_table(12), [(2, 3), (0, 3), (1, 2)], heap_table(1), 2, (2, 4, 0, 6, 1, 7, 3, 5));
}

proof fn lemma_chart_2114()
    ensures
        chart_signature([(2, 3), (0, 3), (1, 2)], heap_table(2)) == chart_signature([(0, 2), (0, 3), (1, 2)], heap_table(18)),
{
    lemma_heap_entries();
    lemma_codes_of_word_88(heap_table(2));
    lemma_codes_of_word_3(heap_table(18));
    lemma_charts_agree_through([(0, 2), (0, 3), (1, 2)], heap_table(18), [(2, 3), (0, 3), (1, 2)], heap_table(2), 2, (2, 4, 0, 6, 1, 7, 3, 5));
}

proof fn lemma_chart_2115()
    ensures
        chart_signature([(2, 3), (0, 3), (1, 2)], heap_table(3)) == chart_signature([(0, 2), (0, 3), (1, 2)], heap_table(9)),
{
    lemma_heap_entries();
    lemma_codes_of_word_88(heap_table(3));
    lemma_codes_of_word_3(heap_table(9));
    lemma_charts_agree_through([(0, 2), (0, 3), (1, 2)], heap_table(9), [(2, 3), (0, 3), (1, 2)], heap_table(3), 2, (2, 4, 0, 6, 1, 7, 3, 5));
}

proof fn lemma_chart_2116()
    ensures
        chart_signature([(2, 3), (0, 3), (1, 2)], heap_table(4)) == chart_signature([(0, 2), (0, 3), (1, 2)], heap_table(15)),
{
    lemma_heap_entries();
    lemma_codes_of_word_88(heap_table(4));
    lemma_codes_of_word_3(heap_table(15));
    lemma_charts_agree_through([(0, 2), (0, 3), (1, 2)], heap_table(15), [(2, 3), (0, 3), (1, 2)], heap_table(4), 2, (2, 4, 0, 6, 1, 7, 3, 5));
}

proof fn lemma_chart_2117()
    ensures
        chart_signature([(2, 3), (0, 3), (1, 2)], heap_table(5)) == chart_signature([(0, 2), (0, 3), (1, 2)], heap_table(21)),
{
    lemma_heap_entries();
    lemma_codes_of_word_88(heap_table(5));
    lemma_codes_of_word_3(heap_table(21));
    lemma_charts_agree_through([(0, 2), (0, 3), (1, 2)], heap_table(21), [(2, 3), (0, 3), (1, 2)], heap_table(5), 2, (2, 4, 0, 6, 1, 7, 3, 5));
}

proof fn lemma_chart_2118()
    ensures
        chart_signature([(2, 3), (0, 3), (1, 2)], heap_table(6)) == chart_signature([(0, 2), (0, 3), (1, 2)], heap_table(0)),
{
    lemma_heap_entries();
    lemma_codes_of_word_88(heap_table(6));
    lemma_codes_of_word_3(heap_table(0));
    lemma_charts_agree_through([(0, 2), (0, 3), (1, 2)], heap_table(0), [(2, 3), (0, 3), (1, 2)], heap_table(6), 2, (2, 4, 0, 6, 1, 7, 3, 5));
}

proof fn lemma_chart_2119()
    ensures
        chart_signature([(2, 3), (0, 3), (1, 2)], heap_table(7)) == chart_signature([(0, 2), (0, 3), (1, 2)], heap_table(13)),
{
    lemma_heap_entries();
    lemma_codes_of_word_88(heap_table(7));
    lemma_codes_of_word_3(heap_table(13));
    lemma_charts_agree_through([(0, 2), (0, 3), (1, 2)], heap_table(13), [(2, 3), (0, 3), (1, 2)], heap_table(7), 2, (2, 4, 0, 6, 1, 7, 3, 5));
}

proof fn lemma_chart_2120()
    ensures
        chart_signature([(2, 3), (0, 3), (1, 2)], heap_table(8)) == chart_signature([(0, 2), (0, 3), (1, 2)], heap_table(19)),
{
    lemma_heap_entries();
    lemma_codes_of_word_88(heap_table(8));
    lemma_codes_of_word_3(heap_table(19));
    lemma_charts_agree_through([(0, 2), (0, 3), (1, 2)], heap_table(19), [(2, 3), (0, 3), (1, 2)], heap_table(8), 2, (2, 4, 0, 6, 1, 7, 3, 5));
}

proof fn lemma_chart_2121()
    ensures
        chart_signature([(2, 3), (0, 3), (1, 2)], heap_table(9)) == chart_signature([(0, 2), (0, 3), (1, 2)], heap_table(3)),
{
    lemma_heap_entries();
    lemma_codes_of_word_88(heap_table(9));
    lemma_codes_of_word_3(heap_table(3));
    lemma_charts_agree_through([(0, 2), (0, 3), (1, 2)], heap_table(3), [(2, 3), (0, 3), (1, 2)], heap_table(9), 2, (2, 4, 0, 6, 1, 7, 3, 5));
}

proof fn lemma_chart_2122()
    ensures
        chart_signature([(2, 3), (0, 3), (1, 2)], heap_table(10)) == chart_signature([(0, 2), (0, 3), (1, 2)], heap_table(15)),
{
    lemma_heap_entries();
    lemma_codes_of_word_88(heap_table(10));
    lemma_codes_of_word_3(heap_table(15));
    lemma_charts_agree_through([(0, 2), (0, 3), (1, 2)], heap_table(15), [(2, 3), (0, 3), (1, 2)], heap_table(10), 3, (4, 2, 1, 7, 0, 6, 5, 3));
}

proof fn lemma_chart_2123()
    ensures
        chart_signature([(2, 3), (0, 3), (1, 2)], heap_table(11)) == chart_signature([(0, 2), (0, 3), (1, 2)], heap_table(21)),
{
    lemma_heap_entries();
    lemma_codes_of_word_88(heap_table(11));
    lemma_codes_of_word_3(heap_table(21));
    lemma_charts_agree_through([(0, 2), (0, 3), (1, 2)], heap_table(21), [(2, 3), (0, 3), (1, 2)], heap_table(11), 3, (4, 2, 1, 7, 0, 6, 5, 3));
}

proof fn lemma_chart_2124()
    ensures
        chart_signature([(2, 3), (0, 3), (1, 2)], heap_table(12)) == chart_signature([(0, 2), (0, 3), (1, 2)], heap_table(1)),
{
    lemma_heap_entries();
    lemma_codes_of_word_88(heap_table(12));
    lemma_codes_of_word_3(heap_table(1));
    lemma_charts_agree_through([(0, 2), (0, 3), (1, 2)], heap_table(1), [(2, 3), (0, 3), (1, 2)], heap_table(12), 2, (2, 4, 0, 6, 1, 7, 3, 5));
}

proof fn lemma_chart_2125()
    ensures
        chart_signature([(2, 3), (0, 3), (1, 2)], heap_table(13)) == chart_signature([(0, 2), (0, 3), (1, 2)], heap_table(7)),
{
    lemma_heap_entries();
    lemma_codes_of_word_88(heap_table(13));
    lemma_codes_of_word_3(heap_table(7));
    lemma_charts_agree_through([(0, 2), (0, 3), (1, 2)], heap_table(7), [(2, 3), (0, 3), (1, 2)], heap_table(13), 2, (2, 4, 0, 6, 1, 7, 3, 5));
}

proof fn lemma_chart_2126()
    ensures
        chart_signature([(2, 3), (0, 3), (1, 2)], heap_table(14)) == chart_signature([(0, 2), (0, 3), (1, 2)], heap_table(19)),
{
    lemma_heap_entries();
    lemma_codes_of_word_88(heap_table(14));
    lemma_codes_of_word_3(heap_table(19));
    lemma_charts_agree_through([(0, 2), (0, 3), (1, 2)], heap_table(19), [(2, 3), (0, 3), (1, 2)], heap_table(14), 3, (4, 2, 1, 7, 0, 6, 5, 3));
}

proof fn lemma_chart_2127()
    ensures
        chart_signature([(2, 3), (0, 3), (1, 2)], heap_table(15)) == chart_signature([(0, 2), (0, 3), (1, 2)], heap_table(3)),
{
    lemma_heap_entries();
    lemma_codes_of_word_88(heap_table(15));
    lemma_codes_of_word_3(heap_table(3));
    lemma_charts_agree_through([(0, 2), (0, 3), (1, 2)], heap_table(3), [(2, 3), (0, 3), (1, 2)], heap_table(15), 3, (4, 2, 1, 7, 0, 6, 5, 3));
}

proof fn lemma_chart_2128()
    ensures
        chart_signature([(2, 3), (0, 3), (1, 2)], heap_table(16)) == chart_signature([(0, 2), (0, 3), (1, 2)], heap_table(9)),
{
    lemma_heap_entries();
    lemma_codes_of_word_88(heap_table(16));
    lemma_codes_of_word_3(heap_table(9));
    lemma_charts_agree_through([(0, 2), (0, 3), (1, 2)], heap_table(9), [(2, 3), (0, 3), (1, 2)], heap_table(16), 3, (4, 2, 1, 7, 0, 6, 5, 3));
}

proof fn lemma_chart_2129()
    ensures
        chart_signature([(2, 3), (0, 3), (1, 2)], heap_table(17)) == chart_signature([(0, 2), (0, 3), (1, 2)], heap_table(18)),
{
    lemma_heap_entries();
    lemma_codes_of_word_88(heap_table(17));
    lemma_codes_of_word_3(heap_table(18));
    lemma_charts_agree_through([(0, 2), (0, 3), (1, 2)], heap_table(18), [(2, 3), (0, 3), (1, 2)], heap_table(17), 3, (4, 2, 1, 7, 0, 6, 5, 3));
}

proof fn lemma_chart_2130()
    ensures
        chart_signature([(2, 3), (0, 3), (1, 2)], heap_table(18)) == chart_signature([(0, 2), (0, 3), (1, 2)], heap_table(1)),
{
    lemma_heap_entries();
    lemma_codes_of_word_88(heap_table(18));
    lemma_codes_of_word_3(heap_table(1));
    lemma_charts_agree_through([(0, 2), (0, 3), (1, 2)], heap_table(1), [(2, 3), (0, 3), (1, 2)], heap_table(18), 3, (4, 2, 1, 7, 0, 6, 5, 3));
}

proof fn lemma_chart_2131()
    ensures
        chart_signature([(2, 3), (0, 3), (1, 2)], heap_table(19)) == chart_signature([(0, 2), (0, 3), (1, 2)], heap_table(7)),
{
    lemma_heap_entries();
    lemma_codes_of_word_88(heap_table(19));
    lemma_codes_of_word_3(heap_table(7));
    lemma_charts_agree_through([(0, 2), (0, 3), (1, 2)], heap_table(7), [(2, 3), (0, 3), (1, 2)], heap_table(19), 3, (4, 2, 1, 7, 0, 6, 5, 3));
}

proof fn lemma_chart_2132()
    ensures
        chart_signature([(2, 3), (0, 3), (1, 2)], heap_table(20)) == chart_signature([(0, 2), (0, 3), (1, 2)], heap_table(13)),
{
    lemma_heap_entries();
    lemma_codes_of_word_88(heap_table(20));
    lemma_codes_of_word_3(heap_table(13));
    lemma_charts_agree_through([(0, 2), (0, 3), (1, 2)], heap_table(13), [(2, 3), (0, 3), (1, 2)], heap_table(20), 3, (4, 2, 1, 7, 0, 6, 5, 3));
}

proof fn lemma_chart_2133()
    ensures
        chart_signature([(2, 3), (0, 3), (1, 2)], heap_table(21)) == chart_signature([(0, 2), (0, 3), (1, 2)], heap_table(0)),
{
    lemma_heap_entries();
    lemma_codes_of_word_88(heap_table(21));
    lemma_codes_of_word_3(heap_table(0));
    lemma_charts_agree_through([(0, 2), (0, 3), (1, 2)], heap_table(0), [(2, 3), (0, 3), (1, 2)], heap_table(21), 3, (4, 2, 1, 7, 0, 6, 5, 3));
}

proof fn lemma_chart_2134()
    ensures
        chart_signature([(2, 3), (0, 3), (1, 2)], heap_table(22)) == chart_signature([(0, 2), (0, 3), (1, 2)], heap_table(6)),
{
    lemma_heap_entries();
    lemma_codes_of_word_88(heap_table(22));
    lemma_codes_of_word_3(heap_table(6));
    lemma_charts_agree_through([(0, 2), (0, 3), (1, 2)], heap_table(6), [(2, 3), (0, 3), (1, 2)], heap_table(22), 3, (4, 2, 1, 7, 0, 6, 5, 3));
}

proof fn lemma_chart_2135()
    ensures
        chart_signature([(2, 3), (0, 3), (1, 2)], heap_table(23)) == chart_signature([(0, 2), (0, 3), (1, 2)], heap_table(12)),
{
    lemma_heap_entries();
    lemma_codes_of_word_88(heap_table(23));
    lemma_codes_of_word_3(heap_table(12));
    lemma_charts_agree_through([(0, 2), (0, 3), (1, 2)], heap_table(12), [(2, 3), (0, 3), (1, 2)], heap_table(23), 3, (4, 2, 1, 7, 0, 6, 5, 3));
}

/// Every chart of atlas word 88 shares its signature with the first chart
/// of a class below 216.
pub proof fn lemma_charts_of_word_88()
    ensures
        forall|t: int| 2112 <= t < 2136 ==> #[trigger] meets_class_below(t, 216),
{
    lemma_census_words();
    assert forall|t: int| 2112 <= t < 2136 implies #[trigger] meets_class_below(t, 216) by {
        if t == 2112 { lemma_chart_2112(); assert(atlas_signatures()[class_rep(39)] == atlas_signatures()[2112]); }
        else if t == 2113 { lemma_chart_2113(); assert(atlas_signatures()[class_rep(42)] == atlas_signatures()[2113]); }
        else if t == 2114 { lemma_chart_2114(); assert(atlas_signatures()[class_rep(45)] == atlas_signatures()[2114]); }
        else if t == 2115 { lemma_chart_2115(); assert(atlas_signatures()[class_rep(41)] == atlas_signatures()[2115]); }
        else if t == 2116 { lemma_chart_2116(); assert(atlas_signatures()[class_rep(44)] == atlas_signatures()[2116]); }
        else if t == 2117 { lemma_chart_2117(); assert(atlas_signatures()[class_rep(47)] == atlas_signatures()[2117]); }
        else if t == 2118 { lemma_chart_2118(); assert(atlas_signatures()[class_rep(36)] == atlas_signatures()[2118]); }
        else if t == 2119 { lemma_chart_2119(); assert(atlas_signatures()[class_rep(43)] == atlas_signatures()[2119]); }
        else if t == 2120 { lemma_chart_2120(); assert(atlas_signatures()[class_rep(46)] == atlas_signatures()[2120]); }
        else if t == 2121 { lemma_chart_2121(); assert(atlas_signatures()[class_rep(38)] == atlas_signatures()[2121]); }
        else if t == 2122 { lemma_chart_2122(); assert(atlas_signatures()[class_rep(44)] == atlas_signatures()[2122]); }
        else if t == 2123 { lemma_chart_2123(); assert(atlas_signatures()[class_rep(47)] == atlas_signatures()[2123]); }
        else if t == 2124 { lemma_chart_2124(); assert(atlas_signatures()[class_rep(37)] == atlas_signatures()[2124]); }
        else if t == 2125 { lemma_chart_2125(); assert(atlas_signatures()[class_rep(40)] == atlas_signatures()[2125]); }
        else if t == 2126 { lemma_chart_2126(); assert(atlas_signatures()[class_rep(46)] == atlas_signatures()[2126]); }
        else if t == 2127 { lemma_chart_2127(); assert(atlas_signatures()[class_rep(38)] == atlas_signatures()[2127]); }
        else if t == 2128 { lemma_chart_2128(); assert(atlas_signatures()[class_rep(41)] == atlas_signatures()[2128]); }
        else if t == 2129 { lemma_chart_2129(); assert(atlas_signatures()[class_rep(45)] == atlas_signatures()[2129]); }
        else if t == 2130 { lemma_chart_2130(); assert(atlas_signatures()[class_rep(37)] == atlas_signatures()[2130]); }
        else if t == 2131 { lemma_chart_2131(); assert(atlas_signatures()[class_rep(40)] == atlas_signatures()[2131]); }
        else if t == 2132 { lemma_chart_2132(); assert(atlas_signatures()[class_rep(43)] == atlas_signatures()[2132]); }
        else if t == 2133 { lemma_chart_2133(); assert(atlas_signatures()[class_rep(36)] == atlas_signatures()[2133]); }
        else if t == 2134 { lemma_chart_2134(); assert(atlas_signatures()[class_rep(39)] == atlas_signatures()[2134]); }
        else { lemma_chart_2135(); assert(atlas_signatures()[class_rep(42)] == atlas_signatures()[2135]); }
    }
}

proof fn lemma_chart_2136()
    ensures
        chart_signature([(2, 3), (0, 3), (1, 3)], heap_table(0)) == chart_signature([(0, 2), (0, 3), (1, 3)], heap_table(6)),
{
    lemma_heap_entries();
    lemma_codes_of_word_89(heap_table(0));
    lemma_codes_of_word_6(heap_table(6));
    lemma_charts_agree_through([(0, 2), (0, 3), (1, 3)], heap_table(6), [(2, 3), (0, 3), (1, 3)], heap_table(0), 2, (2, 4, 0, 6, 1, 7, 3, 5));
}

proof fn lemma_chart_2137()
    ensures
        chart_signature([(2, 3), (0, 3), (1, 3)], heap_table(1)) == chart_signature([(0, 2), (0, 3), (1, 3)], heap_table(12)),
{
    lemma_heap_entries();
    lemma_codes_of_word_89(heap_table(1));
    lemma_codes_of_word_6(heap_table(12));
    lemma_charts_agree_through([(0, 2), (0, 3), (1, 3)], heap_table(12), [(2, 3), (0, 3), (1, 3)], heap_table(1), 2, (2, 4, 0, 6, 1, 7, 3, 5));
}

proof fn lemma_chart_2138()
    ensures
        chart_signature([(2, 3), (0, 3), (1, 3)], heap_table(2)) == chart_signature([(0, 2), (0, 3), (1, 3)], heap_table(18)),
{
    lemma_heap_entries();
    lemma_codes_of_word_89(heap_table(2));
    lemma_codes_of_word_6(heap_table(18));
    lemma_charts_agree_through([(0, 2), (0, 3), (1, 3)], heap_table(18), [(2, 3), (0, 3), (1, 3)], heap_table(2), 2, (2, 4, 0, 6, 1, 7, 3, 5));
}

proof fn lemma_chart_2139()
    ensures
        chart_signature([(2, 3), (0, 3), (1, 3)], heap_table(3)) == chart_signature([(0, 2), (0, 3), (1, 3)], heap_table(9)),
{
    lemma_heap_entries();
    lemma_codes_of_word_89(heap_table(3));
    lemma_codes_of_word_6(heap_table(9));
    lemma_charts_agree_through([(0, 2), (0, 3), (1, 3)], heap_table(9), [(2, 3), (0, 3), (1, 3)], heap_table(3), 2, (2, 4, 0, 6, 1, 7, 3, 5));
}

proof fn lemma_chart_2140()
    ensures
        chart_signature([(2, 3), (0, 3), (1, 3)], heap_table(4)) == chart_signature([(0, 2), (0, 3), (1, 3)], heap_table(15)),
{
    lemma_heap_entries();
    lemma_codes_of_word_89(heap_table(4));
    lemma_codes_of_word_6(heap_table(15));
    lemma_charts_agree_through([(0, 2), (0, 3), (1, 3)], heap_table(15), [(2, 3), (0, 3), (1, 3)], heap_table(4), 2, (2, 4, 0, 6, 1, 7, 3, 5));
}

proof fn lemma_chart_2141()
    ensures
        chart_signature([(2, 3), (0, 3), (1, 3)], heap_table(5)) == chart_signature([(0, 2), (0, 3), (1, 3)], heap_table(21)),
{
    lemma_heap_entries();
    lemma_codes_of_word_89(heap_table(5));
    lemma_codes_of_word_6(heap_table(21));
    lemma_charts_agree_through([(0, 2), (0, 3), (1, 3)], heap_table(21), [(2, 3), (0, 3), (1, 3)], heap_table(5), 2, (2, 4, 0, 6, 1, 7, 3, 5));
}

proof fn lemma_chart_2142()
    ensures
        chart_signature([(2, 3), (0, 3), (1, 3)], heap_table(6)) == chart_signature([(0, 2), (0, 3), (1, 3)], heap_table(0)),
{
    lemma_heap_entries();
    lemma_codes_of_word_89(heap_table(6));
    lemma_codes_of_word_6(heap_table(0));
    lemma_charts_agree_through([(0, 2), (0, 3), (1, 3)], heap_table(0), [(2, 3), (0, 3), (1, 3)], heap_table(6), 2, (2, 4, 0, 6, 1, 7, 3, 5));
}

proof fn lemma_chart_2143()
    ensures
        chart_signature([(2, 3), (0, 3), (1, 3)], heap_table(7)) == chart_signature([(0, 2), (0, 3), (1, 3)], heap_table(13)),
{
    lemma_heap_entries();
    lemma_codes_of_word_89(heap_table(7));
    lemma_codes_of_word_6(heap_table(13));
    lemma_charts_agree_through([(0, 2), (0, 3), (1, 3)], heap_table(13), [(2, 3), (0, 3), (1, 3)], heap_table(7), 2, (2, 4, 0, 6, 1, 7, 3, 5));
}

proof fn lemma_chart_2144()
    ensures
        chart_signature([(2, 3), (0, 3), (1, 3)], heap_table(8)) == chart_signature([(0, 2), (0, 3), (1, 3)], heap_table(19)),
{
    lemma_heap_entries();
    lemma_codes_of_word_89(heap_table(8));
    lemma_codes_of_word_6(heap_table(19));
    lemma_charts_agree_through([(0, 2), (0, 3), (1, 3)], heap_table(19), [(2, 3), (0, 3), (1, 3)], heap_table(8), 2, (2, 4, 0, 6, 1, 7, 3, 5));
}

proof fn lemma_chart_2145()
    ensures
        chart_signature([(2, 3), (0, 3), (1, 3)], heap_table(9)) == chart_signature([(0, 2), (0, 3), (1, 3)], heap_table(3)),
{
    lemma_heap_entries();
    lemma_codes_of_word_89(heap_table(9));
    lemma_codes_of_word_6(heap_table(3));
    lemma_charts_agree_through([(0, 2), (0, 3), (1, 3)], heap_table(3), [(2, 3), (0, 3), (1, 3)], heap_table(9), 2, (2, 4, 0, 6, 1, 7, 3, 5));
}

proof fn lemma_chart_2146()
    ensures
        chart_signature([(2, 3), (0, 3), (1, 3)], heap_table(10)) == chart_signature([(0, 2), (0, 3), (1, 3)], heap_table(15)),
{
    lemma_heap_entries();
    lemma_codes_of_word_89(heap_table(10));
    lemma_codes_of_word_6(heap_table(15));
    lemma_charts_agree_through([(0, 2), (0, 3), (1, 3)], heap_table(15), [(2, 3), (0, 3), (1, 3)], heap_table(10), 3, (4, 2, 1, 7, 0, 6, 5, 3));
}

proof fn lemma_chart_2147()
    ensures
        chart_signature([(2, 3), (0, 3), (1, 3)], heap_table(11)) == chart_signature([(0, 2), (0, 3), (1, 3)], heap_table(21)),
{
    lemma_heap_entries();
    lemma_codes_of_word_89(heap_table(11));
    lemma_codes_of_word_6(heap_table(21));
    lemma_charts_agree_through([(0, 2), (0, 3), (1, 3)], heap_table(21), [(2, 3), (0, 3), (1, 3)], heap_table(11), 3, (4, 2, 1, 7, 0, 6, 5, 3));
}

proof fn lemma_chart_2148()
    ensures
        chart_signature([(2, 3), (0, 3), (1, 3)], heap_table(12)) == chart_signature([(0, 2), (0, 3), (1, 3)], heap_table(1)),
{
    lemma_heap_entries();
    lemma_codes_of_word_89(heap_table(12));
    lemma_codes_of_word_6(heap_table(1));
    lemma_charts_agree_through([(0, 2), (0, 3), (1, 3)], heap_table(1), [(2, 3), (0, 3), (1, 3)], heap_table(12), 2, (2, 4, 0, 6, 1, 7, 3, 5));
}

proof fn lemma_chart_2149()
    ensures
        chart_signature([(2, 3), (0, 3), (1, 3)], heap_table(13)) == chart_signature([(0, 2), (0, 3), (1, 3)], heap_table(7)),
{
    lemma_heap_entries();
    lemma_codes_of_word_89(heap_table(13));
    lemma_codes_of_word_6(heap_table(7));
    lemma_charts_agree_through([(0, 2), (0, 3), (1, 3)], heap_table(7), [(2, 3), (0, 3), (1, 3)], heap_table(13), 2, (2, 4, 0, 6, 1, 7, 3, 5));
}

proof fn lemma_chart_2150()
    ensures
        chart_signature([(2, 3), (0, 3), (1, 3)], heap_table(14)) == chart_signature([(0, 2), (0, 3), (1, 3)], heap_table(19)),
{
    lemma_heap_entries();
    lemma_codes_of_word_89(heap_table(14));
    lemma_codes_of_word_6(heap_table(19));
    lemma_charts_agree_through([(0, 2), (0, 3), (1, 3)], heap_table(19), [(2, 3), (0, 3), (1, 3)], heap_table(14), 3, (4, 2, 1, 7, 0, 6, 5, 3));
}

proof fn lemma_chart_2151()
    ensures
        chart_signature([(2, 3), (0, 3), (1, 3)], heap_table(15)) == chart_signature([(0, 2), (0, 3), (1, 3)], heap_table(3)),
{
    lemma_heap_entries();
    lemma_codes_of_word_89(heap_table(15));
    lemma_codes_of_word_6(heap_table(3));
    lemma_charts_agree_through([(0, 2), (0, 3), (1, 3)], heap_table(3), [(2, 3), (0, 3), (1, 3)], heap_table(15), 3, (4, 2, 1, 7, 0, 6, 5, 3));
}

proof fn lemma_chart_2152()
    ensures
        chart_signature([(2, 3), (0, 3), (1, 3)], heap_table(16)) == chart_signature([(0, 2), (0, 3), (1, 3)], heap_table(9)),
{
    lemma_heap_entries();
    lemma_codes_of_word_89(heap_table(16));
    lemma_codes_of_word_6(heap_table(9));
    lemma_charts_agree_through([(0, 2), (0, 3), (1, 3)], heap_table(9), [(2, 3), (0, 3), (1, 3)], heap_table(16), 3, (4, 2, 1, 7, 0, 6, 5, 3));
}

proof fn lemma_chart_2153()
    ensures
        chart_signature([(2, 3), (0, 3), (1, 3)], heap_table(17)) == chart_signature([(0, 2), (0, 3), (1, 3)], heap_table(18)),
{
    lemma_heap_entries();
    lemma_codes_of_word_89(heap_table(17));
    lemma_codes_of_word_6(heap_table(18));
    lemma_charts_agree_through([(0, 2), (0, 3), (1, 3)], heap_table(18), [(2, 3), (0, 3), (1, 3)], heap_table(17), 3, (4, 2, 1, 7, 0, 6, 5, 3));
}

proof fn lemma_chart_2154()
    ensures
        chart_signature([(2, 3), (0, 3), (1, 3)], heap_table(18)) == chart_signature([(0, 2), (0, 3), (1, 3)], heap_table(1)),
{
    lemma_heap_entries();
    lemma_codes_of_word_89(heap_table(18));
    lemma_codes_of_word_6(heap_table(1));
    lemma_charts_agree_through([(0, 2), (0, 3), (1, 3)], heap_table(1), [(2, 3), (0, 3), (1, 3)], heap_table(18), 3, (4, 2, 1, 7, 0, 6, 5, 3));
}

proof fn lemma_chart_2155()
    ensures
        chart_signature([(2, 3), (0, 3), (1, 3)], heap_table(19)) == chart_signature([(0, 2), (0, 3), (1, 3)], heap_table(7)),
{
    lemma_heap_entries();
    lemma_codes_of_word_89(heap_table(19));
    lemma_codes_of_word_6(heap_table(7));
    lemma_charts_agree_through([(0, 2), (0, 3), (1, 3)], heap_table(7), [(2, 3), (0, 3), (1, 3)], heap_table(19), 3, (4, 2, 1, 7, 0, 6, 5, 3));
}

proof fn lemma_chart_2156()
    ensures
        chart_signature([(2, 3), (0, 3), (1, 3)], heap_table(20)) == chart_signature([(0, 2), (0, 3), (1, 3)], heap_table(13)),
{
    lemma_heap_entries();
    lemma_codes_of_word_89(heap_table(20));
    lemma_codes_of_word_6(heap_table(13));
    lemma_charts_agree_through([(0, 2), (0, 3), (1, 3)], heap_table(13), [(2, 3), (0, 3), (1, 3)], heap_table(20), 3, (4, 2, 1, 7, 0, 6, 5, 3));
}

proof fn lemma_chart_2157()
    ensures
        chart_signature([(2, 3), (0, 3), (1, 3)], heap_table(21)) == chart_signature([(0, 2), (0, 3), (1, 3)], heap_table(0)),
{
    lemma_heap_entries();
    lemma_codes_of_word_89(heap_table(21));
    lemma_codes_of_word_6(heap_table(0));
    lemma_charts_agree_through([(0, 2), (0, 3), (1, 3)], heap_table(0), [(2, 3), (0, 3), (1, 3)], heap_table(21), 3, (4, 2, 1, 7, 0, 6, 5, 3));
}

proof fn lemma_chart_2158()
    ensures
        chart_signature([(2, 3), (0, 3), (1, 3)], heap_table(22)) == chart_signature([(0, 2), (0, 3), (1, 3)], heap_table(6)),
{
    lemma_heap_entries();
    lemma_codes_of_word_89(heap_table(22));
    lemma_codes_of_word_6(heap_table(6));
    lemma_charts_agree_through([(0, 2), (0, 3), (1, 3)], heap_table(6), [(2, 3), (0, 3), (1, 3)], heap_table(22), 3, (4, 2, 1, 7, 0, 6, 5, 3));
}

proof fn lemma_chart_2159()
    ensures
        chart_signature([(2, 3), (0, 3), (1, 3)], heap_table(23)) == chart_signature([(0, 2), (0, 3), (1, 3)], heap_table(12)),
{
    lemma_heap_entries();
    lemma_codes_of_word_89(heap_table(23));
    lemma_codes_of_word_6(heap_table(12));
    lemma_charts_agree_through([(0, 2), (0, 3), (1, 3)], heap_table(12), [(2, 3), (0, 3), (1, 3)], heap_table(23), 3, (4, 2, 1, 7, 0, 6, 5, 3));
}

/// Every chart of atlas word 89 shares its signature with the first chart
/// of a class below 216.
pub proof fn lemma_charts_of_word_89()
    ensures
        forall|t: int| 2136 <= t < 2160 ==> #[trigger] meets_class_below(t, 216),
{
    lemma_census_words();
    assert forall|t: int| 2136 <= t < 2160 implies #[trigger] meets_class_below(t, 216) by {
        if t == 2136 { lemma_chart_2136(); assert(atlas_signatures()[class_rep(63)] == atlas_signatures()[2136]); }
        else if t == 2137 { lemma_chart_2137(); assert(atlas_signatures()[class_rep(66)] == atlas_signatures()[2137]); }
        else if t == 2138 { lemma_chart_2138(); assert(atlas_signatures()[class_rep(69)] == atlas_signatures()[2138]); }
        else if t == 2139 { lemma_chart_2139(); assert(atlas_signatures()[class_rep(65)] == atlas_signatures()[2139]); }
        else if t == 2140 { lemma_chart_2140(); assert(atlas_signatures()[class_rep(68)] == atlas_signatures()[2140]); }
        else if t == 2141 { lemma_chart_2141(); assert(atlas_signatures()[class_rep(71)] == atlas_signatures()[2141]); }
        else if t == 2142 { lemma_chart_2142(); assert(atlas_signatures()[class_rep(60)] == atlas_signatures()[2142]); }
        else if t == 2143 { lemma_chart_2143(); assert(atlas_signatures()[class_rep(67)] == atlas_signatures()[2143]); }
        else if t == 2144 { lemma_chart_2144(); assert(atlas_signatures()[class_rep(70)] == atlas_signatures()[2144]); }
        else if t == 2145 { lemma_chart_2145(); assert(atlas_signatures()[class_rep(62)] == atlas_signatures()[2145]); }
        else if t == 2146 { lemma_chart_2146(); assert(atlas_signatures()[class_rep(68)] == atlas_signatures()[2146]); }
        else if t == 2147 { lemma_chart_2147(); assert(atlas_signatures()[class_rep(71)] == atlas_signatures()[2147]); }
        else if t == 2148 { lemma_chart_2148(); assert(atlas_signatures()[class_rep(61)] == atlas_signatures()[2148]); }
        else if t == 2149 { lemma_chart_2149(); assert(atlas_signatures()[class_rep(64)] == atlas_signatures()[2149]); }
        else if t == 2150 { lemma_chart_2150(); assert(atlas_signatures()[class_rep(70)] == atlas_signatures()[2150]); }
        else if t == 2151 { lemma_chart_2151(); assert(atlas_signatures()[class_rep(62)] == atlas_signatures()[2151]); }
        else if t == 2152 { lemma_chart_2152(); assert(atlas_signatures()[class_rep(65)] == atlas_signatures()[2152]); }
        else if t == 2153 { lemma_chart_2153(); assert(atlas_signatures()[class_rep(69)] == atlas_signatures()[2153]); }
        else if t == 2154 { lemma_chart_2154(); assert(atlas_signatures()[class_rep(61)] == atlas_signatures()[2154]); }
        else if t == 2155 { lemma_chart_2155(); assert(atlas_signatures()[class_rep(64)] == atlas_signatures()[2155]); }
        else if t == 2156 { lemma_chart_2156(); assert(atlas_signatures()[class_rep(67)] == atlas_signatures()[2156]); }
        else if t == 2157 { lemma_chart_2157(); assert(atlas_signatures()[class_rep(60)] == atlas_signatures()[2157]); }
        else if t == 2158 { lemma_chart_2158(); assert(atlas_signatures()[class_rep(63)] == atlas_signatures()[2158]); }
        else { lemma_chart_2159(); assert(atlas_signatures()[class_rep(66)] == atlas_signatures()[2159]); }
    }
}

proof fn lemma_chart_2160()
    ensures
        chart_signature([(2, 3), (1, 2), (0, 1)], heap_table(0)) == chart_signature([(0, 3), (0, 2), (0, 1)], heap_table(2)),
{
    lemma_heap_entries();
    lemma_codes_of_word_90(heap_table(0));
    lemma_codes_of_word_38(heap_table(2));
    lemma_charts_agree_through([(0, 3), (0, 2), (0, 1)], heap_table(2), [(2, 3), (1, 2), (0, 1)], heap_table(0), 6, (6, 7, 3, 2, 5, 4, 0, 1));
}

proof fn lemma_chart_2161()
    ensures
        chart_signature([(2, 3), (1, 2), (0, 1)], heap_table(1)) == chart_signature([(0, 3), (0, 2), (0, 1)], heap_table(5)),
{
    lemma_heap_entries();
    lemma_codes_of_word_90(heap_table(1));
    lemma_codes_of_word_38(heap_table(5));
    lemma_charts_agree_through([(0, 3), (0, 2), (0, 1)], heap_table(5), [(2, 3), (1, 2), (0, 1)], heap_table(1), 6, (6, 7, 3, 2, 5, 4, 0, 1));
}

proof fn lemma_chart_2162()
    ensures
        chart_signature([(2, 3), (1, 2), (0, 1)], heap_table(2)) == chart_signature([(0, 3), (0, 2), (0, 1)], heap_table(4)),
{
    lemma_heap_entries();
    lemma_codes_of_word_90(heap_table(2));
    lemma_codes_of_word_38(heap_table(4));
    lemma_charts_agree_through([(0, 3), (0, 2), (0, 1)], heap_table(4), [(2, 3), (1, 2), (0, 1)], heap_table(2), 6, (6, 7, 3, 2, 5, 4, 0, 1));
}

proof fn lemma_chart_2163()
    ensures
        chart_signature([(2, 3), (1, 2), (0, 1)], heap_table(3)) == chart_signature([(0, 3), (0, 2), (0, 1)], heap_table(1)),
{
    lemma_heap_entries();
    lemma_codes_of_word_90(heap_table(3));
    lemma_codes_of_word_38(heap_table(1));
    lemma_charts_agree_through([(0, 3), (0, 2), (0, 1)], heap_table(1), [(2, 3), (1, 2), (0, 1)], heap_table(3), 6, (6, 7, 3, 2, 5, 4, 0, 1));
}

proof fn lemma_chart_2164()
    ensures
        chart_signature([(2, 3), (1, 2), (0, 1)], heap_table(4)) == chart_signature([(0, 3), (0, 2), (0, 1)], heap_table(0)),
{
    lemma_heap_entries();
    lemma_codes_of_word_90(heap_table(4));
    lemma_codes_of_word_38(heap_table(0));
    lemma_charts_agree_through([(0, 3), (0, 2), (0, 1)], heap_table(0), [(2, 3), (1, 2), (0, 1)], heap_table(4), 6, (6, 7, 3, 2, 5, 4, 0, 1));
}

proof fn lemma_chart_2165()
    ensures
        chart_signature([(2, 3), (1, 2), (0, 1)], heap_table(5)) == chart_signature([(0, 3), (0, 2), (0, 1)], heap_table(3)),
{
    lemma_heap_entries();
    lemma_codes_of_word_90(heap_table(5));
    lemma_codes_of_word_38(heap_table(3));
    lemma_charts_agree_through([(0, 3), (0, 2), (0, 1)], heap_table(3), [(2, 3), (1, 2), (0, 1)], heap_table(5), 6, (6, 7, 3, 2, 5, 4, 0, 1));
}

proof fn lemma_chart_2166()
    ensures
        chart_signature([(2, 3), (1, 2), (0, 1)], heap_table(6)) == chart_signature([(0, 3), (0, 2), (0, 1)], heap_table(8)),
{
    lemma_heap_entries();
    lemma_codes_of_word_90(heap_table(6));
    lemma_codes_of_word_38(heap_table(8));
    lemma_charts_agree_through([(0, 3), (0, 2), (0, 1)], heap_table(8), [(2, 3), (1, 2), (0, 1)], heap_table(6), 6, (6, 7, 3, 2, 5, 4, 0, 1));
}

proof fn lemma_chart_2167()
    ensures
        chart_signature([(2, 3), (1, 2), (0, 1)], heap_table(7)) == chart_signature([(0, 3), (0, 2), (0, 1)], heap_table(11)),
{
    lemma_heap_entries();
    lemma_codes_of_word_90(heap_table(7));
    lemma_codes_of_word_38(heap_table(11));
    lemma_charts_agree_through([(0, 3), (0, 2), (0, 1)], heap_table(11), [(2, 3), (1, 2), (0, 1)], heap_table(7), 6, (6, 7, 3, 2, 5, 4, 0, 1));
}

proof fn lemma_chart_2168()
    ensures
        chart_signature([(2, 3), (1, 2), (0, 1)], heap_table(8)) == chart_signature([(0, 3), (0, 2), (0, 1)], heap_table(10)),
{
    lemma_heap_entries();
    lemma_codes_of_word_90(heap_table(8));
    lemma_codes_of_word_38(heap_table(10));
    lemma_charts_agree_through([(0, 3), (0, 2), (0, 1)], heap_table(10), [(2, 3), (1, 2), (0, 1)], heap_table(8), 6, (6, 7, 3, 2, 5, 4, 0, 1));
}

proof fn lemma_chart_2169()
    ensures
        chart_signature([(2, 3), (1, 2), (0, 1)], heap_table(9)) == chart_signature([(0, 3), (0, 2), (0, 1)], heap_table(7)),
{
    lemma_heap_entries();
    lemma_codes_of_word_90(heap_table(9));
    lemma_codes_of_word_38(heap_table(7));
    lemma_charts_agree_through([(0, 3), (0, 2), (0, 1)], heap_table(7), [(2, 3), (1, 2), (0, 1)], heap_table(9), 6, (6, 7, 3, 2, 5, 4, 0, 1));
}

proof fn lemma_chart_2170()
    ensures
        chart_signature([(2, 3), (1, 2), (0, 1)], heap_table(10)) == chart_signature([(0, 3), (0, 2), (0, 1)], heap_table(0)),
{
    lemma_heap_entries();
    lemma_codes_of_word_90(heap_table(10));
    lemma_codes_of_word_38(heap_table(0));
    lemma_charts_agree_through([(0, 3), (0, 2), (0, 1)], heap_table(0), [(2, 3), (1, 2), (0, 1)], heap_table(10), 7, (7, 6, 5, 4, 3, 2, 1, 0));
}

proof fn lemma_chart_2171()
    ensures
        chart_signature([(2, 3), (1, 2), (0, 1)], heap_table(11)) == chart_signature([(0, 3), (0, 2), (0, 1)], heap_table(3)),
{
    lemma_heap_entries();
    lemma_codes_of_word_90(heap_table(11));
    lemma_codes_of_word_38(heap_table(3));
    lemma_charts_agree_through([(0, 3), (0, 2), (0, 1)], heap_table(3), [(2, 3), (1, 2), (0, 1)], heap_table(11), 7, (7, 6, 5, 4, 3, 2, 1, 0));
}

proof fn lemma_chart_2172()
    ensures
        chart_signature([(2, 3), (1, 2), (0, 1)], heap_table(12)) == chart_signature([(0, 3), (0, 2), (0, 1)], heap_table(14)),
{
    lemma_heap_entries();
    lemma_codes_of_word_90(heap_table(12));
    lemma_codes_of_word_38(heap_table(14));
    lemma_charts_agree_through([(0, 3), (0, 2), (0, 1)], heap_table(14), [(2, 3), (1, 2), (0, 1)], heap_table(12), 6, (6, 7, 3, 2, 5, 4, 0, 1));
}

proof fn lemma_chart_2173()
    ensures
        chart_signature([(2, 3), (1, 2), (0, 1)], heap_table(13)) == chart_signature([(0, 3), (0, 2), (0, 1)], heap_table(17)),
{
    lemma_heap_entries();
    lemma_codes_of_word_90(heap_table(13));
    lemma_codes_of_word_38(heap_table(17));
    lemma_charts_agree_through([(0, 3), (0, 2), (0, 1)], heap_table(17), [(2, 3), (1, 2), (0, 1)], heap_table(13), 6, (6, 7, 3, 2, 5, 4, 0, 1));
}

proof fn lemma_chart_2174()
    ensures
        chart_signature([(2, 3), (1, 2), (0, 1)], heap_table(14)) == chart_signature([(0, 3), (0, 2), (0, 1)], heap_table(10)),
{
    lemma_heap_entries();
    lemma_codes_of_word_90(heap_table(14));
    lemma_codes_of_word_38(heap_table(10));
    lemma_charts_agree_through([(0, 3), (0, 2), (0, 1)], heap_table(10), [(2, 3), (1, 2), (0, 1)], heap_table(14), 7, (7, 6, 5, 4, 3, 2, 1, 0));
}

proof fn lemma_chart_2175()
    ensures
        chart_signature([(2, 3), (1, 2), (0, 1)], heap_table(15)) == chart_signature([(0, 3), (0, 2), (0, 1)], heap_table(7)),
{
    lemma_heap_entries();
    lemma_codes_of_word_90(heap_table(15));
    lemma_codes_of_word_38(heap_table(7));
    lemma_charts_agree_through([(0, 3), (0, 2), (0, 1)], heap_table(7), [(2, 3), (1, 2), (0, 1)], heap_table(15), 7, (7, 6, 5, 4, 3, 2, 1, 0));
}

proof fn lemma_chart_2176()
    ensures
        chart_signature([(2, 3), (1, 2), (0, 1)], heap_table(16)) == chart_signature([(0, 3), (0, 2), (0, 1)], heap_table(1)),
{
    lemma_heap_entries();
    lemma_codes_of_word_90(heap_table(16));
    lemma_codes_of_word_38(heap_table(1));
    lemma_charts_agree_through([(0, 3), (0, 2), (0, 1)], heap_table(1), [(2, 3), (1, 2), (0, 1)], heap_table(16), 7, (7, 6, 5, 4, 3, 2, 1, 0));
}

proof fn lemma_chart_2177()
    ensures
        chart_signature([(2, 3), (1, 2), (0, 1)], heap_table(17)) == chart_signature([(0, 3), (0, 2), (0, 1)], heap_table(4)),
{
    lemma_heap_entries();
    lemma_codes_of_word_90(heap_table(17));
    lemma_codes_of_word_38(heap_table(4));
    lemma_charts_agree_through([(0, 3), (0, 2), (0, 1)], heap_table(4), [(2, 3), (1, 2), (0, 1)], heap_table(17), 7, (7, 6, 5, 4, 3, 2, 1, 0));
}

proof fn lemma_chart_2178()
    ensures
        chart_signature([(2, 3), (1, 2), (0, 1)], heap_table(18)) == chart_signature([(0, 3), (0, 2), (0, 1)], heap_table(14)),
{
    lemma_heap_entries();
    lemma_codes_of_word_90(heap_table(18));
    lemma_codes_of_word_38(heap_table(14));
    lemma_charts_agree_through([(0, 3), (0, 2), (0, 1)], heap_table(14), [(2, 3), (1, 2), (0, 1)], heap_table(18), 7, (7, 6, 5, 4, 3, 2, 1, 0));
}

proof fn lemma_chart_2179()
    ensures
        chart_signature([(2, 3), (1, 2), (0, 1)], heap_table(19)) == chart_signature([(0, 3), (0, 2), (0, 1)], heap_table(17)),
{
    lemma_heap_entries();
    lemma_codes_of_word_90(heap_table(19));
    lemma_codes_of_word_38(heap_table(17));
    lemma_charts_agree_through([(0, 3), (0, 2), (0, 1)], heap_table(17), [(2, 3), (1, 2), (0, 1)], heap_table(19), 7, (7, 6, 5, 4, 3, 2, 1, 0));
}

proof fn lemma_chart_2180()
    ensures
        chart_signature([(2, 3), (1, 2), (0, 1)], heap_table(20)) == chart_signature([(0, 3), (0, 2), (0, 1)], heap_table(11)),
{
    lemma_heap_entries();
    lemma_codes_of_word_90(heap_table(20));
    lemma_codes_of_word_38(heap_table(11));
    lemma_charts_agree_through([(0, 3), (0, 2), (0, 1)], heap_table(11), [(2, 3), (1, 2), (0, 1)], heap_table(20), 7, (7, 6, 5, 4, 3, 2, 1, 0));
}

proof fn lemma_chart_2181()
    ensures
        chart_signature([(2, 3), (1, 2), (0, 1)], heap_table(21)) == chart_signature([(0, 3), (0, 2), (0, 1)], heap_table(8)),
{
    lemma_heap_entries();
    lemma_codes_of_word_90(heap_table(21));
    lemma_codes_of_word_38(heap_table(8));
    lemma_charts_agree_through([(0, 3), (0, 2), (0, 1)], heap_table(8), [(2, 3), (1, 2), (0, 1)], heap_table(21), 7, (7, 6, 5, 4, 3, 2, 1, 0));
}

proof fn lemma_chart_2182()
    ensures
        chart_signature([(2, 3), (1, 2), (0, 1)], heap_table(22)) == chart_signature([(0, 3), (0, 2), (0, 1)], heap_table(2)),
{
    lemma_heap_entries();
    lemma_codes_of_word_90(heap_table(22));
    lemma_codes_of_word_38(heap_table(2));
    lemma_charts_agree_through([(0, 3), (0, 2), (0, 1)], heap_table(2), [(2, 3), (1, 2), (0, 1)], heap_table(22), 7, (7, 6, 5, 4, 3, 2, 1, 0));
}

proof fn lemma_chart_2183()
    ensures
        chart_signature([(2, 3), (1, 2), (0, 1)], heap_table(23)) == chart_signature([(0, 3), (0, 2), (0, 1)], heap_table(5)),
{
    lemma_heap_entries();
    lemma_codes_of_word_90(heap_table(23));
    lemma_codes_of_word_38(heap_table(5));
    lemma_charts_agree_through([(0, 3), (0, 2), (0, 1)], heap_table(5), [(2, 3), (1, 2), (0, 1)], heap_table(23), 7, (7, 6, 5, 4, 3, 2, 1, 0));
}

/// Every chart of atlas word 90 shares its signature with the first chart
/// of a class below 216.
pub proof fn lemma_charts_of_word_90()
    ensures
        forall|t: int| 2160 <= t < 2184 ==> #[trigger] meets_class_below(t, 216),
{
    lemma_census_words();
    assert forall|t: int| 2160 <= t < 2184 implies #[trigger] meets_class_below(t, 216) by {
        if t == 2160 { lemma_chart_2160(); assert(atlas_signatures()[class_rep(206)] == atlas_signatures()[2160]); }
        else if t == 2161 { lemma_chart_2161(); assert(atlas_signatures()[class_rep(209)] == atlas_signatures()[2161]); }
        else if t == 2162 { lemma_chart_2162(); assert(atlas_signatures()[class_rep(208)] == atlas_signatures()[2162]); }
        else if t == 2163 { lemma_chart_2163(); assert(atlas_signatures()[class_rep(205)] == atlas_signatures()[2163]); }
        else if t == 2164 { lemma_chart_2164(); assert(atlas_signatures()[class_rep(204)] == atlas_signatures()[2164]); }
        else if t == 2165 { lemma_chart_2165(); assert(atlas_signatures()[class_rep(207)] == atlas_signatures()[2165]); }
        else if t == 2166 { lemma_chart_2166(); assert(atlas_signatures()[class_rep(211)] == atlas_signatures()[2166]); }
        else if t == 2167 { lemma_chart_2167(); assert(atlas_signatures()[class_rep(213)] == atlas_signatures()[2167]); }
        else if t == 2168 { lemma_chart_2168(); assert(atlas_signatures()[class_rep(212)] == atlas_signatures()[2168]); }
        else if t == 2169 { lemma_chart_2169(); assert(atlas_signatures()[class_rep(210)] == atlas_signatures()[2169]); }
        else if t == 2170 { lemma_chart_2170(); assert(atlas_signatures()[class_rep(204)] == atlas_signatures()[2170]); }
        else if t == 2171 { lemma_chart_2171(); assert(atlas_signatures()[class_rep(207)] == atlas_signatures()[2171]); }
        else if t == 2172 { lemma_chart_2172(); assert(atlas_signatures()[class_rep(214)] == atlas_signatures()[2172]); }
        else if t == 2173 { lemma_chart_2173(); assert(atlas_signatures()[class_rep(215)] == atlas_signatures()[2173]); }
        else if t == 2174 { lemma_chart_2174(); assert(atlas_signatures()[class_rep(212)] == atlas_signatures()[2174]); }
        else if t == 2175 { lemma_chart_2175(); assert(atlas_signatures()[class_rep(210)] == atlas_signatures()[2175]); }
        else if t == 2176 { lemma_chart_2176(); assert(atlas_signatures()[class_rep(205)] == atlas_signatures()[2176]); }
        else if t == 2177 { lemma_chart_2177(); assert(atlas_signatures()[class_rep(208)] == atlas_signatures()[2177]); }
        else if t == 2178 { lemma_chart_2178(); assert(atlas_signatures()[class_rep(214)] == atlas_signatures()[2178]); }
        else if t == 2179 { lemma_chart_2179(); assert(atlas_signatures()[class_rep(215)] == atlas_signatures()[2179]); }
        else if t == 2180 { lemma_chart_2180(); assert(atlas_signatures()[class_rep(213)] == atlas_signatures()[2180]); }
        else if t == 2181 { lemma_chart_2181(); assert(atlas_signatures()[class_rep(211)] == atlas_signatures()[2181]); }
        else if t == 2182 { lemma_chart_2182(); assert(atlas_signatures()[class_rep(206)] == atlas_signatures()[2182]); }
        else { lemma_chart_2183(); assert(atlas_signatures()[class_rep(209)] == atlas_signatures()[2183]); }
    }
}

proof fn lemma_chart_2184()
    ensures
        chart_signature([(2, 3), (1, 2), (0, 2)], heap_table(0)) == chart_signature([(0, 3), (0, 1), (0, 2)], heap_table(5)),
{
    lemma_heap_entries();
    lemma_codes_of_word_91(heap_table(0));
    lemma_codes_of_word_35(heap_table(5));
    lemma_charts_agree_through([(0, 3), (0, 1), (0, 2)], heap_table(5), [(2, 3), (1, 2), (0, 2)], heap_table(0), 4, (3, 5, 6, 0, 7, 1, 2, 4));
}

proof fn lemma_chart_2185()
    ensures
        chart_signature([(2, 3), (1, 2), (0, 2)], heap_table(1)) == chart_signature([(0, 3), (0, 1), (0, 2)], heap_table(2)),
{
    lemma_heap_entries();
    lemma_codes_of_word_91(heap_table(1));
    lemma_codes_of_word_35(heap_table(2));
    lemma_charts_agree_through([(0, 3), (0, 1), (0, 2)], heap_table(2), [(2, 3), (1, 2), (0, 2)], heap_table(1), 4, (3, 5, 6, 0, 7, 1, 2, 4));
}

proof fn lemma_chart_2186()
    ensures
        chart_signature([(2, 3), (1, 2), (0, 2)], heap_table(2)) == chart_signature([(0, 3), (0, 1), (0, 2)], heap_table(1)),
{
    lemma_heap_entries();
    lemma_codes_of_word_91(heap_table(2));
    lemma_codes_of_word_35(heap_table(1));
    lemma_charts_agree_through([(0, 3), (0, 1), (0, 2)], heap_table(1), [(2, 3), (1, 2), (0, 2)], heap_table(2), 4, (3, 5, 6, 0, 7, 1, 2, 4));
}

proof fn lemma_chart_2187()
    ensures
        chart_signature([(2, 3), (1, 2), (0, 2)], heap_table(3)) == chart_signature([(0, 3), (0, 1), (0, 2)], heap_table(4)),
{
    lemma_heap_entries();
    lemma_codes_of_word_91(heap_table(3));
    lemma_codes_of_word_35(heap_table(4));
    lemma_charts_agree_through([(0, 3), (0, 1), (0, 2)], heap_table(4), [(2, 3), (1, 2), (0, 2)], heap_table(3), 4, (3, 5, 6, 0, 7, 1, 2, 4));
}

proof fn lemma_chart_2188()
    ensures
        chart_signature([(2, 3), (1, 2), (0, 2)], heap_table(4)) == chart_signature([(0, 3), (0, 1), (0, 2)], heap_table(3)),
{
    lemma_heap_entries();
    lemma_codes_of_word_91(heap_table(4));
    lemma_codes_of_word_35(heap_table(3));
    lemma_charts_agree_through([(0, 3), (0, 1), (0, 2)], heap_table(3), [(2, 3), (1, 2), (0, 2)], heap_table(4), 4, (3, 5, 6, 0, 7, 1, 2, 4));
}

proof fn lemma_chart_2189()
    ensures
        chart_signature([(2, 3), (1, 2), (0, 2)], heap_table(5)) == chart_signature([(0, 3), (0, 1), (0, 2)], heap_table(0)),
{
    lemma_heap_entries();
    lemma_codes_of_word_91(heap_table(5));
    lemma_codes_of_word_35(heap_table(0));
    lemma_charts_agree_through([(0, 3), (0, 1), (0, 2)], heap_table(0), [(2, 3), (1, 2), (0, 2)], heap_table(5), 4, (3, 5, 6, 0, 7, 1, 2, 4));
}

proof fn lemma_chart_2190()
    ensures
        chart_signature([(2, 3), (1, 2), (0, 2)], heap_table(6)) == chart_signature([(0, 3), (0, 1), (0, 2)], heap_table(11)),
{
    lemma_heap_entries();
    lemma_codes_of_word_91(heap_table(6));
    lemma_codes_of_word_35(heap_table(11));
    lemma_charts_agree_through([(0, 3), (0, 1), (0, 2)], heap_table(11), [(2, 3), (1, 2), (0, 2)], heap_table(6), 4, (3, 5, 6, 0, 7, 1, 2, 4));
}

proof fn lemma_chart_2191()
    ensures
        chart_signature([(2, 3), (1, 2), (0, 2)], heap_table(7)) == chart_signature([(0, 3), (0, 1), (0, 2)], heap_table(8)),
{
    lemma_heap_entries();
    lemma_codes_of_word_91(heap_table(7));
    lemma_codes_of_word_35(heap_table(8));
    lemma_charts_agree_through([(0, 3), (0, 1), (0, 2)], heap_table(8), [(2, 3), (1, 2), (0, 2)], heap_table(7), 4, (3, 5, 6, 0, 7, 1, 2, 4));
}

proof fn lemma_chart_2192()
    ensures
        chart_signature([(2, 3), (1, 2), (0, 2)], heap_table(8)) == chart_signature([(0, 3), (0, 1), (0, 2)], heap_table(7)),
{
    lemma_heap_entries();
    lemma_codes_of_word_91(heap_table(8));
    lemma_codes_of_word_35(heap_table(7));
    lemma_charts_agree_through([(0, 3), (0, 1), (0, 2)], heap_table(7), [(2, 3), (1, 2), (0, 2)], heap_table(8), 4, (3, 5, 6, 0, 7, 1, 2, 4));
}

proof fn lemma_chart_2193()
    ensures
        chart_signature([(2, 3), (1, 2), (0, 2)], heap_table(9)) == chart_signature([(0, 3), (0, 1), (0, 2)], heap_table(10)),
{
    lemma_heap_entries();
    lemma_codes_of_word_91(heap_table(9));
    lemma_codes_of_word_35(heap_table(10));
    lemma_charts_agree_through([(0, 3), (0, 1), (0, 2)], heap_table(10), [(2, 3), (1, 2), (0, 2)], heap_table(9), 4, (3, 5, 6, 0, 7, 1, 2, 4));
}

proof fn lemma_chart_2194()
    ensures
        chart_signature([(2, 3), (1, 2), (0, 2)], heap_table(10)) == chart_signature([(0, 3), (0, 1), (0, 2)], heap_table(3)),
{
    lemma_heap_entries();
    lemma_codes_of_word_91(heap_table(10));
    lemma_codes_of_word_35(heap_table(3));
    lemma_charts_agree_through([(0, 3), (0, 1), (0, 2)], heap_table(3), [(2, 3), (1, 2), (0, 2)], heap_table(10), 5, (5, 3, 7, 1, 6, 0, 4, 2));
}

proof fn lemma_chart_2195()
    ensures
        chart_signature([(2, 3), (1, 2), (0, 2)], heap_table(11)) == chart_signature([(0, 3), (0, 1), (0, 2)], heap_table(0)),
{
    lemma_heap_entries();
    lemma_codes_of_word_91(heap_table(11));
    lemma_codes_of_word_35(heap_table(0));
    lemma_charts_agree_through([(0, 3), (0, 1), (0, 2)], heap_table(0), [(2, 3), (1, 2), (0, 2)], heap_table(11), 5, (5, 3, 7, 1, 6, 0, 4, 2));
}

proof fn lemma_chart_2196()
    ensures
        chart_signature([(2, 3), (1, 2), (0, 2)], heap_table(12)) == chart_signature([(0, 3), (0, 1), (0, 2)], heap_table(17)),
{
    lemma_heap_entries();
    lemma_codes_of_word_91(heap_table(12));
    lemma_codes_of_word_35(heap_table(17));
    lemma_charts_agree_through([(0, 3), (0, 1), (0, 2)], heap_table(17), [(2, 3), (1, 2), (0, 2)], heap_table(12), 4, (3, 5, 6, 0, 7, 1, 2, 4));
}

proof fn lemma_chart_2197()
    ensures
        chart_signature([(2, 3), (1, 2), (0, 2)], heap_table(13)) == chart_signature([(0, 3), (0, 1), (0, 2)], heap_table(14)),
{
    lemma_heap_entries();
    lemma_codes_of_word_91(heap_table(13));
    lemma_codes_of_word_35(heap_table(14));
    lemma_charts_agree_through([(0, 3), (0, 1), (0, 2)], heap_table(14), [(2, 3), (1, 2), (0, 2)], heap_table(13), 4, (3, 5, 6, 0, 7, 1, 2, 4));
}

proof fn lemma_chart_2198()
    ensures
        chart_signature([(2, 3), (1, 2), (0, 2)], heap_table(14)) == chart_signature([(0, 3), (0, 1), (0, 2)], heap_table(7)),
{
    lemma_heap_entries();
    lemma_codes_of_word_91(heap_table(14));
    lemma_codes_of_word_35(heap_table(7));
    lemma_charts_agree_through([(0, 3), (0, 1), (0, 2)], heap_table(7), [(2, 3), (1, 2), (0, 2)], heap_table(14), 5, (5, 3, 7, 1, 6, 0, 4, 2));
}

proof fn lemma_chart_2199()
    ensures
        chart_signature([(2, 3), (1, 2), (0, 2)], heap_table(15)) == chart_signature([(0, 3), (0, 1), (0, 2)], heap_table(10)),
{
    lemma_heap_entries();
    lemma_codes_of_word_91(heap_table(15));
    lemma_codes_of_word_35(heap_table(10));
    lemma_charts_agree_through([(0, 3), (0, 1), (0, 2)], heap_table(10), [(2, 3), (1, 2), (0, 2)], heap_table(15), 5, (5, 3, 7, 1, 6, 0, 4, 2));
}

proof fn lemma_chart_2200()
    ensures
        chart_signature([(2, 3), (1, 2), (0, 2)], heap_table(16)) == chart_signature([(0, 3), (0, 1), (0, 2)], heap_table(4)),
{
    lemma_heap_entries();
    lemma_codes_of_word_91(heap_table(16));
    lemma_codes_of_word_35(heap_table(4));
    lemma_charts_agree_through([(0, 3), (0, 1), (0, 2)], heap_table(4), [(2, 3), (1, 2), (0, 2)], heap_table(16), 5, (5, 3, 7, 1, 6, 0, 4, 2));
}

proof fn lemma_chart_2201()
    ensures
        chart_signature([(2, 3), (1, 2), (0, 2)], heap_table(17)) == chart_signature([(0, 3), (0, 1), (0, 2)], heap_table(1)),
{
    lemma_heap_entries();
    lemma_codes_of_word_91(heap_table(17));
    lemma_codes_of_word_35(heap_table(1));
    lemma_charts_agree_through([(0, 3), (0, 1), (0, 2)], heap_table(1), [(2, 3), (1, 2), (0, 2)], heap_table(17), 5, (5, 3, 7, 1, 6, 0, 4, 2));
}

proof fn lemma_chart_2202()
    ensures
        chart_signature([(2, 3), (1, 2), (0, 2)], heap_table(18)) == chart_signature([(0, 3), (0, 1), (0, 2)], heap_table(17)),
{
    lemma_heap_entries();
    lemma_codes_of_word_91(heap_table(18));
    lemma_codes_of_word_35(heap_table(17));
    lemma_charts_agree_through([(0, 3), (0, 1), (0, 2)], heap_table(17), [(2, 3), (1, 2), (0, 2)], heap_table(18), 5, (5, 3, 7, 1, 6, 0, 4, 2));
}

proof fn lemma_chart_2203()
    ensures
        chart_signature([(2, 3), (1, 2), (0, 2)], heap_table(19)) == chart_signature([(0, 3), (0, 1), (0, 2)], heap_table(14)),
{
    lemma_heap_entries();
    lemma_codes_of_word_91(heap_table(19));
    lemma_codes_of_word_35(heap_table(14));
    lemma_charts_agree_through([(0, 3), (0, 1), (0, 2)], heap_table(14), [(2, 3), (1, 2), (0, 2)], heap_table(19), 5, (5, 3, 7, 1, 6, 0, 4, 2));
}

proof fn lemma_chart_2204()
    ensures
        chart_signature([(2, 3), (1, 2), (0, 2)], heap_table(20)) == chart_signature([(0, 3), (0, 1), (0, 2)], heap_table(8)),
{
    lemma_heap_entries();
    lemma_codes_of_word_91(heap_table(20));
    lemma_codes_of_word_35(heap_table(8));
    lemma_charts_agree_through([(0, 3), (0, 1), (0, 2)], heap_table(8), [(2, 3), (1, 2), (0, 2)], heap_table(20), 5, (5, 3, 7, 1, 6, 0, 4, 2));
}

proof fn lemma_chart_2205()
    ensures
        chart_signature([(2, 3), (1, 2), (0, 2)], heap_table(21)) == chart_signature([(0, 3), (0, 1), (0, 2)], heap_table(11)),
{
    lemma_heap_entries();
    lemma_codes_of_word_91(heap_table(21));
    lemma_codes_of_word_35(heap_table(11));
    lemma_charts_agree_through([(0, 3), (0, 1), (0, 2)], heap_table(11), [(2, 3), (1, 2), (0, 2)], heap_table(21), 5, (5, 3, 7, 1, 6, 0, 4, 2));
}

proof fn lemma_chart_2206()
    ensures
        chart_signature([(2, 3), (1, 2), (0, 2)], heap_table(22)) == chart_signature([(0, 3), (0, 1), (0, 2)], heap_table(5)),
{
    lemma_heap_entries();
    lemma_codes_of_word_91(heap_table(22));
    lemma_codes_of_word_35(heap_table(5));
    lemma_charts_agree_through([(0, 3), (0, 1), (0, 2)], heap_table(5), [(2, 3), (1, 2), (0, 2)], heap_table(22), 5, (5, 3, 7, 1, 6, 0, 4, 2));
}

proof fn lemma_chart_2207()
    ensures
        chart_signature([(2, 3), (1, 2), (0, 2)], heap_table(23)) == chart_signature([(0, 3), (0, 1), (0, 2)], heap_table(2)),
{
    lemma_heap_entries();
    lemma_codes_of_word_91(heap_table(23));
    lemma_codes_of_word_35(heap_table(2));
    lemma_charts_agree_through([(0, 3), (0, 1), (0, 2)], heap_table(2), [(2, 3), (1, 2), (0, 2)], heap_table(23), 5, (5, 3, 7, 1, 6, 0, 4, 2));
}

/// Every chart of atlas word 91 shares its signature with the first chart
/// of a class below 216.
pub proof fn lemma_charts_of_word_91()
    ensures
        forall|t: int| 2184 <= t < 2208 ==> #[trigger] meets_class_below(t, 216),
{
    lemma_census_words();
    assert forall|t: int| 2184 <= t < 2208 implies #[trigger] meets_class_below(t, 216) by {
        if t == 2184 { lemma_chart_2184(); assert(atlas_signatures()[class_rep(185)] == atlas_signatures()[2184]); }
        else if t == 2185 { lemma_chart_2185(); assert(atlas_signatures()[class_rep(182)] == atlas_signatures()[2185]); }
        else if t == 2186 { lemma_chart_2186(); assert(atlas_signatures()[class_rep(181)] == atlas_signatures()[2186]); }
        else if t == 2187 { lemma_chart_2187(); assert(atlas_signatures()[class_rep(184)] == atlas_signatures()[2187]); }
        else if t == 2188 { lemma_chart_2188(); assert(atlas_signatures()[class_rep(183)] == atlas_signatures()[2188]); }
        else if t == 2189 { lemma_chart_2189(); assert(atlas_signatures()[class_rep(180)] == atlas_signatures()[2189]); }
        else if t == 2190 { lemma_chart_2190(); assert(atlas_signatures()[class_rep(189)] == atlas_signatures()[2190]); }
        else if t == 2191 { lemma_chart_2191(); assert(atlas_signatures()[class_rep(187)] == atlas_signatures()[2191]); }
        else if t == 2192 { lemma_chart_2192(); assert(atlas_signatures()[class_rep(186)] == atlas_signatures()[2192]); }
        else if t == 2193 { lemma_chart_2193(); assert(atlas_signatures()[class_rep(188)] == atlas_signatures()[2193]); }
        else if t == 2194 { lemma_chart_2194(); assert(atlas_signatures()[class_rep(183)] == atlas_signatures()[2194]); }
        else if t == 2195 { lemma_chart_2195(); assert(atlas_signatures()[class_rep(180)] == atlas_signatures()[2195]); }
        else if t == 2196 { lemma_chart_2196(); assert(atlas_signatures()[class_rep(191)] == atlas_signatures()[2196]); }
        else if t == 2197 { lemma_chart_2197(); assert(atlas_signatures()[class_rep(190)] == atlas_signatures()[2197]); }
        else if t == 2198 { lemma_chart_2198(); assert(atlas_signatures()[class_rep(186)] == atlas_signatures()[2198]); }
        else if t == 2199 { lemma_chart_2199(); assert(atlas_signatures()[class_rep(188)] == atlas_signatures()[2199]); }
        else if t == 2200 { lemma_chart_2200(); assert(atlas_signatures()[class_rep(184)] == atlas_signatures()[2200]); }
        else if t == 2201 { lemma_chart_2201(); assert(atlas_signatures()[class_rep(181)] == atlas_signatures()[2201]); }
        else if t == 2202 { lemma_chart_2202(); assert(atlas_signatures()[class_rep(191)] == atlas_signatures()[2202]); }
        else if t == 2203 { lemma_chart_2203(); assert(atlas_signatures()[class_rep(190)] == atlas_signatures()[2203]); }
        else if t == 2204 { lemma_chart_2204(); assert(atlas_signatures()[class_rep(187)] == atlas_signatures()[2204]); }
        else if t == 2205 { lemma_chart_2205(); assert(atlas_signatures()[class_rep(189)] == atlas_signatures()[2205]); }
        else if t == 2206 { lemma_chart_2206(); assert(atlas_signatures()[class_rep(185)] == atlas_signatures()[2206]); }
        else { lemma_chart_2207(); assert(atlas_signatures()[class_rep(182)] == atlas_signatures()[2207]); }
    }
}

proof fn lemma_chart_2208()
    ensures
        chart_signature([(2, 3), (1, 2), (0, 3)], heap_table(0)) == chart_signature([(0, 2), (0, 3), (1, 2)], heap_table(6)),
{
    lemma_heap_entries();
    lemma_codes_of_word_92(heap_table(0));
    lemma_codes_of_word_3(heap_table(6));
    lemma_charts_agree_through([(0, 2), (0, 3), (1, 2)], heap_table(6), [(2, 3), (1, 2), (0, 3)], heap_table(0), 10, (2, 4, 6, 0, 7, 1, 3, 5));
}

proof fn lemma_chart_2209()
    ensures
        chart_signature([(2, 3), (1, 2), (0, 3)], heap_table(1)) == chart_signature([(0, 2), (0, 3), (1, 2)], heap_table(12)),
{
    lemma_heap_entries();
    lemma_codes_of_word_92(heap_table(1));
    lemma_codes_of_word_3(heap_table(12));
    lemma_charts_agree_through([(0, 2), (0, 3), (1, 2)], heap_table(12), [(2, 3), (1, 2), (0, 3)], heap_table(1), 10, (2, 4, 6, 0, 7, 1, 3, 5));
}

proof fn lemma_chart_2210()
    ensures
        chart_signature([(2, 3), (1, 2), (0, 3)], heap_table(2)) == chart_signature([(0, 2), (0, 3), (1, 2)], heap_table(18)),
{
    lemma_heap_entries();
    lemma_codes_of_word_92(heap_table(2));
    lemma_codes_of_word_3(heap_table(18));
    lemma_charts_agree_through([(0, 2), (0, 3), (1, 2)], heap_table(18), [(2, 3), (1, 2), (0, 3)], heap_table(2), 10, (2, 4, 6, 0, 7, 1, 3, 5));
}

proof fn lemma_chart_2211()
    ensures
        chart_signature([(2, 3), (1, 2), (0, 3)], heap_table(3)) == chart_signature([(0, 2), (0, 3), (1, 2)], heap_table(9)),
{
    lemma_heap_entries();
    lemma_codes_of_word_92(heap_table(3));
    lemma_codes_of_word_3(heap_table(9));
    lemma_charts_agree_through([(0, 2), (0, 3), (1, 2)], heap_table(9), [(2, 3), (1, 2), (0, 3)], heap_table(3), 10, (2, 4, 6, 0, 7, 1, 3, 5));
}

proof fn lemma_chart_2212()
    ensures
        chart_signature([(2, 3), (1, 2), (0, 3)], heap_table(4)) == chart_signature([(0, 2), (0, 3), (1, 2)], heap_table(15)),
{
    lemma_heap_entries();
    lemma_codes_of_word_92(heap_table(4));
    lemma_codes_of_word_3(heap_table(15));
    lemma_charts_agree_through([(0, 2), (0, 3), (1, 2)], heap_table(15), [(2, 3), (1, 2), (0, 3)], heap_table(4), 10, (2, 4, 6, 0, 7, 1, 3, 5));
}

proof fn lemma_chart_2213()
    ensures
        chart_signature([(2, 3), (1, 2), (0, 3)], heap_table(5)) == chart_signature([(0, 2), (0, 3), (1, 2)], heap_table(21)),
{
    lemma_heap_entries();
    lemma_codes_of_word_92(heap_table(5));
    lemma_codes_of_word_3(heap_table(21));
    lemma_charts_agree_through([(0, 2), (0, 3), (1, 2)], heap_table(21), [(2, 3), (1, 2), (0, 3)], heap_table(5), 10, (2, 4, 6, 0, 7, 1, 3, 5));
}

proof fn lemma_chart_2214()
    ensures
        chart_signature([(2, 3), (1, 2), (0, 3)], heap_table(6)) == chart_signature([(0, 2), (0, 3), (1, 2)], heap_table(0)),
{
    lemma_heap_entries();
    lemma_codes_of_word_92(heap_table(6));
    lemma_codes_of_word_3(heap_table(0));
    lemma_charts_agree_through([(0, 2), (0, 3), (1, 2)], heap_table(0), [(2, 3), (1, 2), (0, 3)], heap_table(6), 10, (2, 4, 6, 0, 7, 1, 3, 5));
}

proof fn lemma_chart_2215()
    ensures
        chart_signature([(2, 3), (1, 2), (0, 3)], heap_table(7)) == chart_signature([(0, 2), (0, 3), (1, 2)], heap_table(13)),
{
    lemma_heap_entries();
    lemma_codes_of_word_92(heap_table(7));
    lemma_codes_of_word_3(heap_table(13));
    lemma_charts_agree_through([(0, 2), (0, 3), (1, 2)], heap_table(13), [(2, 3), (1, 2), (0, 3)], heap_table(7), 10, (2, 4, 6, 0, 7, 1, 3, 5));
}

proof fn lemma_chart_2216()
    ensures
        chart_signature([(2, 3), (1, 2), (0, 3)], heap_table(8)) == chart_signature([(0, 2), (0, 3), (1, 2)], heap_table(19)),
{
    lemma_heap_entries();
    lemma_codes_of_word_92(heap_table(8));
    lemma_codes_of_word_3(heap_table(19));
    lemma_charts_agree_through([(0, 2), (0, 3), (1, 2)], heap_table(19), [(2, 3), (1, 2), (0, 3)], heap_table(8), 10, (2, 4, 6, 0, 7, 1, 3, 5));
}

proof fn lemma_chart_2217()
    ensures
        chart_signature([(2, 3), (1, 2), (0, 3)], heap_table(9)) == chart_signature([(0, 2), (0, 3), (1, 2)], heap_table(3)),
{
    lemma_heap_entries();
    lemma_codes_of_word_92(heap_table(9));
    lemma_codes_of_word_3(heap_table(3));
    lemma_charts_agree_through([(0, 2), (0, 3), (1, 2)], heap_table(3), [(2, 3), (1, 2), (0, 3)], heap_table(9), 10, (2, 4, 6, 0, 7, 1, 3, 5));
}

proof fn lemma_chart_2218()
    ensures
        chart_signature([(2, 3), (1, 2), (0, 3)], heap_table(10)) == chart_signature([(0, 2), (0, 3), (1, 2)], heap_table(15)),
{
    lemma_heap_entries();
    lemma_codes_of_word_92(heap_table(10));
    lemma_codes_of_word_3(heap_table(15));
    lemma_charts_agree_through([(0, 2), (0, 3), (1, 2)], heap_table(15), [(2, 3), (1, 2), (0, 3)], heap_table(10), 11, (4, 2, 7, 1, 6, 0, 5, 3));
}

proof fn lemma_chart_2219()
    ensures
        chart_signature([(2, 3), (1, 2), (0, 3)], heap_table(11)) == chart_signature([(0, 2), (0, 3), (1, 2)], heap_table(21)),
{
    lemma_heap_entries();
    lemma_codes_of_word_92(heap_table(11));
    lemma_codes_of_word_3(heap_table(21));
    lemma_charts_agree_through([(0, 2), (0, 3), (1, 2)], heap_table(21), [(2, 3), (1, 2), (0, 3)], heap_table(11), 11, (4, 2, 7, 1, 6, 0, 5, 3));
}

proof fn lemma_chart_2220()
    ensures
        chart_signature([(2, 3), (1, 2), (0, 3)], heap_table(12)) == chart_signature([(0, 2), (0, 3), (1, 2)], heap_table(1)),
{
    lemma_heap_entries();
    lemma_codes_of_word_92(heap_table(12));
    lemma_codes_of_word_3(heap_table(1));
    lemma_charts_agree_through([(0, 2), (0, 3), (1, 2)], heap_table(1), [(2, 3), (1, 2), (0, 3)], heap_table(12), 10, (2, 4, 6, 0, 7, 1, 3, 5));
}

proof fn lemma_chart_2221()
    ensures
        chart_signature([(2, 3), (1, 2), (0, 3)], heap_table(13)) == chart_signature([(0, 2), (0, 3), (1, 2)], heap_table(7)),
{
    lemma_heap_entries();
    lemma_codes_of_word_92(heap_table(13));
    lemma_codes_of_word_3(heap_table(7));
    lemma_charts_agree_through([(0, 2), (0, 3), (1, 2)], heap_table(7), [(2, 3), (1, 2), (0, 3)], heap_table(13), 10, (2, 4, 6, 0, 7, 1, 3, 5));
}

proof fn lemma_chart_2222()
    ensures
        chart_signature([(2, 3), (1, 2), (0, 3)], heap_table(14)) == chart_signature([(0, 2), (0, 3), (1, 2)], heap_table(19)),
{
    lemma_heap_entries();
    lemma_codes_of_word_92(heap_table(14));
    lemma_codes_of_word_3(heap_table(19));
    lemma_charts_agree_through([(0, 2), (0, 3), (1, 2)], heap_table(19), [(2, 3), (1, 2), (0, 3)], heap_table(14), 11, (4, 2, 7, 1, 6, 0, 5, 3));
}

proof fn lemma_chart_2223()
    ensures
        chart_signature([(2, 3), (1, 2), (0, 3)], heap_table(15)) == chart_signature([(0, 2), (0, 3), (1, 2)], heap_table(3)),
{
    lemma_heap_entries();
    lemma_codes_of_word_92(heap_table(15));
    lemma_codes_of_word_3(heap_table(3));
    lemma_charts_agree_through([(0, 2), (0, 3), (1, 2)], heap_table(3), [(2, 3), (1, 2), (0, 3)], heap_table(15), 11, (4, 2, 7, 1, 6, 0, 5, 3));
}

proof fn lemma_chart_2224()
    ensures
        chart_signature([(2, 3), (1, 2), (0, 3)], heap_table(16)) == chart_signature([(0, 2), (0, 3), (1, 2)], heap_table(9)),
{
    lemma_heap_entries();
    lemma_codes_of_word_92(heap_table(16));
    lemma_codes_of_word_3(heap_table(9));
    lemma_charts_agree_through([(0, 2), (0, 3), (1, 2)], heap_table(9), [(2, 3), (1, 2), (0, 3)], heap_table(16), 11, (4, 2, 7, 1, 6, 0, 5, 3));
}

proof fn lemma_chart_2225()
    ensures
        chart_signature([(2, 3), (1, 2), (0, 3)], heap_table(17)) == chart_signature([(0, 2), (0, 3), (1, 2)], heap_table(18)),
{
    lemma_heap_entries();
    lemma_codes_of_word_92(heap_table(17));
    lemma_codes_of_word_3(heap_table(18));
    lemma_charts_agree_through([(0, 2), (0, 3), (1, 2)], heap_table(18), [(2, 3), (1, 2), (0, 3)], heap_table(17), 11, (4, 2, 7, 1, 6, 0, 5, 3));
}

proof fn lemma_chart_2226()
    ensures
        chart_signature([(2, 3), (1, 2), (0, 3)], heap_table(18)) == chart_signature([(0, 2), (0, 3), (1, 2)], heap_table(1)),
{
    lemma_heap_entries();
    lemma_codes_of_word_92(heap_table(18));
    lemma_codes_of_word_3(heap_table(1));
    lemma_charts_agree_through([(0, 2), (0, 3), (1, 2)], heap_table(1), [(2, 3), (1, 2), (0, 3)], heap_table(18), 11, (4, 2, 7, 1, 6, 0, 5, 3));
}

proof fn lemma_chart_2227()
    ensures
        chart_signature([(2, 3), (1, 2), (0, 3)], heap_table(19)) == chart_signature([(0, 2), (0, 3), (1, 2)], heap_table(7)),
{
    lemma_heap_entries();
    lemma_codes_of_word_92(heap_table(19));
    lemma_codes_of_word_3(heap_table(7));
    lemma_charts_agree_through([(0, 2), (0, 3), (1, 2)], heap_table(7), [(2, 3), (1, 2), (0, 3)], heap_table(19), 11, (4, 2, 7, 1, 6, 0, 5, 3));
}

proof fn lemma_chart_2228()
    ensures
        chart_signature([(2, 3), (1, 2), (0, 3)], heap_table(20)) == chart_signature([(0, 2), (0, 3), (1, 2)], heap_table(13)),
{
    lemma_heap_entries();
    lemma_codes_of_word_92(heap_table(20));
    lemma_codes_of_word_3(heap_table(13));
    lemma_charts_agree_through([(0, 2), (0, 3), (1, 2)], heap_table(13), [(2, 3), (1, 2), (0, 3)], heap_table(20), 11, (4, 2, 7, 1, 6, 0, 5, 3));
}

proof fn lemma_chart_2229()
    ensures
        chart_signature([(2, 3), (1, 2), (0, 3)], heap_table(21)) == chart_signature([(0, 2), (0, 3), (1, 2)], heap_table(0)),
{
    lemma_heap_entries();
    lemma_codes_of_word_92(heap_table(21));
    lemma_codes_of_word_3(heap_table(0));
    lemma_charts_agree_through([(0, 2), (0, 3), (1, 2)], heap_table(0), [(2, 3), (1, 2), (0, 3)], heap_table(21), 11, (4, 2, 7, 1, 6, 0, 5, 3));
}

proof fn lemma_chart_2230()
    ensures
        chart_signature([(2, 3), (1, 2), (0, 3)], heap_table(22)) == chart_signature([(0, 2), (0, 3), (1, 2)], heap_table(6)),
{
    lemma_heap_entries();
    lemma_codes_of_word_92(heap_table(22));
    lemma_codes_of_word_3(heap_table(6));
    lemma_charts_agree_through([(0, 2), (0, 3), (1, 2)], heap_table(6), [(2, 3), (1, 2), (0, 3)], heap_table(22), 11, (4, 2, 7, 1, 6, 0, 5, 3));
}

proof fn lemma_chart_2231()
    ensures
        chart_signature([(2, 3), (1, 2), (0, 3)], heap_table(23)) == chart_signature([(0, 2), (0, 3), (1, 2)], heap_table(12)),
{
    lemma_heap_entries();
    lemma_codes_of_word_92(heap_table(23));
    lemma_codes_of_word_3(heap_table(12));
    lemma_charts_agree_through([(0, 2), (0, 3), (1, 2)], heap_table(12), [(2, 3), (1, 2), (0, 3)], heap_table(23), 11, (4, 2, 7, 1, 6, 0, 5, 3));
}

/// Every chart of atlas word 92 shares its signature with the first chart
/// of a class below 216.
pub proof fn lemma_charts_of_word_92()
    ensures
        forall|t: int| 2208 <= t < 2232 ==> #[trigger] meets_class_below(t, 216),
{
    lemma_census_words();
    assert forall|t: int| 2208 <= t < 2232 implies #[trigger] meets_class_below(t, 216) by {
        if t == 2208 { lemma_chart_2208(); assert(atlas_signatures()[class_rep(39)] == atlas_signatures()[2208]); }
        else if t == 2209 { lemma_chart_2209(); assert(atlas_signatures()[class_rep(42)] == atlas_signatures()[2209]); }
        else if t == 2210 { lemma_chart_2210(); assert(atlas_signatures()[class_rep(45)] == atlas_signatures()[2210]); }
        else if t == 2211 { lemma_chart_2211(); assert(atlas_signatures()[class_rep(41)] == atlas_signatures()[2211]); }
        else if t == 2212 { lemma_chart_2212(); assert(atlas_signatures()[class_rep(44)] == atlas_signatures()[2212]); }
        else if t == 2213 { lemma_chart_2213(); assert(atlas_signatures()[class_rep(47)] == atlas_signatures()[2213]); }
        else if t == 2214 { lemma_chart_2214(); assert(atlas_signatures()[class_rep(36)] == atlas_signatures()[2214]); }
        else if t == 2215 { lemma_chart_2215(); assert(atlas_signatures()[class_rep(43)] == atlas_signatures()[2215]); }
        else if t == 2216 { lemma_chart_2216(); assert(atlas_signatures()[class_rep(46)] == atlas_signatures()[2216]); }
        else if t == 2217 { lemma_chart_2217(); assert(atlas_signatures()[class_rep(38)] == atlas_signatures()[2217]); }
        else if t == 2218 { lemma_chart_2218(); assert(atlas_signatures()[class_rep(44)] == atlas_signatures()[2218]); }
        else if t == 2219 { lemma_chart_2219(); assert(atlas_signatures()[class_rep(47)] == atlas_signatures()[2219]); }
        else if t == 2220 { lemma_chart_2220(); assert(atlas_signatures()[class_rep(37)] == atlas_signatures()[2220]); }
        else if t == 2221 { lemma_chart_2221(); assert(atlas_signatures()[class_rep(40)] == atlas_signatures()[2221]); }
        else if t == 2222 { lemma_chart_2222(); assert(atlas_signatures()[class_rep(46)] == atlas_signatures()[2222]); }
        else if t == 2223 { lemma_chart_2223(); assert(atlas_signatures()[class_rep(38)] == atlas_signatures()[2223]); }
        else if t == 2224 { lemma_chart_2224(); assert(atlas_signatures()[class_rep(41)] == atlas_signatures()[2224]); }
        else if t == 2225 { lemma_chart_2225(); assert(atlas_signatures()[class_rep(45)] == atlas_signatures()[2225]); }
        else if t == 2226 { lemma_chart_2226(); assert(atlas_signatures()[class_rep(37)] == atlas_signatures()[2226]); }
        else if t == 2227 { lemma_chart_2227(); assert(atlas_signatures()[class_rep(40)] == atlas_signatures()[2227]); }
        else if t == 2228 { lemma_chart_2228(); assert(atlas_signatures()[class_rep(43)] == atlas_signatures()[2228]); }
        else if t == 2229 { lemma_chart_2229(); assert(atlas_signatures()[class_rep(36)] == atlas_signatures()[2229]); }
        else if t == 2230 { lemma_chart_2230(); assert(atlas_signatures()[class_rep(39)] == atlas_signatures()[2230]); }
        else { lemma_chart_2231(); assert(atlas_signatures()[class_rep(42)] == atlas_signatures()[2231]); }
    }
}

proof fn lemma_chart_2232()
    ensures
        chart_signature([(2, 3), (1, 3), (0, 1)], heap_table(0)) == chart_signature([(0, 2), (0, 3), (0, 1)], heap_table(12)),
{
    lemma_heap_entries();
    lemma_codes_of_word_93(heap_table(0));
    lemma_codes_of_word_27(heap_table(12));
    lemma_charts_agree_through([(0, 2), (0, 3), (0, 1)], heap_table(12), [(2, 3), (1, 3), (0, 1)], heap_table(0), 6, (6, 7, 3, 2, 5, 4, 0, 1));
}

proof fn lemma_chart_2233()
    ensures
        chart_signature([(2, 3), (1, 3), (0, 1)], heap_table(1)) == chart_signature([(0, 2), (0, 3), (0, 1)], heap_table(6)),
{
    lemma_heap_entries();
    lemma_codes_of_word_93(heap_table(1));
    lemma_codes_of_word_27(heap_table(6));
    lemma_charts_agree_through([(0, 2), (0, 3), (0, 1)], heap_table(6), [(2, 3), (1, 3), (0, 1)], heap_table(1), 6, (6, 7, 3, 2, 5, 4, 0, 1));
}

proof fn lemma_chart_2234()
    ensures
        chart_signature([(2, 3), (1, 3), (0, 1)], heap_table(2)) == chart_signature([(0, 2), (0, 3), (0, 1)], heap_table(9)),
{
    lemma_heap_entries();
    lemma_codes_of_word_93(heap_table(2));
    lemma_codes_of_word_27(heap_table(9));
    lemma_charts_agree_through([(0, 2), (0, 3), (0, 1)], heap_table(9), [(2, 3), (1, 3), (0, 1)], heap_table(2), 6, (6, 7, 3, 2, 5, 4, 0, 1));
}

proof fn lemma_chart_2235()
    ensures
        chart_signature([(2, 3), (1, 3), (0, 1)], heap_table(3)) == chart_signature([(0, 2), (0, 3), (0, 1)], heap_table(18)),
{
    lemma_heap_entries();
    lemma_codes_of_word_93(heap_table(3));
    lemma_codes_of_word_27(heap_table(18));
    lemma_charts_agree_through([(0, 2), (0, 3), (0, 1)], heap_table(18), [(2, 3), (1, 3), (0, 1)], heap_table(3), 6, (6, 7, 3, 2, 5, 4, 0, 1));
}

proof fn lemma_chart_2236()
    ensures
        chart_signature([(2, 3), (1, 3), (0, 1)], heap_table(4)) == chart_signature([(0, 2), (0, 3), (0, 1)], heap_table(21)),
{
    lemma_heap_entries();
    lemma_codes_of_word_93(heap_table(4));
    lemma_codes_of_word_27(heap_table(21));
    lemma_charts_agree_through([(0, 2), (0, 3), (0, 1)], heap_table(21), [(2, 3), (1, 3), (0, 1)], heap_table(4), 6, (6, 7, 3, 2, 5, 4, 0, 1));
}

proof fn lemma_chart_2237()
    ensures
        chart_signature([(2, 3), (1, 3), (0, 1)], heap_table(5)) == chart_signature([(0, 2), (0, 3), (0, 1)], heap_table(15)),
{
    lemma_heap_entries();
    lemma_codes_of_word_93(heap_table(5));
    lemma_codes_of_word_27(heap_table(15));
    lemma_charts_agree_through([(0, 2), (0, 3), (0, 1)], heap_table(15), [(2, 3), (1, 3), (0, 1)], heap_table(5), 6, (6, 7, 3, 2, 5, 4, 0, 1));
}

proof fn lemma_chart_2238()
    ensures
        chart_signature([(2, 3), (1, 3), (0, 1)], heap_table(6)) == chart_signature([(0, 2), (0, 3), (0, 1)], heap_table(13)),
{
    lemma_heap_entries();
    lemma_codes_of_word_93(heap_table(6));
    lemma_codes_of_word_27(heap_table(13));
    lemma_charts_agree_through([(0, 2), (0, 3), (0, 1)], heap_table(13), [(2, 3), (1, 3), (0, 1)], heap_table(6), 6, (6, 7, 3, 2, 5, 4, 0, 1));
}

proof fn lemma_chart_2239()
    ensures
        chart_signature([(2, 3), (1, 3), (0, 1)], heap_table(7)) == chart_signature([(0, 2), (0, 3), (0, 1)], heap_table(0)),
{
    lemma_heap_entries();
    lemma_codes_of_word_93(heap_table(7));
    lemma_codes_of_word_27(heap_table(0));
    lemma_charts_agree_through([(0, 2), (0, 3), (0, 1)], heap_table(0), [(2, 3), (1, 3), (0, 1)], heap_table(7), 6, (6, 7, 3, 2, 5, 4, 0, 1));
}

proof fn lemma_chart_2240()
    ensures
        chart_signature([(2, 3), (1, 3), (0, 1)], heap_table(8)) == chart_signature([(0, 2), (0, 3), (0, 1)], heap_table(3)),
{
    lemma_heap_entries();
    lemma_codes_of_word_93(heap_table(8));
    lemma_codes_of_word_27(heap_table(3));
    lemma_charts_agree_through([(0, 2), (0, 3), (0, 1)], heap_table(3), [(2, 3), (1, 3), (0, 1)], heap_table(8), 6, (6, 7, 3, 2, 5, 4, 0, 1));
}

proof fn lemma_chart_2241()
    ensures
        chart_signature([(2, 3), (1, 3), (0, 1)], heap_table(9)) == chart_signature([(0, 2), (0, 3), (0, 1)], heap_table(19)),
{
    lemma_heap_entries();
    lemma_codes_of_word_93(heap_table(9));
    lemma_codes_of_word_27(heap_table(19));
    lemma_charts_agree_through([(0, 2), (0, 3), (0, 1)], heap_table(19), [(2, 3), (1, 3), (0, 1)], heap_table(9), 6, (6, 7, 3, 2, 5, 4, 0, 1));
}

proof fn lemma_chart_2242()
    ensures
        chart_signature([(2, 3), (1, 3), (0, 1)], heap_table(10)) == chart_signature([(0, 2), (0, 3), (0, 1)], heap_table(21)),
{
    lemma_heap_entries();
    lemma_codes_of_word_93(heap_table(10));
    lemma_codes_of_word_27(heap_table(21));
    lemma_charts_agree_through([(0, 2), (0, 3), (0, 1)], heap_table(21), [(2, 3), (1, 3), (0, 1)], heap_table(10), 7, (7, 6, 5, 4, 3, 2, 1, 0));
}

proof fn lemma_chart_2243()
    ensures
        chart_signature([(2, 3), (1, 3), (0, 1)], heap_table(11)) == chart_signature([(0, 2), (0, 3), (0, 1)], heap_table(15)),
{
    lemma_heap_entries();
    lemma_codes_of_word_93(heap_table(11));
    lemma_codes_of_word_27(heap_table(15));
    lemma_charts_agree_through([(0, 2), (0, 3), (0, 1)], heap_table(15), [(2, 3), (1, 3), (0, 1)], heap_table(11), 7, (7, 6, 5, 4, 3, 2, 1, 0));
}

proof fn lemma_chart_2244()
    ensures
        chart_signature([(2, 3), (1, 3), (0, 1)], heap_table(12)) == chart_signature([(0, 2), (0, 3), (0, 1)], heap_table(7)),
{
    lemma_heap_entries();
    lemma_codes_of_word_93(heap_table(12));
    lemma_codes_of_word_27(heap_table(7));
    lemma_charts_agree_through([(0, 2), (0, 3), (0, 1)], heap_table(7), [(2, 3), (1, 3), (0, 1)], heap_table(12), 6, (6, 7, 3, 2, 5, 4, 0, 1));
}

proof fn lemma_chart_2245()
    ensures
        chart_signature([(2, 3), (1, 3), (0, 1)], heap_table(13)) == chart_signature([(0, 2), (0, 3), (0, 1)], heap_table(1)),
{
    lemma_heap_entries();
    lemma_codes_of_word_93(heap_table(13));
    lemma_codes_of_word_27(heap_table(1));
    lemma_charts_agree_through([(0, 2), (0, 3), (0, 1)], heap_table(1), [(2, 3), (1, 3), (0, 1)], heap_table(13), 6, (6, 7, 3, 2, 5, 4, 0, 1));
}

proof fn lemma_chart_2246()
    ensures
        chart_signature([(2, 3), (1, 3), (0, 1)], heap_table(14)) == chart_signature([(0, 2), (0, 3), (0, 1)], heap_table(3)),
{
    lemma_heap_entries();
    lemma_codes_of_word_93(heap_table(14));
    lemma_codes_of_word_27(heap_table(3));
    lemma_charts_agree_through([(0, 2), (0, 3), (0, 1)], heap_table(3), [(2, 3), (1, 3), (0, 1)], heap_table(14), 7, (7, 6, 5, 4, 3, 2, 1, 0));
}

proof fn lemma_chart_2247()
    ensures
        chart_signature([(2, 3), (1, 3), (0, 1)], heap_table(15)) == chart_signature([(0, 2), (0, 3), (0, 1)], heap_table(19)),
{
    lemma_heap_entries();
    lemma_codes_of_word_93(heap_table(15));
    lemma_codes_of_word_27(heap_table(19));
    lemma_charts_agree_through([(0, 2), (0, 3), (0, 1)], heap_table(19), [(2, 3), (1, 3), (0, 1)], heap_table(15), 7, (7, 6, 5, 4, 3, 2, 1, 0));
}

proof fn lemma_chart_2248()
    ensures
        chart_signature([(2, 3), (1, 3), (0, 1)], heap_table(16)) == chart_signature([(0, 2), (0, 3), (0, 1)], heap_table(18)),
{
    lemma_heap_entries();
    lemma_codes_of_word_93(heap_table(16));
    lemma_codes_of_word_27(heap_table(18));
    lemma_charts_agree_through([(0, 2), (0, 3), (0, 1)], heap_table(18), [(2, 3), (1, 3), (0, 1)], heap_table(16), 7, (7, 6, 5, 4, 3, 2, 1, 0));
}

proof fn lemma_chart_2249()
    ensures
        chart_signature([(2, 3), (1, 3), (0, 1)], heap_table(17)) == chart_signature([(0, 2), (0, 3), (0, 1)], heap_table(9)),
{
    lemma_heap_entries();
    lemma_codes_of_word_93(heap_table(17));
    lemma_codes_of_word_27(heap_table(9));
    lemma_charts_agree_through([(0, 2), (0, 3), (0, 1)], heap_table(9), [(2, 3), (1, 3), (0, 1)], heap_table(17), 7, (7, 6, 5, 4, 3, 2, 1, 0));
}

proof fn lemma_chart_2250()
    ensures
        chart_signature([(2, 3), (1, 3), (0, 1)], heap_table(18)) == chart_signature([(0, 2), (0, 3), (0, 1)], heap_table(7)),
{
    lemma_heap_entries();
    lemma_codes_of_word_93(heap_table(18));
    lemma_codes_of_word_27(heap_table(7));
    lemma_charts_agree_through([(0, 2), (0, 3), (0, 1)], heap_table(7), [(2, 3), (1, 3), (0, 1)], heap_table(18), 7, (7, 6, 5, 4, 3, 2, 1, 0));
}

proof fn lemma_chart_2251()
    ensures
        chart_signature([(2, 3), (1, 3), (0, 1)], heap_table(19)) == chart_signature([(0, 2), (0, 3), (0, 1)], heap_table(1)),
{
    lemma_heap_entries();
    lemma_codes_of_word_93(heap_table(19));
    lemma_codes_of_word_27(heap_table(1));
    lemma_charts_agree_through([(0, 2), (0, 3), (0, 1)], heap_table(1), [(2, 3), (1, 3), (0, 1)], heap_table(19), 7, (7, 6, 5, 4, 3, 2, 1, 0));
}

proof fn lemma_chart_2252()
    ensures
        chart_signature([(2, 3), (1, 3), (0, 1)], heap_table(20)) == chart_signature([(0, 2), (0, 3), (0, 1)], heap_table(0)),
{
    lemma_heap_entries();
    lemma_codes_of_word_93(heap_table(20));
    lemma_codes_of_word_27(heap_table(0));
    lemma_charts_agree_through([(0, 2), (0, 3), (0, 1)], heap_table(0), [(2, 3), (1, 3), (0, 1)], heap_table(20), 7, (7, 6, 5, 4, 3, 2, 1, 0));
}

proof fn lemma_chart_2253()
    ensures
        chart_signature([(2, 3), (1, 3), (0, 1)], heap_table(21)) == chart_signature([(0, 2), (0, 3), (0, 1)], heap_table(13)),
{
    lemma_heap_entries();
    lemma_codes_of_word_93(heap_table(21));
    lemma_codes_of_word_27(heap_table(13));
    lemma_charts_agree_through([(0, 2), (0, 3), (0, 1)], heap_table(13), [(2, 3), (1, 3), (0, 1)], heap_table(21), 7, (7, 6, 5, 4, 3, 2, 1, 0));
}

proof fn lemma_chart_2254()
    ensures
        chart_signature([(2, 3), (1, 3), (0, 1)], heap_table(22)) == chart_signature([(0, 2), (0, 3), (0, 1)], heap_table(12)),
{
    lemma_heap_entries();
    lemma_codes_of_word_93(heap_table(22));
    lemma_codes_of_word_27(heap_table(12));
    lemma_charts_agree_through([(0, 2), (0, 3), (0, 1)], heap_table(12), [(2, 3), (1, 3), (0, 1)], heap_table(22), 7, (7, 6, 5, 4, 3, 2, 1, 0));
}

proof fn lemma_chart_2255()
    ensures
        chart_signature([(2, 3), (1, 3), (0, 1)], heap_table(23)) == chart_signature([(0, 2), (0, 3), (0, 1)], heap_table(6)),
{
    lemma_heap_entries();
    lemma_codes_of_word_93(heap_table(23));
    lemma_codes_of_word_27(heap_table(6));
    lemma_charts_agree_through([(0, 2), (0, 3), (0, 1)], heap_table(6), [(2, 3), (1, 3), (0, 1)], heap_table(23), 7, (7, 6, 5, 4, 3, 2, 1, 0));
}

/// Every chart of atlas word 93 shares its signature with the first chart
/// of a class below 216.
pub proof fn lemma_charts_of_word_93()
    ensures
        forall|t: int| 2232 <= t < 2256 ==> #[trigger] meets_class_below(t, 216),
{
    lemma_census_words();
    assert forall|t: int| 2232 <= t < 2256 implies #[trigger] meets_class_below(t, 216) by {
        if t == 2232 { lemma_chart_2232(); assert(atlas_signatures()[class_rep(168)] == atlas_signatures()[2232]); }
        else if t == 2233 { lemma_chart_2233(); assert(atlas_signatures()[class_rep(165)] == atlas_signatures()[2233]); }
        else if t == 2234 { lemma_chart_2234(); assert(atlas_signatures()[class_rep(167)] == atlas_signatures()[2234]); }
        else if t == 2235 { lemma_chart_2235(); assert(atlas_signatures()[class_rep(171)] == atlas_signatures()[2235]); }
        else if t == 2236 { lemma_chart_2236(); assert(atlas_signatures()[class_rep(173)] == atlas_signatures()[2236]); }
        else if t == 2237 { lemma_chart_2237(); assert(atlas_signatures()[class_rep(170)] == atlas_signatures()[2237]); }
        else if t == 2238 { lemma_chart_2238(); assert(atlas_signatures()[class_rep(169)] == atlas_signatures()[2238]); }
        else if t == 2239 { lemma_chart_2239(); assert(atlas_signatures()[class_rep(162)] == atlas_signatures()[2239]); }
        else if t == 2240 { lemma_chart_2240(); assert(atlas_signatures()[class_rep(164)] == atlas_signatures()[2240]); }
        else if t == 2241 { lemma_chart_2241(); assert(atlas_signatures()[class_rep(172)] == atlas_signatures()[2241]); }
        else if t == 2242 { lemma_chart_2242(); assert(atlas_signatures()[class_rep(173)] == atlas_signatures()[2242]); }
        else if t == 2243 { lemma_chart_2243(); assert(atlas_signatures()[class_rep(170)] == atlas_signatures()[2243]); }
        else if t == 2244 { lemma_chart_2244(); assert(atlas_signatures()[class_rep(166)] == atlas_signatures()[2244]); }
        else if t == 2245 { lemma_chart_2245(); assert(atlas_signatures()[class_rep(163)] == atlas_signatures()[2245]); }
        else if t == 2246 { lemma_chart_2246(); assert(atlas_signatures()[class_rep(164)] == atlas_signatures()[2246]); }
        else if t == 2247 { lemma_chart_2247(); assert(atlas_signatures()[class_rep(172)] == atlas_signatures()[2247]); }
        else if t == 2248 { lemma_chart_2248(); assert(atlas_signatures()[class_rep(171)] == atlas_signatures()[2248]); }
        else if t == 2249 { lemma_chart_2249(); assert(atlas_signatures()[class_rep(167)] == atlas_signatures()[2249]); }
        else if t == 2250 { lemma_chart_2250(); assert(atlas_signatures()[class_rep(166)] == atlas_signatures()[2250]); }
        else if t == 2251 { lemma_chart_2251(); assert(atlas_signatures()[class_rep(163)] == atlas_signatures()[2251]); }
        else if t == 2252 { lemma_chart_2252(); assert(atlas_signatures()[class_rep(162)] == atlas_signatures()[2252]); }
        else if t == 2253 { lemma_chart_2253(); assert(atlas_signatures()[class_rep(169)] == atlas_signatures()[2253]); }
        else if t == 2254 { lemma_chart_2254(); assert(atlas_signatures()[class_rep(168)] == atlas_signatures()[2254]); }
        else { lemma_chart_2255(); assert(atlas_signatures()[class_rep(165)] == atlas_signatures()[2255]); }
    }
}

proof fn lemma_chart_2256()
    ensures
        chart_signature([(2, 3), (1, 3), (0, 2)], heap_table(0)) == chart_signature([(0, 1), (0, 2), (1, 3)], heap_table(14)),
{
    lemma_heap_entries();
    lemma_codes_of_word_94(heap_table(0));
    lemma_codes_of_word_7(heap_table(14));
    lemma_charts_agree_through([(0, 1), (0, 2), (1, 3)], heap_table(14), [(2, 3), (1, 3), (0, 2)], heap_table(0), 14, (6, 7, 2, 3, 4, 5, 0, 1));
}

proof fn lemma_chart_2257()
    ensures
        chart_signature([(2, 3), (1, 3), (0, 2)], heap_table(1)) == chart_signature([(0, 1), (0, 2), (1, 3)], heap_table(8)),
{
    lemma_heap_entries();
    lemma_codes_of_word_94(heap_table(1));
    lemma_codes_of_word_7(heap_table(8));
    lemma_charts_agree_through([(0, 1), (0, 2), (1, 3)], heap_table(8), [(2, 3), (1, 3), (0, 2)], heap_table(1), 14, (6, 7, 2, 3, 4, 5, 0, 1));
}

proof fn lemma_chart_2258()
    ensures
        chart_signature([(2, 3), (1, 3), (0, 2)], heap_table(2)) == chart_signature([(0, 1), (0, 2), (1, 3)], heap_table(6)),
{
    lemma_heap_entries();
    lemma_codes_of_word_94(heap_table(2));
    lemma_codes_of_word_7(heap_table(6));
    lemma_charts_agree_through([(0, 1), (0, 2), (1, 3)], heap_table(6), [(2, 3), (1, 3), (0, 2)], heap_table(2), 15, (7, 6, 4, 5, 2, 3, 1, 0));
}

proof fn lemma_chart_2259()
    ensures
        chart_signature([(2, 3), (1, 3), (0, 2)], heap_table(3)) == chart_signature([(0, 1), (0, 2), (1, 3)], heap_table(20)),
{
    lemma_heap_entries();
    lemma_codes_of_word_94(heap_table(3));
    lemma_codes_of_word_7(heap_table(20));
    lemma_charts_agree_through([(0, 1), (0, 2), (1, 3)], heap_table(20), [(2, 3), (1, 3), (0, 2)], heap_table(3), 14, (6, 7, 2, 3, 4, 5, 0, 1));
}

proof fn lemma_chart_2260()
    ensures
        chart_signature([(2, 3), (1, 3), (0, 2)], heap_table(4)) == chart_signature([(0, 1), (0, 2), (1, 3)], heap_table(18)),
{
    lemma_heap_entries();
    lemma_codes_of_word_94(heap_table(4));
    lemma_codes_of_word_7(heap_table(18));
    lemma_charts_agree_through([(0, 1), (0, 2), (1, 3)], heap_table(18), [(2, 3), (1, 3), (0, 2)], heap_table(4), 15, (7, 6, 4, 5, 2, 3, 1, 0));
}

proof fn lemma_chart_2261()
    ensures
        chart_signature([(2, 3), (1, 3), (0, 2)], heap_table(5)) == chart_signature([(0, 1), (0, 2), (1, 3)], heap_table(12)),
{
    lemma_heap_entries();
    lemma_codes_of_word_94(heap_table(5));
    lemma_codes_of_word_7(heap_table(12));
    lemma_charts_agree_through([(0, 1), (0, 2), (1, 3)], heap_table(12), [(2, 3), (1, 3), (0, 2)], heap_table(5), 15, (7, 6, 4, 5, 2, 3, 1, 0));
}

proof fn lemma_chart_2262()
    ensures
        chart_signature([(2, 3), (1, 3), (0, 2)], heap_table(6)) == chart_signature([(0, 1), (0, 2), (1, 3)], heap_table(16)),
{
    lemma_heap_entries();
    lemma_codes_of_word_94(heap_table(6));
    lemma_codes_of_word_7(heap_table(16));
    lemma_charts_agree_through([(0, 1), (0, 2), (1, 3)], heap_table(16), [(2, 3), (1, 3), (0, 2)], heap_table(6), 15, (7, 6, 4, 5, 2, 3, 1, 0));
}

proof fn lemma_chart_2263()
    ensures
        chart_signature([(2, 3), (1, 3), (0, 2)], heap_table(7)) == chart_signature([(0, 1), (0, 2), (1, 3)], heap_table(2)),
{
    lemma_heap_entries();
    lemma_codes_of_word_94(heap_table(7));
    lemma_codes_of_word_7(heap_table(2));
    lemma_charts_agree_through([(0, 1), (0, 2), (1, 3)], heap_table(2), [(2, 3), (1, 3), (0, 2)], heap_table(7), 14, (6, 7, 2, 3, 4, 5, 0, 1));
}

proof fn lemma_chart_2264()
    ensures
        chart_signature([(2, 3), (1, 3), (0, 2)], heap_table(8)) == chart_signature([(0, 1), (0, 2), (1, 3)], heap_table(0)),
{
    lemma_heap_entries();
    lemma_codes_of_word_94(heap_table(8));
    lemma_codes_of_word_7(heap_table(0));
    lemma_charts_agree_through([(0, 1), (0, 2), (1, 3)], heap_table(0), [(2, 3), (1, 3), (0, 2)], heap_table(8), 15, (7, 6, 4, 5, 2, 3, 1, 0));
}

proof fn lemma_chart_2265()
    ensures
        chart_signature([(2, 3), (1, 3), (0, 2)], heap_table(9)) == chart_signature([(0, 1), (0, 2), (1, 3)], heap_table(22)),
{
    lemma_heap_entries();
    lemma_codes_of_word_94(heap_table(9));
    lemma_codes_of_word_7(heap_table(22));
    lemma_charts_agree_through([(0, 1), (0, 2), (1, 3)], heap_table(22), [(2, 3), (1, 3), (0, 2)], heap_table(9), 15, (7, 6, 4, 5, 2, 3, 1, 0));
}

proof fn lemma_chart_2266()
    ensures
        chart_signature([(2, 3), (1, 3), (0, 2)], heap_table(10)) == chart_signature([(0, 1), (0, 2), (1, 3)], heap_table(18)),
{
    lemma_heap_entries();
    lemma_codes_of_word_94(heap_table(10));
    lemma_codes_of_word_7(heap_table(18));
    lemma_charts_agree_through([(0, 1), (0, 2), (1, 3)], heap_table(18), [(2, 3), (1, 3), (0, 2)], heap_table(10), 14, (6, 7, 2, 3, 4, 5, 0, 1));
}

proof fn lemma_chart_2267()
    ensures
        chart_signature([(2, 3), (1, 3), (0, 2)], heap_table(11)) == chart_signature([(0, 1), (0, 2), (1, 3)], heap_table(12)),
{
    lemma_heap_entries();
    lemma_codes_of_word_94(heap_table(11));
    lemma_codes_of_word_7(heap_table(12));
    lemma_charts_agree_through([(0, 1), (0, 2), (1, 3)], heap_table(12), [(2, 3), (1, 3), (0, 2)], heap_table(11), 14, (6, 7, 2, 3, 4, 5, 0, 1));
}

proof fn lemma_chart_2268()
    ensures
        chart_signature([(2, 3), (1, 3), (0, 2)], heap_table(12)) == chart_signature([(0, 1), (0, 2), (1, 3)], heap_table(10)),
{
    lemma_heap_entries();
    lemma_codes_of_word_94(heap_table(12));
    lemma_codes_of_word_7(heap_table(10));
    lemma_charts_agree_through([(0, 1), (0, 2), (1, 3)], heap_table(10), [(2, 3), (1, 3), (0, 2)], heap_table(12), 15, (7, 6, 4, 5, 2, 3, 1, 0));
}

proof fn lemma_chart_2269()
    ensures
        chart_signature([(2, 3), (1, 3), (0, 2)], heap_table(13)) == chart_signature([(0, 1), (0, 2), (1, 3)], heap_table(4)),
{
    lemma_heap_entries();
    lemma_codes_of_word_94(heap_table(13));
    lemma_codes_of_word_7(heap_table(4));
    lemma_charts_agree_through([(0, 1), (0, 2), (1, 3)], heap_table(4), [(2, 3), (1, 3), (0, 2)], heap_table(13), 15, (7, 6, 4, 5, 2, 3, 1, 0));
}

proof fn lemma_chart_2270()
    ensures
        chart_signature([(2, 3), (1, 3), (0, 2)], heap_table(14)) == chart_signature([(0, 1), (0, 2), (1, 3)], heap_table(0)),
{
    lemma_heap_entries();
    lemma_codes_of_word_94(heap_table(14));
    lemma_codes_of_word_7(heap_table(0));
    lemma_charts_agree_through([(0, 1), (0, 2), (1, 3)], heap_table(0), [(2, 3), (1, 3), (0, 2)], heap_table(14), 14, (6, 7, 2, 3, 4, 5, 0, 1));
}

proof fn lemma_chart_2271()
    ensures
        chart_signature([(2, 3), (1, 3), (0, 2)], heap_table(15)) == chart_signature([(0, 1), (0, 2), (1, 3)], heap_table(22)),
{
    lemma_heap_entries();
    lemma_codes_of_word_94(heap_table(15));
    lemma_codes_of_word_7(heap_table(22));
    lemma_charts_agree_through([(0, 1), (0, 2), (1, 3)], heap_table(22), [(2, 3), (1, 3), (0, 2)], heap_table(15), 14, (6, 7, 2, 3, 4, 5, 0, 1));
}

proof fn lemma_chart_2272()
    ensures
        chart_signature([(2, 3), (1, 3), (0, 2)], heap_table(16)) == chart_signature([(0, 1), (0, 2), (1, 3)], heap_table(20)),
{
    lemma_heap_entries();
    lemma_codes_of_word_94(heap_table(16));
    lemma_codes_of_word_7(heap_table(20));
    lemma_charts_agree_through([(0, 1), (0, 2), (1, 3)], heap_table(20), [(2, 3), (1, 3), (0, 2)], heap_table(16), 15, (7, 6, 4, 5, 2, 3, 1, 0));
}

proof fn lemma_chart_2273()
    ensures
        chart_signature([(2, 3), (1, 3), (0, 2)], heap_table(17)) == chart_signature([(0, 1), (0, 2), (1, 3)], heap_table(6)),
{
    lemma_heap_entries();
    lemma_codes_of_word_94(heap_table(17));
    lemma_codes_of_word_7(heap_table(6));
    lemma_charts_agree_through([(0, 1), (0, 2), (1, 3)], heap_table(6), [(2, 3), (1, 3), (0, 2)], heap_table(17), 14, (6, 7, 2, 3, 4, 5, 0, 1));
}

proof fn lemma_chart_2274()
    ensures
        chart_signature([(2, 3), (1, 3), (0, 2)], heap_table(18)) == chart_signature([(0, 1), (0, 2), (1, 3)], heap_table(10)),
{
    lemma_heap_entries();
    lemma_codes_of_word_94(heap_table(18));
    lemma_codes_of_word_7(heap_table(10));
    lemma_charts_agree_through([(0, 1), (0, 2), (1, 3)], heap_table(10), [(2, 3), (1, 3), (0, 2)], heap_table(18), 14, (6, 7, 2, 3, 4, 5, 0, 1));
}

proof fn lemma_chart_2275()
    ensures
        chart_signature([(2, 3), (1, 3), (0, 2)], heap_table(19)) == chart_signature([(0, 1), (0, 2), (1, 3)], heap_table(4)),
{
    lemma_heap_entries();
    lemma_codes_of_word_94(heap_table(19));
    lemma_codes_of_word_7(heap_table(4));
    lemma_charts_agree_through([(0, 1), (0, 2), (1, 3)], heap_table(4), [(2, 3), (1, 3), (0, 2)], heap_table(19), 14, (6, 7, 2, 3, 4, 5, 0, 1));
}

proof fn lemma_chart_2276()
    ensures
        chart_signature([(2, 3), (1, 3), (0, 2)], heap_table(20)) == chart_signature([(0, 1), (0, 2), (1, 3)], heap_table(2)),
{
    lemma_heap_entries();
    lemma_codes_of_word_94(heap_table(20));
    lemma_codes_of_word_7(heap_table(2));
    lemma_charts_agree_through([(0, 1), (0, 2), (1, 3)], heap_table(2), [(2, 3), (1, 3), (0, 2)], heap_table(20), 15, (7, 6, 4, 5, 2, 3, 1, 0));
}

proof fn lemma_chart_2277()
    ensures
        chart_signature([(2, 3), (1, 3), (0, 2)], heap_table(21)) == chart_signature([(0, 1), (0, 2), (1, 3)], heap_table(16)),
{
    lemma_heap_entries();
    lemma_codes_of_word_94(heap_table(21));
    lemma_codes_of_word_7(heap_table(16));
    lemma_charts_agree_through([(0, 1), (0, 2), (1, 3)], heap_table(16), [(2, 3), (1, 3), (0, 2)], heap_table(21), 14, (6, 7, 2, 3, 4, 5, 0, 1));
}

proof fn lemma_chart_2278()
    ensures
        chart_signature([(2, 3), (1, 3), (0, 2)], heap_table(22)) == chart_signature([(0, 1), (0, 2), (1, 3)], heap_table(14)),
{
    lemma_heap_entries();
    lemma_codes_of_word_94(heap_table(22));
    lemma_codes_of_word_7(heap_table(14));
    lemma_charts_agree_through([(0, 1), (0, 2), (1, 3)], heap_table(14), [(2, 3), (1, 3), (0, 2)], heap_table(22), 15, (7, 6, 4, 5, 2, 3, 1, 0));
}

proof fn lemma_chart_2279()
    ensures
        chart_signature([(2, 3), (1, 3), (0, 2)], heap_table(23)) == chart_signature([(0, 1), (0, 2), (1, 3)], heap_table(8)),
{
    lemma_heap_entries();
    lemma_codes_of_word_94(heap_table(23));
    lemma_codes_of_word_7(heap_table(8));
    lemma_charts_agree_through([(0, 1), (0, 2), (1, 3)], heap_table(8), [(2, 3), (1, 3), (0, 2)], heap_table(23), 15, (7, 6, 4, 5, 2, 3, 1, 0));
}

/// Every chart of atlas word 94 shares its signature with the first chart
/// of a class below 216.
pub proof fn lemma_charts_of_word_94()
    ensures
        forall|t: int| 2256 <= t < 2280 ==> #[trigger] meets_class_below(t, 216),
{
    lemma_census_words();
    assert forall|t: int| 2256 <= t < 2280 implies #[trigger] meets_class_below(t, 216) by {
        if t == 2256 { lemma_chart_2256(); assert(atlas_signatures()[class_rep(79)] == atlas_signatures()[2256]); }
        else if t == 2257 { lemma_chart_2257(); assert(atlas_signatures()[class_rep(76)] == atlas_signatures()[2257]); }
        else if t == 2258 { lemma_chart_2258(); assert(atlas_signatures()[class_rep(75)] == atlas_signatures()[2258]); }
        else if t == 2259 { lemma_chart_2259(); assert(atlas_signatures()[class_rep(82)] == atlas_signatures()[2259]); }
        else if t == 2260 { lemma_chart_2260(); assert(atlas_signatures()[class_rep(81)] == atlas_signatures()[2260]); }
        else if t == 2261 { lemma_chart_2261(); assert(atlas_signatures()[class_rep(78)] == atlas_signatures()[2261]); }
        else if t == 2262 { lemma_chart_2262(); assert(atlas_signatures()[class_rep(80)] == atlas_signatures()[2262]); }
        else if t == 2263 { lemma_chart_2263(); assert(atlas_signatures()[class_rep(73)] == atlas_signatures()[2263]); }
        else if t == 2264 { lemma_chart_2264(); assert(atlas_signatures()[class_rep(72)] == atlas_signatures()[2264]); }
        else if t == 2265 { lemma_chart_2265(); assert(atlas_signatures()[class_rep(83)] == atlas_signatures()[2265]); }
        else if t == 2266 { lemma_chart_2266(); assert(atlas_signatures()[class_rep(81)] == atlas_signatures()[2266]); }
        else if t == 2267 { lemma_chart_2267(); assert(atlas_signatures()[class_rep(78)] == atlas_signatures()[2267]); }
        else if t == 2268 { lemma_chart_2268(); assert(atlas_signatures()[class_rep(77)] == atlas_signatures()[2268]); }
        else if t == 2269 { lemma_chart_2269(); assert(atlas_signatures()[class_rep(74)] == atlas_signatures()[2269]); }
        else if t == 2270 { lemma_chart_2270(); assert(atlas_signatures()[class_rep(72)] == atlas_signatures()[2270]); }
        else if t == 2271 { lemma_chart_2271(); assert(atlas_signatures()[class_rep(83)] == atlas_signatures()[2271]); }
        else if t == 2272 { lemma_chart_2272(); assert(atlas_signatures()[class_rep(82)] == atlas_signatures()[2272]); }
        else if t == 2273 { lemma_chart_2273(); assert(atlas_signatures()[class_rep(75)] == atlas_signatures()[2273]); }
        else if t == 2274 { lemma_chart_2274(); assert(atlas_signatures()[class_rep(77)] == atlas_signatures()[2274]); }
        else if t == 2275 { lemma_chart_2275(); assert(atlas_signatures()[class_rep(74)] == atlas_signatures()[2275]); }
        else if t == 2276 { lemma_chart_2276(); assert(atlas_signatures()[class_rep(73)] == atlas_signatures()[2276]); }
        else if t == 2277 { lemma_chart_2277(); assert(atlas_signatures()[class_rep(80)] == atlas_signatures()[2277]); }
        else if t == 2278 { lemma_chart_2278(); assert(atlas_signatures()[class_rep(79)] == atlas_signatures()[2278]); }
        else { lemma_chart_2279(); assert(atlas_signatures()[class_rep(76)] == atlas_signatures()[2279]); }
    }
}

proof fn lemma_chart_2280()
    ensures
        chart_signature([(2, 3), (1, 3), (0, 3)], heap_table(0)) == chart_signature([(0, 2), (0, 1), (0, 3)], heap_table(6)),
{
    lemma_heap_entries();
    lemma_codes_of_word_95(heap_table(0));
    lemma_codes_of_word_24(heap_table(6));
    lemma_charts_agree_through([(0, 2), (0, 1), (0, 3)], heap_table(6), [(2, 3), (1, 3), (0, 3)], heap_table(0), 4, (3, 5, 6, 0, 7, 1, 2, 4));
}

proof fn lemma_chart_2281()
    ensures
        chart_signature([(2, 3), (1, 3), (0, 3)], heap_table(1)) == chart_signature([(0, 2), (0, 1), (0, 3)], heap_table(12)),
{
    lemma_heap_entries();
    lemma_codes_of_word_95(heap_table(1));
    lemma_codes_of_word_24(heap_table(12));
    lemma_charts_agree_through([(0, 2), (0, 1), (0, 3)], heap_table(12), [(2, 3), (1, 3), (0, 3)], heap_table(1), 4, (3, 5, 6, 0, 7, 1, 2, 4));
}

proof fn lemma_chart_2282()
    ensures
        chart_signature([(2, 3), (1, 3), (0, 3)], heap_table(2)) == chart_signature([(0, 2), (0, 1), (0, 3)], heap_table(18)),
{
    lemma_heap_entries();
    lemma_codes_of_word_95(heap_table(2));
    lemma_codes_of_word_24(heap_table(18));
    lemma_charts_agree_through([(0, 2), (0, 1), (0, 3)], heap_table(18), [(2, 3), (1, 3), (0, 3)], heap_table(2), 4, (3, 5, 6, 0, 7, 1, 2, 4));
}

proof fn lemma_chart_2283()
    ensures
        chart_signature([(2, 3), (1, 3), (0, 3)], heap_table(3)) == chart_signature([(0, 2), (0, 1), (0, 3)], heap_table(9)),
{
    lemma_heap_entries();
    lemma_codes_of_word_95(heap_table(3));
    lemma_codes_of_word_24(heap_table(9));
    lemma_charts_agree_through([(0, 2), (0, 1), (0, 3)], heap_table(9), [(2, 3), (1, 3), (0, 3)], heap_table(3), 4, (3, 5, 6, 0, 7, 1, 2, 4));
}

proof fn lemma_chart_2284()
    ensures
        chart_signature([(2, 3), (1, 3), (0, 3)], heap_table(4)) == chart_signature([(0, 2), (0, 1), (0, 3)], heap_table(15)),
{
    lemma_heap_entries();
    lemma_codes_of_word_95(heap_table(4));
    lemma_codes_of_word_24(heap_table(15));
    lemma_charts_agree_through([(0, 2), (0, 1), (0, 3)], heap_table(15), [(2, 3), (1, 3), (0, 3)], heap_table(4), 4, (3, 5, 6, 0, 7, 1, 2, 4));
}

proof fn lemma_chart_2285()
    ensures
        chart_signature([(2, 3), (1, 3), (0, 3)], heap_table(5)) == chart_signature([(0, 2), (0, 1), (0, 3)], heap_table(21)),
{
    lemma_heap_entries();
    lemma_codes_of_word_95(heap_table(5));
    lemma_codes_of_word_24(heap_table(21));
    lemma_charts_agree_through([(0, 2), (0, 1), (0, 3)], heap_table(21), [(2, 3), (1, 3), (0, 3)], heap_table(5), 4, (3, 5, 6, 0, 7, 1, 2, 4));
}

proof fn lemma_chart_2286()
    ensures
        chart_signature([(2, 3), (1, 3), (0, 3)], heap_table(6)) == chart_signature([(0, 2), (0, 1), (0, 3)], heap_table(0)),
{
    lemma_heap_entries();
    lemma_codes_of_word_95(heap_table(6));
    lemma_codes_of_word_24(heap_table(0));
    lemma_charts_agree_through([(0, 2), (0, 1), (0, 3)], heap_table(0), [(2, 3), (1, 3), (0, 3)], heap_table(6), 4, (3, 5, 6, 0, 7, 1, 2, 4));
}

proof fn lemma_chart_2287()
    ensures
        chart_signature([(2, 3), (1, 3), (0, 3)], heap_table(7)) == chart_signature([(0, 2), (0, 1), (0, 3)], heap_table(13)),
{
    lemma_heap_entries();
    lemma_codes_of_word_95(heap_table(7));
    lemma_codes_of_word_24(heap_table(13));
    lemma_charts_agree_through([(0, 2), (0, 1), (0, 3)], heap_table(13), [(2, 3), (1, 3), (0, 3)], heap_table(7), 4, (3, 5, 6, 0, 7, 1, 2, 4));
}

proof fn lemma_chart_2288()
    ensures
        chart_signature([(2, 3), (1, 3), (0, 3)], heap_table(8)) == chart_signature([(0, 2), (0, 1), (0, 3)], heap_table(19)),
{
    lemma_heap_entries();
    lemma_codes_of_word_95(heap_table(8));
    lemma_codes_of_word_24(heap_table(19));
    lemma_charts_agree_through([(0, 2), (0, 1), (0, 3)], heap_table(19), [(2, 3), (1, 3), (0, 3)], heap_table(8), 4, (3, 5, 6, 0, 7, 1, 2, 4));
}

proof fn lemma_chart_2289()
    ensures
        chart_signature([(2, 3), (1, 3), (0, 3)], heap_table(9)) == chart_signature([(0, 2), (0, 1), (0, 3)], heap_table(3)),
{
    lemma_heap_entries();
    lemma_codes_of_word_95(heap_table(9));
    lemma_codes_of_word_24(heap_table(3));
    lemma_charts_agree_through([(0, 2), (0, 1), (0, 3)], heap_table(3), [(2, 3), (1, 3), (0, 3)], heap_table(9), 4, (3, 5, 6, 0, 7, 1, 2, 4));
}

proof fn lemma_chart_2290()
    ensures
        chart_signature([(2, 3), (1, 3), (0, 3)], heap_table(10)) == chart_signature([(0, 2), (0, 1), (0, 3)], heap_table(15)),
{
    lemma_heap_entries();
    lemma_codes_of_word_95(heap_table(10));
    lemma_codes_of_word_24(heap_table(15));
    lemma_charts_agree_through([(0, 2), (0, 1), (0, 3)], heap_table(15), [(2, 3), (1, 3), (0, 3)], heap_table(10), 5, (5, 3, 7, 1, 6, 0, 4, 2));
}

proof fn lemma_chart_2291()
    ensures
        chart_signature([(2, 3), (1, 3), (0, 3)], heap_table(11)) == chart_signature([(0, 2), (0, 1), (0, 3)], heap_table(21)),
{
    lemma_heap_entries();
    lemma_codes_of_word_95(heap_table(11));
    lemma_codes_of_word_24(heap_table(21));
    lemma_charts_agree_through([(0, 2), (0, 1), (0, 3)], heap_table(21), [(2, 3), (1, 3), (0, 3)], heap_table(11), 5, (5, 3, 7, 1, 6, 0, 4, 2));
}

proof fn lemma_chart_2292()
    ensures
        chart_signature([(2, 3), (1, 3), (0, 3)], heap_table(12)) == chart_signature([(0, 2), (0, 1), (0, 3)], heap_table(1)),
{
    lemma_heap_entries();
    lemma_codes_of_word_95(heap_table(12));
    lemma_codes_of_word_24(heap_table(1));
    lemma_charts_agree_through([(0, 2), (0, 1), (0, 3)], heap_table(1), [(2, 3), (1, 3), (0, 3)], heap_table(12), 4, (3, 5, 6, 0, 7, 1, 2, 4));
}

proof fn lemma_chart_2293()
    ensures
        chart_signature([(2, 3), (1, 3), (0, 3)], heap_table(13)) == chart_signature([(0, 2), (0, 1), (0, 3)], heap_table(7)),
{
    lemma_heap_entries();
    lemma_codes_of_word_95(heap_table(13));
    lemma_codes_of_word_24(heap_table(7));
    lemma_charts_agree_through([(0, 2), (0, 1), (0, 3)], heap_table(7), [(2, 3), (1, 3), (0, 3)], heap_table(13), 4, (3, 5, 6, 0, 7, 1, 2, 4));
}

proof fn lemma_chart_2294()
    ensures
        chart_signature([(2, 3), (1, 3), (0, 3)], heap_table(14)) == chart_signature([(0, 2), (0, 1), (0, 3)], heap_table(19)),
{
    lemma_heap_entries();
    lemma_codes_of_word_95(heap_table(14));
    lemma_codes_of_word_24(heap_table(19));
    lemma_charts_agree_through([(0, 2), (0, 1), (0, 3)], heap_table(19), [(2, 3), (1, 3), (0, 3)], heap_table(14), 5, (5, 3, 7, 1, 6, 0, 4, 2));
}

proof fn lemma_chart_2295()
    ensures
        chart_signature([(2, 3), (1, 3), (0, 3)], heap_table(15)) == chart_signature([(0, 2), (0, 1), (0, 3)], heap_table(3)),
{
    lemma_heap_entries();
    lemma_codes_of_word_95(heap_table(15));
    lemma_codes_of_word_24(heap_table(3));
    lemma_charts_agree_through([(0, 2), (0, 1), (0, 3)], heap_table(3), [(2, 3), (1, 3), (0, 3)], heap_table(15), 5, (5, 3, 7, 1, 6, 0, 4, 2));
}

proof fn lemma_chart_2296()
    ensures
        chart_signature([(2, 3), (1, 3), (0, 3)], heap_table(16)) == chart_signature([(0, 2), (0, 1), (0, 3)], heap_table(9)),
{
    lemma_heap_entries();
    lemma_codes_of_word_95(heap_table(16));
    lemma_codes_of_word_24(heap_table(9));
    lemma_charts_agree_through([(0, 2), (0, 1), (0, 3)], heap_table(9), [(2, 3), (1, 3), (0, 3)], heap_table(16), 5, (5, 3, 7, 1, 6, 0, 4, 2));
}

proof fn lemma_chart_2297()
    ensures
        chart_signature([(2, 3), (1, 3), (0, 3)], heap_table(17)) == chart_signature([(0, 2), (0, 1), (0, 3)], heap_table(18)),
{
    lemma_heap_entries();
    lemma_codes_of_word_95(heap_table(17));
    lemma_codes_of_word_24(heap_table(18));
    lemma_charts_agree_through([(0, 2), (0, 1), (0, 3)], heap_table(18), [(2, 3), (1, 3), (0, 3)], heap_table(17), 5, (5, 3, 7, 1, 6, 0, 4, 2));
}

proof fn lemma_chart_2298()
    ensures
        chart_signature([(2, 3), (1, 3), (0, 3)], heap_table(18)) == chart_signature([(0, 2), (0, 1), (0, 3)], heap_table(1)),
{
    lemma_heap_entries();
    lemma_codes_of_word_95(heap_table(18));
    lemma_codes_of_word_24(heap_table(1));
    lemma_charts_agree_through([(0, 2), (0, 1), (0, 3)], heap_table(1), [(2, 3), (1, 3), (0, 3)], heap_table(18), 5, (5, 3, 7, 1, 6, 0, 4, 2));
}

proof fn lemma_chart_2299()
    ensures
        chart_signature([(2, 3), (1, 3), (0, 3)], heap_table(19)) == chart_signature([(0, 2), (0, 1), (0, 3)], heap_table(7)),
{
    lemma_heap_entries();
    lemma_codes_of_word_95(heap_table(19));
    lemma_codes_of_word_24(heap_table(7));
    lemma_charts_agree_through([(0, 2), (0, 1), (0, 3)], heap_table(7), [(2, 3), (1, 3), (0, 3)], heap_table(19), 5, (5, 3, 7, 1, 6, 0, 4, 2));
}

proof fn lemma_chart_2300()
    ensures
        chart_signature([(2, 3), (1, 3), (0, 3)], heap_table(20)) == chart_signature([(0, 2), (0, 1), (0, 3)], heap_table(13)),
{
    lemma_heap_entries();
    lemma_codes_of_word_95(heap_table(20));
    lemma_codes_of_word_24(heap_table(13));
    lemma_charts_agree_through([(0, 2), (0, 1), (0, 3)], heap_table(13), [(2, 3), (1, 3), (0, 3)], heap_table(20), 5, (5, 3, 7, 1, 6, 0, 4, 2));
}

proof fn lemma_chart_2301()
    ensures
        chart_signature([(2, 3), (1, 3), (0, 3)], heap_table(21)) == chart_signature([(0, 2), (0, 1), (0, 3)], heap_table(0)),
{
    lemma_heap_entries();
    lemma_codes_of_word_95(heap_table(21));
    lemma_codes_of_word_24(heap_table(0));
    lemma_charts_agree_through([(0, 2), (0, 1), (0, 3)], heap_table(0), [(2, 3), (1, 3), (0, 3)], heap_table(21), 5, (5, 3, 7, 1, 6, 0, 4, 2));
}

proof fn lemma_chart_2302()
    ensures
        chart_signature([(2, 3), (1, 3), (0, 3)], heap_table(22)) == chart_signature([(0, 2), (0, 1), (0, 3)], heap_table(6)),
{
    lemma_heap_entries();
    lemma_codes_of_word_95(heap_table(22));
    lemma_codes_of_word_24(heap_table(6));
    lemma_charts_agree_through([(0, 2), (0, 1), (0, 3)], heap_table(6), [(2, 3), (1, 3), (0, 3)], heap_table(22), 5, (5, 3, 7, 1, 6, 0, 4, 2));
}

proof fn lemma_chart_2303()
    ensures
        chart_signature([(2, 3), (1, 3), (0, 3)], heap_table(23)) == chart_signature([(0, 2), (0, 1), (0, 3)], heap_table(12)),
{
    lemma_heap_entries();
    lemma_codes_of_word_95(heap_table(23));
    lemma_codes_of_word_24(heap_table(12));
    lemma_charts_agree_through([(0, 2), (0, 1), (0, 3)], heap_table(12), [(2, 3), (1, 3), (0, 3)], heap_table(23), 5, (5, 3, 7, 1, 6, 0, 4, 2));
}

/// Every chart of atlas word 95 shares its signature with the first chart
/// of a class below 216.
pub proof fn lemma_charts_of_word_95()
    ensures
        forall|t: int| 2280 <= t < 2304 ==> #[trigger] meets_class_below(t, 216),
{
    lemma_census_words();
    assert forall|t: int| 2280 <= t < 2304 implies #[trigger] meets_class_below(t, 216) by {
        if t == 2280 { lemma_chart_2280(); assert(atlas_signatures()[class_rep(141)] == atlas_signatures()[2280]); }
        else if t == 2281 { lemma_chart_2281(); assert(atlas_signatures()[class_rep(144)] == atlas_signatures()[2281]); }
        else if t == 2282 { lemma_chart_2282(); assert(atlas_signatures()[class_rep(147)] == atlas_signatures()[2282]); }
        else if t == 2283 { lemma_chart_2283(); assert(atlas_signatures()[class_rep(143)] == atlas_signatures()[2283]); }
        else if t == 2284 { lemma_chart_2284(); assert(atlas_signatures()[class_rep(146)] == atlas_signatures()[2284]); }
        else if t == 2285 { lemma_chart_2285(); assert(atlas_signatures()[class_rep(149)] == atlas_signatures()[2285]); }
        else if t == 2286 { lemma_chart_2286(); assert(atlas_signatures()[class_rep(138)] == atlas_signatures()[2286]); }
        else if t == 2287 { lemma_chart_2287(); assert(atlas_signatures()[class_rep(145)] == atlas_signatures()[2287]); }
        else if t == 2288 { lemma_chart_2288(); assert(atlas_signatures()[class_rep(148)] == atlas_signatures()[2288]); }
        else if t == 2289 { lemma_chart_2289(); assert(atlas_signatures()[class_rep(140)] == atlas_signatures()[2289]); }
        else if t == 2290 { lemma_chart_2290(); assert(atlas_signatures()[class_rep(146)] == atlas_signatures()[2290]); }
        else if t == 2291 { lemma_chart_2291(); assert(atlas_signatures()[class_rep(149)] == atlas_signatures()[2291]); }
        else if t == 2292 { lemma_chart_2292(); assert(atlas_signatures()[class_rep(139)] == atlas_signatures()[2292]); }
        else if t == 2293 { lemma_chart_2293(); assert(atlas_signatures()[class_rep(142)] == atlas_signatures()[2293]); }
        else if t == 2294 { lemma_chart_2294(); assert(atlas_signatures()[class_rep(148)] == atlas_signatures()[2294]); }
        else if t == 2295 { lemma_chart_2295(); assert(atlas_signatures()[class_rep(140)] == atlas_signatures()[2295]); }
        else if t == 2296 { lemma_chart_2296(); assert(atlas_signatures()[class_rep(143)] == atlas_signatures()[2296]); }
        else if t == 2297 { lemma_chart_2297(); assert(atlas_signatures()[class_rep(147)] == atlas_signatures()[2297]); }
        else if t == 2298 { lemma_chart_2298(); assert(atlas_signatures()[class_rep(139)] == atlas_signatures()[2298]); }
        else if t == 2299 { lemma_chart_2299(); assert(atlas_signatures()[class_rep(142)] == atlas_signatures()[2299]); }
        else if t == 2300 { lemma_chart_2300(); assert(atlas_signatures()[class_rep(145)] == atlas_signatures()[2300]); }
        else if t == 2301 { lemma_chart_2301(); assert(atlas_signatures()[class_rep(138)] == atlas_signatures()[2301]); }
        else if t == 2302 { lemma_chart_2302(); assert(atlas_signatures()[class_rep(141)] == atlas_signatures()[2302]); }
        else { lemma_chart_2303(); assert(atlas_signatures()[class_rep(144)] == atlas_signatures()[2303]); }
    }
}

} // verus!
