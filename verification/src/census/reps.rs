//! The first chart of every class, weighed.
use vstd::prelude::*;
use crate::atlas::{atlas_signatures, chart_signature, lemma_signature_weight, lemma_table_weight_of_codes, table_weight};
use crate::permutations::heap_table;
use super::{class_of_weight, class_rep, lemma_census_words, lemma_heap_entries, lemma_codes_of_word_0, lemma_codes_of_word_1, lemma_codes_of_word_2, lemma_codes_of_word_3, lemma_codes_of_word_4, lemma_codes_of_word_5, lemma_codes_of_word_6, lemma_codes_of_word_7, lemma_codes_of_word_8, lemma_codes_of_word_13, lemma_codes_of_word_16, lemma_codes_of_word_19, lemma_codes_of_word_20, lemma_codes_of_word_21, lemma_codes_of_word_24, lemma_codes_of_word_26, lemma_codes_of_word_27, lemma_codes_of_word_30, lemma_codes_of_word_35, lemma_codes_of_word_36, lemma_codes_of_word_38};

verus! {

proof fn lemma_class_0_weight()
    ensures
        table_weight(chart_signature([(0, 1), (1, 2), (2, 3)], heap_table(0))) == 54731700,
{
    lemma_heap_entries();
    lemma_codes_of_word_0(heap_table(0));
    lemma_signature_weight([(0, 1), (1, 2), (2, 3)], heap_table(0));
    lemma_table_weight_of_codes([(0, 1), (1, 2), (2, 3)], heap_table(0), (57, 120, 177, 201, 180, 216, 225, 228));
}

proof fn lemma_class_1_weight()
    ensures
        table_weight(chart_signature([(0, 1), (1, 2), (2, 3)], heap_table(2))) == 48152448,
{
    lemma_heap_entries();
    lemma_codes_of_word_0(heap_table(2));
    lemma_signature_weight([(0, 1), (1, 2), (2, 3)], heap_table(2));
    lemma_table_weight_of_codes([(0, 1), (1, 2), (2, 3)], heap_table(2), (180, 54, 120, 228, 114, 198, 216, 210));
}

proof fn lemma_class_2_weight()
    ensures
        table_weight(chart_signature([(0, 1), (1, 2), (2, 3)], heap_table(4))) == 43904052,
{
    lemma_heap_entries();
    lemma_codes_of_word_0(heap_table(4));
    lemma_signature_weight([(0, 1), (1, 2), (2, 3)], heap_table(4));
    lemma_table_weight_of_codes([(0, 1), (1, 2), (2, 3)], heap_table(4), (114, 177, 54, 210, 57, 225, 198, 201));
}

proof fn lemma_class_3_weight()
    ensures
        table_weight(chart_signature([(0, 1), (1, 2), (2, 3)], heap_table(6))) == 14161392,
{
    lemma_heap_entries();
    lemma_codes_of_word_0(heap_table(6));
    lemma_signature_weight([(0, 1), (1, 2), (2, 3)], heap_table(6));
    lemma_table_weight_of_codes([(0, 1), (1, 2), (2, 3)], heap_table(6), (201, 75, 141, 57, 135, 27, 45, 39));
}

proof fn lemma_class_4_weight()
    ensures
        table_weight(chart_signature([(0, 1), (1, 2), (2, 3)], heap_table(8))) == 11382660,
{
    lemma_heap_entries();
    lemma_codes_of_word_0(heap_table(8));
    lemma_signature_weight([(0, 1), (1, 2), (2, 3)], heap_table(8));
    lemma_table_weight_of_codes([(0, 1), (1, 2), (2, 3)], heap_table(8), (135, 198, 75, 39, 78, 54, 27, 30));
}

proof fn lemma_class_5_weight()
    ensures
        table_weight(chart_signature([(0, 1), (1, 2), (2, 3)], heap_table(10))) == 19621548,
{
    lemma_heap_entries();
    lemma_codes_of_word_0(heap_table(10));
    lemma_signature_weight([(0, 1), (1, 2), (2, 3)], heap_table(10));
    lemma_table_weight_of_codes([(0, 1), (1, 2), (2, 3)], heap_table(10), (78, 141, 198, 30, 201, 45, 54, 57));
}

proof fn lemma_class_6_weight()
    ensures
        table_weight(chart_signature([(0, 1), (1, 2), (2, 3)], heap_table(12))) == 21450204,
{
    lemma_heap_entries();
    lemma_codes_of_word_0(heap_table(12));
    lemma_signature_weight([(0, 1), (1, 2), (2, 3)], heap_table(12));
    lemma_table_weight_of_codes([(0, 1), (1, 2), (2, 3)], heap_table(12), (216, 27, 156, 120, 147, 75, 108, 99));
}

proof fn lemma_class_7_weight()
    ensures
        table_weight(chart_signature([(0, 1), (1, 2), (2, 3)], heap_table(14))) == 15832476,
{
    lemma_heap_entries();
    lemma_codes_of_word_0(heap_table(14));
    lemma_signature_weight([(0, 1), (1, 2), (2, 3)], heap_table(14));
    lemma_table_weight_of_codes([(0, 1), (1, 2), (2, 3)], heap_table(14), (147, 210, 27, 99, 30, 114, 75, 78));
}

proof fn lemma_class_8_weight()
    ensures
        table_weight(chart_signature([(0, 1), (1, 2), (2, 3)], heap_table(16))) == 28105920,
{
    lemma_heap_entries();
    lemma_codes_of_word_0(heap_table(16));
    lemma_signature_weight([(0, 1), (1, 2), (2, 3)], heap_table(16));
    lemma_table_weight_of_codes([(0, 1), (1, 2), (2, 3)], heap_table(16), (30, 156, 210, 78, 216, 108, 114, 120));
}

proof fn lemma_class_9_weight()
    ensures
        table_weight(chart_signature([(0, 1), (1, 2), (2, 3)], heap_table(18))) == 29406996,
{
    lemma_heap_entries();
    lemma_codes_of_word_0(heap_table(18));
    lemma_signature_weight([(0, 1), (1, 2), (2, 3)], heap_table(18));
    lemma_table_weight_of_codes([(0, 1), (1, 2), (2, 3)], heap_table(18), (228, 39, 108, 180, 99, 135, 156, 147));
}

proof fn lemma_class_10_weight()
    ensures
        table_weight(chart_signature([(0, 1), (1, 2), (2, 3)], heap_table(20))) == 26496720,
{
    lemma_heap_entries();
    lemma_codes_of_word_0(heap_table(20));
    lemma_signature_weight([(0, 1), (1, 2), (2, 3)], heap_table(20));
    lemma_table_weight_of_codes([(0, 1), (1, 2), (2, 3)], heap_table(20), (99, 225, 39, 147, 45, 177, 135, 141));
}

proof fn lemma_class_11_weight()
    ensures
        table_weight(chart_signature([(0, 1), (1, 2), (2, 3)], heap_table(22))) == 42570684,
{
    lemma_heap_entries();
    lemma_codes_of_word_0(heap_table(22));
    lemma_signature_weight([(0, 1), (1, 2), (2, 3)], heap_table(22));
    lemma_table_weight_of_codes([(0, 1), (1, 2), (2, 3)], heap_table(22), (45, 108, 225, 141, 228, 156, 177, 180));
}

proof fn lemma_class_12_weight()
    ensures
        table_weight(chart_signature([(0, 1), (0, 2), (0, 3)], heap_table(0))) == 46932885,
{
    lemma_heap_entries();
    lemma_codes_of_word_1(heap_table(0));
    lemma_signature_weight([(0, 1), (0, 2), (0, 3)], heap_table(0));
    lemma_table_weight_of_codes([(0, 1), (0, 2), (0, 3)], heap_table(0), (147, 135, 99, 210, 39, 198, 225, 228));
}

proof fn lemma_class_13_weight()
    ensures
        table_weight(chart_signature([(0, 1), (0, 2), (0, 3)], heap_table(2))) == 43438302,
{
    lemma_heap_entries();
    lemma_codes_of_word_1(heap_table(2));
    lemma_signature_weight([(0, 1), (0, 2), (0, 3)], heap_table(2));
    lemma_table_weight_of_codes([(0, 1), (0, 2), (0, 3)], heap_table(2), (75, 99, 27, 201, 147, 225, 216, 210));
}

proof fn lemma_class_14_weight()
    ensures
        table_weight(chart_signature([(0, 1), (0, 2), (0, 3)], heap_table(4))) == 40774293,
{
    lemma_heap_entries();
    lemma_codes_of_word_1(heap_table(4));
    lemma_signature_weight([(0, 1), (0, 2), (0, 3)], heap_table(4));
    lemma_table_weight_of_codes([(0, 1), (0, 2), (0, 3)], heap_table(4), (39, 27, 135, 228, 75, 216, 198, 201));
}

proof fn lemma_class_15_weight()
    ensures
        table_weight(chart_signature([(0, 1), (0, 2), (0, 3)], heap_table(6))) == 23075388,
{
    lemma_heap_entries();
    lemma_codes_of_word_1(heap_table(6));
    lemma_signature_weight([(0, 1), (0, 2), (0, 3)], heap_table(6));
    lemma_table_weight_of_codes([(0, 1), (0, 2), (0, 3)], heap_table(6), (156, 180, 108, 30, 228, 54, 45, 39));
}

proof fn lemma_class_16_weight()
    ensures
        table_weight(chart_signature([(0, 1), (0, 2), (0, 3)], heap_table(8))) == 17184825,
{
    lemma_heap_entries();
    lemma_codes_of_word_1(heap_table(8));
    lemma_signature_weight([(0, 1), (0, 2), (0, 3)], heap_table(8));
    lemma_table_weight_of_codes([(0, 1), (0, 2), (0, 3)], heap_table(8), (120, 108, 216, 57, 156, 45, 27, 30));
}

proof fn lemma_class_17_weight()
    ensures
        table_weight(chart_signature([(0, 1), (0, 2), (0, 3)], heap_table(10))) == 29911707,
{
    lemma_heap_entries();
    lemma_codes_of_word_1(heap_table(10));
    lemma_signature_weight([(0, 1), (0, 2), (0, 3)], heap_table(10));
    lemma_table_weight_of_codes([(0, 1), (0, 2), (0, 3)], heap_table(10), (228, 216, 180, 39, 120, 27, 54, 57));
}

proof fn lemma_class_18_weight()
    ensures
        table_weight(chart_signature([(0, 1), (0, 2), (0, 3)], heap_table(12))) == 24016311,
{
    lemma_heap_entries();
    lemma_codes_of_word_1(heap_table(12));
    lemma_signature_weight([(0, 1), (0, 2), (0, 3)], heap_table(12));
    lemma_table_weight_of_codes([(0, 1), (0, 2), (0, 3)], heap_table(12), (141, 177, 45, 78, 225, 114, 108, 99));
}

proof fn lemma_class_19_weight()
    ensures
        table_weight(chart_signature([(0, 1), (0, 2), (0, 3)], heap_table(14))) == 15084279,
{
    lemma_heap_entries();
    lemma_codes_of_word_1(heap_table(14));
    lemma_signature_weight([(0, 1), (0, 2), (0, 3)], heap_table(14));
    lemma_table_weight_of_codes([(0, 1), (0, 2), (0, 3)], heap_table(14), (57, 45, 201, 120, 141, 108, 75, 78));
}

proof fn lemma_class_20_weight()
    ensures
        table_weight(chart_signature([(0, 1), (0, 2), (0, 3)], heap_table(16))) == 29843370,
{
    lemma_heap_entries();
    lemma_codes_of_word_1(heap_table(16));
    lemma_signature_weight([(0, 1), (0, 2), (0, 3)], heap_table(16));
    lemma_table_weight_of_codes([(0, 1), (0, 2), (0, 3)], heap_table(16), (225, 201, 177, 99, 57, 75, 114, 120));
}

proof fn lemma_class_21_weight()
    ensures
        table_weight(chart_signature([(0, 1), (0, 2), (0, 3)], heap_table(18))) == 26565489,
{
    lemma_heap_entries();
    lemma_codes_of_word_1(heap_table(18));
    lemma_signature_weight([(0, 1), (0, 2), (0, 3)], heap_table(18));
    lemma_table_weight_of_codes([(0, 1), (0, 2), (0, 3)], heap_table(18), (78, 114, 30, 141, 210, 177, 156, 147));
}

proof fn lemma_class_22_weight()
    ensures
        table_weight(chart_signature([(0, 1), (0, 2), (0, 3)], heap_table(20))) == 23313420,
{
    lemma_heap_entries();
    lemma_codes_of_word_1(heap_table(20));
    lemma_signature_weight([(0, 1), (0, 2), (0, 3)], heap_table(20));
    lemma_table_weight_of_codes([(0, 1), (0, 2), (0, 3)], heap_table(20), (54, 30, 198, 180, 78, 156, 135, 141));
}

proof fn lemma_class_23_weight()
    ensures
        table_weight(chart_signature([(0, 1), (0, 2), (0, 3)], heap_table(22))) == 35676531,
{
    lemma_heap_entries();
    lemma_codes_of_word_1(heap_table(22));
    lemma_signature_weight([(0, 1), (0, 2), (0, 3)], heap_table(22));
    lemma_table_weight_of_codes([(0, 1), (0, 2), (0, 3)], heap_table(22), (210, 198, 114, 147, 54, 135, 177, 180));
}

proof fn lemma_class_24_weight()
    ensures
        table_weight(chart_signature([(0, 1), (1, 2), (1, 3)], heap_table(0))) == 49391748,
{
    lemma_heap_entries();
    lemma_codes_of_word_2(heap_table(0));
    lemma_signature_weight([(0, 1), (1, 2), (1, 3)], heap_table(0));
    lemma_table_weight_of_codes([(0, 1), (1, 2), (1, 3)], heap_table(0), (141, 156, 45, 201, 108, 216, 225, 228));
}

proof fn lemma_class_25_weight()
    ensures
        table_weight(chart_signature([(0, 1), (1, 2), (1, 3)], heap_table(2))) == 44511120,
{
    lemma_heap_entries();
    lemma_codes_of_word_2(heap_table(2));
    lemma_signature_weight([(0, 1), (1, 2), (1, 3)], heap_table(2));
    lemma_table_weight_of_codes([(0, 1), (1, 2), (1, 3)], heap_table(2), (108, 78, 156, 228, 30, 198, 216, 210));
}

proof fn lemma_class_26_weight()
    ensures
        table_weight(chart_signature([(0, 1), (1, 2), (1, 3)], heap_table(4))) == 39930516,
{
    lemma_heap_entries();
    lemma_codes_of_word_2(heap_table(4));
    lemma_signature_weight([(0, 1), (1, 2), (1, 3)], heap_table(4));
    lemma_table_weight_of_codes([(0, 1), (1, 2), (1, 3)], heap_table(4), (30, 45, 78, 210, 141, 225, 198, 201));
}

proof fn lemma_class_27_weight()
    ensures
        table_weight(chart_signature([(0, 1), (1, 2), (1, 3)], heap_table(6))) == 21438000,
{
    lemma_heap_entries();
    lemma_codes_of_word_2(heap_table(6));
    lemma_signature_weight([(0, 1), (1, 2), (1, 3)], heap_table(6));
    lemma_table_weight_of_codes([(0, 1), (1, 2), (1, 3)], heap_table(6), (177, 147, 225, 57, 99, 27, 45, 39));
}

proof fn lemma_class_28_weight()
    ensures
        table_weight(chart_signature([(0, 1), (1, 2), (1, 3)], heap_table(8))) == 15152832,
{
    lemma_heap_entries();
    lemma_codes_of_word_2(heap_table(8));
    lemma_signature_weight([(0, 1), (1, 2), (1, 3)], heap_table(8));
    lemma_table_weight_of_codes([(0, 1), (1, 2), (1, 3)], heap_table(8), (99, 114, 147, 39, 210, 54, 27, 30));
}

proof fn lemma_class_29_weight()
    ensures
        table_weight(chart_signature([(0, 1), (1, 2), (1, 3)], heap_table(10))) == 28139184,
{
    lemma_heap_entries();
    lemma_codes_of_word_2(heap_table(10));
    lemma_signature_weight([(0, 1), (1, 2), (1, 3)], heap_table(10));
    lemma_table_weight_of_codes([(0, 1), (1, 2), (1, 3)], heap_table(10), (210, 225, 114, 30, 177, 45, 54, 57));
}

proof fn lemma_class_30_weight()
    ensures
        table_weight(chart_signature([(0, 1), (1, 2), (1, 3)], heap_table(12))) == 24583932,
{
    lemma_heap_entries();
    lemma_codes_of_word_2(heap_table(12));
    lemma_signature_weight([(0, 1), (1, 2), (1, 3)], heap_table(12));
    lemma_table_weight_of_codes([(0, 1), (1, 2), (1, 3)], heap_table(12), (180, 135, 228, 120, 39, 75, 108, 99));
}

proof fn lemma_class_31_weight()
    ensures
        table_weight(chart_signature([(0, 1), (1, 2), (1, 3)], heap_table(14))) == 13787820,
{
    lemma_heap_entries();
    lemma_codes_of_word_2(heap_table(14));
    lemma_signature_weight([(0, 1), (1, 2), (1, 3)], heap_table(14));
    lemma_table_weight_of_codes([(0, 1), (1, 2), (1, 3)], heap_table(14), (39, 54, 135, 99, 198, 114, 75, 78));
}

proof fn lemma_class_32_weight()
    ensures
        table_weight(chart_signature([(0, 1), (1, 2), (1, 3)], heap_table(16))) == 30548016,
{
    lemma_heap_entries();
    lemma_codes_of_word_2(heap_table(16));
    lemma_signature_weight([(0, 1), (1, 2), (1, 3)], heap_table(16));
    lemma_table_weight_of_codes([(0, 1), (1, 2), (1, 3)], heap_table(16), (198, 228, 54, 78, 180, 108, 114, 120));
}

proof fn lemma_class_33_weight()
    ensures
        table_weight(chart_signature([(0, 1), (1, 2), (1, 3)], heap_table(18))) == 27512568,
{
    lemma_heap_entries();
    lemma_codes_of_word_2(heap_table(18));
    lemma_signature_weight([(0, 1), (1, 2), (1, 3)], heap_table(18));
    lemma_table_weight_of_codes([(0, 1), (1, 2), (1, 3)], heap_table(18), (120, 75, 216, 180, 27, 135, 156, 147));
}

proof fn lemma_class_34_weight()
    ensures
        table_weight(chart_signature([(0, 1), (1, 2), (1, 3)], heap_table(20))) == 22732704,
{
    lemma_heap_entries();
    lemma_codes_of_word_2(heap_table(20));
    lemma_signature_weight([(0, 1), (1, 2), (1, 3)], heap_table(20));
    lemma_table_weight_of_codes([(0, 1), (1, 2), (1, 3)], heap_table(20), (27, 57, 75, 147, 201, 177, 135, 141));
}

proof fn lemma_class_35_weight()
    ensures
        table_weight(chart_signature([(0, 1), (1, 2), (1, 3)], heap_table(22))) == 38088360,
{
    lemma_heap_entries();
    lemma_codes_of_word_2(heap_table(22));
    lemma_signature_weight([(0, 1), (1, 2), (1, 3)], heap_table(22));
    lemma_table_weight_of_codes([(0, 1), (1, 2), (1, 3)], heap_table(22), (201, 216, 57, 141, 120, 156, 177, 180));
}

proof fn lemma_class_36_weight()
    ensures
        table_weight(chart_signature([(0, 2), (0, 3), (1, 2)], heap_table(0))) == 44669340,
{
    lemma_heap_entries();
    lemma_codes_of_word_3(heap_table(0));
    lemma_signature_weight([(0, 2), (0, 3), (1, 2)], heap_table(0));
    lemma_table_weight_of_codes([(0, 2), (0, 3), (1, 2)], heap_table(0), (147, 27, 210, 135, 216, 39, 198, 228));
}

proof fn lemma_class_37_weight()
    ensures
        table_weight(chart_signature([(0, 2), (0, 3), (1, 2)], heap_table(1))) == 43563690,
{
    lemma_heap_entries();
    lemma_codes_of_word_3(heap_table(1));
    lemma_signature_weight([(0, 2), (0, 3), (1, 2)], heap_table(1));
    lemma_table_weight_of_codes([(0, 2), (0, 3), (1, 2)], heap_table(1), (135, 75, 198, 147, 201, 99, 210, 225));
}

proof fn lemma_class_38_weight()
    ensures
        table_weight(chart_signature([(0, 2), (0, 3), (1, 2)], heap_table(3))) == 42912450,
{
    lemma_heap_entries();
    lemma_codes_of_word_3(heap_table(3));
    lemma_signature_weight([(0, 2), (0, 3), (1, 2)], heap_table(3));
    lemma_table_weight_of_codes([(0, 2), (0, 3), (1, 2)], heap_table(3), (99, 39, 225, 75, 228, 27, 201, 216));
}

proof fn lemma_class_39_weight()
    ensures
        table_weight(chart_signature([(0, 2), (0, 3), (1, 2)], heap_table(6))) == 31821930,
{
    lemma_heap_entries();
    lemma_codes_of_word_3(heap_table(6));
    lemma_signature_weight([(0, 2), (0, 3), (1, 2)], heap_table(6));
    lemma_table_weight_of_codes([(0, 2), (0, 3), (1, 2)], heap_table(6), (156, 216, 30, 180, 27, 228, 54, 39));
}

proof fn lemma_class_40_weight()
    ensures
        table_weight(chart_signature([(0, 2), (0, 3), (1, 2)], heap_table(7))) == 13076910,
{
    lemma_heap_entries();
    lemma_codes_of_word_3(heap_table(7));
    lemma_signature_weight([(0, 2), (0, 3), (1, 2)], heap_table(7));
    lemma_table_weight_of_codes([(0, 2), (0, 3), (1, 2)], heap_table(7), (180, 120, 54, 156, 57, 108, 30, 45));
}

proof fn lemma_class_41_weight()
    ensures
        table_weight(chart_signature([(0, 2), (0, 3), (1, 2)], heap_table(9))) == 25273080,
{
    lemma_heap_entries();
    lemma_codes_of_word_3(heap_table(9));
    lemma_signature_weight([(0, 2), (0, 3), (1, 2)], heap_table(9));
    lemma_table_weight_of_codes([(0, 2), (0, 3), (1, 2)], heap_table(9), (108, 228, 45, 120, 39, 216, 57, 27));
}

proof fn lemma_class_42_weight()
    ensures
        table_weight(chart_signature([(0, 2), (0, 3), (1, 2)], heap_table(12))) == 31207950,
{
    lemma_heap_entries();
    lemma_codes_of_word_3(heap_table(12));
    lemma_signature_weight([(0, 2), (0, 3), (1, 2)], heap_table(12));
    lemma_table_weight_of_codes([(0, 2), (0, 3), (1, 2)], heap_table(12), (141, 201, 78, 177, 75, 225, 114, 99));
}

proof fn lemma_class_43_weight()
    ensures
        table_weight(chart_signature([(0, 2), (0, 3), (1, 2)], heap_table(13))) == 13568580,
{
    lemma_heap_entries();
    lemma_codes_of_word_3(heap_table(13));
    lemma_signature_weight([(0, 2), (0, 3), (1, 2)], heap_table(13));
    lemma_table_weight_of_codes([(0, 2), (0, 3), (1, 2)], heap_table(13), (177, 57, 114, 141, 120, 45, 78, 108));
}

proof fn lemma_class_44_weight()
    ensures
        table_weight(chart_signature([(0, 2), (0, 3), (1, 2)], heap_table(15))) == 24167430,
{
    lemma_heap_entries();
    lemma_codes_of_word_3(heap_table(15));
    lemma_signature_weight([(0, 2), (0, 3), (1, 2)], heap_table(15));
    lemma_table_weight_of_codes([(0, 2), (0, 3), (1, 2)], heap_table(15), (45, 225, 108, 57, 99, 201, 120, 75));
}

proof fn lemma_class_45_weight()
    ensures
        table_weight(chart_signature([(0, 2), (0, 3), (1, 2)], heap_table(18))) == 32964840,
{
    lemma_heap_entries();
    lemma_codes_of_word_3(heap_table(18));
    lemma_signature_weight([(0, 2), (0, 3), (1, 2)], heap_table(18));
    lemma_table_weight_of_codes([(0, 2), (0, 3), (1, 2)], heap_table(18), (78, 198, 141, 114, 135, 210, 177, 147));
}

proof fn lemma_class_46_weight()
    ensures
        table_weight(chart_signature([(0, 2), (0, 3), (1, 2)], heap_table(19))) == 20117430,
{
    lemma_heap_entries();
    lemma_codes_of_word_3(heap_table(19));
    lemma_signature_weight([(0, 2), (0, 3), (1, 2)], heap_table(19));
    lemma_table_weight_of_codes([(0, 2), (0, 3), (1, 2)], heap_table(19), (114, 54, 177, 78, 180, 30, 141, 156));
}

proof fn lemma_class_47_weight()
    ensures
        table_weight(chart_signature([(0, 2), (0, 3), (1, 2)], heap_table(21))) == 32473170,
{
    lemma_heap_entries();
    lemma_codes_of_word_3(heap_table(21));
    lemma_signature_weight([(0, 2), (0, 3), (1, 2)], heap_table(21));
    lemma_table_weight_of_codes([(0, 2), (0, 3), (1, 2)], heap_table(21), (30, 210, 156, 54, 147, 198, 180, 135));
}

proof fn lemma_class_48_weight()
    ensures
        table_weight(chart_signature([(0, 2), (1, 3), (1, 2)], heap_table(0))) == 43897248,
{
    lemma_heap_entries();
    lemma_codes_of_word_4(heap_table(0));
    lemma_signature_weight([(0, 2), (1, 3), (1, 2)], heap_table(0));
    lemma_table_weight_of_codes([(0, 2), (1, 3), (1, 2)], heap_table(0), (114, 120, 210, 78, 216, 108, 198, 228));
}

proof fn lemma_class_49_weight()
    ensures
        table_weight(chart_signature([(0, 2), (1, 3), (1, 2)], heap_table(1))) == 36995400,
{
    lemma_heap_entries();
    lemma_codes_of_word_4(heap_table(1));
    lemma_signature_weight([(0, 2), (1, 3), (1, 2)], heap_table(1));
    lemma_table_weight_of_codes([(0, 2), (1, 3), (1, 2)], heap_table(1), (54, 57, 198, 30, 201, 45, 210, 225));
}

proof fn lemma_class_50_weight()
    ensures
        table_weight(chart_signature([(0, 2), (1, 3), (1, 2)], heap_table(3))) == 59418144,
{
    lemma_heap_entries();
    lemma_codes_of_word_4(heap_table(3));
    lemma_signature_weight([(0, 2), (1, 3), (1, 2)], heap_table(3));
    lemma_table_weight_of_codes([(0, 2), (1, 3), (1, 2)], heap_table(3), (177, 180, 225, 141, 228, 156, 201, 216));
}

proof fn lemma_class_51_weight()
    ensures
        table_weight(chart_signature([(0, 2), (1, 3), (1, 2)], heap_table(6))) == 3611736,
{
    lemma_heap_entries();
    lemma_codes_of_word_4(heap_table(6));
    lemma_signature_weight([(0, 2), (1, 3), (1, 2)], heap_table(6));
    lemma_table_weight_of_codes([(0, 2), (1, 3), (1, 2)], heap_table(6), (78, 75, 30, 114, 27, 99, 54, 39));
}

proof fn lemma_class_52_weight()
    ensures
        table_weight(chart_signature([(0, 2), (1, 3), (1, 2)], heap_table(9))) == 14340672,
{
    lemma_heap_entries();
    lemma_codes_of_word_4(heap_table(9));
    lemma_signature_weight([(0, 2), (1, 3), (1, 2)], heap_table(9));
    lemma_table_weight_of_codes([(0, 2), (1, 3), (1, 2)], heap_table(9), (141, 135, 45, 177, 39, 147, 57, 27));
}

proof fn lemma_class_53_weight()
    ensures
        table_weight(chart_signature([(0, 2), (1, 3), (1, 2)], heap_table(15))) == 19645200,
{
    lemma_heap_entries();
    lemma_codes_of_word_4(heap_table(15));
    lemma_signature_weight([(0, 2), (1, 3), (1, 2)], heap_table(15));
    lemma_table_weight_of_codes([(0, 2), (1, 3), (1, 2)], heap_table(15), (156, 147, 108, 180, 99, 135, 120, 75));
}

proof fn lemma_class_54_weight()
    ensures
        table_weight(chart_signature([(0, 3), (1, 2), (1, 3)], heap_table(0))) == 31212000,
{
    lemma_heap_entries();
    lemma_codes_of_word_5(heap_table(0));
    lemma_signature_weight([(0, 3), (1, 2), (1, 3)], heap_table(0));
    lemma_table_weight_of_codes([(0, 3), (1, 2), (1, 3)], heap_table(0), (147, 156, 99, 27, 108, 216, 39, 228));
}

proof fn lemma_class_55_weight()
    ensures
        table_weight(chart_signature([(0, 3), (1, 2), (1, 3)], heap_table(1))) == 26317440,
{
    lemma_heap_entries();
    lemma_codes_of_word_5(heap_table(1));
    lemma_signature_weight([(0, 3), (1, 2), (1, 3)], heap_table(1));
    lemma_table_weight_of_codes([(0, 3), (1, 2), (1, 3)], heap_table(1), (135, 141, 39, 75, 45, 201, 99, 225));
}

proof fn lemma_class_56_weight()
    ensures
        table_weight(chart_signature([(0, 3), (1, 2), (1, 3)], heap_table(2))) == 23603400,
{
    lemma_heap_entries();
    lemma_codes_of_word_5(heap_table(2));
    lemma_signature_weight([(0, 3), (1, 2), (1, 3)], heap_table(2));
    lemma_table_weight_of_codes([(0, 3), (1, 2), (1, 3)], heap_table(2), (75, 78, 27, 135, 30, 198, 147, 210));
}

proof fn lemma_class_57_weight()
    ensures
        table_weight(chart_signature([(0, 3), (1, 2), (1, 3)], heap_table(7))) == 37884240,
{
    lemma_heap_entries();
    lemma_codes_of_word_5(heap_table(7));
    lemma_signature_weight([(0, 3), (1, 2), (1, 3)], heap_table(7));
    lemma_table_weight_of_codes([(0, 3), (1, 2), (1, 3)], heap_table(7), (180, 177, 228, 120, 225, 57, 108, 45));
}

proof fn lemma_class_58_weight()
    ensures
        table_weight(chart_signature([(0, 3), (1, 2), (1, 3)], heap_table(8))) == 32361120,
{
    lemma_heap_entries();
    lemma_codes_of_word_5(heap_table(8));
    lemma_signature_weight([(0, 3), (1, 2), (1, 3)], heap_table(8));
    lemma_table_weight_of_codes([(0, 3), (1, 2), (1, 3)], heap_table(8), (120, 114, 216, 180, 210, 54, 156, 30));
}

proof fn lemma_class_59_weight()
    ensures
        table_weight(chart_signature([(0, 3), (1, 2), (1, 3)], heap_table(14))) == 26530200,
{
    lemma_heap_entries();
    lemma_codes_of_word_5(heap_table(14));
    lemma_signature_weight([(0, 3), (1, 2), (1, 3)], heap_table(14));
    lemma_table_weight_of_codes([(0, 3), (1, 2), (1, 3)], heap_table(14), (57, 54, 201, 177, 198, 114, 141, 78));
}

proof fn lemma_class_60_weight()
    ensures
        table_weight(chart_signature([(0, 2), (0, 3), (1, 3)], heap_table(0))) == 25260876,
{
    lemma_heap_entries();
    lemma_codes_of_word_6(heap_table(0));
    lemma_signature_weight([(0, 2), (0, 3), (1, 3)], heap_table(0));
    lemma_table_weight_of_codes([(0, 2), (0, 3), (1, 3)], heap_table(0), (75, 99, 78, 135, 108, 39, 198, 228));
}

proof fn lemma_class_61_weight()
    ensures
        table_weight(chart_signature([(0, 2), (0, 3), (1, 3)], heap_table(1))) == 24995574,
{
    lemma_heap_entries();
    lemma_codes_of_word_6(heap_table(1));
    lemma_signature_weight([(0, 2), (0, 3), (1, 3)], heap_table(1));
    lemma_table_weight_of_codes([(0, 2), (0, 3), (1, 3)], heap_table(1), (27, 39, 30, 147, 45, 99, 210, 225));
}

proof fn lemma_class_62_weight()
    ensures
        table_weight(chart_signature([(0, 2), (0, 3), (1, 3)], heap_table(3))) == 30876390,
{
    lemma_heap_entries();
    lemma_codes_of_word_6(heap_table(3));
    lemma_signature_weight([(0, 2), (0, 3), (1, 3)], heap_table(3));
    lemma_table_weight_of_codes([(0, 2), (0, 3), (1, 3)], heap_table(3), (135, 147, 141, 75, 156, 27, 201, 216));
}

proof fn lemma_class_63_weight()
    ensures
        table_weight(chart_signature([(0, 2), (0, 3), (1, 3)], heap_table(6))) == 23340690,
{
    lemma_heap_entries();
    lemma_codes_of_word_6(heap_table(6));
    lemma_signature_weight([(0, 2), (0, 3), (1, 3)], heap_table(6));
    lemma_table_weight_of_codes([(0, 2), (0, 3), (1, 3)], heap_table(6), (120, 108, 114, 180, 99, 228, 54, 39));
}

proof fn lemma_class_64_weight()
    ensures
        table_weight(chart_signature([(0, 2), (0, 3), (1, 3)], heap_table(7))) == 47755926,
{
    lemma_heap_entries();
    lemma_codes_of_word_6(heap_table(7));
    lemma_signature_weight([(0, 2), (0, 3), (1, 3)], heap_table(7));
    lemma_table_weight_of_codes([(0, 2), (0, 3), (1, 3)], heap_table(7), (216, 228, 210, 156, 225, 108, 30, 45));
}

proof fn lemma_class_65_weight()
    ensures
        table_weight(chart_signature([(0, 2), (0, 3), (1, 3)], heap_table(9))) == 30360744,
{
    lemma_heap_entries();
    lemma_codes_of_word_6(heap_table(9));
    lemma_signature_weight([(0, 2), (0, 3), (1, 3)], heap_table(9));
    lemma_table_weight_of_codes([(0, 2), (0, 3), (1, 3)], heap_table(9), (180, 156, 177, 120, 147, 216, 57, 27));
}

proof fn lemma_class_66_weight()
    ensures
        table_weight(chart_signature([(0, 2), (0, 3), (1, 3)], heap_table(12))) == 19880802,
{
    lemma_heap_entries();
    lemma_codes_of_word_6(heap_table(12));
    lemma_signature_weight([(0, 2), (0, 3), (1, 3)], heap_table(12));
    lemma_table_weight_of_codes([(0, 2), (0, 3), (1, 3)], heap_table(12), (57, 45, 54, 177, 39, 225, 114, 99));
}

proof fn lemma_class_67_weight()
    ensures
        table_weight(chart_signature([(0, 2), (0, 3), (1, 3)], heap_table(13))) == 43754580,
{
    lemma_heap_entries();
    lemma_codes_of_word_6(heap_table(13));
    lemma_signature_weight([(0, 2), (0, 3), (1, 3)], heap_table(13));
    lemma_table_weight_of_codes([(0, 2), (0, 3), (1, 3)], heap_table(13), (201, 225, 198, 141, 228, 45, 78, 108));
}

proof fn lemma_class_68_weight()
    ensures
        table_weight(chart_signature([(0, 2), (0, 3), (1, 3)], heap_table(15))) == 27096498,
{
    lemma_heap_entries();
    lemma_codes_of_word_6(heap_table(15));
    lemma_signature_weight([(0, 2), (0, 3), (1, 3)], heap_table(15));
    lemma_table_weight_of_codes([(0, 2), (0, 3), (1, 3)], heap_table(15), (177, 141, 180, 57, 135, 201, 120, 75));
}

proof fn lemma_class_69_weight()
    ensures
        table_weight(chart_signature([(0, 2), (0, 3), (1, 3)], heap_table(18))) == 19853640,
{
    lemma_heap_entries();
    lemma_codes_of_word_6(heap_table(18));
    lemma_signature_weight([(0, 2), (0, 3), (1, 3)], heap_table(18));
    lemma_table_weight_of_codes([(0, 2), (0, 3), (1, 3)], heap_table(18), (54, 30, 57, 114, 27, 210, 177, 147));
}

proof fn lemma_class_70_weight()
    ensures
        table_weight(chart_signature([(0, 2), (0, 3), (1, 3)], heap_table(19))) == 42322878,
{
    lemma_heap_entries();
    lemma_codes_of_word_6(heap_table(19));
    lemma_signature_weight([(0, 2), (0, 3), (1, 3)], heap_table(19));
    lemma_table_weight_of_codes([(0, 2), (0, 3), (1, 3)], heap_table(19), (198, 210, 201, 78, 216, 30, 141, 156));
}

proof fn lemma_class_71_weight()
    ensures
        table_weight(chart_signature([(0, 2), (0, 3), (1, 3)], heap_table(21))) == 20318202,
{
    lemma_heap_entries();
    lemma_codes_of_word_6(heap_table(21));
    lemma_signature_weight([(0, 2), (0, 3), (1, 3)], heap_table(21));
    lemma_table_weight_of_codes([(0, 2), (0, 3), (1, 3)], heap_table(21), (114, 78, 120, 54, 75, 198, 180, 135));
}

proof fn lemma_class_72_weight()
    ensures
        table_weight(chart_signature([(0, 1), (0, 2), (1, 3)], heap_table(0))) == 42118758,
{
    lemma_heap_entries();
    lemma_codes_of_word_7(heap_table(0));
    lemma_signature_weight([(0, 1), (0, 2), (1, 3)], heap_table(0));
    lemma_table_weight_of_codes([(0, 1), (0, 2), (1, 3)], heap_table(0), (30, 78, 45, 210, 108, 198, 225, 228));
}

proof fn lemma_class_73_weight()
    ensures
        table_weight(chart_signature([(0, 1), (0, 2), (1, 3)], heap_table(2))) == 45567684,
{
    lemma_heap_entries();
    lemma_codes_of_word_7(heap_table(2));
    lemma_signature_weight([(0, 1), (0, 2), (1, 3)], heap_table(2));
    lemma_table_weight_of_codes([(0, 1), (0, 2), (1, 3)], heap_table(2), (141, 45, 156, 201, 30, 225, 216, 210));
}

proof fn lemma_class_74_weight()
    ensures
        table_weight(chart_signature([(0, 1), (0, 2), (1, 3)], heap_table(4))) == 46146942,
{
    lemma_heap_entries();
    lemma_codes_of_word_7(heap_table(4));
    lemma_signature_weight([(0, 1), (0, 2), (1, 3)], heap_table(4));
    lemma_table_weight_of_codes([(0, 1), (0, 2), (1, 3)], heap_table(4), (108, 156, 78, 228, 141, 216, 198, 201));
}

proof fn lemma_class_75_weight()
    ensures
        table_weight(chart_signature([(0, 1), (0, 2), (1, 3)], heap_table(6))) == 23438376,
{
    lemma_heap_entries();
    lemma_codes_of_word_7(heap_table(6));
    lemma_signature_weight([(0, 1), (0, 2), (1, 3)], heap_table(6));
    lemma_table_weight_of_codes([(0, 1), (0, 2), (1, 3)], heap_table(6), (210, 114, 225, 30, 99, 54, 45, 39));
}

proof fn lemma_class_76_weight()
    ensures
        table_weight(chart_signature([(0, 1), (0, 2), (1, 3)], heap_table(8))) == 29696382,
{
    lemma_heap_entries();
    lemma_codes_of_word_7(heap_table(8));
    lemma_signature_weight([(0, 1), (0, 2), (1, 3)], heap_table(8));
    lemma_table_weight_of_codes([(0, 1), (0, 2), (1, 3)], heap_table(8), (177, 225, 147, 57, 210, 45, 27, 30));
}

proof fn lemma_class_77_weight()
    ensures
        table_weight(chart_signature([(0, 1), (0, 2), (1, 3)], heap_table(10))) == 11595258,
{
    lemma_heap_entries();
    lemma_codes_of_word_7(heap_table(10));
    lemma_signature_weight([(0, 1), (0, 2), (1, 3)], heap_table(10));
    lemma_table_weight_of_codes([(0, 1), (0, 2), (1, 3)], heap_table(10), (99, 147, 114, 39, 177, 27, 54, 57));
}

proof fn lemma_class_78_weight()
    ensures
        table_weight(chart_signature([(0, 1), (0, 2), (1, 3)], heap_table(12))) == 24017634,
{
    lemma_heap_entries();
    lemma_codes_of_word_7(heap_table(12));
    lemma_signature_weight([(0, 1), (0, 2), (1, 3)], heap_table(12));
    lemma_table_weight_of_codes([(0, 1), (0, 2), (1, 3)], heap_table(12), (198, 54, 228, 78, 39, 114, 108, 99));
}

proof fn lemma_class_79_weight()
    ensures
        table_weight(chart_signature([(0, 1), (0, 2), (1, 3)], heap_table(14))) == 31791258,
{
    lemma_heap_entries();
    lemma_codes_of_word_7(heap_table(14));
    lemma_signature_weight([(0, 1), (0, 2), (1, 3)], heap_table(14));
    lemma_table_weight_of_codes([(0, 1), (0, 2), (1, 3)], heap_table(14), (180, 228, 135, 120, 198, 108, 75, 78));
}

proof fn lemma_class_80_weight()
    ensures
        table_weight(chart_signature([(0, 1), (0, 2), (1, 3)], heap_table(16))) == 13110876,
{
    lemma_heap_entries();
    lemma_codes_of_word_7(heap_table(16));
    lemma_signature_weight([(0, 1), (0, 2), (1, 3)], heap_table(16));
    lemma_table_weight_of_codes([(0, 1), (0, 2), (1, 3)], heap_table(16), (39, 135, 54, 99, 180, 75, 114, 120));
}

proof fn lemma_class_81_weight()
    ensures
        table_weight(chart_signature([(0, 1), (0, 2), (1, 3)], heap_table(18))) == 33724566,
{
    lemma_heap_entries();
    lemma_codes_of_word_7(heap_table(18));
    lemma_signature_weight([(0, 1), (0, 2), (1, 3)], heap_table(18));
    lemma_table_weight_of_codes([(0, 1), (0, 2), (1, 3)], heap_table(18), (201, 57, 216, 141, 27, 177, 156, 147));
}

proof fn lemma_class_82_weight()
    ensures
        table_weight(chart_signature([(0, 1), (0, 2), (1, 3)], heap_table(20))) == 35240184,
{
    lemma_heap_entries();
    lemma_codes_of_word_7(heap_table(20));
    lemma_signature_weight([(0, 1), (0, 2), (1, 3)], heap_table(20));
    lemma_table_weight_of_codes([(0, 1), (0, 2), (1, 3)], heap_table(20), (120, 216, 75, 180, 201, 156, 135, 141));
}

proof fn lemma_class_83_weight()
    ensures
        table_weight(chart_signature([(0, 1), (0, 2), (1, 3)], heap_table(22))) == 19368882,
{
    lemma_heap_entries();
    lemma_codes_of_word_7(heap_table(22));
    lemma_signature_weight([(0, 1), (0, 2), (1, 3)], heap_table(22));
    lemma_table_weight_of_codes([(0, 1), (0, 2), (1, 3)], heap_table(22), (27, 75, 57, 147, 120, 135, 177, 180));
}

proof fn lemma_class_84_weight()
    ensures
        table_weight(chart_signature([(0, 1), (0, 2), (2, 3)], heap_table(0))) == 53282610,
{
    lemma_heap_entries();
    lemma_codes_of_word_8(heap_table(0));
    lemma_signature_weight([(0, 1), (0, 2), (2, 3)], heap_table(0));
    lemma_table_weight_of_codes([(0, 1), (0, 2), (2, 3)], heap_table(0), (114, 54, 177, 210, 180, 198, 225, 228));
}

proof fn lemma_class_85_weight()
    ensures
        table_weight(chart_signature([(0, 1), (0, 2), (2, 3)], heap_table(2))) == 47789892,
{
    lemma_heap_entries();
    lemma_codes_of_word_8(heap_table(2));
    lemma_signature_weight([(0, 1), (0, 2), (2, 3)], heap_table(2));
    lemma_table_weight_of_codes([(0, 1), (0, 2), (2, 3)], heap_table(2), (57, 177, 120, 201, 114, 225, 216, 210));
}

proof fn lemma_class_86_weight()
    ensures
        table_weight(chart_signature([(0, 1), (0, 2), (2, 3)], heap_table(4))) == 45715698,
{
    lemma_heap_entries();
    lemma_codes_of_word_8(heap_table(4));
    lemma_signature_weight([(0, 1), (0, 2), (2, 3)], heap_table(4));
    lemma_table_weight_of_codes([(0, 1), (0, 2), (2, 3)], heap_table(4), (180, 120, 54, 228, 57, 216, 198, 201));
}

proof fn lemma_class_87_weight()
    ensures
        table_weight(chart_signature([(0, 1), (0, 2), (2, 3)], heap_table(6))) == 13835448,
{
    lemma_heap_entries();
    lemma_codes_of_word_8(heap_table(6));
    lemma_signature_weight([(0, 1), (0, 2), (2, 3)], heap_table(6));
    lemma_table_weight_of_codes([(0, 1), (0, 2), (2, 3)], heap_table(6), (78, 198, 141, 30, 135, 54, 45, 39));
}

proof fn lemma_class_88_weight()
    ensures
        table_weight(chart_signature([(0, 1), (0, 2), (2, 3)], heap_table(8))) == 12143250,
{
    lemma_heap_entries();
    lemma_codes_of_word_8(heap_table(8));
    lemma_signature_weight([(0, 1), (0, 2), (2, 3)], heap_table(8));
    lemma_table_weight_of_codes([(0, 1), (0, 2), (2, 3)], heap_table(8), (201, 141, 75, 57, 78, 45, 27, 30));
}

proof fn lemma_class_89_weight()
    ensures
        table_weight(chart_signature([(0, 1), (0, 2), (2, 3)], heap_table(10))) == 19186902,
{
    lemma_heap_entries();
    lemma_codes_of_word_8(heap_table(10));
    lemma_signature_weight([(0, 1), (0, 2), (2, 3)], heap_table(10));
    lemma_table_weight_of_codes([(0, 1), (0, 2), (2, 3)], heap_table(10), (135, 75, 198, 39, 201, 27, 54, 57));
}

proof fn lemma_class_90_weight()
    ensures
        table_weight(chart_signature([(0, 1), (0, 2), (2, 3)], heap_table(12))) == 20447046,
{
    lemma_heap_entries();
    lemma_codes_of_word_8(heap_table(12));
    lemma_signature_weight([(0, 1), (0, 2), (2, 3)], heap_table(12));
    lemma_table_weight_of_codes([(0, 1), (0, 2), (2, 3)], heap_table(12), (30, 210, 156, 78, 147, 114, 108, 99));
}

proof fn lemma_class_91_weight()
    ensures
        table_weight(chart_signature([(0, 1), (0, 2), (2, 3)], heap_table(14))) == 17804934,
{
    lemma_heap_entries();
    lemma_codes_of_word_8(heap_table(14));
    lemma_signature_weight([(0, 1), (0, 2), (2, 3)], heap_table(14));
    lemma_table_weight_of_codes([(0, 1), (0, 2), (2, 3)], heap_table(14), (216, 156, 27, 120, 30, 108, 75, 78));
}

proof fn lemma_class_92_weight()
    ensures
        table_weight(chart_signature([(0, 1), (0, 2), (2, 3)], heap_table(16))) == 27136620,
{
    lemma_heap_entries();
    lemma_codes_of_word_8(heap_table(16));
    lemma_signature_weight([(0, 1), (0, 2), (2, 3)], heap_table(16));
    lemma_table_weight_of_codes([(0, 1), (0, 2), (2, 3)], heap_table(16), (147, 27, 210, 99, 216, 75, 114, 120));
}

proof fn lemma_class_93_weight()
    ensures
        table_weight(chart_signature([(0, 1), (0, 2), (2, 3)], heap_table(18))) == 29033154,
{
    lemma_heap_entries();
    lemma_codes_of_word_8(heap_table(18));
    lemma_signature_weight([(0, 1), (0, 2), (2, 3)], heap_table(18));
    lemma_table_weight_of_codes([(0, 1), (0, 2), (2, 3)], heap_table(18), (45, 225, 108, 141, 99, 177, 156, 147));
}

proof fn lemma_class_94_weight()
    ensures
        table_weight(chart_signature([(0, 1), (0, 2), (2, 3)], heap_table(20))) == 28154520,
{
    lemma_heap_entries();
    lemma_codes_of_word_8(heap_table(20));
    lemma_signature_weight([(0, 1), (0, 2), (2, 3)], heap_table(20));
    lemma_table_weight_of_codes([(0, 1), (0, 2), (2, 3)], heap_table(20), (228, 108, 39, 180, 45, 156, 135, 141));
}

proof fn lemma_class_95_weight()
    ensures
        table_weight(chart_signature([(0, 1), (0, 2), (2, 3)], heap_table(22))) == 41286726,
{
    lemma_heap_entries();
    lemma_codes_of_word_8(heap_table(22));
    lemma_signature_weight([(0, 1), (0, 2), (2, 3)], heap_table(22));
    lemma_table_weight_of_codes([(0, 1), (0, 2), (2, 3)], heap_table(22), (99, 39, 225, 147, 228, 135, 177, 180));
}

proof fn lemma_class_96_weight()
    ensures
        table_weight(chart_signature([(0, 2), (1, 3), (2, 3)], heap_table(0))) == 31161888,
{
    lemma_heap_entries();
    lemma_codes_of_word_13(heap_table(0));
    lemma_signature_weight([(0, 2), (1, 3), (2, 3)], heap_table(0));
    lemma_table_weight_of_codes([(0, 2), (1, 3), (2, 3)], heap_table(0), (30, 156, 54, 78, 180, 108, 198, 228));
}

proof fn lemma_class_97_weight()
    ensures
        table_weight(chart_signature([(0, 2), (1, 3), (2, 3)], heap_table(1))) == 31074300,
{
    lemma_heap_entries();
    lemma_codes_of_word_13(heap_table(1));
    lemma_signature_weight([(0, 2), (1, 3), (2, 3)], heap_table(1));
    lemma_table_weight_of_codes([(0, 2), (1, 3), (2, 3)], heap_table(1), (78, 141, 114, 30, 177, 45, 210, 225));
}

proof fn lemma_class_98_weight()
    ensures
        table_weight(chart_signature([(0, 2), (1, 3), (2, 3)], heap_table(3))) == 28061964,
{
    lemma_heap_entries();
    lemma_codes_of_word_13(heap_table(3));
    lemma_signature_weight([(0, 2), (1, 3), (2, 3)], heap_table(3));
    lemma_table_weight_of_codes([(0, 2), (1, 3), (2, 3)], heap_table(3), (45, 108, 57, 141, 120, 156, 201, 216));
}

proof fn lemma_class_99_weight()
    ensures
        table_weight(chart_signature([(0, 2), (1, 3), (2, 3)], heap_table(6))) == 25328916,
{
    lemma_heap_entries();
    lemma_codes_of_word_13(heap_table(6));
    lemma_signature_weight([(0, 2), (1, 3), (2, 3)], heap_table(6));
    lemma_table_weight_of_codes([(0, 2), (1, 3), (2, 3)], heap_table(6), (210, 147, 198, 114, 135, 99, 54, 39));
}

proof fn lemma_class_100_weight()
    ensures
        table_weight(chart_signature([(0, 2), (1, 3), (2, 3)], heap_table(9))) == 29830032,
{
    lemma_heap_entries();
    lemma_codes_of_word_13(heap_table(9));
    lemma_signature_weight([(0, 2), (1, 3), (2, 3)], heap_table(9));
    lemma_table_weight_of_codes([(0, 2), (1, 3), (2, 3)], heap_table(9), (225, 99, 201, 177, 75, 147, 57, 27));
}

proof fn lemma_class_101_weight()
    ensures
        table_weight(chart_signature([(0, 2), (1, 3), (2, 3)], heap_table(15))) == 32451300,
{
    lemma_heap_entries();
    lemma_codes_of_word_13(heap_table(15));
    lemma_signature_weight([(0, 2), (1, 3), (2, 3)], heap_table(15));
    lemma_table_weight_of_codes([(0, 2), (1, 3), (2, 3)], heap_table(15), (228, 39, 216, 180, 27, 135, 120, 75));
}

proof fn lemma_class_102_weight()
    ensures
        table_weight(chart_signature([(0, 1), (0, 3), (0, 2)], heap_table(0))) == 42934995,
{
    lemma_heap_entries();
    lemma_codes_of_word_16(heap_table(0));
    lemma_signature_weight([(0, 1), (0, 3), (0, 2)], heap_table(0));
    lemma_table_weight_of_codes([(0, 1), (0, 3), (0, 2)], heap_table(0), (114, 54, 210, 99, 198, 39, 225, 228));
}

proof fn lemma_class_103_weight()
    ensures
        table_weight(chart_signature([(0, 1), (0, 3), (0, 2)], heap_table(2))) == 47776554,
{
    lemma_heap_entries();
    lemma_codes_of_word_16(heap_table(2));
    lemma_signature_weight([(0, 1), (0, 3), (0, 2)], heap_table(2));
    lemma_table_weight_of_codes([(0, 1), (0, 3), (0, 2)], heap_table(2), (57, 177, 201, 27, 225, 147, 216, 210));
}

proof fn lemma_class_104_weight()
    ensures
        table_weight(chart_signature([(0, 1), (0, 3), (0, 2)], heap_table(4))) == 48255291,
{
    lemma_heap_entries();
    lemma_codes_of_word_16(heap_table(4));
    lemma_signature_weight([(0, 1), (0, 3), (0, 2)], heap_table(4));
    lemma_table_weight_of_codes([(0, 1), (0, 3), (0, 2)], heap_table(4), (180, 120, 228, 135, 216, 75, 198, 201));
}

proof fn lemma_class_105_weight()
    ensures
        table_weight(chart_signature([(0, 1), (0, 3), (0, 2)], heap_table(6))) == 21683916,
{
    lemma_heap_entries();
    lemma_codes_of_word_16(heap_table(6));
    lemma_signature_weight([(0, 1), (0, 3), (0, 2)], heap_table(6));
    lemma_table_weight_of_codes([(0, 1), (0, 3), (0, 2)], heap_table(6), (78, 198, 30, 108, 54, 228, 45, 39));
}

proof fn lemma_class_106_weight()
    ensures
        table_weight(chart_signature([(0, 1), (0, 3), (0, 2)], heap_table(8))) == 25120935,
{
    lemma_heap_entries();
    lemma_codes_of_word_16(heap_table(8));
    lemma_signature_weight([(0, 1), (0, 3), (0, 2)], heap_table(8));
    lemma_table_weight_of_codes([(0, 1), (0, 3), (0, 2)], heap_table(8), (201, 141, 57, 216, 45, 156, 27, 30));
}

proof fn lemma_class_107_weight()
    ensures
        table_weight(chart_signature([(0, 1), (0, 3), (0, 2)], heap_table(10))) == 10863909,
{
    lemma_heap_entries();
    lemma_codes_of_word_16(heap_table(10));
    lemma_signature_weight([(0, 1), (0, 3), (0, 2)], heap_table(10));
    lemma_table_weight_of_codes([(0, 1), (0, 3), (0, 2)], heap_table(10), (135, 75, 39, 180, 27, 120, 54, 57));
}

proof fn lemma_class_108_weight()
    ensures
        table_weight(chart_signature([(0, 1), (0, 3), (0, 2)], heap_table(12))) == 24955857,
{
    lemma_heap_entries();
    lemma_codes_of_word_16(heap_table(12));
    lemma_signature_weight([(0, 1), (0, 3), (0, 2)], heap_table(12));
    lemma_table_weight_of_codes([(0, 1), (0, 3), (0, 2)], heap_table(12), (30, 210, 78, 45, 114, 225, 108, 99));
}

proof fn lemma_class_109_weight()
    ensures
        table_weight(chart_signature([(0, 1), (0, 3), (0, 2)], heap_table(14))) == 28682073,
{
    lemma_heap_entries();
    lemma_codes_of_word_16(heap_table(14));
    lemma_signature_weight([(0, 1), (0, 3), (0, 2)], heap_table(14));
    lemma_table_weight_of_codes([(0, 1), (0, 3), (0, 2)], heap_table(14), (216, 156, 120, 201, 108, 141, 75, 78));
}

proof fn lemma_class_110_weight()
    ensures
        table_weight(chart_signature([(0, 1), (0, 3), (0, 2)], heap_table(16))) == 13528350,
{
    lemma_heap_entries();
    lemma_codes_of_word_16(heap_table(16));
    lemma_signature_weight([(0, 1), (0, 3), (0, 2)], heap_table(16));
    lemma_table_weight_of_codes([(0, 1), (0, 3), (0, 2)], heap_table(16), (147, 27, 99, 177, 75, 57, 114, 120));
}

proof fn lemma_class_111_weight()
    ensures
        table_weight(chart_signature([(0, 1), (0, 3), (0, 2)], heap_table(18))) == 36091143,
{
    lemma_heap_entries();
    lemma_codes_of_word_16(heap_table(18));
    lemma_signature_weight([(0, 1), (0, 3), (0, 2)], heap_table(18));
    lemma_table_weight_of_codes([(0, 1), (0, 3), (0, 2)], heap_table(18), (45, 225, 141, 30, 177, 210, 156, 147));
}

proof fn lemma_class_112_weight()
    ensures
        table_weight(chart_signature([(0, 1), (0, 3), (0, 2)], heap_table(20))) == 36241020,
{
    lemma_heap_entries();
    lemma_codes_of_word_16(heap_table(20));
    lemma_signature_weight([(0, 1), (0, 3), (0, 2)], heap_table(20));
    lemma_table_weight_of_codes([(0, 1), (0, 3), (0, 2)], heap_table(20), (228, 108, 180, 198, 156, 78, 135, 141));
}

proof fn lemma_class_113_weight()
    ensures
        table_weight(chart_signature([(0, 1), (0, 3), (0, 2)], heap_table(22))) == 19682757,
{
    lemma_heap_entries();
    lemma_codes_of_word_16(heap_table(22));
    lemma_signature_weight([(0, 1), (0, 3), (0, 2)], heap_table(22));
    lemma_table_weight_of_codes([(0, 1), (0, 3), (0, 2)], heap_table(22), (99, 39, 147, 114, 135, 54, 177, 180));
}

proof fn lemma_class_114_weight()
    ensures
        table_weight(chart_signature([(0, 1), (1, 3), (1, 2)], heap_table(0))) == 44705304,
{
    lemma_heap_entries();
    lemma_codes_of_word_19(heap_table(0));
    lemma_signature_weight([(0, 1), (1, 3), (1, 2)], heap_table(0));
    lemma_table_weight_of_codes([(0, 1), (1, 3), (1, 2)], heap_table(0), (57, 120, 201, 45, 216, 108, 225, 228));
}

proof fn lemma_class_115_weight()
    ensures
        table_weight(chart_signature([(0, 1), (1, 3), (1, 2)], heap_table(2))) == 48766320,
{
    lemma_heap_entries();
    lemma_codes_of_word_19(heap_table(2));
    lemma_signature_weight([(0, 1), (1, 3), (1, 2)], heap_table(2));
    lemma_table_weight_of_codes([(0, 1), (1, 3), (1, 2)], heap_table(2), (180, 54, 228, 156, 198, 30, 216, 210));
}

proof fn lemma_class_116_weight()
    ensures
        table_weight(chart_signature([(0, 1), (1, 3), (1, 2)], heap_table(4))) == 46839168,
{
    lemma_heap_entries();
    lemma_codes_of_word_19(heap_table(4));
    lemma_signature_weight([(0, 1), (1, 3), (1, 2)], heap_table(4));
    lemma_table_weight_of_codes([(0, 1), (1, 3), (1, 2)], heap_table(4), (114, 177, 210, 78, 225, 141, 198, 201));
}

proof fn lemma_class_117_weight()
    ensures
        table_weight(chart_signature([(0, 1), (1, 3), (1, 2)], heap_table(6))) == 21258720,
{
    lemma_heap_entries();
    lemma_codes_of_word_19(heap_table(6));
    lemma_signature_weight([(0, 1), (1, 3), (1, 2)], heap_table(6));
    lemma_table_weight_of_codes([(0, 1), (1, 3), (1, 2)], heap_table(6), (201, 75, 57, 225, 27, 99, 45, 39));
}

proof fn lemma_class_118_weight()
    ensures
        table_weight(chart_signature([(0, 1), (1, 3), (1, 2)], heap_table(8))) == 22923756,
{
    lemma_heap_entries();
    lemma_codes_of_word_19(heap_table(8));
    lemma_signature_weight([(0, 1), (1, 3), (1, 2)], heap_table(8));
    lemma_table_weight_of_codes([(0, 1), (1, 3), (1, 2)], heap_table(8), (135, 198, 39, 147, 54, 210, 27, 30));
}

proof fn lemma_class_119_weight()
    ensures
        table_weight(chart_signature([(0, 1), (1, 3), (1, 2)], heap_table(10))) == 10765332,
{
    lemma_heap_entries();
    lemma_codes_of_word_19(heap_table(10));
    lemma_signature_weight([(0, 1), (1, 3), (1, 2)], heap_table(10));
    lemma_table_weight_of_codes([(0, 1), (1, 3), (1, 2)], heap_table(10), (78, 141, 30, 114, 45, 177, 54, 57));
}

proof fn lemma_class_120_weight()
    ensures
        table_weight(chart_signature([(0, 1), (1, 3), (1, 2)], heap_table(12))) == 26388936,
{
    lemma_heap_entries();
    lemma_codes_of_word_19(heap_table(12));
    lemma_signature_weight([(0, 1), (1, 3), (1, 2)], heap_table(12));
    lemma_table_weight_of_codes([(0, 1), (1, 3), (1, 2)], heap_table(12), (216, 27, 120, 228, 75, 39, 108, 99));
}

proof fn lemma_class_121_weight()
    ensures
        table_weight(chart_signature([(0, 1), (1, 3), (1, 2)], heap_table(14))) == 26008560,
{
    lemma_heap_entries();
    lemma_codes_of_word_19(heap_table(14));
    lemma_signature_weight([(0, 1), (1, 3), (1, 2)], heap_table(14));
    lemma_table_weight_of_codes([(0, 1), (1, 3), (1, 2)], heap_table(14), (147, 210, 99, 135, 114, 198, 75, 78));
}

proof fn lemma_class_122_weight()
    ensures
        table_weight(chart_signature([(0, 1), (1, 3), (1, 2)], heap_table(16))) == 14756688,
{
    lemma_heap_entries();
    lemma_codes_of_word_19(heap_table(16));
    lemma_signature_weight([(0, 1), (1, 3), (1, 2)], heap_table(16));
    lemma_table_weight_of_codes([(0, 1), (1, 3), (1, 2)], heap_table(16), (30, 156, 78, 54, 108, 180, 114, 120));
}

proof fn lemma_class_123_weight()
    ensures
        table_weight(chart_signature([(0, 1), (1, 3), (1, 2)], heap_table(18))) == 37274364,
{
    lemma_heap_entries();
    lemma_codes_of_word_19(heap_table(18));
    lemma_signature_weight([(0, 1), (1, 3), (1, 2)], heap_table(18));
    lemma_table_weight_of_codes([(0, 1), (1, 3), (1, 2)], heap_table(18), (228, 39, 180, 216, 135, 27, 156, 147));
}

proof fn lemma_class_124_weight()
    ensures
        table_weight(chart_signature([(0, 1), (1, 3), (1, 2)], heap_table(20))) == 34888752,
{
    lemma_heap_entries();
    lemma_codes_of_word_19(heap_table(20));
    lemma_signature_weight([(0, 1), (1, 3), (1, 2)], heap_table(20));
    lemma_table_weight_of_codes([(0, 1), (1, 3), (1, 2)], heap_table(20), (99, 225, 147, 75, 177, 201, 135, 141));
}

proof fn lemma_class_125_weight()
    ensures
        table_weight(chart_signature([(0, 1), (1, 3), (1, 2)], heap_table(22))) == 21240900,
{
    lemma_heap_entries();
    lemma_codes_of_word_19(heap_table(22));
    lemma_signature_weight([(0, 1), (1, 3), (1, 2)], heap_table(22));
    lemma_table_weight_of_codes([(0, 1), (1, 3), (1, 2)], heap_table(22), (45, 108, 141, 57, 156, 120, 177, 180));
}

proof fn lemma_class_126_weight()
    ensures
        table_weight(chart_signature([(0, 1), (2, 3), (0, 2)], heap_table(0))) == 57280500,
{
    lemma_heap_entries();
    lemma_codes_of_word_20(heap_table(0));
    lemma_signature_weight([(0, 1), (2, 3), (0, 2)], heap_table(0));
    lemma_table_weight_of_codes([(0, 1), (2, 3), (0, 2)], heap_table(0), (147, 135, 210, 177, 198, 180, 225, 228));
}

proof fn lemma_class_127_weight()
    ensures
        table_weight(chart_signature([(0, 1), (2, 3), (0, 2)], heap_table(2))) == 43451640,
{
    lemma_heap_entries();
    lemma_codes_of_word_20(heap_table(2));
    lemma_signature_weight([(0, 1), (2, 3), (0, 2)], heap_table(2));
    lemma_table_weight_of_codes([(0, 1), (2, 3), (0, 2)], heap_table(2), (75, 99, 201, 120, 225, 114, 216, 210));
}

proof fn lemma_class_128_weight()
    ensures
        table_weight(chart_signature([(0, 1), (2, 3), (0, 2)], heap_table(4))) == 38234700,
{
    lemma_heap_entries();
    lemma_codes_of_word_20(heap_table(4));
    lemma_signature_weight([(0, 1), (2, 3), (0, 2)], heap_table(4));
    lemma_table_weight_of_codes([(0, 1), (2, 3), (0, 2)], heap_table(4), (39, 27, 228, 54, 216, 57, 198, 201));
}

proof fn lemma_class_129_weight()
    ensures
        table_weight(chart_signature([(0, 1), (2, 3), (0, 2)], heap_table(6))) == 15226920,
{
    lemma_heap_entries();
    lemma_codes_of_word_20(heap_table(6));
    lemma_signature_weight([(0, 1), (2, 3), (0, 2)], heap_table(6));
    lemma_table_weight_of_codes([(0, 1), (2, 3), (0, 2)], heap_table(6), (156, 180, 30, 141, 54, 135, 45, 39));
}

proof fn lemma_class_130_weight()
    ensures
        table_weight(chart_signature([(0, 1), (2, 3), (0, 2)], heap_table(8))) == 4207140,
{
    lemma_heap_entries();
    lemma_codes_of_word_20(heap_table(8));
    lemma_signature_weight([(0, 1), (2, 3), (0, 2)], heap_table(8));
    lemma_table_weight_of_codes([(0, 1), (2, 3), (0, 2)], heap_table(8), (120, 108, 57, 75, 45, 78, 27, 30));
}

proof fn lemma_class_131_weight()
    ensures
        table_weight(chart_signature([(0, 1), (2, 3), (0, 2)], heap_table(12))) == 19507500,
{
    lemma_heap_entries();
    lemma_codes_of_word_20(heap_table(12));
    lemma_signature_weight([(0, 1), (2, 3), (0, 2)], heap_table(12));
    lemma_table_weight_of_codes([(0, 1), (2, 3), (0, 2)], heap_table(12), (141, 177, 78, 156, 114, 147, 108, 99));
}

proof fn lemma_class_132_weight()
    ensures
        table_weight(chart_signature([(0, 1), (2, 3), (0, 3)], heap_table(0))) == 37288836,
{
    lemma_heap_entries();
    lemma_codes_of_word_21(heap_table(0));
    lemma_signature_weight([(0, 1), (2, 3), (0, 3)], heap_table(0));
    lemma_table_weight_of_codes([(0, 1), (2, 3), (0, 3)], heap_table(0), (114, 54, 99, 177, 39, 180, 225, 228));
}

proof fn lemma_class_133_weight()
    ensures
        table_weight(chart_signature([(0, 1), (2, 3), (0, 3)], heap_table(2))) == 31474872,
{
    lemma_heap_entries();
    lemma_codes_of_word_21(heap_table(2));
    lemma_signature_weight([(0, 1), (2, 3), (0, 3)], heap_table(2));
    lemma_table_weight_of_codes([(0, 1), (2, 3), (0, 3)], heap_table(2), (57, 177, 27, 120, 147, 114, 216, 210));
}

proof fn lemma_class_134_weight()
    ensures
        table_weight(chart_signature([(0, 1), (2, 3), (0, 3)], heap_table(4))) == 26667900,
{
    lemma_heap_entries();
    lemma_codes_of_word_21(heap_table(4));
    lemma_signature_weight([(0, 1), (2, 3), (0, 3)], heap_table(4));
    lemma_table_weight_of_codes([(0, 1), (2, 3), (0, 3)], heap_table(4), (180, 120, 135, 54, 75, 57, 198, 201));
}

proof fn lemma_class_135_weight()
    ensures
        table_weight(chart_signature([(0, 1), (2, 3), (0, 3)], heap_table(6))) == 26763048,
{
    lemma_heap_entries();
    lemma_codes_of_word_21(heap_table(6));
    lemma_signature_weight([(0, 1), (2, 3), (0, 3)], heap_table(6));
    lemma_table_weight_of_codes([(0, 1), (2, 3), (0, 3)], heap_table(6), (78, 198, 108, 141, 228, 135, 45, 39));
}

proof fn lemma_class_136_weight()
    ensures
        table_weight(chart_signature([(0, 1), (2, 3), (0, 3)], heap_table(8))) == 25741044,
{
    lemma_heap_entries();
    lemma_codes_of_word_21(heap_table(8));
    lemma_signature_weight([(0, 1), (2, 3), (0, 3)], heap_table(8));
    lemma_table_weight_of_codes([(0, 1), (2, 3), (0, 3)], heap_table(8), (201, 141, 216, 75, 156, 78, 27, 30));
}

proof fn lemma_class_137_weight()
    ensures
        table_weight(chart_signature([(0, 1), (2, 3), (0, 3)], heap_table(12))) == 29972700,
{
    lemma_heap_entries();
    lemma_codes_of_word_21(heap_table(12));
    lemma_signature_weight([(0, 1), (2, 3), (0, 3)], heap_table(12));
    lemma_table_weight_of_codes([(0, 1), (2, 3), (0, 3)], heap_table(12), (30, 210, 45, 156, 225, 147, 108, 99));
}

proof fn lemma_class_138_weight()
    ensures
        table_weight(chart_signature([(0, 2), (0, 1), (0, 3)], heap_table(0))) == 43037838,
{
    lemma_heap_entries();
    lemma_codes_of_word_24(heap_table(0));
    lemma_signature_weight([(0, 2), (0, 1), (0, 3)], heap_table(0));
    lemma_table_weight_of_codes([(0, 2), (0, 1), (0, 3)], heap_table(0), (75, 99, 135, 201, 39, 225, 198, 228));
}

proof fn lemma_class_139_weight()
    ensures
        table_weight(chart_signature([(0, 2), (0, 1), (0, 3)], heap_table(1))) == 46807497,
{
    lemma_heap_entries();
    lemma_codes_of_word_24(heap_table(1));
    lemma_signature_weight([(0, 2), (0, 1), (0, 3)], heap_table(1));
    lemma_table_weight_of_codes([(0, 2), (0, 1), (0, 3)], heap_table(1), (27, 39, 147, 216, 99, 228, 210, 225));
}

proof fn lemma_class_140_weight()
    ensures
        table_weight(chart_signature([(0, 2), (0, 1), (0, 3)], heap_table(3))) == 41300145,
{
    lemma_heap_entries();
    lemma_codes_of_word_24(heap_table(3));
    lemma_signature_weight([(0, 2), (0, 1), (0, 3)], heap_table(3));
    lemma_table_weight_of_codes([(0, 2), (0, 1), (0, 3)], heap_table(3), (135, 147, 75, 198, 27, 210, 201, 216));
}

proof fn lemma_class_141_weight()
    ensures
        table_weight(chart_signature([(0, 2), (0, 1), (0, 3)], heap_table(6))) == 21165165,
{
    lemma_heap_entries();
    lemma_codes_of_word_24(heap_table(6));
    lemma_signature_weight([(0, 2), (0, 1), (0, 3)], heap_table(6));
    lemma_table_weight_of_codes([(0, 2), (0, 1), (0, 3)], heap_table(6), (120, 108, 180, 57, 228, 45, 54, 39));
}

proof fn lemma_class_142_weight()
    ensures
        table_weight(chart_signature([(0, 2), (0, 1), (0, 3)], heap_table(7))) == 27183303,
{
    lemma_heap_entries();
    lemma_codes_of_word_24(heap_table(7));
    lemma_signature_weight([(0, 2), (0, 1), (0, 3)], heap_table(7));
    lemma_table_weight_of_codes([(0, 2), (0, 1), (0, 3)], heap_table(7), (216, 228, 156, 27, 108, 39, 30, 45));
}

proof fn lemma_class_143_weight()
    ensures
        table_weight(chart_signature([(0, 2), (0, 1), (0, 3)], heap_table(9))) == 21823452,
{
    lemma_heap_entries();
    lemma_codes_of_word_24(heap_table(9));
    lemma_signature_weight([(0, 2), (0, 1), (0, 3)], heap_table(9));
    lemma_table_weight_of_codes([(0, 2), (0, 1), (0, 3)], heap_table(9), (180, 156, 120, 54, 216, 30, 57, 27));
}

proof fn lemma_class_144_weight()
    ensures
        table_weight(chart_signature([(0, 2), (0, 1), (0, 3)], heap_table(12))) == 22651731,
{
    lemma_heap_entries();
    lemma_codes_of_word_24(heap_table(12));
    lemma_signature_weight([(0, 2), (0, 1), (0, 3)], heap_table(12));
    lemma_table_weight_of_codes([(0, 2), (0, 1), (0, 3)], heap_table(12), (57, 45, 177, 120, 225, 108, 114, 99));
}

proof fn lemma_class_145_weight()
    ensures
        table_weight(chart_signature([(0, 2), (0, 1), (0, 3)], heap_table(13))) == 25532010,
{
    lemma_heap_entries();
    lemma_codes_of_word_24(heap_table(13));
    lemma_signature_weight([(0, 2), (0, 1), (0, 3)], heap_table(13));
    lemma_table_weight_of_codes([(0, 2), (0, 1), (0, 3)], heap_table(13), (201, 225, 141, 75, 45, 99, 78, 108));
}

proof fn lemma_class_146_weight()
    ensures
        table_weight(chart_signature([(0, 2), (0, 1), (0, 3)], heap_table(15))) == 20760219,
{
    lemma_heap_entries();
    lemma_codes_of_word_24(heap_table(15));
    lemma_signature_weight([(0, 2), (0, 1), (0, 3)], heap_table(15));
    lemma_table_weight_of_codes([(0, 2), (0, 1), (0, 3)], heap_table(15), (177, 141, 57, 114, 201, 78, 120, 75));
}

proof fn lemma_class_147_weight()
    ensures
        table_weight(chart_signature([(0, 2), (0, 1), (0, 3)], heap_table(18))) == 29277180,
{
    lemma_heap_entries();
    lemma_codes_of_word_24(heap_table(18));
    lemma_signature_weight([(0, 2), (0, 1), (0, 3)], heap_table(18));
    lemma_table_weight_of_codes([(0, 2), (0, 1), (0, 3)], heap_table(18), (54, 30, 114, 180, 210, 156, 177, 147));
}

proof fn lemma_class_148_weight()
    ensures
        table_weight(chart_signature([(0, 2), (0, 1), (0, 3)], heap_table(19))) == 29761479,
{
    lemma_heap_entries();
    lemma_codes_of_word_24(heap_table(19));
    lemma_signature_weight([(0, 2), (0, 1), (0, 3)], heap_table(19));
    lemma_table_weight_of_codes([(0, 2), (0, 1), (0, 3)], heap_table(19), (198, 210, 78, 135, 30, 147, 141, 156));
}

proof fn lemma_class_149_weight()
    ensures
        table_weight(chart_signature([(0, 2), (0, 1), (0, 3)], heap_table(21))) == 26516781,
{
    lemma_heap_entries();
    lemma_codes_of_word_24(heap_table(21));
    lemma_signature_weight([(0, 2), (0, 1), (0, 3)], heap_table(21));
    lemma_table_weight_of_codes([(0, 2), (0, 1), (0, 3)], heap_table(21), (114, 78, 54, 177, 198, 141, 180, 135));
}

proof fn lemma_class_150_weight()
    ensures
        table_weight(chart_signature([(0, 2), (0, 1), (2, 3)], heap_table(0))) == 50845860,
{
    lemma_heap_entries();
    lemma_codes_of_word_26(heap_table(0));
    lemma_signature_weight([(0, 2), (0, 1), (2, 3)], heap_table(0));
    lemma_table_weight_of_codes([(0, 2), (0, 1), (2, 3)], heap_table(0), (57, 177, 54, 201, 180, 225, 198, 228));
}

proof fn lemma_class_151_weight()
    ensures
        table_weight(chart_signature([(0, 2), (0, 1), (2, 3)], heap_table(1))) == 57168450,
{
    lemma_heap_entries();
    lemma_codes_of_word_26(heap_table(1));
    lemma_signature_weight([(0, 2), (0, 1), (2, 3)], heap_table(1));
    lemma_table_weight_of_codes([(0, 2), (0, 1), (2, 3)], heap_table(1), (120, 180, 114, 216, 177, 228, 210, 225));
}

proof fn lemma_class_152_weight()
    ensures
        table_weight(chart_signature([(0, 2), (0, 1), (2, 3)], heap_table(3))) == 38773890,
{
    lemma_heap_entries();
    lemma_codes_of_word_26(heap_table(3));
    lemma_signature_weight([(0, 2), (0, 1), (2, 3)], heap_table(3));
    lemma_table_weight_of_codes([(0, 2), (0, 1), (2, 3)], heap_table(3), (54, 114, 57, 198, 120, 210, 201, 216));
}

proof fn lemma_class_153_weight()
    ensures
        table_weight(chart_signature([(0, 2), (0, 1), (2, 3)], heap_table(6))) == 21639690,
{
    lemma_heap_entries();
    lemma_codes_of_word_26(heap_table(6));
    lemma_signature_weight([(0, 2), (0, 1), (2, 3)], heap_table(6));
    lemma_table_weight_of_codes([(0, 2), (0, 1), (2, 3)], heap_table(6), (201, 141, 198, 57, 135, 45, 54, 39));
}

proof fn lemma_class_154_weight()
    ensures
        table_weight(chart_signature([(0, 2), (0, 1), (2, 3)], heap_table(7))) == 6357150,
{
    lemma_heap_entries();
    lemma_codes_of_word_26(heap_table(7));
    lemma_signature_weight([(0, 2), (0, 1), (2, 3)], heap_table(7));
    lemma_table_weight_of_codes([(0, 2), (0, 1), (2, 3)], heap_table(7), (75, 135, 78, 27, 141, 39, 30, 45));
}

proof fn lemma_class_155_weight()
    ensures
        table_weight(chart_signature([(0, 2), (0, 1), (2, 3)], heap_table(9))) == 17168760,
{
    lemma_heap_entries();
    lemma_codes_of_word_26(heap_table(9));
    lemma_signature_weight([(0, 2), (0, 1), (2, 3)], heap_table(9));
    lemma_table_weight_of_codes([(0, 2), (0, 1), (2, 3)], heap_table(9), (198, 78, 201, 54, 75, 30, 57, 27));
}

proof fn lemma_class_156_weight()
    ensures
        table_weight(chart_signature([(0, 2), (0, 1), (2, 3)], heap_table(12))) == 31751190,
{
    lemma_heap_entries();
    lemma_codes_of_word_26(heap_table(12));
    lemma_signature_weight([(0, 2), (0, 1), (2, 3)], heap_table(12));
    lemma_table_weight_of_codes([(0, 2), (0, 1), (2, 3)], heap_table(12), (216, 156, 210, 120, 147, 108, 114, 99));
}

proof fn lemma_class_157_weight()
    ensures
        table_weight(chart_signature([(0, 2), (0, 1), (2, 3)], heap_table(13))) == 10146060,
{
    lemma_heap_entries();
    lemma_codes_of_word_26(heap_table(13));
    lemma_signature_weight([(0, 2), (0, 1), (2, 3)], heap_table(13));
    lemma_table_weight_of_codes([(0, 2), (0, 1), (2, 3)], heap_table(13), (27, 147, 30, 75, 156, 99, 78, 108));
}

proof fn lemma_class_158_weight()
    ensures
        table_weight(chart_signature([(0, 2), (0, 1), (2, 3)], heap_table(15))) == 23491350,
{
    lemma_heap_entries();
    lemma_codes_of_word_26(heap_table(15));
    lemma_signature_weight([(0, 2), (0, 1), (2, 3)], heap_table(15));
    lemma_table_weight_of_codes([(0, 2), (0, 1), (2, 3)], heap_table(15), (210, 30, 216, 114, 27, 78, 120, 75));
}

proof fn lemma_class_159_weight()
    ensures
        table_weight(chart_signature([(0, 2), (0, 1), (2, 3)], heap_table(18))) == 43823160,
{
    lemma_heap_entries();
    lemma_codes_of_word_26(heap_table(18));
    lemma_signature_weight([(0, 2), (0, 1), (2, 3)], heap_table(18));
    lemma_table_weight_of_codes([(0, 2), (0, 1), (2, 3)], heap_table(18), (228, 108, 225, 180, 99, 156, 177, 147));
}

proof fn lemma_class_160_weight()
    ensures
        table_weight(chart_signature([(0, 2), (0, 1), (2, 3)], heap_table(19))) == 14616990,
{
    lemma_heap_entries();
    lemma_codes_of_word_26(heap_table(19));
    lemma_signature_weight([(0, 2), (0, 1), (2, 3)], heap_table(19));
    lemma_table_weight_of_codes([(0, 2), (0, 1), (2, 3)], heap_table(19), (39, 99, 45, 135, 108, 147, 141, 156));
}

proof fn lemma_class_161_weight()
    ensures
        table_weight(chart_signature([(0, 2), (0, 1), (2, 3)], heap_table(21))) == 40034250,
{
    lemma_heap_entries();
    lemma_codes_of_word_26(heap_table(21));
    lemma_signature_weight([(0, 2), (0, 1), (2, 3)], heap_table(21));
    lemma_table_weight_of_codes([(0, 2), (0, 1), (2, 3)], heap_table(21), (225, 45, 228, 177, 39, 141, 180, 135));
}

proof fn lemma_class_162_weight()
    ensures
        table_weight(chart_signature([(0, 2), (0, 3), (0, 1)], heap_table(0))) == 44540010,
{
    lemma_heap_entries();
    lemma_codes_of_word_27(heap_table(0));
    lemma_signature_weight([(0, 2), (0, 3), (0, 1)], heap_table(0));
    lemma_table_weight_of_codes([(0, 2), (0, 3), (0, 1)], heap_table(0), (141, 45, 201, 135, 225, 39, 198, 228));
}

proof fn lemma_class_163_weight()
    ensures
        table_weight(chart_signature([(0, 2), (0, 3), (0, 1)], heap_table(1))) == 51784623,
{
    lemma_heap_entries();
    lemma_codes_of_word_27(heap_table(1));
    lemma_signature_weight([(0, 2), (0, 3), (0, 1)], heap_table(1));
    lemma_table_weight_of_codes([(0, 2), (0, 3), (0, 1)], heap_table(1), (156, 108, 216, 147, 228, 99, 210, 225));
}

proof fn lemma_class_164_weight()
    ensures
        table_weight(chart_signature([(0, 2), (0, 3), (0, 1)], heap_table(3))) == 36164799,
{
    lemma_heap_entries();
    lemma_codes_of_word_27(heap_table(3));
    lemma_signature_weight([(0, 2), (0, 3), (0, 1)], heap_table(3));
    lemma_table_weight_of_codes([(0, 2), (0, 3), (0, 1)], heap_table(3), (78, 30, 198, 75, 210, 27, 201, 216));
}

proof fn lemma_class_165_weight()
    ensures
        table_weight(chart_signature([(0, 2), (0, 3), (0, 1)], heap_table(6))) == 35113311,
{
    lemma_heap_entries();
    lemma_codes_of_word_27(heap_table(6));
    lemma_signature_weight([(0, 2), (0, 3), (0, 1)], heap_table(6));
    lemma_table_weight_of_codes([(0, 2), (0, 3), (0, 1)], heap_table(6), (177, 225, 57, 180, 45, 228, 54, 39));
}

proof fn lemma_class_166_weight()
    ensures
        table_weight(chart_signature([(0, 2), (0, 3), (0, 1)], heap_table(7))) == 9400077,
{
    lemma_heap_entries();
    lemma_codes_of_word_27(heap_table(7));
    lemma_signature_weight([(0, 2), (0, 3), (0, 1)], heap_table(7));
    lemma_table_weight_of_codes([(0, 2), (0, 3), (0, 1)], heap_table(7), (147, 99, 27, 156, 39, 108, 30, 45));
}

proof fn lemma_class_167_weight()
    ensures
        table_weight(chart_signature([(0, 2), (0, 3), (0, 1)], heap_table(9))) == 22937580,
{
    lemma_heap_entries();
    lemma_codes_of_word_27(heap_table(9));
    lemma_signature_weight([(0, 2), (0, 3), (0, 1)], heap_table(9));
    lemma_table_weight_of_codes([(0, 2), (0, 3), (0, 1)], heap_table(9), (114, 210, 54, 120, 30, 216, 57, 27));
}

proof fn lemma_class_168_weight()
    ensures
        table_weight(chart_signature([(0, 2), (0, 3), (0, 1)], heap_table(12))) == 40059765,
{
    lemma_heap_entries();
    lemma_codes_of_word_27(heap_table(12));
    lemma_signature_weight([(0, 2), (0, 3), (0, 1)], heap_table(12));
    lemma_table_weight_of_codes([(0, 2), (0, 3), (0, 1)], heap_table(12), (180, 228, 120, 177, 108, 225, 114, 99));
}

proof fn lemma_class_169_weight()
    ensures
        table_weight(chart_signature([(0, 2), (0, 3), (0, 1)], heap_table(13))) == 8540478,
{
    lemma_heap_entries();
    lemma_codes_of_word_27(heap_table(13));
    lemma_signature_weight([(0, 2), (0, 3), (0, 1)], heap_table(13));
    lemma_table_weight_of_codes([(0, 2), (0, 3), (0, 1)], heap_table(13), (135, 39, 75, 141, 99, 45, 78, 108));
}

proof fn lemma_class_170_weight()
    ensures
        table_weight(chart_signature([(0, 2), (0, 3), (0, 1)], heap_table(15))) == 20331621,
{
    lemma_heap_entries();
    lemma_codes_of_word_27(heap_table(15));
    lemma_signature_weight([(0, 2), (0, 3), (0, 1)], heap_table(15));
    lemma_table_weight_of_codes([(0, 2), (0, 3), (0, 1)], heap_table(15), (54, 198, 114, 57, 78, 201, 120, 75));
}

proof fn lemma_class_171_weight()
    ensures
        table_weight(chart_signature([(0, 2), (0, 3), (0, 1)], heap_table(18))) == 40898412,
{
    lemma_heap_entries();
    lemma_codes_of_word_27(heap_table(18));
    lemma_signature_weight([(0, 2), (0, 3), (0, 1)], heap_table(18));
    lemma_table_weight_of_codes([(0, 2), (0, 3), (0, 1)], heap_table(18), (120, 216, 180, 114, 156, 210, 177, 147));
}

proof fn lemma_class_172_weight()
    ensures
        table_weight(chart_signature([(0, 2), (0, 3), (0, 1)], heap_table(19))) == 13179645,
{
    lemma_heap_entries();
    lemma_codes_of_word_27(heap_table(19));
    lemma_signature_weight([(0, 2), (0, 3), (0, 1)], heap_table(19));
    lemma_table_weight_of_codes([(0, 2), (0, 3), (0, 1)], heap_table(19), (75, 27, 135, 78, 147, 30, 141, 156));
}

proof fn lemma_class_173_weight()
    ensures
        table_weight(chart_signature([(0, 2), (0, 3), (0, 1)], heap_table(21))) == 32866479,
{
    lemma_heap_entries();
    lemma_codes_of_word_27(heap_table(21));
    lemma_signature_weight([(0, 2), (0, 3), (0, 1)], heap_table(21));
    lemma_table_weight_of_codes([(0, 2), (0, 3), (0, 1)], heap_table(21), (57, 201, 177, 54, 141, 198, 180, 135));
}

proof fn lemma_class_174_weight()
    ensures
        table_weight(chart_signature([(0, 2), (1, 3), (0, 1)], heap_table(0))) == 42252408,
{
    lemma_heap_entries();
    lemma_codes_of_word_30(heap_table(0));
    lemma_signature_weight([(0, 2), (1, 3), (0, 1)], heap_table(0));
    lemma_table_weight_of_codes([(0, 2), (1, 3), (0, 1)], heap_table(0), (75, 99, 201, 78, 225, 108, 198, 228));
}

proof fn lemma_class_175_weight()
    ensures
        table_weight(chart_signature([(0, 2), (1, 3), (0, 1)], heap_table(1))) == 42778800,
{
    lemma_heap_entries();
    lemma_codes_of_word_30(heap_table(1));
    lemma_signature_weight([(0, 2), (1, 3), (0, 1)], heap_table(1));
    lemma_table_weight_of_codes([(0, 2), (1, 3), (0, 1)], heap_table(1), (27, 39, 216, 30, 228, 45, 210, 225));
}

proof fn lemma_class_176_weight()
    ensures
        table_weight(chart_signature([(0, 2), (1, 3), (0, 1)], heap_table(3))) == 47458224,
{
    lemma_heap_entries();
    lemma_codes_of_word_30(heap_table(3));
    lemma_signature_weight([(0, 2), (1, 3), (0, 1)], heap_table(3));
    lemma_table_weight_of_codes([(0, 2), (1, 3), (0, 1)], heap_table(3), (135, 147, 198, 141, 210, 156, 201, 216));
}

proof fn lemma_class_177_weight()
    ensures
        table_weight(chart_signature([(0, 2), (1, 3), (0, 1)], heap_table(6))) == 5932656,
{
    lemma_heap_entries();
    lemma_codes_of_word_30(heap_table(6));
    lemma_signature_weight([(0, 2), (1, 3), (0, 1)], heap_table(6));
    lemma_table_weight_of_codes([(0, 2), (1, 3), (0, 1)], heap_table(6), (120, 108, 57, 114, 45, 99, 54, 39));
}

proof fn lemma_class_178_weight()
    ensures
        table_weight(chart_signature([(0, 2), (1, 3), (0, 1)], heap_table(9))) == 18739512,
{
    lemma_heap_entries();
    lemma_codes_of_word_30(heap_table(9));
    lemma_signature_weight([(0, 2), (1, 3), (0, 1)], heap_table(9));
    lemma_table_weight_of_codes([(0, 2), (1, 3), (0, 1)], heap_table(9), (180, 156, 54, 177, 30, 147, 57, 27));
}

proof fn lemma_class_179_weight()
    ensures
        table_weight(chart_signature([(0, 2), (1, 3), (0, 1)], heap_table(15))) == 20746800,
{
    lemma_heap_entries();
    lemma_codes_of_word_30(heap_table(15));
    lemma_signature_weight([(0, 2), (1, 3), (0, 1)], heap_table(15));
    lemma_table_weight_of_codes([(0, 2), (1, 3), (0, 1)], heap_table(15), (177, 141, 114, 180, 78, 135, 120, 75));
}

proof fn lemma_class_180_weight()
    ensures
        table_weight(chart_signature([(0, 3), (0, 1), (0, 2)], heap_table(0))) == 40601277,
{
    lemma_heap_entries();
    lemma_codes_of_word_35(heap_table(0));
    lemma_signature_weight([(0, 3), (0, 1), (0, 2)], heap_table(0));
    lemma_table_weight_of_codes([(0, 3), (0, 1), (0, 2)], heap_table(0), (30, 210, 54, 45, 198, 225, 39, 228));
}

proof fn lemma_class_181_weight()
    ensures
        table_weight(chart_signature([(0, 3), (0, 1), (0, 2)], heap_table(1))) == 44452476,
{
    lemma_heap_entries();
    lemma_codes_of_word_35(heap_table(1));
    lemma_signature_weight([(0, 3), (0, 1), (0, 2)], heap_table(1));
    lemma_table_weight_of_codes([(0, 3), (0, 1), (0, 2)], heap_table(1), (78, 198, 114, 108, 210, 228, 99, 225));
}

proof fn lemma_class_182_weight()
    ensures
        table_weight(chart_signature([(0, 3), (0, 1), (0, 2)], heap_table(2))) == 54171315,
{
    lemma_heap_entries();
    lemma_codes_of_word_35(heap_table(2));
    lemma_signature_weight([(0, 3), (0, 1), (0, 2)], heap_table(2));
    lemma_table_weight_of_codes([(0, 3), (0, 1), (0, 2)], heap_table(2), (141, 201, 177, 156, 225, 216, 147, 210));
}

proof fn lemma_class_183_weight()
    ensures
        table_weight(chart_signature([(0, 3), (0, 1), (0, 2)], heap_table(3))) == 39172923,
{
    lemma_heap_entries();
    lemma_codes_of_word_35(heap_table(3));
    lemma_signature_weight([(0, 3), (0, 1), (0, 2)], heap_table(3));
    lemma_table_weight_of_codes([(0, 3), (0, 1), (0, 2)], heap_table(3), (45, 225, 57, 30, 201, 210, 27, 216));
}

proof fn lemma_class_184_weight()
    ensures
        table_weight(chart_signature([(0, 3), (0, 1), (0, 2)], heap_table(4))) == 41697180,
{
    lemma_heap_entries();
    lemma_codes_of_word_35(heap_table(4));
    lemma_signature_weight([(0, 3), (0, 1), (0, 2)], heap_table(4));
    lemma_table_weight_of_codes([(0, 3), (0, 1), (0, 2)], heap_table(4), (108, 228, 120, 78, 216, 198, 75, 201));
}

proof fn lemma_class_185_weight()
    ensures
        table_weight(chart_signature([(0, 3), (0, 1), (0, 2)], heap_table(5))) == 52705053,
{
    lemma_heap_entries();
    lemma_codes_of_word_35(heap_table(5));
    lemma_signature_weight([(0, 3), (0, 1), (0, 2)], heap_table(5));
    lemma_table_weight_of_codes([(0, 3), (0, 1), (0, 2)], heap_table(5), (156, 216, 180, 141, 228, 201, 135, 198));
}

proof fn lemma_class_186_weight()
    ensures
        table_weight(chart_signature([(0, 3), (0, 1), (0, 2)], heap_table(7))) == 4521015,
{
    lemma_heap_entries();
    lemma_codes_of_word_35(heap_table(7));
    lemma_signature_weight([(0, 3), (0, 1), (0, 2)], heap_table(7));
    lemma_table_weight_of_codes([(0, 3), (0, 1), (0, 2)], heap_table(7), (114, 54, 78, 99, 30, 39, 108, 45));
}

proof fn lemma_class_187_weight()
    ensures
        table_weight(chart_signature([(0, 3), (0, 1), (0, 2)], heap_table(8))) == 15644394,
{
    lemma_heap_entries();
    lemma_codes_of_word_35(heap_table(8));
    lemma_signature_weight([(0, 3), (0, 1), (0, 2)], heap_table(8));
    lemma_table_weight_of_codes([(0, 3), (0, 1), (0, 2)], heap_table(8), (177, 57, 141, 147, 45, 27, 156, 30));
}

proof fn lemma_class_188_weight()
    ensures
        table_weight(chart_signature([(0, 3), (0, 1), (0, 2)], heap_table(10))) == 5023377,
{
    lemma_heap_entries();
    lemma_codes_of_word_35(heap_table(10));
    lemma_signature_weight([(0, 3), (0, 1), (0, 2)], heap_table(10));
    lemma_table_weight_of_codes([(0, 3), (0, 1), (0, 2)], heap_table(10), (99, 39, 75, 114, 27, 54, 120, 57));
}

proof fn lemma_class_189_weight()
    ensures
        table_weight(chart_signature([(0, 3), (0, 1), (0, 2)], heap_table(11))) == 17435790,
{
    lemma_heap_entries();
    lemma_codes_of_word_35(heap_table(11));
    lemma_signature_weight([(0, 3), (0, 1), (0, 2)], heap_table(11));
    lemma_table_weight_of_codes([(0, 3), (0, 1), (0, 2)], heap_table(11), (147, 27, 135, 177, 39, 57, 180, 54));
}

proof fn lemma_class_190_weight()
    ensures
        table_weight(chart_signature([(0, 3), (0, 1), (0, 2)], heap_table(14))) == 18776151,
{
    lemma_heap_entries();
    lemma_codes_of_word_35(heap_table(14));
    lemma_signature_weight([(0, 3), (0, 1), (0, 2)], heap_table(14));
    lemma_table_weight_of_codes([(0, 3), (0, 1), (0, 2)], heap_table(14), (180, 120, 156, 135, 108, 75, 141, 78));
}

proof fn lemma_class_191_weight()
    ensures
        table_weight(chart_signature([(0, 3), (0, 1), (0, 2)], heap_table(17))) == 21615849,
{
    lemma_heap_entries();
    lemma_codes_of_word_35(heap_table(17));
    lemma_signature_weight([(0, 3), (0, 1), (0, 2)], heap_table(17));
    lemma_table_weight_of_codes([(0, 3), (0, 1), (0, 2)], heap_table(17), (135, 75, 147, 180, 99, 120, 177, 114));
}

proof fn lemma_class_192_weight()
    ensures
        table_weight(chart_signature([(0, 3), (0, 1), (1, 2)], heap_table(0))) == 41796594,
{
    lemma_heap_entries();
    lemma_codes_of_word_36(heap_table(0));
    lemma_signature_weight([(0, 3), (0, 1), (1, 2)], heap_table(0));
    lemma_table_weight_of_codes([(0, 3), (0, 1), (1, 2)], heap_table(0), (57, 201, 27, 45, 216, 225, 39, 228));
}

proof fn lemma_class_193_weight()
    ensures
        table_weight(chart_signature([(0, 3), (0, 1), (1, 2)], heap_table(1))) == 45821160,
{
    lemma_heap_entries();
    lemma_codes_of_word_36(heap_table(1));
    lemma_signature_weight([(0, 3), (0, 1), (1, 2)], heap_table(1));
    lemma_table_weight_of_codes([(0, 3), (0, 1), (1, 2)], heap_table(1), (120, 216, 75, 108, 201, 228, 99, 225));
}

proof fn lemma_class_194_weight()
    ensures
        table_weight(chart_signature([(0, 3), (0, 1), (1, 2)], heap_table(2))) == 54218754,
{
    lemma_heap_entries();
    lemma_codes_of_word_36(heap_table(2));
    lemma_signature_weight([(0, 3), (0, 1), (1, 2)], heap_table(2));
    lemma_table_weight_of_codes([(0, 3), (0, 1), (1, 2)], heap_table(2), (180, 228, 135, 156, 198, 216, 147, 210));
}

proof fn lemma_class_195_weight()
    ensures
        table_weight(chart_signature([(0, 3), (0, 1), (1, 2)], heap_table(3))) == 39216906,
{
    lemma_heap_entries();
    lemma_codes_of_word_36(heap_table(3));
    lemma_signature_weight([(0, 3), (0, 1), (1, 2)], heap_table(3));
    lemma_table_weight_of_codes([(0, 3), (0, 1), (1, 2)], heap_table(3), (54, 198, 39, 30, 228, 210, 27, 216));
}

proof fn lemma_class_196_weight()
    ensures
        table_weight(chart_signature([(0, 3), (0, 1), (1, 2)], heap_table(4))) == 39882888,
{
    lemma_heap_entries();
    lemma_codes_of_word_36(heap_table(4));
    lemma_signature_weight([(0, 3), (0, 1), (1, 2)], heap_table(4));
    lemma_table_weight_of_codes([(0, 3), (0, 1), (1, 2)], heap_table(4), (114, 210, 99, 78, 225, 198, 75, 201));
}

proof fn lemma_class_197_weight()
    ensures
        table_weight(chart_signature([(0, 3), (0, 1), (1, 2)], heap_table(5))) == 50519970,
{
    lemma_heap_entries();
    lemma_codes_of_word_36(heap_table(5));
    lemma_signature_weight([(0, 3), (0, 1), (1, 2)], heap_table(5));
    lemma_table_weight_of_codes([(0, 3), (0, 1), (1, 2)], heap_table(5), (177, 225, 147, 141, 210, 201, 135, 198));
}

proof fn lemma_class_198_weight()
    ensures
        table_weight(chart_signature([(0, 3), (0, 1), (1, 2)], heap_table(7))) == 4735206,
{
    lemma_heap_entries();
    lemma_codes_of_word_36(heap_table(7));
    lemma_signature_weight([(0, 3), (0, 1), (1, 2)], heap_table(7));
    lemma_table_weight_of_codes([(0, 3), (0, 1), (1, 2)], heap_table(7), (75, 27, 120, 99, 57, 39, 108, 45));
}

proof fn lemma_class_199_weight()
    ensures
        table_weight(chart_signature([(0, 3), (0, 1), (1, 2)], heap_table(8))) == 15528780,
{
    lemma_heap_entries();
    lemma_codes_of_word_36(heap_table(8));
    lemma_signature_weight([(0, 3), (0, 1), (1, 2)], heap_table(8));
    lemma_table_weight_of_codes([(0, 3), (0, 1), (1, 2)], heap_table(8), (135, 39, 180, 147, 54, 27, 156, 30));
}

proof fn lemma_class_200_weight()
    ensures
        table_weight(chart_signature([(0, 3), (0, 1), (1, 2)], heap_table(10))) == 5404590,
{
    lemma_heap_entries();
    lemma_codes_of_word_36(heap_table(10));
    lemma_signature_weight([(0, 3), (0, 1), (1, 2)], heap_table(10));
    lemma_table_weight_of_codes([(0, 3), (0, 1), (1, 2)], heap_table(10), (78, 30, 108, 114, 45, 54, 120, 57));
}

proof fn lemma_class_201_weight()
    ensures
        table_weight(chart_signature([(0, 3), (0, 1), (1, 2)], heap_table(11))) == 18437652,
{
    lemma_heap_entries();
    lemma_codes_of_word_36(heap_table(11));
    lemma_signature_weight([(0, 3), (0, 1), (1, 2)], heap_table(11));
    lemma_table_weight_of_codes([(0, 3), (0, 1), (1, 2)], heap_table(11), (141, 45, 156, 177, 30, 57, 180, 54));
}

proof fn lemma_class_202_weight()
    ensures
        table_weight(chart_signature([(0, 3), (0, 1), (1, 2)], heap_table(14))) == 17333622,
{
    lemma_heap_entries();
    lemma_codes_of_word_36(heap_table(14));
    lemma_signature_weight([(0, 3), (0, 1), (1, 2)], heap_table(14));
    lemma_table_weight_of_codes([(0, 3), (0, 1), (1, 2)], heap_table(14), (147, 99, 177, 135, 114, 75, 141, 78));
}

proof fn lemma_class_203_weight()
    ensures
        table_weight(chart_signature([(0, 3), (0, 1), (1, 2)], heap_table(17))) == 22920678,
{
    lemma_heap_entries();
    lemma_codes_of_word_36(heap_table(17));
    lemma_signature_weight([(0, 3), (0, 1), (1, 2)], heap_table(17));
    lemma_table_weight_of_codes([(0, 3), (0, 1), (1, 2)], heap_table(17), (156, 108, 141, 180, 78, 120, 177, 114));
}

proof fn lemma_class_204_weight()
    ensures
        table_weight(chart_signature([(0, 3), (0, 2), (0, 1)], heap_table(0))) == 39619071,
{
    lemma_heap_entries();
    lemma_codes_of_word_38(heap_table(0));
    lemma_signature_weight([(0, 3), (0, 2), (0, 1)], heap_table(0));
    lemma_table_weight_of_codes([(0, 3), (0, 2), (0, 1)], heap_table(0), (57, 201, 45, 54, 225, 198, 39, 228));
}

proof fn lemma_class_205_weight()
    ensures
        table_weight(chart_signature([(0, 3), (0, 2), (0, 1)], heap_table(1))) == 48021228,
{
    lemma_heap_entries();
    lemma_codes_of_word_38(heap_table(1));
    lemma_signature_weight([(0, 3), (0, 2), (0, 1)], heap_table(1));
    lemma_table_weight_of_codes([(0, 3), (0, 2), (0, 1)], heap_table(1), (120, 216, 108, 114, 228, 210, 99, 225));
}

proof fn lemma_class_206_weight()
    ensures
        table_weight(chart_signature([(0, 3), (0, 2), (0, 1)], heap_table(2))) == 60931845,
{
    lemma_heap_entries();
    lemma_codes_of_word_38(heap_table(2));
    lemma_signature_weight([(0, 3), (0, 2), (0, 1)], heap_table(2));
    lemma_table_weight_of_codes([(0, 3), (0, 2), (0, 1)], heap_table(2), (180, 228, 156, 177, 216, 225, 147, 210));
}

proof fn lemma_class_207_weight()
    ensures
        table_weight(chart_signature([(0, 3), (0, 2), (0, 1)], heap_table(3))) == 35611029,
{
    lemma_heap_entries();
    lemma_codes_of_word_38(heap_table(3));
    lemma_signature_weight([(0, 3), (0, 2), (0, 1)], heap_table(3));
    lemma_table_weight_of_codes([(0, 3), (0, 2), (0, 1)], heap_table(3), (54, 198, 30, 57, 210, 201, 27, 216));
}

proof fn lemma_class_208_weight()
    ensures
        table_weight(chart_signature([(0, 3), (0, 2), (0, 1)], heap_table(4))) == 39327660,
{
    lemma_heap_entries();
    lemma_codes_of_word_38(heap_table(4));
    lemma_signature_weight([(0, 3), (0, 2), (0, 1)], heap_table(4));
    lemma_table_weight_of_codes([(0, 3), (0, 2), (0, 1)], heap_table(4), (114, 210, 78, 120, 198, 216, 75, 201));
}

proof fn lemma_class_209_weight()
    ensures
        table_weight(chart_signature([(0, 3), (0, 2), (0, 1)], heap_table(5))) == 55766799,
{
    lemma_heap_entries();
    lemma_codes_of_word_38(heap_table(5));
    lemma_signature_weight([(0, 3), (0, 2), (0, 1)], heap_table(5));
    lemma_table_weight_of_codes([(0, 3), (0, 2), (0, 1)], heap_table(5), (177, 225, 141, 180, 201, 228, 135, 198));
}

proof fn lemma_class_210_weight()
    ensures
        table_weight(chart_signature([(0, 3), (0, 2), (0, 1)], heap_table(7))) == 3323565,
{
    lemma_heap_entries();
    lemma_codes_of_word_38(heap_table(7));
    lemma_signature_weight([(0, 3), (0, 2), (0, 1)], heap_table(7));
    lemma_table_weight_of_codes([(0, 3), (0, 2), (0, 1)], heap_table(7), (75, 27, 99, 78, 39, 30, 108, 45));
}

proof fn lemma_class_211_weight()
    ensures
        table_weight(chart_signature([(0, 3), (0, 2), (0, 1)], heap_table(8))) == 12433662,
{
    lemma_heap_entries();
    lemma_codes_of_word_38(heap_table(8));
    lemma_signature_weight([(0, 3), (0, 2), (0, 1)], heap_table(8));
    lemma_table_weight_of_codes([(0, 3), (0, 2), (0, 1)], heap_table(8), (135, 39, 147, 141, 27, 45, 156, 30));
}

proof fn lemma_class_212_weight()
    ensures
        table_weight(chart_signature([(0, 3), (0, 2), (0, 1)], heap_table(10))) == 4495311,
{
    lemma_heap_entries();
    lemma_codes_of_word_38(heap_table(10));
    lemma_signature_weight([(0, 3), (0, 2), (0, 1)], heap_table(10));
    lemma_table_weight_of_codes([(0, 3), (0, 2), (0, 1)], heap_table(10), (78, 30, 114, 75, 54, 27, 120, 57));
}

proof fn lemma_class_213_weight()
    ensures
        table_weight(chart_signature([(0, 3), (0, 2), (0, 1)], heap_table(11))) == 17133930,
{
    lemma_heap_entries();
    lemma_codes_of_word_38(heap_table(11));
    lemma_signature_weight([(0, 3), (0, 2), (0, 1)], heap_table(11));
    lemma_table_weight_of_codes([(0, 3), (0, 2), (0, 1)], heap_table(11), (141, 45, 177, 135, 57, 39, 180, 54));
}

proof fn lemma_class_214_weight()
    ensures
        table_weight(chart_signature([(0, 3), (0, 2), (0, 1)], heap_table(14))) == 15362973,
{
    lemma_heap_entries();
    lemma_codes_of_word_38(heap_table(14));
    lemma_signature_weight([(0, 3), (0, 2), (0, 1)], heap_table(14));
    lemma_table_weight_of_codes([(0, 3), (0, 2), (0, 1)], heap_table(14), (147, 99, 135, 156, 75, 108, 141, 78));
}

proof fn lemma_class_215_weight()
    ensures
        table_weight(chart_signature([(0, 3), (0, 2), (0, 1)], heap_table(17))) == 23789727,
{
    lemma_heap_entries();
    lemma_codes_of_word_38(heap_table(17));
    lemma_signature_weight([(0, 3), (0, 2), (0, 1)], heap_table(17));
    lemma_table_weight_of_codes([(0, 3), (0, 2), (0, 1)], heap_table(17), (156, 108, 180, 147, 120, 99, 177, 114));
}

/// The first charts of the classes have pairwise different weights, so
/// their signatures are pairwise different.
pub proof fn lemma_classes_apart()
    ensures
        forall|c: int| 0 <= c < 216 ==> class_of_weight(table_weight(#[trigger] atlas_signatures()[class_rep(c)])) == c,
{
    lemma_census_words();
    assert forall|c: int| 0 <= c < 216 implies class_of_weight(table_weight(#[trigger] atlas_signatures()[class_rep(c)])) == c by {
        if c == 0 { lemma_class_0_weight(); }
        else if c == 1 { lemma_class_1_weight(); }
        else if c == 2 { lemma_class_2_weight(); }
        else if c == 3 { lemma_class_3_weight(); }
        else if c == 4 { lemma_class_4_weight(); }
        else if c == 5 { lemma_class_5_weight(); }
        else if c == 6 { lemma_class_6_weight(); }
        else if c == 7 { lemma_class_7_weight(); }
        else if c == 8 { lemma_class_8_weight(); }
        else if c == 9 { lemma_class_9_weight(); }
        else if c == 10 { lemma_class_10_weight(); }
        else if c == 11 { lemma_class_11_weight(); }
        else if c == 12 { lemma_class_12_weight(); }
        else if c == 13 { lemma_class_13_weight(); }
        else if c == 14 { lemma_class_14_weight(); }
        else if c == 15 { lemma_class_15_weight(); }
        else if c == 16 { lemma_class_16_weight(); }
        else if c == 17 { lemma_class_17_weight(); }
        else if c == 18 { lemma_class_18_weight(); }
        else if c == 19 { lemma_class_19_weight(); }
        else if c == 20 { lemma_class_20_weight(); }
        else if c == 21 { lemma_class_21_weight(); }
        else if c == 22 { lemma_class_22_weight(); }
        else if c == 23 { lemma_class_23_weight(); }
        else if c == 24 { lemma_class_24_weight(); }
        else if c == 25 { lemma_class_25_weight(); }
        else if c == 26 { lemma_class_26_weight(); }
        else if c == 27 { lemma_class_27_weight(); }
        else if c == 28 { lemma_class_28_weight(); }
        else if c == 29 { lemma_class_29_weight(); }
        else if c == 30 { lemma_class_30_weight(); }
        else if c == 31 { lemma_class_31_weight(); }
        else if c == 32 { lemma_class_32_weight(); }
        else if c == 33 { lemma_class_33_weight(); }
        else if c == 34 { lemma_class_34_weight(); }
        else if c == 35 { lemma_class_35_weight(); }
        else if c == 36 { lemma_class_36_weight(); }
        else if c == 37 { lemma_class_37_weight(); }
        else if c == 38 { lemma_class_38_weight(); }
        else if c == 39 { lemma_class_39_weight(); }
        else if c == 40 { lemma_class_40_weight(); }
        else if c == 41 { lemma_class_41_weight(); }
        else if c == 42 { lemma_class_42_weight(); }
        else if c == 43 { lemma_class_43_weight(); }
        else if c == 44 { lemma_class_44_weight(); }
        else if c == 45 { lemma_class_45_weight(); }
        else if c == 46 { lemma_class_46_weight(); }
        else if c == 47 { lemma_class_47_weight(); }
        else if c == 48 { lemma_class_48_weight(); }
        else if c == 49 { lemma_class_49_weight(); }
        else if c == 50 { lemma_class_50_weight(); }
        else if c == 51 { lemma_class_51_weight(); }
        else if c == 52 { lemma_class_52_weight(); }
        else if c == 53 { lemma_class_53_weight(); }
        else if c == 54 { lemma_class_54_weight(); }
        else if c == 55 { lemma_class_55_weight(); }
        else if c == 56 { lemma_class_56_weight(); }
        else if c == 57 { lemma_class_57_weight(); }
        else if c == 58 { lemma_class_58_weight(); }
        else if c == 59 { lemma_class_59_weight(); }
        else if c == 60 { lemma_class_60_weight(); }
        else if c == 61 { lemma_class_61_weight(); }
        else if c == 62 { lemma_class_62_weight(); }
        else if c == 63 { lemma_class_63_weight(); }
        else if c == 64 { lemma_class_64_weight(); }
        else if c == 65 { lemma_class_65_weight(); }
        else if c == 66 { lemma_class_66_weight(); }
        else if c == 67 { lemma_class_67_weight(); }
        else if c == 68 { lemma_class_68_weight(); }
        else if c == 69 { lemma_class_69_weight(); }
        else if c == 70 { lemma_class_70_weight(); }
        else if c == 71 { lemma_class_71_weight(); }
        else if c == 72 { lemma_class_72_weight(); }
        else if c == 73 { lemma_class_73_weight(); }
        else if c == 74 { lemma_class_74_weight(); }
        else if c == 75 { lemma_class_75_weight(); }
        else if c == 76 { lemma_class_76_weight(); }
        else if c == 77 { lemma_class_77_weight(); }
        else if c == 78 { lemma_class_78_weight(); }
        else if c == 79 { lemma_class_79_weight(); }
        else if c == 80 { lemma_class_80_weight(); }
        else if c == 81 { lemma_class_81_weight(); }
        else if c == 82 { lemma_class_82_weight(); }
        else if c == 83 { lemma_class_83_weight(); }
        else if c == 84 { lemma_class_84_weight(); }
        else if c == 85 { lemma_class_85_weight(); }
        else if c == 86 { lemma_class_86_weight(); }
        else if c == 87 { lemma_class_87_weight(); }
        else if c == 88 { lemma_class_88_weight(); }
        else if c == 89 { lemma_class_89_weight(); }
        else if c == 90 { lemma_class_90_weight(); }
        else if c == 91 { lemma_class_91_weight(); }
        else if c == 92 { lemma_class_92_weight(); }
        else if c == 93 { lemma_class_93_weight(); }
        else if c == 94 { lemma_class_94_weight(); }
        else if c == 95 { lemma_class_95_weight(); }
        else if c == 96 { lemma_class_96_weight(); }
        else if c == 97 { lemma_class_97_weight(); }
        else if c == 98 { lemma_class_98_weight(); }
        else if c == 99 { lemma_class_99_weight(); }
        else if c == 100 { lemma_class_100_weight(); }
        else if c == 101 { lemma_class_101_weight(); }
        else if c == 102 { lemma_class_102_weight(); }
        else if c == 103 { lemma_class_103_weight(); }
        else if c == 104 { lemma_class_104_weight(); }
        else if c == 105 { lemma_class_105_weight(); }
        else if c == 106 { lemma_class_106_weight(); }
        else if c == 107 { lemma_class_107_weight(); }
        else if c == 108 { lemma_class_108_weight(); }
        else if c == 109 { lemma_class_109_weight(); }
        else if c == 110 { lemma_class_110_weight(); }
        else if c == 111 { lemma_class_111_weight(); }
        else if c == 112 { lemma_class_112_weight(); }
        else if c == 113 { lemma_class_113_weight(); }
        else if c == 114 { lemma_class_114_weight(); }
        else if c == 115 { lemma_class_115_weight(); }
        else if c == 116 { lemma_class_116_weight(); }
        else if c == 117 { lemma_class_117_weight(); }
        else if c == 118 { lemma_class_118_weight(); }
        else if c == 119 { lemma_class_119_weight(); }
        else if c == 120 { lemma_class_120_weight(); }
        else if c == 121 { lemma_class_121_weight(); }
        else if c == 122 { lemma_class_122_weight(); }
        else if c == 123 { lemma_class_123_weight(); }
        else if c == 124 { lemma_class_124_weight(); }
        else if c == 125 { lemma_class_125_weight(); }
        else if c == 126 { lemma_class_126_weight(); }
        else if c == 127 { lemma_class_127_weight(); }
        else if c == 128 { lemma_class_128_weight(); }
        else if c == 129 { lemma_class_129_weight(); }
        else if c == 130 { lemma_class_130_weight(); }
        else if c == 131 { lemma_class_131_weight(); }
        else if c == 132 { lemma_class_132_weight(); }
        else if c == 133 { lemma_class_133_weight(); }
        else if c == 134 { lemma_class_134_weight(); }
        else if c == 135 { lemma_class_135_weight(); }
        else if c == 136 { lemma_class_136_weight(); }
        else if c == 137 { lemma_class_137_weight(); }
        else if c == 138 { lemma_class_138_weight(); }
        else if c == 139 { lemma_class_139_weight(); }
        else if c == 140 { lemma_class_140_weight(); }
        else if c == 141 { lemma_class_141_weight(); }
        else if c == 142 { lemma_class_142_weight(); }
        else if c == 143 { lemma_class_143_weight(); }
        else if c == 144 { lemma_class_144_weight(); }
        else if c == 145 { lemma_class_145_weight(); }
        else if c == 146 { lemma_class_146_weight(); }
        else if c == 147 { lemma_class_147_weight(); }
        else if c == 148 { lemma_class_148_weight(); }
        else if c == 149 { lemma_class_149_weight(); }
        else if c == 150 { lemma_class_150_weight(); }
        else if c == 151 { lemma_class_151_weight(); }
        else if c == 152 { lemma_class_152_weight(); }
        else if c == 153 { lemma_class_153_weight(); }
        else if c == 154 { lemma_class_154_weight(); }
        else if c == 155 { lemma_class_155_weight(); }
        else if c == 156 { lemma_class_156_weight(); }
        else if c == 157 { lemma_class_157_weight(); }
        else if c == 158 { lemma_class_158_weight(); }
        else if c == 159 { lemma_class_159_weight(); }
        else if c == 160 { lemma_class_160_weight(); }
        else if c == 161 { lemma_class_161_weight(); }
        else if c == 162 { lemma_class_162_weight(); }
        else if c == 163 { lemma_class_163_weight(); }
        else if c == 164 { lemma_class_164_weight(); }
        else if c == 165 { lemma_class_165_weight(); }
        else if c == 166 { lemma_class_166_weight(); }
        else if c == 167 { lemma_class_167_weight(); }
        else if c == 168 { lemma_class_168_weight(); }
        else if c == 169 { lemma_class_169_weight(); }
        else if c == 170 { lemma_class_170_weight(); }
        else if c == 171 { lemma_class_171_weight(); }
        else if c == 172 { lemma_class_172_weight(); }
        else if c == 173 { lemma_class_173_weight(); }
        else if c == 174 { lemma_class_174_weight(); }
        else if c == 175 { lemma_class_175_weight(); }
        else if c == 176 { lemma_class_176_weight(); }
        else if c == 177 { lemma_class_177_weight(); }
        else if c == 178 { lemma_class_178_weight(); }
        else if c == 179 { lemma_class_179_weight(); }
        else if c == 180 { lemma_class_180_weight(); }
        else if c == 181 { lemma_class_181_weight(); }
        else if c == 182 { lemma_class_182_weight(); }
        else if c == 183 { lemma_class_183_weight(); }
        else if c == 184 { lemma_class_184_weight(); }
        else if c == 185 { lemma_class_185_weight(); }
        else if c == 186 { lemma_class_186_weight(); }
        else if c == 187 { lemma_class_187_weight(); }
        else if c == 188 { lemma_class_188_weight(); }
        else if c == 189 { lemma_class_189_weight(); }
        else if c == 190 { lemma_class_190_weight(); }
        else if c == 191 { lemma_class_191_weight(); }
        else if c == 192 { lemma_class_192_weight(); }
        else if c == 193 { lemma_class_193_weight(); }
        else if c == 194 { lemma_class_194_weight(); }
        else if c == 195 { lemma_class_195_weight(); }
        else if c == 196 { lemma_class_196_weight(); }
        else if c == 197 { lemma_class_197_weight(); }
        else if c == 198 { lemma_class_198_weight(); }
        else if c == 199 { lemma_class_199_weight(); }
        else if c == 200 { lemma_class_200_weight(); }
        else if c == 201 { lemma_class_201_weight(); }
        else if c == 202 { lemma_class_202_weight(); }
        else if c == 203 { lemma_class_203_weight(); }
        else if c == 204 { lemma_class_204_weight(); }
        else if c == 205 { lemma_class_205_weight(); }
        else if c == 206 { lemma_class_206_weight(); }
        else if c == 207 { lemma_class_207_weight(); }
        else if c == 208 { lemma_class_208_weight(); }
        else if c == 209 { lemma_class_209_weight(); }
        else if c == 210 { lemma_class_210_weight(); }
        else if c == 211 { lemma_class_211_weight(); }
        else if c == 212 { lemma_class_212_weight(); }
        else if c == 213 { lemma_class_213_weight(); }
        else if c == 214 { lemma_class_214_weight(); }
        else { lemma_class_215_weight(); }
    }
}

} // verus!
