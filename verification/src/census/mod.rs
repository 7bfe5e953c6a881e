//! A census of the interior atlas: every chart's corner table, matched to
//! the first chart of its image class by an explicit reparameterization, and
//! the classes told apart by a reparameterization-invariant weight. It fixes
//! the sizes of the exact quotient.
use vstd::prelude::*;
use crate::atlas::{InteriorQuotient, Word, appended_words, atlas_signatures, chart_class, class_signatures,
    corner_codes_spec, corner_order_upto, first_occurrences, interior_words_spec, is_head_word, is_tree_word,
    lemma_count_by_representatives, lemma_first_occurrences_extend, lemma_first_occurrences_facts,
    lemma_is_head_word, met_by, table_weight, triple_word};
use crate::can_sandwich::INTERIOR_CLASSES;
use crate::permutations::heap_table;

pub mod charts_0;
pub mod charts_1;
pub mod charts_2;
pub mod charts_3;
pub mod charts_4;
pub mod charts_5;
pub mod reps;

verus! {

/// One more ordered triple appends its word exactly when it is a tree word
/// that is not a head word.
proof fn lemma_appended_next(t: nat)
    ensures
        appended_words(t + 1) == if is_tree_word(triple_word(t as int)) && !is_head_word(triple_word(t as int)) {
            appended_words(t).push(triple_word(t as int))
        } else {
            appended_words(t)
        },
{
    lemma_is_head_word(triple_word(t as int));
}

/// The appended words among the ordered triples with first plane 0.
proof fn lemma_appended_words_0()
    ensures
        appended_words(36) =~= appended_words(0) + seq![[(0, 1), (0, 3), (0, 2)], [(0, 1), (1, 2), (0, 3)], [(0, 1), (1, 3), (0, 2)], [(0, 1), (1, 3), (1, 2)], [(0, 1), (2, 3), (0, 2)], [(0, 1), (2, 3), (0, 3)], [(0, 1), (2, 3), (1, 2)], [(0, 1), (2, 3), (1, 3)]],
{
    lemma_appended_next(0);
    lemma_appended_next(1);
    lemma_appended_next(2);
    lemma_appended_next(3);
    lemma_appended_next(4);
    lemma_appended_next(5);
    lemma_appended_next(6);
    lemma_appended_next(7);
    lemma_appended_next(8);
    lemma_appended_next(9);
    lemma_appended_next(10);
    lemma_appended_next(11);
    lemma_appended_next(12);
    lemma_appended_next(13);
    lemma_appended_next(14);
    lemma_appended_next(15);
    lemma_appended_next(16);
    lemma_appended_next(17);
    lemma_appended_next(18);
    lemma_appended_next(19);
    lemma_appended_next(20);
    lemma_appended_next(21);
    lemma_appended_next(22);
    lemma_appended_next(23);
    lemma_appended_next(24);
    lemma_appended_next(25);
    lemma_appended_next(26);
    lemma_appended_next(27);
    lemma_appended_next(28);
    lemma_appended_next(29);
    lemma_appended_next(30);
    lemma_appended_next(31);
    lemma_appended_next(32);
    lemma_appended_next(33);
    lemma_appended_next(34);
    lemma_appended_next(35);
}

/// The appended words among the ordered triples with first plane 1.
proof fn lemma_appended_words_1()
    ensures
        appended_words(72) =~= appended_words(36) + seq![[(0, 2), (0, 1), (0, 3)], [(0, 2), (0, 1), (1, 3)], [(0, 2), (0, 1), (2, 3)], [(0, 2), (0, 3), (0, 1)], [(0, 2), (1, 2), (0, 3)], [(0, 2), (1, 2), (1, 3)], [(0, 2), (1, 3), (0, 1)], [(0, 2), (1, 3), (0, 3)], [(0, 2), (2, 3), (0, 1)], [(0, 2), (2, 3), (1, 2)], [(0, 2), (2, 3), (1, 3)]],
{
    lemma_appended_next(36);
    lemma_appended_next(37);
    lemma_appended_next(38);
    lemma_appended_next(39);
    lemma_appended_next(40);
    lemma_appended_next(41);
    lemma_appended_next(42);
    lemma_appended_next(43);
    lemma_appended_next(44);
    lemma_appended_next(45);
    lemma_appended_next(46);
    lemma_appended_next(47);
    lemma_appended_next(48);
    lemma_appended_next(49);
    lemma_appended_next(50);
    lemma_appended_next(51);
    lemma_appended_next(52);
    lemma_appended_next(53);
    lemma_appended_next(54);
    lemma_appended_next(55);
    lemma_appended_next(56);
    lemma_appended_next(57);
    lemma_appended_next(58);
    lemma_appended_next(59);
    lemma_appended_next(60);
    lemma_appended_next(61);
    lemma_appended_next(62);
    lemma_appended_next(63);
    lemma_appended_next(64);
    lemma_appended_next(65);
    lemma_appended_next(66);
    lemma_appended_next(67);
    lemma_appended_next(68);
    lemma_appended_next(69);
    lemma_appended_next(70);
    lemma_appended_next(71);
}

/// The appended words among the ordered triples with first plane 2.
proof fn lemma_appended_words_2()
    ensures
        appended_words(108) =~= appended_words(72) + seq![[(0, 3), (0, 1), (0, 2)], [(0, 3), (0, 1), (1, 2)], [(0, 3), (0, 1), (2, 3)], [(0, 3), (0, 2), (0, 1)], [(0, 3), (0, 2), (1, 2)], [(0, 3), (0, 2), (1, 3)], [(0, 3), (1, 2), (0, 1)], [(0, 3), (1, 2), (0, 2)], [(0, 3), (1, 3), (0, 2)], [(0, 3), (1, 3), (1, 2)], [(0, 3), (2, 3), (0, 1)], [(0, 3), (2, 3), (1, 2)], [(0, 3), (2, 3), (1, 3)]],
{
    lemma_appended_next(72);
    lemma_appended_next(73);
    lemma_appended_next(74);
    lemma_appended_next(75);
    lemma_appended_next(76);
    lemma_appended_next(77);
    lemma_appended_next(78);
    lemma_appended_next(79);
    lemma_appended_next(80);
    lemma_appended_next(81);
    lemma_appended_next(82);
    lemma_appended_next(83);
    lemma_appended_next(84);
    lemma_appended_next(85);
    lemma_appended_next(86);
    lemma_appended_next(87);
    lemma_appended_next(88);
    lemma_appended_next(89);
    lemma_appended_next(90);
    lemma_appended_next(91);
    lemma_appended_next(92);
    lemma_appended_next(93);
    lemma_appended_next(94);
    lemma_appended_next(95);
    lemma_appended_next(96);
    lemma_appended_next(97);
    lemma_appended_next(98);
    lemma_appended_next(99);
    lemma_appended_next(100);
    lemma_appended_next(101);
    lemma_appended_next(102);
    lemma_appended_next(103);
    lemma_appended_next(104);
    lemma_appended_next(105);
    lemma_appended_next(106);
    lemma_appended_next(107);
}

/// The appended words among the ordered triples with first plane 3.
proof fn lemma_appended_words_3()
    ensures
        appended_words(144) =~= appended_words(108) + seq![[(1, 2), (0, 1), (0, 3)], [(1, 2), (0, 1), (1, 3)], [(1, 2), (0, 1), (2, 3)], [(1, 2), (0, 2), (0, 3)], [(1, 2), (0, 2), (1, 3)], [(1, 2), (0, 2), (2, 3)], [(1, 2), (0, 3), (0, 1)], [(1, 2), (0, 3), (0, 2)], [(1, 2), (0, 3), (1, 3)], [(1, 2), (0, 3), (2, 3)], [(1, 2), (1, 3), (0, 1)], [(1, 2), (1, 3), (0, 2)], [(1, 2), (1, 3), (0, 3)], [(1, 2), (2, 3), (0, 1)], [(1, 2), (2, 3), (0, 2)], [(1, 2), (2, 3), (0, 3)]],
{
    lemma_appended_next(108);
    lemma_appended_next(109);
    lemma_appended_next(110);
    lemma_appended_next(111);
    lemma_appended_next(112);
    lemma_appended_next(113);
    lemma_appended_next(114);
    lemma_appended_next(115);
    lemma_appended_next(116);
    lemma_appended_next(117);
    lemma_appended_next(118);
    lemma_appended_next(119);
    lemma_appended_next(120);
    lemma_appended_next(121);
    lemma_appended_next(122);
    lemma_appended_next(123);
    lemma_appended_next(124);
    lemma_appended_next(125);
    lemma_appended_next(126);
    lemma_appended_next(127);
    lemma_appended_next(128);
    lemma_appended_next(129);
    lemma_appended_next(130);
    lemma_appended_next(131);
    lemma_appended_next(132);
    lemma_appended_next(133);
    lemma_appended_next(134);
    lemma_appended_next(135);
    lemma_appended_next(136);
    lemma_appended_next(137);
    lemma_appended_next(138);
    lemma_appended_next(139);
    lemma_appended_next(140);
    lemma_appended_next(141);
    lemma_appended_next(142);
    lemma_appended_next(143);
}

/// The appended words among the ordered triples with first plane 4.
proof fn lemma_appended_words_4()
    ensures
        appended_words(180) =~= appended_words(144) + seq![[(1, 3), (0, 1), (0, 2)], [(1, 3), (0, 1), (1, 2)], [(1, 3), (0, 1), (2, 3)], [(1, 3), (0, 2), (0, 1)], [(1, 3), (0, 2), (0, 3)], [(1, 3), (0, 2), (1, 2)], [(1, 3), (0, 2), (2, 3)], [(1, 3), (0, 3), (0, 2)], [(1, 3), (0, 3), (1, 2)], [(1, 3), (0, 3), (2, 3)], [(1, 3), (1, 2), (0, 1)], [(1, 3), (1, 2), (0, 2)], [(1, 3), (1, 2), (0, 3)], [(1, 3), (2, 3), (0, 1)], [(1, 3), (2, 3), (0, 2)], [(1, 3), (2, 3), (0, 3)]],
{
    lemma_appended_next(144);
    lemma_appended_next(145);
    lemma_appended_next(146);
    lemma_appended_next(147);
    lemma_appended_next(148);
    lemma_appended_next(149);
    lemma_appended_next(150);
    lemma_appended_next(151);
    lemma_appended_next(152);
    lemma_appended_next(153);
    lemma_appended_next(154);
    lemma_appended_next(155);
    lemma_appended_next(156);
    lemma_appended_next(157);
    lemma_appended_next(158);
    lemma_appended_next(159);
    lemma_appended_next(160);
    lemma_appended_next(161);
    lemma_appended_next(162);
    lemma_appended_next(163);
    lemma_appended_next(164);
    lemma_appended_next(165);
    lemma_appended_next(166);
    lemma_appended_next(167);
    lemma_appended_next(168);
    lemma_appended_next(169);
    lemma_appended_next(170);
    lemma_appended_next(171);
    lemma_appended_next(172);
    lemma_appended_next(173);
    lemma_appended_next(174);
    lemma_appended_next(175);
    lemma_appended_next(176);
    lemma_appended_next(177);
    lemma_appended_next(178);
    lemma_appended_next(179);
}

/// The appended words among the ordered triples with first plane 5.
proof fn lemma_appended_words_5()
    ensures
        appended_words(216) =~= appended_words(180) + seq![[(2, 3), (0, 1), (0, 2)], [(2, 3), (0, 1), (0, 3)], [(2, 3), (0, 1), (1, 2)], [(2, 3), (0, 1), (1, 3)], [(2, 3), (0, 2), (0, 1)], [(2, 3), (0, 2), (1, 2)], [(2, 3), (0, 2), (1, 3)], [(2, 3), (0, 3), (0, 1)], [(2, 3), (0, 3), (1, 2)], [(2, 3), (0, 3), (1, 3)], [(2, 3), (1, 2), (0, 1)], [(2, 3), (1, 2), (0, 2)], [(2, 3), (1, 2), (0, 3)], [(2, 3), (1, 3), (0, 1)], [(2, 3), (1, 3), (0, 2)], [(2, 3), (1, 3), (0, 3)]],
{
    lemma_appended_next(180);
    lemma_appended_next(181);
    lemma_appended_next(182);
    lemma_appended_next(183);
    lemma_appended_next(184);
    lemma_appended_next(185);
    lemma_appended_next(186);
    lemma_appended_next(187);
    lemma_appended_next(188);
    lemma_appended_next(189);
    lemma_appended_next(190);
    lemma_appended_next(191);
    lemma_appended_next(192);
    lemma_appended_next(193);
    lemma_appended_next(194);
    lemma_appended_next(195);
    lemma_appended_next(196);
    lemma_appended_next(197);
    lemma_appended_next(198);
    lemma_appended_next(199);
    lemma_appended_next(200);
    lemma_appended_next(201);
    lemma_appended_next(202);
    lemma_appended_next(203);
    lemma_appended_next(204);
    lemma_appended_next(205);
    lemma_appended_next(206);
    lemma_appended_next(207);
    lemma_appended_next(208);
    lemma_appended_next(209);
    lemma_appended_next(210);
    lemma_appended_next(211);
    lemma_appended_next(212);
    lemma_appended_next(213);
    lemma_appended_next(214);
    lemma_appended_next(215);
}

/// The words of the interior atlas, listed.
pub open spec fn census_word(i: int) -> Word {
    if i < 48 {
        if i < 24 {
            if i < 12 {
                if i < 6 {
                    if i < 3 {
                        if i < 1 {
                            [(0, 1), (1, 2), (2, 3)]
                        } else {
                            if i < 2 {
                                [(0, 1), (0, 2), (0, 3)]
                            } else {
                                [(0, 1), (1, 2), (1, 3)]
                            }
                        }
                    } else {
                        if i < 4 {
                            [(0, 2), (0, 3), (1, 2)]
                        } else {
                            if i < 5 {
                                [(0, 2), (1, 3), (1, 2)]
                            } else {
                                [(0, 3), (1, 2), (1, 3)]
                            }
                        }
                    }
                } else {
                    if i < 9 {
                        if i < 7 {
                            [(0, 2), (0, 3), (1, 3)]
                        } else {
                            if i < 8 {
                                [(0, 1), (0, 2), (1, 3)]
                            } else {
                                [(0, 1), (0, 2), (2, 3)]
                            }
                        }
                    } else {
                        if i < 10 {
                            [(0, 1), (0, 3), (1, 2)]
                        } else {
                            if i < 11 {
                                [(0, 1), (0, 3), (2, 3)]
                            } else {
                                [(0, 1), (1, 3), (2, 3)]
                            }
                        }
                    }
                }
            } else {
                if i < 18 {
                    if i < 15 {
                        if i < 13 {
                            [(0, 2), (1, 2), (2, 3)]
                        } else {
                            if i < 14 {
                                [(0, 2), (1, 3), (2, 3)]
                            } else {
                                [(0, 3), (1, 2), (2, 3)]
                            }
                        }
                    } else {
                        if i < 16 {
                            [(0, 3), (1, 3), (2, 3)]
                        } else {
                            if i < 17 {
                                [(0, 1), (0, 3), (0, 2)]
                            } else {
                                [(0, 1), (1, 2), (0, 3)]
                            }
                        }
                    }
                } else {
                    if i < 21 {
                        if i < 19 {
                            [(0, 1), (1, 3), (0, 2)]
                        } else {
                            if i < 20 {
                                [(0, 1), (1, 3), (1, 2)]
                            } else {
                                [(0, 1), (2, 3), (0, 2)]
                            }
                        }
                    } else {
                        if i < 22 {
                            [(0, 1), (2, 3), (0, 3)]
                        } else {
                            if i < 23 {
                                [(0, 1), (2, 3), (1, 2)]
                            } else {
                                [(0, 1), (2, 3), (1, 3)]
                            }
                        }
                    }
                }
            }
        } else {
            if i < 36 {
                if i < 30 {
                    if i < 27 {
                        if i < 25 {
                            [(0, 2), (0, 1), (0, 3)]
                        } else {
                            if i < 26 {
                                [(0, 2), (0, 1), (1, 3)]
                            } else {
                                [(0, 2), (0, 1), (2, 3)]
                            }
                        }
                    } else {
                        if i < 28 {
                            [(0, 2), (0, 3), (0, 1)]
                        } else {
                            if i < 29 {
                                [(0, 2), (1, 2), (0, 3)]
                            } else {
                                [(0, 2), (1, 2), (1, 3)]
                            }
                        }
                    }
                } else {
                    if i < 33 {
                        if i < 31 {
                            [(0, 2), (1, 3), (0, 1)]
                        } else {
                            if i < 32 {
                                [(0, 2), (1, 3), (0, 3)]
                            } else {
                                [(0, 2), (2, 3), (0, 1)]
                            }
                        }
                    } else {
                        if i < 34 {
                            [(0, 2), (2, 3), (1, 2)]
                        } else {
                            if i < 35 {
                                [(0, 2), (2, 3), (1, 3)]
                            } else {
                                [(0, 3), (0, 1), (0, 2)]
                            }
                        }
                    }
                }
            } else {
                if i < 42 {
                    if i < 39 {
                        if i < 37 {
                            [(0, 3), (0, 1), (1, 2)]
                        } else {
                            if i < 38 {
                                [(0, 3), (0, 1), (2, 3)]
                            } else {
                                [(0, 3), (0, 2), (0, 1)]
                            }
                        }
                    } else {
                        if i < 40 {
                            [(0, 3), (0, 2), (1, 2)]
                        } else {
                            if i < 41 {
                                [(0, 3), (0, 2), (1, 3)]
                            } else {
                                [(0, 3), (1, 2), (0, 1)]
                            }
                        }
                    }
                } else {
                    if i < 45 {
                        if i < 43 {
                            [(0, 3), (1, 2), (0, 2)]
                        } else {
                            if i < 44 {
                                [(0, 3), (1, 3), (0, 2)]
                            } else {
                                [(0, 3), (1, 3), (1, 2)]
                            }
                        }
                    } else {
                        if i < 46 {
                            [(0, 3), (2, 3), (0, 1)]
                        } else {
                            if i < 47 {
                                [(0, 3), (2, 3), (1, 2)]
                            } else {
                                [(0, 3), (2, 3), (1, 3)]
                            }
                        }
                    }
                }
            }
        }
    } else {
        if i < 72 {
            if i < 60 {
                if i < 54 {
                    if i < 51 {
                        if i < 49 {
                            [(1, 2), (0, 1), (0, 3)]
                        } else {
                            if i < 50 {
                                [(1, 2), (0, 1), (1, 3)]
                            } else {
                                [(1, 2), (0, 1), (2, 3)]
                            }
                        }
                    } else {
                        if i < 52 {
                            [(1, 2), (0, 2), (0, 3)]
                        } else {
                            if i < 53 {
                                [(1, 2), (0, 2), (1, 3)]
                            } else {
                                [(1, 2), (0, 2), (2, 3)]
                            }
                        }
                    }
                } else {
                    if i < 57 {
                        if i < 55 {
                            [(1, 2), (0, 3), (0, 1)]
                        } else {
                            if i < 56 {
                                [(1, 2), (0, 3), (0, 2)]
                            } else {
                                [(1, 2), (0, 3), (1, 3)]
                            }
                        }
                    } else {
                        if i < 58 {
                            [(1, 2), (0, 3), (2, 3)]
                        } else {
                            if i < 59 {
                                [(1, 2), (1, 3), (0, 1)]
                            } else {
                                [(1, 2), (1, 3), (0, 2)]
                            }
                        }
                    }
                }
            } else {
                if i < 66 {
                    if i < 63 {
                        if i < 61 {
                            [(1, 2), (1, 3), (0, 3)]
                        } else {
                            if i < 62 {
                                [(1, 2), (2, 3), (0, 1)]
                            } else {
                                [(1, 2), (2, 3), (0, 2)]
                            }
                        }
                    } else {
                        if i < 64 {
                            [(1, 2), (2, 3), (0, 3)]
                        } else {
                            if i < 65 {
                                [(1, 3), (0, 1), (0, 2)]
                            } else {
                                [(1, 3), (0, 1), (1, 2)]
                            }
                        }
                    }
                } else {
                    if i < 69 {
                        if i < 67 {
                            [(1, 3), (0, 1), (2, 3)]
                        } else {
                            if i < 68 {
                                [(1, 3), (0, 2), (0, 1)]
                            } else {
                                [(1, 3), (0, 2), (0, 3)]
                            }
                        }
                    } else {
                        if i < 70 {
                            [(1, 3), (0, 2), (1, 2)]
                        } else {
                            if i < 71 {
                                [(1, 3), (0, 2), (2, 3)]
                            } else {
                                [(1, 3), (0, 3), (0, 2)]
                            }
                        }
                    }
                }
            }
        } else {
            if i < 84 {
                if i < 78 {
                    if i < 75 {
                        if i < 73 {
                            [(1, 3), (0, 3), (1, 2)]
                        } else {
                            if i < 74 {
                                [(1, 3), (0, 3), (2, 3)]
                            } else {
                                [(1, 3), (1, 2), (0, 1)]
                            }
                        }
                    } else {
                        if i < 76 {
                            [(1, 3), (1, 2), (0, 2)]
                        } else {
                            if i < 77 {
                                [(1, 3), (1, 2), (0, 3)]
                            } else {
                                [(1, 3), (2, 3), (0, 1)]
                            }
                        }
                    }
                } else {
                    if i < 81 {
                        if i < 79 {
                            [(1, 3), (2, 3), (0, 2)]
                        } else {
                            if i < 80 {
                                [(1, 3), (2, 3), (0, 3)]
                            } else {
                                [(2, 3), (0, 1), (0, 2)]
                            }
                        }
                    } else {
                        if i < 82 {
                            [(2, 3), (0, 1), (0, 3)]
                        } else {
                            if i < 83 {
                                [(2, 3), (0, 1), (1, 2)]
                            } else {
                                [(2, 3), (0, 1), (1, 3)]
                            }
                        }
                    }
                }
            } else {
                if i < 90 {
                    if i < 87 {
                        if i < 85 {
                            [(2, 3), (0, 2), (0, 1)]
                        } else {
                            if i < 86 {
                                [(2, 3), (0, 2), (1, 2)]
                            } else {
                                [(2, 3), (0, 2), (1, 3)]
                            }
                        }
                    } else {
                        if i < 88 {
                            [(2, 3), (0, 3), (0, 1)]
                        } else {
                            if i < 89 {
                                [(2, 3), (0, 3), (1, 2)]
                            } else {
                                [(2, 3), (0, 3), (1, 3)]
                            }
                        }
                    }
                } else {
                    if i < 93 {
                        if i < 91 {
                            [(2, 3), (1, 2), (0, 1)]
                        } else {
                            if i < 92 {
                                [(2, 3), (1, 2), (0, 2)]
                            } else {
                                [(2, 3), (1, 2), (0, 3)]
                            }
                        }
                    } else {
                        if i < 94 {
                            [(2, 3), (1, 3), (0, 1)]
                        } else {
                            if i < 95 {
                                [(2, 3), (1, 3), (0, 2)]
                            } else {
                                [(2, 3), (1, 3), (0, 3)]
                            }
                        }
                    }
                }
            }
        }
    }
}

/// The atlas words are the listed ones.
pub proof fn lemma_census_words()
    ensures
        interior_words_spec() == Seq::new(96, |i: int| census_word(i)),
{
    lemma_appended_words_0();
    lemma_appended_words_1();
    lemma_appended_words_2();
    lemma_appended_words_3();
    lemma_appended_words_4();
    lemma_appended_words_5();
    assert(appended_words(0) =~= Seq::<Word>::empty());
    assert(interior_words_spec() =~= Seq::new(96, |i: int| census_word(i)));
}

/// Entry `m` of order `j` of the Heap table.
pub open spec fn heap_entry(j: int, m: int) -> int {
    if j < 12 {
        if j < 6 {
            if j < 3 {
                if j < 1 {
                    if m < 2 { if m == 0 { 0 } else { 1 } } else { if m == 2 { 2 } else { 3 } }
                } else {
                    if j < 2 {
                        if m < 2 { if m == 0 { 1 } else { 0 } } else { if m == 2 { 2 } else { 3 } }
                    } else {
                        if m < 2 { if m == 0 { 2 } else { 0 } } else { if m == 2 { 1 } else { 3 } }
                    }
                }
            } else {
                if j < 4 {
                    if m < 2 { if m == 0 { 0 } else { 2 } } else { if m == 2 { 1 } else { 3 } }
                } else {
                    if j < 5 {
                        if m < 2 { if m == 0 { 1 } else { 2 } } else { if m == 2 { 0 } else { 3 } }
                    } else {
                        if m < 2 { if m == 0 { 2 } else { 1 } } else { if m == 2 { 0 } else { 3 } }
                    }
                }
            }
        } else {
            if j < 9 {
                if j < 7 {
                    if m < 2 { if m == 0 { 3 } else { 1 } } else { if m == 2 { 2 } else { 0 } }
                } else {
                    if j < 8 {
                        if m < 2 { if m == 0 { 1 } else { 3 } } else { if m == 2 { 2 } else { 0 } }
                    } else {
                        if m < 2 { if m == 0 { 2 } else { 3 } } else { if m == 2 { 1 } else { 0 } }
                    }
                }
            } else {
                if j < 10 {
                    if m < 2 { if m == 0 { 3 } else { 2 } } else { if m == 2 { 1 } else { 0 } }
                } else {
                    if j < 11 {
                        if m < 2 { if m == 0 { 1 } else { 2 } } else { if m == 2 { 3 } else { 0 } }
                    } else {
                        if m < 2 { if m == 0 { 2 } else { 1 } } else { if m == 2 { 3 } else { 0 } }
                    }
                }
            }
        }
    } else {
        if j < 18 {
            if j < 15 {
                if j < 13 {
                    if m < 2 { if m == 0 { 3 } else { 0 } } else { if m == 2 { 2 } else { 1 } }
                } else {
                    if j < 14 {
                        if m < 2 { if m == 0 { 0 } else { 3 } } else { if m == 2 { 2 } else { 1 } }
                    } else {
                        if m < 2 { if m == 0 { 2 } else { 3 } } else { if m == 2 { 0 } else { 1 } }
                    }
                }
            } else {
                if j < 16 {
                    if m < 2 { if m == 0 { 3 } else { 2 } } else { if m == 2 { 0 } else { 1 } }
                } else {
                    if j < 17 {
                        if m < 2 { if m == 0 { 0 } else { 2 } } else { if m == 2 { 3 } else { 1 } }
                    } else {
                        if m < 2 { if m == 0 { 2 } else { 0 } } else { if m == 2 { 3 } else { 1 } }
                    }
                }
            }
        } else {
            if j < 21 {
                if j < 19 {
                    if m < 2 { if m == 0 { 3 } else { 0 } } else { if m == 2 { 1 } else { 2 } }
                } else {
                    if j < 20 {
                        if m < 2 { if m == 0 { 0 } else { 3 } } else { if m == 2 { 1 } else { 2 } }
                    } else {
                        if m < 2 { if m == 0 { 1 } else { 3 } } else { if m == 2 { 0 } else { 2 } }
                    }
                }
            } else {
                if j < 22 {
                    if m < 2 { if m == 0 { 3 } else { 1 } } else { if m == 2 { 0 } else { 2 } }
                } else {
                    if j < 23 {
                        if m < 2 { if m == 0 { 0 } else { 1 } } else { if m == 2 { 3 } else { 2 } }
                    } else {
                        if m < 2 { if m == 0 { 1 } else { 0 } } else { if m == 2 { 3 } else { 2 } }
                    }
                }
            }
        }
    }
}

/// The Heap table, entry by entry.
pub proof fn lemma_heap_entries()
    ensures
        forall|j: int, m: int| 0 <= j < 24 && 0 <= m < 4 ==> #[trigger] heap_table(j)[m] as int == heap_entry(j, m),
{
    assert forall|j: int, m: int| 0 <= j < 24 && 0 <= m < 4 implies #[trigger] heap_table(j)[m] as int == heap_entry(j, m) by {
        broadcast use vstd::array::group_array_axioms;
    }
}

/// Chart `t` shares its signature with the first chart of a class below
/// `bound`.
pub open spec fn meets_class_below(t: int, bound: int) -> bool {
    exists|c: int| 0 <= c < bound && #[trigger] atlas_signatures()[class_rep(c)] == atlas_signatures()[t]
}

/// The first chart of image class `c`, as its index `24 w + p` in the atlas
/// (classes numbered by first appearance).
pub open spec fn class_rep(c: int) -> int {
    if c < 108 {
        if c < 54 {
            if c < 27 {
                if c < 13 {
                    if c < 6 {
                        if c < 3 {
                            if c < 1 {
                                0
                            } else {
                                if c < 2 {
                                    2
                                } else {
                                    4
                                }
                            }
                        } else {
                            if c < 4 {
                                6
                            } else {
                                if c < 5 {
                                    8
                                } else {
                                    10
                                }
                            }
                        }
                    } else {
                        if c < 9 {
                            if c < 7 {
                                12
                            } else {
                                if c < 8 {
                                    14
                                } else {
                                    16
                                }
                            }
                        } else {
                            if c < 11 {
                                if c < 10 {
                                    18
                                } else {
                                    20
                                }
                            } else {
                                if c < 12 {
                                    22
                                } else {
                                    24
                                }
                            }
                        }
                    }
                } else {
                    if c < 20 {
                        if c < 16 {
                            if c < 14 {
                                26
                            } else {
                                if c < 15 {
                                    28
                                } else {
                                    30
                                }
                            }
                        } else {
                            if c < 18 {
                                if c < 17 {
                                    32
                                } else {
                                    34
                                }
                            } else {
                                if c < 19 {
                                    36
                                } else {
                                    38
                                }
                            }
                        }
                    } else {
                        if c < 23 {
                            if c < 21 {
                                40
                            } else {
                                if c < 22 {
                                    42
                                } else {
                                    44
                                }
                            }
                        } else {
                            if c < 25 {
                                if c < 24 {
                                    46
                                } else {
                                    48
                                }
                            } else {
                                if c < 26 {
                                    50
                                } else {
                                    52
                                }
                            }
                        }
                    }
                }
            } else {
                if c < 40 {
                    if c < 33 {
                        if c < 30 {
                            if c < 28 {
                                54
                            } else {
                                if c < 29 {
                                    56
                                } else {
                                    58
                                }
                            }
                        } else {
                            if c < 31 {
                                60
                            } else {
                                if c < 32 {
                                    62
                                } else {
                                    64
                                }
                            }
                        }
                    } else {
                        if c < 36 {
                            if c < 34 {
                                66
                            } else {
                                if c < 35 {
                                    68
                                } else {
                                    70
                                }
                            }
                        } else {
                            if c < 38 {
                                if c < 37 {
                                    72
                                } else {
                                    73
                                }
                            } else {
                                if c < 39 {
                                    75
                                } else {
                                    78
                                }
                            }
                        }
                    }
                } else {
                    if c < 47 {
                        if c < 43 {
                            if c < 41 {
                                79
                            } else {
                                if c < 42 {
                                    81
                                } else {
                                    84
                                }
                            }
                        } else {
                            if c < 45 {
                                if c < 44 {
                                    85
                                } else {
                                    87
                                }
                            } else {
                                if c < 46 {
                                    90
                                } else {
                                    91
                                }
                            }
                        }
                    } else {
                        if c < 50 {
                            if c < 48 {
                                93
                            } else {
                                if c < 49 {
                                    96
                                } else {
                                    97
                                }
                            }
                        } else {
                            if c < 52 {
                                if c < 51 {
                                    99
                                } else {
                                    102
                                }
                            } else {
                                if c < 53 {
                                    105
                                } else {
                                    111
                                }
                            }
                        }
                    }
                }
            }
        } else {
            if c < 81 {
                if c < 67 {
                    if c < 60 {
                        if c < 57 {
                            if c < 55 {
                                120
                            } else {
                                if c < 56 {
                                    121
                                } else {
                                    122
                                }
                            }
                        } else {
                            if c < 58 {
                                127
                            } else {
                                if c < 59 {
                                    128
                                } else {
                                    134
                                }
                            }
                        }
                    } else {
                        if c < 63 {
                            if c < 61 {
                                144
                            } else {
                                if c < 62 {
                                    145
                                } else {
                                    147
                                }
                            }
                        } else {
                            if c < 65 {
                                if c < 64 {
                                    150
                                } else {
                                    151
                                }
                            } else {
                                if c < 66 {
                                    153
                                } else {
                                    156
                                }
                            }
                        }
                    }
                } else {
                    if c < 74 {
                        if c < 70 {
                            if c < 68 {
                                157
                            } else {
                                if c < 69 {
                                    159
                                } else {
                                    162
                                }
                            }
                        } else {
                            if c < 72 {
                                if c < 71 {
                                    163
                                } else {
                                    165
                                }
                            } else {
                                if c < 73 {
                                    168
                                } else {
                                    170
                                }
                            }
                        }
                    } else {
                        if c < 77 {
                            if c < 75 {
                                172
                            } else {
                                if c < 76 {
                                    174
                                } else {
                                    176
                                }
                            }
                        } else {
                            if c < 79 {
                                if c < 78 {
                                    178
                                } else {
                                    180
                                }
                            } else {
                                if c < 80 {
                                    182
                                } else {
                                    184
                                }
                            }
                        }
                    }
                }
            } else {
                if c < 94 {
                    if c < 87 {
                        if c < 84 {
                            if c < 82 {
                                186
                            } else {
                                if c < 83 {
                                    188
                                } else {
                                    190
                                }
                            }
                        } else {
                            if c < 85 {
                                192
                            } else {
                                if c < 86 {
                                    194
                                } else {
                                    196
                                }
                            }
                        }
                    } else {
                        if c < 90 {
                            if c < 88 {
                                198
                            } else {
                                if c < 89 {
                                    200
                                } else {
                                    202
                                }
                            }
                        } else {
                            if c < 92 {
                                if c < 91 {
                                    204
                                } else {
                                    206
                                }
                            } else {
                                if c < 93 {
                                    208
                                } else {
                                    210
                                }
                            }
                        }
                    }
                } else {
                    if c < 101 {
                        if c < 97 {
                            if c < 95 {
                                212
                            } else {
                                if c < 96 {
                                    214
                                } else {
                                    312
                                }
                            }
                        } else {
                            if c < 99 {
                                if c < 98 {
                                    313
                                } else {
                                    315
                                }
                            } else {
                                if c < 100 {
                                    318
                                } else {
                                    321
                                }
                            }
                        }
                    } else {
                        if c < 104 {
                            if c < 102 {
                                327
                            } else {
                                if c < 103 {
                                    384
                                } else {
                                    386
                                }
                            }
                        } else {
                            if c < 106 {
                                if c < 105 {
                                    388
                                } else {
                                    390
                                }
                            } else {
                                if c < 107 {
                                    392
                                } else {
                                    394
                                }
                            }
                        }
                    }
                }
            }
        }
    } else {
        if c < 162 {
            if c < 135 {
                if c < 121 {
                    if c < 114 {
                        if c < 111 {
                            if c < 109 {
                                396
                            } else {
                                if c < 110 {
                                    398
                                } else {
                                    400
                                }
                            }
                        } else {
                            if c < 112 {
                                402
                            } else {
                                if c < 113 {
                                    404
                                } else {
                                    406
                                }
                            }
                        }
                    } else {
                        if c < 117 {
                            if c < 115 {
                                456
                            } else {
                                if c < 116 {
                                    458
                                } else {
                                    460
                                }
                            }
                        } else {
                            if c < 119 {
                                if c < 118 {
                                    462
                                } else {
                                    464
                                }
                            } else {
                                if c < 120 {
                                    466
                                } else {
                                    468
                                }
                            }
                        }
                    }
                } else {
                    if c < 128 {
                        if c < 124 {
                            if c < 122 {
                                470
                            } else {
                                if c < 123 {
                                    472
                                } else {
                                    474
                                }
                            }
                        } else {
                            if c < 126 {
                                if c < 125 {
                                    476
                                } else {
                                    478
                                }
                            } else {
                                if c < 127 {
                                    480
                                } else {
                                    482
                                }
                            }
                        }
                    } else {
                        if c < 131 {
                            if c < 129 {
                                484
                            } else {
                                if c < 130 {
                                    486
                                } else {
                                    488
                                }
                            }
                        } else {
                            if c < 133 {
                                if c < 132 {
                                    492
                                } else {
                                    504
                                }
                            } else {
                                if c < 134 {
                                    506
                                } else {
                                    508
                                }
                            }
                        }
                    }
                }
            } else {
                if c < 148 {
                    if c < 141 {
                        if c < 138 {
                            if c < 136 {
                                510
                            } else {
                                if c < 137 {
                                    512
                                } else {
                                    516
                                }
                            }
                        } else {
                            if c < 139 {
                                576
                            } else {
                                if c < 140 {
                                    577
                                } else {
                                    579
                                }
                            }
                        }
                    } else {
                        if c < 144 {
                            if c < 142 {
                                582
                            } else {
                                if c < 143 {
                                    583
                                } else {
                                    585
                                }
                            }
                        } else {
                            if c < 146 {
                                if c < 145 {
                                    588
                                } else {
                                    589
                                }
                            } else {
                                if c < 147 {
                                    591
                                } else {
                                    594
                                }
                            }
                        }
                    }
                } else {
                    if c < 155 {
                        if c < 151 {
                            if c < 149 {
                                595
                            } else {
                                if c < 150 {
                                    597
                                } else {
                                    624
                                }
                            }
                        } else {
                            if c < 153 {
                                if c < 152 {
                                    625
                                } else {
                                    627
                                }
                            } else {
                                if c < 154 {
                                    630
                                } else {
                                    631
                                }
                            }
                        }
                    } else {
                        if c < 158 {
                            if c < 156 {
                                633
                            } else {
                                if c < 157 {
                                    636
                                } else {
                                    637
                                }
                            }
                        } else {
                            if c < 160 {
                                if c < 159 {
                                    639
                                } else {
                                    642
                                }
                            } else {
                                if c < 161 {
                                    643
                                } else {
                                    645
                                }
                            }
                        }
                    }
                }
            }
        } else {
            if c < 189 {
                if c < 175 {
                    if c < 168 {
                        if c < 165 {
                            if c < 163 {
                                648
                            } else {
                                if c < 164 {
                                    649
                                } else {
                                    651
                                }
                            }
                        } else {
                            if c < 166 {
                                654
                            } else {
                                if c < 167 {
                                    655
                                } else {
                                    657
                                }
                            }
                        }
                    } else {
                        if c < 171 {
                            if c < 169 {
                                660
                            } else {
                                if c < 170 {
                                    661
                                } else {
                                    663
                                }
                            }
                        } else {
                            if c < 173 {
                                if c < 172 {
                                    666
                                } else {
                                    667
                                }
                            } else {
                                if c < 174 {
                                    669
                                } else {
                                    720
                                }
                            }
                        }
                    }
                } else {
                    if c < 182 {
                        if c < 178 {
                            if c < 176 {
                                721
                            } else {
                                if c < 177 {
                                    723
                                } else {
                                    726
                                }
                            }
                        } else {
                            if c < 180 {
                                if c < 179 {
                                    729
                                } else {
                                    735
                                }
                            } else {
                                if c < 181 {
                                    840
                                } else {
                                    841
                                }
                            }
                        }
                    } else {
                        if c < 185 {
                            if c < 183 {
                                842
                            } else {
                                if c < 184 {
                                    843
                                } else {
                                    844
                                }
                            }
                        } else {
                            if c < 187 {
                                if c < 186 {
                                    845
                                } else {
                                    847
                                }
                            } else {
                                if c < 188 {
                                    848
                                } else {
                                    850
                                }
                            }
                        }
                    }
                }
            } else {
                if c < 202 {
                    if c < 195 {
                        if c < 192 {
                            if c < 190 {
                                851
                            } else {
                                if c < 191 {
                                    854
                                } else {
                                    857
                                }
                            }
                        } else {
                            if c < 193 {
                                864
                            } else {
                                if c < 194 {
                                    865
                                } else {
                                    866
                                }
                            }
                        }
                    } else {
                        if c < 198 {
                            if c < 196 {
                                867
                            } else {
                                if c < 197 {
                                    868
                                } else {
                                    869
                                }
                            }
                        } else {
                            if c < 200 {
                                if c < 199 {
                                    871
                                } else {
                                    872
                                }
                            } else {
                                if c < 201 {
                                    874
                                } else {
                                    875
                                }
                            }
                        }
                    }
                } else {
                    if c < 209 {
                        if c < 205 {
                            if c < 203 {
                                878
                            } else {
                                if c < 204 {
                                    881
                                } else {
                                    912
                                }
                            }
                        } else {
                            if c < 207 {
                                if c < 206 {
                                    913
                                } else {
                                    914
                                }
                            } else {
                                if c < 208 {
                                    915
                                } else {
                                    916
                                }
                            }
                        }
                    } else {
                        if c < 212 {
                            if c < 210 {
                                917
                            } else {
                                if c < 211 {
                                    919
                                } else {
                                    920
                                }
                            }
                        } else {
                            if c < 214 {
                                if c < 213 {
                                    922
                                } else {
                                    923
                                }
                            } else {
                                if c < 215 {
                                    926
                                } else {
                                    929
                                }
                            }
                        }
                    }
                }
            }
        }
    }
}

/// The class whose first chart has a signature of weight `x`.
pub open spec fn class_of_weight(x: int) -> int {
    if x < 28139184 {
        if x < 20117430 {
            if x < 14340672 {
                if x < 10765332 {
                    if x < 5023377 {
                        if x < 4495311 {
                            if x < 3611736 {
                                210
                            } else {
                                if x < 4207140 {
                                    51
                                } else {
                                    130
                                }
                            }
                        } else {
                            if x < 4521015 {
                                212
                            } else {
                                if x < 4735206 {
                                    186
                                } else {
                                    198
                                }
                            }
                        }
                    } else {
                        if x < 6357150 {
                            if x < 5404590 {
                                188
                            } else {
                                if x < 5932656 {
                                    200
                                } else {
                                    177
                                }
                            }
                        } else {
                            if x < 9400077 {
                                if x < 8540478 {
                                    154
                                } else {
                                    169
                                }
                            } else {
                                if x < 10146060 {
                                    166
                                } else {
                                    157
                                }
                            }
                        }
                    }
                } else {
                    if x < 13110876 {
                        if x < 11595258 {
                            if x < 10863909 {
                                119
                            } else {
                                if x < 11382660 {
                                    107
                                } else {
                                    4
                                }
                            }
                        } else {
                            if x < 12433662 {
                                if x < 12143250 {
                                    77
                                } else {
                                    88
                                }
                            } else {
                                if x < 13076910 {
                                    211
                                } else {
                                    40
                                }
                            }
                        }
                    } else {
                        if x < 13568580 {
                            if x < 13179645 {
                                80
                            } else {
                                if x < 13528350 {
                                    172
                                } else {
                                    110
                                }
                            }
                        } else {
                            if x < 13835448 {
                                if x < 13787820 {
                                    43
                                } else {
                                    31
                                }
                            } else {
                                if x < 14161392 {
                                    87
                                } else {
                                    3
                                }
                            }
                        }
                    }
                }
            } else {
                if x < 17333622 {
                    if x < 15362973 {
                        if x < 15084279 {
                            if x < 14616990 {
                                52
                            } else {
                                if x < 14756688 {
                                    160
                                } else {
                                    122
                                }
                            }
                        } else {
                            if x < 15152832 {
                                19
                            } else {
                                if x < 15226920 {
                                    28
                                } else {
                                    129
                                }
                            }
                        }
                    } else {
                        if x < 15832476 {
                            if x < 15528780 {
                                214
                            } else {
                                if x < 15644394 {
                                    199
                                } else {
                                    187
                                }
                            }
                        } else {
                            if x < 17168760 {
                                if x < 17133930 {
                                    7
                                } else {
                                    213
                                }
                            } else {
                                if x < 17184825 {
                                    155
                                } else {
                                    16
                                }
                            }
                        }
                    }
                } else {
                    if x < 19368882 {
                        if x < 18437652 {
                            if x < 17435790 {
                                202
                            } else {
                                if x < 17804934 {
                                    189
                                } else {
                                    91
                                }
                            }
                        } else {
                            if x < 18776151 {
                                if x < 18739512 {
                                    201
                                } else {
                                    178
                                }
                            } else {
                                if x < 19186902 {
                                    190
                                } else {
                                    89
                                }
                            }
                        }
                    } else {
                        if x < 19645200 {
                            if x < 19507500 {
                                83
                            } else {
                                if x < 19621548 {
                                    131
                                } else {
                                    5
                                }
                            }
                        } else {
                            if x < 19853640 {
                                if x < 19682757 {
                                    53
                                } else {
                                    113
                                }
                            } else {
                                if x < 19880802 {
                                    69
                                } else {
                                    66
                                }
                            }
                        }
                    }
                }
            }
        } else {
            if x < 24016311 {
                if x < 21683916 {
                    if x < 21165165 {
                        if x < 20447046 {
                            if x < 20318202 {
                                46
                            } else {
                                if x < 20331621 {
                                    71
                                } else {
                                    170
                                }
                            }
                        } else {
                            if x < 20746800 {
                                90
                            } else {
                                if x < 20760219 {
                                    179
                                } else {
                                    146
                                }
                            }
                        }
                    } else {
                        if x < 21438000 {
                            if x < 21240900 {
                                141
                            } else {
                                if x < 21258720 {
                                    125
                                } else {
                                    117
                                }
                            }
                        } else {
                            if x < 21615849 {
                                if x < 21450204 {
                                    27
                                } else {
                                    6
                                }
                            } else {
                                if x < 21639690 {
                                    191
                                } else {
                                    153
                                }
                            }
                        }
                    }
                } else {
                    if x < 23075388 {
                        if x < 22732704 {
                            if x < 21823452 {
                                105
                            } else {
                                if x < 22651731 {
                                    143
                                } else {
                                    144
                                }
                            }
                        } else {
                            if x < 22923756 {
                                if x < 22920678 {
                                    34
                                } else {
                                    203
                                }
                            } else {
                                if x < 22937580 {
                                    118
                                } else {
                                    167
                                }
                            }
                        }
                    } else {
                        if x < 23438376 {
                            if x < 23313420 {
                                15
                            } else {
                                if x < 23340690 {
                                    22
                                } else {
                                    63
                                }
                            }
                        } else {
                            if x < 23603400 {
                                if x < 23491350 {
                                    75
                                } else {
                                    158
                                }
                            } else {
                                if x < 23789727 {
                                    56
                                } else {
                                    215
                                }
                            }
                        }
                    }
                }
            } else {
                if x < 26317440 {
                    if x < 25120935 {
                        if x < 24583932 {
                            if x < 24017634 {
                                18
                            } else {
                                if x < 24167430 {
                                    78
                                } else {
                                    44
                                }
                            }
                        } else {
                            if x < 24955857 {
                                30
                            } else {
                                if x < 24995574 {
                                    108
                                } else {
                                    61
                                }
                            }
                        }
                    } else {
                        if x < 25328916 {
                            if x < 25260876 {
                                106
                            } else {
                                if x < 25273080 {
                                    60
                                } else {
                                    41
                                }
                            }
                        } else {
                            if x < 25741044 {
                                if x < 25532010 {
                                    99
                                } else {
                                    145
                                }
                            } else {
                                if x < 26008560 {
                                    136
                                } else {
                                    121
                                }
                            }
                        }
                    }
                } else {
                    if x < 26763048 {
                        if x < 26516781 {
                            if x < 26388936 {
                                55
                            } else {
                                if x < 26496720 {
                                    120
                                } else {
                                    10
                                }
                            }
                        } else {
                            if x < 26565489 {
                                if x < 26530200 {
                                    149
                                } else {
                                    59
                                }
                            } else {
                                if x < 26667900 {
                                    21
                                } else {
                                    134
                                }
                            }
                        }
                    } else {
                        if x < 27183303 {
                            if x < 27096498 {
                                135
                            } else {
                                if x < 27136620 {
                                    68
                                } else {
                                    92
                                }
                            }
                        } else {
                            if x < 28061964 {
                                if x < 27512568 {
                                    142
                                } else {
                                    33
                                }
                            } else {
                                if x < 28105920 {
                                    98
                                } else {
                                    8
                                }
                            }
                        }
                    }
                }
            }
        }
    } else {
        if x < 40898412 {
            if x < 32964840 {
                if x < 30548016 {
                    if x < 29696382 {
                        if x < 29033154 {
                            if x < 28154520 {
                                29
                            } else {
                                if x < 28682073 {
                                    94
                                } else {
                                    109
                                }
                            }
                        } else {
                            if x < 29277180 {
                                93
                            } else {
                                if x < 29406996 {
                                    147
                                } else {
                                    9
                                }
                            }
                        }
                    } else {
                        if x < 29843370 {
                            if x < 29761479 {
                                76
                            } else {
                                if x < 29830032 {
                                    148
                                } else {
                                    100
                                }
                            }
                        } else {
                            if x < 29972700 {
                                if x < 29911707 {
                                    20
                                } else {
                                    17
                                }
                            } else {
                                if x < 30360744 {
                                    137
                                } else {
                                    65
                                }
                            }
                        }
                    }
                } else {
                    if x < 31751190 {
                        if x < 31161888 {
                            if x < 30876390 {
                                32
                            } else {
                                if x < 31074300 {
                                    62
                                } else {
                                    97
                                }
                            }
                        } else {
                            if x < 31212000 {
                                if x < 31207950 {
                                    96
                                } else {
                                    42
                                }
                            } else {
                                if x < 31474872 {
                                    54
                                } else {
                                    133
                                }
                            }
                        }
                    } else {
                        if x < 32361120 {
                            if x < 31791258 {
                                156
                            } else {
                                if x < 31821930 {
                                    79
                                } else {
                                    39
                                }
                            }
                        } else {
                            if x < 32473170 {
                                if x < 32451300 {
                                    58
                                } else {
                                    101
                                }
                            } else {
                                if x < 32866479 {
                                    47
                                } else {
                                    173
                                }
                            }
                        }
                    }
                }
            } else {
                if x < 37884240 {
                    if x < 35676531 {
                        if x < 35113311 {
                            if x < 33724566 {
                                45
                            } else {
                                if x < 34888752 {
                                    81
                                } else {
                                    124
                                }
                            }
                        } else {
                            if x < 35240184 {
                                165
                            } else {
                                if x < 35611029 {
                                    82
                                } else {
                                    207
                                }
                            }
                        }
                    } else {
                        if x < 36241020 {
                            if x < 36091143 {
                                23
                            } else {
                                if x < 36164799 {
                                    111
                                } else {
                                    164
                                }
                            }
                        } else {
                            if x < 37274364 {
                                if x < 36995400 {
                                    112
                                } else {
                                    49
                                }
                            } else {
                                if x < 37288836 {
                                    123
                                } else {
                                    132
                                }
                            }
                        }
                    }
                } else {
                    if x < 39619071 {
                        if x < 38773890 {
                            if x < 38088360 {
                                57
                            } else {
                                if x < 38234700 {
                                    35
                                } else {
                                    128
                                }
                            }
                        } else {
                            if x < 39216906 {
                                if x < 39172923 {
                                    152
                                } else {
                                    183
                                }
                            } else {
                                if x < 39327660 {
                                    195
                                } else {
                                    208
                                }
                            }
                        }
                    } else {
                        if x < 40034250 {
                            if x < 39882888 {
                                204
                            } else {
                                if x < 39930516 {
                                    196
                                } else {
                                    26
                                }
                            }
                        } else {
                            if x < 40601277 {
                                if x < 40059765 {
                                    161
                                } else {
                                    168
                                }
                            } else {
                                if x < 40774293 {
                                    180
                                } else {
                                    14
                                }
                            }
                        }
                    }
                }
            }
        } else {
            if x < 45821160 {
                if x < 43438302 {
                    if x < 42252408 {
                        if x < 41697180 {
                            if x < 41286726 {
                                171
                            } else {
                                if x < 41300145 {
                                    95
                                } else {
                                    140
                                }
                            }
                        } else {
                            if x < 41796594 {
                                184
                            } else {
                                if x < 42118758 {
                                    192
                                } else {
                                    72
                                }
                            }
                        }
                    } else {
                        if x < 42778800 {
                            if x < 42322878 {
                                174
                            } else {
                                if x < 42570684 {
                                    70
                                } else {
                                    11
                                }
                            }
                        } else {
                            if x < 42934995 {
                                if x < 42912450 {
                                    175
                                } else {
                                    38
                                }
                            } else {
                                if x < 43037838 {
                                    102
                                } else {
                                    138
                                }
                            }
                        }
                    }
                } else {
                    if x < 44452476 {
                        if x < 43754580 {
                            if x < 43451640 {
                                13
                            } else {
                                if x < 43563690 {
                                    127
                                } else {
                                    37
                                }
                            }
                        } else {
                            if x < 43897248 {
                                if x < 43823160 {
                                    67
                                } else {
                                    159
                                }
                            } else {
                                if x < 43904052 {
                                    48
                                } else {
                                    2
                                }
                            }
                        }
                    } else {
                        if x < 44669340 {
                            if x < 44511120 {
                                181
                            } else {
                                if x < 44540010 {
                                    25
                                } else {
                                    162
                                }
                            }
                        } else {
                            if x < 45567684 {
                                if x < 44705304 {
                                    36
                                } else {
                                    114
                                }
                            } else {
                                if x < 45715698 {
                                    73
                                } else {
                                    86
                                }
                            }
                        }
                    }
                }
            } else {
                if x < 49391748 {
                    if x < 47755926 {
                        if x < 46839168 {
                            if x < 46146942 {
                                193
                            } else {
                                if x < 46807497 {
                                    74
                                } else {
                                    139
                                }
                            }
                        } else {
                            if x < 46932885 {
                                116
                            } else {
                                if x < 47458224 {
                                    12
                                } else {
                                    176
                                }
                            }
                        }
                    } else {
                        if x < 48021228 {
                            if x < 47776554 {
                                64
                            } else {
                                if x < 47789892 {
                                    103
                                } else {
                                    85
                                }
                            }
                        } else {
                            if x < 48255291 {
                                if x < 48152448 {
                                    205
                                } else {
                                    1
                                }
                            } else {
                                if x < 48766320 {
                                    104
                                } else {
                                    115
                                }
                            }
                        }
                    }
                } else {
                    if x < 54218754 {
                        if x < 51784623 {
                            if x < 50519970 {
                                24
                            } else {
                                if x < 50845860 {
                                    197
                                } else {
                                    150
                                }
                            }
                        } else {
                            if x < 53282610 {
                                if x < 52705053 {
                                    163
                                } else {
                                    185
                                }
                            } else {
                                if x < 54171315 {
                                    84
                                } else {
                                    182
                                }
                            }
                        }
                    } else {
                        if x < 57168450 {
                            if x < 54731700 {
                                194
                            } else {
                                if x < 55766799 {
                                    0
                                } else {
                                    209
                                }
                            }
                        } else {
                            if x < 59418144 {
                                if x < 57280500 {
                                    151
                                } else {
                                    126
                                }
                            } else {
                                if x < 60931845 {
                                    50
                                } else {
                                    206
                                }
                            }
                        }
                    }
                }
            }
        }
    }
}

/// The corner codes of atlas word 0.
pub proof fn lemma_codes_of_word_0(p: [usize; 4])
    ensures
        corner_codes_spec([(0, 1), (1, 2), (2, 3)], p, 0) == p[1] as int + 4 * (p[2] as int) + 16 * (p[3] as int) + 64 * (p[0] as int),
        corner_codes_spec([(0, 1), (1, 2), (2, 3)], p, 1) == p[0] as int + 4 * (p[2] as int) + 16 * (p[3] as int) + 64 * (p[1] as int),
        corner_codes_spec([(0, 1), (1, 2), (2, 3)], p, 2) == p[1] as int + 4 * (p[0] as int) + 16 * (p[3] as int) + 64 * (p[2] as int),
        corner_codes_spec([(0, 1), (1, 2), (2, 3)], p, 3) == p[1] as int + 4 * (p[2] as int) + 16 * (p[0] as int) + 64 * (p[3] as int),
        corner_codes_spec([(0, 1), (1, 2), (2, 3)], p, 4) == p[0] as int + 4 * (p[1] as int) + 16 * (p[3] as int) + 64 * (p[2] as int),
        corner_codes_spec([(0, 1), (1, 2), (2, 3)], p, 5) == p[0] as int + 4 * (p[2] as int) + 16 * (p[1] as int) + 64 * (p[3] as int),
        corner_codes_spec([(0, 1), (1, 2), (2, 3)], p, 6) == p[1] as int + 4 * (p[0] as int) + 16 * (p[2] as int) + 64 * (p[3] as int),
        corner_codes_spec([(0, 1), (1, 2), (2, 3)], p, 7) == p[0] as int + 4 * (p[1] as int) + 16 * (p[2] as int) + 64 * (p[3] as int),
{
    reveal_with_fuel(corner_order_upto, 4);
    broadcast use vstd::array::group_array_axioms;
}

/// The corner codes of atlas word 1.
pub proof fn lemma_codes_of_word_1(p: [usize; 4])
    ensures
        corner_codes_spec([(0, 1), (0, 2), (0, 3)], p, 0) == p[3] as int + 4 * (p[0] as int) + 16 * (p[1] as int) + 64 * (p[2] as int),
        corner_codes_spec([(0, 1), (0, 2), (0, 3)], p, 1) == p[3] as int + 4 * (p[1] as int) + 16 * (p[0] as int) + 64 * (p[2] as int),
        corner_codes_spec([(0, 1), (0, 2), (0, 3)], p, 2) == p[3] as int + 4 * (p[0] as int) + 16 * (p[2] as int) + 64 * (p[1] as int),
        corner_codes_spec([(0, 1), (0, 2), (0, 3)], p, 3) == p[2] as int + 4 * (p[0] as int) + 16 * (p[1] as int) + 64 * (p[3] as int),
        corner_codes_spec([(0, 1), (0, 2), (0, 3)], p, 4) == p[3] as int + 4 * (p[1] as int) + 16 * (p[2] as int) + 64 * (p[0] as int),
        corner_codes_spec([(0, 1), (0, 2), (0, 3)], p, 5) == p[2] as int + 4 * (p[1] as int) + 16 * (p[0] as int) + 64 * (p[3] as int),
        corner_codes_spec([(0, 1), (0, 2), (0, 3)], p, 6) == p[1] as int + 4 * (p[0] as int) + 16 * (p[2] as int) + 64 * (p[3] as int),
        corner_codes_spec([(0, 1), (0, 2), (0, 3)], p, 7) == p[0] as int + 4 * (p[1] as int) + 16 * (p[2] as int) + 64 * (p[3] as int),
{
    reveal_with_fuel(corner_order_upto, 4);
    broadcast use vstd::array::group_array_axioms;
}

/// The corner codes of atlas word 2.
pub proof fn lemma_codes_of_word_2(p: [usize; 4])
    ensures
        corner_codes_spec([(0, 1), (1, 2), (1, 3)], p, 0) == p[1] as int + 4 * (p[3] as int) + 16 * (p[0] as int) + 64 * (p[2] as int),
        corner_codes_spec([(0, 1), (1, 2), (1, 3)], p, 1) == p[0] as int + 4 * (p[3] as int) + 16 * (p[1] as int) + 64 * (p[2] as int),
        corner_codes_spec([(0, 1), (1, 2), (1, 3)], p, 2) == p[1] as int + 4 * (p[3] as int) + 16 * (p[2] as int) + 64 * (p[0] as int),
        corner_codes_spec([(0, 1), (1, 2), (1, 3)], p, 3) == p[1] as int + 4 * (p[2] as int) + 16 * (p[0] as int) + 64 * (p[3] as int),
        corner_codes_spec([(0, 1), (1, 2), (1, 3)], p, 4) == p[0] as int + 4 * (p[3] as int) + 16 * (p[2] as int) + 64 * (p[1] as int),
        corner_codes_spec([(0, 1), (1, 2), (1, 3)], p, 5) == p[0] as int + 4 * (p[2] as int) + 16 * (p[1] as int) + 64 * (p[3] as int),
        corner_codes_spec([(0, 1), (1, 2), (1, 3)], p, 6) == p[1] as int + 4 * (p[0] as int) + 16 * (p[2] as int) + 64 * (p[3] as int),
        corner_codes_spec([(0, 1), (1, 2), (1, 3)], p, 7) == p[0] as int + 4 * (p[1] as int) + 16 * (p[2] as int) + 64 * (p[3] as int),
{
    reveal_with_fuel(corner_order_upto, 4);
    broadcast use vstd::array::group_array_axioms;
}

/// The corner codes of atlas word 3.
pub proof fn lemma_codes_of_word_3(p: [usize; 4])
    ensures
        corner_codes_spec([(0, 2), (0, 3), (1, 2)], p, 0) == p[3] as int + 4 * (p[0] as int) + 16 * (p[1] as int) + 64 * (p[2] as int),
        corner_codes_spec([(0, 2), (0, 3), (1, 2)], p, 1) == p[3] as int + 4 * (p[2] as int) + 16 * (p[1] as int) + 64 * (p[0] as int),
        corner_codes_spec([(0, 2), (0, 3), (1, 2)], p, 2) == p[2] as int + 4 * (p[0] as int) + 16 * (p[1] as int) + 64 * (p[3] as int),
        corner_codes_spec([(0, 2), (0, 3), (1, 2)], p, 3) == p[3] as int + 4 * (p[1] as int) + 16 * (p[0] as int) + 64 * (p[2] as int),
        corner_codes_spec([(0, 2), (0, 3), (1, 2)], p, 4) == p[0] as int + 4 * (p[2] as int) + 16 * (p[1] as int) + 64 * (p[3] as int),
        corner_codes_spec([(0, 2), (0, 3), (1, 2)], p, 5) == p[3] as int + 4 * (p[1] as int) + 16 * (p[2] as int) + 64 * (p[0] as int),
        corner_codes_spec([(0, 2), (0, 3), (1, 2)], p, 6) == p[2] as int + 4 * (p[1] as int) + 16 * (p[0] as int) + 64 * (p[3] as int),
        corner_codes_spec([(0, 2), (0, 3), (1, 2)], p, 7) == p[0] as int + 4 * (p[1] as int) + 16 * (p[2] as int) + 64 * (p[3] as int),
{
    reveal_with_fuel(corner_order_upto, 4);
    broadcast use vstd::array::group_array_axioms;
}

/// The corner codes of atlas word 4.
pub proof fn lemma_codes_of_word_4(p: [usize; 4])
    ensures
        corner_codes_spec([(0, 2), (1, 3), (1, 2)], p, 0) == p[2] as int + 4 * (p[0] as int) + 16 * (p[3] as int) + 64 * (p[1] as int),
        corner_codes_spec([(0, 2), (1, 3), (1, 2)], p, 1) == p[0] as int + 4 * (p[2] as int) + 16 * (p[3] as int) + 64 * (p[1] as int),
        corner_codes_spec([(0, 2), (1, 3), (1, 2)], p, 2) == p[2] as int + 4 * (p[0] as int) + 16 * (p[1] as int) + 64 * (p[3] as int),
        corner_codes_spec([(0, 2), (1, 3), (1, 2)], p, 3) == p[2] as int + 4 * (p[3] as int) + 16 * (p[0] as int) + 64 * (p[1] as int),
        corner_codes_spec([(0, 2), (1, 3), (1, 2)], p, 4) == p[0] as int + 4 * (p[2] as int) + 16 * (p[1] as int) + 64 * (p[3] as int),
        corner_codes_spec([(0, 2), (1, 3), (1, 2)], p, 5) == p[0] as int + 4 * (p[3] as int) + 16 * (p[2] as int) + 64 * (p[1] as int),
        corner_codes_spec([(0, 2), (1, 3), (1, 2)], p, 6) == p[2] as int + 4 * (p[1] as int) + 16 * (p[0] as int) + 64 * (p[3] as int),
        corner_codes_spec([(0, 2), (1, 3), (1, 2)], p, 7) == p[0] as int + 4 * (p[1] as int) + 16 * (p[2] as int) + 64 * (p[3] as int),
{
    reveal_with_fuel(corner_order_upto, 4);
    broadcast use vstd::array::group_array_axioms;
}

/// The corner codes of atlas word 5.
pub proof fn lemma_codes_of_word_5(p: [usize; 4])
    ensures
        corner_codes_spec([(0, 3), (1, 2), (1, 3)], p, 0) == p[3] as int + 4 * (p[0] as int) + 16 * (p[1] as int) + 64 * (p[2] as int),
        corner_codes_spec([(0, 3), (1, 2), (1, 3)], p, 1) == p[0] as int + 4 * (p[3] as int) + 16 * (p[1] as int) + 64 * (p[2] as int),
        corner_codes_spec([(0, 3), (1, 2), (1, 3)], p, 2) == p[3] as int + 4 * (p[0] as int) + 16 * (p[2] as int) + 64 * (p[1] as int),
        corner_codes_spec([(0, 3), (1, 2), (1, 3)], p, 3) == p[3] as int + 4 * (p[2] as int) + 16 * (p[1] as int) + 64 * (p[0] as int),
        corner_codes_spec([(0, 3), (1, 2), (1, 3)], p, 4) == p[0] as int + 4 * (p[3] as int) + 16 * (p[2] as int) + 64 * (p[1] as int),
        corner_codes_spec([(0, 3), (1, 2), (1, 3)], p, 5) == p[0] as int + 4 * (p[2] as int) + 16 * (p[1] as int) + 64 * (p[3] as int),
        corner_codes_spec([(0, 3), (1, 2), (1, 3)], p, 6) == p[3] as int + 4 * (p[1] as int) + 16 * (p[2] as int) + 64 * (p[0] as int),
        corner_codes_spec([(0, 3), (1, 2), (1, 3)], p, 7) == p[0] as int + 4 * (p[1] as int) + 16 * (p[2] as int) + 64 * (p[3] as int),
{
    reveal_with_fuel(corner_order_upto, 4);
    broadcast use vstd::array::group_array_axioms;
}

/// The corner codes of atlas word 6.
pub proof fn lemma_codes_of_word_6(p: [usize; 4])
    ensures
        corner_codes_spec([(0, 2), (0, 3), (1, 3)], p, 0) == p[3] as int + 4 * (p[2] as int) + 16 * (p[0] as int) + 64 * (p[1] as int),
        corner_codes_spec([(0, 2), (0, 3), (1, 3)], p, 1) == p[3] as int + 4 * (p[0] as int) + 16 * (p[2] as int) + 64 * (p[1] as int),
        corner_codes_spec([(0, 2), (0, 3), (1, 3)], p, 2) == p[2] as int + 4 * (p[3] as int) + 16 * (p[0] as int) + 64 * (p[1] as int),
        corner_codes_spec([(0, 2), (0, 3), (1, 3)], p, 3) == p[3] as int + 4 * (p[1] as int) + 16 * (p[0] as int) + 64 * (p[2] as int),
        corner_codes_spec([(0, 2), (0, 3), (1, 3)], p, 4) == p[0] as int + 4 * (p[3] as int) + 16 * (p[2] as int) + 64 * (p[1] as int),
        corner_codes_spec([(0, 2), (0, 3), (1, 3)], p, 5) == p[3] as int + 4 * (p[1] as int) + 16 * (p[2] as int) + 64 * (p[0] as int),
        corner_codes_spec([(0, 2), (0, 3), (1, 3)], p, 6) == p[2] as int + 4 * (p[1] as int) + 16 * (p[0] as int) + 64 * (p[3] as int),
        corner_codes_spec([(0, 2), (0, 3), (1, 3)], p, 7) == p[0] as int + 4 * (p[1] as int) + 16 * (p[2] as int) + 64 * (p[3] as int),
{
    reveal_with_fuel(corner_order_upto, 4);
    broadcast use vstd::array::group_array_axioms;
}

/// The corner codes of atlas word 7.
pub proof fn lemma_codes_of_word_7(p: [usize; 4])
    ensures
        corner_codes_spec([(0, 1), (0, 2), (1, 3)], p, 0) == p[2] as int + 4 * (p[3] as int) + 16 * (p[1] as int) + 64 * (p[0] as int),
        corner_codes_spec([(0, 1), (0, 2), (1, 3)], p, 1) == p[2] as int + 4 * (p[3] as int) + 16 * (p[0] as int) + 64 * (p[1] as int),
        corner_codes_spec([(0, 1), (0, 2), (1, 3)], p, 2) == p[1] as int + 4 * (p[3] as int) + 16 * (p[2] as int) + 64 * (p[0] as int),
        corner_codes_spec([(0, 1), (0, 2), (1, 3)], p, 3) == p[2] as int + 4 * (p[0] as int) + 16 * (p[1] as int) + 64 * (p[3] as int),
        corner_codes_spec([(0, 1), (0, 2), (1, 3)], p, 4) == p[0] as int + 4 * (p[3] as int) + 16 * (p[2] as int) + 64 * (p[1] as int),
        corner_codes_spec([(0, 1), (0, 2), (1, 3)], p, 5) == p[2] as int + 4 * (p[1] as int) + 16 * (p[0] as int) + 64 * (p[3] as int),
        corner_codes_spec([(0, 1), (0, 2), (1, 3)], p, 6) == p[1] as int + 4 * (p[0] as int) + 16 * (p[2] as int) + 64 * (p[3] as int),
        corner_codes_spec([(0, 1), (0, 2), (1, 3)], p, 7) == p[0] as int + 4 * (p[1] as int) + 16 * (p[2] as int) + 64 * (p[3] as int),
{
    reveal_with_fuel(corner_order_upto, 4);
    broadcast use vstd::array::group_array_axioms;
}

/// The corner codes of atlas word 8.
pub proof fn lemma_codes_of_word_8(p: [usize; 4])
    ensures
        corner_codes_spec([(0, 1), (0, 2), (2, 3)], p, 0) == p[2] as int + 4 * (p[0] as int) + 16 * (p[3] as int) + 64 * (p[1] as int),
        corner_codes_spec([(0, 1), (0, 2), (2, 3)], p, 1) == p[2] as int + 4 * (p[1] as int) + 16 * (p[3] as int) + 64 * (p[0] as int),
        corner_codes_spec([(0, 1), (0, 2), (2, 3)], p, 2) == p[1] as int + 4 * (p[0] as int) + 16 * (p[3] as int) + 64 * (p[2] as int),
        corner_codes_spec([(0, 1), (0, 2), (2, 3)], p, 3) == p[2] as int + 4 * (p[0] as int) + 16 * (p[1] as int) + 64 * (p[3] as int),
        corner_codes_spec([(0, 1), (0, 2), (2, 3)], p, 4) == p[0] as int + 4 * (p[1] as int) + 16 * (p[3] as int) + 64 * (p[2] as int),
        corner_codes_spec([(0, 1), (0, 2), (2, 3)], p, 5) == p[2] as int + 4 * (p[1] as int) + 16 * (p[0] as int) + 64 * (p[3] as int),
        corner_codes_spec([(0, 1), (0, 2), (2, 3)], p, 6) == p[1] as int + 4 * (p[0] as int) + 16 * (p[2] as int) + 64 * (p[3] as int),
        corner_codes_spec([(0, 1), (0, 2), (2, 3)], p, 7) == p[0] as int + 4 * (p[1] as int) + 16 * (p[2] as int) + 64 * (p[3] as int),
{
    reveal_with_fuel(corner_order_upto, 4);
    broadcast use vstd::array::group_array_axioms;
}

/// The corner codes of atlas word 9.
pub proof fn lemma_codes_of_word_9(p: [usize; 4])
    ensures
        corner_codes_spec([(0, 1), (0, 3), (1, 2)], p, 0) == p[3] as int + 4 * (p[2] as int) + 16 * (p[0] as int) + 64 * (p[1] as int),
        corner_codes_spec([(0, 1), (0, 3), (1, 2)], p, 1) == p[3] as int + 4 * (p[2] as int) + 16 * (p[1] as int) + 64 * (p[0] as int),
        corner_codes_spec([(0, 1), (0, 3), (1, 2)], p, 2) == p[1] as int + 4 * (p[2] as int) + 16 * (p[0] as int) + 64 * (p[3] as int),
        corner_codes_spec([(0, 1), (0, 3), (1, 2)], p, 3) == p[3] as int + 4 * (p[0] as int) + 16 * (p[2] as int) + 64 * (p[1] as int),
        corner_codes_spec([(0, 1), (0, 3), (1, 2)], p, 4) == p[0] as int + 4 * (p[2] as int) + 16 * (p[1] as int) + 64 * (p[3] as int),
        corner_codes_spec([(0, 1), (0, 3), (1, 2)], p, 5) == p[3] as int + 4 * (p[1] as int) + 16 * (p[2] as int) + 64 * (p[0] as int),
        corner_codes_spec([(0, 1), (0, 3), (1, 2)], p, 6) == p[1] as int + 4 * (p[0] as int) + 16 * (p[2] as int) + 64 * (p[3] as int),
        corner_codes_spec([(0, 1), (0, 3), (1, 2)], p, 7) == p[0] as int + 4 * (p[1] as int) + 16 * (p[2] as int) + 64 * (p[3] as int),
{
    reveal_with_fuel(corner_order_upto, 4);
    broadcast use vstd::array::group_array_axioms;
}

/// The corner codes of atlas word 10.
pub proof fn lemma_codes_of_word_10(p: [usize; 4])
    ensures
        corner_codes_spec([(0, 1), (0, 3), (2, 3)], p, 0) == p[3] as int + 4 * (p[0] as int) + 16 * (p[1] as int) + 64 * (p[2] as int),
        corner_codes_spec([(0, 1), (0, 3), (2, 3)], p, 1) == p[3] as int + 4 * (p[1] as int) + 16 * (p[0] as int) + 64 * (p[2] as int),
        corner_codes_spec([(0, 1), (0, 3), (2, 3)], p, 2) == p[1] as int + 4 * (p[0] as int) + 16 * (p[3] as int) + 64 * (p[2] as int),
        corner_codes_spec([(0, 1), (0, 3), (2, 3)], p, 3) == p[3] as int + 4 * (p[0] as int) + 16 * (p[2] as int) + 64 * (p[1] as int),
        corner_codes_spec([(0, 1), (0, 3), (2, 3)], p, 4) == p[0] as int + 4 * (p[1] as int) + 16 * (p[3] as int) + 64 * (p[2] as int),
        corner_codes_spec([(0, 1), (0, 3), (2, 3)], p, 5) == p[3] as int + 4 * (p[1] as int) + 16 * (p[2] as int) + 64 * (p[0] as int),
        corner_codes_spec([(0, 1), (0, 3), (2, 3)], p, 6) == p[1] as int + 4 * (p[0] as int) + 16 * (p[2] as int) + 64 * (p[3] as int),
        corner_codes_spec([(0, 1), (0, 3), (2, 3)], p, 7) == p[0] as int + 4 * (p[1] as int) + 16 * (p[2] as int) + 64 * (p[3] as int),
{
    reveal_with_fuel(corner_order_upto, 4);
    broadcast use vstd::array::group_array_axioms;
}

/// The corner codes of atlas word 11.
pub proof fn lemma_codes_of_word_11(p: [usize; 4])
    ensures
        corner_codes_spec([(0, 1), (1, 3), (2, 3)], p, 0) == p[1] as int + 4 * (p[3] as int) + 16 * (p[0] as int) + 64 * (p[2] as int),
        corner_codes_spec([(0, 1), (1, 3), (2, 3)], p, 1) == p[0] as int + 4 * (p[3] as int) + 16 * (p[1] as int) + 64 * (p[2] as int),
        corner_codes_spec([(0, 1), (1, 3), (2, 3)], p, 2) == p[1] as int + 4 * (p[0] as int) + 16 * (p[3] as int) + 64 * (p[2] as int),
        corner_codes_spec([(0, 1), (1, 3), (2, 3)], p, 3) == p[1] as int + 4 * (p[3] as int) + 16 * (p[2] as int) + 64 * (p[0] as int),
        corner_codes_spec([(0, 1), (1, 3), (2, 3)], p, 4) == p[0] as int + 4 * (p[1] as int) + 16 * (p[3] as int) + 64 * (p[2] as int),
        corner_codes_spec([(0, 1), (1, 3), (2, 3)], p, 5) == p[0] as int + 4 * (p[3] as int) + 16 * (p[2] as int) + 64 * (p[1] as int),
        corner_codes_spec([(0, 1), (1, 3), (2, 3)], p, 6) == p[1] as int + 4 * (p[0] as int) + 16 * (p[2] as int) + 64 * (p[3] as int),
        corner_codes_spec([(0, 1), (1, 3), (2, 3)], p, 7) == p[0] as int + 4 * (p[1] as int) + 16 * (p[2] as int) + 64 * (p[3] as int),
{
    reveal_with_fuel(corner_order_upto, 4);
    broadcast use vstd::array::group_array_axioms;
}

/// The corner codes of atlas word 12.
pub proof fn lemma_codes_of_word_12(p: [usize; 4])
    ensures
        corner_codes_spec([(0, 2), (1, 2), (2, 3)], p, 0) == p[2] as int + 4 * (p[0] as int) + 16 * (p[3] as int) + 64 * (p[1] as int),
        corner_codes_spec([(0, 2), (1, 2), (2, 3)], p, 1) == p[0] as int + 4 * (p[2] as int) + 16 * (p[3] as int) + 64 * (p[1] as int),
        corner_codes_spec([(0, 2), (1, 2), (2, 3)], p, 2) == p[2] as int + 4 * (p[1] as int) + 16 * (p[3] as int) + 64 * (p[0] as int),
        corner_codes_spec([(0, 2), (1, 2), (2, 3)], p, 3) == p[2] as int + 4 * (p[0] as int) + 16 * (p[1] as int) + 64 * (p[3] as int),
        corner_codes_spec([(0, 2), (1, 2), (2, 3)], p, 4) == p[0] as int + 4 * (p[1] as int) + 16 * (p[3] as int) + 64 * (p[2] as int),
        corner_codes_spec([(0, 2), (1, 2), (2, 3)], p, 5) == p[0] as int + 4 * (p[2] as int) + 16 * (p[1] as int) + 64 * (p[3] as int),
        corner_codes_spec([(0, 2), (1, 2), (2, 3)], p, 6) == p[2] as int + 4 * (p[1] as int) + 16 * (p[0] as int) + 64 * (p[3] as int),
        corner_codes_spec([(0, 2), (1, 2), (2, 3)], p, 7) == p[0] as int + 4 * (p[1] as int) + 16 * (p[2] as int) + 64 * (p[3] as int),
{
    reveal_with_fuel(corner_order_upto, 4);
    broadcast use vstd::array::group_array_axioms;
}

/// The corner codes of atlas word 13.
pub proof fn lemma_codes_of_word_13(p: [usize; 4])
    ensures
        corner_codes_spec([(0, 2), (1, 3), (2, 3)], p, 0) == p[2] as int + 4 * (p[3] as int) + 16 * (p[1] as int) + 64 * (p[0] as int),
        corner_codes_spec([(0, 2), (1, 3), (2, 3)], p, 1) == p[0] as int + 4 * (p[3] as int) + 16 * (p[1] as int) + 64 * (p[2] as int),
        corner_codes_spec([(0, 2), (1, 3), (2, 3)], p, 2) == p[2] as int + 4 * (p[1] as int) + 16 * (p[3] as int) + 64 * (p[0] as int),
        corner_codes_spec([(0, 2), (1, 3), (2, 3)], p, 3) == p[2] as int + 4 * (p[3] as int) + 16 * (p[0] as int) + 64 * (p[1] as int),
        corner_codes_spec([(0, 2), (1, 3), (2, 3)], p, 4) == p[0] as int + 4 * (p[1] as int) + 16 * (p[3] as int) + 64 * (p[2] as int),
        corner_codes_spec([(0, 2), (1, 3), (2, 3)], p, 5) == p[0] as int + 4 * (p[3] as int) + 16 * (p[2] as int) + 64 * (p[1] as int),
        corner_codes_spec([(0, 2), (1, 3), (2, 3)], p, 6) == p[2] as int + 4 * (p[1] as int) + 16 * (p[0] as int) + 64 * (p[3] as int),
        corner_codes_spec([(0, 2), (1, 3), (2, 3)], p, 7) == p[0] as int + 4 * (p[1] as int) + 16 * (p[2] as int) + 64 * (p[3] as int),
{
    reveal_with_fuel(corner_order_upto, 4);
    broadcast use vstd::array::group_array_axioms;
}

/// The corner codes of atlas word 14.
pub proof fn lemma_codes_of_word_14(p: [usize; 4])
    ensures
        corner_codes_spec([(0, 3), (1, 2), (2, 3)], p, 0) == p[3] as int + 4 * (p[2] as int) + 16 * (p[0] as int) + 64 * (p[1] as int),
        corner_codes_spec([(0, 3), (1, 2), (2, 3)], p, 1) == p[0] as int + 4 * (p[2] as int) + 16 * (p[3] as int) + 64 * (p[1] as int),
        corner_codes_spec([(0, 3), (1, 2), (2, 3)], p, 2) == p[3] as int + 4 * (p[1] as int) + 16 * (p[0] as int) + 64 * (p[2] as int),
        corner_codes_spec([(0, 3), (1, 2), (2, 3)], p, 3) == p[3] as int + 4 * (p[2] as int) + 16 * (p[1] as int) + 64 * (p[0] as int),
        corner_codes_spec([(0, 3), (1, 2), (2, 3)], p, 4) == p[0] as int + 4 * (p[1] as int) + 16 * (p[3] as int) + 64 * (p[2] as int),
        corner_codes_spec([(0, 3), (1, 2), (2, 3)], p, 5) == p[0] as int + 4 * (p[2] as int) + 16 * (p[1] as int) + 64 * (p[3] as int),
        corner_codes_spec([(0, 3), (1, 2), (2, 3)], p, 6) == p[3] as int + 4 * (p[1] as int) + 16 * (p[2] as int) + 64 * (p[0] as int),
        corner_codes_spec([(0, 3), (1, 2), (2, 3)], p, 7) == p[0] as int + 4 * (p[1] as int) + 16 * (p[2] as int) + 64 * (p[3] as int),
{
    reveal_with_fuel(corner_order_upto, 4);
    broadcast use vstd::array::group_array_axioms;
}

/// The corner codes of atlas word 15.
pub proof fn lemma_codes_of_word_15(p: [usize; 4])
    ensures
        corner_codes_spec([(0, 3), (1, 3), (2, 3)], p, 0) == p[3] as int + 4 * (p[0] as int) + 16 * (p[1] as int) + 64 * (p[2] as int),
        corner_codes_spec([(0, 3), (1, 3), (2, 3)], p, 1) == p[0] as int + 4 * (p[3] as int) + 16 * (p[1] as int) + 64 * (p[2] as int),
        corner_codes_spec([(0, 3), (1, 3), (2, 3)], p, 2) == p[3] as int + 4 * (p[1] as int) + 16 * (p[0] as int) + 64 * (p[2] as int),
        corner_codes_spec([(0, 3), (1, 3), (2, 3)], p, 3) == p[3] as int + 4 * (p[0] as int) + 16 * (p[2] as int) + 64 * (p[1] as int),
        corner_codes_spec([(0, 3), (1, 3), (2, 3)], p, 4) == p[0] as int + 4 * (p[1] as int) + 16 * (p[3] as int) + 64 * (p[2] as int),
        corner_codes_spec([(0, 3), (1, 3), (2, 3)], p, 5) == p[0] as int + 4 * (p[3] as int) + 16 * (p[2] as int) + 64 * (p[1] as int),
        corner_codes_spec([(0, 3), (1, 3), (2, 3)], p, 6) == p[3] as int + 4 * (p[1] as int) + 16 * (p[2] as int) + 64 * (p[0] as int),
        corner_codes_spec([(0, 3), (1, 3), (2, 3)], p, 7) == p[0] as int + 4 * (p[1] as int) + 16 * (p[2] as int) + 64 * (p[3] as int),
{
    reveal_with_fuel(corner_order_upto, 4);
    broadcast use vstd::array::group_array_axioms;
}

/// The corner codes of atlas word 16.
pub proof fn lemma_codes_of_word_16(p: [usize; 4])
    ensures
        corner_codes_spec([(0, 1), (0, 3), (0, 2)], p, 0) == p[2] as int + 4 * (p[0] as int) + 16 * (p[3] as int) + 64 * (p[1] as int),
        corner_codes_spec([(0, 1), (0, 3), (0, 2)], p, 1) == p[2] as int + 4 * (p[1] as int) + 16 * (p[3] as int) + 64 * (p[0] as int),
        corner_codes_spec([(0, 1), (0, 3), (0, 2)], p, 2) == p[2] as int + 4 * (p[0] as int) + 16 * (p[1] as int) + 64 * (p[3] as int),
        corner_codes_spec([(0, 1), (0, 3), (0, 2)], p, 3) == p[3] as int + 4 * (p[0] as int) + 16 * (p[2] as int) + 64 * (p[1] as int),
        corner_codes_spec([(0, 1), (0, 3), (0, 2)], p, 4) == p[2] as int + 4 * (p[1] as int) + 16 * (p[0] as int) + 64 * (p[3] as int),
        corner_codes_spec([(0, 1), (0, 3), (0, 2)], p, 5) == p[3] as int + 4 * (p[1] as int) + 16 * (p[2] as int) + 64 * (p[0] as int),
        corner_codes_spec([(0, 1), (0, 3), (0, 2)], p, 6) == p[1] as int + 4 * (p[0] as int) + 16 * (p[2] as int) + 64 * (p[3] as int),
        corner_codes_spec([(0, 1), (0, 3), (0, 2)], p, 7) == p[0] as int + 4 * (p[1] as int) + 16 * (p[2] as int) + 64 * (p[3] as int),
{
    reveal_with_fuel(corner_order_upto, 4);
    broadcast use vstd::array::group_array_axioms;
}

/// The corner codes of atlas word 17.
pub proof fn lemma_codes_of_word_17(p: [usize; 4])
    ensures
        corner_codes_spec([(0, 1), (1, 2), (0, 3)], p, 0) == p[3] as int + 4 * (p[2] as int) + 16 * (p[0] as int) + 64 * (p[1] as int),
        corner_codes_spec([(0, 1), (1, 2), (0, 3)], p, 1) == p[3] as int + 4 * (p[2] as int) + 16 * (p[1] as int) + 64 * (p[0] as int),
        corner_codes_spec([(0, 1), (1, 2), (0, 3)], p, 2) == p[3] as int + 4 * (p[0] as int) + 16 * (p[2] as int) + 64 * (p[1] as int),
        corner_codes_spec([(0, 1), (1, 2), (0, 3)], p, 3) == p[1] as int + 4 * (p[2] as int) + 16 * (p[0] as int) + 64 * (p[3] as int),
        corner_codes_spec([(0, 1), (1, 2), (0, 3)], p, 4) == p[3] as int + 4 * (p[1] as int) + 16 * (p[2] as int) + 64 * (p[0] as int),
        corner_codes_spec([(0, 1), (1, 2), (0, 3)], p, 5) == p[0] as int + 4 * (p[2] as int) + 16 * (p[1] as int) + 64 * (p[3] as int),
        corner_codes_spec([(0, 1), (1, 2), (0, 3)], p, 6) == p[1] as int + 4 * (p[0] as int) + 16 * (p[2] as int) + 64 * (p[3] as int),
        corner_codes_spec([(0, 1), (1, 2), (0, 3)], p, 7) == p[0] as int + 4 * (p[1] as int) + 16 * (p[2] as int) + 64 * (p[3] as int),
{
    reveal_with_fuel(corner_order_upto, 4);
    broadcast use vstd::array::group_array_axioms;
}

/// The corner codes of atlas word 18.
pub proof fn lemma_codes_of_word_18(p: [usize; 4])
    ensures
        corner_codes_spec([(0, 1), (1, 3), (0, 2)], p, 0) == p[2] as int + 4 * (p[3] as int) + 16 * (p[1] as int) + 64 * (p[0] as int),
        corner_codes_spec([(0, 1), (1, 3), (0, 2)], p, 1) == p[2] as int + 4 * (p[3] as int) + 16 * (p[0] as int) + 64 * (p[1] as int),
        corner_codes_spec([(0, 1), (1, 3), (0, 2)], p, 2) == p[2] as int + 4 * (p[0] as int) + 16 * (p[1] as int) + 64 * (p[3] as int),
        corner_codes_spec([(0, 1), (1, 3), (0, 2)], p, 3) == p[1] as int + 4 * (p[3] as int) + 16 * (p[2] as int) + 64 * (p[0] as int),
        corner_codes_spec([(0, 1), (1, 3), (0, 2)], p, 4) == p[2] as int + 4 * (p[1] as int) + 16 * (p[0] as int) + 64 * (p[3] as int),
        corner_codes_spec([(0, 1), (1, 3), (0, 2)], p, 5) == p[0] as int + 4 * (p[3] as int) + 16 * (p[2] as int) + 64 * (p[1] as int),
        corner_codes_spec([(0, 1), (1, 3), (0, 2)], p, 6) == p[1] as int + 4 * (p[0] as int) + 16 * (p[2] as int) + 64 * (p[3] as int),
        corner_codes_spec([(0, 1), (1, 3), (0, 2)], p, 7) == p[0] as int + 4 * (p[1] as int) + 16 * (p[2] as int) + 64 * (p[3] as int),
{
    reveal_with_fuel(corner_order_upto, 4);
    broadcast use vstd::array::group_array_axioms;
}

/// The corner codes of atlas word 19.
pub proof fn lemma_codes_of_word_19(p: [usize; 4])
    ensures
        corner_codes_spec([(0, 1), (1, 3), (1, 2)], p, 0) == p[1] as int + 4 * (p[2] as int) + 16 * (p[3] as int) + 64 * (p[0] as int),
        corner_codes_spec([(0, 1), (1, 3), (1, 2)], p, 1) == p[0] as int + 4 * (p[2] as int) + 16 * (p[3] as int) + 64 * (p[1] as int),
        corner_codes_spec([(0, 1), (1, 3), (1, 2)], p, 2) == p[1] as int + 4 * (p[2] as int) + 16 * (p[0] as int) + 64 * (p[3] as int),
        corner_codes_spec([(0, 1), (1, 3), (1, 2)], p, 3) == p[1] as int + 4 * (p[3] as int) + 16 * (p[2] as int) + 64 * (p[0] as int),
        corner_codes_spec([(0, 1), (1, 3), (1, 2)], p, 4) == p[0] as int + 4 * (p[2] as int) + 16 * (p[1] as int) + 64 * (p[3] as int),
        corner_codes_spec([(0, 1), (1, 3), (1, 2)], p, 5) == p[0] as int + 4 * (p[3] as int) + 16 * (p[2] as int) + 64 * (p[1] as int),
        corner_codes_spec([(0, 1), (1, 3), (1, 2)], p, 6) == p[1] as int + 4 * (p[0] as int) + 16 * (p[2] as int) + 64 * (p[3] as int),
        corner_codes_spec([(0, 1), (1, 3), (1, 2)], p, 7) == p[0] as int + 4 * (p[1] as int) + 16 * (p[2] as int) + 64 * (p[3] as int),
{
    reveal_with_fuel(corner_order_upto, 4);
    broadcast use vstd::array::group_array_axioms;
}

/// The corner codes of atlas word 20.
pub proof fn lemma_codes_of_word_20(p: [usize; 4])
    ensures
        corner_codes_spec([(0, 1), (2, 3), (0, 2)], p, 0) == p[3] as int + 4 * (p[0] as int) + 16 * (p[1] as int) + 64 * (p[2] as int),
        corner_codes_spec([(0, 1), (2, 3), (0, 2)], p, 1) == p[3] as int + 4 * (p[1] as int) + 16 * (p[0] as int) + 64 * (p[2] as int),
        corner_codes_spec([(0, 1), (2, 3), (0, 2)], p, 2) == p[2] as int + 4 * (p[0] as int) + 16 * (p[1] as int) + 64 * (p[3] as int),
        corner_codes_spec([(0, 1), (2, 3), (0, 2)], p, 3) == p[1] as int + 4 * (p[0] as int) + 16 * (p[3] as int) + 64 * (p[2] as int),
        corner_codes_spec([(0, 1), (2, 3), (0, 2)], p, 4) == p[2] as int + 4 * (p[1] as int) + 16 * (p[0] as int) + 64 * (p[3] as int),
        corner_codes_spec([(0, 1), (2, 3), (0, 2)], p, 5) == p[0] as int + 4 * (p[1] as int) + 16 * (p[3] as int) + 64 * (p[2] as int),
        corner_codes_spec([(0, 1), (2, 3), (0, 2)], p, 6) == p[1] as int + 4 * (p[0] as int) + 16 * (p[2] as int) + 64 * (p[3] as int),
        corner_codes_spec([(0, 1), (2, 3), (0, 2)], p, 7) == p[0] as int + 4 * (p[1] as int) + 16 * (p[2] as int) + 64 * (p[3] as int),
{
    reveal_with_fuel(corner_order_upto, 4);
    broadcast use vstd::array::group_array_axioms;
}

/// The corner codes of atlas word 21.
pub proof fn lemma_codes_of_word_21(p: [usize; 4])
    ensures
        corner_codes_spec([(0, 1), (2, 3), (0, 3)], p, 0) == p[2] as int + 4 * (p[0] as int) + 16 * (p[3] as int) + 64 * (p[1] as int),
        corner_codes_spec([(0, 1), (2, 3), (0, 3)], p, 1) == p[2] as int + 4 * (p[1] as int) + 16 * (p[3] as int) + 64 * (p[0] as int),
        corner_codes_spec([(0, 1), (2, 3), (0, 3)], p, 2) == p[3] as int + 4 * (p[0] as int) + 16 * (p[2] as int) + 64 * (p[1] as int),
        corner_codes_spec([(0, 1), (2, 3), (0, 3)], p, 3) == p[1] as int + 4 * (p[0] as int) + 16 * (p[3] as int) + 64 * (p[2] as int),
        corner_codes_spec([(0, 1), (2, 3), (0, 3)], p, 4) == p[3] as int + 4 * (p[1] as int) + 16 * (p[2] as int) + 64 * (p[0] as int),
        corner_codes_spec([(0, 1), (2, 3), (0, 3)], p, 5) == p[0] as int + 4 * (p[1] as int) + 16 * (p[3] as int) + 64 * (p[2] as int),
        corner_codes_spec([(0, 1), (2, 3), (0, 3)], p, 6) == p[1] as int + 4 * (p[0] as int) + 16 * (p[2] as int) + 64 * (p[3] as int),
        corner_codes_spec([(0, 1), (2, 3), (0, 3)], p, 7) == p[0] as int + 4 * (p[1] as int) + 16 * (p[2] as int) + 64 * (p[3] as int),
{
    reveal_with_fuel(corner_order_upto, 4);
    broadcast use vstd::array::group_array_axioms;
}

/// The corner codes of atlas word 22.
pub proof fn lemma_codes_of_word_22(p: [usize; 4])
    ensures
        corner_codes_spec([(0, 1), (2, 3), (1, 2)], p, 0) == p[1] as int + 4 * (p[3] as int) + 16 * (p[0] as int) + 64 * (p[2] as int),
        corner_codes_spec([(0, 1), (2, 3), (1, 2)], p, 1) == p[0] as int + 4 * (p[3] as int) + 16 * (p[1] as int) + 64 * (p[2] as int),
        corner_codes_spec([(0, 1), (2, 3), (1, 2)], p, 2) == p[1] as int + 4 * (p[2] as int) + 16 * (p[0] as int) + 64 * (p[3] as int),
        corner_codes_spec([(0, 1), (2, 3), (1, 2)], p, 3) == p[1] as int + 4 * (p[0] as int) + 16 * (p[3] as int) + 64 * (p[2] as int),
        corner_codes_spec([(0, 1), (2, 3), (1, 2)], p, 4) == p[0] as int + 4 * (p[2] as int) + 16 * (p[1] as int) + 64 * (p[3] as int),
        corner_codes_spec([(0, 1), (2, 3), (1, 2)], p, 5) == p[0] as int + 4 * (p[1] as int) + 16 * (p[3] as int) + 64 * (p[2] as int),
        corner_codes_spec([(0, 1), (2, 3), (1, 2)], p, 6) == p[1] as int + 4 * (p[0] as int) + 16 * (p[2] as int) + 64 * (p[3] as int),
        corner_codes_spec([(0, 1), (2, 3), (1, 2)], p, 7) == p[0] as int + 4 * (p[1] as int) + 16 * (p[2] as int) + 64 * (p[3] as int),
{
    reveal_with_fuel(corner_order_upto, 4);
    broadcast use vstd::array::group_array_axioms;
}

/// The corner codes of atlas word 23.
pub proof fn lemma_codes_of_word_23(p: [usize; 4])
    ensures
        corner_codes_spec([(0, 1), (2, 3), (1, 3)], p, 0) == p[1] as int + 4 * (p[2] as int) + 16 * (p[3] as int) + 64 * (p[0] as int),
        corner_codes_spec([(0, 1), (2, 3), (1, 3)], p, 1) == p[0] as int + 4 * (p[2] as int) + 16 * (p[3] as int) + 64 * (p[1] as int),
        corner_codes_spec([(0, 1), (2, 3), (1, 3)], p, 2) == p[1] as int + 4 * (p[3] as int) + 16 * (p[2] as int) + 64 * (p[0] as int),
        corner_codes_spec([(0, 1), (2, 3), (1, 3)], p, 3) == p[1] as int + 4 * (p[0] as int) + 16 * (p[3] as int) + 64 * (p[2] as int),
        corner_codes_spec([(0, 1), (2, 3), (1, 3)], p, 4) == p[0] as int + 4 * (p[3] as int) + 16 * (p[2] as int) + 64 * (p[1] as int),
        corner_codes_spec([(0, 1), (2, 3), (1, 3)], p, 5) == p[0] as int + 4 * (p[1] as int) + 16 * (p[3] as int) + 64 * (p[2] as int),
        corner_codes_spec([(0, 1), (2, 3), (1, 3)], p, 6) == p[1] as int + 4 * (p[0] as int) + 16 * (p[2] as int) + 64 * (p[3] as int),
        corner_codes_spec([(0, 1), (2, 3), (1, 3)], p, 7) == p[0] as int + 4 * (p[1] as int) + 16 * (p[2] as int) + 64 * (p[3] as int),
{
    reveal_with_fuel(corner_order_upto, 4);
    broadcast use vstd::array::group_array_axioms;
}

/// The corner codes of atlas word 24.
pub proof fn lemma_codes_of_word_24(p: [usize; 4])
    ensures
        corner_codes_spec([(0, 2), (0, 1), (0, 3)], p, 0) == p[3] as int + 4 * (p[2] as int) + 16 * (p[0] as int) + 64 * (p[1] as int),
        corner_codes_spec([(0, 2), (0, 1), (0, 3)], p, 1) == p[3] as int + 4 * (p[0] as int) + 16 * (p[2] as int) + 64 * (p[1] as int),
        corner_codes_spec([(0, 2), (0, 1), (0, 3)], p, 2) == p[3] as int + 4 * (p[1] as int) + 16 * (p[0] as int) + 64 * (p[2] as int),
        corner_codes_spec([(0, 2), (0, 1), (0, 3)], p, 3) == p[1] as int + 4 * (p[2] as int) + 16 * (p[0] as int) + 64 * (p[3] as int),
        corner_codes_spec([(0, 2), (0, 1), (0, 3)], p, 4) == p[3] as int + 4 * (p[1] as int) + 16 * (p[2] as int) + 64 * (p[0] as int),
        corner_codes_spec([(0, 2), (0, 1), (0, 3)], p, 5) == p[1] as int + 4 * (p[0] as int) + 16 * (p[2] as int) + 64 * (p[3] as int),
        corner_codes_spec([(0, 2), (0, 1), (0, 3)], p, 6) == p[2] as int + 4 * (p[1] as int) + 16 * (p[0] as int) + 64 * (p[3] as int),
        corner_codes_spec([(0, 2), (0, 1), (0, 3)], p, 7) == p[0] as int + 4 * (p[1] as int) + 16 * (p[2] as int) + 64 * (p[3] as int),
{
    reveal_with_fuel(corner_order_upto, 4);
    broadcast use vstd::array::group_array_axioms;
}

/// The corner codes of atlas word 25.
pub proof fn lemma_codes_of_word_25(p: [usize; 4])
    ensures
        corner_codes_spec([(0, 2), (0, 1), (1, 3)], p, 0) == p[1] as int + 4 * (p[3] as int) + 16 * (p[0] as int) + 64 * (p[2] as int),
        corner_codes_spec([(0, 2), (0, 1), (1, 3)], p, 1) == p[1] as int + 4 * (p[3] as int) + 16 * (p[2] as int) + 64 * (p[0] as int),
        corner_codes_spec([(0, 2), (0, 1), (1, 3)], p, 2) == p[2] as int + 4 * (p[3] as int) + 16 * (p[0] as int) + 64 * (p[1] as int),
        corner_codes_spec([(0, 2), (0, 1), (1, 3)], p, 3) == p[1] as int + 4 * (p[2] as int) + 16 * (p[0] as int) + 64 * (p[3] as int),
        corner_codes_spec([(0, 2), (0, 1), (1, 3)], p, 4) == p[0] as int + 4 * (p[3] as int) + 16 * (p[2] as int) + 64 * (p[1] as int),
        corner_codes_spec([(0, 2), (0, 1), (1, 3)], p, 5) == p[1] as int + 4 * (p[0] as int) + 16 * (p[2] as int) + 64 * (p[3] as int),
        corner_codes_spec([(0, 2), (0, 1), (1, 3)], p, 6) == p[2] as int + 4 * (p[1] as int) + 16 * (p[0] as int) + 64 * (p[3] as int),
        corner_codes_spec([(0, 2), (0, 1), (1, 3)], p, 7) == p[0] as int + 4 * (p[1] as int) + 16 * (p[2] as int) + 64 * (p[3] as int),
{
    reveal_with_fuel(corner_order_upto, 4);
    broadcast use vstd::array::group_array_axioms;
}

/// The corner codes of atlas word 26.
pub proof fn lemma_codes_of_word_26(p: [usize; 4])
    ensures
        corner_codes_spec([(0, 2), (0, 1), (2, 3)], p, 0) == p[1] as int + 4 * (p[2] as int) + 16 * (p[3] as int) + 64 * (p[0] as int),
        corner_codes_spec([(0, 2), (0, 1), (2, 3)], p, 1) == p[1] as int + 4 * (p[0] as int) + 16 * (p[3] as int) + 64 * (p[2] as int),
        corner_codes_spec([(0, 2), (0, 1), (2, 3)], p, 2) == p[2] as int + 4 * (p[1] as int) + 16 * (p[3] as int) + 64 * (p[0] as int),
        corner_codes_spec([(0, 2), (0, 1), (2, 3)], p, 3) == p[1] as int + 4 * (p[2] as int) + 16 * (p[0] as int) + 64 * (p[3] as int),
        corner_codes_spec([(0, 2), (0, 1), (2, 3)], p, 4) == p[0] as int + 4 * (p[1] as int) + 16 * (p[3] as int) + 64 * (p[2] as int),
        corner_codes_spec([(0, 2), (0, 1), (2, 3)], p, 5) == p[1] as int + 4 * (p[0] as int) + 16 * (p[2] as int) + 64 * (p[3] as int),
        corner_codes_spec([(0, 2), (0, 1), (2, 3)], p, 6) == p[2] as int + 4 * (p[1] as int) + 16 * (p[0] as int) + 64 * (p[3] as int),
        corner_codes_spec([(0, 2), (0, 1), (2, 3)], p, 7) == p[0] as int + 4 * (p[1] as int) + 16 * (p[2] as int) + 64 * (p[3] as int),
{
    reveal_with_fuel(corner_order_upto, 4);
    broadcast use vstd::array::group_array_axioms;
}

/// The corner codes of atlas word 27.
pub proof fn lemma_codes_of_word_27(p: [usize; 4])
    ensures
        corner_codes_spec([(0, 2), (0, 3), (0, 1)], p, 0) == p[1] as int + 4 * (p[3] as int) + 16 * (p[0] as int) + 64 * (p[2] as int),
        corner_codes_spec([(0, 2), (0, 3), (0, 1)], p, 1) == p[1] as int + 4 * (p[3] as int) + 16 * (p[2] as int) + 64 * (p[0] as int),
        corner_codes_spec([(0, 2), (0, 3), (0, 1)], p, 2) == p[1] as int + 4 * (p[2] as int) + 16 * (p[0] as int) + 64 * (p[3] as int),
        corner_codes_spec([(0, 2), (0, 3), (0, 1)], p, 3) == p[3] as int + 4 * (p[1] as int) + 16 * (p[0] as int) + 64 * (p[2] as int),
        corner_codes_spec([(0, 2), (0, 3), (0, 1)], p, 4) == p[1] as int + 4 * (p[0] as int) + 16 * (p[2] as int) + 64 * (p[3] as int),
        corner_codes_spec([(0, 2), (0, 3), (0, 1)], p, 5) == p[3] as int + 4 * (p[1] as int) + 16 * (p[2] as int) + 64 * (p[0] as int),
        corner_codes_spec([(0, 2), (0, 3), (0, 1)], p, 6) == p[2] as int + 4 * (p[1] as int) + 16 * (p[0] as int) + 64 * (p[3] as int),
        corner_codes_spec([(0, 2), (0, 3), (0, 1)], p, 7) == p[0] as int + 4 * (p[1] as int) + 16 * (p[2] as int) + 64 * (p[3] as int),
{
    reveal_with_fuel(corner_order_upto, 4);
    broadcast use vstd::array::group_array_axioms;
}

/// The corner codes of atlas word 28.
pub proof fn lemma_codes_of_word_28(p: [usize; 4])
    ensures
        corner_codes_spec([(0, 2), (1, 2), (0, 3)], p, 0) == p[3] as int + 4 * (p[0] as int) + 16 * (p[1] as int) + 64 * (p[2] as int),
        corner_codes_spec([(0, 2), (1, 2), (0, 3)], p, 1) == p[3] as int + 4 * (p[2] as int) + 16 * (p[1] as int) + 64 * (p[0] as int),
        corner_codes_spec([(0, 2), (1, 2), (0, 3)], p, 2) == p[3] as int + 4 * (p[1] as int) + 16 * (p[0] as int) + 64 * (p[2] as int),
        corner_codes_spec([(0, 2), (1, 2), (0, 3)], p, 3) == p[2] as int + 4 * (p[0] as int) + 16 * (p[1] as int) + 64 * (p[3] as int),
        corner_codes_spec([(0, 2), (1, 2), (0, 3)], p, 4) == p[3] as int + 4 * (p[1] as int) + 16 * (p[2] as int) + 64 * (p[0] as int),
        corner_codes_spec([(0, 2), (1, 2), (0, 3)], p, 5) == p[0] as int + 4 * (p[2] as int) + 16 * (p[1] as int) + 64 * (p[3] as int),
        corner_codes_spec([(0, 2), (1, 2), (0, 3)], p, 6) == p[2] as int + 4 * (p[1] as int) + 16 * (p[0] as int) + 64 * (p[3] as int),
        corner_codes_spec([(0, 2), (1, 2), (0, 3)], p, 7) == p[0] as int + 4 * (p[1] as int) + 16 * (p[2] as int) + 64 * (p[3] as int),
{
    reveal_with_fuel(corner_order_upto, 4);
    broadcast use vstd::array::group_array_axioms;
}

/// The corner codes of atlas word 29.
pub proof fn lemma_codes_of_word_29(p: [usize; 4])
    ensures
        corner_codes_spec([(0, 2), (1, 2), (1, 3)], p, 0) == p[2] as int + 4 * (p[3] as int) + 16 * (p[1] as int) + 64 * (p[0] as int),
        corner_codes_spec([(0, 2), (1, 2), (1, 3)], p, 1) == p[0] as int + 4 * (p[3] as int) + 16 * (p[1] as int) + 64 * (p[2] as int),
        corner_codes_spec([(0, 2), (1, 2), (1, 3)], p, 2) == p[2] as int + 4 * (p[3] as int) + 16 * (p[0] as int) + 64 * (p[1] as int),
        corner_codes_spec([(0, 2), (1, 2), (1, 3)], p, 3) == p[2] as int + 4 * (p[0] as int) + 16 * (p[1] as int) + 64 * (p[3] as int),
        corner_codes_spec([(0, 2), (1, 2), (1, 3)], p, 4) == p[0] as int + 4 * (p[3] as int) + 16 * (p[2] as int) + 64 * (p[1] as int),
        corner_codes_spec([(0, 2), (1, 2), (1, 3)], p, 5) == p[0] as int + 4 * (p[2] as int) + 16 * (p[1] as int) + 64 * (p[3] as int),
        corner_codes_spec([(0, 2), (1, 2), (1, 3)], p, 6) == p[2] as int + 4 * (p[1] as int) + 16 * (p[0] as int) + 64 * (p[3] as int),
        corner_codes_spec([(0, 2), (1, 2), (1, 3)], p, 7) == p[0] as int + 4 * (p[1] as int) + 16 * (p[2] as int) + 64 * (p[3] as int),
{
    reveal_with_fuel(corner_order_upto, 4);
    broadcast use vstd::array::group_array_axioms;
}

/// The corner codes of atlas word 30.
pub proof fn lemma_codes_of_word_30(p: [usize; 4])
    ensures
        corner_codes_spec([(0, 2), (1, 3), (0, 1)], p, 0) == p[3] as int + 4 * (p[2] as int) + 16 * (p[0] as int) + 64 * (p[1] as int),
        corner_codes_spec([(0, 2), (1, 3), (0, 1)], p, 1) == p[3] as int + 4 * (p[0] as int) + 16 * (p[2] as int) + 64 * (p[1] as int),
        corner_codes_spec([(0, 2), (1, 3), (0, 1)], p, 2) == p[1] as int + 4 * (p[2] as int) + 16 * (p[0] as int) + 64 * (p[3] as int),
        corner_codes_spec([(0, 2), (1, 3), (0, 1)], p, 3) == p[2] as int + 4 * (p[3] as int) + 16 * (p[0] as int) + 64 * (p[1] as int),
        corner_codes_spec([(0, 2), (1, 3), (0, 1)], p, 4) == p[1] as int + 4 * (p[0] as int) + 16 * (p[2] as int) + 64 * (p[3] as int),
        corner_codes_spec([(0, 2), (1, 3), (0, 1)], p, 5) == p[0] as int + 4 * (p[3] as int) + 16 * (p[2] as int) + 64 * (p[1] as int),
        corner_codes_spec([(0, 2), (1, 3), (0, 1)], p, 6) == p[2] as int + 4 * (p[1] as int) + 16 * (p[0] as int) + 64 * (p[3] as int),
        corner_codes_spec([(0, 2), (1, 3), (0, 1)], p, 7) == p[0] as int + 4 * (p[1] as int) + 16 * (p[2] as int) + 64 * (p[3] as int),
{
    reveal_with_fuel(corner_order_upto, 4);
    broadcast use vstd::array::group_array_axioms;
}

/// The corner codes of atlas word 31.
pub proof fn lemma_codes_of_word_31(p: [usize; 4])
    ensures
        corner_codes_spec([(0, 2), (1, 3), (0, 3)], p, 0) == p[1] as int + 4 * (p[3] as int) + 16 * (p[0] as int) + 64 * (p[2] as int),
        corner_codes_spec([(0, 2), (1, 3), (0, 3)], p, 1) == p[1] as int + 4 * (p[3] as int) + 16 * (p[2] as int) + 64 * (p[0] as int),
        corner_codes_spec([(0, 2), (1, 3), (0, 3)], p, 2) == p[3] as int + 4 * (p[1] as int) + 16 * (p[0] as int) + 64 * (p[2] as int),
        corner_codes_spec([(0, 2), (1, 3), (0, 3)], p, 3) == p[2] as int + 4 * (p[3] as int) + 16 * (p[0] as int) + 64 * (p[1] as int),
        corner_codes_spec([(0, 2), (1, 3), (0, 3)], p, 4) == p[3] as int + 4 * (p[1] as int) + 16 * (p[2] as int) + 64 * (p[0] as int),
        corner_codes_spec([(0, 2), (1, 3), (0, 3)], p, 5) == p[0] as int + 4 * (p[3] as int) + 16 * (p[2] as int) + 64 * (p[1] as int),
        corner_codes_spec([(0, 2), (1, 3), (0, 3)], p, 6) == p[2] as int + 4 * (p[1] as int) + 16 * (p[0] as int) + 64 * (p[3] as int),
        corner_codes_spec([(0, 2), (1, 3), (0, 3)], p, 7) == p[0] as int + 4 * (p[1] as int) + 16 * (p[2] as int) + 64 * (p[3] as int),
{
    reveal_with_fuel(corner_order_upto, 4);
    broadcast use vstd::array::group_array_axioms;
}

/// The corner codes of atlas word 32.
pub proof fn lemma_codes_of_word_32(p: [usize; 4])
    ensures
        corner_codes_spec([(0, 2), (2, 3), (0, 1)], p, 0) == p[1] as int + 4 * (p[2] as int) + 16 * (p[3] as int) + 64 * (p[0] as int),
        corner_codes_spec([(0, 2), (2, 3), (0, 1)], p, 1) == p[1] as int + 4 * (p[0] as int) + 16 * (p[3] as int) + 64 * (p[2] as int),
        corner_codes_spec([(0, 2), (2, 3), (0, 1)], p, 2) == p[1] as int + 4 * (p[2] as int) + 16 * (p[0] as int) + 64 * (p[3] as int),
        corner_codes_spec([(0, 2), (2, 3), (0, 1)], p, 3) == p[2] as int + 4 * (p[1] as int) + 16 * (p[3] as int) + 64 * (p[0] as int),
        corner_codes_spec([(0, 2), (2, 3), (0, 1)], p, 4) == p[1] as int + 4 * (p[0] as int) + 16 * (p[2] as int) + 64 * (p[3] as int),
        corner_codes_spec([(0, 2), (2, 3), (0, 1)], p, 5) == p[0] as int + 4 * (p[1] as int) + 16 * (p[3] as int) + 64 * (p[2] as int),
        corner_codes_spec([(0, 2), (2, 3), (0, 1)], p, 6) == p[2] as int + 4 * (p[1] as int) + 16 * (p[0] as int) + 64 * (p[3] as int),
        corner_codes_spec([(0, 2), (2, 3), (0, 1)], p, 7) == p[0] as int + 4 * (p[1] as int) + 16 * (p[2] as int) + 64 * (p[3] as int),
{
    reveal_with_fuel(corner_order_upto, 4);
    broadcast use vstd::array::group_array_axioms;
}

/// The corner codes of atlas word 33.
pub proof fn lemma_codes_of_word_33(p: [usize; 4])
    ensures
        corner_codes_spec([(0, 2), (2, 3), (1, 2)], p, 0) == p[2] as int + 4 * (p[3] as int) + 16 * (p[1] as int) + 64 * (p[0] as int),
        corner_codes_spec([(0, 2), (2, 3), (1, 2)], p, 1) == p[0] as int + 4 * (p[3] as int) + 16 * (p[1] as int) + 64 * (p[2] as int),
        corner_codes_spec([(0, 2), (2, 3), (1, 2)], p, 2) == p[2] as int + 4 * (p[0] as int) + 16 * (p[1] as int) + 64 * (p[3] as int),
        corner_codes_spec([(0, 2), (2, 3), (1, 2)], p, 3) == p[2] as int + 4 * (p[1] as int) + 16 * (p[3] as int) + 64 * (p[0] as int),
        corner_codes_spec([(0, 2), (2, 3), (1, 2)], p, 4) == p[0] as int + 4 * (p[2] as int) + 16 * (p[1] as int) + 64 * (p[3] as int),
        corner_codes_spec([(0, 2), (2, 3), (1, 2)], p, 5) == p[0] as int + 4 * (p[1] as int) + 16 * (p[3] as int) + 64 * (p[2] as int),
        corner_codes_spec([(0, 2), (2, 3), (1, 2)], p, 6) == p[2] as int + 4 * (p[1] as int) + 16 * (p[0] as int) + 64 * (p[3] as int),
        corner_codes_spec([(0, 2), (2, 3), (1, 2)], p, 7) == p[0] as int + 4 * (p[1] as int) + 16 * (p[2] as int) + 64 * (p[3] as int),
{
    reveal_with_fuel(corner_order_upto, 4);
    broadcast use vstd::array::group_array_axioms;
}

/// The corner codes of atlas word 34.
pub proof fn lemma_codes_of_word_34(p: [usize; 4])
    ensures
        corner_codes_spec([(0, 2), (2, 3), (1, 3)], p, 0) == p[2] as int + 4 * (p[0] as int) + 16 * (p[3] as int) + 64 * (p[1] as int),
        corner_codes_spec([(0, 2), (2, 3), (1, 3)], p, 1) == p[0] as int + 4 * (p[2] as int) + 16 * (p[3] as int) + 64 * (p[1] as int),
        corner_codes_spec([(0, 2), (2, 3), (1, 3)], p, 2) == p[2] as int + 4 * (p[3] as int) + 16 * (p[0] as int) + 64 * (p[1] as int),
        corner_codes_spec([(0, 2), (2, 3), (1, 3)], p, 3) == p[2] as int + 4 * (p[1] as int) + 16 * (p[3] as int) + 64 * (p[0] as int),
        corner_codes_spec([(0, 2), (2, 3), (1, 3)], p, 4) == p[0] as int + 4 * (p[3] as int) + 16 * (p[2] as int) + 64 * (p[1] as int),
        corner_codes_spec([(0, 2), (2, 3), (1, 3)], p, 5) == p[0] as int + 4 * (p[1] as int) + 16 * (p[3] as int) + 64 * (p[2] as int),
        corner_codes_spec([(0, 2), (2, 3), (1, 3)], p, 6) == p[2] as int + 4 * (p[1] as int) + 16 * (p[0] as int) + 64 * (p[3] as int),
        corner_codes_spec([(0, 2), (2, 3), (1, 3)], p, 7) == p[0] as int + 4 * (p[1] as int) + 16 * (p[2] as int) + 64 * (p[3] as int),
{
    reveal_with_fuel(corner_order_upto, 4);
    broadcast use vstd::array::group_array_axioms;
}

/// The corner codes of atlas word 35.
pub proof fn lemma_codes_of_word_35(p: [usize; 4])
    ensures
        corner_codes_spec([(0, 3), (0, 1), (0, 2)], p, 0) == p[2] as int + 4 * (p[3] as int) + 16 * (p[1] as int) + 64 * (p[0] as int),
        corner_codes_spec([(0, 3), (0, 1), (0, 2)], p, 1) == p[2] as int + 4 * (p[0] as int) + 16 * (p[1] as int) + 64 * (p[3] as int),
        corner_codes_spec([(0, 3), (0, 1), (0, 2)], p, 2) == p[2] as int + 4 * (p[1] as int) + 16 * (p[3] as int) + 64 * (p[0] as int),
        corner_codes_spec([(0, 3), (0, 1), (0, 2)], p, 3) == p[1] as int + 4 * (p[3] as int) + 16 * (p[2] as int) + 64 * (p[0] as int),
        corner_codes_spec([(0, 3), (0, 1), (0, 2)], p, 4) == p[2] as int + 4 * (p[1] as int) + 16 * (p[0] as int) + 64 * (p[3] as int),
        corner_codes_spec([(0, 3), (0, 1), (0, 2)], p, 5) == p[1] as int + 4 * (p[0] as int) + 16 * (p[2] as int) + 64 * (p[3] as int),
        corner_codes_spec([(0, 3), (0, 1), (0, 2)], p, 6) == p[3] as int + 4 * (p[1] as int) + 16 * (p[2] as int) + 64 * (p[0] as int),
        corner_codes_spec([(0, 3), (0, 1), (0, 2)], p, 7) == p[0] as int + 4 * (p[1] as int) + 16 * (p[2] as int) + 64 * (p[3] as int),
{
    reveal_with_fuel(corner_order_upto, 4);
    broadcast use vstd::array::group_array_axioms;
}

/// The corner codes of atlas word 36.
pub proof fn lemma_codes_of_word_36(p: [usize; 4])
    ensures
        corner_codes_spec([(0, 3), (0, 1), (1, 2)], p, 0) == p[1] as int + 4 * (p[2] as int) + 16 * (p[3] as int) + 64 * (p[0] as int),
        corner_codes_spec([(0, 3), (0, 1), (1, 2)], p, 1) == p[1] as int + 4 * (p[2] as int) + 16 * (p[0] as int) + 64 * (p[3] as int),
        corner_codes_spec([(0, 3), (0, 1), (1, 2)], p, 2) == p[3] as int + 4 * (p[2] as int) + 16 * (p[1] as int) + 64 * (p[0] as int),
        corner_codes_spec([(0, 3), (0, 1), (1, 2)], p, 3) == p[1] as int + 4 * (p[3] as int) + 16 * (p[2] as int) + 64 * (p[0] as int),
        corner_codes_spec([(0, 3), (0, 1), (1, 2)], p, 4) == p[0] as int + 4 * (p[2] as int) + 16 * (p[1] as int) + 64 * (p[3] as int),
        corner_codes_spec([(0, 3), (0, 1), (1, 2)], p, 5) == p[1] as int + 4 * (p[0] as int) + 16 * (p[2] as int) + 64 * (p[3] as int),
        corner_codes_spec([(0, 3), (0, 1), (1, 2)], p, 6) == p[3] as int + 4 * (p[1] as int) + 16 * (p[2] as int) + 64 * (p[0] as int),
        corner_codes_spec([(0, 3), (0, 1), (1, 2)], p, 7) == p[0] as int + 4 * (p[1] as int) + 16 * (p[2] as int) + 64 * (p[3] as int),
{
    reveal_with_fuel(corner_order_upto, 4);
    broadcast use vstd::array::group_array_axioms;
}

/// The corner codes of atlas word 37.
pub proof fn lemma_codes_of_word_37(p: [usize; 4])
    ensures
        corner_codes_spec([(0, 3), (0, 1), (2, 3)], p, 0) == p[1] as int + 4 * (p[3] as int) + 16 * (p[0] as int) + 64 * (p[2] as int),
        corner_codes_spec([(0, 3), (0, 1), (2, 3)], p, 1) == p[1] as int + 4 * (p[0] as int) + 16 * (p[3] as int) + 64 * (p[2] as int),
        corner_codes_spec([(0, 3), (0, 1), (2, 3)], p, 2) == p[3] as int + 4 * (p[1] as int) + 16 * (p[0] as int) + 64 * (p[2] as int),
        corner_codes_spec([(0, 3), (0, 1), (2, 3)], p, 3) == p[1] as int + 4 * (p[3] as int) + 16 * (p[2] as int) + 64 * (p[0] as int),
        corner_codes_spec([(0, 3), (0, 1), (2, 3)], p, 4) == p[0] as int + 4 * (p[1] as int) + 16 * (p[3] as int) + 64 * (p[2] as int),
        corner_codes_spec([(0, 3), (0, 1), (2, 3)], p, 5) == p[1] as int + 4 * (p[0] as int) + 16 * (p[2] as int) + 64 * (p[3] as int),
        corner_codes_spec([(0, 3), (0, 1), (2, 3)], p, 6) == p[3] as int + 4 * (p[1] as int) + 16 * (p[2] as int) + 64 * (p[0] as int),
        corner_codes_spec([(0, 3), (0, 1), (2, 3)], p, 7) == p[0] as int + 4 * (p[1] as int) + 16 * (p[2] as int) + 64 * (p[3] as int),
{
    reveal_with_fuel(corner_order_upto, 4);
    broadcast use vstd::array::group_array_axioms;
}

/// The corner codes of atlas word 38.
pub proof fn lemma_codes_of_word_38(p: [usize; 4])
    ensures
        corner_codes_spec([(0, 3), (0, 2), (0, 1)], p, 0) == p[1] as int + 4 * (p[2] as int) + 16 * (p[3] as int) + 64 * (p[0] as int),
        corner_codes_spec([(0, 3), (0, 2), (0, 1)], p, 1) == p[1] as int + 4 * (p[2] as int) + 16 * (p[0] as int) + 64 * (p[3] as int),
        corner_codes_spec([(0, 3), (0, 2), (0, 1)], p, 2) == p[1] as int + 4 * (p[3] as int) + 16 * (p[2] as int) + 64 * (p[0] as int),
        corner_codes_spec([(0, 3), (0, 2), (0, 1)], p, 3) == p[2] as int + 4 * (p[1] as int) + 16 * (p[3] as int) + 64 * (p[0] as int),
        corner_codes_spec([(0, 3), (0, 2), (0, 1)], p, 4) == p[1] as int + 4 * (p[0] as int) + 16 * (p[2] as int) + 64 * (p[3] as int),
        corner_codes_spec([(0, 3), (0, 2), (0, 1)], p, 5) == p[2] as int + 4 * (p[1] as int) + 16 * (p[0] as int) + 64 * (p[3] as int),
        corner_codes_spec([(0, 3), (0, 2), (0, 1)], p, 6) == p[3] as int + 4 * (p[1] as int) + 16 * (p[2] as int) + 64 * (p[0] as int),
        corner_codes_spec([(0, 3), (0, 2), (0, 1)], p, 7) == p[0] as int + 4 * (p[1] as int) + 16 * (p[2] as int) + 64 * (p[3] as int),
{
    reveal_with_fuel(corner_order_upto, 4);
    broadcast use vstd::array::group_array_axioms;
}

/// The corner codes of atlas word 39.
pub proof fn lemma_codes_of_word_39(p: [usize; 4])
    ensures
        corner_codes_spec([(0, 3), (0, 2), (1, 2)], p, 0) == p[2] as int + 4 * (p[3] as int) + 16 * (p[1] as int) + 64 * (p[0] as int),
        corner_codes_spec([(0, 3), (0, 2), (1, 2)], p, 1) == p[2] as int + 4 * (p[0] as int) + 16 * (p[1] as int) + 64 * (p[3] as int),
        corner_codes_spec([(0, 3), (0, 2), (1, 2)], p, 2) == p[3] as int + 4 * (p[2] as int) + 16 * (p[1] as int) + 64 * (p[0] as int),
        corner_codes_spec([(0, 3), (0, 2), (1, 2)], p, 3) == p[2] as int + 4 * (p[1] as int) + 16 * (p[3] as int) + 64 * (p[0] as int),
        corner_codes_spec([(0, 3), (0, 2), (1, 2)], p, 4) == p[0] as int + 4 * (p[2] as int) + 16 * (p[1] as int) + 64 * (p[3] as int),
        corner_codes_spec([(0, 3), (0, 2), (1, 2)], p, 5) == p[2] as int + 4 * (p[1] as int) + 16 * (p[0] as int) + 64 * (p[3] as int),
        corner_codes_spec([(0, 3), (0, 2), (1, 2)], p, 6) == p[3] as int + 4 * (p[1] as int) + 16 * (p[2] as int) + 64 * (p[0] as int),
        corner_codes_spec([(0, 3), (0, 2), (1, 2)], p, 7) == p[0] as int + 4 * (p[1] as int) + 16 * (p[2] as int) + 64 * (p[3] as int),
{
    reveal_with_fuel(corner_order_upto, 4);
    broadcast use vstd::array::group_array_axioms;
}

/// The corner codes of atlas word 40.
pub proof fn lemma_codes_of_word_40(p: [usize; 4])
    ensures
        corner_codes_spec([(0, 3), (0, 2), (1, 3)], p, 0) == p[2] as int + 4 * (p[0] as int) + 16 * (p[3] as int) + 64 * (p[1] as int),
        corner_codes_spec([(0, 3), (0, 2), (1, 3)], p, 1) == p[2] as int + 4 * (p[3] as int) + 16 * (p[0] as int) + 64 * (p[1] as int),
        corner_codes_spec([(0, 3), (0, 2), (1, 3)], p, 2) == p[3] as int + 4 * (p[0] as int) + 16 * (p[2] as int) + 64 * (p[1] as int),
        corner_codes_spec([(0, 3), (0, 2), (1, 3)], p, 3) == p[2] as int + 4 * (p[1] as int) + 16 * (p[3] as int) + 64 * (p[0] as int),
        corner_codes_spec([(0, 3), (0, 2), (1, 3)], p, 4) == p[0] as int + 4 * (p[3] as int) + 16 * (p[2] as int) + 64 * (p[1] as int),
        corner_codes_spec([(0, 3), (0, 2), (1, 3)], p, 5) == p[2] as int + 4 * (p[1] as int) + 16 * (p[0] as int) + 64 * (p[3] as int),
        corner_codes_spec([(0, 3), (0, 2), (1, 3)], p, 6) == p[3] as int + 4 * (p[1] as int) + 16 * (p[2] as int) + 64 * (p[0] as int),
        corner_codes_spec([(0, 3), (0, 2), (1, 3)], p, 7) == p[0] as int + 4 * (p[1] as int) + 16 * (p[2] as int) + 64 * (p[3] as int),
{
    reveal_with_fuel(corner_order_upto, 4);
    broadcast use vstd::array::group_array_axioms;
}

/// The corner codes of atlas word 41.
pub proof fn lemma_codes_of_word_41(p: [usize; 4])
    ensures
        corner_codes_spec([(0, 3), (1, 2), (0, 1)], p, 0) == p[2] as int + 4 * (p[3] as int) + 16 * (p[1] as int) + 64 * (p[0] as int),
        corner_codes_spec([(0, 3), (1, 2), (0, 1)], p, 1) == p[2] as int + 4 * (p[0] as int) + 16 * (p[1] as int) + 64 * (p[3] as int),
        corner_codes_spec([(0, 3), (1, 2), (0, 1)], p, 2) == p[1] as int + 4 * (p[3] as int) + 16 * (p[2] as int) + 64 * (p[0] as int),
        corner_codes_spec([(0, 3), (1, 2), (0, 1)], p, 3) == p[3] as int + 4 * (p[2] as int) + 16 * (p[1] as int) + 64 * (p[0] as int),
        corner_codes_spec([(0, 3), (1, 2), (0, 1)], p, 4) == p[1] as int + 4 * (p[0] as int) + 16 * (p[2] as int) + 64 * (p[3] as int),
        corner_codes_spec([(0, 3), (1, 2), (0, 1)], p, 5) == p[0] as int + 4 * (p[2] as int) + 16 * (p[1] as int) + 64 * (p[3] as int),
        corner_codes_spec([(0, 3), (1, 2), (0, 1)], p, 6) == p[3] as int + 4 * (p[1] as int) + 16 * (p[2] as int) + 64 * (p[0] as int),
        corner_codes_spec([(0, 3), (1, 2), (0, 1)], p, 7) == p[0] as int + 4 * (p[1] as int) + 16 * (p[2] as int) + 64 * (p[3] as int),
{
    reveal_with_fuel(corner_order_upto, 4);
    broadcast use vstd::array::group_array_axioms;
}

/// The corner codes of atlas word 42.
pub proof fn lemma_codes_of_word_42(p: [usize; 4])
    ensures
        corner_codes_spec([(0, 3), (1, 2), (0, 2)], p, 0) == p[1] as int + 4 * (p[2] as int) + 16 * (p[3] as int) + 64 * (p[0] as int),
        corner_codes_spec([(0, 3), (1, 2), (0, 2)], p, 1) == p[1] as int + 4 * (p[2] as int) + 16 * (p[0] as int) + 64 * (p[3] as int),
        corner_codes_spec([(0, 3), (1, 2), (0, 2)], p, 2) == p[2] as int + 4 * (p[1] as int) + 16 * (p[3] as int) + 64 * (p[0] as int),
        corner_codes_spec([(0, 3), (1, 2), (0, 2)], p, 3) == p[3] as int + 4 * (p[2] as int) + 16 * (p[1] as int) + 64 * (p[0] as int),
        corner_codes_spec([(0, 3), (1, 2), (0, 2)], p, 4) == p[2] as int + 4 * (p[1] as int) + 16 * (p[0] as int) + 64 * (p[3] as int),
        corner_codes_spec([(0, 3), (1, 2), (0, 2)], p, 5) == p[0] as int + 4 * (p[2] as int) + 16 * (p[1] as int) + 64 * (p[3] as int),
        corner_codes_spec([(0, 3), (1, 2), (0, 2)], p, 6) == p[3] as int + 4 * (p[1] as int) + 16 * (p[2] as int) + 64 * (p[0] as int),
        corner_codes_spec([(0, 3), (1, 2), (0, 2)], p, 7) == p[0] as int + 4 * (p[1] as int) + 16 * (p[2] as int) + 64 * (p[3] as int),
{
    reveal_with_fuel(corner_order_upto, 4);
    broadcast use vstd::array::group_array_axioms;
}

/// The corner codes of atlas word 43.
pub proof fn lemma_codes_of_word_43(p: [usize; 4])
    ensures
        corner_codes_spec([(0, 3), (1, 3), (0, 2)], p, 0) == p[2] as int + 4 * (p[0] as int) + 16 * (p[3] as int) + 64 * (p[1] as int),
        corner_codes_spec([(0, 3), (1, 3), (0, 2)], p, 1) == p[2] as int + 4 * (p[3] as int) + 16 * (p[0] as int) + 64 * (p[1] as int),
        corner_codes_spec([(0, 3), (1, 3), (0, 2)], p, 2) == p[2] as int + 4 * (p[1] as int) + 16 * (p[3] as int) + 64 * (p[0] as int),
        corner_codes_spec([(0, 3), (1, 3), (0, 2)], p, 3) == p[3] as int + 4 * (p[0] as int) + 16 * (p[2] as int) + 64 * (p[1] as int),
        corner_codes_spec([(0, 3), (1, 3), (0, 2)], p, 4) == p[2] as int + 4 * (p[1] as int) + 16 * (p[0] as int) + 64 * (p[3] as int),
        corner_codes_spec([(0, 3), (1, 3), (0, 2)], p, 5) == p[0] as int + 4 * (p[3] as int) + 16 * (p[2] as int) + 64 * (p[1] as int),
        corner_codes_spec([(0, 3), (1, 3), (0, 2)], p, 6) == p[3] as int + 4 * (p[1] as int) + 16 * (p[2] as int) + 64 * (p[0] as int),
        corner_codes_spec([(0, 3), (1, 3), (0, 2)], p, 7) == p[0] as int + 4 * (p[1] as int) + 16 * (p[2] as int) + 64 * (p[3] as int),
{
    reveal_with_fuel(corner_order_upto, 4);
    broadcast use vstd::array::group_array_axioms;
}

/// The corner codes of atlas word 44.
pub proof fn lemma_codes_of_word_44(p: [usize; 4])
    ensures
        corner_codes_spec([(0, 3), (1, 3), (1, 2)], p, 0) == p[3] as int + 4 * (p[2] as int) + 16 * (p[0] as int) + 64 * (p[1] as int),
        corner_codes_spec([(0, 3), (1, 3), (1, 2)], p, 1) == p[0] as int + 4 * (p[2] as int) + 16 * (p[3] as int) + 64 * (p[1] as int),
        corner_codes_spec([(0, 3), (1, 3), (1, 2)], p, 2) == p[3] as int + 4 * (p[2] as int) + 16 * (p[1] as int) + 64 * (p[0] as int),
        corner_codes_spec([(0, 3), (1, 3), (1, 2)], p, 3) == p[3] as int + 4 * (p[0] as int) + 16 * (p[2] as int) + 64 * (p[1] as int),
        corner_codes_spec([(0, 3), (1, 3), (1, 2)], p, 4) == p[0] as int + 4 * (p[2] as int) + 16 * (p[1] as int) + 64 * (p[3] as int),
        corner_codes_spec([(0, 3), (1, 3), (1, 2)], p, 5) == p[0] as int + 4 * (p[3] as int) + 16 * (p[2] as int) + 64 * (p[1] as int),
        corner_codes_spec([(0, 3), (1, 3), (1, 2)], p, 6) == p[3] as int + 4 * (p[1] as int) + 16 * (p[2] as int) + 64 * (p[0] as int),
        corner_codes_spec([(0, 3), (1, 3), (1, 2)], p, 7) == p[0] as int + 4 * (p[1] as int) + 16 * (p[2] as int) + 64 * (p[3] as int),
{
    reveal_with_fuel(corner_order_upto, 4);
    broadcast use vstd::array::group_array_axioms;
}

/// The corner codes of atlas word 45.
pub proof fn lemma_codes_of_word_45(p: [usize; 4])
    ensures
        corner_codes_spec([(0, 3), (2, 3), (0, 1)], p, 0) == p[1] as int + 4 * (p[3] as int) + 16 * (p[0] as int) + 64 * (p[2] as int),
        corner_codes_spec([(0, 3), (2, 3), (0, 1)], p, 1) == p[1] as int + 4 * (p[0] as int) + 16 * (p[3] as int) + 64 * (p[2] as int),
        corner_codes_spec([(0, 3), (2, 3), (0, 1)], p, 2) == p[1] as int + 4 * (p[3] as int) + 16 * (p[2] as int) + 64 * (p[0] as int),
        corner_codes_spec([(0, 3), (2, 3), (0, 1)], p, 3) == p[3] as int + 4 * (p[1] as int) + 16 * (p[0] as int) + 64 * (p[2] as int),
        corner_codes_spec([(0, 3), (2, 3), (0, 1)], p, 4) == p[1] as int + 4 * (p[0] as int) + 16 * (p[2] as int) + 64 * (p[3] as int),
        corner_codes_spec([(0, 3), (2, 3), (0, 1)], p, 5) == p[0] as int + 4 * (p[1] as int) + 16 * (p[3] as int) + 64 * (p[2] as int),
        corner_codes_spec([(0, 3), (2, 3), (0, 1)], p, 6) == p[3] as int + 4 * (p[1] as int) + 16 * (p[2] as int) + 64 * (p[0] as int),
        corner_codes_spec([(0, 3), (2, 3), (0, 1)], p, 7) == p[0] as int + 4 * (p[1] as int) + 16 * (p[2] as int) + 64 * (p[3] as int),
{
    reveal_with_fuel(corner_order_upto, 4);
    broadcast use vstd::array::group_array_axioms;
}

/// The corner codes of atlas word 46.
pub proof fn lemma_codes_of_word_46(p: [usize; 4])
    ensures
        corner_codes_spec([(0, 3), (2, 3), (1, 2)], p, 0) == p[3] as int + 4 * (p[0] as int) + 16 * (p[1] as int) + 64 * (p[2] as int),
        corner_codes_spec([(0, 3), (2, 3), (1, 2)], p, 1) == p[0] as int + 4 * (p[3] as int) + 16 * (p[1] as int) + 64 * (p[2] as int),
        corner_codes_spec([(0, 3), (2, 3), (1, 2)], p, 2) == p[3] as int + 4 * (p[2] as int) + 16 * (p[1] as int) + 64 * (p[0] as int),
        corner_codes_spec([(0, 3), (2, 3), (1, 2)], p, 3) == p[3] as int + 4 * (p[1] as int) + 16 * (p[0] as int) + 64 * (p[2] as int),
        corner_codes_spec([(0, 3), (2, 3), (1, 2)], p, 4) == p[0] as int + 4 * (p[2] as int) + 16 * (p[1] as int) + 64 * (p[3] as int),
        corner_codes_spec([(0, 3), (2, 3), (1, 2)], p, 5) == p[0] as int + 4 * (p[1] as int) + 16 * (p[3] as int) + 64 * (p[2] as int),
        corner_codes_spec([(0, 3), (2, 3), (1, 2)], p, 6) == p[3] as int + 4 * (p[1] as int) + 16 * (p[2] as int) + 64 * (p[0] as int),
        corner_codes_spec([(0, 3), (2, 3), (1, 2)], p, 7) == p[0] as int + 4 * (p[1] as int) + 16 * (p[2] as int) + 64 * (p[3] as int),
{
    reveal_with_fuel(corner_order_upto, 4);
    broadcast use vstd::array::group_array_axioms;
}

/// The corner codes of atlas word 47.
pub proof fn lemma_codes_of_word_47(p: [usize; 4])
    ensures
        corner_codes_spec([(0, 3), (2, 3), (1, 3)], p, 0) == p[3] as int + 4 * (p[2] as int) + 16 * (p[0] as int) + 64 * (p[1] as int),
        corner_codes_spec([(0, 3), (2, 3), (1, 3)], p, 1) == p[0] as int + 4 * (p[2] as int) + 16 * (p[3] as int) + 64 * (p[1] as int),
        corner_codes_spec([(0, 3), (2, 3), (1, 3)], p, 2) == p[3] as int + 4 * (p[0] as int) + 16 * (p[2] as int) + 64 * (p[1] as int),
        corner_codes_spec([(0, 3), (2, 3), (1, 3)], p, 3) == p[3] as int + 4 * (p[1] as int) + 16 * (p[0] as int) + 64 * (p[2] as int),
        corner_codes_spec([(0, 3), (2, 3), (1, 3)], p, 4) == p[0] as int + 4 * (p[3] as int) + 16 * (p[2] as int) + 64 * (p[1] as int),
        corner_codes_spec([(0, 3), (2, 3), (1, 3)], p, 5) == p[0] as int + 4 * (p[1] as int) + 16 * (p[3] as int) + 64 * (p[2] as int),
        corner_codes_spec([(0, 3), (2, 3), (1, 3)], p, 6) == p[3] as int + 4 * (p[1] as int) + 16 * (p[2] as int) + 64 * (p[0] as int),
        corner_codes_spec([(0, 3), (2, 3), (1, 3)], p, 7) == p[0] as int + 4 * (p[1] as int) + 16 * (p[2] as int) + 64 * (p[3] as int),
{
    reveal_with_fuel(corner_order_upto, 4);
    broadcast use vstd::array::group_array_axioms;
}

/// The corner codes of atlas word 48.
pub proof fn lemma_codes_of_word_48(p: [usize; 4])
    ensures
        corner_codes_spec([(1, 2), (0, 1), (0, 3)], p, 0) == p[3] as int + 4 * (p[0] as int) + 16 * (p[1] as int) + 64 * (p[2] as int),
        corner_codes_spec([(1, 2), (0, 1), (0, 3)], p, 1) == p[3] as int + 4 * (p[0] as int) + 16 * (p[2] as int) + 64 * (p[1] as int),
        corner_codes_spec([(1, 2), (0, 1), (0, 3)], p, 2) == p[3] as int + 4 * (p[2] as int) + 16 * (p[1] as int) + 64 * (p[0] as int),
        corner_codes_spec([(1, 2), (0, 1), (0, 3)], p, 3) == p[2] as int + 4 * (p[0] as int) + 16 * (p[1] as int) + 64 * (p[3] as int),
        corner_codes_spec([(1, 2), (0, 1), (0, 3)], p, 4) == p[3] as int + 4 * (p[1] as int) + 16 * (p[2] as int) + 64 * (p[0] as int),
        corner_codes_spec([(1, 2), (0, 1), (0, 3)], p, 5) == p[1] as int + 4 * (p[0] as int) + 16 * (p[2] as int) + 64 * (p[3] as int),
        corner_codes_spec([(1, 2), (0, 1), (0, 3)], p, 6) == p[0] as int + 4 * (p[2] as int) + 16 * (p[1] as int) + 64 * (p[3] as int),
        corner_codes_spec([(1, 2), (0, 1), (0, 3)], p, 7) == p[0] as int + 4 * (p[1] as int) + 16 * (p[2] as int) + 64 * (p[3] as int),
{
    reveal_with_fuel(corner_order_upto, 4);
    broadcast use vstd::array::group_array_axioms;
}

/// The corner codes of atlas word 49.
pub proof fn lemma_codes_of_word_49(p: [usize; 4])
    ensures
        corner_codes_spec([(1, 2), (0, 1), (1, 3)], p, 0) == p[2] as int + 4 * (p[3] as int) + 16 * (p[1] as int) + 64 * (p[0] as int),
        corner_codes_spec([(1, 2), (0, 1), (1, 3)], p, 1) == p[1] as int + 4 * (p[3] as int) + 16 * (p[2] as int) + 64 * (p[0] as int),
        corner_codes_spec([(1, 2), (0, 1), (1, 3)], p, 2) == p[0] as int + 4 * (p[3] as int) + 16 * (p[1] as int) + 64 * (p[2] as int),
        corner_codes_spec([(1, 2), (0, 1), (1, 3)], p, 3) == p[2] as int + 4 * (p[0] as int) + 16 * (p[1] as int) + 64 * (p[3] as int),
        corner_codes_spec([(1, 2), (0, 1), (1, 3)], p, 4) == p[0] as int + 4 * (p[3] as int) + 16 * (p[2] as int) + 64 * (p[1] as int),
        corner_codes_spec([(1, 2), (0, 1), (1, 3)], p, 5) == p[1] as int + 4 * (p[0] as int) + 16 * (p[2] as int) + 64 * (p[3] as int),
        corner_codes_spec([(1, 2), (0, 1), (1, 3)], p, 6) == p[0] as int + 4 * (p[2] as int) + 16 * (p[1] as int) + 64 * (p[3] as int),
        corner_codes_spec([(1, 2), (0, 1), (1, 3)], p, 7) == p[0] as int + 4 * (p[1] as int) + 16 * (p[2] as int) + 64 * (p[3] as int),
{
    reveal_with_fuel(corner_order_upto, 4);
    broadcast use vstd::array::group_array_axioms;
}

/// The corner codes of atlas word 50.
pub proof fn lemma_codes_of_word_50(p: [usize; 4])
    ensures
        corner_codes_spec([(1, 2), (0, 1), (2, 3)], p, 0) == p[2] as int + 4 * (p[0] as int) + 16 * (p[3] as int) + 64 * (p[1] as int),
        corner_codes_spec([(1, 2), (0, 1), (2, 3)], p, 1) == p[1] as int + 4 * (p[0] as int) + 16 * (p[3] as int) + 64 * (p[2] as int),
        corner_codes_spec([(1, 2), (0, 1), (2, 3)], p, 2) == p[0] as int + 4 * (p[2] as int) + 16 * (p[3] as int) + 64 * (p[1] as int),
        corner_codes_spec([(1, 2), (0, 1), (2, 3)], p, 3) == p[2] as int + 4 * (p[0] as int) + 16 * (p[1] as int) + 64 * (p[3] as int),
        corner_codes_spec([(1, 2), (0, 1), (2, 3)], p, 4) == p[0] as int + 4 * (p[1] as int) + 16 * (p[3] as int) + 64 * (p[2] as int),
        corner_codes_spec([(1, 2), (0, 1), (2, 3)], p, 5) == p[1] as int + 4 * (p[0] as int) + 16 * (p[2] as int) + 64 * (p[3] as int),
        corner_codes_spec([(1, 2), (0, 1), (2, 3)], p, 6) == p[0] as int + 4 * (p[2] as int) + 16 * (p[1] as int) + 64 * (p[3] as int),
        corner_codes_spec([(1, 2), (0, 1), (2, 3)], p, 7) == p[0] as int + 4 * (p[1] as int) + 16 * (p[2] as int) + 64 * (p[3] as int),
{
    reveal_with_fuel(corner_order_upto, 4);
    broadcast use vstd::array::group_array_axioms;
}

/// The corner codes of atlas word 51.
pub proof fn lemma_codes_of_word_51(p: [usize; 4])
    ensures
        corner_codes_spec([(1, 2), (0, 2), (0, 3)], p, 0) == p[3] as int + 4 * (p[2] as int) + 16 * (p[0] as int) + 64 * (p[1] as int),
        corner_codes_spec([(1, 2), (0, 2), (0, 3)], p, 1) == p[3] as int + 4 * (p[1] as int) + 16 * (p[0] as int) + 64 * (p[2] as int),
        corner_codes_spec([(1, 2), (0, 2), (0, 3)], p, 2) == p[3] as int + 4 * (p[2] as int) + 16 * (p[1] as int) + 64 * (p[0] as int),
        corner_codes_spec([(1, 2), (0, 2), (0, 3)], p, 3) == p[1] as int + 4 * (p[2] as int) + 16 * (p[0] as int) + 64 * (p[3] as int),
        corner_codes_spec([(1, 2), (0, 2), (0, 3)], p, 4) == p[3] as int + 4 * (p[1] as int) + 16 * (p[2] as int) + 64 * (p[0] as int),
        corner_codes_spec([(1, 2), (0, 2), (0, 3)], p, 5) == p[2] as int + 4 * (p[1] as int) + 16 * (p[0] as int) + 64 * (p[3] as int),
        corner_codes_spec([(1, 2), (0, 2), (0, 3)], p, 6) == p[0] as int + 4 * (p[2] as int) + 16 * (p[1] as int) + 64 * (p[3] as int),
        corner_codes_spec([(1, 2), (0, 2), (0, 3)], p, 7) == p[0] as int + 4 * (p[1] as int) + 16 * (p[2] as int) + 64 * (p[3] as int),
{
    reveal_with_fuel(corner_order_upto, 4);
    broadcast use vstd::array::group_array_axioms;
}

/// The corner codes of atlas word 52.
pub proof fn lemma_codes_of_word_52(p: [usize; 4])
    ensures
        corner_codes_spec([(1, 2), (0, 2), (1, 3)], p, 0) == p[1] as int + 4 * (p[3] as int) + 16 * (p[0] as int) + 64 * (p[2] as int),
        corner_codes_spec([(1, 2), (0, 2), (1, 3)], p, 1) == p[2] as int + 4 * (p[3] as int) + 16 * (p[0] as int) + 64 * (p[1] as int),
        corner_codes_spec([(1, 2), (0, 2), (1, 3)], p, 2) == p[0] as int + 4 * (p[3] as int) + 16 * (p[1] as int) + 64 * (p[2] as int),
        corner_codes_spec([(1, 2), (0, 2), (1, 3)], p, 3) == p[1] as int + 4 * (p[2] as int) + 16 * (p[0] as int) + 64 * (p[3] as int),
        corner_codes_spec([(1, 2), (0, 2), (1, 3)], p, 4) == p[0] as int + 4 * (p[3] as int) + 16 * (p[2] as int) + 64 * (p[1] as int),
        corner_codes_spec([(1, 2), (0, 2), (1, 3)], p, 5) == p[2] as int + 4 * (p[1] as int) + 16 * (p[0] as int) + 64 * (p[3] as int),
        corner_codes_spec([(1, 2), (0, 2), (1, 3)], p, 6) == p[0] as int + 4 * (p[2] as int) + 16 * (p[1] as int) + 64 * (p[3] as int),
        corner_codes_spec([(1, 2), (0, 2), (1, 3)], p, 7) == p[0] as int + 4 * (p[1] as int) + 16 * (p[2] as int) + 64 * (p[3] as int),
{
    reveal_with_fuel(corner_order_upto, 4);
    broadcast use vstd::array::group_array_axioms;
}

/// The corner codes of atlas word 53.
pub proof fn lemma_codes_of_word_53(p: [usize; 4])
    ensures
        corner_codes_spec([(1, 2), (0, 2), (2, 3)], p, 0) == p[1] as int + 4 * (p[2] as int) + 16 * (p[3] as int) + 64 * (p[0] as int),
        corner_codes_spec([(1, 2), (0, 2), (2, 3)], p, 1) == p[2] as int + 4 * (p[1] as int) + 16 * (p[3] as int) + 64 * (p[0] as int),
        corner_codes_spec([(1, 2), (0, 2), (2, 3)], p, 2) == p[0] as int + 4 * (p[2] as int) + 16 * (p[3] as int) + 64 * (p[1] as int),
        corner_codes_spec([(1, 2), (0, 2), (2, 3)], p, 3) == p[1] as int + 4 * (p[2] as int) + 16 * (p[0] as int) + 64 * (p[3] as int),
        corner_codes_spec([(1, 2), (0, 2), (2, 3)], p, 4) == p[0] as int + 4 * (p[1] as int) + 16 * (p[3] as int) + 64 * (p[2] as int),
        corner_codes_spec([(1, 2), (0, 2), (2, 3)], p, 5) == p[2] as int + 4 * (p[1] as int) + 16 * (p[0] as int) + 64 * (p[3] as int),
        corner_codes_spec([(1, 2), (0, 2), (2, 3)], p, 6) == p[0] as int + 4 * (p[2] as int) + 16 * (p[1] as int) + 64 * (p[3] as int),
        corner_codes_spec([(1, 2), (0, 2), (2, 3)], p, 7) == p[0] as int + 4 * (p[1] as int) + 16 * (p[2] as int) + 64 * (p[3] as int),
{
    reveal_with_fuel(corner_order_upto, 4);
    broadcast use vstd::array::group_array_axioms;
}

/// The corner codes of atlas word 54.
pub proof fn lemma_codes_of_word_54(p: [usize; 4])
    ensures
        corner_codes_spec([(1, 2), (0, 3), (0, 1)], p, 0) == p[2] as int + 4 * (p[3] as int) + 16 * (p[1] as int) + 64 * (p[0] as int),
        corner_codes_spec([(1, 2), (0, 3), (0, 1)], p, 1) == p[1] as int + 4 * (p[3] as int) + 16 * (p[2] as int) + 64 * (p[0] as int),
        corner_codes_spec([(1, 2), (0, 3), (0, 1)], p, 2) == p[2] as int + 4 * (p[0] as int) + 16 * (p[1] as int) + 64 * (p[3] as int),
        corner_codes_spec([(1, 2), (0, 3), (0, 1)], p, 3) == p[3] as int + 4 * (p[2] as int) + 16 * (p[1] as int) + 64 * (p[0] as int),
        corner_codes_spec([(1, 2), (0, 3), (0, 1)], p, 4) == p[1] as int + 4 * (p[0] as int) + 16 * (p[2] as int) + 64 * (p[3] as int),
        corner_codes_spec([(1, 2), (0, 3), (0, 1)], p, 5) == p[3] as int + 4 * (p[1] as int) + 16 * (p[2] as int) + 64 * (p[0] as int),
        corner_codes_spec([(1, 2), (0, 3), (0, 1)], p, 6) == p[0] as int + 4 * (p[2] as int) + 16 * (p[1] as int) + 64 * (p[3] as int),
        corner_codes_spec([(1, 2), (0, 3), (0, 1)], p, 7) == p[0] as int + 4 * (p[1] as int) + 16 * (p[2] as int) + 64 * (p[3] as int),
{
    reveal_with_fuel(corner_order_upto, 4);
    broadcast use vstd::array::group_array_axioms;
}

/// The corner codes of atlas word 55.
pub proof fn lemma_codes_of_word_55(p: [usize; 4])
    ensures
        corner_codes_spec([(1, 2), (0, 3), (0, 2)], p, 0) == p[1] as int + 4 * (p[2] as int) + 16 * (p[3] as int) + 64 * (p[0] as int),
        corner_codes_spec([(1, 2), (0, 3), (0, 2)], p, 1) == p[2] as int + 4 * (p[1] as int) + 16 * (p[3] as int) + 64 * (p[0] as int),
        corner_codes_spec([(1, 2), (0, 3), (0, 2)], p, 2) == p[1] as int + 4 * (p[2] as int) + 16 * (p[0] as int) + 64 * (p[3] as int),
        corner_codes_spec([(1, 2), (0, 3), (0, 2)], p, 3) == p[3] as int + 4 * (p[2] as int) + 16 * (p[1] as int) + 64 * (p[0] as int),
        corner_codes_spec([(1, 2), (0, 3), (0, 2)], p, 4) == p[2] as int + 4 * (p[1] as int) + 16 * (p[0] as int) + 64 * (p[3] as int),
        corner_codes_spec([(1, 2), (0, 3), (0, 2)], p, 5) == p[3] as int + 4 * (p[1] as int) + 16 * (p[2] as int) + 64 * (p[0] as int),
        corner_codes_spec([(1, 2), (0, 3), (0, 2)], p, 6) == p[0] as int + 4 * (p[2] as int) + 16 * (p[1] as int) + 64 * (p[3] as int),
        corner_codes_spec([(1, 2), (0, 3), (0, 2)], p, 7) == p[0] as int + 4 * (p[1] as int) + 16 * (p[2] as int) + 64 * (p[3] as int),
{
    reveal_with_fuel(corner_order_upto, 4);
    broadcast use vstd::array::group_array_axioms;
}

/// The corner codes of atlas word 56.
pub proof fn lemma_codes_of_word_56(p: [usize; 4])
    ensures
        corner_codes_spec([(1, 2), (0, 3), (1, 3)], p, 0) == p[3] as int + 4 * (p[0] as int) + 16 * (p[1] as int) + 64 * (p[2] as int),
        corner_codes_spec([(1, 2), (0, 3), (1, 3)], p, 1) == p[3] as int + 4 * (p[0] as int) + 16 * (p[2] as int) + 64 * (p[1] as int),
        corner_codes_spec([(1, 2), (0, 3), (1, 3)], p, 2) == p[0] as int + 4 * (p[3] as int) + 16 * (p[1] as int) + 64 * (p[2] as int),
        corner_codes_spec([(1, 2), (0, 3), (1, 3)], p, 3) == p[3] as int + 4 * (p[2] as int) + 16 * (p[1] as int) + 64 * (p[0] as int),
        corner_codes_spec([(1, 2), (0, 3), (1, 3)], p, 4) == p[0] as int + 4 * (p[3] as int) + 16 * (p[2] as int) + 64 * (p[1] as int),
        corner_codes_spec([(1, 2), (0, 3), (1, 3)], p, 5) == p[3] as int + 4 * (p[1] as int) + 16 * (p[2] as int) + 64 * (p[0] as int),
        corner_codes_spec([(1, 2), (0, 3), (1, 3)], p, 6) == p[0] as int + 4 * (p[2] as int) + 16 * (p[1] as int) + 64 * (p[3] as int),
        corner_codes_spec([(1, 2), (0, 3), (1, 3)], p, 7) == p[0] as int + 4 * (p[1] as int) + 16 * (p[2] as int) + 64 * (p[3] as int),
{
    reveal_with_fuel(corner_order_upto, 4);
    broadcast use vstd::array::group_array_axioms;
}

/// The corner codes of atlas word 57.
pub proof fn lemma_codes_of_word_57(p: [usize; 4])
    ensures
        corner_codes_spec([(1, 2), (0, 3), (2, 3)], p, 0) == p[3] as int + 4 * (p[2] as int) + 16 * (p[0] as int) + 64 * (p[1] as int),
        corner_codes_spec([(1, 2), (0, 3), (2, 3)], p, 1) == p[3] as int + 4 * (p[1] as int) + 16 * (p[0] as int) + 64 * (p[2] as int),
        corner_codes_spec([(1, 2), (0, 3), (2, 3)], p, 2) == p[0] as int + 4 * (p[2] as int) + 16 * (p[3] as int) + 64 * (p[1] as int),
        corner_codes_spec([(1, 2), (0, 3), (2, 3)], p, 3) == p[3] as int + 4 * (p[2] as int) + 16 * (p[1] as int) + 64 * (p[0] as int),
        corner_codes_spec([(1, 2), (0, 3), (2, 3)], p, 4) == p[0] as int + 4 * (p[1] as int) + 16 * (p[3] as int) + 64 * (p[2] as int),
        corner_codes_spec([(1, 2), (0, 3), (2, 3)], p, 5) == p[3] as int + 4 * (p[1] as int) + 16 * (p[2] as int) + 64 * (p[0] as int),
        corner_codes_spec([(1, 2), (0, 3), (2, 3)], p, 6) == p[0] as int + 4 * (p[2] as int) + 16 * (p[1] as int) + 64 * (p[3] as int),
        corner_codes_spec([(1, 2), (0, 3), (2, 3)], p, 7) == p[0] as int + 4 * (p[1] as int) + 16 * (p[2] as int) + 64 * (p[3] as int),
{
    reveal_with_fuel(corner_order_upto, 4);
    broadcast use vstd::array::group_array_axioms;
}

/// The corner codes of atlas word 58.
pub proof fn lemma_codes_of_word_58(p: [usize; 4])
    ensures
        corner_codes_spec([(1, 2), (1, 3), (0, 1)], p, 0) == p[3] as int + 4 * (p[0] as int) + 16 * (p[1] as int) + 64 * (p[2] as int),
        corner_codes_spec([(1, 2), (1, 3), (0, 1)], p, 1) == p[3] as int + 4 * (p[0] as int) + 16 * (p[2] as int) + 64 * (p[1] as int),
        corner_codes_spec([(1, 2), (1, 3), (0, 1)], p, 2) == p[2] as int + 4 * (p[0] as int) + 16 * (p[1] as int) + 64 * (p[3] as int),
        corner_codes_spec([(1, 2), (1, 3), (0, 1)], p, 3) == p[0] as int + 4 * (p[3] as int) + 16 * (p[1] as int) + 64 * (p[2] as int),
        corner_codes_spec([(1, 2), (1, 3), (0, 1)], p, 4) == p[1] as int + 4 * (p[0] as int) + 16 * (p[2] as int) + 64 * (p[3] as int),
        corner_codes_spec([(1, 2), (1, 3), (0, 1)], p, 5) == p[0] as int + 4 * (p[3] as int) + 16 * (p[2] as int) + 64 * (p[1] as int),
        corner_codes_spec([(1, 2), (1, 3), (0, 1)], p, 6) == p[0] as int + 4 * (p[2] as int) + 16 * (p[1] as int) + 64 * (p[3] as int),
        corner_codes_spec([(1, 2), (1, 3), (0, 1)], p, 7) == p[0] as int + 4 * (p[1] as int) + 16 * (p[2] as int) + 64 * (p[3] as int),
{
    reveal_with_fuel(corner_order_upto, 4);
    broadcast use vstd::array::group_array_axioms;
}

/// The corner codes of atlas word 59.
pub proof fn lemma_codes_of_word_59(p: [usize; 4])
    ensures
        corner_codes_spec([(1, 2), (1, 3), (0, 2)], p, 0) == p[1] as int + 4 * (p[3] as int) + 16 * (p[0] as int) + 64 * (p[2] as int),
        corner_codes_spec([(1, 2), (1, 3), (0, 2)], p, 1) == p[2] as int + 4 * (p[3] as int) + 16 * (p[0] as int) + 64 * (p[1] as int),
        corner_codes_spec([(1, 2), (1, 3), (0, 2)], p, 2) == p[1] as int + 4 * (p[2] as int) + 16 * (p[0] as int) + 64 * (p[3] as int),
        corner_codes_spec([(1, 2), (1, 3), (0, 2)], p, 3) == p[0] as int + 4 * (p[3] as int) + 16 * (p[1] as int) + 64 * (p[2] as int),
        corner_codes_spec([(1, 2), (1, 3), (0, 2)], p, 4) == p[2] as int + 4 * (p[1] as int) + 16 * (p[0] as int) + 64 * (p[3] as int),
        corner_codes_spec([(1, 2), (1, 3), (0, 2)], p, 5) == p[0] as int + 4 * (p[3] as int) + 16 * (p[2] as int) + 64 * (p[1] as int),
        corner_codes_spec([(1, 2), (1, 3), (0, 2)], p, 6) == p[0] as int + 4 * (p[2] as int) + 16 * (p[1] as int) + 64 * (p[3] as int),
        corner_codes_spec([(1, 2), (1, 3), (0, 2)], p, 7) == p[0] as int + 4 * (p[1] as int) + 16 * (p[2] as int) + 64 * (p[3] as int),
{
    reveal_with_fuel(corner_order_upto, 4);
    broadcast use vstd::array::group_array_axioms;
}

/// The corner codes of atlas word 60.
pub proof fn lemma_codes_of_word_60(p: [usize; 4])
    ensures
        corner_codes_spec([(1, 2), (1, 3), (0, 3)], p, 0) == p[2] as int + 4 * (p[3] as int) + 16 * (p[1] as int) + 64 * (p[0] as int),
        corner_codes_spec([(1, 2), (1, 3), (0, 3)], p, 1) == p[1] as int + 4 * (p[3] as int) + 16 * (p[2] as int) + 64 * (p[0] as int),
        corner_codes_spec([(1, 2), (1, 3), (0, 3)], p, 2) == p[3] as int + 4 * (p[2] as int) + 16 * (p[1] as int) + 64 * (p[0] as int),
        corner_codes_spec([(1, 2), (1, 3), (0, 3)], p, 3) == p[0] as int + 4 * (p[3] as int) + 16 * (p[1] as int) + 64 * (p[2] as int),
        corner_codes_spec([(1, 2), (1, 3), (0, 3)], p, 4) == p[3] as int + 4 * (p[1] as int) + 16 * (p[2] as int) + 64 * (p[0] as int),
        corner_codes_spec([(1, 2), (1, 3), (0, 3)], p, 5) == p[0] as int + 4 * (p[3] as int) + 16 * (p[2] as int) + 64 * (p[1] as int),
        corner_codes_spec([(1, 2), (1, 3), (0, 3)], p, 6) == p[0] as int + 4 * (p[2] as int) + 16 * (p[1] as int) + 64 * (p[3] as int),
        corner_codes_spec([(1, 2), (1, 3), (0, 3)], p, 7) == p[0] as int + 4 * (p[1] as int) + 16 * (p[2] as int) + 64 * (p[3] as int),
{
    reveal_with_fuel(corner_order_upto, 4);
    broadcast use vstd::array::group_array_axioms;
}

/// The corner codes of atlas word 61.
pub proof fn lemma_codes_of_word_61(p: [usize; 4])
    ensures
        corner_codes_spec([(1, 2), (2, 3), (0, 1)], p, 0) == p[2] as int + 4 * (p[0] as int) + 16 * (p[3] as int) + 64 * (p[1] as int),
        corner_codes_spec([(1, 2), (2, 3), (0, 1)], p, 1) == p[1] as int + 4 * (p[0] as int) + 16 * (p[3] as int) + 64 * (p[2] as int),
        corner_codes_spec([(1, 2), (2, 3), (0, 1)], p, 2) == p[2] as int + 4 * (p[0] as int) + 16 * (p[1] as int) + 64 * (p[3] as int),
        corner_codes_spec([(1, 2), (2, 3), (0, 1)], p, 3) == p[0] as int + 4 * (p[2] as int) + 16 * (p[3] as int) + 64 * (p[1] as int),
        corner_codes_spec([(1, 2), (2, 3), (0, 1)], p, 4) == p[1] as int + 4 * (p[0] as int) + 16 * (p[2] as int) + 64 * (p[3] as int),
        corner_codes_spec([(1, 2), (2, 3), (0, 1)], p, 5) == p[0] as int + 4 * (p[1] as int) + 16 * (p[3] as int) + 64 * (p[2] as int),
        corner_codes_spec([(1, 2), (2, 3), (0, 1)], p, 6) == p[0] as int + 4 * (p[2] as int) + 16 * (p[1] as int) + 64 * (p[3] as int),
        corner_codes_spec([(1, 2), (2, 3), (0, 1)], p, 7) == p[0] as int + 4 * (p[1] as int) + 16 * (p[2] as int) + 64 * (p[3] as int),
{
    reveal_with_fuel(corner_order_upto, 4);
    broadcast use vstd::array::group_array_axioms;
}

/// The corner codes of atlas word 62.
pub proof fn lemma_codes_of_word_62(p: [usize; 4])
    ensures
        corner_codes_spec([(1, 2), (2, 3), (0, 2)], p, 0) == p[3] as int + 4 * (p[2] as int) + 16 * (p[0] as int) + 64 * (p[1] as int),
        corner_codes_spec([(1, 2), (2, 3), (0, 2)], p, 1) == p[3] as int + 4 * (p[1] as int) + 16 * (p[0] as int) + 64 * (p[2] as int),
        corner_codes_spec([(1, 2), (2, 3), (0, 2)], p, 2) == p[1] as int + 4 * (p[2] as int) + 16 * (p[0] as int) + 64 * (p[3] as int),
        corner_codes_spec([(1, 2), (2, 3), (0, 2)], p, 3) == p[0] as int + 4 * (p[2] as int) + 16 * (p[3] as int) + 64 * (p[1] as int),
        corner_codes_spec([(1, 2), (2, 3), (0, 2)], p, 4) == p[2] as int + 4 * (p[1] as int) + 16 * (p[0] as int) + 64 * (p[3] as int),
        corner_codes_spec([(1, 2), (2, 3), (0, 2)], p, 5) == p[0] as int + 4 * (p[1] as int) + 16 * (p[3] as int) + 64 * (p[2] as int),
        corner_codes_spec([(1, 2), (2, 3), (0, 2)], p, 6) == p[0] as int + 4 * (p[2] as int) + 16 * (p[1] as int) + 64 * (p[3] as int),
        corner_codes_spec([(1, 2), (2, 3), (0, 2)], p, 7) == p[0] as int + 4 * (p[1] as int) + 16 * (p[2] as int) + 64 * (p[3] as int),
{
    reveal_with_fuel(corner_order_upto, 4);
    broadcast use vstd::array::group_array_axioms;
}

/// The corner codes of atlas word 63.
pub proof fn lemma_codes_of_word_63(p: [usize; 4])
    ensures
        corner_codes_spec([(1, 2), (2, 3), (0, 3)], p, 0) == p[1] as int + 4 * (p[2] as int) + 16 * (p[3] as int) + 64 * (p[0] as int),
        corner_codes_spec([(1, 2), (2, 3), (0, 3)], p, 1) == p[2] as int + 4 * (p[1] as int) + 16 * (p[3] as int) + 64 * (p[0] as int),
        corner_codes_spec([(1, 2), (2, 3), (0, 3)], p, 2) == p[3] as int + 4 * (p[2] as int) + 16 * (p[1] as int) + 64 * (p[0] as int),
        corner_codes_spec([(1, 2), (2, 3), (0, 3)], p, 3) == p[0] as int + 4 * (p[2] as int) + 16 * (p[3] as int) + 64 * (p[1] as int),
        corner_codes_spec([(1, 2), (2, 3), (0, 3)], p, 4) == p[3] as int + 4 * (p[1] as int) + 16 * (p[2] as int) + 64 * (p[0] as int),
        corner_codes_spec([(1, 2), (2, 3), (0, 3)], p, 5) == p[0] as int + 4 * (p[1] as int) + 16 * (p[3] as int) + 64 * (p[2] as int),
        corner_codes_spec([(1, 2), (2, 3), (0, 3)], p, 6) == p[0] as int + 4 * (p[2] as int) + 16 * (p[1] as int) + 64 * (p[3] as int),
        corner_codes_spec([(1, 2), (2, 3), (0, 3)], p, 7) == p[0] as int + 4 * (p[1] as int) + 16 * (p[2] as int) + 64 * (p[3] as int),
{
    reveal_with_fuel(corner_order_upto, 4);
    broadcast use vstd::array::group_array_axioms;
}

/// The corner codes of atlas word 64.
pub proof fn lemma_codes_of_word_64(p: [usize; 4])
    ensures
        corner_codes_spec([(1, 3), (0, 1), (0, 2)], p, 0) == p[2] as int + 4 * (p[0] as int) + 16 * (p[3] as int) + 64 * (p[1] as int),
        corner_codes_spec([(1, 3), (0, 1), (0, 2)], p, 1) == p[2] as int + 4 * (p[0] as int) + 16 * (p[1] as int) + 64 * (p[3] as int),
        corner_codes_spec([(1, 3), (0, 1), (0, 2)], p, 2) == p[2] as int + 4 * (p[3] as int) + 16 * (p[0] as int) + 64 * (p[1] as int),
        corner_codes_spec([(1, 3), (0, 1), (0, 2)], p, 3) == p[3] as int + 4 * (p[0] as int) + 16 * (p[2] as int) + 64 * (p[1] as int),
        corner_codes_spec([(1, 3), (0, 1), (0, 2)], p, 4) == p[2] as int + 4 * (p[1] as int) + 16 * (p[0] as int) + 64 * (p[3] as int),
        corner_codes_spec([(1, 3), (0, 1), (0, 2)], p, 5) == p[1] as int + 4 * (p[0] as int) + 16 * (p[2] as int) + 64 * (p[3] as int),
        corner_codes_spec([(1, 3), (0, 1), (0, 2)], p, 6) == p[0] as int + 4 * (p[3] as int) + 16 * (p[2] as int) + 64 * (p[1] as int),
        corner_codes_spec([(1, 3), (0, 1), (0, 2)], p, 7) == p[0] as int + 4 * (p[1] as int) + 16 * (p[2] as int) + 64 * (p[3] as int),
{
    reveal_with_fuel(corner_order_upto, 4);
    broadcast use vstd::array::group_array_axioms;
}

/// The corner codes of atlas word 65.
pub proof fn lemma_codes_of_word_65(p: [usize; 4])
    ensures
        corner_codes_spec([(1, 3), (0, 1), (1, 2)], p, 0) == p[3] as int + 4 * (p[2] as int) + 16 * (p[0] as int) + 64 * (p[1] as int),
        corner_codes_spec([(1, 3), (0, 1), (1, 2)], p, 1) == p[1] as int + 4 * (p[2] as int) + 16 * (p[0] as int) + 64 * (p[3] as int),
        corner_codes_spec([(1, 3), (0, 1), (1, 2)], p, 2) == p[0] as int + 4 * (p[2] as int) + 16 * (p[3] as int) + 64 * (p[1] as int),
        corner_codes_spec([(1, 3), (0, 1), (1, 2)], p, 3) == p[3] as int + 4 * (p[0] as int) + 16 * (p[2] as int) + 64 * (p[1] as int),
        corner_codes_spec([(1, 3), (0, 1), (1, 2)], p, 4) == p[0] as int + 4 * (p[2] as int) + 16 * (p[1] as int) + 64 * (p[3] as int),
        corner_codes_spec([(1, 3), (0, 1), (1, 2)], p, 5) == p[1] as int + 4 * (p[0] as int) + 16 * (p[2] as int) + 64 * (p[3] as int),
        corner_codes_spec([(1, 3), (0, 1), (1, 2)], p, 6) == p[0] as int + 4 * (p[3] as int) + 16 * (p[2] as int) + 64 * (p[1] as int),
        corner_codes_spec([(1, 3), (0, 1), (1, 2)], p, 7) == p[0] as int + 4 * (p[1] as int) + 16 * (p[2] as int) + 64 * (p[3] as int),
{
    reveal_with_fuel(corner_order_upto, 4);
    broadcast use vstd::array::group_array_axioms;
}

/// The corner codes of atlas word 66.
pub proof fn lemma_codes_of_word_66(p: [usize; 4])
    ensures
        corner_codes_spec([(1, 3), (0, 1), (2, 3)], p, 0) == p[3] as int + 4 * (p[0] as int) + 16 * (p[1] as int) + 64 * (p[2] as int),
        corner_codes_spec([(1, 3), (0, 1), (2, 3)], p, 1) == p[1] as int + 4 * (p[0] as int) + 16 * (p[3] as int) + 64 * (p[2] as int),
        corner_codes_spec([(1, 3), (0, 1), (2, 3)], p, 2) == p[0] as int + 4 * (p[3] as int) + 16 * (p[1] as int) + 64 * (p[2] as int),
        corner_codes_spec([(1, 3), (0, 1), (2, 3)], p, 3) == p[3] as int + 4 * (p[0] as int) + 16 * (p[2] as int) + 64 * (p[1] as int),
        corner_codes_spec([(1, 3), (0, 1), (2, 3)], p, 4) == p[0] as int + 4 * (p[1] as int) + 16 * (p[3] as int) + 64 * (p[2] as int),
        corner_codes_spec([(1, 3), (0, 1), (2, 3)], p, 5) == p[1] as int + 4 * (p[0] as int) + 16 * (p[2] as int) + 64 * (p[3] as int),
        corner_codes_spec([(1, 3), (0, 1), (2, 3)], p, 6) == p[0] as int + 4 * (p[3] as int) + 16 * (p[2] as int) + 64 * (p[1] as int),
        corner_codes_spec([(1, 3), (0, 1), (2, 3)], p, 7) == p[0] as int + 4 * (p[1] as int) + 16 * (p[2] as int) + 64 * (p[3] as int),
{
    reveal_with_fuel(corner_order_upto, 4);
    broadcast use vstd::array::group_array_axioms;
}

/// The corner codes of atlas word 67.
pub proof fn lemma_codes_of_word_67(p: [usize; 4])
    ensures
        corner_codes_spec([(1, 3), (0, 2), (0, 1)], p, 0) == p[3] as int + 4 * (p[2] as int) + 16 * (p[0] as int) + 64 * (p[1] as int),
        corner_codes_spec([(1, 3), (0, 2), (0, 1)], p, 1) == p[1] as int + 4 * (p[2] as int) + 16 * (p[0] as int) + 64 * (p[3] as int),
        corner_codes_spec([(1, 3), (0, 2), (0, 1)], p, 2) == p[3] as int + 4 * (p[0] as int) + 16 * (p[2] as int) + 64 * (p[1] as int),
        corner_codes_spec([(1, 3), (0, 2), (0, 1)], p, 3) == p[2] as int + 4 * (p[3] as int) + 16 * (p[0] as int) + 64 * (p[1] as int),
        corner_codes_spec([(1, 3), (0, 2), (0, 1)], p, 4) == p[1] as int + 4 * (p[0] as int) + 16 * (p[2] as int) + 64 * (p[3] as int),
        corner_codes_spec([(1, 3), (0, 2), (0, 1)], p, 5) == p[2] as int + 4 * (p[1] as int) + 16 * (p[0] as int) + 64 * (p[3] as int),
        corner_codes_spec([(1, 3), (0, 2), (0, 1)], p, 6) == p[0] as int + 4 * (p[3] as int) + 16 * (p[2] as int) + 64 * (p[1] as int),
        corner_codes_spec([(1, 3), (0, 2), (0, 1)], p, 7) == p[0] as int + 4 * (p[1] as int) + 16 * (p[2] as int) + 64 * (p[3] as int),
{
    reveal_with_fuel(corner_order_upto, 4);
    broadcast use vstd::array::group_array_axioms;
}

/// The corner codes of atlas word 68.
pub proof fn lemma_codes_of_word_68(p: [usize; 4])
    ensures
        corner_codes_spec([(1, 3), (0, 2), (0, 3)], p, 0) == p[1] as int + 4 * (p[3] as int) + 16 * (p[0] as int) + 64 * (p[2] as int),
        corner_codes_spec([(1, 3), (0, 2), (0, 3)], p, 1) == p[3] as int + 4 * (p[1] as int) + 16 * (p[0] as int) + 64 * (p[2] as int),
        corner_codes_spec([(1, 3), (0, 2), (0, 3)], p, 2) == p[1] as int + 4 * (p[3] as int) + 16 * (p[2] as int) + 64 * (p[0] as int),
        corner_codes_spec([(1, 3), (0, 2), (0, 3)], p, 3) == p[2] as int + 4 * (p[3] as int) + 16 * (p[0] as int) + 64 * (p[1] as int),
        corner_codes_spec([(1, 3), (0, 2), (0, 3)], p, 4) == p[3] as int + 4 * (p[1] as int) + 16 * (p[2] as int) + 64 * (p[0] as int),
        corner_codes_spec([(1, 3), (0, 2), (0, 3)], p, 5) == p[2] as int + 4 * (p[1] as int) + 16 * (p[0] as int) + 64 * (p[3] as int),
        corner_codes_spec([(1, 3), (0, 2), (0, 3)], p, 6) == p[0] as int + 4 * (p[3] as int) + 16 * (p[2] as int) + 64 * (p[1] as int),
        corner_codes_spec([(1, 3), (0, 2), (0, 3)], p, 7) == p[0] as int + 4 * (p[1] as int) + 16 * (p[2] as int) + 64 * (p[3] as int),
{
    reveal_with_fuel(corner_order_upto, 4);
    broadcast use vstd::array::group_array_axioms;
}

/// The corner codes of atlas word 69.
pub proof fn lemma_codes_of_word_69(p: [usize; 4])
    ensures
        corner_codes_spec([(1, 3), (0, 2), (1, 2)], p, 0) == p[2] as int + 4 * (p[0] as int) + 16 * (p[3] as int) + 64 * (p[1] as int),
        corner_codes_spec([(1, 3), (0, 2), (1, 2)], p, 1) == p[2] as int + 4 * (p[0] as int) + 16 * (p[1] as int) + 64 * (p[3] as int),
        corner_codes_spec([(1, 3), (0, 2), (1, 2)], p, 2) == p[0] as int + 4 * (p[2] as int) + 16 * (p[3] as int) + 64 * (p[1] as int),
        corner_codes_spec([(1, 3), (0, 2), (1, 2)], p, 3) == p[2] as int + 4 * (p[3] as int) + 16 * (p[0] as int) + 64 * (p[1] as int),
        corner_codes_spec([(1, 3), (0, 2), (1, 2)], p, 4) == p[0] as int + 4 * (p[2] as int) + 16 * (p[1] as int) + 64 * (p[3] as int),
        corner_codes_spec([(1, 3), (0, 2), (1, 2)], p, 5) == p[2] as int + 4 * (p[1] as int) + 16 * (p[0] as int) + 64 * (p[3] as int),
        corner_codes_spec([(1, 3), (0, 2), (1, 2)], p, 6) == p[0] as int + 4 * (p[3] as int) + 16 * (p[2] as int) + 64 * (p[1] as int),
        corner_codes_spec([(1, 3), (0, 2), (1, 2)], p, 7) == p[0] as int + 4 * (p[1] as int) + 16 * (p[2] as int) + 64 * (p[3] as int),
{
    reveal_with_fuel(corner_order_upto, 4);
    broadcast use vstd::array::group_array_axioms;
}

/// The corner codes of atlas word 70.
pub proof fn lemma_codes_of_word_70(p: [usize; 4])
    ensures
        corner_codes_spec([(1, 3), (0, 2), (2, 3)], p, 0) == p[2] as int + 4 * (p[3] as int) + 16 * (p[1] as int) + 64 * (p[0] as int),
        corner_codes_spec([(1, 3), (0, 2), (2, 3)], p, 1) == p[2] as int + 4 * (p[1] as int) + 16 * (p[3] as int) + 64 * (p[0] as int),
        corner_codes_spec([(1, 3), (0, 2), (2, 3)], p, 2) == p[0] as int + 4 * (p[3] as int) + 16 * (p[1] as int) + 64 * (p[2] as int),
        corner_codes_spec([(1, 3), (0, 2), (2, 3)], p, 3) == p[2] as int + 4 * (p[3] as int) + 16 * (p[0] as int) + 64 * (p[1] as int),
        corner_codes_spec([(1, 3), (0, 2), (2, 3)], p, 4) == p[0] as int + 4 * (p[1] as int) + 16 * (p[3] as int) + 64 * (p[2] as int),
        corner_codes_spec([(1, 3), (0, 2), (2, 3)], p, 5) == p[2] as int + 4 * (p[1] as int) + 16 * (p[0] as int) + 64 * (p[3] as int),
        corner_codes_spec([(1, 3), (0, 2), (2, 3)], p, 6) == p[0] as int + 4 * (p[3] as int) + 16 * (p[2] as int) + 64 * (p[1] as int),
        corner_codes_spec([(1, 3), (0, 2), (2, 3)], p, 7) == p[0] as int + 4 * (p[1] as int) + 16 * (p[2] as int) + 64 * (p[3] as int),
{
    reveal_with_fuel(corner_order_upto, 4);
    broadcast use vstd::array::group_array_axioms;
}

/// The corner codes of atlas word 71.
pub proof fn lemma_codes_of_word_71(p: [usize; 4])
    ensures
        corner_codes_spec([(1, 3), (0, 3), (0, 2)], p, 0) == p[2] as int + 4 * (p[3] as int) + 16 * (p[1] as int) + 64 * (p[0] as int),
        corner_codes_spec([(1, 3), (0, 3), (0, 2)], p, 1) == p[2] as int + 4 * (p[1] as int) + 16 * (p[3] as int) + 64 * (p[0] as int),
        corner_codes_spec([(1, 3), (0, 3), (0, 2)], p, 2) == p[2] as int + 4 * (p[3] as int) + 16 * (p[0] as int) + 64 * (p[1] as int),
        corner_codes_spec([(1, 3), (0, 3), (0, 2)], p, 3) == p[1] as int + 4 * (p[3] as int) + 16 * (p[2] as int) + 64 * (p[0] as int),
        corner_codes_spec([(1, 3), (0, 3), (0, 2)], p, 4) == p[2] as int + 4 * (p[1] as int) + 16 * (p[0] as int) + 64 * (p[3] as int),
        corner_codes_spec([(1, 3), (0, 3), (0, 2)], p, 5) == p[3] as int + 4 * (p[1] as int) + 16 * (p[2] as int) + 64 * (p[0] as int),
        corner_codes_spec([(1, 3), (0, 3), (0, 2)], p, 6) == p[0] as int + 4 * (p[3] as int) + 16 * (p[2] as int) + 64 * (p[1] as int),
        corner_codes_spec([(1, 3), (0, 3), (0, 2)], p, 7) == p[0] as int + 4 * (p[1] as int) + 16 * (p[2] as int) + 64 * (p[3] as int),
{
    reveal_with_fuel(corner_order_upto, 4);
    broadcast use vstd::array::group_array_axioms;
}

/// The corner codes of atlas word 72.
pub proof fn lemma_codes_of_word_72(p: [usize; 4])
    ensures
        corner_codes_spec([(1, 3), (0, 3), (1, 2)], p, 0) == p[1] as int + 4 * (p[2] as int) + 16 * (p[3] as int) + 64 * (p[0] as int),
        corner_codes_spec([(1, 3), (0, 3), (1, 2)], p, 1) == p[3] as int + 4 * (p[2] as int) + 16 * (p[1] as int) + 64 * (p[0] as int),
        corner_codes_spec([(1, 3), (0, 3), (1, 2)], p, 2) == p[0] as int + 4 * (p[2] as int) + 16 * (p[3] as int) + 64 * (p[1] as int),
        corner_codes_spec([(1, 3), (0, 3), (1, 2)], p, 3) == p[1] as int + 4 * (p[3] as int) + 16 * (p[2] as int) + 64 * (p[0] as int),
        corner_codes_spec([(1, 3), (0, 3), (1, 2)], p, 4) == p[0] as int + 4 * (p[2] as int) + 16 * (p[1] as int) + 64 * (p[3] as int),
        corner_codes_spec([(1, 3), (0, 3), (1, 2)], p, 5) == p[3] as int + 4 * (p[1] as int) + 16 * (p[2] as int) + 64 * (p[0] as int),
        corner_codes_spec([(1, 3), (0, 3), (1, 2)], p, 6) == p[0] as int + 4 * (p[3] as int) + 16 * (p[2] as int) + 64 * (p[1] as int),
        corner_codes_spec([(1, 3), (0, 3), (1, 2)], p, 7) == p[0] as int + 4 * (p[1] as int) + 16 * (p[2] as int) + 64 * (p[3] as int),
{
    reveal_with_fuel(corner_order_upto, 4);
    broadcast use vstd::array::group_array_axioms;
}

/// The corner codes of atlas word 73.
pub proof fn lemma_codes_of_word_73(p: [usize; 4])
    ensures
        corner_codes_spec([(1, 3), (0, 3), (2, 3)], p, 0) == p[1] as int + 4 * (p[3] as int) + 16 * (p[0] as int) + 64 * (p[2] as int),
        corner_codes_spec([(1, 3), (0, 3), (2, 3)], p, 1) == p[3] as int + 4 * (p[1] as int) + 16 * (p[0] as int) + 64 * (p[2] as int),
        corner_codes_spec([(1, 3), (0, 3), (2, 3)], p, 2) == p[0] as int + 4 * (p[3] as int) + 16 * (p[1] as int) + 64 * (p[2] as int),
        corner_codes_spec([(1, 3), (0, 3), (2, 3)], p, 3) == p[1] as int + 4 * (p[3] as int) + 16 * (p[2] as int) + 64 * (p[0] as int),
        corner_codes_spec([(1, 3), (0, 3), (2, 3)], p, 4) == p[0] as int + 4 * (p[1] as int) + 16 * (p[3] as int) + 64 * (p[2] as int),
        corner_codes_spec([(1, 3), (0, 3), (2, 3)], p, 5) == p[3] as int + 4 * (p[1] as int) + 16 * (p[2] as int) + 64 * (p[0] as int),
        corner_codes_spec([(1, 3), (0, 3), (2, 3)], p, 6) == p[0] as int + 4 * (p[3] as int) + 16 * (p[2] as int) + 64 * (p[1] as int),
        corner_codes_spec([(1, 3), (0, 3), (2, 3)], p, 7) == p[0] as int + 4 * (p[1] as int) + 16 * (p[2] as int) + 64 * (p[3] as int),
{
    reveal_with_fuel(corner_order_upto, 4);
    broadcast use vstd::array::group_array_axioms;
}

/// The corner codes of atlas word 74.
pub proof fn lemma_codes_of_word_74(p: [usize; 4])
    ensures
        corner_codes_spec([(1, 3), (1, 2), (0, 1)], p, 0) == p[2] as int + 4 * (p[0] as int) + 16 * (p[3] as int) + 64 * (p[1] as int),
        corner_codes_spec([(1, 3), (1, 2), (0, 1)], p, 1) == p[2] as int + 4 * (p[0] as int) + 16 * (p[1] as int) + 64 * (p[3] as int),
        corner_codes_spec([(1, 3), (1, 2), (0, 1)], p, 2) == p[3] as int + 4 * (p[0] as int) + 16 * (p[2] as int) + 64 * (p[1] as int),
        corner_codes_spec([(1, 3), (1, 2), (0, 1)], p, 3) == p[0] as int + 4 * (p[2] as int) + 16 * (p[3] as int) + 64 * (p[1] as int),
        corner_codes_spec([(1, 3), (1, 2), (0, 1)], p, 4) == p[1] as int + 4 * (p[0] as int) + 16 * (p[2] as int) + 64 * (p[3] as int),
        corner_codes_spec([(1, 3), (1, 2), (0, 1)], p, 5) == p[0] as int + 4 * (p[2] as int) + 16 * (p[1] as int) + 64 * (p[3] as int),
        corner_codes_spec([(1, 3), (1, 2), (0, 1)], p, 6) == p[0] as int + 4 * (p[3] as int) + 16 * (p[2] as int) + 64 * (p[1] as int),
        corner_codes_spec([(1, 3), (1, 2), (0, 1)], p, 7) == p[0] as int + 4 * (p[1] as int) + 16 * (p[2] as int) + 64 * (p[3] as int),
{
    reveal_with_fuel(corner_order_upto, 4);
    broadcast use vstd::array::group_array_axioms;
}

/// The corner codes of atlas word 75.
pub proof fn lemma_codes_of_word_75(p: [usize; 4])
    ensures
        corner_codes_spec([(1, 3), (1, 2), (0, 2)], p, 0) == p[3] as int + 4 * (p[2] as int) + 16 * (p[0] as int) + 64 * (p[1] as int),
        corner_codes_spec([(1, 3), (1, 2), (0, 2)], p, 1) == p[1] as int + 4 * (p[2] as int) + 16 * (p[0] as int) + 64 * (p[3] as int),
        corner_codes_spec([(1, 3), (1, 2), (0, 2)], p, 2) == p[2] as int + 4 * (p[3] as int) + 16 * (p[0] as int) + 64 * (p[1] as int),
        corner_codes_spec([(1, 3), (1, 2), (0, 2)], p, 3) == p[0] as int + 4 * (p[2] as int) + 16 * (p[3] as int) + 64 * (p[1] as int),
        corner_codes_spec([(1, 3), (1, 2), (0, 2)], p, 4) == p[2] as int + 4 * (p[1] as int) + 16 * (p[0] as int) + 64 * (p[3] as int),
        corner_codes_spec([(1, 3), (1, 2), (0, 2)], p, 5) == p[0] as int + 4 * (p[2] as int) + 16 * (p[1] as int) + 64 * (p[3] as int),
        corner_codes_spec([(1, 3), (1, 2), (0, 2)], p, 6) == p[0] as int + 4 * (p[3] as int) + 16 * (p[2] as int) + 64 * (p[1] as int),
        corner_codes_spec([(1, 3), (1, 2), (0, 2)], p, 7) == p[0] as int + 4 * (p[1] as int) + 16 * (p[2] as int) + 64 * (p[3] as int),
{
    reveal_with_fuel(corner_order_upto, 4);
    broadcast use vstd::array::group_array_axioms;
}

/// The corner codes of atlas word 76.
pub proof fn lemma_codes_of_word_76(p: [usize; 4])
    ensures
        corner_codes_spec([(1, 3), (1, 2), (0, 3)], p, 0) == p[1] as int + 4 * (p[2] as int) + 16 * (p[3] as int) + 64 * (p[0] as int),
        corner_codes_spec([(1, 3), (1, 2), (0, 3)], p, 1) == p[3] as int + 4 * (p[2] as int) + 16 * (p[1] as int) + 64 * (p[0] as int),
        corner_codes_spec([(1, 3), (1, 2), (0, 3)], p, 2) == p[1] as int + 4 * (p[3] as int) + 16 * (p[2] as int) + 64 * (p[0] as int),
        corner_codes_spec([(1, 3), (1, 2), (0, 3)], p, 3) == p[0] as int + 4 * (p[2] as int) + 16 * (p[3] as int) + 64 * (p[1] as int),
        corner_codes_spec([(1, 3), (1, 2), (0, 3)], p, 4) == p[3] as int + 4 * (p[1] as int) + 16 * (p[2] as int) + 64 * (p[0] as int),
        corner_codes_spec([(1, 3), (1, 2), (0, 3)], p, 5) == p[0] as int + 4 * (p[2] as int) + 16 * (p[1] as int) + 64 * (p[3] as int),
        corner_codes_spec([(1, 3), (1, 2), (0, 3)], p, 6) == p[0] as int + 4 * (p[3] as int) + 16 * (p[2] as int) + 64 * (p[1] as int),
        corner_codes_spec([(1, 3), (1, 2), (0, 3)], p, 7) == p[0] as int + 4 * (p[1] as int) + 16 * (p[2] as int) + 64 * (p[3] as int),
{
    reveal_with_fuel(corner_order_upto, 4);
    broadcast use vstd::array::group_array_axioms;
}

/// The corner codes of atlas word 77.
pub proof fn lemma_codes_of_word_77(p: [usize; 4])
    ensures
        corner_codes_spec([(1, 3), (2, 3), (0, 1)], p, 0) == p[3] as int + 4 * (p[0] as int) + 16 * (p[1] as int) + 64 * (p[2] as int),
        corner_codes_spec([(1, 3), (2, 3), (0, 1)], p, 1) == p[1] as int + 4 * (p[0] as int) + 16 * (p[3] as int) + 64 * (p[2] as int),
        corner_codes_spec([(1, 3), (2, 3), (0, 1)], p, 2) == p[3] as int + 4 * (p[0] as int) + 16 * (p[2] as int) + 64 * (p[1] as int),
        corner_codes_spec([(1, 3), (2, 3), (0, 1)], p, 3) == p[0] as int + 4 * (p[3] as int) + 16 * (p[1] as int) + 64 * (p[2] as int),
        corner_codes_spec([(1, 3), (2, 3), (0, 1)], p, 4) == p[1] as int + 4 * (p[0] as int) + 16 * (p[2] as int) + 64 * (p[3] as int),
        corner_codes_spec([(1, 3), (2, 3), (0, 1)], p, 5) == p[0] as int + 4 * (p[1] as int) + 16 * (p[3] as int) + 64 * (p[2] as int),
        corner_codes_spec([(1, 3), (2, 3), (0, 1)], p, 6) == p[0] as int + 4 * (p[3] as int) + 16 * (p[2] as int) + 64 * (p[1] as int),
        corner_codes_spec([(1, 3), (2, 3), (0, 1)], p, 7) == p[0] as int + 4 * (p[1] as int) + 16 * (p[2] as int) + 64 * (p[3] as int),
{
    reveal_with_fuel(corner_order_upto, 4);
    broadcast use vstd::array::group_array_axioms;
}

/// The corner codes of atlas word 78.
pub proof fn lemma_codes_of_word_78(p: [usize; 4])
    ensures
        corner_codes_spec([(1, 3), (2, 3), (0, 2)], p, 0) == p[1] as int + 4 * (p[3] as int) + 16 * (p[0] as int) + 64 * (p[2] as int),
        corner_codes_spec([(1, 3), (2, 3), (0, 2)], p, 1) == p[3] as int + 4 * (p[1] as int) + 16 * (p[0] as int) + 64 * (p[2] as int),
        corner_codes_spec([(1, 3), (2, 3), (0, 2)], p, 2) == p[2] as int + 4 * (p[3] as int) + 16 * (p[0] as int) + 64 * (p[1] as int),
        corner_codes_spec([(1, 3), (2, 3), (0, 2)], p, 3) == p[0] as int + 4 * (p[3] as int) + 16 * (p[1] as int) + 64 * (p[2] as int),
        corner_codes_spec([(1, 3), (2, 3), (0, 2)], p, 4) == p[2] as int + 4 * (p[1] as int) + 16 * (p[0] as int) + 64 * (p[3] as int),
        corner_codes_spec([(1, 3), (2, 3), (0, 2)], p, 5) == p[0] as int + 4 * (p[1] as int) + 16 * (p[3] as int) + 64 * (p[2] as int),
        corner_codes_spec([(1, 3), (2, 3), (0, 2)], p, 6) == p[0] as int + 4 * (p[3] as int) + 16 * (p[2] as int) + 64 * (p[1] as int),
        corner_codes_spec([(1, 3), (2, 3), (0, 2)], p, 7) == p[0] as int + 4 * (p[1] as int) + 16 * (p[2] as int) + 64 * (p[3] as int),
{
    reveal_with_fuel(corner_order_upto, 4);
    broadcast use vstd::array::group_array_axioms;
}

/// The corner codes of atlas word 79.
pub proof fn lemma_codes_of_word_79(p: [usize; 4])
    ensures
        corner_codes_spec([(1, 3), (2, 3), (0, 3)], p, 0) == p[2] as int + 4 * (p[3] as int) + 16 * (p[1] as int) + 64 * (p[0] as int),
        corner_codes_spec([(1, 3), (2, 3), (0, 3)], p, 1) == p[2] as int + 4 * (p[1] as int) + 16 * (p[3] as int) + 64 * (p[0] as int),
        corner_codes_spec([(1, 3), (2, 3), (0, 3)], p, 2) == p[1] as int + 4 * (p[3] as int) + 16 * (p[2] as int) + 64 * (p[0] as int),
        corner_codes_spec([(1, 3), (2, 3), (0, 3)], p, 3) == p[0] as int + 4 * (p[3] as int) + 16 * (p[1] as int) + 64 * (p[2] as int),
        corner_codes_spec([(1, 3), (2, 3), (0, 3)], p, 4) == p[3] as int + 4 * (p[1] as int) + 16 * (p[2] as int) + 64 * (p[0] as int),
        corner_codes_spec([(1, 3), (2, 3), (0, 3)], p, 5) == p[0] as int + 4 * (p[1] as int) + 16 * (p[3] as int) + 64 * (p[2] as int),
        corner_codes_spec([(1, 3), (2, 3), (0, 3)], p, 6) == p[0] as int + 4 * (p[3] as int) + 16 * (p[2] as int) + 64 * (p[1] as int),
        corner_codes_spec([(1, 3), (2, 3), (0, 3)], p, 7) == p[0] as int + 4 * (p[1] as int) + 16 * (p[2] as int) + 64 * (p[3] as int),
{
    reveal_with_fuel(corner_order_upto, 4);
    broadcast use vstd::array::group_array_axioms;
}

/// The corner codes of atlas word 80.
pub proof fn lemma_codes_of_word_80(p: [usize; 4])
    ensures
        corner_codes_spec([(2, 3), (0, 1), (0, 2)], p, 0) == p[3] as int + 4 * (p[0] as int) + 16 * (p[1] as int) + 64 * (p[2] as int),
        corner_codes_spec([(2, 3), (0, 1), (0, 2)], p, 1) == p[2] as int + 4 * (p[0] as int) + 16 * (p[1] as int) + 64 * (p[3] as int),
        corner_codes_spec([(2, 3), (0, 1), (0, 2)], p, 2) == p[3] as int + 4 * (p[1] as int) + 16 * (p[0] as int) + 64 * (p[2] as int),
        corner_codes_spec([(2, 3), (0, 1), (0, 2)], p, 3) == p[1] as int + 4 * (p[0] as int) + 16 * (p[3] as int) + 64 * (p[2] as int),
        corner_codes_spec([(2, 3), (0, 1), (0, 2)], p, 4) == p[2] as int + 4 * (p[1] as int) + 16 * (p[0] as int) + 64 * (p[3] as int),
        corner_codes_spec([(2, 3), (0, 1), (0, 2)], p, 5) == p[1] as int + 4 * (p[0] as int) + 16 * (p[2] as int) + 64 * (p[3] as int),
        corner_codes_spec([(2, 3), (0, 1), (0, 2)], p, 6) == p[0] as int + 4 * (p[1] as int) + 16 * (p[3] as int) + 64 * (p[2] as int),
        corner_codes_spec([(2, 3), (0, 1), (0, 2)], p, 7) == p[0] as int + 4 * (p[1] as int) + 16 * (p[2] as int) + 64 * (p[3] as int),
{
    reveal_with_fuel(corner_order_upto, 4);
    broadcast use vstd::array::group_array_axioms;
}

/// The corner codes of atlas word 81.
pub proof fn lemma_codes_of_word_81(p: [usize; 4])
    ensures
        corner_codes_spec([(2, 3), (0, 1), (0, 3)], p, 0) == p[2] as int + 4 * (p[0] as int) + 16 * (p[3] as int) + 64 * (p[1] as int),
        corner_codes_spec([(2, 3), (0, 1), (0, 3)], p, 1) == p[3] as int + 4 * (p[0] as int) + 16 * (p[2] as int) + 64 * (p[1] as int),
        corner_codes_spec([(2, 3), (0, 1), (0, 3)], p, 2) == p[2] as int + 4 * (p[1] as int) + 16 * (p[3] as int) + 64 * (p[0] as int),
        corner_codes_spec([(2, 3), (0, 1), (0, 3)], p, 3) == p[1] as int + 4 * (p[0] as int) + 16 * (p[3] as int) + 64 * (p[2] as int),
        corner_codes_spec([(2, 3), (0, 1), (0, 3)], p, 4) == p[3] as int + 4 * (p[1] as int) + 16 * (p[2] as int) + 64 * (p[0] as int),
        corner_codes_spec([(2, 3), (0, 1), (0, 3)], p, 5) == p[1] as int + 4 * (p[0] as int) + 16 * (p[2] as int) + 64 * (p[3] as int),
        corner_codes_spec([(2, 3), (0, 1), (0, 3)], p, 6) == p[0] as int + 4 * (p[1] as int) + 16 * (p[3] as int) + 64 * (p[2] as int),
        corner_codes_spec([(2, 3), (0, 1), (0, 3)], p, 7) == p[0] as int + 4 * (p[1] as int) + 16 * (p[2] as int) + 64 * (p[3] as int),
{
    reveal_with_fuel(corner_order_upto, 4);
    broadcast use vstd::array::group_array_axioms;
}

/// The corner codes of atlas word 82.
pub proof fn lemma_codes_of_word_82(p: [usize; 4])
    ensures
        corner_codes_spec([(2, 3), (0, 1), (1, 2)], p, 0) == p[1] as int + 4 * (p[3] as int) + 16 * (p[0] as int) + 64 * (p[2] as int),
        corner_codes_spec([(2, 3), (0, 1), (1, 2)], p, 1) == p[1] as int + 4 * (p[2] as int) + 16 * (p[0] as int) + 64 * (p[3] as int),
        corner_codes_spec([(2, 3), (0, 1), (1, 2)], p, 2) == p[0] as int + 4 * (p[3] as int) + 16 * (p[1] as int) + 64 * (p[2] as int),
        corner_codes_spec([(2, 3), (0, 1), (1, 2)], p, 3) == p[1] as int + 4 * (p[0] as int) + 16 * (p[3] as int) + 64 * (p[2] as int),
        corner_codes_spec([(2, 3), (0, 1), (1, 2)], p, 4) == p[0] as int + 4 * (p[2] as int) + 16 * (p[1] as int) + 64 * (p[3] as int),
        corner_codes_spec([(2, 3), (0, 1), (1, 2)], p, 5) == p[1] as int + 4 * (p[0] as int) + 16 * (p[2] as int) + 64 * (p[3] as int),
        corner_codes_spec([(2, 3), (0, 1), (1, 2)], p, 6) == p[0] as int + 4 * (p[1] as int) + 16 * (p[3] as int) + 64 * (p[2] as int),
        corner_codes_spec([(2, 3), (0, 1), (1, 2)], p, 7) == p[0] as int + 4 * (p[1] as int) + 16 * (p[2] as int) + 64 * (p[3] as int),
{
    reveal_with_fuel(corner_order_upto, 4);
    broadcast use vstd::array::group_array_axioms;
}

/// The corner codes of atlas word 83.
pub proof fn lemma_codes_of_word_83(p: [usize; 4])
    ensures
        corner_codes_spec([(2, 3), (0, 1), (1, 3)], p, 0) == p[1] as int + 4 * (p[2] as int) + 16 * (p[3] as int) + 64 * (p[0] as int),
        corner_codes_spec([(2, 3), (0, 1), (1, 3)], p, 1) == p[1] as int + 4 * (p[3] as int) + 16 * (p[2] as int) + 64 * (p[0] as int),
        corner_codes_spec([(2, 3), (0, 1), (1, 3)], p, 2) == p[0] as int + 4 * (p[2] as int) + 16 * (p[3] as int) + 64 * (p[1] as int),
        corner_codes_spec([(2, 3), (0, 1), (1, 3)], p, 3) == p[1] as int + 4 * (p[0] as int) + 16 * (p[3] as int) + 64 * (p[2] as int),
        corner_codes_spec([(2, 3), (0, 1), (1, 3)], p, 4) == p[0] as int + 4 * (p[3] as int) + 16 * (p[2] as int) + 64 * (p[1] as int),
        corner_codes_spec([(2, 3), (0, 1), (1, 3)], p, 5) == p[1] as int + 4 * (p[0] as int) + 16 * (p[2] as int) + 64 * (p[3] as int),
        corner_codes_spec([(2, 3), (0, 1), (1, 3)], p, 6) == p[0] as int + 4 * (p[1] as int) + 16 * (p[3] as int) + 64 * (p[2] as int),
        corner_codes_spec([(2, 3), (0, 1), (1, 3)], p, 7) == p[0] as int + 4 * (p[1] as int) + 16 * (p[2] as int) + 64 * (p[3] as int),
{
    reveal_with_fuel(corner_order_upto, 4);
    broadcast use vstd::array::group_array_axioms;
}

/// The corner codes of atlas word 84.
pub proof fn lemma_codes_of_word_84(p: [usize; 4])
    ensures
        corner_codes_spec([(2, 3), (0, 2), (0, 1)], p, 0) == p[1] as int + 4 * (p[3] as int) + 16 * (p[0] as int) + 64 * (p[2] as int),
        corner_codes_spec([(2, 3), (0, 2), (0, 1)], p, 1) == p[1] as int + 4 * (p[2] as int) + 16 * (p[0] as int) + 64 * (p[3] as int),
        corner_codes_spec([(2, 3), (0, 2), (0, 1)], p, 2) == p[1] as int + 4 * (p[0] as int) + 16 * (p[3] as int) + 64 * (p[2] as int),
        corner_codes_spec([(2, 3), (0, 2), (0, 1)], p, 3) == p[3] as int + 4 * (p[1] as int) + 16 * (p[0] as int) + 64 * (p[2] as int),
        corner_codes_spec([(2, 3), (0, 2), (0, 1)], p, 4) == p[1] as int + 4 * (p[0] as int) + 16 * (p[2] as int) + 64 * (p[3] as int),
        corner_codes_spec([(2, 3), (0, 2), (0, 1)], p, 5) == p[2] as int + 4 * (p[1] as int) + 16 * (p[0] as int) + 64 * (p[3] as int),
        corner_codes_spec([(2, 3), (0, 2), (0, 1)], p, 6) == p[0] as int + 4 * (p[1] as int) + 16 * (p[3] as int) + 64 * (p[2] as int),
        corner_codes_spec([(2, 3), (0, 2), (0, 1)], p, 7) == p[0] as int + 4 * (p[1] as int) + 16 * (p[2] as int) + 64 * (p[3] as int),
{
    reveal_with_fuel(corner_order_upto, 4);
    broadcast use vstd::array::group_array_axioms;
}

/// The corner codes of atlas word 85.
pub proof fn lemma_codes_of_word_85(p: [usize; 4])
    ensures
        corner_codes_spec([(2, 3), (0, 2), (1, 2)], p, 0) == p[3] as int + 4 * (p[0] as int) + 16 * (p[1] as int) + 64 * (p[2] as int),
        corner_codes_spec([(2, 3), (0, 2), (1, 2)], p, 1) == p[2] as int + 4 * (p[0] as int) + 16 * (p[1] as int) + 64 * (p[3] as int),
        corner_codes_spec([(2, 3), (0, 2), (1, 2)], p, 2) == p[0] as int + 4 * (p[3] as int) + 16 * (p[1] as int) + 64 * (p[2] as int),
        corner_codes_spec([(2, 3), (0, 2), (1, 2)], p, 3) == p[3] as int + 4 * (p[1] as int) + 16 * (p[0] as int) + 64 * (p[2] as int),
        corner_codes_spec([(2, 3), (0, 2), (1, 2)], p, 4) == p[0] as int + 4 * (p[2] as int) + 16 * (p[1] as int) + 64 * (p[3] as int),
        corner_codes_spec([(2, 3), (0, 2), (1, 2)], p, 5) == p[2] as int + 4 * (p[1] as int) + 16 * (p[0] as int) + 64 * (p[3] as int),
        corner_codes_spec([(2, 3), (0, 2), (1, 2)], p, 6) == p[0] as int + 4 * (p[1] as int) + 16 * (p[3] as int) + 64 * (p[2] as int),
        corner_codes_spec([(2, 3), (0, 2), (1, 2)], p, 7) == p[0] as int + 4 * (p[1] as int) + 16 * (p[2] as int) + 64 * (p[3] as int),
{
    reveal_with_fuel(corner_order_upto, 4);
    broadcast use vstd::array::group_array_axioms;
}

/// The corner codes of atlas word 86.
pub proof fn lemma_codes_of_word_86(p: [usize; 4])
    ensures
        corner_codes_spec([(2, 3), (0, 2), (1, 3)], p, 0) == p[3] as int + 4 * (p[2] as int) + 16 * (p[0] as int) + 64 * (p[1] as int),
        corner_codes_spec([(2, 3), (0, 2), (1, 3)], p, 1) == p[2] as int + 4 * (p[3] as int) + 16 * (p[0] as int) + 64 * (p[1] as int),
        corner_codes_spec([(2, 3), (0, 2), (1, 3)], p, 2) == p[0] as int + 4 * (p[2] as int) + 16 * (p[3] as int) + 64 * (p[1] as int),
        corner_codes_spec([(2, 3), (0, 2), (1, 3)], p, 3) == p[3] as int + 4 * (p[1] as int) + 16 * (p[0] as int) + 64 * (p[2] as int),
        corner_codes_spec([(2, 3), (0, 2), (1, 3)], p, 4) == p[0] as int + 4 * (p[3] as int) + 16 * (p[2] as int) + 64 * (p[1] as int),
        corner_codes_spec([(2, 3), (0, 2), (1, 3)], p, 5) == p[2] as int + 4 * (p[1] as int) + 16 * (p[0] as int) + 64 * (p[3] as int),
        corner_codes_spec([(2, 3), (0, 2), (1, 3)], p, 6) == p[0] as int + 4 * (p[1] as int) + 16 * (p[3] as int) + 64 * (p[2] as int),
        corner_codes_spec([(2, 3), (0, 2), (1, 3)], p, 7) == p[0] as int + 4 * (p[1] as int) + 16 * (p[2] as int) + 64 * (p[3] as int),
{
    reveal_with_fuel(corner_order_upto, 4);
    broadcast use vstd::array::group_array_axioms;
}

/// The corner codes of atlas word 87.
pub proof fn lemma_codes_of_word_87(p: [usize; 4])
    ensures
        corner_codes_spec([(2, 3), (0, 3), (0, 1)], p, 0) == p[1] as int + 4 * (p[2] as int) + 16 * (p[3] as int) + 64 * (p[0] as int),
        corner_codes_spec([(2, 3), (0, 3), (0, 1)], p, 1) == p[1] as int + 4 * (p[3] as int) + 16 * (p[2] as int) + 64 * (p[0] as int),
        corner_codes_spec([(2, 3), (0, 3), (0, 1)], p, 2) == p[1] as int + 4 * (p[0] as int) + 16 * (p[3] as int) + 64 * (p[2] as int),
        corner_codes_spec([(2, 3), (0, 3), (0, 1)], p, 3) == p[2] as int + 4 * (p[1] as int) + 16 * (p[3] as int) + 64 * (p[0] as int),
        corner_codes_spec([(2, 3), (0, 3), (0, 1)], p, 4) == p[1] as int + 4 * (p[0] as int) + 16 * (p[2] as int) + 64 * (p[3] as int),
        corner_codes_spec([(2, 3), (0, 3), (0, 1)], p, 5) == p[3] as int + 4 * (p[1] as int) + 16 * (p[2] as int) + 64 * (p[0] as int),
        corner_codes_spec([(2, 3), (0, 3), (0, 1)], p, 6) == p[0] as int + 4 * (p[1] as int) + 16 * (p[3] as int) + 64 * (p[2] as int),
        corner_codes_spec([(2, 3), (0, 3), (0, 1)], p, 7) == p[0] as int + 4 * (p[1] as int) + 16 * (p[2] as int) + 64 * (p[3] as int),
{
    reveal_with_fuel(corner_order_upto, 4);
    broadcast use vstd::array::group_array_axioms;
}

/// The corner codes of atlas word 88.
pub proof fn lemma_codes_of_word_88(p: [usize; 4])
    ensures
        corner_codes_spec([(2, 3), (0, 3), (1, 2)], p, 0) == p[2] as int + 4 * (p[3] as int) + 16 * (p[1] as int) + 64 * (p[0] as int),
        corner_codes_spec([(2, 3), (0, 3), (1, 2)], p, 1) == p[3] as int + 4 * (p[2] as int) + 16 * (p[1] as int) + 64 * (p[0] as int),
        corner_codes_spec([(2, 3), (0, 3), (1, 2)], p, 2) == p[0] as int + 4 * (p[3] as int) + 16 * (p[1] as int) + 64 * (p[2] as int),
        corner_codes_spec([(2, 3), (0, 3), (1, 2)], p, 3) == p[2] as int + 4 * (p[1] as int) + 16 * (p[3] as int) + 64 * (p[0] as int),
        corner_codes_spec([(2, 3), (0, 3), (1, 2)], p, 4) == p[0] as int + 4 * (p[2] as int) + 16 * (p[1] as int) + 64 * (p[3] as int),
        corner_codes_spec([(2, 3), (0, 3), (1, 2)], p, 5) == p[3] as int + 4 * (p[1] as int) + 16 * (p[2] as int) + 64 * (p[0] as int),
        corner_codes_spec([(2, 3), (0, 3), (1, 2)], p, 6) == p[0] as int + 4 * (p[1] as int) + 16 * (p[3] as int) + 64 * (p[2] as int),
        corner_codes_spec([(2, 3), (0, 3), (1, 2)], p, 7) == p[0] as int + 4 * (p[1] as int) + 16 * (p[2] as int) + 64 * (p[3] as int),
{
    reveal_with_fuel(corner_order_upto, 4);
    broadcast use vstd::array::group_array_axioms;
}

/// The corner codes of atlas word 89.
pub proof fn lemma_codes_of_word_89(p: [usize; 4])
    ensures
        corner_codes_spec([(2, 3), (0, 3), (1, 3)], p, 0) == p[2] as int + 4 * (p[0] as int) + 16 * (p[3] as int) + 64 * (p[1] as int),
        corner_codes_spec([(2, 3), (0, 3), (1, 3)], p, 1) == p[3] as int + 4 * (p[0] as int) + 16 * (p[2] as int) + 64 * (p[1] as int),
        corner_codes_spec([(2, 3), (0, 3), (1, 3)], p, 2) == p[0] as int + 4 * (p[2] as int) + 16 * (p[3] as int) + 64 * (p[1] as int),
        corner_codes_spec([(2, 3), (0, 3), (1, 3)], p, 3) == p[2] as int + 4 * (p[1] as int) + 16 * (p[3] as int) + 64 * (p[0] as int),
        corner_codes_spec([(2, 3), (0, 3), (1, 3)], p, 4) == p[0] as int + 4 * (p[3] as int) + 16 * (p[2] as int) + 64 * (p[1] as int),
        corner_codes_spec([(2, 3), (0, 3), (1, 3)], p, 5) == p[3] as int + 4 * (p[1] as int) + 16 * (p[2] as int) + 64 * (p[0] as int),
        corner_codes_spec([(2, 3), (0, 3), (1, 3)], p, 6) == p[0] as int + 4 * (p[1] as int) + 16 * (p[3] as int) + 64 * (p[2] as int),
        corner_codes_spec([(2, 3), (0, 3), (1, 3)], p, 7) == p[0] as int + 4 * (p[1] as int) + 16 * (p[2] as int) + 64 * (p[3] as int),
{
    reveal_with_fuel(corner_order_upto, 4);
    broadcast use vstd::array::group_array_axioms;
}

/// The corner codes of atlas word 90.
pub proof fn lemma_codes_of_word_90(p: [usize; 4])
    ensures
        corner_codes_spec([(2, 3), (1, 2), (0, 1)], p, 0) == p[3] as int + 4 * (p[0] as int) + 16 * (p[1] as int) + 64 * (p[2] as int),
        corner_codes_spec([(2, 3), (1, 2), (0, 1)], p, 1) == p[2] as int + 4 * (p[0] as int) + 16 * (p[1] as int) + 64 * (p[3] as int),
        corner_codes_spec([(2, 3), (1, 2), (0, 1)], p, 2) == p[1] as int + 4 * (p[0] as int) + 16 * (p[3] as int) + 64 * (p[2] as int),
        corner_codes_spec([(2, 3), (1, 2), (0, 1)], p, 3) == p[0] as int + 4 * (p[3] as int) + 16 * (p[1] as int) + 64 * (p[2] as int),
        corner_codes_spec([(2, 3), (1, 2), (0, 1)], p, 4) == p[1] as int + 4 * (p[0] as int) + 16 * (p[2] as int) + 64 * (p[3] as int),
        corner_codes_spec([(2, 3), (1, 2), (0, 1)], p, 5) == p[0] as int + 4 * (p[2] as int) + 16 * (p[1] as int) + 64 * (p[3] as int),
        corner_codes_spec([(2, 3), (1, 2), (0, 1)], p, 6) == p[0] as int + 4 * (p[1] as int) + 16 * (p[3] as int) + 64 * (p[2] as int),
        corner_codes_spec([(2, 3), (1, 2), (0, 1)], p, 7) == p[0] as int + 4 * (p[1] as int) + 16 * (p[2] as int) + 64 * (p[3] as int),
{
    reveal_with_fuel(corner_order_upto, 4);
    broadcast use vstd::array::group_array_axioms;
}

/// The corner codes of atlas word 91.
pub proof fn lemma_codes_of_word_91(p: [usize; 4])
    ensures
        corner_codes_spec([(2, 3), (1, 2), (0, 2)], p, 0) == p[1] as int + 4 * (p[3] as int) + 16 * (p[0] as int) + 64 * (p[2] as int),
        corner_codes_spec([(2, 3), (1, 2), (0, 2)], p, 1) == p[1] as int + 4 * (p[2] as int) + 16 * (p[0] as int) + 64 * (p[3] as int),
        corner_codes_spec([(2, 3), (1, 2), (0, 2)], p, 2) == p[3] as int + 4 * (p[1] as int) + 16 * (p[0] as int) + 64 * (p[2] as int),
        corner_codes_spec([(2, 3), (1, 2), (0, 2)], p, 3) == p[0] as int + 4 * (p[3] as int) + 16 * (p[1] as int) + 64 * (p[2] as int),
        corner_codes_spec([(2, 3), (1, 2), (0, 2)], p, 4) == p[2] as int + 4 * (p[1] as int) + 16 * (p[0] as int) + 64 * (p[3] as int),
        corner_codes_spec([(2, 3), (1, 2), (0, 2)], p, 5) == p[0] as int + 4 * (p[2] as int) + 16 * (p[1] as int) + 64 * (p[3] as int),
        corner_codes_spec([(2, 3), (1, 2), (0, 2)], p, 6) == p[0] as int + 4 * (p[1] as int) + 16 * (p[3] as int) + 64 * (p[2] as int),
        corner_codes_spec([(2, 3), (1, 2), (0, 2)], p, 7) == p[0] as int + 4 * (p[1] as int) + 16 * (p[2] as int) + 64 * (p[3] as int),
{
    reveal_with_fuel(corner_order_upto, 4);
    broadcast use vstd::array::group_array_axioms;
}

/// The corner codes of atlas word 92.
pub proof fn lemma_codes_of_word_92(p: [usize; 4])
    ensures
        corner_codes_spec([(2, 3), (1, 2), (0, 3)], p, 0) == p[2] as int + 4 * (p[3] as int) + 16 * (p[1] as int) + 64 * (p[0] as int),
        corner_codes_spec([(2, 3), (1, 2), (0, 3)], p, 1) == p[3] as int + 4 * (p[2] as int) + 16 * (p[1] as int) + 64 * (p[0] as int),
        corner_codes_spec([(2, 3), (1, 2), (0, 3)], p, 2) == p[2] as int + 4 * (p[1] as int) + 16 * (p[3] as int) + 64 * (p[0] as int),
        corner_codes_spec([(2, 3), (1, 2), (0, 3)], p, 3) == p[0] as int + 4 * (p[3] as int) + 16 * (p[1] as int) + 64 * (p[2] as int),
        corner_codes_spec([(2, 3), (1, 2), (0, 3)], p, 4) == p[3] as int + 4 * (p[1] as int) + 16 * (p[2] as int) + 64 * (p[0] as int),
        corner_codes_spec([(2, 3), (1, 2), (0, 3)], p, 5) == p[0] as int + 4 * (p[2] as int) + 16 * (p[1] as int) + 64 * (p[3] as int),
        corner_codes_spec([(2, 3), (1, 2), (0, 3)], p, 6) == p[0] as int + 4 * (p[1] as int) + 16 * (p[3] as int) + 64 * (p[2] as int),
        corner_codes_spec([(2, 3), (1, 2), (0, 3)], p, 7) == p[0] as int + 4 * (p[1] as int) + 16 * (p[2] as int) + 64 * (p[3] as int),
{
    reveal_with_fuel(corner_order_upto, 4);
    broadcast use vstd::array::group_array_axioms;
}

/// The corner codes of atlas word 93.
pub proof fn lemma_codes_of_word_93(p: [usize; 4])
    ensures
        corner_codes_spec([(2, 3), (1, 3), (0, 1)], p, 0) == p[2] as int + 4 * (p[0] as int) + 16 * (p[3] as int) + 64 * (p[1] as int),
        corner_codes_spec([(2, 3), (1, 3), (0, 1)], p, 1) == p[3] as int + 4 * (p[0] as int) + 16 * (p[2] as int) + 64 * (p[1] as int),
        corner_codes_spec([(2, 3), (1, 3), (0, 1)], p, 2) == p[1] as int + 4 * (p[0] as int) + 16 * (p[3] as int) + 64 * (p[2] as int),
        corner_codes_spec([(2, 3), (1, 3), (0, 1)], p, 3) == p[0] as int + 4 * (p[2] as int) + 16 * (p[3] as int) + 64 * (p[1] as int),
        corner_codes_spec([(2, 3), (1, 3), (0, 1)], p, 4) == p[1] as int + 4 * (p[0] as int) + 16 * (p[2] as int) + 64 * (p[3] as int),
        corner_codes_spec([(2, 3), (1, 3), (0, 1)], p, 5) == p[0] as int + 4 * (p[3] as int) + 16 * (p[2] as int) + 64 * (p[1] as int),
        corner_codes_spec([(2, 3), (1, 3), (0, 1)], p, 6) == p[0] as int + 4 * (p[1] as int) + 16 * (p[3] as int) + 64 * (p[2] as int),
        corner_codes_spec([(2, 3), (1, 3), (0, 1)], p, 7) == p[0] as int + 4 * (p[1] as int) + 16 * (p[2] as int) + 64 * (p[3] as int),
{
    reveal_with_fuel(corner_order_upto, 4);
    broadcast use vstd::array::group_array_axioms;
}

/// The corner codes of atlas word 94.
pub proof fn lemma_codes_of_word_94(p: [usize; 4])
    ensures
        corner_codes_spec([(2, 3), (1, 3), (0, 2)], p, 0) == p[3] as int + 4 * (p[2] as int) + 16 * (p[0] as int) + 64 * (p[1] as int),
        corner_codes_spec([(2, 3), (1, 3), (0, 2)], p, 1) == p[2] as int + 4 * (p[3] as int) + 16 * (p[0] as int) + 64 * (p[1] as int),
        corner_codes_spec([(2, 3), (1, 3), (0, 2)], p, 2) == p[3] as int + 4 * (p[1] as int) + 16 * (p[0] as int) + 64 * (p[2] as int),
        corner_codes_spec([(2, 3), (1, 3), (0, 2)], p, 3) == p[0] as int + 4 * (p[2] as int) + 16 * (p[3] as int) + 64 * (p[1] as int),
        corner_codes_spec([(2, 3), (1, 3), (0, 2)], p, 4) == p[2] as int + 4 * (p[1] as int) + 16 * (p[0] as int) + 64 * (p[3] as int),
        corner_codes_spec([(2, 3), (1, 3), (0, 2)], p, 5) == p[0] as int + 4 * (p[3] as int) + 16 * (p[2] as int) + 64 * (p[1] as int),
        corner_codes_spec([(2, 3), (1, 3), (0, 2)], p, 6) == p[0] as int + 4 * (p[1] as int) + 16 * (p[3] as int) + 64 * (p[2] as int),
        corner_codes_spec([(2, 3), (1, 3), (0, 2)], p, 7) == p[0] as int + 4 * (p[1] as int) + 16 * (p[2] as int) + 64 * (p[3] as int),
{
    reveal_with_fuel(corner_order_upto, 4);
    broadcast use vstd::array::group_array_axioms;
}

/// The corner codes of atlas word 95.
pub proof fn lemma_codes_of_word_95(p: [usize; 4])
    ensures
        corner_codes_spec([(2, 3), (1, 3), (0, 3)], p, 0) == p[1] as int + 4 * (p[2] as int) + 16 * (p[3] as int) + 64 * (p[0] as int),
        corner_codes_spec([(2, 3), (1, 3), (0, 3)], p, 1) == p[1] as int + 4 * (p[3] as int) + 16 * (p[2] as int) + 64 * (p[0] as int),
        corner_codes_spec([(2, 3), (1, 3), (0, 3)], p, 2) == p[2] as int + 4 * (p[1] as int) + 16 * (p[3] as int) + 64 * (p[0] as int),
        corner_codes_spec([(2, 3), (1, 3), (0, 3)], p, 3) == p[0] as int + 4 * (p[2] as int) + 16 * (p[3] as int) + 64 * (p[1] as int),
        corner_codes_spec([(2, 3), (1, 3), (0, 3)], p, 4) == p[3] as int + 4 * (p[1] as int) + 16 * (p[2] as int) + 64 * (p[0] as int),
        corner_codes_spec([(2, 3), (1, 3), (0, 3)], p, 5) == p[0] as int + 4 * (p[3] as int) + 16 * (p[2] as int) + 64 * (p[1] as int),
        corner_codes_spec([(2, 3), (1, 3), (0, 3)], p, 6) == p[0] as int + 4 * (p[1] as int) + 16 * (p[3] as int) + 64 * (p[2] as int),
        corner_codes_spec([(2, 3), (1, 3), (0, 3)], p, 7) == p[0] as int + 4 * (p[1] as int) + 16 * (p[2] as int) + 64 * (p[3] as int),
{
    reveal_with_fuel(corner_order_upto, 4);
    broadcast use vstd::array::group_array_axioms;
}

/// The exact quotient of the interior atlas has 216 image classes, and the
/// charts of the sixteen head words (the first 384 charts) meet 102 of them.
pub proof fn lemma_quotient_counts()
    ensures
        class_signatures().len() == 216,
        class_signatures().len() == INTERIOR_CLASSES,
        first_occurrences(atlas_signatures(), 384).len() == 102,
{
    lemma_census_words();
    reps::lemma_classes_apart();
    assert(atlas_signatures().len() == 2304);
    let all = Seq::new(216, |c: int| class_rep(c));
    let hot = Seq::new(102, |c: int| class_rep(c));
    assert forall|c: int| 0 <= c < 216 implies 0 <= #[trigger] class_rep(c) < 2304 && (c < 102 ==> class_rep(c) < 384) by {
    }
    assert forall|i: int, j: int| 0 <= i < 216 && 0 <= j < 216 && i != j implies atlas_signatures()[#[trigger] all[i]] != atlas_signatures()[#[trigger] all[j]] by {
        assert(class_of_weight(table_weight(atlas_signatures()[class_rep(i)])) == i);
        assert(class_of_weight(table_weight(atlas_signatures()[class_rep(j)])) == j);
    }
    assert forall|t: int| 0 <= t < 384 implies #[trigger] meets_class_below(t, 102) by {
        if t < 24 { charts_0::lemma_charts_of_word_0(); }
        else if t < 48 { charts_0::lemma_charts_of_word_1(); }
        else if t < 72 { charts_0::lemma_charts_of_word_2(); }
        else if t < 96 { charts_0::lemma_charts_of_word_3(); }
        else if t < 120 { charts_0::lemma_charts_of_word_4(); }
        else if t < 144 { charts_0::lemma_charts_of_word_5(); }
        else if t < 168 { charts_0::lemma_charts_of_word_6(); }
        else if t < 192 { charts_0::lemma_charts_of_word_7(); }
        else if t < 216 { charts_0::lemma_charts_of_word_8(); }
        else if t < 240 { charts_0::lemma_charts_of_word_9(); }
        else if t < 264 { charts_0::lemma_charts_of_word_10(); }
        else if t < 288 { charts_0::lemma_charts_of_word_11(); }
        else if t < 312 { charts_0::lemma_charts_of_word_12(); }
        else if t < 336 { charts_0::lemma_charts_of_word_13(); }
        else if t < 360 { charts_0::lemma_charts_of_word_14(); }
        else { charts_0::lemma_charts_of_word_15(); }
    }
    assert forall|t: int| 0 <= t < 2304 implies #[trigger] meets_class_below(t, 216) by {
        if t < 384 {
            assert(meets_class_below(t, 102));
            let c = choose|c: int| 0 <= c < 102 && #[trigger] atlas_signatures()[class_rep(c)] == atlas_signatures()[t];
        }
        else if t < 408 { charts_1::lemma_charts_of_word_16(); }
        else if t < 432 { charts_1::lemma_charts_of_word_17(); }
        else if t < 456 { charts_1::lemma_charts_of_word_18(); }
        else if t < 480 { charts_1::lemma_charts_of_word_19(); }
        else if t < 504 { charts_1::lemma_charts_of_word_20(); }
        else if t < 528 { charts_1::lemma_charts_of_word_21(); }
        else if t < 552 { charts_1::lemma_charts_of_word_22(); }
        else if t < 576 { charts_1::lemma_charts_of_word_23(); }
        else if t < 600 { charts_1::lemma_charts_of_word_24(); }
        else if t < 624 { charts_1::lemma_charts_of_word_25(); }
        else if t < 648 { charts_1::lemma_charts_of_word_26(); }
        else if t < 672 { charts_1::lemma_charts_of_word_27(); }
        else if t < 696 { charts_1::lemma_charts_of_word_28(); }
        else if t < 720 { charts_1::lemma_charts_of_word_29(); }
        else if t < 744 { charts_1::lemma_charts_of_word_30(); }
        else if t < 768 { charts_1::lemma_charts_of_word_31(); }
        else if t < 792 { charts_2::lemma_charts_of_word_32(); }
        else if t < 816 { charts_2::lemma_charts_of_word_33(); }
        else if t < 840 { charts_2::lemma_charts_of_word_34(); }
        else if t < 864 { charts_2::lemma_charts_of_word_35(); }
        else if t < 888 { charts_2::lemma_charts_of_word_36(); }
        else if t < 912 { charts_2::lemma_charts_of_word_37(); }
        else if t < 936 { charts_2::lemma_charts_of_word_38(); }
        else if t < 960 { charts_2::lemma_charts_of_word_39(); }
        else if t < 984 { charts_2::lemma_charts_of_word_40(); }
        else if t < 1008 { charts_2::lemma_charts_of_word_41(); }
        else if t < 1032 { charts_2::lemma_charts_of_word_42(); }
        else if t < 1056 { charts_2::lemma_charts_of_word_43(); }
        else if t < 1080 { charts_2::lemma_charts_of_word_44(); }
        else if t < 1104 { charts_2::lemma_charts_of_word_45(); }
        else if t < 1128 { charts_2::lemma_charts_of_word_46(); }
        else if t < 1152 { charts_2::lemma_charts_of_word_47(); }
        else if t < 1176 { charts_3::lemma_charts_of_word_48(); }
        else if t < 1200 { charts_3::lemma_charts_of_word_49(); }
        else if t < 1224 { charts_3::lemma_charts_of_word_50(); }
        else if t < 1248 { charts_3::lemma_charts_of_word_51(); }
        else if t < 1272 { charts_3::lemma_charts_of_word_52(); }
        else if t < 1296 { charts_3::lemma_charts_of_word_53(); }
        else if t < 1320 { charts_3::lemma_charts_of_word_54(); }
        else if t < 1344 { charts_3::lemma_charts_of_word_55(); }
        else if t < 1368 { charts_3::lemma_charts_of_word_56(); }
        else if t < 1392 { charts_3::lemma_charts_of_word_57(); }
        else if t < 1416 { charts_3::lemma_charts_of_word_58(); }
        else if t < 1440 { charts_3::lemma_charts_of_word_59(); }
        else if t < 1464 { charts_3::lemma_charts_of_word_60(); }
        else if t < 1488 { charts_3::lemma_charts_of_word_61(); }
        else if t < 1512 { charts_3::lemma_charts_of_word_62(); }
        else if t < 1536 { charts_3::lemma_charts_of_word_63(); }
        else if t < 1560 { charts_4::lemma_charts_of_word_64(); }
        else if t < 1584 { charts_4::lemma_charts_of_word_65(); }
        else if t < 1608 { charts_4::lemma_charts_of_word_66(); }
        else if t < 1632 { charts_4::lemma_charts_of_word_67(); }
        else if t < 1656 { charts_4::lemma_charts_of_word_68(); }
        else if t < 1680 { charts_4::lemma_charts_of_word_69(); }
        else if t < 1704 { charts_4::lemma_charts_of_word_70(); }
        else if t < 1728 { charts_4::lemma_charts_of_word_71(); }
        else if t < 1752 { charts_4::lemma_charts_of_word_72(); }
        else if t < 1776 { charts_4::lemma_charts_of_word_73(); }
        else if t < 1800 { charts_4::lemma_charts_of_word_74(); }
        else if t < 1824 { charts_4::lemma_charts_of_word_75(); }
        else if t < 1848 { charts_4::lemma_charts_of_word_76(); }
        else if t < 1872 { charts_4::lemma_charts_of_word_77(); }
        else if t < 1896 { charts_4::lemma_charts_of_word_78(); }
        else if t < 1920 { charts_4::lemma_charts_of_word_79(); }
        else if t < 1944 { charts_5::lemma_charts_of_word_80(); }
        else if t < 1968 { charts_5::lemma_charts_of_word_81(); }
        else if t < 1992 { charts_5::lemma_charts_of_word_82(); }
        else if t < 2016 { charts_5::lemma_charts_of_word_83(); }
        else if t < 2040 { charts_5::lemma_charts_of_word_84(); }
        else if t < 2064 { charts_5::lemma_charts_of_word_85(); }
        else if t < 2088 { charts_5::lemma_charts_of_word_86(); }
        else if t < 2112 { charts_5::lemma_charts_of_word_87(); }
        else if t < 2136 { charts_5::lemma_charts_of_word_88(); }
        else if t < 2160 { charts_5::lemma_charts_of_word_89(); }
        else if t < 2184 { charts_5::lemma_charts_of_word_90(); }
        else if t < 2208 { charts_5::lemma_charts_of_word_91(); }
        else if t < 2232 { charts_5::lemma_charts_of_word_92(); }
        else if t < 2256 { charts_5::lemma_charts_of_word_93(); }
        else if t < 2280 { charts_5::lemma_charts_of_word_94(); }
        else { charts_5::lemma_charts_of_word_95(); }
    }
    assert forall|t: int| 0 <= t < 2304 implies #[trigger] met_by(atlas_signatures(), all, t) by {
        assert(meets_class_below(t, 216));
        let c = choose|c: int| 0 <= c < 216 && #[trigger] atlas_signatures()[class_rep(c)] == atlas_signatures()[t];
        assert(all[c] == class_rep(c));
        assert(atlas_signatures()[all[c]] == atlas_signatures()[t]);
    }
    assert forall|t: int| 0 <= t < 384 implies #[trigger] met_by(atlas_signatures(), hot, t) by {
        assert(meets_class_below(t, 102));
        let c = choose|c: int| 0 <= c < 102 && #[trigger] atlas_signatures()[class_rep(c)] == atlas_signatures()[t];
        assert(hot[c] == class_rep(c));
        assert(atlas_signatures()[hot[c]] == atlas_signatures()[t]);
    }
    lemma_count_by_representatives(atlas_signatures(), 2304, all);
    lemma_count_by_representatives(atlas_signatures(), 384, hot);
}

/// Of the INTERIOR_CLASSES = 216 classes of the exact quotient, the hot
/// ones (those met by the sixteen head words) are exactly the first 102.
pub proof fn lemma_hot_classes_are_the_first(quotient: InteriorQuotient)
    requires
        quotient.is_atlas_quotient(),
    ensures
        quotient.hot@.len() == INTERIOR_CLASSES,
        forall|c: int| 0 <= c < quotient.hot@.len() ==> (#[trigger] quotient.hot@[c] <==> c < 102),
{
    lemma_quotient_counts();
    lemma_census_words();
    let s = atlas_signatures();
    let all = class_signatures();
    let first = first_occurrences(s, 384);
    lemma_first_occurrences_facts(s, 2304);
    lemma_first_occurrences_facts(s, 384);
    lemma_first_occurrences_extend(s, 384, 2304);
    assert forall|c: int| 0 <= c < quotient.hot@.len() implies (#[trigger] quotient.hot@[c] <==> c < 102) by {
        if quotient.hot@[c] {
            let (w, p) = choose|w: int, p: int| 0 <= w < 16 && 0 <= p < 24 && chart_class(w, p) == c;
            let t = 24 * w + p;
            assert(first.contains(s[t]));
            let i = choose|i: int| 0 <= i < first.len() && first[i] == s[t];
            assert(all[i] == s[t]);
            assert(all.contains(s[t]));
            let j = all.index_of(s[t]);
            assert(all[j] == s[t]);
        }
        if c < 102 {
            let t = choose|t: int| 0 <= t < 384 && s[t] == #[trigger] first[c];
            let (w, p) = (t / 24, t % 24);
            assert(24 * w + p == t);
            assert(all[c] == s[t]);
            assert(all.contains(s[t]));
            let j = all.index_of(s[t]);
            assert(all[j] == s[t]);
            assert(chart_class(w, p) == c);
        }
    }
}

} // verus!
