//! Sine and cosine of whole degrees in micro units (millionths).
//!
//! Directions in this library are whole-degree headings, so trigonometry is
//! a fixed table: `sin_micro_q(d)` is the sine of `d` degrees scaled by
//! 1,000,000 and rounded to the nearest integer, for `0 <= d <= 90`. The
//! full circle is folded onto that quarter by the usual symmetries.

use vstd::prelude::*;

verus! {

pub open spec fn sin_micro_q(d: int) -> int {
    if d == 0 {
        0
    } else if d == 1 {
        17452
    } else if d == 2 {
        34899
    } else if d == 3 {
        52336
    } else if d == 4 {
        69756
    } else if d == 5 {
        87156
    } else if d == 6 {
        104528
    } else if d == 7 {
        121869
    } else if d == 8 {
        139173
    } else if d == 9 {
        156434
    } else if d == 10 {
        173648
    } else if d == 11 {
        190809
    } else if d == 12 {
        207912
    } else if d == 13 {
        224951
    } else if d == 14 {
        241922
    } else if d == 15 {
        258819
    } else if d == 16 {
        275637
    } else if d == 17 {
        292372
    } else if d == 18 {
        309017
    } else if d == 19 {
        325568
    } else if d == 20 {
        342020
    } else if d == 21 {
        358368
    } else if d == 22 {
        374607
    } else if d == 23 {
        390731
    } else if d == 24 {
        406737
    } else if d == 25 {
        422618
    } else if d == 26 {
        438371
    } else if d == 27 {
        453990
    } else if d == 28 {
        469472
    } else if d == 29 {
        484810
    } else if d == 30 {
        500000
    } else if d == 31 {
        515038
    } else if d == 32 {
        529919
    } else if d == 33 {
        544639
    } else if d == 34 {
        559193
    } else if d == 35 {
        573576
    } else if d == 36 {
        587785
    } else if d == 37 {
        601815
    } else if d == 38 {
        615661
    } else if d == 39 {
        629320
    } else if d == 40 {
        642788
    } else if d == 41 {
        656059
    } else if d == 42 {
        669131
    } else if d == 43 {
        681998
    } else if d == 44 {
        694658
    } else if d == 45 {
        707107
    } else if d == 46 {
        719340
    } else if d == 47 {
        731354
    } else if d == 48 {
        743145
    } else if d == 49 {
        754710
    } else if d == 50 {
        766044
    } else if d == 51 {
        777146
    } else if d == 52 {
        788011
    } else if d == 53 {
        798636
    } else if d == 54 {
        809017
    } else if d == 55 {
        819152
    } else if d == 56 {
        829038
    } else if d == 57 {
        838671
    } else if d == 58 {
        848048
    } else if d == 59 {
        857167
    } else if d == 60 {
        866025
    } else if d == 61 {
        874620
    } else if d == 62 {
        882948
    } else if d == 63 {
        891007
    } else if d == 64 {
        898794
    } else if d == 65 {
        906308
    } else if d == 66 {
        913545
    } else if d == 67 {
        920505
    } else if d == 68 {
        927184
    } else if d == 69 {
        933580
    } else if d == 70 {
        939693
    } else if d == 71 {
        945519
    } else if d == 72 {
        951057
    } else if d == 73 {
        956305
    } else if d == 74 {
        961262
    } else if d == 75 {
        965926
    } else if d == 76 {
        970296
    } else if d == 77 {
        974370
    } else if d == 78 {
        978148
    } else if d == 79 {
        981627
    } else if d == 80 {
        984808
    } else if d == 81 {
        987688
    } else if d == 82 {
        990268
    } else if d == 83 {
        992546
    } else if d == 84 {
        994522
    } else if d == 85 {
        996195
    } else if d == 86 {
        997564
    } else if d == 87 {
        998630
    } else if d == 88 {
        999391
    } else if d == 89 {
        999848
    } else {
        1000000
    }
}

pub fn sin_quarter(d: u32) -> (r: i64)
    requires
        d <= 90,
    ensures
        r == sin_micro_q(d as int),
{
    match d {
        0 => 0,
        1 => 17452,
        2 => 34899,
        3 => 52336,
        4 => 69756,
        5 => 87156,
        6 => 104528,
        7 => 121869,
        8 => 139173,
        9 => 156434,
        10 => 173648,
        11 => 190809,
        12 => 207912,
        13 => 224951,
        14 => 241922,
        15 => 258819,
        16 => 275637,
        17 => 292372,
        18 => 309017,
        19 => 325568,
        20 => 342020,
        21 => 358368,
        22 => 374607,
        23 => 390731,
        24 => 406737,
        25 => 422618,
        26 => 438371,
        27 => 453990,
        28 => 469472,
        29 => 484810,
        30 => 500000,
        31 => 515038,
        32 => 529919,
        33 => 544639,
        34 => 559193,
        35 => 573576,
        36 => 587785,
        37 => 601815,
        38 => 615661,
        39 => 629320,
        40 => 642788,
        41 => 656059,
        42 => 669131,
        43 => 681998,
        44 => 694658,
        45 => 707107,
        46 => 719340,
        47 => 731354,
        48 => 743145,
        49 => 754710,
        50 => 766044,
        51 => 777146,
        52 => 788011,
        53 => 798636,
        54 => 809017,
        55 => 819152,
        56 => 829038,
        57 => 838671,
        58 => 848048,
        59 => 857167,
        60 => 866025,
        61 => 874620,
        62 => 882948,
        63 => 891007,
        64 => 898794,
        65 => 906308,
        66 => 913545,
        67 => 920505,
        68 => 927184,
        69 => 933580,
        70 => 939693,
        71 => 945519,
        72 => 951057,
        73 => 956305,
        74 => 961262,
        75 => 965926,
        76 => 970296,
        77 => 974370,
        78 => 978148,
        79 => 981627,
        80 => 984808,
        81 => 987688,
        82 => 990268,
        83 => 992546,
        84 => 994522,
        85 => 996195,
        86 => 997564,
        87 => 998630,
        88 => 999391,
        89 => 999848,
        _ => 1000000,
    }
}

/// Sine over a full turn, in micro units; `a` is a normalized angle in
/// whole degrees.
pub open spec fn sin_micro_full(a: int) -> int {
    if a <= 90 {
        sin_micro_q(a)
    } else if a <= 180 {
        sin_micro_q(180 - a)
    } else if a <= 270 {
        -sin_micro_q(a - 180)
    } else {
        -sin_micro_q(360 - a)
    }
}

/// Cosine over a full turn, as the sine shifted a quarter turn.
pub open spec fn cos_micro_full(a: int) -> int {
    sin_micro_full(if a + 90 < 360 { a + 90 } else { a - 270 })
}

pub fn sin_full(a: u32) -> (r: i64)
    requires
        a < 360,
    ensures
        r == sin_micro_full(a as int),
{
    if a <= 90 {
        sin_quarter(a)
    } else if a <= 180 {
        sin_quarter(180 - a)
    } else if a <= 270 {
        -sin_quarter(a - 180)
    } else {
        -sin_quarter(360 - a)
    }
}

pub fn cos_full(a: u32) -> (r: i64)
    requires
        a < 360,
    ensures
        r == cos_micro_full(a as int),
{
    if a + 90 < 360 {
        sin_full(a + 90)
    } else {
        sin_full(a - 270)
    }
}

/// The quarter table never leaves `[0, 1_000_000]`.
pub proof fn lemma_sin_q_bounds(d: int)
    requires
        0 <= d <= 90,
    ensures
        0 <= sin_micro_q(d) <= 1_000_000,
{
}

/// Over the full turn the sine and cosine stay within one unit.
pub proof fn lemma_sin_cos_bounds(a: int)
    requires
        0 <= a < 360,
    ensures
        -1_000_000 <= sin_micro_full(a) <= 1_000_000,
        -1_000_000 <= cos_micro_full(a) <= 1_000_000,
{
    if a <= 90 {
        lemma_sin_q_bounds(a);
    } else if a <= 180 {
        lemma_sin_q_bounds(180 - a);
    } else if a <= 270 {
        lemma_sin_q_bounds(a - 180);
    } else {
        lemma_sin_q_bounds(360 - a);
    }
    let b = if a + 90 < 360 { a + 90 } else { a - 270 };
    if b <= 90 {
        lemma_sin_q_bounds(b);
    } else if b <= 180 {
        lemma_sin_q_bounds(180 - b);
    } else if b <= 270 {
        lemma_sin_q_bounds(b - 180);
    } else {
        lemma_sin_q_bounds(360 - b);
    }
}

} // verus!
