//! Whole-degree trigonometry in fixed point.
//!
//! Angles are integer degrees. An entry of the sine table is
//! `sin(d degrees) * TRIG_ONE`, rounded to nearest; cosines come from the
//! same table by the quarter-turn shift. Per-axis DDA step lengths are the
//! cell span divided by the absolute sine or cosine, with [`LEN_INF`] as the
//! sentinel for an axis an exactly axis-aligned ray never crosses.

use vstd::prelude::*;
use crate::{CELL_UNITS, LEN_INF, STEP_LEN_MAX, TRIG_ONE};

verus! {

/// Smallest nonzero sine table entry: the sine of one degree.
pub const SIN_MIN: u64 = 17452;

/// `sin(d degrees) * TRIG_ONE` rounded to nearest, for `0 <= d <= 90`.
pub open spec fn sin_quarter(d: int) -> int {
    if d == 0 {
        0
    } else if d == 1 {
        17452
    } else if d == 2 {
        34899
    } else if d == 3 {
        52336
    } else if d == 4 {
        69756
    } else if d == 5 {
        87156
    } else if d == 6 {
        104528
    } else if d == 7 {
        121869
    } else if d == 8 {
        139173
    } else if d == 9 {
        156434
    } else if d == 10 {
        173648
    } else if d == 11 {
        190809
    } else if d == 12 {
        207912
    } else if d == 13 {
        224951
    } else if d == 14 {
        241922
    } else if d == 15 {
        258819
    } else if d == 16 {
        275637
    } else if d == 17 {
        292372
    } else if d == 18 {
        309017
    } else if d == 19 {
        325568
    } else if d == 20 {
        342020
    } else if d == 21 {
        358368
    } else if d == 22 {
        374607
    } else if d == 23 {
        390731
    } else if d == 24 {
        406737
    } else if d == 25 {
        422618
    } else if d == 26 {
        438371
    } else if d == 27 {
        453990
    } else if d == 28 {
        469472
    } else if d == 29 {
        484810
    } else if d == 30 {
        500000
    } else if d == 31 {
        515038
    } else if d == 32 {
        529919
    } else if d == 33 {
        544639
    } else if d == 34 {
        559193
    } else if d == 35 {
        573576
    } else if d == 36 {
        587785
    } else if d == 37 {
        601815
    } else if d == 38 {
        615661
    } else if d == 39 {
        629320
    } else if d == 40 {
        642788
    } else if d == 41 {
        656059
    } else if d == 42 {
        669131
    } else if d == 43 {
        681998
    } else if d == 44 {
        694658
    } else if d == 45 {
        707107
    } else if d == 46 {
        719340
    } else if d == 47 {
        731354
    } else if d == 48 {
        743145
    } else if d == 49 {
        754710
    } else if d == 50 {
        766044
    } else if d == 51 {
        777146
    } else if d == 52 {
        788011
    } else if d == 53 {
        798636
    } else if d == 54 {
        809017
    } else if d == 55 {
        819152
    } else if d == 56 {
        829038
    } else if d == 57 {
        838671
    } else if d == 58 {
        848048
    } else if d == 59 {
        857167
    } else if d == 60 {
        866025
    } else if d == 61 {
        874620
    } else if d == 62 {
        882948
    } else if d == 63 {
        891007
    } else if d == 64 {
        898794
    } else if d == 65 {
        906308
    } else if d == 66 {
        913545
    } else if d == 67 {
        920505
    } else if d == 68 {
        927184
    } else if d == 69 {
        933580
    } else if d == 70 {
        939693
    } else if d == 71 {
        945519
    } else if d == 72 {
        951057
    } else if d == 73 {
        956305
    } else if d == 74 {
        961262
    } else if d == 75 {
        965926
    } else if d == 76 {
        970296
    } else if d == 77 {
        974370
    } else if d == 78 {
        978148
    } else if d == 79 {
        981627
    } else if d == 80 {
        984808
    } else if d == 81 {
        987688
    } else if d == 82 {
        990268
    } else if d == 83 {
        992546
    } else if d == 84 {
        994522
    } else if d == 85 {
        996195
    } else if d == 86 {
        997564
    } else if d == 87 {
        998630
    } else if d == 88 {
        999391
    } else if d == 89 {
        999848
    } else {
        1000000
    }
}

/// `|sin(a degrees)| * TRIG_ONE` for a whole-degree angle `0 <= a < 360`,
/// folded onto the first quarter turn.
pub open spec fn abs_sin_deg(a: int) -> int {
    if a <= 90 {
        sin_quarter(a)
    } else if a <= 180 {
        sin_quarter(180 - a)
    } else if a <= 270 {
        sin_quarter(a - 180)
    } else {
        sin_quarter(360 - a)
    }
}

/// `|cos(a degrees)| * TRIG_ONE` for `0 <= a < 360`.
pub open spec fn abs_cos_deg(a: int) -> int {
    if a < 270 {
        abs_sin_deg(a + 90)
    } else {
        abs_sin_deg(a - 270)
    }
}

/// Signed `sin(a degrees) * TRIG_ONE` for `0 <= a < 360`.
pub open spec fn sin_deg(a: int) -> int {
    if a <= 180 {
        abs_sin_deg(a)
    } else {
        -abs_sin_deg(a)
    }
}

/// Signed `cos(a degrees) * TRIG_ONE` for `0 <= a < 360`.
pub open spec fn cos_deg(a: int) -> int {
    if a < 270 {
        sin_deg(a + 90)
    } else {
        sin_deg(a - 270)
    }
}

/// Ray length consumed crossing one full cell along an axis whose direction
/// component has the given absolute sine or cosine; the sentinel for an axis
/// that is never crossed.
pub open spec fn step_len_of(abs_trig: int) -> int {
    if abs_trig == 0 {
        LEN_INF as int
    } else {
        CELL_UNITS * TRIG_ONE / abs_trig
    }
}

/// Sine table lookup over the first quarter turn.
pub fn sin_quarter_x(d: u32) -> (r: u64)
    requires
        d <= 90,
    ensures
        r == sin_quarter(d as int),
        r <= TRIG_ONE,
        r == 0 <==> d == 0,
        d >= 1 ==> r >= SIN_MIN,
{
    match d {
            0 => 0,
            1 => 17452,
            2 => 34899,
            3 => 52336,
            4 => 69756,
            5 => 87156,
            6 => 104528,
            7 => 121869,
            8 => 139173,
            9 => 156434,
            10 => 173648,
            11 => 190809,
            12 => 207912,
            13 => 224951,
            14 => 241922,
            15 => 258819,
            16 => 275637,
            17 => 292372,
            18 => 309017,
            19 => 325568,
            20 => 342020,
            21 => 358368,
            22 => 374607,
            23 => 390731,
            24 => 406737,
            25 => 422618,
            26 => 438371,
            27 => 453990,
            28 => 469472,
            29 => 484810,
            30 => 500000,
            31 => 515038,
            32 => 529919,
            33 => 544639,
            34 => 559193,
            35 => 573576,
            36 => 587785,
            37 => 601815,
            38 => 615661,
            39 => 629320,
            40 => 642788,
            41 => 656059,
            42 => 669131,
            43 => 681998,
            44 => 694658,
            45 => 707107,
            46 => 719340,
            47 => 731354,
            48 => 743145,
            49 => 754710,
            50 => 766044,
            51 => 777146,
            52 => 788011,
            53 => 798636,
            54 => 809017,
            55 => 819152,
            56 => 829038,
            57 => 838671,
            58 => 848048,
            59 => 857167,
            60 => 866025,
            61 => 874620,
            62 => 882948,
            63 => 891007,
            64 => 898794,
            65 => 906308,
            66 => 913545,
            67 => 920505,
            68 => 927184,
            69 => 933580,
            70 => 939693,
            71 => 945519,
            72 => 951057,
            73 => 956305,
            74 => 961262,
            75 => 965926,
            76 => 970296,
            77 => 974370,
            78 => 978148,
            79 => 981627,
            80 => 984808,
            81 => 987688,
            82 => 990268,
            83 => 992546,
            84 => 994522,
            85 => 996195,
            86 => 997564,
            87 => 998630,
            88 => 999391,
            89 => 999848,
            _ => 1000000,
        }
}

/// Facts the ray caster needs about every whole-degree angle: table entries
/// are bounded, the sine vanishes only at 0 and 180 degrees, the cosine only
/// at 90 and 270, and the two never vanish together.
pub proof fn lemma_trig_range(a: int)
    requires
        0 <= a < 360,
    ensures
        0 <= abs_sin_deg(a) <= TRIG_ONE,
        0 <= abs_cos_deg(a) <= TRIG_ONE,
        abs_sin_deg(a) == 0 <==> (a == 0 || a == 180),
        abs_cos_deg(a) == 0 <==> (a == 90 || a == 270),
        abs_sin_deg(a) != 0 ==> abs_sin_deg(a) >= SIN_MIN,
        abs_cos_deg(a) != 0 ==> abs_cos_deg(a) >= SIN_MIN,
{
}

/// Exact table values at the four cardinal angles.
pub proof fn lemma_trig_cardinal()
    ensures
        abs_sin_deg(0) == 0 && abs_cos_deg(0) == TRIG_ONE,
        abs_sin_deg(90) == TRIG_ONE && abs_cos_deg(90) == 0,
        abs_sin_deg(180) == 0 && abs_cos_deg(180) == TRIG_ONE,
        abs_sin_deg(270) == TRIG_ONE && abs_cos_deg(270) == 0,
{
}

/// `|sin|` of a whole-degree angle.
pub fn abs_sin(a: u32) -> (r: u64)
    requires
        a < 360,
    ensures
        r == abs_sin_deg(a as int),
{
    if a <= 90 {
        sin_quarter_x(a)
    } else if a <= 180 {
        sin_quarter_x(180 - a)
    } else if a <= 270 {
        sin_quarter_x(a - 180)
    } else {
        sin_quarter_x(360 - a)
    }
}

/// `|cos|` of a whole-degree angle.
pub fn abs_cos(a: u32) -> (r: u64)
    requires
        a < 360,
    ensures
        r == abs_cos_deg(a as int),
{
    if a < 270 {
        abs_sin(a + 90)
    } else {
        abs_sin(a - 270)
    }
}

/// Signed sine of a whole-degree angle.
pub fn sin_signed(a: u32) -> (r: i64)
    requires
        a < 360,
    ensures
        r == sin_deg(a as int),
        -(TRIG_ONE as int) <= r <= TRIG_ONE,
{
    proof {
        lemma_trig_range(a as int);
    }
    let s = abs_sin(a);
    if a <= 180 {
        s as i64
    } else {
        -(s as i64)
    }
}

/// Signed cosine of a whole-degree angle.
pub fn cos_signed(a: u32) -> (r: i64)
    requires
        a < 360,
    ensures
        r == cos_deg(a as int),
        -(TRIG_ONE as int) <= r <= TRIG_ONE,
{
    if a < 270 {
        sin_signed(a + 90)
    } else {
        sin_signed(a - 270)
    }
}

/// Per-axis DDA step length from an absolute sine or cosine table entry.
pub fn axis_step_len(abs_trig: u64) -> (r: u64)
    requires
        abs_trig <= TRIG_ONE,
        abs_trig == 0 || abs_trig >= SIN_MIN,
    ensures
        r == step_len_of(abs_trig as int),
        abs_trig == 0 ==> r == LEN_INF,
        abs_trig != 0 ==> CELL_UNITS <= r <= STEP_LEN_MAX,
{
    if abs_trig == 0 {
        LEN_INF
    } else {
        let r = (CELL_UNITS * TRIG_ONE) / abs_trig;
        proof {
            vstd::arithmetic::div_mod::lemma_div_is_ordered_by_denominator(
                (CELL_UNITS * TRIG_ONE) as int,
                SIN_MIN as int,
                abs_trig as int,
            );
            vstd::arithmetic::div_mod::lemma_div_is_ordered_by_denominator(
                (CELL_UNITS * TRIG_ONE) as int,
                abs_trig as int,
                TRIG_ONE as int,
            );
        }
        r
    }
}

} // verus!
