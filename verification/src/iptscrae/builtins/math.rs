//! Math built-ins.
//!
//! SINE, COSINE and TANGENT give a thousand times the function of an angle
//! in whole degrees, truncated toward zero (where the tangent has no bound
//! it saturates to the largest or smallest `i32`, as the `f64` conversion
//! does). Floating point has no place in this library, so they
//! read tables of one turn instead of computing in `f64`: for every angle
//! from -359 to 359 degrees the tables give exactly what converting the
//! angle to radians and computing in `f64` gives. Beyond one turn an angle
//! is reduced to its remainder of a turn, while the `f64` computation
//! rounds the larger angle; there the two can differ by one unit.
use vstd::prelude::*;
use crate::iptscrae::builtins::{done, follows, int_v, short, Outcome};
use crate::iptscrae::value::{int_of, Value, ValueModel};
use crate::iptscrae::vm::{tdiv, trem, Vm, VmError};
use crate::text::str_eq;

verus! {

/// A thousand times the sine of 0 to 359 degrees, truncated toward zero.
pub const SINE_TABLE: [i32; 360] = [
    0, 17, 34, 52, 69, 87, 104, 121, 139, 156, 173, 190,
    207, 224, 241, 258, 275, 292, 309, 325, 342, 358, 374, 390,
    406, 422, 438, 453, 469, 484, 499, 515, 529, 544, 559, 573,
    587, 601, 615, 629, 642, 656, 669, 681, 694, 707, 719, 731,
    743, 754, 766, 777, 788, 798, 809, 819, 829, 838, 848, 857,
    866, 874, 882, 891, 898, 906, 913, 920, 927, 933, 939, 945,
    951, 956, 961, 965, 970, 974, 978, 981, 984, 987, 990, 992,
    994, 996, 997, 998, 999, 999, 1000, 999, 999, 998, 997, 996,
    994, 992, 990, 987, 984, 981, 978, 974, 970, 965, 961, 956,
    951, 945, 939, 933, 927, 920, 913, 906, 898, 891, 882, 874,
    866, 857, 848, 838, 829, 819, 809, 798, 788, 777, 766, 754,
    743, 731, 719, 707, 694, 681, 669, 656, 642, 629, 615, 601,
    587, 573, 559, 544, 529, 515, 499, 484, 469, 453, 438, 422,
    406, 390, 374, 358, 342, 325, 309, 292, 275, 258, 241, 224,
    207, 190, 173, 156, 139, 121, 104, 87, 69, 52, 34, 17,
    0, -17, -34, -52, -69, -87, -104, -121, -139, -156, -173, -190,
    -207, -224, -241, -258, -275, -292, -309, -325, -342, -358, -374, -390,
    -406, -422, -438, -453, -469, -484, -500, -515, -529, -544, -559, -573,
    -587, -601, -615, -629, -642, -656, -669, -681, -694, -707, -719, -731,
    -743, -754, -766, -777, -788, -798, -809, -819, -829, -838, -848, -857,
    -866, -874, -882, -891, -898, -906, -913, -920, -927, -933, -939, -945,
    -951, -956, -961, -965, -970, -974, -978, -981, -984, -987, -990, -992,
    -994, -996, -997, -998, -999, -999, -1000, -999, -999, -998, -997, -996,
    -994, -992, -990, -987, -984, -981, -978, -974, -970, -965, -961, -956,
    -951, -945, -939, -933, -927, -920, -913, -906, -898, -891, -882, -874,
    -866, -857, -848, -838, -829, -819, -809, -798, -788, -777, -766, -754,
    -743, -731, -719, -707, -694, -681, -669, -656, -642, -629, -615, -601,
    -587, -573, -559, -544, -529, -515, -500, -484, -469, -453, -438, -422,
    -406, -390, -374, -358, -342, -325, -309, -292, -275, -258, -241, -224,
    -207, -190, -173, -156, -139, -121, -104, -87, -69, -52, -34, -17,
];

/// A thousand times the cosine of 0 to 359 degrees, truncated toward zero.
pub const COSINE_TABLE: [i32; 360] = [
    1000, 999, 999, 998, 997, 996, 994, 992, 990, 987, 984, 981,
    978, 974, 970, 965, 961, 956, 951, 945, 939, 933, 927, 920,
    913, 906, 898, 891, 882, 874, 866, 857, 848, 838, 829, 819,
    809, 798, 788, 777, 766, 754, 743, 731, 719, 707, 694, 681,
    669, 656, 642, 629, 615, 601, 587, 573, 559, 544, 529, 515,
    500, 484, 469, 453, 438, 422, 406, 390, 374, 358, 342, 325,
    309, 292, 275, 258, 241, 224, 207, 190, 173, 156, 139, 121,
    104, 87, 69, 52, 34, 17, 0, -17, -34, -52, -69, -87,
    -104, -121, -139, -156, -173, -190, -207, -224, -241, -258, -275, -292,
    -309, -325, -342, -358, -374, -390, -406, -422, -438, -453, -469, -484,
    -499, -515, -529, -544, -559, -573, -587, -601, -615, -629, -642, -656,
    -669, -681, -694, -707, -719, -731, -743, -754, -766, -777, -788, -798,
    -809, -819, -829, -838, -848, -857, -866, -874, -882, -891, -898, -906,
    -913, -920, -927, -933, -939, -945, -951, -956, -961, -965, -970, -974,
    -978, -981, -984, -987, -990, -992, -994, -996, -997, -998, -999, -999,
    -1000, -999, -999, -998, -997, -996, -994, -992, -990, -987, -984, -981,
    -978, -974, -970, -965, -961, -956, -951, -945, -939, -933, -927, -920,
    -913, -906, -898, -891, -882, -874, -866, -857, -848, -838, -829, -819,
    -809, -798, -788, -777, -766, -754, -743, -731, -719, -707, -694, -681,
    -669, -656, -642, -629, -615, -601, -587, -573, -559, -544, -529, -515,
    -500, -484, -469, -453, -438, -422, -406, -390, -374, -358, -342, -325,
    -309, -292, -275, -258, -241, -224, -207, -190, -173, -156, -139, -121,
    -104, -87, -69, -52, -34, -17, 0, 17, 34, 52, 69, 87,
    104, 121, 139, 156, 173, 190, 207, 224, 241, 258, 275, 292,
    309, 325, 342, 358, 374, 390, 406, 422, 438, 453, 469, 484,
    500, 515, 529, 544, 559, 573, 587, 601, 615, 629, 642, 656,
    669, 681, 694, 707, 719, 731, 743, 754, 766, 777, 788, 798,
    809, 819, 829, 838, 848, 857, 866, 874, 882, 891, 898, 906,
    913, 920, 927, 933, 939, 945, 951, 956, 961, 965, 970, 974,
    978, 981, 984, 987, 990, 992, 994, 996, 997, 998, 999, 999,
];

/// A thousand times the tangent of 0 to 359 degrees, truncated toward zero.
pub const TANGENT_TABLE: [i32; 360] = [
    0, 17, 34, 52, 69, 87, 105, 122, 140, 158, 176, 194,
    212, 230, 249, 267, 286, 305, 324, 344, 363, 383, 404, 424,
    445, 466, 487, 509, 531, 554, 577, 600, 624, 649, 674, 700,
    726, 753, 781, 809, 839, 869, 900, 932, 965, 999, 1035, 1072,
    1110, 1150, 1191, 1234, 1279, 1327, 1376, 1428, 1482, 1539, 1600, 1664,
    1732, 1804, 1880, 1962, 2050, 2144, 2246, 2355, 2475, 2605, 2747, 2904,
    3077, 3270, 3487, 3732, 4010, 4331, 4704, 5144, 5671, 6313, 7115, 8144,
    9514, 11430, 14300, 19081, 28636, 57289, 2147483647, -57289, -28636, -19081, -14300, -11430,
    -9514, -8144, -7115, -6313, -5671, -5144, -4704, -4331, -4010, -3732, -3487, -3270,
    -3077, -2904, -2747, -2605, -2475, -2355, -2246, -2144, -2050, -1962, -1880, -1804,
    -1732, -1664, -1600, -1539, -1482, -1428, -1376, -1327, -1279, -1234, -1191, -1150,
    -1110, -1072, -1035, -1000, -965, -932, -900, -869, -839, -809, -781, -753,
    -726, -700, -674, -649, -624, -600, -577, -554, -531, -509, -487, -466,
    -445, -424, -404, -383, -363, -344, -324, -305, -286, -267, -249, -230,
    -212, -194, -176, -158, -140, -122, -105, -87, -69, -52, -34, -17,
    0, 17, 34, 52, 69, 87, 105, 122, 140, 158, 176, 194,
    212, 230, 249, 267, 286, 305, 324, 344, 363, 383, 404, 424,
    445, 466, 487, 509, 531, 554, 577, 600, 624, 649, 674, 700,
    726, 753, 781, 809, 839, 869, 900, 932, 965, 999, 1035, 1072,
    1110, 1150, 1191, 1234, 1279, 1327, 1376, 1428, 1482, 1539, 1600, 1664,
    1732, 1804, 1880, 1962, 2050, 2144, 2246, 2355, 2475, 2605, 2747, 2904,
    3077, 3270, 3487, 3732, 4010, 4331, 4704, 5144, 5671, 6313, 7115, 8144,
    9514, 11430, 14300, 19081, 28636, 57289, 2147483647, -57289, -28636, -19081, -14300, -11430,
    -9514, -8144, -7115, -6313, -5671, -5144, -4704, -4331, -4010, -3732, -3487, -3270,
    -3077, -2904, -2747, -2605, -2475, -2355, -2246, -2144, -2050, -1962, -1880, -1804,
    -1732, -1664, -1600, -1539, -1482, -1428, -1376, -1327, -1279, -1234, -1191, -1150,
    -1110, -1072, -1035, -1000, -965, -932, -900, -869, -839, -809, -781, -753,
    -726, -700, -674, -649, -624, -600, -577, -554, -531, -509, -487, -466,
    -445, -424, -404, -383, -363, -344, -324, -305, -286, -267, -249, -230,
    -212, -194, -176, -158, -140, -122, -105, -87, -69, -52, -34, -17,
];


/// The integer square root: the largest `r` with `r * r <= n`.
pub open spec fn is_isqrt(n: int, r: int) -> bool {
    0 <= r && r * r <= n < (r + 1) * (r + 1)
}

/// The integer square root of a natural number.
#[verifier::opaque]
pub open spec fn isqrt(n: int) -> int {
    choose|r: int| is_isqrt(n, r)
}

proof fn lemma_isqrt_unique(n: int, r: int, q: int)
    requires
        is_isqrt(n, r),
        is_isqrt(n, q),
    ensures
        r == q,
{
    if r < q {
        assert((r + 1) * (r + 1) <= q * q) by (nonlinear_arith)
            requires
                0 <= r,
                r + 1 <= q,
        ;
    } else if q < r {
        assert((q + 1) * (q + 1) <= r * r) by (nonlinear_arith)
            requires
                0 <= q,
                q + 1 <= r,
        ;
    }
}

/// The integer square root of a nonnegative `i32`.
pub fn isqrt_i32(n: i32) -> (r: i32)
    requires
        n >= 0,
    ensures
        r == isqrt(n as int),
        is_isqrt(n as int, r as int),
{
    let mut lo: i64 = 0;
    let mut hi: i64 = 46341;
    let x = n as i64;
    assert(hi * hi > x) by (nonlinear_arith)
        requires
            hi == 46341,
            x <= 0x7fff_ffff,
    ;
    while hi - lo > 1
        invariant
            0 <= lo < hi <= 46341,
            lo * lo <= x,
            x < hi * hi,
            x == n as i64,
            n >= 0,
        decreases hi - lo,
    {
        let mid = lo + (hi - lo) / 2;
        assert(mid * mid <= 46341 * 46341) by (nonlinear_arith)
            requires
                0 <= mid <= 46341,
        ;
        if mid * mid <= x {
            lo = mid;
        } else {
            hi = mid;
        }
    }
    assert(hi == lo + 1);
    proof {
        reveal(isqrt);
        assert(is_isqrt(n as int, lo as int));
        let c = choose|r: int| is_isqrt(n as int, r);
        assert(is_isqrt(n as int, c));
        lemma_isqrt_unique(n as int, lo as int, c);
    }
    lo as i32
}

/// The seed of RANDOM: a linear congruential step from the instruction
/// count, in wrapping `i32` arithmetic.
#[verifier::opaque]
pub open spec fn random_seed(count: int) -> i32 {
    (count as i32).wrapping_mul(1103515245i32).wrapping_add(12345i32)
}

fn seed_of(count: usize) -> (s: i32)
    ensures
        s == random_seed(count as int),
{
    proof {
        reveal(random_seed);
    }
    (count as i32).wrapping_mul(1103515245i32).wrapping_add(12345i32)
}

/// The pseudo-random number RANDOM gives below `max` (when `max` is
/// positive), from the instruction count.
#[verifier::opaque]
pub open spec fn random_value(count: int, max: i32) -> i32 {
    let seed = random_seed(count);
    let r = trem(seed as int, max as int);
    (if r < 0 { -r } else { r }) as i32
}

/// The angle reduced into one turn, its size.
pub open spec fn turn(d: int) -> int {
    (if d < 0 { -d } else { d }) % 360
}

/// SINE of an angle in degrees.
#[verifier::opaque]
pub open spec fn sine_of(d: int) -> i32 {
    if d < 0 { (-SINE_TABLE@[turn(d)]) as i32 } else { SINE_TABLE@[turn(d)] }
}

/// COSINE of an angle in degrees.
#[verifier::opaque]
pub open spec fn cosine_of(d: int) -> i32 {
    COSINE_TABLE@[turn(d)]
}

/// TANGENT of an angle in degrees.
#[verifier::opaque]
pub open spec fn tangent_of(d: int) -> i32 {
    let t = TANGENT_TABLE@[turn(d)];
    if d < 0 { if t == i32::MAX { i32::MIN } else { (-t) as i32 } } else { t }
}

/// What the math built-ins do to a stack.
pub open spec fn math_spec(name: Seq<char>, vm: Vm) -> Option<Outcome> {
    let s = vm.stack_model();
    let k = s.len() as int;
    let rest = s.drop_last();
    if k == 0 && (name == "RANDOM"@ || name == "SQUAREROOT"@ || name == "SINE"@ || name == "COSINE"@ || name == "TANGENT"@) {
        Some(short())
    } else {
        let n = if k > 0 { int_of(s.last()) } else { 0 };
        if name == "RANDOM"@ || name == "SQUAREROOT"@ || name == "SINE"@ || name == "COSINE"@ || name == "TANGENT"@ {
            Some(done(rest.push(int_v(math_value(name, vm.count(), n)))))
        } else {
            None
        }
    }
}

fn turn_index(d: i32) -> (i: usize)
    ensures
        i == turn(d as int),
        i < 360,
{
    let m: i64 = if d < 0 { -(d as i64) } else { d as i64 };
    (m % 360) as usize
}

fn sine_at(d: i32) -> (v: i32)
    ensures
        v == sine_of(d as int),
{
    proof {
        reveal(sine_of);
    }
    let t = SINE_TABLE[turn_index(d)];
    if d < 0 { -t } else { t }
}

fn cosine_at(d: i32) -> (v: i32)
    ensures
        v == cosine_of(d as int),
{
    proof {
        reveal(cosine_of);
    }
    COSINE_TABLE[turn_index(d)]
}

fn tangent_at(d: i32) -> (v: i32)
    ensures
        v == tangent_of(d as int),
{
    proof {
        reveal(tangent_of);
    }
    let t = TANGENT_TABLE[turn_index(d)];
    if d < 0 {
        if t == i32::MAX { i32::MIN } else { -t }
    } else {
        t
    }
}

fn random_below(count: usize, max: i32) -> (v: i32)
    requires
        max > 0,
    ensures
        v == random_value(count as int, max),
{
    let seed = seed_of(count);
    let x = seed as i64;
    let m = max as i64;
    let ax: i64 = if x < 0 { -x } else { x };
    let q: i64 = ax / m;
    proof {
        lemma_rem_parts(ax as int, m as int, q as int);
    }
    let p: i64 = m * q;
    let rem: i64 = if x < 0 { p - ax } else { ax - p };
    proof {
        lemma_trem_pos(x as int, m as int, ax as int, q as int);
    }
    let v = if rem < 0 { -rem } else { rem };
    proof {
        reveal(random_value);
    }
    v as i32
}

proof fn lemma_rem_parts(ax: int, m: int, q: int)
    requires
        ax >= 0,
        m >= 1,
        q == ax / m,
    ensures
        0 <= ax - m * q < m,
        0 <= m * q <= ax,
{
    assert(0 <= ax - m * q < m) by (nonlinear_arith)
        requires
            q == ax / m,
            m >= 1,
            ax >= 0,
    ;
    assert(0 <= m * q) by (nonlinear_arith)
        requires
            q == ax / m,
            m >= 1,
            ax >= 0,
    ;
}

proof fn lemma_trem_pos(x: int, m: int, ax: int, q: int)
    requires
        m >= 1,
        ax == (if x < 0 { -x } else { x }),
        q == ax / m,
    ensures
        trem(x, m) == (if x < 0 { m * q - ax } else { ax - m * q }),
{
    let t = tdiv(x, m);
    assert(t == (if x < 0 { -q } else { q }));
    if x < 0 {
        assert(m * t == -(m * q)) by (nonlinear_arith)
            requires
                t == -q,
        ;
    }
}

/// The value a math built-in computes from the integer it pops.
pub open spec fn math_value(name: Seq<char>, count: int, n: i32) -> i32 {
    if name == "RANDOM"@ {
        if n <= 0 { 0 } else { random_value(count, n) }
    } else if name == "SQUAREROOT"@ {
        if n >= 0 { isqrt(n as int) as i32 } else { 0 }
    } else if name == "SINE"@ {
        sine_of(n as int)
    } else if name == "COSINE"@ {
        cosine_of(n as int)
    } else {
        tangent_of(n as int)
    }
}

proof fn lemma_isqrt_exists(n: int) -> (r: int)
    requires
        n >= 0,
    ensures
        is_isqrt(n, r),
    decreases n,
{
    if n == 0 {
        0
    } else {
        let q = lemma_isqrt_exists(n - 1);
        if (q + 1) * (q + 1) <= n {
            assert(n < (q + 2) * (q + 2)) by (nonlinear_arith)
                requires
                    n - 1 < (q + 1) * (q + 1),
                    q >= 0,
            ;
            q + 1
        } else {
            q
        }
    }
}

fn math_value_exec(name: &str, count: usize, n: i32) -> (v: i32)
    ensures
        v == math_value(name@, count as int, n),
{
    if str_eq(name, "RANDOM") {
        if n <= 0 { 0 } else { random_below(count, n) }
    } else if str_eq(name, "SQUAREROOT") {
        if n >= 0 { isqrt_i32(n) } else { 0 }
    } else if str_eq(name, "SINE") {
        sine_at(n)
    } else if str_eq(name, "COSINE") {
        cosine_at(n)
    } else {
        tangent_at(n)
    }
}

/// Runs a math built-in: RANDOM (pop a bound, push a pseudo-random number
/// below it, or 0 for a bound that is not positive), SQUAREROOT (pop, push
/// the integer square root, 0 for a negative number), SINE, COSINE and
/// TANGENT (pop an angle in degrees, push a thousand times its function).
pub fn execute_math_builtin(vm: &mut Vm, name: &str) -> (r: Result<(), VmError>)
    ensures
        follows(math_spec(name@, *old(vm)), name@, r, old(vm).stack_model(), final(vm).stack_model()),
        final(vm).same_but_stack(old(vm)),
{
    if str_eq(name, "RANDOM") || str_eq(name, "SQUAREROOT") || str_eq(name, "SINE") || str_eq(name, "COSINE")
        || str_eq(name, "TANGENT") {
        let n = vm.pop("math")?.to_integer();
        proof {
            vm.lemma_frame_inner(old(vm));
        }
        let v = math_value_exec(name, vm.instruction_count(), n);
        vm.push(Value::Integer(v));
        Ok(())
    } else {
        Err(VmError::undefined_function(name))
    }
}

/// SQUAREROOT of a nonnegative `n` is the largest `r` with `r * r <= n`;
/// RANDOM of a positive `n` lies in `0..n`, and of any other is 0;
/// whatever the instruction count.
#[verifier::rlimit(60)]
pub proof fn lemma_squareroot_random(count: int, n: i32)
    ensures
        n >= 0 ==> {
            let r = math_value("SQUAREROOT"@, count, n) as int;
            0 <= r && r * r <= n && n < (r + 1) * (r + 1)
        },
        n > 0 ==> 0 <= math_value("RANDOM"@, count, n) < n,
        n <= 0 ==> math_value("RANDOM"@, count, n) == 0,
{
    reveal_strlit("RANDOM");
    reveal_strlit("SQUAREROOT");
    assert("SQUAREROOT"@[0] != "RANDOM"@[0]);
    if n >= 0 {
        let r = lemma_isqrt_exists(n as int);
        reveal(isqrt);
        let c = choose|c: int| is_isqrt(n as int, c);
        lemma_isqrt_unique(n as int, r, c);
        assert(r <= n) by (nonlinear_arith)
            requires
                0 <= r,
                r * r <= n,
        ;
        assert(isqrt(n as int) == r);
    }
    if n > 0 {
        reveal(random_value);
        let x = random_seed(count) as int;
        let ax = if x < 0 { -x } else { x };
        let q = ax / (n as int);
        lemma_rem_parts(ax, n as int, q);
        lemma_trem_pos(x, n as int, ax, q);
    }
}

/// SINE and TANGENT are odd functions of the angle and COSINE is even
/// (TANGENT where it does not saturate).
#[verifier::rlimit(60)]
pub proof fn lemma_trig_symmetry(d: i32)
    requires
        d > i32::MIN,
    ensures
        sine_of(-d) == -sine_of(d as int),
        cosine_of(-d) == cosine_of(d as int),
        i32::MIN < tangent_of(d as int) < i32::MAX ==> tangent_of(-d) == -tangent_of(d as int),
{
    reveal(sine_of);
    reveal(cosine_of);
    reveal(tangent_of);
    assert(turn(-d) == turn(d as int));
}

/// SINE, COSINE and TANGENT repeat after a full turn of 360 degrees.
#[verifier::rlimit(60)]
pub proof fn lemma_trig_period(d: int)
    requires
        0 <= d,
    ensures
        sine_of(d + 360) == sine_of(d),
        cosine_of(d + 360) == cosine_of(d),
        tangent_of(d + 360) == tangent_of(d),
{
    reveal(sine_of);
    reveal(cosine_of);
    reveal(tangent_of);
    assert((d + 360) % 360 == d % 360);
    assert(turn(d + 360) == turn(d));
}

} // verus!
