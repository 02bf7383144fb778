//! The pitch table: note names and their frequencies.
//!
//! A note is named by a letter, an optional accidental and an octave digit,
//! as in `A4`, `C#5` or `B\u{266d}3`. The table spans the 88 keys of a piano,
//! from `A0` to `C8`, tuned in equal temperament to `A4` = 440 Hz, each
//! frequency rounded to the hundredth of a hertz and counted in hundredths.

use vstd::prelude::*;

verus! {

/// The flat sign.
pub const FLAT: char = '\u{266d}';

/// The keys of the table are numbered from `A0` = 0 to `C8` = 87.
pub const KEYS: u8 = 88;

/// The semitone of a natural note above the C below it.
pub open spec fn letter_semitone(letter: char) -> Option<int> {
    if letter == 'C' {
        Some(0int)
    } else if letter == 'D' {
        Some(2int)
    } else if letter == 'E' {
        Some(4int)
    } else if letter == 'F' {
        Some(5int)
    } else if letter == 'G' {
        Some(7int)
    } else if letter == 'A' {
        Some(9int)
    } else if letter == 'B' {
        Some(11int)
    } else {
        None
    }
}

/// The sharps and flats the table knows: a sharp on C, D, F, G and A, a flat
/// on E and B. The result is the change in semitones.
pub open spec fn accidental_shift(letter: char, accidental: char) -> Option<int> {
    if accidental == '#' && (letter == 'C' || letter == 'D' || letter == 'F' || letter == 'G'
        || letter == 'A') {
        Some(1int)
    } else if accidental == FLAT && (letter == 'E' || letter == 'B') {
        Some(-1int)
    } else {
        None
    }
}

/// The value of an octave digit, `0` to `8`.
pub open spec fn octave_value(digit: char) -> Option<int> {
    if '0' <= digit && digit <= '8' {
        Some(digit as int - '0' as int)
    } else {
        None
    }
}

/// The key that a semitone of an octave falls on, if the table has it.
pub open spec fn key_at(octave: int, semitone: int) -> Option<int> {
    let key = 12 * octave + semitone - 9;
    if 0 <= key < KEYS as int {
        Some(key)
    } else {
        None
    }
}

/// The key that a note name stands for; `None` for a rest or any other text.
pub open spec fn piano_key(name: Seq<char>) -> Option<int> {
    if name.len() == 2 {
        match (letter_semitone(name[0]), octave_value(name[1])) {
            (Some(semitone), Some(octave)) => key_at(octave, semitone),
            _ => None,
        }
    } else if name.len() == 3 {
        match (letter_semitone(name[0]), accidental_shift(name[0], name[1]), octave_value(name[2])) {
            (Some(semitone), Some(shift), Some(octave)) => key_at(octave, semitone + shift),
            _ => None,
        }
    } else {
        None
    }
}

/// The frequencies of the keys in hundredths of a hertz, lowest first.
pub open spec fn key_table() -> Seq<int> {
    seq![
        2750, 2914, 3087, 3270, 3465, 3671, 3889, 4120,
        4365, 4625, 4900, 5191, 5500, 5827, 6174, 6541,
        6930, 7342, 7778, 8241, 8731, 9250, 9800, 10383,
        11000, 11654, 12347, 13081, 13859, 14683, 15556, 16481,
        17461, 18500, 19600, 20765, 22000, 23308, 24694, 26163,
        27718, 29366, 31113, 32963, 34923, 36999, 39200, 41530,
        44000, 46616, 49388, 52325, 55437, 58733, 62225, 65926,
        69846, 73999, 78399, 83061, 88000, 93233, 98777, 104650,
        110873, 117466, 124451, 131851, 139691, 147998, 156798, 166122,
        176000, 186466, 197553, 209300, 221746, 234932, 248902, 263702,
        279383, 295996, 313596, 332244, 352000, 372931, 395107, 418601,
    ]
}

/// The frequency of a key in hundredths of a hertz.
pub open spec fn key_centihertz(key: int) -> int {
    if 0 <= key < KEYS as int {
        key_table()[key]
    } else {
        0
    }
}

/// The twelfth power of a number.
pub open spec fn twelfth_power(x: int) -> int {
    let square = x * x;
    let fourth = square * square;
    fourth * fourth * fourth
}

/// Two to the power of a key number.
pub open spec fn two_to(key: int) -> int
    decreases key,
{
    if key <= 0 {
        1
    } else {
        2 * two_to(key - 1)
    }
}

/// Whether `freq` hundredths of a hertz is the true frequency of a key,
/// rounded to the nearest hundredth, where `power` is two to the power of
/// the number of the key.
///
/// Key 48 sounds at 440 Hz, and each key the twelfth root of two higher
/// than the one below, so that the true frequency of key `k` is
/// `44000 * 2^((k - 48) / 12)` hundredths. It rounds to `freq` where
/// `freq - 1/2 <= 44000 * 2^((k - 48) / 12) < freq + 1/2`. Doubled, raised
/// to the twelfth power and multiplied by `2^48`, this is a statement on
/// whole numbers.
pub open spec fn in_tune_at(freq: int, power: int) -> bool {
    &&& twelfth_power(2 * freq - 1) * 0x1_0000_0000_0000 <= twelfth_power(88000) * power
    &&& twelfth_power(88000) * power < twelfth_power(2 * freq + 1) * 0x1_0000_0000_0000
}

/// The keys of octave 0 are in tune.
proof fn lemma_octave_zero_in_tune()
    ensures
        in_tune_at(2750, 1),
        in_tune_at(2914, 2),
        in_tune_at(3087, 4),
{
    assert(in_tune_at(2750, 1)) by (nonlinear_arith);
    assert(in_tune_at(2914, 2)) by (nonlinear_arith);
    assert(in_tune_at(3087, 4)) by (nonlinear_arith);
}

/// The keys of octave 1 are in tune.
proof fn lemma_octave_one_in_tune()
    ensures
        in_tune_at(3270, 8),
        in_tune_at(3465, 16),
        in_tune_at(3671, 32),
        in_tune_at(3889, 64),
        in_tune_at(4120, 128),
        in_tune_at(4365, 256),
        in_tune_at(4625, 512),
        in_tune_at(4900, 1024),
        in_tune_at(5191, 2048),
        in_tune_at(5500, 4096),
        in_tune_at(5827, 8192),
        in_tune_at(6174, 16384),
{
    assert(in_tune_at(3270, 8)) by (nonlinear_arith);
    assert(in_tune_at(3465, 16)) by (nonlinear_arith);
    assert(in_tune_at(3671, 32)) by (nonlinear_arith);
    assert(in_tune_at(3889, 64)) by (nonlinear_arith);
    assert(in_tune_at(4120, 128)) by (nonlinear_arith);
    assert(in_tune_at(4365, 256)) by (nonlinear_arith);
    assert(in_tune_at(4625, 512)) by (nonlinear_arith);
    assert(in_tune_at(4900, 1024)) by (nonlinear_arith);
    assert(in_tune_at(5191, 2048)) by (nonlinear_arith);
    assert(in_tune_at(5500, 4096)) by (nonlinear_arith);
    assert(in_tune_at(5827, 8192)) by (nonlinear_arith);
    assert(in_tune_at(6174, 16384)) by (nonlinear_arith);
}

/// The keys of octave 2 are in tune.
proof fn lemma_octave_two_in_tune()
    ensures
        in_tune_at(6541, 32768),
        in_tune_at(6930, 65536),
        in_tune_at(7342, 131072),
        in_tune_at(7778, 262144),
        in_tune_at(8241, 524288),
        in_tune_at(8731, 1048576),
        in_tune_at(9250, 2097152),
        in_tune_at(9800, 4194304),
        in_tune_at(10383, 8388608),
        in_tune_at(11000, 16777216),
        in_tune_at(11654, 33554432),
        in_tune_at(12347, 67108864),
{
    assert(in_tune_at(6541, 32768)) by (nonlinear_arith);
    assert(in_tune_at(6930, 65536)) by (nonlinear_arith);
    assert(in_tune_at(7342, 131072)) by (nonlinear_arith);
    assert(in_tune_at(7778, 262144)) by (nonlinear_arith);
    assert(in_tune_at(8241, 524288)) by (nonlinear_arith);
    assert(in_tune_at(8731, 1048576)) by (nonlinear_arith);
    assert(in_tune_at(9250, 2097152)) by (nonlinear_arith);
    assert(in_tune_at(9800, 4194304)) by (nonlinear_arith);
    assert(in_tune_at(10383, 8388608)) by (nonlinear_arith);
    assert(in_tune_at(11000, 16777216)) by (nonlinear_arith);
    assert(in_tune_at(11654, 33554432)) by (nonlinear_arith);
    assert(in_tune_at(12347, 67108864)) by (nonlinear_arith);
}

/// The keys of octave 3 are in tune.
proof fn lemma_octave_three_in_tune()
    ensures
        in_tune_at(13081, 134217728),
        in_tune_at(13859, 268435456),
        in_tune_at(14683, 536870912),
        in_tune_at(15556, 1073741824),
        in_tune_at(16481, 2147483648),
        in_tune_at(17461, 4294967296),
        in_tune_at(18500, 8589934592),
        in_tune_at(19600, 17179869184),
        in_tune_at(20765, 34359738368),
        in_tune_at(22000, 68719476736),
        in_tune_at(23308, 137438953472),
        in_tune_at(24694, 274877906944),
{
    assert(in_tune_at(13081, 134217728)) by (nonlinear_arith);
    assert(in_tune_at(13859, 268435456)) by (nonlinear_arith);
    assert(in_tune_at(14683, 536870912)) by (nonlinear_arith);
    assert(in_tune_at(15556, 1073741824)) by (nonlinear_arith);
    assert(in_tune_at(16481, 2147483648)) by (nonlinear_arith);
    assert(in_tune_at(17461, 4294967296)) by (nonlinear_arith);
    assert(in_tune_at(18500, 8589934592)) by (nonlinear_arith);
    assert(in_tune_at(19600, 17179869184)) by (nonlinear_arith);
    assert(in_tune_at(20765, 34359738368)) by (nonlinear_arith);
    assert(in_tune_at(22000, 68719476736)) by (nonlinear_arith);
    assert(in_tune_at(23308, 137438953472)) by (nonlinear_arith);
    assert(in_tune_at(24694, 274877906944)) by (nonlinear_arith);
}

/// The keys of octave 4 are in tune.
proof fn lemma_octave_four_in_tune()
    ensures
        in_tune_at(26163, 549755813888),
        in_tune_at(27718, 1099511627776),
        in_tune_at(29366, 2199023255552),
        in_tune_at(31113, 4398046511104),
        in_tune_at(32963, 8796093022208),
        in_tune_at(34923, 17592186044416),
        in_tune_at(36999, 35184372088832),
        in_tune_at(39200, 70368744177664),
        in_tune_at(41530, 140737488355328),
        in_tune_at(44000, 281474976710656),
        in_tune_at(46616, 562949953421312),
        in_tune_at(49388, 1125899906842624),
{
    assert(in_tune_at(26163, 549755813888)) by (nonlinear_arith);
    assert(in_tune_at(27718, 1099511627776)) by (nonlinear_arith);
    assert(in_tune_at(29366, 2199023255552)) by (nonlinear_arith);
    assert(in_tune_at(31113, 4398046511104)) by (nonlinear_arith);
    assert(in_tune_at(32963, 8796093022208)) by (nonlinear_arith);
    assert(in_tune_at(34923, 17592186044416)) by (nonlinear_arith);
    assert(in_tune_at(36999, 35184372088832)) by (nonlinear_arith);
    assert(in_tune_at(39200, 70368744177664)) by (nonlinear_arith);
    assert(in_tune_at(41530, 140737488355328)) by (nonlinear_arith);
    assert(in_tune_at(44000, 281474976710656)) by (nonlinear_arith);
    assert(in_tune_at(46616, 562949953421312)) by (nonlinear_arith);
    assert(in_tune_at(49388, 1125899906842624)) by (nonlinear_arith);
}

/// The keys of octave 5 are in tune.
proof fn lemma_octave_five_in_tune()
    ensures
        in_tune_at(52325, 2251799813685248),
        in_tune_at(55437, 4503599627370496),
        in_tune_at(58733, 9007199254740992),
        in_tune_at(62225, 18014398509481984),
        in_tune_at(65926, 36028797018963968),
        in_tune_at(69846, 72057594037927936),
        in_tune_at(73999, 144115188075855872),
        in_tune_at(78399, 288230376151711744),
        in_tune_at(83061, 576460752303423488),
        in_tune_at(88000, 1152921504606846976),
        in_tune_at(93233, 2305843009213693952),
        in_tune_at(98777, 4611686018427387904),
{
    assert(in_tune_at(52325, 2251799813685248)) by (nonlinear_arith);
    assert(in_tune_at(55437, 4503599627370496)) by (nonlinear_arith);
    assert(in_tune_at(58733, 9007199254740992)) by (nonlinear_arith);
    assert(in_tune_at(62225, 18014398509481984)) by (nonlinear_arith);
    assert(in_tune_at(65926, 36028797018963968)) by (nonlinear_arith);
    assert(in_tune_at(69846, 72057594037927936)) by (nonlinear_arith);
    assert(in_tune_at(73999, 144115188075855872)) by (nonlinear_arith);
    assert(in_tune_at(78399, 288230376151711744)) by (nonlinear_arith);
    assert(in_tune_at(83061, 576460752303423488)) by (nonlinear_arith);
    assert(in_tune_at(88000, 1152921504606846976)) by (nonlinear_arith);
    assert(in_tune_at(93233, 2305843009213693952)) by (nonlinear_arith);
    assert(in_tune_at(98777, 4611686018427387904)) by (nonlinear_arith);
}

/// The keys of octave 6 are in tune.
proof fn lemma_octave_six_in_tune()
    ensures
        in_tune_at(104650, 9223372036854775808int),
        in_tune_at(110873, 18446744073709551616int),
        in_tune_at(117466, 36893488147419103232int),
        in_tune_at(124451, 73786976294838206464int),
        in_tune_at(131851, 147573952589676412928int),
        in_tune_at(139691, 295147905179352825856int),
        in_tune_at(147998, 590295810358705651712int),
        in_tune_at(156798, 1180591620717411303424int),
        in_tune_at(166122, 2361183241434822606848int),
        in_tune_at(176000, 4722366482869645213696int),
        in_tune_at(186466, 9444732965739290427392int),
        in_tune_at(197553, 18889465931478580854784int),
{
    assert(in_tune_at(104650, 9223372036854775808int)) by (nonlinear_arith);
    assert(in_tune_at(110873, 18446744073709551616int)) by (nonlinear_arith);
    assert(in_tune_at(117466, 36893488147419103232int)) by (nonlinear_arith);
    assert(in_tune_at(124451, 73786976294838206464int)) by (nonlinear_arith);
    assert(in_tune_at(131851, 147573952589676412928int)) by (nonlinear_arith);
    assert(in_tune_at(139691, 295147905179352825856int)) by (nonlinear_arith);
    assert(in_tune_at(147998, 590295810358705651712int)) by (nonlinear_arith);
    assert(in_tune_at(156798, 1180591620717411303424int)) by (nonlinear_arith);
    assert(in_tune_at(166122, 2361183241434822606848int)) by (nonlinear_arith);
    assert(in_tune_at(176000, 4722366482869645213696int)) by (nonlinear_arith);
    assert(in_tune_at(186466, 9444732965739290427392int)) by (nonlinear_arith);
    assert(in_tune_at(197553, 18889465931478580854784int)) by (nonlinear_arith);
}

/// The keys of octave 7 are in tune.
proof fn lemma_octave_seven_in_tune()
    ensures
        in_tune_at(209300, 37778931862957161709568int),
        in_tune_at(221746, 75557863725914323419136int),
        in_tune_at(234932, 151115727451828646838272int),
        in_tune_at(248902, 302231454903657293676544int),
        in_tune_at(263702, 604462909807314587353088int),
        in_tune_at(279383, 1208925819614629174706176int),
        in_tune_at(295996, 2417851639229258349412352int),
        in_tune_at(313596, 4835703278458516698824704int),
        in_tune_at(332244, 9671406556917033397649408int),
        in_tune_at(352000, 19342813113834066795298816int),
        in_tune_at(372931, 38685626227668133590597632int),
        in_tune_at(395107, 77371252455336267181195264int),
{
    assert(in_tune_at(209300, 37778931862957161709568int)) by (nonlinear_arith);
    assert(in_tune_at(221746, 75557863725914323419136int)) by (nonlinear_arith);
    assert(in_tune_at(234932, 151115727451828646838272int)) by (nonlinear_arith);
    assert(in_tune_at(248902, 302231454903657293676544int)) by (nonlinear_arith);
    assert(in_tune_at(263702, 604462909807314587353088int)) by (nonlinear_arith);
    assert(in_tune_at(279383, 1208925819614629174706176int)) by (nonlinear_arith);
    assert(in_tune_at(295996, 2417851639229258349412352int)) by (nonlinear_arith);
    assert(in_tune_at(313596, 4835703278458516698824704int)) by (nonlinear_arith);
    assert(in_tune_at(332244, 9671406556917033397649408int)) by (nonlinear_arith);
    assert(in_tune_at(352000, 19342813113834066795298816int)) by (nonlinear_arith);
    assert(in_tune_at(372931, 38685626227668133590597632int)) by (nonlinear_arith);
    assert(in_tune_at(395107, 77371252455336267181195264int)) by (nonlinear_arith);
}

/// The keys of octave 8 are in tune.
proof fn lemma_octave_eight_in_tune()
    ensures
        in_tune_at(418601, 154742504910672534362390528int),
{
    assert(in_tune_at(418601, 154742504910672534362390528int)) by (nonlinear_arith);
}

/// The table is tuned in equal temperament: key 48, `A4`, sounds at 440 Hz,
/// each key sounds the twelfth root of two higher than the key below it,
/// and every frequency is rounded to the nearest hundredth of a hertz.
pub proof fn lemma_table_is_equal_tempered()
    ensures
        forall|key: int| 0 <= key < KEYS ==> in_tune_at(#[trigger] key_centihertz(key), two_to(key)),
{
    assert(two_to(0) == 1);
    assert(two_to(1) == 2);
    assert(two_to(2) == 4);
    assert(two_to(3) == 8);
    assert(two_to(4) == 16);
    assert(two_to(5) == 32);
    assert(two_to(6) == 64);
    assert(two_to(7) == 128);
    assert(two_to(8) == 256);
    assert(two_to(9) == 512);
    assert(two_to(10) == 1024);
    assert(two_to(11) == 2048);
    assert(two_to(12) == 4096);
    assert(two_to(13) == 8192);
    assert(two_to(14) == 16384);
    assert(two_to(15) == 32768);
    assert(two_to(16) == 65536);
    assert(two_to(17) == 131072);
    assert(two_to(18) == 262144);
    assert(two_to(19) == 524288);
    assert(two_to(20) == 1048576);
    assert(two_to(21) == 2097152);
    assert(two_to(22) == 4194304);
    assert(two_to(23) == 8388608);
    assert(two_to(24) == 16777216);
    assert(two_to(25) == 33554432);
    assert(two_to(26) == 67108864);
    assert(two_to(27) == 134217728);
    assert(two_to(28) == 268435456);
    assert(two_to(29) == 536870912);
    assert(two_to(30) == 1073741824);
    assert(two_to(31) == 2147483648);
    assert(two_to(32) == 4294967296);
    assert(two_to(33) == 8589934592);
    assert(two_to(34) == 17179869184);
    assert(two_to(35) == 34359738368);
    assert(two_to(36) == 68719476736);
    assert(two_to(37) == 137438953472);
    assert(two_to(38) == 274877906944);
    assert(two_to(39) == 549755813888);
    assert(two_to(40) == 1099511627776);
    assert(two_to(41) == 2199023255552);
    assert(two_to(42) == 4398046511104);
    assert(two_to(43) == 8796093022208);
    assert(two_to(44) == 17592186044416);
    assert(two_to(45) == 35184372088832);
    assert(two_to(46) == 70368744177664);
    assert(two_to(47) == 140737488355328);
    assert(two_to(48) == 281474976710656);
    assert(two_to(49) == 562949953421312);
    assert(two_to(50) == 1125899906842624);
    assert(two_to(51) == 2251799813685248);
    assert(two_to(52) == 4503599627370496);
    assert(two_to(53) == 9007199254740992);
    assert(two_to(54) == 18014398509481984);
    assert(two_to(55) == 36028797018963968);
    assert(two_to(56) == 72057594037927936);
    assert(two_to(57) == 144115188075855872);
    assert(two_to(58) == 288230376151711744);
    assert(two_to(59) == 576460752303423488);
    assert(two_to(60) == 1152921504606846976);
    assert(two_to(61) == 2305843009213693952);
    assert(two_to(62) == 4611686018427387904);
    assert(two_to(63) == 9223372036854775808int);
    assert(two_to(64) == 18446744073709551616int);
    assert(two_to(65) == 36893488147419103232int);
    assert(two_to(66) == 73786976294838206464int);
    assert(two_to(67) == 147573952589676412928int);
    assert(two_to(68) == 295147905179352825856int);
    assert(two_to(69) == 590295810358705651712int);
    assert(two_to(70) == 1180591620717411303424int);
    assert(two_to(71) == 2361183241434822606848int);
    assert(two_to(72) == 4722366482869645213696int);
    assert(two_to(73) == 9444732965739290427392int);
    assert(two_to(74) == 18889465931478580854784int);
    assert(two_to(75) == 37778931862957161709568int);
    assert(two_to(76) == 75557863725914323419136int);
    assert(two_to(77) == 151115727451828646838272int);
    assert(two_to(78) == 302231454903657293676544int);
    assert(two_to(79) == 604462909807314587353088int);
    assert(two_to(80) == 1208925819614629174706176int);
    assert(two_to(81) == 2417851639229258349412352int);
    assert(two_to(82) == 4835703278458516698824704int);
    assert(two_to(83) == 9671406556917033397649408int);
    assert(two_to(84) == 19342813113834066795298816int);
    assert(two_to(85) == 38685626227668133590597632int);
    assert(two_to(86) == 77371252455336267181195264int);
    assert(two_to(87) == 154742504910672534362390528int);
    lemma_octave_zero_in_tune();
    lemma_octave_one_in_tune();
    lemma_octave_two_in_tune();
    lemma_octave_three_in_tune();
    lemma_octave_four_in_tune();
    lemma_octave_five_in_tune();
    lemma_octave_six_in_tune();
    lemma_octave_seven_in_tune();
    lemma_octave_eight_in_tune();
}

/// The frequency that a note name stands for, in hundredths of a hertz: zero
/// for a rest, which is any text that names no key.
pub open spec fn note_centihertz(name: Seq<char>) -> int {
    match piano_key(name) {
        Some(key) => key_centihertz(key),
        None => 0,
    }
}

fn semitone_of(letter: char) -> (out: Option<u8>)
    ensures
        match out {
            Some(s) => letter_semitone(letter) == Some(s as int),
            None => letter_semitone(letter) is None,
        },
{
    if letter == 'C' {
        Some(0)
    } else if letter == 'D' {
        Some(2)
    } else if letter == 'E' {
        Some(4)
    } else if letter == 'F' {
        Some(5)
    } else if letter == 'G' {
        Some(7)
    } else if letter == 'A' {
        Some(9)
    } else if letter == 'B' {
        Some(11)
    } else {
        None
    }
}

fn octave_of(digit: char) -> (out: Option<u8>)
    ensures
        match out {
            Some(o) => octave_value(digit) == Some(o as int),
            None => octave_value(digit) is None,
        },
{
    if '0' <= digit && digit <= '8' {
        Some(((digit as u32) - ('0' as u32)) as u8)
    } else {
        None
    }
}

fn key_of(octave: u8, semitone: u8) -> (out: Option<u8>)
    requires
        octave <= 8,
        semitone <= 11,
    ensures
        match out {
            Some(k) => key_at(octave as int, semitone as int) == Some(k as int),
            None => key_at(octave as int, semitone as int) is None,
        },
{
    let raw: u8 = 12 * octave + semitone;
    if raw >= 9 && raw - 9 < KEYS {
        Some(raw - 9)
    } else {
        None
    }
}

/// The frequency of a key of the table.
pub fn key_freq(key: u8) -> (freq: u32)
    ensures
        freq == key_centihertz(key as int),
        key < KEYS ==> 2750 <= freq <= 418601,
{
    match key {
        0 => 2750, // A0
        1 => 2914, // A#0
        2 => 3087, // B0
        3 => 3270, // C1
        4 => 3465, // C#1
        5 => 3671, // D1
        6 => 3889, // D#1
        7 => 4120, // E1
        8 => 4365, // F1
        9 => 4625, // F#1
        10 => 4900, // G1
        11 => 5191, // G#1
        12 => 5500, // A1
        13 => 5827, // A#1
        14 => 6174, // B1
        15 => 6541, // C2
        16 => 6930, // C#2
        17 => 7342, // D2
        18 => 7778, // D#2
        19 => 8241, // E2
        20 => 8731, // F2
        21 => 9250, // F#2
        22 => 9800, // G2
        23 => 10383, // G#2
        24 => 11000, // A2
        25 => 11654, // A#2
        26 => 12347, // B2
        27 => 13081, // C3
        28 => 13859, // C#3
        29 => 14683, // D3
        30 => 15556, // D#3
        31 => 16481, // E3
        32 => 17461, // F3
        33 => 18500, // F#3
        34 => 19600, // G3
        35 => 20765, // G#3
        36 => 22000, // A3
        37 => 23308, // A#3
        38 => 24694, // B3
        39 => 26163, // C4
        40 => 27718, // C#4
        41 => 29366, // D4
        42 => 31113, // D#4
        43 => 32963, // E4
        44 => 34923, // F4
        45 => 36999, // F#4
        46 => 39200, // G4
        47 => 41530, // G#4
        48 => 44000, // A4
        49 => 46616, // A#4
        50 => 49388, // B4
        51 => 52325, // C5
        52 => 55437, // C#5
        53 => 58733, // D5
        54 => 62225, // D#5
        55 => 65926, // E5
        56 => 69846, // F5
        57 => 73999, // F#5
        58 => 78399, // G5
        59 => 83061, // G#5
        60 => 88000, // A5
        61 => 93233, // A#5
        62 => 98777, // B5
        63 => 104650, // C6
        64 => 110873, // C#6
        65 => 117466, // D6
        66 => 124451, // D#6
        67 => 131851, // E6
        68 => 139691, // F6
        69 => 147998, // F#6
        70 => 156798, // G6
        71 => 166122, // G#6
        72 => 176000, // A6
        73 => 186466, // A#6
        74 => 197553, // B6
        75 => 209300, // C7
        76 => 221746, // C#7
        77 => 234932, // D7
        78 => 248902, // D#7
        79 => 263702, // E7
        80 => 279383, // F7
        81 => 295996, // F#7
        82 => 313596, // G7
        83 => 332244, // G#7
        84 => 352000, // A7
        85 => 372931, // A#7
        86 => 395107, // B7
        87 => 418601, // C8
        _ => 0,
    }
}

/// Looks a note name up in the pitch table. The lookup is total: a rest, or
/// any other text that names no key, has frequency zero.
pub fn note_freq(note: &str) -> (freq: u32)
    ensures
        freq == note_centihertz(note@),
        freq == 0 <==> piano_key(note@) is None,
{
    let len: usize = note.unicode_len();
    if len == 2 {
        let letter: char = note.get_char(0);
        let digit: char = note.get_char(1);
        match (semitone_of(letter), octave_of(digit)) {
            (Some(semitone), Some(octave)) => match key_of(octave, semitone) {
                Some(key) => key_freq(key),
                None => 0,
            },
            _ => 0,
        }
    } else if len == 3 {
        let letter: char = note.get_char(0);
        let accidental: char = note.get_char(1);
        let digit: char = note.get_char(2);
        let sharp: bool = accidental == '#' && (letter == 'C' || letter == 'D' || letter == 'F'
            || letter == 'G' || letter == 'A');
        let flat: bool = accidental == FLAT && (letter == 'E' || letter == 'B');
        match (semitone_of(letter), octave_of(digit)) {
            (Some(semitone), Some(octave)) => {
                if sharp {
                    match key_of(octave, semitone + 1) {
                        Some(key) => key_freq(key),
                        None => 0,
                    }
                } else if flat {
                    match key_of(octave, semitone - 1) {
                        Some(key) => key_freq(key),
                        None => 0,
                    }
                } else {
                    0
                }
            },
            _ => 0,
        }
    } else {
        0
    }
}

} // verus!
