use vstd::prelude::*;

verus! {

/// Number of entries in each table.
pub const LUT_LEN: usize = 256;

/// One period of a sine wave, full scale.
pub const SINE_I16: [i16; 256] = [
    0, 804, 1608, 2410, 3212, 4011, 4808, 5602,
    6393, 7179, 7962, 8739, 9512, 10278, 11039, 11793,
    12539, 13279, 14010, 14732, 15446, 16151, 16846, 17530,
    18204, 18868, 19519, 20159, 20787, 21403, 22005, 22594,
    23170, 23731, 24279, 24811, 25329, 25832, 26319, 26790,
    27245, 27683, 28105, 28510, 28898, 29268, 29621, 29956,
    30273, 30571, 30852, 31113, 31356, 31580, 31785, 31971,
    32137, 32285, 32412, 32521, 32609, 32678, 32728, 32757,
    32767, 32757, 32728, 32678, 32609, 32521, 32412, 32285,
    32137, 31971, 31785, 31580, 31356, 31113, 30852, 30571,
    30273, 29956, 29621, 29268, 28898, 28510, 28105, 27683,
    27245, 26790, 26319, 25832, 25329, 24811, 24279, 23731,
    23170, 22594, 22005, 21403, 20787, 20159, 19519, 18868,
    18204, 17530, 16846, 16151, 15446, 14732, 14010, 13279,
    12539, 11793, 11039, 10278, 9512, 8739, 7962, 7179,
    6393, 5602, 4808, 4011, 3212, 2410, 1608, 804,
    0, -804, -1608, -2410, -3212, -4011, -4808, -5602,
    -6393, -7179, -7962, -8739, -9512, -10278, -11039, -11793,
    -12539, -13279, -14010, -14732, -15446, -16151, -16846, -17530,
    -18204, -18868, -19519, -20159, -20787, -21403, -22005, -22594,
    -23170, -23731, -24279, -24811, -25329, -25832, -26319, -26790,
    -27245, -27683, -28105, -28510, -28898, -29268, -29621, -29956,
    -30273, -30571, -30852, -31113, -31356, -31580, -31785, -31971,
    -32137, -32285, -32412, -32521, -32609, -32678, -32728, -32757,
    -32767, -32757, -32728, -32678, -32609, -32521, -32412, -32285,
    -32137, -31971, -31785, -31580, -31356, -31113, -30852, -30571,
    -30273, -29956, -29621, -29268, -28898, -28510, -28105, -27683,
    -27245, -26790, -26319, -25832, -25329, -24811, -24279, -23731,
    -23170, -22594, -22005, -21403, -20787, -20159, -19519, -18868,
    -18204, -17530, -16846, -16151, -15446, -14732, -14010, -13279,
    -12539, -11793, -11039, -10278, -9512, -8739, -7962, -7179,
    -6393, -5602, -4808, -4011, -3212, -2410, -1608, -804,
];

/// Exponential decay from full scale, `32767 * exp(-i / EXP_I16_TAU)`.
pub const EXP_I16: [i16; 256] = [
    32767, 31759, 30782, 29835, 28917, 28027, 27165, 26329,
    25519, 24734, 23973, 23235, 22520, 21828, 21156, 20505,
    19874, 19263, 18670, 18096, 17539, 16999, 16476, 15969,
    15478, 15002, 14540, 14093, 13659, 13239, 12832, 12437,
    12054, 11683, 11324, 10976, 10638, 10311, 9993, 9686,
    9388, 9099, 8819, 8548, 8285, 8030, 7783, 7543,
    7311, 7086, 6868, 6657, 6452, 6254, 6061, 5875,
    5694, 5519, 5349, 5184, 5025, 4870, 4721, 4575,
    4435, 4298, 4166, 4038, 3913, 3793, 3676, 3563,
    3454, 3347, 3244, 3145, 3048, 2954, 2863, 2775,
    2690, 2607, 2527, 2449, 2374, 2301, 2230, 2161,
    2095, 2030, 1968, 1907, 1849, 1792, 1737, 1683,
    1631, 1581, 1533, 1485, 1440, 1395, 1352, 1311,
    1271, 1231, 1194, 1157, 1121, 1087, 1053, 1021,
    989, 959, 930, 901, 873, 846, 820, 795,
    771, 747, 724, 702, 680, 659, 639, 619,
    600, 582, 564, 546, 530, 513, 498, 482,
    467, 453, 439, 426, 412, 400, 387, 376,
    364, 353, 342, 331, 321, 311, 302, 292,
    283, 275, 266, 258, 250, 242, 235, 228,
    221, 214, 207, 201, 195, 189, 183, 177,
    172, 167, 162, 157, 152, 147, 143, 138,
    134, 130, 126, 122, 118, 115, 111, 108,
    104, 101, 98, 95, 92, 89, 86, 84,
    81, 79, 76, 74, 72, 69, 67, 65,
    63, 61, 59, 58, 56, 54, 52, 51,
    49, 48, 46, 45, 43, 42, 41, 40,
    38, 37, 36, 35, 34, 33, 32, 31,
    30, 29, 28, 27, 26, 26, 25, 24,
    23, 23, 22, 21, 21, 20, 19, 19,
    18, 18, 17, 17, 16, 16, 15, 15,
    14, 14, 13, 13, 12, 12, 12, 11,
];

/// Entries of [EXP_I16] per time constant of the decay.
pub const EXP_I16_TAU: usize = 32;

} // verus!
