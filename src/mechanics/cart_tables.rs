//! Fixed lookup tables of the older cart algorithms.
use vstd::prelude::*;

verus! {

/// The item of each pre-hash cart roll: entry `k` is roll `k + 2`.
pub const CART_ROLL_TO_ID_PRE14: [i32; 788] = [
    16, 16, 16, 16, 16, 16, 16, 16, 16, 16, 16, 16, 16, 16, 18, 18, 20, 20, 22, 22, 24, 24,
    78, 78, 78, 78, 78, 78, 78, 78, 78, 78, 78, 78, 78, 78, 78, 78, 78, 78, 78, 78, 78, 78,
    78, 78, 78, 78, 78, 78, 78, 78, 78, 78, 78, 78, 78, 78, 78, 78, 78, 78, 78, 78, 78, 78,
    78, 78, 78, 78, 78, 78, 78, 78, 78, 78, 88, 88, 88, 88, 88, 88, 88, 88, 88, 88, 90, 90,
    92, 92, 128, 128, 128, 128, 128, 128, 128, 128, 128, 128, 128, 128, 128, 128, 128, 128, 128, 128, 128, 128,
    128, 128, 128, 128, 128, 128, 128, 128, 128, 128, 128, 128, 128, 128, 128, 128, 129, 130, 131, 132, 136, 136,
    136, 136, 137, 138, 139, 140, 141, 142, 143, 144, 145, 146, 147, 148, 149, 150, 151, 154, 154, 154, 155, 156,
    164, 164, 164, 164, 164, 164, 164, 164, 165, 167, 167, 174, 174, 174, 174, 174, 174, 174, 176, 176, 180, 180,
    180, 180, 182, 182, 184, 184, 186, 186, 188, 188, 190, 190, 192, 192, 194, 194, 195, 196, 197, 198, 199, 200,
    201, 202, 203, 204, 205, 206, 207, 208, 209, 210, 211, 212, 213, 214, 215, 216, 218, 218, 219, 220, 221, 222,
    223, 224, 225, 226, 227, 228, 229, 230, 231, 232, 233, 234, 235, 236, 237, 238, 239, 240, 241, 242, 243, 244,
    248, 248, 248, 248, 250, 250, 252, 252, 254, 254, 256, 256, 257, 258, 259, 260, 262, 262, 264, 264, 266, 266,
    268, 268, 270, 270, 272, 272, 274, 274, 276, 276, 278, 278, 280, 280, 281, 282, 283, 284, 286, 286, 287, 288,
    296, 296, 296, 296, 296, 296, 296, 296, 298, 298, 299, 300, 301, 302, 303, 304, 305, 306, 307, 308, 309, 310,
    311, 322, 322, 322, 322, 322, 322, 322, 322, 322, 322, 322, 323, 324, 325, 328, 328, 328, 329, 330, 331, 333,
    333, 334, 335, 336, 337, 338, 340, 340, 342, 342, 344, 344, 346, 346, 347, 348, 350, 350, 368, 368, 368, 368,
    368, 368, 368, 368, 368, 368, 368, 368, 368, 368, 368, 368, 368, 368, 369, 370, 371, 372, 376, 376, 376, 376,
    378, 378, 380, 380, 382, 382, 384, 384, 386, 386, 388, 388, 390, 390, 392, 392, 393, 394, 396, 396, 397, 398,
    399, 400, 401, 402, 404, 404, 405, 406, 407, 408, 409, 410, 411, 412, 414, 414, 415, 416, 417, 418, 420, 420,
    421, 422, 424, 424, 425, 426, 427, 428, 429, 430, 431, 432, 433, 436, 436, 436, 438, 438, 440, 440, 442, 442,
    444, 444, 446, 446, 453, 453, 453, 453, 453, 453, 453, 455, 455, 456, 457, 459, 459, 465, 465, 465, 465, 465,
    465, 466, 472, 472, 472, 472, 472, 472, 473, 474, 475, 476, 477, 478, 479, 480, 481, 482, 483, 484, 485, 486,
    487, 488, 489, 490, 491, 492, 493, 494, 495, 496, 497, 498, 499, 591, 591, 591, 591, 591, 591, 591, 591, 591,
    591, 591, 591, 591, 591, 591, 591, 591, 591, 591, 591, 591, 591, 591, 591, 591, 591, 591, 591, 591, 591, 591,
    591, 591, 591, 591, 591, 591, 591, 591, 591, 591, 591, 591, 591, 591, 591, 591, 591, 591, 591, 591, 591, 591,
    591, 591, 591, 591, 591, 591, 591, 591, 591, 591, 591, 591, 591, 591, 591, 591, 591, 591, 591, 591, 591, 591,
    591, 591, 591, 591, 591, 591, 591, 591, 591, 591, 591, 591, 591, 591, 591, 591, 591, 593, 593, 595, 595, 597,
    597, 599, 599, 604, 604, 604, 604, 604, 605, 606, 607, 608, 609, 610, 611, 612, 613, 618, 618, 618, 618, 618,
    621, 621, 621, 628, 628, 628, 628, 628, 628, 628, 629, 630, 631, 632, 633, 634, 635, 636, 637, 638, 648, 648,
    648, 648, 648, 648, 648, 648, 648, 648, 649, 651, 651, 684, 684, 684, 684, 684, 684, 684, 684, 684, 684, 684,
    684, 684, 684, 684, 684, 684, 684, 684, 684, 684, 684, 684, 684, 684, 684, 684, 684, 684, 684, 684, 684, 684,
    685, 686, 687, 691, 691, 691, 691, 692, 693, 694, 695, 698, 698, 698, 699, 700, 701, 702, 703, 704, 705, 706,
    707, 708, 709, 715, 715, 715, 715, 715, 715, 716, 717, 718, 719, 720, 721, 722, 723, 724, 725, 726, 727, 728,
    729, 730, 731, 732, 734, 734, 766, 766, 766, 766, 766, 766, 766, 766, 766, 766, 766, 766, 766, 766, 766, 766,
    766, 766, 766, 766, 766, 766, 766, 766, 766, 766, 766, 766, 766, 766, 766, 766, 767, 768, 769, 771, 771, 772,
    773, 787, 787, 787, 787, 787, 787, 787, 787, 787, 787, 787, 787, 787, 787, 16, 16, 16,
];

/// The items the mid-era cart may stock.
pub const CART_ITEMS_1_4: [i32; 335] = [
    16, 18, 20, 22, 24, 78, 88, 90, 92, 128, 129, 130, 131, 132, 136, 137, 138, 139, 140,
    141, 142, 143, 144, 145, 146, 147, 148, 149, 150, 151, 154, 155, 156, 164, 165, 167,
    174, 176, 180, 182, 184, 186, 188, 190, 192, 194, 195, 196, 197, 198, 199, 200, 201,
    202, 203, 204, 205, 206, 207, 208, 209, 210, 211, 212, 213, 214, 215, 216, 218, 219,
    220, 221, 222, 223, 224, 225, 226, 227, 228, 229, 230, 231, 232, 233, 234, 235, 236,
    237, 238, 239, 240, 241, 242, 243, 244, 248, 250, 251, 252, 253, 254, 256, 257, 258,
    259, 260, 262, 264, 266, 268, 270, 271, 272, 273, 274, 276, 278, 280, 281, 282, 283,
    284, 286, 287, 288, 293, 296, 298, 299, 300, 301, 302, 303, 304, 306, 307, 309, 310,
    311, 322, 323, 324, 325, 328, 329, 330, 331, 333, 334, 335, 336, 337, 338, 340, 342,
    344, 346, 347, 348, 350, 368, 369, 370, 371, 372, 376, 378, 380, 382, 384, 386, 388,
    390, 392, 393, 394, 396, 397, 398, 399, 400, 401, 402, 404, 405, 406, 407, 408, 409,
    410, 411, 412, 414, 415, 416, 418, 420, 421, 422, 424, 425, 426, 427, 428, 429, 430,
    431, 432, 433, 436, 438, 440, 442, 444, 446, 453, 455, 456, 457, 459, 465, 466, 472,
    473, 474, 475, 476, 477, 478, 479, 480, 481, 482, 483, 484, 485, 486, 487, 488, 489,
    490, 491, 492, 493, 494, 495, 496, 497, 498, 499, 591, 593, 595, 597, 599, 604, 605,
    606, 607, 608, 609, 610, 611, 612, 613, 614, 618, 621, 628, 629, 630, 631, 632, 633,
    634, 635, 636, 637, 638, 648, 649, 651, 684, 685, 686, 687, 691, 692, 693, 694, 695,
    698, 699, 700, 701, 702, 703, 704, 705, 706, 707, 708, 709, 715, 716, 717, 718, 719,
    720, 721, 722, 723, 724, 725, 726, 727, 728, 729, 730, 731, 732, 733, 734, 766, 767,
    768, 769, 771, 772, 773, 787, 445, 267, 265, 269,
];

} // verus!
