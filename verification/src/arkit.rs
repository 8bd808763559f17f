//! Canonical ARKit-52 blend shape channel indices, in Apple's canonical
//! serialization order: the single source of truth for which index drives
//! which facial muscle. Every table refers to channels through these names.
use vstd::prelude::*;
use crate::core_types::BLENDSHAPE_COUNT;
use vstd::string::StringSliceAdditionalSpecFns;
use vstd::string::is_ascii;

verus! {

// Left eye (0-6)
pub const EYE_BLINK_LEFT: usize = 0;
pub const EYE_LOOK_DOWN_LEFT: usize = 1;
pub const EYE_LOOK_IN_LEFT: usize = 2;
pub const EYE_LOOK_OUT_LEFT: usize = 3;
pub const EYE_LOOK_UP_LEFT: usize = 4;
pub const EYE_SQUINT_LEFT: usize = 5;
pub const EYE_WIDE_LEFT: usize = 6;

// Right eye (7-13)
pub const EYE_BLINK_RIGHT: usize = 7;
pub const EYE_LOOK_DOWN_RIGHT: usize = 8;
pub const EYE_LOOK_IN_RIGHT: usize = 9;
pub const EYE_LOOK_OUT_RIGHT: usize = 10;
pub const EYE_LOOK_UP_RIGHT: usize = 11;
pub const EYE_SQUINT_RIGHT: usize = 12;
pub const EYE_WIDE_RIGHT: usize = 13;

// Jaw (14-17)
pub const JAW_FORWARD: usize = 14;
pub const JAW_LEFT: usize = 15;
pub const JAW_RIGHT: usize = 16;
pub const JAW_OPEN: usize = 17;

// Mouth (18-40)
pub const MOUTH_CLOSE: usize = 18;
pub const MOUTH_FUNNEL: usize = 19;
pub const MOUTH_PUCKER: usize = 20;
pub const MOUTH_LEFT: usize = 21;
pub const MOUTH_RIGHT: usize = 22;
pub const MOUTH_SMILE_LEFT: usize = 23;
pub const MOUTH_SMILE_RIGHT: usize = 24;
pub const MOUTH_FROWN_LEFT: usize = 25;
pub const MOUTH_FROWN_RIGHT: usize = 26;
pub const MOUTH_DIMPLE_LEFT: usize = 27;
pub const MOUTH_DIMPLE_RIGHT: usize = 28;
pub const MOUTH_STRETCH_LEFT: usize = 29;
pub const MOUTH_STRETCH_RIGHT: usize = 30;
pub const MOUTH_ROLL_LOWER: usize = 31;
pub const MOUTH_ROLL_UPPER: usize = 32;
pub const MOUTH_SHRUG_LOWER: usize = 33;
pub const MOUTH_SHRUG_UPPER: usize = 34;
pub const MOUTH_PRESS_LEFT: usize = 35;
pub const MOUTH_PRESS_RIGHT: usize = 36;
pub const MOUTH_LOWER_DOWN_LEFT: usize = 37;
pub const MOUTH_LOWER_DOWN_RIGHT: usize = 38;
pub const MOUTH_UPPER_UP_LEFT: usize = 39;
pub const MOUTH_UPPER_UP_RIGHT: usize = 40;

// Brows (41-45)
pub const BROW_DOWN_LEFT: usize = 41;
pub const BROW_DOWN_RIGHT: usize = 42;
pub const BROW_INNER_UP: usize = 43;
pub const BROW_OUTER_UP_LEFT: usize = 44;
pub const BROW_OUTER_UP_RIGHT: usize = 45;

// Cheeks (46-48)
pub const CHEEK_PUFF: usize = 46;
pub const CHEEK_SQUINT_LEFT: usize = 47;
pub const CHEEK_SQUINT_RIGHT: usize = 48;

// Nose (49-50)
pub const NOSE_SNEER_LEFT: usize = 49;
pub const NOSE_SNEER_RIGHT: usize = 50;

// Tongue (51-51)
pub const TONGUE_OUT: usize = 51;

/// All channel names in canonical index order: entry `i` names channel `i`.
pub const CHANNEL_NAMES: [&'static str; BLENDSHAPE_COUNT] = [
    "eyeBlinkLeft",
    "eyeLookDownLeft",
    "eyeLookInLeft",
    "eyeLookOutLeft",
    "eyeLookUpLeft",
    "eyeSquintLeft",
    "eyeWideLeft",
    "eyeBlinkRight",
    "eyeLookDownRight",
    "eyeLookInRight",
    "eyeLookOutRight",
    "eyeLookUpRight",
    "eyeSquintRight",
    "eyeWideRight",
    "jawForward",
    "jawLeft",
    "jawRight",
    "jawOpen",
    "mouthClose",
    "mouthFunnel",
    "mouthPucker",
    "mouthLeft",
    "mouthRight",
    "mouthSmileLeft",
    "mouthSmileRight",
    "mouthFrownLeft",
    "mouthFrownRight",
    "mouthDimpleLeft",
    "mouthDimpleRight",
    "mouthStretchLeft",
    "mouthStretchRight",
    "mouthRollLower",
    "mouthRollUpper",
    "mouthShrugLower",
    "mouthShrugUpper",
    "mouthPressLeft",
    "mouthPressRight",
    "mouthLowerDownLeft",
    "mouthLowerDownRight",
    "mouthUpperUpLeft",
    "mouthUpperUpRight",
    "browDownLeft",
    "browDownRight",
    "browInnerUp",
    "browOuterUpLeft",
    "browOuterUpRight",
    "cheekPuff",
    "cheekSquintLeft",
    "cheekSquintRight",
    "noseSneerLeft",
    "noseSneerRight",
    "tongueOut",
];
/// True when the two byte sequences are equal, compared element by element.
pub fn bytes_equal(a: &[u8], b: &[u8]) -> (r: bool)
    ensures
        r == (a@ == b@),
{
    if a.len() != b.len() {
        return false;
    }
    let mut i: usize = 0;
    while i < a.len()
        invariant
            a@.len() == b@.len(),
            i <= a@.len(),
            forall|k: int| 0 <= k < i ==> a@[k] == b@[k],
        decreases a@.len() - i,
    {
        if a[i] != b[i] {
            return false;
        }
        i = i + 1;
    }
    assert(a@ =~= b@);
    true
}

/// The byte content of channel `i`'s name.
pub open spec fn channel_name_bytes(i: int) -> Seq<u8> {
    CHANNEL_NAMES@[i].spec_bytes()
}

/// Looks up a channel index by its ARKit name (exact, case-sensitive
/// match). Returns `None` for an unknown name rather than panicking.
pub fn index_of(name: &str) -> (r: Option<usize>)
    ensures
        match r {
            Some(i) => {
                &&& i < BLENDSHAPE_COUNT
                &&& channel_name_bytes(i as int) == name.spec_bytes()
                &&& forall|j: int| 0 <= j < i ==> channel_name_bytes(j) != name.spec_bytes()
            },
            None => forall|j: int| 0 <= j < BLENDSHAPE_COUNT ==> channel_name_bytes(j) != name.spec_bytes(),
        },
{
    let target = name.as_bytes();
    let mut i: usize = 0;
    while i < BLENDSHAPE_COUNT
        invariant
            i <= BLENDSHAPE_COUNT,
            target@ == name.spec_bytes(),
            forall|j: int| 0 <= j < i ==> channel_name_bytes(j) != name.spec_bytes(),
        decreases BLENDSHAPE_COUNT - i,
    {
        let candidate: &str = CHANNEL_NAMES[i];
        if bytes_equal(candidate.as_bytes(), target) {
            return Some(i);
        }
        i = i + 1;
    }
    None
}

/// The channel whose ARKit name has byte content `b`, or -1 when no
/// channel has that name. Decided by the name's length and a few
/// distinguishing letters; agrees with `CHANNEL_NAMES` (see
/// `lemma_channel_named`).
pub open spec fn channel_named(b: Seq<u8>) -> int {
    if b.len() == 7 {
        if b[3] == 76 {  // 'L'
            15
        } else {
            17
        }
    } else if b.len() == 8 {
        16
    } else if b.len() == 9 {
        if b[0] == 109 {  // 'm'
            21
        } else if b[0] == 99 {  // 'c'
            46
        } else {
            51
        }
    } else if b.len() == 10 {
        if b[5] == 114 {  // 'r'
            14
        } else if b[5] == 67 {  // 'C'
            18
        } else {
            22
        }
    } else if b.len() == 11 {
        if b[5] == 100 {  // 'd'
            6
        } else if b[5] == 70 {  // 'F'
            19
        } else if b[5] == 80 {  // 'P'
            20
        } else {
            43
        }
    } else if b.len() == 12 {
        if b[3] == 66 {  // 'B'
            0
        } else if b[3] == 87 {  // 'W'
            13
        } else {
            41
        }
    } else if b.len() == 13 {
        if b[3] == 76 {  // 'L'
            if b[7] == 73 {  // 'I'
                2
            } else {
                4
            }
        } else if b[3] == 83 {  // 'S'
            5
        } else if b[3] == 66 {  // 'B'
            7
        } else if b[3] == 119 {  // 'w'
            42
        } else {
            49
        }
    } else if b.len() == 14 {
        if b[7] == 79 {  // 'O'
            3
        } else if b[7] == 73 {  // 'I'
            9
        } else if b[7] == 85 {  // 'U'
            11
        } else if b[7] == 110 {  // 'n'
            12
        } else if b[7] == 105 {  // 'i'
            23
        } else if b[7] == 111 {  // 'o'
            25
        } else if b[7] == 108 {  // 'l'
            if b[9] == 76 {  // 'L'
                31
            } else {
                32
            }
        } else {
            if b[0] == 109 {  // 'm'
                35
            } else {
                50
            }
        }
    } else if b.len() == 15 {
        if b[7] == 68 {  // 'D'
            1
        } else if b[7] == 79 {  // 'O'
            10
        } else if b[7] == 105 {  // 'i'
            24
        } else if b[7] == 111 {  // 'o'
            26
        } else if b[7] == 109 {  // 'm'
            27
        } else if b[7] == 114 {  // 'r'
            if b[10] == 76 {  // 'L'
                33
            } else {
                34
            }
        } else if b[7] == 101 {  // 'e'
            if b[0] == 109 {  // 'm'
                36
            } else {
                44
            }
        } else {
            47
        }
    } else if b.len() == 16 {
        if b[7] == 68 {  // 'D'
            8
        } else if b[7] == 109 {  // 'm'
            28
        } else if b[7] == 114 {  // 'r'
            29
        } else if b[7] == 112 {  // 'p'
            39
        } else if b[7] == 101 {  // 'e'
            45
        } else {
            48
        }
    } else if b.len() == 17 {
        if b[5] == 83 {  // 'S'
            30
        } else {
            40
        }
    } else if b.len() == 18 {
        37
    } else if b.len() == 19 {
        38
    } else {
        -1
    }
}

/// Every channel's name decodes back to that channel.
proof fn lemma_channel_named(i: int)
    requires
        0 <= i < BLENDSHAPE_COUNT,
    ensures
        channel_named(channel_name_bytes(i)) == i,
{
    if i == 0 {
        reveal_strlit("eyeBlinkLeft");
        assert(is_ascii(CHANNEL_NAMES@[0]));
    } else if i == 1 {
        reveal_strlit("eyeLookDownLeft");
        assert(is_ascii(CHANNEL_NAMES@[1]));
    } else if i == 2 {
        reveal_strlit("eyeLookInLeft");
        assert(is_ascii(CHANNEL_NAMES@[2]));
    } else if i == 3 {
        reveal_strlit("eyeLookOutLeft");
        assert(is_ascii(CHANNEL_NAMES@[3]));
    } else if i == 4 {
        reveal_strlit("eyeLookUpLeft");
        assert(is_ascii(CHANNEL_NAMES@[4]));
    } else if i == 5 {
        reveal_strlit("eyeSquintLeft");
        assert(is_ascii(CHANNEL_NAMES@[5]));
    } else if i == 6 {
        reveal_strlit("eyeWideLeft");
        assert(is_ascii(CHANNEL_NAMES@[6]));
    } else if i == 7 {
        reveal_strlit("eyeBlinkRight");
        assert(is_ascii(CHANNEL_NAMES@[7]));
    } else if i == 8 {
        reveal_strlit("eyeLookDownRight");
        assert(is_ascii(CHANNEL_NAMES@[8]));
    } else if i == 9 {
        reveal_strlit("eyeLookInRight");
        assert(is_ascii(CHANNEL_NAMES@[9]));
    } else if i == 10 {
        reveal_strlit("eyeLookOutRight");
        assert(is_ascii(CHANNEL_NAMES@[10]));
    } else if i == 11 {
        reveal_strlit("eyeLookUpRight");
        assert(is_ascii(CHANNEL_NAMES@[11]));
    } else if i == 12 {
        reveal_strlit("eyeSquintRight");
        assert(is_ascii(CHANNEL_NAMES@[12]));
    } else if i == 13 {
        reveal_strlit("eyeWideRight");
        assert(is_ascii(CHANNEL_NAMES@[13]));
    } else if i == 14 {
        reveal_strlit("jawForward");
        assert(is_ascii(CHANNEL_NAMES@[14]));
    } else if i == 15 {
        reveal_strlit("jawLeft");
        assert(is_ascii(CHANNEL_NAMES@[15]));
    } else if i == 16 {
        reveal_strlit("jawRight");
        assert(is_ascii(CHANNEL_NAMES@[16]));
    } else if i == 17 {
        reveal_strlit("jawOpen");
        assert(is_ascii(CHANNEL_NAMES@[17]));
    } else if i == 18 {
        reveal_strlit("mouthClose");
        assert(is_ascii(CHANNEL_NAMES@[18]));
    } else if i == 19 {
        reveal_strlit("mouthFunnel");
        assert(is_ascii(CHANNEL_NAMES@[19]));
    } else if i == 20 {
        reveal_strlit("mouthPucker");
        assert(is_ascii(CHANNEL_NAMES@[20]));
    } else if i == 21 {
        reveal_strlit("mouthLeft");
        assert(is_ascii(CHANNEL_NAMES@[21]));
    } else if i == 22 {
        reveal_strlit("mouthRight");
        assert(is_ascii(CHANNEL_NAMES@[22]));
    } else if i == 23 {
        reveal_strlit("mouthSmileLeft");
        assert(is_ascii(CHANNEL_NAMES@[23]));
    } else if i == 24 {
        reveal_strlit("mouthSmileRight");
        assert(is_ascii(CHANNEL_NAMES@[24]));
    } else if i == 25 {
        reveal_strlit("mouthFrownLeft");
        assert(is_ascii(CHANNEL_NAMES@[25]));
    } else if i == 26 {
        reveal_strlit("mouthFrownRight");
        assert(is_ascii(CHANNEL_NAMES@[26]));
    } else if i == 27 {
        reveal_strlit("mouthDimpleLeft");
        assert(is_ascii(CHANNEL_NAMES@[27]));
    } else if i == 28 {
        reveal_strlit("mouthDimpleRight");
        assert(is_ascii(CHANNEL_NAMES@[28]));
    } else if i == 29 {
        reveal_strlit("mouthStretchLeft");
        assert(is_ascii(CHANNEL_NAMES@[29]));
    } else if i == 30 {
        reveal_strlit("mouthStretchRight");
        assert(is_ascii(CHANNEL_NAMES@[30]));
    } else if i == 31 {
        reveal_strlit("mouthRollLower");
        assert(is_ascii(CHANNEL_NAMES@[31]));
    } else if i == 32 {
        reveal_strlit("mouthRollUpper");
        assert(is_ascii(CHANNEL_NAMES@[32]));
    } else if i == 33 {
        reveal_strlit("mouthShrugLower");
        assert(is_ascii(CHANNEL_NAMES@[33]));
    } else if i == 34 {
        reveal_strlit("mouthShrugUpper");
        assert(is_ascii(CHANNEL_NAMES@[34]));
    } else if i == 35 {
        reveal_strlit("mouthPressLeft");
        assert(is_ascii(CHANNEL_NAMES@[35]));
    } else if i == 36 {
        reveal_strlit("mouthPressRight");
        assert(is_ascii(CHANNEL_NAMES@[36]));
    } else if i == 37 {
        reveal_strlit("mouthLowerDownLeft");
        assert(is_ascii(CHANNEL_NAMES@[37]));
    } else if i == 38 {
        reveal_strlit("mouthLowerDownRight");
        assert(is_ascii(CHANNEL_NAMES@[38]));
    } else if i == 39 {
        reveal_strlit("mouthUpperUpLeft");
        assert(is_ascii(CHANNEL_NAMES@[39]));
    } else if i == 40 {
        reveal_strlit("mouthUpperUpRight");
        assert(is_ascii(CHANNEL_NAMES@[40]));
    } else if i == 41 {
        reveal_strlit("browDownLeft");
        assert(is_ascii(CHANNEL_NAMES@[41]));
    } else if i == 42 {
        reveal_strlit("browDownRight");
        assert(is_ascii(CHANNEL_NAMES@[42]));
    } else if i == 43 {
        reveal_strlit("browInnerUp");
        assert(is_ascii(CHANNEL_NAMES@[43]));
    } else if i == 44 {
        reveal_strlit("browOuterUpLeft");
        assert(is_ascii(CHANNEL_NAMES@[44]));
    } else if i == 45 {
        reveal_strlit("browOuterUpRight");
        assert(is_ascii(CHANNEL_NAMES@[45]));
    } else if i == 46 {
        reveal_strlit("cheekPuff");
        assert(is_ascii(CHANNEL_NAMES@[46]));
    } else if i == 47 {
        reveal_strlit("cheekSquintLeft");
        assert(is_ascii(CHANNEL_NAMES@[47]));
    } else if i == 48 {
        reveal_strlit("cheekSquintRight");
        assert(is_ascii(CHANNEL_NAMES@[48]));
    } else if i == 49 {
        reveal_strlit("noseSneerLeft");
        assert(is_ascii(CHANNEL_NAMES@[49]));
    } else if i == 50 {
        reveal_strlit("noseSneerRight");
        assert(is_ascii(CHANNEL_NAMES@[50]));
    } else {
        reveal_strlit("tongueOut");
        assert(is_ascii(CHANNEL_NAMES@[51]));
    }
}

/// No two channels share a name, so the table is a bijection between
/// the indices `0..BLENDSHAPE_COUNT` and the channel names.
pub proof fn law_channel_names_are_distinct(i: int, j: int)
    requires
        0 <= i < BLENDSHAPE_COUNT,
        0 <= j < BLENDSHAPE_COUNT,
        channel_name_bytes(i) == channel_name_bytes(j),
    ensures
        i == j,
{
    lemma_channel_named(i);
    lemma_channel_named(j);
}

/// Looking up the name of channel `i` with `index_of` finds exactly `i`:
/// no earlier channel carries the same name.
pub proof fn law_index_of_finds_each_channel(i: int)
    requires
        0 <= i < BLENDSHAPE_COUNT,
    ensures
        forall|j: int| 0 <= j < i ==> channel_name_bytes(j) != channel_name_bytes(i),
{
    assert forall|j: int| 0 <= j < i implies channel_name_bytes(j) != channel_name_bytes(i) by {
        if channel_name_bytes(j) == channel_name_bytes(i) {
            law_channel_names_are_distinct(i, j);
        }
    }
}

} // verus!
