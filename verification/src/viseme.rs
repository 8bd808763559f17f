//! Amazon Polly's viseme alphabet and its wire tokens.
use vstd::prelude::*;
use vstd::string::StringSliceAdditionalSpecFns;
use crate::arkit::{JAW_OPEN, MOUTH_CLOSE, MOUTH_FUNNEL, MOUTH_PUCKER, MOUTH_SHRUG_LOWER, MOUTH_SHRUG_UPPER, MOUTH_SMILE_LEFT, MOUTH_SMILE_RIGHT, MOUTH_STRETCH_LEFT, MOUTH_STRETCH_RIGHT, TONGUE_OUT};
use crate::core_types::BLENDSHAPE_COUNT;

verus! {

/// Polly's viseme inventory: phoneme classes that look alike on the lips.
#[derive(Debug, Clone, Copy, PartialEq, Eq, Hash, Structural)]
pub enum Viseme {
    /// Silence / rest.
    Sil,
    /// Bilabial plosive: p, b, m.
    P,
    /// Labiodental fricative: f, v.
    F,
    /// Dental fricative: th.
    T,
    /// Alveolar: t, d, n, l.
    TT,
    /// Sibilant: s, z.
    S,
    /// Postalveolar: sh, zh, ch, j.
    SS,
    /// Velar plosive: k, g, ng.
    K,
    /// Rhotic: r.
    R,
    /// Open front vowel: a.
    A,
    /// Mid front vowel: e.
    E,
    /// Close front vowel: i.
    I,
    /// Mid back rounded vowel: o.
    O,
    /// Close back rounded vowel: u.
    U,
    /// Schwa: @.
    At,
}

/// The bytes of each viseme's token in Polly's speech marks: `sil`, `p`,
/// `f`, `T`, `t`, `s`, `S`, `k`, `r`, `a`, `e`, `i`, `o`, `u`, `@`.
pub open spec fn polly_token(v: Viseme) -> Seq<u8> {
    match v {
        Viseme::Sil => seq![115u8, 105u8, 108u8],
        Viseme::P => seq![112u8],
        Viseme::F => seq![102u8],
        Viseme::T => seq![84u8],
        Viseme::TT => seq![116u8],
        Viseme::S => seq![115u8],
        Viseme::SS => seq![83u8],
        Viseme::K => seq![107u8],
        Viseme::R => seq![114u8],
        Viseme::A => seq![97u8],
        Viseme::E => seq![101u8],
        Viseme::I => seq![105u8],
        Viseme::O => seq![111u8],
        Viseme::U => seq![117u8],
        Viseme::At => seq![64u8],
    }
}

/// The blend shape channels each viseme drives, in the order its target
/// weights are listed: lips closed for `P`, teeth on lip for `F`, tongue
/// for `T`, and so on. Silence drives none.
pub open spec fn spec_target_channels(v: Viseme) -> Seq<usize> {
    match v {
        Viseme::Sil => Seq::empty(),
        Viseme::P => seq![MOUTH_CLOSE, JAW_OPEN, MOUTH_PUCKER],
        Viseme::F => seq![MOUTH_SHRUG_LOWER, JAW_OPEN],
        Viseme::T => seq![JAW_OPEN, TONGUE_OUT],
        Viseme::TT => seq![JAW_OPEN, MOUTH_STRETCH_LEFT, MOUTH_STRETCH_RIGHT],
        Viseme::S => seq![JAW_OPEN, MOUTH_SMILE_LEFT, MOUTH_SMILE_RIGHT],
        Viseme::SS => seq![MOUTH_FUNNEL, JAW_OPEN, MOUTH_PUCKER],
        Viseme::K => seq![JAW_OPEN, MOUTH_STRETCH_LEFT, MOUTH_STRETCH_RIGHT],
        Viseme::R => seq![MOUTH_SHRUG_UPPER, MOUTH_PUCKER, JAW_OPEN],
        Viseme::A => seq![JAW_OPEN, MOUTH_CLOSE],
        Viseme::E => seq![JAW_OPEN, MOUTH_SMILE_LEFT, MOUTH_SMILE_RIGHT],
        Viseme::I => seq![JAW_OPEN, MOUTH_SMILE_LEFT, MOUTH_SMILE_RIGHT],
        Viseme::O => seq![MOUTH_FUNNEL, JAW_OPEN, MOUTH_PUCKER],
        Viseme::U => seq![MOUTH_PUCKER, MOUTH_FUNNEL, JAW_OPEN],
        Viseme::At => seq![JAW_OPEN],
    }
}

/// Every channel a viseme drives is a real channel of the rig.
pub proof fn law_viseme_channels_in_range(v: Viseme)
    ensures
        forall|i: int| 0 <= i < spec_target_channels(v).len() ==> #[trigger] spec_target_channels(v)[i] < BLENDSHAPE_COUNT,
{
}

/// Speech never drives a channel the autonomic layers own: no eye channel
/// (blink, gaze, squint, wide), no brow channel, no cheek squint.
pub proof fn law_visemes_never_touch_autonomic_channels(v: Viseme)
    ensures
        forall|i: int| 0 <= i < spec_target_channels(v).len() ==> {
            let c = #[trigger] spec_target_channels(v)[i];
            &&& !(crate::arkit::EYE_BLINK_LEFT <= c <= crate::arkit::EYE_WIDE_RIGHT)
            &&& !(crate::arkit::BROW_DOWN_LEFT <= c <= crate::arkit::BROW_OUTER_UP_RIGHT)
            &&& !(crate::arkit::CHEEK_SQUINT_LEFT <= c <= crate::arkit::CHEEK_SQUINT_RIGHT)
        },
{
}

/// Whether viseme `v` drives channel `c`.
pub open spec fn drives(v: Viseme, c: usize) -> bool {
    exists|i: int| 0 <= i < spec_target_channels(v).len() && spec_target_channels(v)[i] == c
}

/// The lip shapes each viseme class makes, over every viseme:
/// - only silence is still, and every other viseme opens the jaw;
/// - the rounded vowels `o` and `u` funnel and pucker the lips and never
///   smile;
/// - the spread sounds `s`, `e` and `i` smile on both sides and never
///   funnel or pucker;
/// - the alveolar and velar stops `t` and `k` stretch both corners;
/// - the bilabial `p` closes the lips, the labiodental `f` raises the lower
///   lip, the rhotic `r` raises the upper lip, and only the dental `T`
///   puts the tongue out;
/// - smiles and stretches are always symmetric.
pub proof fn law_viseme_lip_shapes(v: Viseme)
    ensures
        (spec_target_channels(v).len() == 0) <==> v == Viseme::Sil,
        v != Viseme::Sil ==> drives(v, JAW_OPEN),
        (v == Viseme::O || v == Viseme::U) ==> {
            &&& drives(v, MOUTH_FUNNEL) && drives(v, MOUTH_PUCKER)
            &&& !drives(v, MOUTH_SMILE_LEFT) && !drives(v, MOUTH_SMILE_RIGHT)
        },
        (v == Viseme::S || v == Viseme::E || v == Viseme::I) ==> {
            &&& drives(v, MOUTH_SMILE_LEFT) && drives(v, MOUTH_SMILE_RIGHT)
            &&& !drives(v, MOUTH_FUNNEL) && !drives(v, MOUTH_PUCKER)
        },
        (v == Viseme::TT || v == Viseme::K) ==> drives(v, MOUTH_STRETCH_LEFT) && drives(v, MOUTH_STRETCH_RIGHT),
        v == Viseme::P ==> drives(v, MOUTH_CLOSE),
        v == Viseme::F ==> drives(v, MOUTH_SHRUG_LOWER),
        v == Viseme::R ==> drives(v, MOUTH_SHRUG_UPPER),
        drives(v, TONGUE_OUT) <==> v == Viseme::T,
        drives(v, MOUTH_SMILE_LEFT) <==> drives(v, MOUTH_SMILE_RIGHT),
        drives(v, MOUTH_STRETCH_LEFT) <==> drives(v, MOUTH_STRETCH_RIGHT),
{
    let t = spec_target_channels(v);
    if t.len() > 0 {
        assert(drives(v, t[0]));
    }
    if t.len() > 1 {
        assert(drives(v, t[1]));
    }
    if t.len() > 2 {
        assert(drives(v, t[2]));
    }
    assert(t.len() <= 3);
}

/// No viseme names a channel twice.
pub proof fn law_viseme_channels_are_distinct(v: Viseme)
    ensures
        forall|i: int, j: int|
            0 <= i < j < spec_target_channels(v).len() ==> spec_target_channels(v)[i] != spec_target_channels(v)[j],
{
}

impl Viseme {
    /// The blend shape channels this viseme drives, in target-table order.
    pub fn target_channels(self) -> (r: Vec<usize>)
        ensures
            r@ == spec_target_channels(self),
    {
        match self {
            Viseme::Sil => vec![],
            Viseme::P => vec![MOUTH_CLOSE, JAW_OPEN, MOUTH_PUCKER],
            Viseme::F => vec![MOUTH_SHRUG_LOWER, JAW_OPEN],
            Viseme::T => vec![JAW_OPEN, TONGUE_OUT],
            Viseme::TT => vec![JAW_OPEN, MOUTH_STRETCH_LEFT, MOUTH_STRETCH_RIGHT],
            Viseme::S => vec![JAW_OPEN, MOUTH_SMILE_LEFT, MOUTH_SMILE_RIGHT],
            Viseme::SS => vec![MOUTH_FUNNEL, JAW_OPEN, MOUTH_PUCKER],
            Viseme::K => vec![JAW_OPEN, MOUTH_STRETCH_LEFT, MOUTH_STRETCH_RIGHT],
            Viseme::R => vec![MOUTH_SHRUG_UPPER, MOUTH_PUCKER, JAW_OPEN],
            Viseme::A => vec![JAW_OPEN, MOUTH_CLOSE],
            Viseme::E => vec![JAW_OPEN, MOUTH_SMILE_LEFT, MOUTH_SMILE_RIGHT],
            Viseme::I => vec![JAW_OPEN, MOUTH_SMILE_LEFT, MOUTH_SMILE_RIGHT],
            Viseme::O => vec![MOUTH_FUNNEL, JAW_OPEN, MOUTH_PUCKER],
            Viseme::U => vec![MOUTH_PUCKER, MOUTH_FUNNEL, JAW_OPEN],
            Viseme::At => vec![JAW_OPEN],
        }
    }
    /// Parses Polly's on-the-wire viseme token (case-sensitive). An unknown
    /// token is `None`, never silently silence.
    pub fn from_polly(value: &str) -> (r: Option<Viseme>)
        ensures
            r matches Some(v) ==> polly_token(v) == value.spec_bytes(),
            r is None ==> forall|v: Viseme| polly_token(v) != value.spec_bytes(),
    {
        let b = value.as_bytes();
        if b.len() == 3 {
            if b[0] == 115 && b[1] == 105 && b[2] == 108 {
                assert(b@ =~= polly_token(Viseme::Sil));
                return Some(Viseme::Sil);
            }
            assert forall|v: Viseme| polly_token(v) != value.spec_bytes() by {
                if v == Viseme::Sil {
                    assert(polly_token(v)[0] == 115u8 && polly_token(v)[1] == 105u8 && polly_token(v)[2] == 108u8);
                }
            }
            return None;
        }
        if b.len() != 1 {
            return None;
        }
        let r = match b[0] {
            112 => Some(Viseme::P),
            102 => Some(Viseme::F),
            84 => Some(Viseme::T),
            116 => Some(Viseme::TT),
            115 => Some(Viseme::S),
            83 => Some(Viseme::SS),
            107 => Some(Viseme::K),
            114 => Some(Viseme::R),
            97 => Some(Viseme::A),
            101 => Some(Viseme::E),
            105 => Some(Viseme::I),
            111 => Some(Viseme::O),
            117 => Some(Viseme::U),
            64 => Some(Viseme::At),
            _ => None,
        };
        proof {
            if let Some(v) = r {
                assert(b@ =~= polly_token(v));
            } else {
                assert forall|v: Viseme| polly_token(v) != value.spec_bytes() by {
                    if v != Viseme::Sil {
                        assert(polly_token(v)[0] != b@[0]);
                    }
                }
            }
        }
        r
    }
}

/// Every viseme has its own token: parsing never conflates two visemes
/// (in particular `T` and `t` are different visemes).
pub proof fn law_polly_tokens_are_distinct(v1: Viseme, v2: Viseme)
    requires
        v1 != v2,
    ensures
        polly_token(v1) != polly_token(v2),
{
    if polly_token(v1).len() == polly_token(v2).len() {
        assert(polly_token(v1)[0] != polly_token(v2)[0]);
    }
}

} // verus!
