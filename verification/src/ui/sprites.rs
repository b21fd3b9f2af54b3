//! Pixel-art frames of the player's pet cat.
//!
//! Every grid is a rectangle of one-character palette tokens, one string per
//! pixel row; the renderer folds two pixel rows into one terminal row with
//! half blocks. Three sizes fit the pane the layout hands out: 16x16 for a
//! tall deck, 12x12 for a medium one and 10x8 for short panes.
//!
//! Palette tokens: `.` transparent, `F` fur, `f` dim fur or whisker, `P`
//! inner ear, `B` blush, `N` nose, `M` muzzle, `H` headband, `C` headphone
//! cup, `c` headphone glow, `E` dark eye, `W` eye shine, `A` collar.
use vstd::prelude::*;

verus! {

/// A character of the sprite palette (see the module comment).
pub open spec fn is_palette_char(c: char) -> bool {
    c == '.' || c == 'F' || c == 'f' || c == 'P' || c == 'B' || c == 'N' || c == 'M' || c == 'H'
        || c == 'C' || c == 'c' || c == 'E' || c == 'W' || c == 'A'
}

/// A pixel row `w` characters wide, each a palette token.
pub open spec fn sprite_row(s: Seq<char>, w: nat) -> bool {
    s.len() == w && forall|j: int| 0 <= j < w ==> is_palette_char(#[trigger] s[j])
}

/// The 12x12 dancing frame number `frame`.
pub fn medium_playing(frame: usize) -> (r: [&'static str; 12])
    requires
        frame < 4,
    ensures
        forall|i: int| 0 <= i < 12 ==> sprite_row(#[trigger] r@[i]@, 12),
        frame == 0 ==> {
            &&& r@[0]@ == "F........F.."@
            &&& r@[1]@ == "FP......PF.."@
            &&& r@[2]@ == "FPP.HH.PPF.f"@
            &&& r@[3]@ == "FFFHHHHFFF.f"@
            &&& r@[4]@ == "CFFFFFFFFC.f"@
            &&& r@[5]@ == "CFEWFFWEFC.."@
            &&& r@[6]@ == "cFBFFNNFBFc."@
            &&& r@[7]@ == "f.FFMMFF.f.."@
            &&& r@[8]@ == "..AAAAAA...f"@
            &&& r@[9]@ == ".FFFFFFFF..f"@
            &&& r@[10]@ == ".FFFFFFFFFf."@
            &&& r@[11]@ == ".PP.FF.PP..."@
        },
        frame == 1 ==> {
            &&& r@[0]@ == ".F........F."@
            &&& r@[1]@ == ".FP......PF."@
            &&& r@[2]@ == "FFPP.HH.PPFF"@
            &&& r@[3]@ == "FFFFHHHHFFFF"@
            &&& r@[4]@ == "CFFFFFFFFFFC"@
            &&& r@[5]@ == "CFEWFFFFWEFC"@
            &&& r@[6]@ == "cFBFFNNFFBFc"@
            &&& r@[7]@ == "f.FFFMMFFF.f"@
            &&& r@[8]@ == "...AAAAAA..f"@
            &&& r@[9]@ == "..FFFFFFFF.f"@
            &&& r@[10]@ == "..FFFFFFFFFf"@
            &&& r@[11]@ == "..PP.FF.PP.."@
        },
        frame == 2 ==> {
            &&& r@[0]@ == "..F........F"@
            &&& r@[1]@ == "..FP......PF"@
            &&& r@[2]@ == "f.FPP.HH.PPF"@
            &&& r@[3]@ == "f.FFFHHHHFFF"@
            &&& r@[4]@ == "f.CFFFFFFFFC"@
            &&& r@[5]@ == "..CFEWFFWEFC"@
            &&& r@[6]@ == ".cFBFFNNFBFc"@
            &&& r@[7]@ == "..f.FFMMFF.f"@
            &&& r@[8]@ == "f...AAAAAA.."@
            &&& r@[9]@ == "f..FFFFFFFF."@
            &&& r@[10]@ == ".fFFFFFFFFF."@
            &&& r@[11]@ == "...PP.FF.PP."@
        },
        frame == 3 ==> {
            &&& r@[0]@ == "F..........F"@
            &&& r@[1]@ == ".FP......PF."@
            &&& r@[2]@ == "FFPP.HH.PPFF"@
            &&& r@[3]@ == "FFFFHHHHFFFF"@
            &&& r@[4]@ == "cFFFFFFFFFFc"@
            &&& r@[5]@ == "cFffFFFFffFc"@
            &&& r@[6]@ == "cFBFFNNFFBFc"@
            &&& r@[7]@ == "f.FFFMMFFF.f"@
            &&& r@[8]@ == "..AAAAAAAA.."@
            &&& r@[9]@ == ".FFFFFFFFFF."@
            &&& r@[10]@ == "FFFFFFFFFFFf"@
            &&& r@[11]@ == ".PP.FFFF.PPf"@
        },
{
    if frame == 0 {
        proof {
            reveal_strlit("F........F..");
            reveal_strlit("FP......PF..");
            reveal_strlit("FPP.HH.PPF.f");
            reveal_strlit("FFFHHHHFFF.f");
            reveal_strlit("CFFFFFFFFC.f");
            reveal_strlit("CFEWFFWEFC..");
            reveal_strlit("cFBFFNNFBFc.");
            reveal_strlit("f.FFMMFF.f..");
            reveal_strlit("..AAAAAA...f");
            reveal_strlit(".FFFFFFFF..f");
            reveal_strlit(".FFFFFFFFFf.");
            reveal_strlit(".PP.FF.PP...");
        }
        [
            "F........F..",
            "FP......PF..",
            "FPP.HH.PPF.f",
            "FFFHHHHFFF.f",
            "CFFFFFFFFC.f",
            "CFEWFFWEFC..",
            "cFBFFNNFBFc.",
            "f.FFMMFF.f..",
            "..AAAAAA...f",
            ".FFFFFFFF..f",
            ".FFFFFFFFFf.",
            ".PP.FF.PP...",
        ]
    } else if frame == 1 {
        proof {
            reveal_strlit(".F........F.");
            reveal_strlit(".FP......PF.");
            reveal_strlit("FFPP.HH.PPFF");
            reveal_strlit("FFFFHHHHFFFF");
            reveal_strlit("CFFFFFFFFFFC");
            reveal_strlit("CFEWFFFFWEFC");
            reveal_strlit("cFBFFNNFFBFc");
            reveal_strlit("f.FFFMMFFF.f");
            reveal_strlit("...AAAAAA..f");
            reveal_strlit("..FFFFFFFF.f");
            reveal_strlit("..FFFFFFFFFf");
            reveal_strlit("..PP.FF.PP..");
        }
        [
            ".F........F.",
            ".FP......PF.",
            "FFPP.HH.PPFF",
            "FFFFHHHHFFFF",
            "CFFFFFFFFFFC",
            "CFEWFFFFWEFC",
            "cFBFFNNFFBFc",
            "f.FFFMMFFF.f",
            "...AAAAAA..f",
            "..FFFFFFFF.f",
            "..FFFFFFFFFf",
            "..PP.FF.PP..",
        ]
    } else if frame == 2 {
        proof {
            reveal_strlit("..F........F");
            reveal_strlit("..FP......PF");
            reveal_strlit("f.FPP.HH.PPF");
            reveal_strlit("f.FFFHHHHFFF");
            reveal_strlit("f.CFFFFFFFFC");
            reveal_strlit("..CFEWFFWEFC");
            reveal_strlit(".cFBFFNNFBFc");
            reveal_strlit("..f.FFMMFF.f");
            reveal_strlit("f...AAAAAA..");
            reveal_strlit("f..FFFFFFFF.");
            reveal_strlit(".fFFFFFFFFF.");
            reveal_strlit("...PP.FF.PP.");
        }
        [
            "..F........F",
            "..FP......PF",
            "f.FPP.HH.PPF",
            "f.FFFHHHHFFF",
            "f.CFFFFFFFFC",
            "..CFEWFFWEFC",
            ".cFBFFNNFBFc",
            "..f.FFMMFF.f",
            "f...AAAAAA..",
            "f..FFFFFFFF.",
            ".fFFFFFFFFF.",
            "...PP.FF.PP.",
        ]
    } else {
        proof {
            reveal_strlit("F..........F");
            reveal_strlit(".FP......PF.");
            reveal_strlit("FFPP.HH.PPFF");
            reveal_strlit("FFFFHHHHFFFF");
            reveal_strlit("cFFFFFFFFFFc");
            reveal_strlit("cFffFFFFffFc");
            reveal_strlit("cFBFFNNFFBFc");
            reveal_strlit("f.FFFMMFFF.f");
            reveal_strlit("..AAAAAAAA..");
            reveal_strlit(".FFFFFFFFFF.");
            reveal_strlit("FFFFFFFFFFFf");
            reveal_strlit(".PP.FFFF.PPf");
        }
        [
            "F..........F",
            ".FP......PF.",
            "FFPP.HH.PPFF",
            "FFFFHHHHFFFF",
            "cFFFFFFFFFFc",
            "cFffFFFFffFc",
            "cFBFFNNFFBFc",
            "f.FFFMMFFF.f",
            "..AAAAAAAA..",
            ".FFFFFFFFFF.",
            "FFFFFFFFFFFf",
            ".PP.FFFF.PPf",
        ]
    }
}

/// The 12x12 sleeping frame number `frame`.
pub fn medium_sleeping(frame: usize) -> (r: [&'static str; 12])
    requires
        frame < 2,
    ensures
        forall|i: int| 0 <= i < 12 ==> sprite_row(#[trigger] r@[i]@, 12),
        frame == 0 ==> {
            &&& r@[0]@ == "............"@
            &&& r@[1]@ == ".f........f."@
            &&& r@[2]@ == ".fP......Pf."@
            &&& r@[3]@ == "ffPP.HH.PPff"@
            &&& r@[4]@ == "ffffffffffff"@
            &&& r@[5]@ == "cfEEffffEEfc"@
            &&& r@[6]@ == "cfBffNNffBfc"@
            &&& r@[7]@ == "f.fffMMfff.f"@
            &&& r@[8]@ == "..AAAAAAAA.."@
            &&& r@[9]@ == ".ffffffffff."@
            &&& r@[10]@ == "ffffffffffff"@
            &&& r@[11]@ == ".PP.ffff.PPf"@
        },
        frame == 1 ==> {
            &&& r@[0]@ == "............"@
            &&& r@[1]@ == "............"@
            &&& r@[2]@ == ".f........f."@
            &&& r@[3]@ == ".fPP.HH.PPf."@
            &&& r@[4]@ == "ffffffffffff"@
            &&& r@[5]@ == "cfEEffffEEfc"@
            &&& r@[6]@ == "cfBffNNffBfc"@
            &&& r@[7]@ == "f.fffMMfff.f"@
            &&& r@[8]@ == "..AAAAAAAA.."@
            &&& r@[9]@ == "ffffffffffff"@
            &&& r@[10]@ == "ffffffffffff"@
            &&& r@[11]@ == ".PP.ffff.PP."@
        },
{
    if frame == 0 {
        proof {
            reveal_strlit("............");
            reveal_strlit(".f........f.");
            reveal_strlit(".fP......Pf.");
            reveal_strlit("ffPP.HH.PPff");
            reveal_strlit("ffffffffffff");
            reveal_strlit("cfEEffffEEfc");
            reveal_strlit("cfBffNNffBfc");
            reveal_strlit("f.fffMMfff.f");
            reveal_strlit("..AAAAAAAA..");
            reveal_strlit(".ffffffffff.");
            reveal_strlit(".PP.ffff.PPf");
        }
        [
            "............",
            ".f........f.",
            ".fP......Pf.",
            "ffPP.HH.PPff",
            "ffffffffffff",
            "cfEEffffEEfc",
            "cfBffNNffBfc",
            "f.fffMMfff.f",
            "..AAAAAAAA..",
            ".ffffffffff.",
            "ffffffffffff",
            ".PP.ffff.PPf",
        ]
    } else {
        proof {
            reveal_strlit("............");
            reveal_strlit(".f........f.");
            reveal_strlit(".fPP.HH.PPf.");
            reveal_strlit("ffffffffffff");
            reveal_strlit("cfEEffffEEfc");
            reveal_strlit("cfBffNNffBfc");
            reveal_strlit("f.fffMMfff.f");
            reveal_strlit("..AAAAAAAA..");
            reveal_strlit(".PP.ffff.PP.");
        }
        [
            "............",
            "............",
            ".f........f.",
            ".fPP.HH.PPf.",
            "ffffffffffff",
            "cfEEffffEEfc",
            "cfBffNNffBfc",
            "f.fffMMfff.f",
            "..AAAAAAAA..",
            "ffffffffffff",
            "ffffffffffff",
            ".PP.ffff.PP.",
        ]
    }
}

/// The 10x8 dancing frame number `frame`.
pub fn small_playing(frame: usize) -> (r: [&'static str; 8])
    requires
        frame < 4,
    ensures
        forall|i: int| 0 <= i < 8 ==> sprite_row(#[trigger] r@[i]@, 10),
        frame == 0 ==> {
            &&& r@[0]@ == "F......F.."@
            &&& r@[1]@ == "FP....PF.."@
            &&& r@[2]@ == "FFFHHFFFC."@
            &&& r@[3]@ == "FEWFFWEFC."@
            &&& r@[4]@ == "FBFNNFBFc."@
            &&& r@[5]@ == "FAAAAAAF.f"@
            &&& r@[6]@ == "FFFFFFFF.f"@
            &&& r@[7]@ == "PP....PPf."@
        },
        frame == 1 ==> {
            &&& r@[0]@ == ".F......F."@
            &&& r@[1]@ == ".FP....PF."@
            &&& r@[2]@ == "CFFFHHFFFC"@
            &&& r@[3]@ == "CFEWFFWEFC"@
            &&& r@[4]@ == "cFBFNNFBFc"@
            &&& r@[5]@ == ".FAAAAAAF."@
            &&& r@[6]@ == ".FFFFFFFFf"@
            &&& r@[7]@ == ".PP....PPf"@
        },
        frame == 2 ==> {
            &&& r@[0]@ == "..F......F"@
            &&& r@[1]@ == "..FP....PF"@
            &&& r@[2]@ == ".CFFFHHFFF"@
            &&& r@[3]@ == ".CFEWFFWEF"@
            &&& r@[4]@ == ".cFBFNNFBF"@
            &&& r@[5]@ == "f.FAAAAAAF"@
            &&& r@[6]@ == "f.FFFFFFFF"@
            &&& r@[7]@ == ".fPP....PP"@
        },
        frame == 3 ==> {
            &&& r@[0]@ == ".F......F."@
            &&& r@[1]@ == ".FP....PF."@
            &&& r@[2]@ == "cFFFHHFFFc"@
            &&& r@[3]@ == "cFffFFffFc"@
            &&& r@[4]@ == "cFBFNNFBFc"@
            &&& r@[5]@ == ".AAAAAAAA."@
            &&& r@[6]@ == "FFFFFFFFFF"@
            &&& r@[7]@ == "PP.FFFF.PP"@
        },
{
    if frame == 0 {
        proof {
            reveal_strlit("F......F..");
            reveal_strlit("FP....PF..");
            reveal_strlit("FFFHHFFFC.");
            reveal_strlit("FEWFFWEFC.");
            reveal_strlit("FBFNNFBFc.");
            reveal_strlit("FAAAAAAF.f");
            reveal_strlit("FFFFFFFF.f");
            reveal_strlit("PP....PPf.");
        }
        [
            "F......F..",
            "FP....PF..",
            "FFFHHFFFC.",
            "FEWFFWEFC.",
            "FBFNNFBFc.",
            "FAAAAAAF.f",
            "FFFFFFFF.f",
            "PP....PPf.",
        ]
    } else if frame == 1 {
        proof {
            reveal_strlit(".F......F.");
            reveal_strlit(".FP....PF.");
            reveal_strlit("CFFFHHFFFC");
            reveal_strlit("CFEWFFWEFC");
            reveal_strlit("cFBFNNFBFc");
            reveal_strlit(".FAAAAAAF.");
            reveal_strlit(".FFFFFFFFf");
            reveal_strlit(".PP....PPf");
        }
        [
            ".F......F.",
            ".FP....PF.",
            "CFFFHHFFFC",
            "CFEWFFWEFC",
            "cFBFNNFBFc",
            ".FAAAAAAF.",
            ".FFFFFFFFf",
            ".PP....PPf",
        ]
    } else if frame == 2 {
        proof {
            reveal_strlit("..F......F");
            reveal_strlit("..FP....PF");
            reveal_strlit(".CFFFHHFFF");
            reveal_strlit(".CFEWFFWEF");
            reveal_strlit(".cFBFNNFBF");
            reveal_strlit("f.FAAAAAAF");
            reveal_strlit("f.FFFFFFFF");
            reveal_strlit(".fPP....PP");
        }
        [
            "..F......F",
            "..FP....PF",
            ".CFFFHHFFF",
            ".CFEWFFWEF",
            ".cFBFNNFBF",
            "f.FAAAAAAF",
            "f.FFFFFFFF",
            ".fPP....PP",
        ]
    } else {
        proof {
            reveal_strlit(".F......F.");
            reveal_strlit(".FP....PF.");
            reveal_strlit("cFFFHHFFFc");
            reveal_strlit("cFffFFffFc");
            reveal_strlit("cFBFNNFBFc");
            reveal_strlit(".AAAAAAAA.");
            reveal_strlit("FFFFFFFFFF");
            reveal_strlit("PP.FFFF.PP");
        }
        [
            ".F......F.",
            ".FP....PF.",
            "cFFFHHFFFc",
            "cFffFFffFc",
            "cFBFNNFBFc",
            ".AAAAAAAA.",
            "FFFFFFFFFF",
            "PP.FFFF.PP",
        ]
    }
}

/// The 10x8 sleeping frame number `frame`.
pub fn small_sleeping(frame: usize) -> (r: [&'static str; 8])
    requires
        frame < 2,
    ensures
        forall|i: int| 0 <= i < 8 ==> sprite_row(#[trigger] r@[i]@, 10),
        frame == 0 ==> {
            &&& r@[0]@ == ".........."@
            &&& r@[1]@ == ".f......f."@
            &&& r@[2]@ == ".fP....Pf."@
            &&& r@[3]@ == "cffHHHHffc"@
            &&& r@[4]@ == "cfEEffEEfc"@
            &&& r@[5]@ == "cfBfNNfBfc"@
            &&& r@[6]@ == ".ffffffff."@
            &&& r@[7]@ == "fPP....PPf"@
        },
        frame == 1 ==> {
            &&& r@[0]@ == ".........."@
            &&& r@[1]@ == ".........."@
            &&& r@[2]@ == ".f......f."@
            &&& r@[3]@ == ".fP.HH.Pf."@
            &&& r@[4]@ == "cfEEffEEfc"@
            &&& r@[5]@ == "cfBfNNfBfc"@
            &&& r@[6]@ == "ffffffffff"@
            &&& r@[7]@ == ".PP....PP."@
        },
{
    if frame == 0 {
        proof {
            reveal_strlit("..........");
            reveal_strlit(".f......f.");
            reveal_strlit(".fP....Pf.");
            reveal_strlit("cffHHHHffc");
            reveal_strlit("cfEEffEEfc");
            reveal_strlit("cfBfNNfBfc");
            reveal_strlit(".ffffffff.");
            reveal_strlit("fPP....PPf");
        }
        [
            "..........",
            ".f......f.",
            ".fP....Pf.",
            "cffHHHHffc",
            "cfEEffEEfc",
            "cfBfNNfBfc",
            ".ffffffff.",
            "fPP....PPf",
        ]
    } else {
        proof {
            reveal_strlit("..........");
            reveal_strlit(".f......f.");
            reveal_strlit(".fP.HH.Pf.");
            reveal_strlit("cfEEffEEfc");
            reveal_strlit("cfBfNNfBfc");
            reveal_strlit("ffffffffff");
            reveal_strlit(".PP....PP.");
        }
        [
            "..........",
            "..........",
            ".f......f.",
            ".fP.HH.Pf.",
            "cfEEffEEfc",
            "cfBfNNfBfc",
            "ffffffffff",
            ".PP....PP.",
        ]
    }
}

/// The 16x16 dancing frame number `frame`.
pub fn large_playing(frame: usize) -> (r: [&'static str; 16])
    requires
        frame < 4,
    ensures
        forall|i: int| 0 <= i < 16 ==> sprite_row(#[trigger] r@[i]@, 16),
        frame == 0 ==> {
            &&& r@[0]@ == "..F........F...."@
            &&& r@[1]@ == "..FP......PF...."@
            &&& r@[2]@ == ".FFP......PFF..."@
            &&& r@[3]@ == "FFPPP.HH.PPPFF.."@
            &&& r@[4]@ == "FFFFFHHHHFFFFF.."@
            &&& r@[5]@ == "FFFFFFFFFFFFFFC."@
            &&& r@[6]@ == "FFWEEFFFFEEWFFC."@
            &&& r@[7]@ == "FFEEEFFFFEEEFFc."@
            &&& r@[8]@ == "FBBFFFNNFFFBBFc."@
            &&& r@[9]@ == ".FFFFMMMMFFFF.f."@
            &&& r@[10]@ == "..FFFFFFFFFF..f."@
            &&& r@[11]@ == "...AAAAAAAA....F"@
            &&& r@[12]@ == "..FFFFFFFFFF..FF"@
            &&& r@[13]@ == ".FFFFFFFFFFFF.FF"@
            &&& r@[14]@ == ".FFFFFFFFFFFFFF."@
            &&& r@[15]@ == ".PPFFFFFFFFPP..."@
        },
        frame == 1 ==> {
            &&& r@[0]@ == "...F........F..."@
            &&& r@[1]@ == "...FP......PF..."@
            &&& r@[2]@ == "..FFP......PFF.."@
            &&& r@[3]@ == ".FFPPP.HH.PPPFF."@
            &&& r@[4]@ == ".FFFFFHHHHFFFFF."@
            &&& r@[5]@ == "CFFFFFFFFFFFFFFC"@
            &&& r@[6]@ == "CFFWEEFFFFEEWFFC"@
            &&& r@[7]@ == "cFFEEEFFFFEEEFFc"@
            &&& r@[8]@ == "cFBBFFFNNFFFBBFc"@
            &&& r@[9]@ == "f.FFFFMMMMFFFF.f"@
            &&& r@[10]@ == "f..FFFFFFFFFF..f"@
            &&& r@[11]@ == "....AAAAAAAA...."@
            &&& r@[12]@ == "...FFFFFFFFFF..F"@
            &&& r@[13]@ == "..FFFFFFFFFFFF.F"@
            &&& r@[14]@ == "..FFFFFFFFFFFFFF"@
            &&& r@[15]@ == "..PPFFFFFFFFPP.."@
        },
        frame == 2 ==> {
            &&& r@[0]@ == "....F........F.."@
            &&& r@[1]@ == "....FP......PF.."@
            &&& r@[2]@ == "...FFP......PFF."@
            &&& r@[3]@ == "..FFPPP.HH.PPPFF"@
            &&& r@[4]@ == "..FFFFFHHHHFFFFF"@
            &&& r@[5]@ == ".CFFFFFFFFFFFFFF"@
            &&& r@[6]@ == ".CFFWEEFFFFEEWFF"@
            &&& r@[7]@ == ".cFFEEEFFFFEEEFF"@
            &&& r@[8]@ == ".cFBBFFFNNFFFBBF"@
            &&& r@[9]@ == ".f.FFFFMMMMFFFF."@
            &&& r@[10]@ == ".f..FFFFFFFFFF.."@
            &&& r@[11]@ == "F....AAAAAAAA..."@
            &&& r@[12]@ == "FF..FFFFFFFFFF.."@
            &&& r@[13]@ == "FF.FFFFFFFFFFFF."@
            &&& r@[14]@ == ".FFFFFFFFFFFFFF."@
            &&& r@[15]@ == "...PPFFFFFFFFPP."@
        },
        frame == 3 ==> {
            &&& r@[0]@ == "...F........F..."@
            &&& r@[1]@ == "..FFP......PFF.."@
            &&& r@[2]@ == ".FFPPP....PPPFF."@
            &&& r@[3]@ == ".FFPPP.HH.PPPFF."@
            &&& r@[4]@ == ".FFFFFHHHHFFFFF."@
            &&& r@[5]@ == "cFFFFFFFFFFFFFFc"@
            &&& r@[6]@ == "cFFFFFFFFFFFFFFc"@
            &&& r@[7]@ == "cFFEEEFFFFEEEFFc"@
            &&& r@[8]@ == "cFBBFFFNNFFFBBFc"@
            &&& r@[9]@ == "f.FFFFMMMMFFFF.f"@
            &&& r@[10]@ == "f..FFFFFFFFFF..f"@
            &&& r@[11]@ == "...AAAAAAAAAA..."@
            &&& r@[12]@ == "..FFFFFFFFFFFF.."@
            &&& r@[13]@ == ".FFFFFFFFFFFFFFF"@
            &&& r@[14]@ == "FFFFFFFFFFFFFFFF"@
            &&& r@[15]@ == ".PP.FFFFFFFF.PP."@
        },
{
    if frame == 0 {
        proof {
            reveal_strlit("..F........F....");
            reveal_strlit("..FP......PF....");
            reveal_strlit(".FFP......PFF...");
            reveal_strlit("FFPPP.HH.PPPFF..");
            reveal_strlit("FFFFFHHHHFFFFF..");
            reveal_strlit("FFFFFFFFFFFFFFC.");
            reveal_strlit("FFWEEFFFFEEWFFC.");
            reveal_strlit("FFEEEFFFFEEEFFc.");
            reveal_strlit("FBBFFFNNFFFBBFc.");
            reveal_strlit(".FFFFMMMMFFFF.f.");
            reveal_strlit("..FFFFFFFFFF..f.");
            reveal_strlit("...AAAAAAAA....F");
            reveal_strlit("..FFFFFFFFFF..FF");
            reveal_strlit(".FFFFFFFFFFFF.FF");
            reveal_strlit(".FFFFFFFFFFFFFF.");
            reveal_strlit(".PPFFFFFFFFPP...");
        }
        [
            "..F........F....",
            "..FP......PF....",
            ".FFP......PFF...",
            "FFPPP.HH.PPPFF..",
            "FFFFFHHHHFFFFF..",
            "FFFFFFFFFFFFFFC.",
            "FFWEEFFFFEEWFFC.",
            "FFEEEFFFFEEEFFc.",
            "FBBFFFNNFFFBBFc.",
            ".FFFFMMMMFFFF.f.",
            "..FFFFFFFFFF..f.",
            "...AAAAAAAA....F",
            "..FFFFFFFFFF..FF",
            ".FFFFFFFFFFFF.FF",
            ".FFFFFFFFFFFFFF.",
            ".PPFFFFFFFFPP...",
        ]
    } else if frame == 1 {
        proof {
            reveal_strlit("...F........F...");
            reveal_strlit("...FP......PF...");
            reveal_strlit("..FFP......PFF..");
            reveal_strlit(".FFPPP.HH.PPPFF.");
            reveal_strlit(".FFFFFHHHHFFFFF.");
            reveal_strlit("CFFFFFFFFFFFFFFC");
            reveal_strlit("CFFWEEFFFFEEWFFC");
            reveal_strlit("cFFEEEFFFFEEEFFc");
            reveal_strlit("cFBBFFFNNFFFBBFc");
            reveal_strlit("f.FFFFMMMMFFFF.f");
            reveal_strlit("f..FFFFFFFFFF..f");
            reveal_strlit("....AAAAAAAA....");
            reveal_strlit("...FFFFFFFFFF..F");
            reveal_strlit("..FFFFFFFFFFFF.F");
            reveal_strlit("..FFFFFFFFFFFFFF");
            reveal_strlit("..PPFFFFFFFFPP..");
        }
        [
            "...F........F...",
            "...FP......PF...",
            "..FFP......PFF..",
            ".FFPPP.HH.PPPFF.",
            ".FFFFFHHHHFFFFF.",
            "CFFFFFFFFFFFFFFC",
            "CFFWEEFFFFEEWFFC",
            "cFFEEEFFFFEEEFFc",
            "cFBBFFFNNFFFBBFc",
            "f.FFFFMMMMFFFF.f",
            "f..FFFFFFFFFF..f",
            "....AAAAAAAA....",
            "...FFFFFFFFFF..F",
            "..FFFFFFFFFFFF.F",
            "..FFFFFFFFFFFFFF",
            "..PPFFFFFFFFPP..",
        ]
    } else if frame == 2 {
        proof {
            reveal_strlit("....F........F..");
            reveal_strlit("....FP......PF..");
            reveal_strlit("...FFP......PFF.");
            reveal_strlit("..FFPPP.HH.PPPFF");
            reveal_strlit("..FFFFFHHHHFFFFF");
            reveal_strlit(".CFFFFFFFFFFFFFF");
            reveal_strlit(".CFFWEEFFFFEEWFF");
            reveal_strlit(".cFFEEEFFFFEEEFF");
            reveal_strlit(".cFBBFFFNNFFFBBF");
            reveal_strlit(".f.FFFFMMMMFFFF.");
            reveal_strlit(".f..FFFFFFFFFF..");
            reveal_strlit("F....AAAAAAAA...");
            reveal_strlit("FF..FFFFFFFFFF..");
            reveal_strlit("FF.FFFFFFFFFFFF.");
            reveal_strlit(".FFFFFFFFFFFFFF.");
            reveal_strlit("...PPFFFFFFFFPP.");
        }
        [
            "....F........F..",
            "....FP......PF..",
            "...FFP......PFF.",
            "..FFPPP.HH.PPPFF",
            "..FFFFFHHHHFFFFF",
            ".CFFFFFFFFFFFFFF",
            ".CFFWEEFFFFEEWFF",
            ".cFFEEEFFFFEEEFF",
            ".cFBBFFFNNFFFBBF",
            ".f.FFFFMMMMFFFF.",
            ".f..FFFFFFFFFF..",
            "F....AAAAAAAA...",
            "FF..FFFFFFFFFF..",
            "FF.FFFFFFFFFFFF.",
            ".FFFFFFFFFFFFFF.",
            "...PPFFFFFFFFPP.",
        ]
    } else {
        proof {
            reveal_strlit("...F........F...");
            reveal_strlit("..FFP......PFF..");
            reveal_strlit(".FFPPP....PPPFF.");
            reveal_strlit(".FFPPP.HH.PPPFF.");
            reveal_strlit(".FFFFFHHHHFFFFF.");
            reveal_strlit("cFFFFFFFFFFFFFFc");
            reveal_strlit("cFFEEEFFFFEEEFFc");
            reveal_strlit("cFBBFFFNNFFFBBFc");
            reveal_strlit("f.FFFFMMMMFFFF.f");
            reveal_strlit("f..FFFFFFFFFF..f");
            reveal_strlit("...AAAAAAAAAA...");
            reveal_strlit("..FFFFFFFFFFFF..");
            reveal_strlit(".FFFFFFFFFFFFFFF");
            reveal_strlit("FFFFFFFFFFFFFFFF");
            reveal_strlit(".PP.FFFFFFFF.PP.");
        }
        [
            "...F........F...",
            "..FFP......PFF..",
            ".FFPPP....PPPFF.",
            ".FFPPP.HH.PPPFF.",
            ".FFFFFHHHHFFFFF.",
            "cFFFFFFFFFFFFFFc",
            "cFFFFFFFFFFFFFFc",
            "cFFEEEFFFFEEEFFc",
            "cFBBFFFNNFFFBBFc",
            "f.FFFFMMMMFFFF.f",
            "f..FFFFFFFFFF..f",
            "...AAAAAAAAAA...",
            "..FFFFFFFFFFFF..",
            ".FFFFFFFFFFFFFFF",
            "FFFFFFFFFFFFFFFF",
            ".PP.FFFFFFFF.PP.",
        ]
    }
}

/// The 16x16 sleeping frame number `frame`.
pub fn large_sleeping(frame: usize) -> (r: [&'static str; 16])
    requires
        frame < 2,
    ensures
        forall|i: int| 0 <= i < 16 ==> sprite_row(#[trigger] r@[i]@, 16),
        frame == 0 ==> {
            &&& r@[0]@ == "................"@
            &&& r@[1]@ == "...f........f..."@
            &&& r@[2]@ == "...fP......Pf..."@
            &&& r@[3]@ == "..ffP......Pff.."@
            &&& r@[4]@ == ".ffPPP.HH.PPPff."@
            &&& r@[5]@ == ".fffffHHHHfffff."@
            &&& r@[6]@ == "CffffffffffffffC"@
            &&& r@[7]@ == "CffEEEffffEEEffC"@
            &&& r@[8]@ == "cfBBfffNNfffBBfc"@
            &&& r@[9]@ == "f.ffffMMMMffff.f"@
            &&& r@[10]@ == "f..ffffffffff..f"@
            &&& r@[11]@ == "....AAAAAAAA...."@
            &&& r@[12]@ == "..ffffffffffff.."@
            &&& r@[13]@ == ".ffffffffffffff."@
            &&& r@[14]@ == "ffffffffffffffff"@
            &&& r@[15]@ == ".PP.ffffffff.PP."@
        },
        frame == 1 ==> {
            &&& r@[0]@ == "................"@
            &&& r@[1]@ == "................"@
            &&& r@[2]@ == "...f........f..."@
            &&& r@[3]@ == "...fP......Pf..."@
            &&& r@[4]@ == "..ffPP....PPff.."@
            &&& r@[5]@ == ".ffPPP.HH.PPPff."@
            &&& r@[6]@ == ".fffffHHHHfffff."@
            &&& r@[7]@ == "CffffffffffffffC"@
            &&& r@[8]@ == "CffEEEffffEEEffC"@
            &&& r@[9]@ == "cfBBfffNNfffBBfc"@
            &&& r@[10]@ == "f.ffffMMMMffff.f"@
            &&& r@[11]@ == "f..ffffffffff..f"@
            &&& r@[12]@ == "...AAAAAAAAAA..."@
            &&& r@[13]@ == ".ffffffffffffff."@
            &&& r@[14]@ == "ffffffffffffffff"@
            &&& r@[15]@ == ".PP.ffffffff.PP."@
        },
{
    if frame == 0 {
        proof {
            reveal_strlit("................");
            reveal_strlit("...f........f...");
            reveal_strlit("...fP......Pf...");
            reveal_strlit("..ffP......Pff..");
            reveal_strlit(".ffPPP.HH.PPPff.");
            reveal_strlit(".fffffHHHHfffff.");
            reveal_strlit("CffffffffffffffC");
            reveal_strlit("CffEEEffffEEEffC");
            reveal_strlit("cfBBfffNNfffBBfc");
            reveal_strlit("f.ffffMMMMffff.f");
            reveal_strlit("f..ffffffffff..f");
            reveal_strlit("....AAAAAAAA....");
            reveal_strlit("..ffffffffffff..");
            reveal_strlit(".ffffffffffffff.");
            reveal_strlit("ffffffffffffffff");
            reveal_strlit(".PP.ffffffff.PP.");
        }
        [
            "................",
            "...f........f...",
            "...fP......Pf...",
            "..ffP......Pff..",
            ".ffPPP.HH.PPPff.",
            ".fffffHHHHfffff.",
            "CffffffffffffffC",
            "CffEEEffffEEEffC",
            "cfBBfffNNfffBBfc",
            "f.ffffMMMMffff.f",
            "f..ffffffffff..f",
            "....AAAAAAAA....",
            "..ffffffffffff..",
            ".ffffffffffffff.",
            "ffffffffffffffff",
            ".PP.ffffffff.PP.",
        ]
    } else {
        proof {
            reveal_strlit("................");
            reveal_strlit("...f........f...");
            reveal_strlit("...fP......Pf...");
            reveal_strlit("..ffPP....PPff..");
            reveal_strlit(".ffPPP.HH.PPPff.");
            reveal_strlit(".fffffHHHHfffff.");
            reveal_strlit("CffffffffffffffC");
            reveal_strlit("CffEEEffffEEEffC");
            reveal_strlit("cfBBfffNNfffBBfc");
            reveal_strlit("f.ffffMMMMffff.f");
            reveal_strlit("f..ffffffffff..f");
            reveal_strlit("...AAAAAAAAAA...");
            reveal_strlit(".ffffffffffffff.");
            reveal_strlit("ffffffffffffffff");
            reveal_strlit(".PP.ffffffff.PP.");
        }
        [
            "................",
            "................",
            "...f........f...",
            "...fP......Pf...",
            "..ffPP....PPff..",
            ".ffPPP.HH.PPPff.",
            ".fffffHHHHfffff.",
            "CffffffffffffffC",
            "CffEEEffffEEEffC",
            "cfBBfffNNfffBBfc",
            "f.ffffMMMMffff.f",
            "f..ffffffffff..f",
            "...AAAAAAAAAA...",
            ".ffffffffffffff.",
            "ffffffffffffffff",
            ".PP.ffffffff.PP.",
        ]
    }
}

} // verus!
