//! The Unicode character tables: the category range data behind the
//! codepoint classifier, written out as membership tests over the full
//! range of codepoints. Each category is split into blocks of ranges; the
//! executable tests mirror their specifications literally.

use vstd::prelude::*;

verus! {


pub open spec fn spec_letter_block_0(c: u32) -> bool {
    (0x41 <= c && c <= 0x5A)
        || (0x61 <= c && c <= 0x7A)
        || c == 0xAA
        || c == 0xB5
        || c == 0xBA
        || (0xC0 <= c && c <= 0xD6)
        || (0xD8 <= c && c <= 0xF6)
        || (0xF8 <= c && c <= 0x2C1)
        || (0x2C6 <= c && c <= 0x2D1)
        || (0x2E0 <= c && c <= 0x2E4)
        || c == 0x2EC
        || c == 0x2EE
        || (0x370 <= c && c <= 0x374)
        || (0x376 <= c && c <= 0x377)
        || (0x37A <= c && c <= 0x37D)
        || c == 0x37F
        || c == 0x386
        || (0x388 <= c && c <= 0x38A)
        || c == 0x38C
        || (0x38E <= c && c <= 0x3A1)
        || (0x3A3 <= c && c <= 0x3F5)
        || (0x3F7 <= c && c <= 0x481)
        || (0x48A <= c && c <= 0x52F)
        || (0x531 <= c && c <= 0x556)
        || c == 0x559
        || (0x560 <= c && c <= 0x588)
        || (0x5D0 <= c && c <= 0x5EA)
        || (0x5EF <= c && c <= 0x5F2)
        || (0x620 <= c && c <= 0x64A)
        || (0x66E <= c && c <= 0x66F)
        || (0x671 <= c && c <= 0x6D3)
        || c == 0x6D5
        || (0x6E5 <= c && c <= 0x6E6)
        || (0x6EE <= c && c <= 0x6EF)
        || (0x6FA <= c && c <= 0x6FC)
        || c == 0x6FF
        || c == 0x710
        || (0x712 <= c && c <= 0x72F)
        || (0x74D <= c && c <= 0x7A5)
        || c == 0x7B1
        || (0x7CA <= c && c <= 0x7EA)
        || (0x7F4 <= c && c <= 0x7F5)
        || c == 0x7FA
        || (0x800 <= c && c <= 0x815)
        || c == 0x81A
        || c == 0x824
        || c == 0x828
        || (0x840 <= c && c <= 0x858)
        || (0x860 <= c && c <= 0x86A)
        || (0x870 <= c && c <= 0x887)
        || (0x889 <= c && c <= 0x88E)
        || (0x8A0 <= c && c <= 0x8C9)
        || (0x904 <= c && c <= 0x939)
        || c == 0x93D
        || c == 0x950
        || (0x958 <= c && c <= 0x961)
        || (0x971 <= c && c <= 0x980)
        || (0x985 <= c && c <= 0x98C)
        || (0x98F <= c && c <= 0x990)
        || (0x993 <= c && c <= 0x9A8)
        || (0x9AA <= c && c <= 0x9B0)
        || c == 0x9B2
        || (0x9B6 <= c && c <= 0x9B9)
        || c == 0x9BD
}

fn letter_block_0(c: u32) -> (r: bool)
    ensures
        r == spec_letter_block_0(c),
{
    (0x41 <= c && c <= 0x5A)
        || (0x61 <= c && c <= 0x7A)
        || c == 0xAA
        || c == 0xB5
        || c == 0xBA
        || (0xC0 <= c && c <= 0xD6)
        || (0xD8 <= c && c <= 0xF6)
        || (0xF8 <= c && c <= 0x2C1)
        || (0x2C6 <= c && c <= 0x2D1)
        || (0x2E0 <= c && c <= 0x2E4)
        || c == 0x2EC
        || c == 0x2EE
        || (0x370 <= c && c <= 0x374)
        || (0x376 <= c && c <= 0x377)
        || (0x37A <= c && c <= 0x37D)
        || c == 0x37F
        || c == 0x386
        || (0x388 <= c && c <= 0x38A)
        || c == 0x38C
        || (0x38E <= c && c <= 0x3A1)
        || (0x3A3 <= c && c <= 0x3F5)
        || (0x3F7 <= c && c <= 0x481)
        || (0x48A <= c && c <= 0x52F)
        || (0x531 <= c && c <= 0x556)
        || c == 0x559
        || (0x560 <= c && c <= 0x588)
        || (0x5D0 <= c && c <= 0x5EA)
        || (0x5EF <= c && c <= 0x5F2)
        || (0x620 <= c && c <= 0x64A)
        || (0x66E <= c && c <= 0x66F)
        || (0x671 <= c && c <= 0x6D3)
        || c == 0x6D5
        || (0x6E5 <= c && c <= 0x6E6)
        || (0x6EE <= c && c <= 0x6EF)
        || (0x6FA <= c && c <= 0x6FC)
        || c == 0x6FF
        || c == 0x710
        || (0x712 <= c && c <= 0x72F)
        || (0x74D <= c && c <= 0x7A5)
        || c == 0x7B1
        || (0x7CA <= c && c <= 0x7EA)
        || (0x7F4 <= c && c <= 0x7F5)
        || c == 0x7FA
        || (0x800 <= c && c <= 0x815)
        || c == 0x81A
        || c == 0x824
        || c == 0x828
        || (0x840 <= c && c <= 0x858)
        || (0x860 <= c && c <= 0x86A)
        || (0x870 <= c && c <= 0x887)
        || (0x889 <= c && c <= 0x88E)
        || (0x8A0 <= c && c <= 0x8C9)
        || (0x904 <= c && c <= 0x939)
        || c == 0x93D
        || c == 0x950
        || (0x958 <= c && c <= 0x961)
        || (0x971 <= c && c <= 0x980)
        || (0x985 <= c && c <= 0x98C)
        || (0x98F <= c && c <= 0x990)
        || (0x993 <= c && c <= 0x9A8)
        || (0x9AA <= c && c <= 0x9B0)
        || c == 0x9B2
        || (0x9B6 <= c && c <= 0x9B9)
        || c == 0x9BD
}

pub open spec fn spec_letter_block_1(c: u32) -> bool {
    c == 0x9CE
        || (0x9DC <= c && c <= 0x9DD)
        || (0x9DF <= c && c <= 0x9E1)
        || (0x9F0 <= c && c <= 0x9F1)
        || c == 0x9FC
        || (0xA05 <= c && c <= 0xA0A)
        || (0xA0F <= c && c <= 0xA10)
        || (0xA13 <= c && c <= 0xA28)
        || (0xA2A <= c && c <= 0xA30)
        || (0xA32 <= c && c <= 0xA33)
        || (0xA35 <= c && c <= 0xA36)
        || (0xA38 <= c && c <= 0xA39)
        || (0xA59 <= c && c <= 0xA5C)
        || c == 0xA5E
        || (0xA72 <= c && c <= 0xA74)
        || (0xA85 <= c && c <= 0xA8D)
        || (0xA8F <= c && c <= 0xA91)
        || (0xA93 <= c && c <= 0xAA8)
        || (0xAAA <= c && c <= 0xAB0)
        || (0xAB2 <= c && c <= 0xAB3)
        || (0xAB5 <= c && c <= 0xAB9)
        || c == 0xABD
        || c == 0xAD0
        || (0xAE0 <= c && c <= 0xAE1)
        || c == 0xAF9
        || (0xB05 <= c && c <= 0xB0C)
        || (0xB0F <= c && c <= 0xB10)
        || (0xB13 <= c && c <= 0xB28)
        || (0xB2A <= c && c <= 0xB30)
        || (0xB32 <= c && c <= 0xB33)
        || (0xB35 <= c && c <= 0xB39)
        || c == 0xB3D
        || (0xB5C <= c && c <= 0xB5D)
        || (0xB5F <= c && c <= 0xB61)
        || c == 0xB71
        || c == 0xB83
        || (0xB85 <= c && c <= 0xB8A)
        || (0xB8E <= c && c <= 0xB90)
        || (0xB92 <= c && c <= 0xB95)
        || (0xB99 <= c && c <= 0xB9A)
        || c == 0xB9C
        || (0xB9E <= c && c <= 0xB9F)
        || (0xBA3 <= c && c <= 0xBA4)
        || (0xBA8 <= c && c <= 0xBAA)
        || (0xBAE <= c && c <= 0xBB9)
        || c == 0xBD0
        || (0xC05 <= c && c <= 0xC0C)
        || (0xC0E <= c && c <= 0xC10)
        || (0xC12 <= c && c <= 0xC28)
        || (0xC2A <= c && c <= 0xC39)
        || c == 0xC3D
        || (0xC58 <= c && c <= 0xC5A)
        || c == 0xC5D
        || (0xC60 <= c && c <= 0xC61)
        || c == 0xC80
        || (0xC85 <= c && c <= 0xC8C)
        || (0xC8E <= c && c <= 0xC90)
        || (0xC92 <= c && c <= 0xCA8)
        || (0xCAA <= c && c <= 0xCB3)
        || (0xCB5 <= c && c <= 0xCB9)
        || c == 0xCBD
        || (0xCDD <= c && c <= 0xCDE)
        || (0xCE0 <= c && c <= 0xCE1)
        || (0xCF1 <= c && c <= 0xCF2)
}

fn letter_block_1(c: u32) -> (r: bool)
    ensures
        r == spec_letter_block_1(c),
{
    c == 0x9CE
        || (0x9DC <= c && c <= 0x9DD)
        || (0x9DF <= c && c <= 0x9E1)
        || (0x9F0 <= c && c <= 0x9F1)
        || c == 0x9FC
        || (0xA05 <= c && c <= 0xA0A)
        || (0xA0F <= c && c <= 0xA10)
        || (0xA13 <= c && c <= 0xA28)
        || (0xA2A <= c && c <= 0xA30)
        || (0xA32 <= c && c <= 0xA33)
        || (0xA35 <= c && c <= 0xA36)
        || (0xA38 <= c && c <= 0xA39)
        || (0xA59 <= c && c <= 0xA5C)
        || c == 0xA5E
        || (0xA72 <= c && c <= 0xA74)
        || (0xA85 <= c && c <= 0xA8D)
        || (0xA8F <= c && c <= 0xA91)
        || (0xA93 <= c && c <= 0xAA8)
        || (0xAAA <= c && c <= 0xAB0)
        || (0xAB2 <= c && c <= 0xAB3)
        || (0xAB5 <= c && c <= 0xAB9)
        || c == 0xABD
        || c == 0xAD0
        || (0xAE0 <= c && c <= 0xAE1)
        || c == 0xAF9
        || (0xB05 <= c && c <= 0xB0C)
        || (0xB0F <= c && c <= 0xB10)
        || (0xB13 <= c && c <= 0xB28)
        || (0xB2A <= c && c <= 0xB30)
        || (0xB32 <= c && c <= 0xB33)
        || (0xB35 <= c && c <= 0xB39)
        || c == 0xB3D
        || (0xB5C <= c && c <= 0xB5D)
        || (0xB5F <= c && c <= 0xB61)
        || c == 0xB71
        || c == 0xB83
        || (0xB85 <= c && c <= 0xB8A)
        || (0xB8E <= c && c <= 0xB90)
        || (0xB92 <= c && c <= 0xB95)
        || (0xB99 <= c && c <= 0xB9A)
        || c == 0xB9C
        || (0xB9E <= c && c <= 0xB9F)
        || (0xBA3 <= c && c <= 0xBA4)
        || (0xBA8 <= c && c <= 0xBAA)
        || (0xBAE <= c && c <= 0xBB9)
        || c == 0xBD0
        || (0xC05 <= c && c <= 0xC0C)
        || (0xC0E <= c && c <= 0xC10)
        || (0xC12 <= c && c <= 0xC28)
        || (0xC2A <= c && c <= 0xC39)
        || c == 0xC3D
        || (0xC58 <= c && c <= 0xC5A)
        || c == 0xC5D
        || (0xC60 <= c && c <= 0xC61)
        || c == 0xC80
        || (0xC85 <= c && c <= 0xC8C)
        || (0xC8E <= c && c <= 0xC90)
        || (0xC92 <= c && c <= 0xCA8)
        || (0xCAA <= c && c <= 0xCB3)
        || (0xCB5 <= c && c <= 0xCB9)
        || c == 0xCBD
        || (0xCDD <= c && c <= 0xCDE)
        || (0xCE0 <= c && c <= 0xCE1)
        || (0xCF1 <= c && c <= 0xCF2)
}

pub open spec fn spec_letter_block_2(c: u32) -> bool {
    (0xD04 <= c && c <= 0xD0C)
        || (0xD0E <= c && c <= 0xD10)
        || (0xD12 <= c && c <= 0xD3A)
        || c == 0xD3D
        || c == 0xD4E
        || (0xD54 <= c && c <= 0xD56)
        || (0xD5F <= c && c <= 0xD61)
        || (0xD7A <= c && c <= 0xD7F)
        || (0xD85 <= c && c <= 0xD96)
        || (0xD9A <= c && c <= 0xDB1)
        || (0xDB3 <= c && c <= 0xDBB)
        || c == 0xDBD
        || (0xDC0 <= c && c <= 0xDC6)
        || (0xE01 <= c && c <= 0xE30)
        || (0xE32 <= c && c <= 0xE33)
        || (0xE40 <= c && c <= 0xE46)
        || (0xE81 <= c && c <= 0xE82)
        || c == 0xE84
        || (0xE86 <= c && c <= 0xE8A)
        || (0xE8C <= c && c <= 0xEA3)
        || c == 0xEA5
        || (0xEA7 <= c && c <= 0xEB0)
        || (0xEB2 <= c && c <= 0xEB3)
        || c == 0xEBD
        || (0xEC0 <= c && c <= 0xEC4)
        || c == 0xEC6
        || (0xEDC <= c && c <= 0xEDF)
        || c == 0xF00
        || (0xF40 <= c && c <= 0xF47)
        || (0xF49 <= c && c <= 0xF6C)
        || (0xF88 <= c && c <= 0xF8C)
        || (0x1000 <= c && c <= 0x102A)
        || c == 0x103F
        || (0x1050 <= c && c <= 0x1055)
        || (0x105A <= c && c <= 0x105D)
        || c == 0x1061
        || (0x1065 <= c && c <= 0x1066)
        || (0x106E <= c && c <= 0x1070)
        || (0x1075 <= c && c <= 0x1081)
        || c == 0x108E
        || (0x10A0 <= c && c <= 0x10C5)
        || c == 0x10C7
        || c == 0x10CD
        || (0x10D0 <= c && c <= 0x10FA)
        || (0x10FC <= c && c <= 0x1248)
        || (0x124A <= c && c <= 0x124D)
        || (0x1250 <= c && c <= 0x1256)
        || c == 0x1258
        || (0x125A <= c && c <= 0x125D)
        || (0x1260 <= c && c <= 0x1288)
        || (0x128A <= c && c <= 0x128D)
        || (0x1290 <= c && c <= 0x12B0)
        || (0x12B2 <= c && c <= 0x12B5)
        || (0x12B8 <= c && c <= 0x12BE)
        || c == 0x12C0
        || (0x12C2 <= c && c <= 0x12C5)
        || (0x12C8 <= c && c <= 0x12D6)
        || (0x12D8 <= c && c <= 0x1310)
        || (0x1312 <= c && c <= 0x1315)
        || (0x1318 <= c && c <= 0x135A)
        || (0x1380 <= c && c <= 0x138F)
        || (0x13A0 <= c && c <= 0x13F5)
        || (0x13F8 <= c && c <= 0x13FD)
        || (0x1401 <= c && c <= 0x166C)
}

fn letter_block_2(c: u32) -> (r: bool)
    ensures
        r == spec_letter_block_2(c),
{
    (0xD04 <= c && c <= 0xD0C)
        || (0xD0E <= c && c <= 0xD10)
        || (0xD12 <= c && c <= 0xD3A)
        || c == 0xD3D
        || c == 0xD4E
        || (0xD54 <= c && c <= 0xD56)
        || (0xD5F <= c && c <= 0xD61)
        || (0xD7A <= c && c <= 0xD7F)
        || (0xD85 <= c && c <= 0xD96)
        || (0xD9A <= c && c <= 0xDB1)
        || (0xDB3 <= c && c <= 0xDBB)
        || c == 0xDBD
        || (0xDC0 <= c && c <= 0xDC6)
        || (0xE01 <= c && c <= 0xE30)
        || (0xE32 <= c && c <= 0xE33)
        || (0xE40 <= c && c <= 0xE46)
        || (0xE81 <= c && c <= 0xE82)
        || c == 0xE84
        || (0xE86 <= c && c <= 0xE8A)
        || (0xE8C <= c && c <= 0xEA3)
        || c == 0xEA5
        || (0xEA7 <= c && c <= 0xEB0)
        || (0xEB2 <= c && c <= 0xEB3)
        || c == 0xEBD
        || (0xEC0 <= c && c <= 0xEC4)
        || c == 0xEC6
        || (0xEDC <= c && c <= 0xEDF)
        || c == 0xF00
        || (0xF40 <= c && c <= 0xF47)
        || (0xF49 <= c && c <= 0xF6C)
        || (0xF88 <= c && c <= 0xF8C)
        || (0x1000 <= c && c <= 0x102A)
        || c == 0x103F
        || (0x1050 <= c && c <= 0x1055)
        || (0x105A <= c && c <= 0x105D)
        || c == 0x1061
        || (0x1065 <= c && c <= 0x1066)
        || (0x106E <= c && c <= 0x1070)
        || (0x1075 <= c && c <= 0x1081)
        || c == 0x108E
        || (0x10A0 <= c && c <= 0x10C5)
        || c == 0x10C7
        || c == 0x10CD
        || (0x10D0 <= c && c <= 0x10FA)
        || (0x10FC <= c && c <= 0x1248)
        || (0x124A <= c && c <= 0x124D)
        || (0x1250 <= c && c <= 0x1256)
        || c == 0x1258
        || (0x125A <= c && c <= 0x125D)
        || (0x1260 <= c && c <= 0x1288)
        || (0x128A <= c && c <= 0x128D)
        || (0x1290 <= c && c <= 0x12B0)
        || (0x12B2 <= c && c <= 0x12B5)
        || (0x12B8 <= c && c <= 0x12BE)
        || c == 0x12C0
        || (0x12C2 <= c && c <= 0x12C5)
        || (0x12C8 <= c && c <= 0x12D6)
        || (0x12D8 <= c && c <= 0x1310)
        || (0x1312 <= c && c <= 0x1315)
        || (0x1318 <= c && c <= 0x135A)
        || (0x1380 <= c && c <= 0x138F)
        || (0x13A0 <= c && c <= 0x13F5)
        || (0x13F8 <= c && c <= 0x13FD)
        || (0x1401 <= c && c <= 0x166C)
}

pub open spec fn spec_letter_block_3(c: u32) -> bool {
    (0x166F <= c && c <= 0x167F)
        || (0x1681 <= c && c <= 0x169A)
        || (0x16A0 <= c && c <= 0x16EA)
        || (0x16F1 <= c && c <= 0x16F8)
        || (0x1700 <= c && c <= 0x1711)
        || (0x171F <= c && c <= 0x1731)
        || (0x1740 <= c && c <= 0x1751)
        || (0x1760 <= c && c <= 0x176C)
        || (0x176E <= c && c <= 0x1770)
        || (0x1780 <= c && c <= 0x17B3)
        || c == 0x17D7
        || c == 0x17DC
        || (0x1820 <= c && c <= 0x1878)
        || (0x1880 <= c && c <= 0x1884)
        || (0x1887 <= c && c <= 0x18A8)
        || c == 0x18AA
        || (0x18B0 <= c && c <= 0x18F5)
        || (0x1900 <= c && c <= 0x191E)
        || (0x1950 <= c && c <= 0x196D)
        || (0x1970 <= c && c <= 0x1974)
        || (0x1980 <= c && c <= 0x19AB)
        || (0x19B0 <= c && c <= 0x19C9)
        || (0x1A00 <= c && c <= 0x1A16)
        || (0x1A20 <= c && c <= 0x1A54)
        || c == 0x1AA7
        || (0x1B05 <= c && c <= 0x1B33)
        || (0x1B45 <= c && c <= 0x1B4C)
        || (0x1B83 <= c && c <= 0x1BA0)
        || (0x1BAE <= c && c <= 0x1BAF)
        || (0x1BBA <= c && c <= 0x1BE5)
        || (0x1C00 <= c && c <= 0x1C23)
        || (0x1C4D <= c && c <= 0x1C4F)
        || (0x1C5A <= c && c <= 0x1C7D)
        || (0x1C80 <= c && c <= 0x1C88)
        || (0x1C90 <= c && c <= 0x1CBA)
        || (0x1CBD <= c && c <= 0x1CBF)
        || (0x1CE9 <= c && c <= 0x1CEC)
        || (0x1CEE <= c && c <= 0x1CF3)
        || (0x1CF5 <= c && c <= 0x1CF6)
        || c == 0x1CFA
        || (0x1D00 <= c && c <= 0x1DBF)
        || (0x1E00 <= c && c <= 0x1F15)
        || (0x1F18 <= c && c <= 0x1F1D)
        || (0x1F20 <= c && c <= 0x1F45)
        || (0x1F48 <= c && c <= 0x1F4D)
        || (0x1F50 <= c && c <= 0x1F57)
        || c == 0x1F59
        || c == 0x1F5B
        || c == 0x1F5D
        || (0x1F5F <= c && c <= 0x1F7D)
        || (0x1F80 <= c && c <= 0x1FB4)
        || (0x1FB6 <= c && c <= 0x1FBC)
        || c == 0x1FBE
        || (0x1FC2 <= c && c <= 0x1FC4)
        || (0x1FC6 <= c && c <= 0x1FCC)
        || (0x1FD0 <= c && c <= 0x1FD3)
        || (0x1FD6 <= c && c <= 0x1FDB)
        || (0x1FE0 <= c && c <= 0x1FEC)
        || (0x1FF2 <= c && c <= 0x1FF4)
        || (0x1FF6 <= c && c <= 0x1FFC)
        || c == 0x2071
        || c == 0x207F
        || (0x2090 <= c && c <= 0x209C)
        || c == 0x2102
}

fn letter_block_3(c: u32) -> (r: bool)
    ensures
        r == spec_letter_block_3(c),
{
    (0x166F <= c && c <= 0x167F)
        || (0x1681 <= c && c <= 0x169A)
        || (0x16A0 <= c && c <= 0x16EA)
        || (0x16F1 <= c && c <= 0x16F8)
        || (0x1700 <= c && c <= 0x1711)
        || (0x171F <= c && c <= 0x1731)
        || (0x1740 <= c && c <= 0x1751)
        || (0x1760 <= c && c <= 0x176C)
        || (0x176E <= c && c <= 0x1770)
        || (0x1780 <= c && c <= 0x17B3)
        || c == 0x17D7
        || c == 0x17DC
        || (0x1820 <= c && c <= 0x1878)
        || (0x1880 <= c && c <= 0x1884)
        || (0x1887 <= c && c <= 0x18A8)
        || c == 0x18AA
        || (0x18B0 <= c && c <= 0x18F5)
        || (0x1900 <= c && c <= 0x191E)
        || (0x1950 <= c && c <= 0x196D)
        || (0x1970 <= c && c <= 0x1974)
        || (0x1980 <= c && c <= 0x19AB)
        || (0x19B0 <= c && c <= 0x19C9)
        || (0x1A00 <= c && c <= 0x1A16)
        || (0x1A20 <= c && c <= 0x1A54)
        || c == 0x1AA7
        || (0x1B05 <= c && c <= 0x1B33)
        || (0x1B45 <= c && c <= 0x1B4C)
        || (0x1B83 <= c && c <= 0x1BA0)
        || (0x1BAE <= c && c <= 0x1BAF)
        || (0x1BBA <= c && c <= 0x1BE5)
        || (0x1C00 <= c && c <= 0x1C23)
        || (0x1C4D <= c && c <= 0x1C4F)
        || (0x1C5A <= c && c <= 0x1C7D)
        || (0x1C80 <= c && c <= 0x1C88)
        || (0x1C90 <= c && c <= 0x1CBA)
        || (0x1CBD <= c && c <= 0x1CBF)
        || (0x1CE9 <= c && c <= 0x1CEC)
        || (0x1CEE <= c && c <= 0x1CF3)
        || (0x1CF5 <= c && c <= 0x1CF6)
        || c == 0x1CFA
        || (0x1D00 <= c && c <= 0x1DBF)
        || (0x1E00 <= c && c <= 0x1F15)
        || (0x1F18 <= c && c <= 0x1F1D)
        || (0x1F20 <= c && c <= 0x1F45)
        || (0x1F48 <= c && c <= 0x1F4D)
        || (0x1F50 <= c && c <= 0x1F57)
        || c == 0x1F59
        || c == 0x1F5B
        || c == 0x1F5D
        || (0x1F5F <= c && c <= 0x1F7D)
        || (0x1F80 <= c && c <= 0x1FB4)
        || (0x1FB6 <= c && c <= 0x1FBC)
        || c == 0x1FBE
        || (0x1FC2 <= c && c <= 0x1FC4)
        || (0x1FC6 <= c && c <= 0x1FCC)
        || (0x1FD0 <= c && c <= 0x1FD3)
        || (0x1FD6 <= c && c <= 0x1FDB)
        || (0x1FE0 <= c && c <= 0x1FEC)
        || (0x1FF2 <= c && c <= 0x1FF4)
        || (0x1FF6 <= c && c <= 0x1FFC)
        || c == 0x2071
        || c == 0x207F
        || (0x2090 <= c && c <= 0x209C)
        || c == 0x2102
}

pub open spec fn spec_letter_block_4(c: u32) -> bool {
    c == 0x2107
        || (0x210A <= c && c <= 0x2113)
        || c == 0x2115
        || (0x2119 <= c && c <= 0x211D)
        || c == 0x2124
        || c == 0x2126
        || c == 0x2128
        || (0x212A <= c && c <= 0x212D)
        || (0x212F <= c && c <= 0x2139)
        || (0x213C <= c && c <= 0x213F)
        || (0x2145 <= c && c <= 0x2149)
        || c == 0x214E
        || (0x2183 <= c && c <= 0x2184)
        || (0x2C00 <= c && c <= 0x2CE4)
        || (0x2CEB <= c && c <= 0x2CEE)
        || (0x2CF2 <= c && c <= 0x2CF3)
        || (0x2D00 <= c && c <= 0x2D25)
        || c == 0x2D27
        || c == 0x2D2D
        || (0x2D30 <= c && c <= 0x2D67)
        || c == 0x2D6F
        || (0x2D80 <= c && c <= 0x2D96)
        || (0x2DA0 <= c && c <= 0x2DA6)
        || (0x2DA8 <= c && c <= 0x2DAE)
        || (0x2DB0 <= c && c <= 0x2DB6)
        || (0x2DB8 <= c && c <= 0x2DBE)
        || (0x2DC0 <= c && c <= 0x2DC6)
        || (0x2DC8 <= c && c <= 0x2DCE)
        || (0x2DD0 <= c && c <= 0x2DD6)
        || (0x2DD8 <= c && c <= 0x2DDE)
        || c == 0x2E2F
        || (0x3005 <= c && c <= 0x3006)
        || (0x3031 <= c && c <= 0x3035)
        || (0x303B <= c && c <= 0x303C)
        || (0x3041 <= c && c <= 0x3096)
        || (0x309D <= c && c <= 0x309F)
        || (0x30A1 <= c && c <= 0x30FA)
        || (0x30FC <= c && c <= 0x30FF)
        || (0x3105 <= c && c <= 0x312F)
        || (0x3131 <= c && c <= 0x318E)
        || (0x31A0 <= c && c <= 0x31BF)
        || (0x31F0 <= c && c <= 0x31FF)
        || (0x3400 <= c && c <= 0x4DBF)
        || (0x4E00 <= c && c <= 0xA48C)
        || (0xA4D0 <= c && c <= 0xA4FD)
        || (0xA500 <= c && c <= 0xA60C)
        || (0xA610 <= c && c <= 0xA61F)
        || (0xA62A <= c && c <= 0xA62B)
        || (0xA640 <= c && c <= 0xA66E)
        || (0xA67F <= c && c <= 0xA69D)
        || (0xA6A0 <= c && c <= 0xA6E5)
        || (0xA717 <= c && c <= 0xA71F)
        || (0xA722 <= c && c <= 0xA788)
        || (0xA78B <= c && c <= 0xA7CA)
        || (0xA7D0 <= c && c <= 0xA7D1)
        || c == 0xA7D3
        || (0xA7D5 <= c && c <= 0xA7D9)
        || (0xA7F2 <= c && c <= 0xA801)
        || (0xA803 <= c && c <= 0xA805)
        || (0xA807 <= c && c <= 0xA80A)
        || (0xA80C <= c && c <= 0xA822)
        || (0xA840 <= c && c <= 0xA873)
        || (0xA882 <= c && c <= 0xA8B3)
        || (0xA8F2 <= c && c <= 0xA8F7)
}

fn letter_block_4(c: u32) -> (r: bool)
    ensures
        r == spec_letter_block_4(c),
{
    c == 0x2107
        || (0x210A <= c && c <= 0x2113)
        || c == 0x2115
        || (0x2119 <= c && c <= 0x211D)
        || c == 0x2124
        || c == 0x2126
        || c == 0x2128
        || (0x212A <= c && c <= 0x212D)
        || (0x212F <= c && c <= 0x2139)
        || (0x213C <= c && c <= 0x213F)
        || (0x2145 <= c && c <= 0x2149)
        || c == 0x214E
        || (0x2183 <= c && c <= 0x2184)
        || (0x2C00 <= c && c <= 0x2CE4)
        || (0x2CEB <= c && c <= 0x2CEE)
        || (0x2CF2 <= c && c <= 0x2CF3)
        || (0x2D00 <= c && c <= 0x2D25)
        || c == 0x2D27
        || c == 0x2D2D
        || (0x2D30 <= c && c <= 0x2D67)
        || c == 0x2D6F
        || (0x2D80 <= c && c <= 0x2D96)
        || (0x2DA0 <= c && c <= 0x2DA6)
        || (0x2DA8 <= c && c <= 0x2DAE)
        || (0x2DB0 <= c && c <= 0x2DB6)
        || (0x2DB8 <= c && c <= 0x2DBE)
        || (0x2DC0 <= c && c <= 0x2DC6)
        || (0x2DC8 <= c && c <= 0x2DCE)
        || (0x2DD0 <= c && c <= 0x2DD6)
        || (0x2DD8 <= c && c <= 0x2DDE)
        || c == 0x2E2F
        || (0x3005 <= c && c <= 0x3006)
        || (0x3031 <= c && c <= 0x3035)
        || (0x303B <= c && c <= 0x303C)
        || (0x3041 <= c && c <= 0x3096)
        || (0x309D <= c && c <= 0x309F)
        || (0x30A1 <= c && c <= 0x30FA)
        || (0x30FC <= c && c <= 0x30FF)
        || (0x3105 <= c && c <= 0x312F)
        || (0x3131 <= c && c <= 0x318E)
        || (0x31A0 <= c && c <= 0x31BF)
        || (0x31F0 <= c && c <= 0x31FF)
        || (0x3400 <= c && c <= 0x4DBF)
        || (0x4E00 <= c && c <= 0xA48C)
        || (0xA4D0 <= c && c <= 0xA4FD)
        || (0xA500 <= c && c <= 0xA60C)
        || (0xA610 <= c && c <= 0xA61F)
        || (0xA62A <= c && c <= 0xA62B)
        || (0xA640 <= c && c <= 0xA66E)
        || (0xA67F <= c && c <= 0xA69D)
        || (0xA6A0 <= c && c <= 0xA6E5)
        || (0xA717 <= c && c <= 0xA71F)
        || (0xA722 <= c && c <= 0xA788)
        || (0xA78B <= c && c <= 0xA7CA)
        || (0xA7D0 <= c && c <= 0xA7D1)
        || c == 0xA7D3
        || (0xA7D5 <= c && c <= 0xA7D9)
        || (0xA7F2 <= c && c <= 0xA801)
        || (0xA803 <= c && c <= 0xA805)
        || (0xA807 <= c && c <= 0xA80A)
        || (0xA80C <= c && c <= 0xA822)
        || (0xA840 <= c && c <= 0xA873)
        || (0xA882 <= c && c <= 0xA8B3)
        || (0xA8F2 <= c && c <= 0xA8F7)
}

pub open spec fn spec_letter_block_5(c: u32) -> bool {
    c == 0xA8FB
        || (0xA8FD <= c && c <= 0xA8FE)
        || (0xA90A <= c && c <= 0xA925)
        || (0xA930 <= c && c <= 0xA946)
        || (0xA960 <= c && c <= 0xA97C)
        || (0xA984 <= c && c <= 0xA9B2)
        || c == 0xA9CF
        || (0xA9E0 <= c && c <= 0xA9E4)
        || (0xA9E6 <= c && c <= 0xA9EF)
        || (0xA9FA <= c && c <= 0xA9FE)
        || (0xAA00 <= c && c <= 0xAA28)
        || (0xAA40 <= c && c <= 0xAA42)
        || (0xAA44 <= c && c <= 0xAA4B)
        || (0xAA60 <= c && c <= 0xAA76)
        || c == 0xAA7A
        || (0xAA7E <= c && c <= 0xAAAF)
        || c == 0xAAB1
        || (0xAAB5 <= c && c <= 0xAAB6)
        || (0xAAB9 <= c && c <= 0xAABD)
        || c == 0xAAC0
        || c == 0xAAC2
        || (0xAADB <= c && c <= 0xAADD)
        || (0xAAE0 <= c && c <= 0xAAEA)
        || (0xAAF2 <= c && c <= 0xAAF4)
        || (0xAB01 <= c && c <= 0xAB06)
        || (0xAB09 <= c && c <= 0xAB0E)
        || (0xAB11 <= c && c <= 0xAB16)
        || (0xAB20 <= c && c <= 0xAB26)
        || (0xAB28 <= c && c <= 0xAB2E)
        || (0xAB30 <= c && c <= 0xAB5A)
        || (0xAB5C <= c && c <= 0xAB69)
        || (0xAB70 <= c && c <= 0xABE2)
        || (0xAC00 <= c && c <= 0xD7A3)
        || (0xD7B0 <= c && c <= 0xD7C6)
        || (0xD7CB <= c && c <= 0xD7FB)
        || (0xF900 <= c && c <= 0xFA6D)
        || (0xFA70 <= c && c <= 0xFAD9)
        || (0xFB00 <= c && c <= 0xFB06)
        || (0xFB13 <= c && c <= 0xFB17)
        || c == 0xFB1D
        || (0xFB1F <= c && c <= 0xFB28)
        || (0xFB2A <= c && c <= 0xFB36)
        || (0xFB38 <= c && c <= 0xFB3C)
        || c == 0xFB3E
        || (0xFB40 <= c && c <= 0xFB41)
        || (0xFB43 <= c && c <= 0xFB44)
        || (0xFB46 <= c && c <= 0xFBB1)
        || (0xFBD3 <= c && c <= 0xFD3D)
        || (0xFD50 <= c && c <= 0xFD8F)
        || (0xFD92 <= c && c <= 0xFDC7)
        || (0xFDF0 <= c && c <= 0xFDFB)
        || (0xFE70 <= c && c <= 0xFE74)
        || (0xFE76 <= c && c <= 0xFEFC)
        || (0xFF21 <= c && c <= 0xFF3A)
        || (0xFF41 <= c && c <= 0xFF5A)
        || (0xFF66 <= c && c <= 0xFFBE)
        || (0xFFC2 <= c && c <= 0xFFC7)
        || (0xFFCA <= c && c <= 0xFFCF)
        || (0xFFD2 <= c && c <= 0xFFD7)
        || (0xFFDA <= c && c <= 0xFFDC)
        || (0x10000 <= c && c <= 0x1000B)
        || (0x1000D <= c && c <= 0x10026)
        || (0x10028 <= c && c <= 0x1003A)
        || (0x1003C <= c && c <= 0x1003D)
}

fn letter_block_5(c: u32) -> (r: bool)
    ensures
        r == spec_letter_block_5(c),
{
    c == 0xA8FB
        || (0xA8FD <= c && c <= 0xA8FE)
        || (0xA90A <= c && c <= 0xA925)
        || (0xA930 <= c && c <= 0xA946)
        || (0xA960 <= c && c <= 0xA97C)
        || (0xA984 <= c && c <= 0xA9B2)
        || c == 0xA9CF
        || (0xA9E0 <= c && c <= 0xA9E4)
        || (0xA9E6 <= c && c <= 0xA9EF)
        || (0xA9FA <= c && c <= 0xA9FE)
        || (0xAA00 <= c && c <= 0xAA28)
        || (0xAA40 <= c && c <= 0xAA42)
        || (0xAA44 <= c && c <= 0xAA4B)
        || (0xAA60 <= c && c <= 0xAA76)
        || c == 0xAA7A
        || (0xAA7E <= c && c <= 0xAAAF)
        || c == 0xAAB1
        || (0xAAB5 <= c && c <= 0xAAB6)
        || (0xAAB9 <= c && c <= 0xAABD)
        || c == 0xAAC0
        || c == 0xAAC2
        || (0xAADB <= c && c <= 0xAADD)
        || (0xAAE0 <= c && c <= 0xAAEA)
        || (0xAAF2 <= c && c <= 0xAAF4)
        || (0xAB01 <= c && c <= 0xAB06)
        || (0xAB09 <= c && c <= 0xAB0E)
        || (0xAB11 <= c && c <= 0xAB16)
        || (0xAB20 <= c && c <= 0xAB26)
        || (0xAB28 <= c && c <= 0xAB2E)
        || (0xAB30 <= c && c <= 0xAB5A)
        || (0xAB5C <= c && c <= 0xAB69)
        || (0xAB70 <= c && c <= 0xABE2)
        || (0xAC00 <= c && c <= 0xD7A3)
        || (0xD7B0 <= c && c <= 0xD7C6)
        || (0xD7CB <= c && c <= 0xD7FB)
        || (0xF900 <= c && c <= 0xFA6D)
        || (0xFA70 <= c && c <= 0xFAD9)
        || (0xFB00 <= c && c <= 0xFB06)
        || (0xFB13 <= c && c <= 0xFB17)
        || c == 0xFB1D
        || (0xFB1F <= c && c <= 0xFB28)
        || (0xFB2A <= c && c <= 0xFB36)
        || (0xFB38 <= c && c <= 0xFB3C)
        || c == 0xFB3E
        || (0xFB40 <= c && c <= 0xFB41)
        || (0xFB43 <= c && c <= 0xFB44)
        || (0xFB46 <= c && c <= 0xFBB1)
        || (0xFBD3 <= c && c <= 0xFD3D)
        || (0xFD50 <= c && c <= 0xFD8F)
        || (0xFD92 <= c && c <= 0xFDC7)
        || (0xFDF0 <= c && c <= 0xFDFB)
        || (0xFE70 <= c && c <= 0xFE74)
        || (0xFE76 <= c && c <= 0xFEFC)
        || (0xFF21 <= c && c <= 0xFF3A)
        || (0xFF41 <= c && c <= 0xFF5A)
        || (0xFF66 <= c && c <= 0xFFBE)
        || (0xFFC2 <= c && c <= 0xFFC7)
        || (0xFFCA <= c && c <= 0xFFCF)
        || (0xFFD2 <= c && c <= 0xFFD7)
        || (0xFFDA <= c && c <= 0xFFDC)
        || (0x10000 <= c && c <= 0x1000B)
        || (0x1000D <= c && c <= 0x10026)
        || (0x10028 <= c && c <= 0x1003A)
        || (0x1003C <= c && c <= 0x1003D)
}

pub open spec fn spec_letter_block_6(c: u32) -> bool {
    (0x1003F <= c && c <= 0x1004D)
        || (0x10050 <= c && c <= 0x1005D)
        || (0x10080 <= c && c <= 0x100FA)
        || (0x10280 <= c && c <= 0x1029C)
        || (0x102A0 <= c && c <= 0x102D0)
        || (0x10300 <= c && c <= 0x1031F)
        || (0x1032D <= c && c <= 0x10340)
        || (0x10342 <= c && c <= 0x10349)
        || (0x10350 <= c && c <= 0x10375)
        || (0x10380 <= c && c <= 0x1039D)
        || (0x103A0 <= c && c <= 0x103C3)
        || (0x103C8 <= c && c <= 0x103CF)
        || (0x10400 <= c && c <= 0x1049D)
        || (0x104B0 <= c && c <= 0x104D3)
        || (0x104D8 <= c && c <= 0x104FB)
        || (0x10500 <= c && c <= 0x10527)
        || (0x10530 <= c && c <= 0x10563)
        || (0x10570 <= c && c <= 0x1057A)
        || (0x1057C <= c && c <= 0x1058A)
        || (0x1058C <= c && c <= 0x10592)
        || (0x10594 <= c && c <= 0x10595)
        || (0x10597 <= c && c <= 0x105A1)
        || (0x105A3 <= c && c <= 0x105B1)
        || (0x105B3 <= c && c <= 0x105B9)
        || (0x105BB <= c && c <= 0x105BC)
        || (0x10600 <= c && c <= 0x10736)
        || (0x10740 <= c && c <= 0x10755)
        || (0x10760 <= c && c <= 0x10767)
        || (0x10780 <= c && c <= 0x10785)
        || (0x10787 <= c && c <= 0x107B0)
        || (0x107B2 <= c && c <= 0x107BA)
        || (0x10800 <= c && c <= 0x10805)
        || c == 0x10808
        || (0x1080A <= c && c <= 0x10835)
        || (0x10837 <= c && c <= 0x10838)
        || c == 0x1083C
        || (0x1083F <= c && c <= 0x10855)
        || (0x10860 <= c && c <= 0x10876)
        || (0x10880 <= c && c <= 0x1089E)
        || (0x108E0 <= c && c <= 0x108F2)
        || (0x108F4 <= c && c <= 0x108F5)
        || (0x10900 <= c && c <= 0x10915)
        || (0x10920 <= c && c <= 0x10939)
        || (0x10980 <= c && c <= 0x109B7)
        || (0x109BE <= c && c <= 0x109BF)
        || c == 0x10A00
        || (0x10A10 <= c && c <= 0x10A13)
        || (0x10A15 <= c && c <= 0x10A17)
        || (0x10A19 <= c && c <= 0x10A35)
        || (0x10A60 <= c && c <= 0x10A7C)
        || (0x10A80 <= c && c <= 0x10A9C)
        || (0x10AC0 <= c && c <= 0x10AC7)
        || (0x10AC9 <= c && c <= 0x10AE4)
        || (0x10B00 <= c && c <= 0x10B35)
        || (0x10B40 <= c && c <= 0x10B55)
        || (0x10B60 <= c && c <= 0x10B72)
        || (0x10B80 <= c && c <= 0x10B91)
        || (0x10C00 <= c && c <= 0x10C48)
        || (0x10C80 <= c && c <= 0x10CB2)
        || (0x10CC0 <= c && c <= 0x10CF2)
        || (0x10D00 <= c && c <= 0x10D23)
        || (0x10E80 <= c && c <= 0x10EA9)
        || (0x10EB0 <= c && c <= 0x10EB1)
        || (0x10F00 <= c && c <= 0x10F1C)
}

fn letter_block_6(c: u32) -> (r: bool)
    ensures
        r == spec_letter_block_6(c),
{
    (0x1003F <= c && c <= 0x1004D)
        || (0x10050 <= c && c <= 0x1005D)
        || (0x10080 <= c && c <= 0x100FA)
        || (0x10280 <= c && c <= 0x1029C)
        || (0x102A0 <= c && c <= 0x102D0)
        || (0x10300 <= c && c <= 0x1031F)
        || (0x1032D <= c && c <= 0x10340)
        || (0x10342 <= c && c <= 0x10349)
        || (0x10350 <= c && c <= 0x10375)
        || (0x10380 <= c && c <= 0x1039D)
        || (0x103A0 <= c && c <= 0x103C3)
        || (0x103C8 <= c && c <= 0x103CF)
        || (0x10400 <= c && c <= 0x1049D)
        || (0x104B0 <= c && c <= 0x104D3)
        || (0x104D8 <= c && c <= 0x104FB)
        || (0x10500 <= c && c <= 0x10527)
        || (0x10530 <= c && c <= 0x10563)
        || (0x10570 <= c && c <= 0x1057A)
        || (0x1057C <= c && c <= 0x1058A)
        || (0x1058C <= c && c <= 0x10592)
        || (0x10594 <= c && c <= 0x10595)
        || (0x10597 <= c && c <= 0x105A1)
        || (0x105A3 <= c && c <= 0x105B1)
        || (0x105B3 <= c && c <= 0x105B9)
        || (0x105BB <= c && c <= 0x105BC)
        || (0x10600 <= c && c <= 0x10736)
        || (0x10740 <= c && c <= 0x10755)
        || (0x10760 <= c && c <= 0x10767)
        || (0x10780 <= c && c <= 0x10785)
        || (0x10787 <= c && c <= 0x107B0)
        || (0x107B2 <= c && c <= 0x107BA)
        || (0x10800 <= c && c <= 0x10805)
        || c == 0x10808
        || (0x1080A <= c && c <= 0x10835)
        || (0x10837 <= c && c <= 0x10838)
        || c == 0x1083C
        || (0x1083F <= c && c <= 0x10855)
        || (0x10860 <= c && c <= 0x10876)
        || (0x10880 <= c && c <= 0x1089E)
        || (0x108E0 <= c && c <= 0x108F2)
        || (0x108F4 <= c && c <= 0x108F5)
        || (0x10900 <= c && c <= 0x10915)
        || (0x10920 <= c && c <= 0x10939)
        || (0x10980 <= c && c <= 0x109B7)
        || (0x109BE <= c && c <= 0x109BF)
        || c == 0x10A00
        || (0x10A10 <= c && c <= 0x10A13)
        || (0x10A15 <= c && c <= 0x10A17)
        || (0x10A19 <= c && c <= 0x10A35)
        || (0x10A60 <= c && c <= 0x10A7C)
        || (0x10A80 <= c && c <= 0x10A9C)
        || (0x10AC0 <= c && c <= 0x10AC7)
        || (0x10AC9 <= c && c <= 0x10AE4)
        || (0x10B00 <= c && c <= 0x10B35)
        || (0x10B40 <= c && c <= 0x10B55)
        || (0x10B60 <= c && c <= 0x10B72)
        || (0x10B80 <= c && c <= 0x10B91)
        || (0x10C00 <= c && c <= 0x10C48)
        || (0x10C80 <= c && c <= 0x10CB2)
        || (0x10CC0 <= c && c <= 0x10CF2)
        || (0x10D00 <= c && c <= 0x10D23)
        || (0x10E80 <= c && c <= 0x10EA9)
        || (0x10EB0 <= c && c <= 0x10EB1)
        || (0x10F00 <= c && c <= 0x10F1C)
}

pub open spec fn spec_letter_block_7(c: u32) -> bool {
    c == 0x10F27
        || (0x10F30 <= c && c <= 0x10F45)
        || (0x10F70 <= c && c <= 0x10F81)
        || (0x10FB0 <= c && c <= 0x10FC4)
        || (0x10FE0 <= c && c <= 0x10FF6)
        || (0x11003 <= c && c <= 0x11037)
        || (0x11071 <= c && c <= 0x11072)
        || c == 0x11075
        || (0x11083 <= c && c <= 0x110AF)
        || (0x110D0 <= c && c <= 0x110E8)
        || (0x11103 <= c && c <= 0x11126)
        || c == 0x11144
        || c == 0x11147
        || (0x11150 <= c && c <= 0x11172)
        || c == 0x11176
        || (0x11183 <= c && c <= 0x111B2)
        || (0x111C1 <= c && c <= 0x111C4)
        || c == 0x111DA
        || c == 0x111DC
        || (0x11200 <= c && c <= 0x11211)
        || (0x11213 <= c && c <= 0x1122B)
        || (0x11280 <= c && c <= 0x11286)
        || c == 0x11288
        || (0x1128A <= c && c <= 0x1128D)
        || (0x1128F <= c && c <= 0x1129D)
        || (0x1129F <= c && c <= 0x112A8)
        || (0x112B0 <= c && c <= 0x112DE)
        || (0x11305 <= c && c <= 0x1130C)
        || (0x1130F <= c && c <= 0x11310)
        || (0x11313 <= c && c <= 0x11328)
        || (0x1132A <= c && c <= 0x11330)
        || (0x11332 <= c && c <= 0x11333)
        || (0x11335 <= c && c <= 0x11339)
        || c == 0x1133D
        || c == 0x11350
        || (0x1135D <= c && c <= 0x11361)
        || (0x11400 <= c && c <= 0x11434)
        || (0x11447 <= c && c <= 0x1144A)
        || (0x1145F <= c && c <= 0x11461)
        || (0x11480 <= c && c <= 0x114AF)
        || (0x114C4 <= c && c <= 0x114C5)
        || c == 0x114C7
        || (0x11580 <= c && c <= 0x115AE)
        || (0x115D8 <= c && c <= 0x115DB)
        || (0x11600 <= c && c <= 0x1162F)
        || c == 0x11644
        || (0x11680 <= c && c <= 0x116AA)
        || c == 0x116B8
        || (0x11700 <= c && c <= 0x1171A)
        || (0x11740 <= c && c <= 0x11746)
        || (0x11800 <= c && c <= 0x1182B)
        || (0x118A0 <= c && c <= 0x118DF)
        || (0x118FF <= c && c <= 0x11906)
        || c == 0x11909
        || (0x1190C <= c && c <= 0x11913)
        || (0x11915 <= c && c <= 0x11916)
        || (0x11918 <= c && c <= 0x1192F)
        || c == 0x1193F
        || c == 0x11941
        || (0x119A0 <= c && c <= 0x119A7)
        || (0x119AA <= c && c <= 0x119D0)
        || c == 0x119E1
        || c == 0x119E3
        || c == 0x11A00
}

fn letter_block_7(c: u32) -> (r: bool)
    ensures
        r == spec_letter_block_7(c),
{
    c == 0x10F27
        || (0x10F30 <= c && c <= 0x10F45)
        || (0x10F70 <= c && c <= 0x10F81)
        || (0x10FB0 <= c && c <= 0x10FC4)
        || (0x10FE0 <= c && c <= 0x10FF6)
        || (0x11003 <= c && c <= 0x11037)
        || (0x11071 <= c && c <= 0x11072)
        || c == 0x11075
        || (0x11083 <= c && c <= 0x110AF)
        || (0x110D0 <= c && c <= 0x110E8)
        || (0x11103 <= c && c <= 0x11126)
        || c == 0x11144
        || c == 0x11147
        || (0x11150 <= c && c <= 0x11172)
        || c == 0x11176
        || (0x11183 <= c && c <= 0x111B2)
        || (0x111C1 <= c && c <= 0x111C4)
        || c == 0x111DA
        || c == 0x111DC
        || (0x11200 <= c && c <= 0x11211)
        || (0x11213 <= c && c <= 0x1122B)
        || (0x11280 <= c && c <= 0x11286)
        || c == 0x11288
        || (0x1128A <= c && c <= 0x1128D)
        || (0x1128F <= c && c <= 0x1129D)
        || (0x1129F <= c && c <= 0x112A8)
        || (0x112B0 <= c && c <= 0x112DE)
        || (0x11305 <= c && c <= 0x1130C)
        || (0x1130F <= c && c <= 0x11310)
        || (0x11313 <= c && c <= 0x11328)
        || (0x1132A <= c && c <= 0x11330)
        || (0x11332 <= c && c <= 0x11333)
        || (0x11335 <= c && c <= 0x11339)
        || c == 0x1133D
        || c == 0x11350
        || (0x1135D <= c && c <= 0x11361)
        || (0x11400 <= c && c <= 0x11434)
        || (0x11447 <= c && c <= 0x1144A)
        || (0x1145F <= c && c <= 0x11461)
        || (0x11480 <= c && c <= 0x114AF)
        || (0x114C4 <= c && c <= 0x114C5)
        || c == 0x114C7
        || (0x11580 <= c && c <= 0x115AE)
        || (0x115D8 <= c && c <= 0x115DB)
        || (0x11600 <= c && c <= 0x1162F)
        || c == 0x11644
        || (0x11680 <= c && c <= 0x116AA)
        || c == 0x116B8
        || (0x11700 <= c && c <= 0x1171A)
        || (0x11740 <= c && c <= 0x11746)
        || (0x11800 <= c && c <= 0x1182B)
        || (0x118A0 <= c && c <= 0x118DF)
        || (0x118FF <= c && c <= 0x11906)
        || c == 0x11909
        || (0x1190C <= c && c <= 0x11913)
        || (0x11915 <= c && c <= 0x11916)
        || (0x11918 <= c && c <= 0x1192F)
        || c == 0x1193F
        || c == 0x11941
        || (0x119A0 <= c && c <= 0x119A7)
        || (0x119AA <= c && c <= 0x119D0)
        || c == 0x119E1
        || c == 0x119E3
        || c == 0x11A00
}

pub open spec fn spec_letter_block_8(c: u32) -> bool {
    (0x11A0B <= c && c <= 0x11A32)
        || c == 0x11A3A
        || c == 0x11A50
        || (0x11A5C <= c && c <= 0x11A89)
        || c == 0x11A9D
        || (0x11AB0 <= c && c <= 0x11AF8)
        || (0x11C00 <= c && c <= 0x11C08)
        || (0x11C0A <= c && c <= 0x11C2E)
        || c == 0x11C40
        || (0x11C72 <= c && c <= 0x11C8F)
        || (0x11D00 <= c && c <= 0x11D06)
        || (0x11D08 <= c && c <= 0x11D09)
        || (0x11D0B <= c && c <= 0x11D30)
        || c == 0x11D46
        || (0x11D60 <= c && c <= 0x11D65)
        || (0x11D67 <= c && c <= 0x11D68)
        || (0x11D6A <= c && c <= 0x11D89)
        || c == 0x11D98
        || (0x11EE0 <= c && c <= 0x11EF2)
        || c == 0x11FB0
        || (0x12000 <= c && c <= 0x12399)
        || (0x12480 <= c && c <= 0x12543)
        || (0x12F90 <= c && c <= 0x12FF0)
        || (0x13000 <= c && c <= 0x1342E)
        || (0x14400 <= c && c <= 0x14646)
        || (0x16800 <= c && c <= 0x16A38)
        || (0x16A40 <= c && c <= 0x16A5E)
        || (0x16A70 <= c && c <= 0x16ABE)
        || (0x16AD0 <= c && c <= 0x16AED)
        || (0x16B00 <= c && c <= 0x16B2F)
        || (0x16B40 <= c && c <= 0x16B43)
        || (0x16B63 <= c && c <= 0x16B77)
        || (0x16B7D <= c && c <= 0x16B8F)
        || (0x16E40 <= c && c <= 0x16E7F)
        || (0x16F00 <= c && c <= 0x16F4A)
        || c == 0x16F50
        || (0x16F93 <= c && c <= 0x16F9F)
        || (0x16FE0 <= c && c <= 0x16FE1)
        || c == 0x16FE3
        || (0x17000 <= c && c <= 0x187F7)
        || (0x18800 <= c && c <= 0x18CD5)
        || (0x18D00 <= c && c <= 0x18D08)
        || (0x1AFF0 <= c && c <= 0x1AFF3)
        || (0x1AFF5 <= c && c <= 0x1AFFB)
        || (0x1AFFD <= c && c <= 0x1AFFE)
        || (0x1B000 <= c && c <= 0x1B122)
        || (0x1B150 <= c && c <= 0x1B152)
        || (0x1B164 <= c && c <= 0x1B167)
        || (0x1B170 <= c && c <= 0x1B2FB)
        || (0x1BC00 <= c && c <= 0x1BC6A)
        || (0x1BC70 <= c && c <= 0x1BC7C)
        || (0x1BC80 <= c && c <= 0x1BC88)
        || (0x1BC90 <= c && c <= 0x1BC99)
        || (0x1D400 <= c && c <= 0x1D454)
        || (0x1D456 <= c && c <= 0x1D49C)
        || (0x1D49E <= c && c <= 0x1D49F)
        || c == 0x1D4A2
        || (0x1D4A5 <= c && c <= 0x1D4A6)
        || (0x1D4A9 <= c && c <= 0x1D4AC)
        || (0x1D4AE <= c && c <= 0x1D4B9)
        || c == 0x1D4BB
        || (0x1D4BD <= c && c <= 0x1D4C3)
        || (0x1D4C5 <= c && c <= 0x1D505)
        || (0x1D507 <= c && c <= 0x1D50A)
}

fn letter_block_8(c: u32) -> (r: bool)
    ensures
        r == spec_letter_block_8(c),
{
    (0x11A0B <= c && c <= 0x11A32)
        || c == 0x11A3A
        || c == 0x11A50
        || (0x11A5C <= c && c <= 0x11A89)
        || c == 0x11A9D
        || (0x11AB0 <= c && c <= 0x11AF8)
        || (0x11C00 <= c && c <= 0x11C08)
        || (0x11C0A <= c && c <= 0x11C2E)
        || c == 0x11C40
        || (0x11C72 <= c && c <= 0x11C8F)
        || (0x11D00 <= c && c <= 0x11D06)
        || (0x11D08 <= c && c <= 0x11D09)
        || (0x11D0B <= c && c <= 0x11D30)
        || c == 0x11D46
        || (0x11D60 <= c && c <= 0x11D65)
        || (0x11D67 <= c && c <= 0x11D68)
        || (0x11D6A <= c && c <= 0x11D89)
        || c == 0x11D98
        || (0x11EE0 <= c && c <= 0x11EF2)
        || c == 0x11FB0
        || (0x12000 <= c && c <= 0x12399)
        || (0x12480 <= c && c <= 0x12543)
        || (0x12F90 <= c && c <= 0x12FF0)
        || (0x13000 <= c && c <= 0x1342E)
        || (0x14400 <= c && c <= 0x14646)
        || (0x16800 <= c && c <= 0x16A38)
        || (0x16A40 <= c && c <= 0x16A5E)
        || (0x16A70 <= c && c <= 0x16ABE)
        || (0x16AD0 <= c && c <= 0x16AED)
        || (0x16B00 <= c && c <= 0x16B2F)
        || (0x16B40 <= c && c <= 0x16B43)
        || (0x16B63 <= c && c <= 0x16B77)
        || (0x16B7D <= c && c <= 0x16B8F)
        || (0x16E40 <= c && c <= 0x16E7F)
        || (0x16F00 <= c && c <= 0x16F4A)
        || c == 0x16F50
        || (0x16F93 <= c && c <= 0x16F9F)
        || (0x16FE0 <= c && c <= 0x16FE1)
        || c == 0x16FE3
        || (0x17000 <= c && c <= 0x187F7)
        || (0x18800 <= c && c <= 0x18CD5)
        || (0x18D00 <= c && c <= 0x18D08)
        || (0x1AFF0 <= c && c <= 0x1AFF3)
        || (0x1AFF5 <= c && c <= 0x1AFFB)
        || (0x1AFFD <= c && c <= 0x1AFFE)
        || (0x1B000 <= c && c <= 0x1B122)
        || (0x1B150 <= c && c <= 0x1B152)
        || (0x1B164 <= c && c <= 0x1B167)
        || (0x1B170 <= c && c <= 0x1B2FB)
        || (0x1BC00 <= c && c <= 0x1BC6A)
        || (0x1BC70 <= c && c <= 0x1BC7C)
        || (0x1BC80 <= c && c <= 0x1BC88)
        || (0x1BC90 <= c && c <= 0x1BC99)
        || (0x1D400 <= c && c <= 0x1D454)
        || (0x1D456 <= c && c <= 0x1D49C)
        || (0x1D49E <= c && c <= 0x1D49F)
        || c == 0x1D4A2
        || (0x1D4A5 <= c && c <= 0x1D4A6)
        || (0x1D4A9 <= c && c <= 0x1D4AC)
        || (0x1D4AE <= c && c <= 0x1D4B9)
        || c == 0x1D4BB
        || (0x1D4BD <= c && c <= 0x1D4C3)
        || (0x1D4C5 <= c && c <= 0x1D505)
        || (0x1D507 <= c && c <= 0x1D50A)
}

pub open spec fn spec_letter_block_9(c: u32) -> bool {
    (0x1D50D <= c && c <= 0x1D514)
        || (0x1D516 <= c && c <= 0x1D51C)
        || (0x1D51E <= c && c <= 0x1D539)
        || (0x1D53B <= c && c <= 0x1D53E)
        || (0x1D540 <= c && c <= 0x1D544)
        || c == 0x1D546
        || (0x1D54A <= c && c <= 0x1D550)
        || (0x1D552 <= c && c <= 0x1D6A5)
        || (0x1D6A8 <= c && c <= 0x1D6C0)
        || (0x1D6C2 <= c && c <= 0x1D6DA)
        || (0x1D6DC <= c && c <= 0x1D6FA)
        || (0x1D6FC <= c && c <= 0x1D714)
        || (0x1D716 <= c && c <= 0x1D734)
        || (0x1D736 <= c && c <= 0x1D74E)
        || (0x1D750 <= c && c <= 0x1D76E)
        || (0x1D770 <= c && c <= 0x1D788)
        || (0x1D78A <= c && c <= 0x1D7A8)
        || (0x1D7AA <= c && c <= 0x1D7C2)
        || (0x1D7C4 <= c && c <= 0x1D7CB)
        || (0x1DF00 <= c && c <= 0x1DF1E)
        || (0x1E100 <= c && c <= 0x1E12C)
        || (0x1E137 <= c && c <= 0x1E13D)
        || c == 0x1E14E
        || (0x1E290 <= c && c <= 0x1E2AD)
        || (0x1E2C0 <= c && c <= 0x1E2EB)
        || (0x1E7E0 <= c && c <= 0x1E7E6)
        || (0x1E7E8 <= c && c <= 0x1E7EB)
        || (0x1E7ED <= c && c <= 0x1E7EE)
        || (0x1E7F0 <= c && c <= 0x1E7FE)
        || (0x1E800 <= c && c <= 0x1E8C4)
        || (0x1E900 <= c && c <= 0x1E943)
        || c == 0x1E94B
        || (0x1EE00 <= c && c <= 0x1EE03)
        || (0x1EE05 <= c && c <= 0x1EE1F)
        || (0x1EE21 <= c && c <= 0x1EE22)
        || c == 0x1EE24
        || c == 0x1EE27
        || (0x1EE29 <= c && c <= 0x1EE32)
        || (0x1EE34 <= c && c <= 0x1EE37)
        || c == 0x1EE39
        || c == 0x1EE3B
        || c == 0x1EE42
        || c == 0x1EE47
        || c == 0x1EE49
        || c == 0x1EE4B
        || (0x1EE4D <= c && c <= 0x1EE4F)
        || (0x1EE51 <= c && c <= 0x1EE52)
        || c == 0x1EE54
        || c == 0x1EE57
        || c == 0x1EE59
        || c == 0x1EE5B
        || c == 0x1EE5D
        || c == 0x1EE5F
        || (0x1EE61 <= c && c <= 0x1EE62)
        || c == 0x1EE64
        || (0x1EE67 <= c && c <= 0x1EE6A)
        || (0x1EE6C <= c && c <= 0x1EE72)
        || (0x1EE74 <= c && c <= 0x1EE77)
        || (0x1EE79 <= c && c <= 0x1EE7C)
        || c == 0x1EE7E
        || (0x1EE80 <= c && c <= 0x1EE89)
        || (0x1EE8B <= c && c <= 0x1EE9B)
        || (0x1EEA1 <= c && c <= 0x1EEA3)
        || (0x1EEA5 <= c && c <= 0x1EEA9)
}

fn letter_block_9(c: u32) -> (r: bool)
    ensures
        r == spec_letter_block_9(c),
{
    (0x1D50D <= c && c <= 0x1D514)
        || (0x1D516 <= c && c <= 0x1D51C)
        || (0x1D51E <= c && c <= 0x1D539)
        || (0x1D53B <= c && c <= 0x1D53E)
        || (0x1D540 <= c && c <= 0x1D544)
        || c == 0x1D546
        || (0x1D54A <= c && c <= 0x1D550)
        || (0x1D552 <= c && c <= 0x1D6A5)
        || (0x1D6A8 <= c && c <= 0x1D6C0)
        || (0x1D6C2 <= c && c <= 0x1D6DA)
        || (0x1D6DC <= c && c <= 0x1D6FA)
        || (0x1D6FC <= c && c <= 0x1D714)
        || (0x1D716 <= c && c <= 0x1D734)
        || (0x1D736 <= c && c <= 0x1D74E)
        || (0x1D750 <= c && c <= 0x1D76E)
        || (0x1D770 <= c && c <= 0x1D788)
        || (0x1D78A <= c && c <= 0x1D7A8)
        || (0x1D7AA <= c && c <= 0x1D7C2)
        || (0x1D7C4 <= c && c <= 0x1D7CB)
        || (0x1DF00 <= c && c <= 0x1DF1E)
        || (0x1E100 <= c && c <= 0x1E12C)
        || (0x1E137 <= c && c <= 0x1E13D)
        || c == 0x1E14E
        || (0x1E290 <= c && c <= 0x1E2AD)
        || (0x1E2C0 <= c && c <= 0x1E2EB)
        || (0x1E7E0 <= c && c <= 0x1E7E6)
        || (0x1E7E8 <= c && c <= 0x1E7EB)
        || (0x1E7ED <= c && c <= 0x1E7EE)
        || (0x1E7F0 <= c && c <= 0x1E7FE)
        || (0x1E800 <= c && c <= 0x1E8C4)
        || (0x1E900 <= c && c <= 0x1E943)
        || c == 0x1E94B
        || (0x1EE00 <= c && c <= 0x1EE03)
        || (0x1EE05 <= c && c <= 0x1EE1F)
        || (0x1EE21 <= c && c <= 0x1EE22)
        || c == 0x1EE24
        || c == 0x1EE27
        || (0x1EE29 <= c && c <= 0x1EE32)
        || (0x1EE34 <= c && c <= 0x1EE37)
        || c == 0x1EE39
        || c == 0x1EE3B
        || c == 0x1EE42
        || c == 0x1EE47
        || c == 0x1EE49
        || c == 0x1EE4B
        || (0x1EE4D <= c && c <= 0x1EE4F)
        || (0x1EE51 <= c && c <= 0x1EE52)
        || c == 0x1EE54
        || c == 0x1EE57
        || c == 0x1EE59
        || c == 0x1EE5B
        || c == 0x1EE5D
        || c == 0x1EE5F
        || (0x1EE61 <= c && c <= 0x1EE62)
        || c == 0x1EE64
        || (0x1EE67 <= c && c <= 0x1EE6A)
        || (0x1EE6C <= c && c <= 0x1EE72)
        || (0x1EE74 <= c && c <= 0x1EE77)
        || (0x1EE79 <= c && c <= 0x1EE7C)
        || c == 0x1EE7E
        || (0x1EE80 <= c && c <= 0x1EE89)
        || (0x1EE8B <= c && c <= 0x1EE9B)
        || (0x1EEA1 <= c && c <= 0x1EEA3)
        || (0x1EEA5 <= c && c <= 0x1EEA9)
}

pub open spec fn spec_letter_block_10(c: u32) -> bool {
    (0x1EEAB <= c && c <= 0x1EEBB)
        || (0x20000 <= c && c <= 0x2A6DF)
        || (0x2A700 <= c && c <= 0x2B738)
        || (0x2B740 <= c && c <= 0x2B81D)
        || (0x2B820 <= c && c <= 0x2CEA1)
        || (0x2CEB0 <= c && c <= 0x2EBE0)
        || (0x2F800 <= c && c <= 0x2FA1D)
        || (0x30000 <= c && c <= 0x3134A)
}

fn letter_block_10(c: u32) -> (r: bool)
    ensures
        r == spec_letter_block_10(c),
{
    (0x1EEAB <= c && c <= 0x1EEBB)
        || (0x20000 <= c && c <= 0x2A6DF)
        || (0x2A700 <= c && c <= 0x2B738)
        || (0x2B740 <= c && c <= 0x2B81D)
        || (0x2B820 <= c && c <= 0x2CEA1)
        || (0x2CEB0 <= c && c <= 0x2EBE0)
        || (0x2F800 <= c && c <= 0x2FA1D)
        || (0x30000 <= c && c <= 0x3134A)
}

/// The letter categories.
#[verifier::opaque]
pub open spec fn spec_is_letter_cpt(c: u32) -> bool {
    spec_letter_block_0(c)
        || spec_letter_block_1(c)
        || spec_letter_block_2(c)
        || spec_letter_block_3(c)
        || spec_letter_block_4(c)
        || spec_letter_block_5(c)
        || spec_letter_block_6(c)
        || spec_letter_block_7(c)
        || spec_letter_block_8(c)
        || spec_letter_block_9(c)
        || spec_letter_block_10(c)
}

/// The letter categories.
pub fn is_letter_cpt(c: u32) -> (r: bool)
    ensures
        r == spec_is_letter_cpt(c),
{
    proof {
        reveal(spec_is_letter_cpt);
    }
    letter_block_0(c)
        || letter_block_1(c)
        || letter_block_2(c)
        || letter_block_3(c)
        || letter_block_4(c)
        || letter_block_5(c)
        || letter_block_6(c)
        || letter_block_7(c)
        || letter_block_8(c)
        || letter_block_9(c)
        || letter_block_10(c)
}

pub open spec fn spec_number_block_0(c: u32) -> bool {
    (0x30 <= c && c <= 0x39)
        || (0xB2 <= c && c <= 0xB3)
        || c == 0xB9
        || (0xBC <= c && c <= 0xBE)
        || (0x660 <= c && c <= 0x669)
        || (0x6F0 <= c && c <= 0x6F9)
        || (0x7C0 <= c && c <= 0x7C9)
        || (0x966 <= c && c <= 0x96F)
        || (0x9E6 <= c && c <= 0x9EF)
        || (0x9F4 <= c && c <= 0x9F9)
        || (0xA66 <= c && c <= 0xA6F)
        || (0xAE6 <= c && c <= 0xAEF)
        || (0xB66 <= c && c <= 0xB6F)
        || (0xB72 <= c && c <= 0xB77)
        || (0xBE6 <= c && c <= 0xBF2)
        || (0xC66 <= c && c <= 0xC6F)
        || (0xC78 <= c && c <= 0xC7E)
        || (0xCE6 <= c && c <= 0xCEF)
        || (0xD58 <= c && c <= 0xD5E)
        || (0xD66 <= c && c <= 0xD78)
        || (0xDE6 <= c && c <= 0xDEF)
        || (0xE50 <= c && c <= 0xE59)
        || (0xED0 <= c && c <= 0xED9)
        || (0xF20 <= c && c <= 0xF33)
        || (0x1040 <= c && c <= 0x1049)
        || (0x1090 <= c && c <= 0x1099)
        || (0x1369 <= c && c <= 0x137C)
        || (0x16EE <= c && c <= 0x16F0)
        || (0x17E0 <= c && c <= 0x17E9)
        || (0x17F0 <= c && c <= 0x17F9)
        || (0x1810 <= c && c <= 0x1819)
        || (0x1946 <= c && c <= 0x194F)
        || (0x19D0 <= c && c <= 0x19DA)
        || (0x1A80 <= c && c <= 0x1A89)
        || (0x1A90 <= c && c <= 0x1A99)
        || (0x1B50 <= c && c <= 0x1B59)
        || (0x1BB0 <= c && c <= 0x1BB9)
        || (0x1C40 <= c && c <= 0x1C49)
        || (0x1C50 <= c && c <= 0x1C59)
        || c == 0x2070
        || (0x2074 <= c && c <= 0x2079)
        || (0x2080 <= c && c <= 0x2089)
        || (0x2150 <= c && c <= 0x2182)
        || (0x2185 <= c && c <= 0x2189)
        || (0x2460 <= c && c <= 0x249B)
        || (0x24EA <= c && c <= 0x24FF)
        || (0x2776 <= c && c <= 0x2793)
        || c == 0x2CFD
        || c == 0x3007
        || (0x3021 <= c && c <= 0x3029)
        || (0x3038 <= c && c <= 0x303A)
        || (0x3192 <= c && c <= 0x3195)
        || (0x3220 <= c && c <= 0x3229)
        || (0x3248 <= c && c <= 0x324F)
        || (0x3251 <= c && c <= 0x325F)
        || (0x3280 <= c && c <= 0x3289)
        || (0x32B1 <= c && c <= 0x32BF)
        || (0xA620 <= c && c <= 0xA629)
        || (0xA6E6 <= c && c <= 0xA6EF)
        || (0xA830 <= c && c <= 0xA835)
        || (0xA8D0 <= c && c <= 0xA8D9)
        || (0xA900 <= c && c <= 0xA909)
        || (0xA9D0 <= c && c <= 0xA9D9)
        || (0xA9F0 <= c && c <= 0xA9F9)
}

fn number_block_0(c: u32) -> (r: bool)
    ensures
        r == spec_number_block_0(c),
{
    (0x30 <= c && c <= 0x39)
        || (0xB2 <= c && c <= 0xB3)
        || c == 0xB9
        || (0xBC <= c && c <= 0xBE)
        || (0x660 <= c && c <= 0x669)
        || (0x6F0 <= c && c <= 0x6F9)
        || (0x7C0 <= c && c <= 0x7C9)
        || (0x966 <= c && c <= 0x96F)
        || (0x9E6 <= c && c <= 0x9EF)
        || (0x9F4 <= c && c <= 0x9F9)
        || (0xA66 <= c && c <= 0xA6F)
        || (0xAE6 <= c && c <= 0xAEF)
        || (0xB66 <= c && c <= 0xB6F)
        || (0xB72 <= c && c <= 0xB77)
        || (0xBE6 <= c && c <= 0xBF2)
        || (0xC66 <= c && c <= 0xC6F)
        || (0xC78 <= c && c <= 0xC7E)
        || (0xCE6 <= c && c <= 0xCEF)
        || (0xD58 <= c && c <= 0xD5E)
        || (0xD66 <= c && c <= 0xD78)
        || (0xDE6 <= c && c <= 0xDEF)
        || (0xE50 <= c && c <= 0xE59)
        || (0xED0 <= c && c <= 0xED9)
        || (0xF20 <= c && c <= 0xF33)
        || (0x1040 <= c && c <= 0x1049)
        || (0x1090 <= c && c <= 0x1099)
        || (0x1369 <= c && c <= 0x137C)
        || (0x16EE <= c && c <= 0x16F0)
        || (0x17E0 <= c && c <= 0x17E9)
        || (0x17F0 <= c && c <= 0x17F9)
        || (0x1810 <= c && c <= 0x1819)
        || (0x1946 <= c && c <= 0x194F)
        || (0x19D0 <= c && c <= 0x19DA)
        || (0x1A80 <= c && c <= 0x1A89)
        || (0x1A90 <= c && c <= 0x1A99)
        || (0x1B50 <= c && c <= 0x1B59)
        || (0x1BB0 <= c && c <= 0x1BB9)
        || (0x1C40 <= c && c <= 0x1C49)
        || (0x1C50 <= c && c <= 0x1C59)
        || c == 0x2070
        || (0x2074 <= c && c <= 0x2079)
        || (0x2080 <= c && c <= 0x2089)
        || (0x2150 <= c && c <= 0x2182)
        || (0x2185 <= c && c <= 0x2189)
        || (0x2460 <= c && c <= 0x249B)
        || (0x24EA <= c && c <= 0x24FF)
        || (0x2776 <= c && c <= 0x2793)
        || c == 0x2CFD
        || c == 0x3007
        || (0x3021 <= c && c <= 0x3029)
        || (0x3038 <= c && c <= 0x303A)
        || (0x3192 <= c && c <= 0x3195)
        || (0x3220 <= c && c <= 0x3229)
        || (0x3248 <= c && c <= 0x324F)
        || (0x3251 <= c && c <= 0x325F)
        || (0x3280 <= c && c <= 0x3289)
        || (0x32B1 <= c && c <= 0x32BF)
        || (0xA620 <= c && c <= 0xA629)
        || (0xA6E6 <= c && c <= 0xA6EF)
        || (0xA830 <= c && c <= 0xA835)
        || (0xA8D0 <= c && c <= 0xA8D9)
        || (0xA900 <= c && c <= 0xA909)
        || (0xA9D0 <= c && c <= 0xA9D9)
        || (0xA9F0 <= c && c <= 0xA9F9)
}

pub open spec fn spec_number_block_1(c: u32) -> bool {
    (0xAA50 <= c && c <= 0xAA59)
        || (0xABF0 <= c && c <= 0xABF9)
        || (0xFF10 <= c && c <= 0xFF19)
        || (0x10107 <= c && c <= 0x10133)
        || (0x10140 <= c && c <= 0x10178)
        || (0x1018A <= c && c <= 0x1018B)
        || (0x102E1 <= c && c <= 0x102FB)
        || (0x10320 <= c && c <= 0x10323)
        || c == 0x10341
        || c == 0x1034A
        || (0x103D1 <= c && c <= 0x103D5)
        || (0x104A0 <= c && c <= 0x104A9)
        || (0x10858 <= c && c <= 0x1085F)
        || (0x10879 <= c && c <= 0x1087F)
        || (0x108A7 <= c && c <= 0x108AF)
        || (0x108FB <= c && c <= 0x108FF)
        || (0x10916 <= c && c <= 0x1091B)
        || (0x109BC <= c && c <= 0x109BD)
        || (0x109C0 <= c && c <= 0x109CF)
        || (0x109D2 <= c && c <= 0x109FF)
        || (0x10A40 <= c && c <= 0x10A48)
        || (0x10A7D <= c && c <= 0x10A7E)
        || (0x10A9D <= c && c <= 0x10A9F)
        || (0x10AEB <= c && c <= 0x10AEF)
        || (0x10B58 <= c && c <= 0x10B5F)
        || (0x10B78 <= c && c <= 0x10B7F)
        || (0x10BA9 <= c && c <= 0x10BAF)
        || (0x10CFA <= c && c <= 0x10CFF)
        || (0x10D30 <= c && c <= 0x10D39)
        || (0x10E60 <= c && c <= 0x10E7E)
        || (0x10F1D <= c && c <= 0x10F26)
        || (0x10F51 <= c && c <= 0x10F54)
        || (0x10FC5 <= c && c <= 0x10FCB)
        || (0x11052 <= c && c <= 0x1106F)
        || (0x110F0 <= c && c <= 0x110F9)
        || (0x11136 <= c && c <= 0x1113F)
        || (0x111D0 <= c && c <= 0x111D9)
        || (0x111E1 <= c && c <= 0x111F4)
        || (0x112F0 <= c && c <= 0x112F9)
        || (0x11450 <= c && c <= 0x11459)
        || (0x114D0 <= c && c <= 0x114D9)
        || (0x11650 <= c && c <= 0x11659)
        || (0x116C0 <= c && c <= 0x116C9)
        || (0x11730 <= c && c <= 0x1173B)
        || (0x118E0 <= c && c <= 0x118F2)
        || (0x11950 <= c && c <= 0x11959)
        || (0x11C50 <= c && c <= 0x11C6C)
        || (0x11D50 <= c && c <= 0x11D59)
        || (0x11DA0 <= c && c <= 0x11DA9)
        || (0x11FC0 <= c && c <= 0x11FD4)
        || (0x12400 <= c && c <= 0x1246E)
        || (0x16A60 <= c && c <= 0x16A69)
        || (0x16AC0 <= c && c <= 0x16AC9)
        || (0x16B50 <= c && c <= 0x16B59)
        || (0x16B5B <= c && c <= 0x16B61)
        || (0x16E80 <= c && c <= 0x16E96)
        || (0x1D2E0 <= c && c <= 0x1D2F3)
        || (0x1D360 <= c && c <= 0x1D378)
        || (0x1D7CE <= c && c <= 0x1D7FF)
        || (0x1E140 <= c && c <= 0x1E149)
        || (0x1E2F0 <= c && c <= 0x1E2F9)
        || (0x1E8C7 <= c && c <= 0x1E8CF)
        || (0x1E950 <= c && c <= 0x1E959)
        || (0x1EC71 <= c && c <= 0x1ECAB)
}

fn number_block_1(c: u32) -> (r: bool)
    ensures
        r == spec_number_block_1(c),
{
    (0xAA50 <= c && c <= 0xAA59)
        || (0xABF0 <= c && c <= 0xABF9)
        || (0xFF10 <= c && c <= 0xFF19)
        || (0x10107 <= c && c <= 0x10133)
        || (0x10140 <= c && c <= 0x10178)
        || (0x1018A <= c && c <= 0x1018B)
        || (0x102E1 <= c && c <= 0x102FB)
        || (0x10320 <= c && c <= 0x10323)
        || c == 0x10341
        || c == 0x1034A
        || (0x103D1 <= c && c <= 0x103D5)
        || (0x104A0 <= c && c <= 0x104A9)
        || (0x10858 <= c && c <= 0x1085F)
        || (0x10879 <= c && c <= 0x1087F)
        || (0x108A7 <= c && c <= 0x108AF)
        || (0x108FB <= c && c <= 0x108FF)
        || (0x10916 <= c && c <= 0x1091B)
        || (0x109BC <= c && c <= 0x109BD)
        || (0x109C0 <= c && c <= 0x109CF)
        || (0x109D2 <= c && c <= 0x109FF)
        || (0x10A40 <= c && c <= 0x10A48)
        || (0x10A7D <= c && c <= 0x10A7E)
        || (0x10A9D <= c && c <= 0x10A9F)
        || (0x10AEB <= c && c <= 0x10AEF)
        || (0x10B58 <= c && c <= 0x10B5F)
        || (0x10B78 <= c && c <= 0x10B7F)
        || (0x10BA9 <= c && c <= 0x10BAF)
        || (0x10CFA <= c && c <= 0x10CFF)
        || (0x10D30 <= c && c <= 0x10D39)
        || (0x10E60 <= c && c <= 0x10E7E)
        || (0x10F1D <= c && c <= 0x10F26)
        || (0x10F51 <= c && c <= 0x10F54)
        || (0x10FC5 <= c && c <= 0x10FCB)
        || (0x11052 <= c && c <= 0x1106F)
        || (0x110F0 <= c && c <= 0x110F9)
        || (0x11136 <= c && c <= 0x1113F)
        || (0x111D0 <= c && c <= 0x111D9)
        || (0x111E1 <= c && c <= 0x111F4)
        || (0x112F0 <= c && c <= 0x112F9)
        || (0x11450 <= c && c <= 0x11459)
        || (0x114D0 <= c && c <= 0x114D9)
        || (0x11650 <= c && c <= 0x11659)
        || (0x116C0 <= c && c <= 0x116C9)
        || (0x11730 <= c && c <= 0x1173B)
        || (0x118E0 <= c && c <= 0x118F2)
        || (0x11950 <= c && c <= 0x11959)
        || (0x11C50 <= c && c <= 0x11C6C)
        || (0x11D50 <= c && c <= 0x11D59)
        || (0x11DA0 <= c && c <= 0x11DA9)
        || (0x11FC0 <= c && c <= 0x11FD4)
        || (0x12400 <= c && c <= 0x1246E)
        || (0x16A60 <= c && c <= 0x16A69)
        || (0x16AC0 <= c && c <= 0x16AC9)
        || (0x16B50 <= c && c <= 0x16B59)
        || (0x16B5B <= c && c <= 0x16B61)
        || (0x16E80 <= c && c <= 0x16E96)
        || (0x1D2E0 <= c && c <= 0x1D2F3)
        || (0x1D360 <= c && c <= 0x1D378)
        || (0x1D7CE <= c && c <= 0x1D7FF)
        || (0x1E140 <= c && c <= 0x1E149)
        || (0x1E2F0 <= c && c <= 0x1E2F9)
        || (0x1E8C7 <= c && c <= 0x1E8CF)
        || (0x1E950 <= c && c <= 0x1E959)
        || (0x1EC71 <= c && c <= 0x1ECAB)
}

pub open spec fn spec_number_block_2(c: u32) -> bool {
    (0x1ECAD <= c && c <= 0x1ECAF)
        || (0x1ECB1 <= c && c <= 0x1ECB4)
        || (0x1ED01 <= c && c <= 0x1ED2D)
        || (0x1ED2F <= c && c <= 0x1ED3D)
        || (0x1F100 <= c && c <= 0x1F10C)
        || (0x1FBF0 <= c && c <= 0x1FBF9)
}

fn number_block_2(c: u32) -> (r: bool)
    ensures
        r == spec_number_block_2(c),
{
    (0x1ECAD <= c && c <= 0x1ECAF)
        || (0x1ECB1 <= c && c <= 0x1ECB4)
        || (0x1ED01 <= c && c <= 0x1ED2D)
        || (0x1ED2F <= c && c <= 0x1ED3D)
        || (0x1F100 <= c && c <= 0x1F10C)
        || (0x1FBF0 <= c && c <= 0x1FBF9)
}

/// The number categories.
#[verifier::opaque]
pub open spec fn spec_is_number_cpt(c: u32) -> bool {
    spec_number_block_0(c)
        || spec_number_block_1(c)
        || spec_number_block_2(c)
}

/// The number categories.
pub fn is_number_cpt(c: u32) -> (r: bool)
    ensures
        r == spec_is_number_cpt(c),
{
    proof {
        reveal(spec_is_number_cpt);
    }
    number_block_0(c)
        || number_block_1(c)
        || number_block_2(c)
}

pub open spec fn spec_punct_block_0(c: u32) -> bool {
    (0x21 <= c && c <= 0x23)
        || (0x25 <= c && c <= 0x2A)
        || (0x2C <= c && c <= 0x2F)
        || (0x3A <= c && c <= 0x3B)
        || (0x3F <= c && c <= 0x40)
        || (0x5B <= c && c <= 0x5D)
        || c == 0x5F
        || c == 0x7B
        || c == 0x7D
        || c == 0xA1
        || c == 0xA7
        || c == 0xAB
        || (0xB6 <= c && c <= 0xB7)
        || c == 0xBB
        || c == 0xBF
        || c == 0x37E
        || c == 0x387
        || (0x55A <= c && c <= 0x55F)
        || (0x589 <= c && c <= 0x58A)
        || c == 0x5BE
        || c == 0x5C0
        || c == 0x5C3
        || c == 0x5C6
        || (0x5F3 <= c && c <= 0x5F4)
        || (0x609 <= c && c <= 0x60A)
        || (0x60C <= c && c <= 0x60D)
        || c == 0x61B
        || (0x61D <= c && c <= 0x61F)
        || (0x66A <= c && c <= 0x66D)
        || c == 0x6D4
        || (0x700 <= c && c <= 0x70D)
        || (0x7F7 <= c && c <= 0x7F9)
        || (0x830 <= c && c <= 0x83E)
        || c == 0x85E
        || (0x964 <= c && c <= 0x965)
        || c == 0x970
        || c == 0x9FD
        || c == 0xA76
        || c == 0xAF0
        || c == 0xC77
        || c == 0xC84
        || c == 0xDF4
        || c == 0xE4F
        || (0xE5A <= c && c <= 0xE5B)
        || (0xF04 <= c && c <= 0xF12)
        || c == 0xF14
        || (0xF3A <= c && c <= 0xF3D)
        || c == 0xF85
        || (0xFD0 <= c && c <= 0xFD4)
        || (0xFD9 <= c && c <= 0xFDA)
        || (0x104A <= c && c <= 0x104F)
        || c == 0x10FB
        || (0x1360 <= c && c <= 0x1368)
        || c == 0x1400
        || c == 0x166E
        || (0x169B <= c && c <= 0x169C)
        || (0x16EB <= c && c <= 0x16ED)
        || (0x1735 <= c && c <= 0x1736)
        || (0x17D4 <= c && c <= 0x17D6)
        || (0x17D8 <= c && c <= 0x17DA)
        || (0x1800 <= c && c <= 0x180A)
        || (0x1944 <= c && c <= 0x1945)
        || (0x1A1E <= c && c <= 0x1A1F)
        || (0x1AA0 <= c && c <= 0x1AA6)
}

fn punct_block_0(c: u32) -> (r: bool)
    ensures
        r == spec_punct_block_0(c),
{
    (0x21 <= c && c <= 0x23)
        || (0x25 <= c && c <= 0x2A)
        || (0x2C <= c && c <= 0x2F)
        || (0x3A <= c && c <= 0x3B)
        || (0x3F <= c && c <= 0x40)
        || (0x5B <= c && c <= 0x5D)
        || c == 0x5F
        || c == 0x7B
        || c == 0x7D
        || c == 0xA1
        || c == 0xA7
        || c == 0xAB
        || (0xB6 <= c && c <= 0xB7)
        || c == 0xBB
        || c == 0xBF
        || c == 0x37E
        || c == 0x387
        || (0x55A <= c && c <= 0x55F)
        || (0x589 <= c && c <= 0x58A)
        || c == 0x5BE
        || c == 0x5C0
        || c == 0x5C3
        || c == 0x5C6
        || (0x5F3 <= c && c <= 0x5F4)
        || (0x609 <= c && c <= 0x60A)
        || (0x60C <= c && c <= 0x60D)
        || c == 0x61B
        || (0x61D <= c && c <= 0x61F)
        || (0x66A <= c && c <= 0x66D)
        || c == 0x6D4
        || (0x700 <= c && c <= 0x70D)
        || (0x7F7 <= c && c <= 0x7F9)
        || (0x830 <= c && c <= 0x83E)
        || c == 0x85E
        || (0x964 <= c && c <= 0x965)
        || c == 0x970
        || c == 0x9FD
        || c == 0xA76
        || c == 0xAF0
        || c == 0xC77
        || c == 0xC84
        || c == 0xDF4
        || c == 0xE4F
        || (0xE5A <= c && c <= 0xE5B)
        || (0xF04 <= c && c <= 0xF12)
        || c == 0xF14
        || (0xF3A <= c && c <= 0xF3D)
        || c == 0xF85
        || (0xFD0 <= c && c <= 0xFD4)
        || (0xFD9 <= c && c <= 0xFDA)
        || (0x104A <= c && c <= 0x104F)
        || c == 0x10FB
        || (0x1360 <= c && c <= 0x1368)
        || c == 0x1400
        || c == 0x166E
        || (0x169B <= c && c <= 0x169C)
        || (0x16EB <= c && c <= 0x16ED)
        || (0x1735 <= c && c <= 0x1736)
        || (0x17D4 <= c && c <= 0x17D6)
        || (0x17D8 <= c && c <= 0x17DA)
        || (0x1800 <= c && c <= 0x180A)
        || (0x1944 <= c && c <= 0x1945)
        || (0x1A1E <= c && c <= 0x1A1F)
        || (0x1AA0 <= c && c <= 0x1AA6)
}

pub open spec fn spec_punct_block_1(c: u32) -> bool {
    (0x1AA8 <= c && c <= 0x1AAD)
        || (0x1B5A <= c && c <= 0x1B60)
        || (0x1B7D <= c && c <= 0x1B7E)
        || (0x1BFC <= c && c <= 0x1BFF)
        || (0x1C3B <= c && c <= 0x1C3F)
        || (0x1C7E <= c && c <= 0x1C7F)
        || (0x1CC0 <= c && c <= 0x1CC7)
        || c == 0x1CD3
        || (0x2010 <= c && c <= 0x2027)
        || (0x2030 <= c && c <= 0x2043)
        || (0x2045 <= c && c <= 0x2051)
        || (0x2053 <= c && c <= 0x205E)
        || (0x207D <= c && c <= 0x207E)
        || (0x208D <= c && c <= 0x208E)
        || (0x2308 <= c && c <= 0x230B)
        || (0x2329 <= c && c <= 0x232A)
        || (0x2768 <= c && c <= 0x2775)
        || (0x27C5 <= c && c <= 0x27C6)
        || (0x27E6 <= c && c <= 0x27EF)
        || (0x2983 <= c && c <= 0x2998)
        || (0x29D8 <= c && c <= 0x29DB)
        || (0x29FC <= c && c <= 0x29FD)
        || (0x2CF9 <= c && c <= 0x2CFC)
        || (0x2CFE <= c && c <= 0x2CFF)
        || c == 0x2D70
        || (0x2E00 <= c && c <= 0x2E2E)
        || (0x2E30 <= c && c <= 0x2E4F)
        || (0x2E52 <= c && c <= 0x2E5D)
        || (0x3001 <= c && c <= 0x3003)
        || (0x3008 <= c && c <= 0x3011)
        || (0x3014 <= c && c <= 0x301F)
        || c == 0x3030
        || c == 0x303D
        || c == 0x30A0
        || c == 0x30FB
        || (0xA4FE <= c && c <= 0xA4FF)
        || (0xA60D <= c && c <= 0xA60F)
        || c == 0xA673
        || c == 0xA67E
        || (0xA6F2 <= c && c <= 0xA6F7)
        || (0xA874 <= c && c <= 0xA877)
        || (0xA8CE <= c && c <= 0xA8CF)
        || (0xA8F8 <= c && c <= 0xA8FA)
        || c == 0xA8FC
        || (0xA92E <= c && c <= 0xA92F)
        || c == 0xA95F
        || (0xA9C1 <= c && c <= 0xA9CD)
        || (0xA9DE <= c && c <= 0xA9DF)
        || (0xAA5C <= c && c <= 0xAA5F)
        || (0xAADE <= c && c <= 0xAADF)
        || (0xAAF0 <= c && c <= 0xAAF1)
        || c == 0xABEB
        || (0xFD3E <= c && c <= 0xFD3F)
        || (0xFE10 <= c && c <= 0xFE19)
        || (0xFE30 <= c && c <= 0xFE52)
        || (0xFE54 <= c && c <= 0xFE61)
        || c == 0xFE63
        || c == 0xFE68
        || (0xFE6A <= c && c <= 0xFE6B)
        || (0xFF01 <= c && c <= 0xFF03)
        || (0xFF05 <= c && c <= 0xFF0A)
        || (0xFF0C <= c && c <= 0xFF0F)
        || (0xFF1A <= c && c <= 0xFF1B)
        || (0xFF1F <= c && c <= 0xFF20)
}

fn punct_block_1(c: u32) -> (r: bool)
    ensures
        r == spec_punct_block_1(c),
{
    (0x1AA8 <= c && c <= 0x1AAD)
        || (0x1B5A <= c && c <= 0x1B60)
        || (0x1B7D <= c && c <= 0x1B7E)
        || (0x1BFC <= c && c <= 0x1BFF)
        || (0x1C3B <= c && c <= 0x1C3F)
        || (0x1C7E <= c && c <= 0x1C7F)
        || (0x1CC0 <= c && c <= 0x1CC7)
        || c == 0x1CD3
        || (0x2010 <= c && c <= 0x2027)
        || (0x2030 <= c && c <= 0x2043)
        || (0x2045 <= c && c <= 0x2051)
        || (0x2053 <= c && c <= 0x205E)
        || (0x207D <= c && c <= 0x207E)
        || (0x208D <= c && c <= 0x208E)
        || (0x2308 <= c && c <= 0x230B)
        || (0x2329 <= c && c <= 0x232A)
        || (0x2768 <= c && c <= 0x2775)
        || (0x27C5 <= c && c <= 0x27C6)
        || (0x27E6 <= c && c <= 0x27EF)
        || (0x2983 <= c && c <= 0x2998)
        || (0x29D8 <= c && c <= 0x29DB)
        || (0x29FC <= c && c <= 0x29FD)
        || (0x2CF9 <= c && c <= 0x2CFC)
        || (0x2CFE <= c && c <= 0x2CFF)
        || c == 0x2D70
        || (0x2E00 <= c && c <= 0x2E2E)
        || (0x2E30 <= c && c <= 0x2E4F)
        || (0x2E52 <= c && c <= 0x2E5D)
        || (0x3001 <= c && c <= 0x3003)
        || (0x3008 <= c && c <= 0x3011)
        || (0x3014 <= c && c <= 0x301F)
        || c == 0x3030
        || c == 0x303D
        || c == 0x30A0
        || c == 0x30FB
        || (0xA4FE <= c && c <= 0xA4FF)
        || (0xA60D <= c && c <= 0xA60F)
        || c == 0xA673
        || c == 0xA67E
        || (0xA6F2 <= c && c <= 0xA6F7)
        || (0xA874 <= c && c <= 0xA877)
        || (0xA8CE <= c && c <= 0xA8CF)
        || (0xA8F8 <= c && c <= 0xA8FA)
        || c == 0xA8FC
        || (0xA92E <= c && c <= 0xA92F)
        || c == 0xA95F
        || (0xA9C1 <= c && c <= 0xA9CD)
        || (0xA9DE <= c && c <= 0xA9DF)
        || (0xAA5C <= c && c <= 0xAA5F)
        || (0xAADE <= c && c <= 0xAADF)
        || (0xAAF0 <= c && c <= 0xAAF1)
        || c == 0xABEB
        || (0xFD3E <= c && c <= 0xFD3F)
        || (0xFE10 <= c && c <= 0xFE19)
        || (0xFE30 <= c && c <= 0xFE52)
        || (0xFE54 <= c && c <= 0xFE61)
        || c == 0xFE63
        || c == 0xFE68
        || (0xFE6A <= c && c <= 0xFE6B)
        || (0xFF01 <= c && c <= 0xFF03)
        || (0xFF05 <= c && c <= 0xFF0A)
        || (0xFF0C <= c && c <= 0xFF0F)
        || (0xFF1A <= c && c <= 0xFF1B)
        || (0xFF1F <= c && c <= 0xFF20)
}

pub open spec fn spec_punct_block_2(c: u32) -> bool {
    (0xFF3B <= c && c <= 0xFF3D)
        || c == 0xFF3F
        || c == 0xFF5B
        || c == 0xFF5D
        || (0xFF5F <= c && c <= 0xFF65)
        || (0x10100 <= c && c <= 0x10102)
        || c == 0x1039F
        || c == 0x103D0
        || c == 0x1056F
        || c == 0x10857
        || c == 0x1091F
        || c == 0x1093F
        || (0x10A50 <= c && c <= 0x10A58)
        || c == 0x10A7F
        || (0x10AF0 <= c && c <= 0x10AF6)
        || (0x10B39 <= c && c <= 0x10B3F)
        || (0x10B99 <= c && c <= 0x10B9C)
        || c == 0x10EAD
        || (0x10F55 <= c && c <= 0x10F59)
        || (0x10F86 <= c && c <= 0x10F89)
        || (0x11047 <= c && c <= 0x1104D)
        || (0x110BB <= c && c <= 0x110BC)
        || (0x110BE <= c && c <= 0x110C1)
        || (0x11140 <= c && c <= 0x11143)
        || (0x11174 <= c && c <= 0x11175)
        || (0x111C5 <= c && c <= 0x111C8)
        || c == 0x111CD
        || c == 0x111DB
        || (0x111DD <= c && c <= 0x111DF)
        || (0x11238 <= c && c <= 0x1123D)
        || c == 0x112A9
        || (0x1144B <= c && c <= 0x1144F)
        || (0x1145A <= c && c <= 0x1145B)
        || c == 0x1145D
        || c == 0x114C6
        || (0x115C1 <= c && c <= 0x115D7)
        || (0x11641 <= c && c <= 0x11643)
        || (0x11660 <= c && c <= 0x1166C)
        || c == 0x116B9
        || (0x1173C <= c && c <= 0x1173E)
        || c == 0x1183B
        || (0x11944 <= c && c <= 0x11946)
        || c == 0x119E2
        || (0x11A3F <= c && c <= 0x11A46)
        || (0x11A9A <= c && c <= 0x11A9C)
        || (0x11A9E <= c && c <= 0x11AA2)
        || (0x11C41 <= c && c <= 0x11C45)
        || (0x11C70 <= c && c <= 0x11C71)
        || (0x11EF7 <= c && c <= 0x11EF8)
        || c == 0x11FFF
        || (0x12470 <= c && c <= 0x12474)
        || (0x12FF1 <= c && c <= 0x12FF2)
        || (0x16A6E <= c && c <= 0x16A6F)
        || c == 0x16AF5
        || (0x16B37 <= c && c <= 0x16B3B)
        || c == 0x16B44
        || (0x16E97 <= c && c <= 0x16E9A)
        || c == 0x16FE2
        || c == 0x1BC9F
        || (0x1DA87 <= c && c <= 0x1DA8B)
        || (0x1E95E <= c && c <= 0x1E95F)
}

fn punct_block_2(c: u32) -> (r: bool)
    ensures
        r == spec_punct_block_2(c),
{
    (0xFF3B <= c && c <= 0xFF3D)
        || c == 0xFF3F
        || c == 0xFF5B
        || c == 0xFF5D
        || (0xFF5F <= c && c <= 0xFF65)
        || (0x10100 <= c && c <= 0x10102)
        || c == 0x1039F
        || c == 0x103D0
        || c == 0x1056F
        || c == 0x10857
        || c == 0x1091F
        || c == 0x1093F
        || (0x10A50 <= c && c <= 0x10A58)
        || c == 0x10A7F
        || (0x10AF0 <= c && c <= 0x10AF6)
        || (0x10B39 <= c && c <= 0x10B3F)
        || (0x10B99 <= c && c <= 0x10B9C)
        || c == 0x10EAD
        || (0x10F55 <= c && c <= 0x10F59)
        || (0x10F86 <= c && c <= 0x10F89)
        || (0x11047 <= c && c <= 0x1104D)
        || (0x110BB <= c && c <= 0x110BC)
        || (0x110BE <= c && c <= 0x110C1)
        || (0x11140 <= c && c <= 0x11143)
        || (0x11174 <= c && c <= 0x11175)
        || (0x111C5 <= c && c <= 0x111C8)
        || c == 0x111CD
        || c == 0x111DB
        || (0x111DD <= c && c <= 0x111DF)
        || (0x11238 <= c && c <= 0x1123D)
        || c == 0x112A9
        || (0x1144B <= c && c <= 0x1144F)
        || (0x1145A <= c && c <= 0x1145B)
        || c == 0x1145D
        || c == 0x114C6
        || (0x115C1 <= c && c <= 0x115D7)
        || (0x11641 <= c && c <= 0x11643)
        || (0x11660 <= c && c <= 0x1166C)
        || c == 0x116B9
        || (0x1173C <= c && c <= 0x1173E)
        || c == 0x1183B
        || (0x11944 <= c && c <= 0x11946)
        || c == 0x119E2
        || (0x11A3F <= c && c <= 0x11A46)
        || (0x11A9A <= c && c <= 0x11A9C)
        || (0x11A9E <= c && c <= 0x11AA2)
        || (0x11C41 <= c && c <= 0x11C45)
        || (0x11C70 <= c && c <= 0x11C71)
        || (0x11EF7 <= c && c <= 0x11EF8)
        || c == 0x11FFF
        || (0x12470 <= c && c <= 0x12474)
        || (0x12FF1 <= c && c <= 0x12FF2)
        || (0x16A6E <= c && c <= 0x16A6F)
        || c == 0x16AF5
        || (0x16B37 <= c && c <= 0x16B3B)
        || c == 0x16B44
        || (0x16E97 <= c && c <= 0x16E9A)
        || c == 0x16FE2
        || c == 0x1BC9F
        || (0x1DA87 <= c && c <= 0x1DA8B)
        || (0x1E95E <= c && c <= 0x1E95F)
}

/// The punctuation categories.
#[verifier::opaque]
pub open spec fn spec_is_punctuation_cpt(c: u32) -> bool {
    spec_punct_block_0(c)
        || spec_punct_block_1(c)
        || spec_punct_block_2(c)
}

/// The punctuation categories.
pub fn is_punctuation_cpt(c: u32) -> (r: bool)
    ensures
        r == spec_is_punctuation_cpt(c),
{
    proof {
        reveal(spec_is_punctuation_cpt);
    }
    punct_block_0(c)
        || punct_block_1(c)
        || punct_block_2(c)
}

pub open spec fn spec_symbol_block_0(c: u32) -> bool {
    c == 0x24
        || c == 0x2B
        || (0x3C <= c && c <= 0x3E)
        || c == 0x5E
        || c == 0x60
        || c == 0x7C
        || c == 0x7E
        || (0xA2 <= c && c <= 0xA6)
        || (0xA8 <= c && c <= 0xA9)
        || c == 0xAC
        || (0xAE <= c && c <= 0xB1)
        || c == 0xB4
        || c == 0xB8
        || c == 0xD7
        || c == 0xF7
        || (0x2C2 <= c && c <= 0x2C5)
        || (0x2D2 <= c && c <= 0x2DF)
        || (0x2E5 <= c && c <= 0x2EB)
        || c == 0x2ED
        || (0x2EF <= c && c <= 0x2FF)
        || c == 0x375
        || (0x384 <= c && c <= 0x385)
        || c == 0x3F6
        || c == 0x482
        || (0x58D <= c && c <= 0x58F)
        || (0x606 <= c && c <= 0x608)
        || c == 0x60B
        || (0x60E <= c && c <= 0x60F)
        || c == 0x6DE
        || c == 0x6E9
        || (0x6FD <= c && c <= 0x6FE)
        || c == 0x7F6
        || (0x7FE <= c && c <= 0x7FF)
        || c == 0x888
        || (0x9F2 <= c && c <= 0x9F3)
        || (0x9FA <= c && c <= 0x9FB)
        || c == 0xAF1
        || c == 0xB70
        || (0xBF3 <= c && c <= 0xBFA)
        || c == 0xC7F
        || c == 0xD4F
        || c == 0xD79
        || c == 0xE3F
        || (0xF01 <= c && c <= 0xF03)
        || c == 0xF13
        || (0xF15 <= c && c <= 0xF17)
        || (0xF1A <= c && c <= 0xF1F)
        || c == 0xF34
        || c == 0xF36
        || c == 0xF38
        || (0xFBE <= c && c <= 0xFC5)
        || (0xFC7 <= c && c <= 0xFCC)
        || (0xFCE <= c && c <= 0xFCF)
        || (0xFD5 <= c && c <= 0xFD8)
        || (0x109E <= c && c <= 0x109F)
        || (0x1390 <= c && c <= 0x1399)
        || c == 0x166D
        || c == 0x17DB
        || c == 0x1940
        || (0x19DE <= c && c <= 0x19FF)
        || (0x1B61 <= c && c <= 0x1B6A)
        || (0x1B74 <= c && c <= 0x1B7C)
        || c == 0x1FBD
        || (0x1FBF <= c && c <= 0x1FC1)
}

fn symbol_block_0(c: u32) -> (r: bool)
    ensures
        r == spec_symbol_block_0(c),
{
    c == 0x24
        || c == 0x2B
        || (0x3C <= c && c <= 0x3E)
        || c == 0x5E
        || c == 0x60
        || c == 0x7C
        || c == 0x7E
        || (0xA2 <= c && c <= 0xA6)
        || (0xA8 <= c && c <= 0xA9)
        || c == 0xAC
        || (0xAE <= c && c <= 0xB1)
        || c == 0xB4
        || c == 0xB8
        || c == 0xD7
        || c == 0xF7
        || (0x2C2 <= c && c <= 0x2C5)
        || (0x2D2 <= c && c <= 0x2DF)
        || (0x2E5 <= c && c <= 0x2EB)
        || c == 0x2ED
        || (0x2EF <= c && c <= 0x2FF)
        || c == 0x375
        || (0x384 <= c && c <= 0x385)
        || c == 0x3F6
        || c == 0x482
        || (0x58D <= c && c <= 0x58F)
        || (0x606 <= c && c <= 0x608)
        || c == 0x60B
        || (0x60E <= c && c <= 0x60F)
        || c == 0x6DE
        || c == 0x6E9
        || (0x6FD <= c && c <= 0x6FE)
        || c == 0x7F6
        || (0x7FE <= c && c <= 0x7FF)
        || c == 0x888
        || (0x9F2 <= c && c <= 0x9F3)
        || (0x9FA <= c && c <= 0x9FB)
        || c == 0xAF1
        || c == 0xB70
        || (0xBF3 <= c && c <= 0xBFA)
        || c == 0xC7F
        || c == 0xD4F
        || c == 0xD79
        || c == 0xE3F
        || (0xF01 <= c && c <= 0xF03)
        || c == 0xF13
        || (0xF15 <= c && c <= 0xF17)
        || (0xF1A <= c && c <= 0xF1F)
        || c == 0xF34
        || c == 0xF36
        || c == 0xF38
        || (0xFBE <= c && c <= 0xFC5)
        || (0xFC7 <= c && c <= 0xFCC)
        || (0xFCE <= c && c <= 0xFCF)
        || (0xFD5 <= c && c <= 0xFD8)
        || (0x109E <= c && c <= 0x109F)
        || (0x1390 <= c && c <= 0x1399)
        || c == 0x166D
        || c == 0x17DB
        || c == 0x1940
        || (0x19DE <= c && c <= 0x19FF)
        || (0x1B61 <= c && c <= 0x1B6A)
        || (0x1B74 <= c && c <= 0x1B7C)
        || c == 0x1FBD
        || (0x1FBF <= c && c <= 0x1FC1)
}

pub open spec fn spec_symbol_block_1(c: u32) -> bool {
    (0x1FCD <= c && c <= 0x1FCF)
        || (0x1FDD <= c && c <= 0x1FDF)
        || (0x1FED <= c && c <= 0x1FEF)
        || (0x1FFD <= c && c <= 0x1FFE)
        || c == 0x2044
        || c == 0x2052
        || (0x207A <= c && c <= 0x207C)
        || (0x208A <= c && c <= 0x208C)
        || (0x20A0 <= c && c <= 0x20C0)
        || (0x2100 <= c && c <= 0x2101)
        || (0x2103 <= c && c <= 0x2106)
        || (0x2108 <= c && c <= 0x2109)
        || c == 0x2114
        || (0x2116 <= c && c <= 0x2118)
        || (0x211E <= c && c <= 0x2123)
        || c == 0x2125
        || c == 0x2127
        || c == 0x2129
        || c == 0x212E
        || (0x213A <= c && c <= 0x213B)
        || (0x2140 <= c && c <= 0x2144)
        || (0x214A <= c && c <= 0x214D)
        || c == 0x214F
        || (0x218A <= c && c <= 0x218B)
        || (0x2190 <= c && c <= 0x2307)
        || (0x230C <= c && c <= 0x2328)
        || (0x232B <= c && c <= 0x2426)
        || (0x2440 <= c && c <= 0x244A)
        || (0x249C <= c && c <= 0x24E9)
        || (0x2500 <= c && c <= 0x2767)
        || (0x2794 <= c && c <= 0x27C4)
        || (0x27C7 <= c && c <= 0x27E5)
        || (0x27F0 <= c && c <= 0x2982)
        || (0x2999 <= c && c <= 0x29D7)
        || (0x29DC <= c && c <= 0x29FB)
        || (0x29FE <= c && c <= 0x2B73)
        || (0x2B76 <= c && c <= 0x2B95)
        || (0x2B97 <= c && c <= 0x2BFF)
        || (0x2CE5 <= c && c <= 0x2CEA)
        || (0x2E50 <= c && c <= 0x2E51)
        || (0x2E80 <= c && c <= 0x2E99)
        || (0x2E9B <= c && c <= 0x2EF3)
        || (0x2F00 <= c && c <= 0x2FD5)
        || (0x2FF0 <= c && c <= 0x2FFB)
        || c == 0x3004
        || (0x3012 <= c && c <= 0x3013)
        || c == 0x3020
        || (0x3036 <= c && c <= 0x3037)
        || (0x303E <= c && c <= 0x303F)
        || (0x309B <= c && c <= 0x309C)
        || (0x3190 <= c && c <= 0x3191)
        || (0x3196 <= c && c <= 0x319F)
        || (0x31C0 <= c && c <= 0x31E3)
        || (0x3200 <= c && c <= 0x321E)
        || (0x322A <= c && c <= 0x3247)
        || c == 0x3250
        || (0x3260 <= c && c <= 0x327F)
        || (0x328A <= c && c <= 0x32B0)
        || (0x32C0 <= c && c <= 0x33FF)
        || (0x4DC0 <= c && c <= 0x4DFF)
        || (0xA490 <= c && c <= 0xA4C6)
        || (0xA700 <= c && c <= 0xA716)
        || (0xA720 <= c && c <= 0xA721)
        || (0xA789 <= c && c <= 0xA78A)
}

fn symbol_block_1(c: u32) -> (r: bool)
    ensures
        r == spec_symbol_block_1(c),
{
    (0x1FCD <= c && c <= 0x1FCF)
        || (0x1FDD <= c && c <= 0x1FDF)
        || (0x1FED <= c && c <= 0x1FEF)
        || (0x1FFD <= c && c <= 0x1FFE)
        || c == 0x2044
        || c == 0x2052
        || (0x207A <= c && c <= 0x207C)
        || (0x208A <= c && c <= 0x208C)
        || (0x20A0 <= c && c <= 0x20C0)
        || (0x2100 <= c && c <= 0x2101)
        || (0x2103 <= c && c <= 0x2106)
        || (0x2108 <= c && c <= 0x2109)
        || c == 0x2114
        || (0x2116 <= c && c <= 0x2118)
        || (0x211E <= c && c <= 0x2123)
        || c == 0x2125
        || c == 0x2127
        || c == 0x2129
        || c == 0x212E
        || (0x213A <= c && c <= 0x213B)
        || (0x2140 <= c && c <= 0x2144)
        || (0x214A <= c && c <= 0x214D)
        || c == 0x214F
        || (0x218A <= c && c <= 0x218B)
        || (0x2190 <= c && c <= 0x2307)
        || (0x230C <= c && c <= 0x2328)
        || (0x232B <= c && c <= 0x2426)
        || (0x2440 <= c && c <= 0x244A)
        || (0x249C <= c && c <= 0x24E9)
        || (0x2500 <= c && c <= 0x2767)
        || (0x2794 <= c && c <= 0x27C4)
        || (0x27C7 <= c && c <= 0x27E5)
        || (0x27F0 <= c && c <= 0x2982)
        || (0x2999 <= c && c <= 0x29D7)
        || (0x29DC <= c && c <= 0x29FB)
        || (0x29FE <= c && c <= 0x2B73)
        || (0x2B76 <= c && c <= 0x2B95)
        || (0x2B97 <= c && c <= 0x2BFF)
        || (0x2CE5 <= c && c <= 0x2CEA)
        || (0x2E50 <= c && c <= 0x2E51)
        || (0x2E80 <= c && c <= 0x2E99)
        || (0x2E9B <= c && c <= 0x2EF3)
        || (0x2F00 <= c && c <= 0x2FD5)
        || (0x2FF0 <= c && c <= 0x2FFB)
        || c == 0x3004
        || (0x3012 <= c && c <= 0x3013)
        || c == 0x3020
        || (0x3036 <= c && c <= 0x3037)
        || (0x303E <= c && c <= 0x303F)
        || (0x309B <= c && c <= 0x309C)
        || (0x3190 <= c && c <= 0x3191)
        || (0x3196 <= c && c <= 0x319F)
        || (0x31C0 <= c && c <= 0x31E3)
        || (0x3200 <= c && c <= 0x321E)
        || (0x322A <= c && c <= 0x3247)
        || c == 0x3250
        || (0x3260 <= c && c <= 0x327F)
        || (0x328A <= c && c <= 0x32B0)
        || (0x32C0 <= c && c <= 0x33FF)
        || (0x4DC0 <= c && c <= 0x4DFF)
        || (0xA490 <= c && c <= 0xA4C6)
        || (0xA700 <= c && c <= 0xA716)
        || (0xA720 <= c && c <= 0xA721)
        || (0xA789 <= c && c <= 0xA78A)
}

pub open spec fn spec_symbol_block_2(c: u32) -> bool {
    (0xA828 <= c && c <= 0xA82B)
        || (0xA836 <= c && c <= 0xA839)
        || (0xAA77 <= c && c <= 0xAA79)
        || c == 0xAB5B
        || (0xAB6A <= c && c <= 0xAB6B)
        || c == 0xFB29
        || (0xFBB2 <= c && c <= 0xFBC2)
        || (0xFD40 <= c && c <= 0xFD4F)
        || c == 0xFDCF
        || (0xFDFC <= c && c <= 0xFDFF)
        || c == 0xFE62
        || (0xFE64 <= c && c <= 0xFE66)
        || c == 0xFE69
        || c == 0xFF04
        || c == 0xFF0B
        || (0xFF1C <= c && c <= 0xFF1E)
        || c == 0xFF3E
        || c == 0xFF40
        || c == 0xFF5C
        || c == 0xFF5E
        || (0xFFE0 <= c && c <= 0xFFE6)
        || (0xFFE8 <= c && c <= 0xFFEE)
        || (0xFFFC <= c && c <= 0xFFFD)
        || (0x10137 <= c && c <= 0x1013F)
        || (0x10179 <= c && c <= 0x10189)
        || (0x1018C <= c && c <= 0x1018E)
        || (0x10190 <= c && c <= 0x1019C)
        || c == 0x101A0
        || (0x101D0 <= c && c <= 0x101FC)
        || (0x10877 <= c && c <= 0x10878)
        || c == 0x10AC8
        || c == 0x1173F
        || (0x11FD5 <= c && c <= 0x11FF1)
        || (0x16B3C <= c && c <= 0x16B3F)
        || c == 0x16B45
        || c == 0x1BC9C
        || (0x1CF50 <= c && c <= 0x1CFC3)
        || (0x1D000 <= c && c <= 0x1D0F5)
        || (0x1D100 <= c && c <= 0x1D126)
        || (0x1D129 <= c && c <= 0x1D164)
        || (0x1D16A <= c && c <= 0x1D16C)
        || (0x1D183 <= c && c <= 0x1D184)
        || (0x1D18C <= c && c <= 0x1D1A9)
        || (0x1D1AE <= c && c <= 0x1D1EA)
        || (0x1D200 <= c && c <= 0x1D241)
        || c == 0x1D245
        || (0x1D300 <= c && c <= 0x1D356)
        || c == 0x1D6C1
        || c == 0x1D6DB
        || c == 0x1D6FB
        || c == 0x1D715
        || c == 0x1D735
        || c == 0x1D74F
        || c == 0x1D76F
        || c == 0x1D789
        || c == 0x1D7A9
        || c == 0x1D7C3
        || (0x1D800 <= c && c <= 0x1D9FF)
        || (0x1DA37 <= c && c <= 0x1DA3A)
        || (0x1DA6D <= c && c <= 0x1DA74)
        || (0x1DA76 <= c && c <= 0x1DA83)
        || (0x1DA85 <= c && c <= 0x1DA86)
        || c == 0x1E14F
        || c == 0x1E2FF
}

fn symbol_block_2(c: u32) -> (r: bool)
    ensures
        r == spec_symbol_block_2(c),
{
    (0xA828 <= c && c <= 0xA82B)
        || (0xA836 <= c && c <= 0xA839)
        || (0xAA77 <= c && c <= 0xAA79)
        || c == 0xAB5B
        || (0xAB6A <= c && c <= 0xAB6B)
        || c == 0xFB29
        || (0xFBB2 <= c && c <= 0xFBC2)
        || (0xFD40 <= c && c <= 0xFD4F)
        || c == 0xFDCF
        || (0xFDFC <= c && c <= 0xFDFF)
        || c == 0xFE62
        || (0xFE64 <= c && c <= 0xFE66)
        || c == 0xFE69
        || c == 0xFF04
        || c == 0xFF0B
        || (0xFF1C <= c && c <= 0xFF1E)
        || c == 0xFF3E
        || c == 0xFF40
        || c == 0xFF5C
        || c == 0xFF5E
        || (0xFFE0 <= c && c <= 0xFFE6)
        || (0xFFE8 <= c && c <= 0xFFEE)
        || (0xFFFC <= c && c <= 0xFFFD)
        || (0x10137 <= c && c <= 0x1013F)
        || (0x10179 <= c && c <= 0x10189)
        || (0x1018C <= c && c <= 0x1018E)
        || (0x10190 <= c && c <= 0x1019C)
        || c == 0x101A0
        || (0x101D0 <= c && c <= 0x101FC)
        || (0x10877 <= c && c <= 0x10878)
        || c == 0x10AC8
        || c == 0x1173F
        || (0x11FD5 <= c && c <= 0x11FF1)
        || (0x16B3C <= c && c <= 0x16B3F)
        || c == 0x16B45
        || c == 0x1BC9C
        || (0x1CF50 <= c && c <= 0x1CFC3)
        || (0x1D000 <= c && c <= 0x1D0F5)
        || (0x1D100 <= c && c <= 0x1D126)
        || (0x1D129 <= c && c <= 0x1D164)
        || (0x1D16A <= c && c <= 0x1D16C)
        || (0x1D183 <= c && c <= 0x1D184)
        || (0x1D18C <= c && c <= 0x1D1A9)
        || (0x1D1AE <= c && c <= 0x1D1EA)
        || (0x1D200 <= c && c <= 0x1D241)
        || c == 0x1D245
        || (0x1D300 <= c && c <= 0x1D356)
        || c == 0x1D6C1
        || c == 0x1D6DB
        || c == 0x1D6FB
        || c == 0x1D715
        || c == 0x1D735
        || c == 0x1D74F
        || c == 0x1D76F
        || c == 0x1D789
        || c == 0x1D7A9
        || c == 0x1D7C3
        || (0x1D800 <= c && c <= 0x1D9FF)
        || (0x1DA37 <= c && c <= 0x1DA3A)
        || (0x1DA6D <= c && c <= 0x1DA74)
        || (0x1DA76 <= c && c <= 0x1DA83)
        || (0x1DA85 <= c && c <= 0x1DA86)
        || c == 0x1E14F
        || c == 0x1E2FF
}

pub open spec fn spec_symbol_block_3(c: u32) -> bool {
    c == 0x1ECAC
        || c == 0x1ECB0
        || c == 0x1ED2E
        || (0x1EEF0 <= c && c <= 0x1EEF1)
        || (0x1F000 <= c && c <= 0x1F02B)
        || (0x1F030 <= c && c <= 0x1F093)
        || (0x1F0A0 <= c && c <= 0x1F0AE)
        || (0x1F0B1 <= c && c <= 0x1F0BF)
        || (0x1F0C1 <= c && c <= 0x1F0CF)
        || (0x1F0D1 <= c && c <= 0x1F0F5)
        || (0x1F10D <= c && c <= 0x1F1AD)
        || (0x1F1E6 <= c && c <= 0x1F202)
        || (0x1F210 <= c && c <= 0x1F23B)
        || (0x1F240 <= c && c <= 0x1F248)
        || (0x1F250 <= c && c <= 0x1F251)
        || (0x1F260 <= c && c <= 0x1F265)
        || (0x1F300 <= c && c <= 0x1F6D7)
        || (0x1F6DD <= c && c <= 0x1F6EC)
        || (0x1F6F0 <= c && c <= 0x1F6FC)
        || (0x1F700 <= c && c <= 0x1F773)
        || (0x1F780 <= c && c <= 0x1F7D8)
        || (0x1F7E0 <= c && c <= 0x1F7EB)
        || c == 0x1F7F0
        || (0x1F800 <= c && c <= 0x1F80B)
        || (0x1F810 <= c && c <= 0x1F847)
        || (0x1F850 <= c && c <= 0x1F859)
        || (0x1F860 <= c && c <= 0x1F887)
        || (0x1F890 <= c && c <= 0x1F8AD)
        || (0x1F8B0 <= c && c <= 0x1F8B1)
        || (0x1F900 <= c && c <= 0x1FA53)
        || (0x1FA60 <= c && c <= 0x1FA6D)
        || (0x1FA70 <= c && c <= 0x1FA74)
        || (0x1FA78 <= c && c <= 0x1FA7C)
        || (0x1FA80 <= c && c <= 0x1FA86)
        || (0x1FA90 <= c && c <= 0x1FAAC)
        || (0x1FAB0 <= c && c <= 0x1FABA)
        || (0x1FAC0 <= c && c <= 0x1FAC5)
        || (0x1FAD0 <= c && c <= 0x1FAD9)
        || (0x1FAE0 <= c && c <= 0x1FAE7)
        || (0x1FAF0 <= c && c <= 0x1FAF6)
        || (0x1FB00 <= c && c <= 0x1FB92)
        || (0x1FB94 <= c && c <= 0x1FBCA)
}

fn symbol_block_3(c: u32) -> (r: bool)
    ensures
        r == spec_symbol_block_3(c),
{
    c == 0x1ECAC
        || c == 0x1ECB0
        || c == 0x1ED2E
        || (0x1EEF0 <= c && c <= 0x1EEF1)
        || (0x1F000 <= c && c <= 0x1F02B)
        || (0x1F030 <= c && c <= 0x1F093)
        || (0x1F0A0 <= c && c <= 0x1F0AE)
        || (0x1F0B1 <= c && c <= 0x1F0BF)
        || (0x1F0C1 <= c && c <= 0x1F0CF)
        || (0x1F0D1 <= c && c <= 0x1F0F5)
        || (0x1F10D <= c && c <= 0x1F1AD)
        || (0x1F1E6 <= c && c <= 0x1F202)
        || (0x1F210 <= c && c <= 0x1F23B)
        || (0x1F240 <= c && c <= 0x1F248)
        || (0x1F250 <= c && c <= 0x1F251)
        || (0x1F260 <= c && c <= 0x1F265)
        || (0x1F300 <= c && c <= 0x1F6D7)
        || (0x1F6DD <= c && c <= 0x1F6EC)
        || (0x1F6F0 <= c && c <= 0x1F6FC)
        || (0x1F700 <= c && c <= 0x1F773)
        || (0x1F780 <= c && c <= 0x1F7D8)
        || (0x1F7E0 <= c && c <= 0x1F7EB)
        || c == 0x1F7F0
        || (0x1F800 <= c && c <= 0x1F80B)
        || (0x1F810 <= c && c <= 0x1F847)
        || (0x1F850 <= c && c <= 0x1F859)
        || (0x1F860 <= c && c <= 0x1F887)
        || (0x1F890 <= c && c <= 0x1F8AD)
        || (0x1F8B0 <= c && c <= 0x1F8B1)
        || (0x1F900 <= c && c <= 0x1FA53)
        || (0x1FA60 <= c && c <= 0x1FA6D)
        || (0x1FA70 <= c && c <= 0x1FA74)
        || (0x1FA78 <= c && c <= 0x1FA7C)
        || (0x1FA80 <= c && c <= 0x1FA86)
        || (0x1FA90 <= c && c <= 0x1FAAC)
        || (0x1FAB0 <= c && c <= 0x1FABA)
        || (0x1FAC0 <= c && c <= 0x1FAC5)
        || (0x1FAD0 <= c && c <= 0x1FAD9)
        || (0x1FAE0 <= c && c <= 0x1FAE7)
        || (0x1FAF0 <= c && c <= 0x1FAF6)
        || (0x1FB00 <= c && c <= 0x1FB92)
        || (0x1FB94 <= c && c <= 0x1FBCA)
}

/// The symbol categories.
#[verifier::opaque]
pub open spec fn spec_is_symbol_cpt(c: u32) -> bool {
    spec_symbol_block_0(c)
        || spec_symbol_block_1(c)
        || spec_symbol_block_2(c)
        || spec_symbol_block_3(c)
}

/// The symbol categories.
pub fn is_symbol_cpt(c: u32) -> (r: bool)
    ensures
        r == spec_is_symbol_cpt(c),
{
    proof {
        reveal(spec_is_symbol_cpt);
    }
    symbol_block_0(c)
        || symbol_block_1(c)
        || symbol_block_2(c)
        || symbol_block_3(c)
}

pub open spec fn spec_mark_block_0(c: u32) -> bool {
    (0x300 <= c && c <= 0x36F)
        || (0x483 <= c && c <= 0x489)
        || (0x591 <= c && c <= 0x5BD)
        || c == 0x5BF
        || (0x5C1 <= c && c <= 0x5C2)
        || (0x5C4 <= c && c <= 0x5C5)
        || c == 0x5C7
        || (0x610 <= c && c <= 0x61A)
        || (0x64B <= c && c <= 0x65F)
        || c == 0x670
        || (0x6D6 <= c && c <= 0x6DC)
        || (0x6DF <= c && c <= 0x6E4)
        || (0x6E7 <= c && c <= 0x6E8)
        || (0x6EA <= c && c <= 0x6ED)
        || c == 0x711
        || (0x730 <= c && c <= 0x74A)
        || (0x7A6 <= c && c <= 0x7B0)
        || (0x7EB <= c && c <= 0x7F3)
        || c == 0x7FD
        || (0x816 <= c && c <= 0x819)
        || (0x81B <= c && c <= 0x823)
        || (0x825 <= c && c <= 0x827)
        || (0x829 <= c && c <= 0x82D)
        || (0x859 <= c && c <= 0x85B)
        || (0x898 <= c && c <= 0x89F)
        || (0x8CA <= c && c <= 0x8E1)
        || (0x8E3 <= c && c <= 0x903)
        || (0x93A <= c && c <= 0x93C)
        || (0x93E <= c && c <= 0x94F)
        || (0x951 <= c && c <= 0x957)
        || (0x962 <= c && c <= 0x963)
        || (0x981 <= c && c <= 0x983)
        || c == 0x9BC
        || (0x9BE <= c && c <= 0x9C4)
        || (0x9C7 <= c && c <= 0x9C8)
        || (0x9CB <= c && c <= 0x9CD)
        || c == 0x9D7
        || (0x9E2 <= c && c <= 0x9E3)
        || c == 0x9FE
        || (0xA01 <= c && c <= 0xA03)
        || c == 0xA3C
        || (0xA3E <= c && c <= 0xA42)
        || (0xA47 <= c && c <= 0xA48)
        || (0xA4B <= c && c <= 0xA4D)
        || c == 0xA51
        || (0xA70 <= c && c <= 0xA71)
        || c == 0xA75
        || (0xA81 <= c && c <= 0xA83)
        || c == 0xABC
        || (0xABE <= c && c <= 0xAC5)
        || (0xAC7 <= c && c <= 0xAC9)
        || (0xACB <= c && c <= 0xACD)
        || (0xAE2 <= c && c <= 0xAE3)
        || (0xAFA <= c && c <= 0xAFF)
        || (0xB01 <= c && c <= 0xB03)
        || c == 0xB3C
        || (0xB3E <= c && c <= 0xB44)
        || (0xB47 <= c && c <= 0xB48)
        || (0xB4B <= c && c <= 0xB4D)
        || (0xB55 <= c && c <= 0xB57)
        || (0xB62 <= c && c <= 0xB63)
        || c == 0xB82
        || (0xBBE <= c && c <= 0xBC2)
        || (0xBC6 <= c && c <= 0xBC8)
}

fn mark_block_0(c: u32) -> (r: bool)
    ensures
        r == spec_mark_block_0(c),
{
    (0x300 <= c && c <= 0x36F)
        || (0x483 <= c && c <= 0x489)
        || (0x591 <= c && c <= 0x5BD)
        || c == 0x5BF
        || (0x5C1 <= c && c <= 0x5C2)
        || (0x5C4 <= c && c <= 0x5C5)
        || c == 0x5C7
        || (0x610 <= c && c <= 0x61A)
        || (0x64B <= c && c <= 0x65F)
        || c == 0x670
        || (0x6D6 <= c && c <= 0x6DC)
        || (0x6DF <= c && c <= 0x6E4)
        || (0x6E7 <= c && c <= 0x6E8)
        || (0x6EA <= c && c <= 0x6ED)
        || c == 0x711
        || (0x730 <= c && c <= 0x74A)
        || (0x7A6 <= c && c <= 0x7B0)
        || (0x7EB <= c && c <= 0x7F3)
        || c == 0x7FD
        || (0x816 <= c && c <= 0x819)
        || (0x81B <= c && c <= 0x823)
        || (0x825 <= c && c <= 0x827)
        || (0x829 <= c && c <= 0x82D)
        || (0x859 <= c && c <= 0x85B)
        || (0x898 <= c && c <= 0x89F)
        || (0x8CA <= c && c <= 0x8E1)
        || (0x8E3 <= c && c <= 0x903)
        || (0x93A <= c && c <= 0x93C)
        || (0x93E <= c && c <= 0x94F)
        || (0x951 <= c && c <= 0x957)
        || (0x962 <= c && c <= 0x963)
        || (0x981 <= c && c <= 0x983)
        || c == 0x9BC
        || (0x9BE <= c && c <= 0x9C4)
        || (0x9C7 <= c && c <= 0x9C8)
        || (0x9CB <= c && c <= 0x9CD)
        || c == 0x9D7
        || (0x9E2 <= c && c <= 0x9E3)
        || c == 0x9FE
        || (0xA01 <= c && c <= 0xA03)
        || c == 0xA3C
        || (0xA3E <= c && c <= 0xA42)
        || (0xA47 <= c && c <= 0xA48)
        || (0xA4B <= c && c <= 0xA4D)
        || c == 0xA51
        || (0xA70 <= c && c <= 0xA71)
        || c == 0xA75
        || (0xA81 <= c && c <= 0xA83)
        || c == 0xABC
        || (0xABE <= c && c <= 0xAC5)
        || (0xAC7 <= c && c <= 0xAC9)
        || (0xACB <= c && c <= 0xACD)
        || (0xAE2 <= c && c <= 0xAE3)
        || (0xAFA <= c && c <= 0xAFF)
        || (0xB01 <= c && c <= 0xB03)
        || c == 0xB3C
        || (0xB3E <= c && c <= 0xB44)
        || (0xB47 <= c && c <= 0xB48)
        || (0xB4B <= c && c <= 0xB4D)
        || (0xB55 <= c && c <= 0xB57)
        || (0xB62 <= c && c <= 0xB63)
        || c == 0xB82
        || (0xBBE <= c && c <= 0xBC2)
        || (0xBC6 <= c && c <= 0xBC8)
}

pub open spec fn spec_mark_block_1(c: u32) -> bool {
    (0xBCA <= c && c <= 0xBCD)
        || c == 0xBD7
        || (0xC00 <= c && c <= 0xC04)
        || c == 0xC3C
        || (0xC3E <= c && c <= 0xC44)
        || (0xC46 <= c && c <= 0xC48)
        || (0xC4A <= c && c <= 0xC4D)
        || (0xC55 <= c && c <= 0xC56)
        || (0xC62 <= c && c <= 0xC63)
        || (0xC81 <= c && c <= 0xC83)
        || c == 0xCBC
        || (0xCBE <= c && c <= 0xCC4)
        || (0xCC6 <= c && c <= 0xCC8)
        || (0xCCA <= c && c <= 0xCCD)
        || (0xCD5 <= c && c <= 0xCD6)
        || (0xCE2 <= c && c <= 0xCE3)
        || (0xD00 <= c && c <= 0xD03)
        || (0xD3B <= c && c <= 0xD3C)
        || (0xD3E <= c && c <= 0xD44)
        || (0xD46 <= c && c <= 0xD48)
        || (0xD4A <= c && c <= 0xD4D)
        || c == 0xD57
        || (0xD62 <= c && c <= 0xD63)
        || (0xD81 <= c && c <= 0xD83)
        || c == 0xDCA
        || (0xDCF <= c && c <= 0xDD4)
        || c == 0xDD6
        || (0xDD8 <= c && c <= 0xDDF)
        || (0xDF2 <= c && c <= 0xDF3)
        || c == 0xE31
        || (0xE34 <= c && c <= 0xE3A)
        || (0xE47 <= c && c <= 0xE4E)
        || c == 0xEB1
        || (0xEB4 <= c && c <= 0xEBC)
        || (0xEC8 <= c && c <= 0xECD)
        || (0xF18 <= c && c <= 0xF19)
        || c == 0xF35
        || c == 0xF37
        || c == 0xF39
        || (0xF3E <= c && c <= 0xF3F)
        || (0xF71 <= c && c <= 0xF84)
        || (0xF86 <= c && c <= 0xF87)
        || (0xF8D <= c && c <= 0xF97)
        || (0xF99 <= c && c <= 0xFBC)
        || c == 0xFC6
        || (0x102B <= c && c <= 0x103E)
        || (0x1056 <= c && c <= 0x1059)
        || (0x105E <= c && c <= 0x1060)
        || (0x1062 <= c && c <= 0x1064)
        || (0x1067 <= c && c <= 0x106D)
        || (0x1071 <= c && c <= 0x1074)
        || (0x1082 <= c && c <= 0x108D)
        || c == 0x108F
        || (0x109A <= c && c <= 0x109D)
        || (0x135D <= c && c <= 0x135F)
        || (0x1712 <= c && c <= 0x1715)
        || (0x1732 <= c && c <= 0x1734)
        || (0x1752 <= c && c <= 0x1753)
        || (0x1772 <= c && c <= 0x1773)
        || (0x17B4 <= c && c <= 0x17D3)
        || c == 0x17DD
        || (0x180B <= c && c <= 0x180D)
        || c == 0x180F
        || (0x1885 <= c && c <= 0x1886)
}

fn mark_block_1(c: u32) -> (r: bool)
    ensures
        r == spec_mark_block_1(c),
{
    (0xBCA <= c && c <= 0xBCD)
        || c == 0xBD7
        || (0xC00 <= c && c <= 0xC04)
        || c == 0xC3C
        || (0xC3E <= c && c <= 0xC44)
        || (0xC46 <= c && c <= 0xC48)
        || (0xC4A <= c && c <= 0xC4D)
        || (0xC55 <= c && c <= 0xC56)
        || (0xC62 <= c && c <= 0xC63)
        || (0xC81 <= c && c <= 0xC83)
        || c == 0xCBC
        || (0xCBE <= c && c <= 0xCC4)
        || (0xCC6 <= c && c <= 0xCC8)
        || (0xCCA <= c && c <= 0xCCD)
        || (0xCD5 <= c && c <= 0xCD6)
        || (0xCE2 <= c && c <= 0xCE3)
        || (0xD00 <= c && c <= 0xD03)
        || (0xD3B <= c && c <= 0xD3C)
        || (0xD3E <= c && c <= 0xD44)
        || (0xD46 <= c && c <= 0xD48)
        || (0xD4A <= c && c <= 0xD4D)
        || c == 0xD57
        || (0xD62 <= c && c <= 0xD63)
        || (0xD81 <= c && c <= 0xD83)
        || c == 0xDCA
        || (0xDCF <= c && c <= 0xDD4)
        || c == 0xDD6
        || (0xDD8 <= c && c <= 0xDDF)
        || (0xDF2 <= c && c <= 0xDF3)
        || c == 0xE31
        || (0xE34 <= c && c <= 0xE3A)
        || (0xE47 <= c && c <= 0xE4E)
        || c == 0xEB1
        || (0xEB4 <= c && c <= 0xEBC)
        || (0xEC8 <= c && c <= 0xECD)
        || (0xF18 <= c && c <= 0xF19)
        || c == 0xF35
        || c == 0xF37
        || c == 0xF39
        || (0xF3E <= c && c <= 0xF3F)
        || (0xF71 <= c && c <= 0xF84)
        || (0xF86 <= c && c <= 0xF87)
        || (0xF8D <= c && c <= 0xF97)
        || (0xF99 <= c && c <= 0xFBC)
        || c == 0xFC6
        || (0x102B <= c && c <= 0x103E)
        || (0x1056 <= c && c <= 0x1059)
        || (0x105E <= c && c <= 0x1060)
        || (0x1062 <= c && c <= 0x1064)
        || (0x1067 <= c && c <= 0x106D)
        || (0x1071 <= c && c <= 0x1074)
        || (0x1082 <= c && c <= 0x108D)
        || c == 0x108F
        || (0x109A <= c && c <= 0x109D)
        || (0x135D <= c && c <= 0x135F)
        || (0x1712 <= c && c <= 0x1715)
        || (0x1732 <= c && c <= 0x1734)
        || (0x1752 <= c && c <= 0x1753)
        || (0x1772 <= c && c <= 0x1773)
        || (0x17B4 <= c && c <= 0x17D3)
        || c == 0x17DD
        || (0x180B <= c && c <= 0x180D)
        || c == 0x180F
        || (0x1885 <= c && c <= 0x1886)
}

pub open spec fn spec_mark_block_2(c: u32) -> bool {
    c == 0x18A9
        || (0x1920 <= c && c <= 0x192B)
        || (0x1930 <= c && c <= 0x193B)
        || (0x1A17 <= c && c <= 0x1A1B)
        || (0x1A55 <= c && c <= 0x1A5E)
        || (0x1A60 <= c && c <= 0x1A7C)
        || c == 0x1A7F
        || (0x1AB0 <= c && c <= 0x1ACE)
        || (0x1B00 <= c && c <= 0x1B04)
        || (0x1B34 <= c && c <= 0x1B44)
        || (0x1B6B <= c && c <= 0x1B73)
        || (0x1B80 <= c && c <= 0x1B82)
        || (0x1BA1 <= c && c <= 0x1BAD)
        || (0x1BE6 <= c && c <= 0x1BF3)
        || (0x1C24 <= c && c <= 0x1C37)
        || (0x1CD0 <= c && c <= 0x1CD2)
        || (0x1CD4 <= c && c <= 0x1CE8)
        || c == 0x1CED
        || c == 0x1CF4
        || (0x1CF7 <= c && c <= 0x1CF9)
        || (0x1DC0 <= c && c <= 0x1DFF)
        || (0x20D0 <= c && c <= 0x20F0)
        || (0x2CEF <= c && c <= 0x2CF1)
        || c == 0x2D7F
        || (0x2DE0 <= c && c <= 0x2DFF)
        || (0x302A <= c && c <= 0x302F)
        || (0x3099 <= c && c <= 0x309A)
        || (0xA66F <= c && c <= 0xA672)
        || (0xA674 <= c && c <= 0xA67D)
        || (0xA69E <= c && c <= 0xA69F)
        || (0xA6F0 <= c && c <= 0xA6F1)
        || c == 0xA802
        || c == 0xA806
        || c == 0xA80B
        || (0xA823 <= c && c <= 0xA827)
        || c == 0xA82C
        || (0xA880 <= c && c <= 0xA881)
        || (0xA8B4 <= c && c <= 0xA8C5)
        || (0xA8E0 <= c && c <= 0xA8F1)
        || c == 0xA8FF
        || (0xA926 <= c && c <= 0xA92D)
        || (0xA947 <= c && c <= 0xA953)
        || (0xA980 <= c && c <= 0xA983)
        || (0xA9B3 <= c && c <= 0xA9C0)
        || c == 0xA9E5
        || (0xAA29 <= c && c <= 0xAA36)
        || c == 0xAA43
        || (0xAA4C <= c && c <= 0xAA4D)
        || (0xAA7B <= c && c <= 0xAA7D)
        || c == 0xAAB0
        || (0xAAB2 <= c && c <= 0xAAB4)
        || (0xAAB7 <= c && c <= 0xAAB8)
        || (0xAABE <= c && c <= 0xAABF)
        || c == 0xAAC1
        || (0xAAEB <= c && c <= 0xAAEF)
        || (0xAAF5 <= c && c <= 0xAAF6)
        || (0xABE3 <= c && c <= 0xABEA)
        || (0xABEC <= c && c <= 0xABED)
        || c == 0xFB1E
        || (0xFE00 <= c && c <= 0xFE0F)
        || (0xFE20 <= c && c <= 0xFE2F)
        || c == 0x101FD
        || c == 0x102E0
        || (0x10376 <= c && c <= 0x1037A)
}

fn mark_block_2(c: u32) -> (r: bool)
    ensures
        r == spec_mark_block_2(c),
{
    c == 0x18A9
        || (0x1920 <= c && c <= 0x192B)
        || (0x1930 <= c && c <= 0x193B)
        || (0x1A17 <= c && c <= 0x1A1B)
        || (0x1A55 <= c && c <= 0x1A5E)
        || (0x1A60 <= c && c <= 0x1A7C)
        || c == 0x1A7F
        || (0x1AB0 <= c && c <= 0x1ACE)
        || (0x1B00 <= c && c <= 0x1B04)
        || (0x1B34 <= c && c <= 0x1B44)
        || (0x1B6B <= c && c <= 0x1B73)
        || (0x1B80 <= c && c <= 0x1B82)
        || (0x1BA1 <= c && c <= 0x1BAD)
        || (0x1BE6 <= c && c <= 0x1BF3)
        || (0x1C24 <= c && c <= 0x1C37)
        || (0x1CD0 <= c && c <= 0x1CD2)
        || (0x1CD4 <= c && c <= 0x1CE8)
        || c == 0x1CED
        || c == 0x1CF4
        || (0x1CF7 <= c && c <= 0x1CF9)
        || (0x1DC0 <= c && c <= 0x1DFF)
        || (0x20D0 <= c && c <= 0x20F0)
        || (0x2CEF <= c && c <= 0x2CF1)
        || c == 0x2D7F
        || (0x2DE0 <= c && c <= 0x2DFF)
        || (0x302A <= c && c <= 0x302F)
        || (0x3099 <= c && c <= 0x309A)
        || (0xA66F <= c && c <= 0xA672)
        || (0xA674 <= c && c <= 0xA67D)
        || (0xA69E <= c && c <= 0xA69F)
        || (0xA6F0 <= c && c <= 0xA6F1)
        || c == 0xA802
        || c == 0xA806
        || c == 0xA80B
        || (0xA823 <= c && c <= 0xA827)
        || c == 0xA82C
        || (0xA880 <= c && c <= 0xA881)
        || (0xA8B4 <= c && c <= 0xA8C5)
        || (0xA8E0 <= c && c <= 0xA8F1)
        || c == 0xA8FF
        || (0xA926 <= c && c <= 0xA92D)
        || (0xA947 <= c && c <= 0xA953)
        || (0xA980 <= c && c <= 0xA983)
        || (0xA9B3 <= c && c <= 0xA9C0)
        || c == 0xA9E5
        || (0xAA29 <= c && c <= 0xAA36)
        || c == 0xAA43
        || (0xAA4C <= c && c <= 0xAA4D)
        || (0xAA7B <= c && c <= 0xAA7D)
        || c == 0xAAB0
        || (0xAAB2 <= c && c <= 0xAAB4)
        || (0xAAB7 <= c && c <= 0xAAB8)
        || (0xAABE <= c && c <= 0xAABF)
        || c == 0xAAC1
        || (0xAAEB <= c && c <= 0xAAEF)
        || (0xAAF5 <= c && c <= 0xAAF6)
        || (0xABE3 <= c && c <= 0xABEA)
        || (0xABEC <= c && c <= 0xABED)
        || c == 0xFB1E
        || (0xFE00 <= c && c <= 0xFE0F)
        || (0xFE20 <= c && c <= 0xFE2F)
        || c == 0x101FD
        || c == 0x102E0
        || (0x10376 <= c && c <= 0x1037A)
}

pub open spec fn spec_mark_block_3(c: u32) -> bool {
    (0x10A01 <= c && c <= 0x10A03)
        || (0x10A05 <= c && c <= 0x10A06)
        || (0x10A0C <= c && c <= 0x10A0F)
        || (0x10A38 <= c && c <= 0x10A3A)
        || c == 0x10A3F
        || (0x10AE5 <= c && c <= 0x10AE6)
        || (0x10D24 <= c && c <= 0x10D27)
        || (0x10EAB <= c && c <= 0x10EAC)
        || (0x10F46 <= c && c <= 0x10F50)
        || (0x10F82 <= c && c <= 0x10F85)
        || (0x11000 <= c && c <= 0x11002)
        || (0x11038 <= c && c <= 0x11046)
        || c == 0x11070
        || (0x11073 <= c && c <= 0x11074)
        || (0x1107F <= c && c <= 0x11082)
        || (0x110B0 <= c && c <= 0x110BA)
        || c == 0x110C2
        || (0x11100 <= c && c <= 0x11102)
        || (0x11127 <= c && c <= 0x11134)
        || (0x11145 <= c && c <= 0x11146)
        || c == 0x11173
        || (0x11180 <= c && c <= 0x11182)
        || (0x111B3 <= c && c <= 0x111C0)
        || (0x111C9 <= c && c <= 0x111CC)
        || (0x111CE <= c && c <= 0x111CF)
        || (0x1122C <= c && c <= 0x11237)
        || c == 0x1123E
        || (0x112DF <= c && c <= 0x112EA)
        || (0x11300 <= c && c <= 0x11303)
        || (0x1133B <= c && c <= 0x1133C)
        || (0x1133E <= c && c <= 0x11344)
        || (0x11347 <= c && c <= 0x11348)
        || (0x1134B <= c && c <= 0x1134D)
        || c == 0x11357
        || (0x11362 <= c && c <= 0x11363)
        || (0x11366 <= c && c <= 0x1136C)
        || (0x11370 <= c && c <= 0x11374)
        || (0x11435 <= c && c <= 0x11446)
        || c == 0x1145E
        || (0x114B0 <= c && c <= 0x114C3)
        || (0x115AF <= c && c <= 0x115B5)
        || (0x115B8 <= c && c <= 0x115C0)
        || (0x115DC <= c && c <= 0x115DD)
        || (0x11630 <= c && c <= 0x11640)
        || (0x116AB <= c && c <= 0x116B7)
        || (0x1171D <= c && c <= 0x1172B)
        || (0x1182C <= c && c <= 0x1183A)
        || (0x11930 <= c && c <= 0x11935)
        || (0x11937 <= c && c <= 0x11938)
        || (0x1193B <= c && c <= 0x1193E)
        || c == 0x11940
        || (0x11942 <= c && c <= 0x11943)
        || (0x119D1 <= c && c <= 0x119D7)
        || (0x119DA <= c && c <= 0x119E0)
        || c == 0x119E4
        || (0x11A01 <= c && c <= 0x11A0A)
        || (0x11A33 <= c && c <= 0x11A39)
        || (0x11A3B <= c && c <= 0x11A3E)
        || c == 0x11A47
        || (0x11A51 <= c && c <= 0x11A5B)
        || (0x11A8A <= c && c <= 0x11A99)
        || (0x11C2F <= c && c <= 0x11C36)
        || (0x11C38 <= c && c <= 0x11C3F)
        || (0x11C92 <= c && c <= 0x11CA7)
}

fn mark_block_3(c: u32) -> (r: bool)
    ensures
        r == spec_mark_block_3(c),
{
    (0x10A01 <= c && c <= 0x10A03)
        || (0x10A05 <= c && c <= 0x10A06)
        || (0x10A0C <= c && c <= 0x10A0F)
        || (0x10A38 <= c && c <= 0x10A3A)
        || c == 0x10A3F
        || (0x10AE5 <= c && c <= 0x10AE6)
        || (0x10D24 <= c && c <= 0x10D27)
        || (0x10EAB <= c && c <= 0x10EAC)
        || (0x10F46 <= c && c <= 0x10F50)
        || (0x10F82 <= c && c <= 0x10F85)
        || (0x11000 <= c && c <= 0x11002)
        || (0x11038 <= c && c <= 0x11046)
        || c == 0x11070
        || (0x11073 <= c && c <= 0x11074)
        || (0x1107F <= c && c <= 0x11082)
        || (0x110B0 <= c && c <= 0x110BA)
        || c == 0x110C2
        || (0x11100 <= c && c <= 0x11102)
        || (0x11127 <= c && c <= 0x11134)
        || (0x11145 <= c && c <= 0x11146)
        || c == 0x11173
        || (0x11180 <= c && c <= 0x11182)
        || (0x111B3 <= c && c <= 0x111C0)
        || (0x111C9 <= c && c <= 0x111CC)
        || (0x111CE <= c && c <= 0x111CF)
        || (0x1122C <= c && c <= 0x11237)
        || c == 0x1123E
        || (0x112DF <= c && c <= 0x112EA)
        || (0x11300 <= c && c <= 0x11303)
        || (0x1133B <= c && c <= 0x1133C)
        || (0x1133E <= c && c <= 0x11344)
        || (0x11347 <= c && c <= 0x11348)
        || (0x1134B <= c && c <= 0x1134D)
        || c == 0x11357
        || (0x11362 <= c && c <= 0x11363)
        || (0x11366 <= c && c <= 0x1136C)
        || (0x11370 <= c && c <= 0x11374)
        || (0x11435 <= c && c <= 0x11446)
        || c == 0x1145E
        || (0x114B0 <= c && c <= 0x114C3)
        || (0x115AF <= c && c <= 0x115B5)
        || (0x115B8 <= c && c <= 0x115C0)
        || (0x115DC <= c && c <= 0x115DD)
        || (0x11630 <= c && c <= 0x11640)
        || (0x116AB <= c && c <= 0x116B7)
        || (0x1171D <= c && c <= 0x1172B)
        || (0x1182C <= c && c <= 0x1183A)
        || (0x11930 <= c && c <= 0x11935)
        || (0x11937 <= c && c <= 0x11938)
        || (0x1193B <= c && c <= 0x1193E)
        || c == 0x11940
        || (0x11942 <= c && c <= 0x11943)
        || (0x119D1 <= c && c <= 0x119D7)
        || (0x119DA <= c && c <= 0x119E0)
        || c == 0x119E4
        || (0x11A01 <= c && c <= 0x11A0A)
        || (0x11A33 <= c && c <= 0x11A39)
        || (0x11A3B <= c && c <= 0x11A3E)
        || c == 0x11A47
        || (0x11A51 <= c && c <= 0x11A5B)
        || (0x11A8A <= c && c <= 0x11A99)
        || (0x11C2F <= c && c <= 0x11C36)
        || (0x11C38 <= c && c <= 0x11C3F)
        || (0x11C92 <= c && c <= 0x11CA7)
}

pub open spec fn spec_mark_block_4(c: u32) -> bool {
    (0x11CA9 <= c && c <= 0x11CB6)
        || (0x11D31 <= c && c <= 0x11D36)
        || c == 0x11D3A
        || (0x11D3C <= c && c <= 0x11D3D)
        || (0x11D3F <= c && c <= 0x11D45)
        || c == 0x11D47
        || (0x11D8A <= c && c <= 0x11D8E)
        || (0x11D90 <= c && c <= 0x11D91)
        || (0x11D93 <= c && c <= 0x11D97)
        || (0x11EF3 <= c && c <= 0x11EF6)
        || (0x16AF0 <= c && c <= 0x16AF4)
        || (0x16B30 <= c && c <= 0x16B36)
        || c == 0x16F4F
        || (0x16F51 <= c && c <= 0x16F87)
        || (0x16F8F <= c && c <= 0x16F92)
        || c == 0x16FE4
        || (0x16FF0 <= c && c <= 0x16FF1)
        || (0x1BC9D <= c && c <= 0x1BC9E)
        || (0x1CF00 <= c && c <= 0x1CF2D)
        || (0x1CF30 <= c && c <= 0x1CF46)
        || (0x1D165 <= c && c <= 0x1D169)
        || (0x1D16D <= c && c <= 0x1D172)
        || (0x1D17B <= c && c <= 0x1D182)
        || (0x1D185 <= c && c <= 0x1D18B)
        || (0x1D1AA <= c && c <= 0x1D1AD)
        || (0x1D242 <= c && c <= 0x1D244)
        || (0x1DA00 <= c && c <= 0x1DA36)
        || (0x1DA3B <= c && c <= 0x1DA6C)
        || c == 0x1DA75
        || c == 0x1DA84
        || (0x1DA9B <= c && c <= 0x1DA9F)
        || (0x1DAA1 <= c && c <= 0x1DAAF)
        || (0x1E000 <= c && c <= 0x1E006)
        || (0x1E008 <= c && c <= 0x1E018)
        || (0x1E01B <= c && c <= 0x1E021)
        || (0x1E023 <= c && c <= 0x1E024)
        || (0x1E026 <= c && c <= 0x1E02A)
        || (0x1E130 <= c && c <= 0x1E136)
        || c == 0x1E2AE
        || (0x1E2EC <= c && c <= 0x1E2EF)
        || (0x1E8D0 <= c && c <= 0x1E8D6)
        || (0x1E944 <= c && c <= 0x1E94A)
        || (0xE0100 <= c && c <= 0xE01EF)
}

fn mark_block_4(c: u32) -> (r: bool)
    ensures
        r == spec_mark_block_4(c),
{
    (0x11CA9 <= c && c <= 0x11CB6)
        || (0x11D31 <= c && c <= 0x11D36)
        || c == 0x11D3A
        || (0x11D3C <= c && c <= 0x11D3D)
        || (0x11D3F <= c && c <= 0x11D45)
        || c == 0x11D47
        || (0x11D8A <= c && c <= 0x11D8E)
        || (0x11D90 <= c && c <= 0x11D91)
        || (0x11D93 <= c && c <= 0x11D97)
        || (0x11EF3 <= c && c <= 0x11EF6)
        || (0x16AF0 <= c && c <= 0x16AF4)
        || (0x16B30 <= c && c <= 0x16B36)
        || c == 0x16F4F
        || (0x16F51 <= c && c <= 0x16F87)
        || (0x16F8F <= c && c <= 0x16F92)
        || c == 0x16FE4
        || (0x16FF0 <= c && c <= 0x16FF1)
        || (0x1BC9D <= c && c <= 0x1BC9E)
        || (0x1CF00 <= c && c <= 0x1CF2D)
        || (0x1CF30 <= c && c <= 0x1CF46)
        || (0x1D165 <= c && c <= 0x1D169)
        || (0x1D16D <= c && c <= 0x1D172)
        || (0x1D17B <= c && c <= 0x1D182)
        || (0x1D185 <= c && c <= 0x1D18B)
        || (0x1D1AA <= c && c <= 0x1D1AD)
        || (0x1D242 <= c && c <= 0x1D244)
        || (0x1DA00 <= c && c <= 0x1DA36)
        || (0x1DA3B <= c && c <= 0x1DA6C)
        || c == 0x1DA75
        || c == 0x1DA84
        || (0x1DA9B <= c && c <= 0x1DA9F)
        || (0x1DAA1 <= c && c <= 0x1DAAF)
        || (0x1E000 <= c && c <= 0x1E006)
        || (0x1E008 <= c && c <= 0x1E018)
        || (0x1E01B <= c && c <= 0x1E021)
        || (0x1E023 <= c && c <= 0x1E024)
        || (0x1E026 <= c && c <= 0x1E02A)
        || (0x1E130 <= c && c <= 0x1E136)
        || c == 0x1E2AE
        || (0x1E2EC <= c && c <= 0x1E2EF)
        || (0x1E8D0 <= c && c <= 0x1E8D6)
        || (0x1E944 <= c && c <= 0x1E94A)
        || (0xE0100 <= c && c <= 0xE01EF)
}

/// The mark categories (combining, spacing and enclosing).
#[verifier::opaque]
pub open spec fn spec_is_accent_mark_cpt(c: u32) -> bool {
    spec_mark_block_0(c)
        || spec_mark_block_1(c)
        || spec_mark_block_2(c)
        || spec_mark_block_3(c)
        || spec_mark_block_4(c)
}

/// The mark categories (combining, spacing and enclosing).
pub fn is_accent_mark_cpt(c: u32) -> (r: bool)
    ensures
        r == spec_is_accent_mark_cpt(c),
{
    proof {
        reveal(spec_is_accent_mark_cpt);
    }
    mark_block_0(c)
        || mark_block_1(c)
        || mark_block_2(c)
        || mark_block_3(c)
        || mark_block_4(c)
}

pub open spec fn spec_lower_block_0(c: u32) -> bool {
    (0x61 <= c && c <= 0x7A)
        || c == 0xB5
        || (0xDF <= c && c <= 0xF6)
        || (0xF8 <= c && c <= 0xFF)
        || c == 0x101
        || c == 0x103
        || c == 0x105
        || c == 0x107
        || c == 0x109
        || c == 0x10B
        || c == 0x10D
        || c == 0x10F
        || c == 0x111
        || c == 0x113
        || c == 0x115
        || c == 0x117
        || c == 0x119
        || c == 0x11B
        || c == 0x11D
        || c == 0x11F
        || c == 0x121
        || c == 0x123
        || c == 0x125
        || c == 0x127
        || c == 0x129
        || c == 0x12B
        || c == 0x12D
        || c == 0x12F
        || c == 0x131
        || c == 0x133
        || c == 0x135
        || (0x137 <= c && c <= 0x138)
        || c == 0x13A
        || c == 0x13C
        || c == 0x13E
        || c == 0x140
        || c == 0x142
        || c == 0x144
        || c == 0x146
        || (0x148 <= c && c <= 0x149)
        || c == 0x14B
        || c == 0x14D
        || c == 0x14F
        || c == 0x151
        || c == 0x153
        || c == 0x155
        || c == 0x157
        || c == 0x159
        || c == 0x15B
        || c == 0x15D
        || c == 0x15F
        || c == 0x161
        || c == 0x163
        || c == 0x165
        || c == 0x167
        || c == 0x169
        || c == 0x16B
        || c == 0x16D
        || c == 0x16F
        || c == 0x171
        || c == 0x173
        || c == 0x175
        || c == 0x177
        || c == 0x17A
}

fn lower_block_0(c: u32) -> (r: bool)
    ensures
        r == spec_lower_block_0(c),
{
    (0x61 <= c && c <= 0x7A)
        || c == 0xB5
        || (0xDF <= c && c <= 0xF6)
        || (0xF8 <= c && c <= 0xFF)
        || c == 0x101
        || c == 0x103
        || c == 0x105
        || c == 0x107
        || c == 0x109
        || c == 0x10B
        || c == 0x10D
        || c == 0x10F
        || c == 0x111
        || c == 0x113
        || c == 0x115
        || c == 0x117
        || c == 0x119
        || c == 0x11B
        || c == 0x11D
        || c == 0x11F
        || c == 0x121
        || c == 0x123
        || c == 0x125
        || c == 0x127
        || c == 0x129
        || c == 0x12B
        || c == 0x12D
        || c == 0x12F
        || c == 0x131
        || c == 0x133
        || c == 0x135
        || (0x137 <= c && c <= 0x138)
        || c == 0x13A
        || c == 0x13C
        || c == 0x13E
        || c == 0x140
        || c == 0x142
        || c == 0x144
        || c == 0x146
        || (0x148 <= c && c <= 0x149)
        || c == 0x14B
        || c == 0x14D
        || c == 0x14F
        || c == 0x151
        || c == 0x153
        || c == 0x155
        || c == 0x157
        || c == 0x159
        || c == 0x15B
        || c == 0x15D
        || c == 0x15F
        || c == 0x161
        || c == 0x163
        || c == 0x165
        || c == 0x167
        || c == 0x169
        || c == 0x16B
        || c == 0x16D
        || c == 0x16F
        || c == 0x171
        || c == 0x173
        || c == 0x175
        || c == 0x177
        || c == 0x17A
}

pub open spec fn spec_lower_block_1(c: u32) -> bool {
    c == 0x17C
        || (0x17E <= c && c <= 0x180)
        || c == 0x183
        || c == 0x185
        || c == 0x188
        || (0x18C <= c && c <= 0x18D)
        || c == 0x192
        || c == 0x195
        || (0x199 <= c && c <= 0x19B)
        || c == 0x19E
        || c == 0x1A1
        || c == 0x1A3
        || c == 0x1A5
        || c == 0x1A8
        || (0x1AA <= c && c <= 0x1AB)
        || c == 0x1AD
        || c == 0x1B0
        || c == 0x1B4
        || c == 0x1B6
        || (0x1B9 <= c && c <= 0x1BA)
        || (0x1BD <= c && c <= 0x1BF)
        || c == 0x1C6
        || c == 0x1C9
        || c == 0x1CC
        || c == 0x1CE
        || c == 0x1D0
        || c == 0x1D2
        || c == 0x1D4
        || c == 0x1D6
        || c == 0x1D8
        || c == 0x1DA
        || (0x1DC <= c && c <= 0x1DD)
        || c == 0x1DF
        || c == 0x1E1
        || c == 0x1E3
        || c == 0x1E5
        || c == 0x1E7
        || c == 0x1E9
        || c == 0x1EB
        || c == 0x1ED
        || (0x1EF <= c && c <= 0x1F0)
        || c == 0x1F3
        || c == 0x1F5
        || c == 0x1F9
        || c == 0x1FB
        || c == 0x1FD
        || c == 0x1FF
        || c == 0x201
        || c == 0x203
        || c == 0x205
        || c == 0x207
        || c == 0x209
        || c == 0x20B
        || c == 0x20D
        || c == 0x20F
        || c == 0x211
        || c == 0x213
        || c == 0x215
        || c == 0x217
        || c == 0x219
        || c == 0x21B
        || c == 0x21D
        || c == 0x21F
        || c == 0x221
}

fn lower_block_1(c: u32) -> (r: bool)
    ensures
        r == spec_lower_block_1(c),
{
    c == 0x17C
        || (0x17E <= c && c <= 0x180)
        || c == 0x183
        || c == 0x185
        || c == 0x188
        || (0x18C <= c && c <= 0x18D)
        || c == 0x192
        || c == 0x195
        || (0x199 <= c && c <= 0x19B)
        || c == 0x19E
        || c == 0x1A1
        || c == 0x1A3
        || c == 0x1A5
        || c == 0x1A8
        || (0x1AA <= c && c <= 0x1AB)
        || c == 0x1AD
        || c == 0x1B0
        || c == 0x1B4
        || c == 0x1B6
        || (0x1B9 <= c && c <= 0x1BA)
        || (0x1BD <= c && c <= 0x1BF)
        || c == 0x1C6
        || c == 0x1C9
        || c == 0x1CC
        || c == 0x1CE
        || c == 0x1D0
        || c == 0x1D2
        || c == 0x1D4
        || c == 0x1D6
        || c == 0x1D8
        || c == 0x1DA
        || (0x1DC <= c && c <= 0x1DD)
        || c == 0x1DF
        || c == 0x1E1
        || c == 0x1E3
        || c == 0x1E5
        || c == 0x1E7
        || c == 0x1E9
        || c == 0x1EB
        || c == 0x1ED
        || (0x1EF <= c && c <= 0x1F0)
        || c == 0x1F3
        || c == 0x1F5
        || c == 0x1F9
        || c == 0x1FB
        || c == 0x1FD
        || c == 0x1FF
        || c == 0x201
        || c == 0x203
        || c == 0x205
        || c == 0x207
        || c == 0x209
        || c == 0x20B
        || c == 0x20D
        || c == 0x20F
        || c == 0x211
        || c == 0x213
        || c == 0x215
        || c == 0x217
        || c == 0x219
        || c == 0x21B
        || c == 0x21D
        || c == 0x21F
        || c == 0x221
}

pub open spec fn spec_lower_block_2(c: u32) -> bool {
    c == 0x223
        || c == 0x225
        || c == 0x227
        || c == 0x229
        || c == 0x22B
        || c == 0x22D
        || c == 0x22F
        || c == 0x231
        || (0x233 <= c && c <= 0x239)
        || c == 0x23C
        || (0x23F <= c && c <= 0x240)
        || c == 0x242
        || c == 0x247
        || c == 0x249
        || c == 0x24B
        || c == 0x24D
        || (0x24F <= c && c <= 0x293)
        || (0x295 <= c && c <= 0x2AF)
        || c == 0x371
        || c == 0x373
        || c == 0x377
        || (0x37B <= c && c <= 0x37D)
        || c == 0x390
        || (0x3AC <= c && c <= 0x3CE)
        || (0x3D0 <= c && c <= 0x3D1)
        || (0x3D5 <= c && c <= 0x3D7)
        || c == 0x3D9
        || c == 0x3DB
        || c == 0x3DD
        || c == 0x3DF
        || c == 0x3E1
        || c == 0x3E3
        || c == 0x3E5
        || c == 0x3E7
        || c == 0x3E9
        || c == 0x3EB
        || c == 0x3ED
        || (0x3EF <= c && c <= 0x3F3)
        || c == 0x3F5
        || c == 0x3F8
        || (0x3FB <= c && c <= 0x3FC)
        || (0x430 <= c && c <= 0x45F)
        || c == 0x461
        || c == 0x463
        || c == 0x465
        || c == 0x467
        || c == 0x469
        || c == 0x46B
        || c == 0x46D
        || c == 0x46F
        || c == 0x471
        || c == 0x473
        || c == 0x475
        || c == 0x477
        || c == 0x479
        || c == 0x47B
        || c == 0x47D
        || c == 0x47F
        || c == 0x481
        || c == 0x48B
        || c == 0x48D
        || c == 0x48F
        || c == 0x491
        || c == 0x493
}

fn lower_block_2(c: u32) -> (r: bool)
    ensures
        r == spec_lower_block_2(c),
{
    c == 0x223
        || c == 0x225
        || c == 0x227
        || c == 0x229
        || c == 0x22B
        || c == 0x22D
        || c == 0x22F
        || c == 0x231
        || (0x233 <= c && c <= 0x239)
        || c == 0x23C
        || (0x23F <= c && c <= 0x240)
        || c == 0x242
        || c == 0x247
        || c == 0x249
        || c == 0x24B
        || c == 0x24D
        || (0x24F <= c && c <= 0x293)
        || (0x295 <= c && c <= 0x2AF)
        || c == 0x371
        || c == 0x373
        || c == 0x377
        || (0x37B <= c && c <= 0x37D)
        || c == 0x390
        || (0x3AC <= c && c <= 0x3CE)
        || (0x3D0 <= c && c <= 0x3D1)
        || (0x3D5 <= c && c <= 0x3D7)
        || c == 0x3D9
        || c == 0x3DB
        || c == 0x3DD
        || c == 0x3DF
        || c == 0x3E1
        || c == 0x3E3
        || c == 0x3E5
        || c == 0x3E7
        || c == 0x3E9
        || c == 0x3EB
        || c == 0x3ED
        || (0x3EF <= c && c <= 0x3F3)
        || c == 0x3F5
        || c == 0x3F8
        || (0x3FB <= c && c <= 0x3FC)
        || (0x430 <= c && c <= 0x45F)
        || c == 0x461
        || c == 0x463
        || c == 0x465
        || c == 0x467
        || c == 0x469
        || c == 0x46B
        || c == 0x46D
        || c == 0x46F
        || c == 0x471
        || c == 0x473
        || c == 0x475
        || c == 0x477
        || c == 0x479
        || c == 0x47B
        || c == 0x47D
        || c == 0x47F
        || c == 0x481
        || c == 0x48B
        || c == 0x48D
        || c == 0x48F
        || c == 0x491
        || c == 0x493
}

pub open spec fn spec_lower_block_3(c: u32) -> bool {
    c == 0x495
        || c == 0x497
        || c == 0x499
        || c == 0x49B
        || c == 0x49D
        || c == 0x49F
        || c == 0x4A1
        || c == 0x4A3
        || c == 0x4A5
        || c == 0x4A7
        || c == 0x4A9
        || c == 0x4AB
        || c == 0x4AD
        || c == 0x4AF
        || c == 0x4B1
        || c == 0x4B3
        || c == 0x4B5
        || c == 0x4B7
        || c == 0x4B9
        || c == 0x4BB
        || c == 0x4BD
        || c == 0x4BF
        || c == 0x4C2
        || c == 0x4C4
        || c == 0x4C6
        || c == 0x4C8
        || c == 0x4CA
        || c == 0x4CC
        || (0x4CE <= c && c <= 0x4CF)
        || c == 0x4D1
        || c == 0x4D3
        || c == 0x4D5
        || c == 0x4D7
        || c == 0x4D9
        || c == 0x4DB
        || c == 0x4DD
        || c == 0x4DF
        || c == 0x4E1
        || c == 0x4E3
        || c == 0x4E5
        || c == 0x4E7
        || c == 0x4E9
        || c == 0x4EB
        || c == 0x4ED
        || c == 0x4EF
        || c == 0x4F1
        || c == 0x4F3
        || c == 0x4F5
        || c == 0x4F7
        || c == 0x4F9
        || c == 0x4FB
        || c == 0x4FD
        || c == 0x4FF
        || c == 0x501
        || c == 0x503
        || c == 0x505
        || c == 0x507
        || c == 0x509
        || c == 0x50B
        || c == 0x50D
        || c == 0x50F
        || c == 0x511
        || c == 0x513
        || c == 0x515
}

fn lower_block_3(c: u32) -> (r: bool)
    ensures
        r == spec_lower_block_3(c),
{
    c == 0x495
        || c == 0x497
        || c == 0x499
        || c == 0x49B
        || c == 0x49D
        || c == 0x49F
        || c == 0x4A1
        || c == 0x4A3
        || c == 0x4A5
        || c == 0x4A7
        || c == 0x4A9
        || c == 0x4AB
        || c == 0x4AD
        || c == 0x4AF
        || c == 0x4B1
        || c == 0x4B3
        || c == 0x4B5
        || c == 0x4B7
        || c == 0x4B9
        || c == 0x4BB
        || c == 0x4BD
        || c == 0x4BF
        || c == 0x4C2
        || c == 0x4C4
        || c == 0x4C6
        || c == 0x4C8
        || c == 0x4CA
        || c == 0x4CC
        || (0x4CE <= c && c <= 0x4CF)
        || c == 0x4D1
        || c == 0x4D3
        || c == 0x4D5
        || c == 0x4D7
        || c == 0x4D9
        || c == 0x4DB
        || c == 0x4DD
        || c == 0x4DF
        || c == 0x4E1
        || c == 0x4E3
        || c == 0x4E5
        || c == 0x4E7
        || c == 0x4E9
        || c == 0x4EB
        || c == 0x4ED
        || c == 0x4EF
        || c == 0x4F1
        || c == 0x4F3
        || c == 0x4F5
        || c == 0x4F7
        || c == 0x4F9
        || c == 0x4FB
        || c == 0x4FD
        || c == 0x4FF
        || c == 0x501
        || c == 0x503
        || c == 0x505
        || c == 0x507
        || c == 0x509
        || c == 0x50B
        || c == 0x50D
        || c == 0x50F
        || c == 0x511
        || c == 0x513
        || c == 0x515
}

pub open spec fn spec_lower_block_4(c: u32) -> bool {
    c == 0x517
        || c == 0x519
        || c == 0x51B
        || c == 0x51D
        || c == 0x51F
        || c == 0x521
        || c == 0x523
        || c == 0x525
        || c == 0x527
        || c == 0x529
        || c == 0x52B
        || c == 0x52D
        || c == 0x52F
        || (0x560 <= c && c <= 0x588)
        || (0x10D0 <= c && c <= 0x10FA)
        || (0x10FD <= c && c <= 0x10FF)
        || (0x13F8 <= c && c <= 0x13FD)
        || (0x1C80 <= c && c <= 0x1C88)
        || (0x1D00 <= c && c <= 0x1D2B)
        || (0x1D6B <= c && c <= 0x1D77)
        || (0x1D79 <= c && c <= 0x1D9A)
        || c == 0x1E01
        || c == 0x1E03
        || c == 0x1E05
        || c == 0x1E07
        || c == 0x1E09
        || c == 0x1E0B
        || c == 0x1E0D
        || c == 0x1E0F
        || c == 0x1E11
        || c == 0x1E13
        || c == 0x1E15
        || c == 0x1E17
        || c == 0x1E19
        || c == 0x1E1B
        || c == 0x1E1D
        || c == 0x1E1F
        || c == 0x1E21
        || c == 0x1E23
        || c == 0x1E25
        || c == 0x1E27
        || c == 0x1E29
        || c == 0x1E2B
        || c == 0x1E2D
        || c == 0x1E2F
        || c == 0x1E31
        || c == 0x1E33
        || c == 0x1E35
        || c == 0x1E37
        || c == 0x1E39
        || c == 0x1E3B
        || c == 0x1E3D
        || c == 0x1E3F
        || c == 0x1E41
        || c == 0x1E43
        || c == 0x1E45
        || c == 0x1E47
        || c == 0x1E49
        || c == 0x1E4B
        || c == 0x1E4D
        || c == 0x1E4F
        || c == 0x1E51
        || c == 0x1E53
        || c == 0x1E55
}

fn lower_block_4(c: u32) -> (r: bool)
    ensures
        r == spec_lower_block_4(c),
{
    c == 0x517
        || c == 0x519
        || c == 0x51B
        || c == 0x51D
        || c == 0x51F
        || c == 0x521
        || c == 0x523
        || c == 0x525
        || c == 0x527
        || c == 0x529
        || c == 0x52B
        || c == 0x52D
        || c == 0x52F
        || (0x560 <= c && c <= 0x588)
        || (0x10D0 <= c && c <= 0x10FA)
        || (0x10FD <= c && c <= 0x10FF)
        || (0x13F8 <= c && c <= 0x13FD)
        || (0x1C80 <= c && c <= 0x1C88)
        || (0x1D00 <= c && c <= 0x1D2B)
        || (0x1D6B <= c && c <= 0x1D77)
        || (0x1D79 <= c && c <= 0x1D9A)
        || c == 0x1E01
        || c == 0x1E03
        || c == 0x1E05
        || c == 0x1E07
        || c == 0x1E09
        || c == 0x1E0B
        || c == 0x1E0D
        || c == 0x1E0F
        || c == 0x1E11
        || c == 0x1E13
        || c == 0x1E15
        || c == 0x1E17
        || c == 0x1E19
        || c == 0x1E1B
        || c == 0x1E1D
        || c == 0x1E1F
        || c == 0x1E21
        || c == 0x1E23
        || c == 0x1E25
        || c == 0x1E27
        || c == 0x1E29
        || c == 0x1E2B
        || c == 0x1E2D
        || c == 0x1E2F
        || c == 0x1E31
        || c == 0x1E33
        || c == 0x1E35
        || c == 0x1E37
        || c == 0x1E39
        || c == 0x1E3B
        || c == 0x1E3D
        || c == 0x1E3F
        || c == 0x1E41
        || c == 0x1E43
        || c == 0x1E45
        || c == 0x1E47
        || c == 0x1E49
        || c == 0x1E4B
        || c == 0x1E4D
        || c == 0x1E4F
        || c == 0x1E51
        || c == 0x1E53
        || c == 0x1E55
}

pub open spec fn spec_lower_block_5(c: u32) -> bool {
    c == 0x1E57
        || c == 0x1E59
        || c == 0x1E5B
        || c == 0x1E5D
        || c == 0x1E5F
        || c == 0x1E61
        || c == 0x1E63
        || c == 0x1E65
        || c == 0x1E67
        || c == 0x1E69
        || c == 0x1E6B
        || c == 0x1E6D
        || c == 0x1E6F
        || c == 0x1E71
        || c == 0x1E73
        || c == 0x1E75
        || c == 0x1E77
        || c == 0x1E79
        || c == 0x1E7B
        || c == 0x1E7D
        || c == 0x1E7F
        || c == 0x1E81
        || c == 0x1E83
        || c == 0x1E85
        || c == 0x1E87
        || c == 0x1E89
        || c == 0x1E8B
        || c == 0x1E8D
        || c == 0x1E8F
        || c == 0x1E91
        || c == 0x1E93
        || (0x1E95 <= c && c <= 0x1E9D)
        || c == 0x1E9F
        || c == 0x1EA1
        || c == 0x1EA3
        || c == 0x1EA5
        || c == 0x1EA7
        || c == 0x1EA9
        || c == 0x1EAB
        || c == 0x1EAD
        || c == 0x1EAF
        || c == 0x1EB1
        || c == 0x1EB3
        || c == 0x1EB5
        || c == 0x1EB7
        || c == 0x1EB9
        || c == 0x1EBB
        || c == 0x1EBD
        || c == 0x1EBF
        || c == 0x1EC1
        || c == 0x1EC3
        || c == 0x1EC5
        || c == 0x1EC7
        || c == 0x1EC9
        || c == 0x1ECB
        || c == 0x1ECD
        || c == 0x1ECF
        || c == 0x1ED1
        || c == 0x1ED3
        || c == 0x1ED5
        || c == 0x1ED7
        || c == 0x1ED9
        || c == 0x1EDB
        || c == 0x1EDD
}

fn lower_block_5(c: u32) -> (r: bool)
    ensures
        r == spec_lower_block_5(c),
{
    c == 0x1E57
        || c == 0x1E59
        || c == 0x1E5B
        || c == 0x1E5D
        || c == 0x1E5F
        || c == 0x1E61
        || c == 0x1E63
        || c == 0x1E65
        || c == 0x1E67
        || c == 0x1E69
        || c == 0x1E6B
        || c == 0x1E6D
        || c == 0x1E6F
        || c == 0x1E71
        || c == 0x1E73
        || c == 0x1E75
        || c == 0x1E77
        || c == 0x1E79
        || c == 0x1E7B
        || c == 0x1E7D
        || c == 0x1E7F
        || c == 0x1E81
        || c == 0x1E83
        || c == 0x1E85
        || c == 0x1E87
        || c == 0x1E89
        || c == 0x1E8B
        || c == 0x1E8D
        || c == 0x1E8F
        || c == 0x1E91
        || c == 0x1E93
        || (0x1E95 <= c && c <= 0x1E9D)
        || c == 0x1E9F
        || c == 0x1EA1
        || c == 0x1EA3
        || c == 0x1EA5
        || c == 0x1EA7
        || c == 0x1EA9
        || c == 0x1EAB
        || c == 0x1EAD
        || c == 0x1EAF
        || c == 0x1EB1
        || c == 0x1EB3
        || c == 0x1EB5
        || c == 0x1EB7
        || c == 0x1EB9
        || c == 0x1EBB
        || c == 0x1EBD
        || c == 0x1EBF
        || c == 0x1EC1
        || c == 0x1EC3
        || c == 0x1EC5
        || c == 0x1EC7
        || c == 0x1EC9
        || c == 0x1ECB
        || c == 0x1ECD
        || c == 0x1ECF
        || c == 0x1ED1
        || c == 0x1ED3
        || c == 0x1ED5
        || c == 0x1ED7
        || c == 0x1ED9
        || c == 0x1EDB
        || c == 0x1EDD
}

pub open spec fn spec_lower_block_6(c: u32) -> bool {
    c == 0x1EDF
        || c == 0x1EE1
        || c == 0x1EE3
        || c == 0x1EE5
        || c == 0x1EE7
        || c == 0x1EE9
        || c == 0x1EEB
        || c == 0x1EED
        || c == 0x1EEF
        || c == 0x1EF1
        || c == 0x1EF3
        || c == 0x1EF5
        || c == 0x1EF7
        || c == 0x1EF9
        || c == 0x1EFB
        || c == 0x1EFD
        || (0x1EFF <= c && c <= 0x1F07)
        || (0x1F10 <= c && c <= 0x1F15)
        || (0x1F20 <= c && c <= 0x1F27)
        || (0x1F30 <= c && c <= 0x1F37)
        || (0x1F40 <= c && c <= 0x1F45)
        || (0x1F50 <= c && c <= 0x1F57)
        || (0x1F60 <= c && c <= 0x1F67)
        || (0x1F70 <= c && c <= 0x1F7D)
        || (0x1F80 <= c && c <= 0x1F87)
        || (0x1F90 <= c && c <= 0x1F97)
        || (0x1FA0 <= c && c <= 0x1FA7)
        || (0x1FB0 <= c && c <= 0x1FB4)
        || (0x1FB6 <= c && c <= 0x1FB7)
        || c == 0x1FBE
        || (0x1FC2 <= c && c <= 0x1FC4)
        || (0x1FC6 <= c && c <= 0x1FC7)
        || (0x1FD0 <= c && c <= 0x1FD3)
        || (0x1FD6 <= c && c <= 0x1FD7)
        || (0x1FE0 <= c && c <= 0x1FE7)
        || (0x1FF2 <= c && c <= 0x1FF4)
        || (0x1FF6 <= c && c <= 0x1FF7)
        || c == 0x210A
        || (0x210E <= c && c <= 0x210F)
        || c == 0x2113
        || c == 0x212F
        || c == 0x2134
        || c == 0x2139
        || (0x213C <= c && c <= 0x213D)
        || (0x2146 <= c && c <= 0x2149)
        || c == 0x214E
        || c == 0x2184
        || (0x2C30 <= c && c <= 0x2C5F)
        || c == 0x2C61
        || (0x2C65 <= c && c <= 0x2C66)
        || c == 0x2C68
        || c == 0x2C6A
        || c == 0x2C6C
        || c == 0x2C71
        || (0x2C73 <= c && c <= 0x2C74)
        || (0x2C76 <= c && c <= 0x2C7B)
        || c == 0x2C81
        || c == 0x2C83
        || c == 0x2C85
        || c == 0x2C87
        || c == 0x2C89
        || c == 0x2C8B
        || c == 0x2C8D
        || c == 0x2C8F
}

fn lower_block_6(c: u32) -> (r: bool)
    ensures
        r == spec_lower_block_6(c),
{
    c == 0x1EDF
        || c == 0x1EE1
        || c == 0x1EE3
        || c == 0x1EE5
        || c == 0x1EE7
        || c == 0x1EE9
        || c == 0x1EEB
        || c == 0x1EED
        || c == 0x1EEF
        || c == 0x1EF1
        || c == 0x1EF3
        || c == 0x1EF5
        || c == 0x1EF7
        || c == 0x1EF9
        || c == 0x1EFB
        || c == 0x1EFD
        || (0x1EFF <= c && c <= 0x1F07)
        || (0x1F10 <= c && c <= 0x1F15)
        || (0x1F20 <= c && c <= 0x1F27)
        || (0x1F30 <= c && c <= 0x1F37)
        || (0x1F40 <= c && c <= 0x1F45)
        || (0x1F50 <= c && c <= 0x1F57)
        || (0x1F60 <= c && c <= 0x1F67)
        || (0x1F70 <= c && c <= 0x1F7D)
        || (0x1F80 <= c && c <= 0x1F87)
        || (0x1F90 <= c && c <= 0x1F97)
        || (0x1FA0 <= c && c <= 0x1FA7)
        || (0x1FB0 <= c && c <= 0x1FB4)
        || (0x1FB6 <= c && c <= 0x1FB7)
        || c == 0x1FBE
        || (0x1FC2 <= c && c <= 0x1FC4)
        || (0x1FC6 <= c && c <= 0x1FC7)
        || (0x1FD0 <= c && c <= 0x1FD3)
        || (0x1FD6 <= c && c <= 0x1FD7)
        || (0x1FE0 <= c && c <= 0x1FE7)
        || (0x1FF2 <= c && c <= 0x1FF4)
        || (0x1FF6 <= c && c <= 0x1FF7)
        || c == 0x210A
        || (0x210E <= c && c <= 0x210F)
        || c == 0x2113
        || c == 0x212F
        || c == 0x2134
        || c == 0x2139
        || (0x213C <= c && c <= 0x213D)
        || (0x2146 <= c && c <= 0x2149)
        || c == 0x214E
        || c == 0x2184
        || (0x2C30 <= c && c <= 0x2C5F)
        || c == 0x2C61
        || (0x2C65 <= c && c <= 0x2C66)
        || c == 0x2C68
        || c == 0x2C6A
        || c == 0x2C6C
        || c == 0x2C71
        || (0x2C73 <= c && c <= 0x2C74)
        || (0x2C76 <= c && c <= 0x2C7B)
        || c == 0x2C81
        || c == 0x2C83
        || c == 0x2C85
        || c == 0x2C87
        || c == 0x2C89
        || c == 0x2C8B
        || c == 0x2C8D
        || c == 0x2C8F
}

pub open spec fn spec_lower_block_7(c: u32) -> bool {
    c == 0x2C91
        || c == 0x2C93
        || c == 0x2C95
        || c == 0x2C97
        || c == 0x2C99
        || c == 0x2C9B
        || c == 0x2C9D
        || c == 0x2C9F
        || c == 0x2CA1
        || c == 0x2CA3
        || c == 0x2CA5
        || c == 0x2CA7
        || c == 0x2CA9
        || c == 0x2CAB
        || c == 0x2CAD
        || c == 0x2CAF
        || c == 0x2CB1
        || c == 0x2CB3
        || c == 0x2CB5
        || c == 0x2CB7
        || c == 0x2CB9
        || c == 0x2CBB
        || c == 0x2CBD
        || c == 0x2CBF
        || c == 0x2CC1
        || c == 0x2CC3
        || c == 0x2CC5
        || c == 0x2CC7
        || c == 0x2CC9
        || c == 0x2CCB
        || c == 0x2CCD
        || c == 0x2CCF
        || c == 0x2CD1
        || c == 0x2CD3
        || c == 0x2CD5
        || c == 0x2CD7
        || c == 0x2CD9
        || c == 0x2CDB
        || c == 0x2CDD
        || c == 0x2CDF
        || c == 0x2CE1
        || (0x2CE3 <= c && c <= 0x2CE4)
        || c == 0x2CEC
        || c == 0x2CEE
        || c == 0x2CF3
        || (0x2D00 <= c && c <= 0x2D25)
        || c == 0x2D27
        || c == 0x2D2D
        || c == 0xA641
        || c == 0xA643
        || c == 0xA645
        || c == 0xA647
        || c == 0xA649
        || c == 0xA64B
        || c == 0xA64D
        || c == 0xA64F
        || c == 0xA651
        || c == 0xA653
        || c == 0xA655
        || c == 0xA657
        || c == 0xA659
        || c == 0xA65B
        || c == 0xA65D
        || c == 0xA65F
}

fn lower_block_7(c: u32) -> (r: bool)
    ensures
        r == spec_lower_block_7(c),
{
    c == 0x2C91
        || c == 0x2C93
        || c == 0x2C95
        || c == 0x2C97
        || c == 0x2C99
        || c == 0x2C9B
        || c == 0x2C9D
        || c == 0x2C9F
        || c == 0x2CA1
        || c == 0x2CA3
        || c == 0x2CA5
        || c == 0x2CA7
        || c == 0x2CA9
        || c == 0x2CAB
        || c == 0x2CAD
        || c == 0x2CAF
        || c == 0x2CB1
        || c == 0x2CB3
        || c == 0x2CB5
        || c == 0x2CB7
        || c == 0x2CB9
        || c == 0x2CBB
        || c == 0x2CBD
        || c == 0x2CBF
        || c == 0x2CC1
        || c == 0x2CC3
        || c == 0x2CC5
        || c == 0x2CC7
        || c == 0x2CC9
        || c == 0x2CCB
        || c == 0x2CCD
        || c == 0x2CCF
        || c == 0x2CD1
        || c == 0x2CD3
        || c == 0x2CD5
        || c == 0x2CD7
        || c == 0x2CD9
        || c == 0x2CDB
        || c == 0x2CDD
        || c == 0x2CDF
        || c == 0x2CE1
        || (0x2CE3 <= c && c <= 0x2CE4)
        || c == 0x2CEC
        || c == 0x2CEE
        || c == 0x2CF3
        || (0x2D00 <= c && c <= 0x2D25)
        || c == 0x2D27
        || c == 0x2D2D
        || c == 0xA641
        || c == 0xA643
        || c == 0xA645
        || c == 0xA647
        || c == 0xA649
        || c == 0xA64B
        || c == 0xA64D
        || c == 0xA64F
        || c == 0xA651
        || c == 0xA653
        || c == 0xA655
        || c == 0xA657
        || c == 0xA659
        || c == 0xA65B
        || c == 0xA65D
        || c == 0xA65F
}

pub open spec fn spec_lower_block_8(c: u32) -> bool {
    c == 0xA661
        || c == 0xA663
        || c == 0xA665
        || c == 0xA667
        || c == 0xA669
        || c == 0xA66B
        || c == 0xA66D
        || c == 0xA681
        || c == 0xA683
        || c == 0xA685
        || c == 0xA687
        || c == 0xA689
        || c == 0xA68B
        || c == 0xA68D
        || c == 0xA68F
        || c == 0xA691
        || c == 0xA693
        || c == 0xA695
        || c == 0xA697
        || c == 0xA699
        || c == 0xA69B
        || c == 0xA723
        || c == 0xA725
        || c == 0xA727
        || c == 0xA729
        || c == 0xA72B
        || c == 0xA72D
        || (0xA72F <= c && c <= 0xA731)
        || c == 0xA733
        || c == 0xA735
        || c == 0xA737
        || c == 0xA739
        || c == 0xA73B
        || c == 0xA73D
        || c == 0xA73F
        || c == 0xA741
        || c == 0xA743
        || c == 0xA745
        || c == 0xA747
        || c == 0xA749
        || c == 0xA74B
        || c == 0xA74D
        || c == 0xA74F
        || c == 0xA751
        || c == 0xA753
        || c == 0xA755
        || c == 0xA757
        || c == 0xA759
        || c == 0xA75B
        || c == 0xA75D
        || c == 0xA75F
        || c == 0xA761
        || c == 0xA763
        || c == 0xA765
        || c == 0xA767
        || c == 0xA769
        || c == 0xA76B
        || c == 0xA76D
        || c == 0xA76F
        || (0xA771 <= c && c <= 0xA778)
        || c == 0xA77A
        || c == 0xA77C
        || c == 0xA77F
        || c == 0xA781
}

fn lower_block_8(c: u32) -> (r: bool)
    ensures
        r == spec_lower_block_8(c),
{
    c == 0xA661
        || c == 0xA663
        || c == 0xA665
        || c == 0xA667
        || c == 0xA669
        || c == 0xA66B
        || c == 0xA66D
        || c == 0xA681
        || c == 0xA683
        || c == 0xA685
        || c == 0xA687
        || c == 0xA689
        || c == 0xA68B
        || c == 0xA68D
        || c == 0xA68F
        || c == 0xA691
        || c == 0xA693
        || c == 0xA695
        || c == 0xA697
        || c == 0xA699
        || c == 0xA69B
        || c == 0xA723
        || c == 0xA725
        || c == 0xA727
        || c == 0xA729
        || c == 0xA72B
        || c == 0xA72D
        || (0xA72F <= c && c <= 0xA731)
        || c == 0xA733
        || c == 0xA735
        || c == 0xA737
        || c == 0xA739
        || c == 0xA73B
        || c == 0xA73D
        || c == 0xA73F
        || c == 0xA741
        || c == 0xA743
        || c == 0xA745
        || c == 0xA747
        || c == 0xA749
        || c == 0xA74B
        || c == 0xA74D
        || c == 0xA74F
        || c == 0xA751
        || c == 0xA753
        || c == 0xA755
        || c == 0xA757
        || c == 0xA759
        || c == 0xA75B
        || c == 0xA75D
        || c == 0xA75F
        || c == 0xA761
        || c == 0xA763
        || c == 0xA765
        || c == 0xA767
        || c == 0xA769
        || c == 0xA76B
        || c == 0xA76D
        || c == 0xA76F
        || (0xA771 <= c && c <= 0xA778)
        || c == 0xA77A
        || c == 0xA77C
        || c == 0xA77F
        || c == 0xA781
}

pub open spec fn spec_lower_block_9(c: u32) -> bool {
    c == 0xA783
        || c == 0xA785
        || c == 0xA787
        || c == 0xA78C
        || c == 0xA78E
        || c == 0xA791
        || (0xA793 <= c && c <= 0xA795)
        || c == 0xA797
        || c == 0xA799
        || c == 0xA79B
        || c == 0xA79D
        || c == 0xA79F
        || c == 0xA7A1
        || c == 0xA7A3
        || c == 0xA7A5
        || c == 0xA7A7
        || c == 0xA7A9
        || c == 0xA7AF
        || c == 0xA7B5
        || c == 0xA7B7
        || c == 0xA7B9
        || c == 0xA7BB
        || c == 0xA7BD
        || c == 0xA7BF
        || c == 0xA7C1
        || c == 0xA7C3
        || c == 0xA7C8
        || c == 0xA7CA
        || c == 0xA7D1
        || c == 0xA7D3
        || c == 0xA7D5
        || c == 0xA7D7
        || c == 0xA7D9
        || c == 0xA7F6
        || c == 0xA7FA
        || (0xAB30 <= c && c <= 0xAB5A)
        || (0xAB60 <= c && c <= 0xAB68)
        || (0xAB70 <= c && c <= 0xABBF)
        || (0xFB00 <= c && c <= 0xFB06)
        || (0xFB13 <= c && c <= 0xFB17)
        || (0xFF41 <= c && c <= 0xFF5A)
        || (0x10428 <= c && c <= 0x1044F)
        || (0x104D8 <= c && c <= 0x104FB)
        || (0x10597 <= c && c <= 0x105A1)
        || (0x105A3 <= c && c <= 0x105B1)
        || (0x105B3 <= c && c <= 0x105B9)
        || (0x105BB <= c && c <= 0x105BC)
        || (0x10CC0 <= c && c <= 0x10CF2)
        || (0x118C0 <= c && c <= 0x118DF)
        || (0x16E60 <= c && c <= 0x16E7F)
        || (0x1D41A <= c && c <= 0x1D433)
        || (0x1D44E <= c && c <= 0x1D454)
        || (0x1D456 <= c && c <= 0x1D467)
        || (0x1D482 <= c && c <= 0x1D49B)
        || (0x1D4B6 <= c && c <= 0x1D4B9)
        || c == 0x1D4BB
        || (0x1D4BD <= c && c <= 0x1D4C3)
        || (0x1D4C5 <= c && c <= 0x1D4CF)
        || (0x1D4EA <= c && c <= 0x1D503)
        || (0x1D51E <= c && c <= 0x1D537)
        || (0x1D552 <= c && c <= 0x1D56B)
        || (0x1D586 <= c && c <= 0x1D59F)
        || (0x1D5BA <= c && c <= 0x1D5D3)
        || (0x1D5EE <= c && c <= 0x1D607)
}

fn lower_block_9(c: u32) -> (r: bool)
    ensures
        r == spec_lower_block_9(c),
{
    c == 0xA783
        || c == 0xA785
        || c == 0xA787
        || c == 0xA78C
        || c == 0xA78E
        || c == 0xA791
        || (0xA793 <= c && c <= 0xA795)
        || c == 0xA797
        || c == 0xA799
        || c == 0xA79B
        || c == 0xA79D
        || c == 0xA79F
        || c == 0xA7A1
        || c == 0xA7A3
        || c == 0xA7A5
        || c == 0xA7A7
        || c == 0xA7A9
        || c == 0xA7AF
        || c == 0xA7B5
        || c == 0xA7B7
        || c == 0xA7B9
        || c == 0xA7BB
        || c == 0xA7BD
        || c == 0xA7BF
        || c == 0xA7C1
        || c == 0xA7C3
        || c == 0xA7C8
        || c == 0xA7CA
        || c == 0xA7D1
        || c == 0xA7D3
        || c == 0xA7D5
        || c == 0xA7D7
        || c == 0xA7D9
        || c == 0xA7F6
        || c == 0xA7FA
        || (0xAB30 <= c && c <= 0xAB5A)
        || (0xAB60 <= c && c <= 0xAB68)
        || (0xAB70 <= c && c <= 0xABBF)
        || (0xFB00 <= c && c <= 0xFB06)
        || (0xFB13 <= c && c <= 0xFB17)
        || (0xFF41 <= c && c <= 0xFF5A)
        || (0x10428 <= c && c <= 0x1044F)
        || (0x104D8 <= c && c <= 0x104FB)
        || (0x10597 <= c && c <= 0x105A1)
        || (0x105A3 <= c && c <= 0x105B1)
        || (0x105B3 <= c && c <= 0x105B9)
        || (0x105BB <= c && c <= 0x105BC)
        || (0x10CC0 <= c && c <= 0x10CF2)
        || (0x118C0 <= c && c <= 0x118DF)
        || (0x16E60 <= c && c <= 0x16E7F)
        || (0x1D41A <= c && c <= 0x1D433)
        || (0x1D44E <= c && c <= 0x1D454)
        || (0x1D456 <= c && c <= 0x1D467)
        || (0x1D482 <= c && c <= 0x1D49B)
        || (0x1D4B6 <= c && c <= 0x1D4B9)
        || c == 0x1D4BB
        || (0x1D4BD <= c && c <= 0x1D4C3)
        || (0x1D4C5 <= c && c <= 0x1D4CF)
        || (0x1D4EA <= c && c <= 0x1D503)
        || (0x1D51E <= c && c <= 0x1D537)
        || (0x1D552 <= c && c <= 0x1D56B)
        || (0x1D586 <= c && c <= 0x1D59F)
        || (0x1D5BA <= c && c <= 0x1D5D3)
        || (0x1D5EE <= c && c <= 0x1D607)
}

pub open spec fn spec_lower_block_10(c: u32) -> bool {
    (0x1D622 <= c && c <= 0x1D63B)
        || (0x1D656 <= c && c <= 0x1D66F)
        || (0x1D68A <= c && c <= 0x1D6A5)
        || (0x1D6C2 <= c && c <= 0x1D6DA)
        || (0x1D6DC <= c && c <= 0x1D6E1)
        || (0x1D6FC <= c && c <= 0x1D714)
        || (0x1D716 <= c && c <= 0x1D71B)
        || (0x1D736 <= c && c <= 0x1D74E)
        || (0x1D750 <= c && c <= 0x1D755)
        || (0x1D770 <= c && c <= 0x1D788)
        || (0x1D78A <= c && c <= 0x1D78F)
        || (0x1D7AA <= c && c <= 0x1D7C2)
        || (0x1D7C4 <= c && c <= 0x1D7C9)
        || c == 0x1D7CB
        || (0x1DF00 <= c && c <= 0x1DF09)
        || (0x1DF0B <= c && c <= 0x1DF1E)
        || (0x1E922 <= c && c <= 0x1E943)
}

fn lower_block_10(c: u32) -> (r: bool)
    ensures
        r == spec_lower_block_10(c),
{
    (0x1D622 <= c && c <= 0x1D63B)
        || (0x1D656 <= c && c <= 0x1D66F)
        || (0x1D68A <= c && c <= 0x1D6A5)
        || (0x1D6C2 <= c && c <= 0x1D6DA)
        || (0x1D6DC <= c && c <= 0x1D6E1)
        || (0x1D6FC <= c && c <= 0x1D714)
        || (0x1D716 <= c && c <= 0x1D71B)
        || (0x1D736 <= c && c <= 0x1D74E)
        || (0x1D750 <= c && c <= 0x1D755)
        || (0x1D770 <= c && c <= 0x1D788)
        || (0x1D78A <= c && c <= 0x1D78F)
        || (0x1D7AA <= c && c <= 0x1D7C2)
        || (0x1D7C4 <= c && c <= 0x1D7C9)
        || c == 0x1D7CB
        || (0x1DF00 <= c && c <= 0x1DF09)
        || (0x1DF0B <= c && c <= 0x1DF1E)
        || (0x1E922 <= c && c <= 0x1E943)
}

/// The lowercase letters.
#[verifier::opaque]
pub open spec fn spec_is_lowercase_cpt(c: u32) -> bool {
    spec_lower_block_0(c)
        || spec_lower_block_1(c)
        || spec_lower_block_2(c)
        || spec_lower_block_3(c)
        || spec_lower_block_4(c)
        || spec_lower_block_5(c)
        || spec_lower_block_6(c)
        || spec_lower_block_7(c)
        || spec_lower_block_8(c)
        || spec_lower_block_9(c)
        || spec_lower_block_10(c)
}

/// The lowercase letters.
pub fn is_lowercase_cpt(c: u32) -> (r: bool)
    ensures
        r == spec_is_lowercase_cpt(c),
{
    proof {
        reveal(spec_is_lowercase_cpt);
    }
    lower_block_0(c)
        || lower_block_1(c)
        || lower_block_2(c)
        || lower_block_3(c)
        || lower_block_4(c)
        || lower_block_5(c)
        || lower_block_6(c)
        || lower_block_7(c)
        || lower_block_8(c)
        || lower_block_9(c)
        || lower_block_10(c)
}

pub open spec fn spec_upper_block_0(c: u32) -> bool {
    (0x41 <= c && c <= 0x5A)
        || (0xC0 <= c && c <= 0xD6)
        || (0xD8 <= c && c <= 0xDE)
        || c == 0x100
        || c == 0x102
        || c == 0x104
        || c == 0x106
        || c == 0x108
        || c == 0x10A
        || c == 0x10C
        || c == 0x10E
        || c == 0x110
        || c == 0x112
        || c == 0x114
        || c == 0x116
        || c == 0x118
        || c == 0x11A
        || c == 0x11C
        || c == 0x11E
        || c == 0x120
        || c == 0x122
        || c == 0x124
        || c == 0x126
        || c == 0x128
        || c == 0x12A
        || c == 0x12C
        || c == 0x12E
        || c == 0x130
        || c == 0x132
        || c == 0x134
        || c == 0x136
        || c == 0x139
        || c == 0x13B
        || c == 0x13D
        || c == 0x13F
        || c == 0x141
        || c == 0x143
        || c == 0x145
        || c == 0x147
        || c == 0x14A
        || c == 0x14C
        || c == 0x14E
        || c == 0x150
        || c == 0x152
        || c == 0x154
        || c == 0x156
        || c == 0x158
        || c == 0x15A
        || c == 0x15C
        || c == 0x15E
        || c == 0x160
        || c == 0x162
        || c == 0x164
        || c == 0x166
        || c == 0x168
        || c == 0x16A
        || c == 0x16C
        || c == 0x16E
        || c == 0x170
        || c == 0x172
        || c == 0x174
        || c == 0x176
        || (0x178 <= c && c <= 0x179)
        || c == 0x17B
}

fn upper_block_0(c: u32) -> (r: bool)
    ensures
        r == spec_upper_block_0(c),
{
    (0x41 <= c && c <= 0x5A)
        || (0xC0 <= c && c <= 0xD6)
        || (0xD8 <= c && c <= 0xDE)
        || c == 0x100
        || c == 0x102
        || c == 0x104
        || c == 0x106
        || c == 0x108
        || c == 0x10A
        || c == 0x10C
        || c == 0x10E
        || c == 0x110
        || c == 0x112
        || c == 0x114
        || c == 0x116
        || c == 0x118
        || c == 0x11A
        || c == 0x11C
        || c == 0x11E
        || c == 0x120
        || c == 0x122
        || c == 0x124
        || c == 0x126
        || c == 0x128
        || c == 0x12A
        || c == 0x12C
        || c == 0x12E
        || c == 0x130
        || c == 0x132
        || c == 0x134
        || c == 0x136
        || c == 0x139
        || c == 0x13B
        || c == 0x13D
        || c == 0x13F
        || c == 0x141
        || c == 0x143
        || c == 0x145
        || c == 0x147
        || c == 0x14A
        || c == 0x14C
        || c == 0x14E
        || c == 0x150
        || c == 0x152
        || c == 0x154
        || c == 0x156
        || c == 0x158
        || c == 0x15A
        || c == 0x15C
        || c == 0x15E
        || c == 0x160
        || c == 0x162
        || c == 0x164
        || c == 0x166
        || c == 0x168
        || c == 0x16A
        || c == 0x16C
        || c == 0x16E
        || c == 0x170
        || c == 0x172
        || c == 0x174
        || c == 0x176
        || (0x178 <= c && c <= 0x179)
        || c == 0x17B
}

pub open spec fn spec_upper_block_1(c: u32) -> bool {
    c == 0x17D
        || (0x181 <= c && c <= 0x182)
        || c == 0x184
        || (0x186 <= c && c <= 0x187)
        || (0x189 <= c && c <= 0x18B)
        || (0x18E <= c && c <= 0x191)
        || (0x193 <= c && c <= 0x194)
        || (0x196 <= c && c <= 0x198)
        || (0x19C <= c && c <= 0x19D)
        || (0x19F <= c && c <= 0x1A0)
        || c == 0x1A2
        || c == 0x1A4
        || (0x1A6 <= c && c <= 0x1A7)
        || c == 0x1A9
        || c == 0x1AC
        || (0x1AE <= c && c <= 0x1AF)
        || (0x1B1 <= c && c <= 0x1B3)
        || c == 0x1B5
        || (0x1B7 <= c && c <= 0x1B8)
        || c == 0x1BC
        || c == 0x1C4
        || c == 0x1C7
        || c == 0x1CA
        || c == 0x1CD
        || c == 0x1CF
        || c == 0x1D1
        || c == 0x1D3
        || c == 0x1D5
        || c == 0x1D7
        || c == 0x1D9
        || c == 0x1DB
        || c == 0x1DE
        || c == 0x1E0
        || c == 0x1E2
        || c == 0x1E4
        || c == 0x1E6
        || c == 0x1E8
        || c == 0x1EA
        || c == 0x1EC
        || c == 0x1EE
        || c == 0x1F1
        || c == 0x1F4
        || (0x1F6 <= c && c <= 0x1F8)
        || c == 0x1FA
        || c == 0x1FC
        || c == 0x1FE
        || c == 0x200
        || c == 0x202
        || c == 0x204
        || c == 0x206
        || c == 0x208
        || c == 0x20A
        || c == 0x20C
        || c == 0x20E
        || c == 0x210
        || c == 0x212
        || c == 0x214
        || c == 0x216
        || c == 0x218
        || c == 0x21A
        || c == 0x21C
        || c == 0x21E
        || c == 0x220
        || c == 0x222
}

fn upper_block_1(c: u32) -> (r: bool)
    ensures
        r == spec_upper_block_1(c),
{
    c == 0x17D
        || (0x181 <= c && c <= 0x182)
        || c == 0x184
        || (0x186 <= c && c <= 0x187)
        || (0x189 <= c && c <= 0x18B)
        || (0x18E <= c && c <= 0x191)
        || (0x193 <= c && c <= 0x194)
        || (0x196 <= c && c <= 0x198)
        || (0x19C <= c && c <= 0x19D)
        || (0x19F <= c && c <= 0x1A0)
        || c == 0x1A2
        || c == 0x1A4
        || (0x1A6 <= c && c <= 0x1A7)
        || c == 0x1A9
        || c == 0x1AC
        || (0x1AE <= c && c <= 0x1AF)
        || (0x1B1 <= c && c <= 0x1B3)
        || c == 0x1B5
        || (0x1B7 <= c && c <= 0x1B8)
        || c == 0x1BC
        || c == 0x1C4
        || c == 0x1C7
        || c == 0x1CA
        || c == 0x1CD
        || c == 0x1CF
        || c == 0x1D1
        || c == 0x1D3
        || c == 0x1D5
        || c == 0x1D7
        || c == 0x1D9
        || c == 0x1DB
        || c == 0x1DE
        || c == 0x1E0
        || c == 0x1E2
        || c == 0x1E4
        || c == 0x1E6
        || c == 0x1E8
        || c == 0x1EA
        || c == 0x1EC
        || c == 0x1EE
        || c == 0x1F1
        || c == 0x1F4
        || (0x1F6 <= c && c <= 0x1F8)
        || c == 0x1FA
        || c == 0x1FC
        || c == 0x1FE
        || c == 0x200
        || c == 0x202
        || c == 0x204
        || c == 0x206
        || c == 0x208
        || c == 0x20A
        || c == 0x20C
        || c == 0x20E
        || c == 0x210
        || c == 0x212
        || c == 0x214
        || c == 0x216
        || c == 0x218
        || c == 0x21A
        || c == 0x21C
        || c == 0x21E
        || c == 0x220
        || c == 0x222
}

pub open spec fn spec_upper_block_2(c: u32) -> bool {
    c == 0x224
        || c == 0x226
        || c == 0x228
        || c == 0x22A
        || c == 0x22C
        || c == 0x22E
        || c == 0x230
        || c == 0x232
        || (0x23A <= c && c <= 0x23B)
        || (0x23D <= c && c <= 0x23E)
        || c == 0x241
        || (0x243 <= c && c <= 0x246)
        || c == 0x248
        || c == 0x24A
        || c == 0x24C
        || c == 0x24E
        || c == 0x370
        || c == 0x372
        || c == 0x376
        || c == 0x37F
        || c == 0x386
        || (0x388 <= c && c <= 0x38A)
        || c == 0x38C
        || (0x38E <= c && c <= 0x38F)
        || (0x391 <= c && c <= 0x3A1)
        || (0x3A3 <= c && c <= 0x3AB)
        || c == 0x3CF
        || (0x3D2 <= c && c <= 0x3D4)
        || c == 0x3D8
        || c == 0x3DA
        || c == 0x3DC
        || c == 0x3DE
        || c == 0x3E0
        || c == 0x3E2
        || c == 0x3E4
        || c == 0x3E6
        || c == 0x3E8
        || c == 0x3EA
        || c == 0x3EC
        || c == 0x3EE
        || c == 0x3F4
        || c == 0x3F7
        || (0x3F9 <= c && c <= 0x3FA)
        || (0x3FD <= c && c <= 0x42F)
        || c == 0x460
        || c == 0x462
        || c == 0x464
        || c == 0x466
        || c == 0x468
        || c == 0x46A
        || c == 0x46C
        || c == 0x46E
        || c == 0x470
        || c == 0x472
        || c == 0x474
        || c == 0x476
        || c == 0x478
        || c == 0x47A
        || c == 0x47C
        || c == 0x47E
        || c == 0x480
        || c == 0x48A
        || c == 0x48C
        || c == 0x48E
}

fn upper_block_2(c: u32) -> (r: bool)
    ensures
        r == spec_upper_block_2(c),
{
    c == 0x224
        || c == 0x226
        || c == 0x228
        || c == 0x22A
        || c == 0x22C
        || c == 0x22E
        || c == 0x230
        || c == 0x232
        || (0x23A <= c && c <= 0x23B)
        || (0x23D <= c && c <= 0x23E)
        || c == 0x241
        || (0x243 <= c && c <= 0x246)
        || c == 0x248
        || c == 0x24A
        || c == 0x24C
        || c == 0x24E
        || c == 0x370
        || c == 0x372
        || c == 0x376
        || c == 0x37F
        || c == 0x386
        || (0x388 <= c && c <= 0x38A)
        || c == 0x38C
        || (0x38E <= c && c <= 0x38F)
        || (0x391 <= c && c <= 0x3A1)
        || (0x3A3 <= c && c <= 0x3AB)
        || c == 0x3CF
        || (0x3D2 <= c && c <= 0x3D4)
        || c == 0x3D8
        || c == 0x3DA
        || c == 0x3DC
        || c == 0x3DE
        || c == 0x3E0
        || c == 0x3E2
        || c == 0x3E4
        || c == 0x3E6
        || c == 0x3E8
        || c == 0x3EA
        || c == 0x3EC
        || c == 0x3EE
        || c == 0x3F4
        || c == 0x3F7
        || (0x3F9 <= c && c <= 0x3FA)
        || (0x3FD <= c && c <= 0x42F)
        || c == 0x460
        || c == 0x462
        || c == 0x464
        || c == 0x466
        || c == 0x468
        || c == 0x46A
        || c == 0x46C
        || c == 0x46E
        || c == 0x470
        || c == 0x472
        || c == 0x474
        || c == 0x476
        || c == 0x478
        || c == 0x47A
        || c == 0x47C
        || c == 0x47E
        || c == 0x480
        || c == 0x48A
        || c == 0x48C
        || c == 0x48E
}

pub open spec fn spec_upper_block_3(c: u32) -> bool {
    c == 0x490
        || c == 0x492
        || c == 0x494
        || c == 0x496
        || c == 0x498
        || c == 0x49A
        || c == 0x49C
        || c == 0x49E
        || c == 0x4A0
        || c == 0x4A2
        || c == 0x4A4
        || c == 0x4A6
        || c == 0x4A8
        || c == 0x4AA
        || c == 0x4AC
        || c == 0x4AE
        || c == 0x4B0
        || c == 0x4B2
        || c == 0x4B4
        || c == 0x4B6
        || c == 0x4B8
        || c == 0x4BA
        || c == 0x4BC
        || c == 0x4BE
        || (0x4C0 <= c && c <= 0x4C1)
        || c == 0x4C3
        || c == 0x4C5
        || c == 0x4C7
        || c == 0x4C9
        || c == 0x4CB
        || c == 0x4CD
        || c == 0x4D0
        || c == 0x4D2
        || c == 0x4D4
        || c == 0x4D6
        || c == 0x4D8
        || c == 0x4DA
        || c == 0x4DC
        || c == 0x4DE
        || c == 0x4E0
        || c == 0x4E2
        || c == 0x4E4
        || c == 0x4E6
        || c == 0x4E8
        || c == 0x4EA
        || c == 0x4EC
        || c == 0x4EE
        || c == 0x4F0
        || c == 0x4F2
        || c == 0x4F4
        || c == 0x4F6
        || c == 0x4F8
        || c == 0x4FA
        || c == 0x4FC
        || c == 0x4FE
        || c == 0x500
        || c == 0x502
        || c == 0x504
        || c == 0x506
        || c == 0x508
        || c == 0x50A
        || c == 0x50C
        || c == 0x50E
        || c == 0x510
}

fn upper_block_3(c: u32) -> (r: bool)
    ensures
        r == spec_upper_block_3(c),
{
    c == 0x490
        || c == 0x492
        || c == 0x494
        || c == 0x496
        || c == 0x498
        || c == 0x49A
        || c == 0x49C
        || c == 0x49E
        || c == 0x4A0
        || c == 0x4A2
        || c == 0x4A4
        || c == 0x4A6
        || c == 0x4A8
        || c == 0x4AA
        || c == 0x4AC
        || c == 0x4AE
        || c == 0x4B0
        || c == 0x4B2
        || c == 0x4B4
        || c == 0x4B6
        || c == 0x4B8
        || c == 0x4BA
        || c == 0x4BC
        || c == 0x4BE
        || (0x4C0 <= c && c <= 0x4C1)
        || c == 0x4C3
        || c == 0x4C5
        || c == 0x4C7
        || c == 0x4C9
        || c == 0x4CB
        || c == 0x4CD
        || c == 0x4D0
        || c == 0x4D2
        || c == 0x4D4
        || c == 0x4D6
        || c == 0x4D8
        || c == 0x4DA
        || c == 0x4DC
        || c == 0x4DE
        || c == 0x4E0
        || c == 0x4E2
        || c == 0x4E4
        || c == 0x4E6
        || c == 0x4E8
        || c == 0x4EA
        || c == 0x4EC
        || c == 0x4EE
        || c == 0x4F0
        || c == 0x4F2
        || c == 0x4F4
        || c == 0x4F6
        || c == 0x4F8
        || c == 0x4FA
        || c == 0x4FC
        || c == 0x4FE
        || c == 0x500
        || c == 0x502
        || c == 0x504
        || c == 0x506
        || c == 0x508
        || c == 0x50A
        || c == 0x50C
        || c == 0x50E
        || c == 0x510
}

pub open spec fn spec_upper_block_4(c: u32) -> bool {
    c == 0x512
        || c == 0x514
        || c == 0x516
        || c == 0x518
        || c == 0x51A
        || c == 0x51C
        || c == 0x51E
        || c == 0x520
        || c == 0x522
        || c == 0x524
        || c == 0x526
        || c == 0x528
        || c == 0x52A
        || c == 0x52C
        || c == 0x52E
        || (0x531 <= c && c <= 0x556)
        || (0x10A0 <= c && c <= 0x10C5)
        || c == 0x10C7
        || c == 0x10CD
        || (0x13A0 <= c && c <= 0x13F5)
        || (0x1C90 <= c && c <= 0x1CBA)
        || (0x1CBD <= c && c <= 0x1CBF)
        || c == 0x1E00
        || c == 0x1E02
        || c == 0x1E04
        || c == 0x1E06
        || c == 0x1E08
        || c == 0x1E0A
        || c == 0x1E0C
        || c == 0x1E0E
        || c == 0x1E10
        || c == 0x1E12
        || c == 0x1E14
        || c == 0x1E16
        || c == 0x1E18
        || c == 0x1E1A
        || c == 0x1E1C
        || c == 0x1E1E
        || c == 0x1E20
        || c == 0x1E22
        || c == 0x1E24
        || c == 0x1E26
        || c == 0x1E28
        || c == 0x1E2A
        || c == 0x1E2C
        || c == 0x1E2E
        || c == 0x1E30
        || c == 0x1E32
        || c == 0x1E34
        || c == 0x1E36
        || c == 0x1E38
        || c == 0x1E3A
        || c == 0x1E3C
        || c == 0x1E3E
        || c == 0x1E40
        || c == 0x1E42
        || c == 0x1E44
        || c == 0x1E46
        || c == 0x1E48
        || c == 0x1E4A
        || c == 0x1E4C
        || c == 0x1E4E
        || c == 0x1E50
        || c == 0x1E52
}

fn upper_block_4(c: u32) -> (r: bool)
    ensures
        r == spec_upper_block_4(c),
{
    c == 0x512
        || c == 0x514
        || c == 0x516
        || c == 0x518
        || c == 0x51A
        || c == 0x51C
        || c == 0x51E
        || c == 0x520
        || c == 0x522
        || c == 0x524
        || c == 0x526
        || c == 0x528
        || c == 0x52A
        || c == 0x52C
        || c == 0x52E
        || (0x531 <= c && c <= 0x556)
        || (0x10A0 <= c && c <= 0x10C5)
        || c == 0x10C7
        || c == 0x10CD
        || (0x13A0 <= c && c <= 0x13F5)
        || (0x1C90 <= c && c <= 0x1CBA)
        || (0x1CBD <= c && c <= 0x1CBF)
        || c == 0x1E00
        || c == 0x1E02
        || c == 0x1E04
        || c == 0x1E06
        || c == 0x1E08
        || c == 0x1E0A
        || c == 0x1E0C
        || c == 0x1E0E
        || c == 0x1E10
        || c == 0x1E12
        || c == 0x1E14
        || c == 0x1E16
        || c == 0x1E18
        || c == 0x1E1A
        || c == 0x1E1C
        || c == 0x1E1E
        || c == 0x1E20
        || c == 0x1E22
        || c == 0x1E24
        || c == 0x1E26
        || c == 0x1E28
        || c == 0x1E2A
        || c == 0x1E2C
        || c == 0x1E2E
        || c == 0x1E30
        || c == 0x1E32
        || c == 0x1E34
        || c == 0x1E36
        || c == 0x1E38
        || c == 0x1E3A
        || c == 0x1E3C
        || c == 0x1E3E
        || c == 0x1E40
        || c == 0x1E42
        || c == 0x1E44
        || c == 0x1E46
        || c == 0x1E48
        || c == 0x1E4A
        || c == 0x1E4C
        || c == 0x1E4E
        || c == 0x1E50
        || c == 0x1E52
}

pub open spec fn spec_upper_block_5(c: u32) -> bool {
    c == 0x1E54
        || c == 0x1E56
        || c == 0x1E58
        || c == 0x1E5A
        || c == 0x1E5C
        || c == 0x1E5E
        || c == 0x1E60
        || c == 0x1E62
        || c == 0x1E64
        || c == 0x1E66
        || c == 0x1E68
        || c == 0x1E6A
        || c == 0x1E6C
        || c == 0x1E6E
        || c == 0x1E70
        || c == 0x1E72
        || c == 0x1E74
        || c == 0x1E76
        || c == 0x1E78
        || c == 0x1E7A
        || c == 0x1E7C
        || c == 0x1E7E
        || c == 0x1E80
        || c == 0x1E82
        || c == 0x1E84
        || c == 0x1E86
        || c == 0x1E88
        || c == 0x1E8A
        || c == 0x1E8C
        || c == 0x1E8E
        || c == 0x1E90
        || c == 0x1E92
        || c == 0x1E94
        || c == 0x1E9E
        || c == 0x1EA0
        || c == 0x1EA2
        || c == 0x1EA4
        || c == 0x1EA6
        || c == 0x1EA8
        || c == 0x1EAA
        || c == 0x1EAC
        || c == 0x1EAE
        || c == 0x1EB0
        || c == 0x1EB2
        || c == 0x1EB4
        || c == 0x1EB6
        || c == 0x1EB8
        || c == 0x1EBA
        || c == 0x1EBC
        || c == 0x1EBE
        || c == 0x1EC0
        || c == 0x1EC2
        || c == 0x1EC4
        || c == 0x1EC6
        || c == 0x1EC8
        || c == 0x1ECA
        || c == 0x1ECC
        || c == 0x1ECE
        || c == 0x1ED0
        || c == 0x1ED2
        || c == 0x1ED4
        || c == 0x1ED6
        || c == 0x1ED8
        || c == 0x1EDA
}

fn upper_block_5(c: u32) -> (r: bool)
    ensures
        r == spec_upper_block_5(c),
{
    c == 0x1E54
        || c == 0x1E56
        || c == 0x1E58
        || c == 0x1E5A
        || c == 0x1E5C
        || c == 0x1E5E
        || c == 0x1E60
        || c == 0x1E62
        || c == 0x1E64
        || c == 0x1E66
        || c == 0x1E68
        || c == 0x1E6A
        || c == 0x1E6C
        || c == 0x1E6E
        || c == 0x1E70
        || c == 0x1E72
        || c == 0x1E74
        || c == 0x1E76
        || c == 0x1E78
        || c == 0x1E7A
        || c == 0x1E7C
        || c == 0x1E7E
        || c == 0x1E80
        || c == 0x1E82
        || c == 0x1E84
        || c == 0x1E86
        || c == 0x1E88
        || c == 0x1E8A
        || c == 0x1E8C
        || c == 0x1E8E
        || c == 0x1E90
        || c == 0x1E92
        || c == 0x1E94
        || c == 0x1E9E
        || c == 0x1EA0
        || c == 0x1EA2
        || c == 0x1EA4
        || c == 0x1EA6
        || c == 0x1EA8
        || c == 0x1EAA
        || c == 0x1EAC
        || c == 0x1EAE
        || c == 0x1EB0
        || c == 0x1EB2
        || c == 0x1EB4
        || c == 0x1EB6
        || c == 0x1EB8
        || c == 0x1EBA
        || c == 0x1EBC
        || c == 0x1EBE
        || c == 0x1EC0
        || c == 0x1EC2
        || c == 0x1EC4
        || c == 0x1EC6
        || c == 0x1EC8
        || c == 0x1ECA
        || c == 0x1ECC
        || c == 0x1ECE
        || c == 0x1ED0
        || c == 0x1ED2
        || c == 0x1ED4
        || c == 0x1ED6
        || c == 0x1ED8
        || c == 0x1EDA
}

pub open spec fn spec_upper_block_6(c: u32) -> bool {
    c == 0x1EDC
        || c == 0x1EDE
        || c == 0x1EE0
        || c == 0x1EE2
        || c == 0x1EE4
        || c == 0x1EE6
        || c == 0x1EE8
        || c == 0x1EEA
        || c == 0x1EEC
        || c == 0x1EEE
        || c == 0x1EF0
        || c == 0x1EF2
        || c == 0x1EF4
        || c == 0x1EF6
        || c == 0x1EF8
        || c == 0x1EFA
        || c == 0x1EFC
        || c == 0x1EFE
        || (0x1F08 <= c && c <= 0x1F0F)
        || (0x1F18 <= c && c <= 0x1F1D)
        || (0x1F28 <= c && c <= 0x1F2F)
        || (0x1F38 <= c && c <= 0x1F3F)
        || (0x1F48 <= c && c <= 0x1F4D)
        || c == 0x1F59
        || c == 0x1F5B
        || c == 0x1F5D
        || c == 0x1F5F
        || (0x1F68 <= c && c <= 0x1F6F)
        || (0x1FB8 <= c && c <= 0x1FBB)
        || (0x1FC8 <= c && c <= 0x1FCB)
        || (0x1FD8 <= c && c <= 0x1FDB)
        || (0x1FE8 <= c && c <= 0x1FEC)
        || (0x1FF8 <= c && c <= 0x1FFB)
        || c == 0x2102
        || c == 0x2107
        || (0x210B <= c && c <= 0x210D)
        || (0x2110 <= c && c <= 0x2112)
        || c == 0x2115
        || (0x2119 <= c && c <= 0x211D)
        || c == 0x2124
        || c == 0x2126
        || c == 0x2128
        || (0x212A <= c && c <= 0x212D)
        || (0x2130 <= c && c <= 0x2133)
        || (0x213E <= c && c <= 0x213F)
        || c == 0x2145
        || c == 0x2183
        || (0x2C00 <= c && c <= 0x2C2F)
        || c == 0x2C60
        || (0x2C62 <= c && c <= 0x2C64)
        || c == 0x2C67
        || c == 0x2C69
        || c == 0x2C6B
        || (0x2C6D <= c && c <= 0x2C70)
        || c == 0x2C72
        || c == 0x2C75
        || (0x2C7E <= c && c <= 0x2C80)
        || c == 0x2C82
        || c == 0x2C84
        || c == 0x2C86
        || c == 0x2C88
        || c == 0x2C8A
        || c == 0x2C8C
        || c == 0x2C8E
}

fn upper_block_6(c: u32) -> (r: bool)
    ensures
        r == spec_upper_block_6(c),
{
    c == 0x1EDC
        || c == 0x1EDE
        || c == 0x1EE0
        || c == 0x1EE2
        || c == 0x1EE4
        || c == 0x1EE6
        || c == 0x1EE8
        || c == 0x1EEA
        || c == 0x1EEC
        || c == 0x1EEE
        || c == 0x1EF0
        || c == 0x1EF2
        || c == 0x1EF4
        || c == 0x1EF6
        || c == 0x1EF8
        || c == 0x1EFA
        || c == 0x1EFC
        || c == 0x1EFE
        || (0x1F08 <= c && c <= 0x1F0F)
        || (0x1F18 <= c && c <= 0x1F1D)
        || (0x1F28 <= c && c <= 0x1F2F)
        || (0x1F38 <= c && c <= 0x1F3F)
        || (0x1F48 <= c && c <= 0x1F4D)
        || c == 0x1F59
        || c == 0x1F5B
        || c == 0x1F5D
        || c == 0x1F5F
        || (0x1F68 <= c && c <= 0x1F6F)
        || (0x1FB8 <= c && c <= 0x1FBB)
        || (0x1FC8 <= c && c <= 0x1FCB)
        || (0x1FD8 <= c && c <= 0x1FDB)
        || (0x1FE8 <= c && c <= 0x1FEC)
        || (0x1FF8 <= c && c <= 0x1FFB)
        || c == 0x2102
        || c == 0x2107
        || (0x210B <= c && c <= 0x210D)
        || (0x2110 <= c && c <= 0x2112)
        || c == 0x2115
        || (0x2119 <= c && c <= 0x211D)
        || c == 0x2124
        || c == 0x2126
        || c == 0x2128
        || (0x212A <= c && c <= 0x212D)
        || (0x2130 <= c && c <= 0x2133)
        || (0x213E <= c && c <= 0x213F)
        || c == 0x2145
        || c == 0x2183
        || (0x2C00 <= c && c <= 0x2C2F)
        || c == 0x2C60
        || (0x2C62 <= c && c <= 0x2C64)
        || c == 0x2C67
        || c == 0x2C69
        || c == 0x2C6B
        || (0x2C6D <= c && c <= 0x2C70)
        || c == 0x2C72
        || c == 0x2C75
        || (0x2C7E <= c && c <= 0x2C80)
        || c == 0x2C82
        || c == 0x2C84
        || c == 0x2C86
        || c == 0x2C88
        || c == 0x2C8A
        || c == 0x2C8C
        || c == 0x2C8E
}

pub open spec fn spec_upper_block_7(c: u32) -> bool {
    c == 0x2C90
        || c == 0x2C92
        || c == 0x2C94
        || c == 0x2C96
        || c == 0x2C98
        || c == 0x2C9A
        || c == 0x2C9C
        || c == 0x2C9E
        || c == 0x2CA0
        || c == 0x2CA2
        || c == 0x2CA4
        || c == 0x2CA6
        || c == 0x2CA8
        || c == 0x2CAA
        || c == 0x2CAC
        || c == 0x2CAE
        || c == 0x2CB0
        || c == 0x2CB2
        || c == 0x2CB4
        || c == 0x2CB6
        || c == 0x2CB8
        || c == 0x2CBA
        || c == 0x2CBC
        || c == 0x2CBE
        || c == 0x2CC0
        || c == 0x2CC2
        || c == 0x2CC4
        || c == 0x2CC6
        || c == 0x2CC8
        || c == 0x2CCA
        || c == 0x2CCC
        || c == 0x2CCE
        || c == 0x2CD0
        || c == 0x2CD2
        || c == 0x2CD4
        || c == 0x2CD6
        || c == 0x2CD8
        || c == 0x2CDA
        || c == 0x2CDC
        || c == 0x2CDE
        || c == 0x2CE0
        || c == 0x2CE2
        || c == 0x2CEB
        || c == 0x2CED
        || c == 0x2CF2
        || c == 0xA640
        || c == 0xA642
        || c == 0xA644
        || c == 0xA646
        || c == 0xA648
        || c == 0xA64A
        || c == 0xA64C
        || c == 0xA64E
        || c == 0xA650
        || c == 0xA652
        || c == 0xA654
        || c == 0xA656
        || c == 0xA658
        || c == 0xA65A
        || c == 0xA65C
        || c == 0xA65E
        || c == 0xA660
        || c == 0xA662
        || c == 0xA664
}

fn upper_block_7(c: u32) -> (r: bool)
    ensures
        r == spec_upper_block_7(c),
{
    c == 0x2C90
        || c == 0x2C92
        || c == 0x2C94
        || c == 0x2C96
        || c == 0x2C98
        || c == 0x2C9A
        || c == 0x2C9C
        || c == 0x2C9E
        || c == 0x2CA0
        || c == 0x2CA2
        || c == 0x2CA4
        || c == 0x2CA6
        || c == 0x2CA8
        || c == 0x2CAA
        || c == 0x2CAC
        || c == 0x2CAE
        || c == 0x2CB0
        || c == 0x2CB2
        || c == 0x2CB4
        || c == 0x2CB6
        || c == 0x2CB8
        || c == 0x2CBA
        || c == 0x2CBC
        || c == 0x2CBE
        || c == 0x2CC0
        || c == 0x2CC2
        || c == 0x2CC4
        || c == 0x2CC6
        || c == 0x2CC8
        || c == 0x2CCA
        || c == 0x2CCC
        || c == 0x2CCE
        || c == 0x2CD0
        || c == 0x2CD2
        || c == 0x2CD4
        || c == 0x2CD6
        || c == 0x2CD8
        || c == 0x2CDA
        || c == 0x2CDC
        || c == 0x2CDE
        || c == 0x2CE0
        || c == 0x2CE2
        || c == 0x2CEB
        || c == 0x2CED
        || c == 0x2CF2
        || c == 0xA640
        || c == 0xA642
        || c == 0xA644
        || c == 0xA646
        || c == 0xA648
        || c == 0xA64A
        || c == 0xA64C
        || c == 0xA64E
        || c == 0xA650
        || c == 0xA652
        || c == 0xA654
        || c == 0xA656
        || c == 0xA658
        || c == 0xA65A
        || c == 0xA65C
        || c == 0xA65E
        || c == 0xA660
        || c == 0xA662
        || c == 0xA664
}

pub open spec fn spec_upper_block_8(c: u32) -> bool {
    c == 0xA666
        || c == 0xA668
        || c == 0xA66A
        || c == 0xA66C
        || c == 0xA680
        || c == 0xA682
        || c == 0xA684
        || c == 0xA686
        || c == 0xA688
        || c == 0xA68A
        || c == 0xA68C
        || c == 0xA68E
        || c == 0xA690
        || c == 0xA692
        || c == 0xA694
        || c == 0xA696
        || c == 0xA698
        || c == 0xA69A
        || c == 0xA722
        || c == 0xA724
        || c == 0xA726
        || c == 0xA728
        || c == 0xA72A
        || c == 0xA72C
        || c == 0xA72E
        || c == 0xA732
        || c == 0xA734
        || c == 0xA736
        || c == 0xA738
        || c == 0xA73A
        || c == 0xA73C
        || c == 0xA73E
        || c == 0xA740
        || c == 0xA742
        || c == 0xA744
        || c == 0xA746
        || c == 0xA748
        || c == 0xA74A
        || c == 0xA74C
        || c == 0xA74E
        || c == 0xA750
        || c == 0xA752
        || c == 0xA754
        || c == 0xA756
        || c == 0xA758
        || c == 0xA75A
        || c == 0xA75C
        || c == 0xA75E
        || c == 0xA760
        || c == 0xA762
        || c == 0xA764
        || c == 0xA766
        || c == 0xA768
        || c == 0xA76A
        || c == 0xA76C
        || c == 0xA76E
        || c == 0xA779
        || c == 0xA77B
        || (0xA77D <= c && c <= 0xA77E)
        || c == 0xA780
        || c == 0xA782
        || c == 0xA784
        || c == 0xA786
        || c == 0xA78B
}

fn upper_block_8(c: u32) -> (r: bool)
    ensures
        r == spec_upper_block_8(c),
{
    c == 0xA666
        || c == 0xA668
        || c == 0xA66A
        || c == 0xA66C
        || c == 0xA680
        || c == 0xA682
        || c == 0xA684
        || c == 0xA686
        || c == 0xA688
        || c == 0xA68A
        || c == 0xA68C
        || c == 0xA68E
        || c == 0xA690
        || c == 0xA692
        || c == 0xA694
        || c == 0xA696
        || c == 0xA698
        || c == 0xA69A
        || c == 0xA722
        || c == 0xA724
        || c == 0xA726
        || c == 0xA728
        || c == 0xA72A
        || c == 0xA72C
        || c == 0xA72E
        || c == 0xA732
        || c == 0xA734
        || c == 0xA736
        || c == 0xA738
        || c == 0xA73A
        || c == 0xA73C
        || c == 0xA73E
        || c == 0xA740
        || c == 0xA742
        || c == 0xA744
        || c == 0xA746
        || c == 0xA748
        || c == 0xA74A
        || c == 0xA74C
        || c == 0xA74E
        || c == 0xA750
        || c == 0xA752
        || c == 0xA754
        || c == 0xA756
        || c == 0xA758
        || c == 0xA75A
        || c == 0xA75C
        || c == 0xA75E
        || c == 0xA760
        || c == 0xA762
        || c == 0xA764
        || c == 0xA766
        || c == 0xA768
        || c == 0xA76A
        || c == 0xA76C
        || c == 0xA76E
        || c == 0xA779
        || c == 0xA77B
        || (0xA77D <= c && c <= 0xA77E)
        || c == 0xA780
        || c == 0xA782
        || c == 0xA784
        || c == 0xA786
        || c == 0xA78B
}

pub open spec fn spec_upper_block_9(c: u32) -> bool {
    c == 0xA78D
        || c == 0xA790
        || c == 0xA792
        || c == 0xA796
        || c == 0xA798
        || c == 0xA79A
        || c == 0xA79C
        || c == 0xA79E
        || c == 0xA7A0
        || c == 0xA7A2
        || c == 0xA7A4
        || c == 0xA7A6
        || c == 0xA7A8
        || (0xA7AA <= c && c <= 0xA7AE)
        || (0xA7B0 <= c && c <= 0xA7B4)
        || c == 0xA7B6
        || c == 0xA7B8
        || c == 0xA7BA
        || c == 0xA7BC
        || c == 0xA7BE
        || c == 0xA7C0
        || c == 0xA7C2
        || (0xA7C4 <= c && c <= 0xA7C7)
        || c == 0xA7C9
        || c == 0xA7D0
        || c == 0xA7D6
        || c == 0xA7D8
        || c == 0xA7F5
        || (0xFF21 <= c && c <= 0xFF3A)
        || (0x10400 <= c && c <= 0x10427)
        || (0x104B0 <= c && c <= 0x104D3)
        || (0x10570 <= c && c <= 0x1057A)
        || (0x1057C <= c && c <= 0x1058A)
        || (0x1058C <= c && c <= 0x10592)
        || (0x10594 <= c && c <= 0x10595)
        || (0x10C80 <= c && c <= 0x10CB2)
        || (0x118A0 <= c && c <= 0x118BF)
        || (0x16E40 <= c && c <= 0x16E5F)
        || (0x1D400 <= c && c <= 0x1D419)
        || (0x1D434 <= c && c <= 0x1D44D)
        || (0x1D468 <= c && c <= 0x1D481)
        || c == 0x1D49C
        || (0x1D49E <= c && c <= 0x1D49F)
        || c == 0x1D4A2
        || (0x1D4A5 <= c && c <= 0x1D4A6)
        || (0x1D4A9 <= c && c <= 0x1D4AC)
        || (0x1D4AE <= c && c <= 0x1D4B5)
        || (0x1D4D0 <= c && c <= 0x1D4E9)
        || (0x1D504 <= c && c <= 0x1D505)
        || (0x1D507 <= c && c <= 0x1D50A)
        || (0x1D50D <= c && c <= 0x1D514)
        || (0x1D516 <= c && c <= 0x1D51C)
        || (0x1D538 <= c && c <= 0x1D539)
        || (0x1D53B <= c && c <= 0x1D53E)
        || (0x1D540 <= c && c <= 0x1D544)
        || c == 0x1D546
        || (0x1D54A <= c && c <= 0x1D550)
        || (0x1D56C <= c && c <= 0x1D585)
        || (0x1D5A0 <= c && c <= 0x1D5B9)
        || (0x1D5D4 <= c && c <= 0x1D5ED)
        || (0x1D608 <= c && c <= 0x1D621)
        || (0x1D63C <= c && c <= 0x1D655)
        || (0x1D670 <= c && c <= 0x1D689)
        || (0x1D6A8 <= c && c <= 0x1D6C0)
}

fn upper_block_9(c: u32) -> (r: bool)
    ensures
        r == spec_upper_block_9(c),
{
    c == 0xA78D
        || c == 0xA790
        || c == 0xA792
        || c == 0xA796
        || c == 0xA798
        || c == 0xA79A
        || c == 0xA79C
        || c == 0xA79E
        || c == 0xA7A0
        || c == 0xA7A2
        || c == 0xA7A4
        || c == 0xA7A6
        || c == 0xA7A8
        || (0xA7AA <= c && c <= 0xA7AE)
        || (0xA7B0 <= c && c <= 0xA7B4)
        || c == 0xA7B6
        || c == 0xA7B8
        || c == 0xA7BA
        || c == 0xA7BC
        || c == 0xA7BE
        || c == 0xA7C0
        || c == 0xA7C2
        || (0xA7C4 <= c && c <= 0xA7C7)
        || c == 0xA7C9
        || c == 0xA7D0
        || c == 0xA7D6
        || c == 0xA7D8
        || c == 0xA7F5
        || (0xFF21 <= c && c <= 0xFF3A)
        || (0x10400 <= c && c <= 0x10427)
        || (0x104B0 <= c && c <= 0x104D3)
        || (0x10570 <= c && c <= 0x1057A)
        || (0x1057C <= c && c <= 0x1058A)
        || (0x1058C <= c && c <= 0x10592)
        || (0x10594 <= c && c <= 0x10595)
        || (0x10C80 <= c && c <= 0x10CB2)
        || (0x118A0 <= c && c <= 0x118BF)
        || (0x16E40 <= c && c <= 0x16E5F)
        || (0x1D400 <= c && c <= 0x1D419)
        || (0x1D434 <= c && c <= 0x1D44D)
        || (0x1D468 <= c && c <= 0x1D481)
        || c == 0x1D49C
        || (0x1D49E <= c && c <= 0x1D49F)
        || c == 0x1D4A2
        || (0x1D4A5 <= c && c <= 0x1D4A6)
        || (0x1D4A9 <= c && c <= 0x1D4AC)
        || (0x1D4AE <= c && c <= 0x1D4B5)
        || (0x1D4D0 <= c && c <= 0x1D4E9)
        || (0x1D504 <= c && c <= 0x1D505)
        || (0x1D507 <= c && c <= 0x1D50A)
        || (0x1D50D <= c && c <= 0x1D514)
        || (0x1D516 <= c && c <= 0x1D51C)
        || (0x1D538 <= c && c <= 0x1D539)
        || (0x1D53B <= c && c <= 0x1D53E)
        || (0x1D540 <= c && c <= 0x1D544)
        || c == 0x1D546
        || (0x1D54A <= c && c <= 0x1D550)
        || (0x1D56C <= c && c <= 0x1D585)
        || (0x1D5A0 <= c && c <= 0x1D5B9)
        || (0x1D5D4 <= c && c <= 0x1D5ED)
        || (0x1D608 <= c && c <= 0x1D621)
        || (0x1D63C <= c && c <= 0x1D655)
        || (0x1D670 <= c && c <= 0x1D689)
        || (0x1D6A8 <= c && c <= 0x1D6C0)
}

pub open spec fn spec_upper_block_10(c: u32) -> bool {
    (0x1D6E2 <= c && c <= 0x1D6FA)
        || (0x1D71C <= c && c <= 0x1D734)
        || (0x1D756 <= c && c <= 0x1D76E)
        || (0x1D790 <= c && c <= 0x1D7A8)
        || c == 0x1D7CA
        || (0x1E900 <= c && c <= 0x1E921)
}

fn upper_block_10(c: u32) -> (r: bool)
    ensures
        r == spec_upper_block_10(c),
{
    (0x1D6E2 <= c && c <= 0x1D6FA)
        || (0x1D71C <= c && c <= 0x1D734)
        || (0x1D756 <= c && c <= 0x1D76E)
        || (0x1D790 <= c && c <= 0x1D7A8)
        || c == 0x1D7CA
        || (0x1E900 <= c && c <= 0x1E921)
}

/// The uppercase letters.
#[verifier::opaque]
pub open spec fn spec_is_uppercase_cpt(c: u32) -> bool {
    spec_upper_block_0(c)
        || spec_upper_block_1(c)
        || spec_upper_block_2(c)
        || spec_upper_block_3(c)
        || spec_upper_block_4(c)
        || spec_upper_block_5(c)
        || spec_upper_block_6(c)
        || spec_upper_block_7(c)
        || spec_upper_block_8(c)
        || spec_upper_block_9(c)
        || spec_upper_block_10(c)
}

/// The uppercase letters.
pub fn is_uppercase_cpt(c: u32) -> (r: bool)
    ensures
        r == spec_is_uppercase_cpt(c),
{
    proof {
        reveal(spec_is_uppercase_cpt);
    }
    upper_block_0(c)
        || upper_block_1(c)
        || upper_block_2(c)
        || upper_block_3(c)
        || upper_block_4(c)
        || upper_block_5(c)
        || upper_block_6(c)
        || upper_block_7(c)
        || upper_block_8(c)
        || upper_block_9(c)
        || upper_block_10(c)
}

} // verus!
