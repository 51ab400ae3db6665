//! Detection of a Windows installer image from the leading bytes of a file.
//!
//! An ISO-9660 volume carries its volume descriptors in 2048-byte sectors
//! starting at byte 32768. Each descriptor opens with a type byte, the
//! signature `"CD001"`, and a version byte; descriptor type 1 is the primary
//! volume descriptor, type 255 the set terminator. The primary descriptor's
//! publisher identifier is the 128-byte text field at descriptor offset 318,
//! padded on the right with spaces.
//!
//! A file counts as a Windows installer image exactly when walking the
//! descriptors from byte 32768 reaches a primary volume descriptor whose
//! publisher identifier, with the format's space padding removed, is the
//! byte-for-byte literal `"MICROSOFT CORPORATION"`. Data that runs out, a
//! missing signature, or a terminator before any primary descriptor is not
//! an ISO-9660 volume for this purpose and never counts: a failed parse is
//! absorbed as a `false` classification, never an error.

use vstd::prelude::*;

verus! {

/// The byte offset of the first volume descriptor sector.
pub const DESCRIPTORS_START: usize = 32768;

/// The size of one volume descriptor sector.
pub const SECTOR_SIZE: usize = 2048;

/// How many leading bytes of a file the classification can ever look at:
/// the descriptor area is given 64 sectors before a parse is treated as
/// failed. A caller that hands in this much of a file loses nothing.
pub const HEADER_SCAN_LEN: usize = 32768 + 64 * 2048;

/// The ASCII bytes of `"MICROSOFT CORPORATION"`, the publisher identifier
/// that marks a Windows installer image.
pub open spec fn ms_publisher() -> Seq<u8> {
    seq![
        77u8, 73u8, 67u8, 82u8, 79u8, 83u8, 79u8, 70u8, 84u8, 32u8, 67u8, 79u8, 82u8, 80u8, 79u8,
        82u8, 65u8, 84u8, 73u8, 79u8, 78u8,
    ]
}

/// `s` with its trailing space bytes removed.
pub open spec fn trim_trailing_spaces(s: Seq<u8>) -> Seq<u8>
    decreases s.len(),
{
    if s.len() > 0 && s.last() == 32u8 {
        trim_trailing_spaces(s.drop_last())
    } else {
        s
    }
}

/// The descriptor at `off` carries the ISO-9660 signature `"CD001"`.
pub open spec fn has_iso_signature(data: Seq<u8>, off: int) -> bool {
    &&& data[off + 1] == 67u8
    &&& data[off + 2] == 68u8
    &&& data[off + 3] == 48u8
    &&& data[off + 4] == 48u8
    &&& data[off + 5] == 49u8
}

/// The publisher identifier field of the descriptor at `off`: the 128 bytes
/// at descriptor offset 318.
pub open spec fn publisher_field(data: Seq<u8>, off: int) -> Seq<u8> {
    data.subrange(off + 318, off + 446)
}

/// The descriptor at `off` names Microsoft as the publisher: its publisher
/// identifier, stripped of the format's space padding, is exactly the
/// expected byte string.
pub open spec fn publisher_is_microsoft(data: Seq<u8>, off: int) -> bool {
    trim_trailing_spaces(publisher_field(data, off)) == ms_publisher()
}

/// Walks the volume descriptors from byte offset `off`: `true` exactly when
/// a primary volume descriptor with the Microsoft publisher is reached
/// before the data ends, a signature is missing, or a terminator appears.
pub open spec fn windows_from(data: Seq<u8>, off: int) -> bool
    decreases data.len() - off,
{
    if off < 0 || off + 2048 > data.len() {
        false
    } else if !has_iso_signature(data, off) {
        false
    } else if data[off] == 1u8 {
        publisher_is_microsoft(data, off)
    } else if data[off] == 255u8 {
        false
    } else {
        windows_from(data, off + 2048)
    }
}

/// `data`, the leading bytes of a file, classifies the file as a Windows
/// installer image.
pub open spec fn spec_is_windows_iso(data: Seq<u8>) -> bool {
    windows_from(data, 32768)
}

/// Data too short to hold even one volume descriptor is never classified as
/// a Windows installer image.
pub proof fn lemma_short_data_not_windows(data: Seq<u8>)
    requires
        data.len() < 32768 + 2048,
    ensures
        !spec_is_windows_iso(data),
{
}

/// Whether the descriptor at `off` names Microsoft as the publisher.
fn publisher_matches(data: &Vec<u8>, off: usize) -> (r: bool)
    requires
        off + 2048 <= data@.len(),
    ensures
        r == publisher_is_microsoft(data@, off as int),
{
    let dlen: usize = data.len();
    let ghost field = publisher_field(data@, off as int);
    proof {
        assert(field.take(128) =~= field);
    }
    let mut flen: usize = 128;
    while flen > 0 && data[off + 318 + flen - 1] == 32u8
        invariant
            flen <= 128,
            dlen == data@.len(),
            off + 2048 <= dlen,
            field == publisher_field(data@, off as int),
            trim_trailing_spaces(field) == trim_trailing_spaces(field.take(flen as int)),
        decreases flen,
    {
        proof {
            let cur = field.take(flen as int);
            assert(cur.last() == field[flen - 1]);
            assert(field[flen - 1] == data@[off + 318 + flen - 1]);
            assert(cur.drop_last() =~= field.take(flen as int - 1));
        }
        flen = flen - 1;
    }
    proof {
        assert(trim_trailing_spaces(field) == field.take(flen as int)) by {
            if flen > 0 {
                assert(field.take(flen as int).last() == data@[off + 318 + flen - 1]);
            }
        }
    }
    if flen != 21 {
        proof {
            assert(trim_trailing_spaces(field) != ms_publisher());
        }
        return false;
    }
    let mut i: usize = 0;
    while i < 21
        invariant
            i <= 21,
            flen == 21,
            dlen == data@.len(),
            off + 2048 <= dlen,
            field == publisher_field(data@, off as int),
            trim_trailing_spaces(field) == field.take(21),
            forall|j: int| 0 <= j < i ==> field[j] == ms_publisher()[j],
        decreases 21 - i,
    {
        let expected = ms_publisher_byte(i);
        if data[off + 318 + i] != expected {
            proof {
                assert(field.take(21)[i as int] != ms_publisher()[i as int]);
                assert(trim_trailing_spaces(field) != ms_publisher());
            }
            return false;
        }
        i = i + 1;
    }
    proof {
        assert(field.take(21) =~= ms_publisher());
    }
    true
}

/// The byte at position `i` of the expected publisher identifier.
fn ms_publisher_byte(i: usize) -> (b: u8)
    requires
        i < 21,
    ensures
        b == ms_publisher()[i as int],
{
    if i == 0 {
        77
    } else if i == 1 {
        73
    } else if i == 2 {
        67
    } else if i == 3 {
        82
    } else if i == 4 {
        79
    } else if i == 5 {
        83
    } else if i == 6 {
        79
    } else if i == 7 {
        70
    } else if i == 8 {
        84
    } else if i == 9 {
        32
    } else if i == 10 {
        67
    } else if i == 11 {
        79
    } else if i == 12 {
        82
    } else if i == 13 {
        80
    } else if i == 14 {
        79
    } else if i == 15 {
        82
    } else if i == 16 {
        65
    } else if i == 17 {
        84
    } else if i == 18 {
        73
    } else if i == 19 {
        79
    } else {
        78
    }
}

/// Whether the leading bytes of a file classify it as a Windows installer
/// image: an ISO-9660 volume published by `"MICROSOFT CORPORATION"`. Any
/// data that does not parse as an ISO-9660 descriptor area yields `false`.
pub fn is_windows_iso(data: &Vec<u8>) -> (r: bool)
    ensures
        r == spec_is_windows_iso(data@),
{
    let mut off: usize = DESCRIPTORS_START;
    loop
        invariant
            off >= 32768,
            spec_is_windows_iso(data@) == windows_from(data@, off as int),
        decreases data@.len() - off,
    {
        if data.len() < off || data.len() - off < SECTOR_SIZE {
            return false;
        }
        if !(data[off + 1] == 67u8 && data[off + 2] == 68u8 && data[off + 3] == 48u8
            && data[off + 4] == 48u8 && data[off + 5] == 49u8) {
            return false;
        }
        let t = data[off];
        if t == 1 {
            return publisher_matches(data, off);
        }
        if t == 255 {
            return false;
        }
        off = off + SECTOR_SIZE;
    }
}

} // verus!
