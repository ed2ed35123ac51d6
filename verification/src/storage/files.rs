use vstd::prelude::*;

use crate::tools::encoding::{
    decode_utf16, decode_utf16_lossy, decode_wide, lemma_valid_decode, string_from_chars,
    trim_end_nul, trim_end_nul_chars,
};

verus! {

/// The file name held in the buffer that `DragQueryFileW` filled, decoded
/// strictly and without its trailing NUL characters; `None` when the buffer
/// is not valid UTF-16, in which case the dropped file is skipped.
pub fn dropped_file_name(buffer: &[u16]) -> (res: Option<String>)
    ensures
        res is Some <==> decode_utf16(buffer@) is Some,
        res matches Some(name) ==> name@ == trim_end_nul(decode_utf16(buffer@).unwrap()),
{
    match decode_wide(buffer) {
        Some(chars) => {
            let mut cs = chars;
            trim_end_nul_chars(&mut cs);
            Some(string_from_chars(cs.as_slice()))
        },
        None => None,
    }
}

/// Whenever the strict reading of a dropped file's name succeeds, it gives
/// the same name as the lossy reading.
pub proof fn lemma_strict_name_is_lossy_name(buffer: Seq<u16>)
    requires
        decode_utf16(buffer) is Some,
    ensures
        trim_end_nul(decode_utf16(buffer).unwrap()) == trim_end_nul(decode_utf16_lossy(buffer)),
{
    lemma_valid_decode(buffer);
}

} // verus!
