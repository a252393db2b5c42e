//! File names and modes as the C strings that the video library takes.

use cstr_core::CString;
use vstd::prelude::*;
use vstd::slice::slice_to_vec;
use vstd::string::StringSliceAdditionalSpecFns;

verus! {

/// `CString::new` of `cstr_core`, with the string handed back as its bytes
/// (`CString::into_bytes_with_nul`) and the error as the place that it names
/// (`NulError::nul_position`). Not proved: as the crate's source has it, the
/// bytes are searched for the first zero byte; where there is one its
/// position is the error, and else the string is the bytes with one zero byte
/// after them.
#[verifier::external_body]
fn c_string_bytes(bytes: Vec<u8>) -> (r: Result<Vec<u8>, usize>)
    ensures
        r matches Ok(c) ==> !bytes@.contains(0u8) && c@ == bytes@.push(0u8),
        r matches Err(at) ==> at < bytes@.len() && bytes@[at as int] == 0u8 && forall|j: int|
            0 <= j < at ==> bytes@[j] != 0u8,
{
    match CString::new(bytes) {
        Ok(c) => Ok(c.into_bytes_with_nul()),
        Err(e) => Err(e.nul_position()),
    }
}

/// The C string for a text: its bytes and a zero byte after them. A text that
/// holds a zero byte has none: the error is the position of the first one.
pub fn c_string(text: &str) -> (r: Result<Vec<u8>, usize>)
    ensures
        r is Ok <==> !text.spec_bytes().contains(0u8),
        r matches Ok(c) ==> c@ == text.spec_bytes().push(0u8),
        r matches Err(at) ==> at < text.spec_bytes().len() && text.spec_bytes()[at as int] == 0u8
            && forall|j: int| 0 <= j < at ==> text.spec_bytes()[j] != 0u8,
{
    c_string_bytes(slice_to_vec(text.as_bytes()))
}

/// The mode in which a bitmap file is opened, as a C string: `rb` to read
/// it, `wb` to write it.
pub fn open_mode(write: bool) -> (mode: Vec<u8>)
    ensures
        mode@ == seq![if write { 0x77u8 } else { 0x72u8 }, 0x62u8, 0u8],
{
    let first: u8 = if write { 0x77 } else { 0x72 };
    let letters: Vec<u8> = vec![first, 0x62];
    match c_string_bytes(letters) {
        Ok(mode) => {
            assert(mode@ =~= seq![first, 0x62u8, 0u8]);
            mode
        },
        Err(at) => {
            proof {
                assert(letters@[0] == first && letters@[1] == 0x62u8);
                assert(false);
            }
            vstd::pervasive::unreached()
        },
    }
}

} // verus!
