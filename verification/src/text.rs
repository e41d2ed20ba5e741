//! Strings as a caller hands them over: bytes that have yet to be found to be UTF-8.
use vstd::prelude::*;
use vstd::utf8::*;

use crate::error::{ErrorKind, SimpleError};
use crate::model;

verus! {

/// What `std::str::from_utf8` reports of bytes that are not UTF-8.
pub uninterp spec fn utf8_error(bytes: Seq<u8>) -> std::str::Utf8Error;

/// `std::str::from_utf8`: the text of the bytes, if they are UTF-8. What it reports otherwise is a
/// function of the bytes.
pub assume_specification[ std::str::from_utf8 ](bytes: &[u8]) -> (result: Result<
    &str,
    std::str::Utf8Error,
>)
    ensures
        result is Ok <==> valid_utf8(bytes@),
        result matches Ok(text) ==> text@ == decode_utf8(bytes@),
        result matches Err(e) ==> e == utf8_error(bytes@),
;

/// A string with an explicit length, in bytes.
pub struct KernelStringSlice {
    pub bytes: Vec<u8>,
}

/// What a string that ended at a null byte holds.
pub open spec fn c_string_text(bytes: Seq<u8>) -> Result<Seq<char>, ErrorKind> {
    if valid_utf8(bytes) {
        Ok(decode_utf8(bytes))
    } else {
        Err(ErrorKind::CString)
    }
}

/// What an optional string that ended at a null byte holds.
pub open spec fn optional_c_string_text(bytes: Option<Vec<u8>>) -> Result<
    Option<Seq<char>>,
    ErrorKind,
> {
    match bytes {
        None => Ok(None),
        Some(bytes) => match c_string_text(bytes@) {
            Ok(text) => Ok(Some(text)),
            Err(e) => Err(e),
        },
    }
}

/// The text of each slice.
pub open spec fn slice_texts(slices: Seq<KernelStringSlice>) -> Seq<Seq<char>> {
    slices.map_values(|s: KernelStringSlice| decode_utf8(s.bytes@))
}

/// Whether every slice is UTF-8.
pub open spec fn all_utf8(slices: Seq<KernelStringSlice>) -> bool {
    forall|i: int| 0 <= i < slices.len() ==> valid_utf8((#[trigger] slices[i]).bytes@)
}

/// The bytes of each slice.
pub open spec fn slices_bytes(slices: Seq<KernelStringSlice>) -> Seq<Seq<u8>> {
    slices.map_values(|s: KernelStringSlice| s.bytes@)
}

/// Whether a string is the first of those that are not UTF-8.
pub open spec fn is_first_invalid(strings: Seq<Seq<u8>>, i: int) -> bool {
    &&& 0 <= i < strings.len()
    &&& !valid_utf8(strings[i])
    &&& forall|j: int| 0 <= j < i ==> valid_utf8(#[trigger] strings[j])
}

/// The error for strings of which one is not UTF-8: that of the first.
pub open spec fn first_utf8_error(strings: Seq<Seq<u8>>) -> ErrorKind {
    ErrorKind::Utf8(utf8_error(strings[choose|i: int| is_first_invalid(strings, i)]))
}

/// There is but one first string that is not UTF-8.
pub proof fn lemma_first_utf8_error(strings: Seq<Seq<u8>>, i: int)
    requires
        is_first_invalid(strings, i),
    ensures
        first_utf8_error(strings) == ErrorKind::Utf8(utf8_error(strings[i])),
{
    let first = choose|k: int| is_first_invalid(strings, k);
    assert(is_first_invalid(strings, first));
    assert(!(first < i) && !(i < first));
}

/// How many bytes the slices hold, all together.
pub open spec fn slice_bytes(slices: Seq<KernelStringSlice>) -> nat
    decreases slices.len(),
{
    if slices.len() == 0 {
        0
    } else {
        slice_bytes(slices.drop_last()) + slices.last().bytes@.len()
    }
}

/// What an array of `len` slices holds; `None` is a null pointer.
pub open spec fn strings_text(slices: Option<Vec<KernelStringSlice>>, len: usize) -> Result<
    Seq<Seq<char>>,
    ErrorKind,
> {
    if len == 0 {
        Ok(Seq::empty())
    } else {
        match slices {
            None => Err(ErrorKind::NullStrings),
            Some(slices) => if all_utf8(slices@.take(len as int)) {
                Ok(slice_texts(slices@.take(len as int)))
            } else {
                Err(first_utf8_error(slices_bytes(slices@.take(len as int))))
            },
        }
    }
}

/// Whether an array of `len` slices, where there is one, is there in full.
pub open spec fn strings_complete(slices: Option<Vec<KernelStringSlice>>, len: usize) -> bool {
    slices matches Some(slices) ==> len <= slices@.len()
}

/// Whether an array of `len` slices is small enough for an Arrow column.
pub open spec fn strings_small(slices: Option<Vec<KernelStringSlice>>, len: usize) -> bool {
    slices matches Some(slices) ==> {
        &&& len <= i32::MAX
        &&& slice_bytes(slices@.take(len as int)) <= i32::MAX
    }
}

/// Whether an optional string is small enough for an Arrow column.
pub open spec fn optional_c_string_small(bytes: Option<Vec<u8>>) -> bool {
    bytes matches Some(bytes) ==> bytes@.len() <= i32::MAX
}

/// UTF-8 slices take as many bytes as their texts do.
pub proof fn lemma_slice_text_bytes(slices: Seq<KernelStringSlice>)
    requires
        all_utf8(slices),
    ensures
        model::text_bytes(slice_texts(slices)) == slice_bytes(slices),
    decreases slices.len(),
{
    if slices.len() > 0 {
        assert(slice_texts(slices).drop_last() =~= slice_texts(slices.drop_last()));
        assert(valid_utf8(slices[slices.len() - 1].bytes@));
        decode_utf8_encode_utf8(slices.last().bytes@);
        lemma_slice_text_bytes(slices.drop_last());
    }
}

/// The texts of a small array are small.
pub proof fn lemma_strings_small(
    slices: Option<Vec<KernelStringSlice>>,
    len: usize,
    texts: Seq<Seq<char>>,
)
    requires
        strings_complete(slices, len),
        strings_small(slices, len),
        strings_text(slices, len) == Ok::<Seq<Seq<char>>, ErrorKind>(texts),
    ensures
        texts.len() == len,
        texts.len() <= i32::MAX,
        model::text_bytes(texts) <= i32::MAX,
{
    if len > 0 {
        lemma_slice_text_bytes(slices->0@.take(len as int));
    }
}

/// The first slices take no more bytes than all of them.
proof fn lemma_slice_bytes_prefix(slices: Seq<KernelStringSlice>, len: int)
    requires
        0 <= len <= slices.len(),
    ensures
        slice_bytes(slices.take(len)) <= slice_bytes(slices),
    decreases slices.len(),
{
    if len < slices.len() {
        assert(slices.drop_last().take(len) =~= slices.take(len));
        lemma_slice_bytes_prefix(slices.drop_last(), len);
    } else {
        assert(slices.take(len) =~= slices);
    }
}

/// Whether an array of `len` slices, where there is one, is there in full.
pub fn check_strings_complete(slices: &Option<Vec<KernelStringSlice>>, len: usize) -> (complete:
    bool)
    ensures
        complete == strings_complete(*slices, len),
{
    match slices {
        None => true,
        Some(array) => len <= array.len(),
    }
}

/// Whether an array of `len` slices is small enough for an Arrow column.
pub fn check_strings_small(slices: &Option<Vec<KernelStringSlice>>, len: usize) -> (small: bool)
    requires
        strings_complete(*slices, len),
    ensures
        small == strings_small(*slices, len),
{
    match slices {
        None => true,
        Some(array) => {
            if len > i32::MAX as usize {
                return false;
            }
            let mut total: usize = 0;
            let ghost all = array@.take(len as int);
            for i in 0..len
                invariant
                    *slices == Some(*array),
                    len <= array@.len(),
                    len <= i32::MAX,
                    all == array@.take(len as int),
                    total == slice_bytes(all.take(i as int)),
                    total <= i32::MAX,
            {
                proof {
                    assert(all.take(i + 1).drop_last() =~= all.take(i as int));
                    lemma_slice_bytes_prefix(all, i + 1);
                }
                let size: usize = array[i].bytes.len();
                if size > i32::MAX as usize - total {
                    return false;
                }
                total = total + size;
            }
            assert(all.take(len as int) =~= all);
            true
        },
    }
}

/// Whether an optional string is small enough for an Arrow column.
pub fn check_optional_c_string_small(bytes: &Option<Vec<u8>>) -> (small: bool)
    ensures
        small == optional_c_string_small(*bytes),
{
    match bytes {
        None => true,
        Some(bytes) => bytes.len() <= i32::MAX as usize,
    }
}

/// Copies a string that ended at a null byte.
pub fn cloned_c_str(bytes: &Vec<u8>) -> (result: Result<String, SimpleError>)
    ensures
        match result {
            Ok(text) => c_string_text(bytes@) == Ok::<Seq<char>, ErrorKind>(text@),
            Err(e) => c_string_text(bytes@) == Err::<Seq<char>, ErrorKind>(e@),
        },
{
    match std::str::from_utf8(bytes.as_slice()) {
        Ok(text) => Ok(text.to_owned()),
        Err(_) => Err(SimpleError::CString),
    }
}

/// Copies a string that ended at a null byte, if there is one.
pub fn optional_c_string(bytes: &Option<Vec<u8>>) -> (result: Result<Option<String>, SimpleError>)
    ensures
        match result {
            Ok(None) => optional_c_string_text(*bytes) == Ok::<Option<Seq<char>>, ErrorKind>(None),
            Ok(Some(text)) => optional_c_string_text(*bytes) == Ok::<
                Option<Seq<char>>,
                ErrorKind,
            >(Some(text@)),
            Err(e) => optional_c_string_text(*bytes) == Err::<Option<Seq<char>>, ErrorKind>(e@),
        },
{
    match bytes {
        None => Ok(None),
        Some(bytes) => match cloned_c_str(bytes) {
            Ok(text) => Ok(Some(text)),
            Err(e) => Err(e),
        },
    }
}

/// Copies a string slice.
pub fn slice_to_string(slice: &KernelStringSlice) -> (result: Result<String, SimpleError>)
    ensures
        match result {
            Ok(text) => valid_utf8(slice.bytes@) && text@ == decode_utf8(slice.bytes@),
            Err(e) => !valid_utf8(slice.bytes@) && e@ == ErrorKind::Utf8(utf8_error(slice.bytes@)),
        },
{
    match std::str::from_utf8(slice.bytes.as_slice()) {
        Ok(text) => Ok(text.to_owned()),
        Err(e) => Err(SimpleError::Utf8(e)),
    }
}

/// Copies the strings of an array of `len` slices; `None` is a null pointer.
pub fn slices_to_strings(slices: &Option<Vec<KernelStringSlice>>, len: usize) -> (result: Result<
    Vec<String>,
    SimpleError,
>)
    requires
        strings_complete(*slices, len),
    ensures
        match result {
            Ok(strings) => strings_text(*slices, len) == Ok::<Seq<Seq<char>>, ErrorKind>(
                model::texts(strings@),
            ),
            Err(e) => strings_text(*slices, len) == Err::<Seq<Seq<char>>, ErrorKind>(e@),
        },
{
    let mut strings: Vec<String> = Vec::new();
    if len == 0 {
        assert(model::texts(strings@) =~= Seq::<Seq<char>>::empty());
        return Ok(strings);
    }
    match slices {
        None => Err(SimpleError::NullStrings),
        Some(array) => {
            for i in 0..len
                invariant
                    *slices == Some(*array),
                    0 < len <= array@.len(),
                    strings@.len() == i,
                    all_utf8(array@.take(i as int)),
                    model::texts(strings@) == slice_texts(array@.take(i as int)),
            {
                let ghost before = strings@;
                match slice_to_string(&array[i]) {
                    Ok(text) => {
                        strings.push(text);
                        proof {
                            let next = array@.take(i + 1);
                            assert(next =~= array@.take(i as int).push(array@[i as int]));
                            assert(model::texts(strings@) =~= model::texts(before).push(text@));
                            assert(slice_texts(next) =~= slice_texts(array@.take(i as int)).push(
                                text@,
                            ));
                        }
                    },
                    Err(e) => {
                        proof {
                            let all = array@.take(len as int);
                            assert(!valid_utf8(all[i as int].bytes@));
                            assert forall|j: int| 0 <= j < i implies valid_utf8(
                                #[trigger] slices_bytes(all)[j],
                            ) by {
                                assert(valid_utf8(array@.take(i as int)[j].bytes@));
                            }
                            lemma_first_utf8_error(slices_bytes(all), i as int);
                        }
                        return Err(e);
                    },
                }
            }
            Ok(strings)
        },
    }
}

} // verus!
