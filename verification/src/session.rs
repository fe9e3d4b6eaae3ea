//! The decision core of a synthesis session.
//!
//! Every engine call is made by the unverified host layer; what stands here is
//! everything around those calls that decides or computes: encoding outbound
//! text as a null-terminated byte string, mapping the status code of an engine
//! call to a typed outcome, and decoding the engine's voice reports (the
//! current voice and the voice catalog) into owned strings.

use vstd::prelude::*;
use vstd::string::StringSliceAdditionalSpecFns;
use vstd::utf8::decode_utf8;
use vstd::utf8::valid_utf8;

use crate::error::Error;
use crate::error::EE_OK;

verus! {

/// Whether `bytes` is free of null bytes, so that a null terminator can be
/// appended without ambiguity.
pub open spec fn no_embedded_nul(bytes: Seq<u8>) -> bool {
    forall|i: int| 0 <= i < bytes.len() ==> bytes[i] != 0
}

/// Maps the status code of a completed engine call to a typed outcome: the
/// success code gives `Ok`, every other code is wrapped as an engine failure
/// and never silently ignored.
pub fn status_to_result(status: i32) -> (r: Result<(), Error>)
    ensures
        status == EE_OK ==> r == Ok::<(), Error>(()),
        status != EE_OK ==> r == Err::<(), Error>(Error::Espeak(status)),
{
    if status == EE_OK {
        Ok(())
    } else {
        Err(Error::Espeak(status))
    }
}

/// Encodes `text` for the engine as its bytes followed by one null
/// terminator.  Succeeds exactly when `text` holds no embedded null byte;
/// otherwise the text cannot be represented as a null-terminated byte string
/// and the encoding failure is reported before any engine call.
pub fn encode_text(text: &str) -> (r: Result<Vec<u8>, Error>)
    ensures
        r is Ok <==> no_embedded_nul(text.spec_bytes()),
        r matches Ok(b) ==> b@ == text.spec_bytes() + seq![0u8],
        r is Err ==> r == Err::<Vec<u8>, Error>(Error::NullPointer),
{
    let bytes = text.as_bytes();
    let mut out: Vec<u8> = Vec::new();
    let mut i: usize = 0;
    while i < bytes.len()
        invariant
            i <= bytes@.len(),
            bytes@ == text.spec_bytes(),
            out@ == bytes@.subrange(0, i as int),
            forall|j: int| 0 <= j < i ==> bytes@[j] != 0,
        decreases bytes@.len() - i,
    {
        let b = *vstd::slice::slice_index_get(bytes, i);
        if b == 0 {
            return Err(Error::NullPointer);
        }
        out.push(b);
        proof {
            assert(out@ =~= bytes@.subrange(0, i + 1));
        }
        i = i + 1;
    }
    out.push(0);
    proof {
        assert(out@ =~= text.spec_bytes() + seq![0u8]);
    }
    Ok(out)
}

/// Relies on `String::from_utf8`: succeeds exactly when `bytes` is valid
/// UTF-8, and then returns the string those bytes encode.
#[verifier::external_body]
fn string_from_utf8(bytes: &[u8]) -> (r: Option<String>)
    ensures
        r is Some <==> valid_utf8(bytes@),
        r matches Some(s) ==> s@ == decode_utf8(bytes@),
{
    String::from_utf8(bytes.to_vec()).ok()
}

/// Decodes the engine's report of its currently selected voice.  The host
/// layer hands over `None` when the engine returned no voice record at all,
/// `Some(None)` when the record carries no name, and otherwise the name's raw
/// bytes.  No voice and no name both mean that no voice was selected; a name
/// that is not valid UTF-8 is a decoding failure.
pub fn decode_current_voice(raw: Option<Option<Vec<u8>>>) -> (r: Result<Option<String>, Error>)
    ensures
        match raw {
            None => r == Ok::<Option<String>, Error>(None),
            Some(None) => r == Ok::<Option<String>, Error>(None),
            Some(Some(bytes)) => if valid_utf8(bytes@) {
                r matches Ok(Some(s)) && s@ == decode_utf8(bytes@)
            } else {
                r == Err::<Option<String>, Error>(Error::InvalidUtf8)
            },
        },
{
    match raw {
        None => Ok(None),
        Some(None) => Ok(None),
        Some(Some(bytes)) => match string_from_utf8(bytes.as_slice()) {
            Some(s) => Ok(Some(s)),
            None => Err(Error::InvalidUtf8),
        },
    }
}

/// Whether every present name in the engine's voice catalog is valid UTF-8.
pub open spec fn all_names_valid(entries: Seq<Option<Seq<u8>>>) -> bool {
    forall|i: int|
        0 <= i < entries.len() && entries[i] is Some ==> valid_utf8(entries[i]->Some_0)
}

/// The decoded names of the present entries of the engine's voice catalog,
/// in catalog order; entries without a name are skipped.
pub open spec fn decoded_voice_names(entries: Seq<Option<Seq<u8>>>) -> Seq<Seq<char>>
    decreases entries.len(),
{
    if entries.len() == 0 {
        Seq::empty()
    } else {
        let rest = decoded_voice_names(entries.drop_last());
        match entries.last() {
            Some(b) => rest.push(decode_utf8(b)),
            None => rest,
        }
    }
}

/// Decodes the engine's voice catalog.  The host layer hands over `None` when
/// the engine returned no list at all, which means no voices are available;
/// otherwise one entry per catalog record up to the list's terminator, with
/// `None` for a record whose name field is null.  Succeeds exactly when every
/// present name is valid UTF-8, and then returns the decoded names in catalog
/// order, nameless records skipped.
pub fn decode_voice_list(raw: Option<Vec<Option<Vec<u8>>>>) -> (r: Result<Vec<String>, Error>)
    ensures
        match raw {
            None => r == Err::<Vec<String>, Error>(Error::NoVoicesAvailable),
            Some(entries) => {
                &&& (r is Ok <==> all_names_valid(entries.deep_view()))
                &&& (r matches Ok(names) ==> names.deep_view() == decoded_voice_names(
                    entries.deep_view(),
                ))
                &&& (!all_names_valid(entries.deep_view()) ==> r == Err::<Vec<String>, Error>(
                    Error::InvalidUtf8,
                ))
            },
        },
{
    let entries = match raw {
        None => {
            return Err(Error::NoVoicesAvailable);
        },
        Some(entries) => entries,
    };
    let mut names: Vec<String> = Vec::new();
    let mut i: usize = 0;
    while i < entries.len()
        invariant
            raw == Some(entries),
            i <= entries@.len(),
            names.deep_view() == decoded_voice_names(entries.deep_view().subrange(0, i as int)),
            forall|j: int|
                0 <= j < i && #[trigger] entries.deep_view()[j] is Some ==> valid_utf8(
                    entries.deep_view()[j]->Some_0,
                ),
        decreases entries@.len() - i,
    {
        let ghost prefix = entries.deep_view().subrange(0, i as int);
        let ghost next_prefix = entries.deep_view().subrange(0, i + 1);
        proof {
            assert(next_prefix.drop_last() =~= prefix);
            assert(next_prefix.last() == entries.deep_view()[i as int]);
            assert(entries.deep_view()[i as int] == entries@[i as int].deep_view());
        }
        match &entries[i] {
            Some(bytes) => {
                proof {
                    assert(entries@[i as int] matches Some(b) && b@ == bytes@);
                    assert(next_prefix.last() == Some(bytes@));
                }
                match string_from_utf8(bytes.as_slice()) {
                    Some(s) => {
                        names.push(s);
                        proof {
                            assert(decoded_voice_names(next_prefix) == decoded_voice_names(
                                prefix,
                            ).push(decode_utf8(bytes@)));
                            assert(names.deep_view() =~= decoded_voice_names(next_prefix));
                        }
                    },
                    None => {
                        proof {
                            assert(!all_names_valid(entries.deep_view()));
                        }
                        return Err(Error::InvalidUtf8);
                    },
                }
            },
            None => {
                proof {
                    assert(decoded_voice_names(next_prefix) == decoded_voice_names(prefix));
                }
            },
        }
        i = i + 1;
    }
    proof {
        assert(entries.deep_view().subrange(0, entries.deep_view().len() as int)
            =~= entries.deep_view());
    }
    Ok(names)
}

} // verus!
