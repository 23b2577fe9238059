//! Loaded programs and the parameters that are applied to them before they
//! run.

use crate::codec::{
    cbor_byte_string, decode_byte_string, decodes_as_data, hex_decode, hex_decoded, is_data,
    is_hex, MAX_DATA_LENGTH,
};
use crate::machine::discharge::apply_all;
use crate::machine::term::TermV;
use crate::program::{data_term, Program};
use std::collections::BTreeMap;
use vstd::prelude::*;
use vstd::std_specs::iter::IteratorSpec;
use vstd::string::{StringExecFns, StringSliceAdditionalSpecFns};
use vstd::utf8::encode_utf8;

verus! {

/// A program as it was loaded: the name of its file, the program, and for
/// the terms of the program that have one, by their index, the place in the
/// source that they come from.
#[derive(Clone)]
pub struct LoadedProgram {
    pub filename: String,
    pub program: Program,
    pub source_map: BTreeMap<u64, String>,
}

/// The kinds of file that hold a program.
#[derive(Clone, Copy, Debug, PartialEq, Eq, Structural)]
pub enum FileType {
    /// The program as text.
    Uplc,
    /// The program in its binary encoding.
    Flat,
    /// A description that holds the binary encoding as hexadecimal text.
    Json,
}

/// Why a program could not be loaded.
#[derive(Clone, Copy, Debug, PartialEq, Eq, Structural)]
pub enum LoadError {
    /// The file's extension names no kind of file that holds a program.
    UnsupportedExtension,
    /// The compiled code is not hexadecimal text.
    InvalidHex,
    /// The compiled code is not the CBOR encoding of a byte string.
    InvalidCbor,
}

pub const UNSUPPORTED_EXTENSION: &'static str =
    "That extension is not supported. Supported: .uplc .flat .json";

pub const INVALID_HEX: &'static str = "could not hex-decode compiled_code";

pub const INVALID_CBOR: &'static str = "minicbor decode failed";

impl LoadError {
    /// The message of the error.
    pub open spec fn text(self) -> Seq<char> {
        match self {
            LoadError::UnsupportedExtension => UNSUPPORTED_EXTENSION@,
            LoadError::InvalidHex => INVALID_HEX@,
            LoadError::InvalidCbor => INVALID_CBOR@,
        }
    }

    /// The message of the error.
    pub fn message(&self) -> (res: &'static str)
        ensures
            res@ == self.text(),
    {
        match self {
            LoadError::UnsupportedExtension => UNSUPPORTED_EXTENSION,
            LoadError::InvalidHex => INVALID_HEX,
            LoadError::InvalidCbor => INVALID_CBOR,
        }
    }
}

/// The kind of file that an extension names.
pub open spec fn file_type_of(extension: Seq<char>) -> Option<FileType> {
    if extension == "uplc"@ {
        Some(FileType::Uplc)
    } else if extension == "flat"@ {
        Some(FileType::Flat)
    } else if extension == "json"@ {
        Some(FileType::Json)
    } else {
        None
    }
}

/// The kind of a file by its extension; a file without an extension, or
/// with one that names no kind, is not supported.
pub fn identify_file_type(extension: Option<&str>) -> (res: Result<FileType, LoadError>)
    ensures
        match res {
            Ok(kind) => extension matches Some(e) && file_type_of(e@) == Some(kind),
            Err(error) => error == LoadError::UnsupportedExtension && (extension matches Some(e)
                ==> file_type_of(e@) is None),
        },
{
    match extension {
        None => Err(LoadError::UnsupportedExtension),
        Some(e) => {
            let given = String::from_str(e);
            if given == String::from_str("uplc") {
                Ok(FileType::Uplc)
            } else if given == String::from_str("flat") {
                Ok(FileType::Flat)
            } else if given == String::from_str("json") {
                Ok(FileType::Json)
            } else {
                Err(LoadError::UnsupportedExtension)
            }
        },
    }
}

/// The binary encoding of a program that a description holds as compiled
/// code: the text is hexadecimal, and the bytes it stands for are the CBOR
/// encoding of a byte string, which is the program.
pub fn decode_compiled_code(compiled_code: &str) -> (res: Result<Vec<u8>, LoadError>)
    ensures
        match res {
            Ok(bytes) => {
                &&& is_hex(compiled_code.spec_bytes())
                &&& cbor_byte_string(hex_decoded(compiled_code.spec_bytes())) == Some(bytes@)
            },
            Err(error) => if is_hex(compiled_code.spec_bytes()) {
                &&& error == LoadError::InvalidCbor
                &&& cbor_byte_string(hex_decoded(compiled_code.spec_bytes())) is None
            } else {
                error == LoadError::InvalidHex
            },
        },
{
    match hex_decode(compiled_code) {
        Err(_) => Err(LoadError::InvalidHex),
        Ok(cbor) => match decode_byte_string(&cbor) {
            Some(bytes) => Ok(bytes),
            None => Err(LoadError::InvalidCbor),
        },
    }
}

/// Structured data, held in its CBOR encoding.
#[derive(Debug, PartialEq, Eq)]
pub struct PlutusData {
    cbor: Vec<u8>,
}

impl Clone for PlutusData {
    fn clone(&self) -> (res: PlutusData)
        ensures
            res@ == self@,
    {
        proof {
            use_type_invariant(self);
        }
        PlutusData { cbor: self.cbor.clone() }
    }
}

impl View for PlutusData {
    type V = Seq<u8>;

    closed spec fn view(&self) -> Seq<u8> {
        self.cbor@
    }
}

impl PlutusData {
    /// The bytes are data.
    #[verifier::type_invariant]
    pub closed spec fn wf(&self) -> bool {
        is_data(self.cbor@)
    }

    /// The data that `cbor` encodes, or `None` where it is longer than the
    /// library decodes or encodes no data.
    pub fn from_cbor(cbor: Vec<u8>) -> (res: Option<PlutusData>)
        ensures
            match res {
                Some(data) => is_data(cbor@) && data@ == cbor@ && data.wf(),
                None => !is_data(cbor@),
            },
    {
        if cbor.len() > MAX_DATA_LENGTH {
            return None;
        }
        if decodes_as_data(&cbor) {
            Some(PlutusData { cbor })
        } else {
            None
        }
    }

    /// The CBOR encoding of the data.
    pub fn into_cbor(self) -> (res: Vec<u8>)
        ensures
            res@ == self@,
            is_data(res@),
    {
        proof {
            use_type_invariant(&self);
        }
        self.cbor
    }
}

/// Why a parameter could not be read. Each error names the position of the
/// parameter.
#[derive(Clone, Copy, Debug, PartialEq, Eq, Structural)]
pub enum ParameterError {
    /// The text is not hexadecimal.
    InvalidHex(usize),
    /// The bytes are longer than the library decodes, or do not encode
    /// structured data.
    InvalidData(usize),
}

/// Why parameters could not be applied.
#[derive(Clone, Copy, Debug, PartialEq, Eq, Structural)]
pub enum ApplyError {
    /// An index of the source map, moved by the number of parameters, is
    /// more than an index can hold.
    IndexOverflow,
}

/// Reads the parameter at position `index` from hexadecimal text that holds
/// the CBOR encoding of structured data.
pub fn parse_parameter(index: usize, parameter: String) -> (res: Result<PlutusData, ParameterError>)
    ensures
        match res {
            Ok(data) => {
                &&& is_hex(encode_utf8(parameter@))
                &&& data@ == hex_decoded(encode_utf8(parameter@))
                &&& is_data(data@)
            },
            Err(ParameterError::InvalidHex(at)) => at == index && !is_hex(
                encode_utf8(parameter@),
            ),
            Err(ParameterError::InvalidData(at)) => {
                &&& at == index
                &&& is_hex(encode_utf8(parameter@))
                &&& !is_data(hex_decoded(encode_utf8(parameter@)))
            },
        },
{
    match hex_decode(parameter.as_str()) {
        Err(_) => Err(ParameterError::InvalidHex(index)),
        Ok(bytes) => match PlutusData::from_cbor(bytes) {
            Some(data) => Ok(data),
            None => Err(ParameterError::InvalidData(index)),
        },
    }
}

/// `term` applied to each of `parameters` in turn, each given in its CBOR
/// encoding.
pub open spec fn applied(term: TermV, parameters: Seq<Seq<u8>>) -> TermV {
    apply_all(term, Seq::new(parameters.len(), |i: int| data_term(parameters[i])))
}

/// The encodings of a list of data, in order.
pub open spec fn data_view(parameters: Seq<PlutusData>) -> Seq<Seq<u8>> {
    Seq::new(parameters.len(), |i: int| parameters[i]@)
}

/// `map` with every index raised by `by`.
pub open spec fn shifted(map: Map<u64, String>, by: nat) -> Map<u64, String> {
    Map::new(
        |index: u64| index >= by && map.contains_key((index - by) as u64),
        |index: u64| map[(index - by) as u64],
    )
}

/// Applies the program to each of `parameters` in turn. Each application
/// wraps the term once more, so every index of the source map rises by the
/// number of parameters.
pub fn apply_parameters(loaded: LoadedProgram, parameters: Vec<PlutusData>) -> (res: Result<
    LoadedProgram,
    ApplyError,
>)
    ensures
        match res {
            Ok(after) => {
                &&& after.filename@ == loaded.filename@
                &&& after.program@.version == loaded.program@.version
                &&& after.program@.term == applied(loaded.program@.term, data_view(parameters@))
                &&& after.source_map@ == shifted(loaded.source_map@, parameters@.len())
                &&& forall|index: u64| #[trigger]
                    loaded.source_map@.contains_key(index) ==> index + parameters@.len()
                        <= u64::MAX
            },
            Err(_) => exists|index: u64| #[trigger]
                loaded.source_map@.contains_key(index) && index + parameters@.len() > u64::MAX,
        },
{
    let LoadedProgram { filename, program, source_map } = loaded;
    let count = parameters.len();
    let ghost unapplied = program@.term;
    let ghost encodings = data_view(parameters@);
    let ghost arguments = Seq::new(encodings.len(), |i: int| data_term(encodings[i]));
    let mut program = program;
    let mut k: usize = 0;
    while k < count
        invariant
            k <= count,
            count == parameters.len(),
            encodings == data_view(parameters@),
            arguments == Seq::new(encodings.len(), |i: int| data_term(encodings[i])),
            program@.version == loaded.program@.version,
            program@.term == apply_all(unapplied, arguments.subrange(0, k as int)),
        decreases count - k,
    {
        let data = parameters[k].clone();
        proof {
            let upto = arguments.subrange(0, k + 1);
            assert(upto.drop_last() =~= arguments.subrange(0, k as int));
            assert(upto.last() == data_term(data@));
        }
        program = program.apply_data(data.into_cbor());
        k = k + 1;
    }
    assert(arguments.subrange(0, k as int) =~= arguments);

    let mut moved: BTreeMap<u64, String> = BTreeMap::new();
    let ghost all = vstd::std_specs::btree::spec_btree_map_iter(&source_map).remaining();
    for entry in entries: source_map.iter()
        invariant
            count == parameters.len(),
            all == vstd::std_specs::btree::spec_btree_map_iter(&source_map).remaining(),
            entries.seq() == all,
            source_map == loaded.source_map,
            forall|j: int|
                0 <= j < entries.index() ==> {
                    let index = *(#[trigger] all[j]).0;
                    &&& index + count <= u64::MAX
                    &&& moved@.contains_key((index + count) as u64)
                    &&& moved@[(index + count) as u64] == *all[j].1
                },
            forall|index: u64| #[trigger]
                moved@.contains_key(index) ==> index >= count && source_map@.contains_key(
                    (index - count) as u64,
                ),
    {
        let ghost done = entries.index();
        proof {
            assert(source_map@.contains_key(*all[done].0));
        }
        let (index, location) = entry;
        if *index > u64::MAX - count as u64 {
            assert(loaded.source_map@.contains_key(*index) && *index + parameters@.len()
                > u64::MAX);
            return Err(ApplyError::IndexOverflow);
        }
        moved.insert(*index + count as u64, location.clone());
        proof {
            assert forall|j: int| 0 <= j < done + 1 implies {
                let at = *(#[trigger] all[j]).0;
                &&& at + count <= u64::MAX
                &&& moved@.contains_key((at + count) as u64)
                &&& moved@[(at + count) as u64] == *all[j].1
            } by {
                if j < done {
                    let at = *all[j].0;
                    assert(source_map@[at] == *all[j].1);
                    if at == *index {
                        assert(source_map@[at] == *all[done].1);
                    }
                }
            }
        }
    }
    proof {
        let want = shifted(source_map@, count as nat);
        assert forall|index: u64| want.contains_key(index) implies moved@.contains_key(index)
            && moved@[index] == want[index] by {
            let from = (index - count) as u64;
            assert(all.contains((&from, &source_map@[from])));
            let j = choose|j: int| 0 <= j < all.len() && all[j] == (&from, &source_map@[from]);
            assert(*all[j].0 == from);
        }
        assert(moved@ =~= want);
        assert forall|index: u64| #[trigger] source_map@.contains_key(index) implies index + count
            <= u64::MAX by {
            assert(all.contains((&index, &source_map@[index])));
            let j = choose|j: int| 0 <= j < all.len() && all[j] == (&index, &source_map@[index]);
            assert(*all[j].0 == index);
        }
    }
    Ok(LoadedProgram { filename, program, source_map: moved })
}

} // verus!
