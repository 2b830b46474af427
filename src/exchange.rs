use vstd::prelude::*;
use vstd::string::StringSliceAdditionalSpecFns;
use vstd::utf8::encode_utf8;

use crate::host::BridgeError;

verus! {

/// A byte buffer owned by the script engine. It holds its own copy of its
/// contents: nothing outside it aliases them.
pub struct EngineBuffer {
    contents: Vec<u8>,
}

impl View for EngineBuffer {
    type V = Seq<u8>;

    closed spec fn view(&self) -> Seq<u8> {
        self.contents@
    }
}

impl EngineBuffer {
    pub fn contents(&self) -> (r: &[u8])
        ensures
            r@ == self@,
    {
        self.contents.as_slice()
    }

    pub fn len(&self) -> (r: usize)
        ensures
            r == self@.len(),
    {
        self.contents.len()
    }
}

/// A buffer for the engine that holds a copy of `bytes`, byte for byte.
pub fn wrap_for_engine(bytes: &[u8]) -> (r: EngineBuffer)
    ensures
        r@ == bytes@,
{
    let mut contents: Vec<u8> = Vec::with_capacity(bytes.len());
    let mut i: usize = 0;
    while i < bytes.len()
        invariant
            i <= bytes@.len(),
            contents@ == bytes@.subrange(0, i as int),
        decreases bytes@.len() - i,
    {
        contents.push(bytes[i]);
        i = i + 1;
        assert(contents@ =~= bytes@.subrange(0, i as int));
    }
    assert(contents@ =~= bytes@);
    EngineBuffer { contents }
}

/// The payload that the script-callable greeting returns.
pub fn greeting_buffer() -> (r: EngineBuffer)
    ensures
        r@ == "Send \u{1F496} from Rust".spec_bytes(),
{
    wrap_for_engine("Send \u{1F496} from Rust".as_bytes())
}

/// The bytes of a null-terminated string: everything before the first zero
/// byte (or all of them where there is none).
pub open spec fn c_str_content(bytes: Seq<u8>) -> Seq<u8>
    decreases bytes.len(),
{
    if bytes.len() == 0 || bytes[0] == 0 {
        seq![]
    } else {
        seq![bytes[0]] + c_str_content(bytes.drop_first())
    }
}

/// A null-terminated string allocated for the other side of the boundary.
/// Producing one hands it over: the producer keeps no reference, and it is
/// released once, by consuming the handle.
pub struct NativeString {
    bytes: Vec<u8>,
}

impl View for NativeString {
    type V = Seq<u8>;

    /// The whole allocation, terminator included.
    closed spec fn view(&self) -> Seq<u8> {
        self.bytes@
    }
}

impl NativeString {
    /// A single zero byte ends the allocation, and it is the only one.
    pub open spec fn wf(&self) -> bool {
        &&& self@.len() > 0
        &&& self@.last() == 0
        &&& !self@.drop_last().contains(0)
    }

    /// The string's bytes, terminator included.
    pub fn as_bytes_with_nul(&self) -> (r: &[u8])
        ensures
            r@ == self@,
    {
        self.bytes.as_slice()
    }

    /// Hands the allocation over, terminator included; the handle is gone.
    pub fn into_bytes_with_nul(self) -> (r: Vec<u8>)
        ensures
            r@ == self@,
    {
        self.bytes
    }
}

/// The bytes that carry a decoded identifier.
pub open spec fn identifier_bytes(id: &String) -> Seq<u8> {
    encode_utf8(id@)
}

/// Turns what the buffer loader decoded (`None` where it could not parse the
/// buffer) into a native string handed over to the caller. An identifier
/// that holds a zero byte cannot be carried null-terminated and does not
/// decode either.
pub fn export_identifier(decoded: Option<String>) -> (r: Result<NativeString, BridgeError>)
    ensures
        match decoded {
            None => r == Err::<NativeString, BridgeError>(BridgeError::Decode),
            Some(id) => if identifier_bytes(&id).contains(0) {
                r == Err::<NativeString, BridgeError>(BridgeError::Decode)
            } else {
                &&& r is Ok
                &&& r.unwrap().wf()
                &&& r.unwrap()@ == identifier_bytes(&id).push(0)
            },
        },
{
    match decoded {
        None => Err(BridgeError::Decode),
        Some(id) => match nul_terminated(id.as_str().as_bytes()) {
            Some(bytes) => Ok(NativeString { bytes }),
            None => Err(BridgeError::Decode),
        },
    }
}

/// A copy of `src` with a zero byte appended; `None` where `src` already
/// holds one.
fn nul_terminated(src: &[u8]) -> (r: Option<Vec<u8>>)
    ensures
        src@.contains(0) <==> r is None,
        r matches Some(v) ==> v@ == src@.push(0),
{
    let mut bytes: Vec<u8> = Vec::with_capacity(src.len());
    let mut i: usize = 0;
    while i < src.len()
        invariant
            i <= src@.len(),
            bytes@ == src@.subrange(0, i as int),
            !bytes@.contains(0),
        decreases src@.len() - i,
    {
        if src[i] == 0 {
            assert(src@[i as int] == 0);
            return None;
        }
        bytes.push(src[i]);
        i = i + 1;
        assert(bytes@ =~= src@.subrange(0, i as int));
    }
    assert(bytes@ =~= src@);
    bytes.push(0);
    Some(bytes)
}

proof fn lemma_c_str_content_terminated(bytes: Seq<u8>)
    requires
        !bytes.contains(0),
    ensures
        c_str_content(bytes.push(0)) == bytes,
    decreases bytes.len(),
{
    if bytes.len() > 0 {
        assert(bytes.push(0).drop_first() =~= bytes.drop_first().push(0));
        assert(!bytes.drop_first().contains(0)) by {
            if bytes.drop_first().contains(0) {
                let k = choose|k: int| 0 <= k < bytes.drop_first().len() && bytes.drop_first()[k] == 0;
                assert(bytes[k + 1] == 0);
            }
        }
        assert(bytes[0] != 0) by {
            if bytes[0] == 0 {
                assert(bytes.contains(0));
            }
        }
        lemma_c_str_content_terminated(bytes.drop_first());
        assert(seq![bytes[0]] + bytes.drop_first() =~= bytes);
    } else {
        assert(bytes.push(0)[0] == 0);
    }
}

/// Handing over an identifier and reading the native string back up to its
/// terminator gives exactly the identifier's bytes.
pub proof fn lemma_export_round_trip(id: String)
    requires
        !identifier_bytes(&id).contains(0),
    ensures
        c_str_content(identifier_bytes(&id).push(0)) == identifier_bytes(&id),
{
    lemma_c_str_content_terminated(identifier_bytes(&id));
}

/// A well-formed handle reads back as everything before its terminator.
pub proof fn lemma_handle_reads_back(h: &NativeString)
    requires
        h.wf(),
    ensures
        c_str_content(h@) == h@.drop_last(),
{
    assert(h@.drop_last().push(0) =~= h@);
    lemma_c_str_content_terminated(h@.drop_last());
}

} // verus!
