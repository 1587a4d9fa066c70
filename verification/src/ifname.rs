use vstd::prelude::*;
use vstd::string::StringSliceAdditionalSpecFns;
use vstd::utf8::{decode_utf8, encode_utf8, valid_utf8};

verus! {

/// Size of the name field of an interface request.
pub const IFNAMSIZ: usize = 16;

/// Flag of an interface request that asks for a TUN device.
pub const IFF_TUN: i16 = 1;

/// Why a name cannot be written into an interface request.
#[derive(Clone, Copy, Debug, PartialEq, Eq, Structural)]
pub enum IfNameError {
    /// The name holds a NUL byte, so it is no C string.
    InteriorNul,
    /// The name's bytes do not fit the name field.
    TooLong,
}

/// The name field filled with `bytes` and padded with zeros.
pub open spec fn padded_field(bytes: Seq<u8>) -> Seq<u8> {
    bytes + Seq::new((IFNAMSIZ - bytes.len()) as nat, |i: int| 0u8)
}

/// The name field for an interface name given by its bytes, or why there is none.
pub open spec fn spec_ifname_field(bytes: Seq<u8>) -> Result<Seq<u8>, IfNameError> {
    if bytes.contains(0u8) {
        Err(IfNameError::InteriorNul)
    } else if bytes.len() > IFNAMSIZ {
        Err(IfNameError::TooLong)
    } else {
        Ok(padded_field(bytes))
    }
}

/// The bytes of a C string stored in `raw`: those before the first NUL, or
/// all of them when there is none.
pub open spec fn c_string_bytes(raw: Seq<u8>) -> Seq<u8> {
    if raw.contains(0u8) {
        raw.take(choose|k: int| 0 <= k < raw.len() && raw[k] == 0 && !raw.take(k).contains(0u8))
    } else {
        raw
    }
}

/// What `String::from_utf8_lossy` makes of `bytes`.
pub uninterp spec fn utf8_lossy(bytes: Seq<u8>) -> Seq<char>;

/// Calls `String::from_utf8_lossy`. Its result is named `utf8_lossy`; of
/// it, the contract says only what the documentation gives for valid UTF-8:
/// then it behaves as `str::from_utf8_unchecked`, so the result encodes to
/// the input bytes. What it makes of invalid sequences is left unsaid.
#[verifier::external_body]
fn string_from_utf8_lossy(bytes: &[u8]) -> (r: String)
    ensures
        r@ == utf8_lossy(bytes@),
        valid_utf8(bytes@) ==> encode_utf8(r@) == bytes@,
{
    String::from_utf8_lossy(bytes).into_owned()
}

/// Writes an interface name into the 16-byte name field of an interface
/// request, padded with zeros. A name with a NUL byte is refused, as
/// `CString::new` refuses it; so is one longer than the field.
pub fn encode_ifname(name: &str) -> (r: Result<Vec<u8>, IfNameError>)
    ensures
        match r {
            Ok(field) => spec_ifname_field(name.spec_bytes()) == Ok::<Seq<u8>, IfNameError>(
                field@,
            ),
            Err(e) => spec_ifname_field(name.spec_bytes()) == Err::<Seq<u8>, IfNameError>(e),
        },
{
    let bytes = name.as_bytes();
    let n = bytes.len();
    let mut i: usize = 0;
    while i < n
        invariant
            n == bytes@.len(),
            bytes@ == name.spec_bytes(),
            i <= n,
            forall|j: int| 0 <= j < i ==> bytes@[j] != 0u8,
        decreases n - i,
    {
        if bytes[i] == 0u8 {
            proof {
                assert(bytes@[i as int] == 0u8);
                assert(bytes@.contains(0u8));
            }
            return Err(IfNameError::InteriorNul);
        }
        i = i + 1;
    }
    assert(!bytes@.contains(0u8));
    if n > IFNAMSIZ {
        return Err(IfNameError::TooLong);
    }
    let mut field: Vec<u8> = Vec::new();
    let mut k: usize = 0;
    while k < IFNAMSIZ
        invariant
            n == bytes@.len(),
            n <= IFNAMSIZ,
            k <= IFNAMSIZ,
            field@.len() == k,
            forall|j: int| 0 <= j < k ==> field@[j] == padded_field(bytes@)[j],
        decreases IFNAMSIZ - k,
    {
        if k < n {
            field.push(bytes[k]);
        } else {
            field.push(0u8);
        }
        k = k + 1;
    }
    proof {
        assert(field@ =~= padded_field(bytes@));
    }
    Ok(field)
}

/// Reads the interface name back from a name field: the bytes before the
/// first NUL (all of them when there is none), decoded as UTF-8 with
/// invalid sequences replaced, as `CStr::to_string_lossy` does.
pub fn decode_ifname(raw: &[u8]) -> (r: String)
    ensures
        r@ == utf8_lossy(c_string_bytes(raw@)),
        valid_utf8(c_string_bytes(raw@)) ==> encode_utf8(r@) == c_string_bytes(raw@),
{
    let n = raw.len();
    let mut i: usize = 0;
    while i < n
        invariant
            n == raw@.len(),
            i <= n,
            forall|j: int| 0 <= j < i ==> raw@[j] != 0u8,
        decreases n - i,
    {
        if raw[i] == 0u8 {
            proof {
                assert(raw@[i as int] == 0u8);
                assert(raw@.contains(0u8));
                let k = choose|k: int|
                    0 <= k < raw@.len() && raw@[k] == 0 && !raw@.take(k).contains(0u8);
                assert(!raw@.take(i as int).contains(0u8));
                if k < i {
                    assert(raw@[k] != 0u8);
                } else if k > i {
                    assert(raw@.take(k)[i as int] == 0u8);
                }
                assert(k == i);
            }
            return string_from_utf8_lossy(vstd::slice::slice_subrange(raw, 0, i));
        }
        i = i + 1;
    }
    proof {
        assert(!raw@.contains(0u8));
        assert(raw@.subrange(0, n as int) =~= raw@);
    }
    string_from_utf8_lossy(vstd::slice::slice_subrange(raw, 0, n))
}

/// A name is refused for a NUL byte exactly when it holds one; otherwise
/// for length exactly when it is longer than the field. An accepted name
/// fills the field from its start with its bytes, and zeros follow.
pub proof fn lemma_ifname_field(bytes: Seq<u8>)
    ensures
        spec_ifname_field(bytes) == Err::<Seq<u8>, IfNameError>(IfNameError::InteriorNul)
            <==> bytes.contains(0u8),
        spec_ifname_field(bytes) == Err::<Seq<u8>, IfNameError>(IfNameError::TooLong) <==> !bytes.contains(
            0u8,
        ) && bytes.len() > IFNAMSIZ,
        spec_ifname_field(bytes) matches Ok(field) ==> field.len() == IFNAMSIZ
            && field.take(bytes.len() as int) == bytes && forall|i: int|
            bytes.len() <= i < IFNAMSIZ ==> field[i] == 0u8,
{
    if spec_ifname_field(bytes) is Ok {
        assert(padded_field(bytes).take(bytes.len() as int) =~= bytes);
    }
}

/// Reading a name field back gives exactly the bytes of the name written
/// into it.
pub proof fn lemma_ifname_field_round_trip(bytes: Seq<u8>)
    requires
        spec_ifname_field(bytes) is Ok,
    ensures
        c_string_bytes(spec_ifname_field(bytes)->Ok_0) == bytes,
{
    let field = padded_field(bytes);
    if bytes.len() < IFNAMSIZ {
        let n = bytes.len() as int;
        assert(field[n] == 0u8);
        assert(field.contains(0u8));
        assert(field.take(n) =~= bytes);
        let k = choose|k: int| 0 <= k < field.len() && field[k] == 0 && !field.take(k).contains(0u8);
        assert(0 <= n < field.len() && field[n] == 0 && !field.take(n).contains(0u8));
        if k < n {
            assert(field[k] == bytes[k]);
            assert(bytes.contains(0u8));
        } else if k > n {
            assert(field.take(k)[n] == 0u8);
        }
        assert(k == n);
    } else {
        assert(field =~= bytes);
    }
}

/// A name written into a name field and read back with `decode_ifname`
/// is the name itself: `read_back` is any text that meets what
/// `decode_ifname` ensures of that field.
pub proof fn lemma_ifname_text_round_trip(name: Seq<char>, read_back: Seq<char>)
    requires
        spec_ifname_field(encode_utf8(name)) is Ok,
        valid_utf8(c_string_bytes(spec_ifname_field(encode_utf8(name))->Ok_0)) ==> encode_utf8(
            read_back,
        ) == c_string_bytes(spec_ifname_field(encode_utf8(name))->Ok_0),
    ensures
        read_back == name,
{
    lemma_ifname_field_round_trip(encode_utf8(name));
    vstd::utf8::encode_utf8_valid_utf8(name);
    vstd::utf8::encode_utf8_decode_utf8(name);
    vstd::utf8::encode_utf8_decode_utf8(read_back);
}

} // verus!
