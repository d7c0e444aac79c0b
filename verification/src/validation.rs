//! Validation of user-supplied payloads before they reach a store. A
//! resource name becomes a path segment, so it is held to an allowlist:
//! ASCII letters, digits, underscore, space, dot and dash, 1 to 128 bytes,
//! and never a bare `.` or `..` — which closes the path-traversal hole a
//! name like `..` would open.

use vstd::prelude::*;
use vstd::string::StringSliceAdditionalSpecFns;
use vstd::utf8::encode_utf8;

use crate::domain::ResourceMetadata;

verus! {

/// A payload that passed validation.
#[derive(Debug, PartialEq, Eq)]
pub struct ValidatedJson<T>(pub T);

/// Why a payload was refused: it was not readable as the expected shape, or
/// it failed validation.
#[derive(Debug, PartialEq, Eq)]
pub enum ValidatedJsonRejection {
    JsonRejection,
    ValidationRejection,
}

/// Bytes allowed in a name: ASCII letters, digits, `_`, space, `.`, `-`.
pub open spec fn is_safe_name_byte(b: u8) -> bool {
    (97 <= b && b <= 122)  // a-z
    || (65 <= b && b <= 90)  // A-Z
    || (48 <= b && b <= 57)  // 0-9
    || b == 95  // _
    || b == 32  // space
    || b == 46  // .
    || b == 45  // -
}

/// A safe name: 1 to 128 allowed bytes, and not a relative path segment.
pub open spec fn is_safe_name(bytes: Seq<u8>) -> bool {
    &&& 1 <= bytes.len() <= 128
    &&& (forall|i: int| 0 <= i < bytes.len() ==> is_safe_name_byte(#[trigger] bytes[i]))
    &&& bytes != seq![46u8]
    &&& bytes != seq![46u8, 46u8]
}

/// Checks a name against the allowlist.
pub fn validate_resource_name(name: &str) -> (r: bool)
    ensures
        r == is_safe_name(encode_utf8(name@)),
{
    let bytes = name.as_bytes();
    proof {
        assert(bytes@ == encode_utf8(name@));
    }
    let n = bytes.len();
    if n < 1 || n > 128 {
        return false;
    }
    if n == 1 && bytes[0] == 46 {
        proof {
            assert(encode_utf8(name@) =~= seq![46u8]);
        }
        return false;
    }
    if n == 2 && bytes[0] == 46 && bytes[1] == 46 {
        proof {
            assert(encode_utf8(name@) =~= seq![46u8, 46u8]);
        }
        return false;
    }
    let mut i: usize = 0;
    while i < n
        invariant
            bytes@ == encode_utf8(name@),
            n == bytes.len(),
            i <= n,
            forall|j: int| 0 <= j < i ==> is_safe_name_byte(#[trigger] bytes@[j]),
        decreases n - i,
    {
        let b = bytes[i];
        let ok = (97 <= b && b <= 122) || (65 <= b && b <= 90) || (48 <= b && b <= 57) || b == 95
            || b == 32 || b == 46 || b == 45;
        if !ok {
            return false;
        }
        i += 1;
    }
    proof {
        if encode_utf8(name@) == seq![46u8] {
            assert(encode_utf8(name@)[0] == 46u8);
            assert(false);
        }
        if encode_utf8(name@) == seq![46u8, 46u8] {
            assert(encode_utf8(name@)[0] == 46u8);
            assert(encode_utf8(name@)[1] == 46u8);
            assert(false);
        }
    }
    true
}

/// Accepts a resource payload only when its name is safe.
pub fn validated_json_resource(data: ResourceMetadata) -> (r: Result<
    ValidatedJson<ResourceMetadata>,
    ValidatedJsonRejection,
>)
    ensures
        is_safe_name(encode_utf8(data.name@)) ==> (r matches Ok(v) && v.0 == data),
        !is_safe_name(encode_utf8(data.name@)) ==> r == Err::<
            ValidatedJson<ResourceMetadata>,
            ValidatedJsonRejection,
        >(ValidatedJsonRejection::ValidationRejection),
{
    if validate_resource_name(data.name.as_str()) {
        Ok(ValidatedJson(data))
    } else {
        Err(ValidatedJsonRejection::ValidationRejection)
    }
}

} // verus!
