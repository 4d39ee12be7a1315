//! Request forms for transports that carry binary payloads as text: each
//! header or block is encoded with the model codec and then written in
//! standard base64.

use vstd::prelude::*;
use crate::codec::{
    encode_authority_set_change, encode_block_header_with_changes, encode_header_to_sync,
    spec_encode_authority_set_change, spec_encode_block_header_with_changes,
    spec_encode_header_to_sync,
};

verus! {

/// The standard (padded) base64 text of a byte string.
pub uninterp spec fn base64_of(b: Seq<u8>) -> Seq<char>;

/// Relies on base64's standard-alphabet engine: the padded text is decided
/// by the input bytes alone, four characters for each group of three bytes.
#[verifier::external_body]
fn base64_encode(b: &Vec<u8>) -> (r: String)
    ensures
        r@ == base64_of(b@),
        r@.len() == 4 * ((b@.len() + 2) / 3),
{
    base64::Engine::encode(&base64::engine::general_purpose::STANDARD, b)
}

/// A header-sync request with each payload carried as base64 text.
#[derive(Clone, Debug)]
pub struct SyncHeaderReq {
    pub headers_b64: Vec<String>,
    pub authority_set_change_b64: Option<String>,
}

impl SyncHeaderReq {
    /// The text form of a binary header-sync request: each header encoded
    /// and written in base64, the authority-set change likewise if present.
    pub fn from_blocks(v: super::SyncHeaderReq) -> (r: SyncHeaderReq)
        ensures
            r.headers_b64@.len() == v.headers@.len(),
            forall|i: int| 0 <= i < v.headers@.len()
                ==> r.headers_b64@[i]@ == base64_of(spec_encode_header_to_sync(v.headers@[i])),
            v.authority_set_change is None <==> r.authority_set_change_b64 is None,
            v.authority_set_change matches Some(c)
                ==> (r.authority_set_change_b64 matches Some(s)
                    && s@ == base64_of(spec_encode_authority_set_change(c))),
    {
        let mut headers_b64: Vec<String> = Vec::new();
        let mut i: usize = 0;
        while i < v.headers.len()
            invariant
                i <= v.headers@.len(),
                headers_b64@.len() == i,
                forall|j: int| 0 <= j < i
                    ==> headers_b64@[j]@ == base64_of(spec_encode_header_to_sync(v.headers@[j])),
            decreases v.headers@.len() - i,
        {
            let encoded = encode_header_to_sync(&v.headers[i]);
            headers_b64.push(base64_encode(&encoded));
            i = i + 1;
        }
        let authority_set_change_b64 = match &v.authority_set_change {
            Option::Some(c) => {
                let encoded = encode_authority_set_change(c);
                Option::Some(base64_encode(&encoded))
            },
            Option::None => Option::None,
        };
        SyncHeaderReq { headers_b64, authority_set_change_b64 }
    }
}

/// A block-dispatch request with each block carried as base64 text.
#[derive(Clone, Debug)]
pub struct DispatchBlockReq {
    pub blocks_b64: Vec<String>,
}

impl DispatchBlockReq {
    /// The text form of a binary block-dispatch request: each block encoded
    /// and written in base64.
    pub fn from_blocks(v: super::DispatchBlockReq) -> (r: DispatchBlockReq)
        ensures
            r.blocks_b64@.len() == v.blocks@.len(),
            forall|i: int| 0 <= i < v.blocks@.len()
                ==> r.blocks_b64@[i]@
                    == base64_of(spec_encode_block_header_with_changes(v.blocks@[i])),
    {
        let mut blocks_b64: Vec<String> = Vec::new();
        let mut i: usize = 0;
        while i < v.blocks.len()
            invariant
                i <= v.blocks@.len(),
                blocks_b64@.len() == i,
                forall|j: int| 0 <= j < i
                    ==> blocks_b64@[j]@
                        == base64_of(spec_encode_block_header_with_changes(v.blocks@[j])),
            decreases v.blocks@.len() - i,
        {
            let encoded = encode_block_header_with_changes(&v.blocks[i]);
            blocks_b64.push(base64_encode(&encoded));
            i = i + 1;
        }
        DispatchBlockReq { blocks_b64 }
    }
}

/// The standard envelope for a contract query input.
#[derive(Clone, Debug)]
pub struct ContractInput<T> {
    pub input: T,
}

impl<T> ContractInput<T> {
    pub fn new(input: T) -> (r: Self)
        ensures
            r.input == input,
    {
        Self { input }
    }
}

} // verus!
