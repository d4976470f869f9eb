//! Block Store Client: the address of the node's block-put endpoint and the
//! decoding of its reply.

use vstd::prelude::*;
use vstd::string::*;

use crate::hash::{spec_ipfs_name, PutBlockHash};

verus! {

/// A decoded reply from the node's block-put endpoint: the content identifier
/// under `Key`, and a declared size under `Size` (informational, unused
/// downstream).
#[derive(Debug)]
pub struct PutBlockResponse {
    pub key: String,
    pub size: u64,
}

/// The base address with a trailing slash ensured: an existing trailing empty
/// path segment is reused rather than doubled.
pub open spec fn spec_slash_terminated(base: Seq<char>) -> Seq<char> {
    if base.len() > 0 && base.last() == '/' {
        base
    } else {
        base + "/"@
    }
}

/// The query of a block-put request: the multihash name under `mhtype`, and a
/// request for raw-codec identifiers. The second key carries a trailing
/// space, form-encoded as `+` (the pair reads `cid-codec =raw` once decoded);
/// that is likely a defect, but it is what the relay has always sent, and it
/// is kept deliberately so the bytes on the wire do not change silently.
pub open spec fn spec_block_put_query(h: PutBlockHash) -> Seq<char> {
    "mhtype="@ + spec_ipfs_name(h) + "&cid-codec+=raw"@
}

/// The full URL of a block-put request against the given base address: the
/// path `api/v0/block/put` appended to the slash-terminated base, then the
/// query.
pub open spec fn spec_block_put_url(base: Seq<char>, h: PutBlockHash) -> Seq<char> {
    spec_slash_terminated(base) + "api/v0/block/put"@ + "?"@ + spec_block_put_query(h)
}

/// Builds the URL the block-put request is sent to.
pub fn block_put_url(base: &str, h: &PutBlockHash) -> (r: String)
    ensures
        r@ == spec_block_put_url(base@, *h),
{
    let mut url = base.to_owned();
    let n = base.unicode_len();
    if n == 0 || base.get_char(n - 1) != '/' {
        url.append("/");
    }
    url.append("api/v0/block/put");
    url.append("?");
    url.append("mhtype=");
    url.append(h.ipfs_name());
    url.append("&cid-codec+=raw");
    proof {
        assert(url@ =~= spec_block_put_url(base@, *h));
    }
    url
}

/// The multihash parameter of every block-put request under the active
/// Keccak-256 selection is exactly `keccak-256` — the first pair of the
/// query, for every base address. The query is a function of the hash choice
/// alone, so no payload, of any content or size, can alter it.
pub proof fn lemma_block_put_query_keccak()
    ensures
        spec_block_put_query(PutBlockHash::Keccak256) == "mhtype=keccak-256&cid-codec+=raw"@,
        spec_block_put_query(PutBlockHash::Keccak256).subrange(0, 17) == "mhtype=keccak-256"@,
{
    reveal_strlit("mhtype=");
    reveal_strlit("keccak-256");
    reveal_strlit("&cid-codec+=raw");
    reveal_strlit("mhtype=keccak-256&cid-codec+=raw");
    reveal_strlit("mhtype=keccak-256");
    assert(spec_block_put_query(PutBlockHash::Keccak256) =~= "mhtype=keccak-256&cid-codec+=raw"@);
    assert(spec_block_put_query(PutBlockHash::Keccak256).subrange(0, 17)
        =~= "mhtype=keccak-256"@);
}

/// What the relay reads out of a block-put reply body: `Some` of the string
/// under `Key` and the unsigned integer under `Size` when the bytes are a
/// JSON object carrying both, `None` otherwise. The decoding is serde_json's
/// and depends on the bytes alone; it is named here rather than restated.
pub uninterp spec fn put_block_decoding(body: Seq<u8>) -> Option<(Seq<char>, u64)>;

/// Relies on serde_json::from_slice, Value::get, Value::as_str and
/// Value::as_u64: parses the reply bytes as JSON and reads the string under
/// `Key` and the unsigned integer under `Size`. Each of those is a pure
/// function of the bytes, so the decoding as a whole is too.
#[verifier::external_body]
pub(crate) fn decode_put_block(body: &Vec<u8>) -> (r: Option<PutBlockResponse>)
    ensures
        r matches Some(p) ==> put_block_decoding(body@) == Some((p.key@, p.size)),
        r is None ==> put_block_decoding(body@) is None,
{
    let v: serde_json::Value = match serde_json::from_slice(body.as_slice()) {
        Ok(v) => v,
        Err(_) => return None,
    };
    let key = match v.get("Key").and_then(serde_json::Value::as_str) {
        Some(s) => s.to_owned(),
        None => return None,
    };
    let size = match v.get("Size").and_then(serde_json::Value::as_u64) {
        Some(n) => n,
        None => return None,
    };
    Some(PutBlockResponse { key, size })
}

} // verus!
