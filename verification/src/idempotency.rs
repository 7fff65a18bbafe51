//! Idempotency keys for the event log: a SHA-256 over the tenant, the
//! stream, the command and the event payload with its non-deterministic
//! fields (timestamps, actor identity, request ids) removed, so that the same
//! semantic event always gets the same key.

use vstd::prelude::*;

use crate::ids::{hex_digit, hex_str, lemma_pow16_positive, pow16, Uuid};
use crate::text::{ends_with, owned, str_eq};
use vstd::utf8::encode_utf8;

verus! {

/// Whether a payload key holds a non-deterministic field that the key
/// ignores: a timestamp (`*_at`, `timestamp`), the actor's identity
/// (`actor_id`, `actor_type`, `user_id`) or a request id (`request_id`).
pub open spec fn drops_key(k: Seq<char>) -> bool {
    ||| (k.len() >= 3 && k.subrange(k.len() - 3, k.len() as int) == "_at"@)
    ||| k == "timestamp"@
    ||| k == "actor_id"@
    ||| k == "actor_type"@
    ||| k == "user_id"@
    ||| k == "request_id"@
}

/// Whether a payload key is left out of the normalized payload.
pub fn is_nondeterministic_key(key: &str) -> (r: bool)
    ensures
        r == drops_key(key@),
{
    proof {
        reveal_strlit("_at");
    }
    ends_with(key, "_at") || str_eq(key, "timestamp") || str_eq(key, "actor_id") || str_eq(
        key,
        "actor_type",
    ) || str_eq(key, "user_id") || str_eq(key, "request_id")
}

/// What SHA-256 gives for the bytes.
pub uninterp spec fn sha256_of(data: Seq<u8>) -> Seq<u8>;

/// Calls `sha2::Sha256::digest`. Claims the digest is named by `sha256_of`
/// (a function of the bytes alone) and has 32 bytes.
#[verifier::external_body]
fn sha256(data: &Vec<u8>) -> (r: Vec<u8>)
    ensures
        r@ == sha256_of(data@),
        r@.len() == 32,
{
    <sha2::Sha256 as sha2::Digest>::digest(data.as_slice()).to_vec()
}

/// Byte `k` of the 16 big-endian bytes of a UUID.
pub open spec fn uuid_byte(v: u128, k: int) -> u8 {
    (((v as int) / pow16(2 * (15 - k))) % 256) as u8
}

/// The 16 big-endian bytes of a UUID.
pub open spec fn uuid_bytes(v: u128) -> Seq<u8> {
    Seq::new(16, |k: int| uuid_byte(v, k))
}

/// The two lowercase hexadecimal digits of each byte, in order.
pub open spec fn hex_of(bytes: Seq<u8>) -> Seq<char>
    decreases bytes.len(),
{
    if bytes.len() == 0 {
        Seq::empty()
    } else {
        hex_of(bytes.drop_last()) + seq![
            hex_digit(bytes.last() as int / 16),
            hex_digit(bytes.last() as int % 16),
        ]
    }
}

/// The bytes that the key hashes: tenant, stream key, command (if any) and
/// normalized payload.
pub open spec fn key_material(
    tenant_id: Uuid,
    stream_key: Seq<char>,
    command_id: Option<Uuid>,
    normalized_payload: Seq<char>,
) -> Seq<u8> {
    uuid_bytes(tenant_id) + encode_utf8(stream_key) + match command_id {
        Some(c) => uuid_bytes(c),
        None => Seq::empty(),
    } + encode_utf8(normalized_payload)
}

/// The 16 big-endian bytes of a UUID.
fn uuid_to_bytes(id: Uuid) -> (r: Vec<u8>)
    ensures
        r@ == uuid_bytes(id),
{
    let mut rev: Vec<u8> = Vec::new();
    let mut rest: u128 = id;
    let mut k: usize = 0;
    while k < 16
        invariant
            k <= 16,
            rev@.len() == k,
            rest as int == (id as int) / pow16(2 * k),
            forall|j: int| 0 <= j < k ==> #[trigger] rev@[j] as int == ((id as int) / pow16(2 * j)) % 256,
        decreases 16 - k,
    {
        let b = (rest % 256) as u8;
        proof {
            lemma_pow16_positive(2 * k);
            assert(pow16(2 * k + 1) == 16 * pow16(2 * k));
            assert(pow16(2 * k + 2) == 16 * pow16(2 * k + 1));
            vstd::arithmetic::div_mod::lemma_div_denominator(id as int, pow16(2 * k), 256);
            assert((id as int) / pow16(2 * (k + 1)) == ((id as int) / pow16(2 * k)) / 256)
                by (nonlinear_arith)
                requires
                    (id as int) / (pow16(2 * k) * 256) == ((id as int) / pow16(2 * k)) / 256,
                    pow16(2 * k + 2) == 256 * pow16(2 * k),
                    2 * (k + 1) == 2 * k + 2,
            ;
        }
        rev.push(b);
        rest = rest / 256;
        k = k + 1;
    }
    let mut out: Vec<u8> = Vec::new();
    let mut i: usize = 0;
    while i < 16
        invariant
            i <= 16,
            rev@.len() == 16,
            forall|j: int| 0 <= j < 16 ==> #[trigger] rev@[j] as int == ((id as int) / pow16(2 * j)) % 256,
            out@.len() == i,
            forall|j: int| 0 <= j < i ==> #[trigger] out@[j] == uuid_byte(id, j),
        decreases 16 - i,
    {
        out.push(rev[15 - i]);
        i = i + 1;
    }
    assert(out@ =~= uuid_bytes(id));
    out
}

/// Lowercase hexadecimal text of the bytes.
pub(crate) fn hex_encode(bytes: &Vec<u8>) -> (r: String)
    ensures
        r@ == hex_of(bytes@),
{
    let mut out = String::new();
    let n = bytes.len();
    let mut i: usize = 0;
    while i < n
        invariant
            n == bytes@.len(),
            i <= n,
            out@ == hex_of(bytes@.take(i as int)),
        decreases n - i,
    {
        let b = bytes[i];
        proof {
            assert(bytes@.take(i + 1).drop_last() =~= bytes@.take(i as int));
        }
        out.append(hex_str(b / 16));
        out.append(hex_str(b % 16));
        proof {
            assert(out@ =~= hex_of(bytes@.take(i + 1)));
        }
        i = i + 1;
    }
    assert(bytes@.take(n as int) =~= bytes@);
    out
}

/// The idempotency key: `"idem_"` followed by the lowercase hexadecimal
/// SHA-256 of the tenant's bytes, the stream key, the command's bytes (if
/// any) and the normalized payload, in that order.
pub fn compute_idempotency_key(
    tenant_id: Uuid,
    stream_key: &str,
    command_id: Option<Uuid>,
    normalized_payload: &str,
) -> (r: String)
    ensures
        r@ == "idem_"@ + hex_of(
            sha256_of(key_material(tenant_id, stream_key@, command_id, normalized_payload@)),
        ),
        r@.len() == 69,
{
    let mut data = uuid_to_bytes(tenant_id);
    let mut s = stream_key.as_bytes_vec();
    data.append(&mut s);
    match command_id {
        Some(c) => {
            let mut cb = uuid_to_bytes(c);
            data.append(&mut cb);
        },
        None => {},
    }
    let mut p = normalized_payload.as_bytes_vec();
    data.append(&mut p);
    proof {
        assert(data@ =~= key_material(tenant_id, stream_key@, command_id, normalized_payload@));
    }
    let digest = sha256(&data);
    proof {
        lemma_hex_of_len(digest@);
        reveal_strlit("idem_");
    }
    let mut key = owned("idem_");
    key.append(hex_encode(&digest).as_str());
    key
}

/// Two hexadecimal digits per byte.
proof fn lemma_hex_of_len(bytes: Seq<u8>)
    ensures
        hex_of(bytes).len() == 2 * bytes.len(),
    decreases bytes.len(),
{
    if bytes.len() > 0 {
        lemma_hex_of_len(bytes.drop_last());
    }
}

/// A JSON value, as the event payloads are written.
#[derive(Debug, PartialEq, Eq)]
pub enum JsonValue {
    /// `null`
    Null,
    /// `true` or `false`
    Bool(bool),
    /// A number, as written
    Number(String),
    /// A string
    Text(String),
    /// An array
    Array(Vec<JsonValue>),
    /// An object: its fields in order
    Object(Vec<(String, JsonValue)>),
}

/// The number of fields of an object (0 for any other value).
pub open spec fn field_count(v: JsonValue) -> nat {
    match v {
        JsonValue::Object(fs) => fs@.len(),
        _ => 0,
    }
}

/// `r` is the normalized form of `v`: an object loses its fields whose key
/// `drops_key` names, and each field holding an object is normalized in
/// turn; any other value (arrays included, whatever they hold) is kept as
/// it is.
pub open spec fn normalized(v: JsonValue, r: JsonValue) -> bool
    decreases v, field_count(v) + 1,
{
    match v {
        JsonValue::Object(fs) => match r {
            JsonValue::Object(rs) => fields_normalized(v, fs@.len() as nat, rs@),
            _ => false,
        },
        _ => r == v,
    }
}

/// `rs` is the normalized form of the first `n` fields of the object `v`.
pub open spec fn fields_normalized(v: JsonValue, n: nat, rs: Seq<(String, JsonValue)>) -> bool
    decreases v, n,
{
    match v {
        JsonValue::Object(fs) => if n == 0 || n > fs@.len() {
            n == 0 && rs.len() == 0
        } else {
            let f = fs@[n - 1];
            if drops_key(f.0@) {
                fields_normalized(v, (n - 1) as nat, rs)
            } else {
                &&& rs.len() > 0
                &&& rs.last().0 == f.0
                &&& (if f.1 is Object {
                    normalized(f.1, rs.last().1)
                } else {
                    rs.last().1 == f.1
                })
                &&& fields_normalized(v, (n - 1) as nat, rs.drop_last())
            }
        },
        _ => false,
    }
}

/// The payload without its non-deterministic fields (see `drops_key`), in
/// nested objects too; values inside arrays are kept as they are.
pub fn normalize_payload(payload: JsonValue) -> (r: JsonValue)
    ensures
        normalized(payload, r),
    decreases payload,
{
    let ghost v = payload;
    match payload {
        JsonValue::Object(fields) => {
            let ghost all = fields@;
            let mut rest = fields;
            let n = rest.len();
            let mut out: Vec<(String, JsonValue)> = Vec::new();
            let mut i: usize = 0;
            while rest.len() > 0
                invariant
                    v == payload,
                    n == all.len(),
                    v is Object,
                    match v {
                        JsonValue::Object(fs) => fs@ == all,
                        _ => false,
                    },
                    i <= all.len(),
                    i + rest@.len() == all.len(),
                    rest@ == all.skip(i as int),
                    fields_normalized(v, i as nat, out@),
                decreases rest@.len(),
            {
                let ghost before = out@;
                let (key, value) = rest.remove(0);
                proof {
                    assert(all[i as int] == (key, value));
                    assert(decreases_to!(payload => value));
                }
                if is_nondeterministic_key(key.as_str()) {
                } else {
                    let is_object = match &value {
                        JsonValue::Object(_) => true,
                        _ => false,
                    };
                    let kept = if is_object {
                        normalize_payload(value)
                    } else {
                        value
                    };
                    out.push((key, kept));
                    proof {
                        assert(out@.drop_last() =~= before);
                    }
                }
                i = i + 1;
            }
            JsonValue::Object(out)
        },
        other => other,
    }
}

/// The fields of an object (none for any other value).
pub open spec fn fields_of(v: JsonValue) -> Seq<(String, JsonValue)> {
    match v {
        JsonValue::Object(fs) => fs@,
        _ => Seq::empty(),
    }
}

/// Inserting a dropped field at `j` changes nothing of the normalized
/// prefixes: before `j` they are the same, after it they are shifted by one.
proof fn lemma_fields_insert_dropped(
    v: JsonValue,
    w: JsonValue,
    j: int,
    e: (String, JsonValue),
    n: nat,
    rs: Seq<(String, JsonValue)>,
)
    requires
        v is Object,
        w is Object,
        0 <= j <= fields_of(v).len(),
        fields_of(w) == fields_of(v).insert(j, e),
        drops_key(e.0@),
        n <= fields_of(v).len(),
    ensures
        n <= j ==> fields_normalized(w, n, rs) == fields_normalized(v, n, rs),
        n >= j ==> fields_normalized(w, n + 1, rs) == fields_normalized(v, n, rs),
    decreases n, rs.len(),
{
    let fs = fields_of(v);
    let ws = fields_of(w);
    if n > 0 {
        assert(n - 1 < j ==> ws[n - 1] == fs[n - 1]);
        lemma_fields_insert_dropped(v, w, j, e, (n - 1) as nat, rs);
        if rs.len() > 0 {
            lemma_fields_insert_dropped(v, w, j, e, (n - 1) as nat, rs.drop_last());
        }
    }
    if n >= j {
        if n == j {
            assert(ws[n as int] == e);
            assert(fields_normalized(w, n, rs) == fields_normalized(v, n, rs));
            assert(fields_normalized(w, n + 1, rs) == fields_normalized(w, n, rs));
        } else {
            assert(ws[n as int] == fs[n - 1]);
        }
    }
}

/// The normalized payload does not depend on the non-deterministic fields:
/// an object and the same object with one more field whose key `drops_key`
/// names, anywhere among its fields, have the same normalized form.
pub proof fn lemma_dropped_field_ignored(v: JsonValue, w: JsonValue, j: int, e: (String, JsonValue), r: JsonValue)
    requires
        v is Object,
        w is Object,
        0 <= j <= fields_of(v).len(),
        fields_of(w) == fields_of(v).insert(j, e),
        drops_key(e.0@),
    ensures
        normalized(v, r) == normalized(w, r),
{
    let n = fields_of(v).len();
    match r {
        JsonValue::Object(rs) => {
            lemma_fields_insert_dropped(v, w, j, e, n, rs@);
            assert(fields_of(w).len() == n + 1);
        },
        _ => {},
    }
}

} // verus!
