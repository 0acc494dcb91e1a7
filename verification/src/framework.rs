use vstd::prelude::*;

pub mod env;
pub mod logger;
pub mod session;
pub mod system;

use self::env::Env;

verus! {

/// The Crockford base32 alphabet used by ulid text.
pub open spec fn crockford_alphabet() -> Seq<char> {
    seq![
        '0', '1', '2', '3', '4', '5', '6', '7', '8', '9', 'A', 'B', 'C', 'D', 'E', 'F', 'G',
        'H', 'J', 'K', 'M', 'N', 'P', 'Q', 'R', 'S', 'T', 'V', 'W', 'X', 'Y', 'Z',
    ]
}

/// The canonical 26-character text of a ulid: 5 bits per character,
/// most significant bits first.
pub open spec fn ulid_str_of(bits: u128) -> Seq<char> {
    Seq::new(26, |i: int| crockford_alphabet()[((bits >> (((25 - i) * 5) as u128)) & 0x1f) as int])
}

/// The creation time embedded in a ulid: its high 48 bits, in milliseconds
/// since the epoch.
pub open spec fn ulid_timestamp_ms(bits: u128) -> u64 {
    (bits >> 80) as u64
}

/// Relies on ulid::Ulid::generate: a fresh, unguessable identifier whose
/// high 48 bits hold the creation time in milliseconds. Nothing is assumed
/// about the value; every caller must hold for any outcome.
#[verifier::external_body]
pub fn fresh_ulid() -> u128 {
    ulid::Ulid::generate().0
}

/// Relies on ulid::Ulid::to_string: the canonical Crockford base32
/// encoding, stated bit for bit by `ulid_str_of`.
#[verifier::external_body]
pub fn ulid_to_string(bits: u128) -> (r: String)
    ensures
        r@ == ulid_str_of(bits),
{
    ulid::Ulid(bits).to_string()
}

/// State scoped to one request: the request id and the creation timestamp
/// derived from it. The timestamp is never set independently; `new` is the
/// only constructor.
#[derive(Clone, Debug)]
pub struct ReqScopedState {
    pub ts: u64,
    pub req_id: u128,
}

impl ReqScopedState {
    /// The timestamp is exactly the time encoded in the request id.
    pub open spec fn wf(self) -> bool {
        self.ts == ulid_timestamp_ms(self.req_id)
    }

    pub fn new(req_id: u128) -> (r: Self)
        ensures
            r.req_id == req_id,
            r.ts == ulid_timestamp_ms(req_id),
            r.wf(),
    {
        let ts: u64 = (req_id >> 80) as u64;
        ReqScopedState { req_id, ts }
    }
}

/// A value fixed at construction; only read access is offered.
#[derive(Debug, Clone)]
pub struct Immutable<T>(T);

impl<T> Immutable<T> {
    pub closed spec fn inner(self) -> T {
        self.0
    }

    pub fn new(value: T) -> (r: Self)
        ensures
            r.inner() == value,
    {
        Immutable(value)
    }

    pub fn get(&self) -> (r: &T)
        ensures
            *r == self.inner(),
    {
        &self.0
    }
}

/// Marker for handler metadata that carries no custom properties.
pub struct NoneOfProps;

/// Response metadata: a payload, a version tag (a ulid), and extra
/// properties chosen by the handler.
pub struct Meta<'a, Data, CustomProps = NoneOfProps> {
    pub data: &'a Data,
    pub version_tag: u128,
    pub custom_props: CustomProps,
}

/// State shared by the whole application: configuration and the provider's
/// discovery document, fetched once at startup and immutable afterwards.
#[derive(Clone)]
pub struct AppState {
    pub env: Immutable<Env>,
    pub discovery_json: String,
}

} // verus!
