use vstd::prelude::*;

use crate::framework::{ulid_str_of, ulid_to_string, ReqScopedState};

verus! {

/// A name for what chrono's DateTime::from_timestamp_millis followed by
/// to_rfc3339 returns: the RFC 3339 text of a UTC timestamp, a function of
/// the milliseconds alone.
pub uninterp spec fn rfc3339_utc_of(ms: u64) -> Seq<char>;

/// Relies on chrono's DateTime::from_timestamp_millis and to_rfc3339; a
/// ulid timestamp (48 bits) is always inside chrono's datetime range.
#[verifier::external_body]
fn fmt_rfc3339_utc(ms: u64) -> (r: String)
    requires
        ms < 0x1000000000000,
    ensures
        r@ == rfc3339_utc_of(ms),
{
    match chrono::DateTime::from_timestamp_millis(ms as i64) {
        Some(dt) => dt.to_rfc3339(),
        None => String::new(),
    }
}

/// What the logger reads from an inbound request.
pub struct ReqMeta {
    pub method: String,
    pub uri: String,
    pub remote_addr: String,
    pub user_agent: Option<String>,
    pub cookie: Option<String>,
}

/// Spec-level shape of the request metadata.
pub struct ReqMetaView {
    pub method: Seq<char>,
    pub uri: Seq<char>,
    pub remote_addr: Seq<char>,
    pub user_agent: Option<Seq<char>>,
    pub cookie: Option<Seq<char>>,
}

impl View for ReqMeta {
    type V = ReqMetaView;

    open spec fn view(&self) -> ReqMetaView {
        ReqMetaView {
            method: self.method@,
            uri: self.uri@,
            remote_addr: self.remote_addr@,
            user_agent: match self.user_agent {
                Some(u) => Some(u@),
                None => None,
            },
            cookie: match self.cookie {
                Some(c) => Some(c@),
                None => None,
            },
        }
    }
}

/// The structured fields a fresh logger carries: request correlation data
/// first, then whichever of the selected headers were present.
pub open spec fn logger_fields_of(ctx: ReqScopedState, m: ReqMetaView) -> Seq<
    (Seq<char>, Seq<char>),
> {
    let base = seq![
        ("req_id"@, ulid_str_of(ctx.req_id)),
        ("timestamp"@, rfc3339_utc_of(ctx.ts)),
        ("uri"@, m.uri),
        ("method"@, m.method),
        ("remote_addr"@, m.remote_addr),
    ];
    let with_ua = match m.user_agent {
        Some(u) => base.push(("user-agent"@, u)),
        None => base,
    };
    match m.cookie {
        Some(c) => with_ua.push(("cookie"@, c)),
        None => with_ua,
    }
}

/// The views of a list of key-value pairs.
pub open spec fn pairs_view(s: Seq<(String, String)>) -> Seq<(Seq<char>, Seq<char>)> {
    s.map_values(|p: (String, String)| (p.0@, p.1@))
}

/// One rendered-ready record: the carried fields with the level tag and the
/// message appended.
pub open spec fn record_of(fields: Seq<(Seq<char>, Seq<char>)>, level: Seq<char>, msg: Seq<char>) -> Seq<
    (Seq<char>, Seq<char>),
> {
    fields + seq![("log_level"@, level), ("message"@, msg)]
}

/// A leveled, structured log record, ready to be rendered and written by
/// the caller; building it never fails.
pub struct LogRecord {
    pub fields: Vec<(String, String)>,
}

impl View for LogRecord {
    type V = Seq<(Seq<char>, Seq<char>)>;

    open spec fn view(&self) -> Seq<(Seq<char>, Seq<char>)> {
        pairs_view(self.fields@)
    }
}

/// Emission of leveled records over carried structured fields.
pub trait LoggerInterface: Sized {
    spec fn fields(&self) -> Seq<(Seq<char>, Seq<char>)>;

    fn info(&self, item: &str) -> (r: LogRecord)
        ensures
            r@ == record_of(self.fields(), "info"@, item@),
    ;

    fn warning(&self, item: &str) -> (r: LogRecord)
        ensures
            r@ == record_of(self.fields(), "warning"@, item@),
    ;

    fn danger(&self, item: &str) -> (r: LogRecord)
        ensures
            r@ == record_of(self.fields(), "danger"@, item@),
    ;

    fn debug(&self, item: &str) -> (r: LogRecord)
        ensures
            r@ == record_of(self.fields(), "debug"@, item@),
    ;
}

/// Per-request logger: a bag of structured fields fixed at setup time.
#[derive(Clone, Debug)]
pub struct Logger(Vec<(String, String)>);

/// The log levels a record can carry.
#[derive(Clone, Copy, Debug, PartialEq, Eq, Structural)]
pub enum LogLevel {
    Info,
    Warning,
    Danger,
    Debug,
}

impl LogLevel {
    pub open spec fn spec_str(self) -> Seq<char> {
        match self {
            LogLevel::Info => "info"@,
            LogLevel::Warning => "warning"@,
            LogLevel::Danger => "danger"@,
            LogLevel::Debug => "debug"@,
        }
    }

    /// The level's tag as it appears in a record.
    pub fn as_str(self) -> (r: &'static str)
        ensures
            r@ == self.spec_str(),
    {
        match self {
            LogLevel::Info => "info",
            LogLevel::Warning => "warning",
            LogLevel::Danger => "danger",
            LogLevel::Debug => "debug",
        }
    }
}

impl View for Logger {
    type V = Seq<(Seq<char>, Seq<char>)>;

    closed spec fn view(&self) -> Seq<(Seq<char>, Seq<char>)> {
        pairs_view(self.0@)
    }
}

impl Logger {
    /// Builds the per-request fields from the context and the request
    /// metadata; the timestamp field is the RFC 3339 text of the context's
    /// timestamp, which `ReqScopedState::wf` ties to the request id.
    pub fn new(ctx: &ReqScopedState, meta: &ReqMeta) -> (r: Logger)
        requires
            ctx.wf(),
        ensures
            r@ == logger_fields_of(*ctx, meta@),
    {
        proof {
            lemma_ulid_timestamp_fits(ctx.req_id);
        }
        let mut fields: Vec<(String, String)> = Vec::new();
        fields.push(("req_id".to_owned(), ulid_to_string(ctx.req_id)));
        fields.push(("timestamp".to_owned(), fmt_rfc3339_utc(ctx.ts)));
        fields.push(("uri".to_owned(), meta.uri.clone()));
        fields.push(("method".to_owned(), meta.method.clone()));
        fields.push(("remote_addr".to_owned(), meta.remote_addr.clone()));
        match &meta.user_agent {
            Some(u) => fields.push(("user-agent".to_owned(), u.clone())),
            None => (),
        }
        match &meta.cookie {
            Some(c) => fields.push(("cookie".to_owned(), c.clone())),
            None => (),
        }
        let r = Logger(fields);
        proof {
            assert(r@ =~= logger_fields_of(*ctx, meta@));
        }
        r
    }

    /// A copy that carries the same fields.
    pub fn duplicate(&self) -> (r: Logger)
        ensures
            r@ == self@,
    {
        let mut fields: Vec<(String, String)> = Vec::new();
        let n = self.0.len();
        for i in 0..n
            invariant
                n == self.0@.len(),
                fields@.len() == i,
                forall|j: int|
                    0 <= j < i ==> (#[trigger] fields@[j]).0@ == self.0@[j].0@ && fields@[j].1@
                        == self.0@[j].1@,
        {
            let k = self.0[i].0.clone();
            let v = self.0[i].1.clone();
            fields.push((k, v));
        }
        let r = Logger(fields);
        proof {
            assert(r@ =~~= self@);
        }
        r
    }

    /// The carried fields with the level and message appended; the caller
    /// renders and writes the record.
    fn log(&self, level: LogLevel, item: &str) -> (r: LogRecord)
        ensures
            r@ == record_of(self@, level.spec_str(), item@),
    {
        let mut fields: Vec<(String, String)> = Vec::new();
        let n = self.0.len();
        for i in 0..n
            invariant
                n == self.0@.len(),
                fields@.len() == i,
                forall|j: int|
                    0 <= j < i ==> (#[trigger] fields@[j]).0@ == self.0@[j].0@ && fields@[j].1@
                        == self.0@[j].1@,
        {
            let k = self.0[i].0.clone();
            let v = self.0[i].1.clone();
            fields.push((k, v));
        }
        fields.push(("log_level".to_owned(), level.as_str().to_owned()));
        fields.push(("message".to_owned(), item.to_owned()));
        let r = LogRecord { fields };
        proof {
            assert(r@ =~~= record_of(self@, level.spec_str(), item@));
        }
        r
    }
}

impl LoggerInterface for Logger {
    open spec fn fields(&self) -> Seq<(Seq<char>, Seq<char>)> {
        self.view()
    }

    fn info(&self, item: &str) -> (r: LogRecord) {
        self.log(LogLevel::Info, item)
    }

    fn warning(&self, item: &str) -> (r: LogRecord) {
        self.log(LogLevel::Warning, item)
    }

    fn danger(&self, item: &str) -> (r: LogRecord) {
        self.log(LogLevel::Danger, item)
    }

    fn debug(&self, item: &str) -> (r: LogRecord) {
        self.log(LogLevel::Debug, item)
    }
}

/// A ulid's embedded timestamp occupies 48 bits.
proof fn lemma_ulid_timestamp_fits(bits: u128)
    ensures
        crate::framework::ulid_timestamp_ms(bits) < 0x1000000000000,
{
    assert((bits >> 80) < 0x1000000000000u128) by (bit_vector);
    assert(((bits >> 80) as u64) < 0x1000000000000u64);
}

} // verus!
