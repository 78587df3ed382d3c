//! Request routing: the action codes, the handler table, and the handlers
//! whose payload the library reads itself.

use vstd::prelude::*;
use msgpack_simple::MsgPack;
use crate::db::{find, fresh_series, CacheDb};
use crate::entity::{TSCacheValue, TSItem};
use crate::exception::{Exception, ExceptionKind};
use crate::queue::TSQueue;

verus! {

/// The requests of the protocol.
#[derive(Debug, Clone, Copy, PartialEq, Eq, Structural)]
pub enum MethodKind {
    Create,
    SetValue,
    Get,
    Range,
    Query,
}

impl MethodKind {
    pub open spec fn spec_code(self) -> u16 {
        match self {
            MethodKind::Create => 101,
            MethodKind::SetValue => 201,
            MethodKind::Get => 301,
            MethodKind::Range => 302,
            MethodKind::Query => 303,
        }
    }

    pub fn as_code(&self) -> (r: u16)
        ensures
            r == self.spec_code(),
    {
        match self {
            MethodKind::Create => 101,
            MethodKind::SetValue => 201,
            MethodKind::Get => 301,
            MethodKind::Range => 302,
            MethodKind::Query => 303,
        }
    }
}

/// The work a request is routed to.
#[derive(Debug, Clone, Copy, PartialEq, Eq, Structural)]
pub enum Handler {
    CreateItem,
    SetValue,
    GetValue,
}

/// One entry of the handler table: an action code and its handler.
#[derive(Debug, Clone, Copy, PartialEq, Eq, Structural)]
pub struct TSMethod {
    pub code: u16,
    pub method: Handler,
}

impl TSMethod {
    pub fn new(kind: MethodKind, method: Handler) -> (r: TSMethod)
        ensures
            r.code == kind.spec_code(),
            r.method == method,
    {
        TSMethod { code: kind.as_code(), method }
    }
}

/// The handler of the first entry of `methods` whose code is `action`.
pub open spec fn first_handler(methods: Seq<TSMethod>, action: u16) -> Option<Handler>
    decreases methods.len(),
{
    if methods.len() == 0 {
        None
    } else if methods[0].code == action {
        Some(methods[0].method)
    } else {
        first_handler(methods.drop_first(), action)
    }
}

/// The table of bound handlers: Create, Set and Get. Range and Query have
/// none.
pub fn handler_methods() -> (r: Vec<TSMethod>)
    ensures
        r@ == seq![
            TSMethod { code: 101, method: Handler::CreateItem },
            TSMethod { code: 201, method: Handler::SetValue },
            TSMethod { code: 301, method: Handler::GetValue },
        ],
{
    let r = vec![
        TSMethod::new(MethodKind::Create, Handler::CreateItem),
        TSMethod::new(MethodKind::SetValue, Handler::SetValue),
        TSMethod::new(MethodKind::Get, Handler::GetValue),
    ];
    assert(r@ =~= seq![
        TSMethod { code: 101, method: Handler::CreateItem },
        TSMethod { code: 201, method: Handler::SetValue },
        TSMethod { code: 301, method: Handler::GetValue },
    ]);
    r
}

/// The handler bound to `action` in `methods`, if any.
pub fn choose_method(methods: &Vec<TSMethod>, action: u16) -> (r: Option<Handler>)
    ensures
        r == first_handler(methods@, action),
{
    let mut i: usize = 0;
    assert(methods@.subrange(0, methods@.len() as int) =~= methods@);
    while i < methods.len()
        invariant
            i <= methods@.len(),
            first_handler(methods@, action) == first_handler(
                methods@.subrange(i as int, methods@.len() as int),
                action,
            ),
        decreases methods@.len() - i,
    {
        assert(methods@.subrange(i as int, methods@.len() as int).drop_first() =~= methods@.subrange(
            i + 1,
            methods@.len() as int,
        ));
        if methods[i].code == action {
            return Some(methods[i].method);
        }
        i = i + 1;
    }
    None
}

/// Registers the series `item`. A taken name gives `TSNameExistsError`, a
/// capacity of 0 gives `ParamParseError`; neither changes anything.
/// Otherwise the series starts with an empty cache and no log file open.
pub fn do_create(db: &mut CacheDb, item: TSItem) -> (r: Result<(), Exception>)
    requires
        old(db).wf(),
    ensures
        final(db).wf(),
        find(old(db)@, item.tsName@) is Some ==> (r matches Err(e) && e.code
            == ExceptionKind::TSNameExistsError.spec_code() && final(db)@ == old(db)@),
        find(old(db)@, item.tsName@) is None && item.capacity == 0 ==> (r matches Err(e) && e.code
            == ExceptionKind::ParamParseError.spec_code() && final(db)@ == old(db)@),
        find(old(db)@, item.tsName@) is None && item.capacity > 0 ==> r is Ok && final(db)@ == old(
            db,
        )@.push(fresh_series(item@)),
{
    if db.contains_key(item.tsName.as_str()) {
        return Err(Exception::err(ExceptionKind::TSNameExistsError, "duplicate series name"));
    }
    if item.capacity == 0 {
        return Err(Exception::err(ExceptionKind::ParamParseError, "capacity must be positive"));
    }
    let cap = item.capacity;
    let queue = TSQueue::new(Box::new(item.duplicate()), cap);
    let r = db.create_new_item(item, queue);
    proof {
        assert(queue.entries() =~= fresh_series(item@).entries);
    }
    r
}

/// Whether `b` opens a MessagePack string: a fixstr, str8, str16 or str32.
pub open spec fn is_str_marker(b: u8) -> bool {
    (0xa0 <= b && b <= 0xbf) || b == 0xd9 || b == 0xda || b == 0xdb
}

/// The string that the MessagePack bytes `raw` begin with, if they begin
/// with a well-formed one.
pub uninterp spec fn msgpack_str(raw: Seq<u8>) -> Option<Seq<char>>;

/// Relies on msgpack_simple's `MsgPack::parse`: the value that the bytes
/// begin with. On bytes that open with a string marker it reads that one
/// string (checking its length and its UTF-8) and nothing nested.
#[verifier::external_body]
fn parse_str(raw: &[u8]) -> (r: Option<String>)
    requires
        raw@.len() > 0,
        is_str_marker(raw@[0]),
    ensures
        r matches Some(s) ==> msgpack_str(raw@) == Some(s@),
        r is None ==> msgpack_str(raw@) is None,
{
    match MsgPack::parse(raw) {
        Ok(MsgPack::String(s)) => Some(s),
        _ => None,
    }
}

/// The series name a Get request carries: a MessagePack string.
pub open spec fn requested_name(param: Seq<u8>) -> Option<Seq<char>> {
    if param.len() > 0 && is_str_marker(param[0]) {
        msgpack_str(param)
    } else {
        None
    }
}

/// Answers a Get request whose payload is a series name.
pub fn do_get<'a>(db: &'a CacheDb, param: &[u8]) -> (r: Result<&'a TSCacheValue, Exception>)
    requires
        db.wf(),
    ensures
        match requested_name(param@) {
            None => r matches Err(e) && e.code == ExceptionKind::ParamParseError.spec_code(),
            Some(name) => get_answer(db, name, r),
        },
{
    if param.len() == 0 || !(param[0] >= 0xa0 && param[0] <= 0xbf || param[0] == 0xd9
        || param[0] == 0xda || param[0] == 0xdb) {
        return Err(Exception::err(ExceptionKind::ParamParseError, "series name must be a string"));
    }
    match parse_str(param) {
        None => Err(Exception::err(ExceptionKind::ParamParseError, "series name must be a string")),
        Some(name) => get_value(db, &name),
    }
}

/// `r` answers a Get of the series `name`: its newest value, or the error
/// for a missing series or an empty cache.
pub open spec fn get_answer(db: &CacheDb, name: Seq<char>, r: Result<&TSCacheValue, Exception>) -> bool {
    match find(db@, name) {
        None => r matches Err(e) && e.code == ExceptionKind::TSNameNotFoundError.spec_code(),
        Some(i) => if db@[i].entries.len() == 0 {
            r matches Err(e) && e.code == ExceptionKind::QueueIsNullError.spec_code()
        } else {
            r matches Ok(v) && v@ == db@[i].entries.last().1
        },
    }
}

/// Answers a Get of the series named `name`.
pub fn get_value<'a>(db: &'a CacheDb, name: &String) -> (r: Result<&'a TSCacheValue, Exception>)
    requires
        db.wf(),
    ensures
        get_answer(db, name@, r),
{
    db.query_last(name.as_str())
}

} // verus!
