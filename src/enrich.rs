//! The fields that describe a request or a response, added to the server's
//! logger to give the logger of that request or response.
use crate::field::{child, clone_text, entries, lemma_lookup_child, lookup, text_model, unsigned_model, Entry, Field, FieldValue, ValueModel};
use crate::request::{RequestInfo, ResponseInfo};
use crate::transaction::{elapsed_model, hyphenated, now, rfc3339_of, RequestTransaction, Timestamp};
use vstd::prelude::*;
use vstd::string::StringExecFns;

verus! {

pub open spec fn views(v: Seq<String>) -> Seq<Seq<char>> {
    v.map_values(|s: String| s@)
}

/// `parts` with `sep` between each two neighbours.
pub open spec fn joined(parts: Seq<Seq<char>>, sep: Seq<char>) -> Seq<char>
    decreases parts.len(),
{
    if parts.len() == 0 {
        Seq::empty()
    } else if parts.len() == 1 {
        parts[0]
    } else {
        joined(parts.drop_last(), sep) + sep + parts.last()
    }
}

/// The values of a header, separated by `"; "`.
pub fn join_header_values(values: &Vec<String>) -> (r: String)
    ensures
        r@ == joined(views(values@), "; "@),
{
    let mut r = String::new();
    let mut i: usize = 0;
    while i < values.len()
        invariant
            i <= values@.len(),
            r@ == joined(views(values@.take(i as int)), "; "@),
        decreases values@.len() - i,
    {
        let ghost before = r@;
        if i > 0 {
            r.append("; ");
        }
        r.append(values[i].as_str());
        assert(views(values@.take(i + 1)).drop_last() =~= views(values@.take(i as int)));
        if i == 0 {
            assert(before =~= Seq::<char>::empty());
            assert(r@ =~= values@[0]@);
        }
        i = i + 1;
    }
    assert(values@.take(i as int) =~= values@);
    r
}

/// The fields that tell where a request went: for a request that matched a
/// route, the route's rank, name, path template and method, and the URI;
/// otherwise the request's method and URI.
pub open spec fn route_detail_entries(request: RequestInfo) -> Seq<Entry> {
    match request.route {
        Some(route) => seq![
            ("rank"@, ValueModel::Signed(route.rank as int)),
            ("route"@, ValueModel::MaybeText(text_model(route.name))),
            ("path"@, ValueModel::Text(route.path@)),
            ("method"@, ValueModel::Text(route.method@)),
            ("uri"@, ValueModel::Text(request.uri@)),
        ],
        None => seq![
            ("method"@, ValueModel::Text(request.method@)),
            ("uri"@, ValueModel::Text(request.uri@)),
        ],
    }
}

/// The fields that a request's transaction adds.
pub open spec fn transaction_entries(t: RequestTransaction) -> Seq<Entry> {
    seq![
        ("received"@, ValueModel::Text(rfc3339_of(t.received.secs as int, t.received.nanos as int))),
        ("transaction"@, ValueModel::Text(hyphenated(t.id as nat))),
    ]
}

/// The fields that describe a request, before the route details.
pub open spec fn request_entries(request: RequestInfo, transaction: Option<RequestTransaction>) -> Seq<Entry> {
    let head = match transaction {
        Some(t) => transaction_entries(t),
        None => Seq::empty(),
    };
    head + seq![
        ("user-agent"@, ValueModel::Text(joined(views(request.user_agents@), "; "@))),
        ("content-type"@, ValueModel::MaybeText(text_model(request.content_type))),
    ]
}

/// The fields that describe a response, before the route details; with a
/// transaction, they include the nanoseconds elapsed at `now`.
pub open spec fn response_entries(
    response: ResponseInfo,
    transaction: Option<RequestTransaction>,
    now: Timestamp,
) -> Seq<Entry> {
    let head = match transaction {
        Some(t) => seq![("elapsed_ns"@, ValueModel::MaybeSigned(
            match elapsed_model(t.received, now) {
                Some(d) => Some(d),
                None => None::<int>,
            },
        ))] + transaction_entries(t),
        None => Seq::empty(),
    };
    head + seq![
        ("content-type"@, ValueModel::MaybeText(text_model(response.content_type))),
        ("reason"@, ValueModel::MaybeText(text_model(response.reason))),
        ("code"@, ValueModel::Unsigned(response.code as nat)),
    ]
}

/// The fields that tell where a request went.
pub fn route_detail_fields(request: &RequestInfo) -> (r: Vec<Field>)
    ensures
        entries(r@) == route_detail_entries(*request),
{
    let mut fields: Vec<Field> = Vec::new();
    match &request.route {
        Some(route) => {
            fields.push(Field::new("rank", FieldValue::Signed(route.rank)));
            fields.push(Field::new("route", FieldValue::MaybeText(clone_text(&route.name))));
            fields.push(Field::new("path", FieldValue::Text(route.path.clone())));
            fields.push(Field::new("method", FieldValue::Text(route.method.clone())));
            fields.push(Field::new("uri", FieldValue::Text(request.uri.clone())));
        },
        None => {
            fields.push(Field::new("method", FieldValue::Text(request.method.clone())));
            fields.push(Field::new("uri", FieldValue::Text(request.uri.clone())));
        },
    }
    assert(entries(fields@) =~= route_detail_entries(*request));
    fields
}

fn push_transaction_fields(fields: &mut Vec<Field>, t: &RequestTransaction)
    requires
        t.received.wf(),
    ensures
        entries(final(fields)@) == entries(old(fields)@) + transaction_entries(*t),
{
    let received = t.received_as_string();
    let ghost before = fields@;
    fields.push(Field::new("received", FieldValue::Text(received)));
    fields.push(Field::new("transaction", FieldValue::Text(t.id_as_string())));
    assert(entries(fields@) =~= entries(before) + transaction_entries(*t));
}

/// The fields that describe a request, before the route details: the
/// transaction's, if one is given, then the user agent and the content type.
pub fn request_fields(request: &RequestInfo, transaction: Option<RequestTransaction>) -> (r: Vec<Field>)
    requires
        transaction matches Some(t) ==> t.received.wf(),
    ensures
        entries(r@) == request_entries(*request, transaction),
{
    let mut fields: Vec<Field> = Vec::new();
    match transaction {
        Some(t) => push_transaction_fields(&mut fields, &t),
        None => {},
    }
    let ghost head = fields@;
    let agent = join_header_values(&request.user_agents);
    fields.push(Field::new("user-agent", FieldValue::Text(agent)));
    fields.push(Field::new("content-type", FieldValue::MaybeText(clone_text(&request.content_type))));
    assert(entries(fields@) =~= entries(head) + seq![
        ("user-agent"@, ValueModel::Text(joined(views(request.user_agents@), "; "@))),
        ("content-type"@, ValueModel::MaybeText(text_model(request.content_type))),
    ]);
    assert(entries(fields@) =~= request_entries(*request, transaction));
    fields
}

/// The fields that describe a response, before the route details: with a
/// transaction, the nanoseconds elapsed at `now` and the transaction's
/// fields; then the content type, the reason phrase and the status code.
pub fn response_fields(response: &ResponseInfo, transaction: Option<RequestTransaction>, now: Timestamp) -> (r: Vec<Field>)
    requires
        transaction matches Some(t) ==> t.received.wf(),
    ensures
        entries(r@) == response_entries(*response, transaction, now),
{
    let mut fields: Vec<Field> = Vec::new();
    match transaction {
        Some(t) => {
            let elapsed = t.elapsed_ns_at(now);
            fields.push(Field::new("elapsed_ns", FieldValue::MaybeSigned(elapsed)));
            push_transaction_fields(&mut fields, &t);
        },
        None => {},
    }
    let ghost head = fields@;
    fields.push(Field::new("content-type", FieldValue::MaybeText(clone_text(&response.content_type))));
    fields.push(Field::new("reason", FieldValue::MaybeText(clone_text(&response.reason))));
    fields.push(Field::new("code", FieldValue::Unsigned(response.code as u64)));
    assert(entries(fields@) =~= entries(head) + seq![
        ("content-type"@, ValueModel::MaybeText(text_model(response.content_type))),
        ("reason"@, ValueModel::MaybeText(text_model(response.reason))),
        ("code"@, ValueModel::Unsigned(response.code as nat)),
    ]);
    assert(entries(fields@) =~= response_entries(*response, transaction, now));
    fields
}

/// The fields that describe a response, the elapsed time being read from
/// the clock.
pub fn response_fields_now(response: &ResponseInfo, transaction: Option<RequestTransaction>) -> (r: Vec<Field>)
    requires
        transaction matches Some(t) ==> t.received.wf(),
    ensures
        exists|at: Timestamp| at.wf() && entries(r@) == response_entries(*response, transaction, at),
{
    let at = now();
    response_fields(response, transaction, at)
}

/// The fields written inline on a response's line.
pub open spec fn response_line_entries(response: ResponseInfo, body_size: Option<u64>) -> Seq<Entry> {
    seq![
        ("reason"@, ValueModel::MaybeText(text_model(response.reason))),
        ("code"@, ValueModel::Unsigned(response.code as nat)),
        ("size"@, ValueModel::MaybeUnsigned(unsigned_model(body_size))),
    ]
}

/// The fields written inline on a response's line: the reason phrase, the
/// status code and the body's size, where it is known.
pub fn response_line_fields(response: &ResponseInfo, body_size: Option<u64>) -> (r: Vec<Field>)
    ensures
        entries(r@) == response_line_entries(*response, body_size),
{
    let mut fields: Vec<Field> = Vec::new();
    fields.push(Field::new("reason", FieldValue::MaybeText(clone_text(&response.reason))));
    fields.push(Field::new("code", FieldValue::Unsigned(response.code as u64)));
    fields.push(Field::new("size", FieldValue::MaybeUnsigned(body_size)));
    assert(entries(fields@) =~= response_line_entries(*response, body_size));
    fields
}

/// A request that matched no route is described by its method and raw URI,
/// with no route name or rank; one that matched a route is described by the
/// route's rank, name, path template and method.
pub proof fn lemma_route_details(request: RequestInfo)
    ensures
        request.route is None ==> {
            let e = route_detail_entries(request);
            &&& lookup(e, "method"@) == Some(ValueModel::Text(request.method@))
            &&& lookup(e, "uri"@) == Some(ValueModel::Text(request.uri@))
            &&& lookup(e, "route"@) is None
            &&& lookup(e, "rank"@) is None
            &&& lookup(e, "path"@) is None
        },
        request.route matches Some(route) ==> {
            let e = route_detail_entries(request);
            &&& lookup(e, "rank"@) == Some(ValueModel::Signed(route.rank as int))
            &&& lookup(e, "route"@) == Some(ValueModel::MaybeText(text_model(route.name)))
            &&& lookup(e, "path"@) == Some(ValueModel::Text(route.path@))
            &&& lookup(e, "method"@) == Some(ValueModel::Text(route.method@))
            &&& lookup(e, "uri"@) == Some(ValueModel::Text(request.uri@))
        },
{
    reveal_strlit("method");
    reveal_strlit("uri");
    reveal_strlit("route");
    reveal_strlit("rank");
    reveal_strlit("path");
    reveal_with_fuel(lookup, 6);
    let e = route_detail_entries(request);
    assert("uri"@.len() == 3 && "rank"@.len() == 4 && "path"@.len() == 4);
    assert("route"@.len() == 5 && "method"@.len() == 6);
    assert("path"@[0] == 'p' && "rank"@[0] == 'r');
    if request.route is None {
        assert(e.drop_last() =~= seq![e[0]]);
        assert(e.drop_last().drop_last() =~= Seq::<Entry>::empty());
    } else {
        assert(e.drop_last() =~= seq![e[0], e[1], e[2], e[3]]);
        assert(e.drop_last().drop_last() =~= seq![e[0], e[1], e[2]]);
        assert(e.drop_last().drop_last().drop_last() =~= seq![e[0], e[1]]);
        assert(e.drop_last().drop_last().drop_last().drop_last() =~= seq![e[0]]);
        assert(e.drop_last().drop_last().drop_last().drop_last().drop_last() =~= Seq::<Entry>::empty());
    }
}

/// The logger of a request, and that of its response, carry a non-empty
/// method and a non-empty URI, whatever the server's logger and the fields
/// that describe the request or the response.
pub proof fn lemma_lines_name_method_and_uri(request: RequestInfo, server: Seq<Entry>, described: Seq<Entry>)
    requires
        request.wf(),
    ensures
        lookup(child(child(server, described), route_detail_entries(request)), "method"@) matches Some(
            ValueModel::Text(m),
        ) && m.len() > 0,
        lookup(child(child(server, described), route_detail_entries(request)), "uri"@) matches Some(
            ValueModel::Text(u),
        ) && u.len() > 0,
{
    lemma_route_details(request);
    lemma_lookup_child(child(server, described), route_detail_entries(request), "method"@);
    lemma_lookup_child(child(server, described), route_detail_entries(request), "uri"@);
}

} // verus!
