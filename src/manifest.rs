//! The startup manifest: the log lines written once the server accepts
//! connections.
use crate::digits::{decimal, decimal_text};
use crate::field::{clone_text, entries, text_model, unsigned_model, Entry, Field, FieldValue, ValueModel};
use crate::request::RouteInfo;
use vstd::prelude::*;
use vstd::string::StringExecFns;

verus! {

/// The server configuration that the manifest describes.
#[derive(Clone, Debug)]
pub struct ServerConfig {
    pub address: String,
    pub port: u16,
    pub tls: bool,
    pub workers: u64,
    pub keep_alive: u64,
    pub log_level: String,
    pub ident: String,
    pub limits: String,
    pub profile: String,
    pub temp_dir: String,
}

/// A registered error catcher.
#[derive(Clone, Debug)]
pub struct CatcherInfo {
    pub name: Option<String>,
    /// The status code it catches; none for the default catcher.
    pub code: Option<u16>,
    /// The path prefix it serves.
    pub base: String,
}

/// One log record: a message and its inline fields.
#[derive(Clone, Debug)]
pub struct LogLine {
    pub message: String,
    pub fields: Vec<Field>,
}

impl View for LogLine {
    type V = (Seq<char>, Seq<Entry>);

    open spec fn view(&self) -> (Seq<char>, Seq<Entry>) {
        (self.message@, entries(self.fields@))
    }
}

/// `scheme://address:port`, the scheme being `https` where TLS is on.
pub open spec fn base_url_model(tls: bool, address: Seq<char>, port: nat) -> Seq<char> {
    (if tls { "https"@ } else { "http"@ }) + "://"@ + address + ":"@ + decimal(port)
}

/// The URL under which the server is reached.
pub fn base_url(tls: bool, address: &String, port: u16) -> (r: String)
    ensures
        r@ == base_url_model(tls, address@, port as nat),
{
    let mut url = if tls {
        "https".to_owned()
    } else {
        "http".to_owned()
    };
    url.append("://");
    url.append(address.as_str());
    url.append(":");
    let digits = decimal_text(port as u64);
    url.append(digits.as_str());
    url
}

pub open spec fn launch_entries(config: ServerConfig, url: Seq<char>) -> Seq<Entry> {
    seq![
        ("log_level"@, ValueModel::Text(config.log_level@)),
        ("temp_dir"@, ValueModel::Text(config.temp_dir@)),
        ("ident"@, ValueModel::Text(config.ident@)),
        ("tls"@, ValueModel::Flag(config.tls)),
        ("limits"@, ValueModel::Text(config.limits@)),
        ("keep_alive"@, ValueModel::Unsigned(config.keep_alive as nat)),
        ("workers"@, ValueModel::Unsigned(config.workers as nat)),
        ("port"@, ValueModel::Unsigned(config.port as nat)),
        ("host"@, ValueModel::Text(config.address@)),
        ("url"@, ValueModel::Text(url)),
        ("profile"@, ValueModel::Text(config.profile@)),
    ]
}

pub open spec fn route_entries(url: Seq<char>, route: RouteInfo) -> Seq<Entry> {
    seq![
        ("rank"@, ValueModel::Signed(route.rank as int)),
        ("route"@, ValueModel::MaybeText(text_model(route.name))),
        ("content-type"@, ValueModel::MaybeText(text_model(route.format))),
        ("path"@, ValueModel::Text(route.path@)),
        ("url"@, ValueModel::Text(url + route.path@)),
        ("method"@, ValueModel::Text(route.method@)),
    ]
}

pub open spec fn code_model(code: Option<u16>) -> Option<nat> {
    match code {
        Some(c) => Some(c as nat),
        None => None,
    }
}

pub open spec fn catcher_entries(url: Seq<char>, catcher: CatcherInfo) -> Seq<Entry> {
    seq![
        ("route"@, ValueModel::MaybeText(text_model(catcher.name))),
        ("code"@, ValueModel::MaybeUnsigned(code_model(catcher.code))),
        ("path"@, ValueModel::Text(catcher.base@)),
        ("url"@, ValueModel::Text(url + catcher.base@)),
    ]
}

pub open spec fn accepting_entries(config: ServerConfig, url: Seq<char>) -> Seq<Entry> {
    seq![
        ("port"@, ValueModel::Unsigned(config.port as nat)),
        ("host"@, ValueModel::Text(config.address@)),
        ("url"@, ValueModel::Text(url)),
    ]
}

/// The manifest: the configuration line, one line per route, one per
/// catcher, then the line that announces that connections are accepted.
pub open spec fn manifest_model(
    config: ServerConfig,
    routes: Seq<RouteInfo>,
    catchers: Seq<CatcherInfo>,
) -> Seq<(Seq<char>, Seq<Entry>)> {
    let url = base_url_model(config.tls, config.address@, config.port as nat);
    seq![("Rocket Launched"@, launch_entries(config, url))]
        + routes.map_values(|r: RouteInfo| ("Route Registered"@, route_entries(url, r)))
        + catchers.map_values(|c: CatcherInfo| ("Catcher Registered"@, catcher_entries(url, c)))
        + seq![("Accepting Connections"@, accepting_entries(config, url))]
}

pub open spec fn lines_model(lines: Seq<LogLine>) -> Seq<(Seq<char>, Seq<Entry>)> {
    lines.map_values(|l: LogLine| l@)
}

fn launch_line(config: &ServerConfig, url: &String) -> (r: LogLine)
    ensures
        r@ == ("Rocket Launched"@, launch_entries(*config, url@)),
{
    let mut fields: Vec<Field> = Vec::new();
    fields.push(Field::new("log_level", FieldValue::Text(config.log_level.clone())));
    fields.push(Field::new("temp_dir", FieldValue::Text(config.temp_dir.clone())));
    fields.push(Field::new("ident", FieldValue::Text(config.ident.clone())));
    fields.push(Field::new("tls", FieldValue::Flag(config.tls)));
    fields.push(Field::new("limits", FieldValue::Text(config.limits.clone())));
    fields.push(Field::new("keep_alive", FieldValue::Unsigned(config.keep_alive)));
    fields.push(Field::new("workers", FieldValue::Unsigned(config.workers)));
    fields.push(Field::new("port", FieldValue::Unsigned(config.port as u64)));
    fields.push(Field::new("host", FieldValue::Text(config.address.clone())));
    fields.push(Field::new("url", FieldValue::Text(url.clone())));
    fields.push(Field::new("profile", FieldValue::Text(config.profile.clone())));
    let r = LogLine { message: "Rocket Launched".to_owned(), fields };
    assert(entries(r.fields@) =~= launch_entries(*config, url@));
    r
}

fn join_url(url: &String, path: &String) -> (r: String)
    ensures
        r@ == url@ + path@,
{
    let mut s = url.clone();
    s.append(path.as_str());
    s
}

fn route_line(url: &String, route: &RouteInfo) -> (r: LogLine)
    ensures
        r@ == ("Route Registered"@, route_entries(url@, *route)),
{
    let mut fields: Vec<Field> = Vec::new();
    fields.push(Field::new("rank", FieldValue::Signed(route.rank)));
    fields.push(Field::new("route", FieldValue::MaybeText(clone_text(&route.name))));
    fields.push(Field::new("content-type", FieldValue::MaybeText(clone_text(&route.format))));
    fields.push(Field::new("path", FieldValue::Text(route.path.clone())));
    fields.push(Field::new("url", FieldValue::Text(join_url(url, &route.path))));
    fields.push(Field::new("method", FieldValue::Text(route.method.clone())));
    let r = LogLine { message: "Route Registered".to_owned(), fields };
    assert(entries(r.fields@) =~= route_entries(url@, *route));
    r
}

fn catcher_line(url: &String, catcher: &CatcherInfo) -> (r: LogLine)
    ensures
        r@ == ("Catcher Registered"@, catcher_entries(url@, *catcher)),
{
    let code = match catcher.code {
        Some(c) => Some(c as u64),
        None => None,
    };
    assert(unsigned_model(code) == code_model(catcher.code));
    let mut fields: Vec<Field> = Vec::new();
    fields.push(Field::new("route", FieldValue::MaybeText(clone_text(&catcher.name))));
    fields.push(Field::new("code", FieldValue::MaybeUnsigned(code)));
    fields.push(Field::new("path", FieldValue::Text(catcher.base.clone())));
    fields.push(Field::new("url", FieldValue::Text(join_url(url, &catcher.base))));
    let r = LogLine { message: "Catcher Registered".to_owned(), fields };
    assert(entries(r.fields@) =~= catcher_entries(url@, *catcher));
    r
}

fn accepting_line(config: &ServerConfig, url: &String) -> (r: LogLine)
    ensures
        r@ == ("Accepting Connections"@, accepting_entries(*config, url@)),
{
    let mut fields: Vec<Field> = Vec::new();
    fields.push(Field::new("port", FieldValue::Unsigned(config.port as u64)));
    fields.push(Field::new("host", FieldValue::Text(config.address.clone())));
    fields.push(Field::new("url", FieldValue::Text(url.clone())));
    let r = LogLine { message: "Accepting Connections".to_owned(), fields };
    assert(entries(r.fields@) =~= accepting_entries(*config, url@));
    r
}

/// The log lines that describe a server that has started: exactly one per
/// route and one per catcher, between the configuration line and the line
/// that announces that connections are accepted.
pub fn manifest_lines(config: &ServerConfig, routes: &Vec<RouteInfo>, catchers: &Vec<CatcherInfo>) -> (r: Vec<LogLine>)
    ensures
        lines_model(r@) == manifest_model(*config, routes@, catchers@),
        r@.len() == routes@.len() + catchers@.len() + 2,
{
    let url = base_url(config.tls, &config.address, config.port);
    let ghost u = url@;
    let mut lines: Vec<LogLine> = Vec::new();
    lines.push(launch_line(config, &url));
    let mut i: usize = 0;
    while i < routes.len()
        invariant
            i <= routes@.len(),
            u == url@,
            u == base_url_model(config.tls, config.address@, config.port as nat),
            lines_model(lines@) =~= seq![("Rocket Launched"@, launch_entries(*config, u))]
                + routes@.take(i as int).map_values(|r: RouteInfo| ("Route Registered"@, route_entries(u, r))),
        decreases routes@.len() - i,
    {
        let ghost prev = lines@;
        let line = route_line(&url, &routes[i]);
        lines.push(line);
        assert(lines_model(lines@) =~= lines_model(prev).push(line@));
        assert(routes@.take(i + 1) =~= routes@.take(i as int).push(routes@[i as int]));
        assert(routes@.take(i + 1).map_values(|r: RouteInfo| ("Route Registered"@, route_entries(u, r)))
            =~= routes@.take(i as int).map_values(|r: RouteInfo| ("Route Registered"@, route_entries(u, r))).push(line@));
        i = i + 1;
    }
    assert(routes@.take(i as int) =~= routes@);
    let ghost head = lines_model(lines@);
    let mut j: usize = 0;
    while j < catchers.len()
        invariant
            j <= catchers@.len(),
            u == url@,
            lines_model(lines@) =~= head
                + catchers@.take(j as int).map_values(|c: CatcherInfo| ("Catcher Registered"@, catcher_entries(u, c))),
        decreases catchers@.len() - j,
    {
        let ghost prev = lines@;
        let line = catcher_line(&url, &catchers[j]);
        lines.push(line);
        assert(lines_model(lines@) =~= lines_model(prev).push(line@));
        assert(catchers@.take(j + 1) =~= catchers@.take(j as int).push(catchers@[j as int]));
        assert(catchers@.take(j + 1).map_values(|c: CatcherInfo| ("Catcher Registered"@, catcher_entries(u, c)))
            =~= catchers@.take(j as int).map_values(|c: CatcherInfo| ("Catcher Registered"@, catcher_entries(u, c))).push(line@));
        j = j + 1;
    }
    assert(catchers@.take(j as int) =~= catchers@);
    lines.push(accepting_line(config, &url));
    assert(lines_model(lines@) =~= manifest_model(*config, routes@, catchers@));
    lines
}

} // verus!
