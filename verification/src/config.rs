//! Where the client keeps its files, what it writes there, and which server it talks to.
use vstd::prelude::*;
use vstd::string::StringExecFns;

verus! {

/// The address of the server when no other is configured.
pub open spec fn default_server() -> Seq<char> {
    "http://drivogram.aaravarora.in"@
}

/// The directory that holds the client's files, below the user's home directory.
pub open spec fn spec_credentials_dir(home: Seq<char>) -> Seq<char> {
    home + "/.drivogram"@
}

/// The directory `$HOME/.drivogram`, given the value of `HOME`.
pub fn credentials_dir(home: &str) -> (dir: String)
    ensures
        dir@ == spec_credentials_dir(home@),
{
    let mut dir = String::from_str(home);
    dir.append("/.drivogram");
    dir
}

/// The file that holds the account key, in the client's directory.
pub fn credentials_file(dir: &str) -> (path: String)
    ensures
        path@ == dir@ + "/credentials"@,
{
    let mut path = String::from_str(dir);
    path.append("/credentials");
    path
}

/// The file that may name another server, in the client's directory.
pub fn domain_file(dir: &str) -> (path: String)
    ensures
        path@ == dir@ + "/domain.toml"@,
{
    let mut path = String::from_str(dir);
    path.append("/domain.toml");
    path
}

// ---------------------------------------------------------------------------------------
// TOML tables of strings
// ---------------------------------------------------------------------------------------

/// A character that may stand in a bare TOML key.
pub open spec fn is_key_char(c: char) -> bool {
    ('A' <= c && c <= 'Z') || ('a' <= c && c <= 'z') || ('0' <= c && c <= '9') || c == '-' || c
        == '_'
}

/// A bare TOML key: one or more letters, digits, `-` or `_`.
pub open spec fn is_bare_key(k: Seq<char>) -> bool {
    k.len() > 0 && forall|i: int| 0 <= i < k.len() ==> is_key_char(#[trigger] k[i])
}

/// A character that a basic TOML string holds as itself, with no escape.
pub open spec fn is_plain_char(c: char) -> bool {
    ' ' <= c && c != '"' && c != '\\' && c != '\x7f'
}

/// Text that a basic TOML string holds as it is.
pub open spec fn is_plain_text(v: Seq<char>) -> bool {
    forall|i: int| 0 <= i < v.len() ==> is_plain_char(#[trigger] v[i])
}

/// The TOML line that gives key `k` the string `v`.
pub open spec fn assignment_line(k: Seq<char>, v: Seq<char>) -> Seq<char> {
    k + " = \""@ + v + "\""@
}

/// No key occurs twice in the table.
pub open spec fn keys_distinct(t: Seq<(Seq<char>, Seq<char>)>) -> bool {
    forall|i: int, j: int| 0 <= i < j < t.len() ==> (#[trigger] t[i]).0 != (#[trigger] t[j]).0
}

/// What toml's `from_str` makes of `text` as a map from strings to strings, its entries
/// in the order of their keys; `None` where it fails.
pub uninterp spec fn toml_string_table(text: Seq<char>) -> Option<Seq<(Seq<char>, Seq<char>)>>;

#[verifier::external_type_specification]
#[verifier::external_body]
pub struct ExTomlError(toml::de::Error);

/// Calls toml's `from_str` for a map of strings (a `BTreeMap`, whose entries come out in
/// key order). Claimed: the outcome is a function of the text; a map holds no key twice; a
/// single line `k = "v"` with a bare key and an unescaped basic string reads as the one
/// entry (k, v), as the TOML grammar in the crate's tokenizer gives it.
#[verifier::external_body]
fn parse_string_table(text: &str) -> (res: Result<Vec<(String, String)>, toml::de::Error>)
    ensures
        res is Ok <==> toml_string_table(text@) is Some,
        res matches Ok(t) ==> Some(t.deep_view()) == toml_string_table(text@),
        res matches Ok(t) ==> keys_distinct(t.deep_view()),
        res matches Ok(t) ==> forall|k: Seq<char>, v: Seq<char>|
            is_bare_key(k) && is_plain_text(v) && text@ == #[trigger] assignment_line(k, v)
                ==> t.deep_view() == seq![(k, v)],
        res is Err ==> forall|k: Seq<char>, v: Seq<char>|
            is_bare_key(k) && is_plain_text(v) ==> text@ != #[trigger] assignment_line(k, v),
{
    let map: std::collections::BTreeMap<String, String> = toml::from_str(text)?;
    Ok(map.into_iter().collect())
}

/// The value of the first entry with key `k`.
pub open spec fn spec_lookup(t: Seq<(Seq<char>, Seq<char>)>, k: Seq<char>) -> Option<Seq<char>>
    decreases t.len(),
{
    if t.len() == 0 {
        None
    } else if t[0].0 == k {
        Some(t[0].1)
    } else {
        spec_lookup(t.drop_first(), k)
    }
}

/// A lookup gives the value of an entry with that key, and nothing only where no entry has
/// it; in a table without repeated keys it gives the value of the one entry with the key.
pub proof fn lemma_lookup_finds_the_entry(t: Seq<(Seq<char>, Seq<char>)>, k: Seq<char>)
    ensures
        spec_lookup(t, k) matches Some(v) ==> exists|i: int| 0 <= i < t.len() && #[trigger] t[i] == (k, v),
        spec_lookup(t, k) is None ==> forall|i: int| 0 <= i < t.len() ==> (#[trigger] t[i]).0 != k,
        keys_distinct(t) ==> forall|i: int|
            0 <= i < t.len() && (#[trigger] t[i]).0 == k ==> spec_lookup(t, k) == Some(t[i].1),
    decreases t.len(),
{
    if t.len() > 0 {
        let r = t.drop_first();
        lemma_lookup_finds_the_entry(r, k);
        if t[0].0 != k {
            if let Some(v) = spec_lookup(t, k) {
                let j = choose|j: int| 0 <= j < r.len() && #[trigger] r[j] == (k, v);
                assert(t[j + 1] == (k, v));
            }
            assert forall|i: int| 0 < i < t.len() implies t[i] == r[i - 1] by {}
        } else {
            assert(t[0] == (k, t[0].1));
        }
        if keys_distinct(t) {
            assert(keys_distinct(r)) by {
                assert forall|i: int, j: int| 0 <= i < j < r.len() implies (#[trigger] r[i]).0
                    != (#[trigger] r[j]).0 by {
                    assert(r[i] == t[i + 1] && r[j] == t[j + 1]);
                }
            }
            assert forall|i: int| 0 <= i < t.len() && (#[trigger] t[i]).0 == k implies spec_lookup(t, k)
                == Some(t[i].1) by {
                if i > 0 {
                    assert(t[0].0 != t[i].0);
                    assert(r[i - 1] == t[i]);
                }
            }
        }
    }
}

/// Looks up `key` in a table of strings.
pub fn lookup(table: &Vec<(String, String)>, key: &str) -> (value: Option<String>)
    ensures
        value.deep_view() == spec_lookup(table.deep_view(), key@),
{
    let ghost t = table.deep_view();
    let n = table.len();
    let key_string = String::from_str(key);
    let mut i: usize = 0;
    assert(t.skip(0) =~= t);
    while i < n
        invariant
            n == table@.len(),
            t == table.deep_view(),
            t.len() == n,
            key_string@ == key@,
            i <= n,
            spec_lookup(t, key@) == spec_lookup(t.skip(i as int), key@),
        decreases n - i,
    {
        assert(t[i as int] == table@[i as int].deep_view());
        if table[i].0 == key_string {
            return Some(table[i].1.clone());
        }
        assert(t.skip(i as int).drop_first() =~= t.skip(i + 1));
        i = i + 1;
    }
    None
}

/// The table that the credentials file gives: its text, or `"None"` where it could not be
/// read, read as TOML; the empty table where that fails.
pub open spec fn spec_read_toml(contents: Option<Seq<char>>) -> Seq<(Seq<char>, Seq<char>)> {
    let text = match contents {
        Some(c) => c,
        None => "None"@,
    };
    match toml_string_table(text) {
        Some(t) => t,
        None => seq![],
    }
}

/// An unreadable credentials file reads as the text `None`; readable text gives toml's table
/// where toml reads it, and the empty table where it does not.
pub proof fn lemma_read_toml_falls_back(contents: Option<Seq<char>>)
    ensures
        spec_read_toml(None) == spec_read_toml(Some("None"@)),
        contents matches Some(c) ==> (toml_string_table(c) matches Some(t) ==> spec_read_toml(contents) == t),
        contents matches Some(c) ==> (toml_string_table(c) is None ==> spec_read_toml(contents) =~= Seq::<
            (Seq<char>, Seq<char>),
        >::empty()),
{
}

/// Reads the credentials file's contents (`None` where the file could not be read).
pub fn read_toml(contents: Option<&str>) -> (table: Vec<(String, String)>)
    ensures
        table.deep_view() == spec_read_toml(
            match contents {
                Some(c) => Some(c@),
                None => None,
            },
        ),
        keys_distinct(table.deep_view()),
        forall|k: Seq<char>, v: Seq<char>|
            is_bare_key(k) && is_plain_text(v) && contents is Some && contents->0@
                == #[trigger] assignment_line(k, v) ==> table.deep_view() == seq![(k, v)],
{
    let text = match contents {
        Some(c) => c,
        None => "None",
    };
    match parse_string_table(text) {
        Ok(t) => t,
        Err(_) => Vec::new(),
    }
}

/// The key under which the credentials file keeps the account key.
pub open spec fn api_key_name() -> Seq<char> {
    "X-API-KEY"@
}

/// The key under which the domain file names another server.
pub open spec fn domain_key_name() -> Seq<char> {
    "DOMAIN-NAME"@
}

/// What the client writes to the credentials file for the account key `key`:
/// `X-API-KEY = "<key>"`.
pub fn credentials_content(key: &str) -> (content: String)
    ensures
        content@ == assignment_line(api_key_name(), key@),
        content@ == "X-API-KEY"@ + " = \""@ + key@ + "\""@,
{
    let mut content = String::from_str("X-API-KEY");
    content.append(" = \"");
    content.append(key);
    content.append("\"");
    content
}

/// The account key that the credentials file holds, given its contents (`None` where the
/// file could not be read). A key that the client wrote with `credentials_content`, and that
/// a basic TOML string holds unescaped, is read back as it was written.
pub fn saved_api_key(contents: Option<&str>) -> (key: Option<String>)
    ensures
        key.deep_view() == spec_lookup(
            spec_read_toml(
                match contents {
                    Some(c) => Some(c@),
                    None => None,
                },
            ),
            api_key_name(),
        ),
        forall|v: Seq<char>|
            is_plain_text(v) && contents is Some && contents->0@ == #[trigger] assignment_line(
                api_key_name(),
                v,
            ) ==> key.deep_view() == Some(v),
{
    let table = read_toml(contents);
    let key = lookup(&table, "X-API-KEY");
    proof {
        reveal_strlit("X-API-KEY");
        assert(is_bare_key(api_key_name()));
        assert forall|v: Seq<char>|
            is_plain_text(v) && contents is Some && contents->0@ == #[trigger] assignment_line(
                api_key_name(),
                v,
            ) implies key.deep_view() == Some(v) by {
            let t = seq![(api_key_name(), v)];
            assert(t.drop_first() =~= Seq::<(Seq<char>, Seq<char>)>::empty());
        }
    }
    key
}

/// The table that the domain file gives, read as TOML; `None` where that fails. A single
/// line `k = "v"`, with a bare key and a value that needs no escape, gives the one entry.
pub fn read_domain_config(text: &str) -> (table: Option<Vec<(String, String)>>)
    ensures
        table.deep_view() == toml_string_table(text@),
        table matches Some(t) ==> keys_distinct(t.deep_view()),
        forall|k: Seq<char>, v: Seq<char>|
            is_bare_key(k) && is_plain_text(v) && text@ == #[trigger] assignment_line(k, v) ==> (
            table is Some && table->0.deep_view() == seq![(k, v)]),
{
    match parse_string_table(text) {
        Ok(t) => Some(t),
        Err(_) => None,
    }
}

/// The server that the domain file names under `DOMAIN-NAME`, if it names one.
pub fn configured_server(table: &Vec<(String, String)>) -> (server: Option<String>)
    ensures
        server.deep_view() == spec_lookup(table.deep_view(), domain_key_name()),
{
    lookup(table, "DOMAIN-NAME")
}

/// The server that the domain table names, or the default server where there is no table.
pub open spec fn spec_server(domain_table: Option<Seq<(Seq<char>, Seq<char>)>>) -> Seq<char> {
    match domain_table {
        Some(t) => spec_lookup(t, domain_key_name())->0,
        None => default_server(),
    }
}

/// The address of the API route `route` on the server in use.
pub open spec fn spec_api_url(route: Seq<char>, domain_table: Option<Seq<(Seq<char>, Seq<char>)>>) -> Seq<char> {
    spec_server(domain_table) + "/api/"@ + route
}

/// Every route is asked of the same server: the one the domain table names under
/// `DOMAIN-NAME` where there is a table, else the default server; the address is that server,
/// `/api/`, and the route.
pub proof fn lemma_route_does_not_choose_the_server(
    route: Seq<char>,
    other: Seq<char>,
    domain_table: Option<Seq<(Seq<char>, Seq<char>)>>,
)
    ensures
        domain_table matches Some(t) ==> spec_api_url(route, domain_table) == spec_lookup(
            t,
            domain_key_name(),
        )->0 + "/api/"@ + route,
        domain_table is None ==> spec_api_url(route, domain_table) == "http://drivogram.aaravarora.in"@
            + "/api/"@ + route,
        spec_api_url(route, domain_table).subrange(0, spec_server(domain_table).len() as int)
            == spec_api_url(other, domain_table).subrange(0, spec_server(domain_table).len() as int),
{
    let srv = spec_server(domain_table);
    assert(spec_api_url(route, domain_table).subrange(0, srv.len() as int) =~= srv);
    assert(spec_api_url(other, domain_table).subrange(0, srv.len() as int) =~= srv);
}

/// The address of `route` on the server: the default server where no domain file exists,
/// else the one the file names under `DOMAIN-NAME`.
pub fn get_domain(route: &str, domain_table: Option<&Vec<(String, String)>>) -> (url: String)
    requires
        domain_table matches Some(t) ==> spec_lookup(t.deep_view(), domain_key_name()) is Some,
    ensures
        url@ == spec_api_url(
            route@,
            match domain_table {
                Some(t) => Some(t.deep_view()),
                None => None,
            },
        ),
        match domain_table {
            Some(t) => url@ == spec_lookup(t.deep_view(), domain_key_name())->0 + "/api/"@ + route@,
            None => url@ == "http://drivogram.aaravarora.in"@ + "/api/"@ + route@,
        },
{
    let mut url = match domain_table {
        Some(t) => match configured_server(t) {
            Some(server) => server,
            None => String::new(),
        },
        None => String::from_str("http://drivogram.aaravarora.in"),
    };
    url.append("/api/");
    url.append(route);
    url
}

} // verus!
