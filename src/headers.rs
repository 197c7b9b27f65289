use vstd::prelude::*;

verus! {

/// One header of a record: its name and its value.
pub struct Header {
    pub name: String,
    pub value: String,
}

impl View for Header {
    type V = (Seq<char>, Seq<char>);

    open spec fn view(&self) -> (Seq<char>, Seq<char>) {
        (self.name@, self.value@)
    }
}

impl Header {
    pub fn new(name: String, value: String) -> (r: Header)
        ensures
            r.name@ == name@,
            r.value@ == value@,
    {
        Header { name, value }
    }
}

/// The value of the first header in `hs` named `key`, or `None` when no header
/// has that name.
pub open spec fn header_value(hs: Seq<Header>, key: Seq<char>) -> Option<Seq<char>>
    decreases hs.len(),
{
    if hs.len() == 0 {
        None
    } else if hs[0].name@ == key {
        Some(hs[0].value@)
    } else {
        header_value(hs.drop_first(), key)
    }
}

/// A header value that a record lacks.
pub enum ResolveError {
    /// No header of the record has this name.
    MissingField(String),
}

/// What resolving the headers yields: the callback URL and the correlation ID,
/// or the name of the first of the two keys that is missing.
pub open spec fn resolution(hs: Seq<Header>, callback_key: Seq<char>, id_key: Seq<char>) -> Result<
    (Seq<char>, Seq<char>),
    Seq<char>,
> {
    match header_value(hs, callback_key) {
        None => Err(callback_key),
        Some(url) => match header_value(hs, id_key) {
            None => Err(id_key),
            Some(cid) => Ok((url, cid)),
        },
    }
}

/// The view of a result of `resolve`.
pub open spec fn resolved_view(r: Result<(String, String), ResolveError>) -> Result<
    (Seq<char>, Seq<char>),
    Seq<char>,
> {
    match r {
        Ok((url, cid)) => Ok((url@, cid@)),
        Err(ResolveError::MissingField(k)) => Err(k@),
    }
}

/// Looks up the value of the first header named `key`.
pub fn lookup(headers: &Vec<Header>, key: &String) -> (r: Option<String>)
    ensures
        match r {
            Some(v) => header_value(headers@, key@) == Some(v@),
            None => header_value(headers@, key@) is None,
        },
{
    let n = headers.len();
    let mut i: usize = 0;
    assert(headers@.subrange(0, n as int) =~= headers@);
    while i < n
        invariant
            n == headers@.len(),
            i <= n,
            header_value(headers@, key@) == header_value(headers@.subrange(i as int, n as int), key@),
        decreases n - i,
    {
        let h = &headers[i];
        assert(headers@.subrange(i as int, n as int).drop_first() =~= headers@.subrange(
            i as int + 1,
            n as int,
        ));
        if h.name == *key {
            return Some(h.value.clone());
        }
        i = i + 1;
    }
    None
}

/// Extracts the callback URL under `callback_key` and the correlation ID under
/// `id_key`. The ID is looked up only once the URL has been found.
pub fn resolve(headers: &Vec<Header>, callback_key: &String, id_key: &String) -> (r: Result<
    (String, String),
    ResolveError,
>)
    ensures
        resolved_view(r) == resolution(headers@, callback_key@, id_key@),
{
    let url = match lookup(headers, callback_key) {
        Some(u) => u,
        None => {
            return Err(ResolveError::MissingField(callback_key.clone()));
        },
    };
    let cid = match lookup(headers, id_key) {
        Some(c) => c,
        None => {
            return Err(ResolveError::MissingField(id_key.clone()));
        },
    };
    Ok((url, cid))
}

} // verus!
