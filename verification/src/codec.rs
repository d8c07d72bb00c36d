//! The request/response envelope codec.
//!
//! One activation decodes exactly one request envelope from its input
//! document and encodes exactly one response envelope into its output
//! document. The shape of both envelopes is pinned here, over the JSON
//! tree of [`crate::json`]; the text layer lives in [`crate::wire`].

use vstd::prelude::*;

use crate::json::{entries_of, obj_lookup, str_eq, Json};
use vstd::assert_by_contradiction;

verus! {

/// The resource representation carried inside a request envelope.
/// `location` is empty when the document omitted it; `properties` is an
/// opaque caller-defined payload, carried through unread.
pub struct Resource {
    pub id: String,
    pub name: String,
    pub location: String,
    pub resource_type: String,
    pub properties: Json,
}

/// One decoded request envelope. `headers` preserves several values per
/// key and the order in which the document listed the keys.
pub struct Request {
    pub resource_id: String,
    pub request: Resource,
    pub headers: Vec<(String, Vec<String>)>,
}

/// The error half of a status payload.
pub struct ErrorDetail {
    pub code: String,
    pub message: String,
}

/// What a response envelope carries: a status object, or a bare resource
/// representation echoed back.
pub enum ResponsePayload {
    Status { succeeded: bool, error: Option<ErrorDetail> },
    Resource(Resource),
}

/// One response envelope, ready for encoding.
pub struct ResponseEnvelope {
    pub http_status_code: i32,
    pub payload: Option<ResponsePayload>,
    pub headers: Vec<(String, Vec<String>)>,
}

/// Why a request envelope could not be decoded.
#[derive(Debug)]
pub enum DecodeError {
    /// The input was not one well-formed JSON document.
    Malformed,
    /// The document was well-formed but structurally incompatible with
    /// the request envelope: a required field missing or of the wrong type.
    Incompatible,
}

impl DecodeError {
    pub open spec fn spec_message(self) -> Seq<char> {
        match self {
            DecodeError::Malformed => "input is not a well-formed JSON document"@,
            DecodeError::Incompatible => "input does not have the request envelope shape"@,
        }
    }

    /// A human-readable description of the failure.
    pub fn message(&self) -> (r: String)
        ensures
            r@ == self.spec_message(),
    {
        match self {
            DecodeError::Malformed => String::from_str("input is not a well-formed JSON document"),
            DecodeError::Incompatible => String::from_str(
                "input does not have the request envelope shape",
            ),
        }
    }
}

/// The fields a resource object must decode to.
pub struct ResourceShape {
    pub id: Seq<char>,
    pub name: Seq<char>,
    pub location: Seq<char>,
    pub resource_type: Seq<char>,
    pub properties: Json,
}

/// The fields a request envelope must decode to.
pub struct RequestShape {
    pub resource_id: Seq<char>,
    pub request: ResourceShape,
    pub headers: Seq<(Seq<char>, Seq<Seq<char>>)>,
}

/// The string list a header value decodes to, when every element is a
/// string.
pub open spec fn str_list_of(j: Json) -> Option<Seq<Seq<char>>> {
    match j {
        Json::Arr(items) => if forall|k: int| 0 <= k < items@.len() ==> (#[trigger] items@[k]) is Str {
            Some(Seq::new(items@.len(), |k: int| crate::json::str_of(items@[k])))
        } else {
            None
        },
        _ => None,
    }
}

/// The header map a headers object decodes to, when every value is a
/// list of strings. Entries keep document order.
pub open spec fn headers_of(j: Json) -> Option<Seq<(Seq<char>, Seq<Seq<char>>)>> {
    match j {
        Json::Obj(entries) => if forall|k: int|
            0 <= k < entries@.len() ==> (#[trigger] str_list_of(entries@[k].1)) is Some {
            Some(
                Seq::new(
                    entries@.len(),
                    |k: int| (entries@[k].0@, str_list_of(entries@[k].1).unwrap()),
                ),
            )
        } else {
            None
        },
        _ => None,
    }
}

/// The shape a resource object decodes to: `id`, `name` and `type` are
/// required strings, `location` an optional string that defaults to the
/// empty one, `properties` a required but otherwise arbitrary value.
/// Unknown keys are ignored; on a repeated key the later entry wins.
pub open spec fn resource_of(j: Json) -> Option<ResourceShape> {
    if j is Obj {
        let entries = entries_of(j);
        let id = obj_lookup(entries, "id"@);
        let name = obj_lookup(entries, "name"@);
        let loc = obj_lookup(entries, "location"@);
        let ty = obj_lookup(entries, "type"@);
        let props = obj_lookup(entries, "properties"@);
        if (id matches Some(i) && i is Str) && (name matches Some(n) && n is Str) && (ty
            matches Some(t) && t is Str) && (loc is None || (loc matches Some(l) && l is Str))
            && props is Some {
            Some(
                ResourceShape {
                    id: crate::json::str_of(id.unwrap()),
                    name: crate::json::str_of(name.unwrap()),
                    location: if loc is Some {
                        crate::json::str_of(loc.unwrap())
                    } else {
                        Seq::empty()
                    },
                    resource_type: crate::json::str_of(ty.unwrap()),
                    properties: props.unwrap(),
                },
            )
        } else {
            None
        }
    } else {
        None
    }
}

/// The shape a request envelope decodes to: `resourceId` a required
/// string, `request` a resource object, `headers` an object of string
/// lists. Unknown keys are ignored; on a repeated key the later entry
/// wins.
pub open spec fn request_of(j: Json) -> Option<RequestShape> {
    if j is Obj {
        let entries = entries_of(j);
        let rid = obj_lookup(entries, "resourceId"@);
        let req = obj_lookup(entries, "request"@);
        let hdr = obj_lookup(entries, "headers"@);
        if (rid matches Some(i) && i is Str) && (req matches Some(r) && resource_of(r) is Some) && (
        hdr matches Some(h) && headers_of(h) is Some) {
            Some(
                RequestShape {
                    resource_id: crate::json::str_of(rid.unwrap()),
                    request: resource_of(req.unwrap()).unwrap(),
                    headers: headers_of(hdr.unwrap()).unwrap(),
                },
            )
        } else {
            None
        }
    } else {
        None
    }
}

/// How an executable resource relates to a decoded shape.
pub open spec fn resource_matches(res: Resource, sh: ResourceShape) -> bool {
    &&& res.id@ == sh.id
    &&& res.name@ == sh.name
    &&& res.location@ == sh.location
    &&& res.resource_type@ == sh.resource_type
    &&& res.properties == sh.properties
}

/// How an executable request envelope relates to a decoded shape.
pub open spec fn request_matches(env: Request, sh: RequestShape) -> bool {
    &&& env.resource_id@ == sh.resource_id
    &&& resource_matches(env.request, sh.request)
    &&& env.headers.deep_view() == sh.headers
}

/// Decodes one header value: every element must be a string.
#[verifier::loop_isolation(false)]
fn str_list_from_json(j: &Json) -> (r: Result<Vec<String>, DecodeError>)
    ensures
        match str_list_of(*j) {
            Some(vs) => r matches Ok(v) && v.deep_view() == vs,
            None => r matches Err(DecodeError::Incompatible),
        },
{
    match j {
        Json::Arr(items) => {
            assert(*j == Json::Arr(*items));
            let mut out: Vec<String> = Vec::new();
            let n = items.len();
            let mut i: usize = 0;
            while i < n
                invariant
                    n == items@.len(),
                    i <= n,
                    out@.len() == i,
                    forall|k: int| 0 <= k < i ==> (#[trigger] items@[k]) is Str,
                    forall|k: int|
                        0 <= k < i ==> #[trigger] out@[k]@ == crate::json::str_of(items@[k]),
                decreases n - i,
            {
                match &items[i] {
                    Json::Str(s) => {
                        out.push(s.clone());
                    },
                    _ => {
                        assert(!((items@[i as int]) is Str));
                        proof {
                            assert_by_contradiction!(str_list_of(*j) is None, {
                                assert(str_list_of(Json::Arr(*items)) is Some);
                                assert(items@[i as int] is Str);
                            });
                        }
                        return Err(DecodeError::Incompatible);
                    },
                }
                i = i + 1;
            }
            assert(str_list_of(*j) matches Some(vs) && out.deep_view() =~= vs);
            Ok(out)
        },
        _ => Err(DecodeError::Incompatible),
    }
}

/// Decodes the headers object of a request envelope.
#[verifier::loop_isolation(false)]
fn headers_from_json(j: &Json) -> (r: Result<Vec<(String, Vec<String>)>, DecodeError>)
    ensures
        match headers_of(*j) {
            Some(hs) => r matches Ok(h) && h.deep_view() == hs,
            None => r matches Err(DecodeError::Incompatible),
        },
{
    match j {
        Json::Obj(entries) => {
            assert(*j == Json::Obj(*entries));
            let mut out: Vec<(String, Vec<String>)> = Vec::new();
            let n = entries.len();
            let mut i: usize = 0;
            while i < n
                invariant
                    n == entries@.len(),
                    i <= n,
                    out@.len() == i,
                    forall|k: int| 0 <= k < i ==> (#[trigger] str_list_of(entries@[k].1)) is Some,
                    forall|k: int|
                        0 <= k < i ==> #[trigger] out@[k].0@ == entries@[k].0@ && out@[k].1.deep_view()
                            == str_list_of(entries@[k].1).unwrap(),
                decreases n - i,
            {
                let (k, v) = &entries[i];
                match str_list_from_json(v) {
                    Ok(vals) => {
                        out.push((k.clone(), vals));
                    },
                    Err(e) => {
                        assert(str_list_of(entries@[i as int].1) is None);
                        proof {
                            assert_by_contradiction!(headers_of(*j) is None, {
                                assert(headers_of(Json::Obj(*entries)) is Some);
                                assert(str_list_of(entries@[i as int].1) is Some);
                            });
                        }
                        return Err(e);
                    },
                }
                i = i + 1;
            }
            assert(headers_of(*j) matches Some(hs) && out.deep_view() =~= hs);
            Ok(out)
        },
        _ => Err(DecodeError::Incompatible),
    }
}

/// Decodes a resource object, the later of two entries under one key
/// winning, unknown keys ignored.
#[verifier::loop_isolation(false)]
pub fn resource_from_json(j: Json) -> (r: Result<Resource, DecodeError>)
    ensures
        match resource_of(j) {
            Some(sh) => r matches Ok(res) && resource_matches(res, sh),
            None => r matches Err(DecodeError::Incompatible),
        },
{
    match j {
        Json::Obj(mut entries) => {
            let ghost entries0 = entries@;
            assert(entries_of(j) == entries0);
            proof {
                reveal_strlit("id");
                reveal_strlit("name");
                reveal_strlit("location");
                reveal_strlit("type");
                reveal_strlit("properties");
            }
            proof {
                assert(entries0.take(entries0.len() as int) =~= entries0);
            }
            let mut id: Option<Json> = None;
            let mut name: Option<Json> = None;
            let mut loc: Option<Json> = None;
            let mut ty: Option<Json> = None;
            let mut props: Option<Json> = None;
            while entries.len() > 0
                invariant
                    entries@.len() <= entries0.len(),
                    entries@ == entries0.take(entries@.len() as int),
                    id == obj_lookup(entries0.skip(entries@.len() as int), "id"@),
                    name == obj_lookup(entries0.skip(entries@.len() as int), "name"@),
                    loc == obj_lookup(entries0.skip(entries@.len() as int), "location"@),
                    ty == obj_lookup(entries0.skip(entries@.len() as int), "type"@),
                    props == obj_lookup(entries0.skip(entries@.len() as int), "properties"@),
                decreases entries@.len(),
            {
                let ghost old_len = entries@.len() as int;
                let ghost popped = entries0[old_len - 1];
                let (k, v) = match entries.pop() {
                    Some(e) => e,
                    None => {
                        proof {
                            assert(false);
                        }
                        return Err(DecodeError::Incompatible);
                    },
                };
                assert(entries0.take(old_len)[old_len - 1] == entries0[old_len - 1]);
                assert((k, v) == popped);
                proof {
                    reveal_strlit("id");
                    reveal_strlit("name");
                    reveal_strlit("location");
                    reveal_strlit("type");
                    reveal_strlit("properties");
                    assert("name"@[0] == 'n' && "type"@[0] == 't');
                    assert("id"@.len() == 2 && "name"@.len() == 4 && "location"@.len() == 8
                        && "type"@.len() == 4 && "properties"@.len() == 10);
                    assert("id"@ != "name"@ && "id"@ != "location"@ && "id"@ != "type"@ && "id"@
                        != "properties"@);
                    assert("name"@ != "location"@ && "name"@ != "type"@ && "name"@
                        != "properties"@);
                    assert("location"@ != "type"@ && "location"@ != "properties"@);
                    assert("type"@ != "properties"@);
                    assert(entries0.skip(old_len - 1) =~= seq![popped] + entries0.skip(old_len));
                    crate::json::lemma_obj_lookup_push_front(popped, entries0.skip(old_len), "id"@);
                    crate::json::lemma_obj_lookup_push_front(
                        popped,
                        entries0.skip(old_len),
                        "name"@,
                    );
                    crate::json::lemma_obj_lookup_push_front(
                        popped,
                        entries0.skip(old_len),
                        "location"@,
                    );
                    crate::json::lemma_obj_lookup_push_front(
                        popped,
                        entries0.skip(old_len),
                        "type"@,
                    );
                    crate::json::lemma_obj_lookup_push_front(
                        popped,
                        entries0.skip(old_len),
                        "properties"@,
                    );
                }
                if id.is_none() && str_eq(k.as_str(), "id") {
                    id = Some(v);
                } else if name.is_none() && str_eq(k.as_str(), "name") {
                    name = Some(v);
                } else if loc.is_none() && str_eq(k.as_str(), "location") {
                    loc = Some(v);
                } else if ty.is_none() && str_eq(k.as_str(), "type") {
                    ty = Some(v);
                } else if props.is_none() && str_eq(k.as_str(), "properties") {
                    props = Some(v);
                }
            }
            proof {
                assert(entries0.skip(0) =~= entries0);
            }
            let id_s = match id {
                Some(Json::Str(s)) => s,
                _ => {
                    return Err(DecodeError::Incompatible);
                },
            };
            let name_s = match name {
                Some(Json::Str(s)) => s,
                _ => {
                    return Err(DecodeError::Incompatible);
                },
            };
            let loc_s = match loc {
                None => String::new(),
                Some(Json::Str(s)) => s,
                Some(_) => {
                    return Err(DecodeError::Incompatible);
                },
            };
            let ty_s = match ty {
                Some(Json::Str(s)) => s,
                _ => {
                    return Err(DecodeError::Incompatible);
                },
            };
            let props_j = match props {
                Some(p) => p,
                None => {
                    return Err(DecodeError::Incompatible);
                },
            };
            Ok(
                Resource {
                    id: id_s,
                    name: name_s,
                    location: loc_s,
                    resource_type: ty_s,
                    properties: props_j,
                },
            )
        },
        _ => Err(DecodeError::Incompatible),
    }
}

/// Decodes a request envelope object, the later of two entries under one
/// key winning, unknown keys ignored.
#[verifier::loop_isolation(false)]
pub fn request_from_json(j: Json) -> (r: Result<Request, DecodeError>)
    ensures
        match request_of(j) {
            Some(sh) => r matches Ok(env) && request_matches(env, sh),
            None => r matches Err(DecodeError::Incompatible),
        },
{
    match j {
        Json::Obj(mut entries) => {
            let ghost entries0 = entries@;
            assert(entries_of(j) == entries0);
            proof {
                reveal_strlit("resourceId");
                reveal_strlit("request");
                reveal_strlit("headers");
            }
            proof {
                assert(entries0.take(entries0.len() as int) =~= entries0);
            }
            let mut rid: Option<Json> = None;
            let mut req: Option<Json> = None;
            let mut hdr: Option<Json> = None;
            while entries.len() > 0
                invariant
                    entries@.len() <= entries0.len(),
                    entries@ == entries0.take(entries@.len() as int),
                    rid == obj_lookup(entries0.skip(entries@.len() as int), "resourceId"@),
                    req == obj_lookup(entries0.skip(entries@.len() as int), "request"@),
                    hdr == obj_lookup(entries0.skip(entries@.len() as int), "headers"@),
                decreases entries@.len(),
            {
                let ghost old_len = entries@.len() as int;
                let ghost popped = entries0[old_len - 1];
                let (k, v) = match entries.pop() {
                    Some(e) => e,
                    None => {
                        proof {
                            assert(false);
                        }
                        return Err(DecodeError::Incompatible);
                    },
                };
                assert(entries0.take(old_len)[old_len - 1] == entries0[old_len - 1]);
                assert((k, v) == popped);
                proof {
                    reveal_strlit("resourceId");
                    reveal_strlit("request");
                    reveal_strlit("headers");
                    assert("request"@[0] == 'r' && "headers"@[0] == 'h');
                    assert("request"@ != "headers"@);
                    assert("resourceId"@.len() == 10 && "request"@.len() == 7);
                    assert("resourceId"@ != "request"@);
                    assert("resourceId"@ != "headers"@);
                    assert(entries0.skip(old_len - 1) =~= seq![popped] + entries0.skip(old_len));
                    crate::json::lemma_obj_lookup_push_front(
                        popped,
                        entries0.skip(old_len),
                        "resourceId"@,
                    );
                    crate::json::lemma_obj_lookup_push_front(
                        popped,
                        entries0.skip(old_len),
                        "request"@,
                    );
                    crate::json::lemma_obj_lookup_push_front(
                        popped,
                        entries0.skip(old_len),
                        "headers"@,
                    );
                }
                if rid.is_none() && str_eq(k.as_str(), "resourceId") {
                    rid = Some(v);
                } else if req.is_none() && str_eq(k.as_str(), "request") {
                    req = Some(v);
                } else if hdr.is_none() && str_eq(k.as_str(), "headers") {
                    hdr = Some(v);
                }
            }
            proof {
                assert(entries0.skip(0) =~= entries0);
            }
            let rid_s = match rid {
                Some(Json::Str(s)) => s,
                _ => {
                    return Err(DecodeError::Incompatible);
                },
            };
            let req_j = match req {
                Some(r) => r,
                None => {
                    return Err(DecodeError::Incompatible);
                },
            };
            let hdr_j = match hdr {
                Some(h) => h,
                None => {
                    return Err(DecodeError::Incompatible);
                },
            };
            let resource = match resource_from_json(req_j) {
                Ok(res) => res,
                Err(_) => {
                    return Err(DecodeError::Incompatible);
                },
            };
            let headers = match headers_from_json(&hdr_j) {
                Ok(h) => h,
                Err(_) => {
                    return Err(DecodeError::Incompatible);
                },
            };
            Ok(Request { resource_id: rid_s, request: resource, headers })
        },
        _ => Err(DecodeError::Incompatible),
    }
}

/// What decoding one input text must come to, over the named parse
/// result: malformed text is the malformed error, a document without
/// the envelope shape the incompatibility error, and a shaped document
/// an envelope matching its decoded shape.
pub open spec fn decode_request_post(s: Seq<char>, r: Result<Request, DecodeError>) -> bool {
    match crate::wire::doc_of(s) {
        None => r matches Err(DecodeError::Malformed),
        Some(j) => match request_of(j) {
            Some(sh) => r matches Ok(env) && request_matches(env, sh),
            None => r matches Err(DecodeError::Incompatible),
        },
    }
}

/// Decodes the whole input text: one well-formed JSON document with the
/// request envelope shape, or the reason there is none.
pub fn decode_request(input: &str) -> (r: Result<Request, DecodeError>)
    ensures
        decode_request_post(input@, r),
{
    match crate::wire::parse_document(input) {
        None => Err(DecodeError::Malformed),
        Some(j) => request_from_json(j),
    }
}

/// How an encoded string list relates to the strings it came from.
pub open spec fn str_list_json_post(vs: Seq<String>, j: Json) -> bool {
    &&& j is Arr
    &&& crate::json::arr_of(j).len() == vs.len()
    &&& forall|k: int|
        0 <= k < vs.len() ==> (#[trigger] crate::json::arr_of(j)[k]) is Str && crate::json::str_of(
            crate::json::arr_of(j)[k],
        ) == vs[k]@
}

/// How an encoded headers object relates to the header map it came from.
pub open spec fn headers_json_post(h: Seq<(String, Vec<String>)>, j: Json) -> bool {
    &&& j is Obj
    &&& entries_of(j).len() == h.len()
    &&& forall|k: int|
        0 <= k < h.len() ==> (#[trigger] entries_of(j)[k]).0@ == h[k].0@ && str_list_json_post(
            h[k].1@,
            entries_of(j)[k].1,
        )
}

/// How an encoded resource object relates to the resource it came from:
/// five entries, in the order the wire format lists them.
pub open spec fn resource_json_post(res: Resource, j: Json) -> bool {
    &&& j is Obj
    &&& entries_of(j).len() == 5
    &&& entries_of(j)[0].0@ == "id"@ && entries_of(j)[0].1 == Json::Str(res.id)
    &&& entries_of(j)[1].0@ == "name"@ && entries_of(j)[1].1 == Json::Str(res.name)
    &&& entries_of(j)[2].0@ == "location"@ && entries_of(j)[2].1 == Json::Str(res.location)
    &&& entries_of(j)[3].0@ == "type"@ && entries_of(j)[3].1 == Json::Str(res.resource_type)
    &&& entries_of(j)[4].0@ == "properties"@ && entries_of(j)[4].1 == res.properties
}

/// How an encoded request envelope relates to the envelope it came from.
pub open spec fn request_json_post(env: Request, j: Json) -> bool {
    &&& j is Obj
    &&& entries_of(j).len() == 3
    &&& entries_of(j)[0].0@ == "resourceId"@ && entries_of(j)[0].1 == Json::Str(env.resource_id)
    &&& entries_of(j)[1].0@ == "request"@ && resource_json_post(env.request, entries_of(j)[1].1)
    &&& entries_of(j)[2].0@ == "headers"@ && headers_json_post(env.headers@, entries_of(j)[2].1)
}

/// Encodes one header value.
#[verifier::loop_isolation(false)]
fn str_list_to_json(vs: &Vec<String>) -> (j: Json)
    ensures
        str_list_json_post(vs@, j),
{
    let mut items: Vec<Json> = Vec::new();
    let n = vs.len();
    let mut i: usize = 0;
    while i < n
        invariant
            i <= n,
            items@.len() == i,
            forall|k: int|
                0 <= k < i ==> (#[trigger] items@[k]) is Str && crate::json::str_of(items@[k])
                    == vs@[k]@,
        decreases n - i,
    {
        items.push(Json::Str(vs[i].clone()));
        i = i + 1;
    }
    Json::Arr(items)
}

/// Encodes the header map, keeping its order.
#[verifier::loop_isolation(false)]
fn headers_to_json(h: &Vec<(String, Vec<String>)>) -> (j: Json)
    ensures
        headers_json_post(h@, j),
{
    let mut entries: Vec<(String, Json)> = Vec::new();
    let n = h.len();
    let mut i: usize = 0;
    while i < n
        invariant
            i <= n,
            entries@.len() == i,
            forall|k: int|
                0 <= k < i ==> (#[trigger] entries@[k]).0@ == h@[k].0@ && str_list_json_post(
                    h@[k].1@,
                    entries@[k].1,
                ),
        decreases n - i,
    {
        let (k, vs) = &h[i];
        let value = str_list_to_json(vs);
        entries.push((k.clone(), value));
        i = i + 1;
    }
    Json::Obj(entries)
}

/// Encodes a resource object.
pub fn resource_to_json(res: Resource) -> (j: Json)
    ensures
        resource_json_post(res, j),
{
    let Resource { id, name, location, resource_type, properties } = res;
    let mut entries: Vec<(String, Json)> = Vec::new();
    entries.push((String::from_str("id"), Json::Str(id)));
    entries.push((String::from_str("name"), Json::Str(name)));
    entries.push((String::from_str("location"), Json::Str(location)));
    entries.push((String::from_str("type"), Json::Str(resource_type)));
    entries.push((String::from_str("properties"), properties));
    Json::Obj(entries)
}

/// Encodes a request envelope.
pub fn request_to_json(env: Request) -> (j: Json)
    ensures
        request_json_post(env, j),
{
    let Request { resource_id, request, headers } = env;
    let headers_json = headers_to_json(&headers);
    let request_json = resource_to_json(request);
    let mut entries: Vec<(String, Json)> = Vec::new();
    entries.push((String::from_str("resourceId"), Json::Str(resource_id)));
    entries.push((String::from_str("request"), request_json));
    entries.push((String::from_str("headers"), headers_json));
    Json::Obj(entries)
}

/// How an encoded error detail relates to its fields.
pub open spec fn error_detail_json_post(d: ErrorDetail, j: Json) -> bool {
    &&& j is Obj
    &&& entries_of(j).len() == 2
    &&& entries_of(j)[0].0@ == "code"@ && entries_of(j)[0].1 == Json::Str(d.code)
    &&& entries_of(j)[1].0@ == "message"@ && entries_of(j)[1].1 == Json::Str(d.message)
}

/// How an encoded payload relates to the payload it came from: a status
/// object says `"Succeeded"` or `"Failed"` and carries its error detail
/// or an explicit null; a resource payload is the bare resource object.
pub open spec fn payload_json_post(p: ResponsePayload, j: Json) -> bool {
    match p {
        ResponsePayload::Status { succeeded, error } => {
            &&& j is Obj
            &&& entries_of(j).len() == 2
            &&& entries_of(j)[0].0@ == "status"@ && entries_of(j)[0].1 is Str
            &&& crate::json::str_of(entries_of(j)[0].1) == if succeeded {
                "Succeeded"@
            } else {
                "Failed"@
            }
            &&& entries_of(j)[1].0@ == "error"@
            &&& match error {
                None => entries_of(j)[1].1 == Json::Null,
                Some(d) => error_detail_json_post(d, entries_of(j)[1].1),
            }
        },
        ResponsePayload::Resource(res) => resource_json_post(res, j),
    }
}

/// How an encoded response envelope relates to the envelope it came
/// from: status code, payload (or an explicit null) and headers, in the
/// order the wire format lists them.
pub open spec fn response_json_post(resp: ResponseEnvelope, j: Json) -> bool {
    &&& j is Obj
    &&& entries_of(j).len() == 3
    &&& entries_of(j)[0].0@ == "httpStatusCode"@ && entries_of(j)[0].1 == Json::Int(
        resp.http_status_code as i64,
    )
    &&& entries_of(j)[1].0@ == "payload"@
    &&& match resp.payload {
        None => entries_of(j)[1].1 == Json::Null,
        Some(p) => payload_json_post(p, entries_of(j)[1].1),
    }
    &&& entries_of(j)[2].0@ == "headers"@ && headers_json_post(resp.headers@, entries_of(j)[2].1)
}

/// Encodes a response envelope.
pub fn response_to_json(resp: ResponseEnvelope) -> (j: Json)
    ensures
        response_json_post(resp, j),
{
    let ResponseEnvelope { http_status_code, payload, headers } = resp;
    let headers_json = headers_to_json(&headers);
    let payload_json: Json = match payload {
        None => Json::Null,
        Some(ResponsePayload::Status { succeeded, error }) => {
            let status_text = if succeeded {
                String::from_str("Succeeded")
            } else {
                String::from_str("Failed")
            };
            let error_json: Json = match error {
                None => Json::Null,
                Some(d) => {
                    let ErrorDetail { code, message } = d;
                    let mut e: Vec<(String, Json)> = Vec::new();
                    e.push((String::from_str("code"), Json::Str(code)));
                    e.push((String::from_str("message"), Json::Str(message)));
                    Json::Obj(e)
                },
            };
            let mut p: Vec<(String, Json)> = Vec::new();
            p.push((String::from_str("status"), Json::Str(status_text)));
            p.push((String::from_str("error"), error_json));
            Json::Obj(p)
        },
        Some(ResponsePayload::Resource(res)) => resource_to_json(res),
    };
    let mut entries: Vec<(String, Json)> = Vec::new();
    entries.push((String::from_str("httpStatusCode"), Json::Int(http_status_code as i64)));
    entries.push((String::from_str("payload"), payload_json));
    entries.push((String::from_str("headers"), headers_json));
    Json::Obj(entries)
}

/// A success envelope: status 200 and a succeeded status payload, with
/// the given headers.
pub fn exit_success_with_headers(headers: Vec<(String, Vec<String>)>) -> (r: ResponseEnvelope)
    ensures
        r.http_status_code == 200,
        r.payload == Some(ResponsePayload::Status { succeeded: true, error: None }),
        r.headers == headers,
{
    ResponseEnvelope {
        http_status_code: 200,
        payload: Some(ResponsePayload::Status { succeeded: true, error: None }),
        headers,
    }
}

/// A success envelope with a succeeded status payload and no headers.
pub fn exit_success_with_status() -> (r: ResponseEnvelope)
    ensures
        r.http_status_code == 200,
        r.payload == Some(ResponsePayload::Status { succeeded: true, error: None }),
        r.headers@.len() == 0,
{
    exit_success_with_headers(Vec::new())
}

/// A success envelope echoing a resource, with the given headers.
pub fn exit_success_with_resource_and_headers(
    resource: Resource,
    headers: Vec<(String, Vec<String>)>,
) -> (r: ResponseEnvelope)
    ensures
        r.http_status_code == 200,
        r.payload == Some(ResponsePayload::Resource(resource)),
        r.headers == headers,
{
    ResponseEnvelope {
        http_status_code: 200,
        payload: Some(ResponsePayload::Resource(resource)),
        headers,
    }
}

/// A success envelope echoing a resource, with no headers.
pub fn exit_success_with_resource(resource: Resource) -> (r: ResponseEnvelope)
    ensures
        r.http_status_code == 200,
        r.payload == Some(ResponsePayload::Resource(resource)),
        r.headers@.len() == 0,
{
    exit_success_with_resource_and_headers(resource, Vec::new())
}

/// A success envelope with no payload and no headers.
pub fn exit_success_no_payload() -> (r: ResponseEnvelope)
    ensures
        r.http_status_code == 200,
        r.payload is None,
        r.headers@.len() == 0,
{
    ResponseEnvelope { http_status_code: 200, payload: None, headers: Vec::new() }
}

/// A failure envelope: a failed status payload carrying the error code
/// and the cause's description, with the given status code and headers;
/// beside it the error-severity trace record that mirrors the failure
/// to the host.
pub fn exit_error_with_headers(
    message: String,
    errorcode: &str,
    statuscode: i32,
    headers: Vec<(String, Vec<String>)>,
) -> (r: (ResponseEnvelope, crate::trace::TraceRecord))
    ensures
        r.0.http_status_code == statuscode,
        r.0.payload matches Some(ResponsePayload::Status { succeeded, error }) && !succeeded && (
        error matches Some(d) && d.code@ == errorcode@ && d.message@ == message@),
        r.0.headers == headers,
        r.1 matches crate::trace::TraceRecord::Error { code, message: m, status_code } && code@
            == errorcode@ && m@ == message@ && status_code == statuscode,
{
    let detail = ErrorDetail { code: errorcode.to_owned(), message: message.clone() };
    let response = ResponseEnvelope {
        http_status_code: statuscode,
        payload: Some(ResponsePayload::Status { succeeded: false, error: Some(detail) }),
        headers,
    };
    let record = crate::trace::TraceRecord::Error {
        code: errorcode.to_owned(),
        message,
        status_code: statuscode,
    };
    (response, record)
}

/// A failure envelope with no headers, and its error trace record.
pub fn exit_error(message: String, errorcode: &str, statuscode: i32) -> (r: (
    ResponseEnvelope,
    crate::trace::TraceRecord,
))
    ensures
        r.0.http_status_code == statuscode,
        r.0.payload matches Some(ResponsePayload::Status { succeeded, error }) && !succeeded && (
        error matches Some(d) && d.code@ == errorcode@ && d.message@ == message@),
        r.0.headers@.len() == 0,
        r.1 matches crate::trace::TraceRecord::Error { code, message: m, status_code } && code@
            == errorcode@ && m@ == message@ && status_code == statuscode,
{
    exit_error_with_headers(message, errorcode, statuscode, Vec::new())
}

/// A key found at position `i`, with no later entry under the same key,
/// is what lookup answers.
proof fn lemma_obj_lookup_at(entries: Seq<(String, Json)>, i: int, key: Seq<char>)
    requires
        0 <= i < entries.len(),
        entries[i].0@ == key,
        forall|k: int| i < k < entries.len() ==> (#[trigger] entries[k]).0@ != key,
    ensures
        obj_lookup(entries, key) == Some(entries[i].1),
    decreases entries.len(),
{
    if i == entries.len() - 1 {
    } else {
        assert(entries.last().0@ != key);
        assert forall|k: int| i < k < entries.drop_last().len() implies (#[trigger] entries
            .drop_last()[k]).0@ != key by {
            assert(entries.drop_last()[k] == entries[k]);
        }
        assert(entries.drop_last()[i] == entries[i]);
        lemma_obj_lookup_at(entries.drop_last(), i, key);
    }
}

/// Decoding a string list that encoding produced yields the original
/// strings.
proof fn lemma_str_list_inverts(vs: Seq<String>, j: Json)
    requires
        str_list_json_post(vs, j),
    ensures
        str_list_of(j) matches Some(out) && out == Seq::new(vs.len(), |k: int| vs[k]@),
{
    let items = j->Arr_0;
    assert(crate::json::arr_of(j) == items@);
    assert forall|k: int| 0 <= k < items@.len() implies (#[trigger] items@[k]) is Str by {
        assert(crate::json::arr_of(j)[k] is Str);
    }
    let out = str_list_of(j).unwrap();
    assert(out =~= Seq::new(vs.len(), |k: int| vs[k]@));
}

/// Decoding a headers object that encoding produced yields the original
/// header map.
proof fn lemma_headers_inverts(h: Seq<(String, Vec<String>)>, j: Json)
    requires
        headers_json_post(h, j),
    ensures
        headers_of(j) matches Some(out) && out == Seq::new(
            h.len(),
            |k: int| (h[k].0@, h[k].1.deep_view()),
        ),
{
    let entries = j->Obj_0;
    assert(entries_of(j) == entries@);
    assert forall|k: int| 0 <= k < entries@.len() implies (#[trigger] str_list_of(
        entries@[k].1,
    )) is Some by {
        assert(entries_of(j)[k].0@ == h[k].0@);
        lemma_str_list_inverts(h[k].1@, entries@[k].1);
    }
    let out = headers_of(j).unwrap();
    assert forall|k: int| 0 <= k < h.len() implies out[k] == (h[k].0@, h[k].1.deep_view()) by {
        lemma_str_list_inverts(h[k].1@, entries@[k].1);
        assert(str_list_of(entries@[k].1).unwrap() == Seq::new(
            h[k].1@.len(),
            |i: int| h[k].1@[i]@,
        ));
        assert(h[k].1.deep_view() =~= Seq::new(h[k].1@.len(), |i: int| h[k].1@[i]@));
    }
    assert(out =~= Seq::new(h.len(), |k: int| (h[k].0@, h[k].1.deep_view())));
}

/// Decoding inverts encoding: a request envelope written out as a JSON
/// tree decodes back to an envelope with the same `resourceId`, the same
/// `headers` entry for entry, and the same resource fields, properties
/// payload included. With [`request_from_json`]'s contract this pins the
/// whole round trip over the tree layer.
pub proof fn lemma_decode_inverts_encode(env: Request, j: Json)
    requires
        request_json_post(env, j),
    ensures
        request_of(j) matches Some(sh) && request_matches(env, sh),
{
    reveal_strlit("resourceId");
    reveal_strlit("request");
    reveal_strlit("headers");
    reveal_strlit("id");
    reveal_strlit("name");
    reveal_strlit("location");
    reveal_strlit("type");
    reveal_strlit("properties");
    assert("resourceId"@.len() == 10 && "request"@.len() == 7 && "headers"@.len() == 7);
    assert("request"@[0] == 'r' && "headers"@[0] == 'h');
    assert("resourceId"@ != "request"@ && "resourceId"@ != "headers"@ && "request"@
        != "headers"@);
    let entries = j->Obj_0;
    assert(entries_of(j) == entries@);
    lemma_obj_lookup_at(entries@, 0, "resourceId"@);
    lemma_obj_lookup_at(entries@, 1, "request"@);
    lemma_obj_lookup_at(entries@, 2, "headers"@);
    let rj = entries@[1].1;
    assert(resource_json_post(env.request, rj));
    assert("id"@.len() == 2 && "name"@.len() == 4 && "location"@.len() == 8 && "type"@.len() == 4
        && "properties"@.len() == 10);
    assert("name"@[0] == 'n' && "type"@[0] == 't');
    assert("id"@ != "name"@ && "id"@ != "location"@ && "id"@ != "type"@ && "id"@
        != "properties"@);
    assert("name"@ != "location"@ && "name"@ != "type"@ && "name"@ != "properties"@);
    assert("location"@ != "type"@ && "location"@ != "properties"@);
    assert("type"@ != "properties"@);
    let rentries = rj->Obj_0;
    assert(entries_of(rj) == rentries@);
    lemma_obj_lookup_at(rentries@, 0, "id"@);
    lemma_obj_lookup_at(rentries@, 1, "name"@);
    lemma_obj_lookup_at(rentries@, 2, "location"@);
    lemma_obj_lookup_at(rentries@, 3, "type"@);
    lemma_obj_lookup_at(rentries@, 4, "properties"@);
    assert(resource_of(rj) matches Some(rsh) && resource_matches(env.request, rsh));
    let hj = entries@[2].1;
    lemma_headers_inverts(env.headers@, hj);
    assert(env.headers.deep_view() =~= Seq::new(
        env.headers@.len(),
        |k: int| (env.headers@[k].0@, env.headers@[k].1.deep_view()),
    ));
}

/// Renders a request envelope as one JSON document: the rendering of a
/// tree that carries the envelope, field for field.
pub fn encode_request(env: Request) -> (r: String)
    ensures
        exists|j: Json| #[trigger] request_json_post(env, j) && r@ == crate::wire::rendered_of(j),
{
    let j = request_to_json(env);
    let r = crate::wire::render_document(&j);
    proof {
        assert(request_json_post(env, j) && r@ == crate::wire::rendered_of(j));
    }
    r
}

/// Renders a response envelope as one human-readable JSON document,
/// newline-terminated, ready for the output channel: the rendering of a
/// tree that carries the envelope, field for field.
pub fn encode_response(resp: ResponseEnvelope) -> (r: String)
    ensures
        exists|j: Json|
            #[trigger] response_json_post(resp, j) && r@ == crate::wire::rendered_of(j) + "\n"@,
{
    let j = response_to_json(resp);
    let mut s = crate::wire::render_document(&j);
    s.append("\n");
    proof {
        assert(response_json_post(resp, j) && s@ == crate::wire::rendered_of(j) + "\n"@);
    }
    s
}

} // verus!
