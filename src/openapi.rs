use vstd::prelude::*;

use crate::status::{status_text, Status};

verus! {

/// The API description up to the list of allowed statuses.
pub const OPENAPI_HEAD: &'static str = r##"{"openapi":"3.0.3","info":{"title":"JW Library Read API","version":"1.0.0"},"paths":{"/articles/{article_id}/status":{"get":{"operationId":"get_article_status","parameters":[{"name":"article_id","in":"path","required":true,"schema":{"type":"string"}}],"responses":{"200":{"description":"Article reading status","content":{"application/json":{"schema":{"$ref":"#/components/schemas/StatusResponse"}}}}}},"put":{"operationId":"put_article_status","parameters":[{"name":"article_id","in":"path","required":true,"schema":{"type":"string"}}],"requestBody":{"required":true,"content":{"application/json":{"schema":{"$ref":"#/components/schemas/StatusUpsertRequest"}}}},"responses":{"200":{"description":"Updated article reading status","content":{"application/json":{"schema":{"$ref":"#/components/schemas/StatusResponse"}}}}}}}},"components":{"schemas":{"Status":{"type":"string","enum":"##;

/// The API description after the list of allowed statuses.
pub const OPENAPI_TAIL: &'static str = r##"},"StatusResponse":{"type":"object","required":["article_id","status"],"properties":{"article_id":{"type":"string"},"status":{"$ref":"#/components/schemas/Status"}}},"StatusUpsertRequest":{"type":"object","required":["status"],"properties":{"status":{"$ref":"#/components/schemas/Status"}}}}}}"##;

/// A status as a JSON string.
pub open spec fn quoted(s: Status) -> Seq<char> {
    seq!['"'] + status_text(s) + seq!['"']
}

/// The JSON array of every status text, in declaration order.
pub open spec fn status_list_json() -> Seq<char> {
    seq!['['] + quoted(Status::ToRead) + seq![','] + quoted(Status::Reading) + seq![','] + quoted(
        Status::Read,
    ) + seq![']']
}

fn push_quoted(out: &mut String, s: Status)
    ensures
        final(out)@ == old(out)@ + quoted(s),
{
    let q = "\"";
    proof {
        reveal_strlit("\"");
    }
    out.append(q);
    out.append(s.as_str());
    out.append(q);
    assert(final(out)@ =~= old(out)@ + quoted(s));
}

/// The allowed statuses as a JSON array of strings.
pub fn status_list() -> (r: String)
    ensures
        r@ == status_list_json(),
{
    let open = "[";
    let comma = ",";
    let close = "]";
    proof {
        reveal_strlit("[");
        reveal_strlit(",");
        reveal_strlit("]");
    }
    let mut out = String::from_str(open);
    push_quoted(&mut out, Status::ToRead);
    out.append(comma);
    push_quoted(&mut out, Status::Reading);
    out.append(comma);
    push_quoted(&mut out, Status::Read);
    out.append(close);
    assert(out@ =~= status_list_json());
    out
}

/// The machine-readable description of the two status operations, as JSON
/// text; its `Status` schema lists exactly the allowed statuses.
pub fn openapi_document() -> (r: String)
    ensures
        r@ == OPENAPI_HEAD@ + status_list_json() + OPENAPI_TAIL@,
{
    let mut out = String::from_str(OPENAPI_HEAD);
    let list = status_list();
    out.append(list.as_str());
    out.append(OPENAPI_TAIL);
    out
}

} // verus!
