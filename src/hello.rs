use vstd::prelude::*;

verus! {

/// The status code of a response to a path that no route serves.
pub const NOT_FOUND_STATUS: u16 = 404;

/// What the greeting route answers for a path segment `name`.
pub open spec fn greeting(name: Seq<char>) -> Seq<char> {
    "hello: "@ + name
}

/// The body of a response to a path that no route serves.
pub open spec fn not_found_text() -> Seq<char> {
    "Something Went Wrong"@
}

/// Greets the caller by the name taken from the request path.
pub fn hello(name: &str) -> (r: String)
    ensures
        r@ == greeting(name@),
{
    let r = String::from_str("hello: ");
    r.concat(name)
}

/// The status and body answered for a path that no route serves.
pub fn not_found_response() -> (r: (u16, &'static str))
    ensures
        r.0 == 404,
        r.1@ == not_found_text(),
{
    (NOT_FOUND_STATUS, "Something Went Wrong")
}

} // verus!
