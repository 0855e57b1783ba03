use vstd::prelude::*;

verus! {

/// The fields of the module-five form.
pub struct ModuleFiveParams {
    pub merchant_id: String,
    pub store_number: String,
    pub street: String,
    pub city: String,
    pub state: String,
    pub zip: String,
}

/// What `format!("{:?}", s)` writes for a string `s`: the string quoted, with
/// its special characters escaped.
pub uninterp spec fn debug_quoted(s: Seq<char>) -> Seq<char>;

/// Relies on std's `Debug` impl for `str`, through `format!("{:?}", ..)`: the
/// text depends on the characters of `s` alone.
#[verifier::external_body]
fn quote(s: &str) -> (r: String)
    ensures
        r@ == debug_quoted(s@),
{
    format!("{:?}", s)
}

/// The saved form of the settings when each value is already written as it is
/// to appear: one `key = value` line per field, in form order.
pub open spec fn changes_layout(
    merchant_id: Seq<char>,
    store_number: Seq<char>,
    street: Seq<char>,
    city: Seq<char>,
    state: Seq<char>,
    zip: Seq<char>,
) -> Seq<char> {
    "merchant_id = "@ + merchant_id + "\nstore_number = "@ + store_number + "\nstreet = "@ + street
        + "\ncity = "@ + city + "\nstate = "@ + state + "\nzip = "@ + zip
}

/// The text saved for a submitted form: each value quoted and escaped.
pub open spec fn changes_spec(p: ModuleFiveParams) -> Seq<char> {
    changes_layout(
        debug_quoted(p.merchant_id@),
        debug_quoted(p.store_number@),
        debug_quoted(p.street@),
        debug_quoted(p.city@),
        debug_quoted(p.state@),
        debug_quoted(p.zip@),
    )
}

/// Lays out the saved settings from values that are already quoted, one
/// `key = value` line per field.
pub fn layout_changes(quoted: &ModuleFiveParams) -> (r: String)
    ensures
        r@ == changes_layout(
            quoted.merchant_id@,
            quoted.store_number@,
            quoted.street@,
            quoted.city@,
            quoted.state@,
            quoted.zip@,
        ),
{
    let mut r = String::from_str("merchant_id = ");
    r.append(quoted.merchant_id.as_str());
    r.append("\nstore_number = ");
    r.append(quoted.store_number.as_str());
    r.append("\nstreet = ");
    r.append(quoted.street.as_str());
    r.append("\ncity = ");
    r.append(quoted.city.as_str());
    r.append("\nstate = ");
    r.append(quoted.state.as_str());
    r.append("\nzip = ");
    r.append(quoted.zip.as_str());
    r
}

/// The text that a submitted module-five form is saved as.
pub fn changes_text(params: &ModuleFiveParams) -> (r: String)
    ensures
        r@ == changes_spec(*params),
{
    let quoted = ModuleFiveParams {
        merchant_id: quote(params.merchant_id.as_str()),
        store_number: quote(params.store_number.as_str()),
        street: quote(params.street.as_str()),
        city: quote(params.city.as_str()),
        state: quote(params.state.as_str()),
        zip: quote(params.zip.as_str()),
    };
    layout_changes(&quoted)
}

} // verus!
