use vstd::prelude::*;

verus! {

#[verifier::external_type_specification]
#[verifier::external_body]
pub struct ExJsonValue(serde_json::Value);

#[verifier::external_type_specification]
#[verifier::external_body]
pub struct ExJsonError(serde_json::Error);

#[verifier::external_type_specification]
#[verifier::external_body]
pub struct ExTeraContext(tera::Context);

#[verifier::external_type_specification]
#[verifier::external_body]
pub struct ExTeraError(tera::Error);

/// The template that the module-five page is rendered from: plain text and
/// one `{{ t_<key> }}` block per setting, with no expression beyond a name.
pub const MODULE_FIVE_TEMPLATE: &'static str = r###"<!DOCTYPE html>
<html lang="en">
<head>
    <meta charset="UTF-8">
    <title>Poem Toy</title>
</head>
<body>
    <form action="/module_five" method="post">
        <label>Merchant ID <input type="text" name="merchant_id" value="{{ t_merchant_id }}"></label>
        <label>Store number <input type="text" name="store_number" value="{{ t_store_number }}"></label>
        <label>Street <input type="text" name="street" value="{{ t_street }}"></label>
        <label>City <input type="text" name="city" value="{{ t_city }}"></label>
        <label>State <input type="text" name="state" value="{{ t_state }}"></label>
        <label>Zip <input type="text" name="zip" value="{{ t_zip }}"></label>
        <button type="submit">Submit</button>
    </form>
</body>
</html>
"###;

/// The text of the module-five template.
pub open spec fn module_five_template() -> Seq<char> {
    MODULE_FIVE_TEMPLATE@
}

/// Why the module-five page could not be produced.
pub enum PageError {
    /// The settings text is not a JSON object.
    InvalidSettings,
    /// The settings lack the value for `key`.
    MissingSetting { key: String },
    /// The template engine refused to render the page.
    Render,
}

impl PageError {
    /// The HTTP status answered when the page cannot be produced.
    pub fn status_code(&self) -> (r: u16)
        ensures
            r == 500,
    {
        500
    }
}

/// The keys, in order, of the JSON object that `text` holds as serde_json
/// reads it into its map; `None` where `text` is no JSON object.
pub uninterp spec fn json_object_keys(text: Seq<char>) -> Option<Seq<Seq<char>>>;

/// Relies on `serde_json::from_str` into a `serde_json::Map`, whose entries it
/// hands out with their keys; a map holds each key once.
#[verifier::external_body]
fn parse_settings(text: &str) -> (r: Result<Vec<(String, serde_json::Value)>, serde_json::Error>)
    ensures
        r is Ok <==> json_object_keys(text@) is Some,
        r matches Ok(v) ==> keys_of(v@) == json_object_keys(text@)->0,
        r matches Ok(v) ==> keys_of(v@).no_duplicates(),
{
    serde_json::from_str::<serde_json::Map<String, serde_json::Value>>(text).map(
        |m| m.into_iter().collect(),
    )
}

/// The variable names that a template context binds.
pub uninterp spec fn context_names(c: tera::Context) -> Set<Seq<char>>;

/// Relies on `tera::Context::new`: an empty template context.
#[verifier::external_body]
fn new_context() -> (r: tera::Context)
    ensures
        context_names(r) == Set::<Seq<char>>::empty(),
{
    tera::Context::new()
}

/// Relies on `tera::Context::insert`: binds `name` to a JSON value, which
/// serialises without fail, and keeps the other bindings.
#[verifier::external_body]
fn bind_value(context: &mut tera::Context, name: &str, value: &serde_json::Value)
    ensures
        context_names(*final(context)) == context_names(*old(context)).insert(name@),
{
    context.insert(name, value)
}

/// Relies on `tera::Tera::one_off`: parses and renders a template text with a
/// context, escaping the strings it prints as HTML. The template is held to
/// the library's own module-five text: it prints variables by name and nothing
/// else, so tera's renderer reaches none of the unwraps of its arithmetic,
/// comparison or literal handling, which can panic on other templates. The
/// text parses, and printing a bound variable does not fail, so the render
/// succeeds once the context binds every variable the template prints.
#[verifier::external_body]
fn render_template(template: &str, context: &tera::Context) -> (r: Result<String, tera::Error>)
    requires
        template@ == module_five_template(),
    ensures
        (forall|k: int|
            0 <= k < 6 ==> context_names(*context).contains(
                variable_of(#[trigger] setting_keys()[k]),
            )) ==> r is Ok,
{
    tera::Tera::one_off(template, context, true)
}

/// The keys of a list of settings, in order.
pub open spec fn keys_of(settings: Seq<(String, serde_json::Value)>) -> Seq<Seq<char>> {
    settings.map_values(|p: (String, serde_json::Value)| p.0@)
}

/// The settings that the page shows, in the order of its form.
pub open spec fn setting_keys() -> Seq<Seq<char>> {
    seq!["merchant_id"@, "store_number"@, "street"@, "city"@, "state"@, "zip"@]
}

/// The template variable that shows the setting `key`.
pub open spec fn variable_of(key: Seq<char>) -> Seq<char> {
    "t_"@ + key
}

/// Some entry of `keys` is `key`.
pub open spec fn has_key(keys: Seq<Seq<char>>, key: Seq<char>) -> bool {
    exists|i: int| 0 <= i < keys.len() && keys[i] == key
}

/// `idx` is the first position of `key` in `keys`.
pub open spec fn first_index_of(keys: Seq<Seq<char>>, key: Seq<char>, idx: int) -> bool {
    &&& 0 <= idx < keys.len()
    &&& keys[idx] == key
    &&& forall|j: int| 0 <= j < idx ==> keys[j] != key
}

/// The `k`-th setting key that the page shows.
fn setting_key(k: usize) -> (r: &'static str)
    requires
        k < 6,
    ensures
        r@ == setting_keys()[k as int],
{
    match k {
        0 => "merchant_id",
        1 => "store_number",
        2 => "street",
        3 => "city",
        4 => "state",
        _ => "zip",
    }
}

/// Finds where `key` first stands among the settings.
pub fn find_setting(settings: &Vec<(String, serde_json::Value)>, key: &str) -> (r: Option<usize>)
    ensures
        r is None <==> !has_key(keys_of(settings@), key@),
        r matches Some(i) ==> first_index_of(keys_of(settings@), key@, i as int),
{
    let wanted = String::from_str(key);
    let mut i: usize = 0;
    while i < settings.len()
        invariant
            0 <= i <= settings@.len(),
            wanted@ == key@,
            forall|j: int| 0 <= j < i ==> keys_of(settings@)[j] != key@,
        decreases settings@.len() - i,
    {
        if settings[i].0 == wanted {
            assert(keys_of(settings@)[i as int] == key@);
            return Some(i);
        }
        i += 1;
    }
    None
}

/// Pairs each template variable of the page with the position of the setting
/// that it shows: for each setting key in form order, `t_` and the key, and
/// the first position of the key among the settings. Fails on the first key
/// that the settings lack.
pub fn template_context(settings: &Vec<(String, serde_json::Value)>) -> (r: Result<
    Vec<(String, usize)>,
    PageError,
>)
    ensures
        r is Ok <==> forall|k: int|
            0 <= k < 6 ==> has_key(keys_of(settings@), #[trigger] setting_keys()[k]),
        r matches Ok(entries) ==> entries@.len() == 6 && forall|k: int|
            0 <= k < 6 ==> (#[trigger] entries@[k]).0@ == variable_of(setting_keys()[k])
                && first_index_of(keys_of(settings@), setting_keys()[k], entries@[k].1 as int),
        r matches Err(e) ==> exists|k: int|
            0 <= k < 6 && !has_key(keys_of(settings@), #[trigger] setting_keys()[k]) && (forall|
                m: int,
            | 0 <= m < k ==> has_key(keys_of(settings@), setting_keys()[m])) && (
            e matches PageError::MissingSetting { key } && key@ == setting_keys()[k]),
{
    let mut entries: Vec<(String, usize)> = Vec::new();
    let mut k: usize = 0;
    while k < 6
        invariant
            0 <= k <= 6,
            entries@.len() == k,
            forall|m: int| 0 <= m < k ==> has_key(keys_of(settings@), #[trigger] setting_keys()[m]),
            forall|m: int|
                0 <= m < k ==> (#[trigger] entries@[m]).0@ == variable_of(setting_keys()[m])
                    && first_index_of(keys_of(settings@), setting_keys()[m], entries@[m].1 as int),
        decreases 6 - k,
    {
        let key = setting_key(k);
        match find_setting(settings, key) {
            None => {
                return Err(PageError::MissingSetting { key: String::from_str(key) });
            },
            Some(i) => {
                let variable = String::from_str("t_").concat(key);
                entries.push((variable, i));
                k += 1;
            },
        }
    }
    Ok(entries)
}

/// The module-five page: the settings are read from `config_text`, a JSON
/// object, and each value the page shows is handed to the module-five
/// template under its variable name. Fails with `InvalidSettings` where the text is no JSON
/// object, with `MissingSetting` on the first setting it lacks, and otherwise
/// renders the page.
pub fn module_five_page(config_text: &str) -> (r: Result<String, PageError>)
    ensures
        json_object_keys(config_text@) is None <==> r matches Err(PageError::InvalidSettings),
        json_object_keys(config_text@) matches Some(keys) ==> {
            &&& (forall|k: int| 0 <= k < 6 ==> has_key(keys, #[trigger] setting_keys()[k])) ==> r is Ok
            &&& forall|k: int|
                0 <= k < 6 && !has_key(keys, #[trigger] setting_keys()[k]) && (forall|m: int|
                    0 <= m < k ==> has_key(keys, setting_keys()[m])) ==> (r matches Err(
                    PageError::MissingSetting { key },
                ) && key@ == setting_keys()[k])
        },
{
    let settings = match parse_settings(config_text) {
        Ok(s) => s,
        Err(_) => {
            return Err(PageError::InvalidSettings);
        },
    };
    let entries = match template_context(&settings) {
        Ok(e) => e,
        Err(e) => {
            return Err(e);
        },
    };
    let mut context = new_context();
    let mut k: usize = 0;
    while k < entries.len()
        invariant
            entries@.len() == 6,
            0 <= k <= 6,
            forall|m: int|
                0 <= m < 6 ==> (#[trigger] entries@[m]).0@ == variable_of(setting_keys()[m]),
            forall|m: int|
                0 <= m < k ==> context_names(context).contains(
                    variable_of(#[trigger] setting_keys()[m]),
                ),
            forall|m: int|
                0 <= m < 6 ==> first_index_of(
                    keys_of(settings@),
                    setting_keys()[m],
                    (#[trigger] entries@[m]).1 as int,
                ),
        decreases entries@.len() - k,
    {
        let (variable, i) = (&entries[k].0, entries[k].1);
        bind_value(&mut context, variable.as_str(), &settings[i].1);
        k += 1;
    }
    match render_template(MODULE_FIVE_TEMPLATE, &context) {
        Ok(page) => Ok(page),
        Err(_) => Err(PageError::Render),
    }
}

} // verus!
