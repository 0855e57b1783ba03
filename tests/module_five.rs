use poem_toy::module_five::{changes_text, layout_changes, ModuleFiveParams};
use poem_toy::settings_page::{
    find_setting, module_five_page, template_context, PageError, MODULE_FIVE_TEMPLATE,
};

fn params(values: [&str; 6]) -> ModuleFiveParams {
    ModuleFiveParams {
        merchant_id: values[0].to_string(),
        store_number: values[1].to_string(),
        street: values[2].to_string(),
        city: values[3].to_string(),
        state: values[4].to_string(),
        zip: values[5].to_string(),
    }
}

fn settings(text: &str) -> Vec<(String, serde_json::Value)> {
    let map: serde_json::Map<String, serde_json::Value> = serde_json::from_str(text).unwrap();
    map.into_iter().collect()
}

const FULL: &str = r#"{"merchant_id":"M1","store_number":"042","street":"1 Main St","city":"Springfield","state":"IL","zip":62701,"extra":true}"#;

#[test]
fn changes_text_quotes_each_value() {
    let p = params(["M1", "042", "1 Main St", "Springfield", "IL", "62701"]);
    assert_eq!(
        changes_text(&p),
        "merchant_id = \"M1\"\nstore_number = \"042\"\nstreet = \"1 Main St\"\ncity = \"Springfield\"\nstate = \"IL\"\nzip = \"62701\""
    );
}

#[test]
fn changes_text_escapes_specials() {
    let p = params(["a\"b", "x\\y", "line\nbreak", "", "tab\t", "z"]);
    assert_eq!(
        changes_text(&p),
        "merchant_id = \"a\\\"b\"\nstore_number = \"x\\\\y\"\nstreet = \"line\\nbreak\"\ncity = \"\"\nstate = \"tab\\t\"\nzip = \"z\""
    );
}

#[test]
fn layout_uses_values_as_given() {
    let p = params(["1", "2", "3", "4", "5", "6"]);
    assert_eq!(
        layout_changes(&p),
        "merchant_id = 1\nstore_number = 2\nstreet = 3\ncity = 4\nstate = 5\nzip = 6"
    );
}

#[test]
fn find_setting_positions() {
    let s = settings(FULL);
    let i = find_setting(&s, "city").unwrap();
    assert_eq!(s[i].0, "city");
    assert_eq!(find_setting(&s, "country"), None);
    assert_eq!(find_setting(&Vec::new(), "city"), None);
}

#[test]
fn template_context_maps_each_setting() {
    let s = settings(FULL);
    let entries = match template_context(&s) {
        Ok(e) => e,
        Err(_) => panic!("settings refused"),
    };
    let names: Vec<&str> = entries.iter().map(|e| e.0.as_str()).collect();
    assert_eq!(
        names,
        vec!["t_merchant_id", "t_store_number", "t_street", "t_city", "t_state", "t_zip"]
    );
    let keys = ["merchant_id", "store_number", "street", "city", "state", "zip"];
    for (k, e) in keys.iter().zip(entries.iter()) {
        assert_eq!(s[e.1].0, *k);
    }
}

#[test]
fn template_context_reports_first_missing() {
    let s = settings(r#"{"merchant_id":"M1","street":"x","zip":"1"}"#);
    match template_context(&s) {
        Err(PageError::MissingSetting { key }) => assert_eq!(key, "store_number"),
        _ => panic!("expected a missing setting"),
    }
}

#[test]
fn module_five_page_renders_settings() {
    let page = match module_five_page(FULL) {
        Ok(p) => p,
        Err(_) => panic!("page refused"),
    };
    assert!(page.starts_with("<!DOCTYPE html>"));
    assert!(page.contains(r#"name="merchant_id" value="M1""#));
    assert!(page.contains(r#"name="store_number" value="042""#));
    assert!(page.contains(r#"name="street" value="1 Main St""#));
    assert!(page.contains(r#"name="city" value="Springfield""#));
    assert!(page.contains(r#"name="state" value="IL""#));
    assert!(page.contains(r#"name="zip" value="62701""#));
    assert!(!page.contains("{{"));
    assert!(!page.contains("extra"));
}

#[test]
fn module_five_page_escapes_values() {
    let config = r#"{"merchant_id":"a\"b<c>","store_number":1.5,"street":null,"city":[1,2],"state":{"k":1},"zip":1e308}"#;
    let page = match module_five_page(config) {
        Ok(p) => p,
        Err(_) => panic!("page refused"),
    };
    assert!(page.contains(r#"value="a&quot;b&lt;c&gt;""#));
    assert!(page.contains(r#"name="store_number" value="1.5""#));
    assert!(page.contains(r#"name="street" value="""#));
    assert!(page.contains(r#"name="city" value="[1, 2]""#));
    assert!(page.contains(r#"name="state" value="[object]""#));
}

#[test]
fn module_five_template_prints_names_only() {
    for key in ["merchant_id", "store_number", "street", "city", "state", "zip"] {
        assert!(MODULE_FIVE_TEMPLATE.contains(&format!("{{{{ t_{} }}}}", key)));
    }
    assert!(!MODULE_FIVE_TEMPLATE.contains("{%"));
}

#[test]
fn module_five_page_invalid_settings() {
    assert!(matches!(module_five_page("not json"), Err(PageError::InvalidSettings)));
    assert!(matches!(module_five_page("[1, 2]"), Err(PageError::InvalidSettings)));
    let e = module_five_page("{}").err().unwrap();
    assert_eq!(e.status_code(), 500);
    match e {
        PageError::MissingSetting { key } => assert_eq!(key, "merchant_id"),
        _ => panic!("expected a missing setting"),
    }
}
