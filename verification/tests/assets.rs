use patent_backend::asset_helper::{AssetHelper, AssetHelperConfig};
use patent_backend::company::{Companies, Company, Product};
use patent_backend::json::{push_item, push_member, Json};
use patent_backend::patent::{Patent, PatentClam, Patents};

const PATENTS: &str = r#"[
  {
    "id": 1,
    "publication_number": "US-RE49889-E1",
    "title": "Systems and methods",
    "abstract": "An abstract",
    "description": "A description",
    "claims": "[{\"num\": \"00001\", \"text\": \"1. A method\"}, {\"num\": \"00002\", \"text\": \"2. The method of claim 1\"}]",
    "assignee": "Somebody"
  },
  {
    "id": 2,
    "publication_number": "US-2",
    "title": "Second",
    "abstract": "B",
    "description": "D",
    "claims": "[]"
  }
]"#;

const COMPANIES: &str = r#"{
  "companies": [
    {
      "name": "Walmart Inc.",
      "products": [
        {"name": "Walmart Shopping App", "description": "Mobile application"},
        {"name": "Walmart+", "description": "Membership program"}
      ]
    },
    {"name": "Empty Co", "products": []}
  ]
}"#;

fn text(s: &str) -> Json {
    Json::Text(s.to_string())
}

fn object(members: &[(&str, Json)]) -> Json {
    let mut out = Vec::new();
    for (key, value) in members {
        out.push((key.to_string(), copy(value)));
    }
    Json::Object(out)
}

fn copy(json: &Json) -> Json {
    match json {
        Json::Null => Json::Null,
        Json::Bool(b) => Json::Bool(*b),
        Json::Number(n) => Json::Number(*n),
        Json::Text(s) => Json::Text(s.clone()),
        Json::Array(items) => Json::Array(items.iter().map(copy).collect()),
        Json::Object(members) => {
            Json::Object(members.iter().map(|(k, v)| (k.clone(), copy(v))).collect())
        }
    }
}

fn patent_json(id: Json, claims: Json) -> Json {
    object(&[
        ("id", id),
        ("publication_number", text("US-1")),
        ("title", text("T")),
        ("abstract", text("A")),
        ("description", text("D")),
        ("claims", claims),
    ])
}

#[test]
fn reference_data_is_read_from_the_two_texts() {
    let assets = AssetHelper::from_json_texts(COMPANIES, PATENTS).unwrap();
    let patent = assets.get_patents().get("US-RE49889-E1").unwrap();
    assert_eq!(patent.id, 1);
    assert_eq!(patent.publication_number, "US-RE49889-E1");
    assert_eq!(patent.title, "Systems and methods");
    assert_eq!(patent.patent_abstract, "An abstract");
    assert_eq!(patent.description, "A description");
    assert_eq!(patent.claims.len(), 2);
    assert_eq!(patent.claims[0].patent_number, "00001");
    assert_eq!(patent.claims[0].text, "1. A method");
    assert_eq!(patent.claims[1].patent_number, "00002");
    assert_eq!(patent.claims[1].text, "2. The method of claim 1");
    assert!(assets.get_patents().get("US-2").unwrap().claims.is_empty());
    assert!(assets.get_patents().get("US-3").is_none());
    let company = assets.get_company_products().get("Walmart Inc.".to_string()).unwrap();
    assert_eq!(company.name, "Walmart Inc.");
    assert_eq!(company.products.len(), 2);
    assert_eq!(company.products[0].name, "Walmart Shopping App");
    assert_eq!(company.products[0].description, "Mobile application");
    assert_eq!(company.products[1].name, "Walmart+");
    assert!(assets
        .get_company_products()
        .get("Empty Co".to_string())
        .unwrap()
        .products
        .is_empty());
    assert!(assets.get_company_products().get("walmart inc.".to_string()).is_none());
}

#[test]
fn reference_data_needs_both_texts_in_order() {
    assert!(AssetHelper::from_json_texts("not json", PATENTS).is_none());
    assert!(AssetHelper::from_json_texts(COMPANIES, "not json").is_none());
    assert!(AssetHelper::from_json_texts(PATENTS, COMPANIES).is_none());
    assert!(AssetHelper::from_json_texts("{}", "[]").is_none());
    assert!(AssetHelper::from_json_texts("{\"companies\": []}", "[]").is_some());
    assert!(AssetHelper::from_json_texts("{\"companies\": []}", "{}").is_none());
    assert!(AssetHelper::from_json(None, None).is_none());
    assert!(AssetHelper::from_json(
        Some(object(&[("companies", Json::Array(Vec::new()))])),
        Some(Json::Array(Vec::new()))
    )
    .is_some());
}

#[test]
fn patent_claims_are_json_text_inside_json() {
    let claims = "[{\"num\": \"1\", \"text\": \"a\"}]";
    let patent = Patent::from_json(&patent_json(Json::Number(Some(5)), text(claims))).unwrap();
    assert_eq!(patent.id, 5);
    assert_eq!(patent.claims.len(), 1);
    assert_eq!(patent.claims[0].patent_number, "1");
    assert_eq!(patent.claims[0].text, "a");
    assert!(Patent::from_json(&patent_json(Json::Number(Some(5)), text("not json"))).is_none());
    assert!(Patent::from_json(&patent_json(Json::Number(Some(5)), text("{}"))).is_none());
    assert!(Patent::from_json(&patent_json(Json::Number(Some(5)), text("[{\"num\": 1}]"))).is_none());
    assert!(Patent::from_json(&patent_json(Json::Number(Some(5)), Json::Array(Vec::new()))).is_none());
}

#[test]
fn patent_id_is_a_whole_number_of_32_bits() {
    let claims = text("[]");
    assert_eq!(
        Patent::from_json(&patent_json(Json::Number(Some(2147483647)), copy(&claims))).unwrap().id,
        2147483647
    );
    assert_eq!(
        Patent::from_json(&patent_json(Json::Number(Some(-2147483648)), copy(&claims)))
            .unwrap()
            .id,
        -2147483648
    );
    assert!(Patent::from_json(&patent_json(Json::Number(Some(2147483648)), copy(&claims))).is_none());
    assert!(Patent::from_json(&patent_json(Json::Number(Some(-2147483649)), copy(&claims))).is_none());
    assert!(Patent::from_json(&patent_json(Json::Number(None), copy(&claims))).is_none());
    assert!(Patent::from_json(&patent_json(text("5"), copy(&claims))).is_none());
}

#[test]
fn patent_from_parts_takes_the_claims_as_given() {
    let claims = Json::Array(vec![object(&[("num", text("9")), ("text", text("nine"))])]);
    let json = patent_json(Json::Number(Some(1)), text("ignored"));
    let patent = Patent::from_parts(&json, Some(claims)).unwrap();
    assert_eq!(patent.claims.len(), 1);
    assert_eq!(patent.claims[0].patent_number, "9");
    assert!(Patent::from_parts(&json, None).is_none());
    assert!(Patent::from_parts(&json, Some(Json::Null)).is_none());
    let without = object(&[
        ("id", Json::Number(Some(1))),
        ("publication_number", text("US-1")),
        ("title", text("T")),
        ("abstract", text("A")),
        ("description", text("D")),
    ]);
    assert!(Patent::from_parts(&without, Some(Json::Array(Vec::new()))).is_none());
}

#[test]
fn patent_needs_every_member() {
    for missing in ["id", "publication_number", "title", "abstract", "description", "claims"] {
        let mut members = vec![
            ("id", Json::Number(Some(1))),
            ("publication_number", text("US-1")),
            ("title", text("T")),
            ("abstract", text("A")),
            ("description", text("D")),
            ("claims", text("[]")),
        ];
        members.retain(|(key, _)| *key != missing);
        assert!(Patent::from_json(&object(&members)).is_none(), "{}", missing);
    }
    assert!(Patent::from_json(&Json::Null).is_none());
    assert!(Patent::from_json(&Json::Array(Vec::new())).is_none());
}

#[test]
fn claims_from_json() {
    let one = object(&[("num", text("1")), ("text", text("a"))]);
    let claim = PatentClam::from_json(&one).unwrap();
    assert_eq!(claim.patent_number, "1");
    assert_eq!(claim.text, "a");
    assert_eq!(claim.to_string(), "1: a");
    assert!(PatentClam::from_json(&object(&[("num", text("1"))])).is_none());
    assert!(PatentClam::from_json(&object(&[("text", text("a"))])).is_none());
    assert!(PatentClam::from_json(&object(&[("num", Json::Number(Some(1))), ("text", text("a"))]))
        .is_none());
    let list = Json::Array(vec![copy(&one), object(&[("num", text("2")), ("text", text("b"))])]);
    let claims = PatentClam::from_json_array(&list).unwrap();
    assert_eq!(claims.len(), 2);
    assert_eq!(claims[1].text, "b");
    assert!(PatentClam::from_json_array(&Json::Array(vec![copy(&one), Json::Null])).is_none());
    assert!(PatentClam::from_json_array(&one).is_none());
    assert!(PatentClam::from_json_array(&Json::Array(Vec::new())).unwrap().is_empty());
}

#[test]
fn later_patent_with_the_same_number_stays() {
    let first = patent_json(Json::Number(Some(1)), text("[]"));
    let second = patent_json(Json::Number(Some(2)), text("[]"));
    let patents = Patents::from_json(&Json::Array(vec![first, second])).unwrap();
    assert_eq!(patents.get("US-1").unwrap().id, 2);
    assert!(Patents::from_json(&Json::Array(vec![Json::Null])).is_none());
    assert!(Patents::from_json(&Json::Null).is_none());
}

#[test]
fn patents_are_added_and_found() {
    let mut patents = Patents::new();
    assert!(patents.get("US-1").is_none());
    patents.add_patent(Patent::new(
        1,
        "US-1".to_string(),
        "T".to_string(),
        "A".to_string(),
        "D".to_string(),
        Vec::new(),
    ));
    assert_eq!(patents.get("US-1").unwrap().title, "T");
    patents.add_patent(Patent::new(
        2,
        "US-1".to_string(),
        "T2".to_string(),
        "A".to_string(),
        "D".to_string(),
        Vec::new(),
    ));
    assert_eq!(patents.get("US-1").unwrap().title, "T2");
    assert!(patents.get("US-2").is_none());
}

#[test]
fn patent_texts_and_claims() {
    let mut patent = Patent::new(
        1,
        "US-1".to_string(),
        "Title".to_string(),
        "an abstract".to_string(),
        "a description".to_string(),
        Vec::new(),
    );
    assert_eq!(
        patent.str_for_gpt(),
        "The patent 'Title' is about an abstract. Description: a description, Claims: []"
    );
    patent.add_claim(PatentClam::new("1".to_string(), "first".to_string()));
    patent.add_claim(PatentClam::new("2".to_string(), "second".to_string()));
    assert_eq!(patent.claims.len(), 2);
    assert_eq!(patent.claims[1].text, "second");
    assert_eq!(
        patent.str_for_gpt(),
        "The patent 'Title' is about an abstract. Description: a description, Claims: [first, second]"
    );
    assert_eq!(patent.to_string(), "US-1: Title - an abstract");
    assert_eq!(patent.claim_texts(), vec!["first", "second"]);
    let copy = patent.clone();
    assert_eq!(copy.str_for_gpt(), patent.str_for_gpt());
    assert_eq!(copy.id, 1);
}

#[test]
fn companies_from_json() {
    let product = object(&[("name", text("P")), ("description", text("d"))]);
    let company = object(&[("name", text("C")), ("products", Json::Array(vec![copy(&product)]))]);
    let read = Company::from_json(&company).unwrap();
    assert_eq!(read.name, "C");
    assert_eq!(read.products.len(), 1);
    assert_eq!(read.products[0].name, "P");
    assert!(Company::from_json(&object(&[("name", text("C"))])).is_none());
    assert!(Company::from_json(&object(&[("name", text("C")), ("products", Json::Null)])).is_none());
    assert!(Company::from_json(&object(&[
        ("name", text("C")),
        ("products", Json::Array(vec![Json::Null]))
    ]))
    .is_none());
    assert!(Product::from_json(&object(&[("name", text("P"))])).is_none());
    assert!(Product::from_json(&object(&[("description", text("d"))])).is_none());
    let renamed = object(&[("name", text("C")), ("products", Json::Array(Vec::new()))]);
    let companies =
        Companies::from_json(&object(&[("companies", Json::Array(vec![company, renamed]))]))
            .unwrap();
    assert!(companies.get("C".to_string()).unwrap().products.is_empty());
    assert!(Companies::from_json(&Json::Array(Vec::new())).is_none());
    assert!(Companies::from_json(&object(&[("companies", Json::Array(vec![Json::Null]))])).is_none());
}

#[test]
fn company_texts_and_products() {
    let mut company = Company::new("Acme".to_string(), Vec::new());
    assert_eq!(company.to_string(), "Acme: ");
    company.add_product(Product::new("Widget".to_string(), "a cart".to_string()));
    company.add_product(Product::new("Gadget".to_string(), "a tool".to_string()));
    assert_eq!(company.products.len(), 2);
    assert_eq!(company.to_string(), "Acme: Widget, Gadget");
    assert_eq!(company.product_names(), vec!["Widget", "Gadget"]);
    assert_eq!(company.products[0].str_for_gpt(), "The product 'Widget' is about a cart");
    assert_eq!(company.products[1].to_string(), "Gadget: a tool");
    let copy = company.clone();
    assert_eq!(copy.to_string(), company.to_string());
    let mut companies = Companies::new();
    assert!(companies.get("Acme".to_string()).is_none());
    companies.add_company(company);
    assert_eq!(companies.get("Acme".to_string()).unwrap().products.len(), 2);
}

#[test]
fn json_members_and_kinds() {
    let json = object(&[
        ("a", text("x")),
        ("n", Json::Number(Some(-3))),
        ("list", Json::Array(vec![text("p"), text("q")])),
        ("a", text("shadowed")),
        ("mixed", Json::Array(vec![text("p"), Json::Bool(true)])),
    ]);
    assert_eq!(json.get("a"), Some(&text("x")));
    assert_eq!(json.get("b"), None);
    assert_eq!(json.get_str("a"), Some("x"));
    assert_eq!(json.get_str("n"), None);
    assert_eq!(json.get_i64("n"), Some(-3));
    assert_eq!(json.get_i64("a"), None);
    assert_eq!(json.get_array("list").unwrap().len(), 2);
    assert!(json.get_array("a").is_none());
    assert_eq!(json.get_text_list("list"), Some(vec!["p".to_string(), "q".to_string()]));
    assert_eq!(json.get_text_list("mixed"), None);
    assert_eq!(json.get_text_list("none"), None);
    assert_eq!(Json::Null.get("a"), None);
    assert_eq!(text("x").as_str(), Some("x"));
    assert_eq!(Json::Null.as_str(), None);
    assert_eq!(Json::Number(Some(4)).as_i64(), Some(4));
    assert_eq!(Json::Number(None).as_i64(), None);
    assert_eq!(Json::Bool(true).as_array(), None);
    assert_eq!(
        Json::of_text_list(&vec!["p".to_string(), "q".to_string()]),
        Json::Array(vec![text("p"), text("q")])
    );
    assert_eq!(Json::of_text_list(&Vec::new()).as_text_list(), Some(Vec::new()));
}

#[test]
fn config_holds_the_two_paths() {
    let config = AssetHelperConfig {
        company_products_path: "a.json".to_string(),
        patents_path: "b.json".to_string(),
    };
    assert_eq!(config.company_products_path, "a.json");
    assert_eq!(config.patents_path, "b.json");
}

#[test]
fn json_values_are_built_piece_by_piece() {
    let mut items = Vec::new();
    push_item(&mut items, Json::text("a".to_string()));
    push_item(&mut items, Json::integer(-7));
    let mut members = Vec::new();
    push_member(&mut members, "list", Json::array(items));
    push_member(&mut members, "name", Json::text("n".to_string()));
    assert_eq!(
        Json::object(members),
        Json::Object(vec![
            (
                "list".to_string(),
                Json::Array(vec![Json::Text("a".to_string()), Json::Number(Some(-7))])
            ),
            ("name".to_string(), Json::Text("n".to_string())),
        ])
    );
}

#[test]
fn numbers_that_are_no_whole_numbers_of_64_bits_have_no_value() {
    let text = "{\"companies\": [{\"name\": \"C\", \"products\": [], \"size\": 1.5, \"big\": 18446744073709551615}]}";
    let assets = AssetHelper::from_json_texts(text, "[]").unwrap();
    assert!(assets.get_company_products().get("C".to_string()).is_some());
    let patent = "[{\"id\": 1.0, \"publication_number\": \"P\", \"title\": \"T\", \"abstract\": \"A\", \"description\": \"D\", \"claims\": \"[]\"}]";
    assert!(AssetHelper::from_json_texts("{\"companies\": []}", patent).is_none());
    let big = "[{\"id\": 9223372036854775808, \"publication_number\": \"P\", \"title\": \"T\", \"abstract\": \"A\", \"description\": \"D\", \"claims\": \"[]\"}]";
    assert!(AssetHelper::from_json_texts("{\"companies\": []}", big).is_none());
    let fine = "[{\"id\": -12, \"publication_number\": \"P\", \"title\": \"T\", \"abstract\": \"A\", \"description\": \"D\", \"claims\": \"[]\"}]";
    let assets = AssetHelper::from_json_texts("{\"companies\": []}", fine).unwrap();
    assert_eq!(assets.get_patents().get("P").unwrap().id, -12);
}

#[test]
fn a_key_that_occurs_twice_in_json_text_has_its_last_value() {
    let text = "[{\"id\": 1, \"id\": 2, \"publication_number\": \"P\", \"title\": \"T\", \"abstract\": \"A\", \"description\": \"D\", \"claims\": \"[]\"}]";
    let assets = AssetHelper::from_json_texts("{\"companies\": []}", text).unwrap();
    assert_eq!(assets.get_patents().get("P").unwrap().id, 2);
}
