use patent_backend::assess_infringement_v1::{
    items_from_json, items_to_json, AssessInfringementV1ProductItem, AssessInfringementV1Resp,
};
use patent_backend::assessments::{Assessment, NewAssessment};
use patent_backend::company::{Company, Product};
use patent_backend::create_assessment_v1::{
    create_assessment_v1, get_assessment_v1, CreateAssessmentV1Req, CreateAssessmentV1Resp,
    StoreOutcome,
};
use patent_backend::errors::Error;
use patent_backend::infrigement::ProductInfrigement;
use patent_backend::json::Json;
use patent_backend::likelihood::Likelihood;
use patent_backend::patent::Patent;
use patent_backend::time::{iso8601, Timestamp};

fn item(name: &str, claims: &[&str], features: &[&str]) -> AssessInfringementV1ProductItem {
    AssessInfringementV1ProductItem::new(
        name.to_string(),
        "50.00%".to_string(),
        claims.iter().map(|s| s.to_string()).collect(),
        format!("why {}", name),
        features.iter().map(|s| s.to_string()).collect(),
    )
}

fn same(a: &AssessInfringementV1ProductItem, b: &AssessInfringementV1ProductItem) -> bool {
    a.product_name == b.product_name
        && a.infringement_likelihood == b.infringement_likelihood
        && a.relevant_claims == b.relevant_claims
        && a.explanation == b.explanation
        && a.specific_features == b.specific_features
}

fn request(date: &str) -> CreateAssessmentV1Req {
    CreateAssessmentV1Req {
        patent_id: "US123".to_string(),
        company_name: "Acme".to_string(),
        analysis_date: date.to_string(),
        top_infringing_products: vec![
            item("Widget", &["1", "2"], &["wheel", "axle"]),
            item("Gadget", &[], &[]),
            item("", &[""], &["\"quoted\", with comma"]),
        ],
        overall_risk_assessment: "some risk".to_string(),
    }
}

fn stored(new: NewAssessment, id: i32) -> Assessment {
    Assessment {
        id,
        patent_id: new.patent_id,
        company_name: new.company_name,
        analysis_date: new.analysis_date,
        top_infringing_products: new.top_infringing_products,
        overall_risk_assessment: new.overall_risk_assessment,
        created_at: Some(Timestamp::new(1700000000, 5)),
        updated_at: Some(Timestamp::new(1700000009, 7)),
    }
}

#[test]
fn stored_products_come_back_as_they_went_in() {
    let req = request("2015-05-15T00:00:00+00:00");
    let new = req.to_model().unwrap();
    let response = CreateAssessmentV1Resp::from_model(&stored(new, 42)).unwrap();
    assert_eq!(response.id, 42);
    assert_eq!(response.patent_id, "US123");
    assert_eq!(response.company_name, "Acme");
    assert_eq!(response.analysis_date, "2015-05-15T00:00:00+00:00");
    assert_eq!(response.overall_risk_assessment, "some risk");
    assert_eq!(response.created_at, 1700000000);
    assert_eq!(response.updated_at, 1700000009);
    assert_eq!(response.top_infringing_products.len(), req.top_infringing_products.len());
    for (got, want) in response.top_infringing_products.iter().zip(&req.top_infringing_products) {
        assert!(same(got, want), "{:?} is not {:?}", got, want);
    }
}

#[test]
fn items_round_trip_through_json() {
    let items = request("x").top_infringing_products;
    let json = items_to_json(&items);
    let back = items_from_json(&json).unwrap();
    assert_eq!(back.len(), items.len());
    for (got, want) in back.iter().zip(&items) {
        assert!(same(got, want));
    }
    assert!(items_from_json(&items_to_json(&Vec::new())).unwrap().is_empty());
    let copies: Vec<AssessInfringementV1ProductItem> = items.iter().map(|i| i.clone()).collect();
    assert_eq!(items_to_json(&copies), json);
}

#[test]
fn item_as_json() {
    let json = item("Widget", &["1"], &[]).to_json();
    let want = Json::Object(vec![
        ("product_name".to_string(), Json::Text("Widget".to_string())),
        ("infringement_likelihood".to_string(), Json::Text("50.00%".to_string())),
        ("relevant_claims".to_string(), Json::Array(vec![Json::Text("1".to_string())])),
        ("explanation".to_string(), Json::Text("why Widget".to_string())),
        ("specific_features".to_string(), Json::Array(Vec::new())),
    ]);
    assert_eq!(json, want);
}

#[test]
fn item_from_json_needs_the_five_members() {
    let keys = [
        "product_name",
        "infringement_likelihood",
        "relevant_claims",
        "explanation",
        "specific_features",
    ];
    for missing in keys {
        let members: Vec<(String, Json)> = match item("Widget", &["1"], &["f"]).to_json() {
            Json::Object(members) => members.into_iter().filter(|(k, _)| k != missing).collect(),
            _ => unreachable!(),
        };
        assert!(AssessInfringementV1ProductItem::from_json(&Json::Object(members)).is_none());
    }
    assert!(AssessInfringementV1ProductItem::from_json(&Json::Null).is_none());
    let mut members = match item("Widget", &["1"], &["f"]).to_json() {
        Json::Object(members) => members,
        _ => unreachable!(),
    };
    members.reverse();
    members.push(("more".to_string(), Json::Bool(true)));
    let read = AssessInfringementV1ProductItem::from_json(&Json::Object(members)).unwrap();
    assert!(same(&read, &item("Widget", &["1"], &["f"])));
    assert!(items_from_json(&Json::Null).is_none());
    assert!(items_from_json(&Json::Array(vec![Json::Null])).is_none());
}

#[test]
fn to_model_reads_the_date() {
    let new = request("2015-05-15T02:00:00.25+02:00").to_model().unwrap();
    assert_eq!(new.analysis_date, Timestamp::new(1431648000, 250_000_000));
    assert_eq!(new.patent_id, "US123");
    assert_eq!(new.company_name, "Acme");
    assert_eq!(new.overall_risk_assessment, Some("some risk".to_string()));
    assert_eq!(new.created_at, None);
    assert_eq!(new.updated_at, None);
    assert_eq!(
        new.top_infringing_products,
        Some(items_to_json(&request("x").top_infringing_products))
    );
    let zulu = request("1970-01-01T00:00:00Z").to_model().unwrap();
    assert_eq!(zulu.analysis_date, Timestamp::new(0, 0));
    let before = request("1969-12-31T23:59:59Z").to_model().unwrap();
    assert_eq!(before.analysis_date, Timestamp::new(-1, 0));
}

#[test]
fn to_model_refuses_what_is_no_date() {
    for date in ["", "yesterday", "2015-05-15", "2015-05-15T00:00:00", "2015-13-15T00:00:00Z"] {
        let error = request(date).to_model().unwrap_err();
        assert_eq!(
            error,
            Error::Generic {
                description: "analysis_date is not an RFC 3339 date and time".to_string()
            }
        );
    }
}

#[test]
fn to_model_dated_takes_the_date_as_given() {
    let new = request("whatever").to_model_dated(Timestamp::new(12, 34));
    assert_eq!(new.analysis_date, Timestamp::new(12, 34));
    assert_eq!(new.company_name, "Acme");
}

#[test]
fn from_model_needs_a_complete_record() {
    let complete = || stored(request("2015-05-15T00:00:00Z").to_model().unwrap(), 1);
    assert!(CreateAssessmentV1Resp::from_model(&complete()).is_some());
    let mut model = complete();
    model.top_infringing_products = None;
    assert!(CreateAssessmentV1Resp::from_model(&model).is_none());
    let mut model = complete();
    model.top_infringing_products = Some(Json::Null);
    assert!(CreateAssessmentV1Resp::from_model(&model).is_none());
    let mut model = complete();
    model.overall_risk_assessment = None;
    assert!(CreateAssessmentV1Resp::from_model(&model).is_none());
    let mut model = complete();
    model.created_at = None;
    assert!(CreateAssessmentV1Resp::from_model(&model).is_none());
    let mut model = complete();
    model.updated_at = None;
    assert!(CreateAssessmentV1Resp::from_model(&model).is_none());
    let mut model = complete();
    model.analysis_date = Timestamp::new(i64::MIN, 0);
    assert!(CreateAssessmentV1Resp::from_model(&model).is_none());
    let dated =
        CreateAssessmentV1Resp::from_model_dated(&complete(), Some("a date".to_string())).unwrap();
    assert_eq!(dated.analysis_date, "a date");
    assert!(CreateAssessmentV1Resp::from_model_dated(&complete(), None).is_none());
}

#[test]
fn iso8601_writes_utc_with_its_offset() {
    assert_eq!(iso8601(&Timestamp::new(0, 0)), Some("1970-01-01T00:00:00+00:00".to_string()));
    assert_eq!(
        iso8601(&Timestamp::new(1431648000, 0)),
        Some("2015-05-15T00:00:00+00:00".to_string())
    );
    assert_eq!(
        iso8601(&Timestamp::new(1431648000, 500_000_000)),
        Some("2015-05-15T00:00:00.500+00:00".to_string())
    );
    assert_eq!(
        iso8601(&Timestamp::new(994552440, 26_490_000)),
        Some("2001-07-08T00:34:00.026490+00:00".to_string())
    );
    assert_eq!(iso8601(&Timestamp::new(-1, 1)), Some("1969-12-31T23:59:59.000000001+00:00".to_string()));
    assert_eq!(iso8601(&Timestamp::new(i64::MAX, 0)), None);
    assert_eq!(iso8601(&Timestamp::new(i64::MIN, 0)), None);
    assert_eq!(iso8601(&Timestamp::new(0, 2_000_000_000)), None);
    assert_eq!(Timestamp::new(5, 6).unix_timestamp(), 5);
}

#[test]
fn written_dates_are_read_back() {
    for at in [
        Timestamp::new(0, 0),
        Timestamp::new(1431648000, 0),
        Timestamp::new(1700000000, 123_456_789),
        Timestamp::new(-86400, 1000),
    ] {
        let text = iso8601(&at).unwrap();
        assert_eq!(request(&text).to_model().unwrap().analysis_date, at);
    }
}

#[test]
fn store_outcomes_are_answered() {
    let complete = stored(request("2015-05-15T00:00:00Z").to_model().unwrap(), 3);
    let found = get_assessment_v1(3, StoreOutcome::Stored(complete), "req-1".to_string()).unwrap();
    assert_eq!(found.id, 3);
    assert_eq!(found.top_infringing_products.len(), 3);

    let missing = get_assessment_v1(-17, StoreOutcome::Missing, "req-2".to_string()).unwrap_err();
    assert_eq!(
        missing.error,
        Error::DbRecordNoResult { source: "assessments".to_string(), id: "-17".to_string() }
    );
    assert_eq!(missing.req_id, "req-2");
    assert_eq!(missing.status_code(), 404);
    assert_eq!(missing.error.to_string(), "No record for id -17");

    let failed = get_assessment_v1(
        3,
        StoreOutcome::Failed { reason: "connection lost".to_string() },
        "req-3".to_string(),
    )
    .unwrap_err();
    assert_eq!(failed.error, Error::Generic { description: "connection lost".to_string() });
    assert_eq!(failed.req_id, "req-3");
    assert_eq!(failed.status_code(), 403);

    let mut incomplete = stored(request("2015-05-15T00:00:00Z").to_model().unwrap(), 3);
    incomplete.created_at = None;
    let broken =
        create_assessment_v1(StoreOutcome::Stored(incomplete), "req-4".to_string()).unwrap_err();
    assert_eq!(
        broken.error,
        Error::Internal { description: "stored assessment is incomplete".to_string() }
    );
    assert_eq!(broken.status_code(), 500);

    let created = create_assessment_v1(
        StoreOutcome::Stored(stored(request("2015-05-15T00:00:00Z").to_model().unwrap(), 9)),
        "req-5".to_string(),
    )
    .unwrap();
    assert_eq!(created.id, 9);
    assert_eq!(created.created_at, 1700000000);
}

#[test]
fn answer_is_assembled_from_findings() {
    let patent = Patent::new(
        1,
        "US123".to_string(),
        "T".to_string(),
        "A".to_string(),
        "D".to_string(),
        Vec::new(),
    );
    let company = Company::new(
        "Acme".to_string(),
        vec![Product::new("Widget".to_string(), "w".to_string())],
    );
    let findings = vec![ProductInfrigement::new(
        "US123".to_string(),
        "Widget".to_string(),
        Likelihood::new(2, 3),
        vec!["1".to_string(), "3".to_string()],
        "why".to_string(),
        vec!["f".to_string()],
    )];
    let response = AssessInfringementV1Resp::from_patent_company(
        &patent,
        &company,
        &findings,
        &"summary".to_string(),
        &Timestamp::new(0, 0),
    )
    .unwrap();
    assert_eq!(response.patent_id, "US123");
    assert_eq!(response.company_name, "Acme");
    assert_eq!(response.analysis_date, "1970-01-01T00:00:00+00:00");
    assert_eq!(response.overall_risk_assessment, "summary");
    assert_eq!(response.top_infringing_products.len(), 1);
    let want = AssessInfringementV1ProductItem::from_product_infringement_dto(&findings[0]);
    assert!(same(&response.top_infringing_products[0], &want));
    assert_eq!(want.infringement_likelihood, "66.67%");
    assert_eq!(want.relevant_claims, vec!["1", "3"]);
    assert!(AssessInfringementV1Resp::from_patent_company(
        &patent,
        &company,
        &findings,
        &"summary".to_string(),
        &Timestamp::new(i64::MAX, 0),
    )
    .is_none());
    let plain = AssessInfringementV1Resp::new(
        "p".to_string(),
        "c".to_string(),
        "d".to_string(),
        Vec::new(),
        "s".to_string(),
    );
    assert_eq!(plain.analysis_date, "d");
    let copy = response.top_infringing_products[0].clone();
    assert!(same(&copy, &want));
    let resp = CreateAssessmentV1Resp::new(
        1,
        "p".to_string(),
        "c".to_string(),
        "d".to_string(),
        Vec::new(),
        "s".to_string(),
        2,
        3,
    );
    assert_eq!((resp.id, resp.created_at, resp.updated_at), (1, 2, 3));
}
