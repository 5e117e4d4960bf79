use patent_backend::company::{Company, Product};
use patent_backend::errors::Error;
use patent_backend::gpt_groq::{ChatMessage, Groq, GroqConfig, LlmEvent};
use patent_backend::infrigement::ProductInfrigement;
use patent_backend::json::Json;
use patent_backend::likelihood::Likelihood;
use patent_backend::patent::{Patent, PatentClam};

fn patent() -> Patent {
    Patent::new(
        1,
        "US123".to_string(),
        "Wheel".to_string(),
        "round things".to_string(),
        "A wheel that turns".to_string(),
        vec![
            PatentClam::new("1".to_string(), "A wheel".to_string()),
            PatentClam::new("2".to_string(), "An axle".to_string()),
        ],
    )
}

fn product() -> Product {
    Product::new("Widget".to_string(), "a cart".to_string())
}

fn client_error(source: &str) -> Error {
    Error::ClientReqError { source: source.to_string() }
}

#[test]
fn product_request_words_both_messages() {
    let request = Groq::product_request(&patent(), &product());
    assert_eq!(request.model, "llama3-8b-8192");
    assert_eq!(request.temperature, 0);
    assert_eq!(request.messages.len(), 2);
    assert_eq!(request.messages[0].role, "system");
    assert_eq!(
        request.messages[0].content,
        "You are a professional patent attorney. You have been asked to assess whether the product 'Widget' infringes on the patent 'US123'. Please provide a detailed explanation of your assessment."
    );
    assert_eq!(request.messages[1].role, "user");
    assert_eq!(
        request.messages[1].content,
        "These are sources for you to assess.\n\nThe patent 'Wheel' is about round things. Description: A wheel that turns, Claims: [A wheel, An axle]\n\nThe product 'Widget' is about a cart. I want you to reply strictly formatted like this:\n\nrelevant_claims: claim1_number, claim2_number, claim3_number\nexplanation: explanation\nspecific_features: feature1, feature2, feature3"
    );
}

#[test]
fn summary_request_joins_the_findings_with_semicolons() {
    let company = Company::new("Acme".to_string(), vec![product()]);
    let findings = vec![
        ProductInfrigement::new(
            "US123".to_string(),
            "Widget".to_string(),
            Likelihood::new(2, 2),
            vec!["1".to_string(), "2".to_string()],
            "all of it".to_string(),
            vec!["wheel".to_string()],
        ),
        ProductInfrigement::new(
            "US123".to_string(),
            "Gadget".to_string(),
            Likelihood::new(1, 2),
            vec!["1".to_string()],
            "half of it".to_string(),
            Vec::new(),
        ),
    ];
    let request = Groq::summary_request(&patent(), &company, &findings);
    assert_eq!(request.model, "llama3-8b-8192");
    assert_eq!(request.temperature, 0);
    assert_eq!(request.messages.len(), 2);
    assert_eq!(request.messages[0].role, "system");
    assert_eq!(
        request.messages[0].content,
        "You are a professional patent attorney. You have been asked to summarize the assessment of whether the company 'Acme' infringes on the patent 'US123'. Please provide a detailed explanation of your assessment."
    );
    assert_eq!(request.messages[1].role, "user");
    assert_eq!(
        request.messages[1].content,
        "These are sources for you to summarize.\n\nProduct 'Widget' infringes patent 'US123'. Likelihood: 100.00%. Relevant claims: [1, 2], Explanation: all of it, Specific features: [wheel]; Product 'Gadget' infringes patent 'US123'. Likelihood: 50.00%. Relevant claims: [1], Explanation: half of it, Specific features: []\n\nGive a summary of the assessment."
    );
    assert_eq!(Groq::finding_lines(&findings).len(), 2);
}

#[test]
fn base_body_has_the_model_and_no_message() {
    let body = Groq::base_body();
    assert_eq!(body.model, "llama3-8b-8192");
    assert_eq!(body.temperature, 0);
    assert!(body.messages.is_empty());
}

#[test]
fn base_headers_carry_the_key() {
    let groq = Groq::from_config(GroqConfig { api_key: "k-1".to_string() });
    assert_eq!(
        groq.base_headers(),
        vec![
            ("Authorization".to_string(), "Bearer k-1".to_string()),
            ("Content-Type".to_string(), "application/json".to_string()),
        ]
    );
    assert_eq!(Groq::new(String::new()).base_headers()[0].1, "Bearer ");
    assert_eq!(Groq::endpoint(), "https://api.groq.com/openai/v1/chat/completions");
}

#[test]
fn request_as_json() {
    let mut request = Groq::base_body();
    request.messages.push(ChatMessage::new("user".to_string(), "hello".to_string()));
    let want = Json::Object(vec![
        ("model".to_string(), Json::Text("llama3-8b-8192".to_string())),
        ("temperature".to_string(), Json::Number(Some(0))),
        (
            "messages".to_string(),
            Json::Array(vec![Json::Object(vec![
                ("role".to_string(), Json::Text("user".to_string())),
                ("content".to_string(), Json::Text("hello".to_string())),
            ])]),
        ),
    ]);
    assert_eq!(request.to_json(), want);
}

#[test]
fn reply_content_is_the_content_of_the_first_choice() {
    let body = "{\"id\":\"x\",\"choices\":[{\"index\":0,\"message\":{\"role\":\"assistant\",\"content\":\"first\"}},{\"message\":{\"content\":\"second\"}}]}";
    assert_eq!(Groq::read_reply(200, body), Ok("first".to_string()));
    assert_eq!(Groq::read_reply(201, body), Ok("first".to_string()));
    assert_eq!(Groq::read_reply(299, body), Ok("first".to_string()));
}

#[test]
fn reply_with_escapes_is_decoded() {
    let body = "{\"choices\":[{\"message\":{\"content\":\"relevant_claims: 1\\nexplanation: \\\"quoted\\\" \\u00e9\"}}]}";
    assert_eq!(
        Groq::read_reply(200, body),
        Ok("relevant_claims: 1\nexplanation: \"quoted\" \u{e9}".to_string())
    );
}

#[test]
fn reply_with_another_status_is_an_error() {
    let body = "{\"choices\":[{\"message\":{\"content\":\"first\"}}]}";
    assert_eq!(Groq::read_reply(199, body), Err(client_error("unexpected status 199")));
    assert_eq!(Groq::read_reply(300, body), Err(client_error("unexpected status 300")));
    assert_eq!(Groq::read_reply(404, body), Err(client_error("unexpected status 404")));
    assert_eq!(Groq::read_reply(500, "not json"), Err(client_error("unexpected status 500")));
    assert_eq!(Groq::read_reply(0, body), Err(client_error("unexpected status 0")));
}

#[test]
fn reply_that_is_not_json_is_an_error() {
    assert_eq!(Groq::read_reply(200, "not json"), Err(client_error("response is not JSON")));
    assert_eq!(Groq::read_reply(200, ""), Err(client_error("response is not JSON")));
    assert_eq!(Groq::read_reply(200, "{\"choices\":"), Err(client_error("response is not JSON")));
}

#[test]
fn reply_without_content_is_an_error() {
    for body in [
        "{}",
        "[]",
        "null",
        "{\"choices\":[]}",
        "{\"choices\":{}}",
        "{\"choices\":[{}]}",
        "{\"choices\":[{\"message\":{}}]}",
        "{\"choices\":[{\"message\":{\"content\":null}}]}",
        "{\"choices\":[{\"message\":{\"content\":5}}]}",
        "{\"choices\":[{\"message\":\"content\"}]}",
        "{\"choices\":[[],{\"message\":{\"content\":\"second\"}}]}",
    ] {
        assert_eq!(Groq::read_reply(200, body), Err(client_error("response_str is None")), "{}", body);
    }
}

#[test]
fn reply_of_takes_the_parsed_body_as_it_is() {
    let parsed = Json::Object(vec![(
        "choices".to_string(),
        Json::Array(vec![Json::Object(vec![(
            "message".to_string(),
            Json::Object(vec![("content".to_string(), Json::Text("hi".to_string()))]),
        )])]),
    )]);
    assert_eq!(Groq::reply_content(&parsed), Some("hi".to_string()));
    assert_eq!(Groq::reply_of(200, Some(parsed)), Ok("hi".to_string()));
    assert_eq!(Groq::reply_of(200, None), Err(client_error("response is not JSON")));
    assert_eq!(Groq::reply_of(200, Some(Json::Null)), Err(client_error("response_str is None")));
    assert_eq!(Groq::reply_of(503, None), Err(client_error("unexpected status 503")));
}

#[test]
fn event_outcomes() {
    let ok = LlmEvent::Response {
        status: 200,
        body: "{\"choices\":[{\"message\":{\"content\":\"hi\"}}]}".to_string(),
    };
    assert_eq!(ok.outcome(), Ok("hi".to_string()));
    let failure = LlmEvent::Failure { reason: "dns".to_string() };
    assert_eq!(failure.outcome(), Err(client_error("dns")));
}

#[test]
fn product_finding_reads_a_reply_and_hands_an_error_on() {
    let finding = Groq::product_finding(&patent(), &product(), Ok("relevant_claims: 2".to_string()))
        .unwrap();
    assert_eq!(finding.product_name, "Widget");
    assert_eq!(finding.patent_pub_id, "US123");
    assert_eq!(finding.relevant_claims, vec!["2"]);
    assert_eq!(finding.infringement_likelihood.percent(), "50.00%");
    let error = Groq::product_finding(&patent(), &product(), Err(client_error("dns"))).unwrap_err();
    assert_eq!(error, client_error("dns"));
}

#[test]
fn message_as_json() {
    let message = ChatMessage::new("system".to_string(), "be brief".to_string());
    assert_eq!(
        message.to_json(),
        Json::Object(vec![
            ("role".to_string(), Json::Text("system".to_string())),
            ("content".to_string(), Json::Text("be brief".to_string())),
        ])
    );
}

fn reply_event(content: &str) -> LlmEvent {
    LlmEvent::Response {
        status: 200,
        body: format!("{{\"choices\":[{{\"message\":{{\"content\":\"{}\"}}}}]}}", content),
    }
}

#[test]
fn assess_product_reads_what_came_of_the_request() {
    let finding =
        Groq::assess_product_v1(&patent(), &product(), &reply_event("relevant_claims: 1")).unwrap();
    assert_eq!(finding.product_name, "Widget");
    assert_eq!(finding.relevant_claims, vec!["1"]);
    let error = Groq::assess_product_v1(
        &patent(),
        &product(),
        &LlmEvent::Failure { reason: "refused".to_string() },
    )
    .unwrap_err();
    assert_eq!(error, client_error("refused"));
    let error = Groq::assess_product_v1(
        &patent(),
        &product(),
        &LlmEvent::Response { status: 429, body: String::new() },
    )
    .unwrap_err();
    assert_eq!(error, client_error("unexpected status 429"));
}

#[test]
fn assess_company_passes_failed_products_over() {
    let company = Company::new(
        "Acme".to_string(),
        vec![
            Product::new("One".to_string(), "1".to_string()),
            Product::new("Two".to_string(), "2".to_string()),
            Product::new("Three".to_string(), "3".to_string()),
        ],
    );
    let events = vec![
        reply_event("relevant_claims: 1"),
        LlmEvent::Failure { reason: "refused".to_string() },
        reply_event("relevant_claims: 1, 2"),
    ];
    let findings = Groq::assess_company_v1(&patent(), &company, &events);
    let names: Vec<&str> = findings.iter().map(|f| f.product_name.as_str()).collect();
    assert_eq!(names, vec!["One", "Three"]);
    assert_eq!(findings[0].infringement_likelihood.percent(), "50.00%");
    assert_eq!(findings[1].infringement_likelihood.percent(), "100.00%");
    assert!(Groq::assess_company_v1(&patent(), &company, &Vec::new()).is_empty());
    let more = vec![
        reply_event("x"),
        reply_event("x"),
        reply_event("x"),
        reply_event("relevant_claims: 1"),
    ];
    assert_eq!(Groq::assess_company_v1(&patent(), &company, &more).len(), 3);
}

#[test]
fn collect_findings_takes_the_outcomes_as_they_are() {
    let company = Company::new(
        "Acme".to_string(),
        vec![
            Product::new("One".to_string(), "1".to_string()),
            Product::new("Two".to_string(), "2".to_string()),
        ],
    );
    let findings = Groq::collect_findings(
        &patent(),
        &company,
        vec![Err(client_error("x")), Ok("specific_features: a".to_string())],
    );
    assert_eq!(findings.len(), 1);
    assert_eq!(findings[0].product_name, "Two");
    assert_eq!(findings[0].specific_features, vec!["a"]);
}
