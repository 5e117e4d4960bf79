//! What is asked of the language model, and how its answer is read.
//!
//! The library words the requests and reads the answers; sending a request
//! is left to the caller.

use crate::company::{Company, CompanyView, Product, ProductView};
use crate::errors::{Error, ErrorView};
use crate::infrigement::{finding_of_reply, FindingView, ProductInfrigement};
use crate::json::{
    items_view, json_of_text, members_view, option_json, parse_json, push_item, push_member,
    Json, JsonValue,
};
use crate::patent::{Patent, PatentView};
use crate::text::{decimal, join, join_strings, push_decimal, texts};
use vstd::prelude::*;
use vstd::string::*;

verus! {

/// The key that the language model is called with.
#[derive(Debug)]
pub struct GroqConfig {
    pub api_key: String,
}

/// The caller's side of the language model.
pub struct Groq {
    api_key: String,
}

/// One message of a conversation: who says it, and what.
#[derive(Debug)]
pub struct ChatMessage {
    pub role: String,
    pub content: String,
}

/// What a message holds.
pub struct MessageView {
    pub role: Seq<char>,
    pub content: Seq<char>,
}

impl View for ChatMessage {
    type V = MessageView;

    open spec fn view(&self) -> MessageView {
        MessageView { role: self.role@, content: self.content@ }
    }
}

impl DeepView for ChatMessage {
    type V = MessageView;

    open spec fn deep_view(&self) -> MessageView {
        self@
    }
}

/// A request for a completion: the model, the sampling temperature and the
/// conversation so far.
#[derive(Debug)]
pub struct ChatRequest {
    pub model: String,
    pub temperature: u32,
    pub messages: Vec<ChatMessage>,
}

/// What a request holds.
pub struct RequestView {
    pub model: Seq<char>,
    pub temperature: int,
    pub messages: Seq<MessageView>,
}

impl View for ChatRequest {
    type V = RequestView;

    open spec fn view(&self) -> RequestView {
        RequestView {
            model: self.model@,
            temperature: self.temperature as int,
            messages: self.messages.deep_view(),
        }
    }
}

impl DeepView for ChatRequest {
    type V = RequestView;

    open spec fn deep_view(&self) -> RequestView {
        self@
    }
}

/// The request with the model and the temperature that every request has:
/// the model `llama3-8b-8192` at temperature 0, so that the same question
/// gets the same answer.
pub open spec fn request_of(messages: Seq<MessageView>) -> RequestView {
    RequestView { model: "llama3-8b-8192"@, temperature: 0, messages }
}

/// What the language model is told it is, before it is asked about a
/// product.
pub open spec fn product_system_text(patent: PatentView, product: ProductView) -> Seq<char> {
    "You are a professional patent attorney. You have been asked to assess whether the product '"@
        + product.name + "' infringes on the patent '"@ + patent.publication_number
        + "'. Please provide a detailed explanation of your assessment."@
}

/// What the language model is asked about a product: the patent, the
/// product, and the three lines that the reply is to have.
pub open spec fn product_user_text(patent: PatentView, product: ProductView) -> Seq<char> {
    "These are sources for you to assess.\n\n"@ + patent.prompt_text() + "\n\n"@
        + product.prompt_text()
        + ". I want you to reply strictly formatted like this:\n\nrelevant_claims: claim1_number, claim2_number, claim3_number\nexplanation: explanation\nspecific_features: feature1, feature2, feature3"@
}

/// The request about one product.
pub open spec fn product_request(patent: PatentView, product: ProductView) -> RequestView {
    request_of(
        seq![
            MessageView { role: "system"@, content: product_system_text(patent, product) },
            MessageView { role: "user"@, content: product_user_text(patent, product) },
        ],
    )
}

/// Each finding on one line.
pub open spec fn finding_lines(findings: Seq<FindingView>) -> Seq<Seq<char>> {
    Seq::new(findings.len(), |i: int| findings[i].line())
}

/// What the language model is told it is, before it is asked for a summary.
pub open spec fn summary_system_text(patent: PatentView, company: CompanyView) -> Seq<char> {
    "You are a professional patent attorney. You have been asked to summarize the assessment of whether the company '"@
        + company.name + "' infringes on the patent '"@ + patent.publication_number
        + "'. Please provide a detailed explanation of your assessment."@
}

/// What the language model is asked for a summary: the findings, each on one
/// line, joined by semicolons.
pub open spec fn summary_user_text(findings: Seq<FindingView>) -> Seq<char> {
    "These are sources for you to summarize.\n\n"@ + join(finding_lines(findings), "; "@)
        + "\n\nGive a summary of the assessment."@
}

/// The request for the summary of `findings`.
pub open spec fn summary_request(
    patent: PatentView,
    company: CompanyView,
    findings: Seq<FindingView>,
) -> RequestView {
    request_of(
        seq![
            MessageView { role: "system"@, content: summary_system_text(patent, company) },
            MessageView { role: "user"@, content: summary_user_text(findings) },
        ],
    )
}

/// The text that an answer of the language model holds: the text under
/// `content` of the object under `message` of the first of its `choices`.
pub open spec fn reply_content(response: JsonValue) -> Option<Seq<char>> {
    match response.items_member("choices"@) {
        Some(choices) => if choices.len() > 0 {
            match choices[0].member("message"@) {
                Some(message) => message.text_member("content"@),
                None => None,
            }
        } else {
            None
        },
        None => None,
    }
}

/// What comes of an answer with the HTTP status `status` whose body holds
/// `parsed` as JSON: its text, where the status is one of success and the
/// body holds one; an error of the client otherwise.
pub open spec fn reply_outcome(status: int, parsed: Option<JsonValue>) -> Result<
    Seq<char>,
    ErrorView,
> {
    if !(200 <= status < 300) {
        Err(ErrorView::ClientReqError { source: "unexpected status "@ + decimal(status as nat) })
    } else {
        match parsed {
            None => Err(ErrorView::ClientReqError { source: "response is not JSON"@ }),
            Some(json) => match reply_content(json) {
                Some(content) => Ok(content),
                None => Err(ErrorView::ClientReqError { source: "response_str is None"@ }),
            },
        }
    }
}

/// What holds of a text or an error.
pub open spec fn outcome_view(outcome: Result<String, Error>) -> Result<Seq<char>, ErrorView> {
    match outcome {
        Ok(text) => Ok(text@),
        Err(error) => Err(error@),
    }
}

/// The JSON object of `message`: who says it under `role` and what under
/// `content`.
pub open spec fn message_json(message: MessageView) -> JsonValue {
    JsonValue::Object(
        seq![
            ("role"@, JsonValue::Text(message.role)),
            ("content"@, JsonValue::Text(message.content)),
        ],
    )
}

/// The JSON object of each of `messages`, in order.
pub open spec fn message_jsons(messages: Seq<MessageView>) -> Seq<JsonValue> {
    Seq::new(messages.len(), |i: int| message_json(messages[i]))
}

/// The JSON object of `request`, as the language model takes it: the model
/// under `model`, the temperature under `temperature` and the messages
/// under `messages`.
pub open spec fn request_json(request: RequestView) -> JsonValue {
    JsonValue::Object(
        seq![
            ("model"@, JsonValue::Text(request.model)),
            ("temperature"@, JsonValue::Number(Some(request.temperature))),
            ("messages"@, JsonValue::Array(message_jsons(request.messages))),
        ],
    )
}

/// The findings after the request about the product at position `next`
/// came to `outcome`: one more where a reply came, the same where it failed.
pub open spec fn findings_after(
    patent: PatentView,
    company: CompanyView,
    next: int,
    findings: Seq<FindingView>,
    outcome: Result<Seq<char>, ErrorView>,
) -> Seq<FindingView> {
    match outcome {
        Ok(reply) => if 0 <= next < company.products.len() {
            findings.push(finding_of_reply(patent, company.products[next], reply))
        } else {
            findings
        },
        Err(_) => findings,
    }
}

/// The findings after the requests about the products from position `next`
/// on came to `outcomes`, one after the other.
pub open spec fn findings_through(
    patent: PatentView,
    company: CompanyView,
    next: int,
    findings: Seq<FindingView>,
    outcomes: Seq<Result<Seq<char>, ErrorView>>,
) -> Seq<FindingView>
    decreases outcomes.len(),
{
    if outcomes.len() == 0 {
        findings
    } else {
        findings_through(
            patent,
            company,
            next + 1,
            findings_after(patent, company, next, findings, outcomes[0]),
            outcomes.drop_first(),
        )
    }
}

/// What holds of each of `outcomes`.
pub open spec fn outcome_views(outcomes: Seq<Result<String, Error>>) -> Seq<
    Result<Seq<char>, ErrorView>,
> {
    Seq::new(outcomes.len(), |i: int| outcome_view(outcomes[i]))
}

/// What each of `events` comes to.
pub open spec fn event_outcomes(events: Seq<EventView>) -> Seq<Result<Seq<char>, ErrorView>> {
    Seq::new(events.len(), |i: int| events[i].outcome())
}

/// One more outcome at the end is one more request about the product
/// behind those that the outcomes before it were about.
pub proof fn lemma_findings_through_one_more(
    patent: PatentView,
    company: CompanyView,
    next: int,
    findings: Seq<FindingView>,
    outcomes: Seq<Result<Seq<char>, ErrorView>>,
    last: Result<Seq<char>, ErrorView>,
)
    ensures
        findings_through(patent, company, next, findings, outcomes.push(last)) == findings_after(
            patent,
            company,
            next + outcomes.len(),
            findings_through(patent, company, next, findings, outcomes),
            last,
        ),
    decreases outcomes.len(),
{
    let longer = outcomes.push(last);
    if outcomes.len() == 0 {
        assert(longer.drop_first() =~= Seq::<Result<Seq<char>, ErrorView>>::empty());
        assert(longer[0] == last);
        let found = findings_after(patent, company, next, findings, last);
        assert(findings_through(patent, company, next + 1, found, longer.drop_first()) == found);
    } else {
        assert(longer[0] == outcomes[0]);
        assert(longer.drop_first() =~= outcomes.drop_first().push(last));
        lemma_findings_through_one_more(
            patent,
            company,
            next + 1,
            findings_after(patent, company, next, findings, outcomes[0]),
            outcomes.drop_first(),
            last,
        );
    }
}

/// What happened to a request to the language model.
#[derive(Debug)]
pub enum LlmEvent {
    /// An answer came: its HTTP status and its body.
    Response { status: u16, body: String },
    /// No answer came.
    Failure { reason: String },
}

/// What holds of what happened to a request.
pub enum EventView {
    Response { status: int, body: Seq<char> },
    Failure { reason: Seq<char> },
}

impl View for LlmEvent {
    type V = EventView;

    open spec fn view(&self) -> EventView {
        match *self {
            LlmEvent::Response { status, body } => EventView::Response {
                status: status as int,
                body: body@,
            },
            LlmEvent::Failure { reason } => EventView::Failure { reason: reason@ },
        }
    }
}

impl DeepView for LlmEvent {
    type V = EventView;

    open spec fn deep_view(&self) -> EventView {
        self@
    }
}

impl EventView {
    /// What comes of the event: the text of the answer, or an error of the
    /// client.
    pub open spec fn outcome(self) -> Result<Seq<char>, ErrorView> {
        match self {
            EventView::Response { status, body } => reply_outcome(status, json_of_text(body)),
            EventView::Failure { reason } => Err(ErrorView::ClientReqError { source: reason }),
        }
    }
}

impl LlmEvent {
    /// What comes of the event.
    pub fn outcome(&self) -> (out: Result<String, Error>)
        ensures
            outcome_view(out) == self@.outcome(),
    {
        match self {
            LlmEvent::Response { status, body } => Groq::read_reply(*status, body.as_str()),
            LlmEvent::Failure { reason } => Err(Error::ClientReqError { source: reason.clone() }),
        }
    }
}

impl ChatMessage {
    pub fn new(role: String, content: String) -> (out: Self)
        ensures
            out@ == (MessageView { role: role@, content: content@ }),
    {
        Self { role, content }
    }

    /// The JSON object of the message.
    pub fn to_json(&self) -> (out: Json)
        ensures
            out@ == message_json(self@),
    {
        let mut members: Vec<(String, Json)> = Vec::new();
        proof {
            assert(members_view(members@) =~= Seq::empty());
        }
        push_member(&mut members, "role", Json::text(self.role.clone()));
        push_member(&mut members, "content", Json::text(self.content.clone()));
        proof {
            assert(members_view(members@) =~= seq![
                ("role"@, JsonValue::Text(self.role@)),
                ("content"@, JsonValue::Text(self.content@)),
            ]);
        }
        Json::object(members)
    }
}

impl ChatRequest {
    /// The JSON object of the request, as the language model takes it.
    pub fn to_json(&self) -> (out: Json)
        ensures
            out@ == request_json(self@),
    {
        let ghost wanted = message_jsons(self.messages.deep_view());
        let mut objects: Vec<Json> = Vec::new();
        let mut i: usize = 0;
        proof {
            assert(items_view(objects@) =~= wanted.take(0));
        }
        while i < self.messages.len()
            invariant
                i <= self.messages.len(),
                wanted == message_jsons(self.messages.deep_view()),
                items_view(objects@) == wanted.take(i as int),
            decreases self.messages.len() - i,
        {
            push_item(&mut objects, self.messages[i].to_json());
            proof {
                assert(wanted.take(i + 1) =~= wanted.take(i as int).push(wanted[i as int]));
            }
            i += 1;
        }
        proof {
            assert(wanted.take(self.messages.len() as int) =~= wanted);
        }
        let messages = Json::array(objects);
        let mut members: Vec<(String, Json)> = Vec::new();
        proof {
            assert(members_view(members@) =~= Seq::empty());
        }
        push_member(&mut members, "model", Json::text(self.model.clone()));
        push_member(&mut members, "temperature", Json::integer(self.temperature as i64));
        push_member(&mut members, "messages", messages);
        proof {
            assert(members_view(members@) =~= seq![
                ("model"@, JsonValue::Text(self.model@)),
                ("temperature"@, JsonValue::Number(Some(self.temperature as int))),
                ("messages"@, JsonValue::Array(wanted)),
            ]);
        }
        Json::object(members)
    }
}

impl Groq {
    /// The key that the language model is called with.
    pub closed spec fn key(&self) -> Seq<char> {
        self.api_key@
    }

    pub fn new(api_key: String) -> (out: Self)
        ensures
            out.key() == api_key@,
    {
        Self { api_key }
    }

    pub fn from_config(config: GroqConfig) -> (out: Self)
        ensures
            out.key() == config.api_key@,
    {
        Self::new(config.api_key)
    }

    /// Where requests are sent.
    pub fn endpoint() -> (out: String)
        ensures
            out@ == "https://api.groq.com/openai/v1/chat/completions"@,
    {
        String::from_str("https://api.groq.com/openai/v1/chat/completions")
    }

    /// The headers that every request carries, each a name and a value: the
    /// key as a bearer token, and the content type of JSON.
    pub fn base_headers(&self) -> (out: Vec<(String, String)>)
        ensures
            out@.len() == 2,
            out@[0].0@ == "Authorization"@,
            out@[0].1@ == "Bearer "@ + self.key(),
            out@[1].0@ == "Content-Type"@,
            out@[1].1@ == "application/json"@,
    {
        let mut bearer = String::from_str("Bearer ");
        bearer.append(self.api_key.as_str());
        let mut out: Vec<(String, String)> = Vec::new();
        out.push((String::from_str("Authorization"), bearer));
        out.push((String::from_str("Content-Type"), String::from_str("application/json")));
        out
    }

    /// The request that every request starts from: the model and the
    /// temperature, and no message yet.
    pub fn base_body() -> (out: ChatRequest)
        ensures
            out@ == request_of(Seq::empty()),
    {
        let out = ChatRequest {
            model: String::from_str("llama3-8b-8192"),
            temperature: 0,
            messages: Vec::new(),
        };
        proof {
            assert(out.messages.deep_view() =~= Seq::<MessageView>::empty());
        }
        out
    }

    /// The request with the two messages `system` and `user`.
    fn two_messages(system: String, user: String) -> (out: ChatRequest)
        ensures
            out@ == request_of(
                seq![
                    MessageView { role: "system"@, content: system@ },
                    MessageView { role: "user"@, content: user@ },
                ],
            ),
    {
        let mut body = Self::base_body();
        let first = ChatMessage::new(String::from_str("system"), system);
        let second = ChatMessage::new(String::from_str("user"), user);
        let mut messages: Vec<ChatMessage> = Vec::new();
        messages.push(first);
        messages.push(second);
        body.messages = messages;
        proof {
            assert(body.messages@.len() == 2);
            assert(body.messages@[0]@ == (MessageView { role: "system"@, content: system@ }));
            assert(body.messages@[1]@ == (MessageView { role: "user"@, content: user@ }));
            assert(body.messages.deep_view() =~= seq![
                MessageView { role: "system"@, content: system@ },
                MessageView { role: "user"@, content: user@ },
            ]);
        }
        body
    }

    /// The request about one product.
    pub fn product_request(patent: &Patent, product: &Product) -> (out: ChatRequest)
        ensures
            out@ == product_request(patent@, product@),
    {
        let mut system = String::from_str(
            "You are a professional patent attorney. You have been asked to assess whether the product '",
        );
        system.append(product.name.as_str());
        system.append("' infringes on the patent '");
        system.append(patent.publication_number.as_str());
        system.append("'. Please provide a detailed explanation of your assessment.");
        let mut user = String::from_str("These are sources for you to assess.\n\n");
        user.append(patent.str_for_gpt().as_str());
        user.append("\n\n");
        user.append(product.str_for_gpt().as_str());
        user.append(
            ". I want you to reply strictly formatted like this:\n\nrelevant_claims: claim1_number, claim2_number, claim3_number\nexplanation: explanation\nspecific_features: feature1, feature2, feature3",
        );
        proof {
            assert(system@ =~= product_system_text(patent@, product@));
            assert(user@ =~= product_user_text(patent@, product@));
        }
        Self::two_messages(system, user)
    }

    /// Each finding on one line.
    pub fn finding_lines(infringements: &Vec<ProductInfrigement>) -> (out: Vec<String>)
        ensures
            texts(out@) == finding_lines(infringements.deep_view()),
    {
        let ghost wanted = finding_lines(infringements.deep_view());
        let mut out: Vec<String> = Vec::new();
        let mut i: usize = 0;
        while i < infringements.len()
            invariant
                i <= infringements.len(),
                wanted == finding_lines(infringements.deep_view()),
                texts(out@) == wanted.take(i as int),
            decreases infringements.len() - i,
        {
            let ghost before = texts(out@);
            out.push(infringements[i].to_string());
            proof {
                assert(texts(out@) =~= before.push(wanted[i as int]));
                assert(wanted.take(i + 1) =~= wanted.take(i as int).push(wanted[i as int]));
            }
            i += 1;
        }
        proof {
            assert(wanted.take(infringements.len() as int) =~= wanted);
        }
        out
    }

    /// The request for the summary of `infringements`.
    pub fn summary_request(
        patent: &Patent,
        company: &Company,
        infringements: &Vec<ProductInfrigement>,
    ) -> (out: ChatRequest)
        ensures
            out@ == summary_request(patent@, company@, infringements.deep_view()),
    {
        let infrigements_str = join_strings(&Self::finding_lines(infringements), "; ");
        let mut system = String::from_str(
            "You are a professional patent attorney. You have been asked to summarize the assessment of whether the company '",
        );
        system.append(company.name.as_str());
        system.append("' infringes on the patent '");
        system.append(patent.publication_number.as_str());
        system.append("'. Please provide a detailed explanation of your assessment.");
        let mut user = String::from_str("These are sources for you to summarize.\n\n");
        user.append(infrigements_str.as_str());
        user.append("\n\nGive a summary of the assessment.");
        proof {
            assert(system@ =~= summary_system_text(patent@, company@));
            assert(user@ =~= summary_user_text(infringements.deep_view()));
        }
        Self::two_messages(system, user)
    }

    /// The text that an answer of the language model holds.
    pub fn reply_content(response: &Json) -> (out: Option<String>)
        ensures
            match out {
                Some(content) => reply_content(response@) == Some(content@),
                None => reply_content(response@) is None,
            },
    {
        let choices = match response.get_array("choices") {
            Some(choices) => choices,
            None => {
                return None;
            },
        };
        if choices.len() == 0 {
            return None;
        }
        let message = match choices[0].get("message") {
            Some(message) => message,
            None => {
                return None;
            },
        };
        match message.get_str("content") {
            Some(content) => Some(content.to_owned()),
            None => None,
        }
    }

    /// What comes of an answer with the HTTP status `status` whose body
    /// holds `parsed` as JSON.
    pub fn reply_of(status: u16, parsed: Option<Json>) -> (out: Result<String, Error>)
        ensures
            outcome_view(out) == reply_outcome(status as int, option_json(parsed)),
    {
        if status < 200 || status >= 300 {
            let mut source = String::from_str("unexpected status ");
            push_decimal(&mut source, status as u128);
            return Err(Error::ClientReqError { source });
        }
        match parsed {
            None => Err(Error::ClientReqError { source: String::from_str("response is not JSON") }),
            Some(json) => match Self::reply_content(&json) {
                Some(content) => Ok(content),
                None => Err(
                    Error::ClientReqError { source: String::from_str("response_str is None") },
                ),
            },
        }
    }

    /// What the request about `product` and `patent` comes to: the finding
    /// that the reply gives, or the error of the request.
    pub fn product_finding(
        patent: &Patent,
        product: &Product,
        outcome: Result<String, Error>,
    ) -> (out: Result<ProductInfrigement, Error>)
        ensures
            match outcome {
                Ok(reply) => out is Ok && out->Ok_0@ == finding_of_reply(
                    patent@,
                    product@,
                    reply@,
                ),
                Err(error) => out is Err && out->Err_0@ == error@,
            },
    {
        match outcome {
            Ok(reply) => Ok(ProductInfrigement::from_gpt_response(patent, product, reply)),
            Err(error) => Err(error),
        }
    }

    /// What the request about `product` and `patent` came to.
    pub fn assess_product_v1(patent: &Patent, product: &Product, event: &LlmEvent) -> (out: Result<
        ProductInfrigement,
        Error,
    >)
        ensures
            match event@.outcome() {
                Ok(reply) => out is Ok && out->Ok_0@ == finding_of_reply(patent@, product@, reply),
                Err(error) => out is Err && out->Err_0@ == error,
            },
    {
        Self::product_finding(patent, product, event.outcome())
    }

    /// The findings about the products of `company`, where `outcomes`
    /// holds, for each product in order, what the request about it came to.
    /// A product whose request failed is passed over.
    pub fn collect_findings(
        patent: &Patent,
        company: &Company,
        outcomes: Vec<Result<String, Error>>,
    ) -> (out: Vec<ProductInfrigement>)
        ensures
            out.deep_view() == findings_through(
                patent@,
                company@,
                0,
                Seq::empty(),
                outcome_views(outcomes@),
            ),
    {
        let ghost all = outcome_views(outcomes@);
        let count = outcomes.len();
        let mut infringements: Vec<ProductInfrigement> = Vec::new();
        let mut i: usize = 0;
        proof {
            assert(all.take(0) =~= Seq::<Result<Seq<char>, ErrorView>>::empty());
            assert(infringements.deep_view() =~= Seq::<FindingView>::empty());
        }
        for outcome in iter: outcomes
            invariant
                i == iter.index(),
                count == iter.seq().len(),
                all == outcome_views(iter.seq()),
                infringements.deep_view() == findings_through(
                    patent@,
                    company@,
                    0,
                    Seq::empty(),
                    all.take(i as int),
                ),
        {
            proof {
                lemma_findings_through_one_more(
                    patent@,
                    company@,
                    0,
                    Seq::empty(),
                    all.take(i as int),
                    all[i as int],
                );
                assert(all.take(i + 1) =~= all.take(i as int).push(all[i as int]));
            }
            let ghost before = infringements.deep_view();
            if i < company.products.len() {
                proof {
                    assert(company@.products[i as int] == company.products@[i as int]@);
                }
                match Self::product_finding(patent, &company.products[i], outcome) {
                    Ok(finding) => {
                        let ghost read = finding@;
                        infringements.push(finding);
                        proof {
                            assert(infringements.deep_view() =~= before.push(read));
                        }
                    },
                    Err(_) => {},
                }
            }
            i += 1;
        }
        proof {
            assert(all.take(count as int) =~= all);
        }
        infringements
    }

    /// The findings about the products of `company`, where `events` holds,
    /// for each product in order, what happened to the request about it.
    pub fn assess_company_v1(patent: &Patent, company: &Company, events: &Vec<LlmEvent>) -> (out:
        Vec<ProductInfrigement>)
        ensures
            out.deep_view() == findings_through(
                patent@,
                company@,
                0,
                Seq::empty(),
                event_outcomes(events.deep_view()),
            ),
    {
        let mut outcomes: Vec<Result<String, Error>> = Vec::new();
        let mut i: usize = 0;
        let ghost wanted = event_outcomes(events.deep_view());
        while i < events.len()
            invariant
                i <= events.len(),
                wanted == event_outcomes(events.deep_view()),
                outcome_views(outcomes@) == wanted.take(i as int),
            decreases events.len() - i,
        {
            let ghost before = outcome_views(outcomes@);
            let outcome = events[i].outcome();
            outcomes.push(outcome);
            proof {
                assert(outcome_views(outcomes@) =~= before.push(wanted[i as int]));
                assert(wanted.take(i + 1) =~= wanted.take(i as int).push(wanted[i as int]));
            }
            i += 1;
        }
        proof {
            assert(wanted.take(events.len() as int) =~= wanted);
        }
        Self::collect_findings(patent, company, outcomes)
    }

    /// What comes of an answer with the HTTP status `status` and the body
    /// `body`.
    pub fn read_reply(status: u16, body: &str) -> (out: Result<String, Error>)
        ensures
            outcome_view(out) == reply_outcome(status as int, json_of_text(body@)),
    {
        Self::reply_of(status, parse_json(body))
    }
}

} // verus!
