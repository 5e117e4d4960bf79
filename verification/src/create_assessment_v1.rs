//! Storing an assessment and reading it again, as the two cross the wire.

use crate::assess_infringement_v1::{
    items_from_json, items_json, items_of_json, items_to_json, lemma_items_round_trip,
    AssessInfringementV1ProductItem, ProductItemView,
};
use crate::assessments::{Assessment, AssessmentView, NewAssessment, NewAssessmentView};
use crate::errors::{ApiError, Error, ErrorView};
use crate::text::{option_text, signed_decimal, signed_decimal_string};
use crate::time::{iso8601, iso8601_instant, iso8601_text, parse_iso8601, Timestamp};
use vstd::prelude::*;
use vstd::string::*;

verus! {

/// The request to store an assessment.
#[derive(Debug)]
pub struct CreateAssessmentV1Req {
    pub patent_id: String,
    pub company_name: String,
    /// When the assessment was made, as RFC 3339 text.
    pub analysis_date: String,
    pub top_infringing_products: Vec<AssessInfringementV1ProductItem>,
    pub overall_risk_assessment: String,
}

/// What a request to store an assessment holds.
pub struct CreateReqView {
    pub patent_id: Seq<char>,
    pub company_name: Seq<char>,
    pub analysis_date: Seq<char>,
    pub top_infringing_products: Seq<ProductItemView>,
    pub overall_risk_assessment: Seq<char>,
}

impl View for CreateAssessmentV1Req {
    type V = CreateReqView;

    open spec fn view(&self) -> CreateReqView {
        CreateReqView {
            patent_id: self.patent_id@,
            company_name: self.company_name@,
            analysis_date: self.analysis_date@,
            top_infringing_products: self.top_infringing_products.deep_view(),
            overall_risk_assessment: self.overall_risk_assessment@,
        }
    }
}

/// A stored assessment, as it is answered.
#[derive(Debug)]
pub struct CreateAssessmentV1Resp {
    pub id: i32,
    pub patent_id: String,
    pub company_name: String,
    /// When the assessment was made, as ISO 8601 text.
    pub analysis_date: String,
    pub top_infringing_products: Vec<AssessInfringementV1ProductItem>,
    pub overall_risk_assessment: String,
    /// When the assessment was stored, in seconds since the start of 1970.
    pub created_at: i64,
    /// When the assessment was last changed, in seconds since the start of
    /// 1970.
    pub updated_at: i64,
}

/// What the answer with a stored assessment holds.
pub struct CreateRespView {
    pub id: int,
    pub patent_id: Seq<char>,
    pub company_name: Seq<char>,
    pub analysis_date: Seq<char>,
    pub top_infringing_products: Seq<ProductItemView>,
    pub overall_risk_assessment: Seq<char>,
    pub created_at: int,
    pub updated_at: int,
}

impl View for CreateAssessmentV1Resp {
    type V = CreateRespView;

    open spec fn view(&self) -> CreateRespView {
        CreateRespView {
            id: self.id as int,
            patent_id: self.patent_id@,
            company_name: self.company_name@,
            analysis_date: self.analysis_date@,
            top_infringing_products: self.top_infringing_products.deep_view(),
            overall_risk_assessment: self.overall_risk_assessment@,
            created_at: self.created_at as int,
            updated_at: self.updated_at as int,
        }
    }
}

/// What `request` asks to store, dated `analysis_date`: the patent, the
/// company and the summary of the request, its products as their JSON
/// array, and no instant of making or change yet.
pub open spec fn model_of(request: CreateReqView, analysis_date: Timestamp) -> NewAssessmentView {
    NewAssessmentView {
        patent_id: request.patent_id,
        company_name: request.company_name,
        analysis_date,
        top_infringing_products: Some(items_json(request.top_infringing_products)),
        overall_risk_assessment: Some(request.overall_risk_assessment),
        created_at: None,
        updated_at: None,
    }
}

/// The products that a stored assessment holds.
pub open spec fn stored_products(model: AssessmentView) -> Option<Seq<ProductItemView>> {
    match model.top_infringing_products {
        Some(json) => items_of_json(json),
        None => None,
    }
}

/// The answer with the stored assessment `model`, where `analysis_date` is
/// the text of its date: there is one where the date has a text, the
/// products are a JSON array of products, and the summary and the two
/// instants are there.
pub open spec fn answer_of_model(model: AssessmentView, analysis_date: Option<Seq<char>>) -> Option<
    CreateRespView,
> {
    match (
        analysis_date,
        stored_products(model),
        model.overall_risk_assessment,
        model.created_at,
        model.updated_at,
    ) {
        (Some(date), Some(products), Some(summary), Some(created), Some(updated)) => Some(
            CreateRespView {
                id: model.id,
                patent_id: model.patent_id,
                company_name: model.company_name,
                analysis_date: date,
                top_infringing_products: products,
                overall_risk_assessment: summary,
                created_at: created.secs as int,
                updated_at: updated.secs as int,
            },
        ),
        _ => None,
    }
}

/// The error of a request whose date is no RFC 3339 text.
pub open spec fn invalid_date() -> ErrorView {
    ErrorView::Generic { description: "analysis_date is not an RFC 3339 date and time"@ }
}

/// What a request asks to store, where `instant` is the instant that its
/// date names, if it names one.
pub open spec fn model_of_request(request: CreateReqView, instant: Option<(int, int)>) -> Result<
    NewAssessmentView,
    ErrorView,
> {
    match instant {
        Some((secs, nanos)) => Ok(
            model_of(request, Timestamp { secs: secs as i64, nanos: nanos as u32 }),
        ),
        None => Err(invalid_date()),
    }
}

/// What holds of an assessment to be stored, or of an error.
pub open spec fn model_view(result: Result<NewAssessment, Error>) -> Result<
    NewAssessmentView,
    ErrorView,
> {
    match result {
        Ok(model) => Ok(model@),
        Err(error) => Err(error@),
    }
}

/// An assessment that is stored as a request asks gives back the products
/// of the request when it is read: what went in is what comes out.
pub proof fn lemma_products_survive_storage(
    request: CreateReqView,
    analysis_date: Timestamp,
    stored: AssessmentView,
)
    requires
        stored.keeps(model_of(request, analysis_date)),
    ensures
        stored_products(stored) == Some(request.top_infringing_products),
{
    lemma_items_round_trip(request.top_infringing_products);
}

/// The answer with an assessment that is stored as a request asks holds the
/// patent, the company, the products and the summary of the request.
pub proof fn lemma_answer_of_stored_request(
    request: CreateReqView,
    analysis_date: Timestamp,
    stored: AssessmentView,
    date_text: Option<Seq<char>>,
)
    requires
        stored.keeps(model_of(request, analysis_date)),
        answer_of_model(stored, date_text) is Some,
    ensures
        answer_of_model(stored, date_text)->0.patent_id == request.patent_id,
        answer_of_model(stored, date_text)->0.company_name == request.company_name,
        answer_of_model(stored, date_text)->0.top_infringing_products
            == request.top_infringing_products,
        answer_of_model(stored, date_text)->0.overall_risk_assessment
            == request.overall_risk_assessment,
{
    lemma_products_survive_storage(request, analysis_date, stored);
}

impl CreateAssessmentV1Req {
    /// What the request asks to store, dated `analysis_date`.
    pub fn to_model_dated(&self, analysis_date: Timestamp) -> (out: NewAssessment)
        ensures
            out@ == model_of(self@, analysis_date),
    {
        NewAssessment {
            patent_id: self.patent_id.clone(),
            company_name: self.company_name.clone(),
            analysis_date,
            top_infringing_products: Some(items_to_json(&self.top_infringing_products)),
            overall_risk_assessment: Some(self.overall_risk_assessment.clone()),
            created_at: None,
            updated_at: None,
        }
    }

    /// What the request asks to store; an error where its date is no RFC
    /// 3339 text.
    pub fn to_model(&self) -> (out: Result<NewAssessment, Error>)
        ensures
            model_view(out) == model_of_request(self@, iso8601_instant(self.analysis_date@)),
    {
        match parse_iso8601(self.analysis_date.as_str()) {
            Some(analysis_date) => Ok(self.to_model_dated(analysis_date)),
            None => Err(
                Error::Generic {
                    description: String::from_str(
                        "analysis_date is not an RFC 3339 date and time",
                    ),
                },
            ),
        }
    }
}

impl CreateAssessmentV1Resp {
    pub fn new(
        id: i32,
        patent_id: String,
        company_name: String,
        analysis_date: String,
        top_infringing_products: Vec<AssessInfringementV1ProductItem>,
        overall_risk_assessment: String,
        created_at: i64,
        updated_at: i64,
    ) -> (out: Self)
        ensures
            out@ == (CreateRespView {
                id: id as int,
                patent_id: patent_id@,
                company_name: company_name@,
                analysis_date: analysis_date@,
                top_infringing_products: top_infringing_products.deep_view(),
                overall_risk_assessment: overall_risk_assessment@,
                created_at: created_at as int,
                updated_at: updated_at as int,
            }),
    {
        Self {
            id,
            patent_id,
            company_name,
            analysis_date,
            top_infringing_products,
            overall_risk_assessment,
            created_at,
            updated_at,
        }
    }

    /// The answer with the stored assessment `model`, where `analysis_date`
    /// is the text of its date, if it has one.
    pub fn from_model_dated(model: &Assessment, analysis_date: Option<String>) -> (out: Option<
        Self,
    >)
        ensures
            match out {
                Some(response) => answer_of_model(model@, option_text(analysis_date)) == Some(
                    response@,
                ),
                None => answer_of_model(model@, option_text(analysis_date)) is None,
            },
    {
        let date = match analysis_date {
            Some(date) => date,
            None => {
                return None;
            },
        };
        let products = match &model.top_infringing_products {
            Some(json) => match items_from_json(json) {
                Some(products) => products,
                None => {
                    return None;
                },
            },
            None => {
                return None;
            },
        };
        let summary = match &model.overall_risk_assessment {
            Some(summary) => summary.clone(),
            None => {
                return None;
            },
        };
        let created = match model.created_at {
            Some(at) => at.unix_timestamp(),
            None => {
                return None;
            },
        };
        let updated = match model.updated_at {
            Some(at) => at.unix_timestamp(),
            None => {
                return None;
            },
        };
        Some(
            Self::new(
                model.id,
                model.patent_id.clone(),
                model.company_name.clone(),
                date,
                products,
                summary,
                created,
                updated,
            ),
        )
    }

    /// The answer with the stored assessment `model`.
    pub fn from_model(model: &Assessment) -> (out: Option<Self>)
        ensures
            match out {
                Some(response) => answer_of_model(model@, date_of_model(model@)) == Some(
                    response@,
                ),
                None => answer_of_model(model@, date_of_model(model@)) is None,
            },
    {
        Self::from_model_dated(model, iso8601(&model.analysis_date))
    }
}

/// What the store said when it was asked to keep or to find an assessment.
#[derive(Debug)]
pub enum StoreOutcome {
    /// The assessment, as it is stored.
    Stored(Assessment),
    /// There is no assessment with the identifier that was asked for.
    Missing,
    /// The store failed, for the reason given.
    Failed { reason: String },
}

/// What holds of what the store said.
pub enum OutcomeView {
    Stored(AssessmentView),
    Missing,
    Failed { reason: Seq<char> },
}

impl View for StoreOutcome {
    type V = OutcomeView;

    open spec fn view(&self) -> OutcomeView {
        match *self {
            StoreOutcome::Stored(model) => OutcomeView::Stored(model@),
            StoreOutcome::Missing => OutcomeView::Missing,
            StoreOutcome::Failed { reason } => OutcomeView::Failed { reason: reason@ },
        }
    }
}

/// The text of the date of a stored assessment, if it has one.
pub open spec fn date_of_model(model: AssessmentView) -> Option<Seq<char>> {
    iso8601_text(model.analysis_date.secs as int, model.analysis_date.nanos as int)
}

/// The error of a stored assessment that cannot be answered: its date has
/// no text, its products are no JSON array of products, or its summary or
/// one of its instants is missing.
pub open spec fn incomplete_record() -> ErrorView {
    ErrorView::Internal { description: "stored assessment is incomplete"@ }
}

/// The error of an assessment that is not stored.
pub open spec fn no_such_assessment(aid: int) -> ErrorView {
    ErrorView::DbRecordNoResult { source: "assessments"@, id: signed_decimal(aid) }
}

/// What is answered for the assessment `aid` after the store said
/// `outcome`, where `answer` is the answer with the stored assessment, if
/// it has one.
pub open spec fn store_answer(
    aid: int,
    outcome: OutcomeView,
    answer: Option<CreateRespView>,
) -> Result<CreateRespView, ErrorView> {
    match outcome {
        OutcomeView::Stored(_) => match answer {
            Some(response) => Ok(response),
            None => Err(incomplete_record()),
        },
        OutcomeView::Missing => Err(no_such_assessment(aid)),
        OutcomeView::Failed { reason } => Err(ErrorView::Generic { description: reason }),
    }
}

/// What holds of an answer or an error of the API.
pub open spec fn api_view(result: Result<CreateAssessmentV1Resp, ApiError>) -> Result<
    CreateRespView,
    ErrorView,
> {
    match result {
        Ok(response) => Ok(response@),
        Err(error) => Err(error.error@),
    }
}

/// The answer with the stored assessment of `outcome`, if there is one.
pub open spec fn answer_of_outcome(outcome: OutcomeView) -> Option<CreateRespView> {
    match outcome {
        OutcomeView::Stored(model) => answer_of_model(model, date_of_model(model)),
        _ => None,
    }
}

/// What is answered to the request `req_id` for the assessment `aid` after
/// the store said `outcome`: the assessment where it is there and complete;
/// an error otherwise, which carries the identifier of the request.
pub fn get_assessment_v1(aid: i32, outcome: StoreOutcome, req_id: String) -> (out: Result<
    CreateAssessmentV1Resp,
    ApiError,
>)
    ensures
        api_view(out) == store_answer(aid as int, outcome@, answer_of_outcome(outcome@)),
        out is Err ==> out->Err_0.req_id@ == req_id@,
{
    match outcome {
        StoreOutcome::Stored(model) => match CreateAssessmentV1Resp::from_model(&model) {
            Some(response) => Ok(response),
            None => Err(
                ApiError::new(
                    Error::Internal {
                        description: String::from_str("stored assessment is incomplete"),
                    },
                    req_id,
                ),
            ),
        },
        StoreOutcome::Missing => Err(
            ApiError::new(
                Error::DbRecordNoResult {
                    source: String::from_str("assessments"),
                    id: signed_decimal_string(aid as i64),
                },
                req_id,
            ),
        ),
        StoreOutcome::Failed { reason } => Err(
            ApiError::new(Error::Generic { description: reason }, req_id),
        ),
    }
}

/// What is answered to the request `req_id` to store an assessment after
/// the store said `outcome`: as for a stored assessment that was asked for,
/// under the identifier that the store gave it.
pub fn create_assessment_v1(outcome: StoreOutcome, req_id: String) -> (out: Result<
    CreateAssessmentV1Resp,
    ApiError,
>)
    ensures
        api_view(out) == store_answer(0, outcome@, answer_of_outcome(outcome@)),
        out is Err ==> out->Err_0.req_id@ == req_id@,
{
    get_assessment_v1(0, outcome, req_id)
}

} // verus!
