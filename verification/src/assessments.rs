//! Assessments as they are stored.

use crate::json::{option_json, Json, JsonValue};
use crate::text::option_text;
use crate::time::Timestamp;
use vstd::prelude::*;

verus! {

/// A stored assessment. The store gives it its identifier and the two
/// instants of its making and last change.
#[derive(Debug)]
pub struct Assessment {
    pub id: i32,
    pub patent_id: String,
    pub company_name: String,
    pub analysis_date: Timestamp,
    /// The products reported, as the JSON array that was stored.
    pub top_infringing_products: Option<Json>,
    pub overall_risk_assessment: Option<String>,
    pub created_at: Option<Timestamp>,
    pub updated_at: Option<Timestamp>,
}

/// What a stored assessment holds.
pub struct AssessmentView {
    pub id: int,
    pub patent_id: Seq<char>,
    pub company_name: Seq<char>,
    pub analysis_date: Timestamp,
    pub top_infringing_products: Option<JsonValue>,
    pub overall_risk_assessment: Option<Seq<char>>,
    pub created_at: Option<Timestamp>,
    pub updated_at: Option<Timestamp>,
}

impl View for Assessment {
    type V = AssessmentView;

    open spec fn view(&self) -> AssessmentView {
        AssessmentView {
            id: self.id as int,
            patent_id: self.patent_id@,
            company_name: self.company_name@,
            analysis_date: self.analysis_date,
            top_infringing_products: option_json(self.top_infringing_products),
            overall_risk_assessment: option_text(self.overall_risk_assessment),
            created_at: self.created_at,
            updated_at: self.updated_at,
        }
    }
}

/// An assessment that is to be stored.
#[derive(Debug)]
pub struct NewAssessment {
    pub patent_id: String,
    pub company_name: String,
    pub analysis_date: Timestamp,
    /// The products reported, as a JSON array.
    pub top_infringing_products: Option<Json>,
    pub overall_risk_assessment: Option<String>,
    pub created_at: Option<Timestamp>,
    pub updated_at: Option<Timestamp>,
}

/// What an assessment that is to be stored holds.
pub struct NewAssessmentView {
    pub patent_id: Seq<char>,
    pub company_name: Seq<char>,
    pub analysis_date: Timestamp,
    pub top_infringing_products: Option<JsonValue>,
    pub overall_risk_assessment: Option<Seq<char>>,
    pub created_at: Option<Timestamp>,
    pub updated_at: Option<Timestamp>,
}

impl View for NewAssessment {
    type V = NewAssessmentView;

    open spec fn view(&self) -> NewAssessmentView {
        NewAssessmentView {
            patent_id: self.patent_id@,
            company_name: self.company_name@,
            analysis_date: self.analysis_date,
            top_infringing_products: option_json(self.top_infringing_products),
            overall_risk_assessment: option_text(self.overall_risk_assessment),
            created_at: self.created_at,
            updated_at: self.updated_at,
        }
    }
}

impl AssessmentView {
    /// Whether this is `new` as the store keeps it: with what `new` holds of
    /// the patent, the company, the date, the products and the summary,
    /// unchanged.
    pub open spec fn keeps(self, new: NewAssessmentView) -> bool {
        &&& self.patent_id == new.patent_id
        &&& self.company_name == new.company_name
        &&& self.analysis_date == new.analysis_date
        &&& self.top_infringing_products == new.top_infringing_products
        &&& self.overall_risk_assessment == new.overall_risk_assessment
    }
}

} // verus!
