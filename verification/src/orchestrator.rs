//! The course of one assessment.
//!
//! An assessment looks up the patent and the company, asks the language
//! model about each product of the company in turn, ranks what it found,
//! asks for a summary of it, and answers. Asking is the caller's part: each
//! step either names the next request and what is pending on it, or ends the
//! assessment with an answer or an error. A product whose request fails is
//! passed over; a summary whose request fails ends the assessment in an
//! error.

use crate::assess_infringement_v1::{
    answer, items_of_findings, AssessInfringementV1Req, AssessInfringementV1Resp, RespView,
};
use crate::asset_helper::AssetHelper;
use crate::company::{Company, CompanyView};
use crate::errors::{Error, ErrorView};
use crate::gpt_groq::{
    findings_after, findings_through, outcome_view, product_request, summary_request,
    ChatRequest, Groq, LlmEvent, RequestView,
};
use crate::infrigement::{FindingView, ProductInfrigement};
use crate::patent::{Patent, PatentView};
use crate::ranking::{
    all_above_threshold, lemma_ranked_all_above_threshold, lemma_ranked_empty_iff_none_counts,
    lemma_ranked_non_increasing, non_increasing, rank, ranked,
};
use crate::text::option_text;
use crate::time::{iso8601, iso8601_text, Timestamp};
use vstd::prelude::*;
use vstd::string::*;

verus! {

/// What an assessment waits for.
#[derive(Debug)]
pub enum Pending {
    /// The reply about the product at position `next` of the company, with
    /// what was found about the products before it.
    Product { patent: Patent, company: Company, next: usize, findings: Vec<ProductInfrigement> },
    /// The summary of the findings that are reported.
    Summary { patent: Patent, company: Company, ranked: Vec<ProductInfrigement> },
}

/// What holds of a pending assessment.
pub enum PendingView {
    Product { patent: PatentView, company: CompanyView, next: int, findings: Seq<FindingView> },
    Summary { patent: PatentView, company: CompanyView, ranked: Seq<FindingView> },
}

impl View for Pending {
    type V = PendingView;

    open spec fn view(&self) -> PendingView {
        match *self {
            Pending::Product { patent, company, next, findings } => PendingView::Product {
                patent: patent@,
                company: company@,
                next: next as int,
                findings: findings.deep_view(),
            },
            Pending::Summary { patent, company, ranked } => PendingView::Summary {
                patent: patent@,
                company: company@,
                ranked: ranked.deep_view(),
            },
        }
    }
}

/// What an assessment does next.
#[derive(Debug)]
pub enum Step {
    /// Send the request to the language model, and hand what comes of it to
    /// the pending assessment.
    Ask(Pending, ChatRequest),
    /// Answer with the assessment.
    Respond(AssessInfringementV1Resp),
    /// Answer with the error.
    Fail(Error),
}

/// What holds of a step.
pub enum StepView {
    Ask(PendingView, RequestView),
    Respond(RespView),
    Fail(ErrorView),
}

impl View for Step {
    type V = StepView;

    open spec fn view(&self) -> StepView {
        match *self {
            Step::Ask(pending, request) => StepView::Ask(pending@, request@),
            Step::Respond(response) => StepView::Respond(response@),
            Step::Fail(error) => StepView::Fail(error@),
        }
    }
}

impl PendingView {
    /// Whether the pending assessment is one that an assessment reaches: a
    /// product that the company has; or findings to summarize of which there
    /// is at least one, all of them above the threshold, with likelihoods
    /// that never rise.
    pub open spec fn reachable(self) -> bool {
        match self {
            PendingView::Product { patent, company, next, findings } => 0 <= next
                < company.products.len(),
            PendingView::Summary { patent, company, ranked } => ranked.len() > 0
                && all_above_threshold(ranked) && non_increasing(ranked),
        }
    }

    /// The request that the pending assessment waits on.
    pub open spec fn request(self) -> RequestView
        recommends
            self.reachable(),
    {
        match self {
            PendingView::Product { patent, company, next, findings } => product_request(
                patent,
                company.products[next],
            ),
            PendingView::Summary { patent, company, ranked } => summary_request(
                patent,
                company,
                ranked,
            ),
        }
    }
}

impl StepView {
    /// Whether the step is one that an assessment takes: a request is the
    /// one that its pending assessment waits on, and that is reachable.
    pub open spec fn reachable(self) -> bool {
        match self {
            StepView::Ask(pending, request) => pending.reachable() && request == pending.request(),
            _ => true,
        }
    }
}

/// The error of a patent that is not in the reference data.
pub open spec fn patent_not_found(patent_id: Seq<char>) -> ErrorView {
    ErrorView::NotFound { description: "Patent "@ + patent_id + " not found"@ }
}

/// The error of a company that is not in the reference data.
pub open spec fn company_not_found(company_name: Seq<char>) -> ErrorView {
    ErrorView::NotFound { description: "Company "@ + company_name + " not found"@ }
}

/// The error of an assessment in which no finding counts.
pub open spec fn nothing_found() -> ErrorView {
    ErrorView::NotFound { description: "No infrigements found"@ }
}

/// The end of the round of products: where no finding counts, the error
/// that nothing was found, without a request for a summary; otherwise the
/// request for the summary of the findings that are reported.
pub open spec fn conclude(
    patent: PatentView,
    company: CompanyView,
    findings: Seq<FindingView>,
) -> StepView {
    let reported = ranked(findings);
    if reported.len() == 0 {
        StepView::Fail(nothing_found())
    } else {
        StepView::Ask(
            PendingView::Summary { patent, company, ranked: reported },
            summary_request(patent, company, reported),
        )
    }
}

/// The step at the product at position `next`: the request about it, or the
/// end of the round where the company has no such product.
pub open spec fn ask_or_conclude(
    patent: PatentView,
    company: CompanyView,
    next: int,
    findings: Seq<FindingView>,
) -> StepView {
    if 0 <= next < company.products.len() {
        StepView::Ask(
            PendingView::Product { patent, company, next, findings },
            product_request(patent, company.products[next]),
        )
    } else {
        conclude(patent, company, findings)
    }
}

/// The first step of an assessment of the company `company_name` against
/// the patent `patent_id`: an error where the patent is not there, else an
/// error where the company is not there, else the step at its first
/// product.
pub open spec fn begin_step(
    patents: Map<Seq<char>, PatentView>,
    companies: Map<Seq<char>, CompanyView>,
    patent_id: Seq<char>,
    company_name: Seq<char>,
) -> StepView {
    if !patents.contains_key(patent_id) {
        StepView::Fail(patent_not_found(patent_id))
    } else if !companies.contains_key(company_name) {
        StepView::Fail(company_not_found(company_name))
    } else {
        ask_or_conclude(patents[patent_id], companies[company_name], 0, Seq::empty())
    }
}

/// The step after the pending request came to `outcome`, where
/// `analysis_date` is the text of the present instant, if it has one.
pub open spec fn next_step(
    pending: PendingView,
    outcome: Result<Seq<char>, ErrorView>,
    analysis_date: Option<Seq<char>>,
) -> StepView {
    match pending {
        PendingView::Product { patent, company, next, findings } => ask_or_conclude(
            patent,
            company,
            next + 1,
            findings_after(patent, company, next, findings, outcome),
        ),
        PendingView::Summary { patent, company, ranked } => match outcome {
            Ok(summary) => match analysis_date {
                Some(date) => StepView::Respond(answer(patent, company, ranked, summary, date)),
                None => StepView::Fail(
                    ErrorView::Internal { description: "analysis date out of range"@ },
                ),
            },
            Err(error) => StepView::Fail(ErrorView::Internal { description: error.message() }),
        },
    }
}

/// The end of a round of products is a step that an assessment takes: what
/// it asks a summary of is not empty, all above the threshold, and never
/// rising in likelihood.
pub proof fn lemma_conclude_reachable(
    patent: PatentView,
    company: CompanyView,
    findings: Seq<FindingView>,
)
    ensures
        conclude(patent, company, findings).reachable(),
{
    lemma_ranked_all_above_threshold(findings);
    lemma_ranked_non_increasing(findings);
}

/// Where no finding is above the threshold, the assessment ends in the error
/// that nothing was found, and no summary is asked for; and only there.
pub proof fn lemma_no_summary_iff_none_counts(
    patent: PatentView,
    company: CompanyView,
    findings: Seq<FindingView>,
)
    ensures
        (forall|i: int|
            0 <= i < findings.len() ==> !(#[trigger] findings[i]).likelihood.above_threshold())
            <==> conclude(patent, company, findings) == StepView::Fail(nothing_found()),
        conclude(patent, company, findings) is Fail || conclude(patent, company, findings) is Ask,
{
    lemma_ranked_empty_iff_none_counts(findings);
}

/// The first step of an assessment is one that an assessment takes.
pub proof fn lemma_begin_reachable(
    patents: Map<Seq<char>, PatentView>,
    companies: Map<Seq<char>, CompanyView>,
    patent_id: Seq<char>,
    company_name: Seq<char>,
)
    ensures
        begin_step(patents, companies, patent_id, company_name).reachable(),
{
    if patents.contains_key(patent_id) && companies.contains_key(company_name) {
        lemma_conclude_reachable(patents[patent_id], companies[company_name], Seq::empty());
    }
}

/// Every step of an assessment is one that an assessment takes, whatever
/// came of the request before it.
pub proof fn lemma_next_reachable(
    pending: PendingView,
    outcome: Result<Seq<char>, ErrorView>,
    analysis_date: Option<Seq<char>>,
)
    ensures
        next_step(pending, outcome, analysis_date).reachable(),
{
    match pending {
        PendingView::Product { patent, company, next, findings } => {
            lemma_conclude_reachable(
                patent,
                company,
                findings_after(patent, company, next, findings, outcome),
            );
        },
        PendingView::Summary { .. } => {},
    }
}

/// An answer reports only findings above the threshold, with likelihoods
/// that never rise from one product to the next.
pub proof fn lemma_answer_is_ranked(
    pending: PendingView,
    outcome: Result<Seq<char>, ErrorView>,
    analysis_date: Option<Seq<char>>,
)
    requires
        pending.reachable(),
        next_step(pending, outcome, analysis_date) is Respond,
    ensures
        pending is Summary,
        all_above_threshold(pending->Summary_ranked),
        non_increasing(pending->Summary_ranked),
        (next_step(pending, outcome, analysis_date)->Respond_0).top_infringing_products
            == items_of_findings(pending->Summary_ranked),
{
}

/// The step that an assessment is at after its requests, one after the
/// other, came to `outcomes`. Once it has ended it stays as it is.
pub open spec fn step_after(
    step: StepView,
    outcomes: Seq<Result<Seq<char>, ErrorView>>,
    analysis_date: Option<Seq<char>>,
) -> StepView
    decreases outcomes.len(),
{
    if outcomes.len() == 0 {
        step
    } else {
        match step {
            StepView::Ask(pending, _) => step_after(
                next_step(pending, outcomes[0], analysis_date),
                outcomes.drop_first(),
                analysis_date,
            ),
            _ => step,
        }
    }
}

/// The end of an assessment that found `findings`, where the request for
/// the summary, if it is made, comes to `summary`: the error that nothing
/// was found where no finding counts; else an error where the summary
/// failed or the date has no text; else the answer with the findings that
/// are reported.
pub open spec fn end_of_assessment(
    patent: PatentView,
    company: CompanyView,
    findings: Seq<FindingView>,
    summary: Result<Seq<char>, ErrorView>,
    analysis_date: Option<Seq<char>>,
) -> StepView {
    let reported = ranked(findings);
    if reported.len() == 0 {
        StepView::Fail(nothing_found())
    } else {
        next_step(
            PendingView::Summary { patent, company, ranked: reported },
            summary,
            analysis_date,
        )
    }
}

/// What an assessment of `company` against `patent` comes to, where
/// `replies` holds, for each product in order, what the request about it
/// came to, and `summary` what the request for the summary comes to.
pub open spec fn assessment(
    patent: PatentView,
    company: CompanyView,
    replies: Seq<Result<Seq<char>, ErrorView>>,
    summary: Result<Seq<char>, ErrorView>,
    analysis_date: Option<Seq<char>>,
) -> StepView {
    end_of_assessment(
        patent,
        company,
        findings_through(patent, company, 0, Seq::empty(), replies),
        summary,
        analysis_date,
    )
}

proof fn lemma_round(
    patent: PatentView,
    company: CompanyView,
    next: int,
    findings: Seq<FindingView>,
    replies: Seq<Result<Seq<char>, ErrorView>>,
    summary: Result<Seq<char>, ErrorView>,
    analysis_date: Option<Seq<char>>,
)
    requires
        0 <= next,
        next + replies.len() == company.products.len(),
    ensures
        step_after(
            ask_or_conclude(patent, company, next, findings),
            replies.push(summary),
            analysis_date,
        ) == end_of_assessment(
            patent,
            company,
            findings_through(patent, company, next, findings, replies),
            summary,
            analysis_date,
        ),
    decreases replies.len(),
{
    let outcomes = replies.push(summary);
    let first = ask_or_conclude(patent, company, next, findings);
    if replies.len() == 0 {
        assert(outcomes.drop_first() =~= Seq::<Result<Seq<char>, ErrorView>>::empty());
        assert(outcomes[0] == summary);
        if ranked(findings).len() > 0 {
            let pending = PendingView::Summary { patent, company, ranked: ranked(findings) };
            assert(step_after(first, outcomes, analysis_date) == step_after(
                next_step(pending, summary, analysis_date),
                outcomes.drop_first(),
                analysis_date,
            ));
        }
    } else {
        let found = findings_after(patent, company, next, findings, replies[0]);
        assert(outcomes[0] == replies[0]);
        assert(outcomes.drop_first() =~= replies.drop_first().push(summary));
        lemma_round(
            patent,
            company,
            next + 1,
            found,
            replies.drop_first(),
            summary,
            analysis_date,
        );
        let pending = PendingView::Product { patent, company, next, findings };
        assert(step_after(first, outcomes, analysis_date) == step_after(
            next_step(pending, replies[0], analysis_date),
            outcomes.drop_first(),
            analysis_date,
        ));
    }
}

/// Taken step by step, an assessment of a company and a patent that are in
/// the reference data comes to what it comes to as a whole: each product is
/// asked about once and in order, a product whose request failed is passed
/// over, the findings are ranked when all products are through, and the
/// summary is asked for last, and only where a finding counts.
pub proof fn lemma_steps_make_the_assessment(
    patents: Map<Seq<char>, PatentView>,
    companies: Map<Seq<char>, CompanyView>,
    patent_id: Seq<char>,
    company_name: Seq<char>,
    replies: Seq<Result<Seq<char>, ErrorView>>,
    summary: Result<Seq<char>, ErrorView>,
    analysis_date: Option<Seq<char>>,
)
    requires
        patents.contains_key(patent_id),
        companies.contains_key(company_name),
        replies.len() == companies[company_name].products.len(),
    ensures
        step_after(
            begin_step(patents, companies, patent_id, company_name),
            replies.push(summary),
            analysis_date,
        ) == assessment(
            patents[patent_id],
            companies[company_name],
            replies,
            summary,
            analysis_date,
        ),
{
    lemma_round(
        patents[patent_id],
        companies[company_name],
        0,
        Seq::empty(),
        replies,
        summary,
        analysis_date,
    );
}

/// An assessment that answers reports the findings that count, and only
/// those, from the greatest likelihood down.
pub proof fn lemma_assessment_reports_ranked(
    patent: PatentView,
    company: CompanyView,
    replies: Seq<Result<Seq<char>, ErrorView>>,
    summary: Result<Seq<char>, ErrorView>,
    analysis_date: Option<Seq<char>>,
)
    requires
        assessment(patent, company, replies, summary, analysis_date) is Respond,
    ensures
        ({
            let found = findings_through(patent, company, 0, Seq::empty(), replies);
            let response = assessment(patent, company, replies, summary, analysis_date)->Respond_0;
            &&& response.top_infringing_products
                == items_of_findings(ranked(found))
            &&& all_above_threshold(ranked(found))
            &&& non_increasing(ranked(found))
            &&& forall|f: FindingView|
                found.contains(f) && f.likelihood.above_threshold() ==> ranked(found).contains(f)
        }),
{
    let found = findings_through(patent, company, 0, Seq::empty(), replies);
    lemma_ranked_all_above_threshold(found);
    lemma_ranked_non_increasing(found);
}

/// An assessment in which no finding is above the threshold ends in the
/// error that nothing was found, whatever would have come of a request for
/// a summary.
pub proof fn lemma_assessment_without_findings(
    patent: PatentView,
    company: CompanyView,
    replies: Seq<Result<Seq<char>, ErrorView>>,
    summary: Result<Seq<char>, ErrorView>,
    analysis_date: Option<Seq<char>>,
)
    requires
        ({
            let found = findings_through(patent, company, 0, Seq::empty(), replies);
            forall|i: int|
                0 <= i < found.len() ==> !(#[trigger] found[i]).likelihood.above_threshold()
        }),
    ensures
        assessment(patent, company, replies, summary, analysis_date) == StepView::Fail(
            nothing_found(),
        ),
{
    let found = findings_through(patent, company, 0, Seq::empty(), replies);
    lemma_ranked_empty_iff_none_counts(found);
}

/// Ends the round of products.
fn conclude_round(patent: Patent, company: Company, findings: Vec<ProductInfrigement>) -> (out:
    Step)
    ensures
        out@ == conclude(patent@, company@, findings.deep_view()),
{
    let reported = rank(&findings);
    if reported.len() == 0 {
        Step::Fail(Error::NotFound { description: String::from_str("No infrigements found") })
    } else {
        let request = Groq::summary_request(&patent, &company, &reported);
        Step::Ask(Pending::Summary { patent, company, ranked: reported }, request)
    }
}

/// Takes the step at the product at position `next`.
fn ask_next(patent: Patent, company: Company, next: usize, findings: Vec<ProductInfrigement>) -> (out:
    Step)
    ensures
        out@ == ask_or_conclude(patent@, company@, next as int, findings.deep_view()),
{
    if next < company.products.len() {
        let request = Groq::product_request(&patent, &company.products[next]);
        proof {
            assert(company@.products[next as int] == company.products@[next as int]@);
        }
        Step::Ask(Pending::Product { patent, company, next, findings }, request)
    } else {
        conclude_round(patent, company, findings)
    }
}

/// Takes the first step of the assessment that `req` asks for.
pub fn begin(assets: &AssetHelper, req: &AssessInfringementV1Req) -> (out: Step)
    ensures
        out@ == begin_step(
            assets.patents(),
            assets.companies(),
            req.patent_pub_id@,
            req.company_name@,
        ),
        out@.reachable(),
{
    proof {
        lemma_begin_reachable(
            assets.patents(),
            assets.companies(),
            req.patent_pub_id@,
            req.company_name@,
        );
    }
    let patent = match assets.get_patents().get(req.patent_pub_id.as_str()) {
        Some(patent) => patent.clone(),
        None => {
            let mut description = String::from_str("Patent ");
            description.append(req.patent_pub_id.as_str());
            description.append(" not found");
            return Step::Fail(Error::NotFound { description });
        },
    };
    let company = match assets.get_company_products().get(req.company_name.clone()) {
        Some(company) => company.clone(),
        None => {
            let mut description = String::from_str("Company ");
            description.append(req.company_name.as_str());
            description.append(" not found");
            return Step::Fail(Error::NotFound { description });
        },
    };
    let findings: Vec<ProductInfrigement> = Vec::new();
    proof {
        assert(findings.deep_view() =~= Seq::<FindingView>::empty());
    }
    ask_next(patent, company, 0, findings)
}

impl Pending {
    /// Takes the step after the pending request came to `outcome`, where
    /// `analysis_date` is the text of the present instant, if it has one.
    pub fn advance(self, outcome: Result<String, Error>, analysis_date: Option<String>) -> (out:
        Step)
        ensures
            out@ == next_step(
                self@,
                outcome_view(outcome),
                option_text(analysis_date),
            ),
            out@.reachable(),
    {
        proof {
            lemma_next_reachable(
                self@,
                outcome_view(outcome),
                option_text(analysis_date),
            );
        }
        match self {
            Pending::Product { patent, company, next, findings } => {
                let mut findings = findings;
                if next < company.products.len() {
                    let ghost before = findings.deep_view();
                    match outcome {
                        Ok(reply) => {
                            proof {
                                assert(company@.products[next as int]
                                    == company.products@[next as int]@);
                            }
                            let finding = ProductInfrigement::from_gpt_response(
                                &patent,
                                &company.products[next],
                                reply,
                            );
                            let ghost read = finding@;
                            findings.push(finding);
                            proof {
                                assert(findings.deep_view() =~= before.push(read));
                            }
                        },
                        Err(_) => {},
                    }
                    ask_next(patent, company, next + 1, findings)
                } else {
                    conclude_round(patent, company, findings)
                }
            },
            Pending::Summary { patent, company, ranked } => match outcome {
                Ok(summary) => match analysis_date {
                    Some(date) => Step::Respond(
                        AssessInfringementV1Resp::assemble(
                            &patent,
                            &company,
                            &ranked,
                            &summary,
                            date,
                        ),
                    ),
                    None => Step::Fail(
                        Error::Internal {
                            description: String::from_str("analysis date out of range"),
                        },
                    ),
                },
                Err(error) => Step::Fail(Error::Internal { description: error.to_string() }),
            },
        }
    }

    /// Takes the step after the pending request came to `event`, at the
    /// instant `now`.
    pub fn resume(self, event: &LlmEvent, now: &Timestamp) -> (out: Step)
        ensures
            out@ == next_step(
                self@,
                event@.outcome(),
                iso8601_text(now.secs as int, now.nanos as int),
            ),
            out@.reachable(),
    {
        self.advance(event.outcome(), iso8601(now))
    }
}

} // verus!
