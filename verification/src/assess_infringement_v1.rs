//! The request for an assessment and the answer to it, as they cross the
//! wire.

use crate::company::{Company, CompanyView};
use crate::infrigement::{FindingView, ProductInfrigement};
use crate::json::{
    array_of_texts, items_view, lemma_texts_of_array, member_of, members_view, push_item,
    push_member, Json, JsonValue,
};
use crate::patent::{Patent, PatentView};
use crate::text::{clone_strings, texts};
use crate::time::{iso8601, iso8601_text, Timestamp};
use vstd::prelude::*;
use vstd::string::*;

verus! {

/// The request: which patent, by its publication number, and which company,
/// by its name.
#[derive(Debug)]
pub struct AssessInfringementV1Req {
    pub patent_pub_id: String,
    pub company_name: String,
}

/// One product of the answer.
#[derive(Debug)]
pub struct AssessInfringementV1ProductItem {
    pub product_name: String,
    /// The likelihood as a percentage with two decimals, such as `50.00%`.
    pub infringement_likelihood: String,
    pub relevant_claims: Vec<String>,
    pub explanation: String,
    pub specific_features: Vec<String>,
}

/// What a product of the answer holds.
pub struct ProductItemView {
    pub product_name: Seq<char>,
    pub infringement_likelihood: Seq<char>,
    pub relevant_claims: Seq<Seq<char>>,
    pub explanation: Seq<char>,
    pub specific_features: Seq<Seq<char>>,
}

impl View for AssessInfringementV1ProductItem {
    type V = ProductItemView;

    open spec fn view(&self) -> ProductItemView {
        ProductItemView {
            product_name: self.product_name@,
            infringement_likelihood: self.infringement_likelihood@,
            relevant_claims: texts(self.relevant_claims@),
            explanation: self.explanation@,
            specific_features: texts(self.specific_features@),
        }
    }
}

impl DeepView for AssessInfringementV1ProductItem {
    type V = ProductItemView;

    open spec fn deep_view(&self) -> ProductItemView {
        self@
    }
}

impl Clone for AssessInfringementV1ProductItem {
    fn clone(&self) -> (out: Self)
        ensures
            out@ == self@,
    {
        AssessInfringementV1ProductItem {
            product_name: self.product_name.clone(),
            infringement_likelihood: self.infringement_likelihood.clone(),
            relevant_claims: clone_strings(&self.relevant_claims),
            explanation: self.explanation.clone(),
            specific_features: clone_strings(&self.specific_features),
        }
    }
}

/// The product of the answer that reports `finding`.
pub open spec fn item_of_finding(finding: FindingView) -> ProductItemView {
    ProductItemView {
        product_name: finding.product_name,
        infringement_likelihood: finding.likelihood.percent_text(),
        relevant_claims: finding.relevant_claims,
        explanation: finding.explanation,
        specific_features: finding.specific_features,
    }
}

/// The products of the answer that report `findings`, in their order.
pub open spec fn items_of_findings(findings: Seq<FindingView>) -> Seq<ProductItemView> {
    Seq::new(findings.len(), |i: int| item_of_finding(findings[i]))
}

/// The product that a JSON object describes, where it holds the five
/// members of one.
pub open spec fn item_of_json(json: JsonValue) -> Option<ProductItemView> {
    match (
        json.text_member("product_name"@),
        json.text_member("infringement_likelihood"@),
        json.text_list_member("relevant_claims"@),
        json.text_member("explanation"@),
        json.text_list_member("specific_features"@),
    ) {
        (
            Some(product_name),
            Some(infringement_likelihood),
            Some(relevant_claims),
            Some(explanation),
            Some(specific_features),
        ) => Some(
            ProductItemView {
                product_name,
                infringement_likelihood,
                relevant_claims,
                explanation,
                specific_features,
            },
        ),
        _ => None,
    }
}

/// The products that `items` describe, where each of them describes one.
pub open spec fn items_of_jsons(items: Seq<JsonValue>) -> Option<Seq<ProductItemView>>
    decreases items.len(),
{
    if items.len() == 0 {
        Some(Seq::empty())
    } else {
        match (items_of_jsons(items.drop_last()), item_of_json(items.last())) {
            (Some(before), Some(last)) => Some(before.push(last)),
            _ => None,
        }
    }
}

/// The products that a JSON array describes.
pub open spec fn items_of_json(json: JsonValue) -> Option<Seq<ProductItemView>> {
    match json.items() {
        Some(items) => items_of_jsons(items),
        None => None,
    }
}

/// The members of the JSON object of `item`: its five fields in order, each
/// under its name.
pub open spec fn item_members(item: ProductItemView) -> Seq<(Seq<char>, JsonValue)> {
    seq![
        ("product_name"@, JsonValue::Text(item.product_name)),
        ("infringement_likelihood"@, JsonValue::Text(item.infringement_likelihood)),
        ("relevant_claims"@, array_of_texts(item.relevant_claims)),
        ("explanation"@, JsonValue::Text(item.explanation)),
        ("specific_features"@, array_of_texts(item.specific_features)),
    ]
}

/// The JSON object of `item`.
pub open spec fn item_json(item: ProductItemView) -> JsonValue {
    JsonValue::Object(item_members(item))
}

/// The JSON object of each of `items`, in order.
pub open spec fn item_jsons(items: Seq<ProductItemView>) -> Seq<JsonValue> {
    Seq::new(items.len(), |i: int| item_json(items[i]))
}

/// The JSON array of `items`.
pub open spec fn items_json(items: Seq<ProductItemView>) -> JsonValue {
    JsonValue::Array(item_jsons(items))
}

/// The five keys of a product differ from each other.
proof fn lemma_item_keys_differ()
    ensures
        "product_name"@ != "infringement_likelihood"@,
        "product_name"@ != "relevant_claims"@,
        "product_name"@ != "explanation"@,
        "product_name"@ != "specific_features"@,
        "infringement_likelihood"@ != "relevant_claims"@,
        "infringement_likelihood"@ != "explanation"@,
        "infringement_likelihood"@ != "specific_features"@,
        "relevant_claims"@ != "explanation"@,
        "relevant_claims"@ != "specific_features"@,
        "explanation"@ != "specific_features"@,
{
    reveal_strlit("product_name");
    reveal_strlit("infringement_likelihood");
    reveal_strlit("relevant_claims");
    reveal_strlit("explanation");
    reveal_strlit("specific_features");
    assert("product_name"@.len() == 12);
    assert("infringement_likelihood"@.len() == 23);
    assert("relevant_claims"@.len() == 15);
    assert("explanation"@.len() == 11);
    assert("specific_features"@.len() == 17);
}

/// Read back, the JSON object of a product gives that product.
pub proof fn lemma_item_round_trip(item: ProductItemView)
    ensures
        item_of_json(item_json(item)) == Some(item),
{
    lemma_item_keys_differ();
    lemma_texts_of_array(item.relevant_claims);
    lemma_texts_of_array(item.specific_features);
    let members = item_members(item);
    let m1 = members.drop_first();
    let m2 = m1.drop_first();
    let m3 = m2.drop_first();
    let m4 = m3.drop_first();
    assert(m1[0] == members[1]);
    assert(m2[0] == members[2]);
    assert(m3[0] == members[3]);
    assert(m4[0] == members[4]);
    assert(member_of(members, "product_name"@) == Some(members[0].1));
    assert(member_of(m1, "infringement_likelihood"@) == Some(members[1].1));
    assert(member_of(members, "infringement_likelihood"@) == Some(members[1].1));
    assert(member_of(m2, "relevant_claims"@) == Some(members[2].1));
    assert(member_of(m1, "relevant_claims"@) == Some(members[2].1));
    assert(member_of(members, "relevant_claims"@) == Some(members[2].1));
    assert(member_of(m3, "explanation"@) == Some(members[3].1));
    assert(member_of(m2, "explanation"@) == Some(members[3].1));
    assert(member_of(m1, "explanation"@) == Some(members[3].1));
    assert(member_of(members, "explanation"@) == Some(members[3].1));
    assert(member_of(m4, "specific_features"@) == Some(members[4].1));
    assert(member_of(m3, "specific_features"@) == Some(members[4].1));
    assert(member_of(m2, "specific_features"@) == Some(members[4].1));
    assert(member_of(m1, "specific_features"@) == Some(members[4].1));
    assert(member_of(members, "specific_features"@) == Some(members[4].1));
}

/// Read back, the JSON array of a list of products gives that list.
pub proof fn lemma_items_round_trip(items: Seq<ProductItemView>)
    ensures
        items_of_json(items_json(items)) == Some(items),
    decreases items.len(),
{
    let objects = item_jsons(items);
    if items.len() == 0 {
        assert(items =~= Seq::<ProductItemView>::empty());
    } else {
        lemma_items_round_trip(items.drop_last());
        assert(objects.drop_last() =~= item_jsons(items.drop_last()));
        lemma_item_round_trip(items.last());
        assert(items.drop_last().push(items.last()) =~= items);
    }
}

impl AssessInfringementV1ProductItem {
    pub fn new(
        product_name: String,
        infringement_likelihood: String,
        relevant_claims: Vec<String>,
        explanation: String,
        specific_features: Vec<String>,
    ) -> (out: Self)
        ensures
            out@ == (ProductItemView {
                product_name: product_name@,
                infringement_likelihood: infringement_likelihood@,
                relevant_claims: texts(relevant_claims@),
                explanation: explanation@,
                specific_features: texts(specific_features@),
            }),
    {
        Self {
            product_name,
            infringement_likelihood,
            relevant_claims,
            explanation,
            specific_features,
        }
    }

    /// The product of the answer that reports `product_infringement`.
    pub fn from_product_infringement_dto(product_infringement: &ProductInfrigement) -> (out: Self)
        ensures
            out@ == item_of_finding(product_infringement@),
    {
        Self::new(
            product_infringement.product_name.clone(),
            product_infringement.infringement_likelihood.percent(),
            clone_strings(&product_infringement.relevant_claims),
            product_infringement.explanation.clone(),
            clone_strings(&product_infringement.specific_features),
        )
    }

    /// The JSON object of the product.
    pub fn to_json(&self) -> (out: Json)
        ensures
            out@ == item_json(self@),
    {
        let mut members: Vec<(String, Json)> = Vec::new();
        proof {
            assert(members_view(members@) =~= Seq::empty());
        }
        push_member(&mut members, "product_name", Json::text(self.product_name.clone()));
        push_member(
            &mut members,
            "infringement_likelihood",
            Json::text(self.infringement_likelihood.clone()),
        );
        push_member(&mut members, "relevant_claims", Json::of_text_list(&self.relevant_claims));
        push_member(&mut members, "explanation", Json::text(self.explanation.clone()));
        push_member(&mut members, "specific_features", Json::of_text_list(&self.specific_features));
        proof {
            assert(members_view(members@) =~= item_members(self@));
        }
        Json::object(members)
    }

    /// The product that a JSON object describes.
    pub fn from_json(json: &Json) -> (out: Option<Self>)
        ensures
            match out {
                Some(item) => item_of_json(json@) == Some(item@),
                None => item_of_json(json@) is None,
            },
    {
        let product_name = match json.get_str("product_name") {
            Some(s) => s.to_owned(),
            None => {
                return None;
            },
        };
        let infringement_likelihood = match json.get_str("infringement_likelihood") {
            Some(s) => s.to_owned(),
            None => {
                return None;
            },
        };
        let relevant_claims = match json.get_text_list("relevant_claims") {
            Some(list) => list,
            None => {
                return None;
            },
        };
        let explanation = match json.get_str("explanation") {
            Some(s) => s.to_owned(),
            None => {
                return None;
            },
        };
        let specific_features = match json.get_text_list("specific_features") {
            Some(list) => list,
            None => {
                return None;
            },
        };
        Some(
            Self::new(
                product_name,
                infringement_likelihood,
                relevant_claims,
                explanation,
                specific_features,
            ),
        )
    }
}

/// The JSON array of `items`.
pub fn items_to_json(items: &Vec<AssessInfringementV1ProductItem>) -> (out: Json)
    ensures
        out@ == items_json(items.deep_view()),
{
    let ghost wanted = item_jsons(items.deep_view());
    let mut objects: Vec<Json> = Vec::new();
    let mut i: usize = 0;
    proof {
        assert(items_view(objects@) =~= wanted.take(0));
    }
    while i < items.len()
        invariant
            i <= items.len(),
            wanted == item_jsons(items.deep_view()),
            items_view(objects@) == wanted.take(i as int),
        decreases items.len() - i,
    {
        push_item(&mut objects, items[i].to_json());
        proof {
            assert(wanted.take(i + 1) =~= wanted.take(i as int).push(wanted[i as int]));
        }
        i += 1;
    }
    proof {
        assert(wanted.take(items.len() as int) =~= wanted);
    }
    Json::array(objects)
}

/// The products that a JSON array describes.
pub fn items_from_json(json: &Json) -> (out: Option<Vec<AssessInfringementV1ProductItem>>)
    ensures
        match out {
            Some(items) => items_of_json(json@) == Some(items.deep_view()),
            None => items_of_json(json@) is None,
        },
{
    match json.as_array() {
        Some(objects) => {
            let ghost all = items_view(objects@);
            let mut out: Vec<AssessInfringementV1ProductItem> = Vec::new();
            let mut i: usize = 0;
            proof {
                assert(all.take(0) =~= Seq::<JsonValue>::empty());
                assert(out.deep_view() =~= Seq::<ProductItemView>::empty());
            }
            while i < objects.len()
                invariant
                    i <= objects.len(),
                    all == items_view(objects@),
                    json@.items() == Some(all),
                    items_of_jsons(all.take(i as int)) == Some(out.deep_view()),
                decreases objects.len() - i,
            {
                proof {
                    assert(all.take(i + 1).drop_last() =~= all.take(i as int));
                    assert(all.take(i + 1).last() == objects@[i as int]@);
                }
                let ghost before = out.deep_view();
                match AssessInfringementV1ProductItem::from_json(&objects[i]) {
                    Some(item) => {
                        let ghost read = item@;
                        out.push(item);
                        proof {
                            assert(out.deep_view() =~= before.push(read));
                        }
                    },
                    None => {
                        proof {
                            lemma_items_need_items(all, i as int);
                        }
                        return None;
                    },
                }
                i += 1;
            }
            proof {
                assert(all.take(objects.len() as int) =~= all);
            }
            Some(out)
        },
        None => None,
    }
}

/// Where one of `items` describes no product, they describe no list of
/// products.
pub proof fn lemma_items_need_items(items: Seq<JsonValue>, at: int)
    requires
        0 <= at < items.len(),
        item_of_json(items[at]) is None,
    ensures
        items_of_jsons(items) is None,
    decreases items.len(),
{
    if at < items.len() - 1 {
        lemma_items_need_items(items.drop_last(), at);
    }
}

/// The answer to a request for an assessment.
#[derive(Debug)]
pub struct AssessInfringementV1Resp {
    pub patent_id: String,
    pub company_name: String,
    /// When the assessment was made, as ISO 8601 text.
    pub analysis_date: String,
    /// The products that count, from the greatest likelihood down.
    pub top_infringing_products: Vec<AssessInfringementV1ProductItem>,
    pub overall_risk_assessment: String,
}

/// What an answer holds.
pub struct RespView {
    pub patent_id: Seq<char>,
    pub company_name: Seq<char>,
    pub analysis_date: Seq<char>,
    pub top_infringing_products: Seq<ProductItemView>,
    pub overall_risk_assessment: Seq<char>,
}

impl View for AssessInfringementV1Resp {
    type V = RespView;

    open spec fn view(&self) -> RespView {
        RespView {
            patent_id: self.patent_id@,
            company_name: self.company_name@,
            analysis_date: self.analysis_date@,
            top_infringing_products: self.top_infringing_products.deep_view(),
            overall_risk_assessment: self.overall_risk_assessment@,
        }
    }
}

impl DeepView for AssessInfringementV1Resp {
    type V = RespView;

    open spec fn deep_view(&self) -> RespView {
        self@
    }
}

/// The answer that reports `findings` about `patent` and `company` with the
/// summary `summary`, made at the instant whose text is `analysis_date`.
pub open spec fn answer(
    patent: PatentView,
    company: CompanyView,
    findings: Seq<FindingView>,
    summary: Seq<char>,
    analysis_date: Seq<char>,
) -> RespView {
    RespView {
        patent_id: patent.publication_number,
        company_name: company.name,
        analysis_date,
        top_infringing_products: items_of_findings(findings),
        overall_risk_assessment: summary,
    }
}

impl AssessInfringementV1Resp {
    pub fn new(
        patent_id: String,
        company_name: String,
        analysis_date: String,
        top_infringing_products: Vec<AssessInfringementV1ProductItem>,
        overall_risk_assessment: String,
    ) -> (out: Self)
        ensures
            out@ == (RespView {
                patent_id: patent_id@,
                company_name: company_name@,
                analysis_date: analysis_date@,
                top_infringing_products: top_infringing_products.deep_view(),
                overall_risk_assessment: overall_risk_assessment@,
            }),
    {
        Self {
            patent_id,
            company_name,
            analysis_date,
            top_infringing_products,
            overall_risk_assessment,
        }
    }

    /// The answer that reports `infrigements` about `patent` and `company`
    /// with the summary `summary`, dated `analysis_date`.
    pub fn assemble(
        patent: &Patent,
        company: &Company,
        infrigements: &Vec<ProductInfrigement>,
        summary: &String,
        analysis_date: String,
    ) -> (out: Self)
        ensures
            out@ == answer(
                patent@,
                company@,
                infrigements.deep_view(),
                summary@,
                analysis_date@,
            ),
    {
        let mut items: Vec<AssessInfringementV1ProductItem> = Vec::new();
        let mut i: usize = 0;
        let ghost wanted = items_of_findings(infrigements.deep_view());
        while i < infrigements.len()
            invariant
                i <= infrigements.len(),
                wanted == items_of_findings(infrigements.deep_view()),
                items.deep_view() == wanted.take(i as int),
            decreases infrigements.len() - i,
        {
            let ghost before = items.deep_view();
            let item = AssessInfringementV1ProductItem::from_product_infringement_dto(
                &infrigements[i],
            );
            items.push(item);
            proof {
                assert(items.deep_view() =~= before.push(items@[i as int]@));
                assert(wanted.take(i + 1) =~= wanted.take(i as int).push(wanted[i as int]));
            }
            i += 1;
        }
        proof {
            assert(wanted.take(infrigements.len() as int) =~= wanted);
        }
        Self::new(
            patent.publication_number.clone(),
            company.name.clone(),
            analysis_date,
            items,
            summary.clone(),
        )
    }

    /// The answer that reports `infrigements` about `patent` and `company`
    /// with the summary `summary`, made at the instant `now`; nothing where
    /// that instant has no ISO 8601 text.
    pub fn from_patent_company(
        patent: &Patent,
        company: &Company,
        infrigements: &Vec<ProductInfrigement>,
        summary: &String,
        now: &Timestamp,
    ) -> (out: Option<Self>)
        ensures
            match iso8601_text(now.secs as int, now.nanos as int) {
                Some(date) => out is Some && out->0@ == answer(
                    patent@,
                    company@,
                    infrigements.deep_view(),
                    summary@,
                    date,
                ),
                None => out is None,
            },
    {
        match iso8601(now) {
            Some(date) => Some(Self::assemble(patent, company, infrigements, summary, date)),
            None => None,
        }
    }
}

} // verus!
