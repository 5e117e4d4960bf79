//! Patents and their claims.

use crate::json::{items_view, json_of_text, option_json, parse_json, Json, JsonValue};
use crate::text::{join, join_strings, texts};
use vstd::hash_map::StringHashMap;
use vstd::prelude::*;
use vstd::string::*;

verus! {

/// One claim of a patent: its number, as text, and its wording.
#[derive(Debug)]
pub struct PatentClam {
    pub patent_number: String,
    pub text: String,
}

/// What a claim holds.
pub struct ClaimView {
    pub number: Seq<char>,
    pub text: Seq<char>,
}

impl View for PatentClam {
    type V = ClaimView;

    open spec fn view(&self) -> ClaimView {
        ClaimView { number: self.patent_number@, text: self.text@ }
    }
}

impl DeepView for PatentClam {
    type V = ClaimView;

    open spec fn deep_view(&self) -> ClaimView {
        self@
    }
}

impl Clone for PatentClam {
    fn clone(&self) -> (out: Self)
        ensures
            out@ == self@,
    {
        PatentClam { patent_number: self.patent_number.clone(), text: self.text.clone() }
    }
}

impl ClaimView {
    /// The claim on one line: its number, a colon, its wording.
    pub open spec fn line(self) -> Seq<char> {
        self.number + ": "@ + self.text
    }
}

impl PatentClam {
    pub fn new(patent_number: String, text: String) -> (out: Self)
        ensures
            out@ == (ClaimView { number: patent_number@, text: text@ }),
    {
        Self { patent_number, text }
    }

    /// The claim on one line.
    pub fn to_string(&self) -> (out: String)
        ensures
            out@ == self@.line(),
    {
        let mut out = self.patent_number.clone();
        out.append(": ");
        out.append(self.text.as_str());
        out
    }
}

/// A patent of the reference data, found by its publication number.
#[derive(Debug)]
pub struct Patent {
    pub id: i32,
    pub publication_number: String,
    pub title: String,
    pub patent_abstract: String,
    pub description: String,
    pub claims: Vec<PatentClam>,
}

/// What a patent holds.
pub struct PatentView {
    pub id: int,
    pub publication_number: Seq<char>,
    pub title: Seq<char>,
    pub patent_abstract: Seq<char>,
    pub description: Seq<char>,
    pub claims: Seq<ClaimView>,
}

impl View for Patent {
    type V = PatentView;

    open spec fn view(&self) -> PatentView {
        PatentView {
            id: self.id as int,
            publication_number: self.publication_number@,
            title: self.title@,
            patent_abstract: self.patent_abstract@,
            description: self.description@,
            claims: self.claims.deep_view(),
        }
    }
}

impl DeepView for Patent {
    type V = PatentView;

    open spec fn deep_view(&self) -> PatentView {
        self@
    }
}

/// A copy of `claims`.
pub fn clone_claims(claims: &Vec<PatentClam>) -> (out: Vec<PatentClam>)
    ensures
        out.deep_view() == claims.deep_view(),
{
    let mut out: Vec<PatentClam> = Vec::new();
    let mut i: usize = 0;
    while i < claims.len()
        invariant
            i <= claims.len(),
            out.deep_view() == claims.deep_view().take(i as int),
        decreases claims.len() - i,
    {
        let ghost before = out.deep_view();
        out.push(claims[i].clone());
        proof {
            assert(out.deep_view() =~= before.push(claims@[i as int]@));
            assert(claims.deep_view().take(i + 1) =~= claims.deep_view().take(i as int).push(
                claims@[i as int]@,
            ));
        }
        i += 1;
    }
    proof {
        assert(claims.deep_view().take(claims.len() as int) =~= claims.deep_view());
    }
    out
}

impl Clone for Patent {
    fn clone(&self) -> (out: Self)
        ensures
            out@ == self@,
    {
        Patent {
            id: self.id,
            publication_number: self.publication_number.clone(),
            title: self.title.clone(),
            patent_abstract: self.patent_abstract.clone(),
            description: self.description.clone(),
            claims: clone_claims(&self.claims),
        }
    }
}

impl PatentView {
    /// The wording of each claim, in order.
    pub open spec fn claim_texts(self) -> Seq<Seq<char>> {
        Seq::new(self.claims.len(), |i: int| self.claims[i].text)
    }

    /// The patent as it is put before the language model: title, abstract,
    /// description and the wording of all claims, joined by commas.
    pub open spec fn prompt_text(self) -> Seq<char> {
        "The patent '"@ + self.title + "' is about "@ + self.patent_abstract + ". Description: "@
            + self.description + ", Claims: ["@ + join(self.claim_texts(), ", "@) + "]"@
    }

    /// The patent on one line: publication number, title and abstract.
    pub open spec fn line(self) -> Seq<char> {
        self.publication_number + ": "@ + self.title + " - "@ + self.patent_abstract
    }

    /// The patent with one more claim at the end.
    pub open spec fn with_claim(self, claim: ClaimView) -> PatentView {
        PatentView { claims: self.claims.push(claim), ..self }
    }
}

impl Patent {
    pub fn new(
        id: i32,
        publication_number: String,
        title: String,
        patent_abstract: String,
        description: String,
        claims: Vec<PatentClam>,
    ) -> (out: Self)
        ensures
            out@ == (PatentView {
                id: id as int,
                publication_number: publication_number@,
                title: title@,
                patent_abstract: patent_abstract@,
                description: description@,
                claims: claims.deep_view(),
            }),
    {
        Self { id, publication_number, title, patent_abstract, description, claims }
    }

    /// Adds `claim` behind the claims that the patent has.
    pub fn add_claim(&mut self, claim: PatentClam)
        ensures
            final(self)@ == old(self)@.with_claim(claim@),
    {
        self.claims.push(claim);
        proof {
            assert(final(self).claims.deep_view() =~= old(self).claims.deep_view().push(claim@));
        }
    }

    /// The wording of each claim, in order.
    pub fn claim_texts(&self) -> (out: Vec<String>)
        ensures
            texts(out@) == self@.claim_texts(),
    {
        let mut out: Vec<String> = Vec::new();
        let mut i: usize = 0;
        while i < self.claims.len()
            invariant
                i <= self.claims.len(),
                texts(out@) == self@.claim_texts().take(i as int),
            decreases self.claims.len() - i,
        {
            let ghost before = texts(out@);
            out.push(self.claims[i].text.clone());
            proof {
                assert(texts(out@) =~= before.push(self.claims@[i as int].text@));
                assert(self@.claim_texts().take(i + 1) =~= self@.claim_texts().take(i as int).push(
                    self.claims@[i as int].text@,
                ));
            }
            i += 1;
        }
        proof {
            assert(self@.claim_texts().take(self.claims.len() as int) =~= self@.claim_texts());
        }
        out
    }

    /// The patent as it is put before the language model.
    pub fn str_for_gpt(&self) -> (out: String)
        ensures
            out@ == self@.prompt_text(),
    {
        let claims_str = join_strings(&self.claim_texts(), ", ");
        let mut out = String::new();
        out.append("The patent '");
        out.append(self.title.as_str());
        out.append("' is about ");
        out.append(self.patent_abstract.as_str());
        out.append(". Description: ");
        out.append(self.description.as_str());
        out.append(", Claims: [");
        out.append(claims_str.as_str());
        out.append("]");
        proof {
            assert(out@ =~= self@.prompt_text());
        }
        out
    }

    /// The patent on one line.
    pub fn to_string(&self) -> (out: String)
        ensures
            out@ == self@.line(),
    {
        let mut out = self.publication_number.clone();
        out.append(": ");
        out.append(self.title.as_str());
        out.append(" - ");
        out.append(self.patent_abstract.as_str());
        out
    }
}

/// The claim that a JSON object describes: its number under `num` and its
/// wording under `text`, both as text.
pub open spec fn claim_of_json(json: JsonValue) -> Option<ClaimView> {
    match (json.text_member("num"@), json.text_member("text"@)) {
        (Some(number), Some(text)) => Some(ClaimView { number, text }),
        _ => None,
    }
}

/// The claims that `items` describe, where each of them describes one.
pub open spec fn claims_of_jsons(items: Seq<JsonValue>) -> Option<Seq<ClaimView>>
    decreases items.len(),
{
    if items.len() == 0 {
        Some(Seq::empty())
    } else {
        match (claims_of_jsons(items.drop_last()), claim_of_json(items.last())) {
            (Some(before), Some(last)) => Some(before.push(last)),
            _ => None,
        }
    }
}

/// The claims that a JSON array describes.
pub open spec fn claims_of_json(json: JsonValue) -> Option<Seq<ClaimView>> {
    match json.items() {
        Some(items) => claims_of_jsons(items),
        None => None,
    }
}

/// The patent that a JSON object describes, given what the text of its
/// member `claims` holds as JSON. The object holds `id`, a whole number that
/// fits in 32 bits with a sign, and the texts `publication_number`, `title`,
/// `abstract`, `description` and `claims`; the claims are an array of
/// claims.
pub open spec fn patent_of_parts(json: JsonValue, claims: Option<JsonValue>) -> Option<PatentView> {
    match (
        json.integer_member("id"@),
        json.text_member("publication_number"@),
        json.text_member("title"@),
        json.text_member("abstract"@),
        json.text_member("description"@),
        json.text_member("claims"@),
        claims,
    ) {
        (
            Some(id),
            Some(publication_number),
            Some(title),
            Some(patent_abstract),
            Some(description),
            Some(_),
            Some(claims_json),
        ) => match claims_of_json(claims_json) {
            Some(claims) => if i32::MIN <= id <= i32::MAX {
                Some(
                    PatentView {
                        id,
                        publication_number,
                        title,
                        patent_abstract,
                        description,
                        claims,
                    },
                )
            } else {
                None
            },
            None => None,
        },
        _ => None,
    }
}

/// What the text under `claims` of a JSON object holds as JSON.
pub open spec fn claims_json_of(json: JsonValue) -> Option<JsonValue> {
    match json.text_member("claims"@) {
        Some(text) => json_of_text(text),
        None => None,
    }
}

/// The patent that a JSON object describes.
pub open spec fn patent_of_json(json: JsonValue) -> Option<PatentView> {
    patent_of_parts(json, claims_json_of(json))
}

/// The patents that `items` describe, each under its publication number; of
/// two with the same number the later one stays.
pub open spec fn patents_of_jsons(items: Seq<JsonValue>) -> Option<Map<Seq<char>, PatentView>>
    decreases items.len(),
{
    if items.len() == 0 {
        Some(Map::empty())
    } else {
        match (patents_of_jsons(items.drop_last()), patent_of_json(items.last())) {
            (Some(before), Some(last)) => Some(before.insert(last.publication_number, last)),
            _ => None,
        }
    }
}

/// The patents that a JSON array describes.
pub open spec fn patents_of_json(json: JsonValue) -> Option<Map<Seq<char>, PatentView>> {
    match json.items() {
        Some(items) => patents_of_jsons(items),
        None => None,
    }
}

/// Where one of `items` describes no claim, they describe no list of claims.
pub proof fn lemma_claims_need_claims(items: Seq<JsonValue>, at: int)
    requires
        0 <= at < items.len(),
        claim_of_json(items[at]) is None,
    ensures
        claims_of_jsons(items) is None,
    decreases items.len(),
{
    if at < items.len() - 1 {
        lemma_claims_need_claims(items.drop_last(), at);
    }
}

/// Where one of `items` describes no patent, they describe no patents.
pub proof fn lemma_patents_need_patents(items: Seq<JsonValue>, at: int)
    requires
        0 <= at < items.len(),
        patent_of_json(items[at]) is None,
    ensures
        patents_of_jsons(items) is None,
    decreases items.len(),
{
    if at < items.len() - 1 {
        lemma_patents_need_patents(items.drop_last(), at);
    }
}

impl PatentClam {
    /// The claim that a JSON object describes.
    pub fn from_json(json_data: &Json) -> (out: Option<Self>)
        ensures
            match out {
                Some(claim) => claim_of_json(json_data@) == Some(claim@),
                None => claim_of_json(json_data@) is None,
            },
    {
        let number = match json_data.get_str("num") {
            Some(s) => s.to_owned(),
            None => {
                return None;
            },
        };
        let text = match json_data.get_str("text") {
            Some(s) => s.to_owned(),
            None => {
                return None;
            },
        };
        Some(Self::new(number, text))
    }

    /// The claims that a JSON array describes.
    pub fn from_json_array(json_data: &Json) -> (out: Option<Vec<Self>>)
        ensures
            match out {
                Some(claims) => claims_of_json(json_data@) == Some(claims.deep_view()),
                None => claims_of_json(json_data@) is None,
            },
    {
        match json_data.as_array() {
            Some(items) => {
                let mut out: Vec<PatentClam> = Vec::new();
                let mut i: usize = 0;
                let ghost all = items_view(items@);
                proof {
                    assert(all.take(0) =~= Seq::<JsonValue>::empty());
                    assert(out.deep_view() =~= Seq::<ClaimView>::empty());
                }
                while i < items.len()
                    invariant
                        i <= items.len(),
                        all == items_view(items@),
                        json_data@.items() == Some(all),
                        claims_of_jsons(all.take(i as int)) == Some(out.deep_view()),
                    decreases items.len() - i,
                {
                    proof {
                        assert(all.take(i + 1).drop_last() =~= all.take(i as int));
                        assert(all.take(i + 1).last() == items@[i as int]@);
                    }
                    let ghost before = out.deep_view();
                    match PatentClam::from_json(&items[i]) {
                        Some(claim) => {
                            let ghost read = claim@;
                            out.push(claim);
                            proof {
                                assert(out.deep_view() =~= before.push(read));
                            }
                        },
                        None => {
                            proof {
                                lemma_claims_need_claims(all, i as int);
                            }
                            return None;
                        },
                    }
                    i += 1;
                }
                proof {
                    assert(all.take(items.len() as int) =~= all);
                }
                Some(out)
            },
            None => None,
        }
    }
}

impl Patent {
    /// The patent that a JSON object describes, given what the text of its
    /// member `claims` holds as JSON.
    pub fn from_parts(json_data: &Json, claims: Option<Json>) -> (out: Option<Self>)
        ensures
            match out {
                Some(patent) => patent_of_parts(json_data@, option_json(claims)) == Some(patent@),
                None => patent_of_parts(json_data@, option_json(claims)) is None,
            },
    {
        let id = match json_data.get_i64("id") {
            Some(n) => n,
            None => {
                return None;
            },
        };
        let publication_number = match json_data.get_str("publication_number") {
            Some(s) => s.to_owned(),
            None => {
                return None;
            },
        };
        let title = match json_data.get_str("title") {
            Some(s) => s.to_owned(),
            None => {
                return None;
            },
        };
        let patent_abstract = match json_data.get_str("abstract") {
            Some(s) => s.to_owned(),
            None => {
                return None;
            },
        };
        let description = match json_data.get_str("description") {
            Some(s) => s.to_owned(),
            None => {
                return None;
            },
        };
        if json_data.get_str("claims").is_none() {
            return None;
        }
        let claims_json = match claims {
            Some(value) => value,
            None => {
                return None;
            },
        };
        let claims = match PatentClam::from_json_array(&claims_json) {
            Some(list) => list,
            None => {
                return None;
            },
        };
        if id < -2147483648 || id > 2147483647 {
            return None;
        }
        Some(Self::new(id as i32, publication_number, title, patent_abstract, description, claims))
    }

    /// The patent that a JSON object describes. Its claims are held as text
    /// under `claims`, which is read as JSON in its turn.
    pub fn from_json(json_data: &Json) -> (out: Option<Self>)
        ensures
            match out {
                Some(patent) => patent_of_json(json_data@) == Some(patent@),
                None => patent_of_json(json_data@) is None,
            },
    {
        let claims = match json_data.get_str("claims") {
            Some(text) => parse_json(text),
            None => None,
        };
        Self::from_parts(json_data, claims)
    }
}

/// The patents of the reference data, each under its publication number.
pub struct Patents {
    pub pub_patent_map: StringHashMap<Patent>,
}

impl View for Patents {
    type V = Map<Seq<char>, PatentView>;

    open spec fn view(&self) -> Map<Seq<char>, PatentView> {
        self.pub_patent_map@.map_values(|p: Patent| p@)
    }
}

impl Patents {
    /// No patents.
    pub fn new() -> (out: Self)
        ensures
            out@ == Map::<Seq<char>, PatentView>::empty(),
    {
        let out = Self { pub_patent_map: StringHashMap::new() };
        proof {
            assert(out@ =~= Map::<Seq<char>, PatentView>::empty());
        }
        out
    }

    /// Puts `patent` under its publication number, in place of the patent
    /// that was there, if any.
    pub fn add_patent(&mut self, patent: Patent)
        ensures
            final(self)@ == old(self)@.insert(patent@.publication_number, patent@),
    {
        let key = patent.publication_number.clone();
        self.pub_patent_map.insert(key, patent);
        proof {
            assert(final(self)@ =~= old(self)@.insert(patent@.publication_number, patent@));
        }
    }

    /// The patent with the publication number `publication_number`.
    pub fn get(&self, publication_number: &str) -> (out: Option<&Patent>)
        ensures
            match out {
                Some(patent) => self@.contains_key(publication_number@)
                    && self@[publication_number@] == patent@,
                None => !self@.contains_key(publication_number@),
            },
    {
        self.pub_patent_map.get(publication_number)
    }

    /// The patents that a JSON array describes.
    pub fn from_json(json_data: &Json) -> (out: Option<Self>)
        ensures
            match out {
                Some(patents) => patents_of_json(json_data@) == Some(patents@),
                None => patents_of_json(json_data@) is None,
            },
    {
        match json_data.as_array() {
            Some(items) => {
                let mut out = Patents::new();
                let mut i: usize = 0;
                let ghost all = items_view(items@);
                proof {
                    assert(all.take(0) =~= Seq::<JsonValue>::empty());
                }
                while i < items.len()
                    invariant
                        i <= items.len(),
                        all == items_view(items@),
                        json_data@.items() == Some(all),
                        patents_of_jsons(all.take(i as int)) == Some(out@),
                    decreases items.len() - i,
                {
                    proof {
                        assert(all.take(i + 1).drop_last() =~= all.take(i as int));
                        assert(all.take(i + 1).last() == items@[i as int]@);
                    }
                    match Patent::from_json(&items[i]) {
                        Some(patent) => {
                            out.add_patent(patent);
                        },
                        None => {
                            proof {
                                lemma_patents_need_patents(all, i as int);
                            }
                            return None;
                        },
                    }
                    i += 1;
                }
                proof {
                    assert(all.take(items.len() as int) =~= all);
                }
                Some(out)
            },
            None => None,
        }
    }
}

} // verus!
