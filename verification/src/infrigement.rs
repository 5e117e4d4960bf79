//! Findings: what a reply of the language model says about one product and
//! one patent, and how a reply is read.
//!
//! A reply is read line by line, a line ending at a line feed. A line that
//! begins with `relevant_claims:` or `specific_features:` gives a list: the
//! text behind the first colon, cut at the commas, each entry trimmed. A
//! line that begins with `explanation:` gives the explanation: all of the
//! text behind the first colon, as it stands. Where a field has several
//! lines, the last one counts; where it has none, the field is empty. Every
//! other line is passed over, and no reply is refused.

use crate::company::{Product, ProductView};
use crate::likelihood::Likelihood;
use crate::patent::{Patent, PatentView};
use crate::text::{
    after_first, after_first_chars, chars_of, clone_strings, join, join_strings,
    lemma_after_first_at, list_entries, list_entries_of, rows, split, split_chars, starts_with,
    string_of, texts,
};
use vstd::prelude::*;
use vstd::string::*;

verus! {

/// What the language model found about one product and one patent.
#[derive(Debug)]
pub struct ProductInfrigement {
    pub patent_pub_id: String,
    pub product_name: String,
    pub infringement_likelihood: Likelihood,
    pub relevant_claims: Vec<String>,
    pub explanation: String,
    pub specific_features: Vec<String>,
}

/// What a finding holds.
pub struct FindingView {
    pub patent_pub_id: Seq<char>,
    pub product_name: Seq<char>,
    pub likelihood: Likelihood,
    pub relevant_claims: Seq<Seq<char>>,
    pub explanation: Seq<char>,
    pub specific_features: Seq<Seq<char>>,
}

impl View for ProductInfrigement {
    type V = FindingView;

    open spec fn view(&self) -> FindingView {
        FindingView {
            patent_pub_id: self.patent_pub_id@,
            product_name: self.product_name@,
            likelihood: self.infringement_likelihood,
            relevant_claims: texts(self.relevant_claims@),
            explanation: self.explanation@,
            specific_features: texts(self.specific_features@),
        }
    }
}

impl DeepView for ProductInfrigement {
    type V = FindingView;

    open spec fn deep_view(&self) -> FindingView {
        self@
    }
}

impl Clone for ProductInfrigement {
    fn clone(&self) -> (out: Self)
        ensures
            out@ == self@,
    {
        ProductInfrigement {
            patent_pub_id: self.patent_pub_id.clone(),
            product_name: self.product_name.clone(),
            infringement_likelihood: self.infringement_likelihood,
            relevant_claims: clone_strings(&self.relevant_claims),
            explanation: self.explanation.clone(),
            specific_features: clone_strings(&self.specific_features),
        }
    }
}

/// The last of `lines` that begins with `prefix`, if there is one.
pub open spec fn last_with_prefix(lines: Seq<Seq<char>>, prefix: Seq<char>) -> Option<Seq<char>>
    decreases lines.len(),
{
    if lines.len() == 0 {
        None
    } else if prefix.is_prefix_of(lines.last()) {
        Some(lines.last())
    } else {
        last_with_prefix(lines.drop_last(), prefix)
    }
}

/// The list that `lines` give for the field named by `prefix`.
pub open spec fn list_field(lines: Seq<Seq<char>>, prefix: Seq<char>) -> Seq<Seq<char>> {
    match last_with_prefix(lines, prefix) {
        Some(line) => list_entries(after_first(line, ':')),
        None => Seq::empty(),
    }
}

/// The text that `lines` give for the field named by `prefix`.
pub open spec fn text_field(lines: Seq<Seq<char>>, prefix: Seq<char>) -> Seq<char> {
    match last_with_prefix(lines, prefix) {
        Some(line) => after_first(line, ':'),
        None => Seq::empty(),
    }
}

/// The lines of a reply.
pub open spec fn reply_lines(reply: Seq<char>) -> Seq<Seq<char>> {
    split(reply, '\n')
}

/// The claim numbers that a reply cites.
pub open spec fn reply_claims(reply: Seq<char>) -> Seq<Seq<char>> {
    list_field(reply_lines(reply), "relevant_claims:"@)
}

/// The explanation that a reply gives.
pub open spec fn reply_explanation(reply: Seq<char>) -> Seq<char> {
    text_field(reply_lines(reply), "explanation:"@)
}

/// The features that a reply names.
pub open spec fn reply_features(reply: Seq<char>) -> Seq<Seq<char>> {
    list_field(reply_lines(reply), "specific_features:"@)
}

/// The finding that a reply gives about `product` and `patent`. Its
/// likelihood is the number of claim numbers cited, whatever they are, over
/// the number of claims of the patent.
pub open spec fn finding_of_reply(
    patent: PatentView,
    product: ProductView,
    reply: Seq<char>,
) -> FindingView {
    FindingView {
        patent_pub_id: patent.publication_number,
        product_name: product.name,
        likelihood: Likelihood {
            cited: reply_claims(reply).len() as usize,
            claims: patent.claims.len() as usize,
        },
        relevant_claims: reply_claims(reply),
        explanation: reply_explanation(reply),
        specific_features: reply_features(reply),
    }
}

impl FindingView {
    /// The finding as it is put before the language model for a summary.
    pub open spec fn prompt_text(self) -> Seq<char> {
        "The evidence suggests that the product '"@ + self.product_name
            + "' infringes on the patent '"@ + self.patent_pub_id + "' with a likelihood of "@
            + self.likelihood.percent_text() + ". The explanation is: "@ + self.explanation
            + ". The specific features are "@ + join(self.specific_features, ", "@)
    }

    /// The finding on one line.
    pub open spec fn line(self) -> Seq<char> {
        "Product '"@ + self.product_name + "' infringes patent '"@ + self.patent_pub_id
            + "'. Likelihood: "@ + self.likelihood.percent_text() + ". Relevant claims: ["@ + join(
            self.relevant_claims,
            ", "@,
        ) + "], Explanation: "@ + self.explanation + ", Specific features: ["@ + join(
            self.specific_features,
            ", "@,
        ) + "]"@
    }
}

impl ProductInfrigement {
    pub fn new(
        patent_pub_id: String,
        product_name: String,
        infringement_likelihood: Likelihood,
        relevant_claims: Vec<String>,
        explanation: String,
        specific_features: Vec<String>,
    ) -> (out: Self)
        ensures
            out@ == (FindingView {
                patent_pub_id: patent_pub_id@,
                product_name: product_name@,
                likelihood: infringement_likelihood,
                relevant_claims: texts(relevant_claims@),
                explanation: explanation@,
                specific_features: texts(specific_features@),
            }),
    {
        Self {
            patent_pub_id,
            product_name,
            infringement_likelihood,
            relevant_claims,
            explanation,
            specific_features,
        }
    }

    /// The finding as it is put before the language model for a summary.
    pub fn str_for_gpt(&self) -> (out: String)
        ensures
            out@ == self@.prompt_text(),
    {
        let specific_features_str = join_strings(&self.specific_features, ", ");
        let likelihood = self.infringement_likelihood.percent();
        let mut out = String::new();
        out.append("The evidence suggests that the product '");
        out.append(self.product_name.as_str());
        out.append("' infringes on the patent '");
        out.append(self.patent_pub_id.as_str());
        out.append("' with a likelihood of ");
        out.append(likelihood.as_str());
        out.append(". The explanation is: ");
        out.append(self.explanation.as_str());
        out.append(". The specific features are ");
        out.append(specific_features_str.as_str());
        proof {
            assert(out@ =~= self@.prompt_text());
        }
        out
    }

    /// The finding on one line.
    pub fn to_string(&self) -> (out: String)
        ensures
            out@ == self@.line(),
    {
        let relevant_claims_str = join_strings(&self.relevant_claims, ", ");
        let specific_features_str = join_strings(&self.specific_features, ", ");
        let likelihood = self.infringement_likelihood.percent();
        let mut out = String::new();
        out.append("Product '");
        out.append(self.product_name.as_str());
        out.append("' infringes patent '");
        out.append(self.patent_pub_id.as_str());
        out.append("'. Likelihood: ");
        out.append(likelihood.as_str());
        out.append(". Relevant claims: [");
        out.append(relevant_claims_str.as_str());
        out.append("], Explanation: ");
        out.append(self.explanation.as_str());
        out.append(", Specific features: [");
        out.append(specific_features_str.as_str());
        out.append("]");
        proof {
            assert(out@ =~= self@.line());
        }
        out
    }

    /// Reads the reply that the language model gave about `product` and
    /// `patent`.
    pub fn from_gpt_response(patent: &Patent, product: &Product, response: String) -> (out: Self)
        ensures
            out@ == finding_of_reply(patent@, product@, response@),
    {
        let chars = chars_of(response.as_str());
        let lines = split_chars(chars.as_slice(), '\n');
        let claims_prefix = chars_of("relevant_claims:");
        let explanation_prefix = chars_of("explanation:");
        let features_prefix = chars_of("specific_features:");
        let mut relevant_claims: Vec<String> = Vec::new();
        let mut explanation = String::new();
        let mut specific_features: Vec<String> = Vec::new();
        let ghost all = reply_lines(response@);
        let mut i: usize = 0;
        proof {
            assert(all.take(0) =~= Seq::<Seq<char>>::empty());
            assert(texts(relevant_claims@) =~= Seq::<Seq<char>>::empty());
            assert(texts(specific_features@) =~= Seq::<Seq<char>>::empty());
        }
        while i < lines.len()
            invariant
                i <= lines.len(),
                all == reply_lines(response@),
                rows(lines@) == all,
                claims_prefix@ == "relevant_claims:"@,
                explanation_prefix@ == "explanation:"@,
                features_prefix@ == "specific_features:"@,
                texts(relevant_claims@) == list_field(all.take(i as int), "relevant_claims:"@),
                explanation@ == text_field(all.take(i as int), "explanation:"@),
                texts(specific_features@) == list_field(
                    all.take(i as int),
                    "specific_features:"@,
                ),
            decreases lines.len() - i,
        {
            let line = lines[i].as_slice();
            proof {
                assert(all.take(i + 1).drop_last() =~= all.take(i as int));
                assert(all.take(i + 1).last() == line@);
            }
            if starts_with(line, claims_prefix.as_slice()) {
                let value = after_first_chars(line, ':');
                relevant_claims = list_entries_of(value.as_slice());
            }
            if starts_with(line, explanation_prefix.as_slice()) {
                let value = after_first_chars(line, ':');
                explanation = string_of(value.as_slice());
            }
            if starts_with(line, features_prefix.as_slice()) {
                let value = after_first_chars(line, ':');
                specific_features = list_entries_of(value.as_slice());
            }
            i += 1;
        }
        proof {
            assert(all.take(lines.len() as int) =~= all);
            assert(patent.claims.deep_view().len() == patent.claims.len());
        }
        let likelihood = Likelihood::new(relevant_claims.len(), patent.claims.len());
        Self::new(
            patent.publication_number.clone(),
            product.name.clone(),
            likelihood,
            relevant_claims,
            explanation,
            specific_features,
        )
    }
}

/// Behind its first colon, a line that begins with the name of a field and
/// a colon holds what follows them: the colon of the name is the first of
/// the line.
pub proof fn lemma_value_follows_name(line: Seq<char>)
    ensures
        "relevant_claims:"@.is_prefix_of(line) ==> after_first(line, ':') == line.subrange(
            16,
            line.len() as int,
        ),
        "explanation:"@.is_prefix_of(line) ==> after_first(line, ':') == line.subrange(
            12,
            line.len() as int,
        ),
        "specific_features:"@.is_prefix_of(line) ==> after_first(line, ':') == line.subrange(
            18,
            line.len() as int,
        ),
{
    reveal_strlit("relevant_claims:");
    reveal_strlit("explanation:");
    reveal_strlit("specific_features:");
    if "relevant_claims:"@.is_prefix_of(line) {
        let name = "relevant_claims:"@;
        assert(name.len() == 16);
        assert forall|j: int| 0 <= j < 16 implies line[j] == name[j] by {
            assert(line.subrange(0, 16)[j] == line[j]);
        }
        lemma_after_first_at(line, ':', 15);
    }
    if "explanation:"@.is_prefix_of(line) {
        let name = "explanation:"@;
        assert(name.len() == 12);
        assert forall|j: int| 0 <= j < 12 implies line[j] == name[j] by {
            assert(line.subrange(0, 12)[j] == line[j]);
        }
        lemma_after_first_at(line, ':', 11);
    }
    if "specific_features:"@.is_prefix_of(line) {
        let name = "specific_features:"@;
        assert(name.len() == 18);
        assert forall|j: int| 0 <= j < 18 implies line[j] == name[j] by {
            assert(line.subrange(0, 18)[j] == line[j]);
        }
        lemma_after_first_at(line, ':', 17);
    }
}

/// A line belongs to at most one field: no line begins with the names of
/// two.
pub proof fn lemma_at_most_one_field(line: Seq<char>)
    ensures
        !("relevant_claims:"@.is_prefix_of(line) && "explanation:"@.is_prefix_of(line)),
        !("relevant_claims:"@.is_prefix_of(line) && "specific_features:"@.is_prefix_of(line)),
        !("explanation:"@.is_prefix_of(line) && "specific_features:"@.is_prefix_of(line)),
{
    reveal_strlit("relevant_claims:");
    reveal_strlit("explanation:");
    reveal_strlit("specific_features:");
    if "relevant_claims:"@.is_prefix_of(line) {
        assert(line.subrange(0, 16)[0] == line[0]);
        assert(line[0] == 'r');
    }
    if "explanation:"@.is_prefix_of(line) {
        assert(line.subrange(0, 12)[0] == line[0]);
        assert(line[0] == 'e');
    }
    if "specific_features:"@.is_prefix_of(line) {
        assert(line.subrange(0, 18)[0] == line[0]);
        assert(line[0] == 's');
    }
}

/// Where no line begins with `prefix`, there is no last such line.
pub proof fn lemma_no_line_with_prefix(lines: Seq<Seq<char>>, prefix: Seq<char>)
    requires
        forall|i: int| 0 <= i < lines.len() ==> !prefix.is_prefix_of(#[trigger] lines[i]),
    ensures
        last_with_prefix(lines, prefix) is None,
    decreases lines.len(),
{
    if lines.len() > 0 {
        lemma_no_line_with_prefix(lines.drop_last(), prefix);
    }
}

/// The last line that begins with `prefix` is the one behind which no line
/// begins with it.
pub proof fn lemma_last_line_with_prefix(lines: Seq<Seq<char>>, prefix: Seq<char>, at: int)
    requires
        0 <= at < lines.len(),
        prefix.is_prefix_of(lines[at]),
        forall|i: int| at < i < lines.len() ==> !prefix.is_prefix_of(#[trigger] lines[i]),
    ensures
        last_with_prefix(lines, prefix) == Some(lines[at]),
    decreases lines.len(),
{
    if at < lines.len() - 1 {
        lemma_last_line_with_prefix(lines.drop_last(), prefix, at);
    }
}

/// The likelihood of a finding is the number of claim numbers that the reply
/// cites over the number of claims of the patent, whatever else the reply,
/// the product or the patent hold.
pub proof fn lemma_likelihood_is_cited_over_claims(
    patent: PatentView,
    product: ProductView,
    reply: Seq<char>,
)
    requires
        reply_claims(reply).len() <= usize::MAX,
        patent.claims.len() <= usize::MAX,
    ensures
        finding_of_reply(patent, product, reply).likelihood.cited == reply_claims(reply).len(),
        finding_of_reply(patent, product, reply).likelihood.claims == patent.claims.len(),
        patent.claims.len() > 0 ==> finding_of_reply(patent, product, reply).likelihood.num()
            == reply_claims(reply).len() && finding_of_reply(
            patent,
            product,
            reply,
        ).likelihood.den() == patent.claims.len(),
{
}

/// Two replies that cite as many claim numbers give the same likelihood for
/// patents with as many claims, however their explanations and features
/// differ.
pub proof fn lemma_likelihood_ignores_other_fields(
    patent_a: PatentView,
    product_a: ProductView,
    reply_a: Seq<char>,
    patent_b: PatentView,
    product_b: ProductView,
    reply_b: Seq<char>,
)
    requires
        reply_claims(reply_a).len() == reply_claims(reply_b).len(),
        patent_a.claims.len() == patent_b.claims.len(),
    ensures
        finding_of_reply(patent_a, product_a, reply_a).likelihood == finding_of_reply(
            patent_b,
            product_b,
            reply_b,
        ).likelihood,
{
}

/// A reply without a line that begins with `explanation:` gives the empty
/// explanation.
pub proof fn lemma_missing_explanation_is_empty(reply: Seq<char>)
    requires
        forall|i: int|
            0 <= i < reply_lines(reply).len() ==> !"explanation:"@.is_prefix_of(
                #[trigger] reply_lines(reply)[i],
            ),
    ensures
        reply_explanation(reply) == Seq::<char>::empty(),
{
    lemma_no_line_with_prefix(reply_lines(reply), "explanation:"@);
}

/// A reply without a line that begins with `relevant_claims:` cites no
/// claim.
pub proof fn lemma_missing_claims_are_none(reply: Seq<char>)
    requires
        forall|i: int|
            0 <= i < reply_lines(reply).len() ==> !"relevant_claims:"@.is_prefix_of(
                #[trigger] reply_lines(reply)[i],
            ),
    ensures
        reply_claims(reply) == Seq::<Seq<char>>::empty(),
{
    lemma_no_line_with_prefix(reply_lines(reply), "relevant_claims:"@);
}

/// Of several lines that begin with `relevant_claims:`, the last one gives
/// the claims.
pub proof fn lemma_last_claims_line_wins(reply: Seq<char>, at: int)
    requires
        0 <= at < reply_lines(reply).len(),
        "relevant_claims:"@.is_prefix_of(reply_lines(reply)[at]),
        forall|i: int|
            at < i < reply_lines(reply).len() ==> !"relevant_claims:"@.is_prefix_of(
                #[trigger] reply_lines(reply)[i],
            ),
    ensures
        reply_claims(reply) == list_entries(after_first(reply_lines(reply)[at], ':')),
{
    lemma_last_line_with_prefix(reply_lines(reply), "relevant_claims:"@, at);
}

/// Of several lines that begin with `explanation:`, the last one gives the
/// explanation.
pub proof fn lemma_last_explanation_line_wins(reply: Seq<char>, at: int)
    requires
        0 <= at < reply_lines(reply).len(),
        "explanation:"@.is_prefix_of(reply_lines(reply)[at]),
        forall|i: int|
            at < i < reply_lines(reply).len() ==> !"explanation:"@.is_prefix_of(
                #[trigger] reply_lines(reply)[i],
            ),
    ensures
        reply_explanation(reply) == after_first(reply_lines(reply)[at], ':'),
{
    lemma_last_line_with_prefix(reply_lines(reply), "explanation:"@, at);
}

} // verus!
