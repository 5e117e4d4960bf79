//! Companies and their products.

use crate::json::{items_view, Json, JsonValue};
use crate::text::{join, join_strings, texts};
use vstd::hash_map::StringHashMap;
use vstd::prelude::*;
use vstd::string::*;

verus! {

/// A product of a company: its name and a description in free text.
#[derive(Debug)]
pub struct Product {
    pub name: String,
    pub description: String,
}

/// What a product holds.
pub struct ProductView {
    pub name: Seq<char>,
    pub description: Seq<char>,
}

impl View for Product {
    type V = ProductView;

    open spec fn view(&self) -> ProductView {
        ProductView { name: self.name@, description: self.description@ }
    }
}

impl DeepView for Product {
    type V = ProductView;

    open spec fn deep_view(&self) -> ProductView {
        self@
    }
}

impl Clone for Product {
    fn clone(&self) -> (out: Self)
        ensures
            out@ == self@,
    {
        Product { name: self.name.clone(), description: self.description.clone() }
    }
}

impl ProductView {
    /// The product as it is put before the language model.
    pub open spec fn prompt_text(self) -> Seq<char> {
        "The product '"@ + self.name + "' is about "@ + self.description
    }

    /// The product on one line: its name, a colon, its description.
    pub open spec fn line(self) -> Seq<char> {
        self.name + ": "@ + self.description
    }
}

impl Product {
    pub fn new(name: String, description: String) -> (out: Self)
        ensures
            out@ == (ProductView { name: name@, description: description@ }),
    {
        Self { name, description }
    }

    /// The product as it is put before the language model.
    pub fn str_for_gpt(&self) -> (out: String)
        ensures
            out@ == self@.prompt_text(),
    {
        let mut out = String::new();
        out.append("The product '");
        out.append(self.name.as_str());
        out.append("' is about ");
        out.append(self.description.as_str());
        proof {
            assert(out@ =~= self@.prompt_text());
        }
        out
    }

    /// The product on one line.
    pub fn to_string(&self) -> (out: String)
        ensures
            out@ == self@.line(),
    {
        let mut out = self.name.clone();
        out.append(": ");
        out.append(self.description.as_str());
        out
    }
}

/// A company of the reference data, found by its name.
#[derive(Debug)]
pub struct Company {
    pub name: String,
    pub products: Vec<Product>,
}

/// What a company holds.
pub struct CompanyView {
    pub name: Seq<char>,
    pub products: Seq<ProductView>,
}

impl View for Company {
    type V = CompanyView;

    open spec fn view(&self) -> CompanyView {
        CompanyView { name: self.name@, products: self.products.deep_view() }
    }
}

impl DeepView for Company {
    type V = CompanyView;

    open spec fn deep_view(&self) -> CompanyView {
        self@
    }
}

/// A copy of `products`.
pub fn clone_products(products: &Vec<Product>) -> (out: Vec<Product>)
    ensures
        out.deep_view() == products.deep_view(),
{
    let mut out: Vec<Product> = Vec::new();
    let mut i: usize = 0;
    while i < products.len()
        invariant
            i <= products.len(),
            out.deep_view() == products.deep_view().take(i as int),
        decreases products.len() - i,
    {
        let ghost before = out.deep_view();
        out.push(products[i].clone());
        proof {
            assert(out.deep_view() =~= before.push(products@[i as int]@));
            assert(products.deep_view().take(i + 1) =~= products.deep_view().take(i as int).push(
                products@[i as int]@,
            ));
        }
        i += 1;
    }
    proof {
        assert(products.deep_view().take(products.len() as int) =~= products.deep_view());
    }
    out
}

impl Clone for Company {
    fn clone(&self) -> (out: Self)
        ensures
            out@ == self@,
    {
        Company { name: self.name.clone(), products: clone_products(&self.products) }
    }
}

impl CompanyView {
    /// The name of each product, in order.
    pub open spec fn product_names(self) -> Seq<Seq<char>> {
        Seq::new(self.products.len(), |i: int| self.products[i].name)
    }

    /// The company on one line: its name, a colon, the names of its products
    /// joined by commas.
    pub open spec fn line(self) -> Seq<char> {
        self.name + ": "@ + join(self.product_names(), ", "@)
    }

    /// The company with one more product at the end.
    pub open spec fn with_product(self, product: ProductView) -> CompanyView {
        CompanyView { products: self.products.push(product), ..self }
    }
}

impl Company {
    pub fn new(name: String, products: Vec<Product>) -> (out: Self)
        ensures
            out@ == (CompanyView { name: name@, products: products.deep_view() }),
    {
        Self { name, products }
    }

    /// Adds `product` behind the products that the company has.
    pub fn add_product(&mut self, product: Product)
        ensures
            final(self)@ == old(self)@.with_product(product@),
    {
        self.products.push(product);
        proof {
            assert(final(self).products.deep_view() =~= old(self).products.deep_view().push(
                product@,
            ));
        }
    }

    /// The name of each product, in order.
    pub fn product_names(&self) -> (out: Vec<String>)
        ensures
            texts(out@) == self@.product_names(),
    {
        let mut out: Vec<String> = Vec::new();
        let mut i: usize = 0;
        while i < self.products.len()
            invariant
                i <= self.products.len(),
                texts(out@) == self@.product_names().take(i as int),
            decreases self.products.len() - i,
        {
            let ghost before = texts(out@);
            out.push(self.products[i].name.clone());
            proof {
                assert(texts(out@) =~= before.push(self.products@[i as int].name@));
                assert(self@.product_names().take(i + 1) =~= self@.product_names().take(
                    i as int,
                ).push(self.products@[i as int].name@));
            }
            i += 1;
        }
        proof {
            assert(self@.product_names().take(self.products.len() as int)
                =~= self@.product_names());
        }
        out
    }

    /// The company on one line.
    pub fn to_string(&self) -> (out: String)
        ensures
            out@ == self@.line(),
    {
        let products_str = join_strings(&self.product_names(), ", ");
        let mut out = self.name.clone();
        out.append(": ");
        out.append(products_str.as_str());
        proof {
            assert(out@ =~= self@.line());
        }
        out
    }
}

/// The product that a JSON object describes: the texts under `name` and
/// `description`.
pub open spec fn product_of_json(json: JsonValue) -> Option<ProductView> {
    match (json.text_member("name"@), json.text_member("description"@)) {
        (Some(name), Some(description)) => Some(ProductView { name, description }),
        _ => None,
    }
}

/// The products that `items` describe, where each of them describes one.
pub open spec fn products_of_jsons(items: Seq<JsonValue>) -> Option<Seq<ProductView>>
    decreases items.len(),
{
    if items.len() == 0 {
        Some(Seq::empty())
    } else {
        match (products_of_jsons(items.drop_last()), product_of_json(items.last())) {
            (Some(before), Some(last)) => Some(before.push(last)),
            _ => None,
        }
    }
}

/// The company that a JSON object describes: the text under `name` and the
/// array of products under `products`.
pub open spec fn company_of_json(json: JsonValue) -> Option<CompanyView> {
    match (json.text_member("name"@), json.items_member("products"@)) {
        (Some(name), Some(items)) => match products_of_jsons(items) {
            Some(products) => Some(CompanyView { name, products }),
            None => None,
        },
        _ => None,
    }
}

/// The companies that `items` describe, each under its name; of two with
/// the same name the later one stays.
pub open spec fn companies_of_jsons(items: Seq<JsonValue>) -> Option<Map<Seq<char>, CompanyView>>
    decreases items.len(),
{
    if items.len() == 0 {
        Some(Map::empty())
    } else {
        match (companies_of_jsons(items.drop_last()), company_of_json(items.last())) {
            (Some(before), Some(last)) => Some(before.insert(last.name, last)),
            _ => None,
        }
    }
}

/// The companies that a JSON object describes: those of the array under
/// `companies`.
pub open spec fn companies_of_json(json: JsonValue) -> Option<Map<Seq<char>, CompanyView>> {
    match json.items_member("companies"@) {
        Some(items) => companies_of_jsons(items),
        None => None,
    }
}

/// Where one of `items` describes no product, they describe no list of
/// products.
pub proof fn lemma_products_need_products(items: Seq<JsonValue>, at: int)
    requires
        0 <= at < items.len(),
        product_of_json(items[at]) is None,
    ensures
        products_of_jsons(items) is None,
    decreases items.len(),
{
    if at < items.len() - 1 {
        lemma_products_need_products(items.drop_last(), at);
    }
}

/// Where one of `items` describes no company, they describe no companies.
pub proof fn lemma_companies_need_companies(items: Seq<JsonValue>, at: int)
    requires
        0 <= at < items.len(),
        company_of_json(items[at]) is None,
    ensures
        companies_of_jsons(items) is None,
    decreases items.len(),
{
    if at < items.len() - 1 {
        lemma_companies_need_companies(items.drop_last(), at);
    }
}

impl Product {
    /// The product that a JSON object describes.
    pub fn from_json(json_data: &Json) -> (out: Option<Self>)
        ensures
            match out {
                Some(product) => product_of_json(json_data@) == Some(product@),
                None => product_of_json(json_data@) is None,
            },
    {
        let name = match json_data.get_str("name") {
            Some(s) => s.to_owned(),
            None => {
                return None;
            },
        };
        let description = match json_data.get_str("description") {
            Some(s) => s.to_owned(),
            None => {
                return None;
            },
        };
        Some(Self::new(name, description))
    }
}

impl Company {
    /// The company that a JSON object describes.
    pub fn from_json(json_data: &Json) -> (out: Option<Self>)
        ensures
            match out {
                Some(company) => company_of_json(json_data@) == Some(company@),
                None => company_of_json(json_data@) is None,
            },
    {
        let name = match json_data.get_str("name") {
            Some(s) => s.to_owned(),
            None => {
                return None;
            },
        };
        let items = match json_data.get_array("products") {
            Some(items) => items,
            None => {
                return None;
            },
        };
        let ghost all = items_view(items@);
        let mut products: Vec<Product> = Vec::new();
        let mut i: usize = 0;
        proof {
            assert(all.take(0) =~= Seq::<JsonValue>::empty());
            assert(products.deep_view() =~= Seq::<ProductView>::empty());
        }
        while i < items.len()
            invariant
                i <= items.len(),
                all == items_view(items@),
                json_data@.text_member("name"@) == Some(name@),
                json_data@.items_member("products"@) == Some(all),
                products_of_jsons(all.take(i as int)) == Some(products.deep_view()),
            decreases items.len() - i,
        {
            proof {
                assert(all.take(i + 1).drop_last() =~= all.take(i as int));
                assert(all.take(i + 1).last() == items@[i as int]@);
            }
            let ghost before = products.deep_view();
            match Product::from_json(&items[i]) {
                Some(product) => {
                    let ghost read = product@;
                    products.push(product);
                    proof {
                        assert(products.deep_view() =~= before.push(read));
                    }
                },
                None => {
                    proof {
                        lemma_products_need_products(all, i as int);
                    }
                    return None;
                },
            }
            i += 1;
        }
        proof {
            assert(all.take(items.len() as int) =~= all);
        }
        Some(Self::new(name, products))
    }
}

/// The companies of the reference data, each under its name.
pub struct Companies {
    pub companies: StringHashMap<Company>,
}

impl View for Companies {
    type V = Map<Seq<char>, CompanyView>;

    open spec fn view(&self) -> Map<Seq<char>, CompanyView> {
        self.companies@.map_values(|c: Company| c@)
    }
}

impl Companies {
    /// No companies.
    pub fn new() -> (out: Self)
        ensures
            out@ == Map::<Seq<char>, CompanyView>::empty(),
    {
        let out = Self { companies: StringHashMap::new() };
        proof {
            assert(out@ =~= Map::<Seq<char>, CompanyView>::empty());
        }
        out
    }

    /// Puts `company` under its name, in place of the company that was
    /// there, if any.
    pub fn add_company(&mut self, company: Company)
        ensures
            final(self)@ == old(self)@.insert(company@.name, company@),
    {
        let key = company.name.clone();
        self.companies.insert(key, company);
        proof {
            assert(final(self)@ =~= old(self)@.insert(company@.name, company@));
        }
    }

    /// The company with the name `name`.
    pub fn get(&self, name: String) -> (out: Option<&Company>)
        ensures
            match out {
                Some(company) => self@.contains_key(name@) && self@[name@] == company@,
                None => !self@.contains_key(name@),
            },
    {
        self.companies.get(name.as_str())
    }

    /// The companies that a JSON object describes.
    pub fn from_json(json_data: &Json) -> (out: Option<Self>)
        ensures
            match out {
                Some(companies) => companies_of_json(json_data@) == Some(companies@),
                None => companies_of_json(json_data@) is None,
            },
    {
        match json_data.get_array("companies") {
            Some(items) => {
                let ghost all = items_view(items@);
                let mut out = Companies::new();
                let mut i: usize = 0;
                proof {
                    assert(all.take(0) =~= Seq::<JsonValue>::empty());
                }
                while i < items.len()
                    invariant
                        i <= items.len(),
                        all == items_view(items@),
                        json_data@.items_member("companies"@) == Some(all),
                        companies_of_jsons(all.take(i as int)) == Some(out@),
                    decreases items.len() - i,
                {
                    proof {
                        assert(all.take(i + 1).drop_last() =~= all.take(i as int));
                        assert(all.take(i + 1).last() == items@[i as int]@);
                    }
                    match Company::from_json(&items[i]) {
                        Some(company) => {
                            out.add_company(company);
                        },
                        None => {
                            proof {
                                lemma_companies_need_companies(all, i as int);
                            }
                            return None;
                        },
                    }
                    i += 1;
                }
                proof {
                    assert(all.take(items.len() as int) =~= all);
                }
                Some(out)
            },
            None => None,
        }
    }
}

} // verus!
