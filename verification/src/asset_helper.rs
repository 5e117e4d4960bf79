//! The reference data: the patents and the companies, read once and then
//! only looked up.

use crate::company::{companies_of_json, Companies, CompanyView};
use crate::json::{json_of_text, option_json, parse_json, Json, JsonValue};
use crate::patent::{patents_of_json, PatentView, Patents};
use vstd::prelude::*;

verus! {

/// Where the two files of reference data lie.
#[derive(Debug)]
pub struct AssetHelperConfig {
    pub company_products_path: String,
    pub patents_path: String,
}

/// The reference data.
pub struct AssetHelper {
    company_products: Companies,
    patents: Patents,
}

/// The companies that JSON text describes, given what it holds as JSON.
pub open spec fn companies_of_parsed(parsed: Option<JsonValue>) -> Option<
    Map<Seq<char>, CompanyView>,
> {
    match parsed {
        Some(json) => companies_of_json(json),
        None => None,
    }
}

/// The patents that JSON text describes, given what it holds as JSON.
pub open spec fn patents_of_parsed(parsed: Option<JsonValue>) -> Option<
    Map<Seq<char>, PatentView>,
> {
    match parsed {
        Some(json) => patents_of_json(json),
        None => None,
    }
}

impl AssetHelper {
    /// The companies of the reference data.
    pub closed spec fn companies(&self) -> Map<Seq<char>, CompanyView> {
        self.company_products@
    }

    /// The patents of the reference data.
    pub closed spec fn patents(&self) -> Map<Seq<char>, PatentView> {
        self.patents@
    }

    pub fn new(company_products: Companies, patents: Patents) -> (out: Self)
        ensures
            out.companies() == company_products@,
            out.patents() == patents@,
    {
        Self { company_products, patents }
    }

    /// The reference data that two values of JSON describe, the companies
    /// first; nothing where either describes none.
    pub fn from_json(company_products: Option<Json>, patents: Option<Json>) -> (out: Option<Self>)
        ensures
            match out {
                Some(assets) => companies_of_parsed(option_json(company_products)) == Some(
                    assets.companies(),
                ) && patents_of_parsed(option_json(patents)) == Some(assets.patents()),
                None => companies_of_parsed(option_json(company_products)) is None
                    || patents_of_parsed(option_json(patents)) is None,
            },
    {
        let companies = match company_products {
            Some(json) => match Companies::from_json(&json) {
                Some(companies) => companies,
                None => {
                    return None;
                },
            },
            None => {
                return None;
            },
        };
        let patents = match patents {
            Some(json) => match Patents::from_json(&json) {
                Some(patents) => patents,
                None => {
                    return None;
                },
            },
            None => {
                return None;
            },
        };
        Some(Self::new(companies, patents))
    }

    /// The reference data that the texts of the two files describe, the
    /// companies first; nothing where either is not the JSON of such data.
    pub fn from_json_texts(company_products_json: &str, patents_json: &str) -> (out: Option<Self>)
        ensures
            match out {
                Some(assets) => companies_of_parsed(json_of_text(company_products_json@)) == Some(
                    assets.companies(),
                ) && patents_of_parsed(json_of_text(patents_json@)) == Some(assets.patents()),
                None => companies_of_parsed(json_of_text(company_products_json@)) is None
                    || patents_of_parsed(json_of_text(patents_json@)) is None,
            },
    {
        Self::from_json(parse_json(company_products_json), parse_json(patents_json))
    }

    pub fn get_company_products(&self) -> (out: &Companies)
        ensures
            out@ == self.companies(),
    {
        &self.company_products
    }

    pub fn get_patents(&self) -> (out: &Patents)
        ensures
            out@ == self.patents(),
    {
        &self.patents
    }
}

} // verus!
