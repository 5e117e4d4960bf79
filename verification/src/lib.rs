//! Assessing whether the products of a company infringe a patent.
//!
//! The library holds the reference data of patents and companies, words the
//! questions that are put to a language model about each product, reads its
//! replies into findings, ranks the findings, and assembles the answer. It
//! also holds what is stored of an assessment and how that is read again.
//! Sending requests, serving routes and talking to the database are left to
//! the program around it, which is told step by step what to do next.

pub mod assess_infringement_v1;
pub mod assessments;
pub mod asset_helper;
pub mod company;
pub mod config;
pub mod create_assessment_v1;
pub mod errors;
pub mod gpt_groq;
pub mod infrigement;
pub mod json;
pub mod likelihood;
pub mod orchestrator;
pub mod patent;
pub mod ranking;
pub mod root;
pub mod test_log;
pub mod text;
pub mod time;
