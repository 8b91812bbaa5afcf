use vstd::prelude::*;

use crate::feed::Timestamp;

verus! {

/// The form types a filing header distinguishes.
#[derive(Debug, PartialEq, Eq, Structural, Clone, Copy)]
pub enum Type {
    K10,
    Q10,
    K8,
}

/// The filer's identity as the filing header states it.
#[derive(Debug, Clone)]
pub struct CompanyData {
    pub name: String,
    pub cik: String,
    pub sic: String,
    pub organization_name: String,
    pub irs_number: String,
    pub fiscal_year_end: String,
}

/// The filing's registration values.
#[derive(Debug, Clone)]
pub struct FilingValues {
    pub form_type: Type,
    pub sec_act: String,
    pub sec_file_number: String,
    pub film_number: String,
}

/// The filer's business address.
#[derive(Debug, Clone)]
pub struct BusinessAddress {
    pub primary_street: String,
    pub secondary_street: String,
    pub city: String,
    pub state: String,
    pub zip: String,
    pub business_phone: String,
}

/// The filer's mailing address.
#[derive(Debug, Clone)]
pub struct MailAddress {
    pub primary_street: String,
    pub secondary_street: String,
    pub city: String,
    pub state: String,
    pub zip: String,
}

/// A name the filer formerly went by, and when it changed.
#[derive(Debug, Clone)]
pub struct FormerCompany {
    pub former_conformed_name: String,
    pub date_of_name_change: String,
}

/// Everything the filing header states about the filer.
#[derive(Debug, Clone)]
pub struct FilingFiler {
    pub company_data: CompanyData,
    pub filing_values: FilingValues,
    pub business_address: BusinessAddress,
    pub mail_address: MailAddress,
    pub former_company: Vec<FormerCompany>,
}

/// The dated header of a filing's index-headers document.
#[derive(Debug, Clone)]
pub struct FilingHeader {
    pub accession_number: String,
    pub filing_type: Type,
    pub accepted_date: Timestamp,
    pub period_of_report: Timestamp,
    pub filed_date: Timestamp,
    pub changed_date: Timestamp,
}

/// One document listed in a filing's manifest.
#[derive(Debug, Clone)]
pub struct FilingDocument {
    pub document_type: Type,
    pub sequence: String,
    pub filename: String,
    pub description: String,
    pub document_label: String,
    pub document_url: String,
}

/// A parsed filing: one header, one filer, and the ordered list of the
/// filing's documents. Owned exclusively and immutable after
/// construction; no populating parser exists here yet.
#[derive(Debug, Clone)]
pub struct SecDocument {
    pub header: FilingHeader,
    pub filer: FilingFiler,
    pub document: Vec<FilingDocument>,
}

} // verus!
